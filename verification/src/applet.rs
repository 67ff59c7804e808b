//! The applet's state, and what each message does to it.
//!
//! The applet itself lives in a panel and talks to a desktop; none of that
//! is here. Here is what it knows (`Applet`), what can happen to it
//! (`Message`), and what it then knows and wants done (`update`, `Effect`).

use crate::command::joined;
use crate::config::{Config, ConfigView};
use crate::package_manager::{Package, PackageView};
use vstd::prelude::*;
use vstd::string::StringExecFns;

verus! {

/// What the applet knows.
#[derive(Debug, Clone)]
pub struct Applet {
    /// Whether the popup window is open.
    pub popup_open: bool,
    /// The packages that the last check found.
    pub packages: Vec<Package>,
    /// Whether a check is under way.
    pub checking: bool,
    /// Whether an upgrade was started and is not known to be over.
    pub upgrading: bool,
    /// What went wrong last, if anything.
    pub error: Option<String>,
    /// The settings in force.
    pub config: Config,
    /// The settings as edited, not yet in force.
    pub pending_config: Config,
    /// Whether the popup shows the settings.
    pub showing_settings: bool,
}

/// A text that may be missing, as contracts speak of it.
pub open spec fn text_view(text: Option<String>) -> Option<Seq<char>> {
    match text {
        Some(text) => Some(text@),
        None => None,
    }
}

/// The applet's state as contracts speak of it.
pub struct AppletView {
    pub popup_open: bool,
    pub packages: Seq<PackageView>,
    pub checking: bool,
    pub upgrading: bool,
    pub error: Option<Seq<char>>,
    pub config: ConfigView,
    pub pending_config: ConfigView,
    pub showing_settings: bool,
}

impl View for Applet {
    type V = AppletView;

    open spec fn view(&self) -> AppletView {
        AppletView {
            popup_open: self.popup_open,
            packages: self.packages.deep_view(),
            checking: self.checking,
            upgrading: self.upgrading,
            error: text_view(self.error),
            config: self.config@,
            pending_config: self.pending_config@,
            showing_settings: self.showing_settings,
        }
    }
}

/// What can happen to the applet.
#[derive(Debug)]
pub enum Message {
    /// The panel icon was pressed.
    TogglePopup,
    /// The settings are to be shown.
    OpenSettings,
    /// The settings are to be left.
    CloseSettings,
    /// A window was closed; the flag says whether it was the popup.
    PopupClosed(bool),
    /// A check for updates is asked for.
    CheckForUpdates,
    /// A check for updates is over.
    UpdatesFound(Result<Vec<Package>, String>),
    /// An upgrade is asked for.
    Upgrade,
    /// The terminal for the upgrade was started, or could not be.
    UpgradeStarted(Result<(), String>),
    /// It is time to ask whether the upgrade is still at work.
    CheckUpgradeStatus,
    /// Whether the package tool is still at work.
    UpgradeStatusChecked(bool),
    /// The package databases are to be refreshed.
    RefreshCache,
    /// The refresh is over.
    CacheRefreshed(Result<(), String>),
    /// It is time for the regular check.
    Tick,
    /// Another interval between checks was picked in the settings.
    SetCheckInterval(u64),
    /// The edited settings are to be stored.
    SaveSettings,
    /// The edited settings were stored, or could not be.
    SettingsSaved(Result<(), String>),
}

/// A message as contracts speak of it.
pub enum MessageView {
    TogglePopup,
    OpenSettings,
    CloseSettings,
    PopupClosed(bool),
    CheckForUpdates,
    UpdatesFound(Result<Seq<PackageView>, Seq<char>>),
    Upgrade,
    UpgradeStarted(Result<(), Seq<char>>),
    CheckUpgradeStatus,
    UpgradeStatusChecked(bool),
    RefreshCache,
    CacheRefreshed(Result<(), Seq<char>>),
    Tick,
    SetCheckInterval(u64),
    SaveSettings,
    SettingsSaved(Result<(), Seq<char>>),
}

/// The outcome of something that gives nothing back, as contracts speak of it.
pub open spec fn outcome_view(result: Result<(), String>) -> Result<(), Seq<char>> {
    match result {
        Ok(_) => Ok(()),
        Err(message) => Err(message@),
    }
}

impl View for Message {
    type V = MessageView;

    open spec fn view(&self) -> MessageView {
        match self {
            Message::TogglePopup => MessageView::TogglePopup,
            Message::OpenSettings => MessageView::OpenSettings,
            Message::CloseSettings => MessageView::CloseSettings,
            Message::PopupClosed(ours) => MessageView::PopupClosed(*ours),
            Message::CheckForUpdates => MessageView::CheckForUpdates,
            Message::UpdatesFound(result) => MessageView::UpdatesFound(
                match result {
                    Ok(packages) => Ok(packages.deep_view()),
                    Err(message) => Err(message@),
                },
            ),
            Message::Upgrade => MessageView::Upgrade,
            Message::UpgradeStarted(result) => MessageView::UpgradeStarted(outcome_view(*result)),
            Message::CheckUpgradeStatus => MessageView::CheckUpgradeStatus,
            Message::UpgradeStatusChecked(running) => MessageView::UpgradeStatusChecked(*running),
            Message::RefreshCache => MessageView::RefreshCache,
            Message::CacheRefreshed(result) => MessageView::CacheRefreshed(outcome_view(*result)),
            Message::Tick => MessageView::Tick,
            Message::SetCheckInterval(minutes) => MessageView::SetCheckInterval(*minutes),
            Message::SaveSettings => MessageView::SaveSettings,
            Message::SettingsSaved(result) => MessageView::SettingsSaved(outcome_view(*result)),
        }
    }
}

/// What the applet wants done after a message.
#[derive(Debug)]
pub enum Effect {
    /// Nothing.
    Nothing,
    /// Open the popup window.
    OpenPopup,
    /// Close the popup window.
    ClosePopup,
    /// Check for updates, and answer with `UpdatesFound`.
    CheckUpdates,
    /// Start the upgrade in a terminal, and answer with `UpgradeStarted`.
    RunUpgrade,
    /// Ask whether the package tool is at work, and answer with
    /// `UpgradeStatusChecked`.
    PollRunning,
    /// Refresh the package databases, and answer with `CacheRefreshed`.
    RefreshCache,
    /// Store these settings, and answer with `SettingsSaved`.
    StoreSettings(Config),
}

/// An effect as contracts speak of it.
pub enum EffectView {
    Nothing,
    OpenPopup,
    ClosePopup,
    CheckUpdates,
    RunUpgrade,
    PollRunning,
    RefreshCache,
    StoreSettings(ConfigView),
}

impl View for Effect {
    type V = EffectView;

    open spec fn view(&self) -> EffectView {
        match self {
            Effect::Nothing => EffectView::Nothing,
            Effect::OpenPopup => EffectView::OpenPopup,
            Effect::ClosePopup => EffectView::ClosePopup,
            Effect::CheckUpdates => EffectView::CheckUpdates,
            Effect::RunUpgrade => EffectView::RunUpgrade,
            Effect::PollRunning => EffectView::PollRunning,
            Effect::RefreshCache => EffectView::RefreshCache,
            Effect::StoreSettings(config) => EffectView::StoreSettings(config@),
        }
    }
}

/// The state in which a check has begun, and the wish to have it made.
pub open spec fn check_begun(applet: AppletView) -> (AppletView, EffectView) {
    (AppletView { checking: true, error: None, ..applet }, EffectView::CheckUpdates)
}

/// The state after a message, and what is to be done.
pub open spec fn updated(applet: AppletView, message: MessageView) -> (AppletView, EffectView) {
    match message {
        MessageView::TogglePopup => if applet.popup_open {
            (AppletView { popup_open: false, ..applet }, EffectView::ClosePopup)
        } else {
            (AppletView { popup_open: true, ..applet }, EffectView::OpenPopup)
        },
        MessageView::OpenSettings => (
            AppletView { pending_config: applet.config, showing_settings: true, ..applet },
            EffectView::Nothing,
        ),
        MessageView::CloseSettings => (
            AppletView { showing_settings: false, ..applet },
            EffectView::Nothing,
        ),
        MessageView::PopupClosed(ours) => if ours {
            (
                AppletView { popup_open: false, showing_settings: false, ..applet },
                EffectView::Nothing,
            )
        } else {
            (applet, EffectView::Nothing)
        },
        MessageView::CheckForUpdates => check_begun(applet),
        MessageView::UpdatesFound(result) => match result {
            Ok(packages) => (
                AppletView { checking: false, packages, error: None, ..applet },
                EffectView::Nothing,
            ),
            Err(message) => (
                AppletView { checking: false, error: Some(message), ..applet },
                EffectView::Nothing,
            ),
        },
        MessageView::Upgrade => (AppletView { error: None, ..applet }, EffectView::RunUpgrade),
        MessageView::UpgradeStarted(result) => match result {
            Ok(_) => (AppletView { upgrading: true, ..applet }, EffectView::Nothing),
            Err(message) => (AppletView { error: Some(message), ..applet }, EffectView::Nothing),
        },
        MessageView::CheckUpgradeStatus => (applet, EffectView::PollRunning),
        MessageView::UpgradeStatusChecked(running) => if !running && applet.upgrading {
            (AppletView { upgrading: false, ..applet }, EffectView::RefreshCache)
        } else {
            (applet, EffectView::Nothing)
        },
        MessageView::RefreshCache => (applet, EffectView::RefreshCache),
        MessageView::CacheRefreshed(result) => match result {
            Ok(_) => check_begun(applet),
            Err(message) => (
                AppletView { error: Some("Cache refresh error: "@ + message), ..applet },
                EffectView::Nothing,
            ),
        },
        MessageView::Tick => if applet.upgrading {
            (applet, EffectView::Nothing)
        } else {
            check_begun(applet)
        },
        MessageView::SetCheckInterval(minutes) => (
            AppletView {
                pending_config: ConfigView {
                    check_interval_minutes: minutes,
                    ..applet.pending_config
                },
                ..applet
            },
            EffectView::Nothing,
        ),
        MessageView::SaveSettings => (applet, EffectView::StoreSettings(applet.pending_config)),
        MessageView::SettingsSaved(result) => match result {
            Ok(_) => (
                AppletView { config: applet.pending_config, showing_settings: false, ..applet },
                EffectView::Nothing,
            ),
            Err(message) => (
                AppletView { error: Some("Failed to save settings: "@ + message), ..applet },
                EffectView::Nothing,
            ),
        },
    }
}

impl Applet {
    /// The applet at its start, with the given settings: the popup closed,
    /// no package known, nothing under way.
    pub fn new(config: Config) -> (applet: Applet)
        ensures
            applet@ == (AppletView {
                popup_open: false,
                packages: Seq::empty(),
                checking: false,
                upgrading: false,
                error: None,
                config: config@,
                pending_config: config@,
                showing_settings: false,
            }),
    {
        let pending_config = config.duplicate();
        let applet = Applet {
            popup_open: false,
            packages: Vec::new(),
            checking: false,
            upgrading: false,
            error: None,
            config,
            pending_config,
            showing_settings: false,
        };
        assert(applet.packages.deep_view() =~= Seq::empty());
        applet
    }

    fn begin_check(&mut self) -> (effect: Effect)
        ensures
            (final(self)@, effect@) == check_begun(old(self)@),
    {
        self.checking = true;
        self.error = None;
        Effect::CheckUpdates
    }

    /// Takes a message: brings the state up to date and says what is to be
    /// done.
    pub fn update(&mut self, message: Message) -> (effect: Effect)
        ensures
            (final(self)@, effect@) == updated(old(self)@, message@),
    {
        match message {
            Message::TogglePopup => {
                if self.popup_open {
                    self.popup_open = false;
                    Effect::ClosePopup
                } else {
                    self.popup_open = true;
                    Effect::OpenPopup
                }
            },
            Message::OpenSettings => {
                self.pending_config = self.config.duplicate();
                self.showing_settings = true;
                Effect::Nothing
            },
            Message::CloseSettings => {
                self.showing_settings = false;
                Effect::Nothing
            },
            Message::PopupClosed(ours) => {
                if ours {
                    self.popup_open = false;
                    self.showing_settings = false;
                }
                Effect::Nothing
            },
            Message::CheckForUpdates => self.begin_check(),
            Message::UpdatesFound(result) => {
                self.checking = false;
                match result {
                    Ok(packages) => {
                        self.packages = packages;
                        self.error = None;
                    },
                    Err(message) => {
                        self.error = Some(message);
                    },
                }
                Effect::Nothing
            },
            Message::Upgrade => {
                self.error = None;
                Effect::RunUpgrade
            },
            Message::UpgradeStarted(result) => {
                match result {
                    Ok(_) => {
                        self.upgrading = true;
                    },
                    Err(message) => {
                        self.error = Some(message);
                    },
                }
                Effect::Nothing
            },
            Message::CheckUpgradeStatus => Effect::PollRunning,
            Message::UpgradeStatusChecked(running) => {
                if !running && self.upgrading {
                    self.upgrading = false;
                    Effect::RefreshCache
                } else {
                    Effect::Nothing
                }
            },
            Message::RefreshCache => Effect::RefreshCache,
            Message::CacheRefreshed(result) => match result {
                Ok(_) => self.begin_check(),
                Err(message) => {
                    self.error = Some(joined("Cache refresh error: ", message.as_str()));
                    Effect::Nothing
                },
            },
            Message::Tick => {
                if self.upgrading {
                    Effect::Nothing
                } else {
                    self.begin_check()
                }
            },
            Message::SetCheckInterval(minutes) => {
                self.pending_config.check_interval_minutes = minutes;
                Effect::Nothing
            },
            Message::SaveSettings => Effect::StoreSettings(self.pending_config.duplicate()),
            Message::SettingsSaved(result) => match result {
                Ok(_) => {
                    self.config = self.pending_config.duplicate();
                    self.showing_settings = false;
                    Effect::Nothing
                },
                Err(message) => {
                    self.error = Some(joined("Failed to save settings: ", message.as_str()));
                    Effect::Nothing
                },
            },
        }
    }
}

/// The character for a decimal digit.
pub open spec fn digit(d: int) -> char {
    ((48 + d) as u8) as char
}

/// A number written in decimal, without leading zeros.
pub open spec fn decimal(n: nat) -> Seq<char>
    decreases n,
{
    if n < 10 {
        seq![digit(n as int)]
    } else {
        decimal(n / 10).push(digit((n % 10) as int))
    }
}

/// What follows a noun to which the number `n` belongs: nothing for one, an
/// `s` for every other number.
pub open spec fn plural(n: nat) -> Seq<char> {
    if n == 1 {
        Seq::empty()
    } else {
        "s"@
    }
}

/// How many of the packages come from the AUR.
pub open spec fn aur_count(packages: Seq<PackageView>) -> nat
    decreases packages.len(),
{
    if packages.len() == 0 {
        0
    } else {
        aur_count(packages.drop_last()) + if packages.last().is_aur {
            1nat
        } else {
            0nat
        }
    }
}

/// No more packages come from the AUR than there are.
pub proof fn lemma_aur_count_bounded(packages: Seq<PackageView>)
    ensures
        aur_count(packages) <= packages.len(),
    decreases packages.len(),
{
    if packages.len() > 0 {
        lemma_aur_count_bounded(packages.drop_last());
    }
}

/// The line that tells of the packages found: how many, and how many of
/// them from the official repositories and from the AUR where both have some.
pub open spec fn found_text(packages: Seq<PackageView>) -> Seq<char> {
    let count = packages.len();
    let aur = aur_count(packages);
    let official = (count - aur) as nat;
    if aur > 0 && official > 0 {
        "⚠ "@ + decimal(count) + " update"@ + plural(count) + " available ("@ + decimal(official)
            + " official + "@ + decimal(aur) + " AUR)"@
    } else if aur > 0 {
        "⚠ "@ + decimal(aur) + " AUR update"@ + plural(aur) + " available"@
    } else {
        "⚠ "@ + decimal(count) + " update"@ + plural(count) + " available"@
    }
}

/// The line that tells where the applet stands: an upgrade under way comes
/// before a check under way, that before an error, that before the packages
/// found.
pub open spec fn status_text(applet: AppletView) -> Seq<char> {
    if applet.upgrading {
        "⚙ Upgrading packages..."@
    } else if applet.checking {
        "🔄 Checking for updates..."@
    } else if applet.error is Some {
        "❌ Error: "@ + applet.error->0
    } else if applet.packages.len() > 0 {
        found_text(applet.packages)
    } else {
        "✓ System is up to date"@
    }
}

/// The intervals between checks that the settings offer, in minutes.
pub open spec fn intervals() -> Seq<u64> {
    seq![5, 10, 15, 20, 30, 45, 60, 90, 120]
}

/// The place of the half hour among the intervals: what the settings show
/// for an interval that they do not offer.
pub open spec fn usual_interval() -> int {
    4
}

/// The place of an interval among those that the settings offer, and the
/// place of the half hour for every other.
pub open spec fn interval_place(minutes: u64) -> int {
    if intervals().contains(minutes) {
        intervals().index_of(minutes)
    } else {
        usual_interval()
    }
}

/// Writes `n` in decimal at the end of `out`.
pub fn append_decimal(out: &mut String, n: usize)
    ensures
        final(out)@ == old(out)@ + decimal(n as nat),
    decreases n,
{
    if n >= 10 {
        append_decimal(out, n / 10);
    }
    let d: u8 = (n % 10) as u8;
    out.push((48u8 + d) as char);
    proof {
        let last = digit((n % 10) as int);
        if n >= 10 {
            assert((old(out)@ + decimal((n / 10) as nat)).push(last) == old(out)@ + decimal(
                (n / 10) as nat,
            ).push(last));
        } else {
            assert(old(out)@.push(last) == old(out)@ + seq![last]);
        }
    }
}

/// How many of the packages come from the AUR.
pub fn count_aur(packages: &Vec<Package>) -> (count: usize)
    ensures
        count == aur_count(packages.deep_view()),
        count <= packages.len(),
{
    let mut count: usize = 0;
    let mut i: usize = 0;
    while i < packages.len()
        invariant
            i <= packages.len(),
            count <= i,
            count == aur_count(packages.deep_view().take(i as int)),
        decreases packages.len() - i,
    {
        proof {
            let next = packages.deep_view().take(i + 1);
            assert(next.drop_last() == packages.deep_view().take(i as int));
            assert(next.last().is_aur == packages[i as int].is_aur);
        }
        if packages[i].is_aur {
            count += 1;
        }
        i += 1;
    }
    proof {
        assert(packages.deep_view().take(i as int) == packages.deep_view());
    }
    count
}

fn append_plural(out: &mut String, n: usize)
    ensures
        final(out)@ == old(out)@ + plural(n as nat),
{
    if n != 1 {
        out.append("s");
    } else {
        assert(old(out)@ + Seq::<char>::empty() == old(out)@);
    }
}

impl Applet {
    /// Whether there is anything to upgrade: the panel icon shows it.
    pub fn has_updates(&self) -> (yes: bool)
        ensures
            yes == (self@.packages.len() > 0),
    {
        self.packages.len() > 0
    }

    /// Whether an upgrade can be asked for: there is something to upgrade,
    /// and no upgrade is under way.
    pub fn can_upgrade(&self) -> (yes: bool)
        ensures
            yes == (self@.packages.len() > 0 && !self@.upgrading),
    {
        self.packages.len() > 0 && !self.upgrading
    }

    /// The line that tells where the applet stands.
    pub fn status_line(&self) -> (out: String)
        ensures
            out@ == status_text(self@),
    {
        if self.upgrading {
            return "⚙ Upgrading packages...".to_owned();
        }
        if self.checking {
            return "🔄 Checking for updates...".to_owned();
        }
        match &self.error {
            Some(message) => {
                return joined("❌ Error: ", message.as_str());
            },
            None => {},
        }
        let count: usize = self.packages.len();
        if count == 0 {
            return "✓ System is up to date".to_owned();
        }
        let aur: usize = count_aur(&self.packages);
        let official: usize = count - aur;
        let mut out = "⚠ ".to_owned();
        if aur > 0 && official > 0 {
            append_decimal(&mut out, count);
            out.append(" update");
            append_plural(&mut out, count);
            out.append(" available (");
            append_decimal(&mut out, official);
            out.append(" official + ");
            append_decimal(&mut out, aur);
            out.append(" AUR)");
        } else if aur > 0 {
            append_decimal(&mut out, aur);
            out.append(" AUR update");
            append_plural(&mut out, aur);
            out.append(" available");
        } else {
            append_decimal(&mut out, count);
            out.append(" update");
            append_plural(&mut out, count);
            out.append(" available");
        }
        out
    }

    /// The seconds between two regular checks: sixty for each minute of the
    /// interval in force, and the largest number where that is too many to
    /// count.
    pub fn tick_seconds(&self) -> (seconds: u64)
        ensures
            seconds == if self@.config.check_interval_minutes * 60 <= u64::MAX {
                self@.config.check_interval_minutes * 60
            } else {
                u64::MAX as int
            },
    {
        let minutes: u64 = self.config.check_interval_minutes;
        if minutes > u64::MAX / 60 {
            u64::MAX
        } else {
            minutes * 60
        }
    }

    /// The seconds between two questions whether the upgrade is still at
    /// work: two while an upgrade is under way, and no such question else.
    pub fn poll_seconds(&self) -> (seconds: Option<u64>)
        ensures
            seconds == if self@.upgrading {
                Some(2u64)
            } else {
                None
            },
    {
        if self.upgrading {
            Some(2)
        } else {
            None
        }
    }
}

/// The place of an interval among those that the settings offer, and the
/// place of the half hour for every other.
pub fn interval_index(minutes: u64) -> (place: usize)
    ensures
        place == interval_place(minutes),
        place < intervals().len(),
{
    let place: usize = match minutes {
        5 => 0,
        10 => 1,
        15 => 2,
        20 => 3,
        30 => 4,
        45 => 5,
        60 => 6,
        90 => 7,
        120 => 8,
        _ => 4,
    };
    proof {
        let all = intervals();
        if all.contains(minutes) {
            let found = all.index_of(minutes);
            assert(all[found] == minutes);
            assert(all[place as int] == minutes);
        } else {
            assert(all[place as int] == minutes ==> all.contains(minutes));
            assert(all[0] != minutes && all[1] != minutes && all[2] != minutes && all[3]
                != minutes && all[4] != minutes && all[5] != minutes && all[6] != minutes
                && all[7] != minutes && all[8] != minutes);
        }
    }
    place
}

/// The interval at a place among those that the settings offer, and the
/// half hour for a place beyond them.
pub fn interval_minutes(place: usize) -> (minutes: u64)
    ensures
        minutes == if place < intervals().len() {
            intervals()[place as int]
        } else {
            30
        },
{
    match place {
        0 => 5,
        1 => 10,
        2 => 15,
        3 => 20,
        4 => 30,
        5 => 45,
        6 => 60,
        7 => 90,
        8 => 120,
        _ => 30,
    }
}

/// The intervals as the settings write them.
pub fn interval_options() -> (out: Vec<String>)
    ensures
        out.deep_view() == intervals().map_values(
            |minutes: u64| decimal(minutes as nat) + " minutes"@,
        ),
{
    let mut out: Vec<String> = Vec::new();
    let mut place: usize = 0;
    while place < 9
        invariant
            place <= 9,
            intervals().len() == 9,
            out.deep_view() == intervals().take(place as int).map_values(
                |minutes: u64| decimal(minutes as nat) + " minutes"@,
            ),
        decreases 9 - place,
    {
        let minutes: u64 = interval_minutes(place);
        let mut option = String::new();
        append_decimal(&mut option, minutes as usize);
        option.append(" minutes");
        let ghost before = out.deep_view();
        let ghost text = option@;
        out.push(option);
        proof {
            assert(Seq::<char>::empty() + decimal(minutes as nat) == decimal(minutes as nat));
            assert(out.deep_view() == before.push(text));
            assert(intervals().take(place + 1).map_values(
                |minutes: u64| decimal(minutes as nat) + " minutes"@,
            ) == before.push(text));
        }
        place += 1;
    }
    proof {
        assert(intervals().take(9) == intervals());
    }
    out
}

/// Each interval that the settings offer has its own place, and stands at it.
pub proof fn lemma_intervals_have_places(place: int)
    requires
        0 <= place < intervals().len(),
    ensures
        interval_place(intervals()[place]) == place,
{
    let all = intervals();
    let minutes = all[place];
    assert(all.contains(minutes));
    let found = all.index_of(minutes);
    assert(all[found] == minutes);
}

} // verus!
