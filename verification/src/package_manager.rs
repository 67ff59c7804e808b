//! Package managers behind one interface: what a package is, how each tool's
//! listing is read, and how an official backend and an AUR helper are combined.

use crate::command::{Command, CommandOutcome, CommandView, OutcomeView};
use crate::package_manager::apt::{debug_packages, get_debug_packages, AptPackageManager};
use crate::package_manager::backend::{
    checked_view, done_view, launch_of, read_updates, running_of, updates_of,
};
use crate::package_manager::listing::{Format, Listing, ListingView, SkippedView};
use crate::package_manager::pacman::PacmanPackageManager;
use crate::package_manager::paru::ParuPackageManager;
use crate::package_manager::yay::YayPackageManager;
use vstd::prelude::*;

pub mod apt;
pub mod backend;
pub mod detect;
pub mod listing;
pub mod pacman;
pub mod paru;
pub mod yay;

verus! {

/// One package for which a newer version is on offer.
#[derive(Debug, Clone)]
pub struct Package {
    pub name: String,
    pub current_version: String,
    pub new_version: String,
    /// Whether the package comes from the AUR and not from an official repository.
    pub is_aur: bool,
}

/// A package as contracts speak of it: its texts as sequences of characters.
pub struct PackageView {
    pub name: Seq<char>,
    pub current_version: Seq<char>,
    pub new_version: Seq<char>,
    pub is_aur: bool,
}

impl PackageView {
    /// Name and both versions are present.
    pub open spec fn well_formed(self) -> bool {
        &&& self.name.len() > 0
        &&& self.current_version.len() > 0
        &&& self.new_version.len() > 0
    }

    /// The same package, marked as coming from an official repository.
    pub open spec fn official(self) -> PackageView {
        PackageView { is_aur: false, ..self }
    }
}

impl View for Package {
    type V = PackageView;

    open spec fn view(&self) -> PackageView {
        PackageView {
            name: self.name@,
            current_version: self.current_version@,
            new_version: self.new_version@,
            is_aur: self.is_aur,
        }
    }
}

impl DeepView for Package {
    type V = PackageView;

    open spec fn deep_view(&self) -> PackageView {
        self@
    }
}

/// The packages of an official backend and of an AUR helper as one list: the
/// official ones first, marked as official, then the helper's as they are.
pub open spec fn merged_packages(official: Seq<PackageView>, aur: Seq<PackageView>) -> Seq<
    PackageView,
> {
    official.map_values(|package: PackageView| package.official()) + aur
}

/// Two listings as one: packages as `merged_packages` says, and the damaged
/// lines of the official listing before those of the helper's.
pub open spec fn merged(official: ListingView, aur: ListingView) -> ListingView {
    ListingView {
        packages: merged_packages(official.packages, aur.packages),
        skipped: official.skipped + aur.skipped,
    }
}

/// Puts the packages of the official backend and of the AUR helper into one
/// list, the official ones first. Every official package is marked as such,
/// whatever mark it came with.
pub fn merge_packages(official: Vec<Package>, aur: Vec<Package>) -> (out: Vec<Package>)
    ensures
        out.deep_view() == merged_packages(official.deep_view(), aur.deep_view()),
{
    let mut out: Vec<Package> = Vec::new();
    let ghost source = official.deep_view();
    let ghost tail = aur.deep_view();
    for package in it: official
        invariant
            it.seq().len() == source.len(),
            forall|i: int| 0 <= i < source.len() ==> it.seq()[i]@ == #[trigger] source[i],
            out.deep_view() == source.take(it.index() as int).map_values(
                |package: PackageView| package.official(),
            ),
    {
        let ghost before = out.deep_view();
        let mut package = package;
        package.is_aur = false;
        out.push(package);
        proof {
            assert(out.deep_view() == before.push(source[it.index() as int].official()));
        }
    }
    let mut aur = aur;
    let ghost before = out.deep_view();
    out.append(&mut aur);
    proof {
        assert(source.take(source.len() as int) == source);
        assert(out.deep_view() == before + tail);
    }
    out
}

/// Puts the listings of the official backend and of the AUR helper into one.
pub fn merge_updates(official: Listing, aur: Listing) -> (out: Listing)
    ensures
        out@ == merged(official@, aur@),
{
    let ghost noted = official.skipped.deep_view();
    let ghost more = aur.skipped.deep_view();
    let packages = merge_packages(official.packages, aur.packages);
    let mut skipped = official.skipped;
    let mut rest = aur.skipped;
    skipped.append(&mut rest);
    proof {
        assert(skipped.deep_view() == noted + more);
    }
    Listing { packages, skipped }
}

/// The package tools of the system, behind one interface: a single backend,
/// or Pacman for the official repositories together with a helper for the AUR.
/// Which one it is is found out once, at the start, and does not change.
#[derive(Debug, Clone, Copy)]
pub enum PackageManager {
    Apt(AptPackageManager),
    Pacman(PacmanPackageManager),
    /// Pacman with Paru.
    CombinedParu(PacmanPackageManager, ParuPackageManager),
    /// Pacman with Yay.
    CombinedYay(PacmanPackageManager, YayPackageManager),
}

/// The command that prints the listing in the given format.
pub open spec fn list_command_of(format: Format) -> CommandView {
    match format {
        Format::Apt => CommandView { program: "apt"@, args: seq!["list"@, "--upgradable"@] },
        Format::Pacman => CommandView { program: "checkupdates"@, args: Seq::empty() },
        Format::Paru => CommandView { program: "paru"@, args: seq!["-Qua"@] },
        Format::Yay => CommandView { program: "yay"@, args: seq!["-Qua"@] },
    }
}

/// The command that prints the listing in the given format.
pub fn list_command(format: Format) -> (out: Command)
    ensures
        out@ == list_command_of(format),
{
    match format {
        Format::Apt => AptPackageManager.list_command(),
        Format::Pacman => PacmanPackageManager.list_command(),
        Format::Paru => ParuPackageManager.list_command(),
        Format::Yay => YayPackageManager.list_command(),
    }
}

/// Where a check for updates stands while a listing command runs.
#[derive(Debug)]
pub enum CheckStage {
    /// The listing of the only backend is awaited.
    Only(Format),
    /// The listing of the official backend is awaited; that of the named
    /// helper is to follow.
    Official(Format),
    /// The listing of the named helper is awaited; the official one has been
    /// read to the listing held here.
    Helper(Format, Listing),
}

/// A stage of a check as contracts speak of it.
pub enum CheckStageView {
    Only(Format),
    Official(Format),
    Helper(Format, ListingView),
}

impl View for CheckStage {
    type V = CheckStageView;

    open spec fn view(&self) -> CheckStageView {
        match self {
            CheckStage::Only(format) => CheckStageView::Only(*format),
            CheckStage::Official(helper) => CheckStageView::Official(*helper),
            CheckStage::Helper(helper, official) => CheckStageView::Helper(*helper, official@),
        }
    }
}

/// A step of a check for updates: a command to run, or the result.
#[derive(Debug)]
pub enum UpdateCheck {
    /// Run the command to its end, then resume the stage with its outcome.
    Run(Command, CheckStage),
    /// The check is over.
    Done(Result<Listing, String>),
}

/// A step of a check as contracts speak of it.
pub enum UpdateCheckView {
    Run(CommandView, CheckStageView),
    Done(Result<ListingView, Seq<char>>),
}

impl View for UpdateCheck {
    type V = UpdateCheckView;

    open spec fn view(&self) -> UpdateCheckView {
        match self {
            UpdateCheck::Run(command, stage) => UpdateCheckView::Run(command@, stage@),
            UpdateCheck::Done(result) => UpdateCheckView::Done(checked_view(*result)),
        }
    }
}

/// The step that follows when the command of `stage` has had `outcome`.
///
/// A single backend's listing is the result. With a helper, the official
/// listing is read first, and only if that gave no error the helper is asked;
/// an error of either is the result, and otherwise both listings as one.
pub open spec fn check_resumed(stage: CheckStageView, outcome: OutcomeView) -> UpdateCheckView {
    match stage {
        CheckStageView::Only(format) => UpdateCheckView::Done(updates_of(format, outcome)),
        CheckStageView::Official(helper) => match updates_of(Format::Pacman, outcome) {
            Ok(official) => UpdateCheckView::Run(
                list_command_of(helper),
                CheckStageView::Helper(helper, official),
            ),
            Err(message) => UpdateCheckView::Done(Err(message)),
        },
        CheckStageView::Helper(helper, official) => match updates_of(helper, outcome) {
            Ok(aur) => UpdateCheckView::Done(Ok(merged(official, aur))),
            Err(message) => UpdateCheckView::Done(Err(message)),
        },
    }
}

impl CheckStage {
    /// The step that follows when the command of this stage has had `outcome`.
    pub fn resume(self, outcome: CommandOutcome) -> (step: UpdateCheck)
        ensures
            step@ == check_resumed(self@, outcome@),
    {
        match self {
            CheckStage::Only(format) => UpdateCheck::Done(read_updates(format, outcome)),
            CheckStage::Official(helper) => match PacmanPackageManager.check_updates(outcome) {
                Ok(official) => UpdateCheck::Run(
                    list_command(helper),
                    CheckStage::Helper(helper, official),
                ),
                Err(message) => UpdateCheck::Done(Err(message)),
            },
            CheckStage::Helper(helper, official) => match read_updates(helper, outcome) {
                Ok(aur) => UpdateCheck::Done(Ok(merge_updates(official, aur))),
                Err(message) => UpdateCheck::Done(Err(message)),
            },
        }
    }
}

impl PackageManager {
    /// The helper for the AUR that works beside Pacman, if there is one.
    pub open spec fn helper(self) -> Option<Format> {
        match self {
            PackageManager::Apt(_) => None,
            PackageManager::Pacman(_) => None,
            PackageManager::CombinedParu(_, _) => Some(Format::Paru),
            PackageManager::CombinedYay(_, _) => Some(Format::Yay),
        }
    }

    /// The first step of a check for updates. `debug` says whether the
    /// listing of APT is to be replaced by the fixed list of packages.
    pub open spec fn check_begun(self, debug: bool) -> UpdateCheckView {
        match self {
            PackageManager::Apt(_) => if debug {
                UpdateCheckView::Done(
                    Ok(ListingView { packages: debug_packages(), skipped: Seq::empty() }),
                )
            } else {
                UpdateCheckView::Run(
                    list_command_of(Format::Apt),
                    CheckStageView::Only(Format::Apt),
                )
            },
            PackageManager::Pacman(_) => UpdateCheckView::Run(
                list_command_of(Format::Pacman),
                CheckStageView::Only(Format::Pacman),
            ),
            PackageManager::CombinedParu(_, _) => UpdateCheckView::Run(
                list_command_of(Format::Pacman),
                CheckStageView::Official(Format::Paru),
            ),
            PackageManager::CombinedYay(_, _) => UpdateCheckView::Run(
                list_command_of(Format::Pacman),
                CheckStageView::Official(Format::Yay),
            ),
        }
    }

    /// Begins a check for updates: gives the first command to run, with the
    /// stage to resume when it has run. For APT, `debug` set gives the fixed
    /// list of packages at once, and no command is run.
    pub fn check_updates(&self, debug: bool) -> (step: UpdateCheck)
        ensures
            step@ == self.check_begun(debug),
    {
        match self {
            PackageManager::Apt(pm) => {
                if debug {
                    let listing = Listing { packages: get_debug_packages(), skipped: Vec::new() };
                    proof {
                        assert(listing.skipped.deep_view() == Seq::<SkippedView>::empty());
                    }
                    UpdateCheck::Done(Ok(listing))
                } else {
                    UpdateCheck::Run(pm.list_command(), CheckStage::Only(Format::Apt))
                }
            },
            PackageManager::Pacman(pm) => UpdateCheck::Run(
                pm.list_command(),
                CheckStage::Only(Format::Pacman),
            ),
            PackageManager::CombinedParu(pacman, _) => UpdateCheck::Run(
                pacman.list_command(),
                CheckStage::Official(Format::Paru),
            ),
            PackageManager::CombinedYay(pacman, _) => UpdateCheck::Run(
                pacman.list_command(),
                CheckStage::Official(Format::Yay),
            ),
        }
    }
}

/// A step of a refresh of the package databases: a command to run, whose
/// outcome `read_refresh` turns into the result, or the result itself.
#[derive(Debug)]
pub enum Refresh {
    Run(Command),
    Done(Result<(), String>),
}

/// A step of a refresh as contracts speak of it.
pub enum RefreshView {
    Run(CommandView),
    Done(Result<(), Seq<char>>),
}

impl View for Refresh {
    type V = RefreshView;

    open spec fn view(&self) -> RefreshView {
        match self {
            Refresh::Run(command) => RefreshView::Run(command@),
            Refresh::Done(result) => RefreshView::Done(done_view(*result)),
        }
    }
}

/// How a refresh goes on once the official backend has been refreshed: with
/// the helper's command where that went well; where it failed, the refresh
/// is over with that error and the helper is not asked.
pub open spec fn refresh_continued(official: Result<(), Seq<char>>, helper: CommandView)
    -> RefreshView {
    match official {
        Ok(_) => RefreshView::Run(helper),
        Err(message) => RefreshView::Done(Err(message)),
    }
}

/// How a refresh goes on once the official backend has been refreshed, with
/// `helper` as the command that refreshes the helper.
pub fn continue_refresh(official: Result<(), String>, helper: Command) -> (step: Refresh)
    ensures
        step@ == refresh_continued(done_view(official), helper@),
        official matches Err(message) ==> step@ == RefreshView::Done(Err(message@)),
        official is Ok ==> step@ == RefreshView::Run(helper@),
{
    match official {
        Ok(_) => Refresh::Run(helper),
        Err(message) => Refresh::Done(Err(message)),
    }
}

impl PackageManager {
    /// The command that opens `terminal` with the upgrade in it. With a
    /// helper it is the helper's, whose upgrade covers the official
    /// repositories too.
    pub open spec fn upgrade_command_of(self, terminal: Seq<char>) -> CommandView {
        match self {
            PackageManager::Apt(_) => CommandView {
                program: terminal,
                args: seq!["-e"@, "pkexec"@, "apt"@, "upgrade"@, "-y"@],
            },
            PackageManager::Pacman(_) => CommandView {
                program: terminal,
                args: seq!["-e"@, "pkexec"@, "pacman"@, "-Syu"@, "--noconfirm"@],
            },
            PackageManager::CombinedParu(_, _) => CommandView {
                program: terminal,
                args: seq!["-e"@, "paru"@, "-Syu"@],
            },
            PackageManager::CombinedYay(_, _) => CommandView {
                program: terminal,
                args: seq!["-e"@, "yay"@, "-Syu"@],
            },
        }
    }

    /// The command that opens `terminal` with the upgrade in it.
    pub fn upgrade_command(&self, terminal: &str) -> (out: Command)
        ensures
            out@ == self.upgrade_command_of(terminal@),
    {
        match self {
            PackageManager::Apt(pm) => pm.upgrade_command(terminal),
            PackageManager::Pacman(pm) => pm.upgrade_command(terminal),
            PackageManager::CombinedParu(_, paru) => paru.upgrade_command(terminal),
            PackageManager::CombinedYay(_, yay) => yay.upgrade_command(terminal),
        }
    }

    /// What came of starting the terminal for the upgrade. The upgrade itself
    /// is not waited for: only a terminal that did not start is an error.
    pub fn run_upgrade(&self, terminal: &str, spawned: Result<(), String>) -> (result: Result<
        (),
        String,
    >)
        ensures
            done_view(result) == launch_of(terminal@, done_view(spawned)),
    {
        match self {
            PackageManager::Apt(pm) => pm.run_upgrade(terminal, spawned),
            PackageManager::Pacman(pm) => pm.run_upgrade(terminal, spawned),
            PackageManager::CombinedParu(_, paru) => paru.run_upgrade(terminal, spawned),
            PackageManager::CombinedYay(_, yay) => yay.run_upgrade(terminal, spawned),
        }
    }

    /// The lock files whose presence shows the tool at work. With a helper
    /// beside Pacman it is Pacman's lock alone: the helpers work under it.
    pub open spec fn lock_files_of(self) -> Seq<Seq<char>> {
        match self {
            PackageManager::Apt(_) => seq![
                "/var/lib/dpkg/lock-frontend"@,
                "/var/lib/apt/lists/lock"@,
                "/var/cache/apt/archives/lock"@,
            ],
            _ => seq!["/var/lib/pacman/db.lck"@],
        }
    }

    /// The lock files whose presence shows the tool at work.
    pub fn lock_files(&self) -> (out: Vec<String>)
        ensures
            out.deep_view() == self.lock_files_of(),
    {
        match self {
            PackageManager::Apt(pm) => pm.lock_files(),
            PackageManager::Pacman(pm) => pm.lock_files(),
            PackageManager::CombinedParu(pacman, _) => pacman.lock_files(),
            PackageManager::CombinedYay(pacman, _) => pacman.lock_files(),
        }
    }

    /// The command that searches for the tool's processes. With a helper
    /// beside Pacman it is the search for Pacman alone.
    pub open spec fn process_probe_of(self) -> CommandView {
        match self {
            PackageManager::Apt(_) => CommandView {
                program: "pgrep"@,
                args: seq!["-x"@, "apt|apt-get|dpkg"@],
            },
            _ => CommandView { program: "pgrep"@, args: seq!["-x"@, "pacman"@] },
        }
    }

    /// The command that searches for the tool's processes; it ends well where
    /// it found one.
    pub fn process_probe(&self) -> (out: Command)
        ensures
            out@ == self.process_probe_of(),
    {
        match self {
            PackageManager::Apt(pm) => pm.process_probe(),
            PackageManager::Pacman(pm) => pm.process_probe(),
            PackageManager::CombinedParu(pacman, _) => pacman.process_probe(),
            PackageManager::CombinedYay(pacman, _) => pacman.process_probe(),
        }
    }

    /// Whether the tool is at work: `locks` says of each lock file whether it
    /// exists, `probe` is the outcome of the process search. This never
    /// fails: a search that could not be made counts as nothing found.
    pub fn is_running(&self, locks: &[bool], probe: &CommandOutcome) -> (running: bool)
        ensures
            running == running_of(locks@, probe@),
    {
        match self {
            PackageManager::Apt(pm) => pm.is_running(locks, probe),
            PackageManager::Pacman(pm) => pm.is_running(locks, probe),
            PackageManager::CombinedParu(pacman, _) => pacman.is_running(locks, probe),
            PackageManager::CombinedYay(pacman, _) => pacman.is_running(locks, probe),
        }
    }

    /// The name for display. With a helper it is the helper's name, which
    /// tells of Pacman too.
    pub open spec fn name_of(self) -> Seq<char> {
        match self {
            PackageManager::Apt(_) => "APT"@,
            PackageManager::Pacman(_) => "Pacman"@,
            PackageManager::CombinedParu(_, _) => "Pacman + AUR (paru)"@,
            PackageManager::CombinedYay(_, _) => "Pacman + AUR (yay)"@,
        }
    }

    /// The name for display.
    pub fn name(&self) -> (out: &'static str)
        ensures
            out@ == self.name_of(),
    {
        match self {
            PackageManager::Apt(pm) => pm.name(),
            PackageManager::Pacman(pm) => pm.name(),
            PackageManager::CombinedParu(_, paru) => paru.name(),
            PackageManager::CombinedYay(_, yay) => yay.name(),
        }
    }

    /// The first step of a refresh. Pacman alone has nothing to refresh. With
    /// a helper, Pacman is refreshed first and then the helper.
    pub open spec fn refresh_begun(self) -> RefreshView {
        match self {
            PackageManager::Apt(_) => RefreshView::Run(
                CommandView { program: "pkexec"@, args: seq!["apt"@, "update"@] },
            ),
            PackageManager::Pacman(_) => RefreshView::Done(Ok(())),
            PackageManager::CombinedParu(_, _) => refresh_continued(
                Ok(()),
                CommandView { program: "paru"@, args: seq!["-Sy"@] },
            ),
            PackageManager::CombinedYay(_, _) => refresh_continued(
                Ok(()),
                CommandView { program: "yay"@, args: seq!["-Sy"@] },
            ),
        }
    }

    /// Begins a refresh of the package databases: gives the command to run,
    /// whose outcome `read_refresh` turns into the result, or the result
    /// where no command is needed.
    pub fn refresh_cache(&self) -> (step: Refresh)
        ensures
            step@ == self.refresh_begun(),
    {
        match self {
            PackageManager::Apt(pm) => Refresh::Run(pm.refresh_command()),
            PackageManager::Pacman(pm) => Refresh::Done(pm.refresh_cache()),
            PackageManager::CombinedParu(pacman, paru) => continue_refresh(
                pacman.refresh_cache(),
                paru.refresh_command(),
            ),
            PackageManager::CombinedYay(pacman, yay) => continue_refresh(
                pacman.refresh_cache(),
                yay.refresh_command(),
            ),
        }
    }
}

/// The merged list holds the official packages first, in their order and
/// marked as official, and after them the helper's packages, in their order
/// and unchanged.
pub proof fn lemma_merged_keeps_order(official: Seq<PackageView>, aur: Seq<PackageView>)
    ensures
        merged_packages(official, aur).len() == official.len() + aur.len(),
        forall|i: int|
            0 <= i < official.len() ==> merged_packages(official, aur)[i]
                == (#[trigger] official[i]).official(),
        forall|i: int|
            0 <= i < aur.len() ==> merged_packages(official, aur)[official.len() + i]
                == #[trigger] aur[i],
{
}

/// Merging keeps packages whole: where every package of both lists has a
/// name and both versions, so has every package of the merged list.
pub proof fn lemma_merged_well_formed(official: Seq<PackageView>, aur: Seq<PackageView>)
    requires
        forall|i: int| 0 <= i < official.len() ==> (#[trigger] official[i]).well_formed(),
        forall|i: int| 0 <= i < aur.len() ==> (#[trigger] aur[i]).well_formed(),
    ensures
        forall|i: int|
            0 <= i < merged_packages(official, aur).len() ==> (#[trigger] merged_packages(
                official,
                aur,
            )[i]).well_formed(),
{
    let all = merged_packages(official, aur);
    assert forall|i: int| 0 <= i < all.len() implies (#[trigger] all[i]).well_formed() by {
        if i < official.len() {
            assert(official[i].well_formed());
        } else {
            assert(aur[i - official.len()].well_formed());
        }
    }
}

/// A check with a helper beside Pacman, step by step. It asks Pacman first.
/// An error there ends the check with that error, and the helper is never
/// asked. Else the helper is asked; an error there ends the check with that
/// error, and else the result is both listings merged, the official one
/// first: in whatever order the answers were made ready, the packages come
/// in this order.
pub proof fn lemma_combined_check(
    pm: PackageManager,
    debug: bool,
    official: OutcomeView,
    aur: OutcomeView,
)
    requires
        pm.helper() is Some,
    ensures
        pm.check_begun(debug) == UpdateCheckView::Run(
            list_command_of(Format::Pacman),
            CheckStageView::Official(pm.helper()->0),
        ),
        updates_of(Format::Pacman, official) matches Err(message) ==> check_resumed(
            CheckStageView::Official(pm.helper()->0),
            official,
        ) == UpdateCheckView::Done(Err(message)),
        updates_of(Format::Pacman, official) matches Ok(first) ==> {
            &&& check_resumed(CheckStageView::Official(pm.helper()->0), official)
                == UpdateCheckView::Run(
                list_command_of(pm.helper()->0),
                CheckStageView::Helper(pm.helper()->0, first),
            )
            &&& updates_of(pm.helper()->0, aur) matches Err(message) ==> check_resumed(
                CheckStageView::Helper(pm.helper()->0, first),
                aur,
            ) == UpdateCheckView::Done(Err(message))
            &&& updates_of(pm.helper()->0, aur) matches Ok(second) ==> check_resumed(
                CheckStageView::Helper(pm.helper()->0, first),
                aur,
            ) == UpdateCheckView::Done(Ok(merged(first, second)))
        },
{
}

} // verus!
