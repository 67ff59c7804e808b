//! Which terminal to open for an upgrade, and where the applet's files lie.

use crate::command::{command, Command, CommandOutcome, CommandView, OutcomeView};
use crate::text::{characters, same_text};
use vstd::prelude::*;

verus! {

/// The terminals that are looked for, in the order of preference.
pub open spec fn terminals() -> Seq<Seq<char>> {
    seq![
        "cosmic-term"@,
        "konsole"@,
        "gnome-terminal"@,
        "xfce4-terminal"@,
        "alacritty"@,
        "kitty"@,
        "xterm"@,
    ]
}

/// The terminal that is named where none was found.
pub open spec fn fallback_terminal() -> Seq<char> {
    "cosmic-term"@
}

/// The command that shows whether the terminal at `index` is there: it ends
/// well where it is.
pub open spec fn which_of(index: int) -> CommandView {
    CommandView { program: "which"@, args: seq![terminals()[index]] }
}

/// A step of the search for a terminal: a command to run, for the terminal
/// at the given place in the order of preference, or the terminal's name.
#[derive(Debug)]
pub enum TerminalSearch {
    Probe(Command, usize),
    Done(String),
}

/// A step of the search as contracts speak of it.
pub enum TerminalSearchView {
    Probe(CommandView, int),
    Done(Seq<char>),
}

impl View for TerminalSearch {
    type V = TerminalSearchView;

    open spec fn view(&self) -> TerminalSearchView {
        match self {
            TerminalSearch::Probe(command, index) => TerminalSearchView::Probe(
                command@,
                *index as int,
            ),
            TerminalSearch::Done(terminal) => TerminalSearchView::Done(terminal@),
        }
    }
}

/// The step that follows when the probe for the terminal at `index` has had
/// `outcome`: that terminal where it is there, else the probe for the next
/// one, and the fallback after the last.
pub open spec fn search_resumed(index: int, outcome: OutcomeView) -> TerminalSearchView {
    if 0 <= index < terminals().len() && outcome.succeeded() {
        TerminalSearchView::Done(terminals()[index])
    } else if 0 <= index && index + 1 < terminals().len() {
        TerminalSearchView::Probe(which_of(index + 1), index + 1)
    } else {
        TerminalSearchView::Done(fallback_terminal())
    }
}

/// The terminal that a search from place `from` on ends with, where
/// `answers` holds the outcome of every terminal's probe: the first one from
/// there on whose probe ended well, or the fallback.
pub open spec fn search_result(from: int, answers: Seq<OutcomeView>) -> Seq<char>
    decreases terminals().len() - from,
{
    if 0 <= from < terminals().len() {
        if answers[from].succeeded() {
            terminals()[from]
        } else {
            search_result(from + 1, answers)
        }
    } else {
        fallback_terminal()
    }
}

fn terminal_at(index: usize) -> (out: Option<&'static str>)
    ensures
        index < terminals().len() ==> (out matches Some(name) && name@
            == terminals()[index as int]),
        index >= terminals().len() ==> out is None,
{
    match index {
        0 => Some("cosmic-term"),
        1 => Some("konsole"),
        2 => Some("gnome-terminal"),
        3 => Some("xfce4-terminal"),
        4 => Some("alacritty"),
        5 => Some("kitty"),
        6 => Some("xterm"),
        _ => None,
    }
}

fn probe_at(index: usize) -> (step: TerminalSearch)
    ensures
        index < terminals().len() ==> step@ == TerminalSearchView::Probe(
            which_of(index as int),
            index as int,
        ),
        index >= terminals().len() ==> step@ == TerminalSearchView::Done(fallback_terminal()),
{
    match terminal_at(index) {
        Some(name) => {
            let probe = command("which", &[name]);
            assert(probe@.args =~= seq![name@]);
            TerminalSearch::Probe(probe, index)
        },
        None => TerminalSearch::Done("cosmic-term".to_owned()),
    }
}

/// Begins the search for a terminal: the first of the list is asked for.
pub fn detect_terminal() -> (step: TerminalSearch)
    ensures
        step@ == TerminalSearchView::Probe(which_of(0), 0),
{
    probe_at(0)
}

/// The step that follows when the probe for the terminal at `index` has had
/// `outcome`.
pub fn resume_terminal_search(index: usize, outcome: &CommandOutcome) -> (step: TerminalSearch)
    ensures
        step@ == search_resumed(index as int, outcome@),
{
    if outcome.succeeded() {
        match terminal_at(index) {
            Some(name) => {
                return TerminalSearch::Done(name.to_owned());
            },
            None => {},
        }
    }
    if index < 6 {
        probe_at(index + 1)
    } else {
        TerminalSearch::Done("cosmic-term".to_owned())
    }
}

/// The preference leaves the choice of the terminal open: it is empty, or
/// it says `auto`.
pub open spec fn leaves_choice_open(preference: Seq<char>) -> bool {
    preference.len() == 0 || preference == "auto"@
}

/// The terminal to use, given what the configuration prefers: the preferred
/// one where one is named, else the search for one begins.
pub fn get_terminal(preference: &str) -> (step: TerminalSearch)
    ensures
        step@ == if leaves_choice_open(preference@) {
            TerminalSearchView::Probe(which_of(0), 0)
        } else {
            TerminalSearchView::Done(preference@)
        },
{
    let wanted = characters(preference);
    let auto = characters("auto");
    if wanted.len() == 0 || same_text(wanted.as_slice(), auto.as_slice()) {
        detect_terminal()
    } else {
        TerminalSearch::Done(preference.to_owned())
    }
}

/// Each step of the search keeps what the search ends with: an answer that
/// ends it gives `search_result`, and a next probe is for the next terminal
/// in the list, from where the search ends with the same terminal.
pub proof fn lemma_search_step(index: int, answers: Seq<OutcomeView>)
    requires
        0 <= index < terminals().len(),
    ensures
        match search_resumed(index, answers[index]) {
            TerminalSearchView::Done(terminal) => terminal == search_result(index, answers),
            TerminalSearchView::Probe(probe, next) => {
                &&& next == index + 1
                &&& probe == which_of(next)
                &&& search_result(next, answers) == search_result(index, answers)
            },
        },
{
    reveal_with_fuel(search_result, 2);
}

/// The search ends with the first terminal of the list that is there, and
/// with the fallback where none is.
pub proof fn lemma_search_finds_first(from: int, answers: Seq<OutcomeView>, found: int)
    requires
        0 <= from <= found <= terminals().len(),
        forall|i: int| from <= i < found ==> !(#[trigger] answers[i]).succeeded(),
        found < terminals().len() ==> answers[found].succeeded(),
    ensures
        search_result(from, answers) == if found < terminals().len() {
            terminals()[found]
        } else {
            fallback_terminal()
        },
    decreases found - from,
{
    if from < found {
        lemma_search_finds_first(from + 1, answers, found);
    }
}

/// The directory of the applet's files, below the user's configuration
/// directory.
pub open spec fn current_directory() -> Seq<char> {
    "cosmic-ext-applet-updates"@
}

/// The directory that the applet's files lay in under its former name.
pub open spec fn former_directory() -> Seq<char> {
    "cosmic-updates"@
}

/// The directory of the applet's files, below the user's configuration
/// directory.
pub fn current_directory_name() -> (out: &'static str)
    ensures
        out@ == current_directory(),
{
    "cosmic-ext-applet-updates"
}

/// The directory that the applet's files lay in under its former name.
pub fn former_directory_name() -> (out: &'static str)
    ensures
        out@ == former_directory(),
{
    "cosmic-updates"
}

/// A file of the applet, by the directory below the user's configuration
/// directory and the file's name in it.
#[derive(Debug, Clone)]
pub struct AppFile {
    pub directory: String,
    pub file_name: String,
}

/// A file of the applet as contracts speak of it.
pub struct AppFileView {
    pub directory: Seq<char>,
    pub file_name: Seq<char>,
}

impl View for AppFile {
    type V = AppFileView;

    open spec fn view(&self) -> AppFileView {
        AppFileView { directory: self.directory@, file_name: self.file_name@ }
    }
}

/// Where the file `filename` of the applet lies: in the current directory,
/// unless it is missing there and present in the former one.
/// `in_current` and `in_former` say whether the file exists in each.
pub fn get_app_file_path(filename: &str, in_current: bool, in_former: bool) -> (file: AppFile)
    ensures
        file@.file_name == filename@,
        file@.directory == if !in_current && in_former {
            former_directory()
        } else {
            current_directory()
        },
{
    let directory = if !in_current && in_former {
        former_directory_name()
    } else {
        current_directory_name()
    };
    AppFile { directory: directory.to_owned(), file_name: filename.to_owned() }
}

} // verus!
