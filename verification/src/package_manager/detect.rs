//! Finding out, once and at the start, which package tools the system has.
//!
//! A tool counts as present where `<tool> --version` could be started, however
//! it ended. The tools are asked in a fixed order, and the first answer that
//! settles the matter ends the search.

use crate::command::{command, Command, CommandOutcome, CommandView, OutcomeView};
use crate::package_manager::apt::AptPackageManager;
use crate::package_manager::pacman::PacmanPackageManager;
use crate::package_manager::paru::ParuPackageManager;
use crate::package_manager::yay::YayPackageManager;
use crate::package_manager::PackageManager;
use vstd::prelude::*;

verus! {

/// The programs that the search asks for.
#[derive(Debug, Clone, Copy, PartialEq, Eq, Structural)]
pub enum Tool {
    Apt,
    Pacman,
    Paru,
    Yay,
}

impl Tool {
    /// The program's name.
    pub open spec fn program(self) -> Seq<char> {
        match self {
            Tool::Apt => "apt"@,
            Tool::Pacman => "pacman"@,
            Tool::Paru => "paru"@,
            Tool::Yay => "yay"@,
        }
    }

    /// The command that shows whether the program is there.
    pub open spec fn probe_of(self) -> CommandView {
        CommandView { program: self.program(), args: seq!["--version"@] }
    }

    /// The command that shows whether the program is there.
    pub fn probe(self) -> (out: Command)
        ensures
            out@ == self.probe_of(),
    {
        let program = match self {
            Tool::Apt => "apt",
            Tool::Pacman => "pacman",
            Tool::Paru => "paru",
            Tool::Yay => "yay",
        };
        let out = command(program, &["--version"]);
        assert(out@.args =~= seq!["--version"@]);
        out
    }
}

/// A step of the search: a command to run, for the named tool, or the end,
/// with the package manager that was found, if any.
#[derive(Debug)]
pub enum Detection {
    Probe(Command, Tool),
    Done(Option<PackageManager>),
}

/// A step of the search as contracts speak of it.
pub enum DetectionView {
    Probe(CommandView, Tool),
    Done(Option<PackageManager>),
}

impl View for Detection {
    type V = DetectionView;

    open spec fn view(&self) -> DetectionView {
        match self {
            Detection::Probe(command, tool) => DetectionView::Probe(command@, *tool),
            Detection::Done(found) => DetectionView::Done(*found),
        }
    }
}

/// The tool is there: its command could be started.
pub open spec fn present(outcome: OutcomeView) -> bool {
    outcome is Exited
}

/// The package manager for a system with the given tools. APT comes before
/// Pacman; beside Pacman, Paru comes before Yay; a helper without Pacman
/// counts for nothing.
pub open spec fn selected(apt: bool, pacman: bool, paru: bool, yay: bool) -> Option<
    PackageManager,
> {
    if apt {
        Some(PackageManager::Apt(AptPackageManager))
    } else if !pacman {
        None
    } else if paru {
        Some(PackageManager::CombinedParu(PacmanPackageManager, ParuPackageManager))
    } else if yay {
        Some(PackageManager::CombinedYay(PacmanPackageManager, YayPackageManager))
    } else {
        Some(PackageManager::Pacman(PacmanPackageManager))
    }
}

/// The step that follows when the probe for `tool` has had `outcome`.
pub open spec fn detection_resumed(tool: Tool, outcome: OutcomeView) -> DetectionView {
    match tool {
        Tool::Apt => if present(outcome) {
            DetectionView::Done(selected(true, false, false, false))
        } else {
            DetectionView::Probe(Tool::Pacman.probe_of(), Tool::Pacman)
        },
        Tool::Pacman => if present(outcome) {
            DetectionView::Probe(Tool::Paru.probe_of(), Tool::Paru)
        } else {
            DetectionView::Done(None)
        },
        Tool::Paru => if present(outcome) {
            DetectionView::Done(selected(false, true, true, false))
        } else {
            DetectionView::Probe(Tool::Yay.probe_of(), Tool::Yay)
        },
        Tool::Yay => DetectionView::Done(selected(false, true, false, present(outcome))),
    }
}

/// The package manager for a system with the given tools, if it has one that
/// is supported.
pub fn select_backend(apt: bool, pacman: bool, paru: bool, yay: bool) -> (found: Option<
    PackageManager,
>)
    ensures
        found == selected(apt, pacman, paru, yay),
        apt ==> found == Some(PackageManager::Apt(AptPackageManager)),
        found is None <==> !apt && !pacman,
{
    if apt {
        Some(PackageManager::Apt(AptPackageManager))
    } else if !pacman {
        None
    } else if paru {
        Some(PackageManager::CombinedParu(PacmanPackageManager, ParuPackageManager))
    } else if yay {
        Some(PackageManager::CombinedYay(PacmanPackageManager, YayPackageManager))
    } else {
        Some(PackageManager::Pacman(PacmanPackageManager))
    }
}

/// Begins the search: APT is asked for first.
pub fn detect_package_manager() -> (step: Detection)
    ensures
        step@ == DetectionView::Probe(Tool::Apt.probe_of(), Tool::Apt),
{
    Detection::Probe(Tool::Apt.probe(), Tool::Apt)
}

impl Tool {
    /// The step that follows when the probe for this tool has had `outcome`.
    pub fn resume(self, outcome: &CommandOutcome) -> (step: Detection)
        ensures
            step@ == detection_resumed(self, outcome@),
    {
        let here = match outcome {
            CommandOutcome::LaunchFailed(_) => false,
            CommandOutcome::Exited { .. } => true,
        };
        match self {
            Tool::Apt => if here {
                Detection::Done(select_backend(true, false, false, false))
            } else {
                Detection::Probe(Tool::Pacman.probe(), Tool::Pacman)
            },
            Tool::Pacman => if here {
                Detection::Probe(Tool::Paru.probe(), Tool::Paru)
            } else {
                Detection::Done(None)
            },
            Tool::Paru => if here {
                Detection::Done(select_backend(false, true, true, false))
            } else {
                Detection::Probe(Tool::Yay.probe(), Tool::Yay)
            },
            Tool::Yay => Detection::Done(select_backend(false, true, false, here)),
        }
    }
}

/// What the probe of each tool comes to, for a system as it stands.
pub struct Probes {
    pub apt: OutcomeView,
    pub pacman: OutcomeView,
    pub paru: OutcomeView,
    pub yay: OutcomeView,
}

impl Probes {
    /// What the probe of `tool` comes to.
    pub open spec fn of(self, tool: Tool) -> OutcomeView {
        match tool {
            Tool::Apt => self.apt,
            Tool::Pacman => self.pacman,
            Tool::Paru => self.paru,
            Tool::Yay => self.yay,
        }
    }
}

/// The step after `step` on a system whose probes come to `probes`; a search
/// that is over stays as it is.
pub open spec fn followed(step: DetectionView, probes: Probes) -> DetectionView {
    match step {
        DetectionView::Probe(_, tool) => detection_resumed(tool, probes.of(tool)),
        DetectionView::Done(found) => DetectionView::Done(found),
    }
}

/// The search is over after four probes at most, and finds the package
/// manager that `selected` names for the tools that are present.
pub proof fn lemma_detection_finds_selected(probes: Probes)
    ensures
        ({
            let begun = DetectionView::Probe(Tool::Apt.probe_of(), Tool::Apt);
            followed(followed(followed(followed(begun, probes), probes), probes), probes)
        }) == DetectionView::Done(
            selected(
                present(probes.apt),
                present(probes.pacman),
                present(probes.paru),
                present(probes.yay),
            ),
        ),
{
}

/// Where APT is present the search ends with APT at the first answer: no
/// other tool is asked for, and none can change the result.
pub proof fn lemma_apt_comes_first(apt: OutcomeView, pacman: bool, paru: bool, yay: bool)
    requires
        present(apt),
    ensures
        detection_resumed(Tool::Apt, apt) == DetectionView::Done(
            Some(PackageManager::Apt(AptPackageManager)),
        ),
        selected(true, pacman, paru, yay) == Some(PackageManager::Apt(AptPackageManager)),
{
}

} // verus!
