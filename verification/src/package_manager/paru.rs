//! Paru, a helper for the AUR that works on top of Pacman.

use crate::command::{command, Command, CommandOutcome, CommandView};
use crate::package_manager::backend::{
    checked_view, done_view, launch_of, read_launch, read_refresh, read_running, read_updates,
    refresh_of, running_of, updates_of,
};
use crate::package_manager::listing::{packages_of, read_listing, Format, Listing};
use crate::package_manager::Package;
use vstd::prelude::*;

verus! {

/// The Paru backend. It holds nothing: every operation asks the system anew.
#[derive(Debug, Clone, Copy)]
pub struct ParuPackageManager;

impl ParuPackageManager {
    /// The command that lists the packages that can be upgraded.
    pub fn list_command(&self) -> (out: Command)
        ensures
            out@ == (CommandView { program: "paru"@, args: seq!["-Qua"@] }),
    {
        let out = command("paru", &["-Qua"]);
        assert(out@.args =~= seq!["-Qua"@]);
        out
    }

    /// What the outcome of the listing command means: the packages it lists;
    /// none where the tool ended badly, which it does when nothing is to be
    /// updated; an error only where it could not be started.
    pub fn check_updates(&self, outcome: CommandOutcome) -> (result: Result<Listing, String>)
        ensures
            checked_view(result) == updates_of(Format::Paru, outcome@),
            result is Err <==> outcome is LaunchFailed,
            result matches Ok(listing) ==> forall|i: int|
                0 <= i < listing.packages.len() ==> {
                    &&& (#[trigger] listing.packages[i])@.well_formed()
                    &&& listing.packages[i].is_aur
                },
    {
        read_updates(Format::Paru, outcome)
    }

    /// The command that opens `terminal` with the upgrade in it.
    pub fn upgrade_command(&self, terminal: &str) -> (out: Command)
        ensures
            out@ == (CommandView { program: terminal@, args: seq!["-e"@, "paru"@, "-Syu"@] }),
    {
        let out = command(terminal, &["-e", "paru", "-Syu"]);
        assert(out@.args =~= seq!["-e"@, "paru"@, "-Syu"@]);
        out
    }

    /// What came of starting the terminal for the upgrade. The upgrade itself
    /// is not waited for.
    pub fn run_upgrade(&self, terminal: &str, spawned: Result<(), String>) -> (result: Result<
        (),
        String,
    >)
        ensures
            done_view(result) == launch_of(terminal@, done_view(spawned)),
    {
        read_launch(terminal, spawned)
    }

    /// The lock file that Pacman holds while it works.
    pub fn lock_files(&self) -> (out: Vec<String>)
        ensures
            out.deep_view() == seq!["/var/lib/pacman/db.lck"@],
    {
        let mut out: Vec<String> = Vec::new();
        out.push("/var/lib/pacman/db.lck".to_owned());
        assert(out.deep_view() =~= seq!["/var/lib/pacman/db.lck"@]);
        out
    }

    /// The command that searches for a running `paru` or `pacman`; it ends well
    /// where it found one.
    pub fn process_probe(&self) -> (out: Command)
        ensures
            out@ == (CommandView { program: "pgrep"@, args: seq!["-x"@, "paru|pacman"@] }),
    {
        let out = command("pgrep", &["-x", "paru|pacman"]);
        assert(out@.args =~= seq!["-x"@, "paru|pacman"@]);
        out
    }

    /// Whether the tool is at work: `locks` says of each lock file whether it
    /// exists, `probe` is the outcome of the process search.
    pub fn is_running(&self, locks: &[bool], probe: &CommandOutcome) -> (running: bool)
        ensures
            running == running_of(locks@, probe@),
    {
        read_running(locks, probe)
    }

    /// The tool's name for display.
    pub fn name(&self) -> (out: &'static str)
        ensures
            out@ == "Pacman + AUR (paru)"@,
    {
        "Pacman + AUR (paru)"
    }

    /// The command that refreshes the package databases.
    pub fn refresh_command(&self) -> (out: Command)
        ensures
            out@ == (CommandView { program: "paru"@, args: seq!["-Sy"@] }),
    {
        let out = command("paru", &["-Sy"]);
        assert(out@.args =~= seq!["-Sy"@]);
        out
    }

    /// What the outcome of the refresh command means.
    pub fn refresh_cache(&self, outcome: CommandOutcome) -> (result: Result<(), String>)
        ensures
            done_view(result) == refresh_of(outcome@),
    {
        read_refresh(outcome)
    }
}

/// The packages that a `paru -Qua` listing holds, each marked as coming from
/// the AUR. An entry has the form `name old-version -> new-version`.
pub fn parse_paru_output(output: &str) -> (packages: Vec<Package>)
    ensures
        packages.deep_view() == packages_of(Format::Paru, output@),
        forall|i: int|
            0 <= i < packages.len() ==> (#[trigger] packages[i])@.well_formed()
                && packages[i].is_aur,
{
    read_listing(Format::Paru, output).packages
}

} // verus!
