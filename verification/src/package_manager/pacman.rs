//! Pacman, the package tool of Arch Linux, for the official repositories.

use crate::command::{command, Command, CommandOutcome, CommandView};
use crate::package_manager::backend::{
    checked_view, done_view, launch_of, read_launch, read_running, read_updates, running_of,
    updates_of,
};
use crate::package_manager::listing::{packages_of, read_listing, Format, Listing};
use crate::package_manager::Package;
use vstd::prelude::*;

verus! {

/// The Pacman backend. It holds nothing: every operation asks the system anew.
#[derive(Debug, Clone, Copy)]
pub struct PacmanPackageManager;

impl PacmanPackageManager {
    /// The command that lists the packages that can be upgraded.
    pub fn list_command(&self) -> (out: Command)
        ensures
            out@ == (CommandView { program: "checkupdates"@, args: Seq::<Seq<char>>::empty() }),
    {
        let none: [&str; 0] = [];
        let out = command("checkupdates", &none);
        assert(out@.args =~= Seq::<Seq<char>>::empty());
        out
    }

    /// What the outcome of the listing command means: the packages it lists;
    /// none where the tool ended badly, which it does when nothing is to be
    /// updated; an error only where it could not be started.
    pub fn check_updates(&self, outcome: CommandOutcome) -> (result: Result<Listing, String>)
        ensures
            checked_view(result) == updates_of(Format::Pacman, outcome@),
            result is Err <==> outcome is LaunchFailed,
            result matches Ok(listing) ==> forall|i: int|
                0 <= i < listing.packages.len() ==> {
                    &&& (#[trigger] listing.packages[i])@.well_formed()
                    &&& !listing.packages[i].is_aur
                },
    {
        read_updates(Format::Pacman, outcome)
    }

    /// The command that opens `terminal` with the upgrade in it.
    pub fn upgrade_command(&self, terminal: &str) -> (out: Command)
        ensures
            out@ == (CommandView {
                program: terminal@,
                args: seq!["-e"@, "pkexec"@, "pacman"@, "-Syu"@, "--noconfirm"@],
            }),
    {
        let out = command(terminal, &["-e", "pkexec", "pacman", "-Syu", "--noconfirm"]);
        assert(out@.args =~= seq!["-e"@, "pkexec"@, "pacman"@, "-Syu"@, "--noconfirm"@]);
        out
    }

    /// What came of starting the terminal for the upgrade. The upgrade itself
    /// is not waited for.
    pub fn run_upgrade(&self, terminal: &str, spawned: Result<(), String>) -> (result: Result<
        (),
        String,
    >)
        ensures
            done_view(result) == launch_of(terminal@, done_view(spawned)),
    {
        read_launch(terminal, spawned)
    }

    /// The lock file that Pacman holds while it works.
    pub fn lock_files(&self) -> (out: Vec<String>)
        ensures
            out.deep_view() == seq!["/var/lib/pacman/db.lck"@],
    {
        let mut out: Vec<String> = Vec::new();
        out.push("/var/lib/pacman/db.lck".to_owned());
        assert(out.deep_view() =~= seq!["/var/lib/pacman/db.lck"@]);
        out
    }

    /// The command that searches for a running `pacman`; it ends well where it
    /// found one.
    pub fn process_probe(&self) -> (out: Command)
        ensures
            out@ == (CommandView { program: "pgrep"@, args: seq!["-x"@, "pacman"@] }),
    {
        let out = command("pgrep", &["-x", "pacman"]);
        assert(out@.args =~= seq!["-x"@, "pacman"@]);
        out
    }

    /// Whether the tool is at work: `locks` says of each lock file whether it
    /// exists, `probe` is the outcome of the process search.
    pub fn is_running(&self, locks: &[bool], probe: &CommandOutcome) -> (running: bool)
        ensures
            running == running_of(locks@, probe@),
    {
        read_running(locks, probe)
    }

    /// The tool's name for display.
    pub fn name(&self) -> (out: &'static str)
        ensures
            out@ == "Pacman"@,
    {
        "Pacman"
    }

    /// Refreshing is nothing to do here: `checkupdates` works on a copy of the
    /// package database that it brings up to date itself.
    pub fn refresh_cache(&self) -> (result: Result<(), String>)
        ensures
            result is Ok,
    {
        Ok(())
    }
}

/// The packages that a `checkupdates` listing holds. An entry has the form
/// `name old-version -> new-version`.
pub fn parse_pacman_output(output: &str) -> (packages: Vec<Package>)
    ensures
        packages.deep_view() == packages_of(Format::Pacman, output@),
        forall|i: int|
            0 <= i < packages.len() ==> (#[trigger] packages[i])@.well_formed()
                && !packages[i].is_aur,
{
    read_listing(Format::Pacman, output).packages
}

} // verus!
