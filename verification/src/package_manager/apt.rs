//! APT, the package tool of Debian and its relatives.

use crate::command::{command, Command, CommandOutcome, CommandView};
use crate::package_manager::backend::{
    checked_view, done_view, launch_of, read_launch, read_refresh, read_running, read_updates,
    refresh_of, running_of, updates_of,
};
use crate::package_manager::listing::{packages_of, read_listing, Format, Listing};
use crate::package_manager::{Package, PackageView};
use vstd::prelude::*;

verus! {

/// The APT backend. It holds nothing: every operation asks the system anew.
#[derive(Debug, Clone, Copy)]
pub struct AptPackageManager;

impl AptPackageManager {
    /// The command that lists the packages that can be upgraded.
    pub fn list_command(&self) -> (out: Command)
        ensures
            out@ == (CommandView { program: "apt"@, args: seq!["list"@, "--upgradable"@] }),
    {
        let out = command("apt", &["list", "--upgradable"]);
        assert(out@.args =~= seq!["list"@, "--upgradable"@]);
        out
    }

    /// What the outcome of the listing command means: the packages it lists,
    /// or an error where `apt` could not be started or ended badly.
    pub fn check_updates(&self, outcome: CommandOutcome) -> (result: Result<Listing, String>)
        ensures
            checked_view(result) == updates_of(Format::Apt, outcome@),
            result is Ok <==> outcome@.succeeded(),
            result matches Ok(listing) ==> forall|i: int|
                0 <= i < listing.packages.len() ==> {
                    &&& (#[trigger] listing.packages[i])@.well_formed()
                    &&& !listing.packages[i].is_aur
                },
    {
        read_updates(Format::Apt, outcome)
    }

    /// The command that opens `terminal` with the upgrade in it.
    pub fn upgrade_command(&self, terminal: &str) -> (out: Command)
        ensures
            out@ == (CommandView {
                program: terminal@,
                args: seq!["-e"@, "pkexec"@, "apt"@, "upgrade"@, "-y"@],
            }),
    {
        let out = command(terminal, &["-e", "pkexec", "apt", "upgrade", "-y"]);
        assert(out@.args =~= seq!["-e"@, "pkexec"@, "apt"@, "upgrade"@, "-y"@]);
        out
    }

    /// What came of starting the terminal for the upgrade. The upgrade itself
    /// is not waited for.
    pub fn run_upgrade(&self, terminal: &str, spawned: Result<(), String>) -> (result: Result<
        (),
        String,
    >)
        ensures
            done_view(result) == launch_of(terminal@, done_view(spawned)),
    {
        read_launch(terminal, spawned)
    }

    /// The lock files that APT and dpkg hold while they work.
    pub fn lock_files(&self) -> (out: Vec<String>)
        ensures
            out.deep_view() == seq![
                "/var/lib/dpkg/lock-frontend"@,
                "/var/lib/apt/lists/lock"@,
                "/var/cache/apt/archives/lock"@,
            ],
    {
        let mut out: Vec<String> = Vec::new();
        out.push("/var/lib/dpkg/lock-frontend".to_owned());
        out.push("/var/lib/apt/lists/lock".to_owned());
        out.push("/var/cache/apt/archives/lock".to_owned());
        assert(out.deep_view() =~= seq![
            "/var/lib/dpkg/lock-frontend"@,
            "/var/lib/apt/lists/lock"@,
            "/var/cache/apt/archives/lock"@,
        ]);
        out
    }

    /// The command that searches for a running `apt`, `apt-get` or `dpkg`; it
    /// ends well where it found one.
    pub fn process_probe(&self) -> (out: Command)
        ensures
            out@ == (CommandView { program: "pgrep"@, args: seq!["-x"@, "apt|apt-get|dpkg"@] }),
    {
        let out = command("pgrep", &["-x", "apt|apt-get|dpkg"]);
        assert(out@.args =~= seq!["-x"@, "apt|apt-get|dpkg"@]);
        out
    }

    /// Whether APT is at work: `locks` says of each lock file whether it
    /// exists, `probe` is the outcome of the process search.
    pub fn is_running(&self, locks: &[bool], probe: &CommandOutcome) -> (running: bool)
        ensures
            running == running_of(locks@, probe@),
    {
        read_running(locks, probe)
    }

    /// The tool's name for display.
    pub fn name(&self) -> (out: &'static str)
        ensures
            out@ == "APT"@,
    {
        "APT"
    }

    /// The command that refreshes the package lists.
    pub fn refresh_command(&self) -> (out: Command)
        ensures
            out@ == (CommandView { program: "pkexec"@, args: seq!["apt"@, "update"@] }),
    {
        let out = command("pkexec", &["apt", "update"]);
        assert(out@.args =~= seq!["apt"@, "update"@]);
        out
    }

    /// What the outcome of the refresh command means.
    pub fn refresh_cache(&self, outcome: CommandOutcome) -> (result: Result<(), String>)
        ensures
            done_view(result) == refresh_of(outcome@),
    {
        read_refresh(outcome)
    }
}

/// The packages that an APT listing holds. The first line is the banner and
/// is never an entry; an entry has the form
/// `name/suite new-version architecture [upgradable from: old-version]`.
pub fn parse_apt_output(output: &str) -> (packages: Vec<Package>)
    ensures
        packages.deep_view() == packages_of(Format::Apt, output@),
        forall|i: int|
            0 <= i < packages.len() ==> (#[trigger] packages[i])@.well_formed()
                && !packages[i].is_aur,
{
    read_listing(Format::Apt, output).packages
}

/// A package of an official repository with the given name and versions.
pub open spec fn official(
    name: Seq<char>,
    current_version: Seq<char>,
    new_version: Seq<char>,
) -> PackageView {
    PackageView { name, current_version, new_version, is_aur: false }
}

/// The packages that stand in for a listing while the interface is tried out
/// on a system without APT.
pub open spec fn debug_packages() -> Seq<PackageView> {
    seq![
        official("firefox"@, "120.0"@, "121.0"@),
        official("libcosmic"@, "0.1.0"@, "0.2.0"@),
        official("rust-analyzer"@, "2024-01-01"@, "2024-02-01"@),
        official("linux-image-generic"@, "6.5.0.14"@, "6.5.0.15"@),
        official("systemd"@, "255.2-1"@, "255.4-1"@),
        official("libc6"@, "2.39-0ubuntu8"@, "2.39-0ubuntu8.1"@),
        official("python3"@, "3.12.3-0"@, "3.12.4-0"@),
        official("curl"@, "8.5.0-2"@, "8.6.0-1"@),
        official("git"@, "2.43.0"@, "2.44.0"@),
    ]
}

fn sample(name: &str, current_version: &str, new_version: &str) -> (out: Package)
    ensures
        out@ == official(name@, current_version@, new_version@),
{
    Package {
        name: name.to_owned(),
        current_version: current_version.to_owned(),
        new_version: new_version.to_owned(),
        is_aur: false,
    }
}

/// A fixed list of packages, in place of a listing: for trying out the
/// interface on a system without APT.
pub fn get_debug_packages() -> (out: Vec<Package>)
    ensures
        out.deep_view() == debug_packages(),
{
    let mut out: Vec<Package> = Vec::new();
    out.push(sample("firefox", "120.0", "121.0"));
    out.push(sample("libcosmic", "0.1.0", "0.2.0"));
    out.push(sample("rust-analyzer", "2024-01-01", "2024-02-01"));
    out.push(sample("linux-image-generic", "6.5.0.14", "6.5.0.15"));
    out.push(sample("systemd", "255.2-1", "255.4-1"));
    out.push(sample("libc6", "2.39-0ubuntu8", "2.39-0ubuntu8.1"));
    out.push(sample("python3", "3.12.3-0", "3.12.4-0"));
    out.push(sample("curl", "8.5.0-2", "8.6.0-1"));
    out.push(sample("git", "2.43.0", "2.44.0"));
    assert(out.deep_view() =~= debug_packages());
    out
}

} // verus!
