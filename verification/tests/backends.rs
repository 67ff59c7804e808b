use cosmic_ext_applet_updates::command::{command, joined, Command, CommandOutcome};
use cosmic_ext_applet_updates::package_manager::apt::{get_debug_packages, AptPackageManager};
use cosmic_ext_applet_updates::package_manager::backend::{
    read_launch, read_refresh, read_running, read_updates,
};
use cosmic_ext_applet_updates::package_manager::listing::Format;
use cosmic_ext_applet_updates::package_manager::pacman::PacmanPackageManager;
use cosmic_ext_applet_updates::package_manager::paru::ParuPackageManager;
use cosmic_ext_applet_updates::package_manager::yay::YayPackageManager;

fn argv(command: &Command) -> Vec<&str> {
    let mut all = vec![command.program.as_str()];
    all.extend(command.args.iter().map(|arg| arg.as_str()));
    all
}

fn exited(success: bool, stdout: &str, stderr: &str) -> CommandOutcome {
    CommandOutcome::Exited {
        success,
        stdout: stdout.as_bytes().to_vec(),
        stderr: stderr.as_bytes().to_vec(),
    }
}

fn failed(reason: &str) -> CommandOutcome {
    CommandOutcome::LaunchFailed(reason.to_string())
}

#[test]
fn command_holds_program_and_arguments() {
    let built = command("pgrep", &["-x", "pacman"]);
    assert_eq!(built.program, "pgrep");
    assert_eq!(built.args, vec!["-x", "pacman"]);
    let bare = command("checkupdates", &[]);
    assert_eq!(bare.program, "checkupdates");
    assert!(bare.args.is_empty());
}

#[test]
fn joined_puts_one_text_after_the_other() {
    assert_eq!(joined("Failed to run ", "apt"), "Failed to run apt");
    assert_eq!(joined("", "x"), "x");
    assert_eq!(joined("x", ""), "x");
}

#[test]
fn outcome_succeeded_only_with_exit_status_zero() {
    assert!(exited(true, "", "").succeeded());
    assert!(!exited(false, "", "").succeeded());
    assert!(!failed("no such file").succeeded());
}

#[test]
fn apt_commands() {
    let apt = AptPackageManager;
    assert_eq!(argv(&apt.list_command()), vec!["apt", "list", "--upgradable"]);
    assert_eq!(
        argv(&apt.upgrade_command("konsole")),
        vec!["konsole", "-e", "pkexec", "apt", "upgrade", "-y"]
    );
    assert_eq!(argv(&apt.refresh_command()), vec!["pkexec", "apt", "update"]);
    assert_eq!(argv(&apt.process_probe()), vec!["pgrep", "-x", "apt|apt-get|dpkg"]);
    assert_eq!(
        apt.lock_files(),
        vec!["/var/lib/dpkg/lock-frontend", "/var/lib/apt/lists/lock", "/var/cache/apt/archives/lock"]
    );
    assert_eq!(apt.name(), "APT");
}

#[test]
fn pacman_commands() {
    let pacman = PacmanPackageManager;
    assert_eq!(argv(&pacman.list_command()), vec!["checkupdates"]);
    assert_eq!(
        argv(&pacman.upgrade_command("kitty")),
        vec!["kitty", "-e", "pkexec", "pacman", "-Syu", "--noconfirm"]
    );
    assert_eq!(argv(&pacman.process_probe()), vec!["pgrep", "-x", "pacman"]);
    assert_eq!(pacman.lock_files(), vec!["/var/lib/pacman/db.lck"]);
    assert_eq!(pacman.name(), "Pacman");
}

#[test]
fn paru_commands() {
    let paru = ParuPackageManager;
    assert_eq!(argv(&paru.list_command()), vec!["paru", "-Qua"]);
    assert_eq!(argv(&paru.upgrade_command("xterm")), vec!["xterm", "-e", "paru", "-Syu"]);
    assert_eq!(argv(&paru.refresh_command()), vec!["paru", "-Sy"]);
    assert_eq!(argv(&paru.process_probe()), vec!["pgrep", "-x", "paru|pacman"]);
    assert_eq!(paru.lock_files(), vec!["/var/lib/pacman/db.lck"]);
    assert_eq!(paru.name(), "Pacman + AUR (paru)");
}

#[test]
fn yay_commands() {
    let yay = YayPackageManager;
    assert_eq!(argv(&yay.list_command()), vec!["yay", "-Qua"]);
    assert_eq!(argv(&yay.upgrade_command("xterm")), vec!["xterm", "-e", "yay", "-Syu"]);
    assert_eq!(argv(&yay.refresh_command()), vec!["yay", "-Sy"]);
    assert_eq!(argv(&yay.process_probe()), vec!["pgrep", "-x", "yay|pacman"]);
    assert_eq!(yay.lock_files(), vec!["/var/lib/pacman/db.lck"]);
    assert_eq!(yay.name(), "Pacman + AUR (yay)");
}

#[test]
fn apt_check_reads_the_listing() {
    let listing = AptPackageManager
        .check_updates(exited(
            true,
            "Listing...\nfirefox/jammy 121.0 amd64 [upgradable from: 120.0]\n",
            "WARNING: apt does not have a stable CLI interface.",
        ))
        .unwrap();
    assert_eq!(listing.packages.len(), 1);
    assert_eq!(listing.packages[0].name, "firefox");
    assert_eq!(listing.packages[0].current_version, "120.0");
    assert_eq!(listing.packages[0].new_version, "121.0");
    assert!(!listing.packages[0].is_aur);
    assert!(listing.skipped.is_empty());
}

#[test]
fn apt_check_fails_when_apt_ends_badly() {
    let result = AptPackageManager.check_updates(exited(
        false,
        "Listing...\nfirefox/jammy 121.0 amd64 [upgradable from: 120.0]\n",
        "E: broken",
    ));
    assert_eq!(result.unwrap_err(), "apt command failed");
}

#[test]
fn apt_check_fails_when_apt_cannot_start() {
    let result = AptPackageManager.check_updates(failed("No such file or directory (os error 2)"));
    assert_eq!(result.unwrap_err(), "Failed to run apt: No such file or directory (os error 2)");
}

#[test]
fn pacman_family_check_is_empty_when_the_tool_ends_badly() {
    let output = "firefox 120.0-1 -> 121.0-1\n";
    let pacman = PacmanPackageManager.check_updates(exited(false, output, "")).unwrap();
    assert!(pacman.packages.is_empty());
    assert!(pacman.skipped.is_empty());
    let paru = ParuPackageManager.check_updates(exited(false, output, "")).unwrap();
    assert!(paru.packages.is_empty());
    let yay = YayPackageManager.check_updates(exited(false, output, "")).unwrap();
    assert!(yay.packages.is_empty());
}

#[test]
fn pacman_family_check_fails_when_the_tool_cannot_start() {
    assert_eq!(
        PacmanPackageManager.check_updates(failed("denied")).unwrap_err(),
        "Failed to run checkupdates: denied"
    );
    assert_eq!(
        ParuPackageManager.check_updates(failed("denied")).unwrap_err(),
        "Failed to run paru: denied"
    );
    assert_eq!(
        YayPackageManager.check_updates(failed("denied")).unwrap_err(),
        "Failed to run yay: denied"
    );
}

#[test]
fn pacman_family_check_reads_the_listing() {
    let output = "firefox 120.0-1 -> 121.0-1\nbroken\n";
    let pacman = PacmanPackageManager.check_updates(exited(true, output, "")).unwrap();
    assert_eq!(pacman.packages.len(), 1);
    assert!(!pacman.packages[0].is_aur);
    assert_eq!(pacman.skipped.len(), 1);
    let paru = ParuPackageManager.check_updates(exited(true, output, "")).unwrap();
    assert_eq!(paru.packages.len(), 1);
    assert!(paru.packages[0].is_aur);
    let yay = YayPackageManager.check_updates(exited(true, output, "")).unwrap();
    assert_eq!(yay.packages.len(), 1);
    assert!(yay.packages[0].is_aur);
}

#[test]
fn output_that_is_no_utf8_is_read_with_replacement_characters() {
    let outcome = CommandOutcome::Exited {
        success: true,
        stdout: b"fire\xFFfox 1.0 -> 2.0\xC3\n".to_vec(),
        stderr: Vec::new(),
    };
    let listing = read_updates(Format::Pacman, outcome).unwrap();
    assert_eq!(listing.packages.len(), 1);
    assert_eq!(listing.packages[0].name, "fire\u{FFFD}fox");
    assert_eq!(listing.packages[0].current_version, "1.0");
    assert_eq!(listing.packages[0].new_version, "2.0\u{FFFD}");
}

#[test]
fn output_in_utf8_is_read_as_it_is() {
    let listing =
        read_updates(Format::Yay, exited(true, "größe 1.0 -> 2.0\n", "")).unwrap();
    assert_eq!(listing.packages.len(), 1);
    assert_eq!(listing.packages[0].name, "größe");
}

#[test]
fn launch_of_terminal() {
    assert_eq!(read_launch("konsole", Ok(())), Ok(()));
    assert_eq!(
        read_launch("konsole", Err("No such file or directory (os error 2)".to_string())),
        Err("Failed to launch terminal 'konsole': No such file or directory (os error 2)"
            .to_string())
    );
    assert_eq!(AptPackageManager.run_upgrade("x", Ok(())), Ok(()));
    assert_eq!(
        PacmanPackageManager.run_upgrade("x", Err("e".to_string())),
        Err("Failed to launch terminal 'x': e".to_string())
    );
    assert_eq!(
        ParuPackageManager.run_upgrade("", Err("e".to_string())),
        Err("Failed to launch terminal '': e".to_string())
    );
    assert_eq!(YayPackageManager.run_upgrade("x", Ok(())), Ok(()));
}

#[test]
fn running_when_a_lock_exists_or_a_process_was_found() {
    assert!(!read_running(&[], &exited(false, "", "")));
    assert!(!read_running(&[false, false, false], &exited(false, "", "")));
    assert!(!read_running(&[false], &failed("pgrep: not found")));
    assert!(read_running(&[false, false, true], &exited(false, "", "")));
    assert!(read_running(&[true], &failed("pgrep: not found")));
    assert!(read_running(&[false, false, false], &exited(true, "1234\n", "")));
    assert!(read_running(&[], &exited(true, "", "")));
    assert!(AptPackageManager.is_running(&[false, true, false], &exited(false, "", "")));
    assert!(!PacmanPackageManager.is_running(&[false], &exited(false, "", "")));
    assert!(ParuPackageManager.is_running(&[false], &exited(true, "", "")));
    assert!(!YayPackageManager.is_running(&[false], &failed("x")));
}

#[test]
fn refresh_outcomes() {
    assert_eq!(read_refresh(exited(true, "", "some noise")), Ok(()));
    assert_eq!(
        read_refresh(exited(false, "out", "E: could not lock\n")),
        Err("Cache refresh failed: E: could not lock\n".to_string())
    );
    assert_eq!(
        read_refresh(failed("pkexec missing")),
        Err("Failed to refresh cache: pkexec missing".to_string())
    );
    assert_eq!(AptPackageManager.refresh_cache(exited(true, "", "")), Ok(()));
    assert_eq!(
        ParuPackageManager.refresh_cache(exited(false, "", "bad")),
        Err("Cache refresh failed: bad".to_string())
    );
    assert_eq!(
        YayPackageManager.refresh_cache(failed("gone")),
        Err("Failed to refresh cache: gone".to_string())
    );
}

#[test]
fn refresh_error_text_is_read_with_replacement_characters() {
    let outcome = CommandOutcome::Exited {
        success: false,
        stdout: Vec::new(),
        stderr: b"bad \xF0\x28 byte".to_vec(),
    };
    assert_eq!(
        read_refresh(outcome),
        Err("Cache refresh failed: bad \u{FFFD}( byte".to_string())
    );
}

#[test]
fn pacman_refresh_is_nothing_to_do() {
    assert_eq!(PacmanPackageManager.refresh_cache(), Ok(()));
}

#[test]
fn debug_packages_are_fixed() {
    let packages = get_debug_packages();
    let expected = [
        ("firefox", "120.0", "121.0"),
        ("libcosmic", "0.1.0", "0.2.0"),
        ("rust-analyzer", "2024-01-01", "2024-02-01"),
        ("linux-image-generic", "6.5.0.14", "6.5.0.15"),
        ("systemd", "255.2-1", "255.4-1"),
        ("libc6", "2.39-0ubuntu8", "2.39-0ubuntu8.1"),
        ("python3", "3.12.3-0", "3.12.4-0"),
        ("curl", "8.5.0-2", "8.6.0-1"),
        ("git", "2.43.0", "2.44.0"),
    ];
    assert_eq!(packages.len(), expected.len());
    for (package, (name, current, new)) in packages.iter().zip(expected.iter()) {
        assert_eq!(package.name, *name);
        assert_eq!(package.current_version, *current);
        assert_eq!(package.new_version, *new);
        assert!(!package.is_aur);
    }
}
