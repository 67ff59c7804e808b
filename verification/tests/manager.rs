use cosmic_ext_applet_updates::command::{Command, CommandOutcome};
use cosmic_ext_applet_updates::package_manager::apt::AptPackageManager;
use cosmic_ext_applet_updates::package_manager::backend::read_refresh;
use cosmic_ext_applet_updates::package_manager::detect::{
    detect_package_manager, select_backend, Detection, Tool,
};
use cosmic_ext_applet_updates::package_manager::listing::{Format, Listing};
use cosmic_ext_applet_updates::package_manager::pacman::PacmanPackageManager;
use cosmic_ext_applet_updates::package_manager::paru::ParuPackageManager;
use cosmic_ext_applet_updates::package_manager::yay::YayPackageManager;
use cosmic_ext_applet_updates::package_manager::{
    continue_refresh, list_command, merge_packages, merge_updates, CheckStage, Package,
    PackageManager, Refresh, UpdateCheck,
};

fn argv(command: &Command) -> Vec<&str> {
    let mut all = vec![command.program.as_str()];
    all.extend(command.args.iter().map(|arg| arg.as_str()));
    all
}

fn exited(success: bool, stdout: &str) -> CommandOutcome {
    CommandOutcome::Exited { success, stdout: stdout.as_bytes().to_vec(), stderr: Vec::new() }
}

fn failed(reason: &str) -> CommandOutcome {
    CommandOutcome::LaunchFailed(reason.to_string())
}

fn package(name: &str, is_aur: bool) -> Package {
    Package {
        name: name.to_string(),
        current_version: "1".to_string(),
        new_version: "2".to_string(),
        is_aur,
    }
}

fn names(packages: &[Package]) -> Vec<(&str, bool)> {
    packages.iter().map(|package| (package.name.as_str(), package.is_aur)).collect()
}

fn apt() -> PackageManager {
    PackageManager::Apt(AptPackageManager)
}

fn pacman() -> PackageManager {
    PackageManager::Pacman(PacmanPackageManager)
}

fn with_paru() -> PackageManager {
    PackageManager::CombinedParu(PacmanPackageManager, ParuPackageManager)
}

fn with_yay() -> PackageManager {
    PackageManager::CombinedYay(PacmanPackageManager, YayPackageManager)
}

/// Runs a check to its end, answering the commands with the given outcomes,
/// and says which commands were asked for.
fn check(
    pm: PackageManager,
    debug: bool,
    outcomes: Vec<CommandOutcome>,
) -> (Result<Listing, String>, Vec<String>) {
    let mut asked = Vec::new();
    let mut outcomes = outcomes.into_iter();
    let mut step = pm.check_updates(debug);
    loop {
        match step {
            UpdateCheck::Done(result) => return (result, asked),
            UpdateCheck::Run(command, stage) => {
                asked.push(argv(&command).join(" "));
                step = stage.resume(outcomes.next().expect("an outcome for every command"));
            }
        }
    }
}

#[test]
fn combined_merge_ordering() {
    let merged = merge_packages(
        vec![package("A", false), package("B", false)],
        vec![package("C", true)],
    );
    assert_eq!(names(&merged), vec![("A", false), ("B", false), ("C", true)]);
}

#[test]
fn merge_marks_official_packages_as_official() {
    let merged = merge_packages(vec![package("A", true)], vec![package("C", true), package("D", false)]);
    assert_eq!(names(&merged), vec![("A", false), ("C", true), ("D", false)]);
}

#[test]
fn merge_with_an_empty_side() {
    assert_eq!(names(&merge_packages(vec![], vec![package("C", true)])), vec![("C", true)]);
    assert_eq!(names(&merge_packages(vec![package("A", false)], vec![])), vec![("A", false)]);
    assert!(merge_packages(vec![], vec![]).is_empty());
}

#[test]
fn merge_keeps_versions() {
    let official = Package {
        name: "linux".to_string(),
        current_version: "6.6.1".to_string(),
        new_version: "6.6.2".to_string(),
        is_aur: true,
    };
    let merged = merge_packages(vec![official], vec![]);
    assert_eq!(merged[0].name, "linux");
    assert_eq!(merged[0].current_version, "6.6.1");
    assert_eq!(merged[0].new_version, "6.6.2");
    assert!(!merged[0].is_aur);
}

#[test]
fn merge_updates_joins_packages_and_skipped_lines() {
    let official = PacmanPackageManager.check_updates(exited(true, "a 1 -> 2\nbad one\n")).unwrap();
    let aur = ParuPackageManager.check_updates(exited(true, "bad two\nc 1 -> 2\n")).unwrap();
    let merged = merge_updates(official, aur);
    assert_eq!(names(&merged.packages), vec![("a", false), ("c", true)]);
    let skipped: Vec<(&str, Format)> =
        merged.skipped.iter().map(|skipped| (skipped.line.as_str(), skipped.format)).collect();
    assert_eq!(skipped, vec![("bad one", Format::Pacman), ("bad two", Format::Paru)]);
}

#[test]
fn list_commands_by_format() {
    assert_eq!(argv(&list_command(Format::Apt)), vec!["apt", "list", "--upgradable"]);
    assert_eq!(argv(&list_command(Format::Pacman)), vec!["checkupdates"]);
    assert_eq!(argv(&list_command(Format::Paru)), vec!["paru", "-Qua"]);
    assert_eq!(argv(&list_command(Format::Yay)), vec!["yay", "-Qua"]);
}

#[test]
fn single_backend_check() {
    let (result, asked) = check(
        apt(),
        false,
        vec![exited(true, "Listing...\nfirefox/jammy 121.0 amd64 [upgradable from: 120.0]\n")],
    );
    assert_eq!(asked, vec!["apt list --upgradable"]);
    assert_eq!(names(&result.unwrap().packages), vec![("firefox", false)]);

    let (result, asked) = check(pacman(), false, vec![exited(true, "linux 1 -> 2\n")]);
    assert_eq!(asked, vec!["checkupdates"]);
    assert_eq!(names(&result.unwrap().packages), vec![("linux", false)]);
}

#[test]
fn single_backend_check_errors() {
    let (result, _) = check(apt(), false, vec![exited(false, "")]);
    assert_eq!(result.unwrap_err(), "apt command failed");
    let (result, _) = check(apt(), false, vec![failed("gone")]);
    assert_eq!(result.unwrap_err(), "Failed to run apt: gone");
    let (result, _) = check(pacman(), false, vec![exited(false, "linux 1 -> 2\n")]);
    assert!(result.unwrap().packages.is_empty());
    let (result, _) = check(pacman(), true, vec![failed("gone")]);
    assert_eq!(result.unwrap_err(), "Failed to run checkupdates: gone");
}

#[test]
fn apt_debug_check_runs_no_command() {
    let (result, asked) = check(apt(), true, vec![]);
    assert!(asked.is_empty());
    let listing = result.unwrap();
    assert_eq!(listing.packages.len(), 9);
    assert_eq!(listing.packages[0].name, "firefox");
    assert_eq!(listing.packages[8].name, "git");
    assert!(listing.skipped.is_empty());
}

#[test]
fn debug_switch_is_for_apt_only() {
    let (_, asked) = check(pacman(), true, vec![exited(true, "")]);
    assert_eq!(asked, vec!["checkupdates"]);
    let (_, asked) = check(with_paru(), true, vec![exited(true, ""), exited(true, "")]);
    assert_eq!(asked, vec!["checkupdates", "paru -Qua"]);
}

#[test]
fn combined_check_puts_official_packages_first() {
    let (result, asked) = check(
        with_paru(),
        false,
        vec![exited(true, "A 1 -> 2\nB 1 -> 2\n"), exited(true, "C 1 -> 2\n")],
    );
    assert_eq!(asked, vec!["checkupdates", "paru -Qua"]);
    assert_eq!(names(&result.unwrap().packages), vec![("A", false), ("B", false), ("C", true)]);

    let (result, asked) = check(
        with_yay(),
        false,
        vec![exited(true, "A 1 -> 2\n"), exited(true, "C 1 -> 2\nD 1 -> 2\n")],
    );
    assert_eq!(asked, vec!["checkupdates", "yay -Qua"]);
    assert_eq!(names(&result.unwrap().packages), vec![("A", false), ("C", true), ("D", true)]);
}

#[test]
fn combined_check_stops_at_an_official_error() {
    let (result, asked) = check(with_paru(), false, vec![failed("no checkupdates")]);
    assert_eq!(asked, vec!["checkupdates"]);
    assert_eq!(result.unwrap_err(), "Failed to run checkupdates: no checkupdates");
}

#[test]
fn combined_check_gives_the_helper_error() {
    let (result, asked) =
        check(with_yay(), false, vec![exited(true, "A 1 -> 2\n"), failed("no yay")]);
    assert_eq!(asked, vec!["checkupdates", "yay -Qua"]);
    assert_eq!(result.unwrap_err(), "Failed to run yay: no yay");
}

#[test]
fn combined_check_with_nothing_official() {
    let (result, _) =
        check(with_paru(), false, vec![exited(false, ""), exited(true, "C 1 -> 2\n")]);
    assert_eq!(names(&result.unwrap().packages), vec![("C", true)]);
    let (result, _) = check(with_paru(), false, vec![exited(true, "A 1 -> 2\n"), exited(false, "")]);
    assert_eq!(names(&result.unwrap().packages), vec![("A", false)]);
}

#[test]
fn stages_resume_on_their_own() {
    match CheckStage::Only(Format::Yay).resume(exited(true, "C 1 -> 2\n")) {
        UpdateCheck::Done(Ok(listing)) => assert_eq!(names(&listing.packages), vec![("C", true)]),
        other => panic!("{:?}", other),
    }
    match CheckStage::Official(Format::Yay).resume(exited(true, "A 1 -> 2\n")) {
        UpdateCheck::Run(command, CheckStage::Helper(Format::Yay, official)) => {
            assert_eq!(argv(&command), vec!["yay", "-Qua"]);
            assert_eq!(names(&official.packages), vec![("A", false)]);
        }
        other => panic!("{:?}", other),
    }
}

#[test]
fn upgrade_goes_to_the_helper() {
    assert_eq!(
        argv(&apt().upgrade_command("t")),
        vec!["t", "-e", "pkexec", "apt", "upgrade", "-y"]
    );
    assert_eq!(
        argv(&pacman().upgrade_command("t")),
        vec!["t", "-e", "pkexec", "pacman", "-Syu", "--noconfirm"]
    );
    assert_eq!(argv(&with_paru().upgrade_command("t")), vec!["t", "-e", "paru", "-Syu"]);
    assert_eq!(argv(&with_yay().upgrade_command("t")), vec!["t", "-e", "yay", "-Syu"]);
    for pm in [apt(), pacman(), with_paru(), with_yay()] {
        assert_eq!(pm.run_upgrade("t", Ok(())), Ok(()));
        assert_eq!(
            pm.run_upgrade("t", Err("e".to_string())),
            Err("Failed to launch terminal 't': e".to_string())
        );
    }
}

#[test]
fn running_is_asked_of_pacman_alone() {
    assert_eq!(argv(&apt().process_probe()), vec!["pgrep", "-x", "apt|apt-get|dpkg"]);
    assert_eq!(apt().lock_files().len(), 3);
    for pm in [pacman(), with_paru(), with_yay()] {
        assert_eq!(argv(&pm.process_probe()), vec!["pgrep", "-x", "pacman"]);
        assert_eq!(pm.lock_files(), vec!["/var/lib/pacman/db.lck"]);
    }
    for pm in [apt(), pacman(), with_paru(), with_yay()] {
        assert!(pm.is_running(&[true], &failed("x")));
        assert!(pm.is_running(&[false], &exited(true, "")));
        assert!(!pm.is_running(&[false], &exited(false, "")));
        assert!(!pm.is_running(&[], &failed("x")));
    }
}

#[test]
fn names_for_display() {
    assert_eq!(apt().name(), "APT");
    assert_eq!(pacman().name(), "Pacman");
    assert_eq!(with_paru().name(), "Pacman + AUR (paru)");
    assert_eq!(with_yay().name(), "Pacman + AUR (yay)");
}

#[test]
fn refresh_steps() {
    match apt().refresh_cache() {
        Refresh::Run(command) => assert_eq!(argv(&command), vec!["pkexec", "apt", "update"]),
        other => panic!("{:?}", other),
    }
    match pacman().refresh_cache() {
        Refresh::Done(result) => assert_eq!(result, Ok(())),
        other => panic!("{:?}", other),
    }
    match with_paru().refresh_cache() {
        Refresh::Run(command) => assert_eq!(argv(&command), vec!["paru", "-Sy"]),
        other => panic!("{:?}", other),
    }
    match with_yay().refresh_cache() {
        Refresh::Run(command) => {
            assert_eq!(argv(&command), vec!["yay", "-Sy"]);
            assert_eq!(read_refresh(exited(true, "")), Ok(()));
        }
        other => panic!("{:?}", other),
    }
}

#[test]
fn combined_refresh_fails_fast() {
    let helper = ParuPackageManager.refresh_command();
    match continue_refresh(Err("official refresh failed".to_string()), helper) {
        Refresh::Done(result) => assert_eq!(result, Err("official refresh failed".to_string())),
        Refresh::Run(command) => panic!("the helper was asked: {:?}", command),
    }
}

#[test]
fn combined_refresh_goes_on_after_success() {
    let helper = YayPackageManager.refresh_command();
    match continue_refresh(Ok(()), helper) {
        Refresh::Run(command) => assert_eq!(argv(&command), vec!["yay", "-Sy"]),
        other => panic!("{:?}", other),
    }
}

/// Runs the search to its end on a system with the given tools, and says
/// which programs were asked for.
fn detect(present: &[&str]) -> (Option<PackageManager>, Vec<String>) {
    let mut asked = Vec::new();
    let mut step = detect_package_manager();
    loop {
        match step {
            Detection::Done(found) => return (found, asked),
            Detection::Probe(command, tool) => {
                assert_eq!(command.args, vec!["--version"]);
                let outcome = if present.contains(&command.program.as_str()) {
                    exited(command.program != "apt", "")
                } else {
                    failed("No such file or directory (os error 2)")
                };
                asked.push(command.program);
                step = tool.resume(&outcome);
            }
        }
    }
}

#[test]
fn detection_priority() {
    let (found, asked) = detect(&["apt", "pacman"]);
    assert!(matches!(found, Some(PackageManager::Apt(_))));
    assert_eq!(asked, vec!["apt"]);
    assert!(matches!(select_backend(true, true, false, false), Some(PackageManager::Apt(_))));
    assert!(matches!(select_backend(true, true, true, true), Some(PackageManager::Apt(_))));
}

#[test]
fn detection_of_each_backend() {
    let (found, asked) = detect(&["pacman"]);
    assert!(matches!(found, Some(PackageManager::Pacman(_))));
    assert_eq!(asked, vec!["apt", "pacman", "paru", "yay"]);

    let (found, asked) = detect(&["pacman", "paru", "yay"]);
    assert!(matches!(found, Some(PackageManager::CombinedParu(_, _))));
    assert_eq!(asked, vec!["apt", "pacman", "paru"]);

    let (found, asked) = detect(&["pacman", "yay"]);
    assert!(matches!(found, Some(PackageManager::CombinedYay(_, _))));
    assert_eq!(asked, vec!["apt", "pacman", "paru", "yay"]);

    let (found, asked) = detect(&["apt"]);
    assert!(matches!(found, Some(PackageManager::Apt(_))));
    assert_eq!(asked, vec!["apt"]);
}

#[test]
fn detection_without_a_supported_tool() {
    let (found, asked) = detect(&[]);
    assert!(found.is_none());
    assert_eq!(asked, vec!["apt", "pacman"]);
    let (found, asked) = detect(&["paru", "yay"]);
    assert!(found.is_none());
    assert_eq!(asked, vec!["apt", "pacman"]);
    assert!(select_backend(false, false, true, true).is_none());
}

#[test]
fn a_tool_that_starts_counts_as_present_however_it_ends() {
    assert!(matches!(
        Tool::Apt.resume(&exited(false, "")),
        Detection::Done(Some(PackageManager::Apt(_)))
    ));
    assert!(matches!(Tool::Apt.resume(&failed("gone")), Detection::Probe(_, Tool::Pacman)));
    assert!(matches!(Tool::Pacman.resume(&exited(false, "")), Detection::Probe(_, Tool::Paru)));
    assert!(matches!(Tool::Pacman.resume(&failed("gone")), Detection::Done(None)));
    assert!(matches!(
        Tool::Paru.resume(&exited(true, "")),
        Detection::Done(Some(PackageManager::CombinedParu(_, _)))
    ));
    assert!(matches!(Tool::Paru.resume(&failed("gone")), Detection::Probe(_, Tool::Yay)));
    assert!(matches!(
        Tool::Yay.resume(&exited(true, "")),
        Detection::Done(Some(PackageManager::CombinedYay(_, _)))
    ));
    assert!(matches!(
        Tool::Yay.resume(&failed("gone")),
        Detection::Done(Some(PackageManager::Pacman(_)))
    ));
}

#[test]
fn select_backend_on_every_system() {
    for bits in 0..16u8 {
        let (apt, pacman, paru, yay) =
            (bits & 1 != 0, bits & 2 != 0, bits & 4 != 0, bits & 8 != 0);
        let found = select_backend(apt, pacman, paru, yay);
        if apt {
            assert!(matches!(found, Some(PackageManager::Apt(_))));
        } else if !pacman {
            assert!(found.is_none());
        } else if paru {
            assert!(matches!(found, Some(PackageManager::CombinedParu(_, _))));
        } else if yay {
            assert!(matches!(found, Some(PackageManager::CombinedYay(_, _))));
        } else {
            assert!(matches!(found, Some(PackageManager::Pacman(_))));
        }
    }
}
