use aurcat::aur::AurPackageInfoResult;
use aurcat::error::PackageError;
use aurcat::install::{Action, Event, InstallMachine, Outcome, Phase};
use aurcat::inventory::InstalledPackage;

fn installed(package: &str, version: &str) -> InstalledPackage {
    InstalledPackage { package: package.to_string(), version: version.to_string() }
}

fn info(
    name: &str,
    version: &str,
    last_modified: u64,
    depends: &[&str],
    make_depends: &[&str],
    conflicts: &[&str],
) -> AurPackageInfoResult {
    AurPackageInfoResult {
        name: name.to_string(),
        version: version.to_string(),
        last_modified,
        url_path: format!("/cgit/aur.git/snapshot/{name}.tar.gz"),
        depends: depends.iter().map(|s| s.to_string()).collect(),
        make_depends: make_depends.iter().map(|s| s.to_string()).collect(),
        conflicts: conflicts.iter().map(|s| s.to_string()).collect(),
    }
}

fn strings(cmd: &[&str]) -> Vec<String> {
    cmd.iter().map(|s| s.to_string()).collect()
}

#[test]
fn native_package_installs_with_exact_command() {
    // confirm policy off: --noconfirm is appended
    let mut m = InstallMachine::new_install("vim".to_string(), false, true, 1, "/r".to_string());
    assert_eq!(m.next_action(), Some(Action::CheckNative));
    m.on_event(Event::NativeExists(true));
    assert_eq!(m.next_action(), Some(Action::RunNativeInstall));
    assert_eq!(m.native_install_command(), strings(&["pacman", "-S", "vim", "--noconfirm"]));
    m.on_event(Event::CommandDone(true));
    assert_eq!(m.phase, Phase::Done(Outcome::Success));

    // confirm policy on: no --noconfirm
    let m = InstallMachine::new_install("vim".to_string(), true, true, 1, "/r".to_string());
    assert_eq!(m.native_install_command(), strings(&["pacman", "-S", "vim"]));
}

#[test]
fn native_hit_never_searches_the_community() {
    let mut m = InstallMachine::new_install("vim".to_string(), false, true, 1, "/r".to_string());
    m.on_event(Event::NativeExists(true));
    let mut actions = Vec::new();
    while let Some(a) = m.next_action() {
        actions.push(a);
        m.on_event(Event::CommandDone(true));
    }
    assert!(!actions.contains(&Action::SearchCommunity));
}

#[test]
fn missing_name_falls_back_or_fails() {
    // single requested name with the fallback on: delegate to search
    let mut m = InstallMachine::new_install("nope".to_string(), true, true, 1, "/r".to_string());
    m.on_event(Event::NativeExists(false));
    assert_eq!(m.next_action(), Some(Action::SearchCommunity));
    m.on_event(Event::ExactMatch(false));
    assert_eq!(m.phase, Phase::Fallback);

    // fallback off: not found
    let mut m = InstallMachine::new_install("nope".to_string(), true, false, 1, "/r".to_string());
    m.on_event(Event::NativeExists(false));
    m.on_event(Event::ExactMatch(false));
    assert_eq!(m.phase, Phase::Done(Outcome::Failure(PackageError::NotFound)));

    // fallback on but a batch of two: not found as well
    let mut m = InstallMachine::new_install("nope".to_string(), true, true, 2, "/r".to_string());
    m.on_event(Event::NativeExists(false));
    m.on_event(Event::ExactMatch(false));
    assert_eq!(m.phase, Phase::Done(Outcome::Failure(PackageError::NotFound)));
}

#[test]
fn one_missing_dependency_installs_once_before_build() {
    let native = vec![installed("dep-a", "1.0")];
    let foreign = Vec::new();
    let mut m = InstallMachine::new_foreign("pkg".to_string(), false, "/r".to_string());
    m.on_info(Some(info("pkg", "2.0", 42, &["dep-a", "dep-b"], &[], &[])), &native, &foreign);
    assert_eq!(m.missing_deps, vec!["dep-b".to_string()]);

    let mut actions = Vec::new();
    while let Some(a) = m.next_action() {
        actions.push(a);
        let e = match a {
            Action::RunDepInstall(_) | Action::RunBuild => Event::CommandDone(true),
            Action::CheckCacheDir => Event::CacheDirExists(false),
            Action::DownloadExtract => Event::DownloadDone(true),
            other => panic!("unexpected action {other:?}"),
        };
        m.on_event(e);
    }
    let dep_installs: Vec<&Action> =
        actions.iter().filter(|a| matches!(a, Action::RunDepInstall(_))).collect();
    assert_eq!(dep_installs.len(), 1);
    let build_pos = actions.iter().position(|a| *a == Action::RunBuild).unwrap();
    let dep_pos = actions.iter().position(|a| matches!(a, Action::RunDepInstall(_))).unwrap();
    assert!(dep_pos < build_pos);
    assert_eq!(m.phase, Phase::Done(Outcome::Success));
}

#[test]
fn dep_install_command_names_the_missing_dependency() {
    let native = Vec::new();
    let foreign = Vec::new();
    let mut m = InstallMachine::new_foreign("pkg".to_string(), false, "/r".to_string());
    m.on_info(Some(info("pkg", "2.0", 42, &["dep-b"], &[], &[])), &native, &foreign);
    assert_eq!(m.next_action(), Some(Action::RunDepInstall(0)));
    assert_eq!(m.dep_install_command(0), strings(&["pacman", "-S", "dep-b", "--noconfirm"]));
}

#[test]
fn declined_conflict_aborts_before_any_build() {
    let native = Vec::new();
    let foreign = vec![installed("oldpkg", "1.0")];
    let mut m = InstallMachine::new_foreign("pkg".to_string(), true, "/r".to_string());
    m.on_info(Some(info("pkg", "2.0", 42, &[], &[], &["oldpkg"])), &native, &foreign);
    assert_eq!(m.next_action(), Some(Action::AskConflict(0)));
    m.on_event(Event::ConflictAnswer(false));
    assert_eq!(m.phase, Phase::Done(Outcome::Failure(PackageError::Conflict)));
    // terminal: nothing further is asked for, in particular no build
    assert_eq!(m.next_action(), None);
}

#[test]
fn confirmed_conflict_is_uninstalled_then_install_goes_on() {
    let native = vec![installed("oldnative", "1.0")];
    let foreign = vec![installed("oldforeign", "1.0"), installed("oldforeign-debug", "1.0")];
    let mut m = InstallMachine::new_foreign("pkg".to_string(), true, "/r".to_string());
    m.on_info(
        Some(info("pkg", "2.0", 42, &[], &[], &["oldnative", "oldforeign"])),
        &native,
        &foreign,
    );
    assert_eq!(m.conflicts.len(), 2);
    assert_eq!(m.next_action(), Some(Action::AskConflict(0)));
    assert_eq!(m.conflict_uninstall_command(0), strings(&["pacman", "-R", "oldnative"]));
    m.on_event(Event::ConflictAnswer(true));
    assert_eq!(m.next_action(), Some(Action::RunConflictUninstall(0)));
    m.on_event(Event::CommandDone(true));
    assert_eq!(m.next_action(), Some(Action::AskConflict(1)));
    assert_eq!(
        m.conflict_uninstall_command(1),
        strings(&["pacman", "-Rns", "oldforeign", "oldforeign-debug"])
    );
    m.on_event(Event::ConflictAnswer(true));
    m.on_event(Event::CommandDone(true));
    assert_eq!(m.next_action(), Some(Action::CheckCacheDir));
}

#[test]
fn failed_conflict_uninstall_is_a_conflict_failure() {
    let native = vec![installed("oldnative", "1.0")];
    let mut m = InstallMachine::new_foreign("pkg".to_string(), true, "/r".to_string());
    m.on_info(Some(info("pkg", "2.0", 42, &[], &[], &["oldnative"])), &native, &Vec::new());
    m.on_event(Event::ConflictAnswer(true));
    m.on_event(Event::CommandDone(false));
    assert_eq!(m.phase, Phase::Done(Outcome::Failure(PackageError::Conflict)));
}

#[test]
fn cache_hit_skips_straight_to_build() {
    let mut m = InstallMachine::new_foreign("pkg".to_string(), true, "/r".to_string());
    m.on_info(Some(info("pkg", "2.0", 42, &[], &[], &[])), &Vec::new(), &Vec::new());
    assert_eq!(m.next_action(), Some(Action::CheckCacheDir));
    assert_eq!(m.entry_dir(), "/r/aurcat/pkg/42-2.0".to_string());
    m.on_event(Event::CacheDirExists(true));
    let mut actions = Vec::new();
    while let Some(a) = m.next_action() {
        actions.push(a);
        m.on_event(Event::CommandDone(true));
    }
    assert!(!actions.contains(&Action::DownloadExtract));
    assert_eq!(actions, vec![Action::RunBuild]);
}

#[test]
fn cache_miss_downloads_then_builds() {
    let mut m = InstallMachine::new_foreign("pkg".to_string(), true, "/r".to_string());
    m.on_info(Some(info("pkg", "2.0", 42, &[], &[], &[])), &Vec::new(), &Vec::new());
    m.on_event(Event::CacheDirExists(false));
    assert_eq!(m.next_action(), Some(Action::DownloadExtract));
    m.on_event(Event::DownloadDone(true));
    assert_eq!(m.next_action(), Some(Action::RunBuild));

    // a failed download is a network failure
    let mut m = InstallMachine::new_foreign("pkg".to_string(), true, "/r".to_string());
    m.on_info(Some(info("pkg", "2.0", 42, &[], &[], &[])), &Vec::new(), &Vec::new());
    m.on_event(Event::CacheDirExists(false));
    m.on_event(Event::DownloadDone(false));
    assert_eq!(m.phase, Phase::Done(Outcome::Failure(PackageError::NetworkFailure)));
}

#[test]
fn missing_info_record_is_not_found() {
    let mut m = InstallMachine::new_foreign("pkg".to_string(), true, "/r".to_string());
    m.on_info(None, &Vec::new(), &Vec::new());
    assert_eq!(m.phase, Phase::Done(Outcome::Failure(PackageError::NotFound)));
}

#[test]
fn build_command_follows_the_confirm_policy() {
    let m = InstallMachine::new_foreign("pkg".to_string(), true, "/r".to_string());
    assert_eq!(m.build_command(), strings(&["makepkg", "-si", "--needed", "--syncdeps"]));
    let m = InstallMachine::new_foreign("pkg".to_string(), false, "/r".to_string());
    assert_eq!(
        m.build_command(),
        strings(&["makepkg", "-si", "--noconfirm", "--needed", "--syncdeps"])
    );
}

#[test]
fn failed_build_is_a_subprocess_failure() {
    let mut m = InstallMachine::new_foreign("pkg".to_string(), true, "/r".to_string());
    m.on_info(Some(info("pkg", "2.0", 42, &[], &[], &[])), &Vec::new(), &Vec::new());
    m.on_event(Event::CacheDirExists(true));
    m.on_event(Event::CommandDone(false));
    assert_eq!(m.phase, Phase::Done(Outcome::Failure(PackageError::SubprocessFailure)));
}
