use aurcat::error::PackageError;
use aurcat::install::{extract_command, limit_results, select_index, Selection};
use aurcat::inventory::InstalledPackage;
use aurcat::maintenance::{on_clean, on_clear_cache_command, on_remove_lock_command, on_update_keys_command};
use aurcat::repo::{install_from_query, install_packages, package_info_command, pacman_install, pacman_uninstall, pacman_update, SearchQuery};
use aurcat::settings::{default_max_search_results, get_default_settings, get_false, resolve_flag, Config};
use aurcat::uninstall::{on_uninstall_command, on_uninstall_package, uninstall_packages};
use aurcat::update::update_repo_packages;

fn installed(package: &str, version: &str) -> InstalledPackage {
    InstalledPackage { package: package.to_string(), version: version.to_string() }
}

fn strings(cmd: &[&str]) -> Vec<String> {
    cmd.iter().map(|s| s.to_string()).collect()
}

#[test]
fn pacman_commands_follow_the_confirm_policy() {
    assert_eq!(pacman_install("vim", true), strings(&["pacman", "-S", "vim"]));
    assert_eq!(pacman_install("vim", false), strings(&["pacman", "-S", "vim", "--noconfirm"]));
    assert_eq!(pacman_uninstall("vim", true), strings(&["pacman", "-R", "vim"]));
    assert_eq!(pacman_uninstall("vim", false), strings(&["pacman", "-R", "vim", "--noconfirm"]));
    assert_eq!(pacman_update(true), strings(&["pacman", "-Syyu"]));
    assert_eq!(pacman_update(false), strings(&["pacman", "-Syyu", "--noconfirm"]));
    assert_eq!(update_repo_packages(false), strings(&["pacman", "-Syyu", "--noconfirm"]));
    assert_eq!(package_info_command("vim"), strings(&["pacman", "-Si", "vim"]));
}

#[test]
fn batch_install_lists_every_package() {
    let cmd = install_packages(&strings(&["vim", "nano"]), false);
    assert_eq!(cmd, strings(&["pacman", "-S", "vim", "nano", "--noconfirm"]));
    let cmd = install_packages(&Vec::new(), true);
    assert_eq!(cmd, strings(&["pacman", "-S"]));
}

#[test]
fn query_selection_installs_its_package() {
    let query = SearchQuery {
        repo: "extra".to_string(),
        package: "vim".to_string(),
        version: "9.1.0-1".to_string(),
        description: "editor".to_string(),
    };
    assert_eq!(install_from_query(&query, true), strings(&["pacman", "-S", "vim"]));
}

#[test]
fn foreign_uninstall_takes_the_debug_companion_along() {
    let foreign = vec![installed("paru", "2.0.0-1"), installed("paru-debug", "2.0.0-1")];
    let cmd = on_uninstall_package("paru", &Vec::new(), &foreign, true).unwrap();
    assert_eq!(cmd, strings(&["pacman", "-Rns", "paru", "paru-debug"]));

    let foreign = vec![installed("paru", "2.0.0-1")];
    let cmd = on_uninstall_package("paru", &Vec::new(), &foreign, true).unwrap();
    assert_eq!(cmd, strings(&["pacman", "-Rns", "paru"]));
}

#[test]
fn native_uninstall_uses_the_plain_removal() {
    let native = vec![installed("vim", "9.1.0-1")];
    let cmd = on_uninstall_package("vim", &native, &Vec::new(), false).unwrap();
    assert_eq!(cmd, strings(&["pacman", "-R", "vim", "--noconfirm"]));
}

#[test]
fn unknown_uninstall_target_is_not_found() {
    let r = on_uninstall_package("ghost", &Vec::new(), &Vec::new(), true);
    assert_eq!(r.unwrap_err(), PackageError::NotFound);
    assert_eq!(PackageError::NotFound.describe(), "Package not found");
}

#[test]
fn batch_uninstall_interleaves_debug_companions() {
    let foreign = vec![installed("paru-debug", "2.0.0-1")];
    let cmd = uninstall_packages(&strings(&["paru", "vim"]), &foreign, false);
    assert_eq!(cmd, strings(&["pacman", "-R", "paru-debug", "paru", "vim", "--noconfirm"]));
    let cmd = on_uninstall_command(&strings(&["vim"]), &Vec::new(), true);
    assert_eq!(cmd, strings(&["pacman", "-R", "vim"]));
}

#[test]
fn maintenance_commands_are_exact() {
    assert_eq!(on_clear_cache_command(5), strings(&["paccache", "-rk5"]));
    assert_eq!(on_remove_lock_command(), strings(&["rm", "-f", "/var/lib/pacman/db.lck"]));
    assert_eq!(on_update_keys_command(), strings(&["pacman-key", "--refresh-keys"]));
}

#[test]
fn clean_runs_what_was_asked_for() {
    assert_eq!(
        on_clean(Some(3), true),
        vec![
            strings(&["paccache", "-rk3"]),
            strings(&["rm", "-f", "/var/lib/pacman/db.lck"]),
        ]
    );
    assert_eq!(on_clean(None, true), vec![strings(&["rm", "-f", "/var/lib/pacman/db.lck"])]);
    assert_eq!(on_clean(Some(2), false), vec![strings(&["paccache", "-rk2"])]);
    assert_eq!(on_clean(None, false), Vec::<Vec<String>>::new());
}

#[test]
fn extraction_strips_the_archive_top_level() {
    assert_eq!(
        extract_command("/r/aurcat/pkg/42-1.0/content.tar.gz"),
        strings(&["tar", "-xzf", "/r/aurcat/pkg/42-1.0/content.tar.gz", "--strip-components=1"])
    );
}

#[test]
fn prompt_index_selects_across_both_listings() {
    assert_eq!(select_index(2, 3, 0), Selection::Cancel);
    assert_eq!(select_index(2, 3, 1), Selection::Repo(0));
    assert_eq!(select_index(2, 3, 2), Selection::Repo(1));
    assert_eq!(select_index(2, 3, 3), Selection::Aur(0));
    assert_eq!(select_index(2, 3, 5), Selection::Aur(2));
    assert_eq!(select_index(2, 3, 6), Selection::OutOfRange);
    assert_eq!(select_index(0, 1, 1), Selection::Aur(0));
}

#[test]
fn result_listings_are_limited() {
    let v = vec![1, 2, 3, 4];
    assert_eq!(limit_results(v.clone(), 2), vec![1, 2]);
    assert_eq!(limit_results(v.clone(), 4), v);
    assert_eq!(limit_results(v, 9), vec![1, 2, 3, 4]);
}

#[test]
fn explicit_overrides_beat_configured_defaults() {
    assert!(resolve_flag(Some(true), false));
    assert!(!resolve_flag(Some(false), true));
    assert!(resolve_flag(None, true));
    assert!(!resolve_flag(None, false));
}

#[test]
fn defaults_match_the_documented_values() {
    let s = get_default_settings();
    assert!(!s.skip_install_confirm);
    assert!(!s.skip_uninstall_confirm);
    assert!(!s.skip_search_prompt);
    assert_eq!(s.max_search_results, 30);
    assert!(!s.skip_aur_update);
    assert_eq!(default_max_search_results(), 30);
    assert!(!get_false());

    let c = Config::default();
    assert!(c.search_fallback);
    assert!(c.confirm_installation);
    assert!(c.confirm_update);
    assert!(c.uninstall_confirm);
    assert!(!c.aur_review);
    assert_eq!(c.cache_version_count, 5);
    assert!(c.update_aur);
    assert_eq!(c.max_results, 30);
    assert!(!c.pacman_fallback);
}
