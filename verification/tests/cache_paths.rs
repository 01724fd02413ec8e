use aurcat::cache::{archive_path, cache_entry_dir, get_cache_dir, get_package_cache_dir};

#[test]
fn package_cache_dir_is_root_tool_name() {
    assert_eq!(
        get_package_cache_dir("/home/u/.cache", "paru"),
        "/home/u/.cache/aurcat/paru".to_string()
    );
}

#[test]
fn cache_entry_dir_is_addressed_by_time_and_version() {
    assert_eq!(
        cache_entry_dir("/home/u/.cache", "paru", "2.0.0-1", 1700000000),
        "/home/u/.cache/aurcat/paru/1700000000-2.0.0-1".to_string()
    );
}

#[test]
fn identical_inputs_give_identical_paths() {
    let a = cache_entry_dir("/r", "pkg", "1.0", 42);
    let b = cache_entry_dir("/r", "pkg", "1.0", 42);
    assert_eq!(a, b);
}

#[test]
fn distinct_version_or_time_gives_distinct_paths() {
    let base = cache_entry_dir("/r", "pkg", "1.0", 42);
    assert_ne!(base, cache_entry_dir("/r", "pkg", "1.1", 42));
    assert_ne!(base, cache_entry_dir("/r", "pkg", "1.0", 43));
    // the rendered components collide textually only if the split at the
    // first '-' were ambiguous; it never is
    assert_ne!(cache_entry_dir("/r", "pkg", "1-2", 4), cache_entry_dir("/r", "pkg", "2", 41));
}

#[test]
fn archive_sits_inside_the_entry() {
    assert_eq!(
        archive_path("/r/aurcat/pkg/42-1.0"),
        "/r/aurcat/pkg/42-1.0/content.tar.gz".to_string()
    );
}

#[test]
fn cache_root_lookup_reports_an_option() {
    // environment-dependent: only the shape can be checked
    if let Some(dir) = get_cache_dir() {
        assert!(!dir.is_empty());
    }
}
