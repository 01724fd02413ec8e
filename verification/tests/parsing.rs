use aurcat::inventory::{filter_debug, get_all_packages, get_aur_packages, get_repo_packages, has_package, parse_installed, InstalledPackage, PackageQuery};
use aurcat::repo::{get_package_search, search_repo_packages};
use aurcat::text::{clean_capture, split_on, trim_start_str, u64_to_string, whitespace_tokens};

fn installed(package: &str, version: &str) -> InstalledPackage {
    InstalledPackage { package: package.to_string(), version: version.to_string() }
}

#[test]
fn split_on_separates_lines() {
    let parts = split_on("a\nb\nc", '\n');
    assert_eq!(parts, vec!["a".to_string(), "b".to_string(), "c".to_string()]);
    assert_eq!(split_on("", '\n'), vec!["".to_string()]);
    assert_eq!(split_on("a\n", '\n'), vec!["a".to_string(), "".to_string()]);
}

#[test]
fn whitespace_tokens_drop_empty_runs() {
    let tokens = whitespace_tokens("  core/vim  9.1.0 \t [installed]");
    assert_eq!(
        tokens,
        vec!["core/vim".to_string(), "9.1.0".to_string(), "[installed]".to_string()]
    );
    assert_eq!(whitespace_tokens("   "), Vec::<String>::new());
}

#[test]
fn trim_start_removes_leading_whitespace() {
    assert_eq!(trim_start_str("    Vi Improved"), "Vi Improved".to_string());
    assert_eq!(trim_start_str("plain"), "plain".to_string());
    assert_eq!(trim_start_str(""), "".to_string());
}

#[test]
fn u64_renders_in_decimal() {
    assert_eq!(u64_to_string(0), "0".to_string());
    assert_eq!(u64_to_string(10), "10".to_string());
    assert_eq!(u64_to_string(1700000000), "1700000000".to_string());
}

#[test]
fn two_line_pair_parses_to_one_result() {
    let output = "extra/vim 9.1.0-1\n    Vi Improved, a highly configurable text editor\n";
    let results = search_repo_packages(output);
    assert_eq!(results.len(), 1);
    assert_eq!(results[0].repo, "extra");
    assert_eq!(results[0].package, "vim");
    assert_eq!(results[0].version, "9.1.0-1");
    assert_eq!(results[0].description, "Vi Improved, a highly configurable text editor");
}

#[test]
fn search_results_come_back_reversed() {
    let output = "core/a 1\n da\ncore/b 2\n db\ncore/c 3\n dc\n";
    let results = search_repo_packages(output);
    let names: Vec<&str> = results.iter().map(|q| q.package.as_str()).collect();
    assert_eq!(names, vec!["c", "b", "a"]);
}

#[test]
fn malformed_info_lines_are_skipped() {
    // no '/' in the first token, then a token-starved line, then a good pair
    let output = "justoneword 1.0\n d1\nshort\n d2\ncore/ok 2.0\n fine\n";
    let results = search_repo_packages(output);
    assert_eq!(results.len(), 1);
    assert_eq!(results[0].package, "ok");
}

#[test]
fn empty_search_output_yields_no_results() {
    assert_eq!(search_repo_packages("").len(), 0);
    assert_eq!(search_repo_packages("\n").len(), 0);
}

#[test]
fn installed_marker_and_inventory_both_set_installed() {
    let output = "extra/vim 9.1.0-1 [installed]\n desc\nextra/emacs 29.1-1\n desc\n";
    let native = vec![installed("nano", "8.0-1")];
    let marked = get_package_search(output, &native);
    // reversed: emacs first
    assert_eq!(marked[0].package, "emacs");
    assert!(!marked[0].installed);
    assert_eq!(marked[1].package, "vim");
    assert!(marked[1].installed);

    let native = vec![installed("emacs", "29.1-1")];
    let marked = get_package_search(output, &native);
    assert!(marked[0].installed);
}

#[test]
fn installed_listing_keeps_two_token_lines() {
    let output = "vim 9.1.0-1\nbroken line with extras\nnano 8.0-1\n\n";
    let packages = parse_installed(output);
    assert_eq!(packages.len(), 2);
    assert_eq!(packages[0].package, "vim");
    assert_eq!(packages[0].version, "9.1.0-1");
    assert_eq!(packages[1].package, "nano");
}

#[test]
fn listings_carry_their_source_flag() {
    let repo = get_repo_packages("vim 9.1.0-1\n");
    let aur = get_aur_packages("paru 2.0.0-1\n");
    assert!(!repo[0].aur);
    assert!(aur[0].aur);
    let all = get_all_packages(repo, aur);
    assert_eq!(all.len(), 2);
    assert_eq!(all[0].package, "vim");
    assert_eq!(all[1].package, "paru");
}

#[test]
fn debug_companions_are_filtered() {
    let foreign = vec![installed("paru", "2.0.0-1"), installed("paru-debug", "2.0.0-1")];
    let filtered = filter_debug(&foreign);
    assert_eq!(filtered.len(), 1);
    assert_eq!(filtered[0].package, "paru");
    assert!(has_package(&foreign, &"paru-debug".to_string()));
    assert!(!has_package(&filtered, &"paru-debug".to_string()));
}

#[test]
fn captured_output_loses_ansi_escapes() {
    let bytes = b"\x1b[32mfoo\x1b[m bar".to_vec();
    assert_eq!(clean_capture(&bytes), "foo bar".to_string());
    let plain = b"plain text".to_vec();
    assert_eq!(clean_capture(&plain), "plain text".to_string());
}

#[test]
fn package_query_rows_keep_fields() {
    let q = PackageQuery { package: "vim".to_string(), version: "9.1".to_string(), aur: false };
    assert_eq!(q.package, "vim");
    assert_eq!(q.version, "9.1");
}
