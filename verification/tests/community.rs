use aurcat::aur::{aur_batch_info_url, aur_info_url, aur_search_url, download_url, find_exact, get_aur_package_search, get_empty_vec, search_aur_packages, AurPackageInfoResponse, AurPackageInfoResult, AurResult, AurSearchReponse, AurSearchResponse, AurSearchResult};
use aurcat::inventory::{filter_packages, InstalledPackage, PackageQuery};
use aurcat::update::compute_aur_updates;

fn installed(package: &str, version: &str) -> InstalledPackage {
    InstalledPackage { package: package.to_string(), version: version.to_string() }
}

fn result(name: &str, version: &str, description: Option<&str>, out_of_date: Option<u64>) -> AurResult {
    AurResult {
        description: description.map(|s| s.to_string()),
        name: name.to_string(),
        out_of_date,
        url_path: format!("/cgit/aur.git/snapshot/{name}.tar.gz"),
        version: version.to_string(),
    }
}

fn search_result(name: &str, version: &str, last_modified: u64) -> AurSearchResult {
    AurSearchResult {
        description: None,
        last_modified,
        name: name.to_string(),
        out_of_date: None,
        url_path: format!("/cgit/aur.git/snapshot/{name}.tar.gz"),
        version: version.to_string(),
    }
}

fn info(name: &str, version: &str) -> AurPackageInfoResult {
    AurPackageInfoResult {
        name: name.to_string(),
        version: version.to_string(),
        last_modified: 42,
        url_path: format!("/cgit/aur.git/snapshot/{name}.tar.gz"),
        depends: get_empty_vec(),
        make_depends: get_empty_vec(),
        conflicts: get_empty_vec(),
    }
}

#[test]
fn community_results_are_normalized_and_reversed() {
    let results = vec![
        result("paru", "2.0.0-1", Some("helper"), None),
        result("yay", "12.0-1", None, Some(1700000000)),
    ];
    let foreign = vec![installed("yay", "11.0-1"), installed("paru-debug", "2.0.0-1")];
    let packages = get_aur_package_search(&results, &foreign);
    // reversed: yay first
    assert_eq!(packages[0].package, "yay");
    assert_eq!(packages[0].description, "");
    assert!(packages[0].outdated);
    assert!(packages[0].installed);
    assert_eq!(packages[1].package, "paru");
    assert_eq!(packages[1].description, "helper");
    assert!(!packages[1].outdated);
    // paru-debug is filtered from the inventory before the join
    assert!(!packages[1].installed);
}

#[test]
fn install_results_are_normalized_and_reversed() {
    let results = vec![search_result("a", "1", 10), search_result("b", "2", 20)];
    let queries = search_aur_packages(&results);
    assert_eq!(queries[0].package, "b");
    assert_eq!(queries[0].last_modified, 20);
    assert_eq!(queries[1].package, "a");
    assert_eq!(queries[1].description, "");
    assert!(!queries[1].out_of_date);
}

#[test]
fn exact_match_finds_the_first_hit_only() {
    let results = vec![search_result("paru-bin", "2.0", 1), search_result("paru", "2.0", 2)];
    let queries = search_aur_packages(&results);
    let idx = find_exact(&queries, "paru").unwrap();
    assert_eq!(queries[idx].package, "paru");
    assert!(find_exact(&queries, "ghost").is_none());
}

#[test]
fn endpoint_urls_are_exact_and_encoded() {
    assert_eq!(
        aur_search_url("paru"),
        "https://aur.archlinux.org/rpc/?v=5&type=search&arg=paru".to_string()
    );
    assert_eq!(
        aur_search_url("hello world"),
        "https://aur.archlinux.org/rpc/?v=5&type=search&arg=hello%20world".to_string()
    );
    assert_eq!(
        aur_info_url("libc++"),
        "https://aur.archlinux.org/rpc/?v=5&type=info&arg=libc%2B%2B".to_string()
    );
    assert_eq!(
        download_url("/cgit/aur.git/snapshot/paru.tar.gz"),
        "https://aur.archlinux.org/cgit/aur.git/snapshot/paru.tar.gz".to_string()
    );
}

#[test]
fn batched_info_url_repeats_the_argument() {
    let names = vec!["paru".to_string(), "yay".to_string()];
    assert_eq!(
        aur_batch_info_url(&names),
        "https://aur.archlinux.org/rpc/?v=5&type=info&arg[]=paru&arg[]=yay".to_string()
    );
    assert_eq!(
        aur_batch_info_url(&Vec::new()),
        "https://aur.archlinux.org/rpc/?v=5&type=info".to_string()
    );
}

#[test]
fn update_diff_rebuilds_exactly_the_differing_versions() {
    let installed_foreign = vec![installed("foo-git", "1.0"), installed("bar", "3.0")];
    let remote = vec![info("foo-git", "1.1"), info("bar", "3.0")];
    let updates = compute_aur_updates(&installed_foreign, &remote);
    assert_eq!(updates, vec!["foo-git".to_string()]);

    let remote = vec![info("foo-git", "1.0"), info("bar", "3.0")];
    assert_eq!(compute_aur_updates(&installed_foreign, &remote), Vec::<String>::new());
}

#[test]
fn envelopes_carry_their_records() {
    let search = AurSearchResponse { results: vec![result("paru", "2.0.0-1", None, None)] };
    assert_eq!(search.results.len(), 1);
    let install = AurSearchReponse { results: vec![search_result("paru", "2.0.0-1", 7)] };
    assert_eq!(install.results[0].last_modified, 7);
    let infos = AurPackageInfoResponse { results: vec![info("paru", "2.0.0-1")] };
    assert_eq!(infos.results[0].name, "paru");
}

#[test]
fn fuzzy_filter_keeps_matching_names() {
    let rows = vec![
        PackageQuery { package: "firefox".to_string(), version: "120.0-1".to_string(), aur: false },
        PackageQuery { package: "vim".to_string(), version: "9.1.0-1".to_string(), aur: false },
        PackageQuery { package: "FireJail".to_string(), version: "0.9-1".to_string(), aur: true },
    ];
    let kept = filter_packages(&rows, "fire");
    let names: Vec<&str> = kept.iter().map(|q| q.package.as_str()).collect();
    assert_eq!(names, vec!["firefox", "FireJail"]);
}
