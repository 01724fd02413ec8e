//! The package cache: a directory tree addressed by package name and
//! version, so a repeat install of the same version skips the download.
//!
//! The paths are pure functions of their inputs; whether a directory exists
//! — the cache's only validity signal — is observed outside this crate and
//! handed back as a plain answer.

use vstd::prelude::*;
use crate::text::{dec_str, u64_to_string, lemma_dec_str_no_dash, lemma_dec_str_injective};

verus! {

/// The directory that holds every cached version of one package.
pub open spec fn package_cache_dir_spec(root: Seq<char>, package: Seq<char>) -> Seq<char> {
    root + "/aurcat/"@ + package
}

/// The directory of one cache entry, addressed by the package's name, its
/// upstream modification time and its version.
pub open spec fn cache_entry_dir_spec(
    root: Seq<char>,
    package: Seq<char>,
    version: Seq<char>,
    last_modified: int,
) -> Seq<char> {
    package_cache_dir_spec(root, package) + "/"@ + dec_str(last_modified) + "-"@ + version
}

/// The user's cache root, under which every cache path of this tool is
/// addressed, if the environment names one.
///
/// Relies on `dirs::cache_dir` for the root; the value depends on the
/// environment, so nothing is stated of it.
#[verifier::external_body]
pub fn get_cache_dir() -> (r: Option<String>) {
    match dirs::cache_dir() {
        Some(p) => match p.into_os_string().into_string() {
            Ok(s) => Some(s),
            Err(_) => None,
        },
        None => None,
    }
}

/// The directory that holds every cached version of `package`.
pub fn get_package_cache_dir(root: &str, package: &str) -> (r: String)
    ensures
        r@ == package_cache_dir_spec(root@, package@),
{
    root.to_owned().concat("/aurcat/").concat(package)
}

/// The directory of the cache entry for one version of `package`.
pub fn cache_entry_dir(root: &str, package: &str, version: &str, last_modified: u64) -> (r: String)
    ensures
        r@ == cache_entry_dir_spec(root@, package@, version@, last_modified as int),
{
    let rendered = u64_to_string(last_modified);
    get_package_cache_dir(root, package).concat("/").concat(rendered.as_str()).concat("-").concat(
        version,
    )
}

/// The archive file inside a cache entry, where the downloaded build
/// source is written before extraction.
pub fn archive_path(entry_dir: &str) -> (r: String)
    ensures
        r@ == entry_dir@ + "/content.tar.gz"@,
{
    entry_dir.to_owned().concat("/content.tar.gz")
}

proof fn lemma_prefix_cancel(p: Seq<char>, x: Seq<char>, y: Seq<char>)
    requires
        p + x == p + y,
    ensures
        x == y,
{
    assert((p + x).len() == p.len() + x.len());
    assert((p + y).len() == p.len() + y.len());
    assert(x.len() == y.len());
    assert forall|i: int| 0 <= i < x.len() implies x[i] == y[i] by {
        assert((p + x)[p.len() + i] == x[i]);
        assert((p + y)[p.len() + i] == y[i]);
    }
    assert(x =~= y);
}

/// Distinct versions or distinct modification times of the same package
/// always land in distinct cache-entry directories: the decimal rendering of
/// the modification time holds no `'-'`, so the first `'-'` of the entry's
/// last component delimits it unambiguously.
pub proof fn lemma_cache_entry_dir_injective(
    root: Seq<char>,
    package: Seq<char>,
    v1: Seq<char>,
    t1: int,
    v2: Seq<char>,
    t2: int,
)
    requires
        t1 >= 0,
        t2 >= 0,
        v1 != v2 || t1 != t2,
    ensures
        cache_entry_dir_spec(root, package, v1, t1) != cache_entry_dir_spec(root, package, v2, t2),
{
    if cache_entry_dir_spec(root, package, v1, t1) == cache_entry_dir_spec(root, package, v2, t2) {
        let p = package_cache_dir_spec(root, package) + "/"@;
        let x = dec_str(t1) + "-"@ + v1;
        let y = dec_str(t2) + "-"@ + v2;
        assert(p + x =~= cache_entry_dir_spec(root, package, v1, t1));
        assert(p + y =~= cache_entry_dir_spec(root, package, v2, t2));
        lemma_prefix_cancel(p, x, y);
        lemma_dec_str_no_dash(t1);
        lemma_dec_str_no_dash(t2);
        reveal_strlit("-");
        let n1 = dec_str(t1).len() as int;
        let n2 = dec_str(t2).len() as int;
        assert(x[n1] == '-');
        assert(y[n2] == '-');
        if n1 < n2 {
            assert(y[n1] == dec_str(t2)[n1]);
            assert(x[n1] == y[n1]);
            assert(false);
        } else if n2 < n1 {
            assert(x[n2] == dec_str(t1)[n2]);
            assert(x[n2] == y[n2]);
            assert(false);
        } else {
            assert forall|i: int| 0 <= i < n1 implies dec_str(t1)[i] == dec_str(t2)[i] by {
                assert(x[i] == dec_str(t1)[i]);
                assert(y[i] == dec_str(t2)[i]);
            }
            assert(dec_str(t1) =~= dec_str(t2));
            lemma_dec_str_injective(t1, t2);
            assert forall|i: int| 0 <= i < v1.len() implies v1[i] == v2[i] by {
                assert(x[n1 + 1 + i] == v1[i]);
                assert(y[n1 + 1 + i] == v2[i]);
            }
            assert(v1.len() == v2.len());
            assert(v1 =~= v2);
            assert(false);
        }
    }
}

} // verus!
