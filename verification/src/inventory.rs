//! The installed-package inventory: what is currently on the system, split
//! into native packages and foreign (community-built) packages.
//!
//! The repository manager reports installed packages as lines of
//! `name version`; the parsers here keep exactly the lines that split into
//! two whitespace tokens and drop the rest.

use vstd::prelude::*;
use crate::text::{split_char, split_on, ws_tokens, whitespace_tokens};

verus! {

/// One installed package, as the repository manager reports it.
#[derive(Debug, Clone)]
pub struct InstalledPackage {
    pub package: String,
    pub version: String,
}

/// The mathematical value of an [`InstalledPackage`].
pub struct InstalledPackageV {
    pub package: Seq<char>,
    pub version: Seq<char>,
}

impl View for InstalledPackage {
    type V = InstalledPackageV;

    open spec fn view(&self) -> InstalledPackageV {
        InstalledPackageV { package: self.package@, version: self.version@ }
    }
}

impl DeepView for InstalledPackage {
    type V = InstalledPackageV;

    open spec fn deep_view(&self) -> InstalledPackageV {
        self.view()
    }
}

/// One row of a package listing: an installed package and which source it
/// came from.
#[derive(Debug, Clone)]
pub struct PackageQuery {
    pub package: String,
    pub version: String,
    pub aur: bool,
}

/// The mathematical value of a [`PackageQuery`].
pub struct PackageQueryV {
    pub package: Seq<char>,
    pub version: Seq<char>,
    pub aur: bool,
}

impl View for PackageQuery {
    type V = PackageQueryV;

    open spec fn view(&self) -> PackageQueryV {
        PackageQueryV { package: self.package@, version: self.version@, aur: self.aur }
    }
}

impl DeepView for PackageQuery {
    type V = PackageQueryV;

    open spec fn deep_view(&self) -> PackageQueryV {
        self.view()
    }
}

/// The records of every line that splits into exactly two whitespace tokens;
/// other lines are dropped.
pub open spec fn parse_installed_lines(lines: Seq<Seq<char>>) -> Seq<InstalledPackageV>
    decreases lines.len(),
{
    if lines.len() == 0 {
        Seq::<InstalledPackageV>::empty()
    } else {
        let t = ws_tokens(lines[0]);
        let rest = parse_installed_lines(lines.drop_first());
        if t.len() == 2 {
            seq![InstalledPackageV { package: t[0], version: t[1] }] + rest
        } else {
            rest
        }
    }
}

/// Parses a captured installed-package listing, one `name version` line per
/// package.
pub fn parse_installed(output: &str) -> (r: Vec<InstalledPackage>)
    ensures
        r.deep_view() == parse_installed_lines(split_char(output@, '\n')),
{
    let lines = split_on(output, '\n');
    let ghost all = lines.deep_view();
    let mut r: Vec<InstalledPackage> = Vec::new();
    proof {
        assert(all.skip(0) =~= all);
        assert(r.deep_view() + parse_installed_lines(all) =~= parse_installed_lines(all));
    }
    let mut i: usize = 0;
    while i < lines.len()
        invariant
            i <= lines.len(),
            lines.deep_view() == all,
            parse_installed_lines(all) == r.deep_view() + parse_installed_lines(
                all.skip(i as int),
            ),
        decreases lines.len() - i,
    {
        let t = whitespace_tokens(lines[i].as_str());
        proof {
            assert(all.skip(i as int)[0] == all[i as int]);
            assert(all.skip(i as int).drop_first() =~= all.skip(i as int + 1));
        }
        if t.len() == 2 {
            let entry = InstalledPackage { package: t[0].clone(), version: t[1].clone() };
            r.push(entry);
            assert(parse_installed_lines(all) =~= r.deep_view() + parse_installed_lines(
                all.skip(i as int + 1),
            ));
        } else {
            assert(parse_installed_lines(all) =~= r.deep_view() + parse_installed_lines(
                all.skip(i as int + 1),
            ));
        }
        i = i + 1;
    }
    proof {
        assert(all.skip(all.len() as int) =~= Seq::<Seq<char>>::empty());
        assert(r.deep_view() =~= parse_installed_lines(all));
    }
    r
}

/// Whether a package name is a debug companion, `<name>-debug`.
pub open spec fn is_debug_name(s: Seq<char>) -> bool {
    s.len() >= 6 && s.skip(s.len() - 6) == "-debug"@
}

/// Exec mirror of [`is_debug_name`].
pub fn debug_name(s: &String) -> (r: bool)
    ensures
        r == is_debug_name(s@),
{
    let n = s.as_str().unicode_len();
    if n < 6 {
        false
    } else {
        let tail = s.as_str().substring_char(n - 6, n).to_owned();
        let suffix: String = String::from_str("-debug");
        let eq = tail == suffix;
        proof {
            assert(tail@ == s@.skip(s@.len() - 6));
        }
        eq
    }
}

/// The same listing without debug companions.
pub open spec fn filter_debug_spec(v: Seq<InstalledPackageV>) -> Seq<InstalledPackageV>
    decreases v.len(),
{
    if v.len() == 0 {
        Seq::<InstalledPackageV>::empty()
    } else {
        let rest = filter_debug_spec(v.drop_first());
        if is_debug_name(v[0].package) {
            rest
        } else {
            seq![v[0]] + rest
        }
    }
}

/// Drops every `<name>-debug` entry from a listing.
pub fn filter_debug(v: &Vec<InstalledPackage>) -> (r: Vec<InstalledPackage>)
    ensures
        r.deep_view() == filter_debug_spec(v.deep_view()),
{
    let ghost all = v.deep_view();
    let mut r: Vec<InstalledPackage> = Vec::new();
    proof {
        assert(all.skip(0) =~= all);
        assert(r.deep_view() + filter_debug_spec(all) =~= filter_debug_spec(all));
    }
    let mut i: usize = 0;
    while i < v.len()
        invariant
            i <= v.len(),
            v.deep_view() == all,
            filter_debug_spec(all) == r.deep_view() + filter_debug_spec(all.skip(i as int)),
        decreases v.len() - i,
    {
        proof {
            assert(all.skip(i as int)[0] == all[i as int]);
            assert(all.skip(i as int).drop_first() =~= all.skip(i as int + 1));
        }
        if !debug_name(&v[i].package) {
            let entry = InstalledPackage {
                package: v[i].package.clone(),
                version: v[i].version.clone(),
            };
            r.push(entry);
            assert(filter_debug_spec(all) =~= r.deep_view() + filter_debug_spec(
                all.skip(i as int + 1),
            ));
        } else {
            assert(filter_debug_spec(all) =~= r.deep_view() + filter_debug_spec(
                all.skip(i as int + 1),
            ));
        }
        i = i + 1;
    }
    proof {
        assert(all.skip(all.len() as int) =~= Seq::<InstalledPackageV>::empty());
        assert(r.deep_view() =~= filter_debug_spec(all));
    }
    r
}

/// Whether a listing holds a package of the given name.
pub open spec fn contains_name(v: Seq<InstalledPackageV>, name: Seq<char>) -> bool {
    exists|i: int| 0 <= i < v.len() && v[i].package == name
}

/// Whether `v` holds a package named `name`.
pub fn has_package(v: &Vec<InstalledPackage>, name: &String) -> (r: bool)
    ensures
        r == contains_name(v.deep_view(), name@),
{
    let mut i: usize = 0;
    while i < v.len()
        invariant
            i <= v.len(),
            forall|k: int| 0 <= k < i ==> v.deep_view()[k].package != name@,
        decreases v.len() - i,
    {
        if v[i].package == *name {
            proof {
                assert(v.deep_view()[i as int].package == name@);
            }
            return true;
        }
        i = i + 1;
    }
    false
}

/// What the fuzzy name matcher decides of a package name and a search
/// pattern; the result depends on the two strings alone.
pub uninterp spec fn name_matches(name: Seq<char>, pattern: Seq<char>) -> bool;

/// Relies on `sniffer_rs::sniffer::Sniffer::matches`, with the
/// edit-distance matchers switched off, so only the case-insensitive
/// containment match remains.
#[verifier::external_body]
fn sniffer_match(name: &String, pattern: &str) -> (r: bool)
    ensures
        r == name_matches(name@, pattern@),
{
    let sniffer = sniffer_rs::sniffer::Sniffer::new()
        .set_do_levenshtein_match(false)
        .set_do_hamming_match(false)
        .set_do_jaro_winkler_match(false);
    sniffer.matches(name.as_str(), pattern)
}

/// The rows whose package name the fuzzy matcher accepts for `pattern`.
pub open spec fn filter_matching_spec(v: Seq<PackageQueryV>, pattern: Seq<char>) -> Seq<
    PackageQueryV,
>
    decreases v.len(),
{
    if v.len() == 0 {
        Seq::<PackageQueryV>::empty()
    } else {
        let rest = filter_matching_spec(v.drop_first(), pattern);
        if name_matches(v[0].package, pattern) {
            seq![v[0]] + rest
        } else {
            rest
        }
    }
}

/// Keeps the rows whose package name matches `pattern` under the fuzzy name
/// matcher.
pub fn filter_packages(v: &Vec<PackageQuery>, pattern: &str) -> (r: Vec<PackageQuery>)
    ensures
        r.deep_view() == filter_matching_spec(v.deep_view(), pattern@),
{
    let ghost all = v.deep_view();
    let mut r: Vec<PackageQuery> = Vec::new();
    proof {
        assert(all.skip(0) =~= all);
        assert(r.deep_view() + filter_matching_spec(all, pattern@) =~= filter_matching_spec(
            all,
            pattern@,
        ));
    }
    let mut i: usize = 0;
    while i < v.len()
        invariant
            i <= v.len(),
            v.deep_view() == all,
            filter_matching_spec(all, pattern@) == r.deep_view() + filter_matching_spec(
                all.skip(i as int),
                pattern@,
            ),
        decreases v.len() - i,
    {
        proof {
            assert(all.skip(i as int)[0] == all[i as int]);
            assert(all.skip(i as int).drop_first() =~= all.skip(i as int + 1));
        }
        if sniffer_match(&v[i].package, pattern) {
            let entry = PackageQuery {
                package: v[i].package.clone(),
                version: v[i].version.clone(),
                aur: v[i].aur,
            };
            r.push(entry);
            assert(filter_matching_spec(all, pattern@) =~= r.deep_view() + filter_matching_spec(
                all.skip(i as int + 1),
                pattern@,
            ));
        } else {
            assert(filter_matching_spec(all, pattern@) =~= r.deep_view() + filter_matching_spec(
                all.skip(i as int + 1),
                pattern@,
            ));
        }
        i = i + 1;
    }
    proof {
        assert(all.skip(all.len() as int) =~= Seq::<PackageQueryV>::empty());
        assert(r.deep_view() =~= filter_matching_spec(all, pattern@));
    }
    r
}

/// The rows of an installed-package listing, marked with the source they
/// came from.
pub open spec fn queries_of(v: Seq<InstalledPackageV>, aur: bool) -> Seq<PackageQueryV>
    decreases v.len(),
{
    if v.len() == 0 {
        Seq::<PackageQueryV>::empty()
    } else {
        seq![PackageQueryV { package: v[0].package, version: v[0].version, aur: aur }]
            + queries_of(v.drop_first(), aur)
    }
}

fn listing_queries(output: &str, aur: bool) -> (r: Vec<PackageQuery>)
    ensures
        r.deep_view() == queries_of(parse_installed_lines(split_char(output@, '\n')), aur),
{
    let installed = parse_installed(output);
    let ghost all = installed.deep_view();
    let mut r: Vec<PackageQuery> = Vec::new();
    proof {
        assert(all.skip(0) =~= all);
        assert(r.deep_view() + queries_of(all, aur) =~= queries_of(all, aur));
    }
    let mut i: usize = 0;
    while i < installed.len()
        invariant
            i <= installed.len(),
            installed.deep_view() == all,
            all == parse_installed_lines(split_char(output@, '\n')),
            queries_of(all, aur) == r.deep_view() + queries_of(all.skip(i as int), aur),
        decreases installed.len() - i,
    {
        proof {
            assert(all.skip(i as int)[0] == all[i as int]);
            assert(all.skip(i as int).drop_first() =~= all.skip(i as int + 1));
        }
        let entry = PackageQuery {
            package: installed[i].package.clone(),
            version: installed[i].version.clone(),
            aur: aur,
        };
        r.push(entry);
        assert(queries_of(all, aur) =~= r.deep_view() + queries_of(all.skip(i as int + 1), aur));
        i = i + 1;
    }
    proof {
        assert(all.skip(all.len() as int) =~= Seq::<InstalledPackageV>::empty());
        assert(r.deep_view() =~= queries_of(all, aur));
    }
    r
}

/// The native rows of a package listing, parsed from the repository
/// manager's native-query output.
pub fn get_repo_packages(output: &str) -> (r: Vec<PackageQuery>)
    ensures
        r.deep_view() == queries_of(parse_installed_lines(split_char(output@, '\n')), false),
{
    listing_queries(output, false)
}

/// The foreign rows of a package listing, parsed from the repository
/// manager's foreign-query output.
pub fn get_aur_packages(output: &str) -> (r: Vec<PackageQuery>)
    ensures
        r.deep_view() == queries_of(parse_installed_lines(split_char(output@, '\n')), true),
{
    listing_queries(output, true)
}

/// Both listings in one, native rows first.
pub fn get_all_packages(repo: Vec<PackageQuery>, aur: Vec<PackageQuery>) -> (r: Vec<PackageQuery>)
    ensures
        r.deep_view() == repo.deep_view() + aur.deep_view(),
{
    let ghost rv = repo.deep_view();
    let mut r = repo;
    let mut rest = aur;
    r.append(&mut rest);
    proof {
        assert(r.deep_view() =~= rv + aur.deep_view());
    }
    r
}

} // verus!
