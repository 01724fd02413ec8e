//! The repository source adapter: parsing the repository manager's search
//! output and building the command lines that install, remove and upgrade
//! native packages.
//!
//! Search output is line-oriented: an info line `repository/name version`
//! (possibly followed by an installed marker) and a description line, in
//! alternation. A pair whose info line does not carry a `/`-separated
//! repository/name token and a version token is discarded. Results come back
//! in reverse output order, because the repository manager prints its best
//! matches last.

use vstd::prelude::*;
use crate::inventory::{InstalledPackage, InstalledPackageV, contains_name, has_package};
use crate::text::{reversed, split_char, split_on, trim_start_spec, trim_start_str, ws_tokens, whitespace_tokens};

verus! {

/// One parsed search entry, before the installed state is joined in.
#[derive(Debug, Clone)]
pub struct SearchQuery {
    pub repo: String,
    pub package: String,
    pub version: String,
    pub description: String,
}

/// The mathematical value of a [`SearchQuery`].
pub struct SearchQueryV {
    pub repo: Seq<char>,
    pub package: Seq<char>,
    pub version: Seq<char>,
    pub description: Seq<char>,
}

impl View for SearchQuery {
    type V = SearchQueryV;

    open spec fn view(&self) -> SearchQueryV {
        SearchQueryV {
            repo: self.repo@,
            package: self.package@,
            version: self.version@,
            description: self.description@,
        }
    }
}

impl DeepView for SearchQuery {
    type V = SearchQueryV;

    open spec fn deep_view(&self) -> SearchQueryV {
        self.view()
    }
}

/// One repository search result, with its point-in-time installed state.
#[derive(Debug, Clone)]
pub struct Package {
    pub repository: String,
    pub package: String,
    pub version: String,
    pub description: String,
    pub installed: bool,
}

/// The mathematical value of a [`Package`].
pub struct PackageV {
    pub repository: Seq<char>,
    pub package: Seq<char>,
    pub version: Seq<char>,
    pub description: Seq<char>,
    pub installed: bool,
}

impl View for Package {
    type V = PackageV;

    open spec fn view(&self) -> PackageV {
        PackageV {
            repository: self.repository@,
            package: self.package@,
            version: self.version@,
            description: self.description@,
            installed: self.installed,
        }
    }
}

impl DeepView for Package {
    type V = PackageV;

    open spec fn deep_view(&self) -> PackageV {
        self.view()
    }
}

/// Whether an info line is well formed: at least two whitespace tokens, the
/// first split by `/` into exactly a repository and a name.
pub open spec fn wf_info(info: Seq<char>) -> bool {
    let t = ws_tokens(info);
    t.len() >= 2 && split_char(t[0], '/').len() == 2
}

/// Whether an info line carries the literal installed marker after its name
/// and version tokens.
pub open spec fn has_marker(info: Seq<char>) -> bool {
    let t = ws_tokens(info);
    exists|i: int| 2 <= i < t.len() && t[i] == "[installed]"@
}

/// The entry a well-formed info/description pair parses to. The marker is
/// authoritative for the installed state when present.
pub open spec fn entry_of_pair(info: Seq<char>, desc: Seq<char>) -> PackageV {
    let t = ws_tokens(info);
    let parts = split_char(t[0], '/');
    PackageV {
        repository: parts[0],
        package: parts[1],
        version: t[1],
        description: trim_start_spec(desc),
        installed: has_marker(info),
    }
}

/// The entries of a search listing: one per complete, well-formed pair of
/// lines, in output order.
pub open spec fn parse_entries(lines: Seq<Seq<char>>) -> Seq<PackageV>
    decreases lines.len(),
{
    if lines.len() < 2 {
        Seq::<PackageV>::empty()
    } else {
        let rest = parse_entries(lines.skip(2));
        if wf_info(lines[0]) {
            seq![entry_of_pair(lines[0], lines[1])] + rest
        } else {
            rest
        }
    }
}

/// A well-formed two-line pair parses to exactly one entry, whose
/// repository, name and version are the info line's tokens and whose
/// description is the description line, trimmed.
pub proof fn lemma_well_formed_pair_parses(info: Seq<char>, desc: Seq<char>)
    requires
        ws_tokens(info).len() >= 2,
        split_char(ws_tokens(info)[0], '/').len() == 2,
    ensures
        parse_entries(seq![info, desc]).len() == 1,
        parse_entries(seq![info, desc])[0].repository == split_char(ws_tokens(info)[0], '/')[0],
        parse_entries(seq![info, desc])[0].package == split_char(ws_tokens(info)[0], '/')[1],
        parse_entries(seq![info, desc])[0].version == ws_tokens(info)[1],
        parse_entries(seq![info, desc])[0].description == trim_start_spec(desc),
{
    let lines = seq![info, desc];
    assert(lines.len() == 2);
    assert(lines[0] == info);
    assert(lines[1] == desc);
    assert(wf_info(info));
    assert(lines.skip(2) =~= Seq::<Seq<char>>::empty());
    assert(parse_entries(lines.skip(2)) == Seq::<PackageV>::empty());
    assert(parse_entries(lines) =~= seq![entry_of_pair(info, desc)]);
}

/// The entries without their installed state.
pub open spec fn drop_installed(v: Seq<PackageV>) -> Seq<SearchQueryV>
    decreases v.len(),
{
    if v.len() == 0 {
        Seq::<SearchQueryV>::empty()
    } else {
        seq![
            SearchQueryV {
                repo: v[0].repository,
                package: v[0].package,
                version: v[0].version,
                description: v[0].description,
            },
        ] + drop_installed(v.drop_first())
    }
}

/// The entries with the installed state joined against a native inventory:
/// installed if the marker was present or the inventory holds the name.
pub open spec fn mark_installed(v: Seq<PackageV>, native: Seq<InstalledPackageV>) -> Seq<PackageV>
    decreases v.len(),
{
    if v.len() == 0 {
        Seq::<PackageV>::empty()
    } else {
        seq![
            PackageV {
                installed: v[0].installed || contains_name(native, v[0].package),
                ..v[0]
            },
        ] + mark_installed(v.drop_first(), native)
    }
}

fn line_has_marker(tokens: &Vec<String>) -> (r: bool)
    ensures
        r == exists|i: int| 2 <= i < tokens.deep_view().len() && tokens.deep_view()[i]
            == "[installed]"@,
{
    let marker: String = String::from_str("[installed]");
    if tokens.len() < 2 {
        return false;
    }
    let mut i: usize = 2;
    while i < tokens.len()
        invariant
            2 <= i,
            marker@ == "[installed]"@,
            forall|k: int| 2 <= k < i ==> tokens.deep_view()[k] != "[installed]"@,
        decreases tokens.len() - i,
    {
        if tokens[i] == marker {
            proof {
                assert(tokens.deep_view()[i as int] == "[installed]"@);
            }
            return true;
        }
        i = i + 1;
    }
    false
}

fn parse_search_entries(output: &str) -> (r: Vec<Package>)
    ensures
        r.deep_view() == parse_entries(split_char(output@, '\n')),
{
    let lines = split_on(output, '\n');
    let ghost all = lines.deep_view();
    let mut r: Vec<Package> = Vec::new();
    proof {
        assert(all.skip(0) =~= all);
        assert(r.deep_view() + parse_entries(all) =~= parse_entries(all));
    }
    let mut i: usize = 0;
    while lines.len() - i >= 2
        invariant
            i <= lines.len(),
            lines.deep_view() == all,
            parse_entries(all) == r.deep_view() + parse_entries(all.skip(i as int)),
        decreases lines.len() - i,
    {
        proof {
            assert(all.skip(i as int)[0] == all[i as int]);
            assert(all.skip(i as int)[1] == all[i as int + 1]);
            assert(all.skip(i as int).skip(2) =~= all.skip(i as int + 2));
        }
        let tokens = whitespace_tokens(lines[i].as_str());
        if tokens.len() >= 2 {
            let parts = split_on(tokens[0].as_str(), '/');
            if parts.len() == 2 {
                let installed = line_has_marker(&tokens);
                let entry = Package {
                    repository: parts[0].clone(),
                    package: parts[1].clone(),
                    version: tokens[1].clone(),
                    description: trim_start_str(lines[i + 1].as_str()),
                    installed,
                };
                r.push(entry);
                assert(r.deep_view().last() == entry_of_pair(all[i as int], all[i as int + 1]));
                assert(parse_entries(all) =~= r.deep_view() + parse_entries(
                    all.skip(i as int + 2),
                ));
            } else {
                assert(!wf_info(all[i as int]));
                assert(parse_entries(all) =~= r.deep_view() + parse_entries(
                    all.skip(i as int + 2),
                ));
            }
        } else {
            assert(!wf_info(all[i as int]));
            assert(parse_entries(all) =~= r.deep_view() + parse_entries(all.skip(i as int + 2)));
        }
        i = i + 2;
    }
    proof {
        assert(all.skip(i as int).len() < 2);
        assert(parse_entries(all.skip(i as int)) =~= Seq::<PackageV>::empty());
        assert(r.deep_view() =~= parse_entries(all));
    }
    r
}

/// Parses captured repository search output into entries, most relevant
/// first: the result order is the reverse of the output order.
pub fn search_repo_packages(output: &str) -> (r: Vec<SearchQuery>)
    ensures
        r.deep_view() == drop_installed(parse_entries(split_char(output@, '\n'))).reverse(),
{
    let entries = parse_search_entries(output);
    let ghost all = entries.deep_view();
    let mut q: Vec<SearchQuery> = Vec::new();
    proof {
        assert(all.skip(0) =~= all);
        assert(q.deep_view() + drop_installed(all) =~= drop_installed(all));
    }
    let mut i: usize = 0;
    while i < entries.len()
        invariant
            i <= entries.len(),
            entries.deep_view() == all,
            drop_installed(all) == q.deep_view() + drop_installed(all.skip(i as int)),
        decreases entries.len() - i,
    {
        proof {
            assert(all.skip(i as int)[0] == all[i as int]);
            assert(all.skip(i as int).drop_first() =~= all.skip(i as int + 1));
        }
        let entry = SearchQuery {
            repo: entries[i].repository.clone(),
            package: entries[i].package.clone(),
            version: entries[i].version.clone(),
            description: entries[i].description.clone(),
        };
        q.push(entry);
        assert(drop_installed(all) =~= q.deep_view() + drop_installed(all.skip(i as int + 1)));
        i = i + 1;
    }
    proof {
        assert(all.skip(all.len() as int) =~= Seq::<PackageV>::empty());
        assert(q.deep_view() =~= drop_installed(all));
    }
    let r = reversed(q);
    assert(r.deep_view() =~= drop_installed(parse_entries(split_char(output@, '\n'))).reverse());
    r
}

/// Parses captured repository search output and joins in the installed
/// state from the native inventory; result order is the reverse of the
/// output order.
pub fn get_package_search(output: &str, native: &Vec<InstalledPackage>) -> (r: Vec<Package>)
    ensures
        r.deep_view() == mark_installed(
            parse_entries(split_char(output@, '\n')),
            native.deep_view(),
        ).reverse(),
{
    let entries = parse_search_entries(output);
    let ghost all = entries.deep_view();
    let mut q: Vec<Package> = Vec::new();
    proof {
        assert(all.skip(0) =~= all);
        assert(q.deep_view() + mark_installed(all, native.deep_view()) =~= mark_installed(
            all,
            native.deep_view(),
        ));
    }
    let mut i: usize = 0;
    while i < entries.len()
        invariant
            i <= entries.len(),
            entries.deep_view() == all,
            mark_installed(all, native.deep_view()) == q.deep_view() + mark_installed(
                all.skip(i as int),
                native.deep_view(),
            ),
        decreases entries.len() - i,
    {
        proof {
            assert(all.skip(i as int)[0] == all[i as int]);
            assert(all.skip(i as int).drop_first() =~= all.skip(i as int + 1));
        }
        let installed = entries[i].installed || has_package(native, &entries[i].package);
        let entry = Package {
            repository: entries[i].repository.clone(),
            package: entries[i].package.clone(),
            version: entries[i].version.clone(),
            description: entries[i].description.clone(),
            installed,
        };
        q.push(entry);
        assert(mark_installed(all, native.deep_view()) =~= q.deep_view() + mark_installed(
            all.skip(i as int + 1),
            native.deep_view(),
        ));
        i = i + 1;
    }
    proof {
        assert(all.skip(all.len() as int) =~= Seq::<PackageV>::empty());
        assert(q.deep_view() =~= mark_installed(all, native.deep_view()));
    }
    let r = reversed(q);
    assert(r.deep_view() =~= mark_installed(
        parse_entries(split_char(output@, '\n')),
        native.deep_view(),
    ).reverse());
    r
}

/// A command with `--noconfirm` appended exactly when the confirm policy is
/// off.
pub open spec fn with_noconfirm(cmd: Seq<Seq<char>>, confirm: bool) -> Seq<Seq<char>> {
    if confirm {
        cmd
    } else {
        cmd + seq!["--noconfirm"@]
    }
}

pub(crate) fn push_noconfirm(cmd: Vec<String>, confirm: bool) -> (r: Vec<String>)
    ensures
        r.deep_view() == with_noconfirm(cmd.deep_view(), confirm),
{
    let mut cmd = cmd;
    if !confirm {
        cmd.push(String::from_str("--noconfirm"));
        assert(cmd.deep_view() =~= cmd.deep_view().drop_last() + seq!["--noconfirm"@]);
    }
    cmd
}

/// The repository manager's install command for one package.
pub fn pacman_install(package: &str, confirm: bool) -> (r: Vec<String>)
    ensures
        r.deep_view() == with_noconfirm(seq!["pacman"@, "-S"@, package@], confirm),
{
    let mut cmd: Vec<String> = Vec::new();
    cmd.push(String::from_str("pacman"));
    cmd.push(String::from_str("-S"));
    cmd.push(package.to_owned());
    assert(cmd.deep_view() =~= seq!["pacman"@, "-S"@, package@]);
    push_noconfirm(cmd, confirm)
}

/// The repository manager's remove command for one package.
pub fn pacman_uninstall(package: &str, confirm: bool) -> (r: Vec<String>)
    ensures
        r.deep_view() == with_noconfirm(seq!["pacman"@, "-R"@, package@], confirm),
{
    let mut cmd: Vec<String> = Vec::new();
    cmd.push(String::from_str("pacman"));
    cmd.push(String::from_str("-R"));
    cmd.push(package.to_owned());
    assert(cmd.deep_view() =~= seq!["pacman"@, "-R"@, package@]);
    push_noconfirm(cmd, confirm)
}

/// The repository manager's full-system-upgrade command.
pub fn pacman_update(confirm: bool) -> (r: Vec<String>)
    ensures
        r.deep_view() == with_noconfirm(seq!["pacman"@, "-Syyu"@], confirm),
{
    let mut cmd: Vec<String> = Vec::new();
    cmd.push(String::from_str("pacman"));
    cmd.push(String::from_str("-Syyu"));
    assert(cmd.deep_view() =~= seq!["pacman"@, "-Syyu"@]);
    push_noconfirm(cmd, confirm)
}

/// The repository manager's single-package-info command; its exit status
/// answers whether the package exists natively.
pub fn package_info_command(package: &str) -> (r: Vec<String>)
    ensures
        r.deep_view() == seq!["pacman"@, "-Si"@, package@],
{
    let mut cmd: Vec<String> = Vec::new();
    cmd.push(String::from_str("pacman"));
    cmd.push(String::from_str("-Si"));
    cmd.push(package.to_owned());
    assert(cmd.deep_view() =~= seq!["pacman"@, "-Si"@, package@]);
    cmd
}

/// The repository manager's install command for a batch of packages.
pub fn install_packages(packages: &Vec<String>, confirm: bool) -> (r: Vec<String>)
    ensures
        r.deep_view() == with_noconfirm(seq!["pacman"@, "-S"@] + packages.deep_view(), confirm),
{
    let mut cmd: Vec<String> = Vec::new();
    cmd.push(String::from_str("pacman"));
    cmd.push(String::from_str("-S"));
    let mut i: usize = 0;
    while i < packages.len()
        invariant
            i <= packages.len(),
            cmd.deep_view() =~= seq!["pacman"@, "-S"@] + packages.deep_view().take(i as int),
        decreases packages.len() - i,
    {
        cmd.push(packages[i].clone());
        proof {
            assert(cmd.deep_view() =~= (seq!["pacman"@, "-S"@] + packages.deep_view().take(
                i as int,
            )).push(packages.deep_view()[i as int]));
            assert((seq!["pacman"@, "-S"@] + packages.deep_view().take(i as int)).push(
                packages.deep_view()[i as int],
            ) =~= seq!["pacman"@, "-S"@] + packages.deep_view().take(i as int + 1));
        }
        i = i + 1;
    }
    proof {
        assert(packages.deep_view().take(packages.len() as int) =~= packages.deep_view());
    }
    push_noconfirm(cmd, confirm)
}

/// The install command for a search selection.
pub fn install_from_query(query: &SearchQuery, confirm: bool) -> (r: Vec<String>)
    ensures
        r.deep_view() == with_noconfirm(seq!["pacman"@, "-S"@, query.package@], confirm),
{
    pacman_install(query.package.as_str(), confirm)
}

} // verus!
