//! The community source adapter: the records its JSON endpoints yield, the
//! normalization of search results, and the exact URLs of the search, info
//! and download endpoints.
//!
//! The HTTP transfers and the JSON decoding happen outside this crate; the
//! decoded records are handed in as plain values and everything done with
//! them is pinned down here.

use vstd::prelude::*;
use vstd::utf8::encode_utf8;
use crate::inventory::{InstalledPackage, InstalledPackageV, contains_name, filter_debug, filter_debug_spec, has_package};
use crate::text::{reversed, url_encode, url_encode_spec};

verus! {

/// One record of the community search endpoint.
#[derive(Debug, Clone)]
pub struct AurResult {
    pub description: Option<String>,
    pub name: String,
    pub out_of_date: Option<u64>,
    pub url_path: String,
    pub version: String,
}

/// The mathematical value of an [`AurResult`].
pub struct AurResultV {
    pub description: Option<Seq<char>>,
    pub name: Seq<char>,
    pub out_of_date: Option<u64>,
    pub url_path: Seq<char>,
    pub version: Seq<char>,
}

impl View for AurResult {
    type V = AurResultV;

    open spec fn view(&self) -> AurResultV {
        AurResultV {
            description: match self.description {
                Some(d) => Some(d@),
                None => None,
            },
            name: self.name@,
            out_of_date: self.out_of_date,
            url_path: self.url_path@,
            version: self.version@,
        }
    }
}

impl DeepView for AurResult {
    type V = AurResultV;

    open spec fn deep_view(&self) -> AurResultV {
        self.view()
    }
}

/// The envelope of the community search endpoint.
#[derive(Debug, Clone)]
pub struct AurSearchResponse {
    pub results: Vec<AurResult>,
}

/// One record of the community search endpoint with its modification time,
/// as the install workflow consumes it.
#[derive(Debug, Clone)]
pub struct AurSearchResult {
    pub description: Option<String>,
    pub last_modified: u64,
    pub name: String,
    pub out_of_date: Option<u64>,
    pub url_path: String,
    pub version: String,
}

/// The mathematical value of an [`AurSearchResult`].
pub struct AurSearchResultV {
    pub description: Option<Seq<char>>,
    pub last_modified: u64,
    pub name: Seq<char>,
    pub out_of_date: Option<u64>,
    pub url_path: Seq<char>,
    pub version: Seq<char>,
}

impl View for AurSearchResult {
    type V = AurSearchResultV;

    open spec fn view(&self) -> AurSearchResultV {
        AurSearchResultV {
            description: match self.description {
                Some(d) => Some(d@),
                None => None,
            },
            last_modified: self.last_modified,
            name: self.name@,
            out_of_date: self.out_of_date,
            url_path: self.url_path@,
            version: self.version@,
        }
    }
}

impl DeepView for AurSearchResult {
    type V = AurSearchResultV;

    open spec fn deep_view(&self) -> AurSearchResultV {
        self.view()
    }
}

/// The envelope of the community search endpoint, as the install workflow
/// consumes it.
#[derive(Debug, Clone)]
pub struct AurSearchReponse {
    pub results: Vec<AurSearchResult>,
}

/// One community search result, normalized for display and selection.
#[derive(Debug, Clone)]
pub struct AurPackage {
    pub installed: bool,
    pub package: String,
    pub description: String,
    pub version: String,
    pub url_path: String,
    pub outdated: bool,
}

/// The mathematical value of an [`AurPackage`].
pub struct AurPackageV {
    pub installed: bool,
    pub package: Seq<char>,
    pub description: Seq<char>,
    pub version: Seq<char>,
    pub url_path: Seq<char>,
    pub outdated: bool,
}

impl View for AurPackage {
    type V = AurPackageV;

    open spec fn view(&self) -> AurPackageV {
        AurPackageV {
            installed: self.installed,
            package: self.package@,
            description: self.description@,
            version: self.version@,
            url_path: self.url_path@,
            outdated: self.outdated,
        }
    }
}

impl DeepView for AurPackage {
    type V = AurPackageV;

    open spec fn deep_view(&self) -> AurPackageV {
        self.view()
    }
}

/// One community search result, normalized for the install workflow.
#[derive(Debug, Clone)]
pub struct AurSearchQuery {
    pub package: String,
    pub version: String,
    pub last_modified: u64,
    pub description: String,
    pub url_path: String,
    pub out_of_date: bool,
}

/// The mathematical value of an [`AurSearchQuery`].
pub struct AurSearchQueryV {
    pub package: Seq<char>,
    pub version: Seq<char>,
    pub last_modified: u64,
    pub description: Seq<char>,
    pub url_path: Seq<char>,
    pub out_of_date: bool,
}

impl View for AurSearchQuery {
    type V = AurSearchQueryV;

    open spec fn view(&self) -> AurSearchQueryV {
        AurSearchQueryV {
            package: self.package@,
            version: self.version@,
            last_modified: self.last_modified,
            description: self.description@,
            url_path: self.url_path@,
            out_of_date: self.out_of_date,
        }
    }
}

impl DeepView for AurSearchQuery {
    type V = AurSearchQueryV;

    open spec fn deep_view(&self) -> AurSearchQueryV {
        self.view()
    }
}

/// Everything the info endpoint reports of one community package that the
/// install workflow needs.
#[derive(Debug, Clone)]
pub struct AurPackageInfoResult {
    pub name: String,
    pub version: String,
    pub last_modified: u64,
    pub url_path: String,
    pub depends: Vec<String>,
    pub make_depends: Vec<String>,
    pub conflicts: Vec<String>,
}

/// The mathematical value of an [`AurPackageInfoResult`].
pub struct AurPackageInfoResultV {
    pub name: Seq<char>,
    pub version: Seq<char>,
    pub last_modified: u64,
    pub url_path: Seq<char>,
    pub depends: Seq<Seq<char>>,
    pub make_depends: Seq<Seq<char>>,
    pub conflicts: Seq<Seq<char>>,
}

impl View for AurPackageInfoResult {
    type V = AurPackageInfoResultV;

    open spec fn view(&self) -> AurPackageInfoResultV {
        AurPackageInfoResultV {
            name: self.name@,
            version: self.version@,
            last_modified: self.last_modified,
            url_path: self.url_path@,
            depends: self.depends.deep_view(),
            make_depends: self.make_depends.deep_view(),
            conflicts: self.conflicts.deep_view(),
        }
    }
}

impl DeepView for AurPackageInfoResult {
    type V = AurPackageInfoResultV;

    open spec fn deep_view(&self) -> AurPackageInfoResultV {
        self.view()
    }
}

/// The envelope of the community info endpoint.
#[derive(Debug, Clone)]
pub struct AurPackageInfoResponse {
    pub results: Vec<AurPackageInfoResult>,
}

/// The default for an info record's dependency and conflict lists when the
/// payload omits them.
pub fn get_empty_vec() -> (r: Vec<String>)
    ensures
        r.deep_view() == Seq::<Seq<char>>::empty(),
{
    let r: Vec<String> = Vec::new();
    assert(r.deep_view() =~= Seq::<Seq<char>>::empty());
    r
}

/// A missing description defaults to the empty string.
pub open spec fn description_or_empty(d: Option<Seq<char>>) -> Seq<char> {
    match d {
        Some(s) => s,
        None => Seq::<char>::empty(),
    }
}

/// Display normalization of community search records: the installed state
/// is joined against the foreign inventory with debug companions filtered
/// out, and a record is outdated exactly when its out-of-date field is
/// present.
pub open spec fn aur_display_entries(
    results: Seq<AurResultV>,
    foreign: Seq<InstalledPackageV>,
) -> Seq<AurPackageV>
    decreases results.len(),
{
    if results.len() == 0 {
        Seq::<AurPackageV>::empty()
    } else {
        seq![
            AurPackageV {
                installed: contains_name(filter_debug_spec(foreign), results[0].name),
                package: results[0].name,
                description: description_or_empty(results[0].description),
                version: results[0].version,
                url_path: results[0].url_path,
                outdated: results[0].out_of_date is Some,
            },
        ] + aur_display_entries(results.drop_first(), foreign)
    }
}

/// Normalizes community search records for display and selection; result
/// order is the reverse of the endpoint's order.
pub fn get_aur_package_search(results: &Vec<AurResult>, foreign: &Vec<InstalledPackage>) -> (r:
    Vec<AurPackage>)
    ensures
        r.deep_view() == aur_display_entries(results.deep_view(), foreign.deep_view()).reverse(),
{
    let filtered = filter_debug(foreign);
    let ghost all = results.deep_view();
    let mut q: Vec<AurPackage> = Vec::new();
    proof {
        assert(all.skip(0) =~= all);
        assert(q.deep_view() + aur_display_entries(all, foreign.deep_view())
            =~= aur_display_entries(all, foreign.deep_view()));
    }
    let mut i: usize = 0;
    while i < results.len()
        invariant
            i <= results.len(),
            results.deep_view() == all,
            filtered.deep_view() == filter_debug_spec(foreign.deep_view()),
            aur_display_entries(all, foreign.deep_view()) == q.deep_view() + aur_display_entries(
                all.skip(i as int),
                foreign.deep_view(),
            ),
        decreases results.len() - i,
    {
        proof {
            assert(all.skip(i as int)[0] == all[i as int]);
            assert(all.skip(i as int).drop_first() =~= all.skip(i as int + 1));
        }
        let installed = has_package(&filtered, &results[i].name);
        let description = match &results[i].description {
            Some(d) => d.clone(),
            None => String::new(),
        };
        let entry = AurPackage {
            installed,
            package: results[i].name.clone(),
            description,
            version: results[i].version.clone(),
            url_path: results[i].url_path.clone(),
            outdated: results[i].out_of_date.is_some(),
        };
        q.push(entry);
        assert(aur_display_entries(all, foreign.deep_view()) =~= q.deep_view()
            + aur_display_entries(all.skip(i as int + 1), foreign.deep_view()));
        i = i + 1;
    }
    proof {
        assert(all.skip(all.len() as int) =~= Seq::<AurResultV>::empty());
        assert(q.deep_view() =~= aur_display_entries(all, foreign.deep_view()));
    }
    let r = reversed(q);
    assert(r.deep_view() =~= aur_display_entries(
        results.deep_view(),
        foreign.deep_view(),
    ).reverse());
    r
}

/// Install-workflow normalization of community search records.
pub open spec fn aur_install_entries(results: Seq<AurSearchResultV>) -> Seq<AurSearchQueryV>
    decreases results.len(),
{
    if results.len() == 0 {
        Seq::<AurSearchQueryV>::empty()
    } else {
        seq![
            AurSearchQueryV {
                package: results[0].name,
                version: results[0].version,
                last_modified: results[0].last_modified,
                description: description_or_empty(results[0].description),
                url_path: results[0].url_path,
                out_of_date: results[0].out_of_date is Some,
            },
        ] + aur_install_entries(results.drop_first())
    }
}

/// Normalizes community search records for the install workflow; result
/// order is the reverse of the endpoint's order.
pub fn search_aur_packages(results: &Vec<AurSearchResult>) -> (r: Vec<AurSearchQuery>)
    ensures
        r.deep_view() == aur_install_entries(results.deep_view()).reverse(),
{
    let ghost all = results.deep_view();
    let mut q: Vec<AurSearchQuery> = Vec::new();
    proof {
        assert(all.skip(0) =~= all);
        assert(q.deep_view() + aur_install_entries(all) =~= aur_install_entries(all));
    }
    let mut i: usize = 0;
    while i < results.len()
        invariant
            i <= results.len(),
            results.deep_view() == all,
            aur_install_entries(all) == q.deep_view() + aur_install_entries(all.skip(i as int)),
        decreases results.len() - i,
    {
        proof {
            assert(all.skip(i as int)[0] == all[i as int]);
            assert(all.skip(i as int).drop_first() =~= all.skip(i as int + 1));
        }
        let description = match &results[i].description {
            Some(d) => d.clone(),
            None => String::new(),
        };
        let entry = AurSearchQuery {
            package: results[i].name.clone(),
            version: results[i].version.clone(),
            last_modified: results[i].last_modified,
            description,
            url_path: results[i].url_path.clone(),
            out_of_date: results[i].out_of_date.is_some(),
        };
        q.push(entry);
        assert(aur_install_entries(all) =~= q.deep_view() + aur_install_entries(
            all.skip(i as int + 1),
        ));
        i = i + 1;
    }
    proof {
        assert(all.skip(all.len() as int) =~= Seq::<AurSearchResultV>::empty());
        assert(q.deep_view() =~= aur_install_entries(all));
    }
    let r = reversed(q);
    assert(r.deep_view() =~= aur_install_entries(results.deep_view()).reverse());
    r
}

/// The first query whose package name is exactly `name`, if any.
pub fn find_exact(queries: &Vec<AurSearchQuery>, name: &str) -> (r: Option<usize>)
    ensures
        r matches Some(i) ==> i < queries.len() && queries.deep_view()[i as int].package == name@
            && forall|k: int| 0 <= k < i ==> queries.deep_view()[k].package != name@,
        r is None ==> forall|k: int|
            0 <= k < queries.len() ==> queries.deep_view()[k].package != name@,
{
    let target = name.to_owned();
    let mut i: usize = 0;
    while i < queries.len()
        invariant
            i <= queries.len(),
            target@ == name@,
            forall|k: int| 0 <= k < i ==> queries.deep_view()[k].package != name@,
        decreases queries.len() - i,
    {
        if queries[i].package == target {
            proof {
                assert(queries.deep_view()[i as int].package == name@);
            }
            return Some(i);
        }
        i = i + 1;
    }
    None
}

/// The community search endpoint for a term, with the term percent-encoded.
pub fn aur_search_url(term: &str) -> (r: String)
    ensures
        r@ == "https://aur.archlinux.org/rpc/?v=5&type=search&arg="@ + url_encode_spec(
            encode_utf8(term@),
        ),
{
    let base: String = String::from_str("https://aur.archlinux.org/rpc/?v=5&type=search&arg=");
    let encoded = url_encode(term);
    base.concat(encoded.as_str())
}

/// The community info endpoint for one name, with the name
/// percent-encoded.
pub fn aur_info_url(name: &str) -> (r: String)
    ensures
        r@ == "https://aur.archlinux.org/rpc/?v=5&type=info&arg="@ + url_encode_spec(
            encode_utf8(name@),
        ),
{
    let base: String = String::from_str("https://aur.archlinux.org/rpc/?v=5&type=info&arg=");
    let encoded = url_encode(name);
    base.concat(encoded.as_str())
}

/// The batched query arguments of the info endpoint, one per name, each
/// percent-encoded.
pub open spec fn batch_args_spec(names: Seq<Seq<char>>) -> Seq<char>
    decreases names.len(),
{
    if names.len() == 0 {
        Seq::<char>::empty()
    } else {
        "&arg[]="@ + url_encode_spec(encode_utf8(names[0])) + batch_args_spec(names.drop_first())
    }
}

/// The community info endpoint for a batch of names, as the update check
/// issues it.
pub fn aur_batch_info_url(names: &Vec<String>) -> (r: String)
    ensures
        r@ == "https://aur.archlinux.org/rpc/?v=5&type=info"@ + batch_args_spec(names.deep_view()),
{
    let ghost all = names.deep_view();
    let ghost base_v = "https://aur.archlinux.org/rpc/?v=5&type=info"@;
    let mut r: String = String::from_str("https://aur.archlinux.org/rpc/?v=5&type=info");
    proof {
        assert(all.skip(0) =~= all);
        assert(r@ + batch_args_spec(all) =~= base_v + batch_args_spec(all));
    }
    let mut i: usize = 0;
    while i < names.len()
        invariant
            i <= names.len(),
            names.deep_view() == all,
            base_v + batch_args_spec(all) == r@ + batch_args_spec(all.skip(i as int)),
        decreases names.len() - i,
    {
        proof {
            assert(all.skip(i as int)[0] == all[i as int]);
            assert(all.skip(i as int).drop_first() =~= all.skip(i as int + 1));
        }
        let encoded = url_encode(names[i].as_str());
        r = r.concat("&arg[]=").concat(encoded.as_str());
        assert(base_v + batch_args_spec(all) =~= r@ + batch_args_spec(all.skip(i as int + 1)));
        i = i + 1;
    }
    proof {
        assert(all.skip(all.len() as int) =~= Seq::<Seq<char>>::empty());
        assert(batch_args_spec(all.skip(all.len() as int)) == Seq::<char>::empty());
        assert(r@ =~= base_v + batch_args_spec(all));
    }
    r
}

/// The download URL of a build-source archive: the community host joined
/// with the path the endpoints reported.
pub fn download_url(url_path: &str) -> (r: String)
    ensures
        r@ == "https://aur.archlinux.org"@ + url_path@,
{
    let base: String = String::from_str("https://aur.archlinux.org");
    base.concat(url_path)
}

} // verus!
