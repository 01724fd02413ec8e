//! The update workflow: the native full-system upgrade, and the diff that
//! decides which foreign packages to rebuild.
//!
//! Native packages are upgraded unconditionally; the community pass then
//! compares each installed foreign package's version against the remote
//! record of the same name and rebuilds exactly those whose versions
//! differ.

use vstd::prelude::*;
use crate::aur::{AurPackageInfoResult, AurPackageInfoResultV};
use crate::inventory::{InstalledPackage, InstalledPackageV};
use crate::repo::{pacman_update, with_noconfirm};

verus! {

/// The native full-system-upgrade command.
pub fn update_repo_packages(confirm: bool) -> (r: Vec<String>)
    ensures
        r.deep_view() == with_noconfirm(seq!["pacman"@, "-Syyu"@], confirm),
{
    pacman_update(confirm)
}

/// Whether the installed listing holds this name at a different version.
pub open spec fn version_differs(
    installed: Seq<InstalledPackageV>,
    name: Seq<char>,
    version: Seq<char>,
) -> bool {
    exists|i: int|
        0 <= i < installed.len() && installed[i].package == name && installed[i].version != version
}

fn has_differing_version(
    installed: &Vec<InstalledPackage>,
    name: &String,
    version: &String,
) -> (r: bool)
    ensures
        r == version_differs(installed.deep_view(), name@, version@),
{
    let mut i: usize = 0;
    while i < installed.len()
        invariant
            i <= installed.len(),
            forall|k: int|
                0 <= k < i ==> !(installed.deep_view()[k].package == name@
                    && installed.deep_view()[k].version != version@),
        decreases installed.len() - i,
    {
        if installed[i].package == *name && !(installed[i].version == *version) {
            proof {
                assert(installed.deep_view()[i as int].package == name@);
                assert(installed.deep_view()[i as int].version != version@);
            }
            return true;
        }
        i = i + 1;
    }
    false
}

/// The names of the remote records whose version differs from the version
/// installed under the same name, in the remote order.
pub open spec fn updates_spec(
    installed: Seq<InstalledPackageV>,
    remote: Seq<AurPackageInfoResultV>,
) -> Seq<Seq<char>>
    decreases remote.len(),
{
    if remote.len() == 0 {
        Seq::<Seq<char>>::empty()
    } else {
        let rest = updates_spec(installed, remote.drop_first());
        if version_differs(installed, remote[0].name, remote[0].version) {
            seq![remote[0].name] + rest
        } else {
            rest
        }
    }
}

/// The update diff: which foreign packages to rebuild, given the installed
/// foreign listing and the remote info records.
pub fn compute_aur_updates(
    installed: &Vec<InstalledPackage>,
    remote: &Vec<AurPackageInfoResult>,
) -> (r: Vec<String>)
    ensures
        r.deep_view() == updates_spec(installed.deep_view(), remote.deep_view()),
{
    let ghost iv = installed.deep_view();
    let ghost all = remote.deep_view();
    let mut r: Vec<String> = Vec::new();
    proof {
        assert(all.skip(0) =~= all);
        assert(r.deep_view() + updates_spec(iv, all) =~= updates_spec(iv, all));
    }
    let mut i: usize = 0;
    while i < remote.len()
        invariant
            i <= remote.len(),
            remote.deep_view() == all,
            installed.deep_view() == iv,
            updates_spec(iv, all) == r.deep_view() + updates_spec(iv, all.skip(i as int)),
        decreases remote.len() - i,
    {
        proof {
            assert(all.skip(i as int)[0] == all[i as int]);
            assert(all.skip(i as int).drop_first() =~= all.skip(i as int + 1));
        }
        if has_differing_version(installed, &remote[i].name, &remote[i].version) {
            r.push(remote[i].name.clone());
        }
        assert(updates_spec(iv, all) =~= r.deep_view() + updates_spec(iv, all.skip(i as int + 1)));
        i = i + 1;
    }
    proof {
        assert(all.skip(all.len() as int) =~= Seq::<AurPackageInfoResultV>::empty());
        assert(r.deep_view() =~= updates_spec(iv, all));
    }
    r
}

} // verus!
