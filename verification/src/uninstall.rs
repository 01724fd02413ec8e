//! The uninstall workflow: classifying a requested name against both
//! inventories and building the removal command, with the `<name>-debug`
//! companion of a foreign package removed alongside it.

use vstd::prelude::*;
use crate::error::PackageError;
use crate::inventory::{InstalledPackage, InstalledPackageV, contains_name, has_package};
use crate::repo::{push_noconfirm, with_noconfirm};

verus! {

/// The removal arguments for a batch: each requested name, preceded by its
/// `<name>-debug` companion wherever the foreign inventory holds one.
pub open spec fn uninstall_args(
    packages: Seq<Seq<char>>,
    foreign: Seq<InstalledPackageV>,
) -> Seq<Seq<char>>
    decreases packages.len(),
{
    if packages.len() == 0 {
        Seq::<Seq<char>>::empty()
    } else {
        let p = packages[0];
        let head = if contains_name(foreign, p + "-debug"@) {
            seq![p + "-debug"@, p]
        } else {
            seq![p]
        };
        head + uninstall_args(packages.drop_first(), foreign)
    }
}

/// The removal command for a batch of packages, each with its installed
/// debug companion, and `--noconfirm` exactly when the confirm policy is
/// off.
pub fn uninstall_packages(
    packages: &Vec<String>,
    foreign: &Vec<InstalledPackage>,
    confirm: bool,
) -> (r: Vec<String>)
    ensures
        r.deep_view() == with_noconfirm(
            seq!["pacman"@, "-R"@] + uninstall_args(packages.deep_view(), foreign.deep_view()),
            confirm,
        ),
{
    let ghost all = packages.deep_view();
    let ghost fv = foreign.deep_view();
    let mut cmd: Vec<String> = Vec::new();
    cmd.push(String::from_str("pacman"));
    cmd.push(String::from_str("-R"));
    proof {
        assert(all.skip(0) =~= all);
        assert(cmd.deep_view() =~= seq!["pacman"@, "-R"@]);
        assert(seq!["pacman"@, "-R"@] + uninstall_args(all, fv) =~= cmd.deep_view()
            + uninstall_args(all.skip(0), fv));
    }
    let mut i: usize = 0;
    while i < packages.len()
        invariant
            i <= packages.len(),
            packages.deep_view() == all,
            foreign.deep_view() == fv,
            seq!["pacman"@, "-R"@] + uninstall_args(all, fv) == cmd.deep_view() + uninstall_args(
                all.skip(i as int),
                fv,
            ),
        decreases packages.len() - i,
    {
        proof {
            assert(all.skip(i as int)[0] == all[i as int]);
            assert(all.skip(i as int).drop_first() =~= all.skip(i as int + 1));
        }
        let debug = packages[i].clone().concat("-debug");
        if has_package(foreign, &debug) {
            cmd.push(debug);
        }
        cmd.push(packages[i].clone());
        assert(seq!["pacman"@, "-R"@] + uninstall_args(all, fv) =~= cmd.deep_view()
            + uninstall_args(all.skip(i as int + 1), fv));
        i = i + 1;
    }
    proof {
        assert(all.skip(all.len() as int) =~= Seq::<Seq<char>>::empty());
        assert(cmd.deep_view() =~= seq!["pacman"@, "-R"@] + uninstall_args(all, fv));
    }
    push_noconfirm(cmd, confirm)
}

/// The removal command a CLI uninstall request builds.
pub fn on_uninstall_command(
    packages: &Vec<String>,
    foreign: &Vec<InstalledPackage>,
    confirm: bool,
) -> (r: Vec<String>)
    ensures
        r.deep_view() == with_noconfirm(
            seq!["pacman"@, "-R"@] + uninstall_args(packages.deep_view(), foreign.deep_view()),
            confirm,
        ),
{
    uninstall_packages(packages, foreign, confirm)
}

/// The removal arguments of one foreign package: the recursive removal
/// flag, the name, and the debug companion when it is installed too.
pub open spec fn foreign_removal_spec(package: Seq<char>, companion: bool) -> Seq<Seq<char>> {
    if companion {
        seq!["pacman"@, "-Rns"@, package, package + "-debug"@]
    } else {
        seq!["pacman"@, "-Rns"@, package]
    }
}

/// Classifies one requested name and builds its removal command: foreign
/// status takes precedence, a foreign package takes its installed debug
/// companion with it, and a name neither inventory holds is a not-found
/// failure.
pub fn on_uninstall_package(
    package: &str,
    native: &Vec<InstalledPackage>,
    foreign: &Vec<InstalledPackage>,
    confirm: bool,
) -> (r: Result<Vec<String>, PackageError>)
    ensures
        contains_name(foreign.deep_view(), package@) ==> (r matches Ok(cmd) && cmd.deep_view()
            == with_noconfirm(
            foreign_removal_spec(
                package@,
                contains_name(foreign.deep_view(), package@ + "-debug"@),
            ),
            confirm,
        )),
        !contains_name(foreign.deep_view(), package@) && contains_name(
            native.deep_view(),
            package@,
        ) ==> (r matches Ok(cmd) && cmd.deep_view() == with_noconfirm(
            seq!["pacman"@, "-R"@, package@],
            confirm,
        )),
        !contains_name(foreign.deep_view(), package@) && !contains_name(
            native.deep_view(),
            package@,
        ) ==> (r matches Err(e) && e == PackageError::NotFound),
{
    let name = package.to_owned();
    if has_package(foreign, &name) {
        let mut cmd: Vec<String> = Vec::new();
        cmd.push(String::from_str("pacman"));
        cmd.push(String::from_str("-Rns"));
        cmd.push(name.clone());
        let debug = name.clone().concat("-debug");
        if has_package(foreign, &debug) {
            cmd.push(debug);
            assert(cmd.deep_view() =~= foreign_removal_spec(package@, true));
        } else {
            assert(cmd.deep_view() =~= foreign_removal_spec(package@, false));
        }
        Ok(push_noconfirm(cmd, confirm))
    } else if has_package(native, &name) {
        let mut cmd: Vec<String> = Vec::new();
        cmd.push(String::from_str("pacman"));
        cmd.push(String::from_str("-R"));
        cmd.push(name);
        assert(cmd.deep_view() =~= seq!["pacman"@, "-R"@, package@]);
        Ok(push_noconfirm(cmd, confirm))
    } else {
        Err(PackageError::NotFound)
    }
}

} // verus!
