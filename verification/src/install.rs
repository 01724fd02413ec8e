//! The resolution and installation orchestrator.
//!
//! One requested package name drives a state machine: a native existence
//! check decides the source; a community package then has its declared
//! conflicts resolved interactively, its missing dependencies pre-installed,
//! its build source downloaded into the version-addressed cache unless
//! already there, and its build command run inside the cache entry.
//!
//! The machine only decides. Each [`Action`] it asks for is carried out
//! outside this crate — a subprocess, an HTTP transfer, a prompt — and the
//! plain result comes back as an [`Event`]. The transition relation is the
//! spec function [`spec_step`]; the laws at the end of this module are
//! proved over every possible event sequence.

use vstd::prelude::*;
use crate::aur::AurPackageInfoResult;
use crate::cache::{cache_entry_dir, cache_entry_dir_spec};
use crate::error::PackageError;
use crate::inventory::{InstalledPackage, InstalledPackageV, contains_name, has_package};
use crate::repo::{pacman_install, pacman_uninstall, push_noconfirm, with_noconfirm};

verus! {

/// How a finished per-package operation ended.
#[derive(Debug, Clone, Copy, PartialEq, Eq, Structural)]
pub enum Outcome {
    Success,
    Failure(PackageError),
}

/// Where the orchestrator stands for one requested package.
#[derive(Debug, Clone, Copy, PartialEq, Eq, Structural)]
pub enum Phase {
    /// Asking the repository manager whether the name exists natively.
    QueryNative,
    /// The name is native: running the repository install command.
    NativeInstall,
    /// Searching the community source for an exact name match.
    QueryCommunity,
    /// Fetching the community info record.
    FetchInfo,
    /// Asking the user about the detected conflict at this index.
    ConflictPrompt(usize),
    /// Removing the confirmed conflict at this index.
    ConflictUninstall(usize),
    /// Installing the missing dependency at this index.
    DepInstall(usize),
    /// Asking whether the cache entry directory exists.
    CacheCheck,
    /// Downloading and extracting the build source into the cache entry.
    Download,
    /// Running the build-and-install command inside the cache entry.
    Build,
    /// Delegated to the interactive search workflow; terminal here.
    Fallback,
    /// Finished, successfully or not; terminal.
    Done(Outcome),
}

/// What the driver must do next for the orchestrator.
#[derive(Debug, Clone, Copy, PartialEq, Eq, Structural)]
pub enum Action {
    /// Run the single-package-info command; report its exit success.
    CheckNative,
    /// Run the native install command for the requested package.
    RunNativeInstall,
    /// Fetch the community search results; report whether an exact name
    /// match exists.
    SearchCommunity,
    /// Fetch the community info record for the requested package.
    FetchInfo,
    /// Ask the user whether to uninstall the conflict at this index.
    AskConflict(usize),
    /// Run the uninstall command for the conflict at this index.
    RunConflictUninstall(usize),
    /// Run the native install command for the missing dependency at this
    /// index.
    RunDepInstall(usize),
    /// Report whether the cache entry directory exists.
    CheckCacheDir,
    /// Create the cache entry, download the archive and extract it there.
    DownloadExtract,
    /// Run the build command inside the cache entry.
    RunBuild,
}

/// What came back from carrying out an action.
#[derive(Debug, Clone, Copy, PartialEq, Eq, Structural)]
pub enum Event {
    /// Whether the single-package-info command succeeded.
    NativeExists(bool),
    /// Whether the community search held an exact name match.
    ExactMatch(bool),
    /// The user's answer to a conflict prompt.
    ConflictAnswer(bool),
    /// Whether the last command exited successfully.
    CommandDone(bool),
    /// Whether the cache entry directory exists.
    CacheDirExists(bool),
    /// Whether the download and extraction succeeded.
    DownloadDone(bool),
}

/// One detected conflict: a declared conflict name that the inventory
/// holds.
#[derive(Debug, Clone)]
pub struct Conflict {
    pub name: String,
    /// Whether the installed package is foreign (community-built).
    pub foreign: bool,
    /// Whether a `<name>-debug` companion is installed too (foreign only).
    pub companion: bool,
}

/// The mathematical value of a [`Conflict`].
pub struct ConflictV {
    pub name: Seq<char>,
    pub foreign: bool,
    pub companion: bool,
}

impl View for Conflict {
    type V = ConflictV;

    open spec fn view(&self) -> ConflictV {
        ConflictV { name: self.name@, foreign: self.foreign, companion: self.companion }
    }
}

impl DeepView for Conflict {
    type V = ConflictV;

    open spec fn deep_view(&self) -> ConflictV {
        self.view()
    }
}

/// The declared conflicts that the inventory actually holds, in
/// declaration order; a name installed both natively and as a foreign
/// package yields one entry per source.
pub open spec fn detect_conflicts_spec(
    conflicts: Seq<Seq<char>>,
    native: Seq<InstalledPackageV>,
    foreign: Seq<InstalledPackageV>,
) -> Seq<ConflictV>
    decreases conflicts.len(),
{
    if conflicts.len() == 0 {
        Seq::<ConflictV>::empty()
    } else {
        let c = conflicts[0];
        let native_hit = if contains_name(native, c) {
            seq![ConflictV { name: c, foreign: false, companion: false }]
        } else {
            Seq::<ConflictV>::empty()
        };
        let foreign_hit = if contains_name(foreign, c) {
            seq![
                ConflictV {
                    name: c,
                    foreign: true,
                    companion: contains_name(foreign, c + "-debug"@),
                },
            ]
        } else {
            Seq::<ConflictV>::empty()
        };
        native_hit + foreign_hit + detect_conflicts_spec(conflicts.drop_first(), native, foreign)
    }
}

/// Detects which declared conflicts are installed, natively or foreign.
pub fn detect_conflicts(
    conflicts: &Vec<String>,
    native: &Vec<InstalledPackage>,
    foreign: &Vec<InstalledPackage>,
) -> (r: Vec<Conflict>)
    ensures
        r.deep_view() == detect_conflicts_spec(
            conflicts.deep_view(),
            native.deep_view(),
            foreign.deep_view(),
        ),
{
    let ghost all = conflicts.deep_view();
    let ghost nv = native.deep_view();
    let ghost fv = foreign.deep_view();
    let mut r: Vec<Conflict> = Vec::new();
    proof {
        assert(all.skip(0) =~= all);
        assert(r.deep_view() + detect_conflicts_spec(all, nv, fv) =~= detect_conflicts_spec(
            all,
            nv,
            fv,
        ));
    }
    let mut i: usize = 0;
    while i < conflicts.len()
        invariant
            i <= conflicts.len(),
            conflicts.deep_view() == all,
            native.deep_view() == nv,
            foreign.deep_view() == fv,
            detect_conflicts_spec(all, nv, fv) == r.deep_view() + detect_conflicts_spec(
                all.skip(i as int),
                nv,
                fv,
            ),
        decreases conflicts.len() - i,
    {
        proof {
            assert(all.skip(i as int)[0] == all[i as int]);
            assert(all.skip(i as int).drop_first() =~= all.skip(i as int + 1));
        }
        if has_package(native, &conflicts[i]) {
            let entry = Conflict { name: conflicts[i].clone(), foreign: false, companion: false };
            r.push(entry);
        }
        if has_package(foreign, &conflicts[i]) {
            let debug = conflicts[i].clone().concat("-debug");
            let companion = has_package(foreign, &debug);
            let entry = Conflict { name: conflicts[i].clone(), foreign: true, companion };
            r.push(entry);
        }
        assert(detect_conflicts_spec(all, nv, fv) =~= r.deep_view() + detect_conflicts_spec(
            all.skip(i as int + 1),
            nv,
            fv,
        ));
        i = i + 1;
    }
    proof {
        assert(all.skip(all.len() as int) =~= Seq::<Seq<char>>::empty());
        assert(r.deep_view() =~= detect_conflicts_spec(all, nv, fv));
    }
    r
}

/// Whether a list of strings holds `s`.
pub open spec fn contains_string(v: Seq<Seq<char>>, s: Seq<char>) -> bool {
    exists|i: int| 0 <= i < v.len() && v[i] == s
}

/// Whether `v` holds the string `s`.
pub fn has_string(v: &Vec<String>, s: &String) -> (r: bool)
    ensures
        r == contains_string(v.deep_view(), s@),
{
    let mut i: usize = 0;
    while i < v.len()
        invariant
            i <= v.len(),
            forall|k: int| 0 <= k < i ==> v.deep_view()[k] != s@,
        decreases v.len() - i,
    {
        if v[i] == *s {
            proof {
                assert(v.deep_view()[i as int] == s@);
            }
            return true;
        }
        i = i + 1;
    }
    false
}

/// The names of `deps` that the native inventory does not hold, except
/// those in `seen`.
pub open spec fn missing_from(
    deps: Seq<Seq<char>>,
    seen: Seq<Seq<char>>,
    native: Seq<InstalledPackageV>,
) -> Seq<Seq<char>>
    decreases deps.len(),
{
    if deps.len() == 0 {
        Seq::<Seq<char>>::empty()
    } else {
        let rest = missing_from(deps.drop_first(), seen, native);
        if !contains_name(native, deps[0]) && !contains_string(seen, deps[0]) {
            seq![deps[0]] + rest
        } else {
            rest
        }
    }
}

/// The union of the build dependencies and the runtime dependencies that
/// the native inventory does not hold: build dependencies first, then the
/// runtime dependencies not already among them.
pub open spec fn missing_deps_spec(
    make_depends: Seq<Seq<char>>,
    depends: Seq<Seq<char>>,
    native: Seq<InstalledPackageV>,
) -> Seq<Seq<char>> {
    missing_from(make_depends, Seq::<Seq<char>>::empty(), native) + missing_from(
        depends,
        make_depends,
        native,
    )
}

fn missing_pass(
    deps: &Vec<String>,
    seen: &Vec<String>,
    native: &Vec<InstalledPackage>,
) -> (r: Vec<String>)
    ensures
        r.deep_view() == missing_from(deps.deep_view(), seen.deep_view(), native.deep_view()),
{
    let ghost all = deps.deep_view();
    let ghost sv = seen.deep_view();
    let ghost nv = native.deep_view();
    let mut r: Vec<String> = Vec::new();
    proof {
        assert(all.skip(0) =~= all);
        assert(r.deep_view() + missing_from(all, sv, nv) =~= missing_from(all, sv, nv));
    }
    let mut i: usize = 0;
    while i < deps.len()
        invariant
            i <= deps.len(),
            deps.deep_view() == all,
            seen.deep_view() == sv,
            native.deep_view() == nv,
            missing_from(all, sv, nv) == r.deep_view() + missing_from(all.skip(i as int), sv, nv),
        decreases deps.len() - i,
    {
        proof {
            assert(all.skip(i as int)[0] == all[i as int]);
            assert(all.skip(i as int).drop_first() =~= all.skip(i as int + 1));
        }
        if !has_package(native, &deps[i]) && !has_string(seen, &deps[i]) {
            r.push(deps[i].clone());
        }
        assert(missing_from(all, sv, nv) =~= r.deep_view() + missing_from(
            all.skip(i as int + 1),
            sv,
            nv,
        ));
        i = i + 1;
    }
    proof {
        assert(all.skip(all.len() as int) =~= Seq::<Seq<char>>::empty());
        assert(r.deep_view() =~= missing_from(all, sv, nv));
    }
    r
}

/// The dependencies to pre-install: every declared build or runtime
/// dependency not already installed natively, counted once.
pub fn missing_dependencies(
    make_depends: &Vec<String>,
    depends: &Vec<String>,
    native: &Vec<InstalledPackage>,
) -> (r: Vec<String>)
    ensures
        r.deep_view() == missing_deps_spec(
            make_depends.deep_view(),
            depends.deep_view(),
            native.deep_view(),
        ),
{
    let empty: Vec<String> = Vec::new();
    proof {
        assert(empty.deep_view() =~= Seq::<Seq<char>>::empty());
    }
    let mut first = missing_pass(make_depends, &empty, native);
    let mut second = missing_pass(depends, make_depends, native);
    let ghost fv = first.deep_view();
    first.append(&mut second);
    proof {
        assert(first.deep_view() =~= fv + missing_from(
            depends.deep_view(),
            make_depends.deep_view(),
            native.deep_view(),
        ));
    }
    first
}

/// The spec-level state of the orchestrator: its phase and the counts its
/// transitions depend on.
pub struct MachineV {
    pub phase: Phase,
    pub n_conflicts: usize,
    pub n_deps: usize,
    pub search_fallback: bool,
    pub batch_len: usize,
}

/// The spec-level value of an event, with the info answer reduced to what
/// the transitions depend on.
pub enum EventV {
    NativeExists(bool),
    ExactMatch(bool),
    InfoLoaded { found: bool, n_conflicts: usize, n_deps: usize },
    ConflictAnswer(bool),
    CommandDone(bool),
    CacheDirExists(bool),
    DownloadDone(bool),
}

/// The spec-level value of a plain [`Event`].
pub open spec fn event_view(e: Event) -> EventV {
    match e {
        Event::NativeExists(b) => EventV::NativeExists(b),
        Event::ExactMatch(b) => EventV::ExactMatch(b),
        Event::ConflictAnswer(b) => EventV::ConflictAnswer(b),
        Event::CommandDone(b) => EventV::CommandDone(b),
        Event::CacheDirExists(b) => EventV::CacheDirExists(b),
        Event::DownloadDone(b) => EventV::DownloadDone(b),
    }
}

/// The transition relation of the orchestrator. An event that does not
/// answer the pending action leaves the state unchanged.
pub open spec fn spec_step(m: MachineV, e: EventV) -> MachineV {
    match (m.phase, e) {
        (Phase::QueryNative, EventV::NativeExists(b)) => MachineV {
            phase: if b {
                Phase::NativeInstall
            } else {
                Phase::QueryCommunity
            },
            ..m
        },
        (Phase::NativeInstall, EventV::CommandDone(ok)) => MachineV {
            phase: Phase::Done(
                if ok {
                    Outcome::Success
                } else {
                    Outcome::Failure(PackageError::SubprocessFailure)
                },
            ),
            ..m
        },
        (Phase::QueryCommunity, EventV::ExactMatch(b)) => MachineV {
            phase: if b {
                Phase::FetchInfo
            } else if m.search_fallback && m.batch_len == 1 {
                Phase::Fallback
            } else {
                Phase::Done(Outcome::Failure(PackageError::NotFound))
            },
            ..m
        },
        (Phase::FetchInfo, EventV::InfoLoaded { found, n_conflicts, n_deps }) => MachineV {
            phase: if !found {
                Phase::Done(Outcome::Failure(PackageError::NotFound))
            } else if n_conflicts > 0 {
                Phase::ConflictPrompt(0)
            } else if n_deps > 0 {
                Phase::DepInstall(0)
            } else {
                Phase::CacheCheck
            },
            n_conflicts,
            n_deps,
            ..m
        },
        (Phase::ConflictPrompt(i), EventV::ConflictAnswer(yes)) => MachineV {
            phase: if yes {
                Phase::ConflictUninstall(i)
            } else {
                Phase::Done(Outcome::Failure(PackageError::Conflict))
            },
            ..m
        },
        (Phase::ConflictUninstall(i), EventV::CommandDone(ok)) => MachineV {
            phase: if !ok {
                Phase::Done(Outcome::Failure(PackageError::Conflict))
            } else if i + 1 < m.n_conflicts {
                Phase::ConflictPrompt((i + 1) as usize)
            } else if m.n_deps > 0 {
                Phase::DepInstall(0)
            } else {
                Phase::CacheCheck
            },
            ..m
        },
        (Phase::DepInstall(j), EventV::CommandDone(_)) => MachineV {
            phase: if j + 1 < m.n_deps {
                Phase::DepInstall((j + 1) as usize)
            } else {
                Phase::CacheCheck
            },
            ..m
        },
        (Phase::CacheCheck, EventV::CacheDirExists(b)) => MachineV {
            phase: if b {
                Phase::Build
            } else {
                Phase::Download
            },
            ..m
        },
        (Phase::Download, EventV::DownloadDone(ok)) => MachineV {
            phase: if ok {
                Phase::Build
            } else {
                Phase::Done(Outcome::Failure(PackageError::NetworkFailure))
            },
            ..m
        },
        (Phase::Build, EventV::CommandDone(ok)) => MachineV {
            phase: Phase::Done(
                if ok {
                    Outcome::Success
                } else {
                    Outcome::Failure(PackageError::SubprocessFailure)
                },
            ),
            ..m
        },
        _ => m,
    }
}

/// The action each phase waits on; terminal phases wait on none.
pub open spec fn spec_next_action(m: MachineV) -> Option<Action> {
    match m.phase {
        Phase::QueryNative => Some(Action::CheckNative),
        Phase::NativeInstall => Some(Action::RunNativeInstall),
        Phase::QueryCommunity => Some(Action::SearchCommunity),
        Phase::FetchInfo => Some(Action::FetchInfo),
        Phase::ConflictPrompt(i) => Some(Action::AskConflict(i)),
        Phase::ConflictUninstall(i) => Some(Action::RunConflictUninstall(i)),
        Phase::DepInstall(j) => Some(Action::RunDepInstall(j)),
        Phase::CacheCheck => Some(Action::CheckCacheDir),
        Phase::Download => Some(Action::DownloadExtract),
        Phase::Build => Some(Action::RunBuild),
        Phase::Fallback => None,
        Phase::Done(_) => None,
    }
}

/// The orchestrator for one requested package name.
#[derive(Debug, Clone)]
pub struct InstallMachine {
    /// The requested package name.
    pub package: String,
    /// The confirm policy: prompts stay on when true.
    pub confirm: bool,
    /// Whether a failed lookup of a single requested name falls back to the
    /// interactive search.
    pub search_fallback: bool,
    /// How many names the surrounding batch requested.
    pub batch_len: usize,
    /// The user's cache root, under which cache entries are addressed.
    pub cache_root: String,
    /// The community info record, once fetched.
    pub info: Option<AurPackageInfoResult>,
    /// The detected conflicts, once the info record is in.
    pub conflicts: Vec<Conflict>,
    /// The missing dependencies, once the info record is in.
    pub missing_deps: Vec<String>,
    /// Where the machine stands.
    pub phase: Phase,
}

impl View for InstallMachine {
    type V = MachineV;

    open spec fn view(&self) -> MachineV {
        MachineV {
            phase: self.phase,
            n_conflicts: self.conflicts.len() as usize,
            n_deps: self.missing_deps.len() as usize,
            search_fallback: self.search_fallback,
            batch_len: self.batch_len,
        }
    }
}

impl InstallMachine {
    /// The indices inside the phase stay inside the vectors they index,
    /// and every phase past the info fetch has the info record.
    pub open spec fn wf(&self) -> bool {
        &&& (self.phase matches Phase::ConflictPrompt(i) ==> i < self.conflicts.len())
        &&& (self.phase matches Phase::ConflictUninstall(i) ==> i < self.conflicts.len())
        &&& (self.phase matches Phase::DepInstall(j) ==> j < self.missing_deps.len())
        &&& (match self.phase {
            Phase::ConflictPrompt(_) => self.info is Some,
            Phase::ConflictUninstall(_) => self.info is Some,
            Phase::DepInstall(_) => self.info is Some,
            Phase::CacheCheck => self.info is Some,
            Phase::Download => self.info is Some,
            Phase::Build => self.info is Some,
            _ => true,
        })
    }

    /// A fresh machine for one name of a requested batch; the lookup
    /// starts at the native source.
    pub fn new_install(
        package: String,
        confirm: bool,
        search_fallback: bool,
        batch_len: usize,
        cache_root: String,
    ) -> (r: InstallMachine)
        ensures
            r.wf(),
            r.phase == Phase::QueryNative,
            r.package == package,
            r.confirm == confirm,
            r.search_fallback == search_fallback,
            r.batch_len == batch_len,
            r.cache_root == cache_root,
            r.info is None,
            r.conflicts.len() == 0,
            r.missing_deps.len() == 0,
    {
        InstallMachine {
            package,
            confirm,
            search_fallback,
            batch_len,
            cache_root,
            info: None,
            conflicts: Vec::new(),
            missing_deps: Vec::new(),
            phase: Phase::QueryNative,
        }
    }

    /// A machine for a name already known to be a community package, as
    /// the update workflow re-installs one: it starts at the info fetch.
    pub fn new_foreign(package: String, confirm: bool, cache_root: String) -> (r: InstallMachine)
        ensures
            r.wf(),
            r.phase == Phase::FetchInfo,
            r.package == package,
            r.confirm == confirm,
            r.search_fallback == false,
            r.batch_len == 1,
            r.cache_root == cache_root,
            r.info is None,
            r.conflicts.len() == 0,
            r.missing_deps.len() == 0,
    {
        InstallMachine {
            package,
            confirm,
            search_fallback: false,
            batch_len: 1,
            cache_root,
            info: None,
            conflicts: Vec::new(),
            missing_deps: Vec::new(),
            phase: Phase::FetchInfo,
        }
    }

    /// The action the driver must carry out next, if any.
    pub fn next_action(&self) -> (r: Option<Action>)
        ensures
            r == spec_next_action(self@),
    {
        match self.phase {
            Phase::QueryNative => Some(Action::CheckNative),
            Phase::NativeInstall => Some(Action::RunNativeInstall),
            Phase::QueryCommunity => Some(Action::SearchCommunity),
            Phase::FetchInfo => Some(Action::FetchInfo),
            Phase::ConflictPrompt(i) => Some(Action::AskConflict(i)),
            Phase::ConflictUninstall(i) => Some(Action::RunConflictUninstall(i)),
            Phase::DepInstall(j) => Some(Action::RunDepInstall(j)),
            Phase::CacheCheck => Some(Action::CheckCacheDir),
            Phase::Download => Some(Action::DownloadExtract),
            Phase::Build => Some(Action::RunBuild),
            Phase::Fallback => None,
            Phase::Done(_) => None,
        }
    }

    /// Feeds a plain event back into the machine.
    pub fn on_event(&mut self, e: Event)
        requires
            old(self).wf(),
        ensures
            final(self).wf(),
            final(self)@ == spec_step(old(self)@, event_view(e)),
            final(self).package == old(self).package,
            final(self).confirm == old(self).confirm,
            final(self).search_fallback == old(self).search_fallback,
            final(self).batch_len == old(self).batch_len,
            final(self).cache_root == old(self).cache_root,
            final(self).info == old(self).info,
            final(self).conflicts == old(self).conflicts,
            final(self).missing_deps == old(self).missing_deps,
    {
        let p = self.phase;
        match (p, e) {
            (Phase::QueryNative, Event::NativeExists(b)) => {
                self.phase = if b {
                    Phase::NativeInstall
                } else {
                    Phase::QueryCommunity
                };
            },
            (Phase::NativeInstall, Event::CommandDone(ok)) => {
                self.phase = Phase::Done(
                    if ok {
                        Outcome::Success
                    } else {
                        Outcome::Failure(PackageError::SubprocessFailure)
                    },
                );
            },
            (Phase::QueryCommunity, Event::ExactMatch(b)) => {
                self.phase = if b {
                    Phase::FetchInfo
                } else if self.search_fallback && self.batch_len == 1 {
                    Phase::Fallback
                } else {
                    Phase::Done(Outcome::Failure(PackageError::NotFound))
                };
            },
            (Phase::ConflictPrompt(i), Event::ConflictAnswer(yes)) => {
                self.phase = if yes {
                    Phase::ConflictUninstall(i)
                } else {
                    Phase::Done(Outcome::Failure(PackageError::Conflict))
                };
            },
            (Phase::ConflictUninstall(i), Event::CommandDone(ok)) => {
                if !ok {
                    self.phase = Phase::Done(Outcome::Failure(PackageError::Conflict));
                } else if i + 1 < self.conflicts.len() {
                    self.phase = Phase::ConflictPrompt(i + 1);
                } else if self.missing_deps.len() > 0 {
                    self.phase = Phase::DepInstall(0);
                } else {
                    self.phase = Phase::CacheCheck;
                }
            },
            (Phase::DepInstall(j), Event::CommandDone(_)) => {
                self.phase = if j + 1 < self.missing_deps.len() {
                    Phase::DepInstall(j + 1)
                } else {
                    Phase::CacheCheck
                };
            },
            (Phase::CacheCheck, Event::CacheDirExists(b)) => {
                self.phase = if b {
                    Phase::Build
                } else {
                    Phase::Download
                };
            },
            (Phase::Download, Event::DownloadDone(ok)) => {
                self.phase = if ok {
                    Phase::Build
                } else {
                    Phase::Done(Outcome::Failure(PackageError::NetworkFailure))
                };
            },
            (Phase::Build, Event::CommandDone(ok)) => {
                self.phase = Phase::Done(
                    if ok {
                        Outcome::Success
                    } else {
                        Outcome::Failure(PackageError::SubprocessFailure)
                    },
                );
            },
            _ => {},
        }
    }

    /// The detected conflicts of an info answer, empty when the package
    /// was not found.
    pub open spec fn info_conflicts(
        info: Option<AurPackageInfoResult>,
        native: Seq<InstalledPackageV>,
        foreign: Seq<InstalledPackageV>,
    ) -> Seq<ConflictV> {
        match info {
            Some(inf) => detect_conflicts_spec(inf.conflicts.deep_view(), native, foreign),
            None => Seq::<ConflictV>::empty(),
        }
    }

    /// The missing dependencies of an info answer, empty when the package
    /// was not found.
    pub open spec fn info_missing(
        info: Option<AurPackageInfoResult>,
        native: Seq<InstalledPackageV>,
    ) -> Seq<Seq<char>> {
        match info {
            Some(inf) => missing_deps_spec(
                inf.make_depends.deep_view(),
                inf.depends.deep_view(),
                native,
            ),
            None => Seq::<Seq<char>>::empty(),
        }
    }

    /// Feeds the community info answer into the machine: the conflicts are
    /// detected against both inventories, the missing dependencies against
    /// the native one, and the machine moves to conflict resolution,
    /// dependency installs or the cache check accordingly. An absent record
    /// ends the operation as not found.
    pub fn on_info(
        &mut self,
        info: Option<AurPackageInfoResult>,
        native: &Vec<InstalledPackage>,
        foreign: &Vec<InstalledPackage>,
    )
        requires
            old(self).wf(),
            old(self).phase == Phase::FetchInfo,
        ensures
            final(self).wf(),
            final(self)@ == spec_step(
                old(self)@,
                EventV::InfoLoaded {
                    found: info is Some,
                    n_conflicts: Self::info_conflicts(
                        info,
                        native.deep_view(),
                        foreign.deep_view(),
                    ).len() as usize,
                    n_deps: Self::info_missing(info, native.deep_view()).len() as usize,
                },
            ),
            final(self).conflicts.deep_view() == Self::info_conflicts(
                info,
                native.deep_view(),
                foreign.deep_view(),
            ),
            final(self).missing_deps.deep_view() == Self::info_missing(info, native.deep_view()),
            final(self).info == info,
            final(self).package == old(self).package,
            final(self).confirm == old(self).confirm,
            final(self).search_fallback == old(self).search_fallback,
            final(self).batch_len == old(self).batch_len,
            final(self).cache_root == old(self).cache_root,
    {
        match info {
            Some(inf) => {
                let detected = detect_conflicts(&inf.conflicts, native, foreign);
                let missing = missing_dependencies(&inf.make_depends, &inf.depends, native);
                self.conflicts = detected;
                self.missing_deps = missing;
                self.info = Some(inf);
                if self.conflicts.len() > 0 {
                    self.phase = Phase::ConflictPrompt(0);
                } else if self.missing_deps.len() > 0 {
                    self.phase = Phase::DepInstall(0);
                } else {
                    self.phase = Phase::CacheCheck;
                }
            },
            None => {
                let empty_conflicts: Vec<Conflict> = Vec::new();
                let empty_deps: Vec<String> = Vec::new();
                proof {
                    assert(empty_conflicts.deep_view() =~= Seq::<ConflictV>::empty());
                    assert(empty_deps.deep_view() =~= Seq::<Seq<char>>::empty());
                }
                self.conflicts = empty_conflicts;
                self.missing_deps = empty_deps;
                self.info = None;
                self.phase = Phase::Done(Outcome::Failure(PackageError::NotFound));
            },
        }
    }

    /// The native install command for the requested package.
    pub fn native_install_command(&self) -> (r: Vec<String>)
        ensures
            r.deep_view() == with_noconfirm(
                seq!["pacman"@, "-S"@, self.package@],
                self.confirm,
            ),
    {
        pacman_install(self.package.as_str(), self.confirm)
    }

    /// The native install command for the missing dependency at `j`.
    pub fn dep_install_command(&self, j: usize) -> (r: Vec<String>)
        requires
            j < self.missing_deps.len(),
        ensures
            r.deep_view() == with_noconfirm(
                seq!["pacman"@, "-S"@, self.missing_deps.deep_view()[j as int]],
                self.confirm,
            ),
    {
        pacman_install(self.missing_deps[j].as_str(), self.confirm)
    }

    /// The uninstall command for the conflict at `i`: the foreign removal
    /// command with the debug companion included when installed, or the
    /// plain native removal command.
    pub fn conflict_uninstall_command(&self, i: usize) -> (r: Vec<String>)
        requires
            i < self.conflicts.len(),
        ensures
            ({
                let c = self.conflicts.deep_view()[i as int];
                if c.foreign {
                    if c.companion {
                        r.deep_view() == with_noconfirm(
                            seq!["pacman"@, "-Rns"@, c.name, c.name + "-debug"@],
                            self.confirm,
                        )
                    } else {
                        r.deep_view() == with_noconfirm(
                            seq!["pacman"@, "-Rns"@, c.name],
                            self.confirm,
                        )
                    }
                } else {
                    r.deep_view() == with_noconfirm(seq!["pacman"@, "-R"@, c.name], self.confirm)
                }
            }),
    {
        let c = &self.conflicts[i];
        if c.foreign {
            let mut cmd: Vec<String> = Vec::new();
            cmd.push(String::from_str("pacman"));
            cmd.push(String::from_str("-Rns"));
            cmd.push(c.name.clone());
            if c.companion {
                cmd.push(c.name.clone().concat("-debug"));
                assert(cmd.deep_view() =~= seq![
                    "pacman"@,
                    "-Rns"@,
                    self.conflicts.deep_view()[i as int].name,
                    self.conflicts.deep_view()[i as int].name + "-debug"@,
                ]);
            } else {
                assert(cmd.deep_view() =~= seq![
                    "pacman"@,
                    "-Rns"@,
                    self.conflicts.deep_view()[i as int].name,
                ]);
            }
            push_noconfirm(cmd, self.confirm)
        } else {
            pacman_uninstall(self.conflicts[i].name.as_str(), self.confirm)
        }
    }

    /// The cache entry directory for the fetched info record.
    pub fn entry_dir(&self) -> (r: String)
        requires
            self.info is Some,
        ensures
            r@ == cache_entry_dir_spec(
                self.cache_root@,
                self.package@,
                self.info->Some_0.version@,
                self.info->Some_0.last_modified as int,
            ),
    {
        let info = match &self.info {
            Some(info) => info,
            None => unreached(),
        };
        cache_entry_dir(
            self.cache_root.as_str(),
            self.package.as_str(),
            info.version.as_str(),
            info.last_modified,
        )
    }

    /// The build-and-install command run inside the cache entry, with
    /// `--noconfirm` exactly when the confirm policy is off.
    pub fn build_command(&self) -> (r: Vec<String>)
        ensures
            self.confirm ==> r.deep_view() == seq![
                "makepkg"@,
                "-si"@,
                "--needed"@,
                "--syncdeps"@,
            ],
            !self.confirm ==> r.deep_view() == seq![
                "makepkg"@,
                "-si"@,
                "--noconfirm"@,
                "--needed"@,
                "--syncdeps"@,
            ],
    {
        let mut cmd: Vec<String> = Vec::new();
        cmd.push(String::from_str("makepkg"));
        cmd.push(String::from_str("-si"));
        if !self.confirm {
            cmd.push(String::from_str("--noconfirm"));
        }
        cmd.push(String::from_str("--needed"));
        cmd.push(String::from_str("--syncdeps"));
        if self.confirm {
            assert(cmd.deep_view() =~= seq!["makepkg"@, "-si"@, "--needed"@, "--syncdeps"@]);
        } else {
            assert(cmd.deep_view() =~= seq![
                "makepkg"@,
                "-si"@,
                "--noconfirm"@,
                "--needed"@,
                "--syncdeps"@,
            ]);
        }
        cmd
    }
}

/// The command that extracts a downloaded build-source archive in place,
/// stripping its top-level directory component.
pub fn extract_command(archive: &str) -> (r: Vec<String>)
    ensures
        r.deep_view() == seq!["tar"@, "-xzf"@, archive@, "--strip-components=1"@],
{
    let mut cmd: Vec<String> = Vec::new();
    cmd.push(String::from_str("tar"));
    cmd.push(String::from_str("-xzf"));
    cmd.push(archive.to_owned());
    cmd.push(String::from_str("--strip-components=1"));
    assert(cmd.deep_view() =~= seq!["tar"@, "-xzf"@, archive@, "--strip-components=1"@]);
    cmd
}

/// What a 1-based index typed at the search-fallback prompt selects, over
/// a listing of native results followed by community results.
#[derive(Debug, Clone, Copy, PartialEq, Eq, Structural)]
pub enum Selection {
    /// Index zero: nothing, the prompt is cancelled.
    Cancel,
    /// A native result, by position in the native listing.
    Repo(usize),
    /// A community result, by position in the community listing.
    Aur(usize),
    /// Beyond both listings.
    OutOfRange,
}

/// Resolves a 1-based prompt index against a shared contiguous listing of
/// `n_repo` native results followed by `n_aur` community results.
pub fn select_index(n_repo: usize, n_aur: usize, choice: usize) -> (r: Selection)
    ensures
        choice == 0 ==> r == Selection::Cancel,
        1 <= choice <= n_repo ==> r == Selection::Repo((choice - 1) as usize),
        n_repo < choice <= n_repo + n_aur ==> r == Selection::Aur((choice - n_repo - 1) as usize),
        choice > n_repo + n_aur ==> r == Selection::OutOfRange,
{
    if choice == 0 {
        Selection::Cancel
    } else if choice <= n_repo {
        Selection::Repo(choice - 1)
    } else if choice - n_repo <= n_aur {
        Selection::Aur(choice - n_repo - 1)
    } else {
        Selection::OutOfRange
    }
}

/// At most the first `max` results of a listing.
pub fn limit_results<T>(v: Vec<T>, max: usize) -> (r: Vec<T>)
    ensures
        v@.len() <= max ==> r@ == v@,
        v@.len() > max ==> r@ == v@.take(max as int),
{
    let mut v = v;
    v.truncate(max);
    v
}

/// The actions a machine asks for, starting from `m`, as the answers in
/// `es` come back one by one.
pub open spec fn machine_trace(m: MachineV, es: Seq<EventV>) -> Seq<Action>
    decreases es.len(),
{
    match spec_next_action(m) {
        None => Seq::<Action>::empty(),
        Some(a) => if es.len() == 0 {
            seq![a]
        } else {
            seq![a] + machine_trace(spec_step(m, es[0]), es.drop_first())
        },
    }
}

/// Once the native source owns the name, the community source is never
/// queried.
proof fn lemma_native_owned_no_community(m: MachineV, es: Seq<EventV>)
    requires
        m.phase matches Phase::NativeInstall || m.phase matches Phase::Done(_),
    ensures
        forall|k: int|
            0 <= k < machine_trace(m, es).len() ==> machine_trace(m, es)[k]
                != Action::SearchCommunity,
    decreases es.len(),
{
    match m.phase {
        Phase::NativeInstall => {
            if es.len() > 0 {
                lemma_native_owned_no_community(spec_step(m, es[0]), es.drop_first());
            }
        },
        _ => {},
    }
}

/// A requested name that exists natively never triggers a community
/// search: whatever events follow, the machine's trace holds no
/// [`Action::SearchCommunity`].
pub proof fn lemma_native_short_circuit(m: MachineV, es: Seq<EventV>)
    requires
        m.phase == Phase::QueryNative,
    ensures
        forall|k: int|
            0 <= k < machine_trace(spec_step(m, EventV::NativeExists(true)), es).len()
                ==> machine_trace(spec_step(m, EventV::NativeExists(true)), es)[k]
                != Action::SearchCommunity,
{
    lemma_native_owned_no_community(spec_step(m, EventV::NativeExists(true)), es);
}

proof fn lemma_past_download(m: MachineV, es: Seq<EventV>)
    requires
        m.phase matches Phase::Build || m.phase matches Phase::Done(_),
    ensures
        forall|k: int|
            0 <= k < machine_trace(m, es).len() ==> machine_trace(m, es)[k]
                != Action::DownloadExtract,
    decreases es.len(),
{
    match m.phase {
        Phase::Build => {
            if es.len() > 0 {
                lemma_past_download(spec_step(m, es[0]), es.drop_first());
            }
        },
        _ => {},
    }
}

/// If the cache entry directory already exists, the download is never
/// invoked: whatever events follow the cache hit, the machine's trace
/// holds no [`Action::DownloadExtract`].
pub proof fn lemma_cache_hit_skips_download(m: MachineV, es: Seq<EventV>)
    requires
        m.phase == Phase::CacheCheck,
    ensures
        forall|k: int|
            0 <= k < machine_trace(spec_step(m, EventV::CacheDirExists(true)), es).len()
                ==> machine_trace(spec_step(m, EventV::CacheDirExists(true)), es)[k]
                != Action::DownloadExtract,
{
    lemma_past_download(spec_step(m, EventV::CacheDirExists(true)), es);
}

/// A declared conflict that the user declines aborts the install with a
/// conflict failure before anything else happens: the machine asks for no
/// further action at all, in particular never for the build.
pub proof fn lemma_declined_conflict_aborts(m: MachineV, es: Seq<EventV>)
    requires
        m.phase matches Phase::ConflictPrompt(_),
    ensures
        spec_step(m, EventV::ConflictAnswer(false)).phase == Phase::Done(
            Outcome::Failure(PackageError::Conflict),
        ),
        machine_trace(spec_step(m, EventV::ConflictAnswer(false)), es) == Seq::<Action>::empty(),
{
}

} // verus!
