//! The decisions of C packaging: the C target must be enabled and opted
//! into, the package is built for the host only, the selected library
//! builds both a shared and a static library, and the header and libraries
//! are copied into `include/` and `lib/`.
use vstd::prelude::*;
use crate::cli::CliError;

verus! {

/// The library target that a binding expansion selected, and which kinds
/// of library it builds.
#[derive(Debug, Clone, PartialEq, Eq)]
pub struct LibraryTarget {
    pub cdylib: bool,
    pub staticlib: bool,
}

impl LibraryTarget {
    /// Whether the target builds a shared library.
    pub fn builds_cdylib(&self) -> (res: bool)
        ensures
            res == self.cdylib,
    {
        self.cdylib
    }

    /// Whether the target builds a static library.
    pub fn builds_staticlib(&self) -> (res: bool)
        ensures
            res == self.staticlib,
    {
        self.staticlib
    }
}

/// The crate that bindings are made for: its workspace and package
/// manifests, the features it is built with, and its library target.
#[derive(Debug, PartialEq, Eq)]
pub struct BindingExpansion {
    pub workspace_manifest: String,
    pub package_manifest: String,
    pub features: Vec<String>,
    pub library: LibraryTarget,
}

impl BindingExpansion {
    /// An expansion of the package at `package_manifest` in the workspace
    /// at `workspace_manifest`, with `features`, whose library builds both
    /// kinds of library.
    pub fn fixture(workspace_manifest: &str, package_manifest: &str, features: Vec<String>) -> (res: Self)
        ensures
            res.workspace_manifest@ == workspace_manifest@,
            res.package_manifest@ == package_manifest@,
            res.features@ == features@,
            res.library.cdylib,
            res.library.staticlib,
    {
        BindingExpansion {
            workspace_manifest: crate::text::owned(workspace_manifest),
            package_manifest: crate::text::owned(package_manifest),
            features,
            library: LibraryTarget { cdylib: true, staticlib: true },
        }
    }

    /// The same expansion with a library that builds a static library iff
    /// `staticlib` and a shared one iff `cdylib`.
    pub fn fixture_outputs(self, staticlib: bool, cdylib: bool) -> (res: Self)
        ensures
            res.workspace_manifest == self.workspace_manifest,
            res.package_manifest == self.package_manifest,
            res.features == self.features,
            res.library.staticlib == staticlib,
            res.library.cdylib == cdylib,
    {
        BindingExpansion { library: LibraryTarget { cdylib, staticlib }, ..self }
    }

    /// The selected library target.
    pub fn selected_library(&self) -> (res: &LibraryTarget)
        ensures
            *res == self.library,
    {
        &self.library
    }
}

/// The error when the selected library lacks a kind of library.
pub open spec fn outputs_error_text() -> Seq<char> {
    "pack c requires the selected Rust library target to build both cdylib and staticlib"@
}

/// Succeeds iff the selected library builds both a shared and a static
/// library.
pub fn ensure_c_library_outputs(expansion: &BindingExpansion) -> (res: Result<(), CliError>)
    ensures
        res is Ok <==> (expansion.library.cdylib && expansion.library.staticlib),
        res matches Err(e) ==> e->status is None && e->command@ == outputs_error_text(),
{
    let library = expansion.selected_library();
    if library.builds_cdylib() && library.builds_staticlib() {
        return Ok(());
    }
    Err(CliError::CommandFailed {
        command: String::from_str("pack c requires the selected Rust library target to build both cdylib and staticlib"),
        status: None,
    })
}

/// The error for a cargo target chosen on the command line.
pub open spec fn target_flag_text(target: Seq<char>) -> Seq<char> {
    "pack c is host-only; remove cargo --target '"@ + target + "'"@
}

/// The error for a cargo target chosen in the build configuration.
pub open spec fn build_target_text(target: Seq<char>) -> Seq<char> {
    "pack c is host-only; remove cargo build.target '"@ + target + "'"@
}

/// Succeeds iff cargo builds for the host: no `--target` is given and no
/// `build.target` is configured. The flag is reported before the setting.
pub fn ensure_c_pack_cargo_args_supported(target_selector: Option<&str>, configured_build_target: Option<&str>) -> (res: Result<(), CliError>)
    ensures
        res is Ok <==> (target_selector is None && configured_build_target is None),
        res matches Err(e) ==> e->status is None && e->command@ == (match target_selector {
                Some(t) => target_flag_text(t@),
                None => build_target_text(configured_build_target->0@),
            }),
{
    if let Some(target) = target_selector {
        return Err(CliError::CommandFailed {
            command: crate::text::cat3("pack c is host-only; remove cargo --target '", target, "'"),
            status: None,
        });
    }
    if let Some(target) = configured_build_target {
        return Err(CliError::CommandFailed {
            command: crate::text::cat3("pack c is host-only; remove cargo build.target '", target, "'"),
            status: None,
        });
    }
    Ok(())
}

/// The error when the C target is disabled in the configuration.
pub open spec fn disabled_text() -> Seq<char> {
    "targets.c.enabled = false"@
}

/// The error when the experimental C target was not opted into.
pub open spec fn experimental_text() -> Seq<char> {
    "c is experimental, use --experimental or add \"c\" to experimental"@
}

/// Succeeds iff C packaging may start: the C target is enabled in the
/// configuration (`c_enabled`) and selected for processing, which for an
/// experimental target takes an opt-in (`c_selected`). A disabled target
/// is reported before a missing opt-in.
pub fn ensure_c_pack_enabled(c_enabled: bool, c_selected: bool) -> (res: Result<(), CliError>)
    ensures
        res is Ok <==> (c_enabled && c_selected),
        res matches Err(e) ==> e->status is None && e->command@ == (if !c_enabled {
            disabled_text()
        } else {
            experimental_text()
        }),
{
    if !c_enabled {
        return Err(CliError::CommandFailed { command: String::from_str("targets.c.enabled = false"), status: None });
    }
    if !c_selected {
        return Err(CliError::CommandFailed {
            command: String::from_str("c is experimental, use --experimental or add \"c\" to experimental"),
            status: None,
        });
    }
    Ok(())
}

/// The error when the host platform has no known library file names.
pub open spec fn unsupported_host_text() -> Seq<char> {
    "pack c is unsupported on this host platform"@
}

/// The library file names of the host platform, or the error that the host
/// is not supported.
pub fn require_host_platform(file_names: Option<LibraryFileNames>) -> (res: Result<LibraryFileNames, CliError>)
    ensures
        file_names matches Some(f) ==> res == Ok::<LibraryFileNames, CliError>(f),
        file_names is None ==> (res matches Err(e) && e->status is None && e->command@ == unsupported_host_text()),
{
    match file_names {
        Some(f) => Ok(f),
        None => Err(CliError::CommandFailed {
            command: String::from_str("pack c is unsupported on this host platform"),
            status: None,
        }),
    }
}

/// A directory that C packaging reads from or writes to: the generated
/// output, its `include/` and `lib/` subdirectories, and the cargo profile
/// directory that holds the built libraries.
#[derive(Debug, PartialEq, Eq)]
pub enum CPackDir {
    Output,
    Include,
    Profile,
    Lib,
}

/// One file that C packaging copies.
#[derive(Debug, PartialEq, Eq)]
pub struct CPackCopy {
    pub from_dir: CPackDir,
    pub from_name: String,
    pub to_dir: CPackDir,
    pub to_name: String,
}

/// The file names that the host platform gives the libraries of one name:
/// shared library, static archive, and import library where the platform
/// has one.
#[derive(Debug, PartialEq, Eq)]
pub struct LibraryFileNames {
    pub shared: String,
    pub static_archive: String,
    pub import: Option<String>,
}

/// Whether `c` copies `from_name` in `from_dir` to `to_name` in `to_dir`.
pub open spec fn copies(c: CPackCopy, from_dir: CPackDir, from_name: Seq<char>, to_dir: CPackDir, to_name: Seq<char>) -> bool {
    &&& c.from_dir == from_dir
    &&& c.from_name@ == from_name
    &&& c.to_dir == to_dir
    &&& c.to_name@ == to_name
}

/// Whether `cs` are the copies that assemble the C package of
/// `library_name` from the libraries built under the artifact names
/// `artifact`, in order: the header, the shared library, the static
/// archive, and the import library where both names have one.
pub open spec fn package_copies(library_name: Seq<char>, artifact: LibraryFileNames, library: LibraryFileNames, cs: Seq<CPackCopy>) -> bool {
    &&& cs.len() == if artifact.import is Some && library.import is Some { 4int } else { 3int }
    &&& copies(cs[0], CPackDir::Output, "boltffi.h"@, CPackDir::Include, library_name + ".h"@)
    &&& copies(cs[1], CPackDir::Profile, artifact.shared@, CPackDir::Lib, library.shared@)
    &&& copies(cs[2], CPackDir::Profile, artifact.static_archive@, CPackDir::Lib, library.static_archive@)
    &&& cs.len() == 4 ==> copies(cs[3], CPackDir::Profile, artifact.import->0@, CPackDir::Lib, library.import->0@)
}

/// The copies that assemble the C package of `library_name` from the
/// libraries built under the artifact name: the generated `boltffi.h`
/// becomes `include/<library_name>.h`; the shared library and the static
/// archive go to `lib/` under the library's names; the import library goes
/// too where the platform names one for both.
pub fn c_package_copies(library_name: &str, artifact: &LibraryFileNames, library: &LibraryFileNames) -> (res: Vec<CPackCopy>)
    ensures
        package_copies(library_name@, *artifact, *library, res@),
{
    let mut res: Vec<CPackCopy> = Vec::new();
    res.push(CPackCopy {
        from_dir: CPackDir::Output,
        from_name: String::from_str("boltffi.h"),
        to_dir: CPackDir::Include,
        to_name: crate::text::cat2(library_name, ".h"),
    });
    res.push(CPackCopy {
        from_dir: CPackDir::Profile,
        from_name: artifact.shared.clone(),
        to_dir: CPackDir::Lib,
        to_name: library.shared.clone(),
    });
    res.push(CPackCopy {
        from_dir: CPackDir::Profile,
        from_name: artifact.static_archive.clone(),
        to_dir: CPackDir::Lib,
        to_name: library.static_archive.clone(),
    });
    if let (Some(source_name), Some(destination_name)) = (&artifact.import, &library.import) {
        res.push(CPackCopy {
            from_dir: CPackDir::Profile,
            from_name: source_name.clone(),
            to_dir: CPackDir::Lib,
            to_name: destination_name.clone(),
        });
    }
    res
}

/// Where a run of C packaging stands: what it waits for next.
#[derive(Debug, PartialEq, Eq)]
pub enum PackCPhase {
    /// Waits for whether the C target is enabled and opted into.
    Admit,
    /// Waits for the cargo target that the build arguments select.
    CheckCargo,
    /// Waits for the library target of the binding expansion.
    CheckOutputs,
    /// Waits for the header to be generated.
    Generating,
    /// Waits for the library file names of the host platform.
    ResolveHost,
    /// Waits for the build of the libraries; then `copies` are made.
    Building { copies: Vec<CPackCopy> },
    /// Waits for the directories to be made and the files copied.
    Packaging,
    /// The package is assembled.
    Done,
    /// A check failed.
    Failed,
}

/// A run of C packaging: the library's name, whether the header is
/// regenerated and whether the libraries are built, and where the run stands.
#[derive(Debug, PartialEq, Eq)]
pub struct PackCState {
    pub library_name: String,
    pub regenerate: bool,
    pub no_build: bool,
    pub phase: PackCPhase,
}

/// What the last action gave.
#[derive(Debug, PartialEq, Eq)]
pub enum PackCEvent {
    /// The configuration: whether the C target is enabled, and whether it
    /// is selected for processing (opted into, since it is experimental).
    Begin { c_enabled: bool, c_selected: bool },
    /// The cargo target given by `--target` and by `build.target`.
    CargoResolved { target_selector: Option<String>, configured_build_target: Option<String> },
    /// The library target that the binding expansion selected.
    ExpansionResolved { library: LibraryTarget },
    /// The header was generated.
    Generated,
    /// The host's file names for the artifact and for the library, where
    /// the host platform is known.
    HostResolved { names: Option<(LibraryFileNames, LibraryFileNames)> },
    /// The build ran; `success` says whether it built the host libraries.
    Built { success: bool },
    /// The directories were made and every file copied.
    Packaged,
}

/// Why C packaging stopped.
#[derive(Debug, PartialEq, Eq)]
pub enum PackCFailure {
    /// A check refused the run.
    Check(CliError),
    /// The build of the host libraries failed.
    BuildFailed,
}

/// What the caller does next.
#[derive(Debug, PartialEq, Eq)]
pub enum PackCAction {
    /// Resolve cargo from the build arguments and report its targets.
    ResolveCargo,
    /// Resolve the binding expansion and report its library target.
    ResolveExpansion,
    /// Generate the C header.
    Generate,
    /// Report the host platform's library file names.
    ResolveHost,
    /// Build the shared and static libraries.
    Build,
    /// Make `include/` and `lib/` and make these copies, in order.
    Package(Vec<CPackCopy>),
    /// Packaging is done.
    Finish,
    /// Packaging stopped.
    Fail(PackCFailure),
    /// The event does not answer what the run waits for: nothing to do.
    Wait,
}

/// How far a phase is along the run.
pub open spec fn rank(p: PackCPhase) -> int {
    match p {
        PackCPhase::Admit => 0,
        PackCPhase::CheckCargo => 1,
        PackCPhase::CheckOutputs => 2,
        PackCPhase::Generating => 3,
        PackCPhase::ResolveHost => 4,
        PackCPhase::Building { .. } => 5,
        PackCPhase::Packaging => 6,
        PackCPhase::Done => 7,
        PackCPhase::Failed => -1,
    }
}

/// Whether `t` and `a` are the next state and action of `s` on event `e`.
pub open spec fn step_rel(s: PackCState, e: PackCEvent, t: PackCState, a: PackCAction) -> bool {
    &&& t.library_name@ == s.library_name@
    &&& t.regenerate == s.regenerate
    &&& t.no_build == s.no_build
    &&& match (s.phase, e) {
        (PackCPhase::Admit, PackCEvent::Begin { c_enabled, c_selected }) => {
            if c_enabled && c_selected {
                t.phase is CheckCargo && a is ResolveCargo
            } else {
                &&& t.phase is Failed
                &&& a matches PackCAction::Fail(PackCFailure::Check(err))
                &&& err->status is None
                &&& err->command@ == (if !c_enabled { disabled_text() } else { experimental_text() })
            }
        },
        (PackCPhase::CheckCargo, PackCEvent::CargoResolved { target_selector, configured_build_target }) => {
            if target_selector is None && configured_build_target is None {
                t.phase is CheckOutputs && a is ResolveExpansion
            } else {
                &&& t.phase is Failed
                &&& a matches PackCAction::Fail(PackCFailure::Check(err))
                &&& err->status is None
                &&& err->command@ == (match target_selector {
                    Some(x) => target_flag_text(x@),
                    None => build_target_text(configured_build_target->0@),
                })
            }
        },
        (PackCPhase::CheckOutputs, PackCEvent::ExpansionResolved { library }) => {
            if library.cdylib && library.staticlib {
                if s.regenerate {
                    t.phase is Generating && a is Generate
                } else {
                    t.phase is ResolveHost && a is ResolveHost
                }
            } else {
                &&& t.phase is Failed
                &&& a matches PackCAction::Fail(PackCFailure::Check(err))
                &&& err->status is None
                &&& err->command@ == outputs_error_text()
            }
        },
        (PackCPhase::Generating, PackCEvent::Generated) => t.phase is ResolveHost && a is ResolveHost,
        (PackCPhase::ResolveHost, PackCEvent::HostResolved { names }) => match names {
            Some((art, lib)) => {
                if s.no_build {
                    &&& t.phase is Packaging
                    &&& a matches PackCAction::Package(cs) && package_copies(s.library_name@, art, lib, cs@)
                } else {
                    &&& t.phase matches PackCPhase::Building { copies: cs } && package_copies(s.library_name@, art, lib, cs@)
                    &&& a is Build
                }
            },
            None => {
                &&& t.phase is Failed
                &&& a matches PackCAction::Fail(PackCFailure::Check(err))
                &&& err->status is None
                &&& err->command@ == unsupported_host_text()
            },
        },
        (PackCPhase::Building { copies: cs }, PackCEvent::Built { success }) => {
            if success {
                t.phase is Packaging && a == PackCAction::Package(cs)
            } else {
                t.phase is Failed && a == PackCAction::Fail(PackCFailure::BuildFailed)
            }
        },
        (PackCPhase::Packaging, PackCEvent::Packaged) => t.phase is Done && a is Finish,
        (p, _) => t.phase == p && a is Wait,
    }
}

impl PackCState {
    /// A run of C packaging for `library_name`, before anything is known.
    pub fn new(library_name: String, regenerate: bool, no_build: bool) -> (res: Self)
        ensures
            res.library_name == library_name,
            res.regenerate == regenerate,
            res.no_build == no_build,
            res.phase is Admit,
    {
        PackCState { library_name, regenerate, no_build, phase: PackCPhase::Admit }
    }

    /// The next state and action of the run on `event`.
    pub fn step(self, event: PackCEvent) -> (res: (PackCState, PackCAction))
        ensures
            step_rel(self, event, res.0, res.1),
    {
        let PackCState { library_name, regenerate, no_build, phase } = self;
        match (phase, event) {
            (PackCPhase::Admit, PackCEvent::Begin { c_enabled, c_selected }) => {
                match ensure_c_pack_enabled(c_enabled, c_selected) {
                    Ok(()) => (PackCState { library_name, regenerate, no_build, phase: PackCPhase::CheckCargo }, PackCAction::ResolveCargo),
                    Err(e) => (PackCState { library_name, regenerate, no_build, phase: PackCPhase::Failed }, PackCAction::Fail(PackCFailure::Check(e))),
                }
            },
            (PackCPhase::CheckCargo, PackCEvent::CargoResolved { target_selector, configured_build_target }) => {
                let ts = match &target_selector {
                    Some(x) => Some(x.as_str()),
                    None => None,
                };
                let cbt = match &configured_build_target {
                    Some(x) => Some(x.as_str()),
                    None => None,
                };
                match ensure_c_pack_cargo_args_supported(ts, cbt) {
                    Ok(()) => (PackCState { library_name, regenerate, no_build, phase: PackCPhase::CheckOutputs }, PackCAction::ResolveExpansion),
                    Err(e) => (PackCState { library_name, regenerate, no_build, phase: PackCPhase::Failed }, PackCAction::Fail(PackCFailure::Check(e))),
                }
            },
            (PackCPhase::CheckOutputs, PackCEvent::ExpansionResolved { library }) => {
                if library.builds_cdylib() && library.builds_staticlib() {
                    if regenerate {
                        (PackCState { library_name, regenerate, no_build, phase: PackCPhase::Generating }, PackCAction::Generate)
                    } else {
                        (PackCState { library_name, regenerate, no_build, phase: PackCPhase::ResolveHost }, PackCAction::ResolveHost)
                    }
                } else {
                    let e = CliError::CommandFailed {
                        command: String::from_str("pack c requires the selected Rust library target to build both cdylib and staticlib"),
                        status: None,
                    };
                    (PackCState { library_name, regenerate, no_build, phase: PackCPhase::Failed }, PackCAction::Fail(PackCFailure::Check(e)))
                }
            },
            (PackCPhase::Generating, PackCEvent::Generated) => {
                (PackCState { library_name, regenerate, no_build, phase: PackCPhase::ResolveHost }, PackCAction::ResolveHost)
            },
            (PackCPhase::ResolveHost, PackCEvent::HostResolved { names }) => {
                match names {
                    Some((art, lib)) => {
                        let cs = c_package_copies(library_name.as_str(), &art, &lib);
                        if no_build {
                            (PackCState { library_name, regenerate, no_build, phase: PackCPhase::Packaging }, PackCAction::Package(cs))
                        } else {
                            (PackCState { library_name, regenerate, no_build, phase: PackCPhase::Building { copies: cs } }, PackCAction::Build)
                        }
                    },
                    None => {
                        let e = CliError::CommandFailed {
                            command: String::from_str("pack c is unsupported on this host platform"),
                            status: None,
                        };
                        (PackCState { library_name, regenerate, no_build, phase: PackCPhase::Failed }, PackCAction::Fail(PackCFailure::Check(e)))
                    },
                }
            },
            (PackCPhase::Building { copies }, PackCEvent::Built { success }) => {
                if success {
                    (PackCState { library_name, regenerate, no_build, phase: PackCPhase::Packaging }, PackCAction::Package(copies))
                } else {
                    (PackCState { library_name, regenerate, no_build, phase: PackCPhase::Failed }, PackCAction::Fail(PackCFailure::BuildFailed))
                }
            },
            (PackCPhase::Packaging, PackCEvent::Packaged) => {
                (PackCState { library_name, regenerate, no_build, phase: PackCPhase::Done }, PackCAction::Finish)
            },
            (phase, _) => (PackCState { library_name, regenerate, no_build, phase }, PackCAction::Wait),
        }
    }
}

/// Whether `ss`, `es` and `acts` are a run of C packaging from its start:
/// state `ss[i]` met event `es[i]` and gave state `ss[i + 1]` and action
/// `acts[i]`.
pub open spec fn is_run(ss: Seq<PackCState>, es: Seq<PackCEvent>, acts: Seq<PackCAction>) -> bool {
    &&& ss.len() == es.len() + 1
    &&& acts.len() == es.len()
    &&& ss[0].phase is Admit
    &&& forall|i: int| 0 <= i < es.len() ==> step_rel(#[trigger] ss[i], es[i], ss[i + 1], acts[i])
}

/// Whether, among the first `k` events, the C target was enabled and
/// opted into.
pub open spec fn admitted(es: Seq<PackCEvent>, k: int) -> bool {
    exists|i: int| 0 <= i < k && #[trigger] es[i] == PackCEvent::Begin { c_enabled: true, c_selected: true }
}

/// Whether, among the first `k` events, cargo was found to build for the
/// host: no `--target` and no `build.target`.
pub open spec fn host_only(es: Seq<PackCEvent>, k: int) -> bool {
    exists|i: int| 0 <= i < k && #[trigger] es[i] == PackCEvent::CargoResolved { target_selector: None, configured_build_target: None }
}

/// Whether, among the first `k` events, the selected library was found to
/// build both a shared and a static library.
pub open spec fn builds_both(es: Seq<PackCEvent>, k: int) -> bool {
    exists|i: int| 0 <= i < k && (#[trigger] es[i] matches PackCEvent::ExpansionResolved { library } && library.cdylib && library.staticlib)
}

/// Whether, among the first `k` events, the host's file names were found
/// and `cs` are the package's copies for them.
pub open spec fn host_copies(es: Seq<PackCEvent>, k: int, name: Seq<char>, cs: Seq<CPackCopy>) -> bool {
    exists|i: int| 0 <= i < k && (#[trigger] es[i] matches PackCEvent::HostResolved { names: Some((a, l)) } && package_copies(name, a, l, cs))
}

/// Whether, among the first `k` actions, the package's copies for the
/// host's file names were asked for.
pub open spec fn copies_asked(es: Seq<PackCEvent>, acts: Seq<PackCAction>, k: int, name: Seq<char>) -> bool {
    exists|j: int| 0 <= j < k && (#[trigger] acts[j] matches PackCAction::Package(cs) && host_copies(es, k, name, cs@))
}

spec fn run_inv(ss: Seq<PackCState>, es: Seq<PackCEvent>, acts: Seq<PackCAction>, k: int) -> bool {
    let name = ss[0].library_name@;
    &&& ss[k].library_name@ == name
    &&& rank(ss[k].phase) >= 1 ==> admitted(es, k)
    &&& rank(ss[k].phase) >= 2 ==> host_only(es, k)
    &&& rank(ss[k].phase) >= 3 ==> builds_both(es, k)
    &&& (ss[k].phase matches PackCPhase::Building { copies: cs } ==> host_copies(es, k, name, cs@))
    &&& rank(ss[k].phase) >= 6 ==> copies_asked(es, acts, k, name)
}

proof fn lemma_run_inv(ss: Seq<PackCState>, es: Seq<PackCEvent>, acts: Seq<PackCAction>, k: int)
    requires
        is_run(ss, es, acts),
        0 <= k <= es.len(),
    ensures
        run_inv(ss, es, acts, k),
    decreases k,
{
    if k > 0 {
        let p = k - 1;
        lemma_run_inv(ss, es, acts, p);
        let name = ss[0].library_name@;
        assert(step_rel(ss[p], es[p], ss[k], acts[p]));
        if admitted(es, p) {
            let i = choose|i: int| 0 <= i < p && #[trigger] es[i] == PackCEvent::Begin { c_enabled: true, c_selected: true };
            assert(es[i] == PackCEvent::Begin { c_enabled: true, c_selected: true });
        }
        if host_only(es, p) {
            let i = choose|i: int| 0 <= i < p && #[trigger] es[i] == PackCEvent::CargoResolved { target_selector: None, configured_build_target: None };
            assert(es[i] == PackCEvent::CargoResolved { target_selector: None, configured_build_target: None });
        }
        if builds_both(es, p) {
            let i = choose|i: int| 0 <= i < p && (#[trigger] es[i] matches PackCEvent::ExpansionResolved { library } && library.cdylib && library.staticlib);
            assert(es[i] matches PackCEvent::ExpansionResolved { library } && library.cdylib && library.staticlib);
        }
        assert forall|cs: Seq<CPackCopy>| host_copies(es, p, name, cs) implies host_copies(es, k, name, cs) by {
            let i = choose|i: int| 0 <= i < p && (#[trigger] es[i] matches PackCEvent::HostResolved { names: Some((a, l)) } && package_copies(name, a, l, cs));
            assert(es[i] matches PackCEvent::HostResolved { names: Some((a, l)) } && package_copies(name, a, l, cs));
        }
        if copies_asked(es, acts, p, name) {
            let j = choose|j: int| 0 <= j < p && (#[trigger] acts[j] matches PackCAction::Package(cs) && host_copies(es, p, name, cs@));
            assert(acts[j] matches PackCAction::Package(cs) && host_copies(es, k, name, cs@));
        }
        match (ss[p].phase, es[p]) {
            (PackCPhase::Admit, PackCEvent::Begin { c_enabled, c_selected }) => {
                if c_enabled && c_selected {
                    assert(es[p] == PackCEvent::Begin { c_enabled: true, c_selected: true });
                }
            },
            (PackCPhase::CheckCargo, PackCEvent::CargoResolved { target_selector, configured_build_target }) => {
                if target_selector is None && configured_build_target is None {
                    assert(es[p] == PackCEvent::CargoResolved { target_selector: None, configured_build_target: None });
                }
            },
            (PackCPhase::CheckOutputs, PackCEvent::ExpansionResolved { library }) => {
                assert(es[p] matches PackCEvent::ExpansionResolved { library } && (library.cdylib && library.staticlib ==> library.cdylib && library.staticlib));
            },
            (PackCPhase::ResolveHost, PackCEvent::HostResolved { names }) => {
                if let Some((a, l)) = names {
                    if ss[p].no_build {
                        let cs = acts[p]->Package_0;
                        assert(package_copies(name, a, l, cs@));
                        assert(es[p] matches PackCEvent::HostResolved { names: Some((a2, l2)) } && package_copies(name, a2, l2, cs@));
                        assert(host_copies(es, k, name, cs@));
                        assert(acts[p] matches PackCAction::Package(c2) && host_copies(es, k, name, c2@));
                    } else {
                        let cs = ss[k].phase->Building_copies;
                        assert(es[p] matches PackCEvent::HostResolved { names: Some((a2, l2)) } && package_copies(name, a2, l2, cs@));
                    }
                }
            },
            (PackCPhase::Building { copies: cs }, PackCEvent::Built { success }) => {
                if success {
                    assert(host_copies(es, k, name, cs@));
                    assert(acts[p] matches PackCAction::Package(c2) && host_copies(es, k, name, c2@));
                }
            },
            _ => {},
        }
    }
}

/// C packaging finishes only after every check passed and the package's
/// copies were made: if a run gives `Finish` at step `m`, then before it
/// the C target was enabled and opted into, cargo built for the host only,
/// the library built both a shared and a static library, the host's file
/// names were known, and the copies of `c_package_copies` for them were
/// asked for; `Finish` answers the report that they were made.
pub proof fn law_packaging_finishes_only_after_every_check(ss: Seq<PackCState>, es: Seq<PackCEvent>, acts: Seq<PackCAction>, m: int)
    requires
        is_run(ss, es, acts),
        0 <= m < acts.len(),
        acts[m] is Finish,
    ensures
        admitted(es, m),
        host_only(es, m),
        builds_both(es, m),
        copies_asked(es, acts, m, ss[0].library_name@),
        es[m] is Packaged,
{
    lemma_run_inv(ss, es, acts, m);
    assert(step_rel(ss[m], es[m], ss[m + 1], acts[m]));
}

/// Whether, among the first `k` steps, the run was generating the header
/// and heard that it was generated.
pub open spec fn header_generated(ss: Seq<PackCState>, es: Seq<PackCEvent>, k: int) -> bool {
    exists|i: int| 0 <= i < k && (#[trigger] ss[i]).phase is Generating && es[i] is Generated
}

/// Whether, among the first `k` steps, the run was building and heard that
/// the build succeeded.
pub open spec fn libraries_built(ss: Seq<PackCState>, es: Seq<PackCEvent>, k: int) -> bool {
    exists|i: int| 0 <= i < k && (#[trigger] ss[i]).phase is Building && es[i] == PackCEvent::Built { success: true }
}

spec fn options_inv(ss: Seq<PackCState>, es: Seq<PackCEvent>, acts: Seq<PackCAction>, k: int) -> bool {
    &&& ss[k].regenerate == ss[0].regenerate
    &&& ss[k].no_build == ss[0].no_build
    &&& (ss[0].regenerate && rank(ss[k].phase) >= 4 ==> header_generated(ss, es, k))
    &&& (!ss[0].regenerate ==> rank(ss[k].phase) != 3)
    &&& (!ss[0].no_build && rank(ss[k].phase) >= 6 ==> libraries_built(ss, es, k))
    &&& (ss[0].no_build ==> rank(ss[k].phase) != 5)
    &&& forall|i: int| 0 <= i < k ==> ((#[trigger] acts[i]) is Generate ==> ss[0].regenerate)
    &&& forall|i: int| 0 <= i < k ==> ((#[trigger] acts[i]) is Build ==> !ss[0].no_build)
}

#[verifier::rlimit(30)]
proof fn lemma_options_inv(ss: Seq<PackCState>, es: Seq<PackCEvent>, acts: Seq<PackCAction>, k: int)
    requires
        is_run(ss, es, acts),
        0 <= k <= es.len(),
    ensures
        options_inv(ss, es, acts, k),
    decreases k,
{
    if k > 0 {
        let p = k - 1;
        lemma_options_inv(ss, es, acts, p);
        assert(step_rel(ss[p], es[p], ss[k], acts[p]));
        if header_generated(ss, es, p) {
            let i = choose|i: int| 0 <= i < p && (#[trigger] ss[i]).phase is Generating && es[i] is Generated;
            assert(ss[i].phase is Generating && es[i] is Generated);
        }
        if libraries_built(ss, es, p) {
            let i = choose|i: int| 0 <= i < p && (#[trigger] ss[i]).phase is Building && es[i] == PackCEvent::Built { success: true };
            assert(ss[i].phase is Building && es[i] == PackCEvent::Built { success: true });
        }
        if ss[p].phase is Generating && es[p] is Generated {
            assert(ss[p].phase is Generating && es[p] is Generated);
        }
        if ss[p].phase is Building && es[p] == (PackCEvent::Built { success: true }) {
            assert(ss[p].phase is Building && es[p] == PackCEvent::Built { success: true });
        }
        assert forall|i: int| 0 <= i < k implies ((#[trigger] acts[i]) is Generate ==> ss[0].regenerate) by {
            if i == p {
                assert(step_rel(ss[p], es[p], ss[k], acts[p]));
            }
        }
        assert forall|i: int| 0 <= i < k implies ((#[trigger] acts[i]) is Build ==> !ss[0].no_build) by {
            if i == p {
                assert(step_rel(ss[p], es[p], ss[k], acts[p]));
            }
        }
    }
}

/// The options of a run decide its generation and its build, and nothing
/// else does: a run that regenerates the header finishes only after the
/// header was generated, and one that does not never asks for it; a run
/// that builds finishes only after the build succeeded, and one given
/// `no_build` never asks for a build.
pub proof fn law_options_decide_generation_and_build(ss: Seq<PackCState>, es: Seq<PackCEvent>, acts: Seq<PackCAction>, m: int)
    requires
        is_run(ss, es, acts),
        0 <= m < acts.len(),
    ensures
        acts[m] is Finish && ss[0].regenerate ==> header_generated(ss, es, m),
        acts[m] is Finish && !ss[0].no_build ==> libraries_built(ss, es, m),
        acts[m] is Generate ==> ss[0].regenerate,
        acts[m] is Build ==> !ss[0].no_build,
{
    lemma_options_inv(ss, es, acts, m + 1);
    lemma_options_inv(ss, es, acts, m);
    assert(step_rel(ss[m], es[m], ss[m + 1], acts[m]));
}

/// A run that passed its checks asks for the header exactly when it
/// regenerates, whatever `no_build` says: after the library outputs pass,
/// the next action is `Generate` if the run regenerates and `ResolveHost`
/// otherwise.
pub proof fn law_generation_follows_regenerate(s: PackCState, library: LibraryTarget, t: PackCState, a: PackCAction)
    requires
        s.phase is CheckOutputs,
        library.cdylib && library.staticlib,
        step_rel(s, PackCEvent::ExpansionResolved { library }, t, a),
    ensures
        a is Generate <==> s.regenerate,
        a is ResolveHost <==> !s.regenerate,
{
}

} // verus!
