//! A project orchestrator for game engines: it discovers Unreal, Unity and
//! Godot projects on disk and describes the build and package command lines
//! their toolchains expect. The manager owns the set of active backends,
//! chosen once from the global configuration, aggregates detection across
//! them, and routes requests to a backend by a case-insensitive name
//! prefix.

pub mod config;
pub mod engine;
pub mod engines;
pub mod error;
pub mod scan;
pub mod strutil;

use vstd::prelude::*;

verus! {

use crate::config::{GlobalConfig, ProjectConfig};
use crate::engine::{
    infos_view, invocation_opt_view, EngineType, GameEngine, HostOs, Invocation, InvocationView,
    ProjectInfo, ProjectInfoView,
};
use crate::config::ProjectConfigView;
use crate::engines::godot::GodotEngine;
use crate::engines::unity::UnityEngine;
use crate::engines::unreal::UnrealEngine;
use crate::error::Error;
use crate::scan::{path_exists, FsEntryView};
use crate::strutil::{ci_prefix, join_path, joined, lower_code, str_ci_prefix};

/// Which configured engine paths actually exist on disk, as observed at
/// manager construction time.
#[derive(Clone, Copy, PartialEq, Eq, Structural, Debug)]
pub struct EngineAvailability {
    pub unreal: bool,
    pub unity: bool,
    pub godot: bool,
}

/// One active backend: the closed sum of the supported engines.
#[derive(Debug)]
pub enum EngineBackend {
    Unreal(UnrealEngine),
    Unity(UnityEngine),
    Godot(GodotEngine),
}

impl EngineBackend {
    /// The tag of the engine this backend serves.
    pub open spec fn kind(&self) -> EngineType {
        match self {
            EngineBackend::Unreal(_) => EngineType::Unreal,
            EngineBackend::Unity(_) => EngineType::Unity,
            EngineBackend::Godot(_) => EngineType::Godot,
        }
    }

    /// The backend's place in the fixed activation order.
    pub open spec fn rank(&self) -> int {
        self.kind().rank()
    }

    /// The display name of the wrapped engine.
    pub open spec fn display_name(&self) -> Seq<char> {
        match self {
            EngineBackend::Unreal(e) => e.display_name(),
            EngineBackend::Unity(e) => e.display_name(),
            EngineBackend::Godot(e) => e.display_name(),
        }
    }

    /// What the wrapped engine detects in a walk.
    pub open spec fn detected(&self, entries: Seq<FsEntryView>) -> Seq<ProjectInfoView> {
        match self {
            EngineBackend::Unreal(e) => e.detected(entries),
            EngineBackend::Unity(e) => e.detected(entries),
            EngineBackend::Godot(e) => e.detected(entries),
        }
    }

    /// The wrapped engine's build command line.
    pub open spec fn build_invocation_view(
        &self,
        info: ProjectInfoView,
        config: ProjectConfigView,
        host: HostOs,
    ) -> Option<InvocationView> {
        match self {
            EngineBackend::Unreal(e) => e.build_invocation_spec(info, config, host),
            EngineBackend::Unity(e) => e.build_invocation_spec(info, config, host),
            EngineBackend::Godot(e) => e.build_invocation_spec(info, config, host),
        }
    }

    /// The wrapped engine's package command line.
    pub open spec fn package_invocation_view(
        &self,
        info: ProjectInfoView,
        config: ProjectConfigView,
        host: HostOs,
        output_dir: Seq<char>,
    ) -> Option<InvocationView> {
        match self {
            EngineBackend::Unreal(e) => e.package_invocation_spec(info, config, host, output_dir),
            EngineBackend::Unity(e) => e.package_invocation_spec(info, config, host, output_dir),
            EngineBackend::Godot(e) => e.package_invocation_spec(info, config, host, output_dir),
        }
    }

    /// Where the wrapped engine leaves a packaged artifact.
    pub open spec fn artifact_path_view(&self, info: ProjectInfoView, output_dir: Seq<char>) -> Seq<
        char,
    > {
        match self {
            EngineBackend::Unreal(e) => e.artifact_path_spec(info, output_dir),
            EngineBackend::Unity(e) => e.artifact_path_spec(info, output_dir),
            EngineBackend::Godot(e) => e.artifact_path_spec(info, output_dir),
        }
    }

    /// Every project a backend reports carries that backend's tag.
    pub proof fn detected_tagged(&self, entries: Seq<FsEntryView>)
        ensures
            forall|i: int|
                0 <= i < self.detected(entries).len() ==> (#[trigger] self.detected(
                    entries,
                )[i]).engine_type == self.kind(),
    {
        match self {
            EngineBackend::Unreal(e) => e.detected_tagged(entries),
            EngineBackend::Unity(e) => e.detected_tagged(entries),
            EngineBackend::Godot(e) => e.detected_tagged(entries),
        }
    }

    /// The backend's tag, as a value.
    pub fn engine_type(&self) -> (t: EngineType)
        ensures
            t == self.kind(),
    {
        match self {
            EngineBackend::Unreal(_) => EngineType::Unreal,
            EngineBackend::Unity(_) => EngineType::Unity,
            EngineBackend::Godot(_) => EngineType::Godot,
        }
    }

    /// The display name of the wrapped engine.
    pub fn name(&self) -> (r: &str)
        ensures
            r@ == self.display_name(),
    {
        match self {
            EngineBackend::Unreal(e) => e.name(),
            EngineBackend::Unity(e) => e.name(),
            EngineBackend::Godot(e) => e.name(),
        }
    }

    /// Detects this backend's projects below `search_dir`.
    pub fn detect_projects(&self, search_dir: &str) -> (r: Result<Vec<ProjectInfo>, Error>)
        ensures
            (r matches Ok(ps) ==> exists|es: Seq<FsEntryView>| infos_view(ps@) == self.detected(es)),
            (r matches Err(e) ==> e is Io),
    {
        match self {
            EngineBackend::Unreal(en) => {
                let r = en.detect_projects(search_dir);
                proof {
                    if r is Ok {
                        let es = choose|es: Seq<FsEntryView>|
                            infos_view(r->Ok_0@) == en.detected(es);
                        assert(infos_view(r->Ok_0@) == self.detected(es));
                    }
                }
                r
            },
            EngineBackend::Unity(en) => {
                let r = en.detect_projects(search_dir);
                proof {
                    if r is Ok {
                        let es = choose|es: Seq<FsEntryView>|
                            infos_view(r->Ok_0@) == en.detected(es);
                        assert(infos_view(r->Ok_0@) == self.detected(es));
                    }
                }
                r
            },
            EngineBackend::Godot(en) => {
                let r = en.detect_projects(search_dir);
                proof {
                    if r is Ok {
                        let es = choose|es: Seq<FsEntryView>|
                            infos_view(r->Ok_0@) == en.detected(es);
                        assert(infos_view(r->Ok_0@) == self.detected(es));
                    }
                }
                r
            },
        }
    }

    /// The command line that builds `info`, or `None` when nothing needs
    /// to run.
    pub fn build_invocation(&self, info: &ProjectInfo, config: &ProjectConfig, host: HostOs) -> (r:
        Option<Invocation>)
        ensures
            invocation_opt_view(r) == self.build_invocation_view(info@, config@, host),
    {
        match self {
            EngineBackend::Unreal(e) => e.build_invocation(info, config, host),
            EngineBackend::Unity(e) => e.build_invocation(info, config, host),
            EngineBackend::Godot(e) => e.build_invocation(info, config, host),
        }
    }

    /// The command line that packages `info` into `output_dir`, or `None`
    /// when nothing needs to run.
    pub fn package_invocation(
        &self,
        info: &ProjectInfo,
        config: &ProjectConfig,
        host: HostOs,
        output_dir: &str,
    ) -> (r: Option<Invocation>)
        ensures
            invocation_opt_view(r) == self.package_invocation_view(
                info@,
                config@,
                host,
                output_dir@,
            ),
    {
        match self {
            EngineBackend::Unreal(e) => e.package_invocation(info, config, host, output_dir),
            EngineBackend::Unity(e) => e.package_invocation(info, config, host, output_dir),
            EngineBackend::Godot(e) => e.package_invocation(info, config, host, output_dir),
        }
    }

    /// Where the packaged artifact of `info` is left under `output_dir`.
    pub fn artifact_path(&self, info: &ProjectInfo, output_dir: &str) -> (r: String)
        ensures
            r@ == self.artifact_path_view(info@, output_dir@),
    {
        match self {
            EngineBackend::Unreal(e) => e.artifact_path(info, output_dir),
            EngineBackend::Unity(e) => e.artifact_path(info, output_dir),
            EngineBackend::Godot(e) => e.artifact_path(info, output_dir),
        }
    }
}

/// The index of the first backend whose display name has `tag` as a
/// case-insensitive prefix.
pub open spec fn spec_lookup(bs: Seq<EngineBackend>, tag: Seq<char>) -> Option<int>
    decreases bs.len(),
{
    if bs.len() == 0 {
        None
    } else if ci_prefix(tag, bs[0].display_name()) {
        Some(0int)
    } else {
        match spec_lookup(bs.drop_first(), tag) {
            Some(i) => Some(i + 1),
            None => None,
        }
    }
}

/// When the first `i` backends do not match and backend `i` does, the
/// lookup lands on `i`.
proof fn lemma_lookup_first_match(bs: Seq<EngineBackend>, tag: Seq<char>, i: int)
    requires
        0 <= i < bs.len(),
        forall|j: int| 0 <= j < i ==> !ci_prefix(tag, (#[trigger] bs[j]).display_name()),
        ci_prefix(tag, bs[i].display_name()),
    ensures
        spec_lookup(bs, tag) == Some(i),
    decreases i,
{
    if i > 0 {
        assert forall|j: int| 0 <= j < i - 1 implies !ci_prefix(
            tag,
            (#[trigger] bs.drop_first()[j]).display_name(),
        ) by {
            assert(bs.drop_first()[j] == bs[j + 1]);
        }
        assert(bs.drop_first()[i - 1] == bs[i]);
        lemma_lookup_first_match(bs.drop_first(), tag, i - 1);
    }
}

/// When no backend matches, the lookup comes up empty.
proof fn lemma_lookup_none(bs: Seq<EngineBackend>, tag: Seq<char>)
    requires
        forall|j: int| 0 <= j < bs.len() ==> !ci_prefix(tag, (#[trigger] bs[j]).display_name()),
    ensures
        spec_lookup(bs, tag) is None,
    decreases bs.len(),
{
    if bs.len() > 0 {
        assert forall|j: int| 0 <= j < bs.drop_first().len() implies !ci_prefix(
            tag,
            (#[trigger] bs.drop_first()[j]).display_name(),
        ) by {
            assert(bs.drop_first()[j] == bs[j + 1]);
        }
        lemma_lookup_none(bs.drop_first(), tag);
    }
}

/// Projects appear in nondecreasing backend order.
pub open spec fn sorted_by_rank(ps: Seq<ProjectInfoView>) -> bool {
    forall|a: int, b: int|
        0 <= a < b < ps.len() ==> (#[trigger] ps[a]).engine_type.rank() <= (
        #[trigger] ps[b]).engine_type.rank()
}

/// How an aggregate detection result decomposes: one contribution per
/// backend, in order; each is either empty (that backend found nothing or
/// failed) or exactly what the backend detects in some walk; and every
/// contributed record carries its backend's tag.
pub open spec fn aggregated(bs: Seq<EngineBackend>, contribs: Seq<Seq<ProjectInfoView>>) -> bool {
    &&& contribs.len() == bs.len()
    &&& forall|j: int|
        0 <= j < bs.len() ==> ((#[trigger] contribs[j]) == Seq::<ProjectInfoView>::empty()
            || exists|es: Seq<FsEntryView>| contribs[j] == bs[j].detected(es))
    &&& forall|j: int, k: int|
        0 <= j < bs.len() && 0 <= k < contribs[j].len() ==> (#[trigger] contribs[j][k]).engine_type
            == bs[j].kind()
}

/// The main entry point for managing projects: owns the active backends,
/// in the fixed activation order, and the configuration they came from.
pub struct ProjectManager {
    engines: Vec<EngineBackend>,
    global_config: GlobalConfig,
}

impl ProjectManager {
    /// The active backends, in activation order.
    pub closed spec fn backends(&self) -> Seq<EngineBackend> {
        self.engines@
    }

    /// The configuration the manager was built from.
    pub closed spec fn config(&self) -> GlobalConfig {
        self.global_config
    }

    /// The backends are strictly ordered by rank: at most one per engine,
    /// Unreal before Unity before Godot.
    pub open spec fn wf(&self) -> bool {
        forall|i: int, j: int|
            0 <= i < j < self.backends().len() ==> (#[trigger] self.backends()[i]).rank() < (
            #[trigger] self.backends()[j]).rank()
    }

    /// The backends that a configuration and an availability observation
    /// activate: each engine whose path is configured and exists, in the
    /// fixed order.
    pub open spec fn expected_backends(config: GlobalConfig, avail: EngineAvailability) -> Seq<
        EngineBackend,
    > {
        (if config.engine_paths.unreal is Some && avail.unreal {
            seq![
                EngineBackend::Unreal(
                    UnrealEngine { engine_root: config.engine_paths.unreal->Some_0 },
                ),
            ]
        } else {
            Seq::<EngineBackend>::empty()
        }) + (if config.engine_paths.unity is Some && avail.unity {
            seq![
                EngineBackend::Unity(
                    UnityEngine { executable_path: config.engine_paths.unity->Some_0 },
                ),
            ]
        } else {
            Seq::<EngineBackend>::empty()
        }) + (if config.engine_paths.godot is Some && avail.godot {
            seq![
                EngineBackend::Godot(
                    GodotEngine { executable_path: config.engine_paths.godot->Some_0 },
                ),
            ]
        } else {
            Seq::<EngineBackend>::empty()
        })
    }

    /// A backend of a kind is present only when its path is configured and
    /// was observed to exist.
    pub proof fn lemma_expected_kinds(config: GlobalConfig, avail: EngineAvailability)
        ensures
            forall|i: int|
                0 <= i < Self::expected_backends(config, avail).len() ==> {
                    let b = #[trigger] Self::expected_backends(config, avail)[i];
                    &&& (b.kind() == EngineType::Unreal ==> config.engine_paths.unreal is Some
                        && avail.unreal)
                    &&& (b.kind() == EngineType::Unity ==> config.engine_paths.unity is Some
                        && avail.unity)
                    &&& (b.kind() == EngineType::Godot ==> config.engine_paths.godot is Some
                        && avail.godot)
                },
    {
    }

    /// Builds the manager from a configuration and an explicit record of
    /// which configured paths exist: exactly those engines are activated,
    /// in the fixed order.
    pub fn with_availability(global_config: GlobalConfig, avail: EngineAvailability) -> (r: Self)
        ensures
            r.backends() == Self::expected_backends(global_config, avail),
            r.config() == global_config,
            r.wf(),
    {
        let mut engines: Vec<EngineBackend> = Vec::new();
        if avail.unreal {
            if let Some(p) = &global_config.engine_paths.unreal {
                engines.push(EngineBackend::Unreal(UnrealEngine::new(p.clone())));
            }
        }
        if avail.unity {
            if let Some(p) = &global_config.engine_paths.unity {
                engines.push(EngineBackend::Unity(UnityEngine::new(p.clone())));
            }
        }
        if avail.godot {
            if let Some(p) = &global_config.engine_paths.godot {
                engines.push(EngineBackend::Godot(GodotEngine::new(p.clone())));
            }
        }
        let r = ProjectManager { engines, global_config };
        proof {
            assert(r.backends() =~= Self::expected_backends(global_config, avail));
        }
        r
    }

    /// Creates a new manager, activating each engine whose configured
    /// installation path exists on disk at this moment, in the fixed
    /// order. An engine with no configured path is never activated.
    pub fn new(global_config: GlobalConfig) -> (r: Self)
        ensures
            r.config() == global_config,
            r.wf(),
            exists|avail: EngineAvailability|
                r.backends() == #[trigger] Self::expected_backends(global_config, avail),
            global_config.engine_paths.unreal is None ==> (forall|i: int|
                0 <= i < r.backends().len() ==> (#[trigger] r.backends()[i]).kind()
                    != EngineType::Unreal),
            global_config.engine_paths.unity is None ==> (forall|i: int|
                0 <= i < r.backends().len() ==> (#[trigger] r.backends()[i]).kind()
                    != EngineType::Unity),
            global_config.engine_paths.godot is None ==> (forall|i: int|
                0 <= i < r.backends().len() ==> (#[trigger] r.backends()[i]).kind()
                    != EngineType::Godot),
    {
        let unreal_ok = match &global_config.engine_paths.unreal {
            Some(p) => path_exists(p.as_str()),
            None => false,
        };
        let unity_ok = match &global_config.engine_paths.unity {
            Some(p) => path_exists(p.as_str()),
            None => false,
        };
        let godot_ok = match &global_config.engine_paths.godot {
            Some(p) => path_exists(p.as_str()),
            None => false,
        };
        let avail = EngineAvailability { unreal: unreal_ok, unity: unity_ok, godot: godot_ok };
        let r = Self::with_availability(global_config, avail);
        proof {
            assert(r.backends() == Self::expected_backends(global_config, avail));
            Self::lemma_expected_kinds(global_config, avail);
        }
        r
    }

    /// How many backends are active.
    pub fn engine_count(&self) -> (n: usize)
        ensures
            n == self.backends().len(),
    {
        self.engines.len()
    }

    /// Looks an active backend up by a case-insensitive prefix of its
    /// display name; the first backend in activation order wins, and no
    /// match is not an error.
    pub fn get_engine(&self, type_tag: &str) -> (r: Option<&EngineBackend>)
        ensures
            ({
                let l = spec_lookup(self.backends(), type_tag@);
                &&& (l matches Some(idx) ==> (r matches Some(b) && 0 <= idx < self.backends().len()
                    && *b == self.backends()[idx]))
                &&& (l is None ==> r is None)
            }),
    {
        let mut i: usize = 0;
        while i < self.engines.len()
            invariant
                0 <= i <= self.engines@.len(),
                forall|j: int|
                    0 <= j < i ==> !ci_prefix(type_tag@, (#[trigger] self.engines@[j]).display_name()),
            decreases self.engines@.len() - i,
        {
            let name: &str = self.engines[i].name();
            if str_ci_prefix(type_tag, name) {
                proof {
                    lemma_lookup_first_match(self.backends(), type_tag@, i as int);
                }
                return Some(&self.engines[i]);
            }
            i += 1;
        }
        proof {
            lemma_lookup_none(self.backends(), type_tag@);
        }
        None
    }

    /// Detects projects with every active backend, in activation order,
    /// and concatenates the results. A backend whose detection fails
    /// contributes nothing and does not stop the others: the scan itself
    /// never fails.
    pub fn find_all_projects(&self, search_dir: &str) -> (r: Result<Vec<ProjectInfo>, Error>)
        ensures
            r is Ok,
            exists|contribs: Seq<Seq<ProjectInfoView>>|
                #[trigger] aggregated(self.backends(), contribs) && infos_view(r->Ok_0@)
                    == contribs.flatten(),
            self.wf() ==> sorted_by_rank(infos_view(r->Ok_0@)),
    {
        let mut all: Vec<ProjectInfo> = Vec::new();
        let ghost mut contribs: Seq<Seq<ProjectInfoView>> = Seq::empty();
        let mut i: usize = 0;
        proof {
            assert(infos_view(all@) =~= contribs.flatten());
        }
        while i < self.engines.len()
            invariant
                0 <= i <= self.engines@.len(),
                contribs.len() == i,
                forall|j: int|
                    0 <= j < i ==> ((#[trigger] contribs[j]) == Seq::<ProjectInfoView>::empty()
                        || exists|es: Seq<FsEntryView>| contribs[j] == self.engines@[j].detected(
                            es,
                        )),
                forall|j: int, k: int|
                    0 <= j < i && 0 <= k < contribs[j].len() ==> (
                    #[trigger] contribs[j][k]).engine_type == self.engines@[j].kind(),
                infos_view(all@) == contribs.flatten(),
                self.wf() ==> sorted_by_rank(infos_view(all@)),
                (self.wf() && i < self.engines@.len()) ==> (forall|k: int|
                    0 <= k < all@.len() ==> (#[trigger] infos_view(all@)[k]).engine_type.rank()
                        < self.engines@[i as int].rank()),
            decreases self.engines@.len() - i,
        {
            let ghost prev_all = all@;
            let backend = &self.engines[i];
            match backend.detect_projects(search_dir) {
                Ok(mut ps) => {
                    let ghost c = infos_view(ps@);
                    proof {
                        let es = choose|es: Seq<FsEntryView>| infos_view(ps@) == backend.detected(es);
                        backend.detected_tagged(es);
                        contribs.lemma_flatten_push(c);
                        contribs = contribs.push(c);
                    }
                    all.append(&mut ps);
                    proof {
                        assert(infos_view(all@) =~= infos_view(prev_all) + c);
                        if self.wf() {
                            assert(self.engines@[i as int].rank() == backend.rank());
                            assert forall|a: int, b: int| 0 <= a < b < all@.len() implies (
                            #[trigger] infos_view(all@)[a]).engine_type.rank() <= (
                            #[trigger] infos_view(all@)[b]).engine_type.rank() by {
                                if b >= prev_all.len() {
                                    assert(infos_view(all@)[b].engine_type == backend.kind());
                                    if a >= prev_all.len() {
                                        assert(infos_view(all@)[a].engine_type == backend.kind());
                                    } else {
                                        assert(infos_view(all@)[a] == infos_view(prev_all)[a]);
                                    }
                                } else {
                                    assert(infos_view(all@)[a] == infos_view(prev_all)[a]);
                                    assert(infos_view(all@)[b] == infos_view(prev_all)[b]);
                                }
                            }
                            if i + 1 < self.engines@.len() {
                                assert(self.backends()[i as int].rank() < self.backends()[i as int
                                    + 1].rank());
                                assert forall|k: int| 0 <= k < all@.len() implies (
                                #[trigger] infos_view(all@)[k]).engine_type.rank()
                                    < self.engines@[i as int + 1].rank() by {
                                    if k >= prev_all.len() {
                                        assert(infos_view(all@)[k].engine_type == backend.kind());
                                    } else {
                                        assert(infos_view(all@)[k] == infos_view(prev_all)[k]);
                                    }
                                }
                            }
                        }
                    }
                },
                Err(_) => {
                    proof {
                        contribs.lemma_flatten_push(Seq::<ProjectInfoView>::empty());
                        contribs = contribs.push(Seq::<ProjectInfoView>::empty());
                        assert(infos_view(all@) =~= contribs.flatten());
                        if self.wf() && i + 1 < self.engines@.len() {
                            assert(self.backends()[i as int].rank() < self.backends()[i as int
                                + 1].rank());
                        }
                    }
                },
            }
            i += 1;
        }
        proof {
            assert(aggregated(self.backends(), contribs));
        }
        Ok(all)
    }

    /// Computes the project-local configuration directory below
    /// `project_dir` and fails when it already exists on disk: an already
    /// initialised project is never touched again.
    pub fn check_uninitialized(project_dir: &str) -> (r: Result<String, Error>)
        ensures
            (r matches Ok(d) ==> d@ == joined(project_dir@, ".gph"@)),
            (r matches Err(e) ==> (e matches Error::AlreadyInitialized { path } && path@ == joined(
                project_dir@,
                ".gph"@,
            ))),
    {
        let gph_dir = join_path(project_dir, ".gph");
        if path_exists(gph_dir.as_str()) {
            Err(Error::AlreadyInitialized { path: gph_dir })
        } else {
            Ok(gph_dir)
        }
    }

    /// The configuration written for a freshly initialised project: the
    /// engine type of the first detected project, if any, and every other
    /// field unset.
    pub fn initial_config(projects: &Vec<ProjectInfo>) -> (r: ProjectConfig)
        ensures
            r.project_id is None,
            r.team_id is None,
            r.build_command is None,
            r.package_command is None,
            projects@.len() == 0 ==> r.engine_type is None,
            projects@.len() > 0 ==> r.engine_type == Some(projects@[0].engine_type),
    {
        let engine_type = if projects.len() > 0 {
            Some(projects[0].engine_type)
        } else {
            None
        };
        ProjectConfig {
            project_id: None,
            team_id: None,
            engine_type,
            build_command: None,
            package_command: None,
        }
    }
}

/// Looking an engine up by the tag `unity` singles out exactly the Unity
/// backend: whenever Unity is active the lookup lands on it, and when
/// Unity's path is not configured or does not exist nothing matches.
pub proof fn lemma_lookup_unity(config: GlobalConfig, avail: EngineAvailability)
    ensures
        ({
            let bs = ProjectManager::expected_backends(config, avail);
            &&& (config.engine_paths.unity is Some && avail.unity) ==> (spec_lookup(bs, "unity"@)
                matches Some(i) && 0 <= i < bs.len() && bs[i].kind() == EngineType::Unity)
            &&& !(config.engine_paths.unity is Some && avail.unity) ==> spec_lookup(bs, "unity"@)
                is None
        }),
{
    reveal_strlit("unity");
    reveal_strlit("Unity");
    reveal_strlit("Unreal Engine");
    reveal_strlit("Godot");
    assert(ci_prefix("unity"@, "Unity"@)) by {
        assert forall|i: int| 0 <= i < "unity"@.len() implies lower_code("unity"@[i]) == lower_code(
            "Unity"@[i],
        ) by {
            if i == 0 {
                assert(lower_code('u') == lower_code('U'));
            }
        }
    }
    assert(!ci_prefix("unity"@, "Unreal Engine"@)) by {
        assert(lower_code("unity"@[2]) != lower_code("Unreal Engine"@[2]));
    }
    assert(!ci_prefix("unity"@, "Godot"@)) by {
        assert(lower_code("unity"@[0]) != lower_code("Godot"@[0]));
    }
    let bs = ProjectManager::expected_backends(config, avail);
    let ur = config.engine_paths.unreal is Some && avail.unreal;
    let un = config.engine_paths.unity is Some && avail.unity;
    if un {
        let i: int = if ur {
            1
        } else {
            0
        };
        assert(bs[i].display_name() == "Unity"@);
        assert forall|j: int| 0 <= j < i implies !ci_prefix(
            "unity"@,
            (#[trigger] bs[j]).display_name(),
        ) by {
            assert(bs[j].display_name() == "Unreal Engine"@);
        }
        lemma_lookup_first_match(bs, "unity"@, i);
    } else {
        assert forall|j: int| 0 <= j < bs.len() implies !ci_prefix(
            "unity"@,
            (#[trigger] bs[j]).display_name(),
        ) by {
            assert(bs[j].display_name() == "Unreal Engine"@ || bs[j].display_name() == "Godot"@);
        }
        lemma_lookup_none(bs, "unity"@);
    }
}

} // verus!
