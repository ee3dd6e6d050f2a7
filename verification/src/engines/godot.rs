//! The Godot backend. A project is marked by a descriptor file with the
//! fixed name `project.godot`, anywhere below the search root; the reported
//! record points at the marker's parent directory and is named after that
//! directory. Godot has no wired build or package command line: only a
//! configured override runs an external process.

use vstd::prelude::*;

verus! {

use crate::config::{ProjectConfig, ProjectConfigView};
use crate::engine::{
    infos_view, EngineType, GameEngine, HostOs, Invocation, InvocationView,
    ProjectInfo, ProjectInfoView,
};
use crate::error::Error;
use crate::scan::{entries_view, walk_dir, FsEntry, FsEntryView};
use crate::strutil::{join_path, joined, last_component, str_eq, str_last_component};
use vstd::string::StringExecFns;

/// The Godot backend: the path of the engine's headless executable.
#[derive(Debug)]
pub struct GodotEngine {
    pub executable_path: String,
}

impl GodotEngine {
    /// A backend for the executable at `executable_path`.
    pub fn new(executable_path: String) -> (r: Self)
        ensures
            r.executable_path == executable_path,
    {
        GodotEngine { executable_path }
    }
}

/// An entry is a Godot project marker when it is a file with the fixed
/// project-descriptor name.
pub open spec fn is_godot_marker(e: FsEntryView) -> bool {
    !e.is_dir && e.file_name == "project.godot"@
}

/// The record reported for one marker: the marker's parent directory,
/// named after that directory.
pub open spec fn godot_info(e: FsEntryView) -> ProjectInfoView {
    ProjectInfoView { name: last_component(e.parent), path: e.parent, engine_type: EngineType::Godot }
}

/// The projects Godot detection reads out of a walk: one record per marker
/// entry, in walk order.
pub open spec fn godot_detected(entries: Seq<FsEntryView>) -> Seq<ProjectInfoView>
    decreases entries.len(),
{
    if entries.len() == 0 {
        Seq::empty()
    } else {
        godot_detected(entries.drop_last()) + (if is_godot_marker(entries.last()) {
            seq![godot_info(entries.last())]
        } else {
            Seq::empty()
        })
    }
}

/// The number of marker entries in a walk.
pub open spec fn godot_marker_count(entries: Seq<FsEntryView>) -> int
    decreases entries.len(),
{
    if entries.len() == 0 {
        0
    } else {
        godot_marker_count(entries.drop_last()) + (if is_godot_marker(entries.last()) {
            1int
        } else {
            0int
        })
    }
}

/// Appending one entry appends its record exactly when it is a marker.
pub proof fn lemma_godot_detected_push(s: Seq<FsEntryView>, x: FsEntryView)
    ensures
        godot_detected(s.push(x)) == godot_detected(s) + (if is_godot_marker(x) {
            seq![godot_info(x)]
        } else {
            Seq::<ProjectInfoView>::empty()
        }),
{
    assert(s.push(x).drop_last() =~= s);
    assert(s.push(x).last() == x);
}

/// Godot detection reports exactly one record per marker occurrence, and
/// every record is derived from some marker entry of the walk.
pub proof fn lemma_godot_one_per_marker(entries: Seq<FsEntryView>)
    ensures
        godot_detected(entries).len() == godot_marker_count(entries),
        forall|i: int|
            0 <= i < godot_detected(entries).len() ==> exists|e: FsEntryView|
                entries.contains(e) && is_godot_marker(e) && #[trigger] godot_detected(entries)[i]
                    == godot_info(e),
    decreases entries.len(),
{
    if entries.len() > 0 {
        let pre = entries.drop_last();
        let last = entries.last();
        lemma_godot_one_per_marker(pre);
        assert(entries.contains(last)) by {
            assert(entries[entries.len() - 1] == last);
        }
        assert forall|e: FsEntryView| pre.contains(e) implies entries.contains(e) by {
            let k = choose|k: int| 0 <= k < pre.len() && pre[k] == e;
            assert(entries[k] == e);
        }
        assert forall|i: int| 0 <= i < godot_detected(entries).len() implies exists|
            e: FsEntryView,
        |
            entries.contains(e) && is_godot_marker(e) && #[trigger] godot_detected(entries)[i]
                == godot_info(e) by {
            if i < godot_detected(pre).len() {
                assert(godot_detected(entries)[i] == godot_detected(pre)[i]);
                let e = choose|e: FsEntryView|
                    pre.contains(e) && is_godot_marker(e) && godot_detected(pre)[i] == godot_info(
                        e,
                    );
                assert(entries.contains(e) && is_godot_marker(e) && godot_detected(entries)[i]
                    == godot_info(e));
            } else {
                if !is_godot_marker(last) {
                    assert(godot_detected(entries).len() == godot_detected(pre).len());
                    assert(false);
                }
                assert(godot_detected(entries)[i] == godot_info(last));
            }
        }
    }
}

impl GameEngine for GodotEngine {
    open spec fn engine_type(&self) -> EngineType {
        EngineType::Godot
    }

    open spec fn display_name(&self) -> Seq<char> {
        "Godot"@
    }

    open spec fn detected(&self, entries: Seq<FsEntryView>) -> Seq<ProjectInfoView> {
        godot_detected(entries)
    }

    /// Only a configured override runs an external process; by default a
    /// Godot build is a no-op at this layer.
    open spec fn build_invocation_spec(
        &self,
        info: ProjectInfoView,
        config: ProjectConfigView,
        host: HostOs,
    ) -> Option<InvocationView> {
        match config.build_command {
            Some(cmd) => Some(InvocationView { program: cmd, args: seq![info.path] }),
            None => None,
        }
    }

    /// Only a configured override runs an external process; by default
    /// packaging just names where an export would land.
    open spec fn package_invocation_spec(
        &self,
        info: ProjectInfoView,
        config: ProjectConfigView,
        host: HostOs,
        output_dir: Seq<char>,
    ) -> Option<InvocationView> {
        match config.package_command {
            Some(cmd) => Some(InvocationView { program: cmd, args: seq![info.path, output_dir] }),
            None => None,
        }
    }

    /// The exported artifact lands under `output_dir`, named after the
    /// project.
    open spec fn artifact_path_spec(&self, info: ProjectInfoView, output_dir: Seq<char>) -> Seq<
        char,
    > {
        joined(output_dir, info.name)
    }

    proof fn detected_tagged(&self, entries: Seq<FsEntryView>) {
        lemma_godot_one_per_marker(entries);
        assert forall|i: int| 0 <= i < self.detected(entries).len() implies (
        #[trigger] self.detected(entries)[i]).engine_type == self.engine_type() by {
            let e = choose|e: FsEntryView|
                entries.contains(e) && is_godot_marker(e) && godot_detected(entries)[i]
                    == godot_info(e);
        }
    }

    fn name(&self) -> (r: &str) {
        "Godot"
    }

    fn classify_entries(&self, entries: &Vec<FsEntry>) -> (r: Vec<ProjectInfo>) {
        let mut out: Vec<ProjectInfo> = Vec::new();
        let mut i: usize = 0;
        while i < entries.len()
            invariant
                0 <= i <= entries@.len(),
                infos_view(out@) == godot_detected(entries_view(entries@).subrange(0, i as int)),
            decreases entries@.len() - i,
        {
            let ghost evs = entries_view(entries@);
            let ghost pre = evs.subrange(0, i as int);
            let e = &entries[i];
            proof {
                assert(evs[i as int] == entries@[i as int]@);
                assert(evs.subrange(0, i as int + 1) =~= pre.push(evs[i as int]));
                lemma_godot_detected_push(pre, evs[i as int]);
            }
            if !e.is_dir && str_eq(e.file_name.as_str(), "project.godot") {
                let info = ProjectInfo {
                    name: str_last_component(e.parent.as_str()),
                    path: e.parent.clone(),
                    engine_type: EngineType::Godot,
                };
                proof {
                    assert(is_godot_marker(evs[i as int]));
                    assert(info@ == godot_info(evs[i as int]));
                }
                out.push(info);
                proof {
                    assert(infos_view(out@) =~= godot_detected(evs.subrange(0, i as int + 1)));
                }
            } else {
                proof {
                    assert(!is_godot_marker(evs[i as int]));
                    assert(infos_view(out@) =~= godot_detected(evs.subrange(0, i as int + 1)));
                }
            }
            i += 1;
        }
        proof {
            assert(entries_view(entries@).subrange(0, entries@.len() as int) =~= entries_view(
                entries@,
            ));
        }
        out
    }

    fn detect_projects(&self, search_dir: &str) -> (r: Result<Vec<ProjectInfo>, Error>) {
        match walk_dir(search_dir, 0, usize::MAX) {
            Ok(entries) => {
                let ps = self.classify_entries(&entries);
                proof {
                    assert(infos_view(ps@) == self.detected(entries_view(entries@)));
                }
                Ok(ps)
            },
            Err(message) => Err(Error::Io { message }),
        }
    }

    fn build_invocation(&self, info: &ProjectInfo, config: &ProjectConfig, host: HostOs) -> (r:
        Option<Invocation>) {
        match &config.build_command {
            Some(cmd) => {
                let mut args: Vec<String> = Vec::new();
                args.push(info.path.clone());
                let inv = Invocation { program: cmd.clone(), args };
                proof {
                    assert(inv@.args =~= seq![info.path@]);
                }
                Some(inv)
            },
            None => None,
        }
    }

    fn package_invocation(
        &self,
        info: &ProjectInfo,
        config: &ProjectConfig,
        host: HostOs,
        output_dir: &str,
    ) -> (r: Option<Invocation>) {
        match &config.package_command {
            Some(cmd) => {
                let mut args: Vec<String> = Vec::new();
                args.push(info.path.clone());
                args.push(String::from_str(output_dir));
                let inv = Invocation { program: cmd.clone(), args };
                proof {
                    assert(inv@.args =~= seq![info.path@, output_dir@]);
                }
                Some(inv)
            },
            None => None,
        }
    }

    fn artifact_path(&self, info: &ProjectInfo, output_dir: &str) -> (r: String) {
        join_path(output_dir, info.name.as_str())
    }
}

} // verus!
