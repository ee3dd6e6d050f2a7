//! The Unity backend. A project is a directory, between one and three
//! levels below the search root, that has both a fixed assets directory
//! and a fixed project-settings directory as immediate children; the
//! reported record points at that directory and is named after it. Unity
//! has no wired build or package command line: only a configured override
//! runs an external process.

use vstd::prelude::*;

verus! {

use crate::config::{ProjectConfig, ProjectConfigView};
use crate::engine::{
    infos_view, EngineType, GameEngine, HostOs, Invocation, InvocationView,
    ProjectInfo, ProjectInfoView,
};
use crate::error::Error;
use crate::scan::{entries_view, walk_dir, FsEntry, FsEntryView};
use crate::strutil::{join_path, joined, str_eq};
use vstd::string::StringExecFns;

/// The Unity backend: the path of the editor executable.
#[derive(Debug)]
pub struct UnityEngine {
    pub executable_path: String,
}

impl UnityEngine {
    /// A backend for the executable at `executable_path`.
    pub fn new(executable_path: String) -> (r: Self)
        ensures
            r.executable_path == executable_path,
    {
        UnityEngine { executable_path }
    }
}

/// Some walked entry is a directory named `name` whose parent is `parent`.
pub open spec fn has_child_dir(entries: Seq<FsEntryView>, parent: Seq<char>, name: Seq<char>) -> bool {
    exists|j: int|
        0 <= j < entries.len() && (#[trigger] entries[j]).is_dir && entries[j].parent == parent
            && entries[j].file_name == name
}

/// An entry is a Unity project root when it is a directory between one and
/// three levels below the search root with both required child
/// directories present among the walked entries.
pub open spec fn is_unity_marker(all: Seq<FsEntryView>, e: FsEntryView) -> bool {
    &&& e.is_dir
    &&& 1 <= e.depth <= 3
    &&& has_child_dir(all, e.path, "Assets"@)
    &&& has_child_dir(all, e.path, "ProjectSettings"@)
}

/// The record reported for one project root: the directory itself, named
/// after its last component.
pub open spec fn unity_info(e: FsEntryView) -> ProjectInfoView {
    ProjectInfoView { name: e.file_name, path: e.path, engine_type: EngineType::Unity }
}

/// The records read out of the prefix `upto` of a walk, judging each
/// candidate's children against the full walk `all`.
pub open spec fn unity_detected_prefix(all: Seq<FsEntryView>, upto: Seq<FsEntryView>) -> Seq<
    ProjectInfoView,
>
    decreases upto.len(),
{
    if upto.len() == 0 {
        Seq::empty()
    } else {
        unity_detected_prefix(all, upto.drop_last()) + (if is_unity_marker(all, upto.last()) {
            seq![unity_info(upto.last())]
        } else {
            Seq::empty()
        })
    }
}

/// The projects Unity detection reads out of a walk: one record per
/// project root, in walk order.
pub open spec fn unity_detected(entries: Seq<FsEntryView>) -> Seq<ProjectInfoView> {
    unity_detected_prefix(entries, entries)
}

/// The number of project roots in a walk.
pub open spec fn unity_marker_count(all: Seq<FsEntryView>, upto: Seq<FsEntryView>) -> int
    decreases upto.len(),
{
    if upto.len() == 0 {
        0
    } else {
        unity_marker_count(all, upto.drop_last()) + (if is_unity_marker(all, upto.last()) {
            1int
        } else {
            0int
        })
    }
}

/// Appending one candidate appends its record exactly when it is a
/// project root.
pub proof fn lemma_unity_detected_push(all: Seq<FsEntryView>, s: Seq<FsEntryView>, x: FsEntryView)
    ensures
        unity_detected_prefix(all, s.push(x)) == unity_detected_prefix(all, s) + (if is_unity_marker(
            all,
            x,
        ) {
            seq![unity_info(x)]
        } else {
            Seq::<ProjectInfoView>::empty()
        }),
{
    assert(s.push(x).drop_last() =~= s);
    assert(s.push(x).last() == x);
}

/// Unity detection reports exactly one record per project root, and every
/// record is derived from some walked directory that lies between one and
/// three levels below the search root and has both required children.
pub proof fn lemma_unity_one_per_marker(all: Seq<FsEntryView>, upto: Seq<FsEntryView>)
    ensures
        unity_detected_prefix(all, upto).len() == unity_marker_count(all, upto),
        forall|i: int|
            0 <= i < unity_detected_prefix(all, upto).len() ==> exists|e: FsEntryView|
                upto.contains(e) && is_unity_marker(all, e) && #[trigger] unity_detected_prefix(
                    all,
                    upto,
                )[i] == unity_info(e),
    decreases upto.len(),
{
    if upto.len() > 0 {
        let pre = upto.drop_last();
        let last = upto.last();
        lemma_unity_one_per_marker(all, pre);
        assert(upto.contains(last)) by {
            assert(upto[upto.len() - 1] == last);
        }
        assert forall|e: FsEntryView| pre.contains(e) implies upto.contains(e) by {
            let k = choose|k: int| 0 <= k < pre.len() && pre[k] == e;
            assert(upto[k] == e);
        }
        assert forall|i: int| 0 <= i < unity_detected_prefix(all, upto).len() implies exists|
            e: FsEntryView,
        |
            upto.contains(e) && is_unity_marker(all, e) && #[trigger] unity_detected_prefix(
                all,
                upto,
            )[i] == unity_info(e) by {
            if i < unity_detected_prefix(all, pre).len() {
                assert(unity_detected_prefix(all, upto)[i] == unity_detected_prefix(all, pre)[i]);
                let e = choose|e: FsEntryView|
                    pre.contains(e) && is_unity_marker(all, e) && unity_detected_prefix(
                        all,
                        pre,
                    )[i] == unity_info(e);
                assert(upto.contains(e) && is_unity_marker(all, e) && unity_detected_prefix(
                    all,
                    upto,
                )[i] == unity_info(e));
            } else {
                if !is_unity_marker(all, last) {
                    assert(unity_detected_prefix(all, upto).len() == unity_detected_prefix(
                        all,
                        pre,
                    ).len());
                    assert(false);
                }
                assert(unity_detected_prefix(all, upto)[i] == unity_info(last));
            }
        }
    }
}

/// Unity detection never reports the search root itself, anything deeper
/// than three levels, or a directory missing either required child: every
/// reported record comes from a walked directory at depth one to three
/// whose assets and project-settings children are both present.
pub proof fn lemma_unity_depth_and_children(entries: Seq<FsEntryView>)
    ensures
        forall|i: int|
            0 <= i < unity_detected(entries).len() ==> exists|e: FsEntryView|
                {
                    &&& #[trigger] unity_detected(entries)[i] == unity_info(e)
                    &&& entries.contains(e)
                    &&& e.is_dir
                    &&& 1 <= e.depth <= 3
                    &&& has_child_dir(entries, e.path, "Assets"@)
                    &&& has_child_dir(entries, e.path, "ProjectSettings"@)
                },
{
    lemma_unity_one_per_marker(entries, entries);
    assert forall|i: int| 0 <= i < unity_detected(entries).len() implies exists|e: FsEntryView|
        {
            &&& #[trigger] unity_detected(entries)[i] == unity_info(e)
            &&& entries.contains(e)
            &&& e.is_dir
            &&& 1 <= e.depth <= 3
            &&& has_child_dir(entries, e.path, "Assets"@)
            &&& has_child_dir(entries, e.path, "ProjectSettings"@)
        } by {
        let e = choose|e: FsEntryView|
            entries.contains(e) && is_unity_marker(entries, e) && unity_detected_prefix(
                entries,
                entries,
            )[i] == unity_info(e);
        assert(unity_detected(entries)[i] == unity_info(e) && entries.contains(e) && e.is_dir && 1
            <= e.depth <= 3 && has_child_dir(entries, e.path, "Assets"@) && has_child_dir(
            entries,
            e.path,
            "ProjectSettings"@,
        ));
    }
}

/// Whether some entry of `entries` is a directory named `name` with parent
/// `parent`.
fn find_child_dir(entries: &Vec<FsEntry>, parent: &str, name: &str) -> (r: bool)
    ensures
        r == has_child_dir(entries_view(entries@), parent@, name@),
{
    let mut j: usize = 0;
    while j < entries.len()
        invariant
            0 <= j <= entries@.len(),
            forall|k: int|
                0 <= k < j ==> !((#[trigger] entries_view(entries@)[k]).is_dir && entries_view(
                    entries@,
                )[k].parent == parent@ && entries_view(entries@)[k].file_name == name@),
        decreases entries@.len() - j,
    {
        let e = &entries[j];
        proof {
            assert(entries_view(entries@)[j as int] == entries@[j as int]@);
        }
        if e.is_dir && str_eq(e.parent.as_str(), parent) && str_eq(e.file_name.as_str(), name) {
            proof {
                assert((entries_view(entries@)[j as int]).is_dir && entries_view(
                    entries@,
                )[j as int].parent == parent@ && entries_view(entries@)[j as int].file_name
                    == name@);
            }
            return true;
        }
        j += 1;
    }
    false
}

impl GameEngine for UnityEngine {
    open spec fn engine_type(&self) -> EngineType {
        EngineType::Unity
    }

    open spec fn display_name(&self) -> Seq<char> {
        "Unity"@
    }

    open spec fn detected(&self, entries: Seq<FsEntryView>) -> Seq<ProjectInfoView> {
        unity_detected(entries)
    }

    /// Only a configured override runs an external process; by default a
    /// Unity build is a no-op at this layer.
    open spec fn build_invocation_spec(
        &self,
        info: ProjectInfoView,
        config: ProjectConfigView,
        host: HostOs,
    ) -> Option<InvocationView> {
        match config.build_command {
            Some(cmd) => Some(InvocationView { program: cmd, args: seq![info.path] }),
            None => None,
        }
    }

    /// Only a configured override runs an external process; by default
    /// packaging just names where the build script's output lands.
    open spec fn package_invocation_spec(
        &self,
        info: ProjectInfoView,
        config: ProjectConfigView,
        host: HostOs,
        output_dir: Seq<char>,
    ) -> Option<InvocationView> {
        match config.package_command {
            Some(cmd) => Some(InvocationView { program: cmd, args: seq![info.path, output_dir] }),
            None => None,
        }
    }

    /// The packaged output lands under `output_dir`, named after the
    /// project.
    open spec fn artifact_path_spec(&self, info: ProjectInfoView, output_dir: Seq<char>) -> Seq<
        char,
    > {
        joined(output_dir, info.name)
    }

    proof fn detected_tagged(&self, entries: Seq<FsEntryView>) {
        lemma_unity_one_per_marker(entries, entries);
        assert forall|i: int| 0 <= i < self.detected(entries).len() implies (
        #[trigger] self.detected(entries)[i]).engine_type == self.engine_type() by {
            let e = choose|e: FsEntryView|
                entries.contains(e) && is_unity_marker(entries, e) && unity_detected_prefix(
                    entries,
                    entries,
                )[i] == unity_info(e);
        }
    }

    fn name(&self) -> (r: &str) {
        "Unity"
    }

    fn classify_entries(&self, entries: &Vec<FsEntry>) -> (r: Vec<ProjectInfo>) {
        let mut out: Vec<ProjectInfo> = Vec::new();
        let mut i: usize = 0;
        while i < entries.len()
            invariant
                0 <= i <= entries@.len(),
                infos_view(out@) == unity_detected_prefix(
                    entries_view(entries@),
                    entries_view(entries@).subrange(0, i as int),
                ),
            decreases entries@.len() - i,
        {
            let ghost evs = entries_view(entries@);
            let ghost pre = evs.subrange(0, i as int);
            let e = &entries[i];
            proof {
                assert(evs[i as int] == entries@[i as int]@);
                assert(evs.subrange(0, i as int + 1) =~= pre.push(evs[i as int]));
                lemma_unity_detected_push(evs, pre, evs[i as int]);
            }
            if e.is_dir && 1 <= e.depth && e.depth <= 3 && find_child_dir(
                entries,
                e.path.as_str(),
                "Assets",
            ) && find_child_dir(entries, e.path.as_str(), "ProjectSettings") {
                let info = ProjectInfo {
                    name: e.file_name.clone(),
                    path: e.path.clone(),
                    engine_type: EngineType::Unity,
                };
                proof {
                    assert(is_unity_marker(evs, evs[i as int]));
                    assert(info@ == unity_info(evs[i as int]));
                }
                out.push(info);
                proof {
                    assert(infos_view(out@) =~= unity_detected_prefix(
                        evs,
                        evs.subrange(0, i as int + 1),
                    ));
                }
            } else {
                proof {
                    assert(!is_unity_marker(evs, evs[i as int]));
                    assert(infos_view(out@) =~= unity_detected_prefix(
                        evs,
                        evs.subrange(0, i as int + 1),
                    ));
                }
            }
            i += 1;
        }
        proof {
            assert(entries_view(entries@).subrange(0, entries@.len() as int) =~= entries_view(
                entries@,
            ));
        }
        out
    }

    fn detect_projects(&self, search_dir: &str) -> (r: Result<Vec<ProjectInfo>, Error>) {
        // Candidates live at depth one to three; their immediate children,
        // one level deeper, decide candidacy, so the walk reaches depth
        // four.
        match walk_dir(search_dir, 1, 4) {
            Ok(entries) => {
                let ps = self.classify_entries(&entries);
                proof {
                    assert(infos_view(ps@) == self.detected(entries_view(entries@)));
                }
                Ok(ps)
            },
            Err(message) => Err(Error::Io { message }),
        }
    }

    fn build_invocation(&self, info: &ProjectInfo, config: &ProjectConfig, host: HostOs) -> (r:
        Option<Invocation>) {
        match &config.build_command {
            Some(cmd) => {
                let mut args: Vec<String> = Vec::new();
                args.push(info.path.clone());
                let inv = Invocation { program: cmd.clone(), args };
                proof {
                    assert(inv@.args =~= seq![info.path@]);
                }
                Some(inv)
            },
            None => None,
        }
    }

    fn package_invocation(
        &self,
        info: &ProjectInfo,
        config: &ProjectConfig,
        host: HostOs,
        output_dir: &str,
    ) -> (r: Option<Invocation>) {
        match &config.package_command {
            Some(cmd) => {
                let mut args: Vec<String> = Vec::new();
                args.push(info.path.clone());
                args.push(String::from_str(output_dir));
                let inv = Invocation { program: cmd.clone(), args };
                proof {
                    assert(inv@.args =~= seq![info.path@, output_dir@]);
                }
                Some(inv)
            },
            None => None,
        }
    }

    fn artifact_path(&self, info: &ProjectInfo, output_dir: &str) -> (r: String) {
        join_path(output_dir, info.name.as_str())
    }
}

} // verus!
