//! The Unreal backend. A project is marked by a descriptor file whose name
//! ends in the fixed `.uproject` extension, anywhere below the search root;
//! the reported record points at the descriptor file itself and is named
//! after the file's stem. Building and packaging run the engine's
//! automation tool, resolved below the installation root per host platform.

use vstd::prelude::*;

verus! {

use crate::config::{ProjectConfig, ProjectConfigView};
use crate::engine::{
    infos_view, platform_selector, platform_selector_str, EngineType,
    GameEngine, HostOs, Invocation, InvocationView, ProjectInfo, ProjectInfoView,
};
use crate::error::Error;
use crate::scan::{entries_view, walk_dir, FsEntry, FsEntryView};
use crate::strutil::{
    concat_str, file_stem_of, has_suffix, join_path, joined, str_file_stem, str_has_suffix,
};
use vstd::string::StringExecFns;

/// The Unreal backend: the engine installation's root directory, below
/// which the automation tool's entry point is resolved per host.
#[derive(Debug)]
pub struct UnrealEngine {
    pub engine_root: String,
}

impl UnrealEngine {
    /// A backend for the installation rooted at `engine_root`.
    pub fn new(engine_root: String) -> (r: Self)
        ensures
            r.engine_root == engine_root,
    {
        UnrealEngine { engine_root }
    }

    /// The automation tool's entry point below the installation root: a
    /// batch file on Windows, a shell script elsewhere.
    pub open spec fn uat_relative(host: HostOs) -> Seq<char> {
        match host {
            HostOs::Windows => "Engine/Build/BatchFiles/RunUAT.bat"@,
            HostOs::Unix => "Engine/Build/BatchFiles/RunUAT.sh"@,
        }
    }
}

/// An entry is an Unreal project marker when it is a file whose name ends
/// in the fixed project-descriptor extension.
pub open spec fn is_unreal_marker(e: FsEntryView) -> bool {
    !e.is_dir && has_suffix(e.file_name, ".uproject"@)
}

/// The record reported for one marker: the descriptor file's own path,
/// named after the file's stem.
pub open spec fn unreal_info(e: FsEntryView) -> ProjectInfoView {
    ProjectInfoView { name: file_stem_of(e.file_name), path: e.path, engine_type: EngineType::Unreal }
}

/// The projects Unreal detection reads out of a walk: one record per
/// marker entry, in walk order.
pub open spec fn unreal_detected(entries: Seq<FsEntryView>) -> Seq<ProjectInfoView>
    decreases entries.len(),
{
    if entries.len() == 0 {
        Seq::empty()
    } else {
        unreal_detected(entries.drop_last()) + (if is_unreal_marker(entries.last()) {
            seq![unreal_info(entries.last())]
        } else {
            Seq::empty()
        })
    }
}

/// The number of marker entries in a walk.
pub open spec fn unreal_marker_count(entries: Seq<FsEntryView>) -> int
    decreases entries.len(),
{
    if entries.len() == 0 {
        0
    } else {
        unreal_marker_count(entries.drop_last()) + (if is_unreal_marker(entries.last()) {
            1int
        } else {
            0int
        })
    }
}

/// Appending one entry appends its record exactly when it is a marker.
pub proof fn lemma_unreal_detected_push(s: Seq<FsEntryView>, x: FsEntryView)
    ensures
        unreal_detected(s.push(x)) == unreal_detected(s) + (if is_unreal_marker(x) {
            seq![unreal_info(x)]
        } else {
            Seq::<ProjectInfoView>::empty()
        }),
{
    assert(s.push(x).drop_last() =~= s);
    assert(s.push(x).last() == x);
}

/// Unreal detection reports exactly one record per marker occurrence, and
/// every record is derived from some marker entry of the walk.
pub proof fn lemma_unreal_one_per_marker(entries: Seq<FsEntryView>)
    ensures
        unreal_detected(entries).len() == unreal_marker_count(entries),
        forall|i: int|
            0 <= i < unreal_detected(entries).len() ==> exists|e: FsEntryView|
                entries.contains(e) && is_unreal_marker(e) && #[trigger] unreal_detected(
                    entries,
                )[i] == unreal_info(e),
    decreases entries.len(),
{
    if entries.len() > 0 {
        let pre = entries.drop_last();
        let last = entries.last();
        lemma_unreal_one_per_marker(pre);
        assert(entries.contains(last)) by {
            assert(entries[entries.len() - 1] == last);
        }
        assert forall|e: FsEntryView| pre.contains(e) implies entries.contains(e) by {
            let k = choose|k: int| 0 <= k < pre.len() && pre[k] == e;
            assert(entries[k] == e);
        }
        assert forall|i: int| 0 <= i < unreal_detected(entries).len() implies exists|
            e: FsEntryView,
        |
            entries.contains(e) && is_unreal_marker(e) && #[trigger] unreal_detected(entries)[i]
                == unreal_info(e) by {
            if i < unreal_detected(pre).len() {
                assert(unreal_detected(entries)[i] == unreal_detected(pre)[i]);
                let e = choose|e: FsEntryView|
                    pre.contains(e) && is_unreal_marker(e) && unreal_detected(pre)[i]
                        == unreal_info(e);
                assert(entries.contains(e) && is_unreal_marker(e) && unreal_detected(entries)[i]
                    == unreal_info(e));
            } else {
                if !is_unreal_marker(last) {
                    assert(unreal_detected(entries).len() == unreal_detected(pre).len());
                    assert(false);
                }
                assert(unreal_detected(entries)[i] == unreal_info(last));
            }
        }
    }
}

impl GameEngine for UnrealEngine {
    open spec fn engine_type(&self) -> EngineType {
        EngineType::Unreal
    }

    open spec fn display_name(&self) -> Seq<char> {
        "Unreal Engine"@
    }

    open spec fn detected(&self, entries: Seq<FsEntryView>) -> Seq<ProjectInfoView> {
        unreal_detected(entries)
    }

    /// With a configured override, the override runs on the descriptor
    /// path alone; otherwise the automation tool runs a build-cook-run
    /// invocation in the development configuration for the host platform.
    open spec fn build_invocation_spec(
        &self,
        info: ProjectInfoView,
        config: ProjectConfigView,
        host: HostOs,
    ) -> Option<InvocationView> {
        match config.build_command {
            Some(cmd) => Some(InvocationView { program: cmd, args: seq![info.path] }),
            None => Some(
                InvocationView {
                    program: joined(self.engine_root@, UnrealEngine::uat_relative(host)),
                    args: seq![
                        "BuildCookRun"@,
                        "-project="@ + info.path,
                        "-build"@,
                        "-clientconfig=Development"@,
                        platform_selector(host),
                        "-nocompileeditor"@,
                        "-unattended"@,
                        "-stdout"@,
                        "-utf8output"@,
                    ],
                },
            ),
        }
    }

    /// As the build invocation, but archiving a package into `output_dir`
    /// in place of the plain build flag.
    open spec fn package_invocation_spec(
        &self,
        info: ProjectInfoView,
        config: ProjectConfigView,
        host: HostOs,
        output_dir: Seq<char>,
    ) -> Option<InvocationView> {
        match config.package_command {
            Some(cmd) => Some(InvocationView { program: cmd, args: seq![info.path, output_dir] }),
            None => Some(
                InvocationView {
                    program: joined(self.engine_root@, UnrealEngine::uat_relative(host)),
                    args: seq![
                        "BuildCookRun"@,
                        "-project="@ + info.path,
                        "-archive"@,
                        "-archivedirectory="@ + output_dir,
                        "-package"@,
                        "-clientconfig=Development"@,
                        platform_selector(host),
                        "-nocompileeditor"@,
                        "-unattended"@,
                        "-stdout"@,
                        "-utf8output"@,
                    ],
                },
            ),
        }
    }

    /// The automation tool archives straight into the requested directory.
    open spec fn artifact_path_spec(&self, info: ProjectInfoView, output_dir: Seq<char>) -> Seq<
        char,
    > {
        output_dir
    }

    proof fn detected_tagged(&self, entries: Seq<FsEntryView>) {
        lemma_unreal_one_per_marker(entries);
        assert forall|i: int| 0 <= i < self.detected(entries).len() implies (
        #[trigger] self.detected(entries)[i]).engine_type == self.engine_type() by {
            let e = choose|e: FsEntryView|
                entries.contains(e) && is_unreal_marker(e) && unreal_detected(entries)[i]
                    == unreal_info(e);
        }
    }

    fn name(&self) -> (r: &str) {
        "Unreal Engine"
    }

    fn classify_entries(&self, entries: &Vec<FsEntry>) -> (r: Vec<ProjectInfo>) {
        let mut out: Vec<ProjectInfo> = Vec::new();
        let mut i: usize = 0;
        while i < entries.len()
            invariant
                0 <= i <= entries@.len(),
                infos_view(out@) == unreal_detected(entries_view(entries@).subrange(0, i as int)),
            decreases entries@.len() - i,
        {
            let ghost evs = entries_view(entries@);
            let ghost pre = evs.subrange(0, i as int);
            let e = &entries[i];
            proof {
                assert(evs[i as int] == entries@[i as int]@);
                assert(evs.subrange(0, i as int + 1) =~= pre.push(evs[i as int]));
                lemma_unreal_detected_push(pre, evs[i as int]);
            }
            if !e.is_dir && str_has_suffix(e.file_name.as_str(), ".uproject") {
                let info = ProjectInfo {
                    name: str_file_stem(e.file_name.as_str()),
                    path: e.path.clone(),
                    engine_type: EngineType::Unreal,
                };
                proof {
                    assert(is_unreal_marker(evs[i as int]));
                    assert(info@ == unreal_info(evs[i as int]));
                }
                out.push(info);
                proof {
                    assert(infos_view(out@) =~= unreal_detected(evs.subrange(0, i as int + 1)));
                }
            } else {
                proof {
                    assert(!is_unreal_marker(evs[i as int]));
                    assert(infos_view(out@) =~= unreal_detected(evs.subrange(0, i as int + 1)));
                }
            }
            i += 1;
        }
        proof {
            assert(entries_view(entries@).subrange(0, entries@.len() as int) =~= entries_view(
                entries@,
            ));
        }
        out
    }

    fn detect_projects(&self, search_dir: &str) -> (r: Result<Vec<ProjectInfo>, Error>) {
        match walk_dir(search_dir, 0, usize::MAX) {
            Ok(entries) => {
                let ps = self.classify_entries(&entries);
                proof {
                    assert(infos_view(ps@) == self.detected(entries_view(entries@)));
                }
                Ok(ps)
            },
            Err(message) => Err(Error::Io { message }),
        }
    }

    fn build_invocation(&self, info: &ProjectInfo, config: &ProjectConfig, host: HostOs) -> (r:
        Option<Invocation>) {
        match &config.build_command {
            Some(cmd) => {
                let mut args: Vec<String> = Vec::new();
                args.push(info.path.clone());
                let inv = Invocation { program: cmd.clone(), args };
                proof {
                    assert(inv@.args =~= seq![info.path@]);
                }
                Some(inv)
            },
            None => {
                let rel: &str = match host {
                    HostOs::Windows => "Engine/Build/BatchFiles/RunUAT.bat",
                    HostOs::Unix => "Engine/Build/BatchFiles/RunUAT.sh",
                };
                let program = join_path(self.engine_root.as_str(), rel);
                let mut args: Vec<String> = Vec::new();
                args.push(String::from_str("BuildCookRun"));
                args.push(concat_str("-project=", info.path.as_str()));
                args.push(String::from_str("-build"));
                args.push(String::from_str("-clientconfig=Development"));
                args.push(String::from_str(platform_selector_str(host)));
                args.push(String::from_str("-nocompileeditor"));
                args.push(String::from_str("-unattended"));
                args.push(String::from_str("-stdout"));
                args.push(String::from_str("-utf8output"));
                let inv = Invocation { program, args };
                proof {
                    assert(inv@.args =~= (self.build_invocation_spec(
                        info@,
                        config@,
                        host,
                    )->Some_0).args);
                }
                Some(inv)
            },
        }
    }

    fn package_invocation(
        &self,
        info: &ProjectInfo,
        config: &ProjectConfig,
        host: HostOs,
        output_dir: &str,
    ) -> (r: Option<Invocation>) {
        match &config.package_command {
            Some(cmd) => {
                let mut args: Vec<String> = Vec::new();
                args.push(info.path.clone());
                args.push(String::from_str(output_dir));
                let inv = Invocation { program: cmd.clone(), args };
                proof {
                    assert(inv@.args =~= seq![info.path@, output_dir@]);
                }
                Some(inv)
            },
            None => {
                let rel: &str = match host {
                    HostOs::Windows => "Engine/Build/BatchFiles/RunUAT.bat",
                    HostOs::Unix => "Engine/Build/BatchFiles/RunUAT.sh",
                };
                let program = join_path(self.engine_root.as_str(), rel);
                let mut args: Vec<String> = Vec::new();
                args.push(String::from_str("BuildCookRun"));
                args.push(concat_str("-project=", info.path.as_str()));
                args.push(String::from_str("-archive"));
                args.push(concat_str("-archivedirectory=", output_dir));
                args.push(String::from_str("-package"));
                args.push(String::from_str("-clientconfig=Development"));
                args.push(String::from_str(platform_selector_str(host)));
                args.push(String::from_str("-nocompileeditor"));
                args.push(String::from_str("-unattended"));
                args.push(String::from_str("-stdout"));
                args.push(String::from_str("-utf8output"));
                let inv = Invocation { program, args };
                proof {
                    assert(inv@.args =~= (self.package_invocation_spec(
                        info@,
                        config@,
                        host,
                        output_dir@,
                    )->Some_0).args);
                }
                Some(inv)
            },
        }
    }

    fn artifact_path(&self, info: &ProjectInfo, output_dir: &str) -> (r: String) {
        String::from_str(output_dir)
    }
}

} // verus!
