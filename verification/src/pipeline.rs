//! The build pipeline orchestrator, as a state machine.
//!
//! Resolving a request yields a [`Pipeline`] whose derived directory layout
//! is fixed up front; a malformed upstream URI is rejected before any
//! action is emitted, so no directory is ever created for it. From there
//! the pipeline hands out one [`Action`] at a time — a filesystem, git or
//! subprocess operation for the surrounding binary to perform — and
//! advances on the reported [`Event`]. Infrastructure failures abort into
//! a terminal error; a builder failure is only recorded, and the pipeline
//! still compresses the log and scans the produced artifacts so they can
//! be reported.
use vstd::prelude::*;
use vstd::string::*;
use crate::collect::{all_entry_uris_ok, collect_all, collected_ok, Collectable, FileEntry};
use crate::compress::gzip_bytes;
use crate::config::{config_chars, render_config, Remote};
use crate::fsmodel::{sync_decision, SyncWay};
use crate::text::{
    dec_chars, join_chars, parent_chars_ok, path_join, path_parent, paths_disjoint,
    lemma_keyed_dirs_disjoint, u64_to_string,
};
use crate::uri::{parse_uri_path, uri_path_of};

verus! {

/// A build task as assigned by the orchestrator.
pub struct BuildRequest {
    pub build_id: u64,
    pub uri: String,
    pub commit_ref: String,
    pub relative_path: String,
    pub remotes: Vec<Remote>,
}

/// The worker's process-wide context: the shared cache holding git
/// mirrors, the scratch space for in-flight work, and the root holding
/// durable per-build asset output.
pub struct ExecutionState {
    pub cache_dir: String,
    pub state_dir: String,
    pub root: String,
}

/// An infrastructure failure: it aborts the remaining pipeline steps.
#[derive(Clone, Copy, Debug, PartialEq, Eq, Structural)]
pub enum PipelineError {
    InvalidUri,
    MalformedUri,
    DirSetup,
    Git,
    Checkout,
    Config,
    Compress,
    Scan,
    WorktreeCleanup,
}

/// The derived, build-scoped directory layout.
pub struct BuildPaths {
    pub mirror_dir: String,
    pub mirror_parent: String,
    pub work_dir: String,
    pub worktree_dir: String,
    pub asset_dir: String,
    pub log_file: String,
    pub log_gz_file: String,
    pub boulder_dir: String,
    pub config_dir: String,
    pub config_file: String,
}

/// The mirror is keyed by the URI path (without its leading separator)
/// under the shared cache directory; it persists across builds.
pub open spec fn mirror_dir_chars(cache_dir: Seq<char>, upath: Seq<char>) -> Seq<char> {
    join_chars(cache_dir, upath.subrange(1, upath.len() as int))
}

/// The work directory is keyed by build id under the scratch space.
pub open spec fn work_dir_chars(state_dir: Seq<char>, build_id: nat) -> Seq<char> {
    join_chars(join_chars(state_dir, "work"@), dec_chars(build_id))
}

pub open spec fn worktree_dir_chars(state_dir: Seq<char>, build_id: nat) -> Seq<char> {
    join_chars(work_dir_chars(state_dir, build_id), "source"@)
}

/// The asset directory is keyed by build id under the durable root.
pub open spec fn asset_dir_chars(root: Seq<char>, build_id: nat) -> Seq<char> {
    join_chars(join_chars(root, "assets"@), dec_chars(build_id))
}

pub open spec fn log_file_chars(root: Seq<char>, build_id: nat) -> Seq<char> {
    join_chars(asset_dir_chars(root, build_id), "build.log"@)
}

pub open spec fn boulder_dir_chars(state_dir: Seq<char>, build_id: nat) -> Seq<char> {
    join_chars(work_dir_chars(state_dir, build_id), "etc/boulder"@)
}

pub open spec fn config_dir_chars(state_dir: Seq<char>, build_id: nat) -> Seq<char> {
    join_chars(work_dir_chars(state_dir, build_id), "etc/boulder/profile.d"@)
}

pub open spec fn config_file_chars(state_dir: Seq<char>, build_id: nat) -> Seq<char> {
    join_chars(config_dir_chars(state_dir, build_id), "avalanche.yaml"@)
}

/// Where the pipeline stands; stages run strictly in this order.
#[derive(Clone, Copy, Debug, PartialEq, Eq, Structural)]
pub enum Stage {
    MirrorParent,
    WorkDir,
    WorktreeDir,
    AssetDir,
    QueryMirror,
    Sync(bool),
    Checkout,
    ConfigDir,
    WriteConfig,
    RunBuilder,
    CompressLog,
    WriteGz,
    RemoveLog,
    Scan,
    Teardown,
    Complete,
}

/// The fixed invocation of the builder tool: elevated, niced, selecting
/// the generated profile and the asset output directory, run inside the
/// worktree with both output streams redirected to the log file.
pub struct BuilderCommand {
    pub program: String,
    pub args: Vec<String>,
    pub current_dir: String,
    pub log_file: String,
}

/// One outside operation for the surrounding binary to perform.
pub enum Action {
    /// Create the directory and its ancestors if absent.
    EnsureDir { path: String },
    /// Remove the directory's subtree if present, then create it empty.
    RecreateDir { path: String },
    /// Report whether the mirror directory exists on disk.
    CheckMirror { path: String },
    /// Create a bare mirror clone of the upstream repository.
    GitMirror { uri: String, mirror_dir: String },
    /// Fetch updates into the existing mirror.
    GitUpdate { mirror_dir: String },
    /// Materialize a worktree of the commit from the mirror.
    GitCheckout { mirror_dir: String, worktree_dir: String, commit_ref: String },
    /// Write the text to the file.
    WriteFile { path: String, contents: String },
    /// Run the builder tool.
    RunBuilder { command: BuilderCommand },
    /// Read the plain log file and hand back its bytes.
    ReadLog { path: String },
    /// Write the bytes to the file.
    WriteFileBytes { path: String, contents: Vec<u8> },
    /// Remove the file.
    RemoveFile { path: String },
    /// List the files directly inside the asset directory, with contents.
    ScanAssets { dir: String },
    /// Remove the worktree, leaving the mirror untouched.
    RemoveWorktree { mirror_dir: String, worktree_dir: String },
}

/// What the surrounding binary reports back for the current action.
pub enum Event {
    Done,
    Failed,
    MirrorExists(bool),
    BuilderFinished { success: bool },
    LogBytes(Vec<u8>),
    Entries(Vec<FileEntry>),
}

pub open spec fn builder_args_chars(
    asset_dir: Seq<char>,
    boulder_dir: Seq<char>,
    relative_path: Seq<char>,
) -> Seq<Seq<char>> {
    seq![
        "nice"@,
        "-n20"@,
        "boulder"@,
        "build"@,
        "-p"@,
        "avalanche"@,
        "--update"@,
        "-o"@,
        asset_dir,
        "--config-dir"@,
        boulder_dir,
        "--"@,
        relative_path,
    ]
}

pub open spec fn builder_command_ok(cmd: BuilderCommand, pl: Pipeline) -> bool {
    &&& cmd.program@ == "sudo"@
    &&& cmd.args@.map_values(|s: String| s@) == builder_args_chars(
        pl.paths.asset_dir@,
        pl.paths.boulder_dir@,
        pl.relative_path@,
    )
    &&& cmd.current_dir@ == pl.paths.worktree_dir@
    &&& cmd.log_file@ == pl.paths.log_file@
}

/// The state of one build's pipeline.
pub struct Pipeline {
    pub build_id: u64,
    pub uri: String,
    pub commit_ref: String,
    pub relative_path: String,
    pub remotes: Vec<Remote>,
    pub host_address: String,
    pub paths: BuildPaths,
    pub stage: Stage,
    pub builder_failed: bool,
    pub gz: Option<Vec<u8>>,
    pub collectables: Vec<Collectable>,
    pub error: Option<PipelineError>,
}

/// What the pipeline hands to the reporting layer when it completes
/// without an infrastructure error.
#[derive(Debug)]
pub struct RunOutput {
    pub builder_failed: bool,
    pub collectables: Vec<Collectable>,
}

impl Pipeline {
    /// The machine's internal consistency: compressed bytes are at hand
    /// exactly when they are about to be written, and an error is recorded
    /// only in the terminal stage.
    pub open spec fn wf(&self) -> bool {
        &&& (self.stage is WriteGz ==> self.gz is Some)
        &&& (!(self.stage is Complete) ==> self.error is None)
    }

    /// Resolves a request: parses its upstream URI and fixes the derived
    /// directory layout. Rejected requests produce no pipeline, so no
    /// action — and no directory — ever comes of them.
    pub fn new(request: BuildRequest, state: &ExecutionState, host_address: String) -> (r:
        Result<Pipeline, PipelineError>)
        ensures
            match r {
                Err(e) => {
                    &&& (e == PipelineError::InvalidUri <==> uri_path_of(request.uri@) is None)
                    &&& (e == PipelineError::MalformedUri <==> (uri_path_of(request.uri@)
                        matches Some(p) && !(p.len() > 0 && p[0] == '/')))
                    &&& (e == PipelineError::InvalidUri || e == PipelineError::MalformedUri)
                },
                Ok(pl) => {
                    &&& uri_path_of(request.uri@) matches Some(p) && p.len() > 0 && p[0] == '/'
                        && pl.paths.mirror_dir@ == mirror_dir_chars(state.cache_dir@, p)
                    &&& parent_chars_ok(pl.paths.mirror_dir@, pl.paths.mirror_parent@)
                    &&& pl.paths.work_dir@ == work_dir_chars(
                        state.state_dir@,
                        request.build_id as nat,
                    )
                    &&& pl.paths.worktree_dir@ == worktree_dir_chars(
                        state.state_dir@,
                        request.build_id as nat,
                    )
                    &&& pl.paths.asset_dir@ == asset_dir_chars(
                        state.root@,
                        request.build_id as nat,
                    )
                    &&& pl.paths.log_file@ == log_file_chars(state.root@, request.build_id as nat)
                    &&& pl.paths.log_gz_file@ == log_file_chars(
                        state.root@,
                        request.build_id as nat,
                    ) + ".gz"@
                    &&& pl.paths.boulder_dir@ == boulder_dir_chars(
                        state.state_dir@,
                        request.build_id as nat,
                    )
                    &&& pl.paths.config_dir@ == config_dir_chars(
                        state.state_dir@,
                        request.build_id as nat,
                    )
                    &&& pl.paths.config_file@ == config_file_chars(
                        state.state_dir@,
                        request.build_id as nat,
                    )
                    &&& pl.build_id == request.build_id
                    &&& pl.uri == request.uri
                    &&& pl.commit_ref == request.commit_ref
                    &&& pl.relative_path == request.relative_path
                    &&& pl.remotes == request.remotes
                    &&& pl.host_address == host_address
                    &&& pl.stage == Stage::MirrorParent
                    &&& pl.builder_failed == false
                    &&& pl.gz is None
                    &&& pl.collectables@ == Seq::<Collectable>::empty()
                    &&& pl.error is None
                    &&& pl.wf()
                },
            },
    {
        let parsed = parse_uri_path(request.uri.as_str());
        match parsed {
            None => Err(PipelineError::InvalidUri),
            Some(upath) => {
                let plen = upath.as_str().unicode_len();
                if plen == 0 || upath.as_str().get_char(0) != '/' {
                    return Err(PipelineError::MalformedUri);
                }
                let mirror_dir = path_join(
                    state.cache_dir.as_str(),
                    upath.as_str().substring_char(1, plen),
                );
                let mirror_parent = match path_parent(mirror_dir.as_str()) {
                    Some(mp) => mp,
                    None => {
                        proof {
                            assert(mirror_dir@[state.cache_dir@.len() as int] == '/');
                        }
                        return Err(PipelineError::MalformedUri);
                    },
                };
                let id = u64_to_string(request.build_id);
                let work_dir = path_join(
                    path_join(state.state_dir.as_str(), "work").as_str(),
                    id.as_str(),
                );
                let worktree_dir = path_join(work_dir.as_str(), "source");
                let asset_dir = path_join(
                    path_join(state.root.as_str(), "assets").as_str(),
                    id.as_str(),
                );
                let log_file = path_join(asset_dir.as_str(), "build.log");
                let mut log_gz_file = log_file.clone();
                log_gz_file.append(".gz");
                let boulder_dir = path_join(work_dir.as_str(), "etc/boulder");
                let config_dir = path_join(work_dir.as_str(), "etc/boulder/profile.d");
                let config_file = path_join(config_dir.as_str(), "avalanche.yaml");
                let paths = BuildPaths {
                    mirror_dir,
                    mirror_parent,
                    work_dir,
                    worktree_dir,
                    asset_dir,
                    log_file,
                    log_gz_file,
                    boulder_dir,
                    config_dir,
                    config_file,
                };
                Ok(
                    Pipeline {
                        build_id: request.build_id,
                        uri: request.uri,
                        commit_ref: request.commit_ref,
                        relative_path: request.relative_path,
                        remotes: request.remotes,
                        host_address,
                        paths,
                        stage: Stage::MirrorParent,
                        builder_failed: false,
                        gz: None,
                        collectables: Vec::new(),
                        error: None,
                    },
                )
            },
        }
    }

    /// The next outside operation to perform, `None` once complete.
    pub fn next_action(&self) -> (a: Option<Action>)
        requires
            self.wf(),
        ensures
            match self.stage {
                Stage::MirrorParent => a matches Some(Action::EnsureDir { path }) && path@
                    == self.paths.mirror_parent@,
                Stage::WorkDir => a matches Some(Action::RecreateDir { path }) && path@
                    == self.paths.work_dir@,
                Stage::WorktreeDir => a matches Some(Action::EnsureDir { path }) && path@
                    == self.paths.worktree_dir@,
                Stage::AssetDir => a matches Some(Action::RecreateDir { path }) && path@
                    == self.paths.asset_dir@,
                Stage::QueryMirror => a matches Some(Action::CheckMirror { path }) && path@
                    == self.paths.mirror_dir@,
                Stage::Sync(mirror_exists) => match sync_decision(mirror_exists) {
                    SyncWay::Update => a matches Some(Action::GitUpdate { mirror_dir })
                        && mirror_dir@ == self.paths.mirror_dir@,
                    SyncWay::Mirror => a matches Some(Action::GitMirror { uri, mirror_dir })
                        && uri@ == self.uri@ && mirror_dir@ == self.paths.mirror_dir@,
                },
                Stage::Checkout => a matches Some(
                    Action::GitCheckout { mirror_dir, worktree_dir, commit_ref },
                ) && mirror_dir@ == self.paths.mirror_dir@ && worktree_dir@
                    == self.paths.worktree_dir@ && commit_ref@ == self.commit_ref@,
                Stage::ConfigDir => a matches Some(Action::EnsureDir { path }) && path@
                    == self.paths.config_dir@,
                Stage::WriteConfig => a matches Some(Action::WriteFile { path, contents })
                    && path@ == self.paths.config_file@ && contents@ == config_chars(
                    self.remotes@,
                ),
                Stage::RunBuilder => a matches Some(Action::RunBuilder { command })
                    && builder_command_ok(command, *self),
                Stage::CompressLog => a matches Some(Action::ReadLog { path }) && path@
                    == self.paths.log_file@,
                Stage::WriteGz => a matches Some(Action::WriteFileBytes { path, contents })
                    && path@ == self.paths.log_gz_file@ && contents@ == self.gz->0@,
                Stage::RemoveLog => a matches Some(Action::RemoveFile { path }) && path@
                    == self.paths.log_file@,
                Stage::Scan => a matches Some(Action::ScanAssets { dir }) && dir@
                    == self.paths.asset_dir@,
                Stage::Teardown => a matches Some(
                    Action::RemoveWorktree { mirror_dir, worktree_dir },
                ) && mirror_dir@ == self.paths.mirror_dir@ && worktree_dir@
                    == self.paths.worktree_dir@,
                Stage::Complete => a is None,
            },
    {
        match self.stage {
            Stage::MirrorParent => Some(
                Action::EnsureDir { path: self.paths.mirror_parent.clone() },
            ),
            Stage::WorkDir => Some(Action::RecreateDir { path: self.paths.work_dir.clone() }),
            Stage::WorktreeDir => Some(
                Action::EnsureDir { path: self.paths.worktree_dir.clone() },
            ),
            Stage::AssetDir => Some(Action::RecreateDir { path: self.paths.asset_dir.clone() }),
            Stage::QueryMirror => Some(
                Action::CheckMirror { path: self.paths.mirror_dir.clone() },
            ),
            Stage::Sync(mirror_exists) => {
                if mirror_exists {
                    Some(Action::GitUpdate { mirror_dir: self.paths.mirror_dir.clone() })
                } else {
                    Some(
                        Action::GitMirror {
                            uri: self.uri.clone(),
                            mirror_dir: self.paths.mirror_dir.clone(),
                        },
                    )
                }
            },
            Stage::Checkout => Some(
                Action::GitCheckout {
                    mirror_dir: self.paths.mirror_dir.clone(),
                    worktree_dir: self.paths.worktree_dir.clone(),
                    commit_ref: self.commit_ref.clone(),
                },
            ),
            Stage::ConfigDir => Some(Action::EnsureDir { path: self.paths.config_dir.clone() }),
            Stage::WriteConfig => Some(
                Action::WriteFile {
                    path: self.paths.config_file.clone(),
                    contents: render_config(&self.remotes),
                },
            ),
            Stage::RunBuilder => Some(Action::RunBuilder { command: self.builder_command() }),
            Stage::CompressLog => Some(Action::ReadLog { path: self.paths.log_file.clone() }),
            Stage::WriteGz => {
                let contents = match &self.gz {
                    Some(g) => clone_bytes(g),
                    None => Vec::new(),
                };
                Some(Action::WriteFileBytes { path: self.paths.log_gz_file.clone(), contents })
            },
            Stage::RemoveLog => Some(Action::RemoveFile { path: self.paths.log_file.clone() }),
            Stage::Scan => Some(Action::ScanAssets { dir: self.paths.asset_dir.clone() }),
            Stage::Teardown => Some(
                Action::RemoveWorktree {
                    mirror_dir: self.paths.mirror_dir.clone(),
                    worktree_dir: self.paths.worktree_dir.clone(),
                },
            ),
            Stage::Complete => None,
        }
    }

    fn builder_command(&self) -> (cmd: BuilderCommand)
        ensures
            builder_command_ok(cmd, *self),
    {
        let mut args: Vec<String> = Vec::new();
        args.push("nice".to_owned());
        args.push("-n20".to_owned());
        args.push("boulder".to_owned());
        args.push("build".to_owned());
        args.push("-p".to_owned());
        args.push("avalanche".to_owned());
        args.push("--update".to_owned());
        args.push("-o".to_owned());
        args.push(self.paths.asset_dir.clone());
        args.push("--config-dir".to_owned());
        args.push(self.paths.boulder_dir.clone());
        args.push("--".to_owned());
        args.push(self.relative_path.clone());
        proof {
            assert(args@.map_values(|s: String| s@) =~= builder_args_chars(
                self.paths.asset_dir@,
                self.paths.boulder_dir@,
                self.relative_path@,
            ));
        }
        BuilderCommand {
            program: "sudo".to_owned(),
            args,
            current_dir: self.paths.worktree_dir.clone(),
            log_file: self.paths.log_file.clone(),
        }
    }

    fn fail(&mut self, e: PipelineError)
        ensures
            *final(self) == fail_state(*old(self), e),
    {
        self.stage = Stage::Complete;
        self.error = Some(e);
    }

    /// Advances the machine on the outcome of the current action.
    pub fn step(&mut self, event: Event)
        requires
            old(self).wf(),
            !(old(self).stage is Complete),
            event_ok(old(self).stage, event),
        ensures
            final(self).wf(),
            step_rel(*old(self), event, *final(self)),
            old(self).stage is RunBuilder ==> final(self).stage is CompressLog,
    {
        let st = self.stage;
        match st {
            Stage::MirrorParent => match event {
                Event::Done => self.stage = Stage::WorkDir,
                _ => self.fail(PipelineError::DirSetup),
            },
            Stage::WorkDir => match event {
                Event::Done => self.stage = Stage::WorktreeDir,
                _ => self.fail(PipelineError::DirSetup),
            },
            Stage::WorktreeDir => match event {
                Event::Done => self.stage = Stage::AssetDir,
                _ => self.fail(PipelineError::DirSetup),
            },
            Stage::AssetDir => match event {
                Event::Done => self.stage = Stage::QueryMirror,
                _ => self.fail(PipelineError::DirSetup),
            },
            Stage::QueryMirror => match event {
                Event::MirrorExists(b) => self.stage = Stage::Sync(b),
                _ => proof {
                    assert(false);
                },
            },
            Stage::Sync(_) => match event {
                Event::Done => self.stage = Stage::Checkout,
                _ => self.fail(PipelineError::Git),
            },
            Stage::Checkout => match event {
                Event::Done => self.stage = Stage::ConfigDir,
                _ => self.fail(PipelineError::Checkout),
            },
            Stage::ConfigDir => match event {
                Event::Done => self.stage = Stage::WriteConfig,
                _ => self.fail(PipelineError::Config),
            },
            Stage::WriteConfig => match event {
                Event::Done => self.stage = Stage::RunBuilder,
                _ => self.fail(PipelineError::Config),
            },
            Stage::RunBuilder => match event {
                Event::BuilderFinished { success } => {
                    self.builder_failed = !success;
                    self.stage = Stage::CompressLog;
                },
                _ => proof {
                    assert(false);
                },
            },
            Stage::CompressLog => match event {
                Event::LogBytes(data) => {
                    match gzip_bytes(data.as_slice()) {
                        Some(g) => {
                            self.gz = Some(g);
                            self.stage = Stage::WriteGz;
                        },
                        None => self.fail(PipelineError::Compress),
                    }
                },
                _ => self.fail(PipelineError::Compress),
            },
            Stage::WriteGz => match event {
                Event::Done => self.stage = Stage::RemoveLog,
                _ => self.fail(PipelineError::Compress),
            },
            Stage::RemoveLog => match event {
                Event::Done => self.stage = Stage::Scan,
                _ => self.fail(PipelineError::Compress),
            },
            Stage::Scan => match event {
                Event::Entries(entries) => {
                    match collect_all(self.host_address.as_str(), self.build_id, &entries) {
                        Some(cs) => {
                            self.collectables = cs;
                            self.stage = Stage::Teardown;
                        },
                        None => self.fail(PipelineError::Scan),
                    }
                },
                _ => self.fail(PipelineError::Scan),
            },
            Stage::Teardown => match event {
                Event::Done => self.stage = Stage::Complete,
                _ => self.fail(PipelineError::WorktreeCleanup),
            },
            Stage::Complete => proof {
                assert(false);
            },
        }
    }

    /// The pipeline's result, once complete: the terminal error if an
    /// infrastructure step failed, otherwise whether the builder failed
    /// together with the collected artifacts.
    pub fn into_result(self) -> (r: Result<RunOutput, PipelineError>)
        requires
            self.stage is Complete,
        ensures
            match self.error {
                Some(e) => r == Result::<RunOutput, PipelineError>::Err(e),
                None => r matches Ok(out) && out.builder_failed == self.builder_failed
                    && out.collectables == self.collectables,
            },
    {
        match self.error {
            Some(e) => Err(e),
            None => Ok(
                RunOutput { builder_failed: self.builder_failed, collectables: self.collectables },
            ),
        }
    }
}

/// The terminal state an infrastructure failure leads to.
pub open spec fn fail_state(pre: Pipeline, e: PipelineError) -> Pipeline {
    Pipeline { stage: Stage::Complete, error: Some(e), ..pre }
}

/// Which events can answer the current stage's action.
pub open spec fn event_ok(stage: Stage, event: Event) -> bool {
    match stage {
        Stage::QueryMirror => event is MirrorExists,
        Stage::RunBuilder => event is BuilderFinished,
        Stage::CompressLog => event is LogBytes || event is Failed,
        Stage::Scan => event is Entries || event is Failed,
        Stage::Complete => false,
        _ => event is Done || event is Failed,
    }
}

/// The transition relation of the pipeline: linear with early exit on
/// infrastructure failure, and deferred exit on builder failure — a
/// builder failure still advances into log compression, never aborts.
pub open spec fn step_rel(pre: Pipeline, event: Event, post: Pipeline) -> bool {
    match pre.stage {
        Stage::MirrorParent => post == if event is Done {
            Pipeline { stage: Stage::WorkDir, ..pre }
        } else {
            fail_state(pre, PipelineError::DirSetup)
        },
        Stage::WorkDir => post == if event is Done {
            Pipeline { stage: Stage::WorktreeDir, ..pre }
        } else {
            fail_state(pre, PipelineError::DirSetup)
        },
        Stage::WorktreeDir => post == if event is Done {
            Pipeline { stage: Stage::AssetDir, ..pre }
        } else {
            fail_state(pre, PipelineError::DirSetup)
        },
        Stage::AssetDir => post == if event is Done {
            Pipeline { stage: Stage::QueryMirror, ..pre }
        } else {
            fail_state(pre, PipelineError::DirSetup)
        },
        Stage::QueryMirror => event matches Event::MirrorExists(b) && post == (Pipeline {
            stage: Stage::Sync(b),
            ..pre
        }),
        Stage::Sync(_) => post == if event is Done {
            Pipeline { stage: Stage::Checkout, ..pre }
        } else {
            fail_state(pre, PipelineError::Git)
        },
        Stage::Checkout => post == if event is Done {
            Pipeline { stage: Stage::ConfigDir, ..pre }
        } else {
            fail_state(pre, PipelineError::Checkout)
        },
        Stage::ConfigDir => post == if event is Done {
            Pipeline { stage: Stage::WriteConfig, ..pre }
        } else {
            fail_state(pre, PipelineError::Config)
        },
        Stage::WriteConfig => post == if event is Done {
            Pipeline { stage: Stage::RunBuilder, ..pre }
        } else {
            fail_state(pre, PipelineError::Config)
        },
        Stage::RunBuilder => event matches Event::BuilderFinished { success } && post == (Pipeline {
            stage: Stage::CompressLog,
            builder_failed: !success,
            ..pre
        }),
        Stage::CompressLog => match event {
            Event::LogBytes(_) => (post.gz is Some && post == Pipeline {
                stage: Stage::WriteGz,
                gz: post.gz,
                ..pre
            }) || post == fail_state(pre, PipelineError::Compress),
            _ => post == fail_state(pre, PipelineError::Compress),
        },
        Stage::WriteGz => post == if event is Done {
            Pipeline { stage: Stage::RemoveLog, ..pre }
        } else {
            fail_state(pre, PipelineError::Compress)
        },
        Stage::RemoveLog => post == if event is Done {
            Pipeline { stage: Stage::Scan, ..pre }
        } else {
            fail_state(pre, PipelineError::Compress)
        },
        Stage::Scan => match event {
            Event::Entries(entries) => if all_entry_uris_ok(
                pre.host_address@,
                pre.build_id as nat,
                entries@,
            ) {
                collected_ok(
                    post.collectables@,
                    pre.host_address@,
                    pre.build_id as nat,
                    entries@,
                ) && post == (Pipeline {
                    stage: Stage::Teardown,
                    collectables: post.collectables,
                    ..pre
                })
            } else {
                post == fail_state(pre, PipelineError::Scan)
            },
            _ => post == fail_state(pre, PipelineError::Scan),
        },
        Stage::Teardown => post == if event is Done {
            Pipeline { stage: Stage::Complete, ..pre }
        } else {
            fail_state(pre, PipelineError::WorktreeCleanup)
        },
        Stage::Complete => false,
    }
}

/// A builder failure never aborts the pipeline: whatever the builder's
/// exit, the next stage is log compression, only the failure flag records
/// the exit, and no infrastructure error is raised by it.
pub proof fn lemma_builder_failure_is_deferred(pre: Pipeline, success: bool, post: Pipeline)
    requires
        pre.stage is RunBuilder,
        step_rel(pre, Event::BuilderFinished { success }, post),
    ensures
        post.stage is CompressLog,
        post.builder_failed == !success,
        post.error == pre.error,
        post.collectables == pre.collectables,
{
}

/// A build that reaches the scan with no error and a successful builder,
/// and whose scan and teardown succeed, completes with no error and with
/// collectables that exactly match the classified, hashed contents of the
/// asset directory.
pub proof fn lemma_success_reports_scanned_artifacts(
    scan: Pipeline,
    entries: Vec<FileEntry>,
    after_scan: Pipeline,
    done: Pipeline,
)
    requires
        scan.stage is Scan,
        scan.error is None,
        !scan.builder_failed,
        all_entry_uris_ok(scan.host_address@, scan.build_id as nat, entries@),
        step_rel(scan, Event::Entries(entries), after_scan),
        step_rel(after_scan, Event::Done, done),
    ensures
        done.stage is Complete,
        done.error is None,
        !done.builder_failed,
        collected_ok(done.collectables@, scan.host_address@, scan.build_id as nat, entries@),
{
}

/// Concurrent builds with distinct build ids never share a work or asset
/// directory: the directories derived for them are disjoint — neither
/// equals the other nor lies inside it.
pub proof fn lemma_distinct_builds_disjoint(
    state_dir: Seq<char>,
    root: Seq<char>,
    a: nat,
    b: nat,
)
    requires
        a != b,
    ensures
        paths_disjoint(work_dir_chars(state_dir, a), work_dir_chars(state_dir, b)),
        paths_disjoint(asset_dir_chars(root, a), asset_dir_chars(root, b)),
{
    let wp = join_chars(state_dir, "work"@) + seq!['/'];
    lemma_keyed_dirs_disjoint(wp, a, b);
    assert(work_dir_chars(state_dir, a) =~= wp + dec_chars(a));
    assert(work_dir_chars(state_dir, b) =~= wp + dec_chars(b));
    let ap = join_chars(root, "assets"@) + seq!['/'];
    lemma_keyed_dirs_disjoint(ap, a, b);
    assert(asset_dir_chars(root, a) =~= ap + dec_chars(a));
    assert(asset_dir_chars(root, b) =~= ap + dec_chars(b));
}

/// A verified byte-for-byte copy.
fn clone_bytes(v: &Vec<u8>) -> (r: Vec<u8>)
    ensures
        r@ == v@,
{
    let mut r: Vec<u8> = Vec::new();
    let mut i: usize = 0;
    while i < v.len()
        invariant
            i <= v@.len(),
            r@ == v@.subrange(0, i as int),
        decreases v@.len() - i,
    {
        r.push(v[i]);
        proof {
            assert(r@ =~= v@.subrange(0, i + 1 as int));
        }
        i += 1;
    }
    proof {
        assert(v@.subrange(0, v@.len() as int) =~= v@);
    }
    r
}

} // verus!
