use avalanche::collect::{FileEntry, Kind};
use avalanche::config::{render_config, Remote};
use avalanche::digest::digest_hex;
use avalanche::pipeline::{
    Action, BuildRequest, Event, ExecutionState, Pipeline, PipelineError, Stage,
};
use avalanche::report::{outcome_of, Outcome};

fn request(uri: &str) -> BuildRequest {
    BuildRequest {
        build_id: 7,
        uri: uri.to_owned(),
        commit_ref: "4a1b2c".to_owned(),
        relative_path: "pkg/stone.yaml".to_owned(),
        remotes: vec![Remote {
            name: "volatile".to_owned(),
            index_uri: "https://packages.test/volatile/stone.index".to_owned(),
            priority: 10,
        }],
    }
}

fn state() -> ExecutionState {
    ExecutionState {
        cache_dir: "/var/cache/builds".to_owned(),
        state_dir: "/run/builds".to_owned(),
        root: "/srv/builds".to_owned(),
    }
}

const HOST: &str = "http://worker.test/";

#[test]
fn malformed_uri_aborts_before_any_action() {
    let r = Pipeline::new(request("not a uri"), &state(), HOST.to_owned());
    let e = match r {
        Err(e) => e,
        Ok(_) => panic!("expected a rejection"),
    };
    assert_eq!(e, PipelineError::InvalidUri);
    // The reporter turns the aborted invocation into a failure with no
    // collectables.
    match outcome_of(7, Err(e)) {
        Outcome::Failed {
            task_id,
            collectables,
        } => {
            assert_eq!(task_id, 7);
            assert!(collectables.is_empty());
        }
        Outcome::Succeeded { .. } => panic!("must fail"),
    }
}

#[test]
fn pathless_uri_is_malformed() {
    // Parses as a URI, but its path has no leading separator.
    let r = Pipeline::new(request("localhost"), &state(), HOST.to_owned());
    match r {
        Err(e) => assert_eq!(e, PipelineError::MalformedUri),
        Ok(_) => panic!("expected a rejection"),
    }
}

#[test]
fn resolved_paths_are_derived_from_request() {
    let pl = Pipeline::new(
        request("https://example.com/repo.git"),
        &state(),
        HOST.to_owned(),
    )
    .unwrap_or_else(|_| panic!("resolves"));
    assert_eq!(pl.paths.mirror_dir, "/var/cache/builds/repo.git");
    assert_eq!(pl.paths.mirror_parent, "/var/cache/builds");
    assert_eq!(pl.paths.work_dir, "/run/builds/work/7");
    assert_eq!(pl.paths.worktree_dir, "/run/builds/work/7/source");
    assert_eq!(pl.paths.asset_dir, "/srv/builds/assets/7");
    assert_eq!(pl.paths.log_file, "/srv/builds/assets/7/build.log");
    assert_eq!(pl.paths.log_gz_file, "/srv/builds/assets/7/build.log.gz");
    assert_eq!(pl.paths.boulder_dir, "/run/builds/work/7/etc/boulder");
    assert_eq!(pl.paths.config_dir, "/run/builds/work/7/etc/boulder/profile.d");
    assert_eq!(
        pl.paths.config_file,
        "/run/builds/work/7/etc/boulder/profile.d/avalanche.yaml"
    );
    assert_eq!(pl.stage, Stage::MirrorParent);
}

#[test]
fn existing_mirror_takes_update_path() {
    let mut pl = Pipeline::new(
        request("https://example.com/repo.git"),
        &state(),
        HOST.to_owned(),
    )
    .unwrap_or_else(|_| panic!("resolves"));
    for _ in 0..4 {
        pl.step(Event::Done);
    }
    assert_eq!(pl.stage, Stage::QueryMirror);
    pl.step(Event::MirrorExists(true));
    match pl.next_action() {
        Some(Action::GitUpdate { mirror_dir }) => {
            assert_eq!(mirror_dir, "/var/cache/builds/repo.git")
        }
        _ => panic!("an existing mirror must be updated, not cloned"),
    }
}

#[test]
fn fresh_mirror_takes_clone_path() {
    let mut pl = Pipeline::new(
        request("https://example.com/repo.git"),
        &state(),
        HOST.to_owned(),
    )
    .unwrap_or_else(|_| panic!("resolves"));
    for _ in 0..4 {
        pl.step(Event::Done);
    }
    pl.step(Event::MirrorExists(false));
    match pl.next_action() {
        Some(Action::GitMirror { uri, mirror_dir }) => {
            assert_eq!(uri, "https://example.com/repo.git");
            assert_eq!(mirror_dir, "/var/cache/builds/repo.git");
        }
        _ => panic!("a missing mirror must be cloned"),
    }
}

/// Drives a pipeline up to the builder stage, checking each emitted action.
fn drive_to_builder(pl: &mut Pipeline) {
    match pl.next_action() {
        Some(Action::EnsureDir { path }) => assert_eq!(path, "/var/cache/builds"),
        _ => panic!("mirror parent first"),
    }
    pl.step(Event::Done);
    match pl.next_action() {
        Some(Action::RecreateDir { path }) => assert_eq!(path, "/run/builds/work/7"),
        _ => panic!("work dir next"),
    }
    pl.step(Event::Done);
    match pl.next_action() {
        Some(Action::EnsureDir { path }) => assert_eq!(path, "/run/builds/work/7/source"),
        _ => panic!("worktree dir next"),
    }
    pl.step(Event::Done);
    match pl.next_action() {
        Some(Action::RecreateDir { path }) => assert_eq!(path, "/srv/builds/assets/7"),
        _ => panic!("asset dir next"),
    }
    pl.step(Event::Done);
    pl.step(Event::MirrorExists(false));
    pl.step(Event::Done);
    match pl.next_action() {
        Some(Action::GitCheckout {
            mirror_dir,
            worktree_dir,
            commit_ref,
        }) => {
            assert_eq!(mirror_dir, "/var/cache/builds/repo.git");
            assert_eq!(worktree_dir, "/run/builds/work/7/source");
            assert_eq!(commit_ref, "4a1b2c");
        }
        _ => panic!("checkout after sync"),
    }
    pl.step(Event::Done);
    pl.step(Event::Done);
    match pl.next_action() {
        Some(Action::WriteFile { path, contents }) => {
            assert_eq!(path, "/run/builds/work/7/etc/boulder/profile.d/avalanche.yaml");
            assert_eq!(contents, render_config(&request("x").remotes));
        }
        _ => panic!("config write after its dir"),
    }
    pl.step(Event::Done);
    match pl.next_action() {
        Some(Action::RunBuilder { command }) => {
            assert_eq!(command.program, "sudo");
            assert_eq!(
                command.args,
                vec![
                    "nice",
                    "-n20",
                    "boulder",
                    "build",
                    "-p",
                    "avalanche",
                    "--update",
                    "-o",
                    "/srv/builds/assets/7",
                    "--config-dir",
                    "/run/builds/work/7/etc/boulder",
                    "--",
                    "pkg/stone.yaml",
                ]
            );
            assert_eq!(command.current_dir, "/run/builds/work/7/source");
            assert_eq!(command.log_file, "/srv/builds/assets/7/build.log");
        }
        _ => panic!("builder after config"),
    }
}

/// Drives compression and scanning after the builder finished.
fn drive_collection(pl: &mut Pipeline, log: &[u8], entries: Vec<FileEntry>) {
    match pl.next_action() {
        Some(Action::ReadLog { path }) => assert_eq!(path, "/srv/builds/assets/7/build.log"),
        _ => panic!("compression follows the builder whatever its exit"),
    }
    pl.step(Event::LogBytes(log.to_vec()));
    match pl.next_action() {
        Some(Action::WriteFileBytes { path, contents }) => {
            assert_eq!(path, "/srv/builds/assets/7/build.log.gz");
            // gzip magic; the log is compressed, not copied through.
            assert_eq!(&contents[0..2], &[0x1f, 0x8b]);
            assert_ne!(contents, log.to_vec());
        }
        _ => panic!("compressed log is written next"),
    }
    pl.step(Event::Done);
    match pl.next_action() {
        Some(Action::RemoveFile { path }) => assert_eq!(path, "/srv/builds/assets/7/build.log"),
        _ => panic!("plain log is removed after compression"),
    }
    pl.step(Event::Done);
    match pl.next_action() {
        Some(Action::ScanAssets { dir }) => assert_eq!(dir, "/srv/builds/assets/7"),
        _ => panic!("scan after compression"),
    }
    pl.step(Event::Entries(entries));
    match pl.next_action() {
        Some(Action::RemoveWorktree {
            mirror_dir,
            worktree_dir,
        }) => {
            assert_eq!(mirror_dir, "/var/cache/builds/repo.git");
            assert_eq!(worktree_dir, "/run/builds/work/7/source");
        }
        _ => panic!("teardown last"),
    }
    pl.step(Event::Done);
    assert_eq!(pl.stage, Stage::Complete);
}

#[test]
fn successful_build_reports_all_artifacts() {
    let mut pl = Pipeline::new(
        request("https://example.com/repo.git"),
        &state(),
        HOST.to_owned(),
    )
    .unwrap_or_else(|_| panic!("resolves"));
    drive_to_builder(&mut pl);
    pl.step(Event::BuilderFinished { success: true });
    let entries = vec![
        FileEntry {
            name: "pkg.stone".to_owned(),
            content: b"stone payload".to_vec(),
        },
        FileEntry {
            name: "build.log.gz".to_owned(),
            content: b"gz payload".to_vec(),
        },
    ];
    drive_collection(&mut pl, b"build output...", entries);
    let out = match pl.into_result() {
        Ok(out) => out,
        Err(_) => panic!("no infrastructure error"),
    };
    assert!(!out.builder_failed);
    assert_eq!(out.collectables.len(), 2);
    assert_eq!(out.collectables[0].kind, Kind::Package);
    assert_eq!(
        out.collectables[0].uri,
        "http://worker.test/assets/7/pkg.stone"
    );
    assert_eq!(out.collectables[0].sha256sum, digest_hex(b"stone payload"));
    assert_eq!(out.collectables[1].kind, Kind::Log);
    assert_eq!(
        out.collectables[1].uri,
        "http://worker.test/assets/7/build.log.gz"
    );
    assert_eq!(out.collectables[1].sha256sum, digest_hex(b"gz payload"));
    match outcome_of(7, Ok(out)) {
        Outcome::Succeeded {
            task_id,
            collectables,
        } => {
            assert_eq!(task_id, 7);
            assert_eq!(collectables.len(), 2);
        }
        Outcome::Failed { .. } => panic!("must succeed"),
    }
}

#[test]
fn builder_failure_still_collects_the_log() {
    let mut pl = Pipeline::new(
        request("https://example.com/repo.git"),
        &state(),
        HOST.to_owned(),
    )
    .unwrap_or_else(|_| panic!("resolves"));
    drive_to_builder(&mut pl);
    pl.step(Event::BuilderFinished { success: false });
    // The pipeline keeps going: the log is compressed and scanned.
    let entries = vec![FileEntry {
        name: "build.log.gz".to_owned(),
        content: b"gz payload".to_vec(),
    }];
    drive_collection(&mut pl, b"error: recipe failed", entries);
    let out = match pl.into_result() {
        Ok(out) => out,
        Err(_) => panic!("a builder failure is not an infrastructure error"),
    };
    assert!(out.builder_failed);
    assert_eq!(out.collectables.len(), 1);
    assert_eq!(out.collectables[0].kind, Kind::Log);
    match outcome_of(7, Ok(out)) {
        Outcome::Failed {
            task_id,
            collectables,
        } => {
            assert_eq!(task_id, 7);
            assert_eq!(collectables.len(), 1);
            assert_eq!(collectables[0].kind, Kind::Log);
        }
        Outcome::Succeeded { .. } => panic!("must fail"),
    }
}

#[test]
fn git_failure_aborts_with_no_collectables() {
    let mut pl = Pipeline::new(
        request("https://example.com/repo.git"),
        &state(),
        HOST.to_owned(),
    )
    .unwrap_or_else(|_| panic!("resolves"));
    for _ in 0..4 {
        pl.step(Event::Done);
    }
    pl.step(Event::MirrorExists(false));
    pl.step(Event::Failed);
    assert_eq!(pl.stage, Stage::Complete);
    match pl.into_result() {
        Err(e) => assert_eq!(e, PipelineError::Git),
        Ok(_) => panic!("a git failure aborts"),
    }
}

#[test]
fn cleanup_failure_surfaces_as_the_terminal_error() {
    let mut pl = Pipeline::new(
        request("https://example.com/repo.git"),
        &state(),
        HOST.to_owned(),
    )
    .unwrap_or_else(|_| panic!("resolves"));
    drive_to_builder(&mut pl);
    pl.step(Event::BuilderFinished { success: true });
    pl.step(Event::LogBytes(b"log".to_vec()));
    pl.step(Event::Done);
    pl.step(Event::Done);
    pl.step(Event::Entries(Vec::new()));
    assert_eq!(pl.stage, Stage::Teardown);
    pl.step(Event::Failed);
    match pl.into_result() {
        Err(e) => assert_eq!(e, PipelineError::WorktreeCleanup),
        Ok(_) => panic!("cleanup failure is the pipeline's error"),
    }
}

#[test]
fn scan_aborts_when_an_asset_uri_does_not_parse() {
    let mut pl = Pipeline::new(
        request("https://example.com/repo.git"),
        &state(),
        // A host address that poisons every built asset URI.
        "not a uri/".to_owned(),
    )
    .unwrap_or_else(|_| panic!("resolves"));
    drive_to_builder_quiet(&mut pl);
    pl.step(Event::BuilderFinished { success: true });
    pl.step(Event::LogBytes(b"log".to_vec()));
    pl.step(Event::Done);
    pl.step(Event::Done);
    pl.step(Event::Entries(vec![FileEntry {
        name: "pkg.stone".to_owned(),
        content: b"x".to_vec(),
    }]));
    match pl.into_result() {
        Err(e) => assert_eq!(e, PipelineError::Scan),
        Ok(_) => panic!("an unparseable asset URI aborts the scan"),
    }
}

#[test]
fn each_infrastructure_stage_reports_its_own_error() {
    let fresh = || {
        Pipeline::new(
            request("https://example.com/repo.git"),
            &state(),
            HOST.to_owned(),
        )
        .unwrap_or_else(|_| panic!("resolves"))
    };
    // Directory preparation.
    let mut pl = fresh();
    pl.step(Event::Failed);
    assert_eq!(pl.into_result().unwrap_err(), PipelineError::DirSetup);
    // Checkout.
    let mut pl = fresh();
    for _ in 0..4 {
        pl.step(Event::Done);
    }
    pl.step(Event::MirrorExists(true));
    pl.step(Event::Done);
    pl.step(Event::Failed);
    assert_eq!(pl.into_result().unwrap_err(), PipelineError::Checkout);
    // Configuration write.
    let mut pl = fresh();
    for _ in 0..4 {
        pl.step(Event::Done);
    }
    pl.step(Event::MirrorExists(true));
    pl.step(Event::Done);
    pl.step(Event::Done);
    pl.step(Event::Done);
    pl.step(Event::Failed);
    assert_eq!(pl.into_result().unwrap_err(), PipelineError::Config);
    // Log compression: even a successful build fails on it.
    let mut pl = fresh();
    drive_to_builder_quiet(&mut pl);
    pl.step(Event::BuilderFinished { success: true });
    pl.step(Event::Failed);
    assert_eq!(pl.into_result().unwrap_err(), PipelineError::Compress);
}

fn drive_to_builder_quiet(pl: &mut Pipeline) {
    for _ in 0..4 {
        pl.step(Event::Done);
    }
    pl.step(Event::MirrorExists(true));
    for _ in 0..4 {
        pl.step(Event::Done);
    }
}
