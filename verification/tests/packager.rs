use tracing_slf4j::packager::{
    start, step, tool_command, tool_outcome, BuildAction, BuildEvent, BuildLayout, BuildPhase,
    BuildTask, PackageError, Platform,
};

fn exited(success: bool, stdout: &str, stderr: &str) -> BuildEvent {
    BuildEvent::ToolExited {
        success,
        stdout: stdout.as_bytes().to_vec(),
        stderr: stderr.as_bytes().to_vec(),
    }
}

fn listed(names: &[&str]) -> BuildEvent {
    BuildEvent::OutputListed { names: names.iter().map(|name| String::from(*name)).collect() }
}

fn failed(stdout: &str, stderr: &str) -> PackageError {
    PackageError::CompanionBuildFailed {
        stdout: stdout.as_bytes().to_vec(),
        stderr: stderr.as_bytes().to_vec(),
    }
}

fn run(events: Vec<BuildEvent>) -> Vec<BuildAction> {
    let (mut phase, first) = start();
    let mut actions = vec![first];
    for event in events {
        match step(phase, event) {
            Some((next, action)) => {
                phase = next;
                actions.push(action);
            }
            None => break,
        }
    }
    actions
}

fn good_events() -> Vec<BuildEvent> {
    vec![
        BuildEvent::SourcesCopied,
        exited(true, "BUILD SUCCESSFUL", ""),
        listed(&["tracing-slf4j-0.1.0.jar", "tracing-slf4j-0.1.0-all.jar"]),
        BuildEvent::ArtifactEmbedded,
        exited(true, "", ""),
    ]
}

#[test]
fn the_step_begins_by_copying_the_sources() {
    assert_eq!(start(), (BuildPhase::CopyingSources, BuildAction::CopySources));
}

#[test]
fn a_good_run_packages_scans_embeds_and_cleans() {
    assert_eq!(
        run(good_events()),
        vec![
            BuildAction::CopySources,
            BuildAction::RunTool(BuildTask::Package),
            BuildAction::ListOutput,
            BuildAction::EmbedArtifact { index: 1 },
            BuildAction::RunTool(BuildTask::Clean),
            BuildAction::Finish,
        ]
    );
}

#[test]
fn a_good_run_passes_through_every_phase() {
    let mut phase = start().0;
    let mut seen = vec![phase];
    for event in good_events() {
        phase = step(phase, event).unwrap().0;
        seen.push(phase);
    }
    assert_eq!(
        seen,
        vec![
            BuildPhase::CopyingSources,
            BuildPhase::Packaging,
            BuildPhase::Scanning,
            BuildPhase::Embedding,
            BuildPhase::Cleaning,
            BuildPhase::Done,
        ]
    );
}

#[test]
fn two_runs_on_the_same_events_decide_the_same() {
    assert_eq!(run(good_events()), run(good_events()));
    let (after_first, _) = step(BuildPhase::Cleaning, exited(true, "", "")).unwrap();
    assert_eq!(after_first, BuildPhase::Done);
    assert_eq!(start(), (BuildPhase::CopyingSources, BuildAction::CopySources));
}

#[test]
fn a_failed_packaging_aborts_with_both_streams() {
    let next = step(BuildPhase::Packaging, exited(false, "compiling", "error: missing symbol"));
    assert_eq!(
        next,
        Some((BuildPhase::Failed, BuildAction::Abort(failed("compiling", "error: missing symbol"))))
    );
}

#[test]
fn a_failed_cleanup_aborts_with_both_streams() {
    let next = step(BuildPhase::Cleaning, exited(false, "", "cannot delete"));
    assert_eq!(next, Some((BuildPhase::Failed, BuildAction::Abort(failed("", "cannot delete")))));
}

#[test]
fn the_streams_are_kept_byte_for_byte() {
    let event = BuildEvent::ToolExited {
        success: false,
        stdout: vec![0xff, 0x00, 0x80],
        stderr: vec![0xc3, 0x28],
    };
    let expected = PackageError::CompanionBuildFailed {
        stdout: vec![0xff, 0x00, 0x80],
        stderr: vec![0xc3, 0x28],
    };
    assert_eq!(
        step(BuildPhase::Packaging, event),
        Some((BuildPhase::Failed, BuildAction::Abort(expected)))
    );
}

#[test]
fn an_output_without_the_archive_aborts_with_artifact_not_found() {
    let expected = Some((BuildPhase::Failed, BuildAction::Abort(PackageError::ArtifactNotFound)));
    assert_eq!(step(BuildPhase::Scanning, listed(&[])), expected);
    assert_eq!(step(BuildPhase::Scanning, listed(&["tracing-slf4j-0.1.0.jar", "tmp"])), expected);
}

#[test]
fn of_several_archives_the_first_listed_is_embedded() {
    let next = step(
        BuildPhase::Scanning,
        listed(&["readme", "tracing-slf4j-2-all.jar", "tracing-slf4j-1-all.jar"]),
    );
    assert_eq!(next, Some((BuildPhase::Embedding, BuildAction::EmbedArtifact { index: 1 })));
}

#[test]
fn the_final_phases_wait_for_nothing() {
    for phase in [BuildPhase::Done, BuildPhase::Failed] {
        assert_eq!(step(phase, BuildEvent::SourcesCopied), None);
        assert_eq!(step(phase, exited(true, "", "")), None);
        assert_eq!(step(phase, exited(false, "", "")), None);
        assert_eq!(step(phase, listed(&["tracing-slf4j-all.jar"])), None);
        assert_eq!(step(phase, BuildEvent::ArtifactEmbedded), None);
    }
}

#[test]
fn an_event_out_of_turn_is_refused() {
    assert_eq!(step(BuildPhase::CopyingSources, exited(true, "", "")), None);
    assert_eq!(step(BuildPhase::CopyingSources, BuildEvent::ArtifactEmbedded), None);
    assert_eq!(step(BuildPhase::Packaging, BuildEvent::SourcesCopied), None);
    assert_eq!(step(BuildPhase::Packaging, listed(&["tracing-slf4j-all.jar"])), None);
    assert_eq!(step(BuildPhase::Scanning, exited(true, "", "")), None);
    assert_eq!(step(BuildPhase::Embedding, listed(&["tracing-slf4j-all.jar"])), None);
    assert_eq!(step(BuildPhase::Embedding, exited(true, "", "")), None);
    assert_eq!(step(BuildPhase::Cleaning, BuildEvent::ArtifactEmbedded), None);
}

#[test]
fn a_run_that_failed_takes_no_further_step() {
    let actions = run(vec![
        BuildEvent::SourcesCopied,
        exited(false, "out", "err"),
        listed(&["tracing-slf4j-all.jar"]),
        BuildEvent::ArtifactEmbedded,
    ]);
    assert_eq!(
        actions,
        vec![
            BuildAction::CopySources,
            BuildAction::RunTool(BuildTask::Package),
            BuildAction::Abort(failed("out", "err")),
        ]
    );
}

#[test]
fn the_tool_is_judged_by_its_exit_status() {
    assert_eq!(tool_outcome(true, b"noise".to_vec(), b"warnings".to_vec()), Ok(()));
    assert_eq!(tool_outcome(false, b"noise".to_vec(), b"fatal".to_vec()), Err(failed("noise", "fatal")));
    assert_eq!(tool_outcome(false, Vec::new(), Vec::new()), Err(failed("", "")));
}

#[test]
fn the_tool_has_a_name_on_each_platform() {
    assert_eq!(tool_command(Platform::Unix), "./gradlew");
    assert_eq!(tool_command(Platform::Windows), "gradlew.bat");
}

#[test]
fn each_task_has_its_argument() {
    assert_eq!(BuildTask::Package.argument(), "shadowjar");
    assert_eq!(BuildTask::Clean.argument(), "clean");
}

#[test]
fn the_layout_names_the_directories_of_the_step() {
    let layout = BuildLayout::standard();
    assert_eq!(layout.source_dir, "java");
    assert_eq!(layout.work_dir, "java");
    assert_eq!(layout.build_dir, "build");
    assert_eq!(layout.libs_dir, "libs");
    assert_eq!(layout.resource_file, "dependencies.jar");
}

#[test]
fn each_error_says_what_went_wrong() {
    assert_eq!(failed("out", "err").message(), "Building Java dependency failed");
    assert_eq!(PackageError::ArtifactNotFound.message(), "Could not find output jar");
}
