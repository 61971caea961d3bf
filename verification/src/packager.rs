//! The build step that packages the runtime-side companion and hands its
//! archive over for embedding.
//!
//! The step itself copies files and runs the build tool; none of that happens
//! here. This module holds its decisions: a driver performs the action it is
//! given, reports what happened as an event, and is told what to do next.

use vstd::prelude::*;
use crate::artifact::{
    artifact_name, find_artifact, first_artifact, is_first_artifact, lemma_first_artifact, listing,
};

verus! {

/// Why the companion archive could not be produced.
#[derive(Clone, Debug, PartialEq, Eq)]
pub enum PackageError {
    /// The build tool ended with a failure. Holds the bytes that it wrote to
    /// its standard output and to its standard error.
    CompanionBuildFailed { stdout: Vec<u8>, stderr: Vec<u8> },
    /// The build tool's output directory holds no file named like the
    /// archive.
    ArtifactNotFound,
}

impl PackageError {
    /// One line that says what went wrong.
    pub fn message(&self) -> (text: &'static str)
        ensures
            self is CompanionBuildFailed ==> text@ == "Building Java dependency failed"@,
            self is ArtifactNotFound ==> text@ == "Could not find output jar"@,
    {
        match self {
            PackageError::CompanionBuildFailed { .. } => "Building Java dependency failed",
            PackageError::ArtifactNotFound => "Could not find output jar",
        }
    }
}

/// The systems on which the build tool can be started.
#[derive(Clone, Copy, Debug, PartialEq, Eq, Hash, Structural)]
pub enum Platform {
    Unix,
    Windows,
}

/// The two tasks that the build tool is asked to run.
#[derive(Clone, Copy, Debug, PartialEq, Eq, Hash, Structural)]
pub enum BuildTask {
    /// Compile the companion and pack it, with all it depends on, into one
    /// archive.
    Package,
    /// Remove what the build generated.
    Clean,
}

/// Where the step stands: each phase but the last two waits for the event
/// that ends it.
#[derive(Clone, Copy, Debug, PartialEq, Eq, Hash, Structural)]
pub enum BuildPhase {
    CopyingSources,
    Packaging,
    Scanning,
    Embedding,
    Cleaning,
    Done,
    Failed,
}

/// What the driver reports back.
#[derive(Clone, Debug, PartialEq, Eq)]
pub enum BuildEvent {
    /// The companion's sources were copied to the working directory.
    SourcesCopied,
    /// The build tool has ended; `success` tells whether its exit status was
    /// zero.
    ToolExited { success: bool, stdout: Vec<u8>, stderr: Vec<u8> },
    /// The names of the files in the build tool's output directory.
    OutputListed { names: Vec<String> },
    /// The archive was copied to the place from which it is embedded.
    ArtifactEmbedded,
}

/// What the driver is to do next.
#[derive(Clone, Debug, PartialEq, Eq)]
pub enum BuildAction {
    /// Copy the companion's sources to a working directory of their own.
    CopySources,
    /// Run the build tool on the named job in the working directory, keeping
    /// what it writes.
    RunTool(BuildTask),
    /// List the build tool's output directory.
    ListOutput,
    /// Copy the listed file at `index` to the place from which it is
    /// embedded.
    EmbedArtifact { index: usize },
    /// The step is complete.
    Finish,
    /// The step has failed and the build with it.
    Abort(PackageError),
}

/// What a run of the build tool amounts to: nothing on success, and on
/// failure `CompanionBuildFailed` with both captured streams.
pub open spec fn tool_result(success: bool, stdout: Vec<u8>, stderr: Vec<u8>) -> Result<
    (),
    PackageError,
> {
    if success {
        Ok(())
    } else {
        Err(PackageError::CompanionBuildFailed { stdout, stderr })
    }
}

/// The phase and the action that follow when `event` arrives in `phase`;
/// `None` where the phase does not wait for such an event.
pub open spec fn transition(phase: BuildPhase, event: BuildEvent) -> Option<
    (BuildPhase, BuildAction),
> {
    match (phase, event) {
        (BuildPhase::CopyingSources, BuildEvent::SourcesCopied) => Some(
            (BuildPhase::Packaging, BuildAction::RunTool(BuildTask::Package)),
        ),
        (BuildPhase::Packaging, BuildEvent::ToolExited { success, stdout, stderr }) => Some(
            match tool_result(success, stdout, stderr) {
                Ok(_) => (BuildPhase::Scanning, BuildAction::ListOutput),
                Err(error) => (BuildPhase::Failed, BuildAction::Abort(error)),
            },
        ),
        (BuildPhase::Scanning, BuildEvent::OutputListed { names }) => Some(
            match first_artifact(listing(names)) {
                Some(index) => (
                    BuildPhase::Embedding,
                    BuildAction::EmbedArtifact { index: index as usize },
                ),
                None => (BuildPhase::Failed, BuildAction::Abort(PackageError::ArtifactNotFound)),
            },
        ),
        (BuildPhase::Embedding, BuildEvent::ArtifactEmbedded) => Some(
            (BuildPhase::Cleaning, BuildAction::RunTool(BuildTask::Clean)),
        ),
        (BuildPhase::Cleaning, BuildEvent::ToolExited { success, stdout, stderr }) => Some(
            match tool_result(success, stdout, stderr) {
                Ok(_) => (BuildPhase::Done, BuildAction::Finish),
                Err(error) => (BuildPhase::Failed, BuildAction::Abort(error)),
            },
        ),
        _ => None,
    }
}

/// The names of the directories and files that the step works with.
#[derive(Clone, Copy, Debug, PartialEq, Eq)]
pub struct BuildLayout {
    /// The directory of the companion's sources, below the package's root.
    pub source_dir: &'static str,
    /// The working directory that the sources are copied to, below the
    /// build's output directory.
    pub work_dir: &'static str,
    /// The directory that the build tool writes to, below the working
    /// directory.
    pub build_dir: &'static str,
    /// The directory of the packed archives, below `build_dir`.
    pub libs_dir: &'static str,
    /// The file that the archive is copied to for embedding, below the
    /// build's output directory.
    pub resource_file: &'static str,
}

impl BuildLayout {
    /// The layout that the step uses.
    pub fn standard() -> (layout: BuildLayout)
        ensures
            layout.source_dir@ == "java"@,
            layout.work_dir@ == "java"@,
            layout.build_dir@ == "build"@,
            layout.libs_dir@ == "libs"@,
            layout.resource_file@ == "dependencies.jar"@,
    {
        BuildLayout {
            source_dir: "java",
            work_dir: "java",
            build_dir: "build",
            libs_dir: "libs",
            resource_file: "dependencies.jar",
        }
    }
}

/// The name under which the build tool is started on `platform`.
pub fn tool_command(platform: Platform) -> (command: &'static str)
    ensures
        platform == Platform::Unix ==> command@ == "./gradlew"@,
        platform == Platform::Windows ==> command@ == "gradlew.bat"@,
{
    match platform {
        Platform::Unix => "./gradlew",
        Platform::Windows => "gradlew.bat",
    }
}

impl BuildTask {
    /// The argument by which the build tool is told what to run.
    pub fn argument(self) -> (argument: &'static str)
        ensures
            self == BuildTask::Package ==> argument@ == "shadowjar"@,
            self == BuildTask::Clean ==> argument@ == "clean"@,
    {
        match self {
            BuildTask::Package => "shadowjar",
            BuildTask::Clean => "clean",
        }
    }
}

/// Judges a run of the build tool by its exit status. A failure keeps both
/// captured streams, so that the build can show them.
pub fn tool_outcome(success: bool, stdout: Vec<u8>, stderr: Vec<u8>) -> (outcome: Result<
    (),
    PackageError,
>)
    ensures
        outcome == tool_result(success, stdout, stderr),
{
    if success {
        Ok(())
    } else {
        Err(PackageError::CompanionBuildFailed { stdout, stderr })
    }
}

/// Begins the step: the first phase and the first thing to do.
pub fn start() -> (first: (BuildPhase, BuildAction))
    ensures
        first == (BuildPhase::CopyingSources, BuildAction::CopySources),
{
    (BuildPhase::CopyingSources, BuildAction::CopySources)
}

/// Takes the step forward by one event.
///
/// Returns the phase that follows and the action to perform, or `None` where
/// `phase` does not wait for `event`; the phases `Done` and `Failed` wait for
/// none.
pub fn step(phase: BuildPhase, event: BuildEvent) -> (next: Option<(BuildPhase, BuildAction)>)
    ensures
        next == transition(phase, event),
{
    match (phase, event) {
        (BuildPhase::CopyingSources, BuildEvent::SourcesCopied) => Some(
            (BuildPhase::Packaging, BuildAction::RunTool(BuildTask::Package)),
        ),
        (BuildPhase::Packaging, BuildEvent::ToolExited { success, stdout, stderr }) => {
            match tool_outcome(success, stdout, stderr) {
                Ok(_) => Some((BuildPhase::Scanning, BuildAction::ListOutput)),
                Err(error) => Some((BuildPhase::Failed, BuildAction::Abort(error))),
            }
        },
        (BuildPhase::Scanning, BuildEvent::OutputListed { names }) => {
            match find_artifact(&names) {
                Some(index) => Some((BuildPhase::Embedding, BuildAction::EmbedArtifact { index })),
                None => Some(
                    (BuildPhase::Failed, BuildAction::Abort(PackageError::ArtifactNotFound)),
                ),
            }
        },
        (BuildPhase::Embedding, BuildEvent::ArtifactEmbedded) => Some(
            (BuildPhase::Cleaning, BuildAction::RunTool(BuildTask::Clean)),
        ),
        (BuildPhase::Cleaning, BuildEvent::ToolExited { success, stdout, stderr }) => {
            match tool_outcome(success, stdout, stderr) {
                Ok(_) => Some((BuildPhase::Done, BuildAction::Finish)),
                Err(error) => Some((BuildPhase::Failed, BuildAction::Abort(error))),
            }
        },
        _ => None,
    }
}

/// How far a phase is from the start of the step. The two final phases share
/// the last place.
pub open spec fn progress(phase: BuildPhase) -> nat {
    match phase {
        BuildPhase::CopyingSources => 0,
        BuildPhase::Packaging => 1,
        BuildPhase::Scanning => 2,
        BuildPhase::Embedding => 3,
        BuildPhase::Cleaning => 4,
        BuildPhase::Done => 5,
        BuildPhase::Failed => 5,
    }
}

/// Every event that a phase waits for takes the step forward, so a run ends
/// after five events at most. The step is in `Failed` exactly after an
/// `Abort` and in `Done` exactly after `Finish`, and neither of the two
/// waits for anything.
pub proof fn lemma_step_advances(phase: BuildPhase, event: BuildEvent)
    ensures
        transition(phase, event) matches Some((next, action)) ==> progress(phase) < progress(next),
        transition(phase, event) matches Some((next, action)) ==> (next == BuildPhase::Failed
            <==> action is Abort),
        transition(phase, event) matches Some((next, action)) ==> (next == BuildPhase::Done
            <==> action == BuildAction::Finish),
        phase == BuildPhase::Done || phase == BuildPhase::Failed ==> transition(phase, event)
            is None,
{
}

/// The phase that the step is in once the driver has reported `events`, one
/// after the other, from `phase` on; `None` where one of them came out of
/// turn.
pub open spec fn phase_after(phase: BuildPhase, events: Seq<BuildEvent>) -> Option<BuildPhase>
    decreases events.len(),
{
    if events.len() == 0 {
        Some(phase)
    } else {
        match transition(phase, events[0]) {
            Some((next, _)) => phase_after(next, events.drop_first()),
            None => None,
        }
    }
}

/// The step is complete only after exactly five events: the sources were
/// copied, the packaging succeeded, the output held an archive, the archive
/// was embedded, and the cleanup succeeded.
pub proof fn lemma_done_after_every_part(events: Seq<BuildEvent>)
    requires
        phase_after(BuildPhase::CopyingSources, events) == Some(BuildPhase::Done),
    ensures
        events.len() == 5,
        events[0] == BuildEvent::SourcesCopied,
        events[1] is ToolExited && events[1]->success,
        events[2] is OutputListed && first_artifact(listing(events[2]->names)) is Some,
        events[3] == BuildEvent::ArtifactEmbedded,
        events[4] is ToolExited && events[4]->success,
{
    let rest1 = events.drop_first();
    let rest2 = rest1.drop_first();
    let rest3 = rest2.drop_first();
    let rest4 = rest3.drop_first();
    let rest5 = rest4.drop_first();
    reveal_with_fuel(phase_after, 7);
    assert(events.len() > 0);
    assert(rest1.len() > 0);
    assert(rest2.len() > 0);
    assert(rest3.len() > 0);
    assert(rest4.len() > 0);
    assert(rest5.len() == 0) by {
        if rest5.len() > 0 {
            lemma_step_advances(BuildPhase::Done, rest5[0]);
        }
    }
    assert(events[1] == rest1[0]);
    assert(events[2] == rest2[0]);
    assert(events[3] == rest3[0]);
    assert(events[4] == rest4[0]);
}

/// The other way round: where the packaging and the cleanup succeed and the
/// output holds an archive, the five events take the step to `Done`.
pub proof fn lemma_every_part_done(events: Seq<BuildEvent>)
    requires
        events.len() == 5,
        events[0] == BuildEvent::SourcesCopied,
        events[1] is ToolExited && events[1]->success,
        events[2] is OutputListed && first_artifact(listing(events[2]->names)) is Some,
        events[3] == BuildEvent::ArtifactEmbedded,
        events[4] is ToolExited && events[4]->success,
    ensures
        phase_after(BuildPhase::CopyingSources, events) == Some(BuildPhase::Done),
{
    let rest1 = events.drop_first();
    let rest2 = rest1.drop_first();
    let rest3 = rest2.drop_first();
    let rest4 = rest3.drop_first();
    reveal_with_fuel(phase_after, 7);
    assert(events[1] == rest1[0]);
    assert(events[2] == rest2[0]);
    assert(events[3] == rest3[0]);
    assert(events[4] == rest4[0]);
    assert(rest4.drop_first().len() == 0);
}

/// The archive that is embedded is the first file of the listing that is
/// named like one, and the step is given up for want of an archive exactly
/// when the listing holds none.
pub proof fn lemma_scan_picks_first(names: Vec<String>, next: BuildPhase, action: BuildAction)
    requires
        transition(BuildPhase::Scanning, (BuildEvent::OutputListed { names })) == Some(
            (next, action),
        ),
    ensures
        action is EmbedArtifact || action == BuildAction::Abort(PackageError::ArtifactNotFound),
        action is EmbedArtifact ==> is_first_artifact(listing(names), action->index as int),
        action is Abort <==> forall|i: int|
            0 <= i < names@.len() ==> !artifact_name(#[trigger] names@[i]@),
{
    lemma_first_artifact(listing(names));
    assert(names@.len() == names.len());
    assert forall|i: int| 0 <= i < names@.len() implies listing(names)[i] == #[trigger] names@[i]@ by {}
    if action is EmbedArtifact {
        let index = first_artifact(listing(names))->0;
        assert(artifact_name(names@[index]@));
    }
}

/// The build tool is asked to clean up only once the archive has been
/// embedded, and to package only once the sources have been copied.
pub proof fn lemma_tasks_in_order(phase: BuildPhase, event: BuildEvent)
    ensures
        transition(phase, event) matches Some((next, action)) && action == BuildAction::RunTool(
            BuildTask::Clean,
        ) ==> phase == BuildPhase::Embedding && event == BuildEvent::ArtifactEmbedded,
        transition(phase, event) matches Some((next, action)) && action == BuildAction::RunTool(
            BuildTask::Package,
        ) ==> phase == BuildPhase::CopyingSources && event == BuildEvent::SourcesCopied,
{
}

} // verus!
