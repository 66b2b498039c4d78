use warpfox::errors::Operation;
use warpfox::errors::PipelineError;
use warpfox::pipeline::cleanup_outcome;
use warpfox::pipeline::Action;
use warpfox::pipeline::Controller;
use warpfox::pipeline::Event;
use warpfox::pipeline::Stage;
use warpfox::tool::tool_outcome;

#[test]
fn happy_path_runs_every_stage_then_cleans_up_once() {
    let mut c = Controller::new();
    assert_eq!(c.stage, Stage::Idle);
    assert_eq!(c.step(Event::Advance), Action::StartDownload);
    assert_eq!(c.step(Event::Advance), Action::StartExtract);
    assert_eq!(c.step(Event::Advance), Action::StartBootstrap);
    assert_eq!(c.step(Event::Advance), Action::StartBuild);
    assert_eq!(c.step(Event::Advance), Action::RunCleanup);
    assert_eq!(c.stage, Stage::CleaningUp);
    assert_eq!(c.step(Event::CleanupSucceeded), Action::Wait);
    assert_eq!(c.stage, Stage::Done);
    assert_eq!(c.cleanups, 1);
    assert_eq!(c.exit_code(), 0);
}

#[test]
fn download_failure_skips_extraction_and_cleans_up() {
    let mut c = Controller::new();
    c.step(Event::Advance);
    assert_eq!(c.stage, Stage::Downloading);
    let err = PipelineError::Network {
        op: Operation::HttpGet,
    };
    // A non-2xx response fails the fetch; extraction is never started.
    let action = c.step(Event::Failure(err));
    assert_eq!(action, Action::RunCleanup);
    assert_ne!(action, Action::StartExtract);
    assert_eq!(c.stage, Stage::CleaningUp);
    assert_eq!(c.step(Event::CleanupSucceeded), Action::Wait);
    assert_eq!(c.stage, Stage::Failed);
    assert_eq!(c.current_failure(), Some(err));
    assert_eq!(c.cleanups, 1);
    assert_eq!(c.exit_code(), 1);
}

#[test]
fn bootstrap_exit_one_halts_before_build_but_cleans_up() {
    let mut c = Controller::new();
    c.step(Event::Advance);
    c.step(Event::Advance);
    c.step(Event::Advance);
    assert_eq!(c.stage, Stage::Bootstrapping);
    // The bootstrap subprocess exits with status 1.
    let err = tool_outcome(Operation::RunBootstrap, false, Some(1)).unwrap_err();
    let action = c.step(Event::Failure(err));
    assert_eq!(action, Action::RunCleanup);
    assert_ne!(action, Action::StartBuild);
    assert_eq!(c.cleanups, 1);
    assert_eq!(c.step(Event::CleanupSucceeded), Action::Wait);
    assert_eq!(c.stage, Stage::Failed);
    assert_eq!(
        c.current_failure(),
        Some(PipelineError::ExternalTool {
            op: Operation::RunBootstrap,
            status: Some(1),
        })
    );
    assert_eq!(c.cleanups, 1);
    assert_eq!(c.exit_code(), 1);
}

#[test]
fn cancellation_after_extraction_cleans_up_exactly_once() {
    let mut c = Controller::new();
    c.step(Event::Advance);
    c.step(Event::Advance);
    c.step(Event::Advance);
    assert_eq!(c.stage, Stage::Bootstrapping);
    // The interrupt arrives after extraction, before the build completes.
    let action = c.step(Event::Interrupt);
    assert_eq!(action, Action::RunCleanup);
    assert_eq!(c.stage, Stage::CleaningUp);
    assert_eq!(c.cleanups, 1);
    assert_eq!(c.step(Event::CleanupSucceeded), Action::Wait);
    assert_eq!(c.stage, Stage::Cancelled);
    assert_eq!(c.cleanups, 1);
    assert_eq!(c.exit_code(), 0);
    // Further events neither start a stage nor clean up again.
    assert_eq!(c.step(Event::Advance), Action::Wait);
    assert_eq!(c.step(Event::Interrupt), Action::Wait);
    assert_eq!(c.stage, Stage::Cancelled);
    assert_eq!(c.cleanups, 1);
}

#[test]
fn cancellation_while_building_never_starts_another_stage() {
    let mut c = Controller::new();
    c.step(Event::Advance);
    c.step(Event::Advance);
    c.step(Event::Advance);
    c.step(Event::Advance);
    assert_eq!(c.stage, Stage::Building);
    assert_eq!(c.step(Event::Interrupt), Action::RunCleanup);
    assert_eq!(c.step(Event::CleanupSucceeded), Action::Wait);
    assert_eq!(c.stage, Stage::Cancelled);
    assert_eq!(c.cleanups, 1);
}

#[test]
fn configuration_failure_at_startup_needs_no_cleanup() {
    let mut c = Controller::new();
    let err = PipelineError::Configuration {
        op: Operation::ReadManifest,
    };
    assert_eq!(c.step(Event::Failure(err)), Action::Wait);
    assert_eq!(c.stage, Stage::Failed);
    assert_eq!(c.cleanups, 0);
    assert_eq!(c.exit_code(), 1);
}

#[test]
fn failed_cleanup_surfaces_filesystem_error() {
    let mut c = Controller::new();
    c.step(Event::Advance);
    c.step(Event::Advance);
    c.step(Event::Advance);
    c.step(Event::Advance);
    c.step(Event::Advance);
    assert_eq!(c.stage, Stage::CleaningUp);
    let err = cleanup_outcome(true, false).unwrap_err();
    assert_eq!(
        err,
        PipelineError::Filesystem {
            op: Operation::RemoveTempDir,
        }
    );
    assert_eq!(c.step(Event::CleanupFailed(err)), Action::Wait);
    assert_eq!(c.stage, Stage::Failed);
    assert_eq!(c.current_failure(), Some(err));
    assert_eq!(c.exit_code(), 1);
}

#[test]
fn cleanup_tolerates_missing_target() {
    // The second cleanup attempt of a run finds the directory gone.
    assert_eq!(cleanup_outcome(false, false), Ok(()));
    assert_eq!(cleanup_outcome(true, true), Ok(()));
}

#[test]
fn stage_failure_keeps_its_own_error_over_cleanup_error() {
    let mut c = Controller::new();
    c.step(Event::Advance);
    let first = PipelineError::Network {
        op: Operation::ReadChunk,
    };
    c.step(Event::Failure(first));
    let second = PipelineError::Filesystem {
        op: Operation::RemoveTempDir,
    };
    c.step(Event::CleanupFailed(second));
    assert_eq!(c.stage, Stage::Failed);
    assert_eq!(c.current_failure(), Some(first));
}
