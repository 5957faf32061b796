use flockmind::daemon::{outcome_of, settle_at, take_up, Outcome};
use flockmind::errors::{check_leader, ErrorKind, LogLevel, ReplicatorError};
use flockmind::executor::ExecuteError;
use flockmind::snapshot::{encode, start_state};
use flockmind::state_machine::HiveState;
use flockmind::validator::ValidationError;
use flockmind::tracker::{ActionStatus, ActionTracker};
use flockmind::types::BrainAction;

fn cancel(task: &str) -> BrainAction {
    BrainAction::CancelTask { task_id: task.to_string() }
}

#[test]
fn kinds_of_error_and_their_levels() {
    let levels: Vec<LogLevel> = [
        ErrorKind::Validation,
        ErrorKind::NotLeader,
        ErrorKind::Consensus,
        ErrorKind::Execution,
        ErrorKind::TransientOracle,
        ErrorKind::Fatal,
    ]
    .iter()
    .map(|k| k.log_level())
    .collect();
    assert_eq!(
        levels,
        vec![
            LogLevel::Debug,
            LogLevel::Debug,
            LogLevel::Warn,
            LogLevel::Error,
            LogLevel::Warn,
            LogLevel::Error
        ]
    );
    assert!(ErrorKind::Consensus.counts_as_attempt());
    assert!(!ErrorKind::Validation.counts_as_attempt());
    assert!(!ErrorKind::NotLeader.counts_as_attempt());
    assert_eq!(ErrorKind::Validation.http_status(), 400);
    assert_eq!(ErrorKind::NotLeader.http_status(), 500);
    assert_eq!(ErrorKind::Consensus.http_status(), 500);
    assert!(ErrorKind::Fatal.ends_process());
    assert!(!ErrorKind::Execution.ends_process());
}

#[test]
fn only_the_leader_takes_writes() {
    assert!(check_leader(true).is_ok());
    let e = check_leader(false).unwrap_err();
    assert_eq!(e.kind(), ErrorKind::NotLeader);
    assert_eq!(e.message(), "Not the leader");
    let w = ReplicatorError::WriteFailed { message: "disk".to_string() };
    assert_eq!((w.kind(), w.message().as_str()), (ErrorKind::Consensus, "Raft write failed: disk"));
    assert_eq!(ReplicatorError::Timeout.kind(), ErrorKind::Consensus);
    assert_eq!(ReplicatorError::Timeout.message(), "Raft write timed out");
}

#[test]
fn what_the_end_of_an_execution_means() {
    assert!(matches!(outcome_of(Ok(())), Outcome::Done));
    let rejected = ExecuteError::Rejected(ValidationError::TaskNotFound { task_id: "t".to_string() });
    assert_eq!(rejected.kind(), ErrorKind::Validation);
    assert!(matches!(
        outcome_of(Err(rejected)),
        Outcome::Rejected { message } if message == "Task 't' not found"
    ));
    assert!(matches!(
        outcome_of(Err(ExecuteError::Write(ReplicatorError::NotLeader))),
        Outcome::NotLeader { message } if message == "Not the leader"
    ));
    assert!(matches!(
        outcome_of(Err(ExecuteError::Write(ReplicatorError::Timeout))),
        Outcome::Failed { message } if message == "Raft write timed out"
    ));
    let failed = ExecuteError::Write(ReplicatorError::WriteFailed { message: "disk".to_string() });
    assert_eq!(failed.message(), "Raft write failed: disk");
    assert!(matches!(
        outcome_of(Err(failed)),
        Outcome::Failed { message } if message == "Raft write failed: disk"
    ));
}

#[test]
fn a_corrupt_snapshot_is_fatal() {
    let fresh = start_state(None).unwrap();
    assert!(fresh.nodes.is_empty() && fresh.tasks.is_empty());
    let mut state = HiveState::new();
    state.last_applied_index = 7;
    let bytes = encode(&state);
    assert_eq!(start_state(Some(&bytes)).unwrap().last_applied_index, 7);
    let corrupt = start_state(Some(&bytes[1..])).unwrap_err();
    assert_eq!(corrupt.kind(), ErrorKind::Fatal);
    assert!(corrupt.kind().ends_process());
    assert_eq!(corrupt.message(), "The stored state snapshot is corrupt");
    assert!(start_state(Some(&[])).is_err());
}

#[test]
fn a_rejected_action_fails_without_retry() {
    let mut tracker = ActionTracker::new();
    let id = take_up(&mut tracker, &cancel("t"), &vec![]).unwrap();
    let outcome = Outcome::Rejected { message: "Task 't' not found".to_string() };
    assert_eq!(outcome.kind(), Some(ErrorKind::Validation));
    assert!(!settle_at(&mut tracker, &id, None, outcome, 7));
    let stats = tracker.get_stats();
    assert_eq!((stats.pending, stats.executing, stats.failed), (0, 0, 1));
    let failed = tracker.get_recent_failures(1);
    assert_eq!(failed[0].retry_count, 0);
    assert_eq!(failed[0].status, ActionStatus::Failed);
    assert_eq!(failed[0].result.as_ref().unwrap().message, Some("Task 't' not found".to_string()));
    tracker.mark_rejected_at("nobody", None, 8);
    assert_eq!(tracker.get_stats().failed, 1);
}

#[test]
fn a_write_without_leader_costs_no_attempt() {
    let mut tracker = ActionTracker::new();
    let id = take_up(&mut tracker, &cancel("t"), &vec![]).unwrap();
    for _ in 0..5 {
        tracker.mark_executing(&id);
        let outcome = Outcome::NotLeader { message: "Not the leader".to_string() };
        assert_eq!(outcome.kind(), Some(ErrorKind::NotLeader));
        assert!(settle_at(&mut tracker, &id, None, outcome, 1));
    }
    let stats = tracker.get_stats();
    assert_eq!((stats.pending, stats.executing, stats.failed), (1, 0, 0));
    assert_eq!(tracker.get_pending_actions()[0].retry_count, 0);
    assert!(!tracker.release("nobody"));
    assert_eq!(Outcome::Done.kind(), None);
    assert_eq!(Outcome::Failed { message: String::new() }.kind(), Some(ErrorKind::Consensus));
}
