//! The kinds of error, and what each kind calls for.

use vstd::prelude::*;

verus! {

/// What went wrong, by kind.
#[derive(Debug, Clone, Copy, PartialEq, Eq, Structural)]
pub enum ErrorKind {
    /// An action was rejected by the policy.
    Validation,
    /// A write was attempted on a node that is not the leader.
    NotLeader,
    /// A commit failed: it timed out, or leadership was lost on the way.
    Consensus,
    /// A task's process failed or timed out.
    Execution,
    /// The call to the oracle failed.
    TransientOracle,
    /// The storage is corrupt, or the consensus state cannot be recovered.
    Fatal,
}

/// How loudly an error is logged.
#[derive(Debug, Clone, Copy, PartialEq, Eq, Structural)]
pub enum LogLevel {
    Debug,
    Warn,
    Error,
}

impl ErrorKind {
    /// The level at which an error of this kind is logged.
    pub open spec fn level(self) -> LogLevel {
        match self {
            ErrorKind::Validation => LogLevel::Debug,
            ErrorKind::NotLeader => LogLevel::Debug,
            ErrorKind::Consensus => LogLevel::Warn,
            ErrorKind::Execution => LogLevel::Error,
            ErrorKind::TransientOracle => LogLevel::Warn,
            ErrorKind::Fatal => LogLevel::Error,
        }
    }

    /// The level at which an error of this kind is logged.
    pub fn log_level(&self) -> (r: LogLevel)
        ensures
            r == self.level(),
    {
        match self {
            ErrorKind::Validation => LogLevel::Debug,
            ErrorKind::NotLeader => LogLevel::Debug,
            ErrorKind::Consensus => LogLevel::Warn,
            ErrorKind::Execution => LogLevel::Error,
            ErrorKind::TransientOracle => LogLevel::Warn,
            ErrorKind::Fatal => LogLevel::Error,
        }
    }

    /// The status with which the HTTP surface answers: 400 where the policy
    /// rejected the request, 500 for every other error.
    pub fn http_status(&self) -> (r: u16)
        ensures
            r == (if *self == ErrorKind::Validation {
                400u16
            } else {
                500u16
            }),
    {
        match self {
            ErrorKind::Validation => 400,
            _ => 500,
        }
    }

    /// Only a failed commit is counted against the attempts of an action.
    pub fn counts_as_attempt(&self) -> (r: bool)
        ensures
            r == (*self == ErrorKind::Consensus),
    {
        match self {
            ErrorKind::Consensus => true,
            _ => false,
        }
    }

    /// Only a fatal error ends the process.
    pub fn ends_process(&self) -> (r: bool)
        ensures
            r == (*self == ErrorKind::Fatal),
    {
        match self {
            ErrorKind::Fatal => true,
            _ => false,
        }
    }
}

/// Why the replicator did not accept a command.
#[derive(Debug)]
pub enum ReplicatorError {
    NotLeader,
    WriteFailed { message: String },
    Timeout,
}

pub enum ReplicatorErrorView {
    NotLeader,
    WriteFailed { message: Seq<char> },
    Timeout,
}

impl View for ReplicatorError {
    type V = ReplicatorErrorView;

    open spec fn view(&self) -> ReplicatorErrorView {
        match self {
            ReplicatorError::NotLeader => ReplicatorErrorView::NotLeader,
            ReplicatorError::WriteFailed { message } => ReplicatorErrorView::WriteFailed {
                message: message@,
            },
            ReplicatorError::Timeout => ReplicatorErrorView::Timeout,
        }
    }
}

impl ReplicatorErrorView {
    /// The kind of this error: a write on a follower is its own kind, the
    /// other two are failed commits.
    pub open spec fn kind(self) -> ErrorKind {
        if self is NotLeader {
            ErrorKind::NotLeader
        } else {
            ErrorKind::Consensus
        }
    }

    /// The reason in words.
    pub open spec fn message(self) -> Seq<char> {
        match self {
            ReplicatorErrorView::NotLeader => "Not the leader"@,
            ReplicatorErrorView::WriteFailed { message } => "Raft write failed: "@ + message,
            ReplicatorErrorView::Timeout => "Raft write timed out"@,
        }
    }
}

impl ReplicatorError {
    /// The kind of this error.
    pub fn kind(&self) -> (r: ErrorKind)
        ensures
            r == self@.kind(),
    {
        match self {
            ReplicatorError::NotLeader => ErrorKind::NotLeader,
            _ => ErrorKind::Consensus,
        }
    }

    /// The reason in words.
    pub fn message(&self) -> (r: String)
        ensures
            r@ == self@.message(),
    {
        match self {
            ReplicatorError::NotLeader => String::from_str("Not the leader"),
            ReplicatorError::WriteFailed { message } => {
                let mut s = String::from_str("Raft write failed: ");
                s.append(message.as_str());
                s
            },
            ReplicatorError::Timeout => String::from_str("Raft write timed out"),
        }
    }
}

/// Only the leader takes writes.
pub fn check_leader(is_leader: bool) -> (r: Result<(), ReplicatorError>)
    ensures
        r is Ok == is_leader,
        r matches Err(e) ==> e is NotLeader,
{
    if is_leader {
        Ok(())
    } else {
        Err(ReplicatorError::NotLeader)
    }
}

} // verus!
