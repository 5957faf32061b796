//! Coordination core of a peer-to-peer cluster daemon: the replicated state
//! machine, the policy validator, the action tracker and the decisions of the
//! control loops, with machine-checked contracts.

pub mod api;
pub mod attachments;
pub mod clock;
pub mod codec;
pub mod config;
pub mod daemon;
pub mod enrollment;
pub mod errors;
pub mod executor;
pub mod ident;
pub mod json;
pub mod network;
pub mod planner;
pub mod runner;
pub mod snapshot;
pub mod state_machine;
pub mod storage;
pub mod store;
pub mod text;
pub mod tracker;
pub mod types;
pub mod validator;

pub use crate::attachments::AttachmentRegistry;
pub use crate::config::NodeConfig;
pub use crate::executor::HiveExecutor;
pub use crate::planner::NoOpBrain;
pub use crate::state_machine::HiveState;
pub use crate::tracker::ActionTracker;
pub use crate::types::{
    Attachment, AttachmentKind, BrainAction, ClusterCommand, ClusterView, Goal, NodeHealth,
    NodeMetrics, NodeStatus, Task, TaskPayload, TaskStatus,
};
pub use crate::validator::{ActionValidator, ExecutionPolicy};
