//! Turns a `rad sync` invocation into one validated sync intent.
//!
//! [`surface`] reads the raw argument list into typed, defaulted [`Options`];
//! [`resolve`] folds the mode flags of those options into one [`SyncMode`].
pub mod types;
pub mod resolve;
pub mod surface;

pub use types::{
    Directions, Intent, NodeId, Operation, Options, RepoId, SortBy, StatusRequest, SyncDirection,
    SyncMode, SyncModeArgs, SyncSettings, SyncSettingsArgs, DEFAULT_REPLICAS,
    DEFAULT_SYNC_TIMEOUT_SECS,
};
pub use surface::{parse_args, parse_sort_by, ArgError, USAGE};
