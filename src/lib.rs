//! Auditing collaborator access across the repositories an account owns on a
//! hosted git platform, and revoking it.
//!
//! The request logic is kept free of I/O: rate-limit backoff, cursor
//! pagination, the bounded fan-out over repositories and the removal gate are
//! state machines here, each step stated by its contract; the caller performs
//! the requests they ask for and hands back what came.

pub mod aggregate;
pub mod dashboard;
pub mod error;
pub mod guard;
pub mod link;
pub mod listing;
pub mod models;
pub mod paginate;
pub mod ratelimit;
pub mod removal;
pub mod scopes;
pub mod status;
pub mod text;
