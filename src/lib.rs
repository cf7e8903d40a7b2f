//! Pull-request automation helpers: the event context that a workflow run
//! hands over, and the requests and replies of the hosting service's
//! command-line client.

pub mod event;
pub mod gateway;

pub use event::{Event, GitHubAction, Head, PullRequest, RepositoryFormatError};
pub use gateway::{GhOperation, GhRequest, GitHub, LookupFailure};
