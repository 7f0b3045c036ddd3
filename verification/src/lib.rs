//! Peer discovery for a cluster: which nodes are currently participating.
//!
//! The crate holds the decisions of a discovery cycle: how a submission
//! record becomes a node identity, how identities are deduplicated, which
//! object keys a scan asks for, and what a cycle does with the outcome of
//! each piece of outside work. Performing that work (HTTP, object storage)
//! is left to the caller.

pub mod discovered;
pub mod error;
pub mod identity;
pub mod keys;
pub mod online;
pub mod resolver;
pub mod scanner;
pub mod service;
pub mod text;

pub use crate::discovered::DiscoveredSet;
pub use crate::error::{DiscoveryError, FetchFailure};
pub use crate::identity::NodeIdentity;
pub use crate::keys::{listing_request, offset_by_time, ListingRequest};
pub use crate::online::fetch_online;
pub use crate::resolver::{node_identity, stored_identity, SubmissionRecord};
pub use crate::scanner::{candidates, discover_aws, FetchOutcome, ListingEntry};
pub use crate::service::{new_from_aws, Backend, DiscoveryService, Event, Step};
