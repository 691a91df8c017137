//! Core of a minimal real-time micro-blog: a post store with exclusive
//! ownership of an ordered post list, a change detector that diffs the store
//! against the last published snapshot, a single-slot latest-value broadcast
//! channel with per-subscriber progress tracking, and the per-client live
//! view session state machine.
//!
//! HTTP routing, HTML rendering and the async runtime live outside this
//! library; they exchange plain values (posts, snapshots, events) with it.

pub mod channel;
pub mod detector;
pub mod post;
pub mod session;
pub mod store;

pub use channel::{Broadcast, PollOutcome, Subscription};
pub use detector::ChangeDetector;
pub use session::{LiveSession, SessionPhase, SessionStep};
pub use post::{Post, PostView, QueryParams};
pub use store::{PostStore, UpdateError};
