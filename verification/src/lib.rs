//! Build-automation library for fetching, unpacking and building a Firefox
//! source release.
//!
//! The crate holds the decision logic of the pipeline: resolving a version
//! string to a download URL, tracking download progress against a declared
//! total, interpreting HTTP statuses and subprocess exit statuses, building
//! the exact argument lists for the external tools, and the lifecycle state
//! machine that sequences the stages and guarantees cleanup on completion,
//! failure and cancellation alike. The surrounding process performs the
//! actual network, filesystem and subprocess work and feeds the outcomes
//! back in as events.

pub mod errors;
pub mod extract;
pub mod fetch;
pub mod pipeline;
pub mod tool;
