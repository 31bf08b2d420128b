//! One peer of a small validator network: a peer registry with liveness
//! tracking, a quorum validation orchestrator, a retrying submission
//! pipeline, and a best-effort broadcast fan-out.
//!
//! Every decision the node makes (quorum arithmetic, retry schedules,
//! liveness counters, schema checks, URL derivation) lives here with a
//! proved contract. Network and disk I/O stay outside; they hand these
//! functions plain values and act on the returned decisions.

pub mod api;
pub mod broadcast;
pub mod config;
pub mod consensus;
pub mod init;
pub mod keymanager;
pub mod liveness;
pub mod node;
pub mod quorum;
pub mod text;
pub mod validation;
