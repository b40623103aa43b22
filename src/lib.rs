//! Liveness classification of domains and URLs: HTTP status evidence, a
//! DNS-gated WHOIS fallback, the ACTIVE/INACTIVE verdict, the output sink
//! and a bounded batch scheduler, each stated and proved with Verus.
pub mod text;
pub mod status;
pub mod target;
pub mod sink;
pub mod classifier;
pub mod probe;
pub mod batch;
