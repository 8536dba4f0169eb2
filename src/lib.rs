//! Typed graph fragments built from security telemetry, and the rules that
//! carry queue messages from their envelopes to acknowledged outcomes.
pub mod graph;
pub mod builders;
pub mod translate;
pub mod codec;
pub mod envelope;
pub mod dispatch;
pub mod collector;
