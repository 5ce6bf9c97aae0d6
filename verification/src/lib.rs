//! Round-trip latency measurement over a byte-stream transport.
//!
//! The library holds the measurement client's logic: the reliable
//! transfer loop that turns a partial-transfer socket primitive into
//! all-or-nothing buffer exchanges, the bounded-retry connection policy
//! with exponential backoff, and the warm-up-then-measure benchmark
//! driver that feeds per-round latencies to a histogram. The blocking
//! socket calls themselves stay outside; the logic here decides, for
//! every report the transport can make, what happens next.

pub mod connect;
pub mod driver;
pub mod histogram;
pub mod transfer;
