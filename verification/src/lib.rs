//! Retry policy for a client that sends records to a log collector.
//!
//! A [`RetryConf`] holds how often a failed send is retried, the multiplier
//! that goes into the exponent of the waiting time, and where records that
//! could not be delivered are kept for a later resend. It is a plain value:
//! it opens no file, sends nothing and keeps no clock.
//!
//! * [`retry_conf`] holds the configuration, its builder and its queries.
//! * [`builder_calls`] proves that the builder's three settings do not
//!   interfere, whatever the order of the calls.
//! * [`interval`] holds the unit conversion of the waiting-time formula.
//!
//! The library holds no floating-point number. The multiplier is kept as
//! the 64 bits of its binary64 encoding, and the waiting time itself,
//! `exp(multiplier + retry_count)` milliseconds, is left to the caller.

pub mod builder_calls;
pub mod interval;
pub mod retry_conf;

pub use retry_conf::RetryConf;
