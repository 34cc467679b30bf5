//! The retry configuration and its builder.
//!
//! The multiplier is a binary64 floating-point number. This module never
//! computes with it: it stores the number's 64-bit encoding (what
//! `f64::to_bits` gives) and hands the same bits back, so every value,
//! infinities and NaNs included, goes through unchanged.

use std::path::PathBuf;
use vstd::prelude::*;

verus! {

/// `std::path::PathBuf`, carried through as an opaque value. Nothing is
/// claimed of what a path holds or whether it names anything on disk.
#[verifier::external_type_specification]
#[verifier::external_body]
pub struct ExPathBuf(PathBuf);

/// `PathBuf::clone`, of which std says that it returns a copy of the value:
/// the copy is taken to be the same path as the original.
pub assume_specification[ <PathBuf as Clone>::clone ](path: &PathBuf) -> (copy: PathBuf)
    ensures
        copy == *path,
;

/// How many retries a configuration allows when none was set.
pub const DEFAULT_MAX: u64 = 10;

/// The binary64 encoding of `5.0`: the multiplier when none was set.
pub const DEFAULT_MULTIPLIER_BITS: u64 = 0x4014_0000_0000_0000;

/// What a configuration holds, as a mathematical value.
pub struct RetryConfView {
    /// Upper bound on the number of retries.
    pub max: u64,
    /// Binary64 encoding of the multiplier.
    pub multiplier_bits: u64,
    /// Where undelivered records are kept, if anywhere.
    pub store_file_path: Option<PathBuf>,
}

impl RetryConfView {
    /// The configuration before any builder call.
    pub open spec fn defaults() -> RetryConfView {
        RetryConfView {
            max: DEFAULT_MAX,
            multiplier_bits: DEFAULT_MULTIPLIER_BITS,
            store_file_path: None,
        }
    }

    /// This configuration with another bound on the retries.
    pub open spec fn with_max(self, max: u64) -> RetryConfView {
        RetryConfView { max, ..self }
    }

    /// This configuration with another multiplier.
    pub open spec fn with_multiplier(self, multiplier_bits: u64) -> RetryConfView {
        RetryConfView { multiplier_bits, ..self }
    }

    /// This configuration with `path` as the place for undelivered records.
    pub open spec fn with_store_file(self, path: PathBuf) -> RetryConfView {
        RetryConfView { store_file_path: Some(path), ..self }
    }
}

/// Retry policy of a sender: how often to retry, the multiplier of the
/// waiting time, and where to keep records that could not be delivered.
///
/// The waiting time before retry number `n` (counted from 1) is
/// `exp(multiplier + n)` milliseconds, which callers usually express in
/// hours by dividing by [`crate::interval::MILLIS_PER_SECOND`],
/// [`crate::interval::SECONDS_PER_MINUTE`] and
/// [`crate::interval::MINUTES_PER_HOUR`] in turn.
#[derive(Debug)]
pub struct RetryConf {
    max: u64,
    multiplier_bits: u64,
    store_file_path: Option<PathBuf>,
}

impl View for RetryConf {
    type V = RetryConfView;

    closed spec fn view(&self) -> RetryConfView {
        RetryConfView {
            max: self.max,
            multiplier_bits: self.multiplier_bits,
            store_file_path: self.store_file_path,
        }
    }
}

impl Clone for RetryConf {
    /// A second configuration with the same three settings.
    fn clone(&self) -> (conf: RetryConf)
        ensures
            conf@ == self@,
    {
        let store_file_path = match &self.store_file_path {
            Some(path) => Some(path.clone()),
            None => None,
        };
        RetryConf { max: self.max, multiplier_bits: self.multiplier_bits, store_file_path }
    }
}

impl Default for RetryConf {
    /// Ten retries, a multiplier of `5.0`, and no store file.
    fn default() -> (conf: RetryConf)
        ensures
            conf@ == RetryConfView::defaults(),
    {
        RetryConf {
            max: DEFAULT_MAX,
            multiplier_bits: DEFAULT_MULTIPLIER_BITS,
            store_file_path: None,
        }
    }
}

impl RetryConf {
    /// The default configuration, to be adjusted by the builder methods.
    pub fn new() -> (conf: RetryConf)
        ensures
            conf@ == RetryConfView::defaults(),
    {
        Default::default()
    }

    /// Sets the upper bound on the number of retries. Every value is taken
    /// as it is; `0` tells the sender not to retry at all.
    pub fn max(self, max: u64) -> (conf: RetryConf)
        ensures
            conf@ == self@.with_max(max),
    {
        let mut conf = self;
        conf.max = max;
        conf
    }

    /// Sets the multiplier, given by its binary64 encoding. Every bit
    /// pattern is taken as it is.
    pub fn multiplier(self, multiplier_bits: u64) -> (conf: RetryConf)
        ensures
            conf@ == self@.with_multiplier(multiplier_bits),
    {
        let mut conf = self;
        conf.multiplier_bits = multiplier_bits;
        conf
    }

    /// Sets the file in which undelivered records are kept. The path is
    /// not looked at.
    pub fn store_file(self, path: PathBuf) -> (conf: RetryConf)
        ensures
            conf@ == self@.with_store_file(path),
    {
        let mut conf = self;
        conf.store_file_path = Some(path);
        conf
    }

    /// Whether undelivered records are to be kept in a file.
    pub fn need_to_store(self) -> (needed: bool)
        ensures
            needed <==> self@.store_file_path is Some,
    {
        self.store_file_path.is_some()
    }

    /// The file for undelivered records, if one was set.
    pub fn store_path(self) -> (path: Option<PathBuf>)
        ensures
            path == self@.store_file_path,
    {
        self.store_file_path
    }

    /// The bound on the retries and the multiplier's binary64 encoding:
    /// what the waiting-time formula needs.
    pub fn build(self) -> (parameters: (u64, u64))
        ensures
            parameters == (self@.max, self@.multiplier_bits),
    {
        (self.max, self.multiplier_bits)
    }
}

} // verus!
