//! Sequences of builder calls, and what they leave behind.
//!
//! A configuration is made by any number of calls of `max`, `multiplier`
//! and `store_file`, in any order. This module describes such a sequence
//! as a value and proves that the three settings do not interfere: each
//! ends up as its own last call left it, whatever was called in between.

use std::path::PathBuf;
use vstd::prelude::*;
use crate::retry_conf::RetryConfView;

verus! {

/// One call of a builder method, with its argument.
pub enum BuilderCall {
    /// `max`, with the bound on the retries.
    Max(u64),
    /// `multiplier`, with the multiplier's binary64 encoding.
    Multiplier(u64),
    /// `store_file`, with the path.
    StoreFile(PathBuf),
}

impl BuilderCall {
    /// Whether the two calls set the same one of the three settings.
    pub open spec fn same_setting(self, other: BuilderCall) -> bool {
        ||| self is Max && other is Max
        ||| self is Multiplier && other is Multiplier
        ||| self is StoreFile && other is StoreFile
    }
}

impl RetryConfView {
    /// The configuration after one more builder call.
    pub open spec fn apply(self, call: BuilderCall) -> RetryConfView {
        match call {
            BuilderCall::Max(max) => self.with_max(max),
            BuilderCall::Multiplier(multiplier_bits) => self.with_multiplier(multiplier_bits),
            BuilderCall::StoreFile(path) => self.with_store_file(path),
        }
    }

    /// Whether the setting that `call` sets has the value that `call` gave.
    pub open spec fn reflects(self, call: BuilderCall) -> bool {
        match call {
            BuilderCall::Max(max) => self.max == max,
            BuilderCall::Multiplier(multiplier_bits) => self.multiplier_bits == multiplier_bits,
            BuilderCall::StoreFile(path) => self.store_file_path == Some(path),
        }
    }

    /// The configuration after the builder calls of `calls`, first to last.
    pub open spec fn apply_all(self, calls: Seq<BuilderCall>) -> RetryConfView
        decreases calls.len(),
    {
        if calls.len() == 0 {
            self
        } else {
            self.apply_all(calls.drop_last()).apply(calls.last())
        }
    }
}

/// The last call of a setting decides it: where no call after `calls[i]`
/// sets what `calls[i]` sets, the configuration ends with the argument of
/// `calls[i]` in that setting.
pub proof fn lemma_last_call_wins(start: RetryConfView, calls: Seq<BuilderCall>, i: int)
    requires
        0 <= i < calls.len(),
        forall|j: int| i < j < calls.len() ==> !(#[trigger] calls[j]).same_setting(calls[i]),
    ensures
        start.apply_all(calls).reflects(calls[i]),
    decreases calls.len(),
{
    if i < calls.len() - 1 {
        lemma_last_call_wins(start, calls.drop_last(), i);
    }
}

/// A setting that no call touches stays as it was at the start.
pub proof fn lemma_uncalled_setting_stays(start: RetryConfView, calls: Seq<BuilderCall>)
    ensures
        (forall|j: int| 0 <= j < calls.len() ==> !(#[trigger] calls[j] is Max))
            ==> start.apply_all(calls).max == start.max,
        (forall|j: int| 0 <= j < calls.len() ==> !(#[trigger] calls[j] is Multiplier))
            ==> start.apply_all(calls).multiplier_bits == start.multiplier_bits,
        (forall|j: int| 0 <= j < calls.len() ==> !(#[trigger] calls[j] is StoreFile))
            ==> start.apply_all(calls).store_file_path == start.store_file_path,
    decreases calls.len(),
{
    if calls.len() > 0 {
        lemma_uncalled_setting_stays(start, calls.drop_last());
    }
}

/// Two calls that set different settings may change places.
pub proof fn lemma_different_settings_commute(
    start: RetryConfView,
    first: BuilderCall,
    second: BuilderCall,
)
    requires
        !first.same_setting(second),
    ensures
        start.apply(first).apply(second) == start.apply(second).apply(first),
{
}

/// The `max` calls of `calls`, in their order.
pub open spec fn max_calls(calls: Seq<BuilderCall>) -> Seq<BuilderCall> {
    calls.filter(|call: BuilderCall| call is Max)
}

/// The `multiplier` calls of `calls`, in their order.
pub open spec fn multiplier_calls(calls: Seq<BuilderCall>) -> Seq<BuilderCall> {
    calls.filter(|call: BuilderCall| call is Multiplier)
}

/// The `store_file` calls of `calls`, in their order.
pub open spec fn store_file_calls(calls: Seq<BuilderCall>) -> Seq<BuilderCall> {
    calls.filter(|call: BuilderCall| call is StoreFile)
}

/// Each setting ends as the calls of that setting alone would leave it.
pub proof fn lemma_setting_depends_on_own_calls(start: RetryConfView, calls: Seq<BuilderCall>)
    ensures
        start.apply_all(calls).max == start.apply_all(max_calls(calls)).max,
        start.apply_all(calls).multiplier_bits == start.apply_all(
            multiplier_calls(calls),
        ).multiplier_bits,
        start.apply_all(calls).store_file_path == start.apply_all(
            store_file_calls(calls),
        ).store_file_path,
    decreases calls.len(),
{
    reveal(Seq::filter);
    if calls.len() > 0 {
        let earlier = calls.drop_last();
        let last = calls.last();
        lemma_setting_depends_on_own_calls(start, earlier);
        if last is Max {
            assert(max_calls(calls).drop_last() == max_calls(earlier));
        } else if last is Multiplier {
            assert(multiplier_calls(calls).drop_last() == multiplier_calls(earlier));
        } else {
            assert(store_file_calls(calls).drop_last() == store_file_calls(earlier));
        }
    }
}

/// The order of the calls matters only among calls of one setting: two
/// sequences that hold the same `max` calls in the same order, and likewise
/// the same `multiplier` calls and the same `store_file` calls, lead from
/// one start to one configuration, however the three are interleaved.
pub proof fn lemma_order_across_settings_is_irrelevant(
    start: RetryConfView,
    calls: Seq<BuilderCall>,
    reordered: Seq<BuilderCall>,
)
    requires
        max_calls(calls) == max_calls(reordered),
        multiplier_calls(calls) == multiplier_calls(reordered),
        store_file_calls(calls) == store_file_calls(reordered),
    ensures
        start.apply_all(calls) == start.apply_all(reordered),
{
    lemma_setting_depends_on_own_calls(start, calls);
    lemma_setting_depends_on_own_calls(start, reordered);
}

/// A store path is present at the end exactly if one was there at the
/// start or some call was a `store_file`.
pub proof fn lemma_store_path_present_iff_set(start: RetryConfView, calls: Seq<BuilderCall>)
    ensures
        start.apply_all(calls).store_file_path is Some <==> (start.store_file_path is Some
            || exists|j: int| 0 <= j < calls.len() && #[trigger] calls[j] is StoreFile),
    decreases calls.len(),
{
    if calls.len() > 0 {
        let earlier = calls.drop_last();
        lemma_store_path_present_iff_set(start, earlier);
        assert(forall|j: int| 0 <= j < earlier.len() ==> earlier[j] == calls[j]);
    }
}

} // verus!
