//! Memory in use, in bytes and as a share of all memory.

use crate::error::AppError;
use crate::metrics::historical_metric::{pushed, HistoricalMetric, DEFAULT_HISTORY_LENGTH};
use crate::metrics::ratio::Ratio;
use std::collections::VecDeque;
use vstd::prelude::*;

verus! {

/// The share of `used` bytes in `total` bytes, in percent.
pub open spec fn memory_percent(used: u64, total: u64) -> Ratio {
    Ratio { num: (100 * used) as u128, den: total as u128 }
}

/// Of a host that has memory and uses no more than it has, the share in
/// use lies between 0 and 100 percent.
pub proof fn lemma_memory_percent_bounds(used: u64, total: u64)
    requires
        used <= total,
        total > 0,
    ensures
        memory_percent(used, total).defined(),
        memory_percent(used, total).at_most(100),
{
}

/// Memory in use.
pub struct MemoryMetrics {
    used_percent: HistoricalMetric<Ratio>,
    used_bytes: HistoricalMetric<u64>,
    pub total_bytes: u64,
}

impl MemoryMetrics {
    /// The stream of the share in use, in percent, oldest sample first.
    pub closed spec fn percents(&self) -> Seq<Ratio> {
        self.used_percent@
    }

    /// The stream of the bytes in use, oldest sample first.
    pub closed spec fn bytes(&self) -> Seq<u64> {
        self.used_bytes@
    }

    /// All memory of the host at the latest tick, in bytes.
    pub closed spec fn total(&self) -> u64 {
        self.total_bytes
    }

    /// Both streams are well formed and of the default capacity.
    pub closed spec fn wf(&self) -> bool {
        &&& self.used_percent.wf()
        &&& self.used_percent.capacity() == DEFAULT_HISTORY_LENGTH
        &&& self.used_bytes.wf()
        &&& self.used_bytes.capacity() == DEFAULT_HISTORY_LENGTH
    }

    /// A collector that starts with `used` of `total` bytes in use.
    pub fn new(used: u64, total: u64) -> (r: Self)
        ensures
            r.wf(),
            r.total() == total,
            r.bytes() == seq![used],
            r.percents() == seq![memory_percent(used, total)],
    {
        MemoryMetrics {
            used_percent: HistoricalMetric::new(Ratio::percent_of(used, total)),
            used_bytes: HistoricalMetric::new(used),
            total_bytes: total,
        }
    }

    /// Takes in the gauges of one tick: `used` of `total` bytes are in
    /// use. This never fails.
    pub fn update(&mut self, used: u64, total: u64) -> (r: Result<(), AppError>)
        requires
            old(self).wf(),
        ensures
            r is Ok,
            final(self).wf(),
            final(self).total() == total,
            final(self).bytes() == pushed(old(self).bytes(), DEFAULT_HISTORY_LENGTH as nat, used),
            final(self).percents() == pushed(
                old(self).percents(),
                DEFAULT_HISTORY_LENGTH as nat,
                memory_percent(used, total),
            ),
    {
        self.used_bytes.update(used);
        self.used_percent.update(Ratio::percent_of(used, total));
        self.total_bytes = total;
        Ok(())
    }

    /// The bytes in use at the latest tick.
    pub fn used_bytes(&self) -> (r: u64)
        requires
            self.wf(),
        ensures
            r == self.bytes().last(),
    {
        *self.used_bytes.current()
    }

    /// The share in use at the latest tick, in percent.
    pub fn used_percent(&self) -> (r: Ratio)
        requires
            self.wf(),
        ensures
            r == self.percents().last(),
    {
        *self.used_percent.current()
    }

    /// The stream of the share in use, oldest sample first.
    pub fn used_percent_history(&self) -> (r: &VecDeque<Ratio>)
        ensures
            r@ == self.percents(),
    {
        self.used_percent.history()
    }

    /// The stream of the bytes in use, oldest sample first.
    pub fn used_bytes_history(&self) -> (r: &VecDeque<u64>)
        ensures
            r@ == self.bytes(),
    {
        self.used_bytes.history()
    }
}

} // verus!
