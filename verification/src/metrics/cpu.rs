//! Processor usage as the operating system reports it.

use crate::error::AppError;
use crate::metrics::historical_metric::{pushed, HistoricalMetric, DEFAULT_HISTORY_LENGTH};
use crate::metrics::ratio::Ratio;
use std::collections::VecDeque;
use vstd::prelude::*;

verus! {

/// Processor usage in percent, with the processor's name where the
/// system gives one.
pub struct CpuMetrics {
    pub name: Option<String>,
    usage_percent: HistoricalMetric<Ratio>,
}

impl CpuMetrics {
    /// The usage stream in percent, oldest sample first.
    pub closed spec fn usage(&self) -> Seq<Ratio> {
        self.usage_percent@
    }

    /// The processor's name, where the system gave one.
    pub closed spec fn label(&self) -> Option<String> {
        self.name
    }

    /// The stream is well formed and of the default capacity.
    pub closed spec fn wf(&self) -> bool {
        self.usage_percent.wf() && self.usage_percent.capacity() == DEFAULT_HISTORY_LENGTH
    }

    /// A collector that starts with the usage `initial_usage`.
    pub fn new(name: Option<String>, initial_usage: Ratio) -> (r: Self)
        ensures
            r.wf(),
            r.label() == name,
            r.usage() == seq![initial_usage],
    {
        CpuMetrics { name, usage_percent: HistoricalMetric::new(initial_usage) }
    }

    /// Takes in the usage of one tick. This never fails.
    pub fn update(&mut self, new_usage: Ratio) -> (r: Result<(), AppError>)
        requires
            old(self).wf(),
        ensures
            r is Ok,
            final(self).wf(),
            final(self).label() == old(self).label(),
            final(self).usage() == pushed(
                old(self).usage(),
                DEFAULT_HISTORY_LENGTH as nat,
                new_usage,
            ),
    {
        self.usage_percent.update(new_usage);
        Ok(())
    }

    /// The latest usage, in percent.
    pub fn usage_percent(&self) -> (r: Ratio)
        requires
            self.wf(),
        ensures
            r == self.usage().last(),
    {
        *self.usage_percent.current()
    }

    /// The usage stream, oldest sample first.
    pub fn usage_history(&self) -> (r: &VecDeque<Ratio>)
        ensures
            r@ == self.usage(),
    {
        self.usage_percent.history()
    }
}

} // verus!
