//! Graphics usage as the vendor's management library reports it.

use crate::error::AppError;
use crate::metrics::historical_metric::{pushed, HistoricalMetric, DEFAULT_HISTORY_LENGTH};
use crate::metrics::memory::memory_percent;
use crate::metrics::ratio::Ratio;
use std::collections::VecDeque;
use vstd::prelude::*;

verus! {

/// What the management library reports of the first device in one tick.
#[derive(Debug, Clone, Copy, PartialEq, Eq, Structural)]
pub struct GpuSample {
    /// The share of time the device was busy, in percent.
    pub utilization: u32,
    /// The device memory in use, in bytes.
    pub memory_used: u64,
    /// All device memory, in bytes.
    pub memory_total: u64,
}

/// Graphics usage and the share of device memory in use, both in
/// percent.
pub struct GpuMetrics {
    usage_percent: HistoricalMetric<Ratio>,
    memory_percent: HistoricalMetric<Ratio>,
    pub name: Option<String>,
}

impl GpuMetrics {
    /// The usage stream in percent, oldest sample first.
    pub closed spec fn usage(&self) -> Seq<Ratio> {
        self.usage_percent@
    }

    /// The stream of the share of memory in use, oldest sample first.
    pub closed spec fn memory(&self) -> Seq<Ratio> {
        self.memory_percent@
    }

    /// The device's name.
    pub closed spec fn label(&self) -> Option<String> {
        self.name
    }

    /// Both streams are well formed and of the default capacity.
    pub closed spec fn wf(&self) -> bool {
        &&& self.usage_percent.wf()
        &&& self.usage_percent.capacity() == DEFAULT_HISTORY_LENGTH
        &&& self.memory_percent.wf()
        &&& self.memory_percent.capacity() == DEFAULT_HISTORY_LENGTH
    }

    /// Whether `next` is this collector after a tick that gave
    /// `sample`: usage and the share of memory in use are pushed where
    /// the library answered, and nothing changes where it did not.
    pub open spec fn stepped(self, next: Self, sample: Result<GpuSample, String>) -> bool {
        &&& next.wf()
        &&& next.label() == self.label()
        &&& next.usage() == match sample {
            Ok(s) => pushed(
                self.usage(),
                DEFAULT_HISTORY_LENGTH as nat,
                Ratio { num: s.utilization as u128, den: 1 },
            ),
            Err(_) => self.usage(),
        }
        &&& next.memory() == match sample {
            Ok(s) => pushed(
                self.memory(),
                DEFAULT_HISTORY_LENGTH as nat,
                memory_percent(s.memory_used, s.memory_total),
            ),
            Err(_) => self.memory(),
        }
    }

    /// A collector for the device that the library named. Where the
    /// library or the device could not be had, `device` holds the reason
    /// and there is no collector.
    pub fn new(device: Result<String, String>) -> (r: Result<Self, AppError>)
        ensures
            match r {
                Ok(c) => {
                    &&& device matches Ok(name)
                    &&& c.wf()
                    &&& c.label() == Some(name)
                    &&& c.usage() == seq![Ratio { num: 0, den: 1 }]
                    &&& c.memory() == seq![Ratio { num: 0, den: 1 }]
                },
                Err(e) => device matches Err(reason) && e.is_system(reason@),
            },
    {
        match device {
            Ok(name) => Ok(
                GpuMetrics {
                    usage_percent: HistoricalMetric::new(Ratio::zero()),
                    memory_percent: HistoricalMetric::new(Ratio::zero()),
                    name: Some(name),
                },
            ),
            Err(reason) => Err(AppError::System(reason)),
        }
    }

    /// Takes in one tick: what the library reported, or why it did not.
    pub fn update(&mut self, sample: Result<GpuSample, String>) -> (r: Result<(), AppError>)
        requires
            old(self).wf(),
        ensures
            old(self).stepped(*final(self), sample),
            match r {
                Ok(_) => sample is Ok,
                Err(e) => sample matches Err(reason) && e.is_system(reason@),
            },
    {
        match sample {
            Ok(s) => {
                self.usage_percent.update(Ratio::whole(s.utilization as u64));
                self.memory_percent.update(Ratio::percent_of(s.memory_used, s.memory_total));
                Ok(())
            },
            Err(reason) => Err(AppError::System(reason)),
        }
    }

    /// The latest usage, in percent.
    pub fn usage_percent(&self) -> (r: Ratio)
        requires
            self.wf(),
        ensures
            r == self.usage().last(),
    {
        *self.usage_percent.current()
    }

    /// The latest share of memory in use, in percent.
    pub fn memory_percent(&self) -> (r: Ratio)
        requires
            self.wf(),
        ensures
            r == self.memory().last(),
    {
        *self.memory_percent.current()
    }

    /// The usage stream, oldest sample first.
    pub fn usage_history(&self) -> (r: &VecDeque<Ratio>)
        ensures
            r@ == self.usage(),
    {
        self.usage_percent.history()
    }

    /// The stream of the share of memory in use, oldest sample first.
    pub fn memory_history(&self) -> (r: &VecDeque<Ratio>)
        ensures
            r@ == self.memory(),
    {
        self.memory_percent.history()
    }
}

} // verus!
