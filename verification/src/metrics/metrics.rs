//! The generic aggregate: processor, memory, network and, where the
//! host has one, graphics.

use crate::error::AppError;
use crate::metrics::cpu::CpuMetrics;
use crate::metrics::gpu::{GpuMetrics, GpuSample};
use crate::metrics::historical_metric::{pushed, DEFAULT_HISTORY_LENGTH};
use crate::metrics::memory::{memory_percent, MemoryMetrics};
use crate::metrics::network::{InterfaceCounters, NetworkMetrics};
use crate::metrics::ratio::Ratio;
use vstd::prelude::*;

verus! {

/// What the host reports when the aggregate is made.
pub struct SystemProbe {
    /// The processor's name, where the system gives one.
    pub cpu_name: Option<String>,
    /// Processor usage, in percent.
    pub cpu_usage: Ratio,
    /// Memory in use, in bytes.
    pub memory_used: u64,
    /// All memory, in bytes.
    pub memory_total: u64,
    /// The time, in nanoseconds on a clock that never goes back.
    pub now: u64,
    /// The name of the first graphics device, or why there is none.
    pub gpu: Result<String, String>,
}

/// What the host reports in one tick.
pub struct SystemReadings {
    /// Processor usage, in percent.
    pub cpu_usage: Ratio,
    /// Memory in use, in bytes.
    pub memory_used: u64,
    /// All memory, in bytes.
    pub memory_total: u64,
    /// The time, in nanoseconds on a clock that never goes back.
    pub now: u64,
    /// The bytes that went through each interface since the last tick.
    pub interfaces: Vec<InterfaceCounters>,
    /// What the graphics device reports, or why it reports nothing. It
    /// is not looked at where there is no graphics collector.
    pub gpu: Result<GpuSample, String>,
}

/// The portable collectors. Graphics is there or not; the others always
/// are.
pub struct SystemMetrics {
    cpu: CpuMetrics,
    memory: MemoryMetrics,
    network: NetworkMetrics,
    gpu: Option<GpuMetrics>,
}

impl SystemMetrics {
    /// The processor collector.
    pub closed spec fn cpu_part(&self) -> CpuMetrics {
        self.cpu
    }

    /// The memory collector.
    pub closed spec fn memory_part(&self) -> MemoryMetrics {
        self.memory
    }

    /// The network collector.
    pub closed spec fn network_part(&self) -> NetworkMetrics {
        self.network
    }

    /// The graphics collector, if there is one.
    pub closed spec fn gpu_part(&self) -> Option<GpuMetrics> {
        self.gpu
    }

    /// Every collector is well formed.
    pub open spec fn wf(&self) -> bool {
        &&& self.cpu_part().wf()
        &&& self.memory_part().wf()
        &&& self.network_part().wf()
        &&& self.gpu_part() matches Some(g) ==> g.wf()
    }

    /// Whether `next` is this aggregate after one tick with `readings`:
    /// every collector took in its own part of them, whatever became of
    /// graphics, and graphics neither came nor went.
    pub open spec fn stepped(&self, next: &Self, readings: &SystemReadings) -> bool {
        &&& next.wf()
        &&& next.cpu_part().label() == self.cpu_part().label()
        &&& next.cpu_part().usage() == pushed(
            self.cpu_part().usage(),
            DEFAULT_HISTORY_LENGTH as nat,
            readings.cpu_usage,
        )
        &&& next.memory_part().total() == readings.memory_total
        &&& next.memory_part().bytes() == pushed(
            self.memory_part().bytes(),
            DEFAULT_HISTORY_LENGTH as nat,
            readings.memory_used,
        )
        &&& next.memory_part().percents() == pushed(
            self.memory_part().percents(),
            DEFAULT_HISTORY_LENGTH as nat,
            memory_percent(readings.memory_used, readings.memory_total),
        )
        &&& self.network_part().stepped(next.network_part(), readings.now, readings.interfaces@)
        &&& next.gpu_part() is Some <==> self.gpu_part() is Some
        &&& self.gpu_part() matches Some(g) ==> g.stepped(next.gpu_part()->0, readings.gpu)
    }

    /// The message of the error of one tick, if there is one: only a
    /// graphics collector that is there and got no report gives one.
    pub open spec fn update_error(&self, readings: &SystemReadings) -> Option<Seq<char>> {
        match (self.gpu_part(), readings.gpu) {
            (Some(_), Err(reason)) => Some(reason@),
            _ => None,
        }
    }

    /// An aggregate that starts with what the host reports. Graphics is
    /// left out where the host has no device for it.
    pub fn new(probe: SystemProbe) -> (r: Self)
        ensures
            r.wf(),
            r.cpu_part().label() == probe.cpu_name,
            r.cpu_part().usage() == seq![probe.cpu_usage],
            r.memory_part().total() == probe.memory_total,
            r.memory_part().bytes() == seq![probe.memory_used],
            r.memory_part().percents() == seq![
                memory_percent(probe.memory_used, probe.memory_total),
            ],
            r.network_part()@ == Seq::<crate::metrics::network::InterfaceView>::empty(),
            r.network_part().last() == probe.now,
            match r.gpu_part() {
                Some(g) => probe.gpu matches Ok(name) && g.label() == Some(name) && g.usage()
                    == seq![Ratio { num: 0, den: 1 }] && g.memory() == seq![
                    Ratio { num: 0, den: 1 },
                ],
                None => probe.gpu is Err,
            },
    {
        let cpu = CpuMetrics::new(probe.cpu_name, probe.cpu_usage);
        let memory = MemoryMetrics::new(probe.memory_used, probe.memory_total);
        let network = NetworkMetrics::new(probe.now);
        let gpu = match GpuMetrics::new(probe.gpu) {
            Ok(g) => Some(g),
            Err(_) => None,
        };
        SystemMetrics { cpu, memory, network, gpu }
    }

    /// Takes in one tick. Every collector takes in its part of
    /// `readings`; a graphics device that reported nothing is returned as
    /// the error, after all the others were taken in.
    pub fn update(&mut self, readings: SystemReadings) -> (r: Result<(), AppError>)
        requires
            old(self).wf(),
        ensures
            old(self).stepped(final(self), &readings),
            match r {
                Ok(_) => old(self).update_error(&readings) is None,
                Err(e) => old(self).update_error(&readings) matches Some(m) && e.is_system(m),
            },
    {
        let _ = self.cpu.update(readings.cpu_usage);
        let _ = self.memory.update(readings.memory_used, readings.memory_total);
        let _ = self.network.update(readings.now, &readings.interfaces);
        if let Some(gpu) = &mut self.gpu {
            gpu.update(readings.gpu)
        } else {
            Ok(())
        }
    }

    /// The processor collector.
    pub fn cpu(&self) -> (r: &CpuMetrics)
        ensures
            *r == self.cpu_part(),
    {
        &self.cpu
    }

    /// The memory collector.
    pub fn memory(&self) -> (r: &MemoryMetrics)
        ensures
            *r == self.memory_part(),
    {
        &self.memory
    }

    /// The network collector.
    pub fn network(&self) -> (r: &NetworkMetrics)
        ensures
            *r == self.network_part(),
    {
        &self.network
    }

    /// The graphics collector, if there is one.
    pub fn gpu(&self) -> (r: Option<&GpuMetrics>)
        ensures
            r is Some <==> self.gpu_part() is Some,
            r matches Some(g) ==> Some(*g) == self.gpu_part(),
    {
        self.gpu.as_ref()
    }
}

} // verus!
