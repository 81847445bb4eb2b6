//! The platform aggregate: the four platform collectors, each of them
//! there or not.

use crate::error::AppError;
use crate::metrics::device_path::{resolved_path, DeviceProbe};
use crate::metrics::source::SourceRead;
use crate::metrics::unix_cpu::{core_count, probe_error, UnixCpuMetrics};
use crate::metrics::unix_gpu::{gpu_candidate_paths, gpu_keyword_texts, UnixGpuMetrics};
use crate::metrics::unix_npu::{npu_candidate_paths, npu_keyword_texts, UnixNpuMetrics};
use crate::metrics::unix_rga::{rga_update_error, UnixRgaMetrics};
use vstd::prelude::*;

verus! {

/// What was found on the host when the aggregate is made.
pub struct UnixProbe {
    /// The read of the processor's counter file.
    pub stat: SourceRead,
    /// What was found on disk for the graphics device.
    pub gpu: DeviceProbe,
    /// What was found on disk for the neural accelerator.
    pub npu: DeviceProbe,
}

/// What was read on the host in one tick.
pub struct UnixReadings {
    /// The read of the processor's counter file.
    pub stat: SourceRead,
    /// The reads of the cores' frequency files, by core.
    pub core_freqs: Vec<SourceRead>,
    /// The read of the graphics load file.
    pub gpu_load: SourceRead,
    /// The read of the graphics frequency file.
    pub gpu_freq: SourceRead,
    /// The read of the neural accelerator's load file.
    pub npu_load: SourceRead,
    /// What the privileged read of the neural accelerator's debug report
    /// gave. It counts only where there is no load file.
    pub npu_report: SourceRead,
    /// The read of the neural accelerator's frequency file.
    pub npu_freq: SourceRead,
    /// What the privileged read of the image processor's load gave.
    pub rga_load: SourceRead,
    /// What the privileged read of the clock list gave.
    pub rga_clocks: SourceRead,
}

/// The four platform collectors, each of them there or not. Which are
/// there is settled when the aggregate is made.
pub struct UnixSystemMetrics {
    cpu: Option<UnixCpuMetrics>,
    gpu: Option<UnixGpuMetrics>,
    npu: Option<UnixNpuMetrics>,
    rga: Option<UnixRgaMetrics>,
}

/// The first of two optional messages.
pub open spec fn or_else(a: Option<Seq<char>>, b: Option<Seq<char>>) -> Option<Seq<char>> {
    match a {
        Some(m) => Some(m),
        None => b,
    }
}

/// The one name `name` where `there` holds, else no name.
pub open spec fn name_if(there: bool, name: Seq<char>) -> Seq<Seq<char>> {
    if there {
        seq![name]
    } else {
        Seq::empty()
    }
}

/// The texts of the names `v`, in order.
pub open spec fn name_texts(v: Seq<&'static str>) -> Seq<Seq<char>> {
    v.map_values(|s: &'static str| s@)
}

impl UnixSystemMetrics {
    /// The processor collector, if there is one.
    pub closed spec fn cpu_part(&self) -> Option<UnixCpuMetrics> {
        self.cpu
    }

    /// The graphics collector, if there is one.
    pub closed spec fn gpu_part(&self) -> Option<UnixGpuMetrics> {
        self.gpu
    }

    /// The neural-accelerator collector, if there is one.
    pub closed spec fn npu_part(&self) -> Option<UnixNpuMetrics> {
        self.npu
    }

    /// The image-processor collector, if there is one.
    pub closed spec fn rga_part(&self) -> Option<UnixRgaMetrics> {
        self.rga
    }

    /// Every collector that is there is well formed.
    pub open spec fn wf(&self) -> bool {
        &&& self.cpu_part() matches Some(c) ==> c.wf()
        &&& self.gpu_part() matches Some(c) ==> c.wf()
        &&& self.npu_part() matches Some(c) ==> c.wf()
        &&& self.rga_part() matches Some(c) ==> c.wf()
    }

    /// The names of the collectors that are there, in the order
    /// processor, graphics, neural accelerator, image processor.
    pub open spec fn capabilities(&self) -> Seq<Seq<char>> {
        name_if(self.cpu_part() is Some, "CPU"@) + name_if(self.gpu_part() is Some, "GPU"@)
            + name_if(self.npu_part() is Some, "NPU"@) + name_if(self.rga_part() is Some, "RGA"@)
    }

    /// Whether the same collectors are there in `next` as in this
    /// aggregate.
    pub open spec fn same_parts(&self, next: &Self) -> bool {
        &&& next.cpu_part() is Some <==> self.cpu_part() is Some
        &&& next.gpu_part() is Some <==> self.gpu_part() is Some
        &&& next.npu_part() is Some <==> self.npu_part() is Some
        &&& next.rga_part() is Some <==> self.rga_part() is Some
    }

    /// Whether `next` is this aggregate after one tick with `readings`:
    /// each collector that is there took in its own reads, whatever
    /// became of the others, and none came or went.
    pub open spec fn stepped(&self, next: &Self, readings: &UnixReadings) -> bool {
        &&& self.same_parts(next)
        &&& self.cpu_part() matches Some(a) ==> a.stepped(
            next.cpu_part()->0,
            readings.stat,
            readings.core_freqs@,
        )
        &&& self.gpu_part() matches Some(a) ==> a.stepped(
            next.gpu_part()->0,
            readings.gpu_load,
            readings.gpu_freq,
        )
        &&& self.npu_part() matches Some(a) ==> a.stepped(
            next.npu_part()->0,
            readings.npu_load,
            readings.npu_report,
            readings.npu_freq,
        )
        &&& self.rga_part() matches Some(a) ==> a.stepped(
            next.rga_part()->0,
            readings.rga_load,
            readings.rga_clocks,
        )
    }

    /// The message of the error that the processor collector meets in
    /// one tick, if it is there and meets one.
    pub open spec fn cpu_error(&self, readings: &UnixReadings) -> Option<Seq<char>> {
        match self.cpu_part() {
            Some(c) => c.step_error(readings.stat, readings.core_freqs@),
            None => None,
        }
    }

    /// The same for the graphics collector.
    pub open spec fn gpu_error(&self, readings: &UnixReadings) -> Option<Seq<char>> {
        match self.gpu_part() {
            Some(c) => c.step_error(readings.gpu_load, readings.gpu_freq),
            None => None,
        }
    }

    /// The same for the neural-accelerator collector.
    pub open spec fn npu_error(&self, readings: &UnixReadings) -> Option<Seq<char>> {
        match self.npu_part() {
            Some(c) => c.step_error(readings.npu_load, readings.npu_report, readings.npu_freq),
            None => None,
        }
    }

    /// The same for the image-processor collector.
    pub open spec fn rga_error(&self, readings: &UnixReadings) -> Option<Seq<char>> {
        match self.rga_part() {
            Some(_) => rga_update_error(readings.rga_load, readings.rga_clocks),
            None => None,
        }
    }

    /// The message of the first error of one tick, the collectors taken
    /// in the order processor, graphics, neural accelerator, image
    /// processor. A collector that is not there meets none.
    pub open spec fn update_error(&self, readings: &UnixReadings) -> Option<Seq<char>> {
        or_else(
            self.cpu_error(readings),
            or_else(
                self.gpu_error(readings),
                or_else(self.npu_error(readings), self.rga_error(readings)),
            ),
        )
    }

    /// An aggregate of the collectors that the host allows: the
    /// processor where its counter file was read and starts with the
    /// counters, graphics and neural accelerator where their device was
    /// found, and the image processor always.
    pub fn new(probe: &UnixProbe) -> (r: Self)
        ensures
            r.wf(),
            match r.cpu_part() {
                Some(c) => probe.stat.text() matches Some(t) && probe_error(probe.stat) is None
                    && c.cores() == core_count(t) && c.fresh(),
                None => probe_error(probe.stat) is Some,
            },
            match r.gpu_part() {
                Some(c) => c.fresh() && resolved_path(
                    gpu_candidate_paths(),
                    gpu_keyword_texts(),
                    probe.gpu,
                ) == Some(c.path()),
                None => resolved_path(gpu_candidate_paths(), gpu_keyword_texts(), probe.gpu)
                    is None,
            },
            match r.npu_part() {
                Some(c) => c.fresh() && resolved_path(
                    npu_candidate_paths(),
                    npu_keyword_texts(),
                    probe.npu,
                ) == Some(c.path()),
                None => resolved_path(npu_candidate_paths(), npu_keyword_texts(), probe.npu)
                    is None,
            },
            r.rga_part() matches Some(c) && c.fresh(),
    {
        let cpu = match UnixCpuMetrics::new(&probe.stat) {
            Ok(c) => Some(c),
            Err(_) => None,
        };
        let gpu = match UnixGpuMetrics::new(&probe.gpu) {
            Ok(c) => Some(c),
            Err(_) => None,
        };
        let npu = match UnixNpuMetrics::new(&probe.npu) {
            Ok(c) => Some(c),
            Err(_) => None,
        };
        let rga = Some(UnixRgaMetrics::new());
        UnixSystemMetrics { cpu, gpu, npu, rga }
    }

    /// An aggregate whose graphics and neural-accelerator collectors
    /// stand under the given directories, which are not looked for, and
    /// are left out where none is given.
    pub fn with_paths(stat: &SourceRead, gpu_path: Option<String>, npu_path: Option<String>) -> (r:
        Self)
        ensures
            r.wf(),
            match r.cpu_part() {
                Some(c) => stat.text() matches Some(t) && probe_error(*stat) is None && c.cores()
                    == core_count(t) && c.fresh(),
                None => probe_error(*stat) is Some,
            },
            match r.gpu_part() {
                Some(c) => gpu_path matches Some(p) && c.fresh() && c.path() == p@,
                None => gpu_path is None,
            },
            match r.npu_part() {
                Some(c) => npu_path matches Some(p) && c.fresh() && c.path() == p@,
                None => npu_path is None,
            },
            r.rga_part() matches Some(c) && c.fresh(),
    {
        let cpu = match UnixCpuMetrics::new(stat) {
            Ok(c) => Some(c),
            Err(_) => None,
        };
        let gpu = match gpu_path {
            Some(path) => Some(UnixGpuMetrics::with_path(path)),
            None => None,
        };
        let npu = match npu_path {
            Some(path) => Some(UnixNpuMetrics::with_path(path)),
            None => None,
        };
        let rga = Some(UnixRgaMetrics::new());
        UnixSystemMetrics { cpu, gpu, npu, rga }
    }

    /// An aggregate of just the given collectors.
    pub fn from_collectors(
        cpu: Option<UnixCpuMetrics>,
        gpu: Option<UnixGpuMetrics>,
        npu: Option<UnixNpuMetrics>,
        rga: Option<UnixRgaMetrics>,
    ) -> (r: Self)
        requires
            cpu matches Some(c) ==> c.wf(),
            gpu matches Some(c) ==> c.wf(),
            npu matches Some(c) ==> c.wf(),
            rga matches Some(c) ==> c.wf(),
        ensures
            r.wf(),
            r.cpu_part() == cpu,
            r.gpu_part() == gpu,
            r.npu_part() == npu,
            r.rga_part() == rga,
    {
        UnixSystemMetrics { cpu, gpu, npu, rga }
    }

    /// Takes in one tick. Every collector that is there takes in its own
    /// reads; one that is not there is passed over; a failure in one
    /// stops no other. The first failure is returned.
    pub fn update(&mut self, readings: &UnixReadings) -> (r: Result<(), AppError>)
        requires
            old(self).wf(),
        ensures
            final(self).wf(),
            old(self).stepped(final(self), readings),
            match r {
                Ok(_) => old(self).update_error(readings) is None,
                Err(e) => old(self).update_error(readings) matches Some(m) && e.is_system(m),
            },
    {
        let mut first: Option<AppError> = None;
        if let Some(cpu) = &mut self.cpu {
            match cpu.update(&readings.stat, &readings.core_freqs) {
                Ok(_) => {},
                Err(e) => {
                    first = Some(e);
                },
            }
        }
        if let Some(gpu) = &mut self.gpu {
            match gpu.update(&readings.gpu_load, &readings.gpu_freq) {
                Ok(_) => {},
                Err(e) => {
                    if first.is_none() {
                        first = Some(e);
                    }
                },
            }
        }
        if let Some(npu) = &mut self.npu {
            match npu.update(&readings.npu_load, &readings.npu_report, &readings.npu_freq) {
                Ok(_) => {},
                Err(e) => {
                    if first.is_none() {
                        first = Some(e);
                    }
                },
            }
        }
        if let Some(rga) = &mut self.rga {
            match rga.update(&readings.rga_load, &readings.rga_clocks) {
                Ok(_) => {},
                Err(e) => {
                    if first.is_none() {
                        first = Some(e);
                    }
                },
            }
        }
        match first {
            Some(e) => Err(e),
            None => Ok(()),
        }
    }

    /// The processor collector, if there is one.
    pub fn cpu(&self) -> (r: Option<&UnixCpuMetrics>)
        ensures
            r is Some <==> self.cpu_part() is Some,
            r matches Some(c) ==> Some(*c) == self.cpu_part(),
    {
        self.cpu.as_ref()
    }

    /// The graphics collector, if there is one.
    pub fn gpu(&self) -> (r: Option<&UnixGpuMetrics>)
        ensures
            r is Some <==> self.gpu_part() is Some,
            r matches Some(c) ==> Some(*c) == self.gpu_part(),
    {
        self.gpu.as_ref()
    }

    /// The neural-accelerator collector, if there is one.
    pub fn npu(&self) -> (r: Option<&UnixNpuMetrics>)
        ensures
            r is Some <==> self.npu_part() is Some,
            r matches Some(c) ==> Some(*c) == self.npu_part(),
    {
        self.npu.as_ref()
    }

    /// The image-processor collector, if there is one.
    pub fn rga(&self) -> (r: Option<&UnixRgaMetrics>)
        ensures
            r is Some <==> self.rga_part() is Some,
            r matches Some(c) ==> Some(*c) == self.rga_part(),
    {
        self.rga.as_ref()
    }

    /// Whether there is a processor collector.
    pub fn has_cpu(&self) -> (b: bool)
        ensures
            b == self.cpu_part() is Some,
    {
        self.cpu.is_some()
    }

    /// Whether there is a graphics collector.
    pub fn has_gpu(&self) -> (b: bool)
        ensures
            b == self.gpu_part() is Some,
    {
        self.gpu.is_some()
    }

    /// Whether there is a neural-accelerator collector.
    pub fn has_npu(&self) -> (b: bool)
        ensures
            b == self.npu_part() is Some,
    {
        self.npu.is_some()
    }

    /// Whether there is an image-processor collector.
    pub fn has_rga(&self) -> (b: bool)
        ensures
            b == self.rga_part() is Some,
    {
        self.rga.is_some()
    }

    /// The names of the collectors that are there.
    pub fn available_metrics(&self) -> (r: Vec<&'static str>)
        ensures
            name_texts(r@) == self.capabilities(),
    {
        let mut metrics: Vec<&'static str> = Vec::new();
        assert(name_texts(metrics@) =~= Seq::<Seq<char>>::empty());
        if self.has_cpu() {
            metrics.push("CPU");
        }
        assert(name_texts(metrics@) =~= name_if(self.cpu_part() is Some, "CPU"@));
        if self.has_gpu() {
            metrics.push("GPU");
        }
        assert(name_texts(metrics@) =~= name_if(self.cpu_part() is Some, "CPU"@) + name_if(
            self.gpu_part() is Some,
            "GPU"@,
        ));
        if self.has_npu() {
            metrics.push("NPU");
        }
        assert(name_texts(metrics@) =~= name_if(self.cpu_part() is Some, "CPU"@) + name_if(
            self.gpu_part() is Some,
            "GPU"@,
        ) + name_if(self.npu_part() is Some, "NPU"@));
        if self.has_rga() {
            metrics.push("RGA");
        }
        assert(name_texts(metrics@) =~= self.capabilities());
        metrics
    }
}

/// An aggregate with the processor collector alone reports the
/// processor alone, and a tick fails in it just where the processor's
/// own reads fail.
pub proof fn lemma_processor_alone(a: UnixSystemMetrics, readings: UnixReadings)
    requires
        a.cpu_part() is Some,
        a.gpu_part() is None,
        a.npu_part() is None,
        a.rga_part() is None,
    ensures
        a.capabilities() == seq!["CPU"@],
        a.update_error(&readings) == a.cpu_part()->0.step_error(
            readings.stat,
            readings.core_freqs@,
        ),
{
    assert(a.capabilities() =~= seq!["CPU"@]);
}

/// A collector that is not there is never the cause of a failure: a tick
/// in which every collector that is there meets no error meets none.
pub proof fn lemma_absent_collectors_never_fail(a: UnixSystemMetrics, readings: UnixReadings)
    requires
        a.cpu_part() matches Some(c) ==> c.step_error(readings.stat, readings.core_freqs@)
            is None,
        a.gpu_part() matches Some(c) ==> c.step_error(readings.gpu_load, readings.gpu_freq)
            is None,
        a.npu_part() matches Some(c) ==> c.step_error(
            readings.npu_load,
            readings.npu_report,
            readings.npu_freq,
        ) is None,
        a.rga_part() is Some ==> rga_update_error(readings.rga_load, readings.rga_clocks) is None,
    ensures
        a.update_error(&readings) is None,
{
}

} // verus!
