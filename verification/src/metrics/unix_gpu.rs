//! Graphics load and frequency from the kernel's device directory.

use crate::error::AppError;
use crate::metrics::device_path::{resolve_device_path, resolved_path, DeviceProbe};
use crate::metrics::devfreq::{
    device_update_error, frequency_file, frequency_path, graphics_load, load_file, load_path,
    mhz_after, parse_graphics_load, usage_after_load,
};
use crate::metrics::historical_metric::{HistoricalMetric, DEFAULT_HISTORY_LENGTH};
use crate::metrics::ratio::Ratio;
use crate::metrics::source::{
    frequency_error, read_failure, read_failure_text, read_frequency, SourceRead,
};
use crate::text::texts;
use std::collections::VecDeque;
use vstd::prelude::*;
use vstd::string::StringExecFns;

verus! {

/// The places where a graphics device is known to stand, in the order in
/// which they are tried.
pub open spec fn gpu_candidate_paths() -> Seq<Seq<char>> {
    seq![
        "/sys/class/devfreq/fb000000.gpu"@,
        "/sys/class/devfreq/10000000.gpu"@,
        "/sys/class/devfreq/gpu"@,
    ]
}

/// The words of which one marks a directory entry as a graphics device.
pub open spec fn gpu_keyword_texts() -> Seq<Seq<char>> {
    seq!["gpu"@, "fb"@]
}

/// The message for a host without a graphics device.
pub open spec fn gpu_not_found_message() -> Seq<char> {
    "No GPU devfreq device found"@
}

/// The places where a graphics device is known to stand.
pub fn gpu_candidates() -> (r: Vec<String>)
    ensures
        texts(r@) == gpu_candidate_paths(),
{
    let mut v: Vec<String> = Vec::new();
    v.push(String::from_str("/sys/class/devfreq/fb000000.gpu"));
    v.push(String::from_str("/sys/class/devfreq/10000000.gpu"));
    v.push(String::from_str("/sys/class/devfreq/gpu"));
    assert(texts(v@) =~= gpu_candidate_paths());
    v
}

/// The words of which one marks a directory entry as a graphics device.
pub fn gpu_keywords() -> (r: Vec<String>)
    ensures
        texts(r@) == gpu_keyword_texts(),
{
    let mut v: Vec<String> = Vec::new();
    v.push(String::from_str("gpu"));
    v.push(String::from_str("fb"));
    assert(texts(v@) =~= gpu_keyword_texts());
    v
}

/// Graphics load and frequency, sampled from the files under one device
/// directory.
pub struct UnixGpuMetrics {
    usage_percent: HistoricalMetric<Ratio>,
    frequency_mhz: HistoricalMetric<u64>,
    gpu_path: String,
}

impl UnixGpuMetrics {
    /// The usage stream in percent, oldest sample first.
    pub closed spec fn usage(&self) -> Seq<Ratio> {
        self.usage_percent@
    }

    /// The frequency stream in MHz, oldest sample first.
    pub closed spec fn frequency(&self) -> Seq<u64> {
        self.frequency_mhz@
    }

    /// The device directory.
    pub closed spec fn path(&self) -> Seq<char> {
        self.gpu_path@
    }

    /// Both streams are well formed and of the default capacity.
    pub closed spec fn wf(&self) -> bool {
        &&& self.usage_percent.wf()
        &&& self.usage_percent.capacity() == DEFAULT_HISTORY_LENGTH
        &&& self.frequency_mhz.wf()
        &&& self.frequency_mhz.capacity() == DEFAULT_HISTORY_LENGTH
    }

    /// Whether this collector is as it was made: both streams start at
    /// zero.
    pub open spec fn fresh(self) -> bool {
        &&& self.wf()
        &&& self.usage() == seq![Ratio { num: 0, den: 1 }]
        &&& self.frequency() == seq![0u64]
    }

    /// Whether `next` is this collector after one tick with the read
    /// `load` of the load file and the read `freq` of the frequency file:
    /// a load that the text holds is pushed in percent, a frequency that
    /// was read is pushed in MHz, and the device directory stays. Text
    /// that holds no load leaves the usage stream as it was.
    pub open spec fn stepped(self, next: Self, load: SourceRead, freq: SourceRead) -> bool {
        &&& next.wf()
        &&& next.path() == self.path()
        &&& next.usage() == usage_after_load(
            self.usage(),
            match load.text() {
                Some(t) => graphics_load(t),
                None => None,
            },
        )
        &&& next.frequency() == mhz_after(self.frequency(), freq)
    }

    /// The message of the first error of such a tick, if there is one.
    pub open spec fn step_error(self, load: SourceRead, freq: SourceRead) -> Option<Seq<char>> {
        device_update_error(self.path(), load, freq)
    }

    /// A collector for the device that `probe` shows. It fails where the
    /// probe shows none.
    pub fn new(probe: &DeviceProbe) -> (r: Result<Self, AppError>)
        ensures
            match r {
                Ok(c) => {
                    &&& c.fresh()
                    &&& resolved_path(gpu_candidate_paths(), gpu_keyword_texts(), *probe) == Some(
                        c.path(),
                    )
                },
                Err(e) => resolved_path(gpu_candidate_paths(), gpu_keyword_texts(), *probe)
                    is None && e.is_system(gpu_not_found_message()),
            },
    {
        match Self::find_gpu_devfreq_path(probe) {
            Ok(gpu_path) => Ok(Self::with_path(gpu_path)),
            Err(e) => Err(e),
        }
    }

    /// A collector for the device under `gpu_path`, which is not looked
    /// for.
    pub fn with_path(gpu_path: String) -> (r: Self)
        ensures
            r.fresh(),
            r.path() == gpu_path@,
    {
        UnixGpuMetrics {
            usage_percent: HistoricalMetric::new(Ratio::zero()),
            frequency_mhz: HistoricalMetric::new(0),
            gpu_path,
        }
    }

    /// Where the graphics device stands, given what was found on disk.
    pub fn find_gpu_devfreq_path(probe: &DeviceProbe) -> (r: Result<String, AppError>)
        ensures
            match r {
                Ok(p) => resolved_path(gpu_candidate_paths(), gpu_keyword_texts(), *probe) == Some(
                    p@,
                ),
                Err(e) => resolved_path(gpu_candidate_paths(), gpu_keyword_texts(), *probe) is None
                    && e.is_system(gpu_not_found_message()),
            },
    {
        resolve_device_path(&gpu_candidates(), &gpu_keywords(), probe, "No GPU devfreq device found")
    }

    /// Takes in one read of the load file: a load that the text holds
    /// is pushed in percent, and text that holds none is passed over
    /// without an error.
    fn update_gpu_load(&mut self, load: &SourceRead) -> (r: Result<(), AppError>)
        requires
            old(self).wf(),
        ensures
            final(self).wf(),
            final(self).path() == old(self).path(),
            final(self).frequency() == old(self).frequency(),
            final(self).usage() == usage_after_load(
                old(self).usage(),
                match load.text() {
                    Some(t) => graphics_load(t),
                    None => None,
                },
            ),
            match r {
                Ok(_) => load.failure() is None,
                Err(e) => load.failure() matches Some(m) && e.is_system(
                    read_failure(load_file(old(self).path()), m),
                ),
            },
    {
        match load {
            SourceRead::Absent => Ok(()),
            SourceRead::Failed(m) => {
                let load_path = load_path(self.gpu_path.as_str());
                Err(AppError::System(read_failure_text(load_path.as_str(), m.as_str())))
            },
            SourceRead::Content(t) => {
                if let Some(load) = parse_graphics_load(t.as_str()) {
                    self.usage_percent.update(Ratio::whole(load));
                }
                Ok(())
            },
        }
    }

    /// Takes in one read of the frequency file: a frequency that was
    /// read is pushed in MHz.
    fn update_gpu_frequency(&mut self, freq: &SourceRead) -> (r: Result<(), AppError>)
        requires
            old(self).wf(),
        ensures
            final(self).wf(),
            final(self).path() == old(self).path(),
            final(self).usage() == old(self).usage(),
            final(self).frequency() == mhz_after(old(self).frequency(), *freq),
            match r {
                Ok(_) => frequency_error(frequency_file(old(self).path()), *freq) is None,
                Err(e) => frequency_error(frequency_file(old(self).path()), *freq) matches Some(
                    m,
                ) && e.is_system(m),
            },
    {
        let freq_path = frequency_path(self.gpu_path.as_str());
        match read_frequency(freq_path.as_str(), freq) {
            Ok(Some(hz)) => {
                self.frequency_mhz.update(hz / 1_000_000);
                Ok(())
            },
            Ok(None) => Ok(()),
            Err(e) => Err(e),
        }
    }

    /// Takes in one tick: the read of the load file and the read of the
    /// frequency file. A file that is not there leaves its stream as it
    /// was; so does a load file whose text holds no load, which is no
    /// error; so does a read that fails, which stops the other stream
    /// from nothing. The first failure is returned.
    pub fn update(&mut self, load: &SourceRead, freq: &SourceRead) -> (r: Result<(), AppError>)
        requires
            old(self).wf(),
        ensures
            old(self).stepped(*final(self), *load, *freq),
            match r {
                Ok(_) => old(self).step_error(*load, *freq) is None,
                Err(e) => old(self).step_error(*load, *freq) matches Some(m) && e.is_system(m),
            },
    {
        let load_outcome = self.update_gpu_load(load);
        let frequency_outcome = self.update_gpu_frequency(freq);
        match load_outcome {
            Ok(_) => frequency_outcome,
            Err(e) => Err(e),
        }
    }

    /// The latest usage, in percent.
    pub fn usage_percent(&self) -> (r: Ratio)
        requires
            self.wf(),
        ensures
            r == self.usage().last(),
    {
        *self.usage_percent.current()
    }

    /// The latest frequency, in MHz.
    pub fn frequency_mhz(&self) -> (r: u64)
        requires
            self.wf(),
        ensures
            r == self.frequency().last(),
    {
        *self.frequency_mhz.current()
    }

    /// The usage stream, oldest sample first.
    pub fn usage_history(&self) -> (r: &VecDeque<Ratio>)
        ensures
            r@ == self.usage(),
    {
        self.usage_percent.history()
    }

    /// The frequency stream, oldest sample first.
    pub fn frequency_history(&self) -> (r: &VecDeque<u64>)
        ensures
            r@ == self.frequency(),
    {
        self.frequency_mhz.history()
    }

    /// The device directory.
    pub fn gpu_path(&self) -> (r: &str)
        ensures
            r@ == self.path(),
    {
        self.gpu_path.as_str()
    }
}

/// A load file whose text holds no load leaves the usage stream as it
/// was, and is no error.
pub proof fn lemma_odd_load_keeps_usage(
    a: UnixGpuMetrics,
    b: UnixGpuMetrics,
    load: SourceRead,
    freq: SourceRead,
)
    requires
        a.stepped(b, load, freq),
        load.text() matches Some(t) && graphics_load(t) is None,
    ensures
        b.usage() == a.usage(),
        a.step_error(load, freq) == frequency_error(frequency_file(a.path()), freq),
{
}

} // verus!
