//! Neural-accelerator load and frequency from the kernel's device directory.

use crate::error::AppError;
use crate::metrics::device_path::{resolve_device_path, resolved_path, DeviceProbe};
use crate::metrics::devfreq::{
    frequency_file, frequency_path, load_file, load_path, mhz_after, neural_load,
    parse_neural_load, usage_after_load,
};
use crate::metrics::historical_metric::{HistoricalMetric, DEFAULT_HISTORY_LENGTH};
use crate::metrics::ratio::Ratio;
use crate::metrics::source::{
    command_failure, command_failure_text, frequency_error, read_failure, read_failure_text,
    read_frequency, SourceRead,
};
use crate::text::texts;
use std::collections::VecDeque;
use vstd::prelude::*;
use vstd::string::StringExecFns;

verus! {

/// The places where a neural accelerator is known to stand, in the order in
/// which they are tried.
pub open spec fn npu_candidate_paths() -> Seq<Seq<char>> {
    seq![
        "/sys/class/devfreq/fdab0000.npu"@,
        "/sys/class/devfreq/10000000.npu"@,
        "/sys/class/devfreq/npu"@,
    ]
}

/// The words of which one marks a directory entry as a neural accelerator.
pub open spec fn npu_keyword_texts() -> Seq<Seq<char>> {
    seq!["npu"@, "fdab"@]
}

/// The debug file that reports the load of the accelerator's cores. It
/// is read with raised privilege, and only where the device directory
/// holds no load file.
pub const NPU_DEBUG_LOAD_PATH: &'static str = "/sys/kernel/debug/rknpu/load";

/// The text that holds the load in one tick: that of the load file under
/// the device directory, and that of the debug report where there is no
/// such file.
pub open spec fn neural_load_text(load: SourceRead, report: SourceRead) -> Option<Seq<char>> {
    match load {
        SourceRead::Absent => report.text(),
        _ => load.text(),
    }
}

/// The message of the error that the load of one tick ends in, if it
/// ends in one: a load file under `dir` that could not be read, or, where
/// there is no load file, a debug report whose read could not be run.
pub open spec fn neural_load_error(dir: Seq<char>, load: SourceRead, report: SourceRead) -> Option<
    Seq<char>,
> {
    match load {
        SourceRead::Failed(m) => Some(read_failure(load_file(dir), m@)),
        SourceRead::Absent => match report {
            SourceRead::Failed(m) => Some(command_failure(NPU_DEBUG_LOAD_PATH@, m@)),
            _ => None,
        },
        SourceRead::Content(_) => None,
    }
}

/// Tells whether the debug report is to be read, given the read of the
/// load file under the device directory: it is where that file is not
/// there.
pub fn wants_debug_report(load: &SourceRead) -> (b: bool)
    ensures
        b == (*load is Absent),
{
    match load {
        SourceRead::Absent => true,
        _ => false,
    }
}

/// The message for a host without a neural accelerator.
pub open spec fn npu_not_found_message() -> Seq<char> {
    "No NPU devfreq device found"@
}

/// The places where a neural accelerator is known to stand.
pub fn npu_candidates() -> (r: Vec<String>)
    ensures
        texts(r@) == npu_candidate_paths(),
{
    let mut v: Vec<String> = Vec::new();
    v.push(String::from_str("/sys/class/devfreq/fdab0000.npu"));
    v.push(String::from_str("/sys/class/devfreq/10000000.npu"));
    v.push(String::from_str("/sys/class/devfreq/npu"));
    assert(texts(v@) =~= npu_candidate_paths());
    v
}

/// The words of which one marks a directory entry as a neural accelerator.
pub fn npu_keywords() -> (r: Vec<String>)
    ensures
        texts(r@) == npu_keyword_texts(),
{
    let mut v: Vec<String> = Vec::new();
    v.push(String::from_str("npu"));
    v.push(String::from_str("fdab"));
    assert(texts(v@) =~= npu_keyword_texts());
    v
}

/// Neural-accelerator load and frequency, sampled from the files under one device
/// directory.
pub struct UnixNpuMetrics {
    usage_percent: HistoricalMetric<Ratio>,
    frequency_mhz: HistoricalMetric<u64>,
    npu_path: String,
}

impl UnixNpuMetrics {
    /// The usage stream in percent, oldest sample first.
    pub closed spec fn usage(&self) -> Seq<Ratio> {
        self.usage_percent@
    }

    /// The frequency stream in MHz, oldest sample first.
    pub closed spec fn frequency(&self) -> Seq<u64> {
        self.frequency_mhz@
    }

    /// The device directory.
    pub closed spec fn path(&self) -> Seq<char> {
        self.npu_path@
    }

    /// Both streams are well formed and of the default capacity.
    pub closed spec fn wf(&self) -> bool {
        &&& self.usage_percent.wf()
        &&& self.usage_percent.capacity() == DEFAULT_HISTORY_LENGTH
        &&& self.frequency_mhz.wf()
        &&& self.frequency_mhz.capacity() == DEFAULT_HISTORY_LENGTH
    }

    /// Whether this collector is as it was made: both streams start at
    /// zero.
    pub open spec fn fresh(self) -> bool {
        &&& self.wf()
        &&& self.usage() == seq![Ratio { num: 0, den: 1 }]
        &&& self.frequency() == seq![0u64]
    }

    /// Whether `next` is this collector after one tick with the read
    /// `load` of the load file, the read `report` of the debug report
    /// and the read `freq` of the frequency file: a load that the text
    /// holds is pushed in percent, a frequency that was read is pushed
    /// in MHz, and the device directory stays. Text that holds no load
    /// leaves the usage stream as it was.
    pub open spec fn stepped(
        self,
        next: Self,
        load: SourceRead,
        report: SourceRead,
        freq: SourceRead,
    ) -> bool {
        &&& next.wf()
        &&& next.path() == self.path()
        &&& next.usage() == usage_after_load(
            self.usage(),
            match neural_load_text(load, report) {
                Some(t) => neural_load(t),
                None => None,
            },
        )
        &&& next.frequency() == mhz_after(self.frequency(), freq)
    }

    /// The message of the first error of such a tick, if there is one:
    /// that of the load, else that of the frequency file.
    pub open spec fn step_error(self, load: SourceRead, report: SourceRead, freq: SourceRead)
        -> Option<Seq<char>> {
        match neural_load_error(self.path(), load, report) {
            Some(m) => Some(m),
            None => frequency_error(frequency_file(self.path()), freq),
        }
    }

    /// A collector for the device that `probe` shows. It fails where the
    /// probe shows none.
    pub fn new(probe: &DeviceProbe) -> (r: Result<Self, AppError>)
        ensures
            match r {
                Ok(c) => {
                    &&& c.fresh()
                    &&& resolved_path(npu_candidate_paths(), npu_keyword_texts(), *probe) == Some(
                        c.path(),
                    )
                },
                Err(e) => resolved_path(npu_candidate_paths(), npu_keyword_texts(), *probe)
                    is None && e.is_system(npu_not_found_message()),
            },
    {
        match Self::find_npu_devfreq_path(probe) {
            Ok(npu_path) => Ok(Self::with_path(npu_path)),
            Err(e) => Err(e),
        }
    }

    /// A collector for the device under `npu_path`, which is not looked
    /// for.
    pub fn with_path(npu_path: String) -> (r: Self)
        ensures
            r.fresh(),
            r.path() == npu_path@,
    {
        UnixNpuMetrics {
            usage_percent: HistoricalMetric::new(Ratio::zero()),
            frequency_mhz: HistoricalMetric::new(0),
            npu_path,
        }
    }

    /// Where the neural accelerator stands, given what was found on disk.
    pub fn find_npu_devfreq_path(probe: &DeviceProbe) -> (r: Result<String, AppError>)
        ensures
            match r {
                Ok(p) => resolved_path(npu_candidate_paths(), npu_keyword_texts(), *probe) == Some(
                    p@,
                ),
                Err(e) => resolved_path(npu_candidate_paths(), npu_keyword_texts(), *probe) is None
                    && e.is_system(npu_not_found_message()),
            },
    {
        resolve_device_path(&npu_candidates(), &npu_keywords(), probe, "No NPU devfreq device found")
    }

    /// Pushes the load that `text` holds, in percent, if it holds one.
    fn push_load(&mut self, text: &str)
        requires
            old(self).wf(),
        ensures
            final(self).wf(),
            final(self).path() == old(self).path(),
            final(self).frequency() == old(self).frequency(),
            final(self).usage() == usage_after_load(old(self).usage(), neural_load(text@)),
    {
        if let Some(load) = parse_neural_load(text) {
            self.usage_percent.update(Ratio::whole(load));
        }
    }

    /// Takes in the load of one tick: the read of the load file under
    /// the device directory and, for where there is no such file, the
    /// read of the debug report. A load that the text holds is pushed in
    /// percent, and text that holds none is passed over without an
    /// error.
    fn update_npu_load(&mut self, load: &SourceRead, report: &SourceRead) -> (r: Result<
        (),
        AppError,
    >)
        requires
            old(self).wf(),
        ensures
            final(self).wf(),
            final(self).path() == old(self).path(),
            final(self).frequency() == old(self).frequency(),
            final(self).usage() == usage_after_load(
                old(self).usage(),
                match neural_load_text(*load, *report) {
                    Some(t) => neural_load(t),
                    None => None,
                },
            ),
            match r {
                Ok(_) => neural_load_error(old(self).path(), *load, *report) is None,
                Err(e) => neural_load_error(old(self).path(), *load, *report) matches Some(m)
                    && e.is_system(m),
            },
    {
        match load {
            SourceRead::Failed(m) => {
                let load_path = load_path(self.npu_path.as_str());
                Err(AppError::System(read_failure_text(load_path.as_str(), m.as_str())))
            },
            SourceRead::Content(t) => {
                self.push_load(t.as_str());
                Ok(())
            },
            SourceRead::Absent => match report {
                SourceRead::Absent => Ok(()),
                SourceRead::Failed(m) => Err(
                    AppError::System(command_failure_text(NPU_DEBUG_LOAD_PATH, m.as_str())),
                ),
                SourceRead::Content(t) => {
                    self.push_load(t.as_str());
                    Ok(())
                },
            },
        }
    }

    /// Takes in one read of the frequency file: a frequency that was
    /// read is pushed in MHz.
    fn update_npu_frequency(&mut self, freq: &SourceRead) -> (r: Result<(), AppError>)
        requires
            old(self).wf(),
        ensures
            final(self).wf(),
            final(self).path() == old(self).path(),
            final(self).usage() == old(self).usage(),
            final(self).frequency() == mhz_after(old(self).frequency(), *freq),
            match r {
                Ok(_) => frequency_error(frequency_file(old(self).path()), *freq) is None,
                Err(e) => frequency_error(frequency_file(old(self).path()), *freq) matches Some(
                    m,
                ) && e.is_system(m),
            },
    {
        let freq_path = frequency_path(self.npu_path.as_str());
        match read_frequency(freq_path.as_str(), freq) {
            Ok(Some(hz)) => {
                self.frequency_mhz.update(hz / 1_000_000);
                Ok(())
            },
            Ok(None) => Ok(()),
            Err(e) => Err(e),
        }
    }

    /// Takes in one tick: the read of the load file, the read of the
    /// debug report, which counts only where there is no load file, and
    /// the read of the frequency file. A source that is not there
    /// leaves its stream as it was; so does a read that fails, which
    /// stops the other stream from nothing. The first failure is
    /// returned.
    pub fn update(&mut self, load: &SourceRead, report: &SourceRead, freq: &SourceRead) -> (r:
        Result<(), AppError>)
        requires
            old(self).wf(),
        ensures
            old(self).stepped(*final(self), *load, *report, *freq),
            match r {
                Ok(_) => old(self).step_error(*load, *report, *freq) is None,
                Err(e) => old(self).step_error(*load, *report, *freq) matches Some(m)
                    && e.is_system(m),
            },
    {
        let load_outcome = self.update_npu_load(load, report);
        let frequency_outcome = self.update_npu_frequency(freq);
        match load_outcome {
            Ok(_) => frequency_outcome,
            Err(e) => Err(e),
        }
    }

    /// The latest usage, in percent.
    pub fn usage_percent(&self) -> (r: Ratio)
        requires
            self.wf(),
        ensures
            r == self.usage().last(),
    {
        *self.usage_percent.current()
    }

    /// The latest frequency, in MHz.
    pub fn frequency_mhz(&self) -> (r: u64)
        requires
            self.wf(),
        ensures
            r == self.frequency().last(),
    {
        *self.frequency_mhz.current()
    }

    /// The usage stream, oldest sample first.
    pub fn usage_history(&self) -> (r: &VecDeque<Ratio>)
        ensures
            r@ == self.usage(),
    {
        self.usage_percent.history()
    }

    /// The frequency stream, oldest sample first.
    pub fn frequency_history(&self) -> (r: &VecDeque<u64>)
        ensures
            r@ == self.frequency(),
    {
        self.frequency_mhz.history()
    }

    /// The device directory.
    pub fn npu_path(&self) -> (r: &str)
        ensures
            r@ == self.path(),
    {
        self.npu_path.as_str()
    }
}

/// A load whose text holds no load leaves the usage stream as it was,
/// and is no error.
pub proof fn lemma_odd_load_keeps_usage(
    a: UnixNpuMetrics,
    b: UnixNpuMetrics,
    load: SourceRead,
    report: SourceRead,
    freq: SourceRead,
)
    requires
        a.stepped(b, load, report, freq),
        neural_load_text(load, report) matches Some(t) && neural_load(t) is None,
    ensures
        b.usage() == a.usage(),
        a.step_error(load, report, freq) == frequency_error(frequency_file(a.path()), freq),
{
}

} // verus!
