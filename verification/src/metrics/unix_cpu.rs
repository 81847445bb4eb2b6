//! Processor usage from the kernel's tick counters, and per-core clock
//! frequencies.

use crate::error::AppError;
use crate::metrics::historical_metric::{pushed, HistoricalMetric, DEFAULT_HISTORY_LENGTH};
use crate::metrics::ratio::Ratio;
use crate::metrics::source::{
    frequency_error, frequency_sample, read_failure, read_failure_text, read_frequency,
    SourceRead,
};
use crate::number::{decimal_digits, number_or_zero, push_decimal, read_or_zero};
use crate::text::{
    chars_of, fields, first_line, is_match_at, lines, split_fields, split_lines, starts_with,
    views,
};
use std::collections::VecDeque;
use vstd::prelude::*;
use vstd::string::StringExecFns;

verus! {

/// The file that holds the aggregate tick counters.
pub const STAT_PATH: &'static str = "/proc/stat";

/// One reading of the aggregate tick counters, in the kernel's order.
#[derive(Debug, Clone, Copy, PartialEq, Eq, Structural)]
pub struct CpuStats {
    pub user: u64,
    pub nice: u64,
    pub system: u64,
    pub idle: u64,
    pub iowait: u64,
    pub irq: u64,
    pub softirq: u64,
    pub steal: u64,
    pub guest: u64,
    pub guest_nice: u64,
}

impl CpuStats {
    /// All ticks that count as time: every counter but the two guest
    /// counters, whose ticks are already part of `user` and `nice`.
    pub open spec fn total(self) -> int {
        self.user + self.nice + self.system + self.idle + self.iowait + self.irq + self.softirq
            + self.steal
    }

    /// The ticks spent idle or waiting for I/O.
    pub open spec fn idle_total(self) -> int {
        self.idle + self.iowait
    }

    /// Whether none of the counters that count as time is lower in `self`
    /// than in `prev`.
    pub open spec fn follows(self, prev: CpuStats) -> bool {
        &&& prev.user <= self.user
        &&& prev.nice <= self.nice
        &&& prev.system <= self.system
        &&& prev.idle <= self.idle
        &&& prev.iowait <= self.iowait
        &&& prev.irq <= self.irq
        &&& prev.softirq <= self.softirq
        &&& prev.steal <= self.steal
    }
}

/// The share of busy ticks between two readings, in percent. Where no tick
/// passed, or a counter went back (the counters were reset), it is zero.
pub open spec fn cpu_usage(prev: CpuStats, curr: CpuStats) -> Ratio {
    let total_diff = curr.total() - prev.total();
    let idle_diff = curr.idle_total() - prev.idle_total();
    if curr.follows(prev) && total_diff > 0 {
        Ratio { num: (100 * (total_diff - idle_diff)) as u128, den: total_diff as u128 }
    } else {
        Ratio { num: 0, den: 1 }
    }
}

/// Usage is a percentage: it lies between 0 and 100, and it is zero where
/// no tick passed between the two readings.
pub proof fn lemma_cpu_usage_is_percentage(prev: CpuStats, curr: CpuStats)
    ensures
        cpu_usage(prev, curr).defined(),
        0 <= cpu_usage(prev, curr).num,
        cpu_usage(prev, curr).at_most(100),
        curr.total() == prev.total() ==> cpu_usage(prev, curr).is_zero(),
        curr.follows(prev) && curr.total() > prev.total() ==> {
            &&& cpu_usage(prev, curr).den == curr.total() - prev.total()
            &&& cpu_usage(prev, curr).num == 100 * ((curr.total() - prev.total()) - (
            curr.idle_total() - prev.idle_total()))
        },
{
}

/// The number in field `k` of `fs`; a field that is no number counts as
/// zero.
pub open spec fn field_value(fs: Seq<Seq<char>>, k: int) -> u64 {
    number_or_zero(fs[k])
}

/// The counters that the aggregate line `line` holds: the label, then ten
/// counters. A line with fewer than eleven fields holds none.
pub open spec fn cpu_line_stats(line: Seq<char>) -> Option<CpuStats> {
    let fs = fields(line);
    if fs.len() < 11 {
        None
    } else {
        Some(
            CpuStats {
                user: field_value(fs, 1),
                nice: field_value(fs, 2),
                system: field_value(fs, 3),
                idle: field_value(fs, 4),
                iowait: field_value(fs, 5),
                irq: field_value(fs, 6),
                softirq: field_value(fs, 7),
                steal: field_value(fs, 8),
                guest: field_value(fs, 9),
                guest_nice: field_value(fs, 10),
            },
        )
    }
}

/// The message for an aggregate line with too few fields.
pub open spec fn invalid_line_message() -> Seq<char> {
    "Invalid CPU line format in /proc/stat"@
}

/// The message for a counter file without any line.
pub open spec fn no_line_message() -> Seq<char> {
    "No CPU line found in /proc/stat"@
}

/// Whether `line` is the line of one core: it starts with `cpu`, and no
/// space follows at once, which marks the aggregate line.
pub open spec fn is_core_line(line: Seq<char>) -> bool {
    starts_with(line, "cpu"@) && !starts_with(line, "cpu "@)
}

/// How many of `ls` are lines of one core.
pub open spec fn core_line_count(ls: Seq<Seq<char>>) -> nat
    decreases ls.len(),
{
    if ls.len() == 0 {
        0
    } else {
        core_line_count(ls.drop_last()) + if is_core_line(ls.last()) {
            1nat
        } else {
            0nat
        }
    }
}

/// The number of cores that the counter file `stat` lists.
pub open spec fn core_count(stat: Seq<char>) -> nat {
    core_line_count(lines(stat))
}

/// The file that holds the clock frequency of core `core`, in kHz.
pub open spec fn core_frequency_path(core: nat) -> Seq<char> {
    "/sys/devices/system/cpu/cpu"@ + decimal_digits(core) + "/cpufreq/scaling_cur_freq"@
}

/// The number in field `k` of `fs`, zero where it is no number.
fn read_field(fs: &Vec<Vec<char>>, k: usize) -> (r: u64)
    requires
        k < fs@.len(),
    ensures
        r == field_value(views(fs@), k as int),
{
    read_or_zero(&fs[k])
}

/// Counts the lines of single cores in the counter file `stat`.
pub fn count_cores(stat: &str) -> (r: usize)
    ensures
        r == core_count(stat@),
{
    let text = chars_of(stat);
    let ls = split_lines(&text);
    let label = chars_of("cpu");
    let aggregate = chars_of("cpu ");
    let mut count: usize = 0;
    let mut i: usize = 0;
    while i < ls.len()
        invariant
            i <= ls@.len(),
            label@ == "cpu"@,
            aggregate@ == "cpu "@,
            count == core_line_count(views(ls@).subrange(0, i as int)),
            count <= i,
        decreases ls@.len() - i,
    {
        proof {
            assert(views(ls@).subrange(0, i + 1).drop_last() =~= views(ls@).subrange(0, i as int));
            assert(views(ls@).subrange(0, i + 1).last() == ls@[i as int]@);
        }
        if is_match_at(&ls[i], &label, 0) && !is_match_at(&ls[i], &aggregate, 0) {
            count += 1;
        }
        i += 1;
    }
    assert(views(ls@).subrange(0, i as int) =~= views(ls@));
    count
}

/// Builds the path of the file that holds the clock frequency of core
/// `core`.
pub fn frequency_path(core: usize) -> (r: String)
    ensures
        r@ == core_frequency_path(core as nat),
{
    let mut out = String::from_str("/sys/devices/system/cpu/cpu");
    push_decimal(&mut out, core as u64);
    out.append("/cpufreq/scaling_cur_freq");
    out
}

/// Reads the ten counters of the aggregate line `line`.
fn parse_cpu_chars(line: &Vec<char>) -> (r: Option<CpuStats>)
    ensures
        r == cpu_line_stats(line@),
{
    let fs = split_fields(line);
    if fs.len() < 11 {
        return None;
    }
    Some(
        CpuStats {
            user: read_field(&fs, 1),
            nice: read_field(&fs, 2),
            system: read_field(&fs, 3),
            idle: read_field(&fs, 4),
            iowait: read_field(&fs, 5),
            irq: read_field(&fs, 6),
            softirq: read_field(&fs, 7),
            steal: read_field(&fs, 8),
            guest: read_field(&fs, 9),
            guest_nice: read_field(&fs, 10),
        },
    )
}

/// The sum of the counters of `s` that count as time.
fn total_ticks(s: &CpuStats) -> (r: u128)
    ensures
        r == s.total(),
{
    s.user as u128 + s.nice as u128 + s.system as u128 + s.idle as u128 + s.iowait as u128
        + s.irq as u128 + s.softirq as u128 + s.steal as u128
}

/// Tells whether no counter that counts as time went back from `prev` to
/// `curr`.
fn counters_follow(prev: &CpuStats, curr: &CpuStats) -> (b: bool)
    ensures
        b == curr.follows(*prev),
{
    prev.user <= curr.user && prev.nice <= curr.nice && prev.system <= curr.system && prev.idle
        <= curr.idle && prev.iowait <= curr.iowait && prev.irq <= curr.irq && prev.softirq
        <= curr.softirq && prev.steal <= curr.steal
}

/// What the usage stream learns from one read of the counter file: the
/// counters of its first line.
pub open spec fn stat_sample(stat: SourceRead) -> Option<CpuStats> {
    match stat {
        SourceRead::Content(t) => if lines(t@).len() == 0 {
            None
        } else {
            cpu_line_stats(lines(t@)[0])
        },
        _ => None,
    }
}

/// The message of the error that one read of the counter file ends in, if
/// it ends in one.
pub open spec fn stat_error(stat: SourceRead) -> Option<Seq<char>> {
    match stat {
        SourceRead::Absent => None,
        SourceRead::Failed(m) => Some(read_failure(STAT_PATH@, m@)),
        SourceRead::Content(t) => if lines(t@).len() == 0 {
            Some(no_line_message())
        } else if cpu_line_stats(lines(t@)[0]) is None {
            Some(invalid_line_message())
        } else {
            None
        },
    }
}

/// Reads the counters that one read of the counter file gave.
pub fn read_stat(stat: &SourceRead) -> (r: Result<Option<CpuStats>, AppError>)
    ensures
        match r {
            Ok(v) => stat_error(*stat) is None && v == stat_sample(*stat),
            Err(e) => stat_error(*stat) matches Some(m) && e.is_system(m),
        },
{
    match stat {
        SourceRead::Absent => Ok(None),
        SourceRead::Failed(m) => Err(AppError::System(read_failure_text(STAT_PATH, m.as_str()))),
        SourceRead::Content(t) => {
            let text = chars_of(t.as_str());
            match first_line(&text) {
                None => Err(AppError::system("No CPU line found in /proc/stat")),
                Some(line) => match parse_cpu_chars(&line) {
                    Some(stats) => Ok(Some(stats)),
                    None => Err(AppError::system("Invalid CPU line format in /proc/stat")),
                },
            }
        },
    }
}

/// The read of core `i` among `reads`; a core without a read counts as
/// one whose file is not there.
pub open spec fn read_at(reads: Seq<SourceRead>, i: int) -> SourceRead {
    if 0 <= i < reads.len() {
        reads[i]
    } else {
        SourceRead::Absent
    }
}

/// The message of the first error among the frequency reads of the cores
/// from `i` on, if there is one.
pub open spec fn first_frequency_error(reads: Seq<SourceRead>, cores: nat, i: int) -> Option<
    Seq<char>,
>
    decreases cores - i,
{
    if i < 0 || i >= cores {
        None
    } else {
        match frequency_error(core_frequency_path(i as nat), read_at(reads, i)) {
            Some(m) => Some(m),
            None => first_frequency_error(reads, cores, i + 1),
        }
    }
}

/// The message of the first error of one update: that of the counter
/// file, else that of the first core whose frequency read fails.
pub open spec fn update_error(stat: SourceRead, reads: Seq<SourceRead>, cores: nat) -> Option<
    Seq<char>,
> {
    match stat_error(stat) {
        Some(m) => Some(m),
        None => first_frequency_error(reads, cores, 0),
    }
}

/// A usage stream after one read of the counter file: usage is pushed
/// once a reading follows an earlier one.
pub open spec fn usage_after(usage: Seq<Ratio>, previous: Option<CpuStats>, stat: SourceRead) -> Seq<
    Ratio,
> {
    match (previous, stat_sample(stat)) {
        (Some(p), Some(c)) => pushed(usage, DEFAULT_HISTORY_LENGTH as nat, cpu_usage(p, c)),
        _ => usage,
    }
}

/// A frequency stream after one read of its file.
pub open spec fn frequency_after(stream: Seq<u64>, read: SourceRead) -> Seq<u64> {
    match frequency_sample(read) {
        Some(v) => pushed(stream, DEFAULT_HISTORY_LENGTH as nat, v),
        None => stream,
    }
}

/// The message for a counter file that is not there.
pub open spec fn absent_stat_message() -> Seq<char> {
    read_failure(STAT_PATH@, "no such file"@)
}

/// The message of the error for which no collector is made from one read
/// of the counter file, if there is one: the file is not there, could not
/// be read, or does not start with a line that holds the counters.
pub open spec fn probe_error(stat: SourceRead) -> Option<Seq<char>> {
    match stat {
        SourceRead::Absent => Some(absent_stat_message()),
        _ => stat_error(stat),
    }
}

/// Processor usage and per-core frequencies, sampled from the kernel.
pub struct UnixCpuMetrics {
    usage_percent: HistoricalMetric<Ratio>,
    frequencies: Vec<HistoricalMetric<u64>>,
    cpu_count: usize,
    prev_stats: Option<CpuStats>,
}

impl UnixCpuMetrics {
    /// The usage stream, oldest sample first.
    pub closed spec fn usage(&self) -> Seq<Ratio> {
        self.usage_percent@
    }

    /// The number of cores.
    pub closed spec fn cores(&self) -> nat {
        self.cpu_count as nat
    }

    /// The frequency stream of core `core`, in kHz, oldest sample first.
    pub closed spec fn frequency(&self, core: int) -> Seq<u64> {
        self.frequencies@[core]@
    }

    /// The counters of the last successful read, if there was one.
    pub closed spec fn previous(&self) -> Option<CpuStats> {
        self.prev_stats
    }

    /// Every stream is well formed and of the default capacity, and there
    /// is one frequency stream for each core.
    pub closed spec fn wf(&self) -> bool {
        &&& self.usage_percent.wf()
        &&& self.usage_percent.capacity() == DEFAULT_HISTORY_LENGTH
        &&& self.frequencies@.len() == self.cpu_count
        &&& forall|i: int|
            0 <= i < self.frequencies@.len() ==> (#[trigger] self.frequencies@[i]).wf()
                && self.frequencies@[i].capacity() == DEFAULT_HISTORY_LENGTH
    }

    /// Whether this collector is as it was made: usage starts at zero,
    /// so does the frequency of every core, and no counters were read
    /// yet.
    pub open spec fn fresh(self) -> bool {
        &&& self.wf()
        &&& self.usage() == seq![Ratio { num: 0, den: 1 }]
        &&& self.previous() is None
        &&& forall|i: int| 0 <= i < self.cores() ==> self.frequency(i) == seq![0u64]
    }

    /// Whether `next` is this collector after one tick with the read
    /// `stat` of the counter file and the reads `core_freqs` of the
    /// frequency files: the counters that were read are remembered, usage
    /// is pushed once a reading follows an earlier one, and each core
    /// whose file gave a number has it pushed.
    pub open spec fn stepped(self, next: Self, stat: SourceRead, core_freqs: Seq<SourceRead>)
        -> bool {
        &&& next.wf()
        &&& next.cores() == self.cores()
        &&& next.previous() == match stat_sample(stat) {
            Some(c) => Some(c),
            None => self.previous(),
        }
        &&& next.usage() == usage_after(self.usage(), self.previous(), stat)
        &&& forall|i: int|
            0 <= i < self.cores() ==> #[trigger] next.frequency(i) == frequency_after(
                self.frequency(i),
                read_at(core_freqs, i),
            )
    }

    /// The message of the first error of such a tick, if there is one.
    pub open spec fn step_error(self, stat: SourceRead, core_freqs: Seq<SourceRead>) -> Option<
        Seq<char>,
    > {
        update_error(stat, core_freqs, self.cores())
    }

    /// A collector for the cores that the counter file lists. It fails
    /// where the file could not be read, and where its first line does
    /// not hold the counters.
    pub fn new(stat: &SourceRead) -> (r: Result<Self, AppError>)
        ensures
            match r {
                Ok(c) => {
                    &&& probe_error(*stat) is None
                    &&& stat.text() matches Some(t)
                    &&& c.cores() == core_count(t)
                    &&& c.fresh()
                },
                Err(e) => probe_error(*stat) matches Some(m) && e.is_system(m),
            },
    {
        let cpu_count = match Self::get_cpu_count(stat) {
            Ok(n) => n,
            Err(e) => {
                return Err(e);
            },
        };
        match read_stat(stat) {
            Ok(_) => {},
            Err(e) => {
                return Err(e);
            },
        }
        let mut frequencies: Vec<HistoricalMetric<u64>> = Vec::new();
        let mut i: usize = 0;
        while i < cpu_count
            invariant
                i <= cpu_count,
                frequencies@.len() == i,
                forall|j: int|
                    0 <= j < i ==> {
                        &&& (#[trigger] frequencies@[j]).wf()
                        &&& frequencies@[j].capacity() == DEFAULT_HISTORY_LENGTH
                        &&& frequencies@[j]@ == seq![0u64]
                    },
            decreases cpu_count - i,
        {
            frequencies.push(HistoricalMetric::new(0));
            i += 1;
        }
        Ok(
            UnixCpuMetrics {
                usage_percent: HistoricalMetric::new(Ratio::zero()),
                frequencies,
                cpu_count,
                prev_stats: None,
            },
        )
    }

    /// The number of cores that the counter file lists. It fails where
    /// the file could not be read.
    pub fn get_cpu_count(stat: &SourceRead) -> (r: Result<usize, AppError>)
        ensures
            match r {
                Ok(n) => stat.text() matches Some(t) && n == core_count(t),
                Err(e) => match *stat {
                    SourceRead::Absent => e.is_system(absent_stat_message()),
                    SourceRead::Failed(m) => e.is_system(read_failure(STAT_PATH@, m@)),
                    SourceRead::Content(_) => false,
                },
            },
    {
        match stat {
            SourceRead::Absent => Err(
                AppError::System(read_failure_text(STAT_PATH, "no such file")),
            ),
            SourceRead::Failed(m) => Err(
                AppError::System(read_failure_text(STAT_PATH, m.as_str())),
            ),
            SourceRead::Content(t) => Ok(count_cores(t.as_str())),
        }
    }

    /// Reads the ten counters of the aggregate line `line`. A line with fewer
    /// than eleven fields is refused; a counter that is no number reads as
    /// zero.
    pub fn parse_cpu_line(line: &str) -> (r: Result<CpuStats, AppError>)
        ensures
            match r {
                Ok(stats) => cpu_line_stats(line@) == Some(stats),
                Err(e) => cpu_line_stats(line@) is None && e.is_system(invalid_line_message()),
            },
    {
        let text = chars_of(line);
        match parse_cpu_chars(&text) {
            Some(stats) => Ok(stats),
            None => Err(AppError::system("Invalid CPU line format in /proc/stat")),
        }
    }

    /// The share of busy ticks between two readings, in percent.
    pub fn calculate_cpu_usage(prev: &CpuStats, curr: &CpuStats) -> (r: Ratio)
        ensures
            r == cpu_usage(*prev, *curr),
            r.defined(),
            r.at_most(100),
            curr.total() == prev.total() ==> r.is_zero(),
    {
        if !counters_follow(prev, curr) {
            return Ratio::zero();
        }
        let prev_total = total_ticks(prev);
        let curr_total = total_ticks(curr);
        let total_diff: u128 = curr_total - prev_total;
        if total_diff == 0 {
            return Ratio::zero();
        }
        let prev_idle: u128 = prev.idle as u128 + prev.iowait as u128;
        let curr_idle: u128 = curr.idle as u128 + curr.iowait as u128;
        let idle_diff: u128 = curr_idle - prev_idle;
        Ratio { num: 100 * (total_diff - idle_diff), den: total_diff }
    }

    /// Takes in one read of the counter file: the counters that were
    /// read are remembered, and usage is pushed once they follow earlier
    /// ones.
    fn update_cpu_usage(&mut self, stat: &SourceRead) -> (r: Result<(), AppError>)
        requires
            old(self).wf(),
        ensures
            final(self).wf(),
            final(self).cores() == old(self).cores(),
            final(self).previous() == match stat_sample(*stat) {
                Some(c) => Some(c),
                None => old(self).previous(),
            },
            final(self).usage() == usage_after(old(self).usage(), old(self).previous(), *stat),
            forall|i: int|
                0 <= i < old(self).cores() ==> #[trigger] final(self).frequency(i) == old(
                    self,
                ).frequency(i),
            match r {
                Ok(_) => stat_error(*stat) is None,
                Err(e) => stat_error(*stat) matches Some(m) && e.is_system(m),
            },
    {
        match read_stat(stat) {
            Ok(Some(stats)) => {
                if let Some(prev_stats) = &self.prev_stats {
                    let usage = Self::calculate_cpu_usage(prev_stats, &stats);
                    self.usage_percent.update(usage);
                }
                self.prev_stats = Some(stats);
                Ok(())
            },
            Ok(None) => Ok(()),
            Err(e) => Err(e),
        }
    }

    /// Takes in the reads of the cores' frequency files, by core: each
    /// core whose file gave a number has it pushed, and the first failure
    /// is returned after every core was looked at.
    fn update_cpu_frequencies(&mut self, core_freqs: &Vec<SourceRead>) -> (r: Result<
        (),
        AppError,
    >)
        requires
            old(self).wf(),
        ensures
            final(self).wf(),
            final(self).cores() == old(self).cores(),
            final(self).previous() == old(self).previous(),
            final(self).usage() == old(self).usage(),
            forall|i: int|
                0 <= i < old(self).cores() ==> #[trigger] final(self).frequency(i)
                    == frequency_after(old(self).frequency(i), read_at(core_freqs@, i)),
            match r {
                Ok(_) => first_frequency_error(core_freqs@, old(self).cores(), 0) is None,
                Err(e) => first_frequency_error(core_freqs@, old(self).cores(), 0) matches Some(
                    m,
                ) && e.is_system(m),
            },
    {
        let ghost before = *self;
        let mut first: Option<AppError> = None;
        let mut i: usize = 0;
        while i < self.cpu_count
            invariant
                before.wf(),
                self.wf(),
                i <= self.cpu_count,
                self.cpu_count == before.cpu_count,
                self.prev_stats == before.prev_stats,
                self.usage_percent@ == before.usage_percent@,
                forall|j: int|
                    0 <= j < i ==> (#[trigger] self.frequencies@[j])@ == frequency_after(
                        before.frequencies@[j]@,
                        read_at(core_freqs@, j),
                    ),
                forall|j: int|
                    i <= j < self.cpu_count ==> (#[trigger] self.frequencies@[j])@
                        == before.frequencies@[j]@,
                match first {
                    Some(e) => first_frequency_error(core_freqs@, before.cores(), 0) matches Some(
                        m,
                    ) && e.is_system(m),
                    None => first_frequency_error(core_freqs@, before.cores(), 0)
                        == first_frequency_error(core_freqs@, before.cores(), i as int),
                },
            decreases self.cpu_count - i,
        {
            let read = if i < core_freqs.len() {
                let freq_path = frequency_path(i);
                read_frequency(freq_path.as_str(), &core_freqs[i])
            } else {
                Ok(None)
            };
            match read {
                Ok(Some(freq)) => {
                    self.frequencies[i].update(freq);
                },
                Ok(None) => {},
                Err(e) => {
                    if first.is_none() {
                        first = Some(e);
                    }
                },
            }
            i += 1;
        }
        match first {
            Some(e) => Err(e),
            None => Ok(()),
        }
    }

    /// Takes in one tick: the read of the counter file and the reads of
    /// the cores' frequency files, by core. A read that fails leaves its
    /// stream as it was and stops no other; the first failure is
    /// returned.
    pub fn update(&mut self, stat: &SourceRead, core_freqs: &Vec<SourceRead>) -> (r: Result<
        (),
        AppError,
    >)
        requires
            old(self).wf(),
        ensures
            old(self).stepped(*final(self), *stat, core_freqs@),
            match r {
                Ok(_) => old(self).step_error(*stat, core_freqs@) is None,
                Err(e) => old(self).step_error(*stat, core_freqs@) matches Some(m) && e.is_system(
                    m,
                ),
            },
    {
        let usage = self.update_cpu_usage(stat);
        let frequencies = self.update_cpu_frequencies(core_freqs);
        match usage {
            Ok(_) => frequencies,
            Err(e) => Err(e),
        }
    }

    /// The latest usage, in percent.
    pub fn usage_percent(&self) -> (r: Ratio)
        requires
            self.wf(),
        ensures
            r == self.usage().last(),
    {
        *self.usage_percent.current()
    }

    /// The usage stream, oldest sample first.
    pub fn usage_history(&self) -> (r: &VecDeque<Ratio>)
        ensures
            r@ == self.usage(),
    {
        self.usage_percent.history()
    }

    /// The latest frequency of core `core` in MHz, if there is such a
    /// core.
    pub fn frequency_mhz(&self, core: usize) -> (r: Option<u64>)
        requires
            self.wf(),
        ensures
            r == if core < self.cores() {
                Some(self.frequency(core as int).last() / 1000)
            } else {
                None
            },
    {
        if core < self.frequencies.len() {
            Some(*self.frequencies[core].current() / 1000)
        } else {
            None
        }
    }

    /// The latest frequency of every core in MHz, by core.
    pub fn all_frequencies_mhz(&self) -> (r: Vec<u64>)
        requires
            self.wf(),
        ensures
            r@.len() == self.cores(),
            forall|i: int|
                0 <= i < self.cores() ==> #[trigger] r@[i] == self.frequency(i).last() / 1000,
    {
        let mut out: Vec<u64> = Vec::new();
        let mut i: usize = 0;
        while i < self.frequencies.len()
            invariant
                self.wf(),
                i <= self.frequencies@.len(),
                out@.len() == i,
                forall|j: int|
                    0 <= j < i ==> #[trigger] out@[j] == self.frequencies@[j]@.last() / 1000,
            decreases self.frequencies@.len() - i,
        {
            out.push(*self.frequencies[i].current() / 1000);
            i += 1;
        }
        out
    }

    /// The number of cores.
    pub fn cpu_count(&self) -> (r: usize)
        ensures
            r == self.cores(),
    {
        self.cpu_count
    }
}

/// The least of the frequencies `v` up to, not including, index `n`.
pub open spec fn least(v: Seq<u64>, n: int) -> u64
    decreases n,
{
    if n <= 1 {
        v[0]
    } else if v[n - 1] < least(v, n - 1) {
        v[n - 1]
    } else {
        least(v, n - 1)
    }
}

/// The greatest of the frequencies `v` up to, not including, index `n`.
pub open spec fn greatest(v: Seq<u64>, n: int) -> u64
    decreases n,
{
    if n <= 1 {
        v[0]
    } else if v[n - 1] > greatest(v, n - 1) {
        v[n - 1]
    } else {
        greatest(v, n - 1)
    }
}

/// The frequencies of the cores in one line: nothing to tell without a
/// core, the one frequency of one core or of cores that all run alike,
/// and else the range from the slowest to the fastest.
pub open spec fn frequency_line(v: Seq<u64>) -> Seq<char> {
    if v.len() == 0 {
        "Frequency: N/A"@
    } else if v.len() == 1 {
        "Frequency: "@ + decimal_digits(v[0] as nat) + " MHz"@
    } else if least(v, v.len() as int) == greatest(v, v.len() as int) {
        "Frequency: "@ + decimal_digits(v[0] as nat) + " MHz (all cores)"@
    } else {
        "Frequency: "@ + decimal_digits(least(v, v.len() as int) as nat) + "-"@ + decimal_digits(
            greatest(v, v.len() as int) as nat,
        ) + " MHz"@
    }
}

/// The least and the greatest are among the frequencies and bound them
/// all.
pub proof fn lemma_least_and_greatest(v: Seq<u64>, n: int)
    requires
        1 <= n <= v.len(),
    ensures
        forall|i: int| 0 <= i < n ==> least(v, n) <= #[trigger] v[i] <= greatest(v, n),
        exists|i: int| 0 <= i < n && v[i] == least(v, n),
        exists|i: int| 0 <= i < n && v[i] == greatest(v, n),
    decreases n,
{
    if n > 1 {
        lemma_least_and_greatest(v, n - 1);
        let a = choose|i: int| 0 <= i < n - 1 && v[i] == least(v, n - 1);
        let b = choose|i: int| 0 <= i < n - 1 && v[i] == greatest(v, n - 1);
        if v[n - 1] < least(v, n - 1) {
            assert(v[n - 1] == least(v, n));
        } else {
            assert(v[a] == least(v, n));
        }
        if v[n - 1] > greatest(v, n - 1) {
            assert(v[n - 1] == greatest(v, n));
        } else {
            assert(v[b] == greatest(v, n));
        }
    } else {
        assert(v[0] == least(v, n));
        assert(v[0] == greatest(v, n));
    }
}

/// Writes the frequencies of the cores, in MHz, in one line.
pub fn frequency_summary(frequencies: &Vec<u64>) -> (r: String)
    ensures
        r@ == frequency_line(frequencies@),
{
    if frequencies.len() == 0 {
        return String::from_str("Frequency: N/A");
    }
    let mut min: u64 = frequencies[0];
    let mut max: u64 = frequencies[0];
    let mut i: usize = 1;
    while i < frequencies.len()
        invariant
            1 <= i <= frequencies@.len(),
            min == least(frequencies@, i as int),
            max == greatest(frequencies@, i as int),
        decreases frequencies@.len() - i,
    {
        if frequencies[i] < min {
            min = frequencies[i];
        }
        if frequencies[i] > max {
            max = frequencies[i];
        }
        i += 1;
    }
    let mut out = String::from_str("Frequency: ");
    if frequencies.len() == 1 {
        push_decimal(&mut out, frequencies[0]);
        out.append(" MHz");
    } else if min == max {
        push_decimal(&mut out, frequencies[0]);
        out.append(" MHz (all cores)");
    } else {
        push_decimal(&mut out, min);
        out.append("-");
        push_decimal(&mut out, max);
        out.append(" MHz");
    }
    out
}

} // verus!
