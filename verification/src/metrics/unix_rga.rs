//! Image-processor load and frequency from the text of two privileged
//! reads of the kernel's debug interface.

use crate::error::AppError;
use crate::metrics::devfreq::{
    clamp, clamp_load, clamp_read, clamped, leading_number, read_leading_number,
    usage_after_load,
};
use crate::metrics::historical_metric::{pushed, HistoricalMetric, DEFAULT_HISTORY_LENGTH};
use crate::metrics::ratio::Ratio;
use crate::metrics::source::{command_failure, command_failure_text, SourceRead};
use crate::number::{parse_u64, read_u64};
use crate::text::{
    chars_of, contains, fields, has, lemma_fields_hold_only_what_the_text_holds,
    lemma_lines_hold_only_what_the_text_holds, lines, second_piece, split_fields, split_lines,
    take_second_piece, trim, trimmed, views,
};
use std::collections::VecDeque;
use vstd::prelude::*;
use vstd::string::StringExecFns;

verus! {

/// The debug file that reports the load of the scheduler cores.
pub const RGA_LOAD_PATH: &'static str = "/sys/kernel/debug/rkrga/load";

/// The debug file that lists every clock with its rate.
pub const CLK_SUMMARY_PATH: &'static str = "/sys/kernel/debug/clk/clk_summary";

/// The load that one line of a report of the scheduler cores gives: the
/// number between `load =` and the percent sign after it. A line without
/// `load =`, or with no number after it, gives none.
pub open spec fn line_load(line: Seq<char>) -> Option<u64> {
    match second_piece(line, "load ="@) {
        Some(piece) => leading_number(piece),
        None => None,
    }
}

/// The load that the first of the lines `ls` from `i` on gives that gives
/// one.
pub open spec fn first_line_load(ls: Seq<Seq<char>>, i: int) -> Option<u64>
    decreases ls.len() - i,
{
    if i < 0 || i >= ls.len() {
        None
    } else {
        match line_load(ls[i]) {
            Some(v) => Some(v),
            None => first_line_load(ls, i + 1),
        }
    }
}

/// The load in a report of the scheduler cores: that of the first line
/// that gives one. Text of which no line gives one is read as a number
/// alone, and holds no load where it is none. A load above 100 counts as
/// 100.
pub open spec fn rga_load(text: Seq<char>) -> Option<u64> {
    let t = trim(text);
    match first_line_load(lines(t), 0) {
        Some(v) => Some(clamp_load(v)),
        None => clamped(parse_u64(t)),
    }
}

/// Whether `s` names the image processor.
pub open spec fn names_rga(s: Seq<char>) -> bool {
    contains(s, "rga"@) || contains(s, "RGA"@)
}

/// The first field from `i` on that names the image processor.
pub open spec fn first_rga_field(fs: Seq<Seq<char>>, i: int) -> Option<int>
    decreases fs.len() - i,
{
    if i < 0 || i >= fs.len() {
        None
    } else if names_rga(fs[i]) {
        Some(i)
    } else {
        first_rga_field(fs, i + 1)
    }
}

/// The number in the first field from `i` on that is a number.
pub open spec fn first_number(fs: Seq<Seq<char>>, i: int) -> Option<u64>
    decreases fs.len() - i,
{
    if i < 0 || i >= fs.len() {
        None
    } else {
        match parse_u64(fs[i]) {
            Some(v) => Some(v),
            None => first_number(fs, i + 1),
        }
    }
}

/// A clock rate in MHz: a rate above a million is taken as Hz, any other
/// as MHz already.
pub open spec fn rate_to_mhz(rate: u64) -> u64 {
    if rate > 1_000_000 {
        rate / 1_000_000
    } else {
        rate
    }
}

/// The frequency that one line of the clock list gives: that of the
/// first number after the first field that names the image processor.
pub open spec fn line_frequency(line: Seq<char>) -> Option<u64> {
    let fs = fields(line);
    match first_rga_field(fs, 0) {
        Some(k) => match first_number(fs, k + 1) {
            Some(rate) => Some(rate_to_mhz(rate)),
            None => None,
        },
        None => None,
    }
}

/// The frequency that the first of the lines `ls` from `i` on gives that
/// gives one.
pub open spec fn first_line_frequency(ls: Seq<Seq<char>>, i: int) -> Option<u64>
    decreases ls.len() - i,
{
    if i < 0 || i >= ls.len() {
        None
    } else {
        match line_frequency(ls[i]) {
            Some(f) => Some(f),
            None => first_line_frequency(ls, i + 1),
        }
    }
}

/// The frequency of the image processor in MHz that the clock list
/// `text` gives, if it gives one.
pub open spec fn rga_frequency(text: Seq<char>) -> Option<u64> {
    first_line_frequency(lines(text), 0)
}

/// Among fields of which none names the image processor, none is found
/// that does.
pub proof fn lemma_no_rga_field(fs: Seq<Seq<char>>, i: int)
    requires
        0 <= i,
        forall|k: int| 0 <= k < fs.len() ==> !names_rga(#[trigger] fs[k]),
    ensures
        first_rga_field(fs, i) is None,
    decreases fs.len() - i,
{
    if i < fs.len() {
        lemma_no_rga_field(fs, i + 1);
    }
}

/// Lines of which none gives a frequency give none together.
pub proof fn lemma_no_line_frequency(ls: Seq<Seq<char>>, i: int)
    requires
        0 <= i,
        forall|k: int| 0 <= k < ls.len() ==> line_frequency(#[trigger] ls[k]) is None,
    ensures
        first_line_frequency(ls, i) is None,
    decreases ls.len() - i,
{
    if i < ls.len() {
        lemma_no_line_frequency(ls, i + 1);
    }
}

/// A clock list that names the image processor nowhere gives no
/// frequency: none at all, and not a frequency of zero.
pub proof fn lemma_no_keyword_no_frequency(text: Seq<char>)
    requires
        !names_rga(text),
    ensures
        rga_frequency(text) is None,
{
    let ls = lines(text);
    lemma_lines_hold_only_what_the_text_holds(text, 0, "rga"@);
    lemma_lines_hold_only_what_the_text_holds(text, 0, "RGA"@);
    assert forall|k: int| 0 <= k < ls.len() implies line_frequency(#[trigger] ls[k]) is None by {
        let line = ls[k];
        lemma_fields_hold_only_what_the_text_holds(line, 0, "rga"@);
        lemma_fields_hold_only_what_the_text_holds(line, 0, "RGA"@);
        lemma_no_rga_field(fields(line), 0);
    }
    lemma_no_line_frequency(ls, 0);
}

/// The message of the first error of one update: a read that could not
/// be run, the load before the clock list.
pub open spec fn rga_update_error(load: SourceRead, clocks: SourceRead) -> Option<Seq<char>> {
    match load {
        SourceRead::Failed(m) => Some(command_failure(RGA_LOAD_PATH@, m@)),
        _ => match clocks {
            SourceRead::Failed(m) => Some(command_failure(CLK_SUMMARY_PATH@, m@)),
            _ => None,
        },
    }
}

/// A frequency stream after one read of the clock list.
pub open spec fn frequency_after_clocks(stream: Seq<u64>, clocks: SourceRead) -> Seq<u64> {
    match clocks {
        SourceRead::Content(t) => match rga_frequency(t@) {
            Some(f) => pushed(stream, DEFAULT_HISTORY_LENGTH as nat, f),
            None => stream,
        },
        _ => stream,
    }
}

/// Reads the load in a report of the scheduler cores, if it holds one.
pub fn parse_rga_load(text: &str) -> (r: Option<u64>)
    ensures
        r == rga_load(text@),
        r matches Some(x) ==> x <= 100,
{
    let t = trimmed(&chars_of(text));
    let ls = split_lines(&t);
    let mark = chars_of("load =");
    let mut i: usize = 0;
    while i < ls.len()
        invariant
            i <= ls@.len(),
            mark@ == "load ="@,
            t@ == trim(text@),
            views(ls@) == lines(t@),
            first_line_load(views(ls@), 0) == first_line_load(views(ls@), i as int),
        decreases ls@.len() - i,
    {
        assert(views(ls@)[i as int] == ls@[i as int]@);
        match take_second_piece(&ls[i], &mark) {
            Some(piece) => match read_leading_number(&piece) {
                Some(v) => {
                    return Some(clamp(v));
                },
                None => {},
            },
            None => {},
        }
        i += 1;
    }
    clamp_read(read_u64(&t))
}

/// Tells whether `s` names the image processor.
fn is_rga_name(s: &Vec<char>) -> (b: bool)
    ensures
        b == names_rga(s@),
{
    has(s, &chars_of("rga")) || has(s, &chars_of("RGA"))
}

/// Reads the frequency that one line of the clock list gives.
fn frequency_of_line(line: &Vec<char>) -> (r: Option<u64>)
    ensures
        r == line_frequency(line@),
{
    let fs = split_fields(line);
    let mut i: usize = 0;
    while i < fs.len()
        invariant
            i <= fs@.len(),
            views(fs@) == fields(line@),
            first_rga_field(views(fs@), 0) == first_rga_field(views(fs@), i as int),
        decreases fs@.len() - i,
    {
        assert(views(fs@)[i as int] == fs@[i as int]@);
        if is_rga_name(&fs[i]) {
            let mut j: usize = i + 1;
            while j < fs.len()
                invariant
                    i < j <= fs@.len(),
                    views(fs@) == fields(line@),
                    first_rga_field(views(fs@), 0) == Some(i as int),
                    first_number(views(fs@), i + 1) == first_number(views(fs@), j as int),
                decreases fs@.len() - j,
            {
                assert(views(fs@)[j as int] == fs@[j as int]@);
                match read_u64(&fs[j]) {
                    Some(rate) => {
                        if rate > 1_000_000 {
                            return Some(rate / 1_000_000);
                        } else {
                            return Some(rate);
                        }
                    },
                    None => {},
                }
                j += 1;
            }
            return None;
        }
        i += 1;
    }
    None
}

/// Image-processor load and frequency.
pub struct UnixRgaMetrics {
    usage_percent: HistoricalMetric<Ratio>,
    frequency_mhz: HistoricalMetric<u64>,
}

impl UnixRgaMetrics {
    /// The usage stream in percent, oldest sample first.
    pub closed spec fn usage(&self) -> Seq<Ratio> {
        self.usage_percent@
    }

    /// The frequency stream in MHz, oldest sample first.
    pub closed spec fn frequency(&self) -> Seq<u64> {
        self.frequency_mhz@
    }

    /// Both streams are well formed and of the default capacity.
    pub closed spec fn wf(&self) -> bool {
        &&& self.usage_percent.wf()
        &&& self.usage_percent.capacity() == DEFAULT_HISTORY_LENGTH
        &&& self.frequency_mhz.wf()
        &&& self.frequency_mhz.capacity() == DEFAULT_HISTORY_LENGTH
    }

    /// Whether this collector is as it was made: both streams start at
    /// zero.
    pub open spec fn fresh(self) -> bool {
        &&& self.wf()
        &&& self.usage() == seq![Ratio { num: 0, den: 1 }]
        &&& self.frequency() == seq![0u64]
    }

    /// Whether `next` is this collector after one tick with what the
    /// read of the load report and the read of the clock list gave: a
    /// load that the report holds is pushed in percent, and so is a
    /// frequency that the clock list gives, in MHz. A report that holds
    /// no load leaves the usage stream as it was.
    pub open spec fn stepped(self, next: Self, load: SourceRead, clocks: SourceRead) -> bool {
        &&& next.wf()
        &&& next.usage() == usage_after_load(
            self.usage(),
            match load.text() {
                Some(t) => rga_load(t),
                None => None,
            },
        )
        &&& next.frequency() == frequency_after_clocks(self.frequency(), clocks)
    }

    /// A collector whose two streams start at zero.
    pub fn new() -> (r: Self)
        ensures
            r.fresh(),
    {
        UnixRgaMetrics {
            usage_percent: HistoricalMetric::new(Ratio::zero()),
            frequency_mhz: HistoricalMetric::new(0),
        }
    }

    /// Reads the frequency of the image processor, in MHz, that the clock
    /// list `clk_content` gives.
    pub fn extract_rga_frequency(clk_content: &str) -> (r: Option<u64>)
        ensures
            r == rga_frequency(clk_content@),
    {
        let ls = split_lines(&chars_of(clk_content));
        let mut i: usize = 0;
        while i < ls.len()
            invariant
                i <= ls@.len(),
                views(ls@) == lines(clk_content@),
                first_line_frequency(views(ls@), 0) == first_line_frequency(views(ls@), i as int),
            decreases ls@.len() - i,
        {
            assert(views(ls@)[i as int] == ls@[i as int]@);
            match frequency_of_line(&ls[i]) {
                Some(f) => {
                    return Some(f);
                },
                None => {},
            }
            i += 1;
        }
        None
    }

    /// Takes in what the privileged read of the load report gave: a load
    /// that the report holds is pushed in percent, and a report that
    /// holds none is passed over without an error.
    fn update_rga_load(&mut self, load: &SourceRead) -> (r: Result<(), AppError>)
        requires
            old(self).wf(),
        ensures
            final(self).wf(),
            final(self).frequency() == old(self).frequency(),
            final(self).usage() == usage_after_load(
                old(self).usage(),
                match load.text() {
                    Some(t) => rga_load(t),
                    None => None,
                },
            ),
            match r {
                Ok(_) => load.failure() is None,
                Err(e) => load.failure() matches Some(m) && e.is_system(
                    command_failure(RGA_LOAD_PATH@, m),
                ),
            },
    {
        match load {
            SourceRead::Absent => Ok(()),
            SourceRead::Failed(m) => Err(
                AppError::System(command_failure_text(RGA_LOAD_PATH, m.as_str())),
            ),
            SourceRead::Content(t) => {
                if let Some(load) = parse_rga_load(t.as_str()) {
                    self.usage_percent.update(Ratio::whole(load));
                }
                Ok(())
            },
        }
    }

    /// Takes in what the privileged read of the clock list gave: a
    /// frequency that the list gives is pushed in MHz.
    fn update_rga_frequency(&mut self, clocks: &SourceRead) -> (r: Result<(), AppError>)
        requires
            old(self).wf(),
        ensures
            final(self).wf(),
            final(self).usage() == old(self).usage(),
            final(self).frequency() == frequency_after_clocks(old(self).frequency(), *clocks),
            match r {
                Ok(_) => clocks.failure() is None,
                Err(e) => clocks.failure() matches Some(m) && e.is_system(
                    command_failure(CLK_SUMMARY_PATH@, m),
                ),
            },
    {
        match clocks {
            SourceRead::Absent => Ok(()),
            SourceRead::Failed(m) => Err(
                AppError::System(command_failure_text(CLK_SUMMARY_PATH, m.as_str())),
            ),
            SourceRead::Content(t) => {
                if let Some(freq) = Self::extract_rga_frequency(t.as_str()) {
                    self.frequency_mhz.update(freq);
                }
                Ok(())
            },
        }
    }

    /// Takes in one tick: what the privileged read of the load report
    /// gave and what that of the clock list gave. A read that gave no
    /// text leaves its stream as it was, and so do a report that holds
    /// no load and a clock list without a rate for the image processor.
    /// A read that could not be run is returned as an error, the first
    /// of them, after both were taken in.
    pub fn update(&mut self, load: &SourceRead, clocks: &SourceRead) -> (r: Result<(), AppError>)
        requires
            old(self).wf(),
        ensures
            old(self).stepped(*final(self), *load, *clocks),
            match r {
                Ok(_) => rga_update_error(*load, *clocks) is None,
                Err(e) => rga_update_error(*load, *clocks) matches Some(m) && e.is_system(m),
            },
    {
        let load_outcome = self.update_rga_load(load);
        let frequency_outcome = self.update_rga_frequency(clocks);
        match load_outcome {
            Ok(_) => frequency_outcome,
            Err(e) => Err(e),
        }
    }

    /// The latest usage, in percent.
    pub fn usage_percent(&self) -> (r: Ratio)
        requires
            self.wf(),
        ensures
            r == self.usage().last(),
    {
        *self.usage_percent.current()
    }

    /// The latest frequency, in MHz.
    pub fn frequency_mhz(&self) -> (r: u64)
        requires
            self.wf(),
        ensures
            r == self.frequency().last(),
    {
        *self.frequency_mhz.current()
    }

    /// The usage stream, oldest sample first.
    pub fn usage_history(&self) -> (r: &VecDeque<Ratio>)
        ensures
            r@ == self.usage(),
    {
        self.usage_percent.history()
    }

    /// The frequency stream, oldest sample first.
    pub fn frequency_history(&self) -> (r: &VecDeque<u64>)
        ensures
            r@ == self.frequency(),
    {
        self.frequency_mhz.history()
    }
}

/// A load report whose text holds no load leaves the usage stream as it
/// was, and is no error.
pub proof fn lemma_odd_load_keeps_usage(
    a: UnixRgaMetrics,
    b: UnixRgaMetrics,
    load: SourceRead,
    clocks: SourceRead,
)
    requires
        a.stepped(b, load, clocks),
        load.text() matches Some(t) && rga_load(t) is None,
    ensures
        b.usage() == a.usage(),
        rga_update_error(load, clocks) == match clocks.failure() {
            Some(m) => Some(command_failure(CLK_SUMMARY_PATH@, m)),
            None => None,
        },
{
}

/// A load that a report holds is a percentage: it is at most 100.
pub proof fn lemma_rga_load_is_percentage(text: Seq<char>)
    ensures
        rga_load(text) matches Some(v) ==> v <= 100,
{
}

} // verus!
