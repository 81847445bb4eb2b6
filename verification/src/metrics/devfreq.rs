//! What the graphics and the neural-accelerator collectors share: the
//! files under a device directory and the formats of a load file.

use crate::metrics::historical_metric::{pushed, DEFAULT_HISTORY_LENGTH};
use crate::metrics::ratio::Ratio;
use crate::metrics::source::{frequency_error, frequency_sample, read_failure, SourceRead};
use crate::number::{parse_u64, read_u64};
use crate::text::{
    before, chars_of, contains, has, second_piece, take_before, take_second_piece, trim, trimmed,
};
use vstd::prelude::*;
use vstd::string::StringExecFns;

verus! {

/// A load above 100 counts as 100.
pub open spec fn clamp_load(v: u64) -> u64 {
    if v > 100 {
        100
    } else {
        v
    }
}

/// A load that was read, if one was, with 100 for any above it.
pub open spec fn clamped(v: Option<u64>) -> Option<u64> {
    match v {
        Some(x) => Some(clamp_load(x)),
        None => None,
    }
}

/// The load that a load file of the graphics kind holds: a number alone,
/// or a number, an `@` and the frequency. Text in neither form holds no
/// load.
pub open spec fn graphics_load(text: Seq<char>) -> Option<u64> {
    clamped(parse_u64(before(trim(text), seq!['@'])))
}

/// The number that stands before the first percent sign of `piece`, or
/// in all of `piece` where it holds none, white space around it aside.
pub open spec fn leading_number(piece: Seq<char>) -> Option<u64> {
    parse_u64(trim(before(piece, seq!['%'])))
}

/// The load of the first core in a report of the form
/// `NPU load: Core0: 12%, Core1: 0%,`: the number between the first
/// `Core0:` and the percent sign after it. A report without `Core0:`, or
/// with no number after it, holds no load.
pub open spec fn first_core_load(report: Seq<char>) -> Option<u64> {
    match second_piece(report, "Core0:"@) {
        Some(piece) => clamped(leading_number(piece)),
        None => None,
    }
}

/// The load that a load file of the neural accelerator holds: a per-core
/// report, or else one of the forms of a graphics load file. Text in none
/// of these forms holds no load.
pub open spec fn neural_load(text: Seq<char>) -> Option<u64> {
    if contains(trim(text), "NPU load:"@) {
        first_core_load(trim(text))
    } else {
        graphics_load(text)
    }
}

/// A frequency in Hz, in whole MHz.
pub open spec fn hz_to_mhz(hz: u64) -> u64 {
    hz / 1_000_000
}

/// The load file under the device directory `dir`.
pub open spec fn load_file(dir: Seq<char>) -> Seq<char> {
    dir + "/load"@
}

/// The file under the device directory `dir` that holds the current
/// frequency in Hz.
pub open spec fn frequency_file(dir: Seq<char>) -> Seq<char> {
    dir + "/cur_freq"@
}

/// The message of the first error of one update of a device under `dir`:
/// that of the load file, which only a failed read gives, else that of
/// the frequency file.
pub open spec fn device_update_error(dir: Seq<char>, load: SourceRead, freq: SourceRead) -> Option<
    Seq<char>,
> {
    match load {
        SourceRead::Failed(m) => Some(read_failure(load_file(dir), m@)),
        _ => frequency_error(frequency_file(dir), freq),
    }
}

/// A load that was read is a percentage: it is at most 100.
pub proof fn lemma_loads_are_percentages(text: Seq<char>)
    ensures
        graphics_load(text) matches Some(v) ==> v <= 100,
        neural_load(text) matches Some(v) ==> v <= 100,
{
}

/// A usage stream after one read of a load file: the load that the text
/// holds is pushed in percent; a read that gave no text, or text that
/// holds no load, leaves the stream as it was.
pub open spec fn usage_after_load(stream: Seq<Ratio>, value: Option<u64>) -> Seq<Ratio> {
    match value {
        Some(v) => pushed(stream, DEFAULT_HISTORY_LENGTH as nat, Ratio { num: v as u128, den: 1 }),
        None => stream,
    }
}

/// A frequency stream in MHz after one read of a frequency file in Hz.
pub open spec fn mhz_after(stream: Seq<u64>, read: SourceRead) -> Seq<u64> {
    match frequency_sample(read) {
        Some(hz) => pushed(stream, DEFAULT_HISTORY_LENGTH as nat, hz_to_mhz(hz)),
        None => stream,
    }
}

/// Builds the path of the load file under `dir`.
pub fn load_path(dir: &str) -> (r: String)
    ensures
        r@ == load_file(dir@),
{
    let mut out = String::from_str(dir);
    out.append("/load");
    out
}

/// Builds the path of the frequency file under `dir`.
pub fn frequency_path(dir: &str) -> (r: String)
    ensures
        r@ == frequency_file(dir@),
{
    let mut out = String::from_str(dir);
    out.append("/cur_freq");
    out
}

/// A load above 100 counts as 100.
pub fn clamp(v: u64) -> (r: u64)
    ensures
        r == clamp_load(v),
{
    if v > 100 {
        100
    } else {
        v
    }
}

/// The sign between load and frequency.
fn at_sign() -> (r: Vec<char>)
    ensures
        r@ == seq!['@'],
{
    let mut v: Vec<char> = Vec::new();
    v.push('@');
    assert(v@ =~= seq!['@']);
    v
}

/// The sign after a percentage.
fn percent_sign() -> (r: Vec<char>)
    ensures
        r@ == seq!['%'],
{
    let mut v: Vec<char> = Vec::new();
    v.push('%');
    assert(v@ =~= seq!['%']);
    v
}

/// A load that was read, if one was, with 100 for any above it.
pub fn clamp_read(v: Option<u64>) -> (r: Option<u64>)
    ensures
        r == clamped(v),
        r matches Some(x) ==> x <= 100,
{
    match v {
        Some(x) => Some(clamp(x)),
        None => None,
    }
}

/// The load in the characters `t`, which hold no white space at their
/// ends.
fn graphics_load_of(t: &Vec<char>) -> (r: Option<u64>)
    ensures
        r == clamped(parse_u64(before(t@, seq!['@']))),
        r matches Some(x) ==> x <= 100,
{
    let head = take_before(t, &at_sign());
    clamp_read(read_u64(&head))
}

/// Reads the load that a load file of the graphics kind holds, if it
/// holds one.
pub fn parse_graphics_load(text: &str) -> (r: Option<u64>)
    ensures
        r == graphics_load(text@),
        r matches Some(x) ==> x <= 100,
{
    let t = trimmed(&chars_of(text));
    graphics_load_of(&t)
}

/// Reads the number that stands before the first percent sign of
/// `piece`.
pub fn read_leading_number(piece: &Vec<char>) -> (r: Option<u64>)
    ensures
        r == leading_number(piece@),
{
    let head = take_before(piece, &percent_sign());
    let core = trimmed(&head);
    read_u64(&core)
}

/// Reads the load that a load file of the neural accelerator holds, if
/// it holds one.
pub fn parse_neural_load(text: &str) -> (r: Option<u64>)
    ensures
        r == neural_load(text@),
        r matches Some(x) ==> x <= 100,
{
    let t = trimmed(&chars_of(text));
    if has(&t, &chars_of("NPU load:")) {
        match take_second_piece(&t, &chars_of("Core0:")) {
            Some(piece) => clamp_read(read_leading_number(&piece)),
            None => None,
        }
    } else {
        graphics_load_of(&t)
    }
}

} // verus!
