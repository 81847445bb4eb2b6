//! Unsigned decimal numbers in text.

use vstd::prelude::*;

verus! {

/// Whether `c` is one of the ten decimal digits.
pub open spec fn is_digit(c: char) -> bool {
    '0' <= c <= '9'
}

/// The number a decimal digit stands for.
pub open spec fn digit_value(c: char) -> nat {
    if is_digit(c) {
        (c as u32 - '0' as u32) as nat
    } else {
        0
    }
}

/// Whether `d` holds decimal digits only.
pub open spec fn all_digits(d: Seq<char>) -> bool {
    forall|i: int| 0 <= i < d.len() ==> is_digit(#[trigger] d[i])
}

/// The number that the digits `d` write in base ten.
pub open spec fn decimal_value(d: Seq<char>) -> nat
    decreases d.len(),
{
    if d.len() == 0 {
        0
    } else {
        decimal_value(d.drop_last()) * 10 + digit_value(d.last())
    }
}

/// The digits of `s` once one leading plus sign is taken off.
pub open spec fn unsigned_part(s: Seq<char>) -> Seq<char> {
    if s.len() > 0 && s[0] == '+' {
        s.drop_first()
    } else {
        s
    }
}

/// The number that `s` writes, where `s` is an optional plus sign and then
/// one or more decimal digits whose value fits in 64 bits. Anything else,
/// white space included, is no number.
pub open spec fn parse_u64(s: Seq<char>) -> Option<u64> {
    let d = unsigned_part(s);
    if d.len() > 0 && all_digits(d) && decimal_value(d) <= u64::MAX {
        Some(decimal_value(d) as u64)
    } else {
        None
    }
}

/// The number that `s` writes, or zero where it writes none.
pub open spec fn number_or_zero(s: Seq<char>) -> u64 {
    match parse_u64(s) {
        Some(v) => v,
        None => 0,
    }
}

/// A number written with more digits is no smaller than the number its
/// first digits write.
pub proof fn lemma_decimal_value_prefix(d: Seq<char>, k: int)
    requires
        0 <= k <= d.len(),
    ensures
        decimal_value(d.subrange(0, k)) <= decimal_value(d),
    decreases d.len() - k,
{
    if k == d.len() {
        assert(d.subrange(0, k) =~= d);
    } else {
        lemma_decimal_value_prefix(d, k + 1);
        assert(d.subrange(0, k + 1).drop_last() =~= d.subrange(0, k));
    }
}

/// Why a text is no number.
#[derive(Debug, Clone, Copy, PartialEq, Eq, Structural)]
pub enum NumberFault {
    /// The text is empty.
    Empty,
    /// The text holds something that is no digit, or a sign alone.
    InvalidDigit,
    /// The digits write a number that does not fit in 64 bits.
    TooLarge,
}

/// What is wrong with the digits `d` from index `i` on, read left to
/// right with `acc` the value of the digits before: the first character
/// that is no digit, or the first digit with which the value no longer
/// fits, whichever comes first.
pub open spec fn fault_from(d: Seq<char>, i: int, acc: nat) -> Option<NumberFault>
    decreases d.len() - i,
{
    if i < 0 || i >= d.len() {
        None
    } else if !is_digit(d[i]) {
        Some(NumberFault::InvalidDigit)
    } else if acc * 10 + digit_value(d[i]) > u64::MAX {
        Some(NumberFault::TooLarge)
    } else {
        fault_from(d, i + 1, acc * 10 + digit_value(d[i]))
    }
}

/// Why `s` is no number, if it is none.
pub open spec fn number_fault(s: Seq<char>) -> Option<NumberFault> {
    if s.len() == 0 {
        Some(NumberFault::Empty)
    } else if s.len() == 1 && (s[0] == '+' || s[0] == '-') {
        Some(NumberFault::InvalidDigit)
    } else {
        fault_from(unsigned_part(s), 0, 0)
    }
}

/// Read from the left, digits whose value fits so far have nothing wrong
/// with them from there on just where all of them are digits and their
/// value fits.
pub proof fn lemma_fault_from(d: Seq<char>, i: int, acc: nat)
    requires
        0 <= i <= d.len(),
        all_digits(d.subrange(0, i)),
        acc == decimal_value(d.subrange(0, i)),
        acc <= u64::MAX,
    ensures
        fault_from(d, i, acc) is None <==> all_digits(d) && decimal_value(d) <= u64::MAX,
    decreases d.len() - i,
{
    if i == d.len() {
        assert(d.subrange(0, i) =~= d);
    } else {
        assert(d.subrange(0, i + 1).drop_last() =~= d.subrange(0, i));
        assert(d.subrange(0, i + 1).last() == d[i]);
        lemma_decimal_value_prefix(d, i + 1);
        if is_digit(d[i]) && acc * 10 + digit_value(d[i]) <= u64::MAX {
            assert forall|k: int| 0 <= k < i + 1 implies is_digit(
                #[trigger] d.subrange(0, i + 1)[k],
            ) by {
                if k < i {
                    assert(d.subrange(0, i)[k] == d[k]);
                }
            }
            lemma_fault_from(d, i + 1, acc * 10 + digit_value(d[i]));
        }
    }
}

/// A text is a number just where nothing is wrong with it.
pub proof fn lemma_number_or_fault(s: Seq<char>)
    ensures
        number_fault(s) is None <==> parse_u64(s) is Some,
{
    let d = unsigned_part(s);
    if s.len() == 0 {
    } else if s.len() == 1 && (s[0] == '+' || s[0] == '-') {
        if s[0] == '-' {
            assert(!is_digit(d[0]));
        }
    } else {
        assert(d.subrange(0, 0) =~= Seq::<char>::empty());
        lemma_fault_from(d, 0, 0);
    }
}

/// What is said of a text that is no number.
pub open spec fn fault_message(fault: NumberFault) -> Seq<char> {
    match fault {
        NumberFault::Empty => "cannot parse integer from empty string"@,
        NumberFault::InvalidDigit => "invalid digit found in string"@,
        NumberFault::TooLarge => "number too large to fit in target type"@,
    }
}

/// What is said of a text that is no number.
pub fn fault_text(fault: NumberFault) -> (r: &'static str)
    ensures
        r@ == fault_message(fault),
{
    match fault {
        NumberFault::Empty => "cannot parse integer from empty string",
        NumberFault::InvalidDigit => "invalid digit found in string",
        NumberFault::TooLarge => "number too large to fit in target type",
    }
}

/// Reads the number that `s` writes, or tells why it writes none. A text
/// is a number just where nothing is wrong with it.
pub fn read_number(s: &Vec<char>) -> (r: Result<u64, NumberFault>)
    ensures
        match r {
            Ok(v) => parse_u64(s@) == Some(v) && number_fault(s@) is None,
            Err(fault) => parse_u64(s@) is None && number_fault(s@) == Some(fault),
        },
{
    let n: usize = s.len();
    if n == 0 {
        return Err(NumberFault::Empty);
    }
    if n == 1 && (s[0] == '+' || s[0] == '-') {
        assert(!is_digit(s@[0]));
        assert(unsigned_part(s@).len() == 0 || !is_digit(unsigned_part(s@)[0]));
        return Err(NumberFault::InvalidDigit);
    }
    let start: usize = if s[0] == '+' {
        1
    } else {
        0
    };
    let ghost d = unsigned_part(s@);
    assert(d =~= s@.subrange(start as int, n as int));
    let mut acc: u64 = 0;
    let mut i: usize = start;
    while i < n
        invariant
            start <= i <= n,
            start < n,
            n == s@.len(),
            d == s@.subrange(start as int, n as int),
            d == unsigned_part(s@),
            all_digits(d.subrange(0, i - start)),
            acc == decimal_value(d.subrange(0, i - start)),
            fault_from(d, 0, 0) == fault_from(d, i - start, acc as nat),
        decreases n - i,
    {
        let c: char = s[i];
        assert(d[i - start] == c);
        if !(c >= '0' && c <= '9') {
            return Err(NumberFault::InvalidDigit);
        }
        let v: u64 = (c as u32 - '0' as u32) as u64;
        proof {
            assert(d.subrange(0, i - start + 1).drop_last() =~= d.subrange(0, i - start));
            assert(decimal_value(d.subrange(0, i - start + 1)) == acc * 10 + v);
            lemma_decimal_value_prefix(d, i - start + 1);
        }
        if acc > (u64::MAX - v) / 10 {
            assert(decimal_value(d) > u64::MAX);
            return Err(NumberFault::TooLarge);
        }
        acc = acc * 10 + v;
        i += 1;
    }
    assert(d.subrange(0, n - start) =~= d);
    Ok(acc)
}

/// Reads the number that `s` writes.
pub fn read_u64(s: &Vec<char>) -> (r: Option<u64>)
    ensures
        r == parse_u64(s@),
{
    match read_number(s) {
        Ok(v) => Some(v),
        Err(_) => None,
    }
}

/// Reads the number that `s` writes, or zero where it writes none.
pub fn read_or_zero(s: &Vec<char>) -> (r: u64)
    ensures
        r == number_or_zero(s@),
{
    match read_u64(s) {
        Some(v) => v,
        None => 0,
    }
}

/// The decimal digit that writes `v`.
pub open spec fn digit_char(v: nat) -> char {
    if v == 0 {
        '0'
    } else if v == 1 {
        '1'
    } else if v == 2 {
        '2'
    } else if v == 3 {
        '3'
    } else if v == 4 {
        '4'
    } else if v == 5 {
        '5'
    } else if v == 6 {
        '6'
    } else if v == 7 {
        '7'
    } else if v == 8 {
        '8'
    } else {
        '9'
    }
}

/// The digits that write `n` in base ten, without leading zeros.
pub open spec fn decimal_digits(n: nat) -> Seq<char>
    decreases n,
{
    if n < 10 {
        seq![digit_char(n)]
    } else {
        decimal_digits(n / 10).push(digit_char(n % 10))
    }
}

/// The text of one decimal digit.
fn digit_text(v: u64) -> (r: &'static str)
    requires
        v < 10,
    ensures
        r@ == seq![digit_char(v as nat)],
{
    proof {
        reveal_strlit("0");
        reveal_strlit("1");
        reveal_strlit("2");
        reveal_strlit("3");
        reveal_strlit("4");
        reveal_strlit("5");
        reveal_strlit("6");
        reveal_strlit("7");
        reveal_strlit("8");
        reveal_strlit("9");
    }
    let r = if v == 0 {
        "0"
    } else if v == 1 {
        "1"
    } else if v == 2 {
        "2"
    } else if v == 3 {
        "3"
    } else if v == 4 {
        "4"
    } else if v == 5 {
        "5"
    } else if v == 6 {
        "6"
    } else if v == 7 {
        "7"
    } else if v == 8 {
        "8"
    } else {
        "9"
    };
    assert(r@ =~= seq![digit_char(v as nat)]);
    r
}

/// Appends the decimal digits of `n` to `out`.
pub fn push_decimal(out: &mut String, n: u64)
    ensures
        final(out)@ == old(out)@ + decimal_digits(n as nat),
    decreases n,
{
    if n < 10 {
        out.append(digit_text(n));
    } else {
        push_decimal(out, n / 10);
        out.append(digit_text(n % 10));
        assert(final(out)@ =~= old(out)@ + decimal_digits(n as nat)) by {
            assert(decimal_digits(n as nat) == decimal_digits((n / 10) as nat).push(
                digit_char((n % 10) as nat),
            ));
        }
    }
}

} // verus!
