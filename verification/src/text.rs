//! Text scanning over character sequences: white space, fields, lines and
//! substring search.
//!
//! Each operation is stated as a spec function over `Seq<char>` and done
//! by an executable function over `Vec<char>` that is proved to agree
//! with it.

use vstd::prelude::*;

verus! {

/// The characters of `s`, in order.
pub fn chars_of(s: &str) -> (r: Vec<char>)
    ensures
        r@ == s@,
{
    broadcast use vstd::string::group_string_axioms;

    let mut out: Vec<char> = Vec::new();
    for c in it: s.chars()
        invariant
            out@ == it.history(),
            it.seq() == s@,
    {
        out.push(c);
    }
    assert(out@ =~= s@);
    out
}

/// A copy of the characters of `s` from `from` up to, not including, `to`.
pub fn copy_range(s: &Vec<char>, from: usize, to: usize) -> (r: Vec<char>)
    requires
        from <= to <= s@.len(),
    ensures
        r@ == s@.subrange(from as int, to as int),
{
    let mut out: Vec<char> = Vec::new();
    let mut i: usize = from;
    while i < to
        invariant
            from <= i <= to <= s@.len(),
            out@ == s@.subrange(from as int, i as int),
        decreases to - i,
    {
        out.push(s[i]);
        assert(out@ =~= s@.subrange(from as int, i as int + 1));
        i += 1;
    }
    out
}

/// Whether `c` is white space: the code points that Unicode gives the
/// property `White_Space`.
pub open spec fn is_space(c: char) -> bool {
    let n = c as u32;
    ||| 0x09 <= n <= 0x0D
    ||| n == 0x20
    ||| n == 0x85
    ||| n == 0xA0
    ||| n == 0x1680
    ||| 0x2000 <= n <= 0x200A
    ||| n == 0x2028
    ||| n == 0x2029
    ||| n == 0x202F
    ||| n == 0x205F
    ||| n == 0x3000
}

/// Tells whether `c` is white space.
pub fn is_whitespace(c: char) -> (b: bool)
    ensures
        b == is_space(c),
{
    let n: u32 = c as u32;
    (0x09 <= n && n <= 0x0D) || n == 0x20 || n == 0x85 || n == 0xA0 || n == 0x1680 || (0x2000 <= n
        && n <= 0x200A) || n == 0x2028 || n == 0x2029 || n == 0x202F || n == 0x205F || n == 0x3000
}

/// The first index at or after `i` that holds no white space, or the length
/// of `s` where only white space follows.
pub open spec fn skip_spaces(s: Seq<char>, i: int) -> int
    decreases s.len() - i,
{
    if 0 <= i < s.len() && is_space(s[i]) {
        skip_spaces(s, i + 1)
    } else {
        i
    }
}

/// The first index at or after `i` that holds white space, or the length of
/// `s` where none follows.
pub open spec fn word_end(s: Seq<char>, i: int) -> int
    decreases s.len() - i,
{
    if 0 <= i < s.len() && !is_space(s[i]) {
        word_end(s, i + 1)
    } else {
        i
    }
}

/// The index just past the last character before `hi` that is no white
/// space, never below `lo`.
pub open spec fn trim_end_index(s: Seq<char>, lo: int, hi: int) -> int
    decreases hi - lo,
{
    if lo < hi <= s.len() && 0 <= lo && is_space(s[hi - 1]) {
        trim_end_index(s, lo, hi - 1)
    } else {
        hi
    }
}

/// `s` without the white space at its two ends.
pub open spec fn trim(s: Seq<char>) -> Seq<char> {
    let lo = skip_spaces(s, 0);
    s.subrange(lo, trim_end_index(s, lo, s.len() as int))
}

/// Where skipping white space stops inside `s`, no white space stands.
pub proof fn lemma_skip_spaces_stops(s: Seq<char>, i: int)
    requires
        0 <= i <= s.len(),
    ensures
        skip_spaces(s, i) < s.len() ==> !is_space(s[skip_spaces(s, i)]),
    decreases s.len() - i,
{
    if i < s.len() && is_space(s[i]) {
        lemma_skip_spaces_stops(s, i + 1);
    }
}

/// A word ends at or after its start, within `s`, and past its start where
/// it starts with a character that is no white space.
pub proof fn lemma_word_end_bounds(s: Seq<char>, i: int)
    requires
        0 <= i <= s.len(),
    ensures
        i <= word_end(s, i) <= s.len(),
        i < s.len() && !is_space(s[i]) ==> i < word_end(s, i),
    decreases s.len() - i,
{
    if i < s.len() && !is_space(s[i]) {
        lemma_word_end_bounds(s, i + 1);
    }
}

/// Finds where the white space that starts at `i` ends.
pub fn scan_spaces(s: &Vec<char>, i: usize) -> (r: usize)
    ensures
        r == skip_spaces(s@, i as int),
        i <= r,
        i <= s@.len() ==> r <= s@.len(),
{
    let mut k: usize = i;
    while k < s.len() && is_whitespace(s[k])
        invariant
            i <= k,
            i <= s@.len() ==> k <= s@.len(),
            skip_spaces(s@, k as int) == skip_spaces(s@, i as int),
        decreases s@.len() - k,
    {
        k += 1;
    }
    k
}

/// Finds where the word that starts at `i` ends.
pub fn scan_word(s: &Vec<char>, i: usize) -> (r: usize)
    ensures
        r == word_end(s@, i as int),
        i <= r,
        i <= s@.len() ==> r <= s@.len(),
{
    let mut k: usize = i;
    while k < s.len() && !is_whitespace(s[k])
        invariant
            i <= k,
            i <= s@.len() ==> k <= s@.len(),
            word_end(s@, k as int) == word_end(s@, i as int),
        decreases s@.len() - k,
    {
        k += 1;
    }
    k
}

/// The characters of `s` without the white space at its two ends.
pub fn trimmed(s: &Vec<char>) -> (r: Vec<char>)
    ensures
        r@ == trim(s@),
{
    let lo = scan_spaces(s, 0);
    let mut hi: usize = s.len();
    while hi > lo && is_whitespace(s[hi - 1])
        invariant
            lo <= hi <= s@.len(),
            trim_end_index(s@, lo as int, hi as int) == trim_end_index(
                s@,
                lo as int,
                s@.len() as int,
            ),
        decreases hi - lo,
    {
        hi -= 1;
    }
    copy_range(s, lo, hi)
}

/// The words of `s` from index `i` on: the maximal runs of characters that
/// are no white space, in order.
pub open spec fn fields_from(s: Seq<char>, i: int) -> Seq<Seq<char>>
    decreases s.len() - i,
    via fields_from_decreases
{
    if i < 0 || i >= s.len() {
        Seq::empty()
    } else if is_space(s[i]) {
        fields_from(s, i + 1)
    } else {
        seq![s.subrange(i, word_end(s, i))] + fields_from(s, word_end(s, i))
    }
}

/// A word ends past its start, so what is left after it is shorter.
#[via_fn]
proof fn fields_from_decreases(s: Seq<char>, i: int) {
    if 0 <= i < s.len() && !is_space(s[i]) {
        lemma_word_end_bounds(s, i);
    }
}

/// The words of `s`, split at white space.
pub open spec fn fields(s: Seq<char>) -> Seq<Seq<char>> {
    fields_from(s, 0)
}

/// Skipping white space changes no word.
pub proof fn lemma_fields_skip_spaces(s: Seq<char>, i: int)
    requires
        0 <= i <= s.len(),
    ensures
        fields_from(s, i) == fields_from(s, skip_spaces(s, i)),
    decreases s.len() - i,
{
    if i < s.len() && is_space(s[i]) {
        lemma_fields_skip_spaces(s, i + 1);
    }
}

/// The views of the vectors in `v`, in order.
pub open spec fn views(v: Seq<Vec<char>>) -> Seq<Seq<char>> {
    v.map_values(|x: Vec<char>| x@)
}

/// The texts of the strings `v`, in order.
pub open spec fn texts(v: Seq<String>) -> Seq<Seq<char>> {
    v.map_values(|s: String| s@)
}

/// Splits `s` at white space into its words.
pub fn split_fields(s: &Vec<char>) -> (r: Vec<Vec<char>>)
    ensures
        views(r@) == fields(s@),
{
    let mut out: Vec<Vec<char>> = Vec::new();
    let mut i: usize = scan_spaces(s, 0);
    proof {
        lemma_fields_skip_spaces(s@, 0);
        lemma_skip_spaces_stops(s@, 0);
        assert(views(out@) =~= Seq::<Seq<char>>::empty());
    }
    while i < s.len()
        invariant
            i <= s@.len(),
            i < s@.len() ==> !is_space(s@[i as int]),
            fields(s@) == views(out@) + fields_from(s@, i as int),
        decreases s@.len() - i,
    {
        let e = scan_word(s, i);
        let word = copy_range(s, i, e);
        proof {
            lemma_word_end_bounds(s@, i as int);
            lemma_fields_skip_spaces(s@, e as int);
            assert(views(out@.push(word)) =~= views(out@) + seq![word@]);
            assert(fields(s@) =~= views(out@.push(word)) + fields_from(s@, e as int));
        }
        out.push(word);
        i = scan_spaces(s, e);
        proof {
            if i < s@.len() {
                lemma_skip_spaces_stops(s@, e as int);
            }
        }
    }
    assert(fields(s@) =~= views(out@));
    out
}

/// Whether `pat` stands in `s` at index `i`.
pub open spec fn matches_at(s: Seq<char>, pat: Seq<char>, i: int) -> bool {
    &&& 0 <= i
    &&& i + pat.len() <= s.len()
    &&& s.subrange(i, i + pat.len()) == pat
}

/// The first index at or after `i` at which `pat` stands in `s`.
pub open spec fn find_from(s: Seq<char>, pat: Seq<char>, i: int) -> Option<int>
    decreases s.len() + 1 - i,
{
    if i < 0 || i + pat.len() > s.len() {
        None
    } else if matches_at(s, pat, i) {
        Some(i)
    } else {
        find_from(s, pat, i + 1)
    }
}

/// Whether `pat` occurs in `s`.
pub open spec fn contains(s: Seq<char>, pat: Seq<char>) -> bool {
    find_from(s, pat, 0) is Some
}

/// Whether `s` begins with `pat`.
pub open spec fn starts_with(s: Seq<char>, pat: Seq<char>) -> bool {
    matches_at(s, pat, 0)
}

/// What a search finds is the first place at or after `i` where the
/// pattern stands; where it finds nothing the pattern stands nowhere from
/// `i` on.
pub proof fn lemma_find_from(s: Seq<char>, pat: Seq<char>, i: int)
    requires
        0 <= i,
    ensures
        match find_from(s, pat, i) {
            Some(k) => i <= k && matches_at(s, pat, k) && forall|j: int|
                i <= j < k ==> !matches_at(s, pat, j),
            None => forall|j: int| i <= j ==> !matches_at(s, pat, j),
        },
    decreases s.len() + 1 - i,
{
    if i + pat.len() > s.len() {
    } else if matches_at(s, pat, i) {
    } else {
        lemma_find_from(s, pat, i + 1);
    }
}

/// Tells whether `pat` stands in `s` at index `i`.
pub fn is_match_at(s: &Vec<char>, pat: &Vec<char>, i: usize) -> (b: bool)
    ensures
        b == matches_at(s@, pat@, i as int),
{
    if pat.len() > s.len() || i > s.len() - pat.len() {
        return false;
    }
    let mut k: usize = 0;
    while k < pat.len()
        invariant
            k <= pat.len(),
            i + pat.len() <= s.len(),
            forall|j: int| 0 <= j < k ==> s@[i + j] == pat@[j],
        decreases pat@.len() - k,
    {
        if s[i + k] != pat[k] {
            assert(s@.subrange(i as int, i + pat@.len())[k as int] != pat@[k as int]);
            return false;
        }
        k += 1;
    }
    assert(s@.subrange(i as int, i + pat@.len()) =~= pat@);
    true
}

/// Finds the first index at or after `i` at which `pat` stands in `s`.
pub fn find(s: &Vec<char>, pat: &Vec<char>, i: usize) -> (r: Option<usize>)
    ensures
        match r {
            Some(k) => find_from(s@, pat@, i as int) == Some(k as int) && k + pat@.len()
                <= s@.len(),
            None => find_from(s@, pat@, i as int) is None,
        },
{
    if pat.len() > s.len() {
        return None;
    }
    let last: usize = s.len() - pat.len();
    let mut k: usize = i;
    while k <= last
        invariant
            last == s@.len() - pat@.len(),
            i <= k,
            find_from(s@, pat@, k as int) == find_from(s@, pat@, i as int),
        decreases last - k,
    {
        if is_match_at(s, pat, k) {
            return Some(k);
        }
        if k == last {
            assert(find_from(s@, pat@, k as int + 1) is None);
            return None;
        }
        k += 1;
    }
    None
}

/// Tells whether `pat` occurs in `s`.
pub fn has(s: &Vec<char>, pat: &Vec<char>) -> (b: bool)
    ensures
        b == contains(s@, pat@),
{
    find(s, pat, 0).is_some()
}

/// The first index at or after `i` that holds a line feed, or the length
/// of `s` where none follows.
pub open spec fn line_end(s: Seq<char>, i: int) -> int
    decreases s.len() - i,
{
    if 0 <= i < s.len() && s[i] != '\n' {
        line_end(s, i + 1)
    } else {
        i
    }
}

/// A line ends at or after its start, within `s`.
pub proof fn lemma_line_end_bounds(s: Seq<char>, i: int)
    requires
        0 <= i <= s.len(),
    ensures
        i <= line_end(s, i) <= s.len(),
    decreases s.len() - i,
{
    if i < s.len() && s[i] != '\n' {
        lemma_line_end_bounds(s, i + 1);
    }
}

/// The line of `s` that starts at `i` and ends before `e`, where a line
/// feed or the end of `s` stands: a carriage return just before the line
/// feed belongs to the line ending.
pub open spec fn line_at(s: Seq<char>, i: int, e: int) -> Seq<char> {
    if i < e < s.len() && s[e - 1] == '\r' {
        s.subrange(i, e - 1)
    } else {
        s.subrange(i, e)
    }
}

/// The lines of `s` from index `i` on.
pub open spec fn lines_from(s: Seq<char>, i: int) -> Seq<Seq<char>>
    decreases s.len() + 1 - i,
    via lines_from_decreases
{
    if i < 0 || i >= s.len() {
        Seq::empty()
    } else {
        seq![line_at(s, i, line_end(s, i))] + lines_from(s, line_end(s, i) + 1)
    }
}

/// A line ends at or after its start, so what is left after its line
/// feed is shorter.
#[via_fn]
proof fn lines_from_decreases(s: Seq<char>, i: int) {
    if 0 <= i < s.len() {
        lemma_line_end_bounds(s, i);
    }
}

/// The lines of `s`: it is split at each line feed, a carriage return
/// just before one goes with it, and a line ending at the very end starts
/// no further line.
pub open spec fn lines(s: Seq<char>) -> Seq<Seq<char>> {
    lines_from(s, 0)
}

/// Finds where the line that starts at `i` ends.
pub fn scan_line(s: &Vec<char>, i: usize) -> (r: usize)
    ensures
        r == line_end(s@, i as int),
        i <= r,
        i <= s@.len() ==> r <= s@.len(),
{
    let mut k: usize = i;
    while k < s.len() && s[k] != '\n'
        invariant
            i <= k,
            i <= s@.len() ==> k <= s@.len(),
            line_end(s@, k as int) == line_end(s@, i as int),
        decreases s@.len() - k,
    {
        k += 1;
    }
    k
}

/// The line of `s` that starts at `i` and ends before `e`.
pub fn copy_line(s: &Vec<char>, i: usize, e: usize) -> (r: Vec<char>)
    requires
        i <= e <= s@.len(),
    ensures
        r@ == line_at(s@, i as int, e as int),
{
    if i < e && e < s.len() && s[e - 1] == '\r' {
        copy_range(s, i, e - 1)
    } else {
        copy_range(s, i, e)
    }
}

/// Splits `s` into its lines.
pub fn split_lines(s: &Vec<char>) -> (r: Vec<Vec<char>>)
    ensures
        views(r@) == lines(s@),
{
    let mut out: Vec<Vec<char>> = Vec::new();
    let mut i: usize = 0;
    assert(views(out@) =~= Seq::<Seq<char>>::empty());
    while i < s.len()
        invariant
            i <= s@.len(),
            lines(s@) == views(out@) + lines_from(s@, i as int),
        decreases s@.len() - i,
    {
        let e = scan_line(s, i);
        let line = copy_line(s, i, e);
        proof {
            assert(views(out@.push(line)) =~= views(out@) + seq![line@]);
            assert(lines(s@) =~= views(out@.push(line)) + lines_from(s@, e as int + 1));
        }
        out.push(line);
        if e == s.len() {
            i = e;
        } else {
            i = e + 1;
        }
    }
    assert(lines(s@) =~= views(out@));
    out
}

/// The first line of `s`, if it has one.
pub fn first_line(s: &Vec<char>) -> (r: Option<Vec<char>>)
    ensures
        match r {
            Some(l) => lines(s@).len() > 0 && l@ == lines(s@)[0],
            None => lines(s@).len() == 0,
        },
{
    if s.len() == 0 {
        return None;
    }
    let e = scan_line(s, 0);
    Some(copy_line(s, 0, e))
}

/// The part of `s` before the first place where `pat` stands, or all of
/// `s` where it stands nowhere.
pub open spec fn before(s: Seq<char>, pat: Seq<char>) -> Seq<char> {
    match find_from(s, pat, 0) {
        Some(k) => s.subrange(0, k),
        None => s,
    }
}

/// The part of `s` between the first place where `pat` stands and the
/// next one after it, or the end of `s`; nothing where `pat` stands
/// nowhere.
pub open spec fn second_piece(s: Seq<char>, pat: Seq<char>) -> Option<Seq<char>> {
    match find_from(s, pat, 0) {
        None => None,
        Some(k) => Some(
            match find_from(s, pat, k + pat.len()) {
                Some(m) => s.subrange(k + pat.len(), m),
                None => s.subrange(k + pat.len(), s.len() as int),
            },
        ),
    }
}

/// Copies the part of `s` before the first place where `pat` stands.
pub fn take_before(s: &Vec<char>, pat: &Vec<char>) -> (r: Vec<char>)
    ensures
        r@ == before(s@, pat@),
{
    match find(s, pat, 0) {
        Some(k) => copy_range(s, 0, k),
        None => {
            let r = copy_range(s, 0, s.len());
            assert(r@ =~= s@);
            r
        },
    }
}

/// Copies the part of `s` between the first two places where `pat`
/// stands.
pub fn take_second_piece(s: &Vec<char>, pat: &Vec<char>) -> (r: Option<Vec<char>>)
    ensures
        match r {
            Some(p) => second_piece(s@, pat@) == Some(p@),
            None => second_piece(s@, pat@) is None,
        },
{
    match find(s, pat, 0) {
        None => None,
        Some(k) => {
            assert(k + pat.len() <= s.len());
            let from: usize = k + pat.len();
            match find(s, pat, from) {
                Some(m) => {
                    proof {
                        lemma_find_from(s@, pat@, from as int);
                    }
                    Some(copy_range(s, from, m))
                },
                None => Some(copy_range(s, from, s.len())),
            }
        },
    }
}

/// What occurs in a part of `s` occurs in `s`.
pub proof fn lemma_contains_in_part(s: Seq<char>, from: int, to: int, pat: Seq<char>)
    requires
        0 <= from <= to <= s.len(),
        contains(s.subrange(from, to), pat),
    ensures
        contains(s, pat),
{
    let part = s.subrange(from, to);
    lemma_find_from(part, pat, 0);
    let k = find_from(part, pat, 0)->0;
    assert(part.subrange(k, k + pat.len()) =~= s.subrange(from + k, from + k + pat.len()));
    assert(matches_at(s, pat, from + k));
    lemma_find_from(s, pat, 0);
}

/// What occurs in no place of `s` occurs in none of its words.
pub proof fn lemma_fields_hold_only_what_the_text_holds(s: Seq<char>, i: int, pat: Seq<char>)
    requires
        0 <= i <= s.len(),
        !contains(s, pat),
    ensures
        forall|k: int|
            0 <= k < fields_from(s, i).len() ==> !contains(#[trigger] fields_from(s, i)[k], pat),
    decreases s.len() - i,
{
    if i >= s.len() {
    } else if is_space(s[i]) {
        lemma_fields_hold_only_what_the_text_holds(s, i + 1, pat);
        assert(fields_from(s, i) == fields_from(s, i + 1));
    } else {
        let e = word_end(s, i);
        lemma_word_end_bounds(s, i);
        lemma_fields_hold_only_what_the_text_holds(s, e, pat);
        if contains(s.subrange(i, e), pat) {
            lemma_contains_in_part(s, i, e, pat);
        }
        assert(fields_from(s, i) == seq![s.subrange(i, e)] + fields_from(s, e));
        assert forall|k: int| 0 <= k < fields_from(s, i).len() implies !contains(
            #[trigger] fields_from(s, i)[k],
            pat,
        ) by {
            if k > 0 {
                assert(fields_from(s, i)[k] == fields_from(s, e)[k - 1]);
            } else {
                assert(fields_from(s, i)[k] == s.subrange(i, e));
            }
        }
    }
}

/// What occurs in no place of `s` occurs in none of its lines.
pub proof fn lemma_lines_hold_only_what_the_text_holds(s: Seq<char>, i: int, pat: Seq<char>)
    requires
        0 <= i <= s.len(),
        !contains(s, pat),
    ensures
        forall|k: int|
            0 <= k < lines_from(s, i).len() ==> !contains(#[trigger] lines_from(s, i)[k], pat),
    decreases s.len() - i,
{
    if i < s.len() {
        let e = line_end(s, i);
        lemma_line_end_bounds(s, i);
        if e < s.len() {
            lemma_lines_hold_only_what_the_text_holds(s, e + 1, pat);
        }
        let line = line_at(s, i, e);
        if contains(line, pat) {
            if i < e < s.len() && s[e - 1] == '\r' {
                lemma_contains_in_part(s, i, e - 1, pat);
            } else {
                lemma_contains_in_part(s, i, e, pat);
            }
        }
        assert forall|k: int| 0 <= k < lines_from(s, i).len() implies !contains(
            #[trigger] lines_from(s, i)[k],
            pat,
        ) by {
            if k > 0 {
                assert(lines_from(s, i)[k] == lines_from(s, e + 1)[k - 1]);
            }
        }
    }
}

} // verus!
