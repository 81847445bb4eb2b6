//! A bounded sliding window over one scalar stream.

use std::collections::VecDeque;
use vstd::prelude::*;

verus! {

/// Number of samples a stream retains unless told otherwise.
pub const DEFAULT_HISTORY_LENGTH: usize = 100;

/// The latest value of a stream together with its trailing window, oldest
/// sample first.
#[derive(Debug, Clone)]
pub struct HistoricalMetric<T> {
    current: T,
    history: VecDeque<T>,
    max_len: usize,
}

/// What a window holds after `value` is pushed into `window`, which may hold
/// `capacity` samples: a full window drops its oldest sample first.
pub open spec fn pushed<T>(window: Seq<T>, capacity: nat, value: T) -> Seq<T> {
    if window.len() >= capacity && window.len() > 0 {
        window.drop_first().push(value)
    } else {
        window.push(value)
    }
}

/// A window after each of `values` was pushed in turn.
pub open spec fn pushed_all<T>(window: Seq<T>, capacity: nat, values: Seq<T>) -> Seq<T>
    decreases values.len(),
{
    if values.len() == 0 {
        window
    } else {
        pushed(pushed_all(window, capacity, values.drop_last()), capacity, values.last())
    }
}

/// A push keeps a window within its capacity and never leaves it empty,
/// and the value pushed is the newest sample.
pub proof fn lemma_push_stays_bounded<T>(window: Seq<T>, capacity: nat, value: T)
    requires
        window.len() <= capacity,
        1 <= capacity,
    ensures
        1 <= pushed(window, capacity, value).len() <= capacity,
        pushed(window, capacity, value).last() == value,
{
}

/// However many values are pushed, the window stays within its capacity
/// and is never empty, and the last value pushed is the newest sample.
pub proof fn lemma_pushes_stay_bounded<T>(window: Seq<T>, capacity: nat, values: Seq<T>)
    requires
        1 <= window.len() <= capacity,
    ensures
        1 <= pushed_all(window, capacity, values).len() <= capacity,
        values.len() > 0 ==> pushed_all(window, capacity, values).last() == values.last(),
    decreases values.len(),
{
    if values.len() > 0 {
        lemma_pushes_stay_bounded(window, capacity, values.drop_last());
        lemma_push_stays_bounded(
            pushed_all(window, capacity, values.drop_last()),
            capacity,
            values.last(),
        );
    }
}

/// The last `width` samples of `window`, or all of it where it holds
/// fewer.
pub open spec fn tail<T>(window: Seq<T>, width: nat) -> Seq<T> {
    if window.len() <= width {
        window
    } else {
        window.subrange(window.len() - width, window.len() as int)
    }
}

/// The newest `width` samples of `history`, oldest first: what a chart of
/// that width can show.
pub fn recent_of<T: Copy>(history: &VecDeque<T>, width: usize) -> (r: Vec<T>)
    ensures
        r@ == tail(history@, width as nat),
{
    let n = history.len();
    let start: usize = if n <= width {
        0
    } else {
        n - width
    };
    let mut out: Vec<T> = Vec::new();
    let mut i: usize = start;
    while i < n
        invariant
            start <= i <= n,
            n == history@.len(),
            out@ == history@.subrange(start as int, i as int),
        decreases n - i,
    {
        out.push(history[i]);
        assert(out@ =~= history@.subrange(start as int, i as int + 1));
        i += 1;
    }
    assert(out@ =~= tail(history@, width as nat));
    out
}

impl<T: Copy> HistoricalMetric<T> {
    /// The retained window, oldest sample first.
    pub closed spec fn view(&self) -> Seq<T> {
        self.history@
    }

    /// The largest number of samples the window may hold.
    pub closed spec fn capacity(&self) -> nat {
        self.max_len as nat
    }

    /// The most recently pushed value.
    pub closed spec fn latest(&self) -> T {
        self.current
    }

    /// The window is never empty, never longer than its capacity, and ends
    /// with the latest value.
    pub open spec fn wf(&self) -> bool {
        &&& 1 <= self@.len() <= self.capacity()
        &&& self.latest() == self@.last()
    }

    /// A stream of the default capacity seeded with `initial`.
    pub fn new(initial: T) -> (r: Self)
        ensures
            r.wf(),
            r@ == seq![initial],
            r.latest() == initial,
            r.capacity() == DEFAULT_HISTORY_LENGTH,
    {
        Self::with_capacity(initial, DEFAULT_HISTORY_LENGTH)
    }

    /// A stream seeded with `initial` that retains at most `max_len`
    /// samples. A capacity of zero is taken as one.
    pub fn with_capacity(initial: T, max_len: usize) -> (r: Self)
        ensures
            r.wf(),
            r@ == seq![initial],
            r.latest() == initial,
            r.capacity() == if max_len == 0 { 1nat } else { max_len as nat },
    {
        let mut history: VecDeque<T> = VecDeque::new();
        history.push_back(initial);
        let cap: usize = if max_len == 0 { 1 } else { max_len };
        assert(history@ =~= seq![initial]);
        HistoricalMetric { current: initial, history, max_len: cap }
    }

    /// Pushes `value`: it becomes the latest value and the newest sample of
    /// the window, and the oldest sample leaves a window that was full.
    pub fn update(&mut self, value: T)
        requires
            old(self).wf(),
        ensures
            final(self).wf(),
            final(self).latest() == value,
            final(self).capacity() == old(self).capacity(),
            final(self)@ == pushed(old(self)@, old(self).capacity(), value),
            final(self)@.len() <= final(self).capacity(),
    {
        if self.history.len() == self.max_len {
            self.history.pop_front();
        }
        self.history.push_back(value);
        self.current = value;
    }

    /// The latest value.
    pub fn current(&self) -> (r: &T)
        ensures
            *r == self.latest(),
    {
        &self.current
    }

    /// The retained window, oldest sample first.
    pub fn history(&self) -> (r: &VecDeque<T>)
        ensures
            r@ == self@,
    {
        &self.history
    }

    /// The newest `width` samples, oldest first.
    pub fn recent(&self, width: usize) -> (r: Vec<T>)
        ensures
            r@ == tail(self@, width as nat),
    {
        recent_of(&self.history, width)
    }
}

} // verus!
