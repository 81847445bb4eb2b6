//! Throughput of each network interface.

use crate::error::AppError;
use crate::metrics::historical_metric::{pushed, HistoricalMetric, DEFAULT_HISTORY_LENGTH};
use crate::metrics::ratio::Ratio;
use vstd::prelude::*;

verus! {

/// The shortest time between two updates that are taken in, in
/// nanoseconds: a tenth of a second.
pub const DEBOUNCE_NANOS: u64 = 100_000_000;

/// The bytes that went through one interface since the last tick.
#[derive(Debug, Clone)]
pub struct InterfaceCounters {
    /// The interface's name.
    pub name: String,
    /// The bytes received.
    pub received: u64,
    /// The bytes sent.
    pub transmitted: u64,
}

/// The two streams of one interface.
pub struct InterfaceStreams {
    name: String,
    rx: HistoricalMetric<Ratio>,
    tx: HistoricalMetric<Ratio>,
}

/// What a collector holds for one interface: its name and its two
/// streams in Mb/s, oldest sample first.
pub struct InterfaceView {
    pub name: Seq<char>,
    pub rx: Seq<Ratio>,
    pub tx: Seq<Ratio>,
}

/// Throughput of every interface seen so far, in the order in which they
/// were first seen.
pub struct NetworkMetrics {
    interface_stats: Vec<InterfaceStreams>,
    last_update: u64,
}

/// The time from `last` to `now`, in nanoseconds. A clock that went back
/// counts as one that stood still.
pub open spec fn elapsed_between(last: u64, now: u64) -> u64 {
    if now >= last {
        (now - last) as u64
    } else {
        0
    }
}

/// The rate in Mb/s at which `bytes` bytes went through in `elapsed`
/// nanoseconds: eight bits a byte, a million bits a megabit.
pub open spec fn rate(bytes: u64, elapsed: u64) -> Ratio {
    Ratio { num: (bytes * 8000) as u128, den: elapsed as u128 }
}

/// Bytes that went through in a time that is not too short give a rate
/// above zero.
pub proof fn lemma_rate_positive(bytes: u64, elapsed: u64)
    requires
        bytes > 0,
        elapsed >= DEBOUNCE_NANOS,
    ensures
        rate(bytes, elapsed).is_positive(),
{
}

/// The first entry from `i` on with the name `name`.
pub open spec fn index_of(entries: Seq<InterfaceView>, name: Seq<char>, i: int) -> Option<int>
    decreases entries.len() - i,
{
    if i < 0 || i >= entries.len() {
        None
    } else if entries[i].name == name {
        Some(i)
    } else {
        index_of(entries, name, i + 1)
    }
}

/// The streams of an interface that is seen for the first time: both
/// start at zero.
pub open spec fn first_seen(name: Seq<char>) -> InterfaceView {
    InterfaceView {
        name,
        rx: seq![Ratio { num: 0, den: 1 }],
        tx: seq![Ratio { num: 0, den: 1 }],
    }
}

/// `entry` after the rates `rx` and `tx` were pushed.
pub open spec fn with_rates(entry: InterfaceView, rx: Ratio, tx: Ratio) -> InterfaceView {
    InterfaceView {
        name: entry.name,
        rx: pushed(entry.rx, DEFAULT_HISTORY_LENGTH as nat, rx),
        tx: pushed(entry.tx, DEFAULT_HISTORY_LENGTH as nat, tx),
    }
}

/// `entries` after the rates of the interface `name` were taken in: they
/// are pushed to its streams, which are added at the end where the
/// interface was not seen before.
pub open spec fn recorded(entries: Seq<InterfaceView>, name: Seq<char>, rx: Ratio, tx: Ratio)
    -> Seq<InterfaceView> {
    match index_of(entries, name, 0) {
        Some(k) => entries.update(k, with_rates(entries[k], rx, tx)),
        None => entries.push(with_rates(first_seen(name), rx, tx)),
    }
}

/// `entries` after the counters from `i` on were taken in, one after the
/// other.
pub open spec fn recorded_all(
    entries: Seq<InterfaceView>,
    counters: Seq<InterfaceCounters>,
    elapsed: u64,
    i: int,
) -> Seq<InterfaceView>
    decreases counters.len() - i,
{
    if i < 0 || i >= counters.len() {
        entries
    } else {
        recorded_all(
            recorded(
                entries,
                counters[i].name@,
                rate(counters[i].received, elapsed),
                rate(counters[i].transmitted, elapsed),
            ),
            counters,
            elapsed,
            i + 1,
        )
    }
}

/// Whether an update at `now` after one at `last` is taken in.
pub open spec fn is_taken_in(last: u64, now: u64) -> bool {
    elapsed_between(last, now) >= DEBOUNCE_NANOS
}

/// What the search for a name finds is the first entry from `i` on that
/// has it.
pub proof fn lemma_index_of(entries: Seq<InterfaceView>, name: Seq<char>, i: int)
    requires
        0 <= i,
    ensures
        match index_of(entries, name, i) {
            Some(k) => i <= k < entries.len() && entries[k].name == name,
            None => forall|j: int| i <= j < entries.len() ==> entries[j].name != name,
        },
    decreases entries.len() - i,
{
    if i < entries.len() && entries[i].name != name {
        lemma_index_of(entries, name, i + 1);
    }
}

/// Whether no two of `entries` have the same name.
pub open spec fn distinct_names(entries: Seq<InterfaceView>) -> bool {
    forall|i: int, j: int|
        0 <= i < j < entries.len() ==> (#[trigger] entries[i]).name != (#[trigger] entries[j]).name
}

impl InterfaceStreams {
    /// The name and the two streams.
    pub closed spec fn view(&self) -> InterfaceView {
        InterfaceView { name: self.name@, rx: self.rx@, tx: self.tx@ }
    }

    /// Both streams are well formed and of the default capacity.
    pub closed spec fn wf(&self) -> bool {
        &&& self.rx.wf()
        &&& self.rx.capacity() == DEFAULT_HISTORY_LENGTH
        &&& self.tx.wf()
        &&& self.tx.capacity() == DEFAULT_HISTORY_LENGTH
    }
}

impl NetworkMetrics {
    /// What is held for each interface, in the order in which the
    /// interfaces were first seen.
    pub closed spec fn view(&self) -> Seq<InterfaceView> {
        self.interface_stats@.map_values(|e: InterfaceStreams| e@)
    }

    /// When the last update was taken in, in nanoseconds on the caller's
    /// clock.
    pub closed spec fn last(&self) -> u64 {
        self.last_update
    }

    /// Every stream is well formed and no interface is held twice.
    pub closed spec fn wf(&self) -> bool {
        &&& forall|i: int|
            0 <= i < self.interface_stats@.len() ==> (#[trigger] self.interface_stats@[i]).wf()
        &&& distinct_names(self@)
    }

    /// Whether `next` is this collector after an update at `now` with
    /// `counters`. An update that comes less than a tenth of a second
    /// after the last one that was taken in changes nothing. Any other
    /// pushes the rates of each interface and is remembered as the last.
    pub open spec fn stepped(self, next: Self, now: u64, counters: Seq<InterfaceCounters>) -> bool {
        &&& next.wf()
        &&& if is_taken_in(self.last(), now) {
            &&& next.last() == now
            &&& next@ == recorded_all(self@, counters, elapsed_between(self.last(), now), 0)
        } else {
            &&& next.last() == self.last()
            &&& next@ == self@
        }
    }

    /// A collector that has seen no interface, made at `now`.
    pub fn new(now: u64) -> (r: Self)
        ensures
            r.wf(),
            r@ == Seq::<InterfaceView>::empty(),
            r.last() == now,
    {
        let r = NetworkMetrics { interface_stats: Vec::new(), last_update: now };
        assert(r@ =~= Seq::<InterfaceView>::empty());
        r
    }

    /// The place of the interface `name` among those held.
    fn position(&self, name: &String) -> (r: Option<usize>)
        ensures
            match r {
                Some(k) => index_of(self@, name@, 0) == Some(k as int) && k
                    < self.interface_stats@.len(),
                None => index_of(self@, name@, 0) is None,
            },
    {
        let mut i: usize = 0;
        while i < self.interface_stats.len()
            invariant
                i <= self.interface_stats@.len(),
                index_of(self@, name@, 0) == index_of(self@, name@, i as int),
            decreases self.interface_stats@.len() - i,
        {
            assert(self@[i as int] == self.interface_stats@[i as int]@);
            if self.interface_stats[i].name == *name {
                return Some(i);
            }
            i += 1;
        }
        None
    }

    /// Takes in the rates of one interface.
    fn record(&mut self, name: &String, rx: Ratio, tx: Ratio)
        requires
            old(self).wf(),
        ensures
            final(self).wf(),
            final(self).last() == old(self).last(),
            final(self)@ == recorded(old(self)@, name@, rx, tx),
    {
        let ghost before = self@;
        proof {
            lemma_index_of(before, name@, 0);
        }
        match self.position(name) {
            Some(k) => {
                self.interface_stats[k].rx.update(rx);
                self.interface_stats[k].tx.update(tx);
                assert(self@ =~= recorded(before, name@, rx, tx));
                assert(distinct_names(self@)) by {
                    assert forall|i: int, j: int| 0 <= i < j < self@.len() implies (
                    #[trigger] self@[i]).name != (#[trigger] self@[j]).name by {
                        assert(self@[i].name == before[i].name);
                        assert(self@[j].name == before[j].name);
                    }
                }
            },
            None => {
                let mut entry = InterfaceStreams {
                    name: name.clone(),
                    rx: HistoricalMetric::new(Ratio::zero()),
                    tx: HistoricalMetric::new(Ratio::zero()),
                };
                entry.rx.update(rx);
                entry.tx.update(tx);
                self.interface_stats.push(entry);
                assert(self@ =~= recorded(before, name@, rx, tx));
                assert(distinct_names(self@)) by {
                    assert forall|i: int, j: int| 0 <= i < j < self@.len() implies (
                    #[trigger] self@[i]).name != (#[trigger] self@[j]).name by {
                        assert(self@[i] == before[i]);
                        if j < before.len() {
                            assert(self@[j] == before[j]);
                        }
                    }
                }
            },
        }
    }

    /// Takes in one tick: the time `now` on a clock that counts
    /// nanoseconds and never goes back, and the bytes that went through
    /// each interface since the last tick. This never fails.
    pub fn update(&mut self, now: u64, counters: &Vec<InterfaceCounters>) -> (r: Result<
        (),
        AppError,
    >)
        requires
            old(self).wf(),
        ensures
            r is Ok,
            old(self).stepped(*final(self), now, counters@),
    {
        let elapsed: u64 = if now >= self.last_update {
            now - self.last_update
        } else {
            0
        };
        if elapsed < DEBOUNCE_NANOS {
            return Ok(());
        }
        let ghost before = self@;
        let mut i: usize = 0;
        while i < counters.len()
            invariant
                self.wf(),
                i <= counters@.len(),
                self.last_update == old(self).last_update,
                recorded_all(self@, counters@, elapsed, i as int) == recorded_all(
                    before,
                    counters@,
                    elapsed,
                    0,
                ),
            decreases counters@.len() - i,
        {
            let rx = Ratio { num: counters[i].received as u128 * 8000, den: elapsed as u128 };
            let tx = Ratio { num: counters[i].transmitted as u128 * 8000, den: elapsed as u128 };
            self.record(&counters[i].name, rx, tx);
            i += 1;
        }
        self.last_update = now;
        Ok(())
    }

    /// The names of the interfaces seen so far, in the order in which
    /// they were first seen. No name comes twice.
    pub fn interface_names(&self) -> (r: Vec<String>)
        requires
            self.wf(),
        ensures
            r@.len() == self@.len(),
            forall|i: int| 0 <= i < r@.len() ==> (#[trigger] r@[i])@ == self@[i].name,
            forall|i: int, j: int| 0 <= i < j < r@.len() ==> r@[i]@ != r@[j]@,
    {
        let mut out: Vec<String> = Vec::new();
        let mut i: usize = 0;
        while i < self.interface_stats.len()
            invariant
                i <= self.interface_stats@.len(),
                out@.len() == i,
                forall|j: int| 0 <= j < i ==> (#[trigger] out@[j])@ == self@[j].name,
            decreases self.interface_stats@.len() - i,
        {
            assert(self@[i as int] == self.interface_stats@[i as int]@);
            out.push(self.interface_stats[i].name.clone());
            i += 1;
        }
        assert forall|i: int, j: int| 0 <= i < j < out@.len() implies out@[i]@ != out@[j]@ by {
            assert(self@[i].name != self@[j].name);
        }
        out
    }

    /// The receive and the transmit stream of the interface `name`, if it
    /// was seen.
    pub fn get_interface_stats(&self, name: &str) -> (r: Option<
        (&HistoricalMetric<Ratio>, &HistoricalMetric<Ratio>),
    >)
        requires
            self.wf(),
        ensures
            match r {
                Some((rx, tx)) => {
                    &&& index_of(self@, name@, 0) matches Some(k)
                    &&& rx@ == self@[k].rx
                    &&& tx@ == self@[k].tx
                    &&& rx.wf()
                    &&& tx.wf()
                },
                None => index_of(self@, name@, 0) is None,
            },
    {
        let key = name.to_owned();
        match self.position(&key) {
            Some(k) => {
                assert(self@[k as int] == self.interface_stats@[k as int]@);
                Some((&self.interface_stats[k].rx, &self.interface_stats[k].tx))
            },
            None => None,
        }
    }
}

/// Whether every interface of `earlier` stands at the same place in
/// `later`.
pub open spec fn keeps_interfaces(earlier: Seq<InterfaceView>, later: Seq<InterfaceView>) -> bool {
    &&& earlier.len() <= later.len()
    &&& forall|i: int| 0 <= i < earlier.len() ==> (#[trigger] later[i]).name == earlier[i].name
}

/// Taking in the rates of one interface moves no interface.
pub proof fn lemma_recorded_keeps_interfaces(
    entries: Seq<InterfaceView>,
    name: Seq<char>,
    rx: Ratio,
    tx: Ratio,
)
    ensures
        keeps_interfaces(entries, recorded(entries, name, rx, tx)),
{
    lemma_index_of(entries, name, 0);
}

/// Taking in any counters moves no interface.
pub proof fn lemma_recorded_all_keeps_interfaces(
    entries: Seq<InterfaceView>,
    counters: Seq<InterfaceCounters>,
    elapsed: u64,
    i: int,
)
    requires
        0 <= i,
    ensures
        keeps_interfaces(entries, recorded_all(entries, counters, elapsed, i)),
    decreases counters.len() - i,
{
    if i < counters.len() {
        let next = recorded(
            entries,
            counters[i].name@,
            rate(counters[i].received, elapsed),
            rate(counters[i].transmitted, elapsed),
        );
        lemma_recorded_keeps_interfaces(
            entries,
            counters[i].name@,
            rate(counters[i].received, elapsed),
            rate(counters[i].transmitted, elapsed),
        );
        lemma_recorded_all_keeps_interfaces(next, counters, elapsed, i + 1);
        let last = recorded_all(next, counters, elapsed, i + 1);
        assert forall|k: int| 0 <= k < entries.len() implies (#[trigger] last[k]).name
            == entries[k].name by {
            assert(next[k].name == entries[k].name);
        }
    }
}

/// The set of interfaces is stable: an update moves and drops none of
/// those seen before.
pub proof fn lemma_update_keeps_interfaces(
    a: NetworkMetrics,
    b: NetworkMetrics,
    now: u64,
    counters: Seq<InterfaceCounters>,
)
    requires
        a.stepped(b, now, counters),
    ensures
        keeps_interfaces(a@, b@),
{
    if is_taken_in(a.last(), now) {
        lemma_recorded_all_keeps_interfaces(a@, counters, elapsed_between(a.last(), now), 0);
    }
}

/// An update that comes less than a tenth of a second after the last one
/// that was taken in leaves every rate as it was.
pub proof fn lemma_debounce_keeps_rates(
    a: NetworkMetrics,
    b: NetworkMetrics,
    now: u64,
    counters: Seq<InterfaceCounters>,
)
    requires
        a.stepped(b, now, counters),
        elapsed_between(a.last(), now) < DEBOUNCE_NANOS,
    ensures
        b@ == a@,
        b.last() == a.last(),
{
}

/// Of two updates less than a tenth of a second apart, the first of them
/// taken in, the second changes nothing.
pub proof fn lemma_second_update_within_debounce(
    a: NetworkMetrics,
    b: NetworkMetrics,
    c: NetworkMetrics,
    first: u64,
    second: u64,
    counters: Seq<InterfaceCounters>,
    later: Seq<InterfaceCounters>,
)
    requires
        a.stepped(b, first, counters),
        is_taken_in(a.last(), first),
        b.stepped(c, second, later),
        second < first + DEBOUNCE_NANOS,
    ensures
        c@ == b@,
{
}

} // verus!
