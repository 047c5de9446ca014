//! The statistics pane's data: a sliding window of the most recent samples,
//! oldest first, and the largest sample seen so far, which scales the chart.

use vstd::prelude::*;

use circular_queue::CircularQueue;

verus! {

/// How many of the most recent samples the window keeps.
pub const STATS_WINDOW: usize = 200;

#[verifier::external_type_specification]
#[verifier::external_body]
#[verifier::reject_recursive_types(T)]
pub struct ExCircularQueue<T>(CircularQueue<T>);

/// What a queue holds, from the least recently pushed item to the newest.
pub uninterp spec fn queue_items(q: CircularQueue<u32>) -> Seq<u32>;

/// The capacity that a queue was made with.
pub uninterp spec fn queue_capacity(q: CircularQueue<u32>) -> nat;

/// Relies on `CircularQueue::with_capacity`: an empty queue of that capacity.
#[verifier::external_body]
fn queue_with_capacity(capacity: usize) -> (q: CircularQueue<u32>)
    ensures
        queue_items(q) == Seq::<u32>::empty(),
        queue_capacity(q) == capacity as nat,
{
    CircularQueue::with_capacity(capacity)
}

/// Relies on `CircularQueue::push`: with room left the item is appended;
/// on a full queue the oldest item is overwritten and handed back; a queue of
/// capacity zero stays empty.
#[verifier::external_body]
fn queue_push(q: &mut CircularQueue<u32>, x: u32) -> (popped: Option<u32>)
    requires
        queue_items(*old(q)).len() <= queue_capacity(*old(q)),
    ensures
        queue_capacity(*final(q)) == queue_capacity(*old(q)),
        queue_capacity(*old(q)) == 0 ==> queue_items(*final(q)) == queue_items(*old(q))
            && popped is None,
        0 < queue_capacity(*old(q)) && queue_items(*old(q)).len() < queue_capacity(*old(q))
            ==> queue_items(*final(q)) == queue_items(*old(q)).push(x) && popped is None,
        0 < queue_capacity(*old(q)) && queue_items(*old(q)).len() == queue_capacity(*old(q))
            ==> queue_items(*final(q)) == queue_items(*old(q)).drop_first().push(x)
            && popped == Some(queue_items(*old(q))[0]),
{
    q.push(x)
}

/// Relies on `CircularQueue::asc_iter`: the items from the least recently
/// pushed to the newest.
#[verifier::external_body]
fn queue_ascending(q: &CircularQueue<u32>) -> (r: Vec<u32>)
    ensures
        r@ == queue_items(*q),
{
    q.asc_iter().copied().collect()
}

/// Relies on `rand::random`: any `u32` may come back.
#[verifier::external_body]
fn random_sample() -> (r: u32) {
    rand::random::<u32>()
}

/// An instant: whole seconds since the Unix epoch, in UTC, and the
/// nanoseconds past that second. Two instants are equal when both parts are.
#[derive(Clone, Copy, Debug, PartialEq, Eq, Structural)]
pub struct TimeStamp {
    pub secs: i64,
    pub nanos: u32,
}

/// The last `n` items of `s`, or all of them where there are fewer.
pub open spec fn last_n(s: Seq<u32>, n: nat) -> Seq<u32> {
    if s.len() <= n {
        s
    } else {
        s.subrange(s.len() - n, s.len() as int)
    }
}

/// The largest item of `s`, or 0 where `s` is empty.
pub open spec fn seq_max(s: Seq<u32>) -> nat
    decreases s.len(),
{
    if s.len() == 0 {
        0
    } else {
        let m = seq_max(s.drop_last());
        if s.last() as nat > m { s.last() as nat } else { m }
    }
}

/// The sampled statistic over time.
pub struct Stats {
    now: TimeStamp,
    stats_timeline: CircularQueue<u32>,
    max_stat: u32,
    history: Ghost<Seq<u32>>,
}

impl Stats {
    /// The instant of the latest tick that was taken.
    pub closed spec fn now_spec(&self) -> TimeStamp {
        self.now
    }

    /// Every sample taken so far, oldest first.
    pub closed spec fn history(&self) -> Seq<u32> {
        self.history@
    }

    /// The samples in the window, oldest first.
    pub closed spec fn timeline(&self) -> Seq<u32> {
        queue_items(self.stats_timeline)
    }

    /// The largest sample seen.
    pub closed spec fn max_spec(&self) -> u32 {
        self.max_stat
    }

    /// The window holds the last `STATS_WINDOW` samples taken, and the
    /// maximum is the largest sample ever taken.
    pub closed spec fn wf(&self) -> bool {
        &&& queue_capacity(self.stats_timeline) == STATS_WINDOW as nat
        &&& queue_items(self.stats_timeline) == last_n(self.history@, STATS_WINDOW as nat)
        &&& self.max_stat as nat == seq_max(self.history@)
    }

    /// An empty window, stamped with `now`.
    pub fn new(now: TimeStamp) -> (r: Stats)
        ensures
            r.wf(),
            r.now_spec() == now,
            r.history() == Seq::<u32>::empty(),
            r.max_spec() == 0,
    {
        Stats {
            now,
            stats_timeline: queue_with_capacity(STATS_WINDOW),
            max_stat: 0,
            history: Ghost(Seq::empty()),
        }
    }

    /// A tick at `now` that sampled `sample`. A tick at the instant of the
    /// latest one changes nothing and returns false. Otherwise `now` becomes
    /// the latest instant, the sample enters the window (evicting the oldest
    /// when the window is full), the maximum is raised to it if it is
    /// larger, and true is returned: the chart must be drawn again.
    pub fn record(&mut self, now: TimeStamp, sample: u32) -> (changed: bool)
        requires
            old(self).wf(),
        ensures
            final(self).wf(),
            changed == (now != old(self).now_spec()),
            final(self).now_spec() == now,
            changed ==> final(self).history() == old(self).history().push(sample),
            !changed ==> final(self).history() == old(self).history(),
            final(self).timeline() == last_n(final(self).history(), STATS_WINDOW as nat),
            final(self).max_spec() as nat == seq_max(final(self).history()),
            changed ==> final(self).max_spec() == (if sample > old(self).max_spec() {
                sample
            } else {
                old(self).max_spec()
            }),
            !changed ==> final(self).max_spec() == old(self).max_spec(),
    {
        if now == self.now {
            return false;
        }
        self.now = now;
        let ghost h = self.history@;
        let ghost items = queue_items(self.stats_timeline);
        let _ = queue_push(&mut self.stats_timeline, sample);
        if sample > self.max_stat {
            self.max_stat = sample;
        }
        self.history = Ghost(h.push(sample));
        proof {
            let h2 = h.push(sample);
            assert(h2.drop_last() =~= h);
            let w = STATS_WINDOW as nat;
            if h.len() < w {
                assert(last_n(h2, w) =~= items.push(sample));
            } else {
                assert(items.len() == w);
                assert(last_n(h2, w) =~= items.drop_first().push(sample));
            }
        }
        true
    }

    /// A tick at `now`: where it is not the instant of the latest tick, a
    /// random sample is taken and recorded as `record` does. Returns whether
    /// the chart must be drawn again.
    pub fn update(&mut self, now: TimeStamp) -> (changed: bool)
        requires
            old(self).wf(),
        ensures
            final(self).wf(),
            changed == (now != old(self).now_spec()),
            final(self).now_spec() == now,
            changed ==> exists|s: u32|
                final(self).history() == old(self).history().push(s)
                && final(self).max_spec() == (if s > old(self).max_spec() {
                    s
                } else {
                    old(self).max_spec()
                }),
            final(self).max_spec() >= old(self).max_spec(),
            !changed ==> final(self).max_spec() == old(self).max_spec(),
            !changed ==> final(self).history() == old(self).history(),
            final(self).timeline() == last_n(final(self).history(), STATS_WINDOW as nat),
            final(self).max_spec() as nat == seq_max(final(self).history()),
    {
        if now == self.now {
            return false;
        }
        let sample = random_sample();
        self.record(now, sample)
    }

    /// The pane's window title.
    pub fn title(&self) -> (r: String)
        ensures
            r@ == "WiredTiger Statistics"@,
    {
        String::from_str("WiredTiger Statistics")
    }

    /// The samples in the window, oldest first.
    pub fn samples(&self) -> (r: Vec<u32>)
        ensures
            r@ == self.timeline(),
    {
        queue_ascending(&self.stats_timeline)
    }

    /// The largest sample seen.
    pub fn max_stat(&self) -> (r: u32)
        ensures
            r == self.max_spec(),
    {
        self.max_stat
    }

    /// The instant of the latest tick that was taken.
    pub fn now(&self) -> (r: TimeStamp)
        ensures
            r == self.now_spec(),
    {
        self.now
    }
}

/// In every well-formed state the window holds at most `STATS_WINDOW`
/// samples: the most recent ones, oldest first, so that the oldest left
/// first; the recorded maximum is the largest sample ever taken, so every
/// sample in the window is at most that.
pub proof fn window_keeps_latest(s: &Stats)
    requires
        s.wf(),
    ensures
        s.timeline().len() <= STATS_WINDOW,
        s.timeline() == last_n(s.history(), STATS_WINDOW as nat),
        s.history().len() >= STATS_WINDOW ==> s.timeline().len() == STATS_WINDOW,
        s.max_spec() as nat == seq_max(s.history()),
        forall|i: int| 0 <= i < s.timeline().len() ==> s.timeline()[i] <= s.max_spec(),
{
    let h = s.history();
    assert forall|i: int| 0 <= i < s.timeline().len() implies s.timeline()[i] <= s.max_spec() by {
        let w = STATS_WINDOW as nat;
        let j = if h.len() <= w { i } else { i + h.len() - w };
        assert(s.timeline()[i] == h[j]);
        lemma_seq_max_bounds(h, j);
    }
}

proof fn lemma_seq_max_bounds(s: Seq<u32>, j: int)
    requires
        0 <= j < s.len(),
    ensures
        s[j] as nat <= seq_max(s),
    decreases s.len(),
{
    if j < s.len() - 1 {
        assert(s.drop_last()[j] == s[j]);
        lemma_seq_max_bounds(s.drop_last(), j);
    }
}

} // verus!
