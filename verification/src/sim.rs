//! The simulation's fixed time step, and the order in which a frame hands inputs to the
//! game. The simulation runs at a set rate, divorced from the render rate: time that
//! passes is accumulated and spent in whole physics frames.

use vstd::prelude::*;
use crate::events::Event;
use crate::input::Input;

verus! {

/// Nanoseconds in a second.
pub const NANOS_PER_SEC: u64 = 1_000_000_000;

/// The fixed time step bookkeeping of the simulation.
pub struct SimClock {
    physics_frame_time: u64,
    physics_accumulated_time: u64,
    frame_accumulated_time: u64,
}

impl SimClock {
    /// Nanoseconds per physics frame.
    pub closed spec fn frame_time(&self) -> u64 {
        self.physics_frame_time
    }

    /// Nanoseconds simulated so far.
    pub closed spec fn physics_time(&self) -> u64 {
        self.physics_accumulated_time
    }

    /// Nanoseconds that passed and have not been simulated yet.
    pub closed spec fn pending_time(&self) -> u64 {
        self.frame_accumulated_time
    }

    /// The number of whole physics frames that the pending time pays for.
    pub open spec fn frames_due(&self) -> int {
        self.pending_time() as int / self.frame_time() as int
    }

    /// A clock running at `sim_hz` frames per second, whose simulated time starts at
    /// `frame_time_offset` nanoseconds. The frame time is a whole number of nanoseconds,
    /// rounded down; the rate must leave it above zero.
    pub fn new(sim_hz: u32, frame_time_offset: u64) -> (clock: Self)
        requires
            1 <= sim_hz <= NANOS_PER_SEC,
        ensures
            clock.frame_time() == NANOS_PER_SEC as int / (sim_hz as int),
            clock.frame_time() > 0,
            clock.physics_time() == frame_time_offset,
            clock.pending_time() == 0,
    {
        let physics_frame_time = NANOS_PER_SEC / (sim_hz as u64);
        assert(physics_frame_time > 0) by (nonlinear_arith)
            requires
                1 <= sim_hz <= NANOS_PER_SEC,
                physics_frame_time == NANOS_PER_SEC / (sim_hz as u64),
        ;
        SimClock {
            physics_frame_time,
            physics_accumulated_time: frame_time_offset,
            frame_accumulated_time: 0,
        }
    }

    /// Nanoseconds per physics frame.
    pub fn frame_nanos(&self) -> (n: u64)
        ensures
            n == self.frame_time(),
    {
        self.physics_frame_time
    }

    /// Nanoseconds simulated so far.
    pub fn physics_nanos(&self) -> (n: u64)
        ensures
            n == self.physics_time(),
    {
        self.physics_accumulated_time
    }

    /// Nanoseconds that passed and have not been simulated yet.
    pub fn pending_nanos(&self) -> (n: u64)
        ensures
            n == self.pending_time(),
    {
        self.frame_accumulated_time
    }

    /// Adds the real time that passed since the previous frame.
    pub fn accumulate(&mut self, elapsed: u64)
        requires
            old(self).pending_time() + elapsed <= u64::MAX,
        ensures
            final(self).pending_time() == old(self).pending_time() + elapsed,
            final(self).physics_time() == old(self).physics_time(),
            final(self).frame_time() == old(self).frame_time(),
    {
        self.frame_accumulated_time = self.frame_accumulated_time + elapsed;
    }

    /// Spends one physics frame of the pending time, if there is that much. Returns
    /// whether a frame was spent; the simulation then runs one update.
    pub fn step(&mut self) -> (stepped: bool)
        requires
            old(self).frame_time() > 0,
            old(self).pending_time() >= old(self).frame_time() ==> old(self).physics_time()
                + old(self).frame_time() <= u64::MAX,
        ensures
            final(self).frame_time() == old(self).frame_time(),
            stepped == (old(self).pending_time() >= old(self).frame_time()),
            stepped ==> final(self).pending_time() == old(self).pending_time()
                - old(self).frame_time(),
            stepped ==> final(self).physics_time() == old(self).physics_time()
                + old(self).frame_time(),
            stepped ==> final(self).frames_due() == old(self).frames_due() - 1,
            !stepped ==> final(self).pending_time() == old(self).pending_time(),
            !stepped ==> final(self).physics_time() == old(self).physics_time(),
            !stepped ==> old(self).frames_due() == 0,
    {
        if self.frame_accumulated_time >= self.physics_frame_time {
            let ghost p = self.frame_accumulated_time as int;
            let ghost f = self.physics_frame_time as int;
            self.frame_accumulated_time = self.frame_accumulated_time - self.physics_frame_time;
            self.physics_accumulated_time = self.physics_accumulated_time + self.physics_frame_time;
            proof {
                lemma_div_sub_one(p, f);
            }
            true
        } else {
            proof {
                vstd::arithmetic::div_mod::lemma_basic_div(
                    self.frame_accumulated_time as int,
                    self.physics_frame_time as int,
                );
            }
            false
        }
    }
}

/// Spending one frame lowers the number of frames due by one.
proof fn lemma_div_sub_one(p: int, f: int)
    requires
        f > 0,
        p >= f,
    ensures
        (p - f) / f == p / f - 1,
{
    vstd::arithmetic::div_mod::lemma_div_plus_one(p - f, f);
}

/// `perm` lists every index of `events` once, in the order a frame hands the inputs to
/// the game: by time stamp, earliest first; of events with the same time stamp, the one
/// queued last comes first.
pub open spec fn frame_order(events: Seq<Event>, perm: Seq<int>) -> bool {
    &&& perm.len() == events.len()
    &&& forall|k: int| 0 <= k < perm.len() ==> 0 <= #[trigger] perm[k] < events.len()
    &&& forall|k: int, l: int| 0 <= k < l < perm.len() ==> perm[k] != perm[l]
    &&& forall|k: int, l: int|
        #![trigger perm[k], perm[l]]
        0 <= k < l < perm.len() ==> {
            ||| events[perm[k]].time < events[perm[l]].time
            ||| (events[perm[k]].time == events[perm[l]].time && perm[k] > perm[l])
        }
}

/// Distinct indices into `n` items, `n` of them, list every index.
proof fn lemma_indices_cover(perm: Seq<int>, n: int, x: int)
    requires
        perm.len() == n,
        forall|k: int| 0 <= k < n ==> 0 <= #[trigger] perm[k] < n,
        forall|k: int, l: int| 0 <= k < l < n ==> perm[k] != perm[l],
        0 <= x < n,
    ensures
        exists|k: int| 0 <= k < n && perm[k] == x,
{
    assert(perm.no_duplicates()) by {
        assert forall|i: int, j: int| 0 <= i < perm.len() && 0 <= j < perm.len() && i != j
            implies perm[i] != perm[j] by {
            if i > j {
                assert(perm[j] != perm[i]);
            }
        }
    }
    perm.unique_seq_to_set();
    vstd::set_lib::lemma_int_range(0, n);
    let range = vstd::set_lib::set_int_range(0, n);
    assert(perm.to_set().subset_of(range)) by {
        assert forall|y: int| perm.to_set().contains(y) implies range.contains(y) by {
            let k = choose|k: int| 0 <= k < perm.len() && perm[k] == y;
        }
    }
    vstd::seq_lib::seq_to_set_is_finite(perm);
    vstd::set_lib::lemma_subset_equality(perm.to_set(), range);
    assert(range.contains(x));
    assert(perm.to_set().contains(x));
}

/// Two orders that meet `frame_order` and agree before position `k` agree at `k`.
proof fn lemma_frame_order_agree_at(events: Seq<Event>, p: Seq<int>, q: Seq<int>, k: int)
    requires
        frame_order(events, p),
        frame_order(events, q),
        0 <= k < p.len(),
        forall|m: int| 0 <= m < k ==> p[m] == q[m],
    ensures
        p[k] == q[k],
{
    let n = events.len() as int;
    let a = p[k];
    let b = q[k];
    if a != b {
        lemma_indices_cover(q, n, a);
        let m = choose|m: int| 0 <= m < n && q[m] == a;
        lemma_indices_cover(p, n, b);
        let m2 = choose|m: int| 0 <= m < n && p[m] == b;
        if m < k {
            assert(p[m] == q[m]);
            assert(p[m] != p[k]);
        } else if m2 < k {
            assert(p[m2] == q[m2]);
            assert(q[m2] != q[k]);
        } else {
            assert(m > k && m2 > k);
            assert(q[k] == b && q[m] == a);
            assert(p[k] == a && p[m2] == b);
        }
    }
}

/// Two orders that meet `frame_order` agree up to position `k`.
proof fn lemma_frame_order_agree_upto(events: Seq<Event>, p: Seq<int>, q: Seq<int>, k: int)
    requires
        frame_order(events, p),
        frame_order(events, q),
        0 <= k <= p.len(),
    ensures
        forall|m: int| 0 <= m < k ==> p[m] == q[m],
    decreases k,
{
    if k > 0 {
        lemma_frame_order_agree_upto(events, p, q, k - 1);
        lemma_frame_order_agree_at(events, p, q, k - 1);
    }
}

/// The frame order of a queue of events is unique: the inputs of a frame reach the game
/// in one order only.
pub proof fn lemma_frame_order_unique(events: Seq<Event>, p: Seq<int>, q: Seq<int>)
    requires
        frame_order(events, p),
        frame_order(events, q),
    ensures
        p == q,
{
    lemma_frame_order_agree_upto(events, p, q, p.len() as int);
    assert(p =~= q);
}

/// The descending order used while sorting: by time stamp, latest first; of events with
/// the same stamp, the one queued first comes first.
spec fn descending(events: Seq<Event>, perm: Seq<int>) -> bool {
    forall|k: int, l: int|
        #![trigger perm[k], perm[l]]
        0 <= k < l < perm.len() ==> {
            ||| events[perm[k]].time > events[perm[l]].time
            ||| (events[perm[k]].time == events[perm[l]].time && perm[k] < perm[l])
        }
}

/// Takes the queued events and returns their inputs in the order the simulation feeds
/// them to the game within one frame (see `frame_order`).
pub fn order_frame_inputs(events: Vec<Event>) -> (inputs: Vec<Input>)
    ensures
        exists|perm: Seq<int>|
            frame_order(events@, perm) && inputs@ == Seq::new(
                events@.len(),
                |k: int| events@[perm[k]].input,
            ),
{
    let ghost orig = events@;
    let mut remaining = events;
    // `sorted` is kept in descending order; `perm` maps it back to `orig`.
    let mut sorted: Vec<Event> = Vec::new();
    let ghost mut perm: Seq<int> = Seq::empty();
    while remaining.len() > 0
        invariant
            remaining@ == orig.subrange(0, remaining@.len() as int),
            sorted@.len() == perm.len(),
            sorted@.len() + remaining@.len() == orig.len(),
            forall|k: int| 0 <= k < perm.len() ==> remaining@.len() <= #[trigger] perm[k] < orig.len(),
            forall|k: int| 0 <= k < perm.len() ==> sorted@[k] == orig[#[trigger] perm[k]],
            forall|k: int, l: int| 0 <= k < l < perm.len() ==> perm[k] != perm[l],
            descending(orig, perm),
        decreases remaining@.len(),
    {
        let event = remaining.pop().unwrap();
        let ghost idx = remaining@.len() as int;
        assert(event == orig[idx]);
        // Skip the events stamped strictly later.
        let mut pos: usize = 0;
        while pos < sorted.len() && sorted[pos].time > event.time
            invariant
                0 <= pos <= sorted@.len(),
                forall|k: int| 0 <= k < pos ==> sorted@[k].time > event.time,
            decreases sorted@.len() - pos,
        {
            pos = pos + 1;
        }
        let ghost old_perm = perm;
        let ghost old_sorted = sorted@;
        sorted.insert(pos, event);
        proof {
            perm = old_perm.insert(pos as int, idx);
            assert forall|k: int| 0 <= k < perm.len() implies sorted@[k] == orig[#[trigger] perm[k]] by {
                if k < pos {
                } else if k == pos {
                } else {
                    assert(perm[k] == old_perm[k - 1]);
                }
            }
            assert forall|k: int| 0 <= k < perm.len() implies remaining@.len() <= #[trigger] perm[k] < orig.len() by {
                if k < pos {
                } else if k == pos {
                } else {
                    assert(perm[k] == old_perm[k - 1]);
                }
            }
            assert forall|k: int, l: int| 0 <= k < l < perm.len() implies perm[k] != perm[l] by {
                if k < pos {
                    if l == pos {
                    } else if l > pos {
                        assert(perm[l] == old_perm[l - 1]);
                    }
                } else if k == pos {
                    assert(perm[l] == old_perm[l - 1]);
                } else {
                    assert(perm[k] == old_perm[k - 1]);
                    assert(perm[l] == old_perm[l - 1]);
                }
            }
            assert forall|k: int, l: int| 0 <= k < l < perm.len() implies {
                ||| orig[#[trigger] perm[k]].time > orig[#[trigger] perm[l]].time
                ||| (orig[perm[k]].time == orig[perm[l]].time && perm[k] < perm[l])
            } by {
                if k < pos {
                    assert(old_sorted[k].time > event.time);
                    if l == pos {
                    } else if l > pos {
                        assert(perm[l] == old_perm[l - 1]);
                        assert(old_perm[k] == perm[k]);
                    }
                } else if k == pos {
                    assert(perm[l] == old_perm[l - 1]);
                    if l - 1 < old_sorted.len() {
                        assert(old_sorted[l - 1] == orig[old_perm[l - 1]]);
                        if pos < old_sorted.len() {
                            assert(!(old_sorted[pos as int].time > event.time));
                            if l - 1 > pos {
                                assert(orig[old_perm[pos as int]].time > orig[old_perm[l - 1]].time
                                    || (orig[old_perm[pos as int]].time == orig[old_perm[l - 1]].time
                                        && old_perm[pos as int] < old_perm[l - 1]));
                            }
                        }
                    }
                } else {
                    assert(perm[k] == old_perm[k - 1]);
                    assert(perm[l] == old_perm[l - 1]);
                }
            }
        }
    }
    assert(perm.len() == orig.len());
    // Pop the sorted events: latest last, so they come out earliest first.
    let mut inputs: Vec<Input> = Vec::new();
    let ghost n = orig.len();
    while sorted.len() > 0
        invariant
            sorted@.len() + inputs@.len() == n,
            perm.len() == n,
            forall|k: int| 0 <= k < sorted@.len() ==> sorted@[k] == orig[#[trigger] perm[k]],
            forall|j: int| 0 <= j < inputs@.len() ==> #[trigger] inputs@[j] == orig[perm[n - 1 - j]].input,
        decreases sorted@.len(),
    {
        let event = sorted.pop().unwrap();
        inputs.push(event.input);
    }
    proof {
        let out_perm = Seq::new(n, |k: int| perm[n - 1 - k]);
        assert forall|k: int, l: int| 0 <= k < l < out_perm.len() implies {
            ||| orig[#[trigger] out_perm[k]].time < orig[#[trigger] out_perm[l]].time
            ||| (orig[out_perm[k]].time == orig[out_perm[l]].time && out_perm[k] > out_perm[l])
        } by {
            assert(out_perm[k] == perm[n - 1 - k]);
            assert(out_perm[l] == perm[n - 1 - l]);
        }
        assert forall|k: int, l: int| 0 <= k < l < out_perm.len() implies out_perm[k] != out_perm[l] by {
            assert(out_perm[k] == perm[n - 1 - k]);
            assert(out_perm[l] == perm[n - 1 - l]);
        }
        assert forall|k: int| 0 <= k < out_perm.len() implies 0 <= #[trigger] out_perm[k] < orig.len() by {
            assert(out_perm[k] == perm[n - 1 - k]);
        }
        assert(frame_order(orig, out_perm));
        assert(inputs@ =~= Seq::new(n, |k: int| orig[out_perm[k]].input));
    }
    inputs
}

} // verus!
