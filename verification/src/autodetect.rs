//! Baud-rate autodetection: probe a fixed candidate set, fastest first.
//!
//! The display answers correctly only at its one configured rate, so the
//! descending order is a performance preference — it finds a fast working
//! link sooner — not a correctness requirement. Each candidate gets one
//! [`Handshake`] attempt; the first success wins, and running out of
//! candidates is [`ConnectFailure::NoBaudFound`].

use vstd::prelude::*;
use vstd::seq_lib::group_to_multiset_ensures;
use crate::handshake::ConnectFailure;
use crate::handshake::Handshake;
use crate::handshake::HandshakeAction;
use crate::handshake::HandshakeEvent;
use crate::handshake::HandshakeState;
use crate::handshake::handshake_action_ok;
use crate::handshake::handshake_expects;
use crate::handshake::spec_handshake_step;

verus! {

/// Non-strictly descending order.
pub open spec fn sorted_desc(s: Seq<u32>) -> bool {
    forall|i: int, j: int| 0 <= i <= j < s.len() ==> s[i] >= s[j]
}

/// The platform's list of common baud rates, as the serial layer ships it.
pub open spec fn spec_common_baud_rates() -> Seq<u32> {
    seq![
        4800u32,
        9600u32,
        19200u32,
        38400u32,
        57600u32,
        115200u32,
        230400u32,
        460800u32,
        500000u32,
        576000u32,
        921600u32,
        1000000u32,
        1500000u32,
        2000000u32,
    ]
}

/// Relies on serial2::COMMON_BAUD_RATES: the fixed fourteen-entry list of
/// common baud rates, identical on every platform.
#[verifier::external_body]
fn common_baud_rates() -> (r: Vec<u32>)
    ensures
        r@ == spec_common_baud_rates(),
{
    serial2::COMMON_BAUD_RATES.to_vec()
}

/// Sort the rates into descending order by insertion, keeping exactly the
/// same collection of values.
pub fn sort_descending(v: &mut Vec<u32>)
    ensures
        sorted_desc(final(v)@),
        final(v)@.to_multiset() == old(v)@.to_multiset(),
        final(v)@.len() == old(v)@.len(),
{
    let ghost orig: Seq<u32> = v@;
    let mut i: usize = 1;
    while i < v.len()
        invariant
            1 <= i,
            v@.len() == orig.len(),
            v@.to_multiset() == orig.to_multiset(),
            forall|a: int, b: int| 0 <= a <= b < i && b < v@.len() ==> v@[a] >= v@[b],
        decreases v@.len() - i,
    {
        let x = v[i];
        let mut p: usize = 0;
        while p < i && v[p] >= x
            invariant
                0 <= p <= i < v@.len(),
                forall|j: int| 0 <= j < p ==> v@[j] >= x,
            decreases i - p,
        {
            p = p + 1;
        }
        let ghost s0: Seq<u32> = v@;
        let ghost idx: int = i as int;
        let ghost pp: int = p as int;
        let xv = v.remove(i);
        v.insert(p, xv);
        i = i + 1;
        proof {
            broadcast use group_to_multiset_ensures;

            let s2 = v@;
            assert(s2 == s0.remove(idx).insert(pp, x));
            assert(s0.remove(idx).to_multiset() == s0.to_multiset().remove(x));
            assert(s2.to_multiset() == s0.to_multiset().remove(x).insert(x));
            assert(s0.contains(x));
            assert(s0.to_multiset().count(x) > 0);
            assert(s2.to_multiset() =~= s0.to_multiset());

            assert forall|k: int| 0 <= k < s2.len() implies s2[k] == (if k < pp {
                s0[k]
            } else if k == pp {
                x
            } else if k <= idx {
                s0[k - 1]
            } else {
                s0[k]
            }) by {}
            assert forall|a: int, b: int| 0 <= a <= b < i && b < s2.len() implies s2[a]
                >= s2[b] by {
                if pp < idx {
                    assert(s0[pp] < x);
                }
            }
        }
    }
}

/// The candidate baud rates for autodetection: the platform's common
/// rates, sorted fastest first. Every candidate is positive.
pub fn autodetect_candidates() -> (r: Vec<u32>)
    ensures
        sorted_desc(r@),
        r@.to_multiset() == spec_common_baud_rates().to_multiset(),
        r@.len() == spec_common_baud_rates().len(),
        r@.len() > 0,
        forall|i: int| 0 <= i < r@.len() ==> r@[i] > 0,
{
    let mut v = common_baud_rates();
    sort_descending(&mut v);
    proof {
        broadcast use group_to_multiset_ensures;

        assert forall|i: int| 0 <= i < v@.len() implies v@[i] > 0 by {
            assert(v@.contains(v@[i]));
            assert(v@.to_multiset().count(v@[i]) > 0);
            assert(spec_common_baud_rates().contains(v@[i]));
            let j = choose|j: int|
                0 <= j < spec_common_baud_rates().len() && spec_common_baud_rates()[j] == v@[i];
            assert(spec_common_baud_rates()[j] > 0);
        }
    }
    v
}

/// The autodetection loop: one handshake attempt per candidate, in the
/// order the candidate vector gives, advancing only on failure.
pub struct Autodetect {
    /// The candidate rates, fastest first, fixed for the whole run.
    pub candidates: Vec<u32>,
    /// Which candidate the current attempt probes; equal to the number of
    /// candidates once all have failed.
    pub index: usize,
    /// The handshake attempt at `candidates[index]`.
    pub attempt: Handshake,
}

impl Autodetect {
    /// The candidates are descending and positive, the index never passes
    /// the end, and the live attempt always probes `candidates[index]`;
    /// a failed attempt is never left sitting — it either advances the
    /// index or ends the run.
    pub open spec fn wf(self) -> bool {
        &&& sorted_desc(self.candidates@)
        &&& (forall|i: int| 0 <= i < self.candidates@.len() ==> self.candidates@[i] > 0)
        &&& self.index <= self.candidates@.len()
        &&& (self.index < self.candidates@.len() ==> self.attempt.wf() && self.attempt.baud
            == self.candidates@[self.index as int] && !(self.attempt.state is Failed))
    }

    /// The run is over: a handshake succeeded, or every candidate failed.
    pub open spec fn spec_done(self) -> bool {
        self.index == self.candidates@.len() || self.attempt.state is Established
    }

    /// Begin an autodetection run over `candidates`, sorted here into
    /// descending order; the first attempt probes the fastest rate.
    pub fn new(candidates: Vec<u32>) -> (r: Autodetect)
        requires
            candidates@.len() > 0,
            forall|i: int| 0 <= i < candidates@.len() ==> candidates@[i] > 0,
        ensures
            r.wf(),
            !r.spec_done(),
            sorted_desc(r.candidates@),
            r.candidates@.to_multiset() == candidates@.to_multiset(),
            r.candidates@.len() == candidates@.len(),
            r.index == 0,
            r.attempt.state is Opening,
            r.attempt.baud == r.candidates@[0],
    {
        let mut c = candidates;
        let ghost given: Seq<u32> = c@;
        sort_descending(&mut c);
        proof {
            broadcast use group_to_multiset_ensures;

            assert forall|i: int| 0 <= i < c@.len() implies c@[i] > 0 by {
                assert(c@.contains(c@[i]));
                assert(c@.to_multiset().count(c@[i]) > 0);
                assert(given.contains(c@[i]));
            }
        }
        let baud = c[0];
        let attempt = Handshake::new(baud);
        Autodetect { candidates: c, index: 0, attempt }
    }

    /// Begin an autodetection run over the platform's common baud rates.
    pub fn with_common_rates() -> (r: Autodetect)
        ensures
            r.wf(),
            !r.spec_done(),
            r.index == 0,
            r.candidates@.to_multiset() == spec_common_baud_rates().to_multiset(),
            r.candidates@.len() == spec_common_baud_rates().len(),
    {
        let candidates = autodetect_candidates();
        Autodetect::new(candidates)
    }

    /// The rate the current attempt probes, for per-attempt status output.
    pub fn current_baud(&self) -> (r: u32)
        requires
            self.wf(),
            !self.spec_done(),
        ensures
            r == self.candidates@[self.index as int],
            r > 0,
    {
        self.candidates[self.index]
    }

    /// The next transport operation of the current handshake attempt.
    pub fn next_action(&self) -> (a: HandshakeAction)
        requires
            self.wf(),
            !self.spec_done(),
        ensures
            handshake_action_ok(self.attempt, a),
    {
        self.attempt.next_action()
    }

    /// Feed the current attempt what its action yielded. A success ends
    /// the run at the current candidate; a failure moves to the next
    /// candidate, or ends the run with no rate found when none is left.
    pub fn step(&mut self, e: HandshakeEvent)
        requires
            old(self).wf(),
            !old(self).spec_done(),
            handshake_expects(old(self).attempt.state, e),
        ensures
            final(self).wf(),
            final(self).candidates@ == old(self).candidates@,
            ({
                let next = spec_handshake_step(old(self).attempt.state, e);
                let before = *old(self);
                let after = *final(self);
                match next {
                    HandshakeState::Established => after.index == before.index
                        && after.attempt.state is Established && after.attempt.baud
                        == before.attempt.baud,
                    HandshakeState::Failed(_) => if before.index + 1 < before.candidates@.len() {
                        after.index == before.index + 1 && after.attempt.state is Opening
                            && after.attempt.baud == before.candidates@[before.index + 1]
                    } else {
                        after.index == before.candidates@.len()
                    },
                    _ => after.index == before.index && after.attempt.baud == before.attempt.baud
                        && after.attempt.state == next,
                }
            }),
    {
        let len = self.candidates.len();
        proof {
            assert(self.index < len);
        }
        self.attempt.step(e);
        let failed = match self.attempt.state {
            HandshakeState::Failed(_) => true,
            _ => false,
        };
        if failed {
            let next_index = self.index + 1;
            if next_index < len {
                self.index = next_index;
                self.attempt = Handshake::new(self.candidates[next_index]);
            } else {
                self.index = len;
            }
        }
    }

    /// Whether the run is over.
    pub fn is_done(&self) -> (r: bool)
        ensures
            r == self.spec_done(),
    {
        if self.index == self.candidates.len() {
            true
        } else {
            match self.attempt.state {
                HandshakeState::Established => true,
                _ => false,
            }
        }
    }

    /// The outcome: the established baud rate, `NoBaudFound` once every
    /// candidate has failed, or nothing while the run is under way.
    pub fn outcome(&self) -> (r: Option<Result<u32, ConnectFailure>>)
        requires
            self.wf(),
        ensures
            r == (if self.index == self.candidates@.len() {
                Some(Err::<u32, ConnectFailure>(ConnectFailure::NoBaudFound))
            } else if self.attempt.state is Established {
                Some(Ok::<u32, ConnectFailure>(self.candidates@[self.index as int]))
            } else {
                None::<Result<u32, ConnectFailure>>
            }),
    {
        if self.index == self.candidates.len() {
            Some(Err(ConnectFailure::NoBaudFound))
        } else {
            match self.attempt.state {
                HandshakeState::Established => Some(Ok(self.attempt.baud)),
                _ => None,
            }
        }
    }
}

/// Candidates are probed fastest first: an attempt that comes later in the
/// run never probes a higher rate than an earlier one.
pub proof fn lemma_autodetect_descending(d: Autodetect, i: int, j: int)
    requires
        d.wf(),
        0 <= i <= j < d.candidates@.len(),
    ensures
        d.candidates@[i] >= d.candidates@[j],
{
}

} // verus!
