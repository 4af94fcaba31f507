//! The handshake shared by the capture and playback sides: an armed flag plus
//! the monotonic time at which tone emission began (`0` is the "not yet
//! recorded" sentinel). In a running measurement session the two fields live
//! in lock-free atomics owned jointly by the two stream callbacks; each
//! operation here is the sequential meaning of one such atomic step, and the
//! spec transition functions beside them are the state machine the detector
//! and transmitter drive.

use vstd::prelude::*;

verus! {

/// Cross-thread handshake state. `armed` is written by the detector and read
/// by the transmitter; `emission_start_ns` is stamped by the transmitter and
/// read back by the detector when it disarms.
#[derive(PartialEq, Eq, Structural, Clone, Copy, Debug)]
pub struct RoundTripState {
    pub armed: bool,
    pub emission_start_ns: u64,
}

/// The state a session starts in: disarmed, stamp at the sentinel.
pub open spec fn initial_state() -> RoundTripState {
    RoundTripState { armed: false, emission_start_ns: 0 }
}

/// Transition taken on a silent capture block: arm, and on a fresh arming
/// reset the stamp to the sentinel so the cycle waits for a new one. A block
/// that finds the state already armed changes nothing.
pub open spec fn silent_step(s: RoundTripState) -> RoundTripState {
    if s.armed {
        s
    } else {
        RoundTripState { armed: true, emission_start_ns: 0 }
    }
}

/// Transition taken on a loud capture block: disarm. The stamp is left in
/// place; the next fresh arming resets it.
pub open spec fn loud_step(s: RoundTripState) -> RoundTripState {
    RoundTripState { armed: false, emission_start_ns: s.emission_start_ns }
}

/// Transition taken on a stamp attempt at time `now_ns`: the time is recorded
/// only over the sentinel, so at most one stamp lands per arming cycle.
pub open spec fn stamp_step(s: RoundTripState, now_ns: u64) -> RoundTripState {
    if s.emission_start_ns == 0 {
        RoundTripState { armed: s.armed, emission_start_ns: now_ns }
    } else {
        s
    }
}

impl RoundTripState {
    /// A fresh session state: disarmed, stamp unset.
    pub fn new() -> (s: Self)
        ensures
            s == initial_state(),
    {
        RoundTripState { armed: false, emission_start_ns: 0 }
    }

    /// Arm unless already armed; returns whether this call performed the
    /// transition. The stamp is untouched (the caller resets it on a fresh
    /// arming).
    pub fn try_arm(&mut self) -> (newly_armed: bool)
        ensures
            final(self).armed,
            final(self).emission_start_ns == old(self).emission_start_ns,
            newly_armed == !old(self).armed,
    {
        let was_armed = self.armed;
        self.armed = true;
        !was_armed
    }

    /// Clear `armed`; returns whether the state had been armed together with
    /// the stored emission stamp, which is left in place.
    pub fn disarm_and_read_emission_start(&mut self) -> (r: (bool, u64))
        ensures
            *final(self) == loud_step(*old(self)),
            r.0 == old(self).armed,
            r.1 == old(self).emission_start_ns,
    {
        let was_armed = self.armed;
        self.armed = false;
        (was_armed, self.emission_start_ns)
    }

    /// Record `now_ns` as the emission start, but only over the sentinel:
    /// once a stamp has landed, later attempts in the same arming cycle
    /// change nothing. Returns whether this call found the sentinel.
    pub fn stamp_emission_start_once(&mut self, now_ns: u64) -> (found_sentinel: bool)
        ensures
            *final(self) == stamp_step(*old(self), now_ns),
            found_sentinel == (old(self).emission_start_ns == 0),
    {
        if self.emission_start_ns == 0 {
            self.emission_start_ns = now_ns;
            true
        } else {
            false
        }
    }

    /// Reset the stamp to the sentinel; the detector does this on a fresh
    /// arming so a stale stamp cannot serve the new cycle.
    pub fn reset_emission_start(&mut self)
        ensures
            final(self).armed == old(self).armed,
            final(self).emission_start_ns == 0,
    {
        self.emission_start_ns = 0;
    }
}

/// Law: a silent block arms a disarmed state exactly once. A fresh arming
/// yields the armed state with the stamp reset; a silent block that finds the
/// state already armed leaves it untouched (in particular it never re-resets
/// a stamp that has landed), so repeated silent blocks are idempotent.
pub proof fn lemma_silent_block_arms_once(s: RoundTripState)
    ensures
        !s.armed ==> silent_step(s) == (RoundTripState { armed: true, emission_start_ns: 0 }),
        s.armed ==> silent_step(s) == s,
        silent_step(silent_step(s)) == silent_step(s),
{
}

/// Law: a loud block disarms and only disarms — the stamp survives until the
/// next fresh arming resets it, and a second loud block finds the state
/// already disarmed and changes nothing further.
pub proof fn lemma_loud_block_disarms(s: RoundTripState)
    ensures
        !loud_step(s).armed,
        loud_step(s).emission_start_ns == s.emission_start_ns,
        loud_step(loud_step(s)) == loud_step(s),
{
}

/// Law: stamping is idempotent after its first success within an arming
/// cycle — once a nonzero time is recorded, every later stamp attempt before
/// the next reset changes nothing.
pub proof fn lemma_stamp_once_idempotent(s: RoundTripState, t1: u64, t2: u64)
    requires
        t1 != 0,
    ensures
        stamp_step(stamp_step(s, t1), t2) == stamp_step(s, t1),
        s.emission_start_ns != 0 ==> stamp_step(s, t1) == s,
{
}

/// Law: a full round trip cannot leak a stale stamp into the next cycle.
/// From a disarmed state, arming, stamping, disarming on detection and
/// re-arming ends armed with the sentinel restored, whatever time the
/// previous cycle stamped.
pub proof fn lemma_round_trip_resets_stamp(s: RoundTripState, t: u64)
    requires
        !s.armed,
    ensures
        silent_step(loud_step(stamp_step(silent_step(s), t)))
            == (RoundTripState { armed: true, emission_start_ns: 0 }),
{
}

} // verus!
