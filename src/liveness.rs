//! Liveness of a wirelessly paired device: deciding alive from a probe's
//! response, and turning a stream of probe results into transitions that fire
//! once per change.
use vstd::prelude::*;

verus! {

/// Interval between two liveness probes, in milliseconds.
pub const LIVENESS_POLL_INTERVAL_MS: u64 = 2000;

/// Last observed state of one device slot.
#[derive(Debug, Clone, Copy, PartialEq, Eq)]
pub enum Liveness {
    Unknown,
    Alive,
    NotAlive,
}

/// A detected change of state.
#[derive(Debug, Clone, Copy, PartialEq, Eq)]
pub enum Transition {
    BecameAlive,
    BecameNotAlive,
}

pub open spec fn liveness_of(alive: bool) -> Liveness {
    if alive {
        Liveness::Alive
    } else {
        Liveness::NotAlive
    }
}

pub open spec fn transition_to(alive: bool) -> Transition {
    if alive {
        Transition::BecameAlive
    } else {
        Transition::BecameNotAlive
    }
}

/// One probe result: the first probe only sets the state; later ones fire a
/// transition exactly when the state changes.
pub open spec fn liveness_step(state: Liveness, alive: bool) -> (Liveness, Option<Transition>) {
    let next = liveness_of(alive);
    if state == Liveness::Unknown || state == next {
        (next, None)
    } else {
        (next, Some(transition_to(alive)))
    }
}

/// State and fired transitions after feeding `probes` in order, from `start`.
pub open spec fn liveness_run(start: Liveness, probes: Seq<bool>) -> (Liveness, Seq<Option<Transition>>)
    decreases probes.len(),
{
    if probes.len() == 0 {
        (start, Seq::empty())
    } else {
        let (state, fired) = liveness_run(start, probes.drop_last());
        let (next, t) = liveness_step(state, probes.last());
        (next, fired.push(t))
    }
}

/// Detector of power transitions, fed with the result of each periodic probe.
pub struct LivenessTracker {
    pub state: Liveness,
}

impl LivenessTracker {
    pub fn new() -> (r: Self)
        ensures
            r.state == Liveness::Unknown,
    {
        LivenessTracker { state: Liveness::Unknown }
    }

    /// Records one probe result and returns the transition it causes, if any.
    pub fn observe(&mut self, alive: bool) -> (r: Option<Transition>)
        ensures
            (final(self).state, r) == liveness_step(old(self).state, alive),
    {
        let next = if alive {
            Liveness::Alive
        } else {
            Liveness::NotAlive
        };
        let fired = match self.state {
            Liveness::Unknown => None,
            Liveness::Alive => if alive {
                None
            } else {
                Some(Transition::BecameNotAlive)
            },
            Liveness::NotAlive => if alive {
                Some(Transition::BecameAlive)
            } else {
                None
            },
        };
        self.state = next;
        fired
    }

    /// Whether the device counts as alive: not until a probe has succeeded.
    pub fn is_alive(&self) -> (r: bool)
        ensures
            r == (self.state == Liveness::Alive),
    {
        match self.state {
            Liveness::Alive => true,
            _ => false,
        }
    }
}

/// A liveness probe's verdict on the status byte of the firmware-version
/// response: alive exactly when the device answered "successful".
pub fn response_shows_alive(resp: &[u8]) -> (r: bool)
    ensures
        r == (resp@.len() >= 1 && resp@[0] == crate::consts::RAZER_CMD_SUCCESSFUL),
{
    resp.len() >= 1 && resp[0] == crate::consts::RAZER_CMD_SUCCESSFUL
}

/// Fed from the start with a sequence of probe results, the tracker fires a
/// transition at position `i` exactly when `i > 0` and the result differs
/// from the one before, toward the new result; a repeated result fires
/// nothing.
pub proof fn lemma_transitions_fire_on_change(probes: Seq<bool>)
    ensures
        liveness_run(Liveness::Unknown, probes).1.len() == probes.len(),
        forall|i: int|
            0 <= i < probes.len() ==> (#[trigger] liveness_run(Liveness::Unknown, probes).1[i] is Some
                <==> (i > 0 && probes[i] != probes[i - 1])),
        forall|i: int|
            0 <= i < probes.len() && #[trigger] liveness_run(Liveness::Unknown, probes).1[i] is Some
                ==> liveness_run(Liveness::Unknown, probes).1[i]->0 == transition_to(probes[i]),
    decreases probes.len(),
{
    if probes.len() > 0 {
        let prefix = probes.drop_last();
        lemma_transitions_fire_on_change(prefix);
        lemma_run_state(prefix);
        let (state, fired) = liveness_run(Liveness::Unknown, prefix);
        let fired_all = liveness_run(Liveness::Unknown, probes).1;
        assert forall|i: int| 0 <= i < prefix.len() implies fired_all[i] == fired[i]
            && prefix[i] == probes[i] && (i > 0 ==> prefix[i - 1] == probes[i - 1]) by {}
    }
}

/// After at least one probe the state is that of the last result.
pub proof fn lemma_run_state(probes: Seq<bool>)
    ensures
        probes.len() == 0 ==> liveness_run(Liveness::Unknown, probes).0 == Liveness::Unknown,
        probes.len() > 0 ==> liveness_run(Liveness::Unknown, probes).0 == liveness_of(probes.last()),
{
}

} // verus!
