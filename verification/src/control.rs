//! The polling loop's decision rule.  Each cycle reads the peer
//! count, then either plays (connected), quietly backs off for a few
//! cycles (freshly disconnected), or re-advertises (still
//! disconnected after the grace window).  The retry counter is never
//! reset: once past the threshold it stays there while disconnected.

use vstd::prelude::*;

verus! {

/// Number of quiet disconnected cycles before re-advertising starts.
pub const RETRY_THRESHOLD: u8 = 2;
/// Sleep between two loop cycles, in ms.
pub const CYCLE_INTERVAL_MS: u32 = 5000;
/// The retry counter's value when the loop starts.
pub const INITIAL_RETRY_COUNT: u8 = 0;

/// What one loop cycle does after the connection check.
#[derive(Clone, Copy, PartialEq, Eq, Structural, Debug)]
pub enum CycleAction {
    /// A peer is connected: send one play/pause pulse.
    PlayPause,
    /// Disconnected, still in the grace window: wait, count the cycle.
    Backoff,
    /// Disconnected past the grace window: restart advertising.
    Advertise,
}

/// The action of one cycle, from the retry counter and whether a
/// peer is connected at check time.
pub open spec fn cycle_action(counter: u8, connected: bool) -> CycleAction {
    if connected {
        CycleAction::PlayPause
    } else if counter > RETRY_THRESHOLD {
        CycleAction::Advertise
    } else {
        CycleAction::Backoff
    }
}

/// The retry counter after one cycle: up by one (saturating, hence
/// exact below the threshold) on a backoff cycle, unchanged otherwise.
pub open spec fn counter_after(counter: u8, connected: bool) -> u8 {
    if !connected && counter <= RETRY_THRESHOLD {
        (counter + 1) as u8
    } else {
        counter
    }
}

/// Whether at least one peer is connected, from the stack's peer count.
pub fn connected(peer_count: usize) -> (r: bool)
    ensures
        r == (peer_count > 0),
{
    peer_count > 0
}

/// One cycle of the loop: the action to take and the new counter.
pub fn cycle_step(counter: u8, connected: bool) -> (r: (CycleAction, u8))
    ensures
        r.0 == cycle_action(counter, connected),
        r.1 == counter_after(counter, connected),
        connected ==> r.0 == CycleAction::PlayPause && r.1 == counter,
        !connected && counter > RETRY_THRESHOLD ==> r.0 == CycleAction::Advertise && r.1 == counter,
        !connected && counter <= RETRY_THRESHOLD ==> r.0 == CycleAction::Backoff && r.1 == counter + 1,
{
    if connected {
        (CycleAction::PlayPause, counter)
    } else if counter > RETRY_THRESHOLD {
        (CycleAction::Advertise, counter)
    } else {
        (CycleAction::Backoff, counter.saturating_add(1))
    }
}

/// The retry counter after a run of cycles with the given
/// connection readings, oldest first.
pub open spec fn counter_after_run(counter: u8, events: Seq<bool>) -> u8
    decreases events.len(),
{
    if events.len() == 0 {
        counter
    } else {
        counter_after_run(counter_after(counter, events[0]), events.skip(1))
    }
}

/// The actions of a run of cycles with the given connection
/// readings, oldest first, one action per cycle.
pub open spec fn run_actions(counter: u8, events: Seq<bool>) -> Seq<CycleAction>
    decreases events.len(),
{
    if events.len() == 0 {
        Seq::empty()
    } else {
        seq![cycle_action(counter, events[0])]
            + run_actions(counter_after(counter, events[0]), events.skip(1))
    }
}

/// A run has one action per cycle.
pub proof fn lemma_run_actions_len(counter: u8, events: Seq<bool>)
    ensures
        run_actions(counter, events).len() == events.len(),
    decreases events.len(),
{
    if events.len() > 0 {
        lemma_run_actions_len(counter_after(counter, events[0]), events.skip(1));
    }
}

/// While disconnected inside the grace window (counter at most the
/// threshold), one cycle raises the counter by exactly one and does
/// not advertise.
pub proof fn lemma_backoff_cycle(v: u8)
    requires
        v <= RETRY_THRESHOLD,
    ensures
        cycle_action(v, false) == CycleAction::Backoff,
        cycle_action(v, false) != CycleAction::Advertise,
        counter_after(v, false) == v + 1,
{
}

/// A disconnected cycle never lowers the retry counter, whatever it
/// holds, and never takes it past the threshold plus one.
pub proof fn lemma_counter_monotone(v: u8)
    ensures
        counter_after(v, false) >= v,
        counter_after(v, false) <= RETRY_THRESHOLD + 1 || counter_after(v, false) == v,
{
}

/// Whenever a peer is connected at check time, the cycle sends
/// exactly one play/pause pulse and leaves the counter unchanged,
/// whatever the retry counter holds.
pub proof fn lemma_connected_plays(v: u8)
    ensures
        cycle_action(v, true) == CycleAction::PlayPause,
        counter_after(v, true) == v,
{
}

/// Once the counter stands above the threshold while disconnected,
/// every later cycle of a run that stays disconnected advertises,
/// and the counter never moves again during that run.
pub proof fn lemma_retry_persists(v: u8, events: Seq<bool>)
    requires
        v > RETRY_THRESHOLD,
        forall|i: int| 0 <= i < events.len() ==> events[i] == false,
    ensures
        counter_after_run(v, events) == v,
        forall|i: int|
            0 <= i < events.len() ==> #[trigger] run_actions(v, events)[i]
                == CycleAction::Advertise,
    decreases events.len(),
{
    lemma_run_actions_len(v, events);
    if events.len() > 0 {
        assert(events[0] == false);
        assert(counter_after(v, false) == v);
        let tail = events.skip(1);
        assert(forall|i: int| 0 <= i < tail.len() ==> tail[i] == events[i + 1]);
        lemma_retry_persists(v, tail);
        lemma_run_actions_len(v, tail);
        assert forall|i: int| 0 <= i < events.len() implies #[trigger] run_actions(v, events)[i]
            == CycleAction::Advertise by {
            if i == 0 {
                assert(run_actions(v, events)[0] == cycle_action(v, false));
            } else {
                assert(run_actions(v, events)[i] == run_actions(v, tail)[i - 1]);
            }
        }
    }
}

} // verus!
