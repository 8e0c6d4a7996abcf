//! The state reconciler: the per-cycle decisions of the outbound
//! activity. Each poll cycle first reports a local indicator transition
//! (edge-triggered send), then offers at most one queued remote message
//! to the reconciliation check (echo-avoiding apply). The caller reads
//! the indicator freshly before each decision and carries the decisions
//! out; the functions here only decide.

use vstd::prelude::*;

use crate::message::spec_parse;
use crate::message::spec_payload;

verus! {

/// The outbound activity's cached copy of the indicator, held only to
/// detect local transitions. It is refreshed on every decision and is
/// never authoritative: the real indicator lives in the OS and can be
/// changed by the user at any moment.
pub struct Reconciler {
    /// The indicator value this session last observed or applied.
    pub last_known: bool,
}

/// The edge-triggered send decision: a message is produced exactly when
/// the freshly read indicator differs from the cached copy, and the
/// cache is refreshed to the fresh reading either way.
pub open spec fn spec_poll(last_known: bool, current: bool) -> (Option<bool>, bool) {
    if current != last_known {
        (Some(current), current)
    } else {
        (None, last_known)
    }
}

/// The echo-avoiding apply decision: a received payload produces a
/// write exactly when it parses and its desired value differs from the
/// freshly re-read indicator. A message that merely confirms the
/// current value, or does not parse, changes nothing.
pub open spec fn spec_apply(last_known: bool, payload: Seq<char>, current: bool) -> (Option<
    bool,
>, bool) {
    match spec_parse(payload) {
        Some(desired) => if desired != current {
            (Some(desired), desired)
        } else {
            (None, last_known)
        },
        None => (None, last_known),
    }
}

/// The indicator value after a write decision has been carried out by
/// the adapter: a `Some` decision sets that value, `None` leaves the
/// indicator alone.
pub open spec fn apply_effect(current: bool, write: Option<bool>) -> bool {
    match write {
        Some(desired) => desired,
        None => current,
    }
}

impl Reconciler {
    /// Starts a session's reconciler from the baseline reading taken on
    /// session entry.
    pub fn new(initial: bool) -> (r: Self)
        ensures
            r.last_known == initial,
    {
        Reconciler { last_known: initial }
    }

    /// The first half of a poll cycle. `current` is a fresh adapter
    /// reading; the result is the state to send to the relay, produced
    /// only on an observed transition.
    pub fn poll_local(&mut self, current: bool) -> (send: Option<bool>)
        ensures
            (send, final(self).last_known) == spec_poll(old(self).last_known, current),
    {
        if current != self.last_known {
            self.last_known = current;
            Some(current)
        } else {
            None
        }
    }

    /// The second half of a poll cycle, run when a remote message was
    /// drained from the inbound queue. `current` is a fresh adapter
    /// reading taken after the message arrived; the result is the value
    /// to write to the indicator, produced only when the message parses
    /// and actually differs from that reading.
    pub fn apply_remote(&mut self, payload: &str, current: bool) -> (write: Option<bool>)
        ensures
            (write, final(self).last_known) == spec_apply(
                old(self).last_known,
                payload@,
                current,
            ),
    {
        match crate::message::parse_payload(payload) {
            Some(desired) => if desired != current {
                self.last_known = desired;
                Some(desired)
            } else {
                None
            },
            None => None,
        }
    }
}

/// Law: applying the same remote message twice in a row never produces
/// a second write, and an indicator already at the message's value is
/// not written at all — the second application always leaves the
/// indicator exactly where the first left it.
pub proof fn lemma_apply_idempotent(last_known: bool, current: bool, payload: Seq<char>)
    ensures
        ({
            let (write1, last1) = spec_apply(last_known, payload, current);
            let settled = apply_effect(current, write1);
            let (write2, _) = spec_apply(last1, payload, settled);
            write2 == None::<bool> && apply_effect(settled, write2) == settled
        }),
{
}

/// The messages a run of poll cycles sends, in order, when the cycles'
/// fresh indicator readings are `readings` and no remote message is
/// applied in between.
pub open spec fn spec_sends(last_known: bool, readings: Seq<bool>) -> Seq<bool>
    decreases readings.len(),
{
    if readings.len() == 0 {
        Seq::empty()
    } else {
        let (send, next) = spec_poll(last_known, readings[0]);
        match send {
            Some(v) => seq![v] + spec_sends(next, readings.drop_first()),
            None => spec_sends(next, readings.drop_first()),
        }
    }
}

/// Law: every message pushed outward corresponds to an observed
/// transition of the indicator — the first send differs from the cached
/// value, and no two consecutive sends carry the same value, whatever
/// the indicator does in between.
pub proof fn lemma_sends_are_transitions(last_known: bool, readings: Seq<bool>)
    ensures
        ({
            let sends = spec_sends(last_known, readings);
            &&& (sends.len() > 0 ==> sends[0] != last_known)
            &&& forall|i: int| 0 <= i < sends.len() - 1 ==> #[trigger] sends[i] != sends[i + 1]
        }),
    decreases readings.len(),
{
    if readings.len() > 0 {
        let r0 = readings[0];
        let rest = readings.drop_first();
        if r0 != last_known {
            lemma_sends_are_transitions(r0, rest);
            let tail = spec_sends(r0, rest);
            let sends = spec_sends(last_known, readings);
            assert(sends == seq![r0] + tail);
            assert forall|i: int| 0 <= i < sends.len() - 1 implies #[trigger] sends[i] != sends[i
                + 1] by {
                if i == 0 {
                    assert(sends[0] == r0);
                    assert(sends[1] == tail[0]);
                } else {
                    assert(sends[i] == tail[i - 1]);
                    assert(sends[i + 1] == tail[i]);
                }
            }
        } else {
            lemma_sends_are_transitions(last_known, rest);
        }
    }
}

/// Law: if the indicator value never changes across any number of poll
/// cycles, the outbound activity sends at most one message — and none
/// at all when the cache already matches, as it does right after the
/// baseline send, so steady state is silent beyond that baseline.
pub proof fn lemma_edge_triggered(last_known: bool, current: bool, readings: Seq<bool>)
    requires
        forall|i: int| 0 <= i < readings.len() ==> readings[i] == current,
    ensures
        spec_sends(last_known, readings).len() <= 1,
        last_known == current ==> spec_sends(last_known, readings).len() == 0,
    decreases readings.len(),
{
    if readings.len() > 0 {
        let rest = readings.drop_first();
        assert(forall|i: int| 0 <= i < rest.len() ==> rest[i] == readings[i + 1]);
        if readings[0] != last_known {
            lemma_edge_triggered(readings[0], current, rest);
        } else {
            lemma_edge_triggered(last_known, current, rest);
        }
    }
}

/// Law: when one client observes a local transition, the message it
/// sends brings any peer's indicator to the same value once the peer's
/// reconciliation step runs on it, whether the peer writes or was
/// already there.
pub proof fn lemma_eventual_consistency(
    last_a: bool,
    current_a: bool,
    last_b: bool,
    current_b: bool,
)
    requires
        current_a != last_a,
    ensures
        ({
            let (send, _) = spec_poll(last_a, current_a);
            send == Some(current_a)
        }),
        ({
            let (write, _) = spec_apply(last_b, spec_payload(current_a), current_b);
            apply_effect(current_b, write) == current_a
        }),
{
    crate::message::lemma_payload_round_trip(current_a);
}

/// Law: a message that echoes the indicator's current value back — for
/// instance the relay reflecting a client's own send — produces no
/// write and leaves the cache untouched.
pub proof fn lemma_echo_avoided(last_known: bool, state: bool)
    ensures
        spec_apply(last_known, spec_payload(state), state) == (None::<bool>, last_known),
{
    crate::message::lemma_payload_round_trip(state);
}

/// Law: a malformed payload is ignored outright — no write, no cache
/// change — whatever the indicator reads.
pub proof fn lemma_malformed_ignored(last_known: bool, current: bool, payload: Seq<char>)
    requires
        spec_parse(payload) is None,
    ensures
        spec_apply(last_known, payload, current) == (None::<bool>, last_known),
{
}

} // verus!
