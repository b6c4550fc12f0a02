use vstd::prelude::*;

verus! {

/// How long after setup the readiness event may fire, in milliseconds.
pub const READY_DELAY_MS: u64 = 500;

/// The name of the readiness event sent to the UI.
pub fn ready_event_name() -> (r: &'static str)
    ensures
        r@ == "backend_started"@,
{
    "backend_started"
}

/// Whether a notifier in state `fired`, polled `elapsed` milliseconds after
/// setup, sends the readiness event.
pub open spec fn emits_now(fired: bool, elapsed: u64) -> bool {
    !fired && elapsed >= READY_DELAY_MS
}

/// For each of a sequence of polls, whether it sends the event.
pub open spec fn emissions(fired: bool, polls: Seq<u64>) -> Seq<bool>
    decreases polls.len(),
{
    if polls.len() == 0 {
        Seq::empty()
    } else {
        let e = emits_now(fired, polls[0]);
        seq![e] + emissions(fired || e, polls.drop_first())
    }
}

/// How many polls of a sequence sent the event.
pub open spec fn count_sent(s: Seq<bool>) -> nat
    decreases s.len(),
{
    if s.len() == 0 {
        0
    } else {
        (if s[0] {
            1nat
        } else {
            0nat
        }) + count_sent(s.drop_first())
    }
}

/// A one-shot timer for the readiness event: it fires on the first poll that
/// comes at least `READY_DELAY_MS` after setup, and never again.
pub struct ReadyNotifier {
    fired: bool,
}

impl ReadyNotifier {
    /// Whether the event has been sent.
    pub closed spec fn has_fired(&self) -> bool {
        self.fired
    }

    /// A notifier that has not fired.
    pub fn new() -> (r: ReadyNotifier)
        ensures
            !r.has_fired(),
    {
        ReadyNotifier { fired: false }
    }

    /// Whether the event has been sent.
    pub fn fired(&self) -> (r: bool)
        ensures
            r == self.has_fired(),
    {
        self.fired
    }

    /// Polls the notifier `elapsed_ms` milliseconds after setup; returns
    /// whether the event is to be sent now.
    pub fn poll(&mut self, elapsed_ms: u64) -> (emit: bool)
        ensures
            emit == emits_now(old(self).has_fired(), elapsed_ms),
            final(self).has_fired() == (old(self).has_fired() || emit),
    {
        let emit = !self.fired && elapsed_ms >= READY_DELAY_MS;
        if emit {
            self.fired = true;
        }
        emit
    }
}

/// Over any sequence of polls the event is sent at most once, never before
/// `READY_DELAY_MS`, and not at all once it has been sent. A notifier that has
/// not fired sends it exactly once as soon as one poll comes late enough.
pub proof fn lemma_fires_exactly_once(fired: bool, polls: Seq<u64>)
    ensures
        emissions(fired, polls).len() == polls.len(),
        count_sent(emissions(fired, polls)) <= 1,
        fired ==> count_sent(emissions(fired, polls)) == 0,
        forall|i: int|
            0 <= i < polls.len() && #[trigger] emissions(fired, polls)[i] ==> polls[i]
                >= READY_DELAY_MS,
        !fired && (exists|i: int| 0 <= i < polls.len() && #[trigger] polls[i] >= READY_DELAY_MS)
            ==> count_sent(emissions(fired, polls)) == 1,
    decreases polls.len(),
{
    if polls.len() > 0 {
        let e = emits_now(fired, polls[0]);
        let rest = polls.drop_first();
        lemma_fires_exactly_once(fired || e, rest);
        let s = emissions(fired, polls);
        assert(s.drop_first() =~= emissions(fired || e, rest));
        assert forall|i: int| 0 <= i < polls.len() && #[trigger] s[i] implies polls[i]
            >= READY_DELAY_MS by {
            if i > 0 {
                assert(s[i] == emissions(fired || e, rest)[i - 1]);
                assert(polls[i] == rest[i - 1]);
            }
        }
        if !fired && (exists|i: int| 0 <= i < polls.len() && #[trigger] polls[i] >= READY_DELAY_MS) {
            if !e {
                let i = choose|i: int| 0 <= i < polls.len() && #[trigger] polls[i] >= READY_DELAY_MS;
                assert(i != 0);
                assert(rest[i - 1] == polls[i]);
            }
        }
    }
}

} // verus!
