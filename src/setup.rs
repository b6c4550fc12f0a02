use vstd::prelude::*;

verus! {

/// Where application start-up stands.
#[derive(Clone, Copy, Debug, PartialEq, Eq, Structural)]
pub enum SetupPhase {
    /// Nothing has happened yet.
    Idle,
    /// Looking for the bundled backend executable.
    LocatingSidecar,
    /// Starting the backend process.
    SpawningSidecar,
    /// Asking whether the main window exists.
    ProbingWindow,
    /// Setup finished; the UI runs.
    Running,
    /// Setup failed; the application must not come up.
    Failed,
}

/// What the host reports back after performing an action.
#[derive(Clone, Copy, Debug, PartialEq, Eq, Structural)]
pub enum SetupEvent {
    /// The host begins setup.
    Start,
    /// Whether the backend executable was found among the bundled resources.
    SidecarLocated { found: bool },
    /// Whether the backend process was started.
    SidecarSpawned { ok: bool },
    /// Whether the main window exists.
    WindowProbed { present: bool },
}

/// Why setup failed.
#[derive(Clone, Copy, Debug, PartialEq, Eq, Structural)]
pub enum SetupFailure {
    /// The backend executable is not among the bundled resources.
    SidecarMissing,
    /// The backend executable could not be started.
    SpawnFailed,
}

/// What the host is to do next.
#[derive(Clone, Copy, Debug, PartialEq, Eq, Structural)]
pub enum SetupAction {
    /// Look up the backend executable by `sidecar_name()`.
    LocateSidecar,
    /// Start the located backend, with no arguments and inherited streams.
    SpawnSidecar,
    /// Check whether the window labelled `main_window_label()` exists.
    ProbeWindow,
    /// Start the readiness notifier in the background, then finish setup.
    StartNotifier,
    /// Finish setup without a notifier.
    Finish,
    /// Abort the application.
    Abort(SetupFailure),
    /// Ignore the event.
    Nothing,
}

/// The logical name of the bundled backend executable.
pub fn sidecar_name() -> (r: &'static str)
    ensures
        r@ == "meowdown-backend"@,
{
    "meowdown-backend"
}

/// The label of the main window.
pub fn main_window_label() -> (r: &'static str)
    ensures
        r@ == "main"@,
{
    "main"
}

/// One step of setup: the next phase and the action to perform.
pub open spec fn setup_next(p: SetupPhase, e: SetupEvent) -> (SetupPhase, SetupAction) {
    match (p, e) {
        (SetupPhase::Idle, SetupEvent::Start) => (
            SetupPhase::LocatingSidecar,
            SetupAction::LocateSidecar,
        ),
        (SetupPhase::LocatingSidecar, SetupEvent::SidecarLocated { found }) => if found {
            (SetupPhase::SpawningSidecar, SetupAction::SpawnSidecar)
        } else {
            (SetupPhase::Failed, SetupAction::Abort(SetupFailure::SidecarMissing))
        },
        (SetupPhase::SpawningSidecar, SetupEvent::SidecarSpawned { ok }) => if ok {
            (SetupPhase::ProbingWindow, SetupAction::ProbeWindow)
        } else {
            (SetupPhase::Failed, SetupAction::Abort(SetupFailure::SpawnFailed))
        },
        (SetupPhase::ProbingWindow, SetupEvent::WindowProbed { present }) => if present {
            (SetupPhase::Running, SetupAction::StartNotifier)
        } else {
            (SetupPhase::Running, SetupAction::Finish)
        },
        _ => (p, SetupAction::Nothing),
    }
}

/// The actions that setup performs, from phase `p`, over a sequence of events.
pub open spec fn setup_actions(p: SetupPhase, es: Seq<SetupEvent>) -> Seq<SetupAction>
    decreases es.len(),
{
    if es.len() == 0 {
        Seq::empty()
    } else {
        let (q, a) = setup_next(p, es[0]);
        seq![a] + setup_actions(q, es.drop_first())
    }
}

/// How far setup has come; no step moves it back.
pub open spec fn phase_rank(p: SetupPhase) -> nat {
    match p {
        SetupPhase::Idle => 0,
        SetupPhase::LocatingSidecar => 1,
        SetupPhase::SpawningSidecar => 2,
        SetupPhase::ProbingWindow => 3,
        SetupPhase::Running => 4,
        SetupPhase::Failed => 4,
    }
}

/// How many times an action occurs in a sequence of actions.
pub open spec fn count_action(s: Seq<SetupAction>, a: SetupAction) -> nat
    decreases s.len(),
{
    if s.len() == 0 {
        0
    } else {
        (if s[0] == a {
            1nat
        } else {
            0nat
        }) + count_action(s.drop_first(), a)
    }
}

/// Performs one step of setup.
pub fn setup_step(p: SetupPhase, e: SetupEvent) -> (r: (SetupPhase, SetupAction))
    ensures
        r == setup_next(p, e),
{
    match (p, e) {
        (SetupPhase::Idle, SetupEvent::Start) => (
            SetupPhase::LocatingSidecar,
            SetupAction::LocateSidecar,
        ),
        (SetupPhase::LocatingSidecar, SetupEvent::SidecarLocated { found }) => if found {
            (SetupPhase::SpawningSidecar, SetupAction::SpawnSidecar)
        } else {
            (SetupPhase::Failed, SetupAction::Abort(SetupFailure::SidecarMissing))
        },
        (SetupPhase::SpawningSidecar, SetupEvent::SidecarSpawned { ok }) => if ok {
            (SetupPhase::ProbingWindow, SetupAction::ProbeWindow)
        } else {
            (SetupPhase::Failed, SetupAction::Abort(SetupFailure::SpawnFailed))
        },
        (SetupPhase::ProbingWindow, SetupEvent::WindowProbed { present }) => if present {
            (SetupPhase::Running, SetupAction::StartNotifier)
        } else {
            (SetupPhase::Running, SetupAction::Finish)
        },
        _ => (p, SetupAction::Nothing),
    }
}

proof fn lemma_rank_monotone(p: SetupPhase, e: SetupEvent)
    ensures
        phase_rank(setup_next(p, e).0) >= phase_rank(p),
        setup_next(p, e).1 == SetupAction::StartNotifier ==> p == SetupPhase::ProbingWindow
            && setup_next(p, e).0 == SetupPhase::Running,
{
}

/// Whatever events arrive, setup starts the readiness notifier at most once,
/// and never once it has got past probing the window.
pub proof fn lemma_notifier_started_at_most_once(p: SetupPhase, es: Seq<SetupEvent>)
    ensures
        count_action(setup_actions(p, es), SetupAction::StartNotifier) <= 1,
        phase_rank(p) > 3 ==> count_action(setup_actions(p, es), SetupAction::StartNotifier)
            == 0,
    decreases es.len(),
{
    if es.len() > 0 {
        let (q, a) = setup_next(p, es[0]);
        lemma_rank_monotone(p, es[0]);
        lemma_notifier_started_at_most_once(q, es.drop_first());
        let s = setup_actions(p, es);
        assert(s[0] == a);
        assert(s.drop_first() =~= setup_actions(q, es.drop_first()));
    }
}

/// Setup starts the readiness notifier only in answer to a report that the
/// main window exists.
pub proof fn lemma_notifier_needs_main_window(p: SetupPhase, es: Seq<SetupEvent>)
    ensures
        count_action(setup_actions(p, es), SetupAction::StartNotifier) > 0 ==> exists|i: int|
            0 <= i < es.len() && #[trigger] es[i] == (SetupEvent::WindowProbed { present: true }),
    decreases es.len(),
{
    if es.len() > 0 {
        let (q, a) = setup_next(p, es[0]);
        let rest = es.drop_first();
        lemma_notifier_needs_main_window(q, rest);
        let s = setup_actions(p, es);
        assert(s.drop_first() =~= setup_actions(q, rest));
        if count_action(setup_actions(q, rest), SetupAction::StartNotifier) > 0 {
            let i = choose|i: int|
                0 <= i < rest.len() && #[trigger] rest[i] == (SetupEvent::WindowProbed {
                    present: true,
                });
            assert(es[i + 1] == rest[i]);
        } else if a == SetupAction::StartNotifier {
            assert(es[0] == (SetupEvent::WindowProbed { present: true }));
        }
    }
}

/// Once setup has failed, no event leads to any further action.
pub proof fn lemma_failure_is_final(es: Seq<SetupEvent>)
    ensures
        forall|i: int|
            0 <= i < es.len() ==> #[trigger] setup_actions(SetupPhase::Failed, es)[i]
                == SetupAction::Nothing,
        setup_actions(SetupPhase::Failed, es).len() == es.len(),
    decreases es.len(),
{
    if es.len() > 0 {
        lemma_failure_is_final(es.drop_first());
        let s = setup_actions(SetupPhase::Failed, es);
        assert forall|i: int| 0 <= i < es.len() implies #[trigger] s[i] == SetupAction::Nothing by {
            if i > 0 {
                assert(s[i] == setup_actions(SetupPhase::Failed, es.drop_first())[i - 1]);
            }
        }
    }
}

/// When the backend executable is missing, setup aborts at once, and nothing
/// that arrives afterwards (a window report included) has any effect: no
/// window is probed and no notifier is started.
pub proof fn lemma_missing_sidecar_is_fatal(later: Seq<SetupEvent>)
    ensures
        ({
            let s = setup_actions(
                SetupPhase::LocatingSidecar,
                seq![SetupEvent::SidecarLocated { found: false }] + later,
            );
            &&& s.len() == later.len() + 1
            &&& s[0] == SetupAction::Abort(SetupFailure::SidecarMissing)
            &&& forall|i: int| 1 <= i < s.len() ==> #[trigger] s[i] == SetupAction::Nothing
        }),
{
    let es = seq![SetupEvent::SidecarLocated { found: false }] + later;
    assert(es.drop_first() =~= later);
    lemma_failure_is_final(later);
    let s = setup_actions(SetupPhase::LocatingSidecar, es);
    assert forall|i: int| 1 <= i < s.len() implies #[trigger] s[i] == SetupAction::Nothing by {
        assert(s[i] == setup_actions(SetupPhase::Failed, later)[i - 1]);
    }
}

} // verus!
