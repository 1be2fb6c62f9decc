use vstd::prelude::*;

verus! {

/// The delegate's observable lifecycle, as the engine's external state
/// machine understands it.  Transitions are host-driven: the host
/// guarantees the launch-finished notification is delivered exactly once
/// and before any other lifecycle notification, and the will-terminate
/// notification at most once, after it.
#[derive(Clone, Copy, PartialEq, Eq, Structural, Debug)]
pub enum LifecyclePhase {
    NotLaunched,
    Launched,
    Terminated,
}

/// A notification the host delivers to the delegate instance through the
/// registered function table.  Service requests carry the host's opaque
/// identifiers unchanged.
#[derive(Clone, Copy, PartialEq, Eq, Structural, Debug)]
pub enum HostNotification {
    LaunchFinished,
    WillTerminate,
    WillBecomeActive,
    AppleEvent { event: u64, reply: u64 },
    ReopenRequest { has_visible_windows: bool },
}

/// The call a forwarder makes in response to one notification: an entry
/// point of the engine's lifecycle state machine, an externally supplied
/// handler with the notification's arguments passed through unchanged,
/// or nothing beyond a trace marker.
#[derive(Clone, Copy, PartialEq, Eq, Structural, Debug)]
pub enum ForwardedCall {
    EngineLaunched,
    EngineExit,
    NoForward,
    ServiceHandler { event: u64, reply: u64 },
    ReopenHandler { has_visible_windows: bool },
}

/// The lifecycle phase after one notification: launch-finished enters
/// `Launched`, will-terminate enters `Terminated` (staying there is a
/// no-op from the engine's perspective), and every other notification
/// leaves the phase unchanged.
pub open spec fn next_phase(phase: LifecyclePhase, n: HostNotification) -> LifecyclePhase {
    match n {
        HostNotification::LaunchFinished => LifecyclePhase::Launched,
        HostNotification::WillTerminate => LifecyclePhase::Terminated,
        HostNotification::WillBecomeActive => phase,
        HostNotification::AppleEvent { .. } => phase,
        HostNotification::ReopenRequest { .. } => phase,
    }
}

/// The call forwarded for one notification.  Forwarders do no decision
/// making of their own, so the call depends on the notification alone
/// and its arguments are passed through unchanged.
pub open spec fn forwarded_call(n: HostNotification) -> ForwardedCall {
    match n {
        HostNotification::LaunchFinished => ForwardedCall::EngineLaunched,
        HostNotification::WillTerminate => ForwardedCall::EngineExit,
        HostNotification::WillBecomeActive => ForwardedCall::NoForward,
        HostNotification::AppleEvent { event, reply } => ForwardedCall::ServiceHandler {
            event,
            reply,
        },
        HostNotification::ReopenRequest { has_visible_windows } => ForwardedCall::ReopenHandler {
            has_visible_windows,
        },
    }
}

/// Dispatches one host notification: yields the lifecycle phase after it
/// and the call the forwarder must make.  The caller performs the call —
/// invoking the engine's launch or exit entry point, or an externally
/// supplied handler — and returns that handler's verdict to the host
/// unchanged.
pub fn dispatch(phase: LifecyclePhase, n: HostNotification) -> (r: (
    LifecyclePhase,
    ForwardedCall,
))
    ensures
        r.0 == next_phase(phase, n),
        r.1 == forwarded_call(n),
{
    match n {
        HostNotification::LaunchFinished => (LifecyclePhase::Launched, ForwardedCall::EngineLaunched),
        HostNotification::WillTerminate => (LifecyclePhase::Terminated, ForwardedCall::EngineExit),
        HostNotification::WillBecomeActive => (phase, ForwardedCall::NoForward),
        HostNotification::AppleEvent { event, reply } => (
            phase,
            ForwardedCall::ServiceHandler { event, reply },
        ),
        HostNotification::ReopenRequest { has_visible_windows } => (
            phase,
            ForwardedCall::ReopenHandler { has_visible_windows },
        ),
    }
}

/// The host's boolean, a signed byte: zero is false, anything else true.
pub open spec fn spec_host_flag(b: bool) -> i8 {
    if b {
        1i8
    } else {
        0i8
    }
}

/// Marshals a verdict of this subsystem back into the host's boolean.
pub fn host_flag_from_bool(b: bool) -> (r: i8)
    ensures
        r == spec_host_flag(b),
        (r != 0) == b,
{
    if b {
        1i8
    } else {
        0i8
    }
}

/// Marshals the host's boolean into this subsystem's.
pub fn bool_from_host_flag(raw: i8) -> (r: bool)
    ensures
        r == (raw != 0),
{
    raw != 0
}

/// The sequence of forwarded calls produced by a sequence of
/// notifications.
pub open spec fn calls_of(ns: Seq<HostNotification>) -> Seq<ForwardedCall> {
    ns.map_values(|n: HostNotification| forwarded_call(n))
}

/// How many launch-finished notifications a sequence holds.
pub open spec fn launch_count(ns: Seq<HostNotification>) -> nat
    decreases ns.len(),
{
    if ns.len() == 0 {
        0nat
    } else {
        (if ns[0] is LaunchFinished {
            1nat
        } else {
            0nat
        }) + launch_count(ns.drop_first())
    }
}

/// How many will-terminate notifications a sequence holds.
pub open spec fn terminate_count(ns: Seq<HostNotification>) -> nat
    decreases ns.len(),
{
    if ns.len() == 0 {
        0nat
    } else {
        (if ns[0] is WillTerminate {
            1nat
        } else {
            0nat
        }) + terminate_count(ns.drop_first())
    }
}

/// How many calls of the engine's launch entry point a call trace holds.
pub open spec fn engine_launch_calls(cs: Seq<ForwardedCall>) -> nat
    decreases cs.len(),
{
    if cs.len() == 0 {
        0nat
    } else {
        (if cs[0] is EngineLaunched {
            1nat
        } else {
            0nat
        }) + engine_launch_calls(cs.drop_first())
    }
}

/// How many calls of the engine's exit entry point a call trace holds.
pub open spec fn engine_exit_calls(cs: Seq<ForwardedCall>) -> nat
    decreases cs.len(),
{
    if cs.len() == 0 {
        0nat
    } else {
        (if cs[0] is EngineExit {
            1nat
        } else {
            0nat
        }) + engine_exit_calls(cs.drop_first())
    }
}

/// The host's delivery-ordering guarantees: launch-finished at most
/// once; will-terminate at most once and only after a launch-finished.
pub open spec fn respects_host_ordering(ns: Seq<HostNotification>) -> bool {
    &&& launch_count(ns) <= 1
    &&& terminate_count(ns) <= 1
    &&& forall|j: int|
        0 <= j < ns.len() && (#[trigger] ns[j]) is WillTerminate ==> exists|i: int|
            0 <= i < j && (#[trigger] ns[i]) is LaunchFinished
}

proof fn lemma_call_counts(ns: Seq<HostNotification>)
    ensures
        engine_launch_calls(calls_of(ns)) == launch_count(ns),
        engine_exit_calls(calls_of(ns)) == terminate_count(ns),
    decreases ns.len(),
{
    if ns.len() == 0 {
        assert(calls_of(ns).len() == 0);
    } else {
        lemma_call_counts(ns.drop_first());
        assert(calls_of(ns).drop_first() =~= calls_of(ns.drop_first()));
        assert(calls_of(ns)[0] == forwarded_call(ns[0]));
    }
}

/// For every delivery sequence that respects the host's ordering
/// guarantees, the forwarders call the engine's launch entry point
/// exactly once — at the launch-finished notification, and only if one
/// fires — and its exit entry point at most once, at the will-terminate
/// notification: each engine call happens exactly when its notification
/// fires, and never otherwise.
pub proof fn lemma_forwarding_discipline(ns: Seq<HostNotification>)
    requires
        respects_host_ordering(ns),
    ensures
        calls_of(ns).len() == ns.len(),
        forall|i: int|
            0 <= i < ns.len() ==> ((#[trigger] calls_of(ns)[i]) is EngineLaunched <==> ns[i]
                is LaunchFinished),
        forall|i: int|
            0 <= i < ns.len() ==> ((#[trigger] calls_of(ns)[i]) is EngineExit <==> ns[i]
                is WillTerminate),
        engine_launch_calls(calls_of(ns)) == launch_count(ns),
        engine_launch_calls(calls_of(ns)) <= 1,
        launch_count(ns) > 0 ==> engine_launch_calls(calls_of(ns)) == 1,
        engine_exit_calls(calls_of(ns)) == terminate_count(ns),
        engine_exit_calls(calls_of(ns)) <= 1,
{
    lemma_call_counts(ns);
    assert forall|i: int| 0 <= i < ns.len() implies ((#[trigger] calls_of(ns)[i])
        is EngineLaunched <==> ns[i] is LaunchFinished) && ((calls_of(ns)[i]) is EngineExit <==> ns[i]
        is WillTerminate) by {
        assert(calls_of(ns)[i] == forwarded_call(ns[i]));
    }
}

/// A "handle service event" notification changes no lifecycle phase, its
/// opaque event and reply identifiers reach the externally supplied
/// handler unchanged, and the handler's verdict is returned to the host
/// unchanged.
pub proof fn lemma_service_event_passthrough(
    phase: LifecyclePhase,
    event: u64,
    reply: u64,
    verdict: bool,
)
    ensures
        next_phase(phase, HostNotification::AppleEvent { event, reply }) == phase,
        forwarded_call(HostNotification::AppleEvent { event, reply }) == (ForwardedCall::ServiceHandler {
            event,
            reply,
        }),
        (spec_host_flag(verdict) != 0) == verdict,
{
}

/// A "should handle reopen" notification changes no lifecycle phase, the
/// has-visible-windows flag reaches the externally supplied handler
/// unchanged — whether false or true — and the handler's verdict is
/// returned to the host unchanged.
pub proof fn lemma_reopen_passthrough(
    phase: LifecyclePhase,
    has_visible_windows: bool,
    verdict: bool,
)
    ensures
        next_phase(phase, HostNotification::ReopenRequest { has_visible_windows }) == phase,
        forwarded_call(HostNotification::ReopenRequest { has_visible_windows })
            == (ForwardedCall::ReopenHandler { has_visible_windows }),
        (spec_host_flag(has_visible_windows) != 0) == has_visible_windows,
        (spec_host_flag(verdict) != 0) == verdict,
{
}

} // verus!
