use vstd::prelude::*;
use vstd::string::StringExecFns;
use crate::errors::{BuildError, ProbeError};
use crate::instructions::valid_marker;
use crate::keys::{FreshnessToken, SigningIdentity};
use crate::payload::{build, envelope_model, keypair_consistent, ProbeConfig, SignedEnvelope};

verus! {

/// Where a probe run stands. The run is strictly sequential:
/// start, first submission, wait, health check, second submission, done;
/// any failure in any phase is fatal.
#[derive(Clone, Copy, Debug, PartialEq, Eq, Structural)]
pub enum Phase {
    Start,
    FetchingToken,
    FirstSubmit,
    Waiting,
    HealthChecking,
    SecondSubmit,
    Done,
    Failed,
}

/// Elapsed wall-clock milliseconds per submission; printed and discarded.
#[derive(Clone, Copy, Debug, PartialEq, Eq, Structural)]
pub struct ProbeResult {
    pub first_ms: u64,
    pub second_ms: u64,
}

/// What the outside world reports back to the prober.
pub enum ProbeEvent {
    /// The checkpoint source returned a freshness token.
    TokenFetched(FreshnessToken),
    /// The checkpoint source failed.
    TokenFailed,
    /// A submission completed, with its elapsed milliseconds.
    SubmitOk(u64),
    /// The fixed idle gap has elapsed.
    Slept,
    /// The keep-alive health check completed.
    HealthOk,
    /// A submission or health check failed at the transport level.
    TransportFailed,
}

/// What the caller must do next.
#[derive(Debug)]
pub enum ProbeAction {
    /// Ask the checkpoint source for a freshness token.
    FetchToken,
    /// POST the payload to the relay and time the round trip.
    Submit(SignedEnvelope),
    /// Suspend for the fixed idle gap.
    Wait,
    /// GET the relay's health path to keep the connection warm.
    HealthCheck,
    /// The run is complete; report both elapsed times.
    Report(ProbeResult),
}

/// An action's kind, without its payload.
#[derive(Clone, Copy, Debug, PartialEq, Eq, Structural)]
pub enum ActionKind {
    FetchToken,
    Submit,
    Wait,
    HealthCheck,
    Report,
}

/// The kind of an action.
pub open spec fn action_kind(a: ProbeAction) -> ActionKind {
    match a {
        ProbeAction::FetchToken => ActionKind::FetchToken,
        ProbeAction::Submit(_) => ActionKind::Submit,
        ProbeAction::Wait => ActionKind::Wait,
        ProbeAction::HealthCheck => ActionKind::HealthCheck,
        ProbeAction::Report(_) => ActionKind::Report,
    }
}

impl ProbeAction {
    /// The action's kind, without its payload.
    pub fn kind(&self) -> (r: ActionKind)
        ensures
            r == action_kind(*self),
    {
        match self {
            ProbeAction::FetchToken => ActionKind::FetchToken,
            ProbeAction::Submit(_) => ActionKind::Submit,
            ProbeAction::Wait => ActionKind::Wait,
            ProbeAction::HealthCheck => ActionKind::HealthCheck,
            ProbeAction::Report(_) => ActionKind::Report,
        }
    }
}

/// Where the machine goes on an event. Total: any event a phase does not
/// expect, and anything after a failure, leaves the machine failed.
pub open spec fn next_phase(p: Phase, e: ProbeEvent) -> Phase {
    match (p, e) {
        (Phase::FetchingToken, ProbeEvent::TokenFetched(_)) => Phase::FirstSubmit,
        (Phase::FirstSubmit, ProbeEvent::SubmitOk(_)) => Phase::Waiting,
        (Phase::Waiting, ProbeEvent::Slept) => Phase::HealthChecking,
        (Phase::HealthChecking, ProbeEvent::HealthOk) => Phase::SecondSubmit,
        (Phase::SecondSubmit, ProbeEvent::SubmitOk(_)) => Phase::Done,
        _ => Phase::Failed,
    }
}

/// The kind of action a successful step yields, if any.
pub open spec fn phase_action(p: Phase, e: ProbeEvent) -> Option<ActionKind> {
    match (p, e) {
        (Phase::FetchingToken, ProbeEvent::TokenFetched(_)) => Some(ActionKind::Submit),
        (Phase::FirstSubmit, ProbeEvent::SubmitOk(_)) => Some(ActionKind::Wait),
        (Phase::Waiting, ProbeEvent::Slept) => Some(ActionKind::HealthCheck),
        (Phase::HealthChecking, ProbeEvent::HealthOk) => Some(ActionKind::Submit),
        (Phase::SecondSubmit, ProbeEvent::SubmitOk(_)) => Some(ActionKind::Report),
        _ => None,
    }
}

/// The error a failing event carries, decided by phase and event alone.
pub open spec fn step_error(p: Phase, e: ProbeEvent) -> Option<ProbeError> {
    match (p, e) {
        (Phase::FetchingToken, ProbeEvent::TokenFailed) => Some(ProbeError::Rpc),
        (Phase::FirstSubmit, ProbeEvent::TransportFailed) => Some(ProbeError::Transport),
        (Phase::HealthChecking, ProbeEvent::TransportFailed) => Some(ProbeError::Transport),
        (Phase::SecondSubmit, ProbeEvent::TransportFailed) => Some(ProbeError::Transport),
        _ => None,
    }
}

/// The events a phase can receive.
pub open spec fn event_allowed(p: Phase, e: ProbeEvent) -> bool {
    phase_action(p, e) is Some || step_error(p, e) is Some
}

/// The relay's health path under its base URL.
pub open spec fn health_path(base: Seq<char>) -> Seq<char> {
    base + "/gethealth"@
}

/// Appends the health path to the relay's base URL: the target of the
/// keep-alive GET.
pub fn health_check_path(base: &str) -> (r: String)
    ensures
        r@ == health_path(base@),
{
    let mut out = String::new();
    out.append(base);
    out.append("/gethealth");
    out
}

/// The keep-alive prober: drives the timed submit, wait, health-check,
/// submit sequence. The caller performs each returned action over one warm
/// connection and feeds the outcome back as the next event.
pub struct Prober {
    pub identity: SigningIdentity,
    pub config: ProbeConfig,
    pub phase: Phase,
    pub token: Option<FreshnessToken>,
    pub first_ms: Option<u64>,
}

impl Prober {
    /// The machine's invariant: identity and configuration stay well formed;
    /// once the first submission is under way a well-formed token is held;
    /// once the wait begins the first elapsed time is recorded.
    pub open spec fn wf(&self) -> bool {
        &&& self.identity.wf()
        &&& self.config.wf()
        &&& match self.phase {
            Phase::FirstSubmit | Phase::Waiting | Phase::HealthChecking | Phase::SecondSubmit
                | Phase::Done => self.token matches Some(t) && t.wf(),
            _ => true,
        }
        &&& match self.phase {
            Phase::Waiting | Phase::HealthChecking | Phase::SecondSubmit | Phase::Done =>
                self.first_ms is Some,
            _ => true,
        }
    }

    /// The bytes of the stored freshness token.
    pub open spec fn stored_token_bytes(&self) -> Seq<u8> {
        match self.token {
            Some(t) => t@,
            None => Seq::empty(),
        }
    }

    /// A fresh prober, ready to start.
    pub fn new(identity: SigningIdentity, config: ProbeConfig) -> (r: Prober)
        requires
            identity.wf(),
            config.wf(),
        ensures
            r.wf(),
            r.phase == Phase::Start,
            r.identity == identity,
            r.config == config,
            r.token is None,
            r.first_ms is None,
    {
        Prober { identity, config, phase: Phase::Start, token: None, first_ms: None }
    }

    /// Begins the run: the first thing to do is fetch a freshness token from
    /// the checkpoint source; no submission may precede it.
    pub fn start(&mut self) -> (r: ProbeAction)
        requires
            old(self).wf(),
            old(self).phase == Phase::Start,
        ensures
            final(self).wf(),
            final(self).phase == Phase::FetchingToken,
            action_kind(r) == ActionKind::FetchToken,
            final(self).identity == old(self).identity,
            final(self).config == old(self).config,
            final(self).token == old(self).token,
            final(self).first_ms == old(self).first_ms,
    {
        self.phase = Phase::FetchingToken;
        ProbeAction::FetchToken
    }

    /// Consumes one event and yields the next action, or the fatal error
    /// that ends the run. The machine conforms exactly to `next_phase`,
    /// `phase_action` and `step_error`; the only other failure is a payload
    /// build error where a submission was due, which happens exactly when
    /// the identity bytes do not form a consistent keypair. Every submitted
    /// envelope is the signed payload over the held identity, the stored
    /// token and the configuration, with a fresh uniqueness marker.
    pub fn step(&mut self, event: ProbeEvent) -> (r: Result<ProbeAction, ProbeError>)
        requires
            old(self).wf(),
            event_allowed(old(self).phase, event),
            event matches ProbeEvent::TokenFetched(t) ==> t.wf(),
        ensures
            final(self).wf(),
            final(self).identity == old(self).identity,
            final(self).config == old(self).config,
            r matches Ok(a) ==> {
                &&& step_error(old(self).phase, event) is None
                &&& phase_action(old(self).phase, event) == Some(action_kind(a))
                &&& final(self).phase == next_phase(old(self).phase, event)
            },
            r matches Err(e) ==> {
                &&& final(self).phase == Phase::Failed
                &&& match step_error(old(self).phase, event) {
                    Some(pe) => e == pe,
                    None => {
                        &&& e == ProbeError::Build(BuildError::InvalidIdentity)
                        &&& !keypair_consistent(old(self).identity@)
                        &&& phase_action(old(self).phase, event) == Some(ActionKind::Submit)
                    },
                }
            },
            step_error(old(self).phase, event) is None ==> (r is Ok <==> (phase_action(
                old(self).phase,
                event,
            ) == Some(ActionKind::Submit) ==> keypair_consistent(old(self).identity@))),
            r matches Ok(a) ==> (a matches ProbeAction::Submit(env) ==> exists|m: Seq<u8>|
                valid_marker(m) && env@ == envelope_model(
                    old(self).identity@,
                    m,
                    final(self).stored_token_bytes(),
                    old(self).config@,
                )),
            event matches ProbeEvent::TokenFetched(t) ==> (r is Ok ==> final(self).token == Some(
                t,
            )),
            old(self).phase != Phase::FetchingToken ==> final(self).token == old(self).token,
            event matches ProbeEvent::SubmitOk(ms) ==> (old(self).phase == Phase::FirstSubmit && r
                is Ok ==> final(self).first_ms == Some(ms)),
            old(self).phase != Phase::FirstSubmit ==> final(self).first_ms == old(self).first_ms,
            r matches Ok(a) ==> (a matches ProbeAction::Report(res) ==> {
                &&& Some(res.first_ms) == old(self).first_ms
                &&& (event matches ProbeEvent::SubmitOk(ms2) && res.second_ms == ms2)
            }),
    {
        match event {
            ProbeEvent::TokenFetched(t) => {
                match build(&self.identity, &t, &self.config) {
                    Ok(env) => {
                        self.token = Some(t);
                        self.phase = Phase::FirstSubmit;
                        Ok(ProbeAction::Submit(env))
                    },
                    Err(b) => {
                        self.phase = Phase::Failed;
                        Err(ProbeError::Build(b))
                    },
                }
            },
            ProbeEvent::TokenFailed => {
                self.phase = Phase::Failed;
                Err(ProbeError::Rpc)
            },
            ProbeEvent::SubmitOk(ms) => {
                if matches!(self.phase, Phase::FirstSubmit) {
                    self.first_ms = Some(ms);
                    self.phase = Phase::Waiting;
                    Ok(ProbeAction::Wait)
                } else {
                    let first = match self.first_ms {
                        Some(f) => f,
                        None => {
                            proof {
                                assert(false);
                            }
                            vstd::pervasive::unreached()
                        },
                    };
                    self.phase = Phase::Done;
                    Ok(ProbeAction::Report(ProbeResult { first_ms: first, second_ms: ms }))
                }
            },
            ProbeEvent::Slept => {
                self.phase = Phase::HealthChecking;
                Ok(ProbeAction::HealthCheck)
            },
            ProbeEvent::HealthOk => {
                let built = match &self.token {
                    Some(t) => build(&self.identity, t, &self.config),
                    None => {
                        proof {
                            assert(false);
                        }
                        vstd::pervasive::unreached()
                    },
                };
                match built {
                    Ok(env) => {
                        self.phase = Phase::SecondSubmit;
                        Ok(ProbeAction::Submit(env))
                    },
                    Err(b) => {
                        self.phase = Phase::Failed;
                        Err(ProbeError::Build(b))
                    },
                }
            },
            ProbeEvent::TransportFailed => {
                self.phase = Phase::Failed;
                Err(ProbeError::Transport)
            },
        }
    }
}

/// The kinds of the actions a run of events produces from phase `p`:
/// each event contributes its successful action, if any, and the machine
/// moves on by `next_phase`.
pub open spec fn trace_actions(p: Phase, events: Seq<ProbeEvent>) -> Seq<ActionKind>
    decreases events.len(),
{
    if events.len() == 0 {
        Seq::empty()
    } else {
        (match phase_action(p, events[0]) {
            Some(k) => seq![k],
            None => Seq::<ActionKind>::empty(),
        }) + trace_actions(next_phase(p, events[0]), events.drop_first())
    }
}

/// The phase a run of events leaves the machine in, from phase `p`.
pub open spec fn phase_after(p: Phase, events: Seq<ProbeEvent>) -> Phase
    decreases events.len(),
{
    if events.len() == 0 {
        p
    } else {
        phase_after(next_phase(p, events[0]), events.drop_first())
    }
}

/// Law: from the failed state nothing further ever happens — no event
/// sequence produces any action.
pub proof fn lemma_failed_trace_empty(events: Seq<ProbeEvent>)
    ensures
        trace_actions(Phase::Failed, events) == Seq::<ActionKind>::empty(),
    decreases events.len(),
{
    if events.len() > 0 {
        lemma_failed_trace_empty(events.drop_first());
        assert(trace_actions(Phase::Failed, events) =~= Seq::<ActionKind>::empty());
    }
}

/// Law: the probe's calls come in exactly the order fetch-token, submit,
/// wait, health-check, submit, report. Started with `start` (which yields
/// the fetch) and fed the successful outcome of each action in turn, the
/// machine produces exactly this action sequence and ends done.
pub proof fn lemma_call_order(t: FreshnessToken, ms1: u64, ms2: u64)
    ensures
        seq![ActionKind::FetchToken] + trace_actions(
            Phase::FetchingToken,
            seq![
                ProbeEvent::TokenFetched(t),
                ProbeEvent::SubmitOk(ms1),
                ProbeEvent::Slept,
                ProbeEvent::HealthOk,
                ProbeEvent::SubmitOk(ms2),
            ],
        ) =~= seq![
            ActionKind::FetchToken,
            ActionKind::Submit,
            ActionKind::Wait,
            ActionKind::HealthCheck,
            ActionKind::Submit,
            ActionKind::Report,
        ],
        phase_after(
            Phase::FetchingToken,
            seq![
                ProbeEvent::TokenFetched(t),
                ProbeEvent::SubmitOk(ms1),
                ProbeEvent::Slept,
                ProbeEvent::HealthOk,
                ProbeEvent::SubmitOk(ms2),
            ],
        ) == Phase::Done,
{
    let e0 = ProbeEvent::TokenFetched(t);
    let e1 = ProbeEvent::SubmitOk(ms1);
    let e2 = ProbeEvent::Slept;
    let e3 = ProbeEvent::HealthOk;
    let e4 = ProbeEvent::SubmitOk(ms2);
    let s4 = seq![e4];
    let s3 = seq![e3, e4];
    let s2 = seq![e2, e3, e4];
    let s1 = seq![e1, e2, e3, e4];
    let s0 = seq![e0, e1, e2, e3, e4];
    assert(s4.drop_first() =~= Seq::<ProbeEvent>::empty());
    assert(s3.drop_first() =~= s4);
    assert(s2.drop_first() =~= s3);
    assert(s1.drop_first() =~= s2);
    assert(s0.drop_first() =~= s1);
    assert(trace_actions(Phase::Done, Seq::<ProbeEvent>::empty()) =~= Seq::<ActionKind>::empty());
    assert(trace_actions(Phase::SecondSubmit, s4) =~= seq![ActionKind::Report]);
    assert(trace_actions(Phase::HealthChecking, s3) =~= seq![ActionKind::Submit, ActionKind::Report]);
    assert(trace_actions(Phase::Waiting, s2) =~= seq![
        ActionKind::HealthCheck,
        ActionKind::Submit,
        ActionKind::Report,
    ]);
    assert(trace_actions(Phase::FirstSubmit, s1) =~= seq![
        ActionKind::Wait,
        ActionKind::HealthCheck,
        ActionKind::Submit,
        ActionKind::Report,
    ]);
    assert(trace_actions(Phase::FetchingToken, s0) =~= seq![
        ActionKind::Submit,
        ActionKind::Wait,
        ActionKind::HealthCheck,
        ActionKind::Submit,
        ActionKind::Report,
    ]);
    assert(phase_after(Phase::Done, Seq::<ProbeEvent>::empty()) == Phase::Done);
    assert(phase_after(Phase::SecondSubmit, s4) == Phase::Done);
    assert(phase_after(Phase::HealthChecking, s3) == Phase::Done);
    assert(phase_after(Phase::Waiting, s2) == Phase::Done);
    assert(phase_after(Phase::FirstSubmit, s1) == Phase::Done);
    assert(phase_after(Phase::FetchingToken, s0) == Phase::Done);
}

/// Law: if the checkpoint fetch fails, no submission is ever attempted —
/// however the run goes on, the trace holds no submit action at all.
pub proof fn lemma_no_submit_after_fetch_failure(events: Seq<ProbeEvent>)
    requires
        events.len() > 0,
        events[0] matches ProbeEvent::TokenFailed,
    ensures
        forall|i: int|
            0 <= i < trace_actions(Phase::FetchingToken, events).len() ==> trace_actions(
                Phase::FetchingToken,
                events,
            )[i] != ActionKind::Submit,
{
    lemma_failed_trace_empty(events.drop_first());
    assert(trace_actions(Phase::FetchingToken, events) =~= Seq::<ActionKind>::empty());
}

/// Law: a transport failure on the health-check step is fatal under the
/// no-recovery policy — it carries a transport error, the machine is failed,
/// and exactly one submission ever happened, whatever events follow.
pub proof fn lemma_health_check_failure_is_fatal(
    t: FreshnessToken,
    ms1: u64,
    rest: Seq<ProbeEvent>,
)
    ensures
        phase_after(
            Phase::FetchingToken,
            seq![ProbeEvent::TokenFetched(t), ProbeEvent::SubmitOk(ms1), ProbeEvent::Slept],
        ) == Phase::HealthChecking,
        step_error(Phase::HealthChecking, ProbeEvent::TransportFailed) == Some(
            ProbeError::Transport,
        ),
        trace_actions(
            Phase::FetchingToken,
            seq![
                ProbeEvent::TokenFetched(t),
                ProbeEvent::SubmitOk(ms1),
                ProbeEvent::Slept,
                ProbeEvent::TransportFailed,
            ] + rest,
        ) =~= seq![ActionKind::Submit, ActionKind::Wait, ActionKind::HealthCheck],
{
    let e0 = ProbeEvent::TokenFetched(t);
    let e1 = ProbeEvent::SubmitOk(ms1);
    let e2 = ProbeEvent::Slept;
    let e3 = ProbeEvent::TransportFailed;
    let s3 = seq![e3] + rest;
    let s2 = seq![e2] + s3;
    let s1 = seq![e1] + s2;
    let s0 = seq![e0] + s1;
    assert(seq![e0, e1, e2, e3] + rest =~= s0);
    assert(s0.drop_first() =~= s1);
    assert(s1.drop_first() =~= s2);
    assert(s2.drop_first() =~= s3);
    assert(s3.drop_first() =~= rest);
    lemma_failed_trace_empty(rest);
    assert(trace_actions(Phase::HealthChecking, s3) =~= Seq::<ActionKind>::empty());
    assert(trace_actions(Phase::Waiting, s2) =~= seq![ActionKind::HealthCheck]);
    assert(trace_actions(Phase::FirstSubmit, s1) =~= seq![ActionKind::Wait, ActionKind::HealthCheck]);
    assert(trace_actions(Phase::FetchingToken, s0) =~= seq![
        ActionKind::Submit,
        ActionKind::Wait,
        ActionKind::HealthCheck,
    ]);
    let w3 = seq![ProbeEvent::TokenFetched(t), ProbeEvent::SubmitOk(ms1), ProbeEvent::Slept];
    assert(w3.drop_first() =~= seq![e1, e2]);
    assert(seq![e1, e2].drop_first() =~= seq![e2]);
    assert(seq![e2].drop_first() =~= Seq::<ProbeEvent>::empty());
    assert(phase_after(Phase::HealthChecking, Seq::<ProbeEvent>::empty()) == Phase::HealthChecking);
    assert(phase_after(Phase::Waiting, seq![e2]) == Phase::HealthChecking);
    assert(phase_after(Phase::FirstSubmit, seq![e1, e2]) == Phase::HealthChecking);
    assert(phase_after(Phase::FetchingToken, w3) == Phase::HealthChecking);
}

} // verus!
