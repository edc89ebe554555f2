use vstd::prelude::*;
use vstd::string::StringExecFns;

use crate::launch::{
    data_dir_or_default, dir_or_default_spec, primary_launch_spec, primary_spec_model,
    secondary_launch_spec, secondary_spec_model, ServiceSpec, ServiceSpecModel, PRIMARY_PORT,
    SECONDARY_PORT,
};

verus! {

/// Where the supervisor stands in its linear lifecycle. The one-shot start
/// latch is the departure from `NotStarted`: it happens at most once and never
/// reverts.
#[derive(Clone, Copy, PartialEq, Eq, Structural, Debug)]
pub enum Phase {
    /// The launch sequence has not begun.
    NotStarted,
    /// The primary service's launch attempt is in flight.
    StartingPrimary,
    /// The primary attempt concluded; the secondary's attempt is in flight.
    StartingSecondary,
    /// Both attempts concluded (or the sequence was skipped); the registry
    /// holds whichever services became ready.
    Running,
    /// Teardown ran; the registry is empty.
    Stopped,
}

/// Why a launch attempt failed. Each kind is caught locally, logged by the
/// host, and never aborts the other service's attempt.
#[derive(Clone, Copy, PartialEq, Eq, Structural, Debug)]
pub enum LaunchError {
    /// No filename variant existed in any candidate directory.
    BinaryNotFound,
    /// The OS refused to spawn the resolved binary.
    SpawnFailure,
    /// The port never accepted a connection within the deadline.
    ReadinessTimeout,
}

/// How a launch attempt concluded: `Started` carries the host's handle for
/// the spawned, ready child; `Failed` the reason.
#[derive(Clone, Copy, PartialEq, Eq, Structural, Debug)]
pub enum AttemptOutcome {
    Started(u64),
    Failed(LaunchError),
}

/// One recorded child: created only after both its spawn and its readiness
/// check succeeded. `handle` is the host's key for the owned process handle.
pub struct RunningService {
    pub name: String,
    pub port: u16,
    pub handle: u64,
}

pub ghost struct ServiceModel {
    pub name: Seq<char>,
    pub port: u16,
    pub handle: u64,
}

impl View for RunningService {
    type V = ServiceModel;

    open spec fn view(&self) -> ServiceModel {
        ServiceModel { name: self.name@, port: self.port, handle: self.handle }
    }
}

/// The host's capability, reduced to the plain values the supervisor reads:
/// whether this is an interactive development configuration (services are
/// then managed externally and nothing is spawned), and the resolved
/// application-private data directory, if the host could resolve one.
pub struct HostContext {
    pub dev_mode: bool,
    pub data_dir: Option<String>,
}

pub ghost struct ContextModel {
    pub dev_mode: bool,
    pub data_dir: Option<Seq<char>>,
}

impl View for HostContext {
    type V = ContextModel;

    open spec fn view(&self) -> ContextModel {
        ContextModel {
            dev_mode: self.dev_mode,
            data_dir: match self.data_dir {
                Some(d) => Some(d@),
                None => None,
            },
        }
    }
}

pub ghost struct ManagerModel {
    pub phase: Phase,
    pub data_dir: Seq<char>,
    pub registry: Seq<ServiceModel>,
}

pub open spec fn registry_view(v: Seq<RunningService>) -> Seq<ServiceModel> {
    v.map_values(|s: RunningService| s@)
}

/// Supervises the two bundled backend services: runs the one-shot ordered
/// launch sequence and the best-effort teardown, and owns the registry of
/// running children.
pub struct BackendManager {
    pub phase: Phase,
    pub data_dir: String,
    pub registry: Vec<RunningService>,
}

impl View for BackendManager {
    type V = ManagerModel;

    open spec fn view(&self) -> ManagerModel {
        ManagerModel {
            phase: self.phase,
            data_dir: self.data_dir@,
            registry: registry_view(self.registry@),
        }
    }
}

/// A manager as constructed: latch unfired, registry empty.
pub open spec fn fresh_model() -> ManagerModel {
    ManagerModel {
        phase: Phase::NotStarted,
        data_dir: Seq::<char>::empty(),
        registry: Seq::<ServiceModel>::empty(),
    }
}

/// The registry after an attempt concluded: a `Started` outcome appends the
/// service with the host's handle, a `Failed` one records nothing.
pub open spec fn recorded(
    registry: Seq<ServiceModel>,
    name: Seq<char>,
    port: u16,
    outcome: AttemptOutcome,
) -> Seq<ServiceModel> {
    match outcome {
        AttemptOutcome::Started(h) => registry.push(ServiceModel { name, port, handle: h }),
        AttemptOutcome::Failed(_) => registry,
    }
}

/// The state after a `start_on_launch` call: a no-op once the latch has
/// fired; in a development configuration the sequence is skipped outright;
/// otherwise the data directory is fixed and the primary attempt begins.
pub open spec fn start_step(m: ManagerModel, ctx: ContextModel) -> ManagerModel {
    if m.phase != Phase::NotStarted {
        m
    } else if ctx.dev_mode {
        ManagerModel { phase: Phase::Running, ..m }
    } else {
        ManagerModel {
            phase: Phase::StartingPrimary,
            data_dir: dir_or_default_spec(ctx.data_dir),
            ..m
        }
    }
}

/// The launch request a `start_on_launch` call asks the host to perform:
/// the primary service's, or nothing.
pub open spec fn start_action(m: ManagerModel, ctx: ContextModel) -> Option<ServiceSpecModel> {
    if m.phase != Phase::NotStarted || ctx.dev_mode {
        None
    } else {
        Some(primary_spec_model(dir_or_default_spec(ctx.data_dir)))
    }
}

/// The state after the primary attempt concluded: the outcome is recorded and
/// the secondary attempt begins, whatever the outcome was.
pub open spec fn primary_step(m: ManagerModel, outcome: AttemptOutcome) -> ManagerModel {
    ManagerModel {
        phase: Phase::StartingSecondary,
        registry: recorded(m.registry, "karios-ai-service"@, PRIMARY_PORT, outcome),
        ..m
    }
}

/// The state after the secondary attempt concluded: the outcome is recorded
/// and the launch pass is over.
pub open spec fn secondary_step(m: ManagerModel, outcome: AttemptOutcome) -> ManagerModel {
    ManagerModel {
        phase: Phase::Running,
        registry: recorded(m.registry, "karios-quant-service"@, SECONDARY_PORT, outcome),
        ..m
    }
}

/// The state after `stop_all`, and the recorded services it hands the host to
/// terminate: every entry leaves the registry, in order.
pub open spec fn stop_step(m: ManagerModel) -> (ManagerModel, Seq<ServiceModel>) {
    (ManagerModel { phase: Phase::Stopped, registry: Seq::<ServiceModel>::empty(), ..m }, m.registry)
}

/// What holds of every reachable supervisor state: nothing is recorded before
/// the primary attempt concluded, at most the primary is recorded before the
/// secondary attempt concluded, never more than the two services, and a
/// stopped registry is empty.
pub open spec fn wf(m: ManagerModel) -> bool {
    &&& (m.phase == Phase::NotStarted ==> m.registry.len() == 0)
    &&& (m.phase == Phase::StartingPrimary ==> m.registry.len() == 0)
    &&& (m.phase == Phase::StartingSecondary ==> m.registry.len() <= 1)
    &&& (m.phase == Phase::Stopped ==> m.registry.len() == 0)
    &&& m.registry.len() <= 2
}

impl BackendManager {
    /// A supervisor with the latch unfired and nothing recorded.
    pub fn new() -> (r: Self)
        ensures
            r@ == fresh_model(),
            wf(r@),
    {
        let r = BackendManager {
            phase: Phase::NotStarted,
            data_dir: String::new(),
            registry: Vec::new(),
        };
        proof {
            assert(registry_view(r.registry@) =~= Seq::<ServiceModel>::empty());
        }
        r
    }

    /// Begins the one-shot launch sequence. At most the first call per
    /// supervisor does anything: once the phase has left `NotStarted` the
    /// call returns `None` and changes nothing. In a development
    /// configuration the latch fires but nothing is spawned. Otherwise the
    /// data directory is fixed (falling back to the relative current
    /// directory) and the returned request asks the host to attempt the
    /// primary service — the secondary's request is handed out only by
    /// `primary_concluded`, so the secondary attempt cannot begin before the
    /// primary's has concluded.
    pub fn start_on_launch(&mut self, ctx: &HostContext) -> (r: Option<ServiceSpec>)
        requires
            wf(old(self)@),
        ensures
            final(self)@ == start_step(old(self)@, ctx@),
            wf(final(self)@),
            r is Some <==> start_action(old(self)@, ctx@) is Some,
            r matches Some(s) ==> s@ == start_action(old(self)@, ctx@).unwrap(),
            r is Some <==> old(self)@.phase == Phase::NotStarted && !ctx.dev_mode,
    {
        if !(self.phase == Phase::NotStarted) {
            return None;
        }
        if ctx.dev_mode {
            self.phase = Phase::Running;
            return None;
        }
        self.data_dir = data_dir_or_default(&ctx.data_dir);
        self.phase = Phase::StartingPrimary;
        Some(primary_launch_spec(self.data_dir.as_str()))
    }

    /// Concludes the primary service's launch attempt: records the child when
    /// the attempt succeeded, records nothing when it failed, and in either
    /// case returns the secondary service's launch request — a failed primary
    /// never blocks or aborts the secondary's attempt.
    pub fn primary_concluded(&mut self, outcome: AttemptOutcome) -> (r: ServiceSpec)
        requires
            old(self)@.phase == Phase::StartingPrimary,
            wf(old(self)@),
        ensures
            final(self)@ == primary_step(old(self)@, outcome),
            wf(final(self)@),
            r@ == secondary_spec_model(old(self)@.data_dir),
    {
        match outcome {
            AttemptOutcome::Started(h) => {
                self.registry.push(
                    RunningService {
                        name: String::from_str("karios-ai-service"),
                        port: PRIMARY_PORT,
                        handle: h,
                    },
                );
                proof {
                    assert(registry_view(self.registry@) =~= primary_step(
                        old(self)@,
                        outcome,
                    ).registry);
                }
            },
            AttemptOutcome::Failed(_) => (),
        }
        self.phase = Phase::StartingSecondary;
        secondary_launch_spec(self.data_dir.as_str())
    }

    /// Concludes the secondary service's launch attempt and ends the launch
    /// pass: the registry now holds exactly the services whose attempts
    /// succeeded.
    pub fn secondary_concluded(&mut self, outcome: AttemptOutcome)
        requires
            old(self)@.phase == Phase::StartingSecondary,
            wf(old(self)@),
        ensures
            final(self)@ == secondary_step(old(self)@, outcome),
            wf(final(self)@),
    {
        match outcome {
            AttemptOutcome::Started(h) => {
                self.registry.push(
                    RunningService {
                        name: String::from_str("karios-quant-service"),
                        port: SECONDARY_PORT,
                        handle: h,
                    },
                );
                proof {
                    assert(registry_view(self.registry@) =~= secondary_step(
                        old(self)@,
                        outcome,
                    ).registry);
                }
            },
            AttemptOutcome::Failed(_) => (),
        }
        self.phase = Phase::Running;
    }

    /// Best-effort teardown: clears the registry and returns every recorded
    /// service, in order, for the host to terminate (individual termination
    /// errors are the host's to ignore). Safe in any phase, repeatedly: on an
    /// empty registry it hands back nothing and merely marks the supervisor
    /// stopped.
    pub fn stop_all(&mut self) -> (r: Vec<RunningService>)
        ensures
            final(self)@ == stop_step(old(self)@).0,
            wf(final(self)@),
            registry_view(r@) == stop_step(old(self)@).1,
    {
        let mut r: Vec<RunningService> = Vec::new();
        core::mem::swap(&mut r, &mut self.registry);
        self.phase = Phase::Stopped;
        proof {
            assert(registry_view(self.registry@) =~= Seq::<ServiceModel>::empty());
        }
        r
    }
}

/// Each phase's position in the supervisor's linear lifecycle.
pub open spec fn phase_rank(p: Phase) -> nat {
    match p {
        Phase::NotStarted => 0,
        Phase::StartingPrimary => 1,
        Phase::StartingSecondary => 2,
        Phase::Running => 3,
        Phase::Stopped => 4,
    }
}

/// The lifecycle is linear: no transition moves the phase backwards — the
/// latch never reverts, the secondary attempt's phase is reachable only
/// through the primary attempt's conclusion, and `Stopped` is where every
/// path ends.
pub proof fn lemma_phase_monotone(m: ManagerModel, ctx: ContextModel, o: AttemptOutcome)
    ensures
        phase_rank(start_step(m, ctx).phase) >= phase_rank(m.phase),
        m.phase == Phase::StartingPrimary ==> phase_rank(primary_step(m, o).phase) > phase_rank(
            m.phase,
        ),
        m.phase == Phase::StartingSecondary ==> phase_rank(secondary_step(m, o).phase)
            > phase_rank(m.phase),
        phase_rank(stop_step(m).0.phase) >= phase_rank(m.phase),
{
}

/// Idempotence of `start`: the first call moves the supervisor out of
/// `NotStarted`, and any call finding it out of `NotStarted` — however many
/// calls came before, and whatever context each carried — changes nothing and
/// requests no launch. So over any number of calls the launch sequence's body
/// runs exactly once.
pub proof fn lemma_start_idempotent(m: ManagerModel, ctx1: ContextModel, ctx2: ContextModel)
    ensures
        start_step(m, ctx1).phase != Phase::NotStarted,
        m.phase != Phase::NotStarted ==> start_step(m, ctx2) == m && start_action(m, ctx2) is None,
        start_step(start_step(m, ctx1), ctx2) == start_step(m, ctx1),
        start_action(start_step(m, ctx1), ctx2) is None,
{
}

/// `stop` is terminal and idempotent: it always leaves the empty, `Stopped`
/// state; a second consecutive `stop` yields that same state and terminates
/// nothing; and on an already empty registry the first `stop` already
/// terminates nothing.
pub proof fn lemma_stop_idempotent(m: ManagerModel)
    ensures
        stop_step(m).0.phase == Phase::Stopped,
        stop_step(m).0.registry.len() == 0,
        stop_step(stop_step(m).0).0 == stop_step(m).0,
        stop_step(stop_step(m).0).1 == Seq::<ServiceModel>::empty(),
        m.registry.len() == 0 ==> stop_step(m).1 =~= m.registry,
{
}

/// Ordering of the launch sequence: the initial transition requests the
/// primary service or nothing — never the secondary — and it never enters the
/// phase in which the secondary attempt is in flight. The secondary's request
/// exists only as the result of `primary_concluded`, the transition that
/// consumes the primary attempt's outcome, so the secondary attempt never
/// begins before the primary's attempt has concluded.
pub proof fn lemma_primary_before_secondary(m: ManagerModel, ctx: ContextModel)
    ensures
        start_action(m, ctx) matches Some(s) ==> s == primary_spec_model(
            dir_or_default_spec(ctx.data_dir),
        ),
        start_action(m, ctx) matches Some(s) ==> s.port == PRIMARY_PORT && s.name
            == "karios-ai-service"@,
        start_step(m, ctx).phase == Phase::StartingSecondary ==> m.phase
            == Phase::StartingSecondary,
{
}

/// Failure isolation: a failed attempt — a binary that was never found, a
/// spawn the OS refused, or a port that never opened within its deadline — is
/// never recorded in the registry, and never blocks the other service: the
/// sequence still advances past it, and a failed primary still hands out the
/// secondary's launch request.
pub proof fn lemma_failed_attempt_isolated(m: ManagerModel, e: LaunchError)
    ensures
        primary_step(m, AttemptOutcome::Failed(e)).registry == m.registry,
        primary_step(m, AttemptOutcome::Failed(e)).phase == Phase::StartingSecondary,
        secondary_step(m, AttemptOutcome::Failed(e)).registry == m.registry,
        secondary_step(m, AttemptOutcome::Failed(e)).phase == Phase::Running,
{
}

/// Partial failure: run from a fresh supervisor with the primary failing and
/// the secondary succeeding, the pass ends with exactly one registry entry —
/// the secondary, under the host's handle — and `stop` hands back exactly
/// that one service before leaving the registry empty.
pub proof fn lemma_partial_failure(ctx: ContextModel, e: LaunchError, h: u64)
    requires
        !ctx.dev_mode,
    ensures
        ({
            let m1 = start_step(fresh_model(), ctx);
            let m2 = primary_step(m1, AttemptOutcome::Failed(e));
            let m3 = secondary_step(m2, AttemptOutcome::Started(h));
            &&& m3.registry.len() == 1
            &&& m3.registry[0] == (ServiceModel {
                name: "karios-quant-service"@,
                port: SECONDARY_PORT,
                handle: h,
            })
            &&& stop_step(m3).1 == m3.registry
            &&& stop_step(m3).0.registry.len() == 0
        }),
{
}

} // verus!
