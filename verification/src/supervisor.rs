//! The supervisor: the one place that holds the child, if there is one.
//!
//! A start never launches a second child beside a server that is up, a stop
//! hands out the child to be ended and holds nothing afterwards, and a restart
//! is a stop, a pause, and a start. How a child that was handed out is ended
//! is told by [`crate::stop::StopFlow`].

use vstd::prelude::*;
use vstd::string::*;
use crate::health::SERVER_PORT;
use crate::host::{Host, HostFacts};
use crate::launch::{
    plan_start,
    spec_plan_start,
    LaunchSpec,
    StartError,
    StartErrorView,
    StartPlan,
    StartPlanView,
};

verus! {

/// How long a restart waits between the stop and the start, in milliseconds,
/// so that the port is free again.
pub const RESTART_DELAY_MILLIS: u64 = 500;

/// Where the supervisor stands.
#[derive(Debug, Clone, Copy, PartialEq, Eq, Structural)]
pub enum Phase {
    /// No server is known to run, and no child is held.
    Stopped,
    /// A start is under way.
    Starting,
    /// The server runs: as the child that is held, or as someone else's.
    Running,
    /// A stop is under way: the child was handed out to be ended.
    Stopping,
}

/// How a start ended.
#[derive(Debug)]
pub enum StartReport<H> {
    /// The server was up already, and nothing was launched.
    AlreadyRunning,
    /// The child was launched; this is its handle.
    Spawned(H),
    /// Nothing was launched.
    Failed(StartError),
}

/// A [`StartReport`] with its text as sequences of characters.
pub enum StartReportView<H> {
    AlreadyRunning,
    Spawned(H),
    Failed(StartErrorView),
}

impl<H> View for StartReport<H> {
    type V = StartReportView<H>;

    open spec fn view(&self) -> StartReportView<H> {
        match *self {
            StartReport::AlreadyRunning => StartReportView::AlreadyRunning,
            StartReport::Spawned(child) => StartReportView::Spawned(child),
            StartReport::Failed(error) => StartReportView::Failed(error@),
        }
    }
}

/// What launching gave, with its text as a sequence of characters.
pub open spec fn spawned_view<H>(spawned: Result<H, String>) -> Result<H, Seq<char>> {
    match spawned {
        Ok(child) => Ok(child),
        Err(cause) => Err(cause@),
    }
}

/// What a start returns, with its text as a sequence of characters.
pub open spec fn result_view(result: Result<(), StartError>) -> Result<(), StartErrorView> {
    match result {
        Ok(()) => Ok(()),
        Err(error) => Err(error@),
    }
}

/// How a start ends that went by `plan`, where launching gave, or would have
/// given, `spawned`.
pub open spec fn spec_report<H>(
    plan: StartPlanView,
    spawned: Result<H, Seq<char>>,
) -> StartReportView<H> {
    match plan {
        StartPlanView::AlreadyRunning => StartReportView::AlreadyRunning,
        StartPlanView::Launch(_) => match spawned {
            Ok(child) => StartReportView::Spawned(child),
            Err(cause) => StartReportView::Failed(StartErrorView::SpawnFailed(cause)),
        },
        StartPlanView::Fail(error) => StartReportView::Failed(error),
    }
}

impl<H> StartReportView<H> {
    /// What the start returns.
    pub open spec fn result(self) -> Result<(), StartErrorView> {
        match self {
            StartReportView::Failed(error) => Err(error),
            _ => Ok(()),
        }
    }
}

/// The supervisor as a value: where it stands, and the child it holds.
pub struct SupervisorView<H> {
    pub phase: Phase,
    pub child: Option<H>,
}

impl<H> SupervisorView<H> {
    /// A supervisor holds no child while it is stopped or stopping.
    pub open spec fn wf(self) -> bool {
        (self.phase == Phase::Stopped || self.phase == Phase::Stopping) ==> self.child is None
    }

    /// The supervisor before anything was started.
    pub open spec fn idle() -> SupervisorView<H> {
        SupervisorView { phase: Phase::Stopped, child: None }
    }

    /// Where a supervisor stands when nothing is under way: it runs if it
    /// holds a child.
    pub open spec fn at_rest(self) -> Phase {
        if self.child is Some {
            Phase::Running
        } else {
            Phase::Stopped
        }
    }

    /// The supervisor once a start is under way.
    pub open spec fn begin_start(self) -> SupervisorView<H> {
        SupervisorView { phase: Phase::Starting, child: self.child }
    }

    /// The supervisor once a start has ended as `report` says. A start that
    /// failed leaves the child alone; the supervisor is then at rest.
    pub open spec fn finish_start(self, report: StartReportView<H>) -> SupervisorView<H> {
        match report {
            StartReportView::AlreadyRunning => SupervisorView {
                phase: Phase::Running,
                child: self.child,
            },
            StartReportView::Spawned(child) => SupervisorView {
                phase: Phase::Running,
                child: Some(child),
            },
            StartReportView::Failed(_) => SupervisorView {
                phase: self.at_rest(),
                child: self.child,
            },
        }
    }

    /// The child that a start which ended as `report` says has pushed out of
    /// the supervisor.
    pub open spec fn displaced(self, report: StartReportView<H>) -> Option<H> {
        match report {
            StartReportView::Spawned(_) => self.child,
            _ => None,
        }
    }

    /// The supervisor once a stop is under way: the child is handed out.
    pub open spec fn begin_stop(self) -> SupervisorView<H> {
        SupervisorView { phase: Phase::Stopping, child: None }
    }

    /// The supervisor once a stop has ended.
    pub open spec fn finish_stop(self) -> SupervisorView<H> {
        SupervisorView { phase: self.at_rest(), child: self.child }
    }

    /// The supervisor after a start by `plan`, where launching gave, or would
    /// have given, `spawned`.
    pub open spec fn start(self, plan: StartPlanView, spawned: Result<H, Seq<char>>) -> SupervisorView<
        H,
    > {
        self.begin_start().finish_start(spec_report(plan, spawned))
    }

    /// The supervisor after a stop.
    pub open spec fn stop(self) -> SupervisorView<H> {
        self.begin_stop().finish_stop()
    }

    /// The supervisor after a restart.
    pub open spec fn restart(self, plan: StartPlanView, spawned: Result<H, Seq<char>>) -> SupervisorView<
        H,
    > {
        self.stop().start(plan, spawned)
    }
}

/// Every step leaves a supervisor that holds no child while stopped or
/// stopping, whatever it was before.
pub proof fn lemma_steps_are_well_formed<H>(before: SupervisorView<H>, report: StartReportView<H>)
    ensures
        SupervisorView::<H>::idle().wf(),
        before.begin_start().wf(),
        before.finish_start(report).wf(),
        before.begin_stop().wf(),
        before.finish_stop().wf(),
{
}

/// A start while the server is up launches nothing: the plan is to leave it
/// alone, the supervisor holds the child it held, no child is pushed out, and
/// a second such start changes nothing at all.
pub proof fn lemma_start_is_idempotent<H>(
    before: SupervisorView<H>,
    host: Host,
    first: Result<H, Seq<char>>,
    second: Result<H, Seq<char>>,
)
    requires
        host.listens(SERVER_PORT),
    ensures
        spec_plan_start(host) == StartPlanView::AlreadyRunning,
        spec_report(spec_plan_start(host), first) == StartReportView::<H>::AlreadyRunning,
        before.start(spec_plan_start(host), first).child == before.child,
        before.start(spec_plan_start(host), first).phase == Phase::Running,
        before.begin_start().displaced(spec_report(spec_plan_start(host), first)) is None,
        before.start(spec_plan_start(host), first).start(spec_plan_start(host), second)
            == before.start(spec_plan_start(host), first),
{
}

/// A stop leaves a stopped supervisor without a child, so a stop after a stop
/// hands out nothing and changes nothing; and a stop of a supervisor that
/// holds no child hands out nothing either.
pub proof fn lemma_stop_is_idempotent<H>(before: SupervisorView<H>)
    ensures
        before.stop() == SupervisorView::<H>::idle(),
        before.stop().child is None,
        before.stop().stop() == before.stop(),
{
}

/// A restart never holds the old child and the new one together: the start
/// within it finds a supervisor without a child, so it pushes none out, and
/// where the launch succeeds the supervisor holds the new child and runs. A
/// restart that fails leaves the supervisor stopped.
pub proof fn lemma_restart_never_overlaps<H>(
    before: SupervisorView<H>,
    plan: StartPlanView,
    spawned: Result<H, Seq<char>>,
)
    ensures
        before.stop().child is None,
        before.stop().begin_start().displaced(spec_report(plan, spawned)) is None,
        spec_report(plan, spawned) matches StartReportView::Spawned(child) ==> before.restart(
            plan,
            spawned,
        ) == (SupervisorView { phase: Phase::Running, child: Some(child) }),
        spec_report(plan, spawned) is AlreadyRunning ==> before.restart(plan, spawned) == (
        SupervisorView::<H> { phase: Phase::Running, child: None }),
        spec_report(plan, spawned) is Failed ==> before.restart(plan, spawned)
            == SupervisorView::<H>::idle(),
{
}

/// What a start has done.
#[derive(Debug)]
pub struct Started<H> {
    /// What the start returns.
    pub result: Result<(), StartError>,
    /// The child that the new one pushed out of the supervisor, if any. It is
    /// no longer supervised; the caller ends it.
    pub displaced: Option<H>,
}

/// What a restart has done.
#[derive(Debug)]
pub struct Restarted<H> {
    /// The child that the stop handed out to be ended, if any.
    pub released: Option<H>,
    /// What the start returned.
    pub result: Result<(), StartError>,
}

impl StartPlan {
    /// The command to launch, or how the start ends without a launch.
    pub fn into_launch<H>(self) -> (launch: Result<LaunchSpec, StartReport<H>>)
        ensures
            match self@ {
                StartPlanView::AlreadyRunning => launch matches Err(report) && report@
                    == StartReportView::<H>::AlreadyRunning,
                StartPlanView::Launch(spec) => launch matches Ok(command) && command@ == spec,
                StartPlanView::Fail(error) => launch matches Err(report) && report@
                    == StartReportView::<H>::Failed(error),
            },
    {
        match self {
            StartPlan::AlreadyRunning => Err(StartReport::AlreadyRunning),
            StartPlan::Launch(spec) => Ok(spec),
            StartPlan::Fail(error) => Err(StartReport::Failed(error)),
        }
    }
}

impl<H> StartReport<H> {
    /// How a start ends whose launch gave `spawned`.
    pub fn from_spawn(spawned: Result<H, String>) -> (report: StartReport<H>)
        ensures
            match spawned {
                Ok(child) => report@ == StartReportView::Spawned(child),
                Err(cause) => report@ == StartReportView::<H>::Failed(
                    StartErrorView::SpawnFailed(cause@),
                ),
            },
    {
        match spawned {
            Ok(child) => StartReport::Spawned(child),
            Err(cause) => StartReport::Failed(StartError::SpawnFailed(cause)),
        }
    }

    /// How a start ends that went by `plan`, where launching gave, or would
    /// have given, `spawned`.
    pub fn of(plan: StartPlan, spawned: Result<H, String>) -> (report: StartReport<H>)
        ensures
            report@ == spec_report(plan@, spawned_view(spawned)),
    {
        match plan.into_launch() {
            Ok(_) => StartReport::from_spawn(spawned),
            Err(report) => report,
        }
    }
}

/// The supervisor of one server.
#[derive(Debug)]
pub struct Supervisor<H> {
    phase: Phase,
    child: Option<H>,
}

impl<H> View for Supervisor<H> {
    type V = SupervisorView<H>;

    closed spec fn view(&self) -> SupervisorView<H> {
        SupervisorView { phase: self.phase, child: self.child }
    }
}

impl<H> Supervisor<H> {
    /// A supervisor that has started nothing.
    pub fn new() -> (supervisor: Supervisor<H>)
        ensures
            supervisor@ == SupervisorView::<H>::idle(),
    {
        Supervisor { phase: Phase::Stopped, child: None }
    }

    /// Where the supervisor stands.
    pub fn phase(&self) -> (phase: Phase)
        ensures
            phase == self@.phase,
    {
        self.phase
    }

    /// Whether the supervisor holds a child.
    pub fn owns_child(&self) -> (owns: bool)
        ensures
            owns == self@.child is Some,
    {
        self.child.is_some()
    }

    /// The child that the supervisor holds.
    pub fn child(&self) -> (child: Option<&H>)
        ensures
            child is Some <==> self@.child is Some,
            child matches Some(held) ==> self@.child == Some(*held),
    {
        self.child.as_ref()
    }

    /// Notes that a start is under way.
    pub fn begin_start(&mut self)
        ensures
            final(self)@ == old(self)@.begin_start(),
    {
        self.phase = Phase::Starting;
    }

    /// Notes how a start ended, and takes the child if one was launched.
    pub fn finish_start(&mut self, report: StartReport<H>) -> (started: Started<H>)
        ensures
            final(self)@ == old(self)@.finish_start(report@),
            final(self)@.wf(),
            started.displaced == old(self)@.displaced(report@),
            result_view(started.result) == report@.result(),
    {
        match report {
            StartReport::AlreadyRunning => {
                self.phase = Phase::Running;
                Started { result: Ok(()), displaced: None }
            },
            StartReport::Spawned(child) => {
                let displaced = self.child.take();
                self.child = Some(child);
                self.phase = Phase::Running;
                Started { result: Ok(()), displaced }
            },
            StartReport::Failed(error) => {
                self.phase = if self.child.is_some() {
                    Phase::Running
                } else {
                    Phase::Stopped
                };
                Started { result: Err(error), displaced: None }
            },
        }
    }

    /// Notes that a stop is under way, and hands out the child to be ended.
    pub fn begin_stop(&mut self) -> (released: Option<H>)
        ensures
            final(self)@ == old(self)@.begin_stop(),
            final(self)@.wf(),
            released == old(self)@.child,
    {
        self.phase = Phase::Stopping;
        self.child.take()
    }

    /// Notes that a stop has ended.
    pub fn finish_stop(&mut self)
        ensures
            final(self)@ == old(self)@.finish_stop(),
            final(self)@.wf(),
    {
        self.phase = if self.child.is_some() {
            Phase::Running
        } else {
            Phase::Stopped
        };
    }
}

/// Starts the server on `host`: plans the start, and takes `spawned` for what
/// launching gives where the plan is to launch.
pub fn start_server<H>(
    supervisor: &mut Supervisor<H>,
    host: &HostFacts,
    spawned: Result<H, String>,
) -> (started: Started<H>)
    ensures
        final(supervisor)@ == old(supervisor)@.start(spec_plan_start(host@), spawned_view(spawned)),
        final(supervisor)@.wf(),
        result_view(started.result) == spec_report(
            spec_plan_start(host@),
            spawned_view(spawned),
        ).result(),
        started.displaced == old(supervisor)@.begin_start().displaced(
            spec_report(spec_plan_start(host@), spawned_view(spawned)),
        ),
{
    supervisor.begin_start();
    let plan = plan_start(host);
    supervisor.finish_start(StartReport::of(plan, spawned))
}

/// Stops the server: hands out the child to be ended, if one is held. It never
/// fails.
pub fn stop_server<H>(supervisor: &mut Supervisor<H>) -> (released: Option<H>)
    ensures
        final(supervisor)@ == old(supervisor)@.stop(),
        final(supervisor)@ == SupervisorView::<H>::idle(),
        released == old(supervisor)@.child,
{
    let released = supervisor.begin_stop();
    supervisor.finish_stop();
    released
}

/// What a restart on `host` comes to: the supervisor after a stop and a start,
/// the child that the stop has handed out, and what the start has returned.
/// Nothing here happens in time. The order in time is kept by whoever
/// restarts a real server: [`stop_server`], the ending of the child that it
/// handed out, a pause of [`RESTART_DELAY_MILLIS`], the launch, and
/// [`start_server`].
pub fn restart_server<H>(
    supervisor: &mut Supervisor<H>,
    host: &HostFacts,
    spawned: Result<H, String>,
) -> (restarted: Restarted<H>)
    ensures
        final(supervisor)@ == old(supervisor)@.restart(
            spec_plan_start(host@),
            spawned_view(spawned),
        ),
        final(supervisor)@.wf(),
        restarted.released == old(supervisor)@.child,
        result_view(restarted.result) == spec_report(
            spec_plan_start(host@),
            spawned_view(spawned),
        ).result(),
{
    let released = stop_server(supervisor);
    let started = start_server(supervisor, host, spawned);
    Restarted { released, result: started.result }
}

} // verus!
