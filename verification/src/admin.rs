//! The admin context: what it holds, and what it does on each event.
//!
//! The admin server runs apart from the serving path. It launches the
//! resolvers' executors, exports a metrics snapshot at every tick of a
//! timer, and serves admin connections, one of which may trigger the
//! shutdown. What happens in which order, and what an event leads to, is
//! decided by [`AdminLoop::step`]; timers and sockets are its caller's.

use crate::config::AdminSettings;
use crate::metrics::{export, registry_of_reporter, rendered, report_text};
use crate::net::SocketAddr;
use crate::shutdown::{
    deadline, deadline_after, latch_of_sender, Closer, Moment, ShutdownLatch,
};
use std::collections::VecDeque;
use vstd::prelude::*;

verus! {

/// Spawns resolvers before running the admin server.
///
/// Holds what the admin context runs on: the listener's address, the
/// metrics reporter, the executor of every router's resolver in router
/// order, the grace period and the metrics export interval.
pub struct AdminRunner<E> {
    addr: SocketAddr,
    reporter: tacho::Reporter,
    resolvers: VecDeque<E>,
    grace_secs: u64,
    metrics_interval_secs: u64,
}

impl<E> AdminRunner<E> {
    /// The listener's address, the grace period and the export interval.
    pub closed spec fn settings(&self) -> AdminSettings {
        AdminSettings {
            addr: self.addr,
            grace_secs: self.grace_secs,
            metrics_interval_secs: self.metrics_interval_secs,
        }
    }

    /// The resolvers' executors still to be launched, next first.
    pub closed spec fn resolvers(&self) -> Seq<E> {
        self.resolvers@
    }

    /// The reporter that metrics snapshots are taken from.
    pub closed spec fn reporter(&self) -> tacho::Reporter {
        self.reporter
    }

    /// An admin runner of these settings that holds this reporter and
    /// these executors.
    pub fn new(settings: AdminSettings, reporter: tacho::Reporter, resolvers: VecDeque<E>) -> (admin:
        Self)
        ensures
            admin.settings() == settings,
            admin.reporter() == reporter,
            admin.resolvers() == resolvers@,
    {
        AdminRunner {
            addr: settings.addr,
            reporter,
            resolvers,
            grace_secs: settings.grace_secs,
            metrics_interval_secs: settings.metrics_interval_secs,
        }
    }

    /// The address the admin server listens on.
    pub fn addr(&self) -> (addr: SocketAddr)
        ensures
            addr == self.settings().addr,
    {
        self.addr
    }

    /// The grace period, in seconds.
    pub fn grace_secs(&self) -> (secs: u64)
        ensures
            secs == self.settings().grace_secs,
    {
        self.grace_secs
    }

    /// The metrics export interval, in seconds.
    pub fn metrics_interval_secs(&self) -> (secs: u64)
        ensures
            secs == self.settings().metrics_interval_secs,
    {
        self.metrics_interval_secs
    }

    /// The number of resolver executors still to be launched.
    pub fn pending_resolvers(&self) -> (n: usize)
        ensures
            n == self.resolvers().len(),
    {
        self.resolvers.len()
    }

    /// Runs the admin server: hands everything it holds to an admin
    /// context at its start, with no snapshot exported yet.
    ///
    /// When the shutdown endpoint is triggered, a shutdown deadline is sent
    /// on `closer`.
    pub fn run(self, closer: Closer) -> (admin: AdminLoop<E>)
        ensures
            admin.phase() == AdminPhase::Starting,
            admin.settings() == self.settings(),
            admin.pending() == self.resolvers(),
            admin.registry() == registry_of_reporter(self.reporter()),
            admin.latch() == Some(latch_of_sender(closer)),
            admin.export_text() == Seq::<char>::empty(),
    {
        AdminLoop {
            settings: AdminSettings {
                addr: self.addr,
                grace_secs: self.grace_secs,
                metrics_interval_secs: self.metrics_interval_secs,
            },
            reporter: self.reporter,
            resolvers: self.resolvers,
            latch: ShutdownLatch::new(closer),
            export: String::new(),
            phase: AdminPhase::Starting,
        }
    }
}

/// How far the admin context has come.
#[derive(Clone, Copy, Debug, PartialEq, Eq, Structural)]
pub enum AdminPhase {
    /// The resolvers' executors are being launched.
    Starting,
    /// The metrics export is to be started.
    Reporting,
    /// The listener is being bound.
    Binding,
    /// The listener is bound and connections are served.
    Serving,
    /// The admin context has ended on an unrecoverable fault.
    Stopped,
}

/// What the admin context is told.
#[derive(Clone, Copy, Debug, PartialEq, Eq, Structural)]
pub enum AdminEvent {
    /// The action last returned is done; at the start, nothing was.
    Ready,
    /// The metrics timer fired.
    Tick,
    /// The listener could not be bound.
    BindFailed,
    /// A connection was accepted.
    Accepted,
    /// Serving one connection failed.
    ServeFailed,
    /// The listener failed and accepts no more.
    ListenerFailed,
    /// The shutdown endpoint was triggered at this moment.
    ShutdownRequested(Moment),
}

/// A fault that ends the admin context.
#[derive(Clone, Copy, Debug, PartialEq, Eq, Structural)]
pub enum Fault {
    /// The listener could not be bound.
    Bind,
    /// The listener failed.
    Listener,
    /// A metrics snapshot could not be rendered.
    Render,
}

/// What the admin context's caller is to do next.
#[derive(Debug)]
pub enum AdminAction<E> {
    /// Launch this executor's polling task on the admin context.
    LaunchResolver(E),
    /// Start the timer that ticks at this interval, in seconds.
    StartReporting(u64),
    /// Bind the listener at this address.
    Bind(SocketAddr),
    /// Accept connections.
    Accept,
    /// Nothing: a snapshot was exported.
    Exported,
    /// Serve the accepted connection.
    Serve,
    /// Log the failure and go on.
    LogServeError,
    /// Nothing: the latch was fired with this deadline; whether the
    /// receiving half was still there to get it.
    Shutdown { deadline: Moment, delivered: bool },
    /// Nothing: a shutdown was requested before.
    AlreadyRequested,
    /// Nothing: the deadline of this request cannot be represented, and
    /// the latch was not fired.
    Unrepresentable,
    /// Give up: the admin context has ended on this fault.
    Abort(Fault),
    /// Nothing: the event does not belong to this phase.
    Ignore,
}

/// The admin context while it runs.
pub struct AdminLoop<E> {
    settings: AdminSettings,
    reporter: tacho::Reporter,
    resolvers: VecDeque<E>,
    latch: ShutdownLatch,
    export: String,
    phase: AdminPhase,
}

/// Two states of an admin context agree but for their phase.
pub open spec fn same_but_phase<E>(a: AdminLoop<E>, b: AdminLoop<E>) -> bool {
    &&& a.settings() == b.settings()
    &&& a.pending() == b.pending()
    &&& a.latch() == b.latch()
    &&& a.registry() == b.registry()
    &&& a.export_text() == b.export_text()
}

/// Two states of an admin context agree.
pub open spec fn same_state<E>(a: AdminLoop<E>, b: AdminLoop<E>) -> bool {
    same_but_phase(a, b) && a.phase() == b.phase()
}

/// What a tick of the metrics timer does with the snapshot it takes: where
/// the snapshot can be rendered, its text is the latest export and the
/// phase stays; where it cannot, the admin context ends.
pub open spec fn ticked<E>(
    before: AdminLoop<E>,
    after: AdminLoop<E>,
    action: AdminAction<E>,
    report: tacho::Report,
) -> bool {
    match report_text(report) {
        Some(text) => {
            &&& action == AdminAction::<E>::Exported
            &&& after.phase() == before.phase()
            &&& after.export_text() == text
        },
        None => {
            &&& action == AdminAction::<E>::Abort(Fault::Render)
            &&& after.phase() == AdminPhase::Stopped
        },
    }
}

/// What a step does: the state after an event and the action returned,
/// given the state before.
///
/// At the start every executor is launched, in the order held, then the
/// metrics export is started, then the listener bound, then connections
/// accepted. From the export's start on, a tick exports a snapshot; where
/// that cannot be rendered the context ends. While serving, a connection
/// is served when accepted, and one that fails is logged and changes
/// nothing; a failed listener ends the context. The first shutdown
/// request whose deadline is representable fires the latch with the
/// moment of the request plus the grace period; a later one changes
/// nothing. An event that does not belong to the phase changes nothing.
pub open spec fn stepped<E>(
    before: AdminLoop<E>,
    event: AdminEvent,
    after: AdminLoop<E>,
    action: AdminAction<E>,
) -> bool {
    match (before.phase(), event) {
        (AdminPhase::Starting, AdminEvent::Ready) => if before.pending().len() > 0 {
            &&& action == AdminAction::LaunchResolver(before.pending()[0])
            &&& after.pending() == before.pending().drop_first()
            &&& after.phase() == AdminPhase::Starting
            &&& after.settings() == before.settings()
            &&& after.latch() == before.latch()
            &&& after.registry() == before.registry()
            &&& after.export_text() == before.export_text()
        } else {
            &&& action == AdminAction::<E>::StartReporting(
                before.settings().metrics_interval_secs,
            )
            &&& after.phase() == AdminPhase::Reporting
            &&& same_but_phase(before, after)
        },
        (AdminPhase::Reporting, AdminEvent::Ready) => {
            &&& action == AdminAction::<E>::Bind(before.settings().addr)
            &&& after.phase() == AdminPhase::Binding
            &&& same_but_phase(before, after)
        },
        (AdminPhase::Binding, AdminEvent::Ready) => {
            &&& action == AdminAction::<E>::Accept
            &&& after.phase() == AdminPhase::Serving
            &&& same_but_phase(before, after)
        },
        (AdminPhase::Binding, AdminEvent::BindFailed) => {
            &&& action == AdminAction::<E>::Abort(Fault::Bind)
            &&& after.phase() == AdminPhase::Stopped
            &&& same_but_phase(before, after)
        },
        (AdminPhase::Reporting, AdminEvent::Tick)
        | (AdminPhase::Binding, AdminEvent::Tick)
        | (AdminPhase::Serving, AdminEvent::Tick) => {
            &&& after.settings() == before.settings()
            &&& after.pending() == before.pending()
            &&& after.latch() == before.latch()
            &&& after.registry() == before.registry()
            &&& exists|report: tacho::Report| ticked(before, after, action, report)
        },
        (AdminPhase::Serving, AdminEvent::Accepted) => {
            &&& action == AdminAction::<E>::Serve
            &&& same_state(before, after)
        },
        (AdminPhase::Serving, AdminEvent::ServeFailed) => {
            &&& action == AdminAction::<E>::LogServeError
            &&& same_state(before, after)
        },
        (AdminPhase::Serving, AdminEvent::ListenerFailed) => {
            &&& action == AdminAction::<E>::Abort(Fault::Listener)
            &&& after.phase() == AdminPhase::Stopped
            &&& same_but_phase(before, after)
        },
        (AdminPhase::Serving, AdminEvent::ShutdownRequested(now)) => if !before.armed() {
            &&& action == AdminAction::<E>::AlreadyRequested
            &&& same_state(before, after)
        } else {
            match deadline_after(now, before.settings().grace_secs) {
                None => {
                    &&& action == AdminAction::<E>::Unrepresentable
                    &&& same_state(before, after)
                },
                Some(at) => {
                    &&& action matches AdminAction::Shutdown { deadline, .. }
                    &&& deadline == at
                    &&& !after.armed()
                    &&& after.registry() == before.registry()
                    &&& after.phase() == AdminPhase::Serving
                    &&& after.settings() == before.settings()
                    &&& after.pending() == before.pending()
                    &&& after.export_text() == before.export_text()
                },
            }
        },
        _ => {
            &&& action == AdminAction::<E>::Ignore
            &&& same_state(before, after)
        },
    }
}

impl<E> AdminLoop<E> {
    /// The listener's address, the grace period and the export interval.
    pub closed spec fn settings(&self) -> AdminSettings {
        self.settings
    }

    /// The resolvers' executors still to be launched, next first.
    pub closed spec fn pending(&self) -> Seq<E> {
        self.resolvers@
    }

    /// The registry that metrics snapshots are taken from.
    pub closed spec fn registry(&self) -> int {
        registry_of_reporter(self.reporter)
    }

    /// The latch that the shutdown deadline would be sent on, while no
    /// shutdown was requested.
    pub closed spec fn latch(&self) -> Option<int> {
        self.latch.latch()
    }

    /// Whether no shutdown has been requested yet.
    pub open spec fn armed(&self) -> bool {
        self.latch() is Some
    }

    /// The latest metrics snapshot, rendered.
    pub closed spec fn export_text(&self) -> Seq<char> {
        self.export@
    }

    /// How far the admin context has come.
    pub closed spec fn phase(&self) -> AdminPhase {
        self.phase
    }

    /// How far the admin context has come.
    pub fn current_phase(&self) -> (phase: AdminPhase)
        ensures
            phase == self.phase(),
    {
        self.phase
    }

    /// The latest metrics snapshot, rendered for a scrape.
    pub fn metrics(&self) -> (text: &String)
        ensures
            text@ == self.export_text(),
    {
        &self.export
    }

    /// Whether no shutdown has been requested yet.
    pub fn is_armed(&self) -> (b: bool)
        ensures
            b == self.armed(),
    {
        self.latch.is_armed()
    }

    /// Takes the admin context one step on: the event changes the state
    /// and decides what the caller is to do next.
    pub fn step(&mut self, event: AdminEvent) -> (action: AdminAction<E>)
        ensures
            stepped(*old(self), event, *final(self), action),
    {
        match (self.phase, event) {
            (AdminPhase::Starting, AdminEvent::Ready) => {
                match self.resolvers.pop_front() {
                    Some(executor) => {
                        assert(final(self).resolvers@ =~= old(self).resolvers@.drop_first());
                        AdminAction::LaunchResolver(executor)
                    },
                    None => {
                        self.phase = AdminPhase::Reporting;
                        AdminAction::StartReporting(self.settings.metrics_interval_secs)
                    },
                }
            },
            (AdminPhase::Reporting, AdminEvent::Ready) => {
                self.phase = AdminPhase::Binding;
                AdminAction::Bind(self.settings.addr)
            },
            (AdminPhase::Binding, AdminEvent::Ready) => {
                self.phase = AdminPhase::Serving;
                AdminAction::Accept
            },
            (AdminPhase::Binding, AdminEvent::BindFailed) => {
                self.phase = AdminPhase::Stopped;
                AdminAction::Abort(Fault::Bind)
            },
            (AdminPhase::Reporting, AdminEvent::Tick)
            | (AdminPhase::Binding, AdminEvent::Tick)
            | (AdminPhase::Serving, AdminEvent::Tick) => {
                let outcome = export(&mut self.reporter, &mut self.export);
                let ghost report = choose|report: tacho::Report|
                    rendered(report, outcome, self.export@);
                let action = match outcome {
                    Ok(()) => AdminAction::Exported,
                    Err(_) => {
                        self.phase = AdminPhase::Stopped;
                        AdminAction::Abort(Fault::Render)
                    },
                };
                assert(ticked(*old(self), *self, action, report));
                action
            },
            (AdminPhase::Serving, AdminEvent::Accepted) => AdminAction::Serve,
            (AdminPhase::Serving, AdminEvent::ServeFailed) => AdminAction::LogServeError,
            (AdminPhase::Serving, AdminEvent::ListenerFailed) => {
                self.phase = AdminPhase::Stopped;
                AdminAction::Abort(Fault::Listener)
            },
            (AdminPhase::Serving, AdminEvent::ShutdownRequested(now)) => {
                if !self.latch.is_armed() {
                    AdminAction::AlreadyRequested
                } else {
                    match deadline(now, self.settings.grace_secs) {
                        None => AdminAction::Unrepresentable,
                        Some(at) => {
                            let delivered = match self.latch.fire(at) {
                                Ok(()) => true,
                                Err(_) => false,
                            };
                            AdminAction::Shutdown { deadline: at, delivered }
                        },
                    }
                }
            },
            _ => AdminAction::Ignore,
        }
    }
}

/// At the start the resolvers' executors are launched one by one, in the
/// order held, and nothing else happens before the last is launched.
pub proof fn resolvers_are_launched_in_order<E>(
    before: AdminLoop<E>,
    after: AdminLoop<E>,
    action: AdminAction<E>,
)
    requires
        before.phase() == AdminPhase::Starting,
        before.pending().len() > 0,
        stepped(before, AdminEvent::Ready, after, action),
    ensures
        action == AdminAction::LaunchResolver(before.pending()[0]),
        after.pending() == before.pending().drop_first(),
        after.phase() == AdminPhase::Starting,
{
}

/// Shutdown is single-use: the first request while serving fires the latch
/// with the moment of the request plus the grace period, and a second
/// request, whenever it comes, fires nothing and changes nothing.
pub proof fn shutdown_fires_once<E>(
    before: AdminLoop<E>,
    first: Moment,
    between: AdminLoop<E>,
    first_action: AdminAction<E>,
    second: Moment,
    after: AdminLoop<E>,
    second_action: AdminAction<E>,
)
    requires
        before.phase() == AdminPhase::Serving,
        before.armed(),
        deadline_after(first, before.settings().grace_secs) is Some,
        stepped(before, AdminEvent::ShutdownRequested(first), between, first_action),
        stepped(between, AdminEvent::ShutdownRequested(second), after, second_action),
    ensures
        first_action matches AdminAction::Shutdown { deadline, .. } && deadline.secs == first.secs
            + before.settings().grace_secs && deadline.nanos == first.nanos,
        !between.armed(),
        second_action == AdminAction::<E>::AlreadyRequested,
        same_state(between, after),
{
}

/// Isolation: a connection that fails to be served changes nothing, and
/// the next connection accepted is served.
pub proof fn serve_failure_is_isolated<E>(
    before: AdminLoop<E>,
    between: AdminLoop<E>,
    first_action: AdminAction<E>,
    after: AdminLoop<E>,
    second_action: AdminAction<E>,
)
    requires
        before.phase() == AdminPhase::Serving,
        stepped(before, AdminEvent::ServeFailed, between, first_action),
        stepped(between, AdminEvent::Accepted, after, second_action),
    ensures
        first_action == AdminAction::<E>::LogServeError,
        same_state(before, between),
        second_action == AdminAction::<E>::Serve,
        same_state(between, after),
{
}

/// A tick of the metrics timer never touches the resolvers, the latch or
/// the settings, and leaves the phase as it is unless rendering failed.
pub proof fn export_touches_the_snapshot_only<E>(
    before: AdminLoop<E>,
    after: AdminLoop<E>,
    action: AdminAction<E>,
)
    requires
        before.phase() == AdminPhase::Serving,
        stepped(before, AdminEvent::Tick, after, action),
    ensures
        after.pending() == before.pending(),
        after.armed() == before.armed(),
        after.settings() == before.settings(),
        action == AdminAction::<E>::Exported ==> after.phase() == AdminPhase::Serving,
        action != AdminAction::<E>::Exported ==> action == AdminAction::<E>::Abort(Fault::Render)
            && after.phase() == AdminPhase::Stopped,
{
}

/// While the resolvers' executors are being launched, each step launches
/// the next: after `k` steps the first `k` are launched, in order, and the
/// others are still held.
proof fn launching_proceeds_in_order<E>(
    states: Seq<AdminLoop<E>>,
    actions: Seq<AdminAction<E>>,
    k: int,
)
    requires
        states.len() == actions.len() + 1,
        states[0].phase() == AdminPhase::Starting,
        forall|i: int|
            0 <= i < actions.len() ==> stepped(
                #[trigger] states[i],
                AdminEvent::Ready,
                states[i + 1],
                actions[i],
            ),
        0 <= k <= states[0].pending().len(),
        k <= actions.len(),
    ensures
        states[k].phase() == AdminPhase::Starting,
        states[k].settings() == states[0].settings(),
        states[k].pending() == states[0].pending().subrange(k, states[0].pending().len() as int),
        forall|i: int| 0 <= i < k ==> #[trigger] actions[i] == AdminAction::LaunchResolver(
            states[0].pending()[i],
        ),
    decreases k,
{
    let pending = states[0].pending();
    if k == 0 {
        assert(pending.subrange(0, pending.len() as int) =~= pending);
    } else {
        launching_proceeds_in_order(states, actions, k - 1);
        let before = states[k - 1];
        assert(stepped(before, AdminEvent::Ready, states[k], actions[k - 1]));
        assert(before.pending().len() > 0);
        assert(before.pending()[0] == pending[k - 1]);
        assert(before.pending().drop_first() =~= pending.subrange(k, pending.len() as int));
    }
}

/// The start of the admin context runs in order: told again and again that
/// it is ready, it launches every resolver's executor in the order held,
/// then starts the metrics export at the configured interval, then binds
/// the listener at the configured address, and then accepts connections.
pub proof fn startup_runs_in_order<E>(states: Seq<AdminLoop<E>>, actions: Seq<AdminAction<E>>)
    requires
        states.len() == actions.len() + 1,
        states[0].phase() == AdminPhase::Starting,
        actions.len() == states[0].pending().len() + 3,
        forall|i: int|
            0 <= i < actions.len() ==> stepped(
                #[trigger] states[i],
                AdminEvent::Ready,
                states[i + 1],
                actions[i],
            ),
    ensures
        forall|i: int|
            0 <= i < states[0].pending().len() ==> #[trigger] actions[i]
                == AdminAction::LaunchResolver(states[0].pending()[i]),
        actions[states[0].pending().len() as int] == AdminAction::<E>::StartReporting(
            states[0].settings().metrics_interval_secs,
        ),
        actions[states[0].pending().len() as int + 1] == AdminAction::<E>::Bind(
            states[0].settings().addr,
        ),
        actions[states[0].pending().len() as int + 2] == AdminAction::<E>::Accept,
        states.last().phase() == AdminPhase::Serving,
        states.last().armed() == states[0].armed(),
{
    let n = states[0].pending().len() as int;
    launching_proceeds_in_order(states, actions, n);
    assert(states[n].pending().len() == 0);
    assert(stepped(states[n], AdminEvent::Ready, states[n + 1], actions[n]));
    assert(stepped(states[n + 1], AdminEvent::Ready, states[n + 2], actions[n + 1]));
    assert(stepped(states[n + 2], AdminEvent::Ready, states[n + 3], actions[n + 2]));
    armed_while_launching(states, actions, n);
}

/// Launching the resolvers' executors leaves the latch as it is.
proof fn armed_while_launching<E>(states: Seq<AdminLoop<E>>, actions: Seq<AdminAction<E>>, k: int)
    requires
        states.len() == actions.len() + 1,
        states[0].phase() == AdminPhase::Starting,
        forall|i: int|
            0 <= i < actions.len() ==> stepped(
                #[trigger] states[i],
                AdminEvent::Ready,
                states[i + 1],
                actions[i],
            ),
        0 <= k <= states[0].pending().len(),
        k <= actions.len(),
    ensures
        states[k].armed() == states[0].armed(),
    decreases k,
{
    if k > 0 {
        armed_while_launching(states, actions, k - 1);
        launching_proceeds_in_order(states, actions, k - 1);
        assert(stepped(states[k - 1], AdminEvent::Ready, states[k], actions[k - 1]));
    }
}

} // verus!
