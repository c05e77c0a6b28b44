//! The connection state machine and the coordinator that runs it against one
//! backend, one command at a time, reporting each change of status once.
use vstd::prelude::*;

use crate::openvpn::{auth_pending_text, connected_text, session_state};
use crate::vpn::{Operation, StatusView, VpnConnector, VpnStatus};

verus! {

/// A request made of the coordinator.
#[derive(Clone, Copy, Debug, PartialEq, Eq, Structural)]
pub enum Command {
    Connect,
    Disconnect,
    QueryStatus,
}

/// The backend operation that `cmd` calls for in status `s`: a connect only
/// from `Disconnected`, a disconnect only from `Connected`, and a status query
/// from any status. Any other command is ignored.
///
/// In particular a connect from `Error` is ignored: an error is recovered
/// from by the next status query, which stores what the backend then reports
/// (`Disconnected` after a failed start), after which a connect is taken
/// again. This keeps a repeated click during a failure from starting a
/// second session.
pub open spec fn backend_call(cmd: Command, s: StatusView) -> Option<Operation> {
    match cmd {
        Command::Connect => if s == StatusView::Disconnected {
            Some(Operation::Connect)
        } else {
            None
        },
        Command::Disconnect => if s == StatusView::Connected {
            Some(Operation::Disconnect)
        } else {
            None
        },
        Command::QueryStatus => Some(Operation::Status),
    }
}

/// The status that is stored, and reported, before the backend call that
/// `cmd` makes in status `s`, if there is one.
pub open spec fn immediate_status(cmd: Command, s: StatusView) -> Option<StatusView> {
    match backend_call(cmd, s) {
        Some(Operation::Connect) => Some(StatusView::Initialising),
        Some(Operation::Disconnect) => Some(StatusView::Disconnecting),
        _ => None,
    }
}

/// The notifications for a change of the stored status from `from` to `to`:
/// one, carrying `to`, when the two differ, and none otherwise.
pub open spec fn change(from: StatusView, to: StatusView) -> Seq<StatusView> {
    if from == to {
        Seq::empty()
    } else {
        seq![to]
    }
}

/// The notifications that `cmd`, made in status `s`, produces when its
/// backend call, if any, leaves the status `result`.
pub open spec fn command_notifications(cmd: Command, s: StatusView, result: StatusView) -> Seq<
    StatusView,
> {
    match backend_call(cmd, s) {
        None => Seq::empty(),
        Some(_) => match immediate_status(cmd, s) {
            Some(i) => change(s, i) + change(i, result),
            None => change(s, result),
        },
    }
}

/// The command that toggles the connection from status `s`.
pub open spec fn toggle_for(s: StatusView) -> Command {
    if s == StatusView::Connected {
        Command::Disconnect
    } else {
        Command::Connect
    }
}

/// An event of the state machine: a command taken, or the status reported
/// by the backend operation under way.
pub enum Event {
    Take(Command),
    Report(StatusView),
}

/// The state after `e` in state `st` (the stored status and the operation
/// under way), or `None` when `e` is not allowed there: a command while an
/// operation is under way, or a report while none is.
pub open spec fn next_state(st: (StatusView, Option<Operation>), e: Event) -> Option<
    (StatusView, Option<Operation>),
> {
    match e {
        Event::Take(cmd) => if st.1 is None {
            match immediate_status(cmd, st.0) {
                Some(i) => Some((i, backend_call(cmd, st.0))),
                None => Some((st.0, backend_call(cmd, st.0))),
            }
        } else {
            None
        },
        Event::Report(r) => if st.1 is Some {
            Some((r, None))
        } else {
            None
        },
    }
}

/// The state after the events `evs`, or `None` when one of them is not allowed.
pub open spec fn run(st: (StatusView, Option<Operation>), evs: Seq<Event>) -> Option<
    (StatusView, Option<Operation>),
>
    decreases evs.len(),
{
    if evs.len() == 0 {
        Some(st)
    } else {
        match run(st, evs.drop_last()) {
            Some(m) => next_state(m, evs.last()),
            None => None,
        }
    }
}

/// The number of backend operations that the events `evs` start, less the
/// number of reports among them.
pub open spec fn outstanding(st: (StatusView, Option<Operation>), evs: Seq<Event>) -> int
    decreases evs.len(),
{
    if evs.len() == 0 {
        0
    } else {
        let before = outstanding(st, evs.drop_last());
        match (evs.last(), run(st, evs.drop_last())) {
            (Event::Take(cmd), Some(m)) => if backend_call(cmd, m.0) is Some {
                before + 1
            } else {
                before
            },
            (Event::Report(_), _) => before - 1,
            _ => before,
        }
    }
}

/// Backend calls never overlap: along any allowed run from a state with
/// nothing under way, the operations started exceed the reports received by
/// one while an operation is under way and by none otherwise, so an
/// operation starts only after the previous one has reported.
pub proof fn lemma_one_call_at_a_time(st: (StatusView, Option<Operation>), evs: Seq<Event>)
    requires
        st.1 is None,
        run(st, evs) is Some,
    ensures
        outstanding(st, evs) == if run(st, evs).unwrap().1 is Some {
            1int
        } else {
            0int
        },
        0 <= outstanding(st, evs) <= 1,
    decreases evs.len(),
{
    if evs.len() > 0 {
        lemma_one_call_at_a_time(st, evs.drop_last());
    }
}

/// The stored status after running the commands of `jobs` one at a time
/// from status `s`, each job being a command and the status that its backend
/// call, if it makes one, reports.
pub open spec fn serial(s: StatusView, jobs: Seq<(Command, StatusView)>) -> StatusView
    decreases jobs.len(),
{
    if jobs.len() == 0 {
        s
    } else {
        let p = serial(s, jobs.drop_last());
        if backend_call(jobs.last().0, p) is Some {
            jobs.last().1
        } else {
            p
        }
    }
}

/// The events of one job run to its end from status `p`.
pub open spec fn job_events(p: StatusView, job: (Command, StatusView)) -> Seq<Event> {
    if backend_call(job.0, p) is Some {
        seq![Event::Take(job.0), Event::Report(job.1)]
    } else {
        seq![Event::Take(job.0)]
    }
}

/// The events of the jobs of `jobs` run one at a time, each to its end, from
/// status `s`.
pub open spec fn schedule(s: StatusView, jobs: Seq<(Command, StatusView)>) -> Seq<Event>
    decreases jobs.len(),
{
    if jobs.len() == 0 {
        Seq::empty()
    } else {
        schedule(s, jobs.drop_last()) + job_events(serial(s, jobs.drop_last()), jobs.last())
    }
}

/// Commands are linearizable: every allowed run from status `s` with nothing
/// under way is whole commands run one at a time, each to its end, followed,
/// while an operation is still under way, by the one command that started it.
/// The stored status is then the one that running those commands in that
/// order gives.
pub proof fn lemma_runs_are_serial(s: StatusView, evs: Seq<Event>)
    requires
        run((s, None), evs) is Some,
    ensures
        run((s, None), evs).unwrap().1 is None ==> exists|jobs: Seq<(Command, StatusView)>|
            evs == schedule(s, jobs) && run((s, None), evs).unwrap().0 == serial(s, jobs),
        run((s, None), evs).unwrap().1 is Some ==> exists|
            jobs: Seq<(Command, StatusView)>,
            cmd: Command,
        |
            {
                &&& evs == schedule(s, jobs).push(Event::Take(cmd))
                &&& backend_call(cmd, serial(s, jobs)) == run((s, None), evs).unwrap().1
                &&& run((s, None), evs).unwrap().0 == match immediate_status(
                    cmd,
                    serial(s, jobs),
                ) {
                    Some(i) => i,
                    None => serial(s, jobs),
                }
            },
    decreases evs.len(),
{
    if evs.len() == 0 {
        let jobs = Seq::<(Command, StatusView)>::empty();
        assert(evs =~= schedule(s, jobs));
    } else {
        let prev = evs.drop_last();
        lemma_runs_are_serial(s, prev);
        let m = run((s, None), prev).unwrap();
        assert(evs =~= prev.push(evs.last()));
        match evs.last() {
            Event::Take(cmd) => {
                let jobs = choose|jobs: Seq<(Command, StatusView)>|
                    prev == schedule(s, jobs) && m.0 == serial(s, jobs);
                if backend_call(cmd, m.0) is None {
                    let more = jobs.push((cmd, m.0));
                    assert(more.drop_last() =~= jobs);
                    assert(evs =~= schedule(s, more));
                } else {
                    assert(evs == schedule(s, jobs).push(Event::Take(cmd)));
                }
            },
            Event::Report(r) => {
                let (jobs, cmd) = choose|jobs: Seq<(Command, StatusView)>, cmd: Command|
                    {
                        &&& prev == schedule(s, jobs).push(Event::Take(cmd))
                        &&& backend_call(cmd, serial(s, jobs)) == m.1
                        &&& m.0 == match immediate_status(cmd, serial(s, jobs)) {
                            Some(i) => i,
                            None => serial(s, jobs),
                        }
                    };
                let more = jobs.push((cmd, r));
                assert(more.drop_last() =~= jobs);
                assert(evs =~= schedule(s, more));
            },
        }
    }
}

/// A connect while connected calls for no backend operation and reports
/// nothing, whatever the backend would have reported.
pub proof fn lemma_connect_while_connected_is_silent(result: StatusView)
    ensures
        backend_call(Command::Connect, StatusView::Connected) is None,
        command_notifications(Command::Connect, StatusView::Connected, result) == Seq::<
            StatusView,
        >::empty(),
{
}

/// Two status queries in a row whose backend reports the same status `r`
/// report it at most once in all: once, from the first query, when it differs
/// from the status `s` stored before them.
pub proof fn lemma_repeated_query_reports_once(s: StatusView, r: StatusView)
    ensures
        command_notifications(Command::QueryStatus, s, r) + command_notifications(
            Command::QueryStatus,
            r,
            r,
        ) == change(s, r),
        s != r ==> command_notifications(Command::QueryStatus, s, r) + command_notifications(
            Command::QueryStatus,
            r,
            r,
        ) == seq![r],
{
    assert(command_notifications(Command::QueryStatus, s, r) + command_notifications(
        Command::QueryStatus,
        r,
        r,
    ) =~= change(s, r));
}

/// Connecting from disconnected while the backend reports the session
/// established, then disconnecting while it reports the session ended,
/// reports `Initialising`, `Connected`, `Disconnecting`, `Disconnected` and
/// leaves the connection disconnected; the backend's status line for an
/// established session classifies as connected.
pub proof fn lemma_connect_disconnect_round_trip()
    ensures
        session_state(connected_text()) == StatusView::Connected,
        backend_call(Command::Connect, StatusView::Disconnected) == Some(Operation::Connect),
        backend_call(Command::Disconnect, StatusView::Connected) == Some(Operation::Disconnect),
        command_notifications(Command::Connect, StatusView::Disconnected, StatusView::Connected)
            + command_notifications(
            Command::Disconnect,
            StatusView::Connected,
            StatusView::Disconnected,
        ) == seq![
            StatusView::Initialising,
            StatusView::Connected,
            StatusView::Disconnecting,
            StatusView::Disconnected,
        ],
{
    reveal_strlit("Web authentication required to connect");
    reveal_strlit("Connection, Client connected");
    assert(connected_text().len() != auth_pending_text().len());
    assert(command_notifications(Command::Connect, StatusView::Disconnected, StatusView::Connected)
        + command_notifications(
        Command::Disconnect,
        StatusView::Connected,
        StatusView::Disconnected,
    ) =~= seq![
        StatusView::Initialising,
        StatusView::Connected,
        StatusView::Disconnecting,
        StatusView::Disconnected,
    ]);
}

/// The model of an optional status, as a sequence of at most one.
pub open spec fn views_of(o: Option<VpnStatus>) -> Seq<StatusView> {
    match o {
        Some(s) => seq![s@],
        None => Seq::empty(),
    }
}

/// The models of a sequence of statuses.
pub open spec fn views(v: Seq<VpnStatus>) -> Seq<StatusView> {
    v.map_values(|s: VpnStatus| s@)
}

/// What the state machine does when it takes a command.
pub struct Step {
    /// The status to report at once, before any backend call.
    pub notify: Option<VpnStatus>,
    /// The backend operation to perform, if any.
    pub call: Option<Operation>,
}

/// The stored status and the backend operation that is under way, if any.
pub struct ConnectionState {
    status: VpnStatus,
    in_flight: Option<Operation>,
}

impl ConnectionState {
    #[verifier::type_invariant]
    spec fn inv(self) -> bool {
        self.status@.wf()
    }

    /// The stored status.
    pub closed spec fn stored(&self) -> StatusView {
        self.status@
    }

    /// The backend operation that is under way.
    pub closed spec fn pending(&self) -> Option<Operation> {
        self.in_flight
    }

    /// The initial state: disconnected, with nothing under way.
    pub fn new() -> (r: ConnectionState)
        ensures
            r.stored() == StatusView::Disconnected,
            r.pending() is None,
    {
        ConnectionState { status: VpnStatus::Disconnected, in_flight: None }
    }

    /// The stored status.
    pub fn status(&self) -> (r: &VpnStatus)
        ensures
            r@ == self.stored(),
            r@.wf(),
    {
        proof {
            use_type_invariant(self);
        }
        &self.status
    }

    /// The backend operation under way.
    pub fn pending_operation(&self) -> (r: Option<Operation>)
        ensures
            r == self.pending(),
    {
        self.in_flight
    }

    /// Whether no backend operation is under way, so that a command can be taken.
    pub fn is_idle(&self) -> (r: bool)
        ensures
            r == (self.pending() is None),
    {
        self.in_flight.is_none()
    }

    /// Takes `cmd`: stores and reports the immediate status it calls for and
    /// says which backend operation to perform. A command is taken only when
    /// no operation is under way, so backend calls never overlap.
    pub fn begin(&mut self, cmd: Command) -> (r: Step)
        requires
            old(self).pending() is None,
        ensures
            next_state((old(self).stored(), old(self).pending()), Event::Take(cmd)) == Some(
                (final(self).stored(), final(self).pending()),
            ),
            r.call == backend_call(cmd, old(self).stored()),
            final(self).pending() == r.call,
            match immediate_status(cmd, old(self).stored()) {
                Some(i) => final(self).stored() == i && (r.notify matches Some(n) && n@ == i),
                None => final(self).stored() == old(self).stored() && r.notify is None,
            },
    {
        proof {
            use_type_invariant(&*self);
        }
        let call = match cmd {
            Command::Connect => match self.status {
                VpnStatus::Disconnected => Some(Operation::Connect),
                _ => None,
            },
            Command::Disconnect => match self.status {
                VpnStatus::Connected => Some(Operation::Disconnect),
                _ => None,
            },
            Command::QueryStatus => Some(Operation::Status),
        };
        let notify = match call {
            Some(Operation::Connect) => {
                self.status = VpnStatus::Initialising;
                Some(VpnStatus::Initialising)
            },
            Some(Operation::Disconnect) => {
                self.status = VpnStatus::Disconnecting;
                Some(VpnStatus::Disconnecting)
            },
            _ => None,
        };
        self.in_flight = call;
        Step { notify, call }
    }

    /// Records the status that the operation under way reported, and returns
    /// it for reporting when it differs from the stored one.
    pub fn finish(&mut self, result: VpnStatus) -> (r: Option<VpnStatus>)
        requires
            old(self).pending() is Some,
            result@.wf(),
        ensures
            next_state((old(self).stored(), old(self).pending()), Event::Report(result@)) == Some(
                (final(self).stored(), final(self).pending()),
            ),
            final(self).stored() == result@,
            final(self).pending() is None,
            match r {
                Some(n) => old(self).stored() != result@ && n@ == result@,
                None => old(self).stored() == result@,
            },
    {
        proof {
            use_type_invariant(&*self);
        }
        self.in_flight = None;
        if result == self.status {
            None
        } else {
            let n = result.duplicate();
            self.status = result;
            Some(n)
        }
    }
}

/// Receives the status changes that the coordinator reports.
pub trait StatusSink {
    /// The statuses delivered so far, oldest first. A sink that keeps no
    /// record of them has none.
    open spec fn received(&self) -> Seq<StatusView> {
        Seq::empty()
    }

    /// Delivers one status change.
    fn notify(&mut self, status: &VpnStatus)
        ensures
            final(self).received() == old(self).received().push(status@),
    ;
}

/// A list of statuses is a sink that keeps every status delivered to it.
impl StatusSink for Vec<VpnStatus> {
    open spec fn received(&self) -> Seq<StatusView> {
        views(self@)
    }

    fn notify(&mut self, status: &VpnStatus) {
        self.push(status.duplicate());
        assert(views(self@) =~= views(old(self)@).push(status@));
    }
}

/// Owns one backend and the stored status, and runs each command to its end
/// before the next: the backend is reached only through `&mut self`, so its
/// calls never overlap.
pub struct ConnectionCoordinator<C: VpnConnector> {
    connector: C,
    state: ConnectionState,
}

impl<C: VpnConnector> ConnectionCoordinator<C> {
    /// Between commands no backend operation is under way.
    pub closed spec fn wf(&self) -> bool {
        self.state.pending() is None
    }

    /// The stored status.
    pub closed spec fn stored(&self) -> StatusView {
        self.state.stored()
    }

    /// The backend operation that a command has called for and that has not
    /// been made yet.
    pub closed spec fn pending(&self) -> Option<Operation> {
        self.state.pending()
    }

    /// The backend.
    pub closed spec fn backend(&self) -> C {
        self.connector
    }

    /// A coordinator for `connector`, starting disconnected.
    pub fn new(connector: C) -> (r: ConnectionCoordinator<C>)
        ensures
            r.wf(),
            r.stored() == StatusView::Disconnected,
            r.backend() == connector,
    {
        ConnectionCoordinator { connector, state: ConnectionState::new() }
    }

    /// The stored status.
    pub fn status(&self) -> (r: &VpnStatus)
        ensures
            r@ == self.stored(),
            r@.wf(),
    {
        self.state.status()
    }

    /// The backend.
    pub fn connector(&self) -> (r: &C)
        ensures
            *r == self.backend(),
    {
        &self.connector
    }

    /// Takes `cmd` without touching the backend: stores the immediate status
    /// that the command calls for and returns it for reporting, and returns
    /// the backend operation that [`Self::complete`] is then to make.
    pub fn begin(&mut self, cmd: Command) -> (r: Step)
        requires
            old(self).wf(),
        ensures
            final(self).backend() == old(self).backend(),
            final(self).pending() == r.call,
            r.call == backend_call(cmd, old(self).stored()),
            final(self).stored().wf(),
            match immediate_status(cmd, old(self).stored()) {
                Some(i) => final(self).stored() == i && (r.notify matches Some(n) && n@ == i),
                None => final(self).stored() == old(self).stored() && r.notify is None,
            },
    {
        let step = self.state.begin(cmd);
        proof {
            use_type_invariant(&self.state);
        }
        step
    }

    /// Makes the backend operation that the command taken by [`Self::begin`]
    /// called for, stores the status that the backend answered, and returns
    /// it for reporting when it differs from the status stored before.
    pub fn complete(&mut self) -> (r: Option<VpnStatus>)
        requires
            old(self).pending() is Some,
        ensures
            final(self).wf(),
            final(self).stored().wf(),
            old(self).backend().reports(old(self).pending().unwrap(), final(self).stored()),
            views_of(r) == change(old(self).stored(), final(self).stored()),
    {
        let op = match self.state.pending_operation() {
            Some(op) => op,
            None => Operation::Status,
        };
        let result = match op {
            Operation::Connect => self.connector.connect(),
            Operation::Disconnect => self.connector.disconnect(),
            Operation::Status => self.connector.status(),
        };
        let r = self.state.finish(result);
        proof {
            use_type_invariant(&self.state);
        }
        r
    }

    /// Runs `cmd` to its end, delivering to `sink`, in order, the immediate
    /// status, if the command has one, before the backend is called, and then
    /// the status that the backend answered, if it differs from the one
    /// stored before it. A command that calls for no backend operation
    /// changes nothing and delivers nothing.
    pub fn submit<S: StatusSink>(&mut self, cmd: Command, sink: &mut S)
        requires
            old(self).wf(),
        ensures
            final(self).wf(),
            final(self).stored().wf(),
            final(sink).received() == old(sink).received() + command_notifications(
                cmd,
                old(self).stored(),
                final(self).stored(),
            ),
            backend_call(cmd, old(self).stored()) matches Some(op) ==> old(
                self,
            ).backend().reports(op, final(self).stored()),
            backend_call(cmd, old(self).stored()) is None ==> {
                &&& final(self).stored() == old(self).stored()
                &&& final(self).backend() == old(self).backend()
            },
    {
        let ghost s0 = self.stored();
        let ghost r0 = sink.received();
        let step = self.begin(cmd);
        match &step.notify {
            Some(n) => sink.notify(n),
            None => {},
        }
        let ghost s1 = self.stored();
        let ghost r1 = sink.received();
        if step.call.is_some() {
            match self.complete() {
                Some(n) => sink.notify(&n),
                None => {},
            }
            assert(sink.received() =~= r1 + change(s1, self.stored()));
        }
        assert(sink.received() =~= r0 + command_notifications(cmd, s0, self.stored()));
    }

    /// Connects when disconnected, disconnects when connected, and does
    /// nothing otherwise, delivering the status changes to `sink`.
    pub fn toggle<S: StatusSink>(&mut self, sink: &mut S)
        requires
            old(self).wf(),
        ensures
            final(self).wf(),
            final(self).stored().wf(),
            final(sink).received() == old(sink).received() + command_notifications(
                toggle_for(old(self).stored()),
                old(self).stored(),
                final(self).stored(),
            ),
            backend_call(toggle_for(old(self).stored()), old(self).stored()) matches Some(op)
                ==> old(self).backend().reports(op, final(self).stored()),
            backend_call(toggle_for(old(self).stored()), old(self).stored()) is None ==> {
                &&& final(self).stored() == old(self).stored()
                &&& final(self).backend() == old(self).backend()
            },
    {
        let cmd = toggle_command(self.status());
        self.submit(cmd, sink)
    }

    /// Asks the backend for the current status, stores it, and delivers it
    /// to `sink` if it changed.
    pub fn refresh_status<S: StatusSink>(&mut self, sink: &mut S)
        requires
            old(self).wf(),
        ensures
            final(self).wf(),
            final(self).stored().wf(),
            old(self).backend().reports(Operation::Status, final(self).stored()),
            final(sink).received() == old(sink).received() + change(
                old(self).stored(),
                final(self).stored(),
            ),
    {
        self.submit(Command::QueryStatus, sink)
    }
}

/// The command that toggles the connection from `status`.
pub fn toggle_command(status: &VpnStatus) -> (r: Command)
    ensures
        r == toggle_for(status@),
{
    match status {
        VpnStatus::Connected => Command::Disconnect,
        _ => Command::Connect,
    }
}

} // verus!
