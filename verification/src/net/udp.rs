//! UDP sessions: binding the one socket of a session, as a client or as a
//! listener, and relaying datagrams over it in both directions.

use crate::net::addr::{
    any_interface, any_interface_text, endpoint, endpoint_text, ephemeral, ephemeral_text, PeerAddr,
};
use crate::net::session::{
    tally, text_view, timed_out_text, verdict_view, AcquireError, AcquireErrorView, AcquireKind,
    CopyError, CopyResult, Flow, Label, Outcome, Role, Ruling, RulingView, Signal, Supervisor,
    Timeout, Verdict,
};
use vstd::prelude::*;
use vstd::string::*;

verus! {

/// Where the datagrams made of local input go.
#[derive(Clone, Copy, Debug, PartialEq, Eq, Structural)]
pub enum Route {
    /// To one remote address, fixed when the session began.
    Fixed { remote: PeerAddr },
    /// To whoever sent the datagram received last.
    LastSender,
}

/// How far a session has come.
#[derive(Clone, Copy, Debug, PartialEq, Eq, Structural)]
pub enum Phase {
    /// Nothing has been asked of the driver yet.
    Idle,
    /// A client waits for its remote address to be read.
    Resolving,
    /// The session waits for its socket.
    Binding,
    /// A verbose session waits to learn the address its socket got.
    Describing,
    /// The two directions run.
    Relaying,
    /// The session has ended.
    Closed,
}

/// What the driver reports to a session.
#[derive(Debug, PartialEq, Eq)]
pub enum Event {
    /// The driver is ready to begin.
    Start,
    /// The text named a socket address: `remote`, which the system shows as
    /// `shown`.
    Resolved { remote: PeerAddr, shown: String },
    /// The socket is bound.
    Bound,
    /// The socket's own address, as the system shows it.
    Described { local: String },
    /// What was asked for failed; `reason` is the system's error as text.
    Failed { reason: String },
    /// The limit given with the command passed before anything else happened.
    Elapsed,
    /// One direction of the relay ended.
    Finished { flow: Flow, result: CopyResult },
}

/// An event with its texts as sequences of characters.
pub enum EventView {
    Start,
    Resolved { remote: PeerAddr, shown: Seq<char> },
    Bound,
    Described { local: Seq<char> },
    Failed { reason: Seq<char> },
    Elapsed,
    Finished { flow: Flow, result: CopyResult },
}

impl View for Event {
    type V = EventView;

    open spec fn view(&self) -> EventView {
        match *self {
            Event::Start => EventView::Start,
            Event::Resolved { remote, shown } => EventView::Resolved { remote, shown: shown@ },
            Event::Bound => EventView::Bound,
            Event::Described { local } => EventView::Described { local: local@ },
            Event::Failed { reason } => EventView::Failed { reason: reason@ },
            Event::Elapsed => EventView::Elapsed,
            Event::Finished { flow, result } => EventView::Finished { flow, result },
        }
    }
}

/// What a session asks of the driver.
#[derive(Debug, PartialEq, Eq)]
pub enum Command {
    /// Read `text` as a socket address, without looking any name up.
    Resolve { text: String },
    /// Bind a socket to `addr`.
    Bind { addr: String },
    /// Report the address the socket is bound to.
    Describe,
    /// Run both directions of an exchange on `route` and report each one's
    /// end; with a limit, report when it has passed.
    Relay { route: Route, limit: Option<Timeout> },
    /// Go on waiting for the relay, under the limit already running.
    Wait,
    /// Close the socket, if there is one, and end with `verdict`.
    Exit { verdict: Verdict },
}

/// A command with its texts as sequences of characters.
pub enum CommandView {
    Resolve { text: Seq<char> },
    Bind { addr: Seq<char> },
    Describe,
    Relay { route: Route, limit: Option<Timeout> },
    Wait,
    Exit { verdict: Result<Outcome, AcquireErrorView> },
}

impl View for Command {
    type V = CommandView;

    open spec fn view(&self) -> CommandView {
        match *self {
            Command::Resolve { text } => CommandView::Resolve { text: text@ },
            Command::Bind { addr } => CommandView::Bind { addr: addr@ },
            Command::Describe => CommandView::Describe,
            Command::Relay { route, limit } => CommandView::Relay { route, limit },
            Command::Wait => CommandView::Wait,
            Command::Exit { verdict } => CommandView::Exit { verdict: verdict_view(verdict) },
        }
    }
}

/// A session's answer to one event: a line for the diagnostic stream, shown
/// only by a verbose session, and what to do next.
#[derive(Debug, PartialEq, Eq)]
pub struct Step {
    pub notice: Option<String>,
    pub command: Command,
}

/// A step with its texts as sequences of characters.
pub struct StepView {
    pub notice: Option<Seq<char>>,
    pub command: CommandView,
}

impl View for Step {
    type V = StepView;

    open spec fn view(&self) -> StepView {
        StepView { notice: text_view(self.notice), command: self.command@ }
    }
}

/// One UDP session: a client or a listener, from its first command to its
/// verdict. UDP has no connection to wait for, so the limit of a session
/// bounds its relay only.
#[derive(Debug)]
pub struct Session {
    role: Role,
    target: String,
    limit: Option<Timeout>,
    verbose: bool,
    phase: Phase,
    route: Option<Route>,
    shown: String,
    watch: Supervisor,
}

/// What a session holds, with its texts as sequences of characters.
pub struct SessionView {
    pub role: Role,
    pub target: Seq<char>,
    pub limit: Option<Timeout>,
    pub verbose: bool,
    pub phase: Phase,
    pub route: Option<Route>,
    pub shown: Seq<char>,
    pub watch: Supervisor,
}

impl View for Session {
    type V = SessionView;

    closed spec fn view(&self) -> SessionView {
        SessionView {
            role: self.role,
            target: self.target@,
            limit: self.limit,
            verbose: self.verbose,
            phase: self.phase,
            route: self.route,
            shown: self.shown@,
            watch: self.watch,
        }
    }
}

/// The message of a client whose remote address `target` could not be read,
/// for `reason`.
pub open spec fn invalid_remote_text(target: Seq<char>, reason: Seq<char>) -> Seq<char> {
    "invalid remote address '"@ + target + "': "@ + reason
}

impl SessionView {
    /// A client before its first step.
    pub open spec fn client(
        host: Seq<char>,
        port: u16,
        limit: Option<Timeout>,
        verbose: bool,
    ) -> SessionView {
        SessionView {
            role: Role::Client,
            target: endpoint_text(host, port),
            limit,
            verbose,
            phase: Phase::Idle,
            route: None,
            shown: Seq::empty(),
            watch: Supervisor::fresh(limit, verbose, Label::UdpSession),
        }
    }

    /// A listener before its first step.
    pub open spec fn listener(port: u16, limit: Option<Timeout>, verbose: bool) -> SessionView {
        SessionView {
            role: Role::Listener,
            target: any_interface_text(port),
            limit,
            verbose,
            phase: Phase::Idle,
            route: Some(Route::LastSender),
            shown: Seq::empty(),
            watch: Supervisor::fresh(limit, verbose, Label::UdpListen),
        }
    }

    /// `line` for a verbose session, nothing for a quiet one.
    pub open spec fn says(self, line: Seq<char>) -> Option<Seq<char>> {
        if self.verbose {
            Some(line)
        } else {
            None
        }
    }

    /// The session in another phase.
    pub open spec fn at(self, phase: Phase) -> SessionView {
        SessionView { phase, ..self }
    }

    /// The end of a session that did not get its socket.
    pub open spec fn fails(self, message: Seq<char>) -> (SessionView, StepView) {
        (
            self.at(Phase::Closed),
            StepView {
                notice: None,
                command: CommandView::Exit {
                    verdict: Err(AcquireErrorView { kind: AcquireKind::Failed, message }),
                },
            },
        )
    }

    /// The first step: a client has its remote address read, a listener
    /// binds.
    pub open spec fn begin(self) -> (SessionView, StepView) {
        match self.role {
            Role::Client => (
                self.at(Phase::Resolving),
                StepView { notice: None, command: CommandView::Resolve { text: self.target } },
            ),
            Role::Listener => (
                self.at(Phase::Binding),
                StepView {
                    notice: self.says("udp: listening on "@ + self.target),
                    command: CommandView::Bind { addr: self.target },
                },
            ),
        }
    }

    /// The step of a client that has its remote address: it binds a socket of
    /// the remote's family.
    pub open spec fn binds_for(self, remote: PeerAddr, shown: Seq<char>) -> (
        SessionView,
        StepView,
    ) {
        (
            SessionView {
                phase: Phase::Binding,
                route: Some(Route::Fixed { remote }),
                shown,
                ..self
            },
            StepView { notice: None, command: CommandView::Bind { addr: ephemeral_text(remote) } },
        )
    }

    /// The line that tells where the socket is bound, and for a client where
    /// its datagrams go.
    pub open spec fn bound_text(self, local: Seq<char>) -> Seq<char> {
        match self.role {
            Role::Client => "udp: bound to "@ + local + ", sending to "@ + self.shown,
            Role::Listener => "udp: bound to "@ + local,
        }
    }

    /// The step into the relay on `route`, with `notice`.
    pub open spec fn relays(self, route: Route, notice: Option<Seq<char>>) -> (
        SessionView,
        StepView,
    ) {
        (
            self.at(Phase::Relaying),
            StepView { notice, command: CommandView::Relay { route, limit: self.limit } },
        )
    }

    /// A relaying session's answer to a signal for its supervisor.
    pub open spec fn supervised(self, signal: Signal) -> Option<(SessionView, StepView)> {
        match self.watch.next(signal) {
            Some((watch, RulingView::KeepWaiting)) => Some(
                (
                    SessionView { watch, ..self },
                    StepView { notice: None, command: CommandView::Wait },
                ),
            ),
            Some((watch, RulingView::Over { outcome, notice })) => Some(
                (
                    SessionView { watch, phase: Phase::Closed, ..self },
                    StepView { notice, command: CommandView::Exit { verdict: Ok(outcome) } },
                ),
            ),
            None => None,
        }
    }

    /// The session's rule: its next state and its answer to `event`, or none
    /// where the event cannot come in this phase.
    pub open spec fn next(self, event: EventView) -> Option<(SessionView, StepView)> {
        match self.phase {
            Phase::Idle => match event {
                EventView::Start => Some(self.begin()),
                _ => None,
            },
            Phase::Resolving => match event {
                EventView::Resolved { remote, shown } => Some(self.binds_for(remote, shown)),
                EventView::Failed { reason } => Some(
                    self.fails(invalid_remote_text(self.target, reason)),
                ),
                _ => None,
            },
            Phase::Binding => match event {
                EventView::Bound => match self.route {
                    Some(route) => if self.verbose {
                        Some(
                            (
                                self.at(Phase::Describing),
                                StepView { notice: None, command: CommandView::Describe },
                            ),
                        )
                    } else {
                        Some(self.relays(route, None))
                    },
                    None => None,
                },
                EventView::Failed { reason } => Some(self.fails(reason)),
                _ => None,
            },
            Phase::Describing => match event {
                EventView::Described { local } => match self.route {
                    Some(route) => Some(self.relays(route, self.says(self.bound_text(local)))),
                    None => None,
                },
                EventView::Failed { reason } => Some(self.fails(reason)),
                _ => None,
            },
            Phase::Relaying => match event {
                EventView::Finished { flow, result } => self.supervised(
                    Signal::Finished { flow, result },
                ),
                EventView::Elapsed => self.supervised(Signal::Elapsed),
                _ => None,
            },
            Phase::Closed => None,
        }
    }
}

/// A client session for `port` at `host`, which must be a literal address:
/// no name is looked up. `timeout` limits the relay. The session is idle
/// until it is told to start.
pub fn client(host: &str, port: u16, timeout: Option<Timeout>, verbose: bool) -> (s: Session)
    ensures
        s@ == SessionView::client(host@, port, timeout, verbose),
        s@.coherent(),
{
    Session {
        role: Role::Client,
        target: endpoint(host, port),
        limit: timeout,
        verbose,
        phase: Phase::Idle,
        route: None,
        shown: String::new(),
        watch: Supervisor::new(timeout, verbose, Label::UdpSession),
    }
}

/// A listener session for `port` on all interfaces. `timeout` limits the
/// relay. The session is idle until it is told to start.
pub fn listen(port: u16, timeout: Option<Timeout>, verbose: bool) -> (s: Session)
    ensures
        s@ == SessionView::listener(port, timeout, verbose),
        s@.coherent(),
{
    Session {
        role: Role::Listener,
        target: any_interface(port),
        limit: timeout,
        verbose,
        phase: Phase::Idle,
        route: Some(Route::LastSender),
        shown: String::new(),
        watch: Supervisor::new(timeout, verbose, Label::UdpListen),
    }
}

impl Session {
    /// The phase the session is in.
    pub fn phase(&self) -> (phase: Phase)
        ensures
            phase == self@.phase,
    {
        self.phase
    }

    /// Ends the session without a socket.
    fn fail(&mut self, message: String) -> (step: Step)
        ensures
            (final(self)@, step@) == old(self)@.fails(message@),
    {
        self.phase = Phase::Closed;
        let verdict: Verdict = Err(AcquireError::failed(message));
        Step { notice: None, command: Command::Exit { verdict } }
    }

    /// Enters the relay on `route`.
    fn relay(&mut self, route: Route, notice: Option<String>) -> (step: Step)
        ensures
            (final(self)@, step@) == old(self)@.relays(route, text_view(notice)),
    {
        self.phase = Phase::Relaying;
        Step { notice, command: Command::Relay { route, limit: self.limit } }
    }

    /// Writes the line that tells where the socket is bound.
    fn bound_line(&self, local: &str) -> (line: String)
        ensures
            line@ == self@.bound_text(local@),
    {
        let line: String = String::from_str("udp: bound to ").concat(local);
        match self.role {
            Role::Client => line.concat(", sending to ").concat(self.shown.as_str()),
            Role::Listener => line,
        }
    }

    /// Hands a signal to the supervisor and turns its ruling into a step.
    fn supervise(&mut self, signal: Signal) -> (step: Option<Step>)
        ensures
            match old(self)@.supervised(signal) {
                Some((next, expected)) => {
                    &&& final(self)@ == next
                    &&& step matches Some(given)
                    &&& given@ == expected
                },
                None => {
                    &&& final(self)@ == old(self)@
                    &&& step is None
                },
            },
    {
        match self.watch.observe(signal) {
            Some(Ruling::KeepWaiting) => Some(Step { notice: None, command: Command::Wait }),
            Some(Ruling::Over { outcome, notice }) => {
                self.phase = Phase::Closed;
                Some(Step { notice, command: Command::Exit { verdict: Ok(outcome) } })
            },
            None => None,
        }
    }

    /// Takes one event from the driver and answers with the next step. An
    /// event that cannot come in the session's phase is answered with none and
    /// changes nothing.
    pub fn step(&mut self, event: Event) -> (step: Option<Step>)
        ensures
            match old(self)@.next(event@) {
                Some((next, expected)) => {
                    &&& final(self)@ == next
                    &&& step matches Some(given)
                    &&& given@ == expected
                },
                None => {
                    &&& final(self)@ == old(self)@
                    &&& step is None
                },
            },
            old(self)@.coherent() ==> final(self)@.coherent(),
    {
        proof {
            if self@.coherent() {
                lemma_stays_coherent(self@, event@);
            }
        }
        match self.phase {
            Phase::Idle => match event {
                Event::Start => match self.role {
                    Role::Client => {
                        self.phase = Phase::Resolving;
                        Some(
                            Step {
                                notice: None,
                                command: Command::Resolve { text: self.target.clone() },
                            },
                        )
                    },
                    Role::Listener => {
                        let notice: Option<String> = if self.verbose {
                            Some(
                                String::from_str("udp: listening on ").concat(
                                    self.target.as_str(),
                                ),
                            )
                        } else {
                            None
                        };
                        self.phase = Phase::Binding;
                        Some(Step { notice, command: Command::Bind { addr: self.target.clone() } })
                    },
                },
                _ => None,
            },
            Phase::Resolving => match event {
                Event::Resolved { remote, shown } => {
                    self.phase = Phase::Binding;
                    self.route = Some(Route::Fixed { remote });
                    self.shown = shown;
                    Some(
                        Step {
                            notice: None,
                            command: Command::Bind { addr: String::from_str(ephemeral(&remote)) },
                        },
                    )
                },
                Event::Failed { reason } => {
                    let message: String = String::from_str("invalid remote address '").concat(
                        self.target.as_str(),
                    ).concat("': ").concat(reason.as_str());
                    Some(self.fail(message))
                },
                _ => None,
            },
            Phase::Binding => match event {
                Event::Bound => match self.route {
                    Some(route) => if self.verbose {
                        self.phase = Phase::Describing;
                        Some(Step { notice: None, command: Command::Describe })
                    } else {
                        Some(self.relay(route, None))
                    },
                    None => None,
                },
                Event::Failed { reason } => Some(self.fail(reason)),
                _ => None,
            },
            Phase::Describing => match event {
                Event::Described { local } => match self.route {
                    Some(route) => {
                        let notice: Option<String> = if self.verbose {
                            Some(self.bound_line(local.as_str()))
                        } else {
                            None
                        };
                        Some(self.relay(route, notice))
                    },
                    None => None,
                },
                Event::Failed { reason } => Some(self.fail(reason)),
                _ => None,
            },
            Phase::Relaying => match event {
                Event::Finished { flow, result } => self.supervise(
                    Signal::Finished { flow, result },
                ),
                Event::Elapsed => self.supervise(Signal::Elapsed),
                _ => None,
            },
            Phase::Closed => None,
        }
    }
}

impl SessionView {
    /// The name under which the session's end is announced.
    pub open spec fn label(self) -> Label {
        match self.role {
            Role::Client => Label::UdpSession,
            Role::Listener => Label::UdpListen,
        }
    }

    /// What holds of a session in every state it can reach: the supervisor
    /// has the session's own settings, it has seen nothing before the relay,
    /// and it has ruled the session over only if the session has ended; a
    /// listener answers the last sender and a client its one remote address,
    /// which it has from the moment it binds.
    pub open spec fn coherent(self) -> bool {
        &&& self.watch.limit == self.limit
        &&& self.watch.verbose == self.verbose
        &&& self.watch.label == self.label()
        &&& self.watch.over ==> self.phase == Phase::Closed
        &&& self.phase != Phase::Relaying && self.phase != Phase::Closed ==> self.watch
            == Supervisor::fresh(self.limit, self.verbose, self.label())
        &&& self.role == Role::Listener ==> self.route == Some(Route::LastSender)
        &&& self.role == Role::Client ==> self.route != Some(Route::LastSender)
        &&& self.phase == Phase::Binding || self.phase == Phase::Describing || self.phase
            == Phase::Relaying ==> self.route is Some
        &&& self.phase == Phase::Resolving ==> self.role == Role::Client
        &&& self.role == Role::Client && (self.phase == Phase::Idle || self.phase
            == Phase::Resolving) ==> self.route is None
        &&& self.phase == Phase::Describing ==> self.verbose
    }

    /// How many steps towards its end the session's phase is.
    pub open spec fn progress(self) -> nat {
        match self.phase {
            Phase::Idle => 0,
            Phase::Resolving => 1,
            Phase::Binding => 2,
            Phase::Describing => 3,
            Phase::Relaying => 4,
            Phase::Closed => 5,
        }
    }
}

/// Whether a command asks the driver for the session's socket, or for a step
/// towards it.
pub open spec fn acquires(command: CommandView) -> bool {
    command is Resolve || command is Bind || command is Describe
}

/// A session that has not been stepped is coherent.
pub proof fn lemma_begins_coherent(
    host: Seq<char>,
    port: u16,
    limit: Option<Timeout>,
    verbose: bool,
)
    ensures
        SessionView::client(host, port, limit, verbose).coherent(),
        SessionView::listener(port, limit, verbose).coherent(),
{
}

/// Every step keeps a session coherent.
pub proof fn lemma_stays_coherent(s: SessionView, event: EventView)
    requires
        s.coherent(),
    ensures
        s.next(event) matches Some((next, step)) ==> next.coherent(),
{
}

/// One socket, closed on every way out. A session never goes back: each
/// command that works towards the socket moves it on to a later phase, so
/// none is given twice and none after the relay has begun. The session ends
/// with the command that closes the socket, on every path and never without
/// it, and an ended session gives no command at all.
pub proof fn lemma_one_endpoint(s: SessionView, event: EventView)
    ensures
        s.phase == Phase::Closed ==> s.next(event) is None,
        s.next(event) matches Some((next, step)) ==> {
            &&& s.progress() <= next.progress()
            &&& acquires(step.command) ==> s.progress() < next.progress() <= 3
            &&& step.command is Relay ==> s.progress() < next.progress() == 4
            &&& step.command is Exit <==> next.phase == Phase::Closed
        },
{
}

/// A socket of the remote's family. A client that has its remote address
/// binds its socket to any interface of that address's family, on a port the
/// system picks, and from then on sends to that address only. A client whose
/// remote address cannot be read ends with an error, without a socket.
pub proof fn lemma_client_binds_by_family(
    s: SessionView,
    remote: PeerAddr,
    shown: Seq<char>,
    reason: Seq<char>,
)
    requires
        s.phase == Phase::Resolving,
    ensures
        ({
            &&& s.next(EventView::Resolved { remote, shown }) matches Some((next, step))
            &&& next.phase == Phase::Binding
            &&& next.route == Some(Route::Fixed { remote })
            &&& step.command == CommandView::Bind { addr: ephemeral_text(remote) }
        }),
        ({
            &&& s.next(EventView::Failed { reason }) matches Some((next, step))
            &&& next.phase == Phase::Closed
            &&& step.command matches CommandView::Exit { verdict: Err(e) }
            &&& e.kind == AcquireKind::Failed
            &&& e.message == invalid_remote_text(s.target, reason)
        }),
{
}

/// The route of the relay. The exchange that a session starts runs on the
/// session's route and under its limit: a listener's answers the last
/// sender, a client's goes to its one remote address.
pub proof fn lemma_relay_route(s: SessionView, event: EventView)
    requires
        s.coherent(),
    ensures
        s.next(event) matches Some((next, step)) ==> (step.command matches CommandView::Relay {
            route,
            limit,
        } ==> {
            &&& s.route == Some(route)
            &&& limit == s.limit
            &&& s.role == Role::Listener <==> route == Route::LastSender
        }),
{
}

/// A relay cannot fail a session. Whatever is reported while the two
/// directions run, a direction's failure included, the session either goes
/// on waiting or ends with an outcome, never with an error.
pub proof fn lemma_relay_cannot_fail(s: SessionView, event: EventView)
    requires
        s.phase == Phase::Relaying,
    ensures
        s.next(event) matches Some((next, step)) ==> {
            ||| step.command is Wait && next.phase == Phase::Relaying
            ||| step.command matches CommandView::Exit { verdict: Ok(outcome) } && next.phase
                == Phase::Closed
        },
{
}

/// The limit on the relay. When the driver reports that the session's limit
/// passed during the relay, the session ends at once, whichever directions
/// are still running. Its outcome is that it timed out, which is no error.
/// Before the relay a session has no limit that could pass.
pub proof fn lemma_relay_limit(s: SessionView, limit: Timeout)
    requires
        s.coherent(),
        s.limit == Some(limit),
    ensures
        s.phase == Phase::Relaying ==> ({
            &&& s.next(EventView::Elapsed) matches Some((next, step))
            &&& next.phase == Phase::Closed
            &&& step.command == CommandView::Exit { verdict: Ok(Outcome::TimedOut) }
            &&& step.notice == s.says(timed_out_text(s.label().label_text(), limit.shown_text()))
        }),
        s.phase != Phase::Relaying ==> s.next(EventView::Elapsed) is None,
{
}

/// The relay ends by itself when both directions have ended. After the step
/// into the relay, the end of one direction makes the session wait on; the
/// end of the other completes it, whatever the order and the results.
pub proof fn lemma_relay_completes(
    s: SessionView,
    first: Flow,
    result: CopyResult,
    second: CopyResult,
)
    requires
        s.phase == Phase::Relaying,
        s.watch == Supervisor::fresh(s.watch.limit, s.watch.verbose, s.watch.label),
    ensures
        ({
            &&& s.next(EventView::Finished { flow: first, result }) matches Some((waiting, step))
            &&& step.command is Wait
            &&& waiting.next(EventView::Finished { flow: first.other(), result: second })
                matches Some((end, last))
            &&& end.phase == Phase::Closed
            &&& last.command == CommandView::Exit { verdict: Ok(Outcome::Completed) }
        }),
{
}

/// The most bytes the sending direction asks for in one read of local input,
/// and so the most one datagram carries out.
pub const INPUT_MAX: usize = 8192;

/// The most bytes the receiving direction takes from one datagram.
pub const DATAGRAM_MAX: usize = 65536;

/// How far the sending direction has come.
#[derive(Clone, Copy, Debug, PartialEq, Eq, Structural)]
pub enum SendPhase {
    /// Nothing has been asked of the driver yet.
    Idle,
    /// A read of local input is under way.
    Reading,
    /// A datagram of `pending` bytes is on its way out.
    Sending { pending: usize },
    /// The direction has reported its result.
    Done,
}

/// How far the receiving direction has come.
#[derive(Clone, Copy, Debug, PartialEq, Eq, Structural)]
pub enum RecvPhase {
    /// Nothing has been asked of the driver yet.
    Idle,
    /// The socket is waiting for a datagram.
    Receiving,
    /// A payload of `pending` bytes is being written to local output.
    Delivering { pending: usize },
    /// The direction has reported its result.
    Done,
}

/// What the driver reports to the sending direction.
#[derive(Debug, PartialEq, Eq)]
pub enum SendEvent {
    /// The driver is ready to begin.
    Start,
    /// A read of local input returned `bytes`; none at all means that the
    /// input is exhausted.
    Input { bytes: Vec<u8> },
    /// The read failed.
    ReadFailed,
    /// The datagram was handed to the socket; whether it went out does not
    /// matter.
    Sent,
}

/// An event of the sending direction with its bytes as a sequence.
pub enum SendEventView {
    Start,
    Input { bytes: Seq<u8> },
    ReadFailed,
    Sent,
}

impl View for SendEvent {
    type V = SendEventView;

    open spec fn view(&self) -> SendEventView {
        match *self {
            SendEvent::Start => SendEventView::Start,
            SendEvent::Input { bytes } => SendEventView::Input { bytes: bytes@ },
            SendEvent::ReadFailed => SendEventView::ReadFailed,
            SendEvent::Sent => SendEventView::Sent,
        }
    }
}

/// What the sending direction asks of the driver.
#[derive(Debug, PartialEq, Eq)]
pub enum SendCommand {
    /// Read at most `max` bytes of local input.
    Read { max: usize },
    /// Send `payload` to `to` as one datagram.
    Send { payload: Vec<u8>, to: PeerAddr },
    /// The direction has ended with `result`.
    Done { result: CopyResult },
}

/// A command of the sending direction with its payload as a sequence.
pub enum SendCommandView {
    Read { max: usize },
    Send { payload: Seq<u8>, to: PeerAddr },
    Done { result: CopyResult },
}

impl View for SendCommand {
    type V = SendCommandView;

    open spec fn view(&self) -> SendCommandView {
        match *self {
            SendCommand::Read { max } => SendCommandView::Read { max },
            SendCommand::Send { payload, to } => SendCommandView::Send { payload: payload@, to },
            SendCommand::Done { result } => SendCommandView::Done { result },
        }
    }
}

/// What the driver reports to the receiving direction.
#[derive(Debug, PartialEq, Eq)]
pub enum RecvEvent {
    /// The driver is ready to begin.
    Start,
    /// A datagram came in from `from`, carrying `payload`.
    Datagram { payload: Vec<u8>, from: PeerAddr },
    /// Receiving failed.
    RecvFailed,
    /// The payload was written to local output and flushed; whether that
    /// went well does not matter.
    Delivered,
}

/// An event of the receiving direction with its payload as a sequence.
pub enum RecvEventView {
    Start,
    Datagram { payload: Seq<u8>, from: PeerAddr },
    RecvFailed,
    Delivered,
}

impl View for RecvEvent {
    type V = RecvEventView;

    open spec fn view(&self) -> RecvEventView {
        match *self {
            RecvEvent::Start => RecvEventView::Start,
            RecvEvent::Datagram { payload, from } => RecvEventView::Datagram {
                payload: payload@,
                from,
            },
            RecvEvent::RecvFailed => RecvEventView::RecvFailed,
            RecvEvent::Delivered => RecvEventView::Delivered,
        }
    }
}

/// What the receiving direction asks of the driver.
#[derive(Debug, PartialEq, Eq)]
pub enum RecvCommand {
    /// Receive one datagram of at most `max` bytes, from any sender.
    Receive { max: usize },
    /// Write `payload` to local output in one write, then flush.
    Deliver { payload: Vec<u8> },
    /// The direction has ended with `result`.
    Done { result: CopyResult },
}

/// A command of the receiving direction with its payload as a sequence.
pub enum RecvCommandView {
    Receive { max: usize },
    Deliver { payload: Seq<u8> },
    Done { result: CopyResult },
}

impl View for RecvCommand {
    type V = RecvCommandView;

    open spec fn view(&self) -> RecvCommandView {
        match *self {
            RecvCommand::Receive { max } => RecvCommandView::Receive { max },
            RecvCommand::Deliver { payload } => RecvCommandView::Deliver { payload: payload@ },
            RecvCommand::Done { result } => RecvCommandView::Done { result },
        }
    }
}

/// Both directions of a UDP relay over one socket, with the one thing they
/// share: the peer that was heard last.
///
/// The sending direction turns every read of local input into one datagram
/// of just those bytes. The receiving direction turns every datagram into
/// one flushed write of just its payload. On the route `LastSender` each
/// datagram received makes its sender the peer, and input that is read while
/// no peer is known is dropped. The two directions run side by side: the
/// driver guards the exchange with a lock and holds it for one step at a
/// time.
#[derive(Clone, Copy, Debug, PartialEq, Eq)]
pub struct Exchange {
    pub route: Route,
    pub peer: Option<PeerAddr>,
    pub sending: SendPhase,
    pub receiving: RecvPhase,
    pub sent: u64,
    pub delivered: u64,
}

impl Exchange {
    /// An exchange before the first step of either direction.
    pub open spec fn fresh(route: Route) -> Exchange {
        Exchange {
            route,
            peer: None,
            sending: SendPhase::Idle,
            receiving: RecvPhase::Idle,
            sent: 0,
            delivered: 0,
        }
    }

    /// Where a datagram made now would go, if anywhere.
    pub open spec fn target(self) -> Option<PeerAddr> {
        match self.route {
            Route::Fixed { remote } => Some(remote),
            Route::LastSender => self.peer,
        }
    }

    /// The exchange after a datagram from `from` was received.
    pub open spec fn having_heard(self, from: PeerAddr) -> Exchange {
        match self.route {
            Route::Fixed { remote } => self,
            Route::LastSender => Exchange { peer: Some(from), ..self },
        }
    }

    /// The exchange with its sending direction in another phase.
    pub open spec fn sending_at(self, phase: SendPhase) -> Exchange {
        Exchange { sending: phase, ..self }
    }

    /// The exchange with its receiving direction in another phase.
    pub open spec fn receiving_at(self, phase: RecvPhase) -> Exchange {
        Exchange { receiving: phase, ..self }
    }

    /// The step that asks for the next chunk of local input.
    pub open spec fn reads(self) -> (Exchange, SendCommandView) {
        (self.sending_at(SendPhase::Reading), SendCommandView::Read { max: INPUT_MAX })
    }

    /// The step that asks for the next datagram.
    pub open spec fn receives(self) -> (Exchange, RecvCommandView) {
        (self.receiving_at(RecvPhase::Receiving), RecvCommandView::Receive { max: DATAGRAM_MAX })
    }

    /// The sending direction's rule: the next state and the answer to
    /// `event`, or none where the event cannot come in this phase.
    pub open spec fn send_next(self, event: SendEventView) -> Option<(Exchange, SendCommandView)> {
        match self.sending {
            SendPhase::Idle => match event {
                SendEventView::Start => Some(self.reads()),
                _ => None,
            },
            SendPhase::Reading => match event {
                SendEventView::Input { bytes } => {
                    if bytes.len() == 0 {
                        Some(
                            (
                                self.sending_at(SendPhase::Done),
                                SendCommandView::Done { result: Ok(self.sent) },
                            ),
                        )
                    } else if bytes.len() <= INPUT_MAX {
                        match self.target() {
                            Some(to) => Some(
                                (
                                    self.sending_at(
                                        SendPhase::Sending { pending: bytes.len() as usize },
                                    ),
                                    SendCommandView::Send { payload: bytes, to },
                                ),
                            ),
                            None => Some(self.reads()),
                        }
                    } else {
                        None
                    }
                },
                SendEventView::ReadFailed => Some(
                    (
                        self.sending_at(SendPhase::Done),
                        SendCommandView::Done { result: Err(CopyError::Source) },
                    ),
                ),
                _ => None,
            },
            SendPhase::Sending { pending } => match event {
                SendEventView::Sent => Some(
                    Exchange { sent: tally(self.sent, pending as nat), ..self }.reads(),
                ),
                _ => None,
            },
            SendPhase::Done => None,
        }
    }

    /// The receiving direction's rule: the next state and the answer to
    /// `event`, or none where the event cannot come in this phase.
    pub open spec fn recv_next(self, event: RecvEventView) -> Option<(Exchange, RecvCommandView)> {
        match self.receiving {
            RecvPhase::Idle => match event {
                RecvEventView::Start => Some(self.receives()),
                _ => None,
            },
            RecvPhase::Receiving => match event {
                RecvEventView::Datagram { payload, from } => {
                    if payload.len() <= DATAGRAM_MAX {
                        Some(
                            (
                                self.having_heard(from).receiving_at(
                                    RecvPhase::Delivering { pending: payload.len() as usize },
                                ),
                                RecvCommandView::Deliver { payload },
                            ),
                        )
                    } else {
                        None
                    }
                },
                RecvEventView::RecvFailed => Some(
                    (
                        self.receiving_at(RecvPhase::Done),
                        RecvCommandView::Done { result: Err(CopyError::Source) },
                    ),
                ),
                _ => None,
            },
            RecvPhase::Delivering { pending } => match event {
                RecvEventView::Delivered => Some(
                    Exchange {
                        delivered: tally(self.delivered, pending as nat),
                        ..self
                    }.receives(),
                ),
                _ => None,
            },
            RecvPhase::Done => None,
        }
    }

    /// An exchange on `route`, both directions idle and no peer heard yet.
    pub fn new(route: Route) -> (x: Exchange)
        ensures
            x == Exchange::fresh(route),
    {
        Exchange {
            route,
            peer: None,
            sending: SendPhase::Idle,
            receiving: RecvPhase::Idle,
            sent: 0,
            delivered: 0,
        }
    }

    /// The peer a datagram made now would go to, if there is one.
    pub fn snapshot(&self) -> (to: Option<PeerAddr>)
        ensures
            to == self.target(),
    {
        match self.route {
            Route::Fixed { remote } => Some(remote),
            Route::LastSender => self.peer,
        }
    }

    /// Takes one event for the sending direction and answers with its next
    /// command. An event that cannot come in the direction's phase is
    /// answered with none and changes nothing.
    pub fn send_step(&mut self, event: SendEvent) -> (command: Option<SendCommand>)
        ensures
            match old(self).send_next(event@) {
                Some((next, expected)) => {
                    &&& *final(self) == next
                    &&& command matches Some(given)
                    &&& given@ == expected
                },
                None => {
                    &&& *final(self) == *old(self)
                    &&& command is None
                },
            },
    {
        match self.sending {
            SendPhase::Idle => match event {
                SendEvent::Start => {
                    self.sending = SendPhase::Reading;
                    Some(SendCommand::Read { max: INPUT_MAX })
                },
                _ => None,
            },
            SendPhase::Reading => match event {
                SendEvent::Input { bytes } => {
                    let pending: usize = bytes.len();
                    if pending == 0 {
                        self.sending = SendPhase::Done;
                        Some(SendCommand::Done { result: Ok(self.sent) })
                    } else if pending <= INPUT_MAX {
                        match self.snapshot() {
                            Some(to) => {
                                self.sending = SendPhase::Sending { pending };
                                Some(SendCommand::Send { payload: bytes, to })
                            },
                            None => Some(SendCommand::Read { max: INPUT_MAX }),
                        }
                    } else {
                        None
                    }
                },
                SendEvent::ReadFailed => {
                    self.sending = SendPhase::Done;
                    Some(SendCommand::Done { result: Err(CopyError::Source) })
                },
                _ => None,
            },
            SendPhase::Sending { pending } => match event {
                SendEvent::Sent => {
                    self.sent = self.sent.saturating_add(pending as u64);
                    self.sending = SendPhase::Reading;
                    Some(SendCommand::Read { max: INPUT_MAX })
                },
                _ => None,
            },
            SendPhase::Done => None,
        }
    }

    /// Takes one event for the receiving direction and answers with its next
    /// command. An event that cannot come in the direction's phase is
    /// answered with none and changes nothing.
    pub fn recv_step(&mut self, event: RecvEvent) -> (command: Option<RecvCommand>)
        ensures
            match old(self).recv_next(event@) {
                Some((next, expected)) => {
                    &&& *final(self) == next
                    &&& command matches Some(given)
                    &&& given@ == expected
                },
                None => {
                    &&& *final(self) == *old(self)
                    &&& command is None
                },
            },
    {
        match self.receiving {
            RecvPhase::Idle => match event {
                RecvEvent::Start => {
                    self.receiving = RecvPhase::Receiving;
                    Some(RecvCommand::Receive { max: DATAGRAM_MAX })
                },
                _ => None,
            },
            RecvPhase::Receiving => match event {
                RecvEvent::Datagram { payload, from } => {
                    let pending: usize = payload.len();
                    if pending <= DATAGRAM_MAX {
                        match self.route {
                            Route::Fixed { .. } => {},
                            Route::LastSender => {
                                self.peer = Some(from);
                            },
                        }
                        self.receiving = RecvPhase::Delivering { pending };
                        Some(RecvCommand::Deliver { payload })
                    } else {
                        None
                    }
                },
                RecvEvent::RecvFailed => {
                    self.receiving = RecvPhase::Done;
                    Some(RecvCommand::Done { result: Err(CopyError::Source) })
                },
                _ => None,
            },
            RecvPhase::Delivering { pending } => match event {
                RecvEvent::Delivered => {
                    self.delivered = self.delivered.saturating_add(pending as u64);
                    self.receiving = RecvPhase::Receiving;
                    Some(RecvCommand::Receive { max: DATAGRAM_MAX })
                },
                _ => None,
            },
            RecvPhase::Done => None,
        }
    }
}

/// One report of the driver to an exchange, for either direction.
pub enum Stimulus {
    Local(SendEventView),
    Remote(RecvEventView),
}

/// One answer of an exchange, from either direction.
pub enum Response {
    Local(SendCommandView),
    Remote(RecvCommandView),
}

impl Exchange {
    /// The exchange's answer to a report for either direction.
    pub open spec fn react(self, stimulus: Stimulus) -> Option<(Exchange, Response)> {
        match stimulus {
            Stimulus::Local(event) => match self.send_next(event) {
                Some((next, command)) => Some((next, Response::Local(command))),
                None => None,
            },
            Stimulus::Remote(event) => match self.recv_next(event) {
                Some((next, command)) => Some((next, Response::Remote(command))),
                None => None,
            },
        }
    }

    /// Whether `history` is what a driver can report from here on: every
    /// report, in its turn, is one that can come in the phase of its
    /// direction. The reports of the two directions may be mingled in any way.
    pub open spec fn orderly(self, history: Seq<Stimulus>) -> bool
        decreases history.len(),
    {
        history.len() == 0 || match self.react(history.first()) {
            Some((next, response)) => next.orderly(history.drop_first()),
            None => false,
        }
    }

    /// The exchange after `history`. A report that cannot come is passed
    /// over.
    pub open spec fn after(self, history: Seq<Stimulus>) -> Exchange
        decreases history.len(),
    {
        if history.len() == 0 {
            self
        } else {
            match self.react(history.first()) {
                Some((next, response)) => next.after(history.drop_first()),
                None => self.after(history.drop_first()),
            }
        }
    }

    /// The answers of the exchange to `history`, in order. A report that
    /// cannot come gets none.
    pub open spec fn responses(self, history: Seq<Stimulus>) -> Seq<Response>
        decreases history.len(),
    {
        if history.len() == 0 {
            Seq::empty()
        } else {
            match self.react(history.first()) {
                Some((next, response)) => seq![response] + next.responses(history.drop_first()),
                None => self.responses(history.drop_first()),
            }
        }
    }
}

/// The chunks that the reads of local input returned in `history`, in order.
/// A read that returned nothing yields no chunk.
pub open spec fn inputs(history: Seq<Stimulus>) -> Seq<Seq<u8>>
    decreases history.len(),
{
    if history.len() == 0 {
        Seq::empty()
    } else {
        let head = match history.first() {
            Stimulus::Local(SendEventView::Input { bytes }) => if bytes.len() > 0 {
                seq![bytes]
            } else {
                Seq::empty()
            },
            _ => Seq::empty(),
        };
        head + inputs(history.drop_first())
    }
}

/// The payloads of the datagrams that came in during `history`, in order.
pub open spec fn arrivals(history: Seq<Stimulus>) -> Seq<Seq<u8>>
    decreases history.len(),
{
    if history.len() == 0 {
        Seq::empty()
    } else {
        let head = match history.first() {
            Stimulus::Remote(RecvEventView::Datagram { payload, from }) => seq![payload],
            _ => Seq::empty(),
        };
        head + arrivals(history.drop_first())
    }
}

/// The sender of the last datagram that came in during `history`.
pub open spec fn latest_sender(history: Seq<Stimulus>) -> Option<PeerAddr>
    decreases history.len(),
{
    if history.len() == 0 {
        None
    } else {
        match history.last() {
            Stimulus::Remote(RecvEventView::Datagram { payload, from }) => Some(from),
            _ => latest_sender(history.drop_last()),
        }
    }
}

/// The datagrams that `responses` send: each payload with its destination.
pub open spec fn sends(responses: Seq<Response>) -> Seq<(Seq<u8>, PeerAddr)>
    decreases responses.len(),
{
    if responses.len() == 0 {
        Seq::empty()
    } else {
        let head = match responses.first() {
            Response::Local(SendCommandView::Send { payload, to }) => seq![(payload, to)],
            _ => Seq::empty(),
        };
        head + sends(responses.drop_first())
    }
}

/// The payloads that `responses` write to local output, one write each.
pub open spec fn deliveries(responses: Seq<Response>) -> Seq<Seq<u8>>
    decreases responses.len(),
{
    if responses.len() == 0 {
        Seq::empty()
    } else {
        let head = match responses.first() {
            Response::Remote(RecvCommandView::Deliver { payload }) => seq![payload],
            _ => Seq::empty(),
        };
        head + deliveries(responses.drop_first())
    }
}

/// Each of `chunks` as a datagram for `to`.
pub open spec fn addressed(chunks: Seq<Seq<u8>>, to: PeerAddr) -> Seq<(Seq<u8>, PeerAddr)> {
    Seq::new(chunks.len(), |i: int| (chunks[i], to))
}

/// The payloads of `datagrams`.
pub open spec fn payloads(datagrams: Seq<(Seq<u8>, PeerAddr)>) -> Seq<Seq<u8>> {
    Seq::new(datagrams.len(), |i: int| datagrams[i].0)
}

/// No step of an exchange changes its route.
pub proof fn lemma_route_stays(x: Exchange, stimulus: Stimulus)
    ensures
        x.react(stimulus) matches Some((next, response)) ==> next.route == x.route,
{
}

/// Datagram boundaries on the way in. Whatever the route and however the two
/// directions are mingled, the writes to local output are the payloads of the
/// datagrams that came in: one write for each datagram, of just its payload,
/// in the order of arrival.
pub proof fn lemma_deliveries_are_arrivals(x: Exchange, history: Seq<Stimulus>)
    requires
        x.orderly(history),
    ensures
        deliveries(x.responses(history)) == arrivals(history),
    decreases history.len(),
{
    if history.len() == 0 {
    } else {
        let (next, response) = x.react(history.first())->0;
        let rest = history.drop_first();
        lemma_deliveries_are_arrivals(next, rest);
        let all = seq![response] + next.responses(rest);
        assert(all.first() == response);
        assert(all.drop_first() =~= next.responses(rest));
    }
}

/// Datagram boundaries on the way out. On a fixed route, however the two
/// directions are mingled, the datagrams sent are the chunks that the reads
/// of local input returned: one datagram for each chunk, of just its bytes,
/// to the fixed remote address, in the order of the reads.
pub proof fn lemma_fixed_route_sends_inputs(x: Exchange, remote: PeerAddr, history: Seq<Stimulus>)
    requires
        x.route == (Route::Fixed { remote }),
        x.orderly(history),
    ensures
        sends(x.responses(history)) == addressed(inputs(history), remote),
    decreases history.len(),
{
    if history.len() == 0 {
        assert(addressed(inputs(history), remote) =~= Seq::empty());
    } else {
        let (next, response) = x.react(history.first())->0;
        let rest = history.drop_first();
        lemma_route_stays(x, history.first());
        lemma_fixed_route_sends_inputs(next, remote, rest);
        let all = seq![response] + next.responses(rest);
        assert(all.first() == response);
        assert(all.drop_first() =~= next.responses(rest));
        let head = inputs(history).subrange(0, inputs(history).len() - inputs(rest).len());
        assert(inputs(history) =~= head + inputs(rest));
        assert(addressed(inputs(history), remote) =~= addressed(head, remote) + addressed(
            inputs(rest),
            remote,
        ));
        assert(sends(all) =~= addressed(head, remote) + sends(next.responses(rest)));
    }
}

/// Datagram round trip. Let a client's exchange be driven in any orderly way,
/// and let the datagrams that come in carry, one for one, the payloads of the
/// datagrams it sent, as an echoing peer returns them. Then the writes to
/// local output are the chunks read from local input: each chunk comes back
/// as one write of just its bytes, none merged and none split.
pub proof fn lemma_datagram_round_trip(remote: PeerAddr, history: Seq<Stimulus>)
    requires
        Exchange::fresh(Route::Fixed { remote }).orderly(history),
        arrivals(history) == payloads(
            sends(Exchange::fresh(Route::Fixed { remote }).responses(history)),
        ),
    ensures
        deliveries(Exchange::fresh(Route::Fixed { remote }).responses(history)) == inputs(
            history,
        ),
{
    let x = Exchange::fresh(Route::Fixed { remote });
    lemma_deliveries_are_arrivals(x, history);
    lemma_fixed_route_sends_inputs(x, remote, history);
    assert(payloads(addressed(inputs(history), remote)) =~= inputs(history));
}

/// Whether a report is the arrival of a datagram.
pub open spec fn is_arrival(stimulus: Stimulus) -> bool {
    stimulus matches Stimulus::Remote(RecvEventView::Datagram { payload, from })
}

/// Whether no datagram comes in during `history`.
pub open spec fn silent(history: Seq<Stimulus>) -> bool {
    forall|i: int| 0 <= i < history.len() ==> !is_arrival(#[trigger] history[i])
}

/// In an orderly history every report gets its answer.
pub proof fn lemma_responses_len(x: Exchange, history: Seq<Stimulus>)
    requires
        x.orderly(history),
    ensures
        x.responses(history).len() == history.len(),
    decreases history.len(),
{
    if history.len() > 0 {
        let (next, response) = x.react(history.first())->0;
        lemma_responses_len(next, history.drop_first());
    }
}

/// The reports before any place of an orderly history are an orderly
/// history.
pub proof fn lemma_orderly_prefix(x: Exchange, history: Seq<Stimulus>, i: int)
    requires
        x.orderly(history),
        0 <= i <= history.len(),
    ensures
        x.orderly(history.take(i)),
    decreases history.len(),
{
    if i > 0 {
        let (next, response) = x.react(history.first())->0;
        lemma_orderly_prefix(next, history.drop_first(), i - 1);
        assert(history.take(i).first() == history.first());
        assert(history.take(i).drop_first() =~= history.drop_first().take(i - 1));
    }
}

/// In an orderly history every report gets its answer, and the answer to the
/// report at `i` is the one the exchange gives in the state that the reports
/// before it have led to.
pub proof fn lemma_response_at(x: Exchange, history: Seq<Stimulus>, i: int)
    requires
        x.orderly(history),
        0 <= i < history.len(),
    ensures
        x.responses(history).len() == history.len(),
        x.after(history.take(i)).react(history[i]) == Some(
            (x.after(history.take(i + 1)), x.responses(history)[i]),
        ),
        x.after(history.take(i)).route == x.route,
    decreases history.len(),
{
    let (next, response) = x.react(history.first())->0;
    let rest = history.drop_first();
    lemma_route_stays(x, history.first());
    lemma_responses_len(x, history);
    if i == 0 {
        assert(history.take(0) =~= Seq::<Stimulus>::empty());
        assert(history.take(1).first() == history.first());
        assert(history.take(1).drop_first() =~= Seq::<Stimulus>::empty());
        assert(x.after(history.take(1)) == next.after(Seq::<Stimulus>::empty()));
    } else {
        lemma_response_at(next, rest, i - 1);
        assert(history.take(i).first() == history.first());
        assert(history.take(i).drop_first() =~= rest.take(i - 1));
        assert(history.take(i + 1).first() == history.first());
        assert(history.take(i + 1).drop_first() =~= rest.take(i));
        assert(rest[i - 1] == history[i]);
        assert(x.responses(history)[i] == next.responses(rest)[i - 1]);
    }
}

/// A history with one more report at its end leads to where that report
/// leads from the end of the history; and it is orderly just when the
/// history is and the report can come at its end.
pub proof fn lemma_one_more(x: Exchange, history: Seq<Stimulus>, stimulus: Stimulus)
    ensures
        x.after(history.push(stimulus)) == (match x.after(history).react(stimulus) {
            Some((next, response)) => next,
            None => x.after(history),
        }),
        x.orderly(history.push(stimulus)) <==> x.orderly(history) && x.after(history).react(
            stimulus,
        ) is Some,
    decreases history.len(),
{
    let longer = history.push(stimulus);
    if history.len() == 0 {
        let none = Seq::<Stimulus>::empty();
        assert(longer.first() == stimulus);
        assert(longer.drop_first() =~= none);
        assert(x.after(history) == x);
        match x.react(stimulus) {
            Some((next, response)) => {
                assert(next.orderly(none));
                assert(next.after(none) == next);
                assert(x.after(longer) == next.after(longer.drop_first()));
            },
            None => {
                assert(x.after(none) == x);
                assert(x.after(longer) == x.after(longer.drop_first()));
            },
        }
    } else {
        assert(longer.first() == history.first());
        assert(longer.drop_first() =~= history.drop_first().push(stimulus));
        match x.react(history.first()) {
            Some((next, response)) => {
                lemma_one_more(next, history.drop_first(), stimulus);
            },
            None => {
                lemma_one_more(x, history.drop_first(), stimulus);
            },
        }
    }
}

/// While no datagram has come in there is no latest sender.
pub proof fn lemma_silent_has_no_sender(history: Seq<Stimulus>)
    requires
        silent(history),
    ensures
        latest_sender(history) is None,
    decreases history.len(),
{
    if history.len() > 0 {
        assert(!is_arrival(history[history.len() - 1]));
        lemma_silent_has_no_sender(history.drop_last());
    }
}

/// The sender of a datagram is the latest sender until the next datagram
/// comes in: whatever was reported before it, and whatever else is reported
/// after it.
pub proof fn lemma_latest_sender_after_datagram(
    before: Seq<Stimulus>,
    payload: Seq<u8>,
    from: PeerAddr,
    since: Seq<Stimulus>,
)
    requires
        silent(since),
    ensures
        latest_sender(
            before.push(Stimulus::Remote(RecvEventView::Datagram { payload, from }))
                + since,
        ) == Some(from),
    decreases since.len(),
{
    let arrival = Stimulus::Remote(RecvEventView::Datagram { payload, from });
    let all = before.push(arrival) + since;
    if since.len() == 0 {
        assert(all =~= before.push(arrival));
    } else {
        assert(!is_arrival(since[since.len() - 1]));
        assert(all.last() == since.last());
        assert(all.drop_last() =~= before.push(arrival) + since.drop_last());
        lemma_latest_sender_after_datagram(before, payload, from, since.drop_last());
    }
}

/// The peer of a listener's exchange is the sender of the last datagram that
/// came in, and the one it began with while none has come in.
pub proof fn lemma_peer_is_latest_sender(x: Exchange, history: Seq<Stimulus>)
    requires
        x.route == Route::LastSender,
        x.orderly(history),
    ensures
        x.after(history).route == Route::LastSender,
        x.after(history).peer == (match latest_sender(history) {
            Some(from) => Some(from),
            None => x.peer,
        }),
    decreases history.len(),
{
    if history.len() > 0 {
        let earlier = history.drop_last();
        let last = history.last();
        assert(history =~= earlier.push(last));
        lemma_one_more(x, earlier, last);
        lemma_peer_is_latest_sender(x, earlier);
        lemma_route_stays(x.after(earlier), last);
    }
}

/// Peer tracking. In a listener's session, however the two directions are
/// mingled, a chunk of local input that is read after a datagram has come in
/// is sent, whole and as one datagram, to the sender of the last datagram
/// that came in before the read, and to no one else.
pub proof fn lemma_input_goes_to_latest_sender(
    history: Seq<Stimulus>,
    i: int,
    bytes: Seq<u8>,
    peer: PeerAddr,
)
    requires
        Exchange::fresh(Route::LastSender).orderly(history),
        0 <= i < history.len(),
        history[i] == Stimulus::Local(SendEventView::Input { bytes }),
        bytes.len() > 0,
        latest_sender(history.take(i)) == Some(peer),
    ensures
        Exchange::fresh(Route::LastSender).responses(history).len() == history.len(),
        Exchange::fresh(Route::LastSender).responses(history)[i] == Response::Local(
            SendCommandView::Send { payload: bytes, to: peer },
        ),
{
    let x = Exchange::fresh(Route::LastSender);
    lemma_response_at(x, history, i);
    lemma_orderly_prefix(x, history, i);
    lemma_peer_is_latest_sender(x, history.take(i));
}

/// Peer tracking, datagram by datagram. In a listener's session, let a
/// datagram come in from `peer`, and let a chunk of local input be read later
/// with no other datagram in between. Then the chunk is sent to `peer`: so
/// after a datagram from A input goes to A, and once a datagram from B has
/// come in it goes to B and no longer to A.
pub proof fn lemma_peer_tracking(
    history: Seq<Stimulus>,
    heard: int,
    read: int,
    payload: Seq<u8>,
    peer: PeerAddr,
    bytes: Seq<u8>,
)
    requires
        Exchange::fresh(Route::LastSender).orderly(history),
        0 <= heard < read < history.len(),
        history[heard] == Stimulus::Remote(RecvEventView::Datagram { payload, from: peer }),
        forall|m: int| heard < m < read ==> !is_arrival(#[trigger] history[m]),
        history[read] == Stimulus::Local(SendEventView::Input { bytes }),
        bytes.len() > 0,
    ensures
        Exchange::fresh(Route::LastSender).responses(history).len() == history.len(),
        Exchange::fresh(Route::LastSender).responses(history)[read] == Response::Local(
            SendCommandView::Send { payload: bytes, to: peer },
        ),
{
    let before = history.take(heard);
    let since = history.subrange(heard + 1, read);
    assert(history.take(read) =~= before.push(history[heard]) + since);
    assert(silent(since)) by {
        assert forall|m: int| 0 <= m < since.len() implies !is_arrival(#[trigger] since[m]) by {
            assert(since[m] == history[heard + 1 + m]);
        }
    }
    lemma_latest_sender_after_datagram(before, payload, peer, since);
    lemma_input_goes_to_latest_sender(history, read, bytes, peer);
}

/// Nothing to send to. In a listener's session, a chunk of local input that
/// is read before any datagram has come in is dropped: the answer to the read
/// is the next read, nothing is sent, and the sending direction does not end.
pub proof fn lemma_input_dropped_while_no_peer(history: Seq<Stimulus>, i: int, bytes: Seq<u8>)
    requires
        Exchange::fresh(Route::LastSender).orderly(history),
        0 <= i < history.len(),
        history[i] == Stimulus::Local(SendEventView::Input { bytes }),
        bytes.len() > 0,
        silent(history.take(i)),
    ensures
        Exchange::fresh(Route::LastSender).responses(history).len() == history.len(),
        Exchange::fresh(Route::LastSender).responses(history)[i] == Response::Local(
            SendCommandView::Read { max: INPUT_MAX },
        ),
        Exchange::fresh(Route::LastSender).after(history.take(i + 1)).sending
            == SendPhase::Reading,
{
    let x = Exchange::fresh(Route::LastSender);
    lemma_response_at(x, history, i);
    lemma_orderly_prefix(x, history, i);
    lemma_peer_is_latest_sender(x, history.take(i));
    lemma_silent_has_no_sender(history.take(i));
}

} // verus!
