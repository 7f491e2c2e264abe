//! TCP sessions: getting the one connection of a session, as a client or as
//! a listener, and relaying bytes over it in both directions.

use crate::net::addr::{any_interface, any_interface_text, endpoint, endpoint_text};
use crate::net::session::{
    tally, text_view, timed_out_text, verdict_view, AcquireError, AcquireErrorView, AcquireKind,
    CopyError, CopyResult, Flow, Label, Outcome, Role, Ruling, RulingView, Signal, Supervisor,
    Timeout, Verdict,
};
use vstd::prelude::*;
use vstd::string::*;

verus! {

/// How far a session has come.
#[derive(Clone, Copy, Debug, PartialEq, Eq, Structural)]
pub enum Phase {
    /// Nothing has been asked of the driver yet.
    Idle,
    /// A client waits for its connection.
    Connecting,
    /// A listener waits for its port.
    Binding,
    /// A listener waits for its one peer.
    Accepting,
    /// The two directions run.
    Relaying,
    /// The session has ended.
    Closed,
}

/// What the driver reports to a session.
#[derive(Debug, PartialEq, Eq)]
pub enum Event {
    /// The driver is ready to begin.
    Start,
    /// The connection is there.
    Connected,
    /// The port is bound.
    Bound,
    /// A peer has connected; `peer` is its address as the system shows it.
    Accepted { peer: String },
    /// What was asked for failed; `reason` is the system's error as text.
    Failed { reason: String },
    /// The limit given with the command passed before anything else happened.
    Elapsed,
    /// One direction of the relay ended.
    Finished { flow: Flow, result: CopyResult },
}

/// An event with its texts as sequences of characters.
pub enum EventView {
    Start,
    Connected,
    Bound,
    Accepted { peer: Seq<char> },
    Failed { reason: Seq<char> },
    Elapsed,
    Finished { flow: Flow, result: CopyResult },
}

impl View for Event {
    type V = EventView;

    open spec fn view(&self) -> EventView {
        match *self {
            Event::Start => EventView::Start,
            Event::Connected => EventView::Connected,
            Event::Bound => EventView::Bound,
            Event::Accepted { peer } => EventView::Accepted { peer: peer@ },
            Event::Failed { reason } => EventView::Failed { reason: reason@ },
            Event::Elapsed => EventView::Elapsed,
            Event::Finished { flow, result } => EventView::Finished { flow, result },
        }
    }
}

/// What a session asks of the driver.
#[derive(Debug, PartialEq, Eq)]
pub enum Command {
    /// Connect to `addr`; with a limit, give up when it has passed.
    Connect { addr: String, limit: Option<Timeout> },
    /// Bind a listener to `addr`.
    Bind { addr: String },
    /// Accept one connection, then drop the listener; with a limit, give up
    /// when it has passed.
    Accept { limit: Option<Timeout> },
    /// Run both directions of the relay and report each one's end; with a
    /// limit, report when it has passed.
    Relay { limit: Option<Timeout> },
    /// Go on waiting for the relay, under the limit already running.
    Wait,
    /// Close the endpoint, if there is one, and end with `verdict`.
    Exit { verdict: Verdict },
}

/// A command with its texts as sequences of characters.
pub enum CommandView {
    Connect { addr: Seq<char>, limit: Option<Timeout> },
    Bind { addr: Seq<char> },
    Accept { limit: Option<Timeout> },
    Relay { limit: Option<Timeout> },
    Wait,
    Exit { verdict: Result<Outcome, AcquireErrorView> },
}

impl View for Command {
    type V = CommandView;

    open spec fn view(&self) -> CommandView {
        match *self {
            Command::Connect { addr, limit } => CommandView::Connect { addr: addr@, limit },
            Command::Bind { addr } => CommandView::Bind { addr: addr@ },
            Command::Accept { limit } => CommandView::Accept { limit },
            Command::Relay { limit } => CommandView::Relay { limit },
            Command::Wait => CommandView::Wait,
            Command::Exit { verdict } => CommandView::Exit { verdict: verdict_view(verdict) },
        }
    }
}

/// A session's answer to one event: a line for the diagnostic stream, shown
/// only by a verbose session, and what to do next.
#[derive(Debug, PartialEq, Eq)]
pub struct Step {
    pub notice: Option<String>,
    pub command: Command,
}

/// A step with its texts as sequences of characters.
pub struct StepView {
    pub notice: Option<Seq<char>>,
    pub command: CommandView,
}

impl View for Step {
    type V = StepView;

    open spec fn view(&self) -> StepView {
        StepView { notice: text_view(self.notice), command: self.command@ }
    }
}

/// One TCP session: a client or a listener, from its first command to its
/// verdict.
#[derive(Debug)]
pub struct Session {
    role: Role,
    addr: String,
    limit: Option<Timeout>,
    verbose: bool,
    phase: Phase,
    watch: Supervisor,
}

/// What a session holds, with its address as a sequence of characters.
pub struct SessionView {
    pub role: Role,
    pub addr: Seq<char>,
    pub limit: Option<Timeout>,
    pub verbose: bool,
    pub phase: Phase,
    pub watch: Supervisor,
}

impl View for Session {
    type V = SessionView;

    closed spec fn view(&self) -> SessionView {
        SessionView {
            role: self.role,
            addr: self.addr@,
            limit: self.limit,
            verbose: self.verbose,
            phase: self.phase,
            watch: self.watch,
        }
    }
}

/// The message of an operation that failed for `reason`. Under a limit the
/// message names the operation with `prefix`; without one it is the reason
/// alone.
pub open spec fn failure_text(prefix: Seq<char>, reason: Seq<char>, limit: Option<Timeout>) -> Seq<
    char,
> {
    if limit is Some {
        prefix + reason
    } else {
        reason
    }
}

impl SessionView {
    /// A client before its first step.
    pub open spec fn client(
        host: Seq<char>,
        port: u16,
        limit: Option<Timeout>,
        verbose: bool,
    ) -> SessionView {
        SessionView {
            role: Role::Client,
            addr: endpoint_text(host, port),
            limit,
            verbose,
            phase: Phase::Idle,
            watch: Supervisor::fresh(limit, verbose, Label::Session),
        }
    }

    /// A listener before its first step.
    pub open spec fn listener(port: u16, limit: Option<Timeout>, verbose: bool) -> SessionView {
        SessionView {
            role: Role::Listener,
            addr: any_interface_text(port),
            limit,
            verbose,
            phase: Phase::Idle,
            watch: Supervisor::fresh(limit, verbose, Label::Connection),
        }
    }

    /// `line` for a verbose session, nothing for a quiet one.
    pub open spec fn says(self, line: Seq<char>) -> Option<Seq<char>> {
        if self.verbose {
            Some(line)
        } else {
            None
        }
    }

    /// The session in another phase.
    pub open spec fn at(self, phase: Phase) -> SessionView {
        SessionView { phase, ..self }
    }

    /// The end of a session that did not get its endpoint.
    pub open spec fn fails(self, kind: AcquireKind, message: Seq<char>) -> (SessionView, StepView) {
        (
            self.at(Phase::Closed),
            StepView {
                notice: None,
                command: CommandView::Exit { verdict: Err(AcquireErrorView { kind, message }) },
            },
        )
    }

    /// The first step: a client connects, a listener binds.
    pub open spec fn begin(self) -> (SessionView, StepView) {
        match self.role {
            Role::Client => (
                self.at(Phase::Connecting),
                StepView {
                    notice: self.says("Connecting to "@ + self.addr),
                    command: CommandView::Connect { addr: self.addr, limit: self.limit },
                },
            ),
            Role::Listener => (
                self.at(Phase::Binding),
                StepView {
                    notice: self.says("Listening on "@ + self.addr),
                    command: CommandView::Bind { addr: self.addr },
                },
            ),
        }
    }

    /// The step into the relay, announced by `line`.
    pub open spec fn relays(self, line: Seq<char>) -> (SessionView, StepView) {
        (
            self.at(Phase::Relaying),
            StepView { notice: self.says(line), command: CommandView::Relay { limit: self.limit } },
        )
    }

    /// A relaying session's answer to a signal for its supervisor.
    pub open spec fn supervised(self, signal: Signal) -> Option<(SessionView, StepView)> {
        match self.watch.next(signal) {
            Some((watch, RulingView::KeepWaiting)) => Some(
                (
                    SessionView { watch, ..self },
                    StepView { notice: None, command: CommandView::Wait },
                ),
            ),
            Some((watch, RulingView::Over { outcome, notice })) => Some(
                (
                    SessionView { watch, phase: Phase::Closed, ..self },
                    StepView { notice, command: CommandView::Exit { verdict: Ok(outcome) } },
                ),
            ),
            None => None,
        }
    }

    /// The session's rule: its next state and its answer to `event`, or none
    /// where the event cannot come in this phase.
    pub open spec fn next(self, event: EventView) -> Option<(SessionView, StepView)> {
        match self.phase {
            Phase::Idle => match event {
                EventView::Start => Some(self.begin()),
                _ => None,
            },
            Phase::Connecting => match event {
                EventView::Connected => Some(self.relays("Connected, starting IO copy"@)),
                EventView::Failed { reason } => Some(
                    self.fails(
                        AcquireKind::Failed,
                        failure_text("connect error: "@, reason, self.limit),
                    ),
                ),
                EventView::Elapsed => match self.limit {
                    Some(limit) => Some(
                        self.fails(
                            AcquireKind::TimedOut,
                            timed_out_text("connect"@, limit.shown_text()),
                        ),
                    ),
                    None => None,
                },
                _ => None,
            },
            Phase::Binding => match event {
                EventView::Bound => Some(
                    (
                        self.at(Phase::Accepting),
                        StepView {
                            notice: None,
                            command: CommandView::Accept { limit: self.limit },
                        },
                    ),
                ),
                EventView::Failed { reason } => Some(self.fails(AcquireKind::Failed, reason)),
                _ => None,
            },
            Phase::Accepting => match event {
                EventView::Accepted { peer } => Some(
                    self.relays("Accepted connection from "@ + peer),
                ),
                EventView::Failed { reason } => Some(
                    self.fails(
                        AcquireKind::Failed,
                        failure_text("accept failed: "@, reason, self.limit),
                    ),
                ),
                EventView::Elapsed => match self.limit {
                    Some(limit) => Some(
                        self.fails(
                            AcquireKind::TimedOut,
                            timed_out_text("accept"@, limit.shown_text()),
                        ),
                    ),
                    None => None,
                },
                _ => None,
            },
            Phase::Relaying => match event {
                EventView::Finished { flow, result } => self.supervised(
                    Signal::Finished { flow, result },
                ),
                EventView::Elapsed => self.supervised(Signal::Elapsed),
                _ => None,
            },
            Phase::Closed => None,
        }
    }
}

/// A client session for `port` at `host`. `timeout` limits the connect and,
/// counted anew, the relay. The session is idle until it is told to start.
pub fn client(host: &str, port: u16, timeout: Option<Timeout>, verbose: bool) -> (s: Session)
    ensures
        s@ == SessionView::client(host@, port, timeout, verbose),
        s@.coherent(),
{
    Session {
        role: Role::Client,
        addr: endpoint(host, port),
        limit: timeout,
        verbose,
        phase: Phase::Idle,
        watch: Supervisor::new(timeout, verbose, Label::Session),
    }
}

/// A listener session for `port` on all interfaces. `timeout` limits the
/// accept and, counted anew, the relay. The session is idle until it is told
/// to start.
pub fn listen(port: u16, timeout: Option<Timeout>, verbose: bool) -> (s: Session)
    ensures
        s@ == SessionView::listener(port, timeout, verbose),
        s@.coherent(),
{
    Session {
        role: Role::Listener,
        addr: any_interface(port),
        limit: timeout,
        verbose,
        phase: Phase::Idle,
        watch: Supervisor::new(timeout, verbose, Label::Connection),
    }
}

impl Session {
    /// The phase the session is in.
    pub fn phase(&self) -> (phase: Phase)
        ensures
            phase == self@.phase,
    {
        self.phase
    }

    /// Ends the session without an endpoint.
    fn fail(&mut self, error: AcquireError) -> (step: Step)
        ensures
            (final(self)@, step@) == old(self)@.fails(error@.kind, error@.message),
    {
        self.phase = Phase::Closed;
        Step { notice: None, command: Command::Exit { verdict: Err(error) } }
    }

    /// Ends a failed operation: under a limit the message names the
    /// operation, without one it is the system's own.
    fn refuse(&mut self, prefix: &str, reason: String) -> (step: Step)
        ensures
            (final(self)@, step@) == old(self)@.fails(
                AcquireKind::Failed,
                failure_text(prefix@, reason@, old(self)@.limit),
            ),
    {
        let message: String = if self.limit.is_some() {
            String::from_str(prefix).concat(reason.as_str())
        } else {
            reason
        };
        self.fail(AcquireError::failed(message))
    }

    /// The line `lead` followed by `detail`, if the session is verbose.
    fn says(&self, lead: &str, detail: &str) -> (notice: Option<String>)
        ensures
            text_view(notice) == self@.says(lead@ + detail@),
    {
        if self.verbose {
            Some(String::from_str(lead).concat(detail))
        } else {
            None
        }
    }

    /// Enters the relay, announced by `lead` followed by `detail`.
    fn relay(&mut self, lead: &str, detail: Option<&str>) -> (step: Step)
        ensures
            (final(self)@, step@) == old(self)@.relays(
                match detail {
                    Some(detail) => lead@ + detail@,
                    None => lead@,
                },
            ),
    {
        let notice: Option<String> = if self.verbose {
            match detail {
                Some(detail) => Some(String::from_str(lead).concat(detail)),
                None => Some(String::from_str(lead)),
            }
        } else {
            None
        };
        self.phase = Phase::Relaying;
        Step { notice, command: Command::Relay { limit: self.limit } }
    }

    /// Hands a signal to the supervisor and turns its ruling into a step.
    fn supervise(&mut self, signal: Signal) -> (step: Option<Step>)
        ensures
            match old(self)@.supervised(signal) {
                Some((next, expected)) => {
                    &&& final(self)@ == next
                    &&& step matches Some(given)
                    &&& given@ == expected
                },
                None => {
                    &&& final(self)@ == old(self)@
                    &&& step is None
                },
            },
    {
        match self.watch.observe(signal) {
            Some(Ruling::KeepWaiting) => Some(Step { notice: None, command: Command::Wait }),
            Some(Ruling::Over { outcome, notice }) => {
                self.phase = Phase::Closed;
                Some(Step { notice, command: Command::Exit { verdict: Ok(outcome) } })
            },
            None => None,
        }
    }

    /// Takes one event from the driver and answers with the next step. An
    /// event that cannot come in the session's phase is answered with none and
    /// changes nothing.
    pub fn step(&mut self, event: Event) -> (step: Option<Step>)
        ensures
            match old(self)@.next(event@) {
                Some((next, expected)) => {
                    &&& final(self)@ == next
                    &&& step matches Some(given)
                    &&& given@ == expected
                },
                None => {
                    &&& final(self)@ == old(self)@
                    &&& step is None
                },
            },
            old(self)@.coherent() ==> final(self)@.coherent(),
    {
        proof {
            if self@.coherent() {
                lemma_stays_coherent(self@, event@);
            }
        }
        match self.phase {
            Phase::Idle => match event {
                Event::Start => match self.role {
                    Role::Client => {
                        let notice: Option<String> = self.says(
                            "Connecting to ",
                            self.addr.as_str(),
                        );
                        self.phase = Phase::Connecting;
                        Some(
                            Step {
                                notice,
                                command: Command::Connect {
                                    addr: self.addr.clone(),
                                    limit: self.limit,
                                },
                            },
                        )
                    },
                    Role::Listener => {
                        let notice: Option<String> = self.says("Listening on ", self.addr.as_str());
                        self.phase = Phase::Binding;
                        Some(Step { notice, command: Command::Bind { addr: self.addr.clone() } })
                    },
                },
                _ => None,
            },
            Phase::Connecting => match event {
                Event::Connected => Some(self.relay("Connected, starting IO copy", None)),
                Event::Failed { reason } => Some(self.refuse("connect error: ", reason)),
                Event::Elapsed => match self.limit {
                    Some(limit) => Some(self.fail(AcquireError::timed_out("connect", &limit))),
                    None => None,
                },
                _ => None,
            },
            Phase::Binding => match event {
                Event::Bound => {
                    self.phase = Phase::Accepting;
                    Some(Step { notice: None, command: Command::Accept { limit: self.limit } })
                },
                Event::Failed { reason } => Some(self.fail(AcquireError::failed(reason))),
                _ => None,
            },
            Phase::Accepting => match event {
                Event::Accepted { peer } => Some(
                    self.relay("Accepted connection from ", Some(peer.as_str())),
                ),
                Event::Failed { reason } => Some(self.refuse("accept failed: ", reason)),
                Event::Elapsed => match self.limit {
                    Some(limit) => Some(self.fail(AcquireError::timed_out("accept", &limit))),
                    None => None,
                },
                _ => None,
            },
            Phase::Relaying => match event {
                Event::Finished { flow, result } => self.supervise(
                    Signal::Finished { flow, result },
                ),
                Event::Elapsed => self.supervise(Signal::Elapsed),
                _ => None,
            },
            Phase::Closed => None,
        }
    }
}

impl SessionView {
    /// The name under which the session's end is announced.
    pub open spec fn label(self) -> Label {
        match self.role {
            Role::Client => Label::Session,
            Role::Listener => Label::Connection,
        }
    }

    /// What holds of a session in every state it can reach: the supervisor
    /// has the session's own settings, it has seen nothing before the relay,
    /// and it has ruled the session over only if the session has ended.
    pub open spec fn coherent(self) -> bool {
        &&& self.watch.limit == self.limit
        &&& self.watch.verbose == self.verbose
        &&& self.watch.label == self.label()
        &&& self.watch.over ==> self.phase == Phase::Closed
        &&& self.phase != Phase::Relaying && self.phase != Phase::Closed ==> self.watch
            == Supervisor::fresh(self.limit, self.verbose, self.label())
        &&& self.phase == Phase::Connecting ==> self.role == Role::Client
        &&& self.phase == Phase::Binding || self.phase == Phase::Accepting ==> self.role
            == Role::Listener
    }

    /// How many steps towards its end the session's phase is.
    pub open spec fn progress(self) -> nat {
        match self.phase {
            Phase::Idle => 0,
            Phase::Connecting => 1,
            Phase::Binding => 1,
            Phase::Accepting => 2,
            Phase::Relaying => 3,
            Phase::Closed => 4,
        }
    }
}

/// Whether a command asks the driver for the session's endpoint, or for a
/// step towards it.
pub open spec fn acquires(command: CommandView) -> bool {
    command is Connect || command is Bind || command is Accept
}

/// A session that has not been stepped is coherent.
pub proof fn lemma_begins_coherent(
    host: Seq<char>,
    port: u16,
    limit: Option<Timeout>,
    verbose: bool,
)
    ensures
        SessionView::client(host, port, limit, verbose).coherent(),
        SessionView::listener(port, limit, verbose).coherent(),
{
}

/// Every step keeps a session coherent.
pub proof fn lemma_stays_coherent(s: SessionView, event: EventView)
    requires
        s.coherent(),
    ensures
        s.next(event) matches Some((next, step)) ==> next.coherent(),
{
}

/// One endpoint, closed on every way out. A session never goes back: each
/// command that works towards the endpoint moves it on to a later phase, so
/// none is given twice and none after the relay has begun. The session ends
/// with the command that closes the endpoint, on every path and never
/// without it, and an ended session gives no command at all.
pub proof fn lemma_one_endpoint(s: SessionView, event: EventView)
    ensures
        s.phase == Phase::Closed ==> s.next(event) is None,
        s.next(event) matches Some((next, step)) ==> {
            &&& s.progress() <= next.progress()
            &&& acquires(step.command) ==> s.progress() < next.progress() <= 2
            &&& step.command is Relay ==> s.progress() < next.progress() == 3
            &&& step.command is Exit <==> next.phase == Phase::Closed
        },
{
}

/// The limit on getting the endpoint. The session hands its limit to the
/// driver with the commands to connect and to accept. When the driver
/// reports that the limit passed, the session ends at once with an error of
/// the kind `TimedOut`; when it reports a refusal, with one of the kind
/// `Failed`. The two are never confused.
pub proof fn lemma_acquire_limit(s: SessionView, limit: Timeout, reason: Seq<char>)
    requires
        s.phase == Phase::Connecting || s.phase == Phase::Accepting,
        s.limit == Some(limit),
    ensures
        ({
            &&& s.next(EventView::Elapsed) matches Some((next, step))
            &&& next.phase == Phase::Closed
            &&& step.command matches CommandView::Exit { verdict: Err(e) }
            &&& e.kind == AcquireKind::TimedOut
        }),
        ({
            &&& s.next(EventView::Failed { reason }) matches Some((next, step))
            &&& next.phase == Phase::Closed
            &&& step.command matches CommandView::Exit { verdict: Err(e) }
            &&& e.kind == AcquireKind::Failed
        }),
{
}

/// What the first commands carry: a client is told to connect to its
/// address under the session's limit, and a listener, once bound to its
/// address, to accept under that limit.
pub proof fn lemma_limit_is_handed_on(s: SessionView)
    ensures
        s.phase == Phase::Idle && s.role == Role::Client ==> ({
            &&& s.next(EventView::Start) matches Some((next, step))
            &&& step.command == CommandView::Connect { addr: s.addr, limit: s.limit }
        }),
        s.phase == Phase::Idle && s.role == Role::Listener ==> ({
            &&& s.next(EventView::Start) matches Some((next, step))
            &&& step.command == CommandView::Bind { addr: s.addr }
        }),
        s.phase == Phase::Binding ==> ({
            &&& s.next(EventView::Bound) matches Some((next, step))
            &&& step.command == CommandView::Accept { limit: s.limit }
        }),
{
}

/// A relay cannot fail a session. Whatever is reported while the two
/// directions run, a direction's failure included, the session either goes
/// on waiting or ends with an outcome, never with an error.
pub proof fn lemma_relay_cannot_fail(s: SessionView, event: EventView)
    requires
        s.phase == Phase::Relaying,
    ensures
        s.next(event) matches Some((next, step)) ==> {
            ||| step.command is Wait && next.phase == Phase::Relaying
            ||| step.command matches CommandView::Exit { verdict: Ok(outcome) } && next.phase
                == Phase::Closed
        },
{
}

/// The limit on the relay. When the driver reports that the session's limit
/// passed during the relay, the session ends at once, whichever directions
/// are still running. Its outcome is that it timed out, which is no error.
pub proof fn lemma_relay_limit(s: SessionView, limit: Timeout)
    requires
        s.coherent(),
        s.phase == Phase::Relaying,
        s.limit == Some(limit),
    ensures
        ({
            &&& s.next(EventView::Elapsed) matches Some((next, step))
            &&& next.phase == Phase::Closed
            &&& step.command == CommandView::Exit { verdict: Ok(Outcome::TimedOut) }
            &&& step.notice == s.says(timed_out_text(s.label().label_text(), limit.shown_text()))
        }),
{
}

/// The relay ends by itself when both directions have ended. After the step
/// into the relay, the end of one direction makes the session wait on; the
/// end of the other completes it, whatever the order and the results.
pub proof fn lemma_relay_completes(
    s: SessionView,
    first: Flow,
    result: CopyResult,
    second: CopyResult,
)
    requires
        s.phase == Phase::Relaying,
        s.watch == Supervisor::fresh(s.watch.limit, s.watch.verbose, s.watch.label),
    ensures
        ({
            &&& s.next(EventView::Finished { flow: first, result }) matches Some((waiting, step))
            &&& step.command is Wait
            &&& waiting.next(EventView::Finished { flow: first.other(), result: second })
                matches Some((end, last))
            &&& end.phase == Phase::Closed
            &&& last.command == CommandView::Exit { verdict: Ok(Outcome::Completed) }
        }),
{
}

/// The most bytes a pump asks for in one read.
pub const CHUNK: usize = 8192;

/// How far a pump has come.
#[derive(Clone, Copy, Debug, PartialEq, Eq)]
pub enum PumpPhase {
    /// Nothing has been asked of the driver yet.
    Idle,
    /// A read from the source is under way.
    Reading,
    /// A write of `pending` bytes to the sink is under way.
    Writing { pending: usize },
    /// The closing step is under way; `result` is what the pump will report.
    Closing { result: CopyResult },
    /// The pump has reported its result.
    Done,
}

/// What the driver reports to a pump.
#[derive(Debug, PartialEq, Eq)]
pub enum PumpEvent {
    /// The driver is ready to begin.
    Start,
    /// A read returned `bytes`; none at all means that the source is
    /// exhausted.
    Input { bytes: Vec<u8> },
    /// The read failed.
    ReadFailed,
    /// The write went through, with its flush where one was asked for.
    Written,
    /// The write or its flush failed.
    WriteFailed,
    /// The closing step was tried; how it went does not matter.
    Closed,
}

/// An event with its bytes as a sequence.
pub enum PumpEventView {
    Start,
    Input { bytes: Seq<u8> },
    ReadFailed,
    Written,
    WriteFailed,
    Closed,
}

impl View for PumpEvent {
    type V = PumpEventView;

    open spec fn view(&self) -> PumpEventView {
        match *self {
            PumpEvent::Start => PumpEventView::Start,
            PumpEvent::Input { bytes } => PumpEventView::Input { bytes: bytes@ },
            PumpEvent::ReadFailed => PumpEventView::ReadFailed,
            PumpEvent::Written => PumpEventView::Written,
            PumpEvent::WriteFailed => PumpEventView::WriteFailed,
            PumpEvent::Closed => PumpEventView::Closed,
        }
    }
}

/// What a pump asks of the driver.
#[derive(Debug, PartialEq, Eq)]
pub enum PumpCommand {
    /// Read at most `max` bytes from the source.
    Read { max: usize },
    /// Write all of `bytes` to the sink, and flush it if `flush` is set.
    Write { bytes: Vec<u8>, flush: bool },
    /// Tell the peer that no more data will come: close the writing half of
    /// the connection and leave the reading half open.
    Shutdown,
    /// Flush local output.
    Flush,
    /// The direction has ended with `result`.
    Done { result: CopyResult },
}

/// A command with its bytes as a sequence.
pub enum PumpCommandView {
    Read { max: usize },
    Write { bytes: Seq<u8>, flush: bool },
    Shutdown,
    Flush,
    Done { result: CopyResult },
}

impl View for PumpCommand {
    type V = PumpCommandView;

    open spec fn view(&self) -> PumpCommandView {
        match *self {
            PumpCommand::Read { max } => PumpCommandView::Read { max },
            PumpCommand::Write { bytes, flush } => PumpCommandView::Write { bytes: bytes@, flush },
            PumpCommand::Shutdown => PumpCommandView::Shutdown,
            PumpCommand::Flush => PumpCommandView::Flush,
            PumpCommand::Done { result } => PumpCommandView::Done { result },
        }
    }
}

/// One direction of a TCP relay: it copies what it reads from its source to
/// its sink, chunk by chunk, until the source is exhausted or either side
/// fails, and then closes its sink's side.
///
/// The outbound pump ends by closing the writing half of the connection. The
/// inbound pump flushes local output with every write and once more at the
/// end. A pump knows nothing of the other direction.
#[derive(Clone, Copy, Debug, PartialEq, Eq)]
pub struct Pump {
    pub flow: Flow,
    pub phase: PumpPhase,
    pub moved: u64,
}

impl Pump {
    /// A pump before its first step.
    pub open spec fn fresh(flow: Flow) -> Pump {
        Pump { flow, phase: PumpPhase::Idle, moved: 0 }
    }

    /// The command that closes the pump's side of its sink.
    pub open spec fn closing(self) -> PumpCommandView {
        match self.flow {
            Flow::Outbound => PumpCommandView::Shutdown,
            Flow::Inbound => PumpCommandView::Flush,
        }
    }

    /// The step that ends the copying with `result`.
    pub open spec fn closes(self, result: CopyResult) -> (Pump, PumpCommandView) {
        (Pump { phase: PumpPhase::Closing { result }, ..self }, self.closing())
    }

    /// The pump with `more` bytes added to its count.
    pub open spec fn having_moved(self, more: nat) -> Pump {
        Pump { moved: tally(self.moved, more), ..self }
    }

    /// The step that asks for the next chunk.
    pub open spec fn reads(self) -> (Pump, PumpCommandView) {
        (Pump { phase: PumpPhase::Reading, ..self }, PumpCommandView::Read { max: CHUNK })
    }

    /// The pump's rule: its next state and its answer to `event`, or none
    /// where the event cannot come in this phase.
    pub open spec fn next(self, event: PumpEventView) -> Option<(Pump, PumpCommandView)> {
        match self.phase {
            PumpPhase::Idle => match event {
                PumpEventView::Start => Some(self.reads()),
                _ => None,
            },
            PumpPhase::Reading => match event {
                PumpEventView::Input { bytes } => {
                    if bytes.len() == 0 {
                        Some(self.closes(Ok(self.moved)))
                    } else if bytes.len() <= CHUNK {
                        Some(
                            (
                                Pump {
                                    phase: PumpPhase::Writing { pending: bytes.len() as usize },
                                    ..self
                                },
                                PumpCommandView::Write {
                                    bytes,
                                    flush: self.flow == Flow::Inbound,
                                },
                            ),
                        )
                    } else {
                        None
                    }
                },
                PumpEventView::ReadFailed => Some(self.closes(Err(CopyError::Source))),
                _ => None,
            },
            PumpPhase::Writing { pending } => match event {
                PumpEventView::Written => Some(self.having_moved(pending as nat).reads()),
                PumpEventView::WriteFailed => Some(self.closes(Err(CopyError::Sink))),
                _ => None,
            },
            PumpPhase::Closing { result } => match event {
                PumpEventView::Closed => Some(
                    (Pump { phase: PumpPhase::Done, ..self }, PumpCommandView::Done { result }),
                ),
                _ => None,
            },
            PumpPhase::Done => None,
        }
    }

    /// A pump for one direction, idle until it is told to start.
    pub fn new(flow: Flow) -> (pump: Pump)
        ensures
            pump == Pump::fresh(flow),
    {
        Pump { flow, phase: PumpPhase::Idle, moved: 0 }
    }

    /// Ends the copying with `result`.
    fn close(&mut self, result: CopyResult) -> (command: PumpCommand)
        ensures
            (*final(self), command@) == old(self).closes(result),
    {
        self.phase = PumpPhase::Closing { result };
        match self.flow {
            Flow::Outbound => PumpCommand::Shutdown,
            Flow::Inbound => PumpCommand::Flush,
        }
    }

    /// Takes one event from the driver and answers with the next command. An
    /// event that cannot come in the pump's phase is answered with none and
    /// changes nothing.
    pub fn step(&mut self, event: PumpEvent) -> (command: Option<PumpCommand>)
        ensures
            match old(self).next(event@) {
                Some((next, expected)) => {
                    &&& *final(self) == next
                    &&& command matches Some(given)
                    &&& given@ == expected
                },
                None => {
                    &&& *final(self) == *old(self)
                    &&& command is None
                },
            },
    {
        match self.phase {
            PumpPhase::Idle => match event {
                PumpEvent::Start => {
                    self.phase = PumpPhase::Reading;
                    Some(PumpCommand::Read { max: CHUNK })
                },
                _ => None,
            },
            PumpPhase::Reading => match event {
                PumpEvent::Input { bytes } => {
                    let pending: usize = bytes.len();
                    if pending == 0 {
                        Some(self.close(Ok(self.moved)))
                    } else if pending <= CHUNK {
                        self.phase = PumpPhase::Writing { pending };
                        let flush: bool = match self.flow {
                            Flow::Outbound => false,
                            Flow::Inbound => true,
                        };
                        Some(PumpCommand::Write { bytes, flush })
                    } else {
                        None
                    }
                },
                PumpEvent::ReadFailed => Some(self.close(Err(CopyError::Source))),
                _ => None,
            },
            PumpPhase::Writing { pending } => match event {
                PumpEvent::Written => {
                    self.moved = self.moved.saturating_add(pending as u64);
                    self.phase = PumpPhase::Reading;
                    Some(PumpCommand::Read { max: CHUNK })
                },
                PumpEvent::WriteFailed => Some(self.close(Err(CopyError::Sink))),
                _ => None,
            },
            PumpPhase::Closing { result } => match event {
                PumpEvent::Closed => {
                    self.phase = PumpPhase::Done;
                    Some(PumpCommand::Done { result })
                },
                _ => None,
            },
            PumpPhase::Done => None,
        }
    }
}

impl Pump {
    /// The commands the pump gives when it is handed `events` one after
    /// another. An event that cannot come in the pump's phase gets no answer.
    pub open spec fn answers(self, events: Seq<PumpEventView>) -> Seq<PumpCommandView>
        decreases events.len(),
    {
        if events.len() == 0 {
            Seq::empty()
        } else {
            match self.next(events.first()) {
                Some((next, command)) => seq![command] + next.answers(events.drop_first()),
                None => self.answers(events.drop_first()),
            }
        }
    }
}

/// The bytes that `commands` hand to the sink, in order.
pub open spec fn written(commands: Seq<PumpCommandView>) -> Seq<u8>
    decreases commands.len(),
{
    if commands.len() == 0 {
        Seq::empty()
    } else {
        let head = match commands.first() {
            PumpCommandView::Write { bytes, flush } => bytes,
            _ => Seq::empty(),
        };
        head + written(commands.drop_first())
    }
}

/// Whether each of `chunks` can be what one read returns from a source that
/// is not exhausted: at least one byte, at most `CHUNK`.
pub open spec fn readable(chunks: Seq<Seq<u8>>) -> bool {
    forall|i: int| 0 <= i < chunks.len() ==> 0 < #[trigger] chunks[i].len() <= CHUNK
}

/// What the driver reports while `chunks` are copied without a failure: each
/// chunk is read, then written.
pub open spec fn copied(chunks: Seq<Seq<u8>>) -> Seq<PumpEventView>
    decreases chunks.len(),
{
    if chunks.len() == 0 {
        Seq::empty()
    } else {
        seq![PumpEventView::Input { bytes: chunks.first() }, PumpEventView::Written] + copied(
            chunks.drop_first(),
        )
    }
}

/// What the driver reports over the whole life of a pump whose source yields
/// `chunks` and is then exhausted, when nothing fails.
pub open spec fn undisturbed(chunks: Seq<Seq<u8>>) -> Seq<PumpEventView> {
    seq![PumpEventView::Start] + copied(chunks) + seq![
        PumpEventView::Input { bytes: Seq::empty() },
        PumpEventView::Closed,
    ]
}

/// For each of `chunks` one write of just that chunk, flushed in the inbound
/// direction, and the read that follows it.
pub open spec fn relayed(flow: Flow, chunks: Seq<Seq<u8>>) -> Seq<PumpCommandView>
    decreases chunks.len(),
{
    if chunks.len() == 0 {
        Seq::empty()
    } else {
        seq![
            PumpCommandView::Write { bytes: chunks.first(), flush: flow == Flow::Inbound },
            PumpCommandView::Read { max: CHUNK },
        ] + relayed(flow, chunks.drop_first())
    }
}

/// The bytes written by two runs of commands are those of the first, then
/// those of the second.
pub proof fn lemma_written_concat(a: Seq<PumpCommandView>, b: Seq<PumpCommandView>)
    ensures
        written(a + b) == written(a) + written(b),
    decreases a.len(),
{
    if a.len() == 0 {
        assert(a + b =~= b);
    } else {
        assert((a + b).drop_first() =~= a.drop_first() + b);
        lemma_written_concat(a.drop_first(), b);
    }
}

/// The writes that relay `chunks` hand over the chunks' bytes, in order.
pub proof fn lemma_written_relayed(flow: Flow, chunks: Seq<Seq<u8>>)
    ensures
        written(relayed(flow, chunks)) == chunks.flatten(),
    decreases chunks.len(),
{
    if chunks.len() == 0 {
    } else {
        let head = seq![
            PumpCommandView::Write { bytes: chunks.first(), flush: flow == Flow::Inbound },
            PumpCommandView::Read { max: CHUNK },
        ];
        lemma_written_concat(head, relayed(flow, chunks.drop_first()));
        lemma_written_relayed(flow, chunks.drop_first());
        assert(written(head) =~= chunks.first()) by {
            reveal_with_fuel(written, 3);
        }
    }
}

/// A reading pump that is handed the reports of an undisturbed copy of
/// `chunks`, and then `rest`, relays the chunks one write each, counts their
/// bytes, and goes on reading.
proof fn lemma_copied(pump: Pump, chunks: Seq<Seq<u8>>, rest: Seq<PumpEventView>)
    requires
        pump.phase == PumpPhase::Reading,
        readable(chunks),
    ensures
        pump.answers(copied(chunks) + rest) == relayed(pump.flow, chunks) + pump.having_moved(
            chunks.flatten().len(),
        ).answers(rest),
    decreases chunks.len(),
{
    if chunks.len() == 0 {
        assert(copied(chunks) + rest =~= rest);
        assert(pump.having_moved(0) == pump);
        assert(relayed(pump.flow, chunks) + pump.answers(rest) =~= pump.answers(rest));
    } else {
        let first = chunks.first();
        let others = chunks.drop_first();
        assert(first.len() > 0 && first.len() <= CHUNK) by {
            assert(first == chunks[0]);
        }
        assert(readable(others)) by {
            assert forall|i: int| 0 <= i < others.len() implies 0 < #[trigger] others[i].len()
                <= CHUNK by {
                assert(others[i] == chunks[i + 1]);
            }
        }
        let events = copied(chunks) + rest;
        let after_read = seq![PumpEventView::Written] + (copied(others) + rest);
        assert(events.first() == PumpEventView::Input { bytes: first });
        assert(events.drop_first() =~= after_read);
        let writing = Pump { phase: PumpPhase::Writing { pending: first.len() as usize }, ..pump };
        let write = PumpCommandView::Write { bytes: first, flush: pump.flow == Flow::Inbound };
        assert(pump.next(events.first()) == Some((writing, write)));
        assert(pump.answers(events) == seq![write] + writing.answers(after_read));
        assert(after_read.first() == PumpEventView::Written);
        assert(after_read.drop_first() =~= copied(others) + rest);
        let reading = pump.having_moved(first.len());
        let read = PumpCommandView::Read { max: CHUNK };
        assert(writing.next(after_read.first()) == Some((reading, read)));
        assert(writing.answers(after_read) == seq![read] + reading.answers(copied(others) + rest));
        lemma_copied(reading, others, rest);
        assert(chunks.flatten().len() == first.len() + others.flatten().len());
        let drained = pump.having_moved(chunks.flatten().len());
        assert(reading.having_moved(others.flatten().len()) == drained);
        assert(seq![write] + (seq![read] + (relayed(pump.flow, others) + drained.answers(rest)))
            =~= relayed(pump.flow, chunks) + drained.answers(rest));
    }
}

/// An undisturbed copy, command by command. A pump whose source yields
/// `chunks` and is then exhausted asks for a read, relays every chunk as one
/// write of just that chunk (flushed in the inbound direction), closes its
/// side of the sink when the source is exhausted, and reports the number of
/// bytes it moved. What it hands to the sink is what the source yielded, byte
/// for byte and in order, whatever the boundaries between the chunks.
pub proof fn lemma_undisturbed_copy(flow: Flow, chunks: Seq<Seq<u8>>)
    requires
        readable(chunks),
    ensures
        Pump::fresh(flow).answers(undisturbed(chunks)) == seq![
            PumpCommandView::Read { max: CHUNK },
        ] + relayed(flow, chunks) + seq![
            Pump::fresh(flow).closing(),
            PumpCommandView::Done { result: Ok(tally(0, chunks.flatten().len())) },
        ],
        written(Pump::fresh(flow).answers(undisturbed(chunks))) == chunks.flatten(),
{
    let idle = Pump::fresh(flow);
    let reading = Pump { phase: PumpPhase::Reading, ..idle };
    let read = PumpCommandView::Read { max: CHUNK };
    let ending = seq![PumpEventView::Input { bytes: Seq::empty() }, PumpEventView::Closed];
    let events = undisturbed(chunks);
    assert(events.first() == PumpEventView::Start);
    assert(events.drop_first() =~= copied(chunks) + ending);
    assert(idle.next(events.first()) == Some((reading, read)));
    assert(idle.answers(events) == seq![read] + reading.answers(copied(chunks) + ending));
    lemma_copied(reading, chunks, ending);
    let drained = reading.having_moved(chunks.flatten().len());
    let result: CopyResult = Ok(drained.moved);
    let closing = Pump { phase: PumpPhase::Closing { result }, ..drained };
    let done = Pump { phase: PumpPhase::Done, ..drained };
    assert(ending.first() == PumpEventView::Input { bytes: Seq::empty() });
    assert(ending.drop_first() =~= seq![PumpEventView::Closed]);
    assert(drained.next(ending.first()) == Some((closing, idle.closing())));
    assert(drained.answers(ending) == seq![idle.closing()] + closing.answers(
        ending.drop_first(),
    ));
    assert(ending.drop_first().first() == PumpEventView::Closed);
    assert(ending.drop_first().drop_first() =~= Seq::<PumpEventView>::empty());
    assert(closing.next(PumpEventView::Closed) == Some(
        (done, PumpCommandView::Done { result }),
    ));
    assert(closing.answers(ending.drop_first()) == seq![PumpCommandView::Done { result }]
        + done.answers(Seq::empty()));
    let tail = seq![idle.closing(), PumpCommandView::Done { result }];
    assert(drained.answers(ending) =~= tail);
    let all = seq![read] + relayed(flow, chunks) + tail;
    assert(idle.answers(events) =~= all);
    lemma_written_concat(seq![read] + relayed(flow, chunks), tail);
    lemma_written_concat(seq![read], relayed(flow, chunks));
    lemma_written_relayed(flow, chunks);
    assert(written(seq![read]) =~= Seq::<u8>::empty()) by {
        reveal_with_fuel(written, 2);
    }
    assert(written(tail) =~= Seq::<u8>::empty()) by {
        reveal_with_fuel(written, 3);
    }
    assert(written(all) =~= chunks.flatten());
}

/// Echo round trip. Let the source of the outbound pump yield `sent`, and let
/// the peer send back the very bytes that pump wrote, cut into the chunks
/// `echoed` in any way. Then the inbound pump writes to local output the bytes
/// of `sent`, in order.
pub proof fn lemma_echo_round_trip(sent: Seq<Seq<u8>>, echoed: Seq<Seq<u8>>)
    requires
        readable(sent),
        readable(echoed),
        echoed.flatten() == written(Pump::fresh(Flow::Outbound).answers(undisturbed(sent))),
    ensures
        written(Pump::fresh(Flow::Inbound).answers(undisturbed(echoed))) == sent.flatten(),
{
    lemma_undisturbed_copy(Flow::Outbound, sent);
    lemma_undisturbed_copy(Flow::Inbound, echoed);
}

} // verus!
