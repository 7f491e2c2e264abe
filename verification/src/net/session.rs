//! What both transports share: time limits, the outcome of a session, and the
//! supervisor that waits for the two directions of a relay.

use vstd::prelude::*;
use vstd::string::*;

verus! {

/// Nanoseconds in one second.
pub const NANOS_PER_SEC: u32 = 1_000_000_000;

/// A time limit: whole seconds plus a part of a second in nanoseconds.
#[derive(Clone, Copy, Debug, PartialEq, Eq)]
pub struct Timeout {
    secs: u64,
    nanos: u32,
}

/// The text `std::time::Duration` has under `{:?}` for the duration of `secs`
/// seconds and `nanos` nanoseconds, where `nanos` is less than a second.
pub uninterp spec fn duration_debug(secs: u64, nanos: u32) -> Seq<char>;

/// Calls the `Debug` formatting of `std::time::Duration`, through `format!`
/// with `{:?}`, on the duration that `Duration::new` makes of `secs` and
/// `nanos`; that constructor cannot overflow while `nanos` is less than a
/// second. Nothing is proved here. The contract claims of the text only that
/// it is the one which `duration_debug` names for these two numbers: the same
/// numbers always give the same text.
#[verifier::external_body]
fn debug_text(secs: u64, nanos: u32) -> (t: String)
    requires
        nanos < NANOS_PER_SEC,
    ensures
        t@ == duration_debug(secs, nanos),
{
    format!("{:?}", std::time::Duration::new(secs, nanos))
}

impl Timeout {
    #[verifier::type_invariant]
    spec fn well_formed(self) -> bool {
        self.nanos < NANOS_PER_SEC
    }

    /// Whole seconds of the limit.
    pub closed spec fn seconds(self) -> u64 {
        self.secs
    }

    /// The part of the limit below one second, in nanoseconds.
    pub closed spec fn nanoseconds(self) -> u32 {
        self.nanos
    }

    /// The text a notice shows for this limit.
    pub open spec fn shown_text(self) -> Seq<char> {
        duration_debug(self.seconds(), self.nanoseconds())
    }

    /// A limit of `secs` seconds and `nanos` nanoseconds; none when `nanos`
    /// is a second or more.
    pub fn new(secs: u64, nanos: u32) -> (made: Option<Timeout>)
        ensures
            made is Some <==> nanos < NANOS_PER_SEC,
            made matches Some(t) ==> t.seconds() == secs && t.nanoseconds() == nanos,
    {
        if nanos < NANOS_PER_SEC {
            Some(Timeout { secs, nanos })
        } else {
            None
        }
    }

    /// A limit of whole seconds.
    pub fn from_secs(secs: u64) -> (t: Timeout)
        ensures
            t.seconds() == secs,
            t.nanoseconds() == 0,
    {
        Timeout { secs, nanos: 0 }
    }

    /// The whole seconds of the limit.
    pub fn secs(&self) -> (s: u64)
        ensures
            s == self.seconds(),
    {
        self.secs
    }

    /// The part of the limit below one second, in nanoseconds.
    pub fn subsec_nanos(&self) -> (n: u32)
        ensures
            n == self.nanoseconds(),
            n < NANOS_PER_SEC,
    {
        proof {
            use_type_invariant(self);
        }
        self.nanos
    }

    /// The limit as notices and errors show it.
    pub fn shown(&self) -> (t: String)
        ensures
            t@ == self.shown_text(),
    {
        proof {
            use_type_invariant(self);
        }
        debug_text(self.secs, self.nanos)
    }
}

/// The side that a session takes.
#[derive(Clone, Copy, Debug, PartialEq, Eq, Structural)]
pub enum Role {
    /// Reaches out to a remote address.
    Client,
    /// Binds a local port and waits for a peer.
    Listener,
}

/// How a session that acquired its endpoint ended. Neither is a failure.
#[derive(Clone, Copy, Debug, PartialEq, Eq, Structural)]
pub enum Outcome {
    /// Both directions finished by themselves.
    Completed,
    /// The session's time limit passed first.
    TimedOut,
}

/// The two directions of a relay.
#[derive(Clone, Copy, Debug, PartialEq, Eq, Structural)]
pub enum Flow {
    /// From local input to the remote endpoint.
    Outbound,
    /// From the remote endpoint to local output.
    Inbound,
}

/// Why one direction of a relay stopped early.
#[derive(Clone, Copy, Debug, PartialEq, Eq, Structural)]
pub enum CopyError {
    /// Reading from the direction's source failed.
    Source,
    /// Writing to the direction's sink failed.
    Sink,
}

/// A count of `moved` bytes with `more` on top. A count that would pass the
/// largest `u64` stays there.
pub open spec fn tally(moved: u64, more: nat) -> u64 {
    if moved + more > u64::MAX {
        u64::MAX
    } else {
        (moved + more) as u64
    }
}

/// What one direction of a relay reports when it ends: the bytes it moved, or
/// the side that failed.
pub type CopyResult = Result<u64, CopyError>;

/// The name under which a session's end is announced.
#[derive(Clone, Copy, Debug, PartialEq, Eq, Structural)]
pub enum Label {
    Session,
    Connection,
    UdpSession,
    UdpListen,
}

impl Label {
    /// The label in words.
    pub open spec fn label_text(self) -> Seq<char> {
        match self {
            Label::Session => "Session"@,
            Label::Connection => "Connection"@,
            Label::UdpSession => "udp: session"@,
            Label::UdpListen => "udp: listen"@,
        }
    }

    /// The label in words.
    pub fn text(&self) -> (t: &'static str)
        ensures
            t@ == self.label_text(),
    {
        match self {
            Label::Session => "Session",
            Label::Connection => "Connection",
            Label::UdpSession => "udp: session",
            Label::UdpListen => "udp: listen",
        }
    }
}

/// The line that says `subject` finished.
pub open spec fn finished_text(subject: Seq<char>) -> Seq<char> {
    subject + " finished"@
}

/// The line that says `subject` ran into a limit shown as `limit`.
pub open spec fn timed_out_text(subject: Seq<char>, limit: Seq<char>) -> Seq<char> {
    subject + " timed out after "@ + limit
}

/// Writes the line that says `subject` finished.
pub fn finished_line(subject: &str) -> (line: String)
    ensures
        line@ == finished_text(subject@),
{
    String::from_str(subject).concat(" finished")
}

/// Writes the line that says `subject` ran into a limit shown as `limit`.
pub fn timed_out_line(subject: &str, limit: &str) -> (line: String)
    ensures
        line@ == timed_out_text(subject@, limit@),
{
    String::from_str(subject).concat(" timed out after ").concat(limit)
}

/// What the supervisor of a relay is told.
#[derive(Clone, Copy, Debug, PartialEq, Eq)]
pub enum Signal {
    /// One direction ended, with this result.
    Finished { flow: Flow, result: CopyResult },
    /// The session's time limit passed.
    Elapsed,
}

/// What the supervisor decides on a signal.
#[derive(Debug, PartialEq, Eq)]
pub enum Ruling {
    /// A direction is still running: go on waiting, under the same limit.
    KeepWaiting,
    /// The session is over. `notice` is the line to show, if any.
    Over { outcome: Outcome, notice: Option<String> },
}

/// A ruling with its notice as a sequence of characters.
pub enum RulingView {
    KeepWaiting,
    Over { outcome: Outcome, notice: Option<Seq<char>> },
}

/// An optional text as the sequence of its characters.
pub open spec fn text_view(text: Option<String>) -> Option<Seq<char>> {
    match text {
        Some(t) => Some(t@),
        None => None,
    }
}

impl View for Ruling {
    type V = RulingView;

    open spec fn view(&self) -> RulingView {
        match *self {
            Ruling::KeepWaiting => RulingView::KeepWaiting,
            Ruling::Over { outcome, notice } => RulingView::Over {
                outcome,
                notice: text_view(notice),
            },
        }
    }
}

/// Waits for both directions of a relay under the session's optional limit.
///
/// A direction that ends, however it ends, never ends the session: the
/// supervisor waits for the other one. Only the limit cuts the wait short.
#[derive(Clone, Copy, Debug, PartialEq, Eq)]
pub struct Supervisor {
    pub limit: Option<Timeout>,
    pub verbose: bool,
    pub label: Label,
    pub outbound_done: bool,
    pub inbound_done: bool,
    pub over: bool,
}

impl Supervisor {
    /// Whether `flow` has reported its end.
    pub open spec fn done(self, flow: Flow) -> bool {
        match flow {
            Flow::Outbound => self.outbound_done,
            Flow::Inbound => self.inbound_done,
        }
    }

    /// The supervisor after `flow` reported its end.
    pub open spec fn with_done(self, flow: Flow) -> Supervisor {
        match flow {
            Flow::Outbound => Supervisor { outbound_done: true, ..self },
            Flow::Inbound => Supervisor { inbound_done: true, ..self },
        }
    }

    /// The supervisor of a relay that has just begun.
    pub open spec fn fresh(limit: Option<Timeout>, verbose: bool, label: Label) -> Supervisor {
        Supervisor {
            limit,
            verbose,
            label,
            outbound_done: false,
            inbound_done: false,
            over: false,
        }
    }

    /// The line shown when both directions have finished. The end is announced
    /// only where a limit was set.
    pub open spec fn completed_notice(self) -> Option<Seq<char>> {
        if self.verbose && self.limit is Some {
            Some(finished_text(self.label.label_text()))
        } else {
            None
        }
    }

    /// The line shown when the limit `limit` has passed.
    pub open spec fn timed_out_notice(self, limit: Timeout) -> Option<Seq<char>> {
        if self.verbose {
            Some(timed_out_text(self.label.label_text(), limit.shown_text()))
        } else {
            None
        }
    }

    /// The supervisor's rule: its next state and ruling on `signal`, or none
    /// where the signal cannot come in this state (the session is over, the
    /// direction has reported before, or no limit was set that could pass).
    pub open spec fn next(self, signal: Signal) -> Option<(Supervisor, RulingView)> {
        if self.over {
            None
        } else {
            match signal {
                Signal::Finished { flow, result } => {
                    if self.done(flow) {
                        None
                    } else if self.with_done(flow).outbound_done && self.with_done(
                        flow,
                    ).inbound_done {
                        Some(
                            (
                                Supervisor { over: true, ..self.with_done(flow) },
                                RulingView::Over {
                                    outcome: Outcome::Completed,
                                    notice: self.completed_notice(),
                                },
                            ),
                        )
                    } else {
                        Some((self.with_done(flow), RulingView::KeepWaiting))
                    }
                },
                Signal::Elapsed => match self.limit {
                    Some(limit) => Some(
                        (
                            Supervisor { over: true, ..self },
                            RulingView::Over {
                                outcome: Outcome::TimedOut,
                                notice: self.timed_out_notice(limit),
                            },
                        ),
                    ),
                    None => None,
                },
            }
        }
    }

    /// Begins to supervise a relay.
    pub fn new(limit: Option<Timeout>, verbose: bool, label: Label) -> (s: Supervisor)
        ensures
            s == Supervisor::fresh(limit, verbose, label),
    {
        Supervisor {
            limit,
            verbose,
            label,
            outbound_done: false,
            inbound_done: false,
            over: false,
        }
    }

    /// Takes one signal and rules on it.
    pub fn observe(&mut self, signal: Signal) -> (ruling: Option<Ruling>)
        ensures
            match old(self).next(signal) {
                Some((next, expected)) => {
                    &&& *final(self) == next
                    &&& ruling matches Some(given)
                    &&& given@ == expected
                },
                None => *final(self) == *old(self) && ruling is None,
            },
    {
        if self.over {
            return None;
        }
        match signal {
            Signal::Finished { flow, result: _ } => {
                match flow {
                    Flow::Outbound => {
                        if self.outbound_done {
                            return None;
                        }
                        self.outbound_done = true;
                    },
                    Flow::Inbound => {
                        if self.inbound_done {
                            return None;
                        }
                        self.inbound_done = true;
                    },
                }
                if self.outbound_done && self.inbound_done {
                    self.over = true;
                    let notice: Option<String> = if self.verbose && self.limit.is_some() {
                        Some(finished_line(self.label.text()))
                    } else {
                        None
                    };
                    Some(Ruling::Over { outcome: Outcome::Completed, notice })
                } else {
                    Some(Ruling::KeepWaiting)
                }
            },
            Signal::Elapsed => match self.limit {
                Some(limit) => {
                    self.over = true;
                    let notice: Option<String> = if self.verbose {
                        let shown: String = limit.shown();
                        Some(timed_out_line(self.label.text(), shown.as_str()))
                    } else {
                        None
                    };
                    Some(Ruling::Over { outcome: Outcome::TimedOut, notice })
                },
                None => None,
            },
        }
    }
}

impl Flow {
    /// The opposite direction.
    pub open spec fn other(self) -> Flow {
        match self {
            Flow::Outbound => Flow::Inbound,
            Flow::Inbound => Flow::Outbound,
        }
    }
}

/// How a direction ended has no part in the supervisor's ruling: a direction
/// that failed counts as one that finished.
pub proof fn lemma_result_has_no_say(s: Supervisor, flow: Flow, one: CopyResult, other: CopyResult)
    ensures
        s.next(Signal::Finished { flow, result: one }) == s.next(
            Signal::Finished { flow, result: other },
        ),
{
}

/// The end of one direction does not end the session: the supervisor goes on
/// waiting for the other direction, which is left running. The session
/// completes when the other direction has ended too, in whichever order the
/// two end and however each of them ended.
pub proof fn lemma_waits_for_both(
    s: Supervisor,
    first: Flow,
    result: CopyResult,
    second: CopyResult,
)
    requires
        s == Supervisor::fresh(s.limit, s.verbose, s.label),
    ensures
        s.next(Signal::Finished { flow: first, result }) == Some(
            (s.with_done(first), RulingView::KeepWaiting),
        ),
        s.with_done(first).next(Signal::Finished { flow: first.other(), result: second })
            matches Some((end, ruling)) && end.over && ruling == (RulingView::Over {
            outcome: Outcome::Completed,
            notice: s.completed_notice(),
        }),
{
}

/// The limit cuts the wait short. While the session is not over, the passing
/// of its limit ends it at once, whichever directions are still running, and
/// the outcome is that it timed out.
pub proof fn lemma_limit_cuts_wait(s: Supervisor, limit: Timeout)
    requires
        !s.over,
        s.limit == Some(limit),
    ensures
        s.next(Signal::Elapsed) matches Some((end, ruling)) && end.over && ruling == (
        RulingView::Over { outcome: Outcome::TimedOut, notice: s.timed_out_notice(limit) }),
{
}

/// A session that is over takes no more signals, so it is ruled over once.
pub proof fn lemma_over_is_final(s: Supervisor, signal: Signal)
    requires
        s.over,
    ensures
        s.next(signal) is None,
{
}

/// The two ways in which a session can fail to get its endpoint.
#[derive(Clone, Copy, Debug, PartialEq, Eq, Structural)]
pub enum AcquireKind {
    /// The system refused: connecting, binding or accepting failed.
    Failed,
    /// The time limit passed before the endpoint was there.
    TimedOut,
}

/// A session that did not get its endpoint. It is the one failure a session
/// can end with.
#[derive(Debug, PartialEq, Eq)]
pub struct AcquireError {
    pub kind: AcquireKind,
    pub message: String,
}

/// An error with its message as a sequence of characters.
pub struct AcquireErrorView {
    pub kind: AcquireKind,
    pub message: Seq<char>,
}

impl View for AcquireError {
    type V = AcquireErrorView;

    open spec fn view(&self) -> AcquireErrorView {
        AcquireErrorView { kind: self.kind, message: self.message@ }
    }
}

impl AcquireError {
    /// The error of an operation that the system refused, in the words
    /// `message`.
    pub fn failed(message: String) -> (e: AcquireError)
        ensures
            e@ == (AcquireErrorView { kind: AcquireKind::Failed, message: message@ }),
    {
        AcquireError { kind: AcquireKind::Failed, message }
    }

    /// The error of the operation `what` that did not end within `limit`.
    pub fn timed_out(what: &str, limit: &Timeout) -> (e: AcquireError)
        ensures
            e@ == (AcquireErrorView {
                kind: AcquireKind::TimedOut,
                message: timed_out_text(what@, limit.shown_text()),
            }),
    {
        let shown: String = limit.shown();
        AcquireError { kind: AcquireKind::TimedOut, message: timed_out_line(what, shown.as_str()) }
    }
}

/// How a session ended: with an outcome, or without an endpoint.
pub type Verdict = Result<Outcome, AcquireError>;

/// A verdict with its message as a sequence of characters.
pub open spec fn verdict_view(verdict: Verdict) -> Result<Outcome, AcquireErrorView> {
    match verdict {
        Ok(outcome) => Ok(outcome),
        Err(e) => Err(e@),
    }
}

/// The status a process ends with after a session: zero unless the session
/// did not get its endpoint. A session that ran into its time limit has not
/// failed.
pub fn exit_code(verdict: &Verdict) -> (code: u8)
    ensures
        code == (if verdict is Ok { 0u8 } else { 1u8 }),
{
    match verdict {
        Ok(_) => 0,
        Err(_) => 1,
    }
}

} // verus!
