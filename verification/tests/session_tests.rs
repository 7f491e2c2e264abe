use r_cat::net::session::{
    exit_code, finished_line, timed_out_line, AcquireError, AcquireKind, CopyError, Flow, Label,
    Outcome, Ruling, Signal, Supervisor, Timeout, Verdict,
};

fn limit(secs: u64, nanos: u32) -> Timeout {
    Timeout::new(secs, nanos).expect("less than a second of nanoseconds")
}

#[test]
fn timeout_takes_less_than_a_second_of_nanoseconds() {
    let t = limit(3, 999_999_999);
    assert_eq!(t.secs(), 3);
    assert_eq!(t.subsec_nanos(), 999_999_999);
    assert_eq!(Timeout::new(3, 1_000_000_000), None);
    assert_eq!(Timeout::new(0, u32::MAX), None);
    assert_eq!(Timeout::from_secs(5), limit(5, 0));
}

#[test]
fn timeout_is_shown_as_a_duration() {
    assert_eq!(limit(1, 500_000_000).shown(), "1.5s");
    assert_eq!(limit(2, 0).shown(), "2s");
    assert_eq!(limit(0, 100_000_000).shown(), "100ms");
    assert_eq!(limit(0, 0).shown(), "0ns");
    assert_eq!(limit(0, 1).shown(), "1ns");
    assert_eq!(
        limit(u64::MAX, 999_999_999).shown(),
        format!("{:?}", std::time::Duration::new(u64::MAX, 999_999_999))
    );
}

#[test]
fn lines_name_their_subject() {
    assert_eq!(finished_line("Session"), "Session finished");
    assert_eq!(timed_out_line("connect", "1.5s"), "connect timed out after 1.5s");
    assert_eq!(Label::Session.text(), "Session");
    assert_eq!(Label::Connection.text(), "Connection");
    assert_eq!(Label::UdpSession.text(), "udp: session");
    assert_eq!(Label::UdpListen.text(), "udp: listen");
}

#[test]
fn acquire_errors_carry_kind_and_message() {
    let refused = AcquireError::failed("connection refused".to_string());
    assert_eq!(refused.kind, AcquireKind::Failed);
    assert_eq!(refused.message, "connection refused");
    let late = AcquireError::timed_out("accept", &limit(0, 250_000_000));
    assert_eq!(late.kind, AcquireKind::TimedOut);
    assert_eq!(late.message, "accept timed out after 250ms");
}

#[test]
fn only_a_missing_endpoint_fails_the_process() {
    let completed: Verdict = Ok(Outcome::Completed);
    let timed_out: Verdict = Ok(Outcome::TimedOut);
    let refused: Verdict = Err(AcquireError::failed("refused".to_string()));
    let late: Verdict = Err(AcquireError::timed_out("connect", &limit(1, 0)));
    assert_eq!(exit_code(&completed), 0);
    assert_eq!(exit_code(&timed_out), 0);
    assert_eq!(exit_code(&refused), 1);
    assert_eq!(exit_code(&late), 1);
}

#[test]
fn supervisor_waits_for_both_directions() {
    let mut s = Supervisor::new(None, true, Label::Session);
    assert_eq!(
        s.observe(Signal::Finished { flow: Flow::Outbound, result: Ok(9) }),
        Some(Ruling::KeepWaiting)
    );
    assert!(!s.over);
    assert_eq!(
        s.observe(Signal::Finished { flow: Flow::Inbound, result: Ok(0) }),
        Some(Ruling::Over { outcome: Outcome::Completed, notice: None })
    );
    assert!(s.over);
}

#[test]
fn supervisor_takes_the_directions_in_either_order() {
    let mut s = Supervisor::new(Some(limit(5, 0)), true, Label::Connection);
    assert_eq!(
        s.observe(Signal::Finished { flow: Flow::Inbound, result: Ok(1) }),
        Some(Ruling::KeepWaiting)
    );
    assert_eq!(
        s.observe(Signal::Finished { flow: Flow::Outbound, result: Ok(2) }),
        Some(Ruling::Over {
            outcome: Outcome::Completed,
            notice: Some("Connection finished".to_string()),
        })
    );
}

#[test]
fn supervisor_does_not_fail_on_a_failed_direction() {
    let mut s = Supervisor::new(Some(limit(5, 0)), false, Label::UdpSession);
    assert_eq!(
        s.observe(Signal::Finished { flow: Flow::Outbound, result: Err(CopyError::Sink) }),
        Some(Ruling::KeepWaiting)
    );
    assert_eq!(
        s.observe(Signal::Finished { flow: Flow::Inbound, result: Err(CopyError::Source) }),
        Some(Ruling::Over { outcome: Outcome::Completed, notice: None })
    );
}

#[test]
fn supervisor_refuses_a_direction_that_ends_twice() {
    let mut s = Supervisor::new(None, false, Label::Session);
    let first = Signal::Finished { flow: Flow::Outbound, result: Ok(1) };
    assert_eq!(s.observe(first), Some(Ruling::KeepWaiting));
    let before = s;
    assert_eq!(s.observe(first), None);
    assert_eq!(s, before);
}

#[test]
fn supervisor_ends_on_the_limit() {
    let mut s = Supervisor::new(Some(limit(1, 500_000_000)), true, Label::UdpListen);
    assert_eq!(
        s.observe(Signal::Finished { flow: Flow::Outbound, result: Ok(3) }),
        Some(Ruling::KeepWaiting)
    );
    assert_eq!(
        s.observe(Signal::Elapsed),
        Some(Ruling::Over {
            outcome: Outcome::TimedOut,
            notice: Some("udp: listen timed out after 1.5s".to_string()),
        })
    );
    assert_eq!(s.observe(Signal::Finished { flow: Flow::Inbound, result: Ok(0) }), None);
    assert_eq!(s.observe(Signal::Elapsed), None);
}

#[test]
fn supervisor_without_a_limit_has_none_to_pass() {
    let mut s = Supervisor::new(None, true, Label::Session);
    let before = s;
    assert_eq!(s.observe(Signal::Elapsed), None);
    assert_eq!(s, before);
}

#[test]
fn quiet_supervisor_says_nothing() {
    let mut s = Supervisor::new(Some(limit(1, 0)), false, Label::Session);
    assert_eq!(
        s.observe(Signal::Elapsed),
        Some(Ruling::Over { outcome: Outcome::TimedOut, notice: None })
    );
}
