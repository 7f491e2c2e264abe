use r_cat::net::session::{
    AcquireError, AcquireKind, CopyError, Flow, Outcome, Timeout,
};
use r_cat::tcp::{
    client, listen, Command, Event, Phase, Pump, PumpCommand, PumpEvent, PumpPhase, Step, CHUNK,
};

fn limit(secs: u64, nanos: u32) -> Timeout {
    Timeout::new(secs, nanos).expect("less than a second of nanoseconds")
}

fn step(notice: Option<&str>, command: Command) -> Option<Step> {
    Some(Step { notice: notice.map(|line| line.to_string()), command })
}

fn failed(message: &str) -> Command {
    Command::Exit {
        verdict: Err(AcquireError { kind: AcquireKind::Failed, message: message.to_string() }),
    }
}

fn timed_out(message: &str) -> Command {
    Command::Exit {
        verdict: Err(AcquireError { kind: AcquireKind::TimedOut, message: message.to_string() }),
    }
}

/// Feeds `chunks` to a pump as an undisturbed source would and returns what
/// the pump hands to its sink, write by write, with the result it reports.
fn pump_through(flow: Flow, chunks: &[&[u8]]) -> (Vec<Vec<u8>>, Result<u64, CopyError>) {
    let mut pump = Pump::new(flow);
    let mut writes: Vec<Vec<u8>> = Vec::new();
    let mut source = chunks.iter();
    let mut command = pump.step(PumpEvent::Start).expect("a fresh pump starts");
    loop {
        command = match command {
            PumpCommand::Read { max } => {
                assert_eq!(max, CHUNK);
                let bytes = source.next().map(|chunk| chunk.to_vec()).unwrap_or_default();
                pump.step(PumpEvent::Input { bytes }).expect("a read was asked for")
            }
            PumpCommand::Write { bytes, flush } => {
                assert_eq!(flush, flow == Flow::Inbound);
                writes.push(bytes);
                pump.step(PumpEvent::Written).expect("a write was asked for")
            }
            PumpCommand::Shutdown => {
                assert_eq!(flow, Flow::Outbound);
                pump.step(PumpEvent::Closed).expect("closing was asked for")
            }
            PumpCommand::Flush => {
                assert_eq!(flow, Flow::Inbound);
                pump.step(PumpEvent::Closed).expect("closing was asked for")
            }
            PumpCommand::Done { result } => return (writes, result),
        };
    }
}

#[test]
fn verbose_client_connects_relays_and_completes() {
    let mut s = client("example.com", 80, None, true);
    assert_eq!(s.phase(), Phase::Idle);
    assert_eq!(
        s.step(Event::Start),
        step(
            Some("Connecting to example.com:80"),
            Command::Connect { addr: "example.com:80".to_string(), limit: None },
        )
    );
    assert_eq!(s.phase(), Phase::Connecting);
    assert_eq!(
        s.step(Event::Connected),
        step(Some("Connected, starting IO copy"), Command::Relay { limit: None })
    );
    assert_eq!(s.phase(), Phase::Relaying);
    assert_eq!(
        s.step(Event::Finished { flow: Flow::Outbound, result: Ok(9) }),
        step(None, Command::Wait)
    );
    assert_eq!(s.phase(), Phase::Relaying);
    assert_eq!(
        s.step(Event::Finished { flow: Flow::Inbound, result: Ok(9) }),
        step(None, Command::Exit { verdict: Ok(Outcome::Completed) })
    );
    assert_eq!(s.phase(), Phase::Closed);
    assert_eq!(s.step(Event::Start), None);
    assert_eq!(s.step(Event::Elapsed), None);
}

#[test]
fn quiet_client_gives_no_notice() {
    let mut s = client("10.0.0.1", 7, None, false);
    assert_eq!(
        s.step(Event::Start),
        step(None, Command::Connect { addr: "10.0.0.1:7".to_string(), limit: None })
    );
    assert_eq!(s.step(Event::Connected), step(None, Command::Relay { limit: None }));
}

#[test]
fn client_hands_its_limit_to_connect_and_to_relay() {
    let t = limit(1, 500_000_000);
    let mut s = client("example.com", 443, Some(t), true);
    assert_eq!(
        s.step(Event::Start),
        step(
            Some("Connecting to example.com:443"),
            Command::Connect { addr: "example.com:443".to_string(), limit: Some(t) },
        )
    );
    assert_eq!(
        s.step(Event::Connected),
        step(Some("Connected, starting IO copy"), Command::Relay { limit: Some(t) })
    );
}

#[test]
fn client_connect_timeout_is_an_acquire_timeout() {
    let mut s = client("10.255.255.1", 80, Some(limit(1, 500_000_000)), true);
    s.step(Event::Start);
    assert_eq!(s.step(Event::Elapsed), step(None, timed_out("connect timed out after 1.5s")));
    assert_eq!(s.phase(), Phase::Closed);
}

#[test]
fn client_connect_failure_under_a_limit_names_the_connect() {
    let mut s = client("127.0.0.1", 1, Some(limit(2, 0)), false);
    s.step(Event::Start);
    assert_eq!(
        s.step(Event::Failed { reason: "Connection refused (os error 111)".to_string() }),
        step(None, failed("connect error: Connection refused (os error 111)"))
    );
    assert_eq!(s.phase(), Phase::Closed);
}

#[test]
fn client_connect_failure_without_a_limit_is_the_systems_own() {
    let mut s = client("127.0.0.1", 1, None, true);
    s.step(Event::Start);
    assert_eq!(
        s.step(Event::Failed { reason: "Connection refused (os error 111)".to_string() }),
        step(None, failed("Connection refused (os error 111)"))
    );
}

#[test]
fn client_without_a_limit_has_none_to_pass() {
    let mut s = client("127.0.0.1", 1, None, true);
    s.step(Event::Start);
    assert_eq!(s.step(Event::Elapsed), None);
    assert_eq!(s.phase(), Phase::Connecting);
    s.step(Event::Connected);
    assert_eq!(s.step(Event::Elapsed), None);
    assert_eq!(s.phase(), Phase::Relaying);
}

#[test]
fn client_session_timeout_is_no_error() {
    let mut s = client("example.com", 80, Some(limit(3, 0)), true);
    s.step(Event::Start);
    s.step(Event::Connected);
    assert_eq!(
        s.step(Event::Elapsed),
        step(Some("Session timed out after 3s"), Command::Exit { verdict: Ok(Outcome::TimedOut) })
    );
    assert_eq!(s.phase(), Phase::Closed);
}

#[test]
fn client_session_timeout_after_one_direction_ended() {
    let mut s = client("example.com", 80, Some(limit(0, 20_000_000)), false);
    s.step(Event::Start);
    s.step(Event::Connected);
    assert_eq!(
        s.step(Event::Finished { flow: Flow::Outbound, result: Ok(4) }),
        step(None, Command::Wait)
    );
    assert_eq!(
        s.step(Event::Elapsed),
        step(None, Command::Exit { verdict: Ok(Outcome::TimedOut) })
    );
}

#[test]
fn client_announces_its_end_only_under_a_limit() {
    let mut with = client("example.com", 80, Some(limit(3, 0)), true);
    with.step(Event::Start);
    with.step(Event::Connected);
    with.step(Event::Finished { flow: Flow::Inbound, result: Ok(0) });
    assert_eq!(
        with.step(Event::Finished { flow: Flow::Outbound, result: Ok(0) }),
        step(Some("Session finished"), Command::Exit { verdict: Ok(Outcome::Completed) })
    );
    let mut without = client("example.com", 80, None, true);
    without.step(Event::Start);
    without.step(Event::Connected);
    without.step(Event::Finished { flow: Flow::Inbound, result: Ok(0) });
    assert_eq!(
        without.step(Event::Finished { flow: Flow::Outbound, result: Ok(0) }),
        step(None, Command::Exit { verdict: Ok(Outcome::Completed) })
    );
}

#[test]
fn failed_directions_do_not_fail_the_session() {
    let mut s = client("example.com", 80, None, true);
    s.step(Event::Start);
    s.step(Event::Connected);
    assert_eq!(
        s.step(Event::Finished { flow: Flow::Inbound, result: Err(CopyError::Source) }),
        step(None, Command::Wait)
    );
    assert_eq!(
        s.step(Event::Finished { flow: Flow::Outbound, result: Err(CopyError::Sink) }),
        step(None, Command::Exit { verdict: Ok(Outcome::Completed) })
    );
}

#[test]
fn client_takes_no_event_out_of_turn() {
    let mut s = client("example.com", 80, Some(limit(1, 0)), true);
    assert_eq!(s.step(Event::Connected), None);
    assert_eq!(s.step(Event::Elapsed), None);
    assert_eq!(s.step(Event::Failed { reason: "no".to_string() }), None);
    assert_eq!(s.phase(), Phase::Idle);
    s.step(Event::Start);
    assert_eq!(s.step(Event::Start), None);
    assert_eq!(s.step(Event::Bound), None);
    assert_eq!(s.step(Event::Accepted { peer: "1.2.3.4:5".to_string() }), None);
    assert_eq!(s.step(Event::Finished { flow: Flow::Inbound, result: Ok(0) }), None);
    assert_eq!(s.phase(), Phase::Connecting);
    s.step(Event::Connected);
    assert_eq!(s.step(Event::Connected), None);
    assert_eq!(s.step(Event::Failed { reason: "late".to_string() }), None);
    s.step(Event::Finished { flow: Flow::Inbound, result: Ok(0) });
    assert_eq!(s.step(Event::Finished { flow: Flow::Inbound, result: Ok(0) }), None);
    assert_eq!(s.phase(), Phase::Relaying);
}

#[test]
fn verbose_listener_binds_accepts_relays_and_completes() {
    let t = limit(10, 0);
    let mut s = listen(4000, Some(t), true);
    assert_eq!(
        s.step(Event::Start),
        step(Some("Listening on 0.0.0.0:4000"), Command::Bind { addr: "0.0.0.0:4000".to_string() })
    );
    assert_eq!(s.phase(), Phase::Binding);
    assert_eq!(s.step(Event::Bound), step(None, Command::Accept { limit: Some(t) }));
    assert_eq!(s.phase(), Phase::Accepting);
    assert_eq!(
        s.step(Event::Accepted { peer: "127.0.0.1:51000".to_string() }),
        step(Some("Accepted connection from 127.0.0.1:51000"), Command::Relay { limit: Some(t) })
    );
    assert_eq!(s.phase(), Phase::Relaying);
    assert_eq!(
        s.step(Event::Finished { flow: Flow::Inbound, result: Ok(9) }),
        step(None, Command::Wait)
    );
    assert_eq!(
        s.step(Event::Finished { flow: Flow::Outbound, result: Ok(0) }),
        step(Some("Connection finished"), Command::Exit { verdict: Ok(Outcome::Completed) })
    );
    assert_eq!(s.phase(), Phase::Closed);
}

#[test]
fn listener_on_an_ephemeral_port_without_a_limit() {
    let mut s = listen(0, None, false);
    assert_eq!(
        s.step(Event::Start),
        step(None, Command::Bind { addr: "0.0.0.0:0".to_string() })
    );
    assert_eq!(s.step(Event::Bound), step(None, Command::Accept { limit: None }));
    assert_eq!(
        s.step(Event::Accepted { peer: "127.0.0.1:9".to_string() }),
        step(None, Command::Relay { limit: None })
    );
}

#[test]
fn listener_bind_failure_is_the_systems_own() {
    let mut s = listen(80, Some(limit(1, 0)), true);
    s.step(Event::Start);
    assert_eq!(
        s.step(Event::Failed { reason: "Address already in use (os error 98)".to_string() }),
        step(None, failed("Address already in use (os error 98)"))
    );
    assert_eq!(s.phase(), Phase::Closed);
    assert_eq!(s.step(Event::Bound), None);
}

#[test]
fn listener_has_no_limit_on_binding() {
    let mut s = listen(80, Some(limit(1, 0)), true);
    s.step(Event::Start);
    assert_eq!(s.step(Event::Elapsed), None);
    assert_eq!(s.phase(), Phase::Binding);
}

#[test]
fn listener_accept_failure_and_timeout_are_told_apart() {
    let mut refused = listen(4000, Some(limit(0, 500_000_000)), true);
    refused.step(Event::Start);
    refused.step(Event::Bound);
    assert_eq!(
        refused.step(Event::Failed { reason: "Too many open files".to_string() }),
        step(None, failed("accept failed: Too many open files"))
    );
    let mut late = listen(4000, Some(limit(0, 500_000_000)), true);
    late.step(Event::Start);
    late.step(Event::Bound);
    assert_eq!(late.step(Event::Elapsed), step(None, timed_out("accept timed out after 500ms")));
    let mut plain = listen(4000, None, true);
    plain.step(Event::Start);
    plain.step(Event::Bound);
    assert_eq!(plain.step(Event::Elapsed), None);
    assert_eq!(
        plain.step(Event::Failed { reason: "Too many open files".to_string() }),
        step(None, failed("Too many open files"))
    );
}

#[test]
fn listener_session_timeout_is_no_error() {
    let mut s = listen(4000, Some(limit(2, 0)), true);
    s.step(Event::Start);
    s.step(Event::Bound);
    s.step(Event::Accepted { peer: "127.0.0.1:9".to_string() });
    assert_eq!(
        s.step(Event::Elapsed),
        step(
            Some("Connection timed out after 2s"),
            Command::Exit { verdict: Ok(Outcome::TimedOut) },
        )
    );
}

#[test]
fn pump_starts_by_reading() {
    let mut pump = Pump::new(Flow::Outbound);
    assert_eq!(pump.phase, PumpPhase::Idle);
    assert_eq!(pump.step(PumpEvent::Start), Some(PumpCommand::Read { max: 8192 }));
    assert_eq!(pump.phase, PumpPhase::Reading);
    assert_eq!(pump.step(PumpEvent::Start), None);
}

#[test]
fn outbound_pump_half_closes_when_input_is_exhausted() {
    let mut pump = Pump::new(Flow::Outbound);
    pump.step(PumpEvent::Start);
    assert_eq!(
        pump.step(PumpEvent::Input { bytes: b"hello_tcp".to_vec() }),
        Some(PumpCommand::Write { bytes: b"hello_tcp".to_vec(), flush: false })
    );
    assert_eq!(pump.phase, PumpPhase::Writing { pending: 9 });
    assert_eq!(pump.step(PumpEvent::Written), Some(PumpCommand::Read { max: 8192 }));
    assert_eq!(pump.moved, 9);
    assert_eq!(pump.step(PumpEvent::Input { bytes: Vec::new() }), Some(PumpCommand::Shutdown));
    assert_eq!(pump.step(PumpEvent::Closed), Some(PumpCommand::Done { result: Ok(9) }));
    assert_eq!(pump.phase, PumpPhase::Done);
    assert_eq!(pump.step(PumpEvent::Closed), None);
    assert_eq!(pump.step(PumpEvent::Start), None);
}

#[test]
fn inbound_pump_flushes_every_write_and_at_the_end() {
    let mut pump = Pump::new(Flow::Inbound);
    pump.step(PumpEvent::Start);
    assert_eq!(
        pump.step(PumpEvent::Input { bytes: vec![1, 2, 3] }),
        Some(PumpCommand::Write { bytes: vec![1, 2, 3], flush: true })
    );
    pump.step(PumpEvent::Written);
    assert_eq!(pump.step(PumpEvent::Input { bytes: Vec::new() }), Some(PumpCommand::Flush));
    assert_eq!(pump.step(PumpEvent::Closed), Some(PumpCommand::Done { result: Ok(3) }));
}

#[test]
fn pump_closes_its_side_after_a_failure() {
    let mut read_fails = Pump::new(Flow::Outbound);
    read_fails.step(PumpEvent::Start);
    assert_eq!(read_fails.step(PumpEvent::ReadFailed), Some(PumpCommand::Shutdown));
    assert_eq!(
        read_fails.step(PumpEvent::Closed),
        Some(PumpCommand::Done { result: Err(CopyError::Source) })
    );
    let mut write_fails = Pump::new(Flow::Inbound);
    write_fails.step(PumpEvent::Start);
    write_fails.step(PumpEvent::Input { bytes: vec![7; 10] });
    assert_eq!(write_fails.step(PumpEvent::WriteFailed), Some(PumpCommand::Flush));
    assert_eq!(write_fails.moved, 0);
    assert_eq!(
        write_fails.step(PumpEvent::Closed),
        Some(PumpCommand::Done { result: Err(CopyError::Sink) })
    );
}

#[test]
fn pump_takes_a_full_chunk_and_no_more() {
    let mut pump = Pump::new(Flow::Outbound);
    pump.step(PumpEvent::Start);
    let before = pump;
    assert_eq!(pump.step(PumpEvent::Input { bytes: vec![0; 8193] }), None);
    assert_eq!(pump, before);
    assert_eq!(
        pump.step(PumpEvent::Input { bytes: vec![5; 8192] }),
        Some(PumpCommand::Write { bytes: vec![5; 8192], flush: false })
    );
    assert_eq!(pump.step(PumpEvent::Input { bytes: vec![1] }), None);
    assert_eq!(pump.step(PumpEvent::ReadFailed), None);
    assert_eq!(pump.step(PumpEvent::Closed), None);
    pump.step(PumpEvent::Written);
    assert_eq!(pump.moved, 8192);
    assert_eq!(pump.step(PumpEvent::Written), None);
    assert_eq!(pump.step(PumpEvent::WriteFailed), None);
}

#[test]
fn pump_count_stays_at_the_largest_number() {
    let mut pump = Pump::new(Flow::Outbound);
    pump.step(PumpEvent::Start);
    pump.moved = u64::MAX - 2;
    pump.step(PumpEvent::Input { bytes: vec![1, 2, 3, 4, 5] });
    pump.step(PumpEvent::Written);
    assert_eq!(pump.moved, u64::MAX);
    let mut exact = Pump::new(Flow::Outbound);
    exact.step(PumpEvent::Start);
    exact.moved = u64::MAX - 5;
    exact.step(PumpEvent::Input { bytes: vec![1, 2, 3, 4, 5] });
    exact.step(PumpEvent::Written);
    assert_eq!(exact.moved, u64::MAX);
    let mut below = Pump::new(Flow::Outbound);
    below.step(PumpEvent::Start);
    below.moved = u64::MAX - 6;
    below.step(PumpEvent::Input { bytes: vec![1, 2, 3, 4, 5] });
    below.step(PumpEvent::Written);
    assert_eq!(below.moved, u64::MAX - 1);
}

#[test]
fn undisturbed_copy_keeps_bytes_and_boundaries() {
    let chunks: [&[u8]; 3] = [b"he", b"llo_", b"tcp"];
    let (writes, result) = pump_through(Flow::Outbound, &chunks);
    assert_eq!(writes, vec![b"he".to_vec(), b"llo_".to_vec(), b"tcp".to_vec()]);
    assert_eq!(result, Ok(9));
    let (none, empty) = pump_through(Flow::Inbound, &[]);
    assert_eq!(none, Vec::<Vec<u8>>::new());
    assert_eq!(empty, Ok(0));
}

#[test]
fn echo_round_trip_whatever_the_chunks() {
    let sent: [&[u8]; 4] = [b"a", b"bcd", b"efgh", b"ij"];
    let (outbound, _) = pump_through(Flow::Outbound, &sent);
    let on_the_wire: Vec<u8> = outbound.concat();
    assert_eq!(on_the_wire, b"abcdefghij");
    let echoed: [&[u8]; 3] = [&on_the_wire[..4], &on_the_wire[4..5], &on_the_wire[5..]];
    let (inbound, result) = pump_through(Flow::Inbound, &echoed);
    assert_eq!(inbound.concat(), b"abcdefghij");
    assert_eq!(result, Ok(10));
}

#[test]
fn listener_output_receives_what_the_client_sends() {
    let mut listener = listen(0, None, false);
    let mut connector = client("127.0.0.1", 40000, None, false);
    listener.step(Event::Start);
    listener.step(Event::Bound);
    connector.step(Event::Start);
    assert_eq!(connector.step(Event::Connected), step(None, Command::Relay { limit: None }));
    assert_eq!(
        listener.step(Event::Accepted { peer: "127.0.0.1:40001".to_string() }),
        step(None, Command::Relay { limit: None })
    );
    let input: [&[u8]; 1] = [b"hello_tcp"];
    let (wire, sent) = pump_through(Flow::Outbound, &input);
    assert_eq!(sent, Ok(9));
    let arriving: Vec<&[u8]> = wire.iter().map(|chunk| chunk.as_slice()).collect();
    let (output, received) = pump_through(Flow::Inbound, &arriving);
    assert_eq!(output.concat(), b"hello_tcp");
    assert_eq!(received, Ok(9));
}
