use r_cat::net::addr::PeerAddr;
use r_cat::net::session::{CopyResult, Flow, Outcome};
use r_cat::tcp::{self, Pump, PumpCommand, PumpEvent};
use r_cat::udp::{self, Exchange, RecvCommand, RecvEvent, Route, SendCommand, SendEvent};
use tokio::io::{duplex, split, AsyncRead, AsyncReadExt, AsyncWrite, AsyncWriteExt, DuplexStream};
use tokio::runtime::{Builder, Runtime};
use tokio::sync::mpsc::{unbounded_channel, UnboundedReceiver, UnboundedSender};

fn runtime() -> Runtime {
    Builder::new_current_thread().enable_all().build().expect("a runtime")
}

/// Runs one direction of a TCP relay from `source` to `sink` and hands the
/// sink back with the direction's result.
async fn pump<R, W>(flow: Flow, mut source: R, mut sink: W) -> (W, CopyResult)
where
    R: AsyncRead + Unpin,
    W: AsyncWrite + Unpin,
{
    let mut pump = Pump::new(flow);
    let mut buf: Vec<u8> = Vec::new();
    let mut command = pump.step(PumpEvent::Start).expect("a new pump starts");
    loop {
        let event = match command {
            PumpCommand::Read { max } => {
                buf.resize(max, 0);
                match source.read(&mut buf).await {
                    Ok(n) => PumpEvent::Input { bytes: buf[..n].to_vec() },
                    Err(_) => PumpEvent::ReadFailed,
                }
            }
            PumpCommand::Write { bytes, flush } => {
                let mut written = sink.write_all(&bytes).await;
                if written.is_ok() && flush {
                    written = sink.flush().await;
                }
                match written {
                    Ok(()) => PumpEvent::Written,
                    Err(_) => PumpEvent::WriteFailed,
                }
            }
            PumpCommand::Shutdown => {
                let _ = sink.shutdown().await;
                PumpEvent::Closed
            }
            PumpCommand::Flush => {
                let _ = sink.flush().await;
                PumpEvent::Closed
            }
            PumpCommand::Done { result } => return (sink, result),
        };
        command = pump.step(event).expect("the pump is told what it asked for");
    }
}

/// Relays `input` over `stream` as a session in its relay does, and returns
/// what reaches local output with the way the session ends.
async fn relay(
    mut session: tcp::Session,
    stream: DuplexStream,
    input: &'static [u8],
) -> (Vec<u8>, tcp::Command) {
    let (reader, writer) = split(stream);
    let outbound = tokio::spawn(pump(Flow::Outbound, input, writer));
    let inbound = tokio::spawn(pump(Flow::Inbound, reader, Vec::new()));
    let (_, sent) = outbound.await.expect("the outbound direction ends");
    let step = session
        .step(tcp::Event::Finished { flow: Flow::Outbound, result: sent })
        .expect("the relay was asked for");
    assert_eq!(step.command, tcp::Command::Wait);
    let (output, received) = inbound.await.expect("the inbound direction ends");
    let step = session
        .step(tcp::Event::Finished { flow: Flow::Inbound, result: received })
        .expect("the relay was asked for");
    (output, step.command)
}

/// A client session that has just got its connection.
fn connected_client() -> tcp::Session {
    let mut session = tcp::client("127.0.0.1", 4000, None, false);
    let step = session.step(tcp::Event::Start).expect("an idle session starts");
    assert_eq!(
        step.command,
        tcp::Command::Connect { addr: "127.0.0.1:4000".to_string(), limit: None }
    );
    let step = session.step(tcp::Event::Connected).expect("the connect was asked for");
    assert_eq!(step.command, tcp::Command::Relay { limit: None });
    session
}

#[test]
fn tcp_echo_integration() {
    runtime().block_on(async {
        // Start a simple echo server at the far end of a connection
        let (near, mut far) = duplex(1024);

        let server = tokio::spawn(async move {
            let mut buf = [0u8; 1024];
            let n = far.read(&mut buf).await.expect("read");
            far.write_all(&buf[..n]).await.expect("write");
        });

        // Client: connect, send data, receive echo
        let (res, end) = relay(connected_client(), near, b"hello_tcp").await;
        assert_eq!(&res, b"hello_tcp");
        assert_eq!(end, tcp::Command::Exit { verdict: Ok(Outcome::Completed) });

        // ensure server finished
        let _ = server.await;
    });
}

#[test]
fn tcp_listener_output_receives_what_the_client_sends() {
    runtime().block_on(async {
        let mut listener = tcp::listen(0, None, false);
        let step = listener.step(tcp::Event::Start).expect("an idle session starts");
        assert_eq!(step.command, tcp::Command::Bind { addr: "0.0.0.0:0".to_string() });
        let step = listener.step(tcp::Event::Bound).expect("the bind was asked for");
        assert_eq!(step.command, tcp::Command::Accept { limit: None });
        let step = listener
            .step(tcp::Event::Accepted { peer: "127.0.0.1:40001".to_string() })
            .expect("the accept was asked for");
        assert_eq!(step.command, tcp::Command::Relay { limit: None });

        let (near, far) = duplex(64);
        let client = tokio::spawn(relay(connected_client(), near, b"hello_tcp"));
        let (output, end) = relay(listener, far, b"").await;
        assert_eq!(output, b"hello_tcp");
        assert_eq!(end, tcp::Command::Exit { verdict: Ok(Outcome::Completed) });
        let (echo, end) = client.await.expect("the client ends");
        assert_eq!(echo, b"");
        assert_eq!(end, tcp::Command::Exit { verdict: Ok(Outcome::Completed) });
    });
}

#[test]
fn tcp_relay_moves_more_than_the_pipe_holds() {
    runtime().block_on(async {
        let (near, far) = duplex(16);
        let server = tokio::spawn(async move {
            let (mut reader, mut writer) = split(far);
            let mut buf = [0u8; 7];
            loop {
                let n = reader.read(&mut buf).await.expect("read");
                if n == 0 {
                    break;
                }
                writer.write_all(&buf[..n]).await.expect("write");
            }
        });
        let input: &'static [u8] = b"the quick brown fox jumps over the lazy dog, twice over";
        let (output, end) = relay(connected_client(), near, input).await;
        assert_eq!(output, input);
        assert_eq!(end, tcp::Command::Exit { verdict: Ok(Outcome::Completed) });
        let _ = server.await;
    });
}

/// An echoing peer: every datagram it gets goes back to where it came from.
async fn echo_datagrams(
    mut incoming: UnboundedReceiver<(Vec<u8>, PeerAddr)>,
    outgoing: UnboundedSender<(Vec<u8>, PeerAddr)>,
    own: PeerAddr,
) {
    while let Some((payload, _to)) = incoming.recv().await {
        if outgoing.send((payload, own)).is_err() {
            break;
        }
    }
}

#[test]
fn udp_echo_integration() {
    runtime().block_on(async {
        let server_addr = PeerAddr::V4 { bits: 0x7f00_0001, port: 4000 };
        let (to_server, at_server) = unbounded_channel();
        let (to_client, mut at_client) = unbounded_channel();
        let srv = tokio::spawn(echo_datagrams(at_server, to_client, server_addr));

        let mut session = udp::client("127.0.0.1", 4000, None, false);
        let step = session.step(udp::Event::Start).expect("an idle session starts");
        assert_eq!(step.command, udp::Command::Resolve { text: "127.0.0.1:4000".to_string() });
        let step = session
            .step(udp::Event::Resolved { remote: server_addr, shown: "127.0.0.1:4000".to_string() })
            .expect("the address was asked for");
        assert_eq!(step.command, udp::Command::Bind { addr: "0.0.0.0:0".to_string() });
        let step = session.step(udp::Event::Bound).expect("the bind was asked for");
        let route = Route::Fixed { remote: server_addr };
        assert_eq!(step.command, udp::Command::Relay { route, limit: None });

        let mut exchange = Exchange::new(route);
        exchange.send_step(SendEvent::Start);
        exchange.recv_step(RecvEvent::Start);
        let msg = b"hello_udp";
        match exchange.send_step(SendEvent::Input { bytes: msg.to_vec() }) {
            Some(SendCommand::Send { payload, to }) => {
                assert_eq!(to, server_addr);
                to_server.send((payload, to)).expect("send");
            }
            other => panic!("a chunk of input is sent, not {:?}", other),
        }
        exchange.send_step(SendEvent::Sent);
        let (payload, from) = at_client.recv().await.expect("recv");
        assert_eq!(
            exchange.recv_step(RecvEvent::Datagram { payload, from }),
            Some(RecvCommand::Deliver { payload: msg.to_vec() })
        );

        drop(to_server);
        let _ = srv.await;
    });
}
