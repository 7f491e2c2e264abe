use r_cat::cli::{Args, ConfigError, Opened, Protocol, SessionConfig, Target};
use r_cat::net::session::{Role, Timeout};
use r_cat::{tcp, udp};

fn bare() -> Args {
    Args {
        udp: false,
        listen: false,
        verbose: false,
        timeout: None,
        source_port: None,
        destination: None,
        port: None,
    }
}

#[test]
fn cli_parsing_integration() {
    // What `r-cat -u -l -p 1234` is parsed to.
    let args = Args { udp: true, listen: true, source_port: Some(1234), ..bare() };
    assert!(args.udp);
    assert!(args.listen);
    assert_eq!(args.source_port, Some(1234));
    assert_eq!(
        args.resolve(),
        Ok(SessionConfig {
            protocol: Protocol::Udp,
            target: Target::Local { port: 1234 },
            timeout: None,
            verbose: false,
        })
    );

    // What `r-cat example.com 80` is parsed to.
    let args2 =
        Args { destination: Some("example.com".to_string()), port: Some(80), ..bare() };
    assert_eq!(args2.destination.as_deref(), Some("example.com"));
    assert_eq!(args2.port, Some(80));
    assert_eq!(
        args2.resolve(),
        Ok(SessionConfig {
            protocol: Protocol::Tcp,
            target: Target::Remote { host: "example.com".to_string(), port: 80 },
            timeout: None,
            verbose: false,
        })
    );
}

#[test]
fn listener_prefers_the_positional_port() {
    let args = Args { listen: true, port: Some(7), source_port: Some(8), ..bare() };
    assert_eq!(args.resolve().map(|config| config.target), Ok(Target::Local { port: 7 }));
    let args = Args { listen: true, port: Some(7), ..bare() };
    assert_eq!(args.resolve().map(|config| config.target), Ok(Target::Local { port: 7 }));
}

#[test]
fn listener_has_no_use_for_a_destination() {
    let args = Args {
        listen: true,
        destination: Some("ignored".to_string()),
        source_port: Some(9),
        ..bare()
    };
    let config = args.resolve().expect("a port is all a listener needs");
    assert_eq!(config.target, Target::Local { port: 9 });
    assert_eq!(config.role(), Role::Listener);
}

#[test]
fn listener_without_a_port_is_refused() {
    let args = Args { listen: true, destination: Some("host".to_string()), ..bare() };
    assert_eq!(args.resolve(), Err(ConfigError::ListenPort));
    assert_eq!(
        ConfigError::ListenPort.message(),
        "listen mode requires a port (-p or positional)"
    );
}

#[test]
fn client_without_a_destination_is_refused_first() {
    assert_eq!(bare().resolve(), Err(ConfigError::Destination));
    let args = Args { port: Some(80), source_port: Some(81), ..bare() };
    assert_eq!(args.resolve(), Err(ConfigError::Destination));
    assert_eq!(ConfigError::Destination.message(), "destination required in client mode");
}

#[test]
fn client_without_a_port_is_refused() {
    let args = Args { destination: Some("host".to_string()), source_port: Some(81), ..bare() };
    assert_eq!(args.resolve(), Err(ConfigError::Port));
    assert_eq!(ConfigError::Port.message(), "port required in client mode");
}

#[test]
fn config_errors_fail_the_process() {
    assert_eq!(ConfigError::ListenPort.exit_code(), 1);
    assert_eq!(ConfigError::Destination.exit_code(), 1);
    assert_eq!(ConfigError::Port.exit_code(), 1);
}

#[test]
fn resolve_keeps_limit_and_verbosity() {
    let limit = Timeout::new(2, 500_000_000);
    let args = Args {
        udp: true,
        verbose: true,
        timeout: limit,
        destination: Some("::1".to_string()),
        port: Some(53),
        ..bare()
    };
    let config = args.resolve().expect("destination and port are there");
    assert_eq!(config.protocol, Protocol::Udp);
    assert_eq!(config.role(), Role::Client);
    assert_eq!(config.timeout, limit);
    assert!(config.verbose);
}

#[test]
fn open_picks_transport_and_side() {
    let limit = Timeout::new(1, 0);
    let config = |protocol: Protocol, target: Target| SessionConfig {
        protocol,
        target,
        timeout: limit,
        verbose: true,
    };
    let remote = || Target::Remote { host: "127.0.0.1".to_string(), port: 9000 };

    match config(Protocol::Tcp, remote()).open() {
        Opened::Tcp(mut s) => assert_eq!(
            s.step(tcp::Event::Start),
            Some(tcp::Step {
                notice: Some("Connecting to 127.0.0.1:9000".to_string()),
                command: tcp::Command::Connect { addr: "127.0.0.1:9000".to_string(), limit },
            })
        ),
        Opened::Udp(_) => panic!("a TCP session was asked for"),
    }
    match config(Protocol::Tcp, Target::Local { port: 9000 }).open() {
        Opened::Tcp(mut s) => assert_eq!(
            s.step(tcp::Event::Start),
            Some(tcp::Step {
                notice: Some("Listening on 0.0.0.0:9000".to_string()),
                command: tcp::Command::Bind { addr: "0.0.0.0:9000".to_string() },
            })
        ),
        Opened::Udp(_) => panic!("a TCP session was asked for"),
    }
    match config(Protocol::Udp, remote()).open() {
        Opened::Udp(mut s) => assert_eq!(
            s.step(udp::Event::Start),
            Some(udp::Step {
                notice: None,
                command: udp::Command::Resolve { text: "127.0.0.1:9000".to_string() },
            })
        ),
        Opened::Tcp(_) => panic!("a UDP session was asked for"),
    }
    match config(Protocol::Udp, Target::Local { port: 9000 }).open() {
        Opened::Udp(mut s) => assert_eq!(
            s.step(udp::Event::Start),
            Some(udp::Step {
                notice: Some("udp: listening on 0.0.0.0:9000".to_string()),
                command: udp::Command::Bind { addr: "0.0.0.0:9000".to_string() },
            })
        ),
        Opened::Tcp(_) => panic!("a UDP session was asked for"),
    }
}
