//! From the options of a run to the session it asks for.

use crate::net::session::{text_view, Role, Timeout};
use crate::net::tcp;
use crate::net::udp;
use vstd::prelude::*;
use vstd::string::*;

verus! {

/// The options of a run that decide which session is opened and how.
#[derive(Debug, PartialEq, Eq)]
pub struct Args {
    /// Use UDP instead of TCP.
    pub udp: bool,
    /// Listen for a peer instead of reaching out to one.
    pub listen: bool,
    /// Show progress on the diagnostic stream.
    pub verbose: bool,
    /// The limit on getting the endpoint and, counted anew, on the relay.
    pub timeout: Option<Timeout>,
    /// The port given as the source port.
    pub source_port: Option<u16>,
    /// The host to reach out to.
    pub destination: Option<String>,
    /// The port given after the destination.
    pub port: Option<u16>,
}

/// The transport of a session.
#[derive(Clone, Copy, Debug, PartialEq, Eq, Structural)]
pub enum Protocol {
    Tcp,
    Udp,
}

/// Where a session gets its endpoint.
#[derive(Debug, PartialEq, Eq)]
pub enum Target {
    /// At `port` of the remote `host`.
    Remote { host: String, port: u16 },
    /// At the local `port`, on all interfaces.
    Local { port: u16 },
}

/// A target with its host as a sequence of characters.
pub enum TargetView {
    Remote { host: Seq<char>, port: u16 },
    Local { port: u16 },
}

impl View for Target {
    type V = TargetView;

    open spec fn view(&self) -> TargetView {
        match *self {
            Target::Remote { host, port } => TargetView::Remote { host: host@, port },
            Target::Local { port } => TargetView::Local { port },
        }
    }
}

/// All that a session is opened with. A session does not change it.
#[derive(Debug, PartialEq, Eq)]
pub struct SessionConfig {
    pub protocol: Protocol,
    pub target: Target,
    pub timeout: Option<Timeout>,
    pub verbose: bool,
}

/// A configuration with its host as a sequence of characters.
pub struct SessionConfigView {
    pub protocol: Protocol,
    pub target: TargetView,
    pub timeout: Option<Timeout>,
    pub verbose: bool,
}

impl View for SessionConfig {
    type V = SessionConfigView;

    open spec fn view(&self) -> SessionConfigView {
        SessionConfigView {
            protocol: self.protocol,
            target: self.target@,
            timeout: self.timeout,
            verbose: self.verbose,
        }
    }
}

impl SessionConfigView {
    /// The side that the session takes.
    pub open spec fn role(self) -> Role {
        match self.target {
            TargetView::Remote { host, port } => Role::Client,
            TargetView::Local { port } => Role::Listener,
        }
    }
}

/// The options that do not name what the chosen role needs. Such a run ends
/// before it touches the network.
#[derive(Clone, Copy, Debug, PartialEq, Eq, Structural)]
pub enum ConfigError {
    /// A listener was asked for without any port.
    ListenPort,
    /// A client was asked for without a destination.
    Destination,
    /// A client was asked for without a port.
    Port,
}

impl ConfigError {
    /// The error in words.
    pub open spec fn message_text(self) -> Seq<char> {
        match self {
            ConfigError::ListenPort => "listen mode requires a port (-p or positional)"@,
            ConfigError::Destination => "destination required in client mode"@,
            ConfigError::Port => "port required in client mode"@,
        }
    }

    /// The error in words.
    pub fn message(&self) -> (text: &'static str)
        ensures
            text@ == self.message_text(),
    {
        match self {
            ConfigError::ListenPort => "listen mode requires a port (-p or positional)",
            ConfigError::Destination => "destination required in client mode",
            ConfigError::Port => "port required in client mode",
        }
    }

    /// The status a process ends with on this error: not zero.
    pub fn exit_code(&self) -> (code: u8)
        ensures
            code == 1,
    {
        1
    }
}

impl Args {
    /// The protocol the options ask for.
    pub open spec fn protocol(&self) -> Protocol {
        if self.udp {
            Protocol::Udp
        } else {
            Protocol::Tcp
        }
    }

    /// The port a listener binds: the one given after the destination, or
    /// else the one given as the source port.
    pub open spec fn listen_port(&self) -> Option<u16> {
        match self.port {
            Some(port) => Some(port),
            None => self.source_port,
        }
    }

    /// The session the options ask for, or what they lack. A client needs a
    /// destination and a port, and a missing destination is told first. A
    /// listener needs a port only and has no use for a destination.
    pub open spec fn resolved(&self) -> Result<SessionConfigView, ConfigError> {
        if self.listen {
            match self.listen_port() {
                Some(port) => Ok(
                    SessionConfigView {
                        protocol: self.protocol(),
                        target: TargetView::Local { port },
                        timeout: self.timeout,
                        verbose: self.verbose,
                    },
                ),
                None => Err(ConfigError::ListenPort),
            }
        } else {
            match text_view(self.destination) {
                None => Err(ConfigError::Destination),
                Some(host) => match self.port {
                    None => Err(ConfigError::Port),
                    Some(port) => Ok(
                        SessionConfigView {
                            protocol: self.protocol(),
                            target: TargetView::Remote { host, port },
                            timeout: self.timeout,
                            verbose: self.verbose,
                        },
                    ),
                },
            }
        }
    }

    /// Settles which session the options ask for.
    pub fn resolve(&self) -> (config: Result<SessionConfig, ConfigError>)
        ensures
            match self.resolved() {
                Ok(expected) => config matches Ok(given) && given@ == expected,
                Err(e) => config == Err::<SessionConfig, ConfigError>(e),
            },
    {
        let protocol: Protocol = if self.udp {
            Protocol::Udp
        } else {
            Protocol::Tcp
        };
        let target: Target = if self.listen {
            let port: Option<u16> = match self.port {
                Some(port) => Some(port),
                None => self.source_port,
            };
            match port {
                Some(port) => Target::Local { port },
                None => {
                    return Err(ConfigError::ListenPort);
                },
            }
        } else {
            match &self.destination {
                None => {
                    return Err(ConfigError::Destination);
                },
                Some(host) => match self.port {
                    None => {
                        return Err(ConfigError::Port);
                    },
                    Some(port) => Target::Remote { host: host.clone(), port },
                },
            }
        };
        Ok(SessionConfig { protocol, target, timeout: self.timeout, verbose: self.verbose })
    }
}

/// A session of either transport, not yet started.
#[derive(Debug)]
pub enum Opened {
    Tcp(tcp::Session),
    Udp(udp::Session),
}

impl SessionConfig {
    /// The side that the session takes.
    pub fn role(&self) -> (role: Role)
        ensures
            role == self@.role(),
    {
        match self.target {
            Target::Remote { .. } => Role::Client,
            Target::Local { .. } => Role::Listener,
        }
    }

    /// Opens the session that the configuration describes: of its protocol,
    /// on its side, for its target, under its limit.
    pub fn open(&self) -> (opened: Opened)
        ensures
            match (self@.protocol, self@.target) {
                (Protocol::Tcp, TargetView::Remote { host, port }) => opened matches Opened::Tcp(
                    s,
                ) && s@ == tcp::SessionView::client(host, port, self.timeout, self.verbose),
                (Protocol::Tcp, TargetView::Local { port }) => opened matches Opened::Tcp(s)
                    && s@ == tcp::SessionView::listener(port, self.timeout, self.verbose),
                (Protocol::Udp, TargetView::Remote { host, port }) => opened matches Opened::Udp(
                    s,
                ) && s@ == udp::SessionView::client(host, port, self.timeout, self.verbose),
                (Protocol::Udp, TargetView::Local { port }) => opened matches Opened::Udp(s)
                    && s@ == udp::SessionView::listener(port, self.timeout, self.verbose),
            },
    {
        match self.protocol {
            Protocol::Tcp => match &self.target {
                Target::Remote { host, port } => Opened::Tcp(
                    tcp::client(host.as_str(), *port, self.timeout, self.verbose),
                ),
                Target::Local { port } => Opened::Tcp(
                    tcp::listen(*port, self.timeout, self.verbose),
                ),
            },
            Protocol::Udp => match &self.target {
                Target::Remote { host, port } => Opened::Udp(
                    udp::client(host.as_str(), *port, self.timeout, self.verbose),
                ),
                Target::Local { port } => Opened::Udp(
                    udp::listen(*port, self.timeout, self.verbose),
                ),
            },
        }
    }
}

} // verus!
