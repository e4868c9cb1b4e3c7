//! The values that travel through the tool: command-line options, ping
//! requests, probe outcomes and addresses.

use vstd::prelude::*;

verus! {

/// The outcome of one probe.
#[derive(Debug, Clone, PartialEq, Eq)]
pub enum PingStatus {
    /// The target answered; `elapsed_ns` is the round-trip time in nanoseconds.
    Success { elapsed_ns: u128 },
    /// No answer came in time.
    Timeout,
    /// The probe could not be made; the text says why.
    Error(String),
}

/// The round-trip time a status carries, if it is a success.
pub open spec fn status_rtt(status: PingStatus) -> Option<u128> {
    match status {
        PingStatus::Success { elapsed_ns } => Some(elapsed_ns),
        _ => None,
    }
}

impl PingStatus {
    /// The round-trip time of a successful probe, `None` otherwise.
    pub fn rtt(&self) -> (res: Option<u128>)
        ensures
            res == status_rtt(*self),
    {
        match self {
            PingStatus::Success { elapsed_ns } => Some(*elapsed_ns),
            _ => None,
        }
    }
}

/// What one ping session is asked to do, locally or on a relay.
#[derive(Debug, Clone, PartialEq, Eq)]
pub struct PingArgs {
    pub host: String,
    pub port: Option<u16>,
    pub protocol: String,
    pub warmup: Option<usize>,
    pub count: Option<usize>,
    /// Pause between two probes, in milliseconds.
    pub timeout: Option<u64>,
    pub silent: bool,
    pub ipv4: bool,
    pub ipv6: bool,
}

/// The subcommands of the tool.
#[derive(Debug, Clone, PartialEq, Eq)]
pub enum Commands {
    /// Run as a relay server.
    Server { port: u16, token: Option<String> },
    /// Ping through the relays listed in a configuration file.
    Remote { config: String, target: Option<String> },
}

/// The command line of the tool.
#[derive(Debug, Clone, PartialEq, Eq)]
pub struct Cli {
    pub target: Option<String>,
    pub port: Option<u16>,
    pub protocol: String,
    pub warmup: Option<usize>,
    pub count: Option<usize>,
    /// Pause between two probes, in milliseconds.
    pub timeout: Option<u64>,
    pub silent: bool,
    pub ipv4: bool,
    pub ipv6: bool,
    pub command: Option<Commands>,
}

/// An IP address, as its bits.
#[derive(Debug, Clone, Copy, PartialEq, Eq, Structural)]
pub enum IpAddress {
    V4(u32),
    V6(u128),
}

impl IpAddress {
    /// Whether this is an IPv4 address.
    pub fn is_ipv4(&self) -> (res: bool)
        ensures
            res == (*self is V4),
    {
        match self {
            IpAddress::V4(_) => true,
            IpAddress::V6(_) => false,
        }
    }

    /// Whether this is an IPv6 address.
    pub fn is_ipv6(&self) -> (res: bool)
        ensures
            res == (*self is V6),
    {
        match self {
            IpAddress::V4(_) => false,
            IpAddress::V6(_) => true,
        }
    }
}

/// An IP address with a port.
#[derive(Debug, Clone, Copy, PartialEq, Eq, Structural)]
pub struct SocketAddress {
    pub ip: IpAddress,
    pub port: u16,
}

/// One probe's outcome, as shown to the user.
#[derive(Debug, Clone, PartialEq, Eq)]
pub struct PingResponse {
    pub ip: IpAddress,
    pub port: u16,
    pub status: PingStatus,
}

/// A relay listed in the configuration file.
#[derive(Debug, Clone, PartialEq, Eq)]
pub struct RemoteServer {
    pub name: String,
    pub url: String,
    pub token: Option<String>,
}

} // verus!
