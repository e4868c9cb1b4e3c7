//! Setting up a ping session: which mode the command line asks for, the
//! request built from it, how the target is probed and which resolved
//! address is used.

use vstd::prelude::*;
use crate::model::{Cli, Commands, PingArgs, SocketAddress};
use crate::target::{parse_target, parse_target_spec, TargetError};
use crate::text::text_eq;

verus! {

/// What the command line asks the tool to do.
#[derive(Debug, Clone, PartialEq, Eq)]
pub enum Mode {
    /// Run a relay server on `port`, guarded by `token` if there is one.
    Serve { port: u16, token: Option<String> },
    /// Ping `target` through the relays listed in the file `config`.
    Relayed { config: String, target: String },
    /// Ping `target` from this machine.
    Local { target: String },
    /// No target was given where one is needed.
    MissingTarget,
}

/// The target a `remote` subcommand uses: its own, else the top-level one.
pub open spec fn remote_target(own: Option<String>, top: Option<String>) -> Option<String> {
    match own {
        Some(t) => Some(t),
        None => top,
    }
}

/// The mode a command line selects.
pub open spec fn mode_spec(cli: Cli) -> Mode {
    match cli.command {
        Some(Commands::Server { port, token }) => Mode::Serve { port, token },
        Some(Commands::Remote { config, target }) => match remote_target(target, cli.target) {
            Some(t) => Mode::Relayed { config, target: t },
            None => Mode::MissingTarget,
        },
        None => match cli.target {
            Some(t) => Mode::Local { target: t },
            None => Mode::MissingTarget,
        },
    }
}

fn clone_opt_string(s: &Option<String>) -> (res: Option<String>)
    ensures
        res == *s,
{
    match s {
        Some(t) => Some(t.clone()),
        None => None,
    }
}

impl Cli {
    /// The mode this command line selects.
    pub fn mode(&self) -> (res: Mode)
        ensures
            res == mode_spec(*self),
    {
        match &self.command {
            Some(Commands::Server { port, token }) => Mode::Serve {
                port: *port,
                token: clone_opt_string(token),
            },
            Some(Commands::Remote { config, target }) => {
                let t = match target {
                    Some(t) => Some(t.clone()),
                    None => clone_opt_string(&self.target),
                };
                match t {
                    Some(t) => Mode::Relayed { config: config.clone(), target: t },
                    None => Mode::MissingTarget,
                }
            },
            None => match &self.target {
                Some(t) => Mode::Local { target: t.clone() },
                None => Mode::MissingTarget,
            },
        }
    }
}

/// The port a session uses: the one in the target, else the option, else 80.
pub open spec fn session_port(parsed: u16, option: Option<u16>) -> u16 {
    if parsed != 0 {
        parsed
    } else {
        match option {
            Some(p) => p,
            None => 80u16,
        }
    }
}

/// The protocol a session uses: a port in the target turns ICMP into TCP.
pub open spec fn session_protocol(parsed: u16, protocol: Seq<char>) -> Seq<char> {
    if parsed != 0 && protocol == "icmp"@ {
        "tcp"@
    } else {
        protocol
    }
}

/// The request for host `host` (with port `parsed` from the target) under `cli`.
pub open spec fn session_args(cli: Cli, host: Seq<char>, parsed: u16, args: PingArgs) -> bool {
    &&& args.host@ == host
    &&& args.port == Some(session_port(parsed, cli.port))
    &&& args.protocol@ == session_protocol(parsed, cli.protocol@)
    &&& args.warmup == cli.warmup
    &&& args.count == cli.count
    &&& args.timeout == cli.timeout
    &&& args.silent == cli.silent
    &&& args.ipv4 == cli.ipv4
    &&& args.ipv6 == cli.ipv6
}

fn args_for(cli: &Cli, host: String, parsed: u16) -> (res: PingArgs)
    ensures
        session_args(*cli, host@, parsed, res),
{
    let mut protocol = cli.protocol.clone();
    let port = if parsed != 0 {
        if text_eq(protocol.as_str(), "icmp") {
            protocol = "tcp".to_owned();
        }
        parsed
    } else {
        match cli.port {
            Some(p) => p,
            None => 80,
        }
    };
    PingArgs {
        host,
        port: Some(port),
        protocol,
        warmup: cli.warmup,
        count: cli.count,
        timeout: cli.timeout,
        silent: cli.silent,
        ipv4: cli.ipv4,
        ipv6: cli.ipv6,
    }
}

/// The request for a local ping of `target` under the options of `cli`.
///
/// A target that does not read is refused as `parse_target` refuses it.
pub fn build_local_args(cli: &Cli, target: &str) -> (res: Result<PingArgs, TargetError>)
    ensures
        match parse_target_spec(target@) {
            Err(e) => res == Err::<PingArgs, TargetError>(e),
            Ok((host, parsed)) => res matches Ok(args) && session_args(*cli, host, parsed, args),
        },
{
    match parse_target(target) {
        Err(e) => Err(e),
        Ok((host, parsed)) => Ok(args_for(cli, host, parsed)),
    }
}

/// Why a request for the relays could not be built.
#[derive(Debug, Clone, Copy, PartialEq, Eq, Structural)]
pub enum ArgsError {
    /// The target does not read.
    InvalidTarget(TargetError),
    /// UDP is only pinged locally, not through relays.
    UdpNotRelayed,
}

/// The request sent to the relays for `target` under the options of `cli`.
///
/// The target is read first; then UDP is refused; then the request is built
/// as for a local ping.
pub fn build_ping_args(cli: &Cli, target: &str) -> (res: Result<PingArgs, ArgsError>)
    ensures
        match parse_target_spec(target@) {
            Err(e) => res == Err::<PingArgs, ArgsError>(ArgsError::InvalidTarget(e)),
            Ok((host, parsed)) => if cli.protocol@ == "udp"@ {
                res == Err::<PingArgs, ArgsError>(ArgsError::UdpNotRelayed)
            } else {
                res matches Ok(args) && session_args(*cli, host, parsed, args)
            },
        },
{
    match parse_target(target) {
        Err(e) => Err(ArgsError::InvalidTarget(e)),
        Ok((host, parsed)) => {
            if text_eq(cli.protocol.as_str(), "udp") {
                Err(ArgsError::UdpNotRelayed)
            } else {
                Ok(args_for(cli, host, parsed))
            }
        },
    }
}

/// How a target is probed.
#[derive(Debug, Clone, Copy, PartialEq, Eq, Structural)]
pub enum ProbeKind {
    Icmp,
    Tcp,
    Udp,
}

/// How a session probes its target: the kind of probe and the port the name
/// is resolved with (0 for ICMP).
#[derive(Debug, Clone, Copy, PartialEq, Eq, Structural)]
pub struct ProbePlan {
    pub kind: ProbeKind,
    pub port: u16,
}

/// The protocol of a session is none of ICMP, TCP and UDP.
#[derive(Debug, Clone, Copy, PartialEq, Eq, Structural)]
pub enum PlanError {
    UnsupportedProtocol,
}

/// The plan for a session with protocol `protocol` and port option `port`.
pub open spec fn probe_plan_spec(protocol: Seq<char>, port: Option<u16>) -> Result<ProbePlan, PlanError> {
    let p = match port {
        Some(p) => p,
        None => 80u16,
    };
    if protocol == "icmp"@ {
        Ok(ProbePlan { kind: ProbeKind::Icmp, port: 0 })
    } else if protocol == "tcp"@ {
        Ok(ProbePlan { kind: ProbeKind::Tcp, port: p })
    } else if protocol == "udp"@ {
        Ok(ProbePlan { kind: ProbeKind::Udp, port: p })
    } else {
        Err(PlanError::UnsupportedProtocol)
    }
}

/// Decides how a local session probes its target.
pub fn probe_plan(args: &PingArgs) -> (res: Result<ProbePlan, PlanError>)
    ensures
        res == probe_plan_spec(args.protocol@, args.port),
{
    let p = match args.port {
        Some(p) => p,
        None => 80,
    };
    if text_eq(args.protocol.as_str(), "icmp") {
        Ok(ProbePlan { kind: ProbeKind::Icmp, port: 0 })
    } else if text_eq(args.protocol.as_str(), "tcp") {
        Ok(ProbePlan { kind: ProbeKind::Tcp, port: p })
    } else if text_eq(args.protocol.as_str(), "udp") {
        Ok(ProbePlan { kind: ProbeKind::Udp, port: p })
    } else {
        Err(PlanError::UnsupportedProtocol)
    }
}

/// Whether an address may be used under the `-4` and `-6` options.
pub open spec fn address_allowed(addr: SocketAddress, ipv4: bool, ipv6: bool) -> bool {
    !(ipv4 && addr.ip is V6) && !(ipv6 && addr.ip is V4)
}

/// Picks the first resolved address that the `-4` and `-6` options allow,
/// by its position in `addrs`.
pub fn select_address(addrs: &Vec<SocketAddress>, ipv4: bool, ipv6: bool) -> (res: Option<usize>)
    ensures
        match res {
            Some(i) => i < addrs@.len() && address_allowed(addrs@[i as int], ipv4, ipv6)
                && forall|j: int| 0 <= j < i ==> !address_allowed(#[trigger] addrs@[j], ipv4, ipv6),
            None => forall|j: int| 0 <= j < addrs@.len() ==> !address_allowed(#[trigger] addrs@[j], ipv4, ipv6),
        },
{
    let mut i: usize = 0;
    while i < addrs.len()
        invariant
            0 <= i <= addrs@.len(),
            forall|j: int| 0 <= j < i ==> !address_allowed(#[trigger] addrs@[j], ipv4, ipv6),
        decreases addrs@.len() - i,
    {
        let a = addrs[i];
        if ipv4 && a.ip.is_ipv6() {
            i = i + 1;
            continue;
        }
        if ipv6 && a.ip.is_ipv4() {
            i = i + 1;
            continue;
        }
        return Some(i);
    }
    None
}

/// TCP and UDP probes go to the port the request asks for, and to 80 only
/// when it names none; ICMP resolves with port 0.
pub proof fn law_plan_port_is_requested_port(port: Option<u16>)
    ensures
        probe_plan_spec("tcp"@, port) == Ok::<ProbePlan, PlanError>(ProbePlan {
            kind: ProbeKind::Tcp,
            port: match port {
                Some(p) => p,
                None => 80u16,
            },
        }),
        probe_plan_spec("udp"@, port) == Ok::<ProbePlan, PlanError>(ProbePlan {
            kind: ProbeKind::Udp,
            port: match port {
                Some(p) => p,
                None => 80u16,
            },
        }),
        probe_plan_spec("icmp"@, port) == Ok::<ProbePlan, PlanError>(ProbePlan { kind: ProbeKind::Icmp, port: 0 }),
        forall|p: u16| port == Some(p) ==> (probe_plan_spec("tcp"@, port) matches Ok(plan) && plan.port == p),
{
    reveal_strlit("tcp");
    reveal_strlit("udp");
    reveal_strlit("icmp");
    assert("tcp"@[0] != "icmp"@[0]);
    assert("udp"@[0] != "icmp"@[0]);
    assert("udp"@[0] != "tcp"@[0]);
}

/// The request keeps the command line's protocol, except that ICMP becomes
/// TCP when the target carries a port; without a port in the target the
/// protocol is never changed.
pub proof fn law_protocol_kept_unless_icmp_with_port(cli: Cli, host: Seq<char>, parsed: u16, args: PingArgs)
    requires
        session_args(cli, host, parsed, args),
    ensures
        parsed == 0 ==> args.protocol@ == cli.protocol@,
        cli.protocol@ != "icmp"@ ==> args.protocol@ == cli.protocol@,
        parsed != 0 && cli.protocol@ == "icmp"@ ==> args.protocol@ == "tcp"@,
        parsed != 0 ==> args.port == Some(parsed),
        parsed == 0 ==> args.port == Some(
            match cli.port {
                Some(p) => p,
                None => 80u16,
            },
        ),
{
}

} // verus!
