//! The relay server's decisions on a ping request: whether the caller may
//! use the relay, whether the request can be served, and how long the
//! stream of probes runs.

use vstd::prelude::*;
use crate::model::{PingArgs, SocketAddress};
use crate::session::{ProbeKind, ProbePlan};
use crate::text::text_eq;

verus! {

/// Why a relay turns a request down.
#[derive(Debug, Clone, Copy, PartialEq, Eq, Structural)]
pub enum Rejection {
    /// The request does not carry the relay's token.
    Unauthorized,
    /// The request asks for something the relay does not do.
    BadRequest,
}

/// The HTTP status code of a rejection.
pub open spec fn status_code_spec(r: Rejection) -> u16 {
    match r {
        Rejection::Unauthorized => 401,
        Rejection::BadRequest => 400,
    }
}

impl Rejection {
    /// The HTTP status code answered for this rejection.
    pub fn status_code(&self) -> (res: u16)
        ensures
            res == status_code_spec(*self),
    {
        match self {
            Rejection::Unauthorized => 401,
            Rejection::BadRequest => 400,
        }
    }
}

/// The `Authorization` header that carries `token`.
pub open spec fn bearer_spec(token: Seq<char>) -> Seq<char> {
    "Bearer "@ + token
}

/// Writes the `Authorization` header value that carries `token`.
pub fn bearer_header(token: &str) -> (res: String)
    ensures
        res@ == bearer_spec(token@),
{
    "Bearer ".to_owned().concat(token)
}

/// How a relay answers a request with `protocol`, given the token it
/// expects and the `Authorization` header received (empty when missing).
pub open spec fn request_verdict(expected: Option<Seq<char>>, header: Seq<char>, protocol: Seq<char>) -> Result<ProbeKind, Rejection> {
    if expected matches Some(t) && header != bearer_spec(t) {
        Err(Rejection::Unauthorized)
    } else if protocol == "tcp"@ {
        Ok(ProbeKind::Tcp)
    } else if protocol == "icmp"@ {
        Ok(ProbeKind::Icmp)
    } else {
        Err(Rejection::BadRequest)
    }
}

/// Checks a request: the token first, then the protocol (TCP or ICMP).
pub fn check_request(expected: Option<&str>, header: &str, protocol: &str) -> (res: Result<ProbeKind, Rejection>)
    ensures
        res == request_verdict(
            match expected {
                Some(t) => Some(t@),
                None => None,
            },
            header@,
            protocol@,
        ),
{
    match expected {
        Some(t) => {
            let wanted = bearer_header(t);
            if !text_eq(header, wanted.as_str()) {
                return Err(Rejection::Unauthorized);
            }
        },
        None => {},
    }
    if text_eq(protocol, "tcp") {
        Ok(ProbeKind::Tcp)
    } else if text_eq(protocol, "icmp") {
        Ok(ProbeKind::Icmp)
    } else {
        Err(Rejection::BadRequest)
    }
}

/// The plan of an accepted request: its host is resolved with its port,
/// or 0 when it names none.
pub fn relay_plan(kind: ProbeKind, args: &PingArgs) -> (res: ProbePlan)
    ensures
        res.kind == kind,
        res.port == match args.port {
            Some(p) => p,
            None => 0u16,
        },
{
    ProbePlan {
        kind,
        port: match args.port {
            Some(p) => p,
            None => 0,
        },
    }
}

/// The address probed for an accepted request; a host that did not
/// resolve makes the request a bad one.
pub fn relay_address(resolved: Option<SocketAddress>) -> (res: Result<SocketAddress, Rejection>)
    ensures
        match resolved {
            Some(a) => res == Ok::<SocketAddress, Rejection>(a),
            None => res == Err::<SocketAddress, Rejection>(Rejection::BadRequest),
        },
{
    match resolved {
        Some(a) => Ok(a),
        None => Err(Rejection::BadRequest),
    }
}

/// A relay that expects token `t` lets in a request carrying the header
/// written for `t`: it is served or turned down only for what it asks.
pub proof fn law_own_token_accepted(t: Seq<char>, protocol: Seq<char>)
    ensures
        request_verdict(Some(t), bearer_spec(t), protocol) == request_verdict(None, Seq::empty(), protocol),
        request_verdict(Some(t), bearer_spec(t), protocol) != Err::<ProbeKind, Rejection>(Rejection::Unauthorized),
{
}

/// A request without the right token is refused as unauthorized, whatever
/// else it asks for.
pub proof fn law_wrong_token_refused(t: Seq<char>, header: Seq<char>, protocol: Seq<char>)
    requires
        header != bearer_spec(t),
    ensures
        request_verdict(Some(t), header, protocol) == Err::<ProbeKind, Rejection>(Rejection::Unauthorized),
{
}

/// A relay without a token never refuses a request as unauthorized.
pub proof fn law_open_relay_never_unauthorized(header: Seq<char>, protocol: Seq<char>)
    ensures
        request_verdict(None, header, protocol) != Err::<ProbeKind, Rejection>(Rejection::Unauthorized),
{
}

} // verus!
