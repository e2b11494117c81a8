//! What can go wrong in the gateway, how far each failure reaches, and what
//! a client is told.

use vstd::prelude::*;
use crate::message::{BAD_GATEWAY, BAD_REQUEST, FORBIDDEN, GATEWAY_TIMEOUT, NOT_FOUND};

verus! {

/// The failures of the gateway.
#[derive(Clone, Copy, Debug, PartialEq, Eq)]
pub enum GatewayError {
    /// The configuration cannot be read or understood.
    Config,
    /// A listener cannot bind its port.
    Bind,
    /// Accepting a connection failed.
    Accept,
    /// The TLS handshake with a client failed.
    TlsHandshake,
    /// A client or an upstream sent what is not HTTP.
    Decode,
    /// No virtual host or rule answers the request.
    RouteMiss,
    /// The request names no host.
    NoHostHeader,
    /// The upstream cannot be reached.
    UpstreamDial,
    /// The upstream did not answer in time.
    Timeout,
    /// A certificate could not be obtained.
    Acme,
}

/// How far a failure reaches.
#[derive(Clone, Copy, Debug, PartialEq, Eq)]
pub enum Reach {
    /// The process ends with a nonzero exit code.
    Process,
    /// The worker ends.
    Worker,
    /// The connection is dropped and its session ends.
    Session,
    /// The request is answered with an error; the session goes on.
    Request,
    /// The failure is logged and nothing else happens.
    Logged,
}

impl GatewayError {
    /// How far the failure reaches.
    pub open spec fn reach_spec(self) -> Reach {
        match self {
            GatewayError::Config => Reach::Process,
            GatewayError::Bind => Reach::Worker,
            GatewayError::Accept => Reach::Logged,
            GatewayError::TlsHandshake => Reach::Session,
            GatewayError::Decode => Reach::Session,
            GatewayError::RouteMiss => Reach::Request,
            GatewayError::NoHostHeader => Reach::Request,
            GatewayError::UpstreamDial => Reach::Request,
            GatewayError::Timeout => Reach::Request,
            GatewayError::Acme => Reach::Logged,
        }
    }

    /// The status a client is told, where it is told anything.
    pub open spec fn status_spec(self) -> Option<u16> {
        match self {
            GatewayError::Decode => Some(BAD_REQUEST),
            GatewayError::RouteMiss => Some(NOT_FOUND),
            GatewayError::NoHostHeader => Some(FORBIDDEN),
            GatewayError::UpstreamDial => Some(BAD_GATEWAY),
            GatewayError::Timeout => Some(GATEWAY_TIMEOUT),
            _ => None,
        }
    }

    /// How far the failure reaches.
    pub fn reach(&self) -> (reach: Reach)
        ensures
            reach == self.reach_spec(),
    {
        match self {
            GatewayError::Config => Reach::Process,
            GatewayError::Bind => Reach::Worker,
            GatewayError::Accept => Reach::Logged,
            GatewayError::TlsHandshake => Reach::Session,
            GatewayError::Decode => Reach::Session,
            GatewayError::RouteMiss => Reach::Request,
            GatewayError::NoHostHeader => Reach::Request,
            GatewayError::UpstreamDial => Reach::Request,
            GatewayError::Timeout => Reach::Request,
            GatewayError::Acme => Reach::Logged,
        }
    }

    /// The status a client is told, where it is told anything.
    pub fn status(&self) -> (status: Option<u16>)
        ensures
            status == self.status_spec(),
    {
        match self {
            GatewayError::Decode => Some(BAD_REQUEST),
            GatewayError::RouteMiss => Some(NOT_FOUND),
            GatewayError::NoHostHeader => Some(FORBIDDEN),
            GatewayError::UpstreamDial => Some(BAD_GATEWAY),
            GatewayError::Timeout => Some(GATEWAY_TIMEOUT),
            _ => None,
        }
    }

    /// A short text for the log.
    pub open spec fn text(self) -> Seq<char> {
        match self {
            GatewayError::Config => "configuration cannot be loaded"@,
            GatewayError::Bind => "listener cannot bind"@,
            GatewayError::Accept => "accept failed"@,
            GatewayError::TlsHandshake => "tls handshake failed"@,
            GatewayError::Decode => "malformed http"@,
            GatewayError::RouteMiss => "no route"@,
            GatewayError::NoHostHeader => "no host header"@,
            GatewayError::UpstreamDial => "upstream cannot be reached"@,
            GatewayError::Timeout => "timeout"@,
            GatewayError::Acme => "certificate cannot be obtained"@,
        }
    }

    /// A short text for the log.
    pub fn to_string(&self) -> (text: String)
        ensures
            text@ == self.text(),
    {
        let text = match self {
            GatewayError::Config => "configuration cannot be loaded",
            GatewayError::Bind => "listener cannot bind",
            GatewayError::Accept => "accept failed",
            GatewayError::TlsHandshake => "tls handshake failed",
            GatewayError::Decode => "malformed http",
            GatewayError::RouteMiss => "no route",
            GatewayError::NoHostHeader => "no host header",
            GatewayError::UpstreamDial => "upstream cannot be reached",
            GatewayError::Timeout => "timeout",
            GatewayError::Acme => "certificate cannot be obtained",
        };
        text.to_owned()
    }
}

/// A failure that concerns one request is always answered, and leaves the
/// session alive; only a configuration that cannot be loaded ends the
/// process; and a failure of the certificate client reaches no request.
pub proof fn lemma_reach(error: GatewayError)
    ensures
        error.reach_spec() == Reach::Request ==> error.status_spec() is Some,
        error.reach_spec() == Reach::Process <==> error == GatewayError::Config,
        error.reach_spec() == Reach::Worker <==> error == GatewayError::Bind,
        error == GatewayError::Acme ==> error.reach_spec() == Reach::Logged
            && error.status_spec() is None,
{
}

} // verus!
