//! The relay between a client and an upstream: what is sent on, what is
//! handed back, and when the relay ends.

use vstd::prelude::*;
use crate::domain::Domain;
use crate::layers::is_forwarded;
use crate::message::{value_of, Request, Response};
use crate::rewrite::{back_to, host_name, lemma_back_to, Rewrite};
use crate::text::{bytes_of, same_name};

verus! {

/// What the reader of an upstream connection learns.
pub enum UpstreamEvent {
    /// The head of the next response.
    Response(Response),
    /// The upstream sent what is no HTTP response.
    Malformed,
    /// The upstream has closed the connection.
    Closed,
    /// The session of the client has ended.
    Cancelled,
}

/// What the reader of an upstream connection does next.
pub enum RelayAction {
    /// Hand the response to the client and read on.
    Deliver(Response),
    /// Stop reading: take the connection out of the pool and close the
    /// side of the client.
    Shutdown,
}

/// Whether `action` is what the reader does on `event` for a client that
/// knows the gateway as `client`, the authority it sent as `Host`: a
/// response is handed back with its status, and with its `Host` rewritten
/// towards the client where it has one; anything else ends the relay.
pub open spec fn is_relay_action(action: RelayAction, event: UpstreamEvent, client: Seq<char>)
    -> bool {
    match event {
        UpstreamEvent::Response(response) => action matches RelayAction::Deliver(out) && out.status
            == response.status && out.headers@ == back_to(response.headers@, client),
        _ => action is Shutdown,
    }
}

/// A response that carries no `Host` reaches the client with the status and
/// the header fields it came with; one that carries a `Host` reaches it with
/// the client's authority there and every other field as it came.
pub proof fn lemma_relayed_response(
    action: RelayAction,
    response: Response,
    client: Seq<char>,
    other: Seq<u8>,
)
    requires
        is_relay_action(action, UpstreamEvent::Response(response), client),
    ensures
        action is Deliver,
        action->Deliver_0.status == response.status,
        value_of(response.headers@, host_name()) is None ==> action->Deliver_0.headers@
            == response.headers@,
        value_of(response.headers@, host_name()) is Some ==> value_of(
            action->Deliver_0.headers@,
            host_name(),
        ) == Some(bytes_of(client)),
        !same_name(host_name(), other) ==> value_of(action->Deliver_0.headers@, other) == value_of(
            response.headers@,
            other,
        ),
{
    lemma_back_to(response.headers@, client, other);
}

/// The request as it is sent on to `remote`: its `Host` names the upstream.
pub fn forward_request(request: Request, remote: &Domain) -> (sent: Request)
    ensures
        is_forwarded(request, sent, *remote),
{
    let mut sent = request;
    Rewrite::rewrite_request(&mut sent, remote);
    sent
}

/// What the reader of an upstream connection does on `event`, for a client
/// that knows the gateway as `client`, the authority it sent as `Host`.
pub fn on_upstream(event: UpstreamEvent, client: &str) -> (action: RelayAction)
    ensures
        is_relay_action(action, event, client@),
{
    match event {
        UpstreamEvent::Response(response) => {
            let mut out = response;
            Rewrite::rewrite_response_to(&mut out, client);
            RelayAction::Deliver(out)
        },
        _ => RelayAction::Shutdown,
    }
}

/// One side of a transfer: whether the gateway is server or client on it,
/// whether it is secured, and the address it stands for.
pub enum TransferParamsType<A> {
    ServerTls(A),
    ClientTls(A),
    ServerHttp(A),
    ClientHttp(A),
}

impl<A> TransferParamsType<A> {
    /// Whether the gateway is the server on this side.
    pub open spec fn is_server(self) -> bool {
        self is ServerTls || self is ServerHttp
    }

    /// The address of the side.
    pub open spec fn address(self) -> A {
        match self {
            TransferParamsType::ServerTls(a) => a,
            TransferParamsType::ClientTls(a) => a,
            TransferParamsType::ServerHttp(a) => a,
            TransferParamsType::ClientHttp(a) => a,
        }
    }
}

/// The two sides of a transfer, and a request that was read before the
/// transfer began.
pub struct TransferParams<A> {
    pub local: TransferParamsType<A>,
    pub remote: TransferParamsType<A>,
    pub local_req: Option<Request>,
}

impl<A> TransferParams<A> {
    /// The transfer between `local` and `remote`.
    pub fn new(
        local: TransferParamsType<A>,
        remote: TransferParamsType<A>,
        local_req: Option<Request>,
    ) -> (params: Self)
        ensures
            params.local == local,
            params.remote == remote,
            params.local_req == local_req,
    {
        TransferParams { local, remote, local_req }
    }
}

/// What a transfer does.
pub enum TransferPlan<A> {
    /// The sides do not fit: nothing is relayed.
    Idle,
    /// Send `first` to the upstream where there is one, then relay requests
    /// towards `upstream` and responses towards `client`.
    Relay { first: Option<Request>, client: A, upstream: A },
}

/// The plan for a transfer: there is something to relay exactly where the
/// gateway is server on the local side and client on the remote side.
pub open spec fn transfer_plan_of<A>(params: TransferParams<A>) -> TransferPlan<A> {
    if params.local.is_server() && !params.remote.is_server() {
        TransferPlan::Relay {
            first: params.local_req,
            client: params.local.address(),
            upstream: params.remote.address(),
        }
    } else {
        TransferPlan::Idle
    }
}

/// Relays HTTP between a client and an upstream.
#[derive(Default, Clone, Copy)]
pub struct HttpTransferService;

impl HttpTransferService {
    /// What the transfer `req` does.
    pub fn plan<A>(&self, req: TransferParams<A>) -> (plan: TransferPlan<A>)
        ensures
            plan == transfer_plan_of(req),
    {
        let TransferParams { local, remote, local_req } = req;
        let client = match local {
            TransferParamsType::ServerTls(a) => Some(a),
            TransferParamsType::ServerHttp(a) => Some(a),
            _ => None,
        };
        let upstream = match remote {
            TransferParamsType::ClientTls(a) => Some(a),
            TransferParamsType::ClientHttp(a) => Some(a),
            _ => None,
        };
        match (client, upstream) {
            (Some(client), Some(upstream)) => TransferPlan::Relay {
                first: local_req,
                client,
                upstream,
            },
            _ => TransferPlan::Idle,
        }
    }
}

/// Relays bytes between two TCP connections.
#[derive(Default, Clone, Copy)]
pub struct TcpTransferService;

} // verus!
