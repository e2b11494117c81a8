//! The operators that are layered round a service, and the plans for what
//! only a runtime can carry out: waiting, racing against a timer, dialing.

use vstd::prelude::*;
use vstd::string::StringExecFns;
use core::time::Duration;
use crate::acme::GenericAcme;
use crate::discover::DiscoverChange;
use crate::domain::Domain;
use crate::error::GatewayError;
use crate::message::{field_value_ok, is_field_value, with_field, Request};
use crate::rewrite::{towards, Rewrite};
use crate::service::{Layer, Service};
use crate::text::{bytes_of, decimal, push_decimal};
use crate::version::Type;

verus! {

/// Makes a service out of a value, as `Layer` does out of another service.
pub trait NewService<I> {
    /// The service that comes out.
    type Service;

    /// The service for `inner`.
    fn new_svc(&self, inner: I) -> Self::Service;
}

/// The address a listener for `port` binds: every interface where
/// `allow_lan` is set, the loopback interface otherwise.
pub open spec fn listen_address(port: u16, allow_lan: bool) -> Seq<char> {
    (if allow_lan {
        "0.0.0.0:"@
    } else {
        "127.0.0.1:"@
    }) + decimal(port as nat)
}

/// Binds a port and hands the listener to the inner service.
pub struct TcpListenService<T> {
    pub inner: T,
    pub listen_port: u16,
    pub allow_lan: bool,
}

impl<T> TcpListenService<T> {
    /// The address the listener binds.
    pub fn listen_addr(&self) -> (addr: String)
        ensures
            addr@ == listen_address(self.listen_port, self.allow_lan),
    {
        let mut addr = if self.allow_lan {
            String::from_str("0.0.0.0:")
        } else {
            String::from_str("127.0.0.1:")
        };
        push_decimal(&mut addr, self.listen_port as u64);
        addr
    }
}

/// The layer that listens.
#[derive(Default)]
pub struct TcpListenLayer {
    pub listen_port: u16,
    pub allow_lan: bool,
}

impl TcpListenLayer {
    /// The layer that listens on `listen_port`, on every interface where
    /// `allow_lan` is set.
    pub fn new(listen_port: u16, allow_lan: bool) -> (layer: Self)
        ensures
            layer.listen_port == listen_port,
            layer.allow_lan == allow_lan,
    {
        TcpListenLayer { listen_port, allow_lan }
    }

    /// The layer that listens on `listen_port` on every interface.
    pub fn new_allow_lan(listen_port: u16) -> (layer: Self)
        ensures
            layer.listen_port == listen_port,
            layer.allow_lan,
    {
        TcpListenLayer { listen_port, allow_lan: true }
    }
}

impl<S> Layer<S> for TcpListenLayer {
    type Service = TcpListenService<S>;

    open spec fn wrapped(&self, service: S) -> TcpListenService<S> {
        TcpListenService { inner: service, listen_port: self.listen_port, allow_lan: self.allow_lan }
    }

    fn layer(&self, service: S) -> (out: TcpListenService<S>) {
        TcpListenService { inner: service, listen_port: self.listen_port, allow_lan: self.allow_lan }
    }
}

/// Takes the next connection from a listener.
#[derive(Default, Clone, Copy)]
pub struct TcpAcceptService;

/// The layer that puts accepting in the place of a service.
#[derive(Default)]
pub struct TcpAcceptLayer {}

impl<S> Layer<S> for TcpAcceptLayer {
    type Service = TcpAcceptService;

    open spec fn wrapped(&self, service: S) -> TcpAcceptService {
        TcpAcceptService
    }

    fn layer(&self, _service: S) -> (out: TcpAcceptService) {
        TcpAcceptService
    }
}

/// Asks Let's Encrypt for certificates.
#[derive(Clone, Copy)]
pub struct LetsEncryptService;

impl LetsEncryptService {
    /// The request for a certificate for `server_name`, with `mail` as
    /// contact, from the production directory.
    pub fn order(&self, server_name: String, mail: String) -> (acme: GenericAcme)
        ensures
            acme.server_name() == server_name@,
            acme.contact() == mail@,
            acme.directory() == crate::acme::LETSENCRYPT@,
            acme.tries() == 0,
    {
        GenericAcme::new_lets_encrypt(server_name, mail)
    }
}

/// The name of the header that carries a token.
pub open spec fn authorization_name() -> Seq<u8> {
    bytes_of("authorization"@)
}

/// Whether `after` is `before` with its `Authorization` set to `token`, and
/// nothing else changed.
pub open spec fn is_authorized(before: Request, after: Request, token: Seq<char>) -> bool {
    &&& after.method == before.method
    &&& after.path == before.path
    &&& after.query == before.query
    &&& after.headers@ == with_field(before.headers@, authorization_name(), bytes_of(token))
}

/// Puts a token into the `Authorization` header of every request.
pub struct BearerAuthService {
    pub token: String,
}

impl BearerAuthService {
    /// The operator that sets `Authorization` to `token`.
    pub fn new(token: String) -> (service: Self)
        ensures
            service.token == token,
    {
        BearerAuthService { token }
    }
}

impl Service<Request> for BearerAuthService {
    type Response = Request;

    type Error = GatewayError;

    /// The answer is the request with the token in its `Authorization`
    /// header, or a configuration error where the token cannot stand in a
    /// header.
    open spec fn answers(&self, req: Request, answer: Result<Request, GatewayError>) -> bool {
        if is_field_value(bytes_of(self.token@)) {
            answer matches Ok(out) && is_authorized(req, out, self.token@)
        } else {
            answer == Err::<Request, GatewayError>(GatewayError::Config)
        }
    }

    fn call(&mut self, req: Request) -> (answer: Result<Request, GatewayError>) {
        if !field_value_ok(self.token.as_str().as_bytes()) {
            return Err(GatewayError::Config);
        }
        let mut req = req;
        req.headers.set("authorization".as_bytes(), self.token.as_str().as_bytes());
        Ok(req)
    }
}

/// Holds every request back for a while before it reaches the inner service.
pub struct DelayService<T> {
    pub inner: T,
    pub delay: Duration,
}

/// The layer that delays.
pub struct DelayLayer {
    pub delay: Duration,
}

impl<S> Layer<S> for DelayLayer {
    type Service = DelayService<S>;

    open spec fn wrapped(&self, service: S) -> DelayService<S> {
        DelayService { inner: service, delay: self.delay }
    }

    fn layer(&self, service: S) -> (out: DelayService<S>) {
        DelayService { inner: service, delay: self.delay }
    }
}

impl DelayLayer {
    /// The layer that holds requests back for `delay`.
    pub fn new(delay: Duration) -> (layer: Self)
        ensures
            layer.delay == delay,
    {
        DelayLayer { delay }
    }
}

/// Why a request under a time limit got no answer.
#[derive(Debug, PartialEq, Eq)]
pub enum TimeoutError<E> {
    /// The time ran out first.
    Elapsed,
    /// The inner service failed.
    Inner(E),
}

impl<E> TimeoutError<E> {
    /// The failure as the gateway reports it: a timeout where the time ran
    /// out, which a client is told as 504.
    pub fn elapsed(&self) -> (error: Option<GatewayError>)
        ensures
            error == if *self is Elapsed {
                Some(GatewayError::Timeout)
            } else {
                None::<GatewayError>
            },
    {
        match self {
            TimeoutError::Elapsed => Some(GatewayError::Timeout),
            TimeoutError::Inner(_) => None,
        }
    }
}

/// The answer of a service under a time limit, given how the race between
/// service and timer ended: `None` where the timer won.
pub open spec fn settled<R, E>(raced: Option<Result<R, E>>) -> Result<Option<R>, TimeoutError<E>> {
    match raced {
        Some(Ok(response)) => Ok(Some(response)),
        Some(Err(error)) => Err(TimeoutError::Inner(error)),
        None => Err(TimeoutError::Elapsed),
    }
}

/// Gives the inner service a limited time for every request.
pub struct TimeoutService<T> {
    pub inner: T,
    pub timeout: Duration,
}

impl<T> TimeoutService<T> {
    /// The answer to a request, given how the race between the inner
    /// service and the timer ended: `None` where the timer won.
    pub fn settle<R, E>(&self, raced: Option<Result<R, E>>) -> (answer: Result<
        Option<R>,
        TimeoutError<E>,
    >)
        ensures
            answer == settled(raced),
    {
        match raced {
            Some(Ok(response)) => Ok(Some(response)),
            Some(Err(error)) => Err(TimeoutError::Inner(error)),
            None => Err(TimeoutError::Elapsed),
        }
    }
}

/// The layer that limits time.
pub struct TimeoutLayer {
    pub timeout: Duration,
}

impl<S> Layer<S> for TimeoutLayer {
    type Service = TimeoutService<S>;

    open spec fn wrapped(&self, service: S) -> TimeoutService<S> {
        TimeoutService { inner: service, timeout: self.timeout }
    }

    fn layer(&self, service: S) -> (out: TimeoutService<S>) {
        TimeoutService { inner: service, timeout: self.timeout }
    }
}

impl TimeoutLayer {
    /// The layer that grants `timeout` to every request.
    pub fn new(timeout: Duration) -> (layer: Self)
        ensures
            layer.timeout == timeout,
    {
        TimeoutLayer { timeout }
    }
}

/// Dials a fixed target for every accepted connection and hands both to the
/// inner service.
pub struct DialRemote<T, A> {
    pub inner: T,
    pub target: A,
}

/// The layer that dials.
pub struct DialRemoteLayer<A> {
    pub target: A,
}

impl<A> DialRemoteLayer<A> {
    /// The layer that dials `addr`.
    pub fn new(addr: A) -> (layer: Self)
        ensures
            layer.target == addr,
    {
        DialRemoteLayer { target: addr }
    }
}

impl<S> Layer<S> for DialRemoteLayer<Domain> {
    type Service = DialRemote<S, Domain>;

    open spec fn wrapped(&self, service: S) -> DialRemote<S, Domain> {
        DialRemote { inner: service, target: self.target }
    }

    fn layer(&self, service: S) -> (out: DialRemote<S, Domain>) {
        DialRemote { inner: service, target: self.target.clone() }
    }
}

/// Looks for services, after a pause.
pub struct DiscoverService<D> {
    pub discover: D,
    pub delay: Duration,
}

impl<D> DiscoverService<D> {
    /// What a look for services amounts to: with nothing found, nothing has
    /// changed.
    pub fn settle<K, S, E>(&self, found: Result<Option<DiscoverChange<K, S>>, E>) -> (change:
        Result<DiscoverChange<K, S>, E>)
        ensures
            change == match found {
                Ok(Some(c)) => Ok::<DiscoverChange<K, S>, E>(c),
                Ok(None) => Ok(DiscoverChange::Unchanged),
                Err(e) => Err(e),
            },
    {
        match found {
            Ok(Some(c)) => Ok(c),
            Ok(None) => Ok(DiscoverChange::Unchanged),
            Err(e) => Err(e),
        }
    }
}

/// The endpoint a connection is wanted to.
pub struct EndpointRequestParams<EndPoint> {
    pub endpoint: EndPoint,
}

impl<Endpoint> EndpointRequestParams<Endpoint> {
    /// The wish for a connection to `endpoint`.
    pub fn new(endpoint: Endpoint) -> (params: Self)
        ensures
            params.endpoint == endpoint,
    {
        EndpointRequestParams { endpoint }
    }
}

/// Whether `rustls::ServerName` accepts the text as the name of a server.
pub uninterp spec fn is_server_name(host: Seq<char>) -> bool;

/// Asks `rustls::ServerName`'s `TryFrom<&str>` whether it accepts the text,
/// as a DNS name or an IP address. The contract only gives the answer its
/// name: the same text is always judged alike.
#[verifier::external_body]
fn reads_as_server_name(host: &str) -> (ok: bool)
    ensures
        ok == is_server_name(host@),
{
    rustls::ServerName::try_from(host).is_ok()
}

/// How an upstream is dialed: where the TCP connection goes and, for a
/// secure upstream, the server name of the TLS handshake that follows.
#[derive(Debug, PartialEq, Eq)]
pub struct DialPlan {
    pub target: String,
    pub server_name: Option<String>,
}

/// Whether `plan` is how `endpoint` is dialed: the connection goes to the
/// connect target, and a secure upstream is greeted by its host name.
pub open spec fn is_dial_plan(plan: DialPlan, endpoint: Domain) -> bool {
    &&& plan.target@ == endpoint@.connect_target()
    &&& match plan.server_name {
        Some(name) => endpoint@.scheme == Type::HTTPS && name@ == endpoint@.host,
        None => endpoint@.scheme == Type::HTTP,
    }
}

/// Connects to upstreams.
#[derive(Default, Clone, Copy)]
pub struct ConnectEndpoint;

impl ConnectEndpoint {
    /// How the endpoint is dialed, given whether its host can name a server
    /// in a TLS handshake. A secure upstream whose host cannot is not dialed
    /// at all.
    pub fn plan_checked(&self, req: &EndpointRequestParams<Domain>, name_ok: bool) -> (plan: Result<
        DialPlan,
        GatewayError,
    >)
        ensures
            match plan {
                Ok(p) => is_dial_plan(p, req.endpoint) && (req.endpoint@.scheme == Type::HTTPS
                    ==> name_ok),
                Err(e) => e == GatewayError::UpstreamDial && req.endpoint@.scheme == Type::HTTPS
                    && !name_ok,
            },
    {
        let target = req.endpoint.resolve();
        match req.endpoint.version() {
            Type::HTTP => Ok(DialPlan { target, server_name: None }),
            Type::HTTPS => {
                if name_ok {
                    Ok(DialPlan { target, server_name: Some(req.endpoint.host().to_owned()) })
                } else {
                    Err(GatewayError::UpstreamDial)
                }
            },
        }
    }

    /// How the endpoint is dialed: as `plan_checked` says, with the host
    /// judged by `rustls`.
    pub fn plan(&self, req: &EndpointRequestParams<Domain>) -> (plan: Result<DialPlan, GatewayError>)
        ensures
            match plan {
                Ok(p) => is_dial_plan(p, req.endpoint) && (req.endpoint@.scheme == Type::HTTPS
                    ==> is_server_name(req.endpoint@.host)),
                Err(e) => e == GatewayError::UpstreamDial && req.endpoint@.scheme == Type::HTTPS
                    && !is_server_name(req.endpoint@.host),
            },
    {
        let name_ok = match req.endpoint.version() {
            Type::HTTP => true,
            Type::HTTPS => reads_as_server_name(req.endpoint.host()),
        };
        self.plan_checked(req, name_ok)
    }
}

/// A service that is content with every request.
#[derive(Clone, Copy)]
pub struct ProxyService;

impl<R> Service<R> for ProxyService {
    type Response = ();

    type Error = GatewayError;

    open spec fn answers(&self, req: R, answer: Result<(), GatewayError>) -> bool {
        answer is Ok
    }

    fn call(&mut self, req: R) -> (answer: Result<(), GatewayError>) {
        Ok(())
    }
}

/// Whether `after` is `before` on its way to `remote`: the `Host` names the
/// upstream, and nothing else has changed.
pub open spec fn is_forwarded(before: Request, after: Request, remote: Domain) -> bool {
    &&& after.method == before.method
    &&& after.path == before.path
    &&& after.query == before.query
    &&& after.headers@ == towards(before.headers@, remote@.authority())
}

/// Rewrites the `Host` of a request to the upstream it goes to, before the
/// inner service sees it.
pub struct RewriteService<T> {
    pub inner: T,
}

impl<T> Service<(Request, Domain)> for RewriteService<T> where T: Service<(Request, Domain)> {
    type Response = T::Response;

    type Error = T::Error;

    /// The answer is one that the inner service gives to the rewritten
    /// request.
    open spec fn answers(&self, req: (Request, Domain), answer: Result<T::Response, T::Error>)
        -> bool {
        exists|sent: Request|
            is_forwarded(req.0, sent, req.1) && #[trigger] self.inner.answers((sent, req.1), answer)
    }

    fn call(&mut self, req: (Request, Domain)) -> (answer: Result<T::Response, T::Error>) {
        let (mut request, endpoint) = req;
        Rewrite::rewrite_request(&mut request, &endpoint);
        let ghost sent = request;
        let answer = self.inner.call((request, endpoint));
        assert(is_forwarded(req.0, sent, req.1) && old(self).inner.answers((sent, req.1), answer));
        answer
    }
}

/// The layer that rewrites.
#[derive(Default)]
pub struct RewriteLayer;

impl<S> Layer<S> for RewriteLayer {
    type Service = RewriteService<S>;

    open spec fn wrapped(&self, service: S) -> RewriteService<S> {
        RewriteService { inner: service }
    }

    fn layer(&self, service: S) -> (out: RewriteService<S>) {
        RewriteService { inner: service }
    }
}

} // verus!
