//! What the gateway does with one request: answer it itself, hand it to the
//! challenge responder, or forward it to the upstream of a rule.

use vstd::prelude::*;
use crate::message::{value_of, Request, BAD_REQUEST, FORBIDDEN, NOT_FOUND};
use crate::rewrite::host_name;
use crate::router::{
    host_of, longest_match, matched, prefixes, selected, Router, RouterConfig, RouterRule,
    ACME_URI_PREFIX,
};
use crate::text::{bytes_of, text_starts_with};

verus! {

/// Paths below this prefix ask for the proof of a certificate challenge.
pub const ACME_CHALLENGE_PREFIX: &'static str = "/.well-known/acme-challenge/";

/// Whether `http::uri::Authority` accepts the bytes as an authority.
pub uninterp spec fn is_authority(text: Seq<u8>) -> bool;

/// Asks `http::uri::Authority`'s `TryFrom<&[u8]>` whether it accepts the
/// bytes. The contract only gives the answer its name: the same bytes are
/// always judged alike.
#[verifier::external_body]
fn reads_as_authority(text: &[u8]) -> (ok: bool)
    ensures
        ok == is_authority(text@),
{
    http::uri::Authority::try_from(text).is_ok()
}

/// What is done with a request, in a contract. Virtual hosts and rules are
/// given by their position.
pub enum Decision {
    /// The gateway answers itself, with this status and no body.
    Respond(u16),
    /// The challenge responder answers for this virtual host and token.
    Challenge { host: int, token: Seq<u8> },
    /// The request goes to the upstream of this rule of this virtual host.
    Forward { host: int, rule: int },
}

/// A challenge token: the rest of the path, where it is a single segment.
pub open spec fn token_of(path: Seq<u8>) -> Option<Seq<u8>> {
    let prefix = bytes_of(ACME_CHALLENGE_PREFIX@);
    if prefix.is_prefix_of(path) && path.len() > prefix.len() && !path.skip(
        prefix.len() as int,
    ).contains(47u8) {
        Some(path.skip(prefix.len() as int))
    } else {
        None
    }
}

/// What is done with a request that arrived on `port` with the `Host` value
/// `host` and the path `path`. `host_valid` says whether the `Host` value
/// reads as an authority.
///
/// Without `Host` the answer is 403. A `Host` that is no authority, or that
/// no virtual host on the port answers to, gives 404. Below `/.well-known`
/// no rule is consulted: a challenge path on a virtual host with TLS goes to
/// the challenge responder, everything else there is 404. Otherwise the rule
/// that `longest_match` finds decides, and 404 is the answer where it finds
/// none.
pub open spec fn decide<A>(
    configs: Seq<RouterConfig<A>>,
    port: u16,
    host: Option<Seq<u8>>,
    host_valid: bool,
    path: Seq<u8>,
) -> Decision {
    match host {
        None => Decision::Respond(FORBIDDEN),
        Some(name) => if !host_valid {
            Decision::Respond(NOT_FOUND)
        } else {
            match host_of(configs, port, name) {
                None => Decision::Respond(NOT_FOUND),
                Some(h) => if bytes_of(ACME_URI_PREFIX@).is_prefix_of(path) {
                    match token_of(path) {
                        Some(token) => if configs[h].tls is Some {
                            Decision::Challenge { host: h, token }
                        } else {
                            Decision::Respond(NOT_FOUND)
                        },
                        None => Decision::Respond(NOT_FOUND),
                    }
                } else {
                    match matched(prefixes(configs[h].rules@), path) {
                        Some(r) => Decision::Forward { host: h, rule: r },
                        None => Decision::Respond(NOT_FOUND),
                    }
                },
            }
        },
    }
}

/// Every request gets exactly one of three treatments, and which one is a
/// function of the table, the port and the request alone.
pub proof fn lemma_one_treatment<A>(
    configs: Seq<RouterConfig<A>>,
    port: u16,
    host: Option<Seq<u8>>,
    host_valid: bool,
    path: Seq<u8>,
)
    ensures
        ({
            let d = decide(configs, port, host, host_valid, path);
            &&& (d is Respond || d is Challenge || d is Forward)
            &&& !(d is Respond && d is Challenge)
            &&& !(d is Respond && d is Forward)
            &&& !(d is Challenge && d is Forward)
            &&& d is Respond ==> d->Respond_0 == FORBIDDEN || d->Respond_0 == NOT_FOUND
        }),
{
}

/// A request without `Host` is answered with 403; one whose `Host` no
/// virtual host on the port answers to is answered with 404.
pub proof fn lemma_unknown_host<A>(
    configs: Seq<RouterConfig<A>>,
    port: u16,
    host: Option<Seq<u8>>,
    host_valid: bool,
    path: Seq<u8>,
)
    ensures
        host is None ==> decide(configs, port, host, host_valid, path) == Decision::Respond(
            FORBIDDEN,
        ),
        host matches Some(name) && host_of(configs, port, name) is None ==> decide(
            configs,
            port,
            host,
            host_valid,
            path,
        ) == Decision::Respond(NOT_FOUND),
{
}

/// A request is forwarded only to the rule that its path selects among the
/// rules of the virtual host its `Host` names, and is handed to the
/// challenge responder only on a virtual host with TLS.
pub proof fn lemma_forward_is_selected<A>(
    configs: Seq<RouterConfig<A>>,
    port: u16,
    host: Option<Seq<u8>>,
    host_valid: bool,
    path: Seq<u8>,
)
    ensures
        decide(configs, port, host, host_valid, path) matches Decision::Forward { host: h, rule: r }
            ==> host is Some && host_of(configs, port, host.unwrap()) == Some(h) && selected(
            prefixes(configs[h].rules@),
            path,
        ) == Some(r) && !bytes_of(ACME_URI_PREFIX@).is_prefix_of(path),
        decide(configs, port, host, host_valid, path) matches Decision::Challenge {
            host: h,
            token,
        } ==> host is Some && host_of(configs, port, host.unwrap()) == Some(h)
            && configs[h].tls is Some && token_of(path) == Some(token),
{
}

/// What is done with a request. Virtual host and rule are handed out as they
/// stand in the table.
pub enum Routed<'a, A> {
    /// Answer with this status and no body.
    Respond(u16),
    /// Let the challenge responder answer for this virtual host and token.
    Challenge { host: &'a RouterConfig<A>, token: Vec<u8> },
    /// Forward to the upstream of this rule of this virtual host.
    Forward { host: &'a RouterConfig<A>, rule: &'a RouterRule<A> },
}

impl<'a, A> Routed<'a, A> {
    /// The status the gateway answers with itself, where it does.
    pub open spec fn status(self) -> Option<u16> {
        match self {
            Routed::Respond(status) => Some(status),
            _ => None,
        }
    }

    /// Whether this is the decision `decision` over the table `configs`.
    pub open spec fn agrees(self, decision: Decision, configs: Seq<RouterConfig<A>>) -> bool {
        match decision {
            Decision::Respond(status) => self matches Routed::Respond(s) && s == status,
            Decision::Challenge { host: h, token: t } => self matches Routed::Challenge {
                host,
                token,
            } && 0 <= h < configs.len() && *host == configs[h] && token@ == t,
            Decision::Forward { host: h, rule: r } => self matches Routed::Forward { host, rule }
                && 0 <= h < configs.len() && *host == configs[h] && 0 <= r
                < configs[h].rules.len() && *rule == configs[h].rules[r],
        }
    }
}

/// The bytes of `bytes` from position `from` on.
fn tail(bytes: &[u8], from: usize) -> (rest: Vec<u8>)
    requires
        from <= bytes.len(),
    ensures
        rest@ == bytes@.skip(from as int),
{
    let mut rest: Vec<u8> = Vec::new();
    let mut i: usize = from;
    while i < bytes.len()
        invariant
            from <= i <= bytes.len(),
            rest@ == bytes@.subrange(from as int, i as int),
        decreases bytes.len() - i,
    {
        rest.push(bytes[i]);
        assert(rest@ =~= bytes@.subrange(from as int, i + 1));
        i += 1;
    }
    assert(rest@ =~= bytes@.skip(from as int));
    rest
}

/// Whether `bytes` holds `byte` at or after position `from`.
fn holds_from(bytes: &[u8], from: usize, byte: u8) -> (yes: bool)
    requires
        from <= bytes.len(),
    ensures
        yes == bytes@.skip(from as int).contains(byte),
{
    let mut i: usize = from;
    let ghost rest = bytes@.skip(from as int);
    while i < bytes.len()
        invariant
            from <= i <= bytes.len(),
            rest == bytes@.skip(from as int),
            forall|k: int| 0 <= k < i - from ==> rest[k] != byte,
        decreases bytes.len() - i,
    {
        if bytes[i] == byte {
            assert(rest[i - from] == byte);
            return true;
        }
        i += 1;
    }
    false
}

/// The challenge token that `path` asks for, if it asks for one.
pub fn challenge_token(path: &str) -> (token: Option<Vec<u8>>)
    ensures
        match token {
            Some(t) => token_of(bytes_of(path@)) == Some(t@),
            None => token_of(bytes_of(path@)) is None,
        },
{
    let bytes = path.as_bytes();
    let prefix = ACME_CHALLENGE_PREFIX.as_bytes();
    if text_starts_with(path, ACME_CHALLENGE_PREFIX) && bytes.len() > prefix.len() && !holds_from(
        bytes,
        prefix.len(),
        47u8,
    ) {
        Some(tail(bytes, prefix.len()))
    } else {
        None
    }
}

/// What a session learns from the client side of its connection.
pub enum ClientEvent {
    /// The head of the next request.
    Request(Request),
    /// What arrived is no HTTP request. `headers_seen` says whether at least
    /// the header section of a request had come in.
    Malformed { headers_seen: bool },
    /// The client has closed the connection.
    Closed,
}

/// What a session does next.
pub enum SessionAction<'a, A> {
    /// Treat the request as decided; the session goes on.
    Route(Routed<'a, A>),
    /// Answer with this status, then end the session.
    Reject(u16),
    /// End the session.
    End,
}

impl<'a, A> SessionAction<'a, A> {
    /// Whether the action is to treat a request as `decision` says.
    pub open spec fn is_routing(self, decision: Decision, configs: Seq<RouterConfig<A>>) -> bool {
        match self {
            SessionAction::Route(routed) => routed.agrees(decision, configs),
            _ => false,
        }
    }

    /// The status the request is answered with by the gateway itself, where
    /// it is.
    pub open spec fn status(self) -> Option<u16> {
        match self {
            SessionAction::Route(routed) => routed.status(),
            _ => None,
        }
    }

    /// Whether the request is forwarded.
    pub open spec fn forwards(self) -> bool {
        match self {
            SessionAction::Route(routed) => routed is Forward,
            _ => false,
        }
    }

    /// The status the session ends with, where it ends with one.
    pub open spec fn rejects(self) -> Option<u16> {
        match self {
            SessionAction::Reject(status) => Some(status),
            _ => None,
        }
    }
}

/// The router of one listening port.
pub struct RouterService<'r, A> {
    routes: &'r Router<A>,
    port: u16,
}

impl<'r, A> RouterService<'r, A> {
    /// The table the service routes by.
    pub closed spec fn table(&self) -> Seq<RouterConfig<A>> {
        self.routes.hosts()
    }

    /// The port the service answers on.
    pub closed spec fn listen_port(&self) -> u16 {
        self.port
    }

    /// The decision for `request`, given whether its `Host` reads as an
    /// authority.
    pub open spec fn decision(&self, request: Request, host_valid: bool) -> Decision {
        decide(
            self.table(),
            self.listen_port(),
            value_of(request.headers@, host_name()),
            host_valid,
            bytes_of(request.path@),
        )
    }

    /// Whether the `Host` of `request` reads as an authority.
    pub open spec fn host_reads(request: Request) -> bool {
        match value_of(request.headers@, host_name()) {
            Some(name) => is_authority(name),
            None => false,
        }
    }

    /// Whether `request` names a host that no virtual host on the port of
    /// the service answers to.
    pub open spec fn host_is_unknown(&self, request: Request) -> bool {
        match value_of(request.headers@, host_name()) {
            Some(name) => host_of(self.table(), self.listen_port(), name) is None,
            None => false,
        }
    }

    /// Whether the path of `request` lies below `/.well-known`.
    pub open spec fn asks_well_known(request: Request) -> bool {
        bytes_of(ACME_URI_PREFIX@).is_prefix_of(bytes_of(request.path@))
    }

    /// The router for the requests that arrive on `port`.
    pub fn new(routes: &'r Router<A>, port: u16) -> (service: Self)
        ensures
            service.table() == routes.hosts(),
            service.listen_port() == port,
    {
        RouterService { routes, port }
    }

    /// The port the service answers on.
    pub fn port(&self) -> (port: u16)
        ensures
            port == self.listen_port(),
    {
        self.port
    }

    /// Decides what is done with `request`, given whether its `Host` reads
    /// as an authority.
    ///
    /// A request without `Host` is answered with 403, whatever its path and
    /// the rules are. One whose `Host` no virtual host on the port answers
    /// to is answered with 404. A path below `/.well-known` is never
    /// forwarded, and nothing but such a path goes to the challenge
    /// responder.
    pub fn route_checked(&self, request: &Request, host_valid: bool) -> (routed: Routed<'r, A>)
        ensures
            routed.agrees(self.decision(*request, host_valid), self.table()),
            !host_valid ==> routed.status() is Some,
            value_of(request.headers@, host_name()) is None ==> routed.status() == Some(FORBIDDEN),
            self.host_is_unknown(*request) ==> routed.status() == Some(NOT_FOUND),
            Self::asks_well_known(*request) ==> !(routed is Forward),
            routed is Challenge ==> Self::asks_well_known(*request),
            routed.status() is Some ==> routed.status() == Some(FORBIDDEN) || routed.status()
                == Some(NOT_FOUND),
    {
        let host = match request.headers.get("host".as_bytes()) {
            Some(h) => h,
            None => {
                return Routed::Respond(FORBIDDEN);
            },
        };
        if !host_valid {
            return Routed::Respond(NOT_FOUND);
        }
        let h = match self.routes.find(self.port, host.as_slice()) {
            Some(h) => h,
            None => {
                return Routed::Respond(NOT_FOUND);
            },
        };
        let config = match self.routes.get(h) {
            Some(c) => c,
            None => {
                return Routed::Respond(NOT_FOUND);
            },
        };
        if text_starts_with(request.path.as_str(), ACME_URI_PREFIX) {
            match challenge_token(request.path.as_str()) {
                Some(token) => {
                    if config.tls.is_some() {
                        Routed::Challenge { host: config, token }
                    } else {
                        Routed::Respond(NOT_FOUND)
                    }
                },
                None => Routed::Respond(NOT_FOUND),
            }
        } else {
            match longest_match(request.path.as_str(), &config.rules) {
                Some(rule) => Routed::Forward { host: config, rule },
                None => Routed::Respond(NOT_FOUND),
            }
        }
    }

    /// Decides what is done with `request`: as `route_checked` does, with
    /// the `Host` value judged by the `http` crate.
    pub fn route(&self, request: &Request) -> (routed: Routed<'r, A>)
        ensures
            routed.agrees(self.decision(*request, Self::host_reads(*request)), self.table()),
            value_of(request.headers@, host_name()) is None ==> routed.status() == Some(FORBIDDEN),
            self.host_is_unknown(*request) ==> routed.status() == Some(NOT_FOUND),
            Self::asks_well_known(*request) ==> !(routed is Forward),
            routed is Challenge ==> Self::asks_well_known(*request),
            routed.status() is Some ==> routed.status() == Some(FORBIDDEN) || routed.status()
                == Some(NOT_FOUND),
    {
        let host_valid = match request.headers.get("host".as_bytes()) {
            Some(name) => reads_as_authority(name.as_slice()),
            None => false,
        };
        self.route_checked(request, host_valid)
    }

    /// What the session does when `event` comes from the client. Every
    /// request is routed, so that exactly one thing is done with it: the
    /// gateway answers it itself, the challenge responder answers it, or it
    /// is forwarded. After something that is no request the session ends,
    /// with a 400 where at least a header section had arrived; when the
    /// client has closed, the session ends.
    pub fn call(&self, event: &ClientEvent) -> (action: SessionAction<'r, A>)
        ensures
            match *event {
                ClientEvent::Request(request) => action.is_routing(
                    self.decision(request, Self::host_reads(request)),
                    self.table(),
                ),
                ClientEvent::Malformed { headers_seen } => if headers_seen {
                    action.rejects() == Some(BAD_REQUEST)
                } else {
                    action is End
                },
                ClientEvent::Closed => action is End,
            },
            match *event {
                ClientEvent::Request(request) => {
                    &&& action is Route
                    &&& value_of(request.headers@, host_name()) is None ==> action.status() == Some(
                        FORBIDDEN,
                    )
                    &&& self.host_is_unknown(request) ==> action.status() == Some(NOT_FOUND)
                    &&& Self::asks_well_known(request) ==> !action.forwards()
                },
                _ => !(action is Route),
            },
    {
        match event {
            ClientEvent::Request(request) => SessionAction::Route(self.route(request)),
            ClientEvent::Malformed { headers_seen } => {
                if *headers_seen {
                    SessionAction::Reject(BAD_REQUEST)
                } else {
                    SessionAction::End
                }
            },
            ClientEvent::Closed => SessionAction::End,
        }
    }
}

} // verus!
