//! One gateway per listening port: how its listener binds, how a session on
//! it begins, and where the certificates of its virtual hosts come from.

use vstd::prelude::*;
use vstd::string::StringExecFns;
use crate::domain::Domain;
use crate::error::GatewayError;
use crate::router::{all_ports, listened, once, Router, RouterConfig};
use crate::routing::RouterService;
use crate::ssl::{material, update_certificate, CertificateStore};
use crate::text::{decimal, push_decimal};
use crate::version::Type;

verus! {

/// Seconds granted to the TLS handshake with a client.
pub const HANDSHAKE_TIMEOUT: u64 = 10;

/// Where the certificate of a virtual host comes from.
#[derive(Debug, PartialEq, Eq)]
pub enum CertificatePlan<'c> {
    /// The virtual host speaks no TLS.
    NotNeeded,
    /// Chain and key lie in these files and are loaded at startup.
    Provided { chain: &'c str, private_key: &'c str },
    /// The certificate is obtained by ACME for this server name, with this
    /// contact.
    Acme { server_name: &'c str, mail: &'c str },
}

/// Whether `plan` is the plan for `config`. A virtual host with both files
/// configured has them loaded; one with TLS but without both files gets its
/// certificate by ACME; one without TLS needs none, and must not claim to
/// speak HTTPS.
pub open spec fn is_plan<A>(plan: Result<CertificatePlan, GatewayError>, config: RouterConfig<A>)
    -> bool {
    match config.tls {
        Some(tls) => match (tls.chain, tls.private_key) {
            (Some(c), Some(k)) => plan matches Ok(CertificatePlan::Provided { chain, private_key })
                && chain@ == c@ && private_key@ == k@,
            _ => plan matches Ok(CertificatePlan::Acme { server_name, mail }) && server_name@
                == config.server_name@ && mail@ == tls.mail@,
        },
        None => if config.protocol == Type::HTTPS {
            plan == Err::<CertificatePlan, GatewayError>(GatewayError::Config)
        } else {
            plan == Ok::<CertificatePlan, GatewayError>(CertificatePlan::NotNeeded)
        },
    }
}

/// The gateway of one listening port.
pub struct Gateway<'r, Addr> {
    router: &'r Router<Addr>,
    port: u16,
}

/// The ports of a list of gateways.
pub open spec fn ports_of<Addr>(gateways: Seq<Gateway<Addr>>) -> Seq<u16> {
    gateways.map_values(|g: Gateway<Addr>| g.listen_port())
}

impl<'r, Addr> Gateway<'r, Addr> {
    /// The port the gateway listens on.
    pub closed spec fn listen_port(&self) -> u16 {
        self.port
    }

    /// The virtual hosts the gateway routes among.
    pub closed spec fn table(&self) -> Seq<RouterConfig<Addr>> {
        self.router.hosts()
    }

    /// The gateway that serves the table `config` on `port`.
    pub fn new(config: &'r Router<Addr>, port: u16) -> (gateway: Self)
        ensures
            gateway.listen_port() == port,
            gateway.table() == config.hosts(),
    {
        Gateway { router: config, port }
    }

    /// One gateway for each port that a virtual host of the table listens
    /// on, and no port twice; the gateways stand in the order in which the
    /// configuration names their ports first.
    pub fn from_router(router: &'r Router<Addr>) -> (gateways: Vec<Gateway<'r, Addr>>)
        ensures
            ports_of(gateways@) == once(all_ports(router.hosts())),
            ports_of(gateways@).no_duplicates(),
            forall|p: u16| ports_of(gateways@).contains(p) <==> listened(router.hosts(), p),
            forall|i: int|
                0 <= i < gateways.len() ==> (#[trigger] gateways[i]).table() == router.hosts(),
    {
        let ports = router.ports();
        let mut gateways: Vec<Gateway<'r, Addr>> = Vec::new();
        let mut k: usize = 0;
        while k < ports.len()
            invariant
                k <= ports.len(),
                gateways.len() == k,
                forall|i: int|
                    0 <= i < k ==> (#[trigger] gateways[i]).table() == router.hosts()
                        && gateways[i].listen_port() == ports[i],
            decreases ports.len() - k,
        {
            gateways.push(Gateway::new(router, ports[k]));
            k += 1;
        }
        assert(ports_of(gateways@) =~= ports@);
        gateways
    }

    /// The port the gateway listens on.
    pub fn port(&self) -> (port: u16)
        ensures
            port == self.listen_port(),
    {
        self.port
    }

    /// The router for the requests that arrive on the port of the gateway.
    pub fn service(&self) -> (service: RouterService<'r, Addr>)
        ensures
            service.table() == self.table(),
            service.listen_port() == self.listen_port(),
    {
        RouterService::new(self.router, self.port)
    }

    /// Where the certificate of the virtual host `config` comes from.
    pub fn configure_cert<'c>(config: &'c RouterConfig<Addr>) -> (plan: Result<
        CertificatePlan<'c>,
        GatewayError,
    >)
        ensures
            is_plan(plan, *config),
    {
        match &config.tls {
            Some(tls) => match (&tls.chain, &tls.private_key) {
                (Some(c), Some(k)) => Ok(
                    CertificatePlan::Provided { chain: c.as_str(), private_key: k.as_str() },
                ),
                _ => Ok(
                    CertificatePlan::Acme {
                        server_name: config.server_name.as_str(),
                        mail: tls.mail.as_str(),
                    },
                ),
            },
            None => match config.protocol {
                Type::HTTPS => Err(GatewayError::Config),
                Type::HTTP => Ok(CertificatePlan::NotNeeded),
            },
        }
    }
}

/// How the certificate client starts for a server name.
#[derive(Clone, Copy, Debug, PartialEq, Eq)]
pub enum AcmeStart {
    /// The certificate kept on disk is installed; nothing is to be obtained.
    Ready,
    /// A certificate has to be obtained in the background.
    Acquire,
}

/// Starts the certificate client for `server_name`, given what the workspace
/// holds of an earlier run. Where chain and key are both there and are
/// installed, nothing is to be obtained; in every other case the store stays
/// as it is and a certificate has to be obtained.
pub fn start_acme(
    store: &mut CertificateStore,
    server_name: &str,
    cached_chain: Option<&[u8]>,
    cached_key: Option<&[u8]>,
) -> (start: AcmeStart)
    ensures
        start == AcmeStart::Acquire ==> final(store)@ == old(store)@,
        start == AcmeStart::Ready ==> cached_chain is Some && cached_key is Some,
        start == AcmeStart::Ready ==> material(cached_chain.unwrap()@, cached_key.unwrap()@)
            is Some,
        start == AcmeStart::Ready ==> final(store)@ == old(store)@.insert(
            server_name@,
            material(cached_chain.unwrap()@, cached_key.unwrap()@).unwrap(),
        ),
        cached_chain is None || cached_key is None ==> start == AcmeStart::Acquire,
{
    match (cached_chain, cached_key) {
        (Some(chain), Some(key)) => {
            if update_certificate(store, server_name, chain, key) {
                AcmeStart::Ready
            } else {
                AcmeStart::Acquire
            }
        },
        _ => AcmeStart::Acquire,
    }
}

/// How a session begins on a connection of a given kind.
#[derive(Clone, Copy, Debug, PartialEq, Eq)]
pub struct SessionPlan {
    /// Whether TLS is terminated before the first request is read.
    pub terminate_tls: bool,
    /// The seconds granted to the handshake, where there is one.
    pub handshake_timeout: Option<u64>,
}

/// The plan for a connection of kind `kind`: a secure one is terminated,
/// with ten seconds for the handshake; a plain one goes to the router as it
/// is.
pub open spec fn session_plan_of(kind: Type) -> SessionPlan {
    match kind {
        Type::HTTPS => SessionPlan {
            terminate_tls: true,
            handshake_timeout: Some(HANDSHAKE_TIMEOUT),
        },
        Type::HTTP => SessionPlan { terminate_tls: false, handshake_timeout: None },
    }
}

/// The HTTP proxy of one listening port.
pub struct HttpProxy<'r> {
    router: &'r Router<Domain>,
    port: u16,
}

impl<'r> HttpProxy<'r> {
    /// The port the proxy listens on.
    pub closed spec fn listen_port(&self) -> u16 {
        self.port
    }

    /// The virtual hosts the proxy routes among.
    pub closed spec fn table(&self) -> Seq<RouterConfig<Domain>> {
        self.router.hosts()
    }

    /// The proxy that serves the table `config` on `port`.
    pub fn build_with_config(config: &'r Router<Domain>, port: u16) -> (proxy: Self)
        ensures
            proxy.listen_port() == port,
            proxy.table() == config.hosts(),
    {
        HttpProxy { router: config, port }
    }

    /// The port the proxy listens on.
    pub fn get_listen_port(&self) -> (port: Option<u16>)
        ensures
            port == Some(self.listen_port()),
    {
        Some(self.port)
    }

    /// The address the listener binds: the port on every interface.
    pub fn listen_addr(&self) -> (addr: String)
        ensures
            addr@ == "0.0.0.0:"@ + decimal(self.listen_port() as nat),
    {
        let mut addr = String::from_str("0.0.0.0:");
        push_decimal(&mut addr, self.port as u64);
        addr
    }

    /// The router for the requests that arrive on the port of the proxy.
    pub fn service(&self) -> (service: RouterService<'r, Domain>)
        ensures
            service.table() == self.table(),
            service.listen_port() == self.listen_port(),
    {
        RouterService::new(self.router, self.port)
    }

    /// How a session begins on a connection that the detector found to be
    /// of kind `kind`.
    pub fn session_plan(&self, kind: Type) -> (plan: SessionPlan)
        ensures
            plan == session_plan_of(kind),
    {
        match kind {
            Type::HTTPS => SessionPlan {
                terminate_tls: true,
                handshake_timeout: Some(HANDSHAKE_TIMEOUT),
            },
            Type::HTTP => SessionPlan { terminate_tls: false, handshake_timeout: None },
        }
    }
}

/// Something that serves until it is told to stop or fails.
pub trait Servable {
    /// Whether `outcome` is a way in which serving may end. Unless an
    /// implementation says more, every outcome is.
    open spec fn served(&self, outcome: Result<(), GatewayError>) -> bool {
        true
    }

    /// Serves.
    fn serve(&self) -> (outcome: Result<(), GatewayError>)
        ensures
            self.served(outcome),
    ;
}

/// A gateway for one port of a route table.
pub trait Gatewayable<'r, Addr>: Sized {
    /// Whether the gateway listens on `port` and routes among `hosts`. Unless
    /// an implementation says more, every gateway does.
    open spec fn serves(&self, hosts: Seq<RouterConfig<Addr>>, port: u16) -> bool {
        true
    }

    /// Whether `outcome` is a way in which serving may end. Unless an
    /// implementation says more, every outcome is.
    open spec fn served(&self, outcome: Result<(), GatewayError>) -> bool {
        true
    }

    /// The gateway that serves the table `config` on `port`.
    fn new(config: &'r Router<Addr>, port: u16) -> (gateway: Self)
        ensures
            gateway.serves(config.hosts(), port),
    ;

    /// One gateway for each port that a virtual host of the table listens
    /// on, in the order in which the configuration names the ports first.
    fn from_router(router: &'r Router<Addr>) -> (gateways: Vec<Self>)
        ensures
            gateways.len() == once(all_ports(router.hosts())).len(),
            forall|i: int|
                0 <= i < gateways.len() ==> (#[trigger] gateways[i]).serves(
                    router.hosts(),
                    once(all_ports(router.hosts()))[i],
                ),
    ;

    /// Serves the port.
    fn serve(&self) -> (outcome: Result<(), GatewayError>)
        ensures
            self.served(outcome),
    ;
}

/// Something that relays between its two sides until one of them ends.
pub trait Proxy {
    /// What goes wrong.
    type Error;

    /// Whether `outcome` is a way in which the relay may end. Unless an
    /// implementation says more, every outcome is.
    open spec fn ends_with(&self, outcome: Result<(), Self::Error>) -> bool {
        true
    }

    /// Relays.
    fn io_loop(&mut self) -> (outcome: Result<(), Self::Error>)
        ensures
            old(self).ends_with(outcome),
    ;
}

} // verus!
