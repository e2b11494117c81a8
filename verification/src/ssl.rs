//! The certificate store and the reading of certificates and keys from PEM.
//!
//! PEM is read by `rustls-pemfile`, and `rustls` says whether it can sign
//! with a key. What is installed under which name, and when, is decided
//! here.

use vstd::prelude::*;
use crate::names::NameMap;

verus! {

/// The certificates that `rustls_pemfile::certs` finds in a PEM text, as
/// DER, or nothing where it rejects the text.
pub uninterp spec fn pem_certificates(pem: Seq<u8>) -> Option<Seq<Seq<u8>>>;

/// The keys that `rustls_pemfile::pkcs8_private_keys` finds in a PEM text,
/// as DER, or nothing where it rejects the text.
pub uninterp spec fn pem_private_keys(pem: Seq<u8>) -> Option<Seq<Seq<u8>>>;

/// Calls `rustls_pemfile::certs` on the bytes. Read from memory, the call
/// depends on the bytes alone; the contract gives its outcome a name.
#[verifier::external_body]
fn certs_of(pem: &[u8]) -> (certs: Option<Vec<Vec<u8>>>)
    ensures
        match certs {
            Some(c) => pem_certificates(pem@) == Some(c.deep_view()),
            None => pem_certificates(pem@) is None,
        },
{
    let mut reader = pem;
    rustls_pemfile::certs(&mut reader).ok()
}

/// Calls `rustls_pemfile::pkcs8_private_keys` on the bytes. Read from
/// memory, the call depends on the bytes alone; the contract gives its
/// outcome a name.
#[verifier::external_body]
fn pkcs8_keys_of(pem: &[u8]) -> (keys: Option<Vec<Vec<u8>>>)
    ensures
        match keys {
            Some(k) => pem_private_keys(pem@) == Some(k.deep_view()),
            None => pem_private_keys(pem@) is None,
        },
{
    let mut reader = pem;
    rustls_pemfile::pkcs8_private_keys(&mut reader).ok()
}

/// Asks `rustls::sign::any_supported_type` whether it can sign with the
/// key. For some kinds of key the answer also needs the random numbers of
/// the system, so nothing is promised of it.
#[verifier::external_body]
fn key_is_usable(der: &[u8]) -> (usable: bool) {
    rustls::sign::any_supported_type(&rustls::PrivateKey(der.to_vec())).is_ok()
}

/// Why a PEM text gave nothing.
#[derive(Clone, Copy, Debug, PartialEq, Eq)]
pub enum PemError {
    /// The text is not well-formed PEM.
    Malformed,
    /// The text holds no certificate.
    NoCertificate,
    /// The text holds no PKCS#8 private key.
    NoPrivateKey,
}

/// The last of the items read from a PEM text: an error where the text was
/// rejected, `missing` where it holds no item.
pub open spec fn last_of(items: Option<Seq<Seq<u8>>>, missing: PemError) -> Result<
    Seq<u8>,
    PemError,
> {
    match items {
        Some(all) => if all.len() > 0 {
            Ok(all.last())
        } else {
            Err(missing)
        },
        None => Err(PemError::Malformed),
    }
}

/// What a chain text and a key text give to install: the whole chain and
/// the last key, where both texts are well-formed and a key is there.
pub open spec fn material(chain: Seq<u8>, priv_key: Seq<u8>) -> Option<(Seq<Seq<u8>>, Seq<u8>)> {
    match (pem_private_keys(priv_key), pem_certificates(chain)) {
        (Some(keys), Some(certs)) => if keys.len() > 0 {
            Some((certs, keys.last()))
        } else {
            None
        },
        _ => None,
    }
}

/// The certificates of a PEM text, in their order.
pub fn read_pem_chain(pem: &[u8]) -> (chain: Result<Vec<Vec<u8>>, PemError>)
    ensures
        match chain {
            Ok(c) => pem_certificates(pem@) == Some(c.deep_view()),
            Err(e) => pem_certificates(pem@) is None && e == PemError::Malformed,
        },
{
    match certs_of(pem) {
        Some(c) => Ok(c),
        None => Err(PemError::Malformed),
    }
}

/// The items in a contract, where there are any.
pub open spec fn items_view(items: Option<Vec<Vec<u8>>>) -> Option<Seq<Seq<u8>>> {
    match items {
        Some(all) => Some(all.deep_view()),
        None => None,
    }
}

/// The last of the items that were read from a PEM text: `Malformed` where
/// the text was rejected, `missing` where it holds no item.
pub fn last_item(items: Option<Vec<Vec<u8>>>, missing: PemError) -> (item: Result<
    Vec<u8>,
    PemError,
>)
    ensures
        match item {
            Ok(i) => last_of(items_view(items), missing) == Ok::<Seq<u8>, PemError>(i@),
            Err(e) => last_of(items_view(items), missing) == Err::<Seq<u8>, PemError>(e),
        },
{
    match items {
        Some(mut all) => {
            let ghost before = all.deep_view();
            match all.pop() {
                Some(i) => {
                    assert(before.last() == i@);
                    Ok(i)
                },
                None => {
                    assert(before.len() == 0);
                    Err(missing)
                },
            }
        },
        None => Err(PemError::Malformed),
    }
}

/// The last certificate of a PEM text.
pub fn read_pem_certificate(pem: &[u8]) -> (cert: Result<Vec<u8>, PemError>)
    ensures
        match cert {
            Ok(c) => last_of(pem_certificates(pem@), PemError::NoCertificate) == Ok::<
                Seq<u8>,
                PemError,
            >(c@),
            Err(e) => last_of(pem_certificates(pem@), PemError::NoCertificate) == Err::<
                Seq<u8>,
                PemError,
            >(e),
        },
{
    last_item(certs_of(pem), PemError::NoCertificate)
}

/// The last PKCS#8 private key of a PEM text.
pub fn read_private_key(pem: &[u8]) -> (key: Result<Vec<u8>, PemError>)
    ensures
        match key {
            Ok(k) => last_of(pem_private_keys(pem@), PemError::NoPrivateKey) == Ok::<
                Seq<u8>,
                PemError,
            >(k@),
            Err(e) => last_of(pem_private_keys(pem@), PemError::NoPrivateKey) == Err::<
                Seq<u8>,
                PemError,
            >(e),
        },
{
    last_item(pkcs8_keys_of(pem), PemError::NoPrivateKey)
}

/// What the gateway presents for a server name: the certificate chain and
/// the private key, both as DER.
pub struct CertificateEntry {
    pub chain: Vec<Vec<u8>>,
    pub key: Vec<u8>,
}

impl View for CertificateEntry {
    type V = (Seq<Seq<u8>>, Seq<u8>);

    open spec fn view(&self) -> (Seq<Seq<u8>>, Seq<u8>) {
        (self.chain.deep_view(), self.key@)
    }
}

impl CertificateEntry {
    /// What a server presents that is configured with three PEM files: the
    /// certificate of the server followed by that of its authority, and the
    /// key. Of each text the last item counts.
    pub open spec fn from_pem_spec(ca: Seq<u8>, crt: Seq<u8>, private_key: Seq<u8>) -> Result<
        (Seq<Seq<u8>>, Seq<u8>),
        PemError,
    > {
        match last_of(pem_certificates(ca), PemError::NoCertificate) {
            Err(e) => Err(e),
            Ok(authority) => match last_of(pem_certificates(crt), PemError::NoCertificate) {
                Err(e) => Err(e),
                Ok(server) => match last_of(pem_private_keys(private_key), PemError::NoPrivateKey) {
                    Err(e) => Err(e),
                    Ok(key) => Ok((seq![server, authority], key)),
                },
            },
        }
    }

    /// What a server presents that is configured with three PEM texts: the
    /// certificate of its authority, its own, and its key.
    pub fn from_pem(ca: &[u8], crt: &[u8], private_key: &[u8]) -> (entry: Result<
        CertificateEntry,
        PemError,
    >)
        ensures
            match entry {
                Ok(e) => Self::from_pem_spec(ca@, crt@, private_key@) == Ok::<
                    (Seq<Seq<u8>>, Seq<u8>),
                    PemError,
                >(e@),
                Err(e) => Self::from_pem_spec(ca@, crt@, private_key@) == Err::<
                    (Seq<Seq<u8>>, Seq<u8>),
                    PemError,
                >(e),
            },
    {
        let authority = match read_pem_certificate(ca) {
            Ok(c) => c,
            Err(e) => {
                return Err(e);
            },
        };
        let server = match read_pem_certificate(crt) {
            Ok(c) => c,
            Err(e) => {
                return Err(e);
            },
        };
        let key = match read_private_key(private_key) {
            Ok(k) => k,
            Err(e) => {
                return Err(e);
            },
        };
        let mut chain: Vec<Vec<u8>> = Vec::new();
        chain.push(server);
        chain.push(authority);
        let ghost deep = chain.deep_view();
        assert(deep.len() == 2);
        assert(deep[0] =~= server@);
        assert(deep[1] =~= authority@);
        assert(deep =~= seq![server@, authority@]);
        Ok(CertificateEntry { chain, key })
    }
}

/// The certificates of the process, by server name.
pub struct CertificateStore {
    entries: NameMap<CertificateEntry>,
}

impl CertificateStore {
    /// The store as a mapping from server name to chain and key.
    pub closed spec fn view(&self) -> Map<Seq<char>, (Seq<Seq<u8>>, Seq<u8>)> {
        self.entries@.map_values(|e: CertificateEntry| e@)
    }

    /// A store without certificates.
    pub fn new() -> (store: Self)
        ensures
            store@ == Map::<Seq<char>, (Seq<Seq<u8>>, Seq<u8>)>::empty(),
    {
        let store = CertificateStore { entries: NameMap::new() };
        assert(store@ =~= Map::<Seq<char>, (Seq<Seq<u8>>, Seq<u8>)>::empty());
        store
    }

    /// The number of server names with a certificate.
    pub fn len(&self) -> (n: usize)
        ensures
            n == self@.dom().len(),
    {
        assert(self@.dom() =~= self.entries@.dom());
        self.entries.len()
    }

    /// What is presented for `server_name`, if anything.
    pub fn get(&self, server_name: &str) -> (entry: Option<&CertificateEntry>)
        ensures
            match entry {
                Some(e) => self@.contains_key(server_name@) && self@[server_name@] == e@,
                None => !self@.contains_key(server_name@),
            },
    {
        self.entries.get(server_name)
    }

    /// Puts chain and key under `server_name`, in place of what was there.
    pub fn install(&mut self, server_name: &str, entry: CertificateEntry)
        ensures
            final(self)@ == old(self)@.insert(server_name@, entry@),
    {
        let _ = self.entries.insert(server_name, entry);
        assert(self@ =~= old(self)@.insert(server_name@, entry@));
    }

    /// Puts chain and key under `server_name` where `usable` says that the
    /// key can be signed with, and says whether it did.
    pub fn install_checked(
        &mut self,
        server_name: &str,
        chain: Vec<Vec<u8>>,
        key: Vec<u8>,
        usable: bool,
    ) -> (installed: bool)
        ensures
            installed == usable,
            final(self)@ == if usable {
                old(self)@.insert(server_name@, (chain.deep_view(), key@))
            } else {
                old(self)@
            },
    {
        if usable {
            self.install(server_name, CertificateEntry { chain, key });
        }
        usable
    }
}

/// Reads a chain and a key from PEM and puts them under `server_name`.
/// Nothing is installed unless the key text holds a PKCS#8 key, the chain
/// text is well-formed, and `rustls` can sign with the last key of the key
/// text; what is installed is the whole chain with that key. Says whether it
/// installed.
pub fn update_certificate(
    store: &mut CertificateStore,
    server_name: &str,
    chain: &[u8],
    priv_key: &[u8],
) -> (installed: bool)
    ensures
        !installed ==> final(store)@ == old(store)@,
        installed ==> material(chain@, priv_key@) is Some,
        installed ==> final(store)@ == old(store)@.insert(
            server_name@,
            material(chain@, priv_key@).unwrap(),
        ),
{
    let key = match read_private_key(priv_key) {
        Ok(k) => k,
        Err(_) => {
            return false;
        },
    };
    let chain = match read_pem_chain(chain) {
        Ok(c) => c,
        Err(_) => {
            return false;
        },
    };
    let usable = key_is_usable(key.as_slice());
    store.install_checked(server_name, chain, key, usable)
}

/// Picks the certificate for a handshake.
pub struct CertificateResolver {
    server_name: String,
}

impl CertificateResolver {
    /// The name looked up where a client names none.
    pub closed spec fn fallback(&self) -> Seq<char> {
        self.server_name@
    }

    /// A resolver that looks up `server_name` where a client names none.
    pub fn new(server_name: String) -> (resolver: Self)
        ensures
            resolver.fallback() == server_name@,
    {
        CertificateResolver { server_name }
    }

    /// The name under which the store is consulted for a client that sent
    /// the server name `sni`.
    pub open spec fn wanted(&self, sni: Option<Seq<char>>) -> Seq<char> {
        match sni {
            Some(name) => name,
            None => self.fallback(),
        }
    }

    /// What is presented to a client that sent the server name `sni`: the
    /// entry of the store under that name. Without an entry there is nothing
    /// to present, and the handshake has to fail.
    pub fn resolve<'a>(&self, store: &'a CertificateStore, sni: Option<&str>) -> (entry: Option<
        &'a CertificateEntry,
    >)
        ensures
            match entry {
                Some(e) => store@.contains_key(self.wanted(sni_view(sni))) && store@[self.wanted(
                    sni_view(sni),
                )] == e@,
                None => !store@.contains_key(self.wanted(sni_view(sni))),
            },
    {
        match sni {
            Some(name) => store.get(name),
            None => store.get(self.server_name.as_str()),
        }
    }
}

/// The server name of a client hello in a contract.
pub open spec fn sni_view(sni: Option<&str>) -> Option<Seq<char>> {
    match sni {
        Some(name) => Some(name@),
        None => None,
    }
}

} // verus!
