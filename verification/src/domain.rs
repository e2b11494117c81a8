//! Addresses given as URIs: the scheme decides between plain HTTP and TLS,
//! the authority names the host and perhaps a port.
//!
//! Reading a URI is left to the `http` crate. What it hands back is checked
//! and kept as plain values, and everything derived from them (the port in
//! effect, the connect target, the text of a `Host` header) is computed
//! here.

use vstd::prelude::*;
use vstd::string::StringExecFns;
use vstd::utf8::*;
use crate::message::is_field_value;
use crate::text::{bytes_of, decimal, push_decimal, same_text};
use crate::version::Type;

verus! {

/// The parts of a URI that the gateway reads.
pub struct UriParts {
    pub scheme: Option<String>,
    pub host: Option<String>,
    pub port: Option<u16>,
    pub path: String,
}

/// The parts of a URI in a contract.
pub struct UriPartsView {
    pub scheme: Option<Seq<char>>,
    pub host: Option<Seq<char>>,
    pub port: Option<u16>,
    pub path: Seq<char>,
}

impl View for UriParts {
    type V = UriPartsView;

    open spec fn view(&self) -> UriPartsView {
        UriPartsView {
            scheme: match self.scheme {
                Some(s) => Some(s@),
                None => None,
            },
            host: match self.host {
                Some(h) => Some(h@),
                None => None,
            },
            port: self.port,
            path: self.path@,
        }
    }
}

/// The parts in a contract, where there are any.
pub open spec fn view_of(parts: Option<UriParts>) -> Option<UriPartsView> {
    match parts {
        Some(p) => Some(p@),
        None => None,
    }
}

/// What the `http` crate makes of a text read as a URI: its parts, or
/// nothing where it refuses the text.
pub uninterp spec fn parsed_uri(text: Seq<char>) -> Option<UriPartsView>;

/// What the `http` crate makes of a URI put together from a scheme, an
/// authority and a path: its parts, or nothing where it refuses one of them.
pub uninterp spec fn built_uri(scheme: Seq<char>, authority: Seq<char>, path: Seq<char>) -> Option<
    UriPartsView,
>;

/// Reads `text` with `http::Uri`'s `FromStr` and hands out the scheme, host,
/// port and path that its accessors `scheme_str`, `host`, `port_u16` and
/// `path` return. The contract only gives that outcome its name: the same
/// text always has the same parts.
#[verifier::external_body]
fn parse_uri(text: &str) -> (parts: Option<UriParts>)
    ensures
        match parts {
            Some(p) => parsed_uri(text@) == Some(p@),
            None => parsed_uri(text@) is None,
        },
{
    match text.parse::<http::Uri>() {
        Ok(uri) => Some(
            UriParts {
                scheme: uri.scheme_str().map(|s| s.to_owned()),
                host: uri.host().map(|h| h.to_owned()),
                port: uri.port_u16(),
                path: uri.path().to_owned(),
            },
        ),
        Err(_) => None,
    }
}

/// Puts a URI together with `http::uri::Builder` (`scheme`, `authority`,
/// `path_and_query`, `build`) and hands out the parts that the accessors of
/// the built URI return. The contract only gives that outcome its name.
#[verifier::external_body]
fn build_uri(scheme: &str, authority: &str, path: &str) -> (parts: Option<UriParts>)
    ensures
        match parts {
            Some(p) => built_uri(scheme@, authority@, path@) == Some(p@),
            None => built_uri(scheme@, authority@, path@) is None,
        },
{
    match http::Uri::builder().scheme(scheme).authority(authority).path_and_query(path).build() {
        Ok(uri) => Some(
            UriParts {
                scheme: uri.scheme_str().map(|s| s.to_owned()),
                host: uri.host().map(|h| h.to_owned()),
                port: uri.port_u16(),
                path: uri.path().to_owned(),
            },
        ),
        Err(_) => None,
    }
}

/// A text made of printable ASCII characters other than the space. Such a
/// text can stand in a header without ending the line or the field.
pub open spec fn is_visible(text: Seq<char>) -> bool {
    forall|i: int| 0 <= i < text.len() ==> '!' <= #[trigger] text[i] <= '~'
}

/// Whether the text is made of printable ASCII characters other than the
/// space.
pub fn all_visible(text: &str) -> (yes: bool)
    ensures
        yes == is_visible(text@),
{
    if !text.is_ascii() {
        proof {
            let i = choose|i: int| 0 <= i < text@.len() && !('\0' <= #[trigger] text@[i] <= '\u{7f}');
            assert(!('!' <= text@[i] <= '~'));
        }
        return false;
    }
    let bytes = text.as_bytes();
    proof {
        is_ascii_chars_encode_utf8(text@);
    }
    let mut i: usize = 0;
    while i < bytes.len()
        invariant
            i <= bytes.len(),
            bytes@ == encode_utf8(text@),
            bytes@.len() == text@.len(),
            is_ascii_chars(text@),
            forall|k: int| 0 <= k < text@.len() ==> text@[k] as u8 == #[trigger] bytes@[k],
            forall|k: int| 0 <= k < i ==> '!' <= #[trigger] text@[k] <= '~',
        decreases bytes.len() - i,
    {
        let b = bytes[i];
        assert(text@[i as int] as u8 == b);
        assert('\0' <= text@[i as int] <= '\u{7f}');
        if b < 33 || b > 126 {
            assert(!('!' <= text@[i as int] <= '~'));
            return false;
        }
        assert('!' <= text@[i as int] <= '~');
        i += 1;
    }
    true
}

/// A number in decimal is a visible text.
pub proof fn lemma_decimal_is_visible(n: nat)
    ensures
        is_visible(decimal(n)),
    decreases n,
{
    if n >= 10 {
        lemma_decimal_is_visible(n / 10);
    }
}

/// The bytes of a visible text are its characters, and all of them may
/// stand in the value of a header field.
pub proof fn lemma_visible_is_field_value(text: Seq<char>)
    requires
        is_visible(text),
    ensures
        bytes_of(text).len() == text.len(),
        is_field_value(bytes_of(text)),
{
    assert(is_ascii_chars(text));
    is_ascii_chars_encode_utf8(text);
    assert forall|i: int| 0 <= i < bytes_of(text).len() implies ((#[trigger] bytes_of(text)[i])
        >= 32 && bytes_of(text)[i] != 127) || bytes_of(text)[i] == 9 by {
        assert('!' <= text[i] <= '~');
        assert(text[i] as u8 == bytes_of(text)[i]);
    }
}

/// A URI-derived address in a contract.
pub struct DomainView {
    pub scheme: Type,
    pub host: Seq<char>,
    pub port: Option<u16>,
    pub path: Seq<char>,
}

/// Secure when the scheme is `https`, plain in every other case.
pub open spec fn kind_of(scheme: Option<Seq<char>>) -> Type {
    if scheme == Some("https"@) {
        Type::HTTPS
    } else {
        Type::HTTP
    }
}

/// The address that the parts of a URI give: there is one where the URI
/// names a host, and the host is made of visible characters.
pub open spec fn admitted(parts: Option<UriPartsView>) -> Option<DomainView> {
    match parts {
        Some(p) => match p.host {
            Some(host) => if host.len() > 0 && is_visible(host) {
                Some(DomainView { scheme: kind_of(p.scheme), host, port: p.port, path: p.path })
            } else {
                None
            },
            None => None,
        },
        None => None,
    }
}

impl DomainView {
    /// The port in effect: the one the URI names, else the one its scheme
    /// stands for.
    pub open spec fn effective_port(self) -> u16 {
        match self.port {
            Some(p) => p,
            None => self.scheme.default_port(),
        }
    }

    /// The host, followed by a colon and the port where the port in effect
    /// is not the one the scheme stands for.
    pub open spec fn authority(self) -> Seq<char> {
        if self.effective_port() == self.scheme.default_port() {
            self.host
        } else {
            self.host + seq![':'] + decimal(self.effective_port() as nat)
        }
    }

    /// Where a connection to this address goes: host, colon, port in effect.
    pub open spec fn connect_target(self) -> Seq<char> {
        self.host + seq![':'] + decimal(self.effective_port() as nat)
    }

    /// The address written as a URI: scheme, authority and path.
    pub open spec fn uri(self) -> Seq<char> {
        (match self.scheme {
            Type::HTTP => "http://"@,
            Type::HTTPS => "https://"@,
        }) + self.authority() + self.path
    }

    /// The address reduced to what decides where it leads.
    pub open spec fn normal(self) -> (Type, Seq<char>, u16, Seq<char>) {
        (self.scheme, self.host, self.effective_port(), self.path)
    }
}

/// An address given as a URI.
#[derive(Debug)]
pub struct Domain {
    scheme: Type,
    host: String,
    port: Option<u16>,
    path: String,
}

impl View for Domain {
    type V = DomainView;

    closed spec fn view(&self) -> DomainView {
        DomainView { scheme: self.scheme, host: self.host@, port: self.port, path: self.path@ }
    }
}

impl Clone for Domain {
    fn clone(&self) -> (copy: Self)
        ensures
            copy == *self,
    {
        proof {
            use_type_invariant(self);
        }
        Domain {
            scheme: self.scheme,
            host: self.host.clone(),
            port: self.port,
            path: self.path.clone(),
        }
    }
}

impl Domain {
    #[verifier::type_invariant]
    spec fn sound(self) -> bool {
        self.host@.len() > 0 && is_visible(self.host@)
    }

    /// The address that the parts of a URI give: there is one exactly where
    /// the parts are there, name a host, and the host is not empty and made
    /// of visible characters. The scheme `https` makes it secure, any other
    /// scheme or none makes it plain; host, port and path are kept as they
    /// are.
    pub fn from_parts(parts: Option<UriParts>) -> (domain: Option<Domain>)
        ensures
            match domain {
                Some(d) => admitted(view_of(parts)) == Some(d@),
                None => admitted(view_of(parts)) is None,
            },
    {
        let parts = match parts {
            Some(p) => p,
            None => {
                return None;
            },
        };
        let UriParts { scheme, host, port, path } = parts;
        let host = match host {
            Some(h) => h,
            None => {
                return None;
            },
        };
        if host.as_str().unicode_len() == 0 || !all_visible(host.as_str()) {
            return None;
        }
        let secure = match &scheme {
            Some(s) => same_text(s.as_str(), "https"),
            None => false,
        };
        Some(Domain { scheme: if secure { Type::HTTPS } else { Type::HTTP }, host, port, path })
    }

    /// The address made of a scheme, an authority and a path, or nothing
    /// where these do not make a URI with a host.
    pub fn new(scheme: &str, authority: &str, path: &str) -> (domain: Option<Domain>)
        ensures
            match domain {
                Some(d) => admitted(built_uri(scheme@, authority@, path@)) == Some(d@),
                None => admitted(built_uri(scheme@, authority@, path@)) is None,
            },
    {
        Self::from_parts(build_uri(scheme, authority, path))
    }

    /// The address that `uri` spells, or nothing where the text is no URI
    /// with a host.
    pub fn with_uri(uri: &str) -> (domain: Option<Domain>)
        ensures
            match domain {
                Some(d) => admitted(parsed_uri(uri@)) == Some(d@),
                None => admitted(parsed_uri(uri@)) is None,
            },
    {
        Self::from_parts(parse_uri(uri))
    }

    /// Plain or secure, as the scheme says.
    pub fn version(&self) -> (kind: Type)
        ensures
            kind == self@.scheme,
    {
        self.scheme
    }

    /// The port in effect.
    pub fn port(&self) -> (port: u16)
        ensures
            port == self@.effective_port(),
    {
        match self.port {
            Some(p) => p,
            None => self.scheme.standard_port(),
        }
    }

    /// The host. It is never empty, and made of visible characters.
    pub fn host(&self) -> (host: &str)
        ensures
            host@ == self@.host,
            host@.len() > 0,
            is_visible(host@),
    {
        proof {
            use_type_invariant(self);
        }
        self.host.as_str()
    }

    /// The path.
    pub fn path(&self) -> (path: &str)
        ensures
            path@ == self@.path,
    {
        self.path.as_str()
    }

    /// The text that stands for this address in a `Host` header. It is
    /// made of visible characters, so it cannot break the header.
    pub fn authority(&self) -> (text: String)
        ensures
            text@ == self@.authority(),
            is_visible(text@),
            is_field_value(bytes_of(text@)),
    {
        proof {
            use_type_invariant(self);
            lemma_decimal_is_visible(self@.effective_port() as nat);
            assert(is_visible(self@.authority()));
            lemma_visible_is_field_value(self@.authority());
        }
        let mut text = self.host.clone();
        let port = self.port();
        if port != self.scheme.standard_port() {
            text.append(":");
            proof {
                reveal_strlit(":");
                assert(":"@ =~= seq![':']);
            }
            push_decimal(&mut text, port as u64);
        }
        text
    }

    /// The address written as a URI.
    pub fn to_string(&self) -> (text: String)
        ensures
            text@ == self@.uri(),
    {
        let mut text = match self.scheme {
            Type::HTTP => String::from_str("http://"),
            Type::HTTPS => String::from_str("https://"),
        };
        let authority = self.authority();
        text.append(authority.as_str());
        text.append(self.path.as_str());
        text
    }

    /// The connect target: host, colon, port in effect.
    pub fn resolve(&self) -> (target: String)
        ensures
            target@ == self@.connect_target(),
    {
        let mut target = self.host.clone();
        target.append(":");
        proof {
            reveal_strlit(":");
            assert(":"@ =~= seq![':']);
        }
        push_decimal(&mut target, self.port() as u64);
        target
    }

    /// The address a listener for this port binds: every interface where
    /// `wide` is set, the loopback interface otherwise.
    pub fn listen_addr(&self, wide: bool) -> (addr: String)
        ensures
            addr@ == (if wide {
                "0.0.0.0:"@
            } else {
                "127.0.0.1:"@
            }) + decimal(self@.effective_port() as nat),
    {
        let mut addr = if wide {
            String::from_str("0.0.0.0:")
        } else {
            String::from_str("127.0.0.1:")
        };
        push_decimal(&mut addr, self.port() as u64);
        addr
    }

    /// Whether two addresses lead to the same place: same scheme, host,
    /// port in effect and path.
    pub fn same_as(&self, other: &Domain) -> (yes: bool)
        ensures
            yes == (self@.normal() == other@.normal()),
    {
        let same_scheme = match (self.scheme, other.scheme) {
            (Type::HTTP, Type::HTTP) => true,
            (Type::HTTPS, Type::HTTPS) => true,
            _ => false,
        };
        same_scheme && self.port() == other.port() && same_text(
            self.host.as_str(),
            other.host.as_str(),
        ) && same_text(self.path.as_str(), other.path.as_str())
    }
}

} // verus!
