//! Certificates by ACME with the HTTP-01 challenge: who is asked, where the
//! proof of a challenge lies on disk, how often a validation is tried, and
//! what the responder answers.
//!
//! Talking to the certificate authority and touching the disk is left to
//! the caller; what is decided here is what to do next.

use vstd::prelude::*;
use vstd::string::StringExecFns;
use crate::domain::{Domain, DomainView};
use crate::message::{generate_response, Field, Response, NOT_FOUND, OK};
use crate::text::{bytes_of, decimal, push_decimal};

verus! {

/// The directory of Let's Encrypt.
pub const LETSENCRYPT: &'static str = "https://acme-v02.api.letsencrypt.org/directory";

/// The staging directory of Let's Encrypt.
pub const LETSENCRYPT_STAGING: &'static str =
    "https://acme-staging-v02.api.letsencrypt.org/directory";

/// Where the workspace lies unless it is configured otherwise.
pub const ACME_DIR: &'static str = "/var/monoio-gateway/acme";

/// Milliseconds between two tries of a validation.
pub const VALIDATE_DELAY: u64 = 5000;

/// Milliseconds granted to the finalization of an order.
pub const FINALIZE_DELAY: u64 = 10000;

/// How often a validation is tried again after the first try.
pub const VALIDATE_RETRY_TIMES: u8 = 5;

/// The directory of Let's Encrypt: the staging one where `staging` is set,
/// the production one otherwise.
pub fn get_lets_encrypt_url(staging: bool) -> (url: &'static str)
    ensures
        url@ == if staging {
            LETSENCRYPT_STAGING@
        } else {
            LETSENCRYPT@
        },
{
    if staging {
        LETSENCRYPT_STAGING
    } else {
        LETSENCRYPT
    }
}

/// The subtree of a server name: `<root>/<server-name>`.
pub open spec fn workspace_of(root: Seq<char>, server_name: Seq<char>) -> Seq<char> {
    root + "/"@ + server_name
}

/// Where the proof of a challenge lies:
/// `<root>/<server-name>/.well-known/acme-challenge/<token>`.
pub open spec fn challenge_file(root: Seq<char>, server_name: Seq<char>, token: Seq<char>) -> Seq<
    char,
> {
    workspace_of(root, server_name) + "/.well-known/acme-challenge/"@ + token
}

/// Where the certificate chain of a server name is kept:
/// `<root>/<server-name>/pem`.
pub open spec fn chain_file(root: Seq<char>, server_name: Seq<char>) -> Seq<char> {
    workspace_of(root, server_name) + "/pem"@
}

/// Where the private key of a server name is kept:
/// `<root>/<server-name>/priv`.
pub open spec fn key_file(root: Seq<char>, server_name: Seq<char>) -> Seq<char> {
    workspace_of(root, server_name) + "/priv"@
}

/// The subtree of a server name in the workspace at `root`.
pub fn get_acme_path(root: &str, server_name: &str) -> (path: String)
    ensures
        path@ == workspace_of(root@, server_name@),
{
    let mut path = String::from_str(root);
    path.append("/");
    path.append(server_name);
    path
}

/// Where the proof of the challenge `token` for `server_name` lies. The
/// client writes it there and the responder reads it from there: the path
/// depends on nothing but the three texts.
pub fn challenge_path(root: &str, server_name: &str, token: &str) -> (path: String)
    ensures
        path@ == challenge_file(root@, server_name@, token@),
{
    let mut path = get_acme_path(root, server_name);
    path.append("/.well-known/acme-challenge/");
    path.append(token);
    path
}

/// Where the certificate chain of `server_name` is kept.
pub fn chain_path(root: &str, server_name: &str) -> (path: String)
    ensures
        path@ == chain_file(root@, server_name@),
{
    let mut path = get_acme_path(root, server_name);
    path.append("/pem");
    path
}

/// Where the private key of `server_name` is kept.
pub fn key_path(root: &str, server_name: &str) -> (path: String)
    ensures
        path@ == key_file(root@, server_name@),
{
    let mut path = get_acme_path(root, server_name);
    path.append("/priv");
    path
}

/// What is done next with an order.
#[derive(Clone, Copy, Debug, PartialEq, Eq)]
pub enum AcmeAction {
    /// Deposit the proof, ask for validation and look at the order again
    /// after this many milliseconds.
    Challenge { delay: u64 },
    /// The order is validated: finalize it, granting this many milliseconds,
    /// and fetch the certificate.
    Finalize { delay: u64 },
    /// Too many tries: the order is given up.
    GiveUp,
}

/// What `next` answers after `attempts` tries, for an order that is
/// validated or not: nothing more is tried once the tries exceed `retries`;
/// before that a validated order is finalized and any other tried again.
pub open spec fn next_action(
    attempts: u16,
    retries: u8,
    validated: bool,
    validate_delay: u64,
    finalize_delay: u64,
) -> AcmeAction {
    if attempts > retries {
        AcmeAction::GiveUp
    } else if validated {
        AcmeAction::Finalize { delay: finalize_delay }
    } else {
        AcmeAction::Challenge { delay: validate_delay }
    }
}

/// Something that obtains certificates.
pub trait Acme {
    /// What is obtained.
    type Response;

    /// What goes wrong.
    type Error;

    /// Whether `outcome` is a way in which a request of this agent may end. Unless an
    /// implementation says more, every outcome is.
    open spec fn obtains(&self, outcome: Result<Option<Self::Response>, Self::Error>) -> bool {
        true
    }

    /// Asks for a certificate. `None` says that none was issued, though
    /// nothing went wrong.
    fn acme(&self, acme_request: ()) -> (outcome: Result<Option<Self::Response>, Self::Error>)
        ensures
            self.obtains(outcome),
    ;
}

/// A request for a certificate from any ACME directory.
pub struct GenericAcme {
    domain: String,
    mail: String,
    validate_delay: u64,
    finalize_delay: u64,
    validate_retry_times: u8,
    request_url: String,
    attempts: u16,
}

impl GenericAcme {
    /// The server name the certificate is for.
    pub closed spec fn server_name(&self) -> Seq<char> {
        self.domain@
    }

    /// The contact given to the certificate authority.
    pub closed spec fn contact(&self) -> Seq<char> {
        self.mail@
    }

    /// The directory that is asked.
    pub closed spec fn directory(&self) -> Seq<char> {
        self.request_url@
    }

    /// The tries made so far.
    pub closed spec fn tries(&self) -> u16 {
        self.attempts
    }

    /// How often a validation is tried again.
    pub closed spec fn retries(&self) -> u8 {
        self.validate_retry_times
    }

    /// Milliseconds between tries, and for the finalization.
    pub closed spec fn delays(&self) -> (u64, u64) {
        (self.validate_delay, self.finalize_delay)
    }

    /// A request for a certificate for `domain` from the directory at
    /// `request_url`, with `mail` as contact: five more tries after the
    /// first, five seconds apart, and ten seconds for the finalization.
    pub fn new(domain: String, request_url: String, mail: String) -> (acme: Self)
        ensures
            acme.server_name() == domain@,
            acme.directory() == request_url@,
            acme.contact() == mail@,
            acme.tries() == 0,
            acme.retries() == VALIDATE_RETRY_TIMES,
            acme.delays() == (VALIDATE_DELAY, FINALIZE_DELAY),
    {
        GenericAcme {
            domain,
            mail,
            validate_delay: VALIDATE_DELAY,
            finalize_delay: FINALIZE_DELAY,
            validate_retry_times: VALIDATE_RETRY_TIMES,
            request_url,
            attempts: 0,
        }
    }

    /// A request to the production directory of Let's Encrypt.
    pub fn new_lets_encrypt(domain: String, mail: String) -> (acme: Self)
        ensures
            acme.server_name() == domain@,
            acme.directory() == LETSENCRYPT@,
            acme.contact() == mail@,
            acme.tries() == 0,
            acme.retries() == VALIDATE_RETRY_TIMES,
            acme.delays() == (VALIDATE_DELAY, FINALIZE_DELAY),
    {
        GenericAcme::new(domain, get_lets_encrypt_url(false).to_owned(), mail)
    }

    /// A request to the staging directory of Let's Encrypt.
    pub fn new_lets_encrypt_staging(domain: String, mail: String) -> (acme: Self)
        ensures
            acme.server_name() == domain@,
            acme.directory() == LETSENCRYPT_STAGING@,
            acme.contact() == mail@,
            acme.tries() == 0,
            acme.retries() == VALIDATE_RETRY_TIMES,
            acme.delays() == (VALIDATE_DELAY, FINALIZE_DELAY),
    {
        GenericAcme::new(domain, get_lets_encrypt_url(true).to_owned(), mail)
    }

    /// The server name the certificate is for.
    pub fn domain(&self) -> (name: &str)
        ensures
            name@ == self.server_name(),
    {
        self.domain.as_str()
    }

    /// The contact given to the certificate authority.
    pub fn mail(&self) -> (mail: &str)
        ensures
            mail@ == self.contact(),
    {
        self.mail.as_str()
    }

    /// The directory that is asked.
    pub fn request_url(&self) -> (url: &str)
        ensures
            url@ == self.directory(),
    {
        self.request_url.as_str()
    }

    /// Where the proof for `token` is to be written in the workspace at
    /// `root`: the file the responder reads.
    pub fn proof_path(&self, root: &str, token: &str) -> (path: String)
        ensures
            path@ == challenge_file(root@, self.server_name(), token@),
    {
        challenge_path(root, self.domain.as_str(), token)
    }

    /// What is done next with the order, which the directory reports as
    /// validated or not. A try is counted whenever the answer is to
    /// challenge again.
    pub fn next(&mut self, validated: bool) -> (action: AcmeAction)
        ensures
            action == next_action(
                old(self).tries(),
                old(self).retries(),
                validated,
                old(self).delays().0,
                old(self).delays().1,
            ),
            final(self).tries() == if action is Challenge {
                old(self).tries() + 1
            } else {
                old(self).tries() as int
            },
            final(self).retries() == old(self).retries(),
            final(self).delays() == old(self).delays(),
            final(self).server_name() == old(self).server_name(),
            final(self).contact() == old(self).contact(),
            final(self).directory() == old(self).directory(),
    {
        if self.attempts > self.validate_retry_times as u16 {
            AcmeAction::GiveUp
        } else if validated {
            AcmeAction::Finalize { delay: self.finalize_delay }
        } else {
            self.attempts = self.attempts + 1;
            AcmeAction::Challenge { delay: self.validate_delay }
        }
    }
}

/// A request for a certificate from Let's Encrypt for the host of an
/// address.
pub struct LetsEncryptAcme {
    domain: Domain,
    validate_delay: u64,
    finalize_delay: u64,
    validate_retry_times: u8,
}

impl LetsEncryptAcme {
    /// The address the certificate is for.
    pub closed spec fn address(&self) -> DomainView {
        self.domain@
    }

    /// How often a validation is tried again.
    pub closed spec fn retries(&self) -> u8 {
        self.validate_retry_times
    }

    /// Milliseconds between tries, and for the finalization.
    pub closed spec fn delays(&self) -> (u64, u64) {
        (self.validate_delay, self.finalize_delay)
    }

    /// A request for a certificate for the host of `domain`: five more
    /// tries after the first, five seconds apart, and ten seconds for the
    /// finalization.
    pub fn new(domain: Domain) -> (acme: Self)
        ensures
            acme.address() == domain@,
            acme.retries() == VALIDATE_RETRY_TIMES,
            acme.delays() == (VALIDATE_DELAY, FINALIZE_DELAY),
    {
        LetsEncryptAcme {
            domain,
            validate_delay: VALIDATE_DELAY,
            finalize_delay: FINALIZE_DELAY,
            validate_retry_times: VALIDATE_RETRY_TIMES,
        }
    }

    /// The order that is placed with the production directory, with `mail`
    /// as contact.
    pub fn request(&self, mail: String) -> (order: GenericAcme)
        ensures
            order.server_name() == self.address().host,
            order.directory() == LETSENCRYPT@,
            order.contact() == mail@,
            order.tries() == 0,
            order.retries() == VALIDATE_RETRY_TIMES,
            order.delays() == (VALIDATE_DELAY, FINALIZE_DELAY),
    {
        GenericAcme::new_lets_encrypt(self.domain.host().to_owned(), mail)
    }

    /// Where the proof for `token` is to be written in the workspace at
    /// `root`.
    pub fn proof_path(&self, root: &str, token: &str) -> (path: String)
        ensures
            path@ == challenge_file(root@, self.address().host, token@),
    {
        challenge_path(root, self.domain.host(), token)
    }
}

/// With `retries` retries, the answer is to challenge at most `retries + 1`
/// times: once as many tries are counted, the order is given up whatever
/// the directory reports.
pub proof fn lemma_tries_are_bounded(
    attempts: u16,
    retries: u8,
    validated: bool,
    validate_delay: u64,
    finalize_delay: u64,
)
    ensures
        attempts > retries ==> next_action(
            attempts,
            retries,
            validated,
            validate_delay,
            finalize_delay,
        ) == AcmeAction::GiveUp,
        next_action(attempts, retries, validated, validate_delay, finalize_delay) is Challenge
            ==> attempts <= retries && !validated,
{
}

/// What the responder answers: the head of the response and its body.
pub struct ChallengeReply {
    pub response: Response,
    pub body: Vec<u8>,
}

/// The body of the answer for a proof that is not there.
pub const NO_PROOF: &'static str = "challenge not found";

/// The status the responder answers with.
pub open spec fn reply_status(found: Option<Vec<u8>>) -> u16 {
    if found is Some {
        OK
    } else {
        NOT_FOUND
    }
}

/// The body the responder answers with.
pub open spec fn reply_body(found: Option<Vec<u8>>) -> Seq<u8> {
    match found {
        Some(bytes) => bytes@,
        None => bytes_of(NO_PROOF@),
    }
}

/// The header fields the responder answers with: the length of the body.
pub open spec fn reply_fields(body: Seq<u8>) -> Seq<Field> {
    seq![(bytes_of("content-length"@), bytes_of(decimal(body.len())))]
}

/// The answer of the responder: with the proof found in the workspace, 200
/// and the proof as a body of declared length; without, 404 and a short
/// text.
pub fn challenge_reply(found: Option<Vec<u8>>) -> (reply: ChallengeReply)
    ensures
        reply.response.status == reply_status(found),
        reply.body@ == reply_body(found),
        reply.response.headers@ == reply_fields(reply.body@),
{
    let (status, body) = match found {
        Some(bytes) => (OK, bytes),
        None => (NOT_FOUND, NO_PROOF.as_bytes_vec()),
    };
    let mut response = generate_response(status);
    let mut length = String::new();
    push_decimal(&mut length, body.len() as u64);
    assert(length@ =~= decimal(body@.len()));
    response.headers.append("content-length".as_bytes(), length.as_str().as_bytes());
    assert(response.headers@ =~= reply_fields(body@));
    ChallengeReply { response, body }
}

} // verus!
