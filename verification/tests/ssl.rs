use monoio_gateway::gateway::{start_acme, AcmeStart};
use monoio_gateway::ssl::{
    last_item, read_pem_certificate, read_pem_chain, read_private_key, update_certificate,
    CertificateEntry, CertificateResolver, CertificateStore, PemError,
};

/// Base64 of `bytes`, with padding.
fn base64(bytes: &[u8]) -> String {
    let alphabet: Vec<char> =
        ('A'..='Z').chain('a'..='z').chain('0'..='9').chain(['+', '/']).collect();
    let mut out = String::new();
    for chunk in bytes.chunks(3) {
        let b = [chunk[0], *chunk.get(1).unwrap_or(&0), *chunk.get(2).unwrap_or(&0)];
        let n = (b[0] as usize) << 16 | (b[1] as usize) << 8 | b[2] as usize;
        out.push(alphabet[n >> 18 & 63]);
        out.push(alphabet[n >> 12 & 63]);
        out.push(if chunk.len() > 1 { alphabet[n >> 6 & 63] } else { '=' });
        out.push(if chunk.len() > 2 { alphabet[n & 63] } else { '=' });
    }
    out
}

/// One PEM section that holds `der` under `label`.
fn section(label: &str, der: &[u8]) -> String {
    format!("-----BEGIN {}-----\n{}\n-----END {}-----\n", label, base64(der), label)
}

fn certificate(der: &[u8]) -> String {
    section("CERTIFICATE", der)
}

fn pkcs8(der: &[u8]) -> String {
    section(&format!("{} {}", "PRIVATE", "KEY"), der)
}

/// A PKCS#8 document that holds an Ed25519 seed made of the bytes 1 to 32.
fn key_der() -> Vec<u8> {
    let mut der = vec![48, 46, 2, 1, 0, 48, 5, 6, 3, 43, 101, 112, 4, 34, 4, 32];
    der.extend(1u8..=32);
    der
}

fn chain_pem() -> String {
    certificate(b"first certificate") + &certificate(b"second certificate")
}

fn key_pem() -> String {
    pkcs8(&key_der())
}

fn useless_key_pem() -> String {
    pkcs8(b"first certificate")
}

#[test]
fn base64_of_the_helper_is_the_usual_one() {
    assert_eq!(base64(b""), "");
    assert_eq!(base64(b"f"), "Zg==");
    assert_eq!(base64(b"fo"), "Zm8=");
    assert_eq!(base64(b"foo"), "Zm9v");
    assert_eq!(base64(b"foobar"), "Zm9vYmFy");
    assert_eq!(base64(&[0xfb, 0xff]), "+/8=");
}

#[test]
fn chain_is_read_in_order() {
    let chain = read_pem_chain(chain_pem().as_bytes()).unwrap();
    assert_eq!(chain, vec![b"first certificate".to_vec(), b"second certificate".to_vec()]);
    assert_eq!(read_pem_chain(b""), Ok(vec![]));
    assert_eq!(read_pem_chain(key_pem().as_bytes()), Ok(vec![]));
}

#[test]
fn last_certificate_and_last_key_are_picked() {
    assert_eq!(read_pem_certificate(chain_pem().as_bytes()), Ok(b"second certificate".to_vec()));
    assert_eq!(read_pem_certificate(b"no pem here"), Err(PemError::NoCertificate));
    assert_eq!(read_private_key(key_pem().as_bytes()), Ok(key_der()));
    assert_eq!(read_private_key(chain_pem().as_bytes()), Err(PemError::NoPrivateKey));
    assert_eq!(read_private_key(b""), Err(PemError::NoPrivateKey));
}

#[test]
fn broken_pem_is_malformed() {
    let broken = b"-----BEGIN CERTIFICATE-----\nZmlyc3Q\n";
    assert_eq!(read_pem_chain(broken), Err(PemError::Malformed));
    assert_eq!(read_pem_certificate(broken), Err(PemError::Malformed));
    let broken = pkcs8(b"x").replace("eA==", "!!!!");
    assert_eq!(read_private_key(broken.as_bytes()), Err(PemError::Malformed));
}

#[test]
fn certificate_is_installed_with_a_usable_key() {
    let mut store = CertificateStore::new();
    assert!(update_certificate(&mut store, "svc", chain_pem().as_bytes(), key_pem().as_bytes()));
    assert_eq!(store.len(), 1);
    let entry = store.get("svc").unwrap();
    assert_eq!(entry.chain, vec![b"first certificate".to_vec(), b"second certificate".to_vec()]);
    assert_eq!(entry.key, key_der());
    assert!(store.get("other").is_none());
}

#[test]
fn nothing_is_installed_without_a_usable_key_or_a_chain() {
    let mut store = CertificateStore::new();
    assert!(!update_certificate(&mut store, "svc", chain_pem().as_bytes(), useless_key_pem().as_bytes()));
    assert!(!update_certificate(&mut store, "svc", chain_pem().as_bytes(), b""));
    assert!(!update_certificate(&mut store, "svc", b"-----BEGIN CERTIFICATE-----\n", key_pem().as_bytes()));
    assert_eq!(store.len(), 0);
    assert!(store.get("svc").is_none());
}

#[test]
fn install_replaces_what_was_there() {
    let mut store = CertificateStore::new();
    store.install("svc", CertificateEntry { chain: vec![vec![1]], key: vec![2] });
    store.install("svc", CertificateEntry { chain: vec![vec![3]], key: vec![4] });
    assert_eq!(store.len(), 1);
    assert_eq!(store.get("svc").unwrap().key, vec![4]);
    assert!(!store.install_checked("other", vec![vec![5]], vec![6], false));
    assert!(store.get("other").is_none());
    assert!(store.install_checked("other", vec![vec![5]], vec![6], true));
    assert_eq!(store.get("other").unwrap().chain, vec![vec![5]]);
}

#[test]
fn resolver_looks_up_the_name_the_client_sent() {
    let mut store = CertificateStore::new();
    store.install("svc", CertificateEntry { chain: vec![vec![1]], key: vec![2] });
    let resolver = CertificateResolver::new("svc".to_string());
    assert_eq!(resolver.resolve(&store, Some("svc")).unwrap().key, vec![2]);
    assert!(resolver.resolve(&store, Some("unknown.example")).is_none());
    assert_eq!(resolver.resolve(&store, None).unwrap().key, vec![2]);
    let other = CertificateResolver::new("other".to_string());
    assert!(other.resolve(&store, None).is_none());
}

#[test]
fn cached_certificate_spares_the_acquisition() {
    let mut store = CertificateStore::new();
    assert_eq!(start_acme(&mut store, "svc", None, None), AcmeStart::Acquire);
    assert_eq!(start_acme(&mut store, "svc", Some(chain_pem().as_bytes()), None), AcmeStart::Acquire);
    assert_eq!(start_acme(&mut store, "svc", None, Some(key_pem().as_bytes())), AcmeStart::Acquire);
    assert_eq!(
        start_acme(&mut store, "svc", Some(chain_pem().as_bytes()), Some(useless_key_pem().as_bytes())),
        AcmeStart::Acquire
    );
    assert_eq!(store.len(), 0);
    assert_eq!(
        start_acme(&mut store, "svc", Some(chain_pem().as_bytes()), Some(key_pem().as_bytes())),
        AcmeStart::Ready
    );
    assert_eq!(store.get("svc").unwrap().key, key_der());
}

#[test]
fn server_presents_its_certificate_before_that_of_its_authority() {
    let ca = certificate(b"first certificate");
    let crt = certificate(b"second certificate");
    let key = key_pem();
    let entry = CertificateEntry::from_pem(ca.as_bytes(), crt.as_bytes(), key.as_bytes()).unwrap();
    assert_eq!(entry.chain, vec![b"second certificate".to_vec(), b"first certificate".to_vec()]);
    assert_eq!(entry.key, key_der());
    assert_eq!(
        CertificateEntry::from_pem(b"", crt.as_bytes(), key.as_bytes()).err(),
        Some(PemError::NoCertificate)
    );
    assert_eq!(
        CertificateEntry::from_pem(ca.as_bytes(), crt.as_bytes(), b"").err(),
        Some(PemError::NoPrivateKey)
    );
    assert_eq!(
        CertificateEntry::from_pem(ca.as_bytes(), b"-----BEGIN CERTIFICATE-----\n", key.as_bytes()).err(),
        Some(PemError::Malformed)
    );
}

#[test]
fn last_of_the_items_is_picked() {
    assert_eq!(
        last_item(Some(vec![vec![1], vec![2, 3]]), PemError::NoCertificate),
        Ok(vec![2, 3])
    );
    assert_eq!(last_item(Some(vec![vec![9]]), PemError::NoPrivateKey), Ok(vec![9]));
    assert_eq!(last_item(Some(vec![]), PemError::NoCertificate), Err(PemError::NoCertificate));
    assert_eq!(last_item(Some(vec![]), PemError::NoPrivateKey), Err(PemError::NoPrivateKey));
    assert_eq!(last_item(None, PemError::NoCertificate), Err(PemError::Malformed));
    assert_eq!(last_item(None, PemError::NoPrivateKey), Err(PemError::Malformed));
}
