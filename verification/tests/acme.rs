use monoio_gateway::acme::{
    chain_path, challenge_path, challenge_reply, get_acme_path, get_lets_encrypt_url, key_path,
    AcmeAction, GenericAcme, LetsEncryptAcme, ACME_DIR,
};
use monoio_gateway::domain::Domain;
use monoio_gateway::layers::LetsEncryptService;

#[test]
fn directory_is_production_unless_staging_is_asked_for() {
    assert_eq!(get_lets_encrypt_url(false), "https://acme-v02.api.letsencrypt.org/directory");
    assert_eq!(
        get_lets_encrypt_url(true),
        "https://acme-staging-v02.api.letsencrypt.org/directory"
    );
    let a = GenericAcme::new_lets_encrypt("svc".to_string(), "me@svc".to_string());
    assert_eq!(a.request_url(), "https://acme-v02.api.letsencrypt.org/directory");
    assert_eq!(a.domain(), "svc");
    assert_eq!(a.mail(), "me@svc");
    let a = GenericAcme::new_lets_encrypt_staging("svc".to_string(), "me@svc".to_string());
    assert_eq!(a.request_url(), "https://acme-staging-v02.api.letsencrypt.org/directory");
    let a = GenericAcme::new("svc".to_string(), "https://ca.example/dir".to_string(), "m".to_string());
    assert_eq!(a.request_url(), "https://ca.example/dir");
}

#[test]
fn workspace_paths_follow_the_layout() {
    assert_eq!(ACME_DIR, "/var/monoio-gateway/acme");
    assert_eq!(get_acme_path("/root", "svc"), "/root/svc");
    assert_eq!(challenge_path("/root", "svc", "abc"), "/root/svc/.well-known/acme-challenge/abc");
    assert_eq!(chain_path("/root", "svc"), "/root/svc/pem");
    assert_eq!(key_path("/root", "svc"), "/root/svc/priv");
    let a = GenericAcme::new_lets_encrypt("svc".to_string(), "me@svc".to_string());
    assert_eq!(a.proof_path("/root", "abc"), challenge_path("/root", "svc", "abc"));
}

#[test]
fn validation_is_tried_six_times_and_then_given_up() {
    let mut a = GenericAcme::new_lets_encrypt("svc".to_string(), "me@svc".to_string());
    for _ in 0..6 {
        assert_eq!(a.next(false), AcmeAction::Challenge { delay: 5000 });
    }
    assert_eq!(a.next(false), AcmeAction::GiveUp);
    assert_eq!(a.next(true), AcmeAction::GiveUp);
}

#[test]
fn validated_order_is_finalized() {
    let mut a = GenericAcme::new_lets_encrypt("svc".to_string(), "me@svc".to_string());
    assert_eq!(a.next(true), AcmeAction::Finalize { delay: 10000 });
    assert_eq!(a.next(false), AcmeAction::Challenge { delay: 5000 });
    assert_eq!(a.next(true), AcmeAction::Finalize { delay: 10000 });
}

#[test]
fn responder_answers_with_the_proof_or_404() {
    let reply = challenge_reply(Some(b"PROOF".to_vec()));
    assert_eq!(reply.response.status, 200);
    assert_eq!(reply.body, b"PROOF".to_vec());
    assert_eq!(reply.response.headers.len(), 1);
    assert_eq!(reply.response.headers.get(b"content-length"), Some(&b"5".to_vec()));
    let reply = challenge_reply(None);
    assert_eq!(reply.response.status, 404);
    assert_eq!(reply.body, b"challenge not found".to_vec());
    assert_eq!(reply.response.headers.get(b"content-length"), Some(&b"19".to_vec()));
    let reply = challenge_reply(Some(Vec::new()));
    assert_eq!(reply.response.status, 200);
    assert_eq!(reply.response.headers.get(b"content-length"), Some(&b"0".to_vec()));
}

#[test]
fn lets_encrypt_order_is_for_the_host_of_the_address() {
    let a = LetsEncryptAcme::new(Domain::with_uri("https://svc.example:8443/").unwrap());
    let order = a.request("me@svc.example".to_string());
    assert_eq!(order.domain(), "svc.example");
    assert_eq!(order.mail(), "me@svc.example");
    assert_eq!(order.request_url(), get_lets_encrypt_url(false));
    assert_eq!(a.proof_path("/r", "t"), "/r/svc.example/.well-known/acme-challenge/t");
    let order = LetsEncryptService.order("svc".to_string(), "m@svc".to_string());
    assert_eq!(order.domain(), "svc");
    assert_eq!(order.request_url(), get_lets_encrypt_url(false));
}
