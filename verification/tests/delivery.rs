use activitypub_delivery::{
    classify_outcome, compose_note, ActivityDocument, Actor, Delivery, DeliveryError,
    DeliveryReceipt, DeliveryRequest, DeliveryState, DeliveryTarget, KeyError, SigningError,
    TransportOutcome,
};

const NOW: u64 = 1893456000;

fn target() -> DeliveryTarget {
    DeliveryTarget { host: "example.test".to_owned(), inbox_path: "/inbox".to_owned() }
}

fn actor_with_new_key() -> (Actor<'static>, openssl::pkey::PKey<openssl::pkey::Public>) {
    let rsa = openssl::rsa::Rsa::generate(2048).unwrap();
    let public = openssl::pkey::PKey::public_key_from_pem(&rsa.public_key_to_pem().unwrap()).unwrap();
    let private_pem: &'static [u8] = rsa.private_key_to_pem().unwrap().leak();
    let actor = Actor::new("sender.test", "alice", "https://sender.test/actor#main-key", private_pem);
    (actor, public)
}

fn header<'a>(request: &'a DeliveryRequest, name: &str) -> &'a str {
    let mut found = request.headers.iter().filter(|h| h.name == name);
    let value = found.next().unwrap().value.as_str();
    assert!(found.next().is_none());
    value
}

fn signature_field(header: &str) -> Vec<u8> {
    let start = header.find("signature=\"").unwrap() + "signature=\"".len();
    let rest = &header[start..];
    let end = rest.find('"').unwrap();
    openssl::base64::decode_block(&rest[..end]).unwrap()
}

fn verifies(public: &openssl::pkey::PKey<openssl::pkey::Public>, signature: &[u8], message: &[u8]) -> bool {
    let mut verifier =
        openssl::sign::Verifier::new(openssl::hash::MessageDigest::sha256(), public).unwrap();
    verifier.set_rsa_padding(openssl::rsa::Padding::PKCS1).unwrap();
    verifier.verify_oneshot(signature, message).unwrap_or(false)
}

fn small_key_pem(prime_bits: i32) -> Vec<u8> {
    let mut ctx = openssl::bn::BigNumContext::new().unwrap();
    let e = openssl::bn::BigNum::from_u32(65537).unwrap();
    let one = openssl::bn::BigNum::from_u32(1).unwrap();
    loop {
        let mut p = openssl::bn::BigNum::new().unwrap();
        p.generate_prime(prime_bits, false, None, None).unwrap();
        let mut q = openssl::bn::BigNum::new().unwrap();
        q.generate_prime(prime_bits, false, None, None).unwrap();
        if p == q {
            continue;
        }
        let mut n = openssl::bn::BigNum::new().unwrap();
        n.checked_mul(&p, &q, &mut ctx).unwrap();
        let mut p_less = openssl::bn::BigNum::new().unwrap();
        p_less.checked_sub(&p, &one).unwrap();
        let mut q_less = openssl::bn::BigNum::new().unwrap();
        q_less.checked_sub(&q, &one).unwrap();
        let mut phi = openssl::bn::BigNum::new().unwrap();
        phi.checked_mul(&p_less, &q_less, &mut ctx).unwrap();
        let mut d = openssl::bn::BigNum::new().unwrap();
        if d.mod_inverse(&e, &phi, &mut ctx).is_err() {
            continue;
        }
        let mut dmp1 = openssl::bn::BigNum::new().unwrap();
        dmp1.nnmod(&d, &p_less, &mut ctx).unwrap();
        let mut dmq1 = openssl::bn::BigNum::new().unwrap();
        dmq1.nnmod(&d, &q_less, &mut ctx).unwrap();
        let mut iqmp = openssl::bn::BigNum::new().unwrap();
        iqmp.mod_inverse(&q, &p, &mut ctx).unwrap();
        let e = openssl::bn::BigNum::from_u32(65537).unwrap();
        let rsa = openssl::rsa::RsaPrivateKeyBuilder::new(n, e, d)
            .unwrap()
            .set_factors(p, q)
            .unwrap()
            .set_crt_params(dmp1, dmq1, iqmp)
            .unwrap()
            .build();
        return rsa.private_key_to_pem().unwrap();
    }
}

#[test]
fn a_new_delivery_is_composed() {
    let delivery = Delivery::new(ActivityDocument::from_bytes(b"{}".to_vec()), target());
    assert_eq!(delivery.state(), DeliveryState::Composed);
    assert_eq!(delivery.host(), "example.test");
    assert_eq!(delivery.inbox_path(), "/inbox");
    assert_eq!(delivery.key_id(), "");
    assert_eq!(delivery.body(), b"{}");
    assert_eq!(delivery.digest_value(), "");
    assert_eq!(delivery.date(), "");
    assert_eq!(delivery.signing_string(), "");
    assert_eq!(delivery.signature(), b"");
    assert_eq!(delivery.signature_header(), "");
}

#[test]
fn digesting_gives_the_digest_header_of_the_body() {
    let mut delivery = Delivery::new(ActivityDocument::from_bytes(b"hello".to_vec()), target());
    assert_eq!(delivery.digest(), Ok(()));
    assert_eq!(delivery.state(), DeliveryState::Digested);
    assert_eq!(delivery.digest_value(), "SHA-256=LPJNul+wow4m6DsqxbninhsWHlwfp0JecwQzYpOLmCQ=");
    assert_eq!(delivery.body(), b"hello");
}

#[test]
fn a_prepared_delivery_is_signed_and_framed() {
    let (actor, _) = actor_with_new_key();
    let document =
        compose_note(&actor, "https://remote.test/notes/1", b"<p>hi</p>", "2030-01-01T00:00:00Z").unwrap();
    let body = document.as_bytes().to_vec();
    let mut delivery = Delivery::prepare(document, target(), &actor, NOW).unwrap();
    assert_eq!(delivery.state(), DeliveryState::Signed);
    assert_eq!(delivery.host(), "example.test");
    assert_eq!(delivery.inbox_path(), "/inbox");
    assert_eq!(delivery.key_id(), "https://sender.test/actor#main-key");
    assert_eq!(delivery.date(), "Tue, 01 Jan 2030 00:00:00 GMT");
    let digest = delivery.digest_value().to_owned();
    let signature_header = delivery.signature_header().to_owned();
    let request = delivery.dispatch();
    assert_eq!(delivery.state(), DeliveryState::Sent);
    assert_eq!(request.method, "POST");
    assert_eq!(request.url, "https://example.test/inbox");
    assert_eq!(request.body, body);
    let names: Vec<&str> = request.headers.iter().map(|h| h.name.as_str()).collect();
    assert_eq!(names, vec!["Content-Type", "Accept", "Host", "Date", "Digest", "Signature"]);
    assert_eq!(header(&request, "Content-Type"), "application/activity+json");
    assert_eq!(header(&request, "Accept"), "application/activity+json");
    assert_eq!(header(&request, "Host"), "example.test");
    assert_eq!(header(&request, "Date"), "Tue, 01 Jan 2030 00:00:00 GMT");
    assert_eq!(header(&request, "Digest"), digest);
    assert_eq!(header(&request, "Signature"), signature_header);
}

#[test]
fn the_digest_header_is_the_digest_of_the_body_sent() {
    let (actor, _) = actor_with_new_key();
    let document =
        compose_note(&actor, "https://remote.test/notes/1", b"<p>digest me</p>", "2030-01-01T00:00:00Z")
            .unwrap();
    let mut delivery = Delivery::prepare(document, target(), &actor, NOW).unwrap();
    let request = delivery.dispatch();
    let recomputed = openssl::hash::hash(openssl::hash::MessageDigest::sha256(), &request.body).unwrap();
    let expected = format!("SHA-256={}", openssl::base64::encode_block(&recomputed));
    assert_eq!(header(&request, "Digest"), expected);
}

#[test]
fn the_signature_verifies_over_the_rebuilt_signing_string() {
    let (actor, public) = actor_with_new_key();
    let document =
        compose_note(&actor, "https://remote.test/notes/1", b"<p>sign me</p>", "2030-01-01T00:00:00Z")
            .unwrap();
    let mut delivery = Delivery::prepare(document, target(), &actor, NOW).unwrap();
    let raw = delivery.signature().to_vec();
    let signed = delivery.signing_string().to_owned();
    let request = delivery.dispatch();
    let rebuilt = format!(
        "(request-target): post /inbox\nhost: {}\ndate: {}\ndigest: {}",
        header(&request, "Host"),
        header(&request, "Date"),
        header(&request, "Digest"),
    );
    assert_eq!(rebuilt, signed);
    let value = header(&request, "Signature");
    assert!(value.starts_with(
        "keyId=\"https://sender.test/actor#main-key\",algorithm=\"rsa-sha256\",headers=\"(request-target) host date digest\",signature=\""
    ));
    assert!(value.ends_with('"'));
    let signature = signature_field(value);
    assert_eq!(signature, raw);
    assert!(verifies(&public, &signature, rebuilt.as_bytes()));
    let tampered = rebuilt.replace("/inbox", "/outbox");
    assert!(!verifies(&public, &signature, tampered.as_bytes()));
}

#[test]
fn the_signed_digest_is_the_digest_sent() {
    let (actor, _) = actor_with_new_key();
    let mut delivery = Delivery::prepare(
        ActivityDocument::from_bytes(b"any body at all".to_vec()),
        target(),
        &actor,
        NOW,
    )
    .unwrap();
    let signed = delivery.signing_string().to_owned();
    let request = delivery.dispatch();
    let last_line = signed.split('\n').last().unwrap();
    assert_eq!(last_line, format!("digest: {}", header(&request, "Digest")));
    let date_line = signed.split('\n').nth(2).unwrap();
    assert_eq!(date_line, format!("date: {}", header(&request, "Date")));
}

#[test]
fn the_steps_can_be_taken_one_by_one() {
    let (actor, _) = actor_with_new_key();
    let mut delivery = Delivery::new(ActivityDocument::from_bytes(b"{}".to_vec()), target());
    delivery.digest().unwrap();
    delivery.sign(&actor, 784111777).unwrap();
    assert_eq!(delivery.state(), DeliveryState::Signed);
    assert_eq!(delivery.date(), "Sun, 06 Nov 1994 08:49:37 GMT");
    assert_eq!(
        delivery.signing_string(),
        format!(
            "(request-target): post /inbox\nhost: example.test\ndate: Sun, 06 Nov 1994 08:49:37 GMT\ndigest: {}",
            delivery.digest_value()
        )
    );
    assert_eq!(
        delivery.signature_header(),
        format!(
            "keyId=\"https://sender.test/actor#main-key\",algorithm=\"rsa-sha256\",headers=\"(request-target) host date digest\",signature=\"{}\"",
            openssl::base64::encode_block(delivery.signature())
        )
    );
}

#[test]
fn a_malformed_key_fails_the_signing() {
    let actor = Actor::new("sender.test", "alice", "https://sender.test/actor", b"no key");
    let mut delivery = Delivery::new(ActivityDocument::from_bytes(b"{}".to_vec()), target());
    delivery.digest().unwrap();
    assert_eq!(delivery.sign(&actor, NOW), Err(DeliveryError::Key(KeyError::Malformed)));
    assert_eq!(delivery.state(), DeliveryState::SigningFailed);
    assert_eq!(delivery.signature_header(), "");
    let prepared = Delivery::prepare(ActivityDocument::from_bytes(b"{}".to_vec()), target(), &actor, NOW);
    assert!(matches!(prepared, Err(DeliveryError::Key(KeyError::Malformed))));
}

#[test]
fn a_key_too_small_for_the_digest_fails_the_signing() {
    let pem = small_key_pem(128);
    let actor = Actor::new("sender.test", "alice", "https://sender.test/actor", &pem);
    let mut delivery = Delivery::new(ActivityDocument::from_bytes(b"{}".to_vec()), target());
    delivery.digest().unwrap();
    let digest = delivery.digest_value().to_owned();
    assert_eq!(delivery.sign(&actor, NOW), Err(DeliveryError::Signing(SigningError::Sign)));
    assert_eq!(delivery.state(), DeliveryState::SigningFailed);
    assert_eq!(delivery.digest_value(), digest);
    assert_eq!(delivery.signature(), b"");
    assert_eq!(delivery.signature_header(), "");
}

#[test]
fn a_refused_connection_is_a_transport_error() {
    assert_eq!(classify_outcome(TransportOutcome::Failed), Err(DeliveryError::Transport));
    let (actor, _) = actor_with_new_key();
    let mut delivery =
        Delivery::prepare(ActivityDocument::from_bytes(b"{}".to_vec()), target(), &actor, NOW).unwrap();
    let _request = delivery.dispatch();
    assert_eq!(delivery.conclude(TransportOutcome::Failed), Err(DeliveryError::Transport));
    assert_eq!(delivery.state(), DeliveryState::TransportFailed);
}

#[test]
fn a_timeout_of_the_caller_is_a_timeout() {
    assert_eq!(classify_outcome(TransportOutcome::TimedOut), Err(DeliveryError::Timeout));
    let (actor, _) = actor_with_new_key();
    let mut delivery =
        Delivery::prepare(ActivityDocument::from_bytes(b"{}".to_vec()), target(), &actor, NOW).unwrap();
    let _request = delivery.dispatch();
    assert_eq!(delivery.conclude(TransportOutcome::TimedOut), Err(DeliveryError::Timeout));
    assert_eq!(delivery.state(), DeliveryState::TransportFailed);
}

#[test]
fn an_accepted_activity_gives_a_receipt() {
    let outcome = TransportOutcome::Responded { status: 202, body: Some("accepted".to_owned()) };
    assert_eq!(
        classify_outcome(outcome),
        Ok(DeliveryReceipt { status: 202, body: "accepted".to_owned() })
    );
    let (actor, _) = actor_with_new_key();
    let mut delivery =
        Delivery::prepare(ActivityDocument::from_bytes(b"{}".to_vec()), target(), &actor, NOW).unwrap();
    let _request = delivery.dispatch();
    let concluded = delivery.conclude(TransportOutcome::Responded { status: 200, body: Some(String::new()) });
    assert_eq!(concluded, Ok(DeliveryReceipt { status: 200, body: String::new() }));
    assert_eq!(delivery.state(), DeliveryState::Delivered);
}

#[test]
fn the_bounds_of_success_are_200_and_299() {
    for status in [200u16, 201, 204, 299] {
        let r = classify_outcome(TransportOutcome::Responded { status, body: Some("b".to_owned()) });
        assert_eq!(r, Ok(DeliveryReceipt { status, body: "b".to_owned() }));
    }
    for status in [0u16, 100, 199, 300, 301, 400, 401, 404, 500, 503, 999, u16::MAX] {
        let r = classify_outcome(TransportOutcome::Responded { status, body: Some("b".to_owned()) });
        assert_eq!(r, Err(DeliveryError::RemoteRejected { status, body: "b".to_owned() }));
    }
}

#[test]
fn a_rejection_keeps_the_body_and_the_attempt_counts_as_delivered() {
    let (actor, _) = actor_with_new_key();
    let mut delivery =
        Delivery::prepare(ActivityDocument::from_bytes(b"{}".to_vec()), target(), &actor, NOW).unwrap();
    let _request = delivery.dispatch();
    let concluded = delivery
        .conclude(TransportOutcome::Responded { status: 401, body: Some("bad signature".to_owned()) });
    assert_eq!(
        concluded,
        Err(DeliveryError::RemoteRejected { status: 401, body: "bad signature".to_owned() })
    );
    assert_eq!(delivery.state(), DeliveryState::Delivered);
}

#[test]
fn a_body_that_could_not_be_read_counts_as_empty() {
    let accepted = classify_outcome(TransportOutcome::Responded { status: 200, body: None });
    assert_eq!(accepted, Ok(DeliveryReceipt { status: 200, body: String::new() }));
    let rejected = classify_outcome(TransportOutcome::Responded { status: 500, body: None });
    assert_eq!(rejected, Err(DeliveryError::RemoteRejected { status: 500, body: String::new() }));
}
