use activitypub_delivery::discovery::{actor_document, host_meta, webfinger};
use activitypub_delivery::Actor;

fn alice() -> Actor<'static> {
    Actor::new("example.test", "alice", "https://example.test/actor#main-key", b"")
}

#[test]
fn host_meta_points_at_webfinger() {
    assert_eq!(
        host_meta("example.test"),
        "<?xml version=\"1.0\"?>\n<XRD xmlns=\"http://docs.oasis-open.org/ns/xri/xrd-1.0\">\n    <Link rel=\"lrdd\" type=\"application/xrd+xml\" template=\"https://example.test/.well-known/webfinger?resource={uri}\" />\n</XRD>\n"
    );
}

#[test]
fn webfinger_links_the_account_to_the_actor() {
    assert_eq!(
        webfinger(&alice()),
        "{\"links\":[{\"href\":\"https://example.test/actor\",\"rel\":\"self\",\"type\":\"application/activity+json\"}],\"subject\":\"acct:alice@example.test\"}"
    );
}

#[test]
fn actor_document_publishes_the_key() {
    let pem = "-----BEGIN PUBLIC KEY-----\nAAAA\n-----END PUBLIC KEY-----\n";
    assert_eq!(
        actor_document(&alice(), pem),
        "{\"@context\":[\"https://www.w3.org/ns/activitystreams\",\"https://w3id.org/security/v1\"],\"id\":\"https://example.test/actor\",\"inbox\":\"https://example.test/inbox\",\"preferredUsername\":\"alice\",\"publicKey\":{\"id\":\"https://example.test/actor#main-key\",\"owner\":\"https://example.test/actor\",\"publicKeyPem\":\"-----BEGIN PUBLIC KEY-----\\nAAAA\\n-----END PUBLIC KEY-----\\n\"},\"type\":\"Person\"}"
    );
}

#[test]
fn actor_document_reads_back() {
    let text = actor_document(&alice(), "PEM");
    let parsed: serde_json::Value = serde_json::from_str(&text).unwrap();
    assert_eq!(parsed["type"].as_str(), Some("Person"));
    assert_eq!(parsed["publicKey"]["publicKeyPem"].as_str(), Some("PEM"));
    assert_eq!(parsed["publicKey"]["owner"].as_str(), parsed["id"].as_str());
    assert_eq!(parsed["@context"].as_array().map(|a| a.len()), Some(2));
}
