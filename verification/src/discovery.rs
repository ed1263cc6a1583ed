use crate::actor::{Actor, ActorView};
use crate::compose::activity_context;
use crate::json::{
    json_array, json_array_text, json_object, json_object_insert, json_object_new,
    json_object_text, json_render, json_string, json_string_text, json_text, no_members,
};
use vstd::prelude::*;

verus! {

/// The host-meta document of `domain`: an XRD that points at the
/// WebFinger endpoint.
pub open spec fn host_meta_text(domain: Seq<char>) -> Seq<char> {
    "<?xml version=\"1.0\"?>\n<XRD xmlns=\"http://docs.oasis-open.org/ns/xri/xrd-1.0\">\n    <Link rel=\"lrdd\" type=\"application/xrd+xml\" template=\"https://"@
        + domain + "/.well-known/webfinger?resource={uri}\" />\n</XRD>\n"@
}

/// The account URI of an actor.
pub open spec fn account_text(actor: ActorView) -> Seq<char> {
    "acct:"@ + actor.preferred_username + "@"@ + actor.domain
}

/// The URI of an actor's inbox.
pub open spec fn inbox_text(actor: ActorView) -> Seq<char> {
    "https://"@ + actor.domain + "/inbox"@
}

/// The members of the link from an account to its actor document.
pub open spec fn self_link_members(actor: ActorView) -> Map<Seq<char>, Seq<char>> {
    no_members().insert("rel"@, json_string_text("self"@)).insert(
        "type"@,
        json_string_text("application/activity+json"@),
    ).insert("href"@, json_string_text(actor.id))
}

/// The JSON text of the WebFinger document of an actor.
pub open spec fn webfinger_text(actor: ActorView) -> Seq<char> {
    json_object_text(
        no_members().insert("subject"@, json_string_text(account_text(actor))).insert(
            "links"@,
            json_array_text(seq![json_object_text(self_link_members(actor))]),
        ),
    )
}

/// The members of the public key of an actor document.
pub open spec fn public_key_members(actor: ActorView, public_key_pem: Seq<char>) -> Map<
    Seq<char>,
    Seq<char>,
> {
    no_members().insert("id"@, json_string_text(actor.public_key_id)).insert(
        "owner"@,
        json_string_text(actor.id),
    ).insert("publicKeyPem"@, json_string_text(public_key_pem))
}

/// The JSON text of the actor document: a `Person` with its inbox and its
/// public key.
pub open spec fn actor_document_text(actor: ActorView, public_key_pem: Seq<char>) -> Seq<char> {
    json_object_text(
        no_members().insert(
            "@context"@,
            json_array_text(
                seq![
                    json_string_text(activity_context()),
                    json_string_text("https://w3id.org/security/v1"@),
                ],
            ),
        ).insert("id"@, json_string_text(actor.id)).insert(
            "type"@,
            json_string_text("Person"@),
        ).insert("preferredUsername"@, json_string_text(actor.preferred_username)).insert(
            "inbox"@,
            json_string_text(inbox_text(actor)),
        ).insert("publicKey"@, json_object_text(public_key_members(actor, public_key_pem))),
    )
}

/// Writes the host-meta document of `domain`.
pub fn host_meta(domain: &str) -> (xml: String)
    ensures
        xml@ == host_meta_text(domain@),
{
    let mut xml = String::from_str(
        "<?xml version=\"1.0\"?>\n<XRD xmlns=\"http://docs.oasis-open.org/ns/xri/xrd-1.0\">\n    <Link rel=\"lrdd\" type=\"application/xrd+xml\" template=\"https://",
    );
    xml.append(domain);
    xml.append("/.well-known/webfinger?resource={uri}\" />\n</XRD>\n");
    xml
}

/// Writes the WebFinger document of `actor`: its account as subject, and
/// one link to its actor document.
pub fn webfinger(actor: &Actor) -> (document: String)
    ensures
        document@ == webfinger_text(actor@),
{
    let mut subject = String::from_str("acct:");
    subject.append(actor.preferred_username());
    subject.append("@");
    subject.append(actor.domain());
    let mut link = json_object_new();
    json_object_insert(&mut link, "rel", json_string("self"));
    json_object_insert(&mut link, "type", json_string("application/activity+json"));
    json_object_insert(&mut link, "href", json_string(actor.id()));
    let mut links: Vec<serde_json::Value> = Vec::new();
    links.push(json_object(link));
    proof {
        assert(links@.map_values(|item: serde_json::Value| json_text(item)) =~= seq![
            json_object_text(self_link_members(actor@)),
        ]);
    }
    let mut members = json_object_new();
    json_object_insert(&mut members, "subject", json_string(subject.as_str()));
    json_object_insert(&mut members, "links", json_array(links));
    json_render(&json_object(members))
}

/// Writes the actor document of `actor`, publishing `public_key_pem` under
/// the actor's key id.
pub fn actor_document(actor: &Actor, public_key_pem: &str) -> (document: String)
    ensures
        document@ == actor_document_text(actor@, public_key_pem@),
{
    let mut inbox = String::from_str("https://");
    inbox.append(actor.domain());
    inbox.append("/inbox");
    let mut key = json_object_new();
    json_object_insert(&mut key, "id", json_string(actor.public_key_id()));
    json_object_insert(&mut key, "owner", json_string(actor.id()));
    json_object_insert(&mut key, "publicKeyPem", json_string(public_key_pem));
    let mut context: Vec<serde_json::Value> = Vec::new();
    context.push(json_string("https://www.w3.org/ns/activitystreams"));
    context.push(json_string("https://w3id.org/security/v1"));
    proof {
        assert(context@.map_values(|item: serde_json::Value| json_text(item)) =~= seq![
            json_string_text(activity_context()),
            json_string_text("https://w3id.org/security/v1"@),
        ]);
    }
    let mut members = json_object_new();
    json_object_insert(&mut members, "@context", json_array(context));
    json_object_insert(&mut members, "id", json_string(actor.id()));
    json_object_insert(&mut members, "type", json_string("Person"));
    json_object_insert(&mut members, "preferredUsername", json_string(actor.preferred_username()));
    json_object_insert(&mut members, "inbox", json_string(inbox.as_str()));
    json_object_insert(&mut members, "publicKey", json_object(key));
    json_render(&json_object(members))
}

} // verus!
