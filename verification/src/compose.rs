use crate::actor::{actor_id_text, Actor, ActorView};
use crate::error::CompositionError;
use crate::json::{
    json_object, json_object_insert, json_object_new, json_object_text, json_render, json_string,
    json_string_text, json_text, no_members,
};
use vstd::prelude::*;
use vstd::utf8::{decode_utf8, encode_utf8, encode_utf8_decode_utf8, valid_utf8};

verus! {

/// The JSON-LD context of an activity.
pub open spec fn activity_context() -> Seq<char> {
    "https://www.w3.org/ns/activitystreams"@
}

/// The audience of a public note.
pub open spec fn public_audience() -> Seq<char> {
    "https://www.w3.org/ns/activitystreams#Public"@
}

/// The id of the note that the actor of `domain` publishes.
pub open spec fn note_id_text(domain: Seq<char>) -> Seq<char> {
    "https://"@ + domain + "/hello-world-my-server"@
}

/// The id of the activity that creates that note.
pub open spec fn activity_id_text(domain: Seq<char>) -> Seq<char> {
    "https://"@ + domain + "/create-hello-world-my-server"@
}

/// The members of the `Note` object.
pub open spec fn note_members(
    domain: Seq<char>,
    actor_id: Seq<char>,
    in_reply_to: Seq<char>,
    content: Seq<char>,
    published: Seq<char>,
) -> Map<Seq<char>, Seq<char>> {
    no_members().insert("id"@, json_string_text(note_id_text(domain))).insert(
        "type"@,
        json_string_text("Note"@),
    ).insert("published"@, json_string_text(published)).insert(
        "attributedTo"@,
        json_string_text(actor_id),
    ).insert("inReplyTo"@, json_string_text(in_reply_to)).insert(
        "content"@,
        json_string_text(content),
    ).insert("to"@, json_string_text(public_audience()))
}

/// The members of the `Create` activity, the note nested under `object`.
pub open spec fn activity_members(
    domain: Seq<char>,
    actor_id: Seq<char>,
    in_reply_to: Seq<char>,
    content: Seq<char>,
    published: Seq<char>,
) -> Map<Seq<char>, Seq<char>> {
    no_members().insert("@context"@, json_string_text(activity_context())).insert(
        "id"@,
        json_string_text(activity_id_text(domain)),
    ).insert("type"@, json_string_text("Create"@)).insert(
        "actor"@,
        json_string_text(actor_id),
    ).insert(
        "object"@,
        json_object_text(note_members(domain, actor_id, in_reply_to, content, published)),
    )
}

/// The JSON text of the activity document.
pub open spec fn activity_text(
    domain: Seq<char>,
    actor_id: Seq<char>,
    in_reply_to: Seq<char>,
    content: Seq<char>,
    published: Seq<char>,
) -> Seq<char> {
    json_object_text(activity_members(domain, actor_id, in_reply_to, content, published))
}

/// The bytes of the activity document: the UTF-8 form of its JSON text,
/// with the content read as UTF-8.
pub open spec fn composed_document(
    actor: ActorView,
    in_reply_to: Seq<char>,
    content: Seq<u8>,
    published: Seq<char>,
) -> Seq<u8> {
    encode_utf8(
        activity_text(actor.domain, actor.id, in_reply_to, decode_utf8(content), published),
    )
}

/// A composed activity document: the bytes that are digested, signed and
/// sent. Once made they are only read.
pub struct ActivityDocument {
    bytes: Vec<u8>,
}

impl View for ActivityDocument {
    type V = Seq<u8>;

    closed spec fn view(&self) -> Seq<u8> {
        self.bytes@
    }
}

impl ActivityDocument {
    /// A document that was serialized elsewhere, taken as it is.
    pub fn from_bytes(bytes: Vec<u8>) -> (document: ActivityDocument)
        ensures
            document@ == bytes@,
    {
        ActivityDocument { bytes }
    }

    pub fn as_bytes(&self) -> (bytes: &[u8])
        ensures
            bytes@ == self@,
    {
        self.bytes.as_slice()
    }

    pub fn into_bytes(self) -> (bytes: Vec<u8>)
        ensures
            bytes@ == self@,
    {
        self.bytes
    }
}

/// The error of the standard library for bytes that are not UTF-8.
#[verifier::external_type_specification]
#[verifier::external_body]
pub struct ExUtf8Error(core::str::Utf8Error);

/// `core::str::from_utf8`: the bytes as a string slice where they are
/// valid UTF-8, and an error where they are not.
#[verifier::external_body]
pub(crate) fn str_from_utf8(bytes: &[u8]) -> (r: Result<&str, core::str::Utf8Error>)
    ensures
        r is Ok <==> valid_utf8(bytes@),
        r matches Ok(s) ==> encode_utf8(s@) == bytes@,
{
    core::str::from_utf8(bytes)
}

/// Builds the `Note` object.
fn note_object(
    domain: &str,
    actor_id: &str,
    in_reply_to: &str,
    content: &str,
    published: &str,
) -> (note: serde_json::Value)
    ensures
        json_text(note) == json_object_text(
            note_members(domain@, actor_id@, in_reply_to@, content@, published@),
        ),
{
    let mut id = String::from_str("https://");
    id.append(domain);
    id.append("/hello-world-my-server");
    let mut members = json_object_new();
    json_object_insert(&mut members, "id", json_string(id.as_str()));
    json_object_insert(&mut members, "type", json_string("Note"));
    json_object_insert(&mut members, "published", json_string(published));
    json_object_insert(&mut members, "attributedTo", json_string(actor_id));
    json_object_insert(&mut members, "inReplyTo", json_string(in_reply_to));
    json_object_insert(&mut members, "content", json_string(content));
    json_object_insert(
        &mut members,
        "to",
        json_string("https://www.w3.org/ns/activitystreams#Public"),
    );
    json_object(members)
}

/// Composes the `Create` activity that publishes a `Note` of `actor` in
/// reply to `in_reply_to`, with the HTML fragment `content` and the
/// timestamp `published`, as compact JSON.
///
/// The ids of the activity and of the note are derived from the actor's
/// domain alone. Content that is not valid UTF-8 is refused.
pub fn compose_note(actor: &Actor, in_reply_to: &str, content: &[u8], published: &str) -> (r:
    Result<ActivityDocument, CompositionError>)
    ensures
        valid_utf8(content@) ==> (r matches Ok(document) && document@ == composed_document(
            actor@,
            in_reply_to@,
            content@,
            published@,
        )),
        !valid_utf8(content@) ==> r matches Err(CompositionError::ContentNotUtf8),
{
    let content = match str_from_utf8(content) {
        Ok(text) => text,
        Err(_) => {
            return Err(CompositionError::ContentNotUtf8);
        },
    };
    proof {
        encode_utf8_decode_utf8(content@);
    }
    let note = note_object(actor.domain(), actor.id(), in_reply_to, content, published);
    let mut id = String::from_str("https://");
    id.append(actor.domain());
    id.append("/create-hello-world-my-server");
    let mut members = json_object_new();
    json_object_insert(
        &mut members,
        "@context",
        json_string("https://www.w3.org/ns/activitystreams"),
    );
    json_object_insert(&mut members, "id", json_string(id.as_str()));
    json_object_insert(&mut members, "type", json_string("Create"));
    json_object_insert(&mut members, "actor", json_string(actor.id()));
    json_object_insert(&mut members, "object", note);
    let activity = json_object(members);
    let text = json_render(&activity);
    Ok(ActivityDocument { bytes: text.as_str().as_bytes_vec() })
}

/// The domain of an actor can be read off its id: two domains with the
/// same actor URI are the same.
pub proof fn lemma_actor_id_fixes_domain(first: Seq<char>, second: Seq<char>)
    requires
        actor_id_text(first) == actor_id_text(second),
    ensures
        first == second,
{
    let head = "https://"@;
    let a = actor_id_text(first);
    let b = actor_id_text(second);
    assert(a.len() == b.len());
    assert(a.subrange(head.len() as int, (head.len() + first.len()) as int) =~= first);
    assert(b.subrange(head.len() as int, (head.len() + second.len()) as int) =~= second);
}

/// Composing is deterministic: the actor's id, the reply target, the
/// content and the timestamp fix every byte of the document. Two actors
/// with the same id give the same document, whatever their names and keys.
pub proof fn lemma_compose_is_deterministic(
    first: Actor,
    second: Actor,
    in_reply_to: Seq<char>,
    content: Seq<u8>,
    published: Seq<char>,
)
    requires
        first.wf(),
        second.wf(),
        first@.id == second@.id,
    ensures
        composed_document(first@, in_reply_to, content, published) == composed_document(
            second@,
            in_reply_to,
            content,
            published,
        ),
{
    lemma_actor_id_fixes_domain(first@.domain, second@.domain);
}

} // verus!
