use crate::actor::{Actor, ActorView};
use crate::compose::ActivityDocument;
use crate::crypto::{
    base64_text, rsa_sha256_signature, sign_rsa_sha256, MAX_BASE64_INPUT, MAX_PEM_LEN,
};
use crate::date::{fmt_http_date, http_date_text, HTTP_DATE_END};
use crate::error::{DeliveryError, KeyError, SigningError};
use crate::signature::{
    body_digest, body_digest_text, lemma_signing_string_ends_with_digest, signature_header_of,
    signature_header_text, signing_string, signing_string_text,
};
use crate::state::{advance, next_state, DeliveryEvent, DeliveryState};
use vstd::prelude::*;
use vstd::slice::slice_to_vec;
use vstd::utf8::encode_utf8;

verus! {

/// The media type of an activity document.
pub open spec fn activity_media_type() -> Seq<char> {
    "application/activity+json"@
}

/// Where an activity is delivered: the remote host and the path of its
/// inbox.
#[derive(Debug, PartialEq, Eq)]
pub struct DeliveryTarget {
    pub host: String,
    pub inbox_path: String,
}

/// One header of a request, its name written as it goes on the wire.
#[derive(Debug, PartialEq, Eq)]
pub struct Header {
    pub name: String,
    pub value: String,
}

/// A request that is ready to be sent: a `POST` of `body` to `url` with
/// `headers`, in that order.
#[derive(Debug, PartialEq, Eq)]
pub struct DeliveryRequest {
    pub method: String,
    pub url: String,
    pub headers: Vec<Header>,
    pub body: Vec<u8>,
}

/// What a request is, as contracts see it.
pub struct RequestView {
    pub method: Seq<char>,
    pub url: Seq<char>,
    pub headers: Seq<(Seq<char>, Seq<char>)>,
    pub body: Seq<u8>,
}

impl View for DeliveryRequest {
    type V = RequestView;

    open spec fn view(&self) -> RequestView {
        RequestView {
            method: self.method@,
            url: self.url@,
            headers: Seq::new(
                self.headers@.len(),
                |i: int| (self.headers@[i].name@, self.headers@[i].value@),
            ),
            body: self.body@,
        }
    }
}

/// What a delivery attempt holds, as contracts see it.
pub struct DeliveryView {
    pub state: DeliveryState,
    pub host: Seq<char>,
    pub inbox_path: Seq<char>,
    pub body: Seq<u8>,
    pub key_id: Seq<char>,
    pub date: Seq<char>,
    pub digest: Seq<char>,
    pub signing_string: Seq<char>,
    pub signature: Seq<u8>,
    pub signature_header: Seq<char>,
}

/// One delivery attempt: the document, where it goes, and the digest and
/// signature material computed for it so far. Each attempt holds its own
/// material; none of it outlives the attempt.
pub struct Delivery {
    state: DeliveryState,
    host: String,
    inbox_path: String,
    body: Vec<u8>,
    key_id: String,
    date: String,
    digest: String,
    signing_string: String,
    signature: Vec<u8>,
    signature_header: String,
}

impl View for Delivery {
    type V = DeliveryView;

    closed spec fn view(&self) -> DeliveryView {
        DeliveryView {
            state: self.state,
            host: self.host@,
            inbox_path: self.inbox_path@,
            body: self.body@,
            key_id: self.key_id@,
            date: self.date@,
            digest: self.digest@,
            signing_string: self.signing_string@,
            signature: self.signature@,
            signature_header: self.signature_header@,
        }
    }
}

/// The material of a delivery is consistent: the digest is that of the
/// body, the signing string is built from the very host, date and digest
/// that the headers carry, and the `Signature` header carries the signature
/// held.
pub open spec fn consistent(v: DeliveryView) -> bool {
    &&& v.state.has_digest() ==> v.digest == body_digest_text(v.body)
    &&& v.state.has_signature() ==> {
        &&& v.signing_string == signing_string_text(v.inbox_path, v.host, v.date, v.digest)
        &&& v.signature_header == signature_header_text(v.key_id, base64_text(v.signature))
    }
}

/// A fresh attempt for `body` to `host` and `inbox_path`.
pub open spec fn composed_view(host: Seq<char>, inbox_path: Seq<char>, body: Seq<u8>) -> DeliveryView {
    DeliveryView {
        state: DeliveryState::Composed,
        host,
        inbox_path,
        body,
        key_id: Seq::empty(),
        date: Seq::empty(),
        digest: Seq::empty(),
        signing_string: Seq::empty(),
        signature: Seq::empty(),
        signature_header: Seq::empty(),
    }
}

/// The attempt `v` with its digest computed.
pub open spec fn digested_view(v: DeliveryView) -> DeliveryView {
    DeliveryView { state: DeliveryState::Digested, digest: body_digest_text(v.body), ..v }
}

/// The string that is signed for the attempt `v` at `unix_seconds`.
pub open spec fn string_to_sign(v: DeliveryView, unix_seconds: u64) -> Seq<char> {
    signing_string_text(v.inbox_path, v.host, http_date_text(unix_seconds), v.digest)
}

/// The signature of `actor` for the attempt `v` at `unix_seconds`: that of
/// the bytes of the signing string under the actor's private key.
pub open spec fn signature_of(v: DeliveryView, actor: ActorView, unix_seconds: u64) -> Seq<u8> {
    rsa_sha256_signature(actor.private_key, encode_utf8(string_to_sign(v, unix_seconds)))
}

/// The attempt `v` signed by `actor` at `unix_seconds`.
pub open spec fn signed_view(v: DeliveryView, actor: ActorView, unix_seconds: u64) -> DeliveryView {
    DeliveryView {
        state: DeliveryState::Signed,
        key_id: actor.public_key_id,
        date: http_date_text(unix_seconds),
        signing_string: string_to_sign(v, unix_seconds),
        signature: signature_of(v, actor, unix_seconds),
        signature_header: signature_header_text(
            actor.public_key_id,
            base64_text(signature_of(v, actor, unix_seconds)),
        ),
        ..v
    }
}

/// The attempt `v` in another state, all else as it was.
pub open spec fn in_state(v: DeliveryView, state: DeliveryState) -> DeliveryView {
    DeliveryView { state, ..v }
}

/// The request that is sent for a signed attempt: the six headers in their
/// order, names in their wire casing, and the body as it was digested.
pub open spec fn request_of(v: DeliveryView) -> RequestView {
    RequestView {
        method: "POST"@,
        url: "https://"@ + v.host + v.inbox_path,
        headers: seq![
            ("Content-Type"@, activity_media_type()),
            ("Accept"@, activity_media_type()),
            ("Host"@, v.host),
            ("Date"@, v.date),
            ("Digest"@, v.digest),
            ("Signature"@, v.signature_header),
        ],
        body: v.body,
    }
}

/// What the transport reports of one send.
#[derive(Debug, PartialEq, Eq)]
pub enum TransportOutcome {
    /// The remote answered. `body` is `None` where the response body could
    /// not be read.
    Responded { status: u16, body: Option<String> },
    /// The exchange failed: name resolution, connect, TLS, or a timeout of
    /// the transport.
    Failed,
    /// The caller's bound on the whole operation ran out.
    TimedOut,
}

/// What the remote answered to an accepted activity.
#[derive(Debug, PartialEq, Eq)]
pub struct DeliveryReceipt {
    pub status: u16,
    pub body: String,
}

/// A status in 200..=299 accepts the activity.
pub open spec fn is_success(status: u16) -> bool {
    200 <= status <= 299
}

/// The text of a response body; one that could not be read counts as
/// empty.
pub open spec fn body_text(body: Option<String>) -> Seq<char> {
    match body {
        Some(text) => text@,
        None => Seq::empty(),
    }
}

/// How an outcome of the transport is reported to the caller.
pub open spec fn classified(
    outcome: TransportOutcome,
    r: Result<DeliveryReceipt, DeliveryError>,
) -> bool {
    match outcome {
        TransportOutcome::Responded { status, body } => if is_success(status) {
            r matches Ok(receipt) && receipt.status == status && receipt.body@ == body_text(body)
        } else {
            r matches Err(DeliveryError::RemoteRejected { status: s, body: b }) && s == status
                && b@ == body_text(body)
        },
        TransportOutcome::Failed => r == Err::<DeliveryReceipt, DeliveryError>(
            DeliveryError::Transport,
        ),
        TransportOutcome::TimedOut => r == Err::<DeliveryReceipt, DeliveryError>(
            DeliveryError::Timeout,
        ),
    }
}

/// The event that an outcome of the transport is for a delivery attempt.
pub open spec fn outcome_event(outcome: TransportOutcome) -> DeliveryEvent {
    match outcome {
        TransportOutcome::Responded { .. } => DeliveryEvent::ResponseReceived,
        _ => DeliveryEvent::TransportFailed,
    }
}

/// Reports an outcome of the transport: a response with a status in
/// 200..=299 is a receipt, any other status a rejection that keeps the
/// body, a failed exchange a transport error, and a timeout of the caller a
/// timeout. It never reports a key, signing or composition error.
pub fn classify_outcome(outcome: TransportOutcome) -> (r: Result<DeliveryReceipt, DeliveryError>)
    ensures
        classified(outcome, r),
{
    match outcome {
        TransportOutcome::Responded { status, body } => {
            let text = match body {
                Some(text) => text,
                None => String::new(),
            };
            if 200 <= status && status <= 299 {
                Ok(DeliveryReceipt { status, body: text })
            } else {
                Err(DeliveryError::RemoteRejected { status, body: text })
            }
        },
        TransportOutcome::Failed => Err(DeliveryError::Transport),
        TransportOutcome::TimedOut => Err(DeliveryError::Timeout),
    }
}

/// The state that `event` leads to, where it may happen in `state`.
fn moved(state: DeliveryState, event: DeliveryEvent) -> (next: DeliveryState)
    requires
        next_state(state, event) is Some,
    ensures
        next_state(state, event) == Some(next),
{
    match advance(state, event) {
        Some(next) => next,
        None => state,
    }
}

impl Delivery {
    /// Whether the material held is consistent. Every attempt is, at all
    /// times.
    pub open spec fn wf(&self) -> bool {
        consistent(self@)
    }

    #[verifier::type_invariant]
    closed spec fn always_consistent(&self) -> bool {
        consistent(self@)
    }

    /// Starts an attempt to deliver `document` to `target`.
    pub fn new(document: ActivityDocument, target: DeliveryTarget) -> (delivery: Delivery)
        ensures
            delivery@ == composed_view(target.host@, target.inbox_path@, document@),
            delivery.wf(),
    {
        Delivery {
            state: DeliveryState::Composed,
            host: target.host,
            inbox_path: target.inbox_path,
            body: document.into_bytes(),
            key_id: String::new(),
            date: String::new(),
            digest: String::new(),
            signing_string: String::new(),
            signature: Vec::new(),
            signature_header: String::new(),
        }
    }

    /// Computes the `Digest` header value of the body. Where OpenSSL
    /// cannot compute the digest the attempt ends in `SigningFailed`.
    pub fn digest(&mut self) -> (r: Result<(), DeliveryError>)
        requires
            old(self)@.state == DeliveryState::Composed,
        ensures
            r is Ok ==> final(self)@ == digested_view(old(self)@),
            r matches Err(e) ==> e == DeliveryError::Signing(SigningError::Digest) && final(self)@
                == in_state(old(self)@, DeliveryState::SigningFailed),
            final(self).wf(),
    {
        match body_digest(self.body.as_slice()) {
            Ok(value) => {
                self.digest = value;
                self.state = moved(self.state, DeliveryEvent::DigestComputed);
                Ok(())
            },
            Err(e) => {
                self.state = moved(self.state, DeliveryEvent::SigningFailed);
                Err(e)
            },
        }
    }

    /// Signs the attempt for `actor` at the instant `unix_seconds` after
    /// the Unix epoch: formats the date, builds the signing string, signs
    /// its bytes with the actor's private key (RSA, PKCS#1 v1.5, SHA-256)
    /// and builds the `Signature` header value under the actor's key id.
    ///
    /// OpenSSL decides whether the key is read and the signature made; on
    /// any failure the attempt ends in `SigningFailed` with nothing else
    /// changed.
    pub fn sign(&mut self, actor: &Actor, unix_seconds: u64) -> (r: Result<(), DeliveryError>)
        requires
            old(self)@.state == DeliveryState::Digested,
            unix_seconds < HTTP_DATE_END,
        ensures
            r is Ok ==> final(self)@ == signed_view(old(self)@, actor@, unix_seconds),
            r matches Err(e) ==> (e is Key || e is Signing) && final(self)@ == in_state(
                old(self)@,
                DeliveryState::SigningFailed,
            ),
            (r matches Err(DeliveryError::Key(KeyError::TooLong))) <==> actor@.private_key.len()
                > MAX_PEM_LEN,
            (r matches Err(DeliveryError::Signing(SigningError::SignatureTooLong))) ==> signature_of(
                old(self)@,
                actor@,
                unix_seconds,
            ).len() > MAX_BASE64_INPUT,
            old(self).wf(),
            final(self).wf(),
    {
        proof {
            use_type_invariant(&*self);
        }
        let date = fmt_http_date(unix_seconds);
        let to_sign = signing_string(
            self.inbox_path.as_str(),
            self.host.as_str(),
            date.as_str(),
            self.digest.as_str(),
        );
        let signature = match sign_rsa_sha256(actor.private_key(), to_sign.as_str().as_bytes()) {
            Ok(signature) => signature,
            Err(e) => {
                self.state = moved(self.state, DeliveryEvent::SigningFailed);
                return Err(e);
            },
        };
        let header = match signature_header_of(actor.public_key_id(), signature.as_slice()) {
            Some(header) => header,
            None => {
                self.state = moved(self.state, DeliveryEvent::SigningFailed);
                return Err(DeliveryError::Signing(SigningError::SignatureTooLong));
            },
        };
        self.signature_header = header;
        self.key_id = String::from_str(actor.public_key_id());
        self.date = date;
        self.signing_string = to_sign;
        self.signature = signature;
        self.state = moved(self.state, DeliveryEvent::SignatureComputed);
        Ok(())
    }

    /// Composes the three steps before the send: starts an attempt for
    /// `document` to `target`, digests it and signs it for `actor` at
    /// `unix_seconds`. On success the attempt is `Signed` and ready to be
    /// dispatched.
    pub fn prepare(
        document: ActivityDocument,
        target: DeliveryTarget,
        actor: &Actor,
        unix_seconds: u64,
    ) -> (r: Result<Delivery, DeliveryError>)
        requires
            unix_seconds < HTTP_DATE_END,
        ensures
            r matches Ok(delivery) ==> delivery.wf() && delivery@ == signed_view(
                digested_view(composed_view(target.host@, target.inbox_path@, document@)),
                actor@,
                unix_seconds,
            ),
            r matches Err(e) ==> e is Key || e is Signing,
            actor@.private_key.len() > MAX_PEM_LEN ==> r is Err,
    {
        let mut delivery = Delivery::new(document, target);
        match delivery.digest() {
            Ok(()) => {},
            Err(e) => {
                return Err(e);
            },
        }
        match delivery.sign(actor, unix_seconds) {
            Ok(()) => Ok(delivery),
            Err(e) => Err(e),
        }
    }

    /// Hands out the request of a signed attempt, to be sent once, and
    /// marks the attempt `Sent`.
    pub fn dispatch(&mut self) -> (request: DeliveryRequest)
        requires
            old(self)@.state == DeliveryState::Signed,
        ensures
            request@ == request_of(old(self)@),
            final(self)@ == in_state(old(self)@, DeliveryState::Sent),
            old(self).wf(),
            final(self).wf(),
    {
        proof {
            use_type_invariant(&*self);
        }
        let mut url = String::from_str("https://");
        url.append(self.host.as_str());
        url.append(self.inbox_path.as_str());
        let mut headers: Vec<Header> = Vec::new();
        headers.push(
            Header {
                name: String::from_str("Content-Type"),
                value: String::from_str("application/activity+json"),
            },
        );
        headers.push(
            Header {
                name: String::from_str("Accept"),
                value: String::from_str("application/activity+json"),
            },
        );
        headers.push(Header { name: String::from_str("Host"), value: self.host.clone() });
        headers.push(Header { name: String::from_str("Date"), value: self.date.clone() });
        headers.push(Header { name: String::from_str("Digest"), value: self.digest.clone() });
        headers.push(
            Header { name: String::from_str("Signature"), value: self.signature_header.clone() },
        );
        let request = DeliveryRequest {
            method: String::from_str("POST"),
            url,
            headers,
            body: slice_to_vec(self.body.as_slice()),
        };
        self.state = moved(self.state, DeliveryEvent::RequestDispatched);
        proof {
            assert(request@.headers =~= request_of(old(self)@).headers);
        }
        request
    }

    /// Ends a sent attempt with what the transport reported, and says how
    /// it is reported to the caller. A response ends it in `Delivered`,
    /// anything else in `TransportFailed`; nothing is sent again.
    pub fn conclude(&mut self, outcome: TransportOutcome) -> (r: Result<
        DeliveryReceipt,
        DeliveryError,
    >)
        requires
            old(self)@.state == DeliveryState::Sent,
        ensures
            classified(outcome, r),
            next_state(DeliveryState::Sent, outcome_event(outcome)) == Some(final(self)@.state),
            final(self)@ == in_state(old(self)@, final(self)@.state),
            old(self).wf(),
            final(self).wf(),
    {
        proof {
            use_type_invariant(&*self);
        }
        let event = match &outcome {
            TransportOutcome::Responded { .. } => DeliveryEvent::ResponseReceived,
            _ => DeliveryEvent::TransportFailed,
        };
        self.state = moved(self.state, event);
        classify_outcome(outcome)
    }

    pub fn state(&self) -> (state: DeliveryState)
        ensures
            state == self@.state,
            self.wf(),
    {
        proof {
            use_type_invariant(self);
        }
        self.state
    }

    pub fn host(&self) -> (host: &str)
        ensures
            host@ == self@.host,
    {
        self.host.as_str()
    }

    pub fn inbox_path(&self) -> (path: &str)
        ensures
            path@ == self@.inbox_path,
    {
        self.inbox_path.as_str()
    }

    /// The key id the attempt was signed under; empty before it is signed.
    pub fn key_id(&self) -> (key_id: &str)
        ensures
            key_id@ == self@.key_id,
    {
        self.key_id.as_str()
    }

    pub fn body(&self) -> (body: &[u8])
        ensures
            body@ == self@.body,
    {
        self.body.as_slice()
    }

    /// The `Date` header value; empty before the attempt is signed.
    pub fn date(&self) -> (date: &str)
        ensures
            date@ == self@.date,
    {
        self.date.as_str()
    }

    /// The `Digest` header value; empty before the attempt is digested.
    pub fn digest_value(&self) -> (digest: &str)
        ensures
            digest@ == self@.digest,
    {
        self.digest.as_str()
    }

    /// The string that was signed; empty before the attempt is signed.
    pub fn signing_string(&self) -> (s: &str)
        ensures
            s@ == self@.signing_string,
    {
        self.signing_string.as_str()
    }

    /// The raw signature; empty before the attempt is signed.
    pub fn signature(&self) -> (signature: &[u8])
        ensures
            signature@ == self@.signature,
    {
        self.signature.as_slice()
    }

    /// The `Signature` header value; empty before the attempt is signed.
    pub fn signature_header(&self) -> (s: &str)
        ensures
            s@ == self@.signature_header,
    {
        self.signature_header.as_str()
    }
}

/// In the request of a consistent signed attempt, whatever happened to it
/// since, the digest that the signing string holds is the `Digest` header
/// that is sent, its date the `Date` header, its host the `Host` header,
/// and the digest is that of the body that is sent.
pub proof fn lemma_signed_headers_are_sent_headers(v: DeliveryView)
    requires
        consistent(v),
        v.state.has_signature(),
    ensures
        v.signing_string == signing_string_text(
            v.inbox_path,
            request_of(v).headers[2].1,
            request_of(v).headers[3].1,
            request_of(v).headers[4].1,
        ),
        request_of(v).headers[4] == ("Digest"@, body_digest_text(request_of(v).body)),
        v.signing_string.subrange(
            v.signing_string.len() - request_of(v).headers[4].1.len(),
            v.signing_string.len() as int,
        ) == request_of(v).headers[4].1,
{
    lemma_signing_string_ends_with_digest(v.inbox_path, v.host, v.date, v.digest);
}

/// What a signature covers is what is sent. Signing a consistent digested
/// attempt gives a consistent attempt, and in its request the `Signature`
/// header holds, in base64 and under the actor's key id, the signature
/// under the actor's key of the signing string rebuilt from the inbox path
/// and the `Host`, `Date` and `Digest` headers of that very request.
pub proof fn lemma_signature_covers_what_is_sent(
    before: DeliveryView,
    actor: ActorView,
    unix_seconds: u64,
)
    requires
        before.state is Digested,
        consistent(before),
    ensures
        ({
            let signed = signed_view(before, actor, unix_seconds);
            let request = request_of(signed);
            let rebuilt = signing_string_text(
                signed.inbox_path,
                request.headers[2].1,
                request.headers[3].1,
                request.headers[4].1,
            );
            &&& consistent(signed)
            &&& request.body == before.body
            &&& request.headers[4].1 == body_digest_text(request.body)
            &&& signed.signature == rsa_sha256_signature(actor.private_key, encode_utf8(rebuilt))
            &&& request.headers[5].1 == signature_header_text(
                actor.public_key_id,
                base64_text(signed.signature),
            )
        }),
{
}

} // verus!
