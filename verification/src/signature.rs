use crate::crypto::{base64_encode, base64_text, sha256, sha256_digest, MAX_BASE64_INPUT};
use crate::error::{DeliveryError, SigningError};
use vstd::prelude::*;

verus! {

/// The string that is signed: the request target, host, date and digest,
/// one per line in that order, lower-case names, no newline at the end.
pub open spec fn signing_string_text(
    inbox_path: Seq<char>,
    host: Seq<char>,
    date: Seq<char>,
    digest: Seq<char>,
) -> Seq<char> {
    "(request-target): post "@ + inbox_path + "\nhost: "@ + host + "\ndate: "@ + date
        + "\ndigest: "@ + digest
}

/// The value of the `Digest` header for a base64 digest.
pub open spec fn digest_header_text(digest_base64: Seq<char>) -> Seq<char> {
    "SHA-256="@ + digest_base64
}

/// The value of the `Digest` header of a body.
pub open spec fn body_digest_text(body: Seq<u8>) -> Seq<char> {
    digest_header_text(base64_text(sha256_digest(body)))
}

/// The value of the `Signature` header for a key id and a base64 signature.
pub open spec fn signature_header_text(key_id: Seq<char>, signature_base64: Seq<char>) -> Seq<
    char,
> {
    "keyId=\""@ + key_id
        + "\",algorithm=\"rsa-sha256\",headers=\"(request-target) host date digest\",signature=\""@
        + signature_base64 + "\""@
}

/// Builds the string that is signed for a `POST` to `inbox_path` on `host`.
pub fn signing_string(inbox_path: &str, host: &str, date: &str, digest: &str) -> (s: String)
    ensures
        s@ == signing_string_text(inbox_path@, host@, date@, digest@),
{
    let mut s = String::from_str("(request-target): post ");
    s.append(inbox_path);
    s.append("\nhost: ");
    s.append(host);
    s.append("\ndate: ");
    s.append(date);
    s.append("\ndigest: ");
    s.append(digest);
    s
}

/// Builds the value of the `Digest` header from a digest in base64.
pub fn digest_header_value(digest_base64: &str) -> (value: String)
    ensures
        value@ == digest_header_text(digest_base64@),
{
    let mut value = String::from_str("SHA-256=");
    value.append(digest_base64);
    value
}

/// Builds the value of the `Digest` header from the digest's bytes, or
/// nothing where they are more than the base64 encoder takes.
pub fn digest_header(digest: &[u8]) -> (r: Option<String>)
    ensures
        r is Some <==> digest@.len() <= MAX_BASE64_INPUT,
        r matches Some(value) ==> value@ == digest_header_text(base64_text(digest@)),
{
    if digest.len() > MAX_BASE64_INPUT {
        return None;
    }
    let encoded = base64_encode(digest);
    Some(digest_header_value(encoded.as_str()))
}

/// How an outcome of the hash is reported.
pub open spec fn digest_reported(
    outcome: Result<Vec<u8>, openssl::error::ErrorStack>,
    r: Result<String, DeliveryError>,
) -> bool {
    match outcome {
        Ok(digest) if digest@.len() <= MAX_BASE64_INPUT => r matches Ok(value) && value@
            == digest_header_text(base64_text(digest@)),
        _ => r == Err::<String, DeliveryError>(DeliveryError::Signing(SigningError::Digest)),
    }
}

/// Reports an outcome of the hash: a digest becomes the value of the
/// `Digest` header, a failure a `SigningError`.
pub fn report_digest(outcome: Result<Vec<u8>, openssl::error::ErrorStack>) -> (r: Result<
    String,
    DeliveryError,
>)
    ensures
        digest_reported(outcome, r),
{
    match outcome {
        Ok(digest) => match digest_header(digest.as_slice()) {
            Some(value) => Ok(value),
            None => Err(DeliveryError::Signing(SigningError::Digest)),
        },
        Err(_) => Err(DeliveryError::Signing(SigningError::Digest)),
    }
}

/// Computes the value of the `Digest` header of `body`: `SHA-256=` and the
/// base64 text of the body's SHA-256 digest. It fails only where OpenSSL
/// cannot compute the digest.
pub fn body_digest(body: &[u8]) -> (r: Result<String, DeliveryError>)
    ensures
        r matches Ok(value) ==> value@ == body_digest_text(body@),
        r matches Err(e) ==> e == DeliveryError::Signing(SigningError::Digest),
{
    report_digest(sha256(body))
}

/// Builds the value of the `Signature` header.
pub fn signature_header(key_id: &str, signature_base64: &str) -> (s: String)
    ensures
        s@ == signature_header_text(key_id@, signature_base64@),
{
    let mut s = String::from_str("keyId=\"");
    s.append(key_id);
    s.append(
        "\",algorithm=\"rsa-sha256\",headers=\"(request-target) host date digest\",signature=\"",
    );
    s.append(signature_base64);
    s.append("\"");
    s
}

/// Builds the value of the `Signature` header from the raw signature, or
/// nothing where it is longer than the base64 encoder takes.
pub fn signature_header_of(key_id: &str, signature: &[u8]) -> (r: Option<String>)
    ensures
        r is Some <==> signature@.len() <= MAX_BASE64_INPUT,
        r matches Some(value) ==> value@ == signature_header_text(key_id@, base64_text(signature@)),
{
    if signature.len() > MAX_BASE64_INPUT {
        return None;
    }
    let encoded = base64_encode(signature);
    Some(signature_header(key_id, encoded.as_str()))
}

/// A signing string ends with the digest it was built from, right after
/// the label `digest: ` on its last line, and nothing follows it.
pub proof fn lemma_signing_string_ends_with_digest(
    inbox_path: Seq<char>,
    host: Seq<char>,
    date: Seq<char>,
    digest: Seq<char>,
)
    ensures
        ({
            let s = signing_string_text(inbox_path, host, date, digest);
            let label = "\ndigest: "@;
            &&& label.len() + digest.len() <= s.len()
            &&& s.subrange(s.len() - digest.len(), s.len() as int) == digest
            &&& s.subrange(s.len() - digest.len() - label.len(), s.len() - digest.len()) == label
        }),
{
    let s = signing_string_text(inbox_path, host, date, digest);
    let label = "\ndigest: "@;
    assert(s.subrange(s.len() - digest.len(), s.len() as int) =~= digest);
    assert(s.subrange(s.len() - digest.len() - label.len(), s.len() - digest.len()) =~= label);
}

/// Two signing strings for the same path, host and date are equal only if
/// their digests are: the digest a signature covers is the one it was
/// built from.
pub proof fn lemma_signing_string_fixes_digest(
    inbox_path: Seq<char>,
    host: Seq<char>,
    date: Seq<char>,
    digest_a: Seq<char>,
    digest_b: Seq<char>,
)
    requires
        signing_string_text(inbox_path, host, date, digest_a) == signing_string_text(
            inbox_path,
            host,
            date,
            digest_b,
        ),
    ensures
        digest_a == digest_b,
{
    let head = "(request-target): post "@ + inbox_path + "\nhost: "@ + host + "\ndate: "@ + date
        + "\ndigest: "@;
    let a = head + digest_a;
    let b = head + digest_b;
    assert(a.len() == b.len());
    assert(a.subrange(head.len() as int, a.len() as int) =~= digest_a);
    assert(b.subrange(head.len() as int, b.len() as int) =~= digest_b);
}

} // verus!
