use crate::error::{DeliveryError, KeyError, SigningError};
use vstd::prelude::*;

verus! {

/// The error stack of OpenSSL, carried through as an opaque value.
#[verifier::external_type_specification]
#[verifier::external_body]
pub struct ExErrorStack(openssl::error::ErrorStack);

/// Why OpenSSL did not sign, with what it reported: the key was not read
/// or not accepted, or the signer failed.
pub enum SignFailure {
    Key(openssl::error::ErrorStack),
    Signing(openssl::error::ErrorStack),
}

/// The SHA-256 digest of a byte sequence.
pub uninterp spec fn sha256_digest(data: Seq<u8>) -> Seq<u8>;

/// The base64 text of a byte sequence: standard alphabet, padded, on one
/// line.
pub uninterp spec fn base64_text(data: Seq<u8>) -> Seq<char>;

/// The RSA signature of `message`, with PKCS#1 v1.5 padding over SHA-256,
/// under the private key that the PEM text holds.
pub uninterp spec fn rsa_sha256_signature(private_key_pem: Seq<u8>, message: Seq<u8>) -> Seq<u8>;

/// No digest of OpenSSL is longer than this many bytes.
pub const MAX_DIGEST_LEN: usize = 64;

/// The longest input that `base64_encode` takes.
pub const MAX_BASE64_INPUT: usize = 0x4000_0000;

/// The longest PEM text that the key parser takes.
pub const MAX_PEM_LEN: usize = 0x7fff_ffff;

/// `openssl::hash::hash` with `MessageDigest::sha256()`: on success the
/// SHA-256 digest of `data`, which like every digest of OpenSSL has at most
/// `MAX_DIGEST_LEN` bytes.
#[verifier::external_body]
pub(crate) fn sha256(data: &[u8]) -> (r: Result<Vec<u8>, openssl::error::ErrorStack>)
    ensures
        r matches Ok(digest) ==> digest@ == sha256_digest(data@) && digest@.len() <= MAX_DIGEST_LEN,
{
    openssl::hash::hash(openssl::hash::MessageDigest::sha256(), data).map(|digest| digest.to_vec())
}

/// `openssl::base64::encode_block`: the base64 text of `src`. The outside
/// function panics where the length of the text with its terminator does
/// not fit a C `int`; the bound on `src` keeps well below that.
#[verifier::external_body]
pub(crate) fn base64_encode(src: &[u8]) -> (text: String)
    requires
        src@.len() <= MAX_BASE64_INPUT,
    ensures
        text@ == base64_text(src@),
{
    openssl::base64::encode_block(src)
}

/// Signing with OpenSSL as one call: `Rsa::private_key_from_pem` and
/// `PKey::from_rsa` make the key of the PEM text, `Signer::new` with
/// `MessageDigest::sha256()` and `Signer::set_rsa_padding` with
/// `Padding::PKCS1` set the signer up, and `Signer::sign_oneshot_to_vec`
/// signs `message`. On success the result is the signature of `message`
/// under that key, which for this padding is a function of key and message
/// alone. A failure says whether it came before the signer was made.
/// Nothing is claimed of when it fails. The key parser panics on a text
/// longer than a C `int` can count.
#[verifier::external_body]
pub(crate) fn rsa_sha256_sign(private_key_pem: &[u8], message: &[u8]) -> (r: Result<
    Vec<u8>,
    SignFailure,
>)
    requires
        private_key_pem@.len() <= MAX_PEM_LEN,
    ensures
        r matches Ok(signature) ==> signature@ == rsa_sha256_signature(private_key_pem@, message@),
{
    let rsa = openssl::rsa::Rsa::private_key_from_pem(private_key_pem).map_err(SignFailure::Key)?;
    let key = openssl::pkey::PKey::from_rsa(rsa).map_err(SignFailure::Key)?;
    let mut signer = openssl::sign::Signer::new(openssl::hash::MessageDigest::sha256(), &key)
        .map_err(SignFailure::Signing)?;
    signer.set_rsa_padding(openssl::rsa::Padding::PKCS1).map_err(SignFailure::Signing)?;
    signer.sign_oneshot_to_vec(message).map_err(SignFailure::Signing)
}

/// How an outcome of the signer is reported.
pub open spec fn signing_reported(
    outcome: Result<Vec<u8>, SignFailure>,
    r: Result<Vec<u8>, DeliveryError>,
) -> bool {
    match outcome {
        Ok(signature) => r == Ok::<Vec<u8>, DeliveryError>(signature),
        Err(SignFailure::Key(_)) => r == Err::<Vec<u8>, DeliveryError>(
            DeliveryError::Key(KeyError::Malformed),
        ),
        Err(SignFailure::Signing(_)) => r == Err::<Vec<u8>, DeliveryError>(
            DeliveryError::Signing(SigningError::Sign),
        ),
    }
}

/// Reports an outcome of the signer: a signature is handed on, a key that
/// was not read or not accepted is a `KeyError`, a failing signer a
/// `SigningError`.
pub fn report_signing(outcome: Result<Vec<u8>, SignFailure>) -> (r: Result<Vec<u8>, DeliveryError>)
    ensures
        signing_reported(outcome, r),
{
    match outcome {
        Ok(signature) => Ok(signature),
        Err(SignFailure::Key(_)) => Err(DeliveryError::Key(KeyError::Malformed)),
        Err(SignFailure::Signing(_)) => Err(DeliveryError::Signing(SigningError::Sign)),
    }
}

/// Signs `message` with the RSA private key in `private_key_pem`, with
/// PKCS#1 v1.5 padding over SHA-256, and returns the raw signature.
///
/// OpenSSL decides whether the key is read and whether the signing works.
/// A key text longer than `MAX_PEM_LEN` is refused before it is tried.
pub fn sign_rsa_sha256(private_key_pem: &[u8], message: &[u8]) -> (r: Result<
    Vec<u8>,
    DeliveryError,
>)
    ensures
        r matches Ok(signature) ==> signature@ == rsa_sha256_signature(private_key_pem@, message@),
        (r matches Err(DeliveryError::Key(KeyError::TooLong))) <==> private_key_pem@.len()
            > MAX_PEM_LEN,
        r matches Err(e) ==> e == DeliveryError::Key(KeyError::TooLong) || e == DeliveryError::Key(
            KeyError::Malformed,
        ) || e == DeliveryError::Signing(SigningError::Sign),
{
    if private_key_pem.len() > MAX_PEM_LEN {
        return Err(DeliveryError::Key(KeyError::TooLong));
    }
    report_signing(rsa_sha256_sign(private_key_pem, message))
}

} // verus!
