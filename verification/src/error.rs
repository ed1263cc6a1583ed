use vstd::prelude::*;

verus! {

/// Why an activity document could not be composed.
#[derive(Debug, Clone, Copy, PartialEq, Eq, Structural)]
pub enum CompositionError {
    /// The content is not valid UTF-8, so it cannot stand in a JSON string.
    ContentNotUtf8,
}

/// Why the private key could not be used.
#[derive(Debug, Clone, Copy, PartialEq, Eq, Structural)]
pub enum KeyError {
    /// The PEM text is longer than the parser takes.
    TooLong,
    /// The PEM text does not hold an RSA private key that can be used.
    Malformed,
}

/// Which cryptographic step of a delivery failed.
#[derive(Debug, Clone, Copy, PartialEq, Eq, Structural)]
pub enum SigningError {
    /// The SHA-256 digest of the body could not be computed.
    Digest,
    /// The signing operation failed, as with a key that does not fit the
    /// algorithm.
    Sign,
    /// The signature is longer than the base64 encoder takes.
    SignatureTooLong,
}

/// Why a delivery did not end with an accepted activity.
#[derive(Debug, PartialEq, Eq)]
pub enum DeliveryError {
    /// The private key is malformed or unusable.
    Key(KeyError),
    /// A cryptographic step failed.
    Signing(SigningError),
    /// The network exchange failed: name resolution, connect, TLS, or a
    /// timeout of the transport.
    Transport,
    /// The caller's bound on the whole operation ran out.
    Timeout,
    /// The exchange succeeded and the remote answered with a status outside
    /// 200..=299. The body is kept as it came, for diagnostics.
    RemoteRejected { status: u16, body: String },
}

} // verus!
