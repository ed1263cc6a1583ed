//! Outbound ActivityPub delivery: composing a `Create`/`Note` activity,
//! digesting and signing it with an HTTP Signature, assembling the request
//! for a remote inbox, and classifying what the transport reports.

pub mod actor;
pub mod compose;
pub mod crypto;
pub mod date;
pub mod delivery;
pub mod discovery;
pub mod error;
pub mod json;
pub mod signature;
pub mod state;

pub use actor::Actor;
pub use compose::{compose_note, ActivityDocument};
pub use delivery::{
    classify_outcome, Delivery, DeliveryReceipt, DeliveryRequest, DeliveryTarget, Header,
    TransportOutcome,
};
pub use error::{CompositionError, DeliveryError, KeyError, SigningError};
pub use state::{advance, advance_all, DeliveryEvent, DeliveryState};
