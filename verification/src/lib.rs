//! Protocol layer for driving a contactless reader in direct mode: the
//! tag/length/value decoder for firmware responses, the encoders for the
//! outbound escape-command frames, the status-word table, the NFC-F polling
//! response decoder, and the session state machine that sequences them.
//!
//! All I/O (the card-service resource manager and its control channel) stays
//! outside this crate; callers hand every response in as plain bytes and send
//! every request frame this crate builds.
use vstd::prelude::*;

pub mod apdu;
pub mod nfc_f;
pub mod parser;
pub mod session;
pub mod tlv;

verus! {

/// Errors surfaced by the protocol layer and by a session driver.
#[derive(Clone, Copy, Debug, PartialEq, Eq, Structural)]
pub enum PcscError {
    /// No enumerated reader name starts with the requested prefix.
    ReaderNotFound,
    /// The exclusive direct connection to the reader could not be opened.
    ConnectFailed,
    /// A lifecycle command was attempted before any capability code was set.
    CapabilityCodeMissing,
    /// A response buffer did not decode: a TLV record ran past the end of the
    /// buffer, a status record had the wrong length, or a polling response
    /// frame was shorter than required.
    MalformedResponse,
    /// The control exchange itself failed at the collaborator boundary.
    TransportFailure,
}

} // verus!
