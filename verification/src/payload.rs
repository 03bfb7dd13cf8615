//! Binary chain objects that cross the RPC boundary: checkpoints and
//! cross-subnet messages. Both travel base64-encoded and are validated
//! against the chain's self-describing binary codec before they are accepted;
//! their content stays opaque to this library.

use vstd::prelude::*;

use crate::codecs::cbor_envelope_ok;
use crate::codecs::cbor_envelope_check;

verus! {

/// A bottom-up checkpoint: an opaque, versioned, binary-encoded record of a
/// child subnet's state commitment for an epoch range.
#[derive(Debug, Clone, PartialEq, Eq)]
pub struct Checkpoint {
    payload: Vec<u8>,
}

impl View for Checkpoint {
    type V = Seq<u8>;

    closed spec fn view(&self) -> Seq<u8> {
        self.payload@
    }
}

impl Checkpoint {
    /// The payload is one well-formed envelope of the binary codec.
    pub open spec fn well_formed(&self) -> bool {
        cbor_envelope_ok(self@)
    }

    /// Validates envelope bytes and wraps them; `None` exactly when the bytes
    /// are not one well-formed envelope.
    pub fn from_envelope(bytes: Vec<u8>) -> (r: Option<Checkpoint>)
        ensures
            r is Some <==> cbor_envelope_ok(bytes@),
            r matches Some(c) ==> c@ == bytes@ && c.well_formed(),
    {
        if cbor_envelope_check(&bytes) {
            Some(Checkpoint { payload: bytes })
        } else {
            None
        }
    }

    /// The envelope bytes.
    pub fn payload(&self) -> (r: &Vec<u8>)
        ensures
            r@ == self@,
    {
        &self.payload
    }
}

/// A cross-subnet message relayed top-down from a parent to a child: an
/// opaque, nonce-tagged, binary-encoded record.
#[derive(Debug, Clone, PartialEq, Eq)]
pub struct CrossMsg {
    payload: Vec<u8>,
}

impl View for CrossMsg {
    type V = Seq<u8>;

    closed spec fn view(&self) -> Seq<u8> {
        self.payload@
    }
}

impl CrossMsg {
    /// The payload is one well-formed envelope of the binary codec.
    pub open spec fn well_formed(&self) -> bool {
        cbor_envelope_ok(self@)
    }

    /// Validates envelope bytes and wraps them; `None` exactly when the bytes
    /// are not one well-formed envelope.
    pub fn from_envelope(bytes: Vec<u8>) -> (r: Option<CrossMsg>)
        ensures
            r is Some <==> cbor_envelope_ok(bytes@),
            r matches Some(m) ==> m@ == bytes@ && m.well_formed(),
    {
        if cbor_envelope_check(&bytes) {
            Some(CrossMsg { payload: bytes })
        } else {
            None
        }
    }

    /// The envelope bytes.
    pub fn payload(&self) -> (r: &Vec<u8>)
        ensures
            r@ == self@,
    {
        &self.payload
    }
}

} // verus!
