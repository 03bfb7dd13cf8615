//! Bindings to the outside codecs this library relies on: the base64 text
//! form of binary envelopes, the chain's self-describing binary codec, and
//! the textual address and content-identifier formats.
//!
//! Each binding is a thin wrapper whose contract names what the outside call
//! computes; everything done with the results is verified against those names.

use vstd::prelude::*;

use base64::Engine;

verus! {

/// The bytes denoted by a standard-alphabet base64 text, or `None` when the
/// text is not valid base64.
pub uninterp spec fn base64_decoded(s: Seq<char>) -> Option<Seq<u8>>;

/// The standard-alphabet base64 text of a byte sequence.
pub uninterp spec fn base64_of(b: Seq<u8>) -> Seq<char>;

/// Whether a byte sequence is one well-formed envelope of the chain's
/// self-describing binary codec.
pub uninterp spec fn cbor_envelope_ok(b: Seq<u8>) -> bool;

/// Whether a text is a well-formed chain address.
pub uninterp spec fn addr_text_ok(s: Seq<char>) -> bool;

/// Whether a text is a well-formed content identifier.
pub uninterp spec fn cid_text_ok(s: Seq<char>) -> bool;

/// Relies on `base64::engine::general_purpose::STANDARD.decode`: the standard
/// alphabet with padding; the result is a function of the text alone, and the
/// call fails exactly on text that is not valid base64.
#[verifier::external_body]
pub fn base64_decode(s: &str) -> (r: Option<Vec<u8>>)
    ensures
        r is Some <==> base64_decoded(s@) is Some,
        r matches Some(b) ==> base64_decoded(s@) == Some(b@),
{
    base64::engine::general_purpose::STANDARD.decode(s).ok()
}

/// Relies on `base64::engine::general_purpose::STANDARD.encode`: the standard
/// alphabet with padding; the result is a function of the bytes alone.
#[verifier::external_body]
pub fn base64_encode(b: &Vec<u8>) -> (r: String)
    ensures
        r@ == base64_of(b@),
{
    base64::engine::general_purpose::STANDARD.encode(b)
}

/// Relies on `fvm_ipld_encoding::from_slice` deserializing into the codec's
/// own dynamic value, which covers every shape of the format, byte strings
/// and content-identifier links included: whether the bytes form one
/// well-formed envelope of the chain's self-describing binary codec. The
/// result is a function of the bytes alone.
#[verifier::external_body]
pub fn cbor_envelope_check(b: &Vec<u8>) -> (r: bool)
    ensures
        r == cbor_envelope_ok(b@),
{
    fvm_ipld_encoding::from_slice::<ipld_core::ipld::Ipld>(b.as_slice()).is_ok()
}

/// Relies on `fvm_shared::address::Network::parse_address` with the test
/// network prefix: whether the text is a well-formed chain address; the
/// result is a function of the text alone.
#[verifier::external_body]
pub fn address_text_check(s: &str) -> (r: bool)
    ensures
        r == addr_text_ok(s@),
{
    fvm_shared::address::Network::Testnet.parse_address(s).is_ok()
}

/// Relies on `cid::Cid::try_from` on text: whether the text is a well-formed
/// content identifier; the result is a function of the text alone.
#[verifier::external_body]
pub fn cid_text_check(s: &str) -> (r: bool)
    ensures
        r == cid_text_ok(s@),
{
    cid::Cid::try_from(s).is_ok()
}

} // verus!
