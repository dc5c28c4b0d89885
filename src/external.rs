//! The calls into outside crates that resolution relies on.
use vstd::prelude::*;

verus! {

/// What `sp_core`'s SS58 decoder makes of a text: the account bytes and the
/// address format's prefix, or nothing.
pub uninterp spec fn ss58_decoded_of(s: Seq<char>) -> Option<(Seq<u8>, u16)>;

/// Whether the SS58 registry leaves an address format's prefix unnamed.
pub uninterp spec fn ss58_custom_of(prefix: u16) -> bool;

/// What SCALE decoding of a byte vector makes of stored bytes: the vector,
/// or nothing.
pub uninterp spec fn scale_bytes_of(b: Seq<u8>) -> Option<Seq<u8>>;

/// Relies on `sp_core::crypto::Ss58Codec::from_ss58check_with_version` for
/// `AccountId32`: it decodes an SS58 address (base58, prefix, checksum) into
/// the account's 32 bytes and the address format, or fails.
#[verifier::external_body]
pub(crate) fn decode_ss58(s: &str) -> (r: Option<(Vec<u8>, u16)>)
    ensures
        match r {
            Some((account, prefix)) => ss58_decoded_of(s@) == Some((account@, prefix))
                && account@.len() == 32,
            None => ss58_decoded_of(s@) is None,
        },
{
    match <sp_core::crypto::AccountId32 as sp_core::crypto::Ss58Codec>::from_ss58check_with_version(s) {
        Ok((account, format)) => Some((<[u8; 32]>::from(account).to_vec(), u16::from(format))),
        Err(_) => None,
    }
}

/// Relies on `Ss58AddressFormat::is_custom` of the SS58 registry that
/// `sp_core` re-exports: true for a prefix that the registry does not name.
#[verifier::external_body]
pub(crate) fn is_custom_format(prefix: u16) -> (r: bool)
    ensures
        r == ss58_custom_of(prefix),
{
    sp_core::crypto::Ss58AddressFormat::from(prefix).is_custom()
}

/// Relies on `parity_scale_codec::Decode` for `Vec<u8>`: a compact length
/// followed by that many bytes. Empty input holds no length, so it fails.
#[verifier::external_body]
pub(crate) fn decode_reference(b: &[u8]) -> (r: Option<Vec<u8>>)
    ensures
        match r {
            Some(v) => scale_bytes_of(b@) == Some(v@),
            None => scale_bytes_of(b@) is None,
        },
        b@.len() == 0 ==> r is None,
{
    let mut input = b;
    <Vec<u8> as parity_scale_codec::Decode>::decode(&mut input).ok()
}

} // verus!
