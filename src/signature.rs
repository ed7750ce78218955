use vstd::prelude::*;
use solana_sdk::signature::{ParseSignatureError, Signature};
use crate::types::TxParseError;

verus! {

/// A transaction signature of solana-signature, carried through opaquely.
#[verifier::external_type_specification]
#[verifier::external_body]
pub struct ExSignature(Signature);

/// The error of solana-signature's `Signature::from_str`.
#[verifier::external_type_specification]
#[verifier::external_body]
pub struct ExParseSignatureError(ParseSignatureError);

/// core's error for a slice of the wrong length, which `Signature`'s
/// `TryFrom<&[u8]>` impl names.
#[verifier::external_type_specification]
#[verifier::external_body]
pub struct ExTryFromSliceError(core::array::TryFromSliceError);

/// Whether the text is accepted as a base58-encoded 64-byte signature.
pub uninterp spec fn signature_accepts(s: Seq<char>) -> bool;

/// Relies on `Signature::from_str` (solana-signature): it succeeds exactly on
/// the texts it accepts, and refuses any text longer than 88 bytes before
/// decoding.
#[verifier::external_body]
fn signature_from_str(s: &str) -> (r: Result<Signature, ParseSignatureError>)
    ensures
        r is Ok <==> signature_accepts(s@),
        s@.len() > 88 ==> r is Err,
{
    <Signature as std::str::FromStr>::from_str(s)
}

/// Maps the outcome of decoding a signature to this library's error.
pub fn accept_signature(decoded: Result<Signature, ParseSignatureError>) -> (r: Result<
    Signature,
    TxParseError,
>)
    ensures
        decoded is Ok <==> r is Ok,
        r is Err ==> r matches Err(TxParseError::InvalidSignature),
        decoded matches Ok(sig) ==> r == Ok::<Signature, TxParseError>(sig),
{
    match decoded {
        Ok(sig) => Ok(sig),
        Err(_) => Err(TxParseError::InvalidSignature),
    }
}

/// Reads a transaction signature, rejecting malformed text before anything
/// is fetched.
pub fn parse_signature(s: &str) -> (r: Result<Signature, TxParseError>)
    ensures
        r is Ok <==> signature_accepts(s@),
        r is Err ==> r matches Err(TxParseError::InvalidSignature),
        s@.len() > 88 ==> r matches Err(TxParseError::InvalidSignature),
{
    accept_signature(signature_from_str(s))
}

} // verus!
