//! The calls this library makes into code it does not verify. Each function
//! here is believed on its contract; everything else is proved from them.

use vstd::prelude::*;
use base64::Engine;
use cosmwasm_std::Api;
use sha2::Digest;
use crate::msg::{coins_view, Coin};

verus! {

/// The bytes that base64's `STANDARD` engine decodes a text to; `None`
/// where it refuses the text.
pub uninterp spec fn base64_decoded(text: Seq<char>) -> Option<Seq<u8>>;

/// The SHA-256 digest of a byte string, as sha2 computes it.
pub uninterp spec fn sha256_digest(data: Seq<u8>) -> Seq<u8>;

/// What `Api::secp256k1_verify` of cosmwasm_std says of a message hash, a
/// compact signature and a SEC1 public key: `Some` of its answer, or `None`
/// where it fails with an error.
pub uninterp spec fn secp256k1_verdict(hash: Seq<u8>, signature: Seq<u8>, pubkey: Seq<u8>) -> Option<bool>;

/// Whether `Api::addr_validate`, in cosmwasm_std's native implementation,
/// accepts an identity.
pub uninterp spec fn address_accepted(input: Seq<char>) -> bool;

/// The text that `{:?}` gives for a list of cosmwasm_std's `Coin`, each
/// coin taken as its denomination and its amount.
pub uninterp spec fn coins_debug_text(funds: Seq<(Seq<char>, u128)>) -> Seq<char>;

/// Calls `decode` of base64's `STANDARD` engine. The contract names the
/// decoded bytes and says that an error of the decoder becomes `None`.
#[verifier::external_body]
pub(crate) fn base64_decode(text: &str) -> (r: Option<Vec<u8>>)
    ensures
        match r {
            Some(bytes) => base64_decoded(text@) == Some(bytes@),
            None => base64_decoded(text@) is None,
        },
{
    match base64::engine::general_purpose::STANDARD.decode(text) {
        Ok(bytes) => Some(bytes),
        Err(_) => None,
    }
}

/// Calls `Sha256::digest` of sha2. The contract only names the digest.
#[verifier::external_body]
pub(crate) fn sha256(data: &[u8]) -> (r: Vec<u8>)
    ensures
        r@ == sha256_digest(data@),
{
    sha2::Sha256::digest(data).to_vec()
}

/// Calls `Api::secp256k1_verify` of cosmwasm_std on its native
/// implementation, which depends on its three arguments alone. The contract
/// names the answer; an error of the backend becomes `None`.
#[verifier::external_body]
pub(crate) fn secp256k1_verify(hash: &[u8], signature: &[u8], pubkey: &[u8]) -> (r: Option<bool>)
    ensures
        r == secp256k1_verdict(hash@, signature@, pubkey@),
{
    match cosmwasm_std::testing::MockApi::default().secp256k1_verify(hash, signature, pubkey) {
        Ok(verified) => Some(verified),
        Err(_) => None,
    }
}

/// Calls `Api::addr_validate` of cosmwasm_std on its native implementation.
/// The contract names the decision and says that an accepted address is
/// handed back letter for letter.
#[verifier::external_body]
pub(crate) fn addr_validate(input: &str) -> (r: Option<String>)
    ensures
        (r is Some) == address_accepted(input@),
        r matches Some(address) ==> address@ == input@,
{
    match cosmwasm_std::testing::MockApi::default().addr_validate(input) {
        Ok(address) => Some(address.into_string()),
        Err(_) => None,
    }
}

/// Formats the coins with the `Debug` impl of cosmwasm_std's `Coin`, as a
/// list. The contract only names the text.
#[verifier::external_body]
pub(crate) fn coins_debug(funds: &Vec<Coin>) -> (r: String)
    ensures
        r@ == coins_debug_text(coins_view(funds@)),
{
    let coins: Vec<cosmwasm_std::Coin> =
        funds.iter().map(|c| cosmwasm_std::Coin::new(c.amount, c.denom.clone())).collect();
    format!("{:?}", coins)
}

/// The Unicode lowercase form of a string, as `str::to_lowercase` computes it.
pub uninterp spec fn lowercase(s: Seq<char>) -> Seq<char>;

/// Whether a character has the Unicode property `White_Space`, as
/// `char::is_whitespace` reports it.
pub uninterp spec fn is_white_space(c: char) -> bool;

/// Calls `str::to_lowercase`. The contract only gives the result its name:
/// nothing is claimed about which characters change.
#[verifier::external_body]
pub(crate) fn to_lowercase(s: &str) -> (r: String)
    ensures
        r@ == lowercase(s@),
{
    s.to_lowercase()
}

/// Calls `char::is_whitespace`. The contract only gives the answer its name.
#[verifier::external_body]
pub(crate) fn char_is_whitespace(c: char) -> (r: bool)
    ensures
        r == is_white_space(c),
{
    c.is_whitespace()
}

} // verus!
