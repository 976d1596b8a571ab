//! The signature verifier: the digest of the canonical message, checked
//! against the oracle's key under the algorithm that the stored tag names.

use vstd::prelude::*;
use vstd::string::*;
use vstd::utf8::encode_utf8;
use crate::host::{secp256k1_verdict, secp256k1_verify, sha256, sha256_digest};
use crate::state::same_text;

verus! {

/// What checking a signature came to.
#[derive(Clone, Copy, Debug, PartialEq, Eq, Structural)]
pub enum SignatureCheck {
    /// The signature verifies.
    Valid,
    /// The signature is well-formed and does not verify.
    Invalid,
    /// The backend rejected the encoding of the hash, signature or key.
    Malformed,
    /// The algorithm has no verification path.
    Unsupported,
}

/// The outcome for an algorithm tag and the backend's answer: only
/// `secp256k1` is ever verified.
pub open spec fn check_of(key_type: Seq<char>, verdict: Option<bool>) -> SignatureCheck {
    if key_type == "secp256k1"@ {
        match verdict {
            Some(true) => SignatureCheck::Valid,
            Some(false) => SignatureCheck::Invalid,
            None => SignatureCheck::Malformed,
        }
    } else {
        SignatureCheck::Unsupported
    }
}

/// The outcome of verifying `signature` over the SHA-256 digest of
/// `message` against `pubkey`.
pub open spec fn signature_check(
    message: Seq<u8>,
    signature: Seq<u8>,
    pubkey: Seq<u8>,
    key_type: Seq<char>,
) -> SignatureCheck {
    check_of(key_type, secp256k1_verdict(sha256_digest(message), signature, pubkey))
}

/// The canonical message of an approved receipt: the four fields in this
/// order, as UTF-8, with one `|` between neighbours and no escaping.
pub open spec fn approval_message(
    sender: Seq<char>,
    amount: Seq<char>,
    contract: Seq<char>,
    nonce: Seq<char>,
) -> Seq<u8> {
    encode_utf8(sender) + seq![124u8] + encode_utf8(amount) + seq![124u8] + encode_utf8(contract)
        + seq![124u8] + encode_utf8(nonce)
}

impl SignatureCheck {
    /// Whether the request may go on: only a signature that verifies passes.
    pub fn is_valid(&self) -> (r: bool)
        ensures
            r == (*self == SignatureCheck::Valid),
    {
        match self {
            SignatureCheck::Valid => true,
            _ => false,
        }
    }
}

/// Turns the backend's answer into an outcome, for an algorithm tag.
pub fn classify_verdict(key_type: &str, verdict: Option<bool>) -> (r: SignatureCheck)
    ensures
        r == check_of(key_type@, verdict),
{
    if same_text(key_type, "secp256k1") {
        match verdict {
            Some(true) => SignatureCheck::Valid,
            Some(false) => SignatureCheck::Invalid,
            None => SignatureCheck::Malformed,
        }
    } else {
        SignatureCheck::Unsupported
    }
}

/// Verifies a signature over a canonical message. Under any tag but
/// `secp256k1` the answer is `Unsupported` and the backend is not asked.
pub fn verify_signature(message: &[u8], signature: &[u8], pubkey: &[u8], key_type: &str) -> (r:
    SignatureCheck)
    ensures
        r == signature_check(message@, signature@, pubkey@, key_type@),
{
    if same_text(key_type, "secp256k1") {
        let hash = sha256(message);
        let verdict = secp256k1_verify(hash.as_slice(), signature, pubkey);
        classify_verdict(key_type, verdict)
    } else {
        SignatureCheck::Unsupported
    }
}

/// Builds the canonical message of an approved receipt.
pub fn build_approval_message(sender: &str, amount: &str, contract: &str, nonce: &str) -> (r: Vec<u8>)
    ensures
        r@ == approval_message(sender@, amount@, contract@, nonce@),
{
    let mut message: Vec<u8> = sender.as_bytes_vec();
    let mut part: Vec<u8> = amount.as_bytes_vec();
    message.push(124u8);
    message.append(&mut part);
    part = contract.as_bytes_vec();
    message.push(124u8);
    message.append(&mut part);
    part = nonce.as_bytes_vec();
    message.push(124u8);
    message.append(&mut part);
    assert(message@ =~= approval_message(sender@, amount@, contract@, nonce@));
    message
}

} // verus!
