//! Replay protection for approved receipts, for callers that ask for it.
//! The plain handler records a nonce and remembers nothing; the guarded one
//! here keeps the nonces it has accepted and refuses each a second time.

use vstd::prelude::*;
use crate::contract::{approval_outcome, execute_receive_with_approval};
use crate::msg::{ContractError, Env, Response, ResponseView};
use crate::state::{contains_text, texts, Store, StoreView};

verus! {

/// The nonces of the approved receipts accepted so far.
#[derive(Clone, Debug, PartialEq, Eq)]
pub struct NonceLedger {
    pub consumed: Vec<String>,
}

impl View for NonceLedger {
    type V = Set<Seq<char>>;

    open spec fn view(&self) -> Set<Seq<char>> {
        texts(self.consumed@).to_set()
    }
}

/// An approved receipt under replay protection: a nonce that was accepted
/// before is refused; any other receipt is decided as without protection,
/// and its nonce is consumed where it is accepted.
pub open spec fn guarded_approval_outcome(
    pre: StoreView,
    consumed: Set<Seq<char>>,
    contract: Seq<char>,
    sender: Seq<char>,
    amount: Seq<char>,
    signature: Seq<char>,
    nonce: Seq<char>,
) -> Result<(Set<Seq<char>>, ResponseView), ContractError> {
    if consumed.contains(nonce) {
        Err(ContractError::NonceReused)
    } else {
        match approval_outcome(pre, contract, sender, amount, signature, nonce) {
            Ok((_, response)) => Ok((consumed.insert(nonce), response)),
            Err(e) => Err(e),
        }
    }
}

impl NonceLedger {
    /// A ledger in which no nonce is consumed.
    pub fn new() -> (r: NonceLedger)
        ensures
            r@ == Set::<Seq<char>>::empty(),
    {
        let r = NonceLedger { consumed: Vec::new() };
        assert(r@ =~= Set::<Seq<char>>::empty());
        r
    }

    /// Whether a nonce has been consumed.
    pub fn is_consumed(&self, nonce: &str) -> (r: bool)
        ensures
            r == self@.contains(nonce@),
    {
        contains_text(&self.consumed, nonce)
    }

    /// Marks a nonce as consumed.
    pub fn consume(&mut self, nonce: String)
        ensures
            final(self)@ == old(self)@.insert(nonce@),
    {
        let ghost before = texts(self.consumed@);
        self.consumed.push(nonce);
        proof {
            assert(texts(self.consumed@) =~= before.push(nonce@));
            before.lemma_push_to_set_commute(nonce@);
        }
    }
}

/// An approved receipt that is accepted once: it is decided as
/// `execute_receive_with_approval` decides it, unless its nonce is in the
/// ledger; an accepted nonce enters the ledger.
pub fn execute_receive_with_approval_once(
    store: &Store,
    env: &Env,
    ledger: &mut NonceLedger,
    sender: String,
    amount: String,
    signature: String,
    nonce: String,
) -> (r: Result<Response, ContractError>)
    ensures
        match guarded_approval_outcome(
            store@,
            old(ledger)@,
            env.contract_address@,
            sender@,
            amount@,
            signature@,
            nonce@,
        ) {
            Ok((consumed, response)) => final(ledger)@ == consumed && (r matches Ok(got) && got@
                == response),
            Err(e) => final(ledger)@ == old(ledger)@ && (r matches Err(got) && got == e),
        },
{
    if ledger.is_consumed(nonce.as_str()) {
        return Err(ContractError::NonceReused);
    }
    let r = execute_receive_with_approval(store, env, sender, amount, signature, nonce.clone());
    if r.is_ok() {
        ledger.consume(nonce);
    }
    r
}

/// Under replay protection a nonce that was accepted once is refused ever
/// after, whatever else the later receipt holds.
pub proof fn accepted_nonce_is_refused_again(
    pre: StoreView,
    later: StoreView,
    consumed: Set<Seq<char>>,
    contract: Seq<char>,
    sender: Seq<char>,
    amount: Seq<char>,
    signature: Seq<char>,
    nonce: Seq<char>,
    sender2: Seq<char>,
    amount2: Seq<char>,
    signature2: Seq<char>,
)
    requires
        guarded_approval_outcome(pre, consumed, contract, sender, amount, signature, nonce) is Ok,
    ensures
        guarded_approval_outcome(
            later,
            guarded_approval_outcome(pre, consumed, contract, sender, amount, signature, nonce)->Ok_0.0,
            contract,
            sender2,
            amount2,
            signature2,
            nonce,
        ) == Err::<(Set<Seq<char>>, ResponseView), ContractError>(ContractError::NonceReused),
{
}

} // verus!
