//! What holds of every request, proved from the outcomes that the handlers
//! are held to.

use vstd::prelude::*;
use crate::contract::{
    execute_outcome, instantiate_outcome, oracle_update_outcome, query_outcome, send_outcome,
    settles, signed_request_check, update_oracle_outcome,
};
use crate::host::{address_accepted, base64_decoded};
use crate::msg::{
    ContractError, ExecuteMsg, QueryMsg, QueryResponseView, Response, ResponseView,
};
use crate::signature::SignatureCheck;
use crate::state::{
    blocked_entries, is_canonical_key_type, key_type_of, normalized_tag, StoreView,
};
use vstd::utf8::encode_utf8;

verus! {

/// Normalizing an algorithm name gives one of the two canonical tags or
/// nothing.
pub proof fn normalized_tag_is_canonical(lowered: Seq<char>)
    ensures
        key_type_of(lowered) matches Some(tag) ==> is_canonical_key_type(tag),
{
}

/// An instantiation whose algorithm tag normalizes to neither family is
/// rejected as a configuration error, and nothing is written.
pub proof fn unknown_algorithm_writes_nothing(
    pre: StoreView,
    post: StoreView,
    r: Result<Response, ContractError>,
    sender: Seq<char>,
    oracle_pubkey: Seq<char>,
    oracle_key_type: Seq<char>,
)
    requires
        normalized_tag(oracle_key_type) is None,
        settles(pre, post, r, instantiate_outcome(pre, sender, oracle_pubkey, oracle_key_type)),
    ensures
        r matches Err(e) && e == ContractError::InvalidAlgorithm,
        post == pre,
{
}

/// A store whose algorithm tag is canonical keeps a canonical tag through
/// instantiation and through every request.
pub proof fn stored_tag_stays_canonical(
    pre: StoreView,
    contract: Seq<char>,
    sender: Seq<char>,
    funds: Seq<(Seq<char>, u128)>,
    msg: ExecuteMsg,
    oracle_pubkey: Seq<char>,
    oracle_key_type: Seq<char>,
)
    requires
        pre.wf(),
    ensures
        execute_outcome(pre, contract, sender, funds, msg) matches Ok(next) ==> next.0.wf(),
        instantiate_outcome(pre, sender, oracle_pubkey, oracle_key_type) matches Ok(next)
            ==> next.0.wf(),
{
}

/// A send without attached funds fails for want of funds, whoever the
/// recipient is and whatever the block-list holds.
pub proof fn send_without_funds_fails(
    pre: StoreView,
    contract: Seq<char>,
    sender: Seq<char>,
    recipient: String,
)
    ensures
        execute_outcome(
            pre,
            contract,
            sender,
            Seq::<(Seq<char>, u128)>::empty(),
            ExecuteMsg::Send { recipient },
        ) == Err::<(StoreView, ResponseView), ContractError>(
            ContractError::NoFundsAttached,
        ),
{
}

/// A send with funds to a well-formed recipient that is an entry of the
/// block-list parsed from the stored oracle data fails as blocked.
pub proof fn send_to_blocked_recipient_fails(
    pre: StoreView,
    contract: Seq<char>,
    sender: Seq<char>,
    funds: Seq<(Seq<char>, u128)>,
    recipient: String,
    data: Seq<char>,
)
    requires
        funds.len() > 0,
        address_accepted(recipient@),
        pre.oracle_data == Some(data),
        blocked_entries(data).contains(recipient@),
    ensures
        execute_outcome(pre, contract, sender, funds, ExecuteMsg::Send { recipient }) == Err::<
            (StoreView, ResponseView),
            ContractError,
        >(ContractError::RecipientBlocked),
{
}

/// A send never writes the store.
pub proof fn send_writes_nothing(
    pre: StoreView,
    sender: Seq<char>,
    funds: Seq<(Seq<char>, u128)>,
    validated: Option<Seq<char>>,
    amount_text: Seq<char>,
)
    ensures
        send_outcome(pre, sender, funds, validated, amount_text) matches Ok(next) ==> next.0 == pre,
{
}

/// An oracle data update whose signature does not verify against the
/// stored key is rejected, and the store after it is the store before it.
pub proof fn unverified_update_writes_nothing(
    pre: StoreView,
    post: StoreView,
    r: Result<Response, ContractError>,
    sender: Seq<char>,
    data: Seq<char>,
    signature: Seq<char>,
)
    requires
        signed_request_check(pre, encode_utf8(data), signature) != Ok::<
            SignatureCheck,
            ContractError,
        >(SignatureCheck::Valid),
        settles(pre, post, r, oracle_update_outcome(pre, sender, data, signature)),
    ensures
        r is Err,
        post == pre,
        query_outcome(post, QueryMsg::GetOracleData) == query_outcome(pre, QueryMsg::GetOracleData),
{
}

/// A key rotation asked for by anyone but the administrator is rejected,
/// whatever it carries: key and algorithm stay, and no event is handed back.
pub proof fn rotation_by_stranger_writes_nothing(
    pre: StoreView,
    post: StoreView,
    r: Result<Response, ContractError>,
    sender: Seq<char>,
    new_pubkey: Seq<char>,
    new_key_type: Option<Seq<char>>,
)
    requires
        pre.admin != Some(sender),
        settles(pre, post, r, update_oracle_outcome(pre, sender, new_pubkey, new_key_type)),
    ensures
        r is Err,
        pre.admin is Some ==> r == Err::<Response, ContractError>(ContractError::Unauthorized),
        post == pre,
{
}

/// After a successful instantiation the reads give back the sender as
/// administrator, the decoded key, and the canonical algorithm tag.
pub proof fn instantiate_then_query(
    pre: StoreView,
    sender: Seq<char>,
    oracle_pubkey: Seq<char>,
    oracle_key_type: Seq<char>,
)
    requires
        instantiate_outcome(pre, sender, oracle_pubkey, oracle_key_type) is Ok,
    ensures
        ({
            let state = instantiate_outcome(pre, sender, oracle_pubkey, oracle_key_type)->Ok_0.0;
            &&& base64_decoded(oracle_pubkey) is Some
            &&& normalized_tag(oracle_key_type) is Some
            &&& query_outcome(state, QueryMsg::GetOraclePubkey) == Ok::<
                QueryResponseView,
                ContractError,
            >(
                QueryResponseView::OraclePubkey {
                    pubkey: base64_decoded(oracle_pubkey)->0,
                    key_type: normalized_tag(oracle_key_type)->0,
                },
            )
            &&& query_outcome(state, QueryMsg::GetAdmin) == Ok::<QueryResponseView, ContractError>(
                QueryResponseView::Admin { admin: sender },
            )
        }),
{
}

/// While the stored algorithm tag is not `secp256k1`, every oracle data
/// update fails, whatever its signature.
pub proof fn unsupported_algorithm_rejects_updates(
    pre: StoreView,
    sender: Seq<char>,
    data: Seq<char>,
    signature: Seq<char>,
)
    requires
        pre.oracle_key_type != Some("secp256k1"@),
    ensures
        oracle_update_outcome(pre, sender, data, signature) is Err,
{
}

/// Once the administrator has rotated the algorithm to `ed25519`, which
/// has no verification path, every oracle data update fails: with a key in
/// place and a signature that decodes, as a signature that does not verify.
pub proof fn rotation_to_ed25519_ends_updates(
    pre: StoreView,
    admin: Seq<char>,
    new_pubkey: Seq<char>,
    new_key_type: Seq<char>,
    sender: Seq<char>,
    data: Seq<char>,
    signature: Seq<char>,
)
    requires
        normalized_tag(new_key_type) == Some("ed25519"@),
        update_oracle_outcome(pre, admin, new_pubkey, Some(new_key_type)) is Ok,
    ensures
        ({
            let state = update_oracle_outcome(pre, admin, new_pubkey, Some(new_key_type))->Ok_0.0;
            &&& state.oracle_key_type == Some("ed25519"@)
            &&& state.oracle_pubkey == base64_decoded(new_pubkey)
            &&& oracle_update_outcome(state, sender, data, signature) is Err
            &&& base64_decoded(signature) is Some ==> oracle_update_outcome(
                state,
                sender,
                data,
                signature,
            ) == Err::<(StoreView, ResponseView), ContractError>(ContractError::SignatureInvalid)
        }),
{
    reveal_strlit("ed25519");
    reveal_strlit("secp256k1");
    assert("ed25519"@.len() == 7);
    assert("secp256k1"@.len() == 9);
}

} // verus!
