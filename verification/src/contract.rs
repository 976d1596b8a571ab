//! The transition engine: instantiation, the four operations and the three
//! reads. Every check of a request precedes its first write, and a request
//! that is rejected leaves the store as it found it.

use vstd::prelude::*;
use vstd::string::*;
use vstd::utf8::encode_utf8;
use crate::host::{
    addr_validate, address_accepted, base64_decode, base64_decoded, coins_debug, coins_debug_text,
};
use crate::msg::{
    attribute, coins_view, event_response, respond_with_event, text_of, Attribute, BankSend,
    BankSendView, ContractError, Env, EventView, ExecuteMsg, InstantiateMsg, MessageInfo, QueryMsg,
    QueryResponse, QueryResponseView, Response, ResponseView,
};
use crate::signature::{
    approval_message, build_approval_message, signature_check, verify_signature, SignatureCheck,
};
use crate::state::{
    contains_text, normalized_tag, parse_key_type, requested_tag, Store, StoreView,
};

verus! {

/// What a request is owed: the store and the response on success, the error
/// on rejection.
pub type Outcome = Result<(StoreView, ResponseView), ContractError>;

/// `r` and the store after the request are what `expected` says; on
/// rejection the store is the one before the request.
pub open spec fn settles(
    pre: StoreView,
    post: StoreView,
    r: Result<Response, ContractError>,
    expected: Outcome,
) -> bool {
    match expected {
        Ok((state, response)) => post == state && (r matches Ok(got) && got@ == response),
        Err(e) => post == pre && (r matches Err(got) && got == e),
    }
}

/// The response to a successful instantiation.
pub open spec fn instantiate_response(
    admin: Seq<char>,
    oracle_pubkey: Seq<char>,
    oracle_key_type: Seq<char>,
) -> ResponseView {
    ResponseView {
        messages: Seq::empty(),
        attributes: seq![
            ("action"@, "instantiate"@),
            ("admin"@, admin),
            ("oracle_pubkey"@, oracle_pubkey),
            ("oracle_key_type"@, oracle_key_type),
        ],
        events: Seq::empty(),
    }
}

/// Instantiation: the tag must normalize, then the key must decode; the
/// sender becomes the administrator and the canonical tag is stored.
pub open spec fn instantiate_outcome(
    pre: StoreView,
    sender: Seq<char>,
    oracle_pubkey: Seq<char>,
    oracle_key_type: Seq<char>,
) -> Outcome {
    match normalized_tag(oracle_key_type) {
        None => Err(ContractError::InvalidAlgorithm),
        Some(tag) => match base64_decoded(oracle_pubkey) {
            None => Err(ContractError::InvalidEncoding),
            Some(key) => Ok(
                (
                    StoreView {
                        admin: Some(sender),
                        oracle_pubkey: Some(key),
                        oracle_key_type: Some(tag),
                        ..pre
                    },
                    instantiate_response(sender, oracle_pubkey, oracle_key_type),
                ),
            ),
        },
    }
}

/// Whether `who` is, letter for letter, an entry of the block-list that the
/// stored oracle data stands for.
pub open spec fn is_blocked(pre: StoreView, who: Seq<char>) -> bool {
    pre.blocked().contains(who)
}

/// The response to a successful send: one transfer of all the funds, and
/// one audit event.
pub open spec fn send_response(
    sender: Seq<char>,
    recipient: Seq<char>,
    funds: Seq<(Seq<char>, u128)>,
    amount_text: Seq<char>,
) -> ResponseView {
    ResponseView {
        messages: seq![BankSendView { to_address: recipient, amount: funds }],
        attributes: Seq::empty(),
        events: seq![
            EventView {
                ty: "send"@,
                attributes: seq![
                    ("action"@, "send"@),
                    ("from"@, sender),
                    ("to"@, recipient),
                    ("amount"@, amount_text),
                ],
            },
        ],
    }
}

/// A send, given what the address validation said of the recipient
/// (`None` where it was refused) and the text that records the amount.
/// Funds are asked for first, then a well-formed recipient, then one that is
/// not blocked. The store is never written.
pub open spec fn send_outcome(
    pre: StoreView,
    sender: Seq<char>,
    funds: Seq<(Seq<char>, u128)>,
    validated: Option<Seq<char>>,
    amount_text: Seq<char>,
) -> Outcome {
    if funds.len() == 0 {
        Err(ContractError::NoFundsAttached)
    } else {
        match validated {
            None => Err(ContractError::InvalidRecipient),
            Some(recipient) => if is_blocked(pre, recipient) {
                Err(ContractError::RecipientBlocked)
            } else {
                Ok((pre, send_response(sender, recipient, funds, amount_text)))
            },
        }
    }
}

/// What the address validation makes of a recipient.
pub open spec fn validated_recipient(recipient: Seq<char>) -> Option<Seq<char>> {
    if address_accepted(recipient) {
        Some(recipient)
    } else {
        None
    }
}

/// The oracle key and the stored algorithm tag, as a signed request needs
/// them.
pub open spec fn stored_key(pre: StoreView) -> Result<(Seq<u8>, Seq<char>), ContractError> {
    match pre.oracle_pubkey {
        None => Err(ContractError::NotConfigured),
        Some(key) => match pre.oracle_key_type {
            None => Err(ContractError::NotConfigured),
            Some(tag) => Ok((key, tag)),
        },
    }
}

/// The check of a signed request: the key must be there, the signature must
/// decode, and then the verifier decides.
pub open spec fn signed_request_check(
    pre: StoreView,
    message: Seq<u8>,
    signature: Seq<char>,
) -> Result<SignatureCheck, ContractError> {
    match stored_key(pre) {
        Err(e) => Err(e),
        Ok((key, tag)) => match base64_decoded(signature) {
            None => Err(ContractError::InvalidEncoding),
            Some(sig) => Ok(signature_check(message, sig, key, tag)),
        },
    }
}

/// An oracle data update once its signature has been checked: only a valid
/// signature lets the data in.
pub open spec fn oracle_update_conclusion(
    pre: StoreView,
    sender: Seq<char>,
    data: Seq<char>,
    check: SignatureCheck,
) -> Outcome {
    if check == SignatureCheck::Valid {
        Ok(
            (
                StoreView { oracle_data: Some(data), ..pre },
                event_response(
                    EventView {
                        ty: "oracle_data_update"@,
                        attributes: seq![
                            ("action"@, "oracle_data_update"@),
                            ("sender"@, sender),
                            ("data"@, data),
                        ],
                    },
                ),
            ),
        )
    } else {
        Err(ContractError::SignatureInvalid)
    }
}

/// An oracle data update: the canonical message is the data itself.
pub open spec fn oracle_update_outcome(
    pre: StoreView,
    sender: Seq<char>,
    data: Seq<char>,
    signature: Seq<char>,
) -> Outcome {
    match signed_request_check(pre, encode_utf8(data), signature) {
        Err(e) => Err(e),
        Ok(check) => oracle_update_conclusion(pre, sender, data, check),
    }
}

/// An approved receipt once its signature has been checked. The store is
/// never written, and the nonce is recorded, not remembered.
pub open spec fn approval_conclusion(
    pre: StoreView,
    sender: Seq<char>,
    amount: Seq<char>,
    nonce: Seq<char>,
    check: SignatureCheck,
) -> Outcome {
    if check == SignatureCheck::Valid {
        Ok(
            (
                pre,
                event_response(
                    EventView {
                        ty: "receive_with_approval"@,
                        attributes: seq![
                            ("action"@, "receive_with_approval"@),
                            ("from"@, sender),
                            ("amount"@, amount),
                            ("nonce"@, nonce),
                        ],
                    },
                ),
            ),
        )
    } else {
        Err(ContractError::SignatureInvalid)
    }
}

/// An approved receipt: the signature covers sender, amount, the module's
/// own identity and the nonce.
pub open spec fn approval_outcome(
    pre: StoreView,
    contract: Seq<char>,
    sender: Seq<char>,
    amount: Seq<char>,
    signature: Seq<char>,
    nonce: Seq<char>,
) -> Outcome {
    match signed_request_check(pre, approval_message(sender, amount, contract, nonce), signature) {
        Err(e) => Err(e),
        Ok(check) => approval_conclusion(pre, sender, amount, nonce, check),
    }
}

/// A key rotation: the caller must be the administrator, a supplied tag
/// must normalize, and the key must decode, in this order.
pub open spec fn update_oracle_outcome(
    pre: StoreView,
    sender: Seq<char>,
    new_pubkey: Seq<char>,
    new_key_type: Option<Seq<char>>,
) -> Outcome {
    match pre.admin {
        None => Err(ContractError::NotConfigured),
        Some(admin) => if sender != admin {
            Err(ContractError::Unauthorized)
        } else if requested_tag(new_key_type) == Some(None::<Seq<char>>) {
            Err(ContractError::InvalidAlgorithm)
        } else {
            match base64_decoded(new_pubkey) {
                None => Err(ContractError::InvalidEncoding),
                Some(key) => match pre.rotated(sender, key, requested_tag(new_key_type)) {
                    Err(e) => Err(e),
                    Ok((state, tag)) => Ok(
                        (
                            state,
                            event_response(
                                EventView {
                                    ty: "oracle_admin_update"@,
                                    attributes: seq![
                                        ("action"@, "oracle_update"@),
                                        ("admin"@, admin),
                                        ("new_pubkey"@, new_pubkey),
                                        ("new_key_type"@, tag),
                                    ],
                                },
                            ),
                        ),
                    ),
                },
            }
        },
    }
}

/// What a request is owed, by its kind.
pub open spec fn execute_outcome(
    pre: StoreView,
    contract: Seq<char>,
    sender: Seq<char>,
    funds: Seq<(Seq<char>, u128)>,
    msg: ExecuteMsg,
) -> Outcome {
    match msg {
        ExecuteMsg::Send { recipient } => send_outcome(
            pre,
            sender,
            funds,
            validated_recipient(recipient@),
            coins_debug_text(funds),
        ),
        ExecuteMsg::OracleDataUpdate { data, signature } => oracle_update_outcome(
            pre,
            sender,
            data@,
            signature@,
        ),
        ExecuteMsg::UpdateOracle { new_pubkey, new_key_type } => update_oracle_outcome(
            pre,
            sender,
            new_pubkey@,
            text_of(new_key_type),
        ),
        ExecuteMsg::ReceiveWithApproval { sender: from, amount, signature, nonce } => approval_outcome(
            pre,
            contract,
            from@,
            amount@,
            signature@,
            nonce@,
        ),
    }
}

/// The answer to a read: the data may be absent, key and administrator
/// must be there.
pub open spec fn query_outcome(pre: StoreView, msg: QueryMsg) -> Result<
    QueryResponseView,
    ContractError,
> {
    match msg {
        QueryMsg::GetOracleData => Ok(QueryResponseView::OracleData { data: pre.oracle_data }),
        QueryMsg::GetOraclePubkey => match pre.oracle_pubkey {
            None => Err(ContractError::NotConfigured),
            Some(pubkey) => match pre.oracle_key_type {
                None => Err(ContractError::NotConfigured),
                Some(key_type) => Ok(QueryResponseView::OraclePubkey { pubkey, key_type }),
            },
        },
        QueryMsg::GetAdmin => match pre.admin {
            None => Err(ContractError::NotConfigured),
            Some(admin) => Ok(QueryResponseView::Admin { admin }),
        },
    }
}

/// Sets the module up: the sender becomes the administrator, the decoded
/// key and the canonical algorithm tag are stored.
pub fn instantiate(store: &mut Store, info: MessageInfo, msg: InstantiateMsg) -> (r: Result<
    Response,
    ContractError,
>)
    ensures
        settles(
            old(store)@,
            final(store)@,
            r,
            instantiate_outcome(old(store)@, info.sender@, msg.oracle_pubkey@, msg.oracle_key_type@),
        ),
{
    if parse_key_type(msg.oracle_key_type.as_str()).is_none() {
        return Err(ContractError::InvalidAlgorithm);
    }
    let key = match base64_decode(msg.oracle_pubkey.as_str()) {
        Some(key) => key,
        None => { return Err(ContractError::InvalidEncoding); },
    };
    let admin = info.sender;
    match store.initialize(admin.clone(), key, msg.oracle_key_type.as_str()) {
        Ok(()) => {},
        Err(e) => { return Err(e); },
    }
    let mut attributes: Vec<Attribute> = Vec::new();
    attributes.push(attribute("action", "instantiate".to_owned()));
    attributes.push(attribute("admin", admin));
    attributes.push(attribute("oracle_pubkey", msg.oracle_pubkey));
    attributes.push(attribute("oracle_key_type", msg.oracle_key_type));
    let response = Response { messages: Vec::new(), attributes, events: Vec::new() };
    proof {
        let expected = instantiate_response(info.sender@, msg.oracle_pubkey@, msg.oracle_key_type@);
        assert(response@.messages =~= expected.messages);
        assert(response@.attributes =~= expected.attributes);
        assert(response@.events =~= expected.events);
    }
    Ok(response)
}

/// Decides a send from what the address validation said of the recipient
/// and the text that records the amount. On success all the attached funds
/// go to the recipient.
pub fn send_funds(store: &Store, info: MessageInfo, validated: Option<String>, amount_text: String) -> (r:
    Result<Response, ContractError>)
    ensures
        settles(
            store@,
            store@,
            r,
            send_outcome(
                store@,
                info.sender@,
                coins_view(info.funds@),
                text_of(validated),
                amount_text@,
            ),
        ),
{
    if info.funds.len() == 0 {
        return Err(ContractError::NoFundsAttached);
    }
    let recipient = match validated {
        Some(recipient) => recipient,
        None => { return Err(ContractError::InvalidRecipient); },
    };
    let blocked = store.blocked_identities();
    if contains_text(&blocked, recipient.as_str()) {
        return Err(ContractError::RecipientBlocked);
    }
    let mut attributes: Vec<Attribute> = Vec::new();
    attributes.push(attribute("action", "send".to_owned()));
    attributes.push(attribute("from", info.sender));
    attributes.push(attribute("to", recipient.clone()));
    attributes.push(attribute("amount", amount_text));
    let mut response = respond_with_event("send", attributes);
    let transfer = BankSend { to_address: recipient, amount: info.funds };
    response.messages.push(transfer);
    proof {
        let expected = send_response(
            info.sender@,
            recipient@,
            coins_view(info.funds@),
            amount_text@,
        );
        assert(response@.messages =~= expected.messages);
        assert(response@.attributes =~= expected.attributes);
        assert(response@.events[0].attributes =~= expected.events[0].attributes);
        assert(response@.events =~= expected.events);
    }
    Ok(response)
}

/// A send: the recipient goes through the address validation, then
/// `send_funds` decides.
pub fn execute_send(store: &Store, info: MessageInfo, recipient: String) -> (r: Result<
    Response,
    ContractError,
>)
    ensures
        settles(
            store@,
            store@,
            r,
            send_outcome(
                store@,
                info.sender@,
                coins_view(info.funds@),
                validated_recipient(recipient@),
                coins_debug_text(coins_view(info.funds@)),
            ),
        ),
{
    let validated = addr_validate(recipient.as_str());
    let amount_text = coins_debug(&info.funds);
    send_funds(store, info, validated, amount_text)
}

/// Checks the signature of a signed request against the stored key, under
/// the stored algorithm tag.
pub fn check_signed_request(store: &Store, message: &[u8], signature: &str) -> (r: Result<
    SignatureCheck,
    ContractError,
>)
    ensures
        r == signed_request_check(store@, message@, signature@),
{
    let key = match &store.oracle_pubkey {
        Some(key) => key,
        None => { return Err(ContractError::NotConfigured); },
    };
    let tag = match &store.oracle_key_type {
        Some(tag) => tag,
        None => { return Err(ContractError::NotConfigured); },
    };
    let sig = match base64_decode(signature) {
        Some(sig) => sig,
        None => { return Err(ContractError::InvalidEncoding); },
    };
    Ok(verify_signature(message, sig.as_slice(), key.as_slice(), tag.as_str()))
}

/// Finishes an oracle data update whose signature has been checked: a valid
/// one overwrites the oracle data, any other leaves it alone.
pub fn conclude_oracle_update(store: &mut Store, sender: String, data: String, check: SignatureCheck) -> (r:
    Result<Response, ContractError>)
    ensures
        settles(
            old(store)@,
            final(store)@,
            r,
            oracle_update_conclusion(old(store)@, sender@, data@, check),
        ),
{
    if !check.is_valid() {
        return Err(ContractError::SignatureInvalid);
    }
    store.update_data(data.clone());
    let mut attributes: Vec<Attribute> = Vec::new();
    attributes.push(attribute("action", "oracle_data_update".to_owned()));
    attributes.push(attribute("sender", sender));
    attributes.push(attribute("data", data));
    let response = respond_with_event("oracle_data_update", attributes);
    proof {
        let expected = oracle_update_conclusion(old(store)@, sender@, data@, check)->Ok_0.1;
        assert(response@.events[0].attributes =~= expected.events[0].attributes);
        assert(response@.events =~= expected.events);
    }
    Ok(response)
}

/// An oracle data update: whoever submits it, the data is stored only
/// under a signature of the oracle over the data itself.
pub fn execute_oracle_update(store: &mut Store, info: MessageInfo, data: String, signature: String) -> (r:
    Result<Response, ContractError>)
    ensures
        settles(
            old(store)@,
            final(store)@,
            r,
            oracle_update_outcome(old(store)@, info.sender@, data@, signature@),
        ),
{
    let message = data.as_str().as_bytes_vec();
    match check_signed_request(store, message.as_slice(), signature.as_str()) {
        Ok(check) => conclude_oracle_update(store, info.sender, data, check),
        Err(e) => Err(e),
    }
}

/// Finishes an approved receipt whose signature has been checked.
pub fn conclude_receive_with_approval(
    store: &Store,
    sender: String,
    amount: String,
    nonce: String,
    check: SignatureCheck,
) -> (r: Result<Response, ContractError>)
    ensures
        settles(store@, store@, r, approval_conclusion(store@, sender@, amount@, nonce@, check)),
{
    if !check.is_valid() {
        return Err(ContractError::SignatureInvalid);
    }
    let mut attributes: Vec<Attribute> = Vec::new();
    attributes.push(attribute("action", "receive_with_approval".to_owned()));
    attributes.push(attribute("from", sender));
    attributes.push(attribute("amount", amount));
    attributes.push(attribute("nonce", nonce));
    let response = respond_with_event("receive_with_approval", attributes);
    proof {
        let expected = approval_conclusion(store@, sender@, amount@, nonce@, check)->Ok_0.1;
        assert(response@.events[0].attributes =~= expected.events[0].attributes);
        assert(response@.events =~= expected.events);
    }
    Ok(response)
}

/// An approved receipt: recorded only under a signature of the oracle over
/// sender, amount, this module's identity and the nonce.
pub fn execute_receive_with_approval(
    store: &Store,
    env: &Env,
    sender: String,
    amount: String,
    signature: String,
    nonce: String,
) -> (r: Result<Response, ContractError>)
    ensures
        settles(
            store@,
            store@,
            r,
            approval_outcome(store@, env.contract_address@, sender@, amount@, signature@, nonce@),
        ),
{
    let message = build_approval_message(
        sender.as_str(),
        amount.as_str(),
        env.contract_address.as_str(),
        nonce.as_str(),
    );
    match check_signed_request(store, message.as_slice(), signature.as_str()) {
        Ok(check) => conclude_receive_with_approval(store, sender, amount, nonce, check),
        Err(e) => Err(e),
    }
}

/// A key rotation by the administrator.
pub fn execute_update_oracle(
    store: &mut Store,
    info: MessageInfo,
    new_pubkey: String,
    new_key_type: Option<String>,
) -> (r: Result<Response, ContractError>)
    ensures
        settles(
            old(store)@,
            final(store)@,
            r,
            update_oracle_outcome(old(store)@, info.sender@, new_pubkey@, text_of(new_key_type)),
        ),
{
    let admin: String = match &store.admin {
        Some(admin) => admin.clone(),
        None => { return Err(ContractError::NotConfigured); },
    };
    if info.sender != admin {
        return Err(ContractError::Unauthorized);
    }
    let requested: Option<&str> = match &new_key_type {
        Some(t) => Some(t.as_str()),
        None => None,
    };
    if let Some(name) = requested {
        if parse_key_type(name).is_none() {
            return Err(ContractError::InvalidAlgorithm);
        }
    }
    let key = match base64_decode(new_pubkey.as_str()) {
        Some(key) => key,
        None => { return Err(ContractError::InvalidEncoding); },
    };
    let tag = match store.rotate_key(info.sender.as_str(), key, requested) {
        Ok(tag) => tag,
        Err(e) => { return Err(e); },
    };
    let mut attributes: Vec<Attribute> = Vec::new();
    attributes.push(attribute("action", "oracle_update".to_owned()));
    attributes.push(attribute("admin", admin));
    attributes.push(attribute("new_pubkey", new_pubkey));
    attributes.push(attribute("new_key_type", tag));
    let response = respond_with_event("oracle_admin_update", attributes);
    proof {
        let expected = update_oracle_outcome(
            old(store)@,
            info.sender@,
            new_pubkey@,
            text_of(new_key_type),
        )->Ok_0.1;
        assert(response@.events[0].attributes =~= expected.events[0].attributes);
        assert(response@.events =~= expected.events);
    }
    Ok(response)
}

/// Decides a request: each of the four operations goes to its handler.
pub fn execute(store: &mut Store, env: &Env, info: MessageInfo, msg: ExecuteMsg) -> (r: Result<
    Response,
    ContractError,
>)
    ensures
        settles(
            old(store)@,
            final(store)@,
            r,
            execute_outcome(
                old(store)@,
                env.contract_address@,
                info.sender@,
                coins_view(info.funds@),
                msg,
            ),
        ),
{
    match msg {
        ExecuteMsg::Send { recipient } => execute_send(store, info, recipient),
        ExecuteMsg::OracleDataUpdate { data, signature } => execute_oracle_update(
            store,
            info,
            data,
            signature,
        ),
        ExecuteMsg::UpdateOracle { new_pubkey, new_key_type } => execute_update_oracle(
            store,
            info,
            new_pubkey,
            new_key_type,
        ),
        ExecuteMsg::ReceiveWithApproval { sender, amount, signature, nonce } => {
            execute_receive_with_approval(store, env, sender, amount, signature, nonce)
        },
    }
}

/// Answers a read. The store is not written.
pub fn query(store: &Store, msg: QueryMsg) -> (r: Result<QueryResponse, ContractError>)
    ensures
        match query_outcome(store@, msg) {
            Ok(answer) => r matches Ok(got) && got@ == answer,
            Err(e) => r matches Err(got) && got == e,
        },
{
    match msg {
        QueryMsg::GetOracleData => Ok(QueryResponse::OracleData { data: store.read_data() }),
        QueryMsg::GetOraclePubkey => {
            let pubkey: Vec<u8> = match &store.oracle_pubkey {
                Some(pubkey) => pubkey.clone(),
                None => { return Err(ContractError::NotConfigured); },
            };
            let key_type: String = match &store.oracle_key_type {
                Some(key_type) => key_type.clone(),
                None => { return Err(ContractError::NotConfigured); },
            };
            Ok(QueryResponse::OraclePubkey { pubkey, key_type })
        },
        QueryMsg::GetAdmin => match &store.admin {
            Some(admin) => Ok(QueryResponse::Admin { admin: admin.clone() }),
            None => Err(ContractError::NotConfigured),
        },
    }
}

} // verus!
