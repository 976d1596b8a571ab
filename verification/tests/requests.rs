use base64::Engine;
use k256::ecdsa::signature::Signer;
use k256::ecdsa::{Signature, SigningKey};
use oracle_contract::contract::{
    check_signed_request, conclude_oracle_update, conclude_receive_with_approval, execute,
    execute_oracle_update, execute_receive_with_approval, execute_send, execute_update_oracle,
    instantiate, query, send_funds,
};
use oracle_contract::msg::{
    attribute, respond_with_event, Attribute, BankSend, Coin, ContractError, Env, Event,
    ExecuteMsg, InstantiateMsg, MessageInfo, QueryMsg, QueryResponse, Response,
};
use oracle_contract::signature::{
    build_approval_message, classify_verdict, verify_signature, SignatureCheck,
};
use oracle_contract::state::Store;

fn b64(bytes: &[u8]) -> String {
    base64::engine::general_purpose::STANDARD.encode(bytes)
}

fn oracle_key() -> SigningKey {
    SigningKey::from_slice(&[7u8; 32]).unwrap()
}

fn other_key() -> SigningKey {
    SigningKey::from_slice(&[9u8; 32]).unwrap()
}

fn pubkey_of(key: &SigningKey) -> Vec<u8> {
    key.verifying_key().to_encoded_point(true).as_bytes().to_vec()
}

fn sign(key: &SigningKey, message: &[u8]) -> Vec<u8> {
    let signature: Signature = key.sign(message);
    signature.to_bytes().to_vec()
}

fn info(sender: &str, funds: Vec<Coin>) -> MessageInfo {
    MessageInfo { sender: sender.to_string(), funds }
}

fn coin(amount: u128, denom: &str) -> Coin {
    Coin { denom: denom.to_string(), amount }
}

fn env() -> Env {
    Env { contract_address: "contract0".to_string() }
}

fn attr(key: &str, value: &str) -> Attribute {
    Attribute { key: key.to_string(), value: value.to_string() }
}

fn configured(key_type: &str) -> Store {
    let mut store = Store::new();
    let msg = InstantiateMsg {
        oracle_pubkey: b64(&pubkey_of(&oracle_key())),
        oracle_key_type: key_type.to_string(),
    };
    instantiate(&mut store, info("admin", vec![]), msg).unwrap();
    store
}

#[test]
fn instantiate_stores_admin_key_and_canonical_tag() {
    let mut store = Store::new();
    let msg = InstantiateMsg { oracle_pubkey: "AQID".to_string(), oracle_key_type: "K256".to_string() };
    let response = instantiate(&mut store, info("creator", vec![]), msg).unwrap();
    assert_eq!(store.admin, Some("creator".to_string()));
    assert_eq!(store.oracle_pubkey, Some(vec![1, 2, 3]));
    assert_eq!(store.oracle_key_type, Some("secp256k1".to_string()));
    assert_eq!(store.oracle_data, None);
    assert_eq!(
        response,
        Response {
            messages: vec![],
            attributes: vec![
                attr("action", "instantiate"),
                attr("admin", "creator"),
                attr("oracle_pubkey", "AQID"),
                attr("oracle_key_type", "K256"),
            ],
            events: vec![],
        }
    );
}

#[test]
fn instantiate_refuses_unknown_algorithm() {
    let mut store = Store::new();
    let msg = InstantiateMsg { oracle_pubkey: "AQID".to_string(), oracle_key_type: "rsa".to_string() };
    assert_eq!(
        instantiate(&mut store, info("creator", vec![]), msg),
        Err(ContractError::InvalidAlgorithm)
    );
    assert_eq!(store, Store::new());
    // The tag is looked at before the key.
    let msg = InstantiateMsg { oracle_pubkey: "!!".to_string(), oracle_key_type: "rsa".to_string() };
    assert_eq!(
        instantiate(&mut store, info("creator", vec![]), msg),
        Err(ContractError::InvalidAlgorithm)
    );
}

#[test]
fn instantiate_refuses_bad_base64() {
    let mut store = Store::new();
    let msg =
        InstantiateMsg { oracle_pubkey: "not base64!".to_string(), oracle_key_type: "ed".to_string() };
    assert_eq!(
        instantiate(&mut store, info("creator", vec![]), msg),
        Err(ContractError::InvalidEncoding)
    );
    assert_eq!(store, Store::new());
}

#[test]
fn query_round_trip_after_instantiate() {
    let key = pubkey_of(&oracle_key());
    let store = configured("secp256k1");
    assert_eq!(
        query(&store, QueryMsg::GetOraclePubkey),
        Ok(QueryResponse::OraclePubkey { pubkey: key, key_type: "secp256k1".to_string() })
    );
    assert_eq!(
        query(&store, QueryMsg::GetAdmin),
        Ok(QueryResponse::Admin { admin: "admin".to_string() })
    );
    assert_eq!(query(&store, QueryMsg::GetOracleData), Ok(QueryResponse::OracleData { data: None }));
}

#[test]
fn query_before_instantiate() {
    let store = Store::new();
    assert_eq!(query(&store, QueryMsg::GetOraclePubkey), Err(ContractError::NotConfigured));
    assert_eq!(query(&store, QueryMsg::GetAdmin), Err(ContractError::NotConfigured));
    assert_eq!(query(&store, QueryMsg::GetOracleData), Ok(QueryResponse::OracleData { data: None }));
}

#[test]
fn send_without_funds_fails_first() {
    let mut store = configured("k256");
    store.update_data("recipient1".to_string());
    for recipient in ["recipient1", "recipient2", "", "NOT VALID"] {
        assert_eq!(
            execute_send(&store, info("alice", vec![]), recipient.to_string()),
            Err(ContractError::NoFundsAttached)
        );
    }
    assert_eq!(
        execute_send(&Store::new(), info("alice", vec![]), "recipient1".to_string()),
        Err(ContractError::NoFundsAttached)
    );
}

#[test]
fn send_refuses_malformed_recipient() {
    let store = configured("k256");
    for recipient in ["", "ab", "Recipient1"] {
        assert_eq!(
            execute_send(&store, info("alice", vec![coin(5, "ucosm")]), recipient.to_string()),
            Err(ContractError::InvalidRecipient)
        );
    }
    let long = "a".repeat(91);
    assert_eq!(
        execute_send(&store, info("alice", vec![coin(5, "ucosm")]), long),
        Err(ContractError::InvalidRecipient)
    );
}

#[test]
fn send_refuses_blocked_recipient() {
    let mut store = configured("k256");
    store.update_data("addr1,  recipient1 ,addr2".to_string());
    assert_eq!(
        execute_send(&store, info("alice", vec![coin(5, "ucosm")]), "recipient1".to_string()),
        Err(ContractError::RecipientBlocked)
    );
    assert_eq!(
        execute_send(&store, info("alice", vec![coin(5, "ucosm")]), "addr2".to_string()),
        Err(ContractError::RecipientBlocked)
    );
    assert!(execute_send(&store, info("alice", vec![coin(5, "ucosm")]), "recipient".to_string()).is_ok());
}

#[test]
fn send_moves_all_funds() {
    let store = Store::new();
    let funds = vec![coin(100, "ucosm"), coin(7, "uatom")];
    let response = execute_send(&store, info("alice", funds.clone()), "recipient1".to_string()).unwrap();
    assert_eq!(
        response,
        Response {
            messages: vec![BankSend { to_address: "recipient1".to_string(), amount: funds }],
            attributes: vec![],
            events: vec![Event {
                ty: "send".to_string(),
                attributes: vec![
                    attr("action", "send"),
                    attr("from", "alice"),
                    attr("to", "recipient1"),
                    attr("amount", "[Coin { 100 \"ucosm\" }, Coin { 7 \"uatom\" }]"),
                ],
            }],
        }
    );
    assert_eq!(store, Store::new());
}

#[test]
fn send_funds_decides_from_the_validation() {
    let mut store = Store::new();
    store.update_data("bad".to_string());
    let funds = vec![coin(1, "u")];
    assert_eq!(
        send_funds(&store, info("a", vec![]), Some("x".to_string()), "t".to_string()),
        Err(ContractError::NoFundsAttached)
    );
    assert_eq!(
        send_funds(&store, info("a", funds.clone()), None, "t".to_string()),
        Err(ContractError::InvalidRecipient)
    );
    assert_eq!(
        send_funds(&store, info("a", funds.clone()), Some("bad".to_string()), "t".to_string()),
        Err(ContractError::RecipientBlocked)
    );
    let response =
        send_funds(&store, info("a", funds.clone()), Some("good".to_string()), "t".to_string()).unwrap();
    assert_eq!(response.messages, vec![BankSend { to_address: "good".to_string(), amount: funds }]);
    assert_eq!(
        response.events[0].attributes,
        vec![attr("action", "send"), attr("from", "a"), attr("to", "good"), attr("amount", "t")]
    );
}

#[test]
fn oracle_update_with_valid_signature() {
    let mut store = configured("k256");
    let data = "addr1, addr2".to_string();
    let signature = b64(&sign(&oracle_key(), data.as_bytes()));
    let response =
        execute_oracle_update(&mut store, info("anyone", vec![]), data.clone(), signature).unwrap();
    assert_eq!(store.oracle_data, Some(data.clone()));
    assert_eq!(query(&store, QueryMsg::GetOracleData), Ok(QueryResponse::OracleData { data: Some(data) }));
    assert_eq!(
        response,
        Response {
            messages: vec![],
            attributes: vec![],
            events: vec![Event {
                ty: "oracle_data_update".to_string(),
                attributes: vec![
                    attr("action", "oracle_data_update"),
                    attr("sender", "anyone"),
                    attr("data", "addr1, addr2"),
                ],
            }],
        }
    );
    assert_eq!(store.admin, Some("admin".to_string()));
    assert_eq!(store.oracle_key_type, Some("secp256k1".to_string()));
}

#[test]
fn oracle_update_with_wrong_signature_changes_nothing() {
    let mut store = configured("k256");
    store.update_data("old".to_string());
    let before = store.clone();
    let signature = b64(&sign(&other_key(), b"new"));
    assert_eq!(
        execute_oracle_update(&mut store, info("anyone", vec![]), "new".to_string(), signature),
        Err(ContractError::SignatureInvalid)
    );
    assert_eq!(store, before);
    // A signature of the oracle over other data does not help either.
    let signature = b64(&sign(&oracle_key(), b"newer"));
    assert_eq!(
        execute_oracle_update(&mut store, info("anyone", vec![]), "new".to_string(), signature),
        Err(ContractError::SignatureInvalid)
    );
    assert_eq!(store, before);
    assert_eq!(store.read_data(), Some("old".to_string()));
}

#[test]
fn oracle_update_with_malformed_signature() {
    let mut store = configured("k256");
    let before = store.clone();
    assert_eq!(
        execute_oracle_update(&mut store, info("x", vec![]), "new".to_string(), b64(&[1, 2, 3])),
        Err(ContractError::SignatureInvalid)
    );
    assert_eq!(
        execute_oracle_update(&mut store, info("x", vec![]), "new".to_string(), "***".to_string()),
        Err(ContractError::InvalidEncoding)
    );
    assert_eq!(store, before);
}

#[test]
fn oracle_update_before_instantiate() {
    let mut store = Store::new();
    let signature = b64(&sign(&oracle_key(), b"new"));
    assert_eq!(
        execute_oracle_update(&mut store, info("x", vec![]), "new".to_string(), signature),
        Err(ContractError::NotConfigured)
    );
    assert_eq!(store, Store::new());
}

#[test]
fn update_oracle_by_stranger_changes_nothing() {
    let mut store = configured("k256");
    let before = store.clone();
    let attempts = [
        (b64(&pubkey_of(&other_key())), Some("ed25519".to_string())),
        (b64(&pubkey_of(&other_key())), None),
        ("***".to_string(), Some("rsa".to_string())),
    ];
    for (new_pubkey, new_key_type) in attempts {
        assert_eq!(
            execute_update_oracle(&mut store, info("mallory", vec![]), new_pubkey, new_key_type),
            Err(ContractError::Unauthorized)
        );
        assert_eq!(store, before);
    }
}

#[test]
fn update_oracle_replaces_key_and_keeps_tag() {
    let mut store = configured("ecdsa");
    let new_key = pubkey_of(&other_key());
    let response =
        execute_update_oracle(&mut store, info("admin", vec![]), b64(&new_key), None).unwrap();
    assert_eq!(store.oracle_pubkey, Some(new_key.clone()));
    assert_eq!(store.oracle_key_type, Some("secp256k1".to_string()));
    assert_eq!(
        response.events,
        vec![Event {
            ty: "oracle_admin_update".to_string(),
            attributes: vec![
                attr("action", "oracle_update"),
                attr("admin", "admin"),
                attr("new_pubkey", &b64(&new_key)),
                attr("new_key_type", "secp256k1"),
            ],
        }]
    );
    // The new key now signs, the old one no longer does.
    let old = b64(&sign(&oracle_key(), b"d"));
    assert_eq!(
        execute_oracle_update(&mut store, info("x", vec![]), "d".to_string(), old),
        Err(ContractError::SignatureInvalid)
    );
    let new = b64(&sign(&other_key(), b"d"));
    assert!(execute_oracle_update(&mut store, info("x", vec![]), "d".to_string(), new).is_ok());
}

#[test]
fn update_oracle_refuses_bad_input_whole() {
    let mut store = configured("k256");
    let before = store.clone();
    assert_eq!(
        execute_update_oracle(&mut store, info("admin", vec![]), "AQID".to_string(), Some("rsa".to_string())),
        Err(ContractError::InvalidAlgorithm)
    );
    assert_eq!(store, before);
    assert_eq!(
        execute_update_oracle(&mut store, info("admin", vec![]), "***".to_string(), Some("ed".to_string())),
        Err(ContractError::InvalidEncoding)
    );
    assert_eq!(store, before);
    assert_eq!(
        execute_update_oracle(&mut Store::new(), info("admin", vec![]), "AQID".to_string(), None),
        Err(ContractError::NotConfigured)
    );
}

#[test]
fn rotation_to_ed25519_blocks_updates() {
    let mut store = configured("k256");
    let new_key = pubkey_of(&other_key());
    let response = execute(
        &mut store,
        &env(),
        info("admin", vec![]),
        ExecuteMsg::UpdateOracle { new_pubkey: b64(&new_key), new_key_type: Some("ed25519".to_string()) },
    )
    .unwrap();
    assert_eq!(store.oracle_key_type, Some("ed25519".to_string()));
    assert_eq!(store.oracle_pubkey, Some(new_key));
    assert_eq!(response.events[0].attributes[3], attr("new_key_type", "ed25519"));
    let before = store.clone();
    for key in [oracle_key(), other_key()] {
        let signature = b64(&sign(&key, b"data"));
        assert_eq!(
            execute(
                &mut store,
                &env(),
                info("x", vec![]),
                ExecuteMsg::OracleDataUpdate { data: "data".to_string(), signature },
            ),
            Err(ContractError::SignatureInvalid)
        );
        assert_eq!(store, before);
    }
}

#[test]
fn receive_with_approval_records_the_receipt() {
    let store = configured("k256");
    let message = b"alice|100|contract0|n1";
    let signature = b64(&sign(&oracle_key(), message));
    let response = execute_receive_with_approval(
        &store,
        &env(),
        "alice".to_string(),
        "100".to_string(),
        signature.clone(),
        "n1".to_string(),
    )
    .unwrap();
    assert_eq!(
        response,
        Response {
            messages: vec![],
            attributes: vec![],
            events: vec![Event {
                ty: "receive_with_approval".to_string(),
                attributes: vec![
                    attr("action", "receive_with_approval"),
                    attr("from", "alice"),
                    attr("amount", "100"),
                    attr("nonce", "n1"),
                ],
            }],
        }
    );
    // The same approval may be used again: nonces are not remembered.
    assert!(execute_receive_with_approval(
        &store,
        &env(),
        "alice".to_string(),
        "100".to_string(),
        signature,
        "n1".to_string(),
    )
    .is_ok());
}

#[test]
fn receive_with_approval_is_bound_to_every_field() {
    let store = configured("k256");
    let signature = b64(&sign(&oracle_key(), b"alice|100|contract0|n1"));
    let elsewhere = Env { contract_address: "contract1".to_string() };
    let attempts = [
        (env(), "bob", "100", "n1"),
        (env(), "alice", "101", "n1"),
        (env(), "alice", "100", "n2"),
        (elsewhere, "alice", "100", "n1"),
    ];
    for (env, sender, amount, nonce) in attempts {
        assert_eq!(
            execute_receive_with_approval(
                &store,
                &env,
                sender.to_string(),
                amount.to_string(),
                signature.clone(),
                nonce.to_string(),
            ),
            Err(ContractError::SignatureInvalid)
        );
    }
    assert_eq!(
        execute_receive_with_approval(
            &store,
            &env(),
            "alice".to_string(),
            "100".to_string(),
            "%%".to_string(),
            "n1".to_string(),
        ),
        Err(ContractError::InvalidEncoding)
    );
    assert_eq!(
        execute_receive_with_approval(
            &Store::new(),
            &env(),
            "alice".to_string(),
            "100".to_string(),
            signature,
            "n1".to_string(),
        ),
        Err(ContractError::NotConfigured)
    );
}

#[test]
fn execute_dispatches_each_request() {
    let mut store = configured("k256");
    let sent = execute(
        &mut store,
        &env(),
        info("alice", vec![coin(3, "ucosm")]),
        ExecuteMsg::Send { recipient: "recipient1".to_string() },
    )
    .unwrap();
    assert_eq!(sent.messages.len(), 1);
    assert_eq!(sent.events[0].ty, "send");
    assert_eq!(
        execute(
            &mut store,
            &env(),
            info("alice", vec![]),
            ExecuteMsg::Send { recipient: "recipient1".to_string() },
        ),
        Err(ContractError::NoFundsAttached)
    );
    let signature = b64(&sign(&oracle_key(), b"recipient1"));
    let updated = execute(
        &mut store,
        &env(),
        info("alice", vec![]),
        ExecuteMsg::OracleDataUpdate { data: "recipient1".to_string(), signature },
    )
    .unwrap();
    assert_eq!(updated.events[0].ty, "oracle_data_update");
    assert_eq!(
        execute(
            &mut store,
            &env(),
            info("alice", vec![coin(3, "ucosm")]),
            ExecuteMsg::Send { recipient: "recipient1".to_string() },
        ),
        Err(ContractError::RecipientBlocked)
    );
    let signature = b64(&sign(&oracle_key(), b"bob|5|contract0|7"));
    let received = execute(
        &mut store,
        &env(),
        info("alice", vec![]),
        ExecuteMsg::ReceiveWithApproval {
            sender: "bob".to_string(),
            amount: "5".to_string(),
            signature,
            nonce: "7".to_string(),
        },
    )
    .unwrap();
    assert_eq!(received.events[0].ty, "receive_with_approval");
}

#[test]
fn approval_message_is_pipe_joined() {
    assert_eq!(build_approval_message("a", "1", "c", "n"), b"a|1|c|n".to_vec());
    assert_eq!(build_approval_message("", "", "", ""), b"|||".to_vec());
    assert_eq!(
        build_approval_message("\u{e9}", "10", "addr", "x|y"),
        "\u{e9}|10|addr|x|y".as_bytes().to_vec()
    );
}

#[test]
fn verify_signature_outcomes() {
    let key = pubkey_of(&oracle_key());
    let good = sign(&oracle_key(), b"msg");
    assert_eq!(verify_signature(b"msg", &good, &key, "secp256k1"), SignatureCheck::Valid);
    assert_eq!(verify_signature(b"other", &good, &key, "secp256k1"), SignatureCheck::Invalid);
    assert_eq!(
        verify_signature(b"msg", &good, &pubkey_of(&other_key()), "secp256k1"),
        SignatureCheck::Invalid
    );
    assert_eq!(verify_signature(b"msg", &good[..63], &key, "secp256k1"), SignatureCheck::Malformed);
    assert_eq!(verify_signature(b"msg", &good, &key[..10], "secp256k1"), SignatureCheck::Malformed);
    assert_eq!(verify_signature(b"msg", &good, &key, "ed25519"), SignatureCheck::Unsupported);
    assert_eq!(verify_signature(b"msg", &good, &key, "k256"), SignatureCheck::Unsupported);
    assert!(SignatureCheck::Valid.is_valid());
    assert!(!SignatureCheck::Invalid.is_valid());
    assert!(!SignatureCheck::Malformed.is_valid());
    assert!(!SignatureCheck::Unsupported.is_valid());
}

#[test]
fn verify_signature_accepts_uncompressed_keys() {
    let key = oracle_key().verifying_key().to_encoded_point(false).as_bytes().to_vec();
    assert_eq!(key.len(), 65);
    let good = sign(&oracle_key(), b"msg");
    assert_eq!(verify_signature(b"msg", &good, &key, "secp256k1"), SignatureCheck::Valid);
}

#[test]
fn classify_verdict_by_tag() {
    assert_eq!(classify_verdict("secp256k1", Some(true)), SignatureCheck::Valid);
    assert_eq!(classify_verdict("secp256k1", Some(false)), SignatureCheck::Invalid);
    assert_eq!(classify_verdict("secp256k1", None), SignatureCheck::Malformed);
    assert_eq!(classify_verdict("ed25519", Some(true)), SignatureCheck::Unsupported);
    assert_eq!(classify_verdict("", None), SignatureCheck::Unsupported);
}

#[test]
fn check_signed_request_order() {
    let mut store = Store::new();
    assert_eq!(check_signed_request(&store, b"m", "***"), Err(ContractError::NotConfigured));
    store.oracle_pubkey = Some(pubkey_of(&oracle_key()));
    assert_eq!(check_signed_request(&store, b"m", "***"), Err(ContractError::NotConfigured));
    store.oracle_key_type = Some("ed25519".to_string());
    assert_eq!(check_signed_request(&store, b"m", "***"), Err(ContractError::InvalidEncoding));
    let signature = b64(&sign(&oracle_key(), b"m"));
    assert_eq!(check_signed_request(&store, b"m", &signature), Ok(SignatureCheck::Unsupported));
    store.oracle_key_type = Some("secp256k1".to_string());
    assert_eq!(check_signed_request(&store, b"m", &signature), Ok(SignatureCheck::Valid));
    assert_eq!(check_signed_request(&store, b"n", &signature), Ok(SignatureCheck::Invalid));
}

#[test]
fn conclusions_follow_the_check() {
    let mut store = Store::new();
    for check in [SignatureCheck::Invalid, SignatureCheck::Malformed, SignatureCheck::Unsupported] {
        assert_eq!(
            conclude_oracle_update(&mut store, "s".to_string(), "d".to_string(), check),
            Err(ContractError::SignatureInvalid)
        );
        assert_eq!(store, Store::new());
        assert_eq!(
            conclude_receive_with_approval(
                &store,
                "s".to_string(),
                "1".to_string(),
                "n".to_string(),
                check
            ),
            Err(ContractError::SignatureInvalid)
        );
    }
    let response =
        conclude_oracle_update(&mut store, "s".to_string(), "d".to_string(), SignatureCheck::Valid)
            .unwrap();
    assert_eq!(store.oracle_data, Some("d".to_string()));
    assert_eq!(response.events[0].attributes[1], attr("sender", "s"));
    let response = conclude_receive_with_approval(
        &store,
        "s".to_string(),
        "1".to_string(),
        "n".to_string(),
        SignatureCheck::Valid,
    )
    .unwrap();
    assert_eq!(response.events[0].attributes[3], attr("nonce", "n"));
}

#[test]
fn response_builders() {
    assert_eq!(attribute("k", "v".to_string()), attr("k", "v"));
    assert_eq!(
        respond_with_event("t", vec![attr("k", "v")]),
        Response {
            messages: vec![],
            attributes: vec![],
            events: vec![Event { ty: "t".to_string(), attributes: vec![attr("k", "v")] }],
        }
    );
}
