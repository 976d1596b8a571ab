//! The requests the module accepts and what it answers: plain data, each
//! with the mathematical value that the contracts speak of.

use vstd::prelude::*;

verus! {

/// Why a request was rejected.
#[derive(Clone, Copy, Debug, PartialEq, Eq, Structural)]
pub enum ContractError {
    /// The algorithm tag names neither of the two recognized families.
    InvalidAlgorithm,
    /// A key or a signature is not valid base64.
    InvalidEncoding,
    /// The caller is not the administrator.
    Unauthorized,
    /// A send came without funds.
    NoFundsAttached,
    /// The recipient identity is malformed.
    InvalidRecipient,
    /// The recipient is on the oracle's block-list.
    RecipientBlocked,
    /// The signature did not verify, or the verification itself failed.
    SignatureInvalid,
    /// The module has not been set up.
    NotConfigured,
    /// Under replay protection: the nonce of an approved receipt was
    /// accepted before.
    NonceReused,
}

/// An amount of one denomination.
#[derive(Clone, Debug, PartialEq, Eq)]
pub struct Coin {
    pub denom: String,
    pub amount: u128,
}

/// A key and a value of an audit record.
#[derive(Clone, Debug, PartialEq, Eq)]
pub struct Attribute {
    pub key: String,
    pub value: String,
}

/// A named audit record.
#[derive(Clone, Debug, PartialEq, Eq)]
pub struct Event {
    pub ty: String,
    pub attributes: Vec<Attribute>,
}

/// An instruction to move funds out of the module.
#[derive(Clone, Debug, PartialEq, Eq)]
pub struct BankSend {
    pub to_address: String,
    pub amount: Vec<Coin>,
}

/// What a successful request hands back to the host.
#[derive(Clone, Debug, PartialEq, Eq)]
pub struct Response {
    pub messages: Vec<BankSend>,
    pub attributes: Vec<Attribute>,
    pub events: Vec<Event>,
}

/// The module's own identity, as the host knows it.
#[derive(Clone, Debug, PartialEq, Eq)]
pub struct Env {
    pub contract_address: String,
}

/// Who sent a request, and the funds that came with it.
#[derive(Clone, Debug, PartialEq, Eq)]
pub struct MessageInfo {
    pub sender: String,
    pub funds: Vec<Coin>,
}

/// The input of instantiation.
#[derive(Clone, Debug, PartialEq, Eq)]
pub struct InstantiateMsg {
    pub oracle_pubkey: String,
    pub oracle_key_type: String,
}

/// The four operations.
#[derive(Clone, Debug, PartialEq, Eq)]
pub enum ExecuteMsg {
    Send { recipient: String },
    OracleDataUpdate { data: String, signature: String },
    UpdateOracle { new_pubkey: String, new_key_type: Option<String> },
    ReceiveWithApproval { sender: String, amount: String, signature: String, nonce: String },
}

/// The three reads.
#[derive(Clone, Copy, Debug, PartialEq, Eq)]
pub enum QueryMsg {
    GetOracleData,
    GetOraclePubkey,
    GetAdmin,
}

/// The answer to a read.
#[derive(Clone, Debug, PartialEq, Eq)]
pub enum QueryResponse {
    OracleData { data: Option<String> },
    OraclePubkey { pubkey: Vec<u8>, key_type: String },
    Admin { admin: String },
}

pub struct EventView {
    pub ty: Seq<char>,
    pub attributes: Seq<(Seq<char>, Seq<char>)>,
}

pub struct BankSendView {
    pub to_address: Seq<char>,
    pub amount: Seq<(Seq<char>, u128)>,
}

pub struct ResponseView {
    pub messages: Seq<BankSendView>,
    pub attributes: Seq<(Seq<char>, Seq<char>)>,
    pub events: Seq<EventView>,
}

pub enum QueryResponseView {
    OracleData { data: Option<Seq<char>> },
    OraclePubkey { pubkey: Seq<u8>, key_type: Seq<char> },
    Admin { admin: Seq<char> },
}

/// The denominations and amounts of a list of coins.
pub open spec fn coins_view(coins: Seq<Coin>) -> Seq<(Seq<char>, u128)> {
    coins.map_values(|c: Coin| (c.denom@, c.amount))
}

/// The keys and values of a list of attributes.
pub open spec fn attributes_view(attributes: Seq<Attribute>) -> Seq<(Seq<char>, Seq<char>)> {
    attributes.map_values(|a: Attribute| (a.key@, a.value@))
}

/// The text of an optional string.
pub open spec fn text_of(t: Option<String>) -> Option<Seq<char>> {
    match t {
        Some(s) => Some(s@),
        None => None,
    }
}

impl View for Event {
    type V = EventView;

    open spec fn view(&self) -> EventView {
        EventView { ty: self.ty@, attributes: attributes_view(self.attributes@) }
    }
}

impl View for BankSend {
    type V = BankSendView;

    open spec fn view(&self) -> BankSendView {
        BankSendView { to_address: self.to_address@, amount: coins_view(self.amount@) }
    }
}

impl View for Response {
    type V = ResponseView;

    open spec fn view(&self) -> ResponseView {
        ResponseView {
            messages: self.messages@.map_values(|m: BankSend| m@),
            attributes: attributes_view(self.attributes@),
            events: self.events@.map_values(|e: Event| e@),
        }
    }
}

impl View for QueryResponse {
    type V = QueryResponseView;

    open spec fn view(&self) -> QueryResponseView {
        match *self {
            QueryResponse::OracleData { data } => QueryResponseView::OracleData { data: text_of(data) },
            QueryResponse::OraclePubkey { pubkey, key_type } => QueryResponseView::OraclePubkey {
                pubkey: pubkey@,
                key_type: key_type@,
            },
            QueryResponse::Admin { admin } => QueryResponseView::Admin { admin: admin@ },
        }
    }
}

/// A response that carries one audit event and nothing else.
pub open spec fn event_response(event: EventView) -> ResponseView {
    ResponseView { messages: Seq::empty(), attributes: Seq::empty(), events: seq![event] }
}

/// Builds an attribute from a key and a value.
pub fn attribute(key: &str, value: String) -> (r: Attribute)
    ensures
        r.key@ == key@,
        r.value@ == value@,
{
    Attribute { key: key.to_owned(), value }
}

/// Builds the response that carries one event.
pub fn respond_with_event(ty: &str, attributes: Vec<Attribute>) -> (r: Response)
    ensures
        r@ == event_response(EventView { ty: ty@, attributes: attributes_view(attributes@) }),
{
    let event = Event { ty: ty.to_owned(), attributes };
    let mut events: Vec<Event> = Vec::new();
    events.push(event);
    let r = Response { messages: Vec::new(), attributes: Vec::new(), events };
    assert(r@.messages =~= Seq::empty());
    assert(r@.attributes =~= Seq::empty());
    assert(r@.events =~= seq![event@]);
    r
}

} // verus!
