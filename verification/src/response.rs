//! What a handler receives from the chain (the caller and the coins sent) and
//! what it answers with (messages to dispatch and event attributes).
use vstd::prelude::*;

verus! {

#[derive(Clone, Debug, PartialEq, Eq)]
pub struct Coin {
    pub denom: String,
    pub amount: u128,
}

pub struct CoinView {
    pub denom: Seq<char>,
    pub amount: u128,
}

impl View for Coin {
    type V = CoinView;

    open spec fn view(&self) -> CoinView {
        CoinView { denom: self.denom@, amount: self.amount }
    }
}

pub open spec fn coins_view(coins: Seq<Coin>) -> Seq<CoinView> {
    coins.map_values(|c: Coin| c@)
}

/// The caller of a handler and the coins it sent along.
#[derive(Clone, Debug, PartialEq, Eq)]
pub struct MessageInfo {
    pub sender: String,
    pub funds: Vec<Coin>,
}

/// A message that the contract asks the chain to dispatch.
#[derive(Clone, Debug, PartialEq, Eq)]
pub enum CosmosMsg {
    /// Execute `msg` (JSON) on the contract `contract_addr`, sending no coins.
    WasmExecute { contract_addr: String, msg: Vec<u8> },
    /// Send coins to `to_address`.
    BankSend { to_address: String, amount: Vec<Coin> },
}

pub enum MsgView {
    WasmExecute { contract_addr: Seq<char>, msg: Seq<u8> },
    BankSend { to_address: Seq<char>, amount: Seq<CoinView> },
}

impl View for CosmosMsg {
    type V = MsgView;

    open spec fn view(&self) -> MsgView {
        match self {
            CosmosMsg::WasmExecute { contract_addr, msg } => MsgView::WasmExecute {
                contract_addr: contract_addr@,
                msg: msg@,
            },
            CosmosMsg::BankSend { to_address, amount } => MsgView::BankSend {
                to_address: to_address@,
                amount: coins_view(amount@),
            },
        }
    }
}

#[derive(Clone, Debug, PartialEq, Eq)]
pub struct Attribute {
    pub key: String,
    pub value: String,
}

impl View for Attribute {
    type V = (Seq<char>, Seq<char>);

    open spec fn view(&self) -> (Seq<char>, Seq<char>) {
        (self.key@, self.value@)
    }
}

/// The answer of a handler that succeeded.
#[derive(Clone, Debug, PartialEq, Eq)]
pub struct Response {
    pub messages: Vec<CosmosMsg>,
    pub attributes: Vec<Attribute>,
}

pub struct ResponseView {
    pub messages: Seq<MsgView>,
    pub attributes: Seq<(Seq<char>, Seq<char>)>,
}

impl View for Response {
    type V = ResponseView;

    open spec fn view(&self) -> ResponseView {
        ResponseView {
            messages: self.messages@.map_values(|m: CosmosMsg| m@),
            attributes: self.attributes@.map_values(|a: Attribute| a@),
        }
    }
}

pub fn attribute(key: &str, value: String) -> (a: Attribute)
    ensures
        a@ == (key@, value@),
{
    Attribute { key: key.to_owned(), value }
}

/// A response with neither messages nor attributes.
pub fn empty_response() -> (r: Response)
    ensures
        r@.messages == Seq::<MsgView>::empty(),
        r@.attributes == Seq::<(Seq<char>, Seq<char>)>::empty(),
{
    let r = Response { messages: Vec::new(), attributes: Vec::new() };
    assert(r@.messages =~= Seq::<MsgView>::empty());
    assert(r@.attributes =~= Seq::<(Seq<char>, Seq<char>)>::empty());
    r
}

} // verus!
