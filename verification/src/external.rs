//! Calls into the chain's libraries (`cosmwasm-std`, `cw-utils`, `cw20`,
//! `cw721`) and into std's decimal formatting. Each item here is trusted: Verus takes
//! its contract as given; the doc comment says what is claimed of the outside
//! function.
use vstd::prelude::*;
use crate::error::{PaymentError, PaymentErrorView, StdError};
use crate::response::{coins_view, CoinView, MessageInfo};

verus! {

/// The decimal digit `d`.
pub open spec fn digit_char(d: nat) -> char {
    (d + 48) as char
}

/// The decimal representation of `n`, without sign or leading zeros.
pub open spec fn decimal(n: nat) -> Seq<char>
    decreases n,
{
    if n < 10 {
        seq![digit_char(n)]
    } else {
        decimal(n / 10).push(digit_char(n % 10))
    }
}

/// What a payment in `denom` yields: the amount of the one coin sent, which
/// must be non-zero and in `denom`.
pub open spec fn payment_outcome(funds: Seq<CoinView>, denom: Seq<char>) -> Result<
    u128,
    PaymentErrorView,
> {
    if funds.len() == 0 {
        Err(PaymentErrorView::NoFunds)
    } else if funds.len() > 1 {
        Err(PaymentErrorView::MultipleDenoms)
    } else if funds[0].amount == 0 {
        Err(PaymentErrorView::NoFunds)
    } else if funds[0].denom != denom {
        Err(PaymentErrorView::MissingDenom(denom))
    } else {
        Ok(funds[0].amount)
    }
}

/// `cw_utils::must_pay`. As its source shows: no coin, or one coin of amount
/// zero, is `NoFunds`; two coins or more is `MultipleDenoms`; one coin in
/// another denom is `MissingDenom(denom)`; otherwise the coin's amount.
#[verifier::external_body]
pub fn must_pay(info: &MessageInfo, denom: &str) -> (r: Result<u128, PaymentError>)
    ensures
        match r {
            Ok(amount) => payment_outcome(coins_view(info.funds@), denom@) == Ok::<
                u128,
                PaymentErrorView,
            >(amount),
            Err(e) => payment_outcome(coins_view(info.funds@), denom@) == Err::<
                u128,
                PaymentErrorView,
            >(e@),
        },
{
    let funds = info.funds.iter().map(|c| cosmwasm_std::coin(c.amount, c.denom.as_str())).collect();
    let sender = cosmwasm_std::Addr::unchecked(info.sender.as_str());
    match cw_utils::must_pay(&cosmwasm_std::MessageInfo { sender, funds }, denom) {
        Ok(amount) => Ok(amount.u128()),
        Err(cw_utils::PaymentError::MissingDenom(d)) => Err(PaymentError::MissingDenom(d)),
        Err(cw_utils::PaymentError::ExtraDenom(d)) => Err(PaymentError::ExtraDenom(d)),
        Err(cw_utils::PaymentError::MultipleDenoms {}) => Err(PaymentError::MultipleDenoms),
        Err(cw_utils::PaymentError::NoFunds {}) => Err(PaymentError::NoFunds),
        Err(cw_utils::PaymentError::NonPayable {}) => Err(PaymentError::NonPayable),
    }
}

/// The JSON that `cosmwasm_std::to_binary` makes of the CW721 message
/// `TransferNft { recipient, token_id }`.
pub uninterp spec fn cw721_transfer_json(recipient: Seq<char>, token_id: Seq<char>) -> Seq<u8>;

/// The JSON that `cosmwasm_std::to_binary` makes of the CW20 message
/// `Transfer { recipient, amount }`.
pub uninterp spec fn cw20_transfer_json(recipient: Seq<char>, amount: u128) -> Seq<u8>;

/// `cosmwasm_std::to_binary` on `cw721::Cw721ExecuteMsg::TransferNft`. The
/// bytes are named, not spelled out: the claim is that they are a function
/// of the recipient and the token id, and that encoding succeeds (the
/// serializer, `serde_json_wasm::to_vec`, writes strings without a failing
/// path).
#[verifier::external_body]
#[allow(deprecated)]
pub fn encode_cw721_transfer(recipient: &str, token_id: &str) -> (r: Result<Vec<u8>, StdError>)
    ensures
        r is Ok,
        r matches Ok(b) ==> b@ == cw721_transfer_json(recipient@, token_id@),
{
    let recipient = recipient.to_string();
    let token_id = token_id.to_string();
    match cosmwasm_std::to_binary(&cw721::Cw721ExecuteMsg::TransferNft { recipient, token_id }) {
        Ok(b) => Ok(b.to_vec()),
        Err(cosmwasm_std::StdError::SerializeErr { source_type, msg, .. }) => Err(
            StdError::SerializeErr { source_type, msg },
        ),
        Err(e) => Err(StdError::GenericErr { msg: e.to_string() }),
    }
}

/// `cosmwasm_std::to_binary` on `cw20::Cw20ExecuteMsg::Transfer`. The bytes
/// are named, not spelled out: the claim is that they are a function of the
/// recipient and the amount, and that encoding succeeds (the serializer,
/// `serde_json_wasm::to_vec`, writes strings, and a `Uint128` as a string,
/// without a failing path).
#[verifier::external_body]
#[allow(deprecated)]
pub fn encode_cw20_transfer(recipient: &str, amount: u128) -> (r: Result<Vec<u8>, StdError>)
    ensures
        r is Ok,
        r matches Ok(b) ==> b@ == cw20_transfer_json(recipient@, amount),
{
    let recipient = recipient.to_string();
    let amount = cosmwasm_std::Uint128::new(amount);
    match cosmwasm_std::to_binary(&cw20::Cw20ExecuteMsg::Transfer { recipient, amount }) {
        Ok(b) => Ok(b.to_vec()),
        Err(cosmwasm_std::StdError::SerializeErr { source_type, msg, .. }) => Err(
            StdError::SerializeErr { source_type, msg },
        ),
        Err(e) => Err(StdError::GenericErr { msg: e.to_string() }),
    }
}

/// std's `to_string` on a `u128`: its decimal representation, as the
/// documentation of `Display` for integers gives it.
#[verifier::external_body]
pub fn decimal_text(n: u128) -> (r: String)
    ensures
        r@ == decimal(n as nat),
{
    n.to_string()
}

} // verus!
