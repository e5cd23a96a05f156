//! The errors that the contract answers with.
use vstd::prelude::*;

verus! {

/// The errors of the chain's standard library that the contract passes on.
#[derive(Clone, Debug, PartialEq, Eq)]
pub enum StdError {
    GenericErr { msg: String },
    SerializeErr { source_type: String, msg: String },
}

pub enum StdErrorView {
    GenericErr { msg: Seq<char> },
    SerializeErr { source_type: Seq<char>, msg: Seq<char> },
}

impl View for StdError {
    type V = StdErrorView;

    open spec fn view(&self) -> StdErrorView {
        match self {
            StdError::GenericErr { msg } => StdErrorView::GenericErr { msg: msg@ },
            StdError::SerializeErr { source_type, msg } => StdErrorView::SerializeErr {
                source_type: source_type@,
                msg: msg@,
            },
        }
    }
}

/// Why a payment in the native coin was refused.
#[derive(Clone, Debug, PartialEq, Eq)]
pub enum PaymentError {
    MissingDenom(String),
    ExtraDenom(String),
    MultipleDenoms,
    NoFunds,
    NonPayable,
}

pub enum PaymentErrorView {
    MissingDenom(Seq<char>),
    ExtraDenom(Seq<char>),
    MultipleDenoms,
    NoFunds,
    NonPayable,
}

impl View for PaymentError {
    type V = PaymentErrorView;

    open spec fn view(&self) -> PaymentErrorView {
        match self {
            PaymentError::MissingDenom(d) => PaymentErrorView::MissingDenom(d@),
            PaymentError::ExtraDenom(d) => PaymentErrorView::ExtraDenom(d@),
            PaymentError::MultipleDenoms => PaymentErrorView::MultipleDenoms,
            PaymentError::NoFunds => PaymentErrorView::NoFunds,
            PaymentError::NonPayable => PaymentErrorView::NonPayable,
        }
    }
}

#[derive(Clone, Debug, PartialEq, Eq)]
pub enum ContractError {
    Std(StdError),
    CustomError { val: String },
    TokenNotListedForSale,
    NoCw721ToWithdraw,
    UnauthorizedOwner,
}

pub enum ContractErrorView {
    Std(StdErrorView),
    CustomError { val: Seq<char> },
    TokenNotListedForSale,
    NoCw721ToWithdraw,
    UnauthorizedOwner,
}

impl View for ContractError {
    type V = ContractErrorView;

    open spec fn view(&self) -> ContractErrorView {
        match self {
            ContractError::Std(e) => ContractErrorView::Std(e@),
            ContractError::CustomError { val } => ContractErrorView::CustomError { val: val@ },
            ContractError::TokenNotListedForSale => ContractErrorView::TokenNotListedForSale,
            ContractError::NoCw721ToWithdraw => ContractErrorView::NoCw721ToWithdraw,
            ContractError::UnauthorizedOwner => ContractErrorView::UnauthorizedOwner,
        }
    }
}

/// The error that carries a message of the contract's own.
pub open spec fn custom(val: Seq<char>) -> ContractErrorView {
    ContractErrorView::CustomError { val }
}

/// An error with a message of the contract's own.
pub fn custom_error(val: &str) -> (e: ContractError)
    ensures
        e@ == custom(val@),
{
    ContractError::CustomError { val: val.to_owned() }
}

} // verus!
