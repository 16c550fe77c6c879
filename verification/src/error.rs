//! The errors that the contract reports.

use vstd::prelude::*;

verus! {

/// An error of the contract's surroundings: its store or the chain.
#[derive(Clone, Debug, PartialEq)]
pub enum StdError {
    /// An error that has only a message.
    GenericErr { msg: String },
    /// A record of the given kind was asked for and is not in the store.
    NotFound { kind: String },
}

/// What an [`StdError`] holds, as text.
pub enum StdErrorView {
    GenericErr { msg: Seq<char> },
    NotFound { kind: Seq<char> },
}

impl View for StdError {
    type V = StdErrorView;

    open spec fn view(&self) -> StdErrorView {
        match *self {
            StdError::GenericErr { msg } => StdErrorView::GenericErr { msg: msg@ },
            StdError::NotFound { kind } => StdErrorView::NotFound { kind: kind@ },
        }
    }
}

impl StdError {
    /// The error that has only the message `msg`.
    pub fn generic_err(msg: String) -> (err: StdError)
        ensures
            err@ == (StdErrorView::GenericErr { msg: msg@ }),
    {
        StdError::GenericErr { msg }
    }

    /// The error for a missing record of the kind `kind`.
    pub fn not_found(kind: String) -> (err: StdError)
        ensures
            err@ == (StdErrorView::NotFound { kind: kind@ }),
    {
        StdError::NotFound { kind }
    }
}

/// An error of the contract itself.
#[derive(Clone, Debug, PartialEq)]
pub enum ContractError {
    /// The contract's surroundings failed.
    Std(StdError),
    /// The sender is not allowed to do what the message asks.
    Unauthorized {},
    /// The message cannot be carried out, for the reason in `val`.
    CustomError { val: String },
}

/// What a [`ContractError`] holds, as text.
pub enum ContractErrorView {
    Std(StdErrorView),
    Unauthorized,
    CustomError { val: Seq<char> },
}

impl View for ContractError {
    type V = ContractErrorView;

    open spec fn view(&self) -> ContractErrorView {
        match *self {
            ContractError::Std(err) => ContractErrorView::Std(err@),
            ContractError::Unauthorized {} => ContractErrorView::Unauthorized,
            ContractError::CustomError { val } => ContractErrorView::CustomError { val: val@ },
        }
    }
}

} // verus!
