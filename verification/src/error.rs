//! What can go wrong.

use crate::result::{RawCallResult, RawCallResultView};
use vstd::prelude::*;

verus! {

/// Why the state of a forked network could not be fetched.
#[verifier::external_type_specification]
#[verifier::external_body]
pub struct ExDatabaseError(foundry_fork_db::error::DatabaseError);

/// Why a historical transaction could not be replayed. Each names the transaction's hash, or for a
/// block that could not be fetched the block's number, and the URL of the fork.
#[derive(Debug)]
pub enum ReplayTransactionError {
    /// The block does not hold the transaction.
    TransactionNotFound(String, String),
    /// The transaction or its block could not be fetched.
    DatabaseError(String, String, foundry_fork_db::error::DatabaseError),
    /// The transaction has not been mined.
    NoBlockNumberFound(String, String),
    /// The transaction is in the first block, which no block comes before.
    GenesisBlockReplay(String, String),
}

/// What a [`ReplayTransactionError`] holds.
pub enum ReplayTransactionErrorView {
    /// The block does not hold the transaction.
    TransactionNotFound(Seq<char>, Seq<char>),
    /// The transaction or its block could not be fetched.
    DatabaseError(Seq<char>, Seq<char>, foundry_fork_db::error::DatabaseError),
    /// The transaction has not been mined.
    NoBlockNumberFound(Seq<char>, Seq<char>),
    /// The transaction is in the first block, which no block comes before.
    GenesisBlockReplay(Seq<char>, Seq<char>),
}

impl View for ReplayTransactionError {
    type V = ReplayTransactionErrorView;

    open spec fn view(&self) -> ReplayTransactionErrorView {
        match self {
            ReplayTransactionError::TransactionNotFound(
                what,
                url,
            ) => ReplayTransactionErrorView::TransactionNotFound(what@, url@),
            ReplayTransactionError::DatabaseError(
                what,
                url,
                error,
            ) => ReplayTransactionErrorView::DatabaseError(what@, url@, *error),
            ReplayTransactionError::NoBlockNumberFound(
                what,
                url,
            ) => ReplayTransactionErrorView::NoBlockNumberFound(what@, url@),
            ReplayTransactionError::GenesisBlockReplay(
                what,
                url,
            ) => ReplayTransactionErrorView::GenesisBlockReplay(what@, url@),
        }
    }
}

/// Why a call on a fork failed.
#[derive(Debug)]
pub enum ForkCallError {
    /// The call could not be run.
    ExecutorError(String),
    /// The EVM ran the call, and it failed.
    Failed(Box<RawCallResult>),
    /// The return data is not what the call's type says.
    TypedError(String),
    /// A historical transaction could not be replayed.
    ReplayTransactionError(ReplayTransactionError),
}

/// What a [`ForkCallError`] holds.
pub enum ForkCallErrorView {
    /// The call could not be run.
    ExecutorError(Seq<char>),
    /// The EVM ran the call, and it failed.
    Failed(RawCallResultView),
    /// The return data is not what the call's type says.
    TypedError(Seq<char>),
    /// A historical transaction could not be replayed.
    ReplayTransactionError(ReplayTransactionErrorView),
}

impl View for ForkCallError {
    type V = ForkCallErrorView;

    open spec fn view(&self) -> ForkCallErrorView {
        match self {
            ForkCallError::ExecutorError(text) => ForkCallErrorView::ExecutorError(text@),
            ForkCallError::Failed(raw) => ForkCallErrorView::Failed(raw@),
            ForkCallError::TypedError(text) => ForkCallErrorView::TypedError(text@),
            ForkCallError::ReplayTransactionError(
                error,
            ) => ForkCallErrorView::ReplayTransactionError(error@),
        }
    }
}

/// The error of a call that cannot be run, with the text `text`.
pub(crate) fn executor_error(text: &str) -> (r: ForkCallError)
    ensures
        r@ == ForkCallErrorView::ExecutorError(text@),
{
    ForkCallError::ExecutorError(text.to_owned())
}

} // verus!
