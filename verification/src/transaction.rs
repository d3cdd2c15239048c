//! The read side of transactions: the defaults of a question and what is
//! decided on the rows that were read.

use vstd::prelude::*;

verus! {

/// The page answered where a question names none.
pub const DEFAULT_PAGE: u64 = 1;

/// How many of the most recent transactions are answered where a question
/// names no number.
pub const DEFAULT_RECENT_SIZE: u64 = 10;

/// The length of a transaction id, in bytes.
pub const TX_ID_LENGTH: usize = 64;

/// Why the read side of transactions could not answer.
#[derive(Debug)]
pub enum TransactionError {
    /// The id asked for does not have the length of a transaction id.
    InvalidTxId,
    /// No wrapper transaction has this id.
    TxIdNotFound(String),
    /// The store failed; the text is what it said.
    Database(String),
}

/// Checks that `tx_id` has the length of a transaction id.
pub fn is_valid_hash(tx_id: &str) -> (res: Result<(), TransactionError>)
    ensures
        res is Ok <==> tx_id.len() == TX_ID_LENGTH,
        res matches Err(e) ==> e == TransactionError::InvalidTxId,
{
    if tx_id.len() == TX_ID_LENGTH {
        Ok(())
    } else {
        Err(TransactionError::InvalidTxId)
    }
}

/// The page to answer.
pub fn page_or_default(page: Option<u64>) -> (chosen: u64)
    ensures
        chosen == match page {
            Some(p) => p,
            None => DEFAULT_PAGE,
        },
{
    match page {
        Some(p) => p,
        None => DEFAULT_PAGE,
    }
}

/// The number of most recent transactions to answer.
pub fn size_or_default(size: Option<u64>) -> (chosen: u64)
    ensures
        chosen == match size {
            Some(s) => s,
            None => DEFAULT_RECENT_SIZE,
        },
{
    match size {
        Some(s) => s,
        None => DEFAULT_RECENT_SIZE,
    }
}

/// A wrapper transaction that was looked up by id: the one found, or
/// `TxIdNotFound` with the id where none was.
pub fn require_wrapper<T>(tx_id: String, found: Option<T>) -> (res: Result<T, TransactionError>)
    ensures
        match found {
            Some(wrapper) => res == Ok::<T, TransactionError>(wrapper),
            None => res == Err::<T, TransactionError>(TransactionError::TxIdNotFound(tx_id)),
        },
{
    match found {
        Some(wrapper) => Ok(wrapper),
        None => Err(TransactionError::TxIdNotFound(tx_id)),
    }
}

/// The inner transactions to show with a wrapper: those read, or none where
/// reading them failed.
pub fn inner_or_empty<I, E>(read: Result<Vec<I>, E>) -> (shown: Vec<I>)
    ensures
        match read {
            Ok(inner) => shown == inner,
            Err(_) => shown@.len() == 0,
        },
{
    match read {
        Ok(inner) => inner,
        Err(_) => Vec::new(),
    }
}

} // verus!
