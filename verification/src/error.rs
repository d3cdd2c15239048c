//! The tagged errors of the crawler, so that callers decide by kind.

use vstd::prelude::*;

verus! {

/// Why the node did not answer a query.
#[derive(Debug, Clone, Copy, PartialEq, Eq, Structural)]
pub enum ClientError {
    /// The node cannot be reached; the query may be repeated later.
    Unavailable,
    /// The node no longer retains the requested epoch.
    NotFound,
}

/// Why a commit left the store untouched.
#[derive(Debug, Clone, Copy, PartialEq, Eq, Structural)]
pub enum WriteError {
    /// The epoch offered for the cursor is not the successor of the stored one.
    OutOfOrder,
    /// The store failed for any other reason; the commit may be repeated later.
    Database,
}

/// Every error the crawl loop can meet in one cycle.
#[derive(Debug, Clone, Copy, PartialEq, Eq, Structural)]
pub enum CrawlError {
    Unavailable,
    NotFound,
    MalformedData,
    OutOfOrder,
    Database,
}

impl CrawlError {
    /// The loop's error for a failed node query.
    pub open spec fn of_client(e: ClientError) -> CrawlError {
        match e {
            ClientError::Unavailable => CrawlError::Unavailable,
            ClientError::NotFound => CrawlError::NotFound,
        }
    }

    /// The loop's error for a failed commit.
    pub open spec fn of_write(e: WriteError) -> CrawlError {
        match e {
            WriteError::OutOfOrder => CrawlError::OutOfOrder,
            WriteError::Database => CrawlError::Database,
        }
    }

    /// Whether repeating the same work after a pause can succeed: true of an
    /// unreachable node and of a failing store, false of the others.
    pub open spec fn transient(self) -> bool {
        self == CrawlError::Unavailable || self == CrawlError::Database
    }

    pub fn from_client(e: ClientError) -> (err: CrawlError)
        ensures
            err == CrawlError::of_client(e),
    {
        match e {
            ClientError::Unavailable => CrawlError::Unavailable,
            ClientError::NotFound => CrawlError::NotFound,
        }
    }

    pub fn from_write(e: WriteError) -> (err: CrawlError)
        ensures
            err == CrawlError::of_write(e),
    {
        match e {
            WriteError::OutOfOrder => CrawlError::OutOfOrder,
            WriteError::Database => CrawlError::Database,
        }
    }

    pub fn is_transient(&self) -> (yes: bool)
        ensures
            yes == self.transient(),
    {
        match self {
            CrawlError::Unavailable => true,
            CrawlError::Database => true,
            _ => false,
        }
    }
}

} // verus!
