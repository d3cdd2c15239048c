//! The read side of gas: the window of similar transactions that an
//! estimate is drawn from.

use vstd::prelude::*;
use crate::appstate::AppState;

verus! {

/// How far above the number of signatures asked for a transaction may lie
/// and still count as similar.
pub const TX_SIGNATURES_WINDOW_UPPERBOUND: u64 = 5;

/// The repository of gas prices and estimates: it keeps what a connection
/// is opened with.
#[derive(Debug)]
pub struct GasRepository {
    pub app_state: AppState,
}

impl Clone for GasRepository {
    fn clone(&self) -> (copy: Self)
        ensures
            copy == *self,
    {
        GasRepository { app_state: self.app_state.clone() }
    }
}

/// The window of signature counts that count as similar to `signatures`:
/// two to five where none is asked for, else from the number asked for to
/// five above it, each bound cut to the 32 bits of the store's column.
pub open spec fn signature_window(signatures: u64) -> (i32, i32) {
    if signatures == 0 {
        (2i32, 5i32)
    } else {
        (signatures as i32, (signatures + TX_SIGNATURES_WINDOW_UPPERBOUND) as i32)
    }
}

impl GasRepository {
    pub fn new(app_state: AppState) -> (repo: GasRepository)
        ensures
            repo.app_state == app_state,
    {
        GasRepository { app_state }
    }

    /// The bounds, both included, between which the signature count of a
    /// stored transaction must lie to count as similar.
    pub fn signature_bounds(&self, signatures: u64) -> (bounds: (i32, i32))
        requires
            signatures + TX_SIGNATURES_WINDOW_UPPERBOUND <= u64::MAX,
        ensures
            bounds == signature_window(signatures),
    {
        if signatures == 0 {
            (2, 5)
        } else {
            let high: u64 = signatures + TX_SIGNATURES_WINDOW_UPPERBOUND;
            (#[verifier::truncate] (signatures as i32), #[verifier::truncate] (high as i32))
        }
    }
}

} // verus!
