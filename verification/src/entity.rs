//! What the read side hands around: aggregates of the shielded pool.

use vstd::prelude::*;
use crate::masp::{Amount, Id, IdView};

verus! {

/// The span of time an aggregate of the shielded pool covers.
#[derive(Debug, Clone, Copy, PartialEq, Eq, Structural)]
pub enum MaspPoolAggregateWindow {
    OneDay,
    SevenDays,
    ThirtyDays,
    AllTime,
}

/// Whether an aggregate sums what went into the pool or what left it.
#[derive(Debug, Clone, Copy, PartialEq, Eq, Structural)]
pub enum MaspPoolAggregateKind {
    Inflows,
    Outflows,
}

/// The total that one token moved into or out of the pool over one window.
#[derive(Debug)]
pub struct MaspPoolAggregate {
    pub token_address: Id,
    pub time_window: MaspPoolAggregateWindow,
    pub kind: MaspPoolAggregateKind,
    pub total_amount: Amount,
}

/// The mathematical value of a [`MaspPoolAggregate`].
pub struct MaspPoolAggregateView {
    pub token_address: IdView,
    pub time_window: MaspPoolAggregateWindow,
    pub kind: MaspPoolAggregateKind,
    pub total_amount: Seq<char>,
}

impl DeepView for MaspPoolAggregate {
    type V = MaspPoolAggregateView;

    open spec fn deep_view(&self) -> MaspPoolAggregateView {
        MaspPoolAggregateView {
            token_address: self.token_address.deep_view(),
            time_window: self.time_window,
            kind: self.kind,
            total_amount: self.total_amount@,
        }
    }
}

} // verus!
