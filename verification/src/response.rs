//! The shapes in which the read side answers: all text and tags.

use vstd::prelude::*;
use crate::entity::{
    MaspPoolAggregate, MaspPoolAggregateKind, MaspPoolAggregateView, MaspPoolAggregateWindow,
};
use crate::masp::{MaspRewardData, MaspRewardDataView};

verus! {

/// A token as the read side names it: the native token, or one that came
/// over a channel from another chain, with the trace of that channel.
#[derive(Debug)]
pub enum TokenResponse {
    Native { address: String },
    Ibc { address: String, trace: String },
}

/// The balance of one token at one address, in the smallest denomination.
#[derive(Debug)]
pub struct AddressBalanceResponse {
    pub token_address: TokenResponse,
    pub min_denom_amount: String,
}

/// The span of time of an aggregate, as answered.
#[derive(Debug, Clone, Copy, PartialEq, Eq, Structural)]
pub enum MaspPoolAggregateWindowResponse {
    OneDay,
    SevenDays,
    ThirtyDays,
    AllTime,
}

/// The direction of an aggregate, as answered.
#[derive(Debug, Clone, Copy, PartialEq, Eq, Structural)]
pub enum MaspPoolAggregateKindResponse {
    Inflows,
    Outflows,
}

/// One aggregate of the shielded pool, as answered.
#[derive(Debug)]
pub struct MaspPoolAggregateResponse {
    pub token_address: String,
    pub time_window: MaspPoolAggregateWindowResponse,
    pub kind: MaspPoolAggregateKindResponse,
    pub total_amount: String,
}

/// The mathematical value of a [`MaspPoolAggregateResponse`].
pub struct MaspPoolAggregateResponseView {
    pub token_address: Seq<char>,
    pub time_window: MaspPoolAggregateWindowResponse,
    pub kind: MaspPoolAggregateKindResponse,
    pub total_amount: Seq<char>,
}

impl DeepView for MaspPoolAggregateResponse {
    type V = MaspPoolAggregateResponseView;

    open spec fn deep_view(&self) -> MaspPoolAggregateResponseView {
        MaspPoolAggregateResponseView {
            token_address: self.token_address@,
            time_window: self.time_window,
            kind: self.kind,
            total_amount: self.total_amount@,
        }
    }
}

/// The answered tag of a window.
pub open spec fn window_response(window: MaspPoolAggregateWindow) -> MaspPoolAggregateWindowResponse {
    match window {
        MaspPoolAggregateWindow::OneDay => MaspPoolAggregateWindowResponse::OneDay,
        MaspPoolAggregateWindow::SevenDays => MaspPoolAggregateWindowResponse::SevenDays,
        MaspPoolAggregateWindow::ThirtyDays => MaspPoolAggregateWindowResponse::ThirtyDays,
        MaspPoolAggregateWindow::AllTime => MaspPoolAggregateWindowResponse::AllTime,
    }
}

/// The answered tag of a kind.
pub open spec fn kind_response(kind: MaspPoolAggregateKind) -> MaspPoolAggregateKindResponse {
    match kind {
        MaspPoolAggregateKind::Inflows => MaspPoolAggregateKindResponse::Inflows,
        MaspPoolAggregateKind::Outflows => MaspPoolAggregateKindResponse::Outflows,
    }
}

/// The answer for an aggregate: the token and the total as text, the tags
/// carried over.
pub open spec fn aggregate_response(value: MaspPoolAggregateView) -> MaspPoolAggregateResponseView {
    MaspPoolAggregateResponseView {
        token_address: value.token_address.text(),
        time_window: window_response(value.time_window),
        kind: kind_response(value.kind),
        total_amount: value.total_amount,
    }
}

impl MaspPoolAggregateResponse {
    /// Answers an aggregate.
    pub fn from(value: MaspPoolAggregate) -> (response: Self)
        ensures
            response.deep_view() == aggregate_response(value.deep_view()),
    {
        MaspPoolAggregateResponse {
            token_address: value.token_address.to_string(),
            time_window: match value.time_window {
                MaspPoolAggregateWindow::OneDay => MaspPoolAggregateWindowResponse::OneDay,
                MaspPoolAggregateWindow::SevenDays => MaspPoolAggregateWindowResponse::SevenDays,
                MaspPoolAggregateWindow::ThirtyDays => MaspPoolAggregateWindowResponse::ThirtyDays,
                MaspPoolAggregateWindow::AllTime => MaspPoolAggregateWindowResponse::AllTime,
            },
            kind: match value.kind {
                MaspPoolAggregateKind::Inflows => MaspPoolAggregateKindResponse::Inflows,
                MaspPoolAggregateKind::Outflows => MaspPoolAggregateKindResponse::Outflows,
            },
            total_amount: value.total_amount.to_string(),
        }
    }
}

/// The reward coefficients of one token, as answered.
#[derive(Debug)]
pub struct MaspRewardDataResponse {
    pub address: String,
    pub max_reward_rate: String,
    pub kp_gain: String,
    pub kd_gain: String,
    pub locked_amount_target: String,
}

/// The mathematical value of a [`MaspRewardDataResponse`].
pub struct MaspRewardDataResponseView {
    pub address: Seq<char>,
    pub max_reward_rate: Seq<char>,
    pub kp_gain: Seq<char>,
    pub kd_gain: Seq<char>,
    pub locked_amount_target: Seq<char>,
}

impl DeepView for MaspRewardDataResponse {
    type V = MaspRewardDataResponseView;

    open spec fn deep_view(&self) -> MaspRewardDataResponseView {
        MaspRewardDataResponseView {
            address: self.address@,
            max_reward_rate: self.max_reward_rate@,
            kp_gain: self.kp_gain@,
            kd_gain: self.kd_gain@,
            locked_amount_target: self.locked_amount_target@,
        }
    }
}

/// The answer for a record: every field as the text it holds, unchanged.
pub open spec fn reward_response(value: MaspRewardDataView) -> MaspRewardDataResponseView {
    MaspRewardDataResponseView {
        address: value.address.text(),
        max_reward_rate: value.max_reward_rate,
        kp_gain: value.kp_gain,
        kd_gain: value.kd_gain,
        locked_amount_target: value.locked_amount_target,
    }
}

impl MaspRewardDataResponse {
    /// Answers a record.
    pub fn from(value: MaspRewardData) -> (response: Self)
        ensures
            response.deep_view() == reward_response(value.deep_view()),
    {
        MaspRewardDataResponse {
            address: value.address.to_string(),
            max_reward_rate: value.max_reward_rate,
            kp_gain: value.kp_gain,
            kd_gain: value.kd_gain,
            locked_amount_target: value.locked_amount_target.to_string(),
        }
    }
}

} // verus!
