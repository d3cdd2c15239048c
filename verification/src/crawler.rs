//! The decisions of the crawl loop. The loop itself runs outside: it does
//! what an [`Action`] asks, comes back with the [`Event`] that answers it,
//! and is told by [`step`] what to do next.

use vstd::prelude::*;
use crate::config::{AppConfig, Mode};
use crate::error::{ClientError, CrawlError, WriteError};
use crate::extract::{
    extract, extraction, snapshot_is_numeric, RawRewardEntryView, RawRewardSnapshot,
};
use crate::masp::{Epoch, MaspRewardData, MaspRewardDataView};

verus! {

/// Where a cycle stands.
#[derive(Debug)]
pub enum Phase {
    /// Between cycles, waiting to hear of cursor and chain head.
    Idle,
    /// Waiting for the node's answer for `epoch`.
    Fetching { epoch: Epoch },
    /// Holding the node's answer for `epoch`, about to extract its records.
    Extracting { epoch: Epoch, raw: RawRewardSnapshot },
    /// Waiting for the store's answer to the commit of `epoch`.
    Committing { epoch: Epoch },
    /// Pausing before the next cycle.
    Sleeping,
    /// The loop has ended.
    Stopped,
}

/// The mathematical value of a [`Phase`].
pub enum PhaseView {
    Idle,
    Fetching { epoch: Epoch },
    Extracting { epoch: Epoch, raw: Seq<RawRewardEntryView> },
    Committing { epoch: Epoch },
    Sleeping,
    Stopped,
}

impl DeepView for Phase {
    type V = PhaseView;

    open spec fn deep_view(&self) -> PhaseView {
        match self {
            Phase::Idle => PhaseView::Idle,
            Phase::Fetching { epoch } => PhaseView::Fetching { epoch: *epoch },
            Phase::Extracting { epoch, raw } => PhaseView::Extracting {
                epoch: *epoch,
                raw: raw.deep_view(),
            },
            Phase::Committing { epoch } => PhaseView::Committing { epoch: *epoch },
            Phase::Sleeping => PhaseView::Sleeping,
            Phase::Stopped => PhaseView::Stopped,
        }
    }
}

/// What a run is out to do, and how far it has come.
#[derive(Debug, Clone, Copy, PartialEq, Eq, Structural)]
pub enum Plan {
    /// Follow the chain from the stored cursor. `started` is false until
    /// the cursor was read for the first time.
    Follow { started: bool },
    /// Replay the epochs from `next` to `end`, leaving the cursor alone.
    /// `next` is absent once the range is used up; `end` is absent until
    /// the node's first answer fixes it to the head of the chain.
    Replay { next: Option<Epoch>, end: Option<Epoch> },
}

/// All that the loop carries from one decision to the next.
#[derive(Debug)]
pub struct CrawlState {
    pub phase: Phase,
    pub plan: Plan,
    /// The pause between cycles, in seconds.
    pub sleep_for: u64,
}

/// The mathematical value of a [`CrawlState`].
pub struct CrawlStateView {
    pub phase: PhaseView,
    pub plan: Plan,
    pub sleep_for: u64,
}

impl DeepView for CrawlState {
    type V = CrawlStateView;

    open spec fn deep_view(&self) -> CrawlStateView {
        CrawlStateView {
            phase: self.phase.deep_view(),
            plan: self.plan,
            sleep_for: self.sleep_for,
        }
    }
}

/// What came of the action last asked for.
#[derive(Debug)]
pub enum Event {
    /// The stored cursor and the head of the chain. Where the cursor was
    /// not to be read, `cursor` is not looked at.
    Polled { cursor: Result<Option<Epoch>, WriteError>, latest: Result<Epoch, ClientError> },
    /// The node's answer for the epoch asked for.
    Fetched(Result<RawRewardSnapshot, ClientError>),
    /// Nothing was to be done outside.
    Proceeded,
    /// The store's answer to the commit.
    Committed(Result<(), WriteError>),
    /// The pause is over.
    Woke,
}

/// The mathematical value of an [`Event`].
pub enum EventView {
    Polled { cursor: Result<Option<Epoch>, WriteError>, latest: Result<Epoch, ClientError> },
    Fetched(Result<Seq<RawRewardEntryView>, ClientError>),
    Proceeded,
    Committed(Result<(), WriteError>),
    Woke,
}

impl DeepView for Event {
    type V = EventView;

    open spec fn deep_view(&self) -> EventView {
        match self {
            Event::Polled { cursor, latest } => EventView::Polled {
                cursor: *cursor,
                latest: *latest,
            },
            Event::Fetched(Ok(raw)) => EventView::Fetched(Ok(raw.deep_view())),
            Event::Fetched(Err(e)) => EventView::Fetched(Err(*e)),
            Event::Proceeded => EventView::Proceeded,
            Event::Committed(res) => EventView::Committed(*res),
            Event::Woke => EventView::Woke,
        }
    }
}

/// What the loop is to do next.
#[derive(Debug)]
pub enum Action {
    /// Ask the node for the head of the chain and, where `read_cursor`
    /// holds, read the stored cursor; answer with [`Event::Polled`].
    Poll { read_cursor: bool },
    /// Ask the node for the reward parameters of `epoch`; answer with
    /// [`Event::Fetched`].
    Fetch { epoch: Epoch },
    /// Do nothing outside; answer with [`Event::Proceeded`].
    Proceed,
    /// Commit the records and the cursor step as one unit; answer with
    /// [`Event::Committed`].
    Commit { records: Vec<MaspRewardData>, cursor_advance: Option<Epoch> },
    /// Pause for so many seconds; answer with [`Event::Woke`].
    Sleep { seconds: u64 },
    /// End the loop.
    Stop,
}

/// The mathematical value of an [`Action`].
pub enum ActionView {
    Poll { read_cursor: bool },
    Fetch { epoch: Epoch },
    Proceed,
    Commit { records: Seq<MaspRewardDataView>, cursor_advance: Option<Epoch> },
    Sleep { seconds: u64 },
    Stop,
}

impl DeepView for Action {
    type V = ActionView;

    open spec fn deep_view(&self) -> ActionView {
        match self {
            Action::Poll { read_cursor } => ActionView::Poll { read_cursor: *read_cursor },
            Action::Fetch { epoch } => ActionView::Fetch { epoch: *epoch },
            Action::Proceed => ActionView::Proceed,
            Action::Commit { records, cursor_advance } => ActionView::Commit {
                records: records.deep_view(),
                cursor_advance: *cursor_advance,
            },
            Action::Sleep { seconds } => ActionView::Sleep { seconds: *seconds },
            Action::Stop => ActionView::Stop,
        }
    }
}

/// An error for the operator to see.
#[derive(Debug, Clone, Copy, PartialEq, Eq, Structural)]
pub struct Report {
    pub error: CrawlError,
    /// The epoch in work when the error came up, if one was.
    pub epoch: Option<Epoch>,
    /// Whether the error calls for an operator: it tells of a mismatch of
    /// logic or versions, or ends the run, and not of something passing.
    pub alert: bool,
}

/// One decision: the state to go on from, the action to take, and the
/// error to report, if the event brought one.
#[derive(Debug)]
pub struct Step {
    pub state: CrawlState,
    pub action: Action,
    pub report: Option<Report>,
}

/// The mathematical value of a [`Step`].
pub struct StepView {
    pub state: CrawlStateView,
    pub action: ActionView,
    pub report: Option<Report>,
}

impl DeepView for Step {
    type V = StepView;

    open spec fn deep_view(&self) -> StepView {
        StepView {
            state: self.state.deep_view(),
            action: self.action.deep_view(),
            report: self.report,
        }
    }
}

/// The epoch after `epoch`, where there is one.
pub open spec fn successor(epoch: Epoch) -> Option<Epoch> {
    if epoch < u32::MAX {
        Some((epoch + 1) as u32)
    } else {
        None
    }
}

/// The epoch to process after a stored cursor: the first epoch of the chain
/// where nothing is stored yet, else the successor of the stored one.
pub open spec fn epoch_after(cursor: Option<Epoch>) -> Option<Epoch> {
    match cursor {
        None => Some(0u32),
        Some(last) => successor(last),
    }
}

/// Whether a plan reads and moves the cursor.
pub open spec fn follows(plan: Plan) -> bool {
    plan is Follow
}

/// The plan and the state that a run begins with.
pub open spec fn initial_state(mode: Mode, sleep_for: u64) -> CrawlStateView {
    CrawlStateView {
        phase: PhaseView::Idle,
        plan: match mode {
            Mode::Normal => Plan::Follow { started: false },
            Mode::Backfill { from } => Plan::Replay { next: Some(from), end: None },
        },
        sleep_for,
    }
}

/// Go to sleep for the configured pause.
pub open spec fn sleep_step(sleep_for: u64, plan: Plan, report: Option<Report>) -> StepView {
    StepView {
        state: CrawlStateView { phase: PhaseView::Sleeping, plan, sleep_for },
        action: ActionView::Sleep { seconds: sleep_for },
        report,
    }
}

/// Begin a cycle: look at the head of the chain, and at the cursor where the
/// plan follows it.
pub open spec fn poll_step(sleep_for: u64, plan: Plan, report: Option<Report>) -> StepView {
    StepView {
        state: CrawlStateView { phase: PhaseView::Idle, plan, sleep_for },
        action: ActionView::Poll { read_cursor: follows(plan) },
        report,
    }
}

/// End the loop.
pub open spec fn stop_step(sleep_for: u64, plan: Plan, report: Option<Report>) -> StepView {
    StepView {
        state: CrawlStateView { phase: PhaseView::Stopped, plan, sleep_for },
        action: ActionView::Stop,
        report,
    }
}

/// Ask the node for `epoch`.
pub open spec fn fetch_step(sleep_for: u64, plan: Plan, epoch: Epoch) -> StepView {
    StepView {
        state: CrawlStateView { phase: PhaseView::Fetching { epoch }, plan, sleep_for },
        action: ActionView::Fetch { epoch },
        report: None,
    }
}

/// The plan once `epoch` is done with: a replay moves on to the next epoch,
/// a run that follows the chain is led by the cursor and keeps its plan.
pub open spec fn plan_past(plan: Plan, epoch: Epoch) -> Plan {
    match plan {
        Plan::Follow { started } => plan,
        Plan::Replay { next, end } => Plan::Replay { next: successor(epoch), end },
    }
}

/// Epoch selection, on hearing of cursor and chain head.
pub open spec fn on_polled(
    s: CrawlStateView,
    cursor: Result<Option<Epoch>, WriteError>,
    latest: Result<Epoch, ClientError>,
) -> StepView {
    match s.plan {
        Plan::Follow { started } => match cursor {
            Err(e) => {
                let report = Some(
                    Report { error: CrawlError::of_write(e), epoch: None, alert: !started },
                );
                if started {
                    sleep_step(s.sleep_for, s.plan, report)
                } else {
                    stop_step(s.sleep_for, s.plan, report)
                }
            },
            Ok(stored) => {
                let plan = Plan::Follow { started: true };
                match latest {
                    Err(e) => sleep_step(
                        s.sleep_for,
                        plan,
                        Some(Report { error: CrawlError::of_client(e), epoch: None, alert: false }),
                    ),
                    Ok(head) => match epoch_after(stored) {
                        Some(epoch) => if epoch <= head {
                            fetch_step(s.sleep_for, plan, epoch)
                        } else {
                            sleep_step(s.sleep_for, plan, None)
                        },
                        None => sleep_step(s.sleep_for, plan, None),
                    },
                }
            },
        },
        Plan::Replay { next, end } => match latest {
            Err(e) => sleep_step(
                s.sleep_for,
                s.plan,
                Some(Report { error: CrawlError::of_client(e), epoch: None, alert: false }),
            ),
            Ok(head) => {
                let last = match end {
                    Some(fixed) => fixed,
                    None => head,
                };
                let plan = Plan::Replay { next, end: Some(last) };
                match next {
                    Some(epoch) => if epoch <= last {
                        fetch_step(s.sleep_for, plan, epoch)
                    } else {
                        stop_step(s.sleep_for, plan, None)
                    },
                    None => stop_step(s.sleep_for, plan, None),
                }
            },
        },
    }
}

/// What follows the node's failure to answer for `epoch`: a replay gives up
/// an epoch that the node no longer retains and moves on; everything else is
/// tried again after the pause.
pub open spec fn on_fetch_failed(s: CrawlStateView, epoch: Epoch, e: ClientError) -> StepView {
    let report = Some(Report { error: CrawlError::of_client(e), epoch: Some(epoch), alert: false });
    if e == ClientError::NotFound && !follows(s.plan) {
        poll_step(s.sleep_for, plan_past(s.plan, epoch), report)
    } else {
        sleep_step(s.sleep_for, s.plan, report)
    }
}

/// What follows extraction: a commit of the records, with the cursor step
/// where the plan follows the chain; or, for malformed data, no commit at
/// all, a loud report, and the next iteration.
pub open spec fn on_extracted(
    s: CrawlStateView,
    epoch: Epoch,
    extracted: Result<Seq<MaspRewardDataView>, CrawlError>,
) -> StepView {
    match extracted {
        Ok(records) => StepView {
            state: CrawlStateView {
                phase: PhaseView::Committing { epoch },
                plan: s.plan,
                sleep_for: s.sleep_for,
            },
            action: ActionView::Commit {
                records,
                cursor_advance: if follows(s.plan) {
                    Some(epoch)
                } else {
                    None
                },
            },
            report: None,
        },
        Err(e) => {
            let report = Some(Report { error: e, epoch: Some(epoch), alert: true });
            if follows(s.plan) {
                sleep_step(s.sleep_for, s.plan, report)
            } else {
                poll_step(s.sleep_for, plan_past(s.plan, epoch), report)
            }
        },
    }
}

/// What follows the store's answer to a commit: on success the next cycle at
/// once, on failure the same epoch again after the pause.
pub open spec fn on_committed(s: CrawlStateView, epoch: Epoch, res: Result<(), WriteError>) -> StepView {
    match res {
        Ok(()) => poll_step(s.sleep_for, plan_past(s.plan, epoch), None),
        Err(e) => sleep_step(
            s.sleep_for,
            s.plan,
            Some(
                Report {
                    error: CrawlError::of_write(e),
                    epoch: Some(epoch),
                    alert: e == WriteError::OutOfOrder,
                },
            ),
        ),
    }
}

/// The decision of the loop for a state, the event that came in, and the
/// cancellation signal as it stands between two states.
///
/// A cancelled loop stops, whatever the event. An event that does not
/// answer the action last asked for starts the cycle over.
pub open spec fn spec_step(s: CrawlStateView, event: EventView, cancelled: bool) -> StepView {
    if cancelled {
        stop_step(s.sleep_for, s.plan, None)
    } else {
        match s.phase {
            PhaseView::Stopped => stop_step(s.sleep_for, s.plan, None),
            PhaseView::Sleeping => poll_step(s.sleep_for, s.plan, None),
            PhaseView::Idle => match event {
                EventView::Polled { cursor, latest } => on_polled(s, cursor, latest),
                _ => poll_step(s.sleep_for, s.plan, None),
            },
            PhaseView::Fetching { epoch } => match event {
                EventView::Fetched(Ok(raw)) => StepView {
                    state: CrawlStateView {
                        phase: PhaseView::Extracting { epoch, raw },
                        plan: s.plan,
                        sleep_for: s.sleep_for,
                    },
                    action: ActionView::Proceed,
                    report: None,
                },
                EventView::Fetched(Err(e)) => on_fetch_failed(s, epoch, e),
                _ => poll_step(s.sleep_for, s.plan, None),
            },
            PhaseView::Extracting { epoch, raw } => match event {
                EventView::Proceeded => on_extracted(s, epoch, extraction(raw)),
                _ => poll_step(s.sleep_for, s.plan, None),
            },
            PhaseView::Committing { epoch } => match event {
                EventView::Committed(res) => on_committed(s, epoch, res),
                _ => poll_step(s.sleep_for, s.plan, None),
            },
        }
    }
}

fn next_epoch(epoch: Epoch) -> (next: Option<Epoch>)
    ensures
        next == successor(epoch),
{
    if epoch < u32::MAX {
        Some(epoch + 1)
    } else {
        None
    }
}

fn past(plan: Plan, epoch: Epoch) -> (moved: Plan)
    ensures
        moved == plan_past(plan, epoch),
{
    match plan {
        Plan::Follow { started } => plan,
        Plan::Replay { next, end } => Plan::Replay { next: next_epoch(epoch), end },
    }
}

fn is_following(plan: Plan) -> (yes: bool)
    ensures
        yes == follows(plan),
{
    match plan {
        Plan::Follow { started } => true,
        Plan::Replay { next, end } => false,
    }
}

fn go_sleep(sleep_for: u64, plan: Plan, report: Option<Report>) -> (next: Step)
    ensures
        next.deep_view() == sleep_step(sleep_for, plan, report),
{
    Step {
        state: CrawlState { phase: Phase::Sleeping, plan, sleep_for },
        action: Action::Sleep { seconds: sleep_for },
        report,
    }
}

fn go_poll(sleep_for: u64, plan: Plan, report: Option<Report>) -> (next: Step)
    ensures
        next.deep_view() == poll_step(sleep_for, plan, report),
{
    Step {
        state: CrawlState { phase: Phase::Idle, plan, sleep_for },
        action: Action::Poll { read_cursor: is_following(plan) },
        report,
    }
}

fn go_stop(sleep_for: u64, plan: Plan, report: Option<Report>) -> (next: Step)
    ensures
        next.deep_view() == stop_step(sleep_for, plan, report),
{
    Step {
        state: CrawlState { phase: Phase::Stopped, plan, sleep_for },
        action: Action::Stop,
        report,
    }
}

fn go_fetch(sleep_for: u64, plan: Plan, epoch: Epoch) -> (next: Step)
    ensures
        next.deep_view() == fetch_step(sleep_for, plan, epoch),
{
    Step {
        state: CrawlState { phase: Phase::Fetching { epoch }, plan, sleep_for },
        action: Action::Fetch { epoch },
        report: None,
    }
}

fn decide_polled(
    plan: Plan,
    sleep_for: u64,
    cursor: Result<Option<Epoch>, WriteError>,
    latest: Result<Epoch, ClientError>,
) -> (next: Step)
    ensures
        forall|s: CrawlStateView|
            s.sleep_for == sleep_for && s.plan == plan ==> next.deep_view() == on_polled(
                s,
                cursor,
                latest,
            ),
{
    match plan {
        Plan::Follow { started } => match cursor {
            Err(e) => {
                let report = Some(
                    Report { error: CrawlError::from_write(e), epoch: None, alert: !started },
                );
                if started {
                    go_sleep(sleep_for, plan, report)
                } else {
                    go_stop(sleep_for, plan, report)
                }
            },
            Ok(stored) => {
                let going = Plan::Follow { started: true };
                match latest {
                    Err(e) => go_sleep(
                        sleep_for,
                        going,
                        Some(Report { error: CrawlError::from_client(e), epoch: None, alert: false }),
                    ),
                    Ok(head) => {
                        let after = match stored {
                            None => Some(0u32),
                            Some(last) => next_epoch(last),
                        };
                        match after {
                            Some(epoch) => if epoch <= head {
                                go_fetch(sleep_for, going, epoch)
                            } else {
                                go_sleep(sleep_for, going, None)
                            },
                            None => go_sleep(sleep_for, going, None),
                        }
                    },
                }
            },
        },
        Plan::Replay { next, end } => match latest {
            Err(e) => go_sleep(
                sleep_for,
                plan,
                Some(Report { error: CrawlError::from_client(e), epoch: None, alert: false }),
            ),
            Ok(head) => {
                let last = match end {
                    Some(fixed) => fixed,
                    None => head,
                };
                let going = Plan::Replay { next, end: Some(last) };
                match next {
                    Some(epoch) => if epoch <= last {
                        go_fetch(sleep_for, going, epoch)
                    } else {
                        go_stop(sleep_for, going, None)
                    },
                    None => go_stop(sleep_for, going, None),
                }
            },
        },
    }
}

fn decide_extracted(
    plan: Plan,
    sleep_for: u64,
    epoch: Epoch,
    extracted: Result<Vec<MaspRewardData>, CrawlError>,
) -> (next: Step)
    ensures
        forall|s: CrawlStateView|
            s.sleep_for == sleep_for && s.plan == plan ==> next.deep_view() == on_extracted(
                s,
                epoch,
                match extracted {
                    Ok(records) => Ok(records.deep_view()),
                    Err(e) => Err(e),
                },
            ),
{
    match extracted {
        Ok(records) => Step {
            state: CrawlState { phase: Phase::Committing { epoch }, plan, sleep_for },
            action: Action::Commit {
                records,
                cursor_advance: if is_following(plan) {
                    Some(epoch)
                } else {
                    None
                },
            },
            report: None,
        },
        Err(e) => {
            let report = Some(Report { error: e, epoch: Some(epoch), alert: true });
            if is_following(plan) {
                go_sleep(sleep_for, plan, report)
            } else {
                go_poll(sleep_for, past(plan, epoch), report)
            }
        },
    }
}

impl CrawlState {
    /// The state a run begins in, and its first action: a poll.
    pub fn start(config: &AppConfig) -> (first: Step)
        ensures
            first.state.deep_view() == initial_state(config.spec_mode(), config.sleep_for),
            first.deep_view() == poll_step(config.sleep_for, first.state.deep_view().plan, None),
    {
        let plan = match config.mode() {
            Mode::Normal => Plan::Follow { started: false },
            Mode::Backfill { from } => Plan::Replay { next: Some(from), end: None },
        };
        go_poll(config.sleep_for, plan, None)
    }
}

/// Decides what the loop does next.
///
/// `cancelled` is the cancellation signal as the loop finds it after the
/// last action was done and before the next one is begun; a commit, once
/// asked for, is therefore never cut short.
pub fn step(state: CrawlState, event: Event, cancelled: bool) -> (next: Step)
    ensures
        next.deep_view() == spec_step(state.deep_view(), event.deep_view(), cancelled),
{
    let plan = state.plan;
    let sleep_for = state.sleep_for;
    if cancelled {
        return go_stop(sleep_for, plan, None);
    }
    match state.phase {
        Phase::Stopped => go_stop(sleep_for, plan, None),
        Phase::Sleeping => go_poll(sleep_for, plan, None),
        Phase::Idle => match event {
            Event::Polled { cursor, latest } => decide_polled(plan, sleep_for, cursor, latest),
            _ => go_poll(sleep_for, plan, None),
        },
        Phase::Fetching { epoch } => match event {
            Event::Fetched(Ok(raw)) => Step {
                state: CrawlState { phase: Phase::Extracting { epoch, raw }, plan, sleep_for },
                action: Action::Proceed,
                report: None,
            },
            Event::Fetched(Err(e)) => {
                let report = Some(
                    Report { error: CrawlError::from_client(e), epoch: Some(epoch), alert: false },
                );
                match e {
                    ClientError::NotFound => if is_following(plan) {
                        go_sleep(sleep_for, plan, report)
                    } else {
                        go_poll(sleep_for, past(plan, epoch), report)
                    },
                    ClientError::Unavailable => go_sleep(sleep_for, plan, report),
                }
            },
            _ => go_poll(sleep_for, plan, None),
        },
        Phase::Extracting { epoch, raw } => match event {
            Event::Proceeded => {
                let extracted = extract(raw);
                decide_extracted(plan, sleep_for, epoch, extracted)
            },
            _ => go_poll(sleep_for, plan, None),
        },
        Phase::Committing { epoch } => match event {
            Event::Committed(Ok(())) => go_poll(sleep_for, past(plan, epoch), None),
            Event::Committed(Err(e)) => {
                let alert = match e {
                    WriteError::OutOfOrder => true,
                    WriteError::Database => false,
                };
                go_sleep(
                    sleep_for,
                    plan,
                    Some(Report { error: CrawlError::from_write(e), epoch: Some(epoch), alert }),
                )
            },
            _ => go_poll(sleep_for, plan, None),
        },
    }
}

/// A cancelled loop stops at once, whatever state it is in and whatever
/// event came in, and a stopped loop stays stopped.
pub proof fn law_cancel_stops(s: CrawlStateView, event: EventView, cancelled: bool)
    requires
        cancelled || s.phase is Stopped,
    ensures
        spec_step(s, event, cancelled).action is Stop,
        spec_step(s, event, cancelled).state.phase is Stopped,
        spec_step(s, event, cancelled).state.plan == s.plan,
{
}

/// Backfill isolation: a replay never asks for the cursor to be read, never
/// commits with a cursor step, and stays a replay.
pub proof fn law_replay_leaves_cursor_alone(s: CrawlStateView, event: EventView, cancelled: bool)
    requires
        s.plan is Replay,
    ensures
        spec_step(s, event, cancelled).state.plan is Replay,
        spec_step(s, event, cancelled).action != (ActionView::Poll { read_cursor: true }),
        spec_step(s, event, cancelled).action matches ActionView::Commit { cursor_advance, .. }
            ==> cursor_advance is None,
{
}

/// A run that follows the chain commits only what it extracted, and names
/// in the commit the very epoch whose data it extracted.
pub proof fn law_commit_names_extracted_epoch(s: CrawlStateView, event: EventView, cancelled: bool)
    requires
        spec_step(s, event, cancelled).action is Commit,
    ensures
        !cancelled,
        event is Proceeded,
        s.phase matches PhaseView::Extracting { epoch, raw } && extraction(raw) == Ok::<
            Seq<MaspRewardDataView>,
            CrawlError,
        >(spec_step(s, event, cancelled).action->records) && spec_step(
            s,
            event,
            cancelled,
        ).action->cursor_advance == (if follows(s.plan) {
            Some(epoch)
        } else {
            None
        }) && spec_step(s, event, cancelled).state.phase == (PhaseView::Committing { epoch }),
{
}

/// Epoch selection when following the chain: the epoch after the cursor is
/// fetched where the chain has reached it, and else the loop sleeps.
pub proof fn law_follow_selects_next_epoch(
    s: CrawlStateView,
    stored: Option<Epoch>,
    head: Epoch,
)
    requires
        s.phase is Idle,
        s.plan is Follow,
    ensures
        ({
            let next = spec_step(
                s,
                EventView::Polled { cursor: Ok(stored), latest: Ok(head) },
                false,
            );
            match epoch_after(stored) {
                Some(epoch) => if epoch <= head {
                    next.action == (ActionView::Fetch { epoch }) && next.state.phase == (
                    PhaseView::Fetching { epoch })
                } else {
                    next.action == (ActionView::Sleep { seconds: s.sleep_for })
                        && next.state.phase is Sleeping
                },
                None => next.action == (ActionView::Sleep { seconds: s.sleep_for }),
            }
        }),
{
}

/// Catch-up: after a commit went through, the loop goes on to the next
/// cycle without a pause.
pub proof fn law_no_pause_after_commit(s: CrawlStateView)
    requires
        s.phase is Committing,
    ensures
        spec_step(s, EventView::Committed(Ok(())), false).action == (ActionView::Poll {
            read_cursor: follows(s.plan),
        }),
        spec_step(s, EventView::Committed(Ok(())), false).state.phase is Idle,
        spec_step(s, EventView::Committed(Ok(())), false).report is None,
{
}

/// Retry: an unreachable node or a failing store moves nothing. The loop
/// reports the error and sleeps for the configured pause with its plan
/// unchanged, so that the same epoch is the next one to be tried.
pub proof fn law_transient_failure_retries(s: CrawlStateView, event: EventView)
    requires
        ({
            ||| s.phase is Fetching && event == EventView::Fetched(Err(ClientError::Unavailable))
            ||| s.phase is Committing && event == EventView::Committed(Err(WriteError::Database))
            ||| s.phase is Idle && event matches EventView::Polled {
                cursor: Ok(_),
                latest: Err(ClientError::Unavailable),
            }
        }),
    ensures
        spec_step(s, event, false).action == (ActionView::Sleep { seconds: s.sleep_for }),
        spec_step(s, event, false).state.phase is Sleeping,
        (spec_step(s, event, false).report matches Some(r) && r.error.transient() && !r.alert),
        match s.plan {
            Plan::Replay { next, end } => spec_step(s, event, false).state.plan == s.plan,
            Plan::Follow { started } => spec_step(s, event, false).state.plan is Follow,
        },
{
}

/// Malformed rejection: where the data held for an epoch is not numeric,
/// no commit is asked for; the error is reported loudly with the epoch.
pub proof fn law_malformed_never_commits(s: CrawlStateView, epoch: Epoch, raw: Seq<RawRewardEntryView>)
    requires
        s.phase == (PhaseView::Extracting { epoch, raw }),
        !snapshot_is_numeric(raw),
    ensures
        !(spec_step(s, EventView::Proceeded, false).action is Commit),
        spec_step(s, EventView::Proceeded, false).report == Some(
            Report { error: CrawlError::MalformedData, epoch: Some(epoch), alert: true },
        ),
        follows(s.plan) ==> spec_step(s, EventView::Proceeded, false).state.plan == s.plan,
{
}

/// A replay gives up an epoch that the node no longer retains: it reports
/// the error, does not stop, and has the epoch after it as its next one.
pub proof fn law_replay_skips_missing_epoch(s: CrawlStateView, epoch: Epoch)
    requires
        s.phase == (PhaseView::Fetching { epoch }),
        s.plan is Replay,
    ensures
        ({
            let next = spec_step(s, EventView::Fetched(Err(ClientError::NotFound)), false);
            &&& next.action == ActionView::Poll { read_cursor: false }
            &&& next.report == Some(
                Report { error: CrawlError::NotFound, epoch: Some(epoch), alert: false },
            )
            &&& next.state.plan == Plan::Replay { next: successor(epoch), end: s.plan->end }
        }),
{
}

/// Startup: where the cursor cannot be read before it was ever read, the
/// run ends with a loud report; later the same failure is only a retry.
pub proof fn law_unreadable_cursor(s: CrawlStateView, e: WriteError, latest: Result<Epoch, ClientError>)
    requires
        s.phase is Idle,
        s.plan is Follow,
    ensures
        ({
            let next = spec_step(s, EventView::Polled { cursor: Err(e), latest }, false);
            if s.plan->started {
                next.action == (ActionView::Sleep { seconds: s.sleep_for })
            } else {
                next.action is Stop && (next.report matches Some(r) && r.alert)
            }
        }),
{
}

} // verus!
