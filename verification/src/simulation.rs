//! The loop run against a store and a node that both answer: what whole
//! runs come to, proved from the single decisions.

use vstd::prelude::*;
use crate::crawler::{
    law_replay_leaves_cursor_alone, poll_step, spec_step, successor, ActionView, CrawlStateView,
    EventView, Plan, StepView,
};
use crate::extract::{records_of, snapshot_is_numeric, RawRewardEntryView};
use crate::masp::Epoch;
use crate::repository::{upsert_all, MaspRateRowView};
use crate::storage::{commit_state, commit_verdict, StorageView};

verus! {

/// A node that can be reached and retains every epoch: the head of its
/// chain, and what it answers for each epoch.
pub struct Node {
    pub head: Epoch,
    pub data: spec_fn(Epoch) -> Seq<RawRewardEntryView>,
}

/// The node answers every epoch from `first` to `last` with numeric data.
pub open spec fn numeric_between(node: Node, first: int, last: int) -> bool {
    forall|epoch: Epoch| first <= epoch <= last ==> snapshot_is_numeric(#[trigger] (node.data)(epoch))
}

/// What the world answers to an action, and what the store holds after it.
/// The store has no fault armed; the cursor is read only where asked for.
pub open spec fn respond(node: Node, store: StorageView, action: ActionView) -> (
    EventView,
    StorageView,
) {
    match action {
        ActionView::Poll { read_cursor } => (
            EventView::Polled {
                cursor: Ok(
                    if read_cursor {
                        store.cursor
                    } else {
                        None
                    },
                ),
                latest: Ok(node.head),
            },
            store,
        ),
        ActionView::Fetch { epoch } => (EventView::Fetched(Ok((node.data)(epoch))), store),
        ActionView::Proceed => (EventView::Proceeded, store),
        ActionView::Commit { records, cursor_advance } => (
            EventView::Committed(commit_verdict(store, cursor_advance)),
            commit_state(store, records, cursor_advance),
        ),
        ActionView::Sleep { seconds } => (EventView::Woke, store),
        ActionView::Stop => (EventView::Woke, store),
    }
}

/// The loop after `turns` actions were done and answered, never cancelled.
pub open spec fn run(node: Node, at: StepView, store: StorageView, turns: nat) -> (
    StepView,
    StorageView,
)
    decreases turns,
{
    if turns == 0 {
        (at, store)
    } else {
        let (event, stored) = respond(node, store, at.action);
        run(node, spec_step(at.state, event, false), stored, (turns - 1) as nat)
    }
}

/// The table after the data of the epochs from `first` to `last` was
/// upserted, epoch after epoch.
pub open spec fn ingested(
    rates: Seq<MaspRateRowView>,
    node: Node,
    first: int,
    last: int,
) -> Seq<MaspRateRowView>
    decreases last - first + 1,
{
    if first > last || first < 0 || first > u32::MAX {
        rates
    } else {
        ingested(
            upsert_all(rates, records_of((node.data)(first as u32))),
            node,
            first + 1,
            last,
        )
    }
}

/// A run of `a + b` turns is a run of `a` turns followed by one of `b`.
pub proof fn lemma_run_splits(node: Node, at: StepView, store: StorageView, a: nat, b: nat)
    ensures
        run(node, at, store, a + b) == run(
            node,
            run(node, at, store, a).0,
            run(node, at, store, a).1,
            b,
        ),
    decreases a,
{
    if a > 0 {
        let (event, stored) = respond(node, store, at.action);
        lemma_run_splits(node, spec_step(at.state, event, false), stored, (a - 1) as nat, b);
        assert((a - 1) as nat + b == (a + b - 1) as nat);
    }
}

/// The first epoch that a run following the chain has to process.
pub open spec fn first_due(cursor: Option<Epoch>) -> int {
    match cursor {
        Some(last) => last + 1,
        None => 0,
    }
}

/// One cycle of a run that follows the chain and is behind: poll, fetch,
/// extract and commit, and then the next poll, with no pause in between.
proof fn lemma_follow_cycle(node: Node, s: CrawlStateView, store: StorageView)
    requires
        s.plan is Follow,
        first_due(store.cursor) <= node.head,
        snapshot_is_numeric((node.data)(first_due(store.cursor) as u32)),
    ensures
        ({
            let due = first_due(store.cursor) as u32;
            let begin = poll_step(s.sleep_for, s.plan, None);
            &&& run(node, begin, store, 4) == (
                poll_step(s.sleep_for, Plan::Follow { started: true }, None),
                StorageView {
                    rates: upsert_all(store.rates, records_of((node.data)(due))),
                    cursor: Some(due),
                },
            )
            &&& forall|k: nat| k <= 4 ==> !(#[trigger] run(node, begin, store, k).0.action is Sleep)
        }),
{
    reveal_with_fuel(run, 5);
    let begin = poll_step(s.sleep_for, s.plan, None);
    assert forall|k: nat| k <= 4 implies !(#[trigger] run(node, begin, store, k).0.action is Sleep) by {
        if k == 0 {
        } else if k == 1 {
        } else if k == 2 {
        } else if k == 3 {
        } else {
            assert(k == 4);
        }
    }
}

/// Catch-up: a run that follows the chain and finds itself behind the head
/// processes every epoch between its cursor and the head, in order and one
/// commit each, without sleeping between them; it ends with the cursor at
/// the head, and only then does it sleep.
pub proof fn law_catch_up(node: Node, s: CrawlStateView, store: StorageView)
    requires
        s.plan is Follow,
        first_due(store.cursor) <= node.head + 1,
        numeric_between(node, first_due(store.cursor), node.head as int),
    ensures
        ({
            let first = first_due(store.cursor);
            let turns = (4 * (node.head + 1 - first)) as nat;
            let begin = poll_step(s.sleep_for, s.plan, None);
            &&& run(node, begin, store, turns).1.rates == ingested(
                store.rates,
                node,
                first,
                node.head as int,
            )
            &&& run(node, begin, store, turns).1.cursor == (if turns == 0 {
                store.cursor
            } else {
                Some(node.head)
            })
            &&& forall|k: nat| k <= turns ==> !(#[trigger] run(node, begin, store, k).0.action is Sleep)
            &&& run(node, begin, store, turns + 1).0.action == ActionView::Sleep {
                seconds: s.sleep_for,
            }
        }),
    decreases node.head + 1 - first_due(store.cursor),
{
    let first = first_due(store.cursor);
    let turns = (4 * (node.head + 1 - first)) as nat;
    let begin = poll_step(s.sleep_for, s.plan, None);
    if first > node.head {
        reveal_with_fuel(run, 2);
    } else {
        let due = first as u32;
        assert(snapshot_is_numeric((node.data)(due)));
        lemma_follow_cycle(node, s, store);
        let after = run(node, begin, store, 4);
        let s1 = after.0.state;
        let store1 = after.1;
        assert(poll_step(s1.sleep_for, s1.plan, None) == after.0);
        assert(first_due(store1.cursor) == first + 1);
        law_catch_up(node, s1, store1);
        let rest = (turns - 4) as nat;
        lemma_run_splits(node, begin, store, 4, rest);
        lemma_run_splits(node, begin, store, 4, rest + 1);
        assert(4 + rest == turns);
        assert forall|k: nat| k <= turns implies !(#[trigger] run(
            node,
            begin,
            store,
            k,
        ).0.action is Sleep) by {
            if k > 4 {
                lemma_run_splits(node, begin, store, 4, (k - 4) as nat);
                assert(4 + (k - 4) as nat == k);
                assert(!(run(node, after.0, store1, (k - 4) as nat).0.action is Sleep));
            }
        }
    }
}

/// The first epoch that a replay still has to process, or the epoch after
/// the head where nothing is left of its range.
pub open spec fn replay_due(next: Option<Epoch>, head: Epoch) -> int {
    match next {
        Some(epoch) => if epoch <= head {
            epoch as int
        } else {
            head + 1
        },
        None => head + 1,
    }
}

/// The range of a replay ends at the head of the chain: it is not fixed
/// yet, or it was fixed to the head.
pub open spec fn ends_at_head(plan: Plan, head: Epoch) -> bool {
    plan matches Plan::Replay { next, end } && (end is None || end == Some(head))
}

/// One cycle of a replay that has an epoch left: poll, fetch, extract and
/// commit without a cursor step, and then the next poll.
proof fn lemma_replay_cycle(node: Node, s: CrawlStateView, store: StorageView)
    requires
        ends_at_head(s.plan, node.head),
        replay_due(s.plan->next, node.head) <= node.head,
        snapshot_is_numeric((node.data)(replay_due(s.plan->next, node.head) as u32)),
    ensures
        ({
            let due = replay_due(s.plan->next, node.head) as u32;
            let begin = poll_step(s.sleep_for, s.plan, None);
            &&& run(node, begin, store, 4) == (
                poll_step(s.sleep_for,
                    Plan::Replay { next: successor(due), end: Some(node.head) },
                    None,
                ),
                StorageView {
                    rates: upsert_all(store.rates, records_of((node.data)(due))),
                    cursor: store.cursor,
                },
            )
            &&& forall|k: nat|
                k <= 4 ==> !(#[trigger] run(node, begin, store, k).0.action is Sleep) && !(run(
                    node,
                    begin,
                    store,
                    k,
                ).0.action is Stop)
        }),
{
    reveal_with_fuel(run, 5);
    let begin = poll_step(s.sleep_for, s.plan, None);
    assert forall|k: nat| k <= 4 implies !(#[trigger] run(node, begin, store, k).0.action is Sleep)
        && !(run(node, begin, store, k).0.action is Stop) by {
        if k == 0 {
        } else if k == 1 {
        } else if k == 2 {
        } else if k == 3 {
        } else {
            assert(k == 4);
        }
    }
}

/// Backfill isolation: a replay whose range ends at the head of the chain
/// processes every epoch of the range, in order and without a pause, and
/// then stops; the store then holds the data of all of them, and its cursor
/// is what it was before.
pub proof fn law_backfill_isolated(node: Node, s: CrawlStateView, store: StorageView)
    requires
        ends_at_head(s.plan, node.head),
        numeric_between(node, replay_due(s.plan->next, node.head), node.head as int),
    ensures
        ({
            let first = replay_due(s.plan->next, node.head);
            let turns = (4 * (node.head + 1 - first)) as nat;
            let begin = poll_step(s.sleep_for, s.plan, None);
            &&& run(node, begin, store, turns).1.rates == ingested(
                store.rates,
                node,
                first,
                node.head as int,
            )
            &&& forall|k: nat| #[trigger] run(node, begin, store, k).1.cursor == store.cursor
            &&& forall|k: nat|
                k <= turns ==> !(#[trigger] run(node, begin, store, k).0.action is Sleep) && !(run(
                    node,
                    begin,
                    store,
                    k,
                ).0.action is Stop)
            &&& run(node, begin, store, turns + 1).0.action is Stop
        }),
    decreases node.head + 1 - replay_due(s.plan->next, node.head),
{
    let first = replay_due(s.plan->next, node.head);
    let turns = (4 * (node.head + 1 - first)) as nat;
    let begin = poll_step(s.sleep_for, s.plan, None);
    assert forall|k: nat| #[trigger] run(node, begin, store, k).1.cursor == store.cursor by {
        lemma_replay_keeps_cursor(node, begin, store, k);
    }
    if first > node.head {
        reveal_with_fuel(run, 2);
    } else {
        let due = first as u32;
        assert(snapshot_is_numeric((node.data)(due)));
        lemma_replay_cycle(node, s, store);
        let after = run(node, begin, store, 4);
        let s1 = after.0.state;
        let store1 = after.1;
        assert(poll_step(s1.sleep_for, s1.plan, None) == after.0);
        assert(replay_due(s1.plan->next, node.head) == first + 1);
        law_backfill_isolated(node, s1, store1);
        let rest = (turns - 4) as nat;
        lemma_run_splits(node, begin, store, 4, rest);
        lemma_run_splits(node, begin, store, 4, rest + 1);
        assert(4 + rest == turns);
        assert forall|k: nat| k <= turns implies !(#[trigger] run(
            node,
            begin,
            store,
            k,
        ).0.action is Sleep) && !(run(node, begin, store, k).0.action is Stop) by {
            if k > 4 {
                lemma_run_splits(node, begin, store, 4, (k - 4) as nat);
                assert(4 + (k - 4) as nat == k);
                assert(!(run(node, after.0, store1, (k - 4) as nat).0.action is Sleep));
            }
        }
    }
}

/// A replay never moves the cursor, however long it runs.
pub proof fn lemma_replay_keeps_cursor(node: Node, at: StepView, store: StorageView, turns: nat)
    requires
        at.state.plan is Replay,
        at.action matches ActionView::Commit { cursor_advance, .. } ==> cursor_advance is None,
    ensures
        run(node, at, store, turns).1.cursor == store.cursor,
        run(node, at, store, turns).0.state.plan is Replay,
    decreases turns,
{
    if turns > 0 {
        let (event, stored) = respond(node, store, at.action);
        law_replay_leaves_cursor_alone(at.state, event, false);
        lemma_replay_keeps_cursor(node, spec_step(at.state, event, false), stored, (turns - 1) as nat);
    }
}

} // verus!
