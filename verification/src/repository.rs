//! The reward-coefficients table: one row per token, filled by upsert.

use vstd::prelude::*;
use crate::masp::{Amount, Id, IdView, MaspRewardData, MaspRewardDataView};

verus! {

/// One stored row of the reward-coefficients table, keyed by `token`.
#[derive(Debug)]
pub struct MaspRateRow {
    pub token: String,
    pub max_reward_rate: String,
    pub kp_gain: String,
    pub kd_gain: String,
    pub locked_amount_target: Amount,
}

/// The mathematical value of a [`MaspRateRow`].
pub struct MaspRateRowView {
    pub token: Seq<char>,
    pub max_reward_rate: Seq<char>,
    pub kp_gain: Seq<char>,
    pub kd_gain: Seq<char>,
    pub locked_amount_target: Seq<char>,
}

impl DeepView for MaspRateRow {
    type V = MaspRateRowView;

    open spec fn deep_view(&self) -> MaspRateRowView {
        MaspRateRowView {
            token: self.token@,
            max_reward_rate: self.max_reward_rate@,
            kp_gain: self.kp_gain@,
            kd_gain: self.kd_gain@,
            locked_amount_target: self.locked_amount_target@,
        }
    }
}

impl Clone for MaspRateRow {
    fn clone(&self) -> (copy: Self)
        ensures
            copy == *self,
    {
        MaspRateRow {
            token: self.token.clone(),
            max_reward_rate: self.max_reward_rate.clone(),
            kp_gain: self.kp_gain.clone(),
            kd_gain: self.kd_gain.clone(),
            locked_amount_target: self.locked_amount_target.clone(),
        }
    }
}

/// The row under which a record is stored: keyed by the text of its address.
pub open spec fn row_of(record: MaspRewardDataView) -> MaspRateRowView {
    MaspRateRowView {
        token: record.address.text(),
        max_reward_rate: record.max_reward_rate,
        kp_gain: record.kp_gain,
        kd_gain: record.kd_gain,
        locked_amount_target: record.locked_amount_target,
    }
}

/// The record that a stored row is read back as: the token is an account.
pub open spec fn record_of(row: MaspRateRowView) -> MaspRewardDataView {
    MaspRewardDataView {
        address: IdView::Account(row.token),
        max_reward_rate: row.max_reward_rate,
        kp_gain: row.kp_gain,
        kd_gain: row.kd_gain,
        locked_amount_target: row.locked_amount_target,
    }
}

impl MaspRateRow {
    /// Turns a record into the row that stores it.
    pub fn from_reward_data(data: MaspRewardData) -> (row: Self)
        ensures
            row.deep_view() == row_of(data.deep_view()),
    {
        let token = data.address.to_string();
        MaspRateRow {
            token,
            max_reward_rate: data.max_reward_rate,
            kp_gain: data.kp_gain,
            kd_gain: data.kd_gain,
            locked_amount_target: data.locked_amount_target,
        }
    }

    /// Reads a stored row back as a record.
    pub fn into_reward_data(self) -> (data: MaspRewardData)
        ensures
            data.deep_view() == record_of(self.deep_view()),
    {
        MaspRewardData {
            address: Id::Account(self.token),
            max_reward_rate: self.max_reward_rate,
            kp_gain: self.kp_gain,
            kd_gain: self.kd_gain,
            locked_amount_target: self.locked_amount_target,
        }
    }
}

/// Some row of the table is keyed by `token`.
pub open spec fn has_token(rows: Seq<MaspRateRowView>, token: Seq<char>) -> bool {
    exists|i: int| 0 <= i < rows.len() && (#[trigger] rows[i]).token == token
}

/// No two rows of the table share a token.
pub open spec fn unique_tokens(rows: Seq<MaspRateRowView>) -> bool {
    forall|i: int, j: int|
        0 <= i < j < rows.len() ==> (#[trigger] rows[i]).token != (#[trigger] rows[j]).token
}

/// Insert-or-replace: a row whose token is already stored takes the place of
/// the stored one, where it stands; a row with a new token goes to the end.
pub open spec fn upsert(rows: Seq<MaspRateRowView>, row: MaspRateRowView) -> Seq<MaspRateRowView> {
    if has_token(rows, row.token) {
        Seq::new(
            rows.len(),
            |i: int|
                if rows[i].token == row.token {
                    row
                } else {
                    rows[i]
                },
        )
    } else {
        rows.push(row)
    }
}

/// The table after the records of `batch` were upserted one after the other.
pub open spec fn upsert_all(
    rows: Seq<MaspRateRowView>,
    batch: Seq<MaspRewardDataView>,
) -> Seq<MaspRateRowView>
    decreases batch.len(),
{
    if batch.len() == 0 {
        rows
    } else {
        upsert(upsert_all(rows, batch.drop_last()), row_of(batch.last()))
    }
}

/// The row of the last record of `batch` that is keyed by `token`, if any.
pub open spec fn latest_for(batch: Seq<MaspRewardDataView>, token: Seq<char>) -> Option<
    MaspRateRowView,
>
    decreases batch.len(),
{
    if batch.len() == 0 {
        None
    } else if row_of(batch.last()).token == token {
        Some(row_of(batch.last()))
    } else {
        latest_for(batch.drop_last(), token)
    }
}

/// One upsert keeps the tokens of the table distinct, keeps every stored row
/// in its place under its token, stores the new row under its token, and
/// changes no row of another token.
pub proof fn law_upsert_replaces(rows: Seq<MaspRateRowView>, row: MaspRateRowView)
    requires
        unique_tokens(rows),
    ensures
        unique_tokens(upsert(rows, row)),
        has_token(upsert(rows, row), row.token),
        rows.len() <= upsert(rows, row).len() <= rows.len() + 1,
        upsert(rows, row).len() == rows.len() <==> has_token(rows, row.token),
        forall|i: int|
            0 <= i < rows.len() ==> (#[trigger] upsert(rows, row)[i]).token == rows[i].token,
        forall|i: int|
            0 <= i < upsert(rows, row).len() ==> #[trigger] upsert(rows, row)[i] == (if upsert(
                rows,
                row,
            )[i].token == row.token {
                row
            } else {
                rows[i]
            }),
{
    let next = upsert(rows, row);
    if has_token(rows, row.token) {
        let at = choose|i: int| 0 <= i < rows.len() && (#[trigger] rows[i]).token == row.token;
        assert(next[at].token == row.token);
    } else {
        assert(next[rows.len() as int].token == row.token);
        assert forall|i: int| 0 <= i < rows.len() implies (#[trigger] next[i]).token
            != row.token by {
            assert(rows[i].token != row.token);
        }
    }
}

/// What a batch of upserts does to a table, row by row: stored rows keep their
/// place and token, a row whose token occurs in the batch holds the last record
/// of that token, and every other row is as it was.
pub proof fn lemma_upsert_all_shape(rows: Seq<MaspRateRowView>, batch: Seq<MaspRewardDataView>)
    requires
        unique_tokens(rows),
    ensures
        unique_tokens(upsert_all(rows, batch)),
        rows.len() <= upsert_all(rows, batch).len(),
        forall|i: int|
            0 <= i < rows.len() ==> (#[trigger] upsert_all(rows, batch)[i]).token
                == rows[i].token,
        forall|i: int|
            0 <= i < upsert_all(rows, batch).len() ==> match latest_for(
                batch,
                (#[trigger] upsert_all(rows, batch)[i]).token,
            ) {
                Some(row) => upsert_all(rows, batch)[i] == row,
                None => i < rows.len() && upsert_all(rows, batch)[i] == rows[i],
            },
        forall|k: int|
            0 <= k < batch.len() ==> has_token(
                upsert_all(rows, batch),
                row_of(#[trigger] batch[k]).token,
            ),
        (forall|k: int| 0 <= k < batch.len() ==> has_token(rows, row_of(#[trigger] batch[k]).token))
            ==> upsert_all(rows, batch).len() == rows.len(),
    decreases batch.len(),
{
    if batch.len() > 0 {
        let head = batch.drop_last();
        let row = row_of(batch.last());
        let before = upsert_all(rows, head);
        let after = upsert_all(rows, batch);
        lemma_upsert_all_shape(rows, head);
        law_upsert_replaces(before, row);
        assert(after == upsert(before, row));
        assert forall|i: int| 0 <= i < after.len() implies match latest_for(
            batch,
            (#[trigger] after[i]).token,
        ) {
            Some(r) => after[i] == r,
            None => i < rows.len() && after[i] == rows[i],
        } by {
            if after[i].token != row.token {
                assert(i < before.len());
                assert(before[i].token == after[i].token);
            }
        }
        assert forall|k: int| 0 <= k < batch.len() implies has_token(
            after,
            row_of(#[trigger] batch[k]).token,
        ) by {
            if k < head.len() {
                assert(head[k] == batch[k]);
                let token = row_of(batch[k]).token;
                let at = choose|i: int|
                    0 <= i < before.len() && (#[trigger] before[i]).token == token;
                assert(after[at].token == token);
            }
        }
        if forall|k: int| 0 <= k < batch.len() ==> has_token(rows, row_of(#[trigger] batch[k]).token) {
            assert forall|k: int| 0 <= k < head.len() implies has_token(
                rows,
                row_of(#[trigger] head[k]).token,
            ) by {
                assert(head[k] == batch[k]);
            }
            assert(has_token(rows, row_of(batch[batch.len() - 1]).token));
            let at = choose|i: int| 0 <= i < rows.len() && (#[trigger] rows[i]).token == row.token;
            assert(before[at].token == row.token);
        }
    }
}

/// Upserting the same batch a second time changes nothing.
pub proof fn law_upsert_all_idempotent(rows: Seq<MaspRateRowView>, batch: Seq<MaspRewardDataView>)
    requires
        unique_tokens(rows),
    ensures
        upsert_all(upsert_all(rows, batch), batch) == upsert_all(rows, batch),
{
    let once = upsert_all(rows, batch);
    let twice = upsert_all(once, batch);
    lemma_upsert_all_shape(rows, batch);
    lemma_upsert_all_shape(once, batch);
    assert(twice.len() == once.len());
    assert forall|i: int| 0 <= i < once.len() implies twice[i] == once[i] by {
        assert(twice[i].token == once[i].token);
    }
    assert(twice =~= once);
}

/// The set of stored tokens only grows: a token stored before a batch of
/// upserts is still stored after it, in the same place.
pub proof fn law_tokens_only_grow(
    rows: Seq<MaspRateRowView>,
    batch: Seq<MaspRewardDataView>,
    token: Seq<char>,
)
    requires
        unique_tokens(rows),
        has_token(rows, token),
    ensures
        has_token(upsert_all(rows, batch), token),
{
    lemma_upsert_all_shape(rows, batch);
    let at = choose|i: int| 0 <= i < rows.len() && (#[trigger] rows[i]).token == token;
    assert(upsert_all(rows, batch)[at].token == token);
}

/// After a batch of upserts the table holds exactly one row for each token of
/// the batch, and that row is the last record of the token in the batch.
pub proof fn law_last_record_wins(
    rows: Seq<MaspRateRowView>,
    batch: Seq<MaspRewardDataView>,
    k: int,
)
    requires
        unique_tokens(rows),
        0 <= k < batch.len(),
    ensures
        unique_tokens(upsert_all(rows, batch)),
        has_token(upsert_all(rows, batch), row_of(batch[k]).token),
        latest_for(batch, row_of(batch[k]).token) is Some,
        forall|i: int|
            0 <= i < upsert_all(rows, batch).len() && (#[trigger] upsert_all(rows, batch)[i]).token
                == row_of(batch[k]).token ==> Some(upsert_all(rows, batch)[i]) == latest_for(
                batch,
                row_of(batch[k]).token,
            ),
{
    lemma_upsert_all_shape(rows, batch);
    lemma_latest_for_some(batch, k);
}

/// A token that occurs in a batch has a last record in it.
proof fn lemma_latest_for_some(batch: Seq<MaspRewardDataView>, k: int)
    requires
        0 <= k < batch.len(),
    ensures
        latest_for(batch, row_of(batch[k]).token) is Some,
    decreases batch.len(),
{
    if k < batch.len() - 1 {
        assert(batch.drop_last()[k] == batch[k]);
        lemma_latest_for_some(batch.drop_last(), k);
    }
}

/// Upserts one row into the table in place.
pub fn upsert_rate(rows: &mut Vec<MaspRateRow>, row: MaspRateRow)
    requires
        unique_tokens(old(rows).deep_view()),
    ensures
        final(rows).deep_view() == upsert(old(rows).deep_view(), row.deep_view()),
        unique_tokens(final(rows).deep_view()),
{
    let ghost before = rows.deep_view();
    proof {
        law_upsert_replaces(before, row.deep_view());
    }
    let n: usize = rows.len();
    let mut i: usize = 0;
    while i < n
        invariant
            n == rows.len(),
            i <= n,
            rows.deep_view() == before,
            before == old(rows).deep_view(),
            unique_tokens(before),
            forall|j: int| 0 <= j < i ==> (#[trigger] before[j]).token != row.token@,
        decreases n - i,
    {
        if rows[i].token == row.token {
            assert(before[i as int].token == row.token@);
            assert(has_token(before, row.token@));
            rows.set(i, row);
            assert(rows.deep_view() =~= upsert(before, row.deep_view()));
            return;
        }
        i += 1;
    }
    assert(!has_token(before, row.token@));
    rows.push(row);
    assert(rows.deep_view() =~= upsert(before, row.deep_view()));
}

/// Upserts every record of the batch into the table, in the order given:
/// a record whose token is stored replaces the coefficients of that row, a
/// record with a new token adds a row.
pub fn insert_masp_rates(rows: &mut Vec<MaspRateRow>, masp_reward_data: Vec<MaspRewardData>)
    requires
        unique_tokens(old(rows).deep_view()),
    ensures
        final(rows).deep_view() == upsert_all(
            old(rows).deep_view(),
            masp_reward_data.deep_view(),
        ),
        unique_tokens(final(rows).deep_view()),
{
    let ghost before = rows.deep_view();
    let ghost batch = masp_reward_data.deep_view();
    let ghost records = masp_reward_data@;
    for record in it: masp_reward_data
        invariant
            it.seq() == records,
            batch.len() == records.len(),
            forall|j: int| 0 <= j < records.len() ==> batch[j] == (#[trigger] records[j]).deep_view(),
            rows.deep_view() == upsert_all(before, batch.take(it.index() as int)),
            unique_tokens(rows.deep_view()),
    {
        let row = MaspRateRow::from_reward_data(record);
        proof {
            let k = it.index() as int;
            let upto = batch.take(k + 1);
            assert(upto.drop_last() =~= batch.take(k));
            assert(upto.last() == batch[k]);
        }
        upsert_rate(rows, row);
    }
    assert(batch.take(batch.len() as int) =~= batch);
}

} // verus!
