//! The store the crawler writes to: the reward-coefficients table and the
//! crawl cursor, changed together by one commit or not at all. It lives in
//! memory, and a fault can be armed on it to see how callers take a failure.

use vstd::prelude::*;
use crate::error::{CrawlError, WriteError};
use crate::extract::{extract, extraction, RawRewardSnapshot};
use crate::masp::{Epoch, MaspRewardData, MaspRewardDataView};
use crate::repository::{
    has_token, insert_masp_rates, law_tokens_only_grow, law_upsert_all_idempotent,
    lemma_upsert_all_shape, unique_tokens, upsert_all, MaspRateRow, MaspRateRowView,
};

verus! {

/// A failure that can be armed on a [`Storage`].
#[derive(Debug, Clone, Copy, PartialEq, Eq, Structural)]
pub enum Fault {
    /// The store cannot be reached: every read and every commit fails until
    /// the fault is cleared.
    Offline,
    /// The next commit fails after its records were upserted and before its
    /// cursor step; the fault is spent by that commit.
    MidCommit,
}

/// What the store holds: the rows of the table in the order in which their
/// tokens were first stored, and the last epoch processed in normal mode.
pub struct StorageView {
    pub rates: Seq<MaspRateRowView>,
    pub cursor: Option<Epoch>,
}

/// The cursor may move to `epoch`: there is no cursor yet, or `epoch` is the
/// successor of the stored one.
pub open spec fn in_order(cursor: Option<Epoch>, epoch: Epoch) -> bool {
    match cursor {
        None => true,
        Some(last) => epoch == last + 1,
    }
}

/// What a commit answers on a store on which no fault is armed.
pub open spec fn commit_verdict(s: StorageView, cursor_advance: Option<Epoch>) -> Result<
    (),
    WriteError,
> {
    match cursor_advance {
        Some(epoch) => if in_order(s.cursor, epoch) {
            Ok(())
        } else {
            Err(WriteError::OutOfOrder)
        },
        None => Ok(()),
    }
}

/// What a commit leaves in a store on which no fault is armed: all records
/// upserted and the cursor moved, or, where the commit is refused, nothing
/// changed.
pub open spec fn commit_state(
    s: StorageView,
    batch: Seq<MaspRewardDataView>,
    cursor_advance: Option<Epoch>,
) -> StorageView {
    if commit_verdict(s, cursor_advance) is Ok {
        StorageView {
            rates: upsert_all(s.rates, batch),
            cursor: match cursor_advance {
                Some(epoch) => Some(epoch),
                None => s.cursor,
            },
        }
    } else {
        s
    }
}

/// The armed fault after a commit: a mid-commit fault is spent, any other
/// stays.
pub open spec fn fault_after_commit(fault: Option<Fault>) -> Option<Fault> {
    if fault == Some(Fault::MidCommit) {
        None
    } else {
        fault
    }
}

/// The table and the cursor, with the fault that is armed on them.
#[derive(Debug)]
pub struct Storage {
    rates: Vec<MaspRateRow>,
    cursor: Option<Epoch>,
    fault: Option<Fault>,
}

impl View for Storage {
    type V = StorageView;

    closed spec fn view(&self) -> StorageView {
        StorageView { rates: self.rates.deep_view(), cursor: self.cursor }
    }
}

/// Decides whether the cursor may move to `epoch`: there is no cursor yet,
/// or `epoch` is the successor of the stored one.
pub fn may_advance(cursor: Option<Epoch>, epoch: Epoch) -> (yes: bool)
    ensures
        yes == in_order(cursor, epoch),
{
    match cursor {
        None => true,
        Some(last) => last < u32::MAX && epoch == last + 1,
    }
}

/// A copy of the rows, for a transaction to work on.
fn copy_rows(rows: &Vec<MaspRateRow>) -> (copy: Vec<MaspRateRow>)
    ensures
        copy.deep_view() == rows.deep_view(),
{
    let mut copy: Vec<MaspRateRow> = Vec::new();
    let n: usize = rows.len();
    let mut i: usize = 0;
    while i < n
        invariant
            n == rows.len(),
            i <= n,
            copy.len() == i,
            forall|j: int| 0 <= j < i ==> (#[trigger] copy[j]).deep_view() == rows[j].deep_view(),
        decreases n - i,
    {
        copy.push(rows[i].clone());
        i += 1;
    }
    assert(copy.deep_view() =~= rows.deep_view());
    copy
}

impl Storage {
    #[verifier::type_invariant]
    spec fn one_row_per_token(&self) -> bool {
        unique_tokens(self.rates.deep_view())
    }

    /// The fault that is armed, if any.
    pub closed spec fn armed_fault(&self) -> Option<Fault> {
        self.fault
    }

    /// An empty store: no rows, and a cursor that is absent or as given.
    pub fn new(cursor: Option<Epoch>) -> (store: Storage)
        ensures
            store@.rates.len() == 0,
            store@.cursor == cursor,
            store.armed_fault() is None,
    {
        Storage { rates: Vec::new(), cursor, fault: None }
    }

    /// Arms a fault; it replaces one that was armed before.
    pub fn inject_fault(&mut self, fault: Fault)
        ensures
            final(self)@ == old(self)@,
            final(self).armed_fault() == Some(fault),
    {
        proof {
            use_type_invariant(&*self);
        }
        self.fault = Some(fault);
    }

    /// Disarms the fault, if one is armed.
    pub fn clear_fault(&mut self)
        ensures
            final(self)@ == old(self)@,
            final(self).armed_fault() is None,
    {
        proof {
            use_type_invariant(&*self);
        }
        self.fault = None;
    }

    /// Reads the stored cursor. It fails with `Database` exactly when the
    /// store is offline.
    pub fn load_cursor(&self) -> (res: Result<Option<Epoch>, WriteError>)
        ensures
            res == (if self.armed_fault() == Some(Fault::Offline) {
                Err::<Option<Epoch>, WriteError>(WriteError::Database)
            } else {
                Ok(self@.cursor)
            }),
    {
        match self.fault {
            Some(Fault::Offline) => Err(WriteError::Database),
            _ => Ok(self.cursor),
        }
    }

    /// Reads all rows, in stored order. It fails with `Database` exactly when
    /// the store is offline.
    pub fn find_all_rates(&self) -> (res: Result<Vec<MaspRateRow>, WriteError>)
        ensures
            unique_tokens(self@.rates),
            match res {
                Ok(rows) => self.armed_fault() != Some(Fault::Offline) && rows.deep_view()
                    == self@.rates,
                Err(e) => self.armed_fault() == Some(Fault::Offline) && e == WriteError::Database,
            },
    {
        proof {
            use_type_invariant(self);
        }
        match self.fault {
            Some(Fault::Offline) => Err(WriteError::Database),
            _ => Ok(copy_rows(&self.rates)),
        }
    }

    /// Commits one batch: upserts every record and, where `cursor_advance`
    /// names an epoch, moves the cursor to it, as one unit.
    ///
    /// With a fault armed the commit fails with `Database`. Without one it
    /// fails with `OutOfOrder` exactly when the epoch named is not in order
    /// after the stored cursor. A failed commit leaves table and cursor as
    /// they were.
    pub fn commit(&mut self, records: Vec<MaspRewardData>, cursor_advance: Option<Epoch>) -> (res:
        Result<(), WriteError>)
        ensures
            unique_tokens(old(self)@.rates),
            unique_tokens(final(self)@.rates),
            res is Err ==> final(self)@ == old(self)@,
            old(self).armed_fault() is Some ==> res == Err::<(), WriteError>(WriteError::Database),
            old(self).armed_fault() is None ==> res == commit_verdict(old(self)@, cursor_advance)
                && final(self)@ == commit_state(
                old(self)@,
                records.deep_view(),
                cursor_advance,
            ),
            final(self).armed_fault() == fault_after_commit(old(self).armed_fault()),
    {
        proof {
            use_type_invariant(&*self);
        }
        if let Some(Fault::Offline) = self.fault {
            return Err(WriteError::Database);
        }
        let mut work = copy_rows(&self.rates);
        insert_masp_rates(&mut work, records);
        if let Some(Fault::MidCommit) = self.fault {
            self.fault = None;
            return Err(WriteError::Database);
        }
        let next_cursor = match cursor_advance {
            Some(epoch) => {
                if !may_advance(self.cursor, epoch) {
                    return Err(WriteError::OutOfOrder);
                }
                Some(epoch)
            },
            None => self.cursor,
        };
        self.rates = work;
        self.cursor = next_cursor;
        Ok(())
    }
}

/// Extracts the records of one epoch from the node's answer and commits
/// them, with the cursor step where one is named.
///
/// Malformed data is refused before the store is touched. Any failure, of
/// extraction or of the commit, leaves table and cursor as they were.
pub fn ingest(store: &mut Storage, raw: RawRewardSnapshot, cursor_advance: Option<Epoch>) -> (res:
    Result<(), CrawlError>)
    ensures
        unique_tokens(final(store)@.rates),
        res is Err ==> final(store)@ == old(store)@,
        match extraction(raw.deep_view()) {
            Err(e) => res == Err::<(), CrawlError>(e) && final(store).armed_fault() == old(
                store,
            ).armed_fault(),
            Ok(records) => {
                &&& final(store).armed_fault() == fault_after_commit(old(store).armed_fault())
                &&& old(store).armed_fault() is Some ==> res == Err::<(), CrawlError>(
                    CrawlError::Database,
                )
                &&& old(store).armed_fault() is None ==> {
                    &&& final(store)@ == commit_state(old(store)@, records, cursor_advance)
                    &&& res == match commit_verdict(old(store)@, cursor_advance) {
                        Ok(()) => Ok::<(), CrawlError>(()),
                        Err(e) => Err::<(), CrawlError>(CrawlError::of_write(e)),
                    }
                }
            },
        },
{
    match extract(raw) {
        Err(e) => {
            proof {
                use_type_invariant(&*store);
            }
            Err(e)
        },
        Ok(records) => match store.commit(records, cursor_advance) {
            Ok(()) => Ok(()),
            Err(e) => Err(CrawlError::from_write(e)),
        },
    }
}

/// Idempotence: committing the same records with the same cursor step a
/// second time leaves the store as the first commit left it.
pub proof fn law_commit_idempotent(
    s: StorageView,
    batch: Seq<MaspRewardDataView>,
    cursor_advance: Option<Epoch>,
)
    requires
        unique_tokens(s.rates),
    ensures
        commit_state(commit_state(s, batch, cursor_advance), batch, cursor_advance)
            == commit_state(s, batch, cursor_advance),
{
    law_upsert_all_idempotent(s.rates, batch);
}

/// Ordering: a commit that names an epoch other than the successor of the
/// stored cursor is refused as out of order and changes nothing.
pub proof fn law_out_of_order_refused(
    s: StorageView,
    batch: Seq<MaspRewardDataView>,
    last: Epoch,
    epoch: Epoch,
)
    requires
        s.cursor == Some(last),
        epoch != last + 1,
    ensures
        commit_verdict(s, Some(epoch)) == Err::<(), WriteError>(WriteError::OutOfOrder),
        commit_state(s, batch, Some(epoch)) == s,
{
}

/// Mutual exclusion: of two crawlers that read the same cursor and commit
/// the same epoch, one after the other, the second is refused as out of
/// order, and what the first one stored stays as it is.
pub proof fn law_stale_crawler_refused(
    s: StorageView,
    first: Seq<MaspRewardDataView>,
    second: Seq<MaspRewardDataView>,
    epoch: Epoch,
)
    requires
        commit_verdict(s, Some(epoch)) is Ok,
    ensures
        commit_verdict(commit_state(s, first, Some(epoch)), Some(epoch)) == Err::<(), WriteError>(
            WriteError::OutOfOrder,
        ),
        commit_state(commit_state(s, first, Some(epoch)), second, Some(epoch)) == commit_state(
            s,
            first,
            Some(epoch),
        ),
{
}

/// A commit that names no epoch is never refused and leaves the cursor as it
/// was.
pub proof fn law_cursor_frozen_without_advance(s: StorageView, batch: Seq<MaspRewardDataView>)
    ensures
        commit_verdict(s, None) is Ok,
        commit_state(s, batch, None).cursor == s.cursor,
        commit_state(s, batch, None).rates == upsert_all(s.rates, batch),
{
}

/// The cursor never moves back, and where it moves from a stored epoch it
/// moves by one.
pub proof fn law_cursor_advances_by_one(
    s: StorageView,
    batch: Seq<MaspRewardDataView>,
    cursor_advance: Option<Epoch>,
)
    ensures
        s.cursor matches Some(last) ==> {
            let after = commit_state(s, batch, cursor_advance).cursor;
            after == Some(last) || (last < u32::MAX && after == Some((last + 1) as u32))
        },
{
}

/// No commit drops a token: what is stored before is stored after.
pub proof fn law_commit_keeps_tokens(
    s: StorageView,
    batch: Seq<MaspRewardDataView>,
    cursor_advance: Option<Epoch>,
    token: Seq<char>,
)
    requires
        unique_tokens(s.rates),
        has_token(s.rates, token),
    ensures
        unique_tokens(commit_state(s, batch, cursor_advance).rates),
        has_token(commit_state(s, batch, cursor_advance).rates, token),
{
    lemma_upsert_all_shape(s.rates, batch);
    law_tokens_only_grow(s.rates, batch, token);
}

} // verus!
