//! The read side of the shielded pool: what is answered from the rows that
//! a repository read.

use vstd::prelude::*;
use crate::appstate::AppState;
use crate::entity::MaspPoolAggregate;
use crate::masp::{MaspRewardData, MaspRewardDataView};
use crate::repository::{record_of, MaspRateRow, MaspRateRowView};

verus! {

/// Why the read side of the shielded pool could not answer.
#[derive(Debug)]
pub enum MaspError {
    /// The store failed; the text is what it said.
    Database(String),
}

/// Which rows of the aggregates table a question needs.
#[derive(Debug)]
pub enum AggregateQuery {
    All,
    ByToken(String),
}

/// The repository of the shielded pool: it keeps what a connection is
/// opened with.
#[derive(Debug)]
pub struct MaspRepository {
    pub app_state: AppState,
}

impl MaspRepository {
    pub fn new(app_state: AppState) -> (repo: MaspRepository)
        ensures
            repo.app_state == app_state,
    {
        MaspRepository { app_state }
    }
}

impl Clone for MaspRepository {
    fn clone(&self) -> (copy: Self)
        ensures
            copy == *self,
    {
        MaspRepository { app_state: self.app_state.clone() }
    }
}

/// The service that answers questions about the shielded pool.
#[derive(Debug)]
pub struct MaspService {
    pub masp_repo: MaspRepository,
}

impl Clone for MaspService {
    fn clone(&self) -> (copy: Self)
        ensures
            copy == *self,
    {
        MaspService { masp_repo: self.masp_repo.clone() }
    }
}

/// The records that stored rows are read back as, in the order of the rows.
pub open spec fn records_of_rows(rows: Seq<MaspRateRowView>) -> Seq<MaspRewardDataView> {
    Seq::new(rows.len(), |i: int| record_of(rows[i]))
}

impl MaspService {
    /// A service over the repository that `app_state` opens.
    pub fn new(app_state: AppState) -> (service: MaspService)
        ensures
            service.masp_repo.app_state == app_state,
    {
        MaspService { masp_repo: MaspRepository::new(app_state) }
    }

    /// The rows to read for a question about aggregates: those of one token
    /// where a token is named, all of them where none is.
    pub fn aggregate_query(&self, token: Option<String>) -> (query: AggregateQuery)
        ensures
            match token {
                Some(t) => query == AggregateQuery::ByToken(t),
                None => query == AggregateQuery::All,
            },
    {
        match token {
            Some(token) => AggregateQuery::ByToken(token),
            None => AggregateQuery::All,
        }
    }

    /// Answers with the aggregates that the repository read, or passes its
    /// failure on as `Database`.
    pub fn find_all_masp_aggregates(
        &self,
        rows: Result<Vec<MaspPoolAggregate>, String>,
    ) -> (res: Result<Vec<MaspPoolAggregate>, MaspError>)
        ensures
            match rows {
                Ok(found) => res == Ok::<Vec<MaspPoolAggregate>, MaspError>(found),
                Err(e) => res == Err::<Vec<MaspPoolAggregate>, MaspError>(MaspError::Database(e)),
            },
    {
        match rows {
            Ok(found) => Ok(found),
            Err(e) => Err(MaspError::Database(e)),
        }
    }

    /// Answers with the records of the rows that the repository read, each
    /// token as an account, or passes its failure on as `Database`.
    pub fn find_all_masp_rates(&self, rows: Result<Vec<MaspRateRow>, String>) -> (res: Result<
        Vec<MaspRewardData>,
        MaspError,
    >)
        ensures
            match rows {
                Ok(found) => res matches Ok(records) && records.deep_view() == records_of_rows(
                    found.deep_view(),
                ),
                Err(e) => res == Err::<Vec<MaspRewardData>, MaspError>(MaspError::Database(e)),
            },
    {
        match rows {
            Err(e) => Err(MaspError::Database(e)),
            Ok(found) => {
                let ghost stored = found@;
                let ghost views = found.deep_view();
                let mut records: Vec<MaspRewardData> = Vec::new();
                for row in it: found
                    invariant
                        it.seq() == stored,
                        views.len() == stored.len(),
                        forall|j: int|
                            0 <= j < stored.len() ==> views[j] == (#[trigger] stored[j]).deep_view(),
                        records.len() == it.index(),
                        forall|j: int|
                            0 <= j < it.index() ==> (#[trigger] records[j]).deep_view()
                                == record_of(views[j]),
                {
                    records.push(row.into_reward_data());
                }
                assert(records.deep_view() =~= records_of_rows(views));
                Ok(records)
            },
        }
    }
}

} // verus!
