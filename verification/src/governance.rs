//! The read side of governance: what is decided and computed around the rows
//! that a repository read.

use vstd::prelude::*;
use crate::appstate::AppState;
use crate::hashing::{hex_decode, is_lower_hex, lower_hex_bytes, sha256_digest, sha256_hex};

verus! {

/// The state of a proposal, as a question names it.
#[derive(Debug, Clone, Copy, PartialEq, Eq, Structural)]
pub enum ProposalStatus {
    Pending,
    VotingPeriod,
    Passed,
    Rejected,
    ExecutedPassed,
    ExecutedRejected,
}

/// The kind of a proposal, as a question names it.
#[derive(Debug, Clone, Copy, PartialEq, Eq, Structural)]
pub enum ProposalKind {
    Default,
    DefaultWithWasm,
    PgfSteward,
    PgfFunding,
}

/// The state of a proposal, as the store holds it.
#[derive(Debug, Clone, Copy, PartialEq, Eq, Structural)]
pub enum GovernanceProposalResultDb {
    Pending,
    VotingPeriod,
    Passed,
    Rejected,
    ExecutedPassed,
    ExecutedRejected,
}

/// The kind of a proposal, as the store holds it.
#[derive(Debug, Clone, Copy, PartialEq, Eq, Structural)]
pub enum GovernanceProposalKindDb {
    Default,
    DefaultWithWasm,
    PgfSteward,
    PgfFunding,
}

/// The kind of a proposal, as an answer names it.
#[derive(Debug, Clone, Copy, PartialEq, Eq, Structural)]
pub enum ProposalType {
    Default,
    DefaultWithWasm,
    PgfSteward,
    PgfFunding,
}

/// What the store holds of the payload of a proposal.
#[derive(Debug)]
pub struct ProposalDataDb {
    pub kind: GovernanceProposalKindDb,
    pub data: Option<String>,
}

/// The payload of a proposal as answered: the data as stored, and for a
/// proposal that carries code the digest of that code.
#[derive(Debug)]
pub struct ProposalData {
    pub data: Option<String>,
    pub hash: Option<String>,
    pub kind: ProposalType,
}

/// Why the read side of governance could not answer.
#[derive(Debug)]
pub enum GovernanceError {
    /// No proposal has this id.
    NotFound(u64),
    /// The store failed; the text is what it said.
    Database(String),
}

/// The repository of proposals and votes: it keeps what a connection is
/// opened with.
#[derive(Debug)]
pub struct GovernanceRepo {
    pub app_state: AppState,
}

/// The repository of chain state: it keeps what a connection is opened
/// with.
#[derive(Debug)]
pub struct ChainRepository {
    pub app_state: AppState,
}

impl GovernanceRepo {
    pub fn new(app_state: AppState) -> (repo: GovernanceRepo)
        ensures
            repo.app_state == app_state,
    {
        GovernanceRepo { app_state }
    }
}

impl ChainRepository {
    pub fn new(app_state: AppState) -> (repo: ChainRepository)
        ensures
            repo.app_state == app_state,
    {
        ChainRepository { app_state }
    }
}

/// The service that answers questions about governance.
#[derive(Debug)]
pub struct GovernanceService {
    governance_repo: GovernanceRepo,
    chain_repo: ChainRepository,
}

/// The stored state that a named state selects.
pub open spec fn status_db(status: ProposalStatus) -> GovernanceProposalResultDb {
    match status {
        ProposalStatus::Pending => GovernanceProposalResultDb::Pending,
        ProposalStatus::VotingPeriod => GovernanceProposalResultDb::VotingPeriod,
        ProposalStatus::Passed => GovernanceProposalResultDb::Passed,
        ProposalStatus::Rejected => GovernanceProposalResultDb::Rejected,
        ProposalStatus::ExecutedPassed => GovernanceProposalResultDb::ExecutedPassed,
        ProposalStatus::ExecutedRejected => GovernanceProposalResultDb::ExecutedRejected,
    }
}

/// The stored kind that a named kind selects.
pub open spec fn kind_db(kind: ProposalKind) -> GovernanceProposalKindDb {
    match kind {
        ProposalKind::Default => GovernanceProposalKindDb::Default,
        ProposalKind::DefaultWithWasm => GovernanceProposalKindDb::DefaultWithWasm,
        ProposalKind::PgfSteward => GovernanceProposalKindDb::PgfSteward,
        ProposalKind::PgfFunding => GovernanceProposalKindDb::PgfFunding,
    }
}

/// The answered kind of a stored kind.
pub open spec fn proposal_type(kind: GovernanceProposalKindDb) -> ProposalType {
    match kind {
        GovernanceProposalKindDb::Default => ProposalType::Default,
        GovernanceProposalKindDb::DefaultWithWasm => ProposalType::DefaultWithWasm,
        GovernanceProposalKindDb::PgfSteward => ProposalType::PgfSteward,
        GovernanceProposalKindDb::PgfFunding => ProposalType::PgfFunding,
    }
}

/// The text of the stored data, or no text where none is stored.
pub open spec fn data_text(data: Option<String>) -> Seq<char> {
    match data {
        Some(text) => text@,
        None => Seq::<char>::empty(),
    }
}

/// The code that stored data stands for: its bytes where the data is
/// lower-case hexadecimal, and no bytes otherwise.
pub open spec fn code_bytes(text: Seq<char>) -> Seq<u8> {
    if is_lower_hex(text) {
        lower_hex_bytes(text)
    } else {
        Seq::<u8>::empty()
    }
}

/// The digest answered with a payload: that of its code where the proposal
/// carries code, none otherwise.
pub open spec fn payload_hash(row: ProposalDataDb) -> Option<Seq<char>> {
    if row.kind == GovernanceProposalKindDb::DefaultWithWasm {
        Some(sha256_hex(code_bytes(data_text(row.data))))
    } else {
        None
    }
}

impl ProposalType {
    /// The answered kind of a stored kind.
    pub fn from(kind: GovernanceProposalKindDb) -> (answered: ProposalType)
        ensures
            answered == proposal_type(kind),
    {
        match kind {
            GovernanceProposalKindDb::Default => ProposalType::Default,
            GovernanceProposalKindDb::DefaultWithWasm => ProposalType::DefaultWithWasm,
            GovernanceProposalKindDb::PgfSteward => ProposalType::PgfSteward,
            GovernanceProposalKindDb::PgfFunding => ProposalType::PgfFunding,
        }
    }
}

/// Answers the payload of a proposal from its stored row and the digest of
/// its code, where it has one.
pub fn proposal_data_with_hash(row: ProposalDataDb, hash: Option<String>) -> (answer: ProposalData)
    ensures
        answer.data == row.data,
        answer.hash == hash,
        answer.kind == proposal_type(row.kind),
{
    ProposalData { data: row.data, hash, kind: ProposalType::from(row.kind) }
}

impl GovernanceService {
    /// The repository of proposals that the service reads.
    pub closed spec fn governance_state(&self) -> AppState {
        self.governance_repo.app_state
    }

    /// The repository of chain state that the service reads.
    pub closed spec fn chain_state(&self) -> AppState {
        self.chain_repo.app_state
    }

    /// A service over the two repositories that `app_state` opens.
    pub fn new(app_state: AppState) -> (service: GovernanceService)
        ensures
            service.governance_state() == app_state,
            service.chain_state() == app_state,
    {
        GovernanceService {
            governance_repo: GovernanceRepo::new(app_state.clone()),
            chain_repo: ChainRepository::new(app_state),
        }
    }

    /// The stored state to filter by, where a state is named.
    pub fn map_status(&self, status: Option<ProposalStatus>) -> (mapped: Option<
        GovernanceProposalResultDb,
    >)
        ensures
            mapped == match status {
                Some(s) => Some(status_db(s)),
                None => None,
            },
    {
        match status {
            Some(s) => Some(
                match s {
                    ProposalStatus::Pending => GovernanceProposalResultDb::Pending,
                    ProposalStatus::VotingPeriod => GovernanceProposalResultDb::VotingPeriod,
                    ProposalStatus::Passed => GovernanceProposalResultDb::Passed,
                    ProposalStatus::Rejected => GovernanceProposalResultDb::Rejected,
                    ProposalStatus::ExecutedPassed => GovernanceProposalResultDb::ExecutedPassed,
                    ProposalStatus::ExecutedRejected => GovernanceProposalResultDb::ExecutedRejected,
                },
            ),
            None => None,
        }
    }

    /// The stored kind to filter by, where a kind is named.
    pub fn map_kind(&self, kind: Option<ProposalKind>) -> (mapped: Option<GovernanceProposalKindDb>)
        ensures
            mapped == match kind {
                Some(k) => Some(kind_db(k)),
                None => None,
            },
    {
        match kind {
            Some(k) => Some(
                match k {
                    ProposalKind::Default => GovernanceProposalKindDb::Default,
                    ProposalKind::DefaultWithWasm => GovernanceProposalKindDb::DefaultWithWasm,
                    ProposalKind::PgfSteward => GovernanceProposalKindDb::PgfSteward,
                    ProposalKind::PgfFunding => GovernanceProposalKindDb::PgfFunding,
                },
            ),
            None => None,
        }
    }

    /// Answers the payload of a proposal from what the repository read for
    /// its id: `Database` where the read failed, `NotFound` with the id where
    /// no row was read, and else the data as stored, with the digest of the
    /// code for a proposal that carries code. Data that is not lower-case
    /// hexadecimal counts as empty code.
    pub fn find_proposal_data(
        &self,
        proposal_id: u64,
        row: Result<Option<ProposalDataDb>, String>,
    ) -> (res: Result<ProposalData, GovernanceError>)
        ensures
            match row {
                Err(e) => res == Err::<ProposalData, GovernanceError>(GovernanceError::Database(e)),
                Ok(None) => res == Err::<ProposalData, GovernanceError>(
                    GovernanceError::NotFound(proposal_id),
                ),
                Ok(Some(stored)) => res matches Ok(answer) && answer.data == stored.data
                    && answer.kind == proposal_type(stored.kind) && (match payload_hash(stored) {
                    Some(digest) => answer.hash matches Some(h) && h@ == digest,
                    None => answer.hash is None,
                }),
            },
    {
        let stored = match row {
            Err(e) => {
                return Err(GovernanceError::Database(e));
            },
            Ok(None) => {
                return Err(GovernanceError::NotFound(proposal_id));
            },
            Ok(Some(stored)) => stored,
        };
        let hash = match stored.kind {
            GovernanceProposalKindDb::DefaultWithWasm => {
                let decoded = match &stored.data {
                    Some(text) => hex_decode(text.as_str()),
                    None => hex_decode(""),
                };
                proof {
                    reveal_strlit("");
                }
                let bytes = match decoded {
                    Some(bytes) => bytes,
                    None => Vec::new(),
                };
                assert(bytes@ =~= code_bytes(data_text(stored.data)));
                Some(sha256_digest(bytes))
            },
            _ => None,
        };
        Ok(proposal_data_with_hash(stored, hash))
    }

    /// Decides whether a question about a proposal can go on: `Database`
    /// where reading the proposal failed, `NotFound` with the id where there
    /// is none, and else nothing stands in the way.
    pub fn require_proposal(&self, proposal_id: u64, found: Result<bool, String>) -> (res: Result<
        (),
        GovernanceError,
    >)
        ensures
            match found {
                Err(e) => res == Err::<(), GovernanceError>(GovernanceError::Database(e)),
                Ok(false) => res == Err::<(), GovernanceError>(
                    GovernanceError::NotFound(proposal_id),
                ),
                Ok(true) => res is Ok,
            },
    {
        match found {
            Err(e) => Err(GovernanceError::Database(e)),
            Ok(false) => Err(GovernanceError::NotFound(proposal_id)),
            Ok(true) => Ok(()),
        }
    }
}

} // verus!
