//! What the crawler is started with.

use vstd::prelude::*;
use crate::masp::Epoch;

verus! {

/// The pause between cycles, in seconds, where none is configured.
pub const DEFAULT_SLEEP_FOR: u64 = 60;

/// How a run treats the cursor.
#[derive(Debug, Clone, Copy, PartialEq, Eq, Structural)]
pub enum Mode {
    /// Follow the chain: process the epoch after the cursor and advance it.
    Normal,
    /// Replay history upward from an epoch, leaving the cursor alone.
    Backfill { from: Epoch },
}

/// The settings of one crawler process.
#[derive(Debug)]
pub struct AppConfig {
    /// Where the node answers queries.
    pub tendermint_url: String,
    /// The pause between cycles, in seconds.
    pub sleep_for: u64,
    /// Crawl from the given epoch and leave the cursor as it is.
    pub backfill_from: Option<u32>,
    /// Where the store is reached.
    pub database_url: String,
}

impl AppConfig {
    /// The mode the settings ask for: backfill exactly when a starting epoch
    /// is given.
    pub open spec fn spec_mode(&self) -> Mode {
        match self.backfill_from {
            Some(from) => Mode::Backfill { from },
            None => Mode::Normal,
        }
    }

    /// Settings for following the chain with the default pause.
    pub fn new(tendermint_url: String, database_url: String) -> (config: AppConfig)
        ensures
            config.tendermint_url == tendermint_url,
            config.database_url == database_url,
            config.sleep_for == DEFAULT_SLEEP_FOR,
            config.backfill_from is None,
    {
        AppConfig { tendermint_url, sleep_for: DEFAULT_SLEEP_FOR, backfill_from: None, database_url }
    }

    /// The mode the settings ask for.
    #[verifier::when_used_as_spec(spec_mode)]
    pub fn mode(&self) -> (mode: Mode)
        ensures
            mode == self.spec_mode(),
    {
        match self.backfill_from {
            Some(from) => Mode::Backfill { from },
            None => Mode::Normal,
        }
    }
}

} // verus!
