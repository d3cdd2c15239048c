//! What a repository of the read side is opened with.

use vstd::prelude::*;

verus! {

/// Where the store is reached. A repository keeps it and hands it to
/// whoever opens the connection.
#[derive(Debug)]
pub struct AppState {
    pub database_url: String,
}

impl AppState {
    pub fn new(database_url: String) -> (state: AppState)
        ensures
            state.database_url == database_url,
    {
        AppState { database_url }
    }
}

impl Clone for AppState {
    fn clone(&self) -> (copy: Self)
        ensures
            copy == *self,
    {
        AppState { database_url: self.database_url.clone() }
    }
}

} // verus!
