//! The write-once session state.
//!
//! The processed start-up configuration is stored exactly once, before the
//! command surface becomes reachable. A second store is a programming error
//! and is refused; reads before the first store fall back to the empty
//! configuration so that read-side handlers stay total.

use crate::config::{empty_processed, ProcessedArgs, ProcessedArgsView};
use vstd::prelude::*;

verus! {

/// Error returned when the session state is stored into a second time.
pub enum InitError {
    /// The session already holds a configuration.
    AlreadyInitialized,
}

/// Holder of the one processed start-up configuration of the process.
pub struct SessionState {
    config: Option<ProcessedArgs>,
}

impl SessionState {
    /// Whether the configuration has been stored.
    pub closed spec fn is_init(&self) -> bool {
        self.config is Some
    }

    /// The stored configuration; meaningful only once `is_init()` holds.
    pub closed spec fn stored(&self) -> ProcessedArgsView {
        self.config->0@
    }

    /// A session that holds nothing yet.
    pub fn new() -> (r: Self)
        ensures
            !r.is_init(),
    {
        SessionState { config: None }
    }

    /// Stores the configuration. The first store succeeds; any later store
    /// is refused and leaves the stored configuration untouched.
    pub fn set(&mut self, config: ProcessedArgs) -> (r: Result<(), InitError>)
        ensures
            !old(self).is_init() ==> (r is Ok && final(self).is_init() && final(self).stored()
                == config@),
            old(self).is_init() ==> (r is Err && *final(self) == *old(self)),
    {
        match &self.config {
            Some(_) => Err(InitError::AlreadyInitialized),
            None => {
                self.config = Some(config);
                Ok(())
            },
        }
    }

    /// The stored configuration, if any.
    pub fn get(&self) -> (r: Option<&ProcessedArgs>)
        ensures
            r is Some <==> self.is_init(),
            r matches Some(c) ==> c@ == self.stored(),
    {
        match &self.config {
            Some(c) => Some(c),
            None => None,
        }
    }

    /// A snapshot of the stored configuration, or the empty default when
    /// nothing has been stored yet.
    pub fn get_cli_args(&self) -> (r: ProcessedArgs)
        ensures
            self.is_init() ==> r@ == self.stored(),
            !self.is_init() ==> r@ == empty_processed(),
    {
        match &self.config {
            Some(c) => c.clone(),
            None => ProcessedArgs::empty(),
        }
    }
}

} // verus!
