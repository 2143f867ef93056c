//! Installation of one logger as the active backend, exactly once.
//!
//! The backend slot is explicit state with an install-if-absent protocol: the
//! first installation fills the empty slot and every later attempt fails and
//! leaves the slot untouched. There is no teardown: once installed, a logger
//! stays for the slot's remaining lifetime.
use vstd::prelude::*;

use crate::logger::Logger;

verus! {

/// Why a registration attempt failed.
#[derive(Clone, Copy, Debug, PartialEq, Eq, Structural)]
pub enum RegistrationError {
    /// A logger is already installed; the existing one stays active.
    AlreadyInitialized,
}

/// The install-if-absent protocol on the backend slot: the next slot state
/// and the attempt's result. An empty slot takes the logger; an occupied one
/// rejects the attempt and keeps its logger.
pub open spec fn install_transition(slot: Option<Logger>, logger: Logger) -> (
    Option<Logger>,
    Result<(), RegistrationError>,
) {
    match slot {
        None => (Some(logger), Ok(())),
        Some(active) => (Some(active), Err(RegistrationError::AlreadyInitialized)),
    }
}

/// The slot a logger is installed into. A process holds one such slot for its
/// whole lifetime and routes every record to the logger installed there.
pub struct Registry {
    active: Option<Logger>,
}

impl Registry {
    /// The logger this slot holds, if one was installed.
    pub closed spec fn installed(&self) -> Option<Logger> {
        self.active
    }

    /// An empty slot: no logger has been installed.
    pub fn new() -> (r: Registry)
        ensures
            r.installed() is None,
    {
        Registry { active: None }
    }

    /// Installs the logger if no logger is installed yet; a second attempt
    /// fails with [`RegistrationError::AlreadyInitialized`] and leaves the
    /// installed logger untouched, exactly as [`install_transition`] says.
    pub fn install(&mut self, logger: Logger) -> (r: Result<(), RegistrationError>)
        ensures
            (final(self).installed(), r) == install_transition(old(self).installed(), logger),
    {
        match &self.active {
            None => {
                self.active = Some(logger);
                Ok(())
            },
            Some(_) => Err(RegistrationError::AlreadyInitialized),
        }
    }

    /// The installed logger, for routing records to it.
    pub fn active(&self) -> (r: Option<&Logger>)
        ensures
            match r {
                Some(l) => self.installed() == Some(*l),
                None => self.installed() is None,
            },
    {
        match &self.active {
            Some(l) => Some(l),
            None => None,
        }
    }
}

/// Registering twice: the first attempt on an empty slot succeeds, the second
/// fails with `AlreadyInitialized`, and the first logger — with its whole
/// configuration — remains the installed one.
pub proof fn lemma_second_registration_rejected(first: Logger, second: Logger)
    ensures
        ({
            let (slot1, r1) = install_transition(None, first);
            let (slot2, r2) = install_transition(slot1, second);
            r1 == Ok::<(), RegistrationError>(()) && r2 == Err::<(), RegistrationError>(
                RegistrationError::AlreadyInitialized,
            ) && slot2 == Some(first)
        }),
{
}

} // verus!
