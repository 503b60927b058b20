//! The global logger binding: a slot written once, then frozen.
//!
//! A program using implicit logging binds exactly one [`GlobalLog`]
//! capability. The slot accepts its first writer and rejects every later
//! one, mirroring the link step that fails on a second registration; and
//! reading an empty slot fails loudly, mirroring the link step that fails
//! when no registration exists, rather than defaulting to a null logger.
//! Resolution from a call site is a plain reference indirection: the
//! dispatch layer itself takes no lock.

use vstd::prelude::*;
use crate::errors::LinkError;
use crate::level::Level;
use crate::level::enabled;
use crate::level::level_enabled;
use crate::transport::GlobalLog;

verus! {

/// The process-wide slot the global logger is bound into.
pub struct GlobalSlot<L> {
    logger: Option<L>,
}

impl<L> View for GlobalSlot<L> {
    type V = Option<L>;

    closed spec fn view(&self) -> Option<L> {
        self.logger
    }
}

impl<L: GlobalLog> GlobalSlot<L> {
    /// An empty slot: no logger has been bound yet.
    pub fn new() -> (r: GlobalSlot<L>)
        ensures
            r@ is None,
    {
        GlobalSlot { logger: None }
    }

    /// Binds `logger` as the program's one global logger. The first
    /// binding wins and freezes the slot; any later attempt is rejected
    /// and leaves the bound logger in place.
    pub fn register(&mut self, logger: L) -> (r: Result<(), LinkError>)
        ensures
            old(self)@ is Some ==> r == Err::<(), LinkError>(LinkError::DuplicateGlobalBinding)
                && final(self)@ == old(self)@,
            old(self)@ is None ==> r == Ok::<(), LinkError>(()) && final(self)@ == Some(logger),
    {
        if self.logger.is_some() {
            Err(LinkError::DuplicateGlobalBinding)
        } else {
            self.logger = Some(logger);
            Ok(())
        }
    }

    /// Resolves the bound logger by reference. An unbound slot is a
    /// missing-binding failure, never a silent default.
    pub fn resolve(&self) -> (r: Result<&L, LinkError>)
        ensures
            self@ matches Some(l) ==> (r matches Ok(b) && *b == l),
            self@ is None ==> r == Err::<&L, LinkError>(LinkError::MissingGlobalBinding),
    {
        match &self.logger {
            Some(l) => Ok(l),
            None => Err(LinkError::MissingGlobalBinding),
        }
    }

    /// Runs one implicit call site at `level` with ordinal `ordinal` under
    /// the threshold `max`: a live site resolves the bound logger and
    /// hands it the one byte, a filtered site is an immediate no-op
    /// success, and a live site against an empty slot fails as the link
    /// step would.
    pub fn emit_global(&self, max: Level, level: Level, ordinal: u8) -> (r: Result<(), LinkError>)
        requires
            level != Level::Off,
        ensures
            !level_enabled(level, max) ==> r == Ok::<(), LinkError>(()),
            level_enabled(level, max) && self@ is Some ==> r == Ok::<(), LinkError>(()),
            level_enabled(level, max) && self@ is None ==> r == Err::<(), LinkError>(
                LinkError::MissingGlobalBinding,
            ),
    {
        if enabled(level, max) {
            match self.resolve() {
                Ok(logger) => {
                    logger.log(ordinal);
                    Ok(())
                },
                Err(e) => Err(e),
            }
        } else {
            Ok(())
        }
    }
}

} // verus!
