//! The error taxonomy, split by the stage it belongs to.
//!
//! Build and link errors are fatal: no artifact is produced past them.
//! Decode errors are scoped to one event of a captured stream, except for an
//! artifact mismatch, which condemns the stream as a whole. Runtime transport
//! failures are the transport's own error type and pass through untouched.

use vstd::prelude::*;
use crate::level::Level;
use crate::site::LocationModel;
use crate::site::SourceLocation;
use crate::site::location_view;

verus! {

/// A failure of the build-time registration pass.
#[derive(Debug)]
pub enum BuildError {
    /// Two live call sites of one level share a disambiguation key. The
    /// diagnostic names both parties: the level, the ordinal and location of
    /// the record already in the table, and the location of the rejected
    /// newcomer.
    DuplicateCallSite {
        level: Level,
        existing_ordinal: u8,
        existing_location: Option<SourceLocation>,
        attempted_location: Option<SourceLocation>,
    },
    /// A level table already holds the most records one wire byte can
    /// address.
    TableOverflow { level: Level },
}

/// Mathematical value of a [`BuildError`].
pub enum BuildErrorModel {
    DuplicateCallSite {
        level: Level,
        existing_ordinal: u8,
        existing_location: Option<LocationModel>,
        attempted_location: Option<LocationModel>,
    },
    TableOverflow { level: Level },
}

impl View for BuildError {
    type V = BuildErrorModel;

    open spec fn view(&self) -> BuildErrorModel {
        match *self {
            BuildError::DuplicateCallSite {
                level,
                existing_ordinal,
                existing_location,
                attempted_location,
            } => BuildErrorModel::DuplicateCallSite {
                level,
                existing_ordinal,
                existing_location: location_view(existing_location),
                attempted_location: location_view(attempted_location),
            },
            BuildError::TableOverflow { level } => BuildErrorModel::TableOverflow { level },
        }
    }
}

/// A failure of the link-time global logger binding.
#[derive(Clone, Copy, PartialEq, Eq, Structural, Debug)]
pub enum LinkError {
    /// An implicit-logging call site exists, but no module registered a
    /// global logger.
    MissingGlobalBinding,
    /// A second module attempted to register a global logger.
    DuplicateGlobalBinding,
}

/// A failure of the offline decoder.
#[derive(Clone, Copy, PartialEq, Eq, Structural, Debug)]
pub enum DecodeError {
    /// The event's ordinal is at or past the end of its level's table.
    OrdinalOutOfRange,
    /// The event is tagged with a level that owns no table (`Off`).
    LevelTableMissing,
    /// The captured stream claims a different artifact than the one decoded
    /// against.
    ArtifactMismatch,
}

} // verus!
