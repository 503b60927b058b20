//! Severity levels and the build-time level filter.
//!
//! A program has a single maximum-severity threshold, resolved once at build
//! time from a profile selector crossed with an optional explicit override.
//! A call site is live exactly when its level is no more verbose than the
//! threshold.

use vstd::prelude::*;

verus! {

/// Severity levels, ordered from silent to most verbose.
///
/// `Off` is only a threshold value: no call site carries it. The five real
/// levels, `Error` through `Trace`, each own one ordinal table in the
/// artifact.
#[derive(Clone, Copy, PartialEq, Eq, Structural, Debug)]
pub enum Level {
    Off,
    Error,
    Warn,
    Info,
    Debug,
    Trace,
}

impl Level {
    /// Numeric rank of a level: 0 for `Off`, rising with verbosity up to 5
    /// for `Trace`.
    pub open spec fn severity(self) -> int {
        match self {
            Level::Off => 0,
            Level::Error => 1,
            Level::Warn => 2,
            Level::Info => 3,
            Level::Debug => 4,
            Level::Trace => 5,
        }
    }

    /// Executable counterpart of [`Level::severity`].
    pub fn severity_u8(self) -> (r: u8)
        ensures
            r == self.severity(),
    {
        match self {
            Level::Off => 0,
            Level::Error => 1,
            Level::Warn => 2,
            Level::Info => 3,
            Level::Debug => 4,
            Level::Trace => 5,
        }
    }
}

/// A call site at `call` is live under threshold `max` exactly when the
/// threshold is at least as verbose as the call's level.
pub open spec fn level_enabled(call: Level, max: Level) -> bool {
    call.severity() <= max.severity()
}

/// Decides whether a call site at level `call` emits under threshold `max`.
pub fn enabled(call: Level, max: Level) -> (r: bool)
    ensures
        r == level_enabled(call, max),
{
    call.severity_u8() <= max.severity_u8()
}

/// The two build profiles the threshold defaults are keyed on: a
/// debug-oriented build and an optimized release build.
#[derive(Clone, Copy, PartialEq, Eq, Structural, Debug)]
pub enum Profile {
    Dev,
    Release,
}

/// The fixed configuration the threshold is resolved from: the build profile
/// plus an optional explicit override.
#[derive(Clone, Copy, PartialEq, Eq, Structural, Debug)]
pub struct FilterConfig {
    pub profile: Profile,
    pub override_level: Option<Level>,
}

/// The threshold a configuration resolves to: the override when one is
/// given, else `Debug` for a dev build and `Info` for a release build.
pub open spec fn spec_max_level(config: FilterConfig) -> Level {
    match config.override_level {
        Some(l) => l,
        None => match config.profile {
            Profile::Dev => Level::Debug,
            Profile::Release => Level::Info,
        },
    }
}

/// Resolves the single program-wide maximum-severity threshold.
pub fn max_level(config: &FilterConfig) -> (r: Level)
    ensures
        r == spec_max_level(*config),
{
    match config.override_level {
        Some(l) => l,
        None => match config.profile {
            Profile::Dev => Level::Debug,
            Profile::Release => Level::Info,
        },
    }
}

} // verus!
