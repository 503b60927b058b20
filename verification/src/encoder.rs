//! The runtime step of a call site: filter, then emit one byte.
//!
//! Under the build's threshold, a live call site hands its ordinal — and
//! nothing else — to the transport, once, and returns the transport's own
//! verdict. A filtered call site never touches the transport and degrades
//! to an immediate no-op success. The threshold is a build-time constant,
//! so the comparison is a single branch with side-effect-free arms, open
//! to being folded away entirely when its outcome is statically known.

use vstd::prelude::*;
use crate::level::Level;
use crate::level::enabled;
use crate::level::level_enabled;
use crate::transport::Log;

verus! {

/// Runs one call site at `level` with ordinal `ordinal` against `logger`,
/// under the threshold `max`.
///
/// When the site is live, exactly the one byte `ordinal` goes through the
/// transport and its result is returned; when it is filtered, the
/// transport is left untouched and the call succeeds immediately. An error
/// can only come from a live site's transport, and a transport that owes
/// success makes every call succeed — so against such a transport a live
/// site sends exactly its ordinal, every time.
pub fn emit<L: Log>(logger: &mut L, max: Level, level: Level, ordinal: u8) -> (r: Result<
    (),
    L::Error,
>)
    requires
        level != Level::Off,
    ensures
        level_enabled(level, max) && r is Ok ==> final(logger).sent() == old(logger).sent().push(
            ordinal,
        ),
        !level_enabled(level, max) ==> r is Ok && final(logger).sent() == old(logger).sent(),
        r is Err ==> level_enabled(level, max) && final(logger).sent() == old(logger).sent(),
        old(logger).always_accepts() ==> r is Ok && final(logger).always_accepts(),
{
    if enabled(level, max) {
        logger.log(ordinal)
    } else {
        Ok(())
    }
}

} // verus!
