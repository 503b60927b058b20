//! The byte-sink capabilities a log event leaves the device through.
//!
//! A transport conveys exactly one byte — the call site's ordinal — per
//! event; the level travels out of band. The local capability is fallible
//! and owned by the caller; the global capability is shared, infallible,
//! and answers for its own safety under concurrent or reentrant use.

use vstd::prelude::*;

verus! {

/// A fallible, caller-owned transport.
///
/// An implementation models the bytes it has accepted so far as `sent()`,
/// and its `log` answers `Ok` exactly when it has taken the byte: no
/// retries, no buffering, no batching. The error type is the
/// application's own and passes through the encoder untouched.
pub trait Log {
    /// Error type of the log operation.
    type Error;

    /// The bytes this transport has accepted, in order. A verified
    /// implementation overrides this with its own model; the default is
    /// the model of a sink that keeps no history.
    open spec fn sent(&self) -> Seq<u8> {
        Seq::empty()
    }

    /// Whether this transport owes success: one in this state takes every
    /// byte offered to it, and stays in such a state. A counting or
    /// capturing sink overrides this with `true`; the cautious default
    /// promises nothing.
    open spec fn always_accepts(&self) -> bool {
        false
    }

    /// Sends the one byte `address` through the transport: on success the
    /// byte is appended to the transport's accepted bytes; on failure the
    /// transport has accepted nothing new. A transport that owes success
    /// delivers it.
    fn log(&mut self, address: u8) -> (r: Result<(), Self::Error>)
        ensures
            r is Ok ==> final(self).sent() == old(self).sent().push(address),
            r is Err ==> final(self).sent() == old(self).sent(),
            old(self).always_accepts() ==> r is Ok && final(self).always_accepts(),
    ;
}

/// An in-memory transport that keeps every byte it accepts and never
/// fails: the reference implementation of [`Log`], and a capture to hold
/// an emitted stream against its artifact.
pub struct RecordingSink {
    pub bytes: Vec<u8>,
}

impl RecordingSink {
    /// A sink that has accepted nothing yet.
    pub fn new() -> (r: RecordingSink)
        ensures
            r.sent() == Seq::<u8>::empty(),
    {
        RecordingSink { bytes: Vec::new() }
    }
}

impl Log for RecordingSink {
    type Error = ();

    open spec fn sent(&self) -> Seq<u8> {
        self.bytes@
    }

    open spec fn always_accepts(&self) -> bool {
        true
    }

    fn log(&mut self, address: u8) -> (r: Result<(), ()>)
        ensures
            r is Ok,
            final(self).sent() == old(self).sent().push(address),
    {
        self.bytes.push(address);
        Ok(())
    }
}

/// The shared, infallible transport behind implicit logging.
///
/// The implementor must make `log` safe to invoke concurrently and
/// reentrantly (say, from an interrupt handler), and must handle any
/// transport failure itself: the call expression at an implicit call site
/// has no place to propagate one.
pub trait GlobalLog: Sync {
    /// Sends the one byte `address` through the transport.
    fn log(&self, address: u8);
}

} // verus!
