use std::sync::atomic::AtomicU8;
use std::sync::atomic::AtomicUsize;
use std::sync::atomic::Ordering;

use stlog::FilterConfig;
use stlog::GlobalLog;
use stlog::GlobalSlot;
use stlog::Level;
use stlog::LinkError;
use stlog::Log;
use stlog::Profile;
use stlog::emit;
use stlog::max_level;

struct ByteSink {
    bytes: Vec<u8>,
}

impl Log for ByteSink {
    type Error = u8;

    fn log(&mut self, address: u8) -> Result<(), u8> {
        self.bytes.push(address);
        Ok(())
    }
}

struct FailingSink;

impl Log for FailingSink {
    type Error = u8;

    fn log(&mut self, _address: u8) -> Result<(), u8> {
        Err(42)
    }
}

struct TaggedGlobal(u8);

impl GlobalLog for TaggedGlobal {
    fn log(&self, _address: u8) {}
}

struct RecordingGlobal {
    count: AtomicUsize,
    last: AtomicU8,
}

impl GlobalLog for RecordingGlobal {
    fn log(&self, address: u8) {
        self.count.fetch_add(1, Ordering::SeqCst);
        self.last.store(address, Ordering::SeqCst);
    }
}

#[test]
fn severity_rises_with_verbosity() {
    let ranks = [
        Level::Off,
        Level::Error,
        Level::Warn,
        Level::Info,
        Level::Debug,
        Level::Trace,
    ];
    for (i, level) in ranks.iter().enumerate() {
        assert_eq!(level.severity_u8() as usize, i);
    }
}

#[test]
fn max_level_defaults_per_profile() {
    let dev = FilterConfig { profile: Profile::Dev, override_level: None };
    assert_eq!(max_level(&dev), Level::Debug);
    let release = FilterConfig { profile: Profile::Release, override_level: None };
    assert_eq!(max_level(&release), Level::Info);
}

#[test]
fn max_level_override_wins() {
    let quiet = FilterConfig { profile: Profile::Dev, override_level: Some(Level::Error) };
    assert_eq!(max_level(&quiet), Level::Error);
    let loud = FilterConfig { profile: Profile::Release, override_level: Some(Level::Trace) };
    assert_eq!(max_level(&loud), Level::Trace);
}

#[test]
fn filtered_sites_never_touch_the_transport() {
    let max = max_level(&FilterConfig { profile: Profile::Release, override_level: Some(Level::Info) });
    let mut sink = ByteSink { bytes: Vec::new() };
    assert_eq!(emit(&mut sink, max, Level::Trace, 5), Ok(()));
    assert_eq!(emit(&mut sink, max, Level::Debug, 6), Ok(()));
    assert_eq!(sink.bytes.len(), 0);
    assert_eq!(emit(&mut sink, max, Level::Info, 7), Ok(()));
    assert_eq!(emit(&mut sink, max, Level::Warn, 8), Ok(()));
    assert_eq!(emit(&mut sink, max, Level::Error, 9), Ok(()));
    assert_eq!(sink.bytes, vec![7, 8, 9]);
}

#[test]
fn off_threshold_silences_everything() {
    let mut sink = ByteSink { bytes: Vec::new() };
    assert_eq!(emit(&mut sink, Level::Off, Level::Error, 1), Ok(()));
    assert_eq!(sink.bytes.len(), 0);
}

#[test]
fn transport_failure_propagates_only_from_live_sites() {
    let mut sink = FailingSink;
    assert_eq!(emit(&mut sink, Level::Info, Level::Error, 0), Err(42));
    assert_eq!(emit(&mut sink, Level::Info, Level::Trace, 0), Ok(()));
}

#[test]
fn global_slot_first_writer_wins() {
    let mut slot: GlobalSlot<TaggedGlobal> = GlobalSlot::new();
    assert!(matches!(slot.resolve(), Err(LinkError::MissingGlobalBinding)));
    assert_eq!(slot.register(TaggedGlobal(1)), Ok(()));
    assert_eq!(slot.register(TaggedGlobal(2)), Err(LinkError::DuplicateGlobalBinding));
    assert_eq!(slot.resolve().unwrap().0, 1);
}

#[test]
fn global_emit_fails_loudly_without_binding() {
    let slot: GlobalSlot<TaggedGlobal> = GlobalSlot::new();
    assert_eq!(
        slot.emit_global(Level::Info, Level::Error, 3),
        Err(LinkError::MissingGlobalBinding)
    );
    // A filtered implicit site never resolves the slot at all.
    assert_eq!(slot.emit_global(Level::Info, Level::Trace, 3), Ok(()));
}

#[test]
fn global_emit_sends_the_ordinal_once() {
    let mut slot: GlobalSlot<RecordingGlobal> = GlobalSlot::new();
    let logger = RecordingGlobal { count: AtomicUsize::new(0), last: AtomicU8::new(0) };
    assert_eq!(slot.register(logger), Ok(()));
    assert_eq!(slot.emit_global(Level::Info, Level::Trace, 9), Ok(()));
    assert_eq!(slot.resolve().unwrap().count.load(Ordering::SeqCst), 0);
    assert_eq!(slot.emit_global(Level::Info, Level::Error, 9), Ok(()));
    assert_eq!(slot.resolve().unwrap().count.load(Ordering::SeqCst), 1);
    assert_eq!(slot.resolve().unwrap().last.load(Ordering::SeqCst), 9);
}

#[test]
fn recording_sink_keeps_the_emitted_stream() {
    let mut sink = stlog::RecordingSink::new();
    assert_eq!(emit(&mut sink, Level::Debug, Level::Error, 2), Ok(()));
    assert_eq!(emit(&mut sink, Level::Debug, Level::Trace, 3), Ok(()));
    assert_eq!(emit(&mut sink, Level::Debug, Level::Debug, 4), Ok(()));
    assert_eq!(sink.bytes, vec![2, 4]);
}
