use stlog::Artifact;
use stlog::DecodeError;
use stlog::Level;
use stlog::Log;
use stlog::Registry;
use stlog::SourceLocation;
use stlog::emit;

struct CapturingSink {
    bytes: Vec<u8>,
}

impl Log for CapturingSink {
    type Error = u8;

    fn log(&mut self, address: u8) -> Result<(), u8> {
        self.bytes.push(address);
        Ok(())
    }
}

fn sample_artifact() -> Artifact {
    let mut reg = Registry::new(false);
    reg.register_call_site(Level::Error, "disk-full".to_string(), None).unwrap();
    reg.register_call_site(Level::Error, "timeout".to_string(), None).unwrap();
    reg.register_call_site(Level::Info, "boot".to_string(), None).unwrap();
    Artifact::freeze(reg, 7)
}

#[test]
fn decode_returns_the_registered_text() {
    let art = sample_artifact();
    assert_eq!(art.decode(Level::Error, 0).unwrap().text, "disk-full");
    assert_eq!(art.decode(Level::Error, 1).unwrap().text, "timeout");
    assert_eq!(art.decode(Level::Info, 0).unwrap().text, "boot");
}

#[test]
fn round_trip_holds_for_every_table_position() {
    let texts = ["first", "second", "third"];
    let levels = [Level::Error, Level::Warn, Level::Info, Level::Debug, Level::Trace];
    let mut reg = Registry::new(false);
    for level in levels {
        for text in texts {
            reg.register_call_site(level, format!("{:?}-{}", level, text), None).unwrap();
        }
    }
    let art = Artifact::freeze(reg, 3);
    for level in levels {
        assert_eq!(art.count(level), texts.len());
        for (i, text) in texts.iter().enumerate() {
            let rec = art.decode(level, i as u8).unwrap();
            assert_eq!(rec.level, level);
            assert_eq!(rec.ordinal as usize, i);
            assert_eq!(rec.text, format!("{:?}-{}", level, text));
        }
    }
}

#[test]
fn decode_rejects_out_of_range_ordinals() {
    let art = sample_artifact();
    assert!(matches!(art.decode(Level::Error, 2), Err(DecodeError::OrdinalOutOfRange)));
    assert!(matches!(art.decode(Level::Warn, 0), Err(DecodeError::OrdinalOutOfRange)));
}

#[test]
fn decode_off_level_has_no_table() {
    let art = sample_artifact();
    assert!(matches!(art.decode(Level::Off, 0), Err(DecodeError::LevelTableMissing)));
}

#[test]
fn error_table_scenario_emits_and_decodes_byte_one() {
    let mut reg = Registry::new(false);
    assert_eq!(reg.register_call_site(Level::Error, "disk-full".to_string(), None).unwrap(), 0);
    let timeout_ordinal = reg.register_call_site(Level::Error, "timeout".to_string(), None).unwrap();
    assert_eq!(timeout_ordinal, 1);
    let art = Artifact::freeze(reg, 11);

    let mut sink = CapturingSink { bytes: Vec::new() };
    assert_eq!(emit(&mut sink, Level::Info, Level::Error, timeout_ordinal), Ok(()));
    assert_eq!(sink.bytes, vec![1]);

    assert_eq!(art.decode(Level::Error, sink.bytes[0]).unwrap().text, "timeout");
}

#[test]
fn decode_stream_continues_past_a_bad_event() {
    let art = sample_artifact();
    let events = vec![(Level::Error, 9), (Level::Error, 1)];
    let lines = art.decode_stream(7, &events).unwrap();
    assert_eq!(lines.len(), 2);
    assert!(matches!(lines[0], Err(DecodeError::OrdinalOutOfRange)));
    assert_eq!(lines[1].as_ref().unwrap().text, "timeout");
}

#[test]
fn decode_stream_rejects_a_mismatched_capture() {
    let art = sample_artifact();
    let events = vec![(Level::Error, 0)];
    assert!(matches!(art.decode_stream(8, &events), Err(DecodeError::ArtifactMismatch)));
}

#[test]
fn decoded_record_carries_the_source_location() {
    let mut reg = Registry::new(true);
    let loc = SourceLocation { file: "src/io.rs".to_string(), line: 41 };
    reg.register_call_site(Level::Warn, "retrying".to_string(), Some(loc)).unwrap();
    let art = Artifact::freeze(reg, 2);
    let rec = art.decode(Level::Warn, 0).unwrap();
    let at = rec.location.unwrap();
    assert_eq!(at.file, "src/io.rs");
    assert_eq!(at.line, 41);
}
