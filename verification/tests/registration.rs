use stlog::BuildError;
use stlog::CallSite;
use stlog::Level;
use stlog::Registry;
use stlog::SourceLocation;
use stlog::build_artifact;

#[test]
fn ordinals_follow_registration_order() {
    let mut reg = Registry::new(false);
    assert_eq!(reg.register_call_site(Level::Info, "boot".to_string(), None).unwrap(), 0);
    assert_eq!(reg.register_call_site(Level::Info, "shutdown".to_string(), None).unwrap(), 1);
    assert_eq!(reg.register_call_site(Level::Info, "suspend".to_string(), None).unwrap(), 2);
    assert_eq!(reg.count(Level::Info), 3);
    assert_eq!(reg.count(Level::Error), 0);
}

#[test]
fn duplicate_text_same_level_rejected() {
    let mut reg = Registry::new(false);
    assert_eq!(reg.register_call_site(Level::Info, "Hey!".to_string(), None).unwrap(), 0);
    let e = reg.register_call_site(Level::Info, "Hey!".to_string(), None).unwrap_err();
    assert!(matches!(
        e,
        BuildError::DuplicateCallSite { level: Level::Info, existing_ordinal: 0, .. }
    ));
    assert_eq!(reg.count(Level::Info), 1);
}

#[test]
fn same_text_in_another_level_is_distinct() {
    let mut reg = Registry::new(false);
    assert_eq!(reg.register_call_site(Level::Info, "Bye!".to_string(), None).unwrap(), 0);
    assert_eq!(reg.register_call_site(Level::Error, "Bye!".to_string(), None).unwrap(), 0);
    assert_eq!(reg.count(Level::Info), 1);
    assert_eq!(reg.count(Level::Error), 1);
}

#[test]
fn location_disambiguates_when_in_key() {
    let mut reg = Registry::new(true);
    let a = SourceLocation { file: "src/a.rs".to_string(), line: 10 };
    let b = SourceLocation { file: "src/a.rs".to_string(), line: 20 };
    assert_eq!(reg.register_call_site(Level::Info, "Hey!".to_string(), Some(a)).unwrap(), 0);
    assert_eq!(reg.register_call_site(Level::Info, "Hey!".to_string(), Some(b)).unwrap(), 1);
    let again = SourceLocation { file: "src/a.rs".to_string(), line: 10 };
    let e = reg.register_call_site(Level::Info, "Hey!".to_string(), Some(again)).unwrap_err();
    match e {
        BuildError::DuplicateCallSite { existing_ordinal, existing_location, attempted_location, .. } => {
            assert_eq!(existing_ordinal, 0);
            let existing = existing_location.unwrap();
            assert_eq!(existing.file, "src/a.rs");
            assert_eq!(existing.line, 10);
            let attempted = attempted_location.unwrap();
            assert_eq!(attempted.file, "src/a.rs");
            assert_eq!(attempted.line, 10);
        }
        other => panic!("expected a duplicate rejection, got {:?}", other),
    }
}

#[test]
fn location_ignored_when_not_in_key() {
    let mut reg = Registry::new(false);
    let a = SourceLocation { file: "src/a.rs".to_string(), line: 10 };
    let b = SourceLocation { file: "src/b.rs".to_string(), line: 99 };
    assert_eq!(reg.register_call_site(Level::Warn, "Hey!".to_string(), Some(a)).unwrap(), 0);
    let e = reg.register_call_site(Level::Warn, "Hey!".to_string(), Some(b)).unwrap_err();
    assert!(matches!(e, BuildError::DuplicateCallSite { level: Level::Warn, .. }));
}

#[test]
fn capacity_is_256_distinct_sites_per_level() {
    let mut reg = Registry::new(false);
    for i in 0..256u32 {
        let ordinal = reg.register_call_site(Level::Debug, format!("msg-{}", i), None).unwrap();
        assert_eq!(ordinal as u32, i);
    }
    assert_eq!(reg.count(Level::Debug), 256);
    let e = reg.register_call_site(Level::Debug, "msg-256".to_string(), None).unwrap_err();
    assert!(matches!(e, BuildError::TableOverflow { level: Level::Debug }));
    assert_eq!(reg.count(Level::Debug), 256);
    // A full table at one level does not crowd out another level.
    assert_eq!(reg.register_call_site(Level::Trace, "msg-0".to_string(), None).unwrap(), 0);
}

#[test]
fn duplicate_checked_before_capacity() {
    let mut reg = Registry::new(false);
    for i in 0..256u32 {
        reg.register_call_site(Level::Trace, format!("msg-{}", i), None).unwrap();
    }
    let e = reg.register_call_site(Level::Trace, "msg-0".to_string(), None).unwrap_err();
    assert!(matches!(e, BuildError::DuplicateCallSite { .. }));
}

#[test]
fn build_artifact_assigns_positions_in_source_order() {
    let sites = vec![
        CallSite { level: Level::Error, text: "disk-full".to_string(), location: None },
        CallSite { level: Level::Info, text: "boot".to_string(), location: None },
        CallSite { level: Level::Error, text: "timeout".to_string(), location: None },
    ];
    let art = build_artifact(false, 7, &sites).unwrap();
    assert_eq!(art.build_id(), 7);
    assert_eq!(art.count(Level::Error), 2);
    assert_eq!(art.count(Level::Info), 1);
    assert_eq!(art.decode(Level::Error, 0).unwrap().text, "disk-full");
    assert_eq!(art.decode(Level::Error, 1).unwrap().text, "timeout");
    assert_eq!(art.decode(Level::Info, 0).unwrap().text, "boot");
}

#[test]
fn build_artifact_fails_fast_on_first_rejection() {
    let sites = vec![
        CallSite { level: Level::Warn, text: "low-battery".to_string(), location: None },
        CallSite { level: Level::Warn, text: "low-battery".to_string(), location: None },
        CallSite { level: Level::Warn, text: "after".to_string(), location: None },
    ];
    let e = build_artifact(false, 1, &sites).unwrap_err();
    assert!(matches!(
        e,
        BuildError::DuplicateCallSite { level: Level::Warn, existing_ordinal: 0, .. }
    ));
}
