//! Call-site records and their disambiguation keys.
//!
//! A call site is a single logging invocation: a fixed literal message at one
//! severity level, optionally tagged with the source location it came from.
//! Within one level, records are identified by a disambiguation key — the
//! text alone, or the text plus the location when location capture is turned
//! on — and no two records of a level may share a key.

use vstd::prelude::*;

verus! {

/// A source position: file path and one-based line number.
#[derive(Debug)]
pub struct SourceLocation {
    pub file: String,
    pub line: u64,
}

/// Mathematical value of a [`SourceLocation`].
pub struct LocationModel {
    pub file: Seq<char>,
    pub line: u64,
}

impl View for SourceLocation {
    type V = LocationModel;

    open spec fn view(&self) -> LocationModel {
        LocationModel { file: self.file@, line: self.line }
    }
}

impl Clone for SourceLocation {
    fn clone(&self) -> (r: Self)
        ensures
            r@ == self@,
    {
        SourceLocation { file: self.file.clone(), line: self.line }
    }
}

/// One level table entry: the literal message, the position the entry holds
/// in its level's table, and the optional source location.
#[derive(Debug)]
pub struct CallSiteRecord {
    pub level: crate::level::Level,
    pub text: String,
    pub ordinal: u8,
    pub location: Option<SourceLocation>,
}

/// Mathematical value of a [`CallSiteRecord`].
pub struct RecordModel {
    pub level: crate::level::Level,
    pub text: Seq<char>,
    pub ordinal: u8,
    pub location: Option<LocationModel>,
}

/// Mathematical value of an optional source location.
pub open spec fn location_view(loc: Option<SourceLocation>) -> Option<LocationModel> {
    match loc {
        Some(l) => Some(l@),
        None => None,
    }
}

impl View for CallSiteRecord {
    type V = RecordModel;

    open spec fn view(&self) -> RecordModel {
        RecordModel {
            level: self.level,
            text: self.text@,
            ordinal: self.ordinal,
            location: location_view(self.location),
        }
    }
}

impl Clone for CallSiteRecord {
    fn clone(&self) -> (r: Self)
        ensures
            r@ == self@,
    {
        CallSiteRecord {
            level: self.level,
            text: self.text.clone(),
            ordinal: self.ordinal,
            location: match &self.location {
                Some(l) => Some(l.clone()),
                None => None,
            },
        }
    }
}

/// A logging invocation as pass one of the build collects it, in source
/// order, before any ordinal exists: the level, the literal message, and
/// the optional source location.
#[derive(Debug)]
pub struct CallSite {
    pub level: crate::level::Level,
    pub text: String,
    pub location: Option<SourceLocation>,
}

/// Mathematical value of a [`CallSite`].
pub struct CallSiteModel {
    pub level: crate::level::Level,
    pub text: Seq<char>,
    pub location: Option<LocationModel>,
}

impl View for CallSite {
    type V = CallSiteModel;

    open spec fn view(&self) -> CallSiteModel {
        CallSiteModel {
            level: self.level,
            text: self.text@,
            location: location_view(self.location),
        }
    }
}

/// The disambiguation key of a prospective call site, compared against an
/// existing record: the text matches, and, when location capture is part of
/// the key, the location matches too.
pub open spec fn same_key(
    location_in_key: bool,
    existing: RecordModel,
    text: Seq<char>,
    location: Option<LocationModel>,
) -> bool {
    &&& existing.text == text
    &&& (location_in_key ==> existing.location == location)
}

/// Compares two optional source locations by value.
pub fn locations_equal(a: &Option<SourceLocation>, b: &Option<SourceLocation>) -> (r: bool)
    ensures
        r == (location_view(*a) == location_view(*b)),
{
    match (a, b) {
        (Some(x), Some(y)) => {
            let same = x.file == y.file && x.line == y.line;
            proof {
                if same {
                    assert(x@ == y@);
                }
            }
            same
        },
        (None, None) => true,
        _ => false,
    }
}

/// Decides whether `existing` collides with a prospective call site of the
/// given text and location under the configured key.
pub fn key_matches(
    location_in_key: bool,
    existing: &CallSiteRecord,
    text: &String,
    location: &Option<SourceLocation>,
) -> (r: bool)
    ensures
        r == same_key(location_in_key, existing@, text@, location_view(*location)),
{
    if existing.text == *text {
        if location_in_key {
            locations_equal(&existing.location, location)
        } else {
            true
        }
    } else {
        false
    }
}

} // verus!
