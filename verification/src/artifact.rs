//! The frozen artifact metadata and the host-side decode contract.
//!
//! Freezing a registry ends the build: the level tables move, unchanged,
//! into the artifact's metadata region, tagged with a build identifier so a
//! capture can later be matched to the artifact that produced it. Nothing of
//! the tables exists in the running image; the decoder works entirely
//! offline, against this metadata and a captured byte stream whose levels
//! arrive out of band.

use vstd::prelude::*;
use crate::errors::DecodeError;
use crate::level::Level;
use crate::registry::Registry;
use crate::registry::table_placed;
use crate::registry::table_view;
use crate::site::CallSiteRecord;
use crate::site::RecordModel;

verus! {

/// Mathematical value of an [`Artifact`].
pub struct ArtifactModel {
    pub build_id: u64,
    pub error_sites: Seq<RecordModel>,
    pub warn_sites: Seq<RecordModel>,
    pub info_sites: Seq<RecordModel>,
    pub debug_sites: Seq<RecordModel>,
    pub trace_sites: Seq<RecordModel>,
}

impl ArtifactModel {
    /// The table owned by `level`. `Off` owns none; it reads as empty.
    pub open spec fn table(self, level: Level) -> Seq<RecordModel> {
        match level {
            Level::Off => Seq::empty(),
            Level::Error => self.error_sites,
            Level::Warn => self.warn_sites,
            Level::Info => self.info_sites,
            Level::Debug => self.debug_sites,
            Level::Trace => self.trace_sites,
        }
    }

    /// Every level's table obeys the placement discipline the decoder
    /// relies on.
    pub open spec fn wf(self) -> bool {
        forall|l: Level| table_placed(#[trigger] self.table(l), l)
    }

    /// What a decoder honoring the contract returns for one event: the
    /// record at position `ordinal` of the level's table, a missing-table
    /// rejection for the level that owns no table, and an out-of-range
    /// rejection for an ordinal at or past the table's end.
    pub open spec fn spec_decode(self, level: Level, ordinal: u8) -> Result<
        RecordModel,
        DecodeError,
    > {
        if level == Level::Off {
            Err(DecodeError::LevelTableMissing)
        } else if ordinal >= self.table(level).len() {
            Err(DecodeError::OrdinalOutOfRange)
        } else {
            Ok(self.table(level)[ordinal as int])
        }
    }
}

/// The metadata a build persists beside the running image: one ordered,
/// bounded record table per real level, and the build identifier the
/// producing build was tagged with.
#[derive(Debug)]
pub struct Artifact {
    pub(crate) build_id: u64,
    pub(crate) error_sites: Vec<CallSiteRecord>,
    pub(crate) warn_sites: Vec<CallSiteRecord>,
    pub(crate) info_sites: Vec<CallSiteRecord>,
    pub(crate) debug_sites: Vec<CallSiteRecord>,
    pub(crate) trace_sites: Vec<CallSiteRecord>,
}

impl View for Artifact {
    type V = ArtifactModel;

    open(crate) spec fn view(&self) -> ArtifactModel {
        ArtifactModel {
            build_id: self.build_id,
            error_sites: table_view(self.error_sites),
            warn_sites: table_view(self.warn_sites),
            info_sites: table_view(self.info_sites),
            debug_sites: table_view(self.debug_sites),
            trace_sites: table_view(self.trace_sites),
        }
    }
}

/// Mathematical value of one decoded line: the record, or the event-scoped
/// rejection.
pub open spec fn decoded_view(r: Result<CallSiteRecord, DecodeError>) -> Result<
    RecordModel,
    DecodeError,
> {
    match r {
        Ok(rec) => Ok(rec@),
        Err(e) => Err(e),
    }
}

impl Artifact {
    /// Freezes a finished registry into artifact metadata under the given
    /// build identifier. The tables move unchanged, so every ordinal handed
    /// out during registration stays valid against this artifact.
    pub fn freeze(registry: Registry, build_id: u64) -> (r: Artifact)
        requires
            registry@.wf(),
        ensures
            r@.wf(),
            r@.build_id == build_id,
            forall|l: Level| #[trigger] r@.table(l) == registry@.table(l),
    {
        let Registry {
            location_in_key: _,
            error_sites,
            warn_sites,
            info_sites,
            debug_sites,
            trace_sites,
        } = registry;
        let r = Artifact { build_id, error_sites, warn_sites, info_sites, debug_sites, trace_sites };
        proof {
            assert(r@.error_sites == registry@.error_sites);
            assert(r@.warn_sites == registry@.warn_sites);
            assert(r@.info_sites == registry@.info_sites);
            assert(r@.debug_sites == registry@.debug_sites);
            assert(r@.trace_sites == registry@.trace_sites);
            assert forall|l: Level| table_placed(#[trigger] r@.table(l), l) by {
                assert(crate::registry::table_wf(
                    registry@.table(l),
                    l,
                    registry@.location_in_key,
                ));
                assert(r@.table(l) == registry@.table(l));
            }
        }
        r
    }

    /// The build identifier this artifact was produced under.
    pub fn build_id(&self) -> (r: u64)
        ensures
            r == self@.build_id,
    {
        self.build_id
    }

    /// The number of records in the table of `level`.
    pub fn count(&self, level: Level) -> (r: usize)
        ensures
            r == self@.table(level).len(),
    {
        match level {
            Level::Off => 0,
            Level::Error => self.error_sites.len(),
            Level::Warn => self.warn_sites.len(),
            Level::Info => self.info_sites.len(),
            Level::Debug => self.debug_sites.len(),
            Level::Trace => self.trace_sites.len(),
        }
    }

    /// Decodes one event: returns the record the ordinal names inside the
    /// level's table, or the event's own rejection, exactly as
    /// [`ArtifactModel::spec_decode`] states.
    pub fn decode(&self, level: Level, ordinal: u8) -> (r: Result<CallSiteRecord, DecodeError>)
        ensures
            decoded_view(r) == self@.spec_decode(level, ordinal),
    {
        let table: &Vec<CallSiteRecord> = match level {
            Level::Off => {
                return Err(DecodeError::LevelTableMissing);
            },
            Level::Error => &self.error_sites,
            Level::Warn => &self.warn_sites,
            Level::Info => &self.info_sites,
            Level::Debug => &self.debug_sites,
            Level::Trace => &self.trace_sites,
        };
        if (ordinal as usize) < table.len() {
            Ok(table[ordinal as usize].clone())
        } else {
            Err(DecodeError::OrdinalOutOfRange)
        }
    }

    /// Decodes a captured stream against this artifact. A capture claiming
    /// another artifact is rejected whole; otherwise every event is decoded
    /// independently, so one rejected event never stops the events after
    /// it from being decoded.
    pub fn decode_stream(&self, claimed_build_id: u64, events: &Vec<(Level, u8)>) -> (r: Result<
        Vec<Result<CallSiteRecord, DecodeError>>,
        DecodeError,
    >)
        ensures
            claimed_build_id != self@.build_id ==> r == Err::<
                Vec<Result<CallSiteRecord, DecodeError>>,
                DecodeError,
            >(DecodeError::ArtifactMismatch),
            claimed_build_id == self@.build_id ==> (r matches Ok(lines) && lines@.len()
                == events@.len() && forall|i: int|
                0 <= i < events@.len() ==> decoded_view(#[trigger] lines@[i]) == self@.spec_decode(
                    events@[i].0,
                    events@[i].1,
                )),
    {
        if claimed_build_id != self.build_id {
            return Err(DecodeError::ArtifactMismatch);
        }
        let mut lines: Vec<Result<CallSiteRecord, DecodeError>> = Vec::new();
        let n = events.len();
        for k in 0..n
            invariant
                n == events@.len(),
                lines@.len() == k,
                forall|i: int|
                    0 <= i < k ==> decoded_view(#[trigger] lines@[i]) == self@.spec_decode(
                        events@[i].0,
                        events@[i].1,
                    ),
        {
            let (level, ordinal) = events[k];
            lines.push(self.decode(level, ordinal));
        }
        Ok(lines)
    }
}

/// Law: the encoding round-trips. In a well-formed artifact, the record at
/// position `i` of a level's table carries `i` as its ordinal, and decoding
/// that ordinal at that level returns exactly this record — in particular
/// the text the call site was registered with.
pub proof fn lemma_round_trip(art: ArtifactModel, level: Level, i: int)
    requires
        art.wf(),
        level != Level::Off,
        0 <= i < art.table(level).len(),
    ensures
        art.table(level)[i].ordinal == i,
        art.spec_decode(level, art.table(level)[i].ordinal) == Ok::<RecordModel, DecodeError>(
            art.table(level)[i],
        ),
{
    assert(table_placed(art.table(level), level));
}

} // verus!
