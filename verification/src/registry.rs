//! The build-time registration pass.
//!
//! Pass one of the build collects every logging invocation in source order;
//! pass two walks them through [`Registry::register_call_site`], which hands
//! each one the next position of its level's table as its ordinal. The pass
//! fails fast: a key already present in the level's table, or a table at
//! capacity, rejects the build, and nothing runs at device run time.

use vstd::prelude::*;
use crate::errors::BuildError;
use crate::errors::BuildErrorModel;
use crate::level::Level;
use crate::site::CallSiteModel;
use crate::site::CallSiteRecord;
use crate::site::LocationModel;
use crate::site::RecordModel;
use crate::site::SourceLocation;
use crate::site::key_matches;
use crate::site::location_view;
use crate::site::same_key;

verus! {

/// The most records one level table can hold: the wire payload is a single
/// byte, so only this many ordinals exist.
pub const TABLE_CAPACITY: usize = 256;

/// Mathematical value of one level table.
pub open spec fn table_view(v: Vec<CallSiteRecord>) -> Seq<RecordModel> {
    v@.map_values(|r: CallSiteRecord| r@)
}

/// Placement discipline of one level table: it fits the one-byte address
/// space, and every record carries the table's level and its own position
/// as ordinal. This alone is what the decoder relies on.
pub open spec fn table_placed(t: Seq<RecordModel>, level: Level) -> bool {
    &&& t.len() <= TABLE_CAPACITY
    &&& forall|i: int|
        0 <= i < t.len() ==> (#[trigger] t[i]).level == level && t[i].ordinal == i
}

/// Well-formedness of one level table under a key configuration: it is
/// placed as [`table_placed`] asks, and no two records share a key.
pub open spec fn table_wf(t: Seq<RecordModel>, level: Level, location_in_key: bool) -> bool {
    &&& table_placed(t, level)
    &&& forall|i: int, j: int|
        0 <= i < t.len() && 0 <= j < t.len() && i != j ==> !same_key(
            location_in_key,
            #[trigger] t[i],
            (#[trigger] t[j]).text,
            t[j].location,
        )
}

/// Mathematical value of a [`Registry`].
pub struct RegistryModel {
    pub location_in_key: bool,
    pub error_sites: Seq<RecordModel>,
    pub warn_sites: Seq<RecordModel>,
    pub info_sites: Seq<RecordModel>,
    pub debug_sites: Seq<RecordModel>,
    pub trace_sites: Seq<RecordModel>,
}

impl RegistryModel {
    /// The table owned by `level`. `Off` owns none; it reads as empty.
    pub open spec fn table(self, level: Level) -> Seq<RecordModel> {
        match level {
            Level::Off => Seq::empty(),
            Level::Error => self.error_sites,
            Level::Warn => self.warn_sites,
            Level::Info => self.info_sites,
            Level::Debug => self.debug_sites,
            Level::Trace => self.trace_sites,
        }
    }

    /// Every level's table is well formed.
    pub open spec fn wf(self) -> bool {
        forall|l: Level| table_wf(#[trigger] self.table(l), l, self.location_in_key)
    }

    /// Whether the table of `level` already holds a record with the key of
    /// a prospective call site.
    pub open spec fn has_duplicate(
        self,
        level: Level,
        text: Seq<char>,
        location: Option<LocationModel>,
    ) -> bool {
        exists|i: int|
            0 <= i < self.table(level).len() && same_key(
                self.location_in_key,
                #[trigger] self.table(level)[i],
                text,
                location,
            )
    }

    /// The registry before anything was registered.
    pub open spec fn empty(location_in_key: bool) -> RegistryModel {
        RegistryModel {
            location_in_key,
            error_sites: Seq::empty(),
            warn_sites: Seq::empty(),
            info_sites: Seq::empty(),
            debug_sites: Seq::empty(),
            trace_sites: Seq::empty(),
        }
    }

    /// The registry with `site` appended to its level's table, at the next
    /// ordinal.
    pub open spec fn append(self, site: CallSiteModel) -> RegistryModel
        recommends
            site.level != Level::Off,
    {
        let rec = RecordModel {
            level: site.level,
            text: site.text,
            ordinal: self.table(site.level).len() as u8,
            location: site.location,
        };
        match site.level {
            Level::Off => self,
            Level::Error => RegistryModel { error_sites: self.error_sites.push(rec), ..self },
            Level::Warn => RegistryModel { warn_sites: self.warn_sites.push(rec), ..self },
            Level::Info => RegistryModel { info_sites: self.info_sites.push(rec), ..self },
            Level::Debug => RegistryModel { debug_sites: self.debug_sites.push(rec), ..self },
            Level::Trace => RegistryModel { trace_sites: self.trace_sites.push(rec), ..self },
        }
    }

    /// One step of the registration pass, as a mathematical function: a key
    /// the level's table already holds is rejected, naming both parties;
    /// then a table at capacity is rejected; otherwise the site is appended
    /// and its position comes back as its ordinal.
    pub open spec fn spec_register(self, site: CallSiteModel) -> Result<
        (RegistryModel, u8),
        BuildErrorModel,
    >
        recommends
            site.level != Level::Off,
    {
        let t = self.table(site.level);
        if self.has_duplicate(site.level, site.text, site.location) {
            let i = choose|i: int|
                0 <= i < t.len() && same_key(self.location_in_key, t[i], site.text, site.location);
            Err(
                BuildErrorModel::DuplicateCallSite {
                    level: site.level,
                    existing_ordinal: t[i].ordinal,
                    existing_location: t[i].location,
                    attempted_location: site.location,
                },
            )
        } else if t.len() >= TABLE_CAPACITY {
            Err(BuildErrorModel::TableOverflow { level: site.level })
        } else {
            Ok((self.append(site), t.len() as u8))
        }
    }
}

/// The whole registration pass, as a mathematical function: the sites are
/// registered in source order, and the first rejection fails the build with
/// that rejection's error.
pub open spec fn spec_build(m: RegistryModel, sites: Seq<CallSiteModel>) -> Result<
    RegistryModel,
    BuildErrorModel,
>
    decreases sites.len(),
{
    if sites.len() == 0 {
        Ok(m)
    } else {
        match m.spec_register(sites[0]) {
            Ok((m2, ordinal)) => spec_build(m2, sites.skip(1)),
            Err(e) => Err(e),
        }
    }
}

/// Law: a duplicate never registers. Whenever a level's table already
/// holds the prospective site's disambiguation key, the registration step
/// rejects the build with a duplicate-call-site error at that level, and
/// with either key configuration.
pub proof fn lemma_duplicate_rejected(m: RegistryModel, site: CallSiteModel)
    requires
        m.has_duplicate(site.level, site.text, site.location),
    ensures
        m.spec_register(site) matches Err(e) && e matches BuildErrorModel::DuplicateCallSite {
            level,
            ..
        } && level == site.level,
{
}

/// Law: a level's table never outgrows the one-byte address space. A
/// distinct site offered to a table already holding the full complement
/// of records is rejected with a table-overflow error at that level.
pub proof fn lemma_capacity_rejected(m: RegistryModel, site: CallSiteModel)
    requires
        !m.has_duplicate(site.level, site.text, site.location),
        m.table(site.level).len() >= TABLE_CAPACITY,
    ensures
        m.spec_register(site) == Err::<(RegistryModel, u8), BuildErrorModel>(
            BuildErrorModel::TableOverflow { level: site.level },
        ),
{
}

/// Law: registration is append-only, so ordinals are stable. A successful
/// registration hands out the next free position of the site's level as
/// the ordinal, places there a record carrying exactly the site's text and
/// location, and leaves every record already in any level's table at its
/// place — whichever levels are later compiled active.
pub proof fn lemma_register_round_trip(m: RegistryModel, site: CallSiteModel)
    requires
        m.wf(),
        site.level != Level::Off,
        m.spec_register(site) is Ok,
    ensures
        ({
            let (m2, ordinal) = m.spec_register(site)->Ok_0;
            &&& ordinal == m.table(site.level).len()
            &&& m2.table(site.level).len() == m.table(site.level).len() + 1
            &&& m2.table(site.level)[ordinal as int] == (RecordModel {
                level: site.level,
                text: site.text,
                ordinal,
                location: site.location,
            })
            &&& forall|l: Level, j: int|
                0 <= j < m.table(l).len() ==> #[trigger] m2.table(l)[j] == m.table(l)[j]
        }),
{
    let (m2, ordinal) = m.spec_register(site)->Ok_0;
    assert forall|l: Level, j: int|
        0 <= j < m.table(l).len() implies #[trigger] m2.table(l)[j] == m.table(l)[j] by {
        if l != site.level {
            assert(m2.table(l) == m.table(l));
        }
    }
}

/// Law: a level table's keys are pairwise distinct, so at most one record
/// can collide with a prospective call site — the one the duplicate
/// rejection names.
pub proof fn lemma_key_unique(
    location_in_key: bool,
    t: Seq<RecordModel>,
    level: Level,
    text: Seq<char>,
    location: Option<LocationModel>,
    i: int,
    j: int,
)
    requires
        table_wf(t, level, location_in_key),
        0 <= i < t.len(),
        0 <= j < t.len(),
        same_key(location_in_key, t[i], text, location),
        same_key(location_in_key, t[j], text, location),
    ensures
        i == j,
{
    if i != j {
        assert(same_key(location_in_key, t[i], t[j].text, t[j].location));
        assert(false);
    }
}

/// The registrar's state between registrations: one ordered table per real
/// level, plus the key configuration chosen for the build.
pub struct Registry {
    pub(crate) location_in_key: bool,
    pub(crate) error_sites: Vec<CallSiteRecord>,
    pub(crate) warn_sites: Vec<CallSiteRecord>,
    pub(crate) info_sites: Vec<CallSiteRecord>,
    pub(crate) debug_sites: Vec<CallSiteRecord>,
    pub(crate) trace_sites: Vec<CallSiteRecord>,
}

impl View for Registry {
    type V = RegistryModel;

    open(crate) spec fn view(&self) -> RegistryModel {
        RegistryModel {
            location_in_key: self.location_in_key,
            error_sites: table_view(self.error_sites),
            warn_sites: table_view(self.warn_sites),
            info_sites: table_view(self.info_sites),
            debug_sites: table_view(self.debug_sites),
            trace_sites: table_view(self.trace_sites),
        }
    }
}

/// Copies an optional source location by value.
pub(crate) fn clone_location(loc: &Option<SourceLocation>) -> (r: Option<SourceLocation>)
    ensures
        location_view(r) == location_view(*loc),
{
    match loc {
        Some(l) => Some(l.clone()),
        None => None,
    }
}

/// Registers one call site into one level table: rejects a duplicate key,
/// then a full table, and otherwise appends the record at the next ordinal.
fn register_in_table(
    table: &mut Vec<CallSiteRecord>,
    level: Level,
    text: String,
    location: Option<SourceLocation>,
    location_in_key: bool,
) -> (r: Result<u8, BuildError>)
    requires
        table_wf(table_view(*old(table)), level, location_in_key),
    ensures
        table_wf(table_view(*final(table)), level, location_in_key),
        ({
            let t = table_view(*old(table));
            let key_loc = location_view(location);
            if exists|i: int|
                0 <= i < t.len() && same_key(location_in_key, #[trigger] t[i], text@, key_loc) {
                &&& table_view(*final(table)) == t
                &&& r matches Err(e) && e@ matches BuildErrorModel::DuplicateCallSite {
                    level: el,
                    existing_ordinal,
                    existing_location,
                    attempted_location,
                } && el == level && 0 <= existing_ordinal < t.len() && same_key(
                    location_in_key,
                    t[existing_ordinal as int],
                    text@,
                    key_loc,
                ) && existing_location == t[existing_ordinal as int].location
                    && attempted_location == key_loc
            } else if t.len() == TABLE_CAPACITY {
                &&& table_view(*final(table)) == t
                &&& r matches Err(e) && e@ == (BuildErrorModel::TableOverflow { level })
            } else {
                &&& r == Ok::<u8, BuildError>(t.len() as u8)
                &&& table_view(*final(table)) == t.push(
                    RecordModel {
                        level,
                        text: text@,
                        ordinal: t.len() as u8,
                        location: key_loc,
                    },
                )
            }
        }),
{
    let ghost t = table_view(*table);
    let ghost key_loc = location_view(location);
    let n = table.len();
    for i in 0..n
        invariant
            n == table.len(),
            table_wf(t, level, location_in_key),
            t == table_view(*table),
            key_loc == location_view(location),
            forall|k: int|
                0 <= k < i ==> !same_key(location_in_key, #[trigger] t[k], text@, key_loc),
    {
        if key_matches(location_in_key, &table[i], &text, &location) {
            proof {
                assert(same_key(location_in_key, t[i as int], text@, key_loc));
                assert(t[i as int].ordinal == i);
            }
            return Err(
                BuildError::DuplicateCallSite {
                    level,
                    existing_ordinal: table[i].ordinal,
                    existing_location: clone_location(&table[i].location),
                    attempted_location: location,
                },
            );
        }
    }
    if n == TABLE_CAPACITY {
        return Err(BuildError::TableOverflow { level });
    }
    let ordinal: u8 = n as u8;
    let record = CallSiteRecord { level, text, ordinal, location };
    table.push(record);
    proof {
        assert(table_view(*table) =~= t.push(
            RecordModel { level, text: text@, ordinal: n as u8, location: key_loc },
        ));
    }
    Ok(ordinal)
}

impl Registry {
    /// An empty registry. `location_in_key` chooses the disambiguation key:
    /// text alone, or text plus source location.
    pub fn new(location_in_key: bool) -> (r: Registry)
        ensures
            r@.wf(),
            r@ == RegistryModel::empty(location_in_key),
    {
        let r = Registry {
            location_in_key,
            error_sites: Vec::new(),
            warn_sites: Vec::new(),
            info_sites: Vec::new(),
            debug_sites: Vec::new(),
            trace_sites: Vec::new(),
        };
        proof {
            assert(r@.error_sites =~= Seq::<RecordModel>::empty());
            assert(r@.warn_sites =~= Seq::<RecordModel>::empty());
            assert(r@.info_sites =~= Seq::<RecordModel>::empty());
            assert(r@.debug_sites =~= Seq::<RecordModel>::empty());
            assert(r@.trace_sites =~= Seq::<RecordModel>::empty());
        }
        r
    }

    /// The number of call sites registered so far at `level`.
    pub fn count(&self, level: Level) -> (r: usize)
        ensures
            r == self@.table(level).len(),
    {
        match level {
            Level::Off => 0,
            Level::Error => self.error_sites.len(),
            Level::Warn => self.warn_sites.len(),
            Level::Info => self.info_sites.len(),
            Level::Debug => self.debug_sites.len(),
            Level::Trace => self.trace_sites.len(),
        }
    }

    /// Registers one call site and returns its ordinal: the position the
    /// record takes in its level's table. Rejects, in this order, a key the
    /// table already holds (naming both parties) and a table at capacity;
    /// a rejection leaves the registry unchanged.
    pub fn register_call_site(
        &mut self,
        level: Level,
        text: String,
        location: Option<SourceLocation>,
    ) -> (r: Result<u8, BuildError>)
        requires
            old(self)@.wf(),
            level != Level::Off,
        ensures
            final(self)@.wf(),
            ({
                let site = CallSiteModel { level, text: text@, location: location_view(location) };
                match old(self)@.spec_register(site) {
                    Ok((m2, ordinal)) => r == Ok::<u8, BuildError>(ordinal) && final(self)@ == m2,
                    Err(e) => (r matches Err(err) && err@ == e) && final(self)@ == old(self)@,
                }
            }),
    {
        let location_in_key = self.location_in_key;
        let r = match level {
            Level::Off => vstd::pervasive::unreached(),
            Level::Error => register_in_table(
                &mut self.error_sites,
                level,
                text,
                location,
                location_in_key,
            ),
            Level::Warn => register_in_table(
                &mut self.warn_sites,
                level,
                text,
                location,
                location_in_key,
            ),
            Level::Info => register_in_table(
                &mut self.info_sites,
                level,
                text,
                location,
                location_in_key,
            ),
            Level::Debug => register_in_table(
                &mut self.debug_sites,
                level,
                text,
                location,
                location_in_key,
            ),
            Level::Trace => register_in_table(
                &mut self.trace_sites,
                level,
                text,
                location,
                location_in_key,
            ),
        };
        proof {
            let site = CallSiteModel { level, text: text@, location: location_view(location) };
            let m = old(self)@;
            let t = m.table(level);
            let lik = m.location_in_key;
            assert forall|l: Level|
                table_wf(#[trigger] self@.table(l), l, self@.location_in_key) by {
                if l != level {
                    assert(self@.table(l) == m.table(l));
                }
            }
            // The helper speaks of collisions inside `t`; the model step
            // speaks through `has_duplicate`. Transfer witnesses both ways.
            if m.has_duplicate(level, site.text, site.location) {
                let iw = choose|i: int|
                    0 <= i < m.table(level).len() && same_key(
                        lik,
                        m.table(level)[i],
                        site.text,
                        site.location,
                    );
                assert(same_key(lik, t[iw], text@, location_view(location)));
                assert(r is Err);
                let ev = r->Err_0@;
                let ic = choose|i: int|
                    0 <= i < t.len() && same_key(lik, t[i], site.text, site.location);
                assert(same_key(lik, t[ic], text@, location_view(location)));
                let eo = ev->DuplicateCallSite_existing_ordinal;
                lemma_key_unique(lik, t, level, site.text, site.location, eo as int, ic);
                assert(ev == (BuildErrorModel::DuplicateCallSite {
                    level: site.level,
                    existing_ordinal: t[ic].ordinal,
                    existing_location: t[ic].location,
                    attempted_location: site.location,
                }));
            } else if t.len() >= TABLE_CAPACITY {
                assert(r is Err);
            } else {
                if exists|i: int|
                    0 <= i < t.len() && same_key(lik, #[trigger] t[i], text@, location_view(location)) {
                    let iw = choose|i: int|
                        0 <= i < t.len() && same_key(
                            lik,
                            #[trigger] t[i],
                            text@,
                            location_view(location),
                        );
                    assert(same_key(lik, m.table(level)[iw], site.text, site.location));
                    assert(false);
                }
                assert forall|l: Level| #[trigger] self@.table(l) == m.append(site).table(l) by {}
                assert(self@.error_sites == self@.table(Level::Error));
                assert(self@.warn_sites == self@.table(Level::Warn));
                assert(self@.info_sites == self@.table(Level::Info));
                assert(self@.debug_sites == self@.table(Level::Debug));
                assert(self@.trace_sites == self@.table(Level::Trace));
                assert(self@ == m.append(site));
            }
        }
        r
    }
}

} // verus!
