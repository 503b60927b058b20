//! The build driver: from collected call sites to a frozen artifact.
//!
//! Pass one of the build walks the sources and collects every logging
//! invocation, in source order, as a [`CallSite`]. This driver is pass two:
//! it feeds them, in that order, through the registry, so each one's
//! ordinal is its position in its level's table, and freezes the result
//! into artifact metadata. The pass fails fast on the first rejection —
//! a duplicate key or a full table — and produces no artifact then.

use vstd::prelude::*;
use crate::artifact::Artifact;
use crate::errors::BuildError;
use crate::errors::BuildErrorModel;
use crate::level::Level;
use crate::registry::Registry;
use crate::registry::RegistryModel;
use crate::registry::clone_location;
use crate::registry::spec_build;
use crate::site::CallSite;
use crate::site::CallSiteModel;

verus! {

/// The collected call sites that belong to `level`, in source order: the
/// i-th of them is the i-th call site registered at that level.
pub open spec fn sites_at(sites: Seq<CallSiteModel>, level: Level) -> Seq<CallSiteModel> {
    sites.filter(|s: CallSiteModel| s.level == level)
}

/// Registers every collected call site, in source order, and freezes the
/// tables under `build_id`. Returns the artifact exactly when the whole
/// pass succeeds, and the first rejection's error otherwise — matching
/// [`spec_build`] from the empty registry, step by step.
pub fn build_artifact(location_in_key: bool, build_id: u64, sites: &Vec<CallSite>) -> (r: Result<
    Artifact,
    BuildError,
>)
    requires
        forall|i: int| 0 <= i < sites@.len() ==> (#[trigger] sites@[i]).level != Level::Off,
    ensures
        ({
            let models = sites@.map_values(|s: CallSite| s@);
            match spec_build(RegistryModel::empty(location_in_key), models) {
                Ok(m) => r matches Ok(art) && art@.wf() && art@.build_id == build_id
                    && forall|l: Level| #[trigger] art@.table(l) == m.table(l),
                Err(e) => r matches Err(err) && err@ == e,
            }
        }),
{
    let ghost models = sites@.map_values(|s: CallSite| s@);
    let ghost init = RegistryModel::empty(location_in_key);
    let mut registry = Registry::new(location_in_key);
    proof {
        assert(models.skip(0) =~= models);
    }
    let n = sites.len();
    for k in 0..n
        invariant
            n == sites@.len(),
            models == sites@.map_values(|s: CallSite| s@),
            init == RegistryModel::empty(location_in_key),
            forall|i: int| 0 <= i < sites@.len() ==> (#[trigger] sites@[i]).level != Level::Off,
            registry@.wf(),
            spec_build(init, models) == spec_build(registry@, models.skip(k as int)),
    {
        let site = &sites[k];
        let text = site.text.clone();
        let location = clone_location(&site.location);
        let ghost prev = registry@;
        let ghost suffix = models.skip(k as int);
        proof {
            assert(models[k as int] == sites@[k as int]@);
            assert(suffix[0] == models[k as int]);
            assert(suffix.skip(1) =~= models.skip(k as int + 1));
        }
        match registry.register_call_site(site.level, text, location) {
            Ok(_) => {
                proof {
                    let site_model = CallSiteModel {
                        level: site.level,
                        text: text@,
                        location: crate::site::location_view(location),
                    };
                    assert(site_model == models[k as int]);
                    assert(spec_build(prev, suffix) == spec_build(
                        registry@,
                        models.skip(k as int + 1),
                    ));
                }
            },
            Err(e) => {
                proof {
                    let site_model = CallSiteModel {
                        level: site.level,
                        text: text@,
                        location: crate::site::location_view(location),
                    };
                    assert(site_model == models[k as int]);
                    assert(spec_build(init, models) == Err::<RegistryModel, crate::errors::BuildErrorModel>(e@));
                }
                return Err(e);
            },
        }
    }
    proof {
        assert(models.skip(n as int) =~= Seq::<CallSiteModel>::empty());
        assert(spec_build(init, models) == Ok::<RegistryModel, crate::errors::BuildErrorModel>(registry@));
    }
    Ok(Artifact::freeze(registry, build_id))
}

/// The registration pass handles one site at a time: running it over a
/// sequence extended by one more site is running it over the sequence and
/// then registering the extra site.
proof fn lemma_spec_build_snoc(m0: RegistryModel, sites: Seq<CallSiteModel>, x: CallSiteModel)
    ensures
        spec_build(m0, sites.push(x)) == (match spec_build(m0, sites) {
            Ok(mm) => match mm.spec_register(x) {
                Ok((m2, ordinal)) => Ok::<RegistryModel, BuildErrorModel>(m2),
                Err(e) => Err::<RegistryModel, BuildErrorModel>(e),
            },
            Err(e) => Err::<RegistryModel, BuildErrorModel>(e),
        }),
    decreases sites.len(),
{
    if sites.len() == 0 {
        assert(sites.push(x)[0] == x);
        assert(sites.push(x).skip(1) =~= Seq::<CallSiteModel>::empty());
        assert(spec_build(m0, sites) == Ok::<RegistryModel, BuildErrorModel>(m0));
        match m0.spec_register(x) {
            Ok((m2, ordinal)) => {
                assert(spec_build(m2, sites.push(x).skip(1)) == Ok::<
                    RegistryModel,
                    BuildErrorModel,
                >(m2));
            },
            Err(e) => {},
        }
    } else {
        assert(sites.push(x)[0] == sites[0]);
        assert(sites.push(x).skip(1) =~= sites.skip(1).push(x));
        match m0.spec_register(sites[0]) {
            Ok((m2, ordinal)) => {
                lemma_spec_build_snoc(m2, sites.skip(1), x);
            },
            Err(e) => {},
        }
    }
}

/// A successful registration pass appends to each level's table exactly
/// the sites collected at that level, in source order, after whatever the
/// table already held.
proof fn lemma_build_appends(
    m0: RegistryModel,
    sites: Seq<CallSiteModel>,
    m: RegistryModel,
    level: Level,
)
    requires
        spec_build(m0, sites) == Ok::<RegistryModel, BuildErrorModel>(m),
        forall|i: int| 0 <= i < sites.len() ==> (#[trigger] sites[i]).level != Level::Off,
        level != Level::Off,
    ensures
        ({
            let picked = sites_at(sites, level);
            &&& m.table(level).len() == m0.table(level).len() + picked.len()
            &&& forall|j: int|
                0 <= j < m0.table(level).len() ==> #[trigger] m.table(level)[j] == m0.table(
                    level,
                )[j]
            &&& forall|j: int|
                0 <= j < picked.len() ==> {
                    let rec = #[trigger] m.table(level)[m0.table(level).len() + j];
                    &&& rec.level == level
                    &&& rec.ordinal == m0.table(level).len() + j
                    &&& rec.text == picked[j].text
                    &&& rec.location == picked[j].location
                }
        }),
    decreases sites.len(),
{
    reveal(Seq::filter);
    if sites.len() == 0 {
        assert(sites_at(sites, level).len() == 0);
    } else {
        let prefix = sites.drop_last();
        let x = sites.last();
        assert(prefix.push(x) =~= sites);
        lemma_spec_build_snoc(m0, prefix, x);
        match spec_build(m0, prefix) {
            Ok(mm) => {
                assert(forall|i: int|
                    0 <= i < prefix.len() ==> (#[trigger] prefix[i]).level != Level::Off);
                lemma_build_appends(m0, prefix, mm, level);
                assert(x == sites[sites.len() - 1]);
                assert(x.level != Level::Off);
                if x.level == level {
                    assert(sites_at(sites, level) == sites_at(prefix, level).push(x));
                    assert(mm.table(level).len() < m.table(level).len());
                } else {
                    assert(sites_at(sites, level) == sites_at(prefix, level));
                    assert(m.table(level) == mm.table(level));
                }
            },
            Err(e) => {
                assert(false);
            },
        }
    }
}

/// Law: the whole encoding round-trips through a build. When the
/// registration pass succeeds, each level's table lists, in source order,
/// exactly the call sites collected at that level: the i-th of them sits
/// at position i, carries ordinal i, and keeps its text and location — so
/// decoding (level, i) against the frozen tables returns its text.
pub proof fn lemma_build_round_trip(
    location_in_key: bool,
    sites: Seq<CallSiteModel>,
    m: RegistryModel,
    level: Level,
    i: int,
)
    requires
        spec_build(RegistryModel::empty(location_in_key), sites) == Ok::<
            RegistryModel,
            BuildErrorModel,
        >(m),
        forall|k: int| 0 <= k < sites.len() ==> (#[trigger] sites[k]).level != Level::Off,
        level != Level::Off,
        0 <= i < sites_at(sites, level).len(),
    ensures
        m.table(level).len() == sites_at(sites, level).len(),
        m.table(level)[i].ordinal == i,
        m.table(level)[i].text == sites_at(sites, level)[i].text,
        m.table(level)[i].location == sites_at(sites, level)[i].location,
{
    let init = RegistryModel::empty(location_in_key);
    lemma_build_appends(init, sites, m, level);
    assert(init.table(level).len() == 0);
    assert(({
        let rec = m.table(level)[init.table(level).len() + i];
        rec.ordinal == i && rec.text == sites_at(sites, level)[i].text && rec.location
            == sites_at(sites, level)[i].location
    }));
}

} // verus!
