//! Reproduction: the satiety-triggered spawn of offspring.
//!
//! Whenever an agent's satiety exceeds the threshold it reproduces exactly
//! once that tick: satiety is debited by exactly 1.0 (always leaving it
//! positive), a new controller key is requested as offspring of the
//! parent's, the child is assigned a species, and the species' visual
//! resource is created lazily on first use. The spawn position — the
//! parent's, offset behind it — is geometry for the physics collaborator.

use vstd::prelude::*;

use rusty_neat::NeatContinous;

use crate::population::{offspring, pop_fitness_ok, pop_keys, pop_wf, species_assign};
use crate::sectarii::Sectarian;
use crate::species::SpeciesRegistry;
use crate::vitals::{Vitals, VITAL_BOUND};

verus! {

/// An agent reproduces when satiety exceeds 1.75.
pub const REPRO_THRESHOLD: i64 = 3_024_000;

/// Reproducing costs exactly 1.0 satiety.
pub const REPRO_COST: i64 = 1_728_000;

/// Offspring spawn 128 world units from the parent, in fixed-point units.
pub const SPAWN_DISTANCE: i64 = 221_184_000;

/// One offspring to be spawned: which agent bred, and the controller key
/// and species the Controller Population assigned to the child.
#[derive(Clone, Copy, PartialEq, Eq, Structural, Debug)]
pub struct Birth {
    pub parent_index: usize,
    pub parent_id: u64,
    pub key: usize,
    pub species: usize,
}

/// How an agent's satiety leaves the reproduction check: debited by the
/// cost exactly when it exceeded the threshold.
pub open spec fn satiety_after_repro(s: int) -> int {
    if s > REPRO_THRESHOLD {
        s - REPRO_COST
    } else {
        s
    }
}

/// How many of the first `n` agents breed this tick.
pub open spec fn count_breeders(s: Seq<Sectarian>, n: int) -> int
    decreases n,
{
    if n <= 0 {
        0
    } else {
        count_breeders(s, n - 1) + if s[n - 1].vitals.satiety > REPRO_THRESHOLD {
            1int
        } else {
            0int
        }
    }
}

/// Run the reproduction check over every agent, in order. Each agent
/// whose satiety exceeds the threshold breeds exactly once: its satiety
/// is debited by exactly the cost, a fresh controller key is requested as
/// offspring of its own, the child is assigned a species, and that
/// species' visual resource entry is created if it is seen for the first
/// time. No other agent state changes.
pub fn reproduction_phase(
    agents: &mut Vec<Sectarian>,
    pop: &mut NeatContinous,
    registry: &mut SpeciesRegistry,
) -> (births: Vec<Birth>)
    requires
        old(registry).wf(),
        pop_fitness_ok(*old(pop)),
        pop_wf(*old(pop)),
        forall|i: int|
            0 <= i < old(agents)@.len() ==> pop_keys(*old(pop)).contains(
                (#[trigger] old(agents)@[i]).brain.key,
            ),
        forall|i: int|
            0 <= i < old(agents)@.len() ==> -VITAL_BOUND <= (#[trigger] old(
                agents,
            )@[i]).vitals.satiety <= VITAL_BOUND,
    ensures
        final(registry).wf(),
        pop_fitness_ok(*final(pop)),
        pop_wf(*final(pop)),
        final(agents)@.len() == old(agents)@.len(),
        forall|i: int|
            0 <= i < old(agents)@.len() ==> #[trigger] final(agents)@[i] == (Sectarian {
                vitals: Vitals {
                    satiety: satiety_after_repro(old(agents)@[i].vitals.satiety as int) as i64,
                    ..old(agents)@[i].vitals
                },
                ..old(agents)@[i]
            }),
        forall|i: int|
            0 <= i < old(agents)@.len() ==> pop_keys(*final(pop)).contains(
                (#[trigger] old(agents)@[i]).brain.key,
            ),
        births@.len() == count_breeders(old(agents)@, old(agents)@.len() as int),
        forall|j: int|
            0 <= j < births@.len() ==> {
                let b = #[trigger] births@[j];
                &&& 0 <= b.parent_index < old(agents)@.len()
                &&& old(agents)@[b.parent_index as int].vitals.satiety > REPRO_THRESHOLD
                &&& b.parent_id == old(agents)@[b.parent_index as int].id
                &&& pop_keys(*final(pop)).contains(b.key)
                &&& final(registry).entries@.contains(b.species)
            },
        forall|j: int, k: int|
            0 <= j < k < births@.len() ==> births@[j].parent_index < births@[k].parent_index,
        forall|i: int|
            0 <= i < old(agents)@.len() && old(agents)@[i].vitals.satiety > REPRO_THRESHOLD
                ==> exists|j: int|
                0 <= j < births@.len() && (#[trigger] births@[j]).parent_index == i,
{
    let ghost agents0 = agents@;
    let mut births: Vec<Birth> = Vec::new();
    let mut i: usize = 0;
    while i < agents.len()
        invariant
            i <= agents@.len(),
            agents@.len() == agents0.len(),
            registry.wf(),
            pop_fitness_ok(*pop),
            pop_wf(*pop),
            forall|j: int|
                0 <= j < agents0.len() ==> -VITAL_BOUND <= (#[trigger] agents0[j]).vitals.satiety
                    <= VITAL_BOUND,
            forall|j: int|
                0 <= j < agents0.len() ==> pop_keys(*pop).contains(
                    (#[trigger] agents0[j]).brain.key,
                ),
            forall|j: int| i as int <= j < agents@.len() ==> #[trigger] agents@[j] == agents0[j],
            forall|j: int|
                0 <= j < i as int ==> #[trigger] agents@[j] == (Sectarian {
                    vitals: Vitals {
                        satiety: satiety_after_repro(agents0[j].vitals.satiety as int) as i64,
                        ..agents0[j].vitals
                    },
                    ..agents0[j]
                }),
            births@.len() == count_breeders(agents0, i as int),
            forall|j: int|
                0 <= j < births@.len() ==> {
                    let b = #[trigger] births@[j];
                    &&& 0 <= b.parent_index < i as int
                    &&& agents0[b.parent_index as int].vitals.satiety > REPRO_THRESHOLD
                    &&& b.parent_id == agents0[b.parent_index as int].id
                    &&& pop_keys(*pop).contains(b.key)
                    &&& registry.entries@.contains(b.species)
                },
            forall|j: int, k: int|
                0 <= j < k < births@.len() ==> births@[j].parent_index < births@[k].parent_index,
            forall|m: int|
                0 <= m < i as int && agents0[m].vitals.satiety > REPRO_THRESHOLD ==> exists|j: int|
                    0 <= j < births@.len() && (#[trigger] births@[j]).parent_index == m,
        decreases agents@.len() - i,
    {
        let mut a = agents[i];
        if a.vitals.satiety > REPRO_THRESHOLD {
            a.vitals.satiety = a.vitals.satiety - REPRO_COST;
            agents[i] = a;
            let key = offspring(pop, a.brain.key);
            let species = species_assign(pop, key);
            let ghost registry0 = registry.entries@;
            registry.ensure_present(species);
            let ghost births0 = births@;
            births.push(Birth { parent_index: i, parent_id: a.id, key, species });
            proof {
                assert(births@[births@.len() - 1].parent_index == i as int);
                assert forall|j: int| 0 <= j < births0.len() implies {
                    let b = #[trigger] births@[j];
                    &&& 0 <= b.parent_index < i as int + 1
                    &&& agents0[b.parent_index as int].vitals.satiety > REPRO_THRESHOLD
                    &&& b.parent_id == agents0[b.parent_index as int].id
                    &&& pop_keys(*pop).contains(b.key)
                    &&& registry.entries@.contains(b.species)
                } by {
                    assert(births@[j] == births0[j]);
                    assert(registry0.contains(births0[j].species));
                    let m = choose|m: int|
                        0 <= m < registry0.len() && registry0[m] == births0[j].species;
                    assert(registry.entries@[m] == births0[j].species);
                }
                assert forall|m: int|
                    0 <= m < i as int + 1 && agents0[m].vitals.satiety
                        > REPRO_THRESHOLD implies exists|j: int|
                    0 <= j < births@.len() && (#[trigger] births@[j]).parent_index == m by {
                    if m < i as int {
                        let j = choose|j: int|
                            0 <= j < births0.len() && (#[trigger] births0[j]).parent_index == m;
                        assert(births@[j].parent_index == m);
                    } else {
                        assert(births@[births@.len() - 1].parent_index == m);
                    }
                }
            }
        } else {
            agents[i] = a;
        }
        i = i + 1;
    }
    births
}

/// Reproduction always leaves positive satiety: debiting the cost from
/// anything above the threshold leaves strictly more than 0.75.
pub proof fn lemma_repro_leaves_satiety(s: int)
    requires
        s > REPRO_THRESHOLD,
    ensures
        satiety_after_repro(s) == s - REPRO_COST,
        satiety_after_repro(s) > 1_296_000,
{
}

/// The reproduction check keeps satiety inside the clamped range, so the
/// clamp invariant still holds when the tick ends with reproduction.
pub proof fn lemma_repro_keeps_range(s: int)
    requires
        crate::units::in_metabolic_range(s),
    ensures
        crate::units::in_metabolic_range(satiety_after_repro(s)),
{
}

} // verus!
