//! The settled part of a simulation tick, composed.
//!
//! After the Controller Population has evaluated and its outputs have been
//! applied as motion, the rest of a tick is pure world bookkeeping:
//! metabolism at the cached speeds, the steal transfers, the end-of-tick
//! re-clamp, reproduction, removal of the dead and the collapsed, and
//! food regrowth — in that order. Composing them here pins the tick as a
//! whole: the result is stated as exactly that pipeline of the phase
//! specs, and the per-tick guarantees — every surviving value clamped, no
//! terminal agent left, the food cap respected — follow from it.

use vstd::prelude::*;

use rusty_neat::NeatContinous;

use crate::food::{
    cull_depleted, lemma_standing_no_longer, regrow, standing, FOOD_CAP, REGROW_HP_MAX,
    REGROW_HP_MIN,
};
use crate::population::{pop_fitness_ok, pop_keys, pop_wf};
use crate::repro::{
    count_breeders, reproduction_phase, satiety_after_repro, Birth, REPRO_THRESHOLD,
};
use crate::sectarii::{
    contact_wf, credit_of, cull_dead, lemma_survivors_are_members, metabolic_phase, reclamp_phase,
    reclamped, resolve_steals, steal_fold, survivors, Food, Sectarian, StealContact, CONTACT_BOUND,
};
use crate::species::SpeciesRegistry;
use crate::vitals::{vitals_tick_spec, Vitals, SPEED_CAP, VITAL_BOUND};

verus! {

/// The agents after the metabolic phase: each ticked at its cached speed.
pub open spec fn metabolized(s: Seq<Sectarian>) -> Seq<Sectarian> {
    s.map(
        |i: int, a: Sectarian|
            Sectarian { vitals: vitals_tick_spec(a.vitals, a.brain.linvel as int), ..a },
    )
}

/// The agents after the end-of-tick re-clamp.
pub open spec fn reclamped_all(s: Seq<Sectarian>) -> Seq<Sectarian> {
    s.map(|i: int, a: Sectarian| Sectarian { vitals: reclamped(a.vitals), ..a })
}

/// The agents after the reproduction check's satiety debit.
pub open spec fn bred(s: Seq<Sectarian>) -> Seq<Sectarian> {
    s.map(
        |i: int, a: Sectarian|
            Sectarian {
                vitals: Vitals {
                    satiety: satiety_after_repro(a.vitals.satiety as int) as i64,
                    ..a.vitals
                },
                ..a
            },
    )
}

/// The agents as the reproduction check sees them: metabolized, stolen
/// from and at, and re-clamped.
pub open spec fn after_reclamp(
    agents: Seq<Sectarian>,
    foods: Seq<Food>,
    contacts: Seq<StealContact>,
) -> Seq<Sectarian> {
    reclamped_all(steal_fold(metabolized(agents), foods, contacts, contacts.len() as int).0)
}

/// The agents a settled tick leaves in the world: the pipeline above,
/// then the reproduction debit, then removal of the dead.
pub open spec fn settled_agents(
    agents: Seq<Sectarian>,
    foods: Seq<Food>,
    contacts: Seq<StealContact>,
) -> Seq<Sectarian> {
    survivors(bred(after_reclamp(agents, foods, contacts)))
}

/// The food items a settled tick leaves standing, before regrowth: the
/// field after the steal depletion, with collapsed items removed.
pub open spec fn settled_foods(
    agents: Seq<Sectarian>,
    foods: Seq<Food>,
    contacts: Seq<StealContact>,
) -> Seq<Food> {
    standing(steal_fold(metabolized(agents), foods, contacts, contacts.len() as int).1)
}

/// What a settled tick hands back to the outer loop: the fitness credits
/// owed to the controller ledger, the offspring to spawn, the removed
/// entities to despawn, and whether a food item grew back.
pub struct TickOutcome {
    pub credits: Vec<(usize, i64)>,
    pub births: Vec<Birth>,
    pub removed_agents: Vec<u64>,
    pub removed_foods: Vec<u64>,
    pub food_spawned: bool,
}

/// Settle one tick of the world after control: metabolism, steals, the
/// re-clamp, reproduction, removal and food regrowth, in the data-flow
/// order of the core. The result is exactly that pipeline: see
/// [`settled_agents`] and [`settled_foods`].
pub fn settle_tick(
    agents: &mut Vec<Sectarian>,
    foods: &mut Vec<Food>,
    contacts: &Vec<StealContact>,
    pop: &mut NeatContinous,
    registry: &mut SpeciesRegistry,
    next_food_id: u64,
) -> (out: TickOutcome)
    requires
        old(registry).wf(),
        pop_fitness_ok(*old(pop)),
        pop_wf(*old(pop)),
        forall|i: int|
            0 <= i < old(agents)@.len() ==> pop_keys(*old(pop)).contains(
                (#[trigger] old(agents)@[i]).brain.key,
            ),
        forall|i: int| 0 <= i < old(agents)@.len() ==> (#[trigger] old(agents)@[i]).bounded(),
        forall|i: int|
            0 <= i < old(agents)@.len() ==> 0 <= (#[trigger] old(agents)@[i]).brain.linvel
                <= SPEED_CAP,
        forall|i: int|
            0 <= i < old(foods)@.len() ==> -VITAL_BOUND <= (#[trigger] old(foods)@[i]).hp
                <= VITAL_BOUND,
        contacts@.len() <= CONTACT_BOUND,
        forall|i: int|
            0 <= i < contacts@.len() ==> contact_wf(
                #[trigger] contacts@[i],
                old(agents)@.len() as int,
                old(foods)@.len() as int,
            ),
    ensures
        final(registry).wf(),
        pop_fitness_ok(*final(pop)),
        pop_wf(*final(pop)),
        // the tick is exactly the pipeline of the phase specs
        final(agents)@ == settled_agents(old(agents)@, old(foods)@, contacts@),
        // the food field is the settled field plus at most one regrown
        // item, grown exactly when the settled field is under the cap
        out.food_spawned == (settled_foods(old(agents)@, old(foods)@, contacts@).len()
            < FOOD_CAP),
        !out.food_spawned ==> final(foods)@ == settled_foods(old(agents)@, old(foods)@, contacts@),
        out.food_spawned ==> final(foods)@.len() == settled_foods(
            old(agents)@,
            old(foods)@,
            contacts@,
        ).len() + 1 && final(foods)@.subrange(
            0,
            settled_foods(old(agents)@, old(foods)@, contacts@).len() as int,
        ) == settled_foods(old(agents)@, old(foods)@, contacts@) && final(foods)@.last().id
            == next_food_id && REGROW_HP_MIN <= final(foods)@.last().hp < REGROW_HP_MAX,
        // one ledger credit per contact, keyed by the owner's controller
        out.credits@.len() == contacts@.len(),
        forall|i: int|
            0 <= i < contacts@.len() ==> #[trigger] out.credits@[i] == credit_of(
                old(agents)@,
                contacts@[i],
            ),
        // one birth per agent over the reproduction threshold after the
        // re-clamped steal phase, in index order
        out.births@.len() == count_breeders(
            after_reclamp(old(agents)@, old(foods)@, contacts@),
            old(agents)@.len() as int,
        ),
        forall|j: int|
            0 <= j < out.births@.len() ==> {
                let b = #[trigger] out.births@[j];
                &&& 0 <= b.parent_index < old(agents)@.len()
                &&& after_reclamp(old(agents)@, old(foods)@, contacts@)[b.parent_index as int]
                    .vitals.satiety > REPRO_THRESHOLD
                &&& b.parent_id == old(agents)@[b.parent_index as int].id
                &&& pop_keys(*final(pop)).contains(b.key)
                &&& final(registry).entries@.contains(b.species)
            },
        forall|j: int, k: int|
            0 <= j < k < out.births@.len() ==> out.births@[j].parent_index
                < out.births@[k].parent_index,
        // every removed agent's id is reported for despawning
        forall|i: int|
            0 <= i < old(agents)@.len() && bred(
                after_reclamp(old(agents)@, old(foods)@, contacts@),
            )[i].vitals.hp <= 0 ==> out.removed_agents@.contains(
                (#[trigger] old(agents)@[i]).id,
            ),
        // the clamp invariant: every agent left in the world ends the
        // tick with health, satiety and stamina inside [0, 2]
        forall|i: int| 0 <= i < final(agents)@.len() ==> (#[trigger] final(agents)@[i]).vitals.in_range(),
        // no agent at terminal health survives the tick, and no
        // collapsed food item does
        forall|i: int| 0 <= i < final(agents)@.len() ==> (#[trigger] final(agents)@[i]).vitals.hp > 0,
        forall|i: int| 0 <= i < final(foods)@.len() ==> (#[trigger] final(foods)@[i]).hp > 0,
        // the food soft cap holds across the tick
        old(foods)@.len() <= FOOD_CAP ==> final(foods)@.len() <= FOOD_CAP,
        // every surviving agent's controller, and every newborn's, is
        // still live in the population
        forall|i: int|
            0 <= i < final(agents)@.len() ==> pop_keys(*final(pop)).contains(
                (#[trigger] final(agents)@[i]).brain.key,
            ),
        // the fitness accumulators moved by at most the contacts' worth
        forall|i: int|
            0 <= i < final(agents)@.len() ==> -VITAL_BOUND - contacts@.len() * crate::units::TICK
                <= (#[trigger] final(agents)@[i]).brain.feeding_fitness <= VITAL_BOUND
                + contacts@.len() * crate::units::TICK && -VITAL_BOUND - contacts@.len()
                * crate::units::TICK <= final(agents)@[i].brain.combat_fitness <= VITAL_BOUND
                + contacts@.len() * crate::units::TICK,
{
    let ghost s0 = agents@;
    let ghost f0 = foods@;
    metabolic_phase(agents);
    let ghost s1 = agents@;
    proof {
        assert(s1 =~= metabolized(s0));
        assert forall|i: int| 0 <= i < s1.len() implies (#[trigger] s1[i]).bounded() by {
            assert(s1[i].vitals.in_range());
            assert(s1[i].brain == s0[i].brain);
        }
    }
    let credits = resolve_steals(agents, foods, contacts);
    let ghost s2 = agents@;
    let ghost f2 = foods@;
    proof {
        assert((s2, f2) == steal_fold(s1, f0, contacts@, contacts@.len() as int));
        assert forall|i: int| 0 <= i < contacts@.len() implies #[trigger] credits@[i] == credit_of(
            s0,
            contacts@[i],
        ) by {
            assert(credits@[i] == credit_of(s1, contacts@[i]));
            assert(contact_wf(contacts@[i], s0.len() as int, f0.len() as int));
            assert(s1[contacts@[i].owner as int].brain == s0[contacts@[i].owner as int].brain);
        }
    }
    reclamp_phase(agents);
    let ghost s3 = agents@;
    proof {
        assert(s3 =~= reclamped_all(s2));
        assert(s3 == after_reclamp(s0, f0, contacts@));
        assert forall|i: int| 0 <= i < s3.len() implies pop_keys(*pop).contains(
            (#[trigger] s3[i]).brain.key,
        ) && -VITAL_BOUND <= s3[i].vitals.satiety <= VITAL_BOUND by {
            assert(0 <= i < s1.len());
            assert(s2[i].brain.key == s1[i].brain.key);
            assert(s3[i].brain == s2[i].brain);
            assert(s3[i].brain.key == s0[i].brain.key);
            assert(s3[i].vitals.in_range());
        }
    }
    let births = reproduction_phase(agents, pop, registry);
    let ghost s4 = agents@;
    proof {
        assert(s4 =~= bred(s3));
        assert forall|i: int| 0 <= i < s4.len() implies (#[trigger] s4[i]).vitals.in_range() by {
            assert(s3[i].vitals.in_range());
            crate::repro::lemma_repro_keeps_range(s3[i].vitals.satiety as int);
        }
        assert forall|i: int| 0 <= i < s4.len() implies (#[trigger] s4[i]).brain
            == s2[i].brain by {
            assert(s4[i].brain == s3[i].brain);
            assert(s3[i].brain == s2[i].brain);
        }
    }
    let removed_agents = cull_dead(agents);
    proof {
        lemma_survivors_are_members(s4);
        assert(agents@ == survivors(bred(after_reclamp(s0, f0, contacts@))));
        assert forall|i: int| 0 <= i < agents@.len() implies {
            let a = #[trigger] agents@[i];
            &&& a.vitals.in_range()
            &&& pop_keys(*pop).contains(a.brain.key)
            &&& -VITAL_BOUND - contacts@.len() * crate::units::TICK <= a.brain.feeding_fitness
                <= VITAL_BOUND + contacts@.len() * crate::units::TICK
            &&& -VITAL_BOUND - contacts@.len() * crate::units::TICK <= a.brain.combat_fitness
                <= VITAL_BOUND + contacts@.len() * crate::units::TICK
        } by {
            assert(agents@ == survivors(s4));
            assert(s4.contains(agents@[i]));
            let k = choose|k: int| 0 <= k < s4.len() && s4[k] == agents@[i];
            assert(s4[k].vitals.in_range());
            assert(s4[k].brain == s2[k].brain);
            assert(pop_keys(*pop).contains(s3[k].brain.key));
            assert(s3[k].brain == s2[k].brain);
        }
    }
    let removed_foods = cull_depleted(foods);
    proof {
        lemma_standing_no_longer(f2);
        assert(foods@ == standing(f2));
        assert(foods@ == settled_foods(s0, f0, contacts@));
    }
    let ghost pre_regrow = foods@;
    let food_spawned = regrow(foods, next_food_id);
    proof {
        if food_spawned {
            assert(foods@.last().hp > 0);
            assert forall|i: int| 0 <= i < foods@.len() implies (#[trigger] foods@[i]).hp > 0 by {
                if i < foods@.len() - 1 {
                    assert(foods@[i] == pre_regrow[i]);
                }
            }
        }
    }
    TickOutcome { credits, births, removed_agents, removed_foods, food_spawned }
}

} // verus!
