//! The agents ("sectarii") and the per-tick world phases that mutate them:
//! metabolism, the combat/feeding energy transfer, the post-mutation
//! re-clamp and the removal of the dead.

use vstd::prelude::*;

use crate::units::{clamped, TICK};
use crate::vitals::{vitals_tick, vitals_tick_spec, Vitals, SPEED_CAP, VITAL_BOUND};

verus! {

/// Half a tick: the per-contact fitness reward.
pub const HALF_TICK: i64 = 18_000;

/// Satiety gained per tick of stealing from a rival: TICK * 3/10.
pub const STEAL_SATIETY_GAIN: i64 = 10_800;

/// Health gained per tick of stealing from a rival: TICK * 7/10.
pub const STEAL_HEALTH_GAIN: i64 = 25_200;

/// Machine cap on the number of steal contacts resolved in one tick.
pub const CONTACT_BOUND: usize = 1_000_000;

/// The controller-side state of one agent: its stable controller key, the
/// two lifetime fitness accumulators, and the kinematic summary cached
/// from the previous control step for this tick's stamina cost.
#[derive(Clone, Copy, PartialEq, Eq, Structural, Debug)]
pub struct Brain {
    pub key: usize,
    pub feeding_fitness: i64,
    pub combat_fitness: i64,
    pub linvel: i64,
    pub angvel: i64,
}

impl Brain {
    /// A newborn brain: fresh accumulators, standing still.
    pub fn new(key: usize) -> (r: Brain)
        ensures
            r.key == key,
            r.feeding_fitness == 0,
            r.combat_fitness == 0,
            r.linvel == 0,
            r.angvel == 0,
    {
        Brain { key, feeding_fitness: 0, combat_fitness: 0, linvel: 0, angvel: 0 }
    }
}

/// One live agent of the simulation world.
#[derive(Clone, Copy, PartialEq, Eq, Structural, Debug)]
pub struct Sectarian {
    pub id: u64,
    pub species: usize,
    pub brain: Brain,
    pub vitals: Vitals,
}

impl Sectarian {
    /// Machine headroom bound under which tick arithmetic cannot overflow.
    pub open spec fn bounded(self) -> bool {
        self.vitals.bounded() && -VITAL_BOUND <= self.brain.feeding_fitness <= VITAL_BOUND
            && -VITAL_BOUND <= self.brain.combat_fitness <= VITAL_BOUND
    }
}

/// A food item: a static resource with only a depletion value, no
/// metabolism and no controller. Position is in fixed-point world units.
#[derive(Clone, Copy, PartialEq, Eq, Structural, Debug)]
pub struct Food {
    pub id: u64,
    pub hp: i64,
    pub x: i64,
    pub y: i64,
}

/// What one steal contact touches: a food item or a rival agent, by index.
#[derive(Clone, Copy, PartialEq, Eq, Structural, Debug)]
pub enum StealTarget {
    Food(usize),
    Rival(usize),
}

/// One colliding pair reported by an agent's steal sensor this tick.
#[derive(Clone, Copy, PartialEq, Eq, Structural, Debug)]
pub struct StealContact {
    pub owner: usize,
    pub target: StealTarget,
}

/// A contact that addresses live indices and never pits an agent against
/// itself.
pub open spec fn contact_wf(c: StealContact, n_agents: int, n_foods: int) -> bool {
    0 <= c.owner < n_agents && match c.target {
        StealTarget::Food(f) => 0 <= f < n_foods,
        StealTarget::Rival(e) => 0 <= e < n_agents && e != c.owner,
    }
}

/// The world state after one steal contact is applied.
///
/// Against food: the food loses one tick of depletion value, the owner
/// gains one tick of satiety and half a tick of feeding fitness.
/// Against a rival: the rival loses one tick of health, while the owner
/// gains 0.3 ticks of satiety, 0.7 ticks of health and half a tick of
/// combat fitness — food feeds satiety, combat feeds health.
pub open spec fn steal_step(agents: Seq<Sectarian>, foods: Seq<Food>, c: StealContact) -> (
    Seq<Sectarian>,
    Seq<Food>,
) {
    let owner = agents[c.owner as int];
    match c.target {
        StealTarget::Food(f) => {
            let fd = foods[f as int];
            let owner2 = Sectarian {
                brain: Brain {
                    feeding_fitness: (owner.brain.feeding_fitness + HALF_TICK) as i64,
                    ..owner.brain
                },
                vitals: Vitals { satiety: (owner.vitals.satiety + TICK) as i64, ..owner.vitals },
                ..owner
            };
            let fd2 = Food { hp: (fd.hp - TICK) as i64, ..fd };
            (agents.update(c.owner as int, owner2), foods.update(f as int, fd2))
        },
        StealTarget::Rival(e) => {
            let enemy = agents[e as int];
            let enemy2 = Sectarian {
                vitals: Vitals { hp: (enemy.vitals.hp - TICK) as i64, ..enemy.vitals },
                ..enemy
            };
            let owner2 = Sectarian {
                brain: Brain {
                    combat_fitness: (owner.brain.combat_fitness + HALF_TICK) as i64,
                    ..owner.brain
                },
                vitals: Vitals {
                    satiety: (owner.vitals.satiety + STEAL_SATIETY_GAIN) as i64,
                    hp: (owner.vitals.hp + STEAL_HEALTH_GAIN) as i64,
                    ..owner.vitals
                },
                ..owner
            };
            (agents.update(e as int, enemy2).update(c.owner as int, owner2), foods)
        },
    }
}

/// The world state after a whole sequence of steal contacts, applied in
/// order, each independently and additively.
pub open spec fn steal_fold(
    agents: Seq<Sectarian>,
    foods: Seq<Food>,
    contacts: Seq<StealContact>,
    n: int,
) -> (Seq<Sectarian>, Seq<Food>)
    decreases n,
{
    if n <= 0 {
        (agents, foods)
    } else {
        let prev = steal_fold(agents, foods, contacts, n - 1);
        steal_step(prev.0, prev.1, contacts[n - 1])
    }
}

/// The fitness credit owed to the controller ledger for one contact: one
/// tick per tick of feeding, half a tick per tick of combat, keyed by the
/// owner's controller key.
pub open spec fn credit_of(agents: Seq<Sectarian>, c: StealContact) -> (usize, i64) {
    match c.target {
        StealTarget::Food(_) => (agents[c.owner as int].brain.key, TICK),
        StealTarget::Rival(_) => (agents[c.owner as int].brain.key, HALF_TICK),
    }
}

/// Resolve every steal contact of the tick, in order, and return the
/// fitness credits owed to the controller ledger, one per contact.
pub fn resolve_steals(
    agents: &mut Vec<Sectarian>,
    foods: &mut Vec<Food>,
    contacts: &Vec<StealContact>,
) -> (credits: Vec<(usize, i64)>)
    requires
        contacts@.len() <= CONTACT_BOUND,
        forall|i: int|
            0 <= i < contacts@.len() ==> contact_wf(
                #[trigger] contacts@[i],
                old(agents)@.len() as int,
                old(foods)@.len() as int,
            ),
        forall|i: int| 0 <= i < old(agents)@.len() ==> (#[trigger] old(agents)@[i]).bounded(),
        forall|i: int|
            0 <= i < old(foods)@.len() ==> -VITAL_BOUND <= (#[trigger] old(foods)@[i]).hp
                <= VITAL_BOUND,
    ensures
        (final(agents)@, final(foods)@) == steal_fold(
            old(agents)@,
            old(foods)@,
            contacts@,
            contacts@.len() as int,
        ),
        final(agents)@.len() == old(agents)@.len(),
        final(foods)@.len() == old(foods)@.len(),
        forall|i: int|
            0 <= i < old(agents)@.len() ==> (#[trigger] final(agents)@[i]).brain.key == old(
                agents,
            )@[i].brain.key && final(agents)@[i].id == old(agents)@[i].id,
        forall|i: int|
            0 <= i < final(agents)@.len() ==> {
                let b = (#[trigger] final(agents)@[i]).brain;
                &&& -VITAL_BOUND - contacts@.len() * TICK <= b.feeding_fitness <= VITAL_BOUND
                    + contacts@.len() * TICK
                &&& -VITAL_BOUND - contacts@.len() * TICK <= b.combat_fitness <= VITAL_BOUND
                    + contacts@.len() * TICK
            },
        credits@.len() == contacts@.len(),
        forall|i: int|
            0 <= i < contacts@.len() ==> #[trigger] credits@[i] == credit_of(
                old(agents)@,
                contacts@[i],
            ),
{
    let ghost agents0 = agents@;
    let ghost foods0 = foods@;
    let mut credits: Vec<(usize, i64)> = Vec::new();
    let mut i: usize = 0;
    while i < contacts.len()
        invariant
            i <= contacts@.len(),
            contacts@.len() <= CONTACT_BOUND,
            agents@.len() == agents0.len(),
            foods@.len() == foods0.len(),
            (agents@, foods@) == steal_fold(agents0, foods0, contacts@, i as int),
            forall|j: int|
                0 <= j < contacts@.len() ==> contact_wf(
                    #[trigger] contacts@[j],
                    agents0.len() as int,
                    foods0.len() as int,
                ),
            forall|j: int|
                0 <= j < agents@.len() ==> -VITAL_BOUND - (i as int) * TICK <= (
                #[trigger] agents@[j]).vitals.hp <= VITAL_BOUND + (i as int) * TICK,
            forall|j: int|
                0 <= j < agents@.len() ==> -VITAL_BOUND - (i as int) * TICK <= (
                #[trigger] agents@[j]).vitals.satiety <= VITAL_BOUND + (i as int) * TICK,
            forall|j: int|
                0 <= j < agents@.len() ==> -VITAL_BOUND - (i as int) * TICK <= (
                #[trigger] agents@[j]).brain.feeding_fitness <= VITAL_BOUND + (i as int) * TICK,
            forall|j: int|
                0 <= j < agents@.len() ==> -VITAL_BOUND - (i as int) * TICK <= (
                #[trigger] agents@[j]).brain.combat_fitness <= VITAL_BOUND + (i as int) * TICK,
            forall|j: int|
                0 <= j < foods@.len() ==> -VITAL_BOUND - (i as int) * TICK <= (
                #[trigger] foods@[j]).hp <= VITAL_BOUND + (i as int) * TICK,
            forall|j: int|
                0 <= j < agents@.len() ==> #[trigger] agents@[j].brain.key
                    == agents0[j].brain.key && agents@[j].id == agents0[j].id,
            credits@.len() == i as int,
            forall|j: int|
                0 <= j < i as int ==> #[trigger] credits@[j] == credit_of(agents0, contacts@[j]),
        decreases contacts@.len() - i,
    {
        let c = contacts[i];
        proof {
            assert(contact_wf(contacts@[i as int], agents0.len() as int, foods0.len() as int));
            assert((i as int) * TICK <= CONTACT_BOUND * TICK) by (nonlinear_arith)
                requires
                    0 <= i as int <= CONTACT_BOUND,
            ;
            assert((i as int + 1) * TICK == (i as int) * TICK + TICK) by (nonlinear_arith);
        }
        match c.target {
            StealTarget::Food(f) => {
                let mut owner = agents[c.owner];
                owner.vitals.satiety = owner.vitals.satiety + TICK;
                owner.brain.feeding_fitness = owner.brain.feeding_fitness + HALF_TICK;
                agents[c.owner] = owner;
                let mut fd = foods[f];
                fd.hp = fd.hp - TICK;
                foods[f] = fd;
                credits.push((owner.brain.key, TICK));
            },
            StealTarget::Rival(e) => {
                let mut enemy = agents[e];
                enemy.vitals.hp = enemy.vitals.hp - TICK;
                agents[e] = enemy;
                let mut owner = agents[c.owner];
                owner.vitals.satiety = owner.vitals.satiety + STEAL_SATIETY_GAIN;
                owner.vitals.hp = owner.vitals.hp + STEAL_HEALTH_GAIN;
                owner.brain.combat_fitness = owner.brain.combat_fitness + HALF_TICK;
                agents[c.owner] = owner;
                credits.push((owner.brain.key, HALF_TICK));
            },
        }
        i = i + 1;
    }
    credits
}

/// One metabolic tick for every agent, each at its own cached speed from
/// the previous control step; nothing else of the agent changes.
pub fn metabolic_phase(agents: &mut Vec<Sectarian>)
    requires
        forall|i: int| 0 <= i < old(agents)@.len() ==> (#[trigger] old(agents)@[i]).bounded(),
        forall|i: int|
            0 <= i < old(agents)@.len() ==> 0 <= (#[trigger] old(agents)@[i]).brain.linvel
                <= SPEED_CAP,
    ensures
        final(agents)@.len() == old(agents)@.len(),
        forall|i: int|
            0 <= i < old(agents)@.len() ==> #[trigger] final(agents)@[i] == (Sectarian {
                vitals: vitals_tick_spec(
                    old(agents)@[i].vitals,
                    old(agents)@[i].brain.linvel as int,
                ),
                ..old(agents)@[i]
            }),
        forall|i: int| 0 <= i < final(agents)@.len() ==> (#[trigger] final(agents)@[i]).vitals.in_range(),
{
    let ghost agents0 = agents@;
    let mut i: usize = 0;
    while i < agents.len()
        invariant
            i <= agents@.len(),
            agents@.len() == agents0.len(),
            forall|j: int| 0 <= j < agents0.len() ==> (#[trigger] agents0[j]).bounded(),
            forall|j: int|
                0 <= j < agents0.len() ==> 0 <= (#[trigger] agents0[j]).brain.linvel <= SPEED_CAP,
            forall|j: int| i as int <= j < agents@.len() ==> #[trigger] agents@[j] == agents0[j],
            forall|j: int|
                0 <= j < i as int ==> #[trigger] agents@[j] == (Sectarian {
                    vitals: vitals_tick_spec(agents0[j].vitals, agents0[j].brain.linvel as int),
                    ..agents0[j]
                }),
            forall|j: int| 0 <= j < i as int ==> (#[trigger] agents@[j]).vitals.in_range(),
        decreases agents@.len() - i,
    {
        let mut a = agents[i];
        a.vitals = vitals_tick(a.vitals, a.brain.linvel);
        agents[i] = a;
        i = i + 1;
    }
}

/// Re-clamp an agent's whole metabolic triple into [0, 2] after the steal
/// transfers of the tick.
pub open spec fn reclamped(v: Vitals) -> Vitals {
    Vitals {
        hp: clamped(v.hp as int) as i64,
        satiety: clamped(v.satiety as int) as i64,
        stamina: clamped(v.stamina as int) as i64,
    }
}

/// Re-clamp every agent's metabolic triple into [0, 2]; nothing else of
/// the agent changes. Together with the steal resolver this keeps the
/// clamp invariant at the end of every tick.
pub fn reclamp_phase(agents: &mut Vec<Sectarian>)
    ensures
        final(agents)@.len() == old(agents)@.len(),
        forall|i: int|
            0 <= i < old(agents)@.len() ==> #[trigger] final(agents)@[i] == (Sectarian {
                vitals: reclamped(old(agents)@[i].vitals),
                ..old(agents)@[i]
            }),
        forall|i: int| 0 <= i < final(agents)@.len() ==> (#[trigger] final(agents)@[i]).vitals.in_range(),
{
    let ghost agents0 = agents@;
    let mut i: usize = 0;
    while i < agents.len()
        invariant
            i <= agents@.len(),
            agents@.len() == agents0.len(),
            forall|j: int| i as int <= j < agents@.len() ==> #[trigger] agents@[j] == agents0[j],
            forall|j: int|
                0 <= j < i as int ==> #[trigger] agents@[j] == (Sectarian {
                    vitals: reclamped(agents0[j].vitals),
                    ..agents0[j]
                }),
            forall|j: int| 0 <= j < i as int ==> (#[trigger] agents@[j]).vitals.in_range(),
        decreases agents@.len() - i,
    {
        let mut a = agents[i];
        a.vitals.hp = crate::units::clamp_metabolic(a.vitals.hp);
        a.vitals.satiety = crate::units::clamp_metabolic(a.vitals.satiety);
        a.vitals.stamina = crate::units::clamp_metabolic(a.vitals.stamina);
        agents[i] = a;
        i = i + 1;
    }
}

/// Cache each agent's kinematic summary, as read back from the physics
/// collaborator after the control outputs were applied; the cached speed
/// is what the next tick's stamina cost is charged on — deliberately one
/// tick behind the controller's current action.
pub fn cache_kinematics(agents: &mut Vec<Sectarian>, speeds: &Vec<(i64, i64)>)
    requires
        old(agents)@.len() == speeds@.len(),
    ensures
        final(agents)@.len() == old(agents)@.len(),
        forall|i: int|
            0 <= i < old(agents)@.len() ==> #[trigger] final(agents)@[i] == (Sectarian {
                brain: Brain {
                    linvel: speeds@[i].0,
                    angvel: speeds@[i].1,
                    ..old(agents)@[i].brain
                },
                ..old(agents)@[i]
            }),
{
    let ghost agents0 = agents@;
    let mut i: usize = 0;
    while i < agents.len()
        invariant
            i <= agents@.len(),
            agents@.len() == agents0.len(),
            agents0.len() == speeds@.len(),
            forall|j: int| i as int <= j < agents@.len() ==> #[trigger] agents@[j] == agents0[j],
            forall|j: int|
                0 <= j < i as int ==> #[trigger] agents@[j] == (Sectarian {
                    brain: Brain {
                        linvel: speeds@[j].0,
                        angvel: speeds@[j].1,
                        ..agents0[j].brain
                    },
                    ..agents0[j]
                }),
        decreases agents@.len() - i,
    {
        let mut a = agents[i];
        let s = speeds[i];
        a.brain.linvel = s.0;
        a.brain.angvel = s.1;
        agents[i] = a;
        i = i + 1;
    }
}

/// The agents of `s` that survive the terminal-health check, in order.
pub open spec fn survivors(s: Seq<Sectarian>) -> Seq<Sectarian>
    decreases s.len(),
{
    if s.len() == 0 {
        Seq::empty()
    } else {
        let prefix = survivors(s.drop_last());
        if s.last().vitals.hp > 0 {
            prefix.push(s.last())
        } else {
            prefix
        }
    }
}

/// Remove every agent whose health has reached zero; the survivors keep
/// their order. Returns the ids of the removed agents so their entities
/// and attached sub-entities can be despawned.
pub fn cull_dead(agents: &mut Vec<Sectarian>) -> (removed: Vec<u64>)
    ensures
        final(agents)@ == survivors(old(agents)@),
        forall|i: int| 0 <= i < final(agents)@.len() ==> (#[trigger] final(agents)@[i]).vitals.hp > 0,
        forall|i: int|
            0 <= i < old(agents)@.len() && old(agents)@[i].vitals.hp <= 0 ==> final(agents)@.contains(
                old(agents)@[i],
            ) == false && removed@.contains(old(agents)@[i].id),
{
    let ghost agents0 = agents@;
    let mut kept: Vec<Sectarian> = Vec::new();
    let mut removed: Vec<u64> = Vec::new();
    let mut i: usize = 0;
    while i < agents.len()
        invariant
            i <= agents@.len(),
            agents@ == agents0,
            kept@ == survivors(agents0.subrange(0, i as int)),
            forall|j: int| 0 <= j < kept@.len() ==> (#[trigger] kept@[j]).vitals.hp > 0,
            forall|j: int|
                0 <= j < i as int && agents0[j].vitals.hp <= 0 ==> removed@.contains(
                    agents0[j].id,
                ),
        decreases agents@.len() - i,
    {
        let a = agents[i];
        proof {
            assert(agents0.subrange(0, i as int + 1).drop_last() == agents0.subrange(0, i as int));
            assert(agents0.subrange(0, i as int + 1).last() == agents0[i as int]);
        }
        let ghost removed0 = removed@;
        if a.vitals.hp > 0 {
            kept.push(a);
        } else {
            removed.push(a.id);
        }
        proof {
            assert forall|x: u64| removed0.contains(x) implies removed@.contains(x) by {
                let k = choose|k: int| 0 <= k < removed0.len() && removed0[k] == x;
                assert(removed@[k] == x);
            }
            if a.vitals.hp <= 0 {
                assert(removed@[removed@.len() - 1] == a.id);
            }
        }
        i = i + 1;
    }
    proof {
        assert(agents0.subrange(0, agents0.len() as int) == agents0);
    }
    *agents = kept;
    removed
}

/// No dead agent survives a cull: every survivor has positive health, so
/// an agent whose health reached zero in one tick is absent from the
/// world the next tick.
pub proof fn lemma_dead_are_absent(s: Seq<Sectarian>, i: int)
    requires
        0 <= i < s.len(),
        s[i].vitals.hp <= 0,
    ensures
        !survivors(s).contains(s[i]),
        forall|j: int| 0 <= j < survivors(s).len() ==> (#[trigger] survivors(s)[j]).vitals.hp > 0,
    decreases s.len(),
{
    lemma_survivors_alive(s);
    if survivors(s).contains(s[i]) {
        let j = choose|j: int| 0 <= j < survivors(s).len() && survivors(s)[j] == s[i];
        assert(survivors(s)[j].vitals.hp > 0);
    }
}

/// Every survivor of a cull has positive health.
pub proof fn lemma_survivors_alive(s: Seq<Sectarian>)
    ensures
        forall|j: int| 0 <= j < survivors(s).len() ==> (#[trigger] survivors(s)[j]).vitals.hp > 0,
    decreases s.len(),
{
    if s.len() > 0 {
        lemma_survivors_alive(s.drop_last());
        let prev = survivors(s.drop_last());
        if s.last().vitals.hp > 0 {
            assert(survivors(s) == prev.push(s.last()));
            assert forall|j: int| 0 <= j < survivors(s).len() implies (#[trigger] survivors(
                s,
            )[j]).vitals.hp > 0 by {
                if j < prev.len() {
                    assert(survivors(s)[j] == prev[j]);
                } else {
                    assert(survivors(s)[j] == s.last());
                }
            }
        }
    }
}

/// A cull invents no agent: every survivor was in the world before it.
pub proof fn lemma_survivors_are_members(s: Seq<Sectarian>)
    ensures
        survivors(s).len() <= s.len(),
        forall|j: int| 0 <= j < survivors(s).len() ==> s.contains(#[trigger] survivors(s)[j]),
    decreases s.len(),
{
    if s.len() > 0 {
        lemma_survivors_are_members(s.drop_last());
        let prefix = survivors(s.drop_last());
        assert forall|j: int| 0 <= j < survivors(s).len() implies s.contains(
            #[trigger] survivors(s)[j],
        ) by {
            if j < prefix.len() {
                assert(survivors(s)[j] == prefix[j]);
                let k = choose|k: int|
                    0 <= k < s.drop_last().len() && s.drop_last()[k] == prefix[j];
                assert(s[k] == prefix[j]);
            } else {
                assert(survivors(s)[j] == s.last());
                assert(s[s.len() - 1] == s.last());
            }
        }
    }
}

} // verus!