//! The food field: initial seeding, the per-tick regrowth policy under a
//! soft population cap, and removal of depleted items.

use vstd::prelude::*;

use crate::chance::random_between;

pub use crate::sectarii::Food;

verus! {

/// Soft cap of the food population: at most one item grows back per tick,
/// and only while the population is below this.
pub const FOOD_CAP: usize = 6_000;

/// How many items the field starts with.
pub const INITIAL_FOOD: usize = 1_000;

/// Regrown items start with 0.2 <= depletion value < 0.5.
pub const REGROW_HP_MIN: i64 = 345_600;

/// Exclusive upper bound of a regrown item's depletion value (0.5).
pub const REGROW_HP_MAX: i64 = 864_000;

/// Seeded items start with 0.7 <= depletion value < 0.9.
pub const SEED_HP_MIN: i64 = 1_209_600;

/// Exclusive upper bound of a seeded item's depletion value (0.9).
pub const SEED_HP_MAX: i64 = 1_555_200;

/// Regrown items appear anywhere within +-8000 world units.
pub const REGROW_RADIUS: i64 = 13_824_000_000;

/// Seeded items appear anywhere within +-4000 world units.
pub const SEED_RADIUS: i64 = 6_912_000_000;

/// Seed the initial food field: `count` items with sequential ids from
/// `start_id`, random positions within the seeding radius and random
/// starting depletion values.
pub fn seed_food(count: usize, start_id: u64) -> (foods: Vec<Food>)
    requires
        start_id + count <= u64::MAX,
    ensures
        foods@.len() == count,
        forall|i: int| 0 <= i < count ==> (#[trigger] foods@[i]).id == start_id + i,
        forall|i: int|
            0 <= i < count ==> SEED_HP_MIN <= (#[trigger] foods@[i]).hp < SEED_HP_MAX
                && -SEED_RADIUS <= foods@[i].x <= SEED_RADIUS && -SEED_RADIUS <= foods@[i].y
                <= SEED_RADIUS,
{
    let mut foods: Vec<Food> = Vec::new();
    let mut i: usize = 0;
    while i < count
        invariant
            i <= count,
            start_id + count <= u64::MAX,
            foods@.len() == i as int,
            forall|j: int| 0 <= j < i as int ==> (#[trigger] foods@[j]).id == start_id + j,
            forall|j: int|
                0 <= j < i as int ==> SEED_HP_MIN <= (#[trigger] foods@[j]).hp < SEED_HP_MAX
                    && -SEED_RADIUS <= foods@[j].x <= SEED_RADIUS && -SEED_RADIUS <= foods@[j].y
                    <= SEED_RADIUS,
        decreases count - i,
    {
        let item = Food {
            id: start_id + (i as u64),
            hp: random_between(SEED_HP_MIN, SEED_HP_MAX - 1),
            x: random_between(-SEED_RADIUS, SEED_RADIUS),
            y: random_between(-SEED_RADIUS, SEED_RADIUS),
        };
        foods.push(item);
        i = i + 1;
    }
    foods
}

/// The per-tick regrowth policy: while the population is below the soft
/// cap, exactly one new item appears, anywhere in the regrowth radius and
/// with a fresh random depletion value; at or above the cap nothing grows.
pub fn regrow(foods: &mut Vec<Food>, next_id: u64) -> (spawned: bool)
    ensures
        spawned == (old(foods)@.len() < FOOD_CAP),
        !spawned ==> final(foods)@ == old(foods)@,
        spawned ==> final(foods)@.len() == old(foods)@.len() + 1,
        spawned ==> final(foods)@.subrange(0, old(foods)@.len() as int) == old(foods)@,
        spawned ==> final(foods)@.last().id == next_id,
        spawned ==> REGROW_HP_MIN <= final(foods)@.last().hp < REGROW_HP_MAX,
        spawned ==> -REGROW_RADIUS <= final(foods)@.last().x <= REGROW_RADIUS && -REGROW_RADIUS
            <= final(foods)@.last().y <= REGROW_RADIUS,
{
    if foods.len() < FOOD_CAP {
        let item = Food {
            id: next_id,
            hp: random_between(REGROW_HP_MIN, REGROW_HP_MAX - 1),
            x: random_between(-REGROW_RADIUS, REGROW_RADIUS),
            y: random_between(-REGROW_RADIUS, REGROW_RADIUS),
        };
        foods.push(item);
        proof {
            assert(foods@.subrange(0, old(foods)@.len() as int) == old(foods)@);
        }
        true
    } else {
        false
    }
}

/// The food items of `s` that are not yet depleted, in order.
pub open spec fn standing(s: Seq<Food>) -> Seq<Food>
    decreases s.len(),
{
    if s.len() == 0 {
        Seq::empty()
    } else {
        let prefix = standing(s.drop_last());
        if s.last().hp > 0 {
            prefix.push(s.last())
        } else {
            prefix
        }
    }
}

/// Remove every food item whose depletion value reached zero: it has
/// collapsed. Returns the removed ids so their entities can be despawned.
pub fn cull_depleted(foods: &mut Vec<Food>) -> (removed: Vec<u64>)
    ensures
        final(foods)@ == standing(old(foods)@),
        forall|i: int| 0 <= i < final(foods)@.len() ==> (#[trigger] final(foods)@[i]).hp > 0,
        forall|i: int|
            0 <= i < old(foods)@.len() && old(foods)@[i].hp <= 0 ==> removed@.contains(
                (#[trigger] old(foods)@[i]).id,
            ),
{
    let ghost foods0 = foods@;
    let mut kept: Vec<Food> = Vec::new();
    let mut removed: Vec<u64> = Vec::new();
    let mut i: usize = 0;
    while i < foods.len()
        invariant
            i <= foods@.len(),
            foods@ == foods0,
            kept@ == standing(foods0.subrange(0, i as int)),
            forall|j: int| 0 <= j < kept@.len() ==> (#[trigger] kept@[j]).hp > 0,
            forall|j: int|
                0 <= j < i as int && foods0[j].hp <= 0 ==> removed@.contains(foods0[j].id),
        decreases foods@.len() - i,
    {
        let f = foods[i];
        proof {
            assert(foods0.subrange(0, i as int + 1).drop_last() == foods0.subrange(0, i as int));
            assert(foods0.subrange(0, i as int + 1).last() == foods0[i as int]);
        }
        let ghost removed0 = removed@;
        if f.hp > 0 {
            kept.push(f);
        } else {
            removed.push(f.id);
        }
        proof {
            assert forall|x: u64| removed0.contains(x) implies removed@.contains(x) by {
                let k = choose|k: int| 0 <= k < removed0.len() && removed0[k] == x;
                assert(removed@[k] == x);
            }
            if f.hp <= 0 {
                assert(removed@[removed@.len() - 1] == f.id);
            }
        }
        i = i + 1;
    }
    proof {
        assert(foods0.subrange(0, foods0.len() as int) == foods0);
    }
    *foods = kept;
    removed
}

/// Depletion removal never grows the field.
pub proof fn lemma_standing_no_longer(s: Seq<Food>)
    ensures
        standing(s).len() <= s.len(),
    decreases s.len(),
{
    if s.len() > 0 {
        lemma_standing_no_longer(s.drop_last());
    }
}

/// The soft cap holds across regrowth: a population at or below the cap
/// stays at or below it, since below the cap at most one item is added
/// and at the cap none is.
pub proof fn lemma_regrow_respects_cap(len: int)
    requires
        0 <= len <= FOOD_CAP,
    ensures
        (if len < FOOD_CAP {
            len + 1
        } else {
            len
        }) <= FOOD_CAP,
{
}

} // verus!
