//! The controller bridge: assembling each agent's input vector for the
//! Controller Population, under a runtime-growing input arity.
//!
//! The channel order is fixed: sensor signals, stamina, the two oscillator
//! rhythms, health, satiety, then the cached kinematic summary. The arity
//! starts at 5 and grows to 7 and then 11 as the growth events fire; every
//! consumer reads the current arity from the [`InputSchema`], never from a
//! constant, and a batch whose vector lengths disagree with the declared
//! arity is a programming error the population would refuse fatally.

use vstd::prelude::*;

verus! {

/// The input arity before any growth event.
pub const BASE_ARITY: usize = 5;

/// The input arity after the first growth event adds the two rhythms.
pub const MID_ARITY: usize = 7;

/// The input arity after the second growth event adds the last four.
pub const FULL_ARITY: usize = 11;

/// Everything an agent can feed its controller on one tick, already in
/// fixed-point units; tri-state rhythms are scaled by [`crate::units::ONE`].
#[derive(Clone, Copy, PartialEq, Eq, Structural, Debug)]
pub struct ControlChannels {
    pub food_proximity: i64,
    pub food_bearing: i64,
    pub rival_proximity: i64,
    pub rival_bearing: i64,
    pub stamina: i64,
    pub osc_short: i64,
    pub osc_long: i64,
    pub health: i64,
    pub satiety: i64,
    pub linvel: i64,
    pub angvel: i64,
}

/// The fixed channel order of the full 11-channel input vector.
pub open spec fn channel_order(c: ControlChannels) -> Seq<int> {
    seq![
        c.food_proximity as int,
        c.food_bearing as int,
        c.rival_proximity as int,
        c.rival_bearing as int,
        c.stamina as int,
        c.osc_short as int,
        c.osc_long as int,
        c.health as int,
        c.satiety as int,
        c.linvel as int,
        c.angvel as int,
    ]
}

/// The versioned input schema: the arity every input vector must have this
/// tick. Grown in place by the two growth events, never assumed constant.
#[derive(Clone, Copy, PartialEq, Eq, Structural, Debug)]
pub struct InputSchema {
    pub arity: usize,
}

impl InputSchema {
    /// The schema holds one of the three arities the growth schedule
    /// can produce.
    pub open spec fn valid(self) -> bool {
        self.arity == BASE_ARITY || self.arity == MID_ARITY || self.arity == FULL_ARITY
    }

    /// The schema at simulation start: five channels.
    pub fn initial() -> (r: InputSchema)
        ensures
            r.arity == BASE_ARITY,
            r.valid(),
    {
        InputSchema { arity: BASE_ARITY }
    }

    /// The first growth event: the two oscillator rhythms join the vector.
    pub fn grow_two(&mut self)
        requires
            old(self).arity == BASE_ARITY,
        ensures
            final(self).arity == MID_ARITY,
            final(self).valid(),
    {
        self.arity = MID_ARITY;
    }

    /// The second growth event: health, satiety and the kinematic summary
    /// join the vector.
    pub fn grow_four(&mut self)
        requires
            old(self).arity == MID_ARITY,
        ensures
            final(self).arity == FULL_ARITY,
            final(self).valid(),
    {
        self.arity = FULL_ARITY;
    }
}

impl ControlChannels {
    /// Gather one agent's channels for this tick from its sensor reading,
    /// its metabolic triple, the two oscillator rhythms and its cached
    /// kinematic summary, in the fixed channel order.
    pub fn gather(
        reading: &crate::sensor::SensorReading,
        vitals: &crate::vitals::Vitals,
        osc_short: i64,
        osc_long: i64,
        linvel: i64,
        angvel: i64,
    ) -> (c: ControlChannels)
        ensures
            c == (ControlChannels {
                food_proximity: reading.food_proximity,
                food_bearing: reading.food_bearing,
                rival_proximity: reading.rival_proximity,
                rival_bearing: reading.rival_bearing,
                stamina: vitals.stamina,
                osc_short,
                osc_long,
                health: vitals.hp,
                satiety: vitals.satiety,
                linvel,
                angvel,
            }),
    {
        ControlChannels {
            food_proximity: reading.food_proximity,
            food_bearing: reading.food_bearing,
            rival_proximity: reading.rival_proximity,
            rival_bearing: reading.rival_bearing,
            stamina: vitals.stamina,
            osc_short,
            osc_long,
            health: vitals.hp,
            satiety: vitals.satiety,
            linvel,
            angvel,
        }
    }
}

/// Build one agent's input vector: exactly the first `arity` channels of
/// the fixed order, so a built vector always matches the schema it was
/// built against.
pub fn build_inputs(c: &ControlChannels, schema: &InputSchema) -> (v: Vec<i64>)
    requires
        schema.valid(),
    ensures
        v@.len() == schema.arity,
        forall|i: int| 0 <= i < v@.len() ==> #[trigger] v@[i] == channel_order(*c)[i],
{
    let mut v: Vec<i64> = Vec::new();
    v.push(c.food_proximity);
    v.push(c.food_bearing);
    v.push(c.rival_proximity);
    v.push(c.rival_bearing);
    v.push(c.stamina);
    if schema.arity >= MID_ARITY {
        v.push(c.osc_short);
        v.push(c.osc_long);
    }
    if schema.arity == FULL_ARITY {
        v.push(c.health);
        v.push(c.satiety);
        v.push(c.linvel);
        v.push(c.angvel);
    }
    v
}

/// The integrity condition the Controller Population checks before it
/// evaluates a batch: every submitted vector has the declared arity.
pub open spec fn batch_consistent(batch: Seq<Vec<i64>>, arity: int) -> bool {
    forall|i: int| 0 <= i < batch.len() ==> (#[trigger] batch[i])@.len() == arity
}

/// Check a whole batch against the declared arity. A mismatch means the
/// growth schedule and the bridge disagree: a programming error, not a
/// recoverable condition.
pub fn check_batch(batch: &Vec<Vec<i64>>, arity: usize) -> (ok: bool)
    ensures
        ok == batch_consistent(batch@, arity as int),
{
    let mut i: usize = 0;
    while i < batch.len()
        invariant
            i <= batch@.len(),
            forall|j: int| 0 <= j < i as int ==> (#[trigger] batch@[j])@.len() == arity,
        decreases batch@.len() - i,
    {
        if batch[i].len() != arity {
            proof {
                assert(!batch_consistent(batch@, arity as int));
            }
            return false;
        }
        i = i + 1;
    }
    true
}

/// A batch of vectors each built against one schema always passes the
/// population's integrity check for that schema's arity: with correct
/// scheduling the fatal mismatch can never happen.
pub proof fn lemma_built_batch_consistent(batch: Seq<Vec<i64>>, schema: InputSchema)
    requires
        forall|i: int| 0 <= i < batch.len() ==> (#[trigger] batch[i])@.len() == schema.arity,
    ensures
        batch_consistent(batch, schema.arity as int),
{
}

} // verus!
