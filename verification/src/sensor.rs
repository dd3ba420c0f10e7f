//! The sight sensor: nearest-food and nearest-rival detection with
//! proximity/bearing encoding.
//!
//! The physics collaborator hands each agent the set of entities its two
//! detection shapes overlap, as displacements from the agent plus the
//! absolute direction angle of each displacement. This module picks the
//! nearest candidate of each kind (exact comparison on squared distances,
//! the earliest candidate winning ties), encodes proximity as
//! `1 - distance/180` and bearing as the folded relative angle, and yields
//! the `(0, 0)` sentinel when nothing is seen. That sentinel is by design
//! indistinguishable from a reading at the sensing boundary directly ahead.

use vstd::prelude::*;

use crate::angle::{bearing, bearing_spec, is_folded};
use crate::units::ONE;

verus! {

/// World units of the sensing range; proximity is 1 - distance/RANGE.
pub const SENSOR_RANGE: i64 = 180;

/// Machine cap on candidate displacements, so squared distances and their
/// roots stay inside 64-bit arithmetic.
pub const DISPLACEMENT_BOUND: i64 = 1_000_000_000_000_000;

/// What kind of entity a sight candidate is.
#[derive(Clone, Copy, PartialEq, Eq, Structural, Debug)]
pub enum SightKind {
    Food,
    Rival,
}

/// One entity overlapped by the sight shapes: its stable handle, kind,
/// displacement from the sensing agent (fixed-point world units) and the
/// absolute direction angle of that displacement in canonical form.
#[derive(Clone, Copy, PartialEq, Eq, Structural, Debug)]
pub struct SightCandidate {
    pub id: u64,
    pub kind: SightKind,
    pub dx: i64,
    pub dy: i64,
    pub dir: i64,
}

/// The encoded reading of one agent's sight sensor for one tick: a
/// (proximity, bearing) pair per kind, (0, 0) when nothing is sensed.
#[derive(Clone, Copy, PartialEq, Eq, Structural, Debug)]
pub struct SensorReading {
    pub food_proximity: i64,
    pub food_bearing: i64,
    pub rival_proximity: i64,
    pub rival_bearing: i64,
}

impl SightCandidate {
    /// Squared distance of the candidate from the sensing agent.
    pub open spec fn sq_dist(self) -> int {
        self.dx * self.dx + self.dy * self.dy
    }

    /// Within the machine displacement cap and with a canonical direction.
    pub open spec fn wf(self) -> bool {
        -DISPLACEMENT_BOUND <= self.dx <= DISPLACEMENT_BOUND && -DISPLACEMENT_BOUND <= self.dy
            <= DISPLACEMENT_BOUND && is_folded(self.dir as int)
    }
}

/// The floor of the square root of a nonnegative integer.
pub open spec fn sqrt_floor(n: int) -> int {
    choose|r: int| #![trigger r * r] 0 <= r && r * r <= n < (r + 1) * (r + 1)
}

/// The square-root floor is the unique nonnegative r with r^2 <= n < (r+1)^2.
pub proof fn lemma_sqrt_floor_unique(n: int, r: int)
    requires
        0 <= r,
        r * r <= n,
        n < (r + 1) * (r + 1),
    ensures
        sqrt_floor(n) == r,
{
    assert(exists|q: int| #![trigger q * q] 0 <= q && q * q <= n < (q + 1) * (q + 1)) by {
        assert(0 <= r && r * r <= n < (r + 1) * (r + 1));
    }
    let q = sqrt_floor(n);
    assert(0 <= q && q * q <= n < (q + 1) * (q + 1));
    if q < r {
        assert((q + 1) * (q + 1) <= r * r) by (nonlinear_arith)
            requires
                0 <= q,
                q < r,
        ;
    }
    if r < q {
        assert((r + 1) * (r + 1) <= q * q) by (nonlinear_arith)
            requires
                0 <= r,
                r < q,
        ;
    }
}

/// Integer square root by bisection: the greatest r with r^2 <= n.
pub fn isqrt(n: u128) -> (r: u128)
    ensures
        r * r <= n,
        n < (r + 1) * (r + 1),
        r == sqrt_floor(n as int),
{
    let mut lo: u128 = 0;
    let mut hi: u128 = 0x1_0000_0000_0000_0000;
    proof {
        assert(n < 0x1_0000_0000_0000_0000u128 * 0x1_0000_0000_0000_0000u128) by (nonlinear_arith)
            requires
                n <= u128::MAX,
        ;
    }
    while lo + 1 < hi
        invariant
            lo < hi <= 0x1_0000_0000_0000_0000u128,
            (lo as int) * (lo as int) <= n as int,
            (n as int) < (hi as int) * (hi as int),
        decreases hi - lo,
    {
        let mid: u128 = lo + (hi - lo) / 2;
        proof {
            assert(mid * mid <= u128::MAX) by (nonlinear_arith)
                requires
                    mid < 0x1_0000_0000_0000_0000u128,
            ;
        }
        if mid * mid <= n {
            lo = mid;
        } else {
            hi = mid;
        }
    }
    proof {
        lemma_sqrt_floor_unique(n as int, lo as int);
    }
    lo
}

/// Exact distance (floor of the Euclidean length) of a displacement, in the
/// same fixed-point world units as its components.
pub fn displacement_length(dx: i64, dy: i64) -> (d: i64)
    requires
        -DISPLACEMENT_BOUND <= dx <= DISPLACEMENT_BOUND,
        -DISPLACEMENT_BOUND <= dy <= DISPLACEMENT_BOUND,
    ensures
        d == sqrt_floor(dx * dx + dy * dy),
        0 <= d,
        d * d <= dx * dx + dy * dy < (d + 1) * (d + 1),
{
    let x: i128 = dx as i128;
    let y: i128 = dy as i128;
    proof {
        assert(0 <= x * x <= 1_000_000_000_000_000_000_000_000_000_000i128 && 0 <= y * y
            <= 1_000_000_000_000_000_000_000_000_000_000i128) by (nonlinear_arith)
            requires
                -1_000_000_000_000_000i128 <= x <= 1_000_000_000_000_000i128,
                -1_000_000_000_000_000i128 <= y <= 1_000_000_000_000_000i128,
        ;
    }
    let sq: u128 = (x * x + y * y) as u128;
    let root: u128 = isqrt(sq);
    proof {
        assert((root as int) * (root as int) <= 2_000_000_000_000_000_000_000_000_000_000int);
        assert(root < 1_500_000_000_000_000u128) by (nonlinear_arith)
            requires
                (root as int) * (root as int) <= 2_000_000_000_000_000_000_000_000_000_000int,
        ;
    }
    root as i64
}

/// Whether a candidate competes for the given reading: it must be of the
/// wanted kind, and an agent never senses itself as a rival.
pub open spec fn is_wanted(c: SightCandidate, self_id: u64, kind: SightKind) -> bool {
    c.kind == kind && (kind == SightKind::Rival ==> c.id != self_id)
}

/// Index of the nearest wanted candidate among the first `n`, the earliest
/// winning exact ties, or -1 when none competes.
pub open spec fn nearest_in_prefix(
    cands: Seq<SightCandidate>,
    self_id: u64,
    kind: SightKind,
    n: int,
) -> int
    decreases n,
{
    if n <= 0 {
        -1
    } else {
        let prev = nearest_in_prefix(cands, self_id, kind, n - 1);
        if !is_wanted(cands[n - 1], self_id, kind) {
            prev
        } else if prev == -1 {
            n - 1
        } else if cands[n - 1].sq_dist() < cands[prev].sq_dist() {
            n - 1
        } else {
            prev
        }
    }
}

/// The (proximity, bearing) pair encoded for one kind: the sentinel (0, 0)
/// when nothing competes, else `1 - distance/180` and the folded bearing of
/// the nearest candidate — with bearing 0 for the degenerate zero-length
/// displacement, whose direction is undefined.
pub open spec fn reading_spec(
    cands: Seq<SightCandidate>,
    self_id: u64,
    kind: SightKind,
    forward: int,
) -> (int, int) {
    let j = nearest_in_prefix(cands, self_id, kind, cands.len() as int);
    if j == -1 {
        (0, 0)
    } else {
        let c = cands[j];
        let d = sqrt_floor(c.sq_dist());
        (ONE - d / (SENSOR_RANGE as int), if d == 0 {
            0
        } else {
            bearing_spec(forward, c.dir as int)
        })
    }
}

/// The nearest-in-prefix index always lands on a wanted candidate, and on
/// one at least as near as every other wanted one.
pub proof fn lemma_nearest_sound(cands: Seq<SightCandidate>, self_id: u64, kind: SightKind, n: int)
    requires
        0 <= n <= cands.len(),
    ensures
        nearest_in_prefix(cands, self_id, kind, n) == -1 ==> forall|i: int|
            0 <= i < n ==> !is_wanted(cands[i], self_id, kind),
        nearest_in_prefix(cands, self_id, kind, n) != -1 ==> {
            let j = nearest_in_prefix(cands, self_id, kind, n);
            &&& 0 <= j < n
            &&& is_wanted(cands[j], self_id, kind)
            &&& forall|i: int|
                0 <= i < n && is_wanted(cands[i], self_id, kind) ==> cands[j].sq_dist()
                    <= cands[i].sq_dist()
        },
    decreases n,
{
    if n > 0 {
        lemma_nearest_sound(cands, self_id, kind, n - 1);
    }
}

/// Squared distance of a candidate, exactly.
pub fn sq_dist_of(c: &SightCandidate) -> (s: i128)
    requires
        c.wf(),
    ensures
        s == c.sq_dist(),
{
    let x: i128 = c.dx as i128;
    let y: i128 = c.dy as i128;
    proof {
        assert(0 <= x * x <= 1_000_000_000_000_000_000_000_000_000_000i128 && 0 <= y * y
            <= 1_000_000_000_000_000_000_000_000_000_000i128) by (nonlinear_arith)
            requires
                -1_000_000_000_000_000i128 <= x <= 1_000_000_000_000_000i128,
                -1_000_000_000_000_000i128 <= y <= 1_000_000_000_000_000i128,
        ;
    }
    x * x + y * y
}

/// Find the nearest wanted candidate, the earliest winning exact ties.
fn nearest(cands: &Vec<SightCandidate>, self_id: u64, kind: SightKind) -> (r: Option<usize>)
    requires
        forall|i: int| 0 <= i < cands@.len() ==> #[trigger] cands@[i].wf(),
    ensures
        match r {
            None => nearest_in_prefix(cands@, self_id, kind, cands@.len() as int) == -1,
            Some(j) => j < cands@.len() && nearest_in_prefix(
                cands@,
                self_id,
                kind,
                cands@.len() as int,
            ) == j,
        },
{
    let mut best: Option<usize> = None;
    let mut best_sq: i128 = 0;
    let mut i: usize = 0;
    while i < cands.len()
        invariant
            i <= cands@.len(),
            forall|k: int| 0 <= k < cands@.len() ==> #[trigger] cands@[k].wf(),
            match best {
                None => nearest_in_prefix(cands@, self_id, kind, i as int) == -1,
                Some(j) => j < i && nearest_in_prefix(cands@, self_id, kind, i as int) == j
                    && best_sq == cands@[j as int].sq_dist(),
            },
        decreases cands@.len() - i,
    {
        let c = cands[i];
        let wanted: bool = match kind {
            SightKind::Food => c.kind == SightKind::Food,
            SightKind::Rival => c.kind == SightKind::Rival && c.id != self_id,
        };
        if wanted {
            let csq = sq_dist_of(&c);
            match best {
                None => {
                    best = Some(i);
                    best_sq = csq;
                },
                Some(_) => {
                    if csq < best_sq {
                        best = Some(i);
                        best_sq = csq;
                    }
                },
            }
        }
        i = i + 1;
    }
    best
}

/// Encode one kind's (proximity, bearing) pair from the candidate set.
fn encode_reading(cands: &Vec<SightCandidate>, self_id: u64, kind: SightKind, forward: i64) -> (r: (
    i64,
    i64,
))
    requires
        is_folded(forward as int),
        forall|i: int| 0 <= i < cands@.len() ==> #[trigger] cands@[i].wf(),
    ensures
        r.0 == reading_spec(cands@, self_id, kind, forward as int).0,
        r.1 == reading_spec(cands@, self_id, kind, forward as int).1,
{
    match nearest(cands, self_id, kind) {
        None => (0, 0),
        Some(j) => {
            let c = cands[j];
            proof {
                assert(cands@[j as int].wf());
            }
            let d = displacement_length(c.dx, c.dy);
            let proximity: i64 = ONE - ((d as u64 / (SENSOR_RANGE as u64)) as i64);
            let b: i64 = if d == 0 {
                0
            } else {
                bearing(forward, c.dir)
            };
            (proximity, b)
        },
    }
}

/// One agent's full sight reading for a tick: the nearest food and the
/// nearest rival (excluding the agent itself), each encoded as proximity
/// `1 - distance/180` and folded bearing, with (0, 0) when nothing is seen.
pub fn sense(cands: &Vec<SightCandidate>, self_id: u64, forward: i64) -> (r: SensorReading)
    requires
        is_folded(forward as int),
        forall|i: int| 0 <= i < cands@.len() ==> #[trigger] cands@[i].wf(),
    ensures
        r.food_proximity == reading_spec(cands@, self_id, SightKind::Food, forward as int).0,
        r.food_bearing == reading_spec(cands@, self_id, SightKind::Food, forward as int).1,
        r.rival_proximity == reading_spec(cands@, self_id, SightKind::Rival, forward as int).0,
        r.rival_bearing == reading_spec(cands@, self_id, SightKind::Rival, forward as int).1,
{
    let food = encode_reading(cands, self_id, SightKind::Food, forward);
    let rival = encode_reading(cands, self_id, SightKind::Rival, forward);
    SensorReading {
        food_proximity: food.0,
        food_bearing: food.1,
        rival_proximity: rival.0,
        rival_bearing: rival.1,
    }
}

/// Sensing is a pure function of the world state: two readings taken from
/// the same candidates, agent and forward axis are identical, so running
/// the sensor twice on an unchanged world changes nothing.
pub proof fn lemma_sense_idempotent(
    cands: Seq<SightCandidate>,
    self_id: u64,
    kind: SightKind,
    forward: int,
    r1: (int, int),
    r2: (int, int),
)
    requires
        r1 == reading_spec(cands, self_id, kind, forward),
        r2 == reading_spec(cands, self_id, kind, forward),
    ensures
        r1 == r2,
{
}

} // verus!
