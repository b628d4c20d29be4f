//! Layout plan of the tower: which storey gets the entrance door, which
//! half of the stairwell each flight of stairs climbs in, where each floor
//! slab is pierced, and where the roof goes. The metric geometry (storey
//! height, wall thickness, window positions) is applied to this plan by the
//! scene builder.

use vstd::prelude::*;

verus! {

/// Number of storeys of the tower.
pub const NUM_FLOORS: usize = 12;

/// One half of the stairwell, split along the X axis.
#[derive(Clone, Copy, Debug, PartialEq, Eq, Structural)]
pub enum StairHalf {
    /// The half towards -X.
    West,
    /// The half towards +X.
    East,
}

/// What the west (-X) wall of a storey is made of.
#[derive(Clone, Copy, Debug, PartialEq, Eq, Structural)]
pub enum WestWall {
    /// A wall pierced by the entrance door.
    Door,
    /// A wall pierced by windows, like the other three walls.
    Windows,
}

/// A horizontal slab: the ceiling of one storey and the floor of the next.
#[derive(Clone, Copy, Debug, PartialEq, Eq, Structural)]
pub enum Slab {
    /// A floor with an opening above the flight of stairs below it.
    Floor { hole: StairHalf },
    /// The closed roof on top of the last storey.
    Roof,
}

/// The stairwell half used by the flight climbing from storey `level`:
/// flights alternate, starting in the west half at ground level.
pub open spec fn flight_half_of(level: nat) -> StairHalf {
    if level % 2 == 0 {
        StairHalf::West
    } else {
        StairHalf::East
    }
}

/// The west wall of storey `level`: only the ground floor has the door.
pub open spec fn west_wall_of(level: nat) -> WestWall {
    if level == 0 {
        WestWall::Door
    } else {
        WestWall::Windows
    }
}

/// The slab at height `slab_level` (1 ..= num_floors) of a tower of
/// `num_floors` storeys: the top one is the roof, every other one is pierced
/// above the flight that climbs from the storey below it.
pub open spec fn slab_of(num_floors: nat, slab_level: nat) -> Slab {
    if slab_level == num_floors {
        Slab::Roof
    } else {
        Slab::Floor { hole: flight_half_of((slab_level - 1) as nat) }
    }
}

/// The complete layout of a tower.
pub struct TowerPlan {
    /// West wall of each storey, ground floor first.
    pub west_walls: Vec<WestWall>,
    /// Slab `i` sits on top of storey `i` (slab levels 1 ..= storeys).
    pub slabs: Vec<Slab>,
    /// Flight `i` climbs from storey `i` to storey `i + 1`.
    pub flights: Vec<StairHalf>,
}

/// The stairwell half used by the flight climbing from storey `level`.
pub fn flight_half(level: usize) -> (half: StairHalf)
    ensures
        half == flight_half_of(level as nat),
        (half == StairHalf::West) == (level % 2 == 0),
{
    if level % 2 == 0 {
        StairHalf::West
    } else {
        StairHalf::East
    }
}

/// Lays out a tower of `num_floors` storeys.
pub fn tower_plan(num_floors: usize) -> (plan: TowerPlan)
    requires
        num_floors >= 1,
    ensures
        plan.west_walls@.len() == num_floors,
        plan.slabs@.len() == num_floors,
        plan.flights@.len() == num_floors - 1,
        forall|l: int| 0 <= l < num_floors ==> #[trigger] plan.west_walls@[l] == west_wall_of(l as nat),
        forall|i: int|
            0 <= i < num_floors ==> #[trigger] plan.slabs@[i] == slab_of(num_floors as nat, (i + 1) as nat),
        forall|l: int| 0 <= l < num_floors - 1 ==> #[trigger] plan.flights@[l] == flight_half_of(l as nat),
        forall|l: int|
            0 <= l < num_floors ==> (#[trigger] plan.west_walls@[l] == WestWall::Door) == (l == 0),
        forall|i: int|
            0 <= i < num_floors ==> (#[trigger] plan.slabs@[i] == Slab::Roof) == (i == num_floors - 1),
        forall|l: int|
            0 <= l < num_floors - 1 ==> #[trigger] plan.slabs@[l] == (Slab::Floor {
                hole: plan.flights@[l],
            }),
        forall|l: int|
            0 <= l < num_floors - 1 ==> (#[trigger] plan.flights@[l] == StairHalf::West) == (l % 2
                == 0),
{
    let mut west_walls: Vec<WestWall> = Vec::new();
    let mut slabs: Vec<Slab> = Vec::new();
    let mut level: usize = 0;
    while level < num_floors
        invariant
            level <= num_floors,
            west_walls@.len() == level,
            slabs@.len() == level,
            forall|l: int| 0 <= l < level ==> #[trigger] west_walls@[l] == west_wall_of(l as nat),
            forall|i: int|
                0 <= i < level ==> #[trigger] slabs@[i] == slab_of(num_floors as nat, (i + 1) as nat),
        decreases num_floors - level,
    {
        if level == 0 {
            west_walls.push(WestWall::Door);
        } else {
            west_walls.push(WestWall::Windows);
        }
        if level + 1 == num_floors {
            slabs.push(Slab::Roof);
        } else {
            slabs.push(Slab::Floor { hole: flight_half(level) });
        }
        level = level + 1;
    }
    let mut flights: Vec<StairHalf> = Vec::new();
    let mut level: usize = 0;
    while level < num_floors - 1
        invariant
            level <= num_floors - 1,
            flights@.len() == level,
            forall|l: int| 0 <= l < level ==> #[trigger] flights@[l] == flight_half_of(l as nat),
        decreases num_floors - 1 - level,
    {
        flights.push(flight_half(level));
        level = level + 1;
    }
    TowerPlan { west_walls, slabs, flights }
}

/// Every flight of stairs comes out through the opening of the slab above
/// it: the slab on top of storey `l` (for every storey but the last) is a
/// floor whose hole is in the half the flight from storey `l` climbs in.
pub proof fn lemma_flights_pass_through_holes(num_floors: nat, l: nat)
    requires
        l + 1 < num_floors,
    ensures
        slab_of(num_floors, l + 1) == (Slab::Floor { hole: flight_half_of(l) }),
{
}

/// Consecutive flights use opposite halves of the stairwell, so a flight
/// never lands on the bottom of the next one.
pub proof fn lemma_flights_alternate(l: nat)
    ensures
        flight_half_of(l) != flight_half_of(l + 1),
{
}

/// The tower has a single roof, the top slab, and a single entrance, on the
/// ground floor.
pub proof fn lemma_single_roof_and_door(num_floors: nat, s: nat, l: nat)
    requires
        1 <= s <= num_floors,
    ensures
        (slab_of(num_floors, s) == Slab::Roof) <==> s == num_floors,
        (west_wall_of(l) == WestWall::Door) <==> l == 0,
{
}

} // verus!
