use dragon_world::tower::{flight_half, tower_plan, Slab, StairHalf, WestWall, NUM_FLOORS};

#[test]
fn flights_alternate_from_west() {
    assert_eq!(flight_half(0), StairHalf::West);
    assert_eq!(flight_half(1), StairHalf::East);
    assert_eq!(flight_half(2), StairHalf::West);
    assert_eq!(flight_half(11), StairHalf::East);
}

#[test]
fn twelve_storey_plan() {
    let plan = tower_plan(NUM_FLOORS);
    assert_eq!(plan.west_walls.len(), 12);
    assert_eq!(plan.slabs.len(), 12);
    assert_eq!(plan.flights.len(), 11);
    assert_eq!(plan.west_walls[0], WestWall::Door);
    assert!(plan.west_walls[1..].iter().all(|w| *w == WestWall::Windows));
    assert_eq!(plan.slabs[11], Slab::Roof);
    assert_eq!(plan.slabs[0], Slab::Floor { hole: StairHalf::West });
    assert_eq!(plan.slabs[1], Slab::Floor { hole: StairHalf::East });
}

#[test]
fn every_flight_exits_through_the_slab_above() {
    let plan = tower_plan(NUM_FLOORS);
    for (level, half) in plan.flights.iter().enumerate() {
        assert_eq!(plan.slabs[level], Slab::Floor { hole: *half });
        if level + 1 < plan.flights.len() {
            assert_ne!(*half, plan.flights[level + 1]);
        }
    }
}

#[test]
fn single_storey_is_just_a_roofed_room() {
    let plan = tower_plan(1);
    assert_eq!(plan.west_walls, vec![WestWall::Door]);
    assert_eq!(plan.slabs, vec![Slab::Roof]);
    assert!(plan.flights.is_empty());
}
