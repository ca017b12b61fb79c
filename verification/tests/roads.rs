use simchopper::car_navigation::{draw_target, is_target_reached, take_target, MovingNavigation, Navigation};
use simchopper::city_data::Building;
use simchopper::road_navigation::{
    corner_lane_multiplier, Corners, Direction, NearestProbe, NearestSearch, NearestStep,
    RoadNavigation, RoadNavigationRes, RoadNetworkError,
};

fn road(x: u32, y: u32) -> Building {
    Building { size: 1, name: "road".to_string(), id: 0x1D, tile_coords: (x, y) }
}

fn network(tiles: &[(u32, u32)]) -> RoadNavigation {
    let mut n = RoadNavigation::new();
    for (x, y) in tiles {
        n.insert_node(road(*x, *y));
    }
    n
}

#[test]
fn corner_pieces_by_id() {
    assert_eq!(Corners::from_u8(0x23), Some(Corners::TopRight));
    assert_eq!(Corners::from_u8(0x24), Some(Corners::BottomRight));
    assert_eq!(Corners::from_u8(0x25), Some(Corners::BottomLeft));
    assert_eq!(Corners::from_u8(0x26), Some(Corners::TopLeft));
    assert_eq!(Corners::from_u8(0x27), None);
    assert_eq!(Corners::TopLeft.direction(), (-1, -1));
    assert_eq!(Corners::BottomRight.direction(), (1, 1));
}

#[test]
fn corner_lanes() {
    assert_eq!(corner_lane_multiplier(Direction::Forward, Corners::BottomLeft), 1);
    assert_eq!(corner_lane_multiplier(Direction::Back, Corners::BottomLeft), 3);
    assert_eq!(corner_lane_multiplier(Direction::Right, Corners::TopRight), 1);
    assert_eq!(corner_lane_multiplier(Direction::Left, Corners::TopRight), 3);
}

#[test]
fn nodes_are_found_by_tile() {
    let n = network(&[(1, 1), (2, 1)]);
    assert_eq!(n.len(), 2);
    assert_eq!(n.get_node((2, 1)).map(|b| b.tile_coords), Some((2, 1)));
    assert!(n.get_node((3, 3)).is_none());
}

#[test]
fn neighbors_are_the_adjacent_nodes() {
    let mut n = network(&[(1, 1), (1, 0), (0, 1), (2, 1), (1, 2), (2, 2)]);
    assert_eq!(n.get_neighbors((1, 1)), Some(vec![(1, 0), (0, 1), (2, 1), (1, 2)]));
    assert_eq!(n.get_neighbors((0, 1)), Some(vec![(1, 1)]));
    assert_eq!(n.get_neighbors((5, 5)), None);
}

#[test]
fn neighbor_lists_are_kept_until_their_node_is_replaced() {
    let mut n = network(&[(0, 0)]);
    assert_eq!(n.get_neighbors((0, 0)), Some(vec![]));
    n.insert_node(road(1, 0));
    assert_eq!(n.get_neighbors((0, 0)), Some(vec![]));
    n.insert_node(road(0, 0));
    assert_eq!(n.get_neighbors((0, 0)), Some(vec![(1, 0)]));
}

#[test]
fn first_and_last_nodes_in_a_span() {
    let n = network(&[(1, 5), (2, 0), (2, 3), (4, 4)]);
    assert_eq!(n.lowest_between((1, 6), (4, 0)), Some((2, 0)));
    assert_eq!(n.highest_between((1, 6), (4, 0)), Some((2, 3)));
    assert_eq!(n.lowest_between((0, 0), (1, 4)), None);
    assert_eq!(n.highest_between((0, 0), (9, 9)), Some((4, 4)));
}

#[test]
fn nearest_search_starts_at_the_ends() {
    let n = network(&[(1, 5), (2, 0), (4, 4)]);
    let s = n.start_nearest_search().unwrap();
    assert_eq!((s.low, s.high), ((1, 5), (4, 4)));
    assert!(RoadNavigation::new().start_nearest_search().is_none());
}

#[test]
fn nearest_search_steps() {
    let n = network(&[(1, 1), (2, 2), (3, 3), (4, 4)]);
    let s = NearestSearch { low: (1, 1), low_object: (1, 1), high: (4, 4), high_object: (4, 4) };
    let reached = NearestProbe {
        low_reached: true,
        high_reached: false,
        low_target: (0, 0),
        high_offset: (0, 0),
        low_not_farther: true,
    };
    assert!(matches!(n.nearest_search_step(s, reached), NearestStep::Found((1, 1))));
    let probe = NearestProbe {
        low_reached: false,
        high_reached: false,
        low_target: (2, 2),
        high_offset: (1, 1),
        low_not_farther: true,
    };
    match n.nearest_search_step(s, probe) {
        NearestStep::Next(next) => {
            assert_eq!(next.low, (2, 2));
            assert_eq!(next.high, (3, 3));
        }
        NearestStep::Found(_) => panic!("the search should go on"),
    }
    let meet = NearestProbe {
        low_reached: false,
        high_reached: false,
        low_target: (3, 3),
        high_offset: (1, 1),
        low_not_farther: true,
    };
    assert!(matches!(n.nearest_search_step(s, meet), NearestStep::Found((3, 3))));
}

#[test]
fn random_node_is_a_node() {
    let n = network(&[(1, 1), (2, 2), (3, 3)]);
    for _ in 0..20 {
        let b = n.get_random_node();
        assert!(n.get_node(b.tile_coords).is_some());
    }
    assert_eq!(n.node_at(0).tile_coords, (1, 1));
    assert_eq!(n.node_at(2).tile_coords, (3, 3));
}

#[test]
fn target_is_reached_when_all_nodes_meet() {
    let m = MovingNavigation { current: (1, 1), target: (1, 1), next: (1, 1) };
    assert!(is_target_reached(&m));
    let m = MovingNavigation { current: (1, 1), target: (2, 1), next: (1, 1) };
    assert!(!is_target_reached(&m));
    let nav = Navigation::Moving(m);
    assert_eq!(nav.as_moving().target, (2, 1));
}

#[test]
fn a_new_target_differs_from_the_old() {
    assert!(take_target((1, 1), Some((2, 2)), (2, 2)).is_none());
    match take_target((1, 1), Some((2, 2)), (3, 3)) {
        Some(Navigation::Targeted(t)) => {
            assert_eq!(t.current_node, (1, 1));
            assert_eq!(t.target_node, (3, 3));
        }
        _ => panic!("the target should be taken"),
    }
}

#[test]
fn cars_are_placed_before_they_get_targets() {
    let nav = Navigation::default();
    assert!(matches!(nav.located(None), None));
    assert!(matches!(nav.located(Some((4, 4))), Some(Navigation::Located((4, 4)))));
    let placed = Navigation::Located((4, 4));
    assert_eq!(placed.target_request(), ((4, 4), None));
    assert_eq!(placed.leg(true), None);
    let n = network(&[(4, 4), (5, 4)]);
    loop {
        if let Some(Navigation::Targeted(t)) = draw_target(&placed, &n) {
            assert_eq!(t.current_node, (4, 4));
            break;
        }
    }
}

#[test]
fn moving_cars_plan_from_the_node_they_reached() {
    let nav = Navigation::moving((1, 1), (3, 1), (2, 1));
    assert_eq!(nav.leg(false), None);
    assert_eq!(nav.leg(true), Some(((2, 1), (3, 1))));
}

#[test]
fn the_resource_needs_world_constants_first() {
    let mut res = RoadNavigationRes::new();
    assert_eq!(res.insert_node(road(1, 1)), Err(RoadNetworkError::NotReady));
    assert_eq!(res.node((1, 1)).err(), Some(RoadNetworkError::NotReady));
    assert!(res.road_navigation().is_none());
    res.set_world_constants();
    assert_eq!(res.insert_node(road(1, 1)), Ok(()));
    assert_eq!(res.insert_node(road(2, 1)), Ok(()));
    assert_eq!(res.node((1, 1)).map(|b| b.tile_coords), Ok((1, 1)));
    assert_eq!(res.node((3, 3)).err(), Some(RoadNetworkError::UnknownNode(3, 3)));
    assert_eq!(res.route_nodes((1, 1), (9, 9)).err(), Some(RoadNetworkError::UnknownNode(9, 9)));
    let (a, b) = res.route_nodes((1, 1), (2, 1)).unwrap();
    assert_eq!((a.tile_coords, b.tile_coords), ((1, 1), (2, 1)));
    assert!(res.random_node().is_ok());
    res.set_world_constants();
    assert_eq!(res.road_navigation().map(|n| n.len()), Some(0));
}
