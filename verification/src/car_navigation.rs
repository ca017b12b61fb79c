//! Where a car on the road network is headed: its navigation state and the steps between
//! its states.

use vstd::prelude::*;

use crate::city_data::TileCoords;
use crate::road_navigation::RoadNavigation;

verus! {

/// A car that has picked a target and must still find its first step.
#[derive(Clone, Copy, Debug)]
pub struct TargetedNavigation {
    pub current_node: TileCoords,
    pub target_node: TileCoords,
}

/// A car on its way: the node it comes from, its target, and the node it drives to next.
#[derive(Clone, Copy, Debug)]
pub struct MovingNavigation {
    pub current: TileCoords,
    pub target: TileCoords,
    pub next: TileCoords,
}

/// How far a car is with finding its way.
#[derive(Clone, Copy, Debug)]
pub enum Navigation {
    /// Not yet placed on the road network.
    Uninitialized,
    /// Placed at a node, without a target.
    Located(TileCoords),
    /// With a target, before its first step.
    Targeted(TargetedNavigation),
    /// Driving towards a target.
    Moving(MovingNavigation),
}

impl Default for Navigation {
    /// A new car is not yet on the road network.
    fn default() -> (r: Self)
        ensures
            r is Uninitialized,
    {
        Navigation::Uninitialized
    }
}

impl Navigation {
    /// The state of a car that is driving.
    pub fn as_moving(&self) -> (r: &MovingNavigation)
        requires
            *self is Moving,
        ensures
            *r == self->Moving_0,
        decreases 0nat,
    {
        match self {
            Navigation::Moving(value) => value,
            _ => {
                assert(false);
                self.as_moving()
            },
        }
    }
}

/// A car has reached its target when the node it comes from, the node it drives to and
/// its target are one node.
pub open spec fn target_reached(n: MovingNavigation) -> bool {
    n.current == n.next && n.current == n.target
}

/// Whether a driving car has reached its target.
pub fn is_target_reached(navigation: &MovingNavigation) -> (r: bool)
    ensures
        r == target_reached(*navigation),
{
    navigation.current.0 == navigation.next.0 && navigation.current.1 == navigation.next.1
        && navigation.current.0 == navigation.target.0 && navigation.current.1 == navigation.target.1
}

/// The leg a car must find its next step for: from its current node where it has only a
/// target, from the node it drove to where it has arrived there; none otherwise.
pub open spec fn leg_to_plan(n: Navigation, arrived: bool) -> Option<(TileCoords, TileCoords)> {
    match n {
        Navigation::Targeted(t) => Some((t.current_node, t.target_node)),
        Navigation::Moving(m) => if arrived {
            Some((m.next, m.target))
        } else {
            None
        },
        _ => None,
    }
}

impl Navigation {
    /// The nodes between which a car needs its next step, given whether it has arrived at
    /// the node it drove to.
    pub fn leg(&self, arrived: bool) -> (r: Option<(TileCoords, TileCoords)>)
        ensures
            r == leg_to_plan(*self, arrived),
    {
        match self {
            Navigation::Targeted(t) => Some((t.current_node, t.target_node)),
            Navigation::Moving(m) => if arrived {
                Some((m.next, m.target))
            } else {
                None
            },
            _ => None,
        }
    }

    /// The state once the next step of a leg is known.
    pub fn moving(from: TileCoords, target: TileCoords, next: TileCoords) -> (r: Navigation)
        ensures
            r == Navigation::Moving(MovingNavigation { current: from, target, next }),
    {
        Navigation::Moving(MovingNavigation { current: from, target, next })
    }

    /// Places a car that is not yet on the road network at the node nearest to it; leaves
    /// any other state as it is. Returns none where the car could not be placed.
    pub fn located(&self, nearest: Option<TileCoords>) -> (r: Option<Navigation>)
        ensures
            *self is Uninitialized ==> r == (match nearest {
                Some(c) => Some(Navigation::Located(c)),
                None => None::<Navigation>,
            }),
            !(*self is Uninitialized) ==> r == Some(*self),
    {
        match self {
            Navigation::Uninitialized => match nearest {
                Some(c) => Some(Navigation::Located(c)),
                None => None,
            },
            _ => Some(*self),
        }
    }

    /// The node a new target is picked from, and the target the new one must differ
    /// from, for a car that is on the road network.
    pub fn target_request(&self) -> (r: (TileCoords, Option<TileCoords>))
        requires
            !(*self is Uninitialized),
        ensures
            *self matches Navigation::Located(c) ==> r == (c, None::<TileCoords>),
            *self matches Navigation::Targeted(t) ==> r == (t.current_node, Some(t.target_node)),
            *self matches Navigation::Moving(m) ==> r == (m.current, Some(m.target)),
            r == self.target_request_spec(),
    {
        match self {
            Navigation::Located(c) => (*c, None),
            Navigation::Targeted(t) => (t.current_node, Some(t.target_node)),
            Navigation::Moving(m) => (m.current, Some(m.target)),
            Navigation::Uninitialized => {
                assert(false);
                ((0, 0), None)
            },
        }
    }
}

/// A drawn node is taken as the new target unless it is the target the car had.
pub open spec fn target_accepted(exclude: Option<TileCoords>, drawn: TileCoords) -> bool {
    exclude != Some(drawn)
}

/// The state after a target is picked from a node: targeted, where the drawn node is not
/// the car's previous target; none where it is, and another node must be drawn.
pub fn take_target(current: TileCoords, exclude: Option<TileCoords>, drawn: TileCoords) -> (r: Option<Navigation>)
    ensures
        target_accepted(exclude, drawn) ==> r == Some(
            Navigation::Targeted(TargetedNavigation { current_node: current, target_node: drawn }),
        ),
        !target_accepted(exclude, drawn) ==> r is None,
{
    match exclude {
        Some(t) => if t.0 == drawn.0 && t.1 == drawn.1 {
            return None;
        },
        None => {},
    }
    Some(Navigation::Targeted(TargetedNavigation { current_node: current, target_node: drawn }))
}

/// Draws a node of the road network at random as a new target for a car on it; none where
/// the drawn node is the car's previous target.
pub fn draw_target(navigation: &Navigation, network: &RoadNavigation) -> (r: Option<Navigation>)
    requires
        !(*navigation is Uninitialized),
        network@.nodes.len() > 0,
    ensures
        match r {
            Some(n) => exists|k: TileCoords|
                network@.nodes.contains_key(k) && target_accepted(navigation.target_request_spec().1, k)
                    && n == Navigation::Targeted(
                    TargetedNavigation { current_node: navigation.target_request_spec().0, target_node: k },
                ),
            None => navigation.target_request_spec().1 matches Some(t) && network@.nodes.contains_key(t),
        },
{
    let (current, exclude) = navigation.target_request();
    let drawn = network.get_random_node();
    let r = take_target(current, exclude, drawn.tile_coords);
    proof {
        let k = choose|k: TileCoords|
            network@.nodes.contains_key(k) && *drawn == network@.nodes[k] && drawn.tile_coords == k;
        assert(drawn.tile_coords == k);
    }
    r
}

impl Navigation {
    /// The node a new target is picked from and the target to avoid.
    pub open spec fn target_request_spec(&self) -> (TileCoords, Option<TileCoords>) {
        match *self {
            Navigation::Located(c) => (c, None),
            Navigation::Targeted(t) => (t.current_node, Some(t.target_node)),
            Navigation::Moving(m) => (m.current, Some(m.target)),
            Navigation::Uninitialized => ((0, 0), None),
        }
    }
}

/// A car that takes a new target never takes the target it had.
pub proof fn lemma_new_target_differs(exclude: TileCoords, drawn: TileCoords)
    requires
        target_accepted(Some(exclude), drawn),
    ensures
        drawn != exclude,
{
}

} // verus!
