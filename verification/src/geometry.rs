//! The moving bodies of the host's scene, and the obstacles that they become
//! for a tick.
use crate::definition::{CircleObstacle, Obstacles, Vec2};
use vstd::prelude::*;

verus! {

/// A circular body.
#[derive(Clone, Copy, Debug, PartialEq, Eq, Structural)]
pub struct Circle {
    pub radius: i64,
}

/// The velocity of a body.
#[derive(Clone, Copy, Debug, PartialEq, Eq, Structural)]
pub struct Velocity(pub Vec2);

/// A body of the scene: its shape, the position of its center in cell units,
/// and its velocity.
#[derive(Clone, Copy, Debug, PartialEq, Eq, Structural)]
pub struct Body {
    pub circle: Circle,
    pub position: Vec2,
    pub velocity: Velocity,
}

/// The obstacle that a body is for the simulation.
pub open spec fn obstacle_of(body: Body) -> CircleObstacle {
    CircleObstacle { radius: body.circle.radius, center: body.position, velocity: body.velocity.0 }
}

/// Replaces the obstacles by a snapshot of the bodies of the scene, in the
/// same order.
pub fn update_geometry(obstacles: &mut Obstacles, bodies: &Vec<Body>)
    ensures
        final(obstacles).circles@ == bodies@.map_values(|body: Body| obstacle_of(body)),
{
    let mut circles: Vec<CircleObstacle> = Vec::new();
    let mut k: usize = 0;
    while k < bodies.len()
        invariant
            k <= bodies.len(),
            circles@.len() == k,
            forall|m: int| 0 <= m < k ==> #[trigger] circles@[m] == obstacle_of(bodies@[m]),
        decreases bodies.len() - k,
    {
        let body = bodies[k];
        circles.push(
            CircleObstacle {
                radius: body.circle.radius,
                center: body.position,
                velocity: body.velocity.0,
            },
        );
        k = k + 1;
    }
    proof {
        assert(circles@ =~= bodies@.map_values(|body: Body| obstacle_of(body)));
    }
    obstacles.circles = circles;
}

} // verus!
