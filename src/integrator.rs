//! The decisions of the recursive shader. For each ray the program reports
//! what happened at the scene (a miss, an absorption, or a scatter) and this
//! module says what to do next: paint the background, return black, or trace
//! the scattered ray one level deeper.

use vstd::prelude::*;

verus! {

/// The bounce depth at which the shader stops following scattered rays.
pub const MAX_DEPTH: i32 = 50;

/// What a ray met in the scene.
#[derive(Clone, Copy, Debug, PartialEq, Eq, Structural)]
pub enum Event {
    /// No surface was hit.
    Miss,
    /// A surface was hit and its material absorbed the ray.
    Absorbed,
    /// A surface was hit and its material produced an outgoing ray.
    Scattered,
}

/// What the shader does with a ray.
#[derive(Clone, Copy, Debug, PartialEq, Eq, Structural)]
pub enum Step {
    /// Return the background gradient for the ray's direction.
    Background,
    /// Return black.
    Black,
    /// Trace the scattered ray at this depth and attenuate what it returns.
    Trace { depth: i32 },
}

/// The step taken at `depth` after `event`.
pub open spec fn step_spec(depth: int, event: Event) -> Step {
    match event {
        Event::Miss => Step::Background,
        Event::Absorbed => Step::Black,
        Event::Scattered => if depth < MAX_DEPTH {
            Step::Trace { depth: (depth + 1) as i32 }
        } else {
            Step::Black
        },
    }
}

/// Decides what the shader does with a ray traced at `depth` that met `event`.
pub fn shade_step(depth: i32, event: Event) -> (s: Step)
    ensures
        s == step_spec(depth as int, event),
        s matches Step::Trace { depth: d } ==> d == depth + 1 && d <= MAX_DEPTH,
{
    match event {
        Event::Miss => Step::Background,
        Event::Absorbed => Step::Black,
        Event::Scattered => if depth < MAX_DEPTH {
            Step::Trace { depth: depth + 1 }
        } else {
            Step::Black
        },
    }
}

/// Follows a chain of rays that starts at `depth`, the `k`-th ray meeting
/// `events[k]`: the final step (background or black) and the depth of the ray
/// that took it, or `None` when the events run out before the chain ends.
pub open spec fn settle(depth: int, events: Seq<Event>) -> Option<(Step, int)>
    decreases events.len(),
{
    if events.len() == 0 {
        None
    } else {
        match step_spec(depth, events[0]) {
            Step::Trace { depth: d } => settle(d as int, events.drop_first()),
            s => Some((s, depth)),
        }
    }
}

/// A chain of rays that never misses and never is absorbed, started at any
/// depth from 0 to the cap, ends black at exactly the cap depth: the ray at
/// the cap is not traced further, and no ray is traced deeper than the cap.
pub proof fn lemma_depth_cap(depth: int, events: Seq<Event>)
    requires
        0 <= depth <= MAX_DEPTH,
        events.len() >= MAX_DEPTH - depth + 1,
        forall|k: int| 0 <= k < events.len() ==> events[k] == Event::Scattered,
    ensures
        settle(depth, events) == Some((Step::Black, MAX_DEPTH as int)),
    decreases MAX_DEPTH - depth,
{
    if depth < MAX_DEPTH {
        let rest = events.drop_first();
        assert forall|k: int| 0 <= k < rest.len() implies rest[k] == Event::Scattered by {
            assert(rest[k] == events[k + 1]);
        }
        lemma_depth_cap(depth + 1, rest);
    }
}

/// A chain that never misses and never is absorbed has not ended after fewer
/// rays than it takes to reach the cap from its start depth.
pub proof fn lemma_depth_cap_not_before(depth: int, events: Seq<Event>)
    requires
        0 <= depth <= MAX_DEPTH,
        events.len() <= MAX_DEPTH - depth,
        forall|k: int| 0 <= k < events.len() ==> events[k] == Event::Scattered,
    ensures
        settle(depth, events) is None,
    decreases events.len(),
{
    if events.len() > 0 {
        let rest = events.drop_first();
        assert forall|k: int| 0 <= k < rest.len() implies rest[k] == Event::Scattered by {
            assert(rest[k] == events[k + 1]);
        }
        lemma_depth_cap_not_before(depth + 1, rest);
    }
}

} // verus!
