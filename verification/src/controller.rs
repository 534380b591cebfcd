//! The drag rotation controller.
//!
//! The controller owns the drag state machine: whether a drag is in progress
//! and the last cursor position observed during it. For each classified event
//! it updates that state and answers with a [`RotationCommand`] telling the
//! host whether, and about which raw axis, the controlled object's
//! orientation must rotate. The host realises each command with its
//! floating-point quaternion (transforming the raw axis into the object's
//! current frame, normalising, composing and renormalising) and writes the
//! result to the object's transform; the decisions themselves — when a
//! rotation happens, its raw axis, its squared magnitude — are all made here.

use vstd::prelude::*;

use crate::events::{ControlEvent, Point2, point_in_range};
use crate::math::{Vec3, is_zero_spec, create_directional_vector, rotation_axis};

verus! {

/// Whether pointer motion is currently interpreted as rotation input.
#[derive(Clone, Copy, PartialEq, Eq, Structural, Debug)]
pub enum DragState {
    Idle,
    Dragging,
}

/// What the host must do to the controlled object's orientation after one
/// event: nothing, or rotate it about `axis` (a raw axis, still to be carried
/// into the object's current frame and normalised by the host) by an angle
/// proportional to the distance `sqrt(distance_sq)` the cursor travelled.
#[derive(Clone, Copy, PartialEq, Eq, Structural, Debug)]
pub enum RotationCommand {
    Hold,
    Rotate { axis: Vec3, distance_sq: u64 },
}

/// A command the host can always carry out: a rotation command never carries
/// a degenerate axis or a zero magnitude, so normalising the axis is always
/// defined and the composed orientation can be kept at unit norm.
pub open spec fn command_nondegenerate(c: RotationCommand) -> bool {
    match c {
        RotationCommand::Hold => true,
        RotationCommand::Rotate { axis, distance_sq } => !is_zero_spec(axis) && distance_sq > 0,
    }
}

/// The drag rotation controller's state: the interaction mode and, during a
/// drag, the last observed cursor position (`None` while idle and before the
/// first sample of a drag).
#[derive(Clone, Copy, PartialEq, Eq, Debug)]
pub struct ControllerState {
    pub drag_state: DragState,
    pub last_cursor: Option<Point2>,
}

impl ControllerState {
    /// The controller's invariant: the baseline exists only during a drag,
    /// and any recorded cursor position is within coordinate bounds.
    pub open spec fn wf(self) -> bool {
        &&& self.drag_state is Idle ==> self.last_cursor is None
        &&& self.last_cursor matches Some(p) ==> point_in_range(p)
    }
}

/// An event whose payload the controller accepts: a cursor position must be
/// within coordinate bounds so that delta arithmetic cannot overflow.
pub open spec fn event_in_range(e: ControlEvent) -> bool {
    e matches ControlEvent::CursorMoved(p) ==> point_in_range(p)
}

/// The raw rotation axis for a cursor move from `prev` to `p`: the 2D delta
/// lifted to 3D with zero third component, then swapped and negated so that
/// horizontal motion rotates about the vertical axis and vertical motion
/// about the horizontal axis.
pub open spec fn axis_for(prev: Point2, p: Point2) -> Vec3 {
    Vec3 { x: (p.y - prev.y) as i64, y: (prev.x - p.x) as i64, z: 0 }
}

/// The squared Euclidean distance between two cursor positions; the host
/// scales its square root by the sensitivity factor to obtain the rotation
/// angle in degrees.
pub open spec fn distance_sq(prev: Point2, p: Point2) -> int {
    (p.x - prev.x) * (p.x - prev.x) + (p.y - prev.y) * (p.y - prev.y)
}

/// The controller's transition function: the state after one classified
/// event, and the command the host must carry out for it.
///
/// - While idle, a left-button press starts a drag with no baseline; every
///   other event leaves the state unchanged.
/// - While dragging, a left-button release returns to idle and discards the
///   baseline; a repeated press is a no-op; a cursor move with no baseline
///   only records one; a cursor move equal to the baseline refreshes it and
///   commands nothing; any other cursor move commands a rotation and
///   refreshes the baseline.
/// - Close and escape requests are surfaced to the host elsewhere and do not
///   touch the drag state; `Ignored` events change nothing.
pub open spec fn step_spec(s: ControllerState, e: ControlEvent) -> (ControllerState, RotationCommand) {
    match e {
        ControlEvent::LeftButtonPressed => {
            if s.drag_state is Dragging {
                (s, RotationCommand::Hold)
            } else {
                (
                    ControllerState { drag_state: DragState::Dragging, last_cursor: None },
                    RotationCommand::Hold,
                )
            }
        },
        ControlEvent::LeftButtonReleased => {
            if s.drag_state is Dragging {
                (
                    ControllerState { drag_state: DragState::Idle, last_cursor: None },
                    RotationCommand::Hold,
                )
            } else {
                (s, RotationCommand::Hold)
            }
        },
        ControlEvent::CursorMoved(p) => {
            if s.drag_state is Idle {
                (s, RotationCommand::Hold)
            } else {
                match s.last_cursor {
                    None => (
                        ControllerState { drag_state: DragState::Dragging, last_cursor: Some(p) },
                        RotationCommand::Hold,
                    ),
                    Some(prev) => {
                        let moved = ControllerState {
                            drag_state: DragState::Dragging,
                            last_cursor: Some(p),
                        };
                        if p == prev {
                            (moved, RotationCommand::Hold)
                        } else {
                            (
                                moved,
                                RotationCommand::Rotate {
                                    axis: axis_for(prev, p),
                                    distance_sq: distance_sq(prev, p) as u64,
                                },
                            )
                        }
                    },
                }
            }
        },
        _ => (s, RotationCommand::Hold),
    }
}

/// Bounds on the squared cursor distance: it fits the machine integers used
/// to compute it, and it is positive exactly when the two positions differ.
pub proof fn lemma_distance_sq_bounds(prev: Point2, p: Point2)
    requires
        point_in_range(prev),
        point_in_range(p),
    ensures
        0 <= (p.x - prev.x) * (p.x - prev.x) <= 4_000_000_000_000_000_000,
        0 <= (p.y - prev.y) * (p.y - prev.y) <= 4_000_000_000_000_000_000,
        0 <= distance_sq(prev, p) <= 8_000_000_000_000_000_000,
        p != prev ==> distance_sq(prev, p) > 0,
{
    let dx = p.x - prev.x;
    let dy = p.y - prev.y;
    assert(-2_000_000_000 <= dx <= 2_000_000_000);
    assert(-2_000_000_000 <= dy <= 2_000_000_000);
    assert(0 <= dx * dx <= 4_000_000_000_000_000_000) by (nonlinear_arith)
        requires -2_000_000_000 <= dx <= 2_000_000_000;
    assert(0 <= dy * dy <= 4_000_000_000_000_000_000) by (nonlinear_arith)
        requires -2_000_000_000 <= dy <= 2_000_000_000;
    assert(dx != 0 ==> dx * dx > 0) by (nonlinear_arith);
    assert(dy != 0 ==> dy * dy > 0) by (nonlinear_arith);
    if p != prev {
        assert(dx != 0 || dy != 0);
    }
}

impl ControllerState {
    /// A fresh controller: idle, with no recorded cursor position. The host
    /// pairs it with the identity orientation on its side.
    pub fn new() -> (r: ControllerState)
        ensures
            r.drag_state is Idle,
            r.last_cursor is None,
            r.wf(),
    {
        ControllerState { drag_state: DragState::Idle, last_cursor: None }
    }

    /// Runtime check of the invariant, for hosts that cannot carry the proof.
    pub fn well_formed(&self) -> (r: bool)
        ensures
            r == self.wf(),
    {
        let mode_ok = match self.drag_state {
            DragState::Idle => self.last_cursor.is_none(),
            DragState::Dragging => true,
        };
        let range_ok = match self.last_cursor {
            Some(p) => -crate::math::COORD_LIMIT <= p.x && p.x <= crate::math::COORD_LIMIT
                && -crate::math::COORD_LIMIT <= p.y && p.y <= crate::math::COORD_LIMIT,
            None => true,
        };
        mode_ok && range_ok
    }

    /// Processes one classified event: updates the drag state exactly as
    /// [`step_spec`] describes and returns the command the host must apply to
    /// the controlled object's orientation. Never commands a degenerate
    /// rotation.
    pub fn handle_event(&mut self, event: ControlEvent) -> (cmd: RotationCommand)
        requires
            old(self).wf(),
            event_in_range(event),
        ensures
            final(self).wf(),
            (*final(self), cmd) == step_spec(*old(self), event),
            command_nondegenerate(cmd),
    {
        match event {
            ControlEvent::LeftButtonPressed => {
                if self.drag_state == DragState::Idle {
                    self.drag_state = DragState::Dragging;
                    self.last_cursor = None;
                }
                RotationCommand::Hold
            },
            ControlEvent::LeftButtonReleased => {
                if self.drag_state == DragState::Dragging {
                    self.drag_state = DragState::Idle;
                    self.last_cursor = None;
                }
                RotationCommand::Hold
            },
            ControlEvent::CursorMoved(p) => {
                if self.drag_state == DragState::Idle {
                    return RotationCommand::Hold;
                }
                let baseline = self.last_cursor;
                self.last_cursor = Some(p);
                match baseline {
                    None => RotationCommand::Hold,
                    Some(prev) => {
                        let cur3 = Vec3 { x: p.x, y: p.y, z: 0 };
                        let prev3 = Vec3 { x: prev.x, y: prev.y, z: 0 };
                        let delta = create_directional_vector(cur3, prev3);
                        let axis = rotation_axis(delta);
                        if axis.is_zero() {
                            // The pointer did not move: no rotation, but the
                            // baseline was still refreshed above.
                            RotationCommand::Hold
                        } else {
                            proof {
                                lemma_distance_sq_bounds(prev, p);
                            }
                            let sq: i64 = delta.x * delta.x + delta.y * delta.y;
                            RotationCommand::Rotate { axis, distance_sq: sq as u64 }
                        }
                    },
                }
            },
            _ => RotationCommand::Hold,
        }
    }
}

/// The state after a whole sequence of classified events, delivered in order
/// starting from `s`.
pub open spec fn run_spec(s: ControllerState, events: Seq<ControlEvent>) -> ControllerState
    decreases events.len(),
{
    if events.len() == 0 {
        s
    } else {
        run_spec(step_spec(s, events[0]).0, events.drop_first())
    }
}

/// One step keeps the controller's invariant.
pub proof fn lemma_step_preserves_wf(s: ControllerState, e: ControlEvent)
    requires
        s.wf(),
        event_in_range(e),
    ensures
        step_spec(s, e).0.wf(),
{
}

/// Every state reachable from a well-formed one by events within coordinate
/// bounds is well formed: the baseline exists only during a drag, and never
/// leaves coordinate bounds.
pub proof fn lemma_run_preserves_wf(s: ControllerState, events: Seq<ControlEvent>)
    requires
        s.wf(),
        forall|i: int| 0 <= i < events.len() ==> event_in_range(#[trigger] events[i]),
    ensures
        run_spec(s, events).wf(),
    decreases events.len(),
{
    if events.len() > 0 {
        lemma_step_preserves_wf(s, events[0]);
        lemma_run_preserves_wf(step_spec(s, events[0]).0, events.drop_first());
    }
}

/// Every rotation command a well-formed controller emits is non-degenerate:
/// its axis is nonzero and its squared distance positive, so the host can
/// always normalise the axis and keep the composed orientation at unit norm.
pub proof fn lemma_commands_nondegenerate(s: ControllerState, e: ControlEvent)
    requires
        s.wf(),
        event_in_range(e),
    ensures
        command_nondegenerate(step_spec(s, e).1),
{
    if let ControlEvent::CursorMoved(p) = e {
        if s.drag_state is Dragging {
            if let Some(prev) = s.last_cursor {
                lemma_distance_sq_bounds(prev, p);
            }
        }
    }
}

/// Idle absorbs cursor motion: any sequence of cursor-move events delivered
/// while the controller is idle leaves its state unchanged, and every one of
/// them commands no rotation, so the host's orientation is untouched.
pub proof fn lemma_idle_ignores_cursor_moves(s: ControllerState, events: Seq<ControlEvent>)
    requires
        s.drag_state is Idle,
        forall|i: int| 0 <= i < events.len() ==> events[i] is CursorMoved,
    ensures
        run_spec(s, events) == s,
        forall|i: int|
            0 <= i < events.len() ==> (#[trigger] step_spec(s, events[i])).0 == s
                && step_spec(s, events[i]).1 is Hold,
    decreases events.len(),
{
    if events.len() > 0 {
        lemma_idle_ignores_cursor_moves(s, events.drop_first());
    }
}

/// The first cursor sample of a drag only establishes the baseline and
/// commands no rotation; a second sample at a different position commands a
/// rotation of positive magnitude.
pub proof fn lemma_first_sample_baseline(s: ControllerState, p: Point2, q: Point2)
    requires
        s.wf(),
        s.drag_state is Dragging,
        s.last_cursor is None,
        point_in_range(p),
        point_in_range(q),
        p != q,
    ensures
        step_spec(s, ControlEvent::CursorMoved(p)).1 is Hold,
        step_spec(s, ControlEvent::CursorMoved(p)).0 == (ControllerState {
            drag_state: DragState::Dragging,
            last_cursor: Some(p),
        }),
        step_spec(step_spec(s, ControlEvent::CursorMoved(p)).0, ControlEvent::CursorMoved(q)).1
            is Rotate,
        command_nondegenerate(
            step_spec(step_spec(s, ControlEvent::CursorMoved(p)).0, ControlEvent::CursorMoved(q)).1,
        ),
{
    let s1 = step_spec(s, ControlEvent::CursorMoved(p)).0;
    lemma_commands_nondegenerate(s1, ControlEvent::CursorMoved(q));
}

/// Releasing the button discards the drag baseline: after dragging ends and a
/// new drag starts, the first cursor sample is again a baseline-only event
/// that commands no rotation.
pub proof fn lemma_release_clears_baseline(s: ControllerState, p: Point2)
    requires
        s.wf(),
        s.drag_state is Dragging,
        point_in_range(p),
    ensures
        ({
            let s1 = step_spec(s, ControlEvent::LeftButtonReleased).0;
            let s2 = step_spec(s1, ControlEvent::LeftButtonPressed).0;
            let stepped = step_spec(s2, ControlEvent::CursorMoved(p));
            &&& s1.drag_state is Idle
            &&& s1.last_cursor is None
            &&& s2.drag_state is Dragging
            &&& s2.last_cursor is None
            &&& stepped.1 is Hold
            &&& stepped.0.last_cursor == Some(p)
        }),
{
}

/// A repeated cursor position is a no-op: a cursor move to the position
/// already recorded as the baseline refreshes the baseline (to the same
/// value) and commands no rotation.
pub proof fn lemma_zero_delta_noop(s: ControllerState, p: Point2)
    requires
        s.wf(),
        s.drag_state is Dragging,
        point_in_range(p),
    ensures
        ({
            let s1 = step_spec(s, ControlEvent::CursorMoved(p)).0;
            let stepped = step_spec(s1, ControlEvent::CursorMoved(p));
            &&& stepped.1 is Hold
            &&& stepped.0 == s1
        }),
{
}

impl Default for ControllerState {
    /// A fresh controller, as [`ControllerState::new`] builds it.
    fn default() -> (r: ControllerState)
        ensures
            r.drag_state is Idle,
            r.last_cursor is None,
            r.wf(),
    {
        ControllerState::new()
    }
}

} // verus!
