use trackball::controller::{ControllerState, DragState, RotationCommand};
use trackball::events::{ControlEvent, Point2};
use trackball::math::{create_directional_vector, rotation_axis, Vec3, COORD_LIMIT};

/// A floating-point quaternion as the host keeps it beside the verified
/// controller; the tests mirror the host's handling of rotation commands.
#[derive(Clone, Copy, Debug)]
struct Quat {
    w: f64,
    x: f64,
    y: f64,
    z: f64,
}

fn identity() -> Quat {
    Quat { w: 1.0, x: 0.0, y: 0.0, z: 0.0 }
}

fn norm(q: Quat) -> f64 {
    (q.w * q.w + q.x * q.x + q.y * q.y + q.z * q.z).sqrt()
}

fn normalize(q: Quat) -> Quat {
    let n = norm(q);
    Quat { w: q.w / n, x: q.x / n, y: q.y / n, z: q.z / n }
}

fn mul(a: Quat, b: Quat) -> Quat {
    Quat {
        w: a.w * b.w - a.x * b.x - a.y * b.y - a.z * b.z,
        x: a.w * b.x + a.x * b.w + a.y * b.z - a.z * b.y,
        y: a.w * b.y - a.x * b.z + a.y * b.w + a.z * b.x,
        z: a.w * b.z + a.x * b.y - a.y * b.x + a.z * b.w,
    }
}

fn rotate_vector(q: Quat, v: [f64; 3]) -> [f64; 3] {
    let p = Quat { w: 0.0, x: v[0], y: v[1], z: v[2] };
    let conj = Quat { w: q.w, x: -q.x, y: -q.y, z: -q.z };
    let r = mul(mul(q, p), conj);
    [r.x, r.y, r.z]
}

fn from_axis_angle_deg(axis: [f64; 3], degrees: f64) -> Quat {
    let half = degrees.to_radians() / 2.0;
    let (s, c) = (half.sin(), half.cos());
    Quat { w: c, x: axis[0] * s, y: axis[1] * s, z: axis[2] * s }
}

/// Applies one rotation command exactly as the host does: carry the raw axis
/// into the object's current frame, normalise it, rotate by the travelled
/// distance scaled by `sensitivity` degrees per unit, compose on the left and
/// renormalise.
fn apply_command(orientation: Quat, cmd: RotationCommand, sensitivity: f64) -> Quat {
    match cmd {
        RotationCommand::Hold => orientation,
        RotationCommand::Rotate { axis, distance_sq } => {
            let raw = [axis.x as f64, axis.y as f64, axis.z as f64];
            let framed = rotate_vector(orientation, raw);
            let len = (framed[0] * framed[0] + framed[1] * framed[1] + framed[2] * framed[2])
                .sqrt();
            assert!(len > 0.0);
            let unit = [framed[0] / len, framed[1] / len, framed[2] / len];
            let angle = (distance_sq as f64).sqrt() * sensitivity;
            normalize(mul(from_axis_angle_deg(unit, angle), orientation))
        }
    }
}

fn moved(x: i64, y: i64) -> ControlEvent {
    ControlEvent::CursorMoved(Point2 { x, y })
}

#[test]
fn new_controller_is_idle_with_no_baseline() {
    let c = ControllerState::new();
    assert_eq!(c.drag_state, DragState::Idle);
    assert_eq!(c.last_cursor, None);
    let d = ControllerState::default();
    assert_eq!(d.drag_state, DragState::Idle);
    assert_eq!(d.last_cursor, None);
}

#[test]
fn idle_cursor_motion_is_ignored() {
    let mut c = ControllerState::new();
    let before = c;
    for (x, y) in [(0, 0), (5, 9), (-3, 7), (1000, -1000)] {
        let cmd = c.handle_event(moved(x, y));
        assert_eq!(cmd, RotationCommand::Hold);
        assert_eq!(c, before);
    }
}

#[test]
fn first_cursor_sample_sets_baseline_only() {
    let mut c = ControllerState::new();
    assert_eq!(c.handle_event(ControlEvent::LeftButtonPressed), RotationCommand::Hold);
    assert_eq!(c.drag_state, DragState::Dragging);
    assert_eq!(c.last_cursor, None);
    let cmd = c.handle_event(moved(17, -4));
    assert_eq!(cmd, RotationCommand::Hold);
    assert_eq!(c.last_cursor, Some(Point2 { x: 17, y: -4 }));
}

#[test]
fn second_differing_sample_commands_a_rotation() {
    let mut c = ControllerState::new();
    c.handle_event(ControlEvent::LeftButtonPressed);
    c.handle_event(moved(17, -4));
    let cmd = c.handle_event(moved(20, 0));
    assert_eq!(
        cmd,
        RotationCommand::Rotate { axis: Vec3 { x: 4, y: -3, z: 0 }, distance_sq: 25 }
    );
    assert_eq!(c.last_cursor, Some(Point2 { x: 20, y: 0 }));
}

#[test]
fn repeated_position_is_a_noop() {
    let mut c = ControllerState::new();
    c.handle_event(ControlEvent::LeftButtonPressed);
    c.handle_event(moved(8, 8));
    let after_first = c;
    let cmd = c.handle_event(moved(8, 8));
    assert_eq!(cmd, RotationCommand::Hold);
    assert_eq!(c, after_first);
}

#[test]
fn release_discards_the_baseline() {
    let mut c = ControllerState::new();
    c.handle_event(ControlEvent::LeftButtonPressed);
    c.handle_event(moved(5, 5));
    c.handle_event(moved(9, 2));
    assert_eq!(c.handle_event(ControlEvent::LeftButtonReleased), RotationCommand::Hold);
    assert_eq!(c.drag_state, DragState::Idle);
    assert_eq!(c.last_cursor, None);
    c.handle_event(ControlEvent::LeftButtonPressed);
    assert_eq!(c.last_cursor, None);
    let cmd = c.handle_event(moved(100, 100));
    assert_eq!(cmd, RotationCommand::Hold);
    assert_eq!(c.last_cursor, Some(Point2 { x: 100, y: 100 }));
}

#[test]
fn repeated_press_while_dragging_keeps_the_baseline() {
    let mut c = ControllerState::new();
    c.handle_event(ControlEvent::LeftButtonPressed);
    c.handle_event(moved(6, 6));
    assert_eq!(c.handle_event(ControlEvent::LeftButtonPressed), RotationCommand::Hold);
    assert_eq!(c.last_cursor, Some(Point2 { x: 6, y: 6 }));
    assert_eq!(c.handle_event(moved(6, 6)), RotationCommand::Hold);
}

#[test]
fn close_escape_and_ignored_events_do_not_touch_the_state() {
    let mut c = ControllerState::new();
    c.handle_event(ControlEvent::LeftButtonPressed);
    c.handle_event(moved(1, 2));
    let before = c;
    for e in [ControlEvent::CloseRequested, ControlEvent::EscapePressed, ControlEvent::Ignored] {
        assert_eq!(c.handle_event(e), RotationCommand::Hold);
        assert_eq!(c, before);
    }
}

#[test]
fn drag_scenario_rotates_about_the_expected_axis() {
    let sensitivity = 1.0;
    let mut c = ControllerState::new();
    let mut orientation = identity();

    let mut cmd = c.handle_event(ControlEvent::LeftButtonPressed);
    orientation = apply_command(orientation, cmd, sensitivity);

    cmd = c.handle_event(moved(0, 0));
    assert_eq!(cmd, RotationCommand::Hold);
    orientation = apply_command(orientation, cmd, sensitivity);
    assert_eq!(orientation.w, 1.0);

    cmd = c.handle_event(moved(10, 0));
    assert_eq!(
        cmd,
        RotationCommand::Rotate { axis: Vec3 { x: 0, y: -10, z: 0 }, distance_sq: 100 }
    );
    orientation = apply_command(orientation, cmd, sensitivity);

    // Ten units of travel at one degree per unit: a 10-degree rotation about
    // the world -y axis (the raw axis framed by the identity orientation).
    let half = 5.0f64.to_radians();
    assert!((orientation.w - half.cos()).abs() < 1e-9);
    assert!((orientation.y + half.sin()).abs() < 1e-9);
    assert!(orientation.x.abs() < 1e-9);
    assert!(orientation.z.abs() < 1e-9);
    assert!((norm(orientation) - 1.0).abs() < 1e-6);

    cmd = c.handle_event(ControlEvent::LeftButtonReleased);
    let frozen = orientation;
    orientation = apply_command(orientation, cmd, sensitivity);
    for (x, y) in [(11, 0), (50, 50), (-3, 8)] {
        cmd = c.handle_event(moved(x, y));
        assert_eq!(cmd, RotationCommand::Hold);
        orientation = apply_command(orientation, cmd, sensitivity);
    }
    assert_eq!(orientation.w, frozen.w);
    assert_eq!(orientation.x, frozen.x);
    assert_eq!(orientation.y, frozen.y);
    assert_eq!(orientation.z, frozen.z);
}

#[test]
fn orientation_stays_unit_norm_across_a_long_drag() {
    let sensitivity = 1.0;
    let mut c = ControllerState::new();
    let mut orientation = identity();
    c.handle_event(ControlEvent::LeftButtonPressed);
    let mut x: i64 = 0;
    let mut y: i64 = 0;
    for i in 0..200i64 {
        x += (i * 37) % 23 - 11;
        y += (i * 53) % 29 - 14;
        let cmd = c.handle_event(moved(x, y));
        orientation = apply_command(orientation, cmd, sensitivity);
        assert!((norm(orientation) - 1.0).abs() < 1e-6);
    }
}

#[test]
fn directional_vector_is_the_componentwise_difference() {
    let a = Vec3 { x: 10, y: -2, z: 7 };
    let b = Vec3 { x: 4, y: 5, z: 7 };
    assert_eq!(create_directional_vector(a, b), Vec3 { x: 6, y: -7, z: 0 });
}

#[test]
fn rotation_axis_swaps_and_negates_components() {
    let delta = Vec3 { x: 3, y: -4, z: 5 };
    assert_eq!(rotation_axis(delta), Vec3 { x: -4, y: -3, z: 5 });
}

#[test]
fn extreme_coordinates_do_not_overflow() {
    let mut c = ControllerState::new();
    c.handle_event(ControlEvent::LeftButtonPressed);
    c.handle_event(moved(-COORD_LIMIT, -COORD_LIMIT));
    let cmd = c.handle_event(moved(COORD_LIMIT, COORD_LIMIT));
    assert_eq!(
        cmd,
        RotationCommand::Rotate {
            axis: Vec3 { x: 2 * COORD_LIMIT, y: -2 * COORD_LIMIT, z: 0 },
            distance_sq: 8_000_000_000_000_000_000,
        }
    );
}

#[test]
fn well_formed_reports_the_invariant() {
    let mut c = ControllerState::new();
    assert!(c.well_formed());
    c.handle_event(ControlEvent::LeftButtonPressed);
    assert!(c.well_formed());
    c.handle_event(moved(1, 1));
    assert!(c.well_formed());
    c.handle_event(ControlEvent::LeftButtonReleased);
    assert!(c.well_formed());
}
