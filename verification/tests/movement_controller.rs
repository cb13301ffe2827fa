use openfire::movement_controller::{
    axis_step, plan_movement, resolve_axis, route_mouse, AxisInput, AxisStep, LocalAxis,
    MouseTarget, MovementKeys, ThrustStat,
};

#[test]
fn opposing_keys_resolve() {
    assert_eq!(resolve_axis(true, false), AxisInput::Positive);
    assert_eq!(resolve_axis(false, true), AxisInput::Negative);
    assert_eq!(resolve_axis(false, false), AxisInput::Neutral);
    assert_eq!(resolve_axis(true, true), AxisInput::Neutral);
}

#[test]
fn held_keys_accelerate_their_way() {
    assert_eq!(
        axis_step(LocalAxis::Forward, AxisInput::Positive, false),
        AxisStep::Accelerate(ThrustStat::Forward)
    );
    assert_eq!(
        axis_step(LocalAxis::Forward, AxisInput::Negative, true),
        AxisStep::Accelerate(ThrustStat::Backward)
    );
    assert_eq!(
        axis_step(LocalAxis::Right, AxisInput::Negative, false),
        AxisStep::Accelerate(ThrustStat::Left)
    );
    assert_eq!(
        axis_step(LocalAxis::Up, AxisInput::Positive, true),
        AxisStep::Accelerate(ThrustStat::Up)
    );
}

#[test]
fn coasting_brakes_against_the_motion() {
    assert_eq!(
        axis_step(LocalAxis::Forward, AxisInput::Neutral, true),
        AxisStep::Brake(ThrustStat::Backward)
    );
    assert_eq!(
        axis_step(LocalAxis::Forward, AxisInput::Neutral, false),
        AxisStep::Brake(ThrustStat::Forward)
    );
    assert_eq!(
        axis_step(LocalAxis::Right, AxisInput::Neutral, true),
        AxisStep::Brake(ThrustStat::Left)
    );
    assert_eq!(
        axis_step(LocalAxis::Up, AxisInput::Neutral, false),
        AxisStep::Brake(ThrustStat::Up)
    );
    assert_eq!(
        axis_step(LocalAxis::Up, AxisInput::Neutral, true),
        AxisStep::Brake(ThrustStat::Down)
    );
}

#[test]
fn movement_plan_maps_wasd_space_c() {
    let keys = MovementKeys { forward: true, backward: false, right: true, left: true, up: false, down: true };
    let plan = plan_movement(&keys, false, true, true);
    assert_eq!(plan.forward, AxisStep::Accelerate(ThrustStat::Forward));
    assert_eq!(plan.right, AxisStep::Brake(ThrustStat::Left));
    assert_eq!(plan.up, AxisStep::Accelerate(ThrustStat::Down));
}

#[test]
fn stat_signs() {
    assert!(ThrustStat::Forward.is_positive());
    assert!(ThrustStat::Right.is_positive());
    assert!(ThrustStat::Up.is_positive());
    assert!(!ThrustStat::Backward.is_positive());
    assert!(!ThrustStat::Left.is_positive());
    assert!(!ThrustStat::Down.is_positive());
}

#[test]
fn mouse_goes_to_one_target() {
    assert_eq!(route_mouse(false, false), MouseTarget::Idle);
    assert_eq!(route_mouse(true, false), MouseTarget::Idle);
    assert_eq!(route_mouse(false, true), MouseTarget::ShipLook);
    assert_eq!(route_mouse(true, true), MouseTarget::CameraOrbit);
}
