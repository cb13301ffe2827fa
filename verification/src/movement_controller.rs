use vstd::prelude::*;

verus! {

/// What a pair of opposing keys asks of one axis.
#[derive(Clone, Copy, Debug, PartialEq, Eq, Structural)]
pub enum AxisInput {
    Positive,
    Negative,
    /// Neither key, or both keys, are held.
    Neutral,
}

/// The three axes of the ship's own frame.
#[derive(Clone, Copy, Debug, PartialEq, Eq, Structural)]
pub enum LocalAxis {
    /// Along the nose (W and S).
    Forward,
    /// Sideways (D and A).
    Right,
    /// Up and down (Space and C).
    Up,
}

/// The six acceleration stats of a ship.
#[derive(Clone, Copy, Debug, PartialEq, Eq, Structural)]
pub enum ThrustStat {
    Forward,
    Backward,
    Right,
    Left,
    Up,
    Down,
}

/// What one frame does to the velocity along one local axis.
#[derive(Clone, Copy, Debug, PartialEq, Eq, Structural)]
pub enum AxisStep {
    /// Add the stat times the frame time, with the stat's sign.
    Accelerate(ThrustStat),
    /// Move the velocity towards zero by half the stat times the frame time.
    Brake(ThrustStat),
}

/// The keys that move the ship, as held during a frame.
pub struct MovementKeys {
    pub forward: bool,
    pub backward: bool,
    pub right: bool,
    pub left: bool,
    pub up: bool,
    pub down: bool,
}

/// The effect of one frame on each local axis.
pub struct MovementPlan {
    pub forward: AxisStep,
    pub right: AxisStep,
    pub up: AxisStep,
}

/// Which part of the game the mouse's motion steers.
#[derive(Clone, Copy, Debug, PartialEq, Eq, Structural)]
pub enum MouseTarget {
    Idle,
    ShipLook,
    CameraOrbit,
}

pub open spec fn spec_resolve_axis(positive_held: bool, negative_held: bool) -> AxisInput {
    if positive_held && !negative_held {
        AxisInput::Positive
    } else if negative_held && !positive_held {
        AxisInput::Negative
    } else {
        AxisInput::Neutral
    }
}

/// The stat that pushes along the positive direction of an axis.
pub open spec fn positive_stat(axis: LocalAxis) -> ThrustStat {
    match axis {
        LocalAxis::Forward => ThrustStat::Forward,
        LocalAxis::Right => ThrustStat::Right,
        LocalAxis::Up => ThrustStat::Up,
    }
}

/// The stat that pushes along the negative direction of an axis.
pub open spec fn negative_stat(axis: LocalAxis) -> ThrustStat {
    match axis {
        LocalAxis::Forward => ThrustStat::Backward,
        LocalAxis::Right => ThrustStat::Left,
        LocalAxis::Up => ThrustStat::Down,
    }
}

/// The axis a stat acts on.
pub open spec fn stat_axis(stat: ThrustStat) -> LocalAxis {
    match stat {
        ThrustStat::Forward | ThrustStat::Backward => LocalAxis::Forward,
        ThrustStat::Right | ThrustStat::Left => LocalAxis::Right,
        ThrustStat::Up | ThrustStat::Down => LocalAxis::Up,
    }
}

/// A stat pushes along the positive direction of its axis.
pub open spec fn stat_is_positive(stat: ThrustStat) -> bool {
    stat == ThrustStat::Forward || stat == ThrustStat::Right || stat == ThrustStat::Up
}

pub open spec fn spec_axis_step(axis: LocalAxis, input: AxisInput, moving_positive: bool) -> AxisStep {
    match input {
        AxisInput::Positive => AxisStep::Accelerate(positive_stat(axis)),
        AxisInput::Negative => AxisStep::Accelerate(negative_stat(axis)),
        AxisInput::Neutral => if moving_positive {
            AxisStep::Brake(negative_stat(axis))
        } else {
            AxisStep::Brake(positive_stat(axis))
        },
    }
}

pub open spec fn spec_route_mouse(alt_held: bool, mouse_moved: bool) -> MouseTarget {
    if !mouse_moved {
        MouseTarget::Idle
    } else if alt_held {
        MouseTarget::CameraOrbit
    } else {
        MouseTarget::ShipLook
    }
}

/// Combines two opposing keys: one alone pushes its way, both or none push
/// neither way.
pub fn resolve_axis(positive_held: bool, negative_held: bool) -> (a: AxisInput)
    ensures
        a == spec_resolve_axis(positive_held, negative_held),
{
    if positive_held && !negative_held {
        AxisInput::Positive
    } else if negative_held && !positive_held {
        AxisInput::Negative
    } else {
        AxisInput::Neutral
    }
}

fn positive_stat_exec(axis: LocalAxis) -> (s: ThrustStat)
    ensures
        s == positive_stat(axis),
{
    match axis {
        LocalAxis::Forward => ThrustStat::Forward,
        LocalAxis::Right => ThrustStat::Right,
        LocalAxis::Up => ThrustStat::Up,
    }
}

fn negative_stat_exec(axis: LocalAxis) -> (s: ThrustStat)
    ensures
        s == negative_stat(axis),
{
    match axis {
        LocalAxis::Forward => ThrustStat::Backward,
        LocalAxis::Right => ThrustStat::Left,
        LocalAxis::Up => ThrustStat::Down,
    }
}

impl ThrustStat {
    /// Whether the stat pushes along the positive direction of its axis.
    pub fn is_positive(&self) -> (b: bool)
        ensures
            b == stat_is_positive(*self),
    {
        match self {
            ThrustStat::Forward | ThrustStat::Right | ThrustStat::Up => true,
            _ => false,
        }
    }
}

/// What a frame does along `axis`: a held key accelerates with that
/// direction's stat; with no net key the ship brakes with the stat that
/// opposes its motion, `moving_positive` telling whether the velocity along
/// the axis is above zero.
pub fn axis_step(axis: LocalAxis, input: AxisInput, moving_positive: bool) -> (s: AxisStep)
    ensures
        s == spec_axis_step(axis, input, moving_positive),
{
    match input {
        AxisInput::Positive => AxisStep::Accelerate(positive_stat_exec(axis)),
        AxisInput::Negative => AxisStep::Accelerate(negative_stat_exec(axis)),
        AxisInput::Neutral => if moving_positive {
            AxisStep::Brake(negative_stat_exec(axis))
        } else {
            AxisStep::Brake(positive_stat_exec(axis))
        },
    }
}

/// The movement of one frame from the held keys; each flag tells whether
/// the velocity along that local axis is above zero.
pub fn plan_movement(
    keys: &MovementKeys,
    moving_forward: bool,
    moving_right: bool,
    moving_up: bool,
) -> (plan: MovementPlan)
    ensures
        plan.forward == spec_axis_step(
            LocalAxis::Forward,
            spec_resolve_axis(keys.forward, keys.backward),
            moving_forward,
        ),
        plan.right == spec_axis_step(
            LocalAxis::Right,
            spec_resolve_axis(keys.right, keys.left),
            moving_right,
        ),
        plan.up == spec_axis_step(LocalAxis::Up, spec_resolve_axis(keys.up, keys.down), moving_up),
{
    MovementPlan {
        forward: axis_step(
            LocalAxis::Forward,
            resolve_axis(keys.forward, keys.backward),
            moving_forward,
        ),
        right: axis_step(LocalAxis::Right, resolve_axis(keys.right, keys.left), moving_right),
        up: axis_step(LocalAxis::Up, resolve_axis(keys.up, keys.down), moving_up),
    }
}

/// The mouse steers nothing when it did not move, orbits the camera while
/// Alt is held, and turns the ship otherwise.
pub fn route_mouse(alt_held: bool, mouse_moved: bool) -> (t: MouseTarget)
    ensures
        t == spec_route_mouse(alt_held, mouse_moved),
{
    if !mouse_moved {
        MouseTarget::Idle
    } else if alt_held {
        MouseTarget::CameraOrbit
    } else {
        MouseTarget::ShipLook
    }
}

/// Every step acts on its own axis; accelerating goes the way of the key;
/// braking uses the stat that opposes the current motion.
pub proof fn law_axis_step_opposes_motion(axis: LocalAxis, input: AxisInput, moving_positive: bool)
    ensures
        match spec_axis_step(axis, input, moving_positive) {
            AxisStep::Accelerate(stat) => {
                &&& stat_axis(stat) == axis
                &&& stat_is_positive(stat) <==> input == AxisInput::Positive
            },
            AxisStep::Brake(stat) => {
                &&& input == AxisInput::Neutral
                &&& stat_axis(stat) == axis
                &&& stat_is_positive(stat) <==> !moving_positive
            },
        },
{
}

/// With no net key on an axis the step always brakes, whichever way the
/// ship moves: coasting never accelerates. A step accelerates exactly when
/// one key of the pair is held alone, and then along that key's direction.
pub proof fn law_coasting_never_accelerates(
    axis: LocalAxis,
    input: AxisInput,
    moving_positive: bool,
)
    ensures
        spec_axis_step(axis, AxisInput::Neutral, moving_positive) is Brake,
        spec_axis_step(axis, input, moving_positive) is Accelerate <==> input != AxisInput::Neutral,
        spec_axis_step(axis, input, moving_positive) is Brake ==> stat_axis(
            spec_axis_step(axis, input, moving_positive)->Brake_0,
        ) == axis,
{
}

/// With no key held at all every axis brakes, and a ship that is not moving
/// forward along an axis brakes with that axis's positive stat, so a ship at
/// rest is never pushed.
pub proof fn law_no_keys_only_brake(
    forward_positive: bool,
    right_positive: bool,
    up_positive: bool,
)
    ensures
        spec_axis_step(LocalAxis::Forward, spec_resolve_axis(false, false), forward_positive) is Brake,
        spec_axis_step(LocalAxis::Right, spec_resolve_axis(false, false), right_positive) is Brake,
        spec_axis_step(LocalAxis::Up, spec_resolve_axis(false, false), up_positive) is Brake,
        spec_axis_step(LocalAxis::Right, AxisInput::Neutral, false) == AxisStep::Brake(
            ThrustStat::Right,
        ),
        spec_axis_step(LocalAxis::Forward, AxisInput::Neutral, false) == AxisStep::Brake(
            ThrustStat::Forward,
        ),
        spec_axis_step(LocalAxis::Up, AxisInput::Neutral, false) == AxisStep::Brake(
            ThrustStat::Up,
        ),
{
}

/// The whole key table: one key alone pushes its way, none or both push
/// neither way; W/S, D/A and Space/C accelerate with the forward/backward,
/// right/left and up/down stats; a coasting axis brakes with the stat
/// against its motion; the forward, right and up stats are the positive ones.
pub proof fn law_key_and_stat_table(moving_positive: bool)
    ensures
        spec_resolve_axis(true, false) == AxisInput::Positive,
        spec_resolve_axis(false, true) == AxisInput::Negative,
        spec_resolve_axis(false, false) == AxisInput::Neutral,
        spec_resolve_axis(true, true) == AxisInput::Neutral,
        spec_axis_step(LocalAxis::Forward, AxisInput::Positive, moving_positive)
            == AxisStep::Accelerate(ThrustStat::Forward),
        spec_axis_step(LocalAxis::Forward, AxisInput::Negative, moving_positive)
            == AxisStep::Accelerate(ThrustStat::Backward),
        spec_axis_step(LocalAxis::Right, AxisInput::Positive, moving_positive)
            == AxisStep::Accelerate(ThrustStat::Right),
        spec_axis_step(LocalAxis::Right, AxisInput::Negative, moving_positive)
            == AxisStep::Accelerate(ThrustStat::Left),
        spec_axis_step(LocalAxis::Up, AxisInput::Positive, moving_positive) == AxisStep::Accelerate(
            ThrustStat::Up,
        ),
        spec_axis_step(LocalAxis::Up, AxisInput::Negative, moving_positive) == AxisStep::Accelerate(
            ThrustStat::Down,
        ),
        spec_axis_step(LocalAxis::Forward, AxisInput::Neutral, true) == AxisStep::Brake(
            ThrustStat::Backward,
        ),
        spec_axis_step(LocalAxis::Right, AxisInput::Neutral, true) == AxisStep::Brake(
            ThrustStat::Left,
        ),
        spec_axis_step(LocalAxis::Up, AxisInput::Neutral, true) == AxisStep::Brake(ThrustStat::Down),
        stat_is_positive(ThrustStat::Forward) && stat_is_positive(ThrustStat::Right)
            && stat_is_positive(ThrustStat::Up),
        !stat_is_positive(ThrustStat::Backward) && !stat_is_positive(ThrustStat::Left)
            && !stat_is_positive(ThrustStat::Down),
{
}

/// Holding both keys of a pair is the same as holding neither.
pub proof fn law_opposing_keys_cancel(axis: LocalAxis, moving_positive: bool)
    ensures
        spec_axis_step(axis, spec_resolve_axis(true, true), moving_positive) == spec_axis_step(
            axis,
            spec_resolve_axis(false, false),
            moving_positive,
        ),
{
}

/// A moving mouse steers exactly one of the ship and the camera.
pub proof fn law_mouse_has_one_target(alt_held: bool, mouse_moved: bool)
    ensures
        mouse_moved <==> spec_route_mouse(alt_held, mouse_moved) != MouseTarget::Idle,
        spec_route_mouse(alt_held, mouse_moved) == MouseTarget::CameraOrbit ==> alt_held,
        spec_route_mouse(alt_held, mouse_moved) == MouseTarget::ShipLook ==> !alt_held,
{
}

} // verus!
