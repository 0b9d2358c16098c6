//! Holonomic motion controller.
//!
//! A `MoveCommand` is resolved into one normalized speed per wheel. The
//! desired translation and heading are first corrected by two momentum
//! terms that damp overshoot; the per-wheel mix is then scaled into the
//! unit range while preserving its relative proportions.
//!
//! Rotating the velocity momentum needs the cosine and sine of
//! `momentum_angle_mrad`; trigonometry is not integer work, so the caller
//! evaluates them (in milli-units) and passes them in.

use vstd::prelude::*;
use crate::math::{
    MAX_MILLI, spec_min, spec_max, spec_abs, spec_clamp, spec_lerp, spec_mul_milli, tdiv,
    lemma_tdiv_bound, lemma_tdiv_self_scale, min, clamp, abs, lerp, mul_milli, div_trunc,
};
use crate::vec2::{Vec2, in_range, in_range2, spec_normalize, spec_dot};
use crate::config::WheelExtrinsics;

verus! {

/// What the behaviour layer asks of the drivetrain.
#[derive(Clone, Copy, Debug, PartialEq, Eq, Structural)]
pub enum MoveCommand {
    /// Drive toward the position while aligning to the orientation,
    /// both relative to the robot, in milli-units.
    MoveAndAlign(Vec2, Vec2),
    /// Hold every wheel at zero.
    Stop,
}

/// Momentum state and wheel placement of the controller.
pub struct MotionControllerState {
    pub wheels: Vec<WheelExtrinsics>,
    pub rotate_momentum: i64,
    pub velocity_momentum: Vec2,
}

/// How quickly the robot turns per unit of accumulated rotation momentum.
pub const DEGREE_GAIN: i64 = 8;

/// How quickly velocity momentum accumulates, in milli-units per second.
pub const VELOCITY_GAIN: i64 = 500;

/// How quickly rotation momentum accumulates, in units per second.
pub const ROTATION_GAIN: i64 = 5;

/// The divisor of the final mix never drops under this floor, so noise
/// cannot saturate a pure-rotate command and a zero mix divides cleanly.
pub const SPEED_FLOOR: i64 = 100;

/// Momentum components are kept inside the working range.
pub open spec fn spec_bound_mom(v: int) -> int {
    spec_clamp(v, -(MAX_MILLI as int), MAX_MILLI as int)
}

/// The scalar turn command derived from a normalized heading `(ox, oy)`:
/// nearly aligned headings turn gently, anything behind the robot turns
/// at full rate toward the shorter side.
pub open spec fn spec_rotate_scalar(ox: int, oy: int) -> int {
    if oy > 0 {
        let r0 = spec_min(ox, 1000 - oy);
        if oy > 500 {
            spec_mul_milli(r0, 900)
        } else {
            r0
        }
    } else if ox > 0 {
        1000
    } else {
        -1000
    }
}

/// `(vx, vy)` rotated by the angle whose cosine and sine (in milli-units)
/// are `c` and `s`.
pub open spec fn spec_rot_vec(vx: int, vy: int, c: int, s: int) -> (int, int) {
    (
        spec_mul_milli(vx, c) - spec_mul_milli(vy, s),
        spec_mul_milli(vx, s) + spec_mul_milli(vy, c),
    )
}

/// Fraction by which velocity momentum moves toward the commanded
/// translation after `dt_ms` milliseconds: `dt * VELOCITY_GAIN`,
/// capped at one.
pub open spec fn spec_velocity_factor(dt_ms: int) -> int {
    spec_clamp(tdiv(dt_ms, 2), 0, 1000)
}

/// Fraction by which rotation momentum moves toward the commanded turn
/// after `dt_ms` milliseconds: `dt * ROTATION_GAIN`, capped at one.
pub open spec fn spec_rotation_factor(dt_ms: int) -> int {
    spec_clamp(dt_ms * 5, 0, 1000)
}

/// The raw (pre-normalization) speed of a wheel: its share of the
/// translation, clamped to one unit, plus the turn command.
pub open spec fn spec_raw_speed(fwd: Vec2, px: int, py: int, rot: int) -> int {
    spec_clamp(spec_dot(fwd.x as int, fwd.y as int, px, py), -1000, 1000) + rot
}

/// The divisor of the final mix: the largest raw magnitude over the
/// wheels, floored at `SPEED_FLOOR`.
pub open spec fn spec_speed_divisor(ws: Seq<WheelExtrinsics>, px: int, py: int, rot: int) -> int
    decreases ws.len(),
{
    if ws.len() == 0 {
        100
    } else {
        spec_max(
            spec_speed_divisor(ws.drop_last(), px, py, rot),
            spec_abs(spec_raw_speed(ws.last().forward, px, py, rot)),
        )
    }
}

/// The full effect of a `MoveAndAlign` command: both momentum updates and
/// the published wheel speeds, as functions of the prior state, the
/// command, the elapsed time and the momentum rotation's cosine and sine.
pub open spec fn move_and_align_post(
    pre: MotionControllerState,
    post: MotionControllerState,
    speeds: Seq<i64>,
    pos: Vec2,
    ori: Vec2,
    dt_ms: int,
    rot_cos: int,
    rot_sin: int,
) -> bool {
    let pn = spec_normalize(pos.x as int, pos.y as int);
    let on = spec_normalize(ori.x as int, ori.y as int);
    let p1x = pn.0 - pre.velocity_momentum.x;
    let p1y = pn.1 - pre.velocity_momentum.y;
    let rv = spec_rot_vec(
        pre.velocity_momentum.x as int,
        pre.velocity_momentum.y as int,
        rot_cos,
        rot_sin,
    );
    let vf = spec_velocity_factor(dt_ms);
    let rot = spec_rotate_scalar(on.0, on.1) - pre.rotate_momentum;
    let rf = spec_rotation_factor(dt_ms);
    let m = spec_speed_divisor(pre.wheels@, p1x, p1y, rot);
    &&& post.wheels@ == pre.wheels@
    &&& post.velocity_momentum.x == spec_bound_mom(spec_lerp(rv.0, p1x, vf))
    &&& post.velocity_momentum.y == spec_bound_mom(spec_lerp(rv.1, p1y, vf))
    &&& post.rotate_momentum == spec_bound_mom(spec_lerp(pre.rotate_momentum as int, rot, rf))
    &&& speeds.len() == pre.wheels@.len()
    &&& forall|i: int| 0 <= i < speeds.len() ==> speeds[i] == tdiv(
        spec_raw_speed(pre.wheels@[i].forward, p1x, p1y, rot) * 1000,
        m,
    )
}

impl MotionControllerState {
    /// The controller's internal invariant: wheel placements and momenta
    /// stay inside the working range.
    pub open spec fn wf(self) -> bool {
        &&& forall|i: int|
            0 <= i < self.wheels@.len() ==> in_range(#[trigger] self.wheels@[i].forward)
        &&& -MAX_MILLI <= self.rotate_momentum <= MAX_MILLI
        &&& in_range(self.velocity_momentum)
    }

    /// A controller at rest over the given wheels.
    pub fn new(wheels: Vec<WheelExtrinsics>) -> (r: MotionControllerState)
        requires
            forall|i: int| 0 <= i < wheels@.len() ==> in_range(#[trigger] wheels@[i].forward),
        ensures
            r.wf(),
            r.wheels@ == wheels@,
            r.rotate_momentum == 0,
            r.velocity_momentum.x == 0 && r.velocity_momentum.y == 0,
    {
        MotionControllerState {
            wheels,
            rotate_momentum: 0,
            velocity_momentum: Vec2 { x: 0, y: 0 },
        }
    }

    /// The wheel's announced placement replaces the configured one.
    pub fn set_extrinsics(&mut self, index: usize, ext: WheelExtrinsics)
        requires
            old(self).wf(),
            index < old(self).wheels@.len(),
            in_range(ext.forward),
        ensures
            final(self).wf(),
            final(self).wheels@ == old(self).wheels@.update(index as int, ext),
            final(self).rotate_momentum == old(self).rotate_momentum,
            final(self).velocity_momentum == old(self).velocity_momentum,
    {
        self.wheels.set(index, ext);
    }

    /// Resolve one command into one normalized speed per wheel.
    ///
    /// `Stop` publishes zero everywhere and leaves the momenta alone. For
    /// `MoveAndAlign`, `elapsed_ms` is the time since the previous command
    /// and `rot_cos` / `rot_sin` are the cosine and sine, in milli-units,
    /// of the angle `momentum_angle_mrad(..., elapsed_ms)`.
    pub fn handle_command(
        &mut self,
        cmd: &MoveCommand,
        elapsed_ms: u64,
        rot_cos: i64,
        rot_sin: i64,
    ) -> (speeds: Vec<i64>)
        requires
            old(self).wf(),
            -1000 <= rot_cos <= 1000,
            -1000 <= rot_sin <= 1000,
            match *cmd {
                MoveCommand::MoveAndAlign(p, o) => in_range(p) && in_range(o),
                MoveCommand::Stop => true,
            },
        ensures
            final(self).wf(),
            speeds@.len() == old(self).wheels@.len(),
            match *cmd {
                MoveCommand::Stop => {
                    &&& *final(self) == *old(self)
                    &&& forall|i: int| 0 <= i < speeds@.len() ==> speeds@[i] == 0
                },
                MoveCommand::MoveAndAlign(p, o) => move_and_align_post(
                    *old(self),
                    *final(self),
                    speeds@,
                    p,
                    o,
                    elapsed_ms as int,
                    rot_cos as int,
                    rot_sin as int,
                ),
            },
    {
        match cmd {
            MoveCommand::Stop => {
                let n = self.wheels.len();
                let mut speeds: Vec<i64> = Vec::new();
                let mut i: usize = 0;
                while i < n
                    invariant
                        i <= n,
                        speeds@.len() == i,
                        forall|j: int| 0 <= j < i ==> speeds@[j] == 0,
                    decreases n - i,
                {
                    speeds.push(0);
                    i += 1;
                }
                speeds
            }
            MoveCommand::MoveAndAlign(p, o) => {
                let pos_norm = p.normalize();
                let ori_norm = o.normalize();
                let p1 = Vec2 {
                    x: pos_norm.x - self.velocity_momentum.x,
                    y: pos_norm.y - self.velocity_momentum.y,
                };

                let vmx = self.velocity_momentum.x;
                let vmy = self.velocity_momentum.y;
                proof {
                    lemma_mom_cos_bound(vmx as int, rot_cos as int);
                    lemma_mom_cos_bound(vmx as int, rot_sin as int);
                    lemma_mom_cos_bound(vmy as int, rot_cos as int);
                    lemma_mom_cos_bound(vmy as int, rot_sin as int);
                }
                let rvx = mul_milli(vmx, rot_cos) - mul_milli(vmy, rot_sin);
                let rvy = mul_milli(vmx, rot_sin) + mul_milli(vmy, rot_cos);
                let vf = velocity_factor(elapsed_ms);
                self.velocity_momentum = Vec2 {
                    x: clamp(lerp(rvx, p1.x, vf), -1_000_000_000, 1_000_000_000),
                    y: clamp(lerp(rvy, p1.y, vf), -1_000_000_000, 1_000_000_000),
                };

                let rot0: i64 = if ori_norm.y > 0 {
                    let r0 = min(ori_norm.x, 1000 - ori_norm.y);
                    if ori_norm.y > 500 {
                        mul_milli(r0, 900)
                    } else {
                        r0
                    }
                } else if ori_norm.x > 0 {
                    1000
                } else {
                    -1000
                };
                let rotate = rot0 - self.rotate_momentum;
                let rf = rotation_factor(elapsed_ms);
                let new_rm = clamp(
                    lerp(self.rotate_momentum, rotate, rf),
                    -1_000_000_000,
                    1_000_000_000,
                );

                let ghost pre_wheels = self.wheels@;
                let n = self.wheels.len();
                let mut raws: Vec<i64> = Vec::new();
                let mut m: i64 = SPEED_FLOOR;
                let mut i: usize = 0;
                while i < n
                    invariant
                        i <= n,
                        n == self.wheels@.len(),
                        self.wheels@ == pre_wheels,
                        forall|k: int| 0 <= k < n ==> in_range(#[trigger] self.wheels@[k].forward),
                        in_range2(p1),
                        -1_000_002_000 <= rotate <= 1_000_002_000,
                        raws@.len() == i,
                        forall|j: int| 0 <= j < i ==> raws@[j] == spec_raw_speed(
                            pre_wheels[j].forward,
                            p1.x as int,
                            p1.y as int,
                            rotate as int,
                        ),
                        m == spec_speed_divisor(
                            pre_wheels.take(i as int),
                            p1.x as int,
                            p1.y as int,
                            rotate as int,
                        ),
                        100 <= m <= 1_000_003_000,
                    decreases n - i,
                {
                    let fwd = self.wheels[i].forward;
                    let movement = clamp(p1.dot(&Vec2 { x: fwd.x, y: fwd.y }), -1000, 1000);
                    proof {
                        assert(spec_dot(p1.x as int, p1.y as int, fwd.x as int, fwd.y as int)
                            == spec_dot(fwd.x as int, fwd.y as int, p1.x as int, p1.y as int)) by {
                            assert(p1.x * fwd.x + p1.y * fwd.y == fwd.x * p1.x + fwd.y * p1.y)
                                by (nonlinear_arith);
                        }
                    }
                    let raw = movement + rotate;
                    let a = abs(raw);
                    if a > m {
                        m = a;
                    }
                    raws.push(raw);
                    proof {
                        assert(pre_wheels.take(i + 1).drop_last() =~= pre_wheels.take(i as int));
                        assert(pre_wheels.take(i + 1).last() == pre_wheels[i as int]);
                    }
                    i += 1;
                }
                proof {
                    assert(pre_wheels.take(n as int) =~= pre_wheels);
                }

                let mut speeds: Vec<i64> = Vec::new();
                let mut j: usize = 0;
                while j < n
                    invariant
                        j <= n,
                        n == raws@.len(),
                        100 <= m <= 1_000_003_000,
                        forall|k: int| 0 <= k < n ==> -1_000_003_000 <= #[trigger] raws@[k]
                            <= 1_000_003_000,
                        speeds@.len() == j,
                        forall|k: int| 0 <= k < j ==> speeds@[k] == tdiv(
                            raws@[k] * 1000,
                            m as int,
                        ),
                    decreases n - j,
                {
                    let raw = raws[j];
                    proof {
                        assert(-2_000_000_000_000 <= raw * 1000 <= 2_000_000_000_000)
                            by (nonlinear_arith)
                            requires -1_000_003_000 <= raw <= 1_000_003_000;
                    }
                    speeds.push(div_trunc(raw * 1000, m));
                    j += 1;
                }

                self.rotate_momentum = new_rm;
                speeds
            }
        }
    }
}

/// The angle, in milli-radians, by which accumulated rotation momentum
/// turns the velocity momentum over `elapsed_ms` milliseconds. The caller
/// feeds its cosine and sine back into `handle_command`.
pub fn momentum_angle_mrad(rotate_momentum: i64, elapsed_ms: u64) -> (angle: i64)
    requires
        -MAX_MILLI <= rotate_momentum <= MAX_MILLI,
        elapsed_ms <= 1_000_000_000,
    ensures
        angle == tdiv(rotate_momentum * 8 * elapsed_ms, 1000),
{
    proof {
        assert(-8_000_000_000_000_000_000 <= rotate_momentum * 8 * elapsed_ms
            <= 8_000_000_000_000_000_000) by (nonlinear_arith)
            requires -MAX_MILLI <= rotate_momentum <= MAX_MILLI
                && 0 <= elapsed_ms <= 1_000_000_000;
    }
    div_trunc(rotate_momentum * DEGREE_GAIN * (elapsed_ms as i64), 1000)
}

/// `dt * VELOCITY_GAIN` in milli-units, capped at one unit.
pub fn velocity_factor(dt_ms: u64) -> (r: i64)
    ensures
        r == spec_velocity_factor(dt_ms as int),
        0 <= r <= 1000,
{
    let capped: u64 = if dt_ms > 2000 {
        2000
    } else {
        dt_ms
    };
    proof {
        if dt_ms > 2000 {
            vstd::arithmetic::div_mod::lemma_div_is_ordered(2000, dt_ms as int, 2);
        }
    }
    (capped / 2) as i64
}

/// `dt * ROTATION_GAIN` in milli-units, capped at one unit.
pub fn rotation_factor(dt_ms: u64) -> (r: i64)
    ensures
        r == spec_rotation_factor(dt_ms as int),
        0 <= r <= 1000,
{
    if dt_ms >= 200 {
        1000
    } else {
        (dt_ms as i64) * ROTATION_GAIN
    }
}

proof fn lemma_mom_cos_bound(v: int, c: int)
    requires
        -MAX_MILLI <= v <= MAX_MILLI,
        -1000 <= c <= 1000,
    ensures
        -1_000_000_000_000 <= v * c <= 1_000_000_000_000,
        -MAX_MILLI <= spec_mul_milli(v, c) <= MAX_MILLI,
{
    assert(-1_000_000_000_000 <= v * c <= 1_000_000_000_000) by (nonlinear_arith)
        requires -1_000_000_000 <= v <= 1_000_000_000 && -1000 <= c <= 1000;
    lemma_tdiv_bound(v * c, 1000, MAX_MILLI as int);
}


/// The speed divisor dominates every raw magnitude, never drops under the
/// floor, and — unless only the floor is active — is attained by some wheel.
pub proof fn lemma_divisor_bounds(ws: Seq<WheelExtrinsics>, px: int, py: int, rot: int)
    ensures
        spec_speed_divisor(ws, px, py, rot) >= 100,
        forall|j: int| 0 <= j < ws.len() ==> spec_abs(
            spec_raw_speed(#[trigger] ws[j].forward, px, py, rot),
        ) <= spec_speed_divisor(ws, px, py, rot),
        spec_speed_divisor(ws, px, py, rot) == 100 || exists|j: int|
            0 <= j < ws.len() && spec_abs(
                spec_raw_speed(#[trigger] ws[j].forward, px, py, rot),
            ) == spec_speed_divisor(ws, px, py, rot),
    decreases ws.len(),
{
    if ws.len() > 0 {
        lemma_divisor_bounds(ws.drop_last(), px, py, rot);
        assert(forall|j: int| 0 <= j < ws.len() - 1 ==> ws.drop_last()[j] == ws[j]);
        assert(ws.last() == ws[ws.len() - 1]);
    }
}

/// Every published wheel speed lies in the unit range: the divisor is at
/// least the largest raw magnitude, so no quotient can exceed one.
pub proof fn lemma_speeds_unit_bounded(
    pre: MotionControllerState,
    post: MotionControllerState,
    speeds: Seq<i64>,
    pos: Vec2,
    ori: Vec2,
    dt_ms: int,
    rot_cos: int,
    rot_sin: int,
)
    requires
        move_and_align_post(pre, post, speeds, pos, ori, dt_ms, rot_cos, rot_sin),
    ensures
        forall|i: int| 0 <= i < speeds.len() ==> -1000 <= #[trigger] speeds[i] <= 1000,
{
    let pn = spec_normalize(pos.x as int, pos.y as int);
    let p1x = pn.0 - pre.velocity_momentum.x;
    let p1y = pn.1 - pre.velocity_momentum.y;
    let on = spec_normalize(ori.x as int, ori.y as int);
    let rot = spec_rotate_scalar(on.0, on.1) - pre.rotate_momentum;
    let m = spec_speed_divisor(pre.wheels@, p1x, p1y, rot);
    lemma_divisor_bounds(pre.wheels@, p1x, p1y, rot);
    assert forall|i: int| 0 <= i < speeds.len() implies -1000 <= #[trigger] speeds[i] <= 1000 by {
        let raw = spec_raw_speed(pre.wheels@[i].forward, p1x, p1y, rot);
        assert(-(1000 * m) <= raw * 1000 <= 1000 * m) by (nonlinear_arith)
            requires spec_abs(raw) <= m && m > 0;
        lemma_tdiv_bound(raw * 1000, m, 1000);
    }
}

/// Whenever some wheel's raw speed reaches the divisor floor, the
/// published mix is saturated: some wheel leaves at full magnitude.
pub proof fn lemma_speed_saturation(
    pre: MotionControllerState,
    post: MotionControllerState,
    speeds: Seq<i64>,
    pos: Vec2,
    ori: Vec2,
    dt_ms: int,
    rot_cos: int,
    rot_sin: int,
)
    requires
        move_and_align_post(pre, post, speeds, pos, ori, dt_ms, rot_cos, rot_sin),
        exists|i: int| 0 <= i < pre.wheels@.len() && spec_abs(spec_raw_speed(
            #[trigger] pre.wheels@[i].forward,
            spec_normalize(pos.x as int, pos.y as int).0 - pre.velocity_momentum.x,
            spec_normalize(pos.x as int, pos.y as int).1 - pre.velocity_momentum.y,
            spec_rotate_scalar(
                spec_normalize(ori.x as int, ori.y as int).0,
                spec_normalize(ori.x as int, ori.y as int).1,
            ) - pre.rotate_momentum,
        )) >= 100,
    ensures
        exists|i: int| 0 <= i < speeds.len() && (#[trigger] speeds[i] == 1000 || speeds[i]
            == -1000),
{
    let pn = spec_normalize(pos.x as int, pos.y as int);
    let p1x = pn.0 - pre.velocity_momentum.x;
    let p1y = pn.1 - pre.velocity_momentum.y;
    let on = spec_normalize(ori.x as int, ori.y as int);
    let rot = spec_rotate_scalar(on.0, on.1) - pre.rotate_momentum;
    let m = spec_speed_divisor(pre.wheels@, p1x, p1y, rot);
    lemma_divisor_bounds(pre.wheels@, p1x, p1y, rot);
    let w = choose|i: int| 0 <= i < pre.wheels@.len() && spec_abs(spec_raw_speed(
        #[trigger] pre.wheels@[i].forward, p1x, p1y, rot)) >= 100;
    if m == 100 {
        let raw = spec_raw_speed(pre.wheels@[w].forward, p1x, p1y, rot);
        assert(spec_abs(raw) == m);
        lemma_tdiv_self_scale(raw, 1000);
        assert(speeds[w] == 1000 || speeds[w] == -1000);
    } else {
        let k = choose|j: int| 0 <= j < pre.wheels@.len() && spec_abs(spec_raw_speed(
            #[trigger] pre.wheels@[j].forward, p1x, p1y, rot)) == m;
        let raw = spec_raw_speed(pre.wheels@[k].forward, p1x, p1y, rot);
        lemma_tdiv_self_scale(raw, 1000);
        assert(speeds[k] == 1000 || speeds[k] == -1000);
    }
}

/// The controller is a function of its state and inputs: one command,
/// resolved twice from equal states with equal inputs, updates both
/// states equally and publishes equal speeds.
pub proof fn lemma_command_deterministic(
    pre: MotionControllerState,
    post1: MotionControllerState,
    post2: MotionControllerState,
    speeds1: Seq<i64>,
    speeds2: Seq<i64>,
    pos: Vec2,
    ori: Vec2,
    dt_ms: int,
    rot_cos: int,
    rot_sin: int,
)
    requires
        move_and_align_post(pre, post1, speeds1, pos, ori, dt_ms, rot_cos, rot_sin),
        move_and_align_post(pre, post2, speeds2, pos, ori, dt_ms, rot_cos, rot_sin),
    ensures
        speeds1 == speeds2,
        post1.velocity_momentum == post2.velocity_momentum,
        post1.rotate_momentum == post2.rotate_momentum,
        post1.wheels@ == post2.wheels@,
{
    assert(speeds1 =~= speeds2);
}

} // verus!
