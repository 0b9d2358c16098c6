//! Scene snapshots, as perception publishes them.
//!
//! The simulator queries themselves are plain HTTP and live outside the
//! crate; what is verified here is the assembly of the published message:
//! an undetected object never surfaces with a position.

use vstd::prelude::*;
use crate::intercom::IntercomPosition;
use crate::vec2::Vec2;

verus! {

/// One measured object: its position, when it was detected at all.
#[derive(Clone, Copy, Debug, PartialEq)]
pub struct Measurement {
    pub position: Option<Vec2>,
}

/// What a detector endpoint answers: a flag and a position that is only
/// meaningful when the flag is set.
#[derive(Clone, Copy, Debug, PartialEq)]
pub struct Detection {
    pub detected: bool,
    pub position: Vec2,
}

/// One tick's view of the scene, in milli-units.
#[derive(Clone, Copy, Debug, PartialEq)]
pub struct PerceptionMessage {
    pub n_goals: u32,
    pub abs_robot_pos: Vec2,
    pub abs_ball_pos: Vec2,
    pub ball: Measurement,
    pub own_goal: Measurement,
    pub target_goal: Measurement,
    pub boundary: Measurement,
}

/// A detection as a measurement: the position surfaces only behind the
/// flag, so `detected == false` can never leak a position.
pub fn to_measurement(d: &Detection) -> (m: Measurement)
    ensures
        m.position is Some <==> d.detected,
        d.detected ==> m.position == Some(d.position),
{
    if d.detected {
        Measurement { position: Some(d.position) }
    } else {
        Measurement { position: None }
    }
}

/// Assemble one perception message from the four detector answers and the
/// absolute positions. Each measurement carries a position exactly when
/// its detector saw the object.
pub fn build_message(
    n_goals: u32,
    abs_robot_pos: Vec2,
    abs_ball_pos: Vec2,
    ball: &Detection,
    own_goal: &Detection,
    target_goal: &Detection,
    boundary: &Detection,
) -> (m: PerceptionMessage)
    ensures
        m.n_goals == n_goals,
        m.abs_robot_pos == abs_robot_pos,
        m.abs_ball_pos == abs_ball_pos,
        m.ball.position is Some <==> ball.detected,
        ball.detected ==> m.ball.position == Some(ball.position),
        m.own_goal.position is Some <==> own_goal.detected,
        own_goal.detected ==> m.own_goal.position == Some(own_goal.position),
        m.target_goal.position is Some <==> target_goal.detected,
        target_goal.detected ==> m.target_goal.position == Some(target_goal.position),
        m.boundary.position is Some <==> boundary.detected,
        boundary.detected ==> m.boundary.position == Some(boundary.position),
{
    PerceptionMessage {
        n_goals,
        abs_robot_pos,
        abs_ball_pos,
        ball: to_measurement(ball),
        own_goal: to_measurement(own_goal),
        target_goal: to_measurement(target_goal),
        boundary: to_measurement(boundary),
    }
}

/// The three core positions forwarded to the peer link. They must all
/// have been detected; the caller checks before it forwards.
pub fn intercom_position(m: &PerceptionMessage) -> (r: IntercomPosition)
    requires
        m.ball.position is Some,
        m.own_goal.position is Some,
        m.target_goal.position is Some,
    ensures
        r.ball == m.ball.position->0,
        r.own_goal == m.own_goal.position->0,
        r.target_goal == m.target_goal.position->0,
{
    let ball = match m.ball.position {
        Some(p) => p,
        None => unreached(),
    };
    let own_goal = match m.own_goal.position {
        Some(p) => p,
        None => unreached(),
    };
    let target_goal = match m.target_goal.position {
        Some(p) => p,
        None => unreached(),
    };
    IntercomPosition { ball, own_goal, target_goal }
}

} // verus!
