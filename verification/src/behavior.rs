//! Hand-written behaviour leaves and the blackboard they play on.
//!
//! These two leaves predate the evolved controller: one drives the robot
//! into a shooting position behind the ball, the other pushes the ball
//! toward the goal and fires the kicker in its window. Both are ordinary
//! tick nodes over `MyBlackboard`, so they compose with the tree core.

use vstd::prelude::*;
use crate::bt::{BTDecorator, BTDecoratorResult, BTNode, BTResult};
use crate::math::spec_mul_milli;
use crate::motion::MoveCommand;
use crate::perception::PerceptionMessage;
use crate::scoring::{spec_kick_window, kick_window};
use crate::vec2::{Vec2, spec_normalize, spec_dot, spec_magnitude};

verus! {

/// Coordinates of a playing-field point: comfortably inside the working
/// range, so the leaves' geometry never leaves the machine's integers.
pub open spec fn in_scene(v: Vec2) -> bool {
    &&& -100_000_000 <= v.x <= 100_000_000
    &&& -100_000_000 <= v.y <= 100_000_000
}

/// What the behaviour tree reads and writes during a tick: the scene as
/// perception last published it, and the outbox the surrounding task
/// drains after the tick.
pub struct MyBlackboard {
    pub n_goals: u32,
    pub ball: Vec2,
    pub target_goal: Vec2,
    pub robot_pos: Vec2,
    pub ball_pos: Vec2,
    /// Move command to publish, if the tick produced one.
    pub move_command: Option<MoveCommand>,
    /// Fire the kicker.
    pub kicker: bool,
    /// Ask the manager to reset the scene.
    pub reset_sim: bool,
}

/// Drives the ball toward the goal and fires in the kicker window.
pub struct BTShootIntoGoal {}

impl BTShootIntoGoal {
    pub fn new() -> (r: BTShootIntoGoal) {
        BTShootIntoGoal {  }
    }
}

/// The aim point of the shot: overshoot the ball away from the goal
/// direction, then project the overshoot onto a five-unit circle.
pub open spec fn spec_shoot_target(ball: Vec2, goal: Vec2) -> (int, int) {
    let gn = spec_normalize(goal.x as int, goal.y as int);
    let ex = ball.x - spec_mul_milli(gn.0, 1100);
    let ey = ball.y - spec_mul_milli(gn.1, 1100);
    let tx = ball.x + spec_mul_milli(ex, 1500);
    let ty = ball.y + spec_mul_milli(ey, 1500);
    let tn = spec_normalize(tx, ty);
    (spec_mul_milli(tn.0, 5000), spec_mul_milli(tn.1, 5000))
}

impl BTNode<MyBlackboard> for BTShootIntoGoal {
    open spec fn tick_rel(
        pre: Self,
        preb: MyBlackboard,
        post: Self,
        postb: MyBlackboard,
        r: BTResult,
    ) -> bool {
        &&& post == pre
        &&& if !(in_scene(preb.ball) && in_scene(preb.target_goal)) {
            r == BTResult::Failure && postb == preb
        } else {
            let t = spec_shoot_target(preb.ball, preb.target_goal);
            let bn = spec_normalize(preb.ball.x as int, preb.ball.y as int);
            let dot = spec_dot(bn.0, bn.1, preb.target_goal.x as int, preb.target_goal.y as int);
            &&& postb == (MyBlackboard {
                move_command: Some(
                    MoveCommand::MoveAndAlign(
                        Vec2 { x: t.0 as i64, y: t.1 as i64 },
                        preb.target_goal,
                    ),
                ),
                kicker: preb.kicker || spec_kick_window(preb.ball, preb.target_goal),
                ..preb
            })
            &&& r == if dot < 700 {
                BTResult::Failure
            } else if spec_magnitude(t.0, t.1) < 500 {
                BTResult::Success
            } else {
                BTResult::Pending
            }
        }
    }

    open spec fn reset_rel(pre: Self, post: Self) -> bool {
        post == pre
    }

    fn tick(&mut self, blackboard: &mut MyBlackboard) -> (r: BTResult) {
        if !(within_scene(blackboard.ball) && within_scene(blackboard.target_goal)) {
            return BTResult::Failure;
        }
        let ball = blackboard.ball;
        let goal = blackboard.target_goal;
        let gn = goal.normalize();
        let error = ball.minus(&gn.scale(1100));
        let target_pos0 = ball.plus(&error.scale(1500));
        let target_position = target_pos0.normalize().scale(5000);

        let ball_norm = ball.normalize();
        let dot = ball_norm.dot(&goal);

        if kick_window(ball, goal) {
            blackboard.kicker = true;
        }
        blackboard.move_command = Some(MoveCommand::MoveAndAlign(target_position, goal));

        if dot < 700 {
            BTResult::Failure
        } else if target_position.magnitude() < 500 {
            BTResult::Success
        } else {
            BTResult::Pending
        }
    }

    fn reset(&mut self) {
    }
}

/// Moves behind the ball, on the far side from the goal, with a little
/// hysteresis on which side of the ball the robot believes itself to be.
pub struct BTMoveIntoShootPosition {
    pub is_between_ball_and_goal: bool,
}

impl BTMoveIntoShootPosition {
    pub fn new() -> (r: BTMoveIntoShootPosition)
        ensures
            r.is_between_ball_and_goal,
    {
        BTMoveIntoShootPosition { is_between_ball_and_goal: true }
    }
}

/// The hysteresis flag after one look at the scene: alignment beyond
/// three tenths flips it off, misalignment beyond three tenths flips it
/// back on.
pub open spec fn spec_between_after(was: bool, dot: int) -> bool {
    if was && dot > 300 {
        false
    } else if !was && dot < -300 {
        true
    } else {
        was
    }
}

/// The position to take: two units behind the ball as seen from the goal;
/// when the robot sits between ball and goal, swing out sideways, away
/// from the ball's direction.
pub open spec fn spec_shoot_position(ball: Vec2, goal: Vec2, between: bool) -> (int, int) {
    let gtb = spec_normalize(ball.x - goal.x, ball.y - goal.y);
    let bn = spec_normalize(ball.x as int, ball.y as int);
    if between {
        let n0 = (gtb.1, -gtb.0);
        let n = if spec_dot(n0.0, n0.1, bn.0, bn.1) > 0 {
            (spec_mul_milli(n0.0, -1000), spec_mul_milli(n0.1, -1000))
        } else {
            n0
        };
        (
            ball.x + spec_mul_milli(gtb.0 + n.0, 2000),
            ball.y + spec_mul_milli(gtb.1 + n.1, 2000),
        )
    } else {
        (ball.x + spec_mul_milli(gtb.0, 2000), ball.y + spec_mul_milli(gtb.1, 2000))
    }
}

impl BTNode<MyBlackboard> for BTMoveIntoShootPosition {
    open spec fn tick_rel(
        pre: Self,
        preb: MyBlackboard,
        post: Self,
        postb: MyBlackboard,
        r: BTResult,
    ) -> bool {
        if !(in_scene(preb.ball) && in_scene(preb.target_goal)) {
            r == BTResult::Failure && postb == preb && post == pre
        } else {
            let gtb = spec_normalize(preb.ball.x - preb.target_goal.x, preb.ball.y - preb.target_goal.y);
            let bn = spec_normalize(preb.ball.x as int, preb.ball.y as int);
            let gn = spec_normalize(preb.target_goal.x as int, preb.target_goal.y as int);
            let dot = spec_dot(bn.0, bn.1, gn.0, gn.1);
            let between = spec_between_after(pre.is_between_ball_and_goal, dot);
            let t = spec_shoot_position(preb.ball, preb.target_goal, between);
            let ox = spec_mul_milli(gtb.0, -1000);
            let oy = spec_mul_milli(gtb.1, -1000);
            &&& post.is_between_ball_and_goal == between
            &&& postb == (MyBlackboard {
                move_command: Some(
                    MoveCommand::MoveAndAlign(
                        Vec2 { x: t.0 as i64, y: t.1 as i64 },
                        Vec2 { x: ox as i64, y: oy as i64 },
                    ),
                ),
                ..preb
            })
            &&& r == if spec_magnitude(t.0, t.1) < 500 && oy > 980 {
                BTResult::Success
            } else {
                BTResult::Pending
            }
        }
    }

    open spec fn reset_rel(pre: Self, post: Self) -> bool {
        post == pre
    }

    fn tick(&mut self, blackboard: &mut MyBlackboard) -> (r: BTResult) {
        if !(within_scene(blackboard.ball) && within_scene(blackboard.target_goal)) {
            return BTResult::Failure;
        }
        let ball = blackboard.ball;
        let goal = blackboard.target_goal;
        let ball_norm = ball.normalize();
        let goal_norm = goal.normalize();
        let goal_to_ball = ball.minus(&goal).normalize();

        let dot = ball_norm.dot(&goal_norm);

        if self.is_between_ball_and_goal && dot > 300 {
            self.is_between_ball_and_goal = false;
        } else if !self.is_between_ball_and_goal && dot < -300 {
            self.is_between_ball_and_goal = true;
        }

        let target_position: Vec2 = if self.is_between_ball_and_goal {
            let mut normal = Vec2 { x: goal_to_ball.y, y: -goal_to_ball.x };
            if normal.dot(&ball_norm) > 0 {
                normal = normal.scale(-1000);
            }
            ball.plus(&goal_to_ball.plus(&normal).scale(2000))
        } else {
            ball.plus(&goal_to_ball.scale(2000))
        };

        let target_orientation = goal_to_ball.scale(-1000);

        blackboard.move_command = Some(
            MoveCommand::MoveAndAlign(target_position, target_orientation),
        );

        if target_position.magnitude() < 500 && target_orientation.y > 980 {
            BTResult::Success
        } else {
            BTResult::Pending
        }
    }

    fn reset(&mut self) {
    }
}

/// Whether the point sits on the playing field's working range.
pub fn within_scene(v: Vec2) -> (r: bool)
    ensures
        r == in_scene(v),
{
    -100_000_000 <= v.x && v.x <= 100_000_000 && -100_000_000 <= v.y && v.y <= 100_000_000
}


/// A decorator that admits a tick only while the ball reading is a sane
/// field coordinate; a wild reading rejects the node.
pub struct BallInScene {}

impl BallInScene {
    pub fn new() -> (r: BallInScene) {
        BallInScene {  }
    }
}

impl BTDecorator<MyBlackboard> for BallInScene {
    open spec fn eval_spec(self, blackboard: MyBlackboard) -> BTDecoratorResult {
        if in_scene(blackboard.ball) {
            BTDecoratorResult::Success
        } else {
            BTDecoratorResult::Failure
        }
    }

    fn evaluate(&self, blackboard: &MyBlackboard) -> (r: BTDecoratorResult) {
        if within_scene(blackboard.ball) {
            BTDecoratorResult::Success
        } else {
            BTDecoratorResult::Failure
        }
    }
}


/// Copy one perception snapshot into the blackboard, keeping the outbox.
/// The behaviour cannot act without the ball and the goal in sight, so
/// both measurements must be present; the caller checks before it copies.
pub fn on_perception(msg: &PerceptionMessage, blackboard: &mut MyBlackboard)
    requires
        msg.ball.position is Some,
        msg.target_goal.position is Some,
    ensures
        final(blackboard).n_goals == msg.n_goals,
        final(blackboard).ball == msg.ball.position->0,
        final(blackboard).target_goal == msg.target_goal.position->0,
        final(blackboard).robot_pos == msg.abs_robot_pos,
        final(blackboard).ball_pos == msg.abs_ball_pos,
        final(blackboard).move_command == old(blackboard).move_command,
        final(blackboard).kicker == old(blackboard).kicker,
        final(blackboard).reset_sim == old(blackboard).reset_sim,
{
    blackboard.n_goals = msg.n_goals;
    blackboard.ball = match msg.ball.position {
        Some(p) => p,
        None => unreached(),
    };
    blackboard.target_goal = match msg.target_goal.position {
        Some(p) => p,
        None => unreached(),
    };
    blackboard.robot_pos = msg.abs_robot_pos;
    blackboard.ball_pos = msg.abs_ball_pos;
}

} // verus!
