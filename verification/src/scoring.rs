//! Fitness arithmetic of the training loop: per-genome run parameters,
//! the end-of-round score, and the move command derived from a network's
//! output. Lower scores are better; the constants are the fitness
//! contract and are kept exactly as given.

use vstd::prelude::*;
use crate::math::{
    spec_min, spec_max, spec_clamp, spec_abs, spec_isqrt, tdiv, min, max, clamp, abs, isqrt,
    div_trunc, lemma_isqrt_bounds,
};
use crate::vec2::{Vec2, in_range, spec_magnitude, spec_normalize, spec_lerp_vec};
use crate::motion::MoveCommand;

verus! {

/// How many rounds a genome of generation `g` plays: one by default, two
/// or three late in each ten-generation cycle, one while the experiment is
/// young, four once it is mature.
pub open spec fn spec_number_runs(g: int) -> int {
    let cycle = if g % 10 == 6 || g % 10 == 7 {
        2
    } else if g % 10 == 8 || g % 10 == 9 {
        3
    } else {
        1
    };
    let young = if g <= 20 {
        1
    } else {
        cycle
    };
    if g >= 100 {
        4
    } else {
        young
    }
}

/// How long one round lasts for generation `g`: three seconds plus one
/// twentieth of a second per generation, at most six seconds.
pub open spec fn spec_round_timer_ms(g: int) -> int {
    spec_min(6000, 3000 + g * 50)
}

/// Runs per genome; always between one and four.
pub fn number_runs(generation: u32) -> (r: u32)
    ensures
        r == spec_number_runs(generation as int),
        1 <= r <= 4,
{
    let rest = generation % 10;
    let mut runs: u32 = match rest {
        6 => 2,
        7 => 2,
        8 => 3,
        9 => 3,
        _ => 1,
    };
    if generation <= 20 {
        runs = 1;
    }
    if generation >= 100 {
        runs = 4;
    }
    runs
}

/// Round length in milliseconds; always between three and six seconds.
pub fn round_timer_ms(generation: u32) -> (r: u64)
    ensures
        r == spec_round_timer_ms(generation as int),
        3000 <= r <= 6000,
{
    if generation >= 60 {
        6000
    } else {
        3000 + (generation as u64) * 50
    }
}

/// The average accumulated value per tick, relative to the round's
/// starting distance, in milli-units; zero when nothing was counted or
/// the round started on top of its reference point.
pub open spec fn spec_ratio(total: int, cnt: int, dist: int) -> int {
    if cnt <= 0 || dist <= 0 {
        0
    } else {
        tdiv(tdiv(total, cnt) * 1000, dist)
    }
}

/// Ball term: fifty times the average ball distance, relative to its
/// start, less a grace fifth, never negative.
pub open spec fn spec_ball_term(total: int, cnt: int, dist: int) -> int {
    let t = spec_max(spec_ratio(total, cnt, dist) - 200, 0);
    50 * tdiv(t * 5, 4)
}

/// Goal term: four hundred times the relative average ball-to-goal
/// distance raised to the power three halves. The ratio is capped at a
/// million units to stay inside machine integers; play never comes near
/// the cap.
pub open spec fn spec_goal_term(total: int, cnt: int, dist: int) -> int {
    let x = spec_min(spec_max(spec_ratio(total, cnt, dist), 0), 1_000_000_000);
    tdiv(400 * x * spec_isqrt(x * 1000), 1000)
}

/// Alignment term: fifty times half of one minus the average dot product.
pub open spec fn spec_dot_term(total: int, cnt: int) -> int {
    if cnt <= 0 {
        0
    } else {
        25 * (1000 - tdiv(total, cnt))
    }
}

/// The round's score: the three terms, floored at zero, shrunk by each
/// goal scored.
pub open spec fn spec_round_total(bt: int, gt: int, dt: int, goals: int) -> int {
    tdiv(spec_max(bt + gt + dt, 0), 1 + goals)
}

/// One finished round, scored.
#[derive(Clone, Copy, Debug, PartialEq, Eq, Structural)]
pub struct RoundScore {
    pub ball: i64,
    pub goal: i64,
    pub dot: i64,
    pub total: i64,
}

/// Score one round from its accumulators, in milli-units. Lower is better.
pub fn round_score(
    ball_total: i64,
    goal_total: i64,
    dot_total: i64,
    score_counter: u32,
    ball_dist_start: i64,
    goal_dist_start: i64,
    n_goals: u32,
) -> (r: RoundScore)
    requires
        score_counter <= 4_000_000,
        0 <= ball_total <= (score_counter + 1) * 2_000_000_000,
        0 <= goal_total <= (score_counter + 1) * 3_000_000_000,
        -((score_counter + 2) * 2000) <= dot_total <= (score_counter + 2) * 2000,
        0 <= ball_dist_start <= 3_000_000_000,
        0 <= goal_dist_start <= 3_000_000_000,
    ensures
        r.ball == spec_ball_term(ball_total as int, score_counter as int, ball_dist_start as int),
        r.goal == spec_goal_term(goal_total as int, score_counter as int, goal_dist_start as int),
        r.dot == spec_dot_term(dot_total as int, score_counter as int),
        r.total == spec_round_total(r.ball as int, r.goal as int, r.dot as int, n_goals as int),
        0 <= r.ball <= 800_000_000_000_000,
        0 <= r.goal <= 500_000_000_000_000,
        -200_000 <= r.dot <= 200_000,
        0 <= r.total <= 1_400_000_000_000_000,
{
    let cnt = score_counter as i64;

    let ball_ratio = ratio_part(ball_total, cnt, ball_dist_start);
    let t = max(ball_ratio - 200, 0);
    let ball = 50 * div_trunc(t * 5, 4);
    proof {
        vstd::arithmetic::div_mod::lemma_div_pos_is_pos(t * 5, 4);
        vstd::arithmetic::div_mod::lemma_div_is_ordered(t * 5, 60_000_000_000_000, 4);
        assert(t * 5 <= 60_000_000_000_000) by (nonlinear_arith)
            requires 0 <= t <= 12_000_000_000_000;
    }

    let goal_ratio = ratio_part(goal_total, cnt, goal_dist_start);
    let x = min(max(goal_ratio, 0), 1_000_000_000);
    let s = isqrt(x * 1000);
    proof {
        assert(s <= 1_000_000) by (nonlinear_arith)
            requires s >= 0 && s * s <= 1_000_000_000_000 && x * 1000 <= 1_000_000_000_000;
        assert(400 * x * s <= 400_000_000_000_000_000) by (nonlinear_arith)
            requires 0 <= x <= 1_000_000_000 && 0 <= s <= 1_000_000;
        assert(400 * x * s >= 0) by (nonlinear_arith)
            requires x >= 0 && s >= 0;
        vstd::arithmetic::div_mod::lemma_div_pos_is_pos(400 * x * s, 1000);
        vstd::arithmetic::div_mod::lemma_div_is_ordered(
            400 * x * s,
            500_000_000_000_000_000,
            1000,
        );
    }
    let goal = div_trunc(400 * x * s, 1000);

    let dot: i64 = if score_counter == 0 {
        0
    } else {
        proof {
            assert((cnt + 2) * 2000 <= cnt * 6000) by (nonlinear_arith)
                requires cnt >= 1;
            crate::math::lemma_tdiv_bound(dot_total as int, cnt as int, 6000);
        }
        25 * (1000 - div_trunc(dot_total, cnt))
    };

    let sum = max(ball + goal + dot, 0);
    proof {
        vstd::arithmetic::div_mod::lemma_div_pos_is_pos(sum as int, 1 + n_goals as int);
        vstd::arithmetic::div_mod::lemma_div_is_ordered(
            sum as int,
            1_400_000_000_000_000 * (1 + n_goals as int),
            1 + n_goals as int,
        );
        vstd::arithmetic::div_mod::lemma_div_multiples_vanish(
            1_400_000_000_000_000,
            1 + n_goals as int,
        );
        assert(1_400_000_000_000_000 * (1 + n_goals as int) == (1 + n_goals as int)
            * 1_400_000_000_000_000) by (nonlinear_arith);
        assert(sum as int <= 1_400_000_000_000_000 * (1 + n_goals as int)) by (nonlinear_arith)
            requires sum <= 1_400_000_000_000_000 && n_goals >= 0;
    }
    let total = div_trunc(sum, 1 + (n_goals as i64));

    RoundScore { ball, goal, dot, total }
}

/// `total / cnt`, relative to `dist`, in milli-units, with the zero guards
/// of `spec_ratio`.
fn ratio_part(total: i64, cnt: i64, dist: i64) -> (r: i64)
    requires
        0 <= cnt <= 4_000_000,
        0 <= total <= (cnt + 1) * 3_000_000_000,
        0 <= dist <= 3_000_000_000,
    ensures
        r == spec_ratio(total as int, cnt as int, dist as int),
        0 <= r <= 12_000_000_000_000,
{
    if cnt <= 0 || dist <= 0 {
        0
    } else {
        let avg = div_trunc(total, cnt);
        proof {
            vstd::arithmetic::div_mod::lemma_div_pos_is_pos(total as int, cnt as int);
            assert((cnt + 1) * 3_000_000_000 <= cnt as int * 12_000_000_000) by (nonlinear_arith)
                requires cnt >= 1;
            crate::math::lemma_tdiv_bound(total as int, cnt as int, 12_000_000_000);
            assert(avg * 1000 <= 12_000_000_000_000) by (nonlinear_arith)
                requires 0 <= avg <= 12_000_000_000;
            vstd::arithmetic::div_mod::lemma_div_pos_is_pos(avg * 1000, dist as int);
            vstd::arithmetic::div_mod::lemma_div_nonincreasing(avg * 1000, dist as int);
        }
        div_trunc(avg * 1000, dist)
    }
}

/// The mixing fraction between the goal heading and the network's own
/// heading: zero for the first ten generations, then one twentieth per
/// ten generations, between one twentieth and three tenths.
pub open spec fn spec_rot_mix(g: int) -> int {
    if g > 9 {
        spec_clamp(tdiv(g - 10, 10) * 50, 50, 300)
    } else {
        0
    }
}

/// Rotation-mix fraction, in milli-units.
pub fn rot_mix(generation: u32) -> (r: i64)
    ensures
        r == spec_rot_mix(generation as int),
        0 <= r <= 300,
{
    if generation > 9 {
        let steps = ((generation - 10) / 10) as i64;
        clamp(steps * 50, 50, 300)
    } else {
        0
    }
}

/// The kicker fires when the ball sits in the pocket right in front of
/// the robot and the goal is within range.
pub open spec fn spec_kick_window(ball: Vec2, goal: Vec2) -> bool {
    &&& spec_abs(ball.x as int) < 200
    &&& spec_abs(ball.y - 1200) < 200
    &&& spec_magnitude(goal.x as int, goal.y as int) < 15000
}

/// A resolved tick of the network: the move to publish and whether to kick.
pub struct NetCommand {
    pub command: MoveCommand,
    pub kick: bool,
}

/// The move command derived from a network's four outputs: the first two,
/// scaled by ten, are the target position; the last two, normalized, are
/// the network's heading, mixed into the goal heading by `rot_mix`.
pub fn net_command(ball: Vec2, target_goal: Vec2, generation: u32, out: &Vec<i64>) -> (r:
    NetCommand)
    requires
        in_range(ball),
        in_range(target_goal),
        out@.len() == 4,
        forall|i: int| 0 <= i < 4 ==> -100_000_000 <= #[trigger] out@[i] <= 100_000_000,
    ensures
        ({
            let target = Vec2 { x: (out@[0] * 10) as i64, y: (out@[1] * 10) as i64 };
            let on = spec_normalize(out@[2] as int, out@[3] as int);
            let gn = spec_normalize(target_goal.x as int, target_goal.y as int);
            let heading = spec_lerp_vec(
                gn.0,
                gn.1,
                on.0,
                on.1,
                spec_rot_mix(generation as int),
            );
            r.command == MoveCommand::MoveAndAlign(
                target,
                Vec2 { x: heading.0 as i64, y: heading.1 as i64 },
            )
        }),
        r.kick == spec_kick_window(ball, target_goal),
{
    let target = Vec2 { x: out[0] * 10, y: out[1] * 10 };
    let orientation = Vec2 { x: out[2], y: out[3] }.normalize();
    let mix = rot_mix(generation);
    let heading = target_goal.normalize().lerp(&orientation, mix);

    let kick = kick_window(ball, target_goal);

    NetCommand { command: MoveCommand::MoveAndAlign(target, heading), kick }
}

/// The fixed seven-entry input vector of the network: ball, goal, their
/// magnitudes, and the alignment of their directions.
pub open spec fn spec_net_input(ball: Vec2, goal: Vec2) -> Seq<int> {
    let bn = spec_normalize(ball.x as int, ball.y as int);
    let gn = spec_normalize(goal.x as int, goal.y as int);
    seq![
        ball.x as int,
        ball.y as int,
        goal.x as int,
        goal.y as int,
        spec_magnitude(ball.x as int, ball.y as int),
        spec_magnitude(goal.x as int, goal.y as int),
        crate::vec2::spec_dot(bn.0, bn.1, gn.0, gn.1),
    ]
}

/// Build the network input vector, in milli-units.
pub fn net_input(ball: Vec2, goal: Vec2) -> (r: Vec<i64>)
    requires
        in_range(ball),
        in_range(goal),
    ensures
        r@.len() == 7,
        forall|i: int| 0 <= i < 7 ==> #[trigger] r@[i] as int == spec_net_input(ball, goal)[i],
{
    let bn = ball.normalize();
    let gn = goal.normalize();
    let dot = bn.dot(&gn);
    let mut v: Vec<i64> = Vec::new();
    v.push(ball.x);
    v.push(ball.y);
    v.push(goal.x);
    v.push(goal.y);
    v.push(ball.magnitude());
    v.push(goal.magnitude());
    v.push(dot);
    v
}


/// Whether the kicker should fire for this scene.
pub fn kick_window(ball: Vec2, target_goal: Vec2) -> (r: bool)
    requires
        in_range(ball),
        in_range(target_goal),
    ensures
        r == spec_kick_window(ball, target_goal),
{
    abs(ball.x) < 200 && abs(ball.y - 1200) < 200 && target_goal.magnitude() < 15000
}

} // verus!
