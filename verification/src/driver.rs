//! The training driver: one genome per evaluation, played for a number of
//! rounds, scored, and acknowledged back to the gene pool.
//!
//! The driver is the decision core of the evaluation loop. Everything it
//! cannot do itself — asking the pool for a genome, running the network,
//! resetting the simulator, writing log lines — it returns as an effect;
//! the surrounding task performs the effect and feeds the answers back in
//! through `genome_arrived`, `poll_failed` and `apply_net_output`.
//!
//! A genome is acknowledged exactly once per successful poll: the held
//! token is consumed by the acknowledgement effect, and a new genome can
//! only arrive while no token is held. `lemma_ack_discipline` states the
//! balance.

use vstd::prelude::*;
use crate::bt::BTResult;
use crate::ids::new_uuid;
use crate::math::{spec_max, tdiv, max, div_trunc};
use crate::scoring::{
    spec_number_runs, spec_round_timer_ms, spec_ball_term, spec_goal_term, spec_dot_term,
    spec_round_total, spec_net_input, number_runs, round_timer_ms, round_score, net_command,
    net_input, NetCommand,
};
use crate::vec2::{Vec2, in_range, spec_magnitude, spec_dot, spec_normalize, lemma_magnitude_bound};

verus! {

/// A genome under evaluation: what the pool must be told when it is done.
#[derive(Clone, Copy, Debug)]
pub struct GenomeToken {
    pub generation: u32,
    pub experiment: uuid::Uuid,
}

/// The acknowledgement owed to the pool: the token that was polled, with
/// the fitness the evaluation produced (in milli-units; lower is better).
#[derive(Clone, Copy, Debug)]
pub struct AckRequest {
    pub token: GenomeToken,
    pub fitness: i64,
}

/// One line of the per-genome log, in milli-units.
#[derive(Clone, Copy, Debug)]
pub struct LogRecord {
    pub generation: u32,
    pub ball_score: i64,
    pub goal_score: i64,
    pub dot_score: i64,
    pub score: i64,
    pub goals: u32,
    pub experiment: uuid::Uuid,
    pub node: uuid::Uuid,
    pub bot: uuid::Uuid,
}

/// One captured position sample; `score` and `goals` are backfilled with
/// the round's final values when the genome is finished.
#[derive(Clone, Copy, Debug)]
pub struct PositionData {
    pub generation: u32,
    pub robot_x: i64,
    pub robot_y: i64,
    pub ball_x: i64,
    pub ball_y: i64,
    pub kicker: bool,
    pub experiment: uuid::Uuid,
    pub node: uuid::Uuid,
    pub bot: uuid::Uuid,
    pub score: i64,
    pub goals: u32,
}

/// The scene as the behaviour tick sees it, in milli-units, plus the time
/// since the round clock last restarted.
pub struct TickContext {
    pub ball: Vec2,
    pub target_goal: Vec2,
    pub robot_pos: Vec2,
    pub ball_pos: Vec2,
    pub n_goals: u32,
    pub elapsed_ms: u64,
}

/// What the caller must do after a tick.
pub struct TickEffect {
    /// Tick result for the surrounding tree; the driver is never done.
    pub result: BTResult,
    /// Ask the manager to reset the scene.
    pub reset_sim: bool,
    /// Restart the round clock that `elapsed_ms` is measured from.
    pub restart_timer: bool,
    /// Ask the pool for the next genome, then call `genome_arrived` or
    /// `poll_failed`.
    pub need_poll: bool,
    /// Acknowledge this genome to the pool.
    pub ack: Option<AckRequest>,
    /// Append this record to the per-genome log.
    pub log: Option<LogRecord>,
    /// Append these backfilled samples to the per-sample log.
    pub samples: Option<Vec<PositionData>>,
    /// Run the network on this input and hand the output to
    /// `apply_net_output`.
    pub net_input: Option<Vec<i64>>,
}

/// The per-genome evaluation state machine.
pub struct BotDriver {
    pub ball_score: i64,
    pub ball_distance_start: i64,
    pub goal_distance_start: i64,
    pub dot_score: i64,
    pub max_goal_distance: i64,
    pub goal_score: i64,
    pub iteration: u32,
    pub generation: u32,
    pub score_so_far: i64,
    pub number_runs: u32,
    pub round_timer_ms: u64,
    pub score_counter: u32,
    pub run: u32,
    pub n_goals: u32,
    pub goals_so_far: u32,
    pub toack: Option<GenomeToken>,
    pub delay_ticker: u32,
    pub awaiting_baseline: bool,
    pub acc_ball_score: i64,
    pub acc_goal_score: i64,
    pub acc_dot_score: i64,
    pub experiment: Option<uuid::Uuid>,
    pub node: uuid::Uuid,
    pub bot: uuid::Uuid,
    pub pos_data: Vec<PositionData>,
    /// How many genomes have arrived from the pool.
    pub polled: Ghost<nat>,
    /// How many acknowledgements the driver has emitted.
    pub acked: Ghost<nat>,
}

impl BotDriver {
    /// The driver's internal invariant: the accumulators stay inside the
    /// machine's range, the run parameters inside their contract, and the
    /// acknowledgement balance holds.
    pub open spec fn wf(self) -> bool {
        &&& self.polled@ == self.acked@ + (if self.toack is Some {
            1nat
        } else {
            0nat
        })
        &&& self.toack is Some ==> self.experiment is Some
        &&& self.toack is Some ==> self.toack->0.generation == self.generation
        &&& self.toack is Some ==> self.run < self.number_runs
        &&& 1 <= self.number_runs <= 4
        &&& 3000 <= self.round_timer_ms <= 6000
        &&& self.run <= self.number_runs
        &&& self.score_counter <= 4_000_000
        &&& 0 <= self.ball_score <= (self.score_counter + 1) * 2_000_000_000
        &&& 0 <= self.goal_score <= (self.score_counter + 1) * 3_000_000_000
        &&& -((self.score_counter + 2) * 2000) <= self.dot_score <= (self.score_counter + 2)
            * 2000
        &&& 0 <= self.ball_distance_start <= 3_000_000_000
        &&& 0 <= self.goal_distance_start <= 3_000_000_000
        &&& 0 <= self.max_goal_distance <= 3_000_000_000
        &&& 0 <= self.score_so_far <= self.run * 1_400_000_000_000_000
        &&& 0 <= self.acc_ball_score <= self.run * 800_000_000_000_000
        &&& 0 <= self.acc_goal_score <= self.run * 500_000_000_000_000
        &&& -(self.run * 200_000) <= self.acc_dot_score <= self.run * 200_000
        &&& self.n_goals <= 1_000_000
        &&& self.goals_so_far <= self.run * 1_000_000
    }

    /// A driver with no genome: sentinel accumulators, waiting to poll.
    pub fn new() -> (r: BotDriver)
        ensures
            r.wf(),
            r.toack is None,
            r.experiment is None,
            r.polled@ == 0,
            r.acked@ == 0,
            r.delay_ticker == 0,
            r.run == 0,
            r.iteration == 0,
    {
        BotDriver {
            ball_score: 99_999_000,
            ball_distance_start: 99_999_000,
            goal_distance_start: 99_999_000,
            dot_score: -1000,
            max_goal_distance: 0,
            goal_score: 99_999_000,
            iteration: 0,
            generation: 0,
            score_so_far: 0,
            number_runs: 1,
            round_timer_ms: 4000,
            score_counter: 0,
            run: 0,
            n_goals: 0,
            goals_so_far: 0,
            toack: None,
            delay_ticker: 0,
            awaiting_baseline: false,
            acc_ball_score: 0,
            acc_goal_score: 0,
            acc_dot_score: 0,
            experiment: None,
            node: new_uuid(),
            bot: new_uuid(),
            pos_data: Vec::new(),
            polled: Ghost(0),
            acked: Ghost(0),
        }
    }

    /// The state with the round accumulators back at their sentinels, as
    /// both answers to a poll leave them.
    pub open spec fn spec_fresh(self) -> BotDriver {
        BotDriver {
            ball_score: 99_999_000,
            goal_score: 99_999_000,
            score_so_far: 0,
            run: 0,
            number_runs: 4,
            ball_distance_start: 99_999_000,
            goal_distance_start: 99_999_000,
            max_goal_distance: 0,
            delay_ticker: 4,
            awaiting_baseline: true,
            round_timer_ms: 3000,
            score_counter: 0,
            acc_ball_score: 0,
            acc_goal_score: 0,
            acc_dot_score: 0,
            generation: 0,
            n_goals: 0,
            goals_so_far: 0,
            dot_score: -1000i64,
            ..self
        }
    }

    /// A genome arrived from the pool: the round accumulators restart and
    /// the run parameters follow the genome's generation. Only one genome
    /// is held at a time, so the previous one must have been acknowledged.
    pub fn genome_arrived(&mut self, generation: u32, experiment: uuid::Uuid)
        requires
            old(self).wf(),
            old(self).toack is None,
        ensures
            final(self).wf(),
            ({
                &&& final(self).toack == Some(
                    GenomeToken { generation, experiment },
                )
                &&& final(self).experiment == Some(experiment)
                &&& final(self).generation == generation
                &&& final(self).number_runs == spec_number_runs(generation as int)
                &&& 1 <= final(self).number_runs <= 4
                &&& final(self).round_timer_ms == spec_round_timer_ms(generation as int)
                &&& 3000 <= final(self).round_timer_ms <= 6000
                &&& final(self).delay_ticker == 4
                &&& final(self).awaiting_baseline
                &&& final(self).run == 0
                &&& final(self).score_so_far == 0
                &&& final(self).pos_data@.len() == 0
                &&& final(self).polled@ == old(self).polled@ + 1
                &&& final(self).acked@ == old(self).acked@
                &&& final(self).node == old(self).node
                &&& final(self).iteration == old(self).iteration
                &&& final(self).ball_score == 99_999_000
                &&& final(self).goal_score == 99_999_000
                &&& final(self).ball_distance_start == 99_999_000
                &&& final(self).goal_distance_start == 99_999_000
                &&& final(self).max_goal_distance == 0
                &&& final(self).score_counter == 0
                &&& final(self).acc_ball_score == 0
                &&& final(self).acc_goal_score == 0
                &&& final(self).acc_dot_score == 0
                &&& final(self).n_goals == 0
                &&& final(self).goals_so_far == 0
                &&& final(self).dot_score == -1000
            }),
    {
        self.fresh_round();
        self.number_runs = number_runs(generation);
        self.round_timer_ms = round_timer_ms(generation);
        self.generation = generation;
        self.bot = new_uuid();
        self.pos_data = Vec::new();
        self.experiment = Some(experiment);
        self.toack = Some(GenomeToken { generation, experiment });
        self.polled = Ghost(self.polled@ + 1);
    }

    /// The pool answered with an error: sit idle with no genome, to retry
    /// on a later tick.
    pub fn poll_failed(&mut self)
        requires
            old(self).wf(),
            old(self).toack is None,
        ensures
            final(self).wf(),
            *final(self) == old(self).spec_fresh(),
    {
        self.fresh_round();
    }

    /// Reset the round accumulators to the sentinels of `spec_fresh`.
    fn fresh_round(&mut self)
        requires
            old(self).wf(),
            old(self).toack is None,
        ensures
            final(self).wf(),
            *final(self) == old(self).spec_fresh(),
    {
        self.ball_score = 99_999_000;
        self.goal_score = 99_999_000;
        self.score_so_far = 0;
        self.run = 0;
        self.number_runs = 4;
        self.ball_distance_start = 99_999_000;
        self.goal_distance_start = 99_999_000;
        self.max_goal_distance = 0;
        self.delay_ticker = 4;
        self.awaiting_baseline = true;
        self.round_timer_ms = 3000;
        self.score_counter = 0;
        self.acc_ball_score = 0;
        self.acc_goal_score = 0;
        self.acc_dot_score = 0;
        self.generation = 0;
        self.n_goals = 0;
        self.goals_so_far = 0;
        self.dot_score = -1000;
    }
}

/// The acknowledgement balance: every genome that ever arrived is either
/// acknowledged or still held, so acknowledgements never outnumber polls
/// and trail them by at most the one genome under evaluation.
pub proof fn lemma_ack_discipline(d: BotDriver)
    requires
        d.wf(),
    ensures
        d.acked@ <= d.polled@ <= d.acked@ + 1,
        d.polled@ == d.acked@ + 1 <==> d.toack is Some,
        d.polled@ == d.acked@ <==> d.toack is None,
{
}


/// The state after the baseline measurement at the end of the post-reset
/// delay: both reference distances are taken from the scene and the round
/// accumulators restart from them.
pub open spec fn spec_baseline(pre: BotDriver, ctx: TickContext) -> BotDriver {
    let bmag = spec_magnitude(ctx.ball.x as int, ctx.ball.y as int);
    let gmag = spec_magnitude(
        ctx.ball.x - ctx.target_goal.x,
        ctx.ball.y - ctx.target_goal.y,
    );
    BotDriver {
        ball_distance_start: bmag as i64,
        goal_distance_start: gmag as i64,
        max_goal_distance: gmag as i64,
        ball_score: bmag as i64,
        goal_score: gmag as i64,
        dot_score: -1000i64,
        n_goals: 0,
        score_counter: 0,
        awaiting_baseline: false,
        ..pre
    }
}

/// The goal count advanced from the scene.
pub open spec fn spec_bumped(pre: BotDriver, ctx: TickContext) -> BotDriver {
    if ctx.n_goals > pre.n_goals {
        BotDriver { n_goals: ctx.n_goals, ..pre }
    } else {
        pre
    }
}

/// A goal restarts the round clock, as long as fewer than five have been
/// scored: goals extend the round.
pub open spec fn spec_bump_restart(pre: BotDriver, ctx: TickContext) -> bool {
    ctx.n_goals > pre.n_goals && ctx.n_goals < 5
}

/// One tick's accumulation: distances, alignment, the tick count, and the
/// running maximum of the goal distance.
pub open spec fn spec_accumulated(pre: BotDriver, ctx: TickContext) -> BotDriver {
    let bn = spec_normalize(ctx.ball.x as int, ctx.ball.y as int);
    let gn = spec_normalize(ctx.target_goal.x as int, ctx.target_goal.y as int);
    let dot = spec_dot(bn.0, bn.1, gn.0, gn.1);
    let bmag = spec_magnitude(ctx.ball.x as int, ctx.ball.y as int);
    let gmag = spec_magnitude(
        ctx.ball.x - ctx.target_goal.x,
        ctx.ball.y - ctx.target_goal.y,
    );
    BotDriver {
        dot_score: (pre.dot_score + dot) as i64,
        ball_score: (pre.ball_score + bmag) as i64,
        goal_score: (pre.goal_score + gmag) as i64,
        score_counter: (pre.score_counter + 1) as u32,
        max_goal_distance: spec_max(pre.max_goal_distance as int, gmag) as i64,
        ..pre
    }
}

/// The finished round folded into the per-genome aggregates.
pub open spec fn spec_round_applied(pre: BotDriver) -> BotDriver {
    let bt = spec_ball_term(
        pre.ball_score as int,
        pre.score_counter as int,
        pre.ball_distance_start as int,
    );
    let gt = spec_goal_term(
        pre.goal_score as int,
        pre.score_counter as int,
        pre.goal_distance_start as int,
    );
    let dt = spec_dot_term(pre.dot_score as int, pre.score_counter as int);
    let sc = spec_round_total(bt, gt, dt, pre.n_goals as int);
    BotDriver {
        score_so_far: (pre.score_so_far + sc) as i64,
        goals_so_far: (pre.goals_so_far + pre.n_goals) as u32,
        acc_ball_score: (pre.acc_ball_score + bt) as i64,
        acc_goal_score: (pre.acc_goal_score + gt) as i64,
        acc_dot_score: (pre.acc_dot_score + dt) as i64,
        run: (pre.run + 1) as u32,
        ..pre
    }
}

/// The genome's fitness: its mean round score. Lower is better.
pub open spec fn spec_fitness(d: BotDriver) -> int {
    tdiv(d.score_so_far as int, d.run as int)
}

/// The log line written when a genome finishes: mean terms, fitness, and
/// the goals over all of its runs.
pub open spec fn spec_final_log(d: BotDriver) -> LogRecord {
    LogRecord {
        generation: d.generation,
        ball_score: tdiv(d.acc_ball_score as int, d.run as int) as i64,
        goal_score: tdiv(d.acc_goal_score as int, d.run as int) as i64,
        dot_score: tdiv(d.acc_dot_score as int, d.run as int) as i64,
        score: spec_fitness(d) as i64,
        goals: d.goals_so_far,
        experiment: d.experiment->0,
        node: d.node,
        bot: d.bot,
    }
}

/// The captured samples with the final score and goal count backfilled.
pub open spec fn spec_backfilled(samples: Seq<PositionData>, score: i64, goals: u32) -> Seq<
    PositionData,
> {
    samples.map(|i: int, p: PositionData| PositionData { score: score, goals: goals, ..p })
}

/// A tick that asks for nothing: it only returns `Pending`.
pub open spec fn eff_idle(eff: TickEffect) -> bool {
    &&& eff.result == BTResult::Pending
    &&& !eff.reset_sim
    &&& !eff.restart_timer
    &&& !eff.need_poll
    &&& eff.ack is None
    &&& eff.log is None
    &&& eff.samples is None
    &&& eff.net_input is None
}

/// The effect carries the network input vector for this scene.
pub open spec fn eff_net_input(eff: TickEffect, ctx: TickContext) -> bool {
    &&& eff.net_input is Some
    &&& eff.net_input->0@.len() == 7
    &&& forall|i: int|
        0 <= i < 7 ==> #[trigger] eff.net_input->0@[i] as int == spec_net_input(
            ctx.ball,
            ctx.target_goal,
        )[i]
}

/// Everything one tick does: the exact next state and effect for each
/// phase of the round lifecycle.
pub open spec fn spec_tick(pre: BotDriver, ctx: TickContext, post: BotDriver, eff: TickEffect) -> bool {
    if pre.delay_ticker > 0 {
        &&& post == BotDriver { delay_ticker: (pre.delay_ticker - 1) as u32, ..pre }
        &&& eff_idle(eff)
    } else {
        let s1 = if pre.awaiting_baseline {
            spec_baseline(pre, ctx)
        } else {
            pre
        };
        let restart1 = pre.awaiting_baseline;
        if s1.toack is None {
            &&& post == s1
            &&& eff.result == BTResult::Pending
            &&& eff.need_poll
            &&& eff.restart_timer == restart1
            &&& !eff.reset_sim
            &&& eff.ack is None
            &&& eff.log is None
            &&& eff.samples is None
            &&& eff.net_input is None
        } else {
            let s2 = spec_bumped(s1, ctx);
            let restart2 = restart1 || spec_bump_restart(s1, ctx);
            let elapsed: int = if restart2 {
                0
            } else {
                ctx.elapsed_ms as int
            };
            if elapsed > s2.round_timer_ms {
                let s3 = spec_round_applied(s2);
                if s3.run == s3.number_runs {
                    let fit = spec_fitness(s3);
                    &&& post == BotDriver {
                        toack: None,
                        iteration: (s3.iteration + 1) as u32,
                        pos_data: post.pos_data,
                        acked: post.acked,
                        ..s3
                    }
                    &&& post.acked@ == s3.acked@ + 1
                    &&& post.pos_data@.len() == 0
                    &&& eff.result == BTResult::Pending
                    &&& eff.reset_sim
                    &&& eff.restart_timer == restart2
                    &&& eff.need_poll
                    &&& eff.ack == Some(AckRequest { token: s3.toack->0, fitness: fit as i64 })
                    &&& eff.log == Some(spec_final_log(s3))
                    &&& eff.samples is Some
                    &&& eff.samples->0@ == spec_backfilled(
                        s3.pos_data@,
                        fit as i64,
                        s3.goals_so_far,
                    )
                    &&& eff.net_input is None
                } else {
                    let s4 = BotDriver { delay_ticker: 4, awaiting_baseline: true, ..s3 };
                    &&& post == spec_accumulated(s4, ctx)
                    &&& eff.result == BTResult::Pending
                    &&& eff.reset_sim
                    &&& eff.restart_timer
                    &&& !eff.need_poll
                    &&& eff.ack is None
                    &&& eff.log is None
                    &&& eff.samples is None
                    &&& eff_net_input(eff, ctx)
                }
            } else {
                &&& post == spec_accumulated(s2, ctx)
                &&& eff.result == BTResult::Pending
                &&& !eff.reset_sim
                &&& eff.restart_timer == restart2
                &&& !eff.need_poll
                &&& eff.ack is None
                &&& eff.log is None
                &&& eff.samples is None
                &&& eff_net_input(eff, ctx)
            }
        }
    }
}


impl BotDriver {
    /// One behaviour tick: walk the round lifecycle one step and say what
    /// the surrounding task must do. The tick count is capped only by the
    /// machine's integers; a round never comes near it.
    pub fn tick(&mut self, ctx: &TickContext) -> (eff: TickEffect)
        requires
            old(self).wf(),
            old(self).score_counter < 4_000_000,
            in_range(ctx.ball),
            in_range(ctx.target_goal),
            in_range(ctx.robot_pos),
            in_range(ctx.ball_pos),
            ctx.n_goals <= 1_000_000,
            old(self).iteration < 0xffff_ffff,
        ensures
            final(self).wf(),
            spec_tick(*old(self), *ctx, *final(self), eff),
    {
        if self.delay_ticker > 0 {
            self.delay_ticker = self.delay_ticker - 1;
            return TickEffect {
                result: BTResult::Pending,
                reset_sim: false,
                restart_timer: false,
                need_poll: false,
                ack: None,
                log: None,
                samples: None,
                net_input: None,
            };
        }

        let mut restart = false;
        if self.awaiting_baseline {
            let bmag = ctx.ball.magnitude();
            let diff = ctx.ball.minus(&ctx.target_goal);
            let gmag = diff.magnitude();
            proof {
                lemma_magnitude_bound(ctx.ball.x as int, ctx.ball.y as int, 1_000_000_000);
                lemma_magnitude_bound(diff.x as int, diff.y as int, 2_000_000_000);
                assert(bmag <= 2_000_000_000) by (nonlinear_arith)
                    requires 0 <= bmag && bmag * bmag <= 2_000_000_000_000_000_000;
                assert(gmag <= 2_900_000_000) by (nonlinear_arith)
                    requires 0 <= gmag && gmag * gmag <= 8_000_000_000_000_000_000;
            }
            self.ball_distance_start = bmag;
            self.goal_distance_start = gmag;
            self.max_goal_distance = gmag;
            self.ball_score = bmag;
            self.goal_score = gmag;
            self.dot_score = -1000;
            self.n_goals = 0;
            self.score_counter = 0;
            self.awaiting_baseline = false;
            restart = true;
        }

        if self.toack.is_none() {
            return TickEffect {
                result: BTResult::Pending,
                reset_sim: false,
                restart_timer: restart,
                need_poll: true,
                ack: None,
                log: None,
                samples: None,
                net_input: None,
            };
        }

        if ctx.n_goals > self.n_goals {
            self.n_goals = ctx.n_goals;
            if self.n_goals < 5 {
                restart = true;
            }
        }

        let elapsed: u64 = if restart {
            0
        } else {
            ctx.elapsed_ms
        };

        let mut reset_sim = false;
        if elapsed > self.round_timer_ms {
            let rs = round_score(
                self.ball_score,
                self.goal_score,
                self.dot_score,
                self.score_counter,
                self.ball_distance_start,
                self.goal_distance_start,
                self.n_goals,
            );
            self.score_so_far = self.score_so_far + rs.total;
            self.goals_so_far = self.goals_so_far + self.n_goals;
            self.acc_ball_score = self.acc_ball_score + rs.ball;
            self.acc_goal_score = self.acc_goal_score + rs.goal;
            self.acc_dot_score = self.acc_dot_score + rs.dot;
            self.run = self.run + 1;
            if self.run == self.number_runs {
                self.iteration = self.iteration + 1;
                let runs = self.run as i64;
                proof {
                    vstd::arithmetic::div_mod::lemma_div_pos_is_pos(
                        self.score_so_far as int,
                        runs as int,
                    );
                    vstd::arithmetic::div_mod::lemma_div_pos_is_pos(
                        self.acc_ball_score as int,
                        runs as int,
                    );
                    vstd::arithmetic::div_mod::lemma_div_pos_is_pos(
                        self.acc_goal_score as int,
                        runs as int,
                    );
                }
                let fitness = div_trunc(self.score_so_far, runs);
                let experiment = match self.experiment {
                    Some(e) => e,
                    None => unreached(),
                };
                let rec = LogRecord {
                    generation: self.generation,
                    ball_score: div_trunc(self.acc_ball_score, runs),
                    goal_score: div_trunc(self.acc_goal_score, runs),
                    dot_score: div_trunc(self.acc_dot_score, runs),
                    score: fitness,
                    goals: self.goals_so_far,
                    experiment,
                    node: self.node,
                    bot: self.bot,
                };
                let n = self.pos_data.len();
                let mut samples: Vec<PositionData> = Vec::new();
                let mut i: usize = 0;
                while i < n
                    invariant
                        i <= n,
                        n == self.pos_data@.len(),
                        samples@.len() == i,
                        forall|j: int|
                            0 <= j < i ==> samples@[j] == (PositionData {
                                score: fitness,
                                goals: self.goals_so_far,
                                ..self.pos_data@[j]
                            }),
                        self.pos_data@ == old(self).pos_data@,
                    decreases n - i,
                {
                    let p = self.pos_data[i];
                    samples.push(
                        PositionData { score: fitness, goals: self.goals_so_far, ..p },
                    );
                    i += 1;
                }
                proof {
                    assert(samples@ =~= spec_backfilled(
                        self.pos_data@,
                        fitness,
                        self.goals_so_far,
                    ));
                }
                let token = match self.toack {
                    Some(t) => t,
                    None => unreached(),
                };
                self.toack = None;
                self.acked = Ghost(self.acked@ + 1);
                self.pos_data = Vec::new();
                return TickEffect {
                    result: BTResult::Pending,
                    reset_sim: true,
                    restart_timer: restart,
                    need_poll: true,
                    ack: Some(AckRequest { token, fitness }),
                    log: Some(rec),
                    samples: Some(samples),
                    net_input: None,
                };
            }
            reset_sim = true;
            self.delay_ticker = 4;
            self.awaiting_baseline = true;
            restart = true;
        }

        let bmag = ctx.ball.magnitude();
        let diff = ctx.ball.minus(&ctx.target_goal);
        let gmag = diff.magnitude();
        let bn = ctx.ball.normalize();
        let gn = ctx.target_goal.normalize();
        let dot = bn.dot(&gn);
        proof {
            lemma_magnitude_bound(ctx.ball.x as int, ctx.ball.y as int, 1_000_000_000);
            lemma_magnitude_bound(diff.x as int, diff.y as int, 2_000_000_000);
            assert(bmag <= 2_000_000_000) by (nonlinear_arith)
                requires 0 <= bmag && bmag * bmag <= 2_000_000_000_000_000_000;
            assert(gmag <= 2_900_000_000) by (nonlinear_arith)
                requires 0 <= gmag && gmag * gmag <= 8_000_000_000_000_000_000;
            assert(-2_000_000 <= bn.x * gn.x + bn.y * gn.y <= 2_000_000) by (nonlinear_arith)
                requires -1000 <= bn.x <= 1000 && -1000 <= bn.y <= 1000 && -1000 <= gn.x
                    <= 1000 && -1000 <= gn.y <= 1000;
            crate::math::lemma_tdiv_bound(bn.x * gn.x + bn.y * gn.y, 1000, 2000);
        }
        self.dot_score = self.dot_score + dot;
        self.ball_score = self.ball_score + bmag;
        self.goal_score = self.goal_score + gmag;
        self.score_counter = self.score_counter + 1;
        self.max_goal_distance = max(self.max_goal_distance, gmag);

        let input = net_input(ctx.ball, ctx.target_goal);
        TickEffect {
            result: BTResult::Pending,
            reset_sim,
            restart_timer: restart,
            need_poll: false,
            ack: None,
            log: None,
            samples: None,
            net_input: Some(input),
        }
    }

    /// The network's answer resolved into a command and a kick, with one
    /// position sample captured for the per-sample log.
    pub fn apply_net_output(&mut self, ctx: &TickContext, out: &Vec<i64>) -> (r: NetCommand)
        requires
            old(self).wf(),
            old(self).toack is Some,
            in_range(ctx.ball),
            in_range(ctx.target_goal),
            out@.len() == 4,
            forall|i: int| 0 <= i < 4 ==> -100_000_000 <= #[trigger] out@[i] <= 100_000_000,
        ensures
            final(self).wf(),
            *final(self) == (BotDriver { pos_data: final(self).pos_data, ..*old(self) }),
            ({
                let target = Vec2 { x: (out@[0] * 10) as i64, y: (out@[1] * 10) as i64 };
                let on = spec_normalize(out@[2] as int, out@[3] as int);
                let gn = spec_normalize(ctx.target_goal.x as int, ctx.target_goal.y as int);
                let heading = crate::vec2::spec_lerp_vec(
                    gn.0,
                    gn.1,
                    on.0,
                    on.1,
                    crate::scoring::spec_rot_mix(old(self).generation as int),
                );
                &&& r.command == crate::motion::MoveCommand::MoveAndAlign(
                    target,
                    Vec2 { x: heading.0 as i64, y: heading.1 as i64 },
                )
                &&& r.kick == crate::scoring::spec_kick_window(ctx.ball, ctx.target_goal)
                &&& final(self).pos_data@ == old(self).pos_data@.push(
                    PositionData {
                        generation: old(self).generation,
                        robot_x: ctx.robot_pos.x,
                        robot_y: ctx.robot_pos.y,
                        ball_x: ctx.ball_pos.x,
                        ball_y: ctx.ball_pos.y,
                        kicker: r.kick,
                        experiment: old(self).experiment->0,
                        node: old(self).node,
                        bot: old(self).bot,
                        score: 0i64,
                        goals: 0u32,
                    },
                )
            }),
    {
        let cmd = net_command(ctx.ball, ctx.target_goal, self.generation, out);
        let experiment = match self.experiment {
            Some(e) => e,
            None => unreached(),
        };
        self.pos_data.push(
            PositionData {
                generation: self.generation,
                robot_x: ctx.robot_pos.x,
                robot_y: ctx.robot_pos.y,
                ball_x: ctx.ball_pos.x,
                ball_y: ctx.ball_pos.y,
                kicker: cmd.kick,
                experiment,
                node: self.node,
                bot: self.bot,
                score: 0,
                goals: 0,
            },
        );
        cmd
    }
}


/// Every started round runs under the parameter contract: between one
/// and four runs per genome, and a round timer between three and six
/// seconds.
pub proof fn lemma_run_parameters(d: BotDriver)
    requires
        d.wf(),
    ensures
        1 <= d.number_runs <= 4,
        3000 <= d.round_timer_ms <= 6000,
{
}

} // verus!
