use soccerbot::bt::BTResult;
use soccerbot::driver::{BotDriver, TickContext};
use soccerbot::motion::MoveCommand;
use soccerbot::scoring::{net_command, net_input, number_runs, round_score, round_timer_ms};
use soccerbot::vec2::Vec2;

fn scene() -> TickContext {
    TickContext {
        ball: Vec2 { x: 0, y: 2000 },
        target_goal: Vec2 { x: 0, y: 12000 },
        robot_pos: Vec2 { x: 0, y: 0 },
        ball_pos: Vec2 { x: 0, y: 2000 },
        n_goals: 0,
        elapsed_ms: 100,
    }
}

#[test]
fn run_parameters_follow_the_generation() {
    // young experiments play one round regardless of the cycle position
    assert_eq!(number_runs(0), 1);
    assert_eq!(number_runs(6), 1);
    assert_eq!(number_runs(20), 1);
    // late in each ten-cycle: two, then three rounds
    assert_eq!(number_runs(26), 2);
    assert_eq!(number_runs(37), 2);
    assert_eq!(number_runs(28), 3);
    assert_eq!(number_runs(39), 3);
    assert_eq!(number_runs(31), 1);
    // mature experiments always play four
    assert_eq!(number_runs(100), 4);
    assert_eq!(number_runs(123), 4);
    for g in 0..200 {
        let r = number_runs(g);
        assert!((1..=4).contains(&r));
    }

    assert_eq!(round_timer_ms(0), 3000);
    assert_eq!(round_timer_ms(20), 4000);
    assert_eq!(round_timer_ms(60), 6000);
    assert_eq!(round_timer_ms(1000), 6000);
    for g in 0..200 {
        let t = round_timer_ms(g);
        assert!((3000..=6000).contains(&t));
    }
}

#[test]
fn delay_ticker_holds_four_ticks_then_takes_the_baseline() {
    let mut d = BotDriver::new();
    d.genome_arrived(0, uuid::Uuid::new_v4());
    let ctx = scene();
    for _ in 0..4 {
        let eff = d.tick(&ctx);
        assert_eq!(eff.result, BTResult::Pending);
        assert!(eff.net_input.is_none());
        assert!(!eff.reset_sim);
    }
    // the fifth tick measures the baseline and begins running
    let eff = d.tick(&ctx);
    assert!(eff.restart_timer);
    assert_eq!(d.ball_distance_start, 2000);
    assert_eq!(d.goal_distance_start, 10000);
    assert_eq!(d.score_counter, 1);
    let input = eff.net_input.expect("the round is live");
    assert_eq!(input, vec![0, 2000, 0, 12000, 2000, 12000, 1000]);
}

#[test]
fn one_ack_per_successful_poll() {
    let mut d = BotDriver::new();
    let ctx = scene();

    // with no genome the driver asks to poll and does nothing else
    let eff = d.tick(&ctx);
    assert!(eff.need_poll);
    assert!(eff.ack.is_none());

    // a failed poll leaves it idle; after the post-reset delay passes,
    // it asks again with no state change in between
    d.poll_failed();
    let mut asked_again = false;
    for _ in 0..8 {
        let eff = d.tick(&ctx);
        assert!(eff.ack.is_none());
        if eff.need_poll {
            asked_again = true;
            break;
        }
    }
    assert!(asked_again);

    // one genome arrives; it is acknowledged exactly once
    d.genome_arrived(0, uuid::Uuid::new_v4());
    let mut acks = 0;
    let mut polls_requested = 0;
    for tick in 0..64 {
        let ctx = TickContext {
            // let the round expire quickly once it is running
            elapsed_ms: if tick >= 5 { 10_000 } else { 100 },
            ..scene()
        };
        let eff = d.tick(&ctx);
        if eff.ack.is_some() {
            acks += 1;
            assert!(eff.log.is_some());
            assert!(eff.samples.is_some());
            assert!(eff.reset_sim);
        }
        if eff.need_poll {
            polls_requested += 1;
            break;
        }
    }
    assert_eq!(acks, 1);
    assert_eq!(polls_requested, 1);
}

#[test]
fn round_scoring_formula() {
    // averages of one ball unit, half a goal unit and half alignment over
    // ten ticks, from unit starting distances
    let r = round_score(10_000, 5_000, 5_000, 10, 1000, 1000, 0);
    assert_eq!(r.ball, 50_000);
    assert_eq!(r.goal, 141_400);
    assert_eq!(r.dot, 12_500);
    assert_eq!(r.total, 203_900);
    // one goal halves the total
    let r1 = round_score(10_000, 5_000, 5_000, 10, 1000, 1000, 1);
    assert_eq!(r1.total, 101_950);
    // an empty round scores nothing
    let r2 = round_score(0, 0, 0, 0, 1000, 1000, 0);
    assert_eq!(r2.total, 0);
}

#[test]
fn baseline_scene_drives_net_and_command() {
    // baseline: ball at (0, 2), goal at (0, 12), generation zero
    let input = net_input(Vec2 { x: 0, y: 2000 }, Vec2 { x: 0, y: 12000 });
    assert_eq!(input, vec![0, 2000, 0, 12000, 2000, 12000, 1000]);

    // fixed net output (0.3, 0.4, 0, 1): target ten times the first pair,
    // heading exactly the goal direction since the mix is zero at g = 0
    let out = vec![300, 400, 0, 1000];
    let cmd = net_command(Vec2 { x: 0, y: 2000 }, Vec2 { x: 0, y: 12000 }, 0, &out);
    assert_eq!(
        cmd.command,
        MoveCommand::MoveAndAlign(Vec2 { x: 3000, y: 4000 }, Vec2 { x: 0, y: 1000 })
    );
    assert!(!cmd.kick);
}

#[test]
fn kicker_window() {
    let out = vec![300, 400, 0, 1000];
    // ball at (0.1, 1.15) with the goal in range: fires
    let fires = net_command(Vec2 { x: 100, y: 1150 }, Vec2 { x: 0, y: 10000 }, 0, &out);
    assert!(fires.kick);
    // ball at (0.3, 1.15): too far off-axis
    let no = net_command(Vec2 { x: 300, y: 1150 }, Vec2 { x: 0, y: 10000 }, 0, &out);
    assert!(!no.kick);
}

#[test]
fn goals_extend_the_round() {
    let mut d = BotDriver::new();
    d.genome_arrived(0, uuid::Uuid::new_v4());
    let ctx = scene();
    for _ in 0..5 {
        d.tick(&ctx);
    }
    // a goal arrives late in the round: the clock restarts instead of
    // the round ending
    let eff = d.tick(&TickContext { n_goals: 1, elapsed_ms: 2900, ..scene() });
    assert!(eff.restart_timer);
    assert!(eff.ack.is_none());
    assert_eq!(d.n_goals, 1);
}

#[test]
fn position_samples_are_backfilled() {
    let mut d = BotDriver::new();
    d.genome_arrived(0, uuid::Uuid::new_v4());
    let ctx = scene();
    for _ in 0..5 {
        d.tick(&ctx);
    }
    let out = vec![300, 400, 0, 1000];
    d.apply_net_output(&ctx, &out);
    assert_eq!(d.pos_data.len(), 1);
    assert_eq!(d.pos_data[0].score, 0);

    // finish the round; the sample comes back with the final score
    let eff = d.tick(&TickContext { elapsed_ms: 10_000, ..scene() });
    let samples = eff.samples.expect("genome finished");
    let log = eff.log.expect("genome finished");
    assert_eq!(samples.len(), 1);
    assert_eq!(samples[0].score, log.score);
    assert_eq!(samples[0].goals, log.goals);
    assert_eq!(samples[0].ball_x, 0);
    assert_eq!(samples[0].ball_y, 2000);
}
