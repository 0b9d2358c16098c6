use soccerbot::config::{Config, Genetics, Intercom, Overrides, Simulation};
use soccerbot::intercom::{extract_frames, frame_record};
use soccerbot::manager::api_version_ok;
use soccerbot::node::{remaining_sleep, ThreadNext};
use soccerbot::perception::{build_message, intercom_position, Detection};
use soccerbot::vec2::Vec2;
use soccerbot::watcher::{BotWatcher, GeneInfo, WatcherContext};

#[test]
fn framing_splits_on_nul_and_keeps_the_fragment() {
    let (frames, rem) = extract_frames(Vec::new(), &b"{\"a\":1}\0{\"b\":2}\0{\"c".to_vec());
    assert_eq!(frames.len(), 2);
    assert_eq!(frames[0], b"{\"a\":1}".to_vec());
    assert_eq!(frames[1], b"{\"b\":2}".to_vec());
    assert_eq!(rem, b"{\"c".to_vec());

    // the fragment completes on the next read
    let (frames2, rem2) = extract_frames(rem, &b"\":3}\0".to_vec());
    assert_eq!(frames2.len(), 1);
    assert_eq!(frames2[0], b"{\"c\":3}".to_vec());
    assert!(rem2.is_empty());
}

#[test]
fn framing_round_trip() {
    let payload = b"{\"mode\":\"Offense\"}".to_vec();
    let wire = frame_record(&payload);
    let (frames, rem) = extract_frames(Vec::new(), &wire);
    assert_eq!(frames, vec![payload]);
    assert!(rem.is_empty());
}

#[test]
fn framing_handles_empty_records_and_chunks() {
    let (frames, rem) = extract_frames(Vec::new(), &b"\0\0x".to_vec());
    assert_eq!(frames, vec![Vec::new(), Vec::new()]);
    assert_eq!(rem, b"x".to_vec());
    let (frames2, rem2) = extract_frames(rem, &Vec::new());
    assert!(frames2.is_empty());
    assert_eq!(rem2, b"x".to_vec());
}

#[test]
fn undetected_objects_never_surface_a_position() {
    let seen = Detection { detected: true, position: Vec2 { x: 10, y: 20 } };
    let unseen = Detection { detected: false, position: Vec2 { x: 10, y: 20 } };
    let m = build_message(
        2,
        Vec2 { x: 1, y: 2 },
        Vec2 { x: 3, y: 4 },
        &seen,
        &unseen,
        &seen,
        &unseen,
    );
    assert_eq!(m.n_goals, 2);
    assert_eq!(m.ball.position, Some(Vec2 { x: 10, y: 20 }));
    assert_eq!(m.own_goal.position, None);
    assert_eq!(m.target_goal.position, Some(Vec2 { x: 10, y: 20 }));
    assert_eq!(m.boundary.position, None);
}

#[test]
fn intercom_position_forwards_the_three_cores() {
    let seen = Detection { detected: true, position: Vec2 { x: 10, y: 20 } };
    let m = build_message(0, Vec2 { x: 0, y: 0 }, Vec2 { x: 0, y: 0 }, &seen, &seen, &seen, &seen);
    let p = intercom_position(&m);
    assert_eq!(p.ball, Vec2 { x: 10, y: 20 });
    assert_eq!(p.own_goal, Vec2 { x: 10, y: 20 });
    assert_eq!(p.target_goal, Vec2 { x: 10, y: 20 });
}

#[test]
fn overrides_replace_only_what_was_given() {
    let cfg = Config {
        wheels: Vec::new(),
        simulation: Simulation { url: "http://localhost".to_string(), port: 8000 },
        intercom: Intercom { master: false, port: 4000 },
        genetics: Genetics { pool: "amqp://pool".to_string() },
        watcher: false,
    };
    let out = cfg.clone().apply_overrides(Overrides {
        genepool: Some("amqp://other".to_string()),
        master: None,
        comport: Some(4100),
        watcher: true,
    });
    assert_eq!(out.genetics.pool, "amqp://other");
    assert!(!out.intercom.master);
    assert_eq!(out.intercom.port, 4100);
    assert!(out.watcher);
    assert_eq!(out.simulation, cfg.simulation);

    let kept = cfg.clone().apply_overrides(Overrides {
        genepool: None,
        master: None,
        comport: None,
        watcher: false,
    });
    assert_eq!(kept, cfg);
}

#[test]
fn api_version_gate() {
    assert!(api_version_ok(2));
    assert!(!api_version_ok(1));
    assert!(!api_version_ok(3));
}

#[test]
fn periodic_sleep_never_exceeds_the_period() {
    assert_eq!(remaining_sleep(50, 10), 40);
    assert_eq!(remaining_sleep(50, 50), 0);
    assert_eq!(remaining_sleep(50, 80), 0);
    assert_eq!(remaining_sleep(0, 0), 0);
    let _ = ThreadNext::Interval(100);
}

fn gene(generation: u32, fitness: i64) -> GeneInfo {
    GeneInfo { generation, fitness, experiment: uuid::Uuid::new_v4() }
}

#[test]
fn watcher_tracks_the_maximum_generation() {
    let mut w = BotWatcher::new();
    assert_eq!(w.find_max_generation(), 0);
    w.adopt_gene_list(vec![gene(3, 100), gene(7, 50), gene(5, 75)]);
    assert_eq!(w.find_max_generation(), 7);
    // a fresh watcher sits on generation zero, the old maximum of an
    // empty list, so it auto-advances to the new maximum
    assert_eq!(w.generation, 7);
    assert!(w.active);
}

#[test]
fn watcher_follows_a_generation_request() {
    let mut w = BotWatcher::new();
    w.adopt_gene_list(vec![gene(3, 100), gene(7, 50), gene(5, 75)]);
    let sw = w.tick(WatcherContext {
        ball: Vec2 { x: 0, y: 2000 },
        target_goal: Vec2 { x: 0, y: 12000 },
        n_goals: 0,
        elapsed_ms: 100,
        gen_request: Some(5),
        gene_list: None,
    });
    let switch = sw.switch.expect("generation 5 is on the list");
    assert_eq!(switch.index, 2);
    assert_eq!(switch.status.generation, 5);
    assert_eq!(switch.status.max_generation, 7);
    assert_eq!(switch.status.score, 75);
    assert!(sw.reset_sim && sw.restart_timer);
    assert_eq!(w.generation, 5);
}

#[test]
fn watcher_keeps_a_pinned_generation_across_lists() {
    let mut w = BotWatcher::new();
    w.adopt_gene_list(vec![gene(3, 100), gene(7, 50)]);
    // the user pinned generation 3: a newer list must not move it
    w.select_generation(3).expect("generation 3 is on the list");
    w.adopt_gene_list(vec![gene(3, 100), gene(9, 25)]);
    assert_eq!(w.generation, 3);
    // but while sitting on the maximum, a newer list advances it
    w.select_generation(9).expect("generation 9 is on the list");
    w.adopt_gene_list(vec![gene(9, 25), gene(11, 10)]);
    assert_eq!(w.generation, 11);
}

fn quiet_tick() -> WatcherContext {
    WatcherContext {
        ball: Vec2 { x: 0, y: 2000 },
        target_goal: Vec2 { x: 0, y: 12000 },
        n_goals: 0,
        elapsed_ms: 8100,
        gen_request: None,
        gene_list: None,
    }
}

#[test]
fn watcher_rotates_after_a_quiet_stretch() {
    let mut w = BotWatcher::new();
    w.adopt_gene_list(vec![gene(3, 100), gene(7, 50)]);
    // the adoption auto-advanced to the maximum, generation 7
    assert_eq!(w.generation, 7);
    // eight quiet seconds: move on to the next candidate, wrapping
    let eff = w.tick(quiet_tick());
    assert!(eff.reset_sim && eff.restart_timer);
    assert!(eff.net_input.is_none());
    let sw = eff.switch.expect("the watcher rotates");
    assert_eq!(sw.index, 0);
    assert_eq!(w.generation, 3);
    // and again: back around to the second entry
    let eff2 = w.tick(quiet_tick());
    assert_eq!(eff2.switch.expect("the watcher rotates").index, 1);
    assert_eq!(w.generation, 7);
}

#[test]
fn watcher_with_one_gene_restarts_it_on_a_quiet_stretch() {
    let mut w = BotWatcher::new();
    w.adopt_gene_list(vec![gene(3, 100)]);
    let eff = w.tick(quiet_tick());
    assert!(eff.reset_sim && eff.restart_timer);
    // the rotation wraps straight back to the only candidate
    assert_eq!(eff.switch.expect("the watcher rotates").index, 0);
    assert_eq!(w.generation, 3);
}

#[test]
fn watcher_with_nothing_loaded_only_resets_on_a_quiet_stretch() {
    let mut w = BotWatcher::new();
    let eff = w.tick(quiet_tick());
    assert!(eff.reset_sim && eff.restart_timer);
    assert!(eff.switch.is_none());
    assert!(!w.active);
}

#[test]
fn watcher_plays_the_loaded_genome() {
    let mut w = BotWatcher::new();
    w.adopt_gene_list(vec![gene(3, 100)]);
    let eff = w.tick(WatcherContext {
        ball: Vec2 { x: 0, y: 2000 },
        target_goal: Vec2 { x: 0, y: 12000 },
        n_goals: 0,
        elapsed_ms: 100,
        gen_request: None,
        gene_list: None,
    });
    assert_eq!(
        eff.net_input.expect("a genome is loaded"),
        vec![0, 2000, 0, 12000, 2000, 12000, 1000]
    );
}

#[test]
fn watcher_goal_extends_the_attempt() {
    let mut w = BotWatcher::new();
    w.adopt_gene_list(vec![gene(3, 100)]);
    let eff = w.tick(WatcherContext {
        ball: Vec2 { x: 0, y: 2000 },
        target_goal: Vec2 { x: 0, y: 12000 },
        n_goals: 1,
        elapsed_ms: 7900,
        gen_request: None,
        gene_list: None,
    });
    // the goal restarts the clock, so the quiet-stretch rotation waits
    assert!(eff.restart_timer && !eff.reset_sim);
    assert_eq!(w.n_goals, 1);
}
