use soccerbot::behavior::{
    BallInScene, BTMoveIntoShootPosition, BTShootIntoGoal, MyBlackboard,
};
use soccerbot::bt::{BehaviorTree, BTAction, BTNode, BTRepeat, BTResult, BTSequence};
use soccerbot::motion::MoveCommand;
use soccerbot::vec2::Vec2;

fn board(ball: Vec2, goal: Vec2) -> MyBlackboard {
    MyBlackboard {
        n_goals: 0,
        ball,
        target_goal: goal,
        robot_pos: Vec2 { x: 0, y: 0 },
        ball_pos: ball,
        move_command: None,
        kicker: false,
        reset_sim: false,
    }
}

#[test]
fn shoot_leaf_fails_when_misaligned() {
    // ball behind the robot, goal ahead: the directions disagree
    let mut leaf = BTShootIntoGoal::new();
    let mut bb = board(Vec2 { x: 0, y: -2000 }, Vec2 { x: 0, y: 12000 });
    let r = leaf.tick(&mut bb);
    assert_eq!(r, BTResult::Failure);
    // it still published its move command for this tick
    assert!(bb.move_command.is_some());
}

#[test]
fn shoot_leaf_kicks_in_the_window() {
    let mut leaf = BTShootIntoGoal::new();
    let mut bb = board(Vec2 { x: 100, y: 1150 }, Vec2 { x: 0, y: 10000 });
    leaf.tick(&mut bb);
    assert!(bb.kicker);
}

#[test]
fn move_leaf_pends_and_publishes() {
    let mut leaf = BTMoveIntoShootPosition::new();
    let mut bb = board(Vec2 { x: 0, y: 2000 }, Vec2 { x: 0, y: 12000 });
    let r = leaf.tick(&mut bb);
    // two units behind the ball seen from the goal is the origin itself,
    // and the heading is already straight: the leaf reports success
    assert_eq!(r, BTResult::Success);
    // aligned directions flip the hysteresis off
    assert!(!leaf.is_between_ball_and_goal);
    match bb.move_command {
        Some(MoveCommand::MoveAndAlign(_, ori)) => {
            // the commanded heading faces from ball toward the goal
            assert_eq!(ori, Vec2 { x: 0, y: 1000 });
        }
        other => panic!("unexpected command {:?}", other),
    }
}

#[test]
fn sequence_advances_over_succeeding_children() {
    let children = vec![BTMoveIntoShootPosition::new(), BTMoveIntoShootPosition::new()];
    let mut seq: BTSequence<BTMoveIntoShootPosition, BallInScene> = BTSequence::new(children);
    let mut bb = board(Vec2 { x: 0, y: 2000 }, Vec2 { x: 0, y: 12000 });
    // the first child succeeds: the cursor advances, more remains
    assert_eq!(seq.tick(&mut bb), BTResult::Pending);
    assert_eq!(seq.index, 1);
    // the second succeeds too: the sequence is done
    assert_eq!(seq.tick(&mut bb), BTResult::Success);
    assert_eq!(seq.index, 2);
    // reset rewinds the cursor
    seq.reset();
    assert_eq!(seq.index, 0);
}

#[test]
fn repeat_absorbs_sequence_failure() {
    // a failing child under an infinite repeat: the repeat resets it and
    // keeps pending
    let children = vec![BTShootIntoGoal::new(), BTShootIntoGoal::new()];
    let seq: BTSequence<BTShootIntoGoal, BallInScene> = BTSequence::new(children);
    let mut rep: BTRepeat<BTSequence<BTShootIntoGoal, BallInScene>, BallInScene> =
        BTRepeat::new(None, seq);
    let mut bb = board(Vec2 { x: 0, y: -2000 }, Vec2 { x: 0, y: 12000 });
    let r = rep.tick(&mut bb);
    assert_eq!(r, BTResult::Pending);
    let r2 = rep.tick(&mut bb);
    assert_eq!(r2, BTResult::Pending);
}

#[test]
fn repeat_counter_runs_out() {
    let seq: BTSequence<BTShootIntoGoal, BallInScene> =
        BTSequence::new(vec![BTShootIntoGoal::new()]);
    let mut rep: BTRepeat<BTSequence<BTShootIntoGoal, BallInScene>, BallInScene> =
        BTRepeat::new(Some(2), seq);
    let mut bb = board(Vec2 { x: 0, y: -2000 }, Vec2 { x: 0, y: 12000 });
    // two retries are absorbed, the third failure comes through
    assert_eq!(rep.tick(&mut bb), BTResult::Pending);
    assert_eq!(rep.tick(&mut bb), BTResult::Pending);
    assert_eq!(rep.tick(&mut bb), BTResult::Failure);
    assert_eq!(rep.counter, Some(0));
}

#[test]
fn action_gates_on_decorators() {
    // out-of-scene ball: the decorator rejects before the leaf runs
    let mut action: BTAction<BTShootIntoGoal, BallInScene> =
        BTAction::new(BTShootIntoGoal::new());
    action.decorators.push(BallInScene::new());
    let mut bb = board(Vec2 { x: 500_000_000, y: 0 }, Vec2 { x: 0, y: 12000 });
    let r = action.tick(&mut bb);
    assert_eq!(r, BTResult::Failure);
    assert!(bb.move_command.is_none());
}

#[test]
fn tree_ticks_its_root_against_its_blackboard() {
    let root = BTMoveIntoShootPosition::new();
    let bb = board(Vec2 { x: 0, y: 2000 }, Vec2 { x: 0, y: 12000 });
    let mut tree = BehaviorTree::new(root, bb);
    let r = tree.tick();
    assert_eq!(r, BTResult::Success);
    assert!(tree.get_blackboard().move_command.is_some());
    tree.reset();
}

#[test]
fn sequence_past_the_end_fails() {
    let mut seq: BTSequence<BTShootIntoGoal, BallInScene> = BTSequence::new(Vec::new());
    let mut bb = board(Vec2 { x: 0, y: 2000 }, Vec2 { x: 0, y: 12000 });
    assert_eq!(seq.tick(&mut bb), BTResult::Failure);
}
