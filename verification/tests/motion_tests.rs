use soccerbot::config::WheelExtrinsics;
use soccerbot::motion::{momentum_angle_mrad, MotionControllerState, MoveCommand};
use soccerbot::vec2::Vec2;

fn four_wheels() -> Vec<WheelExtrinsics> {
    // the classic holonomic cross: forward vectors tangent to the chassis
    vec![
        WheelExtrinsics { pivot: Vec2 { x: 1000, y: 0 }, forward: Vec2 { x: 0, y: 1000 } },
        WheelExtrinsics { pivot: Vec2 { x: -1000, y: 0 }, forward: Vec2 { x: 0, y: -1000 } },
        WheelExtrinsics { pivot: Vec2 { x: 0, y: 1000 }, forward: Vec2 { x: -1000, y: 0 } },
        WheelExtrinsics { pivot: Vec2 { x: 0, y: -1000 }, forward: Vec2 { x: 1000, y: 0 } },
    ]
}

#[test]
fn pure_rotate_publishes_minus_one_everywhere() {
    // position at the origin, orientation straight behind: rotate = -1,
    // every wheel's translation share is zero, so every wheel saturates.
    let mut st = MotionControllerState::new(four_wheels());
    let cmd = MoveCommand::MoveAndAlign(Vec2 { x: 0, y: 0 }, Vec2 { x: 0, y: -1000 });
    let speeds = st.handle_command(&cmd, 0, 1000, 0);
    assert_eq!(speeds, vec![-1000, -1000, -1000, -1000]);
}

#[test]
fn stop_twice_emits_two_zero_sets() {
    let mut st = MotionControllerState::new(four_wheels());
    let s1 = st.handle_command(&MoveCommand::Stop, 50, 1000, 0);
    let s2 = st.handle_command(&MoveCommand::Stop, 50, 1000, 0);
    assert_eq!(s1, vec![0, 0, 0, 0]);
    assert_eq!(s2, vec![0, 0, 0, 0]);
}

#[test]
fn speeds_stay_in_the_unit_range_and_saturate() {
    let mut st = MotionControllerState::new(four_wheels());
    let cases = [
        (Vec2 { x: 5000, y: 5000 }, Vec2 { x: 0, y: 1000 }),
        (Vec2 { x: -3000, y: 1000 }, Vec2 { x: 400, y: 900 }),
        (Vec2 { x: 0, y: 12000 }, Vec2 { x: 1000, y: 0 }),
        (Vec2 { x: 100, y: -100 }, Vec2 { x: -1000, y: -1 }),
    ];
    for (pos, ori) in cases {
        let speeds = st.handle_command(&MoveCommand::MoveAndAlign(pos, ori), 50, 1000, 0);
        assert_eq!(speeds.len(), 4);
        assert!(speeds.iter().all(|w| -1000 <= *w && *w <= 1000));
        // some raw mix always exceeds the floor here, so one wheel saturates
        assert!(speeds.iter().any(|w| *w == 1000 || *w == -1000));
    }
}

#[test]
fn identical_inputs_give_identical_outputs() {
    let cmd = MoveCommand::MoveAndAlign(Vec2 { x: 2000, y: 3000 }, Vec2 { x: 500, y: 500 });
    let mut st1 = MotionControllerState::new(four_wheels());
    let mut st2 = MotionControllerState::new(four_wheels());
    let s1 = st1.handle_command(&cmd, 40, 990, 140);
    let s2 = st2.handle_command(&cmd, 40, 990, 140);
    assert_eq!(s1, s2);
    assert_eq!(st1.rotate_momentum, st2.rotate_momentum);
    assert_eq!(st1.velocity_momentum, st2.velocity_momentum);
}

#[test]
fn stop_leaves_momenta_alone() {
    let mut st = MotionControllerState::new(four_wheels());
    let cmd = MoveCommand::MoveAndAlign(Vec2 { x: 2000, y: 3000 }, Vec2 { x: 0, y: 1000 });
    st.handle_command(&cmd, 40, 1000, 0);
    let rm = st.rotate_momentum;
    let vm = st.velocity_momentum;
    st.handle_command(&MoveCommand::Stop, 40, 1000, 0);
    assert_eq!(st.rotate_momentum, rm);
    assert_eq!(st.velocity_momentum, vm);
}

#[test]
fn extrinsics_update_replaces_the_configured_wheel() {
    let mut st = MotionControllerState::new(four_wheels());
    let announced = WheelExtrinsics {
        pivot: Vec2 { x: 900, y: 100 },
        forward: Vec2 { x: 0, y: 1000 },
    };
    st.set_extrinsics(0, announced.clone());
    assert_eq!(st.wheels[0], announced);
}

#[test]
fn momentum_angle_scales_with_time_and_momentum() {
    // rotate momentum 1.0 over one second: 8 milliradians per milli-unit
    assert_eq!(momentum_angle_mrad(1000, 1000), 8000);
    assert_eq!(momentum_angle_mrad(-500, 100), -400);
    assert_eq!(momentum_angle_mrad(0, 12345), 0);
}
