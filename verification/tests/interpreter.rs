use nav_control::frame::NavigationFrame;
use nav_control::interpreter::{exec_command, relative_turn, ControllerAction, FULL_TURN, HALF_TURN};
use nav_control::navigation::{CoordinationGate, NavigationCommand, NavigationState};
use nav_control::session::apply_frame;
use nav_control::units::{Coord, MilliMeter};

fn command_frame(command: NavigationCommand, counter: u16, arg1: u16, arg2: u16) -> NavigationFrame {
    NavigationFrame {
        angle: 0,
        x: 0,
        y: 0,
        blocked: false,
        moving_done: false,
        command,
        counter,
        asserv_on_off: false,
        reset: false,
        led: false,
        args_cmd1: arg1,
        args_cmd2: arg2,
        max_lin_speed: 0,
        max_ang_speed: 0,
        lin_accuracy: 0,
        ang_accuracy: 0,
    }
}

fn origin() -> Coord {
    Coord { x: MilliMeter(0), y: MilliMeter(0) }
}

#[test]
fn turn_constants_are_tenths_of_a_degree() {
    assert_eq!(FULL_TURN, 3600);
    assert_eq!(HALF_TURN, 1800);
}

#[test]
fn forward_and_backward_carry_the_first_argument() {
    assert_eq!(exec_command(0, NavigationCommand::GoForward, 100, 7), ControllerAction::Forward(100));
    assert_eq!(exec_command(45, NavigationCommand::GoBackward, 250, 0), ControllerAction::Backward(250));
    assert_eq!(exec_command(0, NavigationCommand::GoForward, 0, 0), ControllerAction::Forward(0));
    assert_eq!(
        exec_command(0, NavigationCommand::GoBackward, u16::MAX, 0),
        ControllerAction::Backward(u16::MAX)
    );
}

#[test]
fn relative_turn_is_passed_on_as_given() {
    assert_eq!(exec_command(90, NavigationCommand::TurnRelative, 450, 0), ControllerAction::Rotate(450));
    assert_eq!(exec_command(90, NavigationCommand::TurnRelative, 3600, 0), ControllerAction::Rotate(3600));
    assert_eq!(
        exec_command(-20, NavigationCommand::TurnRelative, u16::MAX, 0),
        ControllerAction::Rotate(65535)
    );
}

#[test]
fn stop_halts_and_the_rest_ask_nothing() {
    assert_eq!(exec_command(10, NavigationCommand::Stop, 9, 9), ControllerAction::Stop);
    assert_eq!(exec_command(10, NavigationCommand::EmergencyStop, 9, 9), ControllerAction::Nothing);
    assert_eq!(exec_command(10, NavigationCommand::DoNothing, 9, 9), ControllerAction::Nothing);
}

#[test]
fn second_argument_is_ignored() {
    for command in [
        NavigationCommand::GoForward,
        NavigationCommand::GoBackward,
        NavigationCommand::TurnAbsolute,
        NavigationCommand::TurnRelative,
        NavigationCommand::EmergencyStop,
        NavigationCommand::Stop,
        NavigationCommand::DoNothing,
    ] {
        assert_eq!(exec_command(33, command, 120, 0), exec_command(33, command, 120, 65535));
    }
}

#[test]
fn absolute_turn_half_turn_ahead() {
    // Heading 0, target half a turn away: the positive half turn is taken.
    assert_eq!(relative_turn(0, 1800), 1800);
    assert_eq!(exec_command(0, NavigationCommand::TurnAbsolute, 1800, 0), ControllerAction::Rotate(1800));
}

#[test]
fn absolute_turn_half_turn_behind() {
    // Heading half a turn, target 0: again the positive half turn.
    assert_eq!(relative_turn(180, 0), 1800);
    assert_eq!(exec_command(180, NavigationCommand::TurnAbsolute, 0, 0), ControllerAction::Rotate(1800));
}

#[test]
fn absolute_turn_exact_values() {
    assert_eq!(relative_turn(0, 0), 0);
    assert_eq!(relative_turn(0, 900), 900);
    assert_eq!(relative_turn(90, 0), -900);
    assert_eq!(relative_turn(0, 1801), -1799);
    assert_eq!(relative_turn(0, 1799), 1799);
    assert_eq!(relative_turn(0, 3600), 0);
    assert_eq!(relative_turn(0, 2700), -900);
    assert_eq!(relative_turn(350, 100), 200);
    assert_eq!(relative_turn(10, 3500), -200);
    assert_eq!(relative_turn(-90, 900), 1800);
    assert_eq!(relative_turn(-90, 901), -1799);
    assert_eq!(relative_turn(720, 15), 15);
    assert_eq!(relative_turn(-720, 15), 15);
    assert_eq!(relative_turn(0, 65535), 735);
}

#[test]
fn absolute_turn_is_in_range_and_reaches_the_target() {
    let headings: [i64; 12] =
        [0, 1, -1, 179, 180, 181, -179, -180, -181, 359, 360, 100_000];
    for heading in headings {
        let mut target: u32 = 0;
        while target <= 65535 {
            let delta = relative_turn(heading, target as u16) as i64;
            assert!(delta > -1800 && delta <= 1800);
            assert_eq!((heading * 10 + delta - target as i64).rem_euclid(3600), 0);
            target += 37;
        }
    }
}

#[test]
fn absolute_turn_at_the_ends_of_the_heading_range() {
    for heading in [i64::MAX, i64::MIN, i64::MAX - 1, i64::MIN + 1] {
        for target in [0u16, 1, 1800, 3599, 65535] {
            let delta = relative_turn(heading, target) as i128;
            assert!(delta > -1800 && delta <= 1800);
            let sum = heading as i128 * 10 + delta - target as i128;
            assert_eq!(sum.rem_euclid(3600), 0);
        }
    }
    assert_eq!(relative_turn(i64::MAX, 0), -70);
    assert_eq!(relative_turn(i64::MIN, 0), 80);
}

#[test]
fn absolute_turn_ignores_whole_turns_of_heading() {
    for target in [0u16, 450, 1800, 1801, 3599] {
        let base = relative_turn(25, target);
        assert_eq!(relative_turn(25 + 360, target), base);
        assert_eq!(relative_turn(25 - 360, target), base);
        assert_eq!(relative_turn(25 + 3600, target), base);
    }
}

#[test]
fn same_counter_is_applied_once() {
    let gate = CoordinationGate::new();
    let mut state = NavigationState::new(origin(), 0);
    let first = command_frame(NavigationCommand::GoForward, 5, 100, 0);
    let second = command_frame(NavigationCommand::GoForward, 5, 999, 0);

    let mut received: Vec<ControllerAction> = Vec::new();
    for frame in [first, second] {
        let action = apply_frame(&gate, &mut state, &frame, 0);
        if action != ControllerAction::Nothing {
            received.push(action);
        }
    }
    assert_eq!(received, vec![ControllerAction::Forward(100)]);
    assert_eq!(state.counter, 5);
    assert_eq!(state.command, NavigationCommand::GoForward);
}

#[test]
fn repeated_frame_leaves_the_state_untouched() {
    let gate = CoordinationGate::new();
    let mut state = NavigationState::new(origin(), 0);
    apply_frame(&gate, &mut state, &command_frame(NavigationCommand::TurnRelative, 9, 10, 0), 0);
    let before = state;
    let action =
        apply_frame(&gate, &mut state, &command_frame(NavigationCommand::EmergencyStop, 9, 0, 0), 0);
    assert_eq!(action, ControllerAction::Nothing);
    assert_eq!(state, before);
    assert_eq!(state.command, NavigationCommand::TurnRelative);
}

#[test]
fn first_frame_with_counter_zero_is_a_repeat() {
    let gate = CoordinationGate::new();
    let mut state = NavigationState::new(origin(), 0);
    let action =
        apply_frame(&gate, &mut state, &command_frame(NavigationCommand::GoForward, 0, 100, 0), 0);
    assert_eq!(action, ControllerAction::Nothing);
    assert_eq!(state, NavigationState::new(origin(), 0));
}

#[test]
fn counter_is_compared_for_equality_not_order() {
    let gate = CoordinationGate::new();
    let mut state = NavigationState::new(origin(), 0);
    let a = apply_frame(&gate, &mut state, &command_frame(NavigationCommand::GoForward, 65535, 1, 0), 0);
    assert_eq!(a, ControllerAction::Forward(1));
    // A smaller counter, as after a wrap-around, is accepted too.
    let b = apply_frame(&gate, &mut state, &command_frame(NavigationCommand::GoBackward, 3, 2, 0), 0);
    assert_eq!(b, ControllerAction::Backward(2));
    assert_eq!(state.counter, 3);
    let c = apply_frame(&gate, &mut state, &command_frame(NavigationCommand::Stop, 0, 0, 0), 0);
    assert_eq!(c, ControllerAction::Stop);
    assert_eq!(state.counter, 0);
    assert_eq!(state.command, NavigationCommand::Stop);
}

#[test]
fn accepted_frame_writes_command_and_counter_only() {
    let gate = CoordinationGate::new();
    let position = Coord { x: MilliMeter(123), y: MilliMeter(-45) };
    let mut state = NavigationState::new(position, 77);
    let mut frame = command_frame(NavigationCommand::TurnAbsolute, 12, 900, 0);
    frame.asserv_on_off = false;
    frame.blocked = true;
    frame.x = 5;
    frame.angle = 6;
    let action = apply_frame(&gate, &mut state, &frame, 77);
    assert_eq!(action, ControllerAction::Rotate(130));
    assert_eq!(state.command, NavigationCommand::TurnAbsolute);
    assert_eq!(state.counter, 12);
    assert_eq!(state.position, position);
    assert_eq!(state.angle, 77);
    assert!(state.asserv_on_off);
    assert!(!state.blocked);
    assert!(state.moving_done);
}

#[test]
fn absolute_turn_uses_the_heading_given_to_apply_frame() {
    let gate = CoordinationGate::new();
    let mut state = NavigationState::new(origin(), 0);
    // The stored angle is 0; the controller's own heading, 90, is what counts.
    let action =
        apply_frame(&gate, &mut state, &command_frame(NavigationCommand::TurnAbsolute, 1, 0, 0), 90);
    assert_eq!(action, ControllerAction::Rotate(-900));
}
