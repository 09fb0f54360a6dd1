//! The command interpreter: what the controller is asked to do for a command.

use vstd::prelude::*;
use crate::navigation::NavigationCommand;

verus! {

/// A full turn, in tenths of a degree.
pub const FULL_TURN: i32 = 3600;

/// Half a turn, in tenths of a degree.
pub const HALF_TURN: i32 = 1800;

/// The rotation, in tenths of a degree, that covers the angular difference
/// `diff` by the shortest way: the one value in `(-1800, 1800]` that differs
/// from `diff` by whole turns. Of the two ways to cover half a turn the
/// positive one is taken.
pub open spec fn shortest_turn(diff: int) -> int {
    let r = diff % 3600;
    if r > 1800 {
        r - 3600
    } else {
        r
    }
}

/// The rotation that brings a robot heading `current_angle` degrees to the
/// heading `target`, given in tenths of a degree, by the shortest way.
pub fn relative_turn(current_angle: i64, target: u16) -> (delta: i32)
    ensures
        delta == shortest_turn(target - current_angle * 10),
        -HALF_TURN < delta <= HALF_TURN,
        (current_angle * 10 + delta - target) % 3600 == 0,
{
    let diff: i128 = target as i128 - (current_angle as i128) * 10;
    let r: i128 = diff % 3600;
    let wrapped: i128 = if r < 0 {
        r + 3600
    } else {
        r
    };
    if wrapped > 1800 {
        (wrapped - 3600) as i32
    } else {
        wrapped as i32
    }
}

/// What the controller is asked to do next. Distances and angles are in
/// tenths of the controller's unit: tenths of a distance unit, tenths of a
/// degree.
#[derive(Clone, Copy, Debug, PartialEq, Eq, Structural)]
pub enum ControllerAction {
    /// Translate forward by this distance.
    Forward(u16),
    /// Translate backward by this distance.
    Backward(u16),
    /// Rotate by this angle, counted from the current heading.
    Rotate(i32),
    /// Halt and hold the position.
    Stop,
    /// Leave the controller alone.
    Nothing,
}

/// What a command asks of the controller, for a robot heading
/// `current_angle` degrees.
///
/// An emergency stop asks nothing here: the control loop cuts the drive at
/// its next tick. The second argument of a frame has no use yet.
pub open spec fn command_action(
    current_angle: i64,
    command: NavigationCommand,
    arg1: u16,
) -> ControllerAction {
    match command {
        NavigationCommand::GoForward => ControllerAction::Forward(arg1),
        NavigationCommand::GoBackward => ControllerAction::Backward(arg1),
        NavigationCommand::TurnAbsolute => ControllerAction::Rotate(
            shortest_turn(arg1 - current_angle * 10) as i32,
        ),
        NavigationCommand::TurnRelative => ControllerAction::Rotate(arg1 as i32),
        NavigationCommand::EmergencyStop => ControllerAction::Nothing,
        NavigationCommand::Stop => ControllerAction::Stop,
        NavigationCommand::DoNothing => ControllerAction::Nothing,
    }
}

/// Maps a command and its arguments onto the operation that the controller
/// is to perform, for a robot heading `current_angle` degrees.
pub fn exec_command(
    current_angle: i64,
    command: NavigationCommand,
    arg1: u16,
    _arg2: u16,
) -> (action: ControllerAction)
    ensures
        action == command_action(current_angle, command, arg1),
        command == NavigationCommand::TurnAbsolute ==> {
            &&& action matches ControllerAction::Rotate(delta)
            &&& -HALF_TURN < delta <= HALF_TURN
            &&& (current_angle * 10 + delta - arg1) % 3600 == 0
        },
{
    match command {
        NavigationCommand::GoForward => ControllerAction::Forward(arg1),
        NavigationCommand::GoBackward => ControllerAction::Backward(arg1),
        NavigationCommand::TurnAbsolute => ControllerAction::Rotate(
            relative_turn(current_angle, arg1),
        ),
        NavigationCommand::TurnRelative => ControllerAction::Rotate(arg1 as i32),
        NavigationCommand::EmergencyStop => ControllerAction::Nothing,
        NavigationCommand::Stop => ControllerAction::Stop,
        NavigationCommand::DoNothing => ControllerAction::Nothing,
    }
}

/// The shortest turn lies in `(-1800, 1800]` and differs from the angular
/// difference by whole turns.
pub proof fn shortest_turn_in_range(diff: int)
    ensures
        -1800 < shortest_turn(diff) <= 1800,
        (shortest_turn(diff) - diff) % 3600 == 0,
{
}

/// No other rotation in `(-1800, 1800]` differs from the angular difference
/// by whole turns: the shortest turn is the only one.
pub proof fn shortest_turn_is_unique(diff: int, delta: int)
    requires
        -1800 < delta <= 1800,
        (delta - diff) % 3600 == 0,
    ensures
        delta == shortest_turn(diff),
{
}

/// Headings that differ by whole turns ask for the same rotation.
pub proof fn shortest_turn_ignores_whole_turns(diff: int, turns: int)
    ensures
        shortest_turn(diff + turns * 3600) == shortest_turn(diff),
{
    shortest_turn_in_range(diff);
    assert((shortest_turn(diff) - (diff + turns * 3600)) % 3600 == 0) by {
        vstd::arithmetic::div_mod::lemma_mod_multiples_vanish(
            -turns,
            shortest_turn(diff) - diff,
            3600,
        );
    }
    shortest_turn_is_unique(diff + turns * 3600, shortest_turn(diff));
}

} // verus!
