//! The session loop's work on one command frame: accepting it once, and
//! reporting after it.
//!
//! The session loop closes the coordination gate, reads the controller's
//! heading and calls `apply_frame`; it performs the action on the
//! controller, copies the state, reads the controller's encoder counts and
//! commands, and opens the coordination gate again. Then it sends
//! `telemetry_frame` of the copy and the text of `report_frame`.

use vstd::prelude::*;
use crate::frame::NavigationFrame;
use crate::info::{info_text, write_info};
use crate::interpreter::{command_action, exec_command, ControllerAction};
use crate::motor::MotorCommand;
use crate::navigation::{CoordinationGate, NavigationState};

verus! {

impl NavigationState {
    /// Whether a frame is new to this state: its counter differs from the
    /// one accepted last. The counters are compared for equality only, so a
    /// counter that wraps around is still told from its predecessor.
    pub open spec fn accepts(self, frame: NavigationFrame) -> bool {
        frame.counter != self.counter
    }

    /// The state after a frame has been offered: a new frame leaves its
    /// command and counter, a repeated one leaves nothing.
    pub open spec fn after_frame(self, frame: NavigationFrame) -> NavigationState {
        if self.accepts(frame) {
            self.with_command(frame.command, frame.counter)
        } else {
            self
        }
    }
}

/// What the controller is asked to do when a frame is offered to a state:
/// the frame's command if the frame is new, nothing if it is a repeat.
pub open spec fn frame_action(
    nav_state: NavigationState,
    frame: NavigationFrame,
    current_angle: i64,
) -> ControllerAction {
    if nav_state.accepts(frame) {
        command_action(current_angle, frame.command, frame.args_cmd1)
    } else {
        ControllerAction::Nothing
    }
}

/// Offers a command frame to the navigation state, while the coordination
/// gate is closed.
///
/// A frame whose counter differs from the stored one is accepted: its
/// counter and command are stored, and the action for the controller is
/// returned. A frame that repeats the stored counter is ignored. The pose
/// and the flags are never written.
pub fn apply_frame(
    gate: &CoordinationGate,
    nav_state: &mut NavigationState,
    frame: &NavigationFrame,
    current_angle: i64,
) -> (action: ControllerAction)
    requires
        !gate.enabled(),
    ensures
        *final(nav_state) == old(nav_state).after_frame(*frame),
        action == frame_action(*old(nav_state), *frame, current_angle),
        final(nav_state).position == old(nav_state).position,
        final(nav_state).angle == old(nav_state).angle,
{
    if frame.counter != nav_state.counter {
        nav_state.counter = frame.counter;
        nav_state.command = frame.command;
        exec_command(current_angle, frame.command, frame.args_cmd1, frame.args_cmd2)
    } else {
        ControllerAction::Nothing
    }
}

/// Writes the debug report that follows a frame to the byte sink `ser`.
///
/// `qei_ticks` and `commands` are the controller's raw encoder counts and
/// latest commands, left motor first. They are shown as the robot is wired:
/// the right count negated and both commands reversed. The position is that
/// of the snapshot.
pub fn report_frame(
    ser: &mut Vec<u8>,
    qei_ticks: (i64, i64),
    commands: (MotorCommand, MotorCommand),
    snapshot: &NavigationState,
)
    requires
        qei_ticks.1 > i64::MIN,
    ensures
        final(ser)@ == old(ser)@ + info_text(
            qei_ticks.0 as int,
            -qei_ticks.1,
            commands.0.inverted(),
            commands.1.inverted(),
            snapshot.position,
        ),
{
    write_info(
        ser,
        qei_ticks.0,
        -qei_ticks.1,
        commands.0.invert(),
        commands.1.invert(),
        snapshot.position,
    );
}

/// Two frames with the same counter are applied once: after the first, the
/// second changes nothing and asks nothing of the controller, whatever
/// command and arguments it carries.
pub proof fn repeated_counter_is_ignored(
    nav_state: NavigationState,
    first: NavigationFrame,
    second: NavigationFrame,
    current_angle: i64,
)
    requires
        first.counter == second.counter,
    ensures
        nav_state.after_frame(first).after_frame(second) == nav_state.after_frame(first),
        frame_action(nav_state.after_frame(first), second, current_angle)
            == ControllerAction::Nothing,
{
}

/// Offering the same frame again changes nothing.
pub proof fn after_frame_is_idempotent(nav_state: NavigationState, frame: NavigationFrame)
    ensures
        nav_state.after_frame(frame).after_frame(frame) == nav_state.after_frame(frame),
{
}

} // verus!
