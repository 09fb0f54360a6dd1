//! The navigation state shared by the session loop and the control loop,
//! and the coordination gate that serialises their access to it.

use vstd::prelude::*;
use crate::units::Coord;

verus! {

/// The navigation commands that a command frame can carry.
#[derive(Clone, Copy, Debug, PartialEq, Eq, Structural)]
pub enum NavigationCommand {
    /// Move forward by a distance.
    GoForward,
    /// Move backward by a distance.
    GoBackward,
    /// Turn to an absolute heading.
    TurnAbsolute,
    /// Turn by a relative angle.
    TurnRelative,
    /// Cut the drive of both motors at the next control tick.
    EmergencyStop,
    /// Halt and hold the position.
    Stop,
    /// No effect.
    DoNothing,
}

/// The single record of the robot's status.
///
/// `command` and `counter` belong to the session loop, which alone writes
/// them; `position` and `angle` belong to the control loop. The position is
/// in millimeters and the angle in whole degrees.
#[derive(Clone, Copy, Debug, PartialEq, Eq, Structural)]
pub struct NavigationState {
    /// The command accepted last.
    pub command: NavigationCommand,
    /// The counter of the frame that carried it.
    pub counter: u16,
    /// The position estimate, in millimeters.
    pub position: Coord,
    /// The heading estimate, in degrees.
    pub angle: i64,
    /// Whether closed-loop control is active.
    pub asserv_on_off: bool,
    /// Whether the motion is stalled.
    pub blocked: bool,
    /// Whether the motion is complete.
    pub moving_done: bool,
}

impl NavigationState {
    /// The state at startup, around the controller's first estimate.
    pub open spec fn initial(position: Coord, angle: i64) -> NavigationState {
        NavigationState {
            command: NavigationCommand::DoNothing,
            counter: 0,
            position,
            angle,
            asserv_on_off: true,
            blocked: false,
            moving_done: true,
        }
    }

    /// This state with the pose replaced, every other field kept.
    pub open spec fn with_pose(self, position: Coord, angle: i64) -> NavigationState {
        NavigationState { position, angle, ..self }
    }

    /// This state with the command and counter replaced, every other field kept.
    pub open spec fn with_command(
        self,
        command: NavigationCommand,
        counter: u16,
    ) -> NavigationState {
        NavigationState { command, counter, ..self }
    }

    /// Creates the state at startup: no command, counter zero, control
    /// active, not blocked, motion complete.
    pub fn new(position: Coord, angle: i64) -> (state: NavigationState)
        ensures
            state == NavigationState::initial(position, angle),
    {
        NavigationState {
            command: NavigationCommand::DoNothing,
            counter: 0,
            position,
            angle,
            asserv_on_off: true,
            blocked: false,
            moving_done: true,
        }
    }
}

/// The signal by which the session loop keeps the control loop away from the
/// shared state while it works on it. It is one byte, read and written whole.
#[derive(Clone, Copy, Debug, PartialEq, Eq, Structural)]
pub struct CoordinationGate {
    enabled: bool,
}

impl CoordinationGate {
    /// Whether the control loop may touch the shared state.
    pub closed spec fn enabled(self) -> bool {
        self.enabled
    }

    /// Creates a gate that is disabled: control starts once `enable` is called.
    pub fn new() -> (gate: CoordinationGate)
        ensures
            !gate.enabled(),
    {
        CoordinationGate { enabled: false }
    }

    /// Opens the coordination gate: the control loop runs again from the
    /// next tick.
    pub fn enable(&mut self)
        ensures
            final(self).enabled(),
    {
        self.enabled = true;
    }

    /// Closes the coordination gate: ticks are dropped until `enable` is
    /// called.
    pub fn disable(&mut self)
        ensures
            !final(self).enabled(),
    {
        self.enabled = false;
    }

    /// Whether the coordination gate is open.
    pub fn is_enabled(&self) -> (open: bool)
        ensures
            open == self.enabled(),
    {
        self.enabled
    }
}

} // verus!
