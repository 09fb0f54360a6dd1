//! Commands for one motor: a direction and an unsigned magnitude.

use vstd::prelude::*;

verus! {

/// What one motor is asked to do: turn forward or backward at a given magnitude.
#[derive(Clone, Copy, Debug, PartialEq, Eq, Structural)]
pub enum MotorCommand {
    Front(u16),
    Back(u16),
}

impl MotorCommand {
    /// The magnitude, whatever the direction.
    pub open spec fn value(self) -> u16 {
        match self {
            MotorCommand::Front(v) => v,
            MotorCommand::Back(v) => v,
        }
    }

    /// The command as a signed quantity: positive forward, negative backward.
    pub open spec fn signed_value(self) -> int {
        match self {
            MotorCommand::Front(v) => v as int,
            MotorCommand::Back(v) => -(v as int),
        }
    }

    /// The same magnitude in the opposite direction.
    pub open spec fn inverted(self) -> MotorCommand {
        match self {
            MotorCommand::Front(v) => MotorCommand::Back(v),
            MotorCommand::Back(v) => MotorCommand::Front(v),
        }
    }

    /// The command that leaves a motor without drive.
    pub open spec fn zero() -> MotorCommand {
        MotorCommand::Front(0)
    }

    /// The magnitude of the command.
    pub fn get_value(&self) -> (v: u16)
        ensures
            v == self.value(),
    {
        match self {
            MotorCommand::Front(v) => *v,
            MotorCommand::Back(v) => *v,
        }
    }

    /// Reverses the direction and keeps the magnitude.
    pub fn invert(self) -> (out: MotorCommand)
        ensures
            out == self.inverted(),
            out.value() == self.value(),
            out.signed_value() == -self.signed_value(),
    {
        match self {
            MotorCommand::Front(v) => MotorCommand::Back(v),
            MotorCommand::Back(v) => MotorCommand::Front(v),
        }
    }
}

/// Inverting a command twice gives the command back.
pub proof fn invert_twice_is_identity(command: MotorCommand)
    ensures
        command.inverted().inverted() == command,
{
}

} // verus!
