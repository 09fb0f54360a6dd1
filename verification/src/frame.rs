//! The frame exchanged with the controller station, and the telemetry that
//! the robot reports in it.

use vstd::prelude::*;
use crate::navigation::{NavigationCommand, NavigationState};
use crate::units::{Coord, MilliMeter};

verus! {

/// The fields of one frame, as they travel in both directions.
///
/// In a command frame the station sets `command`, `counter` and the two
/// arguments. In a telemetry frame the robot sets the pose and the flags and
/// echoes `command` and `counter`. Angles are in tenths of a degree,
/// positions in tenths of a millimeter.
#[derive(Clone, Copy, Debug, PartialEq, Eq, Structural)]
pub struct NavigationFrame {
    pub angle: i32,
    pub x: i32,
    pub y: i32,
    pub blocked: bool,
    pub moving_done: bool,
    pub command: NavigationCommand,
    pub counter: u16,
    pub asserv_on_off: bool,
    pub reset: bool,
    pub led: bool,
    pub args_cmd1: u16,
    pub args_cmd2: u16,
    pub max_lin_speed: u16,
    pub max_ang_speed: u16,
    pub lin_accuracy: u16,
    pub ang_accuracy: u16,
}

/// Whether ten times `value` fits the 32-bit field of a frame.
pub open spec fn fits_scaled(value: int) -> bool {
    i32::MIN <= value * 10 <= i32::MAX
}

/// `tenths` divided by ten and rounded toward zero.
pub open spec fn unscaled(tenths: int) -> int {
    if tenths >= 0 {
        tenths / 10
    } else {
        -((-tenths) / 10)
    }
}

impl NavigationState {
    /// Whether the pose can be reported: each of the angle and the two
    /// coordinates, times ten, fits a 32-bit field.
    pub open spec fn reportable(self) -> bool {
        &&& fits_scaled(self.angle as int)
        &&& fits_scaled(self.position.x.0 as int)
        &&& fits_scaled(self.position.y.0 as int)
    }

    /// The telemetry frame that reports this state.
    pub open spec fn telemetry(self) -> NavigationFrame {
        NavigationFrame {
            angle: (self.angle * 10) as i32,
            x: (self.position.x.0 * 10) as i32,
            y: (self.position.y.0 * 10) as i32,
            blocked: self.blocked,
            moving_done: self.moving_done,
            command: self.command,
            counter: self.counter,
            asserv_on_off: self.asserv_on_off,
            reset: false,
            led: true,
            args_cmd1: 0,
            args_cmd2: 0,
            max_lin_speed: 0,
            max_ang_speed: 0,
            lin_accuracy: 0,
            ang_accuracy: 0,
        }
    }

    /// Tells whether `telemetry_frame` accepts this state.
    pub fn is_reportable(&self) -> (ok: bool)
        ensures
            ok == self.reportable(),
    {
        scaled_fits(self.angle) && scaled_fits(self.position.x.0) && scaled_fits(self.position.y.0)
    }
}

/// Tells whether ten times `value` fits a 32-bit field.
fn scaled_fits(value: i64) -> (ok: bool)
    ensures
        ok == fits_scaled(value as int),
{
    -214748364 <= value && value <= 214748364
}

/// Ten times `value`, as a 32-bit field.
fn scale(value: i64) -> (tenths: i32)
    requires
        fits_scaled(value as int),
    ensures
        tenths == value * 10,
{
    (value * 10) as i32
}

/// Builds the telemetry frame for a snapshot of the navigation state.
///
/// The angle and the coordinates are reported times ten; the flags, the
/// command and the counter are echoed; `led` is set, `reset` is clear and the
/// arguments and tuning fields are zero.
pub fn telemetry_frame(nav_state: &NavigationState) -> (frame: NavigationFrame)
    requires
        nav_state.reportable(),
    ensures
        frame == nav_state.telemetry(),
        frame.angle == nav_state.angle * 10,
        frame.x == nav_state.position.x.0 * 10,
        frame.y == nav_state.position.y.0 * 10,
{
    NavigationFrame {
        angle: scale(nav_state.angle),
        x: scale(nav_state.position.x.as_millimeters()),
        y: scale(nav_state.position.y.as_millimeters()),
        blocked: nav_state.blocked,
        moving_done: nav_state.moving_done,
        command: nav_state.command,
        counter: nav_state.counter,
        asserv_on_off: nav_state.asserv_on_off,
        reset: false,
        led: true,
        args_cmd1: 0,
        args_cmd2: 0,
        max_lin_speed: 0,
        max_ang_speed: 0,
        lin_accuracy: 0,
        ang_accuracy: 0,
    }
}

impl NavigationFrame {
    /// The position that the frame reports, in millimeters.
    pub open spec fn reported_position(self) -> Coord {
        Coord {
            x: MilliMeter(unscaled(self.x as int) as i64),
            y: MilliMeter(unscaled(self.y as int) as i64),
        }
    }

    /// The heading that the frame reports, in degrees.
    pub open spec fn reported_angle(self) -> i64 {
        unscaled(self.angle as int) as i64
    }

    /// Reads the position back from a telemetry frame, in millimeters,
    /// each coordinate rounded toward zero.
    pub fn position(&self) -> (position: Coord)
        ensures
            position == self.reported_position(),
    {
        Coord { x: MilliMeter((self.x / 10) as i64), y: MilliMeter((self.y / 10) as i64) }
    }

    /// Reads the heading back from a telemetry frame, in degrees, rounded
    /// toward zero.
    pub fn heading(&self) -> (angle: i64)
        ensures
            angle == self.reported_angle(),
    {
        (self.angle / 10) as i64
    }
}

/// A pose that is reported in a telemetry frame is read back unchanged.
pub proof fn telemetry_round_trip(nav_state: NavigationState)
    requires
        nav_state.reportable(),
    ensures
        nav_state.telemetry().reported_position() == nav_state.position,
        nav_state.telemetry().reported_angle() == nav_state.angle,
{
}

/// What is read back from any frame lies within one unit of what the frame
/// holds: less than ten tenths away, on the side of zero.
pub proof fn reading_within_one_unit(frame: NavigationFrame)
    ensures
        frame.x >= 0 ==> 0 <= frame.x - frame.reported_position().x.0 * 10 < 10,
        frame.x <= 0 ==> 0 <= frame.reported_position().x.0 * 10 - frame.x < 10,
        frame.y >= 0 ==> 0 <= frame.y - frame.reported_position().y.0 * 10 < 10,
        frame.y <= 0 ==> 0 <= frame.reported_position().y.0 * 10 - frame.y < 10,
        frame.angle >= 0 ==> 0 <= frame.angle - frame.reported_angle() * 10 < 10,
        frame.angle <= 0 ==> 0 <= frame.reported_angle() * 10 - frame.angle < 10,
{
}

} // verus!
