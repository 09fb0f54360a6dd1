//! The periodic control tick: the heartbeat, the check of the coordination
//! gate, the orders for the two motors and the refresh of the pose.
//!
//! A tick runs in three steps, with the controller's own work between them.
//! `begin_tick` advances the heartbeat and says whether control runs at all.
//! If it does, the controller is advanced and its two commands are handed to
//! `motor_orders`; once the orders are applied the controller's pose estimate
//! is handed to `refresh_pose`.

use vstd::prelude::*;
use crate::motor::MotorCommand;
use crate::navigation::{CoordinationGate, NavigationCommand, NavigationState};
use crate::units::Coord;

verus! {

/// The number of ticks in one heartbeat period.
pub const HEARTBEAT_WINDOW: u16 = 400;

/// The number of ticks, at the start of each period, during which the
/// status indicator is asserted.
pub const HEARTBEAT_ASSERTED: u16 = 200;

/// Whether the status indicator is asserted at a tick that finds the
/// heartbeat at `phase`.
pub open spec fn indicator_at(phase: nat) -> bool {
    phase < 200
}

/// The phase that follows `phase`.
pub open spec fn next_phase(phase: nat) -> nat {
    (phase + 1) % 400
}

/// The free-running tick counter behind the status indicator.
#[derive(Clone, Copy, Debug)]
pub struct Heartbeat {
    counter: u16,
}

impl Heartbeat {
    #[verifier::type_invariant]
    spec fn in_window(self) -> bool {
        self.counter < 400
    }

    /// The number of ticks since the start of the current period.
    pub closed spec fn phase(self) -> nat {
        self.counter as nat
    }

    /// Creates a heartbeat at the start of a period.
    pub fn new() -> (heartbeat: Heartbeat)
        ensures
            heartbeat.phase() == 0,
    {
        Heartbeat { counter: 0 }
    }

    /// Counts one tick and tells whether the status indicator is asserted
    /// during it.
    pub fn tick(&mut self) -> (asserted: bool)
        ensures
            old(self).phase() < 400,
            asserted == indicator_at(old(self).phase()),
            final(self).phase() == next_phase(old(self).phase()),
    {
        proof {
            use_type_invariant(&*self);
        }
        let asserted = self.counter < HEARTBEAT_ASSERTED;
        self.counter = (self.counter + 1) % HEARTBEAT_WINDOW;
        asserted
    }
}

/// What the first step of a tick decides.
#[derive(Clone, Copy, Debug, PartialEq, Eq, Structural)]
pub struct TickPlan {
    /// The level to drive the status indicator to.
    pub indicator: bool,
    /// Whether the controller is advanced in this tick. When it is not, the
    /// tick is lost: nothing is queued for later.
    pub run_control: bool,
}

/// What the two motors are given in one tick.
#[derive(Clone, Copy, Debug, PartialEq, Eq, Structural)]
pub struct MotorOrders {
    /// The command for the left motor.
    pub left: MotorCommand,
    /// The command for the right motor.
    pub right: MotorCommand,
    /// Whether the controller is forced into its stop state.
    pub stop_controller: bool,
}

/// The orders of a tick that runs: under an emergency stop both motors get
/// the zero command and the controller is stopped, whatever it computed;
/// otherwise each motor gets the computed command with its direction
/// reversed, as the motors are wired.
pub open spec fn orders_for(
    command: NavigationCommand,
    computed_left: MotorCommand,
    computed_right: MotorCommand,
) -> MotorOrders {
    if command == NavigationCommand::EmergencyStop {
        MotorOrders {
            left: MotorCommand::zero(),
            right: MotorCommand::zero(),
            stop_controller: true,
        }
    } else {
        MotorOrders {
            left: computed_left.inverted(),
            right: computed_right.inverted(),
            stop_controller: false,
        }
    }
}

/// The state that a tick leaves behind: the pose is replaced when the
/// coordination gate is open, and nothing changes when it is closed.
pub open spec fn refreshed(
    gate_enabled: bool,
    nav_state: NavigationState,
    position: Coord,
    angle: i64,
) -> NavigationState {
    if gate_enabled {
        nav_state.with_pose(position, angle)
    } else {
        nav_state
    }
}

/// First step of a tick: counts it on the heartbeat and checks the
/// coordination gate.
pub fn begin_tick(heartbeat: &mut Heartbeat, gate: &CoordinationGate) -> (plan: TickPlan)
    ensures
        old(heartbeat).phase() < 400,
        plan.indicator == indicator_at(old(heartbeat).phase()),
        plan.run_control == gate.enabled(),
        final(heartbeat).phase() == next_phase(old(heartbeat).phase()),
{
    let indicator = heartbeat.tick();
    TickPlan { indicator, run_control: gate.is_enabled() }
}

/// Second step of a tick: the orders for the motors, from the two commands
/// that the controller computed. There are none while the coordination gate
/// is closed.
pub fn motor_orders(
    gate: &CoordinationGate,
    nav_state: &NavigationState,
    computed_left: MotorCommand,
    computed_right: MotorCommand,
) -> (orders: Option<MotorOrders>)
    ensures
        gate.enabled() ==> orders == Some(
            orders_for(nav_state.command, computed_left, computed_right),
        ),
        !gate.enabled() ==> orders.is_none(),
{
    if !gate.is_enabled() {
        return None;
    }
    if nav_state.command == NavigationCommand::EmergencyStop {
        Some(
            MotorOrders {
                left: MotorCommand::Front(0),
                right: MotorCommand::Front(0),
                stop_controller: true,
            },
        )
    } else {
        Some(
            MotorOrders {
                left: computed_left.invert(),
                right: computed_right.invert(),
                stop_controller: false,
            },
        )
    }
}

/// Last step of a tick: takes over the controller's pose estimate. The
/// state is left as it is while the coordination gate is closed, and the
/// fields that the session loop owns are never written.
pub fn refresh_pose(
    gate: &CoordinationGate,
    nav_state: &mut NavigationState,
    position: Coord,
    angle: i64,
)
    ensures
        *final(nav_state) == refreshed(gate.enabled(), *old(nav_state), position, angle),
        !gate.enabled() ==> *final(nav_state) == *old(nav_state),
        final(nav_state).command == old(nav_state).command,
        final(nav_state).counter == old(nav_state).counter,
        final(nav_state).asserv_on_off == old(nav_state).asserv_on_off,
{
    if gate.is_enabled() {
        nav_state.position = position;
        nav_state.angle = angle;
    }
}

/// The phase that a heartbeat at `start` reaches after `ticks` ticks.
pub open spec fn phase_after(start: nat, ticks: nat) -> nat
    decreases ticks,
{
    if ticks == 0 {
        start
    } else {
        next_phase(phase_after(start, (ticks - 1) as nat))
    }
}

/// The number of ticks with the indicator asserted, among the first `ticks`
/// ticks of a heartbeat at `start`.
pub open spec fn asserted_ticks(start: nat, ticks: nat) -> nat
    decreases ticks,
{
    if ticks == 0 {
        0
    } else {
        let before = (ticks - 1) as nat;
        asserted_ticks(start, before) + if indicator_at(phase_after(start, before)) {
            1nat
        } else {
            0nat
        }
    }
}

/// The number of `t` in `[0, n)` with `t % 400 < 200`.
spec fn asserted_below(n: nat) -> nat {
    (n / 400) * 200 + if n % 400 < 200 {
        n % 400
    } else {
        200
    }
}

/// After `ticks` ticks the phase has advanced by `ticks`, modulo the window.
pub proof fn phase_after_advances(start: nat, ticks: nat)
    requires
        start < 400,
    ensures
        phase_after(start, ticks) == (start + ticks) % 400,
    decreases ticks,
{
    if ticks > 0 {
        phase_after_advances(start, (ticks - 1) as nat);
    }
}

proof fn asserted_ticks_closed_form(start: nat, ticks: nat)
    requires
        start < 400,
    ensures
        asserted_ticks(start, ticks) == asserted_below(start + ticks) - asserted_below(start),
    decreases ticks,
{
    if ticks > 0 {
        let before = (ticks - 1) as nat;
        asserted_ticks_closed_form(start, before);
        phase_after_advances(start, before);
    }
}

/// Over any window of 400 ticks the status indicator is asserted during
/// exactly 200 of them, hence deasserted during the other 200, and the
/// heartbeat ends the window at the phase at which it began.
pub proof fn heartbeat_duty_cycle(start: nat)
    requires
        start < 400,
    ensures
        asserted_ticks(start, 400) == 200,
        400 - asserted_ticks(start, 400) == 200,
        phase_after(start, 400) == start,
{
    asserted_ticks_closed_form(start, 400);
    phase_after_advances(start, 400);
}

/// In a window that begins with a period, the indicator is asserted during
/// the first 200 ticks and deasserted during the last 200: two halves, each
/// in one piece.
pub proof fn heartbeat_halves(tick: nat)
    requires
        tick < 400,
    ensures
        indicator_at(phase_after(0, tick)) == (tick < 200),
{
    phase_after_advances(0, tick);
}

/// Under an emergency stop the tick gives both motors the zero command and
/// stops the controller, whatever the controller computed.
pub proof fn emergency_stop_cuts_drive(computed_left: MotorCommand, computed_right: MotorCommand)
    ensures
        orders_for(NavigationCommand::EmergencyStop, computed_left, computed_right)
            == (MotorOrders {
            left: MotorCommand::Front(0),
            right: MotorCommand::Front(0),
            stop_controller: true,
        }),
        orders_for(NavigationCommand::EmergencyStop, computed_left, computed_right).left.value()
            == 0,
        orders_for(NavigationCommand::EmergencyStop, computed_left, computed_right).right.value()
            == 0,
{
}

} // verus!
