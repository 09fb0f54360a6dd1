//! The two loops taken together: every way in which control ticks and the
//! session loop's steps can follow one another, and what holds of all of
//! them.
//!
//! Each event stands for one call: `Tick` for `refresh_pose`, `Disable` and
//! `Enable` for the two methods of the coordination gate, `Frame` for
//! `apply_frame`. The contracts of those functions are stated over the spec
//! functions that `step` is made of.

use vstd::prelude::*;
use crate::control_loop::{orders_for, refreshed, MotorOrders};
use crate::frame::NavigationFrame;
use crate::motor::MotorCommand;
use crate::navigation::{NavigationCommand, NavigationState};
use crate::units::Coord;

verus! {

/// One thing that happens to the shared state.
pub enum Event {
    /// A control tick, at whose end the controller estimates this pose.
    Tick { position: Coord, angle: i64 },
    /// The session loop closes the coordination gate.
    Disable,
    /// The session loop opens the coordination gate.
    Enable,
    /// The session loop offers a command frame.
    Frame { frame: NavigationFrame },
}

/// The coordination gate and the navigation state, as both loops see them.
pub struct Shared {
    pub gate_enabled: bool,
    pub nav_state: NavigationState,
}

/// The shared state after one event.
pub open spec fn step(shared: Shared, event: Event) -> Shared {
    match event {
        Event::Tick { position, angle } => Shared {
            nav_state: refreshed(shared.gate_enabled, shared.nav_state, position, angle),
            ..shared
        },
        Event::Disable => Shared { gate_enabled: false, ..shared },
        Event::Enable => Shared { gate_enabled: true, ..shared },
        Event::Frame { frame } => Shared {
            nav_state: shared.nav_state.after_frame(frame),
            ..shared
        },
    }
}

/// The shared state after a sequence of events, first to last.
pub open spec fn run(shared: Shared, events: Seq<Event>) -> Shared
    decreases events.len(),
{
    if events.len() == 0 {
        shared
    } else {
        step(run(shared, events.drop_last()), events.last())
    }
}

/// Whether two states agree on the fields that the session loop owns.
pub open spec fn same_session_fields(a: NavigationState, b: NavigationState) -> bool {
    &&& a.command == b.command
    &&& a.counter == b.counter
    &&& a.asserv_on_off == b.asserv_on_off
}

/// Whether two states agree on the fields that the control loop owns.
pub open spec fn same_pose(a: NavigationState, b: NavigationState) -> bool {
    &&& a.position == b.position
    &&& a.angle == b.angle
}

/// In any interleaving, each event writes only what its side owns: a tick
/// never writes the command, the counter or the control flag, and writes
/// nothing at all while the coordination gate is closed; a frame never
/// writes the pose; a move of the coordination gate writes no field of the
/// state.
pub proof fn each_event_respects_ownership(shared: Shared, events: Seq<Event>, index: int)
    requires
        0 <= index < events.len(),
    ensures
        ({
            let before = run(shared, events.take(index));
            let after = run(shared, events.take(index + 1));
            &&& after == step(before, events[index])
            &&& events[index] is Tick ==> same_session_fields(before.nav_state, after.nav_state)
            &&& events[index] is Tick && !before.gate_enabled ==> after.nav_state
                == before.nav_state
            &&& events[index] is Frame ==> same_pose(before.nav_state, after.nav_state)
            &&& events[index] is Disable || events[index] is Enable ==> after.nav_state
                == before.nav_state
            &&& events[index] is Tick || events[index] is Frame ==> after.gate_enabled
                == before.gate_enabled
        }),
{
    let longer = events.take(index + 1);
    assert(longer.drop_last() == events.take(index));
    assert(longer.last() == events[index]);
}

/// While the coordination gate is closed, ticks change nothing, however
/// many there are: they are dropped.
pub proof fn closed_gate_drops_ticks(shared: Shared, events: Seq<Event>)
    requires
        !shared.gate_enabled,
        forall|i: int| 0 <= i < events.len() ==> events[i] is Tick,
    ensures
        run(shared, events) == shared,
    decreases events.len(),
{
    if events.len() > 0 {
        let earlier = events.drop_last();
        assert forall|i: int| 0 <= i < earlier.len() implies earlier[i] is Tick by {
            assert(earlier[i] == events[i]);
        }
        closed_gate_drops_ticks(shared, earlier);
        assert(events.last() == events[events.len() - 1]);
    }
}

/// Running one sequence of events after another is running the two joined.
pub proof fn run_joins(shared: Shared, first: Seq<Event>, second: Seq<Event>)
    ensures
        run(shared, first + second) == run(run(shared, first), second),
    decreases second.len(),
{
    if second.len() == 0 {
        assert(first + second == first);
    } else {
        let joined = first + second;
        assert(joined.drop_last() == first + second.drop_last());
        assert(joined.last() == second.last());
        run_joins(shared, first, second.drop_last());
    }
}

/// Ticks that fall between the closing and the opening of the coordination
/// gate leave no trace: after the session the state is what the frame alone
/// makes of it, and the coordination gate is open.
pub proof fn ticks_inside_a_session_are_dropped(
    shared: Shared,
    frame: NavigationFrame,
    early: Seq<Event>,
    late: Seq<Event>,
)
    requires
        forall|i: int| 0 <= i < early.len() ==> early[i] is Tick,
        forall|i: int| 0 <= i < late.len() ==> late[i] is Tick,
    ensures
        ({
            let session = seq![Event::Disable] + early + seq![Event::Frame { frame }] + late
                + seq![Event::Enable];
            &&& run(shared, session).nav_state == shared.nav_state.after_frame(frame)
            &&& run(shared, session).gate_enabled
        }),
{
    let closed = step(shared, Event::Disable);
    let accepted = step(closed, Event::Frame { frame });
    let a = seq![Event::Disable];
    let c = seq![Event::Frame { frame }];
    let e = seq![Event::Enable];
    assert(run(shared, a) == closed) by {
        assert(a.drop_last().len() == 0);
        assert(a.last() == Event::Disable);
        assert(run(shared, a.drop_last()) == shared);
    }
    run_joins(shared, a, early);
    closed_gate_drops_ticks(closed, early);
    run_joins(shared, a + early, c);
    assert(run(closed, c) == accepted) by {
        assert(c.drop_last().len() == 0);
        assert(c.last() == Event::Frame { frame });
        assert(run(closed, c.drop_last()) == closed);
    }
    run_joins(shared, a + early + c, late);
    closed_gate_drops_ticks(accepted, late);
    run_joins(shared, a + early + c + late, e);
    assert(run(accepted, e) == step(accepted, Event::Enable)) by {
        assert(e.drop_last().len() == 0);
        assert(e.last() == Event::Enable);
        assert(run(accepted, e.drop_last()) == accepted);
    }
}

/// Whatever the coordination gate does, a run without frames leaves the
/// command, the counter and the control flag as they were.
pub proof fn ticks_keep_session_fields(shared: Shared, events: Seq<Event>)
    requires
        forall|i: int| 0 <= i < events.len() ==> !(events[i] is Frame),
    ensures
        same_session_fields(run(shared, events).nav_state, shared.nav_state),
    decreases events.len(),
{
    if events.len() > 0 {
        let earlier = events.drop_last();
        assert forall|i: int| 0 <= i < earlier.len() implies !(earlier[i] is Frame) by {
            assert(earlier[i] == events[i]);
        }
        ticks_keep_session_fields(shared, earlier);
        assert(events.last() == events[events.len() - 1]);
    }
}

/// A run without ticks leaves the pose as it was.
pub proof fn session_keeps_pose(shared: Shared, events: Seq<Event>)
    requires
        forall|i: int| 0 <= i < events.len() ==> !(events[i] is Tick),
    ensures
        same_pose(run(shared, events).nav_state, shared.nav_state),
    decreases events.len(),
{
    if events.len() > 0 {
        let earlier = events.drop_last();
        assert forall|i: int| 0 <= i < earlier.len() implies !(earlier[i] is Tick) by {
            assert(earlier[i] == events[i]);
        }
        session_keeps_pose(shared, earlier);
        assert(events.last() == events[events.len() - 1]);
    }
}

/// Once the session loop has accepted an emergency stop and opened the
/// coordination gate again, the next tick gives both motors the zero command
/// and stops the controller, whatever the controller computed.
pub proof fn emergency_stop_reaches_next_tick(
    shared: Shared,
    frame: NavigationFrame,
    computed_left: MotorCommand,
    computed_right: MotorCommand,
)
    requires
        shared.nav_state.accepts(frame),
        frame.command == NavigationCommand::EmergencyStop,
    ensures
        ({
            let session = seq![Event::Disable, Event::Frame { frame }, Event::Enable];
            let next = run(shared, session);
            &&& next.gate_enabled
            &&& orders_for(next.nav_state.command, computed_left, computed_right)
                == (MotorOrders {
                left: MotorCommand::Front(0),
                right: MotorCommand::Front(0),
                stop_controller: true,
            })
        }),
{
    let session = seq![Event::Disable, Event::Frame { frame }, Event::Enable];
    let two = session.drop_last();
    let one = two.drop_last();
    let none = one.drop_last();
    assert(none.len() == 0);
    assert(one.last() == Event::Disable);
    assert(two.last() == Event::Frame { frame });
    assert(session.last() == Event::Enable);
    let closed = step(shared, Event::Disable);
    let accepted = step(closed, Event::Frame { frame });
    assert(run(shared, none) == shared);
    assert(run(shared, one) == closed);
    assert(run(shared, two) == accepted);
    assert(run(shared, session) == step(accepted, Event::Enable));
}

} // verus!
