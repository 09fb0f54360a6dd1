//! Motion-control core of a differential-drive robot: the shared navigation
//! state, the command interpreter, the periodic control tick and the
//! telemetry and debug reports, each with a machine-checked contract.

pub mod control_loop;
pub mod frame;
pub mod info;
pub mod interpreter;
pub mod motor;
pub mod navigation;
pub mod protocol;
pub mod session;
pub mod units;
