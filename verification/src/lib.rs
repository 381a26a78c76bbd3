//! Recording core of a gamepad input logger: pairing button presses with
//! releases, tracking the two analog sticks, and deciding what the capture
//! loop does with each controller event and each command.
//!
//! Every connected gamepad has a recorder of its own, and every session of a
//! recorder its own pair of files, one for buttons and one for sticks.
//!
//! Times are whole nanoseconds. Analog values are carried as the bit pattern
//! of an IEEE-754 single, so that the library never computes on a float.
//! The library itself touches no file, no thread and no gamepad: its
//! functions take what has happened and give what there is to do.

pub mod input;
pub mod records;
pub mod correlator;
pub mod sticks;
pub mod session;
pub mod naming;
pub mod notify;
pub mod writer;
pub mod capture;
pub mod gilrs_loop;
pub mod stateful_text;
pub mod error_window;
pub mod controller_type;
pub mod controls;
pub mod button_graph;
pub mod stick_graph;
