//! carrlink talks to a Carrera control unit: it builds the command frames of
//! the unit's wire protocol, decodes its answers and sequences single
//! request/response exchanges over a pluggable transport.
//!
//! - [`messages`] is the codec: checksums, command frames and the decoding
//!   of answers, each with the frame layout as its contract.
//! - [`status`] and [`error`] hold the values that come out of it.
//! - [`backend`] is what a transport has to offer, and [`control_unit`] the
//!   operations of a control unit behind any such transport.
//! - [`backend_ble`] holds the decisions of a bluetooth low energy
//!   transport that need no bluetooth stack.
//! - [`lap_time`] is a reading of the lap clock.

pub mod backend;
pub mod backend_ble;
pub mod control_unit;
pub mod error;
pub mod lap_time;
pub mod messages;
pub mod status;
pub mod trusted;

pub use backend::Backend;
pub use control_unit::ControlUnit;
pub use error::Error;
pub use lap_time::LapTime;
pub use status::{LapStatus, StartSignal, Status, TrackStatus, MAX_CONTROLLER_COUNT};
