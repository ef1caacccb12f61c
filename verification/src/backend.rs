//! The backend trait, which allows to use different communication channels
//! with control units.

use std::time::Duration;
use vstd::prelude::*;

use crate::error::Error;

verus! {

/// Backend which determines the communication channel with a control unit.
///
/// The library asks nothing of an implementation but the signatures: what a
/// control unit returns is stated for every answer that a backend may give.
pub trait Backend {
    /// Establishes a connection with the control unit.
    fn connect(&mut self) -> Result<(), Error>;

    /// Drops an already created connection with the control unit.
    fn disconnect(&mut self) -> Result<(), Error>;

    /// Determines if the backend is currently connected to the control unit.
    fn is_connected(&self) -> Result<bool, Error>;

    /// Sends a request to the control unit and waits for a response, for no
    /// longer than the given timeout.
    fn request(&mut self, data: &[u8], timeout: Duration) -> Result<Vec<u8>, Error>;
}

} // verus!
