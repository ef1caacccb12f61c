//! The core logic to interact with a control unit: every operation is one
//! exchange with the backend, or two for the lap number.

use std::time::Duration;
use vstd::prelude::*;

use crate::backend::Backend;
use crate::error::Error;
use crate::messages::{
    acknowledges, button_press_frame, decode_empty, decode_status, decode_version, is_lap_frame,
    is_track_frame, is_version_frame, lap_status_matches, make_button_press_request,
    make_reset_clock_request, make_reset_positions_request, make_set_brake_level_request,
    make_set_fuel_level_request, make_set_lap_high_request, make_set_lap_low_request,
    make_set_speed_level_request, player_address, reset_clock_frame, set_word_frame,
    track_status_matches, version_text, BRAKE_ADDRESS_OFFSET, FUEL_ADDRESS_OFFSET,
    LAP_HIGH_ADDRESS, LAP_LOW_ADDRESS, RESET_POSITIONS_ADDRESS, RESET_POSITIONS_VALUE,
    SPEED_ADDRESS_OFFSET, STATUS_MARKER, STATUS_REQUEST, VERSION_MARKER, VERSION_REQUEST,
};
use crate::status::Status;
use crate::trusted::{duration_from_millis, duration_of_millis, whole_millis};

verus! {

/// Number of the escape button.
pub const BUTTON_ESCAPE: u8 = 1;

/// Number of the enter button.
pub const BUTTON_ENTER: u8 = 2;

/// Number of the speed button.
pub const BUTTON_SPEED: u8 = 5;

/// Number of the brake button.
pub const BUTTON_BRAKE: u8 = 6;

/// Number of the fuel button.
pub const BUTTON_FUEL: u8 = 7;

/// Number of the code button.
pub const BUTTON_CODE: u8 = 8;

/// The timeout of a control unit that was given no other, in milliseconds.
pub const DEFAULT_TIMEOUT_MILLIS: u64 = 2000;

/// Turns a decoder's "no value" into the error of an invalid response.
pub fn decode_result_to_error<T>(result: Option<T>) -> (converted: Result<T, Error>)
    ensures
        converted == match result {
            Some(value) => Ok::<T, Error>(value),
            None => Err::<T, Error>(Error::InvalidResponse),
        },
{
    match result {
        Some(value) => Ok(value),
        None => Err(Error::InvalidResponse),
    }
}

/// What a backend gave back for a request, with the bytes as a sequence.
pub open spec fn reply_view(reply: Result<Vec<u8>, Error>) -> Result<Seq<u8>, Error> {
    match reply {
        Ok(bytes) => Ok(bytes@),
        Err(error) => Err(error),
    }
}

/// Whether `result` is what a status request gives for the backend's
/// `reply`: the backend's error unchanged, the decoded status of a frame
/// that is one, and the error of an invalid response for any other bytes.
pub open spec fn is_status_result(
    reply: Result<Seq<u8>, Error>,
    result: Result<Status, Error>,
) -> bool {
    match reply {
        Err(error) => result == Err::<Status, Error>(error),
        Ok(bytes) => if is_track_frame(bytes) {
            result matches Ok(Status::Track(status)) && track_status_matches(status, bytes)
        } else if is_lap_frame(bytes) {
            result matches Ok(Status::Lap(status)) && lap_status_matches(status, bytes)
        } else {
            result == Err::<Status, Error>(Error::InvalidResponse)
        },
    }
}

/// Whether `result` is what a version request gives for the backend's
/// `reply`: the backend's error unchanged, the four characters of a frame
/// that is a version answer, and the error of an invalid response for any
/// other bytes.
pub open spec fn is_version_result(
    reply: Result<Seq<u8>, Error>,
    result: Result<String, Error>,
) -> bool {
    match reply {
        Err(error) => result == Err::<String, Error>(error),
        Ok(bytes) => if is_version_frame(bytes) {
            result matches Ok(version) && version@ == version_text(bytes)
        } else {
            result == Err::<String, Error>(Error::InvalidResponse)
        },
    }
}

/// What a command that reads nothing back gives for the backend's `reply`:
/// the backend's error unchanged, success for an answer that echoes the
/// first byte of the request, and the error of an invalid response for any
/// other bytes.
pub open spec fn empty_result(
    request: Seq<u8>,
    reply: Result<Seq<u8>, Error>,
) -> Result<(), Error> {
    match reply {
        Err(error) => Err(error),
        Ok(bytes) => if acknowledges(request, bytes) {
            Ok(())
        } else {
            Err(Error::InvalidResponse)
        },
    }
}

/// The result of a status request, from what the backend gave back.
pub fn status_from_reply(reply: Result<Vec<u8>, Error>) -> (result: Result<Status, Error>)
    ensures
        is_status_result(reply_view(reply), result),
{
    match reply {
        Ok(response) => decode_result_to_error(decode_status(response.as_slice())),
        Err(error) => Err(error),
    }
}

/// The result of a version request, from what the backend gave back.
pub fn version_from_reply(reply: Result<Vec<u8>, Error>) -> (result: Result<String, Error>)
    ensures
        is_version_result(reply_view(reply), result),
{
    match reply {
        Ok(response) => decode_result_to_error(decode_version(response.as_slice())),
        Err(error) => Err(error),
    }
}

/// The result of a command that reads nothing back, from the request and
/// what the backend gave back.
pub fn empty_from_reply(request: &[u8], reply: Result<Vec<u8>, Error>) -> (result: Result<
    (),
    Error,
>)
    ensures
        result == empty_result(request@, reply_view(reply)),
{
    match reply {
        Ok(response) => decode_result_to_error(decode_empty(request, response.as_slice())),
        Err(error) => Err(error),
    }
}

/// One call that a control unit made to its backend, with what came back.
pub enum BackendCall {
    /// A call of `connect`.
    Connect { result: Result<(), Error> },
    /// A call of `disconnect`.
    Disconnect { result: Result<(), Error> },
    /// A call of `request` with the frame `data` and the given timeout.
    Request { data: Seq<u8>, timeout: Duration, reply: Result<Seq<u8>, Error> },
}

/// What the backend gave back in a call of `request`.
pub open spec fn reply_of(call: BackendCall) -> Result<Seq<u8>, Error>
    recommends
        call is Request,
{
    match call {
        BackendCall::Request { reply, .. } => reply,
        _ => Err(Error::NoResponse),
    }
}

/// The low eight bits of a number: what is left of a player, a level or a
/// lap when it goes into a byte.
pub open spec fn low_byte(n: usize) -> u8 {
    (n % 256) as u8
}

/// A control unit behind a backend.
///
/// The unit keeps, for the proofs alone, the list of the calls that it made
/// to its backend. Each operation says which calls it adds to the list, that
/// each of them is a call of the backend's own method which took the
/// backend from where it was to where it now is, and how the operation's
/// result follows from what the calls gave back.
pub struct ControlUnit<T: Backend> {
    backend: T,
    timeout: Duration,
    calls: Ghost<Seq<BackendCall>>,
}

impl<T: Backend> ControlUnit<T> {
    /// The backend of this unit.
    pub closed spec fn backend(&self) -> T {
        self.backend
    }

    /// The timeout that this unit gives to every request.
    pub closed spec fn timeout(&self) -> Duration {
        self.timeout
    }

    /// The calls that this unit made to its backend, the first one first.
    pub closed spec fn calls(&self) -> Seq<BackendCall> {
        self.calls@
    }

    /// Whether this unit is `before` after exactly one more call to the
    /// backend, and the timeout is the same.
    pub open spec fn made_one_call(&self, before: &Self) -> bool {
        &&& self.timeout() == before.timeout()
        &&& self.calls().len() == before.calls().len() + 1
        &&& self.calls().drop_last() == before.calls()
    }

    /// Whether this unit is `before` after exactly one more call to the
    /// backend, a request with the frame `data` and the unit's timeout.
    pub open spec fn made_one_request(&self, before: &Self, data: Seq<u8>) -> bool {
        &&& self.made_one_call(before)
        &&& self.calls().last() == (BackendCall::Request {
            data,
            timeout: before.timeout(),
            reply: reply_of(self.calls().last()),
        })
    }

    /// Creates a control unit behind the given backend, with a timeout of
    /// two seconds and no call made yet.
    pub fn new(backend: T) -> (unit: ControlUnit<T>)
        ensures
            unit.backend() == backend,
            unit.timeout() == duration_of_millis(DEFAULT_TIMEOUT_MILLIS),
            whole_millis(unit.timeout()) == DEFAULT_TIMEOUT_MILLIS,
            unit.calls() == Seq::<BackendCall>::empty(),
    {
        ControlUnit {
            backend,
            timeout: duration_from_millis(DEFAULT_TIMEOUT_MILLIS),
            calls: Ghost(Seq::empty()),
        }
    }

    /// Sets the timeout which is used for control unit communication.
    pub fn set_timeout(&mut self, timeout: Duration)
        ensures
            final(self).timeout() == timeout,
            final(self).backend() == old(self).backend(),
            final(self).calls() == old(self).calls(),
    {
        self.timeout = timeout;
    }

    /// Connects the control unit with the configured backend: one call of
    /// the backend's `connect`, whose result is returned.
    pub fn connect(&mut self) -> (result: Result<(), Error>)
        ensures
            final(self).made_one_call(old(self)),
            final(self).calls().last() == (BackendCall::Connect { result }),
            exists|m: &mut T|
                mut_ref_current(m) == old(self).backend()
                    && mut_ref_future(m) == final(self).backend()
                    && #[trigger] call_ensures(T::connect, (m,), result),
    {
        let result = self.backend.connect();
        proof {
            self.calls@ = self.calls@.push(BackendCall::Connect { result });
            assert(self.calls@.drop_last() =~= old(self).calls@);
        }
        result
    }

    /// Disconnects the control unit from the configured backend: one call
    /// of the backend's `disconnect`, whose result is returned.
    pub fn disconnect(&mut self) -> (result: Result<(), Error>)
        ensures
            final(self).made_one_call(old(self)),
            final(self).calls().last() == (BackendCall::Disconnect { result }),
            exists|m: &mut T|
                mut_ref_current(m) == old(self).backend()
                    && mut_ref_future(m) == final(self).backend()
                    && #[trigger] call_ensures(T::disconnect, (m,), result),
    {
        let result = self.backend.disconnect();
        proof {
            self.calls@ = self.calls@.push(BackendCall::Disconnect { result });
            assert(self.calls@.drop_last() =~= old(self).calls@);
        }
        result
    }

    /// Sends one frame to the backend with the unit's timeout and hands back
    /// what the backend gave.
    fn exchange(&mut self, data: &[u8]) -> (reply: Result<Vec<u8>, Error>)
        ensures
            final(self).made_one_request(old(self), data@),
            reply_of(final(self).calls().last()) == reply_view(reply),
            exists|m: &mut T|
                mut_ref_current(m) == old(self).backend()
                    && mut_ref_future(m) == final(self).backend()
                    && #[trigger] call_ensures(T::request, (m, data, old(self).timeout()), reply),
    {
        let reply = self.backend.request(data, self.timeout);
        proof {
            self.calls@ = self.calls@.push(
                BackendCall::Request {
                    data: data@,
                    timeout: self.timeout,
                    reply: reply_view(reply),
                },
            );
            assert(self.calls@.drop_last() =~= old(self).calls@);
        }
        reply
    }

    /// Reads the current status during a race: one request with the status
    /// frame. The control unit can either return a track status or a lap
    /// status.
    pub fn get_status(&mut self) -> (result: Result<Status, Error>)
        ensures
            final(self).made_one_request(old(self), seq![STATUS_MARKER]),
            exists|m: &mut T, frame: &[u8], outcome: Result<Vec<u8>, Error>|
                mut_ref_current(m) == old(self).backend()
                    && mut_ref_future(m) == final(self).backend()
                    && frame@ == seq![STATUS_MARKER]
                    && reply_view(outcome) == reply_of(final(self).calls().last())
                    && #[trigger] call_ensures(T::request, (m, frame, old(self).timeout()), outcome),
            is_status_result(reply_of(final(self).calls().last()), result),
    {
        let request: [u8; 1] = STATUS_REQUEST;
        let reply = self.exchange(request.as_slice());
        proof {
            assert(request@ =~= seq![STATUS_MARKER]);
        }
        status_from_reply(reply)
    }

    /// Determines if the control unit is currently connected: the answer
    /// that the backend's `is_connected` gives for the unit's backend,
    /// handed on as it is.
    pub fn is_connected(&self) -> (result: Result<bool, Error>)
        ensures
            call_ensures(T::is_connected, (&self.backend(),), result),
    {
        self.backend.is_connected()
    }

    /// Requests the current firmware version of the control unit: one
    /// request with the version frame.
    pub fn get_version(&mut self) -> (result: Result<String, Error>)
        ensures
            final(self).made_one_request(old(self), seq![VERSION_MARKER]),
            exists|m: &mut T, frame: &[u8], outcome: Result<Vec<u8>, Error>|
                mut_ref_current(m) == old(self).backend()
                    && mut_ref_future(m) == final(self).backend()
                    && frame@ == seq![VERSION_MARKER]
                    && reply_view(outcome) == reply_of(final(self).calls().last())
                    && #[trigger] call_ensures(T::request, (m, frame, old(self).timeout()), outcome),
            is_version_result(reply_of(final(self).calls().last()), result),
    {
        let request: [u8; 1] = VERSION_REQUEST;
        let reply = self.exchange(request.as_slice());
        proof {
            assert(request@ =~= seq![VERSION_MARKER]);
        }
        version_from_reply(reply)
    }

    /// Whether this unit is `before` after one request with the frame
    /// `data`, of a command that reads nothing back, and `result` is what
    /// that command gives for the backend's reply.
    pub open spec fn commanded(
        &self,
        before: &Self,
        data: Seq<u8>,
        result: Result<(), Error>,
    ) -> bool {
        &&& self.made_one_request(before, data)
        &&& result == empty_result(data, reply_of(self.calls().last()))
    }

    /// Sends the frame of a command that reads nothing back and checks the
    /// acknowledgement.
    fn command(&mut self, request: &[u8]) -> (result: Result<(), Error>)
        ensures
            final(self).commanded(old(self), request@, result),
            exists|m: &mut T, frame: &[u8], outcome: Result<Vec<u8>, Error>|
                mut_ref_current(m) == old(self).backend()
                    && mut_ref_future(m) == final(self).backend()
                    && frame@ == request@
                    && reply_view(outcome) == reply_of(final(self).calls().last())
                    && #[trigger] call_ensures(T::request, (m, frame, old(self).timeout()), outcome),
    {
        let reply = self.exchange(request);
        empty_from_reply(request, reply)
    }

    /// Causes a press of the enter button of the control unit.
    pub fn press_enter(&mut self) -> (result: Result<(), Error>)
        ensures
            final(self).commanded(old(self), button_press_frame(BUTTON_ENTER), result),
            exists|m: &mut T, frame: &[u8], outcome: Result<Vec<u8>, Error>|
                mut_ref_current(m) == old(self).backend()
                    && mut_ref_future(m) == final(self).backend()
                    && frame@ == button_press_frame(BUTTON_ENTER)
                    && reply_view(outcome) == reply_of(final(self).calls().last())
                    && #[trigger] call_ensures(T::request, (m, frame, old(self).timeout()), outcome),
    {
        self.press_button(BUTTON_ENTER)
    }

    /// Causes a press of the escape button of the control unit.
    pub fn press_esc(&mut self) -> (result: Result<(), Error>)
        ensures
            final(self).commanded(old(self), button_press_frame(BUTTON_ESCAPE), result),
            exists|m: &mut T, frame: &[u8], outcome: Result<Vec<u8>, Error>|
                mut_ref_current(m) == old(self).backend()
                    && mut_ref_future(m) == final(self).backend()
                    && frame@ == button_press_frame(BUTTON_ESCAPE)
                    && reply_view(outcome) == reply_of(final(self).calls().last())
                    && #[trigger] call_ensures(T::request, (m, frame, old(self).timeout()), outcome),
    {
        self.press_button(BUTTON_ESCAPE)
    }

    /// Causes a press of the speed button of the control unit.
    pub fn press_speed(&mut self) -> (result: Result<(), Error>)
        ensures
            final(self).commanded(old(self), button_press_frame(BUTTON_SPEED), result),
            exists|m: &mut T, frame: &[u8], outcome: Result<Vec<u8>, Error>|
                mut_ref_current(m) == old(self).backend()
                    && mut_ref_future(m) == final(self).backend()
                    && frame@ == button_press_frame(BUTTON_SPEED)
                    && reply_view(outcome) == reply_of(final(self).calls().last())
                    && #[trigger] call_ensures(T::request, (m, frame, old(self).timeout()), outcome),
    {
        self.press_button(BUTTON_SPEED)
    }

    /// Causes a press of the brake button of the control unit.
    pub fn press_brake(&mut self) -> (result: Result<(), Error>)
        ensures
            final(self).commanded(old(self), button_press_frame(BUTTON_BRAKE), result),
            exists|m: &mut T, frame: &[u8], outcome: Result<Vec<u8>, Error>|
                mut_ref_current(m) == old(self).backend()
                    && mut_ref_future(m) == final(self).backend()
                    && frame@ == button_press_frame(BUTTON_BRAKE)
                    && reply_view(outcome) == reply_of(final(self).calls().last())
                    && #[trigger] call_ensures(T::request, (m, frame, old(self).timeout()), outcome),
    {
        self.press_button(BUTTON_BRAKE)
    }

    /// Causes a press of the fuel button of the control unit.
    pub fn press_fuel(&mut self) -> (result: Result<(), Error>)
        ensures
            final(self).commanded(old(self), button_press_frame(BUTTON_FUEL), result),
            exists|m: &mut T, frame: &[u8], outcome: Result<Vec<u8>, Error>|
                mut_ref_current(m) == old(self).backend()
                    && mut_ref_future(m) == final(self).backend()
                    && frame@ == button_press_frame(BUTTON_FUEL)
                    && reply_view(outcome) == reply_of(final(self).calls().last())
                    && #[trigger] call_ensures(T::request, (m, frame, old(self).timeout()), outcome),
    {
        self.press_button(BUTTON_FUEL)
    }

    /// Causes a press of the code button of the control unit.
    pub fn press_code(&mut self) -> (result: Result<(), Error>)
        ensures
            final(self).commanded(old(self), button_press_frame(BUTTON_CODE), result),
            exists|m: &mut T, frame: &[u8], outcome: Result<Vec<u8>, Error>|
                mut_ref_current(m) == old(self).backend()
                    && mut_ref_future(m) == final(self).backend()
                    && frame@ == button_press_frame(BUTTON_CODE)
                    && reply_view(outcome) == reply_of(final(self).calls().last())
                    && #[trigger] call_ensures(T::request, (m, frame, old(self).timeout()), outcome),
    {
        self.press_button(BUTTON_CODE)
    }

    /// Simulates a button press with the given button number.
    pub fn press_button(&mut self, button: u8) -> (result: Result<(), Error>)
        ensures
            final(self).commanded(old(self), button_press_frame(button), result),
            exists|m: &mut T, frame: &[u8], outcome: Result<Vec<u8>, Error>|
                mut_ref_current(m) == old(self).backend()
                    && mut_ref_future(m) == final(self).backend()
                    && frame@ == button_press_frame(button)
                    && reply_view(outcome) == reply_of(final(self).calls().last())
                    && #[trigger] call_ensures(T::request, (m, frame, old(self).timeout()), outcome),
    {
        let request = make_button_press_request(button);
        self.command(request.as_slice())
    }

    /// Resets the positions of the players displayed on the position tower.
    pub fn reset_positions(&mut self) -> (result: Result<(), Error>)
        ensures
            final(self).commanded(old(self), reset_positions_frame(), result),
            exists|m: &mut T, frame: &[u8], outcome: Result<Vec<u8>, Error>|
                mut_ref_current(m) == old(self).backend()
                    && mut_ref_future(m) == final(self).backend()
                    && frame@ == reset_positions_frame()
                    && reply_view(outcome) == reply_of(final(self).calls().last())
                    && #[trigger] call_ensures(T::request, (m, frame, old(self).timeout()), outcome),
    {
        let request = make_reset_positions_request();
        self.command(request.as_slice())
    }

    /// Resets the clock for all players.
    pub fn reset_clock(&mut self) -> (result: Result<(), Error>)
        ensures
            final(self).commanded(old(self), reset_clock_frame(), result),
            exists|m: &mut T, frame: &[u8], outcome: Result<Vec<u8>, Error>|
                mut_ref_current(m) == old(self).backend()
                    && mut_ref_future(m) == final(self).backend()
                    && frame@ == reset_clock_frame()
                    && reply_view(outcome) == reply_of(final(self).calls().last())
                    && #[trigger] call_ensures(T::request, (m, frame, old(self).timeout()), outcome),
    {
        let request = make_reset_clock_request();
        self.command(request.as_slice())
    }

    /// Sets the speed level of the given player to the given value. Neither
    /// is checked: of the player the low three bits reach the control unit,
    /// of the level the low four.
    pub fn set_speed_level(&mut self, player: usize, speed: usize) -> (result: Result<(), Error>)
        ensures
            final(self).commanded(old(self), speed_level_frame(player, speed), result),
            exists|m: &mut T, frame: &[u8], outcome: Result<Vec<u8>, Error>|
                mut_ref_current(m) == old(self).backend()
                    && mut_ref_future(m) == final(self).backend()
                    && frame@ == speed_level_frame(player, speed)
                    && reply_view(outcome) == reply_of(final(self).calls().last())
                    && #[trigger] call_ensures(T::request, (m, frame, old(self).timeout()), outcome),
    {
        let request = make_set_speed_level_request(byte_of(player), byte_of(speed));
        self.command(request.as_slice())
    }

    /// Sets the brake level of the given player to the given value. Neither
    /// is checked: of the player the low three bits reach the control unit,
    /// of the level the low four.
    pub fn set_brake_level(&mut self, player: usize, brake: usize) -> (result: Result<(), Error>)
        ensures
            final(self).commanded(old(self), brake_level_frame(player, brake), result),
            exists|m: &mut T, frame: &[u8], outcome: Result<Vec<u8>, Error>|
                mut_ref_current(m) == old(self).backend()
                    && mut_ref_future(m) == final(self).backend()
                    && frame@ == brake_level_frame(player, brake)
                    && reply_view(outcome) == reply_of(final(self).calls().last())
                    && #[trigger] call_ensures(T::request, (m, frame, old(self).timeout()), outcome),
    {
        let request = make_set_brake_level_request(byte_of(player), byte_of(brake));
        self.command(request.as_slice())
    }

    /// Sets the fuel level of the given player to the given value. Neither
    /// is checked: of the player the low three bits reach the control unit,
    /// of the level the low four.
    pub fn set_fuel_level(&mut self, player: usize, fuel: usize) -> (result: Result<(), Error>)
        ensures
            final(self).commanded(old(self), fuel_level_frame(player, fuel), result),
            exists|m: &mut T, frame: &[u8], outcome: Result<Vec<u8>, Error>|
                mut_ref_current(m) == old(self).backend()
                    && mut_ref_future(m) == final(self).backend()
                    && frame@ == fuel_level_frame(player, fuel)
                    && reply_view(outcome) == reply_of(final(self).calls().last())
                    && #[trigger] call_ensures(T::request, (m, frame, old(self).timeout()), outcome),
    {
        let request = make_set_fuel_level_request(byte_of(player), byte_of(fuel));
        self.command(request.as_slice())
    }

    /// Sets the low half of the lap number.
    fn set_lap_low(&mut self, lap: usize) -> (result: Result<(), Error>)
        ensures
            final(self).commanded(old(self), lap_low_frame(lap), result),
            exists|m: &mut T, frame: &[u8], outcome: Result<Vec<u8>, Error>|
                mut_ref_current(m) == old(self).backend()
                    && mut_ref_future(m) == final(self).backend()
                    && frame@ == lap_low_frame(lap)
                    && reply_view(outcome) == reply_of(final(self).calls().last())
                    && #[trigger] call_ensures(T::request, (m, frame, old(self).timeout()), outcome),
    {
        let request = lap_low_request(lap);
        self.command(request.as_slice())
    }

    /// Sets the high half of the lap number.
    fn set_lap_high(&mut self, lap: usize) -> (result: Result<(), Error>)
        ensures
            final(self).commanded(old(self), lap_high_frame(lap), result),
            exists|m: &mut T, frame: &[u8], outcome: Result<Vec<u8>, Error>|
                mut_ref_current(m) == old(self).backend()
                    && mut_ref_future(m) == final(self).backend()
                    && frame@ == lap_high_frame(lap)
                    && reply_view(outcome) == reply_of(final(self).calls().last())
                    && #[trigger] call_ensures(T::request, (m, frame, old(self).timeout()), outcome),
    {
        let request = lap_high_request(lap);
        self.command(request.as_slice())
    }

    /// Whether this unit is `before` after setting the lap number to `lap`
    /// with the given result: a request for the high half, and, only if that
    /// one was acknowledged, a second request for the low half. The result
    /// is the failure of the first request or else the result of the second.
    pub open spec fn lap_was_set(
        &self,
        before: &Self,
        lap: usize,
        result: Result<(), Error>,
    ) -> bool {
        let first = before.calls().len() as int;
        let calls = self.calls();
        &&& self.timeout() == before.timeout()
        &&& calls.len() > first
        &&& calls.take(first) == before.calls()
        &&& calls[first] == (BackendCall::Request {
            data: lap_high_frame(lap),
            timeout: before.timeout(),
            reply: reply_of(calls[first]),
        })
        &&& match empty_result(lap_high_frame(lap), reply_of(calls[first])) {
            Err(error) => calls.len() == first + 1 && result == Err::<(), Error>(error),
            Ok(_) => {
                &&& calls.len() == first + 2
                &&& calls[first + 1] == (BackendCall::Request {
                    data: lap_low_frame(lap),
                    timeout: before.timeout(),
                    reply: reply_of(calls[first + 1]),
                })
                &&& result == empty_result(lap_low_frame(lap), reply_of(calls[first + 1]))
            },
        }
    }

    /// Sets the lap currently displayed by the position tower. Of the lap
    /// its low eight bits count.
    ///
    /// The lap number goes out in two requests, the high half first. If the
    /// first fails, the second is not made. If the second fails, the control
    /// unit is left with the new high half and the old low half: the
    /// operation is not undone.
    pub fn set_lap(&mut self, lap: usize) -> (result: Result<(), Error>)
        ensures
            final(self).lap_was_set(old(self), lap, result),
            exists|m: &mut T, frame: &[u8], outcome: Result<Vec<u8>, Error>|
                mut_ref_current(m) == old(self).backend()
                    && frame@ == lap_high_frame(lap)
                    && reply_view(outcome) == reply_of(
                    final(self).calls()[old(self).calls().len() as int],
                )
                    && #[trigger] call_ensures(T::request, (m, frame, old(self).timeout()), outcome)
                    && (empty_result(lap_high_frame(lap), reply_view(outcome)) is Err
                    ==> mut_ref_future(m) == final(self).backend())
                    && (empty_result(lap_high_frame(lap), reply_view(outcome)) is Ok
                    ==> exists|n: &mut T, second: &[u8], last: Result<Vec<u8>, Error>|
                    mut_ref_current(n) == mut_ref_future(m)
                        && mut_ref_future(n) == final(self).backend()
                        && second@ == lap_low_frame(lap)
                        && reply_view(last) == reply_of(final(self).calls().last())
                        && #[trigger] call_ensures(
                        T::request,
                        (n, second, old(self).timeout()),
                        last,
                    )),
    {
        let ghost before = self.calls@;
        match self.set_lap_high(lap) {
            Ok(_) => {},
            Err(error) => {
                proof {
                    assert(self.calls@.take(before.len() as int) =~= before);
                }
                return Err(error);
            },
        }
        let ghost between = self.calls@;
        let result = self.set_lap_low(lap);
        proof {
            assert(self.calls@.drop_last() == between);
            assert(between.drop_last() == before);
            assert(self.calls@.take(before.len() as int) =~= before);
        }
        result
    }
}

/// The frame that resets the positions shown on the position tower.
pub open spec fn reset_positions_frame() -> Seq<u8> {
    set_word_frame(RESET_POSITIONS_ADDRESS, RESET_POSITIONS_VALUE, 1)
}

/// The frame that sets the speed level of a player. Of the player and of the
/// level the low eight bits go on to the codec.
pub open spec fn speed_level_frame(player: usize, speed: usize) -> Seq<u8> {
    set_word_frame(player_address(SPEED_ADDRESS_OFFSET, low_byte(player)), low_byte(speed), 2)
}

/// The frame that sets the brake level of a player.
pub open spec fn brake_level_frame(player: usize, brake: usize) -> Seq<u8> {
    set_word_frame(player_address(BRAKE_ADDRESS_OFFSET, low_byte(player)), low_byte(brake), 2)
}

/// The frame that sets the fuel level of a player.
pub open spec fn fuel_level_frame(player: usize, fuel: usize) -> Seq<u8> {
    set_word_frame(player_address(FUEL_ADDRESS_OFFSET, low_byte(player)), low_byte(fuel), 2)
}

/// The frame that sets the high half of the lap number `lap`.
pub open spec fn lap_high_frame(lap: usize) -> Seq<u8> {
    set_word_frame(LAP_HIGH_ADDRESS, low_byte(lap) >> 4, 1)
}

/// The frame that sets the low half of the lap number `lap`.
pub open spec fn lap_low_frame(lap: usize) -> Seq<u8> {
    set_word_frame(LAP_LOW_ADDRESS, low_byte(lap) & 0x0F, 1)
}

/// Builds the frame that sets the high half of the lap number `lap`, of
/// which the low eight bits count.
pub fn lap_high_request(lap: usize) -> (frame: [u8; 6])
    ensures
        frame@ == lap_high_frame(lap),
{
    make_set_lap_high_request(byte_of(lap) >> 4)
}

/// Builds the frame that sets the low half of the lap number `lap`.
pub fn lap_low_request(lap: usize) -> (frame: [u8; 6])
    ensures
        frame@ == lap_low_frame(lap),
{
    make_set_lap_low_request(byte_of(lap) & 0x0F)
}

/// The low eight bits of a number.
pub fn byte_of(n: usize) -> (byte: u8)
    ensures
        byte == low_byte(n),
{
    proof {
        assert(n as u8 == n % 256) by (bit_vector);
    }
    #[verifier::truncate]
    (n as u8)
}

} // verus!
