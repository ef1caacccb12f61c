//! The message codec: command frames, checksums and response decoding.

use vstd::prelude::*;
use vstd::array::array_as_slice;
use vstd::slice::slice_subrange;

use crate::status::{LapStatus, StartSignal, Status, TrackStatus, MAX_CONTROLLER_COUNT};
use crate::trusted::{duration_from_millis, duration_of_millis, whole_millis};

verus! {

/// Shortest frame that can carry a checksum: one marker and the checksum byte.
pub const MIN_CHECKSUM_MESSAGE_LEN: usize = 2;

/// Marker of a status request and of its answers: ASCII `?`.
pub const STATUS_MARKER: u8 = 0x3F;

/// Marker of a version request and of its answer: ASCII `0`.
pub const VERSION_MARKER: u8 = 0x30;

/// Second byte of a track status answer: ASCII `:`.
pub const TRACK_SEPARATOR: u8 = 0x3A;

/// Marker of a button press: ASCII `T`.
pub const BUTTON_MARKER: u8 = 0x54;

/// Marker of a word written to the control unit: ASCII `J`.
pub const SET_WORD_MARKER: u8 = 0x4A;

/// Marker of a clock reset: ASCII `=`.
pub const RESET_CLOCK_MARKER: u8 = 0x3D;

/// The frame that asks the control unit for its status.
pub const STATUS_REQUEST: [u8; 1] = [0x3F];

/// The frame that asks the control unit for its firmware version.
pub const VERSION_REQUEST: [u8; 1] = [0x30];

/// All values sent to the control unit are added on top of this base, the
/// ASCII digit zero.
pub const VALUE_BASE: u8 = 0x30;

/// The sum of all bytes of `data`, as a mathematical integer.
pub open spec fn byte_sum(data: Seq<u8>) -> nat
    decreases data.len(),
{
    if data.len() == 0 {
        0
    } else {
        byte_sum(data.drop_last()) + data.last() as nat
    }
}

/// The low four bits of a byte.
pub open spec fn low_nibble(b: u8) -> u8 {
    b & 0x0F
}

/// The checksum of a payload: the low four bits of the sum of its bytes.
pub open spec fn checksum_of(data: Seq<u8>) -> u8 {
    (byte_sum(data) % 16) as u8
}

/// Masking a byte with `0x0F` leaves its remainder modulo 16.
pub proof fn lemma_low_nibble(b: u8)
    ensures
        low_nibble(b) == b % 16,
        low_nibble(b) < 16,
{
    assert(b & 0x0F == b % 16) by (bit_vector);
}

/// Computes the checksum of the given slice of data.
pub fn compute_checksum(data: &[u8]) -> (sum: u8)
    ensures
        sum == checksum_of(data@),
        sum < 16,
{
    let mut acc: u8 = 0;
    let mut i: usize = 0;
    while i < data.len()
        invariant
            i <= data.len(),
            acc < 16,
            acc == byte_sum(data@.take(i as int)) % 16,
        decreases data.len() - i,
    {
        let b: u8 = data[i];
        let low: u8 = b & 0x0F;
        proof {
            lemma_low_nibble(b);
            assert(data@.take(i + 1).drop_last() =~= data@.take(i as int));
            assert(data@.take(i + 1).last() == b);
        }
        acc = (acc + low) % 16;
        i = i + 1;
    }
    proof {
        assert(data@.take(i as int) =~= data@);
    }
    acc
}

/// Whether a frame carries a valid checksum: it has at least a marker and a
/// checksum byte, and the low four bits of its last byte are the checksum of
/// the bytes between the marker and the last byte.
pub open spec fn checksum_valid(frame: Seq<u8>) -> bool {
    &&& frame.len() >= 2
    &&& low_nibble(frame.last()) == checksum_of(frame.subrange(1, frame.len() - 1))
}

/// Verifies if the given data slice has a valid checksum.
pub fn check_checksum(data: &[u8]) -> (ok: bool)
    ensures
        ok == checksum_valid(data@),
{
    if data.len() < MIN_CHECKSUM_MESSAGE_LEN {
        return false;
    }
    let expected: u8 = compute_checksum(slice_subrange(data, 1, data.len() - 1));
    let actual: u8 = data[data.len() - 1] & 0x0F;
    actual == expected
}

/// Number of wire bytes that hold a packed 32-bit value.
pub const UINT32_SIZE: usize = 8;

/// The 32-bit value that eight wire bytes hold, four bits each. Of every pair
/// of adjacent bytes the second holds the higher four bits, and the pairs run
/// from the most significant to the least significant.
pub open spec fn packed_u32(data: Seq<u8>) -> nat
    recommends
        data.len() >= 8,
{
    ((data[1] % 16) * 0x1000_0000 + (data[0] % 16) * 0x100_0000 + (data[3] % 16) * 0x10_0000
        + (data[2] % 16) * 0x1_0000 + (data[5] % 16) * 0x1000 + (data[4] % 16) * 0x100 + (data[7]
        % 16) * 0x10 + (data[6] % 16)) as nat
}

proof fn lemma_packed_bits(a0: u8, a1: u8, a2: u8, a3: u8, a4: u8, a5: u8, a6: u8, a7: u8)
    by (bit_vector)
    ensures
        ((a0 & 0x0F) as u32) << 24 | ((a1 & 0x0F) as u32) << 28 | ((a2 & 0x0F) as u32) << 16 | ((a3
            & 0x0F) as u32) << 20 | ((a4 & 0x0F) as u32) << 8 | ((a5 & 0x0F) as u32) << 12 | ((a6
            & 0x0F) as u32) | ((a7 & 0x0F) as u32) << 4 == (a1 % 16) as u32 * 0x1000_0000 + (a0
            % 16) as u32 * 0x100_0000 + (a3 % 16) as u32 * 0x10_0000 + (a2 % 16) as u32 * 0x1_0000
            + (a5 % 16) as u32 * 0x1000 + (a4 % 16) as u32 * 0x100 + (a7 % 16) as u32 * 0x10 + (a6
            % 16) as u32,
{
}

/// Reads a packed 32-bit value from the first eight bytes of `data`.
pub fn decode_uint32(data: &[u8]) -> (value: u32)
    requires
        data.len() >= UINT32_SIZE,
    ensures
        value == packed_u32(data@),
{
    proof {
        lemma_packed_bits(data[0], data[1], data[2], data[3], data[4], data[5], data[6], data[7]);
    }
    ((data[0] & 0x0F) as u32) << 24 | ((data[1] & 0x0F) as u32) << 28 | ((data[2] & 0x0F) as u32)
        << 16 | ((data[3] & 0x0F) as u32) << 20 | ((data[4] & 0x0F) as u32) << 8 | ((data[5]
        & 0x0F) as u32) << 12 | ((data[6] & 0x0F) as u32) | ((data[7] & 0x0F) as u32) << 4
}

/// The wire byte of a four-bit value: the value base plus the low four bits.
pub open spec fn nibble_byte(value: u8) -> u8 {
    (VALUE_BASE + low_nibble(value)) as u8
}

/// Encodes the lower nibble of the given value as a wire byte.
pub fn encode_nibble(value: u8) -> (byte: u8)
    ensures
        byte == nibble_byte(value),
        byte == 0x30 + value % 16,
        low_nibble(byte) == low_nibble(value),
{
    proof {
        lemma_low_nibble(value);
        assert((0x30u8 + (value & 0x0F)) as u8 & 0x0F == value & 0x0F) by (bit_vector);
        assert((value & 0x0F) <= 15) by (bit_vector);
    }
    VALUE_BASE + (value & 0x0F)
}

/// The address byte of a word that belongs to one player: the player's number
/// in the three highest bits, the word's offset in the five lowest.
pub open spec fn player_address(address_offset: u8, player: u8) -> u8 {
    ((player & 0x07) << 5) | (address_offset & 0x1F)
}

/// Encodes the address of the player for writing a word.
pub fn encode_player_address(address_offset: u8, player: u8) -> (address: u8)
    ensures
        address == player_address(address_offset, player),
        address == (player % 8) * 32 + address_offset % 32,
{
    let player_validity_mask: u8 = 0x07;
    let address_validity_mask: u8 = 0x1F;
    proof {
        assert(((player & 0x07) << 5) | (address_offset & 0x1F) == (player % 8) * 32
            + address_offset % 32) by (bit_vector);
    }
    ((player & player_validity_mask) << 5) | (address_offset & address_validity_mask)
}

/// Length of a track status frame without the optional trailing bytes.
pub const TRACK_SHORT_LEN: usize = 14;

/// Length of a track status frame with the two optional trailing bytes, which
/// stand before the checksum and carry the controller count.
pub const TRACK_LONG_LEN: usize = 16;

/// Offset of the first of the eight fuel levels in a track status frame.
pub const FUEL_LEVEL_OFFSET: usize = 2;

/// Offset of the start signal in a track status frame.
pub const START_SIGNAL_OFFSET: usize = 10;

/// Offset of the track mode in a track status frame.
pub const TRACK_MODE_OFFSET: usize = 11;

/// Offset of the refueling mask in a track status frame.
pub const IS_REFUELING_OFFSET: usize = 12;

/// Offset of the controller count in a long track status frame.
pub const CONTROLLER_COUNT_OFFSET: usize = 14;

/// The refueling mask of eight slots that a wire byte stands for: its low four
/// bits, once in the low and once in the high half.
pub open spec fn refuel_mask(b: u8) -> u8 {
    (b & 0x0F) | ((b & 0x0F) << 4)
}

/// Whether the controller in `slot` is refueling, by the mask byte of a frame.
pub open spec fn is_refueling_slot(b: u8, slot: int) -> bool
    recommends
        0 <= slot < MAX_CONTROLLER_COUNT,
{
    refuel_mask(b) & (1u8 << (slot as u8)) != 0
}

/// Whether a frame is a track status: it has one of the two lengths, begins
/// with the status marker and the separator, carries a valid checksum and
/// names a start signal that exists.
pub open spec fn is_track_frame(data: Seq<u8>) -> bool {
    &&& (data.len() == TRACK_SHORT_LEN || data.len() == TRACK_LONG_LEN)
    &&& data[0] == STATUS_MARKER
    &&& data[1] == TRACK_SEPARATOR
    &&& checksum_valid(data)
    &&& StartSignal::from_code(low_nibble(data[START_SIGNAL_OFFSET as int])) is Some
}

/// The controller count that a track frame carries: the low four bits at its
/// offset in a long frame, and none, which reads as zero, in a short one.
pub open spec fn track_controller_count(data: Seq<u8>) -> u8 {
    if data.len() == TRACK_LONG_LEN {
        low_nibble(data[CONTROLLER_COUNT_OFFSET as int])
    } else {
        0
    }
}

/// Whether `status` holds, field by field, what the track frame `data` says.
pub open spec fn track_status_matches(status: TrackStatus, data: Seq<u8>) -> bool {
    &&& forall|i: int|
        0 <= i < MAX_CONTROLLER_COUNT ==> status.fuel_levels@[i] == low_nibble(
            #[trigger] data[FUEL_LEVEL_OFFSET as int + i],
        )
    &&& Some(status.start_signal) == StartSignal::from_code(
        low_nibble(data[START_SIGNAL_OFFSET as int]),
    )
    &&& status.is_fuel_enabled == (data[TRACK_MODE_OFFSET as int] & 0x01 != 0)
    &&& status.is_real_fuel_enabled == (data[TRACK_MODE_OFFSET as int] & 0x02 != 0)
    &&& status.is_pit_lane_connected == (data[TRACK_MODE_OFFSET as int] & 0x01 != 0)
    &&& status.is_lap_counter_connected == (data[TRACK_MODE_OFFSET as int] & 0x02 != 0)
    &&& forall|i: int|
        0 <= i < MAX_CONTROLLER_COUNT ==> #[trigger] status.is_refueling@[i] == is_refueling_slot(
            data[IS_REFUELING_OFFSET as int],
            i,
        )
    &&& status.controller_count == track_controller_count(data)
}

/// Decodes a track status frame. Every frame that is one gives its status,
/// and every other frame gives no value.
///
/// After the marker and the separator a frame holds the eight fuel levels,
/// the start signal, the track mode and the refueling mask, and ends with
/// its checksum. A long frame has two more bytes before the checksum, the
/// second of which is the controller count; a short frame has no controller
/// count, and its status counts none.
pub fn decode_track_status(data: &[u8]) -> (decoded: Option<TrackStatus>)
    ensures
        decoded is Some <==> is_track_frame(data@),
        decoded matches Some(status) ==> track_status_matches(status, data@),
{
    if data.len() != TRACK_SHORT_LEN && data.len() != TRACK_LONG_LEN {
        return None;
    }
    if data[0] != STATUS_MARKER || data[1] != TRACK_SEPARATOR {
        return None;
    }
    if !check_checksum(data) {
        return None;
    }
    let mut result = TrackStatus::new();

    // parse fuel levels
    let mut fuel_levels: [usize; MAX_CONTROLLER_COUNT] = [0; MAX_CONTROLLER_COUNT];
    let mut i: usize = 0;
    while i < MAX_CONTROLLER_COUNT
        invariant
            i <= MAX_CONTROLLER_COUNT,
            data.len() == TRACK_SHORT_LEN || data.len() == TRACK_LONG_LEN,
            forall|k: int|
                0 <= k < i ==> fuel_levels@[k] == low_nibble(
                    #[trigger] data@[FUEL_LEVEL_OFFSET as int + k],
                ),
        decreases MAX_CONTROLLER_COUNT - i,
    {
        let level: u8 = data[FUEL_LEVEL_OFFSET + i] & 0x0F;
        fuel_levels[i] = level as usize;
        i = i + 1;
    }
    result.fuel_levels = fuel_levels;

    // parse start light indicator
    match StartSignal::try_from(data[START_SIGNAL_OFFSET] & 0x0F) {
        Ok(start_signal) => result.start_signal = start_signal,
        Err(_) => return None,
    };

    // parse track mode
    let track_mode: u8 = data[TRACK_MODE_OFFSET];
    result.is_fuel_enabled = (track_mode & 0x01) != 0x00;
    result.is_real_fuel_enabled = (track_mode & 0x02) != 0x00;
    result.is_pit_lane_connected = (track_mode & 0x01) != 0x00;
    result.is_lap_counter_connected = (track_mode & 0x02) != 0x00;

    // parse is_refueling
    let refuel_byte: u8 = data[IS_REFUELING_OFFSET];
    let mask: u8 = (refuel_byte & 0x0F) | ((refuel_byte & 0x0F) << 4);
    let mut is_refueling: [bool; MAX_CONTROLLER_COUNT] = [false; MAX_CONTROLLER_COUNT];
    let mut j: usize = 0;
    while j < MAX_CONTROLLER_COUNT
        invariant
            j <= MAX_CONTROLLER_COUNT,
            mask == refuel_mask(refuel_byte),
            forall|k: int|
                0 <= k < j ==> #[trigger] is_refueling@[k] == is_refueling_slot(refuel_byte, k),
        decreases MAX_CONTROLLER_COUNT - j,
    {
        let bit: u8 = 1u8 << (j as u8);
        is_refueling[j] = (mask & bit) != 0x00;
        j = j + 1;
    }
    result.is_refueling = is_refueling;

    if data.len() == TRACK_LONG_LEN {
        result.controller_count = (data[CONTROLLER_COUNT_OFFSET] & 0x0F) as usize;
    }
    Some(result)
}

/// Length of a lap status frame.
pub const LAP_RESPONSE_LEN: usize = 12;

/// Offset of the controller in a lap status frame.
pub const LAP_CONTROLLER_OFFSET: usize = 1;

/// Offset of the first of the eight time bytes in a lap status frame.
pub const LAP_TIME_OFFSET: usize = 2;

/// Offset of the sector in a lap status frame.
pub const LAP_SECTOR_OFFSET: usize = 10;

/// Whether a frame is a lap status: it has the length of one, begins with the
/// status marker, carries a valid checksum and names a controller. The wire
/// counts controllers from one, so a zero names none.
pub open spec fn is_lap_frame(data: Seq<u8>) -> bool {
    &&& data.len() == LAP_RESPONSE_LEN
    &&& data[0] == STATUS_MARKER
    &&& checksum_valid(data)
    &&& low_nibble(data[LAP_CONTROLLER_OFFSET as int]) >= 1
}

/// The controller that a wire byte names. The wire counts from one and the
/// result from zero.
pub open spec fn lap_controller(b: u8) -> int
    recommends
        low_nibble(b) >= 1,
{
    low_nibble(b) - 1
}

/// The milliseconds that the time field of a lap status frame holds.
pub open spec fn lap_time_millis(data: Seq<u8>) -> nat
    recommends
        data.len() == LAP_RESPONSE_LEN,
{
    packed_u32(data.subrange(LAP_TIME_OFFSET as int, LAP_TIME_OFFSET + UINT32_SIZE))
}

/// Whether `status` holds, field by field, what the lap frame `data` says.
pub open spec fn lap_status_matches(status: LapStatus, data: Seq<u8>) -> bool {
    &&& status.controller == lap_controller(data[LAP_CONTROLLER_OFFSET as int])
    &&& status.time == duration_of_millis(lap_time_millis(data) as u64)
    &&& whole_millis(status.time) == lap_time_millis(data)
    &&& status.sector == low_nibble(data[LAP_SECTOR_OFFSET as int])
}

/// Decodes a lap status frame. Every frame that is one gives its status, and
/// every other frame gives no value; so does a frame that names no
/// controller.
pub fn decode_lap_status(data: &[u8]) -> (decoded: Option<LapStatus>)
    ensures
        decoded is Some <==> is_lap_frame(data@),
        decoded matches Some(status) ==> lap_status_matches(status, data@),
{
    if data.len() != LAP_RESPONSE_LEN {
        return None;
    }
    if data[0] != STATUS_MARKER {
        return None;
    }
    if !check_checksum(data) {
        return None;
    }
    let wire_controller: u8 = data[LAP_CONTROLLER_OFFSET] & 0x0F;
    if wire_controller == 0 {
        return None;
    }
    let mut result = LapStatus::new();

    result.controller = (wire_controller - 1) as usize;
    let millis: u32 = decode_uint32(
        slice_subrange(data, LAP_TIME_OFFSET, LAP_TIME_OFFSET + UINT32_SIZE),
    );
    result.time = duration_from_millis(millis as u64);
    result.sector = (data[LAP_SECTOR_OFFSET] & 0x0F) as usize;

    Some(result)
}

/// Decodes a status frame: as a track status if it is one, else as a lap
/// status if it is one, else not at all.
pub fn decode_status(data: &[u8]) -> (decoded: Option<Status>)
    ensures
        decoded is Some <==> is_track_frame(data@) || is_lap_frame(data@),
        decoded matches Some(Status::Track(status)) ==> is_track_frame(data@)
            && track_status_matches(status, data@),
        decoded matches Some(Status::Lap(status)) ==> !is_track_frame(data@) && is_lap_frame(data@)
            && lap_status_matches(status, data@),
        is_track_frame(data@) ==> decoded matches Some(Status::Track(_)),
{
    match decode_track_status(data) {
        Some(status) => Some(Status::Track(status)),
        None => match decode_lap_status(data) {
            Some(status) => Some(Status::Lap(status)),
            None => None,
        },
    }
}

/// Length of a version frame.
pub const VERSION_RESPONSE_LEN: usize = 6;

/// Whether a frame is a version answer: it has the length of one, begins with
/// the version marker and carries a valid checksum.
pub open spec fn is_version_frame(data: Seq<u8>) -> bool {
    &&& data.len() == VERSION_RESPONSE_LEN
    &&& data[0] == VERSION_MARKER
    &&& checksum_valid(data)
}

/// The version that a version frame holds: its four bytes after the marker,
/// each read as the character with that number.
pub open spec fn version_text(data: Seq<u8>) -> Seq<char>
    recommends
        data.len() == VERSION_RESPONSE_LEN,
{
    Seq::new(4, |i: int| data[1 + i] as char)
}

/// Decodes a version frame. Every frame that is one gives its four
/// characters, and every other frame gives no value.
pub fn decode_version(data: &[u8]) -> (decoded: Option<String>)
    ensures
        decoded is Some <==> is_version_frame(data@),
        decoded matches Some(version) ==> version@ == version_text(data@),
{
    if data.len() != VERSION_RESPONSE_LEN {
        return None;
    }
    if data[0] != VERSION_MARKER {
        return None;
    }
    if !check_checksum(data) {
        return None;
    }
    let mut result = String::new();
    let mut i: usize = 1;
    while i < data.len() - 1
        invariant
            data.len() == VERSION_RESPONSE_LEN,
            1 <= i <= 5,
            result@.len() == i - 1,
            forall|k: int| 0 <= k < i - 1 ==> result@[k] == data@[1 + k] as char,
        decreases 5 - i,
    {
        result.push(data[i] as char);
        i = i + 1;
    }
    proof {
        assert(result@ =~= version_text(data@));
    }
    Some(result)
}

/// Whether a response acknowledges a request: neither is empty and the
/// response begins with the byte that the request begins with.
pub open spec fn acknowledges(request: Seq<u8>, response: Seq<u8>) -> bool {
    response.len() > 0 && request.len() > 0 && response[0] == request[0]
}

/// Checks the answer to a command that reads nothing back: the control unit
/// echoes the first byte of the command. Nothing else of the answer is
/// looked at.
pub fn decode_empty(data_in: &[u8], data_out: &[u8]) -> (decoded: Option<()>)
    ensures
        decoded is Some <==> acknowledges(data_in@, data_out@),
{
    if data_out.len() > 0 && data_in.len() > 0 && data_out[0] == data_in[0] {
        return Some(());
    } else {
        return None;
    }
}

/// A command frame: the bytes of `head`, then the checksum of all of them,
/// the marker included. The checksum travels as every four-bit value does,
/// on the value base.
pub open spec fn with_checksum(head: Seq<u8>) -> Seq<u8> {
    head.push(nibble_byte(checksum_of(head)))
}

/// The frame that presses the button with the given number.
pub open spec fn button_press_frame(button: u8) -> Seq<u8> {
    with_checksum(seq![BUTTON_MARKER, nibble_byte(button)])
}

/// Builds the frame that presses the button with the given number.
pub fn make_button_press_request(button: u8) -> (frame: [u8; 3])
    ensures
        frame@ == button_press_frame(button),
{
    let mut result: [u8; 3] = [BUTTON_MARKER, encode_nibble(button), 0];
    let checksum: u8 = compute_checksum(slice_subrange(array_as_slice(&result), 0, 2));
    proof {
        assert(result@.subrange(0, 2) =~= seq![BUTTON_MARKER, nibble_byte(button)]);
    }
    result[2] = encode_nibble(checksum);
    proof {
        assert(result@ =~= button_press_frame(button));
    }
    result
}

/// The frame that writes the low four bits of `value` to the word at
/// `address`, `repetitions` times. The address travels as two bare halves,
/// the low one first.
pub open spec fn set_word_frame(address: u8, value: u8, repetitions: u8) -> Seq<u8> {
    with_checksum(
        seq![
            SET_WORD_MARKER,
            address & 0x0F,
            address >> 4,
            nibble_byte(value),
            nibble_byte(repetitions),
        ],
    )
}

/// Builds the frame that writes a value to a word of the control unit.
pub fn make_set_word_request(address: u8, value: u8, repetitions: u8) -> (frame: [u8; 6])
    ensures
        frame@ == set_word_frame(address, value, repetitions),
{
    let mut result: [u8; 6] = [
        SET_WORD_MARKER,
        address & 0x0F,
        address >> 4,
        encode_nibble(value),
        encode_nibble(repetitions),
        0,
    ];
    let checksum: u8 = compute_checksum(slice_subrange(array_as_slice(&result), 0, 5));
    proof {
        assert(result@.subrange(0, 5) =~= seq![
            SET_WORD_MARKER,
            address & 0x0F,
            address >> 4,
            nibble_byte(value),
            nibble_byte(repetitions),
        ]);
    }
    result[5] = encode_nibble(checksum);
    proof {
        assert(result@ =~= set_word_frame(address, value, repetitions));
    }
    result
}

/// Address of the word that resets the positions.
pub const RESET_POSITIONS_ADDRESS: u8 = 0x06;

/// Value that resets the positions.
pub const RESET_POSITIONS_VALUE: u8 = 0x09;

/// Address offset of a player's speed level.
pub const SPEED_ADDRESS_OFFSET: u8 = 0x00;

/// Address offset of a player's brake level.
pub const BRAKE_ADDRESS_OFFSET: u8 = 0x01;

/// Address offset of a player's fuel level.
pub const FUEL_ADDRESS_OFFSET: u8 = 0x02;

/// Address of the low half of the lap number.
pub const LAP_LOW_ADDRESS: u8 = 0xF2;

/// Address of the high half of the lap number.
pub const LAP_HIGH_ADDRESS: u8 = 0xF1;

/// Builds the frame that resets the positions shown on the position tower.
pub fn make_reset_positions_request() -> (frame: [u8; 6])
    ensures
        frame@ == set_word_frame(RESET_POSITIONS_ADDRESS, RESET_POSITIONS_VALUE, 1),
{
    make_set_word_request(RESET_POSITIONS_ADDRESS, RESET_POSITIONS_VALUE, 0x01)
}

/// The frame that resets the clock.
pub open spec fn reset_clock_frame() -> Seq<u8> {
    with_checksum(seq![RESET_CLOCK_MARKER, nibble_byte(1), nibble_byte(0)])
}

/// Builds the frame that resets the clock for all players.
pub fn make_reset_clock_request() -> (frame: [u8; 4])
    ensures
        frame@ == reset_clock_frame(),
{
    let mut result: [u8; 4] = [RESET_CLOCK_MARKER, encode_nibble(0x01), encode_nibble(0x00), 0];
    let checksum: u8 = compute_checksum(slice_subrange(array_as_slice(&result), 0, 3));
    proof {
        assert(result@.subrange(0, 3) =~= seq![RESET_CLOCK_MARKER, nibble_byte(1), nibble_byte(0)]);
    }
    result[3] = encode_nibble(checksum);
    proof {
        assert(result@ =~= reset_clock_frame());
    }
    result
}

/// Builds the frame that sets the speed level of a player. Of the player the
/// low three bits count, of the level the low four.
pub fn make_set_speed_level_request(player: u8, value: u8) -> (frame: [u8; 6])
    ensures
        frame@ == set_word_frame(player_address(SPEED_ADDRESS_OFFSET, player), value, 2),
{
    let word_address: u8 = encode_player_address(SPEED_ADDRESS_OFFSET, player);
    make_set_word_request(word_address, value, 0x02)
}

/// Builds the frame that sets the brake level of a player. Of the player the
/// low three bits count, of the level the low four.
pub fn make_set_brake_level_request(player: u8, value: u8) -> (frame: [u8; 6])
    ensures
        frame@ == set_word_frame(player_address(BRAKE_ADDRESS_OFFSET, player), value, 2),
{
    let word_address: u8 = encode_player_address(BRAKE_ADDRESS_OFFSET, player);
    make_set_word_request(word_address, value, 0x02)
}

/// Builds the frame that sets the fuel level of a player. Of the player the
/// low three bits count, of the level the low four.
pub fn make_set_fuel_level_request(player: u8, value: u8) -> (frame: [u8; 6])
    ensures
        frame@ == set_word_frame(player_address(FUEL_ADDRESS_OFFSET, player), value, 2),
{
    let word_address: u8 = encode_player_address(FUEL_ADDRESS_OFFSET, player);
    make_set_word_request(word_address, value, 0x02)
}

/// Builds the frame that sets the low half of the lap number.
pub fn make_set_lap_low_request(value: u8) -> (frame: [u8; 6])
    ensures
        frame@ == set_word_frame(LAP_LOW_ADDRESS, value, 1),
{
    make_set_word_request(LAP_LOW_ADDRESS, value, 0x01)
}

/// Builds the frame that sets the high half of the lap number.
pub fn make_set_lap_high_request(value: u8) -> (frame: [u8; 6])
    ensures
        frame@ == set_word_frame(LAP_HIGH_ADDRESS, value, 1),
{
    make_set_word_request(LAP_HIGH_ADDRESS, value, 0x01)
}

/// Replacing one byte changes the sum of the bytes by the difference between
/// the new byte and the old one.
pub proof fn lemma_byte_sum_update(data: Seq<u8>, i: int, b: u8)
    requires
        0 <= i < data.len(),
    ensures
        byte_sum(data.update(i, b)) == byte_sum(data) - data[i] + b,
    decreases data.len(),
{
    let changed = data.update(i, b);
    if i == data.len() - 1 {
        assert(changed.drop_last() =~= data.drop_last());
    } else {
        lemma_byte_sum_update(data.drop_last(), i, b);
        assert(changed.drop_last() =~= data.drop_last().update(i, b));
    }
}

/// A frame with a valid checksum, in which one byte between the marker and
/// the checksum is replaced, keeps a valid checksum exactly if the new byte
/// has the low four bits of the old one. So every change to the low four
/// bits of such a byte is detected.
pub proof fn lemma_checksum_detects_payload_change(frame: Seq<u8>, i: int, b: u8)
    requires
        checksum_valid(frame),
        1 <= i < frame.len() - 1,
    ensures
        checksum_valid(frame.update(i, b)) <==> low_nibble(b) == low_nibble(frame[i]),
{
    let n = frame.len() as int;
    let payload = frame.subrange(1, n - 1);
    let changed = frame.update(i, b);
    lemma_byte_sum_update(payload, i - 1, b);
    assert(changed.subrange(1, n - 1) =~= payload.update(i - 1, b));
    assert(changed.last() == frame.last());
    lemma_low_nibble(b);
    lemma_low_nibble(frame[i]);
}

/// A frame with a valid checksum, in which the checksum byte is replaced,
/// keeps a valid checksum exactly if the new byte has the low four bits of
/// the old one.
pub proof fn lemma_checksum_detects_checksum_change(frame: Seq<u8>, b: u8)
    requires
        checksum_valid(frame),
    ensures
        checksum_valid(frame.update(frame.len() - 1, b)) <==> low_nibble(b) == low_nibble(
            frame.last(),
        ),
{
    let n = frame.len() as int;
    let changed = frame.update(n - 1, b);
    assert(changed.subrange(1, n - 1) =~= frame.subrange(1, n - 1));
}

/// The marker of a frame has no part in its checksum.
pub proof fn lemma_checksum_ignores_marker(frame: Seq<u8>, b: u8)
    requires
        frame.len() >= 2,
    ensures
        checksum_valid(frame.update(0, b)) == checksum_valid(frame),
{
    let n = frame.len() as int;
    let changed = frame.update(0, b);
    assert(changed.subrange(1, n - 1) =~= frame.subrange(1, n - 1));
}

/// A four-bit value is read back from its wire byte.
pub proof fn lemma_nibble_round_trip(value: u8)
    ensures
        low_nibble(nibble_byte(value)) == low_nibble(value),
        0x30 <= nibble_byte(value) <= 0x3F,
{
    assert((0x30u8 + (value & 0x0F)) as u8 & 0x0F == value & 0x0F) by (bit_vector);
    assert((value & 0x0F) <= 15) by (bit_vector);
}

/// The address of a player's word gives back the word's offset and the
/// player: its low five bits are those of the offset, its high three bits
/// those of the player.
pub proof fn lemma_player_address_parts(address_offset: u8, player: u8)
    ensures
        player_address(address_offset, player) & 0x1F == address_offset & 0x1F,
        player_address(address_offset, player) >> 5 == player & 0x07,
{
    assert((((player & 0x07) << 5) | (address_offset & 0x1F)) & 0x1F == address_offset & 0x1F)
        by (bit_vector);
    assert((((player & 0x07) << 5) | (address_offset & 0x1F)) >> 5 == player & 0x07)
        by (bit_vector);
}

/// Two addresses of players' words are equal exactly if they agree in what
/// counts of the offset, its low five bits, and in what counts of the
/// player, its low three bits. So the words of speed, brake and fuel never
/// share an address, whichever players they belong to, and with one offset
/// the eight players have eight addresses.
pub proof fn lemma_player_addresses_disjoint(
    offset_a: u8,
    player_a: u8,
    offset_b: u8,
    player_b: u8,
)
    ensures
        player_address(offset_a, player_a) == player_address(offset_b, player_b) <==> offset_a
            % 32 == offset_b % 32 && player_a % 8 == player_b % 8,
{
    assert((((player_a & 0x07) << 5) | (offset_a & 0x1F)) == (((player_b & 0x07) << 5) | (offset_b
        & 0x1F)) <==> offset_a % 32 == offset_b % 32 && player_a % 8 == player_b % 8)
        by (bit_vector);
}

/// No frame is both a track status and a lap status, so the order in which
/// the two are tried decides nothing.
pub proof fn lemma_status_frames_exclusive(data: Seq<u8>)
    ensures
        !(is_track_frame(data) && is_lap_frame(data)),
{
}

/// Of the eight refueling slots, slot `i` and slot `i + 4` read the same
/// bit of the mask byte: bit `i` of its low half.
pub proof fn lemma_refuel_slots(b: u8, slot: u8)
    requires
        slot < 4,
    ensures
        is_refueling_slot(b, slot as int) == ((b >> slot) & 1 == 1),
        is_refueling_slot(b, slot + 4) == ((b >> slot) & 1 == 1),
{
    assert(slot < 4 ==> ((((b & 0x0F) | ((b & 0x0F) << 4)) & (1u8 << slot) != 0) == ((b >> slot) & 1
        == 1))) by (bit_vector);
    let high: u8 = (slot + 4) as u8;
    assert(slot < 4 && high == slot + 4 ==> ((((b & 0x0F) | ((b & 0x0F) << 4)) & (1u8 << high) != 0)
        == ((b >> slot) & 1 == 1))) by (bit_vector);
}

/// Every command frame is acknowledged by an answer that begins with the
/// frame's marker, whatever follows it.
pub proof fn lemma_commands_acknowledged_by_echo(head: Seq<u8>, response: Seq<u8>)
    requires
        head.len() > 0,
        response.len() > 0,
    ensures
        acknowledges(with_checksum(head), response) <==> response[0] == head[0],
{
}

/// A button press is acknowledged by every answer that begins with the
/// button marker, and by no other.
pub proof fn lemma_button_press_acknowledged(button: u8, response: Seq<u8>)
    ensures
        acknowledges(button_press_frame(button), response) <==> response.len() > 0 && response[0]
            == BUTTON_MARKER,
{
}

/// A track frame has one status only: two that hold what the frame says are
/// equal.
pub proof fn lemma_track_status_is_determined(a: TrackStatus, b: TrackStatus, data: Seq<u8>)
    requires
        track_status_matches(a, data),
        track_status_matches(b, data),
    ensures
        a == b,
{
    broadcast use vstd::array::group_array_axioms;

    assert forall|i: int| 0 <= i < MAX_CONTROLLER_COUNT implies a.fuel_levels@[i]
        == b.fuel_levels@[i] by {
        let byte = data[FUEL_LEVEL_OFFSET as int + i];
    }
    assert(a.fuel_levels@ =~= b.fuel_levels@);
    assert(a.fuel_levels == b.fuel_levels);
    assert forall|i: int| 0 <= i < MAX_CONTROLLER_COUNT implies a.is_refueling@[i]
        == b.is_refueling@[i] by {
        let slot = is_refueling_slot(data[IS_REFUELING_OFFSET as int], i);
        assert(a.is_refueling@[i] == slot);
        assert(b.is_refueling@[i] == slot);
    }
    assert(a.is_refueling@ =~= b.is_refueling@);
    assert(a.is_refueling == b.is_refueling);
}

/// A lap frame has one status only: two that hold what the frame says are
/// equal.
pub proof fn lemma_lap_status_is_determined(a: LapStatus, b: LapStatus, data: Seq<u8>)
    requires
        lap_status_matches(a, data),
        lap_status_matches(b, data),
    ensures
        a == b,
{
}

/// What a track frame says stays within four bits: every fuel level and the
/// controller count of its status are at most 15.
pub proof fn lemma_track_status_ranges(status: TrackStatus, data: Seq<u8>)
    requires
        track_status_matches(status, data),
    ensures
        forall|i: int| 0 <= i < MAX_CONTROLLER_COUNT ==> status.fuel_levels@[i] <= 15,
        status.controller_count <= 15,
{
    assert forall|i: int| 0 <= i < MAX_CONTROLLER_COUNT implies status.fuel_levels@[i] <= 15 by {
        lemma_low_nibble(data[FUEL_LEVEL_OFFSET as int + i]);
    }
    lemma_low_nibble(data[CONTROLLER_COUNT_OFFSET as int]);
}

/// What a lap frame says stays within its fields: the sector of its status
/// is at most 15, the controller at most 14, and the time fits 32 bits of
/// milliseconds.
pub proof fn lemma_lap_status_ranges(status: LapStatus, data: Seq<u8>)
    requires
        lap_status_matches(status, data),
    ensures
        status.sector <= 15,
        status.controller <= 14,
        whole_millis(status.time) <= u32::MAX,
{
    lemma_low_nibble(data[LAP_SECTOR_OFFSET as int]);
    lemma_low_nibble(data[LAP_CONTROLLER_OFFSET as int]);
}

/// The sum of the bytes is the first byte plus the sum of the others.
pub proof fn lemma_byte_sum_first(data: Seq<u8>)
    requires
        data.len() > 0,
    ensures
        byte_sum(data) == data[0] + byte_sum(data.subrange(1, data.len() as int)),
    decreases data.len(),
{
    let rest = data.subrange(1, data.len() as int);
    if data.len() == 1 {
        assert(byte_sum(data.drop_last()) == 0);
        assert(byte_sum(rest) == 0);
    } else {
        lemma_byte_sum_first(data.drop_last());
        assert(data.drop_last().subrange(1, data.len() - 1) =~= rest.drop_last());
        assert(rest.last() == data.last());
        assert(byte_sum(rest) == byte_sum(rest.drop_last()) + rest.last());
    }
}

/// The checksum of a command counts the marker, the check of an answer does
/// not: a command frame would pass as an answer exactly if the low four bits
/// of its marker are zero.
pub proof fn lemma_command_checksum_counts_marker(head: Seq<u8>)
    requires
        head.len() > 0,
    ensures
        checksum_valid(with_checksum(head)) <==> low_nibble(head[0]) == 0,
{
    let frame = with_checksum(head);
    lemma_byte_sum_first(head);
    assert(frame.subrange(1, frame.len() - 1) =~= head.subrange(1, head.len() as int));
    lemma_low_nibble(head[0]);
    lemma_nibble_round_trip(checksum_of(head));
    lemma_low_nibble(checksum_of(head));
}

} // verus!
