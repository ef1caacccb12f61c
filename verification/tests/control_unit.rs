use std::collections::VecDeque;
use std::time::Duration;

use carrlink::control_unit::{
    byte_of, decode_result_to_error, empty_from_reply, status_from_reply, version_from_reply,
};
use carrlink::{Backend, ControlUnit, Error, StartSignal, Status};

/// A backend that records what it is asked and answers from a script.
struct Script {
    replies: VecDeque<Result<Vec<u8>, Error>>,
    requests: Vec<(Vec<u8>, Duration)>,
    connects: usize,
    disconnects: usize,
    connected: bool,
}

impl Script {
    fn new(replies: Vec<Result<Vec<u8>, Error>>) -> Script {
        Script {
            replies: replies.into(),
            requests: Vec::new(),
            connects: 0,
            disconnects: 0,
            connected: false,
        }
    }
}

impl Backend for Script {
    fn connect(&mut self) -> Result<(), Error> {
        self.connects += 1;
        self.connected = true;
        Ok(())
    }

    fn disconnect(&mut self) -> Result<(), Error> {
        self.disconnects += 1;
        if self.connected {
            self.connected = false;
            Ok(())
        } else {
            Err(Error::NotConnected)
        }
    }

    fn is_connected(&self) -> Result<bool, Error> {
        Ok(self.connected)
    }

    fn request(&mut self, data: &[u8], timeout: Duration) -> Result<Vec<u8>, Error> {
        self.requests.push((data.to_vec(), timeout));
        match self.replies.pop_front() {
            Some(reply) => reply,
            None => Err(Error::TimedOut),
        }
    }
}

/// A control unit over a script, and a view of what the script recorded.
struct Bench {
    unit: ControlUnit<Shared>,
    script: std::rc::Rc<std::cell::RefCell<Script>>,
}

/// A backend that shares its script with the test.
struct Shared(std::rc::Rc<std::cell::RefCell<Script>>);

impl Backend for Shared {
    fn connect(&mut self) -> Result<(), Error> {
        self.0.borrow_mut().connect()
    }

    fn disconnect(&mut self) -> Result<(), Error> {
        self.0.borrow_mut().disconnect()
    }

    fn is_connected(&self) -> Result<bool, Error> {
        self.0.borrow().is_connected()
    }

    fn request(&mut self, data: &[u8], timeout: Duration) -> Result<Vec<u8>, Error> {
        self.0.borrow_mut().request(data, timeout)
    }
}

fn bench(replies: Vec<Result<Vec<u8>, Error>>) -> Bench {
    let script = std::rc::Rc::new(std::cell::RefCell::new(Script::new(replies)));
    Bench {
        unit: ControlUnit::new(Shared(script.clone())),
        script,
    }
}

fn sent(bench: &Bench) -> Vec<Vec<u8>> {
    bench
        .script
        .borrow()
        .requests
        .iter()
        .map(|(data, _)| data.clone())
        .collect()
}

fn lap_frame() -> Vec<u8> {
    vec![0x3F, 0x33, 0x31, 0x32, 0x33, 0x34, 0x35, 0x36, 0x37, 0x38, 0x31, 0x38]
}

fn track_frame() -> Vec<u8> {
    vec![
        0x3F, 0x3A, 0x31, 0x32, 0x33, 0x34, 0x35, 0x36, 0x37, 0x38, 0x37, 0x31, 0x35, 0x3B,
    ]
}

#[test]
fn decode_result_maps_no_value_to_invalid_response() {
    assert!(matches!(decode_result_to_error(Some(7u8)), Ok(7)));
    assert!(matches!(
        decode_result_to_error::<u8>(None),
        Err(Error::InvalidResponse)
    ));
}

#[test]
fn byte_of_keeps_the_low_eight_bits() {
    assert_eq!(byte_of(0), 0);
    assert_eq!(byte_of(255), 255);
    assert_eq!(byte_of(256), 0);
    assert_eq!(byte_of(0x1234), 0x34);
    assert_eq!(byte_of(usize::MAX), 0xFF);
}

#[test]
fn status_reply_is_decoded_or_refused() {
    match status_from_reply(Ok(track_frame())) {
        Ok(Status::Track(status)) => assert_eq!(status.start_signal, StartSignal::Go),
        _ => panic!("expected a track status"),
    }
    match status_from_reply(Ok(lap_frame())) {
        Ok(Status::Lap(status)) => assert_eq!(status.time, Duration::from_millis(558_065_031)),
        _ => panic!("expected a lap status"),
    }
    assert!(matches!(
        status_from_reply(Ok(vec![0x3F, 0x00, 0x01])),
        Err(Error::InvalidResponse)
    ));
    assert!(matches!(
        status_from_reply(Err(Error::TimedOut)),
        Err(Error::TimedOut)
    ));
    assert!(matches!(
        status_from_reply(Err(Error::NotConnected)),
        Err(Error::NotConnected)
    ));
}

#[test]
fn version_reply_is_decoded_or_refused() {
    assert_eq!(
        version_from_reply(Ok(b"053372".to_vec())).unwrap(),
        "5337"
    );
    assert!(matches!(
        version_from_reply(Ok(b"053373".to_vec())),
        Err(Error::InvalidResponse)
    ));
    assert!(matches!(
        version_from_reply(Err(Error::NoResponse)),
        Err(Error::NoResponse)
    ));
}

#[test]
fn empty_reply_is_checked_against_the_request() {
    assert!(matches!(
        empty_from_reply(&[0x54, 0x31, 0x35], Ok(vec![0x54, 0x00])),
        Ok(())
    ));
    assert!(matches!(
        empty_from_reply(&[0x54, 0x31, 0x35], Ok(vec![0x55, 0x00])),
        Err(Error::InvalidResponse)
    ));
    assert!(matches!(
        empty_from_reply(&[0x54, 0x31, 0x35], Ok(vec![])),
        Err(Error::InvalidResponse)
    ));
    match empty_from_reply(&[0x54], Err(Error::RuntimeError("lost".to_string()))) {
        Err(Error::RuntimeError(message)) => assert_eq!(message, "lost"),
        _ => panic!("expected the backend's error"),
    }
}

#[test]
fn new_unit_uses_two_seconds() {
    let mut bench = bench(vec![Ok(vec![0x54])]);
    bench.unit.press_enter().unwrap();
    let script = bench.script.borrow();
    assert_eq!(script.requests.len(), 1);
    assert_eq!(script.requests[0].1, Duration::from_secs(2));
}

#[test]
fn set_timeout_reaches_the_backend() {
    let mut bench = bench(vec![Ok(vec![0x54]), Ok(vec![0x54])]);
    bench.unit.set_timeout(Duration::from_millis(250));
    bench.unit.press_enter().unwrap();
    bench.unit.set_timeout(Duration::from_secs(9));
    bench.unit.press_enter().unwrap();
    let script = bench.script.borrow();
    assert_eq!(script.requests[0].1, Duration::from_millis(250));
    assert_eq!(script.requests[1].1, Duration::from_secs(9));
}

#[test]
fn connection_calls_are_delegated() {
    let mut bench = bench(vec![]);
    assert!(matches!(bench.unit.is_connected(), Ok(false)));
    assert!(matches!(bench.unit.disconnect(), Err(Error::NotConnected)));
    assert!(matches!(bench.unit.connect(), Ok(())));
    assert!(matches!(bench.unit.is_connected(), Ok(true)));
    assert!(matches!(bench.unit.disconnect(), Ok(())));
    assert!(matches!(bench.unit.is_connected(), Ok(false)));
    let script = bench.script.borrow();
    assert_eq!(script.connects, 1);
    assert_eq!(script.disconnects, 2);
    assert!(script.requests.is_empty());
}

#[test]
fn get_status_sends_the_status_frame() {
    let mut bench = bench(vec![Ok(track_frame()), Ok(lap_frame())]);
    match bench.unit.get_status() {
        Ok(Status::Track(status)) => assert_eq!(status.fuel_levels, [1, 2, 3, 4, 5, 6, 7, 8]),
        _ => panic!("expected a track status"),
    }
    match bench.unit.get_status() {
        Ok(Status::Lap(status)) => assert_eq!(status.controller, 2),
        _ => panic!("expected a lap status"),
    }
    assert_eq!(sent(&bench), vec![vec![b'?'], vec![b'?']]);
}

#[test]
fn get_status_refuses_a_corrupted_frame() {
    let mut frame = track_frame();
    frame[13] ^= 0x01;
    let mut bench = bench(vec![Ok(frame)]);
    assert!(matches!(
        bench.unit.get_status(),
        Err(Error::InvalidResponse)
    ));
}

#[test]
fn silent_backend_surfaces_as_timed_out() {
    let mut bench = bench(vec![]);
    assert!(matches!(bench.unit.get_status(), Err(Error::TimedOut)));
    assert!(matches!(bench.unit.get_version(), Err(Error::TimedOut)));
    assert!(matches!(bench.unit.press_enter(), Err(Error::TimedOut)));
    assert!(matches!(bench.unit.set_lap(1), Err(Error::TimedOut)));
    // Nothing is retried: one request each, and set_lap stops after its first.
    assert_eq!(sent(&bench).len(), 4);
}

#[test]
fn get_version_sends_the_version_frame() {
    let mut bench = bench(vec![Ok(b"053372".to_vec())]);
    assert_eq!(bench.unit.get_version().unwrap(), "5337");
    assert_eq!(sent(&bench), vec![vec![b'0']]);
}

#[test]
fn buttons_send_their_numbers() {
    let echo = || Ok(vec![b'T', b'$']);
    let mut bench = bench(vec![echo(), echo(), echo(), echo(), echo(), echo(), echo()]);
    bench.unit.press_esc().unwrap();
    bench.unit.press_enter().unwrap();
    bench.unit.press_speed().unwrap();
    bench.unit.press_brake().unwrap();
    bench.unit.press_fuel().unwrap();
    bench.unit.press_code().unwrap();
    bench.unit.press_button(3).unwrap();
    assert_eq!(
        sent(&bench),
        vec![
            vec![0x54, 0x31, 0x35],
            vec![0x54, 0x32, 0x36],
            vec![0x54, 0x35, 0x39],
            vec![0x54, 0x36, 0x3A],
            vec![0x54, 0x37, 0x3B],
            vec![0x54, 0x38, 0x3C],
            vec![0x54, 0x33, 0x37],
        ]
    );
}

#[test]
fn button_press_needs_the_echo() {
    let mut bench = bench(vec![Ok(vec![b'J']), Ok(vec![])]);
    assert!(matches!(
        bench.unit.press_enter(),
        Err(Error::InvalidResponse)
    ));
    assert!(matches!(
        bench.unit.press_enter(),
        Err(Error::InvalidResponse)
    ));
}

#[test]
fn resets_send_their_frames() {
    let mut bench = bench(vec![Ok(vec![b'J']), Ok(vec![b'='])]);
    bench.unit.reset_positions().unwrap();
    bench.unit.reset_clock().unwrap();
    assert_eq!(
        sent(&bench),
        vec![
            vec![0x4A, 0x06, 0x00, 0x39, 0x31, 0x3A],
            vec![0x3D, 0x31, 0x30, 0x3E],
        ]
    );
}

#[test]
fn levels_send_player_and_value() {
    let echo = || Ok(vec![b'J']);
    let mut bench = bench(vec![echo(), echo(), echo(), echo()]);
    bench.unit.set_speed_level(7, 15).unwrap();
    bench.unit.set_brake_level(0, 5).unwrap();
    bench.unit.set_fuel_level(7, 15).unwrap();
    // Out of range: player 8 is player 0, level 21 is level 5.
    bench.unit.set_speed_level(8 + 256, 21).unwrap();
    assert_eq!(
        sent(&bench),
        vec![
            vec![0x4A, 0x00, 0x0E, 0x3F, 0x32, 0x39],
            vec![0x4A, 0x01, 0x00, 0x35, 0x32, 0x32],
            vec![0x4A, 0x02, 0x0E, 0x3F, 0x32, 0x3B],
            vec![0x4A, 0x00, 0x00, 0x35, 0x32, 0x31],
        ]
    );
}

#[test]
fn set_lap_sends_high_half_then_low_half() {
    let mut bench = bench(vec![Ok(vec![b'J']), Ok(vec![b'J'])]);
    bench.unit.set_lap(0x2B).unwrap();
    assert_eq!(
        sent(&bench),
        vec![
            // address 0xF1, value 2: 74 + 1 + 15 + 50 + 49 = 189
            vec![0x4A, 0x01, 0x0F, 0x32, 0x31, 0x3D],
            // address 0xF2, value 11: 74 + 2 + 15 + 59 + 49 = 199
            vec![0x4A, 0x02, 0x0F, 0x3B, 0x31, 0x37],
        ]
    );
}

#[test]
fn set_lap_keeps_the_low_eight_bits() {
    let mut bench = bench(vec![Ok(vec![b'J']), Ok(vec![b'J'])]);
    bench.unit.set_lap(0x32B).unwrap();
    let frames = sent(&bench);
    assert_eq!(frames[0][3], 0x32);
    assert_eq!(frames[1][3], 0x3B);
}

#[test]
fn set_lap_stops_at_the_first_failure() {
    let mut bench = bench(vec![Err(Error::NotConnected), Ok(vec![b'J'])]);
    assert!(matches!(bench.unit.set_lap(0x2B), Err(Error::NotConnected)));
    assert_eq!(sent(&bench).len(), 1);

    let mut bench = bench_with_bad_echo();
    assert!(matches!(
        bench.unit.set_lap(0x2B),
        Err(Error::InvalidResponse)
    ));
    assert_eq!(sent(&bench).len(), 1);
}

fn bench_with_bad_echo() -> Bench {
    bench(vec![Ok(vec![b'T']), Ok(vec![b'J'])])
}

#[test]
fn set_lap_reports_a_failure_of_the_second_request() {
    let mut bench = bench(vec![Ok(vec![b'J']), Err(Error::TimedOut)]);
    assert!(matches!(bench.unit.set_lap(0x2B), Err(Error::TimedOut)));
    // The high half went out and was acknowledged; it is not taken back.
    assert_eq!(sent(&bench).len(), 2);
}
