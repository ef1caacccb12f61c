use carrlink::backend_ble::{
    as_timeout_error, find_endpoints, is_control_unit, normalize_response,
    response_from_notification, scan_step, within_timeout, Characteristic, EndpointsBLE, ScanStep,
    Service, NOTIFY_UUID, OUTPUT_UUID, SERVICE_UUID,
};
use carrlink::Error;

fn characteristic(uuid: u128, service_uuid: u128) -> Characteristic {
    Characteristic { uuid, service_uuid }
}

fn unit_service() -> Service {
    Service {
        uuid: SERVICE_UUID,
        characteristics: vec![
            characteristic(OUTPUT_UUID, SERVICE_UUID),
            characteristic(NOTIFY_UUID, SERVICE_UUID),
        ],
    }
}

#[test]
fn identifiers_are_those_of_the_control_unit() {
    assert_eq!(
        format!("{:032x}", SERVICE_UUID),
        "39df7777b1b4b90b57f17144ae4e4a6a"
    );
    assert_eq!(
        format!("{:032x}", NOTIFY_UUID),
        "39df9999b1b4b90b57f17144ae4e4a6a"
    );
    assert_eq!(
        format!("{:032x}", OUTPUT_UUID),
        "39df8888b1b4b90b57f17144ae4e4a6a"
    );
}

#[test]
fn identifiers_read_as_uuids() {
    let parsed = |text: &str| uuid::Uuid::parse_str(text).unwrap().as_u128();
    assert_eq!(parsed("39df7777-b1b4-b90b-57f1-7144ae4e4a6a"), SERVICE_UUID);
    assert_eq!(parsed("39df9999-b1b4-b90b-57f1-7144ae4e4a6a"), NOTIFY_UUID);
    assert_eq!(parsed("39df8888-b1b4-b90b-57f1-7144ae4e4a6a"), OUTPUT_UUID);
}

#[test]
fn timeout_error_ignores_its_cause() {
    assert!(matches!(as_timeout_error(()), Error::TimedOut));
    assert!(matches!(as_timeout_error("elapsed"), Error::TimedOut));
    assert!(matches!(as_timeout_error(Error::NoResponse), Error::TimedOut));
}

#[test]
fn within_timeout_keeps_what_finished() {
    assert!(matches!(within_timeout::<u8, ()>(Ok(3)), Ok(3)));
    let failed: Result<u8, &str> = Err("refused");
    assert!(matches!(
        within_timeout::<Result<u8, &str>, ()>(Ok(failed)),
        Ok(Err("refused"))
    ));
    assert!(matches!(
        within_timeout::<Result<u8, &str>, ()>(Err(())),
        Err(Error::TimedOut)
    ));
}

#[test]
fn endpoints_are_found_by_identifier() {
    let services = vec![
        Service {
            uuid: 0x1800,
            characteristics: vec![characteristic(NOTIFY_UUID, 0x1800)],
        },
        unit_service(),
    ];
    assert_eq!(
        find_endpoints(&services),
        Some(EndpointsBLE {
            service: 1,
            notify_char: 1,
            output_char: 0
        })
    );
}

#[test]
fn endpoints_are_the_first_of_their_kind() {
    let services = vec![
        Service {
            uuid: SERVICE_UUID,
            characteristics: vec![
                characteristic(0x2A00, SERVICE_UUID),
                characteristic(NOTIFY_UUID, 0x1800),
                characteristic(OUTPUT_UUID, 0x1800),
                characteristic(NOTIFY_UUID, SERVICE_UUID),
                characteristic(OUTPUT_UUID, SERVICE_UUID),
                characteristic(OUTPUT_UUID, SERVICE_UUID),
            ],
        },
        unit_service(),
    ];
    // For answers the identifier alone counts; for requests the service too.
    assert_eq!(
        find_endpoints(&services),
        Some(EndpointsBLE {
            service: 0,
            notify_char: 1,
            output_char: 4
        })
    );
}

#[test]
fn endpoints_need_service_and_both_characteristics() {
    assert_eq!(find_endpoints(&vec![]), None);
    let other = vec![Service {
        uuid: 0x1800,
        characteristics: vec![
            characteristic(OUTPUT_UUID, SERVICE_UUID),
            characteristic(NOTIFY_UUID, SERVICE_UUID),
        ],
    }];
    assert_eq!(find_endpoints(&other), None);
    let no_notify = vec![Service {
        uuid: SERVICE_UUID,
        characteristics: vec![characteristic(OUTPUT_UUID, SERVICE_UUID)],
    }];
    assert_eq!(find_endpoints(&no_notify), None);
    let no_output = vec![Service {
        uuid: SERVICE_UUID,
        characteristics: vec![
            characteristic(NOTIFY_UUID, SERVICE_UUID),
            characteristic(OUTPUT_UUID, 0x1800),
        ],
    }];
    assert_eq!(find_endpoints(&no_output), None);
}

#[test]
fn endpoints_are_not_sought_beyond_the_first_unit_service() {
    let services = vec![
        Service {
            uuid: SERVICE_UUID,
            characteristics: vec![],
        },
        unit_service(),
    ];
    assert_eq!(find_endpoints(&services), None);
}

#[test]
fn notification_with_end_byte_gets_the_command_byte() {
    assert_eq!(
        normalize_response(&[b'?'], vec![b':', b'1', b'2', b'$']),
        vec![b'?', b':', b'1', b'2']
    );
    assert_eq!(normalize_response(&[b'T', b'1', 5], vec![b'$']), vec![b'T']);
}

#[test]
fn notification_without_end_byte_is_kept() {
    assert_eq!(
        normalize_response(&[b'?'], vec![b'?', b':', b'1']),
        vec![b'?', b':', b'1']
    );
    assert_eq!(normalize_response(&[b'?'], vec![]), Vec::<u8>::new());
    assert_eq!(normalize_response(&[], vec![b'$', b'1']), vec![b'$', b'1']);
    assert_eq!(normalize_response(&[], vec![]), Vec::<u8>::new());
}

#[test]
fn missing_notification_is_a_runtime_error() {
    match response_from_notification(&[b'?'], None) {
        Err(Error::RuntimeError(message)) => assert_eq!(message, "no response"),
        _ => panic!("expected a runtime error"),
    }
    assert_eq!(
        response_from_notification(&[b'0'], Some(b"53372$".to_vec())).unwrap(),
        b"053372".to_vec()
    );
}

#[test]
fn control_unit_is_known_by_its_name() {
    assert!(is_control_unit(Some("Control_Unit")));
    assert!(!is_control_unit(Some("Control_Unit ")));
    assert!(!is_control_unit(Some("control_unit")));
    assert!(!is_control_unit(Some("")));
    assert!(!is_control_unit(None));
}

#[test]
fn scan_goes_on_until_a_unit_or_the_timeout() {
    assert_eq!(scan_step(false, false), ScanStep::Continue);
    assert_eq!(scan_step(false, true), ScanStep::GiveUp);
    assert_eq!(scan_step(true, false), ScanStep::Found);
    assert_eq!(scan_step(true, true), ScanStep::Found);
}
