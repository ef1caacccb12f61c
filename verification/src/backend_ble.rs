//! The decisions of a bluetooth low energy backend: which endpoints of a
//! device to talk to, how to bring a notification into the common frame
//! layout, which device is a control unit and when a scan ends. The
//! bluetooth stack itself is not part of the library: a backend hands these
//! functions what the stack reported.

use vstd::prelude::*;

use crate::error::Error;

verus! {

/// Identifier of the service that a control unit offers.
pub const SERVICE_UUID: u128 = 0x39df7777_b1b4_b90b_57f1_7144ae4e4a6a;

/// Identifier of the characteristic on which a control unit answers.
pub const NOTIFY_UUID: u128 = 0x39df9999_b1b4_b90b_57f1_7144ae4e4a6a;

/// Identifier of the characteristic to which requests are written.
pub const OUTPUT_UUID: u128 = 0x39df8888_b1b4_b90b_57f1_7144ae4e4a6a;

/// The byte with which a notification ends when it leaves out the command
/// byte: ASCII `$`.
pub const NOTIFICATION_END: u8 = 0x24;

/// A characteristic of a device, by its identifiers.
pub struct Characteristic {
    /// The identifier of the characteristic.
    pub uuid: u128,
    /// The identifier of the service that the characteristic belongs to.
    pub service_uuid: u128,
}

/// A service of a device, with its characteristics in the order in which the
/// device lists them.
pub struct Service {
    /// The identifier of the service.
    pub uuid: u128,
    /// The characteristics of the service.
    pub characteristics: Vec<Characteristic>,
}

/// The endpoints of a connection, as positions: that of the service among
/// the services, and those of the two characteristics among the
/// characteristics of that service.
#[derive(Debug, Clone, Copy, PartialEq, Eq, Structural)]
pub struct EndpointsBLE {
    /// Position of the control unit's service.
    pub service: usize,
    /// Position of the characteristic on which answers arrive.
    pub notify_char: usize,
    /// Position of the characteristic to which requests are written.
    pub output_char: usize,
}

/// Maps whatever ended a wait to the error of a timeout.
pub fn as_timeout_error<E>(_cause: E) -> (error: Error)
    ensures
        error == Error::TimedOut,
{
    Error::TimedOut
}

/// The outcome of an operation that was given a time limit: what the
/// operation returned if it finished in time, whatever that is, and the
/// error of a timeout if the limit ended it.
pub fn within_timeout<R, E>(outcome: Result<R, E>) -> (result: Result<R, Error>)
    ensures
        result == match outcome {
            Ok(finished) => Ok::<R, Error>(finished),
            Err(_) => Err::<R, Error>(Error::TimedOut),
        },
{
    match outcome {
        Ok(finished) => Ok(finished),
        Err(elapsed) => Err(as_timeout_error(elapsed)),
    }
}

/// Whether a service is the one that a control unit offers.
pub open spec fn is_unit_service(service: Service) -> bool {
    service.uuid == SERVICE_UUID
}

/// Whether a characteristic is the one on which a control unit answers.
pub open spec fn is_notify_char(characteristic: Characteristic) -> bool {
    characteristic.uuid == NOTIFY_UUID
}

/// Whether a characteristic is the one to which requests are written.
pub open spec fn is_output_char(characteristic: Characteristic) -> bool {
    characteristic.service_uuid == SERVICE_UUID && characteristic.uuid == OUTPUT_UUID
}

/// Whether `i` is the position of the first item of `items` that meets
/// `wanted`.
pub open spec fn is_first<A>(items: Seq<A>, wanted: spec_fn(A) -> bool, i: int) -> bool {
    &&& 0 <= i < items.len()
    &&& wanted(items[i])
    &&& forall|k: int| 0 <= k < i ==> !wanted(#[trigger] items[k])
}

/// Whether no item of `items` meets `wanted`.
pub open spec fn has_none<A>(items: Seq<A>, wanted: spec_fn(A) -> bool) -> bool {
    forall|k: int| 0 <= k < items.len() ==> !wanted(#[trigger] items[k])
}

/// Whether `endpoints` are the endpoints of a device with the given
/// services: the first service of a control unit, and in it the first
/// characteristic of each kind.
pub open spec fn are_endpoints(services: Seq<Service>, endpoints: EndpointsBLE) -> bool {
    &&& is_first(services, |s: Service| is_unit_service(s), endpoints.service as int)
    &&& is_first(
        services[endpoints.service as int].characteristics@,
        |c: Characteristic| is_notify_char(c),
        endpoints.notify_char as int,
    )
    &&& is_first(
        services[endpoints.service as int].characteristics@,
        |c: Characteristic| is_output_char(c),
        endpoints.output_char as int,
    )
}

/// Whether a device with the given services has endpoints: it offers the
/// service of a control unit, and the first such service holds a
/// characteristic of each kind.
pub open spec fn has_endpoints(services: Seq<Service>) -> bool {
    exists|endpoints: EndpointsBLE| are_endpoints(services, endpoints)
}

/// The position of the first characteristic to answer on, if there is one.
fn find_notify_char(characteristics: &Vec<Characteristic>) -> (found: Option<usize>)
    ensures
        match found {
            Some(i) => is_first(characteristics@, |c: Characteristic| is_notify_char(c), i as int),
            None => has_none(characteristics@, |c: Characteristic| is_notify_char(c)),
        },
{
    let mut i: usize = 0;
    while i < characteristics.len()
        invariant
            i <= characteristics.len(),
            forall|k: int| 0 <= k < i ==> !is_notify_char(#[trigger] characteristics@[k]),
        decreases characteristics.len() - i,
    {
        if characteristics[i].uuid == NOTIFY_UUID {
            return Some(i);
        }
        i = i + 1;
    }
    None
}

/// The position of the first characteristic to write to, if there is one.
fn find_output_char(characteristics: &Vec<Characteristic>) -> (found: Option<usize>)
    ensures
        match found {
            Some(i) => is_first(characteristics@, |c: Characteristic| is_output_char(c), i as int),
            None => has_none(characteristics@, |c: Characteristic| is_output_char(c)),
        },
{
    let mut i: usize = 0;
    while i < characteristics.len()
        invariant
            i <= characteristics.len(),
            forall|k: int| 0 <= k < i ==> !is_output_char(#[trigger] characteristics@[k]),
        decreases characteristics.len() - i,
    {
        if characteristics[i].service_uuid == SERVICE_UUID && characteristics[i].uuid
            == OUTPUT_UUID {
            return Some(i);
        }
        i = i + 1;
    }
    None
}

/// The position of the first service of a control unit, if there is one.
fn find_unit_service(services: &Vec<Service>) -> (found: Option<usize>)
    ensures
        match found {
            Some(i) => is_first(services@, |s: Service| is_unit_service(s), i as int),
            None => has_none(services@, |s: Service| is_unit_service(s)),
        },
{
    let mut i: usize = 0;
    while i < services.len()
        invariant
            i <= services.len(),
            forall|k: int| 0 <= k < i ==> !is_unit_service(#[trigger] services@[k]),
        decreases services.len() - i,
    {
        if services[i].uuid == SERVICE_UUID {
            return Some(i);
        }
        i = i + 1;
    }
    None
}

/// Picks the endpoints of a connection among the services that a device
/// offers: the first service of a control unit, and in it the first
/// characteristic to answer on and the first to write to. A device that
/// lacks one of the three has no endpoints.
pub fn find_endpoints(services: &Vec<Service>) -> (found: Option<EndpointsBLE>)
    ensures
        found is Some <==> has_endpoints(services@),
        found matches Some(endpoints) ==> are_endpoints(services@, endpoints),
{
    let service = match find_unit_service(services) {
        Some(i) => i,
        None => {
            return None;
        },
    };
    let notify_char = match find_notify_char(&services[service].characteristics) {
        Some(i) => i,
        None => {
            proof {
                lemma_endpoints_service(services@, service as int);
            }
            return None;
        },
    };
    let output_char = match find_output_char(&services[service].characteristics) {
        Some(i) => i,
        None => {
            proof {
                lemma_endpoints_service(services@, service as int);
            }
            return None;
        },
    };
    let endpoints = EndpointsBLE { service, notify_char, output_char };
    proof {
        assert(are_endpoints(services@, endpoints));
    }
    Some(endpoints)
}

/// The first item that meets a condition is at one position only.
pub proof fn lemma_first_is_unique<A>(items: Seq<A>, wanted: spec_fn(A) -> bool, i: int, j: int)
    requires
        is_first(items, wanted, i),
        is_first(items, wanted, j),
    ensures
        i == j,
{
}

/// Whatever endpoints a device has lie in its first service of a control
/// unit.
proof fn lemma_endpoints_service(services: Seq<Service>, service: int)
    requires
        is_first(services, |s: Service| is_unit_service(s), service),
    ensures
        forall|endpoints: EndpointsBLE| #[trigger]
            are_endpoints(services, endpoints) ==> endpoints.service == service,
{
    assert forall|endpoints: EndpointsBLE| #[trigger]
        are_endpoints(services, endpoints) implies endpoints.service == service by {
        lemma_first_is_unique(
            services,
            |s: Service| is_unit_service(s),
            service,
            endpoints.service as int,
        );
    }
}

/// A device has at most one choice of endpoints.
pub proof fn lemma_endpoints_are_unique(services: Seq<Service>, a: EndpointsBLE, b: EndpointsBLE)
    requires
        are_endpoints(services, a),
        are_endpoints(services, b),
    ensures
        a == b,
{
}

/// A notification in the common frame layout. A notification that ends with
/// the end byte leaves out the command byte with which an answer begins: it
/// loses the end byte and gets the first byte of the request in front. Any
/// other notification is in the common layout already.
pub open spec fn normalized(request: Seq<u8>, notification: Seq<u8>) -> Seq<u8>
    recommends
        needs_command_byte(notification) ==> request.len() > 0,
{
    if needs_command_byte(notification) {
        seq![request[0]] + notification.drop_last()
    } else {
        notification
    }
}

/// Whether a notification ends with the end byte, and so leaves out the
/// command byte.
pub open spec fn needs_command_byte(notification: Seq<u8>) -> bool {
    notification.len() > 0 && notification.last() == NOTIFICATION_END
}

/// Brings a notification into the common frame layout. The request must
/// hold the command byte where the notification leaves it out.
pub fn normalize_response(request: &[u8], notification: Vec<u8>) -> (response: Vec<u8>)
    requires
        needs_command_byte(notification@) ==> request@.len() > 0,
    ensures
        response@ == normalized(request@, notification@),
{
    let mut result = notification;
    if !result.is_empty() && result[result.len() - 1] == NOTIFICATION_END {
        result.truncate(result.len() - 1);
        result.insert(0, request[0]);
        proof {
            assert(result@ =~= normalized(request@, notification@));
        }
    }
    result
}

/// The message of the error that a missing notification gives.
pub open spec fn no_response_message() -> Seq<char> {
    "no response"@
}

/// Whether `result` is the outcome of a request with the given frame to
/// which the device sent `notification`, or none: the normalized
/// notification, or a runtime error that says that no response came.
pub open spec fn is_notified_response(
    request: Seq<u8>,
    notification: Option<Seq<u8>>,
    result: Result<Vec<u8>, Error>,
) -> bool {
    match notification {
        Some(bytes) => result matches Ok(response) && response@ == normalized(request, bytes),
        None => result matches Err(Error::RuntimeError(message)) && message@
            == no_response_message(),
    }
}

/// The notification as a sequence of bytes, if there is one.
pub open spec fn notification_view(notification: Option<Vec<u8>>) -> Option<Seq<u8>> {
    match notification {
        Some(bytes) => Some(bytes@),
        None => None,
    }
}

/// The outcome of a request, from the notification that the device sent or
/// the lack of one.
pub fn response_from_notification(request: &[u8], notification: Option<Vec<u8>>) -> (result: Result<
    Vec<u8>,
    Error,
>)
    requires
        notification matches Some(bytes) && needs_command_byte(bytes@) ==> request@.len() > 0,
    ensures
        is_notified_response(request@, notification_view(notification), result),
{
    match notification {
        Some(bytes) => Ok(normalize_response(request, bytes)),
        None => Err(Error::RuntimeError("no response".to_owned())),
    }
}

/// The name under which a control unit announces itself.
pub open spec fn control_unit_name() -> Seq<char> {
    "Control_Unit"@
}

/// Determines if a device with the given name, or with none, is a control
/// unit.
pub fn is_control_unit(local_name: Option<&str>) -> (is_unit: bool)
    ensures
        is_unit <==> (local_name matches Some(name) && name@ == control_unit_name()),
{
    match local_name {
        Some(name) => name.to_owned() == "Control_Unit".to_owned(),
        None => false,
    }
}

/// What a scan for a control unit does after an event.
#[derive(Debug, Clone, Copy, PartialEq, Eq, Structural)]
pub enum ScanStep {
    /// A control unit was discovered: the scan stops and hands it out.
    Found,
    /// The scan waits for the next event.
    Continue,
    /// The time is up: the scan stops without a control unit.
    GiveUp,
}

/// Decides how a scan goes on after an event. `discovered_unit` says whether
/// the event was the discovery of a control unit, `expired` whether the scan
/// has by now run for longer than its timeout. A discovery counts even when
/// the time is up.
pub fn scan_step(discovered_unit: bool, expired: bool) -> (step: ScanStep)
    ensures
        step == if discovered_unit {
            ScanStep::Found
        } else if expired {
            ScanStep::GiveUp
        } else {
            ScanStep::Continue
        },
{
    if discovered_unit {
        ScanStep::Found
    } else if expired {
        ScanStep::GiveUp
    } else {
        ScanStep::Continue
    }
}

} // verus!
