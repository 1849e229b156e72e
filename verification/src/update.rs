//! The decisions of an update session: which device is meant, what is
//! asked of it, and what its one reply amounts to.

use vstd::prelude::*;
use vstd::string::*;
use crate::codec::{encode, encode_spec};
use crate::password::{digest_text, Password};
use crate::probe::{Probe, Request};
use crate::response::{DeviceRecord, ProbeMatchSuccessBody};
use crate::session::{interpret, interpret_spec, outcomes_view, Event, EventView, ResponseError};
use crate::text::{decimal_text, str_equal, u32_to_decimal};

verus! {

/// The settings that the caller wants changed; what is `None` stays as the
/// device has it.
#[derive(Debug, Clone, Copy, PartialEq, Eq, Structural)]
pub struct Overrides {
    /// Whether the device shall take its address from DHCP.
    pub dhcp: Option<bool>,
}

/// Why an update did not succeed.
#[derive(Debug, Clone, Copy, PartialEq, Eq, Structural)]
pub enum UpdateError {
    /// No reply arrived in time, or what arrived could not be read as one.
    NoResponse,
    /// The device refused the change, most often because the password is
    /// wrong, or its reply gives no complete record.
    Rejected,
    /// A device answered with a complete record, but it is not the device
    /// that was meant.
    WrongDeviceResponded,
}

/// The mathematical values of a list of records, in its order.
pub open spec fn records_view(v: Seq<ProbeMatchSuccessBody>) -> Seq<DeviceRecord> {
    Seq::new(v.len(), |i: int| v[i]@)
}

/// Whether the outcome at place `i` is an error and none before it is.
pub open spec fn is_first_error(found: Seq<Result<DeviceRecord, ResponseError>>, i: int) -> bool {
    &&& 0 <= i < found.len()
    &&& found[i] is Err
    &&& forall|j: int| 0 <= j < i ==> (#[trigger] found[j]) is Ok
}

/// The records of a discovery in which every reply gave one, in the order
/// of arrival; the first error where some reply gave none.
pub fn successes(found: &Vec<Result<ProbeMatchSuccessBody, ResponseError>>) -> (r: Result<
    Vec<ProbeMatchSuccessBody>,
    ResponseError,
>)
    ensures
        r is Ok <==> forall|j: int|
            0 <= j < found@.len() ==> (#[trigger] outcomes_view(found@)[j]) is Ok,
        r is Ok ==> records_view(r->Ok_0@).len() == found@.len(),
        r is Ok ==> forall|j: int|
            0 <= j < found@.len() ==> (#[trigger] outcomes_view(found@)[j]) == Ok::<
                DeviceRecord,
                ResponseError,
            >(records_view(r->Ok_0@)[j]),
        r is Err ==> exists|i: int|
            #![auto]
            is_first_error(outcomes_view(found@), i) && outcomes_view(found@)[i] == Err::<
                DeviceRecord,
                ResponseError,
            >(r->Err_0),
{
    let ghost all = outcomes_view(found@);
    let mut out: Vec<ProbeMatchSuccessBody> = Vec::new();
    let mut i: usize = 0;
    while i < found.len()
        invariant
            i <= found.len(),
            all == outcomes_view(found@),
            out@.len() == i,
            forall|j: int| 0 <= j < i ==> (#[trigger] all[j]) is Ok,
            forall|j: int|
                0 <= j < i ==> (#[trigger] all[j]) == Ok::<DeviceRecord, ResponseError>(
                    out@[j]@,
                ),
        decreases found.len() - i,
    {
        match &found[i] {
            Ok(body) => {
                out.push(body.clone());
            },
            Err(e) => {
                assert(is_first_error(all, i as int));
                return Err(*e);
            },
        }
        i = i + 1;
    }
    Ok(out)
}

/// Picks the device to update: the first of the records with the serial
/// number `serial`, by its place in the list; `None` where no record has
/// that serial number.
pub fn select_target(records: &Vec<ProbeMatchSuccessBody>, serial: &str) -> (r: Option<usize>)
    ensures
        r is Some ==> r->0 < records@.len() && records@[r->0 as int]@.device_sn == serial@,
        r is Some ==> forall|j: int|
            0 <= j < r->0 ==> (#[trigger] records@[j])@.device_sn != serial@,
        r is None ==> forall|j: int|
            0 <= j < records@.len() ==> (#[trigger] records@[j])@.device_sn != serial@,
{
    let mut i: usize = 0;
    while i < records.len()
        invariant
            i <= records.len(),
            forall|j: int| 0 <= j < i ==> (#[trigger] records@[j])@.device_sn != serial@,
        decreases records.len() - i,
    {
        if str_equal(records[i].device_sn.as_str(), serial) {
            return Some(i);
        }
        i = i + 1;
    }
    None
}

/// The request that changes a device's settings. The network settings are
/// those that the device reported, the command port written as text; DHCP
/// is as the caller wants it and else as the device has it; the password
/// is the digest of the plaintext; the port for TLS is 0.
pub open spec fn update_request_spec(
    correlation_id: Seq<char>,
    current: DeviceRecord,
    overrides: Overrides,
    plaintext_password: Seq<char>,
) -> Request {
    Request::Update {
        uuid: correlation_id,
        pw_error_parse: "true"@,
        mac: current.mac,
        password: digest_text(plaintext_password),
        ipv4_address: current.ipv4_address,
        command_port: decimal_text(current.command_port as nat),
        http_port: current.http_port,
        ipv4_subnet_mask: current.ipv4_subnet_mask,
        ipv4_gateway: current.ipv4_gateway,
        ipv6_address: current.ipv6_address,
        ipv6_gateway: current.ipv6_gateway,
        ipv6_mask_len: current.ipv6_mask_len,
        dhcp: match overrides.dhcp {
            Some(wanted) => wanted,
            None => current.dhcp,
        },
        sdk_over_tls_port: 0,
    }
}

/// Builds the request that changes the settings of the device `current`.
pub fn update_request(
    correlation_id: &str,
    current: &ProbeMatchSuccessBody,
    overrides: Overrides,
    plaintext_password: &str,
) -> (r: Probe)
    ensures
        r@ == update_request_spec(correlation_id@, current@, overrides, plaintext_password@),
{
    let dhcp = match overrides.dhcp {
        Some(wanted) => wanted,
        None => current.dhcp,
    };
    Probe::Update {
        uuid: correlation_id.to_owned(),
        pw_error_parse: "true".to_owned(),
        mac: current.mac.clone(),
        password: Password::hash(plaintext_password),
        ipv4_address: current.ipv4_address.clone(),
        command_port: u32_to_decimal(current.command_port),
        http_port: current.http_port,
        ipv4_subnet_mask: current.ipv4_subnet_mask.clone(),
        ipv4_gateway: current.ipv4_gateway.clone(),
        ipv6_address: current.ipv6_address.clone(),
        ipv6_gateway: current.ipv6_gateway.clone(),
        ipv6_mask_len: current.ipv6_mask_len,
        dhcp,
        sdk_over_tls_port: 0,
    }
}

/// What the one thing that follows an update request amounts to. A
/// timeout, or a datagram that cannot be read, is no response. A reply
/// that reports failure or gives no complete record is a refusal. A
/// complete record is the result if its serial number is that of the
/// device that was meant, and else comes from the wrong device.
pub open spec fn conclude_spec(target_serial: Seq<char>, event: EventView) -> Result<
    DeviceRecord,
    UpdateError,
> {
    match event {
        EventView::TimedOut => Err(UpdateError::NoResponse),
        EventView::Datagram(bytes) => match interpret_spec(bytes) {
            Err(ResponseError::Decode(_)) => Err(UpdateError::NoResponse),
            Err(ResponseError::Reduction(_)) => Err(UpdateError::Rejected),
            Ok(record) => if record.device_sn == target_serial {
                Ok(record)
            } else {
                Err(UpdateError::WrongDeviceResponded)
            },
        },
    }
}

/// The mathematical value of what an update gives.
pub open spec fn update_view(r: Result<ProbeMatchSuccessBody, UpdateError>) -> Result<
    DeviceRecord,
    UpdateError,
> {
    match r {
        Ok(body) => Ok(body@),
        Err(e) => Err(e),
    }
}

/// One update session: a request is sent once to the device that is
/// meant, and the one thing that follows decides the session.
#[derive(Debug)]
pub struct Update {
    target_serial: String,
}

impl Update {
    /// The serial number of the device that is meant.
    pub closed spec fn target(self) -> Seq<char> {
        self.target_serial@
    }

    /// Opens a session for the device `current`, which is meant to have
    /// the serial number `target_serial`, and gives the bytes of the
    /// request to send, once, before the one receive.
    pub fn begin(
        correlation_id: &str,
        target_serial: &str,
        current: &ProbeMatchSuccessBody,
        overrides: Overrides,
        plaintext_password: &str,
    ) -> (r: (Update, Vec<u8>))
        ensures
            r.0.target() == target_serial@,
            r.1@ == encode_spec(
                update_request_spec(correlation_id@, current@, overrides, plaintext_password@),
            ),
    {
        let probe = update_request(correlation_id, current, overrides, plaintext_password);
        (Update { target_serial: target_serial.to_owned() }, encode(&probe))
    }

    /// Ends the session with what the one receive gave.
    pub fn conclude(self, event: Event) -> (r: Result<ProbeMatchSuccessBody, UpdateError>)
        ensures
            update_view(r) == conclude_spec(self.target(), event@),
    {
        match event {
            Event::TimedOut => Err(UpdateError::NoResponse),
            Event::Datagram(bytes) => match interpret(bytes.as_slice()) {
                Err(ResponseError::Decode(_)) => Err(UpdateError::NoResponse),
                Err(ResponseError::Reduction(_)) => Err(UpdateError::Rejected),
                Ok(body) => if str_equal(body.device_sn.as_str(), self.target_serial.as_str()) {
                    Ok(body)
                } else {
                    Err(UpdateError::WrongDeviceResponded)
                },
            },
        }
    }
}

/// A reply that is read and reduced to a record of another device than
/// the one that was meant ends the update as the answer of the wrong
/// device, sound though the reply is.
pub proof fn lemma_wrong_device(target_serial: Seq<char>, bytes: Seq<u8>)
    requires
        interpret_spec(bytes) is Ok,
        interpret_spec(bytes)->Ok_0.device_sn != target_serial,
    ensures
        conclude_spec(target_serial, EventView::Datagram(bytes)) == Err::<
            DeviceRecord,
            UpdateError,
        >(UpdateError::WrongDeviceResponded),
{
}

} // verus!
