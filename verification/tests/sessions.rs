use hikvision_sadp_client::codec::{encode, DecodeError};
use hikvision_sadp_client::password::Password;
use hikvision_sadp_client::probe::Probe;
use hikvision_sadp_client::reply::encode_reply;
use hikvision_sadp_client::response::{
    Attribute, HvTypoBool, ProbeMatchResult, ProbeMatchSuccessBody, ReductionError,
};
use hikvision_sadp_client::session::{interpret, Discovery, Event, Next, ResponseError};
use hikvision_sadp_client::update::{
    select_target, successes, update_request, Overrides, Update, UpdateError,
};

fn device(serial: &str, address: &str) -> ProbeMatchSuccessBody {
    ProbeMatchSuccessBody {
        device_type: "141298".to_string(),
        device_description: "DS-2CD2042WD-I".to_string(),
        device_sn: serial.to_string(),
        command_port: 8000,
        http_port: 80,
        mac: "c0-56-e3-aa-bb-cc".to_string(),
        ipv4_address: address.to_string(),
        ipv4_subnet_mask: "255.255.255.0".to_string(),
        ipv4_gateway: "192.168.1.1".to_string(),
        ipv6_address: "fe80::c256:e3ff:feaa:bbcc".to_string(),
        ipv6_gateway: "::".to_string(),
        ipv6_mask_len: 64,
        dhcp: false,
        analog_channel_num: 0,
        digital_channel_num: 1,
        software_version: "V5.4.5build 170124".to_string(),
        dsp_version: "V7.3 build 170109".to_string(),
        boot_time: "2021-03-04 05:06:07".to_string(),
        reset_ability: false,
        disk_number: 0,
        activated: true,
        password_reset_ability: true,
        password_reset_mode_second: true,
        support_hc_platform: true,
        hc_platform_enable: HvTypoBool::Flase,
        is_modify_verification_code: "true".to_string(),
    }
}

fn success_datagram(uuid: &str, body: &ProbeMatchSuccessBody) -> Vec<u8> {
    encode_reply(uuid, "inquiry", Some(ProbeMatchResult::Success), body)
}

fn failed_datagram() -> Vec<u8> {
    b"<ProbeMatch><Uuid>u</Uuid><Types>update</Types><Result>failed</Result></ProbeMatch>".to_vec()
}

#[test]
fn discovery_begins_with_the_inquiry() {
    let (session, request) = Discovery::begin("u-1");
    assert!(session.is_listening());
    assert_eq!(request, encode(&Probe::Inquiry { uuid: "u-1".to_string() }));
    assert_eq!(
        String::from_utf8(request).unwrap(),
        "<Probe><Types>inquiry</Types><Uuid>u-1</Uuid></Probe>"
    );
    assert_eq!(session.into_results(), vec![]);
}

#[test]
fn discovery_collects_three_devices_in_arrival_order() {
    let a = device("SN-A", "192.168.1.64");
    let b = device("SN-B", "192.168.1.65");
    let c = device("SN-C", "192.168.1.66");
    let (mut session, _request) = Discovery::begin("u-1");
    assert_eq!(session.step(Event::Datagram(success_datagram("u-1", &b))), Next::Listen);
    assert_eq!(session.step(Event::Datagram(success_datagram("u-1", &a))), Next::Listen);
    assert_eq!(session.step(Event::Datagram(success_datagram("u-1", &c))), Next::Listen);
    assert!(session.is_listening());
    assert_eq!(session.step(Event::TimedOut), Next::Stop);
    assert!(!session.is_listening());
    assert_eq!(session.into_results(), vec![Ok(b), Ok(a), Ok(c)]);
}

#[test]
fn discovery_with_one_failed_reply_gives_one_rejection() {
    let (mut session, _request) = Discovery::begin("u-1");
    assert_eq!(session.step(Event::Datagram(failed_datagram())), Next::Listen);
    assert_eq!(session.step(Event::TimedOut), Next::Stop);
    assert_eq!(
        session.into_results(),
        vec![Err(ResponseError::Reduction(ReductionError::DeviceRejected))]
    );
}

#[test]
fn discovery_with_no_reply_gives_nothing() {
    let (mut session, _request) = Discovery::begin("u-1");
    assert_eq!(session.step(Event::TimedOut), Next::Stop);
    assert_eq!(session.into_results(), vec![]);
}

#[test]
fn discovery_goes_on_after_a_bad_datagram() {
    let a = device("SN-A", "192.168.1.64");
    let b = device("SN-B", "192.168.1.65");
    let (mut session, _request) = Discovery::begin("u-1");
    assert_eq!(session.step(Event::Datagram(success_datagram("u-1", &a))), Next::Listen);
    assert_eq!(session.step(Event::Datagram(b"garbage".to_vec())), Next::Listen);
    assert_eq!(session.step(Event::Datagram(failed_datagram())), Next::Listen);
    assert_eq!(
        session.step(Event::Datagram(
            b"<ProbeMatch><Uuid>u</Uuid><Types>reboot</Types></ProbeMatch>".to_vec()
        )),
        Next::Listen
    );
    assert_eq!(
        session.step(Event::Datagram(
            b"<ProbeMatch><Uuid>u</Uuid><Types>inquiry</Types><DeviceType>1</DeviceType></ProbeMatch>"
                .to_vec()
        )),
        Next::Listen
    );
    assert_eq!(session.step(Event::Datagram(success_datagram("u-1", &b))), Next::Listen);
    assert_eq!(session.step(Event::TimedOut), Next::Stop);
    assert_eq!(
        session.into_results(),
        vec![
            Ok(a),
            Err(ResponseError::Decode(DecodeError::Malformed)),
            Err(ResponseError::Reduction(ReductionError::DeviceRejected)),
            Err(ResponseError::Decode(DecodeError::UnknownVariant)),
            Err(ResponseError::Reduction(ReductionError::IncompleteResponse {
                missing: Attribute::DeviceDescription
            })),
            Ok(b),
        ]
    );
}

#[test]
fn discovery_passes_foreign_correlation_ids_through() {
    let a = device("SN-A", "192.168.1.64");
    let (mut session, _request) = Discovery::begin("u-1");
    session.step(Event::Datagram(success_datagram("somebody-else", &a)));
    session.step(Event::TimedOut);
    assert_eq!(session.into_results(), vec![Ok(a)]);
}

#[test]
fn discovery_drops_what_arrives_after_the_timeout() {
    let a = device("SN-A", "192.168.1.64");
    let b = device("SN-B", "192.168.1.65");
    let (mut session, _request) = Discovery::begin("u-1");
    session.step(Event::Datagram(success_datagram("u-1", &a)));
    assert_eq!(session.step(Event::TimedOut), Next::Stop);
    assert_eq!(session.step(Event::Datagram(success_datagram("u-1", &b))), Next::Stop);
    assert_eq!(session.step(Event::TimedOut), Next::Stop);
    assert!(!session.is_listening());
    assert_eq!(session.into_results(), vec![Ok(a)]);
}

#[test]
fn one_datagram_is_interpreted() {
    let a = device("SN-A", "192.168.1.64");
    assert_eq!(interpret(&success_datagram("u", &a)), Ok(a));
    assert_eq!(
        interpret(&failed_datagram()),
        Err(ResponseError::Reduction(ReductionError::DeviceRejected))
    );
    assert_eq!(interpret(b""), Err(ResponseError::Decode(DecodeError::Malformed)));
}

#[test]
fn successes_of_a_clean_discovery() {
    let a = device("SN-A", "192.168.1.64");
    let b = device("SN-B", "192.168.1.65");
    assert_eq!(successes(&vec![Ok(a.clone()), Ok(b.clone())]), Ok(vec![a, b]));
    assert_eq!(successes(&vec![]), Ok(vec![]));
}

#[test]
fn successes_stop_at_the_first_error() {
    let a = device("SN-A", "192.168.1.64");
    let found = vec![
        Ok(a.clone()),
        Err(ResponseError::Reduction(ReductionError::DeviceRejected)),
        Ok(a),
        Err(ResponseError::Decode(DecodeError::Malformed)),
    ];
    assert_eq!(
        successes(&found),
        Err(ResponseError::Reduction(ReductionError::DeviceRejected))
    );
}

#[test]
fn the_target_is_the_first_device_with_the_serial() {
    let records = vec![
        device("SN-A", "192.168.1.64"),
        device("SN-B", "192.168.1.65"),
        device("SN-B", "192.168.1.66"),
    ];
    assert_eq!(select_target(&records, "SN-A"), Some(0));
    assert_eq!(select_target(&records, "SN-B"), Some(1));
    assert_eq!(select_target(&records, "SN-C"), None);
    assert_eq!(select_target(&records, "sn-a"), None);
    assert_eq!(select_target(&Vec::new(), "SN-A"), None);
}

#[test]
fn the_update_request_takes_the_devices_settings() {
    let current = device("SN-A", "192.168.1.64");
    let probe = update_request("u-9", &current, Overrides { dhcp: None }, "12345");
    assert_eq!(
        probe,
        Probe::Update {
            uuid: "u-9".to_string(),
            pw_error_parse: "true".to_string(),
            mac: "c0-56-e3-aa-bb-cc".to_string(),
            password: Password::hash("12345"),
            ipv4_address: "192.168.1.64".to_string(),
            command_port: "8000".to_string(),
            http_port: 80,
            ipv4_subnet_mask: "255.255.255.0".to_string(),
            ipv4_gateway: "192.168.1.1".to_string(),
            ipv6_address: "fe80::c256:e3ff:feaa:bbcc".to_string(),
            ipv6_gateway: "::".to_string(),
            ipv6_mask_len: 64,
            dhcp: false,
            sdk_over_tls_port: 0,
        }
    );
}

#[test]
fn the_update_request_takes_dhcp_from_the_overrides() {
    let mut current = device("SN-A", "192.168.1.64");
    for (has, wanted, expected) in [
        (false, None, false),
        (true, None, true),
        (false, Some(true), true),
        (true, Some(false), false),
        (true, Some(true), true),
        (false, Some(false), false),
    ] {
        current.dhcp = has;
        match update_request("u", &current, Overrides { dhcp: wanted }, "pw") {
            Probe::Update { dhcp, .. } => assert_eq!(dhcp, expected),
            other => panic!("not an update: {:?}", other),
        }
    }
}

#[test]
fn update_begins_with_the_request() {
    let current = device("SN-A", "192.168.1.64");
    let (_session, request) =
        Update::begin("u-9", "SN-A", &current, Overrides { dhcp: Some(true) }, "12345");
    assert_eq!(
        request,
        encode(&update_request("u-9", &current, Overrides { dhcp: Some(true) }, "12345"))
    );
    let text = String::from_utf8(request).unwrap();
    assert!(text.starts_with("<Probe><Types>update</Types><Uuid>u-9</Uuid>"));
    assert!(text.contains("<Password>gnzLDuqKcGxMNKFokfhOew==</Password>"));
    assert!(text.contains("<CommandPort>8000</CommandPort>"));
    assert!(text.contains("<DHCP>true</DHCP>"));
    assert!(text.ends_with("<SDKOverTLSPort>0</SDKOverTLSPort></Probe>"));
}

#[test]
fn update_succeeds_when_the_target_confirms() {
    let current = device("SN-A", "192.168.1.64");
    let mut changed = device("SN-A", "192.168.1.64");
    changed.dhcp = true;
    let (session, _request) =
        Update::begin("u-9", "SN-A", &current, Overrides { dhcp: Some(true) }, "12345");
    let datagram = encode_reply("u-9", "update", Some(ProbeMatchResult::Success), &changed);
    assert_eq!(session.conclude(Event::Datagram(datagram)), Ok(changed));
}

#[test]
fn update_answered_by_another_device() {
    let current = device("SN-A", "192.168.1.64");
    let other = device("SN-B", "192.168.1.65");
    let (session, _request) =
        Update::begin("u-9", "SN-A", &current, Overrides { dhcp: None }, "12345");
    let datagram = encode_reply("u-9", "update", Some(ProbeMatchResult::Success), &other);
    assert_eq!(interpret(&datagram), Ok(other));
    assert_eq!(
        session.conclude(Event::Datagram(datagram)),
        Err(UpdateError::WrongDeviceResponded)
    );
}

#[test]
fn update_without_reply() {
    let current = device("SN-A", "192.168.1.64");
    let (session, _request) =
        Update::begin("u-9", "SN-A", &current, Overrides { dhcp: None }, "12345");
    assert_eq!(session.conclude(Event::TimedOut), Err(UpdateError::NoResponse));
}

#[test]
fn update_with_an_unreadable_reply() {
    let current = device("SN-A", "192.168.1.64");
    let (session, _request) =
        Update::begin("u-9", "SN-A", &current, Overrides { dhcp: None }, "12345");
    assert_eq!(
        session.conclude(Event::Datagram(b"garbage".to_vec())),
        Err(UpdateError::NoResponse)
    );
}

#[test]
fn update_refused_by_the_device() {
    let current = device("SN-A", "192.168.1.64");
    let (session, _request) =
        Update::begin("u-9", "SN-A", &current, Overrides { dhcp: None }, "wrong");
    assert_eq!(session.conclude(Event::Datagram(failed_datagram())), Err(UpdateError::Rejected));
}

#[test]
fn update_with_an_incomplete_reply() {
    let current = device("SN-A", "192.168.1.64");
    let (session, _request) =
        Update::begin("u-9", "SN-A", &current, Overrides { dhcp: None }, "12345");
    let datagram =
        b"<ProbeMatch><Uuid>u-9</Uuid><Types>update</Types><Result>success</Result></ProbeMatch>"
            .to_vec();
    assert_eq!(session.conclude(Event::Datagram(datagram)), Err(UpdateError::Rejected));
}

#[test]
fn errors_of_a_datagram_are_described() {
    assert_eq!(
        ResponseError::Reduction(ReductionError::DeviceRejected).describe(),
        "Camera indicated failure"
    );
    assert_eq!(
        ResponseError::Reduction(ReductionError::IncompleteResponse { missing: Attribute::Mac })
            .describe(),
        "Invalid response"
    );
    assert_eq!(ResponseError::Decode(DecodeError::Malformed).describe(), "Malformed response");
    assert_eq!(
        ResponseError::Decode(DecodeError::UnknownVariant).describe(),
        "Unknown kind of response"
    );
    assert_eq!(DecodeError::Malformed.describe(), "Malformed response");
}
