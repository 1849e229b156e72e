use hikvision_sadp_client::codec::{encode, DecodeError};
use hikvision_sadp_client::password::Password;
use hikvision_sadp_client::probe::Probe;
use hikvision_sadp_client::request::{decode_request, request_from_fields};
use hikvision_sadp_client::wire::Field;

fn update_request_sample() -> Probe {
    Probe::Update {
        uuid: "u-1".to_string(),
        pw_error_parse: "true".to_string(),
        mac: "c0-56-e3-aa-bb-cc".to_string(),
        password: Password::hash("12345"),
        ipv4_address: "192.168.1.64".to_string(),
        command_port: "8000".to_string(),
        http_port: 80,
        ipv4_subnet_mask: "255.255.255.0".to_string(),
        ipv4_gateway: "192.168.1.1".to_string(),
        ipv6_address: "::".to_string(),
        ipv6_gateway: "::".to_string(),
        ipv6_mask_len: 64,
        dhcp: true,
        sdk_over_tls_port: 0,
    }
}

fn every_variant() -> Vec<Probe> {
    let u = || "5d2c7a0e-8a53-4f0c-9d55-4d3f1c1f2a10".to_string();
    let m = || "c0-56-e3-aa-bb-cc".to_string();
    vec![
        update_request_sample(),
        Probe::Inquiry { uuid: u() },
        Probe::MailReset {},
        Probe::Reset {},
        Probe::GetQRCodes { uuid: u(), mac: m() },
        Probe::GetCode { uuid: u(), mac: m() },
        Probe::ExchangeCode { uuid: u(), mac: m(), code: "A1B2".to_string() },
        Probe::Activate { uuid: u(), mac: m(), password: "secret".to_string() },
        Probe::GetEncryptString { uuid: u(), mac: m() },
        Probe::DeviceTypeUnlockCode { uuid: u(), mac: m() },
        Probe::DeviceTypeCustom {},
        Probe::ExportGUID { uuid: u(), mac: m(), password: Password::hash("pw") },
        Probe::GetSecurityQuestion { uuid: u(), mac: m() },
        Probe::SetSecurityQuestions,
        Probe::GUIDReset,
        Probe::AnswerReset,
        Probe::SetMailBox,
        Probe::SetHCPlatform,
        Probe::SetVerificationCode,
        Probe::GetBindList { uuid: u(), mac: m() },
        Probe::SetBindList,
        Probe::RestoreInactive,
        Probe::SetWifiRegion,
        Probe::Lamp,
        Probe::SelfCheck { uuid: u(), mac: m() },
        Probe::DiskLocate { uuid: u(), mac: m() },
        Probe::SetChannelDefaultPassword,
        Probe::WifiParamConfig,
        Probe::WifiParamCheck,
        Probe::EHomeEnable,
    ]
}

#[test]
fn every_request_written_is_read_back() {
    let all = every_variant();
    assert_eq!(all.len(), 30);
    for probe in all {
        assert_eq!(decode_request(&encode(&probe)), Ok(probe));
    }
}

#[test]
fn every_request_is_read_back_from_its_fields() {
    for probe in every_variant() {
        assert_eq!(request_from_fields(&probe.wire_fields()), Ok(probe));
    }
}

#[test]
fn an_update_with_other_values_is_read_back() {
    for (dhcp, port) in [(false, 0u32), (true, 4294967295), (false, 37020)] {
        let probe = Probe::Update {
            uuid: "a<b>&c".to_string(),
            pw_error_parse: "".to_string(),
            mac: "m".to_string(),
            password: Password::hash(""),
            ipv4_address: "10.0.0.2".to_string(),
            command_port: "not a number".to_string(),
            http_port: port,
            ipv4_subnet_mask: "255.0.0.0".to_string(),
            ipv4_gateway: "10.0.0.1".to_string(),
            ipv6_address: "".to_string(),
            ipv6_gateway: "".to_string(),
            ipv6_mask_len: port,
            dhcp,
            sdk_over_tls_port: port,
        };
        assert_eq!(decode_request(&encode(&probe)), Ok(probe));
    }
}

#[test]
fn a_request_without_variant_is_malformed() {
    assert_eq!(decode_request(b"<Probe><Uuid>u</Uuid></Probe>"), Err(DecodeError::Malformed));
    assert_eq!(decode_request(b"<Probe></Probe>"), Err(DecodeError::Malformed));
    assert_eq!(decode_request(b"Probe"), Err(DecodeError::Malformed));
}

#[test]
fn a_request_of_an_unknown_variant_is_refused() {
    assert_eq!(
        decode_request(b"<Probe><Types>reboot</Types><Uuid>u</Uuid></Probe>"),
        Err(DecodeError::UnknownVariant)
    );
    assert_eq!(
        decode_request(b"<Probe><Types>INQUIRY</Types><Uuid>u</Uuid></Probe>"),
        Err(DecodeError::UnknownVariant)
    );
}

#[test]
fn a_request_that_lacks_a_field_is_malformed() {
    assert_eq!(
        decode_request(b"<Probe><Types>inquiry</Types></Probe>"),
        Err(DecodeError::Malformed)
    );
    assert_eq!(
        decode_request(b"<Probe><Types>getcode</Types><Uuid>u</Uuid></Probe>"),
        Err(DecodeError::Malformed)
    );
    let mut fields = update_request_sample().wire_fields();
    fields.retain(|f| f.name != "DHCP");
    assert_eq!(request_from_fields(&fields), Err(DecodeError::Malformed));
}

#[test]
fn a_request_with_a_bad_number_is_malformed() {
    let replace = |name: &str, value: &str| {
        let mut fields = update_request_sample().wire_fields();
        for f in fields.iter_mut() {
            if f.name == name {
                f.value = value.to_string();
            }
        }
        fields
    };
    assert_eq!(request_from_fields(&replace("HttpPort", "http")), Err(DecodeError::Malformed));
    assert_eq!(request_from_fields(&replace("IPv6MaskLen", "")), Err(DecodeError::Malformed));
    assert_eq!(
        request_from_fields(&replace("SDKOverTLSPort", "-1")),
        Err(DecodeError::Malformed)
    );
    assert_eq!(request_from_fields(&replace("DHCP", "flase")), Err(DecodeError::Malformed));
    assert_eq!(
        request_from_fields(&replace("CommandPort", "eight thousand")),
        Ok(Probe::Update {
            uuid: "u-1".to_string(),
            pw_error_parse: "true".to_string(),
            mac: "c0-56-e3-aa-bb-cc".to_string(),
            password: Password::hash("12345"),
            ipv4_address: "192.168.1.64".to_string(),
            command_port: "eight thousand".to_string(),
            http_port: 80,
            ipv4_subnet_mask: "255.255.255.0".to_string(),
            ipv4_gateway: "192.168.1.1".to_string(),
            ipv6_address: "::".to_string(),
            ipv6_gateway: "::".to_string(),
            ipv6_mask_len: 64,
            dhcp: true,
            sdk_over_tls_port: 0,
        })
    );
}

#[test]
fn a_field_that_the_variant_does_not_have_is_passed_over() {
    let fields = vec![
        Field { name: "Types".to_string(), value: "inquiry".to_string() },
        Field { name: "Uuid".to_string(), value: "u".to_string() },
        Field { name: "MAC".to_string(), value: "m".to_string() },
    ];
    assert_eq!(request_from_fields(&fields), Ok(Probe::Inquiry { uuid: "u".to_string() }));
    let lamp = vec![
        Field { name: "Uuid".to_string(), value: "u".to_string() },
        Field { name: "Types".to_string(), value: "lamp".to_string() },
    ];
    assert_eq!(request_from_fields(&lamp), Ok(Probe::Lamp));
}

#[test]
fn a_password_is_taken_from_the_wire_as_it_is() {
    assert_eq!(Password::from_wire("gnzLDuqKcGxMNKFokfhOew==".to_string()), Password::hash("12345"));
    assert_eq!(Password::from_wire("x".to_string()).as_str(), "x");
}

#[test]
fn white_space_around_a_text_is_not_read() {
    assert_eq!(
        decode_request(
            b"<Probe>\n  <Types> activate </Types>\n  <Uuid> u </Uuid>\n  <MAC>m</MAC>\n  \
              <Password>p</Password>\n</Probe>"
        ),
        Ok(Probe::Activate {
            uuid: "u".to_string(),
            mac: "m".to_string(),
            password: "p".to_string()
        })
    );
}
