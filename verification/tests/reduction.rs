use hikvision_sadp_client::response::{
    Attribute, HvTypoBool, ProbeMatch, ProbeMatch2, ProbeMatchBody, ProbeMatchResult,
    ProbeMatchSuccessBody, ReductionError,
};

fn full_reply(result: Option<ProbeMatchResult>) -> ProbeMatch {
    ProbeMatch {
        uuid: "5d2c7a0e-8a53-4f0c-9d55-4d3f1c1f2a10".to_string(),
        types: "inquiry".to_string(),
        result,
        device_type: Some("141298".to_string()),
        device_description: Some("DS-2CD2042WD-I".to_string()),
        device_sn: Some("DS-2CD2042WD-I20160101AACH123456789".to_string()),
        command_port: Some(8000),
        http_port: Some(80),
        mac: Some("c0-56-e3-aa-bb-cc".to_string()),
        ipv4_address: Some("192.168.1.64".to_string()),
        ipv4_subnet_mask: Some("255.255.255.0".to_string()),
        ipv4_gateway: Some("192.168.1.1".to_string()),
        ipv6_address: Some("fe80::c256:e3ff:feaa:bbcc".to_string()),
        ipv6_gateway: Some("::".to_string()),
        ipv6_mask_len: Some(64),
        dhcp: Some(false),
        analog_channel_num: Some(0),
        digital_channel_num: Some(1),
        software_version: Some("V5.4.5build 170124".to_string()),
        dsp_version: Some("V7.3 build 170109".to_string()),
        boot_time: Some("2021-03-04 05:06:07".to_string()),
        reset_ability: Some(false),
        disk_number: Some(0),
        activated: Some(true),
        password_reset_ability: Some(true),
        password_reset_mode_second: Some(true),
        support_hc_platform: Some(true),
        hc_platform_enable: Some(HvTypoBool::Flase),
        is_modify_verification_code: Some("true".to_string()),
    }
}

fn full_record() -> ProbeMatchSuccessBody {
    ProbeMatchSuccessBody {
        device_type: "141298".to_string(),
        device_description: "DS-2CD2042WD-I".to_string(),
        device_sn: "DS-2CD2042WD-I20160101AACH123456789".to_string(),
        command_port: 8000,
        http_port: 80,
        mac: "c0-56-e3-aa-bb-cc".to_string(),
        ipv4_address: "192.168.1.64".to_string(),
        ipv4_subnet_mask: "255.255.255.0".to_string(),
        ipv4_gateway: "192.168.1.1".to_string(),
        ipv6_address: "fe80::c256:e3ff:feaa:bbcc".to_string(),
        ipv6_gateway: "::".to_string(),
        ipv6_mask_len: 64,
        dhcp: false,
        analog_channel_num: 0,
        digital_channel_num: 1,
        software_version: "V5.4.5build 170124".to_string(),
        dsp_version: "V7.3 build 170109".to_string(),
        boot_time: "2021-03-04 05:06:07".to_string(),
        reset_ability: false,
        disk_number: 0,
        activated: true,
        password_reset_ability: true,
        password_reset_mode_second: true,
        support_hc_platform: true,
        hc_platform_enable: HvTypoBool::Flase,
        is_modify_verification_code: "true".to_string(),
    }
}

fn bare_reply(result: Option<ProbeMatchResult>) -> ProbeMatch {
    ProbeMatch {
        uuid: "5d2c7a0e-8a53-4f0c-9d55-4d3f1c1f2a10".to_string(),
        types: "update".to_string(),
        result,
        device_type: None,
        device_description: None,
        device_sn: None,
        command_port: None,
        http_port: None,
        mac: None,
        ipv4_address: None,
        ipv4_subnet_mask: None,
        ipv4_gateway: None,
        ipv6_address: None,
        ipv6_gateway: None,
        ipv6_mask_len: None,
        dhcp: None,
        analog_channel_num: None,
        digital_channel_num: None,
        software_version: None,
        dsp_version: None,
        boot_time: None,
        reset_ability: None,
        disk_number: None,
        activated: None,
        password_reset_ability: None,
        password_reset_mode_second: None,
        support_hc_platform: None,
        hc_platform_enable: None,
        is_modify_verification_code: None,
    }
}

#[test]
fn failed_reply_without_attributes_is_rejected() {
    assert_eq!(
        bare_reply(Some(ProbeMatchResult::Failed)).payload(),
        Err(ReductionError::DeviceRejected)
    );
}

#[test]
fn failed_reply_with_every_attribute_is_rejected() {
    assert_eq!(
        full_reply(Some(ProbeMatchResult::Failed)).payload(),
        Err(ReductionError::DeviceRejected)
    );
}

#[test]
fn failed_reply_with_some_attributes_is_rejected() {
    let mut reply = full_reply(Some(ProbeMatchResult::Failed));
    reply.mac = None;
    reply.dhcp = None;
    assert_eq!(reply.payload(), Err(ReductionError::DeviceRejected));
}

#[test]
fn complete_reply_without_outcome_gives_its_record() {
    assert_eq!(full_reply(None).payload(), Ok(full_record()));
}

#[test]
fn complete_reply_with_success_gives_its_record() {
    assert_eq!(full_reply(Some(ProbeMatchResult::Success)).payload(), Ok(full_record()));
}

#[test]
fn reply_without_serial_is_incomplete() {
    let mut reply = full_reply(None);
    reply.device_sn = None;
    assert_eq!(
        reply.payload(),
        Err(ReductionError::IncompleteResponse { missing: Attribute::DeviceSn })
    );
}

#[test]
fn reply_without_last_attribute_is_incomplete() {
    let mut reply = full_reply(Some(ProbeMatchResult::Success));
    reply.is_modify_verification_code = None;
    assert_eq!(
        reply.payload(),
        Err(ReductionError::IncompleteResponse { missing: Attribute::IsModifyVerificationCode })
    );
}

#[test]
fn incomplete_reply_names_the_first_missing_attribute() {
    let mut reply = full_reply(None);
    reply.hc_platform_enable = None;
    reply.ipv4_gateway = None;
    reply.dhcp = None;
    assert_eq!(reply.first_missing(), Some(Attribute::Ipv4Gateway));
    assert_eq!(
        reply.payload(),
        Err(ReductionError::IncompleteResponse { missing: Attribute::Ipv4Gateway })
    );
}

#[test]
fn empty_reply_without_outcome_lacks_the_first_attribute() {
    assert_eq!(
        bare_reply(None).payload(),
        Err(ReductionError::IncompleteResponse { missing: Attribute::DeviceType })
    );
    assert_eq!(
        bare_reply(Some(ProbeMatchResult::Success)).payload(),
        Err(ReductionError::IncompleteResponse { missing: Attribute::DeviceType })
    );
}

#[test]
fn each_attribute_alone_missing_is_named() {
    let cases: Vec<(fn(&mut ProbeMatch), Attribute)> = vec![
        (|r| r.device_type = None, Attribute::DeviceType),
        (|r| r.device_description = None, Attribute::DeviceDescription),
        (|r| r.device_sn = None, Attribute::DeviceSn),
        (|r| r.command_port = None, Attribute::CommandPort),
        (|r| r.http_port = None, Attribute::HttpPort),
        (|r| r.mac = None, Attribute::Mac),
        (|r| r.ipv4_address = None, Attribute::Ipv4Address),
        (|r| r.ipv4_subnet_mask = None, Attribute::Ipv4SubnetMask),
        (|r| r.ipv4_gateway = None, Attribute::Ipv4Gateway),
        (|r| r.ipv6_address = None, Attribute::Ipv6Address),
        (|r| r.ipv6_gateway = None, Attribute::Ipv6Gateway),
        (|r| r.ipv6_mask_len = None, Attribute::Ipv6MaskLen),
        (|r| r.dhcp = None, Attribute::Dhcp),
        (|r| r.analog_channel_num = None, Attribute::AnalogChannelNum),
        (|r| r.digital_channel_num = None, Attribute::DigitalChannelNum),
        (|r| r.software_version = None, Attribute::SoftwareVersion),
        (|r| r.dsp_version = None, Attribute::DspVersion),
        (|r| r.boot_time = None, Attribute::BootTime),
        (|r| r.reset_ability = None, Attribute::ResetAbility),
        (|r| r.disk_number = None, Attribute::DiskNumber),
        (|r| r.activated = None, Attribute::Activated),
        (|r| r.password_reset_ability = None, Attribute::PasswordResetAbility),
        (|r| r.password_reset_mode_second = None, Attribute::PasswordResetModeSecond),
        (|r| r.support_hc_platform = None, Attribute::SupportHcPlatform),
        (|r| r.hc_platform_enable = None, Attribute::HcPlatformEnable),
        (|r| r.is_modify_verification_code = None, Attribute::IsModifyVerificationCode),
    ];
    assert_eq!(cases.len(), 26);
    for (clear, attribute) in cases {
        let mut reply = full_reply(None);
        clear(&mut reply);
        assert_eq!(reply.first_missing(), Some(attribute));
        assert_eq!(
            reply.payload(),
            Err(ReductionError::IncompleteResponse { missing: attribute })
        );
    }
}

#[test]
fn into_success_body_needs_every_attribute() {
    assert_eq!(full_reply(None).into_success_body(), Some(full_record()));
    assert_eq!(full_reply(Some(ProbeMatchResult::Failed)).into_success_body(), Some(full_record()));
    let mut reply = full_reply(None);
    reply.boot_time = None;
    assert_eq!(reply.into_success_body(), None);
    assert_eq!(bare_reply(None).into_success_body(), None);
}

#[test]
fn reduction_errors_are_described() {
    assert_eq!(ReductionError::DeviceRejected.describe(), "Camera indicated failure");
    assert_eq!(
        ReductionError::IncompleteResponse { missing: Attribute::Mac }.describe(),
        "Invalid response"
    );
}

#[test]
fn typo_bool_reads_true() {
    assert_eq!(HvTypoBool::parse("true"), Some(HvTypoBool::True));
    assert!(HvTypoBool::parse("true").unwrap().to_bool());
}

#[test]
fn typo_bool_reads_the_misspelled_false() {
    assert_eq!(HvTypoBool::parse("flase"), Some(HvTypoBool::Flase));
    assert!(!HvTypoBool::parse("flase").unwrap().to_bool());
}

#[test]
fn typo_bool_refuses_any_other_text() {
    assert_eq!(HvTypoBool::parse("false"), None);
    assert_eq!(HvTypoBool::parse(""), None);
    assert_eq!(HvTypoBool::parse("True"), None);
    assert_eq!(HvTypoBool::parse("1"), None);
    assert_eq!(HvTypoBool::parse("0"), None);
    assert_eq!(HvTypoBool::parse("flase "), None);
    assert_eq!(HvTypoBool::parse("yes"), None);
}

#[test]
fn typo_bool_keeps_its_misspelling_on_the_wire() {
    assert_eq!(HvTypoBool::True.to_wire(), "true");
    assert_eq!(HvTypoBool::Flase.to_wire(), "flase");
    assert_eq!(HvTypoBool::parse(HvTypoBool::True.to_wire()), Some(HvTypoBool::True));
    assert_eq!(HvTypoBool::parse(HvTypoBool::Flase.to_wire()), Some(HvTypoBool::Flase));
}

#[test]
fn typo_bool_is_shown_spelled_properly() {
    assert_eq!(HvTypoBool::True.to_text(), "true");
    assert_eq!(HvTypoBool::Flase.to_text(), "false");
}

#[test]
fn typo_bool_converts_to_and_from_bool() {
    assert!(bool::from(&HvTypoBool::True));
    assert!(!bool::from(&HvTypoBool::Flase));
    assert_eq!(HvTypoBool::from_bool(true), HvTypoBool::True);
    assert_eq!(HvTypoBool::from_bool(false), HvTypoBool::Flase);
}

#[test]
fn outcome_literals() {
    assert_eq!(ProbeMatchResult::parse("failed"), Some(ProbeMatchResult::Failed));
    assert_eq!(ProbeMatchResult::parse("success"), Some(ProbeMatchResult::Success));
    assert_eq!(ProbeMatchResult::parse("Success"), None);
    assert_eq!(ProbeMatchResult::parse(""), None);
    assert_eq!(ProbeMatchResult::Failed.to_wire(), "failed");
    assert_eq!(ProbeMatchResult::Success.to_wire(), "success");
}

#[test]
fn attribute_names_are_exact() {
    assert_eq!(Attribute::DeviceSn.name(), "DeviceSN");
    assert_eq!(Attribute::Mac.name(), "MAC");
    assert_eq!(Attribute::Dhcp.name(), "DHCP");
    assert_eq!(Attribute::DspVersion.name(), "DSPVersion");
    assert_eq!(Attribute::Ipv6MaskLen.name(), "IPv6MaskLen");
    assert_eq!(Attribute::HcPlatformEnable.name(), "HCPlatformEnable");
    assert_eq!(Attribute::SupportHcPlatform.name(), "SupportHCPlatform");
}

#[test]
fn typed_reply_tags_are_exact() {
    let uuid = "u".to_string();
    let result = ProbeMatchResult::Success;
    assert_eq!(ProbeMatch2::Inquire { uuid: uuid.clone(), result }.tag(), "inquire");
    assert_eq!(
        ProbeMatch2::GetCode { uuid: uuid.clone(), result, code: "c".to_string() }.tag(),
        "getcode"
    );
    assert_eq!(
        ProbeMatch2::GetEncryptString {
            uuid: uuid.clone(),
            result,
            encrypt_string: "e".to_string()
        }
        .tag(),
        "getencryptstring"
    );
    assert_eq!(
        ProbeMatch2::ExchangeCode { uuid: uuid.clone(), result, code: "c".to_string() }.tag(),
        "exchangecode"
    );
    assert_eq!(ProbeMatch2::Activate { uuid, result }.tag(), "activate ");
}

#[test]
fn empty_body_is_a_value() {
    assert_eq!(ProbeMatchBody {}, ProbeMatchBody {});
}
