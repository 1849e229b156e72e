//! What a device answers: the loosely typed reply as it was received, and
//! its reduction to a complete device record or to a reason for refusing it.

use vstd::prelude::*;
use vstd::string::*;
use crate::text::str_equal;

verus! {

/// A boolean as the devices write it: the false value is misspelled on the
/// wire, and the misspelling is what they emit and accept.
#[derive(Debug, Clone, Copy, PartialEq, Eq, Structural)]
pub enum HvTypoBool {
    /// Written `true`.
    True,
    /// Written `flase`.
    Flase,
}

impl HvTypoBool {
    /// The boolean that the value stands for.
    pub open spec fn spec_to_bool(self) -> bool {
        self is True
    }

    /// The literal that stands for the value on the wire.
    pub open spec fn wire_text(self) -> Seq<char> {
        match self {
            HvTypoBool::True => "true"@,
            HvTypoBool::Flase => "flase"@,
        }
    }

    /// What a wire literal denotes: `true`, the misspelled false literal,
    /// and nothing for any other text.
    pub open spec fn parse_spec(s: Seq<char>) -> Option<HvTypoBool> {
        if s == "true"@ {
            Some(HvTypoBool::True)
        } else if s == "flase"@ {
            Some(HvTypoBool::Flase)
        } else {
            None
        }
    }

    /// The boolean that the value stands for.
    pub fn to_bool(&self) -> (r: bool)
        ensures
            r == self.spec_to_bool(),
    {
        match self {
            HvTypoBool::True => true,
            HvTypoBool::Flase => false,
        }
    }

    /// The value that stands for a boolean.
    pub fn from_bool(b: bool) -> (r: HvTypoBool)
        ensures
            r.spec_to_bool() == b,
    {
        if b {
            HvTypoBool::True
        } else {
            HvTypoBool::Flase
        }
    }

    /// The literal to put on the wire; false keeps its misspelling.
    pub fn to_wire(&self) -> (r: &'static str)
        ensures
            r@ == self.wire_text(),
    {
        match self {
            HvTypoBool::True => "true",
            HvTypoBool::Flase => "flase",
        }
    }

    /// Reads a wire literal. Text that is neither of the two literals is
    /// refused, the correctly spelled `false` included.
    pub fn parse(s: &str) -> (r: Option<HvTypoBool>)
        ensures
            r == HvTypoBool::parse_spec(s@),
    {
        if str_equal(s, "true") {
            Some(HvTypoBool::True)
        } else if str_equal(s, "flase") {
            Some(HvTypoBool::Flase)
        } else {
            None
        }
    }

    /// The value as it is shown to a person: `true` or `false`, spelled
    /// properly.
    pub fn to_text(&self) -> (r: String)
        ensures
            r@ == crate::text::bool_text(self.spec_to_bool()),
    {
        crate::text::bool_to_text(self.to_bool())
    }

    /// Every value is read back from its own wire literal.
    pub proof fn lemma_wire_round_trip(self)
        ensures
            HvTypoBool::parse_spec(self.wire_text()) == Some(self),
    {
        reveal_strlit("true");
        reveal_strlit("flase");
        assert("true"@.len() != "flase"@.len());
    }
}

impl From<&HvTypoBool> for bool {
    fn from(b: &HvTypoBool) -> (r: bool) {
        match *b {
            HvTypoBool::True => true,
            HvTypoBool::Flase => false,
        }
    }
}

impl vstd::std_specs::convert::FromSpecImpl<&HvTypoBool> for bool {
    open spec fn obeys_from_spec() -> bool {
        true
    }

    open spec fn from_spec(b: &HvTypoBool) -> bool {
        b.spec_to_bool()
    }
}

/// The outcome that a reply reports.
#[derive(Debug, Clone, Copy, PartialEq, Eq, Structural)]
pub enum ProbeMatchResult {
    /// The device refused the request. Written `failed`.
    Failed,
    /// The device did what was asked. Written `success`.
    Success,
}

impl ProbeMatchResult {
    /// The literal that stands for the outcome on the wire.
    pub open spec fn wire_text(self) -> Seq<char> {
        match self {
            ProbeMatchResult::Failed => "failed"@,
            ProbeMatchResult::Success => "success"@,
        }
    }

    /// What a wire literal denotes as an outcome, nothing for other text.
    pub open spec fn parse_spec(s: Seq<char>) -> Option<ProbeMatchResult> {
        if s == "failed"@ {
            Some(ProbeMatchResult::Failed)
        } else if s == "success"@ {
            Some(ProbeMatchResult::Success)
        } else {
            None
        }
    }

    /// The literal to put on the wire.
    pub fn to_wire(&self) -> (r: &'static str)
        ensures
            r@ == self.wire_text(),
    {
        match self {
            ProbeMatchResult::Failed => "failed",
            ProbeMatchResult::Success => "success",
        }
    }

    /// Reads a wire literal.
    pub fn parse(s: &str) -> (r: Option<ProbeMatchResult>)
        ensures
            r == ProbeMatchResult::parse_spec(s@),
    {
        if str_equal(s, "failed") {
            Some(ProbeMatchResult::Failed)
        } else if str_equal(s, "success") {
            Some(ProbeMatchResult::Success)
        } else {
            None
        }
    }

    /// Every outcome is read back from its own wire literal.
    pub proof fn lemma_wire_round_trip(self)
        ensures
            ProbeMatchResult::parse_spec(self.wire_text()) == Some(self),
    {
        reveal_strlit("failed");
        reveal_strlit("success");
        assert("failed"@.len() != "success"@.len());
    }
}

/// The attributes that a device reports of itself, in the order in which a
/// record lists them.
#[derive(Debug, Clone, Copy, PartialEq, Eq, Structural)]
pub enum Attribute {
    /// The model of the device. Written `DeviceType`.
    DeviceType,
    /// The description that the device gives of itself. Written `DeviceDescription`.
    DeviceDescription,
    /// The serial number. Written `DeviceSN`.
    DeviceSn,
    /// The port of the command service. Written `CommandPort`.
    CommandPort,
    /// The port of the web service. Written `HttpPort`.
    HttpPort,
    /// The hardware address. Written `MAC`.
    Mac,
    /// The IPv4 address. Written `IPv4Address`.
    Ipv4Address,
    /// The IPv4 subnet mask. Written `IPv4SubnetMask`.
    Ipv4SubnetMask,
    /// The IPv4 gateway. Written `IPv4Gateway`.
    Ipv4Gateway,
    /// The IPv6 address. Written `IPv6Address`.
    Ipv6Address,
    /// The IPv6 gateway. Written `IPv6Gateway`.
    Ipv6Gateway,
    /// The length of the IPv6 prefix. Written `IPv6MaskLen`.
    Ipv6MaskLen,
    /// Whether the device takes its address from DHCP. Written `DHCP`.
    Dhcp,
    /// The number of analog channels. Written `AnalogChannelNum`.
    AnalogChannelNum,
    /// The number of digital channels. Written `DigitalChannelNum`.
    DigitalChannelNum,
    /// The firmware version. Written `SoftwareVersion`.
    SoftwareVersion,
    /// The version of the signal processor's firmware. Written `DSPVersion`.
    DspVersion,
    /// The time at which the device started. Written `BootTime`.
    BootTime,
    /// Whether the device can be reset. Written `ResetAbility`.
    ResetAbility,
    /// The number of disks. Written `DiskNumber`.
    DiskNumber,
    /// Whether the device has been activated. Written `Activated`.
    Activated,
    /// Whether the password can be reset. Written `PasswordResetAbility`.
    PasswordResetAbility,
    /// Whether the second way of resetting the password is offered. Written
    /// `PasswordResetModeSecond`.
    PasswordResetModeSecond,
    /// Whether the device can use the cloud platform. Written `SupportHCPlatform`.
    SupportHcPlatform,
    /// Whether the cloud platform is switched on. Written `HCPlatformEnable`.
    HcPlatformEnable,
    /// Whether the verification code has been changed, as the device words it.
    /// Written `IsModifyVerificationCode`.
    IsModifyVerificationCode,
}

impl Attribute {
    /// The name of the attribute's element on the wire.
    pub open spec fn wire_name(self) -> Seq<char> {
        match self {
            Attribute::DeviceType => "DeviceType"@,
            Attribute::DeviceDescription => "DeviceDescription"@,
            Attribute::DeviceSn => "DeviceSN"@,
            Attribute::CommandPort => "CommandPort"@,
            Attribute::HttpPort => "HttpPort"@,
            Attribute::Mac => "MAC"@,
            Attribute::Ipv4Address => "IPv4Address"@,
            Attribute::Ipv4SubnetMask => "IPv4SubnetMask"@,
            Attribute::Ipv4Gateway => "IPv4Gateway"@,
            Attribute::Ipv6Address => "IPv6Address"@,
            Attribute::Ipv6Gateway => "IPv6Gateway"@,
            Attribute::Ipv6MaskLen => "IPv6MaskLen"@,
            Attribute::Dhcp => "DHCP"@,
            Attribute::AnalogChannelNum => "AnalogChannelNum"@,
            Attribute::DigitalChannelNum => "DigitalChannelNum"@,
            Attribute::SoftwareVersion => "SoftwareVersion"@,
            Attribute::DspVersion => "DSPVersion"@,
            Attribute::BootTime => "BootTime"@,
            Attribute::ResetAbility => "ResetAbility"@,
            Attribute::DiskNumber => "DiskNumber"@,
            Attribute::Activated => "Activated"@,
            Attribute::PasswordResetAbility => "PasswordResetAbility"@,
            Attribute::PasswordResetModeSecond => "PasswordResetModeSecond"@,
            Attribute::SupportHcPlatform => "SupportHCPlatform"@,
            Attribute::HcPlatformEnable => "HCPlatformEnable"@,
            Attribute::IsModifyVerificationCode => "IsModifyVerificationCode"@,
        }
    }

    /// The name of the attribute's element on the wire.
    pub fn name(&self) -> (r: &'static str)
        ensures
            r@ == self.wire_name(),
    {
        match self {
            Attribute::DeviceType => "DeviceType",
            Attribute::DeviceDescription => "DeviceDescription",
            Attribute::DeviceSn => "DeviceSN",
            Attribute::CommandPort => "CommandPort",
            Attribute::HttpPort => "HttpPort",
            Attribute::Mac => "MAC",
            Attribute::Ipv4Address => "IPv4Address",
            Attribute::Ipv4SubnetMask => "IPv4SubnetMask",
            Attribute::Ipv4Gateway => "IPv4Gateway",
            Attribute::Ipv6Address => "IPv6Address",
            Attribute::Ipv6Gateway => "IPv6Gateway",
            Attribute::Ipv6MaskLen => "IPv6MaskLen",
            Attribute::Dhcp => "DHCP",
            Attribute::AnalogChannelNum => "AnalogChannelNum",
            Attribute::DigitalChannelNum => "DigitalChannelNum",
            Attribute::SoftwareVersion => "SoftwareVersion",
            Attribute::DspVersion => "DSPVersion",
            Attribute::BootTime => "BootTime",
            Attribute::ResetAbility => "ResetAbility",
            Attribute::DiskNumber => "DiskNumber",
            Attribute::Activated => "Activated",
            Attribute::PasswordResetAbility => "PasswordResetAbility",
            Attribute::PasswordResetModeSecond => "PasswordResetModeSecond",
            Attribute::SupportHcPlatform => "SupportHCPlatform",
            Attribute::HcPlatformEnable => "HCPlatformEnable",
            Attribute::IsModifyVerificationCode => "IsModifyVerificationCode",
        }
    }

    /// How the attribute's value is written on the wire.
    pub open spec fn kind(self) -> AttributeKind {
        match self {
            Attribute::DeviceType => AttributeKind::Text,
            Attribute::DeviceDescription => AttributeKind::Text,
            Attribute::DeviceSn => AttributeKind::Text,
            Attribute::CommandPort => AttributeKind::Number,
            Attribute::HttpPort => AttributeKind::Number,
            Attribute::Mac => AttributeKind::Text,
            Attribute::Ipv4Address => AttributeKind::Text,
            Attribute::Ipv4SubnetMask => AttributeKind::Text,
            Attribute::Ipv4Gateway => AttributeKind::Text,
            Attribute::Ipv6Address => AttributeKind::Text,
            Attribute::Ipv6Gateway => AttributeKind::Text,
            Attribute::Ipv6MaskLen => AttributeKind::Number,
            Attribute::Dhcp => AttributeKind::Flag,
            Attribute::AnalogChannelNum => AttributeKind::Number,
            Attribute::DigitalChannelNum => AttributeKind::Number,
            Attribute::SoftwareVersion => AttributeKind::Text,
            Attribute::DspVersion => AttributeKind::Text,
            Attribute::BootTime => AttributeKind::Text,
            Attribute::ResetAbility => AttributeKind::Flag,
            Attribute::DiskNumber => AttributeKind::Number,
            Attribute::Activated => AttributeKind::Flag,
            Attribute::PasswordResetAbility => AttributeKind::Flag,
            Attribute::PasswordResetModeSecond => AttributeKind::Flag,
            Attribute::SupportHcPlatform => AttributeKind::Flag,
            Attribute::HcPlatformEnable => AttributeKind::TypoFlag,
            Attribute::IsModifyVerificationCode => AttributeKind::Text,
        }
    }

    /// The attribute's place in the order of the record, counted from 0.
    pub open spec fn index(self) -> int {
        match self {
            Attribute::DeviceType => 0,
            Attribute::DeviceDescription => 1,
            Attribute::DeviceSn => 2,
            Attribute::CommandPort => 3,
            Attribute::HttpPort => 4,
            Attribute::Mac => 5,
            Attribute::Ipv4Address => 6,
            Attribute::Ipv4SubnetMask => 7,
            Attribute::Ipv4Gateway => 8,
            Attribute::Ipv6Address => 9,
            Attribute::Ipv6Gateway => 10,
            Attribute::Ipv6MaskLen => 11,
            Attribute::Dhcp => 12,
            Attribute::AnalogChannelNum => 13,
            Attribute::DigitalChannelNum => 14,
            Attribute::SoftwareVersion => 15,
            Attribute::DspVersion => 16,
            Attribute::BootTime => 17,
            Attribute::ResetAbility => 18,
            Attribute::DiskNumber => 19,
            Attribute::Activated => 20,
            Attribute::PasswordResetAbility => 21,
            Attribute::PasswordResetModeSecond => 22,
            Attribute::SupportHcPlatform => 23,
            Attribute::HcPlatformEnable => 24,
            Attribute::IsModifyVerificationCode => 25,
        }
    }

    /// The attribute at place `i` in the order of the record.
    pub open spec fn at(i: int) -> Attribute {
        if i == 0 {
            Attribute::DeviceType
        } else if i == 1 {
            Attribute::DeviceDescription
        } else if i == 2 {
            Attribute::DeviceSn
        } else if i == 3 {
            Attribute::CommandPort
        } else if i == 4 {
            Attribute::HttpPort
        } else if i == 5 {
            Attribute::Mac
        } else if i == 6 {
            Attribute::Ipv4Address
        } else if i == 7 {
            Attribute::Ipv4SubnetMask
        } else if i == 8 {
            Attribute::Ipv4Gateway
        } else if i == 9 {
            Attribute::Ipv6Address
        } else if i == 10 {
            Attribute::Ipv6Gateway
        } else if i == 11 {
            Attribute::Ipv6MaskLen
        } else if i == 12 {
            Attribute::Dhcp
        } else if i == 13 {
            Attribute::AnalogChannelNum
        } else if i == 14 {
            Attribute::DigitalChannelNum
        } else if i == 15 {
            Attribute::SoftwareVersion
        } else if i == 16 {
            Attribute::DspVersion
        } else if i == 17 {
            Attribute::BootTime
        } else if i == 18 {
            Attribute::ResetAbility
        } else if i == 19 {
            Attribute::DiskNumber
        } else if i == 20 {
            Attribute::Activated
        } else if i == 21 {
            Attribute::PasswordResetAbility
        } else if i == 22 {
            Attribute::PasswordResetModeSecond
        } else if i == 23 {
            Attribute::SupportHcPlatform
        } else if i == 24 {
            Attribute::HcPlatformEnable
        } else {
            Attribute::IsModifyVerificationCode
        }
    }
}

/// The number of attributes that a record lists.
pub open spec fn attribute_count() -> int {
    26
}

/// The ways in which the value of an attribute is written on the wire.
#[derive(Debug, Clone, Copy, PartialEq, Eq, Structural)]
pub enum AttributeKind {
    /// Any text, taken as it is.
    Text,
    /// A decimal number.
    Number,
    /// A boolean, spelled properly.
    Flag,
    /// A boolean whose false value is misspelled.
    TypoFlag,
}

/// Why a reply could not be reduced to a device record.
#[derive(Debug, Clone, Copy, PartialEq, Eq, Structural)]
pub enum ReductionError {
    /// The device reported that the request failed.
    DeviceRejected,
    /// The reply lacks an attribute that a record needs; `missing` is the
    /// first such attribute in the order of the record.
    IncompleteResponse { missing: Attribute },
}

impl ReductionError {
    /// What to tell a person about the error.
    pub open spec fn message(self) -> Seq<char> {
        match self {
            ReductionError::DeviceRejected => "Camera indicated failure"@,
            ReductionError::IncompleteResponse { .. } => "Invalid response"@,
        }
    }

    /// What to tell a person about the error.
    pub fn describe(&self) -> (r: String)
        ensures
            r@ == self.message(),
    {
        match self {
            ReductionError::DeviceRejected => "Camera indicated failure".to_owned(),
            ReductionError::IncompleteResponse { .. } => "Invalid response".to_owned(),
        }
    }
}

/// A complete description of one device, as a successful reply gives it.
#[derive(Debug, PartialEq, Eq)]
pub struct ProbeMatchSuccessBody {
    /// The model of the device.
    pub device_type: String,
    /// The description that the device gives of itself.
    pub device_description: String,
    /// The serial number.
    pub device_sn: String,
    /// The port of the command service.
    pub command_port: u32,
    /// The port of the web service.
    pub http_port: u32,
    /// The hardware address.
    pub mac: String,
    /// The IPv4 address.
    pub ipv4_address: String,
    /// The IPv4 subnet mask.
    pub ipv4_subnet_mask: String,
    /// The IPv4 gateway.
    pub ipv4_gateway: String,
    /// The IPv6 address.
    pub ipv6_address: String,
    /// The IPv6 gateway.
    pub ipv6_gateway: String,
    /// The length of the IPv6 prefix.
    pub ipv6_mask_len: u32,
    /// Whether the device takes its address from DHCP.
    pub dhcp: bool,
    /// The number of analog channels.
    pub analog_channel_num: u32,
    /// The number of digital channels.
    pub digital_channel_num: u32,
    /// The firmware version.
    pub software_version: String,
    /// The version of the signal processor's firmware.
    pub dsp_version: String,
    /// The time at which the device started.
    pub boot_time: String,
    /// Whether the device can be reset.
    pub reset_ability: bool,
    /// The number of disks.
    pub disk_number: u32,
    /// Whether the device has been activated.
    pub activated: bool,
    /// Whether the password can be reset.
    pub password_reset_ability: bool,
    /// Whether the second way of resetting the password is offered.
    pub password_reset_mode_second: bool,
    /// Whether the device can use the cloud platform.
    pub support_hc_platform: bool,
    /// Whether the cloud platform is switched on.
    pub hc_platform_enable: HvTypoBool,
    /// Whether the verification code has been changed, as the device words it.
    pub is_modify_verification_code: String,
}

/// The mathematical value of a [`ProbeMatchSuccessBody`].
pub struct DeviceRecord {
    pub device_type: Seq<char>,
    pub device_description: Seq<char>,
    pub device_sn: Seq<char>,
    pub command_port: u32,
    pub http_port: u32,
    pub mac: Seq<char>,
    pub ipv4_address: Seq<char>,
    pub ipv4_subnet_mask: Seq<char>,
    pub ipv4_gateway: Seq<char>,
    pub ipv6_address: Seq<char>,
    pub ipv6_gateway: Seq<char>,
    pub ipv6_mask_len: u32,
    pub dhcp: bool,
    pub analog_channel_num: u32,
    pub digital_channel_num: u32,
    pub software_version: Seq<char>,
    pub dsp_version: Seq<char>,
    pub boot_time: Seq<char>,
    pub reset_ability: bool,
    pub disk_number: u32,
    pub activated: bool,
    pub password_reset_ability: bool,
    pub password_reset_mode_second: bool,
    pub support_hc_platform: bool,
    pub hc_platform_enable: HvTypoBool,
    pub is_modify_verification_code: Seq<char>,
}

impl View for ProbeMatchSuccessBody {
    type V = DeviceRecord;

    open spec fn view(&self) -> DeviceRecord {
        DeviceRecord {
            device_type: self.device_type@,
            device_description: self.device_description@,
            device_sn: self.device_sn@,
            command_port: self.command_port,
            http_port: self.http_port,
            mac: self.mac@,
            ipv4_address: self.ipv4_address@,
            ipv4_subnet_mask: self.ipv4_subnet_mask@,
            ipv4_gateway: self.ipv4_gateway@,
            ipv6_address: self.ipv6_address@,
            ipv6_gateway: self.ipv6_gateway@,
            ipv6_mask_len: self.ipv6_mask_len,
            dhcp: self.dhcp,
            analog_channel_num: self.analog_channel_num,
            digital_channel_num: self.digital_channel_num,
            software_version: self.software_version@,
            dsp_version: self.dsp_version@,
            boot_time: self.boot_time@,
            reset_ability: self.reset_ability,
            disk_number: self.disk_number,
            activated: self.activated,
            password_reset_ability: self.password_reset_ability,
            password_reset_mode_second: self.password_reset_mode_second,
            support_hc_platform: self.support_hc_platform,
            hc_platform_enable: self.hc_platform_enable,
            is_modify_verification_code: self.is_modify_verification_code@,
        }
    }
}

impl Clone for ProbeMatchSuccessBody {
    fn clone(&self) -> (r: Self)
        ensures
            r@ == self@,
    {
        ProbeMatchSuccessBody {
            device_type: self.device_type.clone(),
            device_description: self.device_description.clone(),
            device_sn: self.device_sn.clone(),
            command_port: self.command_port,
            http_port: self.http_port,
            mac: self.mac.clone(),
            ipv4_address: self.ipv4_address.clone(),
            ipv4_subnet_mask: self.ipv4_subnet_mask.clone(),
            ipv4_gateway: self.ipv4_gateway.clone(),
            ipv6_address: self.ipv6_address.clone(),
            ipv6_gateway: self.ipv6_gateway.clone(),
            ipv6_mask_len: self.ipv6_mask_len,
            dhcp: self.dhcp,
            analog_channel_num: self.analog_channel_num,
            digital_channel_num: self.digital_channel_num,
            software_version: self.software_version.clone(),
            dsp_version: self.dsp_version.clone(),
            boot_time: self.boot_time.clone(),
            reset_ability: self.reset_ability,
            disk_number: self.disk_number,
            activated: self.activated,
            password_reset_ability: self.password_reset_ability,
            password_reset_mode_second: self.password_reset_mode_second,
            support_hc_platform: self.support_hc_platform,
            hc_platform_enable: self.hc_platform_enable,
            is_modify_verification_code: self.is_modify_verification_code.clone(),
        }
    }
}

/// An empty reply body: a reply that carries nothing beside its variant.
#[derive(Debug, Clone, Copy, PartialEq, Eq, Structural)]
pub struct ProbeMatchBody {}

/// The replies whose shape is known beyond that of a device record, each
/// with the fields confirmed for it.
#[derive(Debug, Clone, PartialEq, Eq)]
pub enum ProbeMatch2 {
    /// Written `inquire`.
    Inquire { uuid: String, result: ProbeMatchResult },
    /// Written `getcode`.
    GetCode { uuid: String, result: ProbeMatchResult, code: String },
    /// Written `getencryptstring`.
    GetEncryptString { uuid: String, result: ProbeMatchResult, encrypt_string: String },
    /// Written `exchangecode`.
    ExchangeCode { uuid: String, result: ProbeMatchResult, code: String },
    /// Written `activate `, with the space at its end: the devices send it
    /// so.
    Activate { uuid: String, result: ProbeMatchResult },
}

impl ProbeMatch2 {
    /// The variant's name on the wire, letter for letter.
    pub open spec fn wire_tag(self) -> Seq<char> {
        match self {
            ProbeMatch2::Inquire { .. } => "inquire"@,
            ProbeMatch2::GetCode { .. } => "getcode"@,
            ProbeMatch2::GetEncryptString { .. } => "getencryptstring"@,
            ProbeMatch2::ExchangeCode { .. } => "exchangecode"@,
            ProbeMatch2::Activate { .. } => "activate "@,
        }
    }

    /// The variant's name on the wire, letter for letter.
    pub fn tag(&self) -> (r: &'static str)
        ensures
            r@ == self.wire_tag(),
    {
        match self {
            ProbeMatch2::Inquire { .. } => "inquire",
            ProbeMatch2::GetCode { .. } => "getcode",
            ProbeMatch2::GetEncryptString { .. } => "getencryptstring",
            ProbeMatch2::ExchangeCode { .. } => "exchangecode",
            ProbeMatch2::Activate { .. } => "activate ",
        }
    }
}

/// Whether `s` is the wire name of one of the replies of [`ProbeMatch2`].
pub open spec fn is_reply_tag(s: Seq<char>) -> bool {
    s == "inquire"@ || s == "getcode"@ || s == "getencryptstring"@ || s == "exchangecode"@ || s
        == "activate "@
}

/// A reply as it was received. Every attribute is optional: a refusing
/// device sends none, and which of them a reply must hold is decided when
/// the reply is reduced, not when it is read.
#[derive(Debug, Clone, PartialEq, Eq)]
pub struct ProbeMatch {
    /// The correlation id that the reply carries.
    pub uuid: String,
    /// The name of the reply's variant.
    pub types: String,
    /// The outcome, where the reply reports one.
    pub result: Option<ProbeMatchResult>,
    /// The model of the device.
    pub device_type: Option<String>,
    /// The description that the device gives of itself.
    pub device_description: Option<String>,
    /// The serial number.
    pub device_sn: Option<String>,
    /// The port of the command service.
    pub command_port: Option<u32>,
    /// The port of the web service.
    pub http_port: Option<u32>,
    /// The hardware address.
    pub mac: Option<String>,
    /// The IPv4 address.
    pub ipv4_address: Option<String>,
    /// The IPv4 subnet mask.
    pub ipv4_subnet_mask: Option<String>,
    /// The IPv4 gateway.
    pub ipv4_gateway: Option<String>,
    /// The IPv6 address.
    pub ipv6_address: Option<String>,
    /// The IPv6 gateway.
    pub ipv6_gateway: Option<String>,
    /// The length of the IPv6 prefix.
    pub ipv6_mask_len: Option<u32>,
    /// Whether the device takes its address from DHCP.
    pub dhcp: Option<bool>,
    /// The number of analog channels.
    pub analog_channel_num: Option<u32>,
    /// The number of digital channels.
    pub digital_channel_num: Option<u32>,
    /// The firmware version.
    pub software_version: Option<String>,
    /// The version of the signal processor's firmware.
    pub dsp_version: Option<String>,
    /// The time at which the device started.
    pub boot_time: Option<String>,
    /// Whether the device can be reset.
    pub reset_ability: Option<bool>,
    /// The number of disks.
    pub disk_number: Option<u32>,
    /// Whether the device has been activated.
    pub activated: Option<bool>,
    /// Whether the password can be reset.
    pub password_reset_ability: Option<bool>,
    /// Whether the second way of resetting the password is offered.
    pub password_reset_mode_second: Option<bool>,
    /// Whether the device can use the cloud platform.
    pub support_hc_platform: Option<bool>,
    /// Whether the cloud platform is switched on.
    pub hc_platform_enable: Option<HvTypoBool>,
    /// Whether the verification code has been changed, as the device words it.
    pub is_modify_verification_code: Option<String>,
}

/// The mathematical value of a [`ProbeMatch`].
pub struct RawResponse {
    pub uuid: Seq<char>,
    pub types: Seq<char>,
    pub result: Option<ProbeMatchResult>,
    pub device_type: Option<Seq<char>>,
    pub device_description: Option<Seq<char>>,
    pub device_sn: Option<Seq<char>>,
    pub command_port: Option<u32>,
    pub http_port: Option<u32>,
    pub mac: Option<Seq<char>>,
    pub ipv4_address: Option<Seq<char>>,
    pub ipv4_subnet_mask: Option<Seq<char>>,
    pub ipv4_gateway: Option<Seq<char>>,
    pub ipv6_address: Option<Seq<char>>,
    pub ipv6_gateway: Option<Seq<char>>,
    pub ipv6_mask_len: Option<u32>,
    pub dhcp: Option<bool>,
    pub analog_channel_num: Option<u32>,
    pub digital_channel_num: Option<u32>,
    pub software_version: Option<Seq<char>>,
    pub dsp_version: Option<Seq<char>>,
    pub boot_time: Option<Seq<char>>,
    pub reset_ability: Option<bool>,
    pub disk_number: Option<u32>,
    pub activated: Option<bool>,
    pub password_reset_ability: Option<bool>,
    pub password_reset_mode_second: Option<bool>,
    pub support_hc_platform: Option<bool>,
    pub hc_platform_enable: Option<HvTypoBool>,
    pub is_modify_verification_code: Option<Seq<char>>,
}

/// The characters of an optional string.
pub open spec fn text_view(o: Option<String>) -> Option<Seq<char>> {
    match o {
        Some(s) => Some(s@),
        None => None,
    }
}

impl View for ProbeMatch {
    type V = RawResponse;

    open spec fn view(&self) -> RawResponse {
        RawResponse {
            uuid: self.uuid@,
            types: self.types@,
            result: self.result,
            device_type: text_view(self.device_type),
            device_description: text_view(self.device_description),
            device_sn: text_view(self.device_sn),
            command_port: self.command_port,
            http_port: self.http_port,
            mac: text_view(self.mac),
            ipv4_address: text_view(self.ipv4_address),
            ipv4_subnet_mask: text_view(self.ipv4_subnet_mask),
            ipv4_gateway: text_view(self.ipv4_gateway),
            ipv6_address: text_view(self.ipv6_address),
            ipv6_gateway: text_view(self.ipv6_gateway),
            ipv6_mask_len: self.ipv6_mask_len,
            dhcp: self.dhcp,
            analog_channel_num: self.analog_channel_num,
            digital_channel_num: self.digital_channel_num,
            software_version: text_view(self.software_version),
            dsp_version: text_view(self.dsp_version),
            boot_time: text_view(self.boot_time),
            reset_ability: self.reset_ability,
            disk_number: self.disk_number,
            activated: self.activated,
            password_reset_ability: self.password_reset_ability,
            password_reset_mode_second: self.password_reset_mode_second,
            support_hc_platform: self.support_hc_platform,
            hc_platform_enable: self.hc_platform_enable,
            is_modify_verification_code: text_view(self.is_modify_verification_code),
        }
    }
}

impl DeviceRecord {
    /// The reply that reports exactly this record, under the given
    /// correlation id, variant name and outcome.
    pub open spec fn as_response(
        self,
        uuid: Seq<char>,
        types: Seq<char>,
        result: Option<ProbeMatchResult>,
    ) -> RawResponse {
        RawResponse {
            uuid,
            types,
            result,
            device_type: Some(self.device_type),
            device_description: Some(self.device_description),
            device_sn: Some(self.device_sn),
            command_port: Some(self.command_port),
            http_port: Some(self.http_port),
            mac: Some(self.mac),
            ipv4_address: Some(self.ipv4_address),
            ipv4_subnet_mask: Some(self.ipv4_subnet_mask),
            ipv4_gateway: Some(self.ipv4_gateway),
            ipv6_address: Some(self.ipv6_address),
            ipv6_gateway: Some(self.ipv6_gateway),
            ipv6_mask_len: Some(self.ipv6_mask_len),
            dhcp: Some(self.dhcp),
            analog_channel_num: Some(self.analog_channel_num),
            digital_channel_num: Some(self.digital_channel_num),
            software_version: Some(self.software_version),
            dsp_version: Some(self.dsp_version),
            boot_time: Some(self.boot_time),
            reset_ability: Some(self.reset_ability),
            disk_number: Some(self.disk_number),
            activated: Some(self.activated),
            password_reset_ability: Some(self.password_reset_ability),
            password_reset_mode_second: Some(self.password_reset_mode_second),
            support_hc_platform: Some(self.support_hc_platform),
            hc_platform_enable: Some(self.hc_platform_enable),
            is_modify_verification_code: Some(self.is_modify_verification_code),
        }
    }
}

impl RawResponse {
    /// Whether the reply holds the attribute `a`.
    pub open spec fn has(self, a: Attribute) -> bool {
        match a {
            Attribute::DeviceType => self.device_type is Some,
            Attribute::DeviceDescription => self.device_description is Some,
            Attribute::DeviceSn => self.device_sn is Some,
            Attribute::CommandPort => self.command_port is Some,
            Attribute::HttpPort => self.http_port is Some,
            Attribute::Mac => self.mac is Some,
            Attribute::Ipv4Address => self.ipv4_address is Some,
            Attribute::Ipv4SubnetMask => self.ipv4_subnet_mask is Some,
            Attribute::Ipv4Gateway => self.ipv4_gateway is Some,
            Attribute::Ipv6Address => self.ipv6_address is Some,
            Attribute::Ipv6Gateway => self.ipv6_gateway is Some,
            Attribute::Ipv6MaskLen => self.ipv6_mask_len is Some,
            Attribute::Dhcp => self.dhcp is Some,
            Attribute::AnalogChannelNum => self.analog_channel_num is Some,
            Attribute::DigitalChannelNum => self.digital_channel_num is Some,
            Attribute::SoftwareVersion => self.software_version is Some,
            Attribute::DspVersion => self.dsp_version is Some,
            Attribute::BootTime => self.boot_time is Some,
            Attribute::ResetAbility => self.reset_ability is Some,
            Attribute::DiskNumber => self.disk_number is Some,
            Attribute::Activated => self.activated is Some,
            Attribute::PasswordResetAbility => self.password_reset_ability is Some,
            Attribute::PasswordResetModeSecond => self.password_reset_mode_second is Some,
            Attribute::SupportHcPlatform => self.support_hc_platform is Some,
            Attribute::HcPlatformEnable => self.hc_platform_enable is Some,
            Attribute::IsModifyVerificationCode => self.is_modify_verification_code is Some,
        }
    }

    /// The first attribute, in the order of the record, that the reply
    /// lacks; `None` where it holds them all.
    pub open spec fn first_missing(self) -> Option<Attribute> {
        if self.device_type is None {
            Some(Attribute::DeviceType)
        } else if self.device_description is None {
            Some(Attribute::DeviceDescription)
        } else if self.device_sn is None {
            Some(Attribute::DeviceSn)
        } else if self.command_port is None {
            Some(Attribute::CommandPort)
        } else if self.http_port is None {
            Some(Attribute::HttpPort)
        } else if self.mac is None {
            Some(Attribute::Mac)
        } else if self.ipv4_address is None {
            Some(Attribute::Ipv4Address)
        } else if self.ipv4_subnet_mask is None {
            Some(Attribute::Ipv4SubnetMask)
        } else if self.ipv4_gateway is None {
            Some(Attribute::Ipv4Gateway)
        } else if self.ipv6_address is None {
            Some(Attribute::Ipv6Address)
        } else if self.ipv6_gateway is None {
            Some(Attribute::Ipv6Gateway)
        } else if self.ipv6_mask_len is None {
            Some(Attribute::Ipv6MaskLen)
        } else if self.dhcp is None {
            Some(Attribute::Dhcp)
        } else if self.analog_channel_num is None {
            Some(Attribute::AnalogChannelNum)
        } else if self.digital_channel_num is None {
            Some(Attribute::DigitalChannelNum)
        } else if self.software_version is None {
            Some(Attribute::SoftwareVersion)
        } else if self.dsp_version is None {
            Some(Attribute::DspVersion)
        } else if self.boot_time is None {
            Some(Attribute::BootTime)
        } else if self.reset_ability is None {
            Some(Attribute::ResetAbility)
        } else if self.disk_number is None {
            Some(Attribute::DiskNumber)
        } else if self.activated is None {
            Some(Attribute::Activated)
        } else if self.password_reset_ability is None {
            Some(Attribute::PasswordResetAbility)
        } else if self.password_reset_mode_second is None {
            Some(Attribute::PasswordResetModeSecond)
        } else if self.support_hc_platform is None {
            Some(Attribute::SupportHcPlatform)
        } else if self.hc_platform_enable is None {
            Some(Attribute::HcPlatformEnable)
        } else if self.is_modify_verification_code is None {
            Some(Attribute::IsModifyVerificationCode)
        } else {
            None
        }
    }

    /// The record made of the reply's attributes; it means something only
    /// where none of them is missing.
    pub open spec fn record(self) -> DeviceRecord {
        DeviceRecord {
            device_type: self.device_type->0,
            device_description: self.device_description->0,
            device_sn: self.device_sn->0,
            command_port: self.command_port->0,
            http_port: self.http_port->0,
            mac: self.mac->0,
            ipv4_address: self.ipv4_address->0,
            ipv4_subnet_mask: self.ipv4_subnet_mask->0,
            ipv4_gateway: self.ipv4_gateway->0,
            ipv6_address: self.ipv6_address->0,
            ipv6_gateway: self.ipv6_gateway->0,
            ipv6_mask_len: self.ipv6_mask_len->0,
            dhcp: self.dhcp->0,
            analog_channel_num: self.analog_channel_num->0,
            digital_channel_num: self.digital_channel_num->0,
            software_version: self.software_version->0,
            dsp_version: self.dsp_version->0,
            boot_time: self.boot_time->0,
            reset_ability: self.reset_ability->0,
            disk_number: self.disk_number->0,
            activated: self.activated->0,
            password_reset_ability: self.password_reset_ability->0,
            password_reset_mode_second: self.password_reset_mode_second->0,
            support_hc_platform: self.support_hc_platform->0,
            hc_platform_enable: self.hc_platform_enable->0,
            is_modify_verification_code: self.is_modify_verification_code->0,
        }
    }

    /// The reduction of a reply. A reply that reports failure is refused
    /// without a look at its attributes. Any other reply, whether it
    /// reports success or no outcome at all, gives its record if it holds
    /// every attribute, and else names the first that it lacks.
    pub open spec fn reduce(self) -> Result<DeviceRecord, ReductionError> {
        if self.result == Some(ProbeMatchResult::Failed) {
            Err(ReductionError::DeviceRejected)
        } else {
            match self.first_missing() {
                Some(missing) => Err(ReductionError::IncompleteResponse { missing }),
                None => Ok(self.record()),
            }
        }
    }
}

/// The mathematical value of what a reduction gives.
pub open spec fn reduction_view(r: Result<ProbeMatchSuccessBody, ReductionError>) -> Result<
    DeviceRecord,
    ReductionError,
> {
    match r {
        Ok(body) => Ok(body@),
        Err(e) => Err(e),
    }
}

impl ProbeMatch {
    /// The first attribute, in the order of the record, that the reply
    /// lacks.
    pub fn first_missing(&self) -> (r: Option<Attribute>)
        ensures
            r == self@.first_missing(),
    {
        if self.device_type.is_none() {
            Some(Attribute::DeviceType)
        } else if self.device_description.is_none() {
            Some(Attribute::DeviceDescription)
        } else if self.device_sn.is_none() {
            Some(Attribute::DeviceSn)
        } else if self.command_port.is_none() {
            Some(Attribute::CommandPort)
        } else if self.http_port.is_none() {
            Some(Attribute::HttpPort)
        } else if self.mac.is_none() {
            Some(Attribute::Mac)
        } else if self.ipv4_address.is_none() {
            Some(Attribute::Ipv4Address)
        } else if self.ipv4_subnet_mask.is_none() {
            Some(Attribute::Ipv4SubnetMask)
        } else if self.ipv4_gateway.is_none() {
            Some(Attribute::Ipv4Gateway)
        } else if self.ipv6_address.is_none() {
            Some(Attribute::Ipv6Address)
        } else if self.ipv6_gateway.is_none() {
            Some(Attribute::Ipv6Gateway)
        } else if self.ipv6_mask_len.is_none() {
            Some(Attribute::Ipv6MaskLen)
        } else if self.dhcp.is_none() {
            Some(Attribute::Dhcp)
        } else if self.analog_channel_num.is_none() {
            Some(Attribute::AnalogChannelNum)
        } else if self.digital_channel_num.is_none() {
            Some(Attribute::DigitalChannelNum)
        } else if self.software_version.is_none() {
            Some(Attribute::SoftwareVersion)
        } else if self.dsp_version.is_none() {
            Some(Attribute::DspVersion)
        } else if self.boot_time.is_none() {
            Some(Attribute::BootTime)
        } else if self.reset_ability.is_none() {
            Some(Attribute::ResetAbility)
        } else if self.disk_number.is_none() {
            Some(Attribute::DiskNumber)
        } else if self.activated.is_none() {
            Some(Attribute::Activated)
        } else if self.password_reset_ability.is_none() {
            Some(Attribute::PasswordResetAbility)
        } else if self.password_reset_mode_second.is_none() {
            Some(Attribute::PasswordResetModeSecond)
        } else if self.support_hc_platform.is_none() {
            Some(Attribute::SupportHcPlatform)
        } else if self.hc_platform_enable.is_none() {
            Some(Attribute::HcPlatformEnable)
        } else if self.is_modify_verification_code.is_none() {
            Some(Attribute::IsModifyVerificationCode)
        } else {
            None
        }
    }

    /// Turns the reply into a record if it holds every attribute.
    pub fn into_success_body(self) -> (r: Option<ProbeMatchSuccessBody>)
        ensures
            r is Some <==> self@.first_missing() is None,
            r is Some ==> r->0@ == self@.record(),
    {
        Some(
            ProbeMatchSuccessBody {
                device_type: self.device_type?,
                device_description: self.device_description?,
                device_sn: self.device_sn?,
                command_port: self.command_port?,
                http_port: self.http_port?,
                mac: self.mac?,
                ipv4_address: self.ipv4_address?,
                ipv4_subnet_mask: self.ipv4_subnet_mask?,
                ipv4_gateway: self.ipv4_gateway?,
                ipv6_address: self.ipv6_address?,
                ipv6_gateway: self.ipv6_gateway?,
                ipv6_mask_len: self.ipv6_mask_len?,
                dhcp: self.dhcp?,
                analog_channel_num: self.analog_channel_num?,
                digital_channel_num: self.digital_channel_num?,
                software_version: self.software_version?,
                dsp_version: self.dsp_version?,
                boot_time: self.boot_time?,
                reset_ability: self.reset_ability?,
                disk_number: self.disk_number?,
                activated: self.activated?,
                password_reset_ability: self.password_reset_ability?,
                password_reset_mode_second: self.password_reset_mode_second?,
                support_hc_platform: self.support_hc_platform?,
                hc_platform_enable: self.hc_platform_enable?,
                is_modify_verification_code: self.is_modify_verification_code?,
            },
        )
    }

    /// Reduces the reply to the record of the device that sent it, or to
    /// the reason why it gives none.
    pub fn payload(self) -> (r: Result<ProbeMatchSuccessBody, ReductionError>)
        ensures
            reduction_view(r) == self@.reduce(),
    {
        if let Some(ProbeMatchResult::Failed) = self.result {
            Err(ReductionError::DeviceRejected)
        } else {
            let missing = self.first_missing();
            match self.into_success_body() {
                Some(x) => Ok(x),
                None => Err(ReductionError::IncompleteResponse { missing: missing.unwrap() }),
            }
        }
    }
}

/// A reply that reports failure is refused, whichever attributes it holds
/// or lacks.
pub proof fn lemma_failed_is_rejected(reply: RawResponse)
    requires
        reply.result == Some(ProbeMatchResult::Failed),
    ensures
        reply.reduce() == Err::<DeviceRecord, ReductionError>(ReductionError::DeviceRejected),
{
}

/// A reply that does not report failure and lacks an attribute is refused
/// as incomplete. The attribute that the error names is one that the reply
/// lacks, and the reply holds every attribute that the record lists before
/// it.
pub proof fn lemma_missing_is_incomplete(reply: RawResponse, a: Attribute)
    requires
        reply.result != Some(ProbeMatchResult::Failed),
        !reply.has(a),
    ensures
        reply.reduce() is Err,
        reply.reduce()->Err_0 is IncompleteResponse,
        !reply.has(reply.reduce()->Err_0->missing),
        reply.reduce()->Err_0->missing.index() <= a.index(),
        forall|b: Attribute|
            b.index() < reply.reduce()->Err_0->missing.index() ==> #[trigger] reply.has(b),
{
}

/// A reply that does not report failure and holds every attribute reduces
/// to the record whose fields are the reply's attributes, each unchanged.
pub proof fn lemma_complete_reduces(
    record: DeviceRecord,
    uuid: Seq<char>,
    types: Seq<char>,
    result: Option<ProbeMatchResult>,
)
    requires
        result != Some(ProbeMatchResult::Failed),
    ensures
        record.as_response(uuid, types, result).reduce() == Ok::<DeviceRecord, ReductionError>(
            record,
        ),
{
}

} // verus!
