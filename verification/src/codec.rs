//! The wire codec: requests to bytes, and bytes to replies.

use vstd::prelude::*;
use vstd::string::*;
use vstd::utf8::*;
use crate::probe::{is_probe_tag, is_request_tag, Probe, Request};
use crate::response::{
    is_reply_tag, Attribute, AttributeKind, HvTypoBool, ProbeMatch, ProbeMatchResult, RawResponse,
};
use crate::text::{parse_bool, parse_bool_spec, parse_u32, parse_u32_spec, str_equal};
use crate::wire::{
    document, document_fields, field_value, fields_view, find_field, read_document, render_document,
    Field,
};

verus! {

/// Why a run of bytes was not read as a reply.
#[derive(Debug, Clone, Copy, PartialEq, Eq, Structural)]
pub enum DecodeError {
    /// The bytes are no document, the document lacks its correlation id or
    /// the name of its variant, or a field that is present does not read
    /// as a value of its type.
    Malformed,
    /// The document is sound but names a variant that is not known.
    UnknownVariant,
}

impl DecodeError {
    /// What to tell a person about the error.
    pub open spec fn message(self) -> Seq<char> {
        match self {
            DecodeError::Malformed => "Malformed response"@,
            DecodeError::UnknownVariant => "Unknown kind of response"@,
        }
    }

    /// What to tell a person about the error.
    pub fn describe(&self) -> (r: String)
        ensures
            r@ == self.message(),
    {
        match self {
            DecodeError::Malformed => "Malformed response".to_owned(),
            DecodeError::UnknownVariant => "Unknown kind of response".to_owned(),
        }
    }
}

/// The bytes of a request: the UTF-8 of its document, whose root element
/// is called `Probe`.
pub open spec fn encode_spec(request: Request) -> Seq<u8> {
    encode_utf8(document("Probe"@, request.fields()))
}

/// Writes a request as the bytes that go on the wire.
pub fn encode(probe: &Probe) -> (r: Vec<u8>)
    ensures
        r@ == encode_spec(probe@),
{
    let fields = probe.wire_fields();
    let text = render_document("Probe", &fields);
    text.as_str().as_bytes_vec()
}

/// Whether `s` names a variant that a reply may have: the name of a
/// request, which the reply to it repeats, or one of the names that only
/// replies have.
pub open spec fn is_known_tag(s: Seq<char>) -> bool {
    is_probe_tag(s) || is_reply_tag(s)
}

/// Whether `s` names a variant that a reply may have.
pub fn is_known_variant(s: &str) -> (r: bool)
    ensures
        r == is_known_tag(s@),
{
    is_request_tag(s) || str_equal(s, "inquire") || str_equal(s, "getcode") || str_equal(
        s,
        "getencryptstring",
    ) || str_equal(s, "exchangecode") || str_equal(s, "activate ")
}

/// The text under which the fields hold the attribute `a`, if they do.
pub open spec fn attribute_text(fields: Seq<(Seq<char>, Seq<char>)>, a: Attribute) -> Option<
    Seq<char>,
> {
    field_value(fields, a.wire_name())
}

/// Whether the attribute `a`, if the fields hold it, reads as a value of
/// its kind. Any text is a text; an absent attribute has nothing to read.
pub open spec fn readable(fields: Seq<(Seq<char>, Seq<char>)>, a: Attribute) -> bool {
    match attribute_text(fields, a) {
        None => true,
        Some(t) => match a.kind() {
            AttributeKind::Text => true,
            AttributeKind::Number => parse_u32_spec(t) is Some,
            AttributeKind::Flag => parse_bool_spec(t) is Some,
            AttributeKind::TypoFlag => HvTypoBool::parse_spec(t) is Some,
        },
    }
}

/// The number that the fields hold for `a`.
pub open spec fn number_of(fields: Seq<(Seq<char>, Seq<char>)>, a: Attribute) -> Option<u32> {
    match attribute_text(fields, a) {
        None => None,
        Some(t) => parse_u32_spec(t),
    }
}

/// The boolean that the fields hold for `a`.
pub open spec fn flag_of(fields: Seq<(Seq<char>, Seq<char>)>, a: Attribute) -> Option<bool> {
    match attribute_text(fields, a) {
        None => None,
        Some(t) => parse_bool_spec(t),
    }
}

/// The misspelled boolean that the fields hold for `a`.
pub open spec fn typo_flag_of(fields: Seq<(Seq<char>, Seq<char>)>, a: Attribute) -> Option<
    HvTypoBool,
> {
    match attribute_text(fields, a) {
        None => None,
        Some(t) => HvTypoBool::parse_spec(t),
    }
}

/// The outcome that the fields hold under `Result`.
pub open spec fn outcome_of(fields: Seq<(Seq<char>, Seq<char>)>) -> Option<ProbeMatchResult> {
    match field_value(fields, "Result"@) {
        None => None,
        Some(t) => ProbeMatchResult::parse_spec(t),
    }
}

/// Whether every field that is present reads as a value of its type: the
/// outcome, if there is one, and each attribute.
pub open spec fn well_typed(fields: Seq<(Seq<char>, Seq<char>)>) -> bool {
    &&& field_value(fields, "Result"@) is Some ==> outcome_of(fields) is Some
    &&& forall|a: Attribute| #[trigger] readable(fields, a)
}

/// The reply that a list of fields denotes. The correlation id and the
/// name of the variant must be there, and the name must be known. An
/// absent attribute is no error: it is absent in the reply too. A present
/// one that does not read as its type makes the whole list malformed.
pub open spec fn response_of(fields: Seq<(Seq<char>, Seq<char>)>) -> Result<
    RawResponse,
    DecodeError,
> {
    let uuid = field_value(fields, "Uuid"@);
    let types = field_value(fields, "Types"@);
    if uuid is None || types is None {
        Err(DecodeError::Malformed)
    } else if !is_known_tag(types->0) {
        Err(DecodeError::UnknownVariant)
    } else if !well_typed(fields) {
        Err(DecodeError::Malformed)
    } else {
        Ok(
            RawResponse {
                uuid: uuid->0,
                types: types->0,
                result: outcome_of(fields),
                device_type: attribute_text(fields, Attribute::DeviceType),
                device_description: attribute_text(fields, Attribute::DeviceDescription),
                device_sn: attribute_text(fields, Attribute::DeviceSn),
                command_port: number_of(fields, Attribute::CommandPort),
                http_port: number_of(fields, Attribute::HttpPort),
                mac: attribute_text(fields, Attribute::Mac),
                ipv4_address: attribute_text(fields, Attribute::Ipv4Address),
                ipv4_subnet_mask: attribute_text(fields, Attribute::Ipv4SubnetMask),
                ipv4_gateway: attribute_text(fields, Attribute::Ipv4Gateway),
                ipv6_address: attribute_text(fields, Attribute::Ipv6Address),
                ipv6_gateway: attribute_text(fields, Attribute::Ipv6Gateway),
                ipv6_mask_len: number_of(fields, Attribute::Ipv6MaskLen),
                dhcp: flag_of(fields, Attribute::Dhcp),
                analog_channel_num: number_of(fields, Attribute::AnalogChannelNum),
                digital_channel_num: number_of(fields, Attribute::DigitalChannelNum),
                software_version: attribute_text(fields, Attribute::SoftwareVersion),
                dsp_version: attribute_text(fields, Attribute::DspVersion),
                boot_time: attribute_text(fields, Attribute::BootTime),
                reset_ability: flag_of(fields, Attribute::ResetAbility),
                disk_number: number_of(fields, Attribute::DiskNumber),
                activated: flag_of(fields, Attribute::Activated),
                password_reset_ability: flag_of(fields, Attribute::PasswordResetAbility),
                password_reset_mode_second: flag_of(fields, Attribute::PasswordResetModeSecond),
                support_hc_platform: flag_of(fields, Attribute::SupportHcPlatform),
                hc_platform_enable: typo_flag_of(fields, Attribute::HcPlatformEnable),
                is_modify_verification_code: attribute_text(
                    fields,
                    Attribute::IsModifyVerificationCode,
                ),
            },
        )
    }
}

/// The mathematical value of what decoding gives.
pub open spec fn decoded_view(r: Result<ProbeMatch, DecodeError>) -> Result<
    RawResponse,
    DecodeError,
> {
    match r {
        Ok(reply) => Ok(reply@),
        Err(e) => Err(e),
    }
}

/// The text of a text attribute, if the fields hold it.
fn text_attribute(fields: &Vec<Field>, a: Attribute) -> (r: Option<String>)
    ensures
        crate::response::text_view(r) == attribute_text(fields_view(fields@), a),
{
    match find_field(fields, a.name()) {
        None => None,
        Some(t) => Some(t.clone()),
    }
}

/// The value of a number attribute, if the fields hold it and it reads as
/// a number.
fn number_attribute(fields: &Vec<Field>, a: Attribute) -> (r: Result<Option<u32>, DecodeError>)
    requires
        a.kind() is Number,
    ensures
        r is Ok <==> readable(fields_view(fields@), a),
        r is Ok ==> r->Ok_0 == number_of(fields_view(fields@), a),
        r is Err ==> r->Err_0 == DecodeError::Malformed,
{
    match find_field(fields, a.name()) {
        None => Ok(None),
        Some(t) => match parse_u32(t.as_str()) {
            Some(v) => Ok(Some(v)),
            None => Err(DecodeError::Malformed),
        },
    }
}

/// The value of a boolean attribute, if the fields hold it and it reads as
/// a boolean.
fn flag_attribute(fields: &Vec<Field>, a: Attribute) -> (r: Result<Option<bool>, DecodeError>)
    requires
        a.kind() is Flag,
    ensures
        r is Ok <==> readable(fields_view(fields@), a),
        r is Ok ==> r->Ok_0 == flag_of(fields_view(fields@), a),
        r is Err ==> r->Err_0 == DecodeError::Malformed,
{
    match find_field(fields, a.name()) {
        None => Ok(None),
        Some(t) => match parse_bool(t.as_str()) {
            Some(v) => Ok(Some(v)),
            None => Err(DecodeError::Malformed),
        },
    }
}

/// The value of a misspelled boolean attribute, if the fields hold it and
/// it reads as one.
fn typo_flag_attribute(fields: &Vec<Field>, a: Attribute) -> (r: Result<
    Option<HvTypoBool>,
    DecodeError,
>)
    requires
        a.kind() is TypoFlag,
    ensures
        r is Ok <==> readable(fields_view(fields@), a),
        r is Ok ==> r->Ok_0 == typo_flag_of(fields_view(fields@), a),
        r is Err ==> r->Err_0 == DecodeError::Malformed,
{
    match find_field(fields, a.name()) {
        None => Ok(None),
        Some(t) => match HvTypoBool::parse(t.as_str()) {
            Some(v) => Ok(Some(v)),
            None => Err(DecodeError::Malformed),
        },
    }
}

/// The outcome, if the fields hold one and it reads as an outcome.
fn outcome_field(fields: &Vec<Field>) -> (r: Result<Option<ProbeMatchResult>, DecodeError>)
    ensures
        r is Ok <==> (field_value(fields_view(fields@), "Result"@) is Some ==> outcome_of(
            fields_view(fields@),
        ) is Some),
        r is Ok ==> r->Ok_0 == outcome_of(fields_view(fields@)),
        r is Err ==> r->Err_0 == DecodeError::Malformed,
{
    match find_field(fields, "Result") {
        None => Ok(None),
        Some(t) => match ProbeMatchResult::parse(t.as_str()) {
            Some(v) => Ok(Some(v)),
            None => Err(DecodeError::Malformed),
        },
    }
}

/// Reads a reply from the fields of its document.
pub fn response_from_fields(fields: &Vec<Field>) -> (r: Result<ProbeMatch, DecodeError>)
    ensures
        decoded_view(r) == response_of(fields_view(fields@)),
{
    let ghost all = fields_view(fields@);
    let uuid = match find_field(fields, "Uuid") {
        Some(t) => t.clone(),
        None => {
            return Err(DecodeError::Malformed);
        },
    };
    let types = match find_field(fields, "Types") {
        Some(t) => t.clone(),
        None => {
            return Err(DecodeError::Malformed);
        },
    };
    if !is_known_variant(types.as_str()) {
        return Err(DecodeError::UnknownVariant);
    }
    let result = outcome_field(fields)?;
    let device_type = text_attribute(fields, Attribute::DeviceType);
    let device_description = text_attribute(fields, Attribute::DeviceDescription);
    let device_sn = text_attribute(fields, Attribute::DeviceSn);
    let command_port = number_attribute(fields, Attribute::CommandPort)?;
    let http_port = number_attribute(fields, Attribute::HttpPort)?;
    let mac = text_attribute(fields, Attribute::Mac);
    let ipv4_address = text_attribute(fields, Attribute::Ipv4Address);
    let ipv4_subnet_mask = text_attribute(fields, Attribute::Ipv4SubnetMask);
    let ipv4_gateway = text_attribute(fields, Attribute::Ipv4Gateway);
    let ipv6_address = text_attribute(fields, Attribute::Ipv6Address);
    let ipv6_gateway = text_attribute(fields, Attribute::Ipv6Gateway);
    let ipv6_mask_len = number_attribute(fields, Attribute::Ipv6MaskLen)?;
    let dhcp = flag_attribute(fields, Attribute::Dhcp)?;
    let analog_channel_num = number_attribute(fields, Attribute::AnalogChannelNum)?;
    let digital_channel_num = number_attribute(fields, Attribute::DigitalChannelNum)?;
    let software_version = text_attribute(fields, Attribute::SoftwareVersion);
    let dsp_version = text_attribute(fields, Attribute::DspVersion);
    let boot_time = text_attribute(fields, Attribute::BootTime);
    let reset_ability = flag_attribute(fields, Attribute::ResetAbility)?;
    let disk_number = number_attribute(fields, Attribute::DiskNumber)?;
    let activated = flag_attribute(fields, Attribute::Activated)?;
    let password_reset_ability = flag_attribute(fields, Attribute::PasswordResetAbility)?;
    let password_reset_mode_second = flag_attribute(fields, Attribute::PasswordResetModeSecond)?;
    let support_hc_platform = flag_attribute(fields, Attribute::SupportHcPlatform)?;
    let hc_platform_enable = typo_flag_attribute(fields, Attribute::HcPlatformEnable)?;
    let is_modify_verification_code = text_attribute(fields, Attribute::IsModifyVerificationCode);
    assert forall|a: Attribute| #[trigger] readable(all, a) by {
        assert(a.kind() is Text || a.kind() is Number || a.kind() is Flag || a.kind() is TypoFlag);
    }
    Ok(
        ProbeMatch {
            uuid,
            types,
            result,
            device_type,
            device_description,
            device_sn,
            command_port,
            http_port,
            mac,
            ipv4_address,
            ipv4_subnet_mask,
            ipv4_gateway,
            ipv6_address,
            ipv6_gateway,
            ipv6_mask_len,
            dhcp,
            analog_channel_num,
            digital_channel_num,
            software_version,
            dsp_version,
            boot_time,
            reset_ability,
            disk_number,
            activated,
            password_reset_ability,
            password_reset_mode_second,
            support_hc_platform,
            hc_platform_enable,
            is_modify_verification_code,
        },
    )
}

/// The reply that a run of bytes denotes: the reply of the fields of the
/// document that the bytes hold.
pub open spec fn decode_spec(bytes: Seq<u8>) -> Result<RawResponse, DecodeError> {
    match document_fields(bytes) {
        None => Err(DecodeError::Malformed),
        Some(fields) => response_of(fields),
    }
}

/// Reads a reply from the bytes of one datagram.
pub fn decode(bytes: &[u8]) -> (r: Result<ProbeMatch, DecodeError>)
    ensures
        decoded_view(r) == decode_spec(bytes@),
{
    match read_document(bytes) {
        None => Err(DecodeError::Malformed),
        Some(fields) => response_from_fields(&fields),
    }
}

} // verus!
