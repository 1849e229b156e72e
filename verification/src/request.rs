//! Requests read back from the wire, as a device does with what it
//! receives, and the proof that every request survives the journey.

use vstd::prelude::*;
use vstd::string::*;
use crate::codec::DecodeError;
use crate::password::Password;
use crate::probe::{is_probe_tag, Probe, Request};
use crate::text::{
    lemma_bool_text_round_trip, lemma_u32_text_round_trip, mark, parse_bool, parse_bool_spec,
    parse_u32, parse_u32_spec, str_equal,
};
use crate::wire::{
    document_fields, field_value, fields_view, find_field, lemma_field_value_at, read_document,
    Field,
};

verus! {

/// The number that the fields hold under `name`, where they hold one.
pub open spec fn number_named(fields: Seq<(Seq<char>, Seq<char>)>, name: Seq<char>) -> Option<
    u32,
> {
    match field_value(fields, name) {
        None => None,
        Some(t) => parse_u32_spec(t),
    }
}

/// The boolean that the fields hold under `name`, where they hold one.
pub open spec fn flag_named(fields: Seq<(Seq<char>, Seq<char>)>, name: Seq<char>) -> Option<
    bool,
> {
    match field_value(fields, name) {
        None => None,
        Some(t) => parse_bool_spec(t),
    }
}

/// The request that a list of fields denotes. The name of the variant
/// must be there and be the name of a request. Every field of the variant
/// must be there too and read as a value of its type; a field that the
/// variant does not have is passed over.
pub open spec fn request_of(fields: Seq<(Seq<char>, Seq<char>)>) -> Result<Request, DecodeError> {
    match field_value(fields, "Types"@) {
        None => Err(DecodeError::Malformed),
        Some(tag) => if !is_probe_tag(tag) {
            Err(DecodeError::UnknownVariant)
        } else {
            match request_with_tag(tag, fields) {
                Some(request) => Ok(request),
                None => Err(DecodeError::Malformed),
            }
        },
    }
}

/// The request of the variant called `tag` that the fields hold, if they
/// hold every field of that variant.
pub open spec fn request_with_tag(tag: Seq<char>, fields: Seq<(Seq<char>, Seq<char>)>) -> Option<
    Request,
> {
    if tag == "update"@ {
        if field_value(fields, "Uuid"@) is Some
            && field_value(fields, "PWErrorParse"@) is Some
            && field_value(fields, "MAC"@) is Some
            && field_value(fields, "Password"@) is Some
            && field_value(fields, "IPv4Address"@) is Some
            && field_value(fields, "CommandPort"@) is Some
            && number_named(fields, "HttpPort"@) is Some
            && field_value(fields, "IPv4SubnetMask"@) is Some
            && field_value(fields, "IPv4Gateway"@) is Some
            && field_value(fields, "IPv6Address"@) is Some
            && field_value(fields, "IPv6Gateway"@) is Some
            && number_named(fields, "IPv6MaskLen"@) is Some
            && flag_named(fields, "DHCP"@) is Some
            && number_named(fields, "SDKOverTLSPort"@) is Some {
            Some(
                Request::Update {
                    uuid: field_value(fields, "Uuid"@)->0,
                    pw_error_parse: field_value(fields, "PWErrorParse"@)->0,
                    mac: field_value(fields, "MAC"@)->0,
                    password: field_value(fields, "Password"@)->0,
                    ipv4_address: field_value(fields, "IPv4Address"@)->0,
                    command_port: field_value(fields, "CommandPort"@)->0,
                    http_port: number_named(fields, "HttpPort"@)->0,
                    ipv4_subnet_mask: field_value(fields, "IPv4SubnetMask"@)->0,
                    ipv4_gateway: field_value(fields, "IPv4Gateway"@)->0,
                    ipv6_address: field_value(fields, "IPv6Address"@)->0,
                    ipv6_gateway: field_value(fields, "IPv6Gateway"@)->0,
                    ipv6_mask_len: number_named(fields, "IPv6MaskLen"@)->0,
                    dhcp: flag_named(fields, "DHCP"@)->0,
                    sdk_over_tls_port: number_named(fields, "SDKOverTLSPort"@)->0,
                },
            )
        } else {
            None
        }
    } else if tag == "inquiry"@ {
        if field_value(fields, "Uuid"@) is Some {
            Some(
                Request::Inquiry {
                    uuid: field_value(fields, "Uuid"@)->0,
                },
            )
        } else {
            None
        }
    } else if tag == "MailReset"@ {
        Some(Request::MailReset {})
    } else if tag == "reset"@ {
        Some(Request::Reset {})
    } else if tag == "GetQRcodes"@ {
        if field_value(fields, "Uuid"@) is Some && field_value(fields, "MAC"@) is Some {
            Some(
                Request::GetQRCodes {
                    uuid: field_value(fields, "Uuid"@)->0,
                    mac: field_value(fields, "MAC"@)->0,
                },
            )
        } else {
            None
        }
    } else if tag == "getcode"@ {
        if field_value(fields, "Uuid"@) is Some && field_value(fields, "MAC"@) is Some {
            Some(
                Request::GetCode {
                    uuid: field_value(fields, "Uuid"@)->0,
                    mac: field_value(fields, "MAC"@)->0,
                },
            )
        } else {
            None
        }
    } else if tag == "exchangecode"@ {
        if field_value(fields, "Uuid"@) is Some
            && field_value(fields, "MAC"@) is Some
            && field_value(fields, "Code"@) is Some {
            Some(
                Request::ExchangeCode {
                    uuid: field_value(fields, "Uuid"@)->0,
                    mac: field_value(fields, "MAC"@)->0,
                    code: field_value(fields, "Code"@)->0,
                },
            )
        } else {
            None
        }
    } else if tag == "activate"@ {
        if field_value(fields, "Uuid"@) is Some
            && field_value(fields, "MAC"@) is Some
            && field_value(fields, "Password"@) is Some {
            Some(
                Request::Activate {
                    uuid: field_value(fields, "Uuid"@)->0,
                    mac: field_value(fields, "MAC"@)->0,
                    password: field_value(fields, "Password"@)->0,
                },
            )
        } else {
            None
        }
    } else if tag == "getencryptstring"@ {
        if field_value(fields, "Uuid"@) is Some && field_value(fields, "MAC"@) is Some {
            Some(
                Request::GetEncryptString {
                    uuid: field_value(fields, "Uuid"@)->0,
                    mac: field_value(fields, "MAC"@)->0,
                },
            )
        } else {
            None
        }
    } else if tag == "deviceTypeUnlockCode"@ {
        if field_value(fields, "Uuid"@) is Some && field_value(fields, "MAC"@) is Some {
            Some(
                Request::DeviceTypeUnlockCode {
                    uuid: field_value(fields, "Uuid"@)->0,
                    mac: field_value(fields, "MAC"@)->0,
                },
            )
        } else {
            None
        }
    } else if tag == "deviceTypeCustom"@ {
        Some(Request::DeviceTypeCustom {})
    } else if tag == "ExportGUID"@ {
        if field_value(fields, "Uuid"@) is Some
            && field_value(fields, "MAC"@) is Some
            && field_value(fields, "Password"@) is Some {
            Some(
                Request::ExportGUID {
                    uuid: field_value(fields, "Uuid"@)->0,
                    mac: field_value(fields, "MAC"@)->0,
                    password: field_value(fields, "Password"@)->0,
                },
            )
        } else {
            None
        }
    } else if tag == "getsecurityquestion"@ {
        if field_value(fields, "Uuid"@) is Some && field_value(fields, "MAC"@) is Some {
            Some(
                Request::GetSecurityQuestion {
                    uuid: field_value(fields, "Uuid"@)->0,
                    mac: field_value(fields, "MAC"@)->0,
                },
            )
        } else {
            None
        }
    } else if tag == "setsecurityquestion"@ {
        Some(Request::SetSecurityQuestions)
    } else if tag == "GUIDReset"@ {
        Some(Request::GUIDReset)
    } else if tag == "AnswerReset"@ {
        Some(Request::AnswerReset)
    } else if tag == "SetMailBox"@ {
        Some(Request::SetMailBox)
    } else if tag == "SetHCPlatform"@ {
        Some(Request::SetHCPlatform)
    } else if tag == "SetVerificationCode"@ {
        Some(Request::SetVerificationCode)
    } else if tag == "getBindList"@ {
        if field_value(fields, "Uuid"@) is Some && field_value(fields, "MAC"@) is Some {
            Some(
                Request::GetBindList {
                    uuid: field_value(fields, "Uuid"@)->0,
                    mac: field_value(fields, "MAC"@)->0,
                },
            )
        } else {
            None
        }
    } else if tag == "setBindList"@ {
        Some(Request::SetBindList)
    } else if tag == "restoreInactive"@ {
        Some(Request::RestoreInactive)
    } else if tag == "setWifiRegion"@ {
        Some(Request::SetWifiRegion)
    } else if tag == "lamp"@ {
        Some(Request::Lamp)
    } else if tag == "selfCheck"@ {
        if field_value(fields, "Uuid"@) is Some && field_value(fields, "MAC"@) is Some {
            Some(
                Request::SelfCheck {
                    uuid: field_value(fields, "Uuid"@)->0,
                    mac: field_value(fields, "MAC"@)->0,
                },
            )
        } else {
            None
        }
    } else if tag == "diskLocate"@ {
        if field_value(fields, "Uuid"@) is Some && field_value(fields, "MAC"@) is Some {
            Some(
                Request::DiskLocate {
                    uuid: field_value(fields, "Uuid"@)->0,
                    mac: field_value(fields, "MAC"@)->0,
                },
            )
        } else {
            None
        }
    } else if tag == "setChannelDefaultPassword"@ {
        Some(Request::SetChannelDefaultPassword)
    } else if tag == "wifiParamCfg"@ {
        Some(Request::WifiParamConfig)
    } else if tag == "wifiParamCheck"@ {
        Some(Request::WifiParamCheck)
    } else if tag == "EHomeEnable"@ {
        Some(Request::EHomeEnable)
    } else {
        None
    }
}

/// The mathematical value of what reading a request gives.
pub open spec fn request_view(r: Result<Probe, DecodeError>) -> Result<Request, DecodeError> {
    match r {
        Ok(probe) => Ok(probe@),
        Err(e) => Err(e),
    }
}

/// The text under `name`, which must be there.
fn text_named(fields: &Vec<Field>, name: &str) -> (r: Result<String, DecodeError>)
    ensures
        r is Ok <==> field_value(fields_view(fields@), name@) is Some,
        r is Ok ==> r->Ok_0@ == field_value(fields_view(fields@), name@)->0,
        r is Err ==> r->Err_0 == DecodeError::Malformed,
{
    match find_field(fields, name) {
        Some(t) => Ok(t.clone()),
        None => Err(DecodeError::Malformed),
    }
}

/// The number under `name`, which must be there and read as a number.
fn number_field(fields: &Vec<Field>, name: &str) -> (r: Result<u32, DecodeError>)
    ensures
        r is Ok <==> number_named(fields_view(fields@), name@) is Some,
        r is Ok ==> r->Ok_0 == number_named(fields_view(fields@), name@)->0,
        r is Err ==> r->Err_0 == DecodeError::Malformed,
{
    match find_field(fields, name) {
        Some(t) => match parse_u32(t.as_str()) {
            Some(v) => Ok(v),
            None => Err(DecodeError::Malformed),
        },
        None => Err(DecodeError::Malformed),
    }
}

/// The boolean under `name`, which must be there and read as a boolean.
fn flag_field(fields: &Vec<Field>, name: &str) -> (r: Result<bool, DecodeError>)
    ensures
        r is Ok <==> flag_named(fields_view(fields@), name@) is Some,
        r is Ok ==> r->Ok_0 == flag_named(fields_view(fields@), name@)->0,
        r is Err ==> r->Err_0 == DecodeError::Malformed,
{
    match find_field(fields, name) {
        Some(t) => match parse_bool(t.as_str()) {
            Some(v) => Ok(v),
            None => Err(DecodeError::Malformed),
        },
        None => Err(DecodeError::Malformed),
    }
}

/// Reads a request from the fields of its document.
pub fn request_from_fields(fields: &Vec<Field>) -> (r: Result<Probe, DecodeError>)
    ensures
        request_view(r) == request_of(fields_view(fields@)),
{
    let tag = match find_field(fields, "Types") {
        Some(t) => t.as_str(),
        None => {
            return Err(DecodeError::Malformed);
        },
    };
    if str_equal(tag, "update") {
        let uuid = text_named(fields, "Uuid")?;
        let pw_error_parse = text_named(fields, "PWErrorParse")?;
        let mac = text_named(fields, "MAC")?;
        let password = Password::from_wire(text_named(fields, "Password")?);
        let ipv4_address = text_named(fields, "IPv4Address")?;
        let command_port = text_named(fields, "CommandPort")?;
        let http_port = number_field(fields, "HttpPort")?;
        let ipv4_subnet_mask = text_named(fields, "IPv4SubnetMask")?;
        let ipv4_gateway = text_named(fields, "IPv4Gateway")?;
        let ipv6_address = text_named(fields, "IPv6Address")?;
        let ipv6_gateway = text_named(fields, "IPv6Gateway")?;
        let ipv6_mask_len = number_field(fields, "IPv6MaskLen")?;
        let dhcp = flag_field(fields, "DHCP")?;
        let sdk_over_tls_port = number_field(fields, "SDKOverTLSPort")?;
        Ok(
            Probe::Update {
                uuid,
                pw_error_parse,
                mac,
                password,
                ipv4_address,
                command_port,
                http_port,
                ipv4_subnet_mask,
                ipv4_gateway,
                ipv6_address,
                ipv6_gateway,
                ipv6_mask_len,
                dhcp,
                sdk_over_tls_port,
            },
        )
    } else if str_equal(tag, "inquiry") {
        let uuid = text_named(fields, "Uuid")?;
        Ok(Probe::Inquiry { uuid })
    } else if str_equal(tag, "MailReset") {
        Ok(Probe::MailReset {})
    } else if str_equal(tag, "reset") {
        Ok(Probe::Reset {})
    } else if str_equal(tag, "GetQRcodes") {
        let uuid = text_named(fields, "Uuid")?;
        let mac = text_named(fields, "MAC")?;
        Ok(Probe::GetQRCodes { uuid, mac })
    } else if str_equal(tag, "getcode") {
        let uuid = text_named(fields, "Uuid")?;
        let mac = text_named(fields, "MAC")?;
        Ok(Probe::GetCode { uuid, mac })
    } else if str_equal(tag, "exchangecode") {
        let uuid = text_named(fields, "Uuid")?;
        let mac = text_named(fields, "MAC")?;
        let code = text_named(fields, "Code")?;
        Ok(Probe::ExchangeCode { uuid, mac, code })
    } else if str_equal(tag, "activate") {
        let uuid = text_named(fields, "Uuid")?;
        let mac = text_named(fields, "MAC")?;
        let password = text_named(fields, "Password")?;
        Ok(Probe::Activate { uuid, mac, password })
    } else if str_equal(tag, "getencryptstring") {
        let uuid = text_named(fields, "Uuid")?;
        let mac = text_named(fields, "MAC")?;
        Ok(Probe::GetEncryptString { uuid, mac })
    } else if str_equal(tag, "deviceTypeUnlockCode") {
        let uuid = text_named(fields, "Uuid")?;
        let mac = text_named(fields, "MAC")?;
        Ok(Probe::DeviceTypeUnlockCode { uuid, mac })
    } else if str_equal(tag, "deviceTypeCustom") {
        Ok(Probe::DeviceTypeCustom {})
    } else if str_equal(tag, "ExportGUID") {
        let uuid = text_named(fields, "Uuid")?;
        let mac = text_named(fields, "MAC")?;
        let password = Password::from_wire(text_named(fields, "Password")?);
        Ok(Probe::ExportGUID { uuid, mac, password })
    } else if str_equal(tag, "getsecurityquestion") {
        let uuid = text_named(fields, "Uuid")?;
        let mac = text_named(fields, "MAC")?;
        Ok(Probe::GetSecurityQuestion { uuid, mac })
    } else if str_equal(tag, "setsecurityquestion") {
        Ok(Probe::SetSecurityQuestions)
    } else if str_equal(tag, "GUIDReset") {
        Ok(Probe::GUIDReset)
    } else if str_equal(tag, "AnswerReset") {
        Ok(Probe::AnswerReset)
    } else if str_equal(tag, "SetMailBox") {
        Ok(Probe::SetMailBox)
    } else if str_equal(tag, "SetHCPlatform") {
        Ok(Probe::SetHCPlatform)
    } else if str_equal(tag, "SetVerificationCode") {
        Ok(Probe::SetVerificationCode)
    } else if str_equal(tag, "getBindList") {
        let uuid = text_named(fields, "Uuid")?;
        let mac = text_named(fields, "MAC")?;
        Ok(Probe::GetBindList { uuid, mac })
    } else if str_equal(tag, "setBindList") {
        Ok(Probe::SetBindList)
    } else if str_equal(tag, "restoreInactive") {
        Ok(Probe::RestoreInactive)
    } else if str_equal(tag, "setWifiRegion") {
        Ok(Probe::SetWifiRegion)
    } else if str_equal(tag, "lamp") {
        Ok(Probe::Lamp)
    } else if str_equal(tag, "selfCheck") {
        let uuid = text_named(fields, "Uuid")?;
        let mac = text_named(fields, "MAC")?;
        Ok(Probe::SelfCheck { uuid, mac })
    } else if str_equal(tag, "diskLocate") {
        let uuid = text_named(fields, "Uuid")?;
        let mac = text_named(fields, "MAC")?;
        Ok(Probe::DiskLocate { uuid, mac })
    } else if str_equal(tag, "setChannelDefaultPassword") {
        Ok(Probe::SetChannelDefaultPassword)
    } else if str_equal(tag, "wifiParamCfg") {
        Ok(Probe::WifiParamConfig)
    } else if str_equal(tag, "wifiParamCheck") {
        Ok(Probe::WifiParamCheck)
    } else if str_equal(tag, "EHomeEnable") {
        Ok(Probe::EHomeEnable)
    } else {
        Err(DecodeError::UnknownVariant)
    }
}

/// The request that a run of bytes denotes: the request of the fields of
/// the document that the bytes hold.
pub open spec fn decode_request_spec(bytes: Seq<u8>) -> Result<Request, DecodeError> {
    match document_fields(bytes) {
        None => Err(DecodeError::Malformed),
        Some(fields) => request_of(fields),
    }
}

/// Reads a request from the bytes of one datagram.
pub fn decode_request(bytes: &[u8]) -> (r: Result<Probe, DecodeError>)
    ensures
        request_view(r) == decode_request_spec(bytes@),
{
    match read_document(bytes) {
        None => Err(DecodeError::Malformed),
        Some(fields) => request_from_fields(&fields),
    }
}

/// The wire name of a request is the name of a request, and of no other
/// variant than the request's own.
pub proof fn lemma_tag_names_variant(a: Request)
    ensures
        is_probe_tag(a.tag()),
        a.tag() == "update"@ <==> a is Update,
        a.tag() == "inquiry"@ <==> a is Inquiry,
        a.tag() == "MailReset"@ <==> a is MailReset,
        a.tag() == "reset"@ <==> a is Reset,
        a.tag() == "GetQRcodes"@ <==> a is GetQRCodes,
        a.tag() == "getcode"@ <==> a is GetCode,
        a.tag() == "exchangecode"@ <==> a is ExchangeCode,
        a.tag() == "activate"@ <==> a is Activate,
        a.tag() == "getencryptstring"@ <==> a is GetEncryptString,
        a.tag() == "deviceTypeUnlockCode"@ <==> a is DeviceTypeUnlockCode,
        a.tag() == "deviceTypeCustom"@ <==> a is DeviceTypeCustom,
        a.tag() == "ExportGUID"@ <==> a is ExportGUID,
        a.tag() == "getsecurityquestion"@ <==> a is GetSecurityQuestion,
        a.tag() == "setsecurityquestion"@ <==> a is SetSecurityQuestions,
        a.tag() == "GUIDReset"@ <==> a is GUIDReset,
        a.tag() == "AnswerReset"@ <==> a is AnswerReset,
        a.tag() == "SetMailBox"@ <==> a is SetMailBox,
        a.tag() == "SetHCPlatform"@ <==> a is SetHCPlatform,
        a.tag() == "SetVerificationCode"@ <==> a is SetVerificationCode,
        a.tag() == "getBindList"@ <==> a is GetBindList,
        a.tag() == "setBindList"@ <==> a is SetBindList,
        a.tag() == "restoreInactive"@ <==> a is RestoreInactive,
        a.tag() == "setWifiRegion"@ <==> a is SetWifiRegion,
        a.tag() == "lamp"@ <==> a is Lamp,
        a.tag() == "selfCheck"@ <==> a is SelfCheck,
        a.tag() == "diskLocate"@ <==> a is DiskLocate,
        a.tag() == "setChannelDefaultPassword"@ <==> a is SetChannelDefaultPassword,
        a.tag() == "wifiParamCfg"@ <==> a is WifiParamConfig,
        a.tag() == "wifiParamCheck"@ <==> a is WifiParamCheck,
        a.tag() == "EHomeEnable"@ <==> a is EHomeEnable,
{
    reveal_strlit("update");
    reveal_strlit("inquiry");
    reveal_strlit("MailReset");
    reveal_strlit("reset");
    reveal_strlit("GetQRcodes");
    reveal_strlit("getcode");
    reveal_strlit("exchangecode");
    reveal_strlit("activate");
    reveal_strlit("getencryptstring");
    reveal_strlit("deviceTypeUnlockCode");
    reveal_strlit("deviceTypeCustom");
    reveal_strlit("ExportGUID");
    reveal_strlit("getsecurityquestion");
    reveal_strlit("setsecurityquestion");
    reveal_strlit("GUIDReset");
    reveal_strlit("AnswerReset");
    reveal_strlit("SetMailBox");
    reveal_strlit("SetHCPlatform");
    reveal_strlit("SetVerificationCode");
    reveal_strlit("getBindList");
    reveal_strlit("setBindList");
    reveal_strlit("restoreInactive");
    reveal_strlit("setWifiRegion");
    reveal_strlit("lamp");
    reveal_strlit("selfCheck");
    reveal_strlit("diskLocate");
    reveal_strlit("setChannelDefaultPassword");
    reveal_strlit("wifiParamCfg");
    reveal_strlit("wifiParamCheck");
    reveal_strlit("EHomeEnable");
    assert(mark("update"@, 0, 6) == (6nat, 'u', ' '));
    assert(mark("inquiry"@, 0, 6) == (7nat, 'i', 'y'));
    assert(mark("MailReset"@, 0, 6) == (9nat, 'M', 's'));
    assert(mark("reset"@, 0, 6) == (5nat, 'r', ' '));
    assert(mark("GetQRcodes"@, 0, 6) == (10nat, 'G', 'o'));
    assert(mark("getcode"@, 0, 6) == (7nat, 'g', 'e'));
    assert(mark("exchangecode"@, 0, 6) == (12nat, 'e', 'g'));
    assert(mark("activate"@, 0, 6) == (8nat, 'a', 't'));
    assert(mark("getencryptstring"@, 0, 6) == (16nat, 'g', 'r'));
    assert(mark("deviceTypeUnlockCode"@, 0, 6) == (20nat, 'd', 'T'));
    assert(mark("deviceTypeCustom"@, 0, 6) == (16nat, 'd', 'T'));
    assert(mark("ExportGUID"@, 0, 6) == (10nat, 'E', 'G'));
    assert(mark("getsecurityquestion"@, 0, 6) == (19nat, 'g', 'u'));
    assert(mark("setsecurityquestion"@, 0, 6) == (19nat, 's', 'u'));
    assert(mark("GUIDReset"@, 0, 6) == (9nat, 'G', 's'));
    assert(mark("AnswerReset"@, 0, 6) == (11nat, 'A', 'R'));
    assert(mark("SetMailBox"@, 0, 6) == (10nat, 'S', 'l'));
    assert(mark("SetHCPlatform"@, 0, 6) == (13nat, 'S', 'l'));
    assert(mark("SetVerificationCode"@, 0, 6) == (19nat, 'S', 'i'));
    assert(mark("getBindList"@, 0, 6) == (11nat, 'g', 'd'));
    assert(mark("setBindList"@, 0, 6) == (11nat, 's', 'd'));
    assert(mark("restoreInactive"@, 0, 6) == (15nat, 'r', 'e'));
    assert(mark("setWifiRegion"@, 0, 6) == (13nat, 's', 'i'));
    assert(mark("lamp"@, 0, 6) == (4nat, 'l', ' '));
    assert(mark("selfCheck"@, 0, 6) == (9nat, 's', 'e'));
    assert(mark("diskLocate"@, 0, 6) == (10nat, 'd', 'c'));
    assert(mark("setChannelDefaultPassword"@, 0, 6) == (25nat, 's', 'n'));
    assert(mark("wifiParamCfg"@, 0, 6) == (12nat, 'w', 'r'));
    assert(mark("wifiParamCheck"@, 0, 6) == (14nat, 'w', 'r'));
    assert(mark("EHomeEnable"@, 0, 6) == (11nat, 'E', 'n'));
}

/// No two fields of a request share a wire name.
pub proof fn lemma_field_names_distinct()
    ensures
        "Types"@ != "Uuid"@,
        "Types"@ != "PWErrorParse"@,
        "Types"@ != "MAC"@,
        "Types"@ != "Password"@,
        "Types"@ != "IPv4Address"@,
        "Types"@ != "CommandPort"@,
        "Types"@ != "HttpPort"@,
        "Types"@ != "IPv4SubnetMask"@,
        "Types"@ != "IPv4Gateway"@,
        "Types"@ != "IPv6Address"@,
        "Types"@ != "IPv6Gateway"@,
        "Types"@ != "IPv6MaskLen"@,
        "Types"@ != "DHCP"@,
        "Types"@ != "SDKOverTLSPort"@,
        "Types"@ != "Code"@,
        "Uuid"@ != "PWErrorParse"@,
        "Uuid"@ != "MAC"@,
        "Uuid"@ != "Password"@,
        "Uuid"@ != "IPv4Address"@,
        "Uuid"@ != "CommandPort"@,
        "Uuid"@ != "HttpPort"@,
        "Uuid"@ != "IPv4SubnetMask"@,
        "Uuid"@ != "IPv4Gateway"@,
        "Uuid"@ != "IPv6Address"@,
        "Uuid"@ != "IPv6Gateway"@,
        "Uuid"@ != "IPv6MaskLen"@,
        "Uuid"@ != "DHCP"@,
        "Uuid"@ != "SDKOverTLSPort"@,
        "Uuid"@ != "Code"@,
        "PWErrorParse"@ != "MAC"@,
        "PWErrorParse"@ != "Password"@,
        "PWErrorParse"@ != "IPv4Address"@,
        "PWErrorParse"@ != "CommandPort"@,
        "PWErrorParse"@ != "HttpPort"@,
        "PWErrorParse"@ != "IPv4SubnetMask"@,
        "PWErrorParse"@ != "IPv4Gateway"@,
        "PWErrorParse"@ != "IPv6Address"@,
        "PWErrorParse"@ != "IPv6Gateway"@,
        "PWErrorParse"@ != "IPv6MaskLen"@,
        "PWErrorParse"@ != "DHCP"@,
        "PWErrorParse"@ != "SDKOverTLSPort"@,
        "PWErrorParse"@ != "Code"@,
        "MAC"@ != "Password"@,
        "MAC"@ != "IPv4Address"@,
        "MAC"@ != "CommandPort"@,
        "MAC"@ != "HttpPort"@,
        "MAC"@ != "IPv4SubnetMask"@,
        "MAC"@ != "IPv4Gateway"@,
        "MAC"@ != "IPv6Address"@,
        "MAC"@ != "IPv6Gateway"@,
        "MAC"@ != "IPv6MaskLen"@,
        "MAC"@ != "DHCP"@,
        "MAC"@ != "SDKOverTLSPort"@,
        "MAC"@ != "Code"@,
        "Password"@ != "IPv4Address"@,
        "Password"@ != "CommandPort"@,
        "Password"@ != "HttpPort"@,
        "Password"@ != "IPv4SubnetMask"@,
        "Password"@ != "IPv4Gateway"@,
        "Password"@ != "IPv6Address"@,
        "Password"@ != "IPv6Gateway"@,
        "Password"@ != "IPv6MaskLen"@,
        "Password"@ != "DHCP"@,
        "Password"@ != "SDKOverTLSPort"@,
        "Password"@ != "Code"@,
        "IPv4Address"@ != "CommandPort"@,
        "IPv4Address"@ != "HttpPort"@,
        "IPv4Address"@ != "IPv4SubnetMask"@,
        "IPv4Address"@ != "IPv4Gateway"@,
        "IPv4Address"@ != "IPv6Address"@,
        "IPv4Address"@ != "IPv6Gateway"@,
        "IPv4Address"@ != "IPv6MaskLen"@,
        "IPv4Address"@ != "DHCP"@,
        "IPv4Address"@ != "SDKOverTLSPort"@,
        "IPv4Address"@ != "Code"@,
        "CommandPort"@ != "HttpPort"@,
        "CommandPort"@ != "IPv4SubnetMask"@,
        "CommandPort"@ != "IPv4Gateway"@,
        "CommandPort"@ != "IPv6Address"@,
        "CommandPort"@ != "IPv6Gateway"@,
        "CommandPort"@ != "IPv6MaskLen"@,
        "CommandPort"@ != "DHCP"@,
        "CommandPort"@ != "SDKOverTLSPort"@,
        "CommandPort"@ != "Code"@,
        "HttpPort"@ != "IPv4SubnetMask"@,
        "HttpPort"@ != "IPv4Gateway"@,
        "HttpPort"@ != "IPv6Address"@,
        "HttpPort"@ != "IPv6Gateway"@,
        "HttpPort"@ != "IPv6MaskLen"@,
        "HttpPort"@ != "DHCP"@,
        "HttpPort"@ != "SDKOverTLSPort"@,
        "HttpPort"@ != "Code"@,
        "IPv4SubnetMask"@ != "IPv4Gateway"@,
        "IPv4SubnetMask"@ != "IPv6Address"@,
        "IPv4SubnetMask"@ != "IPv6Gateway"@,
        "IPv4SubnetMask"@ != "IPv6MaskLen"@,
        "IPv4SubnetMask"@ != "DHCP"@,
        "IPv4SubnetMask"@ != "SDKOverTLSPort"@,
        "IPv4SubnetMask"@ != "Code"@,
        "IPv4Gateway"@ != "IPv6Address"@,
        "IPv4Gateway"@ != "IPv6Gateway"@,
        "IPv4Gateway"@ != "IPv6MaskLen"@,
        "IPv4Gateway"@ != "DHCP"@,
        "IPv4Gateway"@ != "SDKOverTLSPort"@,
        "IPv4Gateway"@ != "Code"@,
        "IPv6Address"@ != "IPv6Gateway"@,
        "IPv6Address"@ != "IPv6MaskLen"@,
        "IPv6Address"@ != "DHCP"@,
        "IPv6Address"@ != "SDKOverTLSPort"@,
        "IPv6Address"@ != "Code"@,
        "IPv6Gateway"@ != "IPv6MaskLen"@,
        "IPv6Gateway"@ != "DHCP"@,
        "IPv6Gateway"@ != "SDKOverTLSPort"@,
        "IPv6Gateway"@ != "Code"@,
        "IPv6MaskLen"@ != "DHCP"@,
        "IPv6MaskLen"@ != "SDKOverTLSPort"@,
        "IPv6MaskLen"@ != "Code"@,
        "DHCP"@ != "SDKOverTLSPort"@,
        "DHCP"@ != "Code"@,
        "SDKOverTLSPort"@ != "Code"@,
{
    reveal_strlit("Types");
    reveal_strlit("Uuid");
    reveal_strlit("PWErrorParse");
    reveal_strlit("MAC");
    reveal_strlit("Password");
    reveal_strlit("IPv4Address");
    reveal_strlit("CommandPort");
    reveal_strlit("HttpPort");
    reveal_strlit("IPv4SubnetMask");
    reveal_strlit("IPv4Gateway");
    reveal_strlit("IPv6Address");
    reveal_strlit("IPv6Gateway");
    reveal_strlit("IPv6MaskLen");
    reveal_strlit("DHCP");
    reveal_strlit("SDKOverTLSPort");
    reveal_strlit("Code");
    assert(mark("Types"@, 3, 4) == (5nat, 'e', 's'));
    assert(mark("Uuid"@, 3, 4) == (4nat, 'd', ' '));
    assert(mark("PWErrorParse"@, 3, 4) == (12nat, 'r', 'r'));
    assert(mark("MAC"@, 3, 4) == (3nat, ' ', ' '));
    assert(mark("Password"@, 3, 4) == (8nat, 's', 'w'));
    assert(mark("IPv4Address"@, 3, 4) == (11nat, '4', 'A'));
    assert(mark("CommandPort"@, 3, 4) == (11nat, 'm', 'a'));
    assert(mark("HttpPort"@, 3, 4) == (8nat, 'p', 'P'));
    assert(mark("IPv4SubnetMask"@, 3, 4) == (14nat, '4', 'S'));
    assert(mark("IPv4Gateway"@, 3, 4) == (11nat, '4', 'G'));
    assert(mark("IPv6Address"@, 3, 4) == (11nat, '6', 'A'));
    assert(mark("IPv6Gateway"@, 3, 4) == (11nat, '6', 'G'));
    assert(mark("IPv6MaskLen"@, 3, 4) == (11nat, '6', 'M'));
    assert(mark("DHCP"@, 3, 4) == (4nat, 'P', ' '));
    assert(mark("SDKOverTLSPort"@, 3, 4) == (14nat, 'O', 'v'));
    assert(mark("Code"@, 3, 4) == (4nat, 'e', ' '));
}

/// Each field of a request is found in the request's fields under its own
/// name: no field hides another.
pub proof fn lemma_request_lookup(request: Request, i: int)
    requires
        0 <= i < request.fields().len(),
    ensures
        field_value(request.fields(), request.fields()[i].0) == Some(request.fields()[i].1),
{
    lemma_field_names_distinct();
    let fields = request.fields();
    assert forall|j: int| 0 <= j < i implies fields[j].0 != fields[i].0 by {
        lemma_request_names(request, j, i);
    }
    lemma_field_value_at(fields, fields[i].0, i);
}

/// The names at two different places of a request's fields differ.
pub proof fn lemma_request_names(request: Request, j: int, i: int)
    requires
        0 <= j < i < request.fields().len(),
    ensures
        request.fields()[j].0 != request.fields()[i].0,
{
    lemma_field_names_distinct();
}

/// Codec fidelity for requests: reading the fields of a request gives the
/// request back, whichever variant it is and whatever its fields hold.
pub proof fn lemma_request_round_trip(request: Request)
    ensures
        request_of(request.fields()) == Ok::<Request, DecodeError>(request),
{
    lemma_tag_names_variant(request);
    lemma_request_lookup(request, 0);
    match request {
        Request::Update { http_port, ipv6_mask_len, dhcp, sdk_over_tls_port, .. } => {
            lemma_request_lookup(request, 1);
            lemma_request_lookup(request, 2);
            lemma_request_lookup(request, 3);
            lemma_request_lookup(request, 4);
            lemma_request_lookup(request, 5);
            lemma_request_lookup(request, 6);
            lemma_request_lookup(request, 7);
            lemma_u32_text_round_trip(http_port);
            lemma_request_lookup(request, 8);
            lemma_request_lookup(request, 9);
            lemma_request_lookup(request, 10);
            lemma_request_lookup(request, 11);
            lemma_request_lookup(request, 12);
            lemma_u32_text_round_trip(ipv6_mask_len);
            lemma_request_lookup(request, 13);
            lemma_bool_text_round_trip(dhcp);
            lemma_request_lookup(request, 14);
            lemma_u32_text_round_trip(sdk_over_tls_port);
        },
        Request::Inquiry { .. } => {
            lemma_request_lookup(request, 1);
        },
        Request::GetQRCodes { .. } => {
            lemma_request_lookup(request, 1);
            lemma_request_lookup(request, 2);
        },
        Request::GetCode { .. } => {
            lemma_request_lookup(request, 1);
            lemma_request_lookup(request, 2);
        },
        Request::ExchangeCode { .. } => {
            lemma_request_lookup(request, 1);
            lemma_request_lookup(request, 2);
            lemma_request_lookup(request, 3);
        },
        Request::Activate { .. } => {
            lemma_request_lookup(request, 1);
            lemma_request_lookup(request, 2);
            lemma_request_lookup(request, 3);
        },
        Request::GetEncryptString { .. } => {
            lemma_request_lookup(request, 1);
            lemma_request_lookup(request, 2);
        },
        Request::DeviceTypeUnlockCode { .. } => {
            lemma_request_lookup(request, 1);
            lemma_request_lookup(request, 2);
        },
        Request::ExportGUID { .. } => {
            lemma_request_lookup(request, 1);
            lemma_request_lookup(request, 2);
            lemma_request_lookup(request, 3);
        },
        Request::GetSecurityQuestion { .. } => {
            lemma_request_lookup(request, 1);
            lemma_request_lookup(request, 2);
        },
        Request::GetBindList { .. } => {
            lemma_request_lookup(request, 1);
            lemma_request_lookup(request, 2);
        },
        Request::SelfCheck { .. } => {
            lemma_request_lookup(request, 1);
            lemma_request_lookup(request, 2);
        },
        Request::DiskLocate { .. } => {
            lemma_request_lookup(request, 1);
            lemma_request_lookup(request, 2);
        },
        _ => {},
    }
}

} // verus!
