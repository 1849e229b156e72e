//! The requests that are broadcast to the devices.

use vstd::prelude::*;
use vstd::string::*;
use crate::password::Password;
use crate::text::{bool_text, bool_to_text, decimal_text, str_equal, u32_to_decimal};
use crate::wire::{fields_view, push_field, Field};

verus! {

/// A request. Each variant is one operation of the protocol and has a name
/// of its own on the wire, which the devices compare letter for letter.
/// Only `Inquiry` and `Update` are understood in full; the others carry
/// the fields that are known of them and nothing more.
#[derive(Debug, Clone, PartialEq, Eq)]
#[allow(inconsistent_fields)]
pub enum Probe {
    /// Changes the network settings of the device with the given hardware
    /// address. The command port travels as text, the other numbers as
    /// numbers. Written `update`.
    Update {
        /// Written `Uuid`.
        uuid: String,
        /// Written `PWErrorParse`.
        pw_error_parse: String,
        /// Written `MAC`.
        mac: String,
        /// Written `Password`.
        password: Password,
        /// Written `IPv4Address`.
        ipv4_address: String,
        /// Written `CommandPort`.
        command_port: String,
        /// Written `HttpPort`.
        http_port: u32,
        /// Written `IPv4SubnetMask`.
        ipv4_subnet_mask: String,
        /// Written `IPv4Gateway`.
        ipv4_gateway: String,
        /// Written `IPv6Address`.
        ipv6_address: String,
        /// Written `IPv6Gateway`.
        ipv6_gateway: String,
        /// Written `IPv6MaskLen`.
        ipv6_mask_len: u32,
        /// Written `DHCP`.
        dhcp: bool,
        /// Written `SDKOverTLSPort`.
        sdk_over_tls_port: u32,
    },
    /// Asks every device on the segment to describe itself. Written
    /// `inquiry`.
    Inquiry {
        /// Written `Uuid`.
        uuid: String,
    },
    /// Written `MailReset`.
    MailReset {},
    /// Written `reset`.
    Reset {},
    /// Written `GetQRcodes`.
    GetQRCodes {
        /// Written `Uuid`.
        uuid: String,
        /// Written `MAC`.
        mac: String,
    },
    /// Written `getcode`.
    GetCode {
        /// Written `Uuid`.
        uuid: String,
        /// Written `MAC`.
        mac: String,
    },
    /// Written `exchangecode`.
    ExchangeCode {
        /// Written `Uuid`.
        uuid: String,
        /// Written `MAC`.
        mac: String,
        /// Written `Code`.
        code: String,
    },
    /// Activates a device. How the password of this request is derived is not
    /// known: it is carried as it is given. Written `activate`.
    Activate {
        /// Written `Uuid`.
        uuid: String,
        /// Written `MAC`.
        mac: String,
        /// Written `Password`.
        password: String,
    },
    /// Written `getencryptstring`.
    GetEncryptString {
        /// Written `Uuid`.
        uuid: String,
        /// Written `MAC`.
        mac: String,
    },
    /// Written `deviceTypeUnlockCode`.
    DeviceTypeUnlockCode {
        /// Written `Uuid`.
        uuid: String,
        /// Written `MAC`.
        mac: String,
    },
    /// Written `deviceTypeCustom`.
    DeviceTypeCustom {},
    /// Written `ExportGUID`.
    ExportGUID {
        /// Written `Uuid`.
        uuid: String,
        /// Written `MAC`.
        mac: String,
        /// Written `Password`.
        password: Password,
    },
    /// Written `getsecurityquestion`.
    GetSecurityQuestion {
        /// Written `Uuid`.
        uuid: String,
        /// Written `MAC`.
        mac: String,
    },
    /// Written `setsecurityquestion`.
    SetSecurityQuestions,
    /// Written `GUIDReset`.
    GUIDReset,
    /// Written `AnswerReset`.
    AnswerReset,
    /// Written `SetMailBox`.
    SetMailBox,
    /// Written `SetHCPlatform`.
    SetHCPlatform,
    /// Written `SetVerificationCode`.
    SetVerificationCode,
    /// Written `getBindList`.
    GetBindList {
        /// Written `Uuid`.
        uuid: String,
        /// Written `MAC`.
        mac: String,
    },
    /// Written `setBindList`.
    SetBindList,
    /// Written `restoreInactive`.
    RestoreInactive,
    /// Written `setWifiRegion`.
    SetWifiRegion,
    /// Written `lamp`.
    Lamp,
    /// Written `selfCheck`.
    SelfCheck {
        /// Written `Uuid`.
        uuid: String,
        /// Written `MAC`.
        mac: String,
    },
    /// Written `diskLocate`.
    DiskLocate {
        /// Written `Uuid`.
        uuid: String,
        /// Written `MAC`.
        mac: String,
    },
    /// Written `setChannelDefaultPassword`.
    SetChannelDefaultPassword,
    /// Written `wifiParamCfg`.
    WifiParamConfig,
    /// Written `wifiParamCheck`.
    WifiParamCheck,
    /// Written `EHomeEnable`.
    EHomeEnable,
}

/// The mathematical value of a [`Probe`].
pub enum Request {
    Update {
        uuid: Seq<char>,
        pw_error_parse: Seq<char>,
        mac: Seq<char>,
        password: Seq<char>,
        ipv4_address: Seq<char>,
        command_port: Seq<char>,
        http_port: u32,
        ipv4_subnet_mask: Seq<char>,
        ipv4_gateway: Seq<char>,
        ipv6_address: Seq<char>,
        ipv6_gateway: Seq<char>,
        ipv6_mask_len: u32,
        dhcp: bool,
        sdk_over_tls_port: u32,
    },
    Inquiry { uuid: Seq<char> },
    MailReset {},
    Reset {},
    GetQRCodes { uuid: Seq<char>, mac: Seq<char> },
    GetCode { uuid: Seq<char>, mac: Seq<char> },
    ExchangeCode { uuid: Seq<char>, mac: Seq<char>, code: Seq<char> },
    Activate { uuid: Seq<char>, mac: Seq<char>, password: Seq<char> },
    GetEncryptString { uuid: Seq<char>, mac: Seq<char> },
    DeviceTypeUnlockCode { uuid: Seq<char>, mac: Seq<char> },
    DeviceTypeCustom {},
    ExportGUID { uuid: Seq<char>, mac: Seq<char>, password: Seq<char> },
    GetSecurityQuestion { uuid: Seq<char>, mac: Seq<char> },
    SetSecurityQuestions,
    GUIDReset,
    AnswerReset,
    SetMailBox,
    SetHCPlatform,
    SetVerificationCode,
    GetBindList { uuid: Seq<char>, mac: Seq<char> },
    SetBindList,
    RestoreInactive,
    SetWifiRegion,
    Lamp,
    SelfCheck { uuid: Seq<char>, mac: Seq<char> },
    DiskLocate { uuid: Seq<char>, mac: Seq<char> },
    SetChannelDefaultPassword,
    WifiParamConfig,
    WifiParamCheck,
    EHomeEnable,
}

impl View for Probe {
    type V = Request;

    open spec fn view(&self) -> Request {
        match *self {
            Probe::Update {
                uuid,
                pw_error_parse,
                mac,
                password,
                ipv4_address,
                command_port,
                http_port,
                ipv4_subnet_mask,
                ipv4_gateway,
                ipv6_address,
                ipv6_gateway,
                ipv6_mask_len,
                dhcp,
                sdk_over_tls_port,
            } => Request::Update {
                uuid: uuid@,
                pw_error_parse: pw_error_parse@,
                mac: mac@,
                password: password@,
                ipv4_address: ipv4_address@,
                command_port: command_port@,
                http_port: http_port,
                ipv4_subnet_mask: ipv4_subnet_mask@,
                ipv4_gateway: ipv4_gateway@,
                ipv6_address: ipv6_address@,
                ipv6_gateway: ipv6_gateway@,
                ipv6_mask_len: ipv6_mask_len,
                dhcp: dhcp,
                sdk_over_tls_port: sdk_over_tls_port,
            },
            Probe::Inquiry { uuid } => Request::Inquiry {
                uuid: uuid@,
            },
            Probe::MailReset {} => Request::MailReset {},
            Probe::Reset {} => Request::Reset {},
            Probe::GetQRCodes { uuid, mac } => Request::GetQRCodes {
                uuid: uuid@,
                mac: mac@,
            },
            Probe::GetCode { uuid, mac } => Request::GetCode {
                uuid: uuid@,
                mac: mac@,
            },
            Probe::ExchangeCode { uuid, mac, code } => Request::ExchangeCode {
                uuid: uuid@,
                mac: mac@,
                code: code@,
            },
            Probe::Activate { uuid, mac, password } => Request::Activate {
                uuid: uuid@,
                mac: mac@,
                password: password@,
            },
            Probe::GetEncryptString { uuid, mac } => Request::GetEncryptString {
                uuid: uuid@,
                mac: mac@,
            },
            Probe::DeviceTypeUnlockCode { uuid, mac } => Request::DeviceTypeUnlockCode {
                uuid: uuid@,
                mac: mac@,
            },
            Probe::DeviceTypeCustom {} => Request::DeviceTypeCustom {},
            Probe::ExportGUID { uuid, mac, password } => Request::ExportGUID {
                uuid: uuid@,
                mac: mac@,
                password: password@,
            },
            Probe::GetSecurityQuestion { uuid, mac } => Request::GetSecurityQuestion {
                uuid: uuid@,
                mac: mac@,
            },
            Probe::SetSecurityQuestions => Request::SetSecurityQuestions,
            Probe::GUIDReset => Request::GUIDReset,
            Probe::AnswerReset => Request::AnswerReset,
            Probe::SetMailBox => Request::SetMailBox,
            Probe::SetHCPlatform => Request::SetHCPlatform,
            Probe::SetVerificationCode => Request::SetVerificationCode,
            Probe::GetBindList { uuid, mac } => Request::GetBindList {
                uuid: uuid@,
                mac: mac@,
            },
            Probe::SetBindList => Request::SetBindList,
            Probe::RestoreInactive => Request::RestoreInactive,
            Probe::SetWifiRegion => Request::SetWifiRegion,
            Probe::Lamp => Request::Lamp,
            Probe::SelfCheck { uuid, mac } => Request::SelfCheck {
                uuid: uuid@,
                mac: mac@,
            },
            Probe::DiskLocate { uuid, mac } => Request::DiskLocate {
                uuid: uuid@,
                mac: mac@,
            },
            Probe::SetChannelDefaultPassword => Request::SetChannelDefaultPassword,
            Probe::WifiParamConfig => Request::WifiParamConfig,
            Probe::WifiParamCheck => Request::WifiParamCheck,
            Probe::EHomeEnable => Request::EHomeEnable,
        }
    }
}

/// Whether `s` is the wire name of a request.
pub open spec fn is_probe_tag(s: Seq<char>) -> bool {
    s == "update"@
        || s == "inquiry"@
        || s == "MailReset"@
        || s == "reset"@
        || s == "GetQRcodes"@
        || s == "getcode"@
        || s == "exchangecode"@
        || s == "activate"@
        || s == "getencryptstring"@
        || s == "deviceTypeUnlockCode"@
        || s == "deviceTypeCustom"@
        || s == "ExportGUID"@
        || s == "getsecurityquestion"@
        || s == "setsecurityquestion"@
        || s == "GUIDReset"@
        || s == "AnswerReset"@
        || s == "SetMailBox"@
        || s == "SetHCPlatform"@
        || s == "SetVerificationCode"@
        || s == "getBindList"@
        || s == "setBindList"@
        || s == "restoreInactive"@
        || s == "setWifiRegion"@
        || s == "lamp"@
        || s == "selfCheck"@
        || s == "diskLocate"@
        || s == "setChannelDefaultPassword"@
        || s == "wifiParamCfg"@
        || s == "wifiParamCheck"@
        || s == "EHomeEnable"@
}

/// Whether `s` is the wire name of a request.
pub fn is_request_tag(s: &str) -> (r: bool)
    ensures
        r == is_probe_tag(s@),
{
    str_equal(s, "update")
        || str_equal(s, "inquiry")
        || str_equal(s, "MailReset")
        || str_equal(s, "reset")
        || str_equal(s, "GetQRcodes")
        || str_equal(s, "getcode")
        || str_equal(s, "exchangecode")
        || str_equal(s, "activate")
        || str_equal(s, "getencryptstring")
        || str_equal(s, "deviceTypeUnlockCode")
        || str_equal(s, "deviceTypeCustom")
        || str_equal(s, "ExportGUID")
        || str_equal(s, "getsecurityquestion")
        || str_equal(s, "setsecurityquestion")
        || str_equal(s, "GUIDReset")
        || str_equal(s, "AnswerReset")
        || str_equal(s, "SetMailBox")
        || str_equal(s, "SetHCPlatform")
        || str_equal(s, "SetVerificationCode")
        || str_equal(s, "getBindList")
        || str_equal(s, "setBindList")
        || str_equal(s, "restoreInactive")
        || str_equal(s, "setWifiRegion")
        || str_equal(s, "lamp")
        || str_equal(s, "selfCheck")
        || str_equal(s, "diskLocate")
        || str_equal(s, "setChannelDefaultPassword")
        || str_equal(s, "wifiParamCfg")
        || str_equal(s, "wifiParamCheck")
        || str_equal(s, "EHomeEnable")
}

impl Request {
    /// The variant's name on the wire, letter for letter.
    pub open spec fn tag(self) -> Seq<char> {
        match self {
            Request::Update { .. } => "update"@,
            Request::Inquiry { .. } => "inquiry"@,
            Request::MailReset {} => "MailReset"@,
            Request::Reset {} => "reset"@,
            Request::GetQRCodes { .. } => "GetQRcodes"@,
            Request::GetCode { .. } => "getcode"@,
            Request::ExchangeCode { .. } => "exchangecode"@,
            Request::Activate { .. } => "activate"@,
            Request::GetEncryptString { .. } => "getencryptstring"@,
            Request::DeviceTypeUnlockCode { .. } => "deviceTypeUnlockCode"@,
            Request::DeviceTypeCustom {} => "deviceTypeCustom"@,
            Request::ExportGUID { .. } => "ExportGUID"@,
            Request::GetSecurityQuestion { .. } => "getsecurityquestion"@,
            Request::SetSecurityQuestions => "setsecurityquestion"@,
            Request::GUIDReset => "GUIDReset"@,
            Request::AnswerReset => "AnswerReset"@,
            Request::SetMailBox => "SetMailBox"@,
            Request::SetHCPlatform => "SetHCPlatform"@,
            Request::SetVerificationCode => "SetVerificationCode"@,
            Request::GetBindList { .. } => "getBindList"@,
            Request::SetBindList => "setBindList"@,
            Request::RestoreInactive => "restoreInactive"@,
            Request::SetWifiRegion => "setWifiRegion"@,
            Request::Lamp => "lamp"@,
            Request::SelfCheck { .. } => "selfCheck"@,
            Request::DiskLocate { .. } => "diskLocate"@,
            Request::SetChannelDefaultPassword => "setChannelDefaultPassword"@,
            Request::WifiParamConfig => "wifiParamCfg"@,
            Request::WifiParamCheck => "wifiParamCheck"@,
            Request::EHomeEnable => "EHomeEnable"@,
        }
    }

    /// The fields that carry the variant's data, in the order in which
    /// they are written, each with its wire name and its text.
    pub open spec fn data_fields(self) -> Seq<(Seq<char>, Seq<char>)> {
        match self {
            Request::Update {
                uuid,
                pw_error_parse,
                mac,
                password,
                ipv4_address,
                command_port,
                http_port,
                ipv4_subnet_mask,
                ipv4_gateway,
                ipv6_address,
                ipv6_gateway,
                ipv6_mask_len,
                dhcp,
                sdk_over_tls_port,
            } => seq![
                ("Uuid"@, uuid),
                ("PWErrorParse"@, pw_error_parse),
                ("MAC"@, mac),
                ("Password"@, password),
                ("IPv4Address"@, ipv4_address),
                ("CommandPort"@, command_port),
                ("HttpPort"@, decimal_text(http_port as nat)),
                ("IPv4SubnetMask"@, ipv4_subnet_mask),
                ("IPv4Gateway"@, ipv4_gateway),
                ("IPv6Address"@, ipv6_address),
                ("IPv6Gateway"@, ipv6_gateway),
                ("IPv6MaskLen"@, decimal_text(ipv6_mask_len as nat)),
                ("DHCP"@, bool_text(dhcp)),
                ("SDKOverTLSPort"@, decimal_text(sdk_over_tls_port as nat)),
            ],
            Request::Inquiry { uuid } => seq![
                ("Uuid"@, uuid),
            ],
            Request::MailReset {} => Seq::empty(),
            Request::Reset {} => Seq::empty(),
            Request::GetQRCodes { uuid, mac } => seq![
                ("Uuid"@, uuid),
                ("MAC"@, mac),
            ],
            Request::GetCode { uuid, mac } => seq![
                ("Uuid"@, uuid),
                ("MAC"@, mac),
            ],
            Request::ExchangeCode { uuid, mac, code } => seq![
                ("Uuid"@, uuid),
                ("MAC"@, mac),
                ("Code"@, code),
            ],
            Request::Activate { uuid, mac, password } => seq![
                ("Uuid"@, uuid),
                ("MAC"@, mac),
                ("Password"@, password),
            ],
            Request::GetEncryptString { uuid, mac } => seq![
                ("Uuid"@, uuid),
                ("MAC"@, mac),
            ],
            Request::DeviceTypeUnlockCode { uuid, mac } => seq![
                ("Uuid"@, uuid),
                ("MAC"@, mac),
            ],
            Request::DeviceTypeCustom {} => Seq::empty(),
            Request::ExportGUID { uuid, mac, password } => seq![
                ("Uuid"@, uuid),
                ("MAC"@, mac),
                ("Password"@, password),
            ],
            Request::GetSecurityQuestion { uuid, mac } => seq![
                ("Uuid"@, uuid),
                ("MAC"@, mac),
            ],
            Request::SetSecurityQuestions => Seq::empty(),
            Request::GUIDReset => Seq::empty(),
            Request::AnswerReset => Seq::empty(),
            Request::SetMailBox => Seq::empty(),
            Request::SetHCPlatform => Seq::empty(),
            Request::SetVerificationCode => Seq::empty(),
            Request::GetBindList { uuid, mac } => seq![
                ("Uuid"@, uuid),
                ("MAC"@, mac),
            ],
            Request::SetBindList => Seq::empty(),
            Request::RestoreInactive => Seq::empty(),
            Request::SetWifiRegion => Seq::empty(),
            Request::Lamp => Seq::empty(),
            Request::SelfCheck { uuid, mac } => seq![
                ("Uuid"@, uuid),
                ("MAC"@, mac),
            ],
            Request::DiskLocate { uuid, mac } => seq![
                ("Uuid"@, uuid),
                ("MAC"@, mac),
            ],
            Request::SetChannelDefaultPassword => Seq::empty(),
            Request::WifiParamConfig => Seq::empty(),
            Request::WifiParamCheck => Seq::empty(),
            Request::EHomeEnable => Seq::empty(),
        }
    }

    /// The fields of the request's document: the variant's name under
    /// `Types`, as a field of the root like any other and ahead of them,
    /// then the data.
    pub open spec fn fields(self) -> Seq<(Seq<char>, Seq<char>)> {
        seq![("Types"@, self.tag())] + self.data_fields()
    }
}

impl Probe {
    /// The variant's name on the wire, letter for letter.
    pub fn tag(&self) -> (r: &'static str)
        ensures
            r@ == self@.tag(),
    {
        match self {
            Probe::Update { .. } => "update",
            Probe::Inquiry { .. } => "inquiry",
            Probe::MailReset {} => "MailReset",
            Probe::Reset {} => "reset",
            Probe::GetQRCodes { .. } => "GetQRcodes",
            Probe::GetCode { .. } => "getcode",
            Probe::ExchangeCode { .. } => "exchangecode",
            Probe::Activate { .. } => "activate",
            Probe::GetEncryptString { .. } => "getencryptstring",
            Probe::DeviceTypeUnlockCode { .. } => "deviceTypeUnlockCode",
            Probe::DeviceTypeCustom {} => "deviceTypeCustom",
            Probe::ExportGUID { .. } => "ExportGUID",
            Probe::GetSecurityQuestion { .. } => "getsecurityquestion",
            Probe::SetSecurityQuestions => "setsecurityquestion",
            Probe::GUIDReset => "GUIDReset",
            Probe::AnswerReset => "AnswerReset",
            Probe::SetMailBox => "SetMailBox",
            Probe::SetHCPlatform => "SetHCPlatform",
            Probe::SetVerificationCode => "SetVerificationCode",
            Probe::GetBindList { .. } => "getBindList",
            Probe::SetBindList => "setBindList",
            Probe::RestoreInactive => "restoreInactive",
            Probe::SetWifiRegion => "setWifiRegion",
            Probe::Lamp => "lamp",
            Probe::SelfCheck { .. } => "selfCheck",
            Probe::DiskLocate { .. } => "diskLocate",
            Probe::SetChannelDefaultPassword => "setChannelDefaultPassword",
            Probe::WifiParamConfig => "wifiParamCfg",
            Probe::WifiParamCheck => "wifiParamCheck",
            Probe::EHomeEnable => "EHomeEnable",
        }
    }

    /// The fields of the request's document.
    pub fn wire_fields(&self) -> (r: Vec<Field>)
        ensures
            fields_view(r@) == self@.fields(),
    {
        let mut out: Vec<Field> = Vec::new();
        push_field(&mut out, "Types", self.tag().to_owned());
        match self {
            Probe::Update {
                uuid,
                pw_error_parse,
                mac,
                password,
                ipv4_address,
                command_port,
                http_port,
                ipv4_subnet_mask,
                ipv4_gateway,
                ipv6_address,
                ipv6_gateway,
                ipv6_mask_len,
                dhcp,
                sdk_over_tls_port,
            } => {
                push_field(&mut out, "Uuid", uuid.clone());
                push_field(&mut out, "PWErrorParse", pw_error_parse.clone());
                push_field(&mut out, "MAC", mac.clone());
                push_field(&mut out, "Password", password.as_str().to_owned());
                push_field(&mut out, "IPv4Address", ipv4_address.clone());
                push_field(&mut out, "CommandPort", command_port.clone());
                push_field(&mut out, "HttpPort", u32_to_decimal(*http_port));
                push_field(&mut out, "IPv4SubnetMask", ipv4_subnet_mask.clone());
                push_field(&mut out, "IPv4Gateway", ipv4_gateway.clone());
                push_field(&mut out, "IPv6Address", ipv6_address.clone());
                push_field(&mut out, "IPv6Gateway", ipv6_gateway.clone());
                push_field(&mut out, "IPv6MaskLen", u32_to_decimal(*ipv6_mask_len));
                push_field(&mut out, "DHCP", bool_to_text(*dhcp));
                push_field(&mut out, "SDKOverTLSPort", u32_to_decimal(*sdk_over_tls_port));
            },
            Probe::Inquiry { uuid } => {
                push_field(&mut out, "Uuid", uuid.clone());
            },
            Probe::GetQRCodes { uuid, mac } => {
                push_field(&mut out, "Uuid", uuid.clone());
                push_field(&mut out, "MAC", mac.clone());
            },
            Probe::GetCode { uuid, mac } => {
                push_field(&mut out, "Uuid", uuid.clone());
                push_field(&mut out, "MAC", mac.clone());
            },
            Probe::ExchangeCode { uuid, mac, code } => {
                push_field(&mut out, "Uuid", uuid.clone());
                push_field(&mut out, "MAC", mac.clone());
                push_field(&mut out, "Code", code.clone());
            },
            Probe::Activate { uuid, mac, password } => {
                push_field(&mut out, "Uuid", uuid.clone());
                push_field(&mut out, "MAC", mac.clone());
                push_field(&mut out, "Password", password.clone());
            },
            Probe::GetEncryptString { uuid, mac } => {
                push_field(&mut out, "Uuid", uuid.clone());
                push_field(&mut out, "MAC", mac.clone());
            },
            Probe::DeviceTypeUnlockCode { uuid, mac } => {
                push_field(&mut out, "Uuid", uuid.clone());
                push_field(&mut out, "MAC", mac.clone());
            },
            Probe::ExportGUID { uuid, mac, password } => {
                push_field(&mut out, "Uuid", uuid.clone());
                push_field(&mut out, "MAC", mac.clone());
                push_field(&mut out, "Password", password.as_str().to_owned());
            },
            Probe::GetSecurityQuestion { uuid, mac } => {
                push_field(&mut out, "Uuid", uuid.clone());
                push_field(&mut out, "MAC", mac.clone());
            },
            Probe::GetBindList { uuid, mac } => {
                push_field(&mut out, "Uuid", uuid.clone());
                push_field(&mut out, "MAC", mac.clone());
            },
            Probe::SelfCheck { uuid, mac } => {
                push_field(&mut out, "Uuid", uuid.clone());
                push_field(&mut out, "MAC", mac.clone());
            },
            Probe::DiskLocate { uuid, mac } => {
                push_field(&mut out, "Uuid", uuid.clone());
                push_field(&mut out, "MAC", mac.clone());
            },
            _ => {},
        }
        out
    }
}

} // verus!
