//! What a listing of devices shows: the titles of its columns and, for
//! each device, the texts of one row.

use vstd::prelude::*;
use vstd::string::*;
use crate::response::{DeviceRecord, ProbeMatchSuccessBody};
use crate::text::{bool_text, bool_to_text, decimal_text, u32_to_decimal};

verus! {

/// The characters of each string of a list, in its order.
pub open spec fn texts_view(v: Seq<String>) -> Seq<Seq<char>> {
    Seq::new(v.len(), |i: int| v[i]@)
}

/// The characters of each string slice of a list, in its order.
pub open spec fn titles_view(v: Seq<&'static str>) -> Seq<Seq<char>> {
    Seq::new(v.len(), |i: int| v[i]@)
}

/// The titles of the columns, from left to right.
pub open spec fn titles_spec() -> Seq<Seq<char>> {
    seq![
        "Description"@,
        "IPv4"@,
        "Command Port"@,
        "Software Version"@,
        "IPv4 Gateway"@,
        "HTTP Port"@,
        "Device Serial"@,
        "IPv4 Subnet Mask"@,
        "MAC Address"@,
        "DSP Version"@,
        "Boot Time"@,
        "IPv6 Address"@,
        "IPv6 Gateway"@,
        "IPv6 Prefix Length"@,
        "DHCP Enabled"@,
        "Supports Hik-Connect"@,
        "Hik-Connect Enabled"@,
    ]
}

/// The row of one device: under each title the value that the device
/// reported, numbers in decimal and booleans as `true` or `false`.
pub open spec fn row_spec(record: DeviceRecord) -> Seq<Seq<char>> {
    seq![
        record.device_description,
        record.ipv4_address,
        decimal_text(record.command_port as nat),
        record.software_version,
        record.ipv4_gateway,
        decimal_text(record.http_port as nat),
        record.device_sn,
        record.ipv4_subnet_mask,
        record.mac,
        record.dsp_version,
        record.boot_time,
        record.ipv6_address,
        record.ipv6_gateway,
        decimal_text(record.ipv6_mask_len as nat),
        bool_text(record.dhcp),
        bool_text(record.support_hc_platform),
        bool_text(record.hc_platform_enable.spec_to_bool()),
    ]
}

/// The titles of the columns, from left to right.
pub fn column_titles() -> (r: Vec<&'static str>)
    ensures
        titles_view(r@) == titles_spec(),
{
    let mut out: Vec<&'static str> = Vec::new();
    out.push("Description");
    out.push("IPv4");
    out.push("Command Port");
    out.push("Software Version");
    out.push("IPv4 Gateway");
    out.push("HTTP Port");
    out.push("Device Serial");
    out.push("IPv4 Subnet Mask");
    out.push("MAC Address");
    out.push("DSP Version");
    out.push("Boot Time");
    out.push("IPv6 Address");
    out.push("IPv6 Gateway");
    out.push("IPv6 Prefix Length");
    out.push("DHCP Enabled");
    out.push("Supports Hik-Connect");
    out.push("Hik-Connect Enabled");
    out
}

/// The row of one device.
pub fn table_row(body: &ProbeMatchSuccessBody) -> (r: Vec<String>)
    ensures
        texts_view(r@) == row_spec(body@),
{
    let mut out: Vec<String> = Vec::new();
    out.push(body.device_description.clone());
    out.push(body.ipv4_address.clone());
    out.push(u32_to_decimal(body.command_port));
    out.push(body.software_version.clone());
    out.push(body.ipv4_gateway.clone());
    out.push(u32_to_decimal(body.http_port));
    out.push(body.device_sn.clone());
    out.push(body.ipv4_subnet_mask.clone());
    out.push(body.mac.clone());
    out.push(body.dsp_version.clone());
    out.push(body.boot_time.clone());
    out.push(body.ipv6_address.clone());
    out.push(body.ipv6_gateway.clone());
    out.push(u32_to_decimal(body.ipv6_mask_len));
    out.push(bool_to_text(body.dhcp));
    out.push(bool_to_text(body.support_hc_platform));
    out.push(body.hc_platform_enable.to_text());
    out
}

/// The rows of a listing, one for each device, in the order of the list.
pub fn table_rows(devices: &Vec<ProbeMatchSuccessBody>) -> (r: Vec<Vec<String>>)
    ensures
        r@.len() == devices@.len(),
        forall|i: int| 0 <= i < devices@.len() ==> texts_view((#[trigger] r@[i])@) == row_spec(
            devices@[i]@,
        ),
{
    let mut out: Vec<Vec<String>> = Vec::new();
    let mut i: usize = 0;
    while i < devices.len()
        invariant
            i <= devices.len(),
            out@.len() == i,
            forall|k: int| 0 <= k < i ==> texts_view((#[trigger] out@[k])@) == row_spec(
                devices@[k]@,
            ),
        decreases devices.len() - i,
    {
        out.push(table_row(&devices[i]));
        i = i + 1;
    }
    out
}

} // verus!
