//! Replies written out: the fields and bytes of the reply that reports a
//! device record, and the proof that reading them gives the record back.

use vstd::prelude::*;
use vstd::string::*;
use vstd::utf8::*;
use crate::codec::{attribute_text, is_known_tag, readable, response_of, well_typed, DecodeError};
use crate::response::{
    attribute_count, Attribute, DeviceRecord, ProbeMatchResult, ProbeMatchSuccessBody, RawResponse,
    ReductionError,
};
use crate::text::{
    bool_text, bool_to_text, decimal_text, lemma_bool_text_round_trip, lemma_u32_text_round_trip,
    mark, u32_to_decimal,
};
use crate::wire::{
    document, field_value, fields_view, lemma_field_value_absent, lemma_field_value_at, push_field,
    render_document, Field,
};

verus! {

impl DeviceRecord {
    /// The text that stands on the wire for the record's attribute `a`.
    pub open spec fn text_of(self, a: Attribute) -> Seq<char> {
        match a {
            Attribute::DeviceType => self.device_type,
            Attribute::DeviceDescription => self.device_description,
            Attribute::DeviceSn => self.device_sn,
            Attribute::CommandPort => decimal_text(self.command_port as nat),
            Attribute::HttpPort => decimal_text(self.http_port as nat),
            Attribute::Mac => self.mac,
            Attribute::Ipv4Address => self.ipv4_address,
            Attribute::Ipv4SubnetMask => self.ipv4_subnet_mask,
            Attribute::Ipv4Gateway => self.ipv4_gateway,
            Attribute::Ipv6Address => self.ipv6_address,
            Attribute::Ipv6Gateway => self.ipv6_gateway,
            Attribute::Ipv6MaskLen => decimal_text(self.ipv6_mask_len as nat),
            Attribute::Dhcp => bool_text(self.dhcp),
            Attribute::AnalogChannelNum => decimal_text(self.analog_channel_num as nat),
            Attribute::DigitalChannelNum => decimal_text(self.digital_channel_num as nat),
            Attribute::SoftwareVersion => self.software_version,
            Attribute::DspVersion => self.dsp_version,
            Attribute::BootTime => self.boot_time,
            Attribute::ResetAbility => bool_text(self.reset_ability),
            Attribute::DiskNumber => decimal_text(self.disk_number as nat),
            Attribute::Activated => bool_text(self.activated),
            Attribute::PasswordResetAbility => bool_text(self.password_reset_ability),
            Attribute::PasswordResetModeSecond => bool_text(self.password_reset_mode_second),
            Attribute::SupportHcPlatform => bool_text(self.support_hc_platform),
            Attribute::HcPlatformEnable => self.hc_platform_enable.wire_text(),
            Attribute::IsModifyVerificationCode => self.is_modify_verification_code,
        }
    }

    /// The fields that carry the record: every attribute, in the order of
    /// the record, under its wire name.
    pub open spec fn fields(self) -> Seq<(Seq<char>, Seq<char>)> {
        Seq::new(
            attribute_count() as nat,
            |i: int| (Attribute::at(i).wire_name(), self.text_of(Attribute::at(i))),
        )
    }
}

/// The field that carries an outcome, if there is one to carry.
pub open spec fn outcome_fields(result: Option<ProbeMatchResult>) -> Seq<(Seq<char>, Seq<char>)> {
    match result {
        Some(outcome) => seq![("Result"@, outcome.wire_text())],
        None => Seq::empty(),
    }
}

/// The fields of the reply that reports `record`: the correlation id, the
/// name of the variant, the outcome if there is one, then the record.
pub open spec fn reply_fields(
    uuid: Seq<char>,
    types: Seq<char>,
    result: Option<ProbeMatchResult>,
    record: DeviceRecord,
) -> Seq<(Seq<char>, Seq<char>)> {
    seq![("Uuid"@, uuid), ("Types"@, types)] + outcome_fields(result) + record.fields()
}

/// The bytes of the reply that reports `record`: the UTF-8 of its
/// document, whose root element is called `ProbeMatch`.
pub open spec fn encode_reply_spec(
    uuid: Seq<char>,
    types: Seq<char>,
    result: Option<ProbeMatchResult>,
    record: DeviceRecord,
) -> Seq<u8> {
    encode_utf8(document("ProbeMatch"@, reply_fields(uuid, types, result, record)))
}

impl ProbeMatchSuccessBody {
    /// Appends the fields that carry the record to `out`.
    fn push_fields(&self, out: &mut Vec<Field>)
        ensures
            fields_view(final(out)@) == fields_view(old(out)@) + self@.fields(),
    {
        push_field(out, Attribute::DeviceType.name(), self.device_type.clone());
        push_field(out, Attribute::DeviceDescription.name(), self.device_description.clone());
        push_field(out, Attribute::DeviceSn.name(), self.device_sn.clone());
        push_field(out, Attribute::CommandPort.name(), u32_to_decimal(self.command_port));
        push_field(out, Attribute::HttpPort.name(), u32_to_decimal(self.http_port));
        push_field(out, Attribute::Mac.name(), self.mac.clone());
        push_field(out, Attribute::Ipv4Address.name(), self.ipv4_address.clone());
        push_field(out, Attribute::Ipv4SubnetMask.name(), self.ipv4_subnet_mask.clone());
        push_field(out, Attribute::Ipv4Gateway.name(), self.ipv4_gateway.clone());
        push_field(out, Attribute::Ipv6Address.name(), self.ipv6_address.clone());
        push_field(out, Attribute::Ipv6Gateway.name(), self.ipv6_gateway.clone());
        push_field(out, Attribute::Ipv6MaskLen.name(), u32_to_decimal(self.ipv6_mask_len));
        push_field(out, Attribute::Dhcp.name(), bool_to_text(self.dhcp));
        push_field(
            out,
            Attribute::AnalogChannelNum.name(),
            u32_to_decimal(self.analog_channel_num),
        );
        push_field(
            out,
            Attribute::DigitalChannelNum.name(),
            u32_to_decimal(self.digital_channel_num),
        );
        push_field(out, Attribute::SoftwareVersion.name(), self.software_version.clone());
        push_field(out, Attribute::DspVersion.name(), self.dsp_version.clone());
        push_field(out, Attribute::BootTime.name(), self.boot_time.clone());
        push_field(out, Attribute::ResetAbility.name(), bool_to_text(self.reset_ability));
        push_field(out, Attribute::DiskNumber.name(), u32_to_decimal(self.disk_number));
        push_field(out, Attribute::Activated.name(), bool_to_text(self.activated));
        push_field(
            out,
            Attribute::PasswordResetAbility.name(),
            bool_to_text(self.password_reset_ability),
        );
        push_field(
            out,
            Attribute::PasswordResetModeSecond.name(),
            bool_to_text(self.password_reset_mode_second),
        );
        push_field(
            out,
            Attribute::SupportHcPlatform.name(),
            bool_to_text(self.support_hc_platform),
        );
        push_field(
            out,
            Attribute::HcPlatformEnable.name(),
            self.hc_platform_enable.to_wire().to_owned(),
        );
        push_field(
            out,
            Attribute::IsModifyVerificationCode.name(),
            self.is_modify_verification_code.clone(),
        );
    }

    /// The fields that carry the record.
    pub fn wire_fields(&self) -> (r: Vec<Field>)
        ensures
            fields_view(r@) == self@.fields(),
    {
        let mut out: Vec<Field> = Vec::new();
        self.push_fields(&mut out);
        out
    }
}

/// Writes the reply that reports `body` as the bytes that a device would
/// send.
pub fn encode_reply(
    uuid: &str,
    types: &str,
    result: Option<ProbeMatchResult>,
    body: &ProbeMatchSuccessBody,
) -> (r: Vec<u8>)
    ensures
        r@ == encode_reply_spec(uuid@, types@, result, body@),
{
    let mut fields: Vec<Field> = Vec::new();
    push_field(&mut fields, "Uuid", uuid.to_owned());
    push_field(&mut fields, "Types", types.to_owned());
    match result {
        Some(outcome) => {
            push_field(&mut fields, "Result", outcome.to_wire().to_owned());
        },
        None => {},
    }
    assert(fields_view(fields@) =~= seq![("Uuid"@, uuid@), ("Types"@, types@)] + outcome_fields(
        result,
    ));
    body.push_fields(&mut fields);
    let text = render_document("ProbeMatch", &fields);
    text.as_str().as_bytes_vec()
}

/// No two attributes share a wire name, and none is called like the
/// correlation id, the variant or the outcome.
pub proof fn lemma_wire_names_distinct(a: Attribute, b: Attribute)
    ensures
        a != b ==> a.wire_name() != b.wire_name(),
        a.wire_name() != "Uuid"@,
        a.wire_name() != "Types"@,
        a.wire_name() != "Result"@,
        "Uuid"@ != "Types"@,
        "Uuid"@ != "Result"@,
        "Types"@ != "Result"@,
{
    reveal_strlit("Uuid");
    reveal_strlit("Types");
    reveal_strlit("Result");
    reveal_strlit("DeviceType");
    reveal_strlit("DeviceDescription");
    reveal_strlit("DeviceSN");
    reveal_strlit("CommandPort");
    reveal_strlit("HttpPort");
    reveal_strlit("MAC");
    reveal_strlit("IPv4Address");
    reveal_strlit("IPv4SubnetMask");
    reveal_strlit("IPv4Gateway");
    reveal_strlit("IPv6Address");
    reveal_strlit("IPv6Gateway");
    reveal_strlit("IPv6MaskLen");
    reveal_strlit("DHCP");
    reveal_strlit("AnalogChannelNum");
    reveal_strlit("DigitalChannelNum");
    reveal_strlit("SoftwareVersion");
    reveal_strlit("DSPVersion");
    reveal_strlit("BootTime");
    reveal_strlit("ResetAbility");
    reveal_strlit("DiskNumber");
    reveal_strlit("Activated");
    reveal_strlit("PasswordResetAbility");
    reveal_strlit("PasswordResetModeSecond");
    reveal_strlit("SupportHCPlatform");
    reveal_strlit("HCPlatformEnable");
    reveal_strlit("IsModifyVerificationCode");
    assert(mark("Uuid"@, 3, 4) == (4nat, 'd', ' '));
    assert(mark("Types"@, 3, 4) == (5nat, 'e', 's'));
    assert(mark("Result"@, 3, 4) == (6nat, 'u', 'l'));
    assert(mark("DeviceType"@, 3, 4) == (10nat, 'i', 'c'));
    assert(mark("DeviceDescription"@, 3, 4) == (17nat, 'i', 'c'));
    assert(mark("DeviceSN"@, 3, 4) == (8nat, 'i', 'c'));
    assert(mark("CommandPort"@, 3, 4) == (11nat, 'm', 'a'));
    assert(mark("HttpPort"@, 3, 4) == (8nat, 'p', 'P'));
    assert(mark("MAC"@, 3, 4) == (3nat, ' ', ' '));
    assert(mark("IPv4Address"@, 3, 4) == (11nat, '4', 'A'));
    assert(mark("IPv4SubnetMask"@, 3, 4) == (14nat, '4', 'S'));
    assert(mark("IPv4Gateway"@, 3, 4) == (11nat, '4', 'G'));
    assert(mark("IPv6Address"@, 3, 4) == (11nat, '6', 'A'));
    assert(mark("IPv6Gateway"@, 3, 4) == (11nat, '6', 'G'));
    assert(mark("IPv6MaskLen"@, 3, 4) == (11nat, '6', 'M'));
    assert(mark("DHCP"@, 3, 4) == (4nat, 'P', ' '));
    assert(mark("AnalogChannelNum"@, 3, 4) == (16nat, 'l', 'o'));
    assert(mark("DigitalChannelNum"@, 3, 4) == (17nat, 'i', 't'));
    assert(mark("SoftwareVersion"@, 3, 4) == (15nat, 't', 'w'));
    assert(mark("DSPVersion"@, 3, 4) == (10nat, 'V', 'e'));
    assert(mark("BootTime"@, 3, 4) == (8nat, 't', 'T'));
    assert(mark("ResetAbility"@, 3, 4) == (12nat, 'e', 't'));
    assert(mark("DiskNumber"@, 3, 4) == (10nat, 'k', 'N'));
    assert(mark("Activated"@, 3, 4) == (9nat, 'i', 'v'));
    assert(mark("PasswordResetAbility"@, 3, 4) == (20nat, 's', 'w'));
    assert(mark("PasswordResetModeSecond"@, 3, 4) == (23nat, 's', 'w'));
    assert(mark("SupportHCPlatform"@, 3, 4) == (17nat, 'p', 'o'));
    assert(mark("HCPlatformEnable"@, 3, 4) == (16nat, 'l', 'a'));
    assert(mark("IsModifyVerificationCode"@, 3, 4) == (24nat, 'o', 'd'));
}

/// Each attribute of a record is found in the record's fields, under its
/// wire name, with the text that stands for it.
pub proof fn lemma_record_lookup(record: DeviceRecord, a: Attribute)
    ensures
        field_value(record.fields(), a.wire_name()) == Some(record.text_of(a)),
{
    let fields = record.fields();
    let i = a.index();
    assert forall|j: int| 0 <= j < i implies fields[j].0 != a.wire_name() by {
        lemma_wire_names_distinct(Attribute::at(j), a);
    }
    lemma_field_value_at(fields, a.wire_name(), i);
}

/// A name is looked up in two lists laid end to end as in the first and,
/// where the first has no such field, in the second.
pub proof fn lemma_field_value_concat(
    first: Seq<(Seq<char>, Seq<char>)>,
    second: Seq<(Seq<char>, Seq<char>)>,
    name: Seq<char>,
)
    ensures
        field_value(first + second, name) == (match field_value(first, name) {
            Some(v) => Some(v),
            None => field_value(second, name),
        }),
    decreases first.len(),
{
    if first.len() > 0 {
        assert((first + second).drop_first() =~= first.drop_first() + second);
        lemma_field_value_concat(first.drop_first(), second, name);
    }
}

/// What the fields of a reply hold under each name: the correlation id,
/// the variant, the outcome where there is one, and each attribute of the
/// record.
pub proof fn lemma_reply_lookup(
    uuid: Seq<char>,
    types: Seq<char>,
    result: Option<ProbeMatchResult>,
    record: DeviceRecord,
)
    ensures
        field_value(reply_fields(uuid, types, result, record), "Uuid"@) == Some(uuid),
        field_value(reply_fields(uuid, types, result, record), "Types"@) == Some(types),
        field_value(reply_fields(uuid, types, result, record), "Result"@) == (match result {
            Some(outcome) => Some(outcome.wire_text()),
            None => None,
        }),
        forall|a: Attribute| #[trigger]
            attribute_text(reply_fields(uuid, types, result, record), a) == Some(
                record.text_of(a),
            ),
{
    let head = seq![("Uuid"@, uuid), ("Types"@, types)] + outcome_fields(result);
    let all = reply_fields(uuid, types, result, record);
    lemma_wire_names_distinct(Attribute::DeviceType, Attribute::DeviceType);
    lemma_field_value_at(head, "Uuid"@, 0);
    lemma_field_value_at(head, "Types"@, 1);
    lemma_field_value_concat(head, record.fields(), "Uuid"@);
    lemma_field_value_concat(head, record.fields(), "Types"@);
    lemma_field_value_concat(head, record.fields(), "Result"@);
    match result {
        Some(outcome) => {
            lemma_field_value_at(head, "Result"@, 2);
        },
        None => {
            lemma_field_value_absent(head, "Result"@);
            assert forall|j: int| 0 <= j < record.fields().len() implies record.fields()[j].0
                != "Result"@ by {
                lemma_wire_names_distinct(Attribute::at(j), Attribute::at(j));
            }
            lemma_field_value_absent(record.fields(), "Result"@);
        },
    }
    assert forall|a: Attribute| #[trigger]
        attribute_text(all, a) == Some(record.text_of(a)) by {
        lemma_wire_names_distinct(a, a);
        lemma_field_value_absent(head, a.wire_name());
        lemma_field_value_concat(head, record.fields(), a.wire_name());
        lemma_record_lookup(record, a);
    }
}

/// Codec fidelity for replies: reading the fields of the reply that
/// reports a record gives a reply that holds every attribute of the
/// record, each with the value it was written from, and the correlation
/// id, variant and outcome it was written with.
pub proof fn lemma_reply_round_trip(
    uuid: Seq<char>,
    types: Seq<char>,
    result: Option<ProbeMatchResult>,
    record: DeviceRecord,
)
    requires
        is_known_tag(types),
    ensures
        response_of(reply_fields(uuid, types, result, record)) == Ok::<RawResponse, DecodeError>(
            record.as_response(uuid, types, result),
        ),
{
    let all = reply_fields(uuid, types, result, record);
    lemma_reply_lookup(uuid, types, result, record);
    if result is Some {
        result->0.lemma_wire_round_trip();
    }
    record.hc_platform_enable.lemma_wire_round_trip();
    lemma_u32_text_round_trip(record.command_port);
    lemma_u32_text_round_trip(record.http_port);
    lemma_u32_text_round_trip(record.ipv6_mask_len);
    lemma_bool_text_round_trip(record.dhcp);
    lemma_u32_text_round_trip(record.analog_channel_num);
    lemma_u32_text_round_trip(record.digital_channel_num);
    lemma_bool_text_round_trip(record.reset_ability);
    lemma_u32_text_round_trip(record.disk_number);
    lemma_bool_text_round_trip(record.activated);
    lemma_bool_text_round_trip(record.password_reset_ability);
    lemma_bool_text_round_trip(record.password_reset_mode_second);
    lemma_bool_text_round_trip(record.support_hc_platform);
    assert forall|a: Attribute| #[trigger] readable(all, a) by {
        assert(attribute_text(all, a) == Some(record.text_of(a)));
    }
}

/// Codec fidelity, through to the record: a reply that was written from a
/// record and does not report failure is read and reduced to that record.
pub proof fn lemma_reply_reduces_to_record(
    uuid: Seq<char>,
    types: Seq<char>,
    result: Option<ProbeMatchResult>,
    record: DeviceRecord,
)
    requires
        is_known_tag(types),
        result != Some(ProbeMatchResult::Failed),
    ensures
        response_of(reply_fields(uuid, types, result, record)) is Ok,
        response_of(reply_fields(uuid, types, result, record))->Ok_0.reduce() == Ok::<
            DeviceRecord,
            ReductionError,
        >(record),
{
    lemma_reply_round_trip(uuid, types, result, record);
}

} // verus!
