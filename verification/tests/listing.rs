use hikvision_sadp_client::response::{HvTypoBool, ProbeMatchSuccessBody};
use hikvision_sadp_client::table::{column_titles, table_row, table_rows};

fn listed(serial: &str) -> ProbeMatchSuccessBody {
    ProbeMatchSuccessBody {
        device_type: "141298".to_string(),
        device_description: "DS-2CD2042WD-I".to_string(),
        device_sn: serial.to_string(),
        command_port: 8000,
        http_port: 80,
        mac: "c0-56-e3-aa-bb-cc".to_string(),
        ipv4_address: "192.168.1.64".to_string(),
        ipv4_subnet_mask: "255.255.255.0".to_string(),
        ipv4_gateway: "192.168.1.1".to_string(),
        ipv6_address: "fe80::c256:e3ff:feaa:bbcc".to_string(),
        ipv6_gateway: "::".to_string(),
        ipv6_mask_len: 64,
        dhcp: false,
        analog_channel_num: 0,
        digital_channel_num: 1,
        software_version: "V5.4.5build 170124".to_string(),
        dsp_version: "V7.3 build 170109".to_string(),
        boot_time: "2021-03-04 05:06:07".to_string(),
        reset_ability: false,
        disk_number: 0,
        activated: true,
        password_reset_ability: true,
        password_reset_mode_second: true,
        support_hc_platform: true,
        hc_platform_enable: HvTypoBool::Flase,
        is_modify_verification_code: "true".to_string(),
    }
}

#[test]
fn the_titles_of_the_columns() {
    assert_eq!(
        column_titles(),
        vec![
            "Description",
            "IPv4",
            "Command Port",
            "Software Version",
            "IPv4 Gateway",
            "HTTP Port",
            "Device Serial",
            "IPv4 Subnet Mask",
            "MAC Address",
            "DSP Version",
            "Boot Time",
            "IPv6 Address",
            "IPv6 Gateway",
            "IPv6 Prefix Length",
            "DHCP Enabled",
            "Supports Hik-Connect",
            "Hik-Connect Enabled",
        ]
    );
}

#[test]
fn the_row_of_one_device() {
    assert_eq!(
        table_row(&listed("SN-1")),
        vec![
            "DS-2CD2042WD-I",
            "192.168.1.64",
            "8000",
            "V5.4.5build 170124",
            "192.168.1.1",
            "80",
            "SN-1",
            "255.255.255.0",
            "c0-56-e3-aa-bb-cc",
            "V7.3 build 170109",
            "2021-03-04 05:06:07",
            "fe80::c256:e3ff:feaa:bbcc",
            "::",
            "64",
            "false",
            "true",
            "false",
        ]
    );
}

#[test]
fn a_row_has_one_text_for_each_title() {
    assert_eq!(table_row(&listed("SN-1")).len(), column_titles().len());
}

#[test]
fn the_rows_of_a_listing() {
    let rows = table_rows(&vec![listed("SN-1"), listed("SN-2")]);
    assert_eq!(rows.len(), 2);
    assert_eq!(rows[0], table_row(&listed("SN-1")));
    assert_eq!(rows[1][6], "SN-2");
    assert_eq!(table_rows(&Vec::new()), Vec::<Vec<String>>::new());
}
