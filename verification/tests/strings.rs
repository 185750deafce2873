//! Device description formatting, escape handling, command-line
//! conversions, and error messages.
use linedisplayrs::cli;
use linedisplayrs::cli::handle_escape_strings;
use linedisplayrs::helpers::describe_device;
use linedisplayrs::{Brightness, CursorMode, DisplayError, ScrollDirection, ScrollPosition};

#[test]
fn describe_known_vendor_without_product_entry() {
    // The supported controller's vendor is in the USB ID database, its
    // product is not: the product name defaults to empty.
    assert_eq!(
        describe_device(1, 2, 0x0fa8, 0xa090),
        "Bus 001 Device 002 ID 0fa8:a090 (Logic Controls, Inc. )"
    );
}

#[test]
fn describe_known_vendor_and_product() {
    assert_eq!(
        describe_device(3, 14, 0x1d6b, 0x0002),
        "Bus 003 Device 014 ID 1d6b:0002 (Linux Foundation 2.0 root hub)"
    );
}

#[test]
fn describe_unknown_vendor() {
    assert_eq!(
        describe_device(0, 255, 0xfffe, 0x0001),
        "Bus 000 Device 255 ID fffe:0001 (Unknown vendor )"
    );
}

#[test]
fn escaped_newline_becomes_crlf() {
    assert_eq!(handle_escape_strings(String::from("a\\nb")), "a\r\nb");
}

#[test]
fn escape_handling_edge_cases() {
    assert_eq!(handle_escape_strings(String::from("")), "");
    assert_eq!(handle_escape_strings(String::from("plain")), "plain");
    assert_eq!(handle_escape_strings(String::from("\\n\\n")), "\r\n\r\n");
    assert_eq!(handle_escape_strings(String::from("\\\\n")), "\\\r\n");
    assert_eq!(handle_escape_strings(String::from("end\\")), "end\\");
    assert_eq!(handle_escape_strings(String::from("\\x")), "\\x");
}

#[test]
fn cli_position_conversion() {
    assert!(matches!(ScrollPosition::from(cli::Position::Top), ScrollPosition::Top));
    assert!(matches!(ScrollPosition::from(cli::Position::Bottom), ScrollPosition::Bottom));
}

#[test]
fn cli_direction_conversion() {
    assert!(matches!(ScrollDirection::from(cli::Direction::Left), ScrollDirection::Left));
    assert!(matches!(ScrollDirection::from(cli::Direction::Right), ScrollDirection::Right));
}

#[test]
fn cli_cursor_conversion() {
    assert!(matches!(CursorMode::from(cli::CursorMode::On), CursorMode::On));
    assert!(matches!(CursorMode::from(cli::CursorMode::Off), CursorMode::Off));
}

#[test]
fn error_messages_name_the_stage() {
    assert_eq!(
        DisplayError::NoDevicesFound.message(),
        "No Matching USB display devices found"
    );
    assert_eq!(
        DisplayError::WriteBulk { source: rusb::Error::Io }.message(),
        "Could not write to USB device"
    );
    assert_eq!(
        DisplayError::SetActiveConfig { source: rusb::Error::Busy }.message(),
        "Could not set active configuration"
    );
    assert_eq!(
        DisplayError::ClaimInterface { source: rusb::Error::Access }.message(),
        "Could not claim USB interface"
    );
    assert_eq!(
        DisplayError::SetAlternateSetting { source: rusb::Error::NotFound }.message(),
        "Could not set interface setting"
    );
    assert_eq!(
        DisplayError::DeviceList { source: rusb::Error::Io }.message(),
        "Could not list USB devices"
    );
    assert_eq!(
        DisplayError::Descriptor { source: rusb::Error::Other }.message(),
        "Could not read USB device descriptor"
    );
    assert_eq!(
        DisplayError::HandleOpen { source: rusb::Error::NoDevice }.message(),
        "Could not open device"
    );
}

#[test]
fn brightness_levels_are_distinct() {
    let levels = [
        Brightness::TwentyPercent,
        Brightness::FortyPercent,
        Brightness::SixtyPercent,
        Brightness::Full,
    ];
    let bytes: Vec<u8> = levels.iter().map(|l| u8::from(*l)).collect();
    assert_eq!(bytes, vec![20, 40, 60, 100]);
}
