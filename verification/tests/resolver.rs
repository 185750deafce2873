//! The endpoint resolver on synthetic descriptor trees: zero, one, and
//! multiple candidates across configurations.
use linedisplayrs::helpers::{
    find_endpoint, AltSettingDesc, ConfigDesc, EndpointDesc, EndpointDirection, InterfaceDesc,
    TransferKind, UsbEndpoint,
};

fn endpoint(address: u8, transfer_type: TransferKind) -> EndpointDesc {
    EndpointDesc { address, transfer_type }
}

fn alt(interface_number: u8, setting_number: u8, endpoints: Vec<EndpointDesc>) -> AltSettingDesc {
    AltSettingDesc { interface_number, setting_number, endpoints }
}

fn config(number: u8, alts: Vec<AltSettingDesc>) -> ConfigDesc {
    ConfigDesc {
        number,
        interfaces: alts
            .into_iter()
            .map(|a| InterfaceDesc { alt_settings: vec![a] })
            .collect(),
    }
}

#[test]
fn empty_tree_has_no_endpoint() {
    let configs: Vec<ConfigDesc> = Vec::new();
    assert_eq!(
        find_endpoint(&configs, TransferKind::Bulk, EndpointDirection::Out),
        None
    );
}

#[test]
fn tree_without_candidates_has_no_endpoint() {
    // An interrupt OUT endpoint and a bulk IN endpoint (address bit 7 set):
    // neither is a bulk OUT candidate.
    let configs = vec![config(
        1,
        vec![alt(0, 0, vec![endpoint(0x02, TransferKind::Interrupt), endpoint(0x81, TransferKind::Bulk)])],
    )];
    assert_eq!(
        find_endpoint(&configs, TransferKind::Bulk, EndpointDirection::Out),
        None
    );
}

#[test]
fn single_candidate_is_found() {
    let configs = vec![config(
        1,
        vec![alt(2, 1, vec![endpoint(0x81, TransferKind::Bulk), endpoint(0x03, TransferKind::Bulk)])],
    )];
    assert_eq!(
        find_endpoint(&configs, TransferKind::Bulk, EndpointDirection::Out),
        Some(UsbEndpoint { config: 1, interface: 2, setting: 1, address: 0x03 })
    );
}

#[test]
fn first_configuration_wins() {
    let configs = vec![
        config(1, vec![alt(0, 0, vec![endpoint(0x01, TransferKind::Bulk)])]),
        config(2, vec![alt(0, 0, vec![endpoint(0x02, TransferKind::Bulk)])]),
    ];
    assert_eq!(
        find_endpoint(&configs, TransferKind::Bulk, EndpointDirection::Out),
        Some(UsbEndpoint { config: 1, interface: 0, setting: 0, address: 0x01 })
    );
}

#[test]
fn match_in_later_configuration_is_found() {
    let configs = vec![
        config(1, vec![alt(0, 0, vec![endpoint(0x83, TransferKind::Bulk)])]),
        config(2, vec![alt(4, 1, vec![endpoint(0x02, TransferKind::Bulk)])]),
    ];
    assert_eq!(
        find_endpoint(&configs, TransferKind::Bulk, EndpointDirection::Out),
        Some(UsbEndpoint { config: 2, interface: 4, setting: 1, address: 0x02 })
    );
}

#[test]
fn first_endpoint_within_setting_wins() {
    let configs = vec![config(
        1,
        vec![alt(0, 0, vec![endpoint(0x01, TransferKind::Bulk), endpoint(0x02, TransferKind::Bulk)])],
    )];
    assert_eq!(
        find_endpoint(&configs, TransferKind::Bulk, EndpointDirection::Out),
        Some(UsbEndpoint { config: 1, interface: 0, setting: 0, address: 0x01 })
    );
}

#[test]
fn earlier_interface_beats_later_interface() {
    let configs = vec![config(
        1,
        vec![
            alt(0, 0, vec![endpoint(0x81, TransferKind::Bulk)]),
            alt(1, 0, vec![endpoint(0x02, TransferKind::Bulk)]),
            alt(2, 0, vec![endpoint(0x03, TransferKind::Bulk)]),
        ],
    )];
    assert_eq!(
        find_endpoint(&configs, TransferKind::Bulk, EndpointDirection::Out),
        Some(UsbEndpoint { config: 1, interface: 1, setting: 0, address: 0x02 })
    );
}

#[test]
fn requested_direction_is_respected() {
    let configs = vec![config(
        1,
        vec![alt(0, 0, vec![endpoint(0x02, TransferKind::Bulk), endpoint(0x81, TransferKind::Bulk)])],
    )];
    assert_eq!(
        find_endpoint(&configs, TransferKind::Bulk, EndpointDirection::In),
        Some(UsbEndpoint { config: 1, interface: 0, setting: 0, address: 0x81 })
    );
}

#[test]
fn requested_transfer_type_is_respected() {
    let configs = vec![config(
        1,
        vec![alt(0, 0, vec![endpoint(0x01, TransferKind::Bulk), endpoint(0x02, TransferKind::Interrupt)])],
    )];
    assert_eq!(
        find_endpoint(&configs, TransferKind::Interrupt, EndpointDirection::Out),
        Some(UsbEndpoint { config: 1, interface: 0, setting: 0, address: 0x02 })
    );
}
