//! The discovery filter and the activation step machine.
use linedisplayrs::display::{first_failed_step, ActivationStep};
use linedisplayrs::helpers::{
    first_match_index, identity_matches, DeviceIdentity, SUPPORTED_PRODUCT_ID, SUPPORTED_VENDOR_ID,
};

fn supported() -> DeviceIdentity {
    DeviceIdentity { vendor_id: 0x0fa8, product_id: 0xa090 }
}

fn other() -> DeviceIdentity {
    DeviceIdentity { vendor_id: 0x1d6b, product_id: 0x0002 }
}

#[test]
fn discovery_filter_constants() {
    assert_eq!(SUPPORTED_VENDOR_ID, 0x0fa8);
    assert_eq!(SUPPORTED_PRODUCT_ID, 0xa090);
}

#[test]
fn identity_filter_requires_both_ids() {
    assert!(identity_matches(&supported()));
    assert!(!identity_matches(&other()));
    assert!(!identity_matches(&DeviceIdentity { vendor_id: 0x0fa8, product_id: 0x0002 }));
    assert!(!identity_matches(&DeviceIdentity { vendor_id: 0x1d6b, product_id: 0xa090 }));
}

#[test]
fn no_match_in_empty_list() {
    let ids: Vec<DeviceIdentity> = Vec::new();
    assert_eq!(first_match_index(&ids), None);
}

#[test]
fn no_match_without_supported_identity() {
    let ids = vec![other(), other()];
    assert_eq!(first_match_index(&ids), None);
}

#[test]
fn first_of_duplicate_matches_is_returned() {
    let ids = vec![other(), supported(), supported()];
    assert_eq!(first_match_index(&ids), Some(1));
}

#[test]
fn activation_fails_fast_at_each_step() {
    // A failure at one step reports that step, whatever the later steps
    // would have done.
    assert_eq!(first_failed_step(false, true, true), Some(ActivationStep::SetConfiguration));
    assert_eq!(first_failed_step(false, false, false), Some(ActivationStep::SetConfiguration));
    assert_eq!(first_failed_step(true, false, true), Some(ActivationStep::ClaimInterface));
    assert_eq!(first_failed_step(true, false, false), Some(ActivationStep::ClaimInterface));
    assert_eq!(first_failed_step(true, true, false), Some(ActivationStep::SetAlternateSetting));
    assert_eq!(first_failed_step(true, true, true), None);
}
