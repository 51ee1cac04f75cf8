use jabi::usb::{bulk_pair, is_jabi_name, jabi_interface, name_event, probe_next, AltSettingInfo, BulkPair, EndpointInfo};
use jabi::usb::{ProbeEvent, ProbeNext};

fn ep(address: u8, is_bulk: bool, is_in: bool) -> EndpointInfo {
    EndpointInfo { address, is_bulk, is_in, max_packet_size: 64 }
}

fn desc(endpoints: Vec<EndpointInfo>) -> AltSettingInfo {
    AltSettingInfo { setting_number: 0, class_code: 0xFF, string_index: Some(4), endpoints }
}

fn accepted(d: &AltSettingInfo, name: &str) -> Option<BulkPair> {
    jabi_interface(d, &name.to_string())
}

#[test]
fn only_full_fingerprint_match_is_accepted() {
    let a = desc(vec![ep(0x81, true, true), ep(0x02, true, false)]);
    let b = desc(vec![ep(0x81, true, true), ep(0x02, true, false)]);
    let c = desc(vec![ep(0x81, true, true), ep(0x82, true, true)]);
    let found: Vec<usize> = [(&a, "JABI USB"), (&b, "Other USB"), (&c, "JABI USB")]
        .iter()
        .enumerate()
        .filter(|(_, (d, n))| accepted(d, n).is_some())
        .map(|(i, _)| i)
        .collect();
    assert_eq!(found, vec![0]);
    assert_eq!(
        accepted(&a, "JABI USB"),
        Some(BulkPair { ep_out: 0x02, ep_in: 0x81, out_packet_size: 64 })
    );
}

#[test]
fn endpoint_order_does_not_matter() {
    let d = desc(vec![ep(0x01, true, false), ep(0x83, true, true)]);
    assert_eq!(bulk_pair(&d), Some(BulkPair { ep_out: 0x01, ep_in: 0x83, out_packet_size: 64 }));
}

#[test]
fn each_fingerprint_field_is_required() {
    let good = || desc(vec![ep(0x81, true, true), ep(0x02, true, false)]);
    let mut d = good();
    d.setting_number = 1;
    assert_eq!(bulk_pair(&d), None);
    let mut d = good();
    d.class_code = 0x03;
    assert_eq!(bulk_pair(&d), None);
    let mut d = good();
    d.string_index = None;
    assert_eq!(bulk_pair(&d), None);
    let mut d = good();
    d.endpoints.push(ep(0x03, true, false));
    assert_eq!(bulk_pair(&d), None);
    let d = desc(vec![ep(0x81, false, true), ep(0x02, true, false)]);
    assert_eq!(bulk_pair(&d), None);
    assert!(bulk_pair(&good()).is_some());
}

#[test]
fn interface_name_must_match_exactly() {
    assert!(is_jabi_name(&"JABI USB".to_string()));
    assert!(!is_jabi_name(&"JABI USB ".to_string()));
    assert!(!is_jabi_name(&"jabi usb".to_string()));
    assert!(!is_jabi_name(&String::new()));
}

#[test]
fn empty_bus_yields_no_device() {
    assert!(jabi::usb::discover(&Vec::new()).0.is_empty());
}

#[test]
fn scan_rules_after_each_outcome() {
    assert_eq!(probe_next(ProbeEvent::NotFitting), ProbeNext::NextSetting);
    assert_eq!(probe_next(ProbeEvent::OpenFailed), ProbeNext::NextDevice);
    assert_eq!(probe_next(ProbeEvent::NameUnreadable), ProbeNext::NextDevice);
    assert_eq!(probe_next(ProbeEvent::NameMismatch), ProbeNext::NextSetting);
    assert_eq!(probe_next(ProbeEvent::ClaimFailed), ProbeNext::NextInterface);
    assert_eq!(probe_next(ProbeEvent::NoReqSize), ProbeNext::NextSetting);
    assert_eq!(probe_next(ProbeEvent::NoRespSize), ProbeNext::NextDevice);
    assert_eq!(probe_next(ProbeEvent::Ready), ProbeNext::Keep);
}

#[test]
fn name_decides_the_probe() {
    assert_eq!(name_event(&None), Some(ProbeEvent::NameUnreadable));
    assert_eq!(name_event(&Some("JABI USB".to_string())), None);
    assert_eq!(name_event(&Some("JABI USB2".to_string())), Some(ProbeEvent::NameMismatch));
    assert_eq!(name_event(&Some(String::new())), Some(ProbeEvent::NameMismatch));
}
