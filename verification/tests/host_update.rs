use epp_client::host::update::{HostAdd, HostChangeInfo, HostRemove, HostUpdate};
use epp_client::host::{IpAddr, Status};

#[test]
fn update_command() {
    let addr = vec![IpAddr::from([
        0x2404, 0x6800, 0x4001, 0x801, 0, 0, 0, 0x200e,
    ])];

    let add = HostAdd {
        addresses: Some(addr),
        statuses: None,
    };

    let remove = HostRemove {
        addresses: None,
        statuses: Some(vec![Status::ClientDeleteProhibited]),
    };

    let mut object = HostUpdate::new("host1.eppdev-1.com");

    object.add(add);
    object.remove(remove);
    object.info(HostChangeInfo {
        name: "host2.eppdev-1.com",
    });

    let host = object.host();
    assert_eq!(host.name().as_ref(), "host1.eppdev-1.com");
    let add = host.add().as_ref().unwrap();
    assert_eq!(
        add.addresses,
        Some(vec![IpAddr::V6([0x2404, 0x6800, 0x4001, 0x801, 0, 0, 0, 0x200e])])
    );
    assert_eq!(add.statuses, None);
    let remove = host.remove().as_ref().unwrap();
    assert_eq!(remove.addresses, None);
    assert_eq!(remove.statuses, Some(vec![Status::ClientDeleteProhibited]));
    assert_eq!(host.change_info().as_ref().unwrap().name, "host2.eppdev-1.com");
    assert_eq!(HostUpdate::COMMAND, "update");
}

#[test]
fn new_update_changes_nothing() {
    let object = HostUpdate::new("ns1.example.com");
    let host = object.host();
    assert_eq!(host.name().as_ref(), "ns1.example.com");
    assert!(host.add().is_none());
    assert!(host.remove().is_none());
    assert!(host.change_info().is_none());
}

#[test]
fn setting_a_part_twice_keeps_the_last_value() {
    let mut object = HostUpdate::new("ns1.example.com");
    object.info(HostChangeInfo { name: "ns2.example.com" });
    object.info(HostChangeInfo { name: "ns3.example.com" });
    object.add(HostAdd {
        addresses: Some(vec![IpAddr::from([192, 0, 2, 1])]),
        statuses: None,
    });
    let host = object.host();
    assert_eq!(host.change_info().as_ref().unwrap().name, "ns3.example.com");
    assert_eq!(
        host.add().as_ref().unwrap().addresses,
        Some(vec![IpAddr::V4([192, 0, 2, 1])])
    );
    assert!(host.remove().is_none());
}
