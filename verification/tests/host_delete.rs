use epp_client::host::delete::HostDelete;

#[test]
fn delete_command() {
    let object = HostDelete::new("ns1.eppdev-1.com");
    assert_eq!(object.host().name(), "ns1.eppdev-1.com");
    assert_eq!(HostDelete::COMMAND, "delete");
}
