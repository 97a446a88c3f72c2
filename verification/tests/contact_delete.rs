use epp_client::contact::delete::ContactDelete;

#[test]
fn command() {
    let object = ContactDelete::new("eppdev-contact-3");
    assert_eq!(object.contact().id().as_ref(), "eppdev-contact-3");
    assert_eq!(ContactDelete::COMMAND, "delete");
}
