use std::borrow::Cow;
use std::time::Duration;

use epp_client::extensions::secdns::{
    flags_dns_zone_key, flags_dns_zone_key_sep, Algorithm, CreateData, DigestAlgorithm,
    DsDataType, DsOrKeyData, Flags, KeyDataType, MaximumSignatureLifeTime, Protocol, XMLNS,
};
use instant_xml::{Deserializer, Error, FromXml, Id, Kind, Serializer, ToXml};

/// `<maxSigLife>` as XML, by the library's own element test, seconds and
/// accumulation.
#[derive(Debug, PartialEq)]
struct MaxSigLife(MaximumSignatureLifeTime);

impl ToXml for MaxSigLife {
    fn serialize<W: std::fmt::Write + ?Sized>(
        &self,
        _: Option<Id<'_>>,
        serializer: &mut Serializer<W>,
    ) -> Result<(), Error> {
        let element = serializer.write_start(
            epp_client::extensions::secdns::MAX_SIG_LIFE_ELEMENT,
            XMLNS,
            None::<instant_xml::ser::Context<0>>,
        )?;
        serializer.end_start()?;
        self.0.seconds().serialize(None, serializer)?;
        serializer.write_close(element)
    }
}

impl<'xml> FromXml<'xml> for MaxSigLife {
    fn matches(id: Id<'_>, _: Option<Id<'_>>) -> bool {
        MaximumSignatureLifeTime::matches(id.ns, id.name)
    }

    fn deserialize<'cx>(
        into: &mut Self::Accumulator,
        field: &'static str,
        deserializer: &mut Deserializer<'cx, 'xml>,
    ) -> Result<(), Error> {
        let mut value = <Option<u64> as FromXml<'xml>>::Accumulator::default();
        instant_xml::from_xml_str(value.get_mut(), field, deserializer)?;
        let mut lifetime = into.take().map(|m| m.0);
        MaximumSignatureLifeTime::accumulate(&mut lifetime, *value.get_mut());
        *into = lifetime.map(MaxSigLife);
        Ok(())
    }

    type Accumulator = Option<Self>;
    const KIND: Kind = Kind::Element;
}

#[test]
fn serialization() {
    let v = Some(MaxSigLife(MaximumSignatureLifeTime(Duration::from_secs(10))));
    let xml = r#"<maxSigLife xmlns="urn:ietf:params:xml:ns:secDNS-1.1">10</maxSigLife>"#;

    assert_eq!(xml, instant_xml::to_string(&v).unwrap());
    assert_eq!(v, instant_xml::from_str(xml).unwrap());
}

#[test]
fn bijectivity() {
    assert_bijectivity(true, true);
    assert_bijectivity(true, false);
    assert_bijectivity(false, false);
    assert_bijectivity(false, true);

    fn assert_bijectivity(zone_key: bool, secure_entry_point: bool) {
        let flags = Flags::new(zone_key, secure_entry_point);

        assert_eq!(flags, u16::from(flags).into())
    }
}

fn ds_data_of<'c, 'a>(extension: &'c CreateData<'a>) -> &'c [DsDataType<'a>] {
    match extension.data().data() {
        DsOrKeyData::DsData(s) => s.as_ref(),
        DsOrKeyData::KeyData(_) => panic!("expected the dsData interface"),
    }
}

#[test]
fn create_ds_data_interface() {
    let ds_data = [DsDataType::new(
        12345,
        Algorithm::Dsa,
        DigestAlgorithm::Sha1,
        "49FD46E6C4B45C55D4AC",
        None,
    )];
    let extension = CreateData::from((Duration::from_secs(604800), ds_data.as_ref()));

    assert_eq!(
        extension.data().maximum_signature_lifetime(),
        &Some(MaximumSignatureLifeTime(Duration::from_secs(604800)))
    );
    let ds = ds_data_of(&extension);
    assert_eq!(ds.len(), 1);
    assert_eq!(ds[0].key_tag(), 12345);
    assert_eq!(u8::from(ds[0].algorithm()), 3);
    assert_eq!(u8::from(ds[0].digest_type()), 1);
    assert_eq!(ds[0].digest().as_ref(), "49FD46E6C4B45C55D4AC");
    assert!(ds[0].key_data().is_none());
}

#[test]
fn create_ds_and_key_data_interface() {
    let key_data = KeyDataType::new(
        flags_dns_zone_key_sep(),
        Protocol::Dnssec,
        Algorithm::Dsa,
        "AQPJ////4Q==",
    );
    let ds_data = [DsDataType::new(
        12345,
        Algorithm::Dsa,
        DigestAlgorithm::Sha1,
        "49FD46E6C4B45C55D4AC",
        Some(key_data),
    )];
    let extension = CreateData::from((Duration::from_secs(604800), ds_data.as_ref()));

    assert_eq!(
        extension.data().maximum_signature_lifetime(),
        &Some(MaximumSignatureLifeTime(Duration::from_secs(604800)))
    );
    let ds = ds_data_of(&extension);
    assert_eq!(ds.len(), 1);
    assert_eq!(ds[0].key_tag(), 12345);
    assert_eq!(u8::from(ds[0].algorithm()), 3);
    assert_eq!(u8::from(ds[0].digest_type()), 1);
    assert_eq!(ds[0].digest().as_ref(), "49FD46E6C4B45C55D4AC");
    let key = ds[0].key_data().as_ref().unwrap();
    assert_eq!(u16::from(key.flags()), 257);
    assert_eq!(u8::from(key.protocol()), 3);
    assert_eq!(u8::from(key.algorithm()), 3);
    assert_eq!(key.public_key().as_ref(), "AQPJ////4Q==");
}

#[test]
fn create_key_data_interface() {
    let key_data = [KeyDataType::new(
        flags_dns_zone_key_sep(),
        Protocol::Dnssec,
        Algorithm::RsaMd5,
        "AQPJ////4Q==",
    )];
    let extension = CreateData::from(key_data.as_ref());

    assert_eq!(extension.data().maximum_signature_lifetime(), &None);
    let keys = match extension.data().data() {
        DsOrKeyData::KeyData(s) => s.as_ref(),
        DsOrKeyData::DsData(_) => panic!("expected the keyData interface"),
    };
    assert_eq!(keys.len(), 1);
    assert_eq!(u16::from(keys[0].flags()), 257);
    assert_eq!(u8::from(keys[0].protocol()), 3);
    assert_eq!(u8::from(keys[0].algorithm()), 1);
    assert_eq!(keys[0].public_key().as_ref(), "AQPJ////4Q==");
}

#[test]
fn key_data_without_lifetime_and_ds_data_with_lifetime() {
    let ds_data = [DsDataType::new(1, Algorithm::Ed25519, DigestAlgorithm::Sha256, "AB", None)];
    let extension = CreateData::from(ds_data.as_ref());
    assert_eq!(extension.data().maximum_signature_lifetime(), &None);
    assert_eq!(ds_data_of(&extension)[0].key_tag(), 1);

    let key_data = [KeyDataType::new(flags_dns_zone_key(), Protocol::All, Algorithm::Ed448, "Kg==")];
    let extension = CreateData::from((Duration::from_secs(86400), key_data.as_ref()));
    assert_eq!(
        extension.data().maximum_signature_lifetime(),
        &Some(MaximumSignatureLifeTime(Duration::from_secs(86400)))
    );
    match extension.data().data() {
        DsOrKeyData::KeyData(s) => {
            assert_eq!(s.len(), 1);
            assert_eq!(u16::from(s[0].flags()), 256);
            assert_eq!(u8::from(s[0].protocol()), 255);
            assert_eq!(u8::from(s[0].algorithm()), 16);
            assert_eq!(s[0].public_key(), &Cow::Borrowed("Kg=="));
        }
        DsOrKeyData::DsData(_) => panic!("expected the keyData interface"),
    }
}

#[test]
fn algorithm_numbers() {
    let named: [(Algorithm, u8); 18] = [
        (Algorithm::Delete, 0),
        (Algorithm::RsaMd5, 1),
        (Algorithm::Dh, 2),
        (Algorithm::Dsa, 3),
        (Algorithm::Ecc, 4),
        (Algorithm::RsaSha1, 5),
        (Algorithm::DsaNsec3Sha1, 6),
        (Algorithm::RsaSha1Nsec3Sha1, 7),
        (Algorithm::RsaSha256, 8),
        (Algorithm::RsaSha512, 10),
        (Algorithm::EccGost, 12),
        (Algorithm::EcdsaP256Sha256, 13),
        (Algorithm::EcdsaP384Sha384, 14),
        (Algorithm::Ed25519, 15),
        (Algorithm::Ed448, 16),
        (Algorithm::Indirect, 252),
        (Algorithm::PrivateDns, 253),
        (Algorithm::PrivateOid, 254),
    ];
    for (a, n) in named {
        assert_eq!(u8::from(a), n);
        assert_eq!(format!("{:?}", Algorithm::from(n)), format!("{:?}", a));
    }
    assert_eq!(format!("{:?}", Algorithm::from(9)), "Other(9)");
    assert_eq!(format!("{:?}", Algorithm::from(255)), "Other(255)");
    assert_eq!(u8::from(Algorithm::Other(200)), 200);
    // An `Other` that carries a named number decodes to the named variant.
    assert_eq!(format!("{:?}", Algorithm::from(u8::from(Algorithm::Other(3)))), "Dsa");
    for n in 0..=255u8 {
        assert_eq!(u8::from(Algorithm::from(n)), n);
    }
}

#[test]
fn digest_algorithm_numbers() {
    assert_eq!(u8::from(DigestAlgorithm::Sha1), 1);
    assert_eq!(u8::from(DigestAlgorithm::Sha256), 2);
    assert_eq!(u8::from(DigestAlgorithm::Gost), 3);
    assert_eq!(u8::from(DigestAlgorithm::Sha384), 4);
    assert_eq!(u8::from(DigestAlgorithm::Other(0)), 0);
    assert_eq!(format!("{:?}", DigestAlgorithm::from(2)), "Sha256");
    assert_eq!(format!("{:?}", DigestAlgorithm::from(5)), "Other(5)");
    for n in 0..=255u8 {
        assert_eq!(u8::from(DigestAlgorithm::from(n)), n);
    }
}

#[test]
fn protocol_numbers() {
    assert_eq!(u8::from(Protocol::Tls), 1);
    assert_eq!(u8::from(Protocol::Email), 2);
    assert_eq!(u8::from(Protocol::Dnssec), 3);
    assert_eq!(u8::from(Protocol::Ipsec), 4);
    assert_eq!(u8::from(Protocol::All), 255);
    assert_eq!(format!("{:?}", Protocol::from(255)), "All");
    assert_eq!(format!("{:?}", Protocol::from(0)), "Other(0)");
    for n in 0..=255u8 {
        assert_eq!(u8::from(Protocol::from(n)), n);
    }
}

#[test]
fn flags_encoding() {
    assert_eq!(u16::from(flags_dns_zone_key()), 256);
    assert_eq!(u16::from(flags_dns_zone_key_sep()), 257);
    assert_eq!(u16::from(Flags::new(false, false)), 0);
    assert_eq!(u16::from(Flags::new(false, true)), 1);
    let all = Flags::from(0xffff);
    assert!(all.zone_key() && all.secure_entry_point());
    assert_eq!(u16::from(all), 0x101);
    let none = Flags::from(0xfefe);
    assert!(!none.zone_key() && !none.secure_entry_point());
    for n in 0..=u16::MAX {
        assert_eq!(u16::from(Flags::from(n)), n & 0x101);
    }
}

#[test]
fn max_sig_life_element() {
    assert!(MaximumSignatureLifeTime::matches(XMLNS, "maxSigLife"));
    assert!(!MaximumSignatureLifeTime::matches(XMLNS, "maxSigLifeX"));
    assert!(!MaximumSignatureLifeTime::matches("urn:ietf:params:xml:ns:epp-1.0", "maxSigLife"));
    assert!(!MaximumSignatureLifeTime::matches("", ""));
}

#[test]
fn max_sig_life_seconds() {
    let mut into = None;
    MaximumSignatureLifeTime::accumulate(&mut into, Some(604800));
    assert_eq!(into, Some(MaximumSignatureLifeTime(Duration::from_secs(604800))));
    assert_eq!(into.as_ref().unwrap().seconds(), 604800);

    MaximumSignatureLifeTime::accumulate(&mut into, None);
    assert_eq!(into, Some(MaximumSignatureLifeTime(Duration::from_secs(604800))));

    let mut into = None;
    MaximumSignatureLifeTime::accumulate(&mut into, None);
    assert_eq!(into, None);

    let lifetime = MaximumSignatureLifeTime(Duration::new(90, 500));
    assert_eq!(lifetime.seconds(), 90);
}

#[test]
fn ds_data_with_owned_digest() {
    let digest = String::from("49FD46E6C4B45C55D4AC");
    let ds = DsDataType::new(
        12345,
        Algorithm::Dsa,
        DigestAlgorithm::Sha1,
        digest,
        None,
    );
    assert!(matches!(ds.digest(), Cow::Owned(d) if d == "49FD46E6C4B45C55D4AC"));
    let cow = DsDataType::new(2, Algorithm::Dsa, DigestAlgorithm::Sha1, Cow::Borrowed("CD"), None);
    assert!(matches!(cow.digest(), Cow::Borrowed("CD")));
    let borrowed = DsDataType::new(1, Algorithm::Dsa, DigestAlgorithm::Sha1, "AB", None);
    assert!(matches!(borrowed.digest(), Cow::Borrowed("AB")));
}
