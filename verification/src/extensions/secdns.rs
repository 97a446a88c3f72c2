//! DNS security extensions mapping
//!
//! As described in [RFC 5910](https://www.rfc-editor.org/rfc/rfc5910)
use std::borrow::Cow;
use std::time::Duration;

use vstd::prelude::*;
use vstd::std_specs::convert::FromSpec;
use vstd::string::StringSliceAdditionalSpecFns;

verus! {

/// XML namespace of the DNS security extensions.
pub const XMLNS: &'static str = "urn:ietf:params:xml:ns:secDNS-1.1";

/// Algorithm identifies the public key's cryptographic algorithm
/// <https://www.iana.org/assignments/dns-sec-alg-numbers/dns-sec-alg-numbers.xhtml#dns-sec-alg-numbers-1>
#[derive(Clone, Copy, Debug)]
// `PartialEq` is not derived: the variant `Other(u8)` could clash with one of
// the named variants, so two values are the same algorithm when their numbers
// are equal (see `Algorithm::code`).
pub enum Algorithm {
    // Delete DS
    Delete,
    /// RSA/MD5
    RsaMd5,
    /// Diffie-Hellman
    Dh,
    /// DSA/SHA-1
    Dsa,
    /// Elliptic Curve
    Ecc,
    /// RSA/SHA-1
    RsaSha1,
    /// DSA-NSEC3-SHA1
    DsaNsec3Sha1,
    /// RSASHA1-NSEC3-SHA1
    RsaSha1Nsec3Sha1,
    /// RSA/SHA-256
    RsaSha256,
    /// RSA/SHA-512
    RsaSha512,
    /// GOST R 34.10-2001
    EccGost,
    /// ECDSA Curve P-256 with SHA-256
    EcdsaP256Sha256,
    /// ECDSA Curve P-384 with SHA-384
    EcdsaP384Sha384,
    /// Ed25519
    Ed25519,
    /// Ed448
    Ed448,
    /// Indirect
    Indirect,
    /// Private
    PrivateDns,
    /// Private
    PrivateOid,
    Other(u8),
}

impl Algorithm {
    /// The IANA number of the algorithm.
    pub open spec fn code(self) -> u8 {
        match self {
            Algorithm::Delete => 0,
            Algorithm::RsaMd5 => 1,
            Algorithm::Dh => 2,
            Algorithm::Dsa => 3,
            Algorithm::Ecc => 4,
            Algorithm::RsaSha1 => 5,
            Algorithm::DsaNsec3Sha1 => 6,
            Algorithm::RsaSha1Nsec3Sha1 => 7,
            Algorithm::RsaSha256 => 8,
            Algorithm::RsaSha512 => 10,
            Algorithm::EccGost => 12,
            Algorithm::EcdsaP256Sha256 => 13,
            Algorithm::EcdsaP384Sha384 => 14,
            Algorithm::Ed25519 => 15,
            Algorithm::Ed448 => 16,
            Algorithm::Indirect => 252,
            Algorithm::PrivateDns => 253,
            Algorithm::PrivateOid => 254,
            Algorithm::Other(n) => n,
        }
    }

    /// The algorithm that the IANA number `n` stands for: a named variant for
    /// the numbers that have one, `Other(n)` for every other number.
    pub open spec fn from_code(n: u8) -> Algorithm {
        match n {
            0 => Algorithm::Delete,
            1 => Algorithm::RsaMd5,
            2 => Algorithm::Dh,
            3 => Algorithm::Dsa,
            4 => Algorithm::Ecc,
            5 => Algorithm::RsaSha1,
            6 => Algorithm::DsaNsec3Sha1,
            7 => Algorithm::RsaSha1Nsec3Sha1,
            8 => Algorithm::RsaSha256,
            10 => Algorithm::RsaSha512,
            12 => Algorithm::EccGost,
            13 => Algorithm::EcdsaP256Sha256,
            14 => Algorithm::EcdsaP384Sha384,
            15 => Algorithm::Ed25519,
            16 => Algorithm::Ed448,
            252 => Algorithm::Indirect,
            253 => Algorithm::PrivateDns,
            254 => Algorithm::PrivateOid,
            _ => Algorithm::Other(n),
        }
    }

    /// Whether `n` is the number of one of the named variants.
    pub open spec fn is_named_code(n: u8) -> bool {
        (n <= 8 || n == 10 || (12 <= n && n <= 16) || (252 <= n && n <= 254))
    }

    /// A value is canonical unless it is an `Other` that carries the number of
    /// a named variant.
    pub open spec fn is_canonical(self) -> bool {
        match self {
            Algorithm::Other(n) => !Algorithm::is_named_code(n),
            _ => true,
        }
    }
}

impl From<Algorithm> for u8 {
    fn from(s: Algorithm) -> (r: u8) {
        match s {
            Algorithm::Delete => 0,
            Algorithm::RsaMd5 => 1,
            Algorithm::Dh => 2,
            Algorithm::Dsa => 3,
            // RFC 4034
            Algorithm::Ecc => 4,
            Algorithm::RsaSha1 => 5,
            Algorithm::DsaNsec3Sha1 => 6,
            Algorithm::RsaSha1Nsec3Sha1 => 7,
            Algorithm::RsaSha256 => 8,
            Algorithm::RsaSha512 => 10,
            Algorithm::EccGost => 12,
            Algorithm::EcdsaP256Sha256 => 13,
            Algorithm::EcdsaP384Sha384 => 14,
            Algorithm::Ed25519 => 15,
            Algorithm::Ed448 => 16,
            Algorithm::Indirect => 252,
            Algorithm::PrivateDns => 253,
            Algorithm::PrivateOid => 254,
            Algorithm::Other(n) => n,
        }
    }
}

impl vstd::std_specs::convert::FromSpecImpl<Algorithm> for u8 {
    open spec fn obeys_from_spec() -> bool {
        true
    }

    open spec fn from_spec(v: Algorithm) -> u8 {
        v.code()
    }
}

impl From<u8> for Algorithm {
    fn from(n: u8) -> (r: Algorithm) {
        match n {
            0 => Self::Delete,
            1 => Self::RsaMd5,
            2 => Self::Dh,
            3 => Self::Dsa,
            4 => Self::Ecc,
            5 => Self::RsaSha1,
            6 => Self::DsaNsec3Sha1,
            7 => Self::RsaSha1Nsec3Sha1,
            8 => Self::RsaSha256,
            10 => Self::RsaSha512,
            12 => Self::EccGost,
            13 => Self::EcdsaP256Sha256,
            14 => Self::EcdsaP384Sha384,
            15 => Self::Ed25519,
            16 => Self::Ed448,
            252 => Self::Indirect,
            253 => Self::PrivateDns,
            254 => Self::PrivateOid,
            _ => Self::Other(n),
        }
    }
}

impl vstd::std_specs::convert::FromSpecImpl<u8> for Algorithm {
    open spec fn obeys_from_spec() -> bool {
        true
    }

    open spec fn from_spec(v: u8) -> Algorithm {
        Algorithm::from_code(v)
    }
}

/// Decoding a number and encoding the result gives the number back.
pub proof fn algorithm_code_roundtrip(n: u8)
    ensures
        Algorithm::from_code(n).code() == n,
{
}

/// `Other(n)` stands for the number `n` itself: it encodes to `n` for every
/// `n`, and every number that names no variant (all but 0 to 8, 10, 12 to 16
/// and 252 to 254) decodes to `Other` of that same number.
pub proof fn algorithm_other_is_its_number(n: u8)
    ensures
        u8::from_spec(Algorithm::Other(n)) == n,
        !(n <= 8 || n == 10 || (12 <= n && n <= 16) || (252 <= n && n <= 254)) ==> Algorithm::from_spec(n)
            == Algorithm::Other(n),
{
}

/// The named variants carry their IANA numbers, in both directions.
pub proof fn algorithm_iana_numbers()
    ensures
        u8::from_spec(Algorithm::Delete) == 0 && Algorithm::from_spec(0u8) == Algorithm::Delete,
        u8::from_spec(Algorithm::RsaMd5) == 1 && Algorithm::from_spec(1u8) == Algorithm::RsaMd5,
        u8::from_spec(Algorithm::Dh) == 2 && Algorithm::from_spec(2u8) == Algorithm::Dh,
        u8::from_spec(Algorithm::Dsa) == 3 && Algorithm::from_spec(3u8) == Algorithm::Dsa,
        u8::from_spec(Algorithm::Ecc) == 4 && Algorithm::from_spec(4u8) == Algorithm::Ecc,
        u8::from_spec(Algorithm::RsaSha1) == 5 && Algorithm::from_spec(5u8) == Algorithm::RsaSha1,
        u8::from_spec(Algorithm::DsaNsec3Sha1) == 6 && Algorithm::from_spec(6u8)
            == Algorithm::DsaNsec3Sha1,
        u8::from_spec(Algorithm::RsaSha1Nsec3Sha1) == 7 && Algorithm::from_spec(7u8)
            == Algorithm::RsaSha1Nsec3Sha1,
        u8::from_spec(Algorithm::RsaSha256) == 8 && Algorithm::from_spec(8u8) == Algorithm::RsaSha256,
        u8::from_spec(Algorithm::RsaSha512) == 10 && Algorithm::from_spec(10u8)
            == Algorithm::RsaSha512,
        u8::from_spec(Algorithm::EccGost) == 12 && Algorithm::from_spec(12u8) == Algorithm::EccGost,
        u8::from_spec(Algorithm::EcdsaP256Sha256) == 13 && Algorithm::from_spec(13u8)
            == Algorithm::EcdsaP256Sha256,
        u8::from_spec(Algorithm::EcdsaP384Sha384) == 14 && Algorithm::from_spec(14u8)
            == Algorithm::EcdsaP384Sha384,
        u8::from_spec(Algorithm::Ed25519) == 15 && Algorithm::from_spec(15u8) == Algorithm::Ed25519,
        u8::from_spec(Algorithm::Ed448) == 16 && Algorithm::from_spec(16u8) == Algorithm::Ed448,
        u8::from_spec(Algorithm::Indirect) == 252 && Algorithm::from_spec(252u8)
            == Algorithm::Indirect,
        u8::from_spec(Algorithm::PrivateDns) == 253 && Algorithm::from_spec(253u8)
            == Algorithm::PrivateDns,
        u8::from_spec(Algorithm::PrivateOid) == 254 && Algorithm::from_spec(254u8)
            == Algorithm::PrivateOid,
{
}

/// Encoding a canonical algorithm and decoding the number gives the algorithm
/// back; an `Other` that carries a named number decodes to the named variant.
pub proof fn algorithm_value_roundtrip(a: Algorithm)
    ensures
        a.is_canonical() ==> Algorithm::from_code(a.code()) == a,
        Algorithm::from_code(a.code()).is_canonical(),
{
}

/// DigestAlgorithm identifies the algorithm used to construct the digest
/// <https://www.iana.org/assignments/ds-rr-types/ds-rr-types.xhtml>
#[derive(Clone, Copy, Debug)]
// `PartialEq` is not derived: the variant `Other(u8)` could clash with one of
// the named variants (see `DigestAlgorithm::code`).
pub enum DigestAlgorithm {
    Sha1,
    Sha256,
    Gost,
    Sha384,
    Other(u8),
}

impl DigestAlgorithm {
    /// The IANA number of the digest algorithm.
    pub open spec fn code(self) -> u8 {
        match self {
            DigestAlgorithm::Sha1 => 1,
            DigestAlgorithm::Sha256 => 2,
            DigestAlgorithm::Gost => 3,
            DigestAlgorithm::Sha384 => 4,
            DigestAlgorithm::Other(n) => n,
        }
    }

    /// The digest algorithm that the IANA number `n` stands for: a named
    /// variant for 1 to 4, `Other(n)` for every other number.
    pub open spec fn from_code(n: u8) -> DigestAlgorithm {
        match n {
            1 => DigestAlgorithm::Sha1,
            2 => DigestAlgorithm::Sha256,
            3 => DigestAlgorithm::Gost,
            4 => DigestAlgorithm::Sha384,
            _ => DigestAlgorithm::Other(n),
        }
    }

    /// A value is canonical unless it is an `Other` that carries the number of
    /// a named variant.
    pub open spec fn is_canonical(self) -> bool {
        match self {
            DigestAlgorithm::Other(n) => !(1 <= n && n <= 4),
            _ => true,
        }
    }
}

impl From<DigestAlgorithm> for u8 {
    fn from(s: DigestAlgorithm) -> (r: u8) {
        match s {
            DigestAlgorithm::Sha1 => 1,
            DigestAlgorithm::Sha256 => 2,
            DigestAlgorithm::Gost => 3,
            DigestAlgorithm::Sha384 => 4,
            DigestAlgorithm::Other(n) => n,
        }
    }
}

impl vstd::std_specs::convert::FromSpecImpl<DigestAlgorithm> for u8 {
    open spec fn obeys_from_spec() -> bool {
        true
    }

    open spec fn from_spec(v: DigestAlgorithm) -> u8 {
        v.code()
    }
}

impl From<u8> for DigestAlgorithm {
    fn from(n: u8) -> (r: DigestAlgorithm) {
        match n {
            1 => Self::Sha1,
            2 => Self::Sha256,
            3 => Self::Gost,
            4 => Self::Sha384,
            _ => Self::Other(n),
        }
    }
}

impl vstd::std_specs::convert::FromSpecImpl<u8> for DigestAlgorithm {
    open spec fn obeys_from_spec() -> bool {
        true
    }

    open spec fn from_spec(v: u8) -> DigestAlgorithm {
        DigestAlgorithm::from_code(v)
    }
}

/// Decoding a number and encoding the result gives the number back.
pub proof fn digest_algorithm_code_roundtrip(n: u8)
    ensures
        DigestAlgorithm::from_code(n).code() == n,
{
}

/// `Other(n)` stands for the number `n` itself: it encodes to `n` for every
/// `n`, and every number outside 1 to 4 decodes to `Other` of that same
/// number.
pub proof fn digest_algorithm_other_is_its_number(n: u8)
    ensures
        u8::from_spec(DigestAlgorithm::Other(n)) == n,
        !(1 <= n && n <= 4) ==> DigestAlgorithm::from_spec(n) == DigestAlgorithm::Other(n),
{
}

/// The named variants carry their IANA numbers, in both directions.
pub proof fn digest_algorithm_iana_numbers()
    ensures
        u8::from_spec(DigestAlgorithm::Sha1) == 1 && DigestAlgorithm::from_spec(1u8)
            == DigestAlgorithm::Sha1,
        u8::from_spec(DigestAlgorithm::Sha256) == 2 && DigestAlgorithm::from_spec(2u8)
            == DigestAlgorithm::Sha256,
        u8::from_spec(DigestAlgorithm::Gost) == 3 && DigestAlgorithm::from_spec(3u8)
            == DigestAlgorithm::Gost,
        u8::from_spec(DigestAlgorithm::Sha384) == 4 && DigestAlgorithm::from_spec(4u8)
            == DigestAlgorithm::Sha384,
{
}

/// Encoding a canonical digest algorithm and decoding the number gives it
/// back; every decoded value is canonical.
pub proof fn digest_algorithm_value_roundtrip(d: DigestAlgorithm)
    ensures
        d.is_canonical() ==> DigestAlgorithm::from_code(d.code()) == d,
        DigestAlgorithm::from_code(d.code()).is_canonical(),
{
}

#[derive(Clone, Copy, Debug)]
// `PartialEq` is not derived: the variant `Other(u8)` could clash with one of
// the named variants (see `Protocol::code`).
pub enum Protocol {
    /// RFC 2535, reserved
    Tls,
    /// RFC 2535, reserved
    Email,
    /// RFC 5034 DNSSEC
    Dnssec,
    /// RFC 2535, reserved
    Ipsec,
    /// RFC 2535
    All,
    Other(u8),
}

impl Protocol {
    /// The protocol number.
    pub open spec fn code(self) -> u8 {
        match self {
            Protocol::Tls => 1,
            Protocol::Email => 2,
            Protocol::Dnssec => 3,
            Protocol::Ipsec => 4,
            Protocol::All => 255,
            Protocol::Other(n) => n,
        }
    }

    /// The protocol that the number `n` stands for: a named variant for 1 to 4
    /// and 255, `Other(n)` for every other number.
    pub open spec fn from_code(n: u8) -> Protocol {
        match n {
            1 => Protocol::Tls,
            2 => Protocol::Email,
            3 => Protocol::Dnssec,
            4 => Protocol::Ipsec,
            255 => Protocol::All,
            _ => Protocol::Other(n),
        }
    }

    /// A value is canonical unless it is an `Other` that carries the number of
    /// a named variant.
    pub open spec fn is_canonical(self) -> bool {
        match self {
            Protocol::Other(n) => !((1 <= n && n <= 4) || n == 255),
            _ => true,
        }
    }
}

impl From<Protocol> for u8 {
    fn from(s: Protocol) -> (r: u8) {
        match s {
            Protocol::Tls => 1,
            Protocol::Email => 2,
            Protocol::Dnssec => 3,
            Protocol::Ipsec => 4,
            Protocol::All => 255,
            Protocol::Other(n) => n,
        }
    }
}

impl vstd::std_specs::convert::FromSpecImpl<Protocol> for u8 {
    open spec fn obeys_from_spec() -> bool {
        true
    }

    open spec fn from_spec(v: Protocol) -> u8 {
        v.code()
    }
}

impl From<u8> for Protocol {
    fn from(n: u8) -> (r: Protocol) {
        match n {
            1 => Self::Tls,
            2 => Self::Email,
            3 => Self::Dnssec,
            4 => Self::Ipsec,
            255 => Self::All,
            _ => Self::Other(n),
        }
    }
}

impl vstd::std_specs::convert::FromSpecImpl<u8> for Protocol {
    open spec fn obeys_from_spec() -> bool {
        true
    }

    open spec fn from_spec(v: u8) -> Protocol {
        Protocol::from_code(v)
    }
}

/// Decoding a number and encoding the result gives the number back.
pub proof fn protocol_code_roundtrip(n: u8)
    ensures
        Protocol::from_code(n).code() == n,
{
}

/// `Other(n)` stands for the number `n` itself: it encodes to `n` for every
/// `n`, and every number other than 1 to 4 and 255 decodes to `Other` of that
/// same number.
pub proof fn protocol_other_is_its_number(n: u8)
    ensures
        u8::from_spec(Protocol::Other(n)) == n,
        !((1 <= n && n <= 4) || n == 255) ==> Protocol::from_spec(n) == Protocol::Other(n),
{
}

/// The named variants carry their numbers, in both directions.
pub proof fn protocol_numbers()
    ensures
        u8::from_spec(Protocol::Tls) == 1 && Protocol::from_spec(1u8) == Protocol::Tls,
        u8::from_spec(Protocol::Email) == 2 && Protocol::from_spec(2u8) == Protocol::Email,
        u8::from_spec(Protocol::Dnssec) == 3 && Protocol::from_spec(3u8) == Protocol::Dnssec,
        u8::from_spec(Protocol::Ipsec) == 4 && Protocol::from_spec(4u8) == Protocol::Ipsec,
        u8::from_spec(Protocol::All) == 255 && Protocol::from_spec(255u8) == Protocol::All,
{
}

/// Encoding a canonical protocol and decoding the number gives it back; every
/// decoded value is canonical.
pub proof fn protocol_value_roundtrip(p: Protocol)
    ensures
        p.is_canonical() ==> Protocol::from_code(p.code()) == p,
        Protocol::from_code(p.code()).is_canonical(),
{
}

/// Bit of the Zone Key flag in the DNSKEY flags field.
pub const ZONE_KEY_BIT: u16 = 0b1_0000_0000;

/// Bit of the Secure Entry Point flag in the DNSKEY flags field.
pub const SECURE_ENTRY_POINT_BIT: u16 = 0x1;

#[derive(Clone, Copy, Debug, PartialEq)]
pub struct Flags {
    /// Zone Key flag. If `true` then the DNSKEY record holds a DNS
    /// zone key. If `false` then the DNSKEY record holds some other
    /// type of DNS public key.
    zone_key: bool,
    /// Secure Entry Point. If `true` then the DNSKEY record holds a
    /// key intended for use as a secure entry point.
    secure_entry_point: bool,
}

impl Flags {
    /// Whether the Zone Key flag is set.
    pub closed spec fn has_zone_key(self) -> bool {
        self.zone_key
    }

    /// Whether the Secure Entry Point flag is set.
    pub closed spec fn has_secure_entry_point(self) -> bool {
        self.secure_entry_point
    }

    /// The flags field that encodes these flags: bit 8 for the Zone Key flag,
    /// bit 0 for the Secure Entry Point flag, every other bit clear.
    pub open spec fn encoded(self) -> u16 {
        (if self.has_zone_key() { ZONE_KEY_BIT } else { 0u16 }) | (if self.has_secure_entry_point() {
            SECURE_ENTRY_POINT_BIT
        } else {
            0u16
        })
    }

    /// The flags that a flags field `n` sets: the Zone Key flag when bit 8 is
    /// set, the Secure Entry Point flag when bit 0 is set; other bits are
    /// ignored.
    pub closed spec fn decoded(n: u16) -> Flags {
        Flags {
            zone_key: n & ZONE_KEY_BIT == ZONE_KEY_BIT,
            secure_entry_point: n & SECURE_ENTRY_POINT_BIT == SECURE_ENTRY_POINT_BIT,
        }
    }

    /// Flags are equal when both of their flags are.
    pub proof fn lemma_equal(a: Flags, b: Flags)
        ensures
            (a == b) <==> (a.has_zone_key() == b.has_zone_key() && a.has_secure_entry_point()
                == b.has_secure_entry_point()),
    {
    }

    /// What `decoded` sets, flag by flag.
    pub proof fn lemma_decoded(n: u16)
        ensures
            Flags::decoded(n).has_zone_key() == (n & ZONE_KEY_BIT == ZONE_KEY_BIT),
            Flags::decoded(n).has_secure_entry_point() == (n & SECURE_ENTRY_POINT_BIT
                == SECURE_ENTRY_POINT_BIT),
    {
    }

    /// Flags with the two given flag values.
    pub fn new(zone_key: bool, secure_entry_point: bool) -> (r: Flags)
        ensures
            r.has_zone_key() == zone_key,
            r.has_secure_entry_point() == secure_entry_point,
    {
        Flags { zone_key, secure_entry_point }
    }

    /// Whether the Zone Key flag is set.
    pub fn zone_key(&self) -> (r: bool)
        ensures
            r == self.has_zone_key(),
    {
        self.zone_key
    }

    /// Whether the Secure Entry Point flag is set.
    pub fn secure_entry_point(&self) -> (r: bool)
        ensures
            r == self.has_secure_entry_point(),
    {
        self.secure_entry_point
    }
}

impl From<Flags> for u16 {
    fn from(flags: Flags) -> (r: u16) {
        let mut res: u16 = 0;
        if flags.zone_key {
            res |= ZONE_KEY_BIT;
        }
        if flags.secure_entry_point {
            res |= SECURE_ENTRY_POINT_BIT;
        }
        proof {
            let z = flags.zone_key;
            let p = flags.secure_entry_point;
            assert(res == (if z { 0x100u16 } else { 0u16 }) | (if p { 1u16 } else { 0u16 })) by (bit_vector)
                requires
                    res == (if p { (if z { 0u16 | 0x100u16 } else { 0u16 }) | 1u16 } else {
                        if z { 0u16 | 0x100u16 } else { 0u16 }
                    }),
            ;
        }
        res
    }
}

impl vstd::std_specs::convert::FromSpecImpl<Flags> for u16 {
    open spec fn obeys_from_spec() -> bool {
        true
    }

    open spec fn from_spec(v: Flags) -> u16 {
        v.encoded()
    }
}

impl From<u16> for Flags {
    fn from(n: u16) -> (r: Flags)
        ensures
            r.has_zone_key() == (n & ZONE_KEY_BIT == ZONE_KEY_BIT),
            r.has_secure_entry_point() == (n & SECURE_ENTRY_POINT_BIT == SECURE_ENTRY_POINT_BIT),
    {
        proof {
            assert(((n | 0x100u16) == n) == (n & 0x100u16 == 0x100u16)) by (bit_vector);
            assert(((n | 0x1u16) == n) == (n & 0x1u16 == 0x1u16)) by (bit_vector);
        }
        Self {
            zone_key: (n | ZONE_KEY_BIT == n),
            secure_entry_point: (n | SECURE_ENTRY_POINT_BIT == n),
        }
    }
}

impl vstd::std_specs::convert::FromSpecImpl<u16> for Flags {
    open spec fn obeys_from_spec() -> bool {
        true
    }

    closed spec fn from_spec(v: u16) -> Flags {
        Flags::decoded(v)
    }
}

/// `Flags` for a zone signing key.
pub fn flags_dns_zone_key() -> (r: Flags)
    ensures
        r.has_zone_key(),
        !r.has_secure_entry_point(),
{
    Flags { zone_key: true, secure_entry_point: false }
}

/// `Flags` for a key signing key.
pub fn flags_dns_zone_key_sep() -> (r: Flags)
    ensures
        r.has_zone_key(),
        r.has_secure_entry_point(),
{
    Flags { zone_key: true, secure_entry_point: true }
}

/// Encoding flags and decoding the field gives the same flags back.
pub proof fn flags_value_roundtrip(f: Flags)
    ensures
        Flags::decoded(f.encoded()) == f,
{
    let z = f.has_zone_key();
    let p = f.has_secure_entry_point();
    let n = f.encoded();
    assert(n == (if z { 0x100u16 } else { 0u16 }) | (if p { 1u16 } else { 0u16 }));
    assert((n & 0x100u16 == 0x100u16) == z && (n & 1u16 == 1u16) == p) by (bit_vector)
        requires
            n == (if z { 0x100u16 } else { 0u16 }) | (if p { 1u16 } else { 0u16 }),
    ;
}

/// Decoding a flags field and encoding the result keeps exactly the two
/// defined bits of the field.
pub proof fn flags_code_roundtrip(n: u16)
    ensures
        Flags::decoded(n).encoded() == n & (ZONE_KEY_BIT | SECURE_ENTRY_POINT_BIT),
{
    let z = n & 0x100u16 == 0x100u16;
    let p = n & 1u16 == 1u16;
    assert(0x100u16 | 1u16 == 0x101u16) by (bit_vector);
    assert((if z { 0x100u16 } else { 0u16 }) | (if p { 1u16 } else { 0u16 }) == n & 0x101u16) by (bit_vector)
        requires
            z == (n & 0x100u16 == 0x100u16),
            p == (n & 1u16 == 1u16),
    ;
}

/// `Clone::clone` of `std::borrow::Cow`, which the derived `Clone` of the
/// key and DS types calls. It is trusted to return, and nothing is claimed of
/// the clone it returns.
pub assume_specification<'a, B: ?Sized + ToOwned>[ <Cow<'a, B> as Clone>::clone ](
    c: &Cow<'a, B>,
) -> Cow<'a, B>;

/// `From<&'a str>` of `std::borrow::Cow<'a, str>`. Trusted, as std documents
/// it: the string slice becomes the `Borrowed` variant, nothing is copied.
pub assume_specification<'a>[ <Cow<'a, str> as From<&'a str>>::from ](s: &'a str) -> (r: Cow<'a, str>)
    ensures
        r == Cow::Borrowed(s),
;

/// `From<String>` of `std::borrow::Cow<'a, str>`. Trusted, as std documents
/// it: the string becomes the `Owned` variant.
pub assume_specification<'a>[ <Cow<'a, str> as From<String>>::from ](s: String) -> (r: Cow<'a, str>)
    ensures
        r == Cow::<str>::Owned(s),
;

/// The reflexive `From<T> for T` of std, which `Into<Cow<'a, str>>` uses for
/// a `Cow` itself. Trusted, as std documents it: the argument is returned
/// unchanged.
pub assume_specification<V>[ <V as From<V>>::from ](v: V) -> (r: V)
    ensures
        r == v,
;

/// What a `KeyDataType` holds: the DNSKEY fields of RFC 4034.
pub struct KeyDataModel {
    pub flags: Flags,
    pub protocol: Protocol,
    pub algorithm: Algorithm,
    pub public_key: Seq<char>,
}

#[derive(Debug, Clone)]
pub struct KeyDataType<'a> {
    flags: Flags,
    protocol: Protocol,
    algorithm: Algorithm,
    public_key: Cow<'a, str>,
}

impl<'a> View for KeyDataType<'a> {
    type V = KeyDataModel;

    closed spec fn view(&self) -> KeyDataModel {
        KeyDataModel {
            flags: self.flags,
            protocol: self.protocol,
            algorithm: self.algorithm,
            public_key: self.public_key@,
        }
    }
}

impl<'a> KeyDataType<'a> {
    /// The public key as it is stored.
    pub closed spec fn stored_public_key(&self) -> Cow<'a, str> {
        self.public_key
    }

    /// A key whose public key borrows `public_key`.
    pub fn new(flags: Flags, protocol: Protocol, algorithm: Algorithm, public_key: &'a str) -> (r:
        Self)
        ensures
            r@ == (KeyDataModel { flags, protocol, algorithm, public_key: public_key@ }),
            r.stored_public_key() == Cow::<'a, str>::Borrowed(public_key),
    {
        Self { flags, protocol, algorithm, public_key: Cow::Borrowed(public_key) }
    }

    /// The flags of the key.
    pub fn flags(&self) -> (r: Flags)
        ensures
            r == self@.flags,
    {
        self.flags
    }

    /// The protocol of the key.
    pub fn protocol(&self) -> (r: Protocol)
        ensures
            r == self@.protocol,
    {
        self.protocol
    }

    /// The algorithm of the key.
    pub fn algorithm(&self) -> (r: Algorithm)
        ensures
            r == self@.algorithm,
    {
        self.algorithm
    }

    /// The public key, as its base64 text.
    pub fn public_key(&self) -> (r: &Cow<'a, str>)
        ensures
            r@ == self@.public_key,
            *r == self.stored_public_key(),
    {
        &self.public_key
    }
}

/// What a `DsDataType` holds: the DS fields of RFC 4034, with the key that
/// they refer to where it is given.
pub struct DsDataModel {
    pub key_tag: u16,
    pub algorithm: Algorithm,
    pub digest_type: DigestAlgorithm,
    pub digest: Seq<char>,
    pub key_data: Option<KeyDataModel>,
}

#[derive(Debug, Clone)]
pub struct DsDataType<'a> {
    key_tag: u16,
    algorithm: Algorithm,
    digest_type: DigestAlgorithm,
    digest: Cow<'a, str>,
    key_data: Option<KeyDataType<'a>>,
}

/// The model of an optional key.
pub open spec fn key_data_model<'a>(k: Option<KeyDataType<'a>>) -> Option<KeyDataModel> {
    match k {
        Some(k) => Some(k@),
        None => None,
    }
}

impl<'a> View for DsDataType<'a> {
    type V = DsDataModel;

    closed spec fn view(&self) -> DsDataModel {
        DsDataModel {
            key_tag: self.key_tag,
            algorithm: self.algorithm,
            digest_type: self.digest_type,
            digest: self.digest@,
            key_data: key_data_model(self.key_data),
        }
    }
}

impl<'a> DsDataType<'a> {
    /// The digest as it is stored.
    pub closed spec fn stored_digest(&self) -> Cow<'a, str> {
        self.digest
    }

    /// The key data as it is stored.
    pub closed spec fn stored_key_data(&self) -> Option<KeyDataType<'a>> {
        self.key_data
    }

    /// A DS record. The digest is held as `digest.into()` gives it, the key
    /// data as given.
    pub fn new<D: Into<Cow<'a, str>>>(
        key_tag: u16,
        algorithm: Algorithm,
        digest_type: DigestAlgorithm,
        digest: D,
        key_data: Option<KeyDataType<'a>>,
    ) -> (r: Self)
        ensures
            call_ensures(D::into, (digest,), r.stored_digest()),
            r@ == (DsDataModel {
                key_tag,
                algorithm,
                digest_type,
                digest: r.stored_digest()@,
                key_data: key_data_model(key_data),
            }),
            r.stored_key_data() == key_data,
    {
        Self { key_tag, algorithm, digest_type, digest: digest.into(), key_data }
    }

    /// The key tag of the referenced key.
    pub fn key_tag(&self) -> (r: u16)
        ensures
            r == self@.key_tag,
    {
        self.key_tag
    }

    /// The algorithm of the referenced key.
    pub fn algorithm(&self) -> (r: Algorithm)
        ensures
            r == self@.algorithm,
    {
        self.algorithm
    }

    /// The algorithm of the digest.
    pub fn digest_type(&self) -> (r: DigestAlgorithm)
        ensures
            r == self@.digest_type,
    {
        self.digest_type
    }

    /// The digest, as its hexadecimal text.
    pub fn digest(&self) -> (r: &Cow<'a, str>)
        ensures
            r@ == self@.digest,
            *r == self.stored_digest(),
    {
        &self.digest
    }

    /// The referenced key, where it is given.
    pub fn key_data(&self) -> (r: &Option<KeyDataType<'a>>)
        ensures
            key_data_model(*r) == self@.key_data,
            *r == self.stored_key_data(),
    {
        &self.key_data
    }
}

/// What a `DsOrKeyData` holds: a list of DS records or a list of keys.
pub enum DsOrKeyDataModel {
    DsData(Seq<DsDataModel>),
    KeyData(Seq<KeyDataModel>),
}

#[derive(Debug)]
pub enum DsOrKeyData<'a> {
    DsData(Cow<'a, [DsDataType<'a>]>),
    KeyData(Cow<'a, [KeyDataType<'a>]>),
}

impl<'a> View for DsOrKeyData<'a> {
    type V = DsOrKeyDataModel;

    open spec fn view(&self) -> DsOrKeyDataModel {
        match self {
            DsOrKeyData::DsData(s) => DsOrKeyDataModel::DsData(
                s@.map_values(|d: DsDataType<'a>| d@),
            ),
            DsOrKeyData::KeyData(s) => DsOrKeyDataModel::KeyData(
                s@.map_values(|k: KeyDataType<'a>| k@),
            ),
        }
    }
}

/// What a `DsOrKeyType` holds: the optional maximum signature lifetime and
/// the DS or key list.
pub struct DsOrKeyModel {
    pub maximum_signature_lifetime: Option<MaximumSignatureLifeTime>,
    pub data: DsOrKeyDataModel,
}

/// Struct supporting either the `dsData` or the `keyData` interface.
#[derive(Debug)]
pub struct DsOrKeyType<'a> {
    maximum_signature_lifetime: Option<MaximumSignatureLifeTime>,
    data: DsOrKeyData<'a>,
}

impl<'a> View for DsOrKeyType<'a> {
    type V = DsOrKeyModel;

    closed spec fn view(&self) -> DsOrKeyModel {
        DsOrKeyModel {
            maximum_signature_lifetime: self.maximum_signature_lifetime,
            data: self.data@,
        }
    }
}

impl<'a> DsOrKeyType<'a> {
    /// The DS or key list as it is stored.
    pub closed spec fn stored_data(&self) -> DsOrKeyData<'a> {
        self.data
    }

    /// The maximum signature lifetime, where it is given.
    pub fn maximum_signature_lifetime(&self) -> (r: &Option<MaximumSignatureLifeTime>)
        ensures
            *r == self@.maximum_signature_lifetime,
    {
        &self.maximum_signature_lifetime
    }

    /// The DS or key list.
    pub fn data(&self) -> (r: &DsOrKeyData<'a>)
        ensures
            r@ == self@.data,
            *r == self.stored_data(),
    {
        &self.data
    }
}

/// The data of the secDNS `<create>` extension.
#[derive(Debug)]
pub struct CreateData<'a> {
    data: DsOrKeyType<'a>,
}

impl<'a> View for CreateData<'a> {
    type V = DsOrKeyModel;

    closed spec fn view(&self) -> DsOrKeyModel {
        self.data@
    }
}

impl<'a> CreateData<'a> {
    /// The DS or key list as it is stored.
    pub closed spec fn stored_data(&self) -> DsOrKeyData<'a> {
        self.data.stored_data()
    }

    /// The DS or key data of the extension.
    pub fn data(&self) -> (r: &DsOrKeyType<'a>)
        ensures
            r@ == self@,
            r.stored_data() == self.stored_data(),
    {
        &self.data
    }
}

impl<'a> From<&'a [DsDataType<'a>]> for CreateData<'a> {
    fn from(s: &'a [DsDataType<'a>]) -> (r: Self)
        ensures
            r@ == (DsOrKeyModel {
                maximum_signature_lifetime: None,
                data: DsOrKeyDataModel::DsData(s@.map_values(|d: DsDataType<'a>| d@)),
            }),
            r.stored_data() == DsOrKeyData::DsData(Cow::<'a, [DsDataType<'a>]>::Borrowed(s)),
    {
        Self {
            data: DsOrKeyType {
                maximum_signature_lifetime: None,
                data: DsOrKeyData::DsData(Cow::Borrowed(s)),
            },
        }
    }
}

impl<'a> vstd::std_specs::convert::FromSpecImpl<&'a [DsDataType<'a>]> for CreateData<'a> {
    open spec fn obeys_from_spec() -> bool {
        true
    }

    closed spec fn from_spec(v: &'a [DsDataType<'a>]) -> CreateData<'a> {
        CreateData {
            data: DsOrKeyType {
                maximum_signature_lifetime: None,
                data: DsOrKeyData::DsData(Cow::Borrowed(v)),
            },
        }
    }
}

impl<'a> From<&'a [KeyDataType<'a>]> for CreateData<'a> {
    fn from(s: &'a [KeyDataType<'a>]) -> (r: Self)
        ensures
            r@ == (DsOrKeyModel {
                maximum_signature_lifetime: None,
                data: DsOrKeyDataModel::KeyData(s@.map_values(|k: KeyDataType<'a>| k@)),
            }),
            r.stored_data() == DsOrKeyData::KeyData(Cow::<'a, [KeyDataType<'a>]>::Borrowed(s)),
    {
        Self {
            data: DsOrKeyType {
                maximum_signature_lifetime: None,
                data: DsOrKeyData::KeyData(Cow::Borrowed(s)),
            },
        }
    }
}

impl<'a> vstd::std_specs::convert::FromSpecImpl<&'a [KeyDataType<'a>]> for CreateData<'a> {
    open spec fn obeys_from_spec() -> bool {
        true
    }

    closed spec fn from_spec(v: &'a [KeyDataType<'a>]) -> CreateData<'a> {
        CreateData {
            data: DsOrKeyType {
                maximum_signature_lifetime: None,
                data: DsOrKeyData::KeyData(Cow::Borrowed(v)),
            },
        }
    }
}

impl<'a> From<(Duration, &'a [DsDataType<'a>])> for CreateData<'a> {
    fn from(v: (Duration, &'a [DsDataType<'a>])) -> (r: Self)
        ensures
            r@ == (DsOrKeyModel {
                maximum_signature_lifetime: Some(MaximumSignatureLifeTime(v.0)),
                data: DsOrKeyDataModel::DsData(v.1@.map_values(|d: DsDataType<'a>| d@)),
            }),
            r.stored_data() == DsOrKeyData::DsData(Cow::<'a, [DsDataType<'a>]>::Borrowed(v.1)),
    {
        let (maximum_signature_lifetime, data) = v;
        Self {
            data: DsOrKeyType {
                maximum_signature_lifetime: Some(MaximumSignatureLifeTime(maximum_signature_lifetime)),
                data: DsOrKeyData::DsData(Cow::Borrowed(data)),
            },
        }
    }
}

impl<'a> vstd::std_specs::convert::FromSpecImpl<(Duration, &'a [DsDataType<'a>])> for CreateData<'a> {
    open spec fn obeys_from_spec() -> bool {
        true
    }

    closed spec fn from_spec(v: (Duration, &'a [DsDataType<'a>])) -> CreateData<'a> {
        CreateData {
            data: DsOrKeyType {
                maximum_signature_lifetime: Some(MaximumSignatureLifeTime(v.0)),
                data: DsOrKeyData::DsData(Cow::Borrowed(v.1)),
            },
        }
    }
}

impl<'a> From<(Duration, &'a [KeyDataType<'a>])> for CreateData<'a> {
    fn from(v: (Duration, &'a [KeyDataType<'a>])) -> (r: Self)
        ensures
            r@ == (DsOrKeyModel {
                maximum_signature_lifetime: Some(MaximumSignatureLifeTime(v.0)),
                data: DsOrKeyDataModel::KeyData(v.1@.map_values(|k: KeyDataType<'a>| k@)),
            }),
            r.stored_data() == DsOrKeyData::KeyData(Cow::<'a, [KeyDataType<'a>]>::Borrowed(v.1)),
    {
        let (maximum_signature_lifetime, data) = v;
        Self {
            data: DsOrKeyType {
                maximum_signature_lifetime: Some(MaximumSignatureLifeTime(maximum_signature_lifetime)),
                data: DsOrKeyData::KeyData(Cow::Borrowed(data)),
            },
        }
    }
}

impl<'a> vstd::std_specs::convert::FromSpecImpl<(Duration, &'a [KeyDataType<'a>])> for CreateData<'a> {
    open spec fn obeys_from_spec() -> bool {
        true
    }

    closed spec fn from_spec(v: (Duration, &'a [KeyDataType<'a>])) -> CreateData<'a> {
        CreateData {
            data: DsOrKeyType {
                maximum_signature_lifetime: Some(MaximumSignatureLifeTime(v.0)),
                data: DsOrKeyData::KeyData(Cow::Borrowed(v.1)),
            },
        }
    }
}

#[derive(Debug, PartialEq)]
pub struct MaximumSignatureLifeTime(pub Duration);

/// Name for the duration that `Duration::from_secs(secs)` returns.
pub uninterp spec fn duration_of_secs(secs: u64) -> Duration;

/// Name for the whole seconds that `Duration::as_secs` returns for `d`.
pub uninterp spec fn whole_secs_of(d: Duration) -> u64;

/// Calls `std::time::Duration::from_secs`. Trusted: the result is the named
/// duration of `secs` seconds, and, as std documents, its whole seconds
/// (`as_secs`) are `secs`.
#[verifier::external_body]
fn duration_from_secs(secs: u64) -> (d: Duration)
    ensures
        d == duration_of_secs(secs),
        whole_secs_of(d) == secs,
{
    Duration::from_secs(secs)
}

/// Calls `std::time::Duration::as_secs`. Trusted: the result is the named
/// whole seconds of `d`.
#[verifier::external_body]
fn duration_as_secs(d: &Duration) -> (s: u64)
    ensures
        s == whole_secs_of(*d),
{
    d.as_secs()
}

/// Whether two strings hold the same bytes.
fn same_str(a: &str, b: &str) -> (r: bool)
    ensures
        r == (a.spec_bytes() == b.spec_bytes()),
{
    let x = a.as_bytes();
    let y = b.as_bytes();
    if x.len() != y.len() {
        return false;
    }
    let mut i: usize = 0;
    while i < x.len()
        invariant
            x@ == a.spec_bytes(),
            y@ == b.spec_bytes(),
            x@.len() == y@.len(),
            i <= x@.len(),
            forall|j: int| 0 <= j < i ==> x@[j] == y@[j],
        decreases x@.len() - i,
    {
        if x[i] != y[i] {
            return false;
        }
        i += 1;
    }
    assert(x@ =~= y@);
    true
}

/// Name of the `<maxSigLife>` element.
pub const MAX_SIG_LIFE_ELEMENT: &'static str = "maxSigLife";

impl MaximumSignatureLifeTime {
    /// Whether an element with namespace `ns` and local name `name` is a
    /// `<maxSigLife>` element of the secDNS namespace.
    pub fn matches(ns: &str, name: &str) -> (r: bool)
        ensures
            r == (ns.spec_bytes() == XMLNS.spec_bytes() && name.spec_bytes()
                == MAX_SIG_LIFE_ELEMENT.spec_bytes()),
    {
        same_str(ns, XMLNS) && same_str(name, MAX_SIG_LIFE_ELEMENT)
    }

    /// The lifetime in whole seconds, as the `<maxSigLife>` element holds it.
    pub fn seconds(&self) -> (r: u64)
        ensures
            r == whole_secs_of(self.0),
    {
        duration_as_secs(&self.0)
    }

    /// Takes in the seconds read from a `<maxSigLife>` element: where there
    /// are some, `into` becomes the lifetime of that many seconds, whose
    /// whole seconds are the ones read; where there are none, `into` is left
    /// as it was.
    pub fn accumulate(into: &mut Option<MaximumSignatureLifeTime>, seconds: Option<u64>)
        ensures
            seconds matches Some(s) ==> *final(into) == Some(
                MaximumSignatureLifeTime(duration_of_secs(s)),
            ) && whole_secs_of(final(into).unwrap().0) == s,
            seconds is None ==> *final(into) == *old(into),
    {
        if let Some(duration_seconds) = seconds {
            *into = Some(Self(duration_from_secs(duration_seconds)));
        }
    }
}

} // verus!
