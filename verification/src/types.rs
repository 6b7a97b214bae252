//! Enums and key usages. Each enum maps one to one onto a constant of the
//! host library; the `raw()` methods give the C value.

use vstd::prelude::*;
use vstd::std_specs::ops::BitOrSpec;

verus! {

/// Key slots on the chip.
///
/// 0xE0F0 holds the factory key with the Infineon-issued certificate in data
/// object 0xE0E0. 0xE0F1..0xE0F3 are free ECC slots, 0xE0FC..0xE0FD RSA
/// slots, 0xE200 the AES key slot.
#[derive(Debug, Clone, Copy, PartialEq, Eq, Hash)]
pub enum KeyId {
    E0F0,
    E0F1,
    E0F2,
    E0F3,
    E0FC,
    E0FD,
    /// Symmetric (AES) key slot 0xE200.
    SecretBased,
    /// Volatile key from the current session (e.g. an exported ECDH context).
    SessionBased,
}

impl KeyId {
    /// The host library's value for this key slot.
    pub open spec fn spec_raw(self) -> u32 {
        match self {
            KeyId::E0F0 => 0xE0F0,
            KeyId::E0F1 => 0xE0F1,
            KeyId::E0F2 => 0xE0F2,
            KeyId::E0F3 => 0xE0F3,
            KeyId::E0FC => 0xE0FC,
            KeyId::E0FD => 0xE0FD,
            KeyId::SecretBased => 0xE200,
            KeyId::SessionBased => 0xE100,
        }
    }

    /// The host library's value for this key slot.
    pub fn raw(self) -> (r: u32)
        ensures
            r == self.spec_raw(),
    {
        match self {
            KeyId::E0F0 => 0xE0F0,
            KeyId::E0F1 => 0xE0F1,
            KeyId::E0F2 => 0xE0F2,
            KeyId::E0F3 => 0xE0F3,
            KeyId::E0FC => 0xE0FC,
            KeyId::E0FD => 0xE0FD,
            KeyId::SecretBased => 0xE200,
            KeyId::SessionBased => 0xE100,
        }
    }
}

/// Distinct KeyId values have distinct host library values.
pub proof fn lemma_key_id_raw_injective(a: KeyId, b: KeyId)
    ensures
        a.spec_raw() == b.spec_raw() ==> a == b,
{
}

/// Elliptic curves the chip supports.
#[derive(Debug, Clone, Copy, PartialEq, Eq)]
pub enum EccCurve {
    NistP256,
    NistP384,
    NistP521,
    BrainpoolP256r1,
    BrainpoolP384r1,
    BrainpoolP512r1,
}

impl EccCurve {
    /// The host library's value for this curve.
    pub open spec fn spec_raw(self) -> u32 {
        match self {
            EccCurve::NistP256 => 0x03,
            EccCurve::NistP384 => 0x04,
            EccCurve::NistP521 => 0x05,
            EccCurve::BrainpoolP256r1 => 0x13,
            EccCurve::BrainpoolP384r1 => 0x15,
            EccCurve::BrainpoolP512r1 => 0x16,
        }
    }

    /// The host library's value for this curve.
    pub fn raw(self) -> (r: u32)
        ensures
            r == self.spec_raw(),
    {
        match self {
            EccCurve::NistP256 => 0x03,
            EccCurve::NistP384 => 0x04,
            EccCurve::NistP521 => 0x05,
            EccCurve::BrainpoolP256r1 => 0x13,
            EccCurve::BrainpoolP384r1 => 0x15,
            EccCurve::BrainpoolP512r1 => 0x16,
        }
    }
}

/// Distinct EccCurve values have distinct host library values.
pub proof fn lemma_ecc_curve_raw_injective(a: EccCurve, b: EccCurve)
    ensures
        a.spec_raw() == b.spec_raw() ==> a == b,
{
}

/// RSA key sizes the chip supports.
#[derive(Debug, Clone, Copy, PartialEq, Eq)]
pub enum RsaKeyType {
    Rsa1024,
    Rsa2048,
}

impl RsaKeyType {
    /// The host library's value for this key size.
    pub open spec fn spec_raw(self) -> u32 {
        match self {
            RsaKeyType::Rsa1024 => 0x41,
            RsaKeyType::Rsa2048 => 0x42,
        }
    }

    /// The host library's value for this key size.
    pub fn raw(self) -> (r: u32)
        ensures
            r == self.spec_raw(),
    {
        match self {
            RsaKeyType::Rsa1024 => 0x41,
            RsaKeyType::Rsa2048 => 0x42,
        }
    }
}

/// Distinct RsaKeyType values have distinct host library values.
pub proof fn lemma_rsa_key_type_raw_injective(a: RsaKeyType, b: RsaKeyType)
    ensures
        a.spec_raw() == b.spec_raw() ==> a == b,
{
}

/// RSASSA-PKCS1-v1_5 with the given digest.
#[derive(Debug, Clone, Copy, PartialEq, Eq)]
pub enum RsaSignatureScheme {
    Pkcs1v15Sha256,
    Pkcs1v15Sha384,
    Pkcs1v15Sha512,
}

impl RsaSignatureScheme {
    /// The host library's value for this signature scheme.
    pub open spec fn spec_raw(self) -> u32 {
        match self {
            RsaSignatureScheme::Pkcs1v15Sha256 => 0x01,
            RsaSignatureScheme::Pkcs1v15Sha384 => 0x02,
            RsaSignatureScheme::Pkcs1v15Sha512 => 0x03,
        }
    }

    /// The host library's value for this signature scheme.
    pub fn raw(self) -> (r: u32)
        ensures
            r == self.spec_raw(),
    {
        match self {
            RsaSignatureScheme::Pkcs1v15Sha256 => 0x01,
            RsaSignatureScheme::Pkcs1v15Sha384 => 0x02,
            RsaSignatureScheme::Pkcs1v15Sha512 => 0x03,
        }
    }
}

/// Distinct RsaSignatureScheme values have distinct host library values.
pub proof fn lemma_rsa_signature_scheme_raw_injective(a: RsaSignatureScheme, b: RsaSignatureScheme)
    ensures
        a.spec_raw() == b.spec_raw() ==> a == b,
{
}

/// HMAC digests.
#[derive(Debug, Clone, Copy, PartialEq, Eq)]
pub enum HmacType {
    Sha256,
    Sha384,
    Sha512,
}

impl HmacType {
    /// The host library's value for this HMAC digest.
    pub open spec fn spec_raw(self) -> u32 {
        match self {
            HmacType::Sha256 => 0x20,
            HmacType::Sha384 => 0x21,
            HmacType::Sha512 => 0x22,
        }
    }

    /// The host library's value for this HMAC digest.
    pub fn raw(self) -> (r: u32)
        ensures
            r == self.spec_raw(),
    {
        match self {
            HmacType::Sha256 => 0x20,
            HmacType::Sha384 => 0x21,
            HmacType::Sha512 => 0x22,
        }
    }
}

/// Distinct HmacType values have distinct host library values.
pub proof fn lemma_hmac_type_raw_injective(a: HmacType, b: HmacType)
    ensures
        a.spec_raw() == b.spec_raw() ==> a == b,
{
}

/// HKDF digests.
#[derive(Debug, Clone, Copy, PartialEq, Eq)]
pub enum HkdfType {
    Sha256,
    Sha384,
    Sha512,
}

impl HkdfType {
    /// The host library's value for this HKDF digest.
    pub open spec fn spec_raw(self) -> u32 {
        match self {
            HkdfType::Sha256 => 0x08,
            HkdfType::Sha384 => 0x09,
            HkdfType::Sha512 => 0x0A,
        }
    }

    /// The host library's value for this HKDF digest.
    pub fn raw(self) -> (r: u32)
        ensures
            r == self.spec_raw(),
    {
        match self {
            HkdfType::Sha256 => 0x08,
            HkdfType::Sha384 => 0x09,
            HkdfType::Sha512 => 0x0A,
        }
    }
}

/// Distinct HkdfType values have distinct host library values.
pub proof fn lemma_hkdf_type_raw_injective(a: HkdfType, b: HkdfType)
    ensures
        a.spec_raw() == b.spec_raw() ==> a == b,
{
}

/// TLS 1.2 PRF digests.
#[derive(Debug, Clone, Copy, PartialEq, Eq)]
pub enum TlsPrfType {
    Sha256,
    Sha384,
    Sha512,
}

impl TlsPrfType {
    /// The host library's value for this PRF digest.
    pub open spec fn spec_raw(self) -> u32 {
        match self {
            TlsPrfType::Sha256 => 0x01,
            TlsPrfType::Sha384 => 0x02,
            TlsPrfType::Sha512 => 0x03,
        }
    }

    /// The host library's value for this PRF digest.
    pub fn raw(self) -> (r: u32)
        ensures
            r == self.spec_raw(),
    {
        match self {
            TlsPrfType::Sha256 => 0x01,
            TlsPrfType::Sha384 => 0x02,
            TlsPrfType::Sha512 => 0x03,
        }
    }
}

/// Distinct TlsPrfType values have distinct host library values.
pub proof fn lemma_tls_prf_type_raw_injective(a: TlsPrfType, b: TlsPrfType)
    ensures
        a.spec_raw() == b.spec_raw() ==> a == b,
{
}

/// AES key sizes.
#[derive(Debug, Clone, Copy, PartialEq, Eq)]
pub enum SymmetricKeyType {
    Aes128,
    Aes192,
    Aes256,
}

impl SymmetricKeyType {
    /// The host library's value for this AES key size.
    pub open spec fn spec_raw(self) -> u32 {
        match self {
            SymmetricKeyType::Aes128 => 0x81,
            SymmetricKeyType::Aes192 => 0x82,
            SymmetricKeyType::Aes256 => 0x83,
        }
    }

    /// The host library's value for this AES key size.
    pub fn raw(self) -> (r: u32)
        ensures
            r == self.spec_raw(),
    {
        match self {
            SymmetricKeyType::Aes128 => 0x81,
            SymmetricKeyType::Aes192 => 0x82,
            SymmetricKeyType::Aes256 => 0x83,
        }
    }
}

/// Distinct SymmetricKeyType values have distinct host library values.
pub proof fn lemma_symmetric_key_type_raw_injective(a: SymmetricKeyType, b: SymmetricKeyType)
    ensures
        a.spec_raw() == b.spec_raw() ==> a == b,
{
}

/// Random number generators of the chip.
#[derive(Debug, Clone, Copy, PartialEq, Eq)]
pub enum RngType {
    /// True random number generator.
    Trng,
    /// Deterministic RNG seeded from the TRNG.
    Drng,
}

impl RngType {
    /// The host library's value for this generator.
    pub open spec fn spec_raw(self) -> u32 {
        match self {
            RngType::Trng => 0x00,
            RngType::Drng => 0x01,
        }
    }

    /// The host library's value for this generator.
    pub fn raw(self) -> (r: u32)
        ensures
            r == self.spec_raw(),
    {
        match self {
            RngType::Trng => 0x00,
            RngType::Drng => 0x01,
        }
    }
}

/// Distinct RngType values have distinct host library values.
pub proof fn lemma_rng_type_raw_injective(a: RngType, b: RngType)
    ensures
        a.spec_raw() == b.spec_raw() ==> a == b,
{
}

/// How a data object is written.
#[derive(Debug, Clone, Copy, PartialEq, Eq)]
pub enum WriteType {
    /// Overwrite in place, keeping the rest of the object.
    WriteOnly,
    /// Erase the object, then write. The usual choice.
    EraseAndWrite,
}

impl WriteType {
    /// The host library's value for this write mode.
    pub open spec fn spec_raw(self) -> u8 {
        match self {
            WriteType::WriteOnly => 0x00,
            WriteType::EraseAndWrite => 0x40,
        }
    }

    /// The host library's value for this write mode.
    pub fn raw(self) -> (r: u8)
        ensures
            r == self.spec_raw(),
    {
        match self {
            WriteType::WriteOnly => 0x00,
            WriteType::EraseAndWrite => 0x40,
        }
    }
}

/// Distinct WriteType values have distinct host library values.
pub proof fn lemma_write_type_raw_injective(a: WriteType, b: WriteType)
    ensures
        a.spec_raw() == b.spec_raw() ==> a == b,
{
}

/// What a generated key may be used for. Combine with `|`.
#[derive(Debug, Clone, Copy, PartialEq, Eq)]
pub struct KeyUsage(pub u8);

impl KeyUsage {
    /// The key authenticates the chip.
    pub fn authentication() -> (r: KeyUsage)
        ensures
            r.0 == 0x01,
    {
        KeyUsage(0x01)
    }

    /// The key encrypts.
    pub fn encryption() -> (r: KeyUsage)
        ensures
            r.0 == 0x02,
    {
        KeyUsage(0x02)
    }

    /// The key signs.
    pub fn sign() -> (r: KeyUsage)
        ensures
            r.0 == 0x10,
    {
        KeyUsage(0x10)
    }

    /// The key takes part in key agreement.
    pub fn key_agreement() -> (r: KeyUsage)
        ensures
            r.0 == 0x20,
    {
        KeyUsage(0x20)
    }
}

impl std::ops::BitOr for KeyUsage {
    type Output = KeyUsage;

    fn bitor(self, rhs: KeyUsage) -> (r: KeyUsage) {
        KeyUsage(self.0 | rhs.0)
    }
}

impl vstd::std_specs::ops::BitOrSpecImpl for KeyUsage {
    open spec fn obeys_bitor_spec() -> bool {
        true
    }

    open spec fn bitor_req(self, rhs: KeyUsage) -> bool {
        true
    }

    open spec fn bitor_spec(self, rhs: KeyUsage) -> KeyUsage {
        KeyUsage(self.0 | rhs.0)
    }
}

/// Combining key usages with `|` does not depend on the order, and combining
/// a usage with itself changes nothing.
pub proof fn lemma_key_usage_or(a: KeyUsage, b: KeyUsage)
    ensures
        a.bitor_spec(b) == b.bitor_spec(a),
        a.bitor_spec(a) == a,
{
    let (x, y) = (a.0, b.0);
    assert(x | y == y | x) by (bit_vector);
    assert(x | x == x) by (bit_vector);
}

impl EccCurve {
    /// Size in bytes of one field element / one signature component.
    pub open spec fn spec_component_len(self) -> usize {
        match self {
            EccCurve::NistP256 | EccCurve::BrainpoolP256r1 => 32,
            EccCurve::NistP384 | EccCurve::BrainpoolP384r1 => 48,
            EccCurve::NistP521 => 66,
            EccCurve::BrainpoolP512r1 => 64,
        }
    }

    /// Size in bytes of one field element / one signature component.
    pub fn component_len(self) -> (r: usize)
        ensures
            r == self.spec_component_len(),
    {
        match self {
            EccCurve::NistP256 | EccCurve::BrainpoolP256r1 => 32,
            EccCurve::NistP384 | EccCurve::BrainpoolP384r1 => 48,
            EccCurve::NistP521 => 66,
            EccCurve::BrainpoolP512r1 => 64,
        }
    }
}

impl RsaKeyType {
    /// Size in bytes of the modulus, and so of a signature or ciphertext.
    pub open spec fn spec_modulus_len(self) -> usize {
        match self {
            RsaKeyType::Rsa1024 => 128,
            RsaKeyType::Rsa2048 => 256,
        }
    }

    /// Size in bytes of the modulus, and so of a signature or ciphertext.
    pub fn modulus_len(self) -> (r: usize)
        ensures
            r == self.spec_modulus_len(),
    {
        match self {
            RsaKeyType::Rsa1024 => 128,
            RsaKeyType::Rsa2048 => 256,
        }
    }
}

impl HmacType {
    /// Size in bytes of the MAC.
    pub open spec fn spec_mac_len(self) -> usize {
        match self {
            HmacType::Sha256 => 32,
            HmacType::Sha384 => 48,
            HmacType::Sha512 => 64,
        }
    }

    /// Size in bytes of the MAC.
    pub fn mac_len(self) -> (r: usize)
        ensures
            r == self.spec_mac_len(),
    {
        match self {
            HmacType::Sha256 => 32,
            HmacType::Sha384 => 48,
            HmacType::Sha512 => 64,
        }
    }
}

/// The value of a hexadecimal digit character (`0`–`9`, `A`–`F`).
pub open spec fn hex_digit_value(c: char) -> int {
    if '0' <= c && c <= '9' {
        c as int - 48
    } else if 'A' <= c && c <= 'F' {
        c as int - 55
    } else {
        0
    }
}

/// The number four hexadecimal digit characters spell.
pub open spec fn hex4_value(s: Seq<char>) -> int {
    4096 * hex_digit_value(s[0]) + 256 * hex_digit_value(s[1]) + 16 * hex_digit_value(s[2])
        + hex_digit_value(s[3])
}

/// The name of a numbered key slot as written (`E0F2` for `KeyId::E0F2`);
/// the two slots without a number have none.
pub open spec fn slot_name(k: KeyId) -> Option<Seq<char>> {
    match k {
        KeyId::E0F0 => Some(seq!['E', '0', 'F', '0']),
        KeyId::E0F1 => Some(seq!['E', '0', 'F', '1']),
        KeyId::E0F2 => Some(seq!['E', '0', 'F', '2']),
        KeyId::E0F3 => Some(seq!['E', '0', 'F', '3']),
        KeyId::E0FC => Some(seq!['E', '0', 'F', 'C']),
        KeyId::E0FD => Some(seq!['E', '0', 'F', 'D']),
        KeyId::SecretBased => None,
        KeyId::SessionBased => None,
    }
}

/// Every numbered key slot is passed to the host library as the object id
/// its name spells in hexadecimal (slot `E0F2` is object 0xE0F2), and the
/// symmetric key slot is object 0xE200.
pub proof fn lemma_key_slot_object_id(k: KeyId)
    ensures
        slot_name(k) matches Some(name) ==> k.spec_raw() == hex4_value(name),
        k == KeyId::SecretBased ==> k.spec_raw() == 0xE200,
{
}

/// Size in bits of the field each curve is defined over, as its name says
/// (P-521 and brainpoolP512r1 differ).
pub open spec fn field_bits(c: EccCurve) -> int {
    match c {
        EccCurve::NistP256 => 256,
        EccCurve::NistP384 => 384,
        EccCurve::NistP521 => 521,
        EccCurve::BrainpoolP256r1 => 256,
        EccCurve::BrainpoolP384r1 => 384,
        EccCurve::BrainpoolP512r1 => 512,
    }
}

/// The curve is one of the Brainpool curves.
pub open spec fn is_brainpool(c: EccCurve) -> bool {
    match c {
        EccCurve::BrainpoolP256r1 | EccCurve::BrainpoolP384r1 | EccCurve::BrainpoolP512r1 => true,
        _ => false,
    }
}

/// A signature component or field element of a curve takes the curve's
/// field size in bits, rounded up to whole bytes.
pub proof fn lemma_component_len_is_field_size(c: EccCurve)
    ensures
        c.spec_component_len() == (field_bits(c) + 7) / 8,
        c.spec_component_len() * 8 >= field_bits(c) > c.spec_component_len() * 8 - 8,
{
}

/// The host library's curve codes: the Brainpool curves, and only they, carry
/// the 0x10 bit, and within each family a larger field has a larger code.
pub proof fn lemma_ecc_curve_codes(a: EccCurve, b: EccCurve)
    ensures
        a.spec_raw() & 0x10 != 0 <==> is_brainpool(a),
        is_brainpool(a) == is_brainpool(b) ==> (field_bits(a) < field_bits(b) <==> a.spec_raw()
            < b.spec_raw()),
{
    assert(0x03u32 & 0x10 == 0) by (bit_vector);
    assert(0x04u32 & 0x10 == 0) by (bit_vector);
    assert(0x05u32 & 0x10 == 0) by (bit_vector);
    assert(0x13u32 & 0x10 != 0) by (bit_vector);
    assert(0x15u32 & 0x10 != 0) by (bit_vector);
    assert(0x16u32 & 0x10 != 0) by (bit_vector);
}

/// Size in bits of the RSA modulus, as the key size's name says.
pub open spec fn rsa_modulus_bits(k: RsaKeyType) -> int {
    match k {
        RsaKeyType::Rsa1024 => 1024,
        RsaKeyType::Rsa2048 => 2048,
    }
}

/// The modulus length in bytes is the key size in bits divided by eight, and
/// the larger key has the larger host library code.
pub proof fn lemma_rsa_key_sizes(a: RsaKeyType, b: RsaKeyType)
    ensures
        a.spec_modulus_len() * 8 == rsa_modulus_bits(a),
        rsa_modulus_bits(a) < rsa_modulus_bits(b) <==> a.spec_raw() < b.spec_raw(),
{
}

/// Size in bits of the digest an HMAC uses, as its name says.
pub open spec fn hmac_digest_bits(h: HmacType) -> int {
    match h {
        HmacType::Sha256 => 256,
        HmacType::Sha384 => 384,
        HmacType::Sha512 => 512,
    }
}

/// A MAC is as long as its digest, and a longer digest has a larger host
/// library code.
pub proof fn lemma_hmac_sizes(a: HmacType, b: HmacType)
    ensures
        a.spec_mac_len() * 8 == hmac_digest_bits(a),
        hmac_digest_bits(a) < hmac_digest_bits(b) <==> a.spec_raw() < b.spec_raw(),
{
}

/// Size in bits of the digest an HKDF uses, as its name says.
pub open spec fn hkdf_digest_bits(h: HkdfType) -> int {
    match h {
        HkdfType::Sha256 => 256,
        HkdfType::Sha384 => 384,
        HkdfType::Sha512 => 512,
    }
}

/// A longer HKDF digest has a larger host library code.
pub proof fn lemma_hkdf_codes(a: HkdfType, b: HkdfType)
    ensures
        hkdf_digest_bits(a) < hkdf_digest_bits(b) <==> a.spec_raw() < b.spec_raw(),
{
}

/// Size in bits of the digest a TLS 1.2 PRF uses, as its name says.
pub open spec fn tls_prf_digest_bits(t: TlsPrfType) -> int {
    match t {
        TlsPrfType::Sha256 => 256,
        TlsPrfType::Sha384 => 384,
        TlsPrfType::Sha512 => 512,
    }
}

/// A longer PRF digest has a larger host library code.
pub proof fn lemma_tls_prf_codes(a: TlsPrfType, b: TlsPrfType)
    ensures
        tls_prf_digest_bits(a) < tls_prf_digest_bits(b) <==> a.spec_raw() < b.spec_raw(),
{
}

/// Size in bits of the digest an RSA signature scheme uses, as its name says.
pub open spec fn rsa_scheme_digest_bits(s: RsaSignatureScheme) -> int {
    match s {
        RsaSignatureScheme::Pkcs1v15Sha256 => 256,
        RsaSignatureScheme::Pkcs1v15Sha384 => 384,
        RsaSignatureScheme::Pkcs1v15Sha512 => 512,
    }
}

/// A longer signature digest has a larger host library code.
pub proof fn lemma_rsa_scheme_codes(a: RsaSignatureScheme, b: RsaSignatureScheme)
    ensures
        rsa_scheme_digest_bits(a) < rsa_scheme_digest_bits(b) <==> a.spec_raw() < b.spec_raw(),
{
}

/// Size in bits of an AES key, as its name says.
pub open spec fn aes_key_bits(k: SymmetricKeyType) -> int {
    match k {
        SymmetricKeyType::Aes128 => 128,
        SymmetricKeyType::Aes192 => 192,
        SymmetricKeyType::Aes256 => 256,
    }
}

/// A longer AES key has a larger host library code.
pub proof fn lemma_aes_key_codes(a: SymmetricKeyType, b: SymmetricKeyType)
    ensures
        aes_key_bits(a) < aes_key_bits(b) <==> a.spec_raw() < b.spec_raw(),
{
}

} // verus!
