//! Helpers of the read-only health check: argument handling, hex dumps,
//! certificate framing and locating the factory public key.

use vstd::prelude::*;
use crate::error::Error;
use crate::der::spec_bit_string_wrap;
use crate::text::{hex_digit, hex_digit_char, string_from_chars};

verus! {

/// `Ok` when `cond` holds, otherwise `BadData(msg)`.
pub fn expect(cond: bool, msg: &'static str) -> (r: Result<(), Error>)
    ensures
        cond ==> r == Ok::<(), Error>(()),
        !cond ==> r == Err::<(), Error>(Error::BadData(msg)),
{
    if cond {
        Ok(())
    } else {
        Err(Error::BadData(msg))
    }
}

/// `c` is one of the ASCII digits `0` to `9`.
pub open spec fn is_ascii_digit(c: char) -> bool {
    '0' <= c && c <= '9'
}

/// The device a bus argument names: a bus number (one or more digits, `3`)
/// means `/dev/i2c-3`; anything else, the empty argument included, is taken
/// as a device path.
pub open spec fn spec_bus_path(arg: Seq<char>) -> Seq<char> {
    if arg.len() > 0 && forall|i: int| 0 <= i < arg.len() ==> is_ascii_digit(#[trigger] arg[i]) {
        "/dev/i2c-"@ + arg
    } else {
        arg
    }
}

/// `3` becomes `/dev/i2c-3`; anything else is taken as a device path.
pub fn bus_path(arg: &str) -> (r: String)
    ensures
        r@ == spec_bus_path(arg@),
{
    let n = arg.unicode_len();
    let mut all_digits = true;
    let mut i: usize = 0;
    while i < n
        invariant
            i <= n,
            n == arg@.len(),
            all_digits == (forall|j: int| 0 <= j < i ==> is_ascii_digit(#[trigger] arg@[j])),
        decreases n - i,
    {
        let c = arg.get_char(i);
        if !('0' <= c && c <= '9') {
            all_digits = false;
        }
        i = i + 1;
    }
    if n > 0 && all_digits {
        let mut s = String::from_str("/dev/i2c-");
        s.append(arg);
        s
    } else {
        String::from_str(arg)
    }
}

/// Lower-case hexadecimal text of `b`, two digits per byte.
pub open spec fn spec_hex(b: Seq<u8>) -> Seq<char> {
    Seq::new(
        2 * b.len(),
        |i: int|
            if i % 2 == 0 {
                hex_digit((b[i / 2] / 16) as int, false)
            } else {
                hex_digit((b[i / 2] % 16) as int, false)
            },
    )
}

/// Lower-case hexadecimal text of `b`, two digits per byte.
pub fn hex(b: &[u8]) -> (r: String)
    ensures
        r@ == spec_hex(b@),
{
    let mut chars: Vec<char> = Vec::new();
    let mut i: usize = 0;
    while i < b.len()
        invariant
            i <= b.len(),
            chars@.len() == 2 * i,
            forall|j: int| 0 <= j < 2 * i ==> #[trigger] chars@[j] == spec_hex(b@)[j],
        decreases b.len() - i,
    {
        let x = b[i];
        chars.push(hex_digit_char(x / 16, false));
        chars.push(hex_digit_char(x % 16, false));
        assert(spec_hex(b@)[2 * i] == hex_digit((x / 16) as int, false));
        assert(spec_hex(b@)[2 * i + 1] == hex_digit((x % 16) as int, false));
        i = i + 1;
    }
    assert(chars@ =~= spec_hex(b@));
    string_from_chars(chars)
}

/// The DER certificate in the contents of data object 0xE0E0: bare (starting
/// with a `SEQUENCE` tag) or behind the chip's nine-byte identity header
/// (tag 0xC0).
pub open spec fn spec_strip_cert_header(raw: Seq<u8>) -> Result<Seq<u8>, Error> {
    if raw.len() > 0 && raw[0] == 0x30 {
        Ok(raw)
    } else if raw.len() > 9 && raw[0] == 0xC0 {
        Ok(raw.skip(9))
    } else {
        Err(Error::BadData("unknown certificate framing"))
    }
}

/// 0xE0E0 may hold the certificate bare, or wrapped in the chip's "TLS
/// identity" header: tag 0xC0, 2-byte length, then a 3-byte-length chain
/// where each certificate is prefixed by its own 3-byte length (9 bytes
/// total before the first DER byte).
pub fn strip_cert_header(raw: &[u8]) -> (r: Result<&[u8], Error>)
    ensures
        match r {
            Ok(c) => spec_strip_cert_header(raw@) == Ok::<Seq<u8>, Error>(c@),
            Err(e) => spec_strip_cert_header(raw@) == Err::<Seq<u8>, Error>(e),
        },
{
    if raw.len() > 0 && raw[0] == 0x30 {
        Ok(raw)
    } else if raw.len() > 9 && raw[0] == 0xC0 {
        let body = &raw[9..raw.len()];
        assert(body@ =~= raw@.skip(9));
        Ok(body)
    } else {
        Err(Error::BadData("unknown certificate framing"))
    }
}

/// Taking the certificate out of its framing only drops a prefix: a bare
/// certificate (first byte 0x30) is the whole input, and behind the 0xC0
/// identity header it is the input without its first nine bytes.
pub proof fn lemma_cert_framing_drops_prefix(raw: Seq<u8>)
    ensures
        spec_strip_cert_header(raw) matches Ok(c) ==> c == raw.subrange(
            raw.len() - c.len(),
            raw.len() as int,
        ) && (raw[0] == 0x30 ==> c.len() == raw.len()) && (raw[0] == 0xC0 ==> c.len() + 9
            == raw.len()) && c.len() >= 1,
        raw.len() > 0 && raw[0] == 0x30 ==> spec_strip_cert_header(raw) is Ok,
        raw.len() > 9 && raw[0] == 0xC0 ==> spec_strip_cert_header(raw) is Ok,
        !(raw.len() > 0 && raw[0] == 0x30) && !(raw.len() > 9 && raw[0] == 0xC0)
            ==> spec_strip_cert_header(raw) is Err,
{
    if raw.len() > 0 && raw[0] == 0x30 {
        assert(raw.subrange(0, raw.len() as int) =~= raw);
    } else if raw.len() > 9 && raw[0] == 0xC0 {
        assert(raw.subrange(9, raw.len() as int) =~= raw.skip(9));
    }
}

/// DER encoding of the prime256v1 object identifier.
pub open spec fn p256_oid() -> Seq<u8> {
    seq![0x06u8, 0x08u8, 0x2Au8, 0x86u8, 0x48u8, 0xCEu8, 0x3Du8, 0x03u8, 0x01u8, 0x07u8]
}

/// The prime256v1 identifier occurs in `der` at `i`.
pub open spec fn oid_at(der: Seq<u8>, i: int) -> bool {
    0 <= i && i + 10 <= der.len() && der.subrange(i, i + 10) == p256_oid()
}

/// The first position at or after `k` where the prime256v1 identifier occurs.
pub open spec fn first_oid_from(der: Seq<u8>, k: int) -> Option<int>
    decreases der.len() - k,
{
    if k < 0 || k + 10 > der.len() {
        None
    } else if oid_at(der, k) {
        Some(k)
    } else {
        first_oid_from(der, k + 1)
    }
}

/// The uncompressed P-256 point of the first prime256v1 identifier in `der`,
/// where the `BIT STRING` header `03 42 00 04` and 65 point bytes follow it.
pub open spec fn spec_find_p256_spki(der: Seq<u8>) -> Option<Seq<u8>> {
    match first_oid_from(der, 0) {
        None => None,
        Some(i) => {
            let rest = der.skip(i + 10);
            if rest.len() < 4 + 65 || rest.take(4) != seq![0x03u8, 0x42u8, 0x00u8, 0x04u8] {
                None
            } else {
                Some(rest.subrange(3, 68))
            }
        },
    }
}

proof fn lemma_first_oid_reaches(der: Seq<u8>, k: int, i: int)
    requires
        0 <= k <= i,
        oid_at(der, i),
        forall|j: int| k <= j < i ==> !oid_at(der, j),
    ensures
        first_oid_from(der, k) == Some(i),
    decreases i - k,
{
    if k < i {
        lemma_first_oid_reaches(der, k + 1, i);
    }
}

proof fn lemma_first_oid_none(der: Seq<u8>, k: int)
    requires
        0 <= k,
        forall|j: int| k <= j ==> !oid_at(der, j),
    ensures
        first_oid_from(der, k) is None,
    decreases der.len() - k,
{
    if k + 10 <= der.len() {
        lemma_first_oid_none(der, k + 1);
    }
}

/// The search takes the first offset, at any position, where the prime256v1
/// identifier (the ten bytes at `j` are `der.skip(j).take(10)`) `06 08 2A 86 48 CE 3D 03 01 07` occurs: when the bytes after it
/// start `03 42 00 04` and at least 69 bytes follow it, the result is the 65
/// bytes from that `04` on; otherwise there is no result.
pub proof fn lemma_find_p256_spki_first_match(der: Seq<u8>, i: int)
    requires
        0 <= i,
        i + 10 <= der.len(),
        der.subrange(i, i + 10) == seq![0x06u8, 0x08u8, 0x2Au8, 0x86u8, 0x48u8, 0xCEu8, 0x3Du8, 0x03u8, 0x01u8, 0x07u8],
        forall|j: int|
            0 <= j < i ==> #[trigger] der.skip(j).take(10) != seq![0x06u8, 0x08u8, 0x2Au8, 0x86u8, 0x48u8, 0xCEu8, 0x3Du8, 0x03u8, 0x01u8, 0x07u8],
    ensures
        spec_find_p256_spki(der) == (if der.len() >= i + 10 + 69 && der.subrange(i + 10, i + 14)
            == seq![0x03u8, 0x42u8, 0x00u8, 0x04u8] {
            Some(der.subrange(i + 13, i + 78))
        } else {
            None::<Seq<u8>>
        }),
{
    assert forall|j: int| 0 <= j < i implies !oid_at(der, j) by {
        assert(der.skip(j).take(10) =~= der.subrange(j, j + 10));
    }
    lemma_first_oid_reaches(der, 0, i);
    let rest = der.skip(i + 10);
    if rest.len() >= 4 + 65 {
        assert(rest.take(4) =~= der.subrange(i + 10, i + 14));
        assert(rest.subrange(3, 68) =~= der.subrange(i + 13, i + 78));
    }
}

/// Where the prime256v1 identifier occurs nowhere in the input, the search
/// has no result.
pub proof fn lemma_find_p256_spki_absent(der: Seq<u8>)
    requires
        forall|j: int|
            0 <= j && j + 10 <= der.len() ==> #[trigger] der.skip(j).take(10) != seq![0x06u8, 0x08u8, 0x2Au8, 0x86u8, 0x48u8, 0xCEu8, 0x3Du8, 0x03u8, 0x01u8, 0x07u8],
    ensures
        spec_find_p256_spki(der) is None,
{
    assert forall|j: int| 0 <= j implies !oid_at(der, j) by {
        if j + 10 <= der.len() {
            assert(der.skip(j).take(10) =~= der.subrange(j, j + 10));
        }
    }
    lemma_first_oid_none(der, 0);
}

fn oid_matches(der: &[u8], i: usize) -> (r: bool)
    requires
        i + 10 <= der@.len(),
    ensures
        r == oid_at(der@, i as int),
{
    let r = der[i] == 0x06 && der[i + 1] == 0x08 && der[i + 2] == 0x2A && der[i + 3] == 0x86
        && der[i + 4] == 0x48 && der[i + 5] == 0xCE && der[i + 6] == 0x3D && der[i + 7] == 0x03
        && der[i + 8] == 0x01 && der[i + 9] == 0x07;
    if r {
        assert(der@.subrange(i as int, i + 10) =~= p256_oid());
    } else {
        assert(der@.subrange(i as int, i + 10) != p256_oid()) by {
            if der@.subrange(i as int, i + 10) == p256_oid() {
                assert(der@.subrange(i as int, i + 10)[0] == p256_oid()[0]);
                assert(der@.subrange(i as int, i + 10)[1] == p256_oid()[1]);
                assert(der@.subrange(i as int, i + 10)[2] == p256_oid()[2]);
                assert(der@.subrange(i as int, i + 10)[3] == p256_oid()[3]);
                assert(der@.subrange(i as int, i + 10)[4] == p256_oid()[4]);
                assert(der@.subrange(i as int, i + 10)[5] == p256_oid()[5]);
                assert(der@.subrange(i as int, i + 10)[6] == p256_oid()[6]);
                assert(der@.subrange(i as int, i + 10)[7] == p256_oid()[7]);
                assert(der@.subrange(i as int, i + 10)[8] == p256_oid()[8]);
                assert(der@.subrange(i as int, i + 10)[9] == p256_oid()[9]);
            }
        }
    }
    r
}

/// Locate a P-256 SubjectPublicKeyInfo inside a DER certificate and return
/// the uncompressed point. Looks for the prime256v1 OID followed by the
/// BIT STRING wrapper, which is how every X.509 encoder lays it out.
pub fn find_p256_spki(der: &[u8]) -> (r: Option<&[u8]>)
    ensures
        r is Some <==> spec_find_p256_spki(der@) is Some,
        r matches Some(p) ==> spec_find_p256_spki(der@) == Some(p@),
        r matches Some(p) ==> p@.len() == 65 && p@[0] == 0x04,
{
    let n = der.len();
    let mut i: usize = 0;
    while n >= 10 && i <= n - 10
        invariant
            n == der@.len(),
            i <= n,
            first_oid_from(der@, 0) == first_oid_from(der@, i as int),
        decreases n - i,
    {
        if oid_matches(der, i) {
            let rest = &der[i + 10..n];
            assert(rest@ =~= der@.skip(i + 10));
            if rest.len() < 4 + 65 || !(rest[0] == 0x03 && rest[1] == 0x42 && rest[2] == 0x00
                && rest[3] == 0x04) {
                proof {
                    if rest@.len() >= 4 + 65 && rest@.take(4) == seq![0x03u8, 0x42u8, 0x00u8, 0x04u8] {
                        assert(rest@.take(4)[0] == 0x03);
                        assert(rest@.take(4)[1] == 0x42);
                        assert(rest@.take(4)[2] == 0x00);
                        assert(rest@.take(4)[3] == 0x04);
                    }
                }
                return None;
            }
            assert(rest@.take(4) =~= seq![0x03u8, 0x42u8, 0x00u8, 0x04u8]);
            let point = &rest[3..3 + 65];
            return Some(point);
        }
        i = i + 1;
    }
    None
}

/// The name of the chip's life-cycle state from the first byte of data
/// object 0xE0C0.
pub open spec fn spec_lifecycle_name(first: Option<u8>) -> &'static str {
    match first {
        Some(0x01) => "creation",
        Some(0x03) => "initialization",
        Some(0x07) => "operational",
        Some(0x0F) => "termination",
        _ => "?",
    }
}

/// The name of the chip's life-cycle state from the contents of data object
/// 0xE0C0.
pub fn lifecycle_name(state: &[u8]) -> (r: &'static str)
    ensures
        r == spec_lifecycle_name(if state@.len() > 0 { Some(state@[0]) } else { None }),
{
    if state.len() == 0 {
        return "?";
    }
    match state[0] {
        0x01 => "creation",
        0x03 => "initialization",
        0x07 => "operational",
        0x0F => "termination",
        _ => "?",
    }
}

/// The `BIT STRING` form of an uncompressed P-256 point, which the chip wants
/// for host-supplied keys.
pub fn p256_public_key_der(point: &[u8]) -> (r: Vec<u8>)
    requires
        point@.len() == 65,
    ensures
        r@ == spec_bit_string_wrap(point@),
{
    let mut der_key: Vec<u8> = Vec::new();
    der_key.push(0x03);
    der_key.push(0x42);
    der_key.push(0x00);
    let mut i: usize = 0;
    while i < point.len()
        invariant
            i <= point@.len(),
            point@.len() == 65,
            der_key@ == seq![0x03u8, 0x42u8, 0x00u8] + point@.take(i as int),
        decreases point.len() - i,
    {
        der_key.push(point[i]);
        assert(point@.take(i + 1) =~= point@.take(i as int).push(point@[i as int]));
        i = i + 1;
    }
    assert(point@.take(65) =~= point@);
    assert(der_key@ =~= spec_bit_string_wrap(point@));
    der_key
}

/// The coprocessor UID in data object 0xE0C2 is 27 bytes.
pub fn check_uid(uid: &[u8]) -> (r: Result<(), Error>)
    ensures
        uid@.len() == 27 ==> r == Ok::<(), Error>(()),
        uid@.len() != 27 ==> r == Err::<(), Error>(Error::BadData("UID should be 27 bytes")),
{
    expect(uid.len() == 27, "UID should be 27 bytes")
}

/// The maximum communication buffer size in data object 0xE0C6: two bytes,
/// big-endian.
pub fn comm_buffer_size(v: &[u8]) -> (r: Result<u16, Error>)
    ensures
        v@.len() == 2 ==> r == Ok::<u16, Error>((v@[0] * 256 + v@[1]) as u16),
        v@.len() != 2 ==> r == Err::<u16, Error>(Error::BadData("expected 2 bytes")),
{
    if v.len() != 2 {
        return Err(Error::BadData("expected 2 bytes"));
    }
    Ok((v[0] as u16) * 256 + v[1] as u16)
}

/// The factory certificate starts as a DER `SEQUENCE` with a two-octet length
/// (`30 82`).
pub fn check_certificate_sequence(der: &[u8]) -> (r: Result<(), Error>)
    ensures
        (der@.len() >= 2 && der@[0] == 0x30 && der@[1] == 0x82) ==> r == Ok::<(), Error>(()),
        !(der@.len() >= 2 && der@[0] == 0x30 && der@[1] == 0x82) ==> r == Err::<(), Error>(
            Error::BadData("certificate should be a DER SEQUENCE"),
        ),
{
    expect(der.len() >= 2 && der[0] == 0x30 && der[1] == 0x82, "certificate should be a DER SEQUENCE")
}

/// `a` and `b` hold the same bytes.
pub fn bytes_equal(a: &[u8], b: &[u8]) -> (r: bool)
    ensures
        r == (a@ == b@),
{
    if a.len() != b.len() {
        return false;
    }
    let mut i: usize = 0;
    while i < a.len()
        invariant
            i <= a@.len(),
            a@.len() == b@.len(),
            forall|j: int| 0 <= j < i ==> a@[j] == b@[j],
        decreases a.len() - i,
    {
        if a[i] != b[i] {
            return false;
        }
        i = i + 1;
    }
    assert(a@ =~= b@);
    true
}

/// Two random draws must differ, and the first must not be all zero; checked
/// in that order.
pub fn check_random_draws(a: &[u8], b: &[u8]) -> (r: Result<(), Error>)
    ensures
        a@ == b@ ==> r == Err::<(), Error>(Error::BadData("two draws should differ")),
        a@ != b@ && (forall|i: int| 0 <= i < a@.len() ==> a@[i] == 0) ==> r == Err::<(), Error>(
            Error::BadData("all zero"),
        ),
        a@ != b@ && (exists|i: int| 0 <= i < a@.len() && a@[i] != 0) ==> r == Ok::<(), Error>(()),
{
    if bytes_equal(a, b) {
        return Err(Error::BadData("two draws should differ"));
    }
    let mut i: usize = 0;
    while i < a.len()
        invariant
            i <= a@.len(),
            a@ != b@,
            forall|j: int| 0 <= j < i ==> a@[j] == 0,
        decreases a.len() - i,
    {
        if a[i] != 0 {
            assert(a@[i as int] != 0);
            return Ok(());
        }
        i = i + 1;
    }
    Err(Error::BadData("all zero"))
}

/// SHA-256 of `abc`, the known answer the health check asks of the chip.
pub open spec fn sha256_abc() -> Seq<u8> {
    seq![0xbau8, 0x78u8, 0x16u8, 0xbfu8, 0x8fu8, 0x01u8, 0xcfu8, 0xeau8, 0x41u8, 0x41u8, 0x40u8, 0xdeu8, 0x5du8, 0xaeu8, 0x22u8, 0x23u8, 0xb0u8, 0x03u8, 0x61u8, 0xa3u8, 0x96u8, 0x17u8, 0x7au8, 0x9cu8, 0xb4u8, 0x10u8, 0xffu8, 0x61u8, 0xf2u8, 0x00u8, 0x15u8, 0xadu8]
}

/// The chip's SHA-256 of `abc` must be the known answer.
pub fn check_sha256_abc(digest: &[u8]) -> (r: Result<(), Error>)
    ensures
        digest@ == sha256_abc() ==> r == Ok::<(), Error>(()),
        digest@ != sha256_abc() ==> r == Err::<(), Error>(Error::BadData("digest mismatch")),
{
    let want: [u8; 32] = [0xba, 0x78, 0x16, 0xbf, 0x8f, 0x01, 0xcf, 0xea, 0x41, 0x41, 0x40, 0xde, 0x5d, 0xae, 0x22, 0x23, 0xb0, 0x03, 0x61, 0xa3, 0x96, 0x17, 0x7a, 0x9c, 0xb4, 0x10, 0xff, 0x61, 0xf2, 0x00, 0x15, 0xad];
    assert(want@ =~= sha256_abc());
    expect(bytes_equal(digest, &want), "digest mismatch")
}

/// A P-256 signature as `r || s` is 64 bytes.
pub fn check_p256_rs(rs: &[u8]) -> (r: Result<(), Error>)
    ensures
        rs@.len() == 64 ==> r == Ok::<(), Error>(()),
        rs@.len() != 64 ==> r == Err::<(), Error>(Error::BadData("r||s should be 64 bytes")),
{
    expect(rs.len() == 64, "r||s should be 64 bytes")
}

/// Tally of the health check: how many checks passed and how many failed.
pub struct Report {
    pub failed: u32,
    pub passed: u32,
}

impl Report {
    /// A tally with nothing counted yet.
    pub fn new() -> (r: Report)
        ensures
            r.failed == 0,
            r.passed == 0,
    {
        Report { failed: 0, passed: 0 }
    }

    /// Count one passed check.
    pub fn pass(&mut self)
        requires
            old(self).passed < u32::MAX,
        ensures
            final(self).passed == old(self).passed + 1,
            final(self).failed == old(self).failed,
    {
        self.passed = self.passed + 1;
    }

    /// Count one failed check.
    pub fn fail(&mut self)
        requires
            old(self).failed < u32::MAX,
        ensures
            final(self).failed == old(self).failed + 1,
            final(self).passed == old(self).passed,
    {
        self.failed = self.failed + 1;
    }

    /// The process exit status the tally calls for: 1 when any check failed,
    /// 0 otherwise.
    pub fn exit_status(&self) -> (r: i32)
        ensures
            r == (if self.failed > 0 { 1i32 } else { 0i32 }),
    {
        if self.failed > 0 {
            1
        } else {
            0
        }
    }
}

} // verus!
