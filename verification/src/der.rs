//! The chip's data formats: DER lengths, ECC public keys and ECDSA signatures.

use vstd::prelude::*;
use crate::error::Error;

verus! {

/// Total length (tag, length octets and content) of the DER element at the
/// start of `b`, for short-form lengths and long-form lengths of one or two
/// octets; `None` where the length octets are missing or of another form.
pub open spec fn spec_der_len(b: Seq<u8>) -> Option<int> {
    if b.len() < 2 {
        None
    } else if b[1] <= 0x7F {
        Some(2 + b[1])
    } else if b[1] == 0x81 {
        if b.len() < 3 { None } else { Some(3 + b[2]) }
    } else if b[1] == 0x82 {
        if b.len() < 4 { None } else { Some(4 + b[2] * 256 + b[3]) }
    } else {
        None
    }
}

/// Total length of a DER element (tag + length + content) at the start of
/// `buf`, for short and long-form lengths up to two bytes.
pub fn der_len(buf: &[u8]) -> (r: Option<usize>)
    ensures
        r is Some <==> spec_der_len(buf@) is Some,
        r matches Some(n) ==> spec_der_len(buf@) == Some(n as int),
{
    if buf.len() < 2 {
        return None;
    }
    let l = buf[1];
    if l <= 0x7F {
        Some(2 + l as usize)
    } else if l == 0x81 {
        if buf.len() < 3 {
            None
        } else {
            Some(3 + buf[2] as usize)
        }
    } else if l == 0x82 {
        if buf.len() < 4 {
            None
        } else {
            Some(4 + (buf[2] as usize) * 256 + buf[3] as usize)
        }
    } else {
        None
    }
}

/// Number of tag and length octets of a DER element whose first length
/// octet is `l` (one of the forms `spec_der_len` accepts).
pub open spec fn der_header_len(l: u8) -> int {
    if l < 0x80 { 2 } else { 2 + (l - 0x80) }
}

/// The uncompressed point inside an ECC public key as the chip exports it:
/// a bare point (`04 ..`) is itself; a DER `BIT STRING` (`03 len 00 04 ..`)
/// whose length covers exactly the input gives what follows its unused-bits
/// octet, which must start with `04`.
pub open spec fn spec_public_key_point(der: Seq<u8>) -> Result<Seq<u8>, Error> {
    if der.len() > 0 && der[0] == 0x04 {
        Ok(der)
    } else if der.len() > 0 && der[0] == 0x03 {
        match spec_der_len(der) {
            None => Err(Error::BadData("public key length")),
            Some(total) => {
                if total != der.len() {
                    Err(Error::BadData("public key length"))
                } else if der_header_len(der[1]) + 1 > der.len() {
                    Err(Error::BadData("public key too short"))
                } else {
                    let point = der.subrange(der_header_len(der[1]) + 1, der.len() as int);
                    if point.len() == 0 || point[0] != 0x04 {
                        Err(Error::BadData("public key is not an uncompressed point"))
                    } else {
                        Ok(point)
                    }
                }
            },
        }
    } else {
        Err(Error::BadData("public key encoding"))
    }
}

/// Strip the DER `BIT STRING` wrapper from an ECC public key as exported by
/// the chip, leaving the uncompressed point `04 || x || y`. A bare point is
/// returned unchanged.
pub fn ecc_public_key_point(der: &[u8]) -> (r: Result<&[u8], Error>)
    ensures
        match r {
            Ok(p) => spec_public_key_point(der@) == Ok::<Seq<u8>, Error>(p@),
            Err(e) => spec_public_key_point(der@) == Err::<Seq<u8>, Error>(e),
        },
{
    if der.len() > 0 && der[0] == 0x04 {
        return Ok(der);
    }
    if der.len() == 0 || der[0] != 0x03 {
        return Err(Error::BadData("public key encoding"));
    }
    let total = match der_len(der) {
        Some(t) => t,
        None => return Err(Error::BadData("public key length")),
    };
    if total != der.len() {
        return Err(Error::BadData("public key length"));
    }
    let hdr: usize = if der[1] < 0x80 { 2 } else { 2 + (der[1] - 0x80) as usize };
    if hdr + 1 > der.len() {
        return Err(Error::BadData("public key too short"));
    }
    // One "unused bits" byte follows the length, then the point.
    let point = &der[hdr + 1..der.len()];
    if point.len() == 0 || point[0] != 0x04 {
        return Err(Error::BadData("public key is not an uncompressed point"));
    }
    Ok(point)
}


/// `v` without its leading zero octets, keeping at least one octet.
pub open spec fn strip_leading_zeros(v: Seq<u8>) -> Seq<u8>
    decreases v.len(),
{
    if v.len() > 1 && v[0] == 0 {
        strip_leading_zeros(v.drop_first())
    } else {
        v
    }
}

/// `v` preceded by zero octets up to `width` octets in all.
pub open spec fn left_pad(v: Seq<u8>, width: int) -> Seq<u8> {
    Seq::new((width - v.len()) as nat, |i: int| 0u8) + v
}

/// Reading one DER `INTEGER` at the start of `buf` into a big-endian field of
/// `width` octets: the octets consumed and the field, or why it fails.
pub open spec fn spec_der_uint(buf: Seq<u8>, width: int) -> Result<(int, Seq<u8>), Error> {
    if buf.len() < 2 || buf[0] != 0x02 {
        Err(Error::BadData("expected DER INTEGER"))
    } else if buf[1] == 0 || buf[1] >= 0x80 || buf.len() < 2 + buf[1] {
        Err(Error::BadData("DER INTEGER length"))
    } else {
        let v = strip_leading_zeros(buf.subrange(2, 2 + buf[1]));
        if v.len() > width {
            Err(Error::BadData("integer wider than the curve"))
        } else {
            Ok((2 + buf[1], left_pad(v, width)))
        }
    }
}

/// A chip signature (two bare DER `INTEGER`s, `r` then `s`) as fixed-width
/// `r || s` with `width` octets per component.
pub open spec fn spec_signature_to_rs(sig: Seq<u8>, width: int) -> Result<Seq<u8>, Error> {
    match spec_der_uint(sig, width) {
        Err(e) => Err(e),
        Ok((used_r, r)) => match spec_der_uint(sig.skip(used_r), width) {
            Err(e) => Err(e),
            Ok((used_s, s)) => {
                if used_r + used_s != sig.len() {
                    Err(Error::BadData("trailing bytes after signature"))
                } else {
                    Ok(r + s)
                }
            },
        },
    }
}

/// Read one DER `INTEGER` at the start of `buf` into `out`, right-aligned and
/// zero-filled on the left. Returns the number of octets consumed.
pub fn der_uint_into(buf: &[u8], out: &mut Vec<u8>) -> (r: Result<usize, Error>)
    ensures
        match r {
            Ok(n) => spec_der_uint(buf@, old(out)@.len() as int) == Ok::<(int, Seq<u8>), Error>(
                (n as int, final(out)@),
            ),
            Err(e) => spec_der_uint(buf@, old(out)@.len() as int) == Err::<(int, Seq<u8>), Error>(e)
                && final(out)@ == old(out)@,
        },
{
    if buf.len() < 2 || buf[0] != 0x02 {
        return Err(Error::BadData("expected DER INTEGER"));
    }
    let len = buf[1] as usize;
    if len == 0 || len >= 0x80 || buf.len() < 2 + len {
        return Err(Error::BadData("DER INTEGER length"));
    }
    let end: usize = 2 + len;
    let ghost whole = buf@.subrange(2, end as int);
    let mut k: usize = 2;
    while end - k > 1 && buf[k] == 0
        invariant
            2 <= k < end,
            end <= buf.len(),
            strip_leading_zeros(whole) == strip_leading_zeros(buf@.subrange(k as int, end as int)),
        decreases end - k,
    {
        assert(buf@.subrange(k as int, end as int).drop_first() =~= buf@.subrange(k + 1, end as int));
        k = k + 1;
    }
    let ghost v = buf@.subrange(k as int, end as int);
    assert(strip_leading_zeros(v) == v);
    let vlen = end - k;
    let width = out.len();
    if vlen > width {
        return Err(Error::BadData("integer wider than the curve"));
    }
    let pad = width - vlen;
    let ghost target = left_pad(v, width as int);
    assert(target.len() == width);
    let mut i: usize = 0;
    while i < width
        invariant
            i <= width,
            out@.len() == width,
            pad + vlen == width,
            k + vlen == end,
            end <= buf.len(),
            v == buf@.subrange(k as int, end as int),
            target == left_pad(v, width as int),
            forall|j: int| 0 <= j < i ==> #[trigger] out@[j] == target[j],
        decreases width - i,
    {
        if i < pad {
            out.set(i, 0);
            assert(target[i as int] == 0);
        } else {
            out.set(i, buf[k + (i - pad)]);
            assert(target[i as int] == v[i - pad]);
        }
        i = i + 1;
    }
    assert(out@ =~= target);
    Ok(end)
}

/// Convert a chip ECDSA signature (two bare DER `INTEGER`s) into fixed-width
/// `r || s`, `2 * component_len` bytes, as used by JWS and most Rust crates.
pub fn ecdsa_signature_to_rs(sig: &[u8], component_len: usize) -> (r: Result<Vec<u8>, Error>)
    requires
        component_len * 2 <= usize::MAX,
    ensures
        match r {
            Ok(v) => spec_signature_to_rs(sig@, component_len as int) == Ok::<Seq<u8>, Error>(v@),
            Err(e) => spec_signature_to_rs(sig@, component_len as int) == Err::<Seq<u8>, Error>(e),
        },
        r matches Ok(v) ==> v@.len() == 2 * component_len,
{
    let mut out = vec![0u8; component_len];
    let used_r = der_uint_into(sig, &mut out)?;
    let rest = &sig[used_r..sig.len()];
    let mut s_part = vec![0u8; component_len];
    let used_s = der_uint_into(rest, &mut s_part)?;
    if used_r + used_s != sig.len() {
        return Err(Error::BadData("trailing bytes after signature"));
    }
    assert(rest@ =~= sig@.skip(used_r as int));
    out.append(&mut s_part);
    Ok(out)
}

/// The DER `INTEGER` the chip expects for one unsigned big-endian component:
/// minimal, with a zero octet in front where the top bit would read as a sign.
pub open spec fn spec_der_uint_encode(part: Seq<u8>) -> Seq<u8> {
    let v = strip_leading_zeros(part);
    let pad = v[0] >= 0x80;
    seq![0x02u8, ((v.len() + (if pad { 1int } else { 0int })) % 256) as u8]
        + (if pad { seq![0u8] } else { Seq::<u8>::empty() }) + v
}

/// Fixed-width `r || s` as the chip's two DER `INTEGER`s.
pub open spec fn spec_signature_from_rs(rs: Seq<u8>) -> Result<Seq<u8>, Error> {
    if rs.len() == 0 || rs.len() % 2 != 0 {
        Err(Error::InvalidArgument("r||s must have even length"))
    } else {
        let half = rs.len() / 2;
        Ok(spec_der_uint_encode(rs.take(half as int)) + spec_der_uint_encode(rs.skip(half as int)))
    }
}

proof fn lemma_strip_shape(v: Seq<u8>)
    requires
        v.len() >= 1,
    ensures
        1 <= strip_leading_zeros(v).len() <= v.len(),
        strip_leading_zeros(v) == v.skip(v.len() - strip_leading_zeros(v).len()),
        forall|j: int| 0 <= j < v.len() - strip_leading_zeros(v).len() ==> v[j] == 0,
        strip_leading_zeros(v).len() > 1 ==> strip_leading_zeros(v)[0] != 0,
    decreases v.len(),
{
    if v.len() > 1 && v[0] == 0 {
        lemma_strip_shape(v.drop_first());
        let w = strip_leading_zeros(v.drop_first());
        assert(v.drop_first().skip(v.drop_first().len() - w.len()) =~= v.skip(v.len() - w.len()));
        assert forall|j: int| 0 <= j < v.len() - w.len() implies v[j] == 0 by {
            if j > 0 {
                assert(v[j] == v.drop_first()[j - 1]);
            }
        }
    } else {
        assert(v.skip(0) =~= v);
    }
}

/// Append the chip's DER `INTEGER` for `part` to `out`.
fn push_der_uint(out: &mut Vec<u8>, part: &[u8])
    requires
        part@.len() >= 1,
    ensures
        final(out)@ == old(out)@ + spec_der_uint_encode(part@),
{
    let ghost base = out@;
    let n = part.len();
    let mut k: usize = 0;
    assert(part@.subrange(0, n as int) =~= part@);
    while n - k > 1 && part[k] == 0
        invariant
            k < n,
            n == part@.len(),
            strip_leading_zeros(part@) == strip_leading_zeros(part@.subrange(k as int, n as int)),
        decreases n - k,
    {
        assert(part@.subrange(k as int, n as int).drop_first() =~= part@.subrange(k + 1, n as int));
        k = k + 1;
    }
    let ghost v = part@.subrange(k as int, n as int);
    assert(strip_leading_zeros(v) == v);
    assert(part@.subrange(0, n as int) =~= part@);
    let vlen = n - k;
    let pad = part[k] >= 0x80;
    let len_octet: u8 = if pad { ((vlen % 256 + 1) % 256) as u8 } else { (vlen % 256) as u8 };
    assert(len_octet == ((vlen + (if pad { 1int } else { 0int })) % 256) as u8) by {
        vstd::arithmetic::div_mod::lemma_add_mod_noop(vlen as int, 1, 256);
        vstd::arithmetic::div_mod::lemma_small_mod(1, 256);
    }
    out.push(0x02);
    out.push(len_octet);
    if pad {
        out.push(0);
    }
    let ghost head = out@;
    let mut i: usize = k;
    while i < n
        invariant
            k <= i <= n,
            n == part@.len(),
            out@ == head + part@.subrange(k as int, i as int),
        decreases n - i,
    {
        out.push(part[i]);
        assert(part@.subrange(k as int, i + 1) =~= part@.subrange(k as int, i as int).push(part@[i as int]));
        i = i + 1;
    }
    assert(out@ =~= base + spec_der_uint_encode(part@));
}

/// Convert fixed-width `r || s` into the chip's signature format.
pub fn ecdsa_signature_from_rs(rs: &[u8]) -> (r: Result<Vec<u8>, Error>)
    ensures
        match r {
            Ok(v) => spec_signature_from_rs(rs@) == Ok::<Seq<u8>, Error>(v@),
            Err(e) => spec_signature_from_rs(rs@) == Err::<Seq<u8>, Error>(e),
        },
{
    if rs.len() == 0 || rs.len() % 2 != 0 {
        return Err(Error::InvalidArgument("r||s must have even length"));
    }
    let half = rs.len() / 2;
    let mut out: Vec<u8> = Vec::new();
    let first = &rs[0..half];
    let second = &rs[half..rs.len()];
    push_der_uint(&mut out, first);
    push_der_uint(&mut out, second);
    assert(first@ =~= rs@.take(half as int));
    assert(second@ =~= rs@.skip(half as int));
    assert(out@ =~= spec_der_uint_encode(rs@.take(half as int)) + spec_der_uint_encode(rs@.skip(half as int)));
    Ok(out)
}


proof fn lemma_der_uint_of_encoding(part: Seq<u8>, rest: Seq<u8>)
    requires
        1 <= part.len() <= 126,
    ensures
        spec_der_uint(spec_der_uint_encode(part) + rest, part.len() as int) == Ok::<(int, Seq<u8>), Error>(
            (spec_der_uint_encode(part).len() as int, part),
        ),
{
    lemma_strip_shape(part);
    let v = strip_leading_zeros(part);
    let pad = v[0] >= 0x80;
    let body = if pad { seq![0u8] + v } else { v };
    let enc = spec_der_uint_encode(part);
    let buf = enc + rest;
    let l: int = v.len() + (if pad { 1int } else { 0int });
    assert(l % 256 == l);
    assert(enc =~= seq![0x02u8, l as u8] + body);
    assert(buf[0] == 0x02);
    assert(buf[1] == l);
    assert(buf.subrange(2, 2 + l) =~= body);
    assert(strip_leading_zeros(v) == v);
    if pad {
        assert(body.drop_first() =~= v);
    }
    assert(strip_leading_zeros(body) == v);
    assert(left_pad(v, part.len() as int) =~= part);
}

/// Converting fixed-width `r || s` into the chip's two DER `INTEGER`s and
/// back gives the same octets, for components of 1 to 126 octets.
pub proof fn lemma_signature_roundtrip(rs: Seq<u8>, width: int)
    requires
        1 <= width <= 126,
        rs.len() == 2 * width,
    ensures
        match spec_signature_from_rs(rs) {
            Ok(sig) => spec_signature_to_rs(sig, width) == Ok::<Seq<u8>, Error>(rs),
            Err(_) => false,
        },
{
    let r = rs.take(width);
    let s = rs.skip(width);
    let e1 = spec_der_uint_encode(r);
    let e2 = spec_der_uint_encode(s);
    assert(rs.len() / 2 == width);
    let sig = e1 + e2;
    lemma_der_uint_of_encoding(r, e2);
    lemma_der_uint_of_encoding(s, Seq::<u8>::empty());
    assert(e2 + Seq::<u8>::empty() =~= e2);
    assert(sig.skip(e1.len() as int) =~= e2);
    assert(r + s =~= rs);
}

/// The content octets of a DER `INTEGER` are the minimal encoding of a
/// non-negative number: not negative, and no zero octet in front unless it
/// is the only octet (zero itself) or the next octet has its top bit set.
pub open spec fn is_minimal_uint_content(c: Seq<u8>) -> bool {
    &&& c.len() >= 1
    &&& c[0] < 0x80
    &&& c[0] == 0 && c.len() > 1 ==> c[1] >= 0x80
}

/// The content octets of the DER element at the start of `b` (short-form
/// length).
pub open spec fn first_element_content(b: Seq<u8>) -> Seq<u8> {
    b.subrange(2, 2 + b[1])
}

/// Both `INTEGER`s of a chip signature are minimally encoded non-negative
/// numbers.
pub open spec fn is_minimal_signature(sig: Seq<u8>) -> bool {
    &&& is_minimal_uint_content(first_element_content(sig))
    &&& is_minimal_uint_content(first_element_content(sig.skip(2 + sig[1])))
}

proof fn lemma_strip_zero_prefix(k: nat, v: Seq<u8>)
    requires
        v.len() >= 1,
    ensures
        strip_leading_zeros(Seq::new(k, |i: int| 0u8) + v) == strip_leading_zeros(v),
    decreases k,
{
    if k > 0 {
        let z = Seq::new(k, |i: int| 0u8) + v;
        assert(z.drop_first() =~= Seq::new((k - 1) as nat, |i: int| 0u8) + v);
        lemma_strip_zero_prefix((k - 1) as nat, v);
    } else {
        assert(Seq::new(0, |i: int| 0u8) + v =~= v);
    }
}

proof fn lemma_minimal_integer_reencodes(b: Seq<u8>, width: int)
    requires
        spec_der_uint(b, width) is Ok,
        is_minimal_uint_content(first_element_content(b)),
    ensures
        spec_der_uint_encode(spec_der_uint(b, width)->Ok_0.1) == b.take(spec_der_uint(b, width)->Ok_0.0),
        spec_der_uint(b, width)->Ok_0.1.len() == width,
        width >= 1,
{
    let n = 2 + b[1];
    let c = b.subrange(2, n);
    let v = strip_leading_zeros(c);
    let field = left_pad(v, width);
    lemma_strip_shape(c);
    lemma_strip_zero_prefix((width - v.len()) as nat, v);
    if c[0] != 0 || c.len() == 1 {
        assert(v == c);
    } else {
        assert(strip_leading_zeros(c) == strip_leading_zeros(c.drop_first()));
        assert(v == c.drop_first());
    }
    assert(strip_leading_zeros(field) == v);
    if c[0] != 0 || c.len() == 1 {
        assert(spec_der_uint_encode(field) =~= b.take(n));
    } else {
        assert(spec_der_uint_encode(field) =~= seq![0x02u8, b[1]] + seq![0u8] + c.drop_first());
        assert(spec_der_uint_encode(field) =~= b.take(n));
    }
}

/// A chip signature whose two `INTEGER`s are minimally encoded comes back
/// unchanged from fixed-width `r || s` and back to the chip's format.
pub proof fn lemma_minimal_signature_roundtrip(sig: Seq<u8>, width: int)
    requires
        spec_signature_to_rs(sig, width) is Ok,
        is_minimal_signature(sig),
    ensures
        spec_signature_from_rs(spec_signature_to_rs(sig, width)->Ok_0) == Ok::<Seq<u8>, Error>(sig),
{
    let (ur, r) = spec_der_uint(sig, width)->Ok_0;
    let rest = sig.skip(ur);
    let (us, s) = spec_der_uint(rest, width)->Ok_0;
    lemma_minimal_integer_reencodes(sig, width);
    lemma_minimal_integer_reencodes(rest, width);
    let rs = r + s;
    assert(rs.len() == 2 * width);
    assert(rs.take(width) =~= r);
    assert(rs.skip(width) =~= s);
    assert(rest.take(us) =~= rest);
    assert(sig.take(ur) + rest =~= sig);
}

/// The DER `BIT STRING` the chip exports around an uncompressed point: tag,
/// minimal length, a zero unused-bits octet, then the point.
pub open spec fn spec_bit_string_wrap(point: Seq<u8>) -> Seq<u8> {
    let n = point.len() + 1;
    let header = if n < 0x80 {
        seq![0x03u8, n as u8]
    } else if n < 0x100 {
        seq![0x03u8, 0x81u8, n as u8]
    } else {
        seq![0x03u8, 0x82u8, (n / 256) as u8, (n % 256) as u8]
    };
    header + seq![0x00u8] + point
}

/// Stripping the `BIT STRING` wrapper from a wrapped uncompressed point gives
/// the point back.
pub proof fn lemma_public_key_unwrap(point: Seq<u8>)
    requires
        point.len() >= 1,
        point[0] == 0x04,
        point.len() + 1 <= 0xFFFF,
    ensures
        spec_public_key_point(spec_bit_string_wrap(point)) == Ok::<Seq<u8>, Error>(point),
{
    let der = spec_bit_string_wrap(point);
    let n = point.len() + 1;
    if n < 0x80 {
        assert(der.subrange(3, der.len() as int) =~= point);
    } else if n < 0x100 {
        assert(der.subrange(4, der.len() as int) =~= point);
    } else {
        assert((n / 256) * 256 + n % 256 == n);
        assert(der.subrange(5, der.len() as int) =~= point);
    }
}

} // verus!
