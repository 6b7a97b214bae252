use trustm::check::{
    check_certificate_sequence, check_p256_rs, check_random_draws, check_sha256_abc, check_uid,
    comm_buffer_size, lifecycle_name, p256_public_key_der,
};
use trustm::{bus_path, expect, find_p256_spki, hex, strip_cert_header, Error, Report};

#[test]
fn spki_search() {
    let mut der = vec![0x30, 0x82, 0x01, 0x00, 0xAA, 0xBB];
    der.extend_from_slice(&[0x06, 0x08, 0x2A, 0x86, 0x48, 0xCE, 0x3D, 0x03, 0x01, 0x07]);
    der.extend_from_slice(&[0x03, 0x42, 0x00, 0x04]);
    der.extend(std::iter::repeat_n(0x11, 64));
    der.push(0xFF);
    let p = find_p256_spki(&der).unwrap();
    assert_eq!(p.len(), 65);
    assert_eq!(p[0], 0x04);
    assert!(find_p256_spki(&der[..30]).is_none());
}

#[test]
fn cert_framing() {
    let bare = [0x30, 0x82, 0x01];
    assert_eq!(strip_cert_header(&bare).unwrap(), &bare);
    let mut wrapped = vec![0xC0, 0x01, 0x00, 0x00, 0x00, 0xFD, 0x00, 0x00, 0xFA];
    wrapped.extend_from_slice(&bare);
    assert_eq!(strip_cert_header(&wrapped).unwrap(), &bare);
    assert!(strip_cert_header(&[0x00]).is_err());
}

#[test]
fn bus_argument() {
    assert_eq!(bus_path("3"), "/dev/i2c-3");
    assert_eq!(bus_path("/dev/i2c-3"), "/dev/i2c-3");
    assert_eq!(bus_path("/dev/custom"), "/dev/custom");
}

// ---------------------------------------------------------------------------

#[test]
fn bus_argument_edges() {
    assert_eq!(bus_path("12"), "/dev/i2c-12");
    assert_eq!(bus_path("1a"), "1a");
    assert_eq!(bus_path(""), "");
}

#[test]
fn hex_dump() {
    assert_eq!(hex(&[]), "");
    assert_eq!(hex(&[0x00, 0x0f, 0xa5, 0xff]), "000fa5ff");
}

#[test]
fn expect_outcomes() {
    assert_eq!(expect(true, "m"), Ok(()));
    assert_eq!(expect(false, "m"), Err(Error::BadData("m")));
}

#[test]
fn cert_framing_edges() {
    // A header without anything after its nine bytes is not accepted.
    let header_only = [0xC0, 0x01, 0x00, 0x00, 0x00, 0xFD, 0x00, 0x00, 0xFA];
    assert_eq!(strip_cert_header(&header_only), Err(Error::BadData("unknown certificate framing")));
    assert_eq!(strip_cert_header(&[]), Err(Error::BadData("unknown certificate framing")));
}

#[test]
fn spki_search_edges() {
    let oid = [0x06, 0x08, 0x2A, 0x86, 0x48, 0xCE, 0x3D, 0x03, 0x01, 0x07];
    // The first occurrence decides: a bad header after it gives nothing even
    // when a good one follows later.
    let mut der = oid.to_vec();
    der.extend_from_slice(&[0x05, 0x00]);
    der.extend_from_slice(&oid);
    der.extend_from_slice(&[0x03, 0x42, 0x00, 0x04]);
    der.extend(std::iter::repeat_n(0x22, 64));
    assert!(find_p256_spki(&der).is_none());
    // The search wants one byte beyond the point: a point that ends the
    // input is not taken.
    let mut der = oid.to_vec();
    der.extend_from_slice(&[0x03, 0x42, 0x00, 0x04]);
    der.extend(std::iter::repeat_n(0x33, 64));
    assert!(find_p256_spki(&der).is_none());
    der.push(0x99);
    let p = find_p256_spki(&der).unwrap();
    assert_eq!(p.len(), 65);
    assert_eq!(p[64], 0x33);
    assert!(find_p256_spki(&[]).is_none());
}

#[test]
fn lifecycle_names() {
    assert_eq!(lifecycle_name(&[0x07, 0x00]), "operational");
    assert_eq!(lifecycle_name(&[0x01]), "creation");
    assert_eq!(lifecycle_name(&[0x02]), "?");
    assert_eq!(lifecycle_name(&[]), "?");
}

#[test]
fn p256_key_wrapping() {
    let mut point = vec![0x04];
    point.extend(std::iter::repeat_n(0x44, 64));
    let der = p256_public_key_der(&point);
    assert_eq!(&der[..3], &[0x03, 0x42, 0x00]);
    assert_eq!(trustm::ecc_public_key_point(&der).unwrap(), &point[..]);
}

#[test]
fn report_tally() {
    let mut r = Report::new();
    assert_eq!(r.exit_status(), 0);
    r.pass();
    r.pass();
    assert_eq!(r.exit_status(), 0);
    r.fail();
    assert_eq!((r.passed, r.failed), (2, 1));
    assert_eq!(r.exit_status(), 1);
}

#[test]
fn health_check_conditions() {
    assert_eq!(check_uid(&[0u8; 27]), Ok(()));
    assert_eq!(check_uid(&[0u8; 26]), Err(Error::BadData("UID should be 27 bytes")));
    assert_eq!(comm_buffer_size(&[0x06, 0x15]), Ok(0x0615));
    assert_eq!(comm_buffer_size(&[0x06]), Err(Error::BadData("expected 2 bytes")));
    assert_eq!(check_certificate_sequence(&[0x30, 0x82, 0x01]), Ok(()));
    assert_eq!(check_certificate_sequence(&[0x30, 0x81]), Err(Error::BadData("certificate should be a DER SEQUENCE")));
    assert_eq!(check_random_draws(&[1, 2], &[1, 2]), Err(Error::BadData("two draws should differ")));
    assert_eq!(check_random_draws(&[0, 0], &[1, 2]), Err(Error::BadData("all zero")));
    assert_eq!(check_random_draws(&[0, 3], &[1, 2]), Ok(()));
    let want = [
        0xba, 0x78, 0x16, 0xbf, 0x8f, 0x01, 0xcf, 0xea, 0x41, 0x41, 0x40, 0xde, 0x5d, 0xae,
        0x22, 0x23, 0xb0, 0x03, 0x61, 0xa3, 0x96, 0x17, 0x7a, 0x9c, 0xb4, 0x10, 0xff, 0x61,
        0xf2, 0x00, 0x15, 0xad,
    ];
    assert_eq!(check_sha256_abc(&want), Ok(()));
    let mut bad = want;
    bad[31] ^= 1;
    assert_eq!(check_sha256_abc(&bad), Err(Error::BadData("digest mismatch")));
    assert_eq!(check_p256_rs(&[0u8; 64]), Ok(()));
    assert_eq!(check_p256_rs(&[0u8; 63]), Err(Error::BadData("r||s should be 64 bytes")));
}
