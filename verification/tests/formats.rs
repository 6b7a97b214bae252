use trustm::{der_len, ecc_public_key_point, ecdsa_signature_from_rs, ecdsa_signature_to_rs};
use trustm::{EccCurve, Error, KeyId, KeyUsage, HmacType, RsaKeyType, WriteType, RngType};

#[test]
fn signature_roundtrip() {
    let mut rs = vec![0u8; 64];
    rs[0] = 0x80; // r has the high bit set: needs a padding zero in DER
    rs[63] = 0x01; // s = 1: minimal DER is a single byte
    let der = ecdsa_signature_from_rs(&rs).unwrap();
    assert_eq!(&der[..3], &[0x02, 0x21, 0x00]);
    assert_eq!(&der[der.len() - 3..], &[0x02, 0x01, 0x01]);
    assert_eq!(ecdsa_signature_to_rs(&der, 32).unwrap(), rs);
}

#[test]
fn signature_rejects_garbage() {
    assert!(
        ecdsa_signature_to_rs(&[0x30, 0x06, 0x02, 0x01, 0x01, 0x02, 0x01, 0x02], 32).is_err()
    );
    assert!(ecdsa_signature_to_rs(&[0x02, 0x01, 0x01, 0x02, 0x01, 0x02, 0x00], 32).is_err());
    assert!(ecdsa_signature_to_rs(&[], 32).is_err());
    assert!(ecdsa_signature_from_rs(&[1, 2, 3]).is_err());
}

#[test]
fn public_key_unwrap() {
    let mut point = vec![0x04];
    point.extend(std::iter::repeat_n(0xAB, 64));
    let mut der = vec![0x03, 0x42, 0x00];
    der.extend_from_slice(&point);
    assert_eq!(ecc_public_key_point(&der).unwrap(), &point[..]);
    assert_eq!(ecc_public_key_point(&point).unwrap(), &point[..]);
    assert!(ecc_public_key_point(&der[..10]).is_err());
    assert!(ecc_public_key_point(&[0x02, 0x01, 0x01]).is_err());
    // Long-form length (P-521 point is 133 bytes + 1)
    let mut p521 = vec![0x04];
    p521.extend(std::iter::repeat_n(0xCD, 132));
    let mut der = vec![0x03, 0x81, 0x86, 0x00];
    der.extend_from_slice(&p521);
    assert_eq!(ecc_public_key_point(&der).unwrap(), &p521[..]);
}

#[test]
fn error_names() {
    assert_eq!(
        Error::status_name(0x8007),
        Some("chip: access conditions not satisfied")
    );
    assert_eq!(Error::status_name(0x0403), Some("crypt: invalid input"));
    assert_eq!(Error::status_name(0x1234), None);
    assert_eq!(
        Error::Status(0x8001).to_string(),
        "OPTIGA error 0x8001 (chip: invalid OID)"
    );
}

#[test]
fn key_usage_or() {
    assert_eq!((KeyUsage::sign() | KeyUsage::key_agreement()).0, 0x30);
    assert_eq!(KeyId::E0F1.raw(), 0xE0F1);
    assert_eq!(EccCurve::NistP521.component_len(), 66);
}

// ---------------------------------------------------------------------------

#[test]
fn der_len_forms() {
    assert_eq!(der_len(&[0x04, 0x05]), Some(7));
    assert_eq!(der_len(&[0x03, 0x81, 0x86]), Some(137));
    assert_eq!(der_len(&[0x03, 0x82, 0x01, 0x02]), Some(4 + 0x0102));
    assert_eq!(der_len(&[0x03]), None);
    assert_eq!(der_len(&[0x03, 0x81]), None);
    assert_eq!(der_len(&[0x03, 0x82, 0x01]), None);
    assert_eq!(der_len(&[0x03, 0x83, 0x00, 0x00, 0x00]), None);
    assert_eq!(der_len(&[0x03, 0x80]), None);
}

#[test]
fn public_key_errors_by_kind() {
    assert_eq!(ecc_public_key_point(&[]), Err(Error::BadData("public key encoding")));
    assert_eq!(ecc_public_key_point(&[0x03]), Err(Error::BadData("public key length")));
    assert_eq!(ecc_public_key_point(&[0x03, 0x00]), Err(Error::BadData("public key too short")));
    assert_eq!(
        ecc_public_key_point(&[0x03, 0x01, 0x00]),
        Err(Error::BadData("public key is not an uncompressed point"))
    );
    assert_eq!(
        ecc_public_key_point(&[0x03, 0x02, 0x00, 0x02]),
        Err(Error::BadData("public key is not an uncompressed point"))
    );
    assert_eq!(ecc_public_key_point(&[0x03, 0x02, 0x00, 0x04]), Ok(&[0x04u8][..]));
}

#[test]
fn public_key_two_octet_length() {
    let mut point = vec![0x04];
    point.extend(std::iter::repeat_n(0x5A, 299));
    let n = point.len() + 1;
    let mut der = vec![0x03, 0x82, (n >> 8) as u8, (n & 0xFF) as u8, 0x00];
    der.extend_from_slice(&point);
    assert_eq!(ecc_public_key_point(&der).unwrap(), &point[..]);
}

#[test]
fn signature_to_rs_errors_by_kind() {
    assert_eq!(ecdsa_signature_to_rs(&[0x02], 32), Err(Error::BadData("expected DER INTEGER")));
    assert_eq!(ecdsa_signature_to_rs(&[0x02, 0x00], 32), Err(Error::BadData("DER INTEGER length")));
    assert_eq!(ecdsa_signature_to_rs(&[0x02, 0x80, 0x00], 32), Err(Error::BadData("DER INTEGER length")));
    assert_eq!(ecdsa_signature_to_rs(&[0x02, 0x02, 0x01], 32), Err(Error::BadData("DER INTEGER length")));
    assert_eq!(
        ecdsa_signature_to_rs(&[0x02, 0x03, 0x01, 0x02, 0x03, 0x02, 0x01, 0x01], 2),
        Err(Error::BadData("integer wider than the curve"))
    );
    assert_eq!(
        ecdsa_signature_to_rs(&[0x02, 0x01, 0x05, 0x02, 0x01, 0x06, 0xFF], 2),
        Err(Error::BadData("trailing bytes after signature"))
    );
}

#[test]
fn signature_to_rs_pads_and_strips() {
    // r = 00 00 07 (leading zeros dropped), s = 00 81 (sign padding dropped)
    let sig = [0x02, 0x03, 0x00, 0x00, 0x07, 0x02, 0x02, 0x00, 0x81];
    assert_eq!(ecdsa_signature_to_rs(&sig, 3).unwrap(), vec![0, 0, 7, 0, 0, 0x81]);
    assert_eq!(ecdsa_signature_to_rs(&sig, 1).unwrap(), vec![7, 0x81]);
    assert_eq!(ecdsa_signature_to_rs(&[0x02, 0x01, 0x00, 0x02, 0x01, 0x00], 1).unwrap(), vec![0, 0]);
}

#[test]
fn signature_from_rs_encoding() {
    assert_eq!(
        ecdsa_signature_from_rs(&[0x00, 0x00, 0x7F, 0x00, 0x00, 0x80]).unwrap(),
        vec![0x02, 0x01, 0x7F, 0x02, 0x02, 0x00, 0x80]
    );
    assert_eq!(ecdsa_signature_from_rs(&[0x00, 0x00]).unwrap(), vec![0x02, 0x01, 0x00, 0x02, 0x01, 0x00]);
    assert_eq!(ecdsa_signature_from_rs(&[]), Err(Error::InvalidArgument("r||s must have even length")));
}

#[test]
fn signature_roundtrip_p521() {
    let mut rs = vec![0u8; 132];
    for (i, b) in rs.iter_mut().enumerate() {
        *b = (i * 37 % 251) as u8;
    }
    rs[0] = 0xFF;
    rs[66] = 0;
    rs[67] = 0;
    let der = ecdsa_signature_from_rs(&rs).unwrap();
    assert_eq!(ecdsa_signature_to_rs(&der, 66).unwrap(), rs);
}

#[test]
fn raw_values() {
    assert_eq!(KeyId::E0F0.raw(), 0xE0F0);
    assert_eq!(KeyId::SecretBased.raw(), 0xE200);
    assert_eq!(KeyId::SessionBased.raw(), 0xE100);
    assert_eq!(EccCurve::NistP256.raw(), 0x03);
    assert_eq!(EccCurve::BrainpoolP512r1.raw(), 0x16);
    assert_eq!(WriteType::EraseAndWrite.raw(), 0x40);
    assert_eq!(RngType::Drng.raw(), 0x01);
    assert_eq!(RsaKeyType::Rsa2048.modulus_len(), 256);
    assert_eq!(HmacType::Sha384.mac_len(), 48);
    assert_eq!(EccCurve::BrainpoolP256r1.component_len(), 32);
    assert_eq!((KeyUsage::authentication() | KeyUsage::encryption()).0, 0x03);
    assert_eq!((KeyUsage::sign() | KeyUsage::sign()).0, 0x10);
}

#[test]
fn error_text() {
    assert_eq!(Error::Status(0x1234).to_string(), "OPTIGA error 0x1234");
    assert_eq!(Error::Status(0x0103).to_string(), "OPTIGA error 0x0103 (comms: invalid input)");
    assert_eq!(Error::Status(0x0101).to_string(), "OPTIGA error 0x0101");
    assert_eq!(Error::status_name(0x0402), Some("crypt error"));
    assert_eq!(Error::status_name(0x0405), Some("crypt: instance in use"));
    assert_eq!(Error::status_name(0x0305), Some("util: instance in use"));
    assert_eq!(Error::status_name(0x0204), Some("cmd: insufficient memory"));
    assert_eq!(Error::status_name(0x0108), Some("comms: session"));
    assert_eq!(Error::Status(0x80AB).to_string(), "OPTIGA error 0x80AB");
    assert_eq!(Error::Timeout.to_string(), "timed out waiting for the chip");
    assert_eq!(Error::InvalidArgument("x").to_string(), "invalid argument: x");
    assert_eq!(Error::BadData("y").to_string(), "unexpected data from the chip: y");
    assert_eq!(Error::status_name(0xFF21), Some("chip: unsorted input data"));
    assert_eq!(Error::status_name(0x8000), None);
    assert_eq!(Error::from_status(0), Ok(()));
    assert_eq!(Error::from_status(0x0401), Err(Error::Status(0x0401)));
}

#[test]
fn minimal_signature_survives_rs() {
    let sig = [0x02, 0x02, 0x00, 0x81, 0x02, 0x01, 0x05];
    let rs = ecdsa_signature_to_rs(&sig, 4).unwrap();
    assert_eq!(rs, vec![0, 0, 0, 0x81, 0, 0, 0, 5]);
    assert_eq!(ecdsa_signature_from_rs(&rs).unwrap(), sig.to_vec());
}

#[test]
fn zero_component_survives_rs() {
    let sig = [0x02, 0x01, 0x00, 0x02, 0x01, 0x7F];
    let rs = ecdsa_signature_to_rs(&sig, 2).unwrap();
    assert_eq!(rs, vec![0, 0, 0, 0x7F]);
    assert_eq!(ecdsa_signature_from_rs(&rs).unwrap(), sig.to_vec());
}
