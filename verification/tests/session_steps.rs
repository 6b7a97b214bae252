use trustm::session::{
    digest_len, exported_private_key, hkdf_lengths, host_data_len, open_check, poll, random_len,
    reply, rsa_encrypt_lengths, tls_prf_lengths, verify_lengths, verify_oid_lengths,
    write_data_len, write_metadata_len, ciphertext_len, peer_key_len, Poll,
};
use trustm::Error;

#[test]
fn opening_twice() {
    assert_eq!(open_check(false), Ok(()));
    assert_eq!(open_check(true), Err(Error::AlreadyOpen));
}

#[test]
fn random_lengths() {
    assert_eq!(random_len(7), Err(Error::InvalidArgument("random length must be 8..=256")));
    assert_eq!(random_len(8), Ok(8));
    assert_eq!(random_len(256), Ok(256));
    assert_eq!(random_len(257), Err(Error::InvalidArgument("random length must be 8..=256")));
}

#[test]
fn argument_lengths() {
    assert_eq!(write_data_len(65535), Ok(65535));
    assert_eq!(write_data_len(65536), Err(Error::InvalidArgument("data too long")));
    assert_eq!(write_metadata_len(255), Ok(255));
    assert_eq!(write_metadata_len(256), Err(Error::InvalidArgument("metadata too long")));
    assert_eq!(host_data_len(3), Ok(3));
    assert_eq!(digest_len(256), Err(Error::InvalidArgument("digest too long")));
    assert_eq!(peer_key_len(70000), Err(Error::InvalidArgument("public key too long")));
    assert_eq!(ciphertext_len(70000), Err(Error::InvalidArgument("ciphertext too long")));
    assert_eq!(verify_lengths(32, 72, 68), Ok((32, 72, 68)));
    assert_eq!(verify_lengths(300, 70000, 70000), Err(Error::InvalidArgument("digest too long")));
    assert_eq!(verify_lengths(32, 70000, 70000), Err(Error::InvalidArgument("signature too long")));
    assert_eq!(verify_lengths(32, 72, 70000), Err(Error::InvalidArgument("public key too long")));
    assert_eq!(verify_oid_lengths(32, 70000), Err(Error::InvalidArgument("signature too long")));
    assert_eq!(rsa_encrypt_lengths(70000, 70000), Err(Error::InvalidArgument("message too long")));
    assert_eq!(rsa_encrypt_lengths(10, 70000), Err(Error::InvalidArgument("public key too long")));
    assert_eq!(hkdf_lengths(1, 70000), Err(Error::InvalidArgument("info too long")));
    assert_eq!(hkdf_lengths(70000, 1), Err(Error::InvalidArgument("salt too long")));
    assert_eq!(tls_prf_lengths(70000, 1), Err(Error::InvalidArgument("label too long")));
    assert_eq!(tls_prf_lengths(1, 70000), Err(Error::InvalidArgument("seed too long")));
    assert_eq!(tls_prf_lengths(13, 64), Ok((13, 64)));
}

#[test]
fn replies() {
    assert_eq!(reply(vec![1, 2, 3, 4], 2), vec![1, 2]);
    assert_eq!(reply(vec![1, 2, 3, 4], 9), vec![1, 2, 3, 4]);
    let mut key = vec![0x04, 0x03, 0xAA, 0xBB, 0xCC];
    key.extend(std::iter::repeat_n(0, 10));
    assert_eq!(exported_private_key(key), Ok(vec![0x04, 0x03, 0xAA, 0xBB, 0xCC]));
    assert_eq!(exported_private_key(vec![0x04, 0x83, 0, 0]), Err(Error::BadData("private key DER")));
}

#[test]
fn polling() {
    assert_eq!(poll(0x0001, 5, 10), Poll::Wait);
    assert_eq!(poll(0x0001, 10, 10), Poll::Wait);
    assert_eq!(poll(0x0001, 11, 10), Poll::Done(Err(Error::Timeout)));
    assert_eq!(poll(0x0000, 11, 10), Poll::Done(Ok(())));
    assert_eq!(poll(0x8007, 0, 10), Poll::Done(Err(Error::Status(0x8007))));
}
