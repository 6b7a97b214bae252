//! The decisions a chip session makes around each command: whether a handle
//! may be opened, how a command's lengths are checked before it is sent, how
//! big the reply buffers are, how a reply is cut to the length the library
//! reports, and when waiting for the chip's answer ends.

use vstd::prelude::*;
use crate::error::{Error, LIB_BUSY, LIB_SUCCESS};
use crate::der::{der_len, spec_der_len};

verus! {

/// Reply buffer for reading a data object.
pub const DATA_OBJECT_CAPACITY: usize = 2048;
/// Reply buffer for reading metadata.
pub const METADATA_CAPACITY: usize = 256;
/// Reply buffer for a generated ECC public or private key.
pub const ECC_KEY_CAPACITY: usize = 256;
/// Reply buffer for an ECDSA signature.
pub const ECDSA_SIGNATURE_CAPACITY: usize = 160;
/// Reply buffer for a generated RSA public key.
pub const RSA_PUBLIC_KEY_CAPACITY: usize = 512;
/// Reply buffer for an RSA signature or a decrypted message.
pub const RSA_BLOCK_CAPACITY: usize = 256;
/// Fewest random bytes the chip hands out per call.
pub const RANDOM_MIN: u16 = 8;
/// Most random bytes the chip hands out per call.
pub const RANDOM_MAX: u16 = 256;
/// How long one command may take by default, in seconds.
pub const DEFAULT_TIMEOUT_SECS: u64 = 10;

/// Whether a new handle may be opened, given whether one is open in this
/// process.
pub fn open_check(already_open: bool) -> (r: Result<(), Error>)
    ensures
        already_open ==> r == Err::<(), Error>(Error::AlreadyOpen),
        !already_open ==> r == Ok::<(), Error>(()),
{
    if already_open {
        Err(Error::AlreadyOpen)
    } else {
        Ok(())
    }
}

/// A length that must fit in one octet for the chip.
fn fit_u8(len: usize, what: &'static str) -> (r: Result<u8, Error>)
    ensures
        len <= u8::MAX ==> r == Ok::<u8, Error>(len as u8),
        len > u8::MAX ==> r == Err::<u8, Error>(Error::InvalidArgument(what)),
{
    if len <= 255 {
        Ok(len as u8)
    } else {
        Err(Error::InvalidArgument(what))
    }
}

/// A length that must fit in two octets for the chip.
fn fit_u16(len: usize, what: &'static str) -> (r: Result<u16, Error>)
    ensures
        len <= u16::MAX ==> r == Ok::<u16, Error>(len as u16),
        len > u16::MAX ==> r == Err::<u16, Error>(Error::InvalidArgument(what)),
{
    if len <= 0xFFFF {
        Ok(len as u16)
    } else {
        Err(Error::InvalidArgument(what))
    }
}

/// A length that must fit in four octets for the chip.
fn fit_u32(len: usize, what: &'static str) -> (r: Result<u32, Error>)
    ensures
        len <= u32::MAX ==> r == Ok::<u32, Error>(len as u32),
        len > u32::MAX ==> r == Err::<u32, Error>(Error::InvalidArgument(what)),
{
    if len <= 0xFFFF_FFFF {
        Ok(len as u32)
    } else {
        Err(Error::InvalidArgument(what))
    }
}

/// The buffer size for a random draw of `len` bytes: the chip accepts 8 to
/// 256 per call.
pub fn random_len(len: u16) -> (r: Result<usize, Error>)
    ensures
        RANDOM_MIN <= len <= RANDOM_MAX ==> r == Ok::<usize, Error>(len as usize),
        !(RANDOM_MIN <= len <= RANDOM_MAX) ==> r == Err::<usize, Error>(
            Error::InvalidArgument("random length must be 8..=256"),
        ),
        r is Ok <==> 8 <= len <= 256,
        r matches Ok(n) ==> n == len,
{
    if len < RANDOM_MIN || len > RANDOM_MAX {
        Err(Error::InvalidArgument("random length must be 8..=256"))
    } else {
        Ok(len as usize)
    }
}

/// The digest, signature and public key lengths of a verification with a
/// host-supplied key, checked in that order.
pub fn verify_lengths(digest: usize, signature: usize, public_key: usize) -> (r: Result<
    (u8, u16, u16),
    Error,
>)
    ensures
        digest > u8::MAX ==> r == Err::<(u8, u16, u16), Error>(Error::InvalidArgument("digest too long")),
        digest <= u8::MAX && signature > u16::MAX ==> r == Err::<(u8, u16, u16), Error>(
            Error::InvalidArgument("signature too long"),
        ),
        digest <= u8::MAX && signature <= u16::MAX && public_key > u16::MAX ==> r == Err::<
            (u8, u16, u16),
            Error,
        >(Error::InvalidArgument("public key too long")),
        digest <= u8::MAX && signature <= u16::MAX && public_key <= u16::MAX ==> r == Ok::<
            (u8, u16, u16),
            Error,
        >((digest as u8, signature as u16, public_key as u16)),
{
    let d = fit_u8(digest, "digest too long")?;
    let s = fit_u16(signature, "signature too long")?;
    let k = fit_u16(public_key, "public key too long")?;
    Ok((d, s, k))
}

/// The digest and signature lengths of a verification against a key stored
/// on the chip, checked in that order.
pub fn verify_oid_lengths(digest: usize, signature: usize) -> (r: Result<(u8, u16), Error>)
    ensures
        digest > u8::MAX ==> r == Err::<(u8, u16), Error>(Error::InvalidArgument("digest too long")),
        digest <= u8::MAX && signature > u16::MAX ==> r == Err::<(u8, u16), Error>(
            Error::InvalidArgument("signature too long"),
        ),
        digest <= u8::MAX && signature <= u16::MAX ==> r == Ok::<(u8, u16), Error>(
            (digest as u8, signature as u16),
        ),
{
    let d = fit_u8(digest, "digest too long")?;
    let s = fit_u16(signature, "signature too long")?;
    Ok((d, s))
}

/// Two lengths that must each fit in two octets, checked in order, with the
/// message for each.
fn pair_lengths(first: usize, first_what: &'static str, second: usize, second_what: &'static str) -> (r:
    Result<(u16, u16), Error>)
    ensures
        first > u16::MAX ==> r == Err::<(u16, u16), Error>(Error::InvalidArgument(first_what)),
        first <= u16::MAX && second > u16::MAX ==> r == Err::<(u16, u16), Error>(
            Error::InvalidArgument(second_what),
        ),
        first <= u16::MAX && second <= u16::MAX ==> r == Ok::<(u16, u16), Error>(
            (first as u16, second as u16),
        ),
{
    let a = fit_u16(first, first_what)?;
    let b = fit_u16(second, second_what)?;
    Ok((a, b))
}

/// Length of data written to a data object.
pub fn write_data_len(data: usize) -> (r: Result<u16, Error>)
    ensures
        data <= u16::MAX ==> r == Ok::<u16, Error>(data as u16),
        data > u16::MAX ==> r == Err::<u16, Error>(Error::InvalidArgument("data too long")),
{
    fit_u16(data, "data too long")
}

/// Length of metadata written to a data object or key slot.
pub fn write_metadata_len(metadata: usize) -> (r: Result<u8, Error>)
    ensures
        metadata <= u8::MAX ==> r == Ok::<u8, Error>(metadata as u8),
        metadata > u8::MAX ==> r == Err::<u8, Error>(Error::InvalidArgument("metadata too long")),
{
    fit_u8(metadata, "metadata too long")
}

/// Length of host data streamed through the chip (hash, HMAC, AES-ECB).
pub fn host_data_len(data: usize) -> (r: Result<u32, Error>)
    ensures
        data <= u32::MAX ==> r == Ok::<u32, Error>(data as u32),
        data > u32::MAX ==> r == Err::<u32, Error>(Error::InvalidArgument("data too long")),
{
    fit_u32(data, "data too long")
}

/// Length of a digest to be signed.
pub fn digest_len(digest: usize) -> (r: Result<u8, Error>)
    ensures
        digest <= u8::MAX ==> r == Ok::<u8, Error>(digest as u8),
        digest > u8::MAX ==> r == Err::<u8, Error>(Error::InvalidArgument("digest too long")),
{
    fit_u8(digest, "digest too long")
}

/// Length of a peer's public key for ECDH.
pub fn peer_key_len(public_key: usize) -> (r: Result<u16, Error>)
    ensures
        public_key <= u16::MAX ==> r == Ok::<u16, Error>(public_key as u16),
        public_key > u16::MAX ==> r == Err::<u16, Error>(Error::InvalidArgument("public key too long")),
{
    fit_u16(public_key, "public key too long")
}

/// Length of an RSA ciphertext to be decrypted.
pub fn ciphertext_len(ciphertext: usize) -> (r: Result<u16, Error>)
    ensures
        ciphertext <= u16::MAX ==> r == Ok::<u16, Error>(ciphertext as u16),
        ciphertext > u16::MAX ==> r == Err::<u16, Error>(Error::InvalidArgument("ciphertext too long")),
{
    fit_u16(ciphertext, "ciphertext too long")
}

/// Message and public key lengths of an RSA encryption, checked in that order.
pub fn rsa_encrypt_lengths(message: usize, public_key: usize) -> (r: Result<(u16, u16), Error>)
    ensures
        message > u16::MAX ==> r == Err::<(u16, u16), Error>(Error::InvalidArgument("message too long")),
        message <= u16::MAX && public_key > u16::MAX ==> r == Err::<(u16, u16), Error>(
            Error::InvalidArgument("public key too long"),
        ),
        message <= u16::MAX && public_key <= u16::MAX ==> r == Ok::<(u16, u16), Error>(
            (message as u16, public_key as u16),
        ),
{
    pair_lengths(message, "message too long", public_key, "public key too long")
}

/// Salt and info lengths of an HKDF derivation, checked in that order.
pub fn hkdf_lengths(salt: usize, info: usize) -> (r: Result<(u16, u16), Error>)
    ensures
        salt > u16::MAX ==> r == Err::<(u16, u16), Error>(Error::InvalidArgument("salt too long")),
        salt <= u16::MAX && info > u16::MAX ==> r == Err::<(u16, u16), Error>(
            Error::InvalidArgument("info too long"),
        ),
        salt <= u16::MAX && info <= u16::MAX ==> r == Ok::<(u16, u16), Error>(
            (salt as u16, info as u16),
        ),
{
    pair_lengths(salt, "salt too long", info, "info too long")
}

/// Label and seed lengths of a TLS 1.2 PRF derivation, checked in that order.
pub fn tls_prf_lengths(label: usize, seed: usize) -> (r: Result<(u16, u16), Error>)
    ensures
        label > u16::MAX ==> r == Err::<(u16, u16), Error>(Error::InvalidArgument("label too long")),
        label <= u16::MAX && seed > u16::MAX ==> r == Err::<(u16, u16), Error>(
            Error::InvalidArgument("seed too long"),
        ),
        label <= u16::MAX && seed <= u16::MAX ==> r == Ok::<(u16, u16), Error>(
            (label as u16, seed as u16),
        ),
{
    pair_lengths(label, "label too long", seed, "seed too long")
}

/// `buf` cut to the length the host library reported; a reported length
/// beyond the buffer leaves it whole.
pub open spec fn spec_reply(buf: Seq<u8>, reported: int) -> Seq<u8> {
    if reported < buf.len() {
        buf.take(reported)
    } else {
        buf
    }
}

/// A reply holds exactly the first `reported` octets of the buffer when the
/// library reports no more than the buffer holds, and the whole buffer
/// otherwise.
pub proof fn lemma_reply_is_reported_prefix(buf: Seq<u8>, reported: int)
    requires
        0 <= reported,
    ensures
        reported <= buf.len() ==> spec_reply(buf, reported).len() == reported
            && spec_reply(buf, reported) == buf.subrange(0, reported)
            && forall|i: int| 0 <= i < reported ==> #[trigger] spec_reply(buf, reported)[i] == buf[i],
        reported > buf.len() ==> spec_reply(buf, reported) == buf,
{
    if reported == buf.len() {
        assert(buf.subrange(0, reported) =~= buf);
    }
}

/// Cut a reply buffer to the length the host library reported.
pub fn reply(buf: Vec<u8>, reported: usize) -> (r: Vec<u8>)
    ensures
        r@ == spec_reply(buf@, reported as int),
        r@.len() <= buf@.len(),
        reported <= buf@.len() ==> r@.len() == reported && r@ == buf@.subrange(0, reported as int),
        reported > buf@.len() ==> r@ == buf@,
{
    let mut buf = buf;
    buf.truncate(reported);
    buf
}

/// An exported private key cut to the length its DER header gives (the
/// library does not report it).
pub fn exported_private_key(buf: Vec<u8>) -> (r: Result<Vec<u8>, Error>)
    ensures
        spec_der_len(buf@) is None ==> r == Err::<Vec<u8>, Error>(Error::BadData("private key DER")),
        spec_der_len(buf@) matches Some(n) ==> (r matches Ok(k) && k@ == spec_reply(buf@, n)),
{
    match der_len(buf.as_slice()) {
        None => Err(Error::BadData("private key DER")),
        Some(n) => Ok(reply(buf, n)),
    }
}

/// What to do after looking at the status a command's callback left.
#[derive(Debug, PartialEq, Eq)]
pub enum Poll {
    /// The command is over, with this outcome.
    Done(Result<(), Error>),
    /// Still busy and within the timeout: look again later.
    Wait,
}

/// The outcome of one look at a command's status: a status other than busy
/// ends the command (success or that status as an error); a busy status ends
/// it with a timeout once more time has elapsed than allowed.
pub fn poll(status: u16, elapsed_ns: u128, timeout_ns: u128) -> (r: Poll)
    ensures
        status != LIB_BUSY && status == LIB_SUCCESS ==> r == Poll::Done(Ok(())),
        status != LIB_BUSY && status != LIB_SUCCESS ==> r == Poll::Done(Err(Error::Status(status))),
        status == LIB_BUSY && elapsed_ns > timeout_ns ==> r == Poll::Done(Err(Error::Timeout)),
        status == LIB_BUSY && elapsed_ns <= timeout_ns ==> r == Poll::Wait,
{
    if status != LIB_BUSY {
        return Poll::Done(Error::from_status(status));
    }
    if elapsed_ns > timeout_ns {
        return Poll::Done(Err(Error::Timeout));
    }
    Poll::Wait
}

} // verus!
