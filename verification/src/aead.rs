use vstd::prelude::*;

use crate::error::Error;
use crate::error::spec_result_of;
use crate::error::valid_status;

verus! {

/// The result of an encrypt operation: the ciphertext, of the same length as
/// the cleartext it was derived from, and its 16-byte authentication tag.
/// The two together are the unit needed to decrypt; truncating or splitting
/// either invalidates decryption.
#[derive(Debug)]
pub struct Cipher {
    /// The ciphertext.
    pub text: Vec<u8>,

    /// The authentication tag binding key, nonce, associated data and
    /// ciphertext together.
    pub tag: [u8; 16],
}

/// A fresh byte buffer of exactly the given length, filled with zeros, for
/// the host to write an output into.
pub fn zeroed_buffer(len: usize) -> (r: Vec<u8>)
    ensures
        r@.len() == len,
        forall|i: int| 0 <= i < len ==> r@[i] == 0u8,
{
    let mut r: Vec<u8> = Vec::new();
    while r.len() < len
        invariant
            r@.len() <= len,
            forall|i: int| 0 <= i < r@.len() ==> r@[i] == 0u8,
        decreases len - r@.len(),
    {
        r.push(0u8);
    }
    r
}

/// A fresh all-zero 16-byte tag buffer for the host to write the
/// authentication tag into.
pub fn zeroed_tag() -> (t: [u8; 16])
    ensures
        forall|i: int| 0 <= i < 16 ==> t@[i] == 0u8,
{
    [0u8; 16]
}

impl Cipher {
    /// A cipher artifact sized for a cleartext of the given length: a zeroed
    /// text buffer of exactly that length and a zeroed 16-byte tag, ready for
    /// the host to fill.
    pub fn with_len(len: usize) -> (c: Cipher)
        ensures
            c.text@.len() == len,
            forall|i: int| 0 <= i < len ==> c.text@[i] == 0u8,
            c.tag@.len() == 16,
            forall|i: int| 0 <= i < 16 ==> c.tag@[i] == 0u8,
    {
        Cipher { text: zeroed_buffer(len), tag: zeroed_tag() }
    }
}

/// Completes a copying-mode encryption: on a success status the host-filled
/// cipher artifact is handed back whole, and on a failure status the decoded
/// error is reported and no artifact is.
pub fn finish_encrypt(cipher: Cipher, status: isize) -> (r: Result<Cipher, Error>)
    requires
        valid_status(status),
    ensures
        status >= 0 ==> (r matches Ok(c) && c == cipher),
        status < 0 ==> (r matches Err(e) && Err::<usize, Error>(e) == spec_result_of(status)),
{
    match Error::to_result(status) {
        Ok(_) => Ok(cipher),
        Err(e) => Err(e),
    }
}

/// Completes a copying-mode decryption: on a success status the host-filled
/// cleartext is handed back whole, and on a failure status the decoded error
/// is reported and no cleartext is — a caller never sees partially decrypted
/// or unverified data as a success.
pub fn finish_decrypt(clear: Vec<u8>, status: isize) -> (r: Result<Vec<u8>, Error>)
    requires
        valid_status(status),
    ensures
        status >= 0 ==> (r matches Ok(c) && c == clear),
        status < 0 ==> (r matches Err(e) && Err::<usize, Error>(e) == spec_result_of(status)),
{
    match Error::to_result(status) {
        Ok(_) => Ok(clear),
        Err(e) => Err(e),
    }
}

/// Completes an in-place encryption: on a success status the host-filled tag
/// is handed back (the ciphertext already sits in the caller's buffer), and
/// on a failure status the decoded error is reported and the buffer contents
/// must be treated as undefined.
pub fn finish_encrypt_in_place(tag: [u8; 16], status: isize) -> (r: Result<[u8; 16], Error>)
    requires
        valid_status(status),
    ensures
        status >= 0 ==> (r matches Ok(t) && t == tag),
        status < 0 ==> (r matches Err(e) && Err::<usize, Error>(e) == spec_result_of(status)),
{
    match Error::to_result(status) {
        Ok(_) => Ok(tag),
        Err(e) => Err(e),
    }
}

/// Completes an in-place decryption: a success status means the caller's
/// buffer now holds the verified cleartext, and a failure status reports the
/// decoded error, after which the buffer contents must be discarded.
pub fn finish_decrypt_in_place(status: isize) -> (r: Result<(), Error>)
    requires
        valid_status(status),
    ensures
        status >= 0 ==> r == Ok::<(), Error>(()),
        status < 0 ==> (r matches Err(e) && Err::<usize, Error>(e) == spec_result_of(status)),
{
    match Error::to_result(status) {
        Ok(_) => Ok(()),
        Err(e) => Err(e),
    }
}

} // verus!
