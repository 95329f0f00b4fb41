use vstd::prelude::*;

verus! {

/// The least raw status the host can report.
///
/// A status encodes `Result<value, error>` in one signed machine word:
/// non-negative statuses carry a success value, negative statuses carry an
/// error as the bitwise complement of its 24-bit value (8 bits of error
/// space, 16 bits of error code). Statuses below this bound would need more
/// than 24 error bits and are malformed.
pub const MIN_STATUS: isize = -0x0100_0000;

/// Whether a raw host status is well formed.
pub open spec fn valid_status(status: isize) -> bool {
    -0x0100_0000 <= status
}

/// The 24-bit error value carried by a negative status: its bitwise
/// complement, which is `-status - 1` in two's complement.
pub open spec fn error_value_of(status: isize) -> int {
    -(status as int) - 1
}

/// An error reported by the host for one delegated operation.
///
/// The host splits every error into an 8-bit error space (who is at fault)
/// and a 16-bit error code (what went wrong).
#[derive(Debug, PartialEq, Eq, Structural, Clone, Copy)]
pub struct Error {
    /// The error space: 0 generic, 1 user, 2 internal, 3 world.
    pub space: u8,

    /// The error code within the space.
    pub code: u16,
}

/// The error encoded by a negative raw status.
pub open spec fn spec_error_of(status: isize) -> Error {
    Error {
        space: (error_value_of(status) / 0x10000) as u8,
        code: (error_value_of(status) % 0x10000) as u16,
    }
}

/// The result encoded by a raw status: the status itself on success, the
/// decoded error on failure.
pub open spec fn spec_result_of(status: isize) -> Result<usize, Error> {
    if status >= 0 {
        Ok(status as usize)
    } else {
        Err(spec_error_of(status))
    }
}

/// The host's error code for an operation that is not implemented.
pub const CODE_NOT_IMPLEMENTED: u16 = 1;

/// The host's error code for an input of invalid length.
pub const CODE_INVALID_LENGTH: u16 = 3;

/// The host's error code for an input of invalid alignment.
pub const CODE_INVALID_ALIGN: u16 = 4;

/// The host's error code for an invalid input, which for an authenticated
/// decryption is how a ciphertext or tag that does not verify is rejected.
pub const CODE_INVALID_ARGUMENT: u16 = 8;

/// The host's error code for an input that is out of bounds.
pub const CODE_OUT_OF_BOUNDS: u16 = 9;

/// The error taxonomy of this layer.
///
/// Every host error maps deterministically to exactly one kind; which kind
/// may depend on whether the error came from the encrypt or the decrypt
/// delegation point, since only a decryption verifies a tag.
#[derive(Debug, PartialEq, Eq, Structural, Clone, Copy)]
pub enum ErrorKind {
    /// The AEAD capability, or the requested aliasing mode, is absent.
    Unsupported,

    /// The host rejected the shape of the arguments.
    InvalidParameters,

    /// Tag verification failed: the ciphertext, tag, associated data, key and
    /// nonce do not belong together. Any output buffer must be discarded.
    AuthenticationFailure,

    /// Any other host failure.
    InternalFailure,
}

/// The kind of an error reported by the encrypt delegation point.
pub open spec fn spec_encrypt_kind(e: Error) -> ErrorKind {
    if e.code == CODE_NOT_IMPLEMENTED {
        ErrorKind::Unsupported
    } else if e.code == CODE_INVALID_LENGTH || e.code == CODE_INVALID_ALIGN
        || e.code == CODE_INVALID_ARGUMENT || e.code == CODE_OUT_OF_BOUNDS {
        ErrorKind::InvalidParameters
    } else {
        ErrorKind::InternalFailure
    }
}

/// The kind of an error reported by the decrypt delegation point.
///
/// An encryption never fails authentication, so an invalid-argument report
/// from a decryption is the rejection of inputs that do not verify: it is
/// surfaced as an authentication failure rather than as a parameter error.
pub open spec fn spec_decrypt_kind(e: Error) -> ErrorKind {
    if e.code == CODE_NOT_IMPLEMENTED {
        ErrorKind::Unsupported
    } else if e.code == CODE_INVALID_LENGTH || e.code == CODE_INVALID_ALIGN
        || e.code == CODE_OUT_OF_BOUNDS {
        ErrorKind::InvalidParameters
    } else if e.code == CODE_INVALID_ARGUMENT {
        ErrorKind::AuthenticationFailure
    } else {
        ErrorKind::InternalFailure
    }
}

impl Error {
    /// Splits a raw host status into a success value or a decoded error.
    pub fn to_result(status: isize) -> (r: Result<usize, Error>)
        requires
            valid_status(status),
        ensures
            r == spec_result_of(status),
    {
        if status >= 0 {
            Ok(status as usize)
        } else {
            let value: usize = (-(status + 1)) as usize;
            let space: u8 = (value / 0x10000) as u8;
            let code: u16 = (value % 0x10000) as u16;
            Err(Error { space, code })
        }
    }

    /// The kind of this error when the encrypt delegation point reported it.
    pub fn encrypt_kind(&self) -> (k: ErrorKind)
        ensures
            k == spec_encrypt_kind(*self),
    {
        if self.code == CODE_NOT_IMPLEMENTED {
            ErrorKind::Unsupported
        } else if self.code == CODE_INVALID_LENGTH || self.code == CODE_INVALID_ALIGN
            || self.code == CODE_INVALID_ARGUMENT || self.code == CODE_OUT_OF_BOUNDS {
            ErrorKind::InvalidParameters
        } else {
            ErrorKind::InternalFailure
        }
    }

    /// The kind of this error when the decrypt delegation point reported it.
    pub fn decrypt_kind(&self) -> (k: ErrorKind)
        ensures
            k == spec_decrypt_kind(*self),
    {
        if self.code == CODE_NOT_IMPLEMENTED {
            ErrorKind::Unsupported
        } else if self.code == CODE_INVALID_LENGTH || self.code == CODE_INVALID_ALIGN
            || self.code == CODE_OUT_OF_BOUNDS {
            ErrorKind::InvalidParameters
        } else if self.code == CODE_INVALID_ARGUMENT {
            ErrorKind::AuthenticationFailure
        } else {
            ErrorKind::InternalFailure
        }
    }
}

/// No two distinct well-formed failure statuses decode to the same error:
/// together with [`spec_result_of`], every well-formed status maps to exactly
/// one outcome, and every decoded error comes from exactly one status.
pub proof fn lemma_error_decoding_injective(s1: isize, s2: isize)
    requires
        valid_status(s1),
        valid_status(s2),
        s1 < 0,
        s2 < 0,
        spec_error_of(s1) == spec_error_of(s2),
    ensures
        s1 == s2,
{
    let v1 = error_value_of(s1);
    let v2 = error_value_of(s2);
    vstd::arithmetic::div_mod::lemma_fundamental_div_mod(v1, 0x10000);
    vstd::arithmetic::div_mod::lemma_fundamental_div_mod(v2, 0x10000);
}

} // verus!
