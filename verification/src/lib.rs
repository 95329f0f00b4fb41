//! Caller-side contract of an AES-256-GCM service delegated to a trusted
//! host environment.
//!
//! The host exposes three primitive operations over flat parameter blocks: a
//! capability query and two transforms (encrypt-and-authenticate,
//! decrypt-and-verify), each answering with one raw status word. This crate
//! holds the caller's side of that contract: reading the capability bitmask,
//! allocating the output buffers, decoding statuses into an error taxonomy,
//! and assembling each operation's outcome so that no failed operation ever
//! hands back output as if it were valid.

mod aead;
mod error;
mod support;

pub use aead::Cipher;
pub use aead::finish_decrypt;
pub use aead::finish_decrypt_in_place;
pub use aead::finish_encrypt;
pub use aead::finish_encrypt_in_place;
pub use aead::zeroed_buffer;
pub use aead::zeroed_tag;
pub use error::CODE_INVALID_ALIGN;
pub use error::CODE_INVALID_ARGUMENT;
pub use error::CODE_INVALID_LENGTH;
pub use error::CODE_NOT_IMPLEMENTED;
pub use error::CODE_OUT_OF_BOUNDS;
pub use error::Error;
pub use error::ErrorKind;
pub use error::MIN_STATUS;
pub use error::lemma_error_decoding_injective;
pub use error::spec_decrypt_kind;
pub use error::spec_encrypt_kind;
pub use error::spec_error_of;
pub use error::spec_result_of;
pub use error::valid_status;
pub use support::IN_PLACE_NO_COPY_BIT;
pub use support::NO_COPY_BIT;
pub use support::Support;
pub use support::lemma_unsupported_claims_no_mode;
pub use support::supported_from_status;
