//! Verification of Secure Scuttlebutt feeds: signature checks, hash-chain
//! validation and derivation of message keys, for single messages and batches.

pub mod batch;
pub mod chain;
pub mod feed;
pub mod hmac;
pub mod key;
pub mod laws;
pub mod locate;
pub mod report;
pub mod scan;
pub mod signature;
pub mod text;

pub use batch::{
    validate_batch, verify_messages, verify_validate_message, verify_validate_messages,
    verify_validate_multi_author_messages, verify_validate_out_of_order_messages, Mode,
};
pub use chain::{ChainError, ChainErrorKind};
pub use hmac::{is_valid_hmac_key, HmacKey, KeyFormatError};
pub use key::{derive_key, hash};
pub use report::{Phase, ValidationError};
pub use signature::SignatureError;
