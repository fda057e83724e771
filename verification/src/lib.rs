//! Authenticated encryption with associated data for a provider whose keys
//! live in a hardware secure element.
//!
//! The crate holds the decisions of the encrypt and decrypt request paths:
//! which tag length an algorithm asks for, which of the two constructions the
//! device is to run, what is handed to the device, how the tag is appended to
//! and detached from the ciphertext, and which error a failure is reported
//! as. Talking to the key store and to the device is left to the caller, who
//! hands each answer to the next step.

pub mod algorithm;
pub mod decrypt;
pub mod encrypt;
pub mod end_to_end;
pub mod error;
pub mod framing;
pub mod operation;
pub mod parameters;
pub mod validation;

pub use algorithm::{get_tag_length, is_ccm_selected, Aead, AeadWithDefaultLengthTag, DEFAULT_TAG_LENGTH};
pub use error::{AeadError, DeviceError};
