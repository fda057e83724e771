//! The two requests that the library serves.

use crate::algorithm::Aead;
use vstd::prelude::*;

verus! {

/// A request to encrypt and authenticate a message.
#[derive(Clone, Debug, PartialEq, Eq)]
pub struct EncryptOperation {
    /// Name of the key to encrypt with.
    pub key_name: String,
    /// The algorithm to use.
    pub alg: Aead,
    /// The nonce.
    pub nonce: Vec<u8>,
    /// Data that is authenticated but not encrypted.
    pub additional_data: Vec<u8>,
    /// The message.
    pub plaintext: Vec<u8>,
}

/// A request to check and decrypt a ciphertext.
#[derive(Clone, Debug, PartialEq, Eq)]
pub struct DecryptOperation {
    /// Name of the key to decrypt with.
    pub key_name: String,
    /// The algorithm to use.
    pub alg: Aead,
    /// The nonce.
    pub nonce: Vec<u8>,
    /// Data that was authenticated but not encrypted.
    pub additional_data: Vec<u8>,
    /// The encrypted bytes followed by the tag.
    pub ciphertext: Vec<u8>,
}

/// An [`EncryptOperation`] as a value of mathematics.
pub struct EncryptOperationView {
    pub key_name: Seq<char>,
    pub alg: Aead,
    pub nonce: Seq<u8>,
    pub additional_data: Seq<u8>,
    pub plaintext: Seq<u8>,
}

/// A [`DecryptOperation`] as a value of mathematics.
pub struct DecryptOperationView {
    pub key_name: Seq<char>,
    pub alg: Aead,
    pub nonce: Seq<u8>,
    pub additional_data: Seq<u8>,
    pub ciphertext: Seq<u8>,
}

impl View for EncryptOperation {
    type V = EncryptOperationView;

    open spec fn view(&self) -> EncryptOperationView {
        EncryptOperationView {
            key_name: self.key_name@,
            alg: self.alg,
            nonce: self.nonce@,
            additional_data: self.additional_data@,
            plaintext: self.plaintext@,
        }
    }
}

impl View for DecryptOperation {
    type V = DecryptOperationView;

    open spec fn view(&self) -> DecryptOperationView {
        DecryptOperationView {
            key_name: self.key_name@,
            alg: self.alg,
            nonce: self.nonce@,
            additional_data: self.additional_data@,
            ciphertext: self.ciphertext@,
        }
    }
}

/// A step's result with its state seen as a value of mathematics.
pub open spec fn step_view<S: View, E>(step: Result<S, E>) -> Result<S::V, E> {
    match step {
        Ok(state) => Ok(state@),
        Err(error) => Err(error),
    }
}

} // verus!
