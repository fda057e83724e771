//! Authenticated decryption, step by step.
//!
//! A decryption runs through four steps, each of which takes the answer to
//! what the step before asked for:
//!
//! 1. [`begin_decrypt`] resolves the tag length and asks for the slot of the
//!    key;
//! 2. [`DecryptAwaitingKeyId::key_id_resolved`] takes the slot and asks for
//!    the attributes of the key;
//! 3. [`DecryptAwaitingKeyAttributes::key_attributes_fetched`] takes the
//!    attributes, validates the request against them, detaches the tag from
//!    the ciphertext and gives the request for the device;
//! 4. [`decrypt_finished`] takes what the device returned and gives the
//!    plaintext.
//!
//! A step that fails ends the operation: nothing is asked of the key store
//! or of the device after it.

use crate::error::{AeadError, DeviceError};
use crate::framing::{holds_tag, payload_of, split_ciphertext, tag_of};
use crate::operation::{step_view, DecryptOperation, DecryptOperationView};
use crate::parameters::{
    construction_of, decrypt_param, decrypt_param_of, select_construction, DeviceRequest,
    DeviceRequestView,
};
use crate::validation::{decrypt_validation, validate_decrypt};
use parsec_interface::operations::psa_key_attributes::Attributes;
use parsec_interface::requests::ResponseStatus;
use vstd::prelude::*;

verus! {

/// A decryption whose algorithm is supported and whose key is yet to be
/// found. The key store is to be asked for the slot of the key named
/// [`key_name`](Self::key_name).
#[derive(Debug)]
pub struct DecryptAwaitingKeyId {
    op: DecryptOperation,
    tag_length: usize,
}

/// A decryption whose key has a slot. The key store is to be asked for the
/// attributes of the key named [`key_name`](Self::key_name).
#[derive(Debug)]
pub struct DecryptAwaitingKeyAttributes {
    op: DecryptOperation,
    tag_length: usize,
    key_id: u8,
}

/// A [`DecryptAwaitingKeyId`] as a value of mathematics.
pub struct DecryptAwaitingKeyIdView {
    /// The request.
    pub op: DecryptOperationView,
    /// The tag length resolved for the request's algorithm.
    pub tag_length: usize,
}

/// A [`DecryptAwaitingKeyAttributes`] as a value of mathematics.
pub struct DecryptAwaitingKeyAttributesView {
    /// The request.
    pub op: DecryptOperationView,
    /// The tag length resolved for the request's algorithm.
    pub tag_length: usize,
    /// The slot of the key.
    pub key_id: u8,
}

impl View for DecryptAwaitingKeyId {
    type V = DecryptAwaitingKeyIdView;

    closed spec fn view(&self) -> DecryptAwaitingKeyIdView {
        DecryptAwaitingKeyIdView { op: self.op@, tag_length: self.tag_length }
    }
}

impl View for DecryptAwaitingKeyAttributes {
    type V = DecryptAwaitingKeyAttributesView;

    closed spec fn view(&self) -> DecryptAwaitingKeyAttributesView {
        DecryptAwaitingKeyAttributesView {
            op: self.op@,
            tag_length: self.tag_length,
            key_id: self.key_id,
        }
    }
}

/// The first step: an algorithm of a supported family goes on with its tag
/// length, any other ends the operation.
pub open spec fn begin_decrypt_spec(op: DecryptOperationView) -> Result<
    DecryptAwaitingKeyIdView,
    AeadError,
> {
    match op.alg.tag_length() {
        Some(tag_length) => Ok(DecryptAwaitingKeyIdView { op, tag_length }),
        None => Err(AeadError::UnsupportedAlgorithm),
    }
}

/// The second step: the slot is kept, and the key store's error is passed on
/// as it came.
pub open spec fn decrypt_key_id_resolved_spec(
    state: DecryptAwaitingKeyIdView,
    key_id: Result<u8, ResponseStatus>,
) -> Result<DecryptAwaitingKeyAttributesView, AeadError> {
    match key_id {
        Ok(key_id) => Ok(
            DecryptAwaitingKeyAttributesView { op: state.op, tag_length: state.tag_length, key_id },
        ),
        Err(status) => Err(AeadError::KeyResolutionFailure(status)),
    }
}

/// What the device is asked to do for a validated decryption whose
/// ciphertext holds a tag: run the construction that the algorithm selects,
/// with the request's nonce and associated data and the tag detached from
/// the ciphertext, under the key's slot, on the rest of the ciphertext.
pub open spec fn decrypt_request_of(state: DecryptAwaitingKeyAttributesView) -> DeviceRequestView
    recommends
        holds_tag(state.op.ciphertext, state.tag_length),
{
    DeviceRequestView {
        algorithm: construction_of(
            state.op.alg,
            decrypt_param_of(
                state.op.nonce,
                tag_of(state.op.ciphertext, state.tag_length),
                state.op.additional_data,
            ),
        ),
        key_id: state.key_id,
        data: payload_of(state.op.ciphertext, state.tag_length),
    }
}

/// The third step for a key that has attributes, once the request has been
/// validated against them: the validation's error is passed on as it came; a
/// request that passed goes to the device, unless its ciphertext is shorter
/// than the tag, which ends the operation with the cryptographic failure.
pub open spec fn decrypt_validated_spec(
    state: DecryptAwaitingKeyAttributesView,
    validation: Result<(), ResponseStatus>,
) -> Result<DeviceRequestView, AeadError> {
    match validation {
        Ok(_) => if holds_tag(state.op.ciphertext, state.tag_length) {
            Ok(decrypt_request_of(state))
        } else {
            Err(AeadError::CryptographicFailure)
        },
        Err(status) => Err(AeadError::ValidationFailure(status)),
    }
}

/// The third step: the key store's error is passed on as it came, and with
/// attributes the step goes on as the validation of the request against them
/// has it.
pub open spec fn decrypt_key_attributes_fetched_spec(
    state: DecryptAwaitingKeyAttributesView,
    key_attributes: Result<Attributes, ResponseStatus>,
) -> Result<DeviceRequestView, AeadError> {
    match key_attributes {
        Ok(attributes) => decrypt_validated_spec(state, decrypt_validation(state.op, attributes)),
        Err(status) => Err(AeadError::KeyResolutionFailure(status)),
    }
}

/// The last step: the plaintext is the buffer where the device verified the
/// tag. Data that did not authenticate and a failure of the device are one
/// and the same error.
pub open spec fn decrypt_finished_spec(data: Seq<u8>, outcome: Result<bool, DeviceError>) -> Result<
    Seq<u8>,
    AeadError,
> {
    if outcome == Ok::<bool, DeviceError>(true) {
        Ok(data)
    } else {
        Err(AeadError::CryptographicFailure)
    }
}

/// Begins a decryption: resolves the tag length of the request's algorithm.
///
/// Fails with [`AeadError::UnsupportedAlgorithm`] exactly where the algorithm
/// is of no supported family; the key store has not been asked anything
/// then.
pub fn begin_decrypt(op: DecryptOperation) -> (step: Result<DecryptAwaitingKeyId, AeadError>)
    ensures
        step_view(step) == begin_decrypt_spec(op@),
        step is Err <==> !op.alg.family().is_supported(),
{
    match crate::algorithm::get_tag_length(&op.alg) {
        Some(tag_length) => Ok(DecryptAwaitingKeyId { op, tag_length }),
        None => Err(AeadError::UnsupportedAlgorithm),
    }
}

impl DecryptAwaitingKeyId {
    /// Name of the key whose slot the key store is to give.
    pub fn key_name(&self) -> (name: &String)
        ensures
            name@ == self@.op.key_name,
    {
        &self.op.key_name
    }

    /// Takes the key store's answer on the slot of the key.
    pub fn key_id_resolved(self, key_id: Result<u8, ResponseStatus>) -> (step: Result<
        DecryptAwaitingKeyAttributes,
        AeadError,
    >)
        ensures
            step_view(step) == decrypt_key_id_resolved_spec(self@, key_id),
    {
        match key_id {
            Ok(key_id) => Ok(
                DecryptAwaitingKeyAttributes { op: self.op, tag_length: self.tag_length, key_id },
            ),
            Err(status) => Err(AeadError::KeyResolutionFailure(status)),
        }
    }
}

impl DecryptAwaitingKeyAttributes {
    /// Name of the key whose attributes the key store is to give.
    pub fn key_name(&self) -> (name: &String)
        ensures
            name@ == self@.op.key_name,
    {
        &self.op.key_name
    }

    /// Takes the key store's answer on the attributes of the key, and
    /// validates the request against them.
    ///
    /// The key store's error is passed on as it came. With attributes, the
    /// result is what [`validated`](Self::validated) gives for the outcome of
    /// the validation, which is never a success for a request with an empty
    /// ciphertext or an empty nonce.
    pub fn key_attributes_fetched(self, key_attributes: Result<Attributes, ResponseStatus>) -> (step:
        Result<DeviceRequest, AeadError>)
        ensures
            step_view(step) == decrypt_key_attributes_fetched_spec(self@, key_attributes),
            key_attributes is Ok && (self@.op.ciphertext.len() == 0 || self@.op.nonce.len() == 0)
                ==> step is Err,
    {
        match key_attributes {
            Ok(attributes) => {
                let validation = validate_decrypt(&self.op, attributes);
                self.validated(validation)
            },
            Err(status) => Err(AeadError::KeyResolutionFailure(status)),
        }
    }

    /// Takes the outcome of the validation and, where the request passed,
    /// detaches the tag and builds the request for the device.
    ///
    /// A ciphertext shorter than the resolved tag length is rejected with
    /// [`AeadError::CryptographicFailure`]: it cannot hold a tag that
    /// verifies.
    pub fn validated(self, validation: Result<(), ResponseStatus>) -> (step: Result<
        DeviceRequest,
        AeadError,
    >)
        ensures
            step_view(step) == decrypt_validated_spec(self@, validation),
    {
        match validation {
            Ok(_) => {
                let op = self.op;
                match split_ciphertext(op.ciphertext, self.tag_length) {
                    Some((payload, tag)) => {
                        let param = decrypt_param(op.nonce, tag, op.additional_data);
                        let algorithm = select_construction(&op.alg, param);
                        Ok(DeviceRequest { algorithm, key_id: self.key_id, data: payload })
                    },
                    None => Err(AeadError::CryptographicFailure),
                }
            },
            Err(status) => Err(AeadError::ValidationFailure(status)),
        }
    }
}

/// Ends a decryption with what the device returned: `data` is the buffer as
/// the device left it, `outcome` says whether the tag verified, or that the
/// device failed.
///
/// The plaintext is returned only where the device verified the tag. A tag
/// that did not verify and a failure of the device are both reported as
/// [`AeadError::CryptographicFailure`], and the buffer is not handed out.
pub fn decrypt_finished(data: Vec<u8>, outcome: Result<bool, DeviceError>) -> (result: Result<
    Vec<u8>,
    AeadError,
>)
    ensures
        step_view(result) == decrypt_finished_spec(data@, outcome),
        result is Ok <==> outcome == Ok::<bool, DeviceError>(true),
{
    match outcome {
        Ok(true) => Ok(data),
        Ok(false) => Err(AeadError::CryptographicFailure),
        Err(_) => Err(AeadError::CryptographicFailure),
    }
}

} // verus!
