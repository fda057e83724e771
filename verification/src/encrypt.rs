//! Authenticated encryption, step by step.
//!
//! An encryption runs through four steps, each of which takes the answer to
//! what the step before asked for:
//!
//! 1. [`begin_encrypt`] resolves the tag length and asks for the slot of the
//!    key;
//! 2. [`EncryptAwaitingKeyId::key_id_resolved`] takes the slot and asks for
//!    the attributes of the key;
//! 3. [`EncryptAwaitingKeyAttributes::key_attributes_fetched`] takes the
//!    attributes, validates the request against them and gives the request
//!    for the device, which carries the resolved tag length as it is;
//! 4. [`encrypt_finished`] takes what the device returned and gives the
//!    ciphertext.
//!
//! A step that fails ends the operation: nothing is asked of the key store
//! or of the device after it.

use crate::error::{AeadError, DeviceError};
use crate::framing::{append_tag, joined};
use crate::operation::{step_view, EncryptOperation, EncryptOperationView};
use crate::parameters::{
    construction_of, device_takes_tag_length, encrypt_param, encrypt_param_of,
    select_construction, DeviceRequest, DeviceRequestView,
};
use crate::validation::{encrypt_validation, validate_encrypt};
use parsec_interface::operations::psa_key_attributes::Attributes;
use parsec_interface::requests::ResponseStatus;
use vstd::prelude::*;

verus! {

/// An encryption whose algorithm is supported and whose key is yet to be
/// found. The key store is to be asked for the slot of the key named
/// [`key_name`](Self::key_name).
#[derive(Debug)]
pub struct EncryptAwaitingKeyId {
    op: EncryptOperation,
    tag_length: usize,
}

/// An encryption whose key has a slot. The key store is to be asked for the
/// attributes of the key named [`key_name`](Self::key_name).
#[derive(Debug)]
pub struct EncryptAwaitingKeyAttributes {
    op: EncryptOperation,
    tag_length: usize,
    key_id: u8,
}

/// An [`EncryptAwaitingKeyId`] as a value of mathematics.
pub struct EncryptAwaitingKeyIdView {
    /// The request.
    pub op: EncryptOperationView,
    /// The tag length resolved for the request's algorithm.
    pub tag_length: usize,
}

/// An [`EncryptAwaitingKeyAttributes`] as a value of mathematics.
pub struct EncryptAwaitingKeyAttributesView {
    /// The request.
    pub op: EncryptOperationView,
    /// The tag length resolved for the request's algorithm.
    pub tag_length: usize,
    /// The slot of the key.
    pub key_id: u8,
}

impl View for EncryptAwaitingKeyId {
    type V = EncryptAwaitingKeyIdView;

    closed spec fn view(&self) -> EncryptAwaitingKeyIdView {
        EncryptAwaitingKeyIdView { op: self.op@, tag_length: self.tag_length }
    }
}

impl View for EncryptAwaitingKeyAttributes {
    type V = EncryptAwaitingKeyAttributesView;

    closed spec fn view(&self) -> EncryptAwaitingKeyAttributesView {
        EncryptAwaitingKeyAttributesView {
            op: self.op@,
            tag_length: self.tag_length,
            key_id: self.key_id,
        }
    }
}

/// The first step: an algorithm of a supported family goes on with its tag
/// length, any other ends the operation.
pub open spec fn begin_encrypt_spec(op: EncryptOperationView) -> Result<
    EncryptAwaitingKeyIdView,
    AeadError,
> {
    match op.alg.tag_length() {
        Some(tag_length) => Ok(EncryptAwaitingKeyIdView { op, tag_length }),
        None => Err(AeadError::UnsupportedAlgorithm),
    }
}

/// The second step: the slot is kept, and the key store's error is passed on
/// as it came.
pub open spec fn encrypt_key_id_resolved_spec(
    state: EncryptAwaitingKeyIdView,
    key_id: Result<u8, ResponseStatus>,
) -> Result<EncryptAwaitingKeyAttributesView, AeadError> {
    match key_id {
        Ok(key_id) => Ok(
            EncryptAwaitingKeyAttributesView { op: state.op, tag_length: state.tag_length, key_id },
        ),
        Err(status) => Err(AeadError::KeyResolutionFailure(status)),
    }
}

/// What the device is asked to do for a validated encryption whose tag
/// length it can be told: run the construction that the algorithm selects,
/// with the request's nonce and associated data and the resolved tag length,
/// under the key's slot, on the plaintext.
pub open spec fn encrypt_request_of(state: EncryptAwaitingKeyAttributesView) -> DeviceRequestView
    recommends
        device_takes_tag_length(state.tag_length),
{
    DeviceRequestView {
        algorithm: construction_of(
            state.op.alg,
            encrypt_param_of(state.op.nonce, state.tag_length, state.op.additional_data),
        ),
        key_id: state.key_id,
        data: state.op.plaintext,
    }
}

/// The third step for a key that has attributes, once the request has been
/// validated against them: the validation's error is passed on as it came; a
/// request that passed goes to the device, unless its tag length is more than
/// the device can be told, which ends the operation with the cryptographic
/// failure.
pub open spec fn encrypt_validated_spec(
    state: EncryptAwaitingKeyAttributesView,
    validation: Result<(), ResponseStatus>,
) -> Result<DeviceRequestView, AeadError> {
    match validation {
        Ok(_) => if device_takes_tag_length(state.tag_length) {
            Ok(encrypt_request_of(state))
        } else {
            Err(AeadError::CryptographicFailure)
        },
        Err(status) => Err(AeadError::ValidationFailure(status)),
    }
}

/// The third step: the key store's error is passed on as it came, and with
/// attributes the step goes on as the validation of the request against them
/// has it.
pub open spec fn encrypt_key_attributes_fetched_spec(
    state: EncryptAwaitingKeyAttributesView,
    key_attributes: Result<Attributes, ResponseStatus>,
) -> Result<DeviceRequestView, AeadError> {
    match key_attributes {
        Ok(attributes) => encrypt_validated_spec(state, encrypt_validation(state.op, attributes)),
        Err(status) => Err(AeadError::KeyResolutionFailure(status)),
    }
}

/// The last step: the ciphertext is the encrypted bytes with the tag behind
/// them, and every failure of the device is one and the same error.
pub open spec fn encrypt_finished_spec(data: Seq<u8>, outcome: Result<Seq<u8>, DeviceError>) -> Result<
    Seq<u8>,
    AeadError,
> {
    match outcome {
        Ok(tag) => Ok(joined(data, tag)),
        Err(_) => Err(AeadError::CryptographicFailure),
    }
}

/// Begins an encryption: resolves the tag length of the request's algorithm.
///
/// Fails with [`AeadError::UnsupportedAlgorithm`] exactly where the algorithm
/// is of no supported family; the key store has not been asked anything
/// then.
pub fn begin_encrypt(op: EncryptOperation) -> (step: Result<EncryptAwaitingKeyId, AeadError>)
    ensures
        step_view(step) == begin_encrypt_spec(op@),
        step is Err <==> !op.alg.family().is_supported(),
{
    match crate::algorithm::get_tag_length(&op.alg) {
        Some(tag_length) => Ok(EncryptAwaitingKeyId { op, tag_length }),
        None => Err(AeadError::UnsupportedAlgorithm),
    }
}

impl EncryptAwaitingKeyId {
    /// Name of the key whose slot the key store is to give.
    pub fn key_name(&self) -> (name: &String)
        ensures
            name@ == self@.op.key_name,
    {
        &self.op.key_name
    }

    /// Takes the key store's answer on the slot of the key.
    pub fn key_id_resolved(self, key_id: Result<u8, ResponseStatus>) -> (step: Result<
        EncryptAwaitingKeyAttributes,
        AeadError,
    >)
        ensures
            step_view(step) == encrypt_key_id_resolved_spec(self@, key_id),
    {
        match key_id {
            Ok(key_id) => Ok(
                EncryptAwaitingKeyAttributes { op: self.op, tag_length: self.tag_length, key_id },
            ),
            Err(status) => Err(AeadError::KeyResolutionFailure(status)),
        }
    }
}

impl EncryptAwaitingKeyAttributes {
    /// Name of the key whose attributes the key store is to give.
    pub fn key_name(&self) -> (name: &String)
        ensures
            name@ == self@.op.key_name,
    {
        &self.op.key_name
    }

    /// Takes the key store's answer on the attributes of the key, and
    /// validates the request against them.
    ///
    /// The key store's error is passed on as it came. With attributes, the
    /// result is what [`validated`](Self::validated) gives for the outcome of
    /// the validation, which is never a success for a request with an empty
    /// plaintext or an empty nonce. No request is made of the device for a
    /// tag length that it cannot be told.
    pub fn key_attributes_fetched(self, key_attributes: Result<Attributes, ResponseStatus>) -> (step:
        Result<DeviceRequest, AeadError>)
        ensures
            step_view(step) == encrypt_key_attributes_fetched_spec(self@, key_attributes),
            key_attributes is Ok && (self@.op.plaintext.len() == 0 || self@.op.nonce.len() == 0)
                ==> step is Err,
            !device_takes_tag_length(self@.tag_length) ==> step is Err,
    {
        match key_attributes {
            Ok(attributes) => {
                let validation = validate_encrypt(&self.op, attributes);
                self.validated(validation)
            },
            Err(status) => Err(AeadError::KeyResolutionFailure(status)),
        }
    }

    /// Takes the outcome of the validation and, where the request passed,
    /// builds the request for the device.
    ///
    /// The device is told the resolved tag length and no other. A tag length
    /// above [`MAX_DEVICE_TAG_LENGTH`](crate::parameters::MAX_DEVICE_TAG_LENGTH),
    /// which it cannot be told, is rejected with
    /// [`AeadError::CryptographicFailure`], and nothing is asked of the
    /// device.
    pub fn validated(self, validation: Result<(), ResponseStatus>) -> (step: Result<
        DeviceRequest,
        AeadError,
    >)
        ensures
            step_view(step) == encrypt_validated_spec(self@, validation),
            step is Ok <==> validation is Ok && device_takes_tag_length(self@.tag_length),
    {
        match validation {
            Ok(_) => {
                let op = self.op;
                match encrypt_param(op.nonce, self.tag_length, op.additional_data) {
                    Some(param) => {
                        let algorithm = select_construction(&op.alg, param);
                        Ok(DeviceRequest { algorithm, key_id: self.key_id, data: op.plaintext })
                    },
                    None => Err(AeadError::CryptographicFailure),
                }
            },
            Err(status) => Err(AeadError::ValidationFailure(status)),
        }
    }
}

/// Ends an encryption with what the device returned: `data` is the buffer as
/// the device left it, `outcome` the tag or the device's failure.
///
/// The ciphertext is the encrypted bytes followed by the tag. A failure of
/// the device is reported as [`AeadError::CryptographicFailure`], whatever it
/// was.
pub fn encrypt_finished(data: Vec<u8>, outcome: Result<Vec<u8>, DeviceError>) -> (result: Result<
    Vec<u8>,
    AeadError,
>)
    ensures
        step_view(result) == encrypt_finished_spec(data@, step_view(outcome)),
{
    match outcome {
        Ok(tag) => Ok(append_tag(data, tag)),
        Err(_) => Err(AeadError::CryptographicFailure),
    }
}

} // verus!
