//! The two operations from end to end, and what holds of them.
//!
//! [`encrypt_result`] and [`decrypt_result`] say what an operation comes to
//! for every answer that the key store and the device can give on the way.
//! The lemmas below are stated over them.

use crate::algorithm::Aead;
use crate::decrypt::{
    begin_decrypt_spec, decrypt_finished_spec, decrypt_key_attributes_fetched_spec,
    decrypt_key_id_resolved_spec, DecryptAwaitingKeyIdView,
};
use crate::encrypt::{
    begin_encrypt_spec, encrypt_finished_spec, encrypt_key_attributes_fetched_spec,
    encrypt_key_id_resolved_spec, EncryptAwaitingKeyIdView,
};
use crate::error::{AeadError, DeviceError};
use crate::framing::{holds_tag, joined, lemma_join_splits, payload_of, tag_of};
use crate::operation::{DecryptOperationView, EncryptOperationView};
use crate::parameters::{
    construction_of, decrypt_param_of, device_takes_tag_length, encrypt_param_of, AeadTagView,
    DeviceRequestView,
};
use crate::validation::{decrypt_validation, encrypt_validation};
use parsec_interface::operations::psa_key_attributes::Attributes;
use parsec_interface::requests::ResponseStatus;
use vstd::prelude::*;

verus! {

/// The request that an encryption makes of the device, or the error that it
/// ends with before it makes one.
pub open spec fn encrypt_request(
    op: EncryptOperationView,
    key_id: Result<u8, ResponseStatus>,
    key_attributes: Result<Attributes, ResponseStatus>,
) -> Result<DeviceRequestView, AeadError> {
    match begin_encrypt_spec(op) {
        Ok(state) => match encrypt_key_id_resolved_spec(state, key_id) {
            Ok(state) => encrypt_key_attributes_fetched_spec(state, key_attributes),
            Err(error) => Err(error),
        },
        Err(error) => Err(error),
    }
}

/// What an encryption returns, where the device, if it is reached, leaves
/// `data` in the buffer and answers with `outcome`.
pub open spec fn encrypt_result(
    op: EncryptOperationView,
    key_id: Result<u8, ResponseStatus>,
    key_attributes: Result<Attributes, ResponseStatus>,
    data: Seq<u8>,
    outcome: Result<Seq<u8>, DeviceError>,
) -> Result<Seq<u8>, AeadError> {
    match encrypt_request(op, key_id, key_attributes) {
        Ok(_) => encrypt_finished_spec(data, outcome),
        Err(error) => Err(error),
    }
}

/// The request that a decryption makes of the device, or the error that it
/// ends with before it makes one.
pub open spec fn decrypt_request(
    op: DecryptOperationView,
    key_id: Result<u8, ResponseStatus>,
    key_attributes: Result<Attributes, ResponseStatus>,
) -> Result<DeviceRequestView, AeadError> {
    match begin_decrypt_spec(op) {
        Ok(state) => match decrypt_key_id_resolved_spec(state, key_id) {
            Ok(state) => decrypt_key_attributes_fetched_spec(state, key_attributes),
            Err(error) => Err(error),
        },
        Err(error) => Err(error),
    }
}

/// What a decryption returns, where the device, if it is reached, leaves
/// `data` in the buffer and answers with `outcome`.
pub open spec fn decrypt_result(
    op: DecryptOperationView,
    key_id: Result<u8, ResponseStatus>,
    key_attributes: Result<Attributes, ResponseStatus>,
    data: Seq<u8>,
    outcome: Result<bool, DeviceError>,
) -> Result<Seq<u8>, AeadError> {
    match decrypt_request(op, key_id, key_attributes) {
        Ok(_) => decrypt_finished_spec(data, outcome),
        Err(error) => Err(error),
    }
}

/// An encryption under an algorithm of no supported family ends at its first
/// step: it asks nothing of the key store, makes no request of the device,
/// and is reported as unsupported whatever the two would have answered.
pub proof fn lemma_unsupported_encryption(
    op: EncryptOperationView,
    key_id: Result<u8, ResponseStatus>,
    key_attributes: Result<Attributes, ResponseStatus>,
    data: Seq<u8>,
    outcome: Result<Seq<u8>, DeviceError>,
)
    requires
        !op.alg.family().is_supported(),
    ensures
        begin_encrypt_spec(op) == Err::<EncryptAwaitingKeyIdView, AeadError>(
            AeadError::UnsupportedAlgorithm,
        ),
        encrypt_request(op, key_id, key_attributes) == Err::<DeviceRequestView, AeadError>(
            AeadError::UnsupportedAlgorithm,
        ),
        encrypt_result(op, key_id, key_attributes, data, outcome) == Err::<Seq<u8>, AeadError>(
            AeadError::UnsupportedAlgorithm,
        ),
{
}

/// A decryption under an algorithm of no supported family ends at its first
/// step: it asks nothing of the key store, makes no request of the device,
/// and is reported as unsupported whatever the two would have answered.
pub proof fn lemma_unsupported_decryption(
    op: DecryptOperationView,
    key_id: Result<u8, ResponseStatus>,
    key_attributes: Result<Attributes, ResponseStatus>,
    data: Seq<u8>,
    outcome: Result<bool, DeviceError>,
)
    requires
        !op.alg.family().is_supported(),
    ensures
        begin_decrypt_spec(op) == Err::<DecryptAwaitingKeyIdView, AeadError>(
            AeadError::UnsupportedAlgorithm,
        ),
        decrypt_request(op, key_id, key_attributes) == Err::<DeviceRequestView, AeadError>(
            AeadError::UnsupportedAlgorithm,
        ),
        decrypt_result(op, key_id, key_attributes, data, outcome) == Err::<Seq<u8>, AeadError>(
            AeadError::UnsupportedAlgorithm,
        ),
{
}

/// Encryption and decryption of one algorithm work with one tag length: the
/// length at which a decryption detaches the tag is the length that an
/// encryption resolves for generating it.
pub proof fn lemma_one_tag_length(sealing: EncryptOperationView, opening: DecryptOperationView)
    requires
        sealing.alg == opening.alg,
    ensures
        begin_encrypt_spec(sealing) is Ok <==> begin_decrypt_spec(opening) is Ok,
        begin_encrypt_spec(sealing) matches Ok(seal) ==> (begin_decrypt_spec(opening) matches Ok(
            open,
        ) ==> seal.tag_length == open.tag_length && sealing.alg.tag_length() == Some(
            seal.tag_length,
        )),
{
}

/// Decryption undoes encryption.
///
/// Take an encryption of `plaintext` under a key that the key store knows
/// and that passes the validation, with a tag length that the device can be
/// told, for which the device returned `encrypted` and a `tag` of that
/// length. It returns `encrypted` followed by `tag`. Take the decryption of that ciphertext with the same algorithm,
/// nonce, associated data and key, which passes the validation too. It asks
/// the device to run the same construction on `encrypted`, with the same
/// nonce and associated data, and to verify `tag`. Where the device verifies
/// it and leaves `plaintext` in the buffer, the decryption returns
/// `plaintext`.
pub proof fn lemma_round_trip(
    key_name: Seq<char>,
    alg: Aead,
    nonce: Seq<u8>,
    additional_data: Seq<u8>,
    plaintext: Seq<u8>,
    key_id: u8,
    attributes: Attributes,
    encrypted: Seq<u8>,
    tag: Seq<u8>,
)
    requires
        alg.tag_length() matches Some(tag_length) && device_takes_tag_length(tag_length)
            && tag.len() == tag_length,
        encrypt_validation(
            EncryptOperationView { key_name, alg, nonce, additional_data, plaintext },
            attributes,
        ) is Ok,
        decrypt_validation(
            DecryptOperationView {
                key_name,
                alg,
                nonce,
                additional_data,
                ciphertext: joined(encrypted, tag),
            },
            attributes,
        ) is Ok,
    ensures
        ({
            let sealing = EncryptOperationView { key_name, alg, nonce, additional_data, plaintext };
            let sealed = joined(encrypted, tag);
            let opening = DecryptOperationView {
                key_name,
                alg,
                nonce,
                additional_data,
                ciphertext: sealed,
            };
            let tag_length = alg.tag_length()->Some_0;
            &&& encrypt_request(sealing, Ok(key_id), Ok(attributes)) == Ok::<
                DeviceRequestView,
                AeadError,
            >(
                DeviceRequestView {
                    algorithm: construction_of(
                        alg,
                        encrypt_param_of(nonce, tag_length, additional_data),
                    ),
                    key_id,
                    data: plaintext,
                },
            )
            &&& encrypt_result(sealing, Ok(key_id), Ok(attributes), encrypted, Ok(tag)) == Ok::<
                Seq<u8>,
                AeadError,
            >(sealed)
            &&& decrypt_request(opening, Ok(key_id), Ok(attributes)) == Ok::<
                DeviceRequestView,
                AeadError,
            >(
                DeviceRequestView {
                    algorithm: construction_of(alg, decrypt_param_of(nonce, tag, additional_data)),
                    key_id,
                    data: encrypted,
                },
            )
            &&& decrypt_result(opening, Ok(key_id), Ok(attributes), plaintext, Ok(true)) == Ok::<
                Seq<u8>,
                AeadError,
            >(plaintext)
        }),
{
    lemma_join_splits(encrypted, tag, alg.tag_length()->Some_0);
}

/// A change in the tag region of a ciphertext reaches the device: two
/// ciphertexts of one length that differ at a place within their last
/// `tag_length` bytes are split into different tags. Where they differ
/// nowhere before that region, the encrypted bytes handed to the device are
/// the same.
pub proof fn lemma_tampered_tag_differs(
    ciphertext: Seq<u8>,
    tampered: Seq<u8>,
    tag_length: usize,
    at: int,
)
    requires
        holds_tag(ciphertext, tag_length),
        tampered.len() == ciphertext.len(),
        ciphertext.len() - tag_length <= at < ciphertext.len(),
        tampered[at] != ciphertext[at],
    ensures
        tag_of(tampered, tag_length) != tag_of(ciphertext, tag_length),
        (forall|i: int| 0 <= i < ciphertext.len() - tag_length ==> tampered[i] == ciphertext[i])
            ==> payload_of(tampered, tag_length) == payload_of(ciphertext, tag_length),
{
    let offset = at - (ciphertext.len() - tag_length);
    assert(tag_of(tampered, tag_length)[offset] == tampered[at]);
    assert(tag_of(ciphertext, tag_length)[offset] == ciphertext[at]);
    if forall|i: int| 0 <= i < ciphertext.len() - tag_length ==> tampered[i] == ciphertext[i] {
        assert(payload_of(tampered, tag_length) =~= payload_of(ciphertext, tag_length));
    }
}

/// A decryption returns data only where the device verified the tag, and
/// then it is the buffer as the device left it. Whatever else the device
/// answers, a tag that did not verify or a failure of its own, the
/// decryption that reached it ends with the one cryptographic failure.
pub proof fn lemma_unverified_data_is_withheld(
    op: DecryptOperationView,
    key_id: Result<u8, ResponseStatus>,
    key_attributes: Result<Attributes, ResponseStatus>,
    data: Seq<u8>,
    outcome: Result<bool, DeviceError>,
)
    ensures
        decrypt_result(op, key_id, key_attributes, data, outcome) matches Ok(plaintext)
            ==> outcome == Ok::<bool, DeviceError>(true) && plaintext == data,
        decrypt_request(op, key_id, key_attributes) is Ok && outcome != Ok::<bool, DeviceError>(
            true,
        ) ==> decrypt_result(op, key_id, key_attributes, data, outcome) == Err::<
            Seq<u8>,
            AeadError,
        >(AeadError::CryptographicFailure),
{
}

/// A ciphertext shorter than the tag of its algorithm is rejected before the
/// device is asked anything: the decryption ends with an error whatever the
/// key store and the device would have answered, and with the cryptographic
/// failure where the key was found and the request passed the validation.
pub proof fn lemma_short_ciphertext_is_rejected(
    op: DecryptOperationView,
    key_id: Result<u8, ResponseStatus>,
    key_attributes: Result<Attributes, ResponseStatus>,
    data: Seq<u8>,
    outcome: Result<bool, DeviceError>,
)
    requires
        op.alg.tag_length() matches Some(tag_length) && op.ciphertext.len() < tag_length,
    ensures
        decrypt_request(op, key_id, key_attributes) is Err,
        decrypt_result(op, key_id, key_attributes, data, outcome) is Err,
        key_id is Ok && (key_attributes matches Ok(attributes) && decrypt_validation(
            op,
            attributes,
        ) is Ok) ==> decrypt_result(op, key_id, key_attributes, data, outcome) == Err::<
            Seq<u8>,
            AeadError,
        >(AeadError::CryptographicFailure),
{
}

/// An encryption whose tag length is more than the device can be told makes
/// no request of the device: it ends with an error whatever the key store and
/// the device would have answered, and with the cryptographic failure where
/// the key was found and the request passed the validation.
pub proof fn lemma_long_tag_length_is_rejected(
    op: EncryptOperationView,
    key_id: Result<u8, ResponseStatus>,
    key_attributes: Result<Attributes, ResponseStatus>,
    data: Seq<u8>,
    outcome: Result<Seq<u8>, DeviceError>,
)
    requires
        op.alg.tag_length() matches Some(tag_length) && !device_takes_tag_length(tag_length),
    ensures
        encrypt_request(op, key_id, key_attributes) is Err,
        encrypt_result(op, key_id, key_attributes, data, outcome) is Err,
        key_id is Ok && (key_attributes matches Ok(attributes) && encrypt_validation(
            op,
            attributes,
        ) is Ok) ==> encrypt_result(op, key_id, key_attributes, data, outcome) == Err::<
            Seq<u8>,
            AeadError,
        >(AeadError::CryptographicFailure),
{
}

/// The device is handed either a tag length or a tag, never both and never
/// neither: an encryption asks for a tag of exactly the resolved length, and
/// a decryption gives the tag to verify, which has exactly the resolved
/// length. The construction is CCM exactly where the algorithm names the CCM
/// family.
pub proof fn lemma_device_request(
    sealing: EncryptOperationView,
    opening: DecryptOperationView,
    key_id: Result<u8, ResponseStatus>,
    key_attributes: Result<Attributes, ResponseStatus>,
)
    ensures
        encrypt_request(sealing, key_id, key_attributes) matches Ok(request) ==> {
            &&& sealing.alg.tag_length() matches Some(tag_length)
            &&& request.algorithm.param().tag matches AeadTagView::Length(length)
            &&& length == tag_length
            &&& request.algorithm is Ccm <==> sealing.alg.is_ccm()
            &&& request.algorithm is Gcm <==> !sealing.alg.is_ccm()
        },
        decrypt_request(opening, key_id, key_attributes) matches Ok(request) ==> {
            &&& opening.alg.tag_length() matches Some(tag_length)
            &&& holds_tag(opening.ciphertext, tag_length)
            &&& request.algorithm.param().tag matches AeadTagView::Value(tag)
            &&& tag == tag_of(opening.ciphertext, tag_length)
            &&& tag.len() == tag_length
            &&& request.algorithm is Ccm <==> opening.alg.is_ccm()
            &&& request.algorithm is Gcm <==> !opening.alg.is_ccm()
        },
{
}

} // verus!
