//! Validation of a request against the attributes of its key.

use crate::algorithm::{Aead, AeadWithDefaultLengthTag};
use crate::operation::{
    DecryptOperation, DecryptOperationView, EncryptOperation, EncryptOperationView,
};
use parsec_interface::operations::psa_key_attributes::Attributes;
use parsec_interface::operations::{psa_aead_decrypt, psa_aead_encrypt, psa_algorithm};
use parsec_interface::requests::ResponseStatus;
use vstd::prelude::*;

verus! {

/// The attributes of a key: its type, its size and the policy on its use.
/// The library hands them from the key store to the validation and never
/// looks inside.
#[verifier::external_type_specification]
#[verifier::external_body]
pub struct ExAttributes(Attributes);

/// What `parsec_interface::operations::psa_aead_encrypt::Operation::validate`
/// answers for an encryption request and the attributes of its key: `Ok`
/// where the key may encrypt, its policy permits the request's algorithm, its
/// type fits the algorithm, and neither the plaintext nor the nonce is
/// empty; else the status that says what is amiss.
pub uninterp spec fn encrypt_validation(
    op: EncryptOperationView,
    key_attributes: Attributes,
) -> Result<(), ResponseStatus>;

/// What `parsec_interface::operations::psa_aead_decrypt::Operation::validate`
/// answers for a decryption request and the attributes of its key: `Ok`
/// where the key may decrypt, its policy permits the request's algorithm, its
/// type fits the algorithm, and neither the ciphertext nor the nonce is
/// empty; else the status that says what is amiss.
pub uninterp spec fn decrypt_validation(
    op: DecryptOperationView,
    key_attributes: Attributes,
) -> Result<(), ResponseStatus>;

/// Calls `parsec_interface::operations::psa_aead_encrypt::Operation::validate`
/// on the request and the attributes of its key.
///
/// The validation is the outside crate's, and nothing of it is proved here.
/// Its answer is taken to depend on the request and the attributes alone.
/// The one thing claimed of the answer is what version 0.30 of the crate
/// looks at last: a request with an empty plaintext or an empty nonce is never
/// accepted.
#[verifier::external_body]
pub(crate) fn validate_encrypt(op: &EncryptOperation, key_attributes: Attributes) -> (outcome:
    Result<(), ResponseStatus>)
    ensures
        outcome == encrypt_validation(op@, key_attributes),
        op.plaintext@.len() == 0 || op.nonce@.len() == 0 ==> outcome is Err,
{
    let family = |aead_alg| match aead_alg {
        AeadWithDefaultLengthTag::Ccm => psa_algorithm::AeadWithDefaultLengthTag::Ccm,
        AeadWithDefaultLengthTag::Gcm => psa_algorithm::AeadWithDefaultLengthTag::Gcm,
        AeadWithDefaultLengthTag::Chacha20Poly1305 => psa_algorithm::AeadWithDefaultLengthTag::Chacha20Poly1305,
    };
    let alg = match op.alg {
        Aead::AeadWithDefaultLengthTag(aead_alg) => psa_algorithm::Aead::AeadWithDefaultLengthTag(family(aead_alg)),
        Aead::AeadWithShortenedTag { aead_alg, tag_length } => psa_algorithm::Aead::AeadWithShortenedTag { aead_alg: family(aead_alg), tag_length },
    };
    let (nonce, additional_data) = (op.nonce.clone().into(), op.additional_data.clone().into());
    let (key_name, plaintext) = (op.key_name.clone(), op.plaintext.clone().into());
    psa_aead_encrypt::Operation { key_name, alg, nonce, additional_data, plaintext }.validate(key_attributes)
}

/// Calls `parsec_interface::operations::psa_aead_decrypt::Operation::validate`
/// on the request and the attributes of its key.
///
/// The validation is the outside crate's, and nothing of it is proved here.
/// Its answer is taken to depend on the request and the attributes alone.
/// The one thing claimed of the answer is what version 0.30 of the crate
/// looks at last: a request with an empty ciphertext or an empty nonce is
/// never accepted.
#[verifier::external_body]
pub(crate) fn validate_decrypt(op: &DecryptOperation, key_attributes: Attributes) -> (outcome:
    Result<(), ResponseStatus>)
    ensures
        outcome == decrypt_validation(op@, key_attributes),
        op.ciphertext@.len() == 0 || op.nonce@.len() == 0 ==> outcome is Err,
{
    let family = |aead_alg| match aead_alg {
        AeadWithDefaultLengthTag::Ccm => psa_algorithm::AeadWithDefaultLengthTag::Ccm,
        AeadWithDefaultLengthTag::Gcm => psa_algorithm::AeadWithDefaultLengthTag::Gcm,
        AeadWithDefaultLengthTag::Chacha20Poly1305 => psa_algorithm::AeadWithDefaultLengthTag::Chacha20Poly1305,
    };
    let alg = match op.alg {
        Aead::AeadWithDefaultLengthTag(aead_alg) => psa_algorithm::Aead::AeadWithDefaultLengthTag(family(aead_alg)),
        Aead::AeadWithShortenedTag { aead_alg, tag_length } => psa_algorithm::Aead::AeadWithShortenedTag { aead_alg: family(aead_alg), tag_length },
    };
    let (nonce, additional_data) = (op.nonce.clone().into(), op.additional_data.clone().into());
    let (key_name, ciphertext) = (op.key_name.clone(), op.ciphertext.clone().into());
    psa_aead_decrypt::Operation { key_name, alg, nonce, additional_data, ciphertext }.validate(key_attributes)
}

} // verus!
