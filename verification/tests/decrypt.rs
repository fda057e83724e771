use cryptoauthlib_aead::decrypt::{begin_decrypt, decrypt_finished};
use cryptoauthlib_aead::operation::DecryptOperation;
use cryptoauthlib_aead::parameters::{AeadAlgorithm, AeadParam, AeadTag, DeviceRequest};
use cryptoauthlib_aead::{Aead, AeadError, AeadWithDefaultLengthTag, DeviceError};
use parsec_interface::operations::psa_algorithm;
use parsec_interface::operations::psa_key_attributes::{
    Attributes, Lifetime, Policy, Type, UsageFlags,
};
use parsec_interface::requests::ResponseStatus;

const GCM: Aead = Aead::AeadWithDefaultLengthTag(AeadWithDefaultLengthTag::Gcm);
const CCM: Aead = Aead::AeadWithDefaultLengthTag(AeadWithDefaultLengthTag::Ccm);

fn wire_alg(alg: Aead) -> psa_algorithm::Aead {
    let family = |aead_alg| match aead_alg {
        AeadWithDefaultLengthTag::Ccm => psa_algorithm::AeadWithDefaultLengthTag::Ccm,
        AeadWithDefaultLengthTag::Gcm => psa_algorithm::AeadWithDefaultLengthTag::Gcm,
        AeadWithDefaultLengthTag::Chacha20Poly1305 => {
            psa_algorithm::AeadWithDefaultLengthTag::Chacha20Poly1305
        }
    };
    match alg {
        Aead::AeadWithDefaultLengthTag(aead_alg) => {
            psa_algorithm::Aead::AeadWithDefaultLengthTag(family(aead_alg))
        }
        Aead::AeadWithShortenedTag { aead_alg, tag_length } => {
            psa_algorithm::Aead::AeadWithShortenedTag { aead_alg: family(aead_alg), tag_length }
        }
    }
}

fn decrypting_key(permitted: Aead, key_type: Type) -> Attributes {
    let mut usage_flags = UsageFlags::default();
    let _ = usage_flags.set_decrypt();
    Attributes {
        lifetime: Lifetime::Persistent,
        key_type,
        bits: 128,
        policy: Policy { usage_flags, permitted_algorithms: wire_alg(permitted).into() },
    }
}

fn operation(alg: Aead, nonce: Vec<u8>, additional_data: Vec<u8>, ciphertext: Vec<u8>) -> DecryptOperation {
    DecryptOperation { key_name: String::from("aes key"), alg, nonce, additional_data, ciphertext }
}

fn request_for(op: DecryptOperation, key_id: u8, key_attributes: Attributes) -> Result<DeviceRequest, AeadError> {
    begin_decrypt(op)?.key_id_resolved(Ok(key_id))?.key_attributes_fetched(Ok(key_attributes))
}

#[test]
fn decrypt_with_unsupported_algorithm_ends_at_the_first_step() {
    let alg = Aead::AeadWithDefaultLengthTag(AeadWithDefaultLengthTag::Chacha20Poly1305);
    let step = begin_decrypt(operation(alg, vec![1; 12], vec![], vec![0; 21]));
    assert_eq!(step.unwrap_err(), AeadError::UnsupportedAlgorithm);
}

#[test]
fn decrypt_with_unsupported_shortened_algorithm_ends_at_the_first_step() {
    let alg = Aead::AeadWithShortenedTag {
        aead_alg: AeadWithDefaultLengthTag::Chacha20Poly1305,
        tag_length: 12,
    };
    let step = begin_decrypt(operation(alg, vec![1; 12], vec![], vec![0; 21]));
    assert_eq!(step.unwrap_err(), AeadError::UnsupportedAlgorithm);
}

#[test]
fn decrypt_asks_for_the_key_by_its_name() {
    let awaiting_id = begin_decrypt(operation(GCM, vec![1; 12], vec![], vec![0; 21])).unwrap();
    assert_eq!(awaiting_id.key_name(), "aes key");
    let awaiting_attributes = awaiting_id.key_id_resolved(Ok(7)).unwrap();
    assert_eq!(awaiting_attributes.key_name(), "aes key");
}

#[test]
fn decrypt_passes_on_the_error_of_the_key_id_lookup() {
    let awaiting_id = begin_decrypt(operation(GCM, vec![1; 12], vec![], vec![0; 21])).unwrap();
    let step = awaiting_id.key_id_resolved(Err(ResponseStatus::PsaErrorDoesNotExist));
    assert_eq!(
        step.unwrap_err(),
        AeadError::KeyResolutionFailure(ResponseStatus::PsaErrorDoesNotExist)
    );
}

#[test]
fn decrypt_passes_on_the_error_of_the_attributes_lookup() {
    let awaiting = begin_decrypt(operation(GCM, vec![1; 12], vec![], vec![0; 21]))
        .unwrap()
        .key_id_resolved(Ok(2))
        .unwrap();
    let step = awaiting.key_attributes_fetched(Err(ResponseStatus::PsaErrorStorageFailure));
    assert_eq!(
        step.unwrap_err(),
        AeadError::KeyResolutionFailure(ResponseStatus::PsaErrorStorageFailure)
    );
}

#[test]
fn decrypt_request_for_gcm_with_default_tag() {
    let mut ciphertext = vec![1, 2, 3, 4, 5];
    ciphertext.extend(100u8..116);
    let op = operation(GCM, vec![3; 12], vec![], ciphertext);
    let request = request_for(op, 5, decrypting_key(GCM, Type::Aes)).unwrap();
    assert_eq!(
        request,
        DeviceRequest {
            algorithm: AeadAlgorithm::Gcm(AeadParam {
                nonce: vec![3; 12],
                tag: AeadTag::Value((100u8..116).collect()),
                additional_data: vec![],
            }),
            key_id: 5,
            data: vec![1, 2, 3, 4, 5],
        }
    );
}

#[test]
fn decrypt_request_for_shortened_ccm() {
    let alg = Aead::AeadWithShortenedTag { aead_alg: AeadWithDefaultLengthTag::Ccm, tag_length: 4 };
    let op = operation(alg, vec![3; 13], vec![1, 2, 3], vec![10, 20, 30, 40, 50, 60]);
    let request = request_for(op, 9, decrypting_key(alg, Type::Aes)).unwrap();
    assert_eq!(
        request,
        DeviceRequest {
            algorithm: AeadAlgorithm::Ccm(AeadParam {
                nonce: vec![3; 13],
                tag: AeadTag::Value(vec![30, 40, 50, 60]),
                additional_data: vec![1, 2, 3],
            }),
            key_id: 9,
            data: vec![10, 20],
        }
    );
}

#[test]
fn decrypt_request_for_a_ciphertext_that_is_all_tag() {
    let op = operation(CCM, vec![3; 13], vec![], vec![7; 16]);
    let request = request_for(op, 9, decrypting_key(CCM, Type::Aes)).unwrap();
    assert_eq!(request.data, Vec::<u8>::new());
    assert_eq!(
        request.algorithm,
        AeadAlgorithm::Ccm(AeadParam {
            nonce: vec![3; 13],
            tag: AeadTag::Value(vec![7; 16]),
            additional_data: vec![],
        })
    );
}

#[test]
fn decrypt_of_a_ciphertext_shorter_than_the_tag_is_rejected() {
    let op = operation(GCM, vec![3; 12], vec![], vec![7; 15]);
    let step = request_for(op, 9, decrypting_key(GCM, Type::Aes));
    assert_eq!(step.unwrap_err(), AeadError::CryptographicFailure);
}

#[test]
fn decrypt_of_a_ciphertext_one_byte_short_of_a_shortened_tag_is_rejected() {
    let alg = Aead::AeadWithShortenedTag { aead_alg: AeadWithDefaultLengthTag::Ccm, tag_length: 6 };
    let op = operation(alg, vec![3; 12], vec![], vec![7; 5]);
    let step = request_for(op, 9, decrypting_key(alg, Type::Aes));
    assert_eq!(step.unwrap_err(), AeadError::CryptographicFailure);
}

#[test]
fn decrypt_of_a_short_ciphertext_does_not_underflow_on_a_huge_tag_length() {
    let alg = Aead::AeadWithShortenedTag {
        aead_alg: AeadWithDefaultLengthTag::Gcm,
        tag_length: usize::MAX,
    };
    let awaiting = begin_decrypt(operation(alg, vec![3; 12], vec![], vec![7; 40]))
        .unwrap()
        .key_id_resolved(Ok(1))
        .unwrap();
    assert_eq!(awaiting.validated(Ok(())).unwrap_err(), AeadError::CryptographicFailure);
}

#[test]
fn decrypt_of_a_short_ciphertext_is_rejected_the_same_way_each_time() {
    for _ in 0..3 {
        let op = operation(CCM, vec![3; 12], vec![5], vec![1, 2, 3]);
        let step = request_for(op, 9, decrypting_key(CCM, Type::Aes));
        assert_eq!(step, Err(AeadError::CryptographicFailure));
    }
}

#[test]
fn decrypt_reports_a_missing_key_before_a_short_ciphertext() {
    let awaiting_id = begin_decrypt(operation(GCM, vec![3; 12], vec![], vec![7; 3])).unwrap();
    let step = awaiting_id.key_id_resolved(Err(ResponseStatus::PsaErrorDoesNotExist));
    assert_eq!(
        step.unwrap_err(),
        AeadError::KeyResolutionFailure(ResponseStatus::PsaErrorDoesNotExist)
    );
}

#[test]
fn decrypt_is_refused_where_the_key_may_not_decrypt() {
    let mut attributes = decrypting_key(GCM, Type::Aes);
    attributes.policy.usage_flags = UsageFlags::default();
    let step = request_for(operation(GCM, vec![3; 12], vec![], vec![0; 21]), 5, attributes);
    assert_eq!(
        step.unwrap_err(),
        AeadError::ValidationFailure(ResponseStatus::PsaErrorNotPermitted)
    );
}

#[test]
fn decrypt_is_refused_where_the_policy_names_another_algorithm() {
    let step = request_for(
        operation(CCM, vec![3; 12], vec![], vec![0; 21]),
        5,
        decrypting_key(GCM, Type::Aes),
    );
    assert_eq!(
        step.unwrap_err(),
        AeadError::ValidationFailure(ResponseStatus::PsaErrorNotPermitted)
    );
}

#[test]
fn decrypt_is_refused_where_the_key_type_does_not_fit() {
    let step = request_for(
        operation(GCM, vec![3; 12], vec![], vec![0; 21]),
        5,
        decrypting_key(GCM, Type::RawData),
    );
    assert_eq!(
        step.unwrap_err(),
        AeadError::ValidationFailure(ResponseStatus::PsaErrorNotPermitted)
    );
}

#[test]
fn decrypt_of_an_empty_ciphertext_is_refused_by_the_validation() {
    let step = request_for(
        operation(GCM, vec![3; 12], vec![], vec![]),
        5,
        decrypting_key(GCM, Type::Aes),
    );
    assert_eq!(
        step.unwrap_err(),
        AeadError::ValidationFailure(ResponseStatus::PsaErrorInvalidArgument)
    );
}

#[test]
fn decrypt_with_an_empty_nonce_is_refused() {
    let step = request_for(
        operation(GCM, vec![], vec![], vec![0; 21]),
        5,
        decrypting_key(GCM, Type::Aes),
    );
    assert_eq!(
        step.unwrap_err(),
        AeadError::ValidationFailure(ResponseStatus::PsaErrorInvalidArgument)
    );
}

#[test]
fn decrypt_validated_passes_on_the_error_of_the_validation() {
    let awaiting = begin_decrypt(operation(GCM, vec![1; 12], vec![], vec![0; 21]))
        .unwrap()
        .key_id_resolved(Ok(2))
        .unwrap();
    let step = awaiting.validated(Err(ResponseStatus::PsaErrorNotPermitted));
    assert_eq!(
        step.unwrap_err(),
        AeadError::ValidationFailure(ResponseStatus::PsaErrorNotPermitted)
    );
}

#[test]
fn decrypt_result_is_the_buffer_where_the_tag_verified() {
    assert_eq!(decrypt_finished(b"hello".to_vec(), Ok(true)), Ok(b"hello".to_vec()));
}

#[test]
fn decrypt_result_of_a_tag_that_did_not_verify_is_the_cryptographic_failure() {
    assert_eq!(
        decrypt_finished(b"hello".to_vec(), Ok(false)),
        Err(AeadError::CryptographicFailure)
    );
}

#[test]
fn decrypt_result_of_a_device_failure_is_the_cryptographic_failure() {
    assert_eq!(
        decrypt_finished(b"hello".to_vec(), Err(DeviceError)),
        Err(AeadError::CryptographicFailure)
    );
}
