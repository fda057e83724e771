//! What the device is handed: the construction to run and its parameters.

use crate::algorithm::Aead;
use vstd::prelude::*;

verus! {

/// The tag field of the parameters. Encryption says how long a tag the
/// device is to make; decryption gives the tag that the device is to check.
/// One excludes the other.
#[derive(Clone, Debug, PartialEq, Eq)]
pub enum AeadTag {
    /// Length, in bytes, of the tag to generate.
    Length(u8),
    /// The tag to verify.
    Value(Vec<u8>),
}

/// The parameters of one run of a construction.
#[derive(Clone, Debug, PartialEq, Eq)]
pub struct AeadParam {
    /// The nonce of the request.
    pub nonce: Vec<u8>,
    /// The tag length to generate, or the tag to verify.
    pub tag: AeadTag,
    /// Data that is authenticated but not encrypted.
    pub additional_data: Vec<u8>,
}

/// The construction that the device is to run, with its parameters.
#[derive(Clone, Debug, PartialEq, Eq)]
pub enum AeadAlgorithm {
    /// Counter with CBC-MAC.
    Ccm(AeadParam),
    /// Galois/counter mode.
    Gcm(AeadParam),
}

/// One request to the device: run `algorithm` with the key in slot `key_id`
/// on `data`, which the device overwrites in place.
#[derive(Clone, Debug, PartialEq, Eq)]
pub struct DeviceRequest {
    /// The construction and its parameters.
    pub algorithm: AeadAlgorithm,
    /// The slot of the key.
    pub key_id: u8,
    /// The bytes to encrypt or decrypt.
    pub data: Vec<u8>,
}

/// An [`AeadTag`] as a value of mathematics.
pub enum AeadTagView {
    Length(u8),
    Value(Seq<u8>),
}

/// An [`AeadParam`] as a value of mathematics.
pub struct AeadParamView {
    pub nonce: Seq<u8>,
    pub tag: AeadTagView,
    pub additional_data: Seq<u8>,
}

/// An [`AeadAlgorithm`] as a value of mathematics.
pub enum AeadAlgorithmView {
    Ccm(AeadParamView),
    Gcm(AeadParamView),
}

/// A [`DeviceRequest`] as a value of mathematics.
pub struct DeviceRequestView {
    pub algorithm: AeadAlgorithmView,
    pub key_id: u8,
    pub data: Seq<u8>,
}

impl View for AeadTag {
    type V = AeadTagView;

    open spec fn view(&self) -> AeadTagView {
        match *self {
            AeadTag::Length(length) => AeadTagView::Length(length),
            AeadTag::Value(tag) => AeadTagView::Value(tag@),
        }
    }
}

impl View for AeadParam {
    type V = AeadParamView;

    open spec fn view(&self) -> AeadParamView {
        AeadParamView {
            nonce: self.nonce@,
            tag: self.tag@,
            additional_data: self.additional_data@,
        }
    }
}

impl View for AeadAlgorithm {
    type V = AeadAlgorithmView;

    open spec fn view(&self) -> AeadAlgorithmView {
        match *self {
            AeadAlgorithm::Ccm(param) => AeadAlgorithmView::Ccm(param@),
            AeadAlgorithm::Gcm(param) => AeadAlgorithmView::Gcm(param@),
        }
    }
}

impl View for DeviceRequest {
    type V = DeviceRequestView;

    open spec fn view(&self) -> DeviceRequestView {
        DeviceRequestView { algorithm: self.algorithm@, key_id: self.key_id, data: self.data@ }
    }
}

impl AeadAlgorithmView {
    /// The parameters, whichever the construction.
    pub open spec fn param(self) -> AeadParamView {
        match self {
            AeadAlgorithmView::Ccm(param) => param,
            AeadAlgorithmView::Gcm(param) => param,
        }
    }
}

/// The longest tag that the device can be asked to generate: it takes the
/// length in one byte.
pub const MAX_DEVICE_TAG_LENGTH: usize = 255;

/// Whether the device can be told a tag length as it is.
pub open spec fn device_takes_tag_length(tag_length: usize) -> bool {
    tag_length <= MAX_DEVICE_TAG_LENGTH
}

/// The parameters of an encryption: the nonce and the associated data as they
/// are, and the length of the tag to generate. No tag is given.
pub open spec fn encrypt_param_of(
    nonce: Seq<u8>,
    tag_length: usize,
    additional_data: Seq<u8>,
) -> AeadParamView
    recommends
        device_takes_tag_length(tag_length),
{
    AeadParamView { nonce, tag: AeadTagView::Length(tag_length as u8), additional_data }
}

/// The parameters of a decryption: the nonce and the associated data as they
/// are, and the tag to verify. No tag length is given.
pub open spec fn decrypt_param_of(
    nonce: Seq<u8>,
    tag: Seq<u8>,
    additional_data: Seq<u8>,
) -> AeadParamView {
    AeadParamView { nonce, tag: AeadTagView::Value(tag), additional_data }
}

/// The construction for `alg` around `param`: CCM where `alg` names the CCM
/// family, GCM otherwise.
pub open spec fn construction_of(alg: Aead, param: AeadParamView) -> AeadAlgorithmView {
    if alg.is_ccm() {
        AeadAlgorithmView::Ccm(param)
    } else {
        AeadAlgorithmView::Gcm(param)
    }
}

/// Builds the parameters of an encryption, which carry the tag length as it
/// is given. There are none for a tag length that the device's one byte for
/// it cannot hold: the device is never told another length than the one
/// asked for.
pub fn encrypt_param(nonce: Vec<u8>, tag_length: usize, additional_data: Vec<u8>) -> (param:
    Option<AeadParam>)
    ensures
        param is Some <==> device_takes_tag_length(tag_length),
        param matches Some(built) ==> built@ == encrypt_param_of(
            nonce@,
            tag_length,
            additional_data@,
        ),
{
    if tag_length > MAX_DEVICE_TAG_LENGTH {
        return None;
    }
    Some(AeadParam { nonce, tag: AeadTag::Length(tag_length as u8), additional_data })
}

/// Builds the parameters of a decryption.
pub fn decrypt_param(nonce: Vec<u8>, tag: Vec<u8>, additional_data: Vec<u8>) -> (param: AeadParam)
    ensures
        param@ == decrypt_param_of(nonce@, tag@, additional_data@),
{
    AeadParam { nonce, tag: AeadTag::Value(tag), additional_data }
}

/// Puts the parameters into the construction that `alg` selects.
pub fn select_construction(alg: &Aead, param: AeadParam) -> (algorithm: AeadAlgorithm)
    ensures
        algorithm@ == construction_of(*alg, param@),
{
    if crate::algorithm::is_ccm_selected(alg) {
        AeadAlgorithm::Ccm(param)
    } else {
        AeadAlgorithm::Gcm(param)
    }
}

} // verus!
