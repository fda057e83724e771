//! Algorithm descriptors, tag-length resolution and construction selection.

use vstd::prelude::*;

verus! {

/// Tag length, in bytes, of an algorithm whose tag is not shortened.
pub const DEFAULT_TAG_LENGTH: usize = 16;

/// The family of an AEAD algorithm.
#[derive(Clone, Copy, Debug, PartialEq, Eq, Structural)]
pub enum AeadWithDefaultLengthTag {
    /// The CCM authenticated encryption algorithm.
    Ccm,
    /// The GCM authenticated encryption algorithm.
    Gcm,
    /// The ChaCha20-Poly1305 algorithm, which the device does not offer.
    Chacha20Poly1305,
}

/// An AEAD algorithm as a request names it.
#[derive(Clone, Copy, Debug, PartialEq, Eq, Structural)]
pub enum Aead {
    /// An algorithm with the tag length that its family defaults to.
    AeadWithDefaultLengthTag(AeadWithDefaultLengthTag),
    /// An algorithm whose tag is cut to `tag_length` bytes.
    AeadWithShortenedTag {
        /// The family of the algorithm.
        aead_alg: AeadWithDefaultLengthTag,
        /// Length of the authentication tag in bytes.
        tag_length: usize,
    },
}

impl AeadWithDefaultLengthTag {
    /// The families that the device implements: CCM and GCM.
    pub open spec fn is_supported(self) -> bool {
        self == AeadWithDefaultLengthTag::Ccm || self == AeadWithDefaultLengthTag::Gcm
    }
}

impl Aead {
    /// The family that the descriptor names, whatever its tag length.
    pub open spec fn family(self) -> AeadWithDefaultLengthTag {
        match self {
            Aead::AeadWithDefaultLengthTag(family) => family,
            Aead::AeadWithShortenedTag { aead_alg, .. } => aead_alg,
        }
    }

    /// The tag length that the descriptor asks for: the default unless the
    /// tag is shortened, in which case the length is taken as it is given.
    pub open spec fn requested_tag_length(self) -> usize {
        match self {
            Aead::AeadWithDefaultLengthTag(_) => DEFAULT_TAG_LENGTH,
            Aead::AeadWithShortenedTag { tag_length, .. } => tag_length,
        }
    }

    /// The tag length to use for the descriptor, or `None` where its family
    /// is not one that the device implements.
    pub open spec fn tag_length(self) -> Option<usize> {
        if self.family().is_supported() {
            Some(self.requested_tag_length())
        } else {
            None
        }
    }

    /// Whether the descriptor names the CCM family.
    pub open spec fn is_ccm(self) -> bool {
        self.family() == AeadWithDefaultLengthTag::Ccm
    }
}

/// Resolves the tag length, in bytes, to use with `alg`.
///
/// A shortened tag length is passed through as given: its range is for the
/// device to judge.
pub fn get_tag_length(alg: &Aead) -> (tag_length: Option<usize>)
    ensures
        tag_length == alg.tag_length(),
        tag_length is Some <==> alg.family().is_supported(),
        alg is AeadWithDefaultLengthTag && alg.family().is_supported() ==> tag_length == Some(
            DEFAULT_TAG_LENGTH,
        ),
        alg is AeadWithShortenedTag && alg.family().is_supported() ==> tag_length == Some(
            alg->tag_length,
        ),
{
    match alg {
        Aead::AeadWithDefaultLengthTag(AeadWithDefaultLengthTag::Ccm) => Some(DEFAULT_TAG_LENGTH),
        Aead::AeadWithDefaultLengthTag(AeadWithDefaultLengthTag::Gcm) => Some(DEFAULT_TAG_LENGTH),
        Aead::AeadWithShortenedTag { aead_alg: AeadWithDefaultLengthTag::Ccm, tag_length } => Some(
            *tag_length,
        ),
        Aead::AeadWithShortenedTag { aead_alg: AeadWithDefaultLengthTag::Gcm, tag_length } => Some(
            *tag_length,
        ),
        _ => None,
    }
}

/// Tells which construction the device is to run for `alg`: `true` for CCM,
/// `false` for GCM, which is also the answer for every other descriptor.
pub fn is_ccm_selected(alg: &Aead) -> (ccm: bool)
    ensures
        ccm == alg.is_ccm(),
{
    match alg {
        Aead::AeadWithDefaultLengthTag(AeadWithDefaultLengthTag::Ccm) => true,
        Aead::AeadWithShortenedTag { aead_alg: AeadWithDefaultLengthTag::Ccm, .. } => true,
        _ => false,
    }
}

} // verus!
