//! The ciphertext on the wire: the encrypted bytes followed by the tag.

use vstd::prelude::*;

verus! {

/// The encrypted bytes with the tag behind them.
pub open spec fn joined(data: Seq<u8>, tag: Seq<u8>) -> Seq<u8> {
    data + tag
}

/// Whether a ciphertext is long enough to end in a tag of `tag_length` bytes.
pub open spec fn holds_tag(ciphertext: Seq<u8>, tag_length: usize) -> bool {
    tag_length <= ciphertext.len()
}

/// The encrypted bytes of a ciphertext: all but its last `tag_length` bytes.
pub open spec fn payload_of(ciphertext: Seq<u8>, tag_length: usize) -> Seq<u8>
    recommends
        holds_tag(ciphertext, tag_length),
{
    ciphertext.subrange(0, ciphertext.len() - tag_length)
}

/// The tag of a ciphertext: its last `tag_length` bytes.
pub open spec fn tag_of(ciphertext: Seq<u8>, tag_length: usize) -> Seq<u8>
    recommends
        holds_tag(ciphertext, tag_length),
{
    ciphertext.subrange(ciphertext.len() - tag_length, ciphertext.len() as int)
}

/// Forms the ciphertext from what the device returned: the tag goes behind
/// the encrypted bytes.
pub fn append_tag(data: Vec<u8>, tag: Vec<u8>) -> (ciphertext: Vec<u8>)
    ensures
        ciphertext@ == joined(data@, tag@),
{
    let mut ciphertext = data;
    let mut tag = tag;
    ciphertext.append(&mut tag);
    ciphertext
}

/// Splits a ciphertext into the encrypted bytes and the tag, which is its
/// last `tag_length` bytes. A ciphertext shorter than the tag gives `None`.
pub fn split_ciphertext(ciphertext: Vec<u8>, tag_length: usize) -> (parts: Option<
    (Vec<u8>, Vec<u8>),
>)
    ensures
        parts is Some <==> holds_tag(ciphertext@, tag_length),
        parts matches Some((payload, tag)) ==> payload@ == payload_of(ciphertext@, tag_length)
            && tag@ == tag_of(ciphertext@, tag_length),
{
    if ciphertext.len() < tag_length {
        return None;
    }
    let mut payload = ciphertext;
    let tag = payload.split_off(payload.len() - tag_length);
    Some((payload, tag))
}

/// A ciphertext that holds a tag is its payload followed by its tag, and the
/// two parts have the lengths that the tag length fixes.
pub proof fn lemma_split_joins(ciphertext: Seq<u8>, tag_length: usize)
    requires
        holds_tag(ciphertext, tag_length),
    ensures
        joined(payload_of(ciphertext, tag_length), tag_of(ciphertext, tag_length)) == ciphertext,
        payload_of(ciphertext, tag_length).len() == ciphertext.len() - tag_length,
        tag_of(ciphertext, tag_length).len() == tag_length,
{
    assert(joined(payload_of(ciphertext, tag_length), tag_of(ciphertext, tag_length))
        =~= ciphertext);
}

/// Splitting what was joined gives the two parts back, where the split is
/// made at the tag's own length.
pub proof fn lemma_join_splits(data: Seq<u8>, tag: Seq<u8>, tag_length: usize)
    requires
        tag.len() == tag_length,
    ensures
        holds_tag(joined(data, tag), tag_length),
        payload_of(joined(data, tag), tag_length) == data,
        tag_of(joined(data, tag), tag_length) == tag,
{
    assert(payload_of(joined(data, tag), tag_length) =~= data);
    assert(tag_of(joined(data, tag), tag_length) =~= tag);
}

} // verus!
