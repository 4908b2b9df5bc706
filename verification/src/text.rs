//! Decoding of the engine's byte strings as text.

use vstd::prelude::*;
use vstd::utf8::{decode_utf8, valid_utf8};

verus! {

/// Reads `bytes` as UTF-8 text.
///
/// Trusted: the body calls `core::str::from_utf8`. The contract claims what
/// its documentation states: the call succeeds exactly on well-formed UTF-8,
/// and the text it returns is the given bytes read as UTF-8.
#[verifier::external_body]
pub(crate) fn decode_text<'a>(bytes: &'a [u8]) -> (text: Option<&'a str>)
    ensures
        text is Some <==> valid_utf8(bytes@),
        text matches Some(s) ==> s@ == decode_utf8(bytes@),
{
    match core::str::from_utf8(bytes) {
        Ok(s) => Some(s),
        Err(_) => None,
    }
}

/// The texts that a reader yields from `raw` when it starts at `from`: each
/// entry decoded in turn, up to the end or to the first entry that is not
/// well-formed UTF-8.
pub open spec fn texts_from(raw: Seq<Seq<u8>>, from: nat) -> Seq<Seq<char>>
    decreases raw.len() - from,
{
    if from >= raw.len() || !valid_utf8(raw[from as int]) {
        Seq::empty()
    } else {
        seq![decode_utf8(raw[from as int])] + texts_from(raw, from + 1)
    }
}

/// The byte strings behind a table of borrowed slices.
pub open spec fn bytes_of(table: Seq<&[u8]>) -> Seq<Seq<u8>> {
    Seq::new(table.len(), |i: int| table[i]@)
}

/// The texts behind a list of borrowed strings.
pub open spec fn chars_of(list: Seq<&str>) -> Seq<Seq<char>> {
    Seq::new(list.len(), |i: int| list[i]@)
}

/// What a reader yields, stated entry by entry: the decoded form of each
/// entry from `from` on, as far as the entries are well-formed UTF-8 without
/// a gap. The first entry that is not well-formed, and all after it, are
/// left out.
pub proof fn lemma_texts_from(raw: Seq<Seq<u8>>, from: nat)
    requires
        from <= raw.len(),
    ensures
        from + texts_from(raw, from).len() <= raw.len(),
        forall|k: int|
            0 <= k < texts_from(raw, from).len() ==> valid_utf8(#[trigger] raw[from + k])
                && texts_from(raw, from)[k] == decode_utf8(raw[from + k]),
        from + texts_from(raw, from).len() < raw.len() ==> !valid_utf8(
            raw[(from + texts_from(raw, from).len()) as int],
        ),
    decreases raw.len() - from,
{
    if from < raw.len() && valid_utf8(raw[from as int]) {
        lemma_texts_from(raw, from + 1);
        let rest = texts_from(raw, from + 1);
        let all = texts_from(raw, from);
        assert(all == seq![decode_utf8(raw[from as int])] + rest);
        assert forall|k: int| 0 <= k < all.len() implies valid_utf8(#[trigger] raw[from + k])
            && all[k] == decode_utf8(raw[from + k]) by {
            if k > 0 {
                assert(all[k] == rest[k - 1]);
                assert(raw[(from + 1) + (k - 1)] == raw[from + k]);
            }
        }
    }
}

/// Reading moves forward only: where something is still to be yielded, what
/// is to be yielded from the next entry on is the same without its first
/// text.
pub proof fn lemma_texts_from_next(raw: Seq<Seq<u8>>, from: nat)
    requires
        texts_from(raw, from).len() > 0,
    ensures
        from < raw.len(),
        texts_from(raw, from + 1) == texts_from(raw, from).skip(1),
{
    assert(texts_from(raw, from + 1) =~= texts_from(raw, from).skip(1));
}

} // verus!
