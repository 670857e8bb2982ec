//! Dense index encoding: one little-endian `u64` exclusive record end per record.
use vstd::prelude::*;

verus! {

/// Bytes of one index entry.
pub const INDEX_ENTRY_LEN: u64 = 8;

/// The index bytes for the given record ends, in order.
pub open spec fn encode(ends: Seq<u64>) -> Seq<u8>
    decreases ends.len(),
{
    if ends.len() == 0 {
        Seq::empty()
    } else {
        encode(ends.drop_last()) + vstd::bytes::spec_u64_to_le_bytes(ends.last())
    }
}

/// The `index`-th entry of the given index bytes.
pub open spec fn entry(bytes: Seq<u8>, index: int) -> u64 {
    vstd::bytes::spec_u64_from_le_bytes(bytes.subrange(8 * index, 8 * index + 8))
}

/// All complete entries of the given index bytes.
pub open spec fn entries(bytes: Seq<u8>) -> Seq<u64> {
    Seq::new(bytes.len() / 8, |i: int| entry(bytes, i))
}

/// An encoding has one entry of [`INDEX_ENTRY_LEN`] bytes per record.
pub proof fn lemma_encoded_length(ends: Seq<u64>)
    ensures
        encode(ends).len() == INDEX_ENTRY_LEN * ends.len(),
    decreases ends.len(),
{
    vstd::bytes::lemma_auto_spec_u64_to_from_le_bytes();
    if ends.len() > 0 {
        lemma_encoded_length(ends.drop_last());
    }
}

/// Encoding proceeds record by record: a longer sequence appends to a shorter one's bytes.
pub proof fn lemma_encode_concat(first: Seq<u64>, second: Seq<u64>)
    ensures
        encode(first + second) == encode(first) + encode(second),
    decreases second.len(),
{
    if second.len() == 0 {
        assert(first + second =~= first);
    } else {
        lemma_encode_concat(first, second.drop_last());
        assert((first + second).drop_last() =~= first + second.drop_last());
        assert((first + second).last() == second.last());
    }
}

/// Appending one end appends its eight bytes.
pub proof fn lemma_encode_push(ends: Seq<u64>, end: u64)
    ensures
        encode(ends.push(end)) == encode(ends) + vstd::bytes::spec_u64_to_le_bytes(end),
{
    assert(ends.push(end).drop_last() =~= ends);
}

/// Decoding an encoding gives back the record ends.
pub proof fn decode_undoes_encode(ends: Seq<u64>)
    ensures
        entries(encode(ends)) == ends,
    decreases ends.len(),
{
    lemma_encoded_length(ends);
    if ends.len() > 0 {
        let last: int = ends.len() - 1;
        decode_undoes_encode(ends.drop_last());
        lemma_encoded_length(ends.drop_last());
        vstd::bytes::lemma_auto_spec_u64_to_from_le_bytes();
        assert forall|i: int| 0 <= i < ends.len() implies entry(encode(ends), i) == ends[i] by {
            if i == last {
                assert(encode(ends).subrange(8 * i, 8 * i + 8)
                    =~= vstd::bytes::spec_u64_to_le_bytes(ends.last()));
            } else {
                assert(encode(ends).subrange(8 * i, 8 * i + 8)
                    =~= encode(ends.drop_last()).subrange(8 * i, 8 * i + 8));
                assert(entries(encode(ends.drop_last()))[i] == ends.drop_last()[i]);
            }
        }
    }
    assert(entries(encode(ends)) =~= ends);
}

/// Encoding the decoded entries gives back any bytes made of complete entries.
pub proof fn encode_undoes_decode(bytes: Seq<u8>)
    requires
        bytes.len() % 8 == 0,
    ensures
        encode(entries(bytes)) == bytes,
    decreases bytes.len(),
{
    if bytes.len() > 0 {
        let shorter = bytes.take(bytes.len() - 8);
        encode_undoes_decode(shorter);
        let last: int = bytes.len() / 8 - 1;
        let tail = bytes.subrange(8 * last, 8 * last + 8);
        assert(entries(bytes).drop_last() =~= entries(shorter)) by {
            assert forall|i: int| 0 <= i < last implies entry(bytes, i) == entry(shorter, i) by {
                assert(bytes.subrange(8 * i, 8 * i + 8) =~= shorter.subrange(8 * i, 8 * i + 8));
            }
        }
        vstd::bytes::lemma_auto_spec_u64_to_from_le_bytes();
        assert(vstd::bytes::spec_u64_to_le_bytes(vstd::bytes::spec_u64_from_le_bytes(tail)) == tail);
        assert(shorter + tail =~= bytes);
    } else {
        assert(bytes =~= Seq::empty());
    }
}

/// Bytes whose entries are the given ends are those ends' encoding.
pub proof fn lemma_entries_determine_bytes(bytes: Seq<u8>, first: int, ends: Seq<u64>)
    requires
        0 <= first,
        8 * (first + ends.len()) <= bytes.len(),
        forall|i: int| 0 <= i < ends.len() ==> #[trigger] ends[i] == entry(bytes, first + i),
    ensures
        bytes.subrange(8 * first, 8 * (first + ends.len())) == encode(ends),
{
    let part = bytes.subrange(8 * first, 8 * (first + ends.len()));
    encode_undoes_decode(part);
    assert forall|i: int| 0 <= i < ends.len() implies entry(part, i) == ends[i] by {
        assert(part.subrange(8 * i, 8 * i + 8) =~= bytes.subrange(
            8 * (first + i),
            8 * (first + i) + 8,
        ));
    }
    assert(entries(part) =~= ends);
}

/// Appends one entry.
pub fn push_entry(bytes: &mut Vec<u8>, end: u64)
    ensures
        final(bytes)@ == old(bytes)@ + vstd::bytes::spec_u64_to_le_bytes(end),
{
    let mut encoded = vstd::bytes::u64_to_le_bytes(end);
    bytes.append(&mut encoded);
}

/// Reads one complete entry.
pub fn read_entry(bytes: &[u8], index: usize) -> (end: u64)
    requires
        8 * index + 8 <= bytes@.len(),
    ensures
        end == entry(bytes@, index as int),
{
    let length: usize = bytes.len();
    assert(8 * index + 8 <= length);
    let start: usize = 8 * index;
    vstd::bytes::u64_from_le_bytes(vstd::slice::slice_subrange(bytes, start, start + 8))
}

} // verus!
