use vstd::prelude::*;

verus! {

/// The four bytes of `x`, least significant first.
pub open spec fn le_bytes_u32(x: u32) -> Seq<u8> {
    seq![
        (x & 0xff) as u8,
        ((x >> 8u32) & 0xff) as u8,
        ((x >> 16u32) & 0xff) as u8,
        ((x >> 24u32) & 0xff) as u8,
    ]
}

/// The number that four bytes, least significant first, stand for.
pub open spec fn le_value_u32(s: Seq<u8>) -> u32
    recommends
        s.len() == 4,
{
    (s[0] as u32) | ((s[1] as u32) << 8u32) | ((s[2] as u32) << 16u32) | ((s[3] as u32) << 24u32)
}

/// Reading back the four bytes of a `u32` gives the `u32`.
pub proof fn lemma_le_u32_roundtrip(x: u32)
    ensures
        le_bytes_u32(x).len() == 4,
        le_value_u32(le_bytes_u32(x)) == x,
{
    let b0 = (x & 0xff) as u8;
    let b1 = ((x >> 8u32) & 0xff) as u8;
    let b2 = ((x >> 16u32) & 0xff) as u8;
    let b3 = ((x >> 24u32) & 0xff) as u8;
    assert(((b0 as u32) | ((b1 as u32) << 8u32) | ((b2 as u32) << 16u32) | ((b3 as u32) << 24u32))
        == x) by (bit_vector)
        requires
            b0 == (x & 0xff) as u8,
            b1 == ((x >> 8u32) & 0xff) as u8,
            b2 == ((x >> 16u32) & 0xff) as u8,
            b3 == ((x >> 24u32) & 0xff) as u8,
    ;
}

/// Encodes two words, each least significant byte first: the first word's
/// four bytes, then the second's.
pub(crate) fn two_words_le(first: u32, second: u32) -> (bytes: [u8; 8])
    ensures
        bytes@ == le_bytes_u32(first) + le_bytes_u32(second),
{
    let bytes: [u8; 8] = [
        (first & 0xff) as u8,
        ((first >> 8u32) & 0xff) as u8,
        ((first >> 16u32) & 0xff) as u8,
        ((first >> 24u32) & 0xff) as u8,
        (second & 0xff) as u8,
        ((second >> 8u32) & 0xff) as u8,
        ((second >> 16u32) & 0xff) as u8,
        ((second >> 24u32) & 0xff) as u8,
    ];
    assert(bytes@ =~= le_bytes_u32(first) + le_bytes_u32(second));
    bytes
}

/// The header bytes read back to the two words they encode: bytes 0..4 give
/// the first word and bytes 4..8 the second, whatever the words are.
pub proof fn lemma_two_words_read_back(first: u32, second: u32)
    ensures
        (le_bytes_u32(first) + le_bytes_u32(second)).len() == 8,
        le_value_u32((le_bytes_u32(first) + le_bytes_u32(second)).subrange(0, 4)) == first,
        le_value_u32((le_bytes_u32(first) + le_bytes_u32(second)).subrange(4, 8)) == second,
{
    lemma_le_u32_roundtrip(first);
    lemma_le_u32_roundtrip(second);
    let s = le_bytes_u32(first) + le_bytes_u32(second);
    assert(s.subrange(0, 4) =~= le_bytes_u32(first));
    assert(s.subrange(4, 8) =~= le_bytes_u32(second));
}

} // verus!
