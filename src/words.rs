use vstd::prelude::*;

verus! {

/// Byte `k` of the little-endian encoding of a sequence of 32-bit words.
pub open spec fn le_byte(words: Seq<u32>, k: int) -> u8 {
    (words[k / 4] >> ((8 * (k % 4)) as u32)) as u8
}

/// The little-endian encoding of a sequence of 32-bit words: four bytes per
/// word, least significant byte first, words in order.
pub open spec fn le_bytes_of_words(words: Seq<u32>) -> Seq<u8> {
    Seq::new(4 * words.len(), |k: int| le_byte(words, k))
}

/// Encodes eight 32-bit words as 32 bytes, each word little-endian.
pub fn words_to_bytes_le(words: &[u32; 8]) -> (bytes: [u8; 32])
    ensures
        bytes@ == le_bytes_of_words(words@),
{
    let mut bytes = [0u8; 32];
    let mut k: usize = 0;
    while k < 32
        invariant
            k <= 32,
            bytes@.len() == 32,
            words@.len() == 8,
            forall|m: int| 0 <= m < k ==> bytes@[m] == le_byte(words@, m),
        decreases 32 - k,
    {
        let shift: u32 = (8 * (k % 4)) as u32;
        bytes[k] = (words[k / 4] >> shift) as u8;
        k = k + 1;
    }
    assert(bytes@ =~= le_bytes_of_words(words@));
    bytes
}

} // verus!
