//! The seed of the generator: the 32 bytes at the end of the chain, read as
//! eight big-endian 32-bit words.

use vstd::prelude::*;
use vstd::slice::slice_subrange;

verus! {

/// The number of 32-bit words in a seed.
pub const SEED_WORDS: usize = 8;

/// The word that four bytes spell, most significant byte first.
pub open spec fn be_word(bytes: Seq<u8>) -> u32 {
    (bytes[0] * 0x100_0000 + bytes[1] * 0x1_0000 + bytes[2] * 0x100 + bytes[3]) as u32
}

/// The four bytes that spell a word, most significant byte first.
pub open spec fn word_bytes(word: u32) -> Seq<u8> {
    seq![
        (word / 0x100_0000) as u8,
        (word / 0x1_0000 % 0x100) as u8,
        (word / 0x100 % 0x100) as u8,
        (word % 0x100) as u8,
    ]
}

/// The words of a seed: word `i` is spelled by bytes `4i` to `4i + 3`.
pub open spec fn seed_words(hash: Seq<u8>) -> Seq<u32> {
    Seq::new(hash.len() / 4, |i: int| be_word(hash.subrange(4 * i, 4 * i + 4)))
}

/// The bytes that spell a sequence of words, word after word.
pub open spec fn seed_bytes(words: Seq<u32>) -> Seq<u8> {
    Seq::new(4 * words.len(), |j: int| word_bytes(words[j / 4])[j % 4])
}

/// Reads one big-endian word with `byteorder::ReadBytesExt::read_u32` from
/// the front of a slice: the word spelled by its first four bytes, and
/// nothing if the slice is shorter than that.
#[verifier::external_body]
fn read_be_word(bytes: &[u8]) -> (word: Option<u32>)
    ensures
        bytes@.len() >= 4 ==> word == Some(be_word(bytes@.subrange(0, 4))),
        bytes@.len() < 4 ==> word is None,
{
    let mut rest = bytes;
    byteorder::ReadBytesExt::read_u32::<byteorder::BigEndian>(&mut rest).ok()
}

/// Four bytes spell one word, and that word spells the same four bytes.
pub proof fn lemma_word_keeps_bytes(bytes: Seq<u8>)
    requires
        bytes.len() == 4,
    ensures
        word_bytes(be_word(bytes)) == bytes,
{
    let w = bytes[0] * 0x100_0000 + bytes[1] * 0x1_0000 + bytes[2] * 0x100 + bytes[3];
    assert(0 <= w <= u32::MAX);
    assert(word_bytes(be_word(bytes)) =~= bytes);
}

/// The seed takes in the whole hash: it has eight words, and spelling them
/// out again gives back all 32 bytes, each in its place.
pub proof fn lemma_seed_keeps_every_byte(hash: Seq<u8>)
    requires
        hash.len() == 32,
    ensures
        seed_words(hash).len() == SEED_WORDS,
        seed_bytes(seed_words(hash)) == hash,
{
    let words = seed_words(hash);
    assert forall|j: int| 0 <= j < 32 implies seed_bytes(words)[j] == hash[j] by {
        let i = j / 4;
        let chunk = hash.subrange(4 * i, 4 * i + 4);
        lemma_word_keeps_bytes(chunk);
        assert(word_bytes(be_word(chunk))[j % 4] == chunk[j % 4]);
    }
    assert(seed_bytes(words) =~= hash);
}

/// Two hashes with the same seed are the same hash.
pub proof fn lemma_seed_is_injective(a: Seq<u8>, b: Seq<u8>)
    requires
        a.len() == 32,
        b.len() == 32,
        seed_words(a) == seed_words(b),
    ensures
        a == b,
{
    lemma_seed_keeps_every_byte(a);
    lemma_seed_keeps_every_byte(b);
}

/// The seed of the generator: the final hash as eight big-endian words.
pub fn seed_from_hash(hash: &[u8; 32]) -> (seed: [u32; 8])
    ensures
        seed@ == seed_words(hash@),
{
    let bytes = hash.as_slice();
    let mut seed = [0u32; 8];
    let mut i: usize = 0;
    while i < SEED_WORDS
        invariant
            i <= SEED_WORDS,
            bytes@ == hash@,
            forall|k: int| 0 <= k < i ==> seed@[k] == be_word(hash@.subrange(4 * k, 4 * k + 4)),
        decreases SEED_WORDS - i,
    {
        let chunk = slice_subrange(bytes, 4 * i, 4 * i + 4);
        assert(chunk@.subrange(0, 4) == chunk@);
        match read_be_word(chunk) {
            Some(word) => {
                seed[i] = word;
            },
            None => {
                proof {
                    assert(false);
                }
            },
        }
        i += 1;
    }
    assert(seed@ =~= seed_words(hash@));
    seed
}

} // verus!
