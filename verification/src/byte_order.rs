use vstd::prelude::*;
use vstd::bytes::{
    lemma_auto_spec_u64_to_from_le_bytes, spec_u64_from_le_bytes, spec_u64_to_le_bytes,
    spec_u64_to_le_bytes_to_open, u64_to_le_bytes,
};
use vstd::endian::{endianness, Endian};

verus! {

/// The order in which the eight bytes of a 64-bit word are laid out in memory.
#[derive(Debug, Clone, Copy, PartialEq, Eq, Structural)]
pub enum ByteOrder {
    LittleEndian,
    BigEndian,
}

/// The eight bytes of `word` in the given order.
pub open spec fn word_to_bytes(word: u64, order: ByteOrder) -> Seq<u8> {
    match order {
        ByteOrder::LittleEndian => spec_u64_to_le_bytes(word),
        ByteOrder::BigEndian => spec_u64_to_le_bytes(word).reverse(),
    }
}

/// The word whose eight bytes, in the given order, are `bytes`.
pub open spec fn word_from_bytes(bytes: Seq<u8>, order: ByteOrder) -> u64 {
    match order {
        ByteOrder::LittleEndian => spec_u64_from_le_bytes(bytes),
        ByteOrder::BigEndian => spec_u64_from_le_bytes(bytes.reverse()),
    }
}

/// The words laid out one after the other, each as its eight bytes in the given order.
pub open spec fn words_to_bytes(words: Seq<u64>, order: ByteOrder) -> Seq<u8>
    decreases words.len(),
{
    if words.len() == 0 {
        Seq::empty()
    } else {
        words_to_bytes(words.drop_last(), order) + word_to_bytes(words.last(), order)
    }
}

/// Reading back the bytes of one word, in the order they were written in, gives the word.
pub proof fn lemma_word_round_trip(word: u64, order: ByteOrder)
    ensures
        word_to_bytes(word, order).len() == 8,
        word_from_bytes(word_to_bytes(word, order), order) == word,
{
    lemma_auto_spec_u64_to_from_le_bytes();
    assert(spec_u64_to_le_bytes(word).reverse().reverse() =~= spec_u64_to_le_bytes(word));
}

/// A buffer of words holds eight bytes per word, and the bytes at `8 * i .. 8 * i + 8`,
/// read in the order they were written in, give back word `i`.
pub proof fn lemma_words_round_trip(words: Seq<u64>, order: ByteOrder)
    ensures
        words_to_bytes(words, order).len() == 8 * words.len(),
        forall|i: int|
            0 <= i < words.len() ==> word_from_bytes(
                #[trigger] words_to_bytes(words, order).subrange(8 * i, 8 * i + 8),
                order,
            ) == words[i],
    decreases words.len(),
{
    if words.len() > 0 {
        let init = words.drop_last();
        lemma_words_round_trip(init, order);
        lemma_word_round_trip(words.last(), order);
        let all = words_to_bytes(words, order);
        let head = words_to_bytes(init, order);
        assert forall|i: int| 0 <= i < words.len() implies word_from_bytes(
            #[trigger] all.subrange(8 * i, 8 * i + 8),
            order,
        ) == words[i] by {
            if i < init.len() {
                assert(all.subrange(8 * i, 8 * i + 8) =~= head.subrange(8 * i, 8 * i + 8));
            } else {
                assert(all.subrange(8 * i, 8 * i + 8) =~= word_to_bytes(words.last(), order));
            }
        }
    }
}

/// The eight bytes of `word` in the given order.
pub fn word_bytes(word: u64, order: ByteOrder) -> (bytes: Vec<u8>)
    ensures
        bytes@ == word_to_bytes(word, order),
{
    let little = u64_to_le_bytes(word);
    match order {
        ByteOrder::LittleEndian => little,
        ByteOrder::BigEndian => {
            let mut big: Vec<u8> = Vec::new();
            let mut k: usize = 8;
            while k > 0
                invariant
                    little@.len() == 8,
                    k <= 8,
                    big@ =~= little@.reverse().subrange(0, 8 - k as int),
                decreases k,
            {
                k = k - 1;
                big.push(little[k]);
            }
            big
        },
    }
}

/// The words laid out one after the other, each as its eight bytes in the given order.
pub fn encode_words(words: &Vec<u64>, order: ByteOrder) -> (bytes: Vec<u8>)
    ensures
        bytes@ == words_to_bytes(words@, order),
{
    let mut bytes: Vec<u8> = Vec::new();
    let mut i: usize = 0;
    while i < words.len()
        invariant
            i <= words.len(),
            bytes@ == words_to_bytes(words@.take(i as int), order),
        decreases words.len() - i,
    {
        let mut chunk = word_bytes(words[i], order);
        proof {
            assert(words@.take(i + 1).drop_last() =~= words@.take(i as int));
        }
        bytes.append(&mut chunk);
        i = i + 1;
    }
    proof {
        assert(words@.take(words.len() as int) =~= words@);
    }
    bytes
}

/// The byte order of the hardware running the code, as vstd's `endianness` abstracts it.
pub open spec fn native_order() -> ByteOrder {
    match endianness() {
        Endian::Little => ByteOrder::LittleEndian,
        Endian::Big => ByteOrder::BigEndian,
    }
}

/// `u64::to_ne_bytes`: std documents the result as the memory representation of `word`
/// in the native byte order of the target, which is little or big endian: the bytes of
/// `word` in the hardware's byte order.
#[verifier::external_body]
fn native_bytes(word: u64) -> (bytes: [u8; 8])
    ensures
        bytes@ == word_to_bytes(word, native_order()),
{
    word.to_ne_bytes()
}

/// The byte order of the machine running the code, found by looking at where the low
/// byte of the word 1 is stored.
pub fn native_byte_order() -> (order: ByteOrder)
    ensures
        order == native_order(),
{
    let probe = native_bytes(1);
    proof {
        spec_u64_to_le_bytes_to_open(1);
        assert((1u64 & 0xff) as u8 == 1u8) by (bit_vector);
        assert(((1u64 >> 56u64) & 0xff) as u8 == 0u8) by (bit_vector);
        assert(spec_u64_to_le_bytes(1)[0] == 1u8);
        assert(spec_u64_to_le_bytes(1).reverse()[0] == 0u8);
    }
    if probe[0] == 1 {
        ByteOrder::LittleEndian
    } else {
        ByteOrder::BigEndian
    }
}

} // verus!
