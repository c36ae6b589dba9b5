//! The parameters of the simulation and their layout in the uniform buffer.

use vstd::prelude::*;
use crate::binary32::{binary32_bits, to_binary32};
use crate::kernel::GOLKernels;

verus! {

/// The parameters that the shader reads, each as the bit pattern of an
/// IEEE 754 single-precision number.
#[derive(Clone, Copy, Debug, PartialEq, Eq, Structural)]
pub struct GOLParams {
    /// A number drawn at random when the process starts.
    pub random_float: u32,
    /// The total weight of the outer kernel.
    pub outer_kernel_area: u32,
    /// The total weight of the inner kernel.
    pub inner_kernel_area: u32,
}

/// The four bytes of a word, the lowest first.
pub open spec fn le_bytes(word: u32) -> Seq<u8> {
    seq![
        (word % 256) as u8,
        ((word / 256) % 256) as u8,
        ((word / 65536) % 256) as u8,
        (word / 16777216) as u8,
    ]
}

/// The word whose four bytes, the lowest first, begin at `at` in `bytes`.
pub open spec fn le_word(bytes: Seq<u8>, at: int) -> u32 {
    (bytes[at] + 256 * bytes[at + 1] + 65536 * bytes[at + 2] + 16777216 * bytes[at + 3]) as u32
}

/// The parameters that twelve bytes hold; none for any other number of bytes.
pub open spec fn parse(bytes: Seq<u8>) -> Option<GOLParams> {
    if bytes.len() == 12 {
        Some(
            GOLParams {
                random_float: le_word(bytes, 0),
                outer_kernel_area: le_word(bytes, 4),
                inner_kernel_area: le_word(bytes, 8),
            },
        )
    } else {
        None
    }
}

impl GOLParams {
    /// The contents of the uniform buffer: the three numbers in the order of
    /// the fields, four bytes each, the lowest byte first, nothing between
    /// them.
    pub open spec fn bytes(self) -> Seq<u8> {
        le_bytes(self.random_float) + le_bytes(self.outer_kernel_area) + le_bytes(
            self.inner_kernel_area,
        )
    }

    /// Pairs the number drawn at random with the total weights of the two
    /// kernels, each turned into the nearest single-precision number.
    pub fn new(random_float: u32, kernels: &GOLKernels) -> (params: GOLParams)
        ensures
            params.random_float == random_float,
            params.outer_kernel_area == binary32_bits(kernels.outer_kernel.area as nat),
            params.inner_kernel_area == binary32_bits(kernels.inner_kernel.area as nat),
    {
        GOLParams {
            random_float,
            outer_kernel_area: to_binary32(kernels.outer_kernel.area),
            inner_kernel_area: to_binary32(kernels.inner_kernel.area),
        }
    }

    /// Lays the parameters out as the uniform buffer holds them.
    pub fn to_bytes(&self) -> (bytes: Vec<u8>)
        ensures
            bytes@ == self.bytes(),
            bytes@.len() == 12,
    {
        let mut bytes: Vec<u8> = Vec::new();
        push_word(&mut bytes, self.random_float);
        push_word(&mut bytes, self.outer_kernel_area);
        push_word(&mut bytes, self.inner_kernel_area);
        assert(bytes@ =~= self.bytes());
        bytes
    }

    /// Reads parameters back from the bytes of a uniform buffer. There are
    /// none unless the bytes are twelve.
    pub fn from_bytes(bytes: &[u8]) -> (params: Option<GOLParams>)
        ensures
            params == parse(bytes@),
    {
        if bytes.len() != 12 {
            return None;
        }
        Some(
            GOLParams {
                random_float: word_at(bytes, 0),
                outer_kernel_area: word_at(bytes, 4),
                inner_kernel_area: word_at(bytes, 8),
            },
        )
    }
}

/// Appends the four bytes of `word`, the lowest first.
fn push_word(bytes: &mut Vec<u8>, word: u32)
    ensures
        final(bytes)@ == old(bytes)@ + le_bytes(word),
{
    bytes.push((word % 256) as u8);
    bytes.push(((word / 256) % 256) as u8);
    bytes.push(((word / 65536) % 256) as u8);
    bytes.push((word / 16777216) as u8);
    assert(bytes@ =~= old(bytes)@ + le_bytes(word));
}

/// Reads the word whose four bytes begin at `at`.
fn word_at(bytes: &[u8], at: usize) -> (word: u32)
    requires
        at + 4 <= bytes@.len(),
    ensures
        word == le_word(bytes@, at as int),
{
    bytes[at] as u32 + 256 * (bytes[at + 1] as u32) + 65536 * (bytes[at + 2] as u32) + 16777216
        * (bytes[at + 3] as u32)
}

/// A word is read back from its four bytes.
pub proof fn lemma_word_round_trip(word: u32)
    ensures
        le_bytes(word).len() == 4,
        le_word(le_bytes(word), 0) == word,
{
}

/// Parameters laid out as bytes and read back are the same parameters, and
/// the bytes are twelve.
pub proof fn lemma_bytes_round_trip(params: GOLParams)
    ensures
        params.bytes().len() == 12,
        parse(params.bytes()) == Some(params),
{
    let bytes = params.bytes();
    lemma_word_round_trip(params.random_float);
    lemma_word_round_trip(params.outer_kernel_area);
    lemma_word_round_trip(params.inner_kernel_area);
    assert(le_word(bytes, 0) == le_word(le_bytes(params.random_float), 0));
    assert(le_word(bytes, 4) == le_word(le_bytes(params.outer_kernel_area), 0));
    assert(le_word(bytes, 8) == le_word(le_bytes(params.inner_kernel_area), 0));
}

/// Four bytes are the bytes of the word that they are read as.
proof fn lemma_bytes_of_word(bytes: Seq<u8>, at: int)
    requires
        0 <= at,
        at + 4 <= bytes.len(),
    ensures
        le_bytes(le_word(bytes, at)) == bytes.subrange(at, at + 4),
{
    let b0 = bytes[at] as int;
    let b1 = bytes[at + 1] as int;
    let b2 = bytes[at + 2] as int;
    let b3 = bytes[at + 3] as int;
    let word = b0 + 256 * b1 + 65536 * b2 + 16777216 * b3;
    assert(word % 256 == b0);
    assert((word / 256) % 256 == b1);
    assert((word / 65536) % 256 == b2);
    assert(word / 16777216 == b3);
    assert(le_bytes(le_word(bytes, at)) =~= bytes.subrange(at, at + 4));
}

/// Twelve bytes read as parameters and laid out again are the same bytes.
pub proof fn lemma_parse_round_trip(bytes: Seq<u8>)
    requires
        bytes.len() == 12,
    ensures
        parse(bytes) matches Some(params) && params.bytes() == bytes,
{
    let params = parse(bytes)->0;
    lemma_bytes_of_word(bytes, 0);
    lemma_bytes_of_word(bytes, 4);
    lemma_bytes_of_word(bytes, 8);
    assert(params.bytes() =~= bytes.subrange(0, 4) + bytes.subrange(4, 8) + bytes.subrange(8, 12));
    assert(bytes.subrange(0, 4) + bytes.subrange(4, 8) + bytes.subrange(8, 12) =~= bytes);
}

} // verus!
