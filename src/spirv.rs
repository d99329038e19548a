use vstd::prelude::*;

verus! {

/// Why shader bytecode could not be decoded.
#[derive(Clone, Copy, PartialEq, Eq, Structural, Debug)]
pub enum SpirvError {
    /// The byte length is not a multiple of four.
    LengthNotMultipleOfFour,
}

/// The little-endian 32-bit word stored in four bytes.
pub open spec fn le_word(b0: u8, b1: u8, b2: u8, b3: u8) -> int {
    b0 + 256 * b1 + 65536 * b2 + 16777216 * b3
}

/// The `i`-th word of `bytes`.
pub open spec fn word_at(bytes: Seq<u8>, i: int) -> int {
    le_word(bytes[4 * i], bytes[4 * i + 1], bytes[4 * i + 2], bytes[4 * i + 3])
}

/// Decodes shader bytecode, a flat sequence of little-endian 32-bit words.
/// Fails when the length is not a whole number of words.
pub fn decode_spirv(bytes: &[u8]) -> (r: Result<Vec<u32>, SpirvError>)
    ensures
        bytes@.len() % 4 != 0 ==> r == Err::<Vec<u32>, SpirvError>(SpirvError::LengthNotMultipleOfFour),
        bytes@.len() % 4 == 0 ==> (r matches Ok(words) && words@.len() == bytes@.len() / 4
            && forall|i: int| 0 <= i < words@.len() ==> words@[i] == word_at(bytes@, i)),
{
    if bytes.len() % 4 != 0 {
        return Err(SpirvError::LengthNotMultipleOfFour);
    }
    let n = bytes.len() / 4;
    let mut words: Vec<u32> = Vec::with_capacity(n);
    let mut i: usize = 0;
    while i < n
        invariant
            0 <= i <= n,
            4 * n == bytes@.len() <= usize::MAX,
            words@.len() == i,
            forall|k: int| 0 <= k < i ==> words@[k] == word_at(bytes@, k),
        decreases n - i,
    {
        let b0 = bytes[4 * i];
        let b1 = bytes[4 * i + 1];
        let b2 = bytes[4 * i + 2];
        let b3 = bytes[4 * i + 3];
        let w: u32 = b0 as u32 + (b1 as u32) * 256 + (b2 as u32) * 65536 + (b3 as u32) * 16777216;
        words.push(w);
        i += 1;
    }
    Ok(words)
}

} // verus!
