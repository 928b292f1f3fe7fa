//! Preparing SPIR-V bytecode for a shader module.

use vstd::prelude::*;

use crate::error::SetupError;

verus! {

/// SPIR-V bytecode copied into 4-byte words, with its size in bytes, ready to
/// be handed to a shader module's create info.
pub struct ShaderCode {
    pub words: Vec<u32>,
    pub size: usize,
}

/// Shader code, or why it could not be prepared.
pub type ShaderCodeResult = Result<ShaderCode, SetupError>;

/// Whether a bytecode length (in bytes) can hold SPIR-V: nonzero and a
/// multiple of four.
pub open spec fn bytecode_length_valid(len: nat) -> bool {
    len != 0 && len % 4 == 0
}

/// The word at `i` assembled from `bytes[4i..4i+4]` with the first byte lowest.
pub open spec fn little_endian_word(bytes: Seq<u8>, i: int) -> int {
    bytes[4 * i] + bytes[4 * i + 1] * 0x100 + bytes[4 * i + 2] * 0x1_0000 + bytes[4 * i + 3] * 0x100_0000
}

/// The word at `i` assembled from `bytes[4i..4i+4]` with the first byte highest.
pub open spec fn big_endian_word(bytes: Seq<u8>, i: int) -> int {
    bytes[4 * i + 3] + bytes[4 * i + 2] * 0x100 + bytes[4 * i + 1] * 0x1_0000 + bytes[4 * i] * 0x100_0000
}

/// Whether `words` are `bytes` taken four at a time, all in one byte order:
/// either every word is the little-endian assembly of its four bytes, or every
/// word is the big-endian one.
pub open spec fn words_hold_bytes(words: Seq<u32>, bytes: Seq<u8>) -> bool {
    &&& words.len() * 4 == bytes.len()
    &&& {
        ||| forall|i: int| 0 <= i < words.len() ==> #[trigger] words[i] == little_endian_word(bytes, i)
        ||| forall|i: int| 0 <= i < words.len() ==> #[trigger] words[i] == big_endian_word(bytes, i)
    }
}

/// Copies bytecode into an aligned buffer of words.
///
/// Trusted: calls `vulkanalia::bytecode::Bytecode::new`, then reads the buffer
/// back with `Bytecode::code` and `Bytecode::code_size`. The contract claims
/// what the source shows: a length of zero or not a multiple of four is
/// refused with `BytecodeError::Length(len)` before anything else; otherwise
/// the bytes are copied one for one into a buffer of the same size, or
/// `BytecodeError::Alloc` comes back if the allocation failed; `code` views
/// that buffer as `size / 4` words, each made of the next four bytes. Which
/// byte of the four is the lowest is the machine's byte order, and the
/// contract leaves open which of the two orders that is.
#[verifier::external_body]
fn aligned_bytecode(bytes: &[u8]) -> (r: ShaderCodeResult)
    ensures
        r == ShaderCodeResult::Err(SetupError::ShaderBytecodeLength(bytes@.len() as usize))
            <== !bytecode_length_valid(bytes@.len()),
        r matches Ok(code) ==> code.size == bytes@.len() && words_hold_bytes(code.words@, bytes@),
        r matches Err(e) ==> (e == SetupError::ShaderBytecodeLength(bytes@.len() as usize)
            && !bytecode_length_valid(bytes@.len())) || (e == SetupError::ShaderBytecodeAlloc
            && bytecode_length_valid(bytes@.len())),
{
    match vulkanalia::bytecode::Bytecode::new(bytes) {
        Ok(code) => Ok(ShaderCode { words: code.code().to_vec(), size: code.code_size() }),
        Err(vulkanalia::bytecode::BytecodeError::Length(len)) => Err(SetupError::ShaderBytecodeLength(len)),
        Err(vulkanalia::bytecode::BytecodeError::Alloc) => Err(SetupError::ShaderBytecodeAlloc),
    }
}

/// Prepares shader bytecode of a valid length for a shader module: the bytes
/// are copied, four to a word, into an aligned buffer, unless that buffer
/// cannot be allocated.
pub fn create_shader_module(bytecode: &[u8]) -> (r: ShaderCodeResult)
    requires
        bytecode_length_valid(bytecode@.len()),
    ensures
        r matches Ok(code) ==> code.size == bytecode@.len() && words_hold_bytes(code.words@, bytecode@),
        r is Err ==> r == ShaderCodeResult::Err(SetupError::ShaderBytecodeAlloc),
{
    aligned_bytecode(bytecode)
}

} // verus!
