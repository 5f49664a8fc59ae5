use vstd::prelude::*;

verus! {

/// Why shader bytecode was refused.
#[derive(Debug, Copy, Clone, PartialEq, Eq, Structural)]
pub enum ShaderCodeError {
    /// The bytecode is empty or its length, given here, is not a whole
    /// number of 32-bit words.
    Length(usize),
    /// No aligned buffer could be allocated for it.
    Alloc,
}

/// The bytecode has a length the graphics API accepts: a positive number of
/// 32-bit words.
pub open spec fn code_length_ok(len: nat) -> bool {
    len > 0 && len % 4 == 0
}

/// Relies on `vulkanalia::bytecode::Bytecode::new`, which refuses an empty
/// buffer or one whose length is not a multiple of four with
/// `BytecodeError::Length` of that length, and otherwise copies the bytes
/// into a 4-byte aligned buffer (failing only to allocate), whose `code()`
/// holds the bytes as one word per four bytes.
#[verifier::external_body]
fn aligned_words(bytes: &[u8]) -> (r: Result<Vec<u32>, ShaderCodeError>)
    ensures
        (r is Err && r->Err_0 == ShaderCodeError::Length(bytes@.len() as usize)) <==> !code_length_ok(bytes@.len()),
        (r is Err && r->Err_0 is Length) ==> !code_length_ok(bytes@.len()),
        r matches Ok(words) ==> words@.len() * 4 == bytes@.len(),
{
    match vulkanalia::bytecode::Bytecode::new(bytes) {
        Ok(code) => Ok(code.code().to_vec()),
        Err(vulkanalia::bytecode::BytecodeError::Length(n)) => Err(ShaderCodeError::Length(n)),
        Err(vulkanalia::bytecode::BytecodeError::Alloc) => Err(ShaderCodeError::Alloc),
    }
}

/// Checks compiled shader bytecode and copies it into 32-bit words, in
/// native byte order, ready to create a shader module from. A length that is
/// zero or not a multiple of four is refused.
pub fn shader_code(bytes: &Vec<u8>) -> (r: Result<Vec<u32>, ShaderCodeError>)
    ensures
        !code_length_ok(bytes@.len()) <==> r == Err::<Vec<u32>, _>(ShaderCodeError::Length(bytes@.len() as usize)),
        code_length_ok(bytes@.len()) ==> r matches Ok(_) || r == Err::<Vec<u32>, _>(ShaderCodeError::Alloc),
        r matches Ok(words) ==> words@.len() * 4 == bytes@.len(),
{
    aligned_words(bytes.as_slice())
}

} // verus!
