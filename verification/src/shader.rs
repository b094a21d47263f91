//! Shader binaries: opaque blobs that become the words of a shader module.
//!
//! A blob is a SPIR-V binary: a run of 32-bit words that starts with the
//! magic number. The byte order of the file is read off the magic number.

use crate::error::InitError;
use vstd::endian::Endian;
use vstd::prelude::*;

verus! {

/// The first word of every SPIR-V binary.
pub const SPIRV_MAGIC: u32 = 0x0723_0203;

/// The entry point that both shader stages use.
pub open spec fn spec_entry_point() -> Seq<char> {
    "main"@
}

/// Word `i` of a blob whose words are stored in byte order `order`.
pub open spec fn blob_word(order: Endian, blob: Seq<u8>, i: int) -> u32 {
    let b0 = blob[4 * i] as int;
    let b1 = blob[4 * i + 1] as int;
    let b2 = blob[4 * i + 2] as int;
    let b3 = blob[4 * i + 3] as int;
    match order {
        Endian::Little => (b0 + 0x100 * b1 + 0x1_0000 * b2 + 0x100_0000 * b3) as u32,
        Endian::Big => (b3 + 0x100 * b2 + 0x1_0000 * b1 + 0x100_0000 * b0) as u32,
    }
}

/// The byte order that a blob's magic number shows, or `None` where the blob
/// is no shader binary: it is empty, its length is no multiple of 4, or it
/// starts with the magic number in neither byte order.
pub open spec fn blob_order(blob: Seq<u8>) -> Option<Endian> {
    if blob.len() == 0 || blob.len() % 4 != 0 {
        None
    } else if blob_word(Endian::Little, blob, 0) == SPIRV_MAGIC {
        Some(Endian::Little)
    } else if blob_word(Endian::Big, blob, 0) == SPIRV_MAGIC {
        Some(Endian::Big)
    } else {
        None
    }
}

/// The words of a shader binary, read in the byte order that its magic
/// number shows.
pub open spec fn blob_words(blob: Seq<u8>) -> Seq<u32> {
    match blob_order(blob) {
        Some(order) => Seq::new((blob.len() / 4) as nat, |i: int| blob_word(order, blob, i)),
        None => Seq::empty(),
    }
}

/// `std::io::Error`, the error that reading a shader binary gives. Nothing
/// is known of what it holds.
#[verifier::external_type_specification]
#[verifier::external_body]
pub struct ExIoError(std::io::Error);

/// Reads a blob as a SPIR-V binary.
///
/// Calls `wgpu::read_spirv` on a cursor over the blob. That function refuses
/// a length that is no multiple of 4, copies the bytes into words, swaps the
/// bytes of every word if the first one is the magic number backwards, and
/// then refuses anything that does not start with the magic number. The
/// contract says the same without naming the machine's byte order. Not
/// proved.
#[verifier::external_body]
fn read_spirv(blob: &[u8]) -> (result: Result<Vec<u32>, std::io::Error>)
    ensures
        result is Ok <==> blob_order(blob@) is Some,
        result matches Ok(words) ==> words@ == blob_words(blob@),
{
    wgpu::read_spirv(std::io::Cursor::new(blob))
}

/// The words to create a shader module from.
///
/// Fails with [`InitError::ShaderModule`] exactly when the blob is no shader
/// binary; the blob is not looked at beyond its length and its first word.
pub fn shader_words(blob: &Vec<u8>) -> (result: Result<Vec<u32>, InitError>)
    ensures
        result is Ok <==> blob_order(blob@) is Some,
        result matches Ok(words) ==> words@ == blob_words(blob@) && words@.len() * 4
            == blob@.len() && words@[0] == SPIRV_MAGIC,
        result matches Err(e) ==> e == InitError::ShaderModule,
{
    match read_spirv(blob.as_slice()) {
        Ok(words) => Ok(words),
        Err(_) => Err(InitError::ShaderModule),
    }
}

/// The name of the function that each shader stage starts at.
pub fn entry_point() -> (name: &'static str)
    ensures
        name@ == spec_entry_point(),
{
    "main"
}

} // verus!
