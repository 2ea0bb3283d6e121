//! Images on the wire: the dimension code of a texture, and the compressed
//! form in which an image's serialized description travels.
use vstd::prelude::*;

verus! {

/// How many dimensions a texture has.
#[derive(Clone, Copy, Debug, PartialEq, Eq, Structural)]
pub enum TextureDimension {
    D1,
    D2,
    D3,
}

/// The code of a texture dimension on the wire.
pub open spec fn dimension_code_of(d: TextureDimension) -> u8 {
    match d {
        TextureDimension::D1 => 1,
        TextureDimension::D2 => 2,
        TextureDimension::D3 => 3,
    }
}

/// The texture dimension a code stands for; an unknown code is read as two
/// dimensions.
pub open spec fn dimension_of_code(c: u8) -> TextureDimension {
    if c == 1 {
        TextureDimension::D1
    } else if c == 3 {
        TextureDimension::D3
    } else {
        TextureDimension::D2
    }
}

/// The code of a texture dimension.
pub fn dimension_code(d: TextureDimension) -> (r: u8)
    ensures
        r == dimension_code_of(d),
{
    match d {
        TextureDimension::D1 => 1,
        TextureDimension::D2 => 2,
        TextureDimension::D3 => 3,
    }
}

/// The texture dimension of a code.
pub fn dimension_from_code(c: u8) -> (r: TextureDimension)
    ensures
        r == dimension_of_code(c),
{
    match c {
        1 => TextureDimension::D1,
        2 => TextureDimension::D2,
        3 => TextureDimension::D3,
        _ => TextureDimension::D2,
    }
}

/// Reading back the code of a dimension gives that dimension.
pub proof fn lemma_dimension_round_trip(d: TextureDimension)
    ensures
        dimension_of_code(dimension_code_of(d)) == d,
{
}

/// The error `lz4_compression::decompress::decompress` reports.
#[verifier::external_type_specification]
#[verifier::external_body]
pub struct ExLz4DecompressError(lz4_compression::decompress::Error);

/// What `lz4_compression::decompress::decompress` makes of some bytes, when
/// it succeeds.
pub uninterp spec fn lz4_decompressed(data: Seq<u8>) -> Option<Seq<u8>>;

/// `lz4_compression::compress::compress`: what it makes decompresses back to
/// what it was given, as the crate's tests check. Which bytes it makes is
/// left unsaid: they depend on the machine's byte order.
#[verifier::external_body]
fn lz4_compress(data: &[u8]) -> (r: Vec<u8>)
    ensures
        lz4_decompressed(r@) == Some(data@),
{
    lz4_compression::compress::compress(data)
}

/// The bytes a decompression gave, if it succeeded.
pub open spec fn outcome(r: Result<Vec<u8>, lz4_compression::decompress::Error>) -> Option<Seq<u8>> {
    match r {
        Ok(v) => Some(v@),
        Err(_) => None,
    }
}

/// `lz4_compression::decompress::decompress`: its result is named.
#[verifier::external_body]
fn lz4_decompress(data: &[u8]) -> (r: Result<Vec<u8>, lz4_compression::decompress::Error>)
    ensures
        lz4_decompressed(data@) == outcome(r),
{
    lz4_compression::decompress::decompress(data)
}

/// The wire form of an image: its serialized description, compressed so
/// that it decompresses back to that description.
pub fn image_to_bin(serialized: &[u8]) -> (r: Vec<u8>)
    ensures
        lz4_decompressed(r@) == Some(serialized@),
{
    lz4_compress(serialized)
}

/// The serialized description of an image inside its wire form `bin`, or
/// `None` when `bin` does not decompress.
pub fn try_bin_to_image_data(bin: &[u8]) -> (r: Option<Vec<u8>>)
    ensures
        match r {
            Some(v) => lz4_decompressed(bin@) == Some(v@),
            None => lz4_decompressed(bin@) is None,
        },
{
    match lz4_decompress(bin) {
        Ok(v) => Some(v),
        Err(_) => None,
    }
}

} // verus!
