//! Texture formats and their textual names on the wire.
//!
//! An image travels with its texture format written as a short lower-case
//! name ("rgba8unorm-srgb", "astc-4x4-unorm", ...). This module maps formats
//! to names and names back to formats.
use vstd::prelude::*;
use crate::text::{find_char, first_index_of, has_prefix, starts_with, str_eq};

verus! {

/// Block size of an ASTC compressed texture.
#[derive(Clone, Copy, Debug, PartialEq, Eq, Structural)]
pub enum AstcBlock {
    B4x4,
    B5x4,
    B5x5,
    B6x5,
    B6x6,
    B8x5,
    B8x6,
    B8x8,
    B10x5,
    B10x6,
    B10x8,
    B10x10,
    B12x10,
    B12x12,
}

/// Channel kind of an ASTC compressed texture.
#[derive(Clone, Copy, Debug, PartialEq, Eq, Structural)]
pub enum AstcChannel {
    Unorm,
    UnormSrgb,
    Hdr,
}

/// The texture formats an image can be sent with.
#[derive(Clone, Copy, Debug, PartialEq, Eq, Structural)]
pub enum TextureFormat {
    R8Unorm,
    R8Snorm,
    R8Uint,
    R8Sint,
    R16Uint,
    R16Sint,
    R16Unorm,
    R16Snorm,
    R16Float,
    Rg8Unorm,
    Rg8Snorm,
    Rg8Uint,
    Rg8Sint,
    R32Uint,
    R32Sint,
    R32Float,
    Rg16Uint,
    Rg16Sint,
    Rg16Unorm,
    Rg16Snorm,
    Rg16Float,
    Rgba8Unorm,
    Rgba8UnormSrgb,
    Rgba8Snorm,
    Rgba8Uint,
    Rgba8Sint,
    Bgra8Unorm,
    Bgra8UnormSrgb,
    Rgb10a2Uint,
    Rgb10a2Unorm,
    Rg11b10Float,
    Rg32Uint,
    Rg32Sint,
    Rg32Float,
    Rgba16Uint,
    Rgba16Sint,
    Rgba16Unorm,
    Rgba16Snorm,
    Rgba16Float,
    Rgba32Uint,
    Rgba32Sint,
    Rgba32Float,
    Stencil8,
    Depth32Float,
    Depth16Unorm,
    Depth32FloatStencil8,
    Depth24Plus,
    Depth24PlusStencil8,
    NV12,
    Rgb9e5Ufloat,
    Bc1RgbaUnorm,
    Bc1RgbaUnormSrgb,
    Bc2RgbaUnorm,
    Bc2RgbaUnormSrgb,
    Bc3RgbaUnorm,
    Bc3RgbaUnormSrgb,
    Bc4RUnorm,
    Bc4RSnorm,
    Bc5RgUnorm,
    Bc5RgSnorm,
    Bc6hRgbUfloat,
    Bc6hRgbFloat,
    Bc7RgbaUnorm,
    Bc7RgbaUnormSrgb,
    Etc2Rgb8Unorm,
    Etc2Rgb8UnormSrgb,
    Etc2Rgb8A1Unorm,
    Etc2Rgb8A1UnormSrgb,
    Etc2Rgba8Unorm,
    Etc2Rgba8UnormSrgb,
    EacR11Unorm,
    EacR11Snorm,
    EacRg11Unorm,
    EacRg11Snorm,
    Astc { block: AstcBlock, channel: AstcChannel },
}

/// A texture format as it is written on the wire.
#[derive(Clone, Copy, Debug, PartialEq, Eq, Structural)]
pub struct TextureFormatWrapper(pub TextureFormat);

/// Name of an ASTC block size.
pub open spec fn astc_block_name(b: AstcBlock) -> Seq<char> {
    match b {
        AstcBlock::B4x4 => "4x4"@,
        AstcBlock::B5x4 => "5x4"@,
        AstcBlock::B5x5 => "5x5"@,
        AstcBlock::B6x5 => "6x5"@,
        AstcBlock::B6x6 => "6x6"@,
        AstcBlock::B8x5 => "8x5"@,
        AstcBlock::B8x6 => "8x6"@,
        AstcBlock::B8x8 => "8x8"@,
        AstcBlock::B10x5 => "10x5"@,
        AstcBlock::B10x6 => "10x6"@,
        AstcBlock::B10x8 => "10x8"@,
        AstcBlock::B10x10 => "10x10"@,
        AstcBlock::B12x10 => "12x10"@,
        AstcBlock::B12x12 => "12x12"@,
    }
}

/// Name of an ASTC channel kind.
pub open spec fn astc_channel_name(c: AstcChannel) -> Seq<char> {
    match c {
        AstcChannel::Unorm => "unorm"@,
        AstcChannel::UnormSrgb => "unorm-srgb"@,
        AstcChannel::Hdr => "hdr"@,
    }
}

/// Name of a texture format.
pub open spec fn texture_format_name(f: TextureFormat) -> Seq<char> {
    match f {
        TextureFormat::R8Unorm => "r8unorm"@,
        TextureFormat::R8Snorm => "r8snorm"@,
        TextureFormat::R8Uint => "r8uint"@,
        TextureFormat::R8Sint => "r8sint"@,
        TextureFormat::R16Uint => "r16uint"@,
        TextureFormat::R16Sint => "r16sint"@,
        TextureFormat::R16Unorm => "r16unorm"@,
        TextureFormat::R16Snorm => "r16snorm"@,
        TextureFormat::R16Float => "r16float"@,
        TextureFormat::Rg8Unorm => "rg8unorm"@,
        TextureFormat::Rg8Snorm => "rg8snorm"@,
        TextureFormat::Rg8Uint => "rg8uint"@,
        TextureFormat::Rg8Sint => "rg8sint"@,
        TextureFormat::R32Uint => "r32uint"@,
        TextureFormat::R32Sint => "r32sint"@,
        TextureFormat::R32Float => "r32float"@,
        TextureFormat::Rg16Uint => "rg16uint"@,
        TextureFormat::Rg16Sint => "rg16sint"@,
        TextureFormat::Rg16Unorm => "rg16unorm"@,
        TextureFormat::Rg16Snorm => "rg16snorm"@,
        TextureFormat::Rg16Float => "rg16float"@,
        TextureFormat::Rgba8Unorm => "rgba8unorm"@,
        TextureFormat::Rgba8UnormSrgb => "rgba8unorm-srgb"@,
        TextureFormat::Rgba8Snorm => "rgba8snorm"@,
        TextureFormat::Rgba8Uint => "rgba8uint"@,
        TextureFormat::Rgba8Sint => "rgba8sint"@,
        TextureFormat::Bgra8Unorm => "bgra8unorm"@,
        TextureFormat::Bgra8UnormSrgb => "bgra8unorm-srgb"@,
        TextureFormat::Rgb10a2Uint => "rgb10a2uint"@,
        TextureFormat::Rgb10a2Unorm => "rgb10a2unorm"@,
        TextureFormat::Rg11b10Float => "rg11b10ufloat"@,
        TextureFormat::Rg32Uint => "rg32uint"@,
        TextureFormat::Rg32Sint => "rg32sint"@,
        TextureFormat::Rg32Float => "rg32float"@,
        TextureFormat::Rgba16Uint => "rgba16uint"@,
        TextureFormat::Rgba16Sint => "rgba16sint"@,
        TextureFormat::Rgba16Unorm => "rgba16unorm"@,
        TextureFormat::Rgba16Snorm => "rgba16snorm"@,
        TextureFormat::Rgba16Float => "rgba16float"@,
        TextureFormat::Rgba32Uint => "rgba32uint"@,
        TextureFormat::Rgba32Sint => "rgba32sint"@,
        TextureFormat::Rgba32Float => "rgba32float"@,
        TextureFormat::Stencil8 => "stencil8"@,
        TextureFormat::Depth32Float => "depth32float"@,
        TextureFormat::Depth16Unorm => "depth16unorm"@,
        TextureFormat::Depth32FloatStencil8 => "depth32float-stencil8"@,
        TextureFormat::Depth24Plus => "depth24plus"@,
        TextureFormat::Depth24PlusStencil8 => "depth24plus-stencil8"@,
        TextureFormat::NV12 => "nv12"@,
        TextureFormat::Rgb9e5Ufloat => "rgb9e5ufloat"@,
        TextureFormat::Bc1RgbaUnorm => "bc1-rgba-unorm"@,
        TextureFormat::Bc1RgbaUnormSrgb => "bc1-rgba-unorm-srgb"@,
        TextureFormat::Bc2RgbaUnorm => "bc2-rgba-unorm"@,
        TextureFormat::Bc2RgbaUnormSrgb => "bc2-rgba-unorm-srgb"@,
        TextureFormat::Bc3RgbaUnorm => "bc3-rgba-unorm"@,
        TextureFormat::Bc3RgbaUnormSrgb => "bc3-rgba-unorm-srgb"@,
        TextureFormat::Bc4RUnorm => "bc4-r-unorm"@,
        TextureFormat::Bc4RSnorm => "bc4-r-snorm"@,
        TextureFormat::Bc5RgUnorm => "bc5-rg-unorm"@,
        TextureFormat::Bc5RgSnorm => "bc5-rg-snorm"@,
        TextureFormat::Bc6hRgbUfloat => "bc6h-rgb-ufloat"@,
        TextureFormat::Bc6hRgbFloat => "bc6h-rgb-float"@,
        TextureFormat::Bc7RgbaUnorm => "bc7-rgba-unorm"@,
        TextureFormat::Bc7RgbaUnormSrgb => "bc7-rgba-unorm-srgb"@,
        TextureFormat::Etc2Rgb8Unorm => "etc2-rgb8unorm"@,
        TextureFormat::Etc2Rgb8UnormSrgb => "etc2-rgb8unorm-srgb"@,
        TextureFormat::Etc2Rgb8A1Unorm => "etc2-rgb8a1unorm"@,
        TextureFormat::Etc2Rgb8A1UnormSrgb => "etc2-rgb8a1unorm-srgb"@,
        TextureFormat::Etc2Rgba8Unorm => "etc2-rgba8unorm"@,
        TextureFormat::Etc2Rgba8UnormSrgb => "etc2-rgba8unorm-srgb"@,
        TextureFormat::EacR11Unorm => "eac-r11unorm"@,
        TextureFormat::EacR11Snorm => "eac-r11snorm"@,
        TextureFormat::EacRg11Unorm => "eac-rg11unorm"@,
        TextureFormat::EacRg11Snorm => "eac-rg11snorm"@,
        TextureFormat::Astc { block, channel } => "astc-"@ + astc_block_name(block) + "-"@
            + astc_channel_name(channel),
    }
}

/// The ASTC block size with name `s`.
pub open spec fn astc_block_from_name(s: Seq<char>) -> Option<AstcBlock> {
    if s == "4x4"@ {
        Some(AstcBlock::B4x4)
    } else if s == "5x4"@ {
        Some(AstcBlock::B5x4)
    } else if s == "5x5"@ {
        Some(AstcBlock::B5x5)
    } else if s == "6x5"@ {
        Some(AstcBlock::B6x5)
    } else if s == "6x6"@ {
        Some(AstcBlock::B6x6)
    } else if s == "8x5"@ {
        Some(AstcBlock::B8x5)
    } else if s == "8x6"@ {
        Some(AstcBlock::B8x6)
    } else if s == "8x8"@ {
        Some(AstcBlock::B8x8)
    } else if s == "10x5"@ {
        Some(AstcBlock::B10x5)
    } else if s == "10x6"@ {
        Some(AstcBlock::B10x6)
    } else if s == "10x8"@ {
        Some(AstcBlock::B10x8)
    } else if s == "10x10"@ {
        Some(AstcBlock::B10x10)
    } else if s == "12x10"@ {
        Some(AstcBlock::B12x10)
    } else if s == "12x12"@ {
        Some(AstcBlock::B12x12)
    } else {
        None
    }
}

/// The ASTC channel kind with name `s`.
pub open spec fn astc_channel_from_name(s: Seq<char>) -> Option<AstcChannel> {
    if s == "unorm"@ {
        Some(AstcChannel::Unorm)
    } else if s == "unorm-srgb"@ {
        Some(AstcChannel::UnormSrgb)
    } else if s == "hdr"@ {
        Some(AstcChannel::Hdr)
    } else {
        None
    }
}

/// The format other than ASTC whose name is `s`.
pub open spec fn plain_format_from_name(s: Seq<char>) -> Option<TextureFormat> {
    if s == "r8unorm"@ {
        Some(TextureFormat::R8Unorm)
    } else if s == "r8snorm"@ {
        Some(TextureFormat::R8Snorm)
    } else if s == "r8uint"@ {
        Some(TextureFormat::R8Uint)
    } else if s == "r8sint"@ {
        Some(TextureFormat::R8Sint)
    } else if s == "r16uint"@ {
        Some(TextureFormat::R16Uint)
    } else if s == "r16sint"@ {
        Some(TextureFormat::R16Sint)
    } else if s == "r16unorm"@ {
        Some(TextureFormat::R16Unorm)
    } else if s == "r16snorm"@ {
        Some(TextureFormat::R16Snorm)
    } else if s == "r16float"@ {
        Some(TextureFormat::R16Float)
    } else if s == "rg8unorm"@ {
        Some(TextureFormat::Rg8Unorm)
    } else if s == "rg8snorm"@ {
        Some(TextureFormat::Rg8Snorm)
    } else if s == "rg8uint"@ {
        Some(TextureFormat::Rg8Uint)
    } else if s == "rg8sint"@ {
        Some(TextureFormat::Rg8Sint)
    } else if s == "r32uint"@ {
        Some(TextureFormat::R32Uint)
    } else if s == "r32sint"@ {
        Some(TextureFormat::R32Sint)
    } else if s == "r32float"@ {
        Some(TextureFormat::R32Float)
    } else if s == "rg16uint"@ {
        Some(TextureFormat::Rg16Uint)
    } else if s == "rg16sint"@ {
        Some(TextureFormat::Rg16Sint)
    } else if s == "rg16unorm"@ {
        Some(TextureFormat::Rg16Unorm)
    } else if s == "rg16snorm"@ {
        Some(TextureFormat::Rg16Snorm)
    } else if s == "rg16float"@ {
        Some(TextureFormat::Rg16Float)
    } else if s == "rgba8unorm"@ {
        Some(TextureFormat::Rgba8Unorm)
    } else if s == "rgba8unorm-srgb"@ {
        Some(TextureFormat::Rgba8UnormSrgb)
    } else if s == "rgba8snorm"@ {
        Some(TextureFormat::Rgba8Snorm)
    } else if s == "rgba8uint"@ {
        Some(TextureFormat::Rgba8Uint)
    } else if s == "rgba8sint"@ {
        Some(TextureFormat::Rgba8Sint)
    } else if s == "bgra8unorm"@ {
        Some(TextureFormat::Bgra8Unorm)
    } else if s == "bgra8unorm-srgb"@ {
        Some(TextureFormat::Bgra8UnormSrgb)
    } else if s == "rgb10a2uint"@ {
        Some(TextureFormat::Rgb10a2Uint)
    } else if s == "rgb10a2unorm"@ {
        Some(TextureFormat::Rgb10a2Unorm)
    } else if s == "rg11b10ufloat"@ {
        Some(TextureFormat::Rg11b10Float)
    } else if s == "rg32uint"@ {
        Some(TextureFormat::Rg32Uint)
    } else if s == "rg32sint"@ {
        Some(TextureFormat::Rg32Sint)
    } else if s == "rg32float"@ {
        Some(TextureFormat::Rg32Float)
    } else if s == "rgba16uint"@ {
        Some(TextureFormat::Rgba16Uint)
    } else if s == "rgba16sint"@ {
        Some(TextureFormat::Rgba16Sint)
    } else if s == "rgba16unorm"@ {
        Some(TextureFormat::Rgba16Unorm)
    } else if s == "rgba16snorm"@ {
        Some(TextureFormat::Rgba16Snorm)
    } else if s == "rgba16float"@ {
        Some(TextureFormat::Rgba16Float)
    } else if s == "rgba32uint"@ {
        Some(TextureFormat::Rgba32Uint)
    } else if s == "rgba32sint"@ {
        Some(TextureFormat::Rgba32Sint)
    } else if s == "rgba32float"@ {
        Some(TextureFormat::Rgba32Float)
    } else if s == "stencil8"@ {
        Some(TextureFormat::Stencil8)
    } else if s == "depth32float"@ {
        Some(TextureFormat::Depth32Float)
    } else if s == "depth16unorm"@ {
        Some(TextureFormat::Depth16Unorm)
    } else if s == "depth32float-stencil8"@ {
        Some(TextureFormat::Depth32FloatStencil8)
    } else if s == "depth24plus"@ {
        Some(TextureFormat::Depth24Plus)
    } else if s == "depth24plus-stencil8"@ {
        Some(TextureFormat::Depth24PlusStencil8)
    } else if s == "nv12"@ {
        Some(TextureFormat::NV12)
    } else if s == "rgb9e5ufloat"@ {
        Some(TextureFormat::Rgb9e5Ufloat)
    } else if s == "bc1-rgba-unorm"@ {
        Some(TextureFormat::Bc1RgbaUnorm)
    } else if s == "bc1-rgba-unorm-srgb"@ {
        Some(TextureFormat::Bc1RgbaUnormSrgb)
    } else if s == "bc2-rgba-unorm"@ {
        Some(TextureFormat::Bc2RgbaUnorm)
    } else if s == "bc2-rgba-unorm-srgb"@ {
        Some(TextureFormat::Bc2RgbaUnormSrgb)
    } else if s == "bc3-rgba-unorm"@ {
        Some(TextureFormat::Bc3RgbaUnorm)
    } else if s == "bc3-rgba-unorm-srgb"@ {
        Some(TextureFormat::Bc3RgbaUnormSrgb)
    } else if s == "bc4-r-unorm"@ {
        Some(TextureFormat::Bc4RUnorm)
    } else if s == "bc4-r-snorm"@ {
        Some(TextureFormat::Bc4RSnorm)
    } else if s == "bc5-rg-unorm"@ {
        Some(TextureFormat::Bc5RgUnorm)
    } else if s == "bc5-rg-snorm"@ {
        Some(TextureFormat::Bc5RgSnorm)
    } else if s == "bc6h-rgb-ufloat"@ {
        Some(TextureFormat::Bc6hRgbUfloat)
    } else if s == "bc6h-rgb-float"@ {
        Some(TextureFormat::Bc6hRgbFloat)
    } else if s == "bc7-rgba-unorm"@ {
        Some(TextureFormat::Bc7RgbaUnorm)
    } else if s == "bc7-rgba-unorm-srgb"@ {
        Some(TextureFormat::Bc7RgbaUnormSrgb)
    } else if s == "etc2-rgb8unorm"@ {
        Some(TextureFormat::Etc2Rgb8Unorm)
    } else if s == "etc2-rgb8unorm-srgb"@ {
        Some(TextureFormat::Etc2Rgb8UnormSrgb)
    } else if s == "etc2-rgb8a1unorm"@ {
        Some(TextureFormat::Etc2Rgb8A1Unorm)
    } else if s == "etc2-rgb8a1unorm-srgb"@ {
        Some(TextureFormat::Etc2Rgb8A1UnormSrgb)
    } else if s == "etc2-rgba8unorm"@ {
        Some(TextureFormat::Etc2Rgba8Unorm)
    } else if s == "etc2-rgba8unorm-srgb"@ {
        Some(TextureFormat::Etc2Rgba8UnormSrgb)
    } else if s == "eac-r11unorm"@ {
        Some(TextureFormat::EacR11Unorm)
    } else if s == "eac-r11snorm"@ {
        Some(TextureFormat::EacR11Snorm)
    } else if s == "eac-rg11unorm"@ {
        Some(TextureFormat::EacRg11Unorm)
    } else if s == "eac-rg11snorm"@ {
        Some(TextureFormat::EacRg11Snorm)
    } else {
        None
    }
}

/// The ASTC format named by `rest`, the part of a name after "astc-": a block
/// size, a hyphen, a channel kind.
pub open spec fn astc_format_from_name(rest: Seq<char>) -> Option<TextureFormat> {
    match first_index_of(rest, '-') {
        Some(j) => match (
            astc_block_from_name(rest.subrange(0, j)),
            astc_channel_from_name(rest.subrange(j + 1, rest.len() as int)),
        ) {
            (Some(block), Some(channel)) => Some(TextureFormat::Astc { block, channel }),
            _ => None,
        },
        None => None,
    }
}

/// The texture format a name stands for, if any.
pub open spec fn texture_format_from_name(s: Seq<char>) -> Option<TextureFormat> {
    match plain_format_from_name(s) {
        Some(f) => Some(f),
        None => if has_prefix(s, "astc-"@) {
            astc_format_from_name(s.subrange(5, s.len() as int))
        } else {
            None
        },
    }
}

fn astc_block_str(b: AstcBlock) -> (r: &'static str)
    ensures
        r@ == astc_block_name(b),
{
    match b {
        AstcBlock::B4x4 => "4x4",
        AstcBlock::B5x4 => "5x4",
        AstcBlock::B5x5 => "5x5",
        AstcBlock::B6x5 => "6x5",
        AstcBlock::B6x6 => "6x6",
        AstcBlock::B8x5 => "8x5",
        AstcBlock::B8x6 => "8x6",
        AstcBlock::B8x8 => "8x8",
        AstcBlock::B10x5 => "10x5",
        AstcBlock::B10x6 => "10x6",
        AstcBlock::B10x8 => "10x8",
        AstcBlock::B10x10 => "10x10",
        AstcBlock::B12x10 => "12x10",
        AstcBlock::B12x12 => "12x12",
    }
}

fn astc_channel_str(c: AstcChannel) -> (r: &'static str)
    ensures
        r@ == astc_channel_name(c),
{
    match c {
        AstcChannel::Unorm => "unorm",
        AstcChannel::UnormSrgb => "unorm-srgb",
        AstcChannel::Hdr => "hdr",
    }
}

fn astc_block_from_str(s: &str) -> (r: Option<AstcBlock>)
    ensures
        r == astc_block_from_name(s@),
{
    if str_eq(s, "4x4") {
        return Some(AstcBlock::B4x4);
    }
    if str_eq(s, "5x4") {
        return Some(AstcBlock::B5x4);
    }
    if str_eq(s, "5x5") {
        return Some(AstcBlock::B5x5);
    }
    if str_eq(s, "6x5") {
        return Some(AstcBlock::B6x5);
    }
    if str_eq(s, "6x6") {
        return Some(AstcBlock::B6x6);
    }
    if str_eq(s, "8x5") {
        return Some(AstcBlock::B8x5);
    }
    if str_eq(s, "8x6") {
        return Some(AstcBlock::B8x6);
    }
    if str_eq(s, "8x8") {
        return Some(AstcBlock::B8x8);
    }
    if str_eq(s, "10x5") {
        return Some(AstcBlock::B10x5);
    }
    if str_eq(s, "10x6") {
        return Some(AstcBlock::B10x6);
    }
    if str_eq(s, "10x8") {
        return Some(AstcBlock::B10x8);
    }
    if str_eq(s, "10x10") {
        return Some(AstcBlock::B10x10);
    }
    if str_eq(s, "12x10") {
        return Some(AstcBlock::B12x10);
    }
    if str_eq(s, "12x12") {
        return Some(AstcBlock::B12x12);
    }
    None
}

fn astc_channel_from_str(s: &str) -> (r: Option<AstcChannel>)
    ensures
        r == astc_channel_from_name(s@),
{
    if str_eq(s, "unorm") {
        return Some(AstcChannel::Unorm);
    }
    if str_eq(s, "unorm-srgb") {
        return Some(AstcChannel::UnormSrgb);
    }
    if str_eq(s, "hdr") {
        return Some(AstcChannel::Hdr);
    }
    None
}

fn plain_format_from_str(s: &str) -> (r: Option<TextureFormat>)
    ensures
        r == plain_format_from_name(s@),
{
    if str_eq(s, "r8unorm") {
        return Some(TextureFormat::R8Unorm);
    }
    if str_eq(s, "r8snorm") {
        return Some(TextureFormat::R8Snorm);
    }
    if str_eq(s, "r8uint") {
        return Some(TextureFormat::R8Uint);
    }
    if str_eq(s, "r8sint") {
        return Some(TextureFormat::R8Sint);
    }
    if str_eq(s, "r16uint") {
        return Some(TextureFormat::R16Uint);
    }
    if str_eq(s, "r16sint") {
        return Some(TextureFormat::R16Sint);
    }
    if str_eq(s, "r16unorm") {
        return Some(TextureFormat::R16Unorm);
    }
    if str_eq(s, "r16snorm") {
        return Some(TextureFormat::R16Snorm);
    }
    if str_eq(s, "r16float") {
        return Some(TextureFormat::R16Float);
    }
    if str_eq(s, "rg8unorm") {
        return Some(TextureFormat::Rg8Unorm);
    }
    if str_eq(s, "rg8snorm") {
        return Some(TextureFormat::Rg8Snorm);
    }
    if str_eq(s, "rg8uint") {
        return Some(TextureFormat::Rg8Uint);
    }
    if str_eq(s, "rg8sint") {
        return Some(TextureFormat::Rg8Sint);
    }
    if str_eq(s, "r32uint") {
        return Some(TextureFormat::R32Uint);
    }
    if str_eq(s, "r32sint") {
        return Some(TextureFormat::R32Sint);
    }
    if str_eq(s, "r32float") {
        return Some(TextureFormat::R32Float);
    }
    if str_eq(s, "rg16uint") {
        return Some(TextureFormat::Rg16Uint);
    }
    if str_eq(s, "rg16sint") {
        return Some(TextureFormat::Rg16Sint);
    }
    if str_eq(s, "rg16unorm") {
        return Some(TextureFormat::Rg16Unorm);
    }
    if str_eq(s, "rg16snorm") {
        return Some(TextureFormat::Rg16Snorm);
    }
    if str_eq(s, "rg16float") {
        return Some(TextureFormat::Rg16Float);
    }
    if str_eq(s, "rgba8unorm") {
        return Some(TextureFormat::Rgba8Unorm);
    }
    if str_eq(s, "rgba8unorm-srgb") {
        return Some(TextureFormat::Rgba8UnormSrgb);
    }
    if str_eq(s, "rgba8snorm") {
        return Some(TextureFormat::Rgba8Snorm);
    }
    if str_eq(s, "rgba8uint") {
        return Some(TextureFormat::Rgba8Uint);
    }
    if str_eq(s, "rgba8sint") {
        return Some(TextureFormat::Rgba8Sint);
    }
    if str_eq(s, "bgra8unorm") {
        return Some(TextureFormat::Bgra8Unorm);
    }
    if str_eq(s, "bgra8unorm-srgb") {
        return Some(TextureFormat::Bgra8UnormSrgb);
    }
    if str_eq(s, "rgb10a2uint") {
        return Some(TextureFormat::Rgb10a2Uint);
    }
    if str_eq(s, "rgb10a2unorm") {
        return Some(TextureFormat::Rgb10a2Unorm);
    }
    if str_eq(s, "rg11b10ufloat") {
        return Some(TextureFormat::Rg11b10Float);
    }
    if str_eq(s, "rg32uint") {
        return Some(TextureFormat::Rg32Uint);
    }
    if str_eq(s, "rg32sint") {
        return Some(TextureFormat::Rg32Sint);
    }
    if str_eq(s, "rg32float") {
        return Some(TextureFormat::Rg32Float);
    }
    if str_eq(s, "rgba16uint") {
        return Some(TextureFormat::Rgba16Uint);
    }
    if str_eq(s, "rgba16sint") {
        return Some(TextureFormat::Rgba16Sint);
    }
    if str_eq(s, "rgba16unorm") {
        return Some(TextureFormat::Rgba16Unorm);
    }
    if str_eq(s, "rgba16snorm") {
        return Some(TextureFormat::Rgba16Snorm);
    }
    if str_eq(s, "rgba16float") {
        return Some(TextureFormat::Rgba16Float);
    }
    if str_eq(s, "rgba32uint") {
        return Some(TextureFormat::Rgba32Uint);
    }
    if str_eq(s, "rgba32sint") {
        return Some(TextureFormat::Rgba32Sint);
    }
    if str_eq(s, "rgba32float") {
        return Some(TextureFormat::Rgba32Float);
    }
    if str_eq(s, "stencil8") {
        return Some(TextureFormat::Stencil8);
    }
    if str_eq(s, "depth32float") {
        return Some(TextureFormat::Depth32Float);
    }
    if str_eq(s, "depth16unorm") {
        return Some(TextureFormat::Depth16Unorm);
    }
    if str_eq(s, "depth32float-stencil8") {
        return Some(TextureFormat::Depth32FloatStencil8);
    }
    if str_eq(s, "depth24plus") {
        return Some(TextureFormat::Depth24Plus);
    }
    if str_eq(s, "depth24plus-stencil8") {
        return Some(TextureFormat::Depth24PlusStencil8);
    }
    if str_eq(s, "nv12") {
        return Some(TextureFormat::NV12);
    }
    if str_eq(s, "rgb9e5ufloat") {
        return Some(TextureFormat::Rgb9e5Ufloat);
    }
    if str_eq(s, "bc1-rgba-unorm") {
        return Some(TextureFormat::Bc1RgbaUnorm);
    }
    if str_eq(s, "bc1-rgba-unorm-srgb") {
        return Some(TextureFormat::Bc1RgbaUnormSrgb);
    }
    if str_eq(s, "bc2-rgba-unorm") {
        return Some(TextureFormat::Bc2RgbaUnorm);
    }
    if str_eq(s, "bc2-rgba-unorm-srgb") {
        return Some(TextureFormat::Bc2RgbaUnormSrgb);
    }
    if str_eq(s, "bc3-rgba-unorm") {
        return Some(TextureFormat::Bc3RgbaUnorm);
    }
    if str_eq(s, "bc3-rgba-unorm-srgb") {
        return Some(TextureFormat::Bc3RgbaUnormSrgb);
    }
    if str_eq(s, "bc4-r-unorm") {
        return Some(TextureFormat::Bc4RUnorm);
    }
    if str_eq(s, "bc4-r-snorm") {
        return Some(TextureFormat::Bc4RSnorm);
    }
    if str_eq(s, "bc5-rg-unorm") {
        return Some(TextureFormat::Bc5RgUnorm);
    }
    if str_eq(s, "bc5-rg-snorm") {
        return Some(TextureFormat::Bc5RgSnorm);
    }
    if str_eq(s, "bc6h-rgb-ufloat") {
        return Some(TextureFormat::Bc6hRgbUfloat);
    }
    if str_eq(s, "bc6h-rgb-float") {
        return Some(TextureFormat::Bc6hRgbFloat);
    }
    if str_eq(s, "bc7-rgba-unorm") {
        return Some(TextureFormat::Bc7RgbaUnorm);
    }
    if str_eq(s, "bc7-rgba-unorm-srgb") {
        return Some(TextureFormat::Bc7RgbaUnormSrgb);
    }
    if str_eq(s, "etc2-rgb8unorm") {
        return Some(TextureFormat::Etc2Rgb8Unorm);
    }
    if str_eq(s, "etc2-rgb8unorm-srgb") {
        return Some(TextureFormat::Etc2Rgb8UnormSrgb);
    }
    if str_eq(s, "etc2-rgb8a1unorm") {
        return Some(TextureFormat::Etc2Rgb8A1Unorm);
    }
    if str_eq(s, "etc2-rgb8a1unorm-srgb") {
        return Some(TextureFormat::Etc2Rgb8A1UnormSrgb);
    }
    if str_eq(s, "etc2-rgba8unorm") {
        return Some(TextureFormat::Etc2Rgba8Unorm);
    }
    if str_eq(s, "etc2-rgba8unorm-srgb") {
        return Some(TextureFormat::Etc2Rgba8UnormSrgb);
    }
    if str_eq(s, "eac-r11unorm") {
        return Some(TextureFormat::EacR11Unorm);
    }
    if str_eq(s, "eac-r11snorm") {
        return Some(TextureFormat::EacR11Snorm);
    }
    if str_eq(s, "eac-rg11unorm") {
        return Some(TextureFormat::EacRg11Unorm);
    }
    if str_eq(s, "eac-rg11snorm") {
        return Some(TextureFormat::EacRg11Snorm);
    }
    None
}

impl TextureFormatWrapper {
    /// The name this format is written as.
    pub fn serialize(&self) -> (r: String)
        ensures
            r@ == texture_format_name(self.0),
    {
        let name: &str = match self.0 {
            TextureFormat::R8Unorm => "r8unorm",
            TextureFormat::R8Snorm => "r8snorm",
            TextureFormat::R8Uint => "r8uint",
            TextureFormat::R8Sint => "r8sint",
            TextureFormat::R16Uint => "r16uint",
            TextureFormat::R16Sint => "r16sint",
            TextureFormat::R16Unorm => "r16unorm",
            TextureFormat::R16Snorm => "r16snorm",
            TextureFormat::R16Float => "r16float",
            TextureFormat::Rg8Unorm => "rg8unorm",
            TextureFormat::Rg8Snorm => "rg8snorm",
            TextureFormat::Rg8Uint => "rg8uint",
            TextureFormat::Rg8Sint => "rg8sint",
            TextureFormat::R32Uint => "r32uint",
            TextureFormat::R32Sint => "r32sint",
            TextureFormat::R32Float => "r32float",
            TextureFormat::Rg16Uint => "rg16uint",
            TextureFormat::Rg16Sint => "rg16sint",
            TextureFormat::Rg16Unorm => "rg16unorm",
            TextureFormat::Rg16Snorm => "rg16snorm",
            TextureFormat::Rg16Float => "rg16float",
            TextureFormat::Rgba8Unorm => "rgba8unorm",
            TextureFormat::Rgba8UnormSrgb => "rgba8unorm-srgb",
            TextureFormat::Rgba8Snorm => "rgba8snorm",
            TextureFormat::Rgba8Uint => "rgba8uint",
            TextureFormat::Rgba8Sint => "rgba8sint",
            TextureFormat::Bgra8Unorm => "bgra8unorm",
            TextureFormat::Bgra8UnormSrgb => "bgra8unorm-srgb",
            TextureFormat::Rgb10a2Uint => "rgb10a2uint",
            TextureFormat::Rgb10a2Unorm => "rgb10a2unorm",
            TextureFormat::Rg11b10Float => "rg11b10ufloat",
            TextureFormat::Rg32Uint => "rg32uint",
            TextureFormat::Rg32Sint => "rg32sint",
            TextureFormat::Rg32Float => "rg32float",
            TextureFormat::Rgba16Uint => "rgba16uint",
            TextureFormat::Rgba16Sint => "rgba16sint",
            TextureFormat::Rgba16Unorm => "rgba16unorm",
            TextureFormat::Rgba16Snorm => "rgba16snorm",
            TextureFormat::Rgba16Float => "rgba16float",
            TextureFormat::Rgba32Uint => "rgba32uint",
            TextureFormat::Rgba32Sint => "rgba32sint",
            TextureFormat::Rgba32Float => "rgba32float",
            TextureFormat::Stencil8 => "stencil8",
            TextureFormat::Depth32Float => "depth32float",
            TextureFormat::Depth16Unorm => "depth16unorm",
            TextureFormat::Depth32FloatStencil8 => "depth32float-stencil8",
            TextureFormat::Depth24Plus => "depth24plus",
            TextureFormat::Depth24PlusStencil8 => "depth24plus-stencil8",
            TextureFormat::NV12 => "nv12",
            TextureFormat::Rgb9e5Ufloat => "rgb9e5ufloat",
            TextureFormat::Bc1RgbaUnorm => "bc1-rgba-unorm",
            TextureFormat::Bc1RgbaUnormSrgb => "bc1-rgba-unorm-srgb",
            TextureFormat::Bc2RgbaUnorm => "bc2-rgba-unorm",
            TextureFormat::Bc2RgbaUnormSrgb => "bc2-rgba-unorm-srgb",
            TextureFormat::Bc3RgbaUnorm => "bc3-rgba-unorm",
            TextureFormat::Bc3RgbaUnormSrgb => "bc3-rgba-unorm-srgb",
            TextureFormat::Bc4RUnorm => "bc4-r-unorm",
            TextureFormat::Bc4RSnorm => "bc4-r-snorm",
            TextureFormat::Bc5RgUnorm => "bc5-rg-unorm",
            TextureFormat::Bc5RgSnorm => "bc5-rg-snorm",
            TextureFormat::Bc6hRgbUfloat => "bc6h-rgb-ufloat",
            TextureFormat::Bc6hRgbFloat => "bc6h-rgb-float",
            TextureFormat::Bc7RgbaUnorm => "bc7-rgba-unorm",
            TextureFormat::Bc7RgbaUnormSrgb => "bc7-rgba-unorm-srgb",
            TextureFormat::Etc2Rgb8Unorm => "etc2-rgb8unorm",
            TextureFormat::Etc2Rgb8UnormSrgb => "etc2-rgb8unorm-srgb",
            TextureFormat::Etc2Rgb8A1Unorm => "etc2-rgb8a1unorm",
            TextureFormat::Etc2Rgb8A1UnormSrgb => "etc2-rgb8a1unorm-srgb",
            TextureFormat::Etc2Rgba8Unorm => "etc2-rgba8unorm",
            TextureFormat::Etc2Rgba8UnormSrgb => "etc2-rgba8unorm-srgb",
            TextureFormat::EacR11Unorm => "eac-r11unorm",
            TextureFormat::EacR11Snorm => "eac-r11snorm",
            TextureFormat::EacRg11Unorm => "eac-rg11unorm",
            TextureFormat::EacRg11Snorm => "eac-rg11snorm",
            TextureFormat::Astc { block, channel } => {
                let mut s = "astc-".to_owned();
                s.append(astc_block_str(block));
                s.append("-");
                s.append(astc_channel_str(channel));
                return s;
            },
        };
        name.to_owned()
    }

    /// The format a name stands for; `None` where the name is no format's.
    pub fn deserialize(s: &str) -> (r: Option<TextureFormatWrapper>)
        ensures
            r == (match texture_format_from_name(s@) {
                Some(f) => Some(TextureFormatWrapper(f)),
                None => None::<TextureFormatWrapper>,
            }),
    {
        if let Some(f) = plain_format_from_str(s) {
            return Some(TextureFormatWrapper(f));
        }
        if !starts_with(s, "astc-") {
            return None;
        }
        proof {
            reveal_strlit("astc-");
        }
        let n = s.unicode_len();
        let rest = s.substring_char(5, n);
        let Some(j) = find_char(rest, '-') else {
            return None;
        };
        let rn = rest.unicode_len();
        let block = astc_block_from_str(rest.substring_char(0, j));
        let channel = astc_channel_from_str(rest.substring_char(j + 1, rn));
        match (block, channel) {
            (Some(block), Some(channel)) => Some(TextureFormatWrapper(TextureFormat::Astc { block, channel })),
            _ => None,
        }
    }
}

/// No plain format name starts with the letter of the ASTC prefix.
proof fn lemma_plain_name_first_char(f: TextureFormat)
    requires
        !(f is Astc),
    ensures
        texture_format_name(f).len() > 0,
        texture_format_name(f)[0] != 'a',
{
    reveal_strlit("r8unorm");
    reveal_strlit("r8snorm");
    reveal_strlit("r8uint");
    reveal_strlit("r8sint");
    reveal_strlit("r16uint");
    reveal_strlit("r16sint");
    reveal_strlit("r16unorm");
    reveal_strlit("r16snorm");
    reveal_strlit("r16float");
    reveal_strlit("rg8unorm");
    reveal_strlit("rg8snorm");
    reveal_strlit("rg8uint");
    reveal_strlit("rg8sint");
    reveal_strlit("r32uint");
    reveal_strlit("r32sint");
    reveal_strlit("r32float");
    reveal_strlit("rg16uint");
    reveal_strlit("rg16sint");
    reveal_strlit("rg16unorm");
    reveal_strlit("rg16snorm");
    reveal_strlit("rg16float");
    reveal_strlit("rgba8unorm");
    reveal_strlit("rgba8unorm-srgb");
    reveal_strlit("rgba8snorm");
    reveal_strlit("rgba8uint");
    reveal_strlit("rgba8sint");
    reveal_strlit("bgra8unorm");
    reveal_strlit("bgra8unorm-srgb");
    reveal_strlit("rgb10a2uint");
    reveal_strlit("rgb10a2unorm");
    reveal_strlit("rg11b10ufloat");
    reveal_strlit("rg32uint");
    reveal_strlit("rg32sint");
    reveal_strlit("rg32float");
    reveal_strlit("rgba16uint");
    reveal_strlit("rgba16sint");
    reveal_strlit("rgba16unorm");
    reveal_strlit("rgba16snorm");
    reveal_strlit("rgba16float");
    reveal_strlit("rgba32uint");
    reveal_strlit("rgba32sint");
    reveal_strlit("rgba32float");
    reveal_strlit("stencil8");
    reveal_strlit("depth32float");
    reveal_strlit("depth16unorm");
    reveal_strlit("depth32float-stencil8");
    reveal_strlit("depth24plus");
    reveal_strlit("depth24plus-stencil8");
    reveal_strlit("nv12");
    reveal_strlit("rgb9e5ufloat");
    reveal_strlit("bc1-rgba-unorm");
    reveal_strlit("bc1-rgba-unorm-srgb");
    reveal_strlit("bc2-rgba-unorm");
    reveal_strlit("bc2-rgba-unorm-srgb");
    reveal_strlit("bc3-rgba-unorm");
    reveal_strlit("bc3-rgba-unorm-srgb");
    reveal_strlit("bc4-r-unorm");
    reveal_strlit("bc4-r-snorm");
    reveal_strlit("bc5-rg-unorm");
    reveal_strlit("bc5-rg-snorm");
    reveal_strlit("bc6h-rgb-ufloat");
    reveal_strlit("bc6h-rgb-float");
    reveal_strlit("bc7-rgba-unorm");
    reveal_strlit("bc7-rgba-unorm-srgb");
    reveal_strlit("etc2-rgb8unorm");
    reveal_strlit("etc2-rgb8unorm-srgb");
    reveal_strlit("etc2-rgb8a1unorm");
    reveal_strlit("etc2-rgb8a1unorm-srgb");
    reveal_strlit("etc2-rgba8unorm");
    reveal_strlit("etc2-rgba8unorm-srgb");
    reveal_strlit("eac-r11unorm");
    reveal_strlit("eac-r11snorm");
    reveal_strlit("eac-rg11unorm");
    reveal_strlit("eac-rg11snorm");
}

proof fn lemma_plain_round_trip(x: TextureFormat)
    requires
        !(x is Astc),
    ensures
        plain_format_from_name(texture_format_name(x)) == Some(x),
{
    reveal_strlit("r8unorm");
    reveal_strlit("r8snorm");
    reveal_strlit("r8uint");
    reveal_strlit("r8sint");
    reveal_strlit("r16uint");
    reveal_strlit("r16sint");
    reveal_strlit("r16unorm");
    reveal_strlit("r16snorm");
    reveal_strlit("r16float");
    reveal_strlit("rg8unorm");
    reveal_strlit("rg8snorm");
    reveal_strlit("rg8uint");
    reveal_strlit("rg8sint");
    reveal_strlit("r32uint");
    reveal_strlit("r32sint");
    reveal_strlit("r32float");
    reveal_strlit("rg16uint");
    reveal_strlit("rg16sint");
    reveal_strlit("rg16unorm");
    reveal_strlit("rg16snorm");
    reveal_strlit("rg16float");
    reveal_strlit("rgba8unorm");
    reveal_strlit("rgba8unorm-srgb");
    reveal_strlit("rgba8snorm");
    reveal_strlit("rgba8uint");
    reveal_strlit("rgba8sint");
    reveal_strlit("bgra8unorm");
    reveal_strlit("bgra8unorm-srgb");
    reveal_strlit("rgb10a2uint");
    reveal_strlit("rgb10a2unorm");
    reveal_strlit("rg11b10ufloat");
    reveal_strlit("rg32uint");
    reveal_strlit("rg32sint");
    reveal_strlit("rg32float");
    reveal_strlit("rgba16uint");
    reveal_strlit("rgba16sint");
    reveal_strlit("rgba16unorm");
    reveal_strlit("rgba16snorm");
    reveal_strlit("rgba16float");
    reveal_strlit("rgba32uint");
    reveal_strlit("rgba32sint");
    reveal_strlit("rgba32float");
    reveal_strlit("stencil8");
    reveal_strlit("depth32float");
    reveal_strlit("depth16unorm");
    reveal_strlit("depth32float-stencil8");
    reveal_strlit("depth24plus");
    reveal_strlit("depth24plus-stencil8");
    reveal_strlit("nv12");
    reveal_strlit("rgb9e5ufloat");
    reveal_strlit("bc1-rgba-unorm");
    reveal_strlit("bc1-rgba-unorm-srgb");
    reveal_strlit("bc2-rgba-unorm");
    reveal_strlit("bc2-rgba-unorm-srgb");
    reveal_strlit("bc3-rgba-unorm");
    reveal_strlit("bc3-rgba-unorm-srgb");
    reveal_strlit("bc4-r-unorm");
    reveal_strlit("bc4-r-snorm");
    reveal_strlit("bc5-rg-unorm");
    reveal_strlit("bc5-rg-snorm");
    reveal_strlit("bc6h-rgb-ufloat");
    reveal_strlit("bc6h-rgb-float");
    reveal_strlit("bc7-rgba-unorm");
    reveal_strlit("bc7-rgba-unorm-srgb");
    reveal_strlit("etc2-rgb8unorm");
    reveal_strlit("etc2-rgb8unorm-srgb");
    reveal_strlit("etc2-rgb8a1unorm");
    reveal_strlit("etc2-rgb8a1unorm-srgb");
    reveal_strlit("etc2-rgba8unorm");
    reveal_strlit("etc2-rgba8unorm-srgb");
    reveal_strlit("eac-r11unorm");
    reveal_strlit("eac-r11snorm");
    reveal_strlit("eac-rg11unorm");
    reveal_strlit("eac-rg11snorm");
    assert("r8unorm"@.len() == 7);
    assert("r8snorm"@.len() == 7);
    assert("r8uint"@.len() == 6);
    assert("r8sint"@.len() == 6);
    assert("r16uint"@.len() == 7);
    assert("r16sint"@.len() == 7);
    assert("r16unorm"@.len() == 8);
    assert("r16snorm"@.len() == 8);
    assert("r16float"@.len() == 8);
    assert("rg8unorm"@.len() == 8);
    assert("rg8snorm"@.len() == 8);
    assert("rg8uint"@.len() == 7);
    assert("rg8sint"@.len() == 7);
    assert("r32uint"@.len() == 7);
    assert("r32sint"@.len() == 7);
    assert("r32float"@.len() == 8);
    assert("rg16uint"@.len() == 8);
    assert("rg16sint"@.len() == 8);
    assert("rg16unorm"@.len() == 9);
    assert("rg16snorm"@.len() == 9);
    assert("rg16float"@.len() == 9);
    assert("rgba8unorm"@.len() == 10);
    assert("rgba8unorm-srgb"@.len() == 15);
    assert("rgba8snorm"@.len() == 10);
    assert("rgba8uint"@.len() == 9);
    assert("rgba8sint"@.len() == 9);
    assert("bgra8unorm"@.len() == 10);
    assert("bgra8unorm-srgb"@.len() == 15);
    assert("rgb10a2uint"@.len() == 11);
    assert("rgb10a2unorm"@.len() == 12);
    assert("rg11b10ufloat"@.len() == 13);
    assert("rg32uint"@.len() == 8);
    assert("rg32sint"@.len() == 8);
    assert("rg32float"@.len() == 9);
    assert("rgba16uint"@.len() == 10);
    assert("rgba16sint"@.len() == 10);
    assert("rgba16unorm"@.len() == 11);
    assert("rgba16snorm"@.len() == 11);
    assert("rgba16float"@.len() == 11);
    assert("rgba32uint"@.len() == 10);
    assert("rgba32sint"@.len() == 10);
    assert("rgba32float"@.len() == 11);
    assert("stencil8"@.len() == 8);
    assert("depth32float"@.len() == 12);
    assert("depth16unorm"@.len() == 12);
    assert("depth32float-stencil8"@.len() == 21);
    assert("depth24plus"@.len() == 11);
    assert("depth24plus-stencil8"@.len() == 20);
    assert("nv12"@.len() == 4);
    assert("rgb9e5ufloat"@.len() == 12);
    assert("bc1-rgba-unorm"@.len() == 14);
    assert("bc1-rgba-unorm-srgb"@.len() == 19);
    assert("bc2-rgba-unorm"@.len() == 14);
    assert("bc2-rgba-unorm-srgb"@.len() == 19);
    assert("bc3-rgba-unorm"@.len() == 14);
    assert("bc3-rgba-unorm-srgb"@.len() == 19);
    assert("bc4-r-unorm"@.len() == 11);
    assert("bc4-r-snorm"@.len() == 11);
    assert("bc5-rg-unorm"@.len() == 12);
    assert("bc5-rg-snorm"@.len() == 12);
    assert("bc6h-rgb-ufloat"@.len() == 15);
    assert("bc6h-rgb-float"@.len() == 14);
    assert("bc7-rgba-unorm"@.len() == 14);
    assert("bc7-rgba-unorm-srgb"@.len() == 19);
    assert("etc2-rgb8unorm"@.len() == 14);
    assert("etc2-rgb8unorm-srgb"@.len() == 19);
    assert("etc2-rgb8a1unorm"@.len() == 16);
    assert("etc2-rgb8a1unorm-srgb"@.len() == 21);
    assert("etc2-rgba8unorm"@.len() == 15);
    assert("etc2-rgba8unorm-srgb"@.len() == 20);
    assert("eac-r11unorm"@.len() == 12);
    assert("eac-r11snorm"@.len() == 12);
    assert("eac-rg11unorm"@.len() == 13);
    assert("eac-rg11snorm"@.len() == 13);
    match x {
        TextureFormat::R8Snorm => {
            assert("r8snorm"@[2] != "r8unorm"@[2]);
        },
        TextureFormat::R8Sint => {
            assert("r8sint"@[2] != "r8uint"@[2]);
        },
        TextureFormat::R16Uint => {
            assert("r16uint"@[1] != "r8unorm"@[1]);
            assert("r16uint"@[1] != "r8snorm"@[1]);
        },
        TextureFormat::R16Sint => {
            assert("r16sint"@[1] != "r8unorm"@[1]);
            assert("r16sint"@[1] != "r8snorm"@[1]);
            assert("r16sint"@[3] != "r16uint"@[3]);
        },
        TextureFormat::R16Snorm => {
            assert("r16snorm"@[3] != "r16unorm"@[3]);
        },
        TextureFormat::R16Float => {
            assert("r16float"@[3] != "r16unorm"@[3]);
            assert("r16float"@[3] != "r16snorm"@[3]);
        },
        TextureFormat::Rg8Unorm => {
            assert("rg8unorm"@[1] != "r16unorm"@[1]);
            assert("rg8unorm"@[1] != "r16snorm"@[1]);
            assert("rg8unorm"@[1] != "r16float"@[1]);
        },
        TextureFormat::Rg8Snorm => {
            assert("rg8snorm"@[1] != "r16unorm"@[1]);
            assert("rg8snorm"@[1] != "r16snorm"@[1]);
            assert("rg8snorm"@[1] != "r16float"@[1]);
            assert("rg8snorm"@[3] != "rg8unorm"@[3]);
        },
        TextureFormat::Rg8Uint => {
            assert("rg8uint"@[1] != "r8unorm"@[1]);
            assert("rg8uint"@[1] != "r8snorm"@[1]);
            assert("rg8uint"@[1] != "r16uint"@[1]);
            assert("rg8uint"@[1] != "r16sint"@[1]);
        },
        TextureFormat::Rg8Sint => {
            assert("rg8sint"@[1] != "r8unorm"@[1]);
            assert("rg8sint"@[1] != "r8snorm"@[1]);
            assert("rg8sint"@[1] != "r16uint"@[1]);
            assert("rg8sint"@[1] != "r16sint"@[1]);
            assert("rg8sint"@[3] != "rg8uint"@[3]);
        },
        TextureFormat::R32Uint => {
            assert("r32uint"@[1] != "r8unorm"@[1]);
            assert("r32uint"@[1] != "r8snorm"@[1]);
            assert("r32uint"@[1] != "r16uint"@[1]);
            assert("r32uint"@[1] != "r16sint"@[1]);
            assert("r32uint"@[1] != "rg8uint"@[1]);
            assert("r32uint"@[1] != "rg8sint"@[1]);
        },
        TextureFormat::R32Sint => {
            assert("r32sint"@[1] != "r8unorm"@[1]);
            assert("r32sint"@[1] != "r8snorm"@[1]);
            assert("r32sint"@[1] != "r16uint"@[1]);
            assert("r32sint"@[1] != "r16sint"@[1]);
            assert("r32sint"@[1] != "rg8uint"@[1]);
            assert("r32sint"@[1] != "rg8sint"@[1]);
            assert("r32sint"@[3] != "r32uint"@[3]);
        },
        TextureFormat::R32Float => {
            assert("r32float"@[1] != "r16unorm"@[1]);
            assert("r32float"@[1] != "r16snorm"@[1]);
            assert("r32float"@[1] != "r16float"@[1]);
            assert("r32float"@[1] != "rg8unorm"@[1]);
            assert("r32float"@[1] != "rg8snorm"@[1]);
        },
        TextureFormat::Rg16Uint => {
            assert("rg16uint"@[1] != "r16unorm"@[1]);
            assert("rg16uint"@[1] != "r16snorm"@[1]);
            assert("rg16uint"@[1] != "r16float"@[1]);
            assert("rg16uint"@[2] != "rg8unorm"@[2]);
            assert("rg16uint"@[2] != "rg8snorm"@[2]);
            assert("rg16uint"@[1] != "r32float"@[1]);
        },
        TextureFormat::Rg16Sint => {
            assert("rg16sint"@[1] != "r16unorm"@[1]);
            assert("rg16sint"@[1] != "r16snorm"@[1]);
            assert("rg16sint"@[1] != "r16float"@[1]);
            assert("rg16sint"@[2] != "rg8unorm"@[2]);
            assert("rg16sint"@[2] != "rg8snorm"@[2]);
            assert("rg16sint"@[1] != "r32float"@[1]);
            assert("rg16sint"@[4] != "rg16uint"@[4]);
        },
        TextureFormat::Rg16Snorm => {
            assert("rg16snorm"@[4] != "rg16unorm"@[4]);
        },
        TextureFormat::Rg16Float => {
            assert("rg16float"@[4] != "rg16unorm"@[4]);
            assert("rg16float"@[4] != "rg16snorm"@[4]);
        },
        TextureFormat::Rgba8Snorm => {
            assert("rgba8snorm"@[5] != "rgba8unorm"@[5]);
        },
        TextureFormat::Rgba8Uint => {
            assert("rgba8uint"@[2] != "rg16unorm"@[2]);
            assert("rgba8uint"@[2] != "rg16snorm"@[2]);
            assert("rgba8uint"@[2] != "rg16float"@[2]);
        },
        TextureFormat::Rgba8Sint => {
            assert("rgba8sint"@[2] != "rg16unorm"@[2]);
            assert("rgba8sint"@[2] != "rg16snorm"@[2]);
            assert("rgba8sint"@[2] != "rg16float"@[2]);
            assert("rgba8sint"@[5] != "rgba8uint"@[5]);
        },
        TextureFormat::Bgra8Unorm => {
            assert("bgra8unorm"@[0] != "rgba8unorm"@[0]);
            assert("bgra8unorm"@[0] != "rgba8snorm"@[0]);
        },
        TextureFormat::Bgra8UnormSrgb => {
            assert("bgra8unorm-srgb"@[0] != "rgba8unorm-srgb"@[0]);
        },
        TextureFormat::Rg32Uint => {
            assert("rg32uint"@[1] != "r16unorm"@[1]);
            assert("rg32uint"@[1] != "r16snorm"@[1]);
            assert("rg32uint"@[1] != "r16float"@[1]);
            assert("rg32uint"@[2] != "rg8unorm"@[2]);
            assert("rg32uint"@[2] != "rg8snorm"@[2]);
            assert("rg32uint"@[1] != "r32float"@[1]);
            assert("rg32uint"@[2] != "rg16uint"@[2]);
            assert("rg32uint"@[2] != "rg16sint"@[2]);
        },
        TextureFormat::Rg32Sint => {
            assert("rg32sint"@[1] != "r16unorm"@[1]);
            assert("rg32sint"@[1] != "r16snorm"@[1]);
            assert("rg32sint"@[1] != "r16float"@[1]);
            assert("rg32sint"@[2] != "rg8unorm"@[2]);
            assert("rg32sint"@[2] != "rg8snorm"@[2]);
            assert("rg32sint"@[1] != "r32float"@[1]);
            assert("rg32sint"@[2] != "rg16uint"@[2]);
            assert("rg32sint"@[2] != "rg16sint"@[2]);
            assert("rg32sint"@[4] != "rg32uint"@[4]);
        },
        TextureFormat::Rg32Float => {
            assert("rg32float"@[2] != "rg16unorm"@[2]);
            assert("rg32float"@[2] != "rg16snorm"@[2]);
            assert("rg32float"@[2] != "rg16float"@[2]);
            assert("rg32float"@[2] != "rgba8uint"@[2]);
            assert("rg32float"@[2] != "rgba8sint"@[2]);
        },
        TextureFormat::Rgba16Uint => {
            assert("rgba16uint"@[4] != "rgba8unorm"@[4]);
            assert("rgba16uint"@[4] != "rgba8snorm"@[4]);
            assert("rgba16uint"@[0] != "bgra8unorm"@[0]);
        },
        TextureFormat::Rgba16Sint => {
            assert("rgba16sint"@[4] != "rgba8unorm"@[4]);
            assert("rgba16sint"@[4] != "rgba8snorm"@[4]);
            assert("rgba16sint"@[0] != "bgra8unorm"@[0]);
            assert("rgba16sint"@[6] != "rgba16uint"@[6]);
        },
        TextureFormat::Rgba16Unorm => {
            assert("rgba16unorm"@[3] != "rgb10a2uint"@[3]);
        },
        TextureFormat::Rgba16Snorm => {
            assert("rgba16snorm"@[3] != "rgb10a2uint"@[3]);
            assert("rgba16snorm"@[6] != "rgba16unorm"@[6]);
        },
        TextureFormat::Rgba16Float => {
            assert("rgba16float"@[3] != "rgb10a2uint"@[3]);
            assert("rgba16float"@[6] != "rgba16unorm"@[6]);
            assert("rgba16float"@[6] != "rgba16snorm"@[6]);
        },
        TextureFormat::Rgba32Uint => {
            assert("rgba32uint"@[4] != "rgba8unorm"@[4]);
            assert("rgba32uint"@[4] != "rgba8snorm"@[4]);
            assert("rgba32uint"@[0] != "bgra8unorm"@[0]);
            assert("rgba32uint"@[4] != "rgba16uint"@[4]);
            assert("rgba32uint"@[4] != "rgba16sint"@[4]);
        },
        TextureFormat::Rgba32Sint => {
            assert("rgba32sint"@[4] != "rgba8unorm"@[4]);
            assert("rgba32sint"@[4] != "rgba8snorm"@[4]);
            assert("rgba32sint"@[0] != "bgra8unorm"@[0]);
            assert("rgba32sint"@[4] != "rgba16uint"@[4]);
            assert("rgba32sint"@[4] != "rgba16sint"@[4]);
            assert("rgba32sint"@[6] != "rgba32uint"@[6]);
        },
        TextureFormat::Rgba32Float => {
            assert("rgba32float"@[3] != "rgb10a2uint"@[3]);
            assert("rgba32float"@[4] != "rgba16unorm"@[4]);
            assert("rgba32float"@[4] != "rgba16snorm"@[4]);
            assert("rgba32float"@[4] != "rgba16float"@[4]);
        },
        TextureFormat::Stencil8 => {
            assert("stencil8"@[0] != "r16unorm"@[0]);
            assert("stencil8"@[0] != "r16snorm"@[0]);
            assert("stencil8"@[0] != "r16float"@[0]);
            assert("stencil8"@[0] != "rg8unorm"@[0]);
            assert("stencil8"@[0] != "rg8snorm"@[0]);
            assert("stencil8"@[0] != "r32float"@[0]);
            assert("stencil8"@[0] != "rg16uint"@[0]);
            assert("stencil8"@[0] != "rg16sint"@[0]);
            assert("stencil8"@[0] != "rg32uint"@[0]);
            assert("stencil8"@[0] != "rg32sint"@[0]);
        },
        TextureFormat::Depth32Float => {
            assert("depth32float"@[0] != "rgb10a2unorm"@[0]);
        },
        TextureFormat::Depth16Unorm => {
            assert("depth16unorm"@[0] != "rgb10a2unorm"@[0]);
            assert("depth16unorm"@[5] != "depth32float"@[5]);
        },
        TextureFormat::Depth24Plus => {
            assert("depth24plus"@[0] != "rgb10a2uint"@[0]);
            assert("depth24plus"@[0] != "rgba16unorm"@[0]);
            assert("depth24plus"@[0] != "rgba16snorm"@[0]);
            assert("depth24plus"@[0] != "rgba16float"@[0]);
            assert("depth24plus"@[0] != "rgba32float"@[0]);
        },
        TextureFormat::Rgb9e5Ufloat => {
            assert("rgb9e5ufloat"@[3] != "rgb10a2unorm"@[3]);
            assert("rgb9e5ufloat"@[0] != "depth32float"@[0]);
            assert("rgb9e5ufloat"@[0] != "depth16unorm"@[0]);
        },
        TextureFormat::Bc2RgbaUnorm => {
            assert("bc2-rgba-unorm"@[2] != "bc1-rgba-unorm"@[2]);
        },
        TextureFormat::Bc2RgbaUnormSrgb => {
            assert("bc2-rgba-unorm-srgb"@[2] != "bc1-rgba-unorm-srgb"@[2]);
        },
        TextureFormat::Bc3RgbaUnorm => {
            assert("bc3-rgba-unorm"@[2] != "bc1-rgba-unorm"@[2]);
            assert("bc3-rgba-unorm"@[2] != "bc2-rgba-unorm"@[2]);
        },
        TextureFormat::Bc3RgbaUnormSrgb => {
            assert("bc3-rgba-unorm-srgb"@[2] != "bc1-rgba-unorm-srgb"@[2]);
            assert("bc3-rgba-unorm-srgb"@[2] != "bc2-rgba-unorm-srgb"@[2]);
        },
        TextureFormat::Bc4RUnorm => {
            assert("bc4-r-unorm"@[0] != "rgb10a2uint"@[0]);
            assert("bc4-r-unorm"@[0] != "rgba16unorm"@[0]);
            assert("bc4-r-unorm"@[0] != "rgba16snorm"@[0]);
            assert("bc4-r-unorm"@[0] != "rgba16float"@[0]);
            assert("bc4-r-unorm"@[0] != "rgba32float"@[0]);
            assert("bc4-r-unorm"@[0] != "depth24plus"@[0]);
        },
        TextureFormat::Bc4RSnorm => {
            assert("bc4-r-snorm"@[0] != "rgb10a2uint"@[0]);
            assert("bc4-r-snorm"@[0] != "rgba16unorm"@[0]);
            assert("bc4-r-snorm"@[0] != "rgba16snorm"@[0]);
            assert("bc4-r-snorm"@[0] != "rgba16float"@[0]);
            assert("bc4-r-snorm"@[0] != "rgba32float"@[0]);
            assert("bc4-r-snorm"@[0] != "depth24plus"@[0]);
            assert("bc4-r-snorm"@[6] != "bc4-r-unorm"@[6]);
        },
        TextureFormat::Bc5RgUnorm => {
            assert("bc5-rg-unorm"@[0] != "rgb10a2unorm"@[0]);
            assert("bc5-rg-unorm"@[0] != "depth32float"@[0]);
            assert("bc5-rg-unorm"@[0] != "depth16unorm"@[0]);
            assert("bc5-rg-unorm"@[0] != "rgb9e5ufloat"@[0]);
        },
        TextureFormat::Bc5RgSnorm => {
            assert("bc5-rg-snorm"@[0] != "rgb10a2unorm"@[0]);
            assert("bc5-rg-snorm"@[0] != "depth32float"@[0]);
            assert("bc5-rg-snorm"@[0] != "depth16unorm"@[0]);
            assert("bc5-rg-snorm"@[0] != "rgb9e5ufloat"@[0]);
            assert("bc5-rg-snorm"@[7] != "bc5-rg-unorm"@[7]);
        },
        TextureFormat::Bc6hRgbUfloat => {
            assert("bc6h-rgb-ufloat"@[0] != "rgba8unorm-srgb"@[0]);
            assert("bc6h-rgb-ufloat"@[1] != "bgra8unorm-srgb"@[1]);
        },
        TextureFormat::Bc6hRgbFloat => {
            assert("bc6h-rgb-float"@[2] != "bc1-rgba-unorm"@[2]);
            assert("bc6h-rgb-float"@[2] != "bc2-rgba-unorm"@[2]);
            assert("bc6h-rgb-float"@[2] != "bc3-rgba-unorm"@[2]);
        },
        TextureFormat::Bc7RgbaUnorm => {
            assert("bc7-rgba-unorm"@[2] != "bc1-rgba-unorm"@[2]);
            assert("bc7-rgba-unorm"@[2] != "bc2-rgba-unorm"@[2]);
            assert("bc7-rgba-unorm"@[2] != "bc3-rgba-unorm"@[2]);
            assert("bc7-rgba-unorm"@[2] != "bc6h-rgb-float"@[2]);
        },
        TextureFormat::Bc7RgbaUnormSrgb => {
            assert("bc7-rgba-unorm-srgb"@[2] != "bc1-rgba-unorm-srgb"@[2]);
            assert("bc7-rgba-unorm-srgb"@[2] != "bc2-rgba-unorm-srgb"@[2]);
            assert("bc7-rgba-unorm-srgb"@[2] != "bc3-rgba-unorm-srgb"@[2]);
        },
        TextureFormat::Etc2Rgb8Unorm => {
            assert("etc2-rgb8unorm"@[0] != "bc1-rgba-unorm"@[0]);
            assert("etc2-rgb8unorm"@[0] != "bc2-rgba-unorm"@[0]);
            assert("etc2-rgb8unorm"@[0] != "bc3-rgba-unorm"@[0]);
            assert("etc2-rgb8unorm"@[0] != "bc6h-rgb-float"@[0]);
            assert("etc2-rgb8unorm"@[0] != "bc7-rgba-unorm"@[0]);
        },
        TextureFormat::Etc2Rgb8UnormSrgb => {
            assert("etc2-rgb8unorm-srgb"@[0] != "bc1-rgba-unorm-srgb"@[0]);
            assert("etc2-rgb8unorm-srgb"@[0] != "bc2-rgba-unorm-srgb"@[0]);
            assert("etc2-rgb8unorm-srgb"@[0] != "bc3-rgba-unorm-srgb"@[0]);
            assert("etc2-rgb8unorm-srgb"@[0] != "bc7-rgba-unorm-srgb"@[0]);
        },
        TextureFormat::Etc2Rgb8A1UnormSrgb => {
            assert("etc2-rgb8a1unorm-srgb"@[0] != "depth32float-stencil8"@[0]);
        },
        TextureFormat::Etc2Rgba8Unorm => {
            assert("etc2-rgba8unorm"@[0] != "rgba8unorm-srgb"@[0]);
            assert("etc2-rgba8unorm"@[0] != "bgra8unorm-srgb"@[0]);
            assert("etc2-rgba8unorm"@[0] != "bc6h-rgb-ufloat"@[0]);
        },
        TextureFormat::Etc2Rgba8UnormSrgb => {
            assert("etc2-rgba8unorm-srgb"@[0] != "depth24plus-stencil8"@[0]);
        },
        TextureFormat::EacR11Unorm => {
            assert("eac-r11unorm"@[0] != "rgb10a2unorm"@[0]);
            assert("eac-r11unorm"@[0] != "depth32float"@[0]);
            assert("eac-r11unorm"@[0] != "depth16unorm"@[0]);
            assert("eac-r11unorm"@[0] != "rgb9e5ufloat"@[0]);
            assert("eac-r11unorm"@[0] != "bc5-rg-unorm"@[0]);
            assert("eac-r11unorm"@[0] != "bc5-rg-snorm"@[0]);
        },
        TextureFormat::EacR11Snorm => {
            assert("eac-r11snorm"@[0] != "rgb10a2unorm"@[0]);
            assert("eac-r11snorm"@[0] != "depth32float"@[0]);
            assert("eac-r11snorm"@[0] != "depth16unorm"@[0]);
            assert("eac-r11snorm"@[0] != "rgb9e5ufloat"@[0]);
            assert("eac-r11snorm"@[0] != "bc5-rg-unorm"@[0]);
            assert("eac-r11snorm"@[0] != "bc5-rg-snorm"@[0]);
            assert("eac-r11snorm"@[7] != "eac-r11unorm"@[7]);
        },
        TextureFormat::EacRg11Unorm => {
            assert("eac-rg11unorm"@[0] != "rg11b10ufloat"@[0]);
        },
        TextureFormat::EacRg11Snorm => {
            assert("eac-rg11snorm"@[0] != "rg11b10ufloat"@[0]);
            assert("eac-rg11snorm"@[8] != "eac-rg11unorm"@[8]);
        },
        _ => {},
    }
}

proof fn lemma_block_round_trip(x: AstcBlock)
    ensures
        astc_block_from_name(astc_block_name(x)) == Some(x),
        forall|k: int| 0 <= k < astc_block_name(x).len() ==> astc_block_name(x)[k] != '-',
{
    reveal_strlit("4x4");
    reveal_strlit("5x4");
    reveal_strlit("5x5");
    reveal_strlit("6x5");
    reveal_strlit("6x6");
    reveal_strlit("8x5");
    reveal_strlit("8x6");
    reveal_strlit("8x8");
    reveal_strlit("10x5");
    reveal_strlit("10x6");
    reveal_strlit("10x8");
    reveal_strlit("10x10");
    reveal_strlit("12x10");
    reveal_strlit("12x12");
    assert("4x4"@.len() == 3);
    assert("5x4"@.len() == 3);
    assert("5x5"@.len() == 3);
    assert("6x5"@.len() == 3);
    assert("6x6"@.len() == 3);
    assert("8x5"@.len() == 3);
    assert("8x6"@.len() == 3);
    assert("8x8"@.len() == 3);
    assert("10x5"@.len() == 4);
    assert("10x6"@.len() == 4);
    assert("10x8"@.len() == 4);
    assert("10x10"@.len() == 5);
    assert("12x10"@.len() == 5);
    assert("12x12"@.len() == 5);
    match x {
        AstcBlock::B5x4 => {
            assert("5x4"@[0] != "4x4"@[0]);
        },
        AstcBlock::B5x5 => {
            assert("5x5"@[0] != "4x4"@[0]);
            assert("5x5"@[2] != "5x4"@[2]);
        },
        AstcBlock::B6x5 => {
            assert("6x5"@[0] != "4x4"@[0]);
            assert("6x5"@[0] != "5x4"@[0]);
            assert("6x5"@[0] != "5x5"@[0]);
        },
        AstcBlock::B6x6 => {
            assert("6x6"@[0] != "4x4"@[0]);
            assert("6x6"@[0] != "5x4"@[0]);
            assert("6x6"@[0] != "5x5"@[0]);
            assert("6x6"@[2] != "6x5"@[2]);
        },
        AstcBlock::B8x5 => {
            assert("8x5"@[0] != "4x4"@[0]);
            assert("8x5"@[0] != "5x4"@[0]);
            assert("8x5"@[0] != "5x5"@[0]);
            assert("8x5"@[0] != "6x5"@[0]);
            assert("8x5"@[0] != "6x6"@[0]);
        },
        AstcBlock::B8x6 => {
            assert("8x6"@[0] != "4x4"@[0]);
            assert("8x6"@[0] != "5x4"@[0]);
            assert("8x6"@[0] != "5x5"@[0]);
            assert("8x6"@[0] != "6x5"@[0]);
            assert("8x6"@[0] != "6x6"@[0]);
            assert("8x6"@[2] != "8x5"@[2]);
        },
        AstcBlock::B8x8 => {
            assert("8x8"@[0] != "4x4"@[0]);
            assert("8x8"@[0] != "5x4"@[0]);
            assert("8x8"@[0] != "5x5"@[0]);
            assert("8x8"@[0] != "6x5"@[0]);
            assert("8x8"@[0] != "6x6"@[0]);
            assert("8x8"@[2] != "8x5"@[2]);
            assert("8x8"@[2] != "8x6"@[2]);
        },
        AstcBlock::B10x6 => {
            assert("10x6"@[3] != "10x5"@[3]);
        },
        AstcBlock::B10x8 => {
            assert("10x8"@[3] != "10x5"@[3]);
            assert("10x8"@[3] != "10x6"@[3]);
        },
        AstcBlock::B12x10 => {
            assert("12x10"@[1] != "10x10"@[1]);
        },
        AstcBlock::B12x12 => {
            assert("12x12"@[1] != "10x10"@[1]);
            assert("12x12"@[4] != "12x10"@[4]);
        },
        _ => {},
    }
}

proof fn lemma_channel_round_trip(x: AstcChannel)
    ensures
        astc_channel_from_name(astc_channel_name(x)) == Some(x),
{
    reveal_strlit("unorm");
    reveal_strlit("unorm-srgb");
    reveal_strlit("hdr");
    assert("unorm"@.len() == 5);
    assert("unorm-srgb"@.len() == 10);
    assert("hdr"@.len() == 3);
    match x {
        _ => {},
    }
}

/// Reading back the name a format is written as gives that format.
pub proof fn lemma_texture_format_round_trip(f: TextureFormat)
    ensures
        texture_format_from_name(texture_format_name(f)) == Some(f),
{
    match f {
        TextureFormat::Astc { block, channel } => {
            let s = texture_format_name(f);
            let bn = astc_block_name(block);
            let cn = astc_channel_name(channel);
            reveal_strlit("astc-");
            reveal_strlit("-");
            assert(s[0] == 'a');
            assert(plain_format_from_name(s) is None) by {
                if let Some(g) = plain_format_from_name(s) {
                    lemma_plain_sound(s);
                    lemma_plain_name_first_char(g);
                }
            }
            assert(has_prefix(s, "astc-"@));
            let rest = s.subrange(5, s.len() as int);
            assert(rest =~= bn + seq!['-'] + cn);
            lemma_block_round_trip(block);
            lemma_channel_round_trip(channel);
            crate::text::lemma_first_index_after_clean_prefix(bn, '-', cn);
            assert(rest.subrange(0, bn.len() as int) =~= bn);
            assert(rest.subrange(bn.len() as int + 1, rest.len() as int) =~= cn);
        },
        _ => {
            lemma_plain_round_trip(f);
        },
    }
}

proof fn lemma_plain_sound(s: Seq<char>)
    ensures
        plain_format_from_name(s) matches Some(f) ==> !(f is Astc) && texture_format_name(f) == s,
{
}

/// A name is read as a format only where it is that format's name.
pub proof fn lemma_texture_format_from_name_sound(s: Seq<char>)
    ensures
        texture_format_from_name(s) matches Some(f) ==> texture_format_name(f) == s,
{
    lemma_plain_sound(s);
    if plain_format_from_name(s) is None && has_prefix(s, "astc-"@) {
        let rest = s.subrange(5, s.len() as int);
        if let Some(TextureFormat::Astc { block, channel }) = astc_format_from_name(rest) {
            let j = first_index_of(rest, '-')->0;
            reveal_strlit("astc-");
            reveal_strlit("-");
            assert(s =~= "astc-"@ + rest.subrange(0, j) + "-"@ + rest.subrange(j + 1, rest.len() as int));
        }
    }
}

/// Two formats with the same name are the same format.
pub proof fn lemma_texture_format_name_injective(f: TextureFormat, g: TextureFormat)
    requires
        texture_format_name(f) == texture_format_name(g),
    ensures
        f == g,
{
    lemma_texture_format_round_trip(f);
    lemma_texture_format_round_trip(g);
}

} // verus!
