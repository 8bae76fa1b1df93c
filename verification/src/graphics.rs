//! Plain graphics-subsystem data the capture pipeline consumes when it
//! turns a selected window into textures, and the one size computation
//! that gates mipmap use.

use vstd::prelude::*;

verus! {

/// Color format of a texture, as the graphics subsystem names them.
#[derive(Debug, Clone, Copy, PartialEq, Eq, Structural)]
pub enum GsColorFormat {
    GsUnknown,
    GsA8,
    GsR8,
    GsRGBA,
    GsBGRX,
    GsBGRA,
    GsR10G10B10A2,
    GsRGBA16,
    GsR16,
    GsRGBA16F,
    GsRGBA32F,
    GsRG16F,
    GsRG32F,
    GsR16F,
    GsR32F,
    GsDXT1,
    GsDXT3,
    GsDXT5,
    GsR8G8,
    GsRgbaUnorm,
    GsBgrxUnorm,
    GsBgraUnorm,
    GsRg16,
}

/// Dimensionality of a texture.
#[derive(Debug, Clone, Copy, PartialEq, Eq, Structural)]
pub enum GsTextureType {
    Texture2D,
    Texture3D,
    TextureCube,
}

/// Whether a texture extent is a power of two no smaller than two — the
/// condition under which the graphics subsystem allows mipmaps.
pub open spec fn spec_is_pow2(size: u32) -> bool {
    size >= 2 && size & ((size - 1) as u32) == 0
}

/// Decides whether a texture extent is a power of two no smaller than two.
pub fn is_pow2(size: u32) -> (r: bool)
    ensures
        r == spec_is_pow2(size),
{
    size >= 2 && (size & (size - 1)) == 0
}

} // verus!
