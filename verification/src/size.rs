//! Pixel dimensions and the byte counts that follow from them.

use vstd::prelude::*;

verus! {

/// Width and height of a two-dimensional surface, in pixels.
#[derive(Clone, Copy, Debug, PartialEq, Eq, Structural)]
pub struct PixelSize {
    pub width: u32,
    pub height: u32,
}

impl PixelSize {
    /// Number of texels on a surface of this size.
    pub open spec fn texels(self) -> nat {
        (self.width * self.height) as nat
    }

    /// Number of bytes that a surface of this size takes at `texel_bytes`
    /// bytes per texel.
    pub open spec fn byte_len(self, texel_bytes: nat) -> nat {
        self.texels() * texel_bytes
    }

    /// Whether a buffer for this size can be addressed: the texel count fits
    /// in `u32` and the byte count in `usize`.
    pub open spec fn fits(self, texel_bytes: nat) -> bool {
        self.texels() <= u32::MAX && self.byte_len(texel_bytes) <= usize::MAX
    }

    /// A size of `width` by `height` pixels.
    pub fn new(width: u32, height: u32) -> (size: PixelSize)
        ensures
            size == (PixelSize { width, height }),
    {
        PixelSize { width, height }
    }

    /// The byte count of a buffer of this size, or `None` where the size
    /// does not fit.
    pub fn checked_byte_len(&self, texel_bytes: usize) -> (len: Option<usize>)
        ensures
            len.is_some() <==> self.fits(texel_bytes as nat),
            len matches Some(n) ==> n == self.byte_len(texel_bytes as nat),
    {
        assert(self.width * self.height <= 0xffff_ffff * 0xffff_ffff) by (nonlinear_arith)
            requires
                self.width <= 0xffff_ffff,
                self.height <= 0xffff_ffff,
        ;
        let texels: u64 = self.width as u64 * self.height as u64;
        if texels > u32::MAX as u64 {
            return None;
        }
        assert(texels == self.texels());
        let texels: usize = texels as usize;
        texels.checked_mul(texel_bytes)
    }
}

} // verus!
