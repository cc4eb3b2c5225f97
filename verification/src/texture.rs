//! The engine's image type as the library sees it.
//!
//! An [`Image`] is opaque to the verifier. What the contracts say of one is
//! said through its [`ImageView`], which is put together from six names,
//! one for each part of an image that the library sets or relies on.
//! Everything trusted about images is in this file: the contracts of the
//! four functions at its end are believed, not proved, and each says in its
//! comment which engine function it stands for and what is claimed of it.

use bevy::asset::RenderAssetUsages;
use bevy::image::{Image, ImageSampler};
use bevy::render::render_resource::{Extent3d, TextureDimension, TextureFormat, TextureUsages};
use vstd::prelude::*;

use crate::size::PixelSize;

verus! {

/// Texel formats that the library allocates textures in.
#[derive(Clone, Copy, Debug, PartialEq, Eq, Structural)]
pub enum PixelFormat {
    /// Four 8-bit channels, sRGB encoded: the engine's default.
    Rgba8UnormSrgb,
    /// Four 16-bit floating-point channels, for high dynamic range.
    Rgba16Float,
}

/// Which side of the engine keeps the texture's buffer.
#[derive(Clone, Copy, Debug, PartialEq, Eq, Structural)]
pub enum Residency {
    /// The main world only: game logic can read and resize the buffer.
    MainWorld,
    /// The render world only: the buffer leaves the main world once uploaded.
    RenderWorld,
    /// Both worlds.
    Both,
}

/// How a texture is filtered when it is sampled.
#[derive(Clone, Copy, Debug, PartialEq, Eq, Structural)]
pub enum Sampling {
    /// Nearest neighbour: no smoothing.
    Nearest,
    /// Linear interpolation.
    Linear,
}

/// What the GPU may do with a texture.
#[derive(Clone, Copy, Debug, PartialEq, Eq, Structural)]
pub struct TextureUse {
    /// Shaders may read it.
    pub texture_binding: bool,
    /// A render pass may draw into it.
    pub render_attachment: bool,
}

impl PixelFormat {
    /// Bytes per texel.
    pub open spec fn texel_bytes(self) -> nat {
        match self {
            PixelFormat::Rgba8UnormSrgb => 4,
            PixelFormat::Rgba16Float => 8,
        }
    }

    /// Bytes per texel.
    pub fn texel_size(&self) -> (n: usize)
        ensures
            n == self.texel_bytes(),
    {
        match self {
            PixelFormat::Rgba8UnormSrgb => 4,
            PixelFormat::Rgba16Float => 8,
        }
    }
}

impl Residency {
    /// The engine's flag bits: 1 for the main world, 2 for the render world.
    pub open spec fn bits(self) -> u8 {
        match self {
            Residency::MainWorld => 1,
            Residency::RenderWorld => 2,
            Residency::Both => 3,
        }
    }
}

impl TextureUse {
    /// The GPU interface's flag bits: 4 for a texture binding, 16 for a
    /// render attachment.
    pub open spec fn bits(self) -> u32 {
        match (self.texture_binding, self.render_attachment) {
            (false, false) => 0,
            (true, false) => 4,
            (false, true) => 16,
            (true, true) => 20,
        }
    }
}

/// `bevy::image::Image`: a CPU-side pixel buffer with its texture
/// description.
#[verifier::external_type_specification]
#[verifier::external_body]
pub struct ExImage(Image);

/// Width, height and layer count of an image: the three fields of its
/// `texture_descriptor.size`.
pub uninterp spec fn image_extent(image: Image) -> (u32, u32, u32);

/// The image's texel format, `texture_descriptor.format`, where it is the
/// engine's format of the same name as one of [`PixelFormat`]; `None` for
/// any other.
pub uninterp spec fn image_format(image: Image) -> Option<PixelFormat>;

/// The bytes of the image's buffer, `data`, in order; `None` where the
/// image has no buffer.
pub uninterp spec fn image_bytes(image: Image) -> Option<Seq<u8>>;

/// The bits of the image's usage flags, `texture_descriptor.usage`.
pub uninterp spec fn image_usage_bits(image: Image) -> u32;

/// The bits of the image's `asset_usage`.
pub uninterp spec fn image_residency_bits(image: Image) -> u8;

/// How the image is sampled: `Some` where its `sampler` is a descriptor of
/// its own whose minification, magnification and mipmap filters are all
/// three nearest or all three linear; `None` for any other sampler.
pub uninterp spec fn image_sampling(image: Image) -> Option<Sampling>;

/// What the library knows of an image.
pub struct ImageView {
    pub size: PixelSize,
    pub layers: u32,
    pub format: Option<PixelFormat>,
    pub bytes: Option<Seq<u8>>,
    pub usage_bits: u32,
    pub residency_bits: u8,
    pub sampling: Option<Sampling>,
}

/// The view of an image.
pub open spec fn view_of(image: Image) -> ImageView {
    ImageView {
        size: PixelSize { width: image_extent(image).0, height: image_extent(image).1 },
        layers: image_extent(image).2,
        format: image_format(image),
        bytes: image_bytes(image),
        usage_bits: image_usage_bits(image),
        residency_bits: image_residency_bits(image),
        sampling: image_sampling(image),
    }
}

/// `pattern` repeated from its start until `len` bytes are there.
pub open spec fn repeated(pattern: Seq<u8>, len: nat) -> Seq<u8> {
    Seq::new(len, |i: int| pattern[i % (pattern.len() as int)])
}

/// `bytes` cut to `len`, or continued with zeros up to `len`.
pub open spec fn resized(bytes: Seq<u8>, len: nat) -> Seq<u8> {
    Seq::new(len, |i: int| if i < bytes.len() { bytes[i] } else { 0u8 })
}

/// Calls `Image::new_fill` for a two-dimensional texture of one layer.
///
/// Trusted: the new image has the size asked for and one layer, the format
/// and residency asked for, and a buffer that holds `texel` repeated from
/// end to end. The preconditions keep the call away from its unchecked
/// multiplications and from its debug assertions: the texel count fits in
/// `u32`, the byte count in `usize`, and `texel` is a whole number of
/// texels, no longer than the buffer and empty only for an empty buffer.
#[verifier::external_body]
pub(crate) fn filled_image(
    size: PixelSize,
    texel: &Vec<u8>,
    format: PixelFormat,
    residency: Residency,
) -> (image: Image)
    requires
        size.fits(format.texel_bytes()),
        texel@.len() % format.texel_bytes() == 0,
        texel@.len() <= size.byte_len(format.texel_bytes()),
        texel@.len() == 0 ==> size.byte_len(format.texel_bytes()) == 0,
    ensures
        image_extent(image) == (size.width, size.height, 1u32),
        image_format(image) == Some(format),
        image_bytes(image) == Some(repeated(texel@, size.byte_len(format.texel_bytes()))),
        image_residency_bits(image) == residency.bits(),
{
    let extent = Extent3d { width: size.width, height: size.height, depth_or_array_layers: 1 };
    let format = match format {
        PixelFormat::Rgba8UnormSrgb => TextureFormat::Rgba8UnormSrgb,
        PixelFormat::Rgba16Float => TextureFormat::Rgba16Float,
    };
    let usages = match residency {
        Residency::MainWorld => RenderAssetUsages::MAIN_WORLD,
        Residency::RenderWorld => RenderAssetUsages::RENDER_WORLD,
        Residency::Both => RenderAssetUsages::all(),
    };
    Image::new_fill(extent, TextureDimension::D2, texel, format, usages)
}

/// Calls `Image::resize` with a two-dimensional extent of one layer.
///
/// Trusted: the image takes the new size and one layer; its buffer is cut
/// to the new byte count or continued with zeros up to it; nothing else of
/// it changes. The preconditions ask for an image that has a buffer and one
/// of the library's formats, and for a texel count that fits in `u32` and a
/// byte count that fits in `usize`, which the call multiplies out
/// unchecked.
#[verifier::external_body]
pub(crate) fn resize_image(image: &mut Image, size: PixelSize)
    requires
        image_bytes(*old(image)).is_some(),
        image_format(*old(image)).is_some(),
        size.fits(image_format(*old(image)).unwrap().texel_bytes()),
    ensures
        image_extent(*final(image)) == (size.width, size.height, 1u32),
        image_bytes(*final(image)) == Some(
            resized(
                image_bytes(*old(image)).unwrap(),
                size.byte_len(image_format(*old(image)).unwrap().texel_bytes()),
            ),
        ),
        image_format(*final(image)) == image_format(*old(image)),
        image_usage_bits(*final(image)) == image_usage_bits(*old(image)),
        image_residency_bits(*final(image)) == image_residency_bits(*old(image)),
        image_sampling(*final(image)) == image_sampling(*old(image)),
{
    image.resize(Extent3d { width: size.width, height: size.height, depth_or_array_layers: 1 });
}

/// Stores usage flags in the image's `texture_descriptor.usage`: those of
/// `usage`, put together with `TextureUsages::set`, and no others.
///
/// Trusted: the image has these usage flags afterwards; nothing else of it
/// changes.
#[verifier::external_body]
pub(crate) fn set_usage(image: &mut Image, usage: TextureUse)
    ensures
        image_usage_bits(*final(image)) == usage.bits(),
        image_extent(*final(image)) == image_extent(*old(image)),
        image_format(*final(image)) == image_format(*old(image)),
        image_bytes(*final(image)) == image_bytes(*old(image)),
        image_residency_bits(*final(image)) == image_residency_bits(*old(image)),
        image_sampling(*final(image)) == image_sampling(*old(image)),
{
    let mut flags = TextureUsages::empty();
    flags.set(TextureUsages::TEXTURE_BINDING, usage.texture_binding);
    flags.set(TextureUsages::RENDER_ATTACHMENT, usage.render_attachment);
    image.texture_descriptor.usage = flags;
}

/// Stores `ImageSampler::nearest()` or `ImageSampler::linear()` in the
/// image's `sampler`.
///
/// Trusted: the image is sampled that way afterwards; nothing else of it
/// changes.
#[verifier::external_body]
pub(crate) fn set_sampler(image: &mut Image, sampling: Sampling)
    ensures
        image_sampling(*final(image)) == Some(sampling),
        image_extent(*final(image)) == image_extent(*old(image)),
        image_format(*final(image)) == image_format(*old(image)),
        image_bytes(*final(image)) == image_bytes(*old(image)),
        image_usage_bits(*final(image)) == image_usage_bits(*old(image)),
        image_residency_bits(*final(image)) == image_residency_bits(*old(image)),
{
    image.sampler = match sampling {
        Sampling::Nearest => ImageSampler::nearest(),
        Sampling::Linear => ImageSampler::linear(),
    };
}

} // verus!
