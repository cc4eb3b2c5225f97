//! The render target: the intermediate texture that the scene is drawn into
//! and the window shows.
//!
//! The target is made once, blank, at a placeholder size. From then on only
//! the reconciler changes its dimensions: whenever the window reports a
//! resize or a change of scale factor, the target is reallocated, blank
//! again, at the window's current size.

use bevy::image::Image;
use vstd::prelude::*;

use crate::size::PixelSize;
use crate::texture::{
    filled_image, resize_image, set_sampler, set_usage, view_of, ImageView, PixelFormat,
    Residency, Sampling, TextureUse,
};

verus! {

/// Width of the target before the first notification.
pub const INITIAL_WIDTH: u32 = 100;

/// Height of the target before the first notification.
pub const INITIAL_HEIGHT: u32 = 100;

/// Bytes per texel of the target's format.
pub const TARGET_TEXEL_BYTES: usize = 8;

/// Why the target could not be made or brought to size. Both are fatal to
/// the program: neither has a recovery path.
#[derive(Clone, Copy, Debug, PartialEq, Eq, Structural)]
pub enum TargetError {
    /// The asset store has no texture under the target's handle.
    MissingTexture,
    /// No buffer of the size asked for can be allocated.
    AllocationFailure,
}

/// How a texture is made, apart from its size.
#[derive(Clone, Copy, Debug, PartialEq, Eq, Structural)]
pub struct TextureRecipe {
    pub format: PixelFormat,
    pub usage: TextureUse,
    pub sampling: Sampling,
    pub residency: Residency,
}

/// What became of the target in one frame.
#[derive(Clone, Copy, Debug, PartialEq, Eq, Structural)]
pub enum Reconciled {
    /// No notification had arrived: the target was not touched.
    Unchanged,
    /// The target was reallocated at this size.
    Resized(PixelSize),
}

/// The recipe of the render target: high-dynamic-range texels, readable by
/// shaders and drawable by a render pass, sampled without smoothing, and
/// kept where game logic can resize it.
pub open spec fn target_recipe_spec() -> TextureRecipe {
    TextureRecipe {
        format: PixelFormat::Rgba16Float,
        usage: TextureUse { texture_binding: true, render_attachment: true },
        sampling: Sampling::Nearest,
        residency: Residency::MainWorld,
    }
}

/// `len` zero bytes.
pub open spec fn blank(len: nat) -> Seq<u8> {
    Seq::new(len, |i: int| 0u8)
}

/// A texture as it comes out of an allocation: one layer of `size`, made
/// after `recipe`, with a buffer of zeros.
pub open spec fn fresh(size: PixelSize, recipe: TextureRecipe) -> ImageView {
    ImageView {
        size,
        layers: 1,
        format: Some(recipe.format),
        bytes: Some(blank(size.byte_len(recipe.format.texel_bytes()))),
        usage_bits: recipe.usage.bits(),
        residency_bits: recipe.residency.bits(),
        sampling: Some(recipe.sampling),
    }
}

/// The render target as it comes out of its creation at `size`.
pub open spec fn fresh_target(size: PixelSize) -> ImageView {
    fresh(size, target_recipe_spec())
}

/// The texture has a buffer, in the target's format.
pub open spec fn is_target_buffer(texture: ImageView) -> bool {
    texture.format == Some(PixelFormat::Rgba16Float) && texture.bytes.is_some()
}

/// A target after its reallocation at `size`: one layer of that size with a
/// buffer of zeros, and everything else as it was.
pub open spec fn reallocated(texture: ImageView, size: PixelSize) -> ImageView {
    ImageView {
        size,
        layers: 1,
        bytes: Some(blank(size.byte_len(TARGET_TEXEL_BYTES as nat))),
        ..texture
    }
}

/// A target after a frame in which `resize_events` resize notifications and
/// `scale_events` scale-factor notifications arrived while the window stood
/// at `window`: reallocated at the window's size if there was any
/// notification, untouched otherwise.
pub open spec fn reconciled(
    texture: ImageView,
    resize_events: nat,
    scale_events: nat,
    window: PixelSize,
) -> ImageView {
    if resize_events + scale_events > 0 {
        reallocated(texture, window)
    } else {
        texture
    }
}

/// What a frame's reconciliation comes to: nothing without a notification;
/// with one, a reallocation at the window's size, unless the asset store
/// has no texture or the size has no buffer. The missing texture is found
/// before the size is looked at.
pub open spec fn frame_outcome(
    present: bool,
    resize_events: nat,
    scale_events: nat,
    window: PixelSize,
) -> Result<Reconciled, TargetError> {
    if resize_events + scale_events == 0 {
        Ok(Reconciled::Unchanged)
    } else if !present {
        Err(TargetError::MissingTexture)
    } else if !window.fits(TARGET_TEXEL_BYTES as nat) {
        Err(TargetError::AllocationFailure)
    } else {
        Ok(Reconciled::Resized(window))
    }
}

/// The recipe of the render target.
pub fn target_recipe() -> (recipe: TextureRecipe)
    ensures
        recipe == target_recipe_spec(),
{
    TextureRecipe {
        format: PixelFormat::Rgba16Float,
        usage: TextureUse { texture_binding: true, render_attachment: true },
        sampling: Sampling::Nearest,
        residency: Residency::MainWorld,
    }
}

/// Allocates a blank texture of `size` after `recipe`.
pub fn allocate(size: PixelSize, recipe: &TextureRecipe) -> (image: Image)
    requires
        size.fits(recipe.format.texel_bytes()),
    ensures
        view_of(image) == fresh(size, *recipe),
{
    let texel_bytes: usize = recipe.format.texel_size();
    let texel: Vec<u8> = match size.checked_byte_len(texel_bytes) {
        Some(0) => Vec::new(),
        _ => vec![0u8; texel_bytes],
    };
    proof {
        if size.byte_len(texel_bytes as nat) > 0 {
            assert(texel_bytes <= size.texels() * texel_bytes) by (nonlinear_arith)
                requires
                    size.texels() * texel_bytes > 0,
            ;
        }
    }
    let mut image = filled_image(size, &texel, recipe.format, recipe.residency);
    assert(view_of(image).bytes.unwrap() =~= blank(size.byte_len(texel_bytes as nat)));
    set_usage(&mut image, recipe.usage);
    set_sampler(&mut image, recipe.sampling);
    image
}

/// Creates the render target at `width` by `height`: a blank texture after
/// [`target_recipe`]. Fails only where no buffer of that size can be
/// addressed.
pub fn create(width: u32, height: u32) -> (made: Result<Image, TargetError>)
    ensures
        made.is_ok() <==> (PixelSize { width, height }).fits(TARGET_TEXEL_BYTES as nat),
        made matches Ok(image) ==> view_of(image) == fresh_target(PixelSize { width, height }),
        made matches Err(error) ==> error == TargetError::AllocationFailure,
{
    let size = PixelSize::new(width, height);
    let recipe = target_recipe();
    match size.checked_byte_len(TARGET_TEXEL_BYTES) {
        Some(_) => Ok(allocate(size, &recipe)),
        None => Err(TargetError::AllocationFailure),
    }
}

/// Creates the render target at its placeholder size of 100 by 100.
pub fn create_initial() -> (image: Image)
    ensures
        view_of(image) == fresh_target(PixelSize { width: INITIAL_WIDTH, height: INITIAL_HEIGHT }),
{
    let size = PixelSize::new(INITIAL_WIDTH, INITIAL_HEIGHT);
    let recipe = target_recipe();
    assert(size.texels() == 10_000) by (nonlinear_arith)
        requires
            size.width == 100,
            size.height == 100,
    ;
    allocate(size, &recipe)
}

/// Reallocates the target at `size`, discarding what it held.
fn reallocate(texture: &mut Image, size: PixelSize)
    requires
        is_target_buffer(view_of(*old(texture))),
        size.fits(TARGET_TEXEL_BYTES as nat),
    ensures
        view_of(*final(texture)) == reallocated(view_of(*old(texture)), size),
{
    // Cutting the buffer to nothing first drops the old texels, so that
    // growing it again yields zeros throughout.
    let nothing = PixelSize::new(0, 0);
    assert(nothing.texels() == 0 && nothing.byte_len(TARGET_TEXEL_BYTES as nat) == 0)
        by (nonlinear_arith)
        requires
            nothing.width == 0,
    ;
    resize_image(texture, nothing);
    resize_image(texture, size);
    assert(view_of(*texture).bytes.unwrap() =~= blank(size.byte_len(TARGET_TEXEL_BYTES as nat)));
}

/// Reallocates the target at `size`, discarding what it held: afterwards it
/// is blank at exactly that size, and otherwise as it was. Where no buffer
/// of that size can be addressed the target stays as it was altogether.
pub fn resize_target(texture: &mut Image, size: PixelSize) -> (done: Result<(), TargetError>)
    requires
        is_target_buffer(view_of(*old(texture))),
    ensures
        done.is_ok() <==> size.fits(TARGET_TEXEL_BYTES as nat),
        done.is_ok() ==> view_of(*final(texture)) == reallocated(view_of(*old(texture)), size),
        done matches Err(error) ==> error == TargetError::AllocationFailure && *final(texture)
            == *old(texture),
{
    if size.checked_byte_len(TARGET_TEXEL_BYTES).is_none() {
        return Err(TargetError::AllocationFailure);
    }
    reallocate(texture, size);
    Ok(())
}

/// Whether any notification arrived in the frame, so that the target has to
/// be looked up and reallocated.
pub fn pending(resize_events: usize, scale_events: usize) -> (any: bool)
    ensures
        any <==> resize_events + scale_events > 0,
{
    resize_events > 0 || scale_events > 0
}

/// Brings the target to the window's size after a frame's notifications.
///
/// `texture` is the target as the asset store holds it, `None` if the store
/// has no such texture; `resize_events` and `scale_events` count the
/// notifications of either kind since the last frame; `window` is the
/// window's size now. Every notification reallocates the target at that
/// size, blank; without any, the target is not touched and need not even
/// be there.
pub fn reconcile(
    texture: Option<&mut Image>,
    resize_events: usize,
    scale_events: usize,
    window: PixelSize,
) -> (outcome: Result<Reconciled, TargetError>)
    requires
        texture matches Some(image) ==> is_target_buffer(view_of(*image)),
    ensures
        outcome == frame_outcome(
            texture.is_some(),
            resize_events as nat,
            scale_events as nat,
            window,
        ),
        texture matches Some(image) ==> (match outcome {
            Ok(Reconciled::Resized(_)) => view_of(*final(image)) == reconciled(
                view_of(*image),
                resize_events as nat,
                scale_events as nat,
                window,
            ),
            _ => *final(image) == *image,
        }),
{
    if !pending(resize_events, scale_events) {
        return Ok(Reconciled::Unchanged);
    }
    match texture {
        None => Err(TargetError::MissingTexture),
        Some(image) => {
            if window.checked_byte_len(TARGET_TEXEL_BYTES).is_none() {
                return Err(TargetError::AllocationFailure);
            }
            let ghost before = view_of(*image);
            let mut resized: usize = 0;
            while resized < resize_events
                invariant
                    resized <= resize_events,
                    window.fits(TARGET_TEXEL_BYTES as nat),
                    is_target_buffer(before),
                    view_of(*image) == reconciled(before, resized as nat, 0, window),
                decreases resize_events - resized,
            {
                reallocate(image, window);
                resized += 1;
            }
            let mut rescaled: usize = 0;
            while rescaled < scale_events
                invariant
                    rescaled <= scale_events,
                    window.fits(TARGET_TEXEL_BYTES as nat),
                    is_target_buffer(before),
                    view_of(*image) == reconciled(
                        before,
                        resize_events as nat,
                        rescaled as nat,
                        window,
                    ),
                decreases scale_events - rescaled,
            {
                reallocate(image, window);
                rescaled += 1;
            }
            Ok(Reconciled::Resized(window))
        },
    }
}

/// Once a notification has been processed the target has the window's size
/// exactly, whatever size it had, for every window that a buffer can be
/// had for.
pub proof fn law_target_follows_window(
    texture: ImageView,
    resize_events: nat,
    scale_events: nat,
    window: PixelSize,
)
    requires
        resize_events + scale_events > 0,
        window.fits(TARGET_TEXEL_BYTES as nat),
    ensures
        frame_outcome(true, resize_events, scale_events, window) == Ok::<
            Reconciled,
            TargetError,
        >(Reconciled::Resized(window)),
        reconciled(texture, resize_events, scale_events, window).size == window,
{
}

/// Reconciling twice over the same notifications and the same window
/// leaves what reconciling once leaves.
pub proof fn law_reconcile_idempotent(
    texture: ImageView,
    resize_events: nat,
    scale_events: nat,
    window: PixelSize,
)
    ensures
        reconciled(
            reconciled(texture, resize_events, scale_events, window),
            resize_events,
            scale_events,
            window,
        ) == reconciled(texture, resize_events, scale_events, window),
{
}

/// Within a frame it does not matter which kind of notification is
/// processed first: resize notifications before scale-factor notifications,
/// the other way round, or all at once leave the same target.
pub proof fn law_notification_order(
    texture: ImageView,
    resize_events: nat,
    scale_events: nat,
    window: PixelSize,
)
    ensures
        reconciled(reconciled(texture, resize_events, 0, window), 0, scale_events, window)
            == reconciled(texture, resize_events, scale_events, window),
        reconciled(reconciled(texture, 0, scale_events, window), resize_events, 0, window)
            == reconciled(texture, resize_events, scale_events, window),
{
}

/// A target that was created at one size and reallocated at another cannot
/// be told from one created at the other size.
pub proof fn law_reallocated_is_fresh(created: PixelSize, size: PixelSize)
    ensures
        reallocated(fresh_target(created), size) == fresh_target(size),
        is_target_buffer(fresh_target(size)),
{
}

} // verus!
