use bevy::asset::RenderAssetUsages;
use bevy::image::{Image, ImageFilterMode, ImageSampler};
use bevy::render::render_resource::{TextureDimension, TextureFormat, TextureUsages};
use voxel_view::size::PixelSize;
use voxel_view::target::{
    allocate, create, create_initial, pending, reconcile, resize_target, target_recipe,
    Reconciled, TargetError, TextureRecipe, INITIAL_HEIGHT, INITIAL_WIDTH, TARGET_TEXEL_BYTES,
};
use voxel_view::texture::{PixelFormat, Residency, Sampling, TextureUse};

fn dimensions(image: &Image) -> (u32, u32, u32) {
    let size = image.texture_descriptor.size;
    (size.width, size.height, size.depth_or_array_layers)
}

fn bytes(image: &Image) -> &Vec<u8> {
    match &image.data {
        Some(data) => data,
        None => panic!("the texture has no buffer"),
    }
}

fn is_blank(image: &Image, len: usize) -> bool {
    let data = bytes(image);
    data.len() == len && data.iter().all(|byte| *byte == 0)
}

fn stain(image: &mut Image) {
    match &mut image.data {
        Some(data) => {
            for byte in data.iter_mut() {
                *byte = 0xa5;
            }
        }
        None => panic!("the texture has no buffer"),
    }
}

#[test]
fn placeholder_size_is_100_by_100() {
    assert_eq!(INITIAL_WIDTH, 100);
    assert_eq!(INITIAL_HEIGHT, 100);
    assert_eq!(TARGET_TEXEL_BYTES, 8);
}

#[test]
fn recipe_of_the_target() {
    assert_eq!(
        target_recipe(),
        TextureRecipe {
            format: PixelFormat::Rgba16Float,
            usage: TextureUse { texture_binding: true, render_attachment: true },
            sampling: Sampling::Nearest,
            residency: Residency::MainWorld,
        }
    );
}

#[test]
fn texel_sizes_of_the_formats() {
    assert_eq!(PixelFormat::Rgba8UnormSrgb.texel_size(), 4);
    assert_eq!(PixelFormat::Rgba16Float.texel_size(), 8);
}

#[test]
fn startup_target_is_a_blank_100_by_100_hdr_texture() {
    let image = create_initial();
    assert_eq!(dimensions(&image), (100, 100, 1));
    assert_eq!(image.texture_descriptor.dimension, TextureDimension::D2);
    assert_eq!(image.texture_descriptor.format, TextureFormat::Rgba16Float);
    assert!(is_blank(&image, 80_000));
}

#[test]
fn startup_target_is_sampled_by_shaders_and_drawn_into() {
    let image = create_initial();
    assert_eq!(
        image.texture_descriptor.usage,
        TextureUsages::TEXTURE_BINDING | TextureUsages::RENDER_ATTACHMENT
    );
}

#[test]
fn startup_target_stays_in_the_main_world() {
    let image = create_initial();
    assert_eq!(image.asset_usage, RenderAssetUsages::MAIN_WORLD);
}

#[test]
fn startup_target_is_sampled_without_smoothing() {
    let image = create_initial();
    match &image.sampler {
        ImageSampler::Descriptor(descriptor) => {
            assert!(matches!(descriptor.mag_filter, ImageFilterMode::Nearest));
            assert!(matches!(descriptor.min_filter, ImageFilterMode::Nearest));
            assert!(matches!(descriptor.mipmap_filter, ImageFilterMode::Nearest));
        }
        ImageSampler::Default => panic!("the target has no sampler of its own"),
    }
}

#[test]
fn create_makes_a_blank_texture_of_the_size_asked_for() {
    let image = create(1920, 1080).unwrap();
    assert_eq!(dimensions(&image), (1920, 1080, 1));
    assert_eq!(image.texture_descriptor.format, TextureFormat::Rgba16Float);
    assert!(is_blank(&image, 1920 * 1080 * 8));
    let small = create(3, 2).unwrap();
    assert_eq!(dimensions(&small), (3, 2, 1));
    assert!(is_blank(&small, 48));
}

#[test]
fn create_makes_empty_textures() {
    let flat = create(0, 5).unwrap();
    assert_eq!(dimensions(&flat), (0, 5, 1));
    assert!(is_blank(&flat, 0));
    let none = create(0, 0).unwrap();
    assert_eq!(dimensions(&none), (0, 0, 1));
    assert!(is_blank(&none, 0));
}

#[test]
fn create_refuses_a_size_without_a_buffer() {
    assert_eq!(create(65_536, 65_536).err(), Some(TargetError::AllocationFailure));
    assert_eq!(create(u32::MAX, u32::MAX).err(), Some(TargetError::AllocationFailure));
    assert_eq!(create(u32::MAX, 2).err(), Some(TargetError::AllocationFailure));
}

#[test]
fn allocate_follows_the_recipe() {
    let recipe = TextureRecipe {
        format: PixelFormat::Rgba8UnormSrgb,
        usage: TextureUse { texture_binding: true, render_attachment: false },
        sampling: Sampling::Linear,
        residency: Residency::Both,
    };
    let image = allocate(PixelSize::new(3, 2), &recipe);
    assert_eq!(dimensions(&image), (3, 2, 1));
    assert_eq!(image.texture_descriptor.format, TextureFormat::Rgba8UnormSrgb);
    assert!(is_blank(&image, 24));
    assert_eq!(image.texture_descriptor.usage, TextureUsages::TEXTURE_BINDING);
    assert_eq!(
        image.asset_usage,
        RenderAssetUsages::MAIN_WORLD | RenderAssetUsages::RENDER_WORLD
    );
    match &image.sampler {
        ImageSampler::Descriptor(descriptor) => {
            assert!(matches!(descriptor.mag_filter, ImageFilterMode::Linear));
            assert!(matches!(descriptor.min_filter, ImageFilterMode::Linear));
            assert!(matches!(descriptor.mipmap_filter, ImageFilterMode::Linear));
        }
        ImageSampler::Default => panic!("the texture has no sampler of its own"),
    }
}

#[test]
fn allocate_for_the_render_world_only() {
    let recipe = TextureRecipe {
        format: PixelFormat::Rgba16Float,
        usage: TextureUse { texture_binding: false, render_attachment: true },
        sampling: Sampling::Nearest,
        residency: Residency::RenderWorld,
    };
    let image = allocate(PixelSize::new(2, 2), &recipe);
    assert!(is_blank(&image, 32));
    assert_eq!(image.texture_descriptor.usage, TextureUsages::RENDER_ATTACHMENT);
    assert_eq!(image.asset_usage, RenderAssetUsages::RENDER_WORLD);
}

#[test]
fn allocate_without_any_usage() {
    let recipe = TextureRecipe {
        format: PixelFormat::Rgba8UnormSrgb,
        usage: TextureUse { texture_binding: false, render_attachment: false },
        sampling: Sampling::Nearest,
        residency: Residency::MainWorld,
    };
    let image = allocate(PixelSize::new(1, 1), &recipe);
    assert!(is_blank(&image, 4));
    assert_eq!(image.texture_descriptor.usage, TextureUsages::empty());
    assert_eq!(image.texture_descriptor.usage.bits(), 0);
}

#[test]
fn usage_and_residency_flags_have_the_bits_the_library_counts_on() {
    assert_eq!(TextureUsages::TEXTURE_BINDING.bits(), 4);
    assert_eq!(TextureUsages::RENDER_ATTACHMENT.bits(), 16);
    assert_eq!(create_initial().texture_descriptor.usage.bits(), 20);
    assert_eq!(RenderAssetUsages::MAIN_WORLD.bits(), 1);
    assert_eq!(RenderAssetUsages::RENDER_WORLD.bits(), 2);
    assert_eq!(create_initial().asset_usage.bits(), 1);
}

#[test]
fn a_resize_notification_brings_the_target_to_the_window_size() {
    for (width, height) in [(1, 1), (1, 7), (800, 600), (1920, 1080), (2560, 1440)] {
        let mut image = create_initial();
        let window = PixelSize::new(width, height);
        let outcome = reconcile(Some(&mut image), 1, 0, window);
        assert_eq!(outcome, Ok(Reconciled::Resized(window)));
        assert_eq!(dimensions(&image), (width, height, 1));
        assert!(is_blank(&image, width as usize * height as usize * 8));
    }
}

#[test]
fn a_scale_notification_brings_the_target_to_the_window_size() {
    let mut image = create_initial();
    let window = PixelSize::new(640, 480);
    let outcome = reconcile(Some(&mut image), 0, 1, window);
    assert_eq!(outcome, Ok(Reconciled::Resized(window)));
    assert_eq!(dimensions(&image), (640, 480, 1));
    assert!(is_blank(&image, 640 * 480 * 8));
}

#[test]
fn resize_scenario_1920_by_1080_to_800_by_600() {
    let mut image = create(1920, 1080).unwrap();
    let window = PixelSize::new(800, 600);
    let outcome = reconcile(Some(&mut image), 1, 0, window);
    assert_eq!(outcome, Ok(Reconciled::Resized(window)));
    assert_eq!(dimensions(&image), (800, 600, 1));
    assert!(is_blank(&image, 3_840_000));
    let after_scale_change = reconcile(Some(&mut image), 0, 1, window);
    assert_eq!(after_scale_change, Ok(Reconciled::Resized(window)));
    assert_eq!(dimensions(&image), (800, 600, 1));
    assert!(is_blank(&image, 3_840_000));
}

#[test]
fn reconciling_twice_is_reconciling_once() {
    let window = PixelSize::new(320, 200);
    let mut once = create_initial();
    let mut twice = create_initial();
    assert_eq!(reconcile(Some(&mut once), 1, 0, window), Ok(Reconciled::Resized(window)));
    assert_eq!(reconcile(Some(&mut twice), 1, 0, window), Ok(Reconciled::Resized(window)));
    assert_eq!(reconcile(Some(&mut twice), 1, 0, window), Ok(Reconciled::Resized(window)));
    assert_eq!(dimensions(&once), dimensions(&twice));
    assert_eq!(bytes(&once), bytes(&twice));
    assert_eq!(dimensions(&twice), (320, 200, 1));
}

#[test]
fn order_of_notifications_within_a_frame_does_not_matter() {
    let window = PixelSize::new(1024, 768);
    let mut resize_first = create_initial();
    assert!(reconcile(Some(&mut resize_first), 1, 0, window).is_ok());
    assert!(reconcile(Some(&mut resize_first), 0, 1, window).is_ok());
    let mut scale_first = create_initial();
    assert!(reconcile(Some(&mut scale_first), 0, 1, window).is_ok());
    assert!(reconcile(Some(&mut scale_first), 1, 0, window).is_ok());
    let mut together = create_initial();
    assert_eq!(reconcile(Some(&mut together), 1, 1, window), Ok(Reconciled::Resized(window)));
    assert_eq!(dimensions(&resize_first), (1024, 768, 1));
    assert_eq!(dimensions(&scale_first), (1024, 768, 1));
    assert_eq!(dimensions(&together), (1024, 768, 1));
    assert_eq!(bytes(&resize_first), bytes(&scale_first));
    assert_eq!(bytes(&resize_first), bytes(&together));
}

#[test]
fn several_notifications_leave_the_latest_window_size() {
    let mut image = create_initial();
    let window = PixelSize::new(300, 200);
    assert_eq!(reconcile(Some(&mut image), 3, 2, window), Ok(Reconciled::Resized(window)));
    assert_eq!(dimensions(&image), (300, 200, 1));
    assert!(is_blank(&image, 300 * 200 * 8));
}

#[test]
fn without_a_notification_the_target_is_not_touched() {
    let mut image = create_initial();
    stain(&mut image);
    let outcome = reconcile(Some(&mut image), 0, 0, PixelSize::new(800, 600));
    assert_eq!(outcome, Ok(Reconciled::Unchanged));
    assert_eq!(dimensions(&image), (100, 100, 1));
    assert_eq!(bytes(&image).len(), 80_000);
    assert!(bytes(&image).iter().all(|byte| *byte == 0xa5));
}

#[test]
fn a_reallocation_discards_what_the_target_held() {
    let mut grown = create_initial();
    stain(&mut grown);
    let larger = PixelSize::new(200, 150);
    assert_eq!(reconcile(Some(&mut grown), 1, 0, larger), Ok(Reconciled::Resized(larger)));
    assert!(is_blank(&grown, 200 * 150 * 8));
    let mut shrunk = create_initial();
    stain(&mut shrunk);
    let smaller = PixelSize::new(10, 10);
    assert_eq!(reconcile(Some(&mut shrunk), 0, 1, smaller), Ok(Reconciled::Resized(smaller)));
    assert!(is_blank(&shrunk, 800));
    let mut same = create_initial();
    stain(&mut same);
    let equal = PixelSize::new(100, 100);
    assert_eq!(resize_target(&mut same, equal), Ok(()));
    assert!(is_blank(&same, 80_000));
}

#[test]
fn a_reallocation_keeps_the_recipe() {
    let mut image = create_initial();
    assert_eq!(resize_target(&mut image, PixelSize::new(64, 32)), Ok(()));
    assert_eq!(dimensions(&image), (64, 32, 1));
    assert_eq!(image.texture_descriptor.format, TextureFormat::Rgba16Float);
    assert_eq!(
        image.texture_descriptor.usage,
        TextureUsages::TEXTURE_BINDING | TextureUsages::RENDER_ATTACHMENT
    );
    assert_eq!(image.asset_usage, RenderAssetUsages::MAIN_WORLD);
    assert!(matches!(image.sampler, ImageSampler::Descriptor(_)));
}

#[test]
fn a_minimised_window_leaves_an_empty_target_that_grows_again() {
    let mut image = create_initial();
    let gone = PixelSize::new(0, 600);
    assert_eq!(reconcile(Some(&mut image), 1, 0, gone), Ok(Reconciled::Resized(gone)));
    assert_eq!(dimensions(&image), (0, 600, 1));
    assert!(is_blank(&image, 0));
    let back = PixelSize::new(4, 4);
    assert_eq!(reconcile(Some(&mut image), 1, 0, back), Ok(Reconciled::Resized(back)));
    assert_eq!(dimensions(&image), (4, 4, 1));
    assert!(is_blank(&image, 128));
}

#[test]
fn missing_texture_is_reported_only_when_a_notification_arrived() {
    let window = PixelSize::new(800, 600);
    assert_eq!(reconcile(None, 0, 0, window), Ok(Reconciled::Unchanged));
    assert_eq!(reconcile(None, 1, 0, window), Err(TargetError::MissingTexture));
    assert_eq!(reconcile(None, 0, 2, window), Err(TargetError::MissingTexture));
}

#[test]
fn missing_texture_is_reported_before_the_size_is_looked_at() {
    let window = PixelSize::new(65_536, 65_536);
    assert_eq!(reconcile(None, 1, 1, window), Err(TargetError::MissingTexture));
    assert_eq!(reconcile(None, 0, 0, window), Ok(Reconciled::Unchanged));
}

#[test]
fn a_window_without_a_buffer_leaves_the_target_as_it_was() {
    let mut image = create_initial();
    stain(&mut image);
    let window = PixelSize::new(65_536, 65_536);
    assert_eq!(reconcile(Some(&mut image), 1, 0, window), Err(TargetError::AllocationFailure));
    assert_eq!(dimensions(&image), (100, 100, 1));
    assert!(bytes(&image).iter().all(|byte| *byte == 0xa5));
    assert_eq!(resize_target(&mut image, window), Err(TargetError::AllocationFailure));
    assert_eq!(dimensions(&image), (100, 100, 1));
    assert_eq!(reconcile(Some(&mut image), 0, 0, window), Ok(Reconciled::Unchanged));
}

#[test]
fn pending_counts_notifications_of_either_kind() {
    assert!(!pending(0, 0));
    assert!(pending(1, 0));
    assert!(pending(0, 1));
    assert!(pending(2, 3));
    assert!(pending(usize::MAX, usize::MAX));
}

#[test]
fn byte_counts_of_sizes() {
    assert_eq!(PixelSize::new(100, 100).checked_byte_len(8), Some(80_000));
    assert_eq!(PixelSize::new(800, 600).checked_byte_len(8), Some(3_840_000));
    assert_eq!(PixelSize::new(1920, 1080).checked_byte_len(4), Some(8_294_400));
    assert_eq!(PixelSize::new(0, 600).checked_byte_len(8), Some(0));
    assert_eq!(PixelSize::new(7, 3).checked_byte_len(0), Some(0));
    assert_eq!(PixelSize::new(65_536, 65_536).checked_byte_len(8), None);
    assert_eq!(PixelSize::new(65_536, 65_536).checked_byte_len(0), None);
    assert_eq!(PixelSize::new(65_535, 65_537).checked_byte_len(1), Some(4_294_967_295));
    assert_eq!(PixelSize::new(u32::MAX, 1).checked_byte_len(usize::MAX), None);
}

#[test]
fn pixel_size_keeps_width_and_height() {
    let size = PixelSize::new(1920, 1080);
    assert_eq!(size.width, 1920);
    assert_eq!(size.height, 1080);
    assert_eq!(size, PixelSize { width: 1920, height: 1080 });
    assert_ne!(size, PixelSize::new(1080, 1920));
}
