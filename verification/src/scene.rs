//! What is set up once, at startup: the render target, the two cameras, the
//! quad between them, and the streamed volume.
//!
//! The offscreen scene camera draws the world into the render target, with
//! bloom and anti-aliasing at the target's resolution. The presentation
//! camera then shows the target, on a quad, in the window. The scene camera
//! has tone-mapped what it wrote, so the presentation camera must not
//! tone-map again.
//!
//! [`setup`] makes the target and lists what is to be spawned; the caller
//! spawns it.

use bevy::image::Image;
use vstd::prelude::*;

use crate::size::PixelSize;
use crate::target::{create_initial, fresh_target, INITIAL_HEIGHT, INITIAL_WIDTH};
use crate::texture::view_of;

verus! {

/// Width of the window at startup.
pub const WINDOW_WIDTH: u32 = 1920;

/// Height of the window at startup.
pub const WINDOW_HEIGHT: u32 = 1080;

/// Draw order of a camera that sets none.
pub const DEFAULT_ORDER: isize = 0;

/// Draw order of the offscreen scene camera: cameras draw in ascending
/// order, so it draws before any camera of the default order.
pub const OFFSCREEN_ORDER: isize = -10;

/// Where a camera's picture goes.
#[derive(Clone, Copy, Debug, PartialEq, Eq, Structural)]
pub enum CameraTarget {
    /// The primary window's surface.
    Window,
    /// The render target.
    Texture,
}

/// What kind of scene a camera draws.
#[derive(Clone, Copy, Debug, PartialEq, Eq, Structural)]
pub enum CameraKind {
    /// The three-dimensional world, in perspective.
    Scene3d,
    /// Flat sprites.
    Flat2d,
}

/// How one camera is configured.
#[derive(Clone, Copy, Debug, PartialEq, Eq, Structural)]
pub struct CameraPlan {
    pub kind: CameraKind,
    pub target: CameraTarget,
    /// Whether the camera renders in high dynamic range.
    pub hdr: bool,
    /// Cameras draw in ascending order.
    pub order: isize,
    /// Whether the camera tone-maps what it writes.
    pub tone_mapping: bool,
    /// Whether bloom runs on this camera.
    pub bloom: bool,
    /// Whether screen-space anti-aliasing runs on this camera.
    pub anti_aliasing: bool,
    /// Whether the camera sits on the character's entity.
    pub character: bool,
}

/// One thing to bring into the world at startup.
#[derive(Clone, Copy, Debug, PartialEq, Eq, Structural)]
pub enum Spawn {
    /// The streamed voxel volume, with its streaming anchor.
    StreamedVolume,
    /// A camera.
    Camera(CameraPlan),
    /// The full-screen quad that shows the render target.
    PresentationQuad,
}

/// What [`setup`] hands over.
pub struct Stage {
    /// The render target, to be put into the asset store.
    pub target: Image,
    /// What to spawn, in this order.
    pub spawns: Vec<Spawn>,
}

/// The offscreen scene camera: it draws the world into the render target in
/// high dynamic range, before the presentation camera, tone-mapped, with
/// bloom and anti-aliasing, from the character's entity.
pub open spec fn offscreen_plan() -> CameraPlan {
    CameraPlan {
        kind: CameraKind::Scene3d,
        target: CameraTarget::Texture,
        hdr: true,
        order: OFFSCREEN_ORDER,
        tone_mapping: true,
        bloom: true,
        anti_aliasing: true,
        character: true,
    }
}

/// The presentation camera: it draws the quad onto the window in high
/// dynamic range, at the default order, without tone mapping and without
/// further effects.
pub open spec fn presentation_plan() -> CameraPlan {
    CameraPlan {
        kind: CameraKind::Flat2d,
        target: CameraTarget::Window,
        hdr: true,
        order: DEFAULT_ORDER,
        tone_mapping: false,
        bloom: false,
        anti_aliasing: false,
        character: false,
    }
}

/// What startup spawns, in order.
pub open spec fn startup_spawns() -> Seq<Spawn> {
    seq![
        Spawn::StreamedVolume,
        Spawn::Camera(offscreen_plan()),
        Spawn::PresentationQuad,
        Spawn::Camera(presentation_plan()),
    ]
}

/// How many of `spawns` are cameras with this target.
pub open spec fn cameras_onto(spawns: Seq<Spawn>, target: CameraTarget) -> nat
    decreases spawns.len(),
{
    if spawns.len() == 0 {
        0
    } else {
        let rest = cameras_onto(spawns.drop_last(), target);
        match spawns.last() {
            Spawn::Camera(plan) => if plan.target == target {
                rest + 1
            } else {
                rest
            },
            _ => rest,
        }
    }
}

/// How many of `spawns` are streamed volumes.
pub open spec fn volumes_in(spawns: Seq<Spawn>) -> nat
    decreases spawns.len(),
{
    if spawns.len() == 0 {
        0
    } else {
        let rest = volumes_in(spawns.drop_last());
        if spawns.last() == Spawn::StreamedVolume {
            rest + 1
        } else {
            rest
        }
    }
}

/// How many of `spawns` are cameras on the character's entity.
pub open spec fn characters_in(spawns: Seq<Spawn>) -> nat
    decreases spawns.len(),
{
    if spawns.len() == 0 {
        0
    } else {
        let rest = characters_in(spawns.drop_last());
        match spawns.last() {
            Spawn::Camera(plan) => if plan.character {
                rest + 1
            } else {
                rest
            },
            _ => rest,
        }
    }
}

/// The plan of the offscreen scene camera.
pub fn offscreen_camera() -> (plan: CameraPlan)
    ensures
        plan == offscreen_plan(),
{
    CameraPlan {
        kind: CameraKind::Scene3d,
        target: CameraTarget::Texture,
        hdr: true,
        order: OFFSCREEN_ORDER,
        tone_mapping: true,
        bloom: true,
        anti_aliasing: true,
        character: true,
    }
}

/// The plan of the presentation camera.
pub fn presentation_camera() -> (plan: CameraPlan)
    ensures
        plan == presentation_plan(),
{
    CameraPlan {
        kind: CameraKind::Flat2d,
        target: CameraTarget::Window,
        hdr: true,
        order: DEFAULT_ORDER,
        tone_mapping: false,
        bloom: false,
        anti_aliasing: false,
        character: false,
    }
}

/// The size of the window at startup.
pub fn initial_window() -> (size: PixelSize)
    ensures
        size == (PixelSize { width: WINDOW_WIDTH, height: WINDOW_HEIGHT }),
{
    PixelSize::new(WINDOW_WIDTH, WINDOW_HEIGHT)
}

/// Startup: makes the render target, blank at its placeholder size, and
/// lists what to spawn: the streamed volume, the offscreen scene camera,
/// the presentation quad and the presentation camera, in this order.
pub fn setup() -> (stage: Stage)
    ensures
        view_of(stage.target) == fresh_target(
            PixelSize { width: INITIAL_WIDTH, height: INITIAL_HEIGHT },
        ),
        stage.spawns@ == startup_spawns(),
{
    let target = create_initial();
    let mut spawns: Vec<Spawn> = Vec::new();
    spawns.push(Spawn::StreamedVolume);
    spawns.push(Spawn::Camera(offscreen_camera()));
    spawns.push(Spawn::PresentationQuad);
    spawns.push(Spawn::Camera(presentation_camera()));
    assert(spawns@ =~= startup_spawns());
    Stage { target, spawns }
}

/// At startup exactly one camera draws into the render target and exactly
/// one draws onto the window; the first draws before the second, and the
/// second does not tone-map what the first has tone-mapped.
pub proof fn law_startup_cameras()
    ensures
        cameras_onto(startup_spawns(), CameraTarget::Texture) == 1,
        cameras_onto(startup_spawns(), CameraTarget::Window) == 1,
        offscreen_plan().target == CameraTarget::Texture,
        presentation_plan().target == CameraTarget::Window,
        offscreen_plan().order < presentation_plan().order,
        offscreen_plan().tone_mapping && !presentation_plan().tone_mapping,
{
    let s = startup_spawns();
    let s3 = s.drop_last();
    let s2 = s3.drop_last();
    let s1 = s2.drop_last();
    let s0 = s1.drop_last();
    assert(s0.len() == 0);
    assert(cameras_onto(s0, CameraTarget::Texture) == 0);
    assert(cameras_onto(s1, CameraTarget::Texture) == 0);
    assert(cameras_onto(s2, CameraTarget::Texture) == 1);
    assert(cameras_onto(s3, CameraTarget::Texture) == 1);
    assert(cameras_onto(s0, CameraTarget::Window) == 0);
    assert(cameras_onto(s1, CameraTarget::Window) == 0);
    assert(cameras_onto(s2, CameraTarget::Window) == 0);
    assert(cameras_onto(s3, CameraTarget::Window) == 0);
}

/// Startup brings exactly one streamed volume and exactly one character
/// into the world: the counts that the synchronizer asks for.
pub proof fn law_startup_singletons()
    ensures
        volumes_in(startup_spawns()) == 1,
        characters_in(startup_spawns()) == 1,
{
    let s = startup_spawns();
    let s3 = s.drop_last();
    let s2 = s3.drop_last();
    let s1 = s2.drop_last();
    let s0 = s1.drop_last();
    assert(s0.len() == 0);
    assert(volumes_in(s0) == 0);
    assert(volumes_in(s1) == 1);
    assert(volumes_in(s2) == 1);
    assert(volumes_in(s3) == 1);
    assert(characters_in(s0) == 0);
    assert(characters_in(s1) == 0);
    assert(characters_in(s2) == 1);
    assert(characters_in(s3) == 1);
}

} // verus!
