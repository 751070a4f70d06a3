//! Configuration of a texture-backed pixel camera and its one-time setup.
//!
//! A [`TexturePixelCamera`] records the fixed virtual resolution a scene is
//! rendered at, which axis (if any) is meant to stay fixed while the other
//! letterboxes, and the clear color of the off-screen target. The render
//! target itself is owned by the host engine; [`setup_camera`] tells that
//! collaborator exactly once what to allocate.

use vstd::prelude::*;

verus! {

/// Width of the default virtual canvas, in pixels.
pub const DEFAULT_VIRTUAL_WIDTH: u32 = 256;

/// Height of the default virtual canvas, in pixels.
pub const DEFAULT_VIRTUAL_HEIGHT: u32 = 224;

/// A pair of pixel dimensions or pixel coordinates.
#[derive(Clone, Copy, Debug, PartialEq, Eq, Structural)]
pub struct UVec2 {
    pub x: u32,
    pub y: u32,
}

impl UVec2 {
    pub fn new(x: u32, y: u32) -> (v: UVec2)
        ensures
            v.x == x,
            v.y == y,
    {
        UVec2 { x, y }
    }
}

/// An RGBA color with 8-bit channels.
#[derive(Clone, Copy, Debug, PartialEq, Eq, Structural)]
pub struct Rgba {
    pub red: u8,
    pub green: u8,
    pub blue: u8,
    pub alpha: u8,
}

impl Rgba {
    /// True exactly of opaque white, the default clear color.
    pub open spec fn is_white(self) -> bool {
        self.red == 255 && self.green == 255 && self.blue == 255 && self.alpha == 255
    }

    /// Opaque white.
    pub fn white() -> (c: Rgba)
        ensures
            c.is_white(),
    {
        Rgba { red: 255, green: 255, blue: 255, alpha: 255 }
    }
}

/// Which canvas axis must exactly fill its share of the window, the other
/// axis being allowed to letterbox. Recorded at construction; the current
/// fit rule decides the letterboxed side from the aspect ratios alone, so
/// this is a configuration hint only.
#[derive(Clone, Copy, Debug, PartialEq, Eq, Structural)]
pub enum FixedAxis {
    Unfixed,
    FixedVertical,
    FixedHorizontal,
}

/// The one-time-setup state of a camera: the render target and presentation
/// entities are created on the single transition from `Uninitialized` to
/// `Ready`, and never again.
#[derive(Clone, Copy, Debug, PartialEq, Eq, Structural)]
pub enum SetupState {
    Uninitialized,
    Ready,
}

/// A camera that renders the scene to an off-screen texture at a fixed
/// virtual resolution, to be scaled onto the window afterwards.
///
/// `size` may legally hold a zero dimension (the axis-fixing constructors
/// leave one axis as a placeholder); such a configuration surfaces later as
/// a degenerate fit result, not as a panic.
#[derive(Clone, Copy, Debug, PartialEq, Eq, Structural)]
pub struct TexturePixelCamera {
    /// Resolution of the off-screen render target, in pixels.
    pub size: UVec2,
    /// Configuration hint naming the axis that should not letterbox.
    pub fixed_axis: FixedAxis,
    /// Background color the off-screen target is cleared with.
    pub clear_color: Rgba,
    /// Whether the one-time setup has already run for this camera.
    pub state: SetupState,
}

impl TexturePixelCamera {
    /// A camera with the given virtual resolution, axis hint and clear color.
    pub fn new(size: UVec2, axis: FixedAxis, clear_color: Rgba) -> (c: Self)
        ensures
            c.size == size,
            c.fixed_axis == axis,
            c.clear_color == clear_color,
            c.state == SetupState::Uninitialized,
    {
        TexturePixelCamera { size, fixed_axis: axis, clear_color, state: SetupState::Uninitialized }
    }

    /// A camera whose height is authoritative; the width is a placeholder to
    /// be derived from the window's aspect ratio.
    pub fn from_height(height: u32) -> (c: Self)
        ensures
            c.size == (UVec2 { x: 0, y: height }),
            c.fixed_axis == FixedAxis::FixedVertical,
            c.clear_color.is_white(),
            c.state == SetupState::Uninitialized,
    {
        TexturePixelCamera {
            size: UVec2 { x: 0, y: height },
            fixed_axis: FixedAxis::FixedVertical,
            clear_color: Rgba::white(),
            state: SetupState::Uninitialized,
        }
    }

    /// A camera whose width is authoritative; the height is a placeholder to
    /// be derived from the window's aspect ratio.
    pub fn from_width(width: u32) -> (c: Self)
        ensures
            c.size == (UVec2 { x: width, y: 0 }),
            c.fixed_axis == FixedAxis::FixedHorizontal,
            c.clear_color.is_white(),
            c.state == SetupState::Uninitialized,
    {
        TexturePixelCamera {
            size: UVec2 { x: width, y: 0 },
            fixed_axis: FixedAxis::FixedHorizontal,
            clear_color: Rgba::white(),
            state: SetupState::Uninitialized,
        }
    }

    /// A camera with both dimensions given; either axis may letterbox.
    pub fn from_size(width: u32, height: u32) -> (c: Self)
        ensures
            c.size == (UVec2 { x: width, y: height }),
            c.fixed_axis == FixedAxis::Unfixed,
            c.clear_color.is_white(),
            c.state == SetupState::Uninitialized,
    {
        TexturePixelCamera {
            size: UVec2 { x: width, y: height },
            fixed_axis: FixedAxis::Unfixed,
            clear_color: Rgba::white(),
            state: SetupState::Uninitialized,
        }
    }

    /// Whether the one-time setup has already run.
    pub fn is_initialized(&self) -> (b: bool)
        ensures
            b == (self.state == SetupState::Ready),
    {
        match self.state {
            SetupState::Ready => true,
            SetupState::Uninitialized => false,
        }
    }
}

impl Default for TexturePixelCamera {
    /// The default camera: a 256 x 224 virtual canvas, no fixed axis, white
    /// clear color, setup still pending.
    fn default() -> (c: Self)
        ensures
            c.size == (UVec2 { x: DEFAULT_VIRTUAL_WIDTH, y: DEFAULT_VIRTUAL_HEIGHT }),
            c.fixed_axis == FixedAxis::Unfixed,
            c.clear_color.is_white(),
            c.state == SetupState::Uninitialized,
    {
        TexturePixelCamera {
            size: UVec2 { x: DEFAULT_VIRTUAL_WIDTH, y: DEFAULT_VIRTUAL_HEIGHT },
            fixed_axis: FixedAxis::Unfixed,
            clear_color: Rgba::white(),
            state: SetupState::Uninitialized,
        }
    }
}

/// Everything the render-target provider must allocate on first sight of a
/// camera: an off-screen color target (sampled nearest-neighbor, cleared
/// with `clear_color`), a presentation camera with an initial viewport, and
/// a textured quad displaying the target.
#[derive(Clone, Copy, Debug, PartialEq, Eq, Structural)]
pub struct SetupPlan {
    /// Pixel size of the off-screen color target to allocate.
    pub target_size: UVec2,
    /// Color the off-screen target is cleared with each frame.
    pub clear_color: Rgba,
    /// Initial viewport of the presentation camera, refined every frame.
    pub initial_viewport: UVec2,
    /// Local-space size of the quad that displays the off-screen target.
    pub quad_size: UVec2,
}

/// The one-time setup transition. On the first call for a camera it hands
/// back the allocation plan and marks the camera ready; on every later call
/// it changes nothing and hands back no plan, so the render target, the
/// presentation camera and the quad are created exactly once per camera.
pub fn setup_camera(camera: &mut TexturePixelCamera) -> (plan: Option<SetupPlan>)
    ensures
        final(camera).state == SetupState::Ready,
        final(camera).size == old(camera).size,
        final(camera).fixed_axis == old(camera).fixed_axis,
        final(camera).clear_color == old(camera).clear_color,
        old(camera).state == SetupState::Ready ==> plan is None && *final(camera) == *old(camera),
        old(camera).state == SetupState::Uninitialized ==> (plan matches Some(p)
            && p.target_size == old(camera).size
            && p.clear_color == old(camera).clear_color
            && p.initial_viewport == old(camera).size
            && p.quad_size == old(camera).size),
{
    match camera.state {
        SetupState::Ready => None,
        SetupState::Uninitialized => {
            camera.state = SetupState::Ready;
            Some(SetupPlan {
                target_size: camera.size,
                clear_color: camera.clear_color,
                initial_viewport: camera.size,
                quad_size: camera.size,
            })
        },
    }
}

} // verus!
