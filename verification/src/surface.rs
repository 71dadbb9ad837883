//! Surface configuration: the presentation parameters applied to the
//! window's surface, and the manager that rebuilds them on every resize.
//!
//! The pixel format is fixed to an sRGB 8-bit BGRA format for the process
//! lifetime, presentation is vsynced (FIFO), and reported window dimensions
//! are clamped so that a configured surface is never zero-sized.

use vstd::prelude::*;

verus! {

/// Pixel format of a surface or texture view.
#[derive(Clone, Copy, Debug, PartialEq, Eq, Structural)]
pub enum PixelFormat {
    /// 8-bit BGRA with sRGB encoding; the format every surface is configured with.
    Bgra8UnormSrgb,
    /// 8-bit BGRA without sRGB encoding; offered as an additional view format.
    Bgra8Unorm,
}

/// Presentation ordering for the surface.
#[derive(Clone, Copy, Debug, PartialEq, Eq, Structural)]
pub enum PresentMode {
    /// Vsynced presentation: frames are shown in submission order, no tearing.
    Fifo,
}

/// Alpha compositing behaviour of the surface.
#[derive(Clone, Copy, Debug, PartialEq, Eq, Structural)]
pub enum AlphaMode {
    /// Let the platform choose its preferred compositing mode.
    Auto,
}

/// The number of frames the presentation engine may queue ahead.
pub const DESIRED_FRAME_LATENCY: u32 = 2;

/// Mathematical model of a surface configuration.
#[verifier::ext_equal]
pub ghost struct ConfigModel {
    pub format: PixelFormat,
    pub width: int,
    pub height: int,
    pub present_mode: PresentMode,
    pub alpha_mode: AlphaMode,
    pub frame_latency: int,
    pub view_formats: Seq<PixelFormat>,
}

/// A reported window dimension, clamped so a configured surface never has a
/// zero extent: `max(d, 1)`.
pub open spec fn clamp_dim(d: u32) -> int {
    if d >= 1 {
        d as int
    } else {
        1
    }
}

/// The one configuration this system ever applies for reported dimensions
/// `(width, height)`: fixed sRGB BGRA format, FIFO presentation, clamped
/// dimensions, and a single additional non-sRGB view format.
pub open spec fn config_model(width: u32, height: u32) -> ConfigModel {
    ConfigModel {
        format: PixelFormat::Bgra8UnormSrgb,
        width: clamp_dim(width),
        height: clamp_dim(height),
        present_mode: PresentMode::Fifo,
        alpha_mode: AlphaMode::Auto,
        frame_latency: DESIRED_FRAME_LATENCY as int,
        view_formats: seq![PixelFormat::Bgra8Unorm],
    }
}

impl ConfigModel {
    /// Invariant of every configuration applied to the surface: neither
    /// dimension is ever zero.
    pub open spec fn wf(self) -> bool {
        self.width >= 1 && self.height >= 1
    }

    /// The one shape of configuration this system ever builds: clamped
    /// dimensions that fit the surface's extent type, and every other
    /// parameter fixed for the process lifetime.
    pub open spec fn canonical(self) -> bool {
        &&& 1 <= self.width <= u32::MAX
        &&& 1 <= self.height <= u32::MAX
        &&& self.format == PixelFormat::Bgra8UnormSrgb
        &&& self.present_mode == PresentMode::Fifo
        &&& self.alpha_mode == AlphaMode::Auto
        &&& self.frame_latency == DESIRED_FRAME_LATENCY as int
        &&& self.view_formats == seq![PixelFormat::Bgra8Unorm]
    }
}

/// Every configuration built for some reported dimensions is canonical,
/// and in particular well-formed.
pub proof fn lemma_config_model_canonical(width: u32, height: u32)
    ensures
        config_model(width, height).canonical(),
        config_model(width, height).wf(),
{
}

/// Rebuilding any canonical configuration from its own dimensions yields
/// it back unchanged: clamping is idempotent and the other parameters are
/// fixed.
pub proof fn lemma_reapply_canonical(c: ConfigModel)
    requires
        c.canonical(),
    ensures
        config_model(c.width as u32, c.height as u32) == c,
{
    assert(config_model(c.width as u32, c.height as u32) =~= c);
}

/// Presentation parameters applied to the surface: replaced, not patched,
/// on every resize.
pub struct SurfaceConfig {
    pub format: PixelFormat,
    pub width: u32,
    pub height: u32,
    pub present_mode: PresentMode,
    pub alpha_mode: AlphaMode,
    pub frame_latency: u32,
    pub view_formats: Vec<PixelFormat>,
}

impl View for SurfaceConfig {
    type V = ConfigModel;

    open spec fn view(&self) -> ConfigModel {
        ConfigModel {
            format: self.format,
            width: self.width as int,
            height: self.height as int,
            present_mode: self.present_mode,
            alpha_mode: self.alpha_mode,
            frame_latency: self.frame_latency as int,
            view_formats: self.view_formats@,
        }
    }
}

impl SurfaceConfig {
    /// Build the configuration for reported window dimensions
    /// `(width, height)`, clamping each dimension to at least 1.
    pub fn new(width: u32, height: u32) -> (c: SurfaceConfig)
        ensures
            c@ == config_model(width, height),
            c@.wf(),
    {
        let w: u32 = if width >= 1 { width } else { 1 };
        let h: u32 = if height >= 1 { height } else { 1 };
        let mut view_formats: Vec<PixelFormat> = Vec::new();
        view_formats.push(PixelFormat::Bgra8Unorm);
        let c = SurfaceConfig {
            format: PixelFormat::Bgra8UnormSrgb,
            width: w,
            height: h,
            present_mode: PresentMode::Fifo,
            alpha_mode: AlphaMode::Auto,
            frame_latency: DESIRED_FRAME_LATENCY,
            view_formats,
        };
        proof {
            assert(c@ =~= config_model(width, height));
        }
        c
    }
}

/// Owner of the configuration currently applied to the presentation
/// surface. The surrounding binary applies every configuration this type
/// hands out to the real surface before the next texture is acquired.
pub struct SurfaceManager {
    config: SurfaceConfig,
}

impl View for SurfaceManager {
    type V = ConfigModel;

    closed spec fn view(&self) -> ConfigModel {
        self.config@
    }
}

impl SurfaceManager {
    /// Build and record the initial configuration for a window whose
    /// reported inner size is `(width, height)`.
    pub fn configure(width: u32, height: u32) -> (m: SurfaceManager)
        ensures
            m@ == config_model(width, height),
            m@.wf(),
    {
        SurfaceManager { config: SurfaceConfig::new(width, height) }
    }

    /// Rebuild the configuration from newly reported dimensions, clamped,
    /// replacing the previous one wholesale. Reapplying identical
    /// dimensions is allowed and runs the full path.
    pub fn reconfigure(&mut self, width: u32, height: u32)
        ensures
            final(self)@ == config_model(width, height),
            final(self)@.wf(),
    {
        self.config = SurfaceConfig::new(width, height);
    }

    /// The configuration most recently built, for the binary to apply.
    pub fn config(&self) -> (c: &SurfaceConfig)
        ensures
            c@ == self@,
    {
        &self.config
    }
}

} // verus!
