//! Surface capabilities and the swapchain layout chosen from them.

use vstd::prelude::*;
use crate::fault::Fatal;

verus! {

/// Width of the swapchain where the surface reports no size of its own.
pub const FALLBACK_WIDTH: u32 = 1024;

/// Height of the swapchain where the surface reports no size of its own.
pub const FALLBACK_HEIGHT: u32 = 768;

/// Width and height of a surface or an image, in pixels.
#[derive(Clone, Copy, Debug, PartialEq, Eq, Structural)]
pub struct Extent {
    pub width: u32,
    pub height: u32,
}

/// How presented images reach the screen.
#[derive(Clone, Copy, Debug, PartialEq, Eq, Structural)]
pub enum PresentMode {
    Immediate,
    Mailbox,
    Fifo,
    Relaxed,
}

/// The present modes that a surface supports.
#[derive(Clone, Copy, Debug, PartialEq, Eq, Structural)]
pub struct PresentModes {
    pub immediate: bool,
    pub mailbox: bool,
    pub fifo: bool,
    pub relaxed: bool,
    pub shared_demand: bool,
    pub shared_continuous: bool,
}

/// How the alpha channel of a presented image is treated by the compositor.
#[derive(Clone, Copy, Debug, PartialEq, Eq, Structural)]
pub enum CompositeAlpha {
    Opaque,
    PreMultiplied,
    PostMultiplied,
    Inherit,
}

/// The composite alpha modes that a surface supports.
#[derive(Clone, Copy, Debug, PartialEq, Eq, Structural)]
pub struct CompositeAlphas {
    pub opaque: bool,
    pub pre_multiplied: bool,
    pub post_multiplied: bool,
    pub inherit: bool,
}

/// What the images of a swapchain may be used for.
#[derive(Clone, Copy, Debug, PartialEq, Eq, Structural)]
pub struct ImageUsage {
    pub transfer_source: bool,
    pub transfer_destination: bool,
    pub sampled: bool,
    pub storage: bool,
    pub color_attachment: bool,
    pub depth_stencil_attachment: bool,
    pub transient_attachment: bool,
    pub input_attachment: bool,
}

/// A transformation applied to an image before it is shown.
#[derive(Clone, Copy, Debug, PartialEq, Eq, Structural)]
pub enum SurfaceTransform {
    Identity,
    Rotate90,
    Rotate180,
    Rotate270,
    HorizontalMirror,
    HorizontalMirrorRotate90,
    HorizontalMirrorRotate180,
    HorizontalMirrorRotate270,
    Inherit,
}

/// What a surface supports when a given physical device presents to it.
#[derive(Debug, PartialEq, Eq)]
pub struct Capabilities {
    /// Least number of images that a swapchain must hold.
    pub min_image_count: u32,
    /// Current size of the surface; `None` where the swapchain decides it.
    pub current_extent: Option<Extent>,
    pub supported_composite_alpha: CompositeAlphas,
    pub supported_usage_flags: ImageUsage,
    /// Codes of the supported pixel formats, in the order of the report.
    pub supported_formats: Vec<u32>,
    pub present_modes: PresentModes,
}

/// The parameters that a swapchain is created with.
#[derive(Clone, Copy, Debug, PartialEq, Eq, Structural)]
pub struct SwapchainPlan {
    pub image_count: u32,
    /// Code of the pixel format of the images.
    pub format: u32,
    pub dimensions: Extent,
    /// Array layers of each image.
    pub layers: u32,
    pub usage: ImageUsage,
    pub transform: SurfaceTransform,
    pub alpha: CompositeAlpha,
    pub present_mode: PresentMode,
    /// Whether pixels hidden by other windows may be left undrawn.
    pub clipped: bool,
}

/// The present modes of `modes` in the order in which the surface lists them.
pub open spec fn present_mode_order(modes: PresentModes) -> Seq<PresentMode> {
    (if modes.immediate { seq![PresentMode::Immediate] } else { Seq::empty() })
        + (if modes.mailbox { seq![PresentMode::Mailbox] } else { Seq::empty() })
        + (if modes.fifo { seq![PresentMode::Fifo] } else { Seq::empty() })
        + (if modes.relaxed { seq![PresentMode::Relaxed] } else { Seq::empty() })
}

/// The first composite alpha mode that a surface lists, if it lists any.
pub open spec fn first_alpha(alphas: CompositeAlphas) -> Option<CompositeAlpha> {
    if alphas.opaque {
        Some(CompositeAlpha::Opaque)
    } else if alphas.pre_multiplied {
        Some(CompositeAlpha::PreMultiplied)
    } else if alphas.post_multiplied {
        Some(CompositeAlpha::PostMultiplied)
    } else if alphas.inherit {
        Some(CompositeAlpha::Inherit)
    } else {
        None
    }
}

/// Runs `vulkano::swapchain::SupportedPresentModes::iter` to its end. The
/// iterator yields each of immediate, mailbox, fifo and relaxed whose flag is
/// set, once and in that order; the two shared flags yield nothing.
#[verifier::external_body]
fn listed_present_modes(modes: &PresentModes) -> (listed: Vec<PresentMode>)
    ensures
        listed@ == present_mode_order(*modes),
{
    let outside = vulkano::swapchain::SupportedPresentModes {
        immediate: modes.immediate, mailbox: modes.mailbox, fifo: modes.fifo,
        relaxed: modes.relaxed, shared_demand: modes.shared_demand,
        shared_continuous: modes.shared_continuous,
    };
    outside.iter().map(|mode| match mode {
        vulkano::swapchain::PresentMode::Immediate => PresentMode::Immediate,
        vulkano::swapchain::PresentMode::Mailbox => PresentMode::Mailbox,
        vulkano::swapchain::PresentMode::Fifo => PresentMode::Fifo,
        vulkano::swapchain::PresentMode::Relaxed => PresentMode::Relaxed,
    }).collect()
}

/// Takes the first item of `vulkano::swapchain::SupportedCompositeAlpha::iter`.
/// The iterator tests opaque, pre-multiplied, post-multiplied and inherit in
/// that order and yields the first whose flag is set.
#[verifier::external_body]
fn first_composite_alpha(alphas: &CompositeAlphas) -> (first: Option<CompositeAlpha>)
    ensures
        first == first_alpha(*alphas),
{
    let outside = vulkano::swapchain::SupportedCompositeAlpha {
        opaque: alphas.opaque, pre_multiplied: alphas.pre_multiplied,
        post_multiplied: alphas.post_multiplied, inherit: alphas.inherit,
    };
    outside.iter().next().map(|alpha| match alpha {
        vulkano::swapchain::CompositeAlpha::Opaque => CompositeAlpha::Opaque,
        vulkano::swapchain::CompositeAlpha::PreMultiplied => CompositeAlpha::PreMultiplied,
        vulkano::swapchain::CompositeAlpha::PostMultiplied => CompositeAlpha::PostMultiplied,
        vulkano::swapchain::CompositeAlpha::Inherit => CompositeAlpha::Inherit,
    })
}

/// The present mode to create the swapchain with: mailbox where the surface
/// supports it, first in first out otherwise.
pub fn choose_present_mode(modes: &PresentModes) -> (mode: PresentMode)
    ensures
        mode == (if modes.mailbox { PresentMode::Mailbox } else { PresentMode::Fifo }),
{
    let listed = listed_present_modes(modes);
    let mut at: usize = 0;
    while at < listed.len()
        invariant
            at <= listed.len(),
            listed@ == present_mode_order(*modes),
            forall|k: int| 0 <= k < at ==> listed@[k] != PresentMode::Mailbox,
        decreases listed.len() - at,
    {
        if listed[at] == PresentMode::Mailbox {
            return PresentMode::Mailbox;
        }
        at += 1;
    }
    proof {
        if modes.mailbox {
            let slot: int = if modes.immediate { 1 } else { 0 };
            assert(present_mode_order(*modes)[slot] == PresentMode::Mailbox);
        }
    }
    PresentMode::Fifo
}

/// The swapchain layout that follows from `capabilities`: the least image
/// count, the first listed format and composite alpha, the surface's own size
/// or the fallback size, one layer, no transformation, clipping, and mailbox
/// presentation where it is supported.
pub open spec fn planned(capabilities: Capabilities) -> Result<SwapchainPlan, Fatal> {
    if first_alpha(capabilities.supported_composite_alpha) is None {
        Err(Fatal::NoCompositeAlpha)
    } else if capabilities.supported_formats@.len() == 0 {
        Err(Fatal::NoFormat)
    } else {
        Ok(
            SwapchainPlan {
                image_count: capabilities.min_image_count,
                format: capabilities.supported_formats@[0],
                dimensions: match capabilities.current_extent {
                    Some(extent) => extent,
                    None => Extent { width: FALLBACK_WIDTH, height: FALLBACK_HEIGHT },
                },
                layers: 1,
                usage: capabilities.supported_usage_flags,
                transform: SurfaceTransform::Identity,
                alpha: first_alpha(capabilities.supported_composite_alpha)->0,
                present_mode: if capabilities.present_modes.mailbox {
                    PresentMode::Mailbox
                } else {
                    PresentMode::Fifo
                },
                clipped: true,
            },
        )
    }
}

/// Lays out the swapchain for a surface with the given capabilities. Fails
/// where the surface lists no composite alpha mode or no pixel format.
pub fn plan_swapchain(capabilities: &Capabilities) -> (plan: Result<SwapchainPlan, Fatal>)
    ensures
        plan == planned(*capabilities),
{
    let dimensions = match capabilities.current_extent {
        Some(extent) => extent,
        None => Extent { width: FALLBACK_WIDTH, height: FALLBACK_HEIGHT },
    };
    let alpha = match first_composite_alpha(&capabilities.supported_composite_alpha) {
        Some(alpha) => alpha,
        None => {
            return Err(Fatal::NoCompositeAlpha);
        },
    };
    if capabilities.supported_formats.len() == 0 {
        return Err(Fatal::NoFormat);
    }
    let format: u32 = capabilities.supported_formats[0];
    let present_mode = choose_present_mode(&capabilities.present_modes);
    Ok(
        SwapchainPlan {
            image_count: capabilities.min_image_count,
            format,
            dimensions,
            layers: 1,
            usage: capabilities.supported_usage_flags,
            transform: SurfaceTransform::Identity,
            alpha,
            present_mode,
            clipped: true,
        },
    )
}

/// Builds one framebuffer for each swapchain image, in the order of the
/// images, by calling `build` on each.
pub fn create_framebuffers<Image, Framebuffer, Build>(
    images: &Vec<Image>,
    build: Build,
) -> (framebuffers: Vec<Framebuffer>)
    where Build: Fn(&Image) -> Framebuffer
    requires
        forall|at: int| 0 <= at < images@.len() ==> build.requires((&#[trigger] images@[at],)),
    ensures
        framebuffers@.len() == images@.len(),
        forall|at: int|
            0 <= at < images@.len() ==> build.ensures(
                (&images@[at],),
                #[trigger] framebuffers@[at],
            ),
{
    let mut framebuffers: Vec<Framebuffer> = Vec::with_capacity(images.len());
    for at in 0..images.len()
        invariant
            framebuffers@.len() == at,
            forall|k: int| 0 <= k < images@.len() ==> build.requires((&#[trigger] images@[k],)),
            forall|k: int|
                0 <= k < at ==> build.ensures((&images@[k],), #[trigger] framebuffers@[k]),
    {
        let framebuffer = build(&images[at]);
        framebuffers.push(framebuffer);
    }
    framebuffers
}

} // verus!
