//! Setup-time decisions: which physical device, which queue family, and
//! which swapchain parameters to request.
//!
//! The driver queries the graphics API for the raw capability data and
//! hands it here as plain values; these functions make every choice the
//! renderer makes from that data.

use vstd::prelude::*;

verus! {

/// Initial window width, in logical pixels.
pub const WINDOW_WIDTH: u32 = 800;

/// Initial window height, in logical pixels.
pub const WINDOW_HEIGHT: u32 = 600;

/// What the renderer asks of a queue family, as reported by the driver.
#[derive(Clone, Copy, Debug, PartialEq, Eq, Structural)]
pub struct QueueFamilyProps {
    /// The family supports graphics operations.
    pub supports_graphics: bool,
    /// The presentation surface accepts this family.
    pub surface_support: bool,
}

/// A family is usable when it can both draw and present.
pub open spec fn spec_family_eligible(f: QueueFamilyProps) -> bool {
    f.supports_graphics && f.surface_support
}

/// The renderer uses the first available physical device.
pub fn pick_first_device(device_count: usize) -> (r: Option<usize>)
    ensures
        device_count > 0 ==> r == Some(0usize),
        device_count == 0 ==> r is None,
{
    if device_count > 0 {
        Some(0)
    } else {
        None
    }
}

/// Picks the first queue family that can both draw and present, the way
/// the device reported them; `None` when no family qualifies.
pub fn select_queue_family(families: &Vec<QueueFamilyProps>) -> (r: Option<usize>)
    ensures
        match r {
            Some(i) => {
                &&& i < families@.len()
                &&& spec_family_eligible(families@[i as int])
                &&& forall|j: int| 0 <= j < i ==> !spec_family_eligible(families@[j])
            },
            None => forall|j: int| 0 <= j < families@.len() ==> !spec_family_eligible(families@[j]),
        },
{
    let mut i: usize = 0;
    while i < families.len()
        invariant
            i <= families@.len(),
            forall|j: int| 0 <= j < i ==> !spec_family_eligible(families@[j]),
        decreases families@.len() - i,
    {
        let f = families[i];
        if f.supports_graphics && f.surface_support {
            return Some(i);
        }
        i = i + 1;
    }
    None
}

/// Surface capability data, as the driver reports it: the minimum image
/// count, the supported formats and the supported composite-alpha modes,
/// each in the driver's own order, as opaque identifiers.
#[derive(Debug)]
pub struct SurfaceCapabilities {
    pub min_image_count: u32,
    pub formats: Vec<u32>,
    pub composite_alphas: Vec<u32>,
}

/// The parameters the renderer requests its swapchain with.
#[derive(Clone, Copy, Debug, PartialEq, Eq, Structural)]
pub struct SwapchainParams {
    pub image_count: u32,
    pub format: u32,
    pub composite_alpha: u32,
    pub width: u32,
    pub height: u32,
}

/// The swapchain request: the surface's minimum image count, its first
/// reported format, its first reported composite-alpha mode, and the
/// window's current physical dimensions. `None` exactly when the surface
/// reports no format or no composite-alpha mode.
pub fn choose_swapchain_params(caps: &SurfaceCapabilities, width: u32, height: u32) -> (r: Option<
    SwapchainParams,
>)
    ensures
        r is Some <==> (caps.formats@.len() > 0 && caps.composite_alphas@.len() > 0),
        r is Some ==> r == Some(
            SwapchainParams {
                image_count: caps.min_image_count,
                format: caps.formats@[0],
                composite_alpha: caps.composite_alphas@[0],
                width,
                height,
            },
        ),
{
    if caps.formats.len() > 0 && caps.composite_alphas.len() > 0 {
        Some(
            SwapchainParams {
                image_count: caps.min_image_count,
                format: caps.formats[0],
                composite_alpha: caps.composite_alphas[0],
                width,
                height,
            },
        )
    } else {
        None
    }
}

/// A viewport covering one whole image of `width` by `height` pixels,
/// anchored at the origin.
#[derive(Clone, Copy, Debug, PartialEq, Eq, Structural)]
pub struct FullViewport {
    pub origin_x: u32,
    pub origin_y: u32,
    pub width: u32,
    pub height: u32,
}

/// The one viewport the pipeline draws with after each (re)creation of
/// the swapchain: the full extent of its images.
pub fn full_viewport(width: u32, height: u32) -> (v: FullViewport)
    ensures
        v.origin_x == 0,
        v.origin_y == 0,
        v.width == width,
        v.height == height,
{
    FullViewport { origin_x: 0, origin_y: 0, width, height }
}

} // verus!
