//! Swapchain planning and recreation. A plan fixes every creation parameter
//! from the surface's reported support, the window's physical size and the
//! chosen queue families; the host program hands the plan to the device and
//! reports back how many images the driver actually produced. Image views
//! and framebuffers are derived per image, in lockstep with the chain.

use vstd::prelude::*;

use crate::config::Extent2D;
use crate::config::SurfaceFormat;
use crate::config::chosen_extent;
use crate::config::chosen_format;
use crate::config::chosen_present_mode;
use crate::config::pick_extent;
use crate::config::pick_image_count;
use crate::config::pick_surface_format;
use crate::config::pick_present_mode;
use crate::config::requested_image_count;
use crate::device::QueueFamilyIndices;

verus! {

/// How swapchain images are shared between the graphics and present queue
/// families: exclusively owned when the families coincide, concurrently
/// accessible (with both families listed) when they differ.
#[derive(Clone, Copy, PartialEq, Eq, Structural, Debug)]
pub enum SharingMode {
    Exclusive,
    Concurrent,
}

/// What a surface reports about itself: image-count bounds (a maximum of
/// zero means unbounded), the extent it dictates or leaves undefined, the
/// extent range it allows, and its current transform.
#[derive(Clone, Copy, PartialEq, Eq, Structural, Debug)]
pub struct SurfaceCapabilities {
    pub min_image_count: u32,
    pub max_image_count: u32,
    pub current_extent: Extent2D,
    pub min_image_extent: Extent2D,
    pub max_image_extent: Extent2D,
    pub current_transform: u32,
}

/// Everything the surface and adapter report that swapchain creation
/// depends on.
#[derive(Clone, PartialEq, Eq, Debug)]
pub struct SurfaceSupport {
    pub capabilities: SurfaceCapabilities,
    pub formats: Vec<SurfaceFormat>,
    pub present_modes: Vec<u32>,
}

/// Every parameter of a swapchain creation call. The fields that never vary
/// for this engine are stated by `fixed_parameters`.
#[derive(Clone, PartialEq, Eq, Debug)]
pub struct SwapchainPlan {
    pub min_image_count: u32,
    pub format: u32,
    pub color_space: u32,
    pub extent: Extent2D,
    pub image_array_layers: u32,
    pub color_attachment_usage: bool,
    pub sharing_mode: SharingMode,
    pub queue_family_indices: Vec<u32>,
    pub pre_transform: u32,
    pub composite_alpha_opaque: bool,
    pub present_mode: u32,
    pub clipped: bool,
    pub retire_old_swapchain: bool,
}

/// The creation parameters this engine never varies: one image layer,
/// color-attachment usage, opaque composition, clipping enabled.
pub open spec fn fixed_parameters(plan: SwapchainPlan) -> bool {
    &&& plan.image_array_layers == 1
    &&& plan.color_attachment_usage
    &&& plan.composite_alpha_opaque
    &&& plan.clipped
}

/// Derives the full swapchain plan from the surface's report, the window's
/// physical size and the chosen queue families. `retire_old` says whether a
/// prior chain exists whose handle is supplied for the driver to retire.
pub fn plan_swapchain(
    support: &SurfaceSupport,
    window_extent: Extent2D,
    indices: QueueFamilyIndices,
    retire_old: bool,
) -> (plan: SwapchainPlan)
    requires
        support.formats@.len() > 0,
        support.capabilities.min_image_count < u32::MAX,
    ensures
        plan.min_image_count == requested_image_count(
            support.capabilities.min_image_count,
            support.capabilities.max_image_count,
        ),
        plan.format == chosen_format(support.formats@).format,
        plan.color_space == chosen_format(support.formats@).color_space,
        plan.extent == chosen_extent(
            support.capabilities.current_extent,
            support.capabilities.min_image_extent,
            support.capabilities.max_image_extent,
            window_extent,
        ),
        plan.present_mode == chosen_present_mode(support.present_modes@),
        indices.graphics == indices.present ==> plan.sharing_mode == SharingMode::Exclusive
            && plan.queue_family_indices@ == Seq::<u32>::empty(),
        indices.graphics != indices.present ==> plan.sharing_mode == SharingMode::Concurrent
            && plan.queue_family_indices@ == seq![indices.graphics, indices.present],
        plan.pre_transform == support.capabilities.current_transform,
        plan.retire_old_swapchain == retire_old,
        fixed_parameters(plan),
{
    let surface_format = pick_surface_format(&support.formats);
    let present_mode = pick_present_mode(&support.present_modes);
    let extent = pick_extent(
        support.capabilities.current_extent,
        support.capabilities.min_image_extent,
        support.capabilities.max_image_extent,
        window_extent,
    );
    let image_count = pick_image_count(
        support.capabilities.min_image_count,
        support.capabilities.max_image_count,
    );

    let mut queue_family_indices: Vec<u32> = Vec::new();
    let sharing_mode = if indices.graphics != indices.present {
        queue_family_indices.push(indices.graphics);
        queue_family_indices.push(indices.present);
        SharingMode::Concurrent
    } else {
        SharingMode::Exclusive
    };

    SwapchainPlan {
        min_image_count: image_count,
        format: surface_format.format,
        color_space: surface_format.color_space,
        extent,
        image_array_layers: 1,
        color_attachment_usage: true,
        sharing_mode,
        queue_family_indices,
        pre_transform: support.capabilities.current_transform,
        composite_alpha_opaque: true,
        present_mode,
        clipped: true,
        retire_old_swapchain: retire_old,
    }
}

/// A created chain, as the engine sees it: the parameters it was built with
/// and how many images the driver actually handed back. Every image of the
/// chain shares this one format and extent for the chain's lifetime.
#[derive(Clone, Copy, PartialEq, Eq, Structural, Debug)]
pub struct SwapchainState {
    pub format: u32,
    pub color_space: u32,
    pub extent: Extent2D,
    pub present_mode: u32,
    pub image_count: usize,
}

/// Records the chain the driver built from a plan. The driver may hand back
/// more images than the plan's minimum, never fewer.
pub fn swapchain_created(plan: &SwapchainPlan, driver_image_count: usize) -> (chain:
    SwapchainState)
    requires
        driver_image_count >= plan.min_image_count,
    ensures
        chain.format == plan.format,
        chain.color_space == plan.color_space,
        chain.extent == plan.extent,
        chain.present_mode == plan.present_mode,
        chain.image_count == driver_image_count,
{
    SwapchainState {
        format: plan.format,
        color_space: plan.color_space,
        extent: plan.extent,
        present_mode: plan.present_mode,
        image_count: driver_image_count,
    }
}

/// One image view per swapchain image: a 2D color view of that image with
/// identity component mapping, a single mip level and a single array layer.
#[derive(Clone, Copy, PartialEq, Eq, Structural, Debug)]
pub struct ImageViewSpec {
    pub image_index: usize,
    pub format: u32,
    pub two_dimensional: bool,
    pub identity_swizzle: bool,
    pub color_aspect_only: bool,
    pub base_mip_level: u32,
    pub mip_level_count: u32,
    pub base_array_layer: u32,
    pub array_layer_count: u32,
}

/// The view derived for one image of the chain.
pub open spec fn view_of_image(chain: SwapchainState, i: int) -> ImageViewSpec {
    ImageViewSpec {
        image_index: i as usize,
        format: chain.format,
        two_dimensional: true,
        identity_swizzle: true,
        color_aspect_only: true,
        base_mip_level: 0,
        mip_level_count: 1,
        base_array_layer: 0,
        array_layer_count: 1,
    }
}

/// Derives the ordered image views of a chain, one per image.
pub fn plan_image_views(chain: &SwapchainState) -> (views: Vec<ImageViewSpec>)
    ensures
        views@.len() == chain.image_count,
        forall|i: int| 0 <= i < views@.len() ==> views@[i] == view_of_image(*chain, i),
{
    let mut views: Vec<ImageViewSpec> = Vec::new();
    let mut i: usize = 0;
    while i < chain.image_count
        invariant
            i <= chain.image_count,
            views@.len() == i,
            forall|j: int| 0 <= j < i ==> views@[j] == view_of_image(*chain, j),
        decreases chain.image_count - i,
    {
        views.push(
            ImageViewSpec {
                image_index: i,
                format: chain.format,
                two_dimensional: true,
                identity_swizzle: true,
                color_aspect_only: true,
                base_mip_level: 0,
                mip_level_count: 1,
                base_array_layer: 0,
                array_layer_count: 1,
            },
        );
        i += 1;
    }
    views
}

/// One framebuffer per swapchain image, attached to that image's view, with
/// the chain's extent and a single layer.
#[derive(Clone, Copy, PartialEq, Eq, Structural, Debug)]
pub struct FramebufferSpec {
    pub image_index: usize,
    pub extent: Extent2D,
    pub layers: u32,
}

/// The framebuffer derived for one image of the chain.
pub open spec fn framebuffer_of_image(chain: SwapchainState, i: int) -> FramebufferSpec {
    FramebufferSpec { image_index: i as usize, extent: chain.extent, layers: 1 }
}

/// Derives the ordered framebuffers of a chain, one per image.
pub fn plan_framebuffers(chain: &SwapchainState) -> (fbs: Vec<FramebufferSpec>)
    ensures
        fbs@.len() == chain.image_count,
        forall|i: int| 0 <= i < fbs@.len() ==> fbs@[i] == framebuffer_of_image(*chain, i),
{
    let mut fbs: Vec<FramebufferSpec> = Vec::new();
    let mut i: usize = 0;
    while i < chain.image_count
        invariant
            i <= chain.image_count,
            fbs@.len() == i,
            forall|j: int| 0 <= j < i ==> fbs@[j] == framebuffer_of_image(*chain, j),
        decreases chain.image_count - i,
    {
        fbs.push(FramebufferSpec { image_index: i, extent: chain.extent, layers: 1 });
        i += 1;
    }
    fbs
}

/// Recreating a chain from an unchanged surface is invisible in the output:
/// two chains planned from the same surface report, window size and queue
/// choice carry the same format and extent, and every framebuffer of either
/// chain has that same extent. Only the image count may differ, as the
/// driver chooses it anew.
pub proof fn lemma_recreation_preserves_output(
    support: SurfaceSupport,
    window_extent: Extent2D,
    indices: QueueFamilyIndices,
    before: SwapchainState,
    after: SwapchainState,
)
    requires
        support.formats@.len() > 0,
        before.format == chosen_format(support.formats@).format,
        before.extent == chosen_extent(
            support.capabilities.current_extent,
            support.capabilities.min_image_extent,
            support.capabilities.max_image_extent,
            window_extent,
        ),
        after.format == chosen_format(support.formats@).format,
        after.extent == chosen_extent(
            support.capabilities.current_extent,
            support.capabilities.min_image_extent,
            support.capabilities.max_image_extent,
            window_extent,
        ),
    ensures
        after.format == before.format,
        after.extent == before.extent,
        forall|i: int, j: int|
            0 <= i < before.image_count && 0 <= j < after.image_count
                ==> framebuffer_of_image(before, i).extent == framebuffer_of_image(
                after,
                j,
            ).extent,
        forall|i: int, j: int|
            0 <= i < before.image_count && 0 <= j < after.image_count ==> view_of_image(
                before,
                i,
            ).format == view_of_image(after, j).format,
{
}

} // verus!
