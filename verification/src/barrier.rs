//! Image-layout transitions: the fixed table of supported (old, new) layout
//! pairs with their barrier masks, and the aspect-mask choice. Any pair
//! outside the table is a fatal error; the narrowness is deliberate.

use vstd::prelude::*;
use crate::RenderError;
use crate::pipeline::{FORMAT_D24_UNORM_S8_UINT, FORMAT_D32_SFLOAT_S8_UINT};

verus! {

/// Access bit: color-attachment writes.
pub const ACCESS_COLOR_ATTACHMENT_WRITE: u32 = 0x100;

/// Access bit: depth-stencil attachment reads.
pub const ACCESS_DEPTH_STENCIL_ATTACHMENT_READ: u32 = 0x200;

/// Access bit: depth-stencil attachment writes.
pub const ACCESS_DEPTH_STENCIL_ATTACHMENT_WRITE: u32 = 0x400;

/// Access bit: transfer writes.
pub const ACCESS_TRANSFER_WRITE: u32 = 0x1000;

/// Access bit: shader reads.
pub const ACCESS_SHADER_READ: u32 = 0x20;

/// Pipeline-stage bit: the very start of the pipeline.
pub const STAGE_TOP_OF_PIPE: u32 = 0x1;

/// Pipeline-stage bit: the fragment-shader stage.
pub const STAGE_FRAGMENT_SHADER: u32 = 0x80;

/// Pipeline-stage bit: early depth and stencil tests.
pub const STAGE_EARLY_FRAGMENT_TESTS: u32 = 0x100;

/// Pipeline-stage bit: color-attachment output.
pub const STAGE_COLOR_ATTACHMENT_OUTPUT: u32 = 0x400;

/// Pipeline-stage bit: transfer operations.
pub const STAGE_TRANSFER: u32 = 0x1000;

/// Image-aspect bit: the color aspect.
pub const ASPECT_COLOR: u32 = 0x1;

/// Image-aspect bit: the depth aspect.
pub const ASPECT_DEPTH: u32 = 0x2;

/// Image-aspect bit: the stencil aspect.
pub const ASPECT_STENCIL: u32 = 0x4;

/// The image layouts the rendering core ever names.
#[derive(Clone, Copy, Debug, PartialEq, Eq, Structural)]
pub enum ImageLayout {
    Undefined,
    ColorAttachmentOptimal,
    DepthStencilAttachmentOptimal,
    ShaderReadOnlyOptimal,
    TransferDstOptimal,
    PresentSrc,
}

/// The four masks of a pipeline barrier: source and destination access, and
/// source and destination stages.
#[derive(Clone, Copy, Debug, PartialEq, Eq, Structural)]
pub struct BarrierMasks {
    pub src_access: u32,
    pub dst_access: u32,
    pub src_stage: u32,
    pub dst_stage: u32,
}

/// The transition table: barrier masks for the three supported layout pairs,
/// nothing for any other pair.
pub open spec fn spec_transition_masks(
    old_layout: ImageLayout,
    new_layout: ImageLayout,
) -> Option<BarrierMasks> {
    match (old_layout, new_layout) {
        (ImageLayout::Undefined, ImageLayout::TransferDstOptimal) => Some(
            BarrierMasks {
                src_access: 0,
                dst_access: ACCESS_TRANSFER_WRITE,
                src_stage: STAGE_TOP_OF_PIPE,
                dst_stage: STAGE_TRANSFER,
            },
        ),
        (ImageLayout::TransferDstOptimal, ImageLayout::ShaderReadOnlyOptimal) => Some(
            BarrierMasks {
                src_access: ACCESS_TRANSFER_WRITE,
                dst_access: ACCESS_SHADER_READ,
                src_stage: STAGE_TRANSFER,
                dst_stage: STAGE_FRAGMENT_SHADER,
            },
        ),
        (ImageLayout::Undefined, ImageLayout::DepthStencilAttachmentOptimal) => Some(
            BarrierMasks {
                src_access: 0,
                dst_access: ACCESS_DEPTH_STENCIL_ATTACHMENT_READ
                    | ACCESS_DEPTH_STENCIL_ATTACHMENT_WRITE,
                src_stage: STAGE_TOP_OF_PIPE,
                dst_stage: STAGE_EARLY_FRAGMENT_TESTS,
            },
        ),
        _ => None,
    }
}

/// Looks up the barrier masks for a layout transition; a pair outside the
/// table is the fatal unsupported-transition error.
pub fn transition_masks(old_layout: ImageLayout, new_layout: ImageLayout) -> (r: Result<
    BarrierMasks,
    RenderError,
>)
    ensures
        r matches Ok(m) ==> spec_transition_masks(old_layout, new_layout) == Some(m),
        r is Err <==> spec_transition_masks(old_layout, new_layout) is None,
        r matches Err(e) ==> e == RenderError::UnsupportedLayoutTransition,
{
    match (old_layout, new_layout) {
        (ImageLayout::Undefined, ImageLayout::TransferDstOptimal) => Ok(
            BarrierMasks {
                src_access: 0,
                dst_access: ACCESS_TRANSFER_WRITE,
                src_stage: STAGE_TOP_OF_PIPE,
                dst_stage: STAGE_TRANSFER,
            },
        ),
        (ImageLayout::TransferDstOptimal, ImageLayout::ShaderReadOnlyOptimal) => Ok(
            BarrierMasks {
                src_access: ACCESS_TRANSFER_WRITE,
                dst_access: ACCESS_SHADER_READ,
                src_stage: STAGE_TRANSFER,
                dst_stage: STAGE_FRAGMENT_SHADER,
            },
        ),
        (ImageLayout::Undefined, ImageLayout::DepthStencilAttachmentOptimal) => Ok(
            BarrierMasks {
                src_access: 0,
                dst_access: ACCESS_DEPTH_STENCIL_ATTACHMENT_READ
                    | ACCESS_DEPTH_STENCIL_ATTACHMENT_WRITE,
                src_stage: STAGE_TOP_OF_PIPE,
                dst_stage: STAGE_EARLY_FRAGMENT_TESTS,
            },
        ),
        _ => Err(RenderError::UnsupportedLayoutTransition),
    }
}

/// A format carries a stencil component exactly when it is one of the two
/// depth formats with an 8-bit stencil part.
pub open spec fn format_has_stencil(format: u32) -> bool {
    format == FORMAT_D32_SFLOAT_S8_UINT || format == FORMAT_D24_UNORM_S8_UINT
}

/// Chooses the barrier's aspect mask: depth plus stencil when transitioning
/// into the depth-stencil-attachment layout with a stencil-bearing format,
/// depth alone for the other depth formats, and color otherwise.
pub fn transition_aspect_mask(new_layout: ImageLayout, format: u32) -> (r: u32)
    ensures
        new_layout == ImageLayout::DepthStencilAttachmentOptimal && format_has_stencil(format)
            ==> r == ASPECT_DEPTH | ASPECT_STENCIL,
        new_layout == ImageLayout::DepthStencilAttachmentOptimal && !format_has_stencil(format)
            ==> r == ASPECT_COLOR,
        new_layout != ImageLayout::DepthStencilAttachmentOptimal ==> r == ASPECT_COLOR,
{
    if matches!(new_layout, ImageLayout::DepthStencilAttachmentOptimal) {
        if format == FORMAT_D32_SFLOAT_S8_UINT || format == FORMAT_D24_UNORM_S8_UINT {
            ASPECT_DEPTH | ASPECT_STENCIL
        } else {
            ASPECT_COLOR
        }
    } else {
        ASPECT_COLOR
    }
}

} // verus!
