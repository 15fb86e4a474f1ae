//! Render-target pipeline decisions: the depth-format probe, shader byte-code
//! validation, and the fixed render-pass and pipeline configuration derived
//! from the swapchain's format and extent.

use vstd::prelude::*;
use crate::RenderError;
use crate::barrier::ImageLayout;
use crate::swapchain::Extent2D;

verus! {

/// Format code for a 32-bit float depth component.
pub const FORMAT_D32_SFLOAT: u32 = 126;

/// Format code for a 32-bit float depth component with an 8-bit stencil.
pub const FORMAT_D32_SFLOAT_S8_UINT: u32 = 130;

/// Format code for a 24-bit depth component with an 8-bit stencil.
pub const FORMAT_D24_UNORM_S8_UINT: u32 = 129;

/// Format-feature bit: usable as a depth-stencil attachment.
pub const FORMAT_FEATURE_DEPTH_STENCIL_ATTACHMENT: u32 = 0x200;

/// How an image's texels are laid out in memory.
#[derive(Clone, Copy, Debug, PartialEq, Eq, Structural)]
pub enum ImageTiling {
    Linear,
    Optimal,
}

/// The feature support a device reports for one format, per tiling.
#[derive(Clone, Copy, Debug, PartialEq, Eq, Structural)]
pub struct FormatProperties {
    pub linear_tiling_features: u32,
    pub optimal_tiling_features: u32,
}

/// A format supports the features under the tiling when the matching feature
/// set is a superset of the required bits.
pub open spec fn format_supports(p: FormatProperties, tiling: ImageTiling, features: u32) -> bool {
    match tiling {
        ImageTiling::Linear => p.linear_tiling_features & features == features,
        ImageTiling::Optimal => p.optimal_tiling_features & features == features,
    }
}

/// Probes a preference-ordered candidate list against the device's reported
/// format support: the first candidate supporting the features wins; none
/// qualifying is a fatal error. `properties[i]` is what the device reports
/// for `candidates[i]`.
pub fn get_supported_format(
    candidates: &Vec<u32>,
    properties: &Vec<FormatProperties>,
    tiling: ImageTiling,
    features: u32,
) -> (r: Result<u32, RenderError>)
    requires
        candidates@.len() == properties@.len(),
    ensures
        r is Ok <==> exists|i: int|
            0 <= i < properties@.len() && format_supports(properties@[i], tiling, features),
        r matches Ok(f) ==> exists|i: int|
            {
                &&& 0 <= i < properties@.len()
                &&& f == candidates@[i]
                &&& format_supports(properties@[i], tiling, features)
                &&& forall|j: int| 0 <= j < i ==> !format_supports(properties@[j], tiling, features)
            },
        r matches Err(e) ==> e == RenderError::NoSupportedFormat,
{
    let n = candidates.len();
    let mut k: usize = 0;
    while k < n
        invariant
            n == candidates@.len() == properties@.len(),
            0 <= k <= n,
            forall|j: int| 0 <= j < k ==> !format_supports(properties@[j], tiling, features),
        decreases n - k,
    {
        let p = properties[k];
        let supported = match tiling {
            ImageTiling::Linear => p.linear_tiling_features & features == features,
            ImageTiling::Optimal => p.optimal_tiling_features & features == features,
        };
        if supported {
            return Ok(candidates[k]);
        }
        k = k + 1;
    }
    Err(RenderError::NoSupportedFormat)
}

/// The preference-ordered depth-format candidates: 32-bit float, 32-bit float
/// with stencil, 24-bit with stencil.
pub open spec fn depth_format_candidates() -> Seq<u32> {
    seq![FORMAT_D32_SFLOAT, FORMAT_D32_SFLOAT_S8_UINT, FORMAT_D24_UNORM_S8_UINT]
}

/// Selects the depth-attachment format by probing the fixed candidate list
/// for depth-stencil attachment use under optimal tiling. `properties[i]` is
/// what the device reports for the `i`-th candidate.
pub fn get_depth_format(properties: &Vec<FormatProperties>) -> (r: Result<u32, RenderError>)
    requires
        properties@.len() == depth_format_candidates().len(),
    ensures
        r is Ok <==> exists|i: int|
            0 <= i < properties@.len() && format_supports(
                properties@[i],
                ImageTiling::Optimal,
                FORMAT_FEATURE_DEPTH_STENCIL_ATTACHMENT,
            ),
        r matches Ok(f) ==> exists|i: int|
            {
                &&& 0 <= i < properties@.len()
                &&& f == depth_format_candidates()[i]
                &&& format_supports(
                    properties@[i],
                    ImageTiling::Optimal,
                    FORMAT_FEATURE_DEPTH_STENCIL_ATTACHMENT,
                )
                &&& forall|j: int|
                    0 <= j < i ==> !format_supports(
                        properties@[j],
                        ImageTiling::Optimal,
                        FORMAT_FEATURE_DEPTH_STENCIL_ATTACHMENT,
                    )
            },
        r matches Err(e) ==> e == RenderError::NoSupportedFormat,
{
    let mut candidates: Vec<u32> = Vec::new();
    candidates.push(FORMAT_D32_SFLOAT);
    candidates.push(FORMAT_D32_SFLOAT_S8_UINT);
    candidates.push(FORMAT_D24_UNORM_S8_UINT);
    proof {
        assert(candidates@ =~= depth_format_candidates());
    }
    get_supported_format(
        &candidates,
        properties,
        ImageTiling::Optimal,
        FORMAT_FEATURE_DEPTH_STENCIL_ATTACHMENT,
    )
}

/// Validates externally compiled shader byte code: its length must be a
/// multiple of four bytes (whole words); anything else is a fatal
/// configuration error. Returns the word count.
pub fn validate_shader_bytecode(bytecode: &Vec<u8>) -> (r: Result<usize, RenderError>)
    ensures
        r is Ok <==> bytecode@.len() % 4 == 0,
        r matches Ok(words) ==> words == bytecode@.len() / 4,
        r matches Err(e) ==> e == RenderError::MisalignedShaderBytecode,
{
    let len = bytecode.len();
    if len % 4 == 0 {
        Ok(len / 4)
    } else {
        Err(RenderError::MisalignedShaderBytecode)
    }
}

/// One render-pass attachment: its format, whether it is cleared on load and
/// kept on store, and the layout it is left in.
#[derive(Clone, Copy, Debug, PartialEq, Eq, Structural)]
pub struct AttachmentConfig {
    pub format: u32,
    pub load_clear: bool,
    pub store: bool,
    pub initial_layout_undefined: bool,
    pub final_layout: ImageLayout,
}

/// The single-subpass render pass: a color attachment and a depth attachment,
/// and one dependency synchronizing against prior color/depth-test work.
#[derive(Clone, Copy, Debug, PartialEq, Eq, Structural)]
pub struct RenderPassConfig {
    pub color: AttachmentConfig,
    pub depth: AttachmentConfig,
    pub dependency_src_stages: u32,
    pub dependency_src_access: u32,
    pub dependency_dst_stages: u32,
    pub dependency_dst_access: u32,
}

/// Builds the render-pass configuration from the swapchain's color format and
/// the probed depth format: color is cleared, kept, and left ready for
/// present; depth is cleared, discarded, and left as a depth-stencil
/// attachment; the one dependency waits on prior color-output and early
/// depth-test work.
pub fn render_pass_config(color_format: u32, depth_format: u32) -> (r: RenderPassConfig)
    ensures
        r.color == (AttachmentConfig {
            format: color_format,
            load_clear: true,
            store: true,
            initial_layout_undefined: true,
            final_layout: ImageLayout::PresentSrc,
        }),
        r.depth == (AttachmentConfig {
            format: depth_format,
            load_clear: true,
            store: false,
            initial_layout_undefined: true,
            final_layout: ImageLayout::DepthStencilAttachmentOptimal,
        }),
        r.dependency_src_stages == crate::barrier::STAGE_COLOR_ATTACHMENT_OUTPUT
            | crate::barrier::STAGE_EARLY_FRAGMENT_TESTS,
        r.dependency_src_access == 0,
        r.dependency_dst_stages == crate::barrier::STAGE_COLOR_ATTACHMENT_OUTPUT
            | crate::barrier::STAGE_EARLY_FRAGMENT_TESTS,
        r.dependency_dst_access == crate::barrier::ACCESS_COLOR_ATTACHMENT_WRITE
            | crate::barrier::ACCESS_DEPTH_STENCIL_ATTACHMENT_WRITE,
{
    RenderPassConfig {
        color: AttachmentConfig {
            format: color_format,
            load_clear: true,
            store: true,
            initial_layout_undefined: true,
            final_layout: ImageLayout::PresentSrc,
        },
        depth: AttachmentConfig {
            format: depth_format,
            load_clear: true,
            store: false,
            initial_layout_undefined: true,
            final_layout: ImageLayout::DepthStencilAttachmentOptimal,
        },
        dependency_src_stages: crate::barrier::STAGE_COLOR_ATTACHMENT_OUTPUT
            | crate::barrier::STAGE_EARLY_FRAGMENT_TESTS,
        dependency_src_access: 0,
        dependency_dst_stages: crate::barrier::STAGE_COLOR_ATTACHMENT_OUTPUT
            | crate::barrier::STAGE_EARLY_FRAGMENT_TESTS,
        dependency_dst_access: crate::barrier::ACCESS_COLOR_ATTACHMENT_WRITE
            | crate::barrier::ACCESS_DEPTH_STENCIL_ATTACHMENT_WRITE,
    }
}

/// Image-usage bit: usable as a depth-stencil attachment.
pub const IMAGE_USAGE_DEPTH_STENCIL_ATTACHMENT: u32 = 0x20;

/// What one created image asks of the device: its size, format, tiling,
/// usage and memory properties, as a single-mip, single-layer
/// two-dimensional image starting in the undefined layout.
#[derive(Clone, Copy, Debug, PartialEq, Eq, Structural)]
pub struct ImageConfig {
    pub width: u32,
    pub height: u32,
    pub format: u32,
    pub tiling: ImageTiling,
    pub usage: u32,
    pub memory_properties: u32,
    pub mip_levels: u32,
    pub array_layers: u32,
    pub initial_layout: ImageLayout,
}

/// Builds the creation request for one image: the given size, format,
/// tiling, usage and memory properties, one mip level and one layer,
/// starting undefined.
pub fn create_image(
    width: u32,
    height: u32,
    format: u32,
    tiling: ImageTiling,
    usage: u32,
    memory_properties: u32,
) -> (r: ImageConfig)
    ensures
        r == (ImageConfig {
            width,
            height,
            format,
            tiling,
            usage,
            memory_properties,
            mip_levels: 1,
            array_layers: 1,
            initial_layout: ImageLayout::Undefined,
        }),
{
    ImageConfig {
        width,
        height,
        format,
        tiling,
        usage,
        memory_properties,
        mip_levels: 1,
        array_layers: 1,
        initial_layout: ImageLayout::Undefined,
    }
}

/// Builds the depth attachment for the swapchain extent: a device-local,
/// optimally tiled depth-stencil image in the probed format, and its
/// depth-aspect view.
pub fn create_depth_objects(extent: Extent2D, depth_format: u32) -> (r: (
    ImageConfig,
    crate::swapchain::ImageViewConfig,
))
    ensures
        r.0 == (ImageConfig {
            width: extent.width,
            height: extent.height,
            format: depth_format,
            tiling: ImageTiling::Optimal,
            usage: IMAGE_USAGE_DEPTH_STENCIL_ATTACHMENT,
            memory_properties: crate::resources::MEMORY_DEVICE_LOCAL,
            mip_levels: 1,
            array_layers: 1,
            initial_layout: ImageLayout::Undefined,
        }),
        r.1 == (crate::swapchain::ImageViewConfig {
            format: depth_format,
            aspect_mask: crate::barrier::ASPECT_DEPTH,
            base_mip_level: 0,
            level_count: 1,
            base_array_layer: 0,
            layer_count: 1,
        }),
{
    let image = create_image(
        extent.width,
        extent.height,
        depth_format,
        ImageTiling::Optimal,
        IMAGE_USAGE_DEPTH_STENCIL_ATTACHMENT,
        crate::resources::MEMORY_DEVICE_LOCAL,
    );
    let view = crate::swapchain::create_image_view(depth_format, crate::barrier::ASPECT_DEPTH);
    (image, view)
}

/// One framebuffer: a swapchain image view paired with the shared depth
/// view, sized to the swapchain extent.
#[derive(Clone, Copy, Debug, PartialEq, Eq, Structural)]
pub struct FramebufferConfig {
    /// Which swapchain image view the framebuffer presents.
    pub color_view: usize,
    /// Whether the shared depth view is attached.
    pub with_depth_view: bool,
    pub width: u32,
    pub height: u32,
    pub layers: u32,
}

/// Builds one framebuffer per swapchain image view, each pairing that view
/// with the shared depth view at the swapchain extent.
pub fn create_framebuffers(image_count: usize, extent: Extent2D) -> (r: Vec<FramebufferConfig>)
    ensures
        r@.len() == image_count,
        forall|i: int|
            0 <= i < image_count ==> r@[i] == (FramebufferConfig {
                color_view: i as usize,
                with_depth_view: true,
                width: extent.width,
                height: extent.height,
                layers: 1,
            }),
{
    let mut r: Vec<FramebufferConfig> = Vec::new();
    let mut k: usize = 0;
    while k < image_count
        invariant
            0 <= k <= image_count,
            r@.len() == k,
            forall|i: int|
                0 <= i < k ==> r@[i] == (FramebufferConfig {
                    color_view: i as usize,
                    with_depth_view: true,
                    width: extent.width,
                    height: extent.height,
                    layers: 1,
                }),
        decreases image_count - k,
    {
        r.push(
            FramebufferConfig {
                color_view: k,
                with_depth_view: true,
                width: extent.width,
                height: extent.height,
                layers: 1,
            },
        );
        k = k + 1;
    }
    r
}

/// The fixed-function choices of the one graphics pipeline.
#[derive(Clone, Copy, Debug, PartialEq, Eq, Structural)]
pub struct PipelineConfig {
    pub viewport: Extent2D,
    pub scissor: Extent2D,
    pub triangle_list: bool,
    pub cull_back_faces: bool,
    pub front_face_counter_clockwise: bool,
    pub blend_enable: bool,
    pub depth_test_enable: bool,
    pub depth_write_enable: bool,
    pub depth_compare_less: bool,
}

/// Builds the pipeline configuration for the swapchain extent: a full-window
/// viewport and scissor, triangle-list topology, back-face culling, alpha
/// blending on the color output, and less-than depth testing with writes.
pub fn pipeline_config(extent: Extent2D) -> (r: PipelineConfig)
    ensures
        r == (PipelineConfig {
            viewport: extent,
            scissor: extent,
            triangle_list: true,
            cull_back_faces: true,
            front_face_counter_clockwise: true,
            blend_enable: true,
            depth_test_enable: true,
            depth_write_enable: true,
            depth_compare_less: true,
        }),
{
    PipelineConfig {
        viewport: extent,
        scissor: extent,
        triangle_list: true,
        cull_back_faces: true,
        front_face_counter_clockwise: true,
        blend_enable: true,
        depth_test_enable: true,
        depth_write_enable: true,
        depth_compare_less: true,
    }
}

} // verus!
