//! Depth-format probing, shader validation, render-pass and pipeline
//! configuration, and layout transitions.

use render_core::barrier::{
    transition_aspect_mask, transition_masks, BarrierMasks, ImageLayout, ACCESS_COLOR_ATTACHMENT_WRITE,
    ACCESS_DEPTH_STENCIL_ATTACHMENT_READ, ACCESS_DEPTH_STENCIL_ATTACHMENT_WRITE, ACCESS_SHADER_READ,
    ACCESS_TRANSFER_WRITE, ASPECT_COLOR, ASPECT_DEPTH, ASPECT_STENCIL, STAGE_COLOR_ATTACHMENT_OUTPUT,
    STAGE_EARLY_FRAGMENT_TESTS, STAGE_FRAGMENT_SHADER, STAGE_TOP_OF_PIPE, STAGE_TRANSFER,
};
use render_core::pipeline::{
    create_depth_objects, create_framebuffers, get_depth_format, get_supported_format,
    pipeline_config, render_pass_config, validate_shader_bytecode, FormatProperties, ImageTiling,
    FORMAT_D24_UNORM_S8_UINT, FORMAT_D32_SFLOAT, FORMAT_D32_SFLOAT_S8_UINT,
    FORMAT_FEATURE_DEPTH_STENCIL_ATTACHMENT, IMAGE_USAGE_DEPTH_STENCIL_ATTACHMENT,
};
use render_core::resources::MEMORY_DEVICE_LOCAL;
use render_core::swapchain::Extent2D;
use render_core::RenderError;

fn props(linear: u32, optimal: u32) -> FormatProperties {
    FormatProperties { linear_tiling_features: linear, optimal_tiling_features: optimal }
}

const DS: u32 = FORMAT_FEATURE_DEPTH_STENCIL_ATTACHMENT;

#[test]
fn depth_format_prefers_first_supported() {
    let r = get_depth_format(&vec![props(0, DS), props(0, DS), props(0, DS)]);
    assert_eq!(r, Ok(FORMAT_D32_SFLOAT));
    let r = get_depth_format(&vec![props(0, 0), props(0, DS), props(0, DS)]);
    assert_eq!(r, Ok(FORMAT_D32_SFLOAT_S8_UINT));
    let r = get_depth_format(&vec![props(0, 0), props(0, 0), props(0, DS)]);
    assert_eq!(r, Ok(FORMAT_D24_UNORM_S8_UINT));
}

#[test]
fn depth_format_none_supported_is_error() {
    // Linear-tiling support does not count: the probe asks for optimal.
    let r = get_depth_format(&vec![props(DS, 0), props(DS, 0), props(DS, 0)]);
    assert_eq!(r, Err(RenderError::NoSupportedFormat));
}

#[test]
fn supported_format_respects_tiling() {
    let r = get_supported_format(&vec![42], &vec![props(DS, 0)], ImageTiling::Linear, DS);
    assert_eq!(r, Ok(42));
    let r = get_supported_format(&vec![42], &vec![props(DS, 0)], ImageTiling::Optimal, DS);
    assert_eq!(r, Err(RenderError::NoSupportedFormat));
}

#[test]
fn shader_bytecode_word_alignment() {
    assert_eq!(validate_shader_bytecode(&vec![0u8; 8]), Ok(2));
    assert_eq!(validate_shader_bytecode(&vec![]), Ok(0));
    assert_eq!(
        validate_shader_bytecode(&vec![0u8; 7]),
        Err(RenderError::MisalignedShaderBytecode)
    );
}

#[test]
fn transition_table_undefined_to_transfer_dst() {
    let m = transition_masks(ImageLayout::Undefined, ImageLayout::TransferDstOptimal).unwrap();
    assert_eq!(
        m,
        BarrierMasks {
            src_access: 0,
            dst_access: ACCESS_TRANSFER_WRITE,
            src_stage: STAGE_TOP_OF_PIPE,
            dst_stage: STAGE_TRANSFER,
        }
    );
}

#[test]
fn transition_table_transfer_dst_to_shader_read() {
    let m =
        transition_masks(ImageLayout::TransferDstOptimal, ImageLayout::ShaderReadOnlyOptimal)
            .unwrap();
    assert_eq!(
        m,
        BarrierMasks {
            src_access: ACCESS_TRANSFER_WRITE,
            dst_access: ACCESS_SHADER_READ,
            src_stage: STAGE_TRANSFER,
            dst_stage: STAGE_FRAGMENT_SHADER,
        }
    );
}

#[test]
fn transition_table_undefined_to_depth_stencil() {
    let m =
        transition_masks(ImageLayout::Undefined, ImageLayout::DepthStencilAttachmentOptimal)
            .unwrap();
    assert_eq!(
        m,
        BarrierMasks {
            src_access: 0,
            dst_access: ACCESS_DEPTH_STENCIL_ATTACHMENT_READ
                | ACCESS_DEPTH_STENCIL_ATTACHMENT_WRITE,
            src_stage: STAGE_TOP_OF_PIPE,
            dst_stage: STAGE_EARLY_FRAGMENT_TESTS,
        }
    );
}

#[test]
fn transition_table_rejects_other_pairs() {
    assert_eq!(
        transition_masks(ImageLayout::ShaderReadOnlyOptimal, ImageLayout::TransferDstOptimal),
        Err(RenderError::UnsupportedLayoutTransition)
    );
    assert_eq!(
        transition_masks(ImageLayout::Undefined, ImageLayout::PresentSrc),
        Err(RenderError::UnsupportedLayoutTransition)
    );
}

#[test]
fn aspect_mask_depends_on_stencil_component() {
    let ds = ImageLayout::DepthStencilAttachmentOptimal;
    assert_eq!(transition_aspect_mask(ds, FORMAT_D32_SFLOAT_S8_UINT), ASPECT_DEPTH | ASPECT_STENCIL);
    assert_eq!(transition_aspect_mask(ds, FORMAT_D24_UNORM_S8_UINT), ASPECT_DEPTH | ASPECT_STENCIL);
    assert_eq!(transition_aspect_mask(ds, FORMAT_D32_SFLOAT), ASPECT_COLOR);
    assert_eq!(
        transition_aspect_mask(ImageLayout::TransferDstOptimal, FORMAT_D32_SFLOAT_S8_UINT),
        ASPECT_COLOR
    );
}

#[test]
fn render_pass_attachments() {
    let r = render_pass_config(50, FORMAT_D32_SFLOAT);
    assert_eq!(r.color.format, 50);
    assert!(r.color.load_clear);
    assert!(r.color.store);
    assert_eq!(r.color.final_layout, ImageLayout::PresentSrc);
    assert_eq!(r.depth.format, FORMAT_D32_SFLOAT);
    assert!(r.depth.load_clear);
    assert!(!r.depth.store);
    assert_eq!(r.depth.final_layout, ImageLayout::DepthStencilAttachmentOptimal);
    assert_eq!(
        r.dependency_dst_stages,
        STAGE_COLOR_ATTACHMENT_OUTPUT | STAGE_EARLY_FRAGMENT_TESTS
    );
    assert_eq!(r.dependency_src_access, 0);
    assert_eq!(
        r.dependency_dst_access,
        ACCESS_COLOR_ATTACHMENT_WRITE | ACCESS_DEPTH_STENCIL_ATTACHMENT_WRITE
    );
}

#[test]
fn pipeline_fixed_function_choices() {
    let extent = Extent2D { width: 640, height: 480 };
    let p = pipeline_config(extent);
    assert_eq!(p.viewport, extent);
    assert_eq!(p.scissor, extent);
    assert!(p.triangle_list);
    assert!(p.cull_back_faces);
    assert!(p.front_face_counter_clockwise);
    assert!(p.blend_enable);
    assert!(p.depth_test_enable);
    assert!(p.depth_write_enable);
    assert!(p.depth_compare_less);
}

#[test]
fn depth_objects_for_extent() {
    let (image, view) = create_depth_objects(
        Extent2D { width: 800, height: 600 },
        FORMAT_D24_UNORM_S8_UINT,
    );
    assert_eq!(image.width, 800);
    assert_eq!(image.height, 600);
    assert_eq!(image.format, FORMAT_D24_UNORM_S8_UINT);
    assert_eq!(image.tiling, ImageTiling::Optimal);
    assert_eq!(image.usage, IMAGE_USAGE_DEPTH_STENCIL_ATTACHMENT);
    assert_eq!(image.memory_properties, MEMORY_DEVICE_LOCAL);
    assert_eq!(view.format, FORMAT_D24_UNORM_S8_UINT);
    assert_eq!(view.aspect_mask, ASPECT_DEPTH);
}

#[test]
fn one_framebuffer_per_image_view() {
    let fbs = create_framebuffers(3, Extent2D { width: 320, height: 200 });
    assert_eq!(fbs.len(), 3);
    for (i, fb) in fbs.iter().enumerate() {
        assert_eq!(fb.color_view, i);
        assert!(fb.with_depth_view);
        assert_eq!(fb.width, 320);
        assert_eq!(fb.height, 200);
        assert_eq!(fb.layers, 1);
    }
}
