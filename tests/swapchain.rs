use gamekit::pipeline::{layout_transition, teardown_order, AccessMask, GpuObject, PipelineStage};
use gamekit::device::{PhysicalDeviceInfo, SurfaceFormat};
use gamekit::pipeline::{
    choose_depth_format, depth_format_candidates, depth_image_size, render_pass_desc, ImageLayout, LoadOp, StoreOp,
    FORMAT_D24_UNORM_S8_UINT, FORMAT_D32_SFLOAT,
};
use gamekit::swapchain::{
    choose_extent, choose_image_count, choose_present_mode, choose_sharing_mode, Extent2D, PresentMode, SharingMode,
    SurfaceCapabilities, SwapChain,
};

fn caps(current: u32) -> SurfaceCapabilities {
    SurfaceCapabilities {
        current_extent: Extent2D { width: current, height: 600 },
        min_image_extent: Extent2D { width: 100, height: 100 },
        max_image_extent: Extent2D { width: 1920, height: 1080 },
        min_image_count: 2,
        max_image_count: 3,
    }
}

fn device(graphics: u32, present: u32) -> PhysicalDeviceInfo {
    PhysicalDeviceInfo {
        adapter_index: 0,
        graphics_family_index: graphics,
        present_family_index: present,
        mail_box_mode_support: true,
        surface_format: SurfaceFormat { format: 50, color_space: 0 },
        uniform_buffer_alignment: 64,
    }
}

#[test]
fn extent_uses_surface_extent_when_defined() {
    assert_eq!(choose_extent(&caps(800), 10, 10), Extent2D { width: 800, height: 600 });
}

#[test]
fn extent_clamps_window_size_when_undefined() {
    assert_eq!(choose_extent(&caps(u32::MAX), 4000, 50), Extent2D { width: 1920, height: 100 });
    assert_eq!(choose_extent(&caps(u32::MAX), 640, 480), Extent2D { width: 640, height: 480 });
}

#[test]
fn image_count_is_min_plus_one_clamped() {
    assert_eq!(choose_image_count(&caps(800)), 3);
    let mut c = caps(800);
    c.min_image_count = 3;
    assert_eq!(choose_image_count(&c), 3);
    c.max_image_count = 0;
    assert_eq!(choose_image_count(&c), 4);
}

#[test]
fn present_mode_is_never_immediate() {
    assert_eq!(choose_present_mode(true), PresentMode::Mailbox);
    assert_eq!(choose_present_mode(false), PresentMode::Fifo);
}

#[test]
fn sharing_mode_concurrent_only_for_distinct_families() {
    let (mode, fams) = choose_sharing_mode(0, 1);
    assert_eq!(mode, SharingMode::Concurrent);
    assert_eq!(fams, vec![0, 1]);
    let (mode, fams) = choose_sharing_mode(2, 2);
    assert_eq!(mode, SharingMode::Exclusive);
    assert!(fams.is_empty());
}

#[test]
fn recreation_keeps_surface_format() {
    let d = device(0, 1);
    let mut sc = SwapChain::new(&caps(800), 800, 600, &d);
    assert_eq!(sc.format, SurfaceFormat { format: 50, color_space: 0 });
    assert_eq!(sc.sharing_mode, SharingMode::Concurrent);
    let other = PhysicalDeviceInfo { surface_format: SurfaceFormat { format: 44, color_space: 0 }, ..device(0, 0) };
    let resized = SurfaceCapabilities { current_extent: Extent2D { width: 1024, height: 768 }, ..caps(1024) };
    sc.recreate(&resized, 1024, 768, &other);
    assert_eq!(sc.format, SurfaceFormat { format: 50, color_space: 0 });
    assert_eq!(sc.extent, Extent2D { width: 1024, height: 768 });
    assert_eq!(sc.sharing_mode, SharingMode::Exclusive);
    assert_eq!(sc.image_count, 3);
}

#[test]
fn depth_format_first_supported() {
    assert_eq!(depth_format_candidates()[0], FORMAT_D24_UNORM_S8_UINT);
    assert_eq!(choose_depth_format(&vec![false, true, true]).unwrap(), FORMAT_D32_SFLOAT);
    assert!(choose_depth_format(&vec![false, false, false]).is_err());
}

#[test]
fn render_pass_attachments() {
    let rp = render_pass_desc(50, FORMAT_D32_SFLOAT);
    assert_eq!(rp.color.format, 50);
    assert_eq!(rp.color.load_op, LoadOp::Clear);
    assert_eq!(rp.color.store_op, StoreOp::Store);
    assert_eq!(rp.color.final_layout, ImageLayout::PresentSrc);
    assert_eq!(rp.depth.format, FORMAT_D32_SFLOAT);
    assert_eq!(rp.depth.final_layout, ImageLayout::DepthStencilAttachmentOptimal);
    assert_eq!(rp.depth.initial_layout, ImageLayout::Undefined);
}

#[test]
fn depth_image_byte_size() {
    assert_eq!(depth_image_size(800, 600), Some(1_920_000));
    assert_eq!(depth_image_size(0, 600), Some(0));
}

#[test]
fn texture_layout_transitions() {
    let upload = layout_transition(ImageLayout::Undefined, ImageLayout::TransferDstOptimal).unwrap();
    assert_eq!(upload.src_access, AccessMask::NoAccess);
    assert_eq!(upload.dst_access, AccessMask::TransferWrite);
    assert_eq!(upload.src_stage, PipelineStage::TopOfPipe);
    assert_eq!(upload.dst_stage, PipelineStage::Transfer);
    let read = layout_transition(ImageLayout::TransferDstOptimal, ImageLayout::ShaderReadOnlyOptimal).unwrap();
    assert_eq!(read.dst_access, AccessMask::ShaderRead);
    assert_eq!(read.dst_stage, PipelineStage::FragmentShader);
    assert!(layout_transition(ImageLayout::Undefined, ImageLayout::PresentSrc).is_err());
}

#[test]
fn teardown_runs_from_sets_to_device() {
    let order = teardown_order();
    assert_eq!(order.first(), Some(&GpuObject::DescriptorSets));
    assert_eq!(order.last(), Some(&GpuObject::Device));
    let rp = order.iter().position(|o| *o == GpuObject::RenderPass).unwrap();
    let sc = order.iter().position(|o| *o == GpuObject::Swapchain).unwrap();
    assert!(rp < sc);
    assert_eq!(order.len(), 6);
}
