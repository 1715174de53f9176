use vstd::prelude::*;
use crate::error::{Error, ErrorKind};

verus! {

/// Raw value of the 24-bit depth, 8-bit stencil format.
pub const FORMAT_D24_UNORM_S8_UINT: i32 = 129;
/// Raw value of the 32-bit float depth format.
pub const FORMAT_D32_SFLOAT: i32 = 126;
/// Raw value of the 32-bit float depth, 8-bit stencil format.
pub const FORMAT_D32_SFLOAT_S8_UINT: i32 = 130;

pub open spec fn spec_depth_format_candidates() -> Seq<i32> {
    seq![FORMAT_D24_UNORM_S8_UINT, FORMAT_D32_SFLOAT, FORMAT_D32_SFLOAT_S8_UINT]
}

/// The depth formats to try, in order of preference.
pub fn depth_format_candidates() -> (r: Vec<i32>)
    ensures
        r@ == spec_depth_format_candidates(),
{
    let mut r: Vec<i32> = Vec::new();
    r.push(FORMAT_D24_UNORM_S8_UINT);
    r.push(FORMAT_D32_SFLOAT);
    r.push(FORMAT_D32_SFLOAT_S8_UINT);
    assert(r@ =~= spec_depth_format_candidates());
    r
}

/// The first candidate that supports depth-stencil attachment, given one flag
/// per candidate; an error when none does.
pub fn choose_depth_format(supported: &Vec<bool>) -> (r: Result<i32, Error>)
    requires
        supported.len() == spec_depth_format_candidates().len(),
    ensures
        r.is_ok() == supported@.contains(true),
        r.is_ok() ==> exists|i: int| 0 <= i < supported.len() && supported@[i]
            && (forall|k: int| 0 <= k < i ==> !supported@[k]) && r.unwrap() == spec_depth_format_candidates()[i],
        r.is_err() ==> r->Err_0.spec_kind() == ErrorKind::GenericGpu,
{
    let candidates = depth_format_candidates();
    let mut i: usize = 0;
    while i < supported.len()
        invariant
            i <= supported.len(),
            supported.len() == candidates.len(),
            candidates@ == spec_depth_format_candidates(),
            forall|k: int| 0 <= k < i ==> !supported@[k],
        decreases supported.len() - i,
    {
        if supported[i] {
            assert(supported@[i as int]);
            return Ok(candidates[i]);
        }
        i = i + 1;
    }
    Err(Error::new(ErrorKind::GenericGpu, "failed to find supported depth buffer format"))
}

/// What happens to an attachment's contents when a render pass begins.
#[derive(Clone, Copy, Debug, PartialEq, Eq, Structural)]
pub enum LoadOp {
    Load,
    Clear,
    DontCare,
}

/// What happens to an attachment's contents when a render pass ends.
#[derive(Clone, Copy, Debug, PartialEq, Eq, Structural)]
pub enum StoreOp {
    Store,
    DontCare,
}

/// Image layouts a render pass moves between.
#[derive(Clone, Copy, Debug, PartialEq, Eq, Structural)]
pub enum ImageLayout {
    Undefined,
    ColorAttachmentOptimal,
    DepthStencilAttachmentOptimal,
    PresentSrc,
    TransferDstOptimal,
    ShaderReadOnlyOptimal,
}

/// One single-sampled attachment of a render pass.
#[derive(Clone, Copy, Debug, PartialEq, Eq, Structural)]
pub struct AttachmentDesc {
    pub format: i32,
    pub load_op: LoadOp,
    pub store_op: StoreOp,
    pub stencil_load_op: LoadOp,
    pub stencil_store_op: StoreOp,
    pub initial_layout: ImageLayout,
    pub final_layout: ImageLayout,
}

/// The frame's render pass: one subpass drawing into a colour attachment
/// (attachment 0) that is then presented, with a depth attachment
/// (attachment 1); both are cleared on load and stored.
#[derive(Clone, Copy, Debug, PartialEq, Eq, Structural)]
pub struct RenderPassDesc {
    pub color: AttachmentDesc,
    pub depth: AttachmentDesc,
}

pub open spec fn spec_attachment(format: i32, final_layout: ImageLayout) -> AttachmentDesc {
    AttachmentDesc {
        format,
        load_op: LoadOp::Clear,
        store_op: StoreOp::Store,
        stencil_load_op: LoadOp::DontCare,
        stencil_store_op: StoreOp::DontCare,
        initial_layout: ImageLayout::Undefined,
        final_layout,
    }
}

pub fn render_pass_desc(color_format: i32, depth_format: i32) -> (r: RenderPassDesc)
    ensures
        r.color == spec_attachment(color_format, ImageLayout::PresentSrc),
        r.depth == spec_attachment(depth_format, ImageLayout::DepthStencilAttachmentOptimal),
{
    let color = AttachmentDesc {
        format: color_format,
        load_op: LoadOp::Clear,
        store_op: StoreOp::Store,
        stencil_load_op: LoadOp::DontCare,
        stencil_store_op: StoreOp::DontCare,
        initial_layout: ImageLayout::Undefined,
        final_layout: ImageLayout::PresentSrc,
    };
    let depth = AttachmentDesc { format: depth_format, final_layout: ImageLayout::DepthStencilAttachmentOptimal, ..color };
    RenderPassDesc { color, depth }
}

/// Byte size of a depth image of `width` by `height` 4-byte pixels; `None`
/// when it does not fit.
pub fn depth_image_size(width: u32, height: u32) -> (r: Option<usize>)
    ensures
        r.is_some() == (width * height * 4 <= usize::MAX),
        r.is_some() ==> r.unwrap() == width * height * 4,
{
    let w = width as u64;
    let h = height as u64;
    assert(w * h <= u32::MAX * u32::MAX) by (nonlinear_arith)
        requires w <= u32::MAX, h <= u32::MAX;
    let pixels = w * h;
    if pixels > (usize::MAX / 4) as u64 {
        return None;
    }
    Some((pixels * 4) as usize)
}

/// Memory accesses that a layout transition orders.
#[derive(Clone, Copy, Debug, PartialEq, Eq, Structural)]
pub enum AccessMask {
    NoAccess,
    TransferWrite,
    ShaderRead,
}

/// Pipeline stages that a layout transition waits on or blocks.
#[derive(Clone, Copy, Debug, PartialEq, Eq, Structural)]
pub enum PipelineStage {
    TopOfPipe,
    Transfer,
    FragmentShader,
}

/// The barrier of an image layout transition.
#[derive(Clone, Copy, Debug, PartialEq, Eq, Structural)]
pub struct LayoutTransition {
    pub src_access: AccessMask,
    pub dst_access: AccessMask,
    pub src_stage: PipelineStage,
    pub dst_stage: PipelineStage,
}

/// The barrier for moving a texture image from `old_layout` to `new_layout`:
/// undefined to transfer destination before an upload, and transfer
/// destination to shader-read after it. Other transitions are not supported.
pub fn layout_transition(old_layout: ImageLayout, new_layout: ImageLayout) -> (r: Result<LayoutTransition, Error>)
    ensures
        old_layout == ImageLayout::Undefined && new_layout == ImageLayout::TransferDstOptimal ==> r == Ok::<
            LayoutTransition,
            Error,
        >(LayoutTransition {
            src_access: AccessMask::NoAccess,
            dst_access: AccessMask::TransferWrite,
            src_stage: PipelineStage::TopOfPipe,
            dst_stage: PipelineStage::Transfer,
        }),
        old_layout == ImageLayout::TransferDstOptimal && new_layout == ImageLayout::ShaderReadOnlyOptimal ==> r == Ok::<
            LayoutTransition,
            Error,
        >(LayoutTransition {
            src_access: AccessMask::TransferWrite,
            dst_access: AccessMask::ShaderRead,
            src_stage: PipelineStage::Transfer,
            dst_stage: PipelineStage::FragmentShader,
        }),
        r.is_err() == !((old_layout == ImageLayout::Undefined && new_layout == ImageLayout::TransferDstOptimal) || (
        old_layout == ImageLayout::TransferDstOptimal && new_layout == ImageLayout::ShaderReadOnlyOptimal)),
        r.is_err() ==> r->Err_0.spec_kind() == ErrorKind::GenericGpu,
{
    if old_layout == ImageLayout::Undefined && new_layout == ImageLayout::TransferDstOptimal {
        Ok(LayoutTransition {
            src_access: AccessMask::NoAccess,
            dst_access: AccessMask::TransferWrite,
            src_stage: PipelineStage::TopOfPipe,
            dst_stage: PipelineStage::Transfer,
        })
    } else if old_layout == ImageLayout::TransferDstOptimal && new_layout == ImageLayout::ShaderReadOnlyOptimal {
        Ok(LayoutTransition {
            src_access: AccessMask::TransferWrite,
            dst_access: AccessMask::ShaderRead,
            src_stage: PipelineStage::Transfer,
            dst_stage: PipelineStage::FragmentShader,
        })
    } else {
        Err(Error::new(ErrorKind::GenericGpu, "unsupported layout transition"))
    }
}

/// Kinds of driver objects, for ordering their release.
#[derive(Clone, Copy, Debug, PartialEq, Eq, Structural)]
pub enum GpuObject {
    DescriptorSets,
    DescriptorPools,
    PipelineLayouts,
    RenderPass,
    Swapchain,
    Device,
}

pub open spec fn spec_teardown_order() -> Seq<GpuObject> {
    seq![
        GpuObject::DescriptorSets,
        GpuObject::DescriptorPools,
        GpuObject::PipelineLayouts,
        GpuObject::RenderPass,
        GpuObject::Swapchain,
        GpuObject::Device,
    ]
}

/// The order of release at shutdown, after the device idle-wait: each kind
/// before everything it depends on.
pub fn teardown_order() -> (r: Vec<GpuObject>)
    ensures
        r@ == spec_teardown_order(),
{
    let mut r: Vec<GpuObject> = Vec::new();
    r.push(GpuObject::DescriptorSets);
    r.push(GpuObject::DescriptorPools);
    r.push(GpuObject::PipelineLayouts);
    r.push(GpuObject::RenderPass);
    r.push(GpuObject::Swapchain);
    r.push(GpuObject::Device);
    assert(r@ =~= spec_teardown_order());
    r
}

} // verus!
