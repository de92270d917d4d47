//! Plain descriptions of GPU objects and of the work submitted to the device.
//!
//! The verified library never talks to a device directly.  Every resource it
//! creates is named by a handle, and everything the device is asked to do is
//! recorded as a `GpuAction`.  A backend drains the recorded actions from the
//! render context and performs each one against the real device, keyed by the
//! handles.  A frame's draw work is a `Submit` action carrying the ordered
//! `RenderCommand` list of its single render pass.

use vstd::prelude::*;

verus! {

// ---------------------------------------------------------------------------
// Handles
// ---------------------------------------------------------------------------

/// Handle of a GPU buffer.
#[derive(Clone, Copy, PartialEq, Eq, Structural, Debug)]
pub struct BufferId(pub u64);

/// Handle of a GPU texture.
#[derive(Clone, Copy, PartialEq, Eq, Structural, Debug)]
pub struct TextureId(pub u64);

/// Handle of a view onto a GPU texture.
#[derive(Clone, Copy, PartialEq, Eq, Structural, Debug)]
pub struct TextureViewId(pub u64);

/// Handle of a texture sampler.
#[derive(Clone, Copy, PartialEq, Eq, Structural, Debug)]
pub struct SamplerId(pub u64);

/// Handle of a binding-layout object (one slot's layout).
#[derive(Clone, Copy, PartialEq, Eq, Structural, Debug)]
pub struct BindGroupLayoutId(pub u64);

/// Handle of a concrete resource-binding set.
#[derive(Clone, Copy, PartialEq, Eq, Structural, Debug)]
pub struct BindGroupId(pub u64);

/// Handle of a compiled shader module.
#[derive(Clone, Copy, PartialEq, Eq, Structural, Debug)]
pub struct ShaderModuleId(pub u64);

/// Handle of a compiled render pipeline.
#[derive(Clone, Copy, PartialEq, Eq, Structural, Debug)]
pub struct RenderPipelineId(pub u64);

/// The swap-chain image acquired for one frame, named by the generation of
/// the swap chain it came from.
#[derive(Clone, Copy, PartialEq, Eq, Structural, Debug)]
pub struct FrameImage {
    pub swap_chain_generation: u64,
}

// ---------------------------------------------------------------------------
// Enumerated device state
// ---------------------------------------------------------------------------

/// Pixel format of a texture or of the swap chain.
#[derive(Clone, Copy, PartialEq, Eq, Structural, Debug)]
pub enum TextureFormat {
    Bgra8UnormSrgb,
    Rgba8Unorm,
    Depth32Float,
}

/// Ways a texture may be used by the device.
#[derive(Clone, Copy, PartialEq, Eq, Structural, Debug)]
pub struct TextureUsage {
    pub render_attachment: bool,
    pub sampled: bool,
    pub copy_src: bool,
    pub copy_dst: bool,
}

/// Ways a buffer may be used by the device.
#[derive(Clone, Copy, PartialEq, Eq, Structural, Debug)]
pub struct BufferUsage {
    pub vertex: bool,
    pub index: bool,
    pub uniform: bool,
    pub copy_src: bool,
    pub copy_dst: bool,
}

/// How sampling outside the unit square wraps.
#[derive(Clone, Copy, PartialEq, Eq, Structural, Debug)]
pub enum AddressMode {
    ClampToEdge,
    Repeat,
}

/// Texel filtering.
#[derive(Clone, Copy, PartialEq, Eq, Structural, Debug)]
pub enum FilterMode {
    Linear,
    Nearest,
}

/// Depth/stencil comparison used by sampling and by the depth test.
#[derive(Clone, Copy, PartialEq, Eq, Structural, Debug)]
pub enum CompareFunction {
    LessEqual,
}

/// Which shader stage may see a binding.
#[derive(Clone, Copy, PartialEq, Eq, Structural, Debug)]
pub enum ShaderStage {
    Vertex,
    Fragment,
}

/// The kind of resource a binding point carries.
#[derive(Clone, Copy, PartialEq, Eq, Structural, Debug)]
pub enum BindingType {
    UniformBuffer,
    SampledTexture,
    Sampler,
}

/// Winding that counts as front-facing.
#[derive(Clone, Copy, PartialEq, Eq, Structural, Debug)]
pub enum FrontFace {
    Ccw,
}

/// Which faces are culled.
#[derive(Clone, Copy, PartialEq, Eq, Structural, Debug)]
pub enum CullMode {
    Back,
}

/// How vertices are assembled into primitives.
#[derive(Clone, Copy, PartialEq, Eq, Structural, Debug)]
pub enum PrimitiveTopology {
    TriangleList,
}

/// Width of the entries of an index buffer.
#[derive(Clone, Copy, PartialEq, Eq, Structural, Debug)]
pub enum IndexFormat {
    Uint16,
}

/// How a fragment's color is combined with the attachment.
#[derive(Clone, Copy, PartialEq, Eq, Structural, Debug)]
pub enum BlendMode {
    Replace,
}

/// Element type of one vertex attribute.
#[derive(Clone, Copy, PartialEq, Eq, Structural, Debug)]
pub enum VertexFormat {
    Float32x2,
    Float32x3,
}

/// When the presented image is swapped to the screen.
#[derive(Clone, Copy, PartialEq, Eq, Structural, Debug)]
pub enum PresentMode {
    Fifo,
}

// ---------------------------------------------------------------------------
// Descriptors
// ---------------------------------------------------------------------------

/// Size of a (possibly layered) texture.
#[derive(Clone, Copy, PartialEq, Eq, Structural, Debug)]
pub struct Extent3d {
    pub width: u32,
    pub height: u32,
    pub depth: u32,
}

/// Description of the swap chain backing the presentation surface.
#[derive(Clone, Copy, PartialEq, Eq, Structural, Debug)]
pub struct SwapChainDescriptor {
    pub usage: TextureUsage,
    pub format: TextureFormat,
    pub width: u32,
    pub height: u32,
    pub present_mode: PresentMode,
}

/// Description of a texture resource.
#[derive(Clone, PartialEq, Eq, Debug)]
pub struct TextureDescriptor {
    pub label: Option<&'static str>,
    pub size: Extent3d,
    pub mip_level_count: u32,
    pub sample_count: u32,
    pub format: TextureFormat,
    pub usage: TextureUsage,
}

/// Description of a sampler.  The level-of-detail clamps are 32-bit float
/// values carried by their bit patterns.
#[derive(Clone, Copy, PartialEq, Eq, Structural, Debug)]
pub struct SamplerDescriptor {
    pub address_mode_u: AddressMode,
    pub address_mode_v: AddressMode,
    pub address_mode_w: AddressMode,
    pub mag_filter: FilterMode,
    pub min_filter: FilterMode,
    pub mipmap_filter: FilterMode,
    pub lod_min_clamp_bits: u32,
    pub lod_max_clamp_bits: u32,
    pub compare: Option<CompareFunction>,
}

/// One binding point within a slot's binding layout.
#[derive(Clone, Copy, PartialEq, Eq, Structural, Debug)]
pub struct BindGroupLayoutEntry {
    pub binding: u32,
    pub visibility: ShaderStage,
    pub ty: BindingType,
}

/// The ordered binding points of one slot's binding layout, labelled with
/// the slot's name.
#[derive(Clone, PartialEq, Eq, Debug)]
pub struct BindGroupLayoutDesc {
    pub label: Option<String>,
    pub entries: Vec<BindGroupLayoutEntry>,
}

/// A concrete resource wired to one binding point.
#[derive(Clone, Copy, PartialEq, Eq, Structural, Debug)]
pub enum BindingResource {
    Buffer(BufferId),
    TextureView(TextureViewId),
    Sampler(SamplerId),
}

/// One entry of a concrete resource-binding set.
#[derive(Clone, Copy, PartialEq, Eq, Structural, Debug)]
pub struct BindGroupEntry {
    pub binding: u32,
    pub resource: BindingResource,
}

/// One attribute of the vertex layout.
#[derive(Clone, Copy, PartialEq, Eq, Structural, Debug)]
pub struct VertexAttribute {
    pub offset: u32,
    pub shader_location: u32,
    pub format: VertexFormat,
}

/// Layout of one vertex buffer: its stride and its ordered attributes.
#[derive(Clone, PartialEq, Eq, Debug)]
pub struct VertexBufferLayoutDesc {
    pub stride: u32,
    pub attributes: Vec<VertexAttribute>,
}

/// The full fixed-function and stage description of a render pipeline.
#[derive(Clone, PartialEq, Eq, Debug)]
pub struct RenderPipelineDesc {
    pub label: Option<&'static str>,
    pub bind_group_layouts: Vec<BindGroupLayoutId>,
    pub vertex_module: ShaderModuleId,
    pub fragment_module: ShaderModuleId,
    pub front_face: FrontFace,
    pub cull_mode: CullMode,
    pub color_format: TextureFormat,
    pub blend: BlendMode,
    pub topology: PrimitiveTopology,
    pub depth_format: TextureFormat,
    pub depth_write_enabled: bool,
    pub depth_compare: CompareFunction,
    pub index_format: IndexFormat,
    pub vertex_layout: VertexBufferLayoutDesc,
    pub sample_count: u32,
}

// ---------------------------------------------------------------------------
// Recorded work
// ---------------------------------------------------------------------------

/// One command of a frame's single render pass, in recording order.
#[derive(Clone, PartialEq, Eq, Debug)]
pub enum RenderCommand {
    /// Open the pass: clear the acquired swap-chain image to the fixed clear
    /// color and the depth attachment to the fixed clear depth.  The clear
    /// values are 32-bit float values carried by their bit patterns.
    BeginRenderPass {
        color_target: FrameImage,
        clear_color_bits: [u32; 4],
        depth_target: TextureViewId,
        clear_depth_bits: u32,
    },
    SetBindGroup { index: u32, bind_group: BindGroupId },
    SetPipeline { pipeline: RenderPipelineId },
    SetVertexBuffer { buffer: BufferId },
    SetIndexBuffer { buffer: BufferId },
    /// Draw one instance of the first `index_count` indices.
    DrawIndexed { index_count: u32 },
}

/// One unit of work handed to the backend, in recording order.
#[derive(Clone, PartialEq, Eq, Debug)]
pub enum GpuAction {
    CreateSwapChain { desc: SwapChainDescriptor },
    CreateShaderModule { id: ShaderModuleId, spirv: Vec<u8> },
    CreateBindGroupLayout { id: BindGroupLayoutId, desc: BindGroupLayoutDesc },
    CreateBindGroup {
        id: BindGroupId,
        layout: BindGroupLayoutId,
        entries: Vec<BindGroupEntry>,
        label: Option<&'static str>,
    },
    CreateRenderPipeline { id: RenderPipelineId, desc: RenderPipelineDesc },
    /// Create a buffer; when `contents` is present the buffer is initialized
    /// with those bytes and `size` equals their count.
    CreateBuffer {
        id: BufferId,
        usage: BufferUsage,
        size: u64,
        contents: Option<Vec<u8>>,
        label: Option<&'static str>,
    },
    CreateTexture { id: TextureId, desc: TextureDescriptor },
    CreateTextureView { id: TextureViewId, texture: TextureId },
    CreateSampler { id: SamplerId, desc: SamplerDescriptor },
    /// Queue-level write of `data` into `buffer` at `offset`.
    WriteBuffer { buffer: BufferId, offset: u64, data: Vec<u8> },
    /// Queue-level upload of tightly packed texel rows into `texture`.
    WriteTexture {
        texture: TextureId,
        data: Vec<u8>,
        bytes_per_row: u32,
        size: Extent3d,
    },
    /// Finish the frame's command recording and submit it to the queue.
    Submit { commands: Vec<RenderCommand> },
}

} // verus!
