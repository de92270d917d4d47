//! The render context: the root factory for GPU resources and the owner of
//! the swap chain backing the presentation surface.
//!
//! The context keeps the bookkeeping the device side depends on: the current
//! surface size, the swap-chain description (whose dimensions always match
//! the last resize), a monotone counter naming fresh resource handles, and
//! the ordered log of `GpuAction`s for the backend to execute.  The device,
//! queue and surface themselves live with the backend, which created them
//! during startup negotiation and executes the recorded actions against them.

use vstd::prelude::*;

use crate::camera::RenderCamera;
use crate::gpu::BindGroupId;
use crate::gpu::BufferId;
use crate::gpu::FrameImage;
use crate::gpu::GpuAction;
use crate::gpu::PresentMode;
use crate::gpu::RenderCommand;
use crate::gpu::SwapChainDescriptor;
use crate::gpu::TextureFormat;
use crate::gpu::TextureUsage;
use crate::material::lemma_slot_index_agrees;
use crate::material::spec_slot_index;
use crate::material_instance::MaterialInstance;
use crate::mesh::Mesh;
use crate::uniform::UniformBinding;

verus! {

/// A surface size in physical pixels.
#[derive(Clone, Copy, PartialEq, Eq, Structural, Debug)]
pub struct PhysicalSize {
    pub width: u32,
    pub height: u32,
}

/// The root of the rendering layer.  See the module text.
pub struct RenderContext {
    /// Current size of the presentation surface.
    pub size: PhysicalSize,
    /// Description of the current swap chain.
    pub sc_desc: SwapChainDescriptor,
    /// How many times the swap chain has been (re)created, less one.  The
    /// backend keeps exactly one swap chain: the one of this generation;
    /// recreating it supersedes and releases the previous one.
    pub swap_chain_generation: u64,
    /// Whether a frame is currently recording.  No resize may happen then.
    pub frame_open: bool,
    /// Next fresh resource handle.
    pub next_id: u64,
    /// Work recorded for the backend, in order.
    pub actions: Vec<GpuAction>,
}

impl RenderContext {
    /// The swap-chain description always carries the stored surface size.
    pub open spec fn wf(&self) -> bool {
        &&& self.sc_desc.width == self.size.width
        &&& self.sc_desc.height == self.size.height
    }

    /// How `resize` transforms the context: the stored size and the
    /// swap-chain dimensions become `size`, every other descriptor field is
    /// kept, the swap chain is recreated (one generation up, one recorded
    /// `CreateSwapChain`), and nothing else changes.
    pub open spec fn resize_post(pre: Self, post: Self, size: PhysicalSize) -> bool {
        &&& post.size == size
        &&& post.sc_desc == (SwapChainDescriptor {
            width: size.width,
            height: size.height,
            ..pre.sc_desc
        })
        &&& post.swap_chain_generation == pre.swap_chain_generation + 1
        &&& post.frame_open == pre.frame_open
        &&& post.next_id == pre.next_id
        &&& post.actions@ == pre.actions@.push(GpuAction::CreateSwapChain { desc: post.sc_desc })
    }

    /// Set up the context for a surface of the given initial size.
    ///
    /// The adapter/device negotiation itself is the backend's startup step;
    /// a context models its outcome from the window's physical size on.  The
    /// initial swap chain targets the surface (`render_attachment`), uses the
    /// fixed sRGB presentation format, and presents first-in first-out.
    pub fn create(width: u32, height: u32) -> (ctx: RenderContext)
        ensures
            ctx.wf(),
            ctx.size == (PhysicalSize { width, height }),
            ctx.sc_desc == (SwapChainDescriptor {
                usage: TextureUsage {
                    render_attachment: true,
                    sampled: false,
                    copy_src: false,
                    copy_dst: false,
                },
                format: TextureFormat::Bgra8UnormSrgb,
                width,
                height,
                present_mode: PresentMode::Fifo,
            }),
            ctx.swap_chain_generation == 0,
            !ctx.frame_open,
            ctx.next_id == 0,
            ctx.actions@ == seq![GpuAction::CreateSwapChain { desc: ctx.sc_desc }],
    {
        let sc_desc = SwapChainDescriptor {
            usage: TextureUsage {
                render_attachment: true,
                sampled: false,
                copy_src: false,
                copy_dst: false,
            },
            format: TextureFormat::Bgra8UnormSrgb,
            width,
            height,
            present_mode: PresentMode::Fifo,
        };
        let mut actions: Vec<GpuAction> = Vec::new();
        actions.push(GpuAction::CreateSwapChain { desc: sc_desc });
        RenderContext {
            size: PhysicalSize { width, height },
            sc_desc,
            swap_chain_generation: 0,
            frame_open: false,
            next_id: 0,
            actions,
        }
    }

    /// Store the new size and synchronously rebuild the swap chain.
    ///
    /// Callers must not resize while a frame is recording: the open frame
    /// holds the acquired image of the current swap chain.
    pub fn resize(&mut self, size: PhysicalSize)
        requires
            !old(self).frame_open,
            old(self).swap_chain_generation < u64::MAX,
        ensures
            Self::resize_post(*old(self), *final(self), size),
            final(self).wf(),
    {
        self.size = size;
        self.sc_desc.width = size.width;
        self.sc_desc.height = size.height;
        self.swap_chain_generation = self.swap_chain_generation + 1;
        self.actions.push(GpuAction::CreateSwapChain { desc: self.sc_desc });
    }

    /// Hand the recorded work to the backend, oldest first, leaving the log
    /// empty.  Nothing else about the context changes.
    pub fn take_actions(&mut self) -> (work: Vec<GpuAction>)
        ensures
            work@ == old(self).actions@,
            final(self).actions@ == Seq::<GpuAction>::empty(),
            final(self).size == old(self).size,
            final(self).sc_desc == old(self).sc_desc,
            final(self).swap_chain_generation == old(self).swap_chain_generation,
            final(self).frame_open == old(self).frame_open,
            final(self).next_id == old(self).next_id,
    {
        let mut work: Vec<GpuAction> = Vec::new();
        core::mem::swap(&mut work, &mut self.actions);
        work
    }

    /// Issue a fresh resource handle, never issued before.
    pub(crate) fn fresh_id(&mut self) -> (id: u64)
        requires
            old(self).next_id < u64::MAX,
        ensures
            id == old(self).next_id,
            final(self).next_id == old(self).next_id + 1,
            final(self).size == old(self).size,
            final(self).sc_desc == old(self).sc_desc,
            final(self).swap_chain_generation == old(self).swap_chain_generation,
            final(self).frame_open == old(self).frame_open,
            final(self).actions@ == old(self).actions@,
    {
        let id = self.next_id;
        self.next_id = self.next_id + 1;
        id
    }
}

/// Law: an immediate second `resize` to identical dimensions is idempotent.
///
/// Whenever two `resize` calls with the same size follow one another (the
/// relation of each call's before- and after-state is `resize_post`), the
/// second call leaves the swap-chain description, the stored size, and the
/// resource counter exactly as the first call left them, and the context
/// stays well formed.  No swap chain is leaked: each call records exactly
/// one `CreateSwapChain`, and each recreation supersedes the previous
/// generation, of which the context keeps no other record.
pub proof fn lemma_resize_idempotent(
    c0: RenderContext,
    c1: RenderContext,
    c2: RenderContext,
    size: PhysicalSize,
)
    requires
        RenderContext::resize_post(c0, c1, size),
        RenderContext::resize_post(c1, c2, size),
    ensures
        c1.wf(),
        c2.wf(),
        c2.sc_desc == c1.sc_desc,
        c2.size == c1.size,
        c2.next_id == c1.next_id,
        c2.swap_chain_generation == c0.swap_chain_generation + 2,
        c2.actions@ == c0.actions@
            .push(GpuAction::CreateSwapChain { desc: c1.sc_desc })
            .push(GpuAction::CreateSwapChain { desc: c2.sc_desc }),
{
}

/// Bit pattern of the 32-bit float 0.1, the clear color's red channel.
pub const CLEAR_R_BITS: u32 = 0x3DCC_CCCD;

/// Bit pattern of the 32-bit float 0.2, the clear color's green channel.
pub const CLEAR_G_BITS: u32 = 0x3E4C_CCCD;

/// Bit pattern of the 32-bit float 0.3, the clear color's blue channel.
pub const CLEAR_B_BITS: u32 = 0x3E99_999A;

/// Bit pattern of the 32-bit float 1.0: the clear color's alpha channel,
/// and the cleared depth (the full far value).
pub const CLEAR_ONE_BITS: u32 = 0x3F80_0000;

/// An immutable pairing of a created mesh and a material instance.
pub struct Drawable {
    pub material: MaterialInstance,
    pub mesh: Mesh,
}

impl Drawable {
    pub fn get_material(&self) -> (r: &MaterialInstance)
        ensures
            r == &self.material,
    {
        &self.material
    }

    /// The mesh's vertex buffer; drawables are built from created meshes,
    /// so the buffer exists.
    pub fn get_vertex_buffer(&self) -> (r: BufferId)
        requires
            self.mesh.vertex_buffer is Some,
        ensures
            r == self.mesh.vertex_buffer.unwrap(),
    {
        match self.mesh.get_vertex_buffer() {
            Some(b) => b,
            None => unreached(),
        }
    }

    /// The mesh's index buffer; drawables are built from created meshes,
    /// so the buffer exists.
    pub fn get_index_buffer(&self) -> (r: BufferId)
        requires
            self.mesh.index_buffer is Some,
        ensures
            r == self.mesh.index_buffer.unwrap(),
    {
        match self.mesh.get_index_buffer() {
            Some(b) => b,
            None => unreached(),
        }
    }

    /// How many indices one draw of this drawable covers.
    pub fn num_indices(&self) -> (r: u32)
        requires
            self.mesh.indices@.len() <= u32::MAX,
        ensures
            r == self.mesh.indices@.len(),
    {
        self.mesh.get_indices().len() as u32
    }
}

/// Accumulates a mesh and a material instance, then creates the mesh's
/// buffers and pairs the two.
pub struct DrawableBuilder {
    pub mesh: Option<Mesh>,
    pub material: Option<MaterialInstance>,
}

impl RenderContext {
    /// A drawable builder with no mesh and no material yet.
    pub fn create_drawable(&self) -> (b: DrawableBuilder)
        ensures
            b.mesh is None,
            b.material is None,
    {
        DrawableBuilder::new()
    }
}

impl DrawableBuilder {
    pub fn new() -> (b: DrawableBuilder)
        ensures
            b.mesh is None,
            b.material is None,
    {
        DrawableBuilder { mesh: None, material: None }
    }

    pub fn with_mesh(self, mesh: Mesh) -> (b: DrawableBuilder)
        ensures
            b.mesh == Some(mesh),
            b.material == self.material,
    {
        DrawableBuilder { mesh: Some(mesh), material: self.material }
    }

    pub fn with_material(self, material: MaterialInstance) -> (b: DrawableBuilder)
        ensures
            b.material == Some(material),
            b.mesh == self.mesh,
    {
        DrawableBuilder { mesh: self.mesh, material: Some(material) }
    }

    /// Create the mesh's GPU buffers and pair it with the material
    /// instance.  Building without a mesh or without a material, or from a
    /// mesh whose buffers already exist, is a programming error ruled out
    /// by the preconditions.
    pub fn build(self, render_context: &mut RenderContext) -> (d: Drawable)
        requires
            self.mesh matches Some(m) && !m.spec_created(),
            self.material is Some,
            old(render_context).next_id + 2 <= u64::MAX,
        ensures
            d.material == self.material.unwrap(),
            d.mesh.vertices == self.mesh.unwrap().vertices,
            d.mesh.indices == self.mesh.unwrap().indices,
            d.mesh.vertex_buffer == Some(BufferId(old(render_context).next_id)),
            d.mesh.index_buffer == Some(BufferId((old(render_context).next_id + 1) as u64)),
            final(render_context).next_id == old(render_context).next_id + 2,
            Mesh::upload_actions_post(
                self.mesh.unwrap(),
                old(render_context).actions@,
                final(render_context).actions@,
                old(render_context).next_id as int,
            ),
            final(render_context).size == old(render_context).size,
            final(render_context).sc_desc == old(render_context).sc_desc,
            final(render_context).swap_chain_generation
                == old(render_context).swap_chain_generation,
            final(render_context).frame_open == old(render_context).frame_open,
    {
        let mut mesh = match self.mesh {
            Some(m) => m,
            None => unreached(),
        };
        let material = match self.material {
            Some(m) => m,
            None => unreached(),
        };
        match mesh.create(render_context) {
            Ok(()) => {},
            Err(_) => {
                proof {
                    assert(false);
                }
            },
        }
        Drawable { material, mesh }
    }
}

/// The per-slot bindings of an instance, ascending over the first `upto`
/// slot indices: one `SetBindGroup` per populated slot, unpopulated slots
/// simply left unbound.
pub open spec fn spec_instance_binds(
    vals: Seq<Option<UniformBinding>>,
    upto: int,
) -> Seq<RenderCommand>
    decreases upto,
{
    if upto <= 0 {
        Seq::<RenderCommand>::empty()
    } else {
        spec_instance_binds(vals, upto - 1) + match vals[upto - 1] {
            Some(b) => seq![
                RenderCommand::SetBindGroup { index: (upto - 1) as u32, bind_group: b.bind_group },
            ],
            None => Seq::<RenderCommand>::empty(),
        }
    }
}

/// Everything `render` needs of one drawable: a well-formed instance over
/// a camera-compatible material, a created mesh, and counts within the
/// device's 32-bit limits.
pub open spec fn spec_renderable(obj: Drawable) -> bool {
    &&& obj.material.wf()
    &&& obj.material.base_material.spec_has_slot("camera"@)
    &&& obj.mesh.vertex_buffer is Some
    &&& obj.mesh.index_buffer is Some
    &&& obj.mesh.indices@.len() <= u32::MAX
    &&& obj.material.uniform_values@.len() <= u32::MAX
}

/// The commands one drawable contributes, in order: the camera's binding
/// set at the material's camera slot, the instance's populated bindings in
/// ascending slot order, then pipeline, vertex and index buffers, and one
/// indexed draw of the full index count, one instance.
pub open spec fn spec_draw_commands(
    obj: Drawable,
    camera_bind_group: BindGroupId,
) -> Seq<RenderCommand> {
    let base = obj.material.base_material;
    seq![
        RenderCommand::SetBindGroup {
            index: spec_slot_index(base.uniforms@, "camera"@) as u32,
            bind_group: camera_bind_group,
        },
    ] + spec_instance_binds(
        obj.material.uniform_values@,
        obj.material.uniform_values@.len() as int,
    ) + seq![
        RenderCommand::SetPipeline { pipeline: base.render_pipeline },
        RenderCommand::SetVertexBuffer { buffer: obj.mesh.vertex_buffer.unwrap() },
        RenderCommand::SetIndexBuffer { buffer: obj.mesh.index_buffer.unwrap() },
        RenderCommand::DrawIndexed { index_count: obj.mesh.indices@.len() as u32 },
    ]
}

/// The commands of the drawables, in input order.
pub open spec fn spec_objects_commands(
    objs: Seq<Drawable>,
    camera_bind_group: BindGroupId,
) -> Seq<RenderCommand>
    decreases objs.len(),
{
    if objs.len() == 0 {
        Seq::<RenderCommand>::empty()
    } else {
        spec_objects_commands(objs.drop_last(), camera_bind_group)
            + spec_draw_commands(objs.last(), camera_bind_group)
    }
}

/// The command opening the frame's single render pass: clear the acquired
/// image to the fixed clear color and the camera's depth texture to the
/// full far value.
pub open spec fn spec_begin_pass(image: FrameImage, depth_view: crate::gpu::TextureViewId)
    -> RenderCommand {
    RenderCommand::BeginRenderPass {
        color_target: image,
        clear_color_bits: [CLEAR_R_BITS, CLEAR_G_BITS, CLEAR_B_BITS, CLEAR_ONE_BITS],
        depth_target: depth_view,
        clear_depth_bits: CLEAR_ONE_BITS,
    }
}

/// One frame's command-recording session: the acquired swap-chain image
/// and the commands recorded so far.  Created by `begin_frame`, recorded
/// into by `render`, consumed by `end_frame`; a submitted frame cannot be
/// reused.
pub struct Frame {
    pub image: FrameImage,
    pub commands: Vec<RenderCommand>,
}

/// Open a frame: note the acquired image of the current swap chain and
/// start an empty recording.  No frame may already be open, and no resize
/// may happen until the frame is submitted.
///
/// Acquiring the image from the presentation queue is the backend's step;
/// when that acquisition times out the backend drops the frame without
/// opening one here.
pub fn begin_frame(render_context: &mut RenderContext) -> (frame: Frame)
    requires
        !old(render_context).frame_open,
    ensures
        final(render_context).frame_open,
        final(render_context).size == old(render_context).size,
        final(render_context).sc_desc == old(render_context).sc_desc,
        final(render_context).swap_chain_generation == old(render_context).swap_chain_generation,
        final(render_context).next_id == old(render_context).next_id,
        final(render_context).actions@ == old(render_context).actions@,
        frame.image.swap_chain_generation == old(render_context).swap_chain_generation,
        frame.commands@ == Seq::<RenderCommand>::empty(),
{
    render_context.frame_open = true;
    Frame {
        image: FrameImage { swap_chain_generation: render_context.swap_chain_generation },
        commands: Vec::new(),
    }
}

/// Close the frame's recording and submit it to the queue.  The frame is
/// consumed: a submitted frame is never reused.
pub fn end_frame(frame: Frame, render_context: &mut RenderContext)
    requires
        old(render_context).frame_open,
    ensures
        !final(render_context).frame_open,
        final(render_context).size == old(render_context).size,
        final(render_context).sc_desc == old(render_context).sc_desc,
        final(render_context).swap_chain_generation == old(render_context).swap_chain_generation,
        final(render_context).next_id == old(render_context).next_id,
        final(render_context).actions@.len() == old(render_context).actions@.len() + 1,
        final(render_context).actions@.subrange(
            0,
            old(render_context).actions@.len() as int,
        ) == old(render_context).actions@,
        final(render_context).actions@.last() matches GpuAction::Submit { commands }
            && commands@ == frame.commands@,
{
    render_context.frame_open = false;
    render_context.actions.push(GpuAction::Submit { commands: frame.commands });
    proof {
        assert(render_context.actions@.subrange(
            0,
            old(render_context).actions@.len() as int,
        ) =~= old(render_context).actions@);
    }
}

impl Frame {
    /// Record one render pass drawing `objects`, in input order, with
    /// `camera`.
    ///
    /// The camera's payload is pushed into its uniform buffer once, before
    /// the pass — the payload is a function of the camera alone, so one
    /// write per frame serves every drawable.  The pass clears the
    /// acquired image and the camera's depth texture, then records each
    /// drawable's commands; slots an instance leaves unpopulated stay
    /// unbound.
    pub fn render(
        &mut self,
        objects: &[&Drawable],
        camera: &RenderCamera,
        render_context: &mut RenderContext,
    )
        requires
            camera.is_bound(),
            forall|k: int| 0 <= k < objects@.len() ==> spec_renderable(*objects@[k]),
        ensures
            final(self).image == old(self).image,
            final(self).commands@ == old(self).commands@.push(
                spec_begin_pass(old(self).image, camera.depth_texture.view),
            ) + spec_objects_commands(
                objects@.map_values(|o: &Drawable| *o),
                camera.binding.unwrap().bind_group,
            ),
            final(render_context).actions@.len() == old(render_context).actions@.len() + 1,
            final(render_context).actions@.subrange(
                0,
                old(render_context).actions@.len() as int,
            ) == old(render_context).actions@,
            crate::camera::is_camera_write_action(
                final(render_context).actions@.last(),
                camera.spec_buffer(),
                camera.uniform,
            ),
            final(render_context).next_id == old(render_context).next_id,
            final(render_context).size == old(render_context).size,
            final(render_context).sc_desc == old(render_context).sc_desc,
            final(render_context).swap_chain_generation
                == old(render_context).swap_chain_generation,
            final(render_context).frame_open == old(render_context).frame_open,
    {
        let ghost objs = objects@.map_values(|o: &Drawable| *o);

        camera.update(render_context);

        let camera_binding = match camera.get_binding() {
            Some(b) => b,
            None => unreached(),
        };
        let camera_bind_group = camera_binding.get_bind_group();

        self.commands.push(RenderCommand::BeginRenderPass {
            color_target: self.image,
            clear_color_bits: [CLEAR_R_BITS, CLEAR_G_BITS, CLEAR_B_BITS, CLEAR_ONE_BITS],
            depth_target: camera.get_depth_texture().get_view(),
            clear_depth_bits: CLEAR_ONE_BITS,
        });
        let ghost base_commands = self.commands@;

        let n = objects.len();
        let mut k: usize = 0;
        while k < n
            invariant
                k <= n,
                n == objects@.len(),
                objs == objects@.map_values(|o: &Drawable| *o),
                forall|m: int| 0 <= m < objects@.len() ==> spec_renderable(*objects@[m]),
                camera_bind_group == camera.binding.unwrap().bind_group,
                self.image == old(self).image,
                base_commands == old(self).commands@.push(
                    spec_begin_pass(old(self).image, camera.depth_texture.view),
                ),
                self.commands@ == base_commands + spec_objects_commands(
                    objs.subrange(0, k as int),
                    camera_bind_group,
                ),
            decreases n - k,
        {
            let obj: &Drawable = objects[k];
            proof {
                assert(objs[k as int] == *obj);
                assert(spec_renderable(*obj));
            }

            let base = obj.get_material().get_base_material();
            let camera_bind_index = match base.get_binding_by_name("camera") {
                Some(i) => i,
                None => unreached(),
            };
            proof {
                lemma_slot_index_agrees(
                    base.uniforms@,
                    "camera"@,
                    camera_bind_index as int,
                );
            }
            self.commands.push(RenderCommand::SetBindGroup {
                index: camera_bind_index as u32,
                bind_group: camera_bind_group,
            });

            let values = obj.get_material().get_uniforms();
            let slot_count = values.len();
            let mut i: usize = 0;
            while i < slot_count
                invariant
                    i <= slot_count,
                    slot_count == values@.len() <= u32::MAX,
                    values == &obj.material.uniform_values,
                    self.image == old(self).image,
                    base_commands == old(self).commands@.push(
                        spec_begin_pass(old(self).image, camera.depth_texture.view),
                    ),
                    objs == objects@.map_values(|o: &Drawable| *o),
                    camera_bind_group == camera.binding.unwrap().bind_group,
                    self.commands@ == base_commands + spec_objects_commands(
                        objs.subrange(0, k as int),
                        camera_bind_group,
                    ) + seq![
                        RenderCommand::SetBindGroup {
                            index: spec_slot_index(
                                obj.material.base_material.uniforms@,
                                "camera"@,
                            ) as u32,
                            bind_group: camera_bind_group,
                        },
                    ] + spec_instance_binds(values@, i as int),
                decreases slot_count - i,
            {
                match &values[i] {
                    Some(binding) => {
                        self.commands.push(RenderCommand::SetBindGroup {
                            index: i as u32,
                            bind_group: binding.get_bind_group(),
                        });
                    },
                    None => {},
                }
                i = i + 1;
            }

            self.commands.push(RenderCommand::SetPipeline {
                pipeline: base.get_render_pipeline(),
            });
            self.commands.push(RenderCommand::SetVertexBuffer {
                buffer: obj.get_vertex_buffer(),
            });
            self.commands.push(RenderCommand::SetIndexBuffer {
                buffer: obj.get_index_buffer(),
            });
            self.commands.push(RenderCommand::DrawIndexed { index_count: obj.num_indices() });

            proof {
                let prefix = objs.subrange(0, k as int);
                let prefix1 = objs.subrange(0, k + 1 as int);
                assert(prefix1.drop_last() =~= prefix);
                assert(prefix1.last() == objs[k as int]);
                assert(self.commands@ =~= base_commands + spec_objects_commands(
                    prefix1,
                    camera_bind_group,
                ));
            }
            k = k + 1;
        }
        proof {
            assert(objs.subrange(0, n as int) =~= objs);
        }
    }
}

} // verus!
