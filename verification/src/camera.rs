//! The camera's core-facing half: a depth texture tracking the swap chain,
//! and — once bound to a material's camera slot — an owned uniform buffer
//! and resource-binding set, refreshed from the current payload.
//!
//! Computing the view and projection matrices is float work that lives
//! with the application; their bit patterns arrive here as a
//! `CameraUniform`.

use vstd::prelude::*;

use crate::gpu::BindGroupEntry;
use crate::gpu::BindGroupId;
use crate::gpu::BindingResource;
use crate::gpu::BufferId;
use crate::gpu::BufferUsage;
use crate::gpu::Extent3d;
use crate::gpu::GpuAction;
use crate::gpu::SwapChainDescriptor;
use crate::gpu::TextureFormat;
use crate::gpu::TextureId;
use crate::gpu::TextureUsage;
use crate::render::RenderContext;
use crate::texture::Texture;
use crate::texture::TextureBuilder;
use crate::uniform::spec_camera_uniform_bytes;
use crate::uniform::CameraUniform;
use crate::uniform::Uniform;
use crate::uniform::UniformBinding;
use crate::uniform::CAMERA_UNIFORM_SIZE;

verus! {

/// The GPU-side state a camera owns.  See the module text.
pub struct RenderCamera {
    pub depth_texture: Texture,
    pub uniform: CameraUniform,
    pub binding: Option<UniformBinding>,
}

/// The recorded creation of the camera's depth texture: a depth-format
/// attachment of exactly the swap chain's current dimensions, sampled and
/// written by the passes that use it.
pub open spec fn is_depth_texture_action(a: GpuAction, sc: SwapChainDescriptor, id: int) -> bool {
    &&& a matches GpuAction::CreateTexture { id: tid, desc }
    &&& tid == TextureId(id as u64)
    &&& desc.label matches Some(l) && l@ == "Depth Texture"@
    &&& desc.size == (Extent3d { width: sc.width, height: sc.height, depth: 1 })
    &&& desc.format == TextureFormat::Depth32Float
    &&& desc.usage == (TextureUsage {
        render_attachment: true,
        sampled: true,
        copy_src: false,
        copy_dst: true,
    })
}

/// The recorded creation of the camera's uniform buffer: uniform usage,
/// written through the queue, sized for the payload, uninitialized.
pub open spec fn is_camera_buffer_action(a: GpuAction, id: int) -> bool {
    &&& a matches GpuAction::CreateBuffer { id: bid, usage, size, contents, label }
    &&& bid == BufferId(id as u64)
    &&& usage == (BufferUsage {
        vertex: false,
        index: false,
        uniform: true,
        copy_src: false,
        copy_dst: true,
    })
    &&& size == CAMERA_UNIFORM_SIZE
    &&& contents is None
    &&& label matches Some(l) && l@ == "Camera Uniform Buffer"@
}

/// The recorded creation of the camera's resource-binding set: the uniform
/// buffer at binding point 0, on the camera slot's declared layout.
pub open spec fn is_camera_bind_group_action(
    a: GpuAction,
    layout: crate::gpu::BindGroupLayoutId,
    buffer: BufferId,
    id: int,
) -> bool {
    &&& a matches GpuAction::CreateBindGroup { id: bid, layout: l, entries, label }
    &&& bid == BindGroupId(id as u64)
    &&& l == layout
    &&& entries@ == seq![
        BindGroupEntry { binding: 0, resource: BindingResource::Buffer(buffer) },
    ]
    &&& label matches Some(t) && t@ == "camera_bind_group"@
}

/// The recorded refresh of the camera's uniform buffer: the full payload,
/// written at offset zero.
pub open spec fn is_camera_write_action(a: GpuAction, buffer: BufferId, u: CameraUniform) -> bool {
    &&& a matches GpuAction::WriteBuffer { buffer: b, offset, data }
    &&& b == buffer
    &&& offset == 0
    &&& data@ == spec_camera_uniform_bytes(u)
}

impl RenderCamera {
    /// Bound cameras own a uniform buffer behind their binding.
    pub open spec fn is_bound(&self) -> bool {
        self.binding matches Some(b) && b.buffer is Some
    }

    /// The buffer the camera writes; meaningful once bound.
    pub open spec fn spec_buffer(&self) -> BufferId {
        self.binding.unwrap().buffer.unwrap()
    }

    /// A camera with a depth texture sized to the current swap chain, the
    /// given initial payload, and no binding yet.
    pub fn new(render_context: &mut RenderContext, uniform: CameraUniform) -> (c: RenderCamera)
        requires
            old(render_context).next_id + 3 <= u64::MAX,
        ensures
            !c.is_bound(),
            c.uniform == uniform,
            c.depth_texture.texture == TextureId(old(render_context).next_id),
            c.depth_texture.view
                == crate::gpu::TextureViewId((old(render_context).next_id + 1) as u64),
            c.depth_texture.sampler
                == crate::gpu::SamplerId((old(render_context).next_id + 2) as u64),
            final(render_context).next_id == old(render_context).next_id + 3,
            final(render_context).actions@.len() == old(render_context).actions@.len() + 3,
            final(render_context).actions@.subrange(
                0,
                old(render_context).actions@.len() as int,
            ) == old(render_context).actions@,
            is_depth_texture_action(
                final(render_context).actions@[old(render_context).actions@.len() as int],
                old(render_context).sc_desc,
                old(render_context).next_id as int,
            ),
            final(render_context).actions@[old(render_context).actions@.len() as int + 1]
                == (GpuAction::CreateTextureView {
                id: c.depth_texture.view,
                texture: c.depth_texture.texture,
            }),
            final(render_context).size == old(render_context).size,
            final(render_context).sc_desc == old(render_context).sc_desc,
            final(render_context).swap_chain_generation
                == old(render_context).swap_chain_generation,
            final(render_context).frame_open == old(render_context).frame_open,
    {
        let depth_texture = TextureBuilder::new().make_depth_texture(render_context).build(
            render_context,
        );
        proof {
            assert(render_context.actions@.subrange(
                0,
                old(render_context).actions@.len() as int,
            ) =~= old(render_context).actions@);
        }
        RenderCamera { depth_texture, uniform, binding: None }
    }

    /// Replace the payload the next `update` writes.
    pub fn set_uniform(&mut self, uniform: CameraUniform)
        ensures
            *final(self) == (RenderCamera { uniform, ..*old(self) }),
    {
        self.uniform = uniform;
    }

    pub fn get_depth_texture(&self) -> (r: &Texture)
        ensures
            r == &self.depth_texture,
    {
        &self.depth_texture
    }

    pub fn get_binding(&self) -> (r: Option<UniformBinding>)
        ensures
            r == self.binding,
    {
        self.binding
    }

    /// Allocate the camera's own uniform buffer and wire it to the
    /// material's camera slot, whose declared layout `camera_uniform`
    /// carries.  Rebinding replaces the previous binding.
    pub fn bind(&mut self, render_context: &mut RenderContext, camera_uniform: &Uniform)
        requires
            old(render_context).next_id + 2 <= u64::MAX,
        ensures
            final(self).depth_texture == old(self).depth_texture,
            final(self).uniform == old(self).uniform,
            final(self).binding == Some(UniformBinding {
                bind_group: BindGroupId((old(render_context).next_id + 1) as u64),
                buffer: Some(BufferId(old(render_context).next_id)),
            }),
            final(self).is_bound(),
            final(render_context).next_id == old(render_context).next_id + 2,
            final(render_context).actions@.len() == old(render_context).actions@.len() + 2,
            final(render_context).actions@.subrange(
                0,
                old(render_context).actions@.len() as int,
            ) == old(render_context).actions@,
            is_camera_buffer_action(
                final(render_context).actions@[old(render_context).actions@.len() as int],
                old(render_context).next_id as int,
            ),
            is_camera_bind_group_action(
                final(render_context).actions@[old(render_context).actions@.len() as int + 1],
                camera_uniform.bind_group_layout,
                BufferId(old(render_context).next_id),
                old(render_context).next_id + 1,
            ),
            final(render_context).size == old(render_context).size,
            final(render_context).sc_desc == old(render_context).sc_desc,
            final(render_context).swap_chain_generation
                == old(render_context).swap_chain_generation,
            final(render_context).frame_open == old(render_context).frame_open,
    {
        let buffer_id = BufferId(render_context.fresh_id());
        render_context.actions.push(GpuAction::CreateBuffer {
            id: buffer_id,
            usage: BufferUsage {
                vertex: false,
                index: false,
                uniform: true,
                copy_src: false,
                copy_dst: true,
            },
            size: CAMERA_UNIFORM_SIZE,
            contents: None,
            label: Some("Camera Uniform Buffer"),
        });

        let mut entries: Vec<BindGroupEntry> = Vec::new();
        entries.push(BindGroupEntry { binding: 0, resource: BindingResource::Buffer(buffer_id) });
        proof {
            assert(entries@ =~= seq![
                BindGroupEntry { binding: 0, resource: BindingResource::Buffer(buffer_id) },
            ]);
        }
        let bind_group = BindGroupId(render_context.fresh_id());
        render_context.actions.push(GpuAction::CreateBindGroup {
            id: bind_group,
            layout: camera_uniform.get_bind_group_layout(),
            entries,
            label: Some("camera_bind_group"),
        });

        self.binding = Some(UniformBinding::new(bind_group, Some(buffer_id)));
        proof {
            assert(render_context.actions@.subrange(
                0,
                old(render_context).actions@.len() as int,
            ) =~= old(render_context).actions@);
        }
    }

    /// Push the current payload into the bound uniform buffer through the
    /// queue.  Updating an unbound camera is a programming error ruled out
    /// by the precondition: the camera cannot function unbound.
    pub fn update(&self, render_context: &mut RenderContext)
        requires
            self.is_bound(),
        ensures
            final(render_context).actions@.len() == old(render_context).actions@.len() + 1,
            final(render_context).actions@.subrange(
                0,
                old(render_context).actions@.len() as int,
            ) == old(render_context).actions@,
            is_camera_write_action(
                final(render_context).actions@.last(),
                self.spec_buffer(),
                self.uniform,
            ),
            final(render_context).next_id == old(render_context).next_id,
            final(render_context).size == old(render_context).size,
            final(render_context).sc_desc == old(render_context).sc_desc,
            final(render_context).swap_chain_generation
                == old(render_context).swap_chain_generation,
            final(render_context).frame_open == old(render_context).frame_open,
    {
        let data = self.uniform.payload_bytes();
        let buffer = match &self.binding {
            Some(binding) => match binding.get_buffer() {
                Some(buffer) => buffer,
                None => unreached(),
            },
            None => unreached(),
        };
        render_context.actions.push(GpuAction::WriteBuffer { buffer, offset: 0, data });
        proof {
            assert(render_context.actions@.subrange(
                0,
                old(render_context).actions@.len() as int,
            ) =~= old(render_context).actions@);
        }
    }
}

} // verus!
