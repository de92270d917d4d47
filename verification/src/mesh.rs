//! Meshes: CPU-side vertex and index data plus, once created, the GPU
//! vertex and index buffers built from them.
//!
//! The whole library carries 32-bit float quantities by their bit patterns,
//! so that the byte images handed to the device are stated exactly; the
//! backend and the callers convert with `f32::to_bits`/`from_bits`.

use vstd::bytes::spec_u16_to_le_bytes;
use vstd::bytes::spec_u32_to_le_bytes;
use vstd::bytes::u16_to_le_bytes;
use vstd::bytes::u32_to_le_bytes;
use vstd::prelude::*;

use crate::gpu::BufferId;
use crate::gpu::BufferUsage;
use crate::gpu::GpuAction;
use crate::gpu::VertexAttribute;
use crate::gpu::VertexBufferLayoutDesc;
use crate::gpu::VertexFormat;
use crate::render::RenderContext;
use crate::RISEError;

verus! {

/// A 3-vector of 32-bit floats, each component carried by its bit pattern.
#[derive(Clone, Copy, PartialEq, Eq, Structural, Debug)]
pub struct Vec3Bits {
    pub x: u32,
    pub y: u32,
    pub z: u32,
}

/// A 2-vector of 32-bit floats, each component carried by its bit pattern.
#[derive(Clone, Copy, PartialEq, Eq, Structural, Debug)]
pub struct Vec2Bits {
    pub x: u32,
    pub y: u32,
}

/// One vertex: position, normal and texture coordinates, all float bits.
#[derive(Clone, Copy, PartialEq, Eq, Structural, Debug)]
pub struct Vertex {
    pub position: Vec3Bits,
    pub normal: Vec3Bits,
    pub uv: Vec2Bits,
}

/// Byte size of one packed vertex: eight 32-bit floats.
pub const VERTEX_STRIDE: u32 = 32;

/// The little-endian byte image of one packed vertex, in field order with
/// no padding.
pub open spec fn spec_vertex_bytes(v: Vertex) -> Seq<u8> {
    spec_u32_to_le_bytes(v.position.x) + spec_u32_to_le_bytes(v.position.y)
        + spec_u32_to_le_bytes(v.position.z) + spec_u32_to_le_bytes(v.normal.x)
        + spec_u32_to_le_bytes(v.normal.y) + spec_u32_to_le_bytes(v.normal.z)
        + spec_u32_to_le_bytes(v.uv.x) + spec_u32_to_le_bytes(v.uv.y)
}

/// The byte image of a vertex array: each vertex's bytes in order.
pub open spec fn spec_vertices_bytes(vs: Seq<Vertex>) -> Seq<u8>
    decreases vs.len(),
{
    if vs.len() == 0 {
        Seq::<u8>::empty()
    } else {
        spec_vertices_bytes(vs.drop_last()) + spec_vertex_bytes(vs.last())
    }
}

/// The byte image of an index array: each 16-bit index little endian.
pub open spec fn spec_indices_bytes(is: Seq<u16>) -> Seq<u8>
    decreases is.len(),
{
    if is.len() == 0 {
        Seq::<u8>::empty()
    } else {
        spec_indices_bytes(is.drop_last()) + spec_u16_to_le_bytes(is.last())
    }
}

impl Vertex {
    pub fn new(position: Vec3Bits, normal: Vec3Bits, uv: Vec2Bits) -> (v: Vertex)
        ensures
            v == (Vertex { position, normal, uv }),
    {
        Vertex { position, normal, uv }
    }

    /// The vertex-buffer layout every pipeline of this library uses: stride
    /// of one packed vertex; position, normal and texture coordinates at
    /// shader locations 0, 1 and 2 and byte offsets 0, 12 and 24.
    pub fn desc() -> (d: VertexBufferLayoutDesc)
        ensures
            d.stride == VERTEX_STRIDE,
            d.attributes@ == seq![
                VertexAttribute { offset: 0, shader_location: 0, format: VertexFormat::Float32x3 },
                VertexAttribute { offset: 12, shader_location: 1, format: VertexFormat::Float32x3 },
                VertexAttribute { offset: 24, shader_location: 2, format: VertexFormat::Float32x2 },
            ],
    {
        let mut attributes: Vec<VertexAttribute> = Vec::new();
        attributes.push(
            VertexAttribute { offset: 0, shader_location: 0, format: VertexFormat::Float32x3 },
        );
        attributes.push(
            VertexAttribute { offset: 12, shader_location: 1, format: VertexFormat::Float32x3 },
        );
        attributes.push(
            VertexAttribute { offset: 24, shader_location: 2, format: VertexFormat::Float32x2 },
        );
        VertexBufferLayoutDesc { stride: VERTEX_STRIDE, attributes }
    }

    /// Append this vertex's byte image to `out`.
    fn write_bytes(&self, out: &mut Vec<u8>)
        ensures
            final(out)@ == old(out)@ + spec_vertex_bytes(*self),
    {
        let mut piece = u32_to_le_bytes(self.position.x);
        out.append(&mut piece);
        let mut piece = u32_to_le_bytes(self.position.y);
        out.append(&mut piece);
        let mut piece = u32_to_le_bytes(self.position.z);
        out.append(&mut piece);
        let mut piece = u32_to_le_bytes(self.normal.x);
        out.append(&mut piece);
        let mut piece = u32_to_le_bytes(self.normal.y);
        out.append(&mut piece);
        let mut piece = u32_to_le_bytes(self.normal.z);
        out.append(&mut piece);
        let mut piece = u32_to_le_bytes(self.uv.x);
        out.append(&mut piece);
        let mut piece = u32_to_le_bytes(self.uv.y);
        out.append(&mut piece);
        assert(out@ =~= old(out)@ + spec_vertex_bytes(*self));
    }
}

/// CPU-side mesh data plus, after `create`, its GPU buffer handles.
#[derive(Debug)]
pub struct Mesh {
    pub vertices: Vec<Vertex>,
    pub indices: Vec<u16>,
    pub vertex_buffer: Option<BufferId>,
    pub index_buffer: Option<BufferId>,
}

/// The packed byte image of the vertices of `m`.
pub open spec fn spec_mesh_vertex_bytes(m: Mesh) -> Seq<u8> {
    spec_vertices_bytes(m.vertices@)
}

/// The packed byte image of the indices of `m`.
pub open spec fn spec_mesh_index_bytes(m: Mesh) -> Seq<u8> {
    spec_indices_bytes(m.indices@)
}

impl Mesh {
    /// Whether any GPU buffer of this mesh exists.
    pub open spec fn spec_created(&self) -> bool {
        self.vertex_buffer is Some || self.index_buffer is Some
    }

    /// Whether both GPU buffers of this mesh exist.
    pub open spec fn spec_both_created(&self) -> bool {
        self.vertex_buffer is Some && self.index_buffer is Some
    }

    /// An empty mesh with no GPU buffers.
    pub fn new() -> (m: Mesh)
        ensures
            m.vertices@ == Seq::<Vertex>::empty(),
            m.indices@ == Seq::<u16>::empty(),
            m.vertex_buffer is None,
            m.index_buffer is None,
    {
        Mesh { vertices: Vec::new(), indices: Vec::new(), vertex_buffer: None, index_buffer: None }
    }

    /// Replace the CPU-side vertices.
    pub fn set_vertices(&mut self, vertices: Vec<Vertex>)
        ensures
            *final(self) == (Mesh { vertices, ..*old(self) }),
    {
        self.vertices = vertices;
    }

    pub fn get_vertices(&self) -> (r: &Vec<Vertex>)
        ensures
            r == &self.vertices,
    {
        &self.vertices
    }

    /// Replace the CPU-side indices.
    pub fn set_indices(&mut self, indices: Vec<u16>)
        ensures
            *final(self) == (Mesh { indices, ..*old(self) }),
    {
        self.indices = indices;
    }

    pub fn get_indices(&self) -> (r: &Vec<u16>)
        ensures
            r == &self.indices,
    {
        &self.indices
    }

    pub fn add_vertex(&mut self, vertex: Vertex)
        ensures
            final(self).vertices@ == old(self).vertices@.push(vertex),
            final(self).indices == old(self).indices,
            final(self).vertex_buffer == old(self).vertex_buffer,
            final(self).index_buffer == old(self).index_buffer,
    {
        self.vertices.push(vertex);
    }

    pub fn add_index(&mut self, index: u16)
        ensures
            final(self).indices@ == old(self).indices@.push(index),
            final(self).vertices == old(self).vertices,
            final(self).vertex_buffer == old(self).vertex_buffer,
            final(self).index_buffer == old(self).index_buffer,
    {
        self.indices.push(index);
    }

    /// The packed byte image of the current vertices.
    fn vertex_bytes(&self) -> (bytes: Vec<u8>)
        ensures
            bytes@ == spec_mesh_vertex_bytes(*self),
    {
        let mut bytes: Vec<u8> = Vec::new();
        let n = self.vertices.len();
        let mut i: usize = 0;
        while i < n
            invariant
                i <= n,
                n == self.vertices@.len(),
                bytes@ == spec_vertices_bytes(self.vertices@.subrange(0, i as int)),
            decreases n - i,
        {
            self.vertices[i].write_bytes(&mut bytes);
            proof {
                let pre = self.vertices@.subrange(0, i as int);
                let post = self.vertices@.subrange(0, i + 1 as int);
                assert(post.drop_last() =~= pre);
                assert(post.last() == self.vertices@[i as int]);
            }
            i = i + 1;
        }
        proof {
            assert(self.vertices@.subrange(0, n as int) =~= self.vertices@);
        }
        bytes
    }

    /// The packed byte image of the current indices.
    fn index_bytes(&self) -> (bytes: Vec<u8>)
        ensures
            bytes@ == spec_mesh_index_bytes(*self),
    {
        let mut bytes: Vec<u8> = Vec::new();
        let n = self.indices.len();
        let mut i: usize = 0;
        while i < n
            invariant
                i <= n,
                n == self.indices@.len(),
                bytes@ == spec_indices_bytes(self.indices@.subrange(0, i as int)),
            decreases n - i,
        {
            let mut piece = u16_to_le_bytes(self.indices[i]);
            bytes.append(&mut piece);
            proof {
                let pre = self.indices@.subrange(0, i as int);
                let post = self.indices@.subrange(0, i + 1 as int);
                assert(post.drop_last() =~= pre);
                assert(post.last() == self.indices@[i as int]);
            }
            i = i + 1;
        }
        proof {
            assert(self.indices@.subrange(0, n as int) =~= self.indices@);
        }
        bytes
    }

    /// Build the GPU vertex and index buffers from the CPU-side data.
    ///
    /// May be called at most once per mesh: a second call reports
    /// `AlreadyCreated` and changes nothing at all — neither the mesh nor
    /// the context — rather than corrupting the existing buffers.
    pub fn create(&mut self, render_context: &mut RenderContext) -> (r: Result<(), RISEError>)
        requires
            old(render_context).next_id + 2 <= u64::MAX,
        ensures
            old(self).spec_created() ==> {
                &&& r == Result::<(), RISEError>::Err(RISEError(crate::RISEErrorKind::AlreadyCreated))
                &&& *final(self) == *old(self)
                &&& *final(render_context) == *old(render_context)
            },
            !old(self).spec_created() ==> {
                &&& r == Result::<(), RISEError>::Ok(())
                &&& final(self).vertices == old(self).vertices
                &&& final(self).indices == old(self).indices
                &&& final(self).vertex_buffer == Some(BufferId(old(render_context).next_id))
                &&& final(self).index_buffer == Some(BufferId((old(render_context).next_id + 1) as u64))
                &&& final(render_context).next_id == old(render_context).next_id + 2
                &&& Self::upload_actions_post(
                    *old(self),
                    old(render_context).actions@,
                    final(render_context).actions@,
                    old(render_context).next_id as int,
                )
                &&& final(render_context).size == old(render_context).size
                &&& final(render_context).sc_desc == old(render_context).sc_desc
                &&& final(render_context).swap_chain_generation
                    == old(render_context).swap_chain_generation
                &&& final(render_context).frame_open == old(render_context).frame_open
            },
    {
        if self.index_buffer.is_some() || self.vertex_buffer.is_some() {
            return Err(RISEError(crate::RISEErrorKind::AlreadyCreated));
        }
        self.upload(render_context);
        Ok(())
    }

    /// Rebuild the GPU buffers from the current CPU-side data.
    ///
    /// Requires a prior `create`: called out of order it reports
    /// `NotCreated` and performs no GPU allocation whatsoever.
    pub fn update(&mut self, render_context: &mut RenderContext) -> (r: Result<(), RISEError>)
        requires
            old(render_context).next_id + 2 <= u64::MAX,
        ensures
            !old(self).spec_both_created() ==> {
                &&& r == Result::<(), RISEError>::Err(RISEError(crate::RISEErrorKind::NotCreated))
                &&& *final(self) == *old(self)
                &&& *final(render_context) == *old(render_context)
            },
            old(self).spec_both_created() ==> {
                &&& r == Result::<(), RISEError>::Ok(())
                &&& final(self).vertices == old(self).vertices
                &&& final(self).indices == old(self).indices
                &&& final(self).vertex_buffer == Some(BufferId(old(render_context).next_id))
                &&& final(self).index_buffer == Some(BufferId((old(render_context).next_id + 1) as u64))
                &&& final(render_context).next_id == old(render_context).next_id + 2
                &&& Self::upload_actions_post(
                    *old(self),
                    old(render_context).actions@,
                    final(render_context).actions@,
                    old(render_context).next_id as int,
                )
                &&& final(render_context).size == old(render_context).size
                &&& final(render_context).sc_desc == old(render_context).sc_desc
                &&& final(render_context).swap_chain_generation
                    == old(render_context).swap_chain_generation
                &&& final(render_context).frame_open == old(render_context).frame_open
            },
    {
        if self.index_buffer.is_none() || self.vertex_buffer.is_none() {
            return Err(RISEError(crate::RISEErrorKind::NotCreated));
        }
        self.upload(render_context);
        Ok(())
    }

    /// The recorded creation of a mesh's initialized vertex buffer.
    pub open spec fn is_vertex_buffer_action(a: GpuAction, m: Mesh, id: int) -> bool {
        &&& a matches GpuAction::CreateBuffer { id: bid, usage, size, contents, label }
        &&& bid == BufferId(id as u64)
        &&& usage == (BufferUsage {
            vertex: true,
            index: false,
            uniform: false,
            copy_src: false,
            copy_dst: false,
        })
        &&& size == spec_mesh_vertex_bytes(m).len()
        &&& contents matches Some(data) && data@ == spec_mesh_vertex_bytes(m)
        &&& label matches Some(l) && l@ == "Vertex Buffer"@
    }

    /// The recorded creation of a mesh's initialized index buffer.
    pub open spec fn is_index_buffer_action(a: GpuAction, m: Mesh, id: int) -> bool {
        &&& a matches GpuAction::CreateBuffer { id: bid, usage, size, contents, label }
        &&& bid == BufferId(id as u64)
        &&& usage == (BufferUsage {
            vertex: false,
            index: true,
            uniform: false,
            copy_src: false,
            copy_dst: false,
        })
        &&& size == spec_mesh_index_bytes(m).len()
        &&& contents matches Some(data) && data@ == spec_mesh_index_bytes(m)
        &&& label matches Some(l) && l@ == "Index Buffer"@
    }

    /// How `create` and `update` extend the recorded work: everything
    /// already recorded is kept, followed by exactly the two buffer
    /// creations, vertex buffer first.
    pub open spec fn upload_actions_post(
        m: Mesh,
        pre: Seq<GpuAction>,
        post: Seq<GpuAction>,
        first_id: int,
    ) -> bool {
        &&& post.len() == pre.len() + 2
        &&& post.subrange(0, pre.len() as int) == pre
        &&& Self::is_vertex_buffer_action(post[pre.len() as int], m, first_id)
        &&& Self::is_index_buffer_action(post[pre.len() as int + 1], m, first_id + 1)
    }

    /// Allocate fresh buffers initialized from the CPU-side data.
    fn upload(&mut self, render_context: &mut RenderContext)
        requires
            old(render_context).next_id + 2 <= u64::MAX,
        ensures
            final(self).vertices == old(self).vertices,
            final(self).indices == old(self).indices,
            final(self).vertex_buffer == Some(BufferId(old(render_context).next_id)),
            final(self).index_buffer == Some(BufferId((old(render_context).next_id + 1) as u64)),
            final(render_context).next_id == old(render_context).next_id + 2,
            Self::upload_actions_post(
                *old(self),
                old(render_context).actions@,
                final(render_context).actions@,
                old(render_context).next_id as int,
            ),
            final(render_context).size == old(render_context).size,
            final(render_context).sc_desc == old(render_context).sc_desc,
            final(render_context).swap_chain_generation
                == old(render_context).swap_chain_generation,
            final(render_context).frame_open == old(render_context).frame_open,
    {
        let vertex_data = self.vertex_bytes();
        let vertex_id = render_context.fresh_id();
        let vertex_size = vertex_data.len() as u64;
        render_context.actions.push(GpuAction::CreateBuffer {
            id: BufferId(vertex_id),
            usage: BufferUsage {
                vertex: true,
                index: false,
                uniform: false,
                copy_src: false,
                copy_dst: false,
            },
            size: vertex_size,
            contents: Some(vertex_data),
            label: Some("Vertex Buffer"),
        });
        self.vertex_buffer = Some(BufferId(vertex_id));

        let index_data = self.index_bytes();
        let index_id = render_context.fresh_id();
        let index_size = index_data.len() as u64;
        render_context.actions.push(GpuAction::CreateBuffer {
            id: BufferId(index_id),
            usage: BufferUsage {
                vertex: false,
                index: true,
                uniform: false,
                copy_src: false,
                copy_dst: false,
            },
            size: index_size,
            contents: Some(index_data),
            label: Some("Index Buffer"),
        });
        self.index_buffer = Some(BufferId(index_id));
        proof {
            let pre = old(render_context).actions@;
            assert(render_context.actions@.subrange(0, pre.len() as int) =~= pre);
        }
    }

    pub fn get_vertex_buffer(&self) -> (r: Option<BufferId>)
        ensures
            r == self.vertex_buffer,
    {
        self.vertex_buffer
    }

    pub fn get_index_buffer(&self) -> (r: Option<BufferId>)
        ensures
            r == self.index_buffer,
    {
        self.index_buffer
    }
}

/// The vertex that vertex slot `k` of a geometry file carries: three
/// position floats, three normal floats where present (zero where the
/// file carries none for this slot), two texture-coordinate floats.
pub open spec fn spec_geometry_vertex(
    positions: Seq<u32>,
    normals: Seq<u32>,
    texcoords: Seq<u32>,
    k: int,
) -> Vertex {
    Vertex {
        position: Vec3Bits {
            x: positions[3 * k],
            y: positions[3 * k + 1],
            z: positions[3 * k + 2],
        },
        normal: if 3 * k + 2 < normals.len() {
            Vec3Bits { x: normals[3 * k], y: normals[3 * k + 1], z: normals[3 * k + 2] }
        } else {
            Vec3Bits { x: 0, y: 0, z: 0 }
        },
        uv: Vec2Bits { x: texcoords[2 * k], y: texcoords[2 * k + 1] },
    }
}

impl Mesh {
    /// Build a mesh from one sub-mesh of a geometry file, handed over as
    /// flat channels of float bits and 32-bit indices.
    ///
    /// Every third position float starts a vertex; the texture-coordinate
    /// channel must cover every vertex (a file lacking it is rejected with
    /// `MissingTexCoords`), the normal channel may end early, and each
    /// index is narrowed to 16 bits, keeping its low half.
    pub fn from_geometry(
        positions: &Vec<u32>,
        normals: &Vec<u32>,
        texcoords: &Vec<u32>,
        raw_indices: &Vec<u32>,
    ) -> (r: Result<Mesh, RISEError>)
        ensures
            ({
                let vertex_count = positions@.len() / 3;
                &&& texcoords@.len() < 2 * vertex_count ==> r == Result::<Mesh, RISEError>::Err(
                    RISEError(crate::RISEErrorKind::MissingTexCoords),
                )
                &&& texcoords@.len() >= 2 * vertex_count ==> {
                    &&& r matches Ok(m)
                    &&& m.vertex_buffer is None
                    &&& m.index_buffer is None
                    &&& m.vertices@.len() == vertex_count
                    &&& forall|k: int| 0 <= k < vertex_count ==> m.vertices@[k]
                        == spec_geometry_vertex(positions@, normals@, texcoords@, k)
                    &&& m.indices@.len() == raw_indices@.len()
                    &&& forall|k: int| 0 <= k < raw_indices@.len() ==> m.indices@[k]
                        == raw_indices@[k] as u16
                }
            }),
    {
        let vertex_count = positions.len() / 3;
        if texcoords.len() / 2 < vertex_count {
            proof {
                assert(texcoords@.len() < 2 * (positions@.len() / 3));
            }
            return Err(RISEError(crate::RISEErrorKind::MissingTexCoords));
        }
        proof {
            assert(texcoords@.len() >= 2 * (positions@.len() / 3));
        }

        let mut vertices: Vec<Vertex> = Vec::new();
        let pos_len = positions.len();
        let tex_len = texcoords.len();
        let norm_len = normals.len();
        let mut k: usize = 0;
        while k < vertex_count
            invariant
                k <= vertex_count,
                vertex_count == positions@.len() / 3,
                pos_len == positions@.len(),
                tex_len == texcoords@.len(),
                norm_len == normals@.len(),
                2 * vertex_count <= texcoords@.len(),
                vertices@.len() == k,
                forall|m: int| 0 <= m < k ==> vertices@[m] == spec_geometry_vertex(
                    positions@,
                    normals@,
                    texcoords@,
                    m,
                ),
            decreases vertex_count - k,
        {
            proof {
                assert(3 * (vertex_count as int) <= positions@.len());
                assert(3 * (k as int) + 2 < positions@.len());
                assert(2 * (k as int) + 1 < texcoords@.len());
            }
            let position = Vec3Bits {
                x: positions[3 * k],
                y: positions[3 * k + 1],
                z: positions[3 * k + 2],
            };
            let normal = if 3 * k + 2 < norm_len {
                Vec3Bits { x: normals[3 * k], y: normals[3 * k + 1], z: normals[3 * k + 2] }
            } else {
                Vec3Bits { x: 0, y: 0, z: 0 }
            };
            let uv = Vec2Bits { x: texcoords[2 * k], y: texcoords[2 * k + 1] };
            vertices.push(Vertex { position, normal, uv });
            k = k + 1;
        }

        let mut indices: Vec<u16> = Vec::new();
        let n = raw_indices.len();
        let mut k: usize = 0;
        while k < n
            invariant
                k <= n,
                n == raw_indices@.len(),
                indices@.len() == k,
                forall|m: int| 0 <= m < k ==> indices@[m] == raw_indices@[m] as u16,
            decreases n - k,
        {
            indices.push(#[verifier::truncate] (raw_indices[k] as u16));
            k = k + 1;
        }

        Ok(Mesh { vertices, indices, vertex_buffer: None, index_buffer: None })
    }
}

} // verus!
