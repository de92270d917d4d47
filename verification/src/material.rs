//! Materials: a compiled render pipeline plus its named, ordered binding
//! slots.
//!
//! A material is built once from a declarative description: two shader
//! stages and an ordered list of named slots.  Slot names resolve to stable
//! integer indices at build time; every later operation is index-based.
//! Materials are immutable after `build` and shared, reference counted, by
//! all their instances.

use vstd::prelude::*;

use crate::gpu::BindGroupLayoutEntry;
use crate::gpu::BindGroupLayoutId;
use crate::gpu::BindingType;
use crate::gpu::CompareFunction;
use crate::gpu::CullMode;
use crate::gpu::FrontFace;
use crate::gpu::GpuAction;
use crate::gpu::IndexFormat;
use crate::gpu::PrimitiveTopology;
use crate::gpu::RenderPipelineId;
use crate::gpu::ShaderModuleId;
use crate::gpu::ShaderStage;
use crate::gpu::TextureFormat;
use crate::gpu::BlendMode;
use crate::mesh::Vertex;
use crate::render::RenderContext;
use crate::uniform::SlotKind;
use crate::uniform::Uniform;
use crate::RISEError;

verus! {

/// The names of a slot list, in order.
pub open spec fn spec_slot_names(us: Seq<Uniform>) -> Seq<Seq<char>> {
    us.map_values(|u: Uniform| u.name@)
}

/// No two of the names coincide.
pub open spec fn spec_names_unique(names: Seq<Seq<char>>) -> bool {
    forall|i: int, j: int| 0 <= i < j < names.len() ==> names[i] != names[j]
}

/// The index of the slot named `name`; meaningful whenever some slot
/// carries the name, and unique on a well-formed slot table.
pub open spec fn spec_slot_index(us: Seq<Uniform>, name: Seq<char>) -> int {
    choose|i: int| 0 <= i < us.len() && us[i].name@ == name
}

/// Find the first slot of the given name, if any.
fn find_slot_index(uniforms: &Vec<Uniform>, name: &String) -> (r: Option<usize>)
    ensures
        match r {
            Some(i) => {
                &&& i < uniforms@.len()
                &&& uniforms@[i as int].name@ == name@
                &&& forall|j: int| 0 <= j < i ==> uniforms@[j].name@ != name@
            },
            None => forall|j: int| 0 <= j < uniforms@.len() ==> uniforms@[j].name@ != name@,
        },
{
    let n = uniforms.len();
    let mut i: usize = 0;
    while i < n
        invariant
            i <= n,
            n == uniforms@.len(),
            forall|j: int| 0 <= j < i ==> uniforms@[j].name@ != name@,
        decreases n - i,
    {
        if uniforms[i].name == *name {
            return Some(i);
        }
        i = i + 1;
    }
    None
}

/// On a slot table with unique names, any index carrying `name` is the
/// slot index of `name`.
pub proof fn lemma_slot_index_agrees(us: Seq<Uniform>, name: Seq<char>, i: int)
    requires
        spec_names_unique(spec_slot_names(us)),
        0 <= i < us.len(),
        us[i].name@ == name,
    ensures
        spec_slot_index(us, name) == i,
{
    let names = spec_slot_names(us);
    let j = spec_slot_index(us, name);
    assert(0 <= j < us.len() && us[j].name@ == name);
    if j != i {
        let lo = if i < j { i } else { j };
        let hi = if i < j { j } else { i };
        assert(names[lo] == name && names[hi] == name);
        assert(names[lo] != names[hi]);
    }
}

/// Law: on a material built with slots `[s0, ..., sn]`, every declared
/// name resolves to exactly its declaration index — the slot table keeps
/// declaration order and names are unique, so the name of slot `k` finds
/// index `k` and no other.  A name that no slot carries resolves to
/// nothing: `get_binding_by_name` states that side directly, returning
/// `None` exactly when the material has no slot of the asked name.
pub proof fn lemma_binding_indices_follow_declaration(m: Material, k: int)
    requires
        m.wf(),
        0 <= k < m.uniforms@.len(),
    ensures
        spec_slot_index(m.uniforms@, m.uniforms@[k].name@) == k,
        m.spec_has_slot(m.uniforms@[k].name@),
{
    lemma_slot_index_agrees(m.uniforms@, m.uniforms@[k].name@, k);
}

/// A compiled shading pipeline and its ordered slot table.  Immutable once
/// built.
pub struct Material {
    pub render_pipeline: RenderPipelineId,
    pub uniforms: Vec<Uniform>,
}

impl Material {
    /// Slot names are unique, so each resolves to exactly one index.
    pub open spec fn wf(&self) -> bool {
        spec_names_unique(spec_slot_names(self.uniforms@))
    }

    /// Whether some slot carries this name.
    pub open spec fn spec_has_slot(&self, name: Seq<char>) -> bool {
        exists|i: int| 0 <= i < self.uniforms@.len() && self.uniforms@[i].name@ == name
    }

    pub fn get_render_pipeline(&self) -> (r: RenderPipelineId)
        ensures
            r == self.render_pipeline,
    {
        self.render_pipeline
    }

    pub fn get_uniforms(&self) -> (r: &Vec<Uniform>)
        ensures
            r == &self.uniforms,
    {
        &self.uniforms
    }

    /// The index of the slot carrying `name`: the first such index, and
    /// with a well-formed material the only one.  `None` exactly when no
    /// slot carries the name.
    pub fn get_binding_by_name(&self, name: &str) -> (r: Option<usize>)
        ensures
            match r {
                Some(i) => {
                    &&& i < self.uniforms@.len()
                    &&& self.uniforms@[i as int].name@ == name@
                    &&& forall|j: int| 0 <= j < i ==> self.uniforms@[j].name@ != name@
                },
                None => !self.spec_has_slot(name@),
            },
    {
        let owned = name.to_owned();
        find_slot_index(&self.uniforms, &owned)
    }

    /// The slot named "camera", which any material consumed by the camera
    /// subsystem must declare; asking for it on a material without one is a
    /// programming error ruled out by the precondition.
    pub fn get_camera_uniform(&self) -> (r: &Uniform)
        requires
            self.spec_has_slot("camera"@),
        ensures
            exists|i: int|
                0 <= i < self.uniforms@.len() && self.uniforms@[i] == *r
                    && self.uniforms@[i].name@ == "camera"@,
    {
        let index = self.get_binding_by_name("camera");
        match index {
            Some(i) => &self.uniforms[i],
            None => {
                proof {
                    assert(false);
                }
                &self.uniforms[0]
            },
        }
    }
}

/// One entry of a material description's slot list.
#[derive(Debug)]
pub struct SlotDescriptor {
    pub name: String,
    pub kind: SlotKind,
}

/// A parsed material description: the paths of the two compiled shader
/// stages, and the ordered named slots.
#[derive(Debug)]
pub struct MaterialDescription {
    pub vertex_stage: String,
    pub fragment_stage: String,
    pub slots: Vec<SlotDescriptor>,
}

/// The binding points a slot of the given kind declares: the camera's
/// uniform buffer is seen by the vertex stage; a texture slot pairs a
/// sampled texture and its sampler, both seen by the fragment stage.
pub open spec fn spec_slot_layout_entries(kind: SlotKind) -> Seq<BindGroupLayoutEntry> {
    match kind {
        SlotKind::Camera => seq![
            BindGroupLayoutEntry {
                binding: 0,
                visibility: ShaderStage::Vertex,
                ty: BindingType::UniformBuffer,
            },
        ],
        SlotKind::Texture => seq![
            BindGroupLayoutEntry {
                binding: 0,
                visibility: ShaderStage::Fragment,
                ty: BindingType::SampledTexture,
            },
            BindGroupLayoutEntry {
                binding: 1,
                visibility: ShaderStage::Fragment,
                ty: BindingType::Sampler,
            },
        ],
    }
}

/// A built slot matches its descriptor and carries the given layout handle.
pub open spec fn spec_slot_matches(u: Uniform, s: SlotDescriptor, id: int) -> bool {
    &&& u.name@ == s.name@
    &&& u.kind == s.kind
    &&& u.bind_group_layout == BindGroupLayoutId(id as u64)
}

/// The recorded creation of one slot's binding layout.
pub open spec fn is_slot_layout_action(
    a: GpuAction,
    name: Seq<char>,
    kind: SlotKind,
    id: int,
) -> bool {
    &&& a matches GpuAction::CreateBindGroupLayout { id: lid, desc }
    &&& lid == BindGroupLayoutId(id as u64)
    &&& desc.label matches Some(l) && l@ == name
    &&& desc.entries@ == spec_slot_layout_entries(kind)
}

/// The recorded creation of a shader module from SPIR-V bytes.
pub open spec fn is_shader_module_action(a: GpuAction, spirv: Seq<u8>, id: int) -> bool {
    &&& a matches GpuAction::CreateShaderModule { id: mid, spirv: bytes }
    &&& mid == ShaderModuleId(id as u64)
    &&& bytes@ == spirv
}

/// The recorded compilation of the material's render pipeline: the slots'
/// binding layouts in declaration order, the two stages, the swap chain's
/// color format, and the fixed state — counterclockwise front faces with
/// back-face culling, blending replaced, triangle lists of 16-bit indices
/// over the library's vertex layout, and a depth test writing at
/// less-or-equal against a 32-bit float depth buffer.
pub open spec fn is_pipeline_action(
    a: GpuAction,
    layouts: Seq<BindGroupLayoutId>,
    vertex_module: int,
    fragment_module: int,
    color_format: TextureFormat,
    id: int,
) -> bool {
    &&& a matches GpuAction::CreateRenderPipeline { id: pid, desc }
    &&& pid == RenderPipelineId(id as u64)
    &&& desc.label matches Some(l) && l@ == "Default RISE Render Pipeline"@
    &&& desc.bind_group_layouts@ == layouts
    &&& desc.vertex_module == ShaderModuleId(vertex_module as u64)
    &&& desc.fragment_module == ShaderModuleId(fragment_module as u64)
    &&& desc.front_face == FrontFace::Ccw
    &&& desc.cull_mode == CullMode::Back
    &&& desc.color_format == color_format
    &&& desc.blend == BlendMode::Replace
    &&& desc.topology == PrimitiveTopology::TriangleList
    &&& desc.depth_format == TextureFormat::Depth32Float
    &&& desc.depth_write_enabled
    &&& desc.depth_compare == CompareFunction::LessEqual
    &&& desc.index_format == IndexFormat::Uint16
    &&& desc.vertex_layout.stride == crate::mesh::VERTEX_STRIDE
    &&& desc.vertex_layout.attributes@ == seq![
        crate::gpu::VertexAttribute {
            offset: 0,
            shader_location: 0,
            format: crate::gpu::VertexFormat::Float32x3,
        },
        crate::gpu::VertexAttribute {
            offset: 12,
            shader_location: 1,
            format: crate::gpu::VertexFormat::Float32x3,
        },
        crate::gpu::VertexAttribute {
            offset: 24,
            shader_location: 2,
            format: crate::gpu::VertexFormat::Float32x2,
        },
    ]
    &&& desc.sample_count == 1
}

/// How declaring `slots` extends a builder's slot table and the recorded
/// work: the declared slots are appended in order, each with a fresh
/// binding layout created for it, and nothing else about the context
/// changes.
pub open spec fn slots_added_post(
    pre_uniforms: Seq<Uniform>,
    post_uniforms: Seq<Uniform>,
    slots: Seq<SlotDescriptor>,
    pre_ctx: RenderContext,
    post_ctx: RenderContext,
) -> bool {
    &&& post_uniforms.len() == pre_uniforms.len() + slots.len()
    &&& post_uniforms.subrange(0, pre_uniforms.len() as int) == pre_uniforms
    &&& forall|k: int| 0 <= k < slots.len() ==> spec_slot_matches(
        post_uniforms[pre_uniforms.len() + k],
        slots[k],
        pre_ctx.next_id + k,
    )
    &&& post_ctx.next_id == pre_ctx.next_id + slots.len()
    &&& post_ctx.actions@.len() == pre_ctx.actions@.len() + slots.len()
    &&& post_ctx.actions@.subrange(0, pre_ctx.actions@.len() as int) == pre_ctx.actions@
    &&& forall|k: int| 0 <= k < slots.len() ==> is_slot_layout_action(
        post_ctx.actions@[pre_ctx.actions@.len() + k],
        slots[k].name@,
        slots[k].kind,
        pre_ctx.next_id + k,
    )
    &&& post_ctx.size == pre_ctx.size
    &&& post_ctx.sc_desc == pre_ctx.sc_desc
    &&& post_ctx.swap_chain_generation == pre_ctx.swap_chain_generation
    &&& post_ctx.frame_open == pre_ctx.frame_open
}

/// Accumulates shader stages and binding slots, then compiles the pipeline
/// on `build`.
pub struct MaterialBuilder {
    pub vertex_stage: Option<Vec<u8>>,
    pub fragment_stage: Option<Vec<u8>>,
    pub uniforms: Vec<Uniform>,
}

impl RenderContext {
    /// A material builder with no stages and no slots.
    pub fn create_material(&self) -> (b: MaterialBuilder)
        ensures
            b.vertex_stage is None,
            b.fragment_stage is None,
            b.uniforms@ == Seq::<Uniform>::empty(),
    {
        MaterialBuilder::new()
    }
}

impl MaterialBuilder {
    /// The accumulated slot names are unique.
    pub open spec fn wf(&self) -> bool {
        spec_names_unique(spec_slot_names(self.uniforms@))
    }

    pub fn new() -> (b: MaterialBuilder)
        ensures
            b.vertex_stage is None,
            b.fragment_stage is None,
            b.uniforms@ == Seq::<Uniform>::empty(),
            b.wf(),
    {
        MaterialBuilder { vertex_stage: None, fragment_stage: None, uniforms: Vec::new() }
    }

    /// Set the compiled SPIR-V of the two shader stages.
    pub fn with_stages(self, vertex_spirv: Vec<u8>, fragment_spirv: Vec<u8>) -> (b: MaterialBuilder)
        ensures
            b.vertex_stage matches Some(v) && v@ == vertex_spirv@,
            b.fragment_stage matches Some(f) && f@ == fragment_spirv@,
            b.uniforms == self.uniforms,
            b.wf() == self.wf(),
    {
        MaterialBuilder {
            vertex_stage: Some(vertex_spirv),
            fragment_stage: Some(fragment_spirv),
            uniforms: self.uniforms,
        }
    }

    /// Declare the named slots, in order, building one binding layout per
    /// slot.
    ///
    /// A name already declared, or appearing twice in `slots`, is a
    /// description error: `DuplicateSlot` is reported and neither the
    /// builder's accumulated state nor the context changes.
    pub fn with_slots(
        self,
        slots: &Vec<SlotDescriptor>,
        render_context: &mut RenderContext,
    ) -> (r: Result<MaterialBuilder, RISEError>)
        requires
            self.wf(),
            old(render_context).next_id + slots@.len() <= u64::MAX,
        ensures
            ({
                let combined = spec_slot_names(self.uniforms@)
                    + slots@.map_values(|s: SlotDescriptor| s.name@);
                &&& spec_names_unique(combined) ==> {
                    &&& r matches Ok(b)
                    &&& b.vertex_stage == self.vertex_stage
                    &&& b.fragment_stage == self.fragment_stage
                    &&& b.wf()
                    &&& slots_added_post(
                        self.uniforms@,
                        b.uniforms@,
                        slots@,
                        *old(render_context),
                        *final(render_context),
                    )
                }
                &&& !spec_names_unique(combined) ==> {
                    &&& r == Result::<MaterialBuilder, RISEError>::Err(RISEError(crate::RISEErrorKind::DuplicateSlot))
                    &&& *final(render_context) == *old(render_context)
                }
            }),
    {
        let ghost combined = spec_slot_names(self.uniforms@)
            + slots@.map_values(|s: SlotDescriptor| s.name@);

        // First pass: validate that no name repeats, touching nothing.
        let mut k: usize = 0;
        while k < slots.len()
            invariant
                k <= slots@.len(),
                combined == spec_slot_names(self.uniforms@)
                    + slots@.map_values(|s: SlotDescriptor| s.name@),
                forall|i: int, j: int|
                    0 <= i < j < self.uniforms@.len() + k ==> combined[i] != combined[j],
                spec_names_unique(spec_slot_names(self.uniforms@)),
            decreases slots@.len() - k,
        {
            match find_slot_index(&self.uniforms, &slots[k].name) {
                Some(found) => {
                    proof {
                        assert(combined[found as int] == self.uniforms@[found as int].name@);
                        assert(combined[self.uniforms@.len() + k] == slots@[k as int].name@);
                        assert(!spec_names_unique(combined));
                    }
                    return Err(RISEError(crate::RISEErrorKind::DuplicateSlot));
                },
                None => {},
            }
            let mut m: usize = 0;
            while m < k
                invariant
                    m <= k < slots@.len(),
                    combined == spec_slot_names(self.uniforms@)
                        + slots@.map_values(|s: SlotDescriptor| s.name@),
                    forall|j: int|
                        0 <= j < m ==> slots@[j].name@ != slots@[k as int].name@,
                decreases k - m,
            {
                if slots[m].name == slots[k].name {
                    proof {
                        assert(combined[self.uniforms@.len() + m]
                            == combined[self.uniforms@.len() + k]);
                        assert(!spec_names_unique(combined));
                    }
                    return Err(RISEError(crate::RISEErrorKind::DuplicateSlot));
                }
                m = m + 1;
            }
            proof {
                let n0 = self.uniforms@.len() as int;
                assert forall|i: int, j: int|
                    0 <= i < j < n0 + k + 1 implies combined[i] != combined[j] by {
                    if j == n0 + k {
                        if i < n0 {
                            assert(combined[i] == self.uniforms@[i].name@);
                        } else {
                            assert(combined[i] == slots@[i - n0].name@);
                        }
                        assert(combined[j] == slots@[k as int].name@);
                    }
                }
            }
            k = k + 1;
        }

        // Second pass: build one binding layout per slot, in order.
        let mut b = self;
        let ghost n0 = b.uniforms@.len() as int;
        let ghost id0 = render_context.next_id as int;
        let ghost a0 = render_context.actions@;
        let mut k: usize = 0;
        while k < slots.len()
            invariant
                k <= slots@.len(),
                n0 == self.uniforms@.len(),
                id0 == old(render_context).next_id,
                a0 == old(render_context).actions@,
                combined == spec_slot_names(self.uniforms@)
                    + slots@.map_values(|s: SlotDescriptor| s.name@),
                b.uniforms@.len() == n0 + k,
                n0 + slots@.len() == combined.len(),
                id0 + slots@.len() <= u64::MAX,
                b.uniforms@.subrange(0, n0) == self.uniforms@,
                forall|i: int| 0 <= i < n0 + k ==> b.uniforms@[i].name@ == combined[i],
                forall|i: int, j: int|
                    0 <= i < j < combined.len() ==> combined[i] != combined[j],
                forall|m: int| 0 <= m < k ==> spec_slot_matches(
                    b.uniforms@[n0 + m],
                    slots@[m],
                    id0 + m,
                ),
                render_context.next_id == id0 + k,
                render_context.actions@.len() == a0.len() + k,
                render_context.actions@.subrange(0, a0.len() as int) == a0,
                forall|m: int| 0 <= m < k ==> is_slot_layout_action(
                    render_context.actions@[a0.len() + m],
                    slots@[m].name@,
                    slots@[m].kind,
                    id0 + m,
                ),
                render_context.size == old(render_context).size,
                render_context.sc_desc == old(render_context).sc_desc,
                render_context.swap_chain_generation
                    == old(render_context).swap_chain_generation,
                render_context.frame_open == old(render_context).frame_open,
                b.vertex_stage == self.vertex_stage,
                b.fragment_stage == self.fragment_stage,
            decreases slots@.len() - k,
        {
            let name: &String = &slots[k].name;
            let kind = slots[k].kind;
            let layout_id = BindGroupLayoutId(render_context.fresh_id());
            let mut entries: Vec<BindGroupLayoutEntry> = Vec::new();
            match kind {
                SlotKind::Camera => {
                    entries.push(BindGroupLayoutEntry {
                        binding: 0,
                        visibility: ShaderStage::Vertex,
                        ty: BindingType::UniformBuffer,
                    });
                    proof {
                        assert(entries@ =~= spec_slot_layout_entries(kind));
                    }
                },
                SlotKind::Texture => {
                    entries.push(BindGroupLayoutEntry {
                        binding: 0,
                        visibility: ShaderStage::Fragment,
                        ty: BindingType::SampledTexture,
                    });
                    entries.push(BindGroupLayoutEntry {
                        binding: 1,
                        visibility: ShaderStage::Fragment,
                        ty: BindingType::Sampler,
                    });
                    proof {
                        assert(entries@ =~= spec_slot_layout_entries(kind));
                    }
                },
            }
            render_context.actions.push(GpuAction::CreateBindGroupLayout {
                id: layout_id,
                desc: crate::gpu::BindGroupLayoutDesc { label: Some(name.clone()), entries },
            });
            b.uniforms.push(Uniform { name: name.clone(), kind, bind_group_layout: layout_id });
            proof {
                assert(render_context.actions@.subrange(0, a0.len() as int) =~= a0);
                assert(b.uniforms@.subrange(0, n0) =~= self.uniforms@);
                assert(combined[n0 + k] == slots@[k as int].name@);
                assert(b.uniforms@[n0 + k].name@ == slots@[k as int].name@);
                assert forall|i: int| 0 <= i < n0 + k + 1 implies
                    b.uniforms@[i].name@ == combined[i] by {}
                assert(spec_slot_matches(b.uniforms@[n0 + k], slots@[k as int], id0 + k));
                assert(is_slot_layout_action(
                    render_context.actions@[a0.len() + k],
                    slots@[k as int].name@,
                    slots@[k as int].kind,
                    id0 + k,
                ));
            }
            k = k + 1;
        }
        proof {
            assert(spec_slot_names(b.uniforms@) =~= combined);
        }
        Ok(b)
    }

    /// Take everything a parsed description declares: the two compiled
    /// stages, read from the paths the description names, and the declared
    /// slots in order.
    ///
    /// Duplicate slot names in the description are a description error:
    /// `DuplicateSlot` is reported and nothing changes.
    pub fn from_description(
        self,
        description: &MaterialDescription,
        vertex_spirv: Vec<u8>,
        fragment_spirv: Vec<u8>,
        render_context: &mut RenderContext,
    ) -> (r: Result<MaterialBuilder, RISEError>)
        requires
            self.wf(),
            old(render_context).next_id + description.slots@.len() <= u64::MAX,
        ensures
            ({
                let combined = spec_slot_names(self.uniforms@)
                    + description.slots@.map_values(|s: SlotDescriptor| s.name@);
                &&& spec_names_unique(combined) ==> {
                    &&& r matches Ok(b)
                    &&& b.vertex_stage matches Some(v) && v@ == vertex_spirv@
                    &&& b.fragment_stage matches Some(f) && f@ == fragment_spirv@
                    &&& b.wf()
                    &&& slots_added_post(
                        self.uniforms@,
                        b.uniforms@,
                        description.slots@,
                        *old(render_context),
                        *final(render_context),
                    )
                }
                &&& !spec_names_unique(combined) ==> {
                    &&& r == Result::<MaterialBuilder, RISEError>::Err(RISEError(crate::RISEErrorKind::DuplicateSlot))
                    &&& *final(render_context) == *old(render_context)
                }
            }),
    {
        let staged = self.with_stages(vertex_spirv, fragment_spirv);
        staged.with_slots(&description.slots, render_context)
    }

    /// Compile the full pipeline state and return the immutable material.
    ///
    /// Both shader stages must have been set: building without them is a
    /// programming error ruled out by the precondition, which a stricter
    /// builder would prevent by construction.
    pub fn build(self, render_context: &mut RenderContext) -> (m: Material)
        requires
            self.vertex_stage is Some,
            self.fragment_stage is Some,
            self.wf(),
            old(render_context).next_id + 3 <= u64::MAX,
        ensures
            m.uniforms == self.uniforms,
            m.wf(),
            m.render_pipeline == RenderPipelineId((old(render_context).next_id + 2) as u64),
            final(render_context).next_id == old(render_context).next_id + 3,
            final(render_context).actions@.len() == old(render_context).actions@.len() + 3,
            final(render_context).actions@.subrange(
                0,
                old(render_context).actions@.len() as int,
            ) == old(render_context).actions@,
            is_shader_module_action(
                final(render_context).actions@[old(render_context).actions@.len() as int],
                self.vertex_stage.unwrap()@,
                old(render_context).next_id as int,
            ),
            is_shader_module_action(
                final(render_context).actions@[old(render_context).actions@.len() as int + 1],
                self.fragment_stage.unwrap()@,
                old(render_context).next_id + 1,
            ),
            is_pipeline_action(
                final(render_context).actions@[old(render_context).actions@.len() as int + 2],
                self.uniforms@.map_values(|u: Uniform| u.bind_group_layout),
                old(render_context).next_id as int,
                old(render_context).next_id + 1,
                old(render_context).sc_desc.format,
                old(render_context).next_id + 2,
            ),
            final(render_context).size == old(render_context).size,
            final(render_context).sc_desc == old(render_context).sc_desc,
            final(render_context).swap_chain_generation
                == old(render_context).swap_chain_generation,
            final(render_context).frame_open == old(render_context).frame_open,
    {
        let MaterialBuilder { vertex_stage, fragment_stage, uniforms } = self;
        let vertex_spirv = match vertex_stage {
            Some(v) => v,
            None => unreached(),
        };
        let fragment_spirv = match fragment_stage {
            Some(f) => f,
            None => unreached(),
        };

        let vertex_module = ShaderModuleId(render_context.fresh_id());
        render_context.actions.push(GpuAction::CreateShaderModule {
            id: vertex_module,
            spirv: vertex_spirv,
        });
        let fragment_module = ShaderModuleId(render_context.fresh_id());
        render_context.actions.push(GpuAction::CreateShaderModule {
            id: fragment_module,
            spirv: fragment_spirv,
        });

        let mut layouts: Vec<BindGroupLayoutId> = Vec::new();
        let n = uniforms.len();
        let mut i: usize = 0;
        while i < n
            invariant
                i <= n,
                n == uniforms@.len(),
                layouts@ == uniforms@.subrange(0, i as int).map_values(
                    |u: Uniform| u.bind_group_layout,
                ),
            decreases n - i,
        {
            layouts.push(uniforms[i].get_bind_group_layout());
            proof {
                assert(uniforms@.subrange(0, i + 1 as int).map_values(
                    |u: Uniform| u.bind_group_layout,
                ) =~= uniforms@.subrange(0, i as int).map_values(
                    |u: Uniform| u.bind_group_layout,
                ).push(uniforms@[i as int].bind_group_layout));
            }
            i = i + 1;
        }
        proof {
            assert(uniforms@.subrange(0, n as int) =~= uniforms@);
        }

        let pipeline_id = RenderPipelineId(render_context.fresh_id());
        let desc = crate::gpu::RenderPipelineDesc {
            label: Some("Default RISE Render Pipeline"),
            bind_group_layouts: layouts,
            vertex_module,
            fragment_module,
            front_face: FrontFace::Ccw,
            cull_mode: CullMode::Back,
            color_format: render_context.sc_desc.format,
            blend: BlendMode::Replace,
            topology: PrimitiveTopology::TriangleList,
            depth_format: TextureFormat::Depth32Float,
            depth_write_enabled: true,
            depth_compare: CompareFunction::LessEqual,
            index_format: IndexFormat::Uint16,
            vertex_layout: Vertex::desc(),
            sample_count: 1,
        };
        render_context.actions.push(GpuAction::CreateRenderPipeline { id: pipeline_id, desc });

        proof {
            assert(render_context.actions@.subrange(0, old(render_context).actions@.len() as int)
                =~= old(render_context).actions@);
        }
        Material { render_pipeline: pipeline_id, uniforms }
    }
}

} // verus!
