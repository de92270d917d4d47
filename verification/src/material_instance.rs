//! Per-instance resource bindings over a shared material.
//!
//! A material instance references the base material's compiled pipeline by
//! handle — compiling happened exactly once, at `build` — together with its
//! own copy of the immutable slot table and a sparse, index-keyed set of
//! concrete bindings.  Rebinding a slot is the only mutation.

use vstd::prelude::*;

use crate::gpu::BindGroupEntry;
use crate::gpu::BindGroupId;
use crate::gpu::BindGroupLayoutId;
use crate::gpu::BindingResource;
use crate::gpu::GpuAction;
use crate::gpu::SamplerId;
use crate::gpu::TextureViewId;
use crate::material::spec_slot_index;
use crate::material::Material;
use crate::render::RenderContext;
use crate::texture::Texture;
use crate::uniform::Uniform;
use crate::uniform::UniformBinding;
use crate::RISEError;

verus! {

impl Clone for Uniform {
    fn clone(&self) -> (r: Uniform)
        ensures
            r == *self,
    {
        Uniform {
            name: self.name.clone(),
            kind: self.kind,
            bind_group_layout: self.bind_group_layout,
        }
    }
}

impl Clone for Material {
    /// Copy the slot table; the compiled pipeline is shared by handle and
    /// is not compiled again.
    fn clone(&self) -> (r: Material)
        ensures
            r.render_pipeline == self.render_pipeline,
            r.uniforms@ == self.uniforms@,
    {
        let mut uniforms: Vec<Uniform> = Vec::new();
        let n = self.uniforms.len();
        let mut i: usize = 0;
        while i < n
            invariant
                i <= n,
                n == self.uniforms@.len(),
                uniforms@ == self.uniforms@.subrange(0, i as int),
            decreases n - i,
        {
            uniforms.push(self.uniforms[i].clone());
            proof {
                assert(uniforms@ =~= self.uniforms@.subrange(0, i + 1 as int));
            }
            i = i + 1;
        }
        proof {
            assert(uniforms@ =~= self.uniforms@);
        }
        Material { render_pipeline: self.render_pipeline, uniforms }
    }
}

/// A material plus this instance's concrete resource bindings, keyed by
/// slot index.
pub struct MaterialInstance {
    pub base_material: Material,
    /// One entry per declared slot of the base material; `None` where this
    /// instance has not populated the slot.
    pub uniform_values: Vec<Option<UniformBinding>>,
}

/// The recorded creation of the resource-binding set `use_texture` builds:
/// the texture's view at binding point 0 and its sampler at point 1, on
/// the slot's declared layout.
pub open spec fn is_texture_bind_group_action(
    a: GpuAction,
    layout: BindGroupLayoutId,
    view: TextureViewId,
    sampler: SamplerId,
    id: int,
) -> bool {
    &&& a matches GpuAction::CreateBindGroup { id: bid, layout: l, entries, label }
    &&& bid == BindGroupId(id as u64)
    &&& l == layout
    &&& entries@ == seq![
        BindGroupEntry { binding: 0, resource: BindingResource::TextureView(view) },
        BindGroupEntry { binding: 1, resource: BindingResource::Sampler(sampler) },
    ]
    &&& label matches Some(t) && t@ == "texture_bind_group"@
}

impl MaterialInstance {
    /// The base material is well formed and the binding table has exactly
    /// one entry per declared slot.
    pub open spec fn wf(&self) -> bool {
        &&& self.base_material.wf()
        &&& self.uniform_values@.len() == self.base_material.uniforms@.len()
    }

    pub fn get_base_material(&self) -> (r: &Material)
        ensures
            r == &self.base_material,
    {
        &self.base_material
    }

    pub fn get_uniforms(&self) -> (r: &Vec<Option<UniformBinding>>)
        ensures
            r == &self.uniform_values,
    {
        &self.uniform_values
    }

    /// Bind `texture` to the slot named `name`.
    ///
    /// A name the base material does not declare is a recoverable wiring
    /// mistake: `UnknownBinding` is reported, no GPU resource is allocated,
    /// and the instance's bindings are untouched.  On a declared name the
    /// call always succeeds: it allocates a resource-binding set wiring the
    /// texture's view and sampler to the slot's binding points and stores
    /// it at the slot's index, overwriting any prior binding there.
    pub fn use_texture(
        &mut self,
        name: &str,
        texture: &Texture,
        render_context: &mut RenderContext,
    ) -> (r: Result<(), RISEError>)
        requires
            old(self).wf(),
            old(render_context).next_id < u64::MAX,
        ensures
            !old(self).base_material.spec_has_slot(name@) ==> {
                &&& r == Result::<(), RISEError>::Err(RISEError(crate::RISEErrorKind::UnknownBinding))
                &&& *final(self) == *old(self)
                &&& *final(render_context) == *old(render_context)
            },
            old(self).base_material.spec_has_slot(name@) ==> {
                let i = spec_slot_index(old(self).base_material.uniforms@, name@);
                &&& r == Result::<(), RISEError>::Ok(())
                &&& final(self).base_material == old(self).base_material
                &&& final(self).uniform_values@ == old(self).uniform_values@.update(
                    i,
                    Some(UniformBinding {
                        bind_group: BindGroupId(old(render_context).next_id),
                        buffer: None,
                    }),
                )
                &&& final(self).wf()
                &&& final(render_context).next_id == old(render_context).next_id + 1
                &&& final(render_context).actions@.len()
                    == old(render_context).actions@.len() + 1
                &&& final(render_context).actions@.subrange(
                    0,
                    old(render_context).actions@.len() as int,
                ) == old(render_context).actions@
                &&& is_texture_bind_group_action(
                    final(render_context).actions@.last(),
                    old(self).base_material.uniforms@[i].bind_group_layout,
                    texture.view,
                    texture.sampler,
                    old(render_context).next_id as int,
                )
                &&& final(render_context).size == old(render_context).size
                &&& final(render_context).sc_desc == old(render_context).sc_desc
                &&& final(render_context).swap_chain_generation
                    == old(render_context).swap_chain_generation
                &&& final(render_context).frame_open == old(render_context).frame_open
            },
    {
        let found = self.base_material.get_binding_by_name(name);
        let binding_index = match found {
            Some(i) => i,
            None => {
                return Err(RISEError(crate::RISEErrorKind::UnknownBinding));
            },
        };
        proof {
            let us = self.base_material.uniforms@;
            let names = crate::material::spec_slot_names(us);
            let i = spec_slot_index(us, name@);
            assert(0 <= i < us.len() && us[i].name@ == name@);
            if i != binding_index as int {
                let lo = if i < binding_index as int { i } else { binding_index as int };
                let hi = if i < binding_index as int { binding_index as int } else { i };
                assert(names[lo] == name@ && names[hi] == name@);
                assert(names[lo] != names[hi]);  // slot names are unique
            }
        }
        let bind_group_layout = self.base_material.uniforms[binding_index].get_bind_group_layout();

        let mut entries: Vec<BindGroupEntry> = Vec::new();
        entries.push(BindGroupEntry {
            binding: 0,
            resource: BindingResource::TextureView(texture.get_view()),
        });
        entries.push(BindGroupEntry {
            binding: 1,
            resource: BindingResource::Sampler(texture.get_sampler()),
        });
        proof {
            assert(entries@ =~= seq![
                BindGroupEntry {
                    binding: 0,
                    resource: BindingResource::TextureView(texture.view),
                },
                BindGroupEntry { binding: 1, resource: BindingResource::Sampler(texture.sampler) },
            ]);
        }
        let bind_group = BindGroupId(render_context.fresh_id());
        render_context.actions.push(GpuAction::CreateBindGroup {
            id: bind_group,
            layout: bind_group_layout,
            entries,
            label: Some("texture_bind_group"),
        });

        let slot = &mut self.uniform_values[binding_index];
        *slot = Some(UniformBinding::new(bind_group, None));
        proof {
            assert(render_context.actions@.subrange(
                0,
                old(render_context).actions@.len() as int,
            ) =~= old(render_context).actions@);
        }
        Ok(())
    }
}

/// Derives a fresh, unpopulated instance from a shared material.
pub trait MaterialInstanceBuilder {
    fn create_instance(&self) -> MaterialInstance;
}

impl Material {
    /// An instance of this material with no populated bindings.
    pub fn create_instance(&self) -> (r: MaterialInstance)
        ensures
            r.base_material.render_pipeline == self.render_pipeline,
            r.base_material.uniforms@ == self.uniforms@,
            r.uniform_values@.len() == self.uniforms@.len(),
            forall|k: int| 0 <= k < r.uniform_values@.len() ==> r.uniform_values@[k] is None,
            self.wf() ==> r.wf(),
    {
        let base_material = self.clone();
        let mut uniform_values: Vec<Option<UniformBinding>> = Vec::new();
        let n = base_material.uniforms.len();
        let mut i: usize = 0;
        while i < n
            invariant
                i <= n,
                uniform_values@.len() == i,
                forall|k: int| 0 <= k < i ==> uniform_values@[k] is None,
            decreases n - i,
        {
            uniform_values.push(None);
            i = i + 1;
        }
        MaterialInstance { base_material, uniform_values }
    }
}

impl MaterialInstanceBuilder for Material {
    fn create_instance(&self) -> MaterialInstance {
        Material::create_instance(self)
    }
}

} // verus!
