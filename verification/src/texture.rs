//! Textures and the builder that creates them.
//!
//! Two construction paths exist: synthetic textures (the depth attachment
//! sized to the swap chain) built directly, and decoded raster images
//! uploaded through `load_image`.  Decoding a file into tightly packed
//! 4-channel bytes is the backend's job; the library takes the bytes.

use vstd::prelude::*;

use crate::gpu::AddressMode;
use crate::gpu::CompareFunction;
use crate::gpu::Extent3d;
use crate::gpu::FilterMode;
use crate::gpu::GpuAction;
use crate::gpu::SamplerDescriptor;
use crate::gpu::SamplerId;
use crate::gpu::TextureDescriptor;
use crate::gpu::TextureFormat;
use crate::gpu::TextureId;
use crate::gpu::TextureUsage;
use crate::gpu::TextureViewId;
use crate::render::RenderContext;
use crate::RISEError;

verus! {

/// Bit pattern of the 32-bit float -100.0, the default sampler's lowest
/// level-of-detail clamp.
pub const F32_BITS_NEG_100: u32 = 0xC2C8_0000;

/// Bit pattern of the 32-bit float 100.0, the default sampler's highest
/// level-of-detail clamp.
pub const F32_BITS_100: u32 = 0x42C8_0000;

/// Bit pattern of the 32-bit float 0.0.
pub const F32_BITS_0: u32 = 0;

/// Bit pattern of the largest finite 32-bit float, the image sampler's
/// highest level-of-detail clamp.
pub const F32_BITS_MAX: u32 = 0x7F7F_FFFF;

/// A GPU image, a view onto it, and the sampler used to read it.
#[derive(Clone, Copy, PartialEq, Eq, Structural, Debug)]
pub struct Texture {
    pub texture: TextureId,
    pub view: TextureViewId,
    pub sampler: SamplerId,
}

impl Texture {
    pub fn get_view(&self) -> (r: TextureViewId)
        ensures
            r == self.view,
    {
        self.view
    }

    pub fn get_texture(&self) -> (r: TextureId)
        ensures
            r == self.texture,
    {
        self.texture
    }

    pub fn get_sampler(&self) -> (r: SamplerId)
        ensures
            r == self.sampler,
    {
        self.sampler
    }
}

/// Accumulates a texture and sampler description, then creates the GPU
/// resources on `build`.
pub struct TextureBuilder {
    pub texture_desc: TextureDescriptor,
    pub sampler_desc: SamplerDescriptor,
}

impl RenderContext {
    /// A texture builder with the default descriptions.
    pub fn create_texture(&self) -> (b: TextureBuilder)
        ensures
            b == TextureBuilder::spec_default(),
    {
        TextureBuilder::new()
    }
}

impl TextureBuilder {
    /// The builder's starting point: an unsized depth-format attachment
    /// with a clamping, depth-comparing sampler.
    pub open spec fn spec_default() -> TextureBuilder {
        TextureBuilder {
            texture_desc: TextureDescriptor {
                label: None,
                size: Extent3d { width: 0, height: 0, depth: 1 },
                mip_level_count: 1,
                sample_count: 1,
                format: TextureFormat::Depth32Float,
                usage: TextureUsage {
                    render_attachment: true,
                    sampled: true,
                    copy_src: true,
                    copy_dst: false,
                },
            },
            sampler_desc: SamplerDescriptor {
                address_mode_u: AddressMode::ClampToEdge,
                address_mode_v: AddressMode::ClampToEdge,
                address_mode_w: AddressMode::ClampToEdge,
                mag_filter: FilterMode::Linear,
                min_filter: FilterMode::Nearest,
                mipmap_filter: FilterMode::Nearest,
                lod_min_clamp_bits: F32_BITS_NEG_100,
                lod_max_clamp_bits: F32_BITS_100,
                compare: Some(CompareFunction::LessEqual),
            },
        }
    }

    pub fn new() -> (b: TextureBuilder)
        ensures
            b == Self::spec_default(),
    {
        TextureBuilder {
            texture_desc: TextureDescriptor {
                label: None,
                size: Extent3d { width: 0, height: 0, depth: 1 },
                mip_level_count: 1,
                sample_count: 1,
                format: TextureFormat::Depth32Float,
                usage: TextureUsage {
                    render_attachment: true,
                    sampled: true,
                    copy_src: true,
                    copy_dst: false,
                },
            },
            sampler_desc: SamplerDescriptor {
                address_mode_u: AddressMode::ClampToEdge,
                address_mode_v: AddressMode::ClampToEdge,
                address_mode_w: AddressMode::ClampToEdge,
                mag_filter: FilterMode::Linear,
                min_filter: FilterMode::Nearest,
                mipmap_filter: FilterMode::Nearest,
                lod_min_clamp_bits: F32_BITS_NEG_100,
                lod_max_clamp_bits: F32_BITS_100,
                compare: Some(CompareFunction::LessEqual),
            },
        }
    }

    /// Shape the texture as the depth attachment of the current swap chain:
    /// its exact dimensions, depth format, and the usages the camera needs.
    pub fn make_depth_texture(self, render_context: &RenderContext) -> (b: TextureBuilder)
        ensures
            b.texture_desc == (TextureDescriptor {
                label: Some("Depth Texture"),
                size: Extent3d {
                    width: render_context.sc_desc.width,
                    height: render_context.sc_desc.height,
                    depth: self.texture_desc.size.depth,
                },
                format: TextureFormat::Depth32Float,
                usage: TextureUsage {
                    render_attachment: true,
                    sampled: true,
                    copy_src: false,
                    copy_dst: true,
                },
                ..self.texture_desc
            }),
            b.sampler_desc == self.sampler_desc,
    {
        let width = render_context.sc_desc.width;
        let height = render_context.sc_desc.height;
        self.with_size(width, height)
            .with_format(TextureFormat::Depth32Float)
            .with_usage(TextureUsage {
                render_attachment: true,
                sampled: true,
                copy_src: false,
                copy_dst: true,
            })
            .with_label("Depth Texture")
    }

    pub fn with_size(self, width: u32, height: u32) -> (b: TextureBuilder)
        ensures
            b.texture_desc == (TextureDescriptor {
                size: Extent3d { width, height, depth: self.texture_desc.size.depth },
                ..self.texture_desc
            }),
            b.sampler_desc == self.sampler_desc,
    {
        let mut b = self;
        b.texture_desc.size.width = width;
        b.texture_desc.size.height = height;
        b
    }

    pub fn with_format(self, format: TextureFormat) -> (b: TextureBuilder)
        ensures
            b.texture_desc == (TextureDescriptor { format, ..self.texture_desc }),
            b.sampler_desc == self.sampler_desc,
    {
        let mut b = self;
        b.texture_desc.format = format;
        b
    }

    pub fn with_usage(self, usage: TextureUsage) -> (b: TextureBuilder)
        ensures
            b.texture_desc == (TextureDescriptor { usage, ..self.texture_desc }),
            b.sampler_desc == self.sampler_desc,
    {
        let mut b = self;
        b.texture_desc.usage = usage;
        b
    }

    pub fn with_label(self, label: &'static str) -> (b: TextureBuilder)
        ensures
            b.texture_desc == (TextureDescriptor { label: Some(label), ..self.texture_desc }),
            b.sampler_desc == self.sampler_desc,
    {
        let mut b = self;
        b.texture_desc.label = Some(label);
        b
    }

    /// Create the texture, its view and its sampler as described.
    pub fn build(self, render_context: &mut RenderContext) -> (t: Texture)
        requires
            old(render_context).next_id + 3 <= u64::MAX,
        ensures
            t.texture == TextureId(old(render_context).next_id),
            t.view == TextureViewId((old(render_context).next_id + 1) as u64),
            t.sampler == SamplerId((old(render_context).next_id + 2) as u64),
            final(render_context).next_id == old(render_context).next_id + 3,
            final(render_context).actions@ == old(render_context).actions@
                .push(GpuAction::CreateTexture { id: t.texture, desc: self.texture_desc })
                .push(GpuAction::CreateTextureView { id: t.view, texture: t.texture })
                .push(GpuAction::CreateSampler { id: t.sampler, desc: self.sampler_desc }),
            final(render_context).size == old(render_context).size,
            final(render_context).sc_desc == old(render_context).sc_desc,
            final(render_context).swap_chain_generation
                == old(render_context).swap_chain_generation,
            final(render_context).frame_open == old(render_context).frame_open,
    {
        let texture_id = TextureId(render_context.fresh_id());
        render_context.actions.push(
            GpuAction::CreateTexture { id: texture_id, desc: self.texture_desc },
        );
        let view_id = TextureViewId(render_context.fresh_id());
        render_context.actions.push(
            GpuAction::CreateTextureView { id: view_id, texture: texture_id },
        );
        let sampler_id = SamplerId(render_context.fresh_id());
        render_context.actions.push(
            GpuAction::CreateSampler { id: sampler_id, desc: self.sampler_desc },
        );
        Texture { texture: texture_id, view: view_id, sampler: sampler_id }
    }

    /// Whether `load_image` accepts pixel data of this shape: the bytes are
    /// exactly four per pixel, and a row of texels fits the device's 32-bit
    /// row pitch.
    pub open spec fn spec_image_ok(rgba: Seq<u8>, width: u32, height: u32) -> bool {
        &&& rgba.len() == 4 * (width as int) * (height as int)
        &&& 4 * (width as int) <= u32::MAX
    }

    /// Upload a decoded 4-channel byte-per-channel image of the given
    /// dimensions: create an image texture with a repeating sampler, then
    /// copy the rows in through the queue.
    ///
    /// Pixel data whose length does not match the dimensions is rejected
    /// with `ImageSizeMismatch`, and nothing is created or written.
    pub fn load_image(
        self,
        rgba: Vec<u8>,
        width: u32,
        height: u32,
        render_context: &mut RenderContext,
    ) -> (r: Result<Texture, RISEError>)
        requires
            old(render_context).next_id + 3 <= u64::MAX,
        ensures
            !Self::spec_image_ok(rgba@, width, height) ==> {
                &&& r == Result::<Texture, RISEError>::Err(RISEError(crate::RISEErrorKind::ImageSizeMismatch))
                &&& *final(render_context) == *old(render_context)
            },
            Self::spec_image_ok(rgba@, width, height) ==> {
                &&& r matches Ok(t)
                &&& t.texture == TextureId(old(render_context).next_id)
                &&& t.view == TextureViewId((old(render_context).next_id + 1) as u64)
                &&& t.sampler == SamplerId((old(render_context).next_id + 2) as u64)
                &&& final(render_context).next_id == old(render_context).next_id + 3
                &&& final(render_context).actions@ == old(render_context).actions@
                    .push(GpuAction::CreateTexture {
                        id: t.texture,
                        desc: Self::spec_image_texture_desc(width, height),
                    })
                    .push(GpuAction::CreateTextureView { id: t.view, texture: t.texture })
                    .push(GpuAction::CreateSampler {
                        id: t.sampler,
                        desc: Self::spec_image_sampler_desc(),
                    })
                    .push(GpuAction::WriteTexture {
                        texture: t.texture,
                        data: rgba,
                        bytes_per_row: (4 * width) as u32,
                        size: Extent3d { width, height, depth: 1 },
                    })
                &&& final(render_context).size == old(render_context).size
                &&& final(render_context).sc_desc == old(render_context).sc_desc
                &&& final(render_context).swap_chain_generation
                    == old(render_context).swap_chain_generation
                &&& final(render_context).frame_open == old(render_context).frame_open
            },
    {
        if width > u32::MAX / 4 {
            proof {
                assert(4 * (width as int) > u32::MAX);
            }
            return Err(RISEError(crate::RISEErrorKind::ImageSizeMismatch));
        }
        let row_bytes: u64 = 4 * (width as u64);
        proof {
            assert(row_bytes * (height as u64) <= u64::MAX) by (nonlinear_arith)
                requires
                    row_bytes <= 0xFFFF_FFFCu64,
                    height <= 0xFFFF_FFFFu64,
            ;
        }
        let pixel_bytes: u64 = row_bytes * (height as u64);
        let n = rgba.len();
        if pixel_bytes > usize::MAX as u64 || (n as u64) != pixel_bytes {
            proof {
                assert(rgba@.len() == n);
                assert(pixel_bytes == 4 * (width as int) * (height as int));
            }
            return Err(RISEError(crate::RISEErrorKind::ImageSizeMismatch));
        }

        let mut b = self;
        b.sampler_desc = SamplerDescriptor {
            address_mode_u: AddressMode::Repeat,
            address_mode_v: AddressMode::Repeat,
            address_mode_w: AddressMode::Repeat,
            mag_filter: FilterMode::Linear,
            min_filter: FilterMode::Nearest,
            mipmap_filter: FilterMode::Nearest,
            lod_min_clamp_bits: F32_BITS_0,
            lod_max_clamp_bits: F32_BITS_MAX,
            compare: None,
        };
        b.texture_desc = TextureDescriptor {
            label: Some("Image Texture"),
            size: Extent3d { width, height, depth: 1 },
            mip_level_count: 1,
            sample_count: 1,
            format: TextureFormat::Rgba8Unorm,
            usage: TextureUsage {
                render_attachment: false,
                sampled: true,
                copy_src: false,
                copy_dst: true,
            },
        };
        let texture = b.build(render_context);
        render_context.actions.push(GpuAction::WriteTexture {
            texture: texture.texture,
            data: rgba,
            bytes_per_row: 4 * width,
            size: Extent3d { width, height, depth: 1 },
        });
        Ok(texture)
    }

    /// The texture description `load_image` uses.
    pub open spec fn spec_image_texture_desc(width: u32, height: u32) -> TextureDescriptor {
        TextureDescriptor {
            label: Some("Image Texture"),
            size: Extent3d { width, height, depth: 1 },
            mip_level_count: 1,
            sample_count: 1,
            format: TextureFormat::Rgba8Unorm,
            usage: TextureUsage {
                render_attachment: false,
                sampled: true,
                copy_src: false,
                copy_dst: true,
            },
        }
    }

    /// The repeating, linearly magnifying sampler `load_image` uses.
    pub open spec fn spec_image_sampler_desc() -> SamplerDescriptor {
        SamplerDescriptor {
            address_mode_u: AddressMode::Repeat,
            address_mode_v: AddressMode::Repeat,
            address_mode_w: AddressMode::Repeat,
            mag_filter: FilterMode::Linear,
            min_filter: FilterMode::Nearest,
            mipmap_filter: FilterMode::Nearest,
            lod_min_clamp_bits: F32_BITS_0,
            lod_max_clamp_bits: F32_BITS_MAX,
            compare: None,
        }
    }
}

} // verus!
