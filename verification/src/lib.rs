//! rise: a small real-time rendering layer.
//!
//! The library models the GPU resource subsystem of the engine: the render
//! context with its swap chain, materials with their named binding slots,
//! per-instance resource bindings, meshes, textures, the camera's uniform
//! payload, and the per-frame command-recording protocol.  Every GPU object
//! is represented by a handle, and every effect on the device is recorded as
//! a plain description (`gpu::GpuAction`, `gpu::RenderCommand`) that an
//! unverified backend executes one for one.

use vstd::prelude::*;

pub mod camera;
pub mod description;
pub mod gpu;
pub mod json;
pub mod material;
pub mod material_instance;
pub mod mesh;
pub mod render;
pub mod texture;
pub mod uniform;

verus! {

/// What went wrong: a recoverable wiring mistake reported to the caller
/// rather than a crash.
#[derive(Clone, Copy, PartialEq, Eq, Structural, Debug)]
pub enum RISEErrorKind {
    /// A binding slot name that the base material does not declare.
    UnknownBinding,
    /// A mesh whose GPU buffers were already created.
    AlreadyCreated,
    /// A mesh whose GPU buffers were never created.
    NotCreated,
    /// Decoded image bytes whose length does not match the stated
    /// dimensions, or a row too wide for the device's row pitch.
    ImageSizeMismatch,
    /// Two declared binding slots sharing one name.
    DuplicateSlot,
    /// Geometry whose texture-coordinate channel does not cover every
    /// vertex.
    MissingTexCoords,
}

/// A recoverable engine error, carrying what went wrong.
#[derive(Clone, Copy, PartialEq, Eq, Structural, Debug)]
pub struct RISEError(pub RISEErrorKind);

impl RISEError {
    /// A short diagnostic text for the error.
    pub fn message(&self) -> (r: &'static str)
        ensures
            r@ == self.spec_message(),
    {
        match self.0 {
            RISEErrorKind::UnknownBinding => "unknown binding slot name",
            RISEErrorKind::AlreadyCreated => "mesh buffers were already created",
            RISEErrorKind::NotCreated => "mesh buffers were never created",
            RISEErrorKind::ImageSizeMismatch => "image bytes do not match the stated dimensions",
            RISEErrorKind::DuplicateSlot => "two binding slots share one name",
            RISEErrorKind::MissingTexCoords => "geometry lacks texture coordinates for some vertices",
        }
    }

    pub open spec fn spec_message(&self) -> Seq<char> {
        match self.0 {
            RISEErrorKind::UnknownBinding => "unknown binding slot name"@,
            RISEErrorKind::AlreadyCreated => "mesh buffers were already created"@,
            RISEErrorKind::NotCreated => "mesh buffers were never created"@,
            RISEErrorKind::ImageSizeMismatch => "image bytes do not match the stated dimensions"@,
            RISEErrorKind::DuplicateSlot => "two binding slots share one name"@,
            RISEErrorKind::MissingTexCoords => "geometry lacks texture coordinates for some vertices"@,
        }
    }
}

} // verus!
