//! Named shader resource slots and the camera's uniform payload.

use vstd::bytes::spec_u32_to_le_bytes;
use vstd::bytes::u32_to_le_bytes;
use vstd::prelude::*;

use crate::gpu::BindGroupId;
use crate::gpu::BindGroupLayoutId;
use crate::gpu::BufferId;

verus! {

/// The kind of resource a named slot carries: the camera's uniform buffer,
/// or a sampled texture with its sampler.
#[derive(Clone, Copy, PartialEq, Eq, Structural, Debug)]
pub enum SlotKind {
    Camera,
    Texture,
}

/// A 4-by-4 matrix of 32-bit floats in column-major order, each entry
/// carried by its bit pattern.
#[derive(Clone, Copy, PartialEq, Eq, Debug)]
pub struct Mat4Bits {
    pub entries: [u32; 16],
}

/// The little-endian byte image of a sequence of 32-bit words, in order.
pub open spec fn spec_words_bytes(ws: Seq<u32>) -> Seq<u8>
    decreases ws.len(),
{
    if ws.len() == 0 {
        Seq::<u8>::empty()
    } else {
        spec_words_bytes(ws.drop_last()) + spec_u32_to_le_bytes(ws.last())
    }
}

/// The 64-byte image of a matrix: its sixteen entries in column-major
/// order, each little endian.
pub open spec fn spec_mat4_bytes(m: Mat4Bits) -> Seq<u8> {
    spec_words_bytes(m.entries@)
}

/// Append the byte image of `words` to `out`.
fn write_words(words: &[u32; 16], out: &mut Vec<u8>)
    ensures
        final(out)@ == old(out)@ + spec_words_bytes(words@),
{
    let mut i: usize = 0;
    while i < 16
        invariant
            i <= 16,
            out@ == old(out)@ + spec_words_bytes(words@.subrange(0, i as int)),
        decreases 16 - i,
    {
        let mut piece = u32_to_le_bytes(words[i]);
        out.append(&mut piece);
        proof {
            let pre = words@.subrange(0, i as int);
            let post = words@.subrange(0, i + 1 as int);
            assert(post.drop_last() =~= pre);
            assert(post.last() == words@[i as int]);
            assert(out@ =~= old(out)@ + spec_words_bytes(post));
        }
        i = i + 1;
    }
    proof {
        assert(words@.subrange(0, 16) =~= words@);
    }
}

/// The camera's uniform payload: a view matrix followed by a projection
/// matrix, directly copyable to a GPU buffer with no padding.
///
/// The projection matrix is expected in the GPU convention: the depth-range
/// correction (mapping a depth range of -1..1 to 0..1) is a float-space
/// multiplication and is applied where the matrices are computed, before
/// their bit patterns reach this type.
#[derive(Clone, Copy, PartialEq, Eq, Debug)]
pub struct CameraUniform {
    pub view_mat: Mat4Bits,
    pub proj_mat: Mat4Bits,
}

/// The 128-byte image of the payload: view matrix bytes, then projection
/// matrix bytes.
pub open spec fn spec_camera_uniform_bytes(c: CameraUniform) -> Seq<u8> {
    spec_mat4_bytes(c.view_mat) + spec_mat4_bytes(c.proj_mat)
}

/// Byte size of the camera's uniform payload: two 4-by-4 float matrices.
pub const CAMERA_UNIFORM_SIZE: u64 = 128;

impl CameraUniform {
    pub fn new(view_mat: Mat4Bits, proj_mat: Mat4Bits) -> (c: CameraUniform)
        ensures
            c == (CameraUniform { view_mat, proj_mat }),
    {
        CameraUniform { view_mat, proj_mat }
    }

    /// The exact bytes written into the camera's uniform buffer.
    pub fn payload_bytes(&self) -> (bytes: Vec<u8>)
        ensures
            bytes@ == spec_camera_uniform_bytes(*self),
            bytes@.len() == CAMERA_UNIFORM_SIZE,
    {
        let mut bytes: Vec<u8> = Vec::new();
        write_words(&self.view_mat.entries, &mut bytes);
        write_words(&self.proj_mat.entries, &mut bytes);
        proof {
            lemma_words_bytes_len(self.view_mat.entries@);
            lemma_words_bytes_len(self.proj_mat.entries@);
        }
        bytes
    }
}

/// The byte image of `n` words is `4 * n` bytes long.
pub proof fn lemma_words_bytes_len(ws: Seq<u32>)
    ensures
        spec_words_bytes(ws).len() == 4 * ws.len(),
    decreases ws.len(),
{
    vstd::bytes::lemma_auto_spec_u32_to_from_le_bytes();
    if ws.len() > 0 {
        lemma_words_bytes_len(ws.drop_last());
    }
}

/// The byte image determines the words: equal images come from equal
/// word sequences.
proof fn lemma_words_bytes_injective(w1: Seq<u32>, w2: Seq<u32>)
    requires
        spec_words_bytes(w1) == spec_words_bytes(w2),
    ensures
        w1 == w2,
    decreases w1.len(),
{
    vstd::bytes::lemma_auto_spec_u32_to_from_le_bytes();
    lemma_words_bytes_len(w1);
    lemma_words_bytes_len(w2);
    if w1.len() == 0 {
        assert(w1 =~= w2);
    } else {
        let n = w1.len() as int;
        let b1 = spec_words_bytes(w1);
        let b2 = spec_words_bytes(w2);
        lemma_words_bytes_len(w1.drop_last());
        lemma_words_bytes_len(w2.drop_last());
        assert(spec_words_bytes(w1.drop_last()) =~= b1.subrange(0, 4 * n - 4));
        assert(spec_words_bytes(w2.drop_last()) =~= b2.subrange(0, 4 * n - 4));
        lemma_words_bytes_injective(w1.drop_last(), w2.drop_last());
        assert(spec_u32_to_le_bytes(w1.last()) =~= b1.subrange(4 * n - 4, 4 * n));
        assert(spec_u32_to_le_bytes(w2.last()) =~= b2.subrange(4 * n - 4, 4 * n));
        assert(vstd::bytes::spec_u32_from_le_bytes(spec_u32_to_le_bytes(w1.last()))
            == vstd::bytes::spec_u32_from_le_bytes(spec_u32_to_le_bytes(w2.last())));
        assert(w1.last() == w2.last());
        assert forall|i: int| 0 <= i < w1.len() implies w1[i] == w2[i] by {
            if i < w1.len() - 1 {
                assert(w1.drop_last()[i] == w2.drop_last()[i]);
            }
        }
        assert(w1 =~= w2);
    }
}

/// Law: the camera's payload is unambiguous.  Two payloads with one byte
/// image carry the same matrix words, so the contents read back from the
/// bound buffer right after an update determine exactly the view matrix
/// and the corrected projection matrix that were written.
pub proof fn lemma_camera_uniform_bytes_injective(c1: CameraUniform, c2: CameraUniform)
    requires
        spec_camera_uniform_bytes(c1) == spec_camera_uniform_bytes(c2),
    ensures
        c1.view_mat.entries@ == c2.view_mat.entries@,
        c1.proj_mat.entries@ == c2.proj_mat.entries@,
{
    let b1 = spec_camera_uniform_bytes(c1);
    lemma_words_bytes_len(c1.view_mat.entries@);
    lemma_words_bytes_len(c1.proj_mat.entries@);
    lemma_words_bytes_len(c2.view_mat.entries@);
    lemma_words_bytes_len(c2.proj_mat.entries@);
    assert(spec_mat4_bytes(c1.view_mat) =~= b1.subrange(0, 64));
    assert(spec_mat4_bytes(c2.view_mat) =~= b1.subrange(0, 64));
    assert(spec_mat4_bytes(c1.proj_mat) =~= b1.subrange(64, 128));
    assert(spec_mat4_bytes(c2.proj_mat) =~= b1.subrange(64, 128));
    lemma_words_bytes_injective(c1.view_mat.entries@, c2.view_mat.entries@);
    lemma_words_bytes_injective(c1.proj_mat.entries@, c2.proj_mat.entries@);
}

/// A declared slot: its name and kind, and the binding-layout object built
/// for it when the material was compiled.
pub struct Uniform {
    pub name: String,
    pub kind: SlotKind,
    pub bind_group_layout: BindGroupLayoutId,
}

impl Uniform {
    pub fn new(name: &str, kind: SlotKind, bind_group_layout: BindGroupLayoutId) -> (u: Uniform)
        ensures
            u.name@ == name@,
            u.kind == kind,
            u.bind_group_layout == bind_group_layout,
    {
        Uniform { name: name.to_owned(), kind, bind_group_layout }
    }

    pub fn get_bind_group_layout(&self) -> (r: BindGroupLayoutId)
        ensures
            r == self.bind_group_layout,
    {
        self.bind_group_layout
    }

    pub fn get_name(&self) -> (r: &str)
        ensures
            r@ == self.name@,
    {
        self.name.as_str()
    }
}

/// A concrete binding for one slot: the resource-binding set, plus the
/// owned uniform buffer for slots written directly (absent for texture
/// slots, whose resources own their own memory).
#[derive(Clone, Copy, PartialEq, Eq, Structural, Debug)]
pub struct UniformBinding {
    pub bind_group: BindGroupId,
    pub buffer: Option<BufferId>,
}

impl UniformBinding {
    pub fn new(bind_group: BindGroupId, buffer: Option<BufferId>) -> (b: UniformBinding)
        ensures
            b.bind_group == bind_group,
            b.buffer == buffer,
    {
        UniformBinding { bind_group, buffer }
    }

    pub fn get_bind_group(&self) -> (r: BindGroupId)
        ensures
            r == self.bind_group,
    {
        self.bind_group
    }

    pub fn get_buffer(&self) -> (r: Option<BufferId>)
        ensures
            r == self.buffer,
    {
        self.buffer
    }
}

} // verus!
