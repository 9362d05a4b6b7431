//! Camera state and its GPU uniform block.
//!
//! The camera owns the uniform parameter block that the ray-generation
//! kernel decodes positionally: the camera origin followed by one padding
//! word, 16 bytes in all, little-endian. The block's byte layout is part of
//! the device interface, so it is specified here exactly and the encoder is
//! proved against that specification.

use vstd::prelude::*;

use crate::algebra::Vec3;

verus! {

/// Little-endian byte encoding of one 32-bit word.
pub open spec fn le_bytes32(v: u32) -> Seq<u8> {
    seq![
        (v % 256) as u8,
        ((v / 256) % 256) as u8,
        ((v / 65536) % 256) as u8,
        ((v / 16777216) % 256) as u8,
    ]
}

/// The 16-byte uniform block as the kernel decodes it: the three origin
/// components in order, then a zero padding word, each little-endian.
pub open spec fn uniform_bytes(origin: Vec3) -> Seq<u8> {
    le_bytes32(origin.x) + le_bytes32(origin.y) + le_bytes32(origin.z) + le_bytes32(0)
}

/// The value that four little-endian bytes encode.
pub open spec fn le_word32(b: Seq<u8>) -> int {
    b[0] + 256 * b[1] + 65536 * b[2] + 16777216 * b[3]
}

/// The little-endian encoding loses nothing: its four bytes decode back
/// to the word that was encoded.
pub proof fn lemma_le_bytes32_decode(v: u32)
    ensures
        le_word32(le_bytes32(v)) == v,
{
    assert(v % 256 + 256 * ((v / 256) % 256) + 65536 * ((v / 65536) % 256) + 16777216 * ((v
        / 16777216) % 256) == v) by (bit_vector);
}

/// The kernel can decode the uniform block positionally: each origin
/// component is recovered exactly from its four bytes of the block.
pub proof fn lemma_uniform_block_decodes(origin: Vec3)
    ensures
        le_word32(uniform_bytes(origin).subrange(0, 4)) == origin.x,
        le_word32(uniform_bytes(origin).subrange(4, 8)) == origin.y,
        le_word32(uniform_bytes(origin).subrange(8, 12)) == origin.z,
{
    lemma_le_bytes32_decode(origin.x);
    lemma_le_bytes32_decode(origin.y);
    lemma_le_bytes32_decode(origin.z);
    assert(uniform_bytes(origin).subrange(0, 4) =~= le_bytes32(origin.x));
    assert(uniform_bytes(origin).subrange(4, 8) =~= le_bytes32(origin.y));
    assert(uniform_bytes(origin).subrange(8, 12) =~= le_bytes32(origin.z));
}

/// Encodes one 32-bit word as its four little-endian bytes.
fn le_bytes_u32(v: u32) -> (r: Vec<u8>)
    ensures
        r@ == le_bytes32(v),
{
    let mut r: Vec<u8> = Vec::new();
    r.push((v % 256) as u8);
    r.push(((v / 256) % 256) as u8);
    r.push(((v / 65536) % 256) as u8);
    r.push(((v / 16777216) % 256) as u8);
    proof {
        assert(r@ =~= le_bytes32(v));
    }
    r
}

/// The GPU-visible camera parameter block: the ray origin plus one padding
/// word that keeps the block at the 16-byte size the device expects.
#[derive(Clone, Copy, Debug, PartialEq, Eq, Structural)]
pub struct CameraUniforms {
    origin: Vec3,
    pad: u32,
}

impl CameraUniforms {
    /// The ray origin carried by the block, as a mathematical value.
    pub closed spec fn spec_origin(&self) -> Vec3 {
        self.origin
    }

    /// The padding word carries no information and is held at zero.
    pub closed spec fn wf(&self) -> bool {
        self.pad == 0
    }

    /// Serializes the block for upload, exactly as the kernel decodes it.
    pub fn to_bytes(&self) -> (r: Vec<u8>)
        requires
            self.wf(),
        ensures
            r@ == uniform_bytes(self.spec_origin()),
            r@.len() == 16,
    {
        let mut r = le_bytes_u32(self.origin.x);
        let mut t = le_bytes_u32(self.origin.y);
        r.append(&mut t);
        let mut t = le_bytes_u32(self.origin.z);
        r.append(&mut t);
        let mut t = le_bytes_u32(self.pad);
        r.append(&mut t);
        r
    }
}

/// Camera state; the sole producer of `CameraUniforms`.
pub struct Camera {
    uniforms: CameraUniforms,
}

impl Camera {
    /// The current uniform block, as a mathematical value.
    pub closed spec fn spec_uniforms(&self) -> CameraUniforms {
        self.uniforms
    }

    /// The camera's current ray origin.
    pub open spec fn spec_origin(&self) -> Vec3 {
        self.spec_uniforms().spec_origin()
    }

    /// The camera always carries a well-formed uniform block.
    pub open spec fn wf(&self) -> bool {
        self.spec_uniforms().wf()
    }

    /// Builds a camera whose ray origin is exactly `origin`.
    pub fn new(origin: Vec3) -> (c: Camera)
        ensures
            c.wf(),
            c.spec_origin() == origin,
    {
        Camera { uniforms: CameraUniforms { origin, pad: 0 } }
    }

    /// Read-only view of the current uniform block; reflects the most
    /// recent construction or origin update with no staleness.
    pub fn uniforms(&self) -> (u: &CameraUniforms)
        ensures
            *u == self.spec_uniforms(),
            u.spec_origin() == self.spec_origin(),
            u.wf() == self.wf(),
    {
        &self.uniforms
    }

    /// Moves the ray origin, leaving every other part of the uniform block
    /// unchanged. Host-side navigation (zooming along the view direction)
    /// reduces to calls of this update.
    pub fn set_origin(&mut self, origin: Vec3)
        ensures
            final(self).spec_origin() == origin,
            final(self).wf() == old(self).wf(),
    {
        self.uniforms.origin = origin;
    }
}

} // verus!
