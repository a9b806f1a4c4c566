//! The uniform block that every frame rewrites.

use vstd::prelude::*;

verus! {

/// Number of 32-bit words in a uniform block: three matrices of sixteen
/// components each.
pub const UNIFORM_BLOCK_WORDS: usize = 48;

/// Where the vertical scale stands in a projection matrix: second column,
/// second row.
pub const Y_SCALE: usize = 5;

/// The bit of a component that holds its sign.
pub const SIGN_BIT: u32 = 0x8000_0000;

/// The bit pattern of a component with the opposite sign.
pub open spec fn spec_negated(bits: u32) -> u32 {
    bits ^ SIGN_BIT
}

/// The bit pattern of a component with the opposite sign and the same
/// magnitude.
#[verifier::when_used_as_spec(spec_negated)]
pub fn negated(bits: u32) -> (r: u32)
    ensures
        r == spec_negated(bits),
{
    bits ^ SIGN_BIT
}

/// A projection with the vertical axis flipped: the sign of its vertical
/// scale is the opposite, and every other component is the same.
pub open spec fn spec_flipped_y(projection: [u32; 16]) -> Seq<u32> {
    projection@.update(Y_SCALE as int, spec_negated(projection@[Y_SCALE as int]))
}

/// Flips the vertical axis of a projection, for a clip space whose vertical
/// axis points down.
pub fn flipped_y(projection: &[u32; 16]) -> (flipped: [u32; 16])
    ensures
        flipped@ == spec_flipped_y(*projection),
{
    let mut flipped: [u32; 16] = *projection;
    flipped[Y_SCALE] = negated(projection[Y_SCALE]);
    assert(flipped@ =~= spec_flipped_y(*projection));
    flipped
}

/// The vertical scale of a flipped projection has the opposite sign of the
/// vertical scale of the projection it was made from, and the same
/// magnitude; flipping twice gives the projection back.
pub proof fn lemma_flip_inverts_vertical_scale(projection: [u32; 16])
    ensures
        spec_flipped_y(projection)[Y_SCALE as int] & SIGN_BIT != projection@[Y_SCALE as int]
            & SIGN_BIT,
        spec_flipped_y(projection)[Y_SCALE as int] & !SIGN_BIT == projection@[Y_SCALE as int]
            & !SIGN_BIT,
        spec_negated(spec_flipped_y(projection)[Y_SCALE as int]) == projection@[Y_SCALE as int],
        forall|i: int|
            0 <= i < 16 && i != Y_SCALE ==> spec_flipped_y(projection)[i] == projection@[i],
{
    let bits = projection@[Y_SCALE as int];
    assert((bits ^ 0x8000_0000u32) & 0x8000_0000u32 != bits & 0x8000_0000u32) by (bit_vector);
    assert((bits ^ 0x8000_0000u32) & !0x8000_0000u32 == bits & !0x8000_0000u32) by (bit_vector);
    assert((bits ^ 0x8000_0000u32) ^ 0x8000_0000u32 == bits) by (bit_vector);
}

/// Model, view and projection matrix of a frame.
///
/// Each matrix is kept as the bit patterns of its sixteen components, column
/// after column: the renderer moves them to the uniform buffer and never
/// computes with them.
#[derive(Clone, Copy, Debug, PartialEq, Eq)]
pub struct UniformBufferObject {
    pub model: [u32; 16],
    pub view: [u32; 16],
    pub proj: [u32; 16],
}

impl UniformBufferObject {
    /// The block of a frame: model and view as they are, and the projection
    /// with its vertical axis flipped.
    pub fn for_frame(model: [u32; 16], view: [u32; 16], projection: &[u32; 16]) -> (block:
        UniformBufferObject)
        ensures
            block.model == model,
            block.view == view,
            block.proj@ == spec_flipped_y(*projection),
    {
        UniformBufferObject { model, view, proj: flipped_y(projection) }
    }

    /// The words of the block as the shaders read them: the model matrix,
    /// then the view matrix, then the projection matrix.
    pub open spec fn spec_words(&self) -> Seq<u32> {
        self.model@ + self.view@ + self.proj@
    }

    /// The words of the block as the shaders read them: the model matrix,
    /// then the view matrix, then the projection matrix.
    pub fn words(&self) -> (words: [u32; UNIFORM_BLOCK_WORDS])
        ensures
            words@ == self.spec_words(),
    {
        let mut words: [u32; UNIFORM_BLOCK_WORDS] = [0;UNIFORM_BLOCK_WORDS];
        let mut i: usize = 0;
        while i < 16
            invariant
                i <= 16,
                forall|k: int| 0 <= k < i ==> words@[k] == self.model@[k],
                forall|k: int| 0 <= k < i ==> words@[16 + k] == self.view@[k],
                forall|k: int| 0 <= k < i ==> words@[32 + k] == self.proj@[k],
            decreases 16 - i,
        {
            words[i] = self.model[i];
            words[16 + i] = self.view[i];
            words[32 + i] = self.proj[i];
            i += 1;
        }
        assert(words@ =~= self.spec_words());
        words
    }
}

} // verus!
