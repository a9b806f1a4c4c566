//! Vertex data as it is handed to the GPU.
//!
//! Components are kept as the bit patterns of 32-bit IEEE-754 numbers: the
//! renderer moves them to device memory and never computes with them.

use vstd::prelude::*;

verus! {

/// Number of 32-bit words of one vertex: three for the position, three for
/// the colour, two for the texture coordinate.
pub const VERTEX_WORDS: usize = 8;

/// Three components, as bit patterns.
#[derive(Clone, Copy, Debug, PartialEq, Eq, Hash, Structural)]
pub struct ElmVec3 {
    pub x: u32,
    pub y: u32,
    pub z: u32,
}

/// Two components, as bit patterns.
#[derive(Clone, Copy, Debug, PartialEq, Eq, Hash, Structural)]
pub struct ElmVec2 {
    pub x: u32,
    pub y: u32,
}

/// One vertex: position, colour and texture coordinate, tightly packed.
#[derive(Clone, Copy, Debug, PartialEq, Eq, Hash, Structural)]
pub struct ElmVertex {
    pub position: ElmVec3,
    pub color: ElmVec3,
    pub tex_coord: ElmVec2,
}

impl ElmVertex {
    /// The eight words of the vertex in the order of its attributes.
    pub open spec fn words(self) -> Seq<u32> {
        seq![
            self.position.x,
            self.position.y,
            self.position.z,
            self.color.x,
            self.color.y,
            self.color.z,
            self.tex_coord.x,
            self.tex_coord.y,
        ]
    }
}

/// The words of all vertices, one vertex after the other.
pub open spec fn packed_words(vertices: Seq<ElmVertex>) -> Seq<u32> {
    Seq::new(vertices.len() * 8, |i: int| vertices[i / 8].words()[i % 8])
}

/// Packs vertices into the words of a vertex buffer: eight words for each
/// vertex, in order.
pub fn pack_vertices(vertices: &Vec<ElmVertex>) -> (words: Vec<u32>)
    ensures
        words@ == packed_words(vertices@),
{
    let mut words: Vec<u32> = Vec::new();
    let mut i: usize = 0;
    while i < vertices.len()
        invariant
            i <= vertices.len(),
            words@ == packed_words(vertices@.take(i as int)),
        decreases vertices.len() - i,
    {
        let v = vertices[i];
        let ghost earlier = words@;
        words.push(v.position.x);
        words.push(v.position.y);
        words.push(v.position.z);
        words.push(v.color.x);
        words.push(v.color.y);
        words.push(v.color.z);
        words.push(v.tex_coord.x);
        words.push(v.tex_coord.y);
        i += 1;
        proof {
            let now = packed_words(vertices@.take(i as int));
            assert(words@.len() == now.len());
            assert forall|k: int| 0 <= k < now.len() implies words@[k] == now[k] by {
                if k < earlier.len() {
                    assert(earlier[k] == packed_words(vertices@.take(i - 1))[k]);
                    assert(vertices@.take(i - 1)[k / 8] == vertices@.take(i as int)[k / 8]);
                } else {
                    assert(k / 8 == i - 1);
                    assert(vertices@.take(i as int)[k / 8] == v);
                }
            }
            assert(words@ =~= now);
        }
    }
    assert(vertices@.take(vertices.len() as int) =~= vertices@);
    words
}

} // verus!
