//! Scenes as an asset loader hands them over: nodes, meshes made of indexed
//! primitives, images and the textures that sample them.

use crate::sampler::Sampler;
use crate::vertex::{ElmVec2, ElmVec3, ElmVertex};
use std::collections::HashMap;
use vstd::prelude::*;

verus! {

broadcast use vstd::std_specs::hash::group_hash_axioms;

/// A list of triangles: vertices without duplicates and the indices that
/// assemble them.
#[derive(Debug, PartialEq, Eq)]
pub struct Primitive {
    pub vertices: Vec<ElmVertex>,
    pub indices: Vec<u32>,
}

/// A mesh: the primitives it is drawn with.
#[derive(Debug, PartialEq, Eq)]
pub struct Mesh {
    pub primitives: Vec<Primitive>,
}

/// Layout of the pixels of an image.
#[derive(Clone, Copy, Debug, PartialEq, Eq, Structural)]
pub enum PixelFormat {
    /// Four 8-bit channels: red, green, blue, alpha.
    R8G8B8A8,
}

/// An image, decoded.
#[derive(Debug, PartialEq, Eq)]
pub struct Image {
    pub pixels: Vec<u8>,
    pub width: u32,
    pub height: u32,
    pub format: PixelFormat,
}

/// A texture: an image, by its place among the images of the model, and the
/// way it is sampled.
#[derive(Clone, Copy, Debug, PartialEq, Eq, Structural)]
pub struct Texture {
    pub image: Option<usize>,
    pub sampler: Sampler,
}

/// A material: the textures it uses, by their place among the textures of
/// the model.
#[derive(Debug, PartialEq, Eq)]
pub struct Material {
    pub textures: Vec<u32>,
}

/// A node of the scene graph.
#[derive(Debug, PartialEq, Eq)]
pub struct Node {
    /// The mesh drawn at this node, by its place among the meshes.
    pub mesh_id: Option<usize>,
    /// The children, by their place among the nodes.
    pub children: Vec<usize>,
}

/// A scene: its root nodes, by their place among the nodes.
#[derive(Debug, PartialEq, Eq)]
pub struct Scene {
    pub nodes: Vec<usize>,
}

/// A model: everything a file describes.
#[derive(Debug, PartialEq, Eq)]
pub struct GltfModel {
    pub scenes: Vec<Scene>,
    pub nodes: Vec<Node>,
    pub meshes: Vec<Mesh>,
    pub images: Vec<Image>,
    pub textures: Vec<Texture>,
    pub materials: Vec<Material>,
}

/// Why the data of a primitive cannot be used.
#[derive(Clone, Copy, Debug, PartialEq, Eq, Structural)]
pub enum PrimitiveError {
    /// An index refers to a position that is not there.
    PositionOutOfRange,
    /// An index refers to a texture coordinate that is not there.
    TexCoordOutOfRange,
    /// There are more distinct vertices than 32 bits can number.
    TooManyVertices,
}

/// The bit pattern of the number one: the components of white.
pub const ONE: u32 = 0x3f80_0000;

/// The vertex that an index of the source data stands for: the position at
/// that index, the texture coordinate at that index, or the origin where
/// the data has no texture coordinates, and the colour white.
pub open spec fn source_vertex(
    index: u32,
    positions: Seq<ElmVec3>,
    tex_coords: Option<Seq<ElmVec2>>,
) -> ElmVertex {
    ElmVertex {
        position: positions[index as int],
        color: ElmVec3 { x: ONE, y: ONE, z: ONE },
        tex_coord: match tex_coords {
            Some(tex_coords) => tex_coords[index as int],
            None => ElmVec2 { x: 0, y: 0 },
        },
    }
}

/// The first index that cannot be looked up, if there is one, with the
/// error it gives.
pub open spec fn first_bad_index(
    indices: Seq<u32>,
    positions: Seq<ElmVec3>,
    tex_coords: Option<Seq<ElmVec2>>,
    k: int,
) -> Option<PrimitiveError> {
    if indices[k] >= positions.len() {
        Some(PrimitiveError::PositionOutOfRange)
    } else if tex_coords matches Some(tex_coords) && indices[k] >= tex_coords.len() {
        Some(PrimitiveError::TexCoordOutOfRange)
    } else {
        None
    }
}

/// `vertices` and `remapped` are the source data without duplicates: no
/// vertex occurs twice, each index is remapped to the vertex it stood for,
/// every vertex is used, and vertices are in the order in which the indices
/// first use them.
pub open spec fn is_deduplicated(
    vertices: Seq<ElmVertex>,
    remapped: Seq<u32>,
    indices: Seq<u32>,
    positions: Seq<ElmVec3>,
    tex_coords: Option<Seq<ElmVec2>>,
) -> bool {
    &&& remapped.len() == indices.len()
    &&& forall|i: int, j: int| 0 <= i < j < vertices.len() ==> vertices[i] != vertices[j]
    &&& forall|k: int|
        0 <= k < remapped.len() ==> (#[trigger] remapped[k]) < vertices.len()
            && vertices[remapped[k] as int] == source_vertex(indices[k], positions, tex_coords)
    &&& forall|j: int| 0 <= j < vertices.len() ==> #[trigger] introduced(remapped, j)
}

/// The index at `k` is the first that is remapped to vertex `j`, and the
/// indices before it are remapped to vertices before `j`.
pub open spec fn introduces(remapped: Seq<u32>, k: int, j: int) -> bool {
    &&& 0 <= k < remapped.len()
    &&& remapped[k] == j
    &&& forall|earlier: int| 0 <= earlier < k ==> (#[trigger] remapped[earlier]) < j
}

/// Some index introduces vertex `j`.
pub open spec fn introduced(remapped: Seq<u32>, j: int) -> bool {
    exists|k: int| #[trigger] introduces(remapped, k, j)
}

impl Primitive {
    /// Builds a primitive from indexed source data, with each distinct
    /// vertex kept once.
    ///
    /// Indices are taken in order. The vertex of an index is looked up in
    /// the positions and texture coordinates; it is appended to the vertices
    /// where it is new, and the index is remapped to its place. The result
    /// is `None` where there is no index at all. The first index without
    /// position or texture coordinate ends this with an error, as does a
    /// vertex that 32 bits cannot number.
    pub fn from_indexed(
        indices: &Vec<u32>,
        positions: &Vec<ElmVec3>,
        tex_coords: Option<&Vec<ElmVec2>>,
    ) -> (r: Result<Option<Primitive>, PrimitiveError>)
        ensures
            match r {
                Ok(Some(primitive)) => {
                    &&& indices.len() > 0
                    &&& primitive.vertices.len() <= u32::MAX
                    &&& forall|k: int|
                        0 <= k < indices.len() ==> first_bad_index(
                            indices@,
                            positions@,
                            spec_coords(tex_coords),
                            k,
                        ).is_none()
                    &&& is_deduplicated(
                        primitive.vertices@,
                        primitive.indices@,
                        indices@,
                        positions@,
                        spec_coords(tex_coords),
                    )
                },
                Ok(None) => indices.len() == 0,
                Err(PrimitiveError::TooManyVertices) => exists|
                    k: int,
                    vertices: Seq<ElmVertex>,
                    remapped: Seq<u32>,
                |
                    #[trigger] too_many_at(
                        k,
                        vertices,
                        remapped,
                        indices@,
                        positions@,
                        spec_coords(tex_coords),
                    ),
                Err(e) => exists|k: int|
                    0 <= k < indices.len() && #[trigger] first_bad_index(
                        indices@,
                        positions@,
                        spec_coords(tex_coords),
                        k,
                    ) == Some(e) && forall|earlier: int|
                        0 <= earlier < k ==> first_bad_index(
                            indices@,
                            positions@,
                            spec_coords(tex_coords),
                            earlier,
                        ).is_none(),
            },
    {
        let ghost coords = spec_coords(tex_coords);
        let mut vertices: Vec<ElmVertex> = Vec::new();
        let mut places = VertexPlaces::new();
        let mut remapped: Vec<u32> = Vec::new();
        let mut k: usize = 0;
        while k < indices.len()
            invariant
                k <= indices.len(),
                places.covers(vertices@),
                coords == spec_coords(tex_coords),
                vertices.len() <= k,
                vertices.len() <= u32::MAX,
                forall|earlier: int|
                    0 <= earlier < k ==> first_bad_index(indices@, positions@, coords, earlier).is_none(),
                is_deduplicated(vertices@, remapped@, indices@.take(k as int), positions@, coords),
            decreases indices.len() - k,
        {
            let index = indices[k];
            if index as usize >= positions.len() {
                assert(first_bad_index(indices@, positions@, coords, k as int) == Some(
                    PrimitiveError::PositionOutOfRange,
                ));
                return Err(PrimitiveError::PositionOutOfRange);
            }
            let tex_coord = match tex_coords {
                Some(tex_coords) => {
                    if index as usize >= tex_coords.len() {
                        assert(first_bad_index(indices@, positions@, coords, k as int) == Some(
                            PrimitiveError::TexCoordOutOfRange,
                        ));
                        return Err(PrimitiveError::TexCoordOutOfRange);
                    }
                    tex_coords[index as usize]
                },
                None => ElmVec2 { x: 0, y: 0 },
            };
            let vertex = ElmVertex {
                position: positions[index as usize],
                color: ElmVec3 { x: ONE, y: ONE, z: ONE },
                tex_coord,
            };
            assert(vertex == source_vertex(index, positions@, coords));
            let ghost old_vertices = vertices@;
            let ghost old_remapped = remapped@;
            let place = match places.find(&vertices, &vertex) {
                Some(place) => place,
                None => {
                    if vertices.len() >= u32::MAX as usize {
                        assert(too_many_at(
                            k as int,
                            vertices@,
                            remapped@,
                            indices@,
                            positions@,
                            coords,
                        ));
                        return Err(PrimitiveError::TooManyVertices);
                    }
                    places.insert(Ghost(vertices@), &vertex, vertices.len() as u32);
                    vertices.push(vertex);
                    vertices.len() - 1
                },
            };
            remapped.push(place as u32);
            k += 1;
            proof {
                let now = indices@.take(k as int);
                assert(now =~= indices@.take(k - 1).push(index));
                assert forall|j: int| 0 <= j < vertices.len() implies #[trigger] introduced(
                    remapped@,
                    j,
                ) by {
                    if j < old_vertices.len() {
                        assert(introduced(old_remapped, j));
                        let at = choose|at: int| #[trigger] introduces(old_remapped, at, j);
                        assert forall|earlier: int| 0 <= earlier < at implies (
                        #[trigger] remapped@[earlier]) < j by {
                            assert(old_remapped[earlier] < j);
                        }
                        assert(introduces(remapped@, at, j));
                    } else {
                        let at = k - 1;
                        assert forall|earlier: int| 0 <= earlier < at implies (
                        #[trigger] remapped@[earlier]) < j by {
                            assert(old_remapped[earlier] < old_vertices.len());
                        }
                        assert(introduces(remapped@, at, j));
                    }
                }
                assert forall|at: int| 0 <= at < remapped.len() implies (#[trigger] remapped@[at])
                    < vertices.len() && vertices@[remapped@[at] as int] == source_vertex(
                    now[at],
                    positions@,
                    coords,
                ) by {
                    if at < k - 1 {
                        assert(old_remapped[at] < old_vertices.len());
                    }
                }
            }
        }
        assert(indices@.take(k as int) =~= indices@);
        if remapped.len() == 0 {
            Ok(None)
        } else {
            Ok(Some(Primitive { vertices, indices: remapped }))
        }
    }
}

/// The texture coordinates as a sequence, where there are any.
pub open spec fn spec_coords(tex_coords: Option<&Vec<ElmVec2>>) -> Option<Seq<ElmVec2>> {
    match tex_coords {
        Some(tex_coords) => Some(tex_coords@),
        None => None,
    }
}

/// The key under which a vertex is looked up: its position and texture
/// coordinates folded into 64 bits. Equal vertices have equal keys.
pub open spec fn spec_vertex_key(vertex: ElmVertex) -> u64 {
    let front = (vertex.position.x as u64) | ((vertex.position.y as u64) << 32);
    let back = (vertex.position.z as u64) | ((vertex.tex_coord.x as u64) << 32);
    front ^ ((back << 13) | (back >> 51)) ^ ((vertex.tex_coord.y as u64) << 27)
}

/// The key under which a vertex is looked up.
fn vertex_key(vertex: &ElmVertex) -> (key: u64)
    ensures
        key == spec_vertex_key(*vertex),
{
    let front: u64 = (vertex.position.x as u64) | ((vertex.position.y as u64) << 32);
    let back: u64 = (vertex.position.z as u64) | ((vertex.tex_coord.x as u64) << 32);
    front ^ ((back << 13) | (back >> 51)) ^ ((vertex.tex_coord.y as u64) << 27)
}

/// The places of the vertices kept so far, by the key of each vertex.
struct VertexPlaces {
    by_key: HashMap<u64, Vec<u32>>,
}

impl VertexPlaces {
    /// Every vertex is listed under its key.
    spec fn covers(&self, vertices: Seq<ElmVertex>) -> bool {
        forall|j: int|
            0 <= j < vertices.len() ==> {
                &&& self.by_key@.contains_key(#[trigger] spec_vertex_key(vertices[j]))
                &&& self.by_key@[spec_vertex_key(vertices[j])]@.contains(j as u32)
            }
    }

    /// The places of no vertices: nothing is listed under any key.
    fn new() -> (places: VertexPlaces)
        ensures
            places.by_key@ == Map::<u64, Vec<u32>>::empty(),
            places.covers(Seq::empty()),
    {
        VertexPlaces { by_key: HashMap::new() }
    }

    /// The place of a vertex among those kept so far.
    fn find(&self, vertices: &Vec<ElmVertex>, vertex: &ElmVertex) -> (r: Option<usize>)
        requires
            self.covers(vertices@),
            vertices.len() <= u32::MAX,
        ensures
            match r {
                Some(place) => place < vertices.len() && vertices@[place as int] == *vertex,
                None => forall|j: int| 0 <= j < vertices.len() ==> vertices@[j] != *vertex,
            },
    {
        let key: u64 = vertex_key(vertex);
        let listed = match self.by_key.get(&key) {
            Some(listed) => listed,
            None => {
                return None;
            },
        };
        let mut i: usize = 0;
        while i < listed.len()
            invariant
                i <= listed.len(),
                forall|earlier: int|
                    0 <= earlier < i && listed@[earlier] < vertices.len() ==> vertices@[listed@[earlier] as int]
                        != *vertex,
            decreases listed.len() - i,
        {
            let place: usize = listed[i] as usize;
            if place < vertices.len() && vertices[place] == *vertex {
                return Some(place);
            }
            i += 1;
        }
        assert forall|j: int| 0 <= j < vertices.len() implies vertices@[j] != *vertex by {
            if vertices@[j] == *vertex {
                assert(self.by_key@.contains_key(spec_vertex_key(vertices@[j])));
                let at = choose|at: int| 0 <= at < listed@.len() && listed@[at] == j as u32;
                assert(listed@[at] < vertices.len());
            }
        }
        None
    }

    /// Lists a vertex that was kept at `place`, behind those kept so far.
    fn insert(&mut self, Ghost(vertices): Ghost<Seq<ElmVertex>>, vertex: &ElmVertex, place: u32)
        requires
            old(self).covers(vertices),
            place == vertices.len(),
        ensures
            final(self).covers(vertices.push(*vertex)),
    {
        let key: u64 = vertex_key(vertex);
        let ghost before = self.by_key@;
        let mut listed = match self.by_key.remove(&key) {
            Some(listed) => listed,
            None => Vec::new(),
        };
        let ghost earlier = listed@;
        listed.push(place);
        self.by_key.insert(key, listed);
        proof {
            let kept = vertices.push(*vertex);
            assert forall|j: int| 0 <= j < kept.len() implies {
                &&& self.by_key@.contains_key(#[trigger] spec_vertex_key(kept[j]))
                &&& self.by_key@[spec_vertex_key(kept[j])]@.contains(j as u32)
            } by {
                if j < vertices.len() {
                    assert(kept[j] == vertices[j]);
                    let its = spec_vertex_key(vertices[j]);
                    assert(before.contains_key(its) && before[its]@.contains(j as u32));
                    if its == key {
                        let at = choose|at: int| 0 <= at < earlier.len() && earlier[at] == j as u32;
                        assert(listed@[at] == j as u32);
                    }
                } else {
                    assert(listed@[listed@.len() - 1] == place);
                }
            }
        }
    }
}

/// The index at `k` stands for a vertex that is new after as many distinct
/// vertices as 32 bits can number, and no index up to it is a bad one.
pub open spec fn too_many_at(
    k: int,
    vertices: Seq<ElmVertex>,
    remapped: Seq<u32>,
    indices: Seq<u32>,
    positions: Seq<ElmVec3>,
    tex_coords: Option<Seq<ElmVec2>>,
) -> bool {
    &&& 0 <= k < indices.len()
    &&& forall|earlier: int|
        0 <= earlier <= k ==> first_bad_index(indices, positions, tex_coords, earlier).is_none()
    &&& is_deduplicated(vertices, remapped, indices.take(k), positions, tex_coords)
    &&& vertices.len() >= u32::MAX
    &&& forall|j: int|
        0 <= j < vertices.len() ==> vertices[j] != source_vertex(indices[k], positions, tex_coords)
}

} // verus!
