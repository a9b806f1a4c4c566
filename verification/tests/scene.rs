use elements::scene::{Primitive, PrimitiveError, ONE};
use elements::vertex::{ElmVec2, ElmVec3, ElmVertex};

fn position(x: u32) -> ElmVec3 {
    ElmVec3 { x, y: x + 1, z: x + 2 }
}

fn coord(u: u32) -> ElmVec2 {
    ElmVec2 { x: u, y: u }
}

fn white(position: ElmVec3, tex_coord: ElmVec2) -> ElmVertex {
    ElmVertex { position, color: ElmVec3 { x: ONE, y: ONE, z: ONE }, tex_coord }
}

#[test]
fn repeated_vertices_are_kept_once() {
    let positions = vec![position(10), position(20), position(10), position(30)];
    let tex_coords = vec![coord(1), coord(2), coord(1), coord(3)];
    let indices = vec![0, 1, 2, 2, 3, 0, 1];
    let primitive =
        Primitive::from_indexed(&indices, &positions, Some(&tex_coords)).unwrap().unwrap();
    assert_eq!(
        primitive.vertices,
        vec![
            white(position(10), coord(1)),
            white(position(20), coord(2)),
            white(position(30), coord(3)),
        ]
    );
    assert_eq!(primitive.indices, vec![0, 1, 0, 0, 2, 0, 1]);
}

#[test]
fn vertices_keep_the_order_of_their_first_use() {
    let positions = vec![position(1), position(2), position(3)];
    let indices = vec![2, 0, 2, 1];
    let primitive = Primitive::from_indexed(&indices, &positions, None).unwrap().unwrap();
    let origin = ElmVec2 { x: 0, y: 0 };
    assert_eq!(
        primitive.vertices,
        vec![white(position(3), origin), white(position(1), origin), white(position(2), origin)]
    );
    assert_eq!(primitive.indices, vec![0, 1, 0, 2]);
}

#[test]
fn same_position_with_other_coordinate_is_another_vertex() {
    let positions = vec![position(5), position(5)];
    let tex_coords = vec![coord(0), coord(9)];
    let primitive =
        Primitive::from_indexed(&vec![0, 1, 0], &positions, Some(&tex_coords)).unwrap().unwrap();
    assert_eq!(primitive.vertices.len(), 2);
    assert_eq!(primitive.indices, vec![0, 1, 0]);
}

#[test]
fn vertices_are_white() {
    let primitive = Primitive::from_indexed(&vec![0], &vec![position(0)], None).unwrap().unwrap();
    assert_eq!(primitive.vertices[0].color, ElmVec3 { x: ONE, y: ONE, z: ONE });
    assert_eq!(f32::from_bits(ONE), 1.0);
}

#[test]
fn data_without_indices_gives_no_primitive() {
    assert_eq!(Primitive::from_indexed(&Vec::new(), &vec![position(0)], None), Ok(None));
    assert_eq!(Primitive::from_indexed(&Vec::new(), &Vec::new(), Some(&Vec::new())), Ok(None));
}

#[test]
fn index_without_position_is_an_error() {
    let positions = vec![position(0), position(1)];
    assert_eq!(
        Primitive::from_indexed(&vec![0, 2, 1], &positions, None),
        Err(PrimitiveError::PositionOutOfRange)
    );
    assert_eq!(
        Primitive::from_indexed(&vec![0], &Vec::new(), Some(&Vec::new())),
        Err(PrimitiveError::PositionOutOfRange)
    );
}

#[test]
fn index_without_texture_coordinate_is_an_error() {
    let positions = vec![position(0), position(1)];
    let tex_coords = vec![coord(0)];
    assert_eq!(
        Primitive::from_indexed(&vec![0, 1], &positions, Some(&tex_coords)),
        Err(PrimitiveError::TexCoordOutOfRange)
    );
    assert_eq!(
        Primitive::from_indexed(&vec![0, 0], &positions, Some(&tex_coords)).unwrap().unwrap().indices,
        vec![0, 0]
    );
}

#[test]
fn first_bad_index_decides_the_error() {
    let positions = vec![position(0), position(1)];
    let tex_coords = vec![coord(0)];
    assert_eq!(
        Primitive::from_indexed(&vec![1, 7], &positions, Some(&tex_coords)),
        Err(PrimitiveError::TexCoordOutOfRange)
    );
    assert_eq!(
        Primitive::from_indexed(&vec![7, 1], &positions, Some(&tex_coords)),
        Err(PrimitiveError::PositionOutOfRange)
    );
}

#[test]
fn different_vertices_that_share_a_lookup_key_are_kept_apart() {
    let positions = vec![
        ElmVec3 { x: 0, y: 0, z: 0 },
        ElmVec3 { x: 0x0800_0000, y: 0, z: 0 },
        ElmVec3 { x: 0, y: 0, z: 0 },
    ];
    let tex_coords =
        vec![ElmVec2 { x: 0, y: 1 }, ElmVec2 { x: 0, y: 0 }, ElmVec2 { x: 0, y: 1 }];
    let indices = vec![0, 1, 2, 1, 0];
    let primitive =
        Primitive::from_indexed(&indices, &positions, Some(&tex_coords)).unwrap().unwrap();
    assert_eq!(
        primitive.vertices,
        vec![white(positions[0], tex_coords[0]), white(positions[1], tex_coords[1])]
    );
    assert_eq!(primitive.indices, vec![0, 1, 0, 1, 0]);
}

#[test]
fn many_vertices_are_deduplicated() {
    let positions: Vec<ElmVec3> = (0..5000u32).map(|i| position(i % 1000)).collect();
    let indices: Vec<u32> = (0..5000u32).rev().collect();
    let primitive = Primitive::from_indexed(&indices, &positions, None).unwrap().unwrap();
    assert_eq!(primitive.vertices.len(), 1000);
    assert_eq!(primitive.indices.len(), 5000);
    for (k, index) in indices.iter().enumerate() {
        let vertex = primitive.vertices[primitive.indices[k] as usize];
        assert_eq!(vertex.position, positions[*index as usize]);
    }
    assert_eq!(primitive.indices[0], 0);
    assert_eq!(primitive.vertices[0].position, position(999));
}
