use elements::ubo::{flipped_y, negated, UniformBufferObject, SIGN_BIT, Y_SCALE};

fn perspective(aspect: f32) -> [u32; 16] {
    let focal = 1.0 / (45.0f32.to_radians() / 2.0).tan();
    let (near, far) = (0.1f32, 10.0f32);
    let mut matrix = [0.0f32; 16];
    matrix[0] = focal / aspect;
    matrix[5] = focal;
    matrix[10] = far / (near - far);
    matrix[11] = -1.0;
    matrix[14] = near * far / (near - far);
    matrix.map(f32::to_bits)
}

#[test]
fn flipped_projection_has_the_opposite_vertical_scale() {
    for aspect in [0.25f32, 1.0, 4.0 / 3.0, 16.0 / 9.0, 800.0 / 600.0, 21.0 / 9.0] {
        let reference = perspective(aspect);
        let flipped = flipped_y(&reference);
        let before = f32::from_bits(reference[Y_SCALE]);
        let after = f32::from_bits(flipped[Y_SCALE]);
        assert!(before > 0.0);
        assert!(after < 0.0);
        assert_eq!(after, -before);
        for i in 0..16 {
            if i != Y_SCALE {
                assert_eq!(flipped[i], reference[i]);
            }
        }
        assert_eq!(flipped_y(&flipped), reference);
    }
}

#[test]
fn negation_changes_the_sign_bit_only() {
    assert_eq!(negated(1.0f32.to_bits()), (-1.0f32).to_bits());
    assert_eq!(negated((-2.5f32).to_bits()), 2.5f32.to_bits());
    assert_eq!(negated(0), SIGN_BIT);
    assert_eq!(negated(0x3f80_0000), 0xbf80_0000);
    assert_eq!(negated(u32::MAX), 0x7fff_ffff);
}

#[test]
fn block_of_a_frame_keeps_model_and_view_and_flips_the_projection() {
    let model = [1u32; 16];
    let view = [2u32; 16];
    let reference = perspective(4.0 / 3.0);
    let block = UniformBufferObject::for_frame(model, view, &reference);
    assert_eq!(block.model, model);
    assert_eq!(block.view, view);
    assert_eq!(block.proj, flipped_y(&reference));
    assert_eq!(block.proj[5], reference[5] ^ 0x8000_0000);
    let words = block.words();
    assert_eq!(&words[0..16], &model[..]);
    assert_eq!(&words[16..32], &view[..]);
    assert_eq!(&words[32..48], &block.proj[..]);
    assert_eq!(f32::from_bits(words[37]), -f32::from_bits(reference[5]));
}
