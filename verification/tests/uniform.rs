use gs_slam_core::uniform::{
    uniform_block, UNIFORM_BYTES, UNIFORM_EYE_OFFSET, UNIFORM_MATRIX_OFFSET, UNIFORM_MODE_OFFSET,
};
use gs_slam_core::word::read_word;

#[test]
fn block_offsets_are_fixed() {
    assert_eq!(UNIFORM_BYTES, 128);
    assert_eq!(UNIFORM_MATRIX_OFFSET, 0);
    assert_eq!(UNIFORM_EYE_OFFSET, 64);
    assert_eq!(UNIFORM_MODE_OFFSET, 80);
}

#[test]
fn block_holds_matrix_eye_and_mode_at_their_offsets() {
    let mut matrix = [0u32; 16];
    for j in 0..16 {
        matrix[j] = ((j as f32) + 0.5).to_bits();
    }
    let eye = [1.0f32.to_bits(), (-2.0f32).to_bits(), 3.5f32.to_bits()];
    let block = uniform_block(&matrix, &eye, 2);
    assert_eq!(block.len(), 128);
    for j in 0..16 {
        assert_eq!(read_word(&block, 4 * j), matrix[j]);
    }
    for k in 0..3 {
        assert_eq!(read_word(&block, 64 + 4 * k), eye[k]);
    }
    assert_eq!(read_word(&block, 76), 0);
    assert_eq!(read_word(&block, 80), 2);
    assert_eq!(&block[80..84], &[2, 0, 0, 0]);
    assert!(block[84..].iter().all(|b| *b == 0));
}

#[test]
fn block_of_zeros_with_a_mode() {
    let block = uniform_block(&[0; 16], &[0; 3], 0x0a0b_0c0d);
    let mut expected = vec![0u8; 128];
    expected[80] = 0x0d;
    expected[81] = 0x0c;
    expected[82] = 0x0b;
    expected[83] = 0x0a;
    assert_eq!(block, expected);
}

#[test]
fn matrix_is_written_in_the_order_given() {
    let mut matrix = [0u32; 16];
    matrix[1] = 0x1122_3344;
    matrix[15] = 0x5566_7788;
    let block = uniform_block(&matrix, &[0; 3], 0);
    assert_eq!(&block[4..8], &[0x44, 0x33, 0x22, 0x11]);
    assert_eq!(&block[60..64], &[0x88, 0x77, 0x66, 0x55]);
}
