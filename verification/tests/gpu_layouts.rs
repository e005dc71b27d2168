//! Tests for the byte layouts at the GPU boundary and the allocator
//! decisions.

use frameloop::error::RenderError;
use frameloop::layout::{
    decode_push_constants, decode_words, encode_push_constants, encode_words, index_buffer_size,
    vertex_buffer_size, INDEX_SIZE, PUSH_CONSTANT_SIZE, PUSH_OPACITY_OFFSET, PUSH_OPACITY_SIZE,
    PUSH_TRANSFORM_OFFSET, PUSH_TRANSFORM_SIZE, UNIFORM_BUFFER_SIZE, VERTEX_COLOR_OFFSET,
    VERTEX_POSITION_OFFSET, VERTEX_STRIDE, VERTEX_TEX_COORD_OFFSET,
};
use frameloop::memory::{
    get_memory_type_index, mip_blit_count, mip_dimension, mip_levels, validate_texture,
    TEXTURE_SIDE,
};

#[test]
fn push_constant_layout_has_no_padding() {
    assert_eq!(PUSH_TRANSFORM_OFFSET, 0);
    assert_eq!(PUSH_TRANSFORM_SIZE, 64);
    assert_eq!(PUSH_OPACITY_OFFSET, 64);
    assert_eq!(PUSH_OPACITY_SIZE, 4);
    assert_eq!(PUSH_CONSTANT_SIZE, 68);
}

#[test]
fn vertex_layout_matches_the_pipeline() {
    assert_eq!(VERTEX_STRIDE, 32);
    assert_eq!(VERTEX_POSITION_OFFSET, 0);
    assert_eq!(VERTEX_COLOR_OFFSET, 12);
    assert_eq!(VERTEX_TEX_COORD_OFFSET, 24);
    assert_eq!(UNIFORM_BUFFER_SIZE, 128);
    assert_eq!(INDEX_SIZE, 4);
}

#[test]
fn push_constants_round_trip_exactly() {
    // An identity transform's bit pattern (1.0f32 == 0x3f80_0000) and a
    // quarter opacity (0.25f32 == 0x3e80_0000).
    let one = 0x3f80_0000u32;
    let quarter = 0x3e80_0000u32;
    let mut transform = vec![0u32; 16];
    for d in 0..4 {
        transform[5 * d] = one;
    }
    let bytes = encode_push_constants(&transform, quarter);
    assert_eq!(bytes.len(), 68);
    let (t, o) = decode_push_constants(&bytes).unwrap();
    assert_eq!(t, transform);
    assert_eq!(o, quarter);
}

#[test]
fn push_constant_bytes_are_little_endian_in_place() {
    let mut transform = vec![0u32; 16];
    transform[0] = 0x0403_0201;
    transform[15] = 0xdead_beef;
    let bytes = encode_push_constants(&transform, 0x3e80_0000);
    assert_eq!(&bytes[0..4], &[0x01, 0x02, 0x03, 0x04]);
    assert_eq!(&bytes[60..64], &[0xef, 0xbe, 0xad, 0xde]);
    assert_eq!(&bytes[64..68], &[0x00, 0x00, 0x80, 0x3e]);
}

#[test]
fn push_constant_decode_rejects_wrong_lengths() {
    assert!(decode_push_constants(&vec![0u8; 67]).is_none());
    assert!(decode_push_constants(&vec![0u8; 69]).is_none());
    assert!(decode_push_constants(&vec![]).is_none());
}

#[test]
fn word_codec_round_trips_and_rejects_misalignment() {
    let words = vec![0u32, 1, 0xffff_ffff, 0x1234_5678];
    let bytes = encode_words(&words);
    assert_eq!(bytes.len(), 16);
    assert_eq!(decode_words(&bytes).unwrap(), words);
    assert!(decode_words(&vec![0u8; 5]).is_none());
    assert_eq!(decode_words(&vec![]).unwrap(), Vec::<u32>::new());
}

#[test]
fn buffer_sizes_follow_the_strides() {
    assert_eq!(vertex_buffer_size(0), Some(0));
    assert_eq!(vertex_buffer_size(3), Some(96));
    assert_eq!(index_buffer_size(12), Some(48));
}

#[test]
fn memory_type_selection_takes_the_first_match() {
    // Type 0 lacks the required properties, type 1 is excluded by the
    // resource's mask, type 2 fits both.
    let types = vec![0b0001u32, 0b0110, 0b0110];
    let r = get_memory_type_index(&types, 0b101, 0b0110);
    assert_eq!(r, Ok(2));
}

#[test]
fn no_matching_memory_type_is_an_error() {
    let types = vec![0b0001u32, 0b0010];
    let r = get_memory_type_index(&types, 0b11, 0b0110);
    assert_eq!(r, Err(RenderError::NoSuitableMemoryType));
    assert!(RenderError::NoSuitableMemoryType.is_fatal_initialization());
}

#[test]
fn mip_chain_sizes_follow_the_larger_dimension() {
    assert_eq!(mip_levels(1024, 1024), 11);
    assert_eq!(mip_levels(1, 1), 1);
    assert_eq!(mip_levels(1024, 1), 11);
    assert_eq!(mip_levels(1000, 1), 10);
    assert_eq!(mip_blit_count(11), 10);
}

#[test]
fn mip_dimensions_halve_and_floor_at_one() {
    assert_eq!(mip_dimension(1024, 0), 1024);
    assert_eq!(mip_dimension(1024, 1), 512);
    assert_eq!(mip_dimension(1024, 10), 1);
    assert_eq!(mip_dimension(1024, 12), 1);
    assert_eq!(mip_dimension(1000, 3), 125);
}

#[test]
fn texture_validation_requires_the_square_rgba_asset() {
    let bytes = (4 * TEXTURE_SIDE * TEXTURE_SIDE) as usize;
    assert_eq!(validate_texture(1024, 1024, true, bytes), Ok(()));
    assert_eq!(
        validate_texture(512, 1024, true, bytes),
        Err(RenderError::InvalidAsset)
    );
    assert_eq!(
        validate_texture(1024, 1024, false, bytes),
        Err(RenderError::InvalidAsset)
    );
    assert_eq!(
        validate_texture(1024, 1024, true, bytes - 1),
        Err(RenderError::InvalidAsset)
    );
    assert!(RenderError::InvalidAsset.is_fatal_initialization());
}

#[test]
fn device_errors_are_not_initialization_failures() {
    assert!(!RenderError::DeviceError(-4).is_fatal_initialization());
    assert_eq!(RenderError::NoSuitableGpu.describe(), "no suitable GPU");
}
