//! Memory-type selection and the staged-upload protocol.

use render_core::resources::{
    copy_buffer, encode_indices, get_memory_type_index, index_buffer_spec, staged_upload,
    staging_buffer_spec, uniform_buffer_spec, update_uniform_buffer, vertex_buffer_spec,
    write_mapped_bytes, BUFFER_USAGE_INDEX_BUFFER, BUFFER_USAGE_TRANSFER_DST,
    BUFFER_USAGE_TRANSFER_SRC, BUFFER_USAGE_UNIFORM_BUFFER, BUFFER_USAGE_VERTEX_BUFFER,
    MEMORY_DEVICE_LOCAL, MEMORY_HOST_COHERENT, MEMORY_HOST_VISIBLE,
};
use render_core::RenderError;

#[test]
fn memory_type_lowest_matching_index() {
    // Types 1 and 3 offer the requested flags; only bits 1, 2 and 3 are
    // allowed by the requirements; the lowest qualifying index wins.
    let types = vec![0x7, 0x6, 0x1, 0x6];
    let r = get_memory_type_index(&types, 0b1110, 0x6);
    assert_eq!(r, Ok(1));
}

#[test]
fn memory_type_requirement_bits_respected() {
    // Index 0 offers the flags but its requirement bit is clear.
    let types = vec![0x6, 0x1, 0x6];
    assert_eq!(get_memory_type_index(&types, 0b100, 0x6), Ok(2));
}

#[test]
fn memory_type_no_match_is_error() {
    let types = vec![0x1, 0x2];
    assert_eq!(get_memory_type_index(&types, 0b11, 0x4), Err(RenderError::NoSuitableMemoryType));
    // A requirements bitmask excluding every available type fails too.
    assert_eq!(get_memory_type_index(&types, 0b100, 0x1), Err(RenderError::NoSuitableMemoryType));
}

#[test]
fn staged_upload_round_trip() {
    let data: Vec<u8> = (0..=255).collect();
    let dst = staged_upload(&data);
    assert_eq!(dst, data);
    let empty: Vec<u8> = Vec::new();
    assert_eq!(staged_upload(&empty), empty);
}

#[test]
fn mapped_write_and_copy() {
    let src = vec![5u8, 6, 7];
    let mapped = write_mapped_bytes(&src);
    assert_eq!(mapped, src);
    let mut dst = vec![0u8; 3];
    copy_buffer(&mut dst, &mapped);
    assert_eq!(dst, src);
}

#[test]
fn buffer_specs_match_protocol() {
    let s = staging_buffer_spec(64);
    assert_eq!(s.size, 64);
    assert_eq!(s.usage, BUFFER_USAGE_TRANSFER_SRC);
    assert_eq!(s.properties, MEMORY_HOST_VISIBLE | MEMORY_HOST_COHERENT);
    let i = index_buffer_spec(16);
    assert_eq!(i.usage, BUFFER_USAGE_TRANSFER_DST | BUFFER_USAGE_INDEX_BUFFER);
    assert_eq!(i.properties, MEMORY_DEVICE_LOCAL);
    let v = vertex_buffer_spec(72);
    assert_eq!(v.usage, BUFFER_USAGE_TRANSFER_DST | BUFFER_USAGE_VERTEX_BUFFER);
    assert_eq!(v.properties, MEMORY_DEVICE_LOCAL);
    let u = uniform_buffer_spec(236);
    assert_eq!(u.size, 236);
    assert_eq!(u.usage, BUFFER_USAGE_UNIFORM_BUFFER);
    assert_eq!(u.properties, MEMORY_HOST_VISIBLE | MEMORY_HOST_COHERENT);
}

#[test]
fn encode_indices_little_endian() {
    let bytes = encode_indices(&vec![1u32, 0x01020304]);
    assert_eq!(bytes, vec![1, 0, 0, 0, 0x04, 0x03, 0x02, 0x01]);
    assert_eq!(encode_indices(&vec![]), Vec::<u8>::new());
}

#[test]
fn uniform_update_touches_one_image() {
    let mut buffers = vec![vec![0u8; 4], vec![0u8; 4], vec![0u8; 4]];
    update_uniform_buffer(&mut buffers, 1, &vec![9u8, 8, 7, 6]);
    assert_eq!(buffers[0], vec![0, 0, 0, 0]);
    assert_eq!(buffers[1], vec![9, 8, 7, 6]);
    assert_eq!(buffers[2], vec![0, 0, 0, 0]);
}
