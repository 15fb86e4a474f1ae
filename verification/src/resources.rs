//! Resource management: memory-type selection, buffer requirements, and the
//! staged-upload protocol that shuttles data through a host-visible staging
//! buffer into a destination buffer.
//!
//! Buffer memory is modeled as the bytes it holds; the host environment binds
//! these decisions to real allocations.

use vstd::prelude::*;
use vstd::bytes::{spec_u32_to_le_bytes, u32_to_le_bytes};
use crate::RenderError;

verus! {

/// Buffer-usage bit: the buffer can be the source of a transfer.
pub const BUFFER_USAGE_TRANSFER_SRC: u32 = 0x1;

/// Buffer-usage bit: the buffer can be the destination of a transfer.
pub const BUFFER_USAGE_TRANSFER_DST: u32 = 0x2;

/// Buffer-usage bit: the buffer can back a uniform-buffer descriptor.
pub const BUFFER_USAGE_UNIFORM_BUFFER: u32 = 0x10;

/// Buffer-usage bit: the buffer can be bound as an index buffer.
pub const BUFFER_USAGE_INDEX_BUFFER: u32 = 0x40;

/// Buffer-usage bit: the buffer can be bound as a vertex buffer.
pub const BUFFER_USAGE_VERTEX_BUFFER: u32 = 0x80;

/// Memory-property bit: memory local to the GPU.
pub const MEMORY_DEVICE_LOCAL: u32 = 0x1;

/// Memory-property bit: memory the host can map.
pub const MEMORY_HOST_VISIBLE: u32 = 0x2;

/// Memory-property bit: host writes need no explicit flush.
pub const MEMORY_HOST_COHERENT: u32 = 0x4;

/// What a created buffer or image demands of its memory: a size and a bitmask
/// of acceptable memory-type indices.
#[derive(Clone, Copy, Debug, PartialEq, Eq, Structural)]
pub struct MemoryRequirements {
    pub size: u64,
    pub memory_type_bits: u32,
}

/// Memory type `i` satisfies the requirements bitmask and offers every
/// requested property flag.
pub open spec fn memory_type_matches(
    types: Seq<u32>,
    type_bits: u32,
    properties: u32,
    i: int,
) -> bool {
    &&& 0 <= i < types.len()
    &&& (type_bits >> (i as u32)) & 1u32 == 1u32
    &&& types[i] & properties == properties
}

/// Selects the memory type for an allocation: the lowest index whose bit is
/// set in the requirements bitmask and whose property flags are a superset of
/// the requested properties; no match is a fatal error. A device reports at
/// most 32 memory types, one per bit of the requirements bitmask.
pub fn get_memory_type_index(
    memory_types: &Vec<u32>,
    type_bits: u32,
    properties: u32,
) -> (r: Result<u32, RenderError>)
    requires
        memory_types@.len() <= 32,
    ensures
        r is Ok <==> exists|i: int| memory_type_matches(memory_types@, type_bits, properties, i),
        r matches Ok(ix) ==> memory_type_matches(memory_types@, type_bits, properties, ix as int)
            && forall|i: int|
            0 <= i < ix ==> !memory_type_matches(memory_types@, type_bits, properties, i),
        r matches Err(e) ==> e == RenderError::NoSuitableMemoryType,
{
    let n = memory_types.len();
    let mut k: usize = 0;
    while k < n
        invariant
            n == memory_types@.len() <= 32,
            0 <= k <= n,
            forall|i: int|
                0 <= i < k ==> !memory_type_matches(memory_types@, type_bits, properties, i),
        decreases n - k,
    {
        let suitable = (type_bits >> (k as u32)) & 1u32 == 1u32;
        if suitable && memory_types[k] & properties == properties {
            proof {
                assert(memory_type_matches(memory_types@, type_bits, properties, k as int));
            }
            return Ok(k as u32);
        }
        k = k + 1;
    }
    Err(RenderError::NoSuitableMemoryType)
}

/// The size and capability demands for one buffer to be created.
#[derive(Clone, Copy, Debug, PartialEq, Eq, Structural)]
pub struct BufferSpec {
    pub size: u64,
    pub usage: u32,
    pub properties: u32,
}

/// The staging buffer of an upload: host-visible, host-coherent transfer
/// source sized to the data.
pub fn staging_buffer_spec(size: u64) -> (r: BufferSpec)
    ensures
        r.size == size,
        r.usage == BUFFER_USAGE_TRANSFER_SRC,
        r.properties == MEMORY_HOST_VISIBLE | MEMORY_HOST_COHERENT,
{
    BufferSpec {
        size,
        usage: BUFFER_USAGE_TRANSFER_SRC,
        properties: MEMORY_HOST_VISIBLE | MEMORY_HOST_COHERENT,
    }
}

/// The destination buffer of a staged index upload: a device-local index
/// buffer that transfers can write.
pub fn index_buffer_spec(size: u64) -> (r: BufferSpec)
    ensures
        r.size == size,
        r.usage == BUFFER_USAGE_TRANSFER_DST | BUFFER_USAGE_INDEX_BUFFER,
        r.properties == MEMORY_DEVICE_LOCAL,
{
    BufferSpec {
        size,
        usage: BUFFER_USAGE_TRANSFER_DST | BUFFER_USAGE_INDEX_BUFFER,
        properties: MEMORY_DEVICE_LOCAL,
    }
}

/// The destination buffer of a staged vertex upload: a device-local vertex
/// buffer that transfers can write.
pub fn vertex_buffer_spec(size: u64) -> (r: BufferSpec)
    ensures
        r.size == size,
        r.usage == BUFFER_USAGE_TRANSFER_DST | BUFFER_USAGE_VERTEX_BUFFER,
        r.properties == MEMORY_DEVICE_LOCAL,
{
    BufferSpec {
        size,
        usage: BUFFER_USAGE_TRANSFER_DST | BUFFER_USAGE_VERTEX_BUFFER,
        properties: MEMORY_DEVICE_LOCAL,
    }
}

/// One per-image uniform buffer: host-visible and host-coherent, rewritten in
/// place every frame without staging.
pub fn uniform_buffer_spec(record_size: u64) -> (r: BufferSpec)
    ensures
        r.size == record_size,
        r.usage == BUFFER_USAGE_UNIFORM_BUFFER,
        r.properties == MEMORY_HOST_VISIBLE | MEMORY_HOST_COHERENT,
{
    BufferSpec {
        size: record_size,
        usage: BUFFER_USAGE_UNIFORM_BUFFER,
        properties: MEMORY_HOST_VISIBLE | MEMORY_HOST_COHERENT,
    }
}

/// Copies the source bytes into freshly mapped memory: the map-write-unmap
/// step of the protocol.
pub fn write_mapped_bytes(src: &Vec<u8>) -> (mapped: Vec<u8>)
    ensures
        mapped@ == src@,
{
    let n = src.len();
    let mut mapped: Vec<u8> = Vec::new();
    let mut k: usize = 0;
    while k < n
        invariant
            n == src@.len(),
            0 <= k <= n,
            mapped@ == src@.subrange(0, k as int),
        decreases n - k,
    {
        mapped.push(src[k]);
        proof {
            assert(mapped@ =~= src@.subrange(0, k + 1 as int));
        }
        k = k + 1;
    }
    proof {
        assert(mapped@ =~= src@);
    }
    mapped
}

/// The recorded transfer command: overwrite the destination with the staging
/// buffer's bytes.
pub fn copy_buffer(dst: &mut Vec<u8>, staging: &Vec<u8>)
    ensures
        final(dst)@ == staging@,
{
    let fresh = write_mapped_bytes(staging);
    *dst = fresh;
}

/// Runs the staged-upload protocol on the data: fill a staging buffer by
/// mapped write, then transfer it into the destination buffer. The
/// destination holds exactly the source bytes.
pub fn staged_upload(data: &Vec<u8>) -> (dst: Vec<u8>)
    ensures
        dst@ == data@,
{
    let staging = write_mapped_bytes(data);
    let mut dst: Vec<u8> = Vec::new();
    copy_buffer(&mut dst, &staging);
    dst
}

/// Rewrites the uniform buffer of one swapchain image with the per-frame
/// record, leaving every other image's buffer unchanged.
pub fn update_uniform_buffer(buffers: &mut Vec<Vec<u8>>, image_index: usize, record: &Vec<u8>)
    requires
        image_index < old(buffers)@.len(),
    ensures
        final(buffers)@.len() == old(buffers)@.len(),
        final(buffers)@[image_index as int]@ == record@,
        forall|j: int|
            0 <= j < old(buffers)@.len() && j != image_index ==> final(buffers)@[j] == old(
                buffers,
            )@[j],
{
    let fresh = write_mapped_bytes(record);
    buffers.set(image_index, fresh);
}

/// The bytes of an index array as they sit in the index buffer: each index as
/// four little-endian bytes.
pub open spec fn spec_index_bytes(indices: Seq<u32>) -> Seq<u8>
    decreases indices.len(),
{
    if indices.len() == 0 {
        Seq::empty()
    } else {
        spec_u32_to_le_bytes(indices[0]) + spec_index_bytes(indices.drop_first())
    }
}

/// Encodes an index array for upload: four little-endian bytes per index.
pub fn encode_indices(indices: &Vec<u32>) -> (bytes: Vec<u8>)
    ensures
        bytes@ == spec_index_bytes(indices@),
        bytes@.len() == 4 * indices@.len(),
{
    proof {
        lemma_index_bytes_len(indices@);
    }
    let n = indices.len();
    let mut bytes: Vec<u8> = Vec::new();
    let mut k: usize = 0;
    while k < n
        invariant
            n == indices@.len(),
            0 <= k <= n,
            bytes@ == spec_index_bytes(indices@.subrange(0, k as int)),
            bytes@.len() == 4 * k,
        decreases n - k,
    {
        let mut word = u32_to_le_bytes(indices[k]);
        bytes.append(&mut word);
        proof {
            lemma_index_bytes_snoc(indices@.subrange(0, k + 1 as int));
            assert(indices@.subrange(0, k + 1 as int).drop_last() =~= indices@.subrange(
                0,
                k as int,
            ));
        }
        k = k + 1;
    }
    proof {
        assert(indices@.subrange(0, n as int) =~= indices@);
    }
    bytes
}

/// The encoding of a nonempty index array ends with the last index's bytes.
proof fn lemma_index_bytes_snoc(indices: Seq<u32>)
    requires
        indices.len() > 0,
    ensures
        spec_index_bytes(indices) == spec_index_bytes(indices.drop_last()) + spec_u32_to_le_bytes(
            indices.last(),
        ),
    decreases indices.len(),
{
    vstd::bytes::lemma_auto_spec_u32_to_from_le_bytes();
    if indices.len() == 1 {
        assert(indices.drop_first() =~= Seq::<u32>::empty());
        assert(indices.drop_last() =~= Seq::<u32>::empty());
        assert(spec_index_bytes(indices) =~= spec_index_bytes(indices.drop_last())
            + spec_u32_to_le_bytes(indices.last()));
    } else {
        lemma_index_bytes_snoc(indices.drop_first());
        assert(indices.drop_first().drop_last() =~= indices.drop_last().drop_first());
        assert(indices.drop_last().len() > 0);
        assert(spec_index_bytes(indices) =~= spec_index_bytes(indices.drop_last())
            + spec_u32_to_le_bytes(indices.last()));
    }
}

/// An index array encodes to four bytes per index.
proof fn lemma_index_bytes_len(indices: Seq<u32>)
    ensures
        spec_index_bytes(indices).len() == 4 * indices.len(),
    decreases indices.len(),
{
    vstd::bytes::lemma_auto_spec_u32_to_from_le_bytes();
    if indices.len() > 0 {
        lemma_index_bytes_len(indices.drop_first());
    }
}

} // verus!
