//! Descriptor state: the one uniform-buffer binding of the stable set
//! layout, and the per-swapchain-image pool and set writes rebuilt with the
//! swapchain.

use vstd::prelude::*;

verus! {

/// The size in bytes of the per-frame uniform record: three 4-by-4 float
/// matrices, three float triples and two float scalars.
pub const UNIFORM_RECORD_SIZE: u64 = 3 * 64 + 3 * 12 + 2 * 4;

/// The one binding of the stable descriptor-set layout.
#[derive(Clone, Copy, Debug, PartialEq, Eq, Structural)]
pub struct DescriptorSetLayoutBinding {
    pub binding: u32,
    pub uniform_buffer: bool,
    pub descriptor_count: u32,
    pub vertex_stage_visible: bool,
}

/// Builds the stable layout binding: binding zero, one uniform buffer,
/// visible to the vertex stage. Created once and reused across swapchain
/// rebuilds.
pub fn descriptor_set_layout_binding() -> (r: DescriptorSetLayoutBinding)
    ensures
        r == (DescriptorSetLayoutBinding {
            binding: 0,
            uniform_buffer: true,
            descriptor_count: 1,
            vertex_stage_visible: true,
        }),
{
    DescriptorSetLayoutBinding {
        binding: 0,
        uniform_buffer: true,
        descriptor_count: 1,
        vertex_stage_visible: true,
    }
}

/// The size of the per-swapchain descriptor pool.
#[derive(Clone, Copy, Debug, PartialEq, Eq, Structural)]
pub struct DescriptorPoolConfig {
    pub uniform_descriptor_count: u32,
    pub max_sets: u32,
}

/// Sizes the descriptor pool for one uniform-buffer descriptor and one set
/// per swapchain image.
pub fn descriptor_pool_config(image_count: u32) -> (r: DescriptorPoolConfig)
    ensures
        r == (DescriptorPoolConfig {
            uniform_descriptor_count: image_count,
            max_sets: image_count,
        }),
{
    DescriptorPoolConfig { uniform_descriptor_count: image_count, max_sets: image_count }
}

/// One descriptor write: which set points at which uniform buffer, over
/// which byte range.
#[derive(Clone, Copy, Debug, PartialEq, Eq, Structural)]
pub struct DescriptorWrite {
    pub set_index: usize,
    pub buffer_index: usize,
    pub offset: u64,
    pub range: u64,
}

/// Builds the per-image descriptor writes: set `i` points at uniform buffer
/// `i`, from offset zero over the whole uniform record.
pub fn descriptor_writes(image_count: usize, record_size: u64) -> (r: Vec<DescriptorWrite>)
    ensures
        r@.len() == image_count,
        forall|i: int|
            0 <= i < image_count ==> r@[i] == (DescriptorWrite {
                set_index: i as usize,
                buffer_index: i as usize,
                offset: 0,
                range: record_size,
            }),
{
    let mut r: Vec<DescriptorWrite> = Vec::new();
    let mut k: usize = 0;
    while k < image_count
        invariant
            0 <= k <= image_count,
            r@.len() == k,
            forall|i: int|
                0 <= i < k ==> r@[i] == (DescriptorWrite {
                    set_index: i as usize,
                    buffer_index: i as usize,
                    offset: 0,
                    range: record_size,
                }),
        decreases image_count - k,
    {
        r.push(DescriptorWrite { set_index: k, buffer_index: k, offset: 0, range: record_size });
        k = k + 1;
    }
    r
}

} // verus!
