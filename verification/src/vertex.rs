//! Model geometry: the vertex record, its input layout, and the assembly of
//! a deduplicated vertex array with an index array from loader output.
//!
//! Floating-point coordinates pass through this module as their 32-bit
//! patterns; equality and deduplication read only those patterns, never the
//! numeric values, exactly as the loader's vertex equality does.

use vstd::prelude::*;
use vstd::bytes::{spec_u32_to_le_bytes, u32_to_le_bytes};

verus! {

/// Format code for three 32-bit float components.
pub const FORMAT_R32G32B32_SFLOAT: u32 = 106;

/// The bit pattern of the value one, the loader's fixed white color channel.
pub const COLOR_WHITE_BITS: u32 = 0x3F800000;

/// A vertex: position, color and normal, each channel held as the 32-bit
/// pattern of its float value.
#[derive(Clone, Copy, Debug)]
pub struct Vertex {
    pub px: u32,
    pub py: u32,
    pub pz: u32,
    pub cx: u32,
    pub cy: u32,
    pub cz: u32,
    pub nx: u32,
    pub ny: u32,
    pub nz: u32,
}

/// Vertex equality as deduplication sees it: position and color equal; the
/// normal does not take part.
pub open spec fn vertex_eq(a: Vertex, b: Vertex) -> bool {
    &&& a.px == b.px
    &&& a.py == b.py
    &&& a.pz == b.pz
    &&& a.cx == b.cx
    &&& a.cy == b.cy
    &&& a.cz == b.cz
}

impl PartialEq for Vertex {
    fn eq(&self, other: &Vertex) -> (r: bool) {
        self.px == other.px && self.py == other.py && self.pz == other.pz && self.cx == other.cx
            && self.cy == other.cy && self.cz == other.cz
    }
}

impl vstd::std_specs::cmp::PartialEqSpecImpl for Vertex {
    open spec fn obeys_eq_spec() -> bool {
        true
    }

    open spec fn eq_spec(&self, other: &Vertex) -> bool {
        vertex_eq(*self, *other)
    }
}

impl Vertex {
    /// Builds a vertex from its nine channel patterns, position, color and
    /// normal in order.
    pub fn new(
        px: u32,
        py: u32,
        pz: u32,
        cx: u32,
        cy: u32,
        cz: u32,
        nx: u32,
        ny: u32,
        nz: u32,
    ) -> (v: Vertex)
        ensures
            v == (Vertex { px, py, pz, cx, cy, cz, nx, ny, nz }),
    {
        Vertex { px, py, pz, cx, cy, cz, nx, ny, nz }
    }

    /// The one vertex-buffer binding: binding zero, one 36-byte vertex per
    /// instance step.
    pub fn binding_description() -> (r: VertexInputBinding)
        ensures
            r == (VertexInputBinding { binding: 0, stride: 36, per_vertex: true }),
    {
        VertexInputBinding { binding: 0, stride: 36, per_vertex: true }
    }

    /// The three vertex attributes: position, color and normal, three-float
    /// each, at offsets 0, 12 and 24 of binding zero.
    pub fn attribute_descriptions() -> (r: Vec<VertexInputAttribute>)
        ensures
            r@.len() == 3,
            r@[0] == (VertexInputAttribute {
                binding: 0,
                location: 0,
                format: FORMAT_R32G32B32_SFLOAT,
                offset: 0,
            }),
            r@[1] == (VertexInputAttribute {
                binding: 0,
                location: 1,
                format: FORMAT_R32G32B32_SFLOAT,
                offset: 12,
            }),
            r@[2] == (VertexInputAttribute {
                binding: 0,
                location: 2,
                format: FORMAT_R32G32B32_SFLOAT,
                offset: 24,
            }),
    {
        let mut r: Vec<VertexInputAttribute> = Vec::new();
        r.push(VertexInputAttribute { binding: 0, location: 0, format: FORMAT_R32G32B32_SFLOAT, offset: 0 });
        r.push(
            VertexInputAttribute { binding: 0, location: 1, format: FORMAT_R32G32B32_SFLOAT, offset: 12 },
        );
        r.push(
            VertexInputAttribute { binding: 0, location: 2, format: FORMAT_R32G32B32_SFLOAT, offset: 24 },
        );
        r
    }
}

/// How one vertex buffer binding steps through memory.
#[derive(Clone, Copy, Debug, PartialEq, Eq, Structural)]
pub struct VertexInputBinding {
    pub binding: u32,
    pub stride: u32,
    pub per_vertex: bool,
}

/// One vertex attribute: where a shader input lives inside the vertex.
#[derive(Clone, Copy, Debug, PartialEq, Eq, Structural)]
pub struct VertexInputAttribute {
    pub binding: u32,
    pub location: u32,
    pub format: u32,
    pub offset: u32,
}

/// Some element of `s` is vertex-equal to `v`.
pub open spec fn contains_vertex(s: Seq<Vertex>, v: Vertex) -> bool {
    exists|i: int| 0 <= i < s.len() && vertex_eq(s[i], v)
}

/// The stream's vertices with duplicates dropped: each vertex kept at its
/// first occurrence, in stream order.
pub open spec fn spec_unique_vertices(stream: Seq<Vertex>) -> Seq<Vertex>
    decreases stream.len(),
{
    if stream.len() == 0 {
        Seq::empty()
    } else {
        let prefix = spec_unique_vertices(stream.drop_last());
        if contains_vertex(prefix, stream.last()) {
            prefix
        } else {
            prefix.push(stream.last())
        }
    }
}

/// The deduplicated list holds no two vertex-equal entries.
pub proof fn lemma_unique_vertices_distinct(stream: Seq<Vertex>)
    ensures
        forall|i: int, j: int|
            0 <= i < j < spec_unique_vertices(stream).len() ==> !vertex_eq(
                #[trigger] spec_unique_vertices(stream)[i],
                #[trigger] spec_unique_vertices(stream)[j],
            ),
    decreases stream.len(),
{
    if stream.len() > 0 {
        lemma_unique_vertices_distinct(stream.drop_last());
        let prefix = spec_unique_vertices(stream.drop_last());
        let u = spec_unique_vertices(stream);
        if !contains_vertex(prefix, stream.last()) {
            assert forall|i: int, j: int| 0 <= i < j < u.len() implies !vertex_eq(
                u[i],
                u[j],
            ) by {
                if j == prefix.len() {
                    assert(u[i] == prefix[i]);
                    assert(u[j] == stream.last());
                    if vertex_eq(prefix[i], stream.last()) {
                        assert(contains_vertex(prefix, stream.last()));
                    }
                }
            }
        }
    }
}

/// Finds the first entry of `unique` that is vertex-equal to `v`.
fn find_vertex(unique: &Vec<Vertex>, v: Vertex) -> (r: Option<usize>)
    ensures
        r matches Some(j) ==> 0 <= j < unique@.len() && vertex_eq(unique@[j as int], v)
            && forall|i: int| 0 <= i < j ==> !vertex_eq(unique@[i], v),
        r is None ==> !contains_vertex(unique@, v),
{
    let n = unique.len();
    let mut k: usize = 0;
    while k < n
        invariant
            n == unique@.len(),
            0 <= k <= n,
            forall|i: int| 0 <= i < k ==> !vertex_eq(unique@[i], v),
        decreases n - k,
    {
        if unique[k] == v {
            return Some(k);
        }
        k = k + 1;
    }
    None
}

/// Deduplicates a vertex stream: returns the list of first occurrences and,
/// for each stream element, the index of its representative in that list.
pub fn dedup_vertices(stream: &Vec<Vertex>) -> (r: (Vec<Vertex>, Vec<u32>))
    requires
        stream@.len() <= u32::MAX,
    ensures
        r.0@ == spec_unique_vertices(stream@),
        r.1@.len() == stream@.len(),
        forall|k: int|
            0 <= k < stream@.len() ==> #[trigger] r.1@[k] < r.0@.len() && vertex_eq(
                r.0@[r.1@[k] as int],
                stream@[k],
            ),
        forall|i: int, j: int|
            0 <= i < j < r.0@.len() ==> !vertex_eq(#[trigger] r.0@[i], #[trigger] r.0@[j]),
{
    let n = stream.len();
    let mut unique: Vec<Vertex> = Vec::new();
    let mut indices: Vec<u32> = Vec::new();
    let mut k: usize = 0;
    while k < n
        invariant
            n == stream@.len() <= u32::MAX,
            0 <= k <= n,
            unique@ == spec_unique_vertices(stream@.subrange(0, k as int)),
            unique@.len() <= k,
            indices@.len() == k,
            forall|t: int|
                0 <= t < k ==> #[trigger] indices@[t] < unique@.len() && vertex_eq(
                    unique@[indices@[t] as int],
                    stream@[t],
                ),
        decreases n - k,
    {
        let v = stream[k];
        proof {
            assert(stream@.subrange(0, k + 1 as int).drop_last() =~= stream@.subrange(0, k as int));
            assert(stream@.subrange(0, k + 1 as int).last() == stream@[k as int]);
        }
        match find_vertex(&unique, v) {
            Some(j) => {
                indices.push(j as u32);
            },
            None => {
                let j = unique.len();
                unique.push(v);
                indices.push(j as u32);
            },
        }
        k = k + 1;
    }
    proof {
        assert(stream@.subrange(0, n as int) =~= stream@);
        lemma_unique_vertices_distinct(stream@);
    }
    (unique, indices)
}

/// The vertex the loader builds for mesh index `i`: position channels at
/// offset `3 * i` of the position array, fixed white color, normal channels
/// at offset `3 * i` of the normal array.
pub open spec fn spec_vertex_at(positions: Seq<u32>, normals: Seq<u32>, i: int) -> Vertex
    recommends
        0 <= 3 * i,
        3 * i + 3 <= positions.len(),
        3 * i + 3 <= normals.len(),
{
    Vertex {
        px: positions[3 * i],
        py: positions[3 * i + 1],
        pz: positions[3 * i + 2],
        cx: COLOR_WHITE_BITS,
        cy: COLOR_WHITE_BITS,
        cz: COLOR_WHITE_BITS,
        nx: normals[3 * i],
        ny: normals[3 * i + 1],
        nz: normals[3 * i + 2],
    }
}

/// The vertex stream gathered from the loader's flat arrays: one vertex per
/// mesh index, skipping indices whose normal offset falls outside the normal
/// array.
pub open spec fn spec_gather(positions: Seq<u32>, normals: Seq<u32>, idxs: Seq<u32>) -> Seq<Vertex>
    decreases idxs.len(),
{
    if idxs.len() == 0 {
        Seq::empty()
    } else {
        let prefix = spec_gather(positions, normals, idxs.drop_last());
        let i = idxs.last() as int;
        if 3 * i < normals.len() {
            prefix.push(spec_vertex_at(positions, normals, i))
        } else {
            prefix
        }
    }
}

/// A mesh index is safe when the channels it names exist in both arrays, or
/// when its normal offset is out of range and it is skipped.
pub open spec fn gather_index_safe(positions: Seq<u32>, normals: Seq<u32>, i: int) -> bool {
    3 * i < normals.len() ==> 3 * i + 3 <= normals.len() && 3 * i + 3 <= positions.len()
}

/// Gathers the vertex stream named by the mesh indices from the loader's
/// flat position and normal arrays.
pub fn gather_vertices(
    positions: &Vec<u32>,
    normals: &Vec<u32>,
    mesh_indices: &Vec<u32>,
) -> (stream: Vec<Vertex>)
    requires
        forall|k: int|
            0 <= k < mesh_indices@.len() ==> gather_index_safe(
                positions@,
                normals@,
                #[trigger] mesh_indices@[k] as int,
            ),
    ensures
        stream@ == spec_gather(positions@, normals@, mesh_indices@),
{
    let n = mesh_indices.len();
    let mut stream: Vec<Vertex> = Vec::new();
    let mut k: usize = 0;
    while k < n
        invariant
            n == mesh_indices@.len(),
            0 <= k <= n,
            forall|t: int|
                0 <= t < n ==> gather_index_safe(
                    positions@,
                    normals@,
                    #[trigger] mesh_indices@[t] as int,
                ),
            stream@ == spec_gather(positions@, normals@, mesh_indices@.subrange(0, k as int)),
        decreases n - k,
    {
        proof {
            assert(mesh_indices@.subrange(0, k + 1 as int).drop_last() =~= mesh_indices@.subrange(
                0,
                k as int,
            ));
            assert(mesh_indices@.subrange(0, k + 1 as int).last() == mesh_indices@[k as int]);
        }
        let i = mesh_indices[k] as usize;
        let nlen = normals.len();
        // An offset past the end of the normal array can never be tripled
        // into range, however the multiplication overflows.
        let in_range = match i.checked_mul(3) {
            Some(base) => base < nlen,
            None => false,
        };
        if in_range {
            let base = 3 * i;
            let v = Vertex {
                px: positions[base],
                py: positions[base + 1],
                pz: positions[base + 2],
                cx: COLOR_WHITE_BITS,
                cy: COLOR_WHITE_BITS,
                cz: COLOR_WHITE_BITS,
                nx: normals[base],
                ny: normals[base + 1],
                nz: normals[base + 2],
            };
            stream.push(v);
        }
        k = k + 1;
    }
    proof {
        assert(mesh_indices@.subrange(0, n as int) =~= mesh_indices@);
    }
    stream
}

/// Assembles a model from the loader's flat arrays: gathers the vertex
/// stream named by the mesh indices, then deduplicates it into a unique
/// vertex array and an index array.
pub fn load_model(
    positions: &Vec<u32>,
    normals: &Vec<u32>,
    mesh_indices: &Vec<u32>,
) -> (r: (Vec<Vertex>, Vec<u32>))
    requires
        mesh_indices@.len() <= u32::MAX,
        forall|k: int|
            0 <= k < mesh_indices@.len() ==> gather_index_safe(
                positions@,
                normals@,
                #[trigger] mesh_indices@[k] as int,
            ),
    ensures
        ({
            let stream = spec_gather(positions@, normals@, mesh_indices@);
            &&& r.0@ == spec_unique_vertices(stream)
            &&& r.1@.len() == stream.len()
            &&& forall|k: int|
                0 <= k < stream.len() ==> #[trigger] r.1@[k] < r.0@.len() && vertex_eq(
                    r.0@[r.1@[k] as int],
                    stream[k],
                )
        }),
{
    let stream = gather_vertices(positions, normals, mesh_indices);
    proof {
        lemma_gather_len(positions@, normals@, mesh_indices@);
    }
    dedup_vertices(&stream)
}

/// The gathered stream never outgrows the index list.
proof fn lemma_gather_len(positions: Seq<u32>, normals: Seq<u32>, idxs: Seq<u32>)
    ensures
        spec_gather(positions, normals, idxs).len() <= idxs.len(),
    decreases idxs.len(),
{
    if idxs.len() > 0 {
        lemma_gather_len(positions, normals, idxs.drop_last());
    }
}

/// The bytes of one vertex as they sit in the vertex buffer: its nine
/// channels as little-endian words, position, color, normal in order.
pub open spec fn spec_vertex_bytes(v: Vertex) -> Seq<u8> {
    spec_u32_to_le_bytes(v.px) + spec_u32_to_le_bytes(v.py) + spec_u32_to_le_bytes(v.pz)
        + spec_u32_to_le_bytes(v.cx) + spec_u32_to_le_bytes(v.cy) + spec_u32_to_le_bytes(v.cz)
        + spec_u32_to_le_bytes(v.nx) + spec_u32_to_le_bytes(v.ny) + spec_u32_to_le_bytes(v.nz)
}

/// The bytes of a vertex array: 36 bytes per vertex, in array order.
pub open spec fn spec_vertex_array_bytes(vertices: Seq<Vertex>) -> Seq<u8>
    decreases vertices.len(),
{
    if vertices.len() == 0 {
        Seq::empty()
    } else {
        spec_vertex_array_bytes(vertices.drop_last()) + spec_vertex_bytes(vertices.last())
    }
}

/// Each vertex encodes to 36 bytes.
proof fn lemma_vertex_array_bytes_len(vertices: Seq<Vertex>)
    ensures
        spec_vertex_array_bytes(vertices).len() == 36 * vertices.len(),
    decreases vertices.len(),
{
    vstd::bytes::lemma_auto_spec_u32_to_from_le_bytes();
    if vertices.len() > 0 {
        lemma_vertex_array_bytes_len(vertices.drop_last());
    }
}

/// Appends the little-endian bytes of one word to the buffer.
fn push_word(bytes: &mut Vec<u8>, word: u32)
    ensures
        final(bytes)@ == old(bytes)@ + spec_u32_to_le_bytes(word),
{
    let mut encoded = u32_to_le_bytes(word);
    bytes.append(&mut encoded);
}

/// Encodes a vertex array for upload: nine little-endian words per vertex.
pub fn encode_vertices(vertices: &Vec<Vertex>) -> (bytes: Vec<u8>)
    ensures
        bytes@ == spec_vertex_array_bytes(vertices@),
        bytes@.len() == 36 * vertices@.len(),
{
    proof {
        lemma_vertex_array_bytes_len(vertices@);
    }
    let n = vertices.len();
    let mut bytes: Vec<u8> = Vec::new();
    let mut k: usize = 0;
    while k < n
        invariant
            n == vertices@.len(),
            0 <= k <= n,
            bytes@ == spec_vertex_array_bytes(vertices@.subrange(0, k as int)),
        decreases n - k,
    {
        let v = vertices[k];
        push_word(&mut bytes, v.px);
        push_word(&mut bytes, v.py);
        push_word(&mut bytes, v.pz);
        push_word(&mut bytes, v.cx);
        push_word(&mut bytes, v.cy);
        push_word(&mut bytes, v.cz);
        push_word(&mut bytes, v.nx);
        push_word(&mut bytes, v.ny);
        push_word(&mut bytes, v.nz);
        proof {
            assert(vertices@.subrange(0, k + 1 as int).drop_last() =~= vertices@.subrange(
                0,
                k as int,
            ));
            assert(vertices@.subrange(0, k + 1 as int).last() == vertices@[k as int]);
            assert(bytes@ =~= spec_vertex_array_bytes(vertices@.subrange(0, k as int))
                + spec_vertex_bytes(vertices@[k as int]));
        }
        k = k + 1;
    }
    proof {
        assert(vertices@.subrange(0, n as int) =~= vertices@);
    }
    bytes
}

} // verus!
