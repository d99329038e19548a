use vstd::prelude::*;

verus! {

/// Raw value of the three-component 32-bit float vertex format.
pub const FORMAT_R32G32B32_SFLOAT: i32 = 106;

/// Size in bytes of one vertex: a position and a normal, three 32-bit floats
/// each, with no padding.
pub const VERTEX_SIZE: usize = 24;

/// Byte offset of the normal within a vertex.
pub const NORMAL_OFFSET: u32 = 12;

/// Size in bytes of one mesh index.
pub const INDEX_SIZE: usize = 4;

/// One vertex-buffer binding: consecutive vertices `stride` bytes apart.
#[derive(Clone, Copy, PartialEq, Eq, Structural, Debug)]
pub struct VertexBinding {
    pub binding: u32,
    pub stride: u32,
}

/// One vertex attribute: where in a bound vertex it is read from, and as what.
#[derive(Clone, Copy, PartialEq, Eq, Structural, Debug)]
pub struct VertexAttribute {
    pub binding: u32,
    pub location: u32,
    pub format: i32,
    pub offset: u32,
}

/// The vertex input layout a pipeline is built with.
pub struct VertexLayoutInfo {
    pub descs: Vec<VertexAttribute>,
    pub bindings: Vec<VertexBinding>,
}

/// The layout of the renderer's vertex: one binding of tightly packed
/// vertices, the position at location 0 and the normal at location 1.
pub open spec fn vertex_layout_spec() -> (Seq<VertexAttribute>, Seq<VertexBinding>) {
    (
        seq![
            VertexAttribute { binding: 0, location: 0, format: FORMAT_R32G32B32_SFLOAT, offset: 0 },
            VertexAttribute { binding: 0, location: 1, format: FORMAT_R32G32B32_SFLOAT, offset: NORMAL_OFFSET },
        ],
        seq![VertexBinding { binding: 0, stride: VERTEX_SIZE as u32 }],
    )
}

/// The vertex input layout of the renderer's vertex.
pub fn vertex_layout() -> (r: VertexLayoutInfo)
    ensures
        (r.descs@, r.bindings@) == vertex_layout_spec(),
{
    let mut bindings: Vec<VertexBinding> = Vec::new();
    bindings.push(VertexBinding { binding: 0, stride: VERTEX_SIZE as u32 });
    let mut descs: Vec<VertexAttribute> = Vec::new();
    descs.push(VertexAttribute { binding: 0, location: 0, format: FORMAT_R32G32B32_SFLOAT, offset: 0 });
    descs.push(
        VertexAttribute { binding: 0, location: 1, format: FORMAT_R32G32B32_SFLOAT, offset: NORMAL_OFFSET },
    );
    assert(descs@ =~= vertex_layout_spec().0);
    assert(bindings@ =~= vertex_layout_spec().1);
    VertexLayoutInfo { descs, bindings }
}

/// Byte sizes of the vertex and index buffers of a mesh.
#[derive(Clone, Copy, PartialEq, Eq, Structural, Debug)]
pub struct MeshBufferSizes {
    pub vertex_bytes: usize,
    pub index_bytes: usize,
}

/// The buffer sizes for a mesh of `num_vertices` vertices and `num_indices`
/// indices, or `None` when either does not fit in memory's address range.
pub fn mesh_buffer_sizes(num_vertices: usize, num_indices: usize) -> (r: Option<MeshBufferSizes>)
    ensures
        match r {
            Some(s) => {
                &&& s.vertex_bytes == num_vertices * VERTEX_SIZE
                &&& s.index_bytes == num_indices * INDEX_SIZE
            },
            None => num_vertices * VERTEX_SIZE > usize::MAX || num_indices * INDEX_SIZE > usize::MAX,
        },
{
    let vertex_bytes = match num_vertices.checked_mul(VERTEX_SIZE) {
        Some(v) => v,
        None => {
            return None;
        },
    };
    let index_bytes = match num_indices.checked_mul(INDEX_SIZE) {
        Some(v) => v,
        None => {
            return None;
        },
    };
    Some(MeshBufferSizes { vertex_bytes, index_bytes })
}

/// The vertex and index counts of a square terrain of `terrain_chunks` by
/// `terrain_chunks` chunks, each a grid of `chunk_size` by `chunk_size`
/// vertices: every cell between four neighbouring vertices is two triangles.
pub open spec fn terrain_counts(chunk_size: int, terrain_chunks: int) -> (int, int) {
    let num_chunks = terrain_chunks * terrain_chunks;
    let cells = (chunk_size - 1) * (chunk_size - 1);
    (chunk_size * chunk_size * num_chunks, cells * 2 * 3 * num_chunks)
}

/// The buffer sizes of a terrain of packed vertices and 32-bit indices, or
/// `None` for an empty chunk or when a size does not fit in memory's address
/// range.
pub fn terrain_buffer_sizes(chunk_size: usize, terrain_chunks: usize) -> (r: Option<MeshBufferSizes>)
    ensures
        match r {
            Some(s) => {
                &&& chunk_size >= 1
                &&& s.vertex_bytes == terrain_counts(chunk_size as int, terrain_chunks as int).0 * VERTEX_SIZE
                &&& s.index_bytes == terrain_counts(chunk_size as int, terrain_chunks as int).1 * INDEX_SIZE
            },
            None => chunk_size == 0
                || terrain_counts(chunk_size as int, terrain_chunks as int).0 * VERTEX_SIZE > usize::MAX
                || terrain_counts(chunk_size as int, terrain_chunks as int).1 * INDEX_SIZE > usize::MAX,
        },
{
    if chunk_size == 0 {
        return None;
    }
    if terrain_chunks == 0 {
        proof {
            let c = terrain_counts(chunk_size as int, terrain_chunks as int);
            assert(c.0 == 0 && c.1 == 0) by (nonlinear_arith)
                requires
                    terrain_chunks == 0,
                    c == terrain_counts(chunk_size as int, terrain_chunks as int),
            ;
        }
        return Some(MeshBufferSizes { vertex_bytes: 0, index_bytes: 0 });
    }
    let gaps = chunk_size - 1;
    let num_chunks = match terrain_chunks.checked_mul(terrain_chunks) {
        Some(n) => n,
        None => {
            proof {
                lemma_terrain_overflow(chunk_size as int, terrain_chunks as int);
            }
            return None;
        },
    };
    let per_chunk = match chunk_size.checked_mul(chunk_size) {
        Some(n) => n,
        None => {
            proof {
                lemma_terrain_overflow(chunk_size as int, terrain_chunks as int);
            }
            return None;
        },
    };
    let vertices = match per_chunk.checked_mul(num_chunks) {
        Some(n) => n,
        None => {
            proof {
                lemma_terrain_overflow(chunk_size as int, terrain_chunks as int);
            }
            return None;
        },
    };
    let vertex_bytes = match vertices.checked_mul(VERTEX_SIZE) {
        Some(n) => n,
        None => {
            return None;
        },
    };
    // gaps * gaps * 6 <= chunk_size * chunk_size * 6 and 6 * vertices fits.
    proof {
        assert(gaps * gaps <= per_chunk) by (nonlinear_arith)
            requires
                gaps + 1 == chunk_size,
                per_chunk == chunk_size * chunk_size,
        ;
        assert(num_chunks >= 1) by (nonlinear_arith)
            requires
                num_chunks == terrain_chunks * terrain_chunks,
                terrain_chunks >= 1,
        ;
        assert(per_chunk <= vertices) by (nonlinear_arith)
            requires
                vertices == per_chunk * num_chunks,
                num_chunks >= 1,
        ;
    }
    let cells = gaps * gaps;
    let indices_per_chunk = cells * 2 * 3;
    proof {
        assert(indices_per_chunk * num_chunks <= per_chunk * num_chunks * 6) by (nonlinear_arith)
            requires
                indices_per_chunk == cells * 6,
                cells <= per_chunk,
        ;
    }
    let indices = indices_per_chunk * num_chunks;
    let index_bytes = match indices.checked_mul(INDEX_SIZE) {
        Some(n) => n,
        None => {
            return None;
        },
    };
    proof {
        assert(vertices == chunk_size * chunk_size * num_chunks);
        assert(indices == (chunk_size - 1) * (chunk_size - 1) * 2 * 3 * num_chunks);
    }
    Some(MeshBufferSizes { vertex_bytes, index_bytes })
}

/// When an intermediate count overflows, so does the vertex buffer's size.
proof fn lemma_terrain_overflow(chunk_size: int, terrain_chunks: int)
    requires
        chunk_size >= 1,
        terrain_chunks >= 1,
        terrain_chunks * terrain_chunks > usize::MAX || chunk_size * chunk_size > usize::MAX
            || chunk_size * chunk_size * (terrain_chunks * terrain_chunks) > usize::MAX,
    ensures
        terrain_counts(chunk_size, terrain_chunks).0 * VERTEX_SIZE > usize::MAX,
{
    let n = terrain_chunks * terrain_chunks;
    let p = chunk_size * chunk_size;
    assert(p >= 1) by (nonlinear_arith)
        requires
            chunk_size >= 1,
            p == chunk_size * chunk_size,
    ;
    assert(n >= 1) by (nonlinear_arith)
        requires
            n == terrain_chunks * terrain_chunks,
            terrain_chunks >= 1,
    ;
    if n > usize::MAX {
        assert(p * n >= n) by (nonlinear_arith)
            requires
                p >= 1,
                n >= 1,
        ;
    } else if p > usize::MAX {
        assert(p * n >= p) by (nonlinear_arith)
            requires
                p >= 1,
                n >= 1,
        ;
    }
}

} // verus!
