//! Block and chunk coordinates.
use vstd::prelude::*;

verus! {

/// A block position as Flint writes it: `[x, y, z]`.
pub type BlockPos = [i32; 3];

/// A chunk column position: `(chunk_x, chunk_z)`.
pub type ChunkKey = (i32, i32);

/// The chunk coordinate of a block coordinate: the floor of `v / 16`.
pub open spec fn spec_chunk_coord(v: int) -> int {
    v / 16
}

/// The chunk column that holds a block position.
pub open spec fn spec_chunk_of(pos: BlockPos) -> ChunkKey {
    (spec_chunk_coord(pos[0] as int) as i32, spec_chunk_coord(pos[2] as int) as i32)
}

/// Chunk coordinate of a block coordinate (an arithmetic shift by four).
pub fn chunk_coord(v: i32) -> (c: i32)
    ensures
        c == spec_chunk_coord(v as int),
        16 * c <= v < 16 * c + 16,
{
    let c = v >> 4u32;
    assert(16 * (v >> 4u32) <= v && v < 16 * (v >> 4u32) + 16) by (bit_vector);
    c
}

/// The chunk column that holds the block at `pos`.
pub fn chunk_of(pos: BlockPos) -> (key: ChunkKey)
    ensures
        key == spec_chunk_of(pos),
        16 * key.0 <= pos[0] < 16 * key.0 + 16,
        16 * key.1 <= pos[2] < 16 * key.1 + 16,
{
    (chunk_coord(pos[0]), chunk_coord(pos[2]))
}

/// Every block of the sixteen-block column of chunk coordinate `c` lies in
/// chunk `c`, and in no other.
pub proof fn lemma_block_in_chunk(c: int, v: int)
    requires
        16 * c <= v < 16 * c + 16,
    ensures
        spec_chunk_coord(v) == c,
{
}

/// The chunk column named for a block position holds that block: its x and z
/// are each the floor of the block's coordinate divided by sixteen.
pub proof fn lemma_chunk_of_holds_block(pos: BlockPos)
    ensures
        16 * spec_chunk_of(pos).0 <= pos[0] < 16 * spec_chunk_of(pos).0 + 16,
        16 * spec_chunk_of(pos).1 <= pos[2] < 16 * spec_chunk_of(pos).1 + 16,
{
}

/// Two positions lie in the same chunk column exactly when their x and their
/// z coordinates fall in the same sixteen-block spans.
pub proof fn lemma_same_chunk(a: BlockPos, b: BlockPos, k: ChunkKey)
    requires
        16 * k.0 <= a[0] < 16 * k.0 + 16,
        16 * k.1 <= a[2] < 16 * k.1 + 16,
    ensures
        spec_chunk_of(a) == k,
        spec_chunk_of(b) == k <==> (16 * k.0 <= b[0] < 16 * k.0 + 16 && 16 * k.1 <= b[2] < 16 * k.1 + 16),
{
    lemma_chunk_of_holds_block(b);
}

} // verus!
