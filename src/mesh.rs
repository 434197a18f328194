use vstd::prelude::*;

verus! {

/// Number of vertices in the fixed vertex list.
pub const VERTEX_COUNT: u32 = 3;

/// The fixed index list, one triangle.
pub open spec fn spec_vertex_index_list() -> Seq<u16> {
    seq![0u16, 1u16, 2u16]
}

/// Whether every index names a vertex below `vertex_count`.
pub open spec fn indices_in_range(indices: Seq<u16>, vertex_count: nat) -> bool {
    forall|i: int| 0 <= i < indices.len() ==> (#[trigger] indices[i]) < vertex_count
}

/// The bytes of `s`, each value low byte first.
pub open spec fn le_bytes(s: Seq<u16>) -> Seq<u8>
    decreases s.len(),
{
    if s.len() == 0 {
        Seq::empty()
    } else {
        le_bytes(s.drop_last()).push((s.last() % 256) as u8).push((s.last() / 256) as u8)
    }
}

/// The bytes of `s`, each value high byte first.
pub open spec fn be_bytes(s: Seq<u16>) -> Seq<u8>
    decreases s.len(),
{
    if s.len() == 0 {
        Seq::empty()
    } else {
        be_bytes(s.drop_last()).push((s.last() / 256) as u8).push((s.last() % 256) as u8)
    }
}

/// Whether `b` is the in-memory representation of `s` on a little- or
/// big-endian machine.
pub open spec fn native_bytes(s: Seq<u16>, b: Seq<u8>) -> bool {
    b == le_bytes(s) || b == be_bytes(s)
}

/// The fixed index list.
pub fn vertex_index_list() -> (r: Vec<u16>)
    ensures
        r@ == spec_vertex_index_list(),
{
    vec![0u16, 1u16, 2u16]
}

/// The fixed index list is made of whole triangles, and every index in it
/// names one of the fixed vertices.
pub proof fn lemma_index_list_valid()
    ensures
        spec_vertex_index_list().len() % 3 == 0,
        indices_in_range(spec_vertex_index_list(), VERTEX_COUNT as nat),
{
    assert forall|i: int| 0 <= i < spec_vertex_index_list().len() implies
        (#[trigger] spec_vertex_index_list()[i]) < VERTEX_COUNT by {
        assert(0 <= i < 3);
    }
}

/// Relies on bytemuck::cast_slice from `u16` to `u8`: the same memory read
/// as bytes, two for each value in the machine's byte order; it cannot fail
/// since `u8` has alignment one and divides every size.
#[verifier::external_body]
fn cast_to_bytes(s: &[u16]) -> (r: Vec<u8>)
    ensures
        native_bytes(s@, r@),
{
    let b: &[u8] = bytemuck::cast_slice(s);
    b.to_vec()
}

/// The bytes uploaded to the index buffer for `indices`.
pub fn index_bytes(indices: &Vec<u16>) -> (r: Vec<u8>)
    ensures
        native_bytes(indices@, r@),
{
    cast_to_bytes(indices.as_slice())
}

} // verus!
