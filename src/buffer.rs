use crate::vertex::{indices_of, Figure, Mesh};
use vstd::prelude::*;

verus! {

/// The bytes of a `u16` list, low byte first.
pub open spec fn le_bytes(s: Seq<u16>) -> Seq<u8> {
    Seq::new(
        2 * s.len(),
        |k: int|
            if k % 2 == 0 {
                (s[k / 2] % 256) as u8
            } else {
                (s[k / 2] / 256) as u8
            },
    )
}

/// The bytes of a `u16` list, high byte first.
pub open spec fn be_bytes(s: Seq<u16>) -> Seq<u8> {
    Seq::new(
        2 * s.len(),
        |k: int|
            if k % 2 == 0 {
                (s[k / 2] / 256) as u8
            } else {
                (s[k / 2] % 256) as u8
            },
    )
}

/// Relies on bytemuck::cast_slice: a `u16` slice seen as its bytes in
/// memory, two per value in the machine's byte order; the cast cannot fail
/// since `u8` has alignment 1 and divides every length.
#[verifier::external_body]
fn cast_index_bytes(indices: &[u16]) -> (r: Vec<u8>)
    ensures
        r@ == le_bytes(indices@) || r@ == be_bytes(indices@),
{
    bytemuck::cast_slice::<u16, u8>(indices).to_vec()
}

/// The contents of the index buffer for a figure's mesh: its indices as
/// 16-bit values in the machine's byte order (little-endian on the usual
/// targets), two bytes per index.
pub fn index_buffer_contents(figure: &Figure) -> (r: Vec<u8>)
    requires
        figure.is_drawable(),
    ensures
        r@ == le_bytes(indices_of(*figure)) || r@ == be_bytes(indices_of(*figure)),
        r@.len() == 2 * indices_of(*figure).len(),
{
    let indices = figure.get_indices();
    cast_index_bytes(indices.as_slice())
}

} // verus!
