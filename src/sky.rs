use vstd::prelude::*;

verus! {

/// How many indices the sky cube is drawn with: two triangles on each of six faces.
pub const SKY_INDEX_COUNT: u32 = 36;

/// How many corners the sky cube has; the vertex shader derives each
/// corner's position from its index, so there is no vertex buffer.
pub const SKY_CORNER_COUNT: u16 = 8;

/// The sky cube's triangles, two per face, each face listed by its corners
/// in clockwise order: front (0 1 2 3), right (1 5 6 2), back (5 4 7 6),
/// left (4 0 3 7), top (3 2 6 7) and bottom (4 5 1 0).
pub open spec fn sky_cube() -> Seq<u16> {
    seq![
        0, 1, 2, 0, 2, 3,
        1, 5, 6, 1, 6, 2,
        5, 4, 7, 5, 7, 6,
        4, 0, 3, 4, 3, 7,
        3, 2, 6, 3, 6, 7,
        4, 5, 1, 4, 1, 0,
    ]
}

/// The corners of the face that a quad `a b c d` covers, as two triangles
/// `a b c` and `a c d`.
fn push_face(out: &mut Vec<u16>, a: u16, b: u16, c: u16, d: u16)
    ensures
        final(out)@ == old(out)@ + seq![a, b, c, a, c, d],
{
    out.push(a);
    out.push(b);
    out.push(c);
    out.push(a);
    out.push(c);
    out.push(d);
    assert(out@ =~= old(out)@ + seq![a, b, c, a, c, d]);
}

/// The index buffer contents of the sky cube.
pub fn sky_cube_indices() -> (r: Vec<u16>)
    ensures
        r@ == sky_cube(),
        r@.len() == SKY_INDEX_COUNT,
        forall|i: int| 0 <= i < r@.len() ==> #[trigger] r@[i] < SKY_CORNER_COUNT,
{
    let mut out: Vec<u16> = Vec::new();
    push_face(&mut out, 0, 1, 2, 3);
    push_face(&mut out, 1, 5, 6, 2);
    push_face(&mut out, 5, 4, 7, 6);
    push_face(&mut out, 4, 0, 3, 7);
    push_face(&mut out, 3, 2, 6, 7);
    push_face(&mut out, 4, 5, 1, 0);
    assert(out@ =~= sky_cube());
    assert forall|i: int| 0 <= i < out@.len() implies #[trigger] out@[i] < SKY_CORNER_COUNT by {
        assert(0 <= i < 36);
    }
    out
}

} // verus!
