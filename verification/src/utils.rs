//! Turning a mesh inside out, so that a box is seen from within.

use vstd::prelude::*;

verus! {

/// The index list of a mesh with every triangle turned round: in each full
/// group of three indices the second and the third change places. Indices
/// left over after the last full group stay.
pub open spec fn flipped_winding<T>(indices: Seq<T>) -> Seq<T> {
    Seq::new(
        indices.len(),
        |i: int|
            if i >= 3 * (indices.len() / 3) {
                indices[i]
            } else if i % 3 == 1 {
                indices[i + 1]
            } else if i % 3 == 2 {
                indices[i - 1]
            } else {
                indices[i]
            },
    )
}

/// Turns every triangle of an index list round, so that its other side faces
/// the viewer.
pub fn flip_winding<T: Copy>(indices: &mut Vec<T>)
    ensures
        final(indices)@ == flipped_winding(old(indices)@),
{
    let n: usize = indices.len();
    let triangles: usize = n / 3;
    let mut t: usize = 0;
    while t < triangles
        invariant
            0 <= t <= triangles,
            triangles == n / 3,
            n == indices@.len(),
            n == old(indices)@.len(),
            forall|i: int|
                0 <= i < 3 * t ==> #[trigger] indices@[i] == flipped_winding(old(indices)@)[i],
            forall|i: int| 3 * t <= i < n ==> #[trigger] indices@[i] == old(indices)@[i],
        decreases triangles - t,
    {
        let second: T = indices[3 * t + 1];
        let third: T = indices[3 * t + 2];
        indices[3 * t + 1] = third;
        indices[3 * t + 2] = second;
        t = t + 1;
    }
    proof {
        assert(indices@ =~= flipped_winding(old(indices)@));
    }
}

/// Flipping the winding twice gives the index list back.
pub proof fn lemma_flip_winding_twice<T>(indices: Seq<T>)
    ensures
        flipped_winding(flipped_winding(indices)) == indices,
{
    assert(flipped_winding(flipped_winding(indices)) =~= indices);
}

} // verus!
