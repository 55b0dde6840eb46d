use vstd::prelude::*;

verus! {

/// The `i`th whole triangle of a flat index list, as 32-bit indices.
pub open spec fn triangle_at(indices: Seq<u32>, i: int) -> Seq<u32> {
    seq![indices[3 * i], indices[3 * i + 1], indices[3 * i + 2]]
}

/// The index list with every index widened to 32 bits.
pub open spec fn widened(indices: Seq<u16>) -> Seq<u32> {
    indices.map_values(|x: u16| x as u32)
}

pub struct BvhManager;

impl BvhManager {
    /// Groups a flat list of 32-bit vertex indices into triangles, three at a
    /// time; trailing indices that do not make a whole triangle are dropped.
    pub fn triangles_from_u32(indices: &Vec<u32>) -> (triangles: Vec<[u32; 3]>)
        ensures
            triangles@.len() == indices@.len() / 3,
            forall|i: int|
                0 <= i < triangles@.len() ==> #[trigger] triangles@[i]@ == triangle_at(
                    indices@,
                    i,
                ),
    {
        let count = indices.len() / 3;
        let mut triangles: Vec<[u32; 3]> = Vec::new();
        let mut i: usize = 0;
        while i < count
            invariant
                count == indices@.len() / 3,
                i <= count,
                triangles@.len() == i,
                forall|j: int| 0 <= j < i ==> #[trigger] triangles@[j]@ == triangle_at(indices@, j),
            decreases count - i,
        {
            assert(3 * i + 3 <= indices.len()) by (nonlinear_arith)
                requires
                    i < count,
                    count == indices.len() / 3,
            ;
            let triangle = [indices[3 * i], indices[3 * i + 1], indices[3 * i + 2]];
            assert(triangle@ =~= triangle_at(indices@, i as int));
            triangles.push(triangle);
            i += 1;
        }
        triangles
    }

    /// Groups a flat list of 16-bit vertex indices into triangles of 32-bit
    /// indices, three at a time; trailing indices that do not make a whole
    /// triangle are dropped.
    pub fn triangles_from_u16(indices: &Vec<u16>) -> (triangles: Vec<[u32; 3]>)
        ensures
            triangles@.len() == indices@.len() / 3,
            forall|i: int|
                0 <= i < triangles@.len() ==> #[trigger] triangles@[i]@ == triangle_at(
                    widened(indices@),
                    i,
                ),
    {
        let count = indices.len() / 3;
        let mut triangles: Vec<[u32; 3]> = Vec::new();
        let mut i: usize = 0;
        while i < count
            invariant
                count == indices@.len() / 3,
                i <= count,
                triangles@.len() == i,
                forall|j: int|
                    0 <= j < i ==> #[trigger] triangles@[j]@ == triangle_at(widened(indices@), j),
            decreases count - i,
        {
            assert(3 * i + 3 <= indices.len()) by (nonlinear_arith)
                requires
                    i < count,
                    count == indices.len() / 3,
            ;
            let triangle = [
                indices[3 * i] as u32,
                indices[3 * i + 1] as u32,
                indices[3 * i + 2] as u32,
            ];
            assert(triangle@ =~= triangle_at(widened(indices@), i as int));
            triangles.push(triangle);
            i += 1;
        }
        triangles
    }
}

} // verus!
