use vstd::prelude::*;

verus! {

/// Triangle `k` of a strip: odd triangles swap their first two corners so
/// that every triangle keeps the same winding.
pub open spec fn strip_triangle_ok(r: Seq<u32>, s: Seq<u32>, k: int) -> bool {
    if k % 2 == 0 {
        r[3 * k] == s[k] && r[3 * k + 1] == s[k + 1] && r[3 * k + 2] == s[k + 2]
    } else {
        r[3 * k] == s[k + 1] && r[3 * k + 1] == s[k] && r[3 * k + 2] == s[k + 2]
    }
}

/// `r` is the triangle list of the strip `s` (which has at least three indices).
pub open spec fn is_strip_list(r: Seq<u32>, s: Seq<u32>) -> bool {
    &&& r.len() == 3 * (s.len() - 2)
    &&& forall|k: int| 0 <= k < s.len() - 2 ==> #[trigger] strip_triangle_ok(r, s, k)
}

/// `r` is the triangle list of the fan `s` (which has at least three indices):
/// every triangle starts at the fan's first index.
pub open spec fn is_fan_list(r: Seq<u32>, s: Seq<u32>) -> bool {
    &&& r.len() == 3 * (s.len() - 2)
    &&& forall|k: int|
        0 <= k < s.len() - 2 ==> #[trigger] r[3 * k] == s[0] && r[3 * k + 1] == s[k + 1] && r[3 * k + 2] == s[k + 2]
}

/// Turns a triangle strip into a triangle list. Fewer than three indices
/// make no triangle and are returned as they are.
pub fn convert_indices_from_strip(indices: Vec<u32>) -> (r: Vec<u32>)
    ensures
        indices@.len() < 3 ==> r@ == indices@,
        indices@.len() >= 3 ==> is_strip_list(r@, indices@),
{
    if indices.len() < 3 {
        return indices;
    }
    let mut new_indices: Vec<u32> = Vec::new();
    let mut j: usize = 2;
    while j < indices.len()
        invariant
            indices@.len() >= 3,
            2 <= j <= indices@.len(),
            new_indices@.len() == 3 * (j - 2),
            forall|k: int| 0 <= k < j - 2 ==> #[trigger] strip_triangle_ok(new_indices@, indices@, k),
        decreases indices@.len() - j,
    {
        let ghost prev = new_indices@;
        let first = indices[j - 2];
        let second = indices[j - 1];
        if j % 2 == 0 {
            new_indices.push(first);
            new_indices.push(second);
        } else {
            new_indices.push(second);
            new_indices.push(first);
        }
        new_indices.push(indices[j]);
        proof {
            let k = j - 2;
            assert(k % 2 == 0 <==> j % 2 == 0);
            assert(strip_triangle_ok(new_indices@, indices@, k as int));
            assert forall|m: int| 0 <= m < j - 1 implies #[trigger] strip_triangle_ok(new_indices@, indices@, m) by {
                if m < k {
                    assert(strip_triangle_ok(prev, indices@, m));
                    assert(new_indices@[3 * m] == prev[3 * m]);
                    assert(new_indices@[3 * m + 1] == prev[3 * m + 1]);
                    assert(new_indices@[3 * m + 2] == prev[3 * m + 2]);
                }
            }
        }
        j = j + 1;
    }
    new_indices
}

/// Turns a triangle fan into a triangle list. Fewer than three indices
/// make no triangle and are returned as they are.
pub fn convert_indices_from_fan(indices: Vec<u32>) -> (r: Vec<u32>)
    ensures
        indices@.len() < 3 ==> r@ == indices@,
        indices@.len() >= 3 ==> is_fan_list(r@, indices@),
{
    if indices.len() < 3 {
        return indices;
    }
    let mut new_indices: Vec<u32> = Vec::new();
    let first = indices[0];
    let mut j: usize = 2;
    while j < indices.len()
        invariant
            indices@.len() >= 3,
            first == indices@[0],
            2 <= j <= indices@.len(),
            new_indices@.len() == 3 * (j - 2),
            forall|k: int|
                0 <= k < j - 2 ==> #[trigger] new_indices@[3 * k] == indices@[0] && new_indices@[3 * k + 1]
                    == indices@[k + 1] && new_indices@[3 * k + 2] == indices@[k + 2],
        decreases indices@.len() - j,
    {
        let ghost prev = new_indices@;
        new_indices.push(first);
        new_indices.push(indices[j - 1]);
        new_indices.push(indices[j]);
        proof {
            assert forall|m: int| 0 <= m < j - 1 implies #[trigger] new_indices@[3 * m] == indices@[0]
                && new_indices@[3 * m + 1] == indices@[m + 1] && new_indices@[3 * m + 2] == indices@[m + 2] by {
                if m < j - 2 {
                    assert(prev[3 * m] == indices@[0]);
                    assert(new_indices@[3 * m] == prev[3 * m]);
                    assert(new_indices@[3 * m + 1] == prev[3 * m + 1]);
                    assert(new_indices@[3 * m + 2] == prev[3 * m + 2]);
                }
            }
        }
        j = j + 1;
    }
    new_indices
}

} // verus!
