//! The null-mask combinator: merges a per-row "this row selects the
//! requested variant" mask with a child array's own validity bitmap.  A row
//! of the combined bitmap is valid iff it is selected and the child either
//! has no bitmap or is valid there.

use vstd::prelude::*;

verus! {

/// The element-wise mask of rows whose discriminant equals `tid`.
pub fn selected_mask(type_ids: &Vec<i8>, tid: i8) -> (r: Vec<bool>)
    ensures
        r@.len() == type_ids@.len(),
        forall|i: int| 0 <= i < type_ids@.len() ==> r@[i] == (type_ids@[i] == tid),
{
    let n: usize = type_ids.len();
    let mut r: Vec<bool> = Vec::new();
    let mut i: usize = 0;
    while i < n
        invariant
            n == type_ids@.len(),
            i <= n,
            r@.len() == i,
            forall|k: int| 0 <= k < i ==> r@[k] == (type_ids@[k] == tid),
        decreases n - i,
    {
        r.push(type_ids[i] == tid);
        i = i + 1;
    }
    r
}

/// The logical AND of a selection mask with an optional validity bitmap,
/// an absent bitmap counting as all-valid.
pub fn combine_validity(selected: &Vec<bool>, validity: &Option<Vec<bool>>) -> (r: Vec<bool>)
    requires
        match validity {
            Option::None => true,
            Option::Some(v) => v@.len() == selected@.len(),
        },
    ensures
        r@.len() == selected@.len(),
        forall|i: int|
            0 <= i < selected@.len() ==> r@[i] == (selected@[i] && (match validity {
                Option::None => true,
                Option::Some(v) => v@[i],
            })),
{
    let n: usize = selected.len();
    let mut r: Vec<bool> = Vec::new();
    let mut i: usize = 0;
    while i < n
        invariant
            n == selected@.len(),
            match validity {
                Option::None => true,
                Option::Some(v) => v@.len() == selected@.len(),
            },
            i <= n,
            r@.len() == i,
            forall|k: int|
                0 <= k < i ==> r@[k] == (selected@[k] && (match validity {
                    Option::None => true,
                    Option::Some(v) => v@[k],
                })),
        decreases n - i,
    {
        let keep: bool = match validity {
            Option::None => selected[i],
            Option::Some(v) => selected[i] && v[i],
        };
        r.push(keep);
        i = i + 1;
    }
    r
}

} // verus!
