//! Lists of strings, seen as sequences of character sequences.

use vstd::prelude::*;

verus! {

/// The views of the strings of a list, in order.
pub open spec fn views(list: Seq<String>) -> Seq<Seq<char>> {
    list.map_values(|text: String| text@)
}

/// Whether `wanted` is one of the strings of `list`.
pub fn is_listed(list: &Vec<String>, wanted: &String) -> (listed: bool)
    ensures
        listed == views(list@).contains(wanted@),
{
    let mut i: usize = 0;
    while i < list.len()
        invariant
            i <= list.len(),
            forall|j: int| 0 <= j < i ==> views(list@)[j] != wanted@,
        decreases list.len() - i,
    {
        if list[i] == *wanted {
            assert(views(list@)[i as int] == wanted@);
            return true;
        }
        i += 1;
    }
    false
}

} // verus!
