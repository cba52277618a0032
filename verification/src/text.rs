use vstd::prelude::*;

verus! {

/// A copy of a list of strings.
pub fn copy_texts(list: &Vec<String>) -> (r: Vec<String>)
    ensures
        r@ == list@,
{
    let mut r: Vec<String> = Vec::new();
    let mut i: usize = 0;
    while i < list.len()
        invariant
            i <= list.len(),
            r@.len() == i,
            forall|j: int| 0 <= j < i ==> r@[j] == list@[j],
        decreases list.len() - i,
    {
        r.push(list[i].clone());
        i += 1;
    }
    assert(r@ =~= list@);
    r
}

} // verus!
