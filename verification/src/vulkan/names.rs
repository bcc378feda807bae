use vstd::prelude::*;

verus! {

/// The character sequences of a list of names.
pub open spec fn name_seqs(names: Seq<String>) -> Seq<Seq<char>> {
    names.map_values(|s: String| s@)
}

/// Every name of `wanted` occurs among `available`.
pub open spec fn all_present(available: Seq<String>, wanted: Seq<Seq<char>>) -> bool {
    forall|j: int| 0 <= j < wanted.len() ==> name_seqs(available).contains(#[trigger] wanted[j])
}

/// Whether `name` occurs in `available`.
pub fn contains_name(available: &Vec<String>, name: &String) -> (r: bool)
    ensures
        r == name_seqs(available@).contains(name@),
{
    let mut i: usize = 0;
    while i < available.len()
        invariant
            i <= available.len(),
            forall|k: int| 0 <= k < i ==> available@[k]@ != name@,
        decreases available.len() - i,
    {
        if available[i] == *name {
            assert(name_seqs(available@)[i as int] == name@);
            return true;
        }
        i = i + 1;
    }
    proof {
        if name_seqs(available@).contains(name@) {
            let k = choose|k: int|
                0 <= k < name_seqs(available@).len() && name_seqs(available@)[k] == name@;
            assert(available@[k]@ == name@);
        }
    }
    false
}

/// Whether every name of `required` occurs among `available`.
pub fn contains_all(available: &Vec<String>, required: &Vec<String>) -> (r: bool)
    ensures
        r == all_present(available@, name_seqs(required@)),
{
    let mut j: usize = 0;
    while j < required.len()
        invariant
            j <= required.len(),
            forall|k: int| 0 <= k < j ==> name_seqs(available@).contains(#[trigger] name_seqs(required@)[k]),
        decreases required.len() - j,
    {
        if !contains_name(available, &required[j]) {
            assert(name_seqs(required@)[j as int] == required@[j as int]@);
            return false;
        }
        assert(name_seqs(required@)[j as int] == required@[j as int]@);
        j = j + 1;
    }
    true
}

} // verus!
