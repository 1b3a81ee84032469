//! Name-list helpers shared by the extension and layer checks.
use vstd::prelude::*;

verus! {

/// The character views of a list of strings.
pub open spec fn names_view(names: Seq<String>) -> Seq<Seq<char>> {
    names.map_values(|s: String| s@)
}

/// The names of `required`, in order, that do not occur in `available`.
pub open spec fn missing_names(available: Seq<Seq<char>>, required: Seq<Seq<char>>) -> Seq<Seq<char>>
    decreases required.len(),
{
    if required.len() == 0 {
        Seq::empty()
    } else {
        let rest = missing_names(available, required.drop_last());
        if available.contains(required.last()) {
            rest
        } else {
            rest.push(required.last())
        }
    }
}

/// Whether `name` occurs in `names`.
pub fn contains_name(names: &Vec<String>, name: &String) -> (r: bool)
    ensures
        r == names_view(names@).contains(name@),
{
    let mut j: usize = 0;
    while j < names.len()
        invariant
            j <= names.len(),
            forall|k: int| 0 <= k < j ==> names@[k]@ != name@,
        decreases names.len() - j,
    {
        if names[j] == *name {
            assert(names_view(names@)[j as int] == name@);
            return true;
        }
        j = j + 1;
    }
    proof {
        if names_view(names@).contains(name@) {
            let k = choose|k: int| 0 <= k < names_view(names@).len() && names_view(names@)[k] == name@;
            assert(names@[k]@ == name@);
        }
    }
    false
}

/// Checks whether every name of `required` occurs in `available`.
///
/// Returns whether some are missing, and the missing names in the order of
/// `required`.
pub fn contains_required(available: &Vec<String>, required: &Vec<String>) -> (r: (bool, Vec<String>))
    ensures
        names_view(r.1@) == missing_names(names_view(available@), names_view(required@)),
        r.0 == (r.1@.len() > 0),
{
    let mut missing: Vec<String> = Vec::new();
    let mut i: usize = 0;
    while i < required.len()
        invariant
            i <= required.len(),
            names_view(missing@) == missing_names(names_view(available@), names_view(required@).take(i as int)),
        decreases required.len() - i,
    {
        let ghost before = missing@;
        let present = contains_name(available, &required[i]);
        proof {
            let req = names_view(required@);
            assert(req.take(i + 1).drop_last() == req.take(i as int));
            assert(req.take(i + 1).last() == required@[i as int]@);
        }
        if !present {
            missing.push(required[i].clone());
            assert(names_view(missing@) == names_view(before).push(required@[i as int]@));
        }
        i = i + 1;
    }
    assert(names_view(required@).take(required.len() as int) == names_view(required@));
    let any = missing.len() > 0;
    (any, missing)
}

} // verus!
