use vstd::prelude::*;

verus! {

/// `i` is the first position at which `names` holds `n`.
pub open spec fn first_index_of(names: Seq<String>, n: Seq<char>, i: int) -> bool {
    &&& 0 <= i < names.len()
    &&& names[i]@ == n
    &&& forall|j: int| 0 <= j < i ==> names[j]@ != n
}

pub open spec fn names_hold(names: Seq<String>, n: Seq<char>) -> bool {
    exists|i: int| 0 <= i < names.len() && names[i]@ == n
}

/// The adapter that an attempt uses, as a position among the adapters found:
/// the configured one where it is present, else the first; none where no
/// adapter was found.
pub open spec fn adapter_choice(configured: Option<String>, names: Seq<String>) -> Option<int> {
    if names.len() == 0 {
        None
    } else if configured is Some && names_hold(names, configured->0@) {
        Some(choose|i: int| first_index_of(names, configured->0@, i))
    } else {
        Some(0)
    }
}

/// Picks the adapter to use among the enumerated adapter names.
pub fn select_adapter(configured: &Option<String>, found: &Vec<String>) -> (r: Option<usize>)
    ensures
        match r {
            Some(i) => adapter_choice(*configured, found@) == Some(i as int),
            None => adapter_choice(*configured, found@) is None,
        },
{
    if found.len() == 0 {
        return None;
    }
    match configured.as_ref() {
        Some(name) => {
            let mut i: usize = 0;
            while i < found.len()
                invariant
                    configured is Some,
                    configured->0@ == name@,
                    0 < found@.len(),
                    0 <= i <= found@.len(),
                    forall|j: int| 0 <= j < i ==> found@[j]@ != name@,
                decreases found@.len() - i,
            {
                if found[i] == *name {
                    proof {
                        assert(first_index_of(found@, name@, i as int));
                        assert(names_hold(found@, name@));
                        let c = choose|k: int| first_index_of(found@, name@, k);
                        assert(c == i as int) by {
                            if c < i as int {
                                assert(found@[c]@ != name@);
                            } else if c > i as int {
                                assert(found@[i as int]@ != name@);
                            }
                        }
                    }
                    return Some(i);
                }
                i = i + 1;
            }
            Some(0)
        },
        None => Some(0),
    }
}

} // verus!
