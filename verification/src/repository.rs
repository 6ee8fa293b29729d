use vstd::prelude::*;

verus! {

/// Whether the first components of `path` are exactly `base`.
///
/// This is the decision behind a repository wrapper's two membership
/// questions — does this repository manage that file, and does that file lie
/// inside the repository's own metadata directory — once both paths have been
/// canonicalized and split into components by the caller.
pub open spec fn is_component_prefix(base: Seq<String>, path: Seq<String>) -> bool {
    &&& base.len() <= path.len()
    &&& forall|i: int| 0 <= i < base.len() ==> path[i]@ == base[i]@
}

/// Decide whether `path` starts with `base`, component by component.
pub fn path_starts_with(base: &Vec<String>, path: &Vec<String>) -> (r: bool)
    ensures
        r == is_component_prefix(base@, path@),
{
    if base.len() > path.len() {
        return false;
    }
    let mut i: usize = 0;
    while i < base.len()
        invariant
            0 <= i <= base.len() <= path@.len(),
            forall|j: int| 0 <= j < i ==> path@[j]@ == base@[j]@,
        decreases base@.len() - i,
    {
        if !(base[i] == path[i]) {
            return false;
        }
        i = i + 1;
    }
    true
}

/// The content recorded for `path` in an index listing: the text of the first
/// entry whose key equals `path`, if any.
pub open spec fn index_text_of(entries: Seq<(String, String)>, path: Seq<char>) -> Option<
    Seq<char>,
>
    decreases entries.len(),
{
    if entries.len() == 0 {
        None
    } else if entries[0].0@ == path {
        Some(entries[0].1@)
    } else {
        index_text_of(entries.skip(1), path)
    }
}

/// Look up the text held for `path` in an index listing of path/content
/// pairs, as a repository's head-text query does over its in-memory index.
pub fn index_lookup(entries: &Vec<(String, String)>, path: &String) -> (r: Option<String>)
    ensures
        r is Some <==> index_text_of(entries@, path@) is Some,
        r is Some ==> Some(r.unwrap()@) == index_text_of(entries@, path@),
{
    let mut i: usize = 0;
    proof {
        assert(entries@.skip(0) =~= entries@);
    }
    while i < entries.len()
        invariant
            0 <= i <= entries@.len(),
            index_text_of(entries@, path@) == index_text_of(entries@.skip(i as int), path@),
        decreases entries@.len() - i,
    {
        if entries[i].0 == *path {
            proof {
                assert(entries@.skip(i as int)[0] == entries@[i as int]);
            }
            return Some(entries[i].1.clone());
        }
        proof {
            assert(entries@.skip(i as int)[0] == entries@[i as int]);
            assert(entries@.skip(i as int).skip(1) =~= entries@.skip(i as int + 1));
        }
        i = i + 1;
    }
    proof {
        assert(entries@.skip(i as int) =~= Seq::<(String, String)>::empty());
    }
    None
}

} // verus!
