//! Lookup by identifier in a fixture set.

use vstd::prelude::*;

verus! {

/// A record that may carry a numeric identifier.
pub trait Identified {
    spec fn spec_id(&self) -> Option<i32>;

    fn record_id(&self) -> (r: Option<i32>)
        ensures
            r == self.spec_id(),
    ;
}

/// Whether some record of `s` carries identifier `id`.
pub open spec fn has_id<T: Identified>(s: Seq<T>, id: i32) -> bool {
    exists|i: int| 0 <= i < s.len() && #[trigger] s[i].spec_id() == Some(id)
}

/// Whether `i` is the last position of `s` whose record carries `id`.
pub open spec fn is_last_with_id<T: Identified>(s: Seq<T>, id: i32, i: int) -> bool {
    &&& 0 <= i < s.len()
    &&& s[i].spec_id() == Some(id)
    &&& forall|j: int| i < j < s.len() ==> #[trigger] s[j].spec_id() != Some(id)
}

/// The position of the last record of `items` that carries `id`, if any.
pub fn last_with_id<T: Identified>(items: &Vec<T>, id: i32) -> (r: Option<usize>)
    ensures
        match r {
            Some(i) => is_last_with_id(items@, id, i as int),
            None => !has_id(items@, id),
        },
{
    let mut i: usize = items.len();
    while i > 0
        invariant
            i <= items@.len(),
            forall|j: int| i <= j < items@.len() ==> #[trigger] items@[j].spec_id() != Some(id),
        decreases i,
    {
        i = i - 1;
        if items[i].record_id() == Some(id) {
            return Some(i);
        }
    }
    None
}

/// Where exactly one record carries `id`, the lookup finds that record and no
/// other.
pub proof fn lemma_unique_id<T: Identified>(s: Seq<T>, id: i32, i: int)
    requires
        0 <= i < s.len(),
        s[i].spec_id() == Some(id),
        forall|j: int| 0 <= j < s.len() && j != i ==> #[trigger] s[j].spec_id() != Some(id),
    ensures
        is_last_with_id(s, id, i),
        forall|k: int| #[trigger] is_last_with_id(s, id, k) ==> k == i,
{
}

} // verus!
