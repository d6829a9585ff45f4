//! The set of link values already emitted, held in a `hashbrown::HashSet`.
use vstd::prelude::*;

verus! {

/// A set of strings. Its contents are `seen_values(self)`.
#[verifier::external_body]
pub struct SeenSet {
    set: hashbrown::HashSet<String>,
}

/// The values that a `SeenSet` holds.
pub uninterp spec fn seen_values(s: SeenSet) -> Set<Seq<char>>;

impl SeenSet {
    /// Relies on `hashbrown::HashSet::new`: the new set is empty.
    #[verifier::external_body]
    pub(crate) fn new() -> (r: SeenSet)
        ensures
            seen_values(r) == Set::<Seq<char>>::empty(),
    {
        SeenSet { set: hashbrown::HashSet::new() }
    }

    /// Relies on `hashbrown::HashSet::insert`: it returns `true` exactly when
    /// the value was not present, and the value is present afterwards.
    /// `String`'s `Hash` and `Eq` both go by the characters.
    #[verifier::external_body]
    pub(crate) fn insert(&mut self, v: String) -> (r: bool)
        ensures
            r == !seen_values(*old(self)).contains(v@),
            seen_values(*final(self)) == seen_values(*old(self)).insert(v@),
    {
        self.set.insert(v)
    }
}

} // verus!
