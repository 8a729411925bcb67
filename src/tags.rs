//! Tag sets, held in ahash's `AHashSet<String>`.
use vstd::prelude::*;

verus! {

/// ahash's `AHashSet`, held opaque; its contents are `tag_contents`.
#[verifier::external_type_specification]
#[verifier::external_body]
#[verifier::reject_recursive_types(T)]
#[verifier::reject_recursive_types(S)]
pub struct ExAHashSet<T, S>(ahash::AHashSet<T, S>);

/// ahash's `RandomState`, the hasher of an `AHashSet`, held opaque.
#[verifier::external_type_specification]
#[verifier::external_body]
pub struct ExRandomState(ahash::RandomState);

/// The tags that a tag set holds.
pub uninterp spec fn tag_contents(s: ahash::AHashSet<String>) -> Set<Seq<char>>;

/// Relies on `AHashSet::new`: a new set is empty. (It seeds its hasher from
/// the system's random source, and panics only if that source fails, which
/// no argument decides.)
#[verifier::external_body]
pub(crate) fn empty_tags() -> (r: ahash::AHashSet<String>)
    ensures
        tag_contents(r) == Set::<Seq<char>>::empty(),
{
    ahash::AHashSet::new()
}

/// Relies on `HashSet::insert` (through `AHashSet`'s `DerefMut`): the tag is
/// added, and `true` comes back when it was not there before.
#[verifier::external_body]
pub(crate) fn insert_tag(s: &mut ahash::AHashSet<String>, t: String) -> (r: bool)
    ensures
        tag_contents(*final(s)) == tag_contents(*old(s)).insert(t@),
        r == !tag_contents(*old(s)).contains(t@),
{
    s.insert(t)
}

/// Relies on `HashSet::contains` (through `AHashSet`'s `Deref`): membership of
/// a tag, compared by its characters.
#[verifier::external_body]
pub(crate) fn has_tag(s: &ahash::AHashSet<String>, t: &str) -> (r: bool)
    ensures
        r == tag_contents(*s).contains(t@),
{
    s.contains(t)
}

/// Relies on `HashSet::iter` (through `AHashSet`'s `Deref`): each tag once,
/// in an order that the hasher decides.
#[verifier::external_body]
pub(crate) fn tag_list(s: &ahash::AHashSet<String>) -> (r: Vec<String>)
    ensures
        forall|i: int, j: int| 0 <= i < j < r.len() ==> r@[i]@ != r@[j]@,
        forall|t: Seq<char>| tag_contents(*s).contains(t) <==> exists|i: int| 0 <= i < r.len() && r@[i]@ == t,
{
    s.iter().cloned().collect()
}

} // verus!

verus! {

/// Relies on `Clone` for `AHashSet`: the copy holds the same tags.
#[verifier::external_body]
pub(crate) fn copy_tags(s: &ahash::AHashSet<String>) -> (r: ahash::AHashSet<String>)
    ensures
        tag_contents(r) == tag_contents(*s),
{
    s.clone()
}

} // verus!
