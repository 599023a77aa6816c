//! Short names, and the bidirectional short-name map used by presenter
//! state.
//!
//! The map is `bimap::BiHashMap`, which keeps a forward and a reverse
//! hash map in sync so that each short name pairs with exactly one
//! position and each position with exactly one short name.  Verified code
//! reaches it only through the wrappers here, whose contracts speak of
//! the forward mapping [`bimap_fwd`].

use vstd::prelude::*;

verus! {

/// Type alias for short names.
pub type Name = String;

/// Type alias for bidirectional maps from short names to positions.
pub type ShortMap = bimap::BiHashMap<String, usize>;

#[verifier::external_type_specification]
#[verifier::external_body]
#[verifier::reject_recursive_types(L)]
#[verifier::reject_recursive_types(R)]
#[verifier::reject_recursive_types(LS)]
#[verifier::reject_recursive_types(RS)]
pub struct ExBiHashMap<L, R, LS, RS>(bimap::BiHashMap<L, R, LS, RS>);

/// The forward mapping a bidirectional short-name map holds: which
/// position each contained short name pairs with.
pub uninterp spec fn bimap_fwd(m: ShortMap) -> Map<Seq<char>, usize>;

/// Spec-level access to the forward mapping of a short-name map.
pub trait ShortMapFwd {
    /// The forward mapping the map holds.
    spec fn fwd(&self) -> Map<Seq<char>, usize>;
}

impl ShortMapFwd for ShortMap {
    open spec fn fwd(&self) -> Map<Seq<char>, usize> {
        bimap_fwd(*self)
    }
}

/// Relies on `bimap::BiHashMap::new`: a fresh map contains no pairs.
#[verifier::external_body]
pub fn bimap_new() -> (r: ShortMap)
    ensures
        forall|k: Seq<char>| !r.fwd().dom().contains(k),
{
    bimap::BiHashMap::new()
}

/// Relies on `bimap::BiHashMap::insert`: it removes any pair sharing the
/// new pair's left value and any pair sharing its right value, then
/// inserts the pair, so that the map stays one-to-one.
#[verifier::external_body]
pub fn bimap_insert(m: &mut ShortMap, left: String, right: usize)
    ensures
        final(m).fwd() == Map::new(
            |k: Seq<char>|
                k == left@ || (bimap_fwd(*old(m)).dom().contains(k) && k != left@ && bimap_fwd(
                    *old(m),
                )[k] != right),
            |k: Seq<char>|
                if k == left@ {
                    right
                } else {
                    bimap_fwd(*old(m))[k]
                },
        ),
{
    let _ = m.insert(left, right);
}

/// Relies on `bimap::BiHashMap::get_by_left`: it returns the right value
/// paired with the given left value, if the pair is in the map.
#[verifier::external_body]
pub fn bimap_get_by_left(m: &ShortMap, left: &String) -> (r: Option<usize>)
    ensures
        r == (if m.fwd().dom().contains(left@) {
            Some(m.fwd()[left@])
        } else {
            None::<usize>
        }),
{
    m.get_by_left(left).copied()
}

} // verus!
