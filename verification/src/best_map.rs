//! Bindings to the `best` crate's best-key accumulator, which the
//! shape-pair query uses to fold many candidate collisions into the single
//! earliest one. The accumulator holds at most one entry; `best_map_entry`
//! names what it currently holds.

use vstd::prelude::*;

verus! {

#[verifier::external_type_specification]
#[verifier::external_body]
#[verifier::reject_recursive_types(K)]
#[verifier::reject_recursive_types(V)]
pub struct ExBestMap<K, V>(best::BestMap<K, V>);

/// The accumulator's contents: empty, or the single held (key, value)
/// entry.
pub uninterp spec fn best_map_entry(m: best::BestMap<i64, usize>) -> Seq<(i64, usize)>;

/// Relies on best::BestMap::new: the accumulator starts empty.
#[verifier::external_body]
pub fn best_map_new() -> (r: best::BestMap<i64, usize>)
    ensures
        best_map_entry(r) == Seq::<(i64, usize)>::empty(),
{
    best::BestMap::new()
}

/// Relies on best::BestMap::insert_le: the new entry displaces the held
/// one exactly when the accumulator is empty or the new key is less than
/// or equal to the held key (so among equal keys the latest entry wins).
#[verifier::external_body]
pub fn best_map_insert_le(m: &mut best::BestMap<i64, usize>, key: i64, value: usize)
    ensures
        best_map_entry(*final(m)) == (if best_map_entry(*old(m)).len() == 0 {
            seq![(key, value)]
        } else if key <= best_map_entry(*old(m))[0].0 {
            seq![(key, value)]
        } else {
            best_map_entry(*old(m))
        }),
{
    m.insert_le(key, value)
}

/// Relies on best::BestMap::into_key_and_value: hands out the held entry,
/// or nothing when the accumulator is empty.
#[verifier::external_body]
pub fn best_map_into_key_and_value(m: best::BestMap<i64, usize>) -> (r: Option<(i64, usize)>)
    ensures
        r == (if best_map_entry(m).len() == 0 {
            None::<(i64, usize)>
        } else {
            Some((best_map_entry(m)[0].0, best_map_entry(m)[0].1))
        }),
{
    m.into_key_and_value()
}

} // verus!
