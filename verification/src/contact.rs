//! The contact fact: whether the vehicle touches the water, read from the
//! set of entities that the collision system reports as touching it.

use avian3d::prelude::CollidingEntities;
use bevy::ecs::entity::Entity;
use vstd::prelude::*;

verus! {

/// Avian's `CollidingEntities`, the set of entities that touch an entity,
/// taken as it is.
#[verifier::external_type_specification]
#[verifier::external_body]
pub struct ExCollidingEntities(CollidingEntities);

/// The entities that a `CollidingEntities` holds, each as the bits that
/// `Entity::to_bits` gives for it.
pub uninterp spec fn colliding_ids(colliding: CollidingEntities) -> Set<u64>;

/// Looks an entity up in a `CollidingEntities`, which is a hash set of
/// entities: calls `Entity::try_from_bits` and then the set's `contains`.
///
/// The result tells whether the set holds the entity whose bits are `id`.
/// Bits that stand for no entity are the bits of no member of the set, and
/// the lookup is then answered with `false`.
#[verifier::external_body]
pub(crate) fn touches(colliding: &CollidingEntities, id: u64) -> (held: bool)
    ensures
        held == colliding_ids(*colliding).contains(id),
{
    match Entity::try_from_bits(id) {
        Ok(entity) => colliding.contains(&entity),
        Err(_) => false,
    }
}

} // verus!
