//! What the farm decides on a frame: whether a pig is bought, and whether a
//! pig is sold.

use crate::money::{Money, PIG_COST, PIG_SALE_VALUE};
use crate::pig::{Pig, Reading, PIG_LIFETIME_NANOS};
use bevy::transform::components::Transform;
use vstd::prelude::*;

verus! {

/// The engine's `bevy::transform::components::Transform`: where an entity
/// stands. Nothing is known of its inside here; it is only handed on.
#[verifier::external_type_specification]
#[verifier::external_body]
pub struct ExTransform(bevy::transform::components::Transform);

/// A pig that has just been bought, and the place to put it.
#[derive(Debug, PartialEq)]
pub struct NewPig {
    pub pig: Pig,
    pub transform: Transform,
}

/// Buys one pig when the player asks for one.
///
/// With enough money the purse is charged the cost of a pig, and the new pig
/// is handed back, its lifetime yet to run, to stand where the player stands.
/// Without, nothing happens.
pub fn spawn_pig(money: &mut Money, player: Transform) -> (bought: Option<NewPig>)
    ensures
        bought is Some <==> old(money).affords_pig(),
        bought matches Some(new_pig) ==> {
            &&& new_pig.transform == player
            &&& new_pig.pig.lifetime@ == Reading::fresh(PIG_LIFETIME_NANOS as nat)
            &&& final(money).0 == old(money).0 - PIG_COST
        },
        bought is None ==> *final(money) == *old(money),
{
    if money.pay_for_pig() {
        Some(NewPig { pig: Pig::new(), transform: player })
    } else {
        None
    }
}

/// Ages one pig by the time of a frame and sells it if its lifetime has run
/// out.
///
/// Returns whether the pig was sold; a sold pig is to be taken off the farm.
/// The sale adds the sale value to the purse, and nothing else touches it.
pub fn pig_lifetime(pig: &mut Pig, delta_nanos: u64, money: &mut Money) -> (sold: bool)
    requires
        old(pig).lifetime@.finishes_within(delta_nanos as nat) ==> old(money).0 + PIG_SALE_VALUE
            <= u64::MAX,
    ensures
        sold == old(pig).lifetime@.finishes_within(delta_nanos as nat),
        final(pig).lifetime@ == old(pig).lifetime@.after(delta_nanos as nat),
        sold ==> final(money).0 == old(money).0 + PIG_SALE_VALUE,
        !sold ==> *final(money) == *old(money),
{
    let finished = pig.lifetime.tick(delta_nanos);
    if finished {
        money.bank_pig_sale();
    }
    finished
}

} // verus!
