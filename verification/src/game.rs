//! Plain data of the game world.

use crate::collections::holds_values_of;
use crate::ids::{uuid_number, uuid_value};
use std::collections::HashMap;
use uuid::Uuid;
use vstd::prelude::*;
use vstd::std_specs::hash::spec_values_iter;
use vstd::std_specs::iter::IteratorSpec;
use vstd::string::StringExecFns;

verus! {

/// What stands behind an actor: a user's character or a scripted model.
#[derive(Debug, Clone)]
pub enum ActorType {
    Character { user_id: Uuid },
    Npc { model_id: String },
}

/// A named rectangular part of the world, measured in tiles.
#[derive(Debug, Clone)]
pub struct Area {
    pub id: String,
    pub name: String,
    pub width: u32,
    pub height: u32,
}

impl Area {
    /// The number of tiles in the area.
    pub open spec fn tiles(&self) -> nat {
        (self.width as nat) * (self.height as nat)
    }

    /// Whether the tile at column `x` and row `y` lies in the area.
    pub open spec fn holds(&self, x: u32, y: u32) -> bool {
        x < self.width && y < self.height
    }

    /// The number of tiles in the area.
    pub fn tile_count(&self) -> (count: u64)
        ensures
            count == self.tiles(),
    {
        let width: u64 = self.width as u64;
        let height: u64 = self.height as u64;
        assert(width * height <= u64::MAX) by (nonlinear_arith)
            requires
                width <= u32::MAX,
                height <= u32::MAX,
        ;
        width * height
    }

    /// Whether the tile at column `x` and row `y` lies in the area.
    pub fn contains_tile(&self, x: u32, y: u32) -> (inside: bool)
        ensures
            inside == self.holds(x, y),
    {
        x < self.width && y < self.height
    }
}

/// Someone or something that acts in the world. `P` is how the world
/// writes down where the actor stands.
#[derive(Debug, Clone)]
pub struct Actor<P> {
    pub id: Uuid,
    pub name: String,
    pub actor_type: ActorType,
    pub position: P,
    pub area_id: String,
    pub health: i32,
    pub max_health: i32,
    pub level: i32,
}

/// All actors and areas of a running game. Actors are kept under the
/// number of their id, areas under their id.
pub struct GameState<P> {
    pub actors: HashMap<u128, Actor<P>>,
    pub areas: HashMap<String, Area>,
}

/// The actors among `order` that stand in the area `area_id`, in the same order.
pub open spec fn standing_in<P>(order: Seq<&Actor<P>>, area_id: Seq<char>) -> Seq<&Actor<P>> {
    order.filter(|actor: &Actor<P>| actor.area_id@ == area_id)
}

impl<P> GameState<P> {
    /// Every actor is kept under the number of its own id.
    pub open spec fn well_formed(&self) -> bool {
        forall|key: u128| #[trigger]
            self.actors@.contains_key(key) ==> uuid_value(self.actors@[key].id) == key
    }

    /// A game without actors and areas.
    pub fn new() -> (state: Self)
        ensures
            state.actors@ == Map::<u128, Actor<P>>::empty(),
            state.well_formed(),
    {
        GameState { actors: HashMap::new(), areas: HashMap::new() }
    }

    /// Puts an actor into the game, in place of the actor with the same id
    /// if there is one.
    pub fn add_actor(&mut self, actor: Actor<P>)
        ensures
            final(self).actors@ == old(self).actors@.insert(uuid_value(actor.id), actor),
            final(self).areas == old(self).areas,
            old(self).well_formed() ==> final(self).well_formed(),
    {
        let key = uuid_number(&actor.id);
        self.actors.insert(key, actor);
    }

    /// Takes the actor with the given id out of the game and hands it back,
    /// or `None` where there is no such actor.
    pub fn remove_actor(&mut self, actor_id: &Uuid) -> (removed: Option<Actor<P>>)
        ensures
            final(self).actors@ == old(self).actors@.remove(uuid_value(*actor_id)),
            final(self).areas == old(self).areas,
            removed == if old(self).actors@.contains_key(uuid_value(*actor_id)) {
                Some(old(self).actors@[uuid_value(*actor_id)])
            } else {
                None
            },
            old(self).well_formed() ==> final(self).well_formed(),
    {
        let key = uuid_number(actor_id);
        self.actors.remove(&key)
    }

    /// The actors that stand in the area `area_id`: those of the game's
    /// actors whose area has exactly this id, in the order in which the
    /// game hands its actors out.
    pub fn get_actors_in_area(&self, area_id: &str) -> (found: Vec<&Actor<P>>)
        ensures
            exists|order: Seq<&Actor<P>>|
                #[trigger] holds_values_of(order, self.actors@) && found@ == standing_in(
                    order,
                    area_id@,
                ),
    {
        let wanted = String::from_str(area_id);
        let mut found: Vec<&Actor<P>> = Vec::new();
        let ghost pred = |actor: &Actor<P>| actor.area_id@ == area_id@;
        assert(Seq::<&Actor<P>>::empty().filter(pred) =~= Seq::<&Actor<P>>::empty()) by {
            reveal(Seq::filter);
        }
        for actor in iter: self.actors.values()
            invariant
                wanted@ == area_id@,
                pred == (|actor: &Actor<P>| actor.area_id@ == area_id@),
                iter.seq() == spec_values_iter(&self.actors).remaining(),
                found@ == iter.seq().take(iter.index()).filter(pred),
        {
            proof {
                let before = iter.seq().take(iter.index());
                let after = iter.seq().take(iter.index() + 1);
                assert(after.drop_last() =~= before);
                assert(after.last() == actor);
                reveal(Seq::filter);
            }
            if actor.area_id == wanted {
                found.push(actor);
            }
        }
        proof {
            let order = spec_values_iter(&self.actors).remaining();
            assert(order.take(order.len() as int) =~= order);
            assert(holds_values_of(order, self.actors@));
        }
        found
    }
}

impl<P> Default for GameState<P> {
    fn default() -> (state: Self)
        ensures
            state.actors@ == Map::<u128, Actor<P>>::empty(),
    {
        GameState::new()
    }
}

} // verus!
