//! Entity component storage for the client/server side of the engine.

use vstd::prelude::*;

verus! {

pub type ClientId = u32;

pub type EntityId = usize;

pub type GhostId = u32;

pub enum MultiplayerMode {
    DeterministicRollback,
    ClientServer,
}

pub struct WorldSettings {
    pub max_clients: usize,
    pub max_entities: usize,
}

/// A kind of data that entities may have.
pub trait Component: Sized {
    fn default(world_settings: &WorldSettings) -> Self;
}

/// A generic component store.
pub struct ComponentStore<C> {
    /// Shrunken array of components, with the active ones at the beginning. Not guaranteed
    /// to be in order of entity ids.
    components: Vec<(EntityId, C)>,
    /// Array linking entities to components. Guaranteed to be in order of entity ids.
    entity_id_array: Vec<Option<EntityId>>,
    components_len: usize,
}

impl<C> ComponentStore<C> {
    /// The component slots, each with the entity it belongs to.
    pub closed spec fn slots(&self) -> Seq<(EntityId, C)> {
        self.components@
    }

    /// For each entity id, the slot of its component, if it has one.
    pub closed spec fn entity_slots(&self) -> Seq<Option<EntityId>> {
        self.entity_id_array@
    }

    /// The number of slots in use.
    pub closed spec fn active_len(&self) -> usize {
        self.components_len
    }
}

impl<C: Component> ComponentStore<C> {
    /// A store with `max_components` default components, none in use, and no entity
    /// linked to a component.
    pub fn new(max_components: usize, world_settings: &WorldSettings) -> (store: Self)
        ensures
            store.slots().len() == max_components,
            forall|i: int| 0 <= i < max_components ==> (#[trigger] store.slots()[i]).0 == 0,
            forall|i: int|
                0 <= i < max_components ==> call_ensures(
                    C::default,
                    (world_settings,),
                    #[trigger] store.slots()[i].1,
                ),
            store.entity_slots().len() == world_settings.max_entities,
            forall|i: int|
                0 <= i < world_settings.max_entities ==> #[trigger] store.entity_slots()[i] is None,
            store.active_len() == 0,
    {
        let mut components: Vec<(EntityId, C)> = Vec::with_capacity(max_components);
        let mut n: usize = 0;
        while n < max_components
            invariant
                n <= max_components,
                components@.len() == n,
                forall|i: int| 0 <= i < n ==> (#[trigger] components@[i]).0 == 0,
                forall|i: int|
                    0 <= i < n ==> call_ensures(C::default, (world_settings,), #[trigger] components@[i].1),
            decreases max_components - n,
        {
            components.push((0, C::default(world_settings)));
            n = n + 1;
        }
        let mut entity_id_array: Vec<Option<EntityId>> = Vec::with_capacity(
            world_settings.max_entities,
        );
        let mut m: usize = 0;
        while m < world_settings.max_entities
            invariant
                m <= world_settings.max_entities,
                entity_id_array@.len() == m,
                forall|i: int| 0 <= i < m ==> #[trigger] entity_id_array@[i] is None,
            decreases world_settings.max_entities - m,
        {
            entity_id_array.push(None);
            m = m + 1;
        }
        let components_len: usize = 0;
        Self { components, entity_id_array, components_len }
    }
}

/// An item that may be scoped and 'ghosted' or replicated on clients.
pub struct Ghostable {
    pub clients: Vec<ClientId>,
    pub id: GhostId,
}

impl Component for Ghostable {
    fn default(world_settings: &WorldSettings) -> (g: Self)
        ensures
            g.id == 0,
            g.clients@ == Seq::<ClientId>::empty(),
    {
        Self { id: 0, clients: Vec::with_capacity(world_settings.max_clients) }
    }
}

/// An item that is 'ghosted' from the server.
pub struct Ghosted {
    pub id: GhostId,
}

impl Component for Ghosted {
    fn default(world_settings: &WorldSettings) -> (g: Self)
        ensures
            g.id == 0,
    {
        Self { id: 0 }
    }
}

/// Something that takes part in collisions.
pub struct Collidable {}

impl Component for Collidable {
    fn default(world_settings: &WorldSettings) -> Self {
        Self {}
    }
}

} // verus!
