use std::collections::HashMap;

use vstd::prelude::*;

use super::entity::Entity;

verus! {

broadcast use vstd::std_specs::hash::group_hash_axioms;

/// A store of entities, one for each key: saving an entity replaces the one
/// with the same key.
pub struct Repository<E: Entity> {
    map: HashMap<usize, E>,
}

impl<E: Entity> View for Repository<E> {
    type V = Map<usize, E>;

    closed spec fn view(&self) -> Map<usize, E> {
        self.map@
    }
}

impl<E: Entity> Repository<E> {
    /// Each entity is kept under the key of its own identity.
    #[verifier::type_invariant]
    spec fn well_keyed(self) -> bool {
        forall|k: usize| #[trigger] self.map@.contains_key(k) ==> E::id_key(self.map@[k].spec_id()) == k
    }

    /// The entity saved under the key of an identity, if there is one.
    pub open spec fn spec_find(self, id: E::Id) -> Option<E> {
        if self@.contains_key(E::id_key(id)) {
            Some(self@[E::id_key(id)])
        } else {
            None
        }
    }

    pub fn new() -> (res: Self)
        ensures
            res@ == Map::<usize, E>::empty(),
    {
        Self { map: HashMap::new() }
    }

    pub fn save(&mut self, entity: E)
        ensures
            final(self)@ == old(self)@.insert(E::id_key(entity.spec_id()), entity),
    {
        proof {
            use_type_invariant(&*self);
        }
        let key = E::key_of(entity.id());
        let mut map = HashMap::new();
        std::mem::swap(&mut map, &mut self.map);
        map.insert(key, entity);
        self.map = map;
    }

    /// How many entities are saved.
    pub fn len(&self) -> (res: usize)
        ensures
            res == self@.len(),
    {
        self.map.len()
    }

    pub fn find_by_id(&self, id: &E::Id) -> (res: Option<&E>)
        ensures
            match res {
                Some(e) => self.spec_find(*id) == Some(*e) && e.spec_id() == *id,
                None => self.spec_find(*id) is None,
            },
    {
        proof {
            use_type_invariant(self);
            if self@.contains_key(E::id_key(*id)) {
                E::lemma_id_key_injective(self@[E::id_key(*id)].spec_id(), *id);
            }
        }
        let key = E::key_of(id);
        self.map.get(&key)
    }
}

/// What is found after a save: the saved entity under its own identity
/// (in the place of any entity saved before with that identity), and under
/// every other identity what was found before.
pub proof fn law_find_after_save<E: Entity>(before: Repository<E>, after: Repository<E>, entity: E, id: E::Id)
    requires
        after@ == before@.insert(E::id_key(entity.spec_id()), entity),
    ensures
        after.spec_find(entity.spec_id()) == Some(entity),
        id != entity.spec_id() ==> after.spec_find(id) == before.spec_find(id),
{
    E::lemma_id_key_injective(id, entity.spec_id());
}

/// What saving `saves` in order into `m` leaves: each `Some((k, v))` puts
/// `v` under `k`, in the place of what was there; a `None` saves nothing.
pub open spec fn saved_all<V>(m: Map<usize, V>, saves: Seq<Option<(usize, V)>>) -> Map<usize, V>
    decreases saves.len(),
{
    if saves.len() == 0 {
        m
    } else {
        let before = saved_all(m, saves.drop_last());
        match saves.last() {
            Some((k, v)) => before.insert(k, v),
            None => before,
        }
    }
}

/// Whether a save puts something under `k`.
pub open spec fn saves_key<V>(save: Option<(usize, V)>, k: usize) -> bool {
    match save {
        Some((key, _)) => key == k,
        None => false,
    }
}

/// Whether `result` holds, under each key, the value of the last of `saves`
/// under that key, or what `m` held there when none of them is: it has a
/// key exactly when `m` has it or one of `saves` is under it.
pub open spec fn keeps_last_saves<V>(m: Map<usize, V>, saves: Seq<Option<(usize, V)>>, result: Map<usize, V>) -> bool {
    &&& forall|k: usize|
        #[trigger] result.contains_key(k) <==> (m.contains_key(k) || exists|j: int|
            0 <= j < saves.len() && #[trigger] saves_key(saves[j], k))
    &&& forall|k: usize, j: int|
        0 <= j < saves.len() && #[trigger] saves_key(saves[j], k) && (forall|l: int|
            j < l < saves.len() ==> !#[trigger] saves_key(saves[l], k)) ==> result[k] == saves[j]->Some_0.1
    &&& forall|k: usize|
        #[trigger] m.contains_key(k) && (forall|j: int| 0 <= j < saves.len() ==> !#[trigger] saves_key(saves[j], k))
            ==> result[k] == m[k]
}

/// Saving in order, the last save under a key wins: under each key there is
/// the value of the last save under it, or what was there before when no
/// save is under it.
pub proof fn law_last_save_wins<V>(m: Map<usize, V>, saves: Seq<Option<(usize, V)>>)
    ensures
        keeps_last_saves(m, saves, saved_all(m, saves)),
    decreases saves.len(),
{
    if saves.len() > 0 {
        let rest = saves.drop_last();
        law_last_save_wins(m, rest);
        let prev = saved_all(m, rest);
        let result = saved_all(m, saves);
        let n = saves.len() - 1;
        assert forall|j: int| 0 <= j < rest.len() implies rest[j] == saves[j] by {}
        assert forall|k: usize| #[trigger] result.contains_key(k) <==> (m.contains_key(k) || exists|j: int|
            0 <= j < saves.len() && #[trigger] saves_key(saves[j], k)) by {
            if saves_key(saves[n], k) {
            } else {
                if exists|j: int| 0 <= j < saves.len() && #[trigger] saves_key(saves[j], k) {
                    let j = choose|j: int| 0 <= j < saves.len() && #[trigger] saves_key(saves[j], k);
                    assert(saves_key(rest[j], k));
                }
                if exists|j: int| 0 <= j < rest.len() && #[trigger] saves_key(rest[j], k) {
                    let j = choose|j: int| 0 <= j < rest.len() && #[trigger] saves_key(rest[j], k);
                    assert(saves_key(saves[j], k));
                }
            }
        }
        assert forall|k: usize, j: int|
            0 <= j < saves.len() && #[trigger] saves_key(saves[j], k) && (forall|l: int|
                j < l < saves.len() ==> !#[trigger] saves_key(saves[l], k)) implies result[k]
            == saves[j]->Some_0.1 by {
            if j < n {
                assert(!saves_key(saves[n], k));
                assert(saves_key(rest[j], k));
                assert forall|l: int| j < l < rest.len() implies !#[trigger] saves_key(rest[l], k) by {
                    assert(!saves_key(saves[l], k));
                }
            }
        }
        assert forall|k: usize|
            #[trigger] m.contains_key(k) && (forall|j: int| 0 <= j < saves.len() ==> !#[trigger] saves_key(saves[j], k))
                implies result[k] == m[k] by {
            assert(!saves_key(saves[n], k));
            assert forall|j: int| 0 <= j < rest.len() implies !#[trigger] saves_key(rest[j], k) by {
                assert(!saves_key(saves[j], k));
            }
        }
    }
}

/// The saves that saving `entities` in order makes: each under the key of
/// its identity.
pub open spec fn entity_saves<E: Entity>(entities: Seq<E>) -> Seq<Option<(usize, E)>> {
    entities.map_values(|e: E| Some((E::id_key(e.spec_id()), e)))
}

/// After a sequence of saves, what is found under an identity is the last
/// entity saved with that identity, or, when none was, what was found
/// before.
pub proof fn law_find_after_saves<E: Entity>(
    before: Repository<E>,
    saved: Seq<E>,
    after: Repository<E>,
    id: E::Id,
)
    requires
        after@ == saved_all(before@, entity_saves(saved)),
    ensures
        forall|j: int|
            0 <= j < saved.len() && #[trigger] saved[j].spec_id() == id && (forall|l: int|
                j < l < saved.len() ==> #[trigger] saved[l].spec_id() != id) ==> after.spec_find(id) == Some(saved[j]),
        (forall|j: int| 0 <= j < saved.len() ==> #[trigger] saved[j].spec_id() != id) ==> after.spec_find(id)
            == before.spec_find(id),
{
    let saves = entity_saves(saved);
    let k = E::id_key(id);
    law_last_save_wins(before@, saves);
    assert forall|j: int| 0 <= j < saved.len() implies (#[trigger] saves_key(saves[j], k) <==> saved[j].spec_id()
        == id) by {
        E::lemma_id_key_injective(saved[j].spec_id(), id);
    }
    assert forall|j: int|
        0 <= j < saved.len() && #[trigger] saved[j].spec_id() == id && (forall|l: int|
            j < l < saved.len() ==> #[trigger] saved[l].spec_id() != id) implies after.spec_find(id) == Some(saved[j]) by {
        assert(saves_key(saves[j], k));
        assert forall|l: int| j < l < saves.len() implies !#[trigger] saves_key(saves[l], k) by {
            assert(saved[l].spec_id() != id);
        }
    }
    if forall|j: int| 0 <= j < saved.len() ==> #[trigger] saved[j].spec_id() != id {
        assert forall|j: int| 0 <= j < saves.len() implies !#[trigger] saves_key(saves[j], k) by {
            assert(saved[j].spec_id() != id);
        }
    }
}

/// Saving one more entity into what a sequence of saves left is the
/// sequence of saves with that entity at its end.
pub proof fn law_save_extends_saves<E: Entity>(m: Map<usize, E>, saved: Seq<E>, entity: E)
    ensures
        saved_all(m, entity_saves(saved)).insert(E::id_key(entity.spec_id()), entity) == saved_all(
            m,
            entity_saves(saved.push(entity)),
        ),
{
    assert(entity_saves(saved.push(entity)).drop_last() =~= entity_saves(saved));
}

} // verus!
