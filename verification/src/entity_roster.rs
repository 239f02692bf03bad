//! The entities on the current map, in the order the server announced them.
//! The first entity is the player; the others come and go with the events of
//! the map server.
use vstd::prelude::*;

verus! {

/// The entries of `entries` whose entity id is not `id`, in their order.
pub open spec fn entries_without<E>(entries: Seq<(u32, E)>, id: u32) -> Seq<(u32, E)>
    decreases entries.len(),
{
    if entries.len() == 0 {
        entries
    } else {
        let rest = entries_without(entries.drop_first(), id);
        if entries[0].0 == id {
            rest
        } else {
            seq![entries[0]] + rest
        }
    }
}

/// Whether an entry has an entity id other than `id`.
pub open spec fn has_other_id<E>(id: u32) -> spec_fn((u32, E)) -> bool {
    |entry: (u32, E)| entry.0 != id
}

/// Whether `index` is the first entry of `entries` with entity id `id`.
pub open spec fn is_first_with_id<E>(entries: Seq<(u32, E)>, id: u32, index: int) -> bool {
    &&& 0 <= index < entries.len()
    &&& entries[index].0 == id
    &&& forall|j: int| 0 <= j < index ==> #[trigger] entries[j].0 != id
}

/// Whether no entry of `entries` has entity id `id`.
pub open spec fn has_no_id<E>(entries: Seq<(u32, E)>, id: u32) -> bool {
    forall|j: int| 0 <= j < entries.len() ==> #[trigger] entries[j].0 != id
}

/// The entities on the current map, each with its entity id.
pub struct EntityRoster<E> {
    entries: Vec<(u32, E)>,
}

impl<E> View for EntityRoster<E> {
    type V = Seq<(u32, E)>;

    closed spec fn view(&self) -> Seq<(u32, E)> {
        self.entries@
    }
}

impl<E> EntityRoster<E> {
    /// A map without entities.
    pub fn new() -> (roster: Self)
        ensures
            roster@ == Seq::<(u32, E)>::empty(),
    {
        EntityRoster { entries: Vec::new() }
    }

    /// The number of entities.
    pub fn len(&self) -> (len: usize)
        ensures
            len == self@.len(),
    {
        self.entries.len()
    }

    /// Whether there is no entity, not even the player.
    pub fn is_empty(&self) -> (empty: bool)
        ensures
            empty == (self@.len() == 0),
    {
        self.entries.len() == 0
    }

    /// Adds an entity after all others: a new entity entering the map, or
    /// the player once a character was selected.
    pub fn push(&mut self, id: u32, entity: E)
        ensures
            final(self)@ == old(self)@.push((id, entity)),
    {
        self.entries.push((id, entity));
    }

    /// Removes every entity with entity id `id`; the others keep their order.
    pub fn remove_entity(&mut self, id: u32)
        ensures
            final(self)@ == entries_without(old(self)@, id),
            final(self)@ == old(self)@.filter(has_other_id::<E>(id)),
    {
        proof {
            lemma_remove_keeps_order(self.entries@, id);
        }
        let ghost expected = entries_without(self.entries@, id);
        let mut i: usize = 0;
        assert(self.entries@.take(0) + entries_without(self.entries@.skip(0), id) =~= expected) by {
            assert(self.entries@.skip(0) =~= self.entries@);
        }
        while i < self.entries.len()
            invariant
                i <= self.entries.len(),
                self.entries@.take(i as int) + entries_without(self.entries@.skip(i as int), id)
                    == expected,
            decreases self.entries.len() - i,
        {
            let ghost before = self.entries@;
            assert(before.skip(i as int).drop_first() =~= before.skip(i + 1));
            assert(before.skip(i as int)[0] == before[i as int]);
            if self.entries[i].0 == id {
                let _removed = self.entries.remove(i);
                assert(self.entries@.take(i as int) =~= before.take(i as int));
                assert(self.entries@.skip(i as int) =~= before.skip(i + 1));
            } else {
                assert(before.take(i + 1) =~= before.take(i as int) + seq![before[i as int]]);
                i = i + 1;
            }
        }
        assert(self.entries@.skip(i as int) =~= Seq::<(u32, E)>::empty());
        assert(self.entries@.take(i as int) =~= self.entries@);
    }

    /// The index of the first entity with entity id `id`, if there is one.
    pub fn position(&self, id: u32) -> (index: Option<usize>)
        ensures
            match index {
                Some(i) => is_first_with_id(self@, id, i as int),
                None => has_no_id(self@, id),
            },
    {
        let mut i: usize = 0;
        while i < self.entries.len()
            invariant
                i <= self.entries.len(),
                forall|j: int| 0 <= j < i ==> #[trigger] self.entries@[j].0 != id,
            decreases self.entries.len() - i,
        {
            if self.entries[i].0 == id {
                return Some(i);
            }
            i = i + 1;
        }
        None
    }

    /// The entity at `index`.
    pub fn get(&self, index: usize) -> (entity: &E)
        requires
            index < self@.len(),
        ensures
            *entity == self@[index as int].1,
    {
        &self.entries[index].1
    }

    /// Puts `entity` in the place of the entity at `index`, which keeps its
    /// entity id and its place.
    pub fn replace(&mut self, index: usize, entity: E)
        requires
            index < old(self)@.len(),
        ensures
            final(self)@ == old(self)@.update(index as int, (old(self)@[index as int].0, entity)),
    {
        let id = self.entries[index].0;
        self.entries.set(index, (id, entity));
    }

    /// The player, which is the first entity, if there is one.
    pub fn player(&self) -> (player: Option<&E>)
        ensures
            self@.len() == 0 ==> player is None,
            self@.len() > 0 ==> player == Some(&self@[0].1),
    {
        if self.entries.len() == 0 {
            None
        } else {
            Some(&self.entries[0].1)
        }
    }

    /// Leaving the map: drops every entity but the player and hands the
    /// player out, with its entity id, leaving the roster empty.
    pub fn take_player(&mut self) -> (player: Option<(u32, E)>)
        ensures
            final(self)@ == Seq::<(u32, E)>::empty(),
            old(self)@.len() == 0 ==> player is None,
            old(self)@.len() > 0 ==> player == Some(old(self)@[0]),
    {
        while self.entries.len() > 1
            invariant
                self.entries@.len() >= 1 ==> self.entries@[0] == old(self)@[0],
                old(self)@.len() >= 1 ==> self.entries@.len() >= 1,
                old(self)@.len() == 0 ==> self.entries@.len() == 0,
            decreases self.entries.len(),
        {
            self.entries.pop();
        }
        if self.entries.len() == 0 {
            None
        } else {
            Some(self.entries.remove(0))
        }
    }
}

/// Removing an entity id keeps exactly the entities with other ids, in the
/// order they were announced: the result is the roster filtered by "has
/// another id".
pub proof fn lemma_remove_keeps_order<E>(entries: Seq<(u32, E)>, id: u32)
    ensures
        entries_without(entries, id) == entries.filter(has_other_id::<E>(id)),
    decreases entries.len(),
{
    reveal(Seq::filter);
    if entries.len() > 0 {
        let rest = entries.drop_first();
        lemma_remove_keeps_order(rest, id);
        rest.lemma_filter_prepend(entries[0], has_other_id::<E>(id));
        assert(seq![entries[0]] + rest =~= entries);
        if entries[0].0 == id {
            assert(Seq::<(u32, E)>::empty() + rest.filter(has_other_id::<E>(id)) =~= rest.filter(
                has_other_id::<E>(id),
            ));
        }
    }
}

/// Two entities that both stay after a removal keep their order: the one
/// announced first comes first.
pub proof fn lemma_remove_keeps_relative_order<E>(entries: Seq<(u32, E)>, id: u32, i: int, j: int)
    requires
        0 <= i < j < entries.len(),
        entries[i].0 != id,
        entries[j].0 != id,
    ensures
        exists|p: int, q: int|
            0 <= p < q < entries_without(entries, id).len() && #[trigger] entries_without(entries, id)[p]
                == entries[i] && #[trigger] entries_without(entries, id)[q] == entries[j],
    decreases entries.len(),
{
    let rest = entries.drop_first();
    let result = entries_without(entries, id);
    let rest_result = entries_without(rest, id);
    assert(rest[j - 1] == entries[j]);
    if i == 0 {
        lemma_remove_keeps_others(rest, id, j - 1);
        let q = choose|q: int| 0 <= q < rest_result.len() && rest_result[q] == rest[j - 1];
        assert(result[0] == entries[0]);
        assert(result[q + 1] == entries[j]);
    } else {
        assert(rest[i - 1] == entries[i]);
        lemma_remove_keeps_relative_order(rest, id, i - 1, j - 1);
        let (p, q) = choose|p: int, q: int|
            0 <= p < q < rest_result.len() && #[trigger] rest_result[p] == rest[i - 1]
                && #[trigger] rest_result[q] == rest[j - 1];
        if entries[0].0 == id {
            assert(result[p] == entries[i] && result[q] == entries[j]);
        } else {
            assert(result[p + 1] == entries[i] && result[q + 1] == entries[j]);
        }
    }
}

/// After removing an entity id, no entity with that id is left.
pub proof fn lemma_removed_id_is_gone<E>(entries: Seq<(u32, E)>, id: u32)
    ensures
        has_no_id(entries_without(entries, id), id),
    decreases entries.len(),
{
    if entries.len() > 0 {
        lemma_removed_id_is_gone(entries.drop_first(), id);
        let rest = entries_without(entries.drop_first(), id);
        if entries[0].0 != id {
            assert forall|j: int| 0 <= j < entries_without(entries, id).len() implies #[trigger] entries_without(
                entries,
                id,
            )[j].0 != id by {
                if j > 0 {
                    assert(entries_without(entries, id)[j] == rest[j - 1]);
                }
            }
        }
    }
}

/// Removing an entity id keeps every entity with another id.
pub proof fn lemma_remove_keeps_others<E>(entries: Seq<(u32, E)>, id: u32, j: int)
    requires
        0 <= j < entries.len(),
        entries[j].0 != id,
    ensures
        entries_without(entries, id).contains(entries[j]),
    decreases entries.len(),
{
    let rest = entries_without(entries.drop_first(), id);
    if j == 0 {
        assert(entries_without(entries, id)[0] == entries[0]);
    } else {
        lemma_remove_keeps_others(entries.drop_first(), id, j - 1);
        let k = choose|k: int| 0 <= k < rest.len() && rest[k] == entries[j];
        if entries[0].0 == id {
            assert(entries_without(entries, id)[k] == entries[j]);
        } else {
            assert(entries_without(entries, id)[k + 1] == entries[j]);
        }
    }
}

/// Removing an entity id that no entity has changes nothing.
pub proof fn lemma_remove_absent_id<E>(entries: Seq<(u32, E)>, id: u32)
    requires
        has_no_id(entries, id),
    ensures
        entries_without(entries, id) == entries,
    decreases entries.len(),
{
    if entries.len() > 0 {
        assert(entries[0].0 != id);
        assert forall|j: int| 0 <= j < entries.drop_first().len() implies #[trigger] entries.drop_first()[j].0
            != id by {
            assert(entries.drop_first()[j] == entries[j + 1]);
        }
        lemma_remove_absent_id(entries.drop_first(), id);
        assert(seq![entries[0]] + entries.drop_first() =~= entries);
    }
}

/// Removing another entity keeps the player in front.
pub proof fn lemma_remove_keeps_player_first<E>(entries: Seq<(u32, E)>, id: u32)
    requires
        entries.len() > 0,
        entries[0].0 != id,
    ensures
        entries_without(entries, id).len() > 0,
        entries_without(entries, id)[0] == entries[0],
{
}

/// An entity added under an id that no entity had is found under that id,
/// behind all the others.
pub proof fn lemma_pushed_entity_is_found<E>(entries: Seq<(u32, E)>, id: u32, entity: E)
    requires
        has_no_id(entries, id),
    ensures
        is_first_with_id(entries.push((id, entity)), id, entries.len() as int),
{
    assert forall|j: int| 0 <= j < entries.len() implies #[trigger] entries.push((id, entity))[j].0 != id by {
        assert(entries.push((id, entity))[j] == entries[j]);
    }
}

} // verus!
