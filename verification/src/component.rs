use vstd::prelude::*;

use crate::entity::Entity;

verus! {

/// Storage of one kind of component that can drop an entity's component
/// without knowing the component's type.
pub trait ComponentSet {
    /// The storage's own well-formedness.
    spec fn set_wf(&self) -> bool;

    /// Removes the component of `entity`, if it has one.
    fn deletion(&mut self, entity: Entity)
        requires
            old(self).set_wf(),
        ensures
            final(self).set_wf(),
    ;
}

/// Components of type `T`, indexed by entity id through a sparse array.
///
/// `sparse[id]` is the position of entity `id` in `dense`, and
/// `components[i]` is the component of `dense[i]`. A slot of `sparse` that
/// points nowhere holds `usize::MAX`.
pub struct SparseSet<T> {
    sparse: Vec<usize>,
    dense: Vec<Entity>,
    components: Vec<T>,
}

impl<T> SparseSet<T> {
    /// The sparse array: for each entity id, a position in the dense array.
    pub closed spec fn sparse_view(&self) -> Seq<usize> {
        self.sparse@
    }

    /// The dense array of entities, in storage order.
    pub closed spec fn dense_view(&self) -> Seq<Entity> {
        self.dense@
    }

    /// The components, parallel to the dense array.
    pub closed spec fn component_view(&self) -> Seq<T> {
        self.components@
    }

    /// What every set keeps: the dense array and the components have the
    /// same length, and each stored entity has a slot in the sparse array.
    pub open spec fn wf(&self) -> bool {
        &&& self.dense_view().len() == self.component_view().len()
        &&& forall|i: int|
            0 <= i < self.dense_view().len() ==> (#[trigger] self.dense_view()[i]).id
                < self.sparse_view().len()
    }

    /// The sparse slot of `entity` points at a dense position that holds
    /// `entity`.
    pub open spec fn holds(&self, entity: Entity) -> bool {
        &&& entity.id < self.sparse_view().len()
        &&& self.sparse_view()[entity.id as int] < self.dense_view().len()
        &&& self.dense_view()[self.sparse_view()[entity.id as int] as int] == entity
    }

    /// Each entity that the set holds, mapped to its component.
    pub open spec fn view(&self) -> Map<Entity, T> {
        Map::new(
            |e: Entity| self.holds(e),
            |e: Entity| self.component_view()[self.sparse_view()[e.id as int] as int],
        )
    }

    /// Every dense position is pointed at by the sparse slot of the entity
    /// stored there, so no entity is stored twice.
    pub open spec fn consistent(&self) -> bool {
        forall|i: int|
            0 <= i < self.dense_view().len() ==> self.sparse_view()[(
            #[trigger] self.dense_view()[i]).id as int] == i
    }

    /// An empty set.
    pub fn new() -> (set: Self)
        ensures
            set.wf(),
            set.consistent(),
            set.sparse_view() == Seq::<usize>::empty(),
            set.dense_view() == Seq::<Entity>::empty(),
            set.component_view() == Seq::<T>::empty(),
            set@ == Map::<Entity, T>::empty(),
    {
        let set = Self { sparse: Vec::new(), dense: Vec::new(), components: Vec::new() };
        assert(set@ =~= Map::<Entity, T>::empty());
        set
    }

    /// The stored entities, in storage order.
    pub fn get_dense(&self) -> (dense: &Vec<Entity>)
        ensures
            dense@ == self.dense_view(),
    {
        &self.dense
    }

    /// The length of the sparse array.
    pub fn sparse_len(&self) -> (len: usize)
        ensures
            len == self.sparse_view().len(),
    {
        self.sparse.len()
    }

    /// Whether `entity` has a component in this set.
    pub fn contains(&self, entity: &Entity) -> (found: bool)
        requires
            self.wf(),
        ensures
            found == self.holds(*entity),
            found == self@.contains_key(*entity),
    {
        if entity.id >= self.sparse.len() {
            return false;
        }
        let idx = self.sparse[entity.id];

        idx < self.dense.len() && self.dense[idx] == *entity
    }

    /// The component of `entity`, if it has one.
    pub fn get(&self, entity: &Entity) -> (component: Option<&T>)
        requires
            self.wf(),
        ensures
            match component {
                Some(c) => self@.contains_key(*entity) && *c == self@[*entity],
                None => !self@.contains_key(*entity),
            },
    {
        if self.contains(entity) {
            return Some(&self.components[self.sparse[entity.id]]);
        }
        None
    }

    /// The component of `entity` for writing, if it has one. Writing through
    /// it changes that component and nothing else.
    pub fn get_mut(&mut self, entity: &Entity) -> (component: Option<&mut T>)
        requires
            old(self).wf(),
        ensures
            final(self).wf(),
            final(self).sparse_view() == old(self).sparse_view(),
            final(self).dense_view() == old(self).dense_view(),
            match component {
                Some(c) => {
                    &&& old(self)@.contains_key(*entity)
                    &&& *c == old(self)@[*entity]
                    &&& final(self).component_view() == old(self).component_view().update(
                        old(self).sparse_view()[entity.id as int] as int,
                        *final(c),
                    )
                    &&& final(self)@ == old(self)@.insert(*entity, *final(c))
                },
                None => {
                    &&& !old(self)@.contains_key(*entity)
                    &&& final(self).component_view() == old(self).component_view()
                },
            },
    {
        if self.contains(entity) {
            let idx = self.sparse[entity.id];
            let c = &mut self.components[idx];
            return Some(c);
        }
        None
    }

    /// Stores `component` for `entity` at the end of the dense array and
    /// points the entity's sparse slot at it, growing the sparse array with
    /// empty slots when the id lies beyond it.
    pub fn insert(&mut self, entity: Entity, component: T)
        requires
            old(self).wf(),
            entity.id < usize::MAX,
            old(self).dense_view().len() < usize::MAX,
        ensures
            final(self).wf(),
            final(self).sparse_view().len() == if entity.id < old(self).sparse_view().len() {
                old(self).sparse_view().len() as int
            } else {
                entity.id + 1
            },
            forall|j: int|
                0 <= j < final(self).sparse_view().len() ==> #[trigger] final(self).sparse_view()[j]
                    == if j == entity.id {
                    old(self).dense_view().len() as usize
                } else if j < old(self).sparse_view().len() {
                    old(self).sparse_view()[j]
                } else {
                    usize::MAX
                },
            final(self).dense_view() == old(self).dense_view().push(entity),
            final(self).component_view() == old(self).component_view().push(component),
            final(self)@ == old(self)@.insert(entity, component),
            old(self).consistent() && !old(self)@.contains_key(entity) ==> final(self).consistent(),
            old(self)@.contains_key(entity) ==> !final(self).consistent(),
    {
        let id = entity.id;
        let len = self.sparse.len();

        if id >= len {
            self.sparse.resize(id + 1, usize::MAX);
        }
        let dense_idx = self.dense.len();
        self.sparse.set(id, dense_idx);
        self.dense.push(entity);
        self.components.push(component);
        proof {
            let pre = *old(self);
            let n = pre.dense_view().len();
            assert forall|e: Entity| #[trigger] self.holds(e) == (e == entity || pre.holds(e)) by {
                if e != entity {
                    assert(e.id != entity.id);
                }
            }
            assert(self@ =~= pre@.insert(entity, component));
            if pre@.contains_key(entity) {
                let stale = pre.sparse_view()[entity.id as int] as int;
                assert(self.dense_view()[stale] == entity);
                assert(self.sparse_view()[entity.id as int] == n);
            }
            if pre.consistent() && !pre@.contains_key(entity) {
                assert forall|i: int| 0 <= i < self.dense_view().len() implies self.sparse_view()[(
                #[trigger] self.dense_view()[i]).id as int] == i by {
                    if i < n {
                        let d = pre.dense_view()[i];
                        if d.id == entity.id {
                            assert(d == entity);
                            assert(pre.holds(entity));
                        }
                    }
                }
            }
        }
    }
}

impl<T> ComponentSet for SparseSet<T> {
    open spec fn set_wf(&self) -> bool {
        self.wf()
    }

    /// Removes the component of `entity` by moving the last component into
    /// its place, then repairs the sparse slot of the entity that moved.
    fn deletion(&mut self, entity: Entity)
        ensures
            !old(self)@.contains_key(entity) ==> {
                &&& final(self).sparse_view() == old(self).sparse_view()
                &&& final(self).dense_view() == old(self).dense_view()
                &&& final(self).component_view() == old(self).component_view()
            },
            old(self)@.contains_key(entity) ==> {
                let idx = old(self).sparse_view()[entity.id as int] as int;
                let last = old(self).dense_view().len() - 1;
                let moved = old(self).dense_view()[last];
                &&& final(self).dense_view() == old(self).dense_view().update(
                    idx,
                    moved,
                ).drop_last()
                &&& final(self).component_view() == old(self).component_view().update(
                    idx,
                    old(self).component_view()[last],
                ).drop_last()
                &&& final(self).sparse_view() == if idx < last {
                    old(self).sparse_view().update(entity.id as int, usize::MAX).update(
                        moved.id as int,
                        idx as usize,
                    )
                } else {
                    old(self).sparse_view().update(entity.id as int, usize::MAX)
                }
            },
            old(self).consistent() ==> final(self).consistent() && final(self)@ == old(self)@.remove(
                entity,
            ),
    {
        match self.get(&entity) {
            Some(_) => {
                let ghost pre = *self;
                let idx = self.sparse[entity.id];

                self.dense.swap_remove(idx);
                self.components.swap_remove(idx);

                self.sparse.set(entity.id, usize::MAX);

                if idx < self.dense.len() {
                    let temp = self.dense[idx];
                    self.sparse.set(temp.id, idx);
                }
                proof {
                    let n = pre.dense_view().len();
                    let moved = pre.dense_view()[n - 1];
                    if pre.consistent() {
                        if (idx as int) < n - 1 {
                            assert(pre.sparse_view()[moved.id as int] == n - 1);
                            assert(moved.id != entity.id);
                        }
                        assert forall|i: int| 0 <= i < self.dense_view().len() implies
                            self.sparse_view()[(#[trigger] self.dense_view()[i]).id as int] == i by {
                            if i != idx {
                                let d = pre.dense_view()[i];
                                assert(pre.sparse_view()[d.id as int] == i);
                            }
                        }
                        assert forall|e: Entity| #[trigger] self.holds(e) == (e != entity
                            && pre.holds(e)) by {
                            if e.id == entity.id {
                                assert(e == entity);
                            }
                            if pre.holds(e) && e != entity {
                                let s = pre.sparse_view()[e.id as int];
                                assert(pre.dense_view()[s as int] == e);
                            }
                        }
                        assert(self@ =~= pre@.remove(entity));
                    }
                }
            },
            None => {},
        }
    }
}

/// In a consistent set the dense array lists exactly the entities that have
/// a component, each of them once, so its length is the number of entities
/// held; the component of the entity at each dense position is the one at
/// the same position of the component array.
pub proof fn dense_lists_holders<T>(set: SparseSet<T>)
    requires
        set.wf(),
        set.consistent(),
    ensures
        forall|e: Entity| set@.contains_key(e) <==> #[trigger] set.dense_view().contains(e),
        forall|i: int|
            0 <= i < set.dense_view().len() ==> set@.contains_key(#[trigger] set.dense_view()[i])
                && set@[set.dense_view()[i]] == set.component_view()[i],
        set.dense_view().no_duplicates(),
        set@.dom() == set.dense_view().to_set(),
        set@.dom().len() == set.dense_view().len(),
{
    let d = set.dense_view();
    assert forall|i: int| 0 <= i < d.len() implies set@.contains_key(#[trigger] d[i])
        && set@[d[i]] == set.component_view()[i] by {
        assert(set.sparse_view()[d[i].id as int] == i);
    }
    assert forall|e: Entity| set@.contains_key(e) <==> #[trigger] d.contains(e) by {
        if set@.contains_key(e) {
            assert(d[set.sparse_view()[e.id as int] as int] == e);
        }
        if d.contains(e) {
            let i = choose|i: int| 0 <= i < d.len() && d[i] == e;
            assert(set.sparse_view()[d[i].id as int] == i);
        }
    }
    assert forall|i: int, j: int| 0 <= i < d.len() && 0 <= j < d.len() && i != j implies d[i]
        != d[j] by {
        assert(set.sparse_view()[d[i].id as int] == i);
        assert(set.sparse_view()[d[j].id as int] == j);
    }
    assert(set@.dom() =~= d.to_set());
    d.unique_seq_to_set();
}

/// Removing an entity right after giving it its first component gives back
/// what the set held before.
pub proof fn deletion_undoes_insert<T>(set: SparseSet<T>, entity: Entity, component: T)
    requires
        set.wf(),
        set.consistent(),
        !set@.contains_key(entity),
    ensures
        set@.insert(entity, component).remove(entity) == set@,
{
    assert(set@.insert(entity, component).remove(entity) =~= set@);
}

} // verus!
