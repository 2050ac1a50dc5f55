//! Components keyed by a stable identifier, with additions and removals staged
//! while a frame runs and applied only between frames, so that the collection
//! being walked never changes under the walk.
use vstd::prelude::*;
use crate::component::{lemma_node_models, node_models, Component, Node};
use crate::engine::{update_components, updated_trees};
use crate::input::Input;
use crate::transform::Transform;

verus! {

/// A request that breaks the staging rules.
#[derive(Debug, Clone, Copy, PartialEq, Eq, Structural)]
pub enum SceneError {
    /// An addition under this identifier is already pending.
    AlreadyPendingAdd(u64),
    /// No component has this identifier, so there is nothing to remove.
    NotPresent(u64),
}

/// The identifiers of a sequence of keyed entries.
pub open spec fn ids_of<T>(s: Seq<(u64, T)>) -> Seq<u64> {
    s.map_values(|p: (u64, T)| p.0)
}

/// The entries of `live` that stay when the removals `removed` and the additions
/// `added` are applied: an entry goes when it is removed or when an addition
/// replaces it.
pub open spec fn survivors<T>(live: Seq<(u64, T)>, removed: Seq<u64>, added: Seq<(u64, T)>) -> Seq<
    (u64, T),
>
    decreases live.len(),
{
    if live.len() == 0 {
        Seq::empty()
    } else {
        let before = survivors(live.drop_last(), removed, added);
        let e = live.last();
        if removed.contains(e.0) || ids_of(added).contains(e.0) {
            before
        } else {
            before.push(e)
        }
    }
}

/// The live entries after the pending requests are applied: the survivors in
/// their order, then the additions in the order they were asked for.
pub open spec fn applied<T>(live: Seq<(u64, T)>, removed: Seq<u64>, added: Seq<(u64, T)>) -> Seq<
    (u64, T),
> {
    survivors(live, removed, added) + added
}

/// The identifiers of `s` are pairwise distinct.
pub open spec fn distinct_ids(s: Seq<u64>) -> bool {
    forall|i: int, j: int| 0 <= i < s.len() && 0 <= j < s.len() && i != j ==> s[i] != s[j]
}

/// Keyed components in a fixed order, with pending additions and removals.
pub struct Scene<T> {
    ids: Vec<u64>,
    items: Vec<T>,
    pending_add: Vec<(u64, T)>,
    pending_remove: Vec<u64>,
}

impl<T> Scene<T> {
    /// The live components with their identifiers, in order.
    pub closed spec fn live(&self) -> Seq<(u64, T)> {
        Seq::new(self.ids@.len(), |i: int| (self.ids@[i], self.items@[i]))
    }

    /// The live components, in order.
    pub closed spec fn spec_items(&self) -> Seq<T> {
        self.items@
    }

    /// The additions asked for in this frame, in order.
    pub closed spec fn pending_adds(&self) -> Seq<(u64, T)> {
        self.pending_add@
    }

    /// The removals asked for in this frame.
    pub closed spec fn pending_removes(&self) -> Seq<u64> {
        self.pending_remove@
    }

    /// The identifiers are unique among the live components and among the pending
    /// additions, and each component has one.
    pub closed spec fn wf(&self) -> bool {
        &&& self.ids@.len() == self.items@.len()
        &&& distinct_ids(self.ids@)
        &&& distinct_ids(ids_of(self.pending_add@))
    }

    proof fn lemma_live(&self)
        requires
            self.ids@.len() == self.items@.len(),
        ensures
            ids_of(self.live()) == self.ids@,
            self.live().len() == self.items@.len(),
            forall|i: int| 0 <= i < self.items@.len() ==> #[trigger] self.live()[i].1 == self.items@[i],
    {
        assert(ids_of(self.live()) =~= self.ids@);
    }

    /// The components of the live entries are the live components.
    pub proof fn lemma_items(&self)
        requires
            self.wf(),
        ensures
            self.live().len() == self.spec_items().len(),
            forall|i: int| 0 <= i < self.spec_items().len() ==> #[trigger] self.live()[i].1 == self.spec_items()[i],
    {
        self.lemma_live();
    }

    /// A scene with no component and nothing pending.
    pub fn new() -> (r: Self)
        ensures
            r.wf(),
            r.live() == Seq::<(u64, T)>::empty(),
            r.pending_adds() == Seq::<(u64, T)>::empty(),
            r.pending_removes() == Seq::<u64>::empty(),
    {
        let r = Scene { ids: Vec::new(), items: Vec::new(), pending_add: Vec::new(), pending_remove: Vec::new() };
        assert(r.live() =~= Seq::<(u64, T)>::empty());
        assert(ids_of(r.pending_add@) =~= Seq::<u64>::empty());
        r
    }

    /// The live components, in order.
    pub fn components(&self) -> (r: &Vec<T>)
        ensures
            r@ == self.spec_items(),
    {
        &self.items
    }

    fn pending_add_has(&self, id: u64) -> (r: bool)
        ensures
            r == ids_of(self.pending_add@).contains(id),
    {
        let mut i: usize = 0;
        while i < self.pending_add.len()
            invariant
                i <= self.pending_add@.len(),
                forall|j: int| 0 <= j < i ==> self.pending_add@[j].0 != id,
            decreases self.pending_add@.len() - i,
        {
            if self.pending_add[i].0 == id {
                assert(ids_of(self.pending_add@)[i as int] == id);
                return true;
            }
            i = i + 1;
        }
        false
    }

    fn live_has(&self, id: u64) -> (r: bool)
        ensures
            r == self.ids@.contains(id),
    {
        let mut i: usize = 0;
        while i < self.ids.len()
            invariant
                i <= self.ids@.len(),
                forall|j: int| 0 <= j < i ==> self.ids@[j] != id,
            decreases self.ids@.len() - i,
        {
            if self.ids[i] == id {
                return true;
            }
            i = i + 1;
        }
        false
    }

    fn removal_has(&self, id: u64) -> (r: bool)
        ensures
            r == self.pending_remove@.contains(id),
    {
        let mut i: usize = 0;
        while i < self.pending_remove.len()
            invariant
                i <= self.pending_remove@.len(),
                forall|j: int| 0 <= j < i ==> self.pending_remove@[j] != id,
            decreases self.pending_remove@.len() - i,
        {
            if self.pending_remove[i] == id {
                return true;
            }
            i = i + 1;
        }
        false
    }

    /// Asks for `item` to join the scene under `id` when the frame ends. Asking
    /// twice for one identifier in one frame is refused.
    pub fn request_add(&mut self, id: u64, item: T) -> (r: Result<(), SceneError>)
        requires
            old(self).wf(),
        ensures
            final(self).wf(),
            final(self).live() == old(self).live(),
            final(self).pending_removes() == old(self).pending_removes(),
            ids_of(old(self).pending_adds()).contains(id) ==> r == Err::<(), SceneError>(
                SceneError::AlreadyPendingAdd(id),
            ) && final(self).pending_adds() == old(self).pending_adds(),
            !ids_of(old(self).pending_adds()).contains(id) ==> r is Ok && final(self).pending_adds()
                == old(self).pending_adds().push((id, item)),
    {
        if self.pending_add_has(id) {
            return Err(SceneError::AlreadyPendingAdd(id));
        }
        self.pending_add.push((id, item));
        assert(ids_of(self.pending_add@) =~= ids_of(old(self).pending_add@).push(id));
        Ok(())
    }

    /// Asks for the component under `id` to leave the scene when the frame ends.
    /// Only a live component can be removed.
    pub fn request_remove(&mut self, id: u64) -> (r: Result<(), SceneError>)
        requires
            old(self).wf(),
        ensures
            final(self).wf(),
            final(self).live() == old(self).live(),
            final(self).pending_adds() == old(self).pending_adds(),
            !ids_of(old(self).live()).contains(id) ==> r == Err::<(), SceneError>(
                SceneError::NotPresent(id),
            ) && final(self).pending_removes() == old(self).pending_removes(),
            ids_of(old(self).live()).contains(id) ==> r is Ok && final(self).pending_removes().contains(id)
                && (forall|x: u64| #[trigger] final(self).pending_removes().contains(x) <==> x == id
                    || old(self).pending_removes().contains(x)),
    {
        proof {
            self.lemma_live();
        }
        if !self.live_has(id) {
            return Err(SceneError::NotPresent(id));
        }
        if !self.removal_has(id) {
            self.pending_remove.push(id);
            proof {
                let now = self.pending_remove@;
                let was = old(self).pending_remove@;
                assert(now[now.len() - 1] == id);
                assert forall|x: u64| #[trigger] now.contains(x) <==> x == id || was.contains(x) by {
                    if was.contains(x) {
                        let j = choose|j: int| 0 <= j < was.len() && was[j] == x;
                        assert(now[j] == x);
                    }
                    if now.contains(x) && x != id {
                        let j = choose|j: int| 0 <= j < now.len() && now[j] == x;
                        assert(was[j] == x);
                    }
                }
            }
        }
        Ok(())
    }
}

proof fn lemma_survivors<T>(live: Seq<(u64, T)>, removed: Seq<u64>, added: Seq<(u64, T)>)
    requires
        distinct_ids(ids_of(live)),
    ensures
        distinct_ids(ids_of(survivors(live, removed, added))),
        forall|k: int| 0 <= k < survivors(live, removed, added).len() ==> {
            let id = #[trigger] survivors(live, removed, added)[k].0;
            &&& ids_of(live).contains(id)
            &&& !ids_of(added).contains(id)
        },
    decreases live.len(),
{
    if live.len() > 0 {
        let rest = live.drop_last();
        assert(ids_of(rest) =~= ids_of(live).drop_last());
        lemma_survivors(rest, removed, added);
        let before = survivors(rest, removed, added);
        let e = live.last();
        assert forall|k: int| 0 <= k < before.len() implies ids_of(live).contains(#[trigger] before[k].0) by {
            let id = before[k].0;
            let j = choose|j: int| 0 <= j < ids_of(rest).len() && ids_of(rest)[j] == id;
            assert(ids_of(live)[j] == id);
        }
        assert(ids_of(live)[live.len() - 1] == e.0);
        if !(removed.contains(e.0) || ids_of(added).contains(e.0)) {
            let after = before.push(e);
            assert forall|k: int| 0 <= k < before.len() implies before[k].0 != e.0 by {
                let id = before[k].0;
                let j = choose|j: int| 0 <= j < ids_of(rest).len() && ids_of(rest)[j] == id;
                assert(ids_of(live)[j] == id);
            }
            assert(ids_of(after) =~= ids_of(before).push(e.0));
        }
    }
}

impl<T> Scene<T> {
    /// Applies the pending requests, between two frames: removed components and
    /// components replaced under the same identifier leave, keeping the others in
    /// their order; the additions follow in the order they were asked for.
    pub fn apply_pending(&mut self)
        requires
            old(self).wf(),
        ensures
            final(self).wf(),
            final(self).live() == applied(
                old(self).live(),
                old(self).pending_removes(),
                old(self).pending_adds(),
            ),
            final(self).pending_adds() == Seq::<(u64, T)>::empty(),
            final(self).pending_removes() == Seq::<u64>::empty(),
    {
        let ghost live0 = old(self).live();
        let ghost ids0 = old(self).ids@;
        let ghost items0 = old(self).items@;
        let ghost removed = old(self).pending_remove@;
        let ghost added = old(self).pending_add@;
        proof {
            old(self).lemma_live();
            lemma_survivors(live0, removed, added);
        }
        let mut old_ids: Vec<u64> = Vec::new();
        std::mem::swap(&mut old_ids, &mut self.ids);
        let mut old_items: Vec<T> = Vec::new();
        std::mem::swap(&mut old_items, &mut self.items);
        proof {
            assert(self.live() =~= survivors(live0.take(0), removed, added));
        }
        let mut k: usize = 0;
        while k < old_ids.len()
            invariant
                old_ids@ == ids0,
                ids0.len() == items0.len(),
                live0 == Seq::new(ids0.len(), |i: int| (ids0[i], items0[i])),
                k <= ids0.len(),
                old_items@ == items0.skip(k as int),
                self.ids@.len() == self.items@.len(),
                self.live() == survivors(live0.take(k as int), removed, added),
                self.pending_remove@ == removed,
                self.pending_add@ == added,
            decreases ids0.len() - k,
        {
            let item = old_items.remove(0);
            let id = old_ids[k];
            let ghost before = self.live();
            assert(live0.take(k + 1).drop_last() =~= live0.take(k as int));
            assert(live0.take(k + 1).last() == (id, item));
            if !self.removal_has(id) && !self.pending_add_has(id) {
                self.ids.push(id);
                self.items.push(item);
                assert(self.live() =~= before.push((id, item)));
            }
            assert(old_items@ =~= items0.skip(k + 1));
            k = k + 1;
        }
        assert(live0.take(k as int) =~= live0);
        let mut adds: Vec<(u64, T)> = Vec::new();
        std::mem::swap(&mut adds, &mut self.pending_add);
        let ghost kept = self.live();
        let ghost mut m: int = 0;
        let ghost n = added.len();
        while adds.len() > 0
            invariant
                0 <= m <= n,
                adds@ == added.skip(m),
                adds@.len() == n - m,
                n == added.len(),
                self.ids@.len() == self.items@.len(),
                self.live() == kept + added.take(m),
                self.pending_add@ == Seq::<(u64, T)>::empty(),
            decreases adds@.len(),
        {
            let ghost rest = adds@;
            let (id, item) = adds.remove(0);
            assert(rest[0] == added[m]);
            let ghost before = self.live();
            self.ids.push(id);
            self.items.push(item);
            assert(self.live() =~= before.push((id, item)));
            assert(added.take(m + 1) =~= added.take(m).push((id, item)));
            assert(adds@ =~= added.skip(m + 1));
            proof {
                m = m + 1;
            }
        }
        assert(added.take(m) =~= added);
        self.pending_remove.clear();
        proof {
            self.lemma_live();
            let all = self.live();
            assert(ids_of(all) =~= ids_of(kept) + ids_of(added));
            assert forall|i: int, j: int|
                0 <= i < self.ids@.len() && 0 <= j < self.ids@.len() && i != j implies self.ids@[i]
                != self.ids@[j] by {
                let kl = kept.len() as int;
                if i < kl && j >= kl {
                    assert(kept[i].0 == self.ids@[i]);
                    assert(added[j - kl].0 == self.ids@[j]);
                    assert(ids_of(added)[j - kl] == self.ids@[j]);
                } else if i >= kl && j < kl {
                    assert(kept[j].0 == self.ids@[j]);
                    assert(ids_of(added)[i - kl] == self.ids@[i]);
                } else if i < kl && j < kl {
                    assert(ids_of(kept)[i] == self.ids@[i]);
                    assert(ids_of(kept)[j] == self.ids@[j]);
                } else {
                    assert(ids_of(added)[i - kl] == self.ids@[i]);
                    assert(ids_of(added)[j - kl] == self.ids@[j]);
                }
            }
        }
    }
}

impl<C: Component<P>, P> Scene<Node<C, P>> {
    /// Runs the update pass on the live components, in order, as roots of the
    /// tree: their parent's absolute transform is `absolute_parent`.
    pub fn update(&mut self, input: &Input, absolute_parent: Transform, delta_millis: u32)
        requires
            old(self).wf(),
        ensures
            final(self).wf(),
            ids_of(final(self).live()) == ids_of(old(self).live()),
            node_models(final(self).spec_items()) == updated_trees(
                node_models(old(self).spec_items()),
                *input,
                absolute_parent,
                delta_millis,
            ),
            final(self).pending_adds() == old(self).pending_adds(),
            final(self).pending_removes() == old(self).pending_removes(),
    {
        proof {
            old(self).lemma_live();
        }
        update_components(&mut self.items, input, absolute_parent, delta_millis);
        proof {
            lemma_node_models(old(self).items@);
            lemma_node_models(self.items@);
            crate::engine::lemma_updated_trees(
                node_models(old(self).items@),
                *input,
                absolute_parent,
                delta_millis,
            );
            self.lemma_live();
        }
    }
}

} // verus!
