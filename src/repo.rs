//! Entity state repository: last confirmed, predicted and unconfirmed state per entity,
//! with a chain of predecessor links over predicted states for rollbacks.
use vstd::prelude::*;

use crate::entity::OnChainEntity;
use crate::ledger::OutputRef;
use crate::table::Table;

verus! {

pub const LAST_PREDICTED_PREFIX: u8 = 2u8;

pub const LAST_CONFIRMED_PREFIX: u8 = 3u8;

pub const LAST_UNCONFIRMED_PREFIX: u8 = 4u8;

/// A state observed on-chain.
#[derive(Clone, Copy, Debug, PartialEq, Eq, Hash)]
pub struct Confirmed<T>(pub T);

/// A state expected from a transaction that is not yet submitted.
#[derive(Clone, Copy, Debug, PartialEq, Eq, Hash)]
pub struct Predicted<T>(pub T);

/// A state expected from a submitted transaction that awaits inclusion.
#[derive(Clone, Copy, Debug, PartialEq, Eq, Hash)]
pub struct Unconfirmed<T>(pub T);

/// A state together with the identity of the state it was predicted from.
#[derive(Clone, Copy, Debug, PartialEq, Eq, Hash)]
pub struct Traced<T> {
    pub state: T,
    pub prev_state_id: Option<OutputRef>,
}

/// Key of an entity's record in one tier: the tier's prefix byte, then the entity key.
pub open spec fn ikey(prefix: u8, id: [u8; 60]) -> Seq<u8> {
    seq![prefix] + id@
}

/// The entity key namespaced by a one-byte tier prefix.
pub fn index_key(prefix: u8, id: [u8; 60]) -> (r: [u8; 61])
    ensures
        r@ == ikey(prefix, id),
{
    let mut arr = [prefix; 61];
    let mut i: usize = 0;
    while i < 60
        invariant
            i <= 60,
            arr@[0] == prefix,
            forall|j: int| 0 <= j < i ==> arr@[j + 1] == id@[j],
        decreases 60 - i,
    {
        arr[i + 1] = id[i];
        i = i + 1;
    }
    assert(arr@ =~= ikey(prefix, id));
    arr
}

pub open spec fn lookup<K, V>(m: Map<K, V>, k: K) -> Option<V> {
    if m.contains_key(k) {
        Some(m[k])
    } else {
        None
    }
}

/// The repository as maps: states by state id, tier records by tier key, and the
/// predecessor of each predicted state.
pub struct RepoModel<T> {
    pub store: Map<OutputRef, T>,
    pub index: Map<Seq<u8>, OutputRef>,
    pub links: Map<OutputRef, OutputRef>,
}

impl<T> RepoModel<T> {
    pub open spec fn empty() -> RepoModel<T> {
        RepoModel { store: Map::empty(), index: Map::empty(), links: Map::empty() }
    }

    /// The state a tier records for an entity, if that state is still stored.
    pub open spec fn last(self, prefix: u8, eid: [u8; 60]) -> Option<T> {
        let k = ikey(prefix, eid);
        if self.index.contains_key(k) && self.store.contains_key(self.index[k]) {
            Some(self.store[self.index[k]])
        } else {
            None
        }
    }

    /// Records `e`, with state id `sid`, as the entity's state in a tier.
    pub open spec fn put(self, prefix: u8, eid: [u8; 60], sid: OutputRef, e: T) -> RepoModel<T> {
        RepoModel {
            store: self.store.insert(sid, e),
            index: self.index.insert(ikey(prefix, eid), sid),
            links: self.links,
        }
    }

    pub open spec fn put_predicted(
        self,
        eid: [u8; 60],
        sid: OutputRef,
        e: T,
        prev: Option<OutputRef>,
    ) -> RepoModel<T> {
        let m = self.put(LAST_PREDICTED_PREFIX, eid, sid, e);
        match prev {
            Some(p) => RepoModel { links: m.links.insert(sid, p), ..m },
            None => m,
        }
    }

    /// Retracts state `sid` of entity `eid`: its predecessor, if any, becomes the last
    /// confirmed state, else the confirmed record goes; the predicted and unconfirmed
    /// records go, and so do the state and its link.
    pub open spec fn invalidate(self, sid: OutputRef, eid: [u8; 60]) -> RepoModel<T> {
        let confirmed = ikey(LAST_CONFIRMED_PREFIX, eid);
        let index = if self.links.contains_key(sid) {
            self.index.insert(confirmed, self.links[sid])
        } else {
            self.index.remove(confirmed)
        };
        RepoModel {
            store: self.store.remove(sid),
            index: index.remove(ikey(LAST_PREDICTED_PREFIX, eid)).remove(
                ikey(LAST_UNCONFIRMED_PREFIX, eid),
            ),
            links: self.links.remove(sid),
        }
    }

    /// Retires the entity: every tier record goes, and so do its current state and link.
    pub open spec fn eliminate(self, eid: [u8; 60], sid: OutputRef) -> RepoModel<T> {
        RepoModel {
            store: self.store.remove(sid),
            index: self.index.remove(ikey(LAST_PREDICTED_PREFIX, eid)).remove(
                ikey(LAST_CONFIRMED_PREFIX, eid),
            ).remove(ikey(LAST_UNCONFIRMED_PREFIX, eid)),
            links: self.links.remove(sid),
        }
    }
}

proof fn lemma_tier_keys_differ(a: u8, b: u8, eid: [u8; 60])
    requires
        a != b,
    ensures
        ikey(a, eid) != ikey(b, eid),
{
    assert(ikey(a, eid)[0] == a);
    assert(ikey(b, eid)[0] == b);
}

/// Retracting a state that has no predecessor clears the entity's confirmed record.
pub proof fn lemma_invalidate_root_clears_confirmed<T>(m: RepoModel<T>, sid: OutputRef, eid: [u8; 60])
    requires
        !m.links.contains_key(sid),
    ensures
        !m.invalidate(sid, eid).index.contains_key(ikey(LAST_CONFIRMED_PREFIX, eid)),
        m.invalidate(sid, eid).last(LAST_CONFIRMED_PREFIX, eid) is None,
{
}

/// Retracting a state whose predecessor is `p` makes `p` the entity's last confirmed state.
pub proof fn lemma_invalidate_restores_predecessor<T>(m: RepoModel<T>, sid: OutputRef, eid: [u8; 60])
    requires
        m.links.contains_key(sid),
    ensures
        m.invalidate(sid, eid).index[ikey(LAST_CONFIRMED_PREFIX, eid)] == m.links[sid],
        m.invalidate(sid, eid).last(LAST_CONFIRMED_PREFIX, eid) == lookup(
            m.store.remove(sid),
            m.links[sid],
        ),
{
    lemma_tier_keys_differ(LAST_CONFIRMED_PREFIX, LAST_PREDICTED_PREFIX, eid);
    lemma_tier_keys_differ(LAST_CONFIRMED_PREFIX, LAST_UNCONFIRMED_PREFIX, eid);
}

/// Retracting a state that has no predecessor a second time changes nothing: everything
/// the first retraction removed is already absent.
pub proof fn lemma_invalidate_twice<T>(m: RepoModel<T>, sid: OutputRef, eid: [u8; 60])
    requires
        !m.links.contains_key(sid),
    ensures
        m.invalidate(sid, eid).invalidate(sid, eid) == m.invalidate(sid, eid),
{
    let m1 = m.invalidate(sid, eid);
    let m2 = m1.invalidate(sid, eid);
    assert(m2.store =~= m1.store);
    assert(m2.index =~= m1.index);
    assert(m2.links =~= m1.links);
}

/// After a predicted state is recorded, it is the entity's last predicted state, whatever
/// its predecessor.
pub proof fn lemma_put_predicted_then_get<T>(
    m: RepoModel<T>,
    eid: [u8; 60],
    sid: OutputRef,
    e: T,
    prev: Option<OutputRef>,
)
    ensures
        m.put_predicted(eid, sid, e, prev).last(LAST_PREDICTED_PREFIX, eid) == Some(e),
{
}

/// Of two predicted states recorded for one entity, under distinct state ids and with any
/// predecessors, the later one is the last predicted state.
pub proof fn lemma_put_predicted_latest_wins<T>(
    m: RepoModel<T>,
    eid: [u8; 60],
    sid1: OutputRef,
    e1: T,
    prev1: Option<OutputRef>,
    sid2: OutputRef,
    e2: T,
    prev2: Option<OutputRef>,
)
    ensures
        m.put_predicted(eid, sid1, e1, prev1).put_predicted(eid, sid2, e2, prev2).last(
            LAST_PREDICTED_PREFIX,
            eid,
        ) == Some(e2),
{
    lemma_put_predicted_then_get(m.put_predicted(eid, sid1, e1, prev1), eid, sid2, e2, prev2);
}

/// The repository held in memory.
pub struct InMemoryEntityRepo<T> {
    store: Table<OutputRef, T>,
    index: Table<[u8; 61], OutputRef>,
    links: Table<OutputRef, OutputRef>,
}

impl<T: OnChainEntity + Copy> InMemoryEntityRepo<T> {
    pub closed spec fn view(&self) -> RepoModel<T> {
        RepoModel { store: self.store.view(), index: self.index.view(), links: self.links.view() }
    }

    pub closed spec fn wf(&self) -> bool {
        self.store.wf() && self.index.wf() && self.links.wf()
    }

    pub fn new() -> (r: InMemoryEntityRepo<T>)
        ensures
            r.wf(),
            r.view() == RepoModel::<T>::empty(),
    {
        let r = InMemoryEntityRepo { store: Table::new(), links: Table::new(), index: Table::new() };
        assert(r.view() =~= RepoModel::<T>::empty());
        r
    }

    fn get_last(&self, prefix: u8, id: [u8; 60]) -> (r: Option<T>)
        requires
            self.wf(),
        ensures
            r == self.view().last(prefix, id),
    {
        let key = index_key(prefix, id);
        match self.index.get(&key) {
            Some(sid) => match self.store.get(sid) {
                Some(e) => Some(*e),
                None => None,
            },
            None => None,
        }
    }

    fn put(&mut self, prefix: u8, entity: T)
        requires
            old(self).wf(),
        ensures
            final(self).wf(),
            final(self).view() == old(self).view().put(
                prefix,
                entity.entity_key(),
                entity.state_ref(),
                entity,
            ),
    {
        let key = index_key(prefix, entity.get_self_ref());
        self.index.insert(key, entity.get_self_state_ref());
        self.store.insert(entity.get_self_state_ref(), entity);
    }

    pub fn get_prediction_predecessor(&self, id: OutputRef) -> (r: Option<OutputRef>)
        requires
            self.wf(),
        ensures
            r == lookup(self.view().links, id),
    {
        match self.links.get(&id) {
            Some(p) => Some(*p),
            None => None,
        }
    }

    pub fn get_last_predicted(&self, id: [u8; 60]) -> (r: Option<Predicted<T>>)
        requires
            self.wf(),
        ensures
            match self.view().last(LAST_PREDICTED_PREFIX, id) {
                Some(e) => r == Some(Predicted(e)),
                None => r is None,
            },
    {
        match self.get_last(LAST_PREDICTED_PREFIX, id) {
            Some(e) => Some(Predicted(e)),
            None => None,
        }
    }

    pub fn get_last_confirmed(&self, id: [u8; 60]) -> (r: Option<Confirmed<T>>)
        requires
            self.wf(),
        ensures
            match self.view().last(LAST_CONFIRMED_PREFIX, id) {
                Some(e) => r == Some(Confirmed(e)),
                None => r is None,
            },
    {
        match self.get_last(LAST_CONFIRMED_PREFIX, id) {
            Some(e) => Some(Confirmed(e)),
            None => None,
        }
    }

    pub fn get_last_unconfirmed(&self, id: [u8; 60]) -> (r: Option<Unconfirmed<T>>)
        requires
            self.wf(),
        ensures
            match self.view().last(LAST_UNCONFIRMED_PREFIX, id) {
                Some(e) => r == Some(Unconfirmed(e)),
                None => r is None,
            },
    {
        match self.get_last(LAST_UNCONFIRMED_PREFIX, id) {
            Some(e) => Some(Unconfirmed(e)),
            None => None,
        }
    }

    pub fn put_predicted(&mut self, traced: Traced<Predicted<T>>)
        requires
            old(self).wf(),
        ensures
            final(self).wf(),
            final(self).view() == old(self).view().put_predicted(
                traced.state.0.entity_key(),
                traced.state.0.state_ref(),
                traced.state.0,
                traced.prev_state_id,
            ),
    {
        let Traced { state: Predicted(entity), prev_state_id } = traced;
        let ghost m0 = self.view();
        self.put(LAST_PREDICTED_PREFIX, entity);
        if let Some(prev_sid) = prev_state_id {
            self.links.insert(entity.get_self_state_ref(), prev_sid);
        }
        assert(self.view() =~= m0.put_predicted(
            entity.entity_key(),
            entity.state_ref(),
            entity,
            prev_state_id,
        ));
    }

    pub fn put_confirmed(&mut self, confirmed: Confirmed<T>)
        requires
            old(self).wf(),
        ensures
            final(self).wf(),
            final(self).view() == old(self).view().put(
                LAST_CONFIRMED_PREFIX,
                confirmed.0.entity_key(),
                confirmed.0.state_ref(),
                confirmed.0,
            ),
    {
        self.put(LAST_CONFIRMED_PREFIX, confirmed.0);
    }

    pub fn put_unconfirmed(&mut self, unconfirmed: Unconfirmed<T>)
        requires
            old(self).wf(),
        ensures
            final(self).wf(),
            final(self).view() == old(self).view().put(
                LAST_UNCONFIRMED_PREFIX,
                unconfirmed.0.entity_key(),
                unconfirmed.0.state_ref(),
                unconfirmed.0,
            ),
    {
        self.put(LAST_UNCONFIRMED_PREFIX, unconfirmed.0);
    }

    pub fn invalidate(&mut self, sid: OutputRef, eid: [u8; 60])
        requires
            old(self).wf(),
        ensures
            final(self).wf(),
            final(self).view() == old(self).view().invalidate(sid, eid),
    {
        let ghost m0 = self.view();
        let predecessor = self.get_prediction_predecessor(sid);
        let last_predicted_index_key = index_key(LAST_PREDICTED_PREFIX, eid);
        let last_confirmed_index_key = index_key(LAST_CONFIRMED_PREFIX, eid);
        let last_unconfirmed_index_key = index_key(LAST_UNCONFIRMED_PREFIX, eid);
        if let Some(predecessor) = predecessor {
            self.index.insert(last_confirmed_index_key, predecessor);
        } else {
            self.index.remove(&last_confirmed_index_key);
        }
        self.index.remove(&last_predicted_index_key);
        self.index.remove(&last_unconfirmed_index_key);
        self.links.remove(&sid);
        self.store.remove(&sid);
        assert(self.view() =~= m0.invalidate(sid, eid));
    }

    pub fn eliminate(&mut self, entity: T)
        requires
            old(self).wf(),
        ensures
            final(self).wf(),
            final(self).view() == old(self).view().eliminate(entity.entity_key(), entity.state_ref()),
    {
        let ghost m0 = self.view();
        let eid = entity.get_self_ref();
        let sid = entity.get_self_state_ref();
        let last_predicted_index_key = index_key(LAST_PREDICTED_PREFIX, eid);
        let last_confirmed_index_key = index_key(LAST_CONFIRMED_PREFIX, eid);
        let last_unconfirmed_index_key = index_key(LAST_UNCONFIRMED_PREFIX, eid);
        self.index.remove(&last_predicted_index_key);
        self.index.remove(&last_confirmed_index_key);
        self.index.remove(&last_unconfirmed_index_key);
        self.links.remove(&sid);
        self.store.remove(&sid);
        assert(self.view() =~= m0.eliminate(entity.entity_key(), entity.state_ref()));
    }

    pub fn may_exist(&self, sid: OutputRef) -> (r: bool)
        requires
            self.wf(),
        ensures
            r == self.view().store.contains_key(sid),
    {
        self.store.contains_key(&sid)
    }

    pub fn get_state(&self, sid: OutputRef) -> (r: Option<T>)
        requires
            self.wf(),
        ensures
            r == lookup(self.view().store, sid),
    {
        match self.store.get(&sid) {
            Some(e) => Some(*e),
            None => None,
        }
    }
}

/// A repository that records nothing and finds nothing.
#[derive(Clone, Copy, Debug, PartialEq, Eq, Hash)]
pub struct NoopEntityRepo;

impl NoopEntityRepo {
    pub fn get_prediction_predecessor(&self, id: OutputRef) -> (r: Option<OutputRef>)
        ensures
            r is None,
    {
        None
    }

    pub fn get_last_predicted<T>(&self, id: [u8; 60]) -> (r: Option<Predicted<T>>)
        ensures
            r is None,
    {
        None
    }

    pub fn get_last_confirmed<T>(&self, id: [u8; 60]) -> (r: Option<Confirmed<T>>)
        ensures
            r is None,
    {
        None
    }

    pub fn get_last_unconfirmed<T>(&self, id: [u8; 60]) -> (r: Option<Unconfirmed<T>>)
        ensures
            r is None,
    {
        None
    }

    pub fn put_predicted<T>(&mut self, entity: Traced<Predicted<T>>)
        ensures
            *final(self) == *old(self),
    {
    }

    pub fn put_confirmed<T>(&mut self, entity: Confirmed<T>)
        ensures
            *final(self) == *old(self),
    {
    }

    pub fn put_unconfirmed<T>(&mut self, entity: Unconfirmed<T>)
        ensures
            *final(self) == *old(self),
    {
    }

    pub fn invalidate(&mut self, sid: OutputRef, eid: [u8; 60])
        ensures
            *final(self) == *old(self),
    {
    }

    pub fn eliminate<T>(&mut self, entity: T)
        ensures
            *final(self) == *old(self),
    {
    }

    pub fn may_exist(&self, sid: OutputRef) -> (r: bool)
        ensures
            !r,
    {
        false
    }

    pub fn get_state<T>(&self, sid: OutputRef) -> (r: Option<T>)
        ensures
            r is None,
    {
        None
    }
}

} // verus!
