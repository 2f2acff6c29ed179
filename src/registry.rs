use crate::frame::Frame;
use tokio::sync::mpsc::UnboundedSender;
use vstd::prelude::*;

verus! {

/// A registered connection: its identity and the producer handle of its
/// outbound queue.
pub struct Entry {
    pub id: usize,
    pub tx: UnboundedSender<Frame>,
}

/// Why a registration was turned down.
#[derive(Clone, Copy, Debug, PartialEq, Eq)]
pub enum RegisterError {
    /// The identity is already registered.
    DuplicateId,
}

/// The set of live connections, in order of registration.
///
/// Readers enumerate it through `entries`; `register` and `unregister` need
/// exclusive access, which the embedding program provides with a
/// reader/writer lock around the whole registry.
pub struct Registry {
    entries: Vec<Entry>,
}

/// The identities of a sequence of entries, in the same order.
pub open spec fn ids_of(entries: Seq<Entry>) -> Seq<usize> {
    entries.map_values(|e: Entry| e.id)
}

impl Registry {
    /// The registered entries, each identity with its queue's handle, in
    /// enumeration order.
    pub closed spec fn entries_spec(&self) -> Seq<Entry> {
        self.entries@
    }

    /// The identities of the registered connections, in enumeration order.
    pub open spec fn ids(&self) -> Seq<usize> {
        ids_of(self.entries_spec())
    }

    /// Each identity is registered at most once.
    pub open spec fn wf(&self) -> bool {
        self.ids().no_duplicates()
    }

    pub fn new() -> (r: Registry)
        ensures
            r.wf(),
            r.ids() == Seq::<usize>::empty(),
    {
        let r = Registry { entries: Vec::new() };
        assert(r.ids() =~= Seq::<usize>::empty());
        r
    }

    /// The number of registered connections.
    pub fn len(&self) -> (n: usize)
        ensures
            n == self.ids().len(),
    {
        self.entries.len()
    }

    /// Whether `id` is registered.
    pub fn contains(&self, id: usize) -> (r: bool)
        ensures
            r == self.ids().contains(id),
    {
        let mut i: usize = 0;
        while i < self.entries.len()
            invariant
                i <= self.entries@.len(),
                forall|j: int| 0 <= j < i ==> self.ids()[j] != id,
            decreases self.entries@.len() - i,
        {
            if self.entries[i].id == id {
                assert(self.ids()[i as int] == id);
                return true;
            }
            i += 1;
        }
        false
    }

    /// The registered entries, in enumeration order: the snapshot a broadcast
    /// walks. Holding `&self` keeps writers out for as long as it is used.
    pub fn entries(&self) -> (r: &[Entry])
        ensures
            r@ == self.entries_spec(),
    {
        self.entries.as_slice()
    }

    /// The registered identities, in enumeration order.
    pub fn snapshot_ids(&self) -> (r: Vec<usize>)
        ensures
            r@ == self.ids(),
    {
        let mut r: Vec<usize> = Vec::new();
        let mut i: usize = 0;
        while i < self.entries.len()
            invariant
                i <= self.entries@.len(),
                r@ == self.ids().take(i as int),
            decreases self.entries@.len() - i,
        {
            r.push(self.entries[i].id);
            i += 1;
            assert(r@ =~= self.ids().take(i as int));
        }
        assert(self.ids().take(i as int) =~= self.ids());
        r
    }

    /// Adds `(id, tx)` at the end of the enumeration order, unless `id` is
    /// already registered, in which case nothing changes.
    pub fn register(&mut self, id: usize, tx: UnboundedSender<Frame>) -> (r: Result<(), RegisterError>)
        requires
            old(self).wf(),
        ensures
            final(self).wf(),
            r is Ok <==> !old(self).ids().contains(id),
            r is Ok ==> final(self).entries_spec() == old(self).entries_spec().push(Entry { id, tx }),
            r is Ok ==> final(self).ids() == old(self).ids().push(id),
            r is Err ==> final(self).entries_spec() == old(self).entries_spec(),
    {
        if self.contains(id) {
            return Err(RegisterError::DuplicateId);
        }
        self.entries.push(Entry { id, tx });
        assert(self.ids() =~= old(self).ids().push(id));
        Ok(())
    }

    /// Removes the entry of `id` if there is one, and reports whether there
    /// was. Removing an absent identity changes nothing.
    pub fn unregister(&mut self, id: usize) -> (removed: bool)
        requires
            old(self).wf(),
        ensures
            final(self).wf(),
            removed == old(self).ids().contains(id),
            !final(self).ids().contains(id),
            !removed ==> final(self).entries_spec() == old(self).entries_spec(),
            removed ==> exists|i: int|
                0 <= i < old(self).ids().len() && old(self).ids()[i] == id
                    && final(self).entries_spec() == old(self).entries_spec().remove(i)
                    && final(self).ids() == old(self).ids().remove(i),
    {
        let mut i: usize = 0;
        while i < self.entries.len()
            invariant
                i <= self.entries@.len(),
                self.entries@ == old(self).entries@,
                old(self).wf(),
                forall|j: int| 0 <= j < i ==> self.ids()[j] != id,
            decreases self.entries@.len() - i,
        {
            if self.entries[i].id == id {
                let ghost before = self.ids();
                assert(before == old(self).ids());
                assert(before.no_duplicates());
                assert(before[i as int] == id);
                let _gone = self.entries.remove(i);
                assert(self.ids() =~= before.remove(i as int));
                assert forall|j: int, k: int|
                    0 <= j < self.ids().len() && 0 <= k < self.ids().len() && j != k
                    implies self.ids()[j] != self.ids()[k] by {
                    let jj = if j < i { j } else { j + 1 };
                    let kk = if k < i { k } else { k + 1 };
                    assert(self.ids()[j] == before[jj]);
                    assert(self.ids()[k] == before[kk]);
                    assert(before[jj] != before[kk]);
                }
                assert forall|j: int| 0 <= j < self.ids().len() implies self.ids()[j] != id by {
                    let jj = if j < i { j } else { j + 1 };
                    assert(self.ids()[j] == before[jj]);
                    assert(before[i as int] == id);
                    assert(before[jj] != before[i as int]);
                }
                return true;
            }
            i += 1;
        }
        false
    }
}

} // verus!
