use crate::frame::{Frame, FrameModel};
use crate::outbound::{enqueue, Offer};
use crate::registry::{ids_of, Entry, Registry};
use vstd::prelude::*;

verus! {

/// What became of one copy of a broadcast frame.
pub struct Delivery {
    /// The connection whose outbound queue the copy was offered to.
    pub id: usize,
    /// The hand-over of the copy to that connection's queue.
    pub offer: Offer,
}

impl Delivery {
    /// Whether the queue took the copy; `false` when that connection's
    /// consumer had already gone, which is not an error for the broadcast.
    pub fn accepted(&self) -> (r: bool)
        ensures
            r == self.offer.accepted_spec(),
    {
        self.offer.accepted()
    }
}

/// The connections that a broadcast of `m` offers a copy to, in order, when
/// the registered identities are `ids`: all of them for a text frame, none
/// for any other kind.
pub open spec fn recipients(m: FrameModel, ids: Seq<usize>) -> Seq<usize> {
    if m is Text {
        ids
    } else {
        Seq::empty()
    }
}

/// The identities of a delivery report, in order.
pub open spec fn delivered_ids(report: Seq<Delivery>) -> Seq<usize> {
    report.map_values(|d: Delivery| d.id)
}

/// Offers a copy of `msg` to the outbound queue of every registered
/// connection, sender included, when `msg` is text; does nothing otherwise.
/// A queue whose consumer is gone refuses its copy, and the others are served
/// all the same. The report lists one delivery per recipient, in enumeration
/// order, each with the record of `msg` handed to that recipient's own queue.
pub fn broadcast_msg(msg: &Frame, users: &Registry) -> (report: Vec<Delivery>)
    ensures
        report@.len() == recipients(msg@, users.ids()).len(),
        delivered_ids(report@) == recipients(msg@, users.ids()),
        forall|i: int|
            0 <= i < report@.len() ==> report@[i].offer.to_spec() == users.entries_spec()[i].tx
                && report@[i].offer.frame_spec() == msg@,
{
    let mut report: Vec<Delivery> = Vec::new();
    if !msg.is_text() {
        assert(delivered_ids(report@) =~= recipients(msg@, users.ids()));
        return report;
    }
    let entries: &[Entry] = users.entries();
    let mut i: usize = 0;
    while i < entries.len()
        invariant
            i <= entries@.len(),
            entries@ == users.entries_spec(),
            delivered_ids(report@) == users.ids().take(i as int),
            report@.len() == i,
            forall|k: int|
                0 <= k < i ==> report@[k].offer.to_spec() == entries@[k].tx
                    && report@[k].offer.frame_spec() == msg@,
        decreases entries@.len() - i,
    {
        let entry = &entries[i];
        assert(ids_of(entries@)[i as int] == entry.id);
        let ghost prev = report@;
        let offer = enqueue(&entry.tx, msg.duplicate());
        report.push(Delivery { id: entry.id, offer });
        assert(delivered_ids(report@) =~= delivered_ids(prev).push(entry.id));
        i += 1;
        assert(delivered_ids(report@) =~= users.ids().take(i as int));
    }
    assert(users.ids().take(i as int) =~= users.ids());
    report
}

/// A text frame reaches every registered connection, the sender's own
/// included, exactly once each, and nothing outside the registry.
pub proof fn lemma_text_reaches_each_once(users: Registry, m: FrameModel, id: usize)
    requires
        users.wf(),
        m is Text,
    ensures
        recipients(m, users.ids()).len() == users.ids().len(),
        recipients(m, users.ids()).contains(id) <==> users.ids().contains(id),
        users.ids().contains(id) ==> exists|i: int|
            0 <= i < recipients(m, users.ids()).len() && recipients(m, users.ids())[i] == id
                && forall|j: int|
                    0 <= j < recipients(m, users.ids()).len() && recipients(m, users.ids())[j] == id
                        ==> j == i,
{
    let r = recipients(m, users.ids());
    if users.ids().contains(id) {
        let i = choose|i: int| 0 <= i < r.len() && r[i] == id;
        assert forall|j: int| 0 <= j < r.len() && r[j] == id implies j == i by {
            assert(users.ids().no_duplicates());
        }
    }
}

/// A frame of any kind but text reaches no connection: `Session::step`
/// answers it with `Skip`, and `broadcast_msg` offers it to nobody.
pub proof fn lemma_non_text_reaches_none(m: FrameModel, ids: Seq<usize>)
    requires
        !(m is Text),
    ensures
        recipients(m, ids).len() == 0,
{
}

/// Once `id` has been unregistered (by `unregister`, or by `disconnect` when
/// its session ends), no later broadcast offers it a copy, whatever other
/// identities are registered afterwards.
pub proof fn lemma_unregistered_gets_nothing(
    before: Registry,
    after: Registry,
    later: Seq<usize>,
    id: usize,
    m: FrameModel,
)
    requires
        before.wf(),
        after.wf(),
        before.ids().contains(id),
        exists|i: int|
            0 <= i < before.ids().len() && before.ids()[i] == id
                && after.ids() == before.ids().remove(i),
        !later.contains(id),
    ensures
        !recipients(m, after.ids() + later).contains(id),
{
    let i = choose|i: int|
        0 <= i < before.ids().len() && before.ids()[i] == id
            && after.ids() == before.ids().remove(i);
    let s = after.ids() + later;
    if m is Text {
        assert forall|k: int| 0 <= k < s.len() implies s[k] != id by {
            if k < after.ids().len() {
                let kk = if k < i { k } else { k + 1 };
                assert(after.ids()[k] == before.ids()[kk]);
                assert(before.ids().no_duplicates());
            } else {
                assert(s[k] == later[k - after.ids().len()]);
            }
        }
    }
}

} // verus!
