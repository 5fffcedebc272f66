//! The server's registry of connected peers: each connection's id and the
//! sender that queues frames for it.
//!
//! Broadcasting takes a [`Registry::snapshot`], releases the registry, sends on
//! each copied sender, and then removes in one pass the peers whose send failed
//! ([`dead_peers`], [`Registry::prune`]).
use vstd::prelude::*;

verus! {

/// Identifies one accepted connection.
pub type ConnId = u64;

/// Registered connections in the order they were registered.
pub struct Registry<S> {
    entries: Vec<(ConnId, S)>,
}

/// Whether `id` occurs in `ids`.
pub fn contains_id(ids: &[ConnId], id: ConnId) -> (r: bool)
    ensures
        r == ids@.contains(id),
{
    let mut i: usize = 0;
    while i < ids.len()
        invariant
            i <= ids@.len(),
            forall|k: int| 0 <= k < i ==> ids@[k] != id,
        decreases ids@.len() - i,
    {
        if ids[i] == id {
            assert(ids@[i as int] == id);
            return true;
        }
        i = i + 1;
    }
    false
}

/// The entries of `s` whose id is not in `ids`.
pub open spec fn without_ids<S>(s: Seq<(ConnId, S)>, ids: Seq<ConnId>) -> Seq<(ConnId, S)> {
    s.filter(|e: (ConnId, S)| !ids.contains(e.0))
}

impl<S> View for Registry<S> {
    type V = Seq<(ConnId, S)>;

    closed spec fn view(&self) -> Seq<(ConnId, S)> {
        self.entries@
    }
}

impl<S> Registry<S> {
    /// No connection registered.
    pub fn new() -> (r: Registry<S>)
        ensures
            r@ == Seq::<(ConnId, S)>::empty(),
    {
        Registry { entries: Vec::new() }
    }

    /// The number of registered connections.
    pub fn len(&self) -> (r: usize)
        ensures
            r == self@.len(),
    {
        self.entries.len()
    }

    /// Registers `sender` for `id`, in place of any sender `id` had.
    pub fn register(&mut self, id: ConnId, sender: S)
        ensures
            final(self)@ == without_ids(old(self)@, seq![id]).push((id, sender)),
    {
        self.unregister(id);
        self.entries.push((id, sender));
    }

    /// Removes `id`, if registered.
    pub fn unregister(&mut self, id: ConnId)
        ensures
            final(self)@ == without_ids(old(self)@, seq![id]),
    {
        let ids = [id];
        assert(ids@ =~= seq![id]);
        self.prune(&ids);
    }

    /// Removes every connection whose id is in `dead`, keeping the order of the rest.
    pub fn prune(&mut self, dead: &[ConnId])
        ensures
            final(self)@ == without_ids(old(self)@, dead@),
    {
        let ghost orig = self.entries@;
        let ghost keep = |e: (ConnId, S)| !dead@.contains(e.0);
        let mut i: usize = 0;
        let ghost mut j: int = 0;
        assert(orig.subrange(0, 0).filter(keep) =~= Seq::<(ConnId, S)>::empty()) by {
            reveal(Seq::filter);
        }
        assert(self.entries@.subrange(0, 0) =~= Seq::<(ConnId, S)>::empty());
        assert(self.entries@.subrange(0, self.entries@.len() as int) =~= orig);
        while i < self.entries.len()
            invariant
                keep == (|e: (ConnId, S)| !dead@.contains(e.0)),
                0 <= j <= orig.len(),
                i <= self.entries@.len(),
                self.entries@.subrange(0, i as int) == orig.subrange(0, j).filter(keep),
                self.entries@.subrange(i as int, self.entries@.len() as int) == orig.subrange(
                    j,
                    orig.len() as int,
                ),
            decreases self.entries@.len() - i,
        {
            let ghost before = self.entries@;
            assert(before.subrange(i as int, before.len() as int).len() == before.len() - i);
            assert(j < orig.len());
            assert(before[i as int] == orig[j]) by {
                assert(before.subrange(i as int, before.len() as int)[0] == before[i as int]);
                assert(orig.subrange(j, orig.len() as int)[0] == orig[j]);
            }
            assert forall|k: int| i <= k < before.len() implies #[trigger] before[k] == orig[k - i
                + j] by {
                assert(before.subrange(i as int, before.len() as int)[k - i] == orig.subrange(
                    j,
                    orig.len() as int,
                )[k - i]);
            }
            proof {
                orig.subrange(0, j).lemma_filter_push(orig[j], keep);
                assert(orig.subrange(0, j + 1) =~= orig.subrange(0, j).push(orig[j]));
            }
            let id_i = self.entries[i].0;
            if contains_id(dead, id_i) {
                self.entries.remove(i);
                assert(self.entries@.subrange(0, i as int) =~= before.subrange(0, i as int));
                assert(self.entries@.subrange(i as int, self.entries@.len() as int)
                    =~= orig.subrange(j + 1, orig.len() as int));
            } else {
                i = i + 1;
                assert(self.entries@.subrange(0, i as int) =~= before.subrange(0, i - 1).push(
                    orig[j],
                ));
                assert(self.entries@.subrange(i as int, self.entries@.len() as int)
                    =~= orig.subrange(j + 1, orig.len() as int));
            }
            proof {
                j = j + 1;
            }
        }
        assert(orig.subrange(j, orig.len() as int).len() == 0);
        assert(orig.subrange(0, orig.len() as int) =~= orig);
        assert(self.entries@ =~= self.entries@.subrange(0, i as int));
    }
}

impl<S: Clone> Registry<S> {
    /// A copy of every registered connection, in order, to send on after the
    /// registry is released.
    pub fn snapshot(&self) -> (r: Vec<(ConnId, S)>)
        ensures
            r@.len() == self@.len(),
            forall|k: int| 0 <= k < r@.len() ==> #[trigger] r@[k].0 == self@[k].0 && cloned(
                self@[k].1,
                r@[k].1,
            ),
    {
        let mut out: Vec<(ConnId, S)> = Vec::new();
        let mut i: usize = 0;
        while i < self.entries.len()
            invariant
                i <= self.entries@.len(),
                out@.len() == i,
                forall|k: int| 0 <= k < i ==> #[trigger] out@[k].0 == self.entries@[k].0 && cloned(
                    self.entries@[k].1,
                    out@[k].1,
                ),
            decreases self.entries@.len() - i,
        {
            let c = self.entries[i].1.clone();
            out.push((self.entries[i].0, c));
            i = i + 1;
        }
        out
    }
}

/// The peers of a snapshot whose send failed: `delivered[k]` tells whether the
/// send to `ids[k]` went through.
pub fn dead_peers(ids: &[ConnId], delivered: &[bool]) -> (r: Vec<ConnId>)
    requires
        ids@.len() == delivered@.len(),
    ensures
        forall|id: ConnId| r@.contains(id) <==> exists|k: int|
            0 <= k < ids@.len() && ids@[k] == id && !delivered@[k],
{
    let mut out: Vec<ConnId> = Vec::new();
    let mut i: usize = 0;
    while i < ids.len()
        invariant
            i <= ids@.len(),
            ids@.len() == delivered@.len(),
            forall|id: ConnId| out@.contains(id) <==> exists|k: int|
                0 <= k < i && ids@[k] == id && !delivered@[k],
        decreases ids@.len() - i,
    {
        let ghost prev = out@;
        if !delivered[i] {
            out.push(ids[i]);
        }
        assert forall|id: ConnId| out@.contains(id) <==> exists|k: int|
            0 <= k < i + 1 && ids@[k] == id && !delivered@[k] by {
            if out@.contains(id) {
                let m = choose|m: int| 0 <= m < out@.len() && out@[m] == id;
                if m < prev.len() {
                    assert(prev[m] == id);
                    assert(prev.contains(id));
                } else {
                    assert(ids@[i as int] == id && !delivered@[i as int]);
                }
            }
            if exists|k: int| 0 <= k < i + 1 && ids@[k] == id && !delivered@[k] {
                let k = choose|k: int| 0 <= k < i + 1 && ids@[k] == id && !delivered@[k];
                if k < i {
                    assert(prev.contains(id));
                    let m = choose|m: int| 0 <= m < prev.len() && prev[m] == id;
                    assert(out@[m] == id);
                } else {
                    assert(out@[out@.len() - 1] == id);
                }
            }
        }
        i = i + 1;
    }
    out
}

} // verus!
