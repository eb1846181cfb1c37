//! The owning collection of layers, keyed by identity.  It holds, per
//! identity, an indirection cell that is either a remote placeholder or
//! a materialized layer, and performs the swap from the one to the
//! other when a download succeeds.  Readers re-resolve by identity
//! rather than retain a direct reference.

use vstd::prelude::*;
use crate::ids::LayerIdentity;
use crate::materialized::MaterializedLayer;
use crate::remote_layer::{
    grants_ownership, same_layer, DownloadOutcome, DownloadToken, RemoteLayer,
};

verus! {

/// A layer as the collection holds it: exactly two possibilities, so
/// the read path branches exhaustively.
#[derive(Debug)]
pub enum LayerObject {
    Remote(RemoteLayer),
    Materialized(MaterializedLayer),
}

impl LayerObject {
    /// The identity of the layer, of either kind.
    pub open spec fn identity_spec(&self) -> LayerIdentity {
        match self {
            LayerObject::Remote(r) => r.identity_spec(),
            LayerObject::Materialized(m) => m.identity_spec(),
        }
    }

    /// Internal consistency of the layer, of either kind.
    pub open spec fn wf(&self) -> bool {
        match self {
            LayerObject::Remote(r) => r.wf(),
            LayerObject::Materialized(m) => m.wf(),
        }
    }

    /// Returns the layer's identity.
    pub fn identity(&self) -> (r: LayerIdentity)
        ensures
            r == self.identity_spec(),
    {
        match self {
            LayerObject::Remote(l) => l.identity(),
            LayerObject::Materialized(m) => m.identity(),
        }
    }

    /// Whether this cell still holds a remote placeholder.
    pub fn is_remote_layer(&self) -> (r: bool)
        ensures
            r == (self is Remote),
    {
        match self {
            LayerObject::Remote(_) => true,
            LayerObject::Materialized(_) => false,
        }
    }

    /// The placeholder inside, if the layer is still remote.
    pub fn downcast_remote_layer(&self) -> (r: Option<&RemoteLayer>)
        ensures
            match r {
                Some(l) => self matches LayerObject::Remote(inner) && *l == inner,
                None => self is Materialized,
            },
    {
        match self {
            LayerObject::Remote(l) => Some(l),
            LayerObject::Materialized(_) => None,
        }
    }

    /// The local path of the layer's bytes: present exactly when the
    /// layer is materialized.
    pub fn local_path(&self) -> (r: Option<String>)
        ensures
            match self {
                LayerObject::Remote(_) => r is None,
                LayerObject::Materialized(m) => r matches Some(p) && p@ == m.path@,
            },
    {
        match self {
            LayerObject::Remote(l) => l.local_path(),
            LayerObject::Materialized(m) => m.local_path(),
        }
    }
}

/// The collection of layers of one timeline, keyed by identity.
#[derive(Debug)]
pub struct LayerCollection {
    pub entries: Vec<(LayerIdentity, LayerObject)>,
}

impl LayerCollection {
    /// Internal consistency: identities are unique keys, and each cell
    /// holds a consistent layer filed under its own identity.
    pub open spec fn wf(&self) -> bool {
        &&& forall|i: int, j: int|
            0 <= i < j < self.entries@.len() ==> self.entries@[i].0 != self.entries@[j].0
        &&& forall|i: int|
            0 <= i < self.entries@.len() ==> (#[trigger] self.entries@[i]).1.wf()
                && self.entries@[i].1.identity_spec() == self.entries@[i].0
    }

    /// Whether some layer is filed under `id`.
    pub open spec fn contains_id(&self, id: LayerIdentity) -> bool {
        exists|i: int| 0 <= i < self.entries@.len() && (#[trigger] self.entries@[i]).0 == id
    }

    /// Whether the layer filed under `id` is still a remote
    /// placeholder.
    pub open spec fn resolves_remote(&self, id: LayerIdentity) -> bool {
        exists|i: int|
            0 <= i < self.entries@.len() && (#[trigger] self.entries@[i]).0 == id
                && self.entries@[i].1 is Remote
    }

    /// An empty collection.
    pub fn new() -> (r: LayerCollection)
        ensures
            r.wf(),
            r.entries@.len() == 0,
    {
        LayerCollection { entries: Vec::new() }
    }

    /// The position of `id` in the backing vector, if present.
    fn position(&self, id: &LayerIdentity) -> (r: Option<usize>)
        ensures
            match r {
                Some(i) => i < self.entries@.len() && self.entries@[i as int].0 == *id,
                None => !self.contains_id(*id),
            },
    {
        let n = self.entries.len();
        let mut i: usize = 0;
        while i < n
            invariant
                i <= n,
                n == self.entries@.len(),
                forall|j: int| 0 <= j < i ==> (#[trigger] self.entries@[j]).0 != *id,
            decreases n - i,
        {
            if self.entries[i].0 == *id {
                return Some(i);
            }
            i += 1;
        }
        None
    }

    /// Resolves an identity to the layer currently filed under it.
    /// After a successful materialization this observes the swapped-in
    /// local layer, never the stale placeholder.
    pub fn resolve(&self, id: &LayerIdentity) -> (r: Option<&LayerObject>)
        requires
            self.wf(),
        ensures
            (r is Some) == self.contains_id(*id),
            r matches Some(obj) ==> obj.identity_spec() == *id && obj.wf() && forall|i: int|
                0 <= i < self.entries@.len() && (#[trigger] self.entries@[i]).0 == *id
                    ==> *obj == self.entries@[i].1,
    {
        match self.position(id) {
            Some(i) => Some(&self.entries[i].1),
            None => None,
        }
    }

    /// Files a freshly created remote placeholder under its identity.
    /// The collection learns of remote-only layers this way; a layer
    /// already present is never filed a second time.
    pub fn insert_remote(&mut self, layer: RemoteLayer)
        requires
            old(self).wf(),
            layer.wf(),
            !old(self).contains_id(layer.identity_spec()),
        ensures
            final(self).wf(),
            final(self).entries@ == old(self).entries@.push(
                (layer.identity_spec(), LayerObject::Remote(layer)),
            ),
            final(self).contains_id(layer.identity_spec()),
    {
        let id = layer.identity();
        self.entries.push((id, LayerObject::Remote(layer)));
        proof {
            let n = self.entries@.len() - 1;
            assert(self.entries@[n].0 == id);
        }
    }

    /// The entry at `i` is the entry of `old_c` with its placeholder's
    /// download slot stepped to the state of `rl`; everything else is
    /// untouched.
    pub open spec fn slot_stepped(
        old_c: LayerCollection,
        new_c: LayerCollection,
        i: int,
        rl: RemoteLayer,
    ) -> bool {
        new_c.entries@ == old_c.entries@.update(i, (old_c.entries@[i].0, LayerObject::Remote(rl)))
    }

    /// Requests a download of the layer filed under `id`, if it is
    /// still a remote placeholder.  The slot of that placeholder alone
    /// is stepped as `begin_download` steps it: the caller is granted
    /// ownership of the transfer exactly when no episode was in
    /// flight, and otherwise subscribes to the one that is.
    pub fn begin_download_of(&mut self, id: &LayerIdentity) -> (r: Option<DownloadToken>)
        requires
            old(self).wf(),
        ensures
            final(self).wf(),
            (r is Some) == old(self).resolves_remote(*id),
            r is None ==> final(self).entries@ == old(self).entries@,
            r matches Some(token) ==> exists|i: int, rl2: RemoteLayer|
                {
                    &&& 0 <= i < old(self).entries@.len()
                    &&& old(self).entries@[i].0 == *id
                    &&& old(self).entries@[i].1 is Remote
                    &&& same_layer(old(self).entries@[i].1->Remote_0, rl2)
                    &&& rl2.is_downloading()
                    &&& rl2.wf() == old(self).entries@[i].1->Remote_0.wf()
                    &&& #[trigger] Self::slot_stepped(*old(self), *final(self), i, rl2)
                    &&& (token is Owner) == grants_ownership(
                        old(self).entries@[i].1->Remote_0.is_downloading(),
                    )
                },
    {
        let pos = self.position(id);
        match pos {
            Some(i) => {
                let ghost old_entries = self.entries@;
                let mut entry = self.entries.remove(i);
                let token_opt: Option<DownloadToken> = match &mut entry.1 {
                    LayerObject::Remote(rl) => Some(rl.begin_download()),
                    LayerObject::Materialized(_) => None,
                };
                self.entries.insert(i, entry);
                proof {
                    assert(self.entries@ =~= old_entries.update(
                        i as int,
                        self.entries@[i as int],
                    ));
                    if token_opt is None {
                        assert(self.entries@ =~= old_entries);
                        assert(forall|k: int|
                            0 <= k < old_entries.len() && (#[trigger] old_entries[k]).0 == *id
                                ==> k == i);
                    } else {
                        let rl2 = self.entries@[i as int].1->Remote_0;
                        let old_rl = old_entries[i as int].1->Remote_0;
                        assert(Self::slot_stepped(*old(self), *self, i as int, rl2)) by {
                            assert(self.entries@ =~= old(self).entries@.update(
                                i as int,
                                (old(self).entries@[i as int].0, LayerObject::Remote(rl2)),
                            ));
                        };
                        assert(rl2.identity_spec() == old_rl.identity_spec());
                        assert forall|p: int, q: int|
                            0 <= p < q < self.entries@.len() implies self.entries@[p].0
                            != self.entries@[q].0 by {
                            assert(self.entries@[p].0 == old_entries[p].0);
                            assert(self.entries@[q].0 == old_entries[q].0);
                        };
                        assert forall|k: int|
                            0 <= k < self.entries@.len() implies (#[trigger] self.entries@[k]).1.wf()
                            && self.entries@[k].1.identity_spec() == self.entries@[k].0 by {
                            if k != i as int {
                                assert(self.entries@[k] == old_entries[k]);
                            }
                        };
                    }
                }
                token_opt
            },
            None => {
                proof {
                    assert(!old(self).resolves_remote(*id));
                }
                None
            },
        }
    }

    /// Ends the download episode of the layer filed under `id`, if it
    /// is still a remote placeholder: the outcome is broadcast to every
    /// waiter and the slot returns to idle, so a later request is
    /// accepted again.  Returns whether an episode was actually in
    /// flight.
    pub fn finish_download_of(&mut self, id: &LayerIdentity, outcome: DownloadOutcome) -> (r:
        bool)
        requires
            old(self).wf(),
        ensures
            final(self).wf(),
            !old(self).resolves_remote(*id) ==> !r && final(self).entries@ == old(
                self,
            ).entries@,
            old(self).resolves_remote(*id) ==> exists|i: int, rl2: RemoteLayer|
                {
                    &&& 0 <= i < old(self).entries@.len()
                    &&& old(self).entries@[i].0 == *id
                    &&& old(self).entries@[i].1 is Remote
                    &&& same_layer(old(self).entries@[i].1->Remote_0, rl2)
                    &&& !rl2.is_downloading()
                    &&& rl2.wf() == old(self).entries@[i].1->Remote_0.wf()
                    &&& #[trigger] Self::slot_stepped(*old(self), *final(self), i, rl2)
                    &&& r == old(self).entries@[i].1->Remote_0.is_downloading()
                },
    {
        let pos = self.position(id);
        match pos {
            Some(i) => {
                let ghost old_entries = self.entries@;
                let mut entry = self.entries.remove(i);
                let was: Option<bool> = match &mut entry.1 {
                    LayerObject::Remote(rl) => Some(rl.finish_download(outcome)),
                    LayerObject::Materialized(_) => None,
                };
                self.entries.insert(i, entry);
                proof {
                    assert(self.entries@ =~= old_entries.update(
                        i as int,
                        self.entries@[i as int],
                    ));
                    if was is None {
                        assert(self.entries@ =~= old_entries);
                        assert(forall|k: int|
                            0 <= k < old_entries.len() && (#[trigger] old_entries[k]).0 == *id
                                ==> k == i);
                    } else {
                        let rl2 = self.entries@[i as int].1->Remote_0;
                        let old_rl = old_entries[i as int].1->Remote_0;
                        assert(Self::slot_stepped(*old(self), *self, i as int, rl2)) by {
                            assert(self.entries@ =~= old(self).entries@.update(
                                i as int,
                                (old(self).entries@[i as int].0, LayerObject::Remote(rl2)),
                            ));
                        };
                        assert(rl2.identity_spec() == old_rl.identity_spec());
                        assert forall|p: int, q: int|
                            0 <= p < q < self.entries@.len() implies self.entries@[p].0
                            != self.entries@[q].0 by {
                            assert(self.entries@[p].0 == old_entries[p].0);
                            assert(self.entries@[q].0 == old_entries[q].0);
                        };
                        assert forall|k: int|
                            0 <= k < self.entries@.len() implies (#[trigger] self.entries@[k]).1.wf()
                            && self.entries@[k].1.identity_spec() == self.entries@[k].0 by {
                            if k != i as int {
                                assert(self.entries@[k] == old_entries[k]);
                            }
                        };
                    }
                }
                match was {
                    Some(b) => b,
                    None => false,
                }
            },
            None => {
                proof {
                    assert(!old(self).resolves_remote(*id));
                }
                false
            },
        }
    }

    /// The atomic swap of materialization: the cell filed under `id`,
    /// until now a remote placeholder, is replaced by the materialized
    /// layer carrying the same identity.  Every other entry is left
    /// untouched, and a later `resolve` of `id` observes only the
    /// materialized layer.  The displaced placeholder is handed back to
    /// the caller — the owner of the download episode — who reports the
    /// outcome on it afterwards, so that the swap is complete before
    /// any waiter can observe the broadcast.
    pub fn materialize(&mut self, id: &LayerIdentity, layer: MaterializedLayer) -> (r:
        LayerObject)
        requires
            old(self).wf(),
            layer.wf(),
            layer.identity_spec() == *id,
            old(self).resolves_remote(*id),
        ensures
            final(self).wf(),
            final(self).entries@.len() == old(self).entries@.len(),
            forall|i: int|
                0 <= i < old(self).entries@.len() && (#[trigger] old(self).entries@[i]).0 != *id
                    ==> final(self).entries@[i] == old(self).entries@[i],
            forall|i: int|
                0 <= i < old(self).entries@.len() && (#[trigger] old(self).entries@[i]).0 == *id
                    ==> final(self).entries@[i] == (*id, LayerObject::Materialized(layer)) && r
                    == old(self).entries@[i].1,
            r is Remote,
            final(self).contains_id(*id),
            !final(self).resolves_remote(*id),
    {
        let pos = self.position(id);
        match pos {
            Some(i) => {
                let ghost old_entries = self.entries@;
                let prev = self.entries.remove(i);
                self.entries.insert(i, (*id, LayerObject::Materialized(layer)));
                proof {
                    assert(self.entries@ =~= old_entries.update(
                        i as int,
                        (*id, LayerObject::Materialized(layer)),
                    ));
                    assert(self.entries@[i as int].0 == *id);
                    assert(forall|k: int|
                        0 <= k < old_entries.len() && (#[trigger] old_entries[k]).0 == *id
                            ==> k == i);
                }
                prev.1
            },
            None => {
                // Unreachable: a layer is filed under `id` by the
                // precondition.
                proof {
                    assert(false);
                }
                let prev = self.entries.remove(0);
                prev.1
            },
        }
    }
}

} // verus!
