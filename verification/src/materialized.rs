//! A fully downloaded, locally resident layer: what a remote placeholder
//! is replaced by once its bytes have arrived.  It answers every
//! capability of the layer interface with no "remote" restriction.

use vstd::prelude::*;
use crate::ids::{Key, KeyRange, LayerIdentity, LayerKind, Lsn, LsnRange, TenantId, TimelineId};
use crate::error::LayerError;
use crate::filename::{layer_name_seq, LayerFileName};
use crate::hex::hex_seq;
use crate::value::{LayerRecord, Value, ValueReconstructResult, ValueReconstructState};

verus! {

/// Whether `rec` contributes to a point read of `key` over the LSN
/// range `lsns`.
pub open spec fn record_matches(rec: LayerRecord, key: Key, lsns: LsnRange) -> bool {
    rec.key == key && lsns.start.0 <= rec.lsn.0 < lsns.end.0
}

/// `new_state` extends `old_state` by exactly the WAL record of `rec`,
/// leaving the base image untouched.
pub open spec fn pushes_record(
    old_state: ValueReconstructState,
    new_state: ValueReconstructState,
    rec: LayerRecord,
) -> bool {
    &&& new_state.img == old_state.img
    &&& new_state.records@.len() == old_state.records@.len() + 1
    &&& forall|j: int|
        0 <= j < old_state.records@.len() ==> new_state.records@[j] == old_state.records@[j]
    &&& new_state.records@.last().0 == rec.lsn
    &&& new_state.records@.last().1.bytes@ == rec.value.bytes@
}

/// `new_state` records exactly the base image of `rec`, leaving the WAL
/// records untouched.
pub open spec fn sets_image(
    old_state: ValueReconstructState,
    new_state: ValueReconstructState,
    rec: LayerRecord,
) -> bool {
    &&& new_state.records == old_state.records
    &&& new_state.img matches Some(p) && p.0 == rec.lsn && p.1.bytes@ == rec.value.bytes@
}

/// A locally resident layer, produced by materializing a remote
/// placeholder after a successful download.  It carries the same
/// identity as the placeholder it replaces, plus the path its bytes
/// were written to and its decoded content.
#[derive(Debug)]
pub struct MaterializedLayer {
    pub tenantid: TenantId,
    pub timelineid: TimelineId,
    pub key_range: KeyRange,
    pub lsn_range: LsnRange,
    pub file_name: LayerFileName,
    pub is_delta: bool,
    pub is_incremental: bool,
    /// Where the downloaded bytes live locally.
    pub path: String,
    /// The layer's decoded entries, handed over at materialization;
    /// decoding the on-disk format is the embedding's concern.
    pub entries: Vec<LayerRecord>,
}

impl MaterializedLayer {
    /// Internal consistency: the incremental flag and the stored file
    /// name agree with the kind and the ranges.
    pub open spec fn wf(&self) -> bool {
        &&& self.is_incremental == self.is_delta
        &&& match self.file_name {
            LayerFileName::Delta(d) => {
                &&& self.is_delta
                &&& d.key_range == self.key_range
                &&& d.lsn_range == self.lsn_range
            },
            LayerFileName::Image(i) => {
                &&& !self.is_delta
                &&& i.key_range == self.key_range
                &&& i.lsn == self.lsn_range.start
                &&& self.lsn_range.end.0 == i.lsn.0 + 1
            },
        }
    }

    /// The identity this layer answers for: the same one its remote
    /// placeholder had.
    pub open spec fn identity_spec(&self) -> LayerIdentity {
        LayerIdentity {
            tenantid: self.tenantid,
            timelineid: self.timelineid,
            key_range: self.key_range,
            lsn_range: self.lsn_range,
            kind: if self.is_delta {
                LayerKind::Delta
            } else {
                LayerKind::Image
            },
        }
    }

    /// Returns the layer's identity.
    pub fn identity(&self) -> (r: LayerIdentity)
        ensures
            r == self.identity_spec(),
    {
        LayerIdentity {
            tenantid: self.tenantid,
            timelineid: self.timelineid,
            key_range: self.key_range,
            lsn_range: self.lsn_range,
            kind: if self.is_delta {
                LayerKind::Delta
            } else {
                LayerKind::Image
            },
        }
    }

    /// The key range this layer covers.
    pub fn get_key_range(&self) -> (r: KeyRange)
        ensures
            r == self.key_range,
    {
        self.key_range
    }

    /// The LSN range this layer covers.
    pub fn get_lsn_range(&self) -> (r: LsnRange)
        ensures
            r == self.lsn_range,
    {
        self.lsn_range
    }

    /// The owning tenant.
    pub fn get_tenant_id(&self) -> (r: TenantId)
        ensures
            r == self.tenantid,
    {
        self.tenantid
    }

    /// The owning timeline.
    pub fn get_timeline_id(&self) -> (r: TimelineId)
        ensures
            r == self.timelineid,
    {
        self.timelineid
    }

    /// Whether reconstruction through this layer needs an earlier layer
    /// as well.
    pub fn is_incremental(&self) -> (r: bool)
        ensures
            r == self.is_incremental,
    {
        self.is_incremental
    }

    /// This layer is not a remote placeholder.
    pub fn is_remote_layer(&self) -> (r: bool)
        ensures
            r == false,
    {
        false
    }

    /// The canonical file name of this layer.
    pub fn filename(&self) -> (r: LayerFileName)
        ensures
            r == self.file_name,
    {
        self.file_name
    }

    /// The canonical name rendered as text.
    pub fn short_id(&self) -> (r: String)
        ensures
            r@ == layer_name_seq(self.file_name),
    {
        self.file_name.file_name()
    }

    /// The local path of the layer's bytes: always present, in contrast
    /// to a remote placeholder.
    pub fn local_path(&self) -> (r: Option<String>)
        ensures
            r matches Some(p) && p@ == self.path@,
    {
        Some(self.path.clone())
    }

    /// Whether some entry of this layer contributes to a read of `key`
    /// over `lsns`.
    pub open spec fn has_match(&self, key: Key, lsns: LsnRange) -> bool {
        exists|i: int|
            0 <= i < self.entries@.len() && record_matches(self.entries@[i], key, lsns)
    }

    /// `i` is the first entry contributing to a read of `key` over
    /// `lsns`.
    pub open spec fn match_at(&self, key: Key, lsns: LsnRange, i: int) -> bool {
        &&& 0 <= i < self.entries@.len()
        &&& record_matches(self.entries@[i], key, lsns)
        &&& forall|j: int| 0 <= j < i ==> !record_matches(self.entries@[j], key, lsns)
    }

    /// Contributes reconstruction data for a point read.  Never fails:
    /// the bytes are resident.  A delta layer hands back a WAL record
    /// and asks for an earlier layer; an image layer hands back a base
    /// image and completes the read; a layer holding nothing for the
    /// key reports so.
    pub fn get_value_reconstruct_data(
        &self,
        key: Key,
        lsn_range: LsnRange,
        reconstruct_state: &mut ValueReconstructState,
    ) -> (r: Result<ValueReconstructResult, LayerError>)
        ensures
            !self.has_match(key, lsn_range) ==> r == Ok::<_, LayerError>(
                ValueReconstructResult::Missing,
            ) && *final(reconstruct_state) == *old(reconstruct_state),
            self.has_match(key, lsn_range) ==> exists|i: int|
                self.match_at(key, lsn_range, i) && (if self.is_delta {
                    &&& r == Ok::<_, LayerError>(ValueReconstructResult::Continue)
                    &&& pushes_record(
                        *old(reconstruct_state),
                        *final(reconstruct_state),
                        self.entries@[i],
                    )
                } else {
                    &&& r == Ok::<_, LayerError>(ValueReconstructResult::Complete)
                    &&& sets_image(
                        *old(reconstruct_state),
                        *final(reconstruct_state),
                        self.entries@[i],
                    )
                }),
    {
        let n = self.entries.len();
        let mut i: usize = 0;
        while i < n
            invariant
                i <= n,
                n == self.entries@.len(),
                forall|j: int| 0 <= j < i ==> !record_matches(self.entries@[j], key, lsn_range),
                *reconstruct_state == *old(reconstruct_state),
            decreases n - i,
        {
            let rec = &self.entries[i];
            if rec.key == key && lsn_range.start.0 <= rec.lsn.0 && rec.lsn.0 < lsn_range.end.0 {
                let copied = Value { bytes: rec.value.bytes.clone() };
                proof {
                    assert(copied.bytes@ =~= rec.value.bytes@);
                }
                if self.is_delta {
                    reconstruct_state.records.push((rec.lsn, copied));
                    proof {
                        assert(self.match_at(key, lsn_range, i as int));
                    }
                    return Ok(ValueReconstructResult::Continue);
                } else {
                    reconstruct_state.img = Some((rec.lsn, copied));
                    proof {
                        assert(self.match_at(key, lsn_range, i as int));
                    }
                    return Ok(ValueReconstructResult::Complete);
                }
            }
            i += 1;
        }
        Ok(ValueReconstructResult::Missing)
    }

    /// Scans the layer's entries.  Never fails: the bytes are resident.
    pub fn iter(&self) -> (r: Result<&Vec<LayerRecord>, LayerError>)
        ensures
            r matches Ok(v) && v@ == self.entries@,
    {
        Ok(&self.entries)
    }

    /// Scans the layer's keys, with each value's size in place of its
    /// bytes.  Never fails: the bytes are resident.
    pub fn key_iter(&self) -> (r: Result<Vec<(Key, Lsn, u64)>, LayerError>)
        ensures
            r matches Ok(v) && v@.len() == self.entries@.len() && forall|i: int|
                0 <= i < v@.len() ==> v@[i].0 == self.entries@[i].key && v@[i].1
                    == self.entries@[i].lsn && v@[i].2 == self.entries@[i].value.bytes@.len(),
    {
        let n = self.entries.len();
        let mut out: Vec<(Key, Lsn, u64)> = Vec::new();
        let mut i: usize = 0;
        while i < n
            invariant
                i <= n,
                n == self.entries@.len(),
                out@.len() == i,
                forall|j: int|
                    0 <= j < i ==> out@[j].0 == self.entries@[j].key && out@[j].1
                        == self.entries@[j].lsn && out@[j].2 == self.entries@[j].value.bytes@.len(),
            decreases n - i,
        {
            let rec = &self.entries[i];
            out.push((rec.key, rec.lsn, rec.value.bytes.len() as u64));
            i += 1;
        }
        Ok(out)
    }

    /// Reports success; removing the backing file is the embedding's
    /// concern, since file handling cannot live here.
    pub fn delete(&self) -> (r: Result<(), LayerError>)
        ensures
            r is Ok,
    {
        Ok(())
    }

    /// The text a diagnostic dump of this layer shows.
    pub open spec fn dump_spec(&self) -> Seq<char> {
        "----- materialized layer for ten "@ + hex_seq(self.tenantid.0 as int, 32)
            + " tli "@ + hex_seq(self.timelineid.0 as int, 32) + " keys "@ + hex_seq(
            self.key_range.start.0 as int,
            16,
        ) + "-"@ + hex_seq(self.key_range.end.0 as int, 16) + " lsn "@ + hex_seq(
            self.lsn_range.start.0 as int,
            16,
        ) + "-"@ + hex_seq(self.lsn_range.end.0 as int, 16) + " ----"@
    }

    /// Renders a description of the layer for diagnostics; printing it
    /// is the caller's choice.  Never fails.
    pub fn dump(&self, _verbose: bool) -> (r: String)
        ensures
            r@ == self.dump_spec(),
    {
        let mut s = String::from_str("----- materialized layer for ten ");
        crate::hex::push_hex(&mut s, self.tenantid.0, 32);
        s.append(" tli ");
        crate::hex::push_hex(&mut s, self.timelineid.0, 32);
        s.append(" keys ");
        crate::hex::push_hex(&mut s, self.key_range.start.0 as u128, 16);
        s.append("-");
        crate::hex::push_hex(&mut s, self.key_range.end.0 as u128, 16);
        s.append(" lsn ");
        crate::hex::push_hex(&mut s, self.lsn_range.start.0 as u128, 16);
        s.append("-");
        crate::hex::push_hex(&mut s, self.lsn_range.end.0 as u128, 16);
        s.append(" ----");
        proof {
            assert(s@ =~= self.dump_spec());
        }
        s
    }
}

} // verus!
