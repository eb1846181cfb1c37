//! The remote layer placeholder: an in-memory stand-in for a layer
//! whose bytes exist only in remote storage, with the single-flight
//! coordination of its download built in.
//!
//! The placeholder refuses to serve data: every read or scan against it
//! fails fast with a typed error naming its canonical file, and the
//! caller is expected to drive the download protocol and retry.

use vstd::prelude::*;
use crate::ids::{Key, KeyRange, LayerIdentity, LayerKind, Lsn, LsnRange, TenantId, TimelineId};
use crate::error::LayerError;
use crate::filename::{layer_name_seq, DeltaFileName, ImageFileName, LayerFileName};
use crate::hex::{hex_seq, push_hex};
use crate::materialized::MaterializedLayer;
use crate::value::{LayerRecord, ValueReconstructResult, ValueReconstructState};

verus! {

/// Descriptive facts about the remote object, needed to plan a download
/// without fetching content: its size, when the remote index recorded
/// one.
#[derive(Clone, Copy, Debug, PartialEq, Eq)]
pub struct LayerFileMetadata {
    pub file_size: Option<u64>,
}

/// The terminal outcome of one download episode, broadcast to every
/// waiter: success, or a description of the failure.
#[derive(Clone, Debug, PartialEq, Eq)]
pub enum DownloadOutcome {
    Success,
    Failed(String),
}

/// What a caller requesting a download gets back.  Exactly one caller
/// per episode is made the owner and must perform the transfer and
/// report its outcome; every other caller receives a subscription to
/// the episode's broadcast channel and awaits the outcome there.
pub enum DownloadToken {
    Owner,
    Waiter(tokio::sync::watch::Receiver<Option<DownloadOutcome>>),
}

/// An in-memory placeholder for a layer that is known to exist remotely
/// but is not resident locally.
#[derive(Debug)]
pub struct RemoteLayer {
    pub tenantid: TenantId,
    pub timelineid: TimelineId,
    pub key_range: KeyRange,
    pub lsn_range: LsnRange,

    pub file_name: LayerFileName,

    pub layer_metadata: LayerFileMetadata,

    pub is_delta: bool,

    pub is_incremental: bool,

    /// The download slot: holds the broadcast sender of the download
    /// episode in flight, if any.  Occupied by at most one episode at a
    /// time; every state change goes through `begin_download` and
    /// `finish_download`.
    pub download_watch: Option<tokio::sync::watch::Sender<Option<DownloadOutcome>>>,
}

/// In one step of the download protocol, ownership of the transfer is
/// granted exactly when no episode was in flight.
pub open spec fn grants_ownership(downloading: bool) -> bool {
    !downloading
}

/// How many of `n` download requests arriving one after another at a
/// slot that starts out `downloading` are granted ownership.  Every
/// request leaves the slot occupied, so only the first can find it
/// idle.
pub open spec fn owners_granted(downloading: bool, n: nat) -> nat
    decreases n,
{
    if n == 0 {
        0
    } else {
        (if grants_ownership(downloading) {
            1nat
        } else {
            0nat
        }) + owners_granted(true, (n - 1) as nat)
    }
}

/// Single flight: of any number of download requests that reach one
/// placeholder during one episode (no completion in between), at most
/// one is granted ownership of the transfer; exactly one when the slot
/// starts out idle and at least one request arrives, and none while an
/// episode is already in flight.
pub proof fn lemma_single_flight(downloading: bool, n: nat)
    ensures
        owners_granted(downloading, n) <= 1,
        !downloading && n >= 1 ==> owners_granted(downloading, n) == 1,
        downloading ==> owners_granted(downloading, n) == 0,
    decreases n,
{
    if n > 0 {
        lemma_single_flight(true, (n - 1) as nat);
    }
}

/// `a` and `b` are the same placeholder up to the state of the download
/// slot: identity, metadata and flags all agree.
pub open spec fn same_layer(a: RemoteLayer, b: RemoteLayer) -> bool {
    &&& a.tenantid == b.tenantid
    &&& a.timelineid == b.timelineid
    &&& a.key_range == b.key_range
    &&& a.lsn_range == b.lsn_range
    &&& a.file_name == b.file_name
    &&& a.layer_metadata == b.layer_metadata
    &&& a.is_delta == b.is_delta
    &&& a.is_incremental == b.is_incremental
}

impl RemoteLayer {
    /// Internal consistency: the incremental flag marks exactly the
    /// delta layers, and the stored file name agrees with the kind and
    /// the ranges; an image layer's LSN range is the single point of
    /// its snapshot.
    pub open spec fn wf(&self) -> bool {
        &&& self.is_incremental == self.is_delta
        &&& match self.file_name {
            LayerFileName::Delta(d) => {
                &&& self.is_delta
                &&& d.key_range == self.key_range
                &&& d.lsn_range == self.lsn_range
            },
            LayerFileName::Image(i) => {
                &&& !self.is_delta
                &&& i.key_range == self.key_range
                &&& i.lsn == self.lsn_range.start
                &&& self.lsn_range.end.0 == i.lsn.0 + 1
            },
        }
    }

    /// Whether a download episode is in flight for this placeholder.
    pub open spec fn is_downloading(&self) -> bool {
        self.download_watch is Some
    }

    /// The immutable identity of the layer this placeholder stands for.
    pub open spec fn identity_spec(&self) -> LayerIdentity {
        LayerIdentity {
            tenantid: self.tenantid,
            timelineid: self.timelineid,
            key_range: self.key_range,
            lsn_range: self.lsn_range,
            kind: if self.is_delta {
                LayerKind::Delta
            } else {
                LayerKind::Image
            },
        }
    }

    /// The canonical file name, derived purely from identity and kind.
    pub open spec fn filename_spec(&self) -> LayerFileName {
        if self.is_delta {
            LayerFileName::Delta(
                DeltaFileName { key_range: self.key_range, lsn_range: self.lsn_range },
            )
        } else {
            LayerFileName::Image(
                ImageFileName { key_range: self.key_range, lsn: self.lsn_range.start },
            )
        }
    }

    /// Creates a placeholder for an image layer known from the remote
    /// index.  No download is in flight on a fresh placeholder.
    pub fn new_img(
        tenantid: TenantId,
        timelineid: TimelineId,
        fname: &ImageFileName,
        layer_metadata: &LayerFileMetadata,
    ) -> (r: RemoteLayer)
        requires
            fname.lsn.0 < u64::MAX,
        ensures
            r.wf(),
            !r.is_downloading(),
            r.tenantid == tenantid,
            r.timelineid == timelineid,
            r.key_range == fname.key_range,
            r.lsn_range == (LsnRange { start: fname.lsn, end: Lsn((fname.lsn.0 + 1) as u64) }),
            r.file_name == LayerFileName::Image(*fname),
            r.layer_metadata == *layer_metadata,
            !r.is_delta,
            !r.is_incremental,
    {
        RemoteLayer {
            tenantid,
            timelineid,
            key_range: fname.key_range,
            lsn_range: LsnRange { start: fname.lsn, end: Lsn(fname.lsn.0 + 1) },
            download_watch: None,
            is_delta: false,
            is_incremental: false,
            file_name: LayerFileName::Image(*fname),
            layer_metadata: *layer_metadata,
        }
    }

    /// Creates a placeholder for a delta layer known from the remote
    /// index.  Delta layers are incremental: reconstruction through one
    /// needs an earlier layer too.  No download is in flight on a fresh
    /// placeholder.
    pub fn new_delta(
        tenantid: TenantId,
        timelineid: TimelineId,
        fname: &DeltaFileName,
        layer_metadata: &LayerFileMetadata,
    ) -> (r: RemoteLayer)
        ensures
            r.wf(),
            !r.is_downloading(),
            r.tenantid == tenantid,
            r.timelineid == timelineid,
            r.key_range == fname.key_range,
            r.lsn_range == fname.lsn_range,
            r.file_name == LayerFileName::Delta(*fname),
            r.layer_metadata == *layer_metadata,
            r.is_delta,
            r.is_incremental,
    {
        RemoteLayer {
            tenantid,
            timelineid,
            key_range: fname.key_range,
            lsn_range: fname.lsn_range,
            download_watch: None,
            is_delta: true,
            is_incremental: true,
            file_name: LayerFileName::Delta(*fname),
            layer_metadata: *layer_metadata,
        }
    }

    /// Returns the layer's identity.
    pub fn identity(&self) -> (r: LayerIdentity)
        ensures
            r == self.identity_spec(),
    {
        LayerIdentity {
            tenantid: self.tenantid,
            timelineid: self.timelineid,
            key_range: self.key_range,
            lsn_range: self.lsn_range,
            kind: if self.is_delta {
                LayerKind::Delta
            } else {
                LayerKind::Image
            },
        }
    }

    /// The key range this layer covers.
    pub fn get_key_range(&self) -> (r: KeyRange)
        ensures
            r == self.key_range,
    {
        self.key_range
    }

    /// The LSN range this layer covers.
    pub fn get_lsn_range(&self) -> (r: LsnRange)
        ensures
            r == self.lsn_range,
    {
        self.lsn_range
    }

    /// The owning tenant.
    pub fn get_tenant_id(&self) -> (r: TenantId)
        ensures
            r == self.tenantid,
    {
        self.tenantid
    }

    /// The owning timeline.
    pub fn get_timeline_id(&self) -> (r: TimelineId)
        ensures
            r == self.timelineid,
    {
        self.timelineid
    }

    /// A remote placeholder never contributes reconstruction data: the
    /// call fails with `NeedsDownload`, carrying the canonical file
    /// name, whatever the key and LSN range, and leaves the gathered
    /// state untouched.  It never blocks and never starts the download
    /// itself.
    pub fn get_value_reconstruct_data(
        &self,
        _key: Key,
        _lsn_range: LsnRange,
        reconstruct_state: &mut ValueReconstructState,
    ) -> (r: Result<ValueReconstructResult, LayerError>)
        ensures
            r matches Err(e) && e matches LayerError::NeedsDownload(name) && name@
                == layer_name_seq(self.filename_spec()),
            *final(reconstruct_state) == *old(reconstruct_state),
    {
        Err(LayerError::NeedsDownload(self.filename().file_name()))
    }

    /// Whether reconstruction through this layer needs an earlier layer
    /// as well; reported directly from the stored flag.
    pub fn is_incremental(&self) -> (r: bool)
        ensures
            r == self.is_incremental,
    {
        self.is_incremental
    }

    /// The text a diagnostic dump of this placeholder shows.
    pub open spec fn dump_spec(&self) -> Seq<char> {
        "----- remote layer for ten "@ + hex_seq(self.tenantid.0 as int, 32) + " tli "@
            + hex_seq(self.timelineid.0 as int, 32) + " keys "@ + hex_seq(
            self.key_range.start.0 as int,
            16,
        ) + "-"@ + hex_seq(self.key_range.end.0 as int, 16) + " lsn "@ + hex_seq(
            self.lsn_range.start.0 as int,
            16,
        ) + "-"@ + hex_seq(self.lsn_range.end.0 as int, 16) + " ----"@
    }

    /// Renders a description of the placeholder for diagnostics;
    /// printing it is the caller's choice.  Never fails.
    pub fn dump(&self, _verbose: bool) -> (r: String)
        ensures
            r@ == self.dump_spec(),
    {
        let mut s = String::from_str("----- remote layer for ten ");
        push_hex(&mut s, self.tenantid.0, 32);
        s.append(" tli ");
        push_hex(&mut s, self.timelineid.0, 32);
        s.append(" keys ");
        push_hex(&mut s, self.key_range.start.0 as u128, 16);
        s.append("-");
        push_hex(&mut s, self.key_range.end.0 as u128, 16);
        s.append(" lsn ");
        push_hex(&mut s, self.lsn_range.start.0 as u128, 16);
        s.append("-");
        push_hex(&mut s, self.lsn_range.end.0 as u128, 16);
        s.append(" ----");
        proof {
            assert(s@ =~= self.dump_spec());
        }
        s
    }

    /// The canonical name rendered as text.
    pub fn short_id(&self) -> (r: String)
        ensures
            r@ == layer_name_seq(self.filename_spec()),
    {
        self.filename().file_name()
    }

    /// The canonical file name of this layer, rebuilt from identity and
    /// kind.
    pub fn filename(&self) -> (r: LayerFileName)
        ensures
            r == self.filename_spec(),
    {
        if self.is_delta {
            LayerFileName::Delta(
                DeltaFileName { key_range: self.key_range, lsn_range: self.lsn_range },
            )
        } else {
            LayerFileName::Image(
                ImageFileName { key_range: self.key_range, lsn: self.lsn_range.start },
            )
        }
    }

    /// A remote placeholder has no local representation.
    pub fn local_path(&self) -> (r: Option<String>)
        ensures
            r is None,
    {
        None
    }

    /// Scanning needs resident bytes, so a remote placeholder refuses
    /// with `NotIterable`, whatever the arguments.
    pub fn iter(&self) -> (r: Result<&Vec<LayerRecord>, LayerError>)
        ensures
            r matches Err(e) && e == LayerError::NotIterable,
    {
        Err(LayerError::NotIterable)
    }

    /// Key scans need resident bytes too: refused with `NotIterable`.
    pub fn key_iter(&self) -> (r: Result<Vec<(Key, Lsn, u64)>, LayerError>)
        ensures
            r matches Err(e) && e == LayerError::NotIterable,
    {
        Err(LayerError::NotIterable)
    }

    /// Deleting a remote placeholder succeeds trivially: there is no
    /// local file to remove, and the remote object is never touched.
    pub fn delete(&self) -> (r: Result<(), LayerError>)
        ensures
            r is Ok,
    {
        Ok(())
    }

    /// A placeholder downcasts to itself.
    pub fn downcast_remote_layer(&self) -> (r: Option<&RemoteLayer>)
        ensures
            r == Some(self),
    {
        Some(self)
    }

    /// This layer is a remote placeholder.
    pub fn is_remote_layer(&self) -> (r: bool)
        ensures
            r,
    {
        true
    }

    /// Requests that this layer be downloaded.  Under the exclusive
    /// access the caller holds, the slot is inspected once: if idle, a
    /// fresh broadcast channel is installed and the caller is made the
    /// owner of the new episode; if an episode is already in flight,
    /// the caller gets a subscription to its channel instead.  Either
    /// way the slot is occupied afterwards, and everything else about
    /// the placeholder is untouched.
    pub fn begin_download(&mut self) -> (r: DownloadToken)
        ensures
            final(self).is_downloading(),
            same_layer(*old(self), *final(self)),
            final(self).wf() == old(self).wf(),
            (r is Owner) == grants_ownership(old(self).is_downloading()),
    {
        if self.download_watch.is_some() {
            let tx = self.download_watch.as_ref().unwrap();
            DownloadToken::Waiter(tx.subscribe())
        } else {
            let pair = tokio::sync::watch::channel::<Option<DownloadOutcome>>(None);
            self.download_watch = Some(pair.0);
            DownloadToken::Owner
        }
    }

    /// Ends the download episode in flight, if any: broadcasts the
    /// terminal outcome to every subscribed waiter and clears the slot,
    /// so a later request is accepted again — also after a failure.
    /// Returns whether an episode was actually in flight.  Everything
    /// else about the placeholder is untouched.
    pub fn finish_download(&mut self, outcome: DownloadOutcome) -> (r: bool)
        ensures
            !final(self).is_downloading(),
            same_layer(*old(self), *final(self)),
            final(self).wf() == old(self).wf(),
            r == old(self).is_downloading(),
    {
        let slot = self.download_watch.take();
        match slot {
            Some(tx) => {
                tx.send_replace(Some(outcome));
                true
            },
            None => false,
        }
    }

    /// Builds the locally resident layer that replaces this placeholder
    /// after a successful download: the same identity, the path the
    /// bytes were written to, and the decoded entries handed over by
    /// the transfer (decoding the on-disk format is the embedding's
    /// concern).
    pub fn create_downloaded_layer(&self, path: String, entries: Vec<LayerRecord>) -> (r:
        MaterializedLayer)
        ensures
            r.tenantid == self.tenantid,
            r.timelineid == self.timelineid,
            r.key_range == self.key_range,
            r.lsn_range == self.lsn_range,
            r.file_name == self.filename_spec(),
            r.is_delta == self.is_delta,
            r.is_incremental == self.is_delta,
            r.path == path,
            r.entries == entries,
            r.identity_spec() == self.identity_spec(),
            self.wf() ==> r.wf(),
    {
        MaterializedLayer {
            tenantid: self.tenantid,
            timelineid: self.timelineid,
            key_range: self.key_range,
            lsn_range: self.lsn_range,
            file_name: self.filename(),
            is_delta: self.is_delta,
            is_incremental: self.is_delta,
            path,
            entries,
        }
    }
}

impl DownloadOutcome {
    /// Interprets a broadcast outcome, however it was observed: success
    /// becomes `Ok`, and a failure becomes the `DownloadFailed` error
    /// carrying the same description, which every waiter of the failed
    /// episode receives alike.
    pub fn to_result(&self) -> (r: Result<(), LayerError>)
        ensures
            self is Success ==> r is Ok,
            self matches DownloadOutcome::Failed(cause) ==> r matches Err(e) && e matches
                LayerError::DownloadFailed(c) && c@ == cause@,
    {
        match self {
            DownloadOutcome::Success => Ok(()),
            DownloadOutcome::Failed(cause) => Err(
                LayerError::DownloadFailed(String::from_str(cause.as_str())),
            ),
        }
    }
}

/// A placeholder reports itself incremental exactly when it stands for
/// a delta layer.
pub proof fn lemma_incremental_iff_delta(l: RemoteLayer)
    requires
        l.wf(),
    ensures
        l.is_incremental <==> l.is_delta,
{
}

} // verus!
