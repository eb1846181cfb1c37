//! The typed errors of this subsystem.  None of them is fatal: every one
//! is returned to the caller, who decides how to recover.

use vstd::prelude::*;

verus! {

/// What a read or scan against a layer can fail with.
#[derive(Debug, Clone, PartialEq, Eq)]
pub enum LayerError {
    /// The layer's bytes are not resident locally; the caller must drive
    /// the download protocol and retry.  Carries the layer's canonical
    /// file name, against which the failure is reported.
    NeedsDownload(String),
    /// The layer cannot be scanned because it is remote; same recovery
    /// path as `NeedsDownload`.
    NotIterable,
    /// A download episode ended in failure; carries a description of the
    /// cause.  The placeholder survives and a retry is permitted.
    DownloadFailed(String),
}

impl LayerError {
    /// The human-readable message of this error.
    pub open spec fn describe_spec(self) -> Seq<char> {
        match self {
            LayerError::NeedsDownload(name) => "layer "@ + name@ + " needs to be downloaded"@,
            LayerError::NotIterable => "cannot iterate a remote layer"@,
            LayerError::DownloadFailed(cause) => "download of layer failed: "@ + cause@,
        }
    }

    /// Renders the error as text for diagnostics.
    pub fn describe(&self) -> (r: String)
        ensures
            r@ == self.describe_spec(),
    {
        match self {
            LayerError::NeedsDownload(name) => {
                let mut s = String::from_str("layer ");
                s.append(name.as_str());
                s.append(" needs to be downloaded");
                s
            },
            LayerError::NotIterable => String::from_str("cannot iterate a remote layer"),
            LayerError::DownloadFailed(cause) => {
                let mut s = String::from_str("download of layer failed: ");
                s.append(cause.as_str());
                s
            },
        }
    }
}

} // verus!
