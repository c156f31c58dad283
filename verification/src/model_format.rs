//! The stored form of the solar model: the envelope around a trained model,
//! the loss it was trained with, and where its training data is backed up.
use vstd::prelude::*;

verus! {

/// Format version written in a stored model.
pub const SNAPSHOT_FORMAT_VERSION: u32 = 1;

/// A stored model with its format version.
pub struct SnapshotMirror<T> {
    pub format_version: u32,
    pub model: T,
}

/// Loss of the stored regression model.
#[derive(Debug, Clone, Copy, PartialEq, Eq, Structural)]
pub enum MockRegressionLoss {
    SquaredError,
}

impl<T> SnapshotMirror<T> {
    /// Wraps a model for storage, in the current format.
    pub fn new(model: T) -> (r: SnapshotMirror<T>)
        ensures
            r.format_version == SNAPSHOT_FORMAT_VERSION,
            r.model == model,
    {
        SnapshotMirror { format_version: SNAPSHOT_FORMAT_VERSION, model }
    }
}

/// Path of the backup of the training data at `path`: the same path with
/// `.bak` appended.
pub fn data_backup_path(path: &str) -> (r: String)
    ensures
        r@ == path@ + ".bak"@,
{
    let mut s = String::from_str(path);
    s.append(".bak");
    s
}

} // verus!
