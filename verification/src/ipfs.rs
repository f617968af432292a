//! The storage-network side of the crate.
//!
//! Uploading is pure network work and belongs to a driver; what the library
//! owns is the upload stage's error shape and, in [`crate::pipeline`], the
//! rule that a successful upload's content identifier becomes the sole
//! constructor argument of the deployment.

use vstd::prelude::*;

verus! {

/// An upload failure, tagged with the stage it arose in.
#[derive(Debug, PartialEq, Eq)]
pub enum UploadFileError {
    /// The file at the given path could not be opened.
    OpenFile(String),
    /// The storage node's add request failed on the network or the protocol.
    IpfsAdd(String),
}

} // verus!
