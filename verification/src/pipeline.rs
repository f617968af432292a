//! The top-level use case: publish a file, then record its content
//! identifier on chain.
//!
//! The upload itself is network work done by a driver; the rule owned here
//! is the hand-over between the stages: a successful upload's content
//! identifier becomes the sole constructor argument of the deployment, and a
//! failed upload aborts the pipeline before any deployment work is asked
//! for. Content published by a successful upload stays published even when
//! the deployment later fails: content-addressed storage has no undo.

use vstd::prelude::*;

use crate::eth::DeployContract;
use crate::eth::KeystorePassword;
use crate::ipfs::UploadFileError;

verus! {

/// A deployment request waiting for its constructor argument: everything of
/// [`DeployContract`] but the content identifier, which only the upload
/// stage can supply.
pub struct DeployTemplate {
    /// Path to the source file where the contract is defined.
    pub src: String,
    /// JSON API URL of the ledger endpoint.
    pub url: String,
    /// Path to the keystore file of the wallet.
    pub keystore_path: String,
    /// Password to the keystore file.
    pub keystore_password: KeystorePassword,
}

impl DeployTemplate {
    /// Substitutes the freshly obtained content identifier as the sole
    /// constructor argument, completing the deployment request.
    pub fn with_uploaded_cid(self, cid: String) -> (r: DeployContract)
        ensures
            r.constructor_args == cid,
            r.src == self.src,
            r.url == self.url,
            r.keystore_path == self.keystore_path,
            r.keystore_password == self.keystore_password,
    {
        DeployContract {
            src: self.src,
            url: self.url,
            constructor_args: cid,
            keystore_path: self.keystore_path,
            keystore_password: self.keystore_password,
        }
    }
}

/// Decides how the pipeline goes on after the upload stage: a successful
/// upload's content identifier completes the deployment request; a failed
/// upload aborts the pipeline with the upload error, before any deployment
/// work is asked for.
pub fn after_upload(template: DeployTemplate, uploaded: Result<String, UploadFileError>) -> (r:
    Result<DeployContract, UploadFileError>)
    ensures
        uploaded matches Ok(cid) ==> (r matches Ok(req) && req.constructor_args == cid && req.src
            == template.src && req.url == template.url && req.keystore_path
            == template.keystore_path && req.keystore_password == template.keystore_password),
        uploaded matches Err(e) ==> r == Err::<DeployContract, UploadFileError>(e),
{
    match uploaded {
        Ok(cid) => Ok(template.with_uploaded_cid(cid)),
        Err(e) => Err(e),
    }
}

} // verus!
