//! What an upload answers: a success message, or a failure with its reason.
use vstd::prelude::*;

verus! {

/// The body of a successful upload.
#[derive(Clone, Debug)]
pub struct UploadDataResponse(pub String);

/// The body of a rejected upload.
#[derive(Clone, Debug)]
pub struct UploadDataFailedResponse {
    pub err: String,
}

impl UploadDataResponse {
    /// The answer to an upload whose dataset was stored.
    pub fn success() -> (r: UploadDataResponse)
        ensures
            r.0@ == "Data Uploaded Successfully!"@,
    {
        UploadDataResponse(String::from_str("Data Uploaded Successfully!"))
    }
}

impl UploadDataFailedResponse {
    /// A failure that carries `err` as its reason.
    pub fn new(err: String) -> (r: UploadDataFailedResponse)
        ensures
            r.err@ == err@,
    {
        UploadDataFailedResponse { err }
    }

    /// The answer to a request that carried no file.
    pub fn no_file() -> (r: UploadDataFailedResponse)
        ensures
            r.err@ == "No File!"@,
    {
        UploadDataFailedResponse { err: String::from_str("No File!") }
    }
}

} // verus!
