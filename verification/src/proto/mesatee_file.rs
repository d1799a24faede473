use vstd::prelude::*;
use crate::error::ErrorKind;
use crate::proto::credential_proto::Credential;
use crate::proto::file_common_proto::BucketInfo;

verus! {

/// Asks the file service to register a bucket on behalf of the holder of
/// `creds`.
#[derive(Clone, Debug)]
pub struct UploadBucketRequest {
    pub creds: Credential,
    pub bucket: BucketInfo,
    pub description: String,
}

/// Answer to an `UploadBucketRequest`: the identifier of the new bucket.
#[derive(Clone, Debug)]
pub struct UploadBucketResponse {
    pub bucket_id: String,
}

/// A request to the external file service.
#[derive(Clone, Debug)]
pub enum FileExternalRequest {
    UploadBucket(UploadBucketRequest),
}

/// A response of the external file service.
#[derive(Clone, Debug)]
pub enum FileExternalResponse {
    UploadBucket(UploadBucketResponse),
}

impl FileExternalRequest {
    /// The credential a request carries.
    pub open spec fn creds(&self) -> Credential {
        match self {
            FileExternalRequest::UploadBucket(u) => u.creds,
        }
    }
}

/// The response that answers a request once the operation it names has
/// produced `result`: the operation's answer wrapped in the matching
/// response, or its error.
pub open spec fn upload_bucket_response(
    result: Result<UploadBucketResponse, ErrorKind>,
) -> Result<FileExternalResponse, ErrorKind> {
    match result {
        Ok(resp) => Ok(FileExternalResponse::UploadBucket(resp)),
        Err(e) => Err(e),
    }
}

/// The external file service. Its operations are supplied by the
/// implementer; request dispatch, with the credential check in front of
/// every operation, is provided.
pub trait FileExternalService: Sized {
    fn upload_bucket(req: UploadBucketRequest) -> Result<UploadBucketResponse, ErrorKind>;

    /// Refuses a request whose credential is not accepted with
    /// `PermissionDenied`, and otherwise passes it to the operation it
    /// names and wraps that operation's answer. Since every credential is
    /// accepted, every request reaches its operation.
    fn handle_invoke(&self, req: FileExternalRequest) -> (r: Result<
        FileExternalResponse,
        ErrorKind,
    >)
        ensures
            !req.creds().spec_auth() ==> r == Err::<FileExternalResponse, ErrorKind>(
                ErrorKind::PermissionDenied,
            ),
            match req {
                FileExternalRequest::UploadBucket(u) => exists|
                    result: Result<UploadBucketResponse, ErrorKind>,
                |
                    #[trigger] call_ensures(Self::upload_bucket, (u,), result) && r
                        == upload_bucket_response(result),
            },
    {
        let authenticated = match &req {
            FileExternalRequest::UploadBucket(u) => u.creds.auth(),
        };
        if !authenticated {
            return Err(ErrorKind::PermissionDenied);
        }
        match req {
            FileExternalRequest::UploadBucket(u) => match Self::upload_bucket(u) {
                Ok(resp) => Ok(FileExternalResponse::UploadBucket(resp)),
                Err(e) => Err(e),
            },
        }
    }
}

} // verus!
