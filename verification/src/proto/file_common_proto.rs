use vstd::prelude::*;

pub mod bucket_info;

verus! {

/// Access data of an S3 bucket.
#[derive(Clone, Debug)]
pub struct S3Bucket {
    pub access_id: String,
    pub access_token: String,
}

/// Location of an NFS bucket.
#[derive(Clone, Debug)]
pub struct NfsBucket {
    pub server: String,
    pub root_dir: String,
}

/// Location of a bucket on the local file system.
#[derive(Clone, Debug)]
pub struct LocalBucket {
    pub root_dir: String,
}

/// Where a bucket lives; `None` when the message carried no location.
#[derive(Clone, Debug)]
pub struct BucketInfo {
    pub info: Option<bucket_info::Info>,
}

} // verus!
