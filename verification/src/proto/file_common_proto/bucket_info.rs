use vstd::prelude::*;
use super::{LocalBucket, NfsBucket, S3Bucket};

verus! {

/// The kinds of bucket a file can be stored in.
#[derive(Clone, Debug)]
pub enum Info {
    S3(S3Bucket),
    Nfs(NfsBucket),
    Local(LocalBucket),
}

} // verus!
