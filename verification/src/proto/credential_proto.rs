use vstd::prelude::*;

verus! {

/// The credential a client presents with a file service request.
#[derive(Clone, Debug)]
pub struct Credential {
    pub user_id: String,
    pub user_token: String,
}

} // verus!
