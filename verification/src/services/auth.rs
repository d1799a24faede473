use vstd::prelude::*;
use crate::proto::credential_proto::Credential;

verus! {

impl Credential {
    /// Whether a credential is accepted: the current policy accepts
    /// every credential.
    pub open spec fn spec_auth(&self) -> bool {
        true
    }

    /// Checks the credential against the authentication policy.
    pub fn auth(&self) -> (accepted: bool)
        ensures
            accepted,
            accepted == self.spec_auth(),
    {
        true
    }
}

/// Every credential is accepted, whatever its user and token.
pub proof fn lemma_every_credential_accepted(creds: Credential)
    ensures
        creds.spec_auth(),
{
}

} // verus!
