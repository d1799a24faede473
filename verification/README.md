# mesatee_kms

Verified core of a TEE service framework's key management service and SGX
attestation, written in Verus.

- `src/proto/` — the wire messages of the key management service
  (`kms_proto`), of the external file service (`mesatee_file`,
  `file_common_proto`) and the client credential, with the service traits
  and the request dispatch they provide.
- `src/services/kms.rs` — the key store: fresh AEAD and SGX-FS keys stored
  under random UUID identifiers, read back and deleted; laws on reading,
  deleting and creating keys are in `src/proto/kms_proto.rs` (single steps)
  and `src/proto/kms_laws.rs` (whole runs of requests).
- `src/services/auth.rs` — the credential check.
- `src/attestation/` — the decisions of the SGX quote protocol: status
  checks, the report data that binds an enclave report to a public key, the
  judgement of the quoting enclave's report (its MAC check is made by the
  SGX SDK, whose outcome the judgement takes as given; the digest binding
  is checked in the library), and the protocol as a state machine that the
  untrusted side drives.
- `app/` — the demo program and the enclave-side plumbing (ocalls, SGX
  calls) that drives the quote protocol.
