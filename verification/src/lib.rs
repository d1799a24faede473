//! Key management and attestation logic of a TEE service framework:
//! the wire messages of the key management and file services, a key
//! store that hands out fresh AEAD and SGX-FS keys under random
//! identifiers, request dispatch, and the decisions of the SGX quote
//! protocol.
pub mod attestation;
pub mod error;
pub mod proto;
pub mod services;
