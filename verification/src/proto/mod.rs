pub mod credential_proto;
pub mod file_common_proto;
pub mod kms_laws;
pub mod kms_proto;
pub mod mesatee_file;
