use mesatee_kms::error::ErrorKind;
use mesatee_kms::proto::kms_proto::key_config::Config;
use mesatee_kms::proto::kms_proto::{
    AeadConfig, CreateKeyRequest, DeleteKeyRequest, EncType, GetKeyRequest, KMSRequest,
    KMSResponse, KMSService, KeyConfig as ProtoKeyConfig,
};
use mesatee_kms::services::kms::{new_sgxfs_key, AEADKeyConfig, KMSEnclave, KeyConfig};

fn is_uuid_v4_text(s: &str) -> bool {
    let b = s.as_bytes();
    if b.len() != 36 {
        return false;
    }
    for (i, c) in b.iter().enumerate() {
        if i == 8 || i == 13 || i == 18 || i == 23 {
            if *c != b'-' {
                return false;
            }
        } else if !(c.is_ascii_digit() || (b'a'..=b'f').contains(c)) {
            return false;
        }
    }
    b[14] == b'4' && matches!(b[19], b'8' | b'9' | b'a' | b'b')
}

fn aead_parts(c: &ProtoKeyConfig) -> (Vec<u8>, Vec<u8>, Vec<u8>) {
    match &c.config {
        Some(Config::Aead(a)) => (a.key.clone(), a.nonce.clone(), a.ad.clone()),
        other => panic!("expected an AEAD key, got {:?}", other),
    }
}

fn sgxfs_key(c: &ProtoKeyConfig) -> Vec<u8> {
    match &c.config {
        Some(Config::Sgxfs(k)) => k.clone(),
        other => panic!("expected an SGX-FS key, got {:?}", other),
    }
}

#[test]
fn enc_type_wire_numbers() {
    assert_eq!(EncType::from_i32(0), Some(EncType::Aead));
    assert_eq!(EncType::from_i32(1), Some(EncType::Sgxfs));
    assert_eq!(EncType::from_i32(2), None);
    assert_eq!(EncType::from_i32(-1), None);
    assert!(EncType::is_valid(1));
    assert!(!EncType::is_valid(7));
    assert_eq!(EncType::Aead.to_i32(), 0);
    assert_eq!(EncType::Sgxfs.to_i32(), 1);
}

#[test]
fn create_aead_key_then_get_it_back() {
    let mut kms = KMSEnclave::new();
    let created = kms
        .create_key(CreateKeyRequest { enc_type: EncType::Aead.to_i32() })
        .expect("an AEAD key is created");
    assert!(is_uuid_v4_text(&created.key_id));
    let (key, nonce, ad) = aead_parts(created.config.as_ref().unwrap());
    assert_eq!((key.len(), nonce.len(), ad.len()), (32, 12, 5));

    let got = kms.get_key(GetKeyRequest { key_id: created.key_id.clone() }).expect("the key is held");
    assert_eq!(aead_parts(got.config.as_ref().unwrap()), (key, nonce, ad));
}

#[test]
fn create_sgxfs_key_then_get_it_back() {
    let mut kms = KMSEnclave::default();
    let created = kms.create_key(CreateKeyRequest { enc_type: 1 }).unwrap();
    let key = sgxfs_key(created.config.as_ref().unwrap());
    assert_eq!(key.len(), 16);
    let got = kms.get_key(GetKeyRequest { key_id: created.key_id.clone() }).unwrap();
    assert_eq!(sgxfs_key(got.config.as_ref().unwrap()), key);
}

#[test]
fn create_with_unknown_enc_type_is_refused() {
    let mut kms = KMSEnclave::new();
    let r = kms.create_key(CreateKeyRequest { enc_type: 5 });
    assert_eq!(r.unwrap_err(), ErrorKind::InvalidInputError);
}

#[test]
fn get_missing_key_fails() {
    let kms = KMSEnclave::new();
    let r = kms.get_key(GetKeyRequest { key_id: "no-such-key".to_string() });
    assert_eq!(r.unwrap_err(), ErrorKind::MissingValue);
}

#[test]
fn delete_hands_key_back_and_forgets_it() {
    let mut kms = KMSEnclave::new();
    let created = kms.create_key(CreateKeyRequest { enc_type: 0 }).unwrap();
    let parts = aead_parts(created.config.as_ref().unwrap());
    let deleted = kms.del_key(DeleteKeyRequest { key_id: created.key_id.clone() }).unwrap();
    assert_eq!(aead_parts(deleted.config.as_ref().unwrap()), parts);
    let again = kms.get_key(GetKeyRequest { key_id: created.key_id.clone() });
    assert_eq!(again.unwrap_err(), ErrorKind::MissingValue);
    let twice = kms.del_key(DeleteKeyRequest { key_id: created.key_id });
    assert_eq!(twice.unwrap_err(), ErrorKind::MissingValue);
}

#[test]
fn keys_are_fresh_and_independent() {
    let mut kms = KMSEnclave::new();
    let a = kms.create_key(CreateKeyRequest { enc_type: 0 }).unwrap();
    let b = kms.create_key(CreateKeyRequest { enc_type: 0 }).unwrap();
    assert_ne!(a.key_id, b.key_id);
    assert_ne!(aead_parts(a.config.as_ref().unwrap()).0, aead_parts(b.config.as_ref().unwrap()).0);
    kms.del_key(DeleteKeyRequest { key_id: a.key_id.clone() }).unwrap();
    let still = kms.get_key(GetKeyRequest { key_id: b.key_id.clone() }).unwrap();
    assert_eq!(aead_parts(still.config.as_ref().unwrap()), aead_parts(b.config.as_ref().unwrap()));
}

#[test]
fn register_key_refuses_taken_identifier() {
    let mut kms = KMSEnclave::new();
    let first = KeyConfig::SGXFS([7u8; 16]);
    let resp = kms.register_key("id-1".to_string(), first).unwrap();
    assert_eq!(resp.key_id, "id-1");
    assert_eq!(sgxfs_key(resp.config.as_ref().unwrap()), vec![7u8; 16]);
    let second = KeyConfig::SGXFS([9u8; 16]);
    assert_eq!(kms.register_key("id-1".to_string(), second).unwrap_err(), ErrorKind::UUIDError);
    let got = kms.get_key(GetKeyRequest { key_id: "id-1".to_string() }).unwrap();
    assert_eq!(sgxfs_key(got.config.as_ref().unwrap()), vec![7u8; 16]);
}

#[test]
fn handle_invoke_dispatches_each_request() {
    let mut kms = KMSEnclave::new();
    let created = match kms.handle_invoke(KMSRequest::CreateKey(CreateKeyRequest { enc_type: 1 })) {
        Ok(KMSResponse::CreateKey(c)) => c,
        other => panic!("unexpected {:?}", other),
    };
    let key = sgxfs_key(created.config.as_ref().unwrap());
    match kms.handle_invoke(KMSRequest::GetKey(GetKeyRequest { key_id: created.key_id.clone() })) {
        Ok(KMSResponse::GetKey(g)) => assert_eq!(sgxfs_key(g.config.as_ref().unwrap()), key),
        other => panic!("unexpected {:?}", other),
    }
    match kms.handle_invoke(KMSRequest::DelKey(DeleteKeyRequest { key_id: created.key_id.clone() })) {
        Ok(KMSResponse::DelKey(d)) => assert_eq!(sgxfs_key(d.config.as_ref().unwrap()), key),
        other => panic!("unexpected {:?}", other),
    }
    let missing = kms.handle_invoke(KMSRequest::GetKey(GetKeyRequest { key_id: created.key_id }));
    assert_eq!(missing.unwrap_err(), ErrorKind::MissingValue);
    let bad = kms.handle_invoke(KMSRequest::CreateKey(CreateKeyRequest { enc_type: 9 }));
    assert_eq!(bad.unwrap_err(), ErrorKind::InvalidInputError);
}

#[test]
fn wire_form_keeps_key_bytes() {
    let config = AEADKeyConfig { key: [1u8; 32], nonce: [2u8; 12], ad: [3, 4, 5, 6, 7] };
    let msg = AeadConfig::from(config);
    assert_eq!(msg.key, vec![1u8; 32]);
    assert_eq!(msg.nonce, vec![2u8; 12]);
    assert_eq!(msg.ad, vec![3, 4, 5, 6, 7]);
    let mut k = [0u8; 16];
    for (i, b) in k.iter_mut().enumerate() {
        *b = i as u8;
    }
    let wire = ProtoKeyConfig::from(KeyConfig::SGXFS(k));
    assert_eq!(sgxfs_key(&wire), (0u8..16).collect::<Vec<u8>>());
    let wire = ProtoKeyConfig::from(KeyConfig::AEAD(config));
    assert_eq!(aead_parts(&wire), (vec![1u8; 32], vec![2u8; 12], vec![3, 4, 5, 6, 7]));
}

#[test]
fn fresh_keys_are_random() {
    let a = AEADKeyConfig::new();
    let b = AEADKeyConfig::new();
    assert_ne!(a.key, b.key);
    assert_ne!(a.key, [0u8; 32]);
    let s = new_sgxfs_key();
    let t = new_sgxfs_key();
    assert_ne!(s, t);
    assert!(matches!(KeyConfig::generate(EncType::Sgxfs), KeyConfig::SGXFS(_)));
    assert!(matches!(KeyConfig::generate(EncType::Aead), KeyConfig::AEAD(_)));
}

#[test]
fn created_key_reads_back_after_other_requests() {
    let mut kms = KMSEnclave::new();
    let a = kms.create_key(CreateKeyRequest { enc_type: 0 }).unwrap();
    let b = kms.create_key(CreateKeyRequest { enc_type: 1 }).unwrap();
    kms.del_key(DeleteKeyRequest { key_id: b.key_id.clone() }).unwrap();
    let _ = kms.create_key(CreateKeyRequest { enc_type: 3 });
    let c = kms.create_key(CreateKeyRequest { enc_type: 0 }).unwrap();
    let got = kms.get_key(GetKeyRequest { key_id: a.key_id.clone() }).unwrap();
    assert_eq!(aead_parts(got.config.as_ref().unwrap()), aead_parts(a.config.as_ref().unwrap()));
    let gone = kms.get_key(GetKeyRequest { key_id: b.key_id.clone() });
    assert_eq!(gone.unwrap_err(), ErrorKind::MissingValue);
    let ids = [a.key_id, b.key_id, c.key_id];
    assert!(ids[0] != ids[1] && ids[0] != ids[2] && ids[1] != ids[2]);
}
