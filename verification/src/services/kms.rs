use vstd::prelude::*;
use vstd::hash_map::StringHashMap;
use vstd::slice::slice_to_vec;
use crate::error::ErrorKind;
use crate::proto::kms_proto::{
    self, carries, create_key_post, del_key_post, get_key_post, EncType, KeyConfigModel,
    KMSService,
};
use crate::proto::kms_proto::key_config::Config;

verus! {

/// Fills `buf` with bytes from the thread-local random number generator
/// of the `rand` crate (`rand::thread_rng().fill_bytes`). Nothing is
/// claimed of the bytes drawn: they are random.
#[verifier::external_body]
fn fill_random<const N: usize>(buf: &mut [u8; N]) {
    rand::RngCore::fill_bytes(&mut rand::thread_rng(), buf)
}

/// `s` is the text of a random (version 4) UUID in hyphenated lower-case
/// form: 36 characters, hyphens at positions 8, 13, 18 and 23, lower-case
/// hexadecimal digits elsewhere, the version digit `4` at position 14 and
/// one of the variant digits `8`, `9`, `a`, `b` at position 19.
pub open spec fn is_uuid_v4_text(s: Seq<char>) -> bool {
    &&& s.len() == 36
    &&& forall|i: int|
        0 <= i < 36 ==> if i == 8 || i == 13 || i == 18 || i == 23 {
            #[trigger] s[i] == '-'
        } else {
            ('0' <= s[i] <= '9') || ('a' <= s[i] <= 'f')
        }
    &&& s[14] == '4'
    &&& (s[19] == '8' || s[19] == '9' || s[19] == 'a' || s[19] == 'b')
}

/// Draws a random UUID with `uuid::Uuid::new_v4` and renders it with its
/// `Display` impl (`to_string`). Claimed, from the crate's source: the
/// text is the hyphenated lower-case form of a version-4, RFC 4122
/// variant UUID. Which UUID is drawn is left open.
#[verifier::external_body]
fn new_uuid_v4_string() -> (id: String)
    ensures
        is_uuid_v4_text(id@),
{
    uuid::Uuid::new_v4().to_string()
}

/// The material of an AEAD key held by the service.
#[derive(Clone, Copy, Debug)]
pub struct AEADKeyConfig {
    pub key: [u8; 32],
    pub nonce: [u8; 12],
    pub ad: [u8; 5],
}

impl View for AEADKeyConfig {
    type V = KeyConfigModel;

    open spec fn view(&self) -> KeyConfigModel {
        KeyConfigModel::Aead { key: self.key@, nonce: self.nonce@, ad: self.ad@ }
    }
}

impl AEADKeyConfig {
    /// Draws a fresh random AEAD key, nonce and associated data.
    pub fn new() -> (config: Self)
        ensures
            config@.well_sized(),
    {
        let mut key = [0u8; 32];
        let mut nonce = [0u8; 12];
        let mut ad = [0u8; 5];
        fill_random(&mut key);
        fill_random(&mut nonce);
        fill_random(&mut ad);
        AEADKeyConfig { key, nonce, ad }
    }
}

/// Draws a fresh random 16-byte key for the SGX protected file system.
pub fn new_sgxfs_key() -> (key: [u8; 16])
    ensures
        key@.len() == 16,
{
    let mut key = [0u8; 16];
    fill_random(&mut key);
    key
}

/// A key held by the service.
#[derive(Clone, Copy, Debug)]
pub enum KeyConfig {
    AEAD(AEADKeyConfig),
    SGXFS([u8; 16]),
}

impl View for KeyConfig {
    type V = KeyConfigModel;

    open spec fn view(&self) -> KeyConfigModel {
        match self {
            KeyConfig::AEAD(c) => c@,
            KeyConfig::SGXFS(k) => KeyConfigModel::Sgxfs { key: k@ },
        }
    }
}

impl KeyConfig {
    /// Draws a fresh key of the given encryption type.
    pub fn generate(enc_type: EncType) -> (config: Self)
        ensures
            config@.enc_type() == enc_type,
            config@.well_sized(),
    {
        match enc_type {
            EncType::Aead => KeyConfig::AEAD(AEADKeyConfig::new()),
            EncType::Sgxfs => KeyConfig::SGXFS(new_sgxfs_key()),
        }
    }
}

impl kms_proto::AeadConfig {
    /// The wire form of an AEAD key: the same bytes, as vectors.
    pub fn from(config: AEADKeyConfig) -> (msg: Self)
        ensures
            msg@ == config@,
    {
        kms_proto::AeadConfig {
            key: slice_to_vec(config.key.as_slice()),
            nonce: slice_to_vec(config.nonce.as_slice()),
            ad: slice_to_vec(config.ad.as_slice()),
        }
    }
}

impl kms_proto::KeyConfig {
    /// The wire form of a key held by the service; it always carries the key.
    pub fn from(config: KeyConfig) -> (msg: Self)
        ensures
            msg@ == Some(config@),
    {
        let key_config = match config {
            KeyConfig::AEAD(c) => Config::Aead(kms_proto::AeadConfig::from(c)),
            KeyConfig::SGXFS(key) => Config::Sgxfs(slice_to_vec(key.as_slice())),
        };
        kms_proto::KeyConfig { config: Some(key_config) }
    }
}

/// The key management service, holding its keys by identifier.
pub struct KMSEnclave {
    store: StringHashMap<KeyConfig>,
}

impl KMSEnclave {
    /// The keys held, by identifier, each by its content.
    pub closed spec fn keys(&self) -> Map<Seq<char>, KeyConfigModel> {
        self.store@.map_values(|c: KeyConfig| c@)
    }

    /// A service that holds no key.
    pub fn new() -> (service: Self)
        ensures
            service.keys() == Map::<Seq<char>, KeyConfigModel>::empty(),
    {
        let service = KMSEnclave { store: StringHashMap::new() };
        assert(service.keys() =~= Map::<Seq<char>, KeyConfigModel>::empty());
        service
    }

    /// Stores `config` under `key_id` unless that identifier is taken, and
    /// answers with the identifier and the key; a taken identifier is
    /// refused with `UUIDError` and the store is left as it was.
    pub fn register_key(&mut self, key_id: String, config: KeyConfig) -> (r: Result<
        kms_proto::CreateKeyResponse,
        ErrorKind,
    >)
        ensures
            old(self).keys().contains_key(key_id@) ==> r == Err::<
                kms_proto::CreateKeyResponse,
                ErrorKind,
            >(ErrorKind::UUIDError) && final(self).keys() == old(self).keys(),
            !old(self).keys().contains_key(key_id@) ==> {
                &&& r matches Ok(resp) && resp.key_id@ == key_id@ && carries(resp.config, config@)
                &&& final(self).keys() == old(self).keys().insert(key_id@, config@)
            },
    {
        if self.store.contains_key(key_id.as_str()) {
            return Err(ErrorKind::UUIDError);
        }
        let ghost pre = self.store@;
        self.store.insert(key_id.clone(), config);
        assert(self.store@.map_values(|c: KeyConfig| c@) =~= pre.map_values(
            |c: KeyConfig| c@,
        ).insert(key_id@, config@));
        Ok(kms_proto::CreateKeyResponse { key_id, config: Some(kms_proto::KeyConfig::from(config)) })
    }
}

impl Default for KMSEnclave {
    /// A service that holds no key.
    fn default() -> (service: Self)
        ensures
            service.keys() == Map::<Seq<char>, KeyConfigModel>::empty(),
    {
        KMSEnclave::new()
    }
}

impl KMSService for KMSEnclave {
    open spec fn key_store(&self) -> Map<Seq<char>, KeyConfigModel> {
        self.keys()
    }

    fn get_key(&self, req: kms_proto::GetKeyRequest) -> (r: Result<
        kms_proto::GetKeyResponse,
        ErrorKind,
    >) {
        match self.store.get(req.key_id.as_str()) {
            Some(config) => Ok(
                kms_proto::GetKeyResponse { config: Some(kms_proto::KeyConfig::from(*config)) },
            ),
            None => Err(ErrorKind::MissingValue),
        }
    }

    fn del_key(&mut self, req: kms_proto::DeleteKeyRequest) -> (r: Result<
        kms_proto::DeleteKeyResponse,
        ErrorKind,
    >) {
        let ghost pre = self.store@;
        let found = match self.store.get(req.key_id.as_str()) {
            Some(config) => Some(*config),
            None => None,
        };
        self.store.remove(req.key_id.as_str());
        assert(self.store@.map_values(|c: KeyConfig| c@) =~= pre.map_values(
            |c: KeyConfig| c@,
        ).remove(req.key_id@));
        match found {
            Some(config) => Ok(
                kms_proto::DeleteKeyResponse { config: Some(kms_proto::KeyConfig::from(config)) },
            ),
            None => Err(ErrorKind::MissingValue),
        }
    }

    fn create_key(&mut self, req: kms_proto::CreateKeyRequest) -> (r: Result<
        kms_proto::CreateKeyResponse,
        ErrorKind,
    >)
        ensures
            r matches Ok(resp) ==> is_uuid_v4_text(resp.key_id@),
            r matches Err(e) && e == ErrorKind::UUIDError ==> exists|id: Seq<char>|
                #[trigger] old(self).key_store().contains_key(id) && is_uuid_v4_text(id),
    {
        let config = match EncType::from_i32(req.enc_type) {
            Some(enc_type) => KeyConfig::generate(enc_type),
            None => return Err(ErrorKind::InvalidInputError),
        };
        let key_id = new_uuid_v4_string();
        let ghost drawn = key_id@;
        let r = self.register_key(key_id, config);
        assert(r matches Err(_) ==> old(self).key_store().contains_key(drawn));
        r
    }
}

impl KMSEnclave {
    /// Every key the service holds has the sizes the service hands out:
    /// a 32-byte AEAD key with a 12-byte nonce and 5 bytes of associated
    /// data, or a 16-byte SGX-FS key.
    pub proof fn lemma_stored_keys_well_sized(&self, id: Seq<char>)
        requires
            self.keys().contains_key(id),
        ensures
            self.keys()[id].well_sized(),
    {
        let c = self.store@[id];
        match c {
            KeyConfig::AEAD(a) => {
                vstd::array::array_len_matches_n(&a.key);
                vstd::array::array_len_matches_n(&a.nonce);
                vstd::array::array_len_matches_n(&a.ad);
            },
            KeyConfig::SGXFS(k) => {
                vstd::array::array_len_matches_n(&k);
            },
        }
    }
}

} // verus!
