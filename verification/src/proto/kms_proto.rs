use vstd::prelude::*;
use crate::error::ErrorKind;

pub mod key_config;

verus! {

/// Asks the key management service for a fresh key of the given
/// encryption type (the number of an `EncType`).
#[derive(Clone, Debug)]
pub struct CreateKeyRequest {
    pub enc_type: i32,
}

/// The material of an AEAD key as it travels on the wire.
#[derive(Clone, Debug)]
pub struct AeadConfig {
    pub key: Vec<u8>,
    pub nonce: Vec<u8>,
    pub ad: Vec<u8>,
}

/// A key configuration as it travels on the wire; `config` is `None`
/// when the message carries no key.
#[derive(Clone, Debug)]
pub struct KeyConfig {
    pub config: Option<key_config::Config>,
}

/// Answer to a `CreateKeyRequest`: the new key's identifier and material.
#[derive(Clone, Debug)]
pub struct CreateKeyResponse {
    pub key_id: String,
    pub config: Option<KeyConfig>,
}

/// Asks for the key stored under `key_id`.
#[derive(Clone, Debug)]
pub struct GetKeyRequest {
    pub key_id: String,
}

/// Answer to a `GetKeyRequest`.
#[derive(Clone, Debug)]
pub struct GetKeyResponse {
    pub config: Option<KeyConfig>,
}

/// Asks to delete the key stored under `key_id`.
#[derive(Clone, Debug)]
pub struct DeleteKeyRequest {
    pub key_id: String,
}

/// Answer to a `DeleteKeyRequest`: the key that was deleted.
#[derive(Clone, Debug)]
pub struct DeleteKeyResponse {
    pub config: Option<KeyConfig>,
}

/// The encryption schemes a key can be made for; on the wire an
/// `EncType` is the number 0 (`Aead`) or 1 (`Sgxfs`).
#[derive(Clone, Copy, Debug, PartialEq, Eq, Structural, Hash)]
pub enum EncType {
    Aead,
    Sgxfs,
}

/// A request to the key management service.
#[derive(Clone, Debug)]
pub enum KMSRequest {
    GetKey(GetKeyRequest),
    DelKey(DeleteKeyRequest),
    CreateKey(CreateKeyRequest),
}

/// A response of the key management service.
#[derive(Clone, Debug)]
pub enum KMSResponse {
    GetKey(GetKeyResponse),
    DelKey(DeleteKeyResponse),
    CreateKey(CreateKeyResponse),
}

/// The mathematical content of a key configuration: the bytes of each
/// part of the key.
pub enum KeyConfigModel {
    Aead { key: Seq<u8>, nonce: Seq<u8>, ad: Seq<u8> },
    Sgxfs { key: Seq<u8> },
}

impl KeyConfigModel {
    /// The encryption type a key configuration is for.
    pub open spec fn enc_type(self) -> EncType {
        match self {
            KeyConfigModel::Aead { .. } => EncType::Aead,
            KeyConfigModel::Sgxfs { .. } => EncType::Sgxfs,
        }
    }

    /// The parts have the sizes the service hands out: a 32-byte AEAD key
    /// with a 12-byte nonce and 5 bytes of associated data, or a 16-byte
    /// SGX-FS key.
    pub open spec fn well_sized(self) -> bool {
        match self {
            KeyConfigModel::Aead { key, nonce, ad } => key.len() == 32 && nonce.len() == 12
                && ad.len() == 5,
            KeyConfigModel::Sgxfs { key } => key.len() == 16,
        }
    }
}

impl View for AeadConfig {
    type V = KeyConfigModel;

    open spec fn view(&self) -> KeyConfigModel {
        KeyConfigModel::Aead { key: self.key@, nonce: self.nonce@, ad: self.ad@ }
    }
}

impl View for KeyConfig {
    type V = Option<KeyConfigModel>;

    open spec fn view(&self) -> Option<KeyConfigModel> {
        match self.config {
            Some(c) => Some(c@),
            None => None,
        }
    }
}

/// `config` carries a key whose content is `model`.
pub open spec fn carries(config: Option<KeyConfig>, model: KeyConfigModel) -> bool {
    config matches Some(c) && c@ == Some(model)
}

impl EncType {
    /// The encryption type numbered `value` on the wire, if there is one.
    pub open spec fn spec_from_i32(value: i32) -> Option<EncType> {
        if value == 0 {
            Some(EncType::Aead)
        } else if value == 1 {
            Some(EncType::Sgxfs)
        } else {
            None
        }
    }

    /// The wire number of an encryption type.
    pub open spec fn spec_to_i32(self) -> i32 {
        match self {
            EncType::Aead => 0,
            EncType::Sgxfs => 1,
        }
    }

    /// Decodes a wire number into an encryption type.
    pub fn from_i32(value: i32) -> (t: Option<EncType>)
        ensures
            t == Self::spec_from_i32(value),
    {
        if value == 0 {
            Some(EncType::Aead)
        } else if value == 1 {
            Some(EncType::Sgxfs)
        } else {
            None
        }
    }

    /// Whether `value` numbers an encryption type.
    pub fn is_valid(value: i32) -> (b: bool)
        ensures
            b == Self::spec_from_i32(value) is Some,
    {
        value == 0 || value == 1
    }

    /// Encodes an encryption type as its wire number.
    pub fn to_i32(self) -> (n: i32)
        ensures
            n == self.spec_to_i32(),
    {
        match self {
            EncType::Aead => 0,
            EncType::Sgxfs => 1,
        }
    }
}

/// What `get_key` answers on a store: the stored key, or `MissingValue`
/// when nothing is stored under the identifier.
pub open spec fn get_key_post(
    store: Map<Seq<char>, KeyConfigModel>,
    req: GetKeyRequest,
    r: Result<GetKeyResponse, ErrorKind>,
) -> bool {
    match r {
        Ok(resp) => store.contains_key(req.key_id@) && carries(resp.config, store[req.key_id@]),
        Err(e) => !store.contains_key(req.key_id@) && e == ErrorKind::MissingValue,
    }
}

/// What `del_key` does to a store and answers: the key leaves the store
/// and is handed back, or `MissingValue` when there was none.
pub open spec fn del_key_post(
    pre: Map<Seq<char>, KeyConfigModel>,
    post: Map<Seq<char>, KeyConfigModel>,
    req: DeleteKeyRequest,
    r: Result<DeleteKeyResponse, ErrorKind>,
) -> bool {
    &&& post == pre.remove(req.key_id@)
    &&& match r {
        Ok(resp) => pre.contains_key(req.key_id@) && carries(resp.config, pre[req.key_id@]),
        Err(e) => !pre.contains_key(req.key_id@) && e == ErrorKind::MissingValue,
    }
}

/// What `create_key` does to a store and answers, whatever key and
/// identifier were drawn: an unknown encryption type is refused with
/// `InvalidInputError`; otherwise either a new key of the requested type
/// is stored under an identifier that was free and handed back with it,
/// or (when the drawn identifier was taken) `UUIDError` is answered;
/// a refused request leaves the store as it was.
pub open spec fn create_key_post(
    pre: Map<Seq<char>, KeyConfigModel>,
    post: Map<Seq<char>, KeyConfigModel>,
    req: CreateKeyRequest,
    r: Result<CreateKeyResponse, ErrorKind>,
) -> bool {
    match r {
        Ok(resp) => {
            &&& EncType::spec_from_i32(req.enc_type) is Some
            &&& resp.config matches Some(c) && c@ matches Some(m) && {
                &&& Some(m.enc_type()) == EncType::spec_from_i32(req.enc_type)
                &&& m.well_sized()
                &&& !pre.contains_key(resp.key_id@)
                &&& post == pre.insert(resp.key_id@, m)
            }
        },
        Err(e) => {
            &&& post == pre
            &&& (e == ErrorKind::InvalidInputError) == (EncType::spec_from_i32(req.enc_type) is None)
            &&& (e == ErrorKind::InvalidInputError || e == ErrorKind::UUIDError)
        },
    }
}

/// What `handle_invoke` does: the request is passed to the operation it
/// names, and that operation's answer is wrapped in the matching response.
pub open spec fn handle_invoke_post(
    pre: Map<Seq<char>, KeyConfigModel>,
    post: Map<Seq<char>, KeyConfigModel>,
    req: KMSRequest,
    r: Result<KMSResponse, ErrorKind>,
) -> bool {
    match req {
        KMSRequest::GetKey(g) => post == pre && match r {
            Ok(KMSResponse::GetKey(resp)) => get_key_post(pre, g, Ok(resp)),
            Ok(_) => false,
            Err(e) => get_key_post(pre, g, Err(e)),
        },
        KMSRequest::DelKey(d) => match r {
            Ok(KMSResponse::DelKey(resp)) => del_key_post(pre, post, d, Ok(resp)),
            Ok(_) => false,
            Err(e) => del_key_post(pre, post, d, Err(e)),
        },
        KMSRequest::CreateKey(c) => match r {
            Ok(KMSResponse::CreateKey(resp)) => create_key_post(pre, post, c, Ok(resp)),
            Ok(_) => false,
            Err(e) => create_key_post(pre, post, c, Err(e)),
        },
    }
}

/// A key handed out by `create_key` is what `get_key` then reads back
/// under the identifier it came with.
pub proof fn lemma_get_after_create(
    pre: Map<Seq<char>, KeyConfigModel>,
    post: Map<Seq<char>, KeyConfigModel>,
    creq: CreateKeyRequest,
    created: CreateKeyResponse,
    greq: GetKeyRequest,
    got: Result<GetKeyResponse, ErrorKind>,
)
    requires
        create_key_post(pre, post, creq, Ok(created)),
        greq.key_id@ == created.key_id@,
        get_key_post(post, greq, got),
    ensures
        got matches Ok(g) && g.config matches Some(c) && created.config matches Some(c2) && c@
            == c2@,
{
}

/// Deleting a key right after creating it hands the same key back and
/// leaves the store as it was before the creation.
pub proof fn lemma_delete_undoes_create(
    pre: Map<Seq<char>, KeyConfigModel>,
    mid: Map<Seq<char>, KeyConfigModel>,
    post: Map<Seq<char>, KeyConfigModel>,
    creq: CreateKeyRequest,
    created: CreateKeyResponse,
    dreq: DeleteKeyRequest,
    deleted: Result<DeleteKeyResponse, ErrorKind>,
)
    requires
        create_key_post(pre, mid, creq, Ok(created)),
        dreq.key_id@ == created.key_id@,
        del_key_post(mid, post, dreq, deleted),
    ensures
        deleted matches Ok(d) && d.config matches Some(c) && created.config matches Some(c2)
            && c@ == c2@,
        post == pre,
{
    assert(post =~= pre);
}

/// After a key is deleted, reading it fails with `MissingValue`.
pub proof fn lemma_get_after_delete(
    pre: Map<Seq<char>, KeyConfigModel>,
    post: Map<Seq<char>, KeyConfigModel>,
    dreq: DeleteKeyRequest,
    deleted: Result<DeleteKeyResponse, ErrorKind>,
    greq: GetKeyRequest,
    got: Result<GetKeyResponse, ErrorKind>,
)
    requires
        del_key_post(pre, post, dreq, deleted),
        greq.key_id@ == dreq.key_id@,
        get_key_post(post, greq, got),
    ensures
        got == Err::<GetKeyResponse, ErrorKind>(ErrorKind::MissingValue),
{
}

/// Creating a key never replaces one: every key held before is still held,
/// unchanged, and exactly one identifier is added.
pub proof fn lemma_create_keeps_other_keys(
    pre: Map<Seq<char>, KeyConfigModel>,
    post: Map<Seq<char>, KeyConfigModel>,
    creq: CreateKeyRequest,
    r: Result<CreateKeyResponse, ErrorKind>,
    id: Seq<char>,
)
    requires
        create_key_post(pre, post, creq, r),
        pre.contains_key(id),
    ensures
        post.contains_key(id) && post[id] == pre[id],
        r matches Ok(created) ==> created.key_id@ != id && post.dom() == pre.dom().insert(
            created.key_id@,
        ),
{
    if let Ok(created) = r {
        assert(post.dom() =~= pre.dom().insert(created.key_id@));
    }
}

/// A request for an encryption type that does not exist is refused with
/// `InvalidInputError` and changes nothing.
pub proof fn lemma_unknown_enc_type_refused(
    pre: Map<Seq<char>, KeyConfigModel>,
    post: Map<Seq<char>, KeyConfigModel>,
    creq: CreateKeyRequest,
    r: Result<CreateKeyResponse, ErrorKind>,
)
    requires
        create_key_post(pre, post, creq, r),
        creq.enc_type != 0 && creq.enc_type != 1,
    ensures
        r == Err::<CreateKeyResponse, ErrorKind>(ErrorKind::InvalidInputError),
        post == pre,
{
}

/// Deleting a key that is not held is refused with `MissingValue` and
/// changes nothing.
pub proof fn lemma_delete_missing_refused(
    pre: Map<Seq<char>, KeyConfigModel>,
    post: Map<Seq<char>, KeyConfigModel>,
    dreq: DeleteKeyRequest,
    r: Result<DeleteKeyResponse, ErrorKind>,
)
    requires
        del_key_post(pre, post, dreq, r),
        !pre.contains_key(dreq.key_id@),
    ensures
        r == Err::<DeleteKeyResponse, ErrorKind>(ErrorKind::MissingValue),
        post == pre,
{
    assert(post =~= pre);
}

/// The key management service: a store of key configurations under
/// string identifiers, with operations to read, delete and create keys.
pub trait KMSService: Sized {
    /// The keys held by the service, by identifier.
    spec fn key_store(&self) -> Map<Seq<char>, KeyConfigModel>;

    fn get_key(&self, req: GetKeyRequest) -> (r: Result<GetKeyResponse, ErrorKind>)
        ensures
            get_key_post(self.key_store(), req, r),
    ;

    fn del_key(&mut self, req: DeleteKeyRequest) -> (r: Result<DeleteKeyResponse, ErrorKind>)
        ensures
            del_key_post(old(self).key_store(), final(self).key_store(), req, r),
    ;

    fn create_key(&mut self, req: CreateKeyRequest) -> (r: Result<CreateKeyResponse, ErrorKind>)
        ensures
            create_key_post(old(self).key_store(), final(self).key_store(), req, r),
    ;

    /// Dispatches a request to the operation it names.
    fn handle_invoke(&mut self, req: KMSRequest) -> (r: Result<KMSResponse, ErrorKind>)
        ensures
            handle_invoke_post(old(self).key_store(), final(self).key_store(), req, r),
    {
        match req {
            KMSRequest::GetKey(g) => match self.get_key(g) {
                Ok(resp) => Ok(KMSResponse::GetKey(resp)),
                Err(e) => Err(e),
            },
            KMSRequest::DelKey(d) => match self.del_key(d) {
                Ok(resp) => Ok(KMSResponse::DelKey(resp)),
                Err(e) => Err(e),
            },
            KMSRequest::CreateKey(c) => match self.create_key(c) {
                Ok(resp) => Ok(KMSResponse::CreateKey(resp)),
                Err(e) => Err(e),
            },
        }
    }
}

} // verus!
