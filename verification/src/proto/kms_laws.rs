use vstd::prelude::*;
use crate::error::ErrorKind;
use crate::proto::kms_proto::{
    carries, create_key_post, del_key_post, get_key_post, handle_invoke_post, CreateKeyRequest,
    CreateKeyResponse, DeleteKeyRequest, DeleteKeyResponse, GetKeyRequest, GetKeyResponse,
    KMSRequest, KMSResponse, KeyConfigModel,
};

verus! {

/// Step `i` of a run: the service went from `stores[i]` to `stores[i + 1]`
/// answering `reqs[i]` with `resps[i]`.
pub open spec fn run_step(
    stores: Seq<Map<Seq<char>, KeyConfigModel>>,
    reqs: Seq<KMSRequest>,
    resps: Seq<Result<KMSResponse, ErrorKind>>,
    i: int,
) -> bool {
    handle_invoke_post(stores[i], stores[i + 1], reqs[i], resps[i])
}

/// A run of the key management service: requests `reqs` answered with
/// `resps`, through the stores `stores` (the one before each request, and
/// the last one after all of them). A sequence of direct calls of
/// `get_key`, `del_key` and `create_key` is such a run, each call standing
/// as its request and its answer wrapped in the matching response
/// (`lemma_get_call_is_step`, `lemma_del_call_is_step`,
/// `lemma_create_call_is_step`).
pub open spec fn is_run(
    stores: Seq<Map<Seq<char>, KeyConfigModel>>,
    reqs: Seq<KMSRequest>,
    resps: Seq<Result<KMSResponse, ErrorKind>>,
) -> bool {
    &&& stores.len() == reqs.len() + 1
    &&& resps.len() == reqs.len()
    &&& forall|i: int| 0 <= i < reqs.len() ==> #[trigger] run_step(stores, reqs, resps, i)
}

/// The answer of a direct `get_key` call as a service response.
pub open spec fn get_response(r: Result<GetKeyResponse, ErrorKind>) -> Result<KMSResponse, ErrorKind> {
    match r {
        Ok(g) => Ok(KMSResponse::GetKey(g)),
        Err(e) => Err(e),
    }
}

/// The answer of a direct `del_key` call as a service response.
pub open spec fn del_response(r: Result<DeleteKeyResponse, ErrorKind>) -> Result<
    KMSResponse,
    ErrorKind,
> {
    match r {
        Ok(d) => Ok(KMSResponse::DelKey(d)),
        Err(e) => Err(e),
    }
}

/// The answer of a direct `create_key` call as a service response.
pub open spec fn create_response(r: Result<CreateKeyResponse, ErrorKind>) -> Result<
    KMSResponse,
    ErrorKind,
> {
    match r {
        Ok(c) => Ok(KMSResponse::CreateKey(c)),
        Err(e) => Err(e),
    }
}

/// A direct `get_key` call is a step of a run.
pub proof fn lemma_get_call_is_step(
    store: Map<Seq<char>, KeyConfigModel>,
    req: GetKeyRequest,
    r: Result<GetKeyResponse, ErrorKind>,
)
    requires
        get_key_post(store, req, r),
    ensures
        handle_invoke_post(store, store, KMSRequest::GetKey(req), get_response(r)),
{
}

/// A direct `del_key` call is a step of a run.
pub proof fn lemma_del_call_is_step(
    pre: Map<Seq<char>, KeyConfigModel>,
    post: Map<Seq<char>, KeyConfigModel>,
    req: DeleteKeyRequest,
    r: Result<DeleteKeyResponse, ErrorKind>,
)
    requires
        del_key_post(pre, post, req, r),
    ensures
        handle_invoke_post(pre, post, KMSRequest::DelKey(req), del_response(r)),
{
}

/// A direct `create_key` call is a step of a run.
pub proof fn lemma_create_call_is_step(
    pre: Map<Seq<char>, KeyConfigModel>,
    post: Map<Seq<char>, KeyConfigModel>,
    req: CreateKeyRequest,
    r: Result<CreateKeyResponse, ErrorKind>,
)
    requires
        create_key_post(pre, post, req, r),
    ensures
        handle_invoke_post(pre, post, KMSRequest::CreateKey(req), create_response(r)),
{
}

/// The request asks to delete the key under `id`.
pub open spec fn deletes(req: KMSRequest, id: Seq<char>) -> bool {
    req matches KMSRequest::DelKey(d) && d.key_id@ == id
}

/// The request asks to read the key under `id`.
pub open spec fn reads(req: KMSRequest, id: Seq<char>) -> bool {
    req matches KMSRequest::GetKey(g) && g.key_id@ == id
}

/// The identifier and key a successful creation handed out, if the step
/// was one.
pub open spec fn created(req: KMSRequest, resp: Result<KMSResponse, ErrorKind>) -> Option<
    (Seq<char>, KeyConfigModel),
> {
    match (req, resp) {
        (KMSRequest::CreateKey(_), Ok(KMSResponse::CreateKey(c))) => match c.config {
            Some(k) => match k@ {
                Some(m) => Some((c.key_id@, m)),
                None => None,
            },
            None => None,
        },
        _ => None,
    }
}

/// The identifier a successful creation handed out (empty for other steps).
pub open spec fn created_id(req: KMSRequest, resp: Result<KMSResponse, ErrorKind>) -> Seq<char> {
    match created(req, resp) {
        Some(p) => p.0,
        None => Seq::empty(),
    }
}

/// A key held at step `i` is still held, unchanged, at step `j`, unless it
/// was deleted in between.
pub proof fn lemma_held_key_persists(
    stores: Seq<Map<Seq<char>, KeyConfigModel>>,
    reqs: Seq<KMSRequest>,
    resps: Seq<Result<KMSResponse, ErrorKind>>,
    i: int,
    j: int,
    id: Seq<char>,
)
    requires
        is_run(stores, reqs, resps),
        0 <= i <= j <= reqs.len(),
        stores[i].contains_key(id),
        forall|k: int| i <= k < j ==> !deletes(#[trigger] reqs[k], id),
    ensures
        stores[j].contains_key(id),
        stores[j][id] == stores[i][id],
    decreases j - i,
{
    if i < j {
        lemma_held_key_persists(stores, reqs, resps, i, j - 1, id);
        assert(run_step(stores, reqs, resps, j - 1));
        assert(!deletes(reqs[j - 1], id));
    }
}

/// A key missing at step `i` is still missing at step `j`, unless a
/// creation handed it out in between.
pub proof fn lemma_missing_key_persists(
    stores: Seq<Map<Seq<char>, KeyConfigModel>>,
    reqs: Seq<KMSRequest>,
    resps: Seq<Result<KMSResponse, ErrorKind>>,
    i: int,
    j: int,
    id: Seq<char>,
)
    requires
        is_run(stores, reqs, resps),
        0 <= i <= j <= reqs.len(),
        !stores[i].contains_key(id),
        forall|k: int| i <= k < j ==> !(#[trigger] created(reqs[k], resps[k]) matches Some(p) && p.0 == id),
    ensures
        !stores[j].contains_key(id),
    decreases j - i,
{
    if i < j {
        lemma_missing_key_persists(stores, reqs, resps, i, j - 1, id);
        assert(run_step(stores, reqs, resps, j - 1));
        assert(!(created(reqs[j - 1], resps[j - 1]) matches Some(p) && p.0 == id));
    }
}

/// A key handed out by a creation is read back, the same, by any later read
/// of its identifier, whatever other requests came in between, as long as
/// none of them deleted it.
pub proof fn lemma_created_key_reads_back(
    stores: Seq<Map<Seq<char>, KeyConfigModel>>,
    reqs: Seq<KMSRequest>,
    resps: Seq<Result<KMSResponse, ErrorKind>>,
    i: int,
    j: int,
    id: Seq<char>,
    m: KeyConfigModel,
)
    requires
        is_run(stores, reqs, resps),
        0 <= i < j < reqs.len(),
        created(reqs[i], resps[i]) == Some((id, m)),
        reads(reqs[j], id),
        forall|k: int| i < k < j ==> !deletes(#[trigger] reqs[k], id),
    ensures
        resps[j] matches Ok(KMSResponse::GetKey(g)) && carries(g.config, m),
{
    assert(run_step(stores, reqs, resps, i));
    assert(stores[i + 1].contains_key(id) && stores[i + 1][id] == m);
    lemma_held_key_persists(stores, reqs, resps, i + 1, j, id);
    assert(run_step(stores, reqs, resps, j));
}

/// After a key is deleted, any later read of its identifier fails with
/// `MissingValue`, whatever other requests came in between, as long as no
/// creation handed that identifier out again.
pub proof fn lemma_deleted_key_stays_missing(
    stores: Seq<Map<Seq<char>, KeyConfigModel>>,
    reqs: Seq<KMSRequest>,
    resps: Seq<Result<KMSResponse, ErrorKind>>,
    i: int,
    j: int,
    id: Seq<char>,
)
    requires
        is_run(stores, reqs, resps),
        0 <= i < j < reqs.len(),
        deletes(reqs[i], id),
        reads(reqs[j], id),
        forall|k: int| i < k < j ==> !(#[trigger] created(reqs[k], resps[k]) matches Some(p) && p.0 == id),
    ensures
        resps[j] matches Err(e) && e == ErrorKind::MissingValue,
{
    assert(run_step(stores, reqs, resps, i));
    assert(!stores[i + 1].contains_key(id));
    lemma_missing_key_persists(stores, reqs, resps, i + 1, j, id);
    assert(run_step(stores, reqs, resps, j));
}

/// In a run without deletions, the identifiers handed out by creations are
/// pairwise distinct, and every one of them is held at the end.
pub proof fn lemma_created_ids_distinct_and_held(
    stores: Seq<Map<Seq<char>, KeyConfigModel>>,
    reqs: Seq<KMSRequest>,
    resps: Seq<Result<KMSResponse, ErrorKind>>,
)
    requires
        is_run(stores, reqs, resps),
        forall|k: int| 0 <= k < reqs.len() ==> !(#[trigger] reqs[k] is DelKey),
    ensures
        forall|i: int, j: int|
            0 <= i < j < reqs.len() && #[trigger] created(reqs[i], resps[i]) is Some
                && #[trigger] created(reqs[j], resps[j]) is Some ==> created_id(reqs[i], resps[i]) != created_id(reqs[j], resps[j]),
        forall|i: int|
            0 <= i < reqs.len() && #[trigger] created(reqs[i], resps[i]) is Some
                ==> stores.last().contains_key(created_id(reqs[i], resps[i])),
{
    assert forall|i: int, j: int|
        0 <= i < j < reqs.len() && #[trigger] created(reqs[i], resps[i]) is Some
            && #[trigger] created(reqs[j], resps[j]) is Some implies created_id(reqs[i], resps[i]) != created_id(reqs[j], resps[j]) by {
        let id = created_id(reqs[i], resps[i]);
        assert(run_step(stores, reqs, resps, i));
        assert forall|k: int| i + 1 <= k < j implies !deletes(#[trigger] reqs[k], id) by {
            assert(!(reqs[k] is DelKey));
        }
        lemma_held_key_persists(stores, reqs, resps, i + 1, j, id);
        assert(run_step(stores, reqs, resps, j));
    }
    assert forall|i: int|
        0 <= i < reqs.len() && #[trigger] created(reqs[i], resps[i]) is Some implies stores.last().contains_key(
        created_id(reqs[i], resps[i]),
    ) by {
        let id = created_id(reqs[i], resps[i]);
        assert(run_step(stores, reqs, resps, i));
        assert forall|k: int| i + 1 <= k < reqs.len() implies !deletes(#[trigger] reqs[k], id) by {
            assert(!(reqs[k] is DelKey));
        }
        lemma_held_key_persists(stores, reqs, resps, i + 1, reqs.len() as int, id);
    }
}

/// Step `i` of a series of `create_key` calls.
pub open spec fn creation_step(
    stores: Seq<Map<Seq<char>, KeyConfigModel>>,
    reqs: Seq<CreateKeyRequest>,
    resps: Seq<Result<CreateKeyResponse, ErrorKind>>,
    i: int,
) -> bool {
    create_key_post(stores[i], stores[i + 1], reqs[i], resps[i])
}

/// Over any series of `create_key` calls, the identifiers handed out are
/// pairwise distinct, and every one of them is held at the end.
pub proof fn lemma_creation_ids_distinct_and_held(
    stores: Seq<Map<Seq<char>, KeyConfigModel>>,
    reqs: Seq<CreateKeyRequest>,
    resps: Seq<Result<CreateKeyResponse, ErrorKind>>,
)
    requires
        stores.len() == reqs.len() + 1,
        resps.len() == reqs.len(),
        forall|i: int| 0 <= i < reqs.len() ==> #[trigger] creation_step(stores, reqs, resps, i),
    ensures
        forall|i: int, j: int|
            0 <= i < j < reqs.len() && #[trigger] resps[i] is Ok && #[trigger] resps[j] is Ok
                ==> resps[i]->Ok_0.key_id@ != resps[j]->Ok_0.key_id@,
        forall|i: int|
            0 <= i < reqs.len() && #[trigger] resps[i] is Ok ==> stores.last().contains_key(
                resps[i]->Ok_0.key_id@,
            ),
{
    let rq = reqs.map_values(|c: CreateKeyRequest| KMSRequest::CreateKey(c));
    let rs = resps.map_values(|r: Result<CreateKeyResponse, ErrorKind>| create_response(r));
    assert forall|i: int| 0 <= i < rq.len() implies #[trigger] run_step(stores, rq, rs, i) by {
        assert(creation_step(stores, reqs, resps, i));
        lemma_create_call_is_step(stores[i], stores[i + 1], reqs[i], resps[i]);
    }
    assert forall|k: int| 0 <= k < rq.len() implies !(#[trigger] rq[k] is DelKey) by {}
    lemma_created_ids_distinct_and_held(stores, rq, rs);
    assert forall|i: int|
        0 <= i < reqs.len() && #[trigger] resps[i] is Ok implies created(rq[i], rs[i]) is Some
        && created_id(rq[i], rs[i]) == resps[i]->Ok_0.key_id@ by {
        assert(creation_step(stores, reqs, resps, i));
    }
}

} // verus!
