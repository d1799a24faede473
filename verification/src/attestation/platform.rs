use vstd::prelude::*;
use sgx_types::{sgx_report_t, sgx_target_info_t};

verus! {

/// The SGX status code of success (`SGX_SUCCESS`).
pub const SGX_SUCCESS: u32 = 0;

/// The SGX status code of a bad parameter (`SGX_ERROR_INVALID_PARAMETER`).
pub const SGX_ERROR_INVALID_PARAMETER: u32 = 2;

#[verifier::external_type_specification]
#[verifier::external_body]
pub struct ExSgxTargetInfo(sgx_target_info_t);

#[verifier::external_type_specification]
#[verifier::external_body]
pub struct ExSgxReport(sgx_report_t);

/// Ways in which producing a quote can fail.
#[derive(Clone, Copy, Debug, PartialEq, Eq, Structural)]
pub enum AttestationError {
    /// An ocall itself failed, with this SGX status code.
    OCallError(u32),
    /// The platform (the quoting service or an SGX instruction) reported
    /// this SGX status code.
    PlatformError(u32),
    /// The quoting enclave's report does not vouch for the quote received.
    ReportError,
    /// No random number generator could be opened for the quote nonce.
    RngError,
    /// The quote received does not have the length announced for it.
    QuoteLengthError,
}

/// The outcome of an ocall that returned `ocall` and whose callee
/// reported `platform`: a failed ocall wins over a failed callee.
pub open spec fn spec_check_ocall(ocall: u32, platform: u32) -> Result<(), AttestationError> {
    if ocall != SGX_SUCCESS {
        Err(AttestationError::OCallError(ocall))
    } else if platform != SGX_SUCCESS {
        Err(AttestationError::PlatformError(platform))
    } else {
        Ok(())
    }
}

/// The outcome of a platform call that reported `status`.
pub open spec fn spec_check_platform(status: u32) -> Result<(), AttestationError> {
    if status != SGX_SUCCESS {
        Err(AttestationError::PlatformError(status))
    } else {
        Ok(())
    }
}

/// Judges the status codes of an ocall into the untrusted runtime.
pub fn check_ocall(ocall: u32, platform: u32) -> (r: Result<(), AttestationError>)
    ensures
        r == spec_check_ocall(ocall, platform),
{
    if ocall != SGX_SUCCESS {
        Err(AttestationError::OCallError(ocall))
    } else if platform != SGX_SUCCESS {
        Err(AttestationError::PlatformError(platform))
    } else {
        Ok(())
    }
}

/// Judges the status code of a platform call.
pub fn check_platform(status: u32) -> (r: Result<(), AttestationError>)
    ensures
        r == spec_check_platform(status),
{
    if status != SGX_SUCCESS {
        Err(AttestationError::PlatformError(status))
    } else {
        Ok(())
    }
}

/// Judges the outcome of the quote initialisation ocall
/// (`ocall_sgx_init_quote`): the attestation key identity and the quoting
/// enclave's target information it filled in are usable only on `Ok`.
pub fn init_sgx_quote(ocall: u32, platform: u32) -> (r: Result<(), AttestationError>)
    ensures
        r == spec_check_ocall(ocall, platform),
{
    check_ocall(ocall, platform)
}

/// An uncompressed P-256 public key: its two coordinates, little-endian.
#[derive(Clone, Copy, Debug)]
pub struct EcPublicKey {
    pub gx: [u8; 32],
    pub gy: [u8; 32],
}

/// The report data that binds an enclave report to a public key: both
/// coordinates turned big-endian, x first.
pub open spec fn spec_isv_report_data(pub_k: EcPublicKey) -> Seq<u8> {
    pub_k.gx@.reverse() + pub_k.gy@.reverse()
}

/// Lays out the report data for an enclave report on `pub_k`.
pub fn isv_report_data(pub_k: &EcPublicKey) -> (d: [u8; 64])
    ensures
        d@ == spec_isv_report_data(*pub_k),
{
    let mut d = [0u8; 64];
    let mut i: usize = 0;
    while i < 32
        invariant
            i <= 32,
            d@.len() == 64,
            forall|k: int| 0 <= k < i ==> #[trigger] d@[k] == pub_k.gx@[31 - k],
            forall|k: int| 32 <= k < 32 + i ==> #[trigger] d@[k] == pub_k.gy@[63 - k],
        decreases 32 - i,
    {
        d.set(i, pub_k.gx[31 - i]);
        d.set(32 + i, pub_k.gy[31 - i]);
        i = i + 1;
    }
    assert(d@ =~= spec_isv_report_data(*pub_k));
    d
}

/// Creates a report for the enclave targeted by `target_info` with
/// `sgx_tse::rsgx_create_report` (the EREPORT instruction), carrying
/// `report_data`, and hands it back with the report-data field read from
/// it. Claimed, from the crate's source and documentation: an error is a
/// non-success status code, and the report carries the data handed in.
/// What else the report holds is made by the processor and is left unsaid.
#[verifier::external_body]
fn sgx_create_report(target_info: &sgx_target_info_t, report_data: [u8; 64]) -> (r: Result<
    EnclaveReport,
    u32,
>)
    ensures
        r matches Ok(created) ==> created.report_data() == report_data@,
        r matches Err(s) ==> s != SGX_SUCCESS,
{
    let data = sgx_types::sgx_report_data_t { d: report_data };
    sgx_tse::rsgx_create_report(target_info, &data).map(
        |report| EnclaveReport { data: report.body.report_data.d, report },
    ).map_err(|s| s as u32)
}

/// Reads the report-data field of a report. Nothing is claimed of it:
/// `sgx_report_t` is opaque here.
#[verifier::external_body]
fn report_data_field(report: &sgx_report_t) -> (d: [u8; 64]) {
    report.body.report_data.d
}

/// An enclave report together with the report data it carries.
pub struct EnclaveReport {
    report: sgx_report_t,
    data: [u8; 64],
}

impl EnclaveReport {
    /// The report.
    pub closed spec fn spec_report(&self) -> sgx_report_t {
        self.report
    }

    /// The report data the report carries.
    pub closed spec fn report_data(&self) -> Seq<u8> {
        self.data@
    }

    /// Takes a report obtained elsewhere (such as the quoting enclave's
    /// report) together with the report data read from it.
    pub fn new(report: sgx_report_t) -> (r: Self)
        ensures
            r.spec_report() == report,
    {
        let data = report_data_field(&report);
        EnclaveReport { report, data }
    }

    /// The report.
    pub fn report(&self) -> (r: &sgx_report_t)
        ensures
            *r == self.spec_report(),
    {
        &self.report
    }

    /// The report data the report carries.
    pub fn data(&self) -> (d: [u8; 64])
        ensures
            d@ == self.report_data(),
    {
        self.data
    }
}

/// Checks the MAC of a report addressed to this enclave with
/// `sgx_tse::rsgx_verify_report`. Claimed, from the crate's source: an
/// error is a non-success status code. Whether the report passes rests on
/// the processor's report key and is left unsaid.
#[verifier::external_body]
fn sgx_verify_report(report: &sgx_report_t) -> (r: Result<(), u32>)
    ensures
        r matches Err(s) ==> s != SGX_SUCCESS,
{
    sgx_tse::rsgx_verify_report(report).map_err(|s| s as u32)
}

/// The SHA-256 digest of `data`.
pub uninterp spec fn sha256_digest(data: Seq<u8>) -> Seq<u8>;

/// Hashes `data` with `sgx_tcrypto::rsgx_sha256_slice`. Claimed, from the
/// crate's source: a digest handed back is the SHA-256 digest of the data;
/// empty data is refused with `SGX_ERROR_INVALID_PARAMETER`; any error is
/// a non-success status code. Other failures of the SDK's crypto library
/// are left unsaid.
#[verifier::external_body]
fn sgx_sha256(data: &[u8]) -> (r: Result<[u8; 32], u32>)
    ensures
        r matches Ok(h) ==> h@ == sha256_digest(data@),
        r matches Err(s) ==> s != SGX_SUCCESS,
        r matches Err(s) || data@.len() != 0,
        r matches Err(s) ==> (data@.len() == 0 ==> s == SGX_ERROR_INVALID_PARAMETER),
{
    sgx_tcrypto::rsgx_sha256_slice(data).map_err(|s| s as u32)
}

/// The outcome of a platform call that returned `r`: its value, or its
/// status code as a `PlatformError`.
pub fn platform_outcome<T>(r: Result<T, u32>) -> (out: Result<T, AttestationError>)
    ensures
        match r {
            Ok(v) => out == Ok::<T, AttestationError>(v),
            Err(s) => out == Err::<T, AttestationError>(AttestationError::PlatformError(s)),
        },
{
    match r {
        Ok(v) => Ok(v),
        Err(s) => Err(AttestationError::PlatformError(s)),
    }
}

/// Creates this enclave's report for the quoting enclave described by
/// `target_info`, binding the report to `pub_k`: its report data is both
/// coordinates of the key turned big-endian, x first (`isv_report_data`).
/// A refusal by the platform is a `PlatformError` with its non-success
/// status.
pub fn create_sgx_isv_enclave_report(pub_k: EcPublicKey, target_info: sgx_target_info_t) -> (r:
    Result<EnclaveReport, AttestationError>)
    ensures
        r matches Ok(report) ==> report.report_data() == spec_isv_report_data(pub_k),
        r matches Err(e) ==> e matches AttestationError::PlatformError(s) && s != SGX_SUCCESS,
{
    let report_data = isv_report_data(&pub_k);
    platform_outcome(sgx_create_report(&target_info, report_data))
}

/// The bytes whose digest the quoting enclave puts in its report:
/// the quote nonce followed by the quote.
pub fn quote_digest_input(nonce: &[u8; 16], quote: &Vec<u8>) -> (v: Vec<u8>)
    ensures
        v@ == nonce@ + quote@,
{
    let mut v: Vec<u8> = Vec::new();
    let mut i: usize = 0;
    while i < 16
        invariant
            i <= 16,
            v@ == nonce@.take(i as int),
        decreases 16 - i,
    {
        v.push(nonce[i]);
        i = i + 1;
        assert(v@ =~= nonce@.take(i as int));
    }
    let mut j: usize = 0;
    while j < quote.len()
        invariant
            j <= quote@.len(),
            v@ == nonce@ + quote@.take(j as int),
        decreases quote@.len() - j,
    {
        v.push(quote[j]);
        j = j + 1;
        assert(v@ =~= nonce@ + quote@.take(j as int));
    }
    assert(quote@.take(quote@.len() as int) =~= quote@);
    v
}

/// Compares a digest with the first 32 bytes of a report's data; a
/// mismatch is a `ReportError`.
pub fn check_report_data(digest: &[u8; 32], report_data: &[u8; 64]) -> (r: Result<
    (),
    AttestationError,
>)
    ensures
        r is Ok <==> digest@ == report_data@.take(32),
        r matches Err(e) ==> e == AttestationError::ReportError,
{
    let mut i: usize = 0;
    while i < 32
        invariant
            i <= 32,
            forall|j: int| 0 <= j < i ==> digest@[j] == report_data@[j],
        decreases 32 - i,
    {
        if digest[i] != report_data[i] {
            assert(digest@[i as int] != report_data@.take(32)[i as int]);
            return Err(AttestationError::ReportError);
        }
        i = i + 1;
    }
    assert(digest@ =~= report_data@.take(32));
    Ok(())
}

/// Judges the quoting enclave's report from the outcome of its MAC check
/// (`verified`) and of hashing nonce and quote (`digest`, which is not
/// looked at when the MAC check failed): a failed MAC check or hash is a
/// `PlatformError` with its own status; otherwise the report data must
/// begin with the digest, and a mismatch is a `ReportError`.
pub fn judge_qe_report(
    verified: Result<(), u32>,
    digest: Result<[u8; 32], u32>,
    report_data: &[u8; 64],
) -> (r: Result<(), AttestationError>)
    ensures
        match verified {
            Err(s) => r == Err::<(), AttestationError>(AttestationError::PlatformError(s)),
            Ok(()) => match digest {
                Err(s) => r == Err::<(), AttestationError>(AttestationError::PlatformError(s)),
                Ok(h) => {
                    &&& (r is Ok <==> h@ == report_data@.take(32))
                    &&& (r matches Err(e) ==> e == AttestationError::ReportError)
                },
            },
        },
{
    match verified {
        Err(s) => Err(AttestationError::PlatformError(s)),
        Ok(()) => match digest {
            Err(s) => Err(AttestationError::PlatformError(s)),
            Ok(h) => check_report_data(&h, report_data),
        },
    }
}

/// Checks the quoting enclave's report that came with a quote: the report
/// must pass `rsgx_verify_report`, and its report data must begin with
/// SHA-256(nonce || quote), which shows that the quote was neither altered
/// nor replayed. A platform failure is a `PlatformError`; a digest that
/// does not match is a `ReportError`.
pub fn check_qe_report(qe_report: &EnclaveReport, nonce: &[u8; 16], quote: &Vec<u8>) -> (r:
    Result<(), AttestationError>)
    ensures
        r is Ok ==> sha256_digest(nonce@ + quote@) == qe_report.report_data().take(32),
        r matches Err(e) ==> {
            ||| e matches AttestationError::PlatformError(s) && s != SGX_SUCCESS
            ||| e == AttestationError::ReportError && sha256_digest(nonce@ + quote@)
                != qe_report.report_data().take(32)
        },
{
    let verified = sgx_verify_report(qe_report.report());
    let digest = match verified {
        Ok(()) => {
            let input = quote_digest_input(nonce, quote);
            sgx_sha256(input.as_slice())
        },
        Err(s) => Err(s),
    };
    let data = qe_report.data();
    judge_qe_report(verified, digest, &data)
}

} // verus!
