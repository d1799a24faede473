use vstd::prelude::*;
use crate::attestation::platform::{
    check_ocall, check_platform, spec_check_ocall, SGX_SUCCESS, spec_check_platform, AttestationError,
};
use sgx_types::sgx_target_info_t;

verus! {

/// Where a run of the quote protocol stands: what it waits for, and what
/// it has learned so far.
pub enum QuotePhase {
    /// Waits for the size of the quote (`ocall_sgx_get_quote_size`).
    AwaitSize,
    /// Knows the quote size; waits for a fresh nonce.
    AwaitNonce { quote_len: u32 },
    /// Waits for this enclave's own target information (`sgx_self_target`).
    AwaitTarget { quote_len: u32, nonce: [u8; 16] },
    /// Knows this enclave's target information; waits for the quote and the
    /// quoting enclave's report (`ocall_sgx_get_quote`).
    AwaitQuote { quote_len: u32, nonce: [u8; 16], target_info: sgx_target_info_t },
    /// Holds the quote; waits for the check of the quoting enclave's report.
    AwaitCheck { quote: Vec<u8> },
    /// The run is over.
    Finished,
}

/// What the untrusted side reports back after doing the work asked of it.
pub enum QuoteEvent {
    /// Status codes of the quote-size ocall and the size it produced.
    QuoteSize { ocall: u32, platform: u32, quote_len: u32 },
    /// A fresh random nonce, or `None` when no generator could be opened.
    Nonce(Option<[u8; 16]>),
    /// Status code of `sgx_self_target` and the target information it wrote.
    SelfTarget { status: u32, target_info: sgx_target_info_t },
    /// Status codes of the quote ocall and the quote it produced.
    Quote { ocall: u32, platform: u32, quote: Vec<u8> },
    /// The outcome of `check_qe_report` on the quoting enclave's report.
    QeReportChecked(Result<(), AttestationError>),
}

/// The work the protocol asks of the untrusted side next.
pub enum QuoteAction {
    /// Call `ocall_sgx_get_quote_size`.
    GetQuoteSize,
    /// Draw 16 random bytes for the quote nonce.
    DrawNonce,
    /// Call `sgx_self_target` for the quoting enclave's report target.
    SelfTarget,
    /// Call `ocall_sgx_get_quote` into a buffer of `quote_len` bytes, with
    /// the report, this run's `nonce` and this enclave's `target_info` in the
    /// quoting enclave's report request.
    GetQuote { quote_len: u32, nonce: [u8; 16], target_info: sgx_target_info_t },
    /// Check the quoting enclave's report against `nonce` and `quote`
    /// with `check_qe_report`.
    CheckQeReport { nonce: [u8; 16], quote: Vec<u8> },
    /// The run is over with this outcome: the quote, or why there is none.
    Finish(Result<Vec<u8>, AttestationError>),
}

/// The run ends with the error of a failed check.
pub open spec fn finishes_with(
    next: QuotePhase,
    action: QuoteAction,
    check: Result<(), AttestationError>,
) -> bool {
    &&& next is Finished
    &&& check matches Err(e) && action matches QuoteAction::Finish(r) && r matches Err(e2) && e2
        == e
}

/// One step of the quote protocol: from `phase`, on `event`, the protocol
/// moves to `next` and asks for `action`.
pub open spec fn step_post(
    phase: QuotePhase,
    event: QuoteEvent,
    next: QuotePhase,
    action: QuoteAction,
) -> bool {
    match (phase, event) {
        (QuotePhase::AwaitSize, QuoteEvent::QuoteSize { ocall, platform, quote_len }) => {
            let c = spec_check_ocall(ocall, platform);
            if c is Ok {
                next == (QuotePhase::AwaitNonce { quote_len })
                    && action is DrawNonce
            } else {
                finishes_with(next, action, c)
            }
        },
        (QuotePhase::AwaitNonce { quote_len }, QuoteEvent::Nonce(n)) => match n {
            Some(nonce) => next == (QuotePhase::AwaitTarget { quote_len, nonce })
                && action is SelfTarget,
            None => finishes_with(next, action, Err(AttestationError::RngError)),
        },
        (
            QuotePhase::AwaitTarget { quote_len, nonce },
            QuoteEvent::SelfTarget { status, target_info },
        ) => {
            let c = spec_check_platform(status);
            if c is Ok {
                next == (QuotePhase::AwaitQuote { quote_len, nonce, target_info }) && action
                    == (QuoteAction::GetQuote { quote_len, nonce, target_info })
            } else {
                finishes_with(next, action, c)
            }
        },
        (
            QuotePhase::AwaitQuote { quote_len, nonce, .. },
            QuoteEvent::Quote { ocall, platform, quote },
        ) => {
            let c = spec_check_ocall(ocall, platform);
            if c is Ok && quote@.len() != quote_len {
                finishes_with(next, action, Err(AttestationError::QuoteLengthError))
            } else if c is Ok {
                &&& next matches QuotePhase::AwaitCheck { quote: q } && q@ == quote@
                &&& action matches QuoteAction::CheckQeReport { nonce: n, quote: q2 }
                    && n == nonce && q2@ == quote@
            } else {
                finishes_with(next, action, c)
            }
        },
        (QuotePhase::AwaitCheck { quote }, QuoteEvent::QeReportChecked(c)) => {
            if c is Ok {
                &&& next is Finished
                &&& action matches QuoteAction::Finish(res)
                &&& res matches Ok(q) && q@ == quote@
            } else {
                finishes_with(next, action, c)
            }
        },
        _ => false,
    }
}

/// A quote leaves the protocol only from a run that holds that very quote
/// and has just been told that the quoting enclave's report checked out.
pub proof fn lemma_quote_only_after_check(
    phase: QuotePhase,
    event: QuoteEvent,
    next: QuotePhase,
    action: QuoteAction,
)
    requires
        step_post(phase, event, next, action),
        action matches QuoteAction::Finish(r) && r is Ok,
    ensures
        phase matches QuotePhase::AwaitCheck { quote } && action matches QuoteAction::Finish(
            r,
        ) && r matches Ok(q) && q@ == quote@,
        event matches QuoteEvent::QeReportChecked(c) && c is Ok,
{
}

/// Every step either moves on to a phase that waits for more, or finishes
/// the run; once finished, a run accepts no further event.
pub proof fn lemma_finished_is_final(
    phase: QuotePhase,
    event: QuoteEvent,
    next: QuotePhase,
    action: QuoteAction,
    later: QuoteEvent,
)
    requires
        step_post(phase, event, next, action),
    ensures
        (action is Finish) == (next is Finished),
        next is Finished ==> !next.spec_accepts(&later),
{
}

/// The nonce the quoting enclave's report is checked against is the one
/// drawn for this run, and the quote checked is the one received, of the
/// announced length.
pub proof fn lemma_check_uses_run_nonce(
    quote_len: u32,
    nonce: [u8; 16],
    target_info: sgx_target_info_t,
    event: QuoteEvent,
    next: QuotePhase,
    action: QuoteAction,
)
    requires
        step_post(QuotePhase::AwaitQuote { quote_len, nonce, target_info }, event, next, action),
        action is CheckQeReport,
    ensures
        ({
            &&& event matches QuoteEvent::Quote { ocall, platform, quote }
            &&& ocall == SGX_SUCCESS && platform == SGX_SUCCESS && quote@.len() == quote_len
            &&& action matches QuoteAction::CheckQeReport { nonce: n, quote: q }
            &&& n == nonce && q@ == quote@
        }),
{
}

/// Once this enclave's target information is in hand, the quote request
/// carries the nonce of the run, and the run keeps that same nonce for
/// the later check of the quoting enclave's report.
pub proof fn lemma_quote_request_carries_run_nonce(
    quote_len: u32,
    nonce: [u8; 16],
    status: u32,
    target_info: sgx_target_info_t,
    next: QuotePhase,
    action: QuoteAction,
)
    requires
        step_post(
            QuotePhase::AwaitTarget { quote_len, nonce },
            QuoteEvent::SelfTarget { status, target_info },
            next,
            action,
        ),
        status == SGX_SUCCESS,
    ensures
        action matches QuoteAction::GetQuote { quote_len: l, nonce: sent, target_info: t } && l
            == quote_len && sent == nonce && t == target_info,
        next matches QuotePhase::AwaitQuote { nonce: kept, .. } && kept == nonce,
{
}

/// The nonce drawn for a run is the nonce sent with the quote request and
/// the nonce the quoting enclave's report is then checked against.
pub proof fn lemma_drawn_nonce_is_sent_and_checked(
    quote_len: u32,
    drawn: [u8; 16],
    p1: QuotePhase,
    a1: QuoteAction,
    e2: QuoteEvent,
    p2: QuotePhase,
    a2: QuoteAction,
    e3: QuoteEvent,
    p3: QuotePhase,
    a3: QuoteAction,
)
    requires
        step_post(QuotePhase::AwaitNonce { quote_len }, QuoteEvent::Nonce(Some(drawn)), p1, a1),
        step_post(p1, e2, p2, a2),
        a2 is GetQuote,
        step_post(p2, e3, p3, a3),
        a3 is CheckQeReport,
    ensures
        a2 matches QuoteAction::GetQuote { nonce: sent, .. } && sent == drawn,
        a3 matches QuoteAction::CheckQeReport { nonce: checked, .. } && checked == drawn,
{
}

impl QuotePhase {
    /// The phase expects this kind of event.
    pub open spec fn spec_accepts(&self, event: &QuoteEvent) -> bool {
        match (*self, *event) {
            (QuotePhase::AwaitSize, QuoteEvent::QuoteSize { .. }) => true,
            (QuotePhase::AwaitNonce { .. }, QuoteEvent::Nonce(..)) => true,
            (QuotePhase::AwaitTarget { .. }, QuoteEvent::SelfTarget { .. }) => true,
            (QuotePhase::AwaitQuote { .. }, QuoteEvent::Quote { .. }) => true,
            (QuotePhase::AwaitCheck { .. }, QuoteEvent::QeReportChecked(..)) => true,
            _ => false,
        }
    }

    /// Whether the phase expects this kind of event.
    pub fn accepts(&self, event: &QuoteEvent) -> (b: bool)
        ensures
            b == self.spec_accepts(event),
    {
        match (self, event) {
            (QuotePhase::AwaitSize, QuoteEvent::QuoteSize { .. }) => true,
            (QuotePhase::AwaitNonce { .. }, QuoteEvent::Nonce(..)) => true,
            (QuotePhase::AwaitTarget { .. }, QuoteEvent::SelfTarget { .. }) => true,
            (QuotePhase::AwaitQuote { .. }, QuoteEvent::Quote { .. }) => true,
            (QuotePhase::AwaitCheck { .. }, QuoteEvent::QeReportChecked(..)) => true,
            _ => false,
        }
    }

    /// A run of the quote protocol begins by asking for the quote size.
    pub fn start() -> (r: (QuotePhase, QuoteAction))
        ensures
            r.0 is AwaitSize,
            r.1 is GetQuoteSize,
    {
        (QuotePhase::AwaitSize, QuoteAction::GetQuoteSize)
    }

    /// Takes one step of the quote protocol: judges what the untrusted
    /// side reported and decides what to do next. Every failed status ends
    /// the run with its error; a quote leaves the protocol only after the
    /// quoting enclave's report has been checked against it.
    pub fn step(self, event: QuoteEvent) -> (r: (QuotePhase, QuoteAction))
        requires
            self.spec_accepts(&event),
        ensures
            step_post(self, event, r.0, r.1),
    {
        match (self, event) {
            (QuotePhase::AwaitSize, QuoteEvent::QuoteSize { ocall, platform, quote_len }) => {
                match check_ocall(ocall, platform) {
                    Ok(()) => (QuotePhase::AwaitNonce { quote_len }, QuoteAction::DrawNonce),
                    Err(e) => (QuotePhase::Finished, QuoteAction::Finish(Err(e))),
                }
            },
            (QuotePhase::AwaitNonce { quote_len }, QuoteEvent::Nonce(n)) => match n {
                Some(nonce) => (QuotePhase::AwaitTarget { quote_len, nonce }, QuoteAction::SelfTarget),
                None => (
                    QuotePhase::Finished,
                    QuoteAction::Finish(Err(AttestationError::RngError)),
                ),
            },
            (
                QuotePhase::AwaitTarget { quote_len, nonce },
                QuoteEvent::SelfTarget { status, target_info },
            ) => {
                match check_platform(status) {
                    Ok(()) => (
                        QuotePhase::AwaitQuote { quote_len, nonce, target_info },
                        QuoteAction::GetQuote { quote_len, nonce, target_info },
                    ),
                    Err(e) => (QuotePhase::Finished, QuoteAction::Finish(Err(e))),
                }
            },
            (
                QuotePhase::AwaitQuote { quote_len, nonce, .. },
                QuoteEvent::Quote { ocall, platform, quote },
            ) => {
                match check_ocall(ocall, platform) {
                    Ok(()) if quote.len() as u64 != quote_len as u64 => (
                        QuotePhase::Finished,
                        QuoteAction::Finish(Err(AttestationError::QuoteLengthError)),
                    ),
                    Ok(()) => {
                        let copy = quote.clone();
                        (QuotePhase::AwaitCheck { quote }, QuoteAction::CheckQeReport { nonce, quote: copy })
                    },
                    Err(e) => (QuotePhase::Finished, QuoteAction::Finish(Err(e))),
                }
            },
            (QuotePhase::AwaitCheck { quote }, QuoteEvent::QeReportChecked(c)) => match c {
                Ok(()) => (QuotePhase::Finished, QuoteAction::Finish(Ok(quote))),
                Err(e) => (QuotePhase::Finished, QuoteAction::Finish(Err(e))),
            },
            _ => (QuotePhase::Finished, QuoteAction::Finish(Err(AttestationError::ReportError))),
        }
    }
}

} // verus!
