use mesatee_kms::attestation::platform::{
    check_ocall, check_platform, check_report_data, init_sgx_quote, isv_report_data, judge_qe_report,
    platform_outcome,
    quote_digest_input, AttestationError, EcPublicKey, SGX_SUCCESS,
};
use mesatee_kms::attestation::quote::{QuoteAction, QuoteEvent, QuotePhase};

#[test]
fn ocall_status_failed_ocall_wins() {
    assert_eq!(check_ocall(SGX_SUCCESS, SGX_SUCCESS), Ok(()));
    assert_eq!(check_ocall(1, 2), Err(AttestationError::OCallError(1)));
    assert_eq!(check_ocall(0, 0x4001), Err(AttestationError::PlatformError(0x4001)));
    assert_eq!(init_sgx_quote(0, 0), Ok(()));
    assert_eq!(init_sgx_quote(3, 0), Err(AttestationError::OCallError(3)));
    assert_eq!(check_platform(0), Ok(()));
    assert_eq!(check_platform(2), Err(AttestationError::PlatformError(2)));
}

#[test]
fn report_data_is_big_endian_coordinates() {
    let mut gx = [0u8; 32];
    let mut gy = [0u8; 32];
    for i in 0..32 {
        gx[i] = i as u8;
        gy[i] = 100 + i as u8;
    }
    let d = isv_report_data(&EcPublicKey { gx, gy });
    for i in 0..32 {
        assert_eq!(d[i], 31 - i as u8);
        assert_eq!(d[32 + i], 131 - i as u8);
    }
}

#[test]
fn digest_input_is_nonce_then_quote() {
    let nonce = [9u8; 16];
    let quote = vec![1u8, 2, 3];
    let v = quote_digest_input(&nonce, &quote);
    let mut expected = vec![9u8; 16];
    expected.extend_from_slice(&[1, 2, 3]);
    assert_eq!(v, expected);
    assert_eq!(quote_digest_input(&nonce, &Vec::new()), vec![9u8; 16]);
}

#[test]
fn report_data_check_compares_first_half() {
    let digest = [5u8; 32];
    let mut data = [5u8; 64];
    data[40] = 0;
    assert_eq!(check_report_data(&digest, &data), Ok(()));
    data[31] = 6;
    assert_eq!(check_report_data(&digest, &data), Err(AttestationError::ReportError));
}

#[test]
fn quote_protocol_happy_path() {
    let (phase, action) = QuotePhase::start();
    assert!(matches!(action, QuoteAction::GetQuoteSize));
    let (phase, action) = phase.step(QuoteEvent::QuoteSize { ocall: 0, platform: 0, quote_len: 4 });
    assert!(matches!(action, QuoteAction::DrawNonce));
    let nonce = [7u8; 16];
    let (phase, action) = phase.step(QuoteEvent::Nonce(Some(nonce)));
    assert!(matches!(action, QuoteAction::SelfTarget));
    let (phase, action) =
        phase.step(QuoteEvent::SelfTarget { status: 0, target_info: Default::default() });
    match action {
        QuoteAction::GetQuote { quote_len, nonce: n, .. } => {
            assert_eq!(quote_len, 4);
            assert_eq!(n, nonce);
        },
        _ => panic!("expected the quote request"),
    }
    let (phase, action) =
        phase.step(QuoteEvent::Quote { ocall: 0, platform: 0, quote: vec![1, 2, 3, 4] });
    match action {
        QuoteAction::CheckQeReport { nonce: n, quote } => {
            assert_eq!(n, nonce);
            assert_eq!(quote, vec![1, 2, 3, 4]);
        },
        _ => panic!("expected the report check"),
    }
    let ev = QuoteEvent::QeReportChecked(Ok(()));
    assert!(phase.accepts(&ev));
    let (phase, action) = phase.step(ev);
    assert!(matches!(phase, QuotePhase::Finished));
    match action {
        QuoteAction::Finish(Ok(q)) => assert_eq!(q, vec![1, 2, 3, 4]),
        _ => panic!("expected the quote"),
    }
}

#[test]
fn quote_protocol_stops_at_each_failure() {
    let (_, a) = QuotePhase::AwaitSize.step(QuoteEvent::QuoteSize { ocall: 1, platform: 0, quote_len: 4 });
    assert!(matches!(a, QuoteAction::Finish(Err(AttestationError::OCallError(1)))));
    let (_, a) = QuotePhase::AwaitSize.step(QuoteEvent::QuoteSize { ocall: 0, platform: 9, quote_len: 4 });
    assert!(matches!(a, QuoteAction::Finish(Err(AttestationError::PlatformError(9)))));
    let (p, a) = QuotePhase::AwaitNonce { quote_len: 4 }.step(QuoteEvent::Nonce(None));
    assert!(matches!(p, QuotePhase::Finished));
    assert!(matches!(a, QuoteAction::Finish(Err(AttestationError::RngError))));
    let (_, a) = QuotePhase::AwaitTarget { quote_len: 4, nonce: [0; 16] }
        .step(QuoteEvent::SelfTarget { status: 2, target_info: Default::default() });
    assert!(matches!(a, QuoteAction::Finish(Err(AttestationError::PlatformError(2)))));
    let (_, a) = QuotePhase::AwaitQuote { quote_len: 4, nonce: [0; 16], target_info: Default::default() }
        .step(QuoteEvent::Quote { ocall: 0, platform: 3, quote: vec![] });
    assert!(matches!(a, QuoteAction::Finish(Err(AttestationError::PlatformError(3)))));
    let (p, a) = QuotePhase::AwaitQuote { quote_len: 4, nonce: [0; 16], target_info: Default::default() }
        .step(QuoteEvent::Quote { ocall: 0, platform: 0, quote: vec![1, 2, 3] });
    assert!(matches!(p, QuotePhase::Finished));
    assert!(matches!(a, QuoteAction::Finish(Err(AttestationError::QuoteLengthError))));
    let (_, a) = QuotePhase::AwaitCheck { quote: vec![1] }
        .step(QuoteEvent::QeReportChecked(Err(AttestationError::ReportError)));
    assert!(matches!(a, QuoteAction::Finish(Err(AttestationError::ReportError))));
}

#[test]
fn phase_rejects_out_of_order_events() {
    assert!(!QuotePhase::AwaitSize.accepts(&QuoteEvent::Nonce(None)));
    assert!(!QuotePhase::Finished
        .accepts(&QuoteEvent::SelfTarget { status: 0, target_info: Default::default() }));
    assert!(QuotePhase::AwaitNonce { quote_len: 1 }.accepts(&QuoteEvent::Nonce(None)));
}

#[test]
fn platform_outcome_keeps_the_status() {
    assert_eq!(platform_outcome::<u8>(Ok(7)), Ok(7));
    assert_eq!(platform_outcome::<u8>(Err(0x3001)), Err(AttestationError::PlatformError(0x3001)));
}

#[test]
fn qe_report_judgement() {
    let mut data = [0u8; 64];
    data[..32].copy_from_slice(&[4u8; 32]);
    assert_eq!(judge_qe_report(Ok(()), Ok([4u8; 32]), &data), Ok(()));
    assert_eq!(judge_qe_report(Ok(()), Ok([5u8; 32]), &data), Err(AttestationError::ReportError));
    assert_eq!(judge_qe_report(Err(0x2004), Ok([4u8; 32]), &data), Err(AttestationError::PlatformError(0x2004)));
    assert_eq!(judge_qe_report(Ok(()), Err(2), &data), Err(AttestationError::PlatformError(2)));
}
