use spdmlib::codec::Writer;
use spdmlib::context::{
    ResponderContext, SpdmConfigInfo, SpdmNegotiateInfo, SpdmRuntimeInfo, SpdmTransportInfo,
};
use spdmlib::protocol::{
    SpdmBaseHashAlgo, SpdmConnectionState, SpdmSessionState, SpdmStatus, SpdmVersion,
};

use hmac::{Hmac, Mac};
use sha2::{Digest, Sha256};
use spdmlib::crypto::SpdmDigestStruct;
use spdmlib::responder::psk_exchange_rsp::accept_measurement_summary_hash;
use spdmlib::software_crypto::SpdmSoftwareCrypto;

fn hmac256(key: &[u8], data: &[u8]) -> Vec<u8> {
    let mut m = <Hmac<Sha256> as Mac>::new_from_slice(key).unwrap();
    m.update(data);
    m.finalize().into_bytes().to_vec()
}

fn good_crypto() -> SpdmSoftwareCrypto {
    SpdmSoftwareCrypto {
        psk_hint: vec![0x68, 0x69],
        psk: b"TestPskData".to_vec(),
        tcb_measurements: vec![1, 2, 3],
        all_measurements: vec![1, 2, 3, 4, 5],
    }
}

fn expand(secret: &[u8], version: u8, label: &[u8], context: &[u8]) -> Vec<u8> {
    let mut info = vec![32u8, 0];
    info.extend_from_slice(b"spdm");
    info.push(b'0' + version / 16);
    info.push(b'.');
    info.push(b'0' + version % 16);
    info.push(b' ');
    info.extend_from_slice(label);
    info.extend_from_slice(context);
    info.push(1);
    hmac256(secret, &info)
}

fn responder(version: SpdmVersion, caps: u32, opaque_support: u8) -> ResponderContext {
    ResponderContext::new(
        SpdmNegotiateInfo {
            spdm_version_sel: version,
            rsp_capabilities_sel: caps,
            base_hash_sel: SpdmBaseHashAlgo { bits: 1 },
            dhe_sel: 0x10,
            aead_sel: 0x2,
            key_schedule_sel: 0x1,
            measurement_specification_sel: 1,
            measurement_hash_sel: 2,
            opaque_data_support: opaque_support,
        },
        SpdmConfigInfo { secure_spdm_version: vec![0x10, 0x11], heartbeat_period: 5 },
        SpdmRuntimeInfo {
            connection_state: SpdmConnectionState::SpdmConnectionNegotiated,
            need_measurement_summary_hash: false,
            message_a: vec![0xA1, 0xA2],
            message_m: vec![0xEE],
        },
        SpdmTransportInfo { sequence_number_count: 8, max_random_count: 32 },
    )
}

fn request(version: u8, hash_type: u8, opaque: &[u8]) -> Vec<u8> {
    let mut r = vec![version, 0xE6, hash_type, 0, 0x34, 0x12, 2, 0, 4, 0];
    r.push(opaque.len() as u8);
    r.push((opaque.len() >> 8) as u8);
    r.extend_from_slice(&[0x68, 0x69]);
    r.extend_from_slice(&[1, 2, 3, 4]);
    r.extend_from_slice(opaque);
    r
}

/// The response up to its verify data.
fn response_prefix(version: u8, context: &[u8], mhash: &[u8], opaque: &[u8]) -> Vec<u8> {
    let mut r = vec![version, 0x66, 5, 0, 0xFD, 0xFF, 0, 0];
    r.push(context.len() as u8);
    r.push((context.len() >> 8) as u8);
    r.push(opaque.len() as u8);
    r.push((opaque.len() >> 8) as u8);
    r.extend_from_slice(mhash);
    r.extend_from_slice(context);
    r.extend_from_slice(opaque);
    r
}

fn expected_verify(version: u8, req: &[u8], prefix: &[u8]) -> Vec<u8> {
    let mut th_data = vec![0xA1, 0xA2];
    th_data.extend_from_slice(req);
    th_data.extend_from_slice(prefix);
    let th1 = Sha256::digest(&th_data).to_vec();
    let hs = hmac256(&[0u8; 32], b"TestPskData");
    let rsp_hs = expand(&hs, version, b"rsp hs data", &th1);
    let fk = expand(&rsp_hs, version, b"finished", &[]);
    hmac256(&fk, &th1)
}

fn dsp0277_version_list(versions: &[u8], count: u8) -> Vec<u8> {
    let dlen = 3 + 2 * versions.len();
    let mut o = vec![0x46, 0x54, 0x4D, 0x44, 0x01, 0x01, 0x00, 0x00, 0x00, 0x00];
    o.push(dlen as u8);
    o.push(0);
    o.extend_from_slice(&[1, 1, count]);
    for v in versions {
        o.extend_from_slice(&[0x00, *v]);
    }
    while o.len() % 4 != 0 {
        o.push(0);
    }
    o
}

#[test]
fn psk_exchange_opens_a_handshaking_session() {
    let mut ctx = responder(SpdmVersion::SpdmVersion12, 0, 0x02);
    let mut w = Writer::init(512);
    let req = request(0x12, 0, &[]);
    let (r, rsp) = ctx.handle_spdm_psk_exchange(&good_crypto(), &req, &mut w);
    assert_eq!(r, Ok(()));
    let prefix = response_prefix(0x12, &[0u8; 64], &[], &[]);
    let verify = expected_verify(0x12, &req, &prefix);
    let mut expected = prefix.clone();
    expected.extend_from_slice(&verify);
    assert_eq!(rsp.unwrap(), &expected[..]);

    let s = &ctx.common.session[0];
    assert_eq!(s.session_id, 0xFFFD_1234);
    assert!(s.use_psk);
    assert_eq!(s.session_state, SpdmSessionState::SpdmSessionHandshaking);
    assert_eq!(s.runtime_info.psk_hint, Some(vec![0x68, 0x69]));
    assert_eq!(s.runtime_info.message_a, vec![0xA1, 0xA2]);
    let mut k = req.clone();
    k.extend_from_slice(&expected);
    assert_eq!(s.runtime_info.message_k, k);
    assert_eq!(s.crypto_param.dhe_algo, 0x10);
    assert_eq!(s.transport_param.sequence_number_count, 8);
    assert_eq!(s.heartbeat_period, 5);
    assert!(s.data_secret.is_none());
    let mut th_data = vec![0xA1, 0xA2];
    th_data.extend_from_slice(&req);
    th_data.extend_from_slice(&prefix);
    let th1 = Sha256::digest(&th_data).to_vec();
    let hs = hmac256(&[0u8; 32], b"TestPskData");
    let keys = s.handshake_secret.as_ref().unwrap();
    assert_eq!(keys.handshake_secret, hs);
    let rsp_hs = expand(&hs, 0x12, b"rsp hs data", &th1);
    assert_eq!(keys.response_handshake_secret, rsp_hs);
    assert_eq!(keys.response_finished_key, expand(&rsp_hs, 0x12, b"finished", &[]));
    assert_eq!(hmac256(&keys.response_finished_key, &th1), verify);
    assert!(ctx.common.runtime_info.message_m.is_empty());
    assert!(!ctx.common.runtime_info.need_measurement_summary_hash);
    assert_eq!(ctx.common.session[1].session_id, 0);
}

#[test]
fn psk_exchange_without_context_establishes_the_session() {
    let mut ctx = responder(SpdmVersion::SpdmVersion12, 0x400, 0x02);
    let mut w = Writer::init(512);
    let req = request(0x12, 0, &[]);
    let r = ctx.write_spdm_psk_exchange_response(&good_crypto(), &req, &mut w);
    assert_eq!(r, Ok(()));
    let prefix = response_prefix(0x12, &[], &[], &[]);
    let mut expected = prefix.clone();
    expected.extend_from_slice(&expected_verify(0x12, &req, &prefix));
    assert_eq!(w.used_slice(), &expected[..]);
    let s = &ctx.common.session[0];
    assert_eq!(s.session_state, SpdmSessionState::SpdmSessionEstablished);
    let mut th2_data = vec![0xA1, 0xA2];
    th2_data.extend_from_slice(&req);
    th2_data.extend_from_slice(&expected);
    let th2 = Sha256::digest(&th2_data).to_vec();
    let hs = hmac256(&[0u8; 32], b"TestPskData");
    let salt = expand(&hs, 0x12, b"derived", &[]);
    let master = hmac256(&salt, &[0u8; 32]);
    let ds = s.data_secret.as_ref().unwrap();
    assert_eq!(ds.master_secret, master);
    let mut info = vec![32u8, 0];
    info.extend_from_slice(b"spdm1.2 rsp app data");
    info.extend_from_slice(&th2);
    info.push(1);
    assert_eq!(ds.response_data_secret, hmac256(&master, &info));
}

#[test]
fn empty_or_missing_measurement_summary_hash_is_a_crypto_error() {
    assert!(matches!(accept_measurement_summary_hash(None), Err(SpdmStatus::CryptoError)));
    let empty = SpdmDigestStruct { data_size: 0, data: vec![1, 2] };
    assert!(matches!(accept_measurement_summary_hash(Some(empty)), Err(SpdmStatus::CryptoError)));
    let d = SpdmDigestStruct { data_size: 2, data: vec![7, 8] };
    let ok = accept_measurement_summary_hash(Some(d)).ok().unwrap();
    assert_eq!(ok.data_size, 2);
    assert_eq!(ok.data, vec![7, 8]);
}

#[test]
fn psk_exchange_sends_the_measurement_summary_hash_when_asked() {
    let mut ctx = responder(SpdmVersion::SpdmVersion12, 0, 0x02);
    let mut w = Writer::init(512);
    let req = request(0x12, 1, &[]);
    let r = ctx.write_spdm_psk_exchange_response(&good_crypto(), &req, &mut w);
    assert_eq!(r, Ok(()));
    let mhash = Sha256::digest([1u8, 2, 3]).to_vec();
    let prefix = response_prefix(0x12, &[0u8; 64], &mhash, &[]);
    let mut expected = prefix.clone();
    expected.extend_from_slice(&expected_verify(0x12, &req, &prefix));
    assert_eq!(w.used_slice(), &expected[..]);
    assert!(ctx.common.runtime_info.need_measurement_summary_hash);
}

#[test]
fn psk_exchange_sends_the_summary_of_all_measurements() {
    let mut ctx = responder(SpdmVersion::SpdmVersion12, 0, 0x02);
    let mut w = Writer::init(512);
    let req = request(0x12, 0xFF, &[]);
    let r = ctx.write_spdm_psk_exchange_response(&good_crypto(), &req, &mut w);
    assert_eq!(r, Ok(()));
    let mhash = Sha256::digest([1u8, 2, 3, 4, 5]).to_vec();
    let prefix = response_prefix(0x12, &[0u8; 64], &mhash, &[]);
    assert_eq!(&w.used_slice()[..prefix.len()], &prefix[..]);
}

#[test]
fn psk_exchange_with_an_unsupported_hash_and_measurements_is_an_unspecified_error() {
    let mut ctx = responder(SpdmVersion::SpdmVersion12, 0, 0x02);
    ctx.common.negotiate_info.base_hash_sel = SpdmBaseHashAlgo { bits: 0x8 };
    let mut w = Writer::init(512);
    let req = request(0x12, 1, &[]);
    let r = ctx.write_spdm_psk_exchange_response(&good_crypto(), &req, &mut w);
    assert_eq!(r, Err(SpdmStatus::CryptoError));
    assert_eq!(w.used_slice(), &[0x12, 0x7F, 0x05, 0]);
    assert_eq!(ctx.common.session[0].session_id, 0);
    assert!(ctx.common.runtime_info.need_measurement_summary_hash);
}

#[test]
fn psk_exchange_with_an_unsupported_hash_fails_at_the_transcript() {
    let mut ctx = responder(SpdmVersion::SpdmVersion12, 0, 0x02);
    ctx.common.negotiate_info.base_hash_sel = SpdmBaseHashAlgo { bits: 0x8 };
    let mut w = Writer::init(512);
    let req = request(0x12, 0, &[]);
    let r = ctx.write_spdm_psk_exchange_response(&good_crypto(), &req, &mut w);
    assert_eq!(r, Err(SpdmStatus::CryptoError));
    assert_eq!(w.used_slice(), &[0x12, 0x7F, 0x05, 0]);
    assert_eq!(ctx.common.session[0].session_id, 0xFFFD_1234);
}

#[test]
fn psk_exchange_selects_the_last_common_secured_version() {
    let mut ctx = responder(SpdmVersion::SpdmVersion11, 0, 0x00);
    let mut w = Writer::init(512);
    let opaque = dsp0277_version_list(&[0x10, 0x11], 2);
    let req = request(0x11, 0, &opaque);
    let r = ctx.write_spdm_psk_exchange_response(&good_crypto(), &req, &mut w);
    assert_eq!(r, Ok(()));
    let selection = [
        0x46, 0x54, 0x4D, 0x44, 0x01, 0x01, 0x00, 0x00, 0x00, 0x00, 0x04, 0x00, 0x01, 0x00, 0x00,
        0x11,
    ];
    let prefix = response_prefix(0x11, &[0u8; 64], &[], &selection);
    let mut expected = prefix.clone();
    expected.extend_from_slice(&expected_verify(0x11, &req, &prefix));
    assert_eq!(w.used_slice(), &expected[..]);
    assert_eq!(ctx.common.session[0].secure_spdm_version_sel, 0x11);
}

#[test]
fn psk_exchange_selects_in_format_1_under_version_1_2() {
    let mut ctx = responder(SpdmVersion::SpdmVersion12, 0, 0x02);
    let mut w = Writer::init(512);
    let opaque = vec![1, 0, 0, 0, 0, 0, 5, 0, 1, 1, 1, 0x00, 0x10, 0, 0, 0];
    let req = request(0x12, 0, &opaque);
    let r = ctx.write_spdm_psk_exchange_response(&good_crypto(), &req, &mut w);
    assert_eq!(r, Ok(()));
    let selection = [0x01, 0x00, 0x00, 0x00, 0x00, 0x00, 0x04, 0x00, 0x01, 0x00, 0x00, 0x10];
    let prefix = response_prefix(0x12, &[0u8; 64], &[], &selection);
    assert_eq!(&w.used_slice()[..prefix.len()], &prefix[..]);
    assert_eq!(ctx.common.session[0].secure_spdm_version_sel, 0x10);
}

#[test]
fn psk_exchange_with_a_common_version_but_no_format_1_is_unsupported() {
    let mut ctx = responder(SpdmVersion::SpdmVersion12, 0, 0x01);
    let mut w = Writer::init(512);
    let opaque = dsp0277_version_list(&[0x11], 1);
    let req = request(0x12, 0, &opaque);
    let r = ctx.write_spdm_psk_exchange_response(&good_crypto(), &req, &mut w);
    assert_eq!(r, Err(SpdmStatus::InvalidMsgField));
    assert_eq!(w.used_slice(), &[0x12, 0x7F, 0x07, 0]);
}

#[test]
fn psk_exchange_with_too_many_versions_is_an_invalid_request() {
    let mut ctx = responder(SpdmVersion::SpdmVersion11, 0, 0x00);
    let mut w = Writer::init(512);
    let opaque = dsp0277_version_list(&[0x10, 0x11, 0x12, 0x13], 5);
    let req = request(0x11, 0, &opaque);
    let r = ctx.write_spdm_psk_exchange_response(&good_crypto(), &req, &mut w);
    assert_eq!(r, Err(SpdmStatus::InvalidMsgField));
    assert_eq!(w.used_slice(), &[0x11, 0x7F, 0x01, 0]);
}

#[test]
fn psk_exchange_before_negotiation_is_unexpected() {
    let mut ctx = responder(SpdmVersion::SpdmVersion12, 0, 0x02);
    ctx.common.runtime_info.connection_state = SpdmConnectionState::SpdmConnectionAfterCapabilities;
    let mut w = Writer::init(512);
    let req = request(0x12, 0, &[]);
    let r = ctx.write_spdm_psk_exchange_response(&good_crypto(), &req, &mut w);
    assert_eq!(r, Err(SpdmStatus::InvalidStatePeer));
    assert_eq!(w.used_slice(), &[0x12, 0x7F, 0x04, 0]);
    assert_eq!(ctx.common.runtime_info.message_m, vec![0xEE]);
}

#[test]
fn psk_exchange_under_version_1_0_is_unsupported() {
    let mut ctx = responder(SpdmVersion::SpdmVersion10, 0, 0x02);
    let mut w = Writer::init(512);
    let req = request(0x10, 0, &[]);
    let r = ctx.write_spdm_psk_exchange_response(&good_crypto(), &req, &mut w);
    assert_eq!(r, Err(SpdmStatus::InvalidMsgField));
    assert_eq!(w.used_slice(), &[0x10, 0x7F, 0x07, 0]);
}

#[test]
fn psk_exchange_of_another_version_is_a_version_mismatch() {
    let mut ctx = responder(SpdmVersion::SpdmVersion12, 0, 0x02);
    let mut w = Writer::init(512);
    let req = request(0x11, 0, &[]);
    let r = ctx.write_spdm_psk_exchange_response(&good_crypto(), &req, &mut w);
    assert_eq!(r, Err(SpdmStatus::InvalidMsgField));
    assert_eq!(w.used_slice(), &[0x12, 0x7F, 0x41, 0]);
}

#[test]
fn truncated_psk_exchange_is_an_invalid_request() {
    let mut ctx = responder(SpdmVersion::SpdmVersion12, 0, 0x02);
    let mut w = Writer::init(512);
    let mut req = request(0x12, 0, &[]);
    req.pop();
    let r = ctx.write_spdm_psk_exchange_response(&good_crypto(), &req, &mut w);
    assert_eq!(r, Err(SpdmStatus::InvalidMsgField));
    assert_eq!(w.used_slice(), &[0x12, 0x7F, 0x01, 0]);
    assert!(ctx.common.runtime_info.message_m.is_empty());
}

#[test]
fn psk_exchange_without_a_free_session_is_refused() {
    let mut ctx = responder(SpdmVersion::SpdmVersion12, 0, 0x02);
    for i in 0..4u32 {
        ctx.common.session[i as usize].session_id = ((0xFFFD - i) << 16) | 1;
    }
    let mut w = Writer::init(512);
    let req = request(0x12, 0, &[]);
    let r = ctx.write_spdm_psk_exchange_response(&good_crypto(), &req, &mut w);
    assert_eq!(r, Err(SpdmStatus::InvalidStateLocal));
    assert_eq!(w.used_slice(), &[0x12, 0x7F, 0x0A, 0]);
}

#[test]
fn psk_exchange_uses_the_first_free_slot() {
    let mut ctx = responder(SpdmVersion::SpdmVersion12, 0, 0x02);
    ctx.common.session[0].session_id = (0xFFFD << 16) | 1;
    let mut w = Writer::init(512);
    let req = request(0x12, 0, &[]);
    let r = ctx.write_spdm_psk_exchange_response(&good_crypto(), &req, &mut w);
    assert_eq!(r, Ok(()));
    assert_eq!(ctx.common.session[1].session_id, 0xFFFC_1234);
    assert_eq!(&w.used_slice()[4..6], &[0xFC, 0xFF]);
}

#[test]
fn psk_exchange_response_that_does_not_fit_is_an_unspecified_error() {
    let mut ctx = responder(SpdmVersion::SpdmVersion12, 0, 0x02);
    let mut w = Writer::init(40);
    let req = request(0x12, 0, &[]);
    let r = ctx.write_spdm_psk_exchange_response(&good_crypto(), &req, &mut w);
    assert_eq!(r, Err(SpdmStatus::InvalidStateLocal));
    assert_eq!(w.used_slice(), &[0x12, 0x7F, 0x05, 0]);
    assert_eq!(ctx.common.session[0].session_id, 0xFFFD_1234);
}

#[test]
fn unknown_psk_hint_leaves_the_response_unpatched() {
    let mut ctx = responder(SpdmVersion::SpdmVersion12, 0, 0x02);
    let mut w = Writer::init(512);
    let req = request(0x12, 0, &[]);
    let crypto = SpdmSoftwareCrypto { psk_hint: vec![0x01], ..good_crypto() };
    let r = ctx.write_spdm_psk_exchange_response(&crypto, &req, &mut w);
    assert_eq!(r, Err(SpdmStatus::CryptoError));
    let mut expected = response_prefix(0x12, &[0u8; 64], &[], &[]);
    expected.extend_from_slice(&[0xCC; 32]);
    assert_eq!(w.used_slice(), &expected[..]);
    assert_eq!(ctx.common.session[0].session_id, 0xFFFD_1234);
}

#[test]
fn failed_random_draw_without_context_is_a_crypto_error() {
    let mut ctx = responder(SpdmVersion::SpdmVersion12, 0x400, 0x02);
    let mut w = Writer::init(512);
    let req = request(0x12, 0, &[]);
    let r = ctx.write_spdm_psk_exchange_response_with_random(&good_crypto(), &req, &mut w, None);
    assert_eq!(r, Err(SpdmStatus::CryptoError));
    assert_eq!(w.used_slice(), &[0x12, 0x7F, 0x05, 0]);
    assert_eq!(ctx.common.session[0].session_id, 0);
}

#[test]
fn successful_random_draw_without_context_establishes_the_session() {
    let mut ctx = responder(SpdmVersion::SpdmVersion12, 0x400, 0x02);
    let mut w = Writer::init(512);
    let req = request(0x12, 0, &[]);
    let r = ctx.write_spdm_psk_exchange_response_with_random(
        &good_crypto(),
        &req,
        &mut w,
        Some(vec![0u8; 64]),
    );
    assert_eq!(r, Ok(()));
    assert_eq!(ctx.common.session[0].session_state, SpdmSessionState::SpdmSessionEstablished);
}

#[test]
fn transcript_past_its_bound_is_a_crypto_error() {
    let mut ctx = responder(SpdmVersion::SpdmVersion12, 0, 0x02);
    let mut w = Writer::init(0x2000);
    w.extend_from_slice(&vec![0x55u8; 0x11E0]).unwrap();
    let req = request(0x12, 0, &[]);
    let r = ctx.write_spdm_psk_exchange_response(&good_crypto(), &req, &mut w);
    assert_eq!(r, Err(SpdmStatus::CryptoError));
    assert_eq!(w.used_slice(), &[0x12, 0x7F, 0x05, 0]);
    let s = &ctx.common.session[0];
    assert_eq!(s.session_id, 0xFFFD_1234);
    assert_eq!(s.session_state, SpdmSessionState::SpdmSessionNotStarted);
    assert_eq!(s.runtime_info.message_k, req);
    assert!(s.handshake_secret.is_none());
}
