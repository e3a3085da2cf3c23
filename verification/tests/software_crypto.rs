use hmac::{Hmac, Mac};
use sha2::{Digest, Sha256, Sha384, Sha512};
use spdmlib::crypto::SpdmCryptoProvider;
use spdmlib::protocol::{SpdmBaseHashAlgo, SpdmMeasurementSummaryHashType, SpdmVersion};
use spdmlib::software_crypto::{
    bin_str, digest, expand_label, hmac_with, SpdmKeyLabel, SpdmSoftwareCrypto,
};

const SHA256: SpdmBaseHashAlgo = SpdmBaseHashAlgo { bits: 1 };
const SHA384: SpdmBaseHashAlgo = SpdmBaseHashAlgo { bits: 2 };
const SHA512: SpdmBaseHashAlgo = SpdmBaseHashAlgo { bits: 4 };
const SHA3_256: SpdmBaseHashAlgo = SpdmBaseHashAlgo { bits: 8 };

fn provider() -> SpdmSoftwareCrypto {
    SpdmSoftwareCrypto {
        psk_hint: b"hint".to_vec(),
        psk: b"secret".to_vec(),
        tcb_measurements: vec![1],
        all_measurements: vec![1, 2],
    }
}

#[test]
fn digests_match_sha2() {
    assert_eq!(digest(SHA256, b"abc").unwrap(), Sha256::digest(b"abc").to_vec());
    assert_eq!(digest(SHA384, b"abc").unwrap(), Sha384::digest(b"abc").to_vec());
    assert_eq!(digest(SHA512, b"abc").unwrap(), Sha512::digest(b"abc").to_vec());
    assert_eq!(digest(SHA3_256, b"abc"), None);
}

#[test]
fn hmac_matches_the_hmac_crate() {
    let mut m = <Hmac<Sha256> as Mac>::new_from_slice(b"key").unwrap();
    m.update(b"The quick brown fox");
    assert_eq!(hmac_with(SHA256, b"key", b"The quick brown fox").unwrap(), m.finalize().into_bytes().to_vec());

    let long_key = vec![0x0Bu8; 100];
    let mut m = <Hmac<Sha256> as Mac>::new_from_slice(&long_key).unwrap();
    m.update(b"data");
    assert_eq!(hmac_with(SHA256, &long_key, b"data").unwrap(), m.finalize().into_bytes().to_vec());

    let long_key = vec![0x0Cu8; 200];
    let mut m = <Hmac<Sha384> as Mac>::new_from_slice(&long_key).unwrap();
    m.update(b"data");
    assert_eq!(hmac_with(SHA384, &long_key, b"data").unwrap(), m.finalize().into_bytes().to_vec());

    let mut m = <Hmac<Sha512> as Mac>::new_from_slice(b"k").unwrap();
    m.update(b"");
    assert_eq!(hmac_with(SHA512, b"k", b"").unwrap(), m.finalize().into_bytes().to_vec());
    assert_eq!(hmac_with(SHA3_256, b"k", b""), None);
}

#[test]
fn bin_str_layout() {
    assert_eq!(
        bin_str(32, SpdmVersion::SpdmVersion11, SpdmKeyLabel::Finished, &[7]),
        [&[32u8, 0][..], b"spdm1.1 ", b"finished", &[7]].concat()
    );
    assert_eq!(
        bin_str(48, SpdmVersion::SpdmVersion12, SpdmKeyLabel::RequestApplicationData, &[]),
        [&[48u8, 0][..], b"spdm1.2 ", b"req app data"].concat()
    );
}

#[test]
fn expand_label_is_hkdf_expand_of_one_block() {
    let info = [&[32u8, 0][..], b"spdm1.2 ", b"derived", &[1]].concat();
    let mut m = <Hmac<Sha256> as Mac>::new_from_slice(b"prk").unwrap();
    m.update(&info);
    assert_eq!(
        expand_label(SpdmVersion::SpdmVersion12, SHA256, b"prk", SpdmKeyLabel::Derived, &[]).unwrap(),
        m.finalize().into_bytes().to_vec()
    );
}

#[test]
fn measurement_summary_hashes() {
    let p = provider();
    let tcb = p
        .generate_measurement_summary_hash(
            SpdmVersion::SpdmVersion12,
            SHA256,
            1,
            2,
            SpdmMeasurementSummaryHashType::SpdmMeasurementSummaryHashTypeTcb,
        )
        .unwrap();
    assert_eq!(tcb.data, Sha256::digest([1u8]).to_vec());
    assert_eq!(tcb.data_size, 32);
    let all = p
        .generate_measurement_summary_hash(
            SpdmVersion::SpdmVersion12,
            SHA256,
            1,
            2,
            SpdmMeasurementSummaryHashType::SpdmMeasurementSummaryHashTypeAll,
        )
        .unwrap();
    assert_eq!(all.data, Sha256::digest([1u8, 2]).to_vec());
    assert!(p
        .generate_measurement_summary_hash(
            SpdmVersion::SpdmVersion12,
            SHA256,
            1,
            2,
            SpdmMeasurementSummaryHashType::SpdmMeasurementSummaryHashTypeNone,
        )
        .is_none());
}

#[test]
fn key_schedule_follows_hkdf() {
    let p = provider();
    let th = vec![9u8; 32];
    assert!(p.generate_psk_handshake_secret(SpdmVersion::SpdmVersion12, SHA256, b"other", &th).is_none());
    let hs = p.generate_psk_handshake_secret(SpdmVersion::SpdmVersion12, SHA256, b"hint", &th).unwrap();
    let mut m = <Hmac<Sha256> as Mac>::new_from_slice(&[0u8; 32]).unwrap();
    m.update(b"secret");
    let expected_hs = m.finalize().into_bytes().to_vec();
    assert_eq!(hs.handshake_secret, expected_hs);
    let rsp_hs = expand_label(SpdmVersion::SpdmVersion12, SHA256, &expected_hs, SpdmKeyLabel::ResponseHandshakeData, &th).unwrap();
    assert_eq!(hs.response_handshake_secret, rsp_hs);
    let fk = expand_label(SpdmVersion::SpdmVersion12, SHA256, &rsp_hs, SpdmKeyLabel::Finished, &[]).unwrap();
    assert_eq!(hs.response_finished_key, fk);
    assert_ne!(hs.request_finished_key, hs.response_finished_key);

    let ds = p.generate_data_secret(SpdmVersion::SpdmVersion12, SHA256, &hs, &th).unwrap();
    let salt1 = expand_label(SpdmVersion::SpdmVersion12, SHA256, &expected_hs, SpdmKeyLabel::Derived, &[]).unwrap();
    let mut m = <Hmac<Sha256> as Mac>::new_from_slice(&salt1).unwrap();
    m.update(&[0u8; 32]);
    assert_eq!(ds.master_secret, m.finalize().into_bytes().to_vec());
}

#[test]
fn random_bytes_have_the_asked_length() {
    let p = provider();
    assert_eq!(p.get_random(64).unwrap().len(), 64);
}

#[test]
fn provider_fails_only_on_unsupported_algorithms() {
    let p = provider();
    assert_eq!(p.hash_all(SHA384, b"abc").unwrap(), Sha384::digest(b"abc").to_vec());
    assert!(p.hash_all(SHA3_256, b"abc").is_none());
    assert!(p.hmac(SHA3_256, b"k", b"abc").is_none());
    assert!(p
        .generate_measurement_summary_hash(
            SpdmVersion::SpdmVersion12,
            SHA3_256,
            1,
            2,
            SpdmMeasurementSummaryHashType::SpdmMeasurementSummaryHashTypeTcb,
        )
        .is_none());
    let th = vec![9u8; 32];
    assert!(p.generate_psk_handshake_secret(SpdmVersion::SpdmVersion12, SHA3_256, b"hint", &th).is_none());
    let hs = p.generate_psk_handshake_secret(SpdmVersion::SpdmVersion12, SHA384, b"hint", &th).unwrap();
    assert_eq!(hs.response_finished_key.len(), 48);
    assert!(p.generate_data_secret(SpdmVersion::SpdmVersion12, SHA3_256, &hs, &th).is_none());
    let ds = p.generate_data_secret(SpdmVersion::SpdmVersion12, SHA384, &hs, &th).unwrap();
    assert_eq!(ds.request_data_secret.len(), 48);
}
