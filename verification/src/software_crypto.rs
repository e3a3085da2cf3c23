use vstd::prelude::*;

use crate::codec::{spec_u16_bytes, u16_to_le_bytes};
use crate::context::append_bytes;
use crate::crypto::{
    SpdmCryptoProvider, SpdmDataSecret, SpdmDigestStruct, SpdmHandshakeSecret, SpecDataKeys,
    SpecHandshakeKeys,
};
use crate::protocol::{
    SpdmBaseHashAlgo, SpdmMeasurementSummaryHashType, SpdmVersion,
    SPDM_BASE_HASH_ALGO_TPM_ALG_SHA_256, SPDM_BASE_HASH_ALGO_TPM_ALG_SHA_384,
    SPDM_BASE_HASH_ALGO_TPM_ALG_SHA_512,
};
use crate::vendor::clone_bytes;

verus! {

/// The SHA-256 digest of `data`, as the `sha2` crate computes it.
pub uninterp spec fn spec_sha256(data: Seq<u8>) -> Seq<u8>;

/// The SHA-384 digest of `data`, as the `sha2` crate computes it.
pub uninterp spec fn spec_sha384(data: Seq<u8>) -> Seq<u8>;

/// The SHA-512 digest of `data`, as the `sha2` crate computes it.
pub uninterp spec fn spec_sha512(data: Seq<u8>) -> Seq<u8>;

/// Calls `<sha2::Sha256 as Digest>::digest`. Trusted: the result is the
/// SHA-256 digest named `spec_sha256(data)`, 32 bytes long.
#[verifier::external_body]
fn sha256(data: &[u8]) -> (r: Vec<u8>)
    ensures
        r@ == spec_sha256(data@),
        r@.len() == 32,
{
    <sha2::Sha256 as sha2::Digest>::digest(data).to_vec()
}

/// Calls `<sha2::Sha384 as Digest>::digest`. Trusted: the result is the
/// SHA-384 digest named `spec_sha384(data)`, 48 bytes long.
#[verifier::external_body]
fn sha384(data: &[u8]) -> (r: Vec<u8>)
    ensures
        r@ == spec_sha384(data@),
        r@.len() == 48,
{
    <sha2::Sha384 as sha2::Digest>::digest(data).to_vec()
}

/// Calls `<sha2::Sha512 as Digest>::digest`. Trusted: the result is the
/// SHA-512 digest named `spec_sha512(data)`, 64 bytes long.
#[verifier::external_body]
fn sha512(data: &[u8]) -> (r: Vec<u8>)
    ensures
        r@ == spec_sha512(data@),
        r@.len() == 64,
{
    <sha2::Sha512 as sha2::Digest>::digest(data).to_vec()
}

/// Calls `getrandom::getrandom` on a buffer of `len` bytes. Trusted: on
/// success the buffer of `len` bytes comes back; nothing is claimed of its
/// contents, which come from the operating system's random source.
#[verifier::external_body]
fn random_bytes(len: usize) -> (r: Option<Vec<u8>>)
    ensures
        r matches Some(v) ==> v@.len() == len,
{
    let mut v = vec![0u8; len];
    match getrandom::getrandom(&mut v) {
        Ok(()) => Some(v),
        Err(_) => None,
    }
}

/// The hash algorithms this provider supports: SHA-256, SHA-384, SHA-512.
pub open spec fn spec_supported(algo: SpdmBaseHashAlgo) -> bool {
    algo.bits == SPDM_BASE_HASH_ALGO_TPM_ALG_SHA_256 || algo.bits
        == SPDM_BASE_HASH_ALGO_TPM_ALG_SHA_384 || algo.bits == SPDM_BASE_HASH_ALGO_TPM_ALG_SHA_512
}

/// The digest of `data` under `algo` (empty for an unsupported algorithm).
pub open spec fn spec_digest(algo: SpdmBaseHashAlgo, data: Seq<u8>) -> Seq<u8> {
    if algo.bits == SPDM_BASE_HASH_ALGO_TPM_ALG_SHA_256 {
        spec_sha256(data)
    } else if algo.bits == SPDM_BASE_HASH_ALGO_TPM_ALG_SHA_384 {
        spec_sha384(data)
    } else if algo.bits == SPDM_BASE_HASH_ALGO_TPM_ALG_SHA_512 {
        spec_sha512(data)
    } else {
        Seq::<u8>::empty()
    }
}

/// The block size in bytes of `algo`'s compression function.
pub open spec fn spec_block_size(algo: SpdmBaseHashAlgo) -> nat {
    if algo.bits == SPDM_BASE_HASH_ALGO_TPM_ALG_SHA_256 {
        64
    } else {
        128
    }
}

/// The HMAC key padded to a block: hashed first when longer than a block.
pub open spec fn spec_hmac_block_key(algo: SpdmBaseHashAlgo, key: Seq<u8>) -> Seq<u8> {
    let k = if key.len() > spec_block_size(algo) {
        spec_digest(algo, key)
    } else {
        key
    };
    Seq::new(spec_block_size(algo), |i: int| if i < k.len() { k[i] } else { 0u8 })
}

/// The block key XORed with a pad byte.
pub open spec fn spec_xor_pad(k: Seq<u8>, pad: u8) -> Seq<u8> {
    Seq::new(k.len(), |i: int| k[i] ^ pad)
}

/// HMAC (RFC 2104) of `data` under `key` with the hash `algo`.
pub open spec fn spec_hmac_with(algo: SpdmBaseHashAlgo, key: Seq<u8>, data: Seq<u8>) -> Seq<u8> {
    let k = spec_hmac_block_key(algo, key);
    spec_digest(algo, spec_xor_pad(k, 0x5C) + spec_digest(algo, spec_xor_pad(k, 0x36) + data))
}

/// HKDF-Expand (RFC 5869) of `prk` with `info` to one hash length.
pub open spec fn spec_hkdf_expand(algo: SpdmBaseHashAlgo, prk: Seq<u8>, info: Seq<u8>) -> Seq<u8> {
    spec_hmac_with(algo, prk, info.push(1u8))
}

/// A label of the SPDM key schedule.
#[derive(Clone, Copy, Debug, PartialEq, Eq, Structural)]
pub enum SpdmKeyLabel {
    RequestHandshakeData,
    ResponseHandshakeData,
    Finished,
    Derived,
    RequestApplicationData,
    ResponseApplicationData,
}

/// The ASCII bytes of a key schedule label.
pub open spec fn spec_label(l: SpdmKeyLabel) -> Seq<u8> {
    match l {
        SpdmKeyLabel::RequestHandshakeData => seq![
            0x72u8, 0x65, 0x71, 0x20, 0x68, 0x73, 0x20, 0x64, 0x61, 0x74, 0x61,
        ],
        SpdmKeyLabel::ResponseHandshakeData => seq![
            0x72u8, 0x73, 0x70, 0x20, 0x68, 0x73, 0x20, 0x64, 0x61, 0x74, 0x61,
        ],
        SpdmKeyLabel::Finished => seq![0x66u8, 0x69, 0x6E, 0x69, 0x73, 0x68, 0x65, 0x64],
        SpdmKeyLabel::Derived => seq![0x64u8, 0x65, 0x72, 0x69, 0x76, 0x65, 0x64],
        SpdmKeyLabel::RequestApplicationData => seq![
            0x72u8, 0x65, 0x71, 0x20, 0x61, 0x70, 0x70, 0x20, 0x64, 0x61, 0x74, 0x61,
        ],
        SpdmKeyLabel::ResponseApplicationData => seq![
            0x72u8, 0x73, 0x70, 0x20, 0x61, 0x70, 0x70, 0x20, 0x64, 0x61, 0x74, 0x61,
        ],
    }
}

/// "spdmM.m " for the version `M.m`.
pub open spec fn spec_version_label(version: SpdmVersion) -> Seq<u8> {
    let v = version.spec_u8();
    seq![0x73u8, 0x70, 0x64, 0x6D, (0x30 + v / 16) as u8, 0x2E, (0x30 + v % 16) as u8, 0x20]
}

/// The HKDF info of a key schedule step: output length, version label,
/// label, context.
pub open spec fn spec_bin_str(
    length: u16,
    version: SpdmVersion,
    label: SpdmKeyLabel,
    context: Seq<u8>,
) -> Seq<u8> {
    spec_u16_bytes(length) + spec_version_label(version) + spec_label(label) + context
}

/// The handshake secret: HKDF-Extract of the pre-shared key with a zero salt.
pub open spec fn spec_psk_handshake_secret(algo: SpdmBaseHashAlgo, psk: Seq<u8>) -> Seq<u8> {
    spec_hmac_with(algo, Seq::new(algo.spec_size() as nat, |i: int| 0u8), psk)
}

/// One step of the key schedule: HKDF-Expand of `secret` with the info of
/// `label` and `context`.
pub open spec fn spec_expand_label(
    version: SpdmVersion,
    algo: SpdmBaseHashAlgo,
    secret: Seq<u8>,
    label: SpdmKeyLabel,
    context: Seq<u8>,
) -> Seq<u8> {
    spec_hkdf_expand(algo, secret, spec_bin_str(algo.spec_size(), version, label, context))
}

/// The bytes of a key schedule label.
pub fn label_bytes(l: SpdmKeyLabel) -> (r: Vec<u8>)
    ensures
        r@ == spec_label(l),
{
    let v = match l {
        SpdmKeyLabel::RequestHandshakeData => vec![
            0x72u8, 0x65, 0x71, 0x20, 0x68, 0x73, 0x20, 0x64, 0x61, 0x74, 0x61,
        ],
        SpdmKeyLabel::ResponseHandshakeData => vec![
            0x72u8, 0x73, 0x70, 0x20, 0x68, 0x73, 0x20, 0x64, 0x61, 0x74, 0x61,
        ],
        SpdmKeyLabel::Finished => vec![0x66u8, 0x69, 0x6E, 0x69, 0x73, 0x68, 0x65, 0x64],
        SpdmKeyLabel::Derived => vec![0x64u8, 0x65, 0x72, 0x69, 0x76, 0x65, 0x64],
        SpdmKeyLabel::RequestApplicationData => vec![
            0x72u8, 0x65, 0x71, 0x20, 0x61, 0x70, 0x70, 0x20, 0x64, 0x61, 0x74, 0x61,
        ],
        SpdmKeyLabel::ResponseApplicationData => vec![
            0x72u8, 0x73, 0x70, 0x20, 0x61, 0x70, 0x70, 0x20, 0x64, 0x61, 0x74, 0x61,
        ],
    };
    assert(v@ =~= spec_label(l));
    v
}

/// The HKDF info of a key schedule step.
pub fn bin_str(length: u16, version: SpdmVersion, label: SpdmKeyLabel, context: &[u8]) -> (r: Vec<u8>)
    ensures
        r@ == spec_bin_str(length, version, label, context@),
{
    let v = version.get_u8();
    let mut r = u16_to_le_bytes(length);
    let vl = vec![0x73u8, 0x70, 0x64, 0x6D, 0x30 + v / 16, 0x2E, 0x30 + v % 16, 0x20];
    append_bytes(&mut r, vl.as_slice());
    let lb = label_bytes(label);
    append_bytes(&mut r, lb.as_slice());
    append_bytes(&mut r, context);
    assert(vl@ =~= spec_version_label(version));
    r
}

/// The digest of `data` under `algo`, where it is supported.
pub fn digest(algo: SpdmBaseHashAlgo, data: &[u8]) -> (r: Option<Vec<u8>>)
    ensures
        r is Some <==> spec_supported(algo),
        r matches Some(h) ==> h@ == spec_digest(algo, data@) && h@.len() == algo.spec_size(),
{
    if algo.bits == SPDM_BASE_HASH_ALGO_TPM_ALG_SHA_256 {
        Some(sha256(data))
    } else if algo.bits == SPDM_BASE_HASH_ALGO_TPM_ALG_SHA_384 {
        Some(sha384(data))
    } else if algo.bits == SPDM_BASE_HASH_ALGO_TPM_ALG_SHA_512 {
        Some(sha512(data))
    } else {
        None
    }
}

/// The block key XORed with `pad`.
fn xor_pad(k: &Vec<u8>, pad: u8) -> (r: Vec<u8>)
    ensures
        r@ == spec_xor_pad(k@, pad),
{
    let mut r = Vec::new();
    let mut i: usize = 0;
    while i < k.len()
        invariant
            i <= k@.len(),
            r@ == Seq::new(i as nat, |j: int| k@[j] ^ pad),
        decreases k@.len() - i,
    {
        r.push(k[i] ^ pad);
        i = i + 1;
        assert(r@ =~= Seq::new(i as nat, |j: int| k@[j] ^ pad));
    }
    r
}

/// HMAC of `data` under `key` with the hash `algo`, where it is supported.
pub fn hmac_with(algo: SpdmBaseHashAlgo, key: &[u8], data: &[u8]) -> (r: Option<Vec<u8>>)
    ensures
        r is Some <==> spec_supported(algo),
        r matches Some(h) ==> h@ == spec_hmac_with(algo, key@, data@) && h@.len()
            == algo.spec_size(),
{
    if !(algo.bits == SPDM_BASE_HASH_ALGO_TPM_ALG_SHA_256 || algo.bits
        == SPDM_BASE_HASH_ALGO_TPM_ALG_SHA_384 || algo.bits == SPDM_BASE_HASH_ALGO_TPM_ALG_SHA_512) {
        return None;
    }
    let block: usize = if algo.bits == SPDM_BASE_HASH_ALGO_TPM_ALG_SHA_256 {
        64
    } else {
        128
    };
    let k = if key.len() > block {
        digest(algo, key).unwrap()
    } else {
        clone_bytes_slice(key)
    };
    let mut bk: Vec<u8> = Vec::new();
    let mut i: usize = 0;
    while i < block
        invariant
            i <= block,
            block == spec_block_size(algo),
            bk@ == Seq::new(i as nat, |j: int| if j < k@.len() { k@[j] } else { 0u8 }),
        decreases block - i,
    {
        if i < k.len() {
            bk.push(k[i]);
        } else {
            bk.push(0);
        }
        i = i + 1;
        assert(bk@ =~= Seq::new(i as nat, |j: int| if j < k@.len() { k@[j] } else { 0u8 }));
    }
    assert(bk@ =~= spec_hmac_block_key(algo, key@));
    let mut inner_data = xor_pad(&bk, 0x36);
    append_bytes(&mut inner_data, data);
    let inner = digest(algo, inner_data.as_slice()).unwrap();
    let mut outer_data = xor_pad(&bk, 0x5C);
    append_bytes(&mut outer_data, inner.as_slice());
    digest(algo, outer_data.as_slice())
}

/// A copy of a byte slice.
fn clone_bytes_slice(s: &[u8]) -> (r: Vec<u8>)
    ensures
        r@ == s@,
{
    let mut r = Vec::new();
    append_bytes(&mut r, s);
    assert(r@ =~= s@);
    r
}

/// One step of the key schedule.
pub fn expand_label(
    version: SpdmVersion,
    algo: SpdmBaseHashAlgo,
    secret: &[u8],
    label: SpdmKeyLabel,
    context: &[u8],
) -> (r: Option<Vec<u8>>)
    ensures
        r is Some <==> spec_supported(algo),
        r matches Some(h) ==> h@ == spec_expand_label(version, algo, secret@, label, context@)
            && h@.len() == algo.spec_size(),
{
    let mut info = bin_str(algo.get_size(), version, label, context);
    let ghost i0 = info@;
    info.push(1);
    assert(info@ == i0.push(1u8));
    hmac_with(algo, secret, info.as_slice())
}

/// Byte sequences are equal.
fn bytes_equal(a: &[u8], b: &[u8]) -> (r: bool)
    ensures
        r == (a@ == b@),
{
    if a.len() != b.len() {
        return false;
    }
    let mut i: usize = 0;
    while i < a.len()
        invariant
            i <= a@.len(),
            a@.len() == b@.len(),
            forall|j: int| 0 <= j < i ==> a@[j] == b@[j],
        decreases a@.len() - i,
    {
        if a[i] != b[i] {
            return false;
        }
        i = i + 1;
    }
    assert(a@ =~= b@);
    true
}

/// A software provider of the responder's cryptographic and secret-holding
/// services: SHA-2 hashing, HMAC and the SPDM key schedule over it, the
/// operating system's random source, one pre-shared key with its hint, and
/// the device's measurement blocks (TCB ones, and all).
pub struct SpdmSoftwareCrypto {
    pub psk_hint: Vec<u8>,
    pub psk: Vec<u8>,
    pub tcb_measurements: Vec<u8>,
    pub all_measurements: Vec<u8>,
}

impl SpdmSoftwareCrypto {
    /// The measurement blocks that a summary hash of `summary_hash_type`
    /// covers: the TCB ones or all of them; none for another type.
    pub open spec fn spec_measurement_blocks(
        &self,
        summary_hash_type: SpdmMeasurementSummaryHashType,
    ) -> Option<Seq<u8>> {
        if summary_hash_type == SpdmMeasurementSummaryHashType::SpdmMeasurementSummaryHashTypeTcb {
            Some(self.tcb_measurements@)
        } else if summary_hash_type
            == SpdmMeasurementSummaryHashType::SpdmMeasurementSummaryHashTypeAll {
            Some(self.all_measurements@)
        } else {
            None
        }
    }
}

/// The master secret of the key schedule: HKDF-Extract of a zero key, with
/// the secret derived from the handshake secret as salt.
pub open spec fn spec_master_secret(
    version: SpdmVersion,
    algo: SpdmBaseHashAlgo,
    handshake_secret: Seq<u8>,
) -> Seq<u8> {
    spec_hmac_with(
        algo,
        spec_expand_label(version, algo, handshake_secret, SpdmKeyLabel::Derived, Seq::<u8>::empty()),
        Seq::new(algo.spec_size() as nat, |i: int| 0u8),
    )
}

impl SpdmCryptoProvider for SpdmSoftwareCrypto {
    open spec fn spec_hash_supported(&self, algo: SpdmBaseHashAlgo) -> bool {
        spec_supported(algo)
    }

    open spec fn spec_hash(&self, algo: SpdmBaseHashAlgo, data: Seq<u8>) -> Seq<u8> {
        spec_digest(algo, data)
    }

    open spec fn spec_hmac(&self, algo: SpdmBaseHashAlgo, key: Seq<u8>, data: Seq<u8>) -> Seq<u8> {
        spec_hmac_with(algo, key, data)
    }

    open spec fn spec_measurement_summary_hash(
        &self,
        version: SpdmVersion,
        base_hash_algo: SpdmBaseHashAlgo,
        measurement_specification: u8,
        measurement_hash_algo: u32,
        summary_hash_type: SpdmMeasurementSummaryHashType,
    ) -> Option<(u16, Seq<u8>)> {
        match self.spec_measurement_blocks(summary_hash_type) {
            Some(blocks) => if spec_supported(base_hash_algo) {
                Some((base_hash_algo.spec_size(), spec_digest(base_hash_algo, blocks)))
            } else {
                None
            },
            None => None,
        }
    }

    open spec fn spec_psk_known(&self, psk_hint: Seq<u8>) -> bool {
        psk_hint == self.psk_hint@
    }

    open spec fn spec_handshake_keys(
        &self,
        version: SpdmVersion,
        algo: SpdmBaseHashAlgo,
        psk_hint: Seq<u8>,
        th1: Seq<u8>,
    ) -> SpecHandshakeKeys {
        let hs = spec_psk_handshake_secret(algo, self.psk@);
        let req_hs = spec_expand_label(version, algo, hs, SpdmKeyLabel::RequestHandshakeData, th1);
        let rsp_hs = spec_expand_label(version, algo, hs, SpdmKeyLabel::ResponseHandshakeData, th1);
        (
            hs,
            req_hs,
            rsp_hs,
            spec_expand_label(version, algo, req_hs, SpdmKeyLabel::Finished, Seq::<u8>::empty()),
            spec_expand_label(version, algo, rsp_hs, SpdmKeyLabel::Finished, Seq::<u8>::empty()),
        )
    }

    open spec fn spec_data_keys(
        &self,
        version: SpdmVersion,
        algo: SpdmBaseHashAlgo,
        handshake: SpecHandshakeKeys,
        th2: Seq<u8>,
    ) -> SpecDataKeys {
        let master = spec_master_secret(version, algo, handshake.0);
        (
            master,
            spec_expand_label(version, algo, master, SpdmKeyLabel::RequestApplicationData, th2),
            spec_expand_label(version, algo, master, SpdmKeyLabel::ResponseApplicationData, th2),
        )
    }

    fn hash_all(&self, algo: SpdmBaseHashAlgo, data: &[u8]) -> (r: Option<Vec<u8>>) {
        digest(algo, data)
    }

    fn hmac(&self, algo: SpdmBaseHashAlgo, key: &[u8], data: &[u8]) -> (r: Option<Vec<u8>>) {
        hmac_with(algo, key, data)
    }

    fn get_random(&self, len: usize) -> (r: Option<Vec<u8>>) {
        random_bytes(len)
    }

    fn generate_measurement_summary_hash(
        &self,
        version: SpdmVersion,
        base_hash_algo: SpdmBaseHashAlgo,
        measurement_specification: u8,
        measurement_hash_algo: u32,
        summary_hash_type: SpdmMeasurementSummaryHashType,
    ) -> (r: Option<SpdmDigestStruct>)
        ensures
            r is Some <==> self.spec_measurement_blocks(summary_hash_type) is Some && spec_supported(
                base_hash_algo,
            ),
    {
        let blocks = if summary_hash_type
            == SpdmMeasurementSummaryHashType::SpdmMeasurementSummaryHashTypeTcb {
            self.tcb_measurements.as_slice()
        } else if summary_hash_type
            == SpdmMeasurementSummaryHashType::SpdmMeasurementSummaryHashTypeAll {
            self.all_measurements.as_slice()
        } else {
            return None;
        };
        match digest(base_hash_algo, blocks) {
            None => None,
            Some(h) => Some(SpdmDigestStruct { data_size: base_hash_algo.get_size(), data: h }),
        }
    }

    fn generate_psk_handshake_secret(
        &self,
        version: SpdmVersion,
        algo: SpdmBaseHashAlgo,
        psk_hint: &[u8],
        th1: &[u8],
    ) -> (r: Option<SpdmHandshakeSecret>)
        ensures
            r is Some <==> psk_hint@ == self.psk_hint@ && spec_supported(algo),
    {
        if !bytes_equal(psk_hint, self.psk_hint.as_slice()) {
            return None;
        }
        let salt = vec![0u8; algo.get_size() as usize];
        let hs = hmac_with(algo, salt.as_slice(), self.psk.as_slice());
        if hs.is_none() {
            return None;
        }
        let hs = hs.unwrap();
        assert(salt@ =~= Seq::new(algo.spec_size() as nat, |i: int| 0u8));
        let req_hs = expand_label(
            version,
            algo,
            hs.as_slice(),
            SpdmKeyLabel::RequestHandshakeData,
            th1,
        ).unwrap();
        let rsp_hs = expand_label(
            version,
            algo,
            hs.as_slice(),
            SpdmKeyLabel::ResponseHandshakeData,
            th1,
        ).unwrap();
        let empty: Vec<u8> = Vec::new();
        let req_fk = expand_label(
            version,
            algo,
            req_hs.as_slice(),
            SpdmKeyLabel::Finished,
            empty.as_slice(),
        ).unwrap();
        let rsp_fk = expand_label(
            version,
            algo,
            rsp_hs.as_slice(),
            SpdmKeyLabel::Finished,
            empty.as_slice(),
        ).unwrap();
        Some(
            SpdmHandshakeSecret {
                handshake_secret: hs,
                request_handshake_secret: req_hs,
                response_handshake_secret: rsp_hs,
                request_finished_key: req_fk,
                response_finished_key: rsp_fk,
            },
        )
    }

    fn generate_data_secret(
        &self,
        version: SpdmVersion,
        algo: SpdmBaseHashAlgo,
        handshake: &SpdmHandshakeSecret,
        th2: &[u8],
    ) -> (r: Option<SpdmDataSecret>)
    {
        let empty: Vec<u8> = Vec::new();
        let salt1 = expand_label(
            version,
            algo,
            handshake.handshake_secret.as_slice(),
            SpdmKeyLabel::Derived,
            empty.as_slice(),
        );
        if salt1.is_none() {
            return None;
        }
        let salt1 = salt1.unwrap();
        let zeros = vec![0u8; algo.get_size() as usize];
        assert(zeros@ =~= Seq::new(algo.spec_size() as nat, |i: int| 0u8));
        let master = hmac_with(algo, salt1.as_slice(), zeros.as_slice()).unwrap();
        let req = expand_label(
            version,
            algo,
            master.as_slice(),
            SpdmKeyLabel::RequestApplicationData,
            th2,
        ).unwrap();
        let rsp = expand_label(
            version,
            algo,
            master.as_slice(),
            SpdmKeyLabel::ResponseApplicationData,
            th2,
        ).unwrap();
        Some(
            SpdmDataSecret {
                master_secret: master,
                request_data_secret: req,
                response_data_secret: rsp,
            },
        )
    }
}

} // verus!
