use vstd::prelude::*;

use crate::protocol::{SpdmBaseHashAlgo, SpdmMeasurementSummaryHashType, SpdmVersion};

verus! {

/// A digest as it travels in a message: `data_size` bytes are significant.
pub struct SpdmDigestStruct {
    pub data_size: u16,
    pub data: Vec<u8>,
}

impl SpdmDigestStruct {
    /// The empty digest.
    pub fn new() -> (r: SpdmDigestStruct)
        ensures
            r.data_size == 0,
            r.data@ == Seq::<u8>::empty(),
    {
        SpdmDigestStruct { data_size: 0, data: Vec::new() }
    }
}

/// Keys of the handshake phase of a session.
pub struct SpdmHandshakeSecret {
    pub handshake_secret: Vec<u8>,
    pub request_handshake_secret: Vec<u8>,
    pub response_handshake_secret: Vec<u8>,
    pub request_finished_key: Vec<u8>,
    pub response_finished_key: Vec<u8>,
}

/// The handshake keys as bytes: the handshake secret, the request and
/// response handshake secrets, the request and response finished keys.
pub type SpecHandshakeKeys = (Seq<u8>, Seq<u8>, Seq<u8>, Seq<u8>, Seq<u8>);

impl SpdmHandshakeSecret {
    /// The keys this value holds.
    pub open spec fn spec_keys(&self) -> SpecHandshakeKeys {
        (
            self.handshake_secret@,
            self.request_handshake_secret@,
            self.response_handshake_secret@,
            self.request_finished_key@,
            self.response_finished_key@,
        )
    }
}

/// Keys of the application phase of a session.
pub struct SpdmDataSecret {
    pub master_secret: Vec<u8>,
    pub request_data_secret: Vec<u8>,
    pub response_data_secret: Vec<u8>,
}

/// The application keys as bytes: the master secret, the request and
/// response data secrets.
pub type SpecDataKeys = (Seq<u8>, Seq<u8>, Seq<u8>);

impl SpdmDataSecret {
    /// The keys this value holds.
    pub open spec fn spec_keys(&self) -> SpecDataKeys {
        (self.master_secret@, self.request_data_secret@, self.response_data_secret@)
    }
}

/// The cryptographic and secret-holding services a responder relies on:
/// hashing, HMAC, randomness, the device's measurements and the pre-shared
/// keys. An integrator supplies an implementation; the library proves its
/// message handling against the contracts below.
pub trait SpdmCryptoProvider {
    /// The hash algorithms this provider implements.
    spec fn spec_hash_supported(&self, algo: SpdmBaseHashAlgo) -> bool;

    /// The digest of `data` under `algo`.
    spec fn spec_hash(&self, algo: SpdmBaseHashAlgo, data: Seq<u8>) -> Seq<u8>;

    /// The HMAC of `data` under `key` with the hash `algo`.
    spec fn spec_hmac(&self, algo: SpdmBaseHashAlgo, key: Seq<u8>, data: Seq<u8>) -> Seq<u8>;

    /// The summary hash of the device's measurements of
    /// `summary_hash_type`, as its digest size and bytes, or `None` where the
    /// device gives none.
    spec fn spec_measurement_summary_hash(
        &self,
        version: SpdmVersion,
        base_hash_algo: SpdmBaseHashAlgo,
        measurement_specification: u8,
        measurement_hash_algo: u32,
        summary_hash_type: SpdmMeasurementSummaryHashType,
    ) -> Option<(u16, Seq<u8>)>;

    /// A pre-shared key is known under the name `psk_hint`.
    spec fn spec_psk_known(&self, psk_hint: Seq<u8>) -> bool;

    /// The handshake keys derived from the pre-shared key named by
    /// `psk_hint` and the transcript hash `th1`.
    spec fn spec_handshake_keys(
        &self,
        version: SpdmVersion,
        algo: SpdmBaseHashAlgo,
        psk_hint: Seq<u8>,
        th1: Seq<u8>,
    ) -> SpecHandshakeKeys;

    /// The application keys derived from the handshake keys `handshake` and
    /// the transcript hash `th2`.
    spec fn spec_data_keys(
        &self,
        version: SpdmVersion,
        algo: SpdmBaseHashAlgo,
        handshake: SpecHandshakeKeys,
        th2: Seq<u8>,
    ) -> SpecDataKeys;

    /// Hashes `data`; fails exactly where `algo` is not supported.
    fn hash_all(&self, algo: SpdmBaseHashAlgo, data: &[u8]) -> (r: Option<Vec<u8>>)
        ensures
            r is Some <==> self.spec_hash_supported(algo),
            r matches Some(h) ==> h@ == self.spec_hash(algo, data@) && h@.len()
                == algo.spec_size(),
    ;

    /// Computes an HMAC; fails exactly where `algo` is not supported.
    fn hmac(&self, algo: SpdmBaseHashAlgo, key: &[u8], data: &[u8]) -> (r: Option<Vec<u8>>)
        ensures
            r is Some <==> self.spec_hash_supported(algo),
            r matches Some(h) ==> h@ == self.spec_hmac(algo, key@, data@) && h@.len()
                == algo.spec_size(),
    ;

    /// `len` random bytes, or failure of the random source.
    fn get_random(&self, len: usize) -> (r: Option<Vec<u8>>)
        ensures
            r matches Some(v) ==> v@.len() == len,
    ;

    /// The summary hash of the device's current measurements.
    fn generate_measurement_summary_hash(
        &self,
        version: SpdmVersion,
        base_hash_algo: SpdmBaseHashAlgo,
        measurement_specification: u8,
        measurement_hash_algo: u32,
        summary_hash_type: SpdmMeasurementSummaryHashType,
    ) -> (r: Option<SpdmDigestStruct>)
        ensures
            match r {
                Some(d) => self.spec_measurement_summary_hash(
                    version,
                    base_hash_algo,
                    measurement_specification,
                    measurement_hash_algo,
                    summary_hash_type,
                ) == Some((d.data_size, d.data@)),
                None => self.spec_measurement_summary_hash(
                    version,
                    base_hash_algo,
                    measurement_specification,
                    measurement_hash_algo,
                    summary_hash_type,
                ) is None,
            },
    ;

    /// Derives the handshake keys of a PSK session from the pre-shared key
    /// named by `psk_hint` and the transcript hash `th1`; fails exactly where
    /// no key is known under that name or `algo` is not supported.
    fn generate_psk_handshake_secret(
        &self,
        version: SpdmVersion,
        algo: SpdmBaseHashAlgo,
        psk_hint: &[u8],
        th1: &[u8],
    ) -> (r: Option<SpdmHandshakeSecret>)
        ensures
            r is Some <==> self.spec_psk_known(psk_hint@) && self.spec_hash_supported(algo),
            r matches Some(s) ==> s.spec_keys() == self.spec_handshake_keys(
                version,
                algo,
                psk_hint@,
                th1@,
            ),
    ;

    /// Derives the application keys of a session from its handshake keys and
    /// the transcript hash `th2`; fails exactly where `algo` is not
    /// supported.
    fn generate_data_secret(
        &self,
        version: SpdmVersion,
        algo: SpdmBaseHashAlgo,
        handshake: &SpdmHandshakeSecret,
        th2: &[u8],
    ) -> (r: Option<SpdmDataSecret>)
        ensures
            r is Some <==> self.spec_hash_supported(algo),
            r matches Some(d) ==> d.spec_keys() == self.spec_data_keys(
                version,
                algo,
                handshake.spec_keys(),
                th2@,
            ),
    ;
}

} // verus!
