use vstd::prelude::*;

use crate::crypto::{SpdmCryptoProvider, SpdmDataSecret, SpdmHandshakeSecret};
use crate::protocol::{
    SpdmBaseHashAlgo, SpdmConnectionState, SpdmRequestResponseCode, SpdmResult,
    SpdmSessionState, SpdmStatus, SpdmVersion,
};

verus! {

/// How many sessions a responder holds at once.
pub const MAX_SPDM_SESSION_COUNT: usize = 4;

/// Upper bound of a transcript buffer.
pub const MAX_SPDM_MESSAGE_BUFFER_SIZE: usize = 0x1200;

/// The responder half of the session id given to session slot 0; slot `i`
/// gets this value minus `i`.
pub const INITIAL_SESSION_ID: u16 = 0xFFFD;

/// The session id of an unused session slot.
pub const INVALID_SESSION_ID: u32 = 0;

/// What the VERSION, CAPABILITIES and ALGORITHMS exchanges selected.
pub struct SpdmNegotiateInfo {
    pub spdm_version_sel: SpdmVersion,
    pub rsp_capabilities_sel: u32,
    pub base_hash_sel: SpdmBaseHashAlgo,
    pub dhe_sel: u16,
    pub aead_sel: u16,
    pub key_schedule_sel: u16,
    pub measurement_specification_sel: u8,
    pub measurement_hash_sel: u32,
    pub opaque_data_support: u8,
}

/// Local configuration of the responder.
pub struct SpdmConfigInfo {
    /// Secured-message versions the responder supports, as major/minor bytes.
    pub secure_spdm_version: Vec<u8>,
    pub heartbeat_period: u8,
}

/// Connection-wide state kept between requests.
pub struct SpdmRuntimeInfo {
    pub connection_state: SpdmConnectionState,
    pub need_measurement_summary_hash: bool,
    /// Transcript of VERSION, CAPABILITIES and ALGORITHMS.
    pub message_a: Vec<u8>,
    /// Transcript of measurement requests outside a session.
    pub message_m: Vec<u8>,
}

impl SpdmRuntimeInfo {
    pub fn get_connection_state(&self) -> (r: SpdmConnectionState)
        ensures
            r == self.connection_state,
    {
        self.connection_state
    }
}

/// Parameters of the transport that carries secured messages.
pub struct SpdmTransportInfo {
    pub sequence_number_count: u8,
    pub max_random_count: u16,
}

/// Algorithms a session uses.
pub struct SpdmSessionCryptoParam {
    pub base_hash_algo: SpdmBaseHashAlgo,
    pub dhe_algo: u16,
    pub aead_algo: u16,
    pub key_schedule_algo: u16,
}

/// Transcripts and credentials of a session.
pub struct SpdmSessionRuntimeInfo {
    pub psk_hint: Option<Vec<u8>>,
    pub message_a: Vec<u8>,
    /// Transcript of the key exchange.
    pub message_k: Vec<u8>,
    /// Transcript of measurement requests inside the session.
    pub message_m: Vec<u8>,
    pub rsp_cert_hash: Option<Vec<u8>>,
    pub req_cert_hash: Option<Vec<u8>>,
}

/// A secure session slot.
pub struct SpdmSession {
    pub session_id: u32,
    pub use_psk: bool,
    pub session_state: SpdmSessionState,
    pub crypto_param: SpdmSessionCryptoParam,
    pub transport_param: SpdmTransportInfo,
    pub runtime_info: SpdmSessionRuntimeInfo,
    pub handshake_secret: Option<SpdmHandshakeSecret>,
    pub data_secret: Option<SpdmDataSecret>,
    pub heartbeat_period: u8,
    pub secure_spdm_version_sel: u8,
}

/// A session slot with nothing in it.
pub open spec fn spec_unused_session(s: SpdmSession) -> bool {
    &&& s.session_id == INVALID_SESSION_ID
    &&& !s.use_psk
    &&& s.session_state == SpdmSessionState::SpdmSessionNotStarted
    &&& s.runtime_info.psk_hint is None
    &&& s.runtime_info.message_a@ == Seq::<u8>::empty()
    &&& s.runtime_info.message_k@ == Seq::<u8>::empty()
    &&& s.runtime_info.message_m@ == Seq::<u8>::empty()
    &&& s.handshake_secret is None
    &&& s.data_secret is None
    &&& s.heartbeat_period == 0
    &&& s.secure_spdm_version_sel == 0
}

/// An unused session slot with no algorithms, transport parameters or
/// certificate hashes: what a new or torn-down slot holds.
pub open spec fn spec_empty_session(s: SpdmSession) -> bool {
    &&& spec_unused_session(s)
    &&& s.crypto_param.base_hash_algo.bits == 0
    &&& s.crypto_param.dhe_algo == 0
    &&& s.crypto_param.aead_algo == 0
    &&& s.crypto_param.key_schedule_algo == 0
    &&& s.transport_param.sequence_number_count == 0
    &&& s.transport_param.max_random_count == 0
    &&& s.runtime_info.rsp_cert_hash is None
    &&& s.runtime_info.req_cert_hash is None
}

impl SpdmSession {
    /// An unused session slot, with no algorithms, transport parameters or
    /// certificate hashes.
    pub fn new() -> (r: SpdmSession)
        ensures
            spec_empty_session(r),
    {
        SpdmSession {
            session_id: INVALID_SESSION_ID,
            use_psk: false,
            session_state: SpdmSessionState::SpdmSessionNotStarted,
            crypto_param: SpdmSessionCryptoParam {
                base_hash_algo: SpdmBaseHashAlgo { bits: 0 },
                dhe_algo: 0,
                aead_algo: 0,
                key_schedule_algo: 0,
            },
            transport_param: SpdmTransportInfo { sequence_number_count: 0, max_random_count: 0 },
            runtime_info: SpdmSessionRuntimeInfo {
                psk_hint: None,
                message_a: Vec::new(),
                message_k: Vec::new(),
                message_m: Vec::new(),
                rsp_cert_hash: None,
                req_cert_hash: None,
            },
            handshake_secret: None,
            data_secret: None,
            heartbeat_period: 0,
            secure_spdm_version_sel: 0,
        }
    }

    pub fn get_session_id(&self) -> (r: u32)
        ensures
            r == self.session_id,
    {
        self.session_id
    }

    /// Turns the slot into a fresh session with id `session_id`.
    pub fn setup(&mut self, session_id: u32)
        ensures
            final(self).session_id == session_id,
            spec_unused_session(SpdmSession { session_id: INVALID_SESSION_ID, ..*final(self) }),
    {
        *self = SpdmSession::new();
        self.session_id = session_id;
    }

    /// Ends the session: the slot becomes empty.
    pub fn teardown(&mut self)
        ensures
            spec_empty_session(*final(self)),
    {
        *self = SpdmSession::new();
    }

    pub fn set_use_psk(&mut self, use_psk: bool)
        ensures
            *final(self) == (SpdmSession { use_psk, ..*old(self) }),
    {
        self.use_psk = use_psk;
    }

    pub fn set_crypto_param(
        &mut self,
        base_hash_algo: SpdmBaseHashAlgo,
        dhe_algo: u16,
        aead_algo: u16,
        key_schedule_algo: u16,
    )
        ensures
            *final(self) == (SpdmSession {
                crypto_param: SpdmSessionCryptoParam {
                    base_hash_algo,
                    dhe_algo,
                    aead_algo,
                    key_schedule_algo,
                },
                ..*old(self)
            }),
    {
        self.crypto_param =
            SpdmSessionCryptoParam { base_hash_algo, dhe_algo, aead_algo, key_schedule_algo };
    }

    pub fn set_transport_param(&mut self, sequence_number_count: u8, max_random_count: u16)
        ensures
            *final(self) == (SpdmSession {
                transport_param: SpdmTransportInfo { sequence_number_count, max_random_count },
                ..*old(self)
            }),
    {
        self.transport_param = SpdmTransportInfo { sequence_number_count, max_random_count };
    }

    pub fn set_session_state(&mut self, session_state: SpdmSessionState)
        ensures
            *final(self) == (SpdmSession { session_state, ..*old(self) }),
    {
        self.session_state = session_state;
    }
}

/// The state of the local side of an SPDM connection.
pub struct SpdmContext {
    pub negotiate_info: SpdmNegotiateInfo,
    pub config_info: SpdmConfigInfo,
    pub runtime_info: SpdmRuntimeInfo,
    pub transport_info: SpdmTransportInfo,
    pub session: Vec<SpdmSession>,
}

/// The responder half of a session id.
pub open spec fn spec_rsp_half(session_id: u32) -> u16 {
    (session_id / 65536) as u16
}

/// The responder half of the session id that slot `index` hands out.
pub open spec fn spec_slot_half_id(index: int) -> u16 {
    (INITIAL_SESSION_ID - index) as u16
}

/// The full session id from its two halves.
pub open spec fn spec_session_id(rsp_half: u16, req_half: u16) -> u32 {
    (rsp_half as int * 65536 + req_half as int) as u32
}

/// The requester half of a session id.
pub open spec fn spec_req_half(session_id: u32) -> u16 {
    (session_id % 65536) as u16
}

/// The half of a session id that the requester (`is_requester`) or the
/// responder chose.
pub open spec fn spec_half(session_id: u32, is_requester: bool) -> u16 {
    if is_requester {
        spec_req_half(session_id)
    } else {
        spec_rsp_half(session_id)
    }
}

/// The first slot from `i` on, among those handed out, whose half id of the
/// given side is unused.
pub open spec fn spec_first_free_from(sessions: Seq<SpdmSession>, is_requester: bool, i: int) -> Option<int>
    decreases MAX_SPDM_SESSION_COUNT - i,
{
    if i < 0 || i >= sessions.len() || i >= MAX_SPDM_SESSION_COUNT {
        None
    } else if spec_half(sessions[i].session_id, is_requester) == 0 {
        Some(i)
    } else {
        spec_first_free_from(sessions, is_requester, i + 1)
    }
}

/// The slot found by `spec_first_free_from` is a slot from `i` on whose half
/// id is unused.
pub proof fn lemma_first_free_from(sessions: Seq<SpdmSession>, is_requester: bool, i: int)
    ensures
        spec_first_free_from(sessions, is_requester, i) matches Some(k) ==> i <= k < sessions.len()
            && k < MAX_SPDM_SESSION_COUNT && spec_half(sessions[k].session_id, is_requester) == 0,
    decreases MAX_SPDM_SESSION_COUNT - i,
{
    if 0 <= i < sessions.len() && i < MAX_SPDM_SESSION_COUNT && spec_half(
        sessions[i].session_id,
        is_requester,
    ) != 0 {
        lemma_first_free_from(sessions, is_requester, i + 1);
    }
}

/// The first slot the responder can hand a new half id from.
pub open spec fn spec_first_free_slot(sessions: Seq<SpdmSession>) -> Option<int> {
    spec_first_free_from(sessions, false, 0)
}

/// The first slot from `i` on that holds no session.
pub open spec fn spec_first_unused_from(sessions: Seq<SpdmSession>, i: int) -> Option<int>
    decreases sessions.len() - i,
{
    if i < 0 || i >= sessions.len() {
        None
    } else if sessions[i].session_id == INVALID_SESSION_ID {
        Some(i)
    } else {
        spec_first_unused_from(sessions, i + 1)
    }
}

/// Appends `bytes` to `v`.
pub fn append_bytes(v: &mut Vec<u8>, bytes: &[u8])
    ensures
        final(v)@ == old(v)@ + bytes@,
{
    let ghost start = v@;
    let mut i: usize = 0;
    while i < bytes.len()
        invariant
            i <= bytes@.len(),
            v@ == start + bytes@.subrange(0, i as int),
        decreases bytes@.len() - i,
    {
        v.push(bytes[i]);
        i = i + 1;
        assert(v@ == start + bytes@.subrange(0, i as int));
    }
    assert(bytes@.subrange(0, bytes@.len() as int) == bytes@);
}

/// The effect of `reset_buffer_via_request_code(opcode, session_id)`: every
/// request but GET_MEASUREMENTS ends the measurement transcript, of the
/// session `session_id` when given (and held), else of the connection;
/// nothing else changes.
pub open spec fn spec_reset_buffer(
    old: SpdmContext,
    new: SpdmContext,
    opcode: SpdmRequestResponseCode,
    session_id: Option<u32>,
) -> bool {
    &&& new.negotiate_info == old.negotiate_info
    &&& new.config_info == old.config_info
    &&& new.transport_info == old.transport_info
    &&& new.runtime_info.connection_state == old.runtime_info.connection_state
    &&& new.runtime_info.need_measurement_summary_hash
        == old.runtime_info.need_measurement_summary_hash
    &&& new.runtime_info.message_a == old.runtime_info.message_a
    &&& new.runtime_info.message_m@ == if opcode
            != SpdmRequestResponseCode::SpdmRequestGetMeasurements && session_id is None {
            Seq::<u8>::empty()
        } else {
            old.runtime_info.message_m@
        }
    &&& new.session@.len() == old.session@.len()
    &&& forall|i: int|
        0 <= i < old.session@.len() ==> {
            let o = old.session@[i];
            #[trigger] new.session@[i] == SpdmSession {
                runtime_info: SpdmSessionRuntimeInfo {
                    message_m: if opcode != SpdmRequestResponseCode::SpdmRequestGetMeasurements
                        && session_id == Some(o.session_id) && old.spec_session_index(
                        o.session_id,
                    ) == Some(i) {
                        new.session@[i].runtime_info.message_m
                    } else {
                        o.runtime_info.message_m
                    },
                    ..o.runtime_info
                },
                ..o
            }
        }
    &&& forall|i: int|
        0 <= i < old.session@.len() && opcode != SpdmRequestResponseCode::SpdmRequestGetMeasurements
            && session_id == Some(old.session@[i].session_id) && old.spec_session_index(
            old.session@[i].session_id,
        ) == Some(i) ==> (#[trigger] new.session@[i]).runtime_info.message_m@ == Seq::<u8>::empty()
}

impl SpdmContext {
    /// Session slots are used one per responder half id: the slot at `i`, when
    /// used, holds a session whose responder half is the one slot `i` hands
    /// out, so no two sessions share an id.
    pub open spec fn wf(&self) -> bool {
        &&& self.session@.len() == MAX_SPDM_SESSION_COUNT
        &&& forall|i: int|
            0 <= i < self.session@.len() && #[trigger] self.session@[i].session_id
                != INVALID_SESSION_ID ==> spec_rsp_half(self.session@[i].session_id)
                == spec_slot_half_id(i)
    }

    /// The index of the first session whose id is `session_id`, which must not
    /// be the unused id.
    pub open spec fn spec_session_index(&self, session_id: u32) -> Option<int> {
        if session_id != INVALID_SESSION_ID && exists|i: int|
            0 <= i < self.session@.len() && #[trigger] self.session@[i].session_id == session_id {
            Some(
                choose|i: int|
                    0 <= i < self.session@.len() && #[trigger] self.session@[i].session_id
                        == session_id && forall|j: int|
                        0 <= j < i ==> self.session@[j].session_id != session_id,
            )
        } else {
            None
        }
    }

    /// Finds the first session whose id is `session_id`.
    pub fn find_session(&self, session_id: u32) -> (r: Option<usize>)
        ensures
            r matches Some(i) ==> i < self.session@.len() && self.session@[i as int].session_id
                == session_id && session_id != INVALID_SESSION_ID && forall|j: int|
                0 <= j < i ==> self.session@[j].session_id != session_id,
            r is None ==> session_id == INVALID_SESSION_ID || forall|j: int|
                0 <= j < self.session@.len() ==> self.session@[j].session_id != session_id,
    {
        if session_id == INVALID_SESSION_ID {
            return None;
        }
        let mut i: usize = 0;
        while i < self.session.len()
            invariant
                i <= self.session@.len(),
                session_id != INVALID_SESSION_ID,
                forall|j: int| 0 <= j < i ==> self.session@[j].session_id != session_id,
            decreases self.session@.len() - i,
        {
            if self.session[i].session_id == session_id {
                assert(self.session@[i as int].session_id == session_id);
                return Some(i);
            }
            i = i + 1;
        }
        None
    }

    /// Under `wf`, a used slot is the only one with its session id.
    pub proof fn lemma_index_of_slot(&self, k: int)
        requires
            self.wf(),
            0 <= k < self.session@.len(),
            self.session@[k].session_id != INVALID_SESSION_ID,
        ensures
            self.spec_session_index(self.session@[k].session_id) == Some(k),
    {
        let id = self.session@[k].session_id;
        assert(self.session@[k].session_id == id);
        let i = self.spec_session_index(id).unwrap();
        assert(self.session@[i].session_id == id);
        assert(spec_rsp_half(self.session@[i].session_id) == spec_slot_half_id(i));
        assert(spec_rsp_half(self.session@[k].session_id) == spec_slot_half_id(k));
    }

    /// Under `wf`, the first slot whose responder half id is unused is the
    /// first slot that holds no session.
    pub proof fn lemma_free_slot_is_unused(&self)
        requires
            self.wf(),
        ensures
            spec_first_free_slot(self.session@) == spec_first_unused_from(self.session@, 0),
    {
        let s = self.session@;
        assert forall|i: int| 0 <= i < s.len() implies (spec_rsp_half(#[trigger] s[i].session_id)
            == 0 <==> s[i].session_id == INVALID_SESSION_ID) by {
            if s[i].session_id != INVALID_SESSION_ID {
                assert(spec_rsp_half(s[i].session_id) == spec_slot_half_id(i));
            }
        }
        assert(spec_first_free_from(s, false, 0) == spec_first_unused_from(s, 0)) by {
            reveal_with_fuel(spec_first_free_from, 5);
            reveal_with_fuel(spec_first_unused_from, 5);
        }
    }

    /// The next half session id of the given side: the one the first slot
    /// with that half unused hands out.
    pub fn get_next_half_session_id(&self, is_requester: bool) -> (r: SpdmResult<u16>)
        ensures
            r matches Ok(h) ==> (spec_first_free_from(self.session@, is_requester, 0) matches Some(i)
                && h == spec_slot_half_id(i)),
            r is Err ==> spec_first_free_from(self.session@, is_requester, 0) is None && r == Err::<
                u16,
                SpdmStatus,
            >(SpdmStatus::InvalidStateLocal),
    {
        let mut i: usize = 0;
        while i < self.session.len() && i < MAX_SPDM_SESSION_COUNT
            invariant
                i <= MAX_SPDM_SESSION_COUNT,
                spec_first_free_from(self.session@, is_requester, 0) == spec_first_free_from(
                    self.session@,
                    is_requester,
                    i as int,
                ),
            decreases MAX_SPDM_SESSION_COUNT - i,
        {
            let id = self.session[i].session_id;
            let half = if is_requester {
                id % 65536
            } else {
                id / 65536
            };
            if half == 0 {
                return Ok(INITIAL_SESSION_ID - i as u16);
            }
            i = i + 1;
        }
        Err(SpdmStatus::InvalidStateLocal)
    }

    /// The first slot that holds no session.
    pub fn get_next_avaiable_session(&self) -> (r: Option<usize>)
        ensures
            r matches Some(i) ==> spec_first_unused_from(self.session@, 0) == Some(i as int) && i
                < self.session@.len() && self.session@[i as int].session_id == INVALID_SESSION_ID,
            r is None ==> spec_first_unused_from(self.session@, 0) is None,
    {
        let mut i: usize = 0;
        while i < self.session.len()
            invariant
                i <= self.session@.len(),
                spec_first_unused_from(self.session@, 0) == spec_first_unused_from(
                    self.session@,
                    i as int,
                ),
            decreases self.session@.len() - i,
        {
            if self.session[i].session_id == INVALID_SESSION_ID {
                return Some(i);
            }
            i = i + 1;
        }
        None
    }

    /// Appends `bytes` to the key exchange transcript of the session
    /// `session_id`; fails where no session has that id or the transcript
    /// would grow past its bound.
    pub fn append_message_k(&mut self, session_id: u32, bytes: &[u8]) -> (r: SpdmResult)
        ensures
            r is Ok <==> (old(self).spec_session_index(session_id) matches Some(k)
                && old(self).session@[k].runtime_info.message_k@.len() + bytes@.len()
                <= MAX_SPDM_MESSAGE_BUFFER_SIZE),
            r is Ok ==> (old(self).spec_session_index(session_id) matches Some(k)
                && *final(self) == (SpdmContext {
                session: final(self).session,
                ..*old(self)
            }) && final(self).session@ == old(self).session@.update(
                k,
                SpdmSession {
                    runtime_info: SpdmSessionRuntimeInfo {
                        message_k: final(self).session@[k].runtime_info.message_k,
                        ..old(self).session@[k].runtime_info
                    },
                    ..old(self).session@[k]
                },
            ) && final(self).session@[k].runtime_info.message_k@ == old(
                self,
            ).session@[k].runtime_info.message_k@ + bytes@),
            r is Err ==> *final(self) == *old(self),
    {
        let found = self.find_session(session_id);
        match found {
            None => {
                proof {
                    if self.spec_session_index(session_id) is Some {
                        let k = self.spec_session_index(session_id).unwrap();
                        assert(self.session@[k].session_id == session_id);
                    }
                }
                Err(SpdmStatus::InvalidParameter)
            },
            Some(i) => {
                proof {
                    let si = self.spec_session_index(session_id);
                    assert(self.session@[i as int].session_id == session_id);
                    assert(si == Some(i as int));
                }
                let len = self.session[i].runtime_info.message_k.len();
                if len > MAX_SPDM_MESSAGE_BUFFER_SIZE || bytes.len() > MAX_SPDM_MESSAGE_BUFFER_SIZE
                    - len {
                    return Err(SpdmStatus::InvalidStateLocal);
                }
                append_bytes(&mut self.session[i].runtime_info.message_k, bytes);
                Ok(())
            },
        }
    }

    /// The transcript hash of a PSK session: the digest of its VCA
    /// transcript followed by its key exchange transcript. It fails exactly
    /// where the provider does not implement the negotiated hash algorithm.
    pub fn calc_rsp_transcript_hash<C: SpdmCryptoProvider>(&self, crypto: &C, session: &SpdmSession) -> (r:
        Option<Vec<u8>>)
        ensures
            r is Some <==> crypto.spec_hash_supported(self.negotiate_info.base_hash_sel),
            r matches Some(h) ==> h@ == crypto.spec_hash(
                self.negotiate_info.base_hash_sel,
                session.runtime_info.message_a@ + session.runtime_info.message_k@,
            ) && h@.len() == self.negotiate_info.base_hash_sel.spec_size(),
    {
        let mut data = Vec::new();
        append_bytes(&mut data, session.runtime_info.message_a.as_slice());
        append_bytes(&mut data, session.runtime_info.message_k.as_slice());
        assert(data@ =~= session.runtime_info.message_a@ + session.runtime_info.message_k@);
        crypto.hash_all(self.negotiate_info.base_hash_sel, data.as_slice())
    }

    /// Resets the transcripts that the request `opcode` ends: every request
    /// but GET_MEASUREMENTS ends the measurement transcript, of the session
    /// `session_id` when given (and held), else of the connection.
    pub fn reset_buffer_via_request_code(
        &mut self,
        opcode: SpdmRequestResponseCode,
        session_id: Option<u32>,
    )
        ensures
            spec_reset_buffer(*old(self), *final(self), opcode, session_id),
    {
        if opcode == SpdmRequestResponseCode::SpdmRequestGetMeasurements {
            return;
        }
        match session_id {
            Some(id) => {
                let found = self.find_session(id);
                match found {
                    Some(i) => {
                        proof {
                            let si = self.spec_session_index(id);
                            assert(self.session@[i as int].session_id == id);
                            assert(si == Some(i as int));
                        }
                        self.session[i].runtime_info.message_m = Vec::new();
                    },
                    None => {},
                }
            },
            None => {
                self.runtime_info.message_m = Vec::new();
            },
        }
    }
}

/// The responder side of an SPDM connection.
pub struct ResponderContext {
    pub common: SpdmContext,
}

impl ResponderContext {
    /// A responder with the given negotiated, configured and runtime state
    /// and `MAX_SPDM_SESSION_COUNT` unused session slots.
    pub fn new(
        negotiate_info: SpdmNegotiateInfo,
        config_info: SpdmConfigInfo,
        runtime_info: SpdmRuntimeInfo,
        transport_info: SpdmTransportInfo,
    ) -> (r: ResponderContext)
        ensures
            r.common.wf(),
            r.common.negotiate_info == negotiate_info,
            r.common.config_info == config_info,
            r.common.runtime_info == runtime_info,
            r.common.transport_info == transport_info,
            r.common.session@.len() == MAX_SPDM_SESSION_COUNT,
            forall|i: int|
                0 <= i < MAX_SPDM_SESSION_COUNT ==> spec_unused_session(#[trigger] r.common.session@[i]),
    {
        let mut session = Vec::new();
        let mut i: usize = 0;
        while i < MAX_SPDM_SESSION_COUNT
            invariant
                i <= MAX_SPDM_SESSION_COUNT,
                session@.len() == i,
                forall|j: int| 0 <= j < i ==> spec_unused_session(#[trigger] session@[j]),
            decreases MAX_SPDM_SESSION_COUNT - i,
        {
            session.push(SpdmSession::new());
            i = i + 1;
        }
        ResponderContext {
            common: SpdmContext { negotiate_info, config_info, runtime_info, transport_info, session },
        }
    }
}

} // verus!
