use vstd::prelude::*;

use crate::codec::{copy_range, fields_view, lemma_write_fields_overflow, spec_u16_bytes, Writer};
use crate::context::{
    lemma_first_free_from, spec_first_free_slot, spec_rsp_half, spec_session_id, spec_slot_half_id, spec_unused_session,
    ResponderContext, SpdmContext, SpdmRuntimeInfo, SpdmSession, SpdmSessionRuntimeInfo,
    spec_empty_session, INVALID_SESSION_ID, MAX_SPDM_MESSAGE_BUFFER_SIZE,
};
use crate::crypto::{SpdmCryptoProvider, SpdmDigestStruct, SpdmHandshakeSecret};
use crate::message::{Reader, SpdmMessageHeader};
use crate::psk_exchange::{
    lemma_psk_rsp_split, spec_digest_bytes, spec_parse_psk_body, spec_psk_body_len,
    spec_psk_rsp_fields, SpdmPskContextStruct, SpdmPskExchangeRequestPayload,
    SpdmPskExchangeResponsePayload, SpecPskExchangeRequest, MAX_SPDM_PSK_CONTEXT_SIZE,
};
use crate::vendor::clone_bytes;
use crate::message::spec_read_header;
use crate::opaque::{
    get_supported_secure_spdm_version_list, lemma_last_common_version, spec_last_common_version,
    spec_supported_version_list, spec_version_selection, version_selection, SpdmOpaqueStruct,
    MAX_SECURE_SPDM_VERSION_COUNT,
};
use crate::protocol::{
    SpdmBaseHashAlgo, SpdmConnectionState, SpdmErrorCode, SpdmMeasurementSummaryHashType,
    SpdmRequestResponseCode, SpdmResult, SpdmSessionState, SpdmStatus, SpdmVersion,
    SPDM_OPAQUE_SUPPORT_FMT1, SPDM_RSP_CAP_PSK_CAP_WITHOUT_CONTEXT, SPDM_STATUS_CRYPTO_ERROR,
    SPDM_STATUS_INVALID_MSG_FIELD, SPDM_STATUS_INVALID_STATE_LOCAL, SPDM_STATUS_INVALID_STATE_PEER,
};
use crate::responder::error_rsp::spec_error_written;

verus! {

/// Why a PSK_EXCHANGE request is refused before its body is looked at: the
/// connection has not negotiated algorithms yet, the header is missing or of
/// another version than the negotiated one, or the version is older than 1.1.
pub open spec fn spec_psk_header_refusal(ctx: SpdmContext, request: Seq<u8>) -> Option<
    (SpdmErrorCode, SpdmStatus),
> {
    if ctx.runtime_info.connection_state.spec_u8() < 3 {
        Some((SpdmErrorCode::SpdmErrorUnexpectedRequest, SpdmStatus::InvalidStatePeer))
    } else {
        match spec_read_header(request) {
            None => Some((SpdmErrorCode::SpdmErrorInvalidRequest, SpdmStatus::InvalidMsgField)),
            Some(h) => if h.version != ctx.negotiate_info.spdm_version_sel {
                Some((SpdmErrorCode::SpdmErrorVersionMismatch, SpdmStatus::InvalidMsgField))
            } else if h.version.spec_u8() < 0x11 {
                Some((SpdmErrorCode::SpdmErrorUnsupportedRequest, SpdmStatus::InvalidMsgField))
            } else {
                None
            },
        }
    }
}

/// The requester's opaque data is read in format 1 when version 1.2 or later
/// was negotiated with format 1, else in format 0.
pub open spec fn spec_opaque_fmt1(ctx: SpdmContext) -> bool {
    ctx.negotiate_info.spdm_version_sel.spec_u8() >= 0x12 && ctx.negotiate_info.opaque_data_support
        == SPDM_OPAQUE_SUPPORT_FMT1
}

/// The opaque data of the response to a PSK_EXCHANGE request with opaque
/// data `opaque`: the selection of the last of the requester's
/// secured-message versions that the responder supports (none where there is
/// no such version or no version list), or the error that refuses the
/// request: a list of more than `MAX_SECURE_SPDM_VERSION_COUNT` versions, or a
/// common version under version 1.2 or later without opaque format 1.
pub open spec fn spec_psk_opaque_selection(ctx: SpdmContext, opaque: Seq<u8>) -> Result<
    Seq<u8>,
    SpdmErrorCode,
> {
    match spec_supported_version_list(opaque, spec_opaque_fmt1(ctx)) {
        None => Ok(Seq::<u8>::empty()),
        Some((count, versions)) => if count > MAX_SECURE_SPDM_VERSION_COUNT {
            Err(SpdmErrorCode::SpdmErrorInvalidRequest)
        } else {
            match spec_last_common_version(versions, ctx.config_info.secure_spdm_version@) {
                None => Ok(Seq::<u8>::empty()),
                Some(v) => if ctx.negotiate_info.spdm_version_sel.spec_u8() < 0x12 {
                    Ok(spec_version_selection(false, v))
                } else if ctx.negotiate_info.opaque_data_support == SPDM_OPAQUE_SUPPORT_FMT1 {
                    Ok(spec_version_selection(true, v))
                } else {
                    Err(SpdmErrorCode::SpdmErrorUnsupportedRequest)
                },
            }
        },
    }
}

/// The transcript hash TH1 of a PSK session: the digest of the VCA
/// transcript, the request, and what the writer held up to the response's
/// verify data.
pub open spec fn spec_psk_th1<C: SpdmCryptoProvider>(
    crypto: &C,
    algo: SpdmBaseHashAlgo,
    message_a: Seq<u8>,
    request: Seq<u8>,
    written: Seq<u8>,
) -> Seq<u8> {
    crypto.spec_hash(algo, message_a + (request + written))
}

/// The responder verify data of a PSK_EXCHANGE_RSP: the HMAC of TH1 under the
/// responder finished key that the pre-shared key named by `psk_hint` and
/// TH1 give.
pub open spec fn spec_psk_verify_data<C: SpdmCryptoProvider>(
    crypto: &C,
    version: SpdmVersion,
    algo: SpdmBaseHashAlgo,
    psk_hint: Seq<u8>,
    th1: Seq<u8>,
) -> Seq<u8> {
    crypto.spec_hmac(algo, crypto.spec_handshake_keys(version, algo, psk_hint, th1).4, th1)
}

/// A context in which only the session slot `k` differs from `old`.
pub open spec fn spec_only_slot_changed(old: SpdmContext, new: SpdmContext, k: int) -> bool {
    &&& new == (SpdmContext { session: new.session, ..old })
    &&& new.session@.len() == old.session@.len()
    &&& forall|j: int| 0 <= j < old.session@.len() && j != k ==> #[trigger] new.session@[j] == old.session@[j]
}


/// The body of a PSK_EXCHANGE request whose header is accepted, if it parses.
pub open spec fn spec_psk_request(ctx: SpdmContext, request: Seq<u8>) -> Option<
    SpecPskExchangeRequest,
> {
    if spec_psk_header_refusal(ctx, request) is None {
        spec_parse_psk_body(request.skip(2))
    } else {
        None
    }
}

/// A measurement summary hash is asked for (TCB or all measurements).
pub open spec fn spec_needs_measurement_hash(hash_type: u8) -> bool {
    hash_type == 1 || hash_type == 0xFF
}

/// The measurement summary hash that a provider's answer gives: its bytes,
/// or `None` where the provider gave none or an empty one.
pub open spec fn spec_checked_measurement_hash(answer: Option<(u16, Seq<u8>)>) -> Option<Seq<u8>> {
    match answer {
        Some((size, data)) => if size == 0 {
            None
        } else {
            Some(data)
        },
        None => None,
    }
}

/// The measurement summary hash a PSK_EXCHANGE_RSP carries for a request
/// of summary hash type `t`: none asked for gives the empty one; for TCB
/// or all measurements, what the provider gives for the negotiated version,
/// hash algorithm, measurement specification and measurement hash algorithm,
/// or `None` where that is missing or empty.
pub open spec fn spec_measurement_hash_for<C: SpdmCryptoProvider>(
    crypto: &C,
    ctx: SpdmContext,
    t: SpdmMeasurementSummaryHashType,
) -> Option<Seq<u8>> {
    if t == SpdmMeasurementSummaryHashType::SpdmMeasurementSummaryHashTypeTcb || t
        == SpdmMeasurementSummaryHashType::SpdmMeasurementSummaryHashTypeAll {
        spec_checked_measurement_hash(
            crypto.spec_measurement_summary_hash(
                ctx.negotiate_info.spdm_version_sel,
                ctx.negotiate_info.base_hash_sel,
                ctx.negotiate_info.measurement_specification_sel,
                ctx.negotiate_info.measurement_hash_sel,
                t,
            ),
        )
    } else {
        Some(Seq::<u8>::empty())
    }
}

/// The measurement summary hash for the request body `q`.
pub open spec fn spec_psk_measurement_hash<C: SpdmCryptoProvider>(
    crypto: &C,
    ctx: SpdmContext,
    q: SpecPskExchangeRequest,
) -> Option<Seq<u8>> {
    spec_measurement_hash_for(crypto, ctx, SpdmMeasurementSummaryHashType::spec_from_u8(q.hash_type))
}

/// The transcript hash TH2 of a session: the digest of its VCA transcript
/// and its key exchange transcript.
pub open spec fn spec_psk_th2<C: SpdmCryptoProvider>(
    crypto: &C,
    algo: SpdmBaseHashAlgo,
    message_a: Seq<u8>,
    message_k: Seq<u8>,
) -> Seq<u8> {
    crypto.spec_hash(algo, message_a + message_k)
}

/// Takes the provider's measurement summary hash: `None`, or a digest of
/// size 0, is a crypto error; any other digest is taken as it is.
pub fn accept_measurement_summary_hash(answer: Option<SpdmDigestStruct>) -> (r: Result<
    SpdmDigestStruct,
    SpdmStatus,
>)
    ensures
        match answer {
            None => r == Err::<SpdmDigestStruct, SpdmStatus>(SpdmStatus::CryptoError),
            Some(d) => if d.data_size == 0 {
                r == Err::<SpdmDigestStruct, SpdmStatus>(SpdmStatus::CryptoError)
            } else {
                r == Ok::<SpdmDigestStruct, SpdmStatus>(d)
            },
        },
{
    match answer {
        None => Err(SPDM_STATUS_CRYPTO_ERROR),
        Some(d) => if d.data_size == 0 {
            Err(SPDM_STATUS_CRYPTO_ERROR)
        } else {
            Ok(d)
        },
    }
}

/// The responder announced pre-shared keys without a responder context.
pub open spec fn spec_psk_without_context(ctx: SpdmContext) -> bool {
    (ctx.negotiate_info.rsp_capabilities_sel & SPDM_RSP_CAP_PSK_CAP_WITHOUT_CONTEXT)
        == SPDM_RSP_CAP_PSK_CAP_WITHOUT_CONTEXT
}

/// The responder context a PSK_EXCHANGE_RSP carries: none without context,
/// else `MAX_SPDM_PSK_CONTEXT_SIZE` zero bytes.
pub open spec fn spec_psk_rsp_context(ctx: SpdmContext) -> Seq<u8> {
    if spec_psk_without_context(ctx) {
        Seq::<u8>::empty()
    } else {
        Seq::new(MAX_SPDM_PSK_CONTEXT_SIZE as nat, |i: int| 0u8)
    }
}

/// The PSK_EXCHANGE request is taken: its header is accepted, its body
/// parses, its opaque data gives a selection, and a session slot is free.
/// The body, the opaque data of the response, and the slot.
pub open spec fn spec_psk_accepted(ctx: SpdmContext, request: Seq<u8>) -> Option<
    (SpecPskExchangeRequest, Seq<u8>, int),
> {
    match spec_psk_request(ctx, request) {
        None => None,
        Some(q) => match spec_psk_opaque_selection(ctx, q.opaque) {
            Err(_) => None,
            Ok(op) => match spec_first_free_slot(ctx.session@) {
                None => None,
                Some(i) => Some((q, op, i)),
            },
        },
    }
}

/// What the writer held, followed by the PSK_EXCHANGE_RSP up to its verify
/// data, where `m` is the measurement summary hash.
pub open spec fn spec_psk_written(
    ctx: SpdmContext,
    old_data: Seq<u8>,
    q: SpecPskExchangeRequest,
    op: Seq<u8>,
    i: int,
    m: Seq<u8>,
) -> Seq<u8> {
    old_data + spec_psk_rsp_fields(
        ctx.negotiate_info.spdm_version_sel,
        ctx.config_info.heartbeat_period,
        spec_slot_half_id(i),
        spec_needs_measurement_hash(q.hash_type),
        m,
        ctx.negotiate_info.base_hash_sel.spec_size() as nat,
        spec_psk_rsp_context(ctx),
        op,
        Seq::<u8>::empty(),
    ).drop_last().flatten()
}

/// A PSK_EXCHANGE request `request` was answered in full, in slot `i`, with
/// measurement summary hash `m`: the writer holds what it held followed by
/// the PSK_EXCHANGE_RSP whose verify data is the HMAC of TH1; the session in
/// slot `i` carries the id made of the slot's responder half and the
/// requester's half, the negotiated algorithms, the PSK hint, the VCA
/// transcript, and a key exchange transcript of the request, the response
/// bytes before the verify data and the verify data; its handshake keys are
/// the provider's for the request's PSK hint and TH1 (so the verify data is
/// the HMAC of TH1 under its response finished key); it is handshaking, or
/// established, with the provider's application keys for TH2, when the
/// responder works without context.
pub open spec fn spec_psk_session_opened<C: SpdmCryptoProvider>(
    crypto: &C,
    ctx: SpdmContext,
    new: SpdmContext,
    old_data: Seq<u8>,
    new_data: Seq<u8>,
    request: Seq<u8>,
    q: SpecPskExchangeRequest,
    op: Seq<u8>,
    i: int,
    m: Seq<u8>,
) -> bool {
    let sel = ctx.negotiate_info.spdm_version_sel;
    let algo = ctx.negotiate_info.base_hash_sel;
    let written = spec_psk_written(ctx, old_data, q, op, i, m);
    let req = request.take(2 + spec_psk_body_len(q));
    let th1 = spec_psk_th1(crypto, algo, ctx.runtime_info.message_a@, req, written);
    let verify = spec_psk_verify_data(crypto, sel, algo, q.psk_hint, th1);
    let s = new.session@[i];
    &&& new_data == written + verify
    &&& verify.len() == algo.spec_size()
    &&& s.session_id == spec_session_id(spec_slot_half_id(i), q.req_session_id)
    &&& s.use_psk
    &&& s.crypto_param.base_hash_algo == algo
    &&& s.crypto_param.dhe_algo == ctx.negotiate_info.dhe_sel
    &&& s.crypto_param.aead_algo == ctx.negotiate_info.aead_sel
    &&& s.crypto_param.key_schedule_algo == ctx.negotiate_info.key_schedule_sel
    &&& s.transport_param == ctx.transport_info
    &&& s.runtime_info.psk_hint matches Some(h) && h@ == q.psk_hint
    &&& s.runtime_info.message_a@ == ctx.runtime_info.message_a@
    &&& s.runtime_info.message_k@ == req + written + verify
    &&& s.runtime_info.message_m@ == Seq::<u8>::empty()
    &&& s.runtime_info.rsp_cert_hash is None
    &&& s.runtime_info.req_cert_hash is None
    &&& s.handshake_secret matches Some(h) && h.spec_keys() == crypto.spec_handshake_keys(
        sel,
        algo,
        q.psk_hint,
        th1,
    )
    &&& spec_psk_without_context(ctx) ==> (s.data_secret matches Some(d) && d.spec_keys()
        == crypto.spec_data_keys(
        sel,
        algo,
        crypto.spec_handshake_keys(sel, algo, q.psk_hint, th1),
        spec_psk_th2(crypto, algo, ctx.runtime_info.message_a@, req + written + verify),
    ))
    &&& s.session_state == if spec_psk_without_context(ctx) {
        SpdmSessionState::SpdmSessionEstablished
    } else {
        SpdmSessionState::SpdmSessionHandshaking
    }
    &&& (s.data_secret is Some <==> spec_psk_without_context(ctx))
    &&& s.heartbeat_period == ctx.config_info.heartbeat_period
    &&& s.secure_spdm_version_sel == if op.len() > 0 {
        op.last()
    } else {
        0u8
    }
}

/// After a PSK_EXCHANGE request got past its header checks: the
/// connection's measurement transcript is reset, the flag that a measurement
/// summary hash is sent is set as the request asks, and at most the first
/// free session slot changed.
pub open spec fn spec_psk_frame(ctx: SpdmContext, new: SpdmContext, request: Seq<u8>) -> bool {
    &&& new.negotiate_info == ctx.negotiate_info
    &&& new.config_info == ctx.config_info
    &&& new.transport_info == ctx.transport_info
    &&& new.runtime_info.connection_state == ctx.runtime_info.connection_state
    &&& new.runtime_info.message_a == ctx.runtime_info.message_a
    &&& new.runtime_info.message_m@ == Seq::<u8>::empty()
    &&& (spec_psk_request(ctx, request) matches Some(q)
        ==> new.runtime_info.need_measurement_summary_hash == spec_needs_measurement_hash(
        q.hash_type,
    ))
    &&& spec_psk_request(ctx, request) is None
        ==> new.runtime_info.need_measurement_summary_hash
        == ctx.runtime_info.need_measurement_summary_hash
    &&& new.session@.len() == ctx.session@.len()
    &&& forall|j: int|
        0 <= j < ctx.session@.len() && Some(j) != spec_first_free_slot(ctx.session@)
            ==> #[trigger] new.session@[j] == ctx.session@[j]
}


/// The session slot `s` was opened as the PSK session `session_id` of the
/// context `ctx` with PSK hint `psk_hint`, has not started, holds no keys,
/// and has the key exchange transcript `k`.
pub open spec fn spec_psk_slot_opened(
    ctx: SpdmContext,
    s: SpdmSession,
    session_id: u32,
    psk_hint: Seq<u8>,
    k: Seq<u8>,
) -> bool {
    &&& s.session_id == session_id
    &&& s.use_psk
    &&& s.session_state == SpdmSessionState::SpdmSessionNotStarted
    &&& s.crypto_param.base_hash_algo == ctx.negotiate_info.base_hash_sel
    &&& s.crypto_param.dhe_algo == ctx.negotiate_info.dhe_sel
    &&& s.crypto_param.aead_algo == ctx.negotiate_info.aead_sel
    &&& s.crypto_param.key_schedule_algo == ctx.negotiate_info.key_schedule_sel
    &&& s.transport_param == ctx.transport_info
    &&& s.runtime_info.psk_hint matches Some(h) && h@ == psk_hint
    &&& s.runtime_info.message_a@ == ctx.runtime_info.message_a@
    &&& s.runtime_info.message_k@ == k
    &&& s.runtime_info.message_m@ == Seq::<u8>::empty()
    &&& s.runtime_info.rsp_cert_hash is None
    &&& s.runtime_info.req_cert_hash is None
    &&& s.handshake_secret is None
    &&& s.data_secret is None
    &&& s.heartbeat_period == 0
    &&& s.secure_spdm_version_sel == 0
}

/// The session `s` is `s0` with the key exchange transcript `k`.
pub open spec fn spec_with_transcript(s0: SpdmSession, s: SpdmSession, k: Seq<u8>) -> bool {
    &&& s == (SpdmSession {
        runtime_info: SpdmSessionRuntimeInfo {
            message_k: s.runtime_info.message_k,
            ..s0.runtime_info
        },
        ..s0
    })
    &&& s.runtime_info.message_k@ == k
}

/// The PSK_EXCHANGE_RSP for the taken request `q` (slot `i`, opaque data
/// `op`, measurement summary hash `m`), verify data included, does not fit
/// after `old_data` in a buffer of `cap` bytes.
pub open spec fn spec_psk_rsp_overflows(
    ctx: SpdmContext,
    old_data: Seq<u8>,
    cap: nat,
    q: SpecPskExchangeRequest,
    op: Seq<u8>,
    i: int,
    m: Seq<u8>,
) -> bool {
    spec_psk_written(ctx, old_data, q, op, i, m).len() + ctx.negotiate_info.base_hash_sel.spec_size()
        > cap
}

/// The random source failed where the responder draws from it: it works
/// without a responder context and the draw (`random_ok`) failed.
pub open spec fn spec_psk_random_failed(ctx: SpdmContext, random_ok: bool) -> bool {
    spec_psk_without_context(ctx) && !random_ok
}

/// How a taken PSK_EXCHANGE request `q` (slot `i`, opaque data `op`,
/// measurement summary hash `m`) was answered, checked in this order:
/// - a failed random draw: CryptoError with Unspecified, no session changed;
/// - a response that does not fit the writer: InvalidStateLocal with
///   Unspecified, the slot holding the new session, not started;
/// - a key exchange transcript that would outgrow its bound with the request,
///   or with the response before its verify data: CryptoError with
///   Unspecified, the slot holding the new session with what was recorded;
/// - an unsupported hash: the same, after the response was recorded;
/// - an unknown PSK hint: CryptoError, the response with its verify data
///   placeholder left in the writer, the slot as for an unsupported hash;
/// - a transcript that cannot take the verify data: CryptoError with
///   Unspecified, the slot emptied;
/// - else success: `spec_psk_session_opened`.
pub open spec fn spec_psk_taken_answered<C: SpdmCryptoProvider>(
    crypto: &C,
    ctx: SpdmContext,
    new: SpdmContext,
    old_data: Seq<u8>,
    new_data: Seq<u8>,
    cap: nat,
    request: Seq<u8>,
    random_ok: bool,
    r: SpdmResult,
    q: SpecPskExchangeRequest,
    op: Seq<u8>,
    i: int,
    m: Seq<u8>,
) -> bool {
    let sel = ctx.negotiate_info.spdm_version_sel;
    let algo = ctx.negotiate_info.base_hash_sel;
    let unspecified = spec_error_written(sel, cap, SpdmErrorCode::SpdmErrorUnspecified, 0);
    let crypto_error = Err::<(), SpdmStatus>(SpdmStatus::CryptoError);
    let id = spec_session_id(spec_slot_half_id(i), q.req_session_id);
    let s = new.session@[i];
    let req = request.take(2 + spec_psk_body_len(q));
    let written = spec_psk_written(ctx, old_data, q, op, i, m);
    let limit = MAX_SPDM_MESSAGE_BUFFER_SIZE;
    if spec_psk_random_failed(ctx, random_ok) {
        r == crypto_error && new_data == unspecified && new.session@ == ctx.session@
    } else if spec_psk_rsp_overflows(ctx, old_data, cap, q, op, i, m) {
        &&& r == Err::<(), SpdmStatus>(SpdmStatus::InvalidStateLocal)
        &&& new_data == unspecified
        &&& spec_psk_slot_opened(ctx, s, id, q.psk_hint, Seq::<u8>::empty())
    } else if req.len() > limit {
        r == crypto_error && new_data == unspecified && spec_psk_slot_opened(
            ctx,
            s,
            id,
            q.psk_hint,
            Seq::<u8>::empty(),
        )
    } else if req.len() + written.len() > limit {
        r == crypto_error && new_data == unspecified && spec_psk_slot_opened(
            ctx,
            s,
            id,
            q.psk_hint,
            req,
        )
    } else if !crypto.spec_hash_supported(algo) {
        r == crypto_error && new_data == unspecified && spec_psk_slot_opened(
            ctx,
            s,
            id,
            q.psk_hint,
            req + written,
        )
    } else if !crypto.spec_psk_known(q.psk_hint) {
        &&& r == crypto_error
        &&& new_data == written + Seq::new(algo.spec_size() as nat, |j: int| 0xCCu8)
        &&& spec_psk_slot_opened(ctx, s, id, q.psk_hint, req + written)
    } else if req.len() + written.len() + algo.spec_size() > limit {
        r == crypto_error && new_data == unspecified && spec_empty_session(s)
    } else {
        r is Ok && spec_psk_session_opened(crypto, ctx, new, old_data, new_data, request, q, op, i, m)
    }
}

/// How a PSK_EXCHANGE request `request` was answered with result `r`, the
/// writer going from `old_data` to `new_data` and the context from `ctx` to
/// `new`, where `random_ok` is whether the random draw made for a responder
/// without context succeeded:
/// - refused at the header: the matching error, and nothing else changed;
/// - past the header: `spec_psk_frame` holds;
/// - a malformed body: InvalidRequest;
/// - a measurement summary hash asked for that the provider does not give
///   (or gives empty): CryptoError, answered with Unspecified;
/// - else a refused version list: its error; else a failed random draw:
///   CryptoError with Unspecified; else no free slot: SessionLimitExceeded;
///   in these cases no session changed;
/// - a taken request: as `spec_psk_taken_answered` says.
#[verifier::opaque]
pub open spec fn spec_psk_exchange_answered<C: SpdmCryptoProvider>(
    crypto: &C,
    ctx: SpdmContext,
    new: SpdmContext,
    old_data: Seq<u8>,
    new_data: Seq<u8>,
    cap: nat,
    request: Seq<u8>,
    random_ok: bool,
    r: SpdmResult,
) -> bool {
    let sel = ctx.negotiate_info.spdm_version_sel;
    let unspecified = spec_error_written(sel, cap, SpdmErrorCode::SpdmErrorUnspecified, 0);
    &&& spec_psk_header_refusal(ctx, request) matches Some((code, st)) ==> {
        &&& r == Err::<(), SpdmStatus>(st)
        &&& new_data == spec_error_written(sel, cap, code, 0)
        &&& new == ctx
    }
    &&& spec_psk_header_refusal(ctx, request) is None ==> spec_psk_frame(ctx, new, request)
    &&& (spec_psk_header_refusal(ctx, request) is None && spec_psk_request(ctx, request) is None)
        ==> {
        &&& r == Err::<(), SpdmStatus>(SpdmStatus::InvalidMsgField)
        &&& new_data == spec_error_written(sel, cap, SpdmErrorCode::SpdmErrorInvalidRequest, 0)
        &&& new.session@ == ctx.session@
    }
    &&& spec_psk_request(ctx, request) matches Some(q) ==> {
        &&& spec_psk_measurement_hash(crypto, ctx, q) is None ==> {
            &&& r == Err::<(), SpdmStatus>(SpdmStatus::CryptoError)
            &&& new_data == unspecified
            &&& new.session@ == ctx.session@
        }
        &&& spec_psk_measurement_hash(crypto, ctx, q) is Some ==> {
            &&& spec_psk_opaque_selection(ctx, q.opaque) matches Err(code) ==> {
                &&& r == Err::<(), SpdmStatus>(SpdmStatus::InvalidMsgField)
                &&& new_data == spec_error_written(sel, cap, code, 0)
                &&& new.session@ == ctx.session@
            }
            &&& (spec_psk_opaque_selection(ctx, q.opaque) is Ok && spec_psk_random_failed(
                ctx,
                random_ok,
            )) ==> {
                &&& r == Err::<(), SpdmStatus>(SpdmStatus::CryptoError)
                &&& new_data == unspecified
                &&& new.session@ == ctx.session@
            }
            &&& (spec_psk_opaque_selection(ctx, q.opaque) is Ok && !spec_psk_random_failed(
                ctx,
                random_ok,
            ) && spec_first_free_slot(ctx.session@) is None) ==> {
                &&& r == Err::<(), SpdmStatus>(SpdmStatus::InvalidStateLocal)
                &&& new_data == spec_error_written(
                    sel,
                    cap,
                    SpdmErrorCode::SpdmErrorSessionLimitExceeded,
                    0,
                )
                &&& new.session@ == ctx.session@
            }
        }
    }
    &&& spec_psk_accepted(ctx, request) matches Some((q, op, i)) ==> {
        spec_psk_measurement_hash(crypto, ctx, q) matches Some(m) ==> spec_psk_taken_answered(
            crypto,
            ctx,
            new,
            old_data,
            new_data,
            cap,
            request,
            random_ok,
            r,
            q,
            op,
            i,
            m,
        )
    }
    &&& r is Ok ==> (spec_psk_accepted(ctx, request) matches Some((q, op, i))
        && spec_psk_measurement_hash(crypto, ctx, q) matches Some(m) && spec_psk_session_opened(
        crypto,
        ctx,
        new,
        old_data,
        new_data,
        request,
        q,
        op,
        i,
        m,
    ))
}

/// A request refused at its header is answered as `spec_psk_exchange_answered`
/// says.
proof fn lemma_psk_header_refused<C: SpdmCryptoProvider>(
    crypto: &C,
    ctx: SpdmContext,
    new: SpdmContext,
    old_data: Seq<u8>,
    new_data: Seq<u8>,
    cap: nat,
    request: Seq<u8>,
    random_ok: bool,
    r: SpdmResult,
)
    requires
        spec_psk_header_refusal(ctx, request) matches Some((code, st)) && r == Err::<(), SpdmStatus>(
            st,
        ) && new_data == spec_error_written(ctx.negotiate_info.spdm_version_sel, cap, code, 0),
        new == ctx,
    ensures
        spec_psk_exchange_answered(crypto, ctx, new, old_data, new_data, cap, request, random_ok, r),
{
    reveal(spec_psk_exchange_answered);
}

/// A request with a malformed body is answered as
/// `spec_psk_exchange_answered` says.
proof fn lemma_psk_body_refused<C: SpdmCryptoProvider>(
    crypto: &C,
    ctx: SpdmContext,
    new: SpdmContext,
    old_data: Seq<u8>,
    new_data: Seq<u8>,
    cap: nat,
    request: Seq<u8>,
    random_ok: bool,
    r: SpdmResult,
)
    requires
        spec_psk_header_refusal(ctx, request) is None,
        spec_psk_request(ctx, request) is None,
        r == Err::<(), SpdmStatus>(SpdmStatus::InvalidMsgField),
        new_data == spec_error_written(
            ctx.negotiate_info.spdm_version_sel,
            cap,
            SpdmErrorCode::SpdmErrorInvalidRequest,
            0,
        ),
        spec_psk_frame(ctx, new, request),
        new.session@ == ctx.session@,
    ensures
        spec_psk_exchange_answered(crypto, ctx, new, old_data, new_data, cap, request, random_ok, r),
{
    reveal(spec_psk_exchange_answered);
}

/// A parsed request refused before a session was opened (a missing
/// measurement summary hash, its version list, a failed random draw, or no
/// free slot) is answered as `spec_psk_exchange_answered` says.
proof fn lemma_psk_refused_before_session<C: SpdmCryptoProvider>(
    crypto: &C,
    ctx: SpdmContext,
    new: SpdmContext,
    old_data: Seq<u8>,
    new_data: Seq<u8>,
    cap: nat,
    request: Seq<u8>,
    random_ok: bool,
    r: SpdmResult,
)
    requires
        spec_psk_header_refusal(ctx, request) is None,
        spec_psk_request(ctx, request) matches Some(q) && ({
            let sel = ctx.negotiate_info.spdm_version_sel;
            let unspecified = spec_error_written(sel, cap, SpdmErrorCode::SpdmErrorUnspecified, 0);
            let mh = spec_psk_measurement_hash(crypto, ctx, q);
            ||| mh is None && r == Err::<(), SpdmStatus>(SpdmStatus::CryptoError) && new_data
                == unspecified
            ||| mh is Some && (spec_psk_opaque_selection(ctx, q.opaque) matches Err(code) && r == Err::<
                (),
                SpdmStatus,
            >(SpdmStatus::InvalidMsgField) && new_data == spec_error_written(sel, cap, code, 0))
            ||| mh is Some && spec_psk_opaque_selection(ctx, q.opaque) is Ok
                && spec_psk_random_failed(ctx, random_ok) && r == Err::<(), SpdmStatus>(
                SpdmStatus::CryptoError,
            ) && new_data == unspecified
            ||| mh is Some && spec_psk_opaque_selection(ctx, q.opaque) is Ok
                && !spec_psk_random_failed(ctx, random_ok) && spec_first_free_slot(ctx.session@)
                is None && r == Err::<(), SpdmStatus>(SpdmStatus::InvalidStateLocal) && new_data
                == spec_error_written(sel, cap, SpdmErrorCode::SpdmErrorSessionLimitExceeded, 0)
        }),
        spec_psk_frame(ctx, new, request),
        new.session@ == ctx.session@,
    ensures
        spec_psk_exchange_answered(crypto, ctx, new, old_data, new_data, cap, request, random_ok, r),
{
    reveal(spec_psk_exchange_answered);
}

/// A taken request is answered as `spec_psk_exchange_answered` says once it
/// is answered as `spec_psk_taken_answered` says.
proof fn lemma_psk_taken<C: SpdmCryptoProvider>(
    crypto: &C,
    ctx: SpdmContext,
    new: SpdmContext,
    old_data: Seq<u8>,
    new_data: Seq<u8>,
    cap: nat,
    request: Seq<u8>,
    random_ok: bool,
    r: SpdmResult,
    m: Seq<u8>,
)
    requires
        spec_psk_header_refusal(ctx, request) is None,
        spec_psk_accepted(ctx, request) matches Some((q, op, i)) && spec_psk_measurement_hash(
            crypto,
            ctx,
            q,
        ) == Some(m) && spec_psk_taken_answered(
            crypto,
            ctx,
            new,
            old_data,
            new_data,
            cap,
            request,
            random_ok,
            r,
            q,
            op,
            i,
            m,
        ),
        spec_psk_frame(ctx, new, request),
    ensures
        spec_psk_exchange_answered(crypto, ctx, new, old_data, new_data, cap, request, random_ok, r),
{
    reveal(spec_psk_exchange_answered);
}

/// For a responder that keeps a responder context, the random draw plays no
/// part in how a request is answered.
proof fn lemma_psk_random_unused<C: SpdmCryptoProvider>(
    crypto: &C,
    ctx: SpdmContext,
    new: SpdmContext,
    old_data: Seq<u8>,
    new_data: Seq<u8>,
    cap: nat,
    request: Seq<u8>,
    r: SpdmResult,
)
    requires
        !spec_psk_without_context(ctx),
        spec_psk_exchange_answered(crypto, ctx, new, old_data, new_data, cap, request, false, r),
    ensures
        spec_psk_exchange_answered(crypto, ctx, new, old_data, new_data, cap, request, true, r),
{
    reveal(spec_psk_exchange_answered);
}

/// `n` zero bytes.
fn zero_bytes(n: usize) -> (r: Vec<u8>)
    ensures
        r@ == Seq::new(n as nat, |i: int| 0u8),
{
    let mut r = Vec::new();
    let mut i: usize = 0;
    while i < n
        invariant
            i <= n,
            r@ == Seq::new(i as nat, |k: int| 0u8),
        decreases n - i,
    {
        r.push(0);
        i = i + 1;
        assert(r@ =~= Seq::new(i as nat, |k: int| 0u8));
    }
    r
}

/// The verify data placeholder: `n` bytes of 0xCC.
fn placeholder_bytes(n: usize) -> (r: Vec<u8>)
    ensures
        r@ == Seq::new(n as nat, |i: int| 0xCCu8),
{
    let mut r = Vec::new();
    let mut i: usize = 0;
    while i < n
        invariant
            i <= n,
            r@ == Seq::new(i as nat, |k: int| 0xCCu8),
        decreases n - i,
    {
        r.push(0xCC);
        i = i + 1;
        assert(r@ =~= Seq::new(i as nat, |k: int| 0xCCu8));
    }
    r
}

impl ResponderContext {
    /// Answers a PSK_EXCHANGE request (see
    /// `write_spdm_psk_exchange_response`) and hands back the response.
    pub fn handle_spdm_psk_exchange<'a, C: SpdmCryptoProvider>(
        &mut self,
        crypto: &C,
        bytes: &[u8],
        writer: &'a mut Writer,
    ) -> (r: (SpdmResult, Option<&'a [u8]>))
        requires
            old(self).common.wf(),
        ensures
            final(self).common.wf(),
            final(writer).cap() == old(writer).cap(),
            spec_psk_exchange_answered(
                crypto,
                old(self).common,
                final(self).common,
                old(writer).data(),
                final(writer).data(),
                old(writer).cap(),
                bytes@,
                false,
                r.0,
            ) || spec_psk_exchange_answered(
                crypto,
                old(self).common,
                final(self).common,
                old(writer).data(),
                final(writer).data(),
                old(writer).cap(),
                bytes@,
                true,
                r.0,
            ),
            !spec_psk_without_context(old(self).common) ==> spec_psk_exchange_answered(
                crypto,
                old(self).common,
                final(self).common,
                old(writer).data(),
                final(writer).data(),
                old(writer).cap(),
                bytes@,
                true,
                r.0,
            ),
            r.1 matches Some(s) && s@ == final(writer).data(),
    {
        let r = self.write_spdm_psk_exchange_response(crypto, bytes, writer);
        (r, Some(writer.used_slice()))
    }

    /// Answers a PSK_EXCHANGE request. A responder that works without a
    /// responder context first draws the random bytes the exchange asks of
    /// it; whatever the draw gave, the request is then answered as
    /// `write_spdm_psk_exchange_response_with_random` answers it with that
    /// outcome.
    pub fn write_spdm_psk_exchange_response<C: SpdmCryptoProvider>(
        &mut self,
        crypto: &C,
        bytes: &[u8],
        writer: &mut Writer,
    ) -> (r: SpdmResult)
        requires
            old(self).common.wf(),
        ensures
            final(self).common.wf(),
            final(writer).cap() == old(writer).cap(),
            spec_psk_exchange_answered(
                crypto,
                old(self).common,
                final(self).common,
                old(writer).data(),
                final(writer).data(),
                old(writer).cap(),
                bytes@,
                false,
                r,
            ) || spec_psk_exchange_answered(
                crypto,
                old(self).common,
                final(self).common,
                old(writer).data(),
                final(writer).data(),
                old(writer).cap(),
                bytes@,
                true,
                r,
            ),
            !spec_psk_without_context(old(self).common) ==> spec_psk_exchange_answered(
                crypto,
                old(self).common,
                final(self).common,
                old(writer).data(),
                final(writer).data(),
                old(writer).cap(),
                bytes@,
                true,
                r,
            ),
    {
        let ghost ctx0 = self.common;
        let ghost w0 = writer.data();
        let psk_without_context = (self.common.negotiate_info.rsp_capabilities_sel
            & SPDM_RSP_CAP_PSK_CAP_WITHOUT_CONTEXT) == SPDM_RSP_CAP_PSK_CAP_WITHOUT_CONTEXT;
        let random = if psk_without_context {
            crypto.get_random(MAX_SPDM_PSK_CONTEXT_SIZE)
        } else {
            None
        };
        let ghost random_ok = random is Some;
        let r = self.write_spdm_psk_exchange_response_with_random(crypto, bytes, writer, random);
        proof {
            if !psk_without_context {
                lemma_psk_random_unused(crypto, ctx0, self.common, w0, writer.data(), writer.cap(),
                    bytes@, r);
            }
        }
        r
    }

    /// Answers a PSK_EXCHANGE request, `random` being the outcome of the
    /// random draw of a responder without a responder context: refuses it
    /// before algorithms were negotiated, for a bad header or a version
    /// before 1.1, for a malformed body, a missing measurement summary hash,
    /// a refused version list, a failed draw, or when no session slot is
    /// free; else opens a PSK session in the first free slot and sends
    /// PSK_EXCHANGE_RSP, whose verify data is the HMAC of TH1 under the
    /// session's response finished key, where the response, the transcript
    /// bound, the hash algorithm and the PSK hint allow it (see
    /// `spec_psk_exchange_answered` and `spec_psk_taken_answered`).
    #[verifier::spinoff_prover]
    #[verifier::rlimit(100)]
    pub fn write_spdm_psk_exchange_response_with_random<C: SpdmCryptoProvider>(
        &mut self,
        crypto: &C,
        bytes: &[u8],
        writer: &mut Writer,
        random: Option<Vec<u8>>,
    ) -> (r: SpdmResult)
        requires
            old(self).common.wf(),
        ensures
            final(self).common.wf(),
            final(writer).cap() == old(writer).cap(),
            spec_psk_exchange_answered(
                crypto,
                old(self).common,
                final(self).common,
                old(writer).data(),
                final(writer).data(),
                old(writer).cap(),
                bytes@,
                random is Some,
                r,
            ),
    {
        let ghost ctx0 = self.common;
        let ghost w0 = writer.data();
        let ghost cap = writer.cap();
        let ghost random_ok = random is Some;
        let _ = writer.used();
        if self.common.runtime_info.get_connection_state().get_u8()
            < SpdmConnectionState::SpdmConnectionNegotiated.get_u8() {
            self.write_spdm_error(SpdmErrorCode::SpdmErrorUnexpectedRequest, 0, writer);
            proof {
                lemma_psk_header_refused(crypto, ctx0, self.common, w0, writer.data(), cap, bytes@,
                    random_ok, Err(SPDM_STATUS_INVALID_STATE_PEER));
            }
            return Err(SPDM_STATUS_INVALID_STATE_PEER);
        }
        let mut reader = Reader::init(bytes);
        let message_header = SpdmMessageHeader::read(&mut reader);
        if let Some(message_header) = message_header {
            if message_header.version != self.common.negotiate_info.spdm_version_sel {
                self.write_spdm_error(SpdmErrorCode::SpdmErrorVersionMismatch, 0, writer);
                proof {
                    lemma_psk_header_refused(crypto, ctx0, self.common, w0, writer.data(), cap,
                        bytes@, random_ok, Err(SPDM_STATUS_INVALID_MSG_FIELD));
                }
                return Err(SPDM_STATUS_INVALID_MSG_FIELD);
            }
            if message_header.version.get_u8() < SpdmVersion::SpdmVersion11.get_u8() {
                self.write_spdm_error(SpdmErrorCode::SpdmErrorUnsupportedRequest, 0, writer);
                proof {
                    lemma_psk_header_refused(crypto, ctx0, self.common, w0, writer.data(), cap,
                        bytes@, random_ok, Err(SPDM_STATUS_INVALID_MSG_FIELD));
                }
                return Err(SPDM_STATUS_INVALID_MSG_FIELD);
            }
        } else {
            self.write_spdm_error(SpdmErrorCode::SpdmErrorInvalidRequest, 0, writer);
            proof {
                lemma_psk_header_refused(crypto, ctx0, self.common, w0, writer.data(), cap, bytes@,
                    random_ok, Err(SPDM_STATUS_INVALID_MSG_FIELD));
            }
            return Err(SPDM_STATUS_INVALID_MSG_FIELD);
        }
        assert(spec_psk_header_refusal(ctx0, bytes@) is None);
        assert(reader.rest() == bytes@.skip(2));

        self.common.reset_buffer_via_request_code(
            SpdmRequestResponseCode::SpdmRequestPskExchange,
            None,
        );
        assert(self.common.session@ =~= ctx0.session@);

        let psk_exchange_req = SpdmPskExchangeRequestPayload::spdm_read(&mut reader);
        if psk_exchange_req.is_none() {
            self.write_spdm_error(SpdmErrorCode::SpdmErrorInvalidRequest, 0, writer);
            proof {
                lemma_psk_body_refused(crypto, ctx0, self.common, w0, writer.data(), cap, bytes@,
                    random_ok, Err(SPDM_STATUS_INVALID_MSG_FIELD));
            }
            return Err(SPDM_STATUS_INVALID_MSG_FIELD);
        }
        let psk_exchange_req = psk_exchange_req.unwrap();
        let ghost q = spec_parse_psk_body(bytes@.skip(2)).unwrap();
        assert(spec_psk_request(ctx0, bytes@) == Some(q));

        assert(psk_exchange_req.measurement_summary_hash_type
            == SpdmMeasurementSummaryHashType::spec_from_u8(q.hash_type));
        assert(self.common.negotiate_info == ctx0.negotiate_info);
        let measurement_summary_hash = self.psk_measurement_summary_hash(
            crypto,
            psk_exchange_req.measurement_summary_hash_type,
            writer,
        );
        if measurement_summary_hash.is_err() {
            proof {
                lemma_psk_refused_before_session(crypto, ctx0, self.common, w0, writer.data(), cap,
                    bytes@, random_ok, Err(SPDM_STATUS_CRYPTO_ERROR));
            }
            return Err(SPDM_STATUS_CRYPTO_ERROR);
        }
        let measurement_summary_hash = measurement_summary_hash.unwrap();
        let ghost m = measurement_summary_hash.data@;
        assert(spec_psk_measurement_hash(crypto, ctx0, q) == Some(m));
        let ghost ctx1 = self.common;

        let psk_hint = clone_bytes(&psk_exchange_req.psk_hint.data);

        let return_opaque = self.psk_select_opaque(psk_exchange_req.opaque.data.as_slice(), writer);
        if return_opaque.is_err() {
            proof {
                lemma_psk_refused_before_session(crypto, ctx0, self.common, w0, writer.data(), cap,
                    bytes@, random_ok, Err(SPDM_STATUS_INVALID_MSG_FIELD));
            }
            return Err(SPDM_STATUS_INVALID_MSG_FIELD);
        }
        let return_opaque = return_opaque.unwrap();
        let ghost op = return_opaque.data@;
        let secure_version = if return_opaque.data.len() != 0 {
            Some(return_opaque.data[return_opaque.data.len() - 1])
        } else {
            None
        };

        let psk_without_context = (self.common.negotiate_info.rsp_capabilities_sel
            & SPDM_RSP_CAP_PSK_CAP_WITHOUT_CONTEXT) == SPDM_RSP_CAP_PSK_CAP_WITHOUT_CONTEXT;
        if psk_without_context {
            if random.is_none() {
                self.write_spdm_error(SpdmErrorCode::SpdmErrorUnspecified, 0, writer);
                proof {
                    lemma_psk_refused_before_session(crypto, ctx0, self.common, w0, writer.data(),
                        cap, bytes@, random_ok, Err(SPDM_STATUS_CRYPTO_ERROR));
                }
                return Err(SPDM_STATUS_CRYPTO_ERROR);
            }
        }
        let psk_context = if psk_without_context {
            Vec::new()
        } else {
            zero_bytes(MAX_SPDM_PSK_CONTEXT_SIZE)
        };

        let rsp_session_id = self.common.get_next_half_session_id(false);
        if rsp_session_id.is_err() {
            self.write_spdm_error(SpdmErrorCode::SpdmErrorSessionLimitExceeded, 0, writer);
            proof {
                lemma_psk_refused_before_session(crypto, ctx0, self.common, w0, writer.data(), cap,
                    bytes@, random_ok, Err(SPDM_STATUS_INVALID_STATE_LOCAL));
            }
            return Err(SPDM_STATUS_INVALID_STATE_LOCAL);
        }
        let rsp_session_id = rsp_session_id.unwrap();

        proof {
            self.common.lemma_free_slot_is_unused();
        }
        let session = self.common.get_next_avaiable_session();
        if session.is_none() {
            proof {
                assert(false);
            }
            self.write_spdm_error(SpdmErrorCode::SpdmErrorSessionLimitExceeded, 0, writer);
            return Err(SPDM_STATUS_INVALID_STATE_LOCAL);
        }
        let i = session.unwrap();
        let ghost gi = i as int;
        assert(spec_psk_accepted(ctx0, bytes@) == Some((q, op, gi)));
        let session_id = rsp_session_id as u32 * 65536 + psk_exchange_req.req_session_id as u32;
        self.psk_open_session(i, session_id, &psk_hint);
        let ghost ctx2 = self.common;

        let hash_size = self.common.negotiate_info.base_hash_sel.get_size();
        let spdm_version_sel = self.common.negotiate_info.spdm_version_sel;
        let response = SpdmPskExchangeResponsePayload {
            heartbeat_period: self.common.config_info.heartbeat_period,
            rsp_session_id,
            measurement_summary_hash,
            psk_context: SpdmPskContextStruct { data: psk_context },
            opaque: return_opaque,
            verify_data: SpdmDigestStruct { data_size: hash_size, data: placeholder_bytes(64) },
        };
        let fields = response.message_fields(
            spdm_version_sel,
            hash_size,
            self.common.runtime_info.need_measurement_summary_hash,
        );
        let res = writer.write_fields(&fields);
        proof {
            lemma_write_fields_overflow(w0, cap, fields_view(fields@));
            self.lemma_psk_response_written(ctx0, w0, w0 + fields_view(fields@).flatten(), q, op, gi,
                m, fields_view(fields@));
            assert(!res <==> spec_psk_rsp_overflows(ctx0, w0, cap, q, op, gi, m));
        }
        if !res {
            self.write_spdm_error(SpdmErrorCode::SpdmErrorUnspecified, 0, writer);
            proof {
                lemma_psk_taken(crypto, ctx0, self.common, w0, writer.data(), cap, bytes@,
                    random_ok, Err(SPDM_STATUS_INVALID_STATE_LOCAL), m);
            }
            return Err(SPDM_STATUS_INVALID_STATE_LOCAL);
        }
        let used = writer.used();
        let ghost w1 = writer.data();
        proof {
            self.lemma_psk_response_written(ctx0, w0, w1, q, op, gi, m, fields_view(fields@));
        }
        let r = self.psk_exchange_finish(
            crypto,
            session_id,
            i,
            reader.used_slice(),
            writer,
            used,
            hash_size,
            psk_without_context,
            secure_version,
            psk_hint.as_slice(),
        );
        proof {
            lemma_psk_taken(crypto, ctx0, self.common, w0, writer.data(), cap, bytes@, random_ok, r, m);
        }
        r
    }

    /// Sets whether the response carries a measurement summary hash, and
    /// obtains it from the provider where the request asks for one.
    fn psk_measurement_summary_hash<C: SpdmCryptoProvider>(
        &mut self,
        crypto: &C,
        hash_type: SpdmMeasurementSummaryHashType,
        writer: &mut Writer,
    ) -> (r: Result<SpdmDigestStruct, SpdmStatus>)
        ensures
            final(self).common == (SpdmContext {
                runtime_info: SpdmRuntimeInfo {
                    need_measurement_summary_hash: hash_type
                        == SpdmMeasurementSummaryHashType::SpdmMeasurementSummaryHashTypeTcb
                        || hash_type == SpdmMeasurementSummaryHashType::SpdmMeasurementSummaryHashTypeAll,
                    ..old(self).common.runtime_info
                },
                ..old(self).common
            }),
            final(writer).cap() == old(writer).cap(),
            match spec_measurement_hash_for(crypto, old(self).common, hash_type) {
                Some(m) => r matches Ok(d) && d.data@ == m && final(writer).data() == old(
                    writer,
                ).data(),
                None => r == Err::<SpdmDigestStruct, SpdmStatus>(SpdmStatus::CryptoError)
                    && final(writer).data() == spec_error_written(
                    old(self).common.negotiate_info.spdm_version_sel,
                    old(writer).cap(),
                    SpdmErrorCode::SpdmErrorUnspecified,
                    0,
                ),
            },
    {
        if hash_type == SpdmMeasurementSummaryHashType::SpdmMeasurementSummaryHashTypeTcb
            || hash_type == SpdmMeasurementSummaryHashType::SpdmMeasurementSummaryHashTypeAll {
            self.common.runtime_info.need_measurement_summary_hash = true;
            let measurement_summary_hash_res = crypto.generate_measurement_summary_hash(
                self.common.negotiate_info.spdm_version_sel,
                self.common.negotiate_info.base_hash_sel,
                self.common.negotiate_info.measurement_specification_sel,
                self.common.negotiate_info.measurement_hash_sel,
                hash_type,
            );
            let checked = accept_measurement_summary_hash(measurement_summary_hash_res);
            if checked.is_err() {
                self.write_spdm_error(SpdmErrorCode::SpdmErrorUnspecified, 0, writer);
                return Err(SPDM_STATUS_CRYPTO_ERROR);
            }
            checked
        } else {
            self.common.runtime_info.need_measurement_summary_hash = false;
            Ok(SpdmDigestStruct::new())
        }
    }

    /// Turns the free slot `i` into a PSK session with id `session_id` that
    /// uses the negotiated algorithms, the transport's parameters, the PSK
    /// hint `psk_hint`, and a copy of the VCA transcript.
    fn psk_open_session(&mut self, i: usize, session_id: u32, psk_hint: &Vec<u8>)
        requires
            old(self).common.wf(),
            i < old(self).common.session@.len(),
            old(self).common.session@[i as int].session_id == INVALID_SESSION_ID,
            session_id != INVALID_SESSION_ID,
            spec_rsp_half(session_id) == spec_slot_half_id(i as int),
        ensures
            final(self).common.wf(),
            spec_only_slot_changed(old(self).common, final(self).common, i as int),
            spec_psk_slot_opened(
                old(self).common,
                final(self).common.session@[i as int],
                session_id,
                psk_hint@,
                Seq::<u8>::empty(),
            ),
    {
        let hash_algo = self.common.negotiate_info.base_hash_sel;
        let dhe_algo = self.common.negotiate_info.dhe_sel;
        let aead_algo = self.common.negotiate_info.aead_sel;
        let key_schedule_algo = self.common.negotiate_info.key_schedule_sel;
        let sequence_number_count = self.common.transport_info.sequence_number_count;
        let max_random_count = self.common.transport_info.max_random_count;
        let message_a = clone_bytes(&self.common.runtime_info.message_a);
        let hint = clone_bytes(psk_hint);
        self.common.session[i].setup(session_id);
        self.common.session[i].set_use_psk(true);
        self.common.session[i].set_crypto_param(hash_algo, dhe_algo, aead_algo, key_schedule_algo);
        self.common.session[i].set_transport_param(sequence_number_count, max_random_count);
        self.common.session[i].runtime_info.psk_hint = Some(hint);
        self.common.session[i].runtime_info.message_a = message_a;
        self.common.session[i].runtime_info.rsp_cert_hash = None;
        self.common.session[i].runtime_info.req_cert_hash = None;
        assert(self.common.wf());
    }

    /// The writer after a PSK_EXCHANGE_RSP with its verify data placeholder was
    /// written: what it held, the response up to its verify data, and the
    /// placeholder.
    proof fn lemma_psk_response_written(
        &self,
        ctx: SpdmContext,
        w0: Seq<u8>,
        w1: Seq<u8>,
        q: SpecPskExchangeRequest,
        op: Seq<u8>,
        i: int,
        m: Seq<u8>,
        fields: Seq<Seq<u8>>,
    )
        requires
            fields == spec_psk_rsp_fields(
                ctx.negotiate_info.spdm_version_sel,
                ctx.config_info.heartbeat_period,
                spec_slot_half_id(i),
                spec_needs_measurement_hash(q.hash_type),
                m,
                ctx.negotiate_info.base_hash_sel.spec_size() as nat,
                spec_psk_rsp_context(ctx),
                op,
                Seq::new(64, |j: int| 0xCCu8),
            ),
            w1 == w0 + fields.flatten(),
        ensures
            w1 == spec_psk_written(ctx, w0, q, op, i, m) + Seq::new(
                ctx.negotiate_info.base_hash_sel.spec_size() as nat,
                |j: int| 0xCCu8,
            ),
            w1.len() >= ctx.negotiate_info.base_hash_sel.spec_size(),
            w1.take(w1.len() - ctx.negotiate_info.base_hash_sel.spec_size()) == spec_psk_written(
                ctx,
                w0,
                q,
                op,
                i,
                m,
            ),
    {
        let h = ctx.negotiate_info.base_hash_sel.spec_size() as nat;
        lemma_psk_rsp_split(
            ctx.negotiate_info.spdm_version_sel,
            ctx.config_info.heartbeat_period,
            spec_slot_half_id(i),
            spec_needs_measurement_hash(q.hash_type),
            m,
            h,
            spec_psk_rsp_context(ctx),
            op,
            Seq::new(64, |j: int| 0xCCu8),
        );
        assert(spec_digest_bytes(Seq::new(64, |j: int| 0xCCu8), h) =~= Seq::new(h, |j: int| 0xCCu8));
        let written = spec_psk_written(ctx, w0, q, op, i, m);
        assert(w1 =~= written + Seq::new(h, |j: int| 0xCCu8));
        assert(w1.take(w1.len() - h) =~= written);
    }

    /// Completes a PSK_EXCHANGE_RSP held in `writer` (`used` bytes, the
    /// last `hash_size` of them the verify data placeholder) for the session
    /// in slot `k`: records request and response in the session's key
    /// exchange transcript, asks the provider for the handshake keys under
    /// TH1, and hands them to `complete_psk_exchange`.
    fn psk_exchange_finish<C: SpdmCryptoProvider>(
        &mut self,
        crypto: &C,
        session_id: u32,
        k: usize,
        request: &[u8],
        writer: &mut Writer,
        used: usize,
        hash_size: u16,
        psk_without_context: bool,
        secure_version: Option<u8>,
        psk_hint: &[u8],
    ) -> (r: SpdmResult)
        requires
            old(self).common.wf(),
            k < old(self).common.session@.len(),
            old(self).common.session@[k as int].session_id == session_id,
            session_id != INVALID_SESSION_ID,
            old(self).common.session@[k as int].runtime_info.message_k@ == Seq::<u8>::empty(),
            old(self).common.session@[k as int].handshake_secret is None,
            old(writer).data().len() == used,
            hash_size == old(self).common.negotiate_info.base_hash_sel.spec_size(),
            used >= hash_size,
        ensures
            final(self).common.wf(),
            spec_only_slot_changed(old(self).common, final(self).common, k as int),
            final(writer).cap() == old(writer).cap(),
            ({
                let ctx = old(self).common;
                let sel = ctx.negotiate_info.spdm_version_sel;
                let algo = ctx.negotiate_info.base_hash_sel;
                let s0 = ctx.session@[k as int];
                let s = final(self).common.session@[k as int];
                let written = old(writer).data().take(used - hash_size);
                let th1 = spec_psk_th1(crypto, algo, s0.runtime_info.message_a@, request@, written);
                let verify = spec_psk_verify_data(crypto, sel, algo, psk_hint@, th1);
                let unspecified = spec_error_written(
                    sel,
                    old(writer).cap(),
                    SpdmErrorCode::SpdmErrorUnspecified,
                    0,
                );
                let fits_request = request@.len() <= MAX_SPDM_MESSAGE_BUFFER_SIZE;
                let fits_written = request@.len() + written.len() <= MAX_SPDM_MESSAGE_BUFFER_SIZE;
                let fits_all = request@.len() + written.len() + hash_size
                    <= MAX_SPDM_MESSAGE_BUFFER_SIZE;
                let supported = crypto.spec_hash_supported(algo);
                let known = crypto.spec_psk_known(psk_hint@);
                &&& r is Ok <==> (fits_all && supported && known)
                &&& r is Err ==> r == Err::<(), SpdmStatus>(SpdmStatus::CryptoError)
                &&& !fits_request ==> final(writer).data() == unspecified && s == s0
                &&& (fits_request && !fits_written) ==> final(writer).data() == unspecified
                    && spec_with_transcript(s0, s, request@)
                &&& (fits_written && !supported) ==> final(writer).data() == unspecified
                    && spec_with_transcript(s0, s, request@ + written)
                &&& (fits_written && supported && !known) ==> final(writer).data() == old(
                    writer,
                ).data() && spec_with_transcript(s0, s, request@ + written)
                &&& (fits_written && supported && known && !fits_all) ==> final(writer).data()
                    == unspecified && spec_empty_session(s)
                &&& r is Ok ==> {
                    &&& final(writer).data() == written + verify
                    &&& verify.len() == hash_size
                    &&& s.session_id == session_id
                    &&& s.use_psk == s0.use_psk
                    &&& s.crypto_param == s0.crypto_param
                    &&& s.transport_param == s0.transport_param
                    &&& s.runtime_info.psk_hint == s0.runtime_info.psk_hint
                    &&& s.runtime_info.message_a == s0.runtime_info.message_a
                    &&& s.runtime_info.message_m == s0.runtime_info.message_m
                    &&& s.runtime_info.rsp_cert_hash == s0.runtime_info.rsp_cert_hash
                    &&& s.runtime_info.req_cert_hash == s0.runtime_info.req_cert_hash
                    &&& s.runtime_info.message_k@ == request@ + written + verify
                    &&& s.handshake_secret matches Some(h) && h.spec_keys()
                        == crypto.spec_handshake_keys(sel, algo, psk_hint@, th1)
                    &&& s.session_state == if psk_without_context {
                        SpdmSessionState::SpdmSessionEstablished
                    } else {
                        SpdmSessionState::SpdmSessionHandshaking
                    }
                    &&& psk_without_context ==> (s.data_secret matches Some(d) && d.spec_keys()
                        == crypto.spec_data_keys(
                        sel,
                        algo,
                        crypto.spec_handshake_keys(sel, algo, psk_hint@, th1),
                        spec_psk_th2(
                            crypto,
                            algo,
                            s0.runtime_info.message_a@,
                            request@ + written + verify,
                        ),
                    ))
                    &&& !psk_without_context ==> s.data_secret == s0.data_secret
                    &&& s.heartbeat_period == ctx.config_info.heartbeat_period
                    &&& s.secure_spdm_version_sel == match secure_version {
                        Some(v) => v,
                        None => s0.secure_spdm_version_sel,
                    }
                }
            }),
    {
        let ghost ctx0 = self.common;
        let ghost w0 = writer.data();
        let ghost kk = k as int;
        let temp_used = used - hash_size as usize;
        proof {
            ctx0.lemma_index_of_slot(kk);
        }
        if self.common.append_message_k(session_id, request).is_err() {
            self.write_spdm_error(SpdmErrorCode::SpdmErrorUnspecified, 0, writer);
            return Err(SPDM_STATUS_CRYPTO_ERROR);
        }
        let ghost ctx1 = self.common;
        proof {
            assert(ctx1.wf());
            ctx1.lemma_index_of_slot(kk);
            assert(ctx1.session@[kk].runtime_info.message_k@ =~= request@);
        }
        let prefix = copy_range(writer.used_slice(), 0, temp_used);
        assert(prefix@ == w0.take(temp_used as int));
        if self.common.append_message_k(session_id, prefix.as_slice()).is_err() {
            self.write_spdm_error(SpdmErrorCode::SpdmErrorUnspecified, 0, writer);
            return Err(SPDM_STATUS_CRYPTO_ERROR);
        }
        let ghost ctx2 = self.common;
        proof {
            assert(ctx2.wf());
            ctx2.lemma_index_of_slot(kk);
            assert(ctx2.session@[kk].runtime_info.message_k@ == request@ + prefix@);
        }
        let found = self.common.find_session(session_id);
        let k2 = found.unwrap();
        assert(k2 == k);
        let th1 = self.common.calc_rsp_transcript_hash(crypto, &self.common.session[k2]);
        if th1.is_none() {
            self.write_spdm_error(SpdmErrorCode::SpdmErrorUnspecified, 0, writer);
            return Err(SPDM_STATUS_CRYPTO_ERROR);
        }
        let th1 = th1.unwrap();
        assert(th1@ == spec_psk_th1(crypto, ctx0.negotiate_info.base_hash_sel,
            ctx0.session@[kk].runtime_info.message_a@, request@, prefix@));
        let hs = crypto.generate_psk_handshake_secret(
            self.common.negotiate_info.spdm_version_sel,
            self.common.negotiate_info.base_hash_sel,
            psk_hint,
            th1.as_slice(),
        );
        self.complete_psk_exchange(
            crypto,
            session_id,
            k,
            writer,
            used,
            hash_size,
            psk_without_context,
            secure_version,
            hs,
        )
    }

    /// Completes the PSK exchange of the session in slot `k` with the
    /// handshake keys `handshake` that the provider derived, the writer
    /// holding the PSK_EXCHANGE_RSP (`used` bytes, the last `hash_size` of
    /// them the verify data placeholder) and the session's key exchange
    /// transcript holding the request and the response before its verify
    /// data. Without keys it fails and changes nothing. With keys, it stores
    /// them, computes the verify data (the HMAC of TH1 under the response
    /// finished key), appends it to the transcript and patches it into the
    /// response, and moves the session to handshaking, or, with the
    /// application keys for TH2, to established when no PSK_FINISH follows.
    /// An unsupported hash fails with the keys stored; a transcript that
    /// would outgrow its bound ends the session.
    pub fn complete_psk_exchange<C: SpdmCryptoProvider>(
        &mut self,
        crypto: &C,
        session_id: u32,
        k: usize,
        writer: &mut Writer,
        used: usize,
        hash_size: u16,
        psk_without_context: bool,
        secure_version: Option<u8>,
        handshake: Option<SpdmHandshakeSecret>,
    ) -> (r: SpdmResult)
        requires
            old(self).common.wf(),
            k < old(self).common.session@.len(),
            old(self).common.session@[k as int].session_id == session_id,
            session_id != INVALID_SESSION_ID,
            old(writer).data().len() == used,
            hash_size == old(self).common.negotiate_info.base_hash_sel.spec_size(),
            used >= hash_size,
        ensures
            final(self).common.wf(),
            spec_only_slot_changed(old(self).common, final(self).common, k as int),
            final(writer).cap() == old(writer).cap(),
            ({
                let ctx = old(self).common;
                let sel = ctx.negotiate_info.spdm_version_sel;
                let algo = ctx.negotiate_info.base_hash_sel;
                let s0 = ctx.session@[k as int];
                let s = final(self).common.session@[k as int];
                let written = old(writer).data().take(used - hash_size);
                let th1 = crypto.spec_hash(
                    algo,
                    s0.runtime_info.message_a@ + s0.runtime_info.message_k@,
                );
                let unspecified = spec_error_written(
                    sel,
                    old(writer).cap(),
                    SpdmErrorCode::SpdmErrorUnspecified,
                    0,
                );
                match handshake {
                    None => {
                        &&& r == Err::<(), SpdmStatus>(SpdmStatus::CryptoError)
                        &&& final(writer).data() == old(writer).data()
                        &&& final(self).common == ctx
                    },
                    Some(h) => {
                        let verify = crypto.spec_hmac(algo, h.response_finished_key@, th1);
                        let supported = crypto.spec_hash_supported(algo);
                        let fits = s0.runtime_info.message_k@.len() + hash_size
                            <= MAX_SPDM_MESSAGE_BUFFER_SIZE;
                        &&& r is Ok <==> (supported && fits)
                        &&& r is Err ==> r == Err::<(), SpdmStatus>(SpdmStatus::CryptoError)
                            && final(writer).data() == unspecified
                        &&& !supported ==> s == (SpdmSession {
                            handshake_secret: Some(h),
                            ..s0
                        })
                        &&& (supported && !fits) ==> spec_empty_session(s)
                        &&& r is Ok ==> {
                            &&& final(writer).data() == written + verify
                            &&& verify.len() == hash_size
                            &&& s.session_id == s0.session_id
                            &&& s.use_psk == s0.use_psk
                            &&& s.crypto_param == s0.crypto_param
                            &&& s.transport_param == s0.transport_param
                            &&& s.runtime_info.psk_hint == s0.runtime_info.psk_hint
                            &&& s.runtime_info.message_a == s0.runtime_info.message_a
                            &&& s.runtime_info.message_m == s0.runtime_info.message_m
                            &&& s.runtime_info.rsp_cert_hash == s0.runtime_info.rsp_cert_hash
                            &&& s.runtime_info.req_cert_hash == s0.runtime_info.req_cert_hash
                            &&& s.runtime_info.message_k@ == s0.runtime_info.message_k@ + verify
                            &&& s.handshake_secret == Some(h)
                            &&& s.session_state == if psk_without_context {
                                SpdmSessionState::SpdmSessionEstablished
                            } else {
                                SpdmSessionState::SpdmSessionHandshaking
                            }
                            &&& psk_without_context ==> (s.data_secret matches Some(d)
                                && d.spec_keys() == crypto.spec_data_keys(
                                sel,
                                algo,
                                h.spec_keys(),
                                spec_psk_th2(
                                    crypto,
                                    algo,
                                    s0.runtime_info.message_a@,
                                    s0.runtime_info.message_k@ + verify,
                                ),
                            ))
                            &&& !psk_without_context ==> s.data_secret == s0.data_secret
                            &&& s.heartbeat_period == ctx.config_info.heartbeat_period
                            &&& s.secure_spdm_version_sel == match secure_version {
                                Some(v) => v,
                                None => s0.secure_spdm_version_sel,
                            }
                        }
                    },
                }
            }),
    {
        let ghost ctx0 = self.common;
        let ghost w0 = writer.data();
        let ghost kk = k as int;
        let temp_used = used - hash_size as usize;
        if handshake.is_none() {
            return Err(SPDM_STATUS_CRYPTO_ERROR);
        }
        let hs = handshake.unwrap();
        let ghost hv = hs;
        let hash_algo = self.common.negotiate_info.base_hash_sel;
        let spdm_version_sel = self.common.negotiate_info.spdm_version_sel;
        let finished_key = clone_bytes(&hs.response_finished_key);
        self.common.session[k].handshake_secret = Some(hs);
        proof {
            assert(self.common.session@[kk] == (SpdmSession { handshake_secret: Some(hv), ..ctx0.session@[kk] }));
            assert(self.common.wf());
        }
        let transcript_hash = self.common.calc_rsp_transcript_hash(
            crypto,
            &self.common.session[k],
        );
        if transcript_hash.is_none() {
            self.write_spdm_error(SpdmErrorCode::SpdmErrorUnspecified, 0, writer);
            return Err(SPDM_STATUS_CRYPTO_ERROR);
        }
        let transcript_hash = transcript_hash.unwrap();
        let hmac = crypto.hmac(hash_algo, finished_key.as_slice(), transcript_hash.as_slice());
        if hmac.is_none() {
            proof {
                assert(false);
            }
            self.common.session[k].teardown();
            self.write_spdm_error(SpdmErrorCode::SpdmErrorUnspecified, 0, writer);
            return Err(SPDM_STATUS_CRYPTO_ERROR);
        }
        let hmac = hmac.unwrap();
        let ghost ctx3 = self.common;
        proof {
            assert(ctx3.wf());
            ctx3.lemma_index_of_slot(kk);
        }
        if self.common.append_message_k(session_id, hmac.as_slice()).is_err() {
            self.common.session[k].teardown();
            self.write_spdm_error(SpdmErrorCode::SpdmErrorUnspecified, 0, writer);
            return Err(SPDM_STATUS_CRYPTO_ERROR);
        }
        writer.patch(temp_used, hmac.as_slice());
        assert(writer.data() == w0.take(temp_used as int) + hmac@);
        self.common.session[k].set_session_state(SpdmSessionState::SpdmSessionHandshaking);
        if psk_without_context {
            let th2 = self.common.calc_rsp_transcript_hash(crypto, &self.common.session[k]);
            if th2.is_none() {
                proof {
                    assert(false);
                }
                self.write_spdm_error(SpdmErrorCode::SpdmErrorUnspecified, 0, writer);
                return Err(SPDM_STATUS_CRYPTO_ERROR);
            }
            let th2 = th2.unwrap();
            let ds = match &self.common.session[k].handshake_secret {
                Some(h) => crypto.generate_data_secret(
                    spdm_version_sel,
                    hash_algo,
                    h,
                    th2.as_slice(),
                ),
                None => None,
            };
            if ds.is_none() {
                proof {
                    assert(false);
                }
                self.write_spdm_error(SpdmErrorCode::SpdmErrorUnspecified, 0, writer);
                return Err(SPDM_STATUS_CRYPTO_ERROR);
            }
            self.common.session[k].data_secret = ds;
            self.common.session[k].set_session_state(SpdmSessionState::SpdmSessionEstablished);
        }
        let heartbeat_period = self.common.config_info.heartbeat_period;
        self.common.session[k].heartbeat_period = heartbeat_period;
        if let Some(v) = secure_version {
            self.common.session[k].secure_spdm_version_sel = v;
        }
        Ok(())
    }

    /// Chooses the opaque data of a PSK_EXCHANGE_RSP from the requester's
    /// opaque data, or refuses the request.
    fn psk_select_opaque(&mut self, opaque: &[u8], writer: &mut Writer) -> (r: Result<
        SpdmOpaqueStruct,
        SpdmStatus,
    >)
        ensures
            *final(self) == *old(self),
            final(writer).cap() == old(writer).cap(),
            match spec_psk_opaque_selection(old(self).common, opaque@) {
                Ok(o) => r matches Ok(ro) && ro.data@ == o && final(writer).data() == old(
                    writer,
                ).data(),
                Err(code) => r == Err::<SpdmOpaqueStruct, SpdmStatus>(SpdmStatus::InvalidMsgField)
                    && final(writer).data() == spec_error_written(
                    old(self).common.negotiate_info.spdm_version_sel,
                    old(writer).cap(),
                    code,
                    0,
                ),
            },
    {
        let sel_u8 = self.common.negotiate_info.spdm_version_sel.get_u8();
        let fmt1 = sel_u8 >= 0x12 && self.common.negotiate_info.opaque_data_support
            == SPDM_OPAQUE_SUPPORT_FMT1;
        let mut return_opaque = SpdmOpaqueStruct { data: Vec::new() };
        let list = get_supported_secure_spdm_version_list(opaque, fmt1);
        if let Some(list) = list {
            if list.version_count as usize > MAX_SECURE_SPDM_VERSION_COUNT {
                self.write_spdm_error(SpdmErrorCode::SpdmErrorInvalidRequest, 0, writer);
                return Err(SPDM_STATUS_INVALID_MSG_FIELD);
            }
            let ghost versions = list.versions_list@;
            let ghost locals = self.common.config_info.secure_spdm_version@;
            let count = list.version_count as usize;
            assert(versions.len() == count);
            assert(fmt1 == spec_opaque_fmt1(self.common));
            let mut index: usize = 0;
            while index < count
                invariant
                    *self == *old(self),
                    writer.data() == old(writer).data(),
                    writer.cap() == old(writer).cap(),
                    index <= count,
                    versions == list.versions_list@,
                    versions.len() == count,
                    count == list.version_count,
                    count <= MAX_SECURE_SPDM_VERSION_COUNT,
                    spec_supported_version_list(opaque@, spec_opaque_fmt1(self.common)) == Some(
                        (list.version_count, versions),
                    ),
                    locals == self.common.config_info.secure_spdm_version@,
                    sel_u8 == self.common.negotiate_info.spdm_version_sel.spec_u8(),
                    return_opaque.data@ == match spec_last_common_version(
                        versions.take(index as int),
                        locals,
                    ) {
                        None => Seq::<u8>::empty(),
                        Some(v) => spec_version_selection(sel_u8 >= 0x12, v),
                    },
                    spec_last_common_version(versions.take(index as int), locals) is Some
                        ==> sel_u8 < 0x12 || self.common.negotiate_info.opaque_data_support
                        == SPDM_OPAQUE_SUPPORT_FMT1,
                decreases count - index,
            {
                let ghost before = spec_last_common_version(versions.take(index as int), locals);
                let ghost vi = versions[index as int];
                let mut j: usize = 0;
                while j < self.common.config_info.secure_spdm_version.len()
                    invariant
                        *self == *old(self),
                        writer.data() == old(writer).data(),
                        writer.cap() == old(writer).cap(),
                        index < count,
                        j <= locals.len(),
                        versions == list.versions_list@,
                        versions.len() == count,
                        count == list.version_count,
                        count <= MAX_SECURE_SPDM_VERSION_COUNT,
                        spec_supported_version_list(opaque@, spec_opaque_fmt1(self.common)) == Some(
                            (list.version_count, versions),
                        ),
                        vi == versions[index as int],
                        locals == self.common.config_info.secure_spdm_version@,
                        sel_u8 == self.common.negotiate_info.spdm_version_sel.spec_u8(),
                        return_opaque.data@ == if locals.take(j as int).contains(vi) {
                            spec_version_selection(sel_u8 >= 0x12, vi)
                        } else {
                            match before {
                                None => Seq::<u8>::empty(),
                                Some(v) => spec_version_selection(sel_u8 >= 0x12, v),
                            }
                        },
                        (before is Some || locals.take(j as int).contains(vi)) ==> sel_u8 < 0x12
                            || self.common.negotiate_info.opaque_data_support
                            == SPDM_OPAQUE_SUPPORT_FMT1,
                    decreases locals.len() - j,
                {
                    let local_version = self.common.config_info.secure_spdm_version[j];
                    proof {
                        let t = locals.take(j as int);
                        assert(locals.take(j + 1) == t.push(local_version));
                        if t.contains(vi) {
                            let k = choose|k: int| 0 <= k < t.len() && t[k] == vi;
                            assert(t.push(local_version)[k] == vi);
                        }
                        if local_version == vi {
                            assert(t.push(local_version)[j as int] == vi);
                        }
                        if t.push(local_version).contains(vi) {
                            let k = choose|k: int|
                                0 <= k < t.len() + 1 && t.push(local_version)[k] == vi;
                            if k < t.len() {
                                assert(t[k] == vi);
                            }
                        }
                        assert(locals.take(j + 1).contains(vi) == (t.contains(vi) || local_version
                            == vi));
                    }
                    if list.versions_list[index] == local_version {
                        if sel_u8 < 0x12 {
                            return_opaque.data = version_selection(false, local_version);
                        } else if self.common.negotiate_info.opaque_data_support
                            == SPDM_OPAQUE_SUPPORT_FMT1 {
                            return_opaque.data = version_selection(true, local_version);
                        } else {
                            proof {
                                assert(locals.contains(vi)) by {
                                    assert(locals[j as int] == vi);
                                }
                                self.lemma_common_version_found(versions, locals, index as int);
                            }
                            self.write_spdm_error(
                                SpdmErrorCode::SpdmErrorUnsupportedRequest,
                                0,
                                writer,
                            );
                            return Err(SPDM_STATUS_INVALID_MSG_FIELD);
                        }
                    }
                    j = j + 1;
                }
                proof {
                    assert(locals.take(locals.len() as int) == locals);
                    assert(versions.take(index + 1).drop_last() == versions.take(index as int));
                    assert(versions.take(index + 1).last() == vi);
                }
                index = index + 1;
            }
            assert(versions.take(count as int) == versions);
        }
        Ok(return_opaque)
    }

    /// Once a requester version at `index` is supported locally, some common
    /// version exists in the whole list.
    proof fn lemma_common_version_found(&self, versions: Seq<u8>, locals: Seq<u8>, index: int)
        requires
            0 <= index < versions.len(),
            locals.contains(versions[index]),
        ensures
            spec_last_common_version(versions, locals) is Some,
        decreases versions.len(),
    {
        if index < versions.len() - 1 {
            if !locals.contains(versions.last()) {
                self.lemma_common_version_found(versions.drop_last(), locals, index);
            }
        }
    }
}

} // verus!

verus! {

/// After a PSK_EXCHANGE request was answered successfully, the session it
/// opened is the one found under its session id, and that id's responder
/// half is the one its slot hands out.
pub proof fn lemma_psk_session_found<C: SpdmCryptoProvider>(
    crypto: &C,
    ctx: SpdmContext,
    new: SpdmContext,
    old_data: Seq<u8>,
    new_data: Seq<u8>,
    cap: nat,
    request: Seq<u8>,
    random_ok: bool,
)
    requires
        new.wf(),
        spec_psk_exchange_answered(crypto, ctx, new, old_data, new_data, cap, request, random_ok, Ok(())),
    ensures
        spec_psk_accepted(ctx, request) matches Some((q, op, i)) && ({
            let sid = spec_session_id(spec_slot_half_id(i), q.req_session_id);
            &&& new.spec_session_index(sid) == Some(i)
            &&& spec_rsp_half(sid) == spec_slot_half_id(i)
            &&& new.session@[i].use_psk
        }),
{
    reveal(spec_psk_exchange_answered);
    let (q, op, i) = spec_psk_accepted(ctx, request).unwrap();
    let m = choose|m: Seq<u8>|
        spec_psk_session_opened(crypto, ctx, new, old_data, new_data, request, q, op, i, m);
    let sid = spec_session_id(spec_slot_half_id(i), q.req_session_id);
    lemma_first_free_from(ctx.session@, false, 0);
    assert(new.session@[i].session_id == sid);
    assert(spec_rsp_half(sid) == spec_slot_half_id(i));
    new.lemma_index_of_slot(i);
}

/// After a PSK_EXCHANGE request was answered successfully, the response
/// ends with the HMAC, under the response finished key that the new session
/// holds, of the digest of the session's VCA transcript, the request and
/// what the writer holds before the verify data; the session's key exchange
/// transcript is the request followed by all that the writer holds.
pub proof fn lemma_psk_verify_data_under_session_key<C: SpdmCryptoProvider>(
    crypto: &C,
    ctx: SpdmContext,
    new: SpdmContext,
    old_data: Seq<u8>,
    new_data: Seq<u8>,
    cap: nat,
    request: Seq<u8>,
    random_ok: bool,
)
    requires
        spec_psk_exchange_answered(crypto, ctx, new, old_data, new_data, cap, request, random_ok, Ok(())),
    ensures
        spec_psk_accepted(ctx, request) matches Some((q, op, i)) && spec_psk_measurement_hash(
            crypto,
            ctx,
            q,
        ) matches Some(m) && ({
            let algo = ctx.negotiate_info.base_hash_sel;
            let s = new.session@[i];
            let written = spec_psk_written(ctx, old_data, q, op, i, m);
            let req = request.take(2 + spec_psk_body_len(q));
            let th1 = crypto.spec_hash(algo, s.runtime_info.message_a@ + (req + written));
            &&& s.handshake_secret matches Some(h) && new_data == written + crypto.spec_hmac(
                algo,
                h.response_finished_key@,
                th1,
            ) && s.runtime_info.message_k@ == req + new_data
        }),
{
    reveal(spec_psk_exchange_answered);
    let (q, op, i) = spec_psk_accepted(ctx, request).unwrap();
    let m = spec_psk_measurement_hash(crypto, ctx, q).unwrap();
    let written = spec_psk_written(ctx, old_data, q, op, i, m);
    let s = new.session@[i];
    let h = s.handshake_secret.unwrap();
    assert(h.spec_keys().4 == h.response_finished_key@);
    let req = request.take(2 + spec_psk_body_len(q));
    let verify = crypto.spec_hmac(
        ctx.negotiate_info.base_hash_sel,
        h.response_finished_key@,
        crypto.spec_hash(ctx.negotiate_info.base_hash_sel, s.runtime_info.message_a@ + (req + written)),
    );
    assert(req + written + verify =~= req + (written + verify));
}

/// The bytes of a PSK_EXCHANGE_RSP up to its verify data, after what the
/// writer held: the version, 0x66, the heartbeat period, a reserved byte,
/// the responder half session id, a reserved word, the responder context
/// and opaque data lengths (all little-endian), then the measurement summary
/// hash where one was asked for, the responder context and the opaque data.
#[verifier::spinoff_prover]
pub proof fn lemma_psk_written_layout(
    ctx: SpdmContext,
    old_data: Seq<u8>,
    q: SpecPskExchangeRequest,
    op: Seq<u8>,
    i: int,
    m: Seq<u8>,
)
    ensures
        ({
            let half = spec_slot_half_id(i);
            let c = spec_psk_rsp_context(ctx);
            let size = ctx.negotiate_info.base_hash_sel.spec_size() as nat;
            let mh = if q.hash_type == 1 || q.hash_type == 0xFF {
                spec_digest_bytes(m, size)
            } else {
                Seq::<u8>::empty()
            };
            spec_psk_written(ctx, old_data, q, op, i, m) == old_data + seq![
                ctx.negotiate_info.spdm_version_sel.spec_u8(),
                0x66u8,
                ctx.config_info.heartbeat_period,
                0u8,
                (half % 256) as u8,
                (half / 256) as u8,
                0u8,
                0u8,
                ((c.len() as u16) % 256) as u8,
                ((c.len() as u16) / 256) as u8,
                ((op.len() as u16) % 256) as u8,
                ((op.len() as u16) / 256) as u8,
            ] + mh + c + op
        }),
{
    let sel = ctx.negotiate_info.spdm_version_sel;
    let half = spec_slot_half_id(i);
    let c = spec_psk_rsp_context(ctx);
    let size = ctx.negotiate_info.base_hash_sel.spec_size() as nat;
    let inc = spec_needs_measurement_hash(q.hash_type);
    let mh = if inc { spec_digest_bytes(m, size) } else { Seq::<u8>::empty() };
    let f = spec_psk_rsp_fields(
        sel,
        ctx.config_info.heartbeat_period,
        half,
        inc,
        m,
        size,
        c,
        op,
        Seq::<u8>::empty(),
    );
    let a = seq![
        seq![sel.spec_u8()],
        seq![0x66u8],
        seq![ctx.config_info.heartbeat_period],
        seq![0u8],
        spec_u16_bytes(half),
        spec_u16_bytes(0),
        spec_u16_bytes(c.len() as u16),
        spec_u16_bytes(op.len() as u16),
    ];
    let b = seq![mh, c, op];
    assert(f.drop_last() =~= a + b);
    vstd::seq_lib::lemma_flatten_concat(a, b);
    assert(a.flatten() =~= seq![
        sel.spec_u8(),
        0x66u8,
        ctx.config_info.heartbeat_period,
        0u8,
        (half % 256) as u8,
        (half / 256) as u8,
        0u8,
        0u8,
        ((c.len() as u16) % 256) as u8,
        ((c.len() as u16) / 256) as u8,
        ((op.len() as u16) % 256) as u8,
        ((op.len() as u16) / 256) as u8,
    ]) by {
        reveal_with_fuel(Seq::<_>::flatten, 9);
    }
    assert(b.flatten() =~= mh + c + op) by {
        reveal_with_fuel(Seq::<_>::flatten, 4);
    }
}

/// A responder whose capabilities lack the PSK-without-context bit (0x400),
/// whatever its other bits, answers a PSK_EXCHANGE successfully only with a
/// responder context of `MAX_SPDM_PSK_CONTEXT_SIZE` (64) zero bytes, whose
/// length the response announces, and leaves the new session handshaking,
/// waiting for PSK_FINISH, without application keys.
#[verifier::spinoff_prover]
pub proof fn lemma_psk_with_context_waits_for_finish<C: SpdmCryptoProvider>(
    crypto: &C,
    ctx: SpdmContext,
    new: SpdmContext,
    old_data: Seq<u8>,
    new_data: Seq<u8>,
    cap: nat,
    request: Seq<u8>,
    random_ok: bool,
)
    requires
        spec_psk_exchange_answered(crypto, ctx, new, old_data, new_data, cap, request, random_ok, Ok(())),
        ctx.negotiate_info.rsp_capabilities_sel & 0x400u32 == 0,
    ensures
        spec_psk_accepted(ctx, request) matches Some((q, op, i)) && ({
            let s = new.session@[i];
            let n = old_data.len() as int;
            let hl = if q.hash_type == 1 || q.hash_type == 0xFF {
                ctx.negotiate_info.base_hash_sel.spec_size() as int
            } else {
                0int
            };
            &&& s.session_state == SpdmSessionState::SpdmSessionHandshaking
            &&& s.data_secret is None
            &&& new_data.len() >= n + 12 + hl + 64
            &&& new_data[n + 8] == 0x40u8
            &&& new_data[n + 9] == 0u8
            &&& new_data.subrange(n + 12 + hl, n + 12 + hl + 64) == Seq::new(64, |j: int| 0u8)
        }),
{
    reveal(spec_psk_exchange_answered);
    let caps = ctx.negotiate_info.rsp_capabilities_sel;
    assert((caps & 0x400u32) == 0 ==> (caps & 0x400u32) != 0x400u32) by (bit_vector);
    assert(!spec_psk_without_context(ctx));
    let (q, op, i) = spec_psk_accepted(ctx, request).unwrap();
    let m = spec_psk_measurement_hash(crypto, ctx, q).unwrap();
    lemma_psk_written_layout(ctx, old_data, q, op, i, m);
    let n = old_data.len() as int;
    let size = ctx.negotiate_info.base_hash_sel.spec_size() as nat;
    let mh = if q.hash_type == 1 || q.hash_type == 0xFF {
        spec_digest_bytes(m, size)
    } else {
        Seq::<u8>::empty()
    };
    let c = spec_psk_rsp_context(ctx);
    assert(c =~= Seq::new(64, |j: int| 0u8));
    let written = spec_psk_written(ctx, old_data, q, op, i, m);
    let verify = spec_psk_verify_data(
        crypto,
        ctx.negotiate_info.spdm_version_sel,
        ctx.negotiate_info.base_hash_sel,
        q.psk_hint,
        spec_psk_th1(
            crypto,
            ctx.negotiate_info.base_hash_sel,
            ctx.runtime_info.message_a@,
            request.take(2 + spec_psk_body_len(q)),
            written,
        ),
    );
    assert(new_data == written + verify);
    assert(new_data[n + 8] == written[n + 8]);
    assert(new_data[n + 9] == written[n + 9]);
    assert(new_data.subrange(n + 12 + mh.len(), n + 12 + mh.len() + 64) =~= c);
}

/// A secured-message version that a successful PSK_EXCHANGE selects for the
/// new session is one that the requester listed in its opaque data and that
/// the responder's configuration holds.
#[verifier::spinoff_prover]
pub proof fn lemma_psk_selected_version_is_common<C: SpdmCryptoProvider>(
    crypto: &C,
    ctx: SpdmContext,
    new: SpdmContext,
    old_data: Seq<u8>,
    new_data: Seq<u8>,
    cap: nat,
    request: Seq<u8>,
    random_ok: bool,
)
    requires
        spec_psk_exchange_answered(crypto, ctx, new, old_data, new_data, cap, request, random_ok, Ok(())),
    ensures
        spec_psk_accepted(ctx, request) matches Some((q, op, i)) && (op.len() > 0 ==> {
            let v = new.session@[i].secure_spdm_version_sel;
            &&& ctx.config_info.secure_spdm_version@.contains(v)
            &&& spec_supported_version_list(q.opaque, spec_opaque_fmt1(ctx)) matches Some((c, vs))
                && vs.contains(v)
        }),
{
    reveal(spec_psk_exchange_answered);
    let (q, op, i) = spec_psk_accepted(ctx, request).unwrap();
    if op.len() > 0 {
        let (c, vs) = spec_supported_version_list(q.opaque, spec_opaque_fmt1(ctx)).unwrap();
        let local = ctx.config_info.secure_spdm_version@;
        lemma_last_common_version(vs, local);
        let v = spec_last_common_version(vs, local).unwrap();
        let k = choose|k: int|
            0 <= k < vs.len() && vs[k] == v && local.contains(v) && forall|j: int|
                k < j < vs.len() ==> !local.contains(#[trigger] vs[j]);
        assert(vs.contains(v));
        assert(spec_version_selection(true, v).last() == v);
        assert(spec_version_selection(false, v).last() == v);
    }
}

} // verus!
