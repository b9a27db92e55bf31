//! The data exchanged with the enclave, held as plain values: what the
//! bridge builds for an enclave call and what it reads of the reply.

use vstd::prelude::*;

verus! {

/// Size in bytes of an AES-GCM initialisation vector.
pub const SGXSD_AES_GCM_IV_SIZE: usize = 12;

/// Size in bytes of an AES-GCM tag.
pub const SGXSD_AES_GCM_MAC_SIZE: usize = 16;

/// Size in bytes of a Curve25519 public key.
pub const SGXSD_CURVE25519_KEY_SIZE: u32 = 32;

/// Size in bytes of a SHA-256 hash.
pub const SGXSD_SHA256_HASH_SIZE: usize = 32;

/// Size in bytes of a service provider id.
pub const SPID_SIZE: usize = 16;

/// Size in bytes of the data part of a pending request id (a `u64`).
pub const PENDING_REQUEST_ID_DATA_SIZE: usize = 8;

/// Size in bytes of a pending request id: its data, IV and tag.
pub const PENDING_REQUEST_ID_SIZE: usize = 36;

/// Size in bytes of the platform info blob of an attestation report.
pub const SGX_PLATFORM_INFO_SIZE: usize = 101;

/// Size in bytes of one phone number in the server-stop buffers.
pub const PHONE_SIZE: i64 = 8;

/// Size in bytes of one UUID in the server-stop buffers.
pub const UUID_SIZE: i64 = 16;

/// Code of the SDK error "invalid parameter".
pub const SGX_ERROR_INVALID_PARAMETER: i64 = 2;

/// An encrypted pending request id.
#[derive(Debug)]
pub struct PendingRequestId {
    pub data: Vec<u8>,
    pub iv: Vec<u8>,
    pub mac: Vec<u8>,
}

/// The enclave's answer to a request negotiation.
#[derive(Debug)]
pub struct NegotiationResponse {
    pub server_static_pubkey: Vec<u8>,
    pub server_ephemeral_pubkey: Vec<u8>,
    pub encrypted_pending_request_id: PendingRequestId,
}

/// Arguments of the server start call.
#[derive(Debug)]
pub struct ServerInitArgs {
    pub max_query_phones: u32,
    pub max_ratelimit_states: u32,
}

/// An encrypted query of a server call.
#[derive(Debug)]
pub struct EncryptedMsg {
    pub iv: Vec<u8>,
    pub mac: Vec<u8>,
    pub data: Vec<u8>,
}

/// Arguments of a server call (the rate-limit state is left empty).
#[derive(Debug)]
pub struct ServerCallArgs {
    pub query_phone_count: u32,
    pub query: EncryptedMsg,
    pub query_commitment: Vec<u8>,
}

/// Header of the message handed to a server call.
#[derive(Debug)]
pub struct MessageHeader {
    pub iv: Vec<u8>,
    pub mac: Vec<u8>,
    pub pending_request_id: PendingRequestId,
}

/// The enclave's encrypted reply to a server call.
#[derive(Debug)]
pub struct MessageReply {
    pub data: Vec<u8>,
    pub iv: Vec<u8>,
    pub mac: Vec<u8>,
}

/// Which parts of the platform need an update, as the attestation service
/// reports it (each field non-zero when that part needs one).
#[derive(Debug)]
pub struct UpdateInfo {
    pub ucode_update: i32,
    pub csme_fw_update: i32,
    pub psw_update: i32,
}

/// The outcome of reporting the attestation status of the platform.
#[derive(Debug)]
pub enum AttestationStatus {
    NoUpdateNeeded,
    UpdateNeeded(UpdateInfo),
}

/// 1 when `flag` is set, else 0.
pub open spec fn flag_bit(flag: i32) -> int {
    if flag != 0 { 1 } else { 0 }
}

/// The update flags handed to Java: bit 0 for microcode, bit 1 for the
/// CSME firmware, bit 2 for the platform software; 0 when nothing needs an
/// update.
pub open spec fn spec_update_flags(status: AttestationStatus) -> int {
    match status {
        AttestationStatus::NoUpdateNeeded => 0,
        AttestationStatus::UpdateNeeded(info) => flag_bit(info.ucode_update) + 2 * flag_bit(
            info.csme_fw_update,
        ) + 4 * flag_bit(info.psw_update),
    }
}

/// Computes the update flags of an attestation status.
pub fn update_flags(status: &AttestationStatus) -> (res: i32)
    ensures
        res == spec_update_flags(*status),
        0 <= res < 8,
{
    match status {
        AttestationStatus::NoUpdateNeeded => 0,
        AttestationStatus::UpdateNeeded(update_info) => {
            let ucode: i32 = if update_info.ucode_update != 0 { 1 } else { 0 };
            let csmefw: i32 = if update_info.csme_fw_update != 0 { 1 } else { 0 };
            let psw: i32 = if update_info.psw_update != 0 { 1 } else { 0 };
            assert(0 <= ucode <= 1 && 0 <= csmefw <= 1 && 0 <= psw <= 1 ==> ucode | csmefw << 1 | psw << 2
                == ucode + 2 * csmefw + 4 * psw) by (bit_vector);
            ucode | csmefw << 1 | psw << 2
        },
    }
}

/// The flags name each part that needs an update, and only those: bit 0
/// the microcode, bit 1 the CSME firmware, bit 2 the platform software.
pub proof fn lemma_update_flags_bits(status: AttestationStatus)
    ensures
        0 <= spec_update_flags(status) < 8,
        (spec_update_flags(status) % 2 == 1) <==> (status matches AttestationStatus::UpdateNeeded(
            info,
        ) && info.ucode_update != 0),
        ((spec_update_flags(status) / 2) % 2 == 1) <==> (status matches AttestationStatus::UpdateNeeded(
            info,
        ) && info.csme_fw_update != 0),
        (spec_update_flags(status) / 4 == 1) <==> (status matches AttestationStatus::UpdateNeeded(
            info,
        ) && info.psw_update != 0),
{
}

} // verus!
