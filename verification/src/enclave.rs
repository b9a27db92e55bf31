//! Native calls that manage the enclave: starting it, producing and
//! setting quotes, negotiating requests, starting the server and
//! reporting the platform's attestation status.
//!
//! Each call with more than one outside step is a state machine. `start`
//! gives the first state and action; the caller performs the action, hands
//! back what it gave as an event, and goes on until the action is
//! `Finish`.

use vstd::prelude::*;
use vstd::utf8::{decode_utf8, valid_utf8};
use crate::arrays::{ArrayShape, jbytes_of, JByteArrayImage, jni_array_image};
use crate::error::{
    Fault, generic_exception, is_generic_fault, is_sgx_fault, jni_fault,
    JniFailed, NULL_POINTER_EXCEPTION_CLASS, PossibleError, RUNTIME_EXCEPTION_CLASS, SgxStatus,
    SgxsdError, sgxsd_fault, sgxstatus_to_possibleerror, spec_sgxsd_fault,
    status_code, success_as_error_msg,
};
use crate::sgxsd::{
    AttestationStatus, NegotiationResponse, ServerInitArgs, SGX_ERROR_INVALID_PARAMETER,
    SGX_PLATFORM_INFO_SIZE, SGXSD_CURVE25519_KEY_SIZE, SPID_SIZE, spec_update_flags, update_flags,
};
use crate::text::utf8_to_string;

verus! {

/// The enclave id that the enclave interface takes for a Java `long`.
pub fn enclave_handle(id: i64) -> (res: u64)
    ensures
        res == id as u64,
{
    id as u64
}

// ---------------------------------------------------------------------
// Starting the enclave
// ---------------------------------------------------------------------

/// Name of the start callback's method that runs the enclave.
pub const RUN_ENCLAVE_METHOD: &'static str = "runEnclave";

/// Signature of `runEnclave(long enclaveId, long gid)`.
pub const RUN_ENCLAVE_SIG: &'static str = "(JJ)V";

/// What the enclave start asks the caller to do next.
#[derive(Debug)]
pub enum EnclaveStartAction {
    /// Read the bytes of the enclave path string.
    ReadPath,
    /// Initialise quoting (the SDK's `init_quote`).
    InitQuote,
    /// Create the enclave from `path`, in debug mode or not.
    CreateEnclave { path: String, debug: bool },
    /// Initialise the enclave's node state.
    NodeInit { enclave_id: u64, pending_requests_table_order: u8 },
    /// Call `runEnclave(id, gid)` on the Java callback; it returns
    /// when the enclave is to stop.
    RunEnclave { id: i64, gid: i64 },
    /// Destroy the enclave.
    DestroyEnclave { enclave_id: u64 },
    /// The call is over, with this result.
    Finish(Result<i64, Fault>),
}

/// What the caller hands back after performing an action.
#[derive(Debug)]
pub enum EnclaveStartEvent {
    PathRead(Result<Vec<u8>, JniFailed>),
    /// The EPID group id, or the failing status.
    QuoteInitialized(Result<u32, SgxStatus>),
    EnclaveCreated(Result<u64, SgxsdError>),
    NodeInitialized(Result<(), SgxsdError>),
    EnclaveRan(Result<(), JniFailed>),
    EnclaveDestroyed(Result<(), SgxsdError>),
}

/// The state of an enclave start.
#[derive(Debug)]
pub enum EnclaveStart {
    AwaitingPath { debug: bool, order: i8 },
    AwaitingQuote { path: String, debug: bool, order: i8 },
    AwaitingEnclave { gid: u32, order: i8 },
    AwaitingNodeInit { enclave_id: u64, gid: u32 },
    AwaitingRun { enclave_id: u64 },
    AwaitingDestroy { enclave_id: u64 },
    Done,
}

/// The message of the error for a missing start callback.
pub open spec fn null_callback_msg() -> Seq<char> {
    "EnclaveStartCallback callback was null"@
}

/// The message of the error for an enclave path that is not UTF-8.
pub open spec fn non_utf8_path_msg() -> Seq<char> {
    "non-UTF8 bytes in enclave path"@
}

impl EnclaveStart {
    /// How many steps remain at most.
    pub open spec fn rank(&self) -> nat {
        match *self {
            EnclaveStart::AwaitingPath { .. } => 6,
            EnclaveStart::AwaitingQuote { .. } => 5,
            EnclaveStart::AwaitingEnclave { .. } => 4,
            EnclaveStart::AwaitingNodeInit { .. } => 3,
            EnclaveStart::AwaitingRun { .. } => 2,
            EnclaveStart::AwaitingDestroy { .. } => 1,
            EnclaveStart::Done => 0,
        }
    }

    /// The event answers the action that led to this state.
    pub open spec fn awaits(&self, event: EnclaveStartEvent) -> bool {
        match (*self, event) {
            (EnclaveStart::AwaitingPath { .. }, EnclaveStartEvent::PathRead(_)) => true,
            (EnclaveStart::AwaitingQuote { .. }, EnclaveStartEvent::QuoteInitialized(_)) => true,
            (EnclaveStart::AwaitingEnclave { .. }, EnclaveStartEvent::EnclaveCreated(_)) => true,
            (EnclaveStart::AwaitingNodeInit { .. }, EnclaveStartEvent::NodeInitialized(_)) => true,
            (EnclaveStart::AwaitingRun { .. }, EnclaveStartEvent::EnclaveRan(_)) => true,
            (EnclaveStart::AwaitingDestroy { .. }, EnclaveStartEvent::EnclaveDestroyed(_)) => true,
            _ => false,
        }
    }

    /// Begins an enclave start. A null callback fails the call with a
    /// `NullPointerException`; otherwise the path is read first. Debug mode
    /// is on when the Java flag is exactly 1.
    pub fn start(callback_is_null: bool, debug: u8, pending_requests_table_order: i8) -> (res: (
        EnclaveStart,
        EnclaveStartAction,
    ))
        ensures
            callback_is_null ==> res.0 is Done && (res.1 matches EnclaveStartAction::Finish(Err(f))
                && is_generic_fault(f, NULL_POINTER_EXCEPTION_CLASS@, null_callback_msg())),
            !callback_is_null ==> res.0 == (EnclaveStart::AwaitingPath {
                debug: debug == 1,
                order: pending_requests_table_order,
            }) && res.1 is ReadPath,
    {
        if callback_is_null {
            let e = generic_exception(
                NULL_POINTER_EXCEPTION_CLASS,
                "EnclaveStartCallback callback was null",
            );
            (EnclaveStart::Done, EnclaveStartAction::Finish(Err(Fault::Raised(e))))
        } else {
            (
                EnclaveStart::AwaitingPath { debug: debug == 1, order: pending_requests_table_order },
                EnclaveStartAction::ReadPath,
            )
        }
    }

    /// Takes the answer to the last action and decides the next one.
    pub fn step(self, event: EnclaveStartEvent) -> (res: (EnclaveStart, EnclaveStartAction))
        requires
            self.awaits(event),
        ensures
            res.0.rank() < self.rank(),
            res.1 is Finish <==> res.0 is Done,
            match (self, event) {
                (EnclaveStart::AwaitingPath { debug, order }, EnclaveStartEvent::PathRead(r)) => match r {
                    Err(_) => res.1 == EnclaveStartAction::Finish(Err(jni_fault())),
                    Ok(bytes) => if valid_utf8(bytes@) {
                        res.0 matches EnclaveStart::AwaitingQuote { path, debug: d, order: o } && path@
                            == decode_utf8(bytes@) && d == debug && o == order && res.1 is InitQuote
                    } else {
                        res.1 matches EnclaveStartAction::Finish(Err(f)) && is_generic_fault(
                            f,
                            RUNTIME_EXCEPTION_CLASS@,
                            non_utf8_path_msg(),
                        )
                    },
                },
                (EnclaveStart::AwaitingQuote { path, debug, order }, EnclaveStartEvent::QuoteInitialized(r)) => match r {
                    Ok(gid) => res.0 == (EnclaveStart::AwaitingEnclave { gid, order })
                        && res.1 == (EnclaveStartAction::CreateEnclave { path, debug }),
                    Err(SgxStatus::Success) => res.1 matches EnclaveStartAction::Finish(Err(f))
                        && is_generic_fault(
                        f,
                        RUNTIME_EXCEPTION_CLASS@,
                        success_as_error_msg("init_quote_before_create"@),
                    ),
                    Err(status) => res.1 matches EnclaveStartAction::Finish(Err(f)) && is_sgx_fault(
                        f,
                        "init_quote_before_create"@,
                        status_code(status),
                    ),
                },
                (EnclaveStart::AwaitingEnclave { gid, order }, EnclaveStartEvent::EnclaveCreated(r)) => match r {
                    Ok(id) => res.0 == (EnclaveStart::AwaitingNodeInit { enclave_id: id, gid })
                        && res.1 == (EnclaveStartAction::NodeInit {
                        enclave_id: id,
                        pending_requests_table_order: order as u8,
                    }),
                    Err(e) => res.1 == EnclaveStartAction::Finish(Err(spec_sgxsd_fault(e))),
                },
                (EnclaveStart::AwaitingNodeInit { enclave_id, gid }, EnclaveStartEvent::NodeInitialized(r)) => match r {
                    Ok(_) => res.0 == (EnclaveStart::AwaitingRun { enclave_id })
                        && res.1 == (EnclaveStartAction::RunEnclave {
                        id: enclave_id as i64,
                        gid: gid as i64,
                    }),
                    Err(e) => res.1 == EnclaveStartAction::Finish(Err(spec_sgxsd_fault(e))),
                },
                (EnclaveStart::AwaitingRun { enclave_id }, EnclaveStartEvent::EnclaveRan(r)) => match r {
                    Ok(_) => res.0 == (EnclaveStart::AwaitingDestroy { enclave_id })
                        && res.1 == (EnclaveStartAction::DestroyEnclave { enclave_id }),
                    Err(_) => res.1 == EnclaveStartAction::Finish(Err(jni_fault())),
                },
                (EnclaveStart::AwaitingDestroy { enclave_id }, EnclaveStartEvent::EnclaveDestroyed(r)) => match r {
                    Ok(_) => res.1 == EnclaveStartAction::Finish(Ok(enclave_id as i64)),
                    Err(e) => res.1 == EnclaveStartAction::Finish(Err(spec_sgxsd_fault(e))),
                },
                _ => false,
            },
    {
        match (self, event) {
            (EnclaveStart::AwaitingPath { debug, order }, EnclaveStartEvent::PathRead(r)) => match r {
                Err(_) => (
                    EnclaveStart::Done,
                    EnclaveStartAction::Finish(Err(Fault::Raised(PossibleError::AlreadyThrown))),
                ),
                Ok(bytes) => match utf8_to_string(bytes.as_slice()) {
                    Some(path) => (
                        EnclaveStart::AwaitingQuote { path, debug, order },
                        EnclaveStartAction::InitQuote,
                    ),
                    None => {
                        let e = generic_exception(
                            RUNTIME_EXCEPTION_CLASS,
                            "non-UTF8 bytes in enclave path",
                        );
                        (EnclaveStart::Done, EnclaveStartAction::Finish(Err(Fault::Raised(e))))
                    },
                },
            },
            (
                EnclaveStart::AwaitingQuote { path, debug, order },
                EnclaveStartEvent::QuoteInitialized(r),
            ) => match r {
                Ok(gid) => (
                    EnclaveStart::AwaitingEnclave { gid, order },
                    EnclaveStartAction::CreateEnclave { path, debug },
                ),
                Err(status) => {
                    let e = sgxstatus_to_possibleerror("init_quote_before_create", status);
                    (EnclaveStart::Done, EnclaveStartAction::Finish(Err(Fault::Raised(e))))
                },
            },
            (
                EnclaveStart::AwaitingEnclave { gid, order },
                EnclaveStartEvent::EnclaveCreated(r),
            ) => match r {
                Ok(id) => (
                    EnclaveStart::AwaitingNodeInit { enclave_id: id, gid },
                    EnclaveStartAction::NodeInit {
                        enclave_id: id,
                        pending_requests_table_order: order as u8,
                    },
                ),
                Err(e) => (EnclaveStart::Done, EnclaveStartAction::Finish(Err(sgxsd_fault(e)))),
            },
            (
                EnclaveStart::AwaitingNodeInit { enclave_id, gid },
                EnclaveStartEvent::NodeInitialized(r),
            ) => match r {
                Ok(_) => (
                    EnclaveStart::AwaitingRun { enclave_id },
                    EnclaveStartAction::RunEnclave {
                        id: enclave_id as i64,
                        gid: gid as i64,
                    },
                ),
                Err(e) => (EnclaveStart::Done, EnclaveStartAction::Finish(Err(sgxsd_fault(e)))),
            },
            (EnclaveStart::AwaitingRun { enclave_id }, EnclaveStartEvent::EnclaveRan(r)) => match r {
                Ok(_) => (
                    EnclaveStart::AwaitingDestroy { enclave_id },
                    EnclaveStartAction::DestroyEnclave { enclave_id },
                ),
                Err(_) => (
                    EnclaveStart::Done,
                    EnclaveStartAction::Finish(Err(Fault::Raised(PossibleError::AlreadyThrown))),
                ),
            },
            (
                EnclaveStart::AwaitingDestroy { enclave_id },
                EnclaveStartEvent::EnclaveDestroyed(r),
            ) => match r {
                Ok(_) => (EnclaveStart::Done, EnclaveStartAction::Finish(Ok(enclave_id as i64))),
                Err(e) => (EnclaveStart::Done, EnclaveStartAction::Finish(Err(sgxsd_fault(e)))),
            },
            (_, _) => {
                proof {
                    assert(false);
                }
                (EnclaveStart::Done, EnclaveStartAction::Finish(Err(Fault::Panicked)))
            },
        }
    }
}

// ---------------------------------------------------------------------
// Quotes
// ---------------------------------------------------------------------

/// The image of a Java array made from `data`.
pub open spec fn is_image_of(image: JByteArrayImage, data: Seq<u8>) -> bool {
    image.length == data.len() as i32 && image.contents@ == jbytes_of(data)
}

/// What producing the next quote asks the caller to do next.
#[derive(Debug)]
pub enum GetNextQuoteAction {
    /// Read the SPID array, with this shape (any length).
    ReadSpid { shape: ArrayShape },
    /// Read the signature revocation list array, with this shape (any
    /// length).
    ReadSigRl { shape: ArrayShape },
    /// Ask the enclave for its next quote.
    GetQuote { enclave_id: u64, spid: Vec<u8>, sig_rl: Vec<u8> },
    /// Create the Java array to return.
    MakeArray(JByteArrayImage),
    /// The call is over; on success the array made last is its value.
    Finish(Result<(), Fault>),
}

/// What the caller hands back after performing an action.
#[derive(Debug)]
pub enum GetNextQuoteEvent {
    SpidRead(Result<Vec<u8>, Fault>),
    SigRlRead(Result<Vec<u8>, Fault>),
    QuoteMade(Result<Vec<u8>, SgxsdError>),
    ArrayMade(Result<(), JniFailed>),
}

/// The state of a quote request.
#[derive(Debug)]
pub enum GetNextQuote {
    AwaitingSpid { enclave_id: i64 },
    AwaitingSigRl { enclave_id: i64, spid: Vec<u8> },
    AwaitingQuote,
    AwaitingArray,
    Done,
}

impl GetNextQuote {
    pub open spec fn rank(&self) -> nat {
        match *self {
            GetNextQuote::AwaitingSpid { .. } => 4,
            GetNextQuote::AwaitingSigRl { .. } => 3,
            GetNextQuote::AwaitingQuote => 2,
            GetNextQuote::AwaitingArray => 1,
            GetNextQuote::Done => 0,
        }
    }

    pub open spec fn awaits(&self, event: GetNextQuoteEvent) -> bool {
        match (*self, event) {
            (GetNextQuote::AwaitingSpid { .. }, GetNextQuoteEvent::SpidRead(_)) => true,
            (GetNextQuote::AwaitingSigRl { .. }, GetNextQuoteEvent::SigRlRead(_)) => true,
            (GetNextQuote::AwaitingQuote, GetNextQuoteEvent::QuoteMade(_)) => true,
            (GetNextQuote::AwaitingArray, GetNextQuoteEvent::ArrayMade(_)) => true,
            _ => false,
        }
    }

    /// Begins a quote request: the SPID is read first.
    pub fn start(enclave_id: i64) -> (res: (GetNextQuote, GetNextQuoteAction))
        ensures
            res.0 == (GetNextQuote::AwaitingSpid { enclave_id }),
            res.1 == (GetNextQuoteAction::ReadSpid { shape: ArrayShape::Any }),
    {
        (GetNextQuote::AwaitingSpid { enclave_id }, GetNextQuoteAction::ReadSpid { shape: ArrayShape::Any })
    }

    /// Takes the answer to the last action and decides the next one. An
    /// SPID of another length than 16 bytes fails the call with an
    /// `SgxException` for an invalid parameter.
    pub fn step(self, event: GetNextQuoteEvent) -> (res: (GetNextQuote, GetNextQuoteAction))
        requires
            self.awaits(event),
        ensures
            res.0.rank() < self.rank(),
            res.1 is Finish <==> res.0 is Done,
            match (self, event) {
                (GetNextQuote::AwaitingSpid { enclave_id }, GetNextQuoteEvent::SpidRead(r)) => match r {
                    Err(f) => res.1 == GetNextQuoteAction::Finish(Err(f)),
                    Ok(spid) => if spid@.len() == SPID_SIZE {
                        res.0 == (GetNextQuote::AwaitingSigRl { enclave_id, spid }) && res.1 == (
                            GetNextQuoteAction::ReadSigRl { shape: ArrayShape::Any })
                    } else {
                        res.1 matches GetNextQuoteAction::Finish(Err(f)) && is_sgx_fault(
                            f,
                            "spid_length_incorrect"@,
                            SGX_ERROR_INVALID_PARAMETER,
                        )
                    },
                },
                (GetNextQuote::AwaitingSigRl { enclave_id, spid }, GetNextQuoteEvent::SigRlRead(r)) => match r {
                    Err(f) => res.1 == GetNextQuoteAction::Finish(Err(f)),
                    Ok(sig_rl) => res.0 is AwaitingQuote && res.1 == (GetNextQuoteAction::GetQuote {
                        enclave_id: enclave_id as u64,
                        spid,
                        sig_rl,
                    }),
                },
                (GetNextQuote::AwaitingQuote, GetNextQuoteEvent::QuoteMade(r)) => match r {
                    Err(e) => res.1 == GetNextQuoteAction::Finish(Err(spec_sgxsd_fault(e))),
                    Ok(quote) => res.0 is AwaitingArray && (res.1 matches GetNextQuoteAction::MakeArray(
                        image,
                    ) && is_image_of(image, quote@)),
                },
                (GetNextQuote::AwaitingArray, GetNextQuoteEvent::ArrayMade(r)) => match r {
                    Err(_) => res.1 == GetNextQuoteAction::Finish(Err(jni_fault())),
                    Ok(_) => res.1 == GetNextQuoteAction::Finish(Ok(())),
                },
                _ => false,
            },
    {
        match (self, event) {
            (GetNextQuote::AwaitingSpid { enclave_id }, GetNextQuoteEvent::SpidRead(r)) => match r {
                Err(f) => (GetNextQuote::Done, GetNextQuoteAction::Finish(Err(f))),
                Ok(spid) => {
                    if spid.len() != SPID_SIZE {
                        let e = PossibleError::SgxError {
                            name: "spid_length_incorrect",
                            code: SGX_ERROR_INVALID_PARAMETER,
                        };
                        (GetNextQuote::Done, GetNextQuoteAction::Finish(Err(Fault::Raised(e))))
                    } else {
                        (
                            GetNextQuote::AwaitingSigRl { enclave_id, spid },
                            GetNextQuoteAction::ReadSigRl { shape: ArrayShape::Any },
                        )
                    }
                },
            },
            (GetNextQuote::AwaitingSigRl { enclave_id, spid }, GetNextQuoteEvent::SigRlRead(r)) => match r {
                Err(f) => (GetNextQuote::Done, GetNextQuoteAction::Finish(Err(f))),
                Ok(sig_rl) => (
                    GetNextQuote::AwaitingQuote,
                    GetNextQuoteAction::GetQuote { enclave_id: enclave_handle(enclave_id), spid, sig_rl },
                ),
            },
            (GetNextQuote::AwaitingQuote, GetNextQuoteEvent::QuoteMade(r)) => match r {
                Err(e) => (GetNextQuote::Done, GetNextQuoteAction::Finish(Err(sgxsd_fault(e)))),
                Ok(quote) => (
                    GetNextQuote::AwaitingArray,
                    GetNextQuoteAction::MakeArray(jni_array_image(quote.as_slice())),
                ),
            },
            (GetNextQuote::AwaitingArray, GetNextQuoteEvent::ArrayMade(r)) => match r {
                Err(_) => (
                    GetNextQuote::Done,
                    GetNextQuoteAction::Finish(Err(Fault::Raised(PossibleError::AlreadyThrown))),
                ),
                Ok(_) => (GetNextQuote::Done, GetNextQuoteAction::Finish(Ok(()))),
            },
            (_, _) => {
                proof {
                    assert(false);
                }
                (GetNextQuote::Done, GetNextQuoteAction::Finish(Err(Fault::Panicked)))
            },
        }
    }
}

// ---------------------------------------------------------------------
// Request negotiation
// ---------------------------------------------------------------------

/// What a request negotiation asks the caller to do next.
#[derive(Debug)]
pub enum NegotiateAction {
    /// Read the client's public key array, with this shape (any length).
    ReadClientPubkey { shape: ArrayShape },
    /// Ask the enclave to negotiate with this client key.
    Negotiate { enclave_id: u64, client_pubkey: Vec<u8> },
    /// Create a Java array of the response.
    MakeArray(JByteArrayImage),
    /// Create the `SgxRequestNegotiationResponse` from the five arrays
    /// made, in the order they were made.
    NewResponse,
    /// The call is over; on success the response made is its value.
    Finish(Result<(), Fault>),
}

/// What the caller hands back after performing an action.
#[derive(Debug)]
pub enum NegotiateEvent {
    PubkeyRead(Result<Vec<u8>, Fault>),
    Negotiated(Result<NegotiationResponse, SgxsdError>),
    ArrayMade(Result<(), JniFailed>),
    ResponseMade(Result<(), JniFailed>),
}

/// The state of a request negotiation.
#[derive(Debug)]
pub enum Negotiate {
    AwaitingPubkey { enclave_id: i64 },
    AwaitingNegotiation,
    /// Waiting for an array; `remaining` holds the arrays still to make,
    /// the next one last.
    AwaitingArray { remaining: Vec<Vec<u8>> },
    AwaitingResponse,
    Done,
}

/// Class of the negotiation response.
pub const SGX_NEGOTIATION_RESPONSE_CLASS: &'static str = "org/whispersystems/contactdiscovery/enclave/SgxRequestNegotiationResponse";

/// Constructor signature of the negotiation response: five byte arrays.
pub const SGX_NEGOTIATION_RESPONSE_CSTOR: &'static str = "([B[B[B[B[B)V";

impl Negotiate {
    pub open spec fn rank(&self) -> nat {
        match *self {
            Negotiate::AwaitingPubkey { .. } => 8,
            Negotiate::AwaitingNegotiation => 7,
            Negotiate::AwaitingArray { remaining } => 2 + remaining@.len(),
            Negotiate::AwaitingResponse => 1,
            Negotiate::Done => 0,
        }
    }

    pub open spec fn awaits(&self, event: NegotiateEvent) -> bool {
        match (*self, event) {
            (Negotiate::AwaitingPubkey { .. }, NegotiateEvent::PubkeyRead(_)) => true,
            (Negotiate::AwaitingNegotiation, NegotiateEvent::Negotiated(_)) => true,
            (Negotiate::AwaitingArray { .. }, NegotiateEvent::ArrayMade(_)) => true,
            (Negotiate::AwaitingResponse, NegotiateEvent::ResponseMade(_)) => true,
            _ => false,
        }
    }

    /// Begins a negotiation: the client's key is read first.
    pub fn start(enclave_id: i64) -> (res: (Negotiate, NegotiateAction))
        ensures
            res.0 == (Negotiate::AwaitingPubkey { enclave_id }),
            res.1 == (NegotiateAction::ReadClientPubkey { shape: ArrayShape::Any }),
    {
        (Negotiate::AwaitingPubkey { enclave_id }, NegotiateAction::ReadClientPubkey { shape: ArrayShape::Any })
    }

    /// Takes the answer to the last action and decides the next one. A key
    /// whose length, as a `u32`, is not 32 fails the call with an
    /// `SgxException` for an invalid parameter. The response becomes five
    /// Java arrays: the server's static key, its ephemeral key, then the
    /// data, IV and tag of the encrypted pending request id.
    pub fn step(self, event: NegotiateEvent) -> (res: (Negotiate, NegotiateAction))
        requires
            self.awaits(event),
        ensures
            res.0.rank() < self.rank(),
            res.1 is Finish <==> res.0 is Done,
            match (self, event) {
                (Negotiate::AwaitingPubkey { enclave_id }, NegotiateEvent::PubkeyRead(r)) => match r {
                    Err(f) => res.1 == NegotiateAction::Finish(Err(f)),
                    Ok(key) => if key@.len() as u32 != SGXSD_CURVE25519_KEY_SIZE {
                        res.1 matches NegotiateAction::Finish(Err(f)) && is_sgx_fault(
                            f,
                            "negotiate_request_client_pubkey_copy"@,
                            SGX_ERROR_INVALID_PARAMETER,
                        )
                    } else if key@.len() != 32 {
                        res.1 == NegotiateAction::Finish(Err(Fault::Panicked))
                    } else {
                        res.0 is AwaitingNegotiation && res.1 == (NegotiateAction::Negotiate {
                            enclave_id: enclave_id as u64,
                            client_pubkey: key,
                        })
                    },
                },
                (Negotiate::AwaitingNegotiation, NegotiateEvent::Negotiated(r)) => match r {
                    Err(e) => res.1 == NegotiateAction::Finish(Err(spec_sgxsd_fault(e))),
                    Ok(resp) => (res.0 matches Negotiate::AwaitingArray { remaining } && remaining@ == seq![
                        resp.encrypted_pending_request_id.mac,
                        resp.encrypted_pending_request_id.iv,
                        resp.encrypted_pending_request_id.data,
                        resp.server_ephemeral_pubkey,
                    ]) && (res.1 matches NegotiateAction::MakeArray(image) && is_image_of(
                        image,
                        resp.server_static_pubkey@,
                    )),
                },
                (Negotiate::AwaitingArray { remaining }, NegotiateEvent::ArrayMade(r)) => match r {
                    Err(_) => res.1 == NegotiateAction::Finish(Err(jni_fault())),
                    Ok(_) => if remaining@.len() == 0 {
                        res.0 is AwaitingResponse && res.1 is NewResponse
                    } else {
                        (res.0 matches Negotiate::AwaitingArray { remaining: rest } && rest@
                            == remaining@.drop_last()) && (
                        res.1 matches NegotiateAction::MakeArray(image) && is_image_of(
                            image,
                            remaining@.last()@,
                        ))
                    },
                },
                (Negotiate::AwaitingResponse, NegotiateEvent::ResponseMade(r)) => match r {
                    Err(_) => res.1 == NegotiateAction::Finish(Err(jni_fault())),
                    Ok(_) => res.1 == NegotiateAction::Finish(Ok(())),
                },
                _ => false,
            },
    {
        match (self, event) {
            (Negotiate::AwaitingPubkey { enclave_id }, NegotiateEvent::PubkeyRead(r)) => match r {
                Err(f) => (Negotiate::Done, NegotiateAction::Finish(Err(f))),
                Ok(key) => {
                    if key.len() as u32 != SGXSD_CURVE25519_KEY_SIZE {
                        let e = PossibleError::SgxError {
                            name: "negotiate_request_client_pubkey_copy",
                            code: SGX_ERROR_INVALID_PARAMETER,
                        };
                        (Negotiate::Done, NegotiateAction::Finish(Err(Fault::Raised(e))))
                    } else if key.len() != 32 {
                        (Negotiate::Done, NegotiateAction::Finish(Err(Fault::Panicked)))
                    } else {
                        (
                            Negotiate::AwaitingNegotiation,
                            NegotiateAction::Negotiate {
                                enclave_id: enclave_handle(enclave_id),
                                client_pubkey: key,
                            },
                        )
                    }
                },
            },
            (Negotiate::AwaitingNegotiation, NegotiateEvent::Negotiated(r)) => match r {
                Err(e) => (Negotiate::Done, NegotiateAction::Finish(Err(sgxsd_fault(e)))),
                Ok(resp) => {
                    let image = jni_array_image(resp.server_static_pubkey.as_slice());
                    let mut remaining: Vec<Vec<u8>> = Vec::new();
                    remaining.push(resp.encrypted_pending_request_id.mac);
                    remaining.push(resp.encrypted_pending_request_id.iv);
                    remaining.push(resp.encrypted_pending_request_id.data);
                    remaining.push(resp.server_ephemeral_pubkey);
                    (Negotiate::AwaitingArray { remaining }, NegotiateAction::MakeArray(image))
                },
            },
            (Negotiate::AwaitingArray { remaining }, NegotiateEvent::ArrayMade(r)) => match r {
                Err(_) => (
                    Negotiate::Done,
                    NegotiateAction::Finish(Err(Fault::Raised(PossibleError::AlreadyThrown))),
                ),
                Ok(_) => {
                    let mut remaining = remaining;
                    match remaining.pop() {
                        None => (Negotiate::AwaitingResponse, NegotiateAction::NewResponse),
                        Some(next) => {
                            let image = jni_array_image(next.as_slice());
                            (Negotiate::AwaitingArray { remaining }, NegotiateAction::MakeArray(image))
                        },
                    }
                },
            },
            (Negotiate::AwaitingResponse, NegotiateEvent::ResponseMade(r)) => match r {
                Err(_) => (
                    Negotiate::Done,
                    NegotiateAction::Finish(Err(Fault::Raised(PossibleError::AlreadyThrown))),
                ),
                Ok(_) => (Negotiate::Done, NegotiateAction::Finish(Ok(()))),
            },
            (_, _) => {
                proof {
                    assert(false);
                }
                (Negotiate::Done, NegotiateAction::Finish(Err(Fault::Panicked)))
            },
        }
    }
}

// ---------------------------------------------------------------------
// Server start
// ---------------------------------------------------------------------

/// The arguments of a server start: the maximum number of phones per
/// query (the Java `int` taken as a `u32`) and no rate-limit states.
pub fn server_init_args(max_query_phones: i32) -> (res: ServerInitArgs)
    ensures
        res.max_query_phones == max_query_phones as u32,
        res.max_ratelimit_states == 0,
{
    ServerInitArgs { max_query_phones: max_query_phones as u32, max_ratelimit_states: 0 }
}

// ---------------------------------------------------------------------
// Attestation status
// ---------------------------------------------------------------------

/// What reporting the attestation status asks the caller to do next.
#[derive(Debug)]
pub enum ReportAttestationAction {
    /// Read the platform info array, with this shape (exactly
    /// `SGX_PLATFORM_INFO_SIZE` bytes).
    ReadPlatformInfo { shape: ArrayShape },
    /// Report the status to the attestation service.
    Report { platform_info: Vec<u8>, attestation_successful: bool },
    /// The call is over, with the update flags on success.
    Finish(Result<i32, Fault>),
}

/// What the caller hands back after performing an action.
#[derive(Debug)]
pub enum ReportAttestationEvent {
    PlatformInfoRead(Result<Vec<u8>, Fault>),
    Reported(Result<AttestationStatus, SgxsdError>),
}

/// The state of an attestation status report.
#[derive(Debug)]
pub enum ReportAttestation {
    AwaitingPlatformInfo { attestation_successful: bool },
    AwaitingReport,
    Done,
}

/// The message of the error for a null platform info array.
pub open spec fn null_platform_info_msg() -> Seq<char> {
    "platform_info array cannot be null"@
}

impl ReportAttestation {
    pub open spec fn rank(&self) -> nat {
        match *self {
            ReportAttestation::AwaitingPlatformInfo { .. } => 2,
            ReportAttestation::AwaitingReport => 1,
            ReportAttestation::Done => 0,
        }
    }

    /// The event answers the last action; a platform info that was read
    /// has the length asked for.
    pub open spec fn awaits(&self, event: ReportAttestationEvent) -> bool {
        match (*self, event) {
            (
                ReportAttestation::AwaitingPlatformInfo { .. },
                ReportAttestationEvent::PlatformInfoRead(r),
            ) => r matches Ok(info) ==> info@.len() == SGX_PLATFORM_INFO_SIZE,
            (ReportAttestation::AwaitingReport, ReportAttestationEvent::Reported(_)) => true,
            _ => false,
        }
    }

    /// Begins a report: a null platform info fails the call with a
    /// `NullPointerException`; otherwise the info is read. The attestation
    /// counts as successful when the Java flag is not 0.
    pub fn start(platform_info_is_null: bool, attestation_successful: u8) -> (res: (
        ReportAttestation,
        ReportAttestationAction,
    ))
        ensures
            platform_info_is_null ==> res.0 is Done && (res.1 matches ReportAttestationAction::Finish(
                Err(f),
            ) && is_generic_fault(f, NULL_POINTER_EXCEPTION_CLASS@, null_platform_info_msg())),
            !platform_info_is_null ==> res.0 == (ReportAttestation::AwaitingPlatformInfo {
                attestation_successful: attestation_successful != 0,
            }) && res.1 == (ReportAttestationAction::ReadPlatformInfo {
                shape: ArrayShape::Exact(SGX_PLATFORM_INFO_SIZE),
            }),
    {
        if platform_info_is_null {
            let e = generic_exception(
                NULL_POINTER_EXCEPTION_CLASS,
                "platform_info array cannot be null",
            );
            (ReportAttestation::Done, ReportAttestationAction::Finish(Err(Fault::Raised(e))))
        } else {
            (
                ReportAttestation::AwaitingPlatformInfo {
                    attestation_successful: attestation_successful != 0,
                },
                ReportAttestationAction::ReadPlatformInfo {
                    shape: ArrayShape::Exact(SGX_PLATFORM_INFO_SIZE),
                },
            )
        }
    }

    /// Takes the answer to the last action and decides the next one; the
    /// result of a report is its update flags.
    pub fn step(self, event: ReportAttestationEvent) -> (res: (ReportAttestation, ReportAttestationAction))
        requires
            self.awaits(event),
        ensures
            res.0.rank() < self.rank(),
            res.1 is Finish <==> res.0 is Done,
            match (self, event) {
                (
                    ReportAttestation::AwaitingPlatformInfo { attestation_successful },
                    ReportAttestationEvent::PlatformInfoRead(r),
                ) => match r {
                    Err(f) => res.1 == ReportAttestationAction::Finish(Err(f)),
                    Ok(info) => res.0 is AwaitingReport && res.1 == (ReportAttestationAction::Report {
                        platform_info: info,
                        attestation_successful,
                    }) && info@.len() == SGX_PLATFORM_INFO_SIZE,
                },
                (ReportAttestation::AwaitingReport, ReportAttestationEvent::Reported(r)) => match r {
                    Err(e) => res.1 == ReportAttestationAction::Finish(Err(spec_sgxsd_fault(e))),
                    Ok(status) => res.1 == ReportAttestationAction::Finish(
                        Ok(spec_update_flags(status) as i32),
                    ),
                },
                _ => false,
            },
    {
        match (self, event) {
            (
                ReportAttestation::AwaitingPlatformInfo { attestation_successful },
                ReportAttestationEvent::PlatformInfoRead(r),
            ) => match r {
                Err(f) => (ReportAttestation::Done, ReportAttestationAction::Finish(Err(f))),
                Ok(info) => (
                    ReportAttestation::AwaitingReport,
                    ReportAttestationAction::Report { platform_info: info, attestation_successful },
                ),
            },
            (ReportAttestation::AwaitingReport, ReportAttestationEvent::Reported(r)) => match r {
                Err(e) => (ReportAttestation::Done, ReportAttestationAction::Finish(Err(sgxsd_fault(e)))),
                Ok(status) => {
                    let flags = update_flags(&status);
                    (ReportAttestation::Done, ReportAttestationAction::Finish(Ok(flags)))
                },
            },
            (_, _) => {
                proof {
                    assert(false);
                }
                (ReportAttestation::Done, ReportAttestationAction::Finish(Err(Fault::Panicked)))
            },
        }
    }
}

} // verus!
