//! Native calls that drive the contact discovery server inside the
//! enclave: a server call with its encrypted query, the reply the enclave
//! sends back later, and the server stop with its phone and UUID buffers.

use vstd::prelude::*;
use crate::arrays::{ArrayShape, JByteArrayImage, jni_array_image};
use crate::enclave::{enclave_handle, is_image_of};
use crate::error::{
    enclave_outcome, Fault, generic_exception, is_generic_fault, is_sgx_fault, jni_fault, JniFailed,
    NULL_POINTER_EXCEPTION_CLASS, PossibleError, RUNTIME_EXCEPTION_CLASS, SgxsdError,
    spec_enclave_outcome,
};
use crate::sgxsd::{
    EncryptedMsg, MessageHeader, MessageReply, PendingRequestId, PENDING_REQUEST_ID_DATA_SIZE,
    PENDING_REQUEST_ID_SIZE, PHONE_SIZE, SGXSD_AES_GCM_IV_SIZE, SGXSD_AES_GCM_MAC_SIZE,
    SGXSD_SHA256_HASH_SIZE, ServerCallArgs, UUID_SIZE,
};

verus! {

/// Class of the arguments object of a server call.
pub const NATIVE_CALL_ARGS_CLASS: &'static str = "org/whispersystems/contactdiscovery/enclave/SgxEnclave$NativeServerCallArgs";

/// Type signature of a `byte[]` field.
pub const BYTE_ARRAY_SIG: &'static str = "[B";

/// Name of the `int` field holding the number of phones in the query.
pub const QUERY_PHONE_COUNT_FIELD: &'static str = "query_phone_count";

/// Type signature of an `int` field.
pub const INT_SIG: &'static str = "I";

/// Name of the callback method that receives the enclave's reply.
pub const RECEIVE_SERVER_REPLY_METHOD: &'static str = "receiveServerReply";

/// Signature of the reply callback: data, IV and tag arrays.
pub const RECEIVE_SERVER_REPLY_SIG: &'static str = "([B[B[B)V";

// ---------------------------------------------------------------------
// Server call
// ---------------------------------------------------------------------

/// The `byte[]` fields of the server call arguments, in the order they are
/// read.
#[derive(Debug)]
pub enum ArgsField {
    MsgData,
    QueryData,
    MsgIv,
    MsgMac,
    QueryIv,
    QueryMac,
    QueryCommitment,
    PendingRequestId,
}

/// The Java name of a field.
pub open spec fn field_name(f: ArgsField) -> Seq<char> {
    match f {
        ArgsField::MsgData => "msg_data"@,
        ArgsField::QueryData => "query_data"@,
        ArgsField::MsgIv => "msg_iv"@,
        ArgsField::MsgMac => "msg_mac"@,
        ArgsField::QueryIv => "query_iv"@,
        ArgsField::QueryMac => "query_mac"@,
        ArgsField::QueryCommitment => "query_commitment"@,
        ArgsField::PendingRequestId => "pending_request_id"@,
    }
}

/// The length a field must have; `None` for the message and the query,
/// which may have any length.
pub open spec fn field_len(f: ArgsField) -> Option<nat> {
    match f {
        ArgsField::MsgData => None,
        ArgsField::QueryData => None,
        ArgsField::MsgIv => Some(SGXSD_AES_GCM_IV_SIZE as nat),
        ArgsField::MsgMac => Some(SGXSD_AES_GCM_MAC_SIZE as nat),
        ArgsField::QueryIv => Some(SGXSD_AES_GCM_IV_SIZE as nat),
        ArgsField::QueryMac => Some(SGXSD_AES_GCM_MAC_SIZE as nat),
        ArgsField::QueryCommitment => Some(SGXSD_SHA256_HASH_SIZE as nat),
        ArgsField::PendingRequestId => Some(PENDING_REQUEST_ID_SIZE as nat),
    }
}

/// The shape a field is read with.
pub open spec fn spec_field_shape(f: ArgsField) -> ArrayShape {
    match field_len(f) {
        None => ArrayShape::Any,
        Some(n) => ArrayShape::Exact(n as usize),
    }
}

/// Where a field stands in the sequence of reads (the phone count is read
/// between the message tag and the query IV).
pub open spec fn field_position(f: ArgsField) -> nat {
    match f {
        ArgsField::MsgData => 0,
        ArgsField::QueryData => 1,
        ArgsField::MsgIv => 2,
        ArgsField::MsgMac => 3,
        ArgsField::QueryIv => 5,
        ArgsField::QueryMac => 6,
        ArgsField::QueryCommitment => 7,
        ArgsField::PendingRequestId => 8,
    }
}

impl ArgsField {
    /// The Java name of the field.
    pub fn name(&self) -> (res: &'static str)
        ensures
            res@ == field_name(*self),
    {
        match self {
            ArgsField::MsgData => "msg_data",
            ArgsField::QueryData => "query_data",
            ArgsField::MsgIv => "msg_iv",
            ArgsField::MsgMac => "msg_mac",
            ArgsField::QueryIv => "query_iv",
            ArgsField::QueryMac => "query_mac",
            ArgsField::QueryCommitment => "query_commitment",
            ArgsField::PendingRequestId => "pending_request_id",
        }
    }

    /// The shape the field is read with.
    pub fn shape(&self) -> (res: ArrayShape)
        ensures
            res == spec_field_shape(*self),
    {
        match self {
            ArgsField::MsgData => ArrayShape::Any,
            ArgsField::QueryData => ArrayShape::Any,
            ArgsField::MsgIv => ArrayShape::Exact(SGXSD_AES_GCM_IV_SIZE),
            ArgsField::MsgMac => ArrayShape::Exact(SGXSD_AES_GCM_MAC_SIZE),
            ArgsField::QueryIv => ArrayShape::Exact(SGXSD_AES_GCM_IV_SIZE),
            ArgsField::QueryMac => ArrayShape::Exact(SGXSD_AES_GCM_MAC_SIZE),
            ArgsField::QueryCommitment => ArrayShape::Exact(SGXSD_SHA256_HASH_SIZE),
            ArgsField::PendingRequestId => ArrayShape::Exact(PENDING_REQUEST_ID_SIZE),
        }
    }
}

/// What has been read so far of a server call's arguments.
#[derive(Debug)]
pub struct CallArgsRead {
    pub enclave_id: i64,
    pub state_handle: i64,
    pub msg_data: Vec<u8>,
    pub query_data: Vec<u8>,
    pub msg_iv: Vec<u8>,
    pub msg_mac: Vec<u8>,
    pub query_phone_count: i32,
    pub query_iv: Vec<u8>,
    pub query_mac: Vec<u8>,
    pub query_commitment: Vec<u8>,
}

/// `got` with the contents of field `f` set to `bytes` (the pending
/// request id is not kept: it is taken apart at once).
pub open spec fn spec_store(got: CallArgsRead, f: ArgsField, bytes: Vec<u8>) -> CallArgsRead {
    match f {
        ArgsField::MsgData => CallArgsRead { msg_data: bytes, ..got },
        ArgsField::QueryData => CallArgsRead { query_data: bytes, ..got },
        ArgsField::MsgIv => CallArgsRead { msg_iv: bytes, ..got },
        ArgsField::MsgMac => CallArgsRead { msg_mac: bytes, ..got },
        ArgsField::QueryIv => CallArgsRead { query_iv: bytes, ..got },
        ArgsField::QueryMac => CallArgsRead { query_mac: bytes, ..got },
        ArgsField::QueryCommitment => CallArgsRead { query_commitment: bytes, ..got },
        ArgsField::PendingRequestId => got,
    }
}

/// Storing a field changes that field only: the ids and the phone count
/// are kept, and every array field other than `f` keeps its contents.
pub proof fn lemma_store_changes_only_its_field(got: CallArgsRead, f: ArgsField, bytes: Vec<u8>)
    ensures
        stores_only(got, f, bytes, spec_store(got, f, bytes)),
{
}

/// `res` is `got` with field `f` set to `bytes` and nothing else changed
/// (the pending request id is not kept, so storing it changes nothing).
pub open spec fn stores_only(got: CallArgsRead, f: ArgsField, bytes: Vec<u8>, res: CallArgsRead) -> bool {
    &&& res.enclave_id == got.enclave_id
    &&& res.state_handle == got.state_handle
    &&& res.query_phone_count == got.query_phone_count
    &&& res.msg_data == (if f is MsgData { bytes } else { got.msg_data })
    &&& res.query_data == (if f is QueryData { bytes } else { got.query_data })
    &&& res.msg_iv == (if f is MsgIv { bytes } else { got.msg_iv })
    &&& res.msg_mac == (if f is MsgMac { bytes } else { got.msg_mac })
    &&& res.query_iv == (if f is QueryIv { bytes } else { got.query_iv })
    &&& res.query_mac == (if f is QueryMac { bytes } else { got.query_mac })
    &&& res.query_commitment == (if f is QueryCommitment { bytes } else { got.query_commitment })
}

fn store(got: CallArgsRead, f: &ArgsField, bytes: Vec<u8>) -> (res: CallArgsRead)
    ensures
        res == spec_store(got, *f, bytes),
        stores_only(got, *f, bytes, res),
{
    let mut got = got;
    match f {
        ArgsField::MsgData => got.msg_data = bytes,
        ArgsField::QueryData => got.query_data = bytes,
        ArgsField::MsgIv => got.msg_iv = bytes,
        ArgsField::MsgMac => got.msg_mac = bytes,
        ArgsField::QueryIv => got.query_iv = bytes,
        ArgsField::QueryMac => got.query_mac = bytes,
        ArgsField::QueryCommitment => got.query_commitment = bytes,
        ArgsField::PendingRequestId => {},
    }
    got
}

/// The field read after `f`, when it is an array field; after the message
/// tag comes the phone count, after the pending request id nothing.
pub open spec fn next_field(f: ArgsField) -> Option<ArgsField> {
    match f {
        ArgsField::MsgData => Some(ArgsField::QueryData),
        ArgsField::QueryData => Some(ArgsField::MsgIv),
        ArgsField::MsgIv => Some(ArgsField::MsgMac),
        ArgsField::MsgMac => None,
        ArgsField::QueryIv => Some(ArgsField::QueryMac),
        ArgsField::QueryMac => Some(ArgsField::QueryCommitment),
        ArgsField::QueryCommitment => Some(ArgsField::PendingRequestId),
        ArgsField::PendingRequestId => None,
    }
}

/// Copies `src[start..end]` into a buffer of `len` bytes. As with
/// `clone_from_slice`, the copy only happens when the range has exactly
/// `len` bytes; otherwise it is refused (`None`), where the copy would
/// panic.
pub fn copy_range(src: &[u8], start: usize, end: usize, len: usize) -> (res: Option<Vec<u8>>)
    requires
        start <= end <= src@.len(),
    ensures
        res is Some <==> end - start == len,
        res matches Some(v) ==> v@ == src@.subrange(start as int, end as int),
{
    if end - start != len {
        return None;
    }
    let mut out: Vec<u8> = Vec::new();
    let mut i: usize = start;
    while i < end
        invariant
            start <= i <= end <= src@.len(),
            out@ == src@.subrange(start as int, i as int),
        decreases end - i,
    {
        out.push(src[i]);
        proof {
            assert(src@.subrange(start as int, i + 1) =~= src@.subrange(start as int, i as int).push(src@[i as int]));
        }
        i = i + 1;
    }
    Some(out)
}

/// Takes a pending request id apart, as the enclave lays it out: its data
/// in bytes 0..8, its IV in bytes 8..20 and its tag in bytes 20..36.
pub fn split_pending_request_id(bytes: &[u8]) -> (res: PendingRequestId)
    requires
        bytes@.len() == PENDING_REQUEST_ID_SIZE,
    ensures
        is_pending_request_id_of(res, bytes@),
{
    let data_end: usize = PENDING_REQUEST_ID_DATA_SIZE;
    let iv_end: usize = data_end + SGXSD_AES_GCM_IV_SIZE;
    let mac_end: usize = iv_end + SGXSD_AES_GCM_MAC_SIZE;
    let data = copy_range(bytes, 0, data_end, PENDING_REQUEST_ID_DATA_SIZE).unwrap();
    let iv = copy_range(bytes, data_end, iv_end, SGXSD_AES_GCM_IV_SIZE).unwrap();
    let mac = copy_range(bytes, iv_end, mac_end, SGXSD_AES_GCM_MAC_SIZE).unwrap();
    PendingRequestId { data, iv, mac }
}

/// `id` is the pending request id laid out in `bytes`.
pub open spec fn is_pending_request_id_of(id: PendingRequestId, bytes: Seq<u8>) -> bool {
    &&& id.data@ == bytes.subrange(0, 8)
    &&& id.iv@ == bytes.subrange(8, 20)
    &&& id.mac@ == bytes.subrange(20, 36)
}

/// `call` is the enclave call made from the arguments `got` and the
/// pending request id laid out in `id_bytes`.
pub open spec fn is_enclave_call(call: EnclaveCall, got: CallArgsRead, id_bytes: Seq<u8>) -> bool {
    &&& call.enclave_id == got.enclave_id as u64
    &&& call.state_handle == got.state_handle as u64
    &&& call.args.query_phone_count == got.query_phone_count as u32
    &&& call.args.query.iv == got.query_iv
    &&& call.args.query.mac == got.query_mac
    &&& call.args.query.data == got.query_data
    &&& call.args.query_commitment == got.query_commitment
    &&& call.header.iv == got.msg_iv
    &&& call.header.mac == got.msg_mac
    &&& is_pending_request_id_of(call.header.pending_request_id, id_bytes)
    &&& call.msg_data == got.msg_data
}

/// What a server call asks the caller to do next.
#[derive(Debug)]
pub enum ServerCallAction {
    /// Check that the arguments object is a `NativeServerCallArgs`.
    CheckArgsClass,
    /// Fetch the `byte[]` field `name` of the arguments and tell whether it
    /// is null.
    GetArrayField { name: &'static str },
    /// Read the array fetched last, with this shape.
    ReadArray { shape: ArrayShape },
    /// Fetch the `query_phone_count` field.
    GetPhoneCount,
    /// Make the reply handler: a global reference to the callback and an
    /// executor attached to the JVM.
    SetUpReply,
    /// Hand the call to the enclave, with the reply handler.
    CallEnclave(EnclaveCall),
    /// The call is over.
    Finish(Result<(), Fault>),
}

/// What the caller hands back after performing an action.
#[derive(Debug)]
pub enum ServerCallEvent {
    ArgsClassChecked(Result<bool, JniFailed>),
    /// Whether the fetched field is null.
    FieldFetched(Result<bool, JniFailed>),
    ArrayRead(Result<Vec<u8>, Fault>),
    PhoneCountRead(Result<i32, JniFailed>),
    ReplySetUp(Result<(), JniFailed>),
    EnclaveCalled(Result<(), SgxsdError>),
}

/// The call the enclave is to make, once every argument has been read.
#[derive(Debug)]
pub struct EnclaveCall {
    pub enclave_id: u64,
    pub state_handle: u64,
    pub args: ServerCallArgs,
    pub header: MessageHeader,
    pub msg_data: Vec<u8>,
}

/// The state of a server call.
#[derive(Debug)]
pub enum ServerCall {
    AwaitingArgsClass { got: CallArgsRead },
    AwaitingField { field: ArgsField, got: CallArgsRead },
    AwaitingArray { field: ArgsField, got: CallArgsRead },
    AwaitingPhoneCount { got: CallArgsRead },
    AwaitingReplySetUp { call: EnclaveCall },
    AwaitingEnclave,
    Done,
}

/// The message of the error for arguments of the wrong class.
pub open spec fn wrong_args_msg() -> Seq<char> {
    "server_call called with an incorrect callback arguments type"@
}

/// The message of the error for a null field.
pub open spec fn null_field_msg(name: Seq<char>) -> Seq<char> {
    name + " was null"@
}

impl ServerCall {
    pub open spec fn rank(&self) -> nat {
        match *self {
            ServerCall::AwaitingArgsClass { .. } => 22,
            ServerCall::AwaitingField { field, .. } => (21 - 2 * field_position(field)) as nat,
            ServerCall::AwaitingArray { field, .. } => (20 - 2 * field_position(field)) as nat,
            ServerCall::AwaitingPhoneCount { .. } => 13,
            ServerCall::AwaitingReplySetUp { .. } => 2,
            ServerCall::AwaitingEnclave => 1,
            ServerCall::Done => 0,
        }
    }

    /// The event answers the last action; an array read with an exact
    /// length has that length.
    pub open spec fn awaits(&self, event: ServerCallEvent) -> bool {
        match (*self, event) {
            (ServerCall::AwaitingArgsClass { .. }, ServerCallEvent::ArgsClassChecked(_)) => true,
            (ServerCall::AwaitingField { .. }, ServerCallEvent::FieldFetched(_)) => true,
            (ServerCall::AwaitingArray { field, .. }, ServerCallEvent::ArrayRead(r)) => r matches Ok(
                bytes,
            ) ==> (field_len(field) matches Some(n) ==> bytes@.len() == n),
            (ServerCall::AwaitingPhoneCount { .. }, ServerCallEvent::PhoneCountRead(_)) => true,
            (ServerCall::AwaitingReplySetUp { .. }, ServerCallEvent::ReplySetUp(_)) => true,
            (ServerCall::AwaitingEnclave, ServerCallEvent::EnclaveCalled(_)) => true,
            _ => false,
        }
    }

    /// Begins a server call: the class of the arguments is checked first.
    pub fn start(enclave_id: i64, state_handle: i64) -> (res: (ServerCall, ServerCallAction))
        ensures
            res.0 matches ServerCall::AwaitingArgsClass { got } && got.enclave_id == enclave_id
                && got.state_handle == state_handle,
            res.1 is CheckArgsClass,
    {
        let got = CallArgsRead {
            enclave_id,
            state_handle,
            msg_data: Vec::new(),
            query_data: Vec::new(),
            msg_iv: Vec::new(),
            msg_mac: Vec::new(),
            query_phone_count: 0,
            query_iv: Vec::new(),
            query_mac: Vec::new(),
            query_commitment: Vec::new(),
        };
        (ServerCall::AwaitingArgsClass { got }, ServerCallAction::CheckArgsClass)
    }

    /// Takes the answer to the last action and decides the next one.
    ///
    /// The fields are read in order; a null field fails the call with a
    /// `NullPointerException` naming it, an empty message or query with an
    /// `SgxException` of code 0. Once every field is read, the pending
    /// request id is taken apart (see `split_pending_request_id`) and the
    /// enclave call is made ready from what was read; the reply handler is
    /// set up, then the enclave is called once with it.
    pub fn step(self, event: ServerCallEvent) -> (res: (ServerCall, ServerCallAction))
        requires
            self.awaits(event),
        ensures
            res.0.rank() < self.rank(),
            res.1 is Finish <==> res.0 is Done,
            match (self, event) {
                (ServerCall::AwaitingArgsClass { got }, ServerCallEvent::ArgsClassChecked(r)) => match r {
                    Err(_) => res.1 == ServerCallAction::Finish(Err(jni_fault())),
                    Ok(false) => res.1 matches ServerCallAction::Finish(Err(f)) && is_generic_fault(
                        f,
                        RUNTIME_EXCEPTION_CLASS@,
                        wrong_args_msg(),
                    ),
                    Ok(true) => res.0 == (ServerCall::AwaitingField { field: ArgsField::MsgData, got })
                        && (res.1 matches ServerCallAction::GetArrayField { name } && name@ == "msg_data"@),
                },
                (ServerCall::AwaitingField { field, got }, ServerCallEvent::FieldFetched(r)) => match r {
                    Err(_) => res.1 == ServerCallAction::Finish(Err(jni_fault())),
                    Ok(true) => res.1 matches ServerCallAction::Finish(Err(f)) && is_generic_fault(
                        f,
                        NULL_POINTER_EXCEPTION_CLASS@,
                        null_field_msg(field_name(field)),
                    ),
                    Ok(false) => res.0 == (ServerCall::AwaitingArray { field, got }) && res.1 == (
                    ServerCallAction::ReadArray { shape: spec_field_shape(field) }),
                },
                (ServerCall::AwaitingArray { field, got }, ServerCallEvent::ArrayRead(r)) => match r {
                    Err(f) => res.1 == ServerCallAction::Finish(Err(f)),
                    Ok(bytes) => if field is MsgData && bytes@.len() == 0 {
                        res.1 matches ServerCallAction::Finish(Err(f)) && is_sgx_fault(f, "bad_msg_data"@, 0)
                    } else if field is QueryData && bytes@.len() == 0 {
                        res.1 matches ServerCallAction::Finish(Err(f)) && is_sgx_fault(f, "bad_query_data"@, 0)
                    } else if field is PendingRequestId {
                        (res.0 matches ServerCall::AwaitingReplySetUp { call } && is_enclave_call(
                            call,
                            got,
                            bytes@,
                        )) && res.1 is SetUpReply
                    } else if field is MsgMac {
                        res.0 == (ServerCall::AwaitingPhoneCount { got: spec_store(got, field, bytes) })
                            && res.1 is GetPhoneCount
                    } else {
                        next_field(field) matches Some(next) && res.0 == (ServerCall::AwaitingField {
                            field: next,
                            got: spec_store(got, field, bytes),
                        }) && (res.1 matches ServerCallAction::GetArrayField { name } && name@
                            == field_name(next))
                    },
                },
                (ServerCall::AwaitingPhoneCount { got }, ServerCallEvent::PhoneCountRead(r)) => match r {
                    Err(_) => res.1 == ServerCallAction::Finish(Err(jni_fault())),
                    Ok(count) => res.0 == (ServerCall::AwaitingField {
                        field: ArgsField::QueryIv,
                        got: CallArgsRead { query_phone_count: count, ..got },
                    }) && (res.1 matches ServerCallAction::GetArrayField { name } && name@ == "query_iv"@),
                },
                (ServerCall::AwaitingReplySetUp { call }, ServerCallEvent::ReplySetUp(r)) => match r {
                    Err(_) => res.1 == ServerCallAction::Finish(Err(jni_fault())),
                    Ok(_) => res.0 is AwaitingEnclave && res.1 == ServerCallAction::CallEnclave(call),
                },
                (ServerCall::AwaitingEnclave, ServerCallEvent::EnclaveCalled(r)) => res.1
                    == ServerCallAction::Finish(spec_enclave_outcome(r)),
                _ => false,
            },
    {
        match (self, event) {
            (ServerCall::AwaitingArgsClass { got }, ServerCallEvent::ArgsClassChecked(r)) => match r {
                Err(_) => (
                    ServerCall::Done,
                    ServerCallAction::Finish(Err(Fault::Raised(PossibleError::AlreadyThrown))),
                ),
                Ok(false) => {
                    let e = generic_exception(
                        RUNTIME_EXCEPTION_CLASS,
                        "server_call called with an incorrect callback arguments type",
                    );
                    (ServerCall::Done, ServerCallAction::Finish(Err(Fault::Raised(e))))
                },
                Ok(true) => {
                    let field = ArgsField::MsgData;
                    let name = field.name();
                    (ServerCall::AwaitingField { field, got }, ServerCallAction::GetArrayField { name })
                },
            },
            (ServerCall::AwaitingField { field, got }, ServerCallEvent::FieldFetched(r)) => match r {
                Err(_) => (
                    ServerCall::Done,
                    ServerCallAction::Finish(Err(Fault::Raised(PossibleError::AlreadyThrown))),
                ),
                Ok(true) => {
                    let msg = String::from_str(field.name()).concat(" was null");
                    let e = PossibleError::Generic {
                        class: String::from_str(NULL_POINTER_EXCEPTION_CLASS),
                        msg,
                    };
                    (ServerCall::Done, ServerCallAction::Finish(Err(Fault::Raised(e))))
                },
                Ok(false) => {
                    let shape = field.shape();
                    (ServerCall::AwaitingArray { field, got }, ServerCallAction::ReadArray { shape })
                },
            },
            (ServerCall::AwaitingArray { field, got }, ServerCallEvent::ArrayRead(r)) => match r {
                Err(f) => (ServerCall::Done, ServerCallAction::Finish(Err(f))),
                Ok(bytes) => Self::on_array(field, got, bytes),
            },
            (ServerCall::AwaitingPhoneCount { got }, ServerCallEvent::PhoneCountRead(r)) => match r {
                Err(_) => (
                    ServerCall::Done,
                    ServerCallAction::Finish(Err(Fault::Raised(PossibleError::AlreadyThrown))),
                ),
                Ok(count) => {
                    let mut got = got;
                    got.query_phone_count = count;
                    let field = ArgsField::QueryIv;
                    let name = field.name();
                    (ServerCall::AwaitingField { field, got }, ServerCallAction::GetArrayField { name })
                },
            },
            (ServerCall::AwaitingReplySetUp { call }, ServerCallEvent::ReplySetUp(r)) => match r {
                Err(_) => (
                    ServerCall::Done,
                    ServerCallAction::Finish(Err(Fault::Raised(PossibleError::AlreadyThrown))),
                ),
                Ok(_) => (ServerCall::AwaitingEnclave, ServerCallAction::CallEnclave(call)),
            },
            (ServerCall::AwaitingEnclave, ServerCallEvent::EnclaveCalled(r)) => (
                ServerCall::Done,
                ServerCallAction::Finish(enclave_outcome(r)),
            ),
            (_, _) => {
                proof {
                    assert(false);
                }
                (ServerCall::Done, ServerCallAction::Finish(Err(Fault::Panicked)))
            },
        }
    }

    fn on_array(field: ArgsField, got: CallArgsRead, bytes: Vec<u8>) -> (res: (ServerCall, ServerCallAction))
        requires
            field_len(field) matches Some(n) ==> bytes@.len() == n,
        ensures
            res.0.rank() < (20 - 2 * field_position(field)) as nat,
            res.1 is Finish <==> res.0 is Done,
            if field is MsgData && bytes@.len() == 0 {
                res.1 matches ServerCallAction::Finish(Err(f)) && is_sgx_fault(f, "bad_msg_data"@, 0)
            } else if field is QueryData && bytes@.len() == 0 {
                res.1 matches ServerCallAction::Finish(Err(f)) && is_sgx_fault(f, "bad_query_data"@, 0)
            } else if field is PendingRequestId {
                (res.0 matches ServerCall::AwaitingReplySetUp { call } && is_enclave_call(
                    call,
                    got,
                    bytes@,
                )) && res.1 is SetUpReply
            } else if field is MsgMac {
                res.0 == (ServerCall::AwaitingPhoneCount { got: spec_store(got, field, bytes) })
                    && res.1 is GetPhoneCount
            } else {
                next_field(field) matches Some(next) && res.0 == (ServerCall::AwaitingField {
                    field: next,
                    got: spec_store(got, field, bytes),
                }) && (res.1 matches ServerCallAction::GetArrayField { name } && name@ == field_name(next))
            },
    {
        match field {
            ArgsField::MsgData => {
                if bytes.len() == 0 {
                    let e = PossibleError::SgxError { name: "bad_msg_data", code: 0 };
                    return (ServerCall::Done, ServerCallAction::Finish(Err(Fault::Raised(e))));
                }
                let got = store(got, &field, bytes);
                let next = ArgsField::QueryData;
                let name = next.name();
                (ServerCall::AwaitingField { field: next, got }, ServerCallAction::GetArrayField { name })
            },
            ArgsField::QueryData => {
                if bytes.len() == 0 {
                    let e = PossibleError::SgxError { name: "bad_query_data", code: 0 };
                    return (ServerCall::Done, ServerCallAction::Finish(Err(Fault::Raised(e))));
                }
                let got = store(got, &field, bytes);
                let next = ArgsField::MsgIv;
                let name = next.name();
                (ServerCall::AwaitingField { field: next, got }, ServerCallAction::GetArrayField { name })
            },
            ArgsField::MsgIv => {
                let got = store(got, &field, bytes);
                let next = ArgsField::MsgMac;
                let name = next.name();
                (ServerCall::AwaitingField { field: next, got }, ServerCallAction::GetArrayField { name })
            },
            ArgsField::MsgMac => {
                let got = store(got, &field, bytes);
                (ServerCall::AwaitingPhoneCount { got }, ServerCallAction::GetPhoneCount)
            },
            ArgsField::QueryIv => {
                let got = store(got, &field, bytes);
                let next = ArgsField::QueryMac;
                let name = next.name();
                (ServerCall::AwaitingField { field: next, got }, ServerCallAction::GetArrayField { name })
            },
            ArgsField::QueryMac => {
                let got = store(got, &field, bytes);
                let next = ArgsField::QueryCommitment;
                let name = next.name();
                (ServerCall::AwaitingField { field: next, got }, ServerCallAction::GetArrayField { name })
            },
            ArgsField::QueryCommitment => {
                let got = store(got, &field, bytes);
                let next = ArgsField::PendingRequestId;
                let name = next.name();
                (ServerCall::AwaitingField { field: next, got }, ServerCallAction::GetArrayField { name })
            },
            ArgsField::PendingRequestId => {
                let pending_request_id = split_pending_request_id(bytes.as_slice());
                let call = EnclaveCall {
                    enclave_id: enclave_handle(got.enclave_id),
                    state_handle: enclave_handle(got.state_handle),
                    args: ServerCallArgs {
                        query_phone_count: got.query_phone_count as u32,
                        query: EncryptedMsg {
                            iv: got.query_iv,
                            mac: got.query_mac,
                            data: got.query_data,
                        },
                        query_commitment: got.query_commitment,
                    },
                    header: MessageHeader { iv: got.msg_iv, mac: got.msg_mac, pending_request_id },
                    msg_data: got.msg_data,
                };
                (ServerCall::AwaitingReplySetUp { call }, ServerCallAction::SetUpReply)
            },
        }
    }
}

// ---------------------------------------------------------------------
// Server reply
// ---------------------------------------------------------------------

/// What handing a reply to the Java callback asks the caller to do next.
#[derive(Debug)]
pub enum ServerReplyAction {
    /// Create a Java array of the reply.
    MakeArray(JByteArrayImage),
    /// Call `receiveServerReply` on the callback with the three arrays
    /// made, in the order they were made.
    CallReceiver,
    /// The callback is over.
    Finish(Result<(), Fault>),
}

/// What the caller hands back after performing an action.
#[derive(Debug)]
pub enum ServerReplyEvent {
    ArrayMade(Result<(), JniFailed>),
    ReceiverCalled(Result<(), JniFailed>),
}

/// The state of handing a reply to Java.
#[derive(Debug)]
pub enum ServerReply {
    /// Waiting for an array; `remaining` holds the arrays still to make,
    /// the next one last.
    AwaitingArray { remaining: Vec<Vec<u8>> },
    AwaitingReceiver,
    Done,
}

impl ServerReply {
    pub open spec fn rank(&self) -> nat {
        match *self {
            ServerReply::AwaitingArray { remaining } => 2 + remaining@.len(),
            ServerReply::AwaitingReceiver => 1,
            ServerReply::Done => 0,
        }
    }

    pub open spec fn awaits(&self, event: ServerReplyEvent) -> bool {
        match (*self, event) {
            (ServerReply::AwaitingArray { .. }, ServerReplyEvent::ArrayMade(_)) => true,
            (ServerReply::AwaitingReceiver, ServerReplyEvent::ReceiverCalled(_)) => true,
            _ => false,
        }
    }

    /// Begins handing a reply to Java: its data, IV and tag become Java
    /// arrays, in that order.
    pub fn start(reply: MessageReply) -> (res: (ServerReply, ServerReplyAction))
        ensures
            res.0 matches ServerReply::AwaitingArray { remaining } && remaining@ == seq![reply.mac, reply.iv],
            res.1 matches ServerReplyAction::MakeArray(image) && is_image_of(image, reply.data@),
    {
        let image = jni_array_image(reply.data.as_slice());
        let mut remaining: Vec<Vec<u8>> = Vec::new();
        remaining.push(reply.mac);
        remaining.push(reply.iv);
        (ServerReply::AwaitingArray { remaining }, ServerReplyAction::MakeArray(image))
    }

    /// Takes the answer to the last action and decides the next one.
    pub fn step(self, event: ServerReplyEvent) -> (res: (ServerReply, ServerReplyAction))
        requires
            self.awaits(event),
        ensures
            res.0.rank() < self.rank(),
            res.1 is Finish <==> res.0 is Done,
            match (self, event) {
                (ServerReply::AwaitingArray { remaining }, ServerReplyEvent::ArrayMade(r)) => match r {
                    Err(_) => res.1 == ServerReplyAction::Finish(Err(jni_fault())),
                    Ok(_) => if remaining@.len() == 0 {
                        res.0 is AwaitingReceiver && res.1 is CallReceiver
                    } else {
                        (res.0 matches ServerReply::AwaitingArray { remaining: rest } && rest@
                            == remaining@.drop_last()) && (res.1 matches ServerReplyAction::MakeArray(
                            image,
                        ) && is_image_of(image, remaining@.last()@))
                    },
                },
                (ServerReply::AwaitingReceiver, ServerReplyEvent::ReceiverCalled(r)) => match r {
                    Err(_) => res.1 == ServerReplyAction::Finish(Err(jni_fault())),
                    Ok(_) => res.1 == ServerReplyAction::Finish(Ok(())),
                },
                _ => false,
            },
    {
        match (self, event) {
            (ServerReply::AwaitingArray { remaining }, ServerReplyEvent::ArrayMade(r)) => match r {
                Err(_) => (
                    ServerReply::Done,
                    ServerReplyAction::Finish(Err(Fault::Raised(PossibleError::AlreadyThrown))),
                ),
                Ok(_) => {
                    let mut remaining = remaining;
                    match remaining.pop() {
                        None => (ServerReply::AwaitingReceiver, ServerReplyAction::CallReceiver),
                        Some(next) => {
                            let image = jni_array_image(next.as_slice());
                            (ServerReply::AwaitingArray { remaining }, ServerReplyAction::MakeArray(image))
                        },
                    }
                },
            },
            (ServerReply::AwaitingReceiver, ServerReplyEvent::ReceiverCalled(r)) => match r {
                Err(_) => (
                    ServerReply::Done,
                    ServerReplyAction::Finish(Err(Fault::Raised(PossibleError::AlreadyThrown))),
                ),
                Ok(_) => (ServerReply::Done, ServerReplyAction::Finish(Ok(()))),
            },
            (_, _) => {
                proof {
                    assert(false);
                }
                (ServerReply::Done, ServerReplyAction::Finish(Err(Fault::Panicked)))
            },
        }
    }
}

// ---------------------------------------------------------------------
// Server stop
// ---------------------------------------------------------------------

/// The two direct byte buffers handed to a server stop.
#[derive(Debug)]
pub enum StopBuffer {
    Phones,
    Uuids,
}

/// What the JVM tells of a direct byte buffer: the length of the memory it
/// gives access to, and the capacity it reports.
#[derive(Debug)]
pub struct BufferInfo {
    pub len: usize,
    pub capacity: i64,
}

/// The arguments of a server stop given by Java.
#[derive(Debug)]
pub struct StopParams {
    pub enclave_id: i64,
    pub state_handle: i64,
    pub in_phone_count: i64,
}

/// What a server stop asks the caller to do next.
#[derive(Debug)]
pub enum ServerStopAction {
    /// Tell whether the buffer object is null.
    ProbeBuffer(StopBuffer),
    /// Get the address and the capacity of the (non-null) buffer.
    QueryBuffer(StopBuffer),
    /// Stop the server, handing it both buffers.
    StopServer { enclave_id: u64, state_handle: u64, in_phone_count: u64 },
    /// The call is over.
    Finish(Result<(), Fault>),
}

/// What the caller hands back after performing an action.
#[derive(Debug)]
pub enum ServerStopEvent {
    BufferProbed { is_null: bool },
    BufferQueried(Result<BufferInfo, JniFailed>),
    ServerStopped(Result<(), SgxsdError>),
}

/// The state of a server stop; `phones` is what is known of the phone
/// buffer once it has been looked at.
#[derive(Debug)]
pub enum ServerStop {
    AwaitingProbe { buffer: StopBuffer, params: StopParams, phones: BufferInfo },
    AwaitingQuery { buffer: StopBuffer, params: StopParams, phones: BufferInfo },
    AwaitingStop,
    Done,
}

/// Rust's integer division of `a` by a positive `b`, rounding towards
/// zero.
pub open spec fn trunc_div(a: int, b: int) -> int {
    if a >= 0 {
        a / b
    } else {
        -((-a) / b)
    }
}

/// The decision taken once both buffers are known: the three count checks
/// in order (each an `SgxException` of code 0), then a panic when a buffer
/// holds not even one phone number or one UUID (the native code takes the
/// first element of each), and otherwise the stop itself.
pub open spec fn stop_decision_ok(params: StopParams, phones: BufferInfo, uuids: BufferInfo) -> bool {
    &&& !(params.in_phone_count < trunc_div(phones.capacity as int, PHONE_SIZE as int))
    &&& !(params.in_phone_count < trunc_div(uuids.capacity as int, UUID_SIZE as int))
    &&& !(params.in_phone_count < 0)
    &&& phones.len / (PHONE_SIZE as usize) != 0
    &&& uuids.len / (UUID_SIZE as usize) != 0
}

/// The result of the checks of a server stop, when they fail.
pub open spec fn stop_check_failure(f: Fault, params: StopParams, phones: BufferInfo, uuids: BufferInfo) -> bool {
    if params.in_phone_count < trunc_div(phones.capacity as int, PHONE_SIZE as int) {
        is_sgx_fault(f, "phone_number_buffer_too_small"@, 0)
    } else if params.in_phone_count < trunc_div(uuids.capacity as int, UUID_SIZE as int) {
        is_sgx_fault(f, "uuid_buffer_too_small"@, 0)
    } else if params.in_phone_count < 0 {
        is_sgx_fault(f, "in_phone_count_too_small"@, 0)
    } else {
        f == Fault::Panicked
    }
}

/// Checks the phone count against both buffers and decides whether the
/// server is stopped.
pub fn stop_decision(params: StopParams, phones: BufferInfo, uuids: BufferInfo) -> (res: ServerStopAction)
    ensures
        stop_decision_ok(params, phones, uuids) ==> res == (ServerStopAction::StopServer {
            enclave_id: params.enclave_id as u64,
            state_handle: params.state_handle as u64,
            in_phone_count: params.in_phone_count as u64,
        }),
        !stop_decision_ok(params, phones, uuids) ==> (res matches ServerStopAction::Finish(Err(f))
            && stop_check_failure(f, params, phones, uuids)),
{
    let count = params.in_phone_count;
    if count < phones.capacity / PHONE_SIZE {
        let e = PossibleError::SgxError { name: "phone_number_buffer_too_small", code: 0 };
        return ServerStopAction::Finish(Err(Fault::Raised(e)));
    }
    if count < uuids.capacity / UUID_SIZE {
        let e = PossibleError::SgxError { name: "uuid_buffer_too_small", code: 0 };
        return ServerStopAction::Finish(Err(Fault::Raised(e)));
    }
    if count < 0 {
        let e = PossibleError::SgxError { name: "in_phone_count_too_small", code: 0 };
        return ServerStopAction::Finish(Err(Fault::Raised(e)));
    }
    if phones.len / (PHONE_SIZE as usize) == 0 || uuids.len / (UUID_SIZE as usize) == 0 {
        return ServerStopAction::Finish(Err(Fault::Panicked));
    }
    ServerStopAction::StopServer {
        enclave_id: enclave_handle(params.enclave_id),
        state_handle: enclave_handle(params.state_handle),
        in_phone_count: count as u64,
    }
}

impl ServerStop {
    pub open spec fn rank(&self) -> nat {
        match *self {
            ServerStop::AwaitingProbe { buffer: StopBuffer::Phones, .. } => 5,
            ServerStop::AwaitingQuery { buffer: StopBuffer::Phones, .. } => 4,
            ServerStop::AwaitingProbe { buffer: StopBuffer::Uuids, .. } => 3,
            ServerStop::AwaitingQuery { buffer: StopBuffer::Uuids, .. } => 2,
            ServerStop::AwaitingStop => 1,
            ServerStop::Done => 0,
        }
    }

    pub open spec fn awaits(&self, event: ServerStopEvent) -> bool {
        match (*self, event) {
            (ServerStop::AwaitingProbe { .. }, ServerStopEvent::BufferProbed { .. }) => true,
            (ServerStop::AwaitingQuery { .. }, ServerStopEvent::BufferQueried(_)) => true,
            (ServerStop::AwaitingStop, ServerStopEvent::ServerStopped(_)) => true,
            _ => false,
        }
    }

    /// Begins a server stop: the phone buffer is looked at first.
    pub fn start(enclave_id: i64, state_handle: i64, in_phone_count: i64) -> (res: (ServerStop, ServerStopAction))
        ensures
            res.0 == (ServerStop::AwaitingProbe {
                buffer: StopBuffer::Phones,
                params: StopParams { enclave_id, state_handle, in_phone_count },
                phones: BufferInfo { len: 0, capacity: 0 },
            }),
            res.1 == ServerStopAction::ProbeBuffer(StopBuffer::Phones),
    {
        (
            ServerStop::AwaitingProbe {
                buffer: StopBuffer::Phones,
                params: StopParams { enclave_id, state_handle, in_phone_count },
                phones: BufferInfo { len: 0, capacity: 0 },
            },
            ServerStopAction::ProbeBuffer(StopBuffer::Phones),
        )
    }

    /// What happens once `buffer` is known to be `info`: the UUID buffer
    /// is looked at after the phone buffer; after the UUID buffer come the
    /// checks, and the stop when they pass.
    pub open spec fn buffer_known_post(
        buffer: StopBuffer,
        params: StopParams,
        phones: BufferInfo,
        info: BufferInfo,
        res: (ServerStop, ServerStopAction),
    ) -> bool {
        match buffer {
            StopBuffer::Phones => res.0 == (ServerStop::AwaitingProbe {
                buffer: StopBuffer::Uuids,
                params,
                phones: info,
            }) && res.1 == ServerStopAction::ProbeBuffer(StopBuffer::Uuids),
            StopBuffer::Uuids => if stop_decision_ok(params, phones, info) {
                res.0 is AwaitingStop && res.1 == (ServerStopAction::StopServer {
                    enclave_id: params.enclave_id as u64,
                    state_handle: params.state_handle as u64,
                    in_phone_count: params.in_phone_count as u64,
                })
            } else {
                res.0 is Done && (res.1 matches ServerStopAction::Finish(Err(f)) && stop_check_failure(
                    f,
                    params,
                    phones,
                    info,
                ))
            },
        }
    }

    fn buffer_known(buffer: StopBuffer, params: StopParams, phones: BufferInfo, info: BufferInfo) -> (res: (ServerStop, ServerStopAction))
        ensures
            Self::buffer_known_post(buffer, params, phones, info, res),
    {
        match buffer {
            StopBuffer::Phones => (
                ServerStop::AwaitingProbe { buffer: StopBuffer::Uuids, params, phones: info },
                ServerStopAction::ProbeBuffer(StopBuffer::Uuids),
            ),
            StopBuffer::Uuids => {
                let action = stop_decision(params, phones, info);
                match action {
                    ServerStopAction::Finish(r) => (ServerStop::Done, ServerStopAction::Finish(r)),
                    other => (ServerStop::AwaitingStop, other),
                }
            },
        }
    }

    /// Takes the answer to the last action and decides the next one. A
    /// null buffer counts as empty, with capacity 0.
    pub fn step(self, event: ServerStopEvent) -> (res: (ServerStop, ServerStopAction))
        requires
            self.awaits(event),
        ensures
            res.0.rank() < self.rank(),
            res.1 is Finish <==> res.0 is Done,
            match (self, event) {
                (ServerStop::AwaitingProbe { buffer, params, phones }, ServerStopEvent::BufferProbed { is_null }) =>
                    if is_null {
                        Self::buffer_known_post(buffer, params, phones, BufferInfo { len: 0, capacity: 0 }, res)
                    } else {
                        res.0 == (ServerStop::AwaitingQuery { buffer, params, phones })
                            && res.1 == ServerStopAction::QueryBuffer(buffer)
                    },
                (ServerStop::AwaitingQuery { buffer, params, phones }, ServerStopEvent::BufferQueried(r)) => match r {
                    Err(_) => res.1 == ServerStopAction::Finish(Err(jni_fault())),
                    Ok(info) => Self::buffer_known_post(buffer, params, phones, info, res),
                },
                (ServerStop::AwaitingStop, ServerStopEvent::ServerStopped(r)) => res.1
                    == ServerStopAction::Finish(spec_enclave_outcome(r)),
                _ => false,
            },
    {
        match (self, event) {
            (ServerStop::AwaitingProbe { buffer, params, phones }, ServerStopEvent::BufferProbed { is_null }) => {
                if is_null {
                    Self::buffer_known(buffer, params, phones, BufferInfo { len: 0, capacity: 0 })
                } else {
                    let action = match buffer {
                        StopBuffer::Phones => ServerStopAction::QueryBuffer(StopBuffer::Phones),
                        StopBuffer::Uuids => ServerStopAction::QueryBuffer(StopBuffer::Uuids),
                    };
                    (ServerStop::AwaitingQuery { buffer, params, phones }, action)
                }
            },
            (ServerStop::AwaitingQuery { buffer, params, phones }, ServerStopEvent::BufferQueried(r)) => match r {
                Err(_) => (
                    ServerStop::Done,
                    ServerStopAction::Finish(Err(Fault::Raised(PossibleError::AlreadyThrown))),
                ),
                Ok(info) => Self::buffer_known(buffer, params, phones, info),
            },
            (ServerStop::AwaitingStop, ServerStopEvent::ServerStopped(r)) => (
                ServerStop::Done,
                ServerStopAction::Finish(enclave_outcome(r)),
            ),
            (_, _) => {
                proof {
                    assert(false);
                }
                (ServerStop::Done, ServerStopAction::Finish(Err(Fault::Panicked)))
            },
        }
    }
}

} // verus!
