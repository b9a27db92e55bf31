use cds_jni::arrays::ArrayShape;
use cds_jni::enclave::{
    server_init_args, EnclaveStart, EnclaveStartAction, EnclaveStartEvent, GetNextQuote,
    GetNextQuoteAction, GetNextQuoteEvent, Negotiate, NegotiateAction, NegotiateEvent,
    ReportAttestation, ReportAttestationAction, ReportAttestationEvent,
};
use cds_jni::error::{Fault, JniFailed, PossibleError, SgxStatus, SgxsdError};
use cds_jni::server::{
    split_pending_request_id, BufferInfo, ServerCall, ServerCallAction, ServerCallEvent,
    ServerReply, ServerReplyAction, ServerReplyEvent, ServerStop, ServerStopAction,
    ServerStopEvent, StopBuffer,
};
use cds_jni::sgxsd::{
    AttestationStatus, MessageReply, NegotiationResponse, PendingRequestId, UpdateInfo,
};

#[test]
fn enclave_start_runs_to_the_enclave_id() {
    let (s, a) = EnclaveStart::start(false, 1, -1);
    assert!(matches!(a, EnclaveStartAction::ReadPath));
    let (s, a) = s.step(EnclaveStartEvent::PathRead(Ok(b"/enclave.so".to_vec())));
    assert!(matches!(a, EnclaveStartAction::InitQuote));
    let (s, a) = s.step(EnclaveStartEvent::QuoteInitialized(Ok(0xabcd)));
    match &a {
        EnclaveStartAction::CreateEnclave { path, debug } => {
            assert_eq!(path, "/enclave.so");
            assert!(*debug);
        }
        other => panic!("unexpected {:?}", other),
    }
    let (s, a) = s.step(EnclaveStartEvent::EnclaveCreated(Ok(u64::MAX)));
    assert!(matches!(
        a,
        EnclaveStartAction::NodeInit { enclave_id: u64::MAX, pending_requests_table_order: 255 }
    ));
    let (s, a) = s.step(EnclaveStartEvent::NodeInitialized(Ok(())));
    assert!(matches!(a, EnclaveStartAction::RunEnclave { id: -1, gid: 0xabcd }));
    let (s, a) = s.step(EnclaveStartEvent::EnclaveRan(Ok(())));
    assert!(matches!(a, EnclaveStartAction::DestroyEnclave { enclave_id: u64::MAX }));
    let (s, a) = s.step(EnclaveStartEvent::EnclaveDestroyed(Ok(())));
    assert!(matches!(a, EnclaveStartAction::Finish(Ok(-1))));
    assert!(matches!(s, EnclaveStart::Done));
}

#[test]
fn enclave_start_debug_flag_is_exactly_one() {
    let (s, _) = EnclaveStart::start(false, 2, 0);
    assert!(matches!(s, EnclaveStart::AwaitingPath { debug: false, order: 0 }));
}

#[test]
fn enclave_start_null_callback() {
    let (s, a) = EnclaveStart::start(true, 1, 4);
    assert!(matches!(s, EnclaveStart::Done));
    match a {
        EnclaveStartAction::Finish(Err(Fault::Raised(PossibleError::Generic { class, msg }))) => {
            assert_eq!(class, "java/lang/NullPointerException");
            assert_eq!(msg, "EnclaveStartCallback callback was null");
        }
        other => panic!("unexpected {:?}", other),
    }
}

#[test]
fn enclave_start_non_utf8_path() {
    let (s, _) = EnclaveStart::start(false, 0, 4);
    let (_, a) = s.step(EnclaveStartEvent::PathRead(Ok(vec![0x2f, 0xc3])));
    match a {
        EnclaveStartAction::Finish(Err(Fault::Raised(PossibleError::Generic { class, msg }))) => {
            assert_eq!(class, "java/lang/RuntimeException");
            assert_eq!(msg, "non-UTF8 bytes in enclave path");
        }
        other => panic!("unexpected {:?}", other),
    }
}

#[test]
fn enclave_start_quote_failure() {
    let (s, _) = EnclaveStart::start(false, 0, 4);
    let (s, _) = s.step(EnclaveStartEvent::PathRead(Ok(b"e".to_vec())));
    let (_, a) = s.step(EnclaveStartEvent::QuoteInitialized(Err(SgxStatus::Error(0x4004))));
    assert!(matches!(
        a,
        EnclaveStartAction::Finish(Err(Fault::Raised(PossibleError::SgxError {
            name: "init_quote_before_create",
            code: 0x4004
        })))
    ));
}

#[test]
fn enclave_start_create_failure_and_jni_failure() {
    let (s, _) = EnclaveStart::start(false, 0, 4);
    let (s, _) = s.step(EnclaveStartEvent::PathRead(Ok(b"e".to_vec())));
    let (s, _) = s.step(EnclaveStartEvent::QuoteInitialized(Ok(1)));
    let (_, a) = s.step(EnclaveStartEvent::EnclaveCreated(Err(SgxsdError {
        name: "sgxsd_create_enclave",
        status: SgxStatus::Unknown(77),
    })));
    assert!(matches!(
        a,
        EnclaveStartAction::Finish(Err(Fault::Raised(PossibleError::SgxError {
            name: "sgxsd_create_enclave",
            code: 77
        })))
    ));
    let (s, _) = EnclaveStart::start(false, 0, 4);
    let (_, a) = s.step(EnclaveStartEvent::PathRead(Err(JniFailed)));
    assert!(matches!(a, EnclaveStartAction::Finish(Err(Fault::Raised(PossibleError::AlreadyThrown)))));
}

#[test]
fn next_quote_runs_to_the_array() {
    let (s, a) = GetNextQuote::start(5);
    assert!(matches!(a, GetNextQuoteAction::ReadSpid { shape: ArrayShape::Any }));
    let (s, a) = s.step(GetNextQuoteEvent::SpidRead(Ok(vec![7u8; 16])));
    assert!(matches!(a, GetNextQuoteAction::ReadSigRl { shape: ArrayShape::Any }));
    let (s, a) = s.step(GetNextQuoteEvent::SigRlRead(Ok(vec![1, 2])));
    match &a {
        GetNextQuoteAction::GetQuote { enclave_id, spid, sig_rl } => {
            assert_eq!(*enclave_id, 5);
            assert_eq!(spid, &vec![7u8; 16]);
            assert_eq!(sig_rl, &vec![1u8, 2]);
        }
        other => panic!("unexpected {:?}", other),
    }
    let (s, a) = s.step(GetNextQuoteEvent::QuoteMade(Ok(vec![0x80, 1])));
    match &a {
        GetNextQuoteAction::MakeArray(image) => {
            assert_eq!(image.length, 2);
            assert_eq!(image.contents, vec![-128i8, 1]);
        }
        other => panic!("unexpected {:?}", other),
    }
    let (_, a) = s.step(GetNextQuoteEvent::ArrayMade(Ok(())));
    assert!(matches!(a, GetNextQuoteAction::Finish(Ok(()))));
}

#[test]
fn next_quote_rejects_spid_length() {
    let (s, _) = GetNextQuote::start(5);
    let (s, a) = s.step(GetNextQuoteEvent::SpidRead(Ok(vec![7u8; 15])));
    assert!(matches!(s, GetNextQuote::Done));
    assert!(matches!(
        a,
        GetNextQuoteAction::Finish(Err(Fault::Raised(PossibleError::SgxError {
            name: "spid_length_incorrect",
            code: 2
        })))
    ));
}

fn response() -> NegotiationResponse {
    NegotiationResponse {
        server_static_pubkey: vec![1; 32],
        server_ephemeral_pubkey: vec![2; 32],
        encrypted_pending_request_id: PendingRequestId {
            data: vec![3; 8],
            iv: vec![4; 12],
            mac: vec![5; 16],
        },
    }
}

#[test]
fn negotiation_makes_five_arrays_in_order() {
    let (s, a) = Negotiate::start(9);
    assert!(matches!(a, NegotiateAction::ReadClientPubkey { shape: ArrayShape::Any }));
    let (s, a) = s.step(NegotiateEvent::PubkeyRead(Ok(vec![0xaa; 32])));
    match &a {
        NegotiateAction::Negotiate { enclave_id, client_pubkey } => {
            assert_eq!(*enclave_id, 9);
            assert_eq!(client_pubkey, &vec![0xaau8; 32]);
        }
        other => panic!("unexpected {:?}", other),
    }
    let (mut s, mut a) = s.step(NegotiateEvent::Negotiated(Ok(response())));
    let expected: Vec<(i32, i8)> = vec![(32, 1), (32, 2), (8, 3), (12, 4), (16, 5)];
    for (len, byte) in expected {
        match &a {
            NegotiateAction::MakeArray(image) => {
                assert_eq!(image.length, len);
                assert!(image.contents.iter().all(|b| *b == byte));
            }
            other => panic!("unexpected {:?}", other),
        }
        let next = s.step(NegotiateEvent::ArrayMade(Ok(())));
        s = next.0;
        a = next.1;
    }
    assert!(matches!(a, NegotiateAction::NewResponse));
    let (_, a) = s.step(NegotiateEvent::ResponseMade(Ok(())));
    assert!(matches!(a, NegotiateAction::Finish(Ok(()))));
}

#[test]
fn negotiation_rejects_key_length() {
    let (s, _) = Negotiate::start(9);
    let (_, a) = s.step(NegotiateEvent::PubkeyRead(Ok(vec![0; 31])));
    assert!(matches!(
        a,
        NegotiateAction::Finish(Err(Fault::Raised(PossibleError::SgxError {
            name: "negotiate_request_client_pubkey_copy",
            code: 2
        })))
    ));
}

#[test]
fn negotiation_failure_in_enclave_and_array() {
    let (s, _) = Negotiate::start(9);
    let (s, _) = s.step(NegotiateEvent::PubkeyRead(Ok(vec![0; 32])));
    let (_, a) = s.step(NegotiateEvent::Negotiated(Err(SgxsdError {
        name: "sgxsd_negotiate_request",
        status: SgxStatus::Error(3),
    })));
    assert!(matches!(
        a,
        NegotiateAction::Finish(Err(Fault::Raised(PossibleError::SgxError { code: 3, .. })))
    ));
    let (s, _) = Negotiate::start(9);
    let (s, _) = s.step(NegotiateEvent::PubkeyRead(Ok(vec![0; 32])));
    let (s, _) = s.step(NegotiateEvent::Negotiated(Ok(response())));
    let (s, _) = s.step(NegotiateEvent::ArrayMade(Ok(())));
    let (s, a) = s.step(NegotiateEvent::ArrayMade(Err(JniFailed)));
    assert!(matches!(s, Negotiate::Done));
    assert!(matches!(a, NegotiateAction::Finish(Err(Fault::Raised(PossibleError::AlreadyThrown)))));
}

#[test]
fn server_start_arguments() {
    let args = server_init_args(-1);
    assert_eq!(args.max_query_phones, u32::MAX);
    assert_eq!(args.max_ratelimit_states, 0);
    assert_eq!(server_init_args(2048).max_query_phones, 2048);
}

#[test]
fn attestation_report_flow() {
    let (s, a) = ReportAttestation::start(false, 3);
    assert!(matches!(a, ReportAttestationAction::ReadPlatformInfo { shape: ArrayShape::Exact(101) }));
    assert!(matches!(s, ReportAttestation::AwaitingPlatformInfo { attestation_successful: true }));
    let (s, a) = s.step(ReportAttestationEvent::PlatformInfoRead(Ok(vec![9; 101])));
    assert!(matches!(a, ReportAttestationAction::Report { attestation_successful: true, .. }));
    let info = UpdateInfo { ucode_update: 1, csme_fw_update: 0, psw_update: 1 };
    let (_, a) = s.step(ReportAttestationEvent::Reported(Ok(AttestationStatus::UpdateNeeded(info))));
    assert!(matches!(a, ReportAttestationAction::Finish(Ok(5))));
}

#[test]
fn attestation_report_null_info() {
    let (_, a) = ReportAttestation::start(true, 1);
    match a {
        ReportAttestationAction::Finish(Err(Fault::Raised(PossibleError::Generic { class, msg }))) => {
            assert_eq!(class, "java/lang/NullPointerException");
            assert_eq!(msg, "platform_info array cannot be null");
        }
        other => panic!("unexpected {:?}", other),
    }
}

fn expect_field(a: &ServerCallAction, expected: &str) {
    match a {
        ServerCallAction::GetArrayField { name } => assert_eq!(*name, expected),
        other => panic!("unexpected {:?}", other),
    }
}

#[test]
fn server_call_reads_every_field_then_calls_the_enclave() {
    let (s, a) = ServerCall::start(-1, 2);
    assert!(matches!(a, ServerCallAction::CheckArgsClass));
    let (mut s, mut a) = s.step(ServerCallEvent::ArgsClassChecked(Ok(true)));
    let id: Vec<u8> = (0..36).collect();
    let fields: Vec<(&str, Option<usize>, Vec<u8>)> = vec![
        ("msg_data", None, vec![1, 1, 1]),
        ("query_data", None, vec![2, 2]),
        ("msg_iv", Some(12), vec![3; 12]),
        ("msg_mac", Some(16), vec![4; 16]),
        ("query_iv", Some(12), vec![5; 12]),
        ("query_mac", Some(16), vec![6; 16]),
        ("query_commitment", Some(32), vec![7; 32]),
        ("pending_request_id", Some(36), id.clone()),
    ];
    for (name, len, contents) in fields {
        if name == "query_iv" {
            assert!(matches!(a, ServerCallAction::GetPhoneCount));
            let next = s.step(ServerCallEvent::PhoneCountRead(Ok(-3)));
            s = next.0;
            a = next.1;
        }
        expect_field(&a, name);
        let next = s.step(ServerCallEvent::FieldFetched(Ok(false)));
        match &next.1 {
            ServerCallAction::ReadArray { shape } => match (shape, len) {
                (ArrayShape::Any, None) => {}
                (ArrayShape::Exact(n), Some(m)) => assert_eq!(*n, m),
                other => panic!("unexpected {:?}", other),
            },
            other => panic!("unexpected {:?}", other),
        }
        let next = next.0.step(ServerCallEvent::ArrayRead(Ok(contents)));
        s = next.0;
        a = next.1;
    }
    assert!(matches!(a, ServerCallAction::SetUpReply));
    let (s, a) = s.step(ServerCallEvent::ReplySetUp(Ok(())));
    match &a {
        ServerCallAction::CallEnclave(call) => {
            assert_eq!(call.enclave_id, u64::MAX);
            assert_eq!(call.state_handle, 2);
            assert_eq!(call.args.query_phone_count, (-3i32) as u32);
            assert_eq!(call.args.query.iv, vec![5; 12]);
            assert_eq!(call.args.query.mac, vec![6; 16]);
            assert_eq!(call.args.query.data, vec![2, 2]);
            assert_eq!(call.args.query_commitment, vec![7; 32]);
            assert_eq!(call.header.iv, vec![3; 12]);
            assert_eq!(call.header.mac, vec![4; 16]);
            assert_eq!(call.header.pending_request_id.data, id[0..8].to_vec());
            assert_eq!(call.header.pending_request_id.iv, id[8..20].to_vec());
            assert_eq!(call.header.pending_request_id.mac, id[20..36].to_vec());
            assert_eq!(call.msg_data, vec![1, 1, 1]);
        }
        other => panic!("unexpected {:?}", other),
    }
    let (s, a) = s.step(ServerCallEvent::EnclaveCalled(Ok(())));
    assert!(matches!(s, ServerCall::Done));
    assert!(matches!(a, ServerCallAction::Finish(Ok(()))));
}

#[test]
fn server_call_enclave_failure() {
    let (s, _) = ServerCall::start(1, 2);
    let (mut s, _) = s.step(ServerCallEvent::ArgsClassChecked(Ok(true)));
    for len in [1usize, 1, 12, 16] {
        s = s.step(ServerCallEvent::FieldFetched(Ok(false))).0;
        s = s.step(ServerCallEvent::ArrayRead(Ok(vec![0; len]))).0;
    }
    s = s.step(ServerCallEvent::PhoneCountRead(Ok(1))).0;
    for len in [12usize, 16, 32, 36] {
        s = s.step(ServerCallEvent::FieldFetched(Ok(false))).0;
        s = s.step(ServerCallEvent::ArrayRead(Ok(vec![0; len]))).0;
    }
    let (s, _) = s.step(ServerCallEvent::ReplySetUp(Ok(())));
    let (_, a) = s.step(ServerCallEvent::EnclaveCalled(Err(SgxsdError {
        name: "sgxsd_server_call",
        status: SgxStatus::Error(5),
    })));
    assert!(matches!(
        a,
        ServerCallAction::Finish(Err(Fault::Raised(PossibleError::SgxError { name: "sgxsd_server_call", code: 5 })))
    ));
}

#[test]
fn server_call_wrong_args_class() {
    let (s, _) = ServerCall::start(1, 2);
    let (_, a) = s.step(ServerCallEvent::ArgsClassChecked(Ok(false)));
    match a {
        ServerCallAction::Finish(Err(Fault::Raised(PossibleError::Generic { class, msg }))) => {
            assert_eq!(class, "java/lang/RuntimeException");
            assert_eq!(msg, "server_call called with an incorrect callback arguments type");
        }
        other => panic!("unexpected {:?}", other),
    }
}

#[test]
fn server_call_null_field() {
    let (s, _) = ServerCall::start(1, 2);
    let (s, _) = s.step(ServerCallEvent::ArgsClassChecked(Ok(true)));
    let (_, a) = s.step(ServerCallEvent::FieldFetched(Ok(true)));
    match a {
        ServerCallAction::Finish(Err(Fault::Raised(PossibleError::Generic { class, msg }))) => {
            assert_eq!(class, "java/lang/NullPointerException");
            assert_eq!(msg, "msg_data was null");
        }
        other => panic!("unexpected {:?}", other),
    }
}

#[test]
fn server_call_empty_message_and_query() {
    let (s, _) = ServerCall::start(1, 2);
    let (s, _) = s.step(ServerCallEvent::ArgsClassChecked(Ok(true)));
    let (s, _) = s.step(ServerCallEvent::FieldFetched(Ok(false)));
    let (_, a) = s.step(ServerCallEvent::ArrayRead(Ok(vec![])));
    assert!(matches!(
        a,
        ServerCallAction::Finish(Err(Fault::Raised(PossibleError::SgxError { name: "bad_msg_data", code: 0 })))
    ));
    let (s, _) = ServerCall::start(1, 2);
    let (s, _) = s.step(ServerCallEvent::ArgsClassChecked(Ok(true)));
    let (s, _) = s.step(ServerCallEvent::FieldFetched(Ok(false)));
    let (s, _) = s.step(ServerCallEvent::ArrayRead(Ok(vec![1])));
    let (s, _) = s.step(ServerCallEvent::FieldFetched(Ok(false)));
    let (_, a) = s.step(ServerCallEvent::ArrayRead(Ok(vec![])));
    assert!(matches!(
        a,
        ServerCallAction::Finish(Err(Fault::Raised(PossibleError::SgxError { name: "bad_query_data", code: 0 })))
    ));
}

#[test]
fn pending_request_id_is_split_into_data_iv_and_tag() {
    let bytes: Vec<u8> = (0..36).collect();
    let id = split_pending_request_id(&bytes);
    assert_eq!(id.data, (0..8).collect::<Vec<u8>>());
    assert_eq!(id.iv, (8..20).collect::<Vec<u8>>());
    assert_eq!(id.mac, (20..36).collect::<Vec<u8>>());
}

#[test]
fn server_reply_flow() {
    let reply = MessageReply { data: vec![1, 2, 3], iv: vec![4; 12], mac: vec![5; 16] };
    let (s, a) = ServerReply::start(reply);
    let mut lengths = Vec::new();
    let (mut s, mut a) = (s, a);
    while let ServerReplyAction::MakeArray(image) = &a {
        lengths.push(image.length);
        let next = s.step(ServerReplyEvent::ArrayMade(Ok(())));
        s = next.0;
        a = next.1;
    }
    assert_eq!(lengths, vec![3, 12, 16]);
    assert!(matches!(a, ServerReplyAction::CallReceiver));
    let (_, a) = s.step(ServerReplyEvent::ReceiverCalled(Err(JniFailed)));
    assert!(matches!(a, ServerReplyAction::Finish(Err(Fault::Raised(PossibleError::AlreadyThrown)))));
}

fn stop_with(count: i64, phones: Option<BufferInfo>, uuids: Option<BufferInfo>) -> (ServerStop, ServerStopAction) {
    let (s, a) = ServerStop::start(4, 5, count);
    assert!(matches!(a, ServerStopAction::ProbeBuffer(StopBuffer::Phones)));
    let (s, a) = match phones {
        None => s.step(ServerStopEvent::BufferProbed { is_null: true }),
        Some(info) => {
            let (s, a) = s.step(ServerStopEvent::BufferProbed { is_null: false });
            assert!(matches!(a, ServerStopAction::QueryBuffer(StopBuffer::Phones)));
            s.step(ServerStopEvent::BufferQueried(Ok(info)))
        }
    };
    assert!(matches!(a, ServerStopAction::ProbeBuffer(StopBuffer::Uuids)));
    match uuids {
        None => s.step(ServerStopEvent::BufferProbed { is_null: true }),
        Some(info) => {
            let (s, _) = s.step(ServerStopEvent::BufferProbed { is_null: false });
            s.step(ServerStopEvent::BufferQueried(Ok(info)))
        }
    }
}

#[test]
fn server_stop_accepts_large_enough_count() {
    let (s, a) = stop_with(
        10,
        Some(BufferInfo { len: 80, capacity: 80 }),
        Some(BufferInfo { len: 160, capacity: 160 }),
    );
    assert!(matches!(
        a,
        ServerStopAction::StopServer { enclave_id: 4, state_handle: 5, in_phone_count: 10 }
    ));
    let (_, a) = s.step(ServerStopEvent::ServerStopped(Ok(())));
    assert!(matches!(a, ServerStopAction::Finish(Ok(()))));
}

#[test]
fn server_stop_count_checks() {
    let (_, a) = stop_with(
        9,
        Some(BufferInfo { len: 80, capacity: 80 }),
        Some(BufferInfo { len: 160, capacity: 160 }),
    );
    assert!(matches!(
        a,
        ServerStopAction::Finish(Err(Fault::Raised(PossibleError::SgxError {
            name: "phone_number_buffer_too_small",
            code: 0
        })))
    ));
    let (_, a) = stop_with(
        10,
        Some(BufferInfo { len: 80, capacity: 80 }),
        Some(BufferInfo { len: 176, capacity: 176 }),
    );
    assert!(matches!(
        a,
        ServerStopAction::Finish(Err(Fault::Raised(PossibleError::SgxError {
            name: "uuid_buffer_too_small",
            code: 0
        })))
    ));
    let (_, a) = stop_with(-1, None, None);
    assert!(matches!(
        a,
        ServerStopAction::Finish(Err(Fault::Raised(PossibleError::SgxError {
            name: "phone_number_buffer_too_small",
            code: 0
        })))
    ));
    let (_, a) = stop_with(
        -1,
        Some(BufferInfo { len: 0, capacity: -16 }),
        Some(BufferInfo { len: 0, capacity: -32 }),
    );
    assert!(matches!(
        a,
        ServerStopAction::Finish(Err(Fault::Raised(PossibleError::SgxError {
            name: "in_phone_count_too_small",
            code: 0
        })))
    ));
}

#[test]
fn server_stop_with_null_buffer_panics() {
    let (s, a) = stop_with(1, None, Some(BufferInfo { len: 16, capacity: 16 }));
    assert!(matches!(s, ServerStop::Done));
    assert!(matches!(a, ServerStopAction::Finish(Err(Fault::Panicked))));
}

#[test]
fn server_stop_failed_buffer_query() {
    let (s, _) = ServerStop::start(4, 5, 1);
    let (s, _) = s.step(ServerStopEvent::BufferProbed { is_null: false });
    let (_, a) = s.step(ServerStopEvent::BufferQueried(Err(JniFailed)));
    assert!(matches!(a, ServerStopAction::Finish(Err(Fault::Raised(PossibleError::AlreadyThrown)))));
}
