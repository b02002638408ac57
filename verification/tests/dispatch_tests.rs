use client::chain::{ChainAddress, MemberEntry, OnChainDaoState};
use client::dispatch::{
    apply_chain_sync_reply, artifact_file_path, begin_chain_sync, handle_message,
    resume_after_sync, AfterSync, ClientError, Effect, InboundMessage, Outcome, SyncEvent,
    JOB_TIMEOUT_MS, RUN_EXPECTS_RESPONSE_S, SYNC_TIMEOUT_S,
};
use client::endpoint::{parse_address, parse_process_id, Address};
use client::state::State;
use client::wire::{
    encode_admin_request, encode_context_u64, encode_public_request, encode_public_response,
    encode_sequencer_response, AdminRequest, JobParameters, PublicRequest, PublicResponse,
    ReadResponse, RunResponse, SequencerResponse,
};

fn our() -> Address {
    parse_address(&b"node.os@client:app:pub.os".to_vec()).unwrap()
}

fn peer_request(body: Vec<u8>, blob: Option<Vec<u8>>) -> InboundMessage {
    InboundMessage {
        is_request: true,
        source: parse_address(&b"peer.os@shell:app:pub.os".to_vec()).unwrap(),
        body,
        blob,
        context: None,
    }
}

fn local_request(body: Vec<u8>) -> InboundMessage {
    InboundMessage {
        is_request: true,
        source: parse_address(&b"node.os@shell:app:pub.os".to_vec()).unwrap(),
        body,
        blob: None,
        context: None,
    }
}

fn router_response(body: Vec<u8>) -> InboundMessage {
    InboundMessage {
        is_request: false,
        source: parse_address(&b"router.node@router:app:pub.os".to_vec()).unwrap(),
        body,
        blob: None,
        context: None,
    }
}

fn timer_response(context: Option<Vec<u8>>) -> InboundMessage {
    InboundMessage {
        is_request: false,
        source: parse_address(&b"node.os@timer:distro:sys".to_vec()).unwrap(),
        body: b"timer fired".to_vec(),
        blob: None,
        context,
    }
}

fn run_job_body() -> Vec<u8> {
    encode_public_request(&PublicRequest::RunJob(JobParameters {
        workflow: b"upscale".to_vec(),
        parameters: b"{}".to_vec(),
    }))
}

fn update_body(job_id: u64, is_final: bool) -> Vec<u8> {
    encode_public_request(&PublicRequest::JobUpdate { job_id, is_final, signature: Ok(1) })
}

fn snapshot_with_one_router() -> Vec<u8> {
    let dao = OnChainDaoState {
        routers: vec![b"router.node".to_vec()],
        members: vec![],
        proposals: vec![],
        queue_response_timeout_seconds: 30,
        serve_timeout_seconds: 600,
        max_outstanding_payments: 3,
        payment_period_hours: 24,
    };
    encode_sequencer_response(&SequencerResponse::Read(ReadResponse::All(dao)))
}

fn dir() -> Vec<u8> {
    b"images".to_vec()
}

/// The whole life of one job, end to end, as the event loop would drive it.
#[test]
fn job_lifecycle_scenario() {
    let our = our();
    let mut state = State::load(None);

    // submit with nothing configured: the missing router is named first
    let (o, effects) = handle_message(&our, &peer_request(run_job_body(), None), &dir(), &mut state);
    assert!(matches!(o, Outcome::Failed(ClientError::RouterNotSet)));
    assert!(effects.is_empty());

    // set the router endpoint
    let body = encode_admin_request(&AdminRequest::SetRouterProcess {
        process_id: b"router:app:pub.os".to_vec(),
    });
    let (o, effects) = handle_message(&our, &local_request(body), &dir(), &mut state);
    assert!(matches!(o, Outcome::Handled));
    assert!(matches!(&effects[0], Effect::SaveState { .. }));
    assert!(matches!(&effects[1], Effect::SendResponse { .. }));

    // submit again: now the sequencer is the missing prerequisite
    let (o, _) = handle_message(&our, &peer_request(run_job_body(), None), &dir(), &mut state);
    assert!(matches!(o, Outcome::Failed(ClientError::SequencerNotSet)));

    // set the sequencer endpoint: a blocking sync round trip is requested
    let body = encode_admin_request(&AdminRequest::SetRollupSequencer {
        address: b"seq.os@rollup:app:pub.os".to_vec(),
    });
    let (o, effects) = handle_message(&our, &local_request(body), &dir(), &mut state);
    let (call, pending) = match o {
        Outcome::AwaitSync { call, pending } => (call, pending),
        _ => panic!("setting the sequencer must trigger a sync"),
    };
    assert!(matches!(&effects[0], Effect::SaveState { .. }));
    assert_eq!(call.target.node, b"seq.os".to_vec());
    assert!(call.body.is_empty());
    assert_eq!(call.timeout_s, SYNC_TIMEOUT_S);
    assert!(matches!(pending, AfterSync::SetSequencer));

    // the sequencer answers with a snapshot naming one router
    let ev = SyncEvent::Reply { blob: Some(snapshot_with_one_router()) };
    let (res, effects) = resume_after_sync(&mut state, &pending, &ev);
    assert!(res.is_ok());
    assert!(matches!(&effects[0], Effect::SaveState { .. }));
    assert!(matches!(&effects[1], Effect::SendResponse { .. }));
    assert_eq!(state.on_chain_state.routers, vec![b"router.node".to_vec()]);

    // submit: the request body is forwarded verbatim to that router
    let (o, effects) = handle_message(&our, &peer_request(run_job_body(), None), &dir(), &mut state);
    assert!(matches!(o, Outcome::Handled));
    match &effects[0] {
        Effect::SendRequest { target, body, expects_response_s } => {
            assert_eq!(target.node, b"router.node".to_vec());
            assert_eq!(target.process.process_name, b"router".to_vec());
            assert_eq!(*body, run_job_body());
            assert_eq!(*expects_response_s, RUN_EXPECTS_RESPONSE_S);
        },
        _ => panic!("the submission must be forwarded"),
    }
    assert!(state.current_job.is_none());

    // queued confirmation: job 42 is tracked and a watchdog is scheduled
    let body = encode_public_response(&PublicResponse::RunJob(RunResponse::JobQueued {
        job_id: 42,
    }));
    let (o, effects) = handle_message(&our, &router_response(body), &dir(), &mut state);
    assert!(matches!(o, Outcome::Handled));
    match &effects[0] {
        Effect::SetTimer { duration_ms, context } => {
            assert_eq!(*duration_ms, JOB_TIMEOUT_MS);
            assert_eq!(*context, encode_context_u64(42));
        },
        _ => panic!("a watchdog must be scheduled"),
    }
    assert!(matches!(&effects[1], Effect::SaveState { .. }));
    let job = state.current_job.as_ref().unwrap();
    assert_eq!(job.job_id, 42);
    assert_eq!(job.next_image_number, 0);

    // first non-final update: artifact 42-0.jpg, counter advances to 1
    let msg = peer_request(update_body(42, false), Some(b"jpegbytes0".to_vec()));
    let (o, effects) = handle_message(&our, &msg, &dir(), &mut state);
    assert!(matches!(o, Outcome::Handled));
    assert!(matches!(&effects[0], Effect::SaveState { .. }));
    match &effects[1] {
        Effect::WriteArtifact { path, bytes } => {
            assert_eq!(*path, b"images/42-0.jpg".to_vec());
            assert_eq!(*bytes, b"jpegbytes0".to_vec());
        },
        _ => panic!("the artifact must be written"),
    }
    assert_eq!(state.current_job.as_ref().unwrap().next_image_number, 1);

    // final update: artifact 42-final.jpg, the session ends
    let msg = peer_request(update_body(42, true), Some(b"jpegfinal".to_vec()));
    let (o, effects) = handle_message(&our, &msg, &dir(), &mut state);
    assert!(matches!(o, Outcome::Handled));
    match &effects[1] {
        Effect::WriteArtifact { path, bytes } => {
            assert_eq!(*path, b"images/42-final.jpg".to_vec());
            assert_eq!(*bytes, b"jpegfinal".to_vec());
        },
        _ => panic!("the final artifact must be written"),
    }
    assert!(state.current_job.is_none());

    // the watchdog scheduled earlier fires now: ignored without error
    let before = state.save_bytes();
    let (o, effects) = handle_message(
        &our,
        &timer_response(Some(encode_context_u64(42))),
        &dir(),
        &mut state,
    );
    assert!(matches!(o, Outcome::Handled));
    assert!(effects.is_empty());
    assert_eq!(state.save_bytes(), before);
}

#[test]
fn foreign_admin_request_is_rejected_without_mutation() {
    let our = our();
    let mut state = State::load(None);
    let before = state.save_bytes();
    let body = encode_admin_request(&AdminRequest::SetRouterProcess {
        process_id: b"evil:app:pub.os".to_vec(),
    });
    let (o, effects) = handle_message(&our, &peer_request(body, None), &dir(), &mut state);
    assert!(matches!(o, Outcome::Failed(ClientError::Unauthorized)));
    assert!(effects.is_empty());
    assert_eq!(state.save_bytes(), before);
    assert!(state.router_process.is_none());
}

#[test]
fn submission_while_job_in_flight_sends_nothing() {
    let our = our();
    let mut state = State::load(None);
    state.router_process = parse_process_id(&b"router:app:pub.os".to_vec());
    state.rollup_sequencer = parse_address(&b"seq.os@rollup:app:pub.os".to_vec());
    state.on_chain_state.routers = vec![b"router.node".to_vec()];
    let body = encode_public_response(&PublicResponse::RunJob(RunResponse::JobQueued {
        job_id: 7,
    }));
    let (_, _) = handle_message(&our, &router_response(body), &dir(), &mut state);
    assert!(state.current_job.is_some());

    let before = state.save_bytes();
    let (o, effects) = handle_message(&our, &peer_request(run_job_body(), None), &dir(), &mut state);
    assert!(matches!(o, Outcome::Failed(ClientError::JobInFlight)));
    assert!(effects.is_empty());
    assert_eq!(state.save_bytes(), before);
}

#[test]
fn failed_sync_leaves_snapshot_bit_for_bit_identical() {
    let mut state = State::load(None);
    state.rollup_sequencer = parse_address(&b"seq.os@rollup:app:pub.os".to_vec());
    state.on_chain_state.routers = vec![b"router.node".to_vec()];
    state.on_chain_state.members = vec![MemberEntry {
        who: b"alice.os".to_vec(),
        addr: ChainAddress { bytes: vec![7u8; 20] },
    }];
    let before = state.save_bytes();

    let (res, effects) = apply_chain_sync_reply(&mut state, &SyncEvent::TimedOut);
    assert!(matches!(res, Err(ClientError::SyncTimedOut)));
    assert!(effects.is_empty());
    assert_eq!(state.save_bytes(), before);

    let (res, effects) = apply_chain_sync_reply(&mut state, &SyncEvent::Reply { blob: None });
    assert!(matches!(res, Err(ClientError::SyncNoBlob)));
    assert!(effects.is_empty());
    assert_eq!(state.save_bytes(), before);

    let garbage = SyncEvent::Reply { blob: Some(b"not a response".to_vec()) };
    let (res, effects) = apply_chain_sync_reply(&mut state, &garbage);
    assert!(matches!(res, Err(ClientError::SyncWrongResponse)));
    assert!(effects.is_empty());
    assert_eq!(state.save_bytes(), before);
}

#[test]
fn stale_timer_for_other_job_is_ignored() {
    let our = our();
    let mut state = State::load(None);
    let body = encode_public_response(&PublicResponse::RunJob(RunResponse::JobQueued {
        job_id: 42,
    }));
    let (_, _) = handle_message(&our, &router_response(body), &dir(), &mut state);
    let before = state.save_bytes();

    let (o, effects) = handle_message(
        &our,
        &timer_response(Some(encode_context_u64(7))),
        &dir(),
        &mut state,
    );
    assert!(matches!(o, Outcome::Handled));
    assert!(effects.is_empty());
    assert_eq!(state.save_bytes(), before);
    assert_eq!(state.current_job.as_ref().unwrap().job_id, 42);
}

#[test]
fn matching_timer_clears_job_and_reports_timeout() {
    let our = our();
    let mut state = State::load(None);
    let body = encode_public_response(&PublicResponse::RunJob(RunResponse::JobQueued {
        job_id: 42,
    }));
    let (_, _) = handle_message(&our, &router_response(body), &dir(), &mut state);

    let (o, effects) = handle_message(
        &our,
        &timer_response(Some(encode_context_u64(42))),
        &dir(),
        &mut state,
    );
    assert!(matches!(o, Outcome::Failed(ClientError::JobTimedOut { job_id: 42 })));
    assert!(matches!(&effects[0], Effect::SaveState { .. }));
    assert!(state.current_job.is_none());
}

#[test]
fn timer_with_unreadable_context_is_an_error() {
    let our = our();
    let mut state = State::load(None);
    let body = encode_public_response(&PublicResponse::RunJob(RunResponse::JobQueued {
        job_id: 42,
    }));
    let (_, _) = handle_message(&our, &router_response(body), &dir(), &mut state);

    let (o, _) = handle_message(&our, &timer_response(None), &dir(), &mut state);
    assert!(matches!(o, Outcome::Failed(ClientError::MalformedTimerContext)));

    let (o, _) = handle_message(
        &our,
        &timer_response(Some(b"xyz".to_vec())),
        &dir(),
        &mut state,
    );
    assert!(matches!(o, Outcome::Failed(ClientError::MalformedTimerContext)));
}

#[test]
fn unknown_response_traffic_is_ignored_silently() {
    let our = our();
    let mut state = State::load(None);
    let before = state.save_bytes();
    let (o, effects) = handle_message(
        &our,
        &router_response(b"unintelligible".to_vec()),
        &dir(),
        &mut state,
    );
    assert!(matches!(o, Outcome::Handled));
    assert!(effects.is_empty());
    assert_eq!(state.save_bytes(), before);
}

#[test]
fn unrecognized_request_reports_the_raw_body() {
    let our = our();
    let mut state = State::load(None);
    let (o, effects) = handle_message(
        &our,
        &peer_request(b"unintelligible".to_vec(), None),
        &dir(),
        &mut state,
    );
    match o {
        Outcome::Failed(ClientError::UnrecognizedRequest { body }) => {
            assert_eq!(body, b"unintelligible".to_vec());
        },
        _ => panic!("an unrecognized request must be reported with its body"),
    }
    assert!(effects.is_empty());
}

#[test]
fn bad_admin_arguments_are_errors() {
    let our = our();
    let mut state = State::load(None);
    let body = encode_admin_request(&AdminRequest::SetRouterProcess {
        process_id: b"not a process id".to_vec(),
    });
    let (o, effects) = handle_message(&our, &local_request(body), &dir(), &mut state);
    assert!(matches!(o, Outcome::Failed(ClientError::BadProcessId)));
    assert!(effects.is_empty());

    let body = encode_admin_request(&AdminRequest::SetRollupSequencer {
        address: b"no at sign here".to_vec(),
    });
    let (o, effects) = handle_message(&our, &local_request(body), &dir(), &mut state);
    assert!(matches!(o, Outcome::Failed(ClientError::BadAddress)));
    assert!(effects.is_empty());
}

#[test]
fn snapshot_request_without_sequencer_reports_failure_both_ways() {
    let our = our();
    let mut state = State::load(None);
    let body = encode_admin_request(&AdminRequest::GetRollupState);
    let (o, effects) = handle_message(&our, &local_request(body), &dir(), &mut state);
    assert!(matches!(o, Outcome::Failed(ClientError::SequencerNotSet)));
    // the caller is also answered, with the failure named in the response
    assert_eq!(effects.len(), 1);
    assert!(matches!(&effects[0], Effect::SendResponse { .. }));
}

#[test]
fn snapshot_request_with_sequencer_triggers_sync() {
    let our = our();
    let mut state = State::load(None);
    state.rollup_sequencer = parse_address(&b"seq.os@rollup:app:pub.os".to_vec());
    let body = encode_admin_request(&AdminRequest::GetRollupState);
    let (o, effects) = handle_message(&our, &local_request(body), &dir(), &mut state);
    assert!(effects.is_empty());
    match o {
        Outcome::AwaitSync { call, pending } => {
            assert_eq!(call.target.node, b"seq.os".to_vec());
            assert!(matches!(pending, AfterSync::GetSnapshot));
        },
        _ => panic!("a snapshot request must trigger a sync"),
    }
}

#[test]
fn update_without_tracked_job_seeds_a_session() {
    let our = our();
    let mut state = State::load(None);
    // recover from a missed queued-confirmation
    let msg = peer_request(update_body(5, false), Some(b"img".to_vec()));
    let (o, effects) = handle_message(&our, &msg, &dir(), &mut state);
    assert!(matches!(o, Outcome::Handled));
    // the seeded session is persisted before the update is applied
    assert!(matches!(&effects[0], Effect::SaveState { .. }));
    assert!(matches!(&effects[1], Effect::SaveState { .. }));
    match &effects[2] {
        Effect::WriteArtifact { path, .. } => assert_eq!(*path, b"images/5-0.jpg".to_vec()),
        _ => panic!("the artifact must be written"),
    }
    let job = state.current_job.as_ref().unwrap();
    assert_eq!(job.job_id, 5);
    assert_eq!(job.next_image_number, 1);
}

#[test]
fn update_without_payload_is_an_error() {
    let our = our();
    let mut state = State::load(None);
    let body = encode_public_response(&PublicResponse::RunJob(RunResponse::JobQueued {
        job_id: 5,
    }));
    let (_, _) = handle_message(&our, &router_response(body), &dir(), &mut state);
    let msg = peer_request(update_body(5, false), None);
    let (o, effects) = handle_message(&our, &msg, &dir(), &mut state);
    assert!(matches!(o, Outcome::Failed(ClientError::UpdateMissingBlob)));
    assert!(effects.is_empty());
    // the tracked session is untouched
    assert_eq!(state.current_job.as_ref().unwrap().next_image_number, 0);
}

#[test]
fn payment_required_and_errors_change_nothing() {
    let our = our();
    let mut state = State::load(None);
    let before = state.save_bytes();
    let body = encode_public_response(&PublicResponse::RunJob(RunResponse::PaymentRequired));
    let (o, effects) = handle_message(&our, &router_response(body), &dir(), &mut state);
    assert!(matches!(o, Outcome::Handled));
    assert!(effects.is_empty());
    assert_eq!(state.save_bytes(), before);

    let body =
        encode_public_response(&PublicResponse::RunJob(RunResponse::Error(b"busy".to_vec())));
    let (o, effects) = handle_message(&our, &router_response(body), &dir(), &mut state);
    assert!(matches!(o, Outcome::Handled));
    assert!(effects.is_empty());
    assert_eq!(state.save_bytes(), before);
}

#[test]
fn nonfinal_updates_are_numbered_in_receipt_order() {
    let our = our();
    let mut state = State::load(None);
    let body = encode_public_response(&PublicResponse::RunJob(RunResponse::JobQueued {
        job_id: 9,
    }));
    let (_, _) = handle_message(&our, &router_response(body), &dir(), &mut state);

    for expected in 0u32..3 {
        let msg = peer_request(update_body(9, false), Some(vec![expected as u8]));
        let (o, effects) = handle_message(&our, &msg, &dir(), &mut state);
        assert!(matches!(o, Outcome::Handled));
        match &effects[1] {
            Effect::WriteArtifact { path, .. } => {
                let want = format!("images/9-{}.jpg", expected).into_bytes();
                assert_eq!(*path, want);
            },
            _ => panic!("each accepted update writes one artifact"),
        }
        assert_eq!(state.current_job.as_ref().unwrap().next_image_number, expected + 1);
    }
}

#[test]
fn chain_sync_needs_a_sequencer() {
    let mut state = State::load(None);
    assert!(matches!(begin_chain_sync(&state), Err(ClientError::SequencerNotSet)));
    state.rollup_sequencer = parse_address(&b"seq.os@rollup:app:pub.os".to_vec());
    let call = match begin_chain_sync(&state) {
        Ok(call) => call,
        Err(_) => panic!("a configured sequencer can be synced"),
    };
    assert_eq!(call.target.node, b"seq.os".to_vec());
    assert!(call.body.is_empty());
    assert_eq!(call.timeout_s, SYNC_TIMEOUT_S);
}

#[test]
fn artifact_paths_follow_the_store_convention() {
    assert_eq!(artifact_file_path(&b"images".to_vec(), 42, Some(0)), b"images/42-0.jpg".to_vec());
    assert_eq!(artifact_file_path(&b"images".to_vec(), 42, None), b"images/42-final.jpg".to_vec());
    assert_eq!(
        artifact_file_path(&b"d".to_vec(), 1234567890123, Some(407)),
        b"d/1234567890123-407.jpg".to_vec()
    );
    assert_eq!(artifact_file_path(&b"d".to_vec(), 0, Some(0)), b"d/0-0.jpg".to_vec());
}
