use client::chain::{
    ChainAddress, MemberEntry, OnChainDaoState, Proposal, ProposalEntry, ProposalInProgress,
    SignedVote, Vote, VoteEntry,
};
use client::endpoint::{parse_address, parse_process_id};
use client::state::{CurrentJob, State};
use client::wire::{
    decode_admin_request, decode_public_request, decode_public_response, decode_context_u64,
    decode_sequencer_request, decode_sequencer_response, encode_admin_request,
    encode_admin_response, encode_context_u64, encode_public_request, encode_public_response,
    encode_sequencer_request, encode_sequencer_response, AdminRequest, AdminResponse,
    JobParameters, PublicRequest, PublicResponse, ReadRequest, RunResponse, SequencerRequest,
    SequencerResponse, ReadResponse,
};

fn sample_dao() -> OnChainDaoState {
    OnChainDaoState {
        routers: vec![b"router.node".to_vec()],
        members: vec![
            MemberEntry { who: b"alice.os".to_vec(), addr: ChainAddress { bytes: vec![7u8; 20] } },
            MemberEntry { who: b"bob.os".to_vec(), addr: ChainAddress { bytes: vec![9u8; 20] } },
        ],
        proposals: vec![ProposalEntry {
            id: 3,
            value: ProposalInProgress {
                proposal: Proposal::ChangeQueueResponseTimeoutSeconds(42),
                votes: vec![VoteEntry {
                    who: b"alice.os".to_vec(),
                    vote: SignedVote {
                        vote: Vote { proposal_hash: 11, is_yea: true },
                        signature: 99,
                    },
                }],
            },
        }],
        queue_response_timeout_seconds: 30,
        serve_timeout_seconds: 600,
        max_outstanding_payments: 3,
        payment_period_hours: 24,
    }
}

#[test]
fn admin_request_round_trips() {
    let reqs = vec![
        AdminRequest::SetRouterProcess { process_id: b"router:pkg:pub.os".to_vec() },
        AdminRequest::SetRollupSequencer { address: b"seq.os@rollup:pkg:pub.os".to_vec() },
        AdminRequest::GetRollupState,
    ];
    for a in &reqs {
        let body = encode_admin_request(a);
        let back = decode_admin_request(&body).expect("admin body must decode");
        match (a, &back) {
            (
                AdminRequest::SetRouterProcess { process_id: x },
                AdminRequest::SetRouterProcess { process_id: y },
            ) => assert_eq!(x, y),
            (
                AdminRequest::SetRollupSequencer { address: x },
                AdminRequest::SetRollupSequencer { address: y },
            ) => assert_eq!(x, y),
            (AdminRequest::GetRollupState, AdminRequest::GetRollupState) => {},
            _ => panic!("variant changed in round trip"),
        }
    }
}

#[test]
fn public_request_round_trips() {
    let run = PublicRequest::RunJob(JobParameters {
        workflow: b"upscale".to_vec(),
        parameters: b"{\"steps\":20}".to_vec(),
    });
    let body = encode_public_request(&run);
    match decode_public_request(&body) {
        Some(PublicRequest::RunJob(j)) => {
            assert_eq!(j.workflow, b"upscale".to_vec());
            assert_eq!(j.parameters, b"{\"steps\":20}".to_vec());
        },
        _ => panic!("run-job body did not decode back"),
    }

    let upd = PublicRequest::JobUpdate { job_id: 42, is_final: false, signature: Ok(7) };
    let body = encode_public_request(&upd);
    match decode_public_request(&body) {
        Some(PublicRequest::JobUpdate { job_id, is_final, signature }) => {
            assert_eq!(job_id, 42);
            assert!(!is_final);
            assert_eq!(signature, Ok(7));
        },
        _ => panic!("job-update body did not decode back"),
    }

    let upd_err = PublicRequest::JobUpdate {
        job_id: 1,
        is_final: true,
        signature: Err(b"bad sig".to_vec()),
    };
    let body = encode_public_request(&upd_err);
    match decode_public_request(&body) {
        Some(PublicRequest::JobUpdate { job_id, is_final, signature }) => {
            assert_eq!(job_id, 1);
            assert!(is_final);
            assert_eq!(signature, Err(b"bad sig".to_vec()));
        },
        _ => panic!("job-update body did not decode back"),
    }
}

#[test]
fn public_response_round_trips() {
    let body = encode_public_response(&PublicResponse::RunJob(RunResponse::JobQueued {
        job_id: 42,
    }));
    assert!(matches!(
        decode_public_response(&body),
        Some(PublicResponse::RunJob(RunResponse::JobQueued { job_id: 42 }))
    ));
    let body = encode_public_response(&PublicResponse::RunJob(RunResponse::PaymentRequired));
    assert!(matches!(
        decode_public_response(&body),
        Some(PublicResponse::RunJob(RunResponse::PaymentRequired))
    ));
    let body =
        encode_public_response(&PublicResponse::RunJob(RunResponse::Error(b"nope".to_vec())));
    match decode_public_response(&body) {
        Some(PublicResponse::RunJob(RunResponse::Error(e))) => assert_eq!(e, b"nope".to_vec()),
        _ => panic!("error response did not decode back"),
    }
    let body = encode_public_response(&PublicResponse::JobUpdate);
    assert!(matches!(decode_public_response(&body), Some(PublicResponse::JobUpdate)));
}

#[test]
fn sequencer_shapes_round_trip() {
    let body = encode_sequencer_request(&SequencerRequest::Read(ReadRequest::All));
    assert!(matches!(
        decode_sequencer_request(&body),
        Some(SequencerRequest::Read(ReadRequest::All))
    ));

    let body = encode_sequencer_response(&SequencerResponse::Read(ReadResponse::All(sample_dao())));
    match decode_sequencer_response(&body) {
        Some(SequencerResponse::Read(ReadResponse::All(d))) => {
            assert_eq!(d.routers, vec![b"router.node".to_vec()]);
            assert_eq!(d.members.len(), 2);
            assert_eq!(d.members[1].who, b"bob.os".to_vec());
            assert_eq!(d.members[1].addr.bytes, vec![9u8; 20]);
            assert_eq!(d.proposals.len(), 1);
            assert_eq!(d.proposals[0].id, 3);
            assert!(matches!(
                d.proposals[0].value.proposal,
                Proposal::ChangeQueueResponseTimeoutSeconds(42)
            ));
            assert_eq!(d.proposals[0].value.votes[0].vote.vote.proposal_hash, 11);
            assert!(d.proposals[0].value.votes[0].vote.vote.is_yea);
            assert_eq!(d.proposals[0].value.votes[0].vote.signature, 99);
            assert_eq!(d.queue_response_timeout_seconds, 30);
            assert_eq!(d.serve_timeout_seconds, 600);
            assert_eq!(d.max_outstanding_payments, 3);
            assert_eq!(d.payment_period_hours, 24);
        },
        _ => panic!("snapshot response did not decode back"),
    }

    let body = encode_sequencer_response(&SequencerResponse::Write);
    assert!(matches!(decode_sequencer_response(&body), Some(SequencerResponse::Write)));
}

#[test]
fn wire_shapes_are_mutually_exclusive() {
    let admin = encode_admin_request(&AdminRequest::GetRollupState);
    assert!(decode_public_request(&admin).is_none());
    assert!(decode_public_response(&admin).is_none());

    let public = encode_public_request(&PublicRequest::RunJob(JobParameters {
        workflow: b"w".to_vec(),
        parameters: b"p".to_vec(),
    }));
    assert!(decode_admin_request(&public).is_none());
    assert!(decode_public_response(&public).is_none());

    let resp = encode_public_response(&PublicResponse::JobUpdate);
    assert!(decode_admin_request(&resp).is_none());
    assert!(decode_public_request(&resp).is_none());
}

#[test]
fn garbage_and_truncated_bodies_do_not_decode() {
    assert!(decode_admin_request(&vec![]).is_none());
    assert!(decode_admin_request(&b"hello world".to_vec()).is_none());
    let mut body = encode_admin_request(&AdminRequest::SetRouterProcess {
        process_id: b"a:b:c".to_vec(),
    });
    body.pop();
    assert!(decode_admin_request(&body).is_none());
    // trailing bytes are refused too
    let mut body = encode_admin_request(&AdminRequest::GetRollupState);
    body.push(0);
    assert!(decode_admin_request(&body).is_none());
}

#[test]
fn timer_context_round_trips() {
    let ctx = encode_context_u64(42);
    assert_eq!(ctx.len(), 8);
    assert_eq!(decode_context_u64(&ctx), Some(42));
    assert_eq!(decode_context_u64(&vec![]), None);
    assert_eq!(decode_context_u64(&vec![1, 2, 3]), None);
}

#[test]
fn admin_response_encodings_differ_by_outcome() {
    let ok = encode_admin_response(&AdminResponse::GetRollupState { err: None });
    let bad = encode_admin_response(&AdminResponse::GetRollupState {
        err: Some(b"no rollup sequencer set".to_vec()),
    });
    assert_ne!(ok, bad);
}

#[test]
fn state_record_round_trips() {
    let st = State {
        current_job: Some(CurrentJob { job_id: 42, next_image_number: 3 }),
        router_process: parse_process_id(&b"router:pkg:pub.os".to_vec()),
        rollup_sequencer: parse_address(&b"seq.os@rollup:pkg:pub.os".to_vec()),
        on_chain_state: sample_dao(),
    };
    let bytes = st.save_bytes();
    let back = State::load(Some(bytes.clone()));
    assert_eq!(back.save_bytes(), bytes);
    let job = back.current_job.expect("job must survive the round trip");
    assert_eq!(job.job_id, 42);
    assert_eq!(job.next_image_number, 3);
    assert_eq!(back.on_chain_state.routers, vec![b"router.node".to_vec()]);
}

#[test]
fn state_load_falls_back_to_default() {
    let fresh = State::load(None);
    assert!(fresh.current_job.is_none());
    assert!(fresh.router_process.is_none());
    assert!(fresh.rollup_sequencer.is_none());
    assert!(fresh.on_chain_state.routers.is_empty());
    assert_eq!(fresh.on_chain_state.queue_response_timeout_seconds, 0);

    let garbled = State::load(Some(b"not a record".to_vec()));
    assert!(garbled.current_job.is_none());
    assert!(garbled.rollup_sequencer.is_none());
}

#[test]
fn process_id_grammar() {
    let p = parse_process_id(&b"proc:pkg:pub.os".to_vec()).expect("three segments must parse");
    assert_eq!(p.process_name, b"proc".to_vec());
    assert_eq!(p.package_name, b"pkg".to_vec());
    assert_eq!(p.publisher_node, b"pub.os".to_vec());

    assert!(parse_process_id(&b"proc:pkg".to_vec()).is_none());
    assert!(parse_process_id(&b"a:b:c:d".to_vec()).is_none());
    assert!(parse_process_id(&b":pkg:pub".to_vec()).is_none());
    assert!(parse_process_id(&b"proc::pub".to_vec()).is_none());
    assert!(parse_process_id(&b"proc:pkg:".to_vec()).is_none());
    assert!(parse_process_id(&b"".to_vec()).is_none());
}

#[test]
fn address_grammar() {
    let a = parse_address(&b"node.os@proc:pkg:pub.os".to_vec()).expect("address must parse");
    assert_eq!(a.node, b"node.os".to_vec());
    assert_eq!(a.process.process_name, b"proc".to_vec());

    assert!(parse_address(&b"proc:pkg:pub.os".to_vec()).is_none());
    assert!(parse_address(&b"@proc:pkg:pub".to_vec()).is_none());
    assert!(parse_address(&b"a@b@proc:pkg:pub".to_vec()).is_none());
    assert!(parse_address(&b"node.os@proc:pkg".to_vec()).is_none());
}
