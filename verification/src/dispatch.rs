//! Message dispatch and the job lifecycle state machine.
//!
//! Every inbound envelope is classified by ordered decode-and-fallback:
//! admin request (with an authorization check that is terminal once the
//! body is admin-shaped), then public request, then — for responses —
//! public response and finally the watchdog-timer notification. A decode
//! miss is an internal routing signal and never the surfaced error.
//!
//! Handlers are pure transitions: they mutate the state record and return
//! the outcome together with the effects (sends, timer, artifact write,
//! state save) for the surrounding process to perform, in order. The exact
//! transition is given by the `s_*` spec functions; each executable handler
//! is proved to implement its spec transition.

use vstd::prelude::*;
use crate::codec::senc_u64;
use crate::endpoint::{
    Address, AddressV, ProcessId, ProcessIdV, bytes_eq, clone_address, clone_bytes,
    clone_process_id, process_id_eq, sparse_address, sparse_process_id, parse_address,
    parse_process_id,
};
use crate::state::{
    CurrentJob, CurrentJobV, State, StateV, senc_state,
};
use crate::wire::{
    AdminRequest, AdminRequestV, AdminResponse, AdminResponseV, PublicRequest, PublicRequestV,
    PublicResponse, PublicResponseV, ReadRequest, ReadRequestV, ReadResponse, ReadResponseV,
    RunResponse, RunResponseV, SequencerRequest, SequencerRequestV, SequencerResponse,
    SequencerResponseV, sdec_admin_request, sdec_public_request, sdec_public_response,
    sdec_sequencer_response, sdec_context_u64, senc_admin_response,
    senc_sequencer_request, decode_admin_request, decode_public_request,
    decode_public_response, decode_sequencer_response, decode_context_u64, encode_admin_response,
    encode_sequencer_request, encode_context_u64,
};

verus! {

// ---------------------------------------------------------------------------
// inbound messages, errors, effects, outcomes
// ---------------------------------------------------------------------------

/// One inbound envelope, as the transport hands it over.
pub struct InboundMessage {
    pub is_request: bool,
    pub source: Address,
    pub body: Vec<u8>,
    pub blob: Option<Vec<u8>>,
    pub context: Option<Vec<u8>>,
}

pub ghost struct InboundMessageV {
    pub is_request: bool,
    pub source: AddressV,
    pub body: Seq<u8>,
    pub blob: Option<Seq<u8>>,
    pub context: Option<Seq<u8>>,
}

pub open spec fn opt_bytes_view(o: Option<Vec<u8>>) -> Option<Seq<u8>> {
    match o {
        Some(b) => Some(b@),
        None => None,
    }
}

impl View for InboundMessage {
    type V = InboundMessageV;

    open spec fn view(&self) -> InboundMessageV {
        InboundMessageV {
            is_request: self.is_request,
            source: self.source@,
            body: self.body@,
            blob: opt_bytes_view(self.blob),
            context: opt_bytes_view(self.context),
        }
    }
}

/// Errors a handler surfaces to the event loop. A decode miss is not among
/// them: it is recovered internally by falling through to the next
/// classifier.
pub enum ClientError {
    /// An admin-shaped request came from a node other than our own.
    Unauthorized,
    /// A job submission arrived while a job is already in flight.
    JobInFlight,
    /// A job submission arrived before the router endpoint was set.
    RouterNotSet,
    /// A job submission or snapshot request arrived before the sequencer
    /// endpoint was set.
    SequencerNotSet,
    /// The admin-supplied process identifier does not parse.
    BadProcessId,
    /// The admin-supplied sequencer address does not parse.
    BadAddress,
    /// The chain-sync round trip timed out or could not be sent.
    SyncTimedOut,
    /// The chain-sync reply carried no binary payload.
    SyncNoBlob,
    /// The chain-sync reply was not a read-all snapshot.
    SyncWrongResponse,
    /// A streamed update carried no binary payload.
    UpdateMissingBlob,
    /// A timer notification whose correlation context is not a job id.
    MalformedTimerContext,
    /// The watchdog fired for the job currently tracked.
    JobTimedOut { job_id: u64 },
    /// A request matching no known shape; the raw body is kept for
    /// diagnostics.
    UnrecognizedRequest { body: Vec<u8> },
}

pub ghost enum ClientErrorV {
    Unauthorized,
    JobInFlight,
    RouterNotSet,
    SequencerNotSet,
    BadProcessId,
    BadAddress,
    SyncTimedOut,
    SyncNoBlob,
    SyncWrongResponse,
    UpdateMissingBlob,
    MalformedTimerContext,
    JobTimedOut { job_id: u64 },
    UnrecognizedRequest { body: Seq<u8> },
}

impl View for ClientError {
    type V = ClientErrorV;

    open spec fn view(&self) -> ClientErrorV {
        match self {
            ClientError::Unauthorized => ClientErrorV::Unauthorized,
            ClientError::JobInFlight => ClientErrorV::JobInFlight,
            ClientError::RouterNotSet => ClientErrorV::RouterNotSet,
            ClientError::SequencerNotSet => ClientErrorV::SequencerNotSet,
            ClientError::BadProcessId => ClientErrorV::BadProcessId,
            ClientError::BadAddress => ClientErrorV::BadAddress,
            ClientError::SyncTimedOut => ClientErrorV::SyncTimedOut,
            ClientError::SyncNoBlob => ClientErrorV::SyncNoBlob,
            ClientError::SyncWrongResponse => ClientErrorV::SyncWrongResponse,
            ClientError::UpdateMissingBlob => ClientErrorV::UpdateMissingBlob,
            ClientError::MalformedTimerContext => ClientErrorV::MalformedTimerContext,
            ClientError::JobTimedOut { job_id } => ClientErrorV::JobTimedOut { job_id: *job_id },
            ClientError::UnrecognizedRequest { body } => ClientErrorV::UnrecognizedRequest {
                body: body@,
            },
        }
    }
}

/// One observable side effect, to be performed by the surrounding process
/// in the order given.
pub enum Effect {
    /// Send a request; the reply will arrive as a later inbound message.
    SendRequest { target: Address, body: Vec<u8>, expects_response_s: u64 },
    /// Respond to the message being handled.
    SendResponse { body: Vec<u8> },
    /// Schedule a one-shot watchdog notification with correlation context.
    SetTimer { duration_ms: u64, context: Vec<u8> },
    /// Append an artifact blob under the given store path.
    WriteArtifact { path: Vec<u8>, bytes: Vec<u8> },
    /// Overwrite the persisted record with these bytes.
    SaveState { bytes: Vec<u8> },
}

pub ghost enum EffectV {
    SendRequest { target: AddressV, body: Seq<u8>, expects_response_s: u64 },
    SendResponse { body: Seq<u8> },
    SetTimer { duration_ms: u64, context: Seq<u8> },
    WriteArtifact { path: Seq<u8>, bytes: Seq<u8> },
    SaveState { bytes: Seq<u8> },
}

impl View for Effect {
    type V = EffectV;

    open spec fn view(&self) -> EffectV {
        match self {
            Effect::SendRequest { target, body, expects_response_s } => EffectV::SendRequest {
                target: target@,
                body: body@,
                expects_response_s: *expects_response_s,
            },
            Effect::SendResponse { body } => EffectV::SendResponse { body: body@ },
            Effect::SetTimer { duration_ms, context } => EffectV::SetTimer {
                duration_ms: *duration_ms,
                context: context@,
            },
            Effect::WriteArtifact { path, bytes } => EffectV::WriteArtifact {
                path: path@,
                bytes: bytes@,
            },
            Effect::SaveState { bytes } => EffectV::SaveState { bytes: bytes@ },
        }
    }
}

pub open spec fn effects_view(s: Seq<Effect>) -> Seq<EffectV> {
    s.map_values(|e: Effect| e@)
}

/// The blocking read-all round trip the surrounding process must perform:
/// send `blob` to `target` and wait at most `timeout_s` for the reply.
pub struct SyncCall {
    pub target: Address,
    pub body: Vec<u8>,
    pub blob: Vec<u8>,
    pub timeout_s: u64,
}

pub ghost struct SyncCallV {
    pub target: AddressV,
    pub body: Seq<u8>,
    pub blob: Seq<u8>,
    pub timeout_s: u64,
}

impl View for SyncCall {
    type V = SyncCallV;

    open spec fn view(&self) -> SyncCallV {
        SyncCallV {
            target: self.target@,
            body: self.body@,
            blob: self.blob@,
            timeout_s: self.timeout_s,
        }
    }
}

/// Which admin operation is waiting for the sync round trip to finish.
#[derive(Clone, Copy, PartialEq, Eq, Structural)]
pub enum AfterSync {
    SetSequencer,
    GetSnapshot,
}

/// How the sync round trip ended: a reply (with or without a binary
/// payload), or no reply within the budget.
pub enum SyncEvent {
    Reply { blob: Option<Vec<u8>> },
    TimedOut,
}

pub ghost enum SyncEventV {
    Reply { blob: Option<Seq<u8>> },
    TimedOut,
}

impl View for SyncEvent {
    type V = SyncEventV;

    open spec fn view(&self) -> SyncEventV {
        match self {
            SyncEvent::Reply { blob } => SyncEventV::Reply { blob: opt_bytes_view(*blob) },
            SyncEvent::TimedOut => SyncEventV::TimedOut,
        }
    }
}

/// The handling outcome of one inbound message.
pub enum Outcome {
    /// Handled to completion (which includes business replies that need no
    /// further action, such as a payment-required notice).
    Handled,
    /// A business error, surfaced to the loop and logged there.
    Failed(ClientError),
    /// The handler needs the blocking sync round trip; the loop performs
    /// `call` and resumes with `resume_after_sync`.
    AwaitSync { call: SyncCall, pending: AfterSync },
}

pub ghost enum OutcomeV {
    Handled,
    Failed(ClientErrorV),
    AwaitSync { call: SyncCallV, pending: AfterSync },
}

impl View for Outcome {
    type V = OutcomeV;

    open spec fn view(&self) -> OutcomeV {
        match self {
            Outcome::Handled => OutcomeV::Handled,
            Outcome::Failed(e) => OutcomeV::Failed(e@),
            Outcome::AwaitSync { call, pending } => OutcomeV::AwaitSync {
                call: call@,
                pending: *pending,
            },
        }
    }
}

/// What one classifier made of the body: handled under its shape, or no
/// match, so the next classifier must be tried.
pub enum Dispatched {
    NoMatch,
    Done(Outcome),
}

pub ghost enum DispatchedV {
    NoMatch,
    Done(OutcomeV),
}

impl View for Dispatched {
    type V = DispatchedV;

    open spec fn view(&self) -> DispatchedV {
        match self {
            Dispatched::NoMatch => DispatchedV::NoMatch,
            Dispatched::Done(o) => DispatchedV::Done(o@),
        }
    }
}

// ---------------------------------------------------------------------------
// fixed protocol values
// ---------------------------------------------------------------------------

/// Watchdog budget for a queued job, in milliseconds.
pub const JOB_TIMEOUT_MS: u64 = 10000;

/// Seconds the forwarded run request waits for the router's answer.
pub const RUN_EXPECTS_RESPONSE_S: u64 = 20;

/// Timeout budget of the blocking sync round trip, in seconds.
pub const SYNC_TIMEOUT_S: u64 = 5;

/// The well-known identity of the timer facility on our own node.
pub open spec fn timer_process_id() -> ProcessIdV {
    ProcessIdV {
        process_name: seq![116, 105, 109, 101, 114],
        package_name: seq![100, 105, 115, 116, 114, 111],
        publisher_node: seq![115, 121, 115],
    }
}

pub open spec fn is_timer_source(our: AddressV, src: AddressV) -> bool {
    src.node == our.node && src.process == timer_process_id()
}

/// The failure text reported when a snapshot is requested with no
/// sequencer endpoint set.
pub open spec fn no_sequencer_text() -> Seq<u8> {
    seq![
        110, 111, 32, 114, 111, 108, 108, 117, 112, 32, 115, 101, 113, 117, 101,
        110, 99, 101, 114, 32, 115, 101, 116,
    ]
}

/// The body of the read-all request every sync round trip carries.
pub open spec fn sync_request_blob() -> Seq<u8> {
    senc_sequencer_request(SequencerRequestV::Read(ReadRequestV::All))
}

pub open spec fn sync_call_to(target: AddressV) -> SyncCallV {
    SyncCallV { target, body: Seq::empty(), blob: sync_request_blob(), timeout_s: SYNC_TIMEOUT_S }
}

// ---------------------------------------------------------------------------
// artifact store paths
// ---------------------------------------------------------------------------

/// Decimal digits of `n`, most significant first.
pub open spec fn dec_digits(n: nat) -> Seq<u8>
    decreases n,
{
    if n < 10 {
        seq![(48 + n) as u8]
    } else {
        dec_digits(n / 10) + seq![(48 + n % 10) as u8]
    }
}

/// `{dir}/{job_id}-{index}.jpg`, with the literal marker `final` in place
/// of the index for the final artifact.
pub open spec fn artifact_path(dir: Seq<u8>, job_id: u64, index: Option<u32>) -> Seq<u8> {
    dir + seq![47] + dec_digits(job_id as nat) + seq![45] + (match index {
        Some(n) => dec_digits(n as nat),
        None => seq![102, 105, 110, 97, 108],
    }) + seq![46, 106, 112, 103]
}

pub fn push_decimal(out: &mut Vec<u8>, v: u64)
    ensures
        final(out)@ == old(out)@ + dec_digits(v as nat),
    decreases v,
{
    if v < 10 {
        out.push(48 + (v as u8));
        proof {
            assert(out@ =~= old(out)@ + dec_digits(v as nat));
        }
    } else {
        push_decimal(out, v / 10);
        out.push(48 + ((v % 10) as u8));
        proof {
            assert((v as nat) / 10 == (v / 10) as nat);
            assert((v as nat) % 10 == (v % 10) as nat);
            assert(out@ =~= old(out)@ + dec_digits(v as nat));
        }
    }
}

/// The artifact store path for one received artifact.
pub fn artifact_file_path(dir: &Vec<u8>, job_id: u64, index: Option<u32>) -> (r: Vec<u8>)
    ensures
        r@ == artifact_path(dir@, job_id, index),
{
    let mut out = clone_bytes(dir);
    out.push(47);
    push_decimal(&mut out, job_id);
    out.push(45);
    match index {
        Some(n) => push_decimal(&mut out, n as u64),
        None => {
            out.push(102);
            out.push(105);
            out.push(110);
            out.push(97);
            out.push(108);
        },
    }
    out.push(46);
    out.push(106);
    out.push(112);
    out.push(103);
    proof {
        assert(out@ =~= artifact_path(dir@, job_id, index));
    }
    out
}

// ---------------------------------------------------------------------------
// transition specifications
// ---------------------------------------------------------------------------

pub ghost struct SubStepV {
    pub st: StateV,
    pub effects: Seq<EffectV>,
    pub d: DispatchedV,
}

pub ghost struct StepV {
    pub st: StateV,
    pub effects: Seq<EffectV>,
    pub outcome: OutcomeV,
}

pub ghost struct SyncStepV {
    pub st: StateV,
    pub effects: Seq<EffectV>,
    pub result: Result<(), ClientErrorV>,
}

pub open spec fn with_router(st: StateV, p: ProcessIdV) -> StateV {
    StateV {
        current_job: st.current_job,
        router_process: Some(p),
        rollup_sequencer: st.rollup_sequencer,
        on_chain_state: st.on_chain_state,
    }
}

pub open spec fn with_sequencer(st: StateV, a: AddressV) -> StateV {
    StateV {
        current_job: st.current_job,
        router_process: st.router_process,
        rollup_sequencer: Some(a),
        on_chain_state: st.on_chain_state,
    }
}

pub open spec fn with_job(st: StateV, j: Option<CurrentJobV>) -> StateV {
    StateV {
        current_job: j,
        router_process: st.router_process,
        rollup_sequencer: st.rollup_sequencer,
        on_chain_state: st.on_chain_state,
    }
}

pub open spec fn with_snapshot(st: StateV, d: crate::chain::OnChainDaoStateV) -> StateV {
    StateV {
        current_job: st.current_job,
        router_process: st.router_process,
        rollup_sequencer: st.rollup_sequencer,
        on_chain_state: d,
    }
}

/// Admin classification and handling. `NoMatch` exactly when the body is
/// not admin-shaped; an admin-shaped body from a foreign node is rejected
/// terminally, with no state change and no effect.
pub open spec fn s_admin(our: AddressV, msg: InboundMessageV, st: StateV) -> SubStepV {
    match sdec_admin_request(msg.body) {
        None => SubStepV { st, effects: Seq::empty(), d: DispatchedV::NoMatch },
        Some(a) => if msg.source.node != our.node {
            SubStepV {
                st,
                effects: Seq::empty(),
                d: DispatchedV::Done(OutcomeV::Failed(ClientErrorV::Unauthorized)),
            }
        } else {
            match a {
                AdminRequestV::SetRouterProcess { process_id } => {
                    match sparse_process_id(process_id) {
                        None => SubStepV {
                            st,
                            effects: Seq::empty(),
                            d: DispatchedV::Done(OutcomeV::Failed(ClientErrorV::BadProcessId)),
                        },
                        Some(p) => {
                            let st1 = with_router(st, p);
                            SubStepV {
                                st: st1,
                                effects: seq![
                                    EffectV::SaveState { bytes: senc_state(st1) },
                                    EffectV::SendResponse {
                                        body: senc_admin_response(
                                            AdminResponseV::SetRouterProcess { err: None },
                                        ),
                                    },
                                ],
                                d: DispatchedV::Done(OutcomeV::Handled),
                            }
                        },
                    }
                },
                AdminRequestV::SetRollupSequencer { address } => {
                    match sparse_address(address) {
                        None => SubStepV {
                            st,
                            effects: Seq::empty(),
                            d: DispatchedV::Done(OutcomeV::Failed(ClientErrorV::BadAddress)),
                        },
                        Some(a2) => {
                            let st1 = with_sequencer(st, a2);
                            SubStepV {
                                st: st1,
                                effects: seq![EffectV::SaveState { bytes: senc_state(st1) }],
                                d: DispatchedV::Done(
                                    OutcomeV::AwaitSync {
                                        call: sync_call_to(a2),
                                        pending: AfterSync::SetSequencer,
                                    },
                                ),
                            }
                        },
                    }
                },
                AdminRequestV::GetRollupState => {
                    match st.rollup_sequencer {
                        None => SubStepV {
                            st,
                            effects: seq![
                                EffectV::SendResponse {
                                    body: senc_admin_response(
                                        AdminResponseV::GetRollupState {
                                            err: Some(no_sequencer_text()),
                                        },
                                    ),
                                },
                            ],
                            d: DispatchedV::Done(OutcomeV::Failed(ClientErrorV::SequencerNotSet)),
                        },
                        Some(a2) => SubStepV {
                            st,
                            effects: Seq::empty(),
                            d: DispatchedV::Done(
                                OutcomeV::AwaitSync {
                                    call: sync_call_to(a2),
                                    pending: AfterSync::GetSnapshot,
                                },
                            ),
                        },
                    }
                },
            }
        },
    }
}

/// Public-request classification and handling: job submission and
/// streamed updates.
pub open spec fn s_public_request(msg: InboundMessageV, dir: Seq<u8>, st: StateV) -> SubStepV {
    match sdec_public_request(msg.body) {
        None => SubStepV { st, effects: Seq::empty(), d: DispatchedV::NoMatch },
        Some(p) => match p {
            PublicRequestV::RunJob(_) => {
                if st.current_job is Some {
                    SubStepV {
                        st,
                        effects: Seq::empty(),
                        d: DispatchedV::Done(OutcomeV::Failed(ClientErrorV::JobInFlight)),
                    }
                } else if st.router_process is None {
                    SubStepV {
                        st,
                        effects: Seq::empty(),
                        d: DispatchedV::Done(OutcomeV::Failed(ClientErrorV::RouterNotSet)),
                    }
                } else if st.rollup_sequencer is None {
                    SubStepV {
                        st,
                        effects: Seq::empty(),
                        d: DispatchedV::Done(OutcomeV::Failed(ClientErrorV::SequencerNotSet)),
                    }
                } else {
                    SubStepV {
                        st,
                        effects: seq![
                            EffectV::SendRequest {
                                target: AddressV {
                                    node: st.on_chain_state.routers[0],
                                    process: st.router_process->Some_0,
                                },
                                body: msg.body,
                                expects_response_s: RUN_EXPECTS_RESPONSE_S,
                            },
                        ],
                        d: DispatchedV::Done(OutcomeV::Handled),
                    }
                }
            },
            PublicRequestV::JobUpdate { job_id, is_final, signature: _ } => {
                let seeded = st.current_job is None;
                let st1 = if seeded {
                    with_job(st, Some(CurrentJobV { job_id, next_image_number: 0 }))
                } else {
                    st
                };
                let eff0: Seq<EffectV> = if seeded {
                    seq![EffectV::SaveState { bytes: senc_state(st1) }]
                } else {
                    Seq::empty()
                };
                match msg.blob {
                    None => SubStepV {
                        st: st1,
                        effects: eff0,
                        d: DispatchedV::Done(OutcomeV::Failed(ClientErrorV::UpdateMissingBlob)),
                    },
                    Some(bytes) => {
                        let cur = st1.current_job->Some_0;
                        let path = artifact_path(
                            dir,
                            job_id,
                            if is_final {
                                None
                            } else {
                                Some(cur.next_image_number)
                            },
                        );
                        let st2 = if is_final {
                            with_job(st1, None)
                        } else {
                            with_job(
                                st1,
                                Some(
                                    CurrentJobV {
                                        job_id: cur.job_id,
                                        next_image_number: (cur.next_image_number + 1) as u32,
                                    },
                                ),
                            )
                        };
                        SubStepV {
                            st: st2,
                            effects: eff0 + seq![
                                EffectV::SaveState { bytes: senc_state(st2) },
                                EffectV::WriteArtifact { path, bytes },
                            ],
                            d: DispatchedV::Done(OutcomeV::Handled),
                        }
                    },
                }
            },
        },
    }
}

/// Public-response classification and handling: the router's answer to a
/// forwarded submission, and acknowledgments of updates.
pub open spec fn s_public_response(msg: InboundMessageV, st: StateV) -> SubStepV {
    match sdec_public_response(msg.body) {
        None => SubStepV { st, effects: Seq::empty(), d: DispatchedV::NoMatch },
        Some(p) => match p {
            PublicResponseV::RunJob(rr) => match rr {
                RunResponseV::JobQueued { job_id } => {
                    let st1 = with_job(st, Some(CurrentJobV { job_id, next_image_number: 0 }));
                    SubStepV {
                        st: st1,
                        effects: seq![
                            EffectV::SetTimer {
                                duration_ms: JOB_TIMEOUT_MS,
                                context: senc_u64(job_id),
                            },
                            EffectV::SaveState { bytes: senc_state(st1) },
                        ],
                        d: DispatchedV::Done(OutcomeV::Handled),
                    }
                },
                // payment-required and submission errors are logged by the
                // loop; the job was never admitted, so nothing changes
                RunResponseV::PaymentRequired => SubStepV {
                    st,
                    effects: Seq::empty(),
                    d: DispatchedV::Done(OutcomeV::Handled),
                },
                RunResponseV::Error(_) => SubStepV {
                    st,
                    effects: Seq::empty(),
                    d: DispatchedV::Done(OutcomeV::Handled),
                },
            },
            PublicResponseV::JobUpdate => SubStepV {
                st,
                effects: Seq::empty(),
                d: DispatchedV::Done(OutcomeV::Handled),
            },
        },
    }
}

/// Fallback for responses that matched no known shape: a notification from
/// the timer facility, or traffic to be ignored silently.
pub open spec fn s_timer(our: AddressV, msg: InboundMessageV, st: StateV) -> StepV {
    if !is_timer_source(our, msg.source) {
        StepV { st, effects: Seq::empty(), outcome: OutcomeV::Handled }
    } else {
        match st.current_job {
            // the job already finished; the stale timer is ignored
            None => StepV { st, effects: Seq::empty(), outcome: OutcomeV::Handled },
            Some(cur) => {
                let ctx = match msg.context {
                    Some(c) => c,
                    None => Seq::empty(),
                };
                match sdec_context_u64(ctx) {
                    None => StepV {
                        st,
                        effects: Seq::empty(),
                        outcome: OutcomeV::Failed(ClientErrorV::MalformedTimerContext),
                    },
                    Some(t) => if cur.job_id == t {
                        let st1 = with_job(st, None);
                        StepV {
                            st: st1,
                            effects: seq![EffectV::SaveState { bytes: senc_state(st1) }],
                            outcome: OutcomeV::Failed(ClientErrorV::JobTimedOut { job_id: t }),
                        }
                    } else {
                        // a timer for a job no longer tracked: ignored
                        StepV { st, effects: Seq::empty(), outcome: OutcomeV::Handled }
                    },
                }
            },
        }
    }
}

/// The whole dispatch: one inbound message, one outcome.
pub open spec fn s_handle_message(
    our: AddressV,
    msg: InboundMessageV,
    dir: Seq<u8>,
    st: StateV,
) -> StepV {
    if msg.is_request {
        let a = s_admin(our, msg, st);
        match a.d {
            DispatchedV::Done(o) => StepV { st: a.st, effects: a.effects, outcome: o },
            DispatchedV::NoMatch => {
                let p = s_public_request(msg, dir, st);
                match p.d {
                    DispatchedV::Done(o) => StepV { st: p.st, effects: p.effects, outcome: o },
                    DispatchedV::NoMatch => StepV {
                        st,
                        effects: Seq::empty(),
                        outcome: OutcomeV::Failed(
                            ClientErrorV::UnrecognizedRequest { body: msg.body },
                        ),
                    },
                }
            },
        }
    } else {
        let p = s_public_response(msg, st);
        match p.d {
            DispatchedV::Done(o) => StepV { st: p.st, effects: p.effects, outcome: o },
            DispatchedV::NoMatch => s_timer(our, msg, st),
        }
    }
}

/// Applying the sync round trip's outcome: only a well-shaped read-all
/// reply replaces the snapshot; every failure leaves the record untouched.
pub open spec fn s_apply_sync(st: StateV, ev: SyncEventV) -> SyncStepV {
    match ev {
        SyncEventV::TimedOut => SyncStepV {
            st,
            effects: Seq::empty(),
            result: Err(ClientErrorV::SyncTimedOut),
        },
        SyncEventV::Reply { blob } => match blob {
            None => SyncStepV { st, effects: Seq::empty(), result: Err(ClientErrorV::SyncNoBlob) },
            Some(bytes) => match sdec_sequencer_response(bytes) {
                Some(SequencerResponseV::Read(ReadResponseV::All(dao))) => {
                    let st1 = with_snapshot(st, dao);
                    SyncStepV {
                        st: st1,
                        effects: seq![EffectV::SaveState { bytes: senc_state(st1) }],
                        result: Ok(()),
                    }
                },
                _ => SyncStepV {
                    st,
                    effects: Seq::empty(),
                    result: Err(ClientErrorV::SyncWrongResponse),
                },
            },
        },
    }
}

/// Finishing the admin operation that awaited the sync: on success the
/// operation's success response is sent; on failure the error propagates
/// and no response is sent.
pub open spec fn s_resume(pending: AfterSync, ev: SyncEventV, st: StateV) -> SyncStepV {
    let a = s_apply_sync(st, ev);
    match a.result {
        Err(e) => a,
        Ok(()) => {
            let body = match pending {
                AfterSync::SetSequencer => senc_admin_response(
                    AdminResponseV::SetRollupSequencer { err: None },
                ),
                AfterSync::GetSnapshot => senc_admin_response(
                    AdminResponseV::GetRollupState { err: None },
                ),
            };
            SyncStepV {
                st: a.st,
                effects: a.effects + seq![EffectV::SendResponse { body }],
                result: Ok(()),
            }
        },
    }
}

// ---------------------------------------------------------------------------
// what the dispatcher requires of its caller
// ---------------------------------------------------------------------------

/// Machine limits the surrounding process must check before dispatching:
/// a submission can only be forwarded if the synchronized snapshot names a
/// router, and an accepted non-final update must not overflow the 32-bit
/// artifact counter.
pub open spec fn req_public(msg: InboundMessageV, st: StateV) -> bool {
    match sdec_public_request(msg.body) {
        Some(PublicRequestV::RunJob(_)) => (st.current_job is None && st.router_process is Some
            && st.rollup_sequencer is Some) ==> st.on_chain_state.routers.len() > 0,
        Some(PublicRequestV::JobUpdate { job_id: _, is_final, signature: _ }) => (msg.blob is Some
            && !is_final) ==> (match st.current_job {
            Some(c) => c.next_image_number,
            None => 0,
        }) < u32::MAX,
        _ => true,
    }
}

pub open spec fn req_handle(our: AddressV, msg: InboundMessageV, st: StateV) -> bool {
    (msg.is_request && sdec_admin_request(msg.body) is None) ==> req_public(msg, st)
}

// ---------------------------------------------------------------------------
// executable handlers
// ---------------------------------------------------------------------------

fn no_sequencer_vec() -> (r: Vec<u8>)
    ensures
        r@ == no_sequencer_text(),
{
    let mut out: Vec<u8> = Vec::new();
    out.push(110);
    out.push(111);
    out.push(32);
    out.push(114);
    out.push(111);
    out.push(108);
    out.push(108);
    out.push(117);
    out.push(112);
    out.push(32);
    out.push(115);
    out.push(101);
    out.push(113);
    out.push(117);
    out.push(101);
    out.push(110);
    out.push(99);
    out.push(101);
    out.push(114);
    out.push(32);
    out.push(115);
    out.push(101);
    out.push(116);
    proof {
        assert(out@ =~= no_sequencer_text());
    }
    out
}

/// Build the blocking read-all round trip aimed at the given sequencer.
fn make_sync_call(target: Address) -> (r: SyncCall)
    ensures
        r@ == sync_call_to(target@),
{
    let r = SyncCall {
        target,
        body: Vec::new(),
        blob: encode_sequencer_request(&SequencerRequest::Read(ReadRequest::All)),
        timeout_s: SYNC_TIMEOUT_S,
    };
    proof {
        assert(r@.body =~= Seq::<u8>::empty());
    }
    r
}

/// The blocking read-all round trip to the configured sequencer; the
/// precondition error exactly when no sequencer endpoint is set.
pub fn begin_chain_sync(state: &State) -> (r: Result<SyncCall, ClientError>)
    ensures
        match r {
            Ok(c) => state@.rollup_sequencer is Some && c@ == sync_call_to(
                state@.rollup_sequencer->Some_0,
            ),
            Err(e) => state@.rollup_sequencer is None && e@ == ClientErrorV::SequencerNotSet,
        },
{
    match &state.rollup_sequencer {
        None => Err(ClientError::SequencerNotSet),
        Some(a) => Ok(make_sync_call(clone_address(a))),
    }
}

/// Admin classification and handling; implements `s_admin`.
pub fn handle_admin_request(our: &Address, msg: &InboundMessage, state: &mut State) -> (r: (
    Dispatched,
    Vec<Effect>,
))
    ensures
        ({
            let step = s_admin(our@, msg@, old(state)@);
            final(state)@ == step.st && effects_view(r.1@) == step.effects && r.0@ == step.d
        }),
{
    let is_local = bytes_eq(&msg.source.node, &our.node);
    let empty: Vec<Effect> = Vec::new();
    proof {
        assert(effects_view(empty@) =~= Seq::<EffectV>::empty());
    }
    match decode_admin_request(&msg.body) {
        None => (Dispatched::NoMatch, empty),
        Some(a) => {
            if !is_local {
                return (Dispatched::Done(Outcome::Failed(ClientError::Unauthorized)), empty);
            }
            match a {
                AdminRequest::SetRouterProcess { process_id } => {
                    match parse_process_id(&process_id) {
                        None => (
                            Dispatched::Done(Outcome::Failed(ClientError::BadProcessId)),
                            empty,
                        ),
                        Some(p) => {
                            state.router_process = Some(p);
                            let mut effects: Vec<Effect> = Vec::new();
                            effects.push(Effect::SaveState { bytes: state.save_bytes() });
                            effects.push(
                                Effect::SendResponse {
                                    body: encode_admin_response(
                                        &AdminResponse::SetRouterProcess { err: None },
                                    ),
                                },
                            );
                            proof {
                                let step = s_admin(our@, msg@, old(state)@);
                                assert(state@ == step.st);
                                assert(effects_view(effects@) =~= step.effects);
                            }
                            (Dispatched::Done(Outcome::Handled), effects)
                        },
                    }
                },
                AdminRequest::SetRollupSequencer { address } => {
                    match parse_address(&address) {
                        None => (Dispatched::Done(Outcome::Failed(ClientError::BadAddress)), empty),
                        Some(a2) => {
                            let target = clone_address(&a2);
                            state.rollup_sequencer = Some(a2);
                            let mut effects: Vec<Effect> = Vec::new();
                            effects.push(Effect::SaveState { bytes: state.save_bytes() });
                            let call = make_sync_call(target);
                            proof {
                                let step = s_admin(our@, msg@, old(state)@);
                                assert(state@ == step.st);
                                assert(effects_view(effects@) =~= step.effects);
                            }
                            (
                                Dispatched::Done(
                                    Outcome::AwaitSync { call, pending: AfterSync::SetSequencer },
                                ),
                                effects,
                            )
                        },
                    }
                },
                AdminRequest::GetRollupState => {
                    match &state.rollup_sequencer {
                        None => {
                            let mut effects: Vec<Effect> = Vec::new();
                            effects.push(
                                Effect::SendResponse {
                                    body: encode_admin_response(
                                        &AdminResponse::GetRollupState {
                                            err: Some(no_sequencer_vec()),
                                        },
                                    ),
                                },
                            );
                            proof {
                                let step = s_admin(our@, msg@, old(state)@);
                                assert(effects_view(effects@) =~= step.effects);
                            }
                            (
                                Dispatched::Done(Outcome::Failed(ClientError::SequencerNotSet)),
                                effects,
                            )
                        },
                        Some(a2) => {
                            let call = make_sync_call(clone_address(a2));
                            (
                                Dispatched::Done(
                                    Outcome::AwaitSync { call, pending: AfterSync::GetSnapshot },
                                ),
                                empty,
                            )
                        },
                    }
                },
            }
        },
    }
}

/// Public-request classification and handling; implements
/// `s_public_request`.
pub fn handle_public_request(msg: &InboundMessage, images_dir: &Vec<u8>, state: &mut State) -> (r:
    (Dispatched, Vec<Effect>))
    requires
        req_public(msg@, old(state)@),
    ensures
        ({
            let step = s_public_request(msg@, images_dir@, old(state)@);
            final(state)@ == step.st && effects_view(r.1@) == step.effects && r.0@ == step.d
        }),
{
    let empty: Vec<Effect> = Vec::new();
    proof {
        assert(effects_view(empty@) =~= Seq::<EffectV>::empty());
    }
    match decode_public_request(&msg.body) {
        None => (Dispatched::NoMatch, empty),
        Some(PublicRequest::RunJob(_)) => {
            if state.current_job.is_some() {
                return (Dispatched::Done(Outcome::Failed(ClientError::JobInFlight)), empty);
            }
            if state.router_process.is_none() {
                return (Dispatched::Done(Outcome::Failed(ClientError::RouterNotSet)), empty);
            }
            if state.rollup_sequencer.is_none() {
                return (Dispatched::Done(Outcome::Failed(ClientError::SequencerNotSet)), empty);
            }
            let node = clone_bytes(&state.on_chain_state.routers[0]);
            let process = match &state.router_process {
                Some(p) => clone_process_id(p),
                None => vstd::pervasive::unreached(),
            };
            let mut effects: Vec<Effect> = Vec::new();
            effects.push(
                Effect::SendRequest {
                    target: Address { node, process },
                    body: clone_bytes(&msg.body),
                    expects_response_s: RUN_EXPECTS_RESPONSE_S,
                },
            );
            proof {
                let step = s_public_request(msg@, images_dir@, old(state)@);
                assert(effects_view(effects@) =~= step.effects);
            }
            (Dispatched::Done(Outcome::Handled), effects)
        },
        Some(PublicRequest::JobUpdate { job_id, is_final, signature: _ }) => {
            let mut effects: Vec<Effect> = Vec::new();
            if state.current_job.is_none() {
                // recover from a missed queued-confirmation: seed a fresh
                // session for the incoming job id, persist, and go on
                state.current_job = Some(CurrentJob { job_id, next_image_number: 0 });
                effects.push(Effect::SaveState { bytes: state.save_bytes() });
            }
            let ghost step = s_public_request(msg@, images_dir@, old(state)@);
            match &msg.blob {
                None => {
                    proof {
                        assert(state@ == step.st);
                        assert(effects_view(effects@) =~= step.effects);
                    }
                    (Dispatched::Done(Outcome::Failed(ClientError::UpdateMissingBlob)), effects)
                },
                Some(bytes) => {
                    let cur = match &state.current_job {
                        Some(c) => CurrentJob { job_id: c.job_id,
                            next_image_number: c.next_image_number },
                        None => vstd::pervasive::unreached(),
                    };
                    let path = artifact_file_path(
                        images_dir,
                        job_id,
                        if is_final {
                            None
                        } else {
                            Some(cur.next_image_number)
                        },
                    );
                    if is_final {
                        state.current_job = None;
                    } else {
                        state.current_job = Some(
                            CurrentJob {
                                job_id: cur.job_id,
                                next_image_number: cur.next_image_number + 1,
                            },
                        );
                    }
                    effects.push(Effect::SaveState { bytes: state.save_bytes() });
                    effects.push(Effect::WriteArtifact { path, bytes: clone_bytes(bytes) });
                    proof {
                        assert(state@ == step.st);
                        assert(effects_view(effects@) =~= step.effects);
                    }
                    (Dispatched::Done(Outcome::Handled), effects)
                },
            }
        },
    }
}

/// Public-response classification and handling; implements
/// `s_public_response`.
pub fn handle_public_response(msg: &InboundMessage, state: &mut State) -> (r: (
    Dispatched,
    Vec<Effect>,
))
    ensures
        ({
            let step = s_public_response(msg@, old(state)@);
            final(state)@ == step.st && effects_view(r.1@) == step.effects && r.0@ == step.d
        }),
{
    let empty: Vec<Effect> = Vec::new();
    proof {
        assert(effects_view(empty@) =~= Seq::<EffectV>::empty());
    }
    match decode_public_response(&msg.body) {
        None => (Dispatched::NoMatch, empty),
        Some(PublicResponse::RunJob(rr)) => match rr {
            RunResponse::JobQueued { job_id } => {
                let mut effects: Vec<Effect> = Vec::new();
                effects.push(
                    Effect::SetTimer {
                        duration_ms: JOB_TIMEOUT_MS,
                        context: encode_context_u64(job_id),
                    },
                );
                state.current_job = Some(CurrentJob { job_id, next_image_number: 0 });
                effects.push(Effect::SaveState { bytes: state.save_bytes() });
                proof {
                    let step = s_public_response(msg@, old(state)@);
                    assert(state@ == step.st);
                    assert(effects_view(effects@) =~= step.effects);
                }
                (Dispatched::Done(Outcome::Handled), effects)
            },
            RunResponse::PaymentRequired => (Dispatched::Done(Outcome::Handled), empty),
            RunResponse::Error(_) => (Dispatched::Done(Outcome::Handled), empty),
        },
        Some(PublicResponse::JobUpdate) => (Dispatched::Done(Outcome::Handled), empty),
    }
}

fn timer_source_id() -> (r: ProcessId)
    ensures
        r@ == timer_process_id(),
{
    let mut process_name: Vec<u8> = Vec::new();
    process_name.push(116);
    process_name.push(105);
    process_name.push(109);
    process_name.push(101);
    process_name.push(114);
    let mut package_name: Vec<u8> = Vec::new();
    package_name.push(100);
    package_name.push(105);
    package_name.push(115);
    package_name.push(116);
    package_name.push(114);
    package_name.push(111);
    let mut publisher_node: Vec<u8> = Vec::new();
    publisher_node.push(115);
    publisher_node.push(121);
    publisher_node.push(115);
    let r = ProcessId { process_name, package_name, publisher_node };
    proof {
        assert(r@.process_name =~= timer_process_id().process_name);
        assert(r@.package_name =~= timer_process_id().package_name);
        assert(r@.publisher_node =~= timer_process_id().publisher_node);
    }
    r
}

/// The whole dispatch; implements `s_handle_message`.
pub fn handle_message(
    our: &Address,
    msg: &InboundMessage,
    images_dir: &Vec<u8>,
    state: &mut State,
) -> (r: (Outcome, Vec<Effect>))
    requires
        req_handle(our@, msg@, old(state)@),
    ensures
        ({
            let step = s_handle_message(our@, msg@, images_dir@, old(state)@);
            final(state)@ == step.st && effects_view(r.1@) == step.effects && r.0@ == step.outcome
        }),
{
    let empty: Vec<Effect> = Vec::new();
    proof {
        assert(effects_view(empty@) =~= Seq::<EffectV>::empty());
    }
    if msg.is_request {
        let (d, effects) = handle_admin_request(our, msg, state);
        match d {
            Dispatched::Done(o) => {
                return (o, effects);
            },
            Dispatched::NoMatch => {},
        }
        let (d, effects) = handle_public_request(msg, images_dir, state);
        match d {
            Dispatched::Done(o) => {
                return (o, effects);
            },
            Dispatched::NoMatch => {},
        }
        return (
            Outcome::Failed(ClientError::UnrecognizedRequest { body: clone_bytes(&msg.body) }),
            empty,
        );
    }
    let (d, effects) = handle_public_response(msg, state);
    match d {
        Dispatched::Done(o) => {
            return (o, effects);
        },
        Dispatched::NoMatch => {},
    }
    // a response matching no known shape: the watchdog timer, or traffic
    // to be ignored silently
    let timer_pid = timer_source_id();
    let is_timer = bytes_eq(&msg.source.node, &our.node) && process_id_eq(
        &msg.source.process,
        &timer_pid,
    );
    if !is_timer {
        return (Outcome::Handled, empty);
    }
    let cur = match &state.current_job {
        None => {
            // the job already finished; the stale timer is ignored
            return (Outcome::Handled, empty);
        },
        Some(c) => CurrentJob { job_id: c.job_id, next_image_number: c.next_image_number },
    };
    let no_context: Vec<u8> = Vec::new();
    let ctx: &Vec<u8> = match &msg.context {
        Some(c) => c,
        None => &no_context,
    };
    match decode_context_u64(ctx) {
        None => (Outcome::Failed(ClientError::MalformedTimerContext), empty),
        Some(t) => {
            if cur.job_id == t {
                state.current_job = None;
                let mut effects: Vec<Effect> = Vec::new();
                effects.push(Effect::SaveState { bytes: state.save_bytes() });
                proof {
                    let step = s_timer(our@, msg@, old(state)@);
                    assert(state@ == step.st);
                    assert(effects_view(effects@) =~= step.effects);
                }
                (Outcome::Failed(ClientError::JobTimedOut { job_id: t }), effects)
            } else {
                // a timer for a job no longer tracked: ignored
                (Outcome::Handled, empty)
            }
        },
    }
}

/// Apply the sync round trip's outcome to the record; implements
/// `s_apply_sync`. Every failed sync leaves the record untouched.
pub fn apply_chain_sync_reply(state: &mut State, event: &SyncEvent) -> (r: (
    Result<(), ClientError>,
    Vec<Effect>,
))
    ensures
        ({
            let step = s_apply_sync(old(state)@, event@);
            final(state)@ == step.st && effects_view(r.1@) == step.effects && (match (
                r.0,
                step.result,
            ) {
                (Ok(()), Ok(())) => true,
                (Err(e), Err(ev)) => e@ == ev,
                _ => false,
            })
        }),
{
    let empty: Vec<Effect> = Vec::new();
    proof {
        assert(effects_view(empty@) =~= Seq::<EffectV>::empty());
    }
    match event {
        SyncEvent::TimedOut => (Err(ClientError::SyncTimedOut), empty),
        SyncEvent::Reply { blob } => match blob {
            None => (Err(ClientError::SyncNoBlob), empty),
            Some(bytes) => match decode_sequencer_response(bytes) {
                Some(SequencerResponse::Read(ReadResponse::All(dao))) => {
                    state.on_chain_state = dao;
                    let mut effects: Vec<Effect> = Vec::new();
                    effects.push(Effect::SaveState { bytes: state.save_bytes() });
                    proof {
                        let step = s_apply_sync(old(state)@, event@);
                        assert(state@ == step.st);
                        assert(effects_view(effects@) =~= step.effects);
                    }
                    (Ok(()), effects)
                },
                _ => (Err(ClientError::SyncWrongResponse), empty),
            },
        },
    }
}

/// Finish the admin operation that awaited the sync; implements
/// `s_resume`.
pub fn resume_after_sync(state: &mut State, pending: &AfterSync, event: &SyncEvent) -> (r: (
    Result<(), ClientError>,
    Vec<Effect>,
))
    ensures
        ({
            let step = s_resume(*pending, event@, old(state)@);
            final(state)@ == step.st && effects_view(r.1@) == step.effects && (match (
                r.0,
                step.result,
            ) {
                (Ok(()), Ok(())) => true,
                (Err(e), Err(ev)) => e@ == ev,
                _ => false,
            })
        }),
{
    let (res, mut effects) = apply_chain_sync_reply(state, event);
    match res {
        Err(e) => (Err(e), effects),
        Ok(()) => {
            let body = match pending {
                AfterSync::SetSequencer => encode_admin_response(
                    &AdminResponse::SetRollupSequencer { err: None },
                ),
                AfterSync::GetSnapshot => encode_admin_response(
                    &AdminResponse::GetRollupState { err: None },
                ),
            };
            effects.push(Effect::SendResponse { body });
            proof {
                let step = s_resume(*pending, event@, old(state)@);
                assert(effects_view(effects@) =~= step.effects);
            }
            (Ok(()), effects)
        },
    }
}

} // verus!
