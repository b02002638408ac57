//! Wire shapes of the protocol and their byte encodings.
//!
//! The envelope body is an untyped byte string; each shape below is a tagged
//! variant with a tag byte of its own, so the shapes are mutually exclusive
//! and a body can be classified by trying the decoders in order. A body
//! matches a shape only if the decoder consumes the body exactly.

use vstd::prelude::*;
use crate::codec::{
    senc_u8, senc_u64, senc_bool, senc_bytes, sdec_u8, sdec_u64, sdec_bool, sdec_bytes, enc_u8,
    enc_u64, enc_bool, enc_bytes, dec_u8, dec_u64, dec_bool, dec_bytes,
};
use crate::chain::{OnChainDaoState, OnChainDaoStateV, senc_dao, sdec_dao, enc_dao, dec_dao};
use crate::chain::{senc_bytes_list, sdec_bytes_list, enc_bytes_list, dec_bytes_list, bl_view};

verus! {

// ---------------------------------------------------------------------------
// shapes
// ---------------------------------------------------------------------------

/// Operator commands; only accepted from this process's own node.
pub enum AdminRequest {
    SetRouterProcess { process_id: Vec<u8> },
    SetRollupSequencer { address: Vec<u8> },
    GetRollupState,
}

pub ghost enum AdminRequestV {
    SetRouterProcess { process_id: Seq<u8> },
    SetRollupSequencer { address: Seq<u8> },
    GetRollupState,
}

impl View for AdminRequest {
    type V = AdminRequestV;

    open spec fn view(&self) -> AdminRequestV {
        match self {
            AdminRequest::SetRouterProcess { process_id } => AdminRequestV::SetRouterProcess {
                process_id: process_id@,
            },
            AdminRequest::SetRollupSequencer { address } => AdminRequestV::SetRollupSequencer {
                address: address@,
            },
            AdminRequest::GetRollupState => AdminRequestV::GetRollupState,
        }
    }
}

/// Success/failure indicator sent back to the admin caller.
pub enum AdminResponse {
    SetRouterProcess { err: Option<Vec<u8>> },
    SetRollupSequencer { err: Option<Vec<u8>> },
    GetRollupState { err: Option<Vec<u8>> },
}

pub ghost enum AdminResponseV {
    SetRouterProcess { err: Option<Seq<u8>> },
    SetRollupSequencer { err: Option<Seq<u8>> },
    GetRollupState { err: Option<Seq<u8>> },
}

impl View for AdminResponse {
    type V = AdminResponseV;

    open spec fn view(&self) -> AdminResponseV {
        match self {
            AdminResponse::SetRouterProcess { err } => AdminResponseV::SetRouterProcess {
                err: match err {
                    Some(e) => Some(e@),
                    None => None,
                },
            },
            AdminResponse::SetRollupSequencer { err } => AdminResponseV::SetRollupSequencer {
                err: match err {
                    Some(e) => Some(e@),
                    None => None,
                },
            },
            AdminResponse::GetRollupState { err } => AdminResponseV::GetRollupState {
                err: match err {
                    Some(e) => Some(e@),
                    None => None,
                },
            },
        }
    }
}

/// A job to run: a workflow name and its parameters.
pub struct JobParameters {
    pub workflow: Vec<u8>,
    pub parameters: Vec<u8>,
}

pub ghost struct JobParametersV {
    pub workflow: Seq<u8>,
    pub parameters: Seq<u8>,
}

impl View for JobParameters {
    type V = JobParametersV;

    open spec fn view(&self) -> JobParametersV {
        JobParametersV { workflow: self.workflow@, parameters: self.parameters@ }
    }
}

/// Requests any peer may send.
pub enum PublicRequest {
    RunJob(JobParameters),
    /// The artifact bytes travel out-of-band in the message's binary payload.
    JobUpdate { job_id: u64, is_final: bool, signature: Result<u64, Vec<u8>> },
}

pub ghost enum PublicRequestV {
    RunJob(JobParametersV),
    JobUpdate { job_id: u64, is_final: bool, signature: Result<u64, Seq<u8>> },
}

impl View for PublicRequest {
    type V = PublicRequestV;

    open spec fn view(&self) -> PublicRequestV {
        match self {
            PublicRequest::RunJob(p) => PublicRequestV::RunJob(p@),
            PublicRequest::JobUpdate { job_id, is_final, signature } => PublicRequestV::JobUpdate {
                job_id: *job_id,
                is_final: *is_final,
                signature: match signature {
                    Ok(s) => Ok(*s),
                    Err(e) => Err(e@),
                },
            },
        }
    }
}

/// The router's answer to a run request.
pub enum RunResponse {
    JobQueued { job_id: u64 },
    PaymentRequired,
    Error(Vec<u8>),
}

pub ghost enum RunResponseV {
    JobQueued { job_id: u64 },
    PaymentRequired,
    Error(Seq<u8>),
}

impl View for RunResponse {
    type V = RunResponseV;

    open spec fn view(&self) -> RunResponseV {
        match self {
            RunResponse::JobQueued { job_id } => RunResponseV::JobQueued { job_id: *job_id },
            RunResponse::PaymentRequired => RunResponseV::PaymentRequired,
            RunResponse::Error(e) => RunResponseV::Error(e@),
        }
    }
}

/// Responses to requests this process sent out.
pub enum PublicResponse {
    RunJob(RunResponse),
    JobUpdate,
}

pub ghost enum PublicResponseV {
    RunJob(RunResponseV),
    JobUpdate,
}

impl View for PublicResponse {
    type V = PublicResponseV;

    open spec fn view(&self) -> PublicResponseV {
        match self {
            PublicResponse::RunJob(r) => PublicResponseV::RunJob(r@),
            PublicResponse::JobUpdate => PublicResponseV::JobUpdate,
        }
    }
}

/// Read requests this client can address to the sequencer.
pub enum ReadRequest {
    All,
    Dao,
    Routers,
    Members,
    Proposals,
    Parameters,
}

pub ghost enum ReadRequestV {
    All,
    Dao,
    Routers,
    Members,
    Proposals,
    Parameters,
}

impl View for ReadRequest {
    type V = ReadRequestV;

    open spec fn view(&self) -> ReadRequestV {
        match self {
            ReadRequest::All => ReadRequestV::All,
            ReadRequest::Dao => ReadRequestV::Dao,
            ReadRequest::Routers => ReadRequestV::Routers,
            ReadRequest::Members => ReadRequestV::Members,
            ReadRequest::Proposals => ReadRequestV::Proposals,
            ReadRequest::Parameters => ReadRequestV::Parameters,
        }
    }
}

pub enum SequencerRequest {
    Read(ReadRequest),
}

pub ghost enum SequencerRequestV {
    Read(ReadRequestV),
}

impl View for SequencerRequest {
    type V = SequencerRequestV;

    open spec fn view(&self) -> SequencerRequestV {
        match self {
            SequencerRequest::Read(r) => SequencerRequestV::Read(r@),
        }
    }
}

/// The sequencer's answers, mirroring each read variant plus a write ack.
pub enum ReadResponse {
    All(OnChainDaoState),
    Dao,
    Routers(Vec<Vec<u8>>),
    Members(Vec<Vec<u8>>),
    Proposals,
    Parameters,
}

pub ghost enum ReadResponseV {
    All(OnChainDaoStateV),
    Dao,
    Routers(Seq<Seq<u8>>),
    Members(Seq<Seq<u8>>),
    Proposals,
    Parameters,
}

impl View for ReadResponse {
    type V = ReadResponseV;

    open spec fn view(&self) -> ReadResponseV {
        match self {
            ReadResponse::All(d) => ReadResponseV::All(d@),
            ReadResponse::Dao => ReadResponseV::Dao,
            ReadResponse::Routers(r) => ReadResponseV::Routers(bl_view(r@)),
            ReadResponse::Members(m) => ReadResponseV::Members(bl_view(m@)),
            ReadResponse::Proposals => ReadResponseV::Proposals,
            ReadResponse::Parameters => ReadResponseV::Parameters,
        }
    }
}

pub enum SequencerResponse {
    Read(ReadResponse),
    Write,
}

pub ghost enum SequencerResponseV {
    Read(ReadResponseV),
    Write,
}

impl View for SequencerResponse {
    type V = SequencerResponseV;

    open spec fn view(&self) -> SequencerResponseV {
        match self {
            SequencerResponse::Read(r) => SequencerResponseV::Read(r@),
            SequencerResponse::Write => SequencerResponseV::Write,
        }
    }
}

// ---------------------------------------------------------------------------
// encoding: specification
// ---------------------------------------------------------------------------

pub open spec fn senc_opt_bytes(o: Option<Seq<u8>>) -> Seq<u8> {
    match o {
        None => senc_u8(0),
        Some(s) => senc_u8(1) + senc_bytes(s),
    }
}

pub open spec fn sdec_opt_bytes(b: Seq<u8>) -> Option<(Option<Seq<u8>>, Seq<u8>)> {
    match sdec_u8(b) {
        None => None,
        Some((t, r)) => if t == 0 {
            Some((None, r))
        } else if t == 1 {
            match sdec_bytes(r) {
                None => None,
                Some((s, r2)) => Some((Some(s), r2)),
            }
        } else {
            None
        },
    }
}

pub open spec fn senc_admin_request(a: AdminRequestV) -> Seq<u8> {
    match a {
        AdminRequestV::SetRouterProcess { process_id } => senc_u8(10) + senc_bytes(process_id),
        AdminRequestV::SetRollupSequencer { address } => senc_u8(11) + senc_bytes(address),
        AdminRequestV::GetRollupState => senc_u8(12),
    }
}

/// A body is admin-shaped iff the admin decoder consumes it exactly.
pub open spec fn sdec_admin_request(b: Seq<u8>) -> Option<AdminRequestV> {
    match sdec_u8(b) {
        None => None,
        Some((t, r)) => if t == 10 {
            match sdec_bytes(r) {
                Some((s, r2)) => if r2.len() == 0 {
                    Some(AdminRequestV::SetRouterProcess { process_id: s })
                } else {
                    None
                },
                None => None,
            }
        } else if t == 11 {
            match sdec_bytes(r) {
                Some((s, r2)) => if r2.len() == 0 {
                    Some(AdminRequestV::SetRollupSequencer { address: s })
                } else {
                    None
                },
                None => None,
            }
        } else if t == 12 {
            if r.len() == 0 {
                Some(AdminRequestV::GetRollupState)
            } else {
                None
            }
        } else {
            None
        },
    }
}

pub open spec fn senc_admin_response(a: AdminResponseV) -> Seq<u8> {
    match a {
        AdminResponseV::SetRouterProcess { err } => senc_u8(20) + senc_opt_bytes(err),
        AdminResponseV::SetRollupSequencer { err } => senc_u8(21) + senc_opt_bytes(err),
        AdminResponseV::GetRollupState { err } => senc_u8(22) + senc_opt_bytes(err),
    }
}

pub open spec fn sdec_admin_response(b: Seq<u8>) -> Option<AdminResponseV> {
    match sdec_u8(b) {
        None => None,
        Some((t, r)) => match sdec_opt_bytes(r) {
            None => None,
            Some((err, r2)) => if r2.len() != 0 {
                None
            } else if t == 20 {
                Some(AdminResponseV::SetRouterProcess { err })
            } else if t == 21 {
                Some(AdminResponseV::SetRollupSequencer { err })
            } else if t == 22 {
                Some(AdminResponseV::GetRollupState { err })
            } else {
                None
            },
        },
    }
}

pub open spec fn senc_signature(s: Result<u64, Seq<u8>>) -> Seq<u8> {
    match s {
        Ok(v) => senc_u8(1) + senc_u64(v),
        Err(e) => senc_u8(0) + senc_bytes(e),
    }
}

pub open spec fn sdec_signature(b: Seq<u8>) -> Option<(Result<u64, Seq<u8>>, Seq<u8>)> {
    match sdec_u8(b) {
        None => None,
        Some((t, r)) => if t == 1 {
            match sdec_u64(r) {
                None => None,
                Some((v, r2)) => Some((Ok(v), r2)),
            }
        } else if t == 0 {
            match sdec_bytes(r) {
                None => None,
                Some((e, r2)) => Some((Err(e), r2)),
            }
        } else {
            None
        },
    }
}

pub open spec fn senc_public_request(p: PublicRequestV) -> Seq<u8> {
    match p {
        PublicRequestV::RunJob(j) => senc_u8(30) + senc_bytes(j.workflow) + senc_bytes(
            j.parameters,
        ),
        PublicRequestV::JobUpdate { job_id, is_final, signature } => senc_u8(31) + senc_u64(job_id)
            + senc_bool(is_final) + senc_signature(signature),
    }
}

pub open spec fn sdec_public_request(b: Seq<u8>) -> Option<PublicRequestV> {
    match sdec_u8(b) {
        None => None,
        Some((t, r)) => if t == 30 {
            match sdec_bytes(r) {
                None => None,
                Some((w, r)) => match sdec_bytes(r) {
                    None => None,
                    Some((p, r)) => if r.len() == 0 {
                        Some(PublicRequestV::RunJob(JobParametersV { workflow: w, parameters: p }))
                    } else {
                        None
                    },
                },
            }
        } else if t == 31 {
            match sdec_u64(r) {
                None => None,
                Some((job_id, r)) => match sdec_bool(r) {
                    None => None,
                    Some((is_final, r)) => match sdec_signature(r) {
                        None => None,
                        Some((signature, r)) => if r.len() == 0 {
                            Some(PublicRequestV::JobUpdate { job_id, is_final, signature })
                        } else {
                            None
                        },
                    },
                },
            }
        } else {
            None
        },
    }
}

pub open spec fn senc_run_response(r: RunResponseV) -> Seq<u8> {
    match r {
        RunResponseV::JobQueued { job_id } => senc_u8(50) + senc_u64(job_id),
        RunResponseV::PaymentRequired => senc_u8(51),
        RunResponseV::Error(e) => senc_u8(52) + senc_bytes(e),
    }
}

pub open spec fn sdec_run_response(b: Seq<u8>) -> Option<(RunResponseV, Seq<u8>)> {
    match sdec_u8(b) {
        None => None,
        Some((t, r)) => if t == 50 {
            match sdec_u64(r) {
                None => None,
                Some((id, r2)) => Some((RunResponseV::JobQueued { job_id: id }, r2)),
            }
        } else if t == 51 {
            Some((RunResponseV::PaymentRequired, r))
        } else if t == 52 {
            match sdec_bytes(r) {
                None => None,
                Some((e, r2)) => Some((RunResponseV::Error(e), r2)),
            }
        } else {
            None
        },
    }
}

pub open spec fn senc_public_response(p: PublicResponseV) -> Seq<u8> {
    match p {
        PublicResponseV::RunJob(r) => senc_u8(40) + senc_run_response(r),
        PublicResponseV::JobUpdate => senc_u8(41),
    }
}

pub open spec fn sdec_public_response(b: Seq<u8>) -> Option<PublicResponseV> {
    match sdec_u8(b) {
        None => None,
        Some((t, r)) => if t == 40 {
            match sdec_run_response(r) {
                None => None,
                Some((rr, r2)) => if r2.len() == 0 {
                    Some(PublicResponseV::RunJob(rr))
                } else {
                    None
                },
            }
        } else if t == 41 {
            if r.len() == 0 {
                Some(PublicResponseV::JobUpdate)
            } else {
                None
            }
        } else {
            None
        },
    }
}

pub open spec fn senc_read_request(r: ReadRequestV) -> Seq<u8> {
    match r {
        ReadRequestV::All => senc_u8(70),
        ReadRequestV::Dao => senc_u8(71),
        ReadRequestV::Routers => senc_u8(72),
        ReadRequestV::Members => senc_u8(73),
        ReadRequestV::Proposals => senc_u8(74),
        ReadRequestV::Parameters => senc_u8(75),
    }
}

pub open spec fn sdec_read_request(b: Seq<u8>) -> Option<(ReadRequestV, Seq<u8>)> {
    match sdec_u8(b) {
        None => None,
        Some((t, r)) => if t == 70 {
            Some((ReadRequestV::All, r))
        } else if t == 71 {
            Some((ReadRequestV::Dao, r))
        } else if t == 72 {
            Some((ReadRequestV::Routers, r))
        } else if t == 73 {
            Some((ReadRequestV::Members, r))
        } else if t == 74 {
            Some((ReadRequestV::Proposals, r))
        } else if t == 75 {
            Some((ReadRequestV::Parameters, r))
        } else {
            None
        },
    }
}

pub open spec fn senc_sequencer_request(s: SequencerRequestV) -> Seq<u8> {
    match s {
        SequencerRequestV::Read(r) => senc_u8(60) + senc_read_request(r),
    }
}

pub open spec fn sdec_sequencer_request(b: Seq<u8>) -> Option<SequencerRequestV> {
    match sdec_u8(b) {
        None => None,
        Some((t, r)) => if t == 60 {
            match sdec_read_request(r) {
                None => None,
                Some((rr, r2)) => if r2.len() == 0 {
                    Some(SequencerRequestV::Read(rr))
                } else {
                    None
                },
            }
        } else {
            None
        },
    }
}

pub open spec fn senc_read_response(r: ReadResponseV) -> Seq<u8> {
    match r {
        ReadResponseV::All(d) => senc_u8(80) + senc_dao(d),
        ReadResponseV::Dao => senc_u8(81),
        ReadResponseV::Routers(l) => senc_u8(82) + senc_bytes_list(l),
        ReadResponseV::Members(l) => senc_u8(83) + senc_bytes_list(l),
        ReadResponseV::Proposals => senc_u8(84),
        ReadResponseV::Parameters => senc_u8(85),
    }
}

pub open spec fn sdec_read_response(b: Seq<u8>) -> Option<(ReadResponseV, Seq<u8>)> {
    match sdec_u8(b) {
        None => None,
        Some((t, r)) => if t == 80 {
            match sdec_dao(r) {
                None => None,
                Some((d, r2)) => Some((ReadResponseV::All(d), r2)),
            }
        } else if t == 81 {
            Some((ReadResponseV::Dao, r))
        } else if t == 82 {
            match sdec_bytes_list(r) {
                None => None,
                Some((l, r2)) => Some((ReadResponseV::Routers(l), r2)),
            }
        } else if t == 83 {
            match sdec_bytes_list(r) {
                None => None,
                Some((l, r2)) => Some((ReadResponseV::Members(l), r2)),
            }
        } else if t == 84 {
            Some((ReadResponseV::Proposals, r))
        } else if t == 85 {
            Some((ReadResponseV::Parameters, r))
        } else {
            None
        },
    }
}

pub open spec fn senc_sequencer_response(s: SequencerResponseV) -> Seq<u8> {
    match s {
        SequencerResponseV::Read(r) => senc_u8(61) + senc_read_response(r),
        SequencerResponseV::Write => senc_u8(62),
    }
}

pub open spec fn sdec_sequencer_response(b: Seq<u8>) -> Option<SequencerResponseV> {
    match sdec_u8(b) {
        None => None,
        Some((t, r)) => if t == 61 {
            match sdec_read_response(r) {
                None => None,
                Some((rr, r2)) => if r2.len() == 0 {
                    Some(SequencerResponseV::Read(rr))
                } else {
                    None
                },
            }
        } else if t == 62 {
            if r.len() == 0 {
                Some(SequencerResponseV::Write)
            } else {
                None
            }
        } else {
            None
        },
    }
}

/// A timer's correlation context: the watched job id, and nothing else.
pub open spec fn sdec_context_u64(b: Seq<u8>) -> Option<u64> {
    match sdec_u64(b) {
        None => None,
        Some((v, r)) => if r.len() == 0 {
            Some(v)
        } else {
            None
        },
    }
}

// ---------------------------------------------------------------------------
// executable encoders: each produces a whole body
// ---------------------------------------------------------------------------

pub fn enc_opt_bytes(out: &mut Vec<u8>, o: &Option<Vec<u8>>)
    ensures
        final(out)@ == old(out)@ + senc_opt_bytes(match o {
            Some(s) => Some(s@),
            None => None,
        }),
{
    match o {
        None => enc_u8(out, 0),
        Some(s) => {
            enc_u8(out, 1);
            enc_bytes(out, s);
            proof {
                assert(out@ =~= old(out)@ + (senc_u8(1) + senc_bytes(s@)));
            }
        },
    }
}

pub fn encode_admin_request(a: &AdminRequest) -> (r: Vec<u8>)
    ensures
        r@ == senc_admin_request(a@),
{
    let mut out: Vec<u8> = Vec::new();
    match a {
        AdminRequest::SetRouterProcess { process_id } => {
            enc_u8(&mut out, 10);
            enc_bytes(&mut out, process_id);
        },
        AdminRequest::SetRollupSequencer { address } => {
            enc_u8(&mut out, 11);
            enc_bytes(&mut out, address);
        },
        AdminRequest::GetRollupState => {
            enc_u8(&mut out, 12);
        },
    }
    proof {
        assert(out@ =~= senc_admin_request(a@));
    }
    out
}

pub fn encode_admin_response(a: &AdminResponse) -> (r: Vec<u8>)
    ensures
        r@ == senc_admin_response(a@),
{
    let mut out: Vec<u8> = Vec::new();
    match a {
        AdminResponse::SetRouterProcess { err } => {
            enc_u8(&mut out, 20);
            enc_opt_bytes(&mut out, err);
        },
        AdminResponse::SetRollupSequencer { err } => {
            enc_u8(&mut out, 21);
            enc_opt_bytes(&mut out, err);
        },
        AdminResponse::GetRollupState { err } => {
            enc_u8(&mut out, 22);
            enc_opt_bytes(&mut out, err);
        },
    }
    proof {
        assert(out@ =~= senc_admin_response(a@));
    }
    out
}

pub fn encode_public_request(p: &PublicRequest) -> (r: Vec<u8>)
    ensures
        r@ == senc_public_request(p@),
{
    let mut out: Vec<u8> = Vec::new();
    match p {
        PublicRequest::RunJob(j) => {
            enc_u8(&mut out, 30);
            enc_bytes(&mut out, &j.workflow);
            enc_bytes(&mut out, &j.parameters);
        },
        PublicRequest::JobUpdate { job_id, is_final, signature } => {
            enc_u8(&mut out, 31);
            enc_u64(&mut out, *job_id);
            enc_bool(&mut out, *is_final);
            match signature {
                Ok(v) => {
                    enc_u8(&mut out, 1);
                    enc_u64(&mut out, *v);
                },
                Err(e) => {
                    enc_u8(&mut out, 0);
                    enc_bytes(&mut out, e);
                },
            }
        },
    }
    proof {
        assert(out@ =~= senc_public_request(p@));
    }
    out
}

pub fn encode_public_response(p: &PublicResponse) -> (r: Vec<u8>)
    ensures
        r@ == senc_public_response(p@),
{
    let mut out: Vec<u8> = Vec::new();
    match p {
        PublicResponse::RunJob(rr) => {
            enc_u8(&mut out, 40);
            match rr {
                RunResponse::JobQueued { job_id } => {
                    enc_u8(&mut out, 50);
                    enc_u64(&mut out, *job_id);
                },
                RunResponse::PaymentRequired => {
                    enc_u8(&mut out, 51);
                },
                RunResponse::Error(e) => {
                    enc_u8(&mut out, 52);
                    enc_bytes(&mut out, e);
                },
            }
        },
        PublicResponse::JobUpdate => {
            enc_u8(&mut out, 41);
        },
    }
    proof {
        assert(out@ =~= senc_public_response(p@));
    }
    out
}

pub fn encode_sequencer_request(s: &SequencerRequest) -> (r: Vec<u8>)
    ensures
        r@ == senc_sequencer_request(s@),
{
    let mut out: Vec<u8> = Vec::new();
    match s {
        SequencerRequest::Read(rr) => {
            enc_u8(&mut out, 60);
            match rr {
                ReadRequest::All => enc_u8(&mut out, 70),
                ReadRequest::Dao => enc_u8(&mut out, 71),
                ReadRequest::Routers => enc_u8(&mut out, 72),
                ReadRequest::Members => enc_u8(&mut out, 73),
                ReadRequest::Proposals => enc_u8(&mut out, 74),
                ReadRequest::Parameters => enc_u8(&mut out, 75),
            }
        },
    }
    proof {
        assert(out@ =~= senc_sequencer_request(s@));
    }
    out
}

pub fn encode_sequencer_response(s: &SequencerResponse) -> (r: Vec<u8>)
    ensures
        r@ == senc_sequencer_response(s@),
{
    let mut out: Vec<u8> = Vec::new();
    match s {
        SequencerResponse::Read(rr) => {
            enc_u8(&mut out, 61);
            match rr {
                ReadResponse::All(d) => {
                    enc_u8(&mut out, 80);
                    enc_dao(&mut out, d);
                },
                ReadResponse::Dao => enc_u8(&mut out, 81),
                ReadResponse::Routers(l) => {
                    enc_u8(&mut out, 82);
                    enc_bytes_list(&mut out, l);
                },
                ReadResponse::Members(l) => {
                    enc_u8(&mut out, 83);
                    enc_bytes_list(&mut out, l);
                },
                ReadResponse::Proposals => enc_u8(&mut out, 84),
                ReadResponse::Parameters => enc_u8(&mut out, 85),
            }
        },
        SequencerResponse::Write => {
            enc_u8(&mut out, 62);
        },
    }
    proof {
        assert(out@ =~= senc_sequencer_response(s@));
    }
    out
}

pub fn encode_context_u64(v: u64) -> (r: Vec<u8>)
    ensures
        r@ == senc_u64(v),
{
    let mut out: Vec<u8> = Vec::new();
    enc_u64(&mut out, v);
    proof {
        assert(out@ =~= senc_u64(v));
    }
    out
}

// ---------------------------------------------------------------------------
// executable decoders: each matches a whole body, or reports no match
// ---------------------------------------------------------------------------

pub fn decode_admin_request(b: &Vec<u8>) -> (r: Option<AdminRequest>)
    ensures
        match r {
            Some(a) => sdec_admin_request(b@) == Some(a@),
            None => sdec_admin_request(b@) is None,
        },
{
    proof {
        assert(b@.skip(0) =~= b@);
    }
    match dec_u8(b, 0) {
        None => None,
        Some((t, j)) => {
            if t == 10 {
                match dec_bytes(b, j) {
                    None => None,
                    Some((s, k)) => {
                        if k == b.len() {
                            Some(AdminRequest::SetRouterProcess { process_id: s })
                        } else {
                            None
                        }
                    },
                }
            } else if t == 11 {
                match dec_bytes(b, j) {
                    None => None,
                    Some((s, k)) => {
                        if k == b.len() {
                            Some(AdminRequest::SetRollupSequencer { address: s })
                        } else {
                            None
                        }
                    },
                }
            } else if t == 12 {
                if j == b.len() {
                    Some(AdminRequest::GetRollupState)
                } else {
                    None
                }
            } else {
                None
            }
        },
    }
}

pub fn decode_public_request(b: &Vec<u8>) -> (r: Option<PublicRequest>)
    ensures
        match r {
            Some(p) => sdec_public_request(b@) == Some(p@),
            None => sdec_public_request(b@) is None,
        },
{
    proof {
        assert(b@.skip(0) =~= b@);
    }
    match dec_u8(b, 0) {
        None => None,
        Some((t, j)) => {
            if t == 30 {
                match dec_bytes(b, j) {
                    None => None,
                    Some((w, j)) => match dec_bytes(b, j) {
                        None => None,
                        Some((p, j)) => {
                            if j == b.len() {
                                Some(
                                    PublicRequest::RunJob(
                                        JobParameters { workflow: w, parameters: p },
                                    ),
                                )
                            } else {
                                None
                            }
                        },
                    },
                }
            } else if t == 31 {
                match dec_u64(b, j) {
                    None => None,
                    Some((job_id, j)) => match dec_bool(b, j) {
                        None => None,
                        Some((is_final, j)) => match dec_u8(b, j) {
                            None => None,
                            Some((st, j)) => {
                                if st == 1 {
                                    match dec_u64(b, j) {
                                        None => None,
                                        Some((v, j)) => {
                                            if j == b.len() {
                                                Some(
                                                    PublicRequest::JobUpdate {
                                                        job_id,
                                                        is_final,
                                                        signature: Ok(v),
                                                    },
                                                )
                                            } else {
                                                None
                                            }
                                        },
                                    }
                                } else if st == 0 {
                                    match dec_bytes(b, j) {
                                        None => None,
                                        Some((e, j)) => {
                                            if j == b.len() {
                                                Some(
                                                    PublicRequest::JobUpdate {
                                                        job_id,
                                                        is_final,
                                                        signature: Err(e),
                                                    },
                                                )
                                            } else {
                                                None
                                            }
                                        },
                                    }
                                } else {
                                    None
                                }
                            },
                        },
                    },
                }
            } else {
                None
            }
        },
    }
}

pub fn decode_public_response(b: &Vec<u8>) -> (r: Option<PublicResponse>)
    ensures
        match r {
            Some(p) => sdec_public_response(b@) == Some(p@),
            None => sdec_public_response(b@) is None,
        },
{
    proof {
        assert(b@.skip(0) =~= b@);
    }
    match dec_u8(b, 0) {
        None => None,
        Some((t, j)) => {
            if t == 40 {
                match dec_u8(b, j) {
                    None => None,
                    Some((rt, j)) => {
                        if rt == 50 {
                            match dec_u64(b, j) {
                                None => None,
                                Some((id, j)) => {
                                    if j == b.len() {
                                        Some(
                                            PublicResponse::RunJob(
                                                RunResponse::JobQueued { job_id: id },
                                            ),
                                        )
                                    } else {
                                        None
                                    }
                                },
                            }
                        } else if rt == 51 {
                            if j == b.len() {
                                Some(PublicResponse::RunJob(RunResponse::PaymentRequired))
                            } else {
                                None
                            }
                        } else if rt == 52 {
                            match dec_bytes(b, j) {
                                None => None,
                                Some((e, j)) => {
                                    if j == b.len() {
                                        Some(PublicResponse::RunJob(RunResponse::Error(e)))
                                    } else {
                                        None
                                    }
                                },
                            }
                        } else {
                            None
                        }
                    },
                }
            } else if t == 41 {
                if j == b.len() {
                    Some(PublicResponse::JobUpdate)
                } else {
                    None
                }
            } else {
                None
            }
        },
    }
}

pub fn decode_sequencer_request(b: &Vec<u8>) -> (r: Option<SequencerRequest>)
    ensures
        match r {
            Some(s) => sdec_sequencer_request(b@) == Some(s@),
            None => sdec_sequencer_request(b@) is None,
        },
{
    proof {
        assert(b@.skip(0) =~= b@);
    }
    match dec_u8(b, 0) {
        None => None,
        Some((t, j)) => {
            if t == 60 {
                match dec_u8(b, j) {
                    None => None,
                    Some((rt, j)) => {
                        if j != b.len() {
                            return None;
                        }
                        if rt == 70 {
                            Some(SequencerRequest::Read(ReadRequest::All))
                        } else if rt == 71 {
                            Some(SequencerRequest::Read(ReadRequest::Dao))
                        } else if rt == 72 {
                            Some(SequencerRequest::Read(ReadRequest::Routers))
                        } else if rt == 73 {
                            Some(SequencerRequest::Read(ReadRequest::Members))
                        } else if rt == 74 {
                            Some(SequencerRequest::Read(ReadRequest::Proposals))
                        } else if rt == 75 {
                            Some(SequencerRequest::Read(ReadRequest::Parameters))
                        } else {
                            None
                        }
                    },
                }
            } else {
                None
            }
        },
    }
}

pub fn decode_sequencer_response(b: &Vec<u8>) -> (r: Option<SequencerResponse>)
    ensures
        match r {
            Some(s) => sdec_sequencer_response(b@) == Some(s@),
            None => sdec_sequencer_response(b@) is None,
        },
{
    proof {
        assert(b@.skip(0) =~= b@);
    }
    match dec_u8(b, 0) {
        None => None,
        Some((t, j)) => {
            if t == 61 {
                match dec_u8(b, j) {
                    None => None,
                    Some((rt, j)) => {
                        if rt == 80 {
                            match dec_dao(b, j) {
                                None => None,
                                Some((d, j)) => {
                                    if j == b.len() {
                                        Some(SequencerResponse::Read(ReadResponse::All(d)))
                                    } else {
                                        None
                                    }
                                },
                            }
                        } else if rt == 81 {
                            if j == b.len() {
                                Some(SequencerResponse::Read(ReadResponse::Dao))
                            } else {
                                None
                            }
                        } else if rt == 82 {
                            match dec_bytes_list(b, j) {
                                None => None,
                                Some((l, j)) => {
                                    if j == b.len() {
                                        Some(SequencerResponse::Read(ReadResponse::Routers(l)))
                                    } else {
                                        None
                                    }
                                },
                            }
                        } else if rt == 83 {
                            match dec_bytes_list(b, j) {
                                None => None,
                                Some((l, j)) => {
                                    if j == b.len() {
                                        Some(SequencerResponse::Read(ReadResponse::Members(l)))
                                    } else {
                                        None
                                    }
                                },
                            }
                        } else if rt == 84 {
                            if j == b.len() {
                                Some(SequencerResponse::Read(ReadResponse::Proposals))
                            } else {
                                None
                            }
                        } else if rt == 85 {
                            if j == b.len() {
                                Some(SequencerResponse::Read(ReadResponse::Parameters))
                            } else {
                                None
                            }
                        } else {
                            None
                        }
                    },
                }
            } else if t == 62 {
                if j == b.len() {
                    Some(SequencerResponse::Write)
                } else {
                    None
                }
            } else {
                None
            }
        },
    }
}

pub fn decode_context_u64(b: &Vec<u8>) -> (r: Option<u64>)
    ensures
        r == sdec_context_u64(b@),
{
    proof {
        assert(b@.skip(0) =~= b@);
    }
    match dec_u64(b, 0) {
        None => None,
        Some((v, j)) => {
            if j == b.len() {
                Some(v)
            } else {
                None
            }
        },
    }
}

} // verus!
