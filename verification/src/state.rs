//! The single persisted state record and its whole-record byte encoding.
//!
//! The record is saved as one blob and replaced atomically; the load path
//! falls back to the default record when nothing was saved or the saved
//! bytes do not decode.

use vstd::prelude::*;
use crate::chain::{
    OnChainDaoState, OnChainDaoStateV, senc_dao, sdec_dao, enc_dao, dec_dao,
};
use crate::codec::{senc_u8, senc_u32, senc_u64, sdec_u8, sdec_u32, sdec_u64, enc_u8, enc_u32,
    enc_u64, dec_u8, dec_u32, dec_u64};
use crate::endpoint::{
    ProcessId, ProcessIdV, Address, AddressV, senc_process_id, sdec_process_id, senc_address,
    sdec_address, enc_process_id, dec_process_id, enc_address, dec_address,
};

verus! {

/// The job in flight: its router-assigned id and the number the next
/// non-final artifact will carry.
pub struct CurrentJob {
    pub job_id: u64,
    pub next_image_number: u32,
}

pub ghost struct CurrentJobV {
    pub job_id: u64,
    pub next_image_number: u32,
}

impl View for CurrentJob {
    type V = CurrentJobV;

    open spec fn view(&self) -> CurrentJobV {
        CurrentJobV { job_id: self.job_id, next_image_number: self.next_image_number }
    }
}

/// The single persisted record.
pub struct State {
    pub current_job: Option<CurrentJob>,
    pub router_process: Option<ProcessId>,
    pub rollup_sequencer: Option<Address>,
    pub on_chain_state: OnChainDaoState,
}

pub ghost struct StateV {
    pub current_job: Option<CurrentJobV>,
    pub router_process: Option<ProcessIdV>,
    pub rollup_sequencer: Option<AddressV>,
    pub on_chain_state: OnChainDaoStateV,
}

pub open spec fn opt_job_view(o: Option<CurrentJob>) -> Option<CurrentJobV> {
    match o {
        Some(j) => Some(j@),
        None => None,
    }
}

pub open spec fn opt_pid_view(o: Option<ProcessId>) -> Option<ProcessIdV> {
    match o {
        Some(p) => Some(p@),
        None => None,
    }
}

pub open spec fn opt_addr_view(o: Option<Address>) -> Option<AddressV> {
    match o {
        Some(a) => Some(a@),
        None => None,
    }
}

impl View for State {
    type V = StateV;

    open spec fn view(&self) -> StateV {
        StateV {
            current_job: opt_job_view(self.current_job),
            router_process: opt_pid_view(self.router_process),
            rollup_sequencer: opt_addr_view(self.rollup_sequencer),
            on_chain_state: self.on_chain_state@,
        }
    }
}

impl StateV {
    /// The record before anything was configured: no job, no endpoints,
    /// the empty snapshot.
    pub open spec fn initial() -> StateV {
        StateV {
            current_job: None,
            router_process: None,
            rollup_sequencer: None,
            on_chain_state: OnChainDaoStateV::empty(),
        }
    }
}

impl Default for State {
    fn default() -> (r: Self)
        ensures
            r@ == StateV::initial(),
    {
        State {
            current_job: None,
            router_process: None,
            rollup_sequencer: None,
            on_chain_state: OnChainDaoState::default(),
        }
    }
}

// ---------------------------------------------------------------------------
// whole-record encoding
// ---------------------------------------------------------------------------

pub open spec fn senc_opt_job(o: Option<CurrentJobV>) -> Seq<u8> {
    match o {
        None => senc_u8(0),
        Some(j) => senc_u8(1) + senc_u64(j.job_id) + senc_u32(j.next_image_number),
    }
}

pub open spec fn sdec_opt_job(b: Seq<u8>) -> Option<(Option<CurrentJobV>, Seq<u8>)> {
    match sdec_u8(b) {
        None => None,
        Some((t, r)) => if t == 0 {
            Some((None, r))
        } else if t == 1 {
            match sdec_u64(r) {
                None => None,
                Some((id, r)) => match sdec_u32(r) {
                    None => None,
                    Some((n, r)) => Some(
                        (Some(CurrentJobV { job_id: id, next_image_number: n }), r),
                    ),
                },
            }
        } else {
            None
        },
    }
}

pub open spec fn senc_opt_pid(o: Option<ProcessIdV>) -> Seq<u8> {
    match o {
        None => senc_u8(0),
        Some(p) => senc_u8(1) + senc_process_id(p),
    }
}

pub open spec fn sdec_opt_pid(b: Seq<u8>) -> Option<(Option<ProcessIdV>, Seq<u8>)> {
    match sdec_u8(b) {
        None => None,
        Some((t, r)) => if t == 0 {
            Some((None, r))
        } else if t == 1 {
            match sdec_process_id(r) {
                None => None,
                Some((p, r)) => Some((Some(p), r)),
            }
        } else {
            None
        },
    }
}

pub open spec fn senc_opt_addr(o: Option<AddressV>) -> Seq<u8> {
    match o {
        None => senc_u8(0),
        Some(a) => senc_u8(1) + senc_address(a),
    }
}

pub open spec fn sdec_opt_addr(b: Seq<u8>) -> Option<(Option<AddressV>, Seq<u8>)> {
    match sdec_u8(b) {
        None => None,
        Some((t, r)) => if t == 0 {
            Some((None, r))
        } else if t == 1 {
            match sdec_address(r) {
                None => None,
                Some((a, r)) => Some((Some(a), r)),
            }
        } else {
            None
        },
    }
}

pub open spec fn senc_state(s: StateV) -> Seq<u8> {
    senc_opt_job(s.current_job) + senc_opt_pid(s.router_process) + senc_opt_addr(
        s.rollup_sequencer,
    ) + senc_dao(s.on_chain_state)
}

/// The whole saved blob must be one record, nothing more.
pub open spec fn sdec_state(b: Seq<u8>) -> Option<StateV> {
    match sdec_opt_job(b) {
        None => None,
        Some((job, r)) => match sdec_opt_pid(r) {
            None => None,
            Some((pid, r)) => match sdec_opt_addr(r) {
                None => None,
                Some((addr, r)) => match sdec_dao(r) {
                    None => None,
                    Some((dao, r)) => if r.len() == 0 {
                        Some(
                            StateV {
                                current_job: job,
                                router_process: pid,
                                rollup_sequencer: addr,
                                on_chain_state: dao,
                            },
                        )
                    } else {
                        None
                    },
                },
            },
        },
    }
}

impl State {
    /// The byte blob that stands for this record in the persistent store.
    pub fn save_bytes(&self) -> (r: Vec<u8>)
        ensures
            r@ == senc_state(self@),
    {
        let mut out: Vec<u8> = Vec::new();
        match &self.current_job {
            None => enc_u8(&mut out, 0),
            Some(j) => {
                enc_u8(&mut out, 1);
                enc_u64(&mut out, j.job_id);
                enc_u32(&mut out, j.next_image_number);
                proof {
                    assert(out@ =~= senc_opt_job(self@.current_job));
                }
            },
        }
        let ghost p1 = out@;
        assert(p1 == senc_opt_job(self@.current_job));
        match &self.router_process {
            None => enc_u8(&mut out, 0),
            Some(p) => {
                enc_u8(&mut out, 1);
                enc_process_id(&mut out, p);
                proof {
                    assert(out@ =~= p1 + senc_opt_pid(self@.router_process));
                }
            },
        }
        let ghost p2 = out@;
        assert(p2 == p1 + senc_opt_pid(self@.router_process));
        match &self.rollup_sequencer {
            None => enc_u8(&mut out, 0),
            Some(a) => {
                enc_u8(&mut out, 1);
                enc_address(&mut out, a);
                proof {
                    assert(out@ =~= p2 + senc_opt_addr(self@.rollup_sequencer));
                }
            },
        }
        let ghost p3 = out@;
        assert(p3 == p2 + senc_opt_addr(self@.rollup_sequencer));
        enc_dao(&mut out, &self.on_chain_state);
        proof {
            assert(out@ =~= senc_state(self@));
        }
        out
    }

    /// Rebuild the record from what the persistent store returned; the
    /// default record when nothing was saved or the bytes do not decode.
    pub fn load(saved: Option<Vec<u8>>) -> (r: State)
        ensures
            r@ == match saved {
                Some(b) => match sdec_state(b@) {
                    Some(s) => s,
                    None => StateV::initial(),
                },
                None => StateV::initial(),
            },
    {
        match saved {
            None => State::default(),
            Some(b) => match State::decode_saved(&b) {
                Some(s) => s,
                None => State::default(),
            },
        }
    }

    /// Decode a saved blob; `None` exactly when the bytes are not a record.
    pub fn decode_saved(b: &Vec<u8>) -> (r: Option<State>)
        ensures
            match r {
                Some(s) => sdec_state(b@) == Some(s@),
                None => sdec_state(b@) is None,
            },
    {
        proof {
            assert(b@.skip(0) =~= b@);
        }
        let (job, j) = match dec_u8(b, 0) {
            None => {
                return None;
            },
            Some((t, j)) => {
                if t == 0 {
                    (None, j)
                } else if t == 1 {
                    match dec_u64(b, j) {
                        None => {
                            return None;
                        },
                        Some((id, j)) => match dec_u32(b, j) {
                            None => {
                                return None;
                            },
                            Some((n, j)) => (
                                Some(CurrentJob { job_id: id, next_image_number: n }),
                                j,
                            ),
                        },
                    }
                } else {
                    return None;
                }
            },
        };
        let (pid, j) = match dec_u8(b, j) {
            None => {
                return None;
            },
            Some((t, j)) => {
                if t == 0 {
                    (None, j)
                } else if t == 1 {
                    match dec_process_id(b, j) {
                        None => {
                            return None;
                        },
                        Some((p, j)) => (Some(p), j),
                    }
                } else {
                    return None;
                }
            },
        };
        let (addr, j) = match dec_u8(b, j) {
            None => {
                return None;
            },
            Some((t, j)) => {
                if t == 0 {
                    (None, j)
                } else if t == 1 {
                    match dec_address(b, j) {
                        None => {
                            return None;
                        },
                        Some((a, j)) => (Some(a), j),
                    }
                } else {
                    return None;
                }
            },
        };
        match dec_dao(b, j) {
            None => None,
            Some((dao, j)) => {
                if j == b.len() {
                    Some(
                        State {
                            current_job: job,
                            router_process: pid,
                            rollup_sequencer: addr,
                            on_chain_state: dao,
                        },
                    )
                } else {
                    None
                }
            },
        }
    }
}

} // verus!
