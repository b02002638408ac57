//! Reversibility of the wire schema: for every shape, decoding an encoding
//! yields the value back (and, at the top level, consumes the body
//! exactly). The only side conditions are that each encoded length fits
//! its 64-bit length field, which always holds of values built from
//! in-memory vectors.

use vstd::prelude::*;
use crate::codec::{
    senc_u8, senc_u16, senc_u32, senc_u64, senc_bool, senc_bytes, sdec_u64, lemma_u8_roundtrip,
    lemma_u16_roundtrip, lemma_u32_roundtrip, lemma_u64_roundtrip, lemma_bool_roundtrip,
    lemma_bytes_roundtrip,
};
use crate::chain::{
    MemberEntryV, OnChainDaoStateV, ProposalEntryV, ProposalInProgressV, ProposalV, SignedVoteV,
    VoteEntryV, VoteV, senc_vote, sdec_vote, senc_signed_vote, sdec_signed_vote, senc_proposal,
    sdec_proposal, senc_vote_entry, sdec_vote_entry, senc_vote_items, sdec_vote_items, senc_votes,
    sdec_votes, senc_pip, sdec_pip, senc_bytes_items, sdec_bytes_items, senc_bytes_list,
    sdec_bytes_list, senc_member_entry, sdec_member_entry, senc_member_items, sdec_member_items,
    senc_members, sdec_members, senc_proposal_entry, sdec_proposal_entry, senc_proposal_items,
    sdec_proposal_items, senc_proposals, sdec_proposals, senc_dao, sdec_dao, wf_blist, wf_dao,
    wf_member_entry, wf_pip, wf_proposal, wf_proposal_entry, wf_vote_entry,
};
use crate::endpoint::{
    AddressV, ProcessIdV, senc_process_id, sdec_process_id, senc_address, sdec_address,
};
use crate::state::{
    CurrentJobV, StateV, senc_opt_job, sdec_opt_job, senc_opt_pid, sdec_opt_pid, senc_opt_addr,
    sdec_opt_addr, senc_state, sdec_state,
};
use crate::wire::{
    AdminRequestV, AdminResponseV, PublicRequestV, PublicResponseV, ReadRequestV, ReadResponseV,
    RunResponseV, SequencerRequestV, SequencerResponseV, senc_opt_bytes, sdec_opt_bytes,
    senc_admin_request, sdec_admin_request, senc_admin_response, sdec_admin_response,
    senc_signature, senc_public_request, sdec_public_request, senc_run_response,
    sdec_run_response, senc_public_response, sdec_public_response, senc_read_request,
    senc_sequencer_request, sdec_sequencer_request, senc_read_response,
    sdec_read_response, senc_sequencer_response, sdec_sequencer_response, sdec_context_u64,
};

verus! {

// ---------------------------------------------------------------------------
// well-formedness of the remaining shapes
// ---------------------------------------------------------------------------

pub open spec fn wf_pid(p: ProcessIdV) -> bool {
    p.process_name.len() <= u64::MAX && p.package_name.len() <= u64::MAX
        && p.publisher_node.len() <= u64::MAX
}

pub open spec fn wf_addr(a: AddressV) -> bool {
    a.node.len() <= u64::MAX && wf_pid(a.process)
}

pub open spec fn wf_state(s: StateV) -> bool {
    &&& wf_dao(s.on_chain_state)
    &&& match s.router_process {
        Some(p) => wf_pid(p),
        None => true,
    }
    &&& match s.rollup_sequencer {
        Some(a) => wf_addr(a),
        None => true,
    }
}

pub open spec fn wf_opt_bytes(o: Option<Seq<u8>>) -> bool {
    match o {
        Some(s) => s.len() <= u64::MAX,
        None => true,
    }
}

pub open spec fn wf_admin_request(a: AdminRequestV) -> bool {
    match a {
        AdminRequestV::SetRouterProcess { process_id } => process_id.len() <= u64::MAX,
        AdminRequestV::SetRollupSequencer { address } => address.len() <= u64::MAX,
        AdminRequestV::GetRollupState => true,
    }
}

pub open spec fn wf_admin_response(a: AdminResponseV) -> bool {
    match a {
        AdminResponseV::SetRouterProcess { err } => wf_opt_bytes(err),
        AdminResponseV::SetRollupSequencer { err } => wf_opt_bytes(err),
        AdminResponseV::GetRollupState { err } => wf_opt_bytes(err),
    }
}

pub open spec fn wf_public_request(p: PublicRequestV) -> bool {
    match p {
        PublicRequestV::RunJob(j) => j.workflow.len() <= u64::MAX && j.parameters.len()
            <= u64::MAX,
        PublicRequestV::JobUpdate { job_id: _, is_final: _, signature } => match signature {
            Ok(_) => true,
            Err(e) => e.len() <= u64::MAX,
        },
    }
}

pub open spec fn wf_public_response(p: PublicResponseV) -> bool {
    match p {
        PublicResponseV::RunJob(r) => match r {
            RunResponseV::Error(e) => e.len() <= u64::MAX,
            _ => true,
        },
        PublicResponseV::JobUpdate => true,
    }
}

pub open spec fn wf_read_response(r: ReadResponseV) -> bool {
    match r {
        ReadResponseV::All(d) => wf_dao(d),
        ReadResponseV::Routers(l) => wf_blist(l),
        ReadResponseV::Members(l) => wf_blist(l),
        _ => true,
    }
}

pub open spec fn wf_sequencer_response(s: SequencerResponseV) -> bool {
    match s {
        SequencerResponseV::Read(r) => wf_read_response(r),
        SequencerResponseV::Write => true,
    }
}

// ---------------------------------------------------------------------------
// chain shapes
// ---------------------------------------------------------------------------

pub proof fn lemma_vote_rt(v: VoteV, rest: Seq<u8>)
    ensures
        sdec_vote(senc_vote(v) + rest) == Some((v, rest)),
{
    assert(senc_vote(v) + rest =~= senc_u64(v.proposal_hash) + (senc_bool(v.is_yea) + rest));
    lemma_u64_roundtrip(v.proposal_hash, senc_bool(v.is_yea) + rest);
    lemma_bool_roundtrip(v.is_yea, rest);
}

pub proof fn lemma_signed_vote_rt(v: SignedVoteV, rest: Seq<u8>)
    ensures
        sdec_signed_vote(senc_signed_vote(v) + rest) == Some((v, rest)),
{
    assert(senc_signed_vote(v) + rest =~= senc_vote(v.vote) + (senc_u64(v.signature) + rest));
    lemma_vote_rt(v.vote, senc_u64(v.signature) + rest);
    lemma_u64_roundtrip(v.signature, rest);
}

pub proof fn lemma_proposal_rt(p: ProposalV, rest: Seq<u8>)
    requires
        wf_proposal(p),
    ensures
        sdec_proposal(senc_proposal(p) + rest) == Some((p, rest)),
{
    match p {
        ProposalV::ChangeRootNode(s) => {
            assert(senc_proposal(p) + rest =~= senc_u8(1) + (senc_bytes(s) + rest));
            lemma_u8_roundtrip(1, senc_bytes(s) + rest);
            lemma_bytes_roundtrip(s, rest);
        },
        ProposalV::ChangeQueueResponseTimeoutSeconds(v) => {
            assert(senc_proposal(p) + rest =~= senc_u8(2) + (senc_u8(v) + rest));
            lemma_u8_roundtrip(2, senc_u8(v) + rest);
            lemma_u8_roundtrip(v, rest);
        },
        ProposalV::ChangeMaxOutstandingPayments(v) => {
            assert(senc_proposal(p) + rest =~= senc_u8(3) + (senc_u8(v) + rest));
            lemma_u8_roundtrip(3, senc_u8(v) + rest);
            lemma_u8_roundtrip(v, rest);
        },
        ProposalV::ChangePaymentPeriodHours(v) => {
            assert(senc_proposal(p) + rest =~= senc_u8(4) + (senc_u8(v) + rest));
            lemma_u8_roundtrip(4, senc_u8(v) + rest);
            lemma_u8_roundtrip(v, rest);
        },
        ProposalV::Kick(s) => {
            assert(senc_proposal(p) + rest =~= senc_u8(5) + (senc_bytes(s) + rest));
            lemma_u8_roundtrip(5, senc_bytes(s) + rest);
            lemma_bytes_roundtrip(s, rest);
        },
    }
}

pub proof fn lemma_vote_entry_rt(e: VoteEntryV, rest: Seq<u8>)
    requires
        wf_vote_entry(e),
    ensures
        sdec_vote_entry(senc_vote_entry(e) + rest) == Some((e, rest)),
{
    assert(senc_vote_entry(e) + rest =~= senc_bytes(e.who) + (senc_signed_vote(e.vote) + rest));
    lemma_bytes_roundtrip(e.who, senc_signed_vote(e.vote) + rest);
    lemma_signed_vote_rt(e.vote, rest);
}

#[verifier::rlimit(60)]
pub proof fn lemma_vote_items_rt(items: Seq<VoteEntryV>, rest: Seq<u8>)
    requires
        forall|k: int| 0 <= k < items.len() ==> wf_vote_entry(#[trigger] items[k]),
    ensures
        sdec_vote_items(senc_vote_items(items) + rest, items.len()) == Some((items, rest)),
    decreases items.len(),
{
    if items.len() == 0 {
        assert(senc_vote_items(items) + rest =~= rest);
        assert(items =~= Seq::<VoteEntryV>::empty());
    } else {
        assert(senc_vote_items(items) + rest =~= senc_vote_entry(items[0]) + (senc_vote_items(
            items.skip(1),
        ) + rest));
        lemma_vote_entry_rt(items[0], senc_vote_items(items.skip(1)) + rest);
        assert forall|k: int| 0 <= k < items.skip(1).len() implies wf_vote_entry(
            #[trigger] items.skip(1)[k],
        ) by {
            assert(items.skip(1)[k] == items[k + 1]);
        }
        lemma_vote_items_rt(items.skip(1), rest);
        assert(seq![items[0]] + items.skip(1) =~= items);
    }
}

pub proof fn lemma_votes_rt(items: Seq<VoteEntryV>, rest: Seq<u8>)
    requires
        items.len() <= u64::MAX,
        forall|k: int| 0 <= k < items.len() ==> wf_vote_entry(#[trigger] items[k]),
    ensures
        sdec_votes(senc_votes(items) + rest) == Some((items, rest)),
{
    assert(senc_votes(items) + rest =~= senc_u64(items.len() as u64) + (senc_vote_items(items)
        + rest));
    lemma_u64_roundtrip(items.len() as u64, senc_vote_items(items) + rest);
    lemma_vote_items_rt(items, rest);
    assert((items.len() as u64) as nat == items.len());
}

pub proof fn lemma_pip_rt(p: ProposalInProgressV, rest: Seq<u8>)
    requires
        wf_pip(p),
    ensures
        sdec_pip(senc_pip(p) + rest) == Some((p, rest)),
{
    assert(senc_pip(p) + rest =~= senc_proposal(p.proposal) + (senc_votes(p.votes) + rest));
    lemma_proposal_rt(p.proposal, senc_votes(p.votes) + rest);
    lemma_votes_rt(p.votes, rest);
}

#[verifier::rlimit(60)]
pub proof fn lemma_bytes_items_rt(items: Seq<Seq<u8>>, rest: Seq<u8>)
    requires
        forall|k: int| 0 <= k < items.len() ==> #[trigger] items[k].len() <= u64::MAX,
    ensures
        sdec_bytes_items(senc_bytes_items(items) + rest, items.len()) == Some((items, rest)),
    decreases items.len(),
{
    if items.len() == 0 {
        assert(senc_bytes_items(items) + rest =~= rest);
        assert(items =~= Seq::<Seq<u8>>::empty());
    } else {
        assert(senc_bytes_items(items) + rest =~= senc_bytes(items[0]) + (senc_bytes_items(
            items.skip(1),
        ) + rest));
        lemma_bytes_roundtrip(items[0], senc_bytes_items(items.skip(1)) + rest);
        assert forall|k: int| 0 <= k < items.skip(1).len() implies #[trigger] items.skip(
            1,
        )[k].len() <= u64::MAX by {
            assert(items.skip(1)[k] == items[k + 1]);
        }
        lemma_bytes_items_rt(items.skip(1), rest);
        assert(seq![items[0]] + items.skip(1) =~= items);
    }
}

pub proof fn lemma_bytes_list_rt(items: Seq<Seq<u8>>, rest: Seq<u8>)
    requires
        wf_blist(items),
    ensures
        sdec_bytes_list(senc_bytes_list(items) + rest) == Some((items, rest)),
{
    assert(senc_bytes_list(items) + rest =~= senc_u64(items.len() as u64) + (senc_bytes_items(items)
        + rest));
    lemma_u64_roundtrip(items.len() as u64, senc_bytes_items(items) + rest);
    lemma_bytes_items_rt(items, rest);
    assert((items.len() as u64) as nat == items.len());
}

pub proof fn lemma_member_entry_rt(e: MemberEntryV, rest: Seq<u8>)
    requires
        wf_member_entry(e),
    ensures
        sdec_member_entry(senc_member_entry(e) + rest) == Some((e, rest)),
{
    assert(senc_member_entry(e) + rest =~= senc_bytes(e.who) + (senc_bytes(e.addr) + rest));
    lemma_bytes_roundtrip(e.who, senc_bytes(e.addr) + rest);
    lemma_bytes_roundtrip(e.addr, rest);
}

#[verifier::rlimit(100)]
pub proof fn lemma_member_items_rt(items: Seq<MemberEntryV>, rest: Seq<u8>)
    requires
        forall|k: int| 0 <= k < items.len() ==> wf_member_entry(#[trigger] items[k]),
    ensures
        sdec_member_items(senc_member_items(items) + rest, items.len()) == Some((items, rest)),
    decreases items.len(),
{
    if items.len() == 0 {
        assert(senc_member_items(items) + rest =~= rest);
        assert(items =~= Seq::<MemberEntryV>::empty());
    } else {
        let b = senc_member_items(items) + rest;
        let tail = senc_member_items(items.skip(1)) + rest;
        assert(b =~= senc_member_entry(items[0]) + tail);
        lemma_member_entry_rt(items[0], tail);
        assert(sdec_member_entry(b) == Some((items[0], tail)));
        assert forall|k: int| 0 <= k < items.skip(1).len() implies wf_member_entry(
            #[trigger] items.skip(1)[k],
        ) by {
            assert(items.skip(1)[k] == items[k + 1]);
        }
        lemma_member_items_rt(items.skip(1), rest);
        assert(sdec_member_items(tail, items.skip(1).len()) == Some((items.skip(1), rest)));
        assert((items.len() - 1) as nat == items.skip(1).len());
        assert(sdec_member_items(b, items.len()) == Some((seq![items[0]] + items.skip(1), rest)));
        assert(seq![items[0]] + items.skip(1) =~= items);
    }
}

pub proof fn lemma_members_rt(items: Seq<MemberEntryV>, rest: Seq<u8>)
    requires
        items.len() <= u64::MAX,
        forall|k: int| 0 <= k < items.len() ==> wf_member_entry(#[trigger] items[k]),
    ensures
        sdec_members(senc_members(items) + rest) == Some((items, rest)),
{
    assert(senc_members(items) + rest =~= senc_u64(items.len() as u64) + (senc_member_items(items)
        + rest));
    lemma_u64_roundtrip(items.len() as u64, senc_member_items(items) + rest);
    lemma_member_items_rt(items, rest);
    assert((items.len() as u64) as nat == items.len());
}

pub proof fn lemma_proposal_entry_rt(e: ProposalEntryV, rest: Seq<u8>)
    requires
        wf_proposal_entry(e),
    ensures
        sdec_proposal_entry(senc_proposal_entry(e) + rest) == Some((e, rest)),
{
    assert(senc_proposal_entry(e) + rest =~= senc_u64(e.id) + (senc_pip(e.value) + rest));
    lemma_u64_roundtrip(e.id, senc_pip(e.value) + rest);
    lemma_pip_rt(e.value, rest);
}

#[verifier::rlimit(100)]
pub proof fn lemma_proposal_items_rt(items: Seq<ProposalEntryV>, rest: Seq<u8>)
    requires
        forall|k: int| 0 <= k < items.len() ==> wf_proposal_entry(#[trigger] items[k]),
    ensures
        sdec_proposal_items(senc_proposal_items(items) + rest, items.len()) == Some((items, rest)),
    decreases items.len(),
{
    if items.len() == 0 {
        assert(senc_proposal_items(items) + rest =~= rest);
        assert(items =~= Seq::<ProposalEntryV>::empty());
    } else {
        let b = senc_proposal_items(items) + rest;
        let tail = senc_proposal_items(items.skip(1)) + rest;
        lemma_proposal_items_head(items, rest);
        lemma_proposal_entry_rt(items[0], tail);
        assert forall|k: int| 0 <= k < items.skip(1).len() implies wf_proposal_entry(
            #[trigger] items.skip(1)[k],
        ) by {
            assert(items.skip(1)[k] == items[k + 1]);
        }
        lemma_proposal_items_rt(items.skip(1), rest);
        lemma_proposal_items_cons(items[0], items.skip(1), rest, b, tail);
        assert(seq![items[0]] + items.skip(1) =~= items);
    }
}

/// The encoding of a non-empty run of proposal entries starts with the
/// encoding of its head.
proof fn lemma_proposal_items_head(items: Seq<ProposalEntryV>, rest: Seq<u8>)
    requires
        items.len() > 0,
    ensures
        senc_proposal_items(items) + rest == senc_proposal_entry(items[0]) + (senc_proposal_items(
            items.skip(1),
        ) + rest),
{
    assert(senc_proposal_items(items) + rest =~= senc_proposal_entry(items[0]) + (
    senc_proposal_items(items.skip(1)) + rest));
}

/// Decoding one more entry on the front of an already-decodable run.
proof fn lemma_proposal_items_cons(
    x: ProposalEntryV,
    xs: Seq<ProposalEntryV>,
    rest: Seq<u8>,
    b: Seq<u8>,
    tail: Seq<u8>,
)
    requires
        sdec_proposal_entry(b) == Some((x, tail)),
        sdec_proposal_items(tail, xs.len()) == Some((xs, rest)),
    ensures
        sdec_proposal_items(b, xs.len() + 1) == Some((seq![x] + xs, rest)),
{
    assert((xs.len() + 1 - 1) as nat == xs.len());
}

pub proof fn lemma_proposals_rt(items: Seq<ProposalEntryV>, rest: Seq<u8>)
    requires
        items.len() <= u64::MAX,
        forall|k: int| 0 <= k < items.len() ==> wf_proposal_entry(#[trigger] items[k]),
    ensures
        sdec_proposals(senc_proposals(items) + rest) == Some((items, rest)),
{
    assert(senc_proposals(items) + rest =~= senc_u64(items.len() as u64) + (senc_proposal_items(
        items,
    ) + rest));
    lemma_u64_roundtrip(items.len() as u64, senc_proposal_items(items) + rest);
    lemma_proposal_items_rt(items, rest);
    assert((items.len() as u64) as nat == items.len());
}

/// The whole snapshot survives the trip over the wire.
#[verifier::rlimit(60)]
pub proof fn lemma_dao_rt(d: OnChainDaoStateV, rest: Seq<u8>)
    requires
        wf_dao(d),
    ensures
        sdec_dao(senc_dao(d) + rest) == Some((d, rest)),
{
    let b6 = senc_u8(d.payment_period_hours) + rest;
    let b5 = senc_u8(d.max_outstanding_payments) + b6;
    let b4 = senc_u16(d.serve_timeout_seconds) + b5;
    let b3 = senc_u8(d.queue_response_timeout_seconds) + b4;
    let b2 = senc_proposals(d.proposals) + b3;
    let b1 = senc_members(d.members) + b2;
    let b0 = senc_bytes_list(d.routers) + b1;
    assert(senc_dao(d) + rest =~= b0);
    lemma_bytes_list_rt(d.routers, b1);
    lemma_members_rt(d.members, b2);
    lemma_proposals_rt(d.proposals, b3);
    lemma_u8_roundtrip(d.queue_response_timeout_seconds, b4);
    lemma_u16_roundtrip(d.serve_timeout_seconds, b5);
    lemma_u8_roundtrip(d.max_outstanding_payments, b6);
    lemma_u8_roundtrip(d.payment_period_hours, rest);
}

// ---------------------------------------------------------------------------
// endpoint and state shapes
// ---------------------------------------------------------------------------

pub proof fn lemma_process_id_rt(p: ProcessIdV, rest: Seq<u8>)
    requires
        wf_pid(p),
    ensures
        sdec_process_id(senc_process_id(p) + rest) == Some((p, rest)),
{
    let b2 = senc_bytes(p.publisher_node) + rest;
    let b1 = senc_bytes(p.package_name) + b2;
    assert(senc_process_id(p) + rest =~= senc_bytes(p.process_name) + b1);
    lemma_bytes_roundtrip(p.process_name, b1);
    lemma_bytes_roundtrip(p.package_name, b2);
    lemma_bytes_roundtrip(p.publisher_node, rest);
}

pub proof fn lemma_address_rt(a: AddressV, rest: Seq<u8>)
    requires
        wf_addr(a),
    ensures
        sdec_address(senc_address(a) + rest) == Some((a, rest)),
{
    assert(senc_address(a) + rest =~= senc_bytes(a.node) + (senc_process_id(a.process) + rest));
    lemma_bytes_roundtrip(a.node, senc_process_id(a.process) + rest);
    lemma_process_id_rt(a.process, rest);
}

pub proof fn lemma_opt_job_rt(o: Option<CurrentJobV>, rest: Seq<u8>)
    ensures
        sdec_opt_job(senc_opt_job(o) + rest) == Some((o, rest)),
{
    match o {
        None => {
            assert(senc_opt_job(o) + rest =~= senc_u8(0) + rest);
            lemma_u8_roundtrip(0, rest);
        },
        Some(j) => {
            assert(senc_opt_job(o) + rest =~= senc_u8(1) + (senc_u64(j.job_id) + (senc_u32(
                j.next_image_number,
            ) + rest)));
            lemma_u8_roundtrip(1, senc_u64(j.job_id) + (senc_u32(j.next_image_number) + rest));
            lemma_u64_roundtrip(j.job_id, senc_u32(j.next_image_number) + rest);
            lemma_u32_roundtrip(j.next_image_number, rest);
        },
    }
}

pub proof fn lemma_opt_pid_rt(o: Option<ProcessIdV>, rest: Seq<u8>)
    requires
        match o {
            Some(p) => wf_pid(p),
            None => true,
        },
    ensures
        sdec_opt_pid(senc_opt_pid(o) + rest) == Some((o, rest)),
{
    match o {
        None => {
            assert(senc_opt_pid(o) + rest =~= senc_u8(0) + rest);
            lemma_u8_roundtrip(0, rest);
        },
        Some(p) => {
            assert(senc_opt_pid(o) + rest =~= senc_u8(1) + (senc_process_id(p) + rest));
            lemma_u8_roundtrip(1, senc_process_id(p) + rest);
            lemma_process_id_rt(p, rest);
        },
    }
}

pub proof fn lemma_opt_addr_rt(o: Option<AddressV>, rest: Seq<u8>)
    requires
        match o {
            Some(a) => wf_addr(a),
            None => true,
        },
    ensures
        sdec_opt_addr(senc_opt_addr(o) + rest) == Some((o, rest)),
{
    match o {
        None => {
            assert(senc_opt_addr(o) + rest =~= senc_u8(0) + rest);
            lemma_u8_roundtrip(0, rest);
        },
        Some(a) => {
            assert(senc_opt_addr(o) + rest =~= senc_u8(1) + (senc_address(a) + rest));
            lemma_u8_roundtrip(1, senc_address(a) + rest);
            lemma_address_rt(a, rest);
        },
    }
}

/// The persisted record is loaded back exactly as it was saved.
#[verifier::rlimit(60)]
pub proof fn lemma_state_rt(s: StateV)
    requires
        wf_state(s),
    ensures
        sdec_state(senc_state(s)) == Some(s),
{
    let e = Seq::<u8>::empty();
    let b3 = senc_dao(s.on_chain_state) + e;
    let b2 = senc_opt_addr(s.rollup_sequencer) + b3;
    let b1 = senc_opt_pid(s.router_process) + b2;
    assert(senc_state(s) =~= senc_opt_job(s.current_job) + b1);
    lemma_opt_job_rt(s.current_job, b1);
    lemma_opt_pid_rt(s.router_process, b2);
    lemma_opt_addr_rt(s.rollup_sequencer, b3);
    lemma_dao_rt(s.on_chain_state, e);
}

// ---------------------------------------------------------------------------
// envelope bodies
// ---------------------------------------------------------------------------

pub proof fn lemma_opt_bytes_rt(o: Option<Seq<u8>>, rest: Seq<u8>)
    requires
        wf_opt_bytes(o),
    ensures
        sdec_opt_bytes(senc_opt_bytes(o) + rest) == Some((o, rest)),
{
    match o {
        None => {
            assert(senc_opt_bytes(o) + rest =~= senc_u8(0) + rest);
            lemma_u8_roundtrip(0, rest);
        },
        Some(s) => {
            assert(senc_opt_bytes(o) + rest =~= senc_u8(1) + (senc_bytes(s) + rest));
            lemma_u8_roundtrip(1, senc_bytes(s) + rest);
            lemma_bytes_roundtrip(s, rest);
        },
    }
}

/// An encoded admin request is classified back as exactly that request.
pub proof fn lemma_admin_request_rt(a: AdminRequestV)
    requires
        wf_admin_request(a),
    ensures
        sdec_admin_request(senc_admin_request(a)) == Some(a),
{
    let e = Seq::<u8>::empty();
    match a {
        AdminRequestV::SetRouterProcess { process_id } => {
            assert(senc_admin_request(a) =~= senc_u8(10) + (senc_bytes(process_id) + e));
            lemma_u8_roundtrip(10, senc_bytes(process_id) + e);
            lemma_bytes_roundtrip(process_id, e);
        },
        AdminRequestV::SetRollupSequencer { address } => {
            assert(senc_admin_request(a) =~= senc_u8(11) + (senc_bytes(address) + e));
            lemma_u8_roundtrip(11, senc_bytes(address) + e);
            lemma_bytes_roundtrip(address, e);
        },
        AdminRequestV::GetRollupState => {
            assert(senc_admin_request(a) =~= senc_u8(12) + e);
            lemma_u8_roundtrip(12, e);
        },
    }
}

pub proof fn lemma_admin_response_rt(a: AdminResponseV)
    requires
        wf_admin_response(a),
    ensures
        sdec_admin_response(senc_admin_response(a)) == Some(a),
{
    let e = Seq::<u8>::empty();
    match a {
        AdminResponseV::SetRouterProcess { err } => {
            assert(senc_admin_response(a) =~= senc_u8(20) + (senc_opt_bytes(err) + e));
            lemma_u8_roundtrip(20, senc_opt_bytes(err) + e);
            lemma_opt_bytes_rt(err, e);
        },
        AdminResponseV::SetRollupSequencer { err } => {
            assert(senc_admin_response(a) =~= senc_u8(21) + (senc_opt_bytes(err) + e));
            lemma_u8_roundtrip(21, senc_opt_bytes(err) + e);
            lemma_opt_bytes_rt(err, e);
        },
        AdminResponseV::GetRollupState { err } => {
            assert(senc_admin_response(a) =~= senc_u8(22) + (senc_opt_bytes(err) + e));
            lemma_u8_roundtrip(22, senc_opt_bytes(err) + e);
            lemma_opt_bytes_rt(err, e);
        },
    }
}

/// An encoded public request is classified back as exactly that request.
pub proof fn lemma_public_request_rt(p: PublicRequestV)
    requires
        wf_public_request(p),
    ensures
        sdec_public_request(senc_public_request(p)) == Some(p),
{
    let e = Seq::<u8>::empty();
    match p {
        PublicRequestV::RunJob(j) => {
            let b1 = senc_bytes(j.parameters) + e;
            assert(senc_public_request(p) =~= senc_u8(30) + (senc_bytes(j.workflow) + b1));
            lemma_u8_roundtrip(30, senc_bytes(j.workflow) + b1);
            lemma_bytes_roundtrip(j.workflow, b1);
            lemma_bytes_roundtrip(j.parameters, e);
        },
        PublicRequestV::JobUpdate { job_id, is_final, signature } => {
            let b2 = senc_signature(signature) + e;
            let b1 = senc_bool(is_final) + b2;
            assert(senc_public_request(p) =~= senc_u8(31) + (senc_u64(job_id) + b1));
            lemma_u8_roundtrip(31, senc_u64(job_id) + b1);
            lemma_u64_roundtrip(job_id, b1);
            lemma_bool_roundtrip(is_final, b2);
            match signature {
                Ok(v) => {
                    assert(b2 =~= senc_u8(1) + (senc_u64(v) + e));
                    lemma_u8_roundtrip(1, senc_u64(v) + e);
                    lemma_u64_roundtrip(v, e);
                },
                Err(er) => {
                    assert(b2 =~= senc_u8(0) + (senc_bytes(er) + e));
                    lemma_u8_roundtrip(0, senc_bytes(er) + e);
                    lemma_bytes_roundtrip(er, e);
                },
            }
        },
    }
}

/// An encoded public response is classified back as exactly that response.
pub proof fn lemma_public_response_rt(p: PublicResponseV)
    requires
        wf_public_response(p),
    ensures
        sdec_public_response(senc_public_response(p)) == Some(p),
{
    let e = Seq::<u8>::empty();
    match p {
        PublicResponseV::RunJob(rr) => {
            let br = senc_run_response(rr) + e;
            assert(senc_public_response(p) =~= senc_u8(40) + br);
            lemma_u8_roundtrip(40, br);
            match rr {
                RunResponseV::JobQueued { job_id } => {
                    assert(br =~= senc_u8(50) + (senc_u64(job_id) + e));
                    lemma_u8_roundtrip(50, senc_u64(job_id) + e);
                    lemma_u64_roundtrip(job_id, e);
                },
                RunResponseV::PaymentRequired => {
                    assert(br =~= senc_u8(51) + e);
                    lemma_u8_roundtrip(51, e);
                },
                RunResponseV::Error(er) => {
                    assert(br =~= senc_u8(52) + (senc_bytes(er) + e));
                    lemma_u8_roundtrip(52, senc_bytes(er) + e);
                    lemma_bytes_roundtrip(er, e);
                },
            }
        },
        PublicResponseV::JobUpdate => {
            assert(senc_public_response(p) =~= senc_u8(41) + e);
            lemma_u8_roundtrip(41, e);
        },
    }
}

pub proof fn lemma_sequencer_request_rt(s: SequencerRequestV)
    ensures
        sdec_sequencer_request(senc_sequencer_request(s)) == Some(s),
{
    let e = Seq::<u8>::empty();
    match s {
        SequencerRequestV::Read(rr) => {
            let br = senc_read_request(rr) + e;
            assert(senc_sequencer_request(s) =~= senc_u8(60) + br);
            lemma_u8_roundtrip(60, br);
            match rr {
                ReadRequestV::All => {
                    assert(br =~= senc_u8(70) + e);
                    lemma_u8_roundtrip(70, e);
                },
                ReadRequestV::Dao => {
                    assert(br =~= senc_u8(71) + e);
                    lemma_u8_roundtrip(71, e);
                },
                ReadRequestV::Routers => {
                    assert(br =~= senc_u8(72) + e);
                    lemma_u8_roundtrip(72, e);
                },
                ReadRequestV::Members => {
                    assert(br =~= senc_u8(73) + e);
                    lemma_u8_roundtrip(73, e);
                },
                ReadRequestV::Proposals => {
                    assert(br =~= senc_u8(74) + e);
                    lemma_u8_roundtrip(74, e);
                },
                ReadRequestV::Parameters => {
                    assert(br =~= senc_u8(75) + e);
                    lemma_u8_roundtrip(75, e);
                },
            }
        },
    }
}

/// An encoded sequencer response — the snapshot included — is decoded back
/// exactly; in particular a synced snapshot arrives unaltered.
/// A read answer is decoded back exactly, whatever remainder follows it.
#[verifier::rlimit(100)]
pub proof fn lemma_read_response_rt(rr: ReadResponseV, rest: Seq<u8>)
    requires
        wf_read_response(rr),
    ensures
        sdec_read_response(senc_read_response(rr) + rest) == Some((rr, rest)),
{
    let br = senc_read_response(rr) + rest;
    match rr {
        ReadResponseV::All(d) => {
            lemma_read_response_all_rt(d, rest);
        },
        ReadResponseV::Dao => {
            assert(br =~= senc_u8(81) + rest);
            lemma_u8_roundtrip(81, rest);
        },
        ReadResponseV::Routers(l) => {
            assert(br =~= senc_u8(82) + (senc_bytes_list(l) + rest));
            lemma_u8_roundtrip(82, senc_bytes_list(l) + rest);
            lemma_bytes_list_rt(l, rest);
        },
        ReadResponseV::Members(l) => {
            assert(br =~= senc_u8(83) + (senc_bytes_list(l) + rest));
            lemma_u8_roundtrip(83, senc_bytes_list(l) + rest);
            lemma_bytes_list_rt(l, rest);
        },
        ReadResponseV::Proposals => {
            assert(br =~= senc_u8(84) + rest);
            lemma_u8_roundtrip(84, rest);
        },
        ReadResponseV::Parameters => {
            assert(br =~= senc_u8(85) + rest);
            lemma_u8_roundtrip(85, rest);
        },
    }
}

/// The snapshot answer in particular is decoded back exactly.
#[verifier::rlimit(100)]
proof fn lemma_read_response_all_rt(d: OnChainDaoStateV, rest: Seq<u8>)
    requires
        wf_dao(d),
    ensures
        sdec_read_response(senc_read_response(ReadResponseV::All(d)) + rest) == Some((
            ReadResponseV::All(d),
            rest,
        )),
{
    let br = senc_read_response(ReadResponseV::All(d)) + rest;
    assert(br =~= senc_u8(80) + (senc_dao(d) + rest));
    lemma_u8_roundtrip(80, senc_dao(d) + rest);
    lemma_dao_rt(d, rest);
}

#[verifier::rlimit(60)]
pub proof fn lemma_sequencer_response_rt(s: SequencerResponseV)
    requires
        wf_sequencer_response(s),
    ensures
        sdec_sequencer_response(senc_sequencer_response(s)) == Some(s),
{
    let e = Seq::<u8>::empty();
    match s {
        SequencerResponseV::Read(rr) => {
            let br = senc_read_response(rr) + e;
            assert(senc_sequencer_response(s) =~= senc_u8(61) + br);
            lemma_u8_roundtrip(61, br);
            lemma_read_response_rt(rr, e);
        },
        SequencerResponseV::Write => {
            assert(senc_sequencer_response(s) =~= senc_u8(62) + e);
            lemma_u8_roundtrip(62, e);
        },
    }
}

/// A timer context carries its job id back exactly.
pub proof fn lemma_context_rt(v: u64)
    ensures
        sdec_context_u64(senc_u64(v)) == Some(v),
{
    let e = Seq::<u8>::empty();
    assert(senc_u64(v) =~= senc_u64(v) + e);
    lemma_u64_roundtrip(v, e);
    assert(sdec_u64(senc_u64(v)) == Some((v, e)));
}

} // verus!
