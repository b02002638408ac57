//! Mirrored governance/config snapshot: the DAO state the sequencer holds,
//! as cached locally. The client treats it as read-only: it is replaced
//! wholesale on each successful sync and never patched in place.
//!
//! Each type carries a ghost view (`...V`) over `Seq<u8>` byte strings, and
//! the module defines the wire encoding of the snapshot: every `senc_*`
//! spec function gives the exact byte sequence, every `sdec_*` the exact
//! (partial) inverse, and the round-trip lemmas prove the schema reversible.

use vstd::prelude::*;
use crate::codec::{
    senc_u8, senc_u16, senc_u64, senc_bool, senc_bytes, sdec_u8, sdec_u16, sdec_u64, sdec_bool,
    sdec_bytes, enc_u8, enc_u16, enc_u64, enc_bool, enc_bytes, dec_u8, dec_u16, dec_u64, dec_bool,
    dec_bytes,
};

verus! {

// ---------------------------------------------------------------------------
// data model
// ---------------------------------------------------------------------------

/// An on-chain account address, held as its raw bytes. The client never
/// computes with it; it only mirrors it.
pub struct ChainAddress {
    pub bytes: Vec<u8>,
}

impl View for ChainAddress {
    type V = Seq<u8>;

    open spec fn view(&self) -> Seq<u8> {
        self.bytes@
    }
}

/// A vote on a proposal.
pub struct Vote {
    pub proposal_hash: u64,
    pub is_yea: bool,
}

pub ghost struct VoteV {
    pub proposal_hash: u64,
    pub is_yea: bool,
}

impl View for Vote {
    type V = VoteV;

    open spec fn view(&self) -> VoteV {
        VoteV { proposal_hash: self.proposal_hash, is_yea: self.is_yea }
    }
}

/// A signed vote on a proposal. Signature verification is outside this
/// client's scope; the signature is mirrored as an opaque integer.
pub struct SignedVote {
    pub vote: Vote,
    pub signature: u64,
}

pub ghost struct SignedVoteV {
    pub vote: VoteV,
    pub signature: u64,
}

impl View for SignedVote {
    type V = SignedVoteV;

    open spec fn view(&self) -> SignedVoteV {
        SignedVoteV { vote: self.vote@, signature: self.signature }
    }
}

/// Possible proposals.
pub enum Proposal {
    ChangeRootNode(Vec<u8>),
    ChangeQueueResponseTimeoutSeconds(u8),
    ChangeMaxOutstandingPayments(u8),
    ChangePaymentPeriodHours(u8),
    Kick(Vec<u8>),
}

pub ghost enum ProposalV {
    ChangeRootNode(Seq<u8>),
    ChangeQueueResponseTimeoutSeconds(u8),
    ChangeMaxOutstandingPayments(u8),
    ChangePaymentPeriodHours(u8),
    Kick(Seq<u8>),
}

impl View for Proposal {
    type V = ProposalV;

    open spec fn view(&self) -> ProposalV {
        match self {
            Proposal::ChangeRootNode(s) => ProposalV::ChangeRootNode(s@),
            Proposal::ChangeQueueResponseTimeoutSeconds(v) => ProposalV::ChangeQueueResponseTimeoutSeconds(*v),
            Proposal::ChangeMaxOutstandingPayments(v) => ProposalV::ChangeMaxOutstandingPayments(*v),
            Proposal::ChangePaymentPeriodHours(v) => ProposalV::ChangePaymentPeriodHours(*v),
            Proposal::Kick(s) => ProposalV::Kick(s@),
        }
    }
}

/// One identity's vote inside a proposal's vote map.
pub struct VoteEntry {
    pub who: Vec<u8>,
    pub vote: SignedVote,
}

pub ghost struct VoteEntryV {
    pub who: Seq<u8>,
    pub vote: SignedVoteV,
}

impl View for VoteEntry {
    type V = VoteEntryV;

    open spec fn view(&self) -> VoteEntryV {
        VoteEntryV { who: self.who@, vote: self.vote@ }
    }
}

/// A proposal under vote: the proposal itself and one vote per identity.
pub struct ProposalInProgress {
    pub proposal: Proposal,
    pub votes: Vec<VoteEntry>,
}

pub ghost struct ProposalInProgressV {
    pub proposal: ProposalV,
    pub votes: Seq<VoteEntryV>,
}

impl View for ProposalInProgress {
    type V = ProposalInProgressV;

    open spec fn view(&self) -> ProposalInProgressV {
        ProposalInProgressV { proposal: self.proposal@, votes: votes_view(self.votes@) }
    }
}

/// One member of the DAO: an identity and its chain address.
pub struct MemberEntry {
    pub who: Vec<u8>,
    pub addr: ChainAddress,
}

pub ghost struct MemberEntryV {
    pub who: Seq<u8>,
    pub addr: Seq<u8>,
}

impl View for MemberEntry {
    type V = MemberEntryV;

    open spec fn view(&self) -> MemberEntryV {
        MemberEntryV { who: self.who@, addr: self.addr@ }
    }
}

/// One proposal-in-progress keyed by its proposal id.
pub struct ProposalEntry {
    pub id: u64,
    pub value: ProposalInProgress,
}

pub ghost struct ProposalEntryV {
    pub id: u64,
    pub value: ProposalInProgressV,
}

impl View for ProposalEntry {
    type V = ProposalEntryV;

    open spec fn view(&self) -> ProposalEntryV {
        ProposalEntryV { id: self.id, value: self.value@ }
    }
}

/// The mirrored governance/config snapshot.
pub struct OnChainDaoState {
    pub routers: Vec<Vec<u8>>,  // length 1 for now
    pub members: Vec<MemberEntry>,
    pub proposals: Vec<ProposalEntry>,
    pub queue_response_timeout_seconds: u8,
    pub serve_timeout_seconds: u16,
    pub max_outstanding_payments: u8,
    pub payment_period_hours: u8,
}

pub ghost struct OnChainDaoStateV {
    pub routers: Seq<Seq<u8>>,
    pub members: Seq<MemberEntryV>,
    pub proposals: Seq<ProposalEntryV>,
    pub queue_response_timeout_seconds: u8,
    pub serve_timeout_seconds: u16,
    pub max_outstanding_payments: u8,
    pub payment_period_hours: u8,
}

pub open spec fn bl_view(s: Seq<Vec<u8>>) -> Seq<Seq<u8>> {
    s.map_values(|v: Vec<u8>| v@)
}

pub open spec fn members_view(s: Seq<MemberEntry>) -> Seq<MemberEntryV> {
    s.map_values(|m: MemberEntry| m@)
}

pub open spec fn votes_view(s: Seq<VoteEntry>) -> Seq<VoteEntryV> {
    s.map_values(|m: VoteEntry| m@)
}

pub open spec fn proposals_view(s: Seq<ProposalEntry>) -> Seq<ProposalEntryV> {
    s.map_values(|m: ProposalEntry| m@)
}

impl View for OnChainDaoState {
    type V = OnChainDaoStateV;

    open spec fn view(&self) -> OnChainDaoStateV {
        OnChainDaoStateV {
            routers: bl_view(self.routers@),
            members: members_view(self.members@),
            proposals: proposals_view(self.proposals@),
            queue_response_timeout_seconds: self.queue_response_timeout_seconds,
            serve_timeout_seconds: self.serve_timeout_seconds,
            max_outstanding_payments: self.max_outstanding_payments,
            payment_period_hours: self.payment_period_hours,
        }
    }
}

impl OnChainDaoStateV {
    /// The snapshot before any sync has succeeded: no routers, no members,
    /// no proposals, zeroed timeouts and limits.
    pub open spec fn empty() -> OnChainDaoStateV {
        OnChainDaoStateV {
            routers: Seq::empty(),
            members: Seq::empty(),
            proposals: Seq::empty(),
            queue_response_timeout_seconds: 0,
            serve_timeout_seconds: 0,
            max_outstanding_payments: 0,
            payment_period_hours: 0,
        }
    }
}

impl Default for OnChainDaoState {
    /// The default snapshot used until the first successful sync.
    fn default() -> (r: Self)
        ensures
            r@ == OnChainDaoStateV::empty(),
    {
        let r = OnChainDaoState {
            routers: Vec::new(),
            members: Vec::new(),
            proposals: Vec::new(),
            queue_response_timeout_seconds: 0,
            serve_timeout_seconds: 0,
            max_outstanding_payments: 0,
            payment_period_hours: 0,
        };
        proof {
            assert(r@.routers =~= Seq::<Seq<u8>>::empty());
            assert(r@.members =~= Seq::<MemberEntryV>::empty());
            assert(r@.proposals =~= Seq::<ProposalEntryV>::empty());
        }
        r
    }
}

// ---------------------------------------------------------------------------
// well-formedness: every length fits its wire length field
// ---------------------------------------------------------------------------

pub open spec fn wf_blist(s: Seq<Seq<u8>>) -> bool {
    s.len() <= u64::MAX && forall|k: int| 0 <= k < s.len() ==> #[trigger] s[k].len() <= u64::MAX
}

pub open spec fn wf_proposal(p: ProposalV) -> bool {
    match p {
        ProposalV::ChangeRootNode(s) => s.len() <= u64::MAX,
        ProposalV::Kick(s) => s.len() <= u64::MAX,
        _ => true,
    }
}

pub open spec fn wf_vote_entry(e: VoteEntryV) -> bool {
    e.who.len() <= u64::MAX
}

pub open spec fn wf_member_entry(e: MemberEntryV) -> bool {
    e.who.len() <= u64::MAX && e.addr.len() <= u64::MAX
}

pub open spec fn wf_pip(p: ProposalInProgressV) -> bool {
    wf_proposal(p.proposal) && p.votes.len() <= u64::MAX && forall|k: int|
        0 <= k < p.votes.len() ==> wf_vote_entry(#[trigger] p.votes[k])
}

pub open spec fn wf_proposal_entry(e: ProposalEntryV) -> bool {
    wf_pip(e.value)
}

pub open spec fn wf_dao(d: OnChainDaoStateV) -> bool {
    &&& wf_blist(d.routers)
    &&& d.members.len() <= u64::MAX
    &&& forall|k: int| 0 <= k < d.members.len() ==> wf_member_entry(#[trigger] d.members[k])
    &&& d.proposals.len() <= u64::MAX
    &&& forall|k: int| 0 <= k < d.proposals.len() ==> wf_proposal_entry(#[trigger] d.proposals[k])
}

// ---------------------------------------------------------------------------
// wire encoding: specification
// ---------------------------------------------------------------------------

pub open spec fn senc_vote(v: VoteV) -> Seq<u8> {
    senc_u64(v.proposal_hash) + senc_bool(v.is_yea)
}

pub open spec fn sdec_vote(b: Seq<u8>) -> Option<(VoteV, Seq<u8>)> {
    match sdec_u64(b) {
        None => None,
        Some((h, r)) => match sdec_bool(r) {
            None => None,
            Some((y, r2)) => Some((VoteV { proposal_hash: h, is_yea: y }, r2)),
        },
    }
}

pub open spec fn senc_signed_vote(v: SignedVoteV) -> Seq<u8> {
    senc_vote(v.vote) + senc_u64(v.signature)
}

pub open spec fn sdec_signed_vote(b: Seq<u8>) -> Option<(SignedVoteV, Seq<u8>)> {
    match sdec_vote(b) {
        None => None,
        Some((v, r)) => match sdec_u64(r) {
            None => None,
            Some((s, r2)) => Some((SignedVoteV { vote: v, signature: s }, r2)),
        },
    }
}

pub open spec fn senc_proposal(p: ProposalV) -> Seq<u8> {
    match p {
        ProposalV::ChangeRootNode(s) => senc_u8(1) + senc_bytes(s),
        ProposalV::ChangeQueueResponseTimeoutSeconds(v) => senc_u8(2) + senc_u8(v),
        ProposalV::ChangeMaxOutstandingPayments(v) => senc_u8(3) + senc_u8(v),
        ProposalV::ChangePaymentPeriodHours(v) => senc_u8(4) + senc_u8(v),
        ProposalV::Kick(s) => senc_u8(5) + senc_bytes(s),
    }
}

pub open spec fn sdec_proposal(b: Seq<u8>) -> Option<(ProposalV, Seq<u8>)> {
    match sdec_u8(b) {
        None => None,
        Some((t, r)) => if t == 1 {
            match sdec_bytes(r) {
                None => None,
                Some((s, r2)) => Some((ProposalV::ChangeRootNode(s), r2)),
            }
        } else if t == 2 {
            match sdec_u8(r) {
                None => None,
                Some((v, r2)) => Some((ProposalV::ChangeQueueResponseTimeoutSeconds(v), r2)),
            }
        } else if t == 3 {
            match sdec_u8(r) {
                None => None,
                Some((v, r2)) => Some((ProposalV::ChangeMaxOutstandingPayments(v), r2)),
            }
        } else if t == 4 {
            match sdec_u8(r) {
                None => None,
                Some((v, r2)) => Some((ProposalV::ChangePaymentPeriodHours(v), r2)),
            }
        } else if t == 5 {
            match sdec_bytes(r) {
                None => None,
                Some((s, r2)) => Some((ProposalV::Kick(s), r2)),
            }
        } else {
            None
        },
    }
}

pub open spec fn senc_vote_entry(e: VoteEntryV) -> Seq<u8> {
    senc_bytes(e.who) + senc_signed_vote(e.vote)
}

pub open spec fn sdec_vote_entry(b: Seq<u8>) -> Option<(VoteEntryV, Seq<u8>)> {
    match sdec_bytes(b) {
        None => None,
        Some((w, r)) => match sdec_signed_vote(r) {
            None => None,
            Some((v, r2)) => Some((VoteEntryV { who: w, vote: v }, r2)),
        },
    }
}

pub open spec fn senc_vote_items(items: Seq<VoteEntryV>) -> Seq<u8>
    decreases items.len(),
{
    if items.len() == 0 {
        Seq::empty()
    } else {
        senc_vote_entry(items[0]) + senc_vote_items(items.skip(1))
    }
}

pub open spec fn sdec_vote_items(b: Seq<u8>, n: nat) -> Option<(Seq<VoteEntryV>, Seq<u8>)>
    decreases n,
{
    if n == 0 {
        Some((Seq::empty(), b))
    } else {
        match sdec_vote_entry(b) {
            None => None,
            Some((x, r)) => match sdec_vote_items(r, (n - 1) as nat) {
                None => None,
                Some((xs, r2)) => Some((seq![x] + xs, r2)),
            },
        }
    }
}

pub open spec fn senc_votes(items: Seq<VoteEntryV>) -> Seq<u8> {
    senc_u64(items.len() as u64) + senc_vote_items(items)
}

pub open spec fn sdec_votes(b: Seq<u8>) -> Option<(Seq<VoteEntryV>, Seq<u8>)> {
    match sdec_u64(b) {
        None => None,
        Some((n, r)) => sdec_vote_items(r, n as nat),
    }
}

pub open spec fn senc_pip(p: ProposalInProgressV) -> Seq<u8> {
    senc_proposal(p.proposal) + senc_votes(p.votes)
}

pub open spec fn sdec_pip(b: Seq<u8>) -> Option<(ProposalInProgressV, Seq<u8>)> {
    match sdec_proposal(b) {
        None => None,
        Some((p, r)) => match sdec_votes(r) {
            None => None,
            Some((v, r2)) => Some((ProposalInProgressV { proposal: p, votes: v }, r2)),
        },
    }
}

pub open spec fn senc_bytes_items(items: Seq<Seq<u8>>) -> Seq<u8>
    decreases items.len(),
{
    if items.len() == 0 {
        Seq::empty()
    } else {
        senc_bytes(items[0]) + senc_bytes_items(items.skip(1))
    }
}

pub open spec fn sdec_bytes_items(b: Seq<u8>, n: nat) -> Option<(Seq<Seq<u8>>, Seq<u8>)>
    decreases n,
{
    if n == 0 {
        Some((Seq::empty(), b))
    } else {
        match sdec_bytes(b) {
            None => None,
            Some((x, r)) => match sdec_bytes_items(r, (n - 1) as nat) {
                None => None,
                Some((xs, r2)) => Some((seq![x] + xs, r2)),
            },
        }
    }
}

pub open spec fn senc_bytes_list(items: Seq<Seq<u8>>) -> Seq<u8> {
    senc_u64(items.len() as u64) + senc_bytes_items(items)
}

pub open spec fn sdec_bytes_list(b: Seq<u8>) -> Option<(Seq<Seq<u8>>, Seq<u8>)> {
    match sdec_u64(b) {
        None => None,
        Some((n, r)) => sdec_bytes_items(r, n as nat),
    }
}

pub open spec fn senc_member_entry(e: MemberEntryV) -> Seq<u8> {
    senc_bytes(e.who) + senc_bytes(e.addr)
}

pub open spec fn sdec_member_entry(b: Seq<u8>) -> Option<(MemberEntryV, Seq<u8>)> {
    match sdec_bytes(b) {
        None => None,
        Some((w, r)) => match sdec_bytes(r) {
            None => None,
            Some((a, r2)) => Some((MemberEntryV { who: w, addr: a }, r2)),
        },
    }
}

pub open spec fn senc_member_items(items: Seq<MemberEntryV>) -> Seq<u8>
    decreases items.len(),
{
    if items.len() == 0 {
        Seq::empty()
    } else {
        senc_member_entry(items[0]) + senc_member_items(items.skip(1))
    }
}

pub open spec fn sdec_member_items(b: Seq<u8>, n: nat) -> Option<(Seq<MemberEntryV>, Seq<u8>)>
    decreases n,
{
    if n == 0 {
        Some((Seq::empty(), b))
    } else {
        match sdec_member_entry(b) {
            None => None,
            Some((x, r)) => match sdec_member_items(r, (n - 1) as nat) {
                None => None,
                Some((xs, r2)) => Some((seq![x] + xs, r2)),
            },
        }
    }
}

pub open spec fn senc_members(items: Seq<MemberEntryV>) -> Seq<u8> {
    senc_u64(items.len() as u64) + senc_member_items(items)
}

pub open spec fn sdec_members(b: Seq<u8>) -> Option<(Seq<MemberEntryV>, Seq<u8>)> {
    match sdec_u64(b) {
        None => None,
        Some((n, r)) => sdec_member_items(r, n as nat),
    }
}

pub open spec fn senc_proposal_entry(e: ProposalEntryV) -> Seq<u8> {
    senc_u64(e.id) + senc_pip(e.value)
}

pub open spec fn sdec_proposal_entry(b: Seq<u8>) -> Option<(ProposalEntryV, Seq<u8>)> {
    match sdec_u64(b) {
        None => None,
        Some((id, r)) => match sdec_pip(r) {
            None => None,
            Some((p, r2)) => Some((ProposalEntryV { id: id, value: p }, r2)),
        },
    }
}

pub open spec fn senc_proposal_items(items: Seq<ProposalEntryV>) -> Seq<u8>
    decreases items.len(),
{
    if items.len() == 0 {
        Seq::empty()
    } else {
        senc_proposal_entry(items[0]) + senc_proposal_items(items.skip(1))
    }
}

pub open spec fn sdec_proposal_items(b: Seq<u8>, n: nat) -> Option<(Seq<ProposalEntryV>, Seq<u8>)>
    decreases n,
{
    if n == 0 {
        Some((Seq::empty(), b))
    } else {
        match sdec_proposal_entry(b) {
            None => None,
            Some((x, r)) => match sdec_proposal_items(r, (n - 1) as nat) {
                None => None,
                Some((xs, r2)) => Some((seq![x] + xs, r2)),
            },
        }
    }
}

pub open spec fn senc_proposals(items: Seq<ProposalEntryV>) -> Seq<u8> {
    senc_u64(items.len() as u64) + senc_proposal_items(items)
}

pub open spec fn sdec_proposals(b: Seq<u8>) -> Option<(Seq<ProposalEntryV>, Seq<u8>)> {
    match sdec_u64(b) {
        None => None,
        Some((n, r)) => sdec_proposal_items(r, n as nat),
    }
}

pub open spec fn senc_dao(d: OnChainDaoStateV) -> Seq<u8> {
    senc_bytes_list(d.routers) + senc_members(d.members) + senc_proposals(d.proposals) + senc_u8(
        d.queue_response_timeout_seconds,
    ) + senc_u16(d.serve_timeout_seconds) + senc_u8(d.max_outstanding_payments) + senc_u8(
        d.payment_period_hours,
    )
}

pub open spec fn sdec_dao(b: Seq<u8>) -> Option<(OnChainDaoStateV, Seq<u8>)> {
    match sdec_bytes_list(b) {
        None => None,
        Some((routers, r)) => match sdec_members(r) {
            None => None,
            Some((members, r)) => match sdec_proposals(r) {
                None => None,
                Some((proposals, r)) => match sdec_u8(r) {
                    None => None,
                    Some((qr, r)) => match sdec_u16(r) {
                        None => None,
                        Some((st, r)) => match sdec_u8(r) {
                            None => None,
                            Some((mo, r)) => match sdec_u8(r) {
                                None => None,
                                Some((pp, r)) => Some((
                                    OnChainDaoStateV {
                                        routers,
                                        members,
                                        proposals,
                                        queue_response_timeout_seconds: qr,
                                        serve_timeout_seconds: st,
                                        max_outstanding_payments: mo,
                                        payment_period_hours: pp,
                                    },
                                    r,
                                )),
                            },
                        },
                    },
                },
            },
        },
    }
}

// ---------------------------------------------------------------------------
// wire encoding: executable encoders
// ---------------------------------------------------------------------------

pub fn enc_vote(out: &mut Vec<u8>, v: &Vote)
    ensures
        final(out)@ == old(out)@ + senc_vote(v@),
{
    enc_u64(out, v.proposal_hash);
    enc_bool(out, v.is_yea);
    proof {
        assert(out@ =~= old(out)@ + senc_vote(v@));
    }
}

pub fn enc_signed_vote(out: &mut Vec<u8>, v: &SignedVote)
    ensures
        final(out)@ == old(out)@ + senc_signed_vote(v@),
{
    enc_vote(out, &v.vote);
    enc_u64(out, v.signature);
    proof {
        assert(out@ =~= old(out)@ + senc_signed_vote(v@));
    }
}

pub fn enc_proposal(out: &mut Vec<u8>, p: &Proposal)
    ensures
        final(out)@ == old(out)@ + senc_proposal(p@),
{
    match p {
        Proposal::ChangeRootNode(s) => {
            enc_u8(out, 1);
            enc_bytes(out, s);
        },
        Proposal::ChangeQueueResponseTimeoutSeconds(v) => {
            enc_u8(out, 2);
            enc_u8(out, *v);
        },
        Proposal::ChangeMaxOutstandingPayments(v) => {
            enc_u8(out, 3);
            enc_u8(out, *v);
        },
        Proposal::ChangePaymentPeriodHours(v) => {
            enc_u8(out, 4);
            enc_u8(out, *v);
        },
        Proposal::Kick(s) => {
            enc_u8(out, 5);
            enc_bytes(out, s);
        },
    }
    proof {
        assert(out@ =~= old(out)@ + senc_proposal(p@));
    }
}

pub fn enc_vote_entry(out: &mut Vec<u8>, e: &VoteEntry)
    ensures
        final(out)@ == old(out)@ + senc_vote_entry(e@),
{
    enc_bytes(out, &e.who);
    enc_signed_vote(out, &e.vote);
    proof {
        assert(out@ =~= old(out)@ + senc_vote_entry(e@));
    }
}

pub fn enc_vote_items(out: &mut Vec<u8>, items: &Vec<VoteEntry>, idx: usize)
    requires
        idx <= items@.len(),
    ensures
        final(out)@ == old(out)@ + senc_vote_items(votes_view(items@).skip(idx as int)),
    decreases items@.len() - idx,
{
    if idx < items.len() {
        enc_vote_entry(out, &items[idx]);
        enc_vote_items(out, items, idx + 1);
        proof {
            let s = votes_view(items@).skip(idx as int);
            assert(s[0] == items@[idx as int]@);
            assert(s.skip(1) =~= votes_view(items@).skip(idx + 1));
            assert(out@ =~= old(out)@ + senc_vote_items(s));
        }
    } else {
        proof {
            assert(votes_view(items@).skip(idx as int).len() == 0);
            assert(out@ =~= old(out)@ + senc_vote_items(votes_view(items@).skip(idx as int)));
        }
    }
}

pub fn enc_votes(out: &mut Vec<u8>, items: &Vec<VoteEntry>)
    ensures
        final(out)@ == old(out)@ + senc_votes(votes_view(items@)),
{
    enc_u64(out, items.len() as u64);
    enc_vote_items(out, items, 0);
    proof {
        assert(votes_view(items@).skip(0) =~= votes_view(items@));
        assert(out@ =~= old(out)@ + senc_votes(votes_view(items@)));
    }
}

pub fn enc_pip(out: &mut Vec<u8>, p: &ProposalInProgress)
    ensures
        final(out)@ == old(out)@ + senc_pip(p@),
{
    enc_proposal(out, &p.proposal);
    enc_votes(out, &p.votes);
    proof {
        assert(out@ =~= old(out)@ + senc_pip(p@));
    }
}

pub fn enc_blist_items(out: &mut Vec<u8>, items: &Vec<Vec<u8>>, idx: usize)
    requires
        idx <= items@.len(),
    ensures
        final(out)@ == old(out)@ + senc_bytes_items(bl_view(items@).skip(idx as int)),
    decreases items@.len() - idx,
{
    if idx < items.len() {
        enc_bytes(out, &items[idx]);
        enc_blist_items(out, items, idx + 1);
        proof {
            let s = bl_view(items@).skip(idx as int);
            assert(s[0] == items@[idx as int]@);
            assert(s.skip(1) =~= bl_view(items@).skip(idx + 1));
            assert(out@ =~= old(out)@ + senc_bytes_items(s));
        }
    } else {
        proof {
            assert(bl_view(items@).skip(idx as int).len() == 0);
            assert(out@ =~= old(out)@ + senc_bytes_items(bl_view(items@).skip(idx as int)));
        }
    }
}

pub fn enc_bytes_list(out: &mut Vec<u8>, items: &Vec<Vec<u8>>)
    ensures
        final(out)@ == old(out)@ + senc_bytes_list(bl_view(items@)),
{
    enc_u64(out, items.len() as u64);
    enc_blist_items(out, items, 0);
    proof {
        assert(bl_view(items@).skip(0) =~= bl_view(items@));
        assert(out@ =~= old(out)@ + senc_bytes_list(bl_view(items@)));
    }
}

pub fn enc_member_entry(out: &mut Vec<u8>, e: &MemberEntry)
    ensures
        final(out)@ == old(out)@ + senc_member_entry(e@),
{
    enc_bytes(out, &e.who);
    enc_bytes(out, &e.addr.bytes);
    proof {
        assert(out@ =~= old(out)@ + senc_member_entry(e@));
    }
}

pub fn enc_member_items(out: &mut Vec<u8>, items: &Vec<MemberEntry>, idx: usize)
    requires
        idx <= items@.len(),
    ensures
        final(out)@ == old(out)@ + senc_member_items(members_view(items@).skip(idx as int)),
    decreases items@.len() - idx,
{
    if idx < items.len() {
        enc_member_entry(out, &items[idx]);
        enc_member_items(out, items, idx + 1);
        proof {
            let s = members_view(items@).skip(idx as int);
            assert(s[0] == items@[idx as int]@);
            assert(s.skip(1) =~= members_view(items@).skip(idx + 1));
            assert(out@ =~= old(out)@ + senc_member_items(s));
        }
    } else {
        proof {
            assert(members_view(items@).skip(idx as int).len() == 0);
            assert(out@ =~= old(out)@ + senc_member_items(members_view(items@).skip(idx as int)));
        }
    }
}

pub fn enc_members(out: &mut Vec<u8>, items: &Vec<MemberEntry>)
    ensures
        final(out)@ == old(out)@ + senc_members(members_view(items@)),
{
    enc_u64(out, items.len() as u64);
    enc_member_items(out, items, 0);
    proof {
        assert(members_view(items@).skip(0) =~= members_view(items@));
        assert(out@ =~= old(out)@ + senc_members(members_view(items@)));
    }
}

pub fn enc_proposal_entry(out: &mut Vec<u8>, e: &ProposalEntry)
    ensures
        final(out)@ == old(out)@ + senc_proposal_entry(e@),
{
    enc_u64(out, e.id);
    enc_pip(out, &e.value);
    proof {
        assert(out@ =~= old(out)@ + senc_proposal_entry(e@));
    }
}

pub fn enc_proposal_items(out: &mut Vec<u8>, items: &Vec<ProposalEntry>, idx: usize)
    requires
        idx <= items@.len(),
    ensures
        final(out)@ == old(out)@ + senc_proposal_items(proposals_view(items@).skip(idx as int)),
    decreases items@.len() - idx,
{
    if idx < items.len() {
        enc_proposal_entry(out, &items[idx]);
        enc_proposal_items(out, items, idx + 1);
        proof {
            let s = proposals_view(items@).skip(idx as int);
            assert(s[0] == items@[idx as int]@);
            assert(s.skip(1) =~= proposals_view(items@).skip(idx + 1));
            assert(out@ =~= old(out)@ + senc_proposal_items(s));
        }
    } else {
        proof {
            assert(proposals_view(items@).skip(idx as int).len() == 0);
            assert(out@ =~= old(out)@ + senc_proposal_items(
                proposals_view(items@).skip(idx as int),
            ));
        }
    }
}

pub fn enc_proposals(out: &mut Vec<u8>, items: &Vec<ProposalEntry>)
    ensures
        final(out)@ == old(out)@ + senc_proposals(proposals_view(items@)),
{
    enc_u64(out, items.len() as u64);
    enc_proposal_items(out, items, 0);
    proof {
        assert(proposals_view(items@).skip(0) =~= proposals_view(items@));
        assert(out@ =~= old(out)@ + senc_proposals(proposals_view(items@)));
    }
}

pub fn enc_dao(out: &mut Vec<u8>, d: &OnChainDaoState)
    ensures
        final(out)@ == old(out)@ + senc_dao(d@),
{
    enc_bytes_list(out, &d.routers);
    enc_members(out, &d.members);
    enc_proposals(out, &d.proposals);
    enc_u8(out, d.queue_response_timeout_seconds);
    enc_u16(out, d.serve_timeout_seconds);
    enc_u8(out, d.max_outstanding_payments);
    enc_u8(out, d.payment_period_hours);
    proof {
        assert(out@ =~= old(out)@ + senc_dao(d@));
    }
}

// ---------------------------------------------------------------------------
// wire encoding: executable decoders
// ---------------------------------------------------------------------------

pub fn dec_vote(b: &Vec<u8>, i: usize) -> (r: Option<(Vote, usize)>)
    requires
        i <= b@.len(),
    ensures
        match r {
            Some((v, j)) => i <= j <= b@.len() && sdec_vote(b@.skip(i as int)) == Some((
                v@,
                b@.skip(j as int),
            )),
            None => sdec_vote(b@.skip(i as int)) is None,
        },
{
    match dec_u64(b, i) {
        None => None,
        Some((h, j)) => match dec_bool(b, j) {
            None => None,
            Some((y, k)) => Some((Vote { proposal_hash: h, is_yea: y }, k)),
        },
    }
}

pub fn dec_signed_vote(b: &Vec<u8>, i: usize) -> (r: Option<(SignedVote, usize)>)
    requires
        i <= b@.len(),
    ensures
        match r {
            Some((v, j)) => i <= j <= b@.len() && sdec_signed_vote(b@.skip(i as int)) == Some((
                v@,
                b@.skip(j as int),
            )),
            None => sdec_signed_vote(b@.skip(i as int)) is None,
        },
{
    match dec_vote(b, i) {
        None => None,
        Some((v, j)) => match dec_u64(b, j) {
            None => None,
            Some((s, k)) => Some((SignedVote { vote: v, signature: s }, k)),
        },
    }
}

pub fn dec_proposal(b: &Vec<u8>, i: usize) -> (r: Option<(Proposal, usize)>)
    requires
        i <= b@.len(),
    ensures
        match r {
            Some((v, j)) => i <= j <= b@.len() && sdec_proposal(b@.skip(i as int)) == Some((
                v@,
                b@.skip(j as int),
            )),
            None => sdec_proposal(b@.skip(i as int)) is None,
        },
{
    match dec_u8(b, i) {
        None => None,
        Some((t, j)) => {
            if t == 1 {
                match dec_bytes(b, j) {
                    None => None,
                    Some((s, k)) => Some((Proposal::ChangeRootNode(s), k)),
                }
            } else if t == 2 {
                match dec_u8(b, j) {
                    None => None,
                    Some((v, k)) => Some((Proposal::ChangeQueueResponseTimeoutSeconds(v), k)),
                }
            } else if t == 3 {
                match dec_u8(b, j) {
                    None => None,
                    Some((v, k)) => Some((Proposal::ChangeMaxOutstandingPayments(v), k)),
                }
            } else if t == 4 {
                match dec_u8(b, j) {
                    None => None,
                    Some((v, k)) => Some((Proposal::ChangePaymentPeriodHours(v), k)),
                }
            } else if t == 5 {
                match dec_bytes(b, j) {
                    None => None,
                    Some((s, k)) => Some((Proposal::Kick(s), k)),
                }
            } else {
                None
            }
        },
    }
}

pub fn dec_vote_entry(b: &Vec<u8>, i: usize) -> (r: Option<(VoteEntry, usize)>)
    requires
        i <= b@.len(),
    ensures
        match r {
            Some((v, j)) => i <= j <= b@.len() && sdec_vote_entry(b@.skip(i as int)) == Some((
                v@,
                b@.skip(j as int),
            )),
            None => sdec_vote_entry(b@.skip(i as int)) is None,
        },
{
    match dec_bytes(b, i) {
        None => None,
        Some((w, j)) => match dec_signed_vote(b, j) {
            None => None,
            Some((v, k)) => Some((VoteEntry { who: w, vote: v }, k)),
        },
    }
}

pub fn dec_vote_items(b: &Vec<u8>, i: usize, n: u64) -> (r: Option<(Vec<VoteEntry>, usize)>)
    requires
        i <= b@.len(),
    ensures
        match r {
            Some((v, j)) => i <= j <= b@.len() && sdec_vote_items(b@.skip(i as int), n as nat)
                == Some((votes_view(v@), b@.skip(j as int))),
            None => sdec_vote_items(b@.skip(i as int), n as nat) is None,
        },
    decreases n,
{
    if n == 0 {
        let v: Vec<VoteEntry> = Vec::new();
        proof {
            assert(votes_view(v@) =~= Seq::<VoteEntryV>::empty());
        }
        Some((v, i))
    } else {
        match dec_vote_entry(b, i) {
            None => None,
            Some((x, j)) => match dec_vote_items(b, j, n - 1) {
                None => None,
                Some((mut xs, k)) => {
                    let ghost tail = votes_view(xs@);
                    xs.insert(0, x);
                    proof {
                        assert(votes_view(xs@) =~= seq![x@] + tail);
                    }
                    Some((xs, k))
                },
            },
        }
    }
}

pub fn dec_votes(b: &Vec<u8>, i: usize) -> (r: Option<(Vec<VoteEntry>, usize)>)
    requires
        i <= b@.len(),
    ensures
        match r {
            Some((v, j)) => i <= j <= b@.len() && sdec_votes(b@.skip(i as int)) == Some((
                votes_view(v@),
                b@.skip(j as int),
            )),
            None => sdec_votes(b@.skip(i as int)) is None,
        },
{
    match dec_u64(b, i) {
        None => None,
        Some((n, j)) => dec_vote_items(b, j, n),
    }
}

pub fn dec_pip(b: &Vec<u8>, i: usize) -> (r: Option<(ProposalInProgress, usize)>)
    requires
        i <= b@.len(),
    ensures
        match r {
            Some((v, j)) => i <= j <= b@.len() && sdec_pip(b@.skip(i as int)) == Some((
                v@,
                b@.skip(j as int),
            )),
            None => sdec_pip(b@.skip(i as int)) is None,
        },
{
    match dec_proposal(b, i) {
        None => None,
        Some((p, j)) => match dec_votes(b, j) {
            None => None,
            Some((v, k)) => Some((ProposalInProgress { proposal: p, votes: v }, k)),
        },
    }
}

pub fn dec_blist_items(b: &Vec<u8>, i: usize, n: u64) -> (r: Option<(Vec<Vec<u8>>, usize)>)
    requires
        i <= b@.len(),
    ensures
        match r {
            Some((v, j)) => i <= j <= b@.len() && sdec_bytes_items(b@.skip(i as int), n as nat)
                == Some((bl_view(v@), b@.skip(j as int))),
            None => sdec_bytes_items(b@.skip(i as int), n as nat) is None,
        },
    decreases n,
{
    if n == 0 {
        let v: Vec<Vec<u8>> = Vec::new();
        proof {
            assert(bl_view(v@) =~= Seq::<Seq<u8>>::empty());
        }
        Some((v, i))
    } else {
        match dec_bytes(b, i) {
            None => None,
            Some((x, j)) => match dec_blist_items(b, j, n - 1) {
                None => None,
                Some((mut xs, k)) => {
                    let ghost tail = bl_view(xs@);
                    let ghost xv = x@;
                    xs.insert(0, x);
                    proof {
                        assert(bl_view(xs@) =~= seq![xv] + tail);
                    }
                    Some((xs, k))
                },
            },
        }
    }
}

pub fn dec_bytes_list(b: &Vec<u8>, i: usize) -> (r: Option<(Vec<Vec<u8>>, usize)>)
    requires
        i <= b@.len(),
    ensures
        match r {
            Some((v, j)) => i <= j <= b@.len() && sdec_bytes_list(b@.skip(i as int)) == Some((
                bl_view(v@),
                b@.skip(j as int),
            )),
            None => sdec_bytes_list(b@.skip(i as int)) is None,
        },
{
    match dec_u64(b, i) {
        None => None,
        Some((n, j)) => dec_blist_items(b, j, n),
    }
}

pub fn dec_member_entry(b: &Vec<u8>, i: usize) -> (r: Option<(MemberEntry, usize)>)
    requires
        i <= b@.len(),
    ensures
        match r {
            Some((v, j)) => i <= j <= b@.len() && sdec_member_entry(b@.skip(i as int)) == Some((
                v@,
                b@.skip(j as int),
            )),
            None => sdec_member_entry(b@.skip(i as int)) is None,
        },
{
    match dec_bytes(b, i) {
        None => None,
        Some((w, j)) => match dec_bytes(b, j) {
            None => None,
            Some((a, k)) => Some((MemberEntry { who: w, addr: ChainAddress { bytes: a } }, k)),
        },
    }
}

pub fn dec_member_items(b: &Vec<u8>, i: usize, n: u64) -> (r: Option<(Vec<MemberEntry>, usize)>)
    requires
        i <= b@.len(),
    ensures
        match r {
            Some((v, j)) => i <= j <= b@.len() && sdec_member_items(b@.skip(i as int), n as nat)
                == Some((members_view(v@), b@.skip(j as int))),
            None => sdec_member_items(b@.skip(i as int), n as nat) is None,
        },
    decreases n,
{
    if n == 0 {
        let v: Vec<MemberEntry> = Vec::new();
        proof {
            assert(members_view(v@) =~= Seq::<MemberEntryV>::empty());
        }
        Some((v, i))
    } else {
        match dec_member_entry(b, i) {
            None => None,
            Some((x, j)) => match dec_member_items(b, j, n - 1) {
                None => None,
                Some((mut xs, k)) => {
                    let ghost tail = members_view(xs@);
                    let ghost xv = x@;
                    xs.insert(0, x);
                    proof {
                        assert(members_view(xs@) =~= seq![xv] + tail);
                    }
                    Some((xs, k))
                },
            },
        }
    }
}

pub fn dec_members(b: &Vec<u8>, i: usize) -> (r: Option<(Vec<MemberEntry>, usize)>)
    requires
        i <= b@.len(),
    ensures
        match r {
            Some((v, j)) => i <= j <= b@.len() && sdec_members(b@.skip(i as int)) == Some((
                members_view(v@),
                b@.skip(j as int),
            )),
            None => sdec_members(b@.skip(i as int)) is None,
        },
{
    match dec_u64(b, i) {
        None => None,
        Some((n, j)) => dec_member_items(b, j, n),
    }
}

pub fn dec_proposal_entry(b: &Vec<u8>, i: usize) -> (r: Option<(ProposalEntry, usize)>)
    requires
        i <= b@.len(),
    ensures
        match r {
            Some((v, j)) => i <= j <= b@.len() && sdec_proposal_entry(b@.skip(i as int)) == Some((
                v@,
                b@.skip(j as int),
            )),
            None => sdec_proposal_entry(b@.skip(i as int)) is None,
        },
{
    match dec_u64(b, i) {
        None => None,
        Some((id, j)) => match dec_pip(b, j) {
            None => None,
            Some((p, k)) => Some((ProposalEntry { id, value: p }, k)),
        },
    }
}

pub fn dec_proposal_items(b: &Vec<u8>, i: usize, n: u64) -> (r: Option<
    (Vec<ProposalEntry>, usize),
>)
    requires
        i <= b@.len(),
    ensures
        match r {
            Some((v, j)) => i <= j <= b@.len() && sdec_proposal_items(b@.skip(i as int), n as nat)
                == Some((proposals_view(v@), b@.skip(j as int))),
            None => sdec_proposal_items(b@.skip(i as int), n as nat) is None,
        },
    decreases n,
{
    if n == 0 {
        let v: Vec<ProposalEntry> = Vec::new();
        proof {
            assert(proposals_view(v@) =~= Seq::<ProposalEntryV>::empty());
        }
        Some((v, i))
    } else {
        match dec_proposal_entry(b, i) {
            None => None,
            Some((x, j)) => match dec_proposal_items(b, j, n - 1) {
                None => None,
                Some((mut xs, k)) => {
                    let ghost tail = proposals_view(xs@);
                    let ghost xv = x@;
                    xs.insert(0, x);
                    proof {
                        assert(proposals_view(xs@) =~= seq![xv] + tail);
                    }
                    Some((xs, k))
                },
            },
        }
    }
}

pub fn dec_proposals(b: &Vec<u8>, i: usize) -> (r: Option<(Vec<ProposalEntry>, usize)>)
    requires
        i <= b@.len(),
    ensures
        match r {
            Some((v, j)) => i <= j <= b@.len() && sdec_proposals(b@.skip(i as int)) == Some((
                proposals_view(v@),
                b@.skip(j as int),
            )),
            None => sdec_proposals(b@.skip(i as int)) is None,
        },
{
    match dec_u64(b, i) {
        None => None,
        Some((n, j)) => dec_proposal_items(b, j, n),
    }
}

pub fn dec_dao(b: &Vec<u8>, i: usize) -> (r: Option<(OnChainDaoState, usize)>)
    requires
        i <= b@.len(),
    ensures
        match r {
            Some((v, j)) => i <= j <= b@.len() && sdec_dao(b@.skip(i as int)) == Some((
                v@,
                b@.skip(j as int),
            )),
            None => sdec_dao(b@.skip(i as int)) is None,
        },
{
    match dec_bytes_list(b, i) {
        None => None,
        Some((routers, j)) => match dec_members(b, j) {
            None => None,
            Some((members, j)) => match dec_proposals(b, j) {
                None => None,
                Some((proposals, j)) => match dec_u8(b, j) {
                    None => None,
                    Some((qr, j)) => match dec_u16(b, j) {
                        None => None,
                        Some((st, j)) => match dec_u8(b, j) {
                            None => None,
                            Some((mo, j)) => match dec_u8(b, j) {
                                None => None,
                                Some((pp, j)) => Some((
                                    OnChainDaoState {
                                        routers,
                                        members,
                                        proposals,
                                        queue_response_timeout_seconds: qr,
                                        serve_timeout_seconds: st,
                                        max_outstanding_payments: mo,
                                        payment_period_hours: pp,
                                    },
                                    j,
                                )),
                            },
                        },
                    },
                },
            },
        },
    }
}

} // verus!
