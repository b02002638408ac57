//! The behavioural laws of the dispatcher and the job lifecycle, proved
//! over the transition specifications of `dispatch`.

use vstd::prelude::*;
use crate::dispatch::{
    ClientErrorV, DispatchedV, EffectV, InboundMessageV, OutcomeV, StepV, SubStepV, SyncEventV,
    artifact_path, is_timer_source, s_apply_sync, s_handle_message, s_public_request, with_job,
};
use crate::endpoint::AddressV;
use crate::state::{CurrentJobV, StateV, senc_state};
use crate::wire::{
    PublicRequestV, sdec_admin_request, sdec_context_u64, sdec_public_request,
    sdec_public_response,
};

verus! {

/// An admin-shaped request from any node but our own is rejected with the
/// authorization error, terminally: the state is untouched and no effect —
/// no send, no save, no timer — is issued.
pub proof fn lemma_foreign_admin_rejected(
    our: AddressV,
    msg: InboundMessageV,
    dir: Seq<u8>,
    st: StateV,
)
    requires
        msg.is_request,
        sdec_admin_request(msg.body) is Some,
        msg.source.node != our.node,
    ensures
        s_handle_message(our, msg, dir, st) == (StepV {
            st,
            effects: Seq::<EffectV>::empty(),
            outcome: OutcomeV::Failed(ClientErrorV::Unauthorized),
        }),
{
}

/// A job submission while a job is already in flight fails with the
/// precondition error and issues no outbound request: nothing is forwarded
/// twice, nothing changes.
pub proof fn lemma_no_double_submission(
    our: AddressV,
    msg: InboundMessageV,
    dir: Seq<u8>,
    st: StateV,
)
    requires
        msg.is_request,
        sdec_admin_request(msg.body) is None,
        sdec_public_request(msg.body) matches Some(PublicRequestV::RunJob(_)),
        st.current_job is Some,
    ensures
        s_handle_message(our, msg, dir, st) == (StepV {
            st,
            effects: Seq::<EffectV>::empty(),
            outcome: OutcomeV::Failed(ClientErrorV::JobInFlight),
        }),
{
}

/// A sync round trip that fails — a timeout, a reply without a payload, or
/// a reply of the wrong shape — leaves the whole record, and with it the
/// cached snapshot, exactly as it was; a timeout always fails.
pub proof fn lemma_failed_sync_preserves_snapshot(st: StateV, ev: SyncEventV)
    ensures
        s_apply_sync(st, ev).result is Err ==> s_apply_sync(st, ev).st == st,
        s_apply_sync(st, ev).result is Err ==> s_apply_sync(st, ev).effects == Seq::<
            EffectV,
        >::empty(),
        ev is TimedOut ==> s_apply_sync(st, ev).result == Err::<(), ClientErrorV>(
            ClientErrorV::SyncTimedOut,
        ),
{
}

/// A timer notification whose correlated job id differs from the tracked
/// one produces no state change, no effect, and no error.
pub proof fn lemma_stale_timer_ignored(our: AddressV, msg: InboundMessageV, dir: Seq<u8>, st: StateV)
    requires
        !msg.is_request,
        sdec_public_response(msg.body) is None,
        is_timer_source(our, msg.source),
        st.current_job is Some,
        sdec_context_u64(match msg.context {
            Some(c) => c,
            None => Seq::empty(),
        }) is Some,
        (st.current_job->Some_0).job_id != sdec_context_u64(match msg.context {
            Some(c) => c,
            None => Seq::empty(),
        })->Some_0,
    ensures
        s_handle_message(our, msg, dir, st) == (StepV {
            st,
            effects: Seq::<EffectV>::empty(),
            outcome: OutcomeV::Handled,
        }),
{
}

// ---------------------------------------------------------------------------
// sequence numbers of streamed updates
// ---------------------------------------------------------------------------

/// A non-final streamed update carrying a payload, as the dispatcher sees
/// it once the admin classifier has not matched.
pub open spec fn is_nonfinal_update(msg: InboundMessageV) -> bool {
    &&& msg.is_request
    &&& msg.blob is Some
    &&& match sdec_public_request(msg.body) {
        Some(PublicRequestV::JobUpdate { job_id: _, is_final, signature: _ }) => !is_final,
        _ => false,
    }
}

pub open spec fn update_job_id(msg: InboundMessageV) -> u64 {
    match sdec_public_request(msg.body) {
        Some(PublicRequestV::JobUpdate { job_id, is_final: _, signature: _ }) => job_id,
        _ => 0,
    }
}

pub open spec fn is_final_update(msg: InboundMessageV) -> bool {
    &&& msg.is_request
    &&& msg.blob is Some
    &&& match sdec_public_request(msg.body) {
        Some(PublicRequestV::JobUpdate { job_id: _, is_final, signature: _ }) => is_final,
        _ => false,
    }
}

/// The state after a sequence of public requests has been handled.
pub open spec fn apply_updates(dir: Seq<u8>, st: StateV, msgs: Seq<InboundMessageV>) -> StateV
    decreases msgs.len(),
{
    if msgs.len() == 0 {
        st
    } else {
        apply_updates(dir, s_public_request(msgs[0], dir, st).st, msgs.skip(1))
    }
}

/// One accepted non-final update increments the tracked counter by exactly
/// one and writes its artifact under the counter's value before the update.
pub proof fn lemma_nonfinal_update_step(dir: Seq<u8>, msg: InboundMessageV, st: StateV)
    requires
        is_nonfinal_update(msg),
        st.current_job is Some,
        (st.current_job->Some_0).next_image_number < u32::MAX,
    ensures
        ({
            let j = st.current_job->Some_0;
            let st2 = with_job(
                st,
                Some(
                    CurrentJobV {
                        job_id: j.job_id,
                        next_image_number: (j.next_image_number + 1) as u32,
                    },
                ),
            );
            s_public_request(msg, dir, st) == (SubStepV {
                st: st2,
                effects: seq![
                    EffectV::SaveState { bytes: senc_state(st2) },
                    EffectV::WriteArtifact {
                        path: artifact_path(dir, update_job_id(msg), Some(j.next_image_number)),
                        bytes: msg.blob->Some_0,
                    },
                ],
                d: DispatchedV::Done(OutcomeV::Handled),
            })
        }),
{
    let step = s_public_request(msg, dir, st);
    assert(step.effects =~= Seq::<EffectV>::empty() + step.effects);
    let j = st.current_job->Some_0;
    let st2 = with_job(
        st,
        Some(CurrentJobV { job_id: j.job_id, next_image_number: (j.next_image_number + 1) as u32 }),
    );
    assert(step.effects =~= seq![
        EffectV::SaveState { bytes: senc_state(st2) },
        EffectV::WriteArtifact {
            path: artifact_path(dir, update_job_id(msg), Some(j.next_image_number)),
            bytes: msg.blob->Some_0,
        },
    ]);
}

/// A final update never increments the counter: it clears the tracked job
/// outright, and its artifact is written under the literal final marker.
pub proof fn lemma_final_update_clears_job(dir: Seq<u8>, msg: InboundMessageV, st: StateV)
    requires
        is_final_update(msg),
        st.current_job is Some,
    ensures
        ({
            let st2 = with_job(st, None);
            s_public_request(msg, dir, st) == (SubStepV {
                st: st2,
                effects: seq![
                    EffectV::SaveState { bytes: senc_state(st2) },
                    EffectV::WriteArtifact {
                        path: artifact_path(dir, update_job_id(msg), None),
                        bytes: msg.blob->Some_0,
                    },
                ],
                d: DispatchedV::Done(OutcomeV::Handled),
            })
        }),
{
    let step = s_public_request(msg, dir, st);
    assert(step.effects =~= Seq::<EffectV>::empty() + step.effects);
    let st2 = with_job(st, None);
    assert(step.effects =~= seq![
        EffectV::SaveState { bytes: senc_state(st2) },
        EffectV::WriteArtifact {
            path: artifact_path(dir, update_job_id(msg), None),
            bytes: msg.blob->Some_0,
        },
    ]);
}

/// Across any run of accepted non-final updates the tracked counter grows
/// by exactly one per update.
pub proof fn lemma_update_counter(dir: Seq<u8>, st: StateV, msgs: Seq<InboundMessageV>)
    requires
        st.current_job is Some,
        forall|k: int| 0 <= k < msgs.len() ==> is_nonfinal_update(#[trigger] msgs[k]),
        (st.current_job->Some_0).next_image_number + msgs.len() <= u32::MAX,
    ensures
        apply_updates(dir, st, msgs).current_job == Some(
            CurrentJobV {
                job_id: (st.current_job->Some_0).job_id,
                next_image_number: ((st.current_job->Some_0).next_image_number + msgs.len()) as u32,
            },
        ),
    decreases msgs.len(),
{
    if msgs.len() == 0 {
    } else {
        lemma_nonfinal_update_step(dir, msgs[0], st);
        let st1 = s_public_request(msgs[0], dir, st).st;
        assert forall|k: int| 0 <= k < msgs.skip(1).len() implies is_nonfinal_update(
            #[trigger] msgs.skip(1)[k],
        ) by {
            assert(msgs.skip(1)[k] == msgs[k + 1]);
        }
        lemma_update_counter(dir, st1, msgs.skip(1));
    }
}

/// Sequence numbers are assigned in receipt order: with a fresh session
/// (counter `n`), the `k`-th accepted non-final update writes its artifact
/// under number `n + k`; starting from a queued confirmation (`n = 0`) the
/// numbers are exactly 0, 1, 2, ...
pub proof fn lemma_update_numbers_in_order(
    dir: Seq<u8>,
    st: StateV,
    msgs: Seq<InboundMessageV>,
    k: int,
)
    requires
        st.current_job is Some,
        forall|m: int| 0 <= m < msgs.len() ==> is_nonfinal_update(#[trigger] msgs[m]),
        (st.current_job->Some_0).next_image_number + msgs.len() <= u32::MAX,
        0 <= k < msgs.len(),
    ensures
        ({
            let n0 = (st.current_job->Some_0).next_image_number;
            let stk = apply_updates(dir, st, msgs.take(k));
            s_public_request(msgs[k], dir, stk).effects[1] == (EffectV::WriteArtifact {
                path: artifact_path(dir, update_job_id(msgs[k]), Some((n0 + k) as u32)),
                bytes: msgs[k].blob->Some_0,
            })
        }),
{
    let n0 = (st.current_job->Some_0).next_image_number;
    assert forall|m: int| 0 <= m < msgs.take(k).len() implies is_nonfinal_update(
        #[trigger] msgs.take(k)[m],
    ) by {
        assert(msgs.take(k)[m] == msgs[m]);
    }
    lemma_update_counter(dir, st, msgs.take(k));
    let stk = apply_updates(dir, st, msgs.take(k));
    lemma_nonfinal_update_step(dir, msgs[k], stk);
}

} // verus!
