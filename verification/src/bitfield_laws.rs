//! Laws of the bitfield accessors: a read gives back what a write wrote
//! (within the width of the field) and a write leaves every other field alone.
use vstd::prelude::*;

use crate::object::{
    endpoint_t, notification_t, sign_extend_39, spec_ep_queue_head, spec_ep_queue_tail,
    spec_ep_set_queue_head, spec_ep_set_queue_tail, spec_ep_set_state, spec_ep_state,
    spec_ntfn_bound_tcb, spec_ntfn_msg_identifier, spec_ntfn_queue_head, spec_ntfn_queue_tail,
    spec_ntfn_set_bound_tcb, spec_ntfn_set_msg_identifier, spec_ntfn_set_queue_head,
    spec_ntfn_set_queue_tail, spec_ntfn_set_state, spec_ntfn_state, spec_ts_blocking_object,
    spec_ts_set_blocking_object, spec_ts_set_tcb_queued, spec_ts_set_ts_type, spec_ts_tcb_queued,
    spec_ts_type, thread_state_t,
};

verus! {

/// Writing `v` under mask `m` into `w`: the masked bits become those of `v`,
/// the bits outside `m` stay those of `w`.
pub proof fn lemma_masked_write(w: u64, v: u64, m: u64, k: u64)
    ensures
        ((w & !m) | (v & m)) & m == v & m,
        k & m == 0 ==> ((w & !m) | (v & m)) & k == w & k,
{
    assert(((w & !m) | (v & m)) & m == v & m && (k & m == 0 ==> ((w & !m) | (v & m)) & k == w
        & k)) by (bit_vector);
}

/// Setting the state of a notification: the state reads back as the low two
/// bits of the value written, and the queue, badge and bound TCB are unchanged.
pub proof fn law_ntfn_set_state(n: notification_t, v: u64)
    ensures
        spec_ntfn_state(spec_ntfn_set_state(n, v)) == v & 0x3,
        spec_ntfn_queue_tail(spec_ntfn_set_state(n, v)) == spec_ntfn_queue_tail(n),
        spec_ntfn_queue_head(spec_ntfn_set_state(n, v)) == spec_ntfn_queue_head(n),
        spec_ntfn_msg_identifier(spec_ntfn_set_state(n, v)) == spec_ntfn_msg_identifier(n),
        spec_ntfn_bound_tcb(spec_ntfn_set_state(n, v)) == spec_ntfn_bound_tcb(n),
{
    let w = n.words[0];
    assert(0xfffffffffe000000u64 & 0x3u64 == 0) by (bit_vector);
    lemma_masked_write(w, v, 0x3u64, 0xfffffffffe000000u64);
}

/// Setting the queue tail of a notification: the tail reads back as the
/// written address truncated to 39 bits and sign-extended (so a canonical
/// address reads back unchanged), and the other fields are unchanged.
pub proof fn law_ntfn_set_queue_tail(n: notification_t, v: u64)
    ensures
        spec_ntfn_queue_tail(spec_ntfn_set_queue_tail(n, v)) == sign_extend_39(
            v & 0x7fffffffffu64,
        ),
        spec_ntfn_state(spec_ntfn_set_queue_tail(n, v)) == spec_ntfn_state(n),
        spec_ntfn_queue_head(spec_ntfn_set_queue_tail(n, v)) == spec_ntfn_queue_head(
            n,
        ),
        spec_ntfn_msg_identifier(spec_ntfn_set_queue_tail(n, v)) == spec_ntfn_msg_identifier(n),
        spec_ntfn_bound_tcb(spec_ntfn_set_queue_tail(n, v)) == spec_ntfn_bound_tcb(n),
{
    let w = n.words[0];
    let m = 0xfffffffffe000000u64;
    assert((((w & !m) | ((v << 25u64) & m)) & m) >> 25u64 == v & 0x7fffffffffu64 && ((w & !m) | ((
    v << 25u64) & m)) & 0x3u64 == w & 0x3u64) by (bit_vector)
        requires
            m == 0xfffffffffe000000u64,
    ;
}

/// Setting the queue head of a notification: the stored head reads back as
/// the written address truncated to 39 bits and sign-extended, and the other
/// fields are unchanged.
pub proof fn law_ntfn_set_queue_head(n: notification_t, v: u64)
    ensures
        spec_ntfn_queue_head(spec_ntfn_set_queue_head(n, v)) == sign_extend_39(
            v & 0x7fffffffffu64,
        ),
        spec_ntfn_state(spec_ntfn_set_queue_head(n, v)) == spec_ntfn_state(n),
        spec_ntfn_queue_tail(spec_ntfn_set_queue_head(n, v)) == spec_ntfn_queue_tail(n),
        spec_ntfn_msg_identifier(spec_ntfn_set_queue_head(n, v)) == spec_ntfn_msg_identifier(n),
        spec_ntfn_bound_tcb(spec_ntfn_set_queue_head(n, v)) == spec_ntfn_bound_tcb(n),
{
    let w = n.words[1];
    lemma_masked_write(w, v, 0x7fffffffffu64, 0);
}

/// Setting the badge of a notification: it reads back exactly, and the other
/// fields are unchanged.
pub proof fn law_ntfn_set_msg_identifier(n: notification_t, v: u64)
    ensures
        spec_ntfn_msg_identifier(spec_ntfn_set_msg_identifier(n, v)) == v,
        spec_ntfn_state(spec_ntfn_set_msg_identifier(n, v)) == spec_ntfn_state(n),
        spec_ntfn_queue_tail(spec_ntfn_set_msg_identifier(n, v)) == spec_ntfn_queue_tail(n),
        spec_ntfn_queue_head(spec_ntfn_set_msg_identifier(n, v))
            == spec_ntfn_queue_head(n),
        spec_ntfn_bound_tcb(spec_ntfn_set_msg_identifier(n, v)) == spec_ntfn_bound_tcb(n),
{
}

/// Setting the bound TCB of a notification: it reads back as the written
/// address truncated to 39 bits and sign-extended, and the other fields are
/// unchanged.
pub proof fn law_ntfn_set_bound_tcb(n: notification_t, v: u64)
    ensures
        spec_ntfn_bound_tcb(spec_ntfn_set_bound_tcb(n, v)) == sign_extend_39(v & 0x7fffffffffu64),
        spec_ntfn_state(spec_ntfn_set_bound_tcb(n, v)) == spec_ntfn_state(n),
        spec_ntfn_queue_tail(spec_ntfn_set_bound_tcb(n, v)) == spec_ntfn_queue_tail(n),
        spec_ntfn_queue_head(spec_ntfn_set_bound_tcb(n, v)) == spec_ntfn_queue_head(n),
        spec_ntfn_msg_identifier(spec_ntfn_set_bound_tcb(n, v)) == spec_ntfn_msg_identifier(n),
{
    let w = n.words[3];
    lemma_masked_write(w, v, 0x7fffffffffu64, 0);
}

/// Setting the state kind of a thread: it reads back as the low four bits of
/// the value, and the blocking object and ready-queue flag are unchanged.
pub proof fn law_ts_set_ts_type(ts: thread_state_t, v: u64)
    ensures
        spec_ts_type(spec_ts_set_ts_type(ts, v)) == v & 0xf,
        spec_ts_blocking_object(spec_ts_set_ts_type(ts, v)) == spec_ts_blocking_object(ts),
        spec_ts_tcb_queued(spec_ts_set_ts_type(ts, v)) == spec_ts_tcb_queued(ts),
{
    let w = ts.words[0];
    assert(0x7ffffffff0u64 & 0xfu64 == 0) by (bit_vector);
    lemma_masked_write(w, v, 0xfu64, 0x7ffffffff0u64);
}

/// Setting the blocking object of a thread: it reads back as the written
/// address with its low four bits cleared, truncated to 39 bits and
/// sign-extended, and the state kind and ready-queue flag are unchanged.
pub proof fn law_ts_set_blocking_object(ts: thread_state_t, v: u64)
    ensures
        spec_ts_blocking_object(spec_ts_set_blocking_object(ts, v)) == sign_extend_39(
            v & 0x7ffffffff0u64,
        ),
        spec_ts_type(spec_ts_set_blocking_object(ts, v)) == spec_ts_type(ts),
        spec_ts_tcb_queued(spec_ts_set_blocking_object(ts, v)) == spec_ts_tcb_queued(ts),
{
    let w = ts.words[0];
    assert(0xfu64 & 0x7ffffffff0u64 == 0) by (bit_vector);
    lemma_masked_write(w, v, 0x7ffffffff0u64, 0xfu64);
}

/// Setting the ready-queue flag of a thread: it reads back as the lowest bit
/// of the value, and the state kind and blocking object are unchanged.
pub proof fn law_ts_set_tcb_queued(ts: thread_state_t, v: u64)
    ensures
        spec_ts_tcb_queued(spec_ts_set_tcb_queued(ts, v)) == v & 0x1,
        spec_ts_type(spec_ts_set_tcb_queued(ts, v)) == spec_ts_type(ts),
        spec_ts_blocking_object(spec_ts_set_tcb_queued(ts, v)) == spec_ts_blocking_object(ts),
{
    let w = ts.words[1];
    lemma_masked_write(w, v, 0x1u64, 0);
}

/// Setting the queue head of an endpoint: it reads back exactly, and the
/// queue tail and state are unchanged.
pub proof fn law_ep_set_queue_head(e: endpoint_t, v: u64)
    ensures
        spec_ep_queue_head(spec_ep_set_queue_head(e, v)) == v,
        spec_ep_queue_tail(spec_ep_set_queue_head(e, v)) == spec_ep_queue_tail(e),
        spec_ep_state(spec_ep_set_queue_head(e, v)) == spec_ep_state(e),
{
}

/// Setting the queue tail of an endpoint: it reads back as the written address
/// with its low two bits cleared, truncated to 39 bits and sign-extended, and
/// the head and state are unchanged.
pub proof fn law_ep_set_queue_tail(e: endpoint_t, v: u64)
    ensures
        spec_ep_queue_tail(spec_ep_set_queue_tail(e, v)) == sign_extend_39(v & 0x7ffffffffcu64),
        spec_ep_queue_head(spec_ep_set_queue_tail(e, v)) == spec_ep_queue_head(e),
        spec_ep_state(spec_ep_set_queue_tail(e, v)) == spec_ep_state(e),
{
    let w = e.words[0];
    assert(0x3u64 & 0x7ffffffffcu64 == 0) by (bit_vector);
    lemma_masked_write(w, v, 0x7ffffffffcu64, 0x3u64);
}

/// Setting the state of an endpoint: it reads back as the low two bits of the
/// value, and the queue is unchanged.
pub proof fn law_ep_set_state(e: endpoint_t, v: u64)
    ensures
        spec_ep_state(spec_ep_set_state(e, v)) == v & 0x3,
        spec_ep_queue_head(spec_ep_set_state(e, v)) == spec_ep_queue_head(e),
        spec_ep_queue_tail(spec_ep_set_state(e, v)) == spec_ep_queue_tail(e),
{
    let w = e.words[0];
    assert(0x7ffffffffcu64 & 0x3u64 == 0) by (bit_vector);
    lemma_masked_write(w, v, 0x3u64, 0x7ffffffffcu64);
}

} // verus!
