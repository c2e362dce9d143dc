//! What holds of the library as a whole.

use crate::attention::{cache_fits, ring_slot};
use crate::command::{BufId, Command, DeferredBuf, Elem, F32, HostRef, Stage};
use crate::config::{
    BaseLayerVerifyBundle, CompVerifyCtx, Config, EngineView, LayerAttnHalfOutsK, LayerParams,
    MoePath,
};
use crate::dispatcher::qkv_recording;
use crate::error::{Check, EncodeError, refusal};
use crate::ffn::{MoeChoice, spec_choice};
use crate::hc::carried;
use crate::kernel::{Consts, Kernel, Pipe};
use crate::layer::{AttnOutput, AttnShape, AttnWeights, Place, emitted};
use crate::matmul::spec_group_rows;
use crate::moe::{MmStage, room_per_expert};
use crate::mtp::{LayerShape, VerifyAt, ring_rows};
use crate::pool::{PoolKey, Pools, tag_f32};
use crate::trace::{RecordingView, Trace, is_encoding};
use vstd::prelude::*;

verus! {

/// How many command buffers a recording submits.
pub open spec fn submissions(log: Seq<Command>) -> nat
    decreases log.len(),
{
    if log.len() == 0 {
        0
    } else {
        submissions(log.drop_last()) + match log.last() {
            Command::Commit(_) => 1nat,
            Command::CommitWait(_, _) => 1nat,
            _ => 0nat,
        }
    }
}

/// How many results a recording reads back.
pub open spec fn reads(log: Seq<Command>) -> nat
    decreases log.len(),
{
    if log.len() == 0 {
        0
    } else {
        reads(log.drop_last()) + match log.last() {
            Command::Read { .. } => 1nat,
            _ => 0nat,
        }
    }
}

proof fn lemma_counts_push(log: Seq<Command>, c: Command)
    ensures
        submissions(log.push(c)) == submissions(log) + (match c {
            Command::Commit(_) => 1nat,
            Command::CommitWait(_, _) => 1nat,
            _ => 0nat,
        }),
        reads(log.push(c)) == reads(log) + (match c {
            Command::Read { .. } => 1nat,
            _ => 0nat,
        }),
{
    assert(log.push(c).drop_last() =~= log);
}

proof fn lemma_counts_kept(a: Seq<Command>, b: Seq<Command>)
    requires
        a.is_prefix_of(b),
        forall|i: int| a.len() <= i < b.len() ==> is_encoding(#[trigger] b[i]),
    ensures
        submissions(b) == submissions(a),
        reads(b) == reads(a),
    decreases b.len(),
{
    if b.len() > a.len() {
        let c = b.drop_last();
        assert(a =~= c.subrange(0, a.len() as int));
        assert forall|i: int| a.len() <= i < c.len() implies is_encoding(#[trigger] c[i]) by {
            assert(c[i] == b[i]);
        }
        lemma_counts_kept(a, c);
        assert(is_encoding(b[b.len() - 1]));
    } else {
        assert(a =~= b);
    }
}

/// Encoding submits nothing and reads nothing back.
pub proof fn law_encoding_submits_nothing(before: Trace, after: Trace)
    requires
        after.encodes(before),
    ensures
        submissions(after.log) == submissions(before.log),
        reads(after.log) == reads(before.log),
        after.pending == before.pending,
        after.cmd_buf == before.cmd_buf,
{
    reveal(Trace::encodes);
    reveal(Trace::extends);
    lemma_counts_kept(before.log, after.log);
}

/// A scope counts as one submission, however many operations it encodes, and
/// reads back one result, at its end.
pub proof fn law_one_submission(
    engine: EngineView,
    config: Config,
    pools: Pools,
    t: Trace,
    out: DeferredBuf,
)
    requires
        t.encodes(Trace::start(engine, config, pools)),
    ensures
        submissions(t.flush_and_read(out).log) == 1,
        reads(t.flush_and_read(out).log) == 1,
        t.flush_and_read(out).log.last() == (Command::Read {
            buf: out.buf,
            n: out.n_elements,
            elem: Elem::F32,
        }),
{
    let start = Trace::start(engine, config, pools);
    law_encoding_submits_nothing(start, t);
    assert(start.log =~= Seq::<Command>::empty().push(Command::NewCommandBuffer));
    lemma_counts_push(Seq::<Command>::empty(), Command::NewCommandBuffer);
    let a = t.put(Command::CloseShared);
    let b = a.put(Command::DrainTrace(t.pending.len() as u64));
    let c = b.put(Command::CommitWait(t.cmd_buf, Stage::FlushAndRead));
    lemma_counts_push(t.log, Command::CloseShared);
    lemma_counts_push(a.log, Command::DrainTrace(t.pending.len() as u64));
    lemma_counts_push(b.log, Command::CommitWait(t.cmd_buf, Stage::FlushAndRead));
    lemma_counts_push(
        c.log,
        Command::Read { buf: out.buf, n: out.n_elements, elem: Elem::F32 },
    );
    assert(b.wait_each(t.pending, t.pending.len()) == b);
}

/// What an open scope hands out and what it records from there on are together
/// what it holds later: nothing is lost between two excerpts, and places go on.
pub proof fn law_excerpts_join(earlier: Trace, later: Trace, first: int)
    requires
        later.extends(earlier),
        0 <= first <= earlier.log.len(),
    ensures
        earlier.log.skip(first) + later.log.skip(earlier.log.len() as int) == later.log.skip(first),
        later.words.take(earlier.words.len() as int) == earlier.words,
{
    reveal(Trace::extends);
    assert(earlier.log.skip(first) + later.log.skip(earlier.log.len() as int) =~= later.log.skip(
        first,
    ));
    assert(later.words.take(earlier.words.len() as int) =~= earlier.words);
}

/// With no diagnostic asked for, nothing interrupts a chain.
pub proof fn law_standard_is_quiet()
    ensures
        Config::standard().quiet(),
{
}

/// The pipelined commit keeps at most one command buffer running: what ran is
/// waited for before the next is committed.
pub proof fn law_pipeline_is_one_deep(t: Trace, label: Stage)
    requires
        t.pending.len() <= 1,
    ensures
        t.commit_pipelined(label).pending == seq![t.cmd_buf],
        t.pending.len() == 1 ==> {
            let log = t.commit_pipelined(label).log;
            let n = t.log.len() as int;
            log[n + 2] == Command::Wait(t.pending[0]) && log[n + 5] == Command::Commit(t.cmd_buf)
        },
{
    assert(t.commit_pipelined(label).pending =~= seq![t.cmd_buf]);
}

/// The pipelined commit turns the pooled buffers over, so that the next command
/// buffer takes none that the one just committed took.
pub proof fn law_pipeline_turns_pool(t: Trace, label: Stage)
    ensures
        t.commit_pipelined(label).pools.phase == !t.pools.phase,
{
}

/// A split makes the new command buffer wait, before anything else, for a value
/// that the old one signals at its end, and the value is larger each time.
pub proof fn law_split_orders(t: Trace)
    requires
        t.event_value < u64::MAX,
    ensures
        t.event_split().event_value > t.event_value,
        t.event_split().pending == t.pending.push(t.cmd_buf),
        ({
            let s = t.event_split();
            let n = s.log.len() as int;
            &&& s.log[n - 4] == Command::NewCommandBuffer
            &&& s.log[n - 3] == (Command::WaitEvent { cb: s.cmd_buf, value: s.event_value })
            &&& s.log[n - 2] == (Command::SignalEvent { cb: t.cmd_buf, value: s.event_value })
            &&& s.log[n - 1] == Command::Commit(t.cmd_buf)
        }),
{
}

/// A drain leaves nothing pending.
pub proof fn law_drain_leaves_nothing(t: Trace, label: Stage)
    ensures
        t.drain_all_stage(label).pending.len() == 0,
{
}

/// The attention key is used once: an attention output takes it away, whether
/// pooled or not.
pub proof fn law_key_is_used_once(t: Trace, n: u64)
    ensures
        t.alloc_attn_out(n).0.pools.attn_key is None,
{
    reveal(Trace::alloc_attn_out);
}

/// Arming the key does nothing where attention outputs are not pooled.
pub proof fn law_key_needs_pooling(t: Trace, key: PoolKey, n: u64)
    requires
        !t.config.pool_attn,
    ensures
        t.arm(key).alloc_attn_out(n) == t.alloc_attn_out(n),
{
    reveal(Trace::alloc_attn_out);
    assert(t.arm(key).disarm() =~= t.disarm());
}

/// A product of several positions uses the key up: it cannot leak to a later one.
/// The row-by-row form of the Q8_0 product has no pooled output; where that form
/// stands in for the GEMM, it is left out.
pub proof fn law_product_uses_key(
    t: Trace,
    w: DeferredBuf,
    x: DeferredBuf,
    d_in: u64,
    d_out: u64,
    k: u64,
)
    requires
        t.config.q8_faithful ==> (t.config.matmul_k_pertok && k > 4) || k == 1 || k == 2 || k == 4
            || (k == 8 && t.config.k8_matvec),
    ensures
        t.matmul_k_q8_0_auto(w, x, d_in, d_out, k).1 is Ok ==> t.matmul_k_q8_0_auto(
            w,
            x,
            d_in,
            d_out,
            k,
        ).0.pools.attn_key is None,
{
    reveal(Trace::matmul_k_q8_0_auto);
    if t.config.matmul_k_pertok && k > 4 {
        let (u, out) = t.disarm().alloc_f32((k * d_out) as u64);
        lemma_groups_keep_pools(u, w, x, d_in, d_out, k, out, 0);
    } else if k == 1 || k == 2 || k == 4 || (k == 8 && t.config.k8_matvec) {
        lemma_matvec_keeps_pools(t.disarm(), w, x, d_in, d_out, k);
    } else {
        reveal(Trace::matmul_k_q8_0);
        reveal(Trace::cast_f32_to_f16_contig);
        reveal(Trace::alloc_attn_out);
    }
}

proof fn lemma_groups_keep_pools(
    t: Trace,
    w: DeferredBuf,
    x: DeferredBuf,
    d_in: u64,
    d_out: u64,
    k: u64,
    out: DeferredBuf,
    r: int,
)
    ensures
        t.grouped_rows(w, x, d_in, d_out, k, out, r).0.pools == t.pools,
    decreases k - r,
{
    if r < k {
        let g = spec_group_rows(k - r);
        let (u, x_g) = t.slice_out_f32(x, (r * d_in) as u64, (g * d_in) as u64);
        lemma_matvec_keeps_pools(u, w, x_g, d_in, d_out, g);
        let (v, res) = u.matvec_k_q8_0(w, x_g, d_in, d_out, g);
        if res is Ok {
            lemma_groups_keep_pools(
                v.copy_buf_into(res->Ok_0, out.buf, (r * d_out) as u64),
                w,
                x,
                d_in,
                d_out,
                k,
                out,
                r + g,
            );
        }
    }
}

proof fn lemma_matvec_keeps_pools(
    t: Trace,
    w: DeferredBuf,
    x: DeferredBuf,
    d_in: u64,
    d_out: u64,
    k: u64,
)
    ensures
        t.matvec_k_q8_0(w, x, d_in, d_out, k).0.pools == t.pools,
{
    reveal(Trace::matvec_k_q8_0);
    let (u, out) = t.alloc_f32((k * d_out) as u64);
    lemma_rows_keep_pools(u, w, x, d_in, d_out, k, out, 0);
}

proof fn lemma_rows_keep_pools(
    t: Trace,
    w: DeferredBuf,
    x: DeferredBuf,
    d_in: u64,
    d_out: u64,
    k: u64,
    out: DeferredBuf,
    i: int,
)
    ensures
        t.q8_rows(w, x, d_in, d_out, k, out, i).0.pools == t.pools,
    decreases k - i,
{
    if i < k {
        let (u, row) = t.slice_out_f32(x, (i * d_in) as u64, d_in);
        let (v, r) = u.matvec_q8_0(w, row, d_in, d_out);
        assert(v.pools == u.pools) by {
            reveal(Trace::matvec_q8_0);
        }
        if r is Ok {
            lemma_rows_keep_pools(
                v.copy_buf_into(r->Ok_0, out.buf, (i * d_out) as u64),
                w,
                x,
                d_in,
                d_out,
                k,
                out,
                i + 1,
            );
        }
    }
}

/// Scratch pooled once is there for good: asking again gives the same buffer,
/// makes nothing and pins nothing.
pub proof fn law_pooled_again(t: Trace, u: Trace, key: PoolKey, n: u64)
    requires
        t.config.pool_scratch,
        u.config == t.config,
        u.pools.phase == t.pools.phase,
        t.pooled_scratch_f32(key, n).0.pools.entries.is_prefix_of(u.pools.entries),
    ensures
        u.pooled_scratch_f32(key, n) == (u.warned(), t.pooled_scratch_f32(key, n).1),
{
    reveal(Trace::pooled_scratch_f32);
    let entry = (key, tag_f32(n, t.bit()));
    let after = t.pooled_scratch_f32(key, n).0.pools.entries;
    if t.warned().pools.entries.contains(entry) {
        let i = choose|i: int| 0 <= i < t.pools.entries.len() && t.pools.entries[i] == entry;
        assert(after[i] == entry);
        assert(u.pools.entries[i] == entry);
    } else {
        assert(after.last() == entry);
        assert(u.pools.entries[after.len() - 1] == entry);
    }
    assert(u.warned().pools.entries.contains(entry));
}

/// The residual streams alternate: what one layer writes is never what the
/// layer before it wrote, so no layer writes what it reads. With pooling on, two
/// buffers serve all layers of one length.
pub proof fn law_carriers_alternate(
    a: Trace,
    b: Trace,
    x: DeferredBuf,
    c: Trace,
    d: Trace,
    y: DeferredBuf,
)
    requires
        b.extends(a),
        carried(a, b, x),
        c.extends(b),
        c.pools.carrier == b.pools.carrier,
        carried(c, d, y),
    ensures
        x.buf != y.buf,
        a.config.pool_scratch ==> d.pools.carrier == a.pools.carrier,
{
    reveal(Trace::extends);
}

/// The two products of a concurrent pair write to different buffers.
pub proof fn law_pair_writes_apart(
    t: Trace,
    w_a: DeferredBuf,
    x_a: DeferredBuf,
    d_in_a: u64,
    d_out_a: u64,
    w_b: DeferredBuf,
    x_b: DeferredBuf,
    d_in_b: u64,
    d_out_b: u64,
)
    requires
        t.log.len() + 100 <= u64::MAX,
    ensures
        t.matvec_q8_0_pair_concurrent(
            w_a,
            x_a,
            d_in_a,
            d_out_a,
            w_b,
            x_b,
            d_in_b,
            d_out_b,
        ).1 matches Ok((a, b)) ==> a.buf != b.buf,
{
    reveal(Trace::matvec_q8_0_pair_concurrent);
    reveal(Trace::q8_matvec_into);
}

/// A buffer made later is another one.
pub proof fn law_new_buffer_is_new(t: Trace, n: u64, u: Trace, m: u64)
    requires
        u.extends(t.alloc_f32(n).0),
        u.log.len() <= u64::MAX,
    ensures
        t.alloc_f32(n).1.buf != u.alloc_f32(m).1.buf,
{
    reveal(Trace::extends);
}

/// Gate and up projections of the experts go to buffers of their own,
/// where scratch is not pooled.
pub proof fn law_gate_and_up_apart(
    t: Trace,
    gate: MmStage,
    up: MmStage,
    gate_w: DeferredBuf,
    up_w: DeferredBuf,
    x: DeferredBuf,
    tpe: DeferredBuf,
    ids: DeferredBuf,
    n_experts: u64,
    d_in: u64,
    d_out: u64,
    k: u64,
)
    requires
        !t.config.pool_scratch,
        t.log.len() + 1000 <= u64::MAX,
    ensures
        ({
            let (u, g) = t.encode_mul_mm_id_qx_k(
                gate,
                gate_w,
                x,
                tpe,
                ids,
                n_experts,
                d_in,
                d_out,
                k,
                1,
                4,
            );
            let h = u.encode_mul_mm_id_qx_k(
                up,
                up_w,
                x,
                tpe,
                ids,
                n_experts,
                d_in,
                d_out,
                k,
                1,
                4,
            ).1;
            g is Ok && h is Ok ==> g->Ok_0.buf != h->Ok_0.buf
        }),
{
    reveal(Trace::encode_mul_mm_id_qx_k);
    reveal(Trace::pooled_scratch_f32);
    reveal(Trace::mm_id_launch);
}

/// An operation refused for its shapes has recorded nothing.
pub open spec fn silent<T>(t: Trace, r: (Trace, Result<T, EncodeError>)) -> bool {
    r.1 matches Err(EncodeError::Shape(_)) ==> r.0 == t
}

/// A norm, a single-precision product, an expansion or an activation that is
/// refused for its shapes records nothing.
pub proof fn law_refusal_records_nothing(
    t: Trace,
    a: DeferredBuf,
    b: DeferredBuf,
    c: DeferredBuf,
    d: DeferredBuf,
    m: u64,
    n: u64,
    k: u64,
    eps: F32,
    half: bool,
)
    ensures
        silent(t, t.matvec_f32(a, b, m, n)),
        silent(t, t.matvec_f16(a, b, m, n)),
        silent(t, t.rms_norm_mul(a, b, eps)),
        silent(t, t.rms_norm_mul_k(a, b, n, k, eps)),
        silent(t, t.head_rms_norm(a, m, n, eps)),
        silent(t, t.head_rms_norm_k(a, m, n, k, eps)),
        silent(t, t.hc_expand_add_split(a, b, c, d, m, n)),
        silent(t, t.hc_expand_add_split_k(a, b, c, d, m, n, k)),
        silent(t, t.hc_expand_attn_split(a, b, c, m, n)),
        silent(t, t.hc_expand_attn_split_k(a, b, c, m, n, k)),
        silent(t, t.sum6_k(a, n, k)),
        silent(t, t.moe_swiglu_weight_k(a, b, c, n, k, half)),
{
    reveal(Trace::matvec_f32);
    reveal(Trace::matvec_f16);
    reveal(Trace::rms_norm_mul);
    reveal(Trace::rms_norm_mul_k);
    reveal(Trace::head_rms_norm);
    reveal(Trace::head_rms_norm_k);
    reveal(Trace::hc_expand_add_split);
    reveal(Trace::hc_expand_add_split_k);
    reveal(Trace::hc_expand_attn_split);
    reveal(Trace::hc_expand_attn_split_k);
    reveal(Trace::sum6_k);
    reveal(Trace::moe_swiglu_weight_k);
}

/// A store or an attention that is refused for its shapes records nothing.
pub proof fn law_refused_attention_records_nothing(
    t: Trace,
    layer: u32,
    params: LayerParams,
    cap: u32,
    slot: u32,
    q: DeferredBuf,
    kv: DeferredBuf,
    ring: BufId,
    n_comp: u32,
    avail: Seq<u32>,
    mask: HostRef,
    n_head: u64,
    dk: u64,
    dv: u64,
    n_cache: u64,
    k: u64,
    scale: F32,
    pos: u32,
    sinks: DeferredBuf,
)
    ensures
        silent(t, t.kv_fp8_store_persistent(layer, kv, params, cap, slot)),
        silent(t, t.kv_fp8_store_persistent_k(layer, kv, params, cap, slot, k)),
        silent(t, t.flash_attn_k_mla(q, kv, n_head, dk, dv, n_cache, k, scale, pos, sinks)),
        silent(
            t,
            t.flash_attn_k_mla_comp(
                q,
                kv,
                ring,
                n_comp,
                avail,
                n_head,
                dk,
                dv,
                n_cache,
                k,
                scale,
                pos,
                sinks,
            ),
        ),
        silent(
            t,
            t.flash_attn_k_mla_comp_masked(
                q,
                kv,
                ring,
                n_comp,
                mask,
                n_head,
                dk,
                dv,
                n_cache,
                k,
                scale,
                sinks,
            ),
        ),
{
    reveal(Trace::kv_fp8_store_persistent);
    reveal(Trace::kv_fp8_store_persistent_k);
    reveal(Trace::flash_attn_k_mla);
    reveal(Trace::flash_attn_k_mla_comp);
    reveal(Trace::flash_attn_k_mla_comp_masked);
}

/// A step of the indexer that is refused for its shapes records nothing. The
/// scores of one query are left out: their head shape is checked after their
/// projections.
pub proof fn law_refused_indexer_records_nothing(
    t: Trace,
    q: DeferredBuf,
    weights: DeferredBuf,
    ring: DeferredBuf,
    scores: DeferredBuf,
    kernel: Kernel,
    n_comp: u64,
    n_tokens: u64,
    n_head: u64,
    head_dim: u64,
    top_k: u64,
    pos0: u32,
    ratio: u32,
)
    ensures
        silent(
            t,
            t.encode_indexer_scores_tiled(
                q,
                weights,
                ring,
                n_comp,
                n_tokens,
                n_head,
                head_dim,
                pos0,
                ratio,
            ),
        ),
        silent(t, t.encode_indexer_topk_batched(scores, n_comp, n_tokens, top_k)),
        silent(t, t.encode_indexer_topk_batched_threshold(scores, n_comp, n_tokens, top_k)),
        silent(t, t.topk_one(kernel, scores, n_comp, top_k)),
{
    reveal(Trace::encode_indexer_scores_tiled);
    reveal(Trace::encode_indexer_topk_batched);
    reveal(Trace::encode_indexer_topk_batched_threshold);
}

/// Attention over raw and selected rows that is refused for its shapes records
/// nothing.
pub proof fn law_refused_mixed_attention_records_nothing(
    t: Trace,
    q: DeferredBuf,
    raw_ring: DeferredBuf,
    comp_ring: DeferredBuf,
    sel: DeferredBuf,
    sinks: DeferredBuf,
    n_tokens: u64,
    n_head: u64,
    head_dim: u64,
    n_raw: u64,
    n_comp: u64,
    top_k: u64,
    ratio: u32,
    window: u32,
    pos0: u32,
    raw_start: u32,
    raw_cap: u32,
    scale: F32,
)
    ensures
        silent(
            t,
            t.encode_indexed_mixed_attention(
                q,
                raw_ring,
                comp_ring,
                sel,
                sinks,
                n_tokens,
                n_head,
                head_dim,
                n_raw,
                n_comp,
                top_k,
                ratio,
                window,
                pos0,
                raw_start,
                raw_cap,
                scale,
            ),
        ),
{
    reveal(Trace::encode_indexed_mixed_attention);
}

/// A step of the router that is refused for its shapes records nothing.
pub proof fn law_refused_router_records_nothing(
    t: Trace,
    w: DeferredBuf,
    x: DeferredBuf,
    probs: DeferredBuf,
    bias: DeferredBuf,
    selected: DeferredBuf,
    n_experts: u64,
    d_embd: u64,
    k: u64,
    half: bool,
)
    requires
        k * n_experts <= u64::MAX,
    ensures
        silent(t, t.softplus_sqrt(x)),
        silent(t, t.encode_router_logits_k(w, x, n_experts, d_embd, k, half)),
        silent(t, t.encode_router_finalize(probs, bias)),
        silent(t, t.encode_router_finalize_k(probs, bias, k)),
        silent(t, t.encode_router_finalize_flat_k(probs, bias, k)),
        silent(t, t.encode_router_weights_one(probs, selected)),
{
    reveal(Trace::softplus_sqrt);
    reveal(Trace::encode_router_logits_k);
    reveal(Trace::encode_router_finalize);
    reveal(Trace::encode_router_finalize_k);
    reveal(Trace::encode_router_finalize_flat_k);
    reveal(Trace::encode_router_weights_one);
    reveal(Trace::pooled_scratch_f32);
    if n_experts % 4 == 0 {
        let m = n_experts as int / 4;
        assert(k * n_experts == 4 * (k * m)) by (nonlinear_arith)
            requires
                n_experts == 4 * m,
        ;
    }
}

/// An expert-gather GEMM that is refused for its shapes records nothing.
pub proof fn law_refused_gemm_records_nothing(
    t: Trace,
    stage: MmStage,
    w: DeferredBuf,
    up: DeferredBuf,
    x: DeferredBuf,
    tpe: DeferredBuf,
    ids: DeferredBuf,
    wt: DeferredBuf,
    n_experts: u64,
    d_in: u64,
    d_out: u64,
    k: u64,
    slots: u64,
    act: u64,
)
    ensures
        silent(t, t.encode_mul_mm_id_map0_k(x, n_experts, k)),
        silent(
            t,
            t.encode_mul_mm_id_qx_k(
                stage,
                w,
                x,
                tpe,
                ids,
                n_experts,
                d_in,
                d_out,
                k,
                slots,
                act,
            ),
        ),
        silent(
            t,
            t.encode_mul_mm_id_iq2_pair_swiglu_k(
                w,
                up,
                x,
                tpe,
                ids,
                wt,
                n_experts,
                d_in,
                d_out,
                k,
            ),
        ),
{
    reveal(Trace::encode_mul_mm_id_map0_k);
    reveal(Trace::encode_mul_mm_id_qx_k);
    reveal(Trace::encode_mul_mm_id_iq2_pair_swiglu_k);
}

/// The attention chain checks that heads and groups divide the same width before
/// it records anything.
pub proof fn law_attention_chain_checks_first(
    t: Trace,
    prev: DeferredBuf,
    w: AttnWeights,
    shape: AttnShape,
    out: AttnOutput,
    place: Place,
    comp: Option<CompVerifyCtx>,
)
    requires
        shape.n_head * shape.head_dim != out.n_groups * out.group_dim,
    ensures
        t.encode_attn_chain_k(prev, w, shape, out, place, comp) == (
            t,
            Err::<(LayerAttnHalfOutsK, DeferredBuf), EncodeError>(
                EncodeError::Shape(
                    refusal(
                        Check::HeadShape,
                        shape.n_head * shape.head_dim,
                        out.n_groups * out.group_dim,
                    ),
                ),
            ),
        ),
{
    reveal(Trace::encode_attn_chain_k);
}

/// The projections of several positions check the lengths of all their operands
/// before they record anything.
pub proof fn law_projections_check_first(
    t: Trace,
    x: DeferredBuf,
    q_a: DeferredBuf,
    gamma: DeferredBuf,
    q_b: DeferredBuf,
    kv: DeferredBuf,
    n_lora_q: u64,
    n_head: u64,
    head_dim: u64,
    eps: F32,
    kv_row: u64,
    d_embd: u64,
    k: u64,
)
    requires
        n_head * head_dim <= u64::MAX,
        x.n_elements != k * d_embd || q_a.n_elements != n_lora_q * d_embd || gamma.n_elements
            != n_lora_q || q_b.n_elements != n_head * head_dim * n_lora_q || kv.n_elements != kv_row
            * d_embd,
    ensures
        ({
            let r = t.encode_attn_qkv_chain_k(
                x,
                q_a,
                gamma,
                q_b,
                kv,
                n_lora_q,
                n_head,
                head_dim,
                eps,
                kv_row,
                d_embd,
                k,
            );
            r.0 == t && r.1 matches Err(EncodeError::Shape(_))
        }),
{
    reveal(Trace::encode_attn_qkv_chain_k);
}

/// The layers one after another from layer `i` on, each one's output the next
/// one's input.
pub open spec fn layers_in_order(
    t: Trace,
    cur: DeferredBuf,
    layers: Seq<BaseLayerVerifyBundle>,
    unit_gamma_hc: DeferredBuf,
    shape: LayerShape,
    at: VerifyAt,
    comp: Option<Seq<u32>>,
    i: nat,
) -> (Trace, Result<DeferredBuf, EncodeError>)
    decreases layers.len() - i,
{
    if i >= layers.len() {
        (t, Ok(cur))
    } else {
        let layer = layers[i as int];
        let (u, next) = t.encode_layer_k(
            cur,
            layer.attn(unit_gamma_hc),
            shape.attn(),
            shape.output(layer.w_o_a_q8, layer.w_o_b_q8, layer.attn_sinks),
            at.place(i as int, layer.layer_params),
            layer.spec_comp_ctx(ring_rows(comp, i as int)),
            layer.ffn(unit_gamma_hc),
            shape.ffn(),
        );
        if next is Err {
            (u, next)
        } else {
            layers_in_order(
                u,
                next->Ok_0,
                layers,
                unit_gamma_hc,
                shape,
                at,
                comp,
                i + 1,
            )
        }
    }
}

/// With nothing asked for between its layers, the verifier runs all of them in
/// order, and every layer attends from the position at which verification
/// starts. Without layers, with counts for another number of layers, or with an
/// input of another length, it records nothing.
pub proof fn law_verifier_runs_layers_in_order(
    t: Trace,
    prev: DeferredBuf,
    layers: Seq<BaseLayerVerifyBundle>,
    unit_gamma_hc: DeferredBuf,
    shape: LayerShape,
    at: VerifyAt,
    comp: Option<Seq<u32>>,
)
    requires
        t.config.verify_n_layers is None,
        t.config.verify_cb_split is None,
        !t.config.dump_layer_rms,
    ensures
        ({
            let r = t.encode_verify_layers_K(prev, layers, unit_gamma_hc, shape, at, comp);
            if layers.len() == 0 || prev.n_elements != at.k * (shape.n_hc * shape.n_embd) || (
            comp matches Some(c) && c.len() != layers.len()) {
                r.0 == t && r.1 matches Err(EncodeError::Shape(_))
            } else {
                r == layers_in_order(t, prev, layers, unit_gamma_hc, shape, at, comp, 0)
            }
        }),
        forall|i: int, p: LayerParams| (#[trigger] at.place(i, p)).attn_base_pos == at.base_pos,
{
    reveal(Trace::encode_verify_layers_K);
    lemma_verify_from(t, t.config, prev, layers, unit_gamma_hc, shape, at, comp, 0);
}

proof fn lemma_verify_from(
    t: Trace,
    config: Config,
    cur: DeferredBuf,
    layers: Seq<BaseLayerVerifyBundle>,
    unit_gamma_hc: DeferredBuf,
    shape: LayerShape,
    at: VerifyAt,
    comp: Option<Seq<u32>>,
    i: nat,
)
    requires
        config.verify_cb_split is None,
        !config.dump_layer_rms,
    ensures
        t.verify_from(
            config,
            cur,
            layers,
            unit_gamma_hc,
            shape,
            at,
            comp,
            layers.len(),
            i as int,
        ) == layers_in_order(t, cur, layers, unit_gamma_hc, shape, at, comp, i),
    decreases layers.len() - i,
{
    if i < layers.len() {
        let layer = layers[i as int];
        let (u, next) = t.encode_layer_k(
            cur,
            layer.attn(unit_gamma_hc),
            shape.attn(),
            shape.output(layer.w_o_a_q8, layer.w_o_b_q8, layer.attn_sinks),
            at.place(i as int, layer.layer_params),
            layer.spec_comp_ctx(ring_rows(comp, i as int)),
            layer.ffn(unit_gamma_hc),
            shape.ffn(),
        );
        if next is Ok {
            assert(u.after_layer(
                config,
                next->Ok_0,
                layer.layer_params.compress_ratio,
                (shape.n_hc * shape.n_embd) as u64,
                at.k,
                i as int,
                layers.len(),
            ) == u) by {
                reveal(Trace::after_layer);
            }
            lemma_verify_from(
                u,
                config,
                next->Ok_0,
                layers,
                unit_gamma_hc,
                shape,
                at,
                comp,
                i + 1,
            );
        }
    }
}

/// Whether a command is work for the device, and not a part of how work is
/// submitted.
pub open spec fn is_work(c: Command) -> bool {
    is_encoding(c) && !(c is CloseShared)
}

/// The work in a recording, in order.
pub open spec fn work(log: Seq<Command>) -> Seq<Command>
    decreases log.len(),
{
    if log.len() == 0 {
        seq![]
    } else if is_work(log.last()) {
        work(log.drop_last()).push(log.last())
    } else {
        work(log.drop_last())
    }
}

proof fn lemma_no_work(a: Seq<Command>, b: Seq<Command>)
    requires
        a.is_prefix_of(b),
        forall|i: int| a.len() <= i < b.len() ==> !is_work(#[trigger] b[i]),
    ensures
        work(b) == work(a),
    decreases b.len(),
{
    if b.len() > a.len() {
        let c = b.drop_last();
        assert(a =~= c.subrange(0, a.len() as int));
        assert forall|i: int| a.len() <= i < c.len() implies !is_work(#[trigger] c[i]) by {
            assert(c[i] == b[i]);
        }
        lemma_no_work(a, c);
        assert(!is_work(b[b.len() - 1]));
    } else {
        assert(a =~= b);
    }
}

/// How a scope is cut into submissions is not work: committing, splitting and
/// waiting leave the work recorded as it was, in its order. So is flushing.
pub proof fn law_submitting_is_no_work(t: Trace, label: Stage, out: DeferredBuf)
    requires
        t.pending.len() == 0,
    ensures
        work(t.commit_keep_open().log) == work(t.log),
        work(t.commit_pipelined(label).log) == work(t.log),
        work(t.commit_wait_stage(label).log) == work(t.log),
        work(t.commit_wait_gpu_us().log) == work(t.log),
        work(t.event_split().log) == work(t.log),
        work(t.flush_and_read(out).log) == work(t.log),
{
    lemma_no_work(t.log, t.commit_keep_open().log);
    lemma_no_work(t.log, t.commit_pipelined(label).log);
    lemma_no_work(t.log, t.commit_wait_stage(label).log);
    lemma_no_work(t.log, t.commit_wait_gpu_us().log);
    lemma_no_work(t.log, t.event_split().log);
    let b = t.put(Command::CloseShared).put(Command::DrainTrace(t.pending.len() as u64));
    assert(b.wait_each(t.pending, t.pending.len()) == b);
    lemma_no_work(t.log, t.flush_and_read(out).log);
}

/// What retiring these command buffers records, oldest first.
pub open spec fn retired(cbs: Seq<u64>, label: Stage) -> Seq<Command>
    decreases cbs.len(),
{
    if cbs.len() == 0 {
        seq![]
    } else {
        seq![
            Command::Wait(cbs[0]),
            Command::CheckOk(cbs[0], label),
            Command::ProfilePush(cbs[0]),
        ] + retired(cbs.drop_first(), label)
    }
}

/// The windowed split counts the ordering event up by one, keeps the newest
/// `window` command buffers pending, in order, and waits for the others, oldest
/// first, and for no other.
pub proof fn law_window_keeps_newest(t: Trace, label: Stage, window: u64)
    requires
        t.event_value < u64::MAX,
    ensures
        ({
            let all = t.pending.push(t.cmd_buf);
            let gone = if all.len() > window {
                all.len() - window
            } else {
                0
            };
            let s = t.event_split_windowed(label, window);
            let v = s.event_value;
            let opening = if t.has_event {
                seq![Command::CloseShared]
            } else {
                seq![Command::CloseShared, Command::NewEvent]
            };
            &&& v == t.event_value + 1
            &&& s.cmd_buf == (t.log.len() + opening.len()) as u64
            &&& s.pending == all.subrange(gone, all.len() as int)
            &&& s.log == t.log + opening + seq![
                Command::NewCommandBuffer,
                Command::WaitEvent { cb: s.cmd_buf, value: v },
                Command::SignalEvent { cb: t.cmd_buf, value: v },
                Command::Commit(t.cmd_buf),
            ] + retired(all.subrange(0, gone), label)
        }),
{
    let u = t.event_split();
    let all = t.pending.push(t.cmd_buf);
    assert(u.pending =~= all);
    lemma_retire_to(u, window, label);
    let s = t.event_split_windowed(label, window);
    let opening = if t.has_event {
        seq![Command::CloseShared]
    } else {
        seq![Command::CloseShared, Command::NewEvent]
    };
    let rest = seq![
        Command::NewCommandBuffer,
        Command::WaitEvent { cb: u.cmd_buf, value: u.event_value },
        Command::SignalEvent { cb: t.cmd_buf, value: u.event_value },
        Command::Commit(t.cmd_buf),
    ];
    assert(u.log =~= t.log + opening + rest);
}

proof fn lemma_retire_to(t: Trace, window: u64, label: Stage)
    ensures
        ({
            let gone = if t.pending.len() > window {
                t.pending.len() - window
            } else {
                0
            };
            let s = t.retire_to(window, label);
            &&& s.log == t.log + retired(t.pending.subrange(0, gone), label)
            &&& s.pending == t.pending.subrange(gone, t.pending.len() as int)
            &&& s.cmd_buf == t.cmd_buf
            &&& s.event_value == t.event_value
        }),
    decreases t.pending.len(),
{
    if t.pending.len() > window {
        let gone = t.pending.len() - window;
        let u = Trace {
            pending: t.pending.drop_first(),
            ..t.retire(t.pending[0], label)
        };
        lemma_retire_to(u, window, label);
        let first = t.pending.subrange(0, gone);
        assert(first.drop_first() =~= u.pending.subrange(0, gone - 1));
        assert(u.pending.subrange(gone - 1, u.pending.len() as int) =~= t.pending.subrange(
            gone,
            t.pending.len() as int,
        ));
        assert(u.log + retired(u.pending.subrange(0, gone - 1), label) =~= t.log + retired(
            first,
            label,
        ));
    } else {
        assert(t.log + Seq::<Command>::empty() =~= t.log);
        assert(t.pending.subrange(0, t.pending.len() as int) =~= t.pending);
        assert(t.pending.subrange(0, 0).len() == 0);
    }
}

/// The two selections of the highest scores read and write the same places under
/// the same bounds, and differ in their kernel alone; the two batched ones accept
/// the same shapes.
pub proof fn law_selections_agree(
    t: Trace,
    a: Kernel,
    b: Kernel,
    scores: DeferredBuf,
    n_comp: u64,
    n_tokens: u64,
    top_k: u64,
)
    ensures
        ({
            let (u, r) = t.topk_one(a, scores, n_comp, top_k);
            let (v, s) = t.topk_one(b, scores, n_comp, top_k);
            &&& r == s
            &&& r is Ok ==> v == (Trace {
                log: u.log.update(
                    t.log.len() as int + 2,
                    Command::Pipeline(Pipe::Special(b, Consts::Plain)),
                ),
                ..u
            })
        }),
        t.encode_indexer_topk_batched(scores, n_comp, n_tokens, top_k).1
            == t.encode_indexer_topk_batched_threshold(scores, n_comp, n_tokens, top_k).1,
{
    reveal(Trace::encode_indexer_topk_batched);
    reveal(Trace::encode_indexer_topk_batched_threshold);
    let (u, r) = t.topk_one(a, scores, n_comp, top_k);
    let (v, s) = t.topk_one(b, scores, n_comp, top_k);
    if r is Ok {
        assert(v.log =~= u.log.update(
            t.log.len() as int + 2,
            Command::Pipeline(Pipe::Special(b, Consts::Plain)),
        ));
    }
}

/// A copy that moves row `from` of `src` to row `to` of `dst`, rows `row` bytes long.
pub open spec fn moves_row(c: Command, src: BufId, dst: BufId, from: int, to: int, row: int) -> bool {
    match c {
        Command::Copy { src: s, src_off, dst: d, dst_off, bytes } => {
            &&& s == src
            &&& d == dst
            &&& src_off <= from * row
            &&& (from + 1) * row <= src_off + bytes
            &&& to * row - dst_off == from * row - src_off
        },
        _ => false,
    }
}

/// A window of the ring comes out in the order of the positions: position
/// `first_pos + i` from its slot to row `out_row_off + i`, in at most two copies.
pub proof fn law_window_in_order(
    t: Trace,
    ring: BufId,
    out: DeferredBuf,
    out_row_off: u32,
    raw_cap: u32,
    first_pos: u32,
    n: u32,
    head_dim: u32,
    i: int,
)
    requires
        0 <= i < n <= raw_cap,
        cache_fits(raw_cap as int, head_dim as int),
        cache_fits(out_row_off + n, head_dim as int),
    ensures
        ({
            let u = t.gather_ring_window(
                ring,
                out,
                out_row_off,
                raw_cap,
                first_pos,
                n,
                head_dim,
            );
            &&& u.log.len() <= t.log.len() + 5
            &&& exists|j: int|
                t.log.len() <= j < u.log.len() && moves_row(
                    #[trigger] u.log[j],
                    ring,
                    out.buf,
                    ring_slot(first_pos + i, raw_cap as int),
                    out_row_off + i,
                    head_dim * 4,
                )
        }),
{
    reveal(Trace::gather_ring_window);
    let u = t.gather_ring_window(ring, out, out_row_off, raw_cap, first_pos, n, head_dim);
    let cap = raw_cap as int;
    let row = head_dim * 4;
    let first = ring_slot(first_pos as int, cap);
    let seg1 = if cap - first < n {
        cap - first
    } else {
        n as int
    };
    lemma_row_fits(cap, first, seg1, head_dim as int);
    lemma_row_fits(out_row_off + n, out_row_off as int, seg1, head_dim as int);
    if i < seg1 {
        assert(ring_slot(first_pos + i, cap) == first + i) by {
            vstd::arithmetic::div_mod::lemma_fundamental_div_mod(first_pos as int, cap);
            vstd::arithmetic::div_mod::lemma_fundamental_div_mod_converse(
                first_pos + i,
                cap,
                first_pos as int / cap,
                first + i,
            );
        }
        assert(first * row <= (first + i) * row && (first + i + 1) * row <= first * row + seg1
            * row && (out_row_off + i) * row - out_row_off * row == (first + i) * row - first
            * row) by (nonlinear_arith)
            requires
                0 <= i < seg1,
                0 <= row,
        ;
        assert(moves_row(
            u.log[t.log.len() as int + 2],
            ring,
            out.buf,
            ring_slot(first_pos + i, cap),
            out_row_off + i,
            row,
        ));
    } else {
        assert(ring_slot(first_pos + i, cap) == i - seg1) by {
            vstd::arithmetic::div_mod::lemma_fundamental_div_mod(first_pos as int, cap);
            assert(first_pos + i == (first_pos as int / cap + 1) * cap + (i - seg1))
                by (nonlinear_arith)
                requires
                    first_pos as int == cap * (first_pos as int / cap) + first,
                    seg1 == cap - first,
            ;
            vstd::arithmetic::div_mod::lemma_fundamental_div_mod_converse(
                first_pos + i,
                cap,
                first_pos as int / cap + 1,
                i - seg1,
            );
        }
        lemma_row_fits(out_row_off + n, out_row_off + seg1, n - seg1, head_dim as int);
        assert(0 <= (i - seg1) * row && (i - seg1 + 1) * row <= (n - seg1) * row && (out_row_off + i)
            * row - (out_row_off + seg1) * row == (i - seg1) * row) by (nonlinear_arith)
            requires
                seg1 <= i < n,
                0 <= row,
        ;
        assert(moves_row(
            u.log[t.log.len() as int + 3],
            ring,
            out.buf,
            ring_slot(first_pos + i, cap),
            out_row_off + i,
            row,
        ));
    }
}

proof fn lemma_row_fits(rows: int, at: int, n: int, head_dim: int)
    requires
        0 <= at,
        0 <= n,
        at + n <= rows,
        0 <= head_dim,
        cache_fits(rows, head_dim),
    ensures
        0 <= at * (head_dim * 4) <= u64::MAX,
        0 <= n * (head_dim * 4) <= u64::MAX,
        at * (head_dim * 4) + n * (head_dim * 4) <= u64::MAX,
{
    assert(0 <= at * (head_dim * 4) && 0 <= n * (head_dim * 4) && at * (head_dim * 4) + n
        * (head_dim * 4) <= rows * head_dim * 4) by (nonlinear_arith)
        requires
            0 <= at,
            0 <= n,
            at + n <= rows,
            0 <= head_dim,
    ;
}

/// Positions that fit the ring together have slots of their own.
pub proof fn law_slots_are_apart(p: int, q: int, cap: int)
    requires
        0 <= p < q < p + cap,
    ensures
        ring_slot(p, cap) != ring_slot(q, cap),
{
    vstd::arithmetic::div_mod::lemma_fundamental_div_mod(p, cap);
    vstd::arithmetic::div_mod::lemma_fundamental_div_mod(q, cap);
    if p % cap == q % cap {
        assert(q - p == cap * (q / cap - p / cap)) by (nonlinear_arith)
            requires
                p == cap * (p / cap) + p % cap,
                q == cap * (q / cap) + q % cap,
                p % cap == q % cap,
        ;
        assert(false) by (nonlinear_arith)
            requires
                0 < q - p < cap,
                q - p == cap * (q / cap - p / cap),
        ;
    }
}

/// The chain that a dispatcher runs in a submission of its own is the chain of a
/// scope on the same data: the same steps, in the same order.
pub proof fn law_batched_chain_is_the_chain(
    start: Trace,
    normed: HostRef,
    attn_q_a: HostRef,
    gamma_q: HostRef,
    n_lora_q: u64,
    attn_q_b: HostRef,
    n_head: u64,
    head_dim: u64,
    eps: F32,
    attn_kv: HostRef,
    kv_row: u64,
)
    requires
        !start.q8_proj,
    ensures
        ({
            let (t, x) = start.upload_f32(normed);
            let (t, w_qa) = t.weight_f32(attn_q_a);
            let (t, g) = t.upload_f32(gamma_q);
            let (t, w_qb) = t.weight_f32(attn_q_b);
            let (t, w_kv) = t.weight_f32(attn_kv);
            let (t, r) = t.encode_attn_qkv_chain(
                x,
                w_qa,
                g,
                w_qb,
                w_kv,
                n_lora_q,
                n_head,
                head_dim,
                eps,
                kv_row,
            );
            qkv_recording(
                start,
                normed,
                attn_q_a,
                gamma_q,
                n_lora_q,
                attn_q_b,
                n_head,
                head_dim,
                eps,
                attn_kv,
                kv_row,
            ) == match r {
                Ok((a, b, c)) => Ok::<RecordingView, EncodeError>(
                    t.flush_and_read_multi(seq![a, b, c]).recording(),
                ),
                Err(e) => Err(e),
            }
        }),
{
    reveal(Trace::encode_attn_qkv_chain);
}

/// The compressor adds a row for every multiple of the ratio that the step
/// passes, in order, and each is visible from the position that completed it on.
pub proof fn law_emitted(base: int, ratio: int, k: int)
    requires
        0 <= base,
        0 < ratio,
        0 <= k,
        base + k <= u32::MAX,
    ensures
        emitted(base, ratio, k).len() == (base + k) / ratio - base / ratio,
        forall|j: int|
            0 <= j < emitted(base, ratio, k).len() ==> #[trigger] emitted(base, ratio, k)[j] == (
            base / ratio + j + 1) * ratio,
    decreases k,
{
    if k > 0 {
        law_emitted(base, ratio, k - 1);
        let before = emitted(base, ratio, k - 1);
        let n = base + k;
        vstd::arithmetic::div_mod::lemma_fundamental_div_mod(n, ratio);
        vstd::arithmetic::div_mod::lemma_fundamental_div_mod(n - 1, ratio);
        if n % ratio == 0 {
            assert((n - 1) / ratio == n / ratio - 1) by {
                assert(n - 1 == (n / ratio - 1) * ratio + (ratio - 1)) by (nonlinear_arith)
                    requires
                        n == ratio * (n / ratio) + n % ratio,
                        n % ratio == 0,
                ;
                vstd::arithmetic::div_mod::lemma_fundamental_div_mod_converse(
                    n - 1,
                    ratio,
                    n / ratio - 1,
                    ratio - 1,
                );
            }
            assert(n == (base / ratio + before.len() + 1) * ratio) by (nonlinear_arith)
                requires
                    n == ratio * (n / ratio),
                    base / ratio + before.len() == n / ratio - 1,
            ;
        } else {
            assert((n - 1) / ratio == n / ratio) by {
                assert(n - 1 == (n / ratio) * ratio + (n % ratio - 1)) by (nonlinear_arith)
                    requires
                        n == ratio * (n / ratio) + n % ratio,
                ;
                vstd::arithmetic::div_mod::lemma_fundamental_div_mod_converse(
                    n - 1,
                    ratio,
                    n / ratio,
                    n % ratio - 1,
                );
            }
        }
    }
}

/// Streamed experts are always gathered by expert, and so are long steps unless
/// another way is asked for; the fused way is taken only when asked for.
pub proof fn law_choice(config: Config, k: u64)
    ensures
        config.ssd_stream ==> spec_choice(config, k) == MoeChoice::ByExpert,
        config.moe_path == MoePath::Unset && k >= 128 ==> spec_choice(config, k)
            == MoeChoice::ByExpert,
        spec_choice(config, k) == MoeChoice::Fused ==> config.moe_path == MoePath::Fused,
        config == Config::standard() && k < 128 ==> spec_choice(config, k)
            == MoeChoice::ByPosition,
{
}

/// The grid of an expert-gather GEMM makes room, in whole tiles of 32 tokens, for
/// what it is asked to: all six slots of all positions where it is wide, and
/// otherwise one slot of each position divided by the divisor, which is eight
/// where none is given.
pub proof fn law_grid_covers(config: Config, k: u64)
    ensures
        ({
            let room = (room_per_expert(config, k) + 31) / 32 * 32;
            &&& room >= room_per_expert(config, k)
            &&& config.moe_grid_wide ==> room >= k * 6
            &&& !config.moe_grid_wide && config.moe_grid_div == Some(1u64) ==> room >= k
            &&& !config.moe_grid_wide && config.moe_grid_div is None ==> room >= (k + 7) / 8
                && room * 8 >= k
            &&& !config.moe_grid_wide && config.moe_grid_div is Some
                && config.moe_grid_div->Some_0 > 0 ==> room * config.moe_grid_div->Some_0 >= k
        }),
{
    if !config.moe_grid_wide && config.moe_grid_div is Some && config.moe_grid_div->Some_0 > 0 {
        let d = config.moe_grid_div->Some_0 as int;
        let n = (k + d - 1) / d;
        let room = (n + 31) / 32 * 32;
        vstd::arithmetic::div_mod::lemma_fundamental_div_mod(k + d - 1, d);
        assert(room * d >= k) by (nonlinear_arith)
            requires
                k + d - 1 == d * n + (k + d - 1) % d,
                (k + d - 1) % d < d,
                room >= n,
                d > 0,
        ;
        if d == 1 {
            assert(room * d == room) by (nonlinear_arith)
                requires
                    d == 1,
            ;
        }
    }
}

} // verus!
