//! How much work a launch asks for: its groups are as many as its rows, positions and
//! heads need, and no more.

use crate::arith::{law_div_up_covers, spec_div_up};
use crate::command::{BufId, Command, DeferredBuf, F32, Groups, HostRef};
use crate::config::{KvMerge, LayerParams, MtpDraftInputMix};
use crate::hc::Collapsed;
use crate::kernel::Kernel;
use crate::trace::Trace;
use vstd::prelude::*;

verus! {

/// The work that was asked for last: its encoder is closed after it.
pub open spec fn work(log: Seq<Command>) -> Command {
    log[log.len() - 2]
}

/// So many groups of `per` are as many as `n` needs.
pub open spec fn covers(groups: u64, per: int, n: int) -> bool {
    (groups - 1) * per < n <= groups * per
}

proof fn lemma_covers(n: u64, per: u64)
    requires
        per > 0,
        n > 0,
        n + per - 1 <= u64::MAX,
    ensures
        covers(spec_div_up(n, per), per as int, n as int),
{
    law_div_up_covers(n, per);
}

/// A product has a group for every two of its rows.
pub proof fn law_matvec_q8_0_grid(
    t: Trace,
    w_q8: DeferredBuf,
    x: DeferredBuf,
    d_in: u64,
    d_out: u64,
)
    requires
        d_out + 1 <= u64::MAX,
    ensures
        ({
            let (u, r) = t.matvec_q8_0(w_q8, x, d_in, d_out);
            r is Ok ==> (
                work(u.log) matches Command::Dispatch(g, threads) && covers(
                    g.0,
                    2,
                    d_out as int,
                ) && g.1 == 1 && g.2 == 1 && threads.0 == 32 && threads.2 == 1
            )
        }),
{
    reveal(Trace::matvec_q8_0);
}

/// So has one in single precision.
pub proof fn law_matvec_f32_grid(t: Trace, w: DeferredBuf, x: DeferredBuf, d_in: u64, d_out: u64)
    requires
        d_out + 1 <= u64::MAX,
    ensures
        ({
            let (u, r) = t.matvec_f32(w, x, d_in, d_out);
            r is Ok ==> (
                work(u.log) matches Command::Dispatch(g, threads) && covers(
                    g.0,
                    2,
                    d_out as int,
                ) && g.1 == 1 && g.2 == 1 && threads.0 == 32 && threads.2 == 1
            )
        }),
{
    reveal(Trace::matvec_f32);
}

/// So has one in half precision.
pub proof fn law_matvec_f16_grid(t: Trace, w: DeferredBuf, x: DeferredBuf, d_in: u64, d_out: u64)
    requires
        d_out + 1 <= u64::MAX,
    ensures
        ({
            let (u, r) = t.matvec_f16(w, x, d_in, d_out);
            r is Ok ==> (
                work(u.log) matches Command::Dispatch(g, threads) && covers(
                    g.0,
                    2,
                    d_out as int,
                ) && g.1 == 1 && g.2 == 1 && threads.0 == 32 && threads.2 == 1
            )
        }),
{
    reveal(Trace::matvec_f16);
}

/// A product of several positions has a group for every two rows of every position.
pub proof fn law_matmul_f32_k_grid(
    t: Trace,
    w: DeferredBuf,
    x_k: DeferredBuf,
    d_in: u64,
    d_out: u64,
    k: u64,
)
    requires
        d_out + 1 <= u64::MAX,
    ensures
        ({
            let (u, r) = t.matmul_f32_k(w, x_k, d_in, d_out, k);
            r is Ok ==> (
                work(u.log) matches Command::Dispatch(g, threads) && covers(
                    g.0,
                    2,
                    d_out as int,
                ) && g.1 == k && g.2 == 1 && threads.0 == 32 && threads.2 == 1
            )
        }),
{
    reveal(Trace::matmul_f32_k);
}

/// So has one in half precision.
pub proof fn law_matmul_f16_k_grid(
    t: Trace,
    w: DeferredBuf,
    x_k: DeferredBuf,
    d_in: u64,
    d_out: u64,
    k: u64,
)
    requires
        d_out + 1 <= u64::MAX,
    ensures
        ({
            let (u, r) = t.matmul_f16_k(w, x_k, d_in, d_out, k);
            r is Ok ==> (
                work(u.log) matches Command::Dispatch(g, threads) && covers(
                    g.0,
                    2,
                    d_out as int,
                ) && g.1 == k && g.2 == 1 && threads.0 == 32 && threads.2 == 1
            )
        }),
{
    reveal(Trace::matmul_f16_k);
}

/// So has one that is given vectors.
pub proof fn law_matvec_f32_k_grid(
    t: Trace,
    w: DeferredBuf,
    x_k: DeferredBuf,
    d_in: u64,
    d_out: u64,
    k: u64,
)
    requires
        d_out + 1 <= u64::MAX,
    ensures
        ({
            let (u, r) = t.matvec_f32_k(w, x_k, d_in, d_out, k);
            r is Ok ==> (
                work(u.log) matches Command::Dispatch(g, threads) && covers(
                    g.0,
                    2,
                    d_out as int,
                ) && g.1 == k && g.2 == 1 && threads.0 == 32 && threads.2 == 1
            )
        }),
{
    reveal(Trace::matvec_f32_k);
}

/// A GEMM has a group for every 32 positions and every 64 rows.
pub proof fn law_matmul_k_q4_0_grid(
    t: Trace,
    w_q4: DeferredBuf,
    x_k: DeferredBuf,
    d_in: u64,
    d_out: u64,
    k: u64,
)
    requires
        d_out + 63 <= u64::MAX,
        k + 31 <= u64::MAX,
    ensures
        ({
            let (u, r) = t.matmul_k_q4_0(w_q4, x_k, d_in, d_out, k);
            r is Ok ==> (
                work(u.log) matches Command::Dispatch(g, threads) && covers(g.0, 32, k as int)
                    && covers(
                    g.1,
                    64,
                    d_out as int,
                ) && g.2 == 1 && threads == (128u64, 1u64, 1u64)
            )
        }),
{
    reveal(Trace::matmul_k_q4_0);
}

/// So has one in half precision.
pub proof fn law_matmul_k_f16_grid(
    t: Trace,
    w: DeferredBuf,
    x_k: DeferredBuf,
    d_in: u64,
    d_out: u64,
    k: u64,
)
    requires
        d_out + 63 <= u64::MAX,
        k + 31 <= u64::MAX,
    ensures
        ({
            let (u, r) = t.matmul_k_f16(w, x_k, d_in, d_out, k);
            r is Ok ==> (
                work(u.log) matches Command::Dispatch(g, threads) && covers(g.0, 32, k as int)
                    && covers(
                    g.1,
                    64,
                    d_out as int,
                ) && g.2 == 1 && threads == (128u64, 1u64, 1u64)
            )
        }),
{
    reveal(Trace::matmul_k_f16);
}

/// So has one with Q8_0 weights.
pub proof fn law_matmul_k_q8_0_grid(
    t: Trace,
    w_q8: DeferredBuf,
    x_k: DeferredBuf,
    d_in: u64,
    d_out: u64,
    k: u64,
)
    requires
        d_out + 63 <= u64::MAX,
        k + 31 <= u64::MAX,
        !t.config.q8_faithful,
    ensures
        ({
            let (u, r) = t.matmul_k_q8_0(w_q8, x_k, d_in, d_out, k);
            r is Ok ==> (
                work(u.log) matches Command::Dispatch(g, threads) && covers(g.0, 32, k as int)
                    && covers(
                    g.1,
                    64,
                    d_out as int,
                ) && g.2 == 1 && threads == (128u64, 1u64, 1u64)
            )
        }),
{
    reveal(Trace::matmul_k_q8_0);
    reveal(Trace::alloc_attn_out);
    reveal(Trace::cast_f32_to_f16_contig);
}

/// A GEMM by groups has these for every group of heads.
pub proof fn law_matmul_k_q8_0_grouped_grid(
    t: Trace,
    w_q8: DeferredBuf,
    x_k: DeferredBuf,
    group_dim: u64,
    n_lora_o: u64,
    n_groups: u64,
    k: u64,
)
    requires
        n_lora_o + 63 <= u64::MAX,
        k + 31 <= u64::MAX,
    ensures
        ({
            let (u, r) = t.matmul_k_q8_0_grouped(w_q8, x_k, group_dim, n_lora_o, n_groups, k);
            r is Ok ==> (
                work(u.log) matches Command::Dispatch(g, threads) && covers(g.0, 32, k as int)
                    && covers(
                    g.1,
                    64,
                    n_lora_o as int,
                ) && g.2 == n_groups && threads == (128u64, 1u64, 1u64)
            )
        }),
{
    reveal(Trace::matmul_k_q8_0_grouped);
}

/// A norm has one group.
pub proof fn law_rms_norm_mul_grid(t: Trace, x: DeferredBuf, gamma: DeferredBuf, eps: F32)
    ensures
        ({
            let (u, r) = t.rms_norm_mul(x, gamma, eps);
            r is Ok ==> (
                work(u.log) matches Command::Dispatch(g, threads) && g == (1u64, 1u64, 1u64)
            )
        }),
{
    reveal(Trace::rms_norm_mul);
}

/// A norm of several rows has a group for each.
pub proof fn law_rms_norm_mul_k_grid(
    t: Trace,
    x_k: DeferredBuf,
    gamma: DeferredBuf,
    n: u64,
    k: u64,
    eps: F32,
)
    ensures
        ({
            let (u, r) = t.rms_norm_mul_k(x_k, gamma, n, k, eps);
            r is Ok ==> (work(u.log) matches Command::Dispatch(g, threads) && g == (k, 1u64, 1u64))
        }),
{
    reveal(Trace::rms_norm_mul_k);
    reveal(Trace::alloc_attn_out);
}

/// A norm of heads has a group for each head.
pub proof fn law_head_rms_norm_grid(t: Trace, x: DeferredBuf, n_head: u64, head_dim: u64, eps: F32)
    ensures
        ({
            let (u, r) = t.head_rms_norm(x, n_head, head_dim, eps);
            r is Ok ==> (
                work(u.log) matches Command::Dispatch(g, threads) && g == (n_head, 1u64, 1u64)
            )
        }),
{
    reveal(Trace::head_rms_norm);
}

/// A rotation has a group for each head.
pub proof fn law_rope_tail_in_place_grid(
    t: Trace,
    buf: DeferredBuf,
    byte_offset: u64,
    n_heads: u64,
    params: LayerParams,
    pos: u32,
    backward: bool,
)
    ensures
        ({
            let (u, r) = t.rope_tail_in_place(buf, byte_offset, n_heads, params, pos, backward);
            r is Ok ==> (
                work(u.log) matches Command::Dispatch(g, threads) && g == (n_heads, 1u64, 1u64)
            )
        }),
{
    reveal(Trace::rope_tail_in_place);
}

/// So has that of query heads.
pub proof fn law_rope_tail_q_heads_in_place_grid(
    t: Trace,
    q_heads: DeferredBuf,
    n_head: u64,
    head_dim: u64,
    params: LayerParams,
    pos: u32,
    backward: bool,
)
    ensures
        ({
            let (u, r) = t.rope_tail_q_heads_in_place(
                q_heads,
                n_head,
                head_dim,
                params,
                pos,
                backward,
            );
            r is Ok ==> (
                work(u.log) matches Command::Dispatch(g, threads) && g == (n_head, 1u64, 1u64)
            )
        }),
{
    reveal(Trace::rope_tail_q_heads_in_place);
}

/// A rotation of several positions has a group for each head of each position.
pub proof fn law_rope_tail_k_fused_grid(
    t: Trace,
    buf: DeferredBuf,
    byte_offset: u64,
    n_heads: u64,
    head_dim: u64,
    k_row_stride_floats: u64,
    params: LayerParams,
    base_pos: u32,
    k: u64,
    backward: bool,
)
    ensures
        ({
            let (u, r) = t.rope_tail_k_fused(
                buf,
                byte_offset,
                n_heads,
                head_dim,
                k_row_stride_floats,
                params,
                base_pos,
                k,
                backward,
            );
            r is Ok && params.n_rot > 0 && k > 0 ==> (
                work(u.log) matches Command::Dispatch(g, threads) && g == (n_heads, k, 1u64)
            )
        }),
{
    reveal(Trace::rope_tail_k_fused);
}

/// An expansion has a thread for every element of the streams.
pub proof fn law_hc_expand_add_grid(
    t: Trace,
    shared_out: DeferredBuf,
    routed_out: DeferredBuf,
    after_attn_hc: DeferredBuf,
    post: DeferredBuf,
    comb: DeferredBuf,
    n_hc: u64,
    d_embd: u64,
)
    requires
        n_hc * d_embd + 255 <= u64::MAX,
    ensures
        ({
            let (u, r) = t.hc_expand_add(
                shared_out,
                routed_out,
                after_attn_hc,
                post,
                comb,
                n_hc,
                d_embd,
            );
            r is Ok ==> (
                work(u.log) matches Command::Dispatch(g, threads) && covers(
                    g.0,
                    256,
                    n_hc * d_embd,
                ) && g.1 == 1 && g.2 == 1 && threads == (256u64, 1u64, 1u64)
            )
        }),
{
    reveal(Trace::hc_expand_add);
}

/// An expansion has a thread for every element of the streams.
pub proof fn law_hc_expand_attn_grid(
    t: Trace,
    attn_out: DeferredBuf,
    cur_hc: DeferredBuf,
    post: DeferredBuf,
    comb: DeferredBuf,
    n_hc: u64,
    d_embd: u64,
)
    requires
        n_hc * d_embd + 255 <= u64::MAX,
    ensures
        ({
            let (u, r) = t.hc_expand_attn(attn_out, cur_hc, post, comb, n_hc, d_embd);
            r is Ok ==> (
                work(u.log) matches Command::Dispatch(g, threads) && covers(
                    g.0,
                    256,
                    n_hc * d_embd,
                ) && g.1 == 1 && g.2 == 1 && threads == (256u64, 1u64, 1u64)
            )
        }),
{
    reveal(Trace::hc_expand_attn);
}

/// An expansion of several positions, in one launch, has a thread for every element of
/// the streams of every position.
pub proof fn law_hc_expand_add_split_k_grid(
    t: Trace,
    shared_out_k: DeferredBuf,
    routed_out_k: DeferredBuf,
    after_attn_k: DeferredBuf,
    split_k: DeferredBuf,
    n_hc: u64,
    d_embd: u64,
    k: u64,
)
    requires
        n_hc * d_embd * k + 255 <= u64::MAX,
        !t.config.hc_expand_per_k,
    ensures
        ({
            let (u, r) = t.hc_expand_add_split_k(
                shared_out_k,
                routed_out_k,
                after_attn_k,
                split_k,
                n_hc,
                d_embd,
                k,
            );
            r is Ok ==> (
                work(u.log) matches Command::Dispatch(g, threads) && covers(
                    g.0,
                    256,
                    n_hc * d_embd * k,
                ) && g.1 == 1 && g.2 == 1 && threads == (256u64, 1u64, 1u64)
            )
        }),
{
    reveal(Trace::hc_expand_add_split_k);
    reveal(Trace::pooled_scratch_f32);
}

/// An expansion of several positions, in one launch, has a thread for every element of
/// the streams of every position.
pub proof fn law_hc_expand_attn_split_k_grid(
    t: Trace,
    attn_out_k: DeferredBuf,
    cur_hc_k: DeferredBuf,
    split_k: DeferredBuf,
    n_hc: u64,
    d_embd: u64,
    k: u64,
)
    requires
        n_hc * d_embd * k + 255 <= u64::MAX,
        !t.config.hc_expand_per_k,
    ensures
        ({
            let (u, r) = t.hc_expand_attn_split_k(attn_out_k, cur_hc_k, split_k, n_hc, d_embd, k);
            r is Ok ==> (
                work(u.log) matches Command::Dispatch(g, threads) && covers(
                    g.0,
                    256,
                    n_hc * d_embd * k,
                ) && g.1 == 1 && g.2 == 1 && threads == (256u64, 1u64, 1u64)
            )
        }),
{
    reveal(Trace::hc_expand_attn_split_k);
    reveal(Trace::pooled_scratch_f32);
}

/// A split has one group.
pub proof fn law_hc_split_weighted_sum_norm4_grid(
    t: Trace,
    mixes: DeferredBuf,
    scale: DeferredBuf,
    base: DeferredBuf,
    x: DeferredBuf,
    gamma: DeferredBuf,
    n_hc: u64,
    n_embd: u64,
    sinkhorn_iters: i32,
    hc_eps: F32,
    rms_eps: F32,
)
    ensures
        ({
            let (u, r) = t.hc_split_weighted_sum_norm4(
                mixes,
                scale,
                base,
                x,
                gamma,
                n_hc,
                n_embd,
                sinkhorn_iters,
                hc_eps,
                rms_eps,
            );
            r is Ok ==> (
                work(u.log) matches Command::DispatchUpTo { groups: Groups::Count(groups), .. }
                    && groups == 1
            )
        }),
{
    reveal(Trace::hc_split_weighted_sum_norm4);
}

/// A split of several positions has a group for each.
pub proof fn law_hc_split_weighted_sum_norm4_into_k_grid(
    t: Trace,
    mixes_k: DeferredBuf,
    scale: DeferredBuf,
    base: DeferredBuf,
    x_k: DeferredBuf,
    gamma: DeferredBuf,
    n_hc: u64,
    n_embd: u64,
    sinkhorn_iters: i32,
    hc_eps: F32,
    rms_eps: F32,
    k: u64,
    outs: Collapsed,
)
    ensures
        ({
            let (u, r) = t.hc_split_weighted_sum_norm4_into_k(
                mixes_k,
                scale,
                base,
                x_k,
                gamma,
                n_hc,
                n_embd,
                sinkhorn_iters,
                hc_eps,
                rms_eps,
                k,
                outs,
            );
            r is Ok ==> (
                work(u.log) matches Command::DispatchUpTo { groups: Groups::Count(groups), .. }
                    && groups == k
            )
        }),
{
    reveal(Trace::hc_split_weighted_sum_norm4_into_k);
}

/// The fused mixing logits have a group for each logit.
pub proof fn law_fused_hc_collapse_stage12_grid(
    t: Trace,
    hc_fn: DeferredBuf,
    prev_hc: DeferredBuf,
    hc_dim: u64,
    mix: u64,
    eps: F32,
    hc_fn_is_f16: bool,
)
    ensures
        ({
            let (u, r) = t.fused_hc_collapse_stage12(
                hc_fn,
                prev_hc,
                hc_dim,
                mix,
                eps,
                hc_fn_is_f16,
            );
            r is Ok ==> (
                work(u.log) matches Command::Dispatch(g, threads) && g == (mix, 1u64, 1u64)
            )
        }),
{
    reveal(Trace::fused_hc_collapse_stage12);
}

/// A store has a group for its row.
pub proof fn law_kv_fp8_store_persistent_grid(
    t: Trace,
    layer: u32,
    kv_row: DeferredBuf,
    params: LayerParams,
    raw_cap: u32,
    slot: u32,
)
    ensures
        ({
            let (u, r) = t.kv_fp8_store_persistent(layer, kv_row, params, raw_cap, slot);
            r is Ok ==> (
                work(u.log) matches Command::Dispatch(g, threads) && g == (1u64, 1u64, 1u64)
            )
        }),
{
    reveal(Trace::kv_fp8_store_persistent);
}

/// A merged store has a group for each row.
pub proof fn law_kv_fp8_store_persistent_k_grid(
    t: Trace,
    layer: u32,
    kv_row_k: DeferredBuf,
    params: LayerParams,
    raw_cap: u32,
    base_slot: u32,
    k: u64,
)
    requires
        t.config.kv_merge == KvMerge::Kernel,
        t.has(Kernel::KvFp8StoreK),
    ensures
        ({
            let (u, r) = t.kv_fp8_store_persistent_k(
                layer,
                kv_row_k,
                params,
                raw_cap,
                base_slot,
                k,
            );
            r is Ok ==> (work(u.log) matches Command::Dispatch(g, threads) && g == (k, 1u64, 1u64))
        }),
{
    reveal(Trace::kv_fp8_store_persistent_k);
}

/// Attention has a group for each head.
pub proof fn law_flash_attn_k_mla_grid(
    t: Trace,
    q_k: DeferredBuf,
    kv_cache: DeferredBuf,
    n_head: u64,
    dk: u64,
    dv: u64,
    n_cache: u64,
    k: u64,
    scale: F32,
    base_pos: u32,
    sinks: DeferredBuf,
)
    ensures
        ({
            let (u, r) = t.flash_attn_k_mla(
                q_k,
                kv_cache,
                n_head,
                dk,
                dv,
                n_cache,
                k,
                scale,
                base_pos,
                sinks,
            );
            r is Ok ==> (
                work(u.log) matches Command::Dispatch(g, threads) && g == (
                    n_head,
                    1u64,
                    1u64,
                ) && threads == (32u64, 4u64, 1u64)
            )
        }),
{
    reveal(Trace::flash_attn_k_mla);
}

/// So has one that reads compressed rows.
pub proof fn law_flash_attn_k_mla_comp_grid(
    t: Trace,
    q_k: DeferredBuf,
    kv_cache: DeferredBuf,
    comp_ring: BufId,
    n_comp: u32,
    comp_avail: Seq<u32>,
    n_head: u64,
    dk: u64,
    dv: u64,
    n_cache: u64,
    k: u64,
    scale: F32,
    base_pos: u32,
    sinks: DeferredBuf,
)
    ensures
        ({
            let (u, r) = t.flash_attn_k_mla_comp(
                q_k,
                kv_cache,
                comp_ring,
                n_comp,
                comp_avail,
                n_head,
                dk,
                dv,
                n_cache,
                k,
                scale,
                base_pos,
                sinks,
            );
            r is Ok ==> (
                work(u.log) matches Command::Dispatch(g, threads) && g == (
                    n_head,
                    1u64,
                    1u64,
                ) && threads == (32u64, 4u64, 1u64)
            )
        }),
{
    reveal(Trace::flash_attn_k_mla_comp);
}

/// So has one under a mask.
pub proof fn law_flash_attn_k_mla_comp_masked_grid(
    t: Trace,
    q_k: DeferredBuf,
    kv_window: DeferredBuf,
    comp_ring: BufId,
    n_comp: u32,
    mask: HostRef,
    n_head: u64,
    dk: u64,
    dv: u64,
    n_cache: u64,
    k: u64,
    scale: F32,
    sinks: DeferredBuf,
)
    ensures
        ({
            let (u, r) = t.flash_attn_k_mla_comp_masked(
                q_k,
                kv_window,
                comp_ring,
                n_comp,
                mask,
                n_head,
                dk,
                dv,
                n_cache,
                k,
                scale,
                sinks,
            );
            r is Ok ==> (
                work(u.log) matches Command::Dispatch(g, threads) && g == (
                    n_head,
                    1u64,
                    1u64,
                ) && threads == (32u64, 4u64, 1u64)
            )
        }),
{
    reveal(Trace::flash_attn_k_mla_comp_masked);
}

/// The compression of a chunk has a group for each row, and a thread for each element.
pub proof fn law_compressor_prefill_noidx_grid(
    t: Trace,
    kv: DeferredBuf,
    sc: DeferredBuf,
    ape: HostRef,
    norm: HostRef,
    comp_ring: BufId,
    head_dim: u32,
    ratio: u32,
    n_rot: u32,
    chunk_start: u32,
    comp_row0: u32,
    n_comp: u32,
    params: LayerParams,
    rms_eps: F32,
)
    ensures
        ({
            let (u, r) = t.compressor_prefill_noidx(
                kv,
                sc,
                ape,
                norm,
                comp_ring,
                head_dim,
                ratio,
                n_rot,
                chunk_start,
                comp_row0,
                n_comp,
                params,
                rms_eps,
            );
            r is Ok && n_comp > 0 ==> (
                work(u.log) matches Command::Dispatch(g, threads)
                    && g == (n_comp as u64, 1u64, 1u64) && threads == (
                    head_dim as u64,
                    1u64,
                    1u64,
                )
            )
        }),
{
    reveal(Trace::compressor_prefill_noidx);
}

/// The fill of a state has a thread for each element of each row.
pub proof fn law_compressor_pool_fill_noidx_grid(
    t: Trace,
    kv: DeferredBuf,
    sc: DeferredBuf,
    ape: HostRef,
    state_kv: BufId,
    state_score: BufId,
    head_dim: u32,
    ratio: u32,
    chunk_start: u32,
    first: u32,
    rem: u32,
)
    requires
        head_dim > 0,
    ensures
        ({
            let (u, r) = t.compressor_pool_fill_noidx(
                kv,
                sc,
                ape,
                state_kv,
                state_score,
                head_dim,
                ratio,
                chunk_start,
                first,
                rem,
            );
            r is Ok && rem > 0 && head_dim > 0 ==> (
                work(u.log) matches Command::Dispatch(g, threads) && covers(
                    g.0,
                    threads.0 as int,
                    head_dim as int,
                ) && g.1 == rem && g.2 == 1
            )
        }),
{
    reveal(Trace::compressor_pool_fill_noidx);
    let w: u64 = if head_dim < 32 { head_dim as u64 } else { 32 };
    lemma_covers(head_dim as u64, w);
}

/// The scores of a tile have a group for every 32 rows and every 8 tokens.
pub proof fn law_encode_indexer_scores_tiled_grid(
    t: Trace,
    q_k: DeferredBuf,
    weights_k: DeferredBuf,
    index_ring: DeferredBuf,
    n_comp: u64,
    n_tokens: u64,
    n_head: u64,
    head_dim: u64,
    pos0: u32,
    ratio: u32,
)
    requires
        n_comp + 31 <= u64::MAX,
        n_tokens + 7 <= u64::MAX,
    ensures
        ({
            let (u, r) = t.encode_indexer_scores_tiled(
                q_k,
                weights_k,
                index_ring,
                n_comp,
                n_tokens,
                n_head,
                head_dim,
                pos0,
                ratio,
            );
            r is Ok ==> (
                work(u.log) matches Command::Dispatch(g, threads)
                    && covers(g.0, 32, n_comp as int) && covers(
                    g.1,
                    8,
                    n_tokens as int,
                ) && g.2 == 1
            )
        }),
{
    reveal(Trace::encode_indexer_scores_tiled);
}

/// The choice by threshold has a group for each token.
pub proof fn law_encode_indexer_topk_batched_threshold_grid(
    t: Trace,
    scores: DeferredBuf,
    n_comp: u64,
    n_tokens: u64,
    top_k: u64,
)
    ensures
        ({
            let (u, r) = t.encode_indexer_topk_batched_threshold(scores, n_comp, n_tokens, top_k);
            r is Ok ==> (
                work(u.log) matches Command::Dispatch(g, threads) && g == (n_tokens, 1u64, 1u64)
            )
        }),
{
    reveal(Trace::encode_indexer_topk_batched_threshold);
}

/// The choice for one row has one group.
pub proof fn law_topk_one_grid(
    t: Trace,
    kernel: Kernel,
    scores: DeferredBuf,
    n_comp: u64,
    top_k: u64,
)
    ensures
        ({
            let (u, r) = t.topk_one(kernel, scores, n_comp, top_k);
            r is Ok ==> (
                work(u.log) matches Command::Dispatch(g, threads) && g == (1u64, 1u64, 1u64)
            )
        }),
{
}

/// Attention over raw and chosen rows has a group for each token and every 8 heads.
pub proof fn law_encode_indexed_mixed_attention_grid(
    t: Trace,
    q_heads_k: DeferredBuf,
    raw_ring: DeferredBuf,
    comp_ring: DeferredBuf,
    topk_sel: DeferredBuf,
    sinks: DeferredBuf,
    n_tokens: u64,
    n_head: u64,
    head_dim: u64,
    n_raw: u64,
    n_comp: u64,
    top_k: u64,
    ratio: u32,
    window: u32,
    pos0: u32,
    raw_start: u32,
    raw_cap: u32,
    scale: F32,
)
    requires
        n_head + 7 <= u64::MAX,
    ensures
        ({
            let (u, r) = t.encode_indexed_mixed_attention(
                q_heads_k,
                raw_ring,
                comp_ring,
                topk_sel,
                sinks,
                n_tokens,
                n_head,
                head_dim,
                n_raw,
                n_comp,
                top_k,
                ratio,
                window,
                pos0,
                raw_start,
                raw_cap,
                scale,
            );
            r is Ok ==> (
                work(u.log) matches Command::Dispatch(g, threads) && g.0 == n_tokens && covers(
                    g.1,
                    8,
                    n_head as int,
                ) && g.2 == 1
            )
        }),
{
    reveal(Trace::encode_indexed_mixed_attention);
}

/// The map has a thread for each expert.
pub proof fn law_encode_mul_mm_id_map0_k_grid(
    t: Trace,
    selected_k: DeferredBuf,
    n_experts: u64,
    k: u64,
)
    ensures
        ({
            let (u, r) = t.encode_mul_mm_id_map0_k(selected_k, n_experts, k);
            r is Ok ==> (
                work(u.log) matches Command::Dispatch(g, threads) && g == (1u64, 1u64, 1u64)
                    && threads == (
                    n_experts,
                    1u64,
                    1u64,
                )
            )
        }),
{
    reveal(Trace::encode_mul_mm_id_map0_k);
}

/// The fused gather has, for each expert, a group for every 32 positions and every 64
/// rows.
pub proof fn law_encode_mul_mm_id_iq2_pair_swiglu_k_grid(
    t: Trace,
    gate_w: DeferredBuf,
    up_w: DeferredBuf,
    x_k: DeferredBuf,
    tpe: DeferredBuf,
    ids: DeferredBuf,
    wt_flat: DeferredBuf,
    n_experts: u64,
    d_embd: u64,
    d_ffn: u64,
    k: u64,
)
    requires
        k + 31 <= u64::MAX,
        d_ffn + 63 <= u64::MAX,
    ensures
        ({
            let (u, r) = t.encode_mul_mm_id_iq2_pair_swiglu_k(
                gate_w,
                up_w,
                x_k,
                tpe,
                ids,
                wt_flat,
                n_experts,
                d_embd,
                d_ffn,
                k,
            );
            r is Ok ==> (
                work(u.log) matches Command::Dispatch(g, threads) && covers(g.0, 32, k as int)
                    && covers(
                    g.1,
                    64,
                    d_ffn as int,
                ) && g.2 == n_experts
            )
        }),
{
    reveal(Trace::encode_mul_mm_id_iq2_pair_swiglu_k);
    reveal(Trace::pooled_scratch_f32);
}

/// The activation has a group for each slot of each position.
pub proof fn law_moe_swiglu_weight_k_grid(
    t: Trace,
    gate_k: DeferredBuf,
    up_k: DeferredBuf,
    weights_k_flat: DeferredBuf,
    d_ffn: u64,
    k: u64,
    mid_f16: bool,
)
    ensures
        ({
            let (u, r) = t.moe_swiglu_weight_k(gate_k, up_k, weights_k_flat, d_ffn, k, mid_f16);
            r is Ok ==> (
                work(u.log) matches Command::DispatchUpTo { groups: Groups::Count(groups), want, .. }
                    && groups == (k * 6) as u64 && want == d_ffn
            )
        }),
{
    reveal(Trace::moe_swiglu_weight_k);
    reveal(Trace::pooled_scratch_f32);
    reveal(Trace::pooled_scratch_u16);
}

/// The sum has a thread for each element of each position.
pub proof fn law_sum6_k_grid(t: Trace, down_out_k: DeferredBuf, d_embd: u64, k: u64)
    ensures
        ({
            let (u, r) = t.sum6_k(down_out_k, d_embd, k);
            r is Ok ==> (
                work(u.log) matches Command::DispatchUpTo { groups: Groups::Cover(groups), want, .. }
                    && groups == (d_embd * k) as u64 && want == (d_embd * k) as u64
            )
        }),
{
    reveal(Trace::sum6_k);
    reveal(Trace::pooled_scratch_f32);
    assert(d_embd * k == k * d_embd) by (nonlinear_arith);
}

/// The fused down projection has, for each position, a group for every four or eight rows.
pub proof fn law_sum6_down_grid(
    t: Trace,
    q4: bool,
    down_w: DeferredBuf,
    mid_k: DeferredBuf,
    ids_flat: DeferredBuf,
    d_ffn: u64,
    d_embd: u64,
    k: u64,
)
    requires
        d_embd > 0,
        d_embd + 7 <= u64::MAX,
    ensures
        ({
            let (u, r) = t.sum6_down(q4, down_w, mid_k, ids_flat, d_ffn, d_embd, k);
            r is Ok ==> (
                work(u.log) matches Command::Dispatch(g, threads) && covers(
                    g.0,
                    if q4 { 4int } else { 8int },
                    d_embd as int,
                ) && g.1 == k && g.2 == 1
            )
        }),
{
    reveal(Trace::sum6_down);
    lemma_covers(d_embd, if q4 { 4 } else { 8 });
}

/// The mix of the drafter's input has a thread for each element of each stream.
pub proof fn law_encode_mtp_input_mix_grid(
    t: Trace,
    token_embed: DeferredBuf,
    prev_hc: DeferredBuf,
    mix: MtpDraftInputMix,
    n_embd: u64,
    n_hc: u64,
    rms_eps: F32,
)
    ensures
        ({
            let (u, r) = t.encode_mtp_input_mix(token_embed, prev_hc, mix, n_embd, n_hc, rms_eps);
            r is Ok ==> (
                work(u.log) matches Command::DispatchUpTo { groups: Groups::Cover(groups), want, .. }
                    && groups == (n_hc * n_embd) as u64 && want == groups
            )
        }),
{
    reveal(Trace::encode_mtp_input_mix);
}

/// The square root of the softplus has a thread for every four elements.
pub proof fn law_softplus_sqrt_grid(t: Trace, x: DeferredBuf)
    ensures
        ({
            let (u, r) = t.softplus_sqrt(x);
            r is Ok ==> (
                work(u.log) matches Command::DispatchThreads(g, threads) && g == threads && g.0 == (
                    x.n_elements / 4
                ) as u32 && g.1 == 1 && g.2 == 1
            )
        }),
{
    reveal(Trace::softplus_sqrt);
}

/// The factors of several positions have a group for each, with a thread for each expert.
pub proof fn law_encode_router_finalize_flat_k_grid(
    t: Trace,
    probs_k: DeferredBuf,
    bias: DeferredBuf,
    k: u64,
)
    ensures
        ({
            let (u, r) = t.encode_router_finalize_flat_k(probs_k, bias, k);
            r is Ok ==> (
                work(u.log) matches Command::Dispatch(g, threads) && g == (k, 1u64, 1u64)
                    && threads == (
                    6u64,
                    1u64,
                    1u64,
                )
            )
        }),
{
    reveal(Trace::encode_router_finalize_flat_k);
}

/// The factors of one position have a thread for each expert.
pub proof fn law_encode_router_weights_one_grid(t: Trace, probs: DeferredBuf, selected: DeferredBuf)
    ensures
        ({
            let (u, r) = t.encode_router_weights_one(probs, selected);
            r is Ok ==> (
                work(u.log) matches Command::DispatchThreads(g, threads) && g == (6u64, 1u64, 1u64)
            )
        }),
{
    reveal(Trace::encode_router_weights_one);
}

} // verus!
