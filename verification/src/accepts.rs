//! When an operation succeeds. It does exactly when the kernels that it launches are
//! there and its operands have the lengths and the dimensions that these take.

use crate::command::{BufId, DeferredBuf, F32, HostRef};
use crate::config::{KvMerge, LayerParams, MtpDraftInputMix};
use crate::hc::{Collapsed, mix_hc};
use crate::kernel::Kernel;
use crate::moe::MmStage;
use crate::router::spec_router_kernels;
use crate::trace::Trace;
use vstd::prelude::*;

verus! {

/// `kv_fp8_store_persistent` succeeds exactly when its kernels are there and its operands fit.
pub proof fn law_kv_fp8_store_persistent_succeeds(
    t: Trace,
    layer: u32,
    kv_row: DeferredBuf,
    params: LayerParams,
    raw_cap: u32,
    slot: u32,
)
    ensures
        ({
            t.kv_fp8_store_persistent(layer, kv_row, params, raw_cap, slot).1 is Ok <==> {
                &&& kv_row.n_elements == params.n_lora_kv
                &&& raw_cap != 0
                &&& slot < raw_cap
                &&& t.has(Kernel::KvFp8Store)
            }
        }),
{
    reveal(Trace::kv_fp8_store_persistent);
}

/// `encode_attn_output_matmuls` succeeds exactly when its kernels are there and its operands fit.
pub proof fn law_encode_attn_output_matmuls_succeeds(
    t: Trace,
    heads: DeferredBuf,
    w_o_a: DeferredBuf,
    w_o_b: DeferredBuf,
    n_groups: u64,
    n_lora_o: u64,
    group_dim: u64,
    out_low_dim: u64,
    d_embd: u64,
)
    ensures
        ({
            t.encode_attn_output_matmuls(
                heads,
                w_o_a,
                w_o_b,
                n_groups,
                n_lora_o,
                group_dim,
                out_low_dim,
                d_embd,
            ).1 is Ok <==> {
                &&& group_dim % 4 == 0
                &&& n_lora_o % 2 == 0
                &&& out_low_dim % 4 == 0
                &&& d_embd % 2 == 0
                &&& out_low_dim == n_groups * n_lora_o
                &&& heads.n_elements == n_groups * group_dim
                &&& w_o_a.n_elements == out_low_dim * group_dim
                &&& w_o_b.n_elements == d_embd * out_low_dim
            }
        }),
{
    reveal(Trace::encode_attn_output_matmuls);
}

/// `hc_expand_add_split_k` succeeds exactly when its kernels are there and its operands fit.
pub proof fn law_hc_expand_add_split_k_succeeds(
    t: Trace,
    shared_out_k: DeferredBuf,
    routed_out_k: DeferredBuf,
    after_attn_k: DeferredBuf,
    split_k: DeferredBuf,
    n_hc: u64,
    d_embd: u64,
    k: u64,
)
    ensures
        ({
            t.hc_expand_add_split_k(
                shared_out_k,
                routed_out_k,
                after_attn_k,
                split_k,
                n_hc,
                d_embd,
                k,
            ).1 is Ok <==> {
                &&& shared_out_k.n_elements == k * d_embd
                &&& routed_out_k.n_elements == k * d_embd
                &&& after_attn_k.n_elements == k * n_hc * d_embd
                &&& split_k.n_elements == k * mix_hc(n_hc)
                &&& t.has(Kernel::HcExpand)
            }
        }),
{
    reveal(Trace::hc_expand_add_split_k);
}

/// `hc_expand_attn_split_k` succeeds exactly when its kernels are there and its operands fit.
pub proof fn law_hc_expand_attn_split_k_succeeds(
    t: Trace,
    attn_out_k: DeferredBuf,
    cur_hc_k: DeferredBuf,
    split_k: DeferredBuf,
    n_hc: u64,
    d_embd: u64,
    k: u64,
)
    ensures
        ({
            t.hc_expand_attn_split_k(attn_out_k, cur_hc_k, split_k, n_hc, d_embd, k).1 is Ok <==> {
                &&& attn_out_k.n_elements == k * d_embd
                &&& cur_hc_k.n_elements == k * n_hc * d_embd
                &&& split_k.n_elements == k * mix_hc(n_hc)
                &&& t.has(Kernel::HcExpand)
            }
        }),
{
    reveal(Trace::hc_expand_attn_split_k);
}

/// `hc_split_weighted_sum_norm4` succeeds exactly when its kernels are there and its operands fit.
pub proof fn law_hc_split_weighted_sum_norm4_succeeds(
    t: Trace,
    mixes: DeferredBuf,
    scale: DeferredBuf,
    base: DeferredBuf,
    x: DeferredBuf,
    gamma: DeferredBuf,
    n_hc: u64,
    n_embd: u64,
    sinkhorn_iters: i32,
    hc_eps: F32,
    rms_eps: F32,
)
    ensures
        ({
            let kernel = if n_embd != 4096 { Kernel::HcSplitNormAny } else { Kernel::HcSplitNorm4 };
            t.hc_split_weighted_sum_norm4(
                mixes,
                scale,
                base,
                x,
                gamma,
                n_hc,
                n_embd,
                sinkhorn_iters,
                hc_eps,
                rms_eps,
            ).1 is Ok <==> {
                &&& n_hc == 4
                &&& n_embd % 4 == 0
                &&& mixes.n_elements == mix_hc(n_hc)
                &&& scale.n_elements == 3
                &&& base.n_elements == mix_hc(n_hc)
                &&& x.n_elements == n_hc * n_embd
                &&& gamma.n_elements == n_embd
                &&& t.has(kernel)
            }
        }),
{
    reveal(Trace::hc_split_weighted_sum_norm4);
}

/// `hc_split_weighted_sum_norm4_into_k` succeeds exactly when its kernels are there and
/// its operands fit.
pub proof fn law_hc_split_weighted_sum_norm4_into_k_succeeds(
    t: Trace,
    mixes_k: DeferredBuf,
    scale: DeferredBuf,
    base: DeferredBuf,
    x_k: DeferredBuf,
    gamma: DeferredBuf,
    n_hc: u64,
    n_embd: u64,
    sinkhorn_iters: i32,
    hc_eps: F32,
    rms_eps: F32,
    k: u64,
    outs: Collapsed,
)
    ensures
        ({
            t.hc_split_weighted_sum_norm4_into_k(
                mixes_k,
                scale,
                base,
                x_k,
                gamma,
                n_hc,
                n_embd,
                sinkhorn_iters,
                hc_eps,
                rms_eps,
                k,
                outs,
            ).1 is Ok <==> {
                &&& n_hc == 4
                &&& n_embd == 4096
                &&& t.has(Kernel::HcSplitNorm4)
            }
        }),
{
    reveal(Trace::hc_split_weighted_sum_norm4_into_k);
}

/// `fused_hc_collapse_stage12` succeeds exactly when its kernels are there and its operands fit.
pub proof fn law_fused_hc_collapse_stage12_succeeds(
    t: Trace,
    hc_fn: DeferredBuf,
    prev_hc: DeferredBuf,
    hc_dim: u64,
    mix: u64,
    eps: F32,
    hc_fn_is_f16: bool,
)
    ensures
        ({
            t.fused_hc_collapse_stage12(
                hc_fn,
                prev_hc,
                hc_dim,
                mix,
                eps,
                hc_fn_is_f16,
            ).1 is Ok <==> {
                &&& hc_dim % 4 == 0
                &&& prev_hc.n_elements == hc_dim
                &&& hc_fn.n_elements == hc_dim * mix
            }
        }),
{
    reveal(Trace::fused_hc_collapse_stage12);
}

/// `encode_indexer_scores_tiled` succeeds exactly when its kernels are there and its operands fit.
pub proof fn law_encode_indexer_scores_tiled_succeeds(
    t: Trace,
    q_k: DeferredBuf,
    weights_k: DeferredBuf,
    index_ring: DeferredBuf,
    n_comp: u64,
    n_tokens: u64,
    n_head: u64,
    head_dim: u64,
    pos0: u32,
    ratio: u32,
)
    ensures
        ({
            t.encode_indexer_scores_tiled(
                q_k,
                weights_k,
                index_ring,
                n_comp,
                n_tokens,
                n_head,
                head_dim,
                pos0,
                ratio,
            ).1 is Ok <==> {
                &&& n_head == 64
                &&& head_dim == 128
                &&& q_k.n_elements == n_tokens * n_head * head_dim
                &&& weights_k.n_elements == n_tokens * n_head
                &&& index_ring.n_elements == n_comp * head_dim
            }
        }),
{
    reveal(Trace::encode_indexer_scores_tiled);
}

/// `encode_indexer_topk_batched_threshold` succeeds exactly when its kernels are there
/// and its operands fit.
pub proof fn law_encode_indexer_topk_batched_threshold_succeeds(
    t: Trace,
    scores: DeferredBuf,
    n_comp: u64,
    n_tokens: u64,
    top_k: u64,
)
    ensures
        ({
            t.encode_indexer_topk_batched_threshold(scores, n_comp, n_tokens, top_k).1 is Ok <==> {
                &&& n_comp != 0
                &&& top_k <= n_comp
                &&& scores.n_elements == n_tokens * n_comp
            }
        }),
{
    reveal(Trace::encode_indexer_topk_batched_threshold);
}

/// `topk_one` succeeds exactly when its kernels are there and its operands fit.
pub proof fn law_topk_one_succeeds(
    t: Trace,
    kernel: Kernel,
    scores: DeferredBuf,
    n_comp: u64,
    top_k: u64,
)
    ensures
        ({
            t.topk_one(kernel, scores, n_comp, top_k).1 is Ok <==> {
                &&& top_k <= n_comp
            }
        }),
{
}

/// `encode_indexed_mixed_attention` succeeds exactly when its kernels are there and its
/// operands fit.
pub proof fn law_encode_indexed_mixed_attention_succeeds(
    t: Trace,
    q_heads_k: DeferredBuf,
    raw_ring: DeferredBuf,
    comp_ring: DeferredBuf,
    topk_sel: DeferredBuf,
    sinks: DeferredBuf,
    n_tokens: u64,
    n_head: u64,
    head_dim: u64,
    n_raw: u64,
    n_comp: u64,
    top_k: u64,
    ratio: u32,
    window: u32,
    pos0: u32,
    raw_start: u32,
    raw_cap: u32,
    scale: F32,
)
    ensures
        ({
            t.encode_indexed_mixed_attention(
                q_heads_k,
                raw_ring,
                comp_ring,
                topk_sel,
                sinks,
                n_tokens,
                n_head,
                head_dim,
                n_raw,
                n_comp,
                top_k,
                ratio,
                window,
                pos0,
                raw_start,
                raw_cap,
                scale,
            ).1 is Ok <==> {
                &&& head_dim == 512
                &&& q_heads_k.n_elements == n_tokens * n_head * head_dim
                &&& topk_sel.n_elements >= n_tokens * top_k
                &&& ratio != 0
            }
        }),
{
    reveal(Trace::encode_indexed_mixed_attention);
}

/// `cast_f32_to_f16_contig` succeeds exactly when its kernels are there and its operands fit.
pub proof fn law_cast_f32_to_f16_contig_succeeds(t: Trace, src: DeferredBuf, n: u64)
    ensures
        ({
            t.cast_f32_to_f16_contig(src, n).1 is Ok <==> {
                &&& n != 0
                &&& src.n_elements >= n
            }
        }),
{
    reveal(Trace::cast_f32_to_f16_contig);
}

/// `kv_f16_workspace_direct` succeeds exactly when its kernels are there and its operands fit.
pub proof fn law_kv_f16_workspace_direct_succeeds(
    t: Trace,
    kv_f32: DeferredBuf,
    n_rows: u64,
    head_dim: u64,
    n_total_padded: u32,
)
    ensures
        ({
            t.kv_f16_workspace_direct(kv_f32, n_rows, head_dim, n_total_padded).1 is Ok <==> {
                &&& kv_f32.n_elements >= n_rows * head_dim
                &&& n_total_padded >= n_rows
            }
        }),
{
    reveal(Trace::kv_f16_workspace_direct);
}

/// `matmul_k_q4_0` succeeds exactly when its kernels are there and its operands fit.
pub proof fn law_matmul_k_q4_0_succeeds(
    t: Trace,
    w_q4: DeferredBuf,
    x_k: DeferredBuf,
    d_in: u64,
    d_out: u64,
    k: u64,
)
    ensures
        ({
            t.matmul_k_q4_0(w_q4, x_k, d_in, d_out, k).1 is Ok <==> {
                &&& d_in != 0
                &&& d_out != 0
                &&& d_in % 32 == 0
            }
        }),
{
    reveal(Trace::matmul_k_q4_0);
}

/// `matmul_k_f16` succeeds exactly when its kernels are there and its operands fit.
pub proof fn law_matmul_k_f16_succeeds(
    t: Trace,
    w: DeferredBuf,
    x_k: DeferredBuf,
    d_in: u64,
    d_out: u64,
    k: u64,
)
    ensures
        ({
            t.matmul_k_f16(w, x_k, d_in, d_out, k).1 is Ok <==> {
                &&& d_in != 0
                &&& d_out != 0
                &&& w.n_elements == d_in * d_out
                &&& x_k.n_elements == k * d_in
                &&& d_in % 8 == 0
            }
        }),
{
    reveal(Trace::matmul_k_f16);
}

/// `matmul_k_q8_0_grouped` succeeds exactly when its kernels are there and its operands fit.
pub proof fn law_matmul_k_q8_0_grouped_succeeds(
    t: Trace,
    w_q8: DeferredBuf,
    x_k: DeferredBuf,
    group_dim: u64,
    n_lora_o: u64,
    n_groups: u64,
    k: u64,
)
    ensures
        ({
            t.matmul_k_q8_0_grouped(w_q8, x_k, group_dim, n_lora_o, n_groups, k).1 is Ok <==> {
                &&& group_dim % 32 == 0
                &&& w_q8.n_elements == n_groups * n_lora_o * group_dim
                &&& x_k.n_elements == k * n_groups * group_dim
            }
        }),
{
    reveal(Trace::matmul_k_q8_0_grouped);
}

/// `matvec_f32_k` succeeds exactly when its kernels are there and its operands fit.
pub proof fn law_matvec_f32_k_succeeds(
    t: Trace,
    w: DeferredBuf,
    x_k: DeferredBuf,
    d_in: u64,
    d_out: u64,
    k: u64,
)
    ensures
        ({
            t.matvec_f32_k(w, x_k, d_in, d_out, k).1 is Ok <==> {
                &&& w.n_elements == d_in * d_out
                &&& x_k.n_elements == k * d_in
                &&& d_in % 4 == 0
                &&& d_out % 2 == 0
            }
        }),
{
    reveal(Trace::matvec_f32_k);
}

/// `encode_moe_and_shared_chain` succeeds exactly when its kernels are there and its operands fit.
pub proof fn law_encode_moe_and_shared_chain_succeeds(
    t: Trace,
    layer: u32,
    moe_x: HostRef,
    moe_selected: HostRef,
    moe_weights: HostRef,
    d_ffn: u64,
    sh_ffn_norm: HostRef,
    sh_w_gate: HostRef,
    sh_w_up: HostRef,
    sh_w_down: HostRef,
    shared_dim: u32,
    want_q80: bool,
)
    ensures
        ({
            t.encode_moe_and_shared_chain(
                layer,
                moe_x,
                moe_selected,
                moe_weights,
                d_ffn,
                sh_ffn_norm,
                sh_w_gate,
                sh_w_up,
                sh_w_down,
                shared_dim,
                want_q80,
            ).1 is Ok <==> {
                &&& layer < t.engine.experts.len()
            }
        }),
{
    reveal(Trace::encode_moe_and_shared_chain);
}

/// `encode_moe_and_shared_chain_with_router_bufs` succeeds exactly when its kernels are
/// there and its operands fit.
pub proof fn law_encode_moe_and_shared_chain_with_router_bufs_succeeds(
    t: Trace,
    layer: u32,
    moe_x: HostRef,
    selected: DeferredBuf,
    weights: DeferredBuf,
    d_ffn: u64,
    sh_ffn_norm: HostRef,
    sh_w: (HostRef, HostRef, HostRef),
    shared_dim: u32,
    want_q80: bool,
    sh_q8: (HostRef, HostRef, HostRef),
)
    ensures
        ({
            t.encode_moe_and_shared_chain_with_router_bufs(
                layer,
                moe_x,
                selected,
                weights,
                d_ffn,
                sh_ffn_norm,
                sh_w,
                shared_dim,
                want_q80,
                sh_q8,
            ).1 is Ok <==> {
                &&& selected.n_elements == 6
                &&& weights.n_elements == 6
                &&& layer < t.engine.experts.len()
            }
        }),
{
    reveal(Trace::encode_moe_and_shared_chain_with_router_bufs);
}

/// `encode_moe_and_shared_chain_with_router_bufs_db` succeeds exactly when its kernels
/// are there and its operands fit.
pub proof fn law_encode_moe_and_shared_chain_with_router_bufs_db_succeeds(
    t: Trace,
    layer: u32,
    moe_x: DeferredBuf,
    selected: DeferredBuf,
    weights: DeferredBuf,
    d_ffn: u64,
    sh_ffn_norm: DeferredBuf,
    sh_w: (HostRef, HostRef, HostRef),
    shared_dim: u32,
    sh_q8: (HostRef, HostRef, HostRef),
)
    ensures
        ({
            t.encode_moe_and_shared_chain_with_router_bufs_db(
                layer,
                moe_x,
                selected,
                weights,
                d_ffn,
                sh_ffn_norm,
                sh_w,
                shared_dim,
                sh_q8,
            ).1 is Ok <==> {
                &&& selected.n_elements == 6
                &&& weights.n_elements == 6
                &&& layer < t.engine.experts.len()
            }
        }),
{
    reveal(Trace::encode_moe_and_shared_chain_with_router_bufs_db);
}

/// `encode_mul_mm_id_map0_k` succeeds exactly when its kernels are there and its operands fit.
pub proof fn law_encode_mul_mm_id_map0_k_succeeds(
    t: Trace,
    selected_k: DeferredBuf,
    n_experts: u64,
    k: u64,
)
    ensures
        ({
            t.encode_mul_mm_id_map0_k(selected_k, n_experts, k).1 is Ok <==> {
                &&& selected_k.n_elements == k * 6
                &&& n_experts == 256
            }
        }),
{
    reveal(Trace::encode_mul_mm_id_map0_k);
}

/// `encode_mul_mm_id_qx_k` succeeds exactly when its kernels are there and its operands fit.
pub proof fn law_encode_mul_mm_id_qx_k_succeeds(
    t: Trace,
    stage: MmStage,
    experts_w: DeferredBuf,
    x_k: DeferredBuf,
    tpe: DeferredBuf,
    ids: DeferredBuf,
    n_experts: u64,
    d_in: u64,
    d_out: u64,
    k: u64,
    slots: u64,
    act: u64,
)
    ensures
        ({
            t.encode_mul_mm_id_qx_k(
                stage,
                experts_w,
                x_k,
                tpe,
                ids,
                n_experts,
                d_in,
                d_out,
                k,
                slots,
                act,
            ).1 is Ok <==> {
                &&& d_in != 0
                &&& d_out != 0
                &&& n_experts != 0
                &&& d_in % stage.qk == 0
                &&& (slots == 1 || slots == 6)
                &&& x_k.n_elements == k * slots * d_in
                &&& tpe.n_elements == n_experts
                &&& ids.n_elements == n_experts * k
            }
        }),
{
    reveal(Trace::encode_mul_mm_id_qx_k);
}

/// `encode_mul_mm_id_iq2_pair_swiglu_k` succeeds exactly when its kernels are there and
/// its operands fit.
pub proof fn law_encode_mul_mm_id_iq2_pair_swiglu_k_succeeds(
    t: Trace,
    gate_w: DeferredBuf,
    up_w: DeferredBuf,
    x_k: DeferredBuf,
    tpe: DeferredBuf,
    ids: DeferredBuf,
    wt_flat: DeferredBuf,
    n_experts: u64,
    d_embd: u64,
    d_ffn: u64,
    k: u64,
)
    ensures
        ({
            t.encode_mul_mm_id_iq2_pair_swiglu_k(
                gate_w,
                up_w,
                x_k,
                tpe,
                ids,
                wt_flat,
                n_experts,
                d_embd,
                d_ffn,
                k,
            ).1 is Ok <==> {
                &&& d_embd != 0
                &&& d_ffn != 0
                &&& n_experts != 0
                &&& d_embd % 256 == 0
                &&& x_k.n_elements == k * d_embd
                &&& tpe.n_elements == n_experts
                &&& ids.n_elements == n_experts * k
                &&& wt_flat.n_elements == k * 6
            }
        }),
{
    reveal(Trace::encode_mul_mm_id_iq2_pair_swiglu_k);
}

/// `moe_swiglu_weight_k` succeeds exactly when its kernels are there and its operands fit.
pub proof fn law_moe_swiglu_weight_k_succeeds(
    t: Trace,
    gate_k: DeferredBuf,
    up_k: DeferredBuf,
    weights_k_flat: DeferredBuf,
    d_ffn: u64,
    k: u64,
    mid_f16: bool,
)
    ensures
        ({
            t.moe_swiglu_weight_k(gate_k, up_k, weights_k_flat, d_ffn, k, mid_f16).1 is Ok <==> {
                &&& gate_k.n_elements == k * 6 * d_ffn
                &&& up_k.n_elements == k * 6 * d_ffn
                &&& weights_k_flat.n_elements == k * 6
            }
        }),
{
    reveal(Trace::moe_swiglu_weight_k);
}

/// `sum6_k` succeeds exactly when its kernels are there and its operands fit.
pub proof fn law_sum6_k_succeeds(t: Trace, down_out_k: DeferredBuf, d_embd: u64, k: u64)
    ensures
        ({
            t.sum6_k(down_out_k, d_embd, k).1 is Ok <==> {
                &&& down_out_k.n_elements == k * 6 * d_embd
            }
        }),
{
    reveal(Trace::sum6_k);
}

/// `sum6_down` succeeds exactly when its kernels are there and its operands fit.
pub proof fn law_sum6_down_succeeds(
    t: Trace,
    q4: bool,
    down_w: DeferredBuf,
    mid_k: DeferredBuf,
    ids_flat: DeferredBuf,
    d_ffn: u64,
    d_embd: u64,
    k: u64,
)
    ensures
        ({
            t.sum6_down(q4, down_w, mid_k, ids_flat, d_ffn, d_embd, k).1 is Ok <==> {
                &&& d_ffn % 256 == 0
            }
        }),
{
    reveal(Trace::sum6_down);
}

/// `rms_norm_mul` succeeds exactly when its kernels are there and its operands fit.
pub proof fn law_rms_norm_mul_succeeds(t: Trace, x: DeferredBuf, gamma: DeferredBuf, eps: F32)
    ensures
        ({
            let n = x.n_elements;
            t.rms_norm_mul(x, gamma, eps).1 is Ok <==> {
                &&& gamma.n_elements == n
                &&& n % 4 == 0
                &&& t.has(Kernel::RmsNormMul)
            }
        }),
{
    reveal(Trace::rms_norm_mul);
}

/// `rms_norm_mul_k` succeeds exactly when its kernels are there and its operands fit.
pub proof fn law_rms_norm_mul_k_succeeds(
    t: Trace,
    x_k: DeferredBuf,
    gamma: DeferredBuf,
    n: u64,
    k: u64,
    eps: F32,
)
    ensures
        ({
            t.rms_norm_mul_k(x_k, gamma, n, k, eps).1 is Ok <==> {
                &&& x_k.n_elements == k * n
                &&& gamma.n_elements == n
                &&& n % 4 == 0
                &&& t.has(Kernel::RmsNormMul)
            }
        }),
{
    reveal(Trace::rms_norm_mul_k);
}

/// `head_rms_norm_k` succeeds exactly when its kernels are there and its operands fit.
pub proof fn law_head_rms_norm_k_succeeds(
    t: Trace,
    x_k: DeferredBuf,
    n_head: u64,
    head_dim: u64,
    k: u64,
    eps: F32,
)
    ensures
        ({
            t.head_rms_norm_k(x_k, n_head, head_dim, k, eps).1 is Ok <==> {
                &&& x_k.n_elements == k * n_head * head_dim
                &&& t.has(Kernel::HeadRmsNorm)
            }
        }),
{
    reveal(Trace::head_rms_norm_k);
}

/// `head_rms_norm` succeeds exactly when its kernels are there and its operands fit.
pub proof fn law_head_rms_norm_succeeds(
    t: Trace,
    x: DeferredBuf,
    n_head: u64,
    head_dim: u64,
    eps: F32,
)
    ensures
        ({
            t.head_rms_norm(x, n_head, head_dim, eps).1 is Ok <==> {
                &&& x.n_elements == n_head * head_dim
                &&& head_dim >= 1
                &&& t.has(Kernel::HeadRmsNorm)
            }
        }),
{
    reveal(Trace::head_rms_norm);
}

/// `rope_tail_in_place` succeeds exactly when its kernels are there and its operands fit.
pub proof fn law_rope_tail_in_place_succeeds(
    t: Trace,
    buf: DeferredBuf,
    byte_offset: u64,
    n_heads: u64,
    params: LayerParams,
    pos: u32,
    backward: bool,
)
    ensures
        ({
            let n_rot = params.n_rot as u64;
            t.rope_tail_in_place(buf, byte_offset, n_heads, params, pos, backward).1 is Ok <==> {
                &&& n_rot >= 2
                &&& n_rot % 2 == 0
                &&& byte_offset + n_heads * n_rot * 4 <= buf.n_elements * 4
                &&& t.has(Kernel::RopeTail)
            }
        }),
{
    reveal(Trace::rope_tail_in_place);
}

/// `rope_tail_q_heads_in_place` succeeds exactly when its kernels are there and its operands fit.
pub proof fn law_rope_tail_q_heads_in_place_succeeds(
    t: Trace,
    q_heads: DeferredBuf,
    n_head: u64,
    head_dim: u64,
    params: LayerParams,
    pos: u32,
    backward: bool,
)
    ensures
        ({
            let n_rot = params.n_rot as u64;
            t.rope_tail_q_heads_in_place(
                q_heads,
                n_head,
                head_dim,
                params,
                pos,
                backward,
            ).1 is Ok <==> {
                &&& n_rot >= 2
                &&& n_rot % 2 == 0
                &&& head_dim >= n_rot
                &&& q_heads.n_elements == n_head * head_dim
                &&& t.has(Kernel::RopeTail)
            }
        }),
{
    reveal(Trace::rope_tail_q_heads_in_place);
}

/// `softplus_sqrt` succeeds exactly when its kernels are there and its operands fit.
pub proof fn law_softplus_sqrt_succeeds(t: Trace, x: DeferredBuf)
    ensures
        ({
            let n = x.n_elements;
            t.softplus_sqrt(x).1 is Ok <==> {
                &&& n % 4 == 0
                &&& t.has(Kernel::SoftplusSqrt)
            }
        }),
{
    reveal(Trace::softplus_sqrt);
}

/// `encode_router_finalize` succeeds exactly when its kernels are there and its operands fit.
pub proof fn law_encode_router_finalize_succeeds(t: Trace, probs: DeferredBuf, bias: DeferredBuf)
    ensures
        ({
            let n_experts = probs.n_elements;
            let generic = t.engine.generic_router(n_experts);
            let kernels = spec_router_kernels(generic);
            t.encode_router_finalize(probs, bias).1 is Ok <==> {
                &&& n_experts != 0
                &&& n_experts <= 1024
                &&& bias.n_elements == n_experts
                &&& t.has(kernels.0)
                &&& t.has(kernels.1)
            }
        }),
{
    reveal(Trace::encode_router_finalize);
}

/// `encode_router_weights_one` succeeds exactly when its kernels are there and its operands fit.
pub proof fn law_encode_router_weights_one_succeeds(
    t: Trace,
    probs: DeferredBuf,
    selected: DeferredBuf,
)
    ensures
        ({
            let n_experts = probs.n_elements;
            let kernels = spec_router_kernels(t.engine.generic_router(n_experts));
            t.encode_router_weights_one(probs, selected).1 is Ok <==> {
                &&& n_experts != 0
                &&& n_experts <= 1024
                &&& selected.n_elements == 6
                &&& t.has(kernels.1)
            }
        }),
{
    reveal(Trace::encode_router_weights_one);
}

/// `encode_router_finalize_k` succeeds exactly when its kernels are there and its operands fit.
pub proof fn law_encode_router_finalize_k_succeeds(
    t: Trace,
    probs_k: DeferredBuf,
    bias: DeferredBuf,
    k: u64,
)
    ensures
        ({
            let n_experts = bias.n_elements;
            let generic = t.engine.generic_router(n_experts);
            let kernels = spec_router_kernels(generic);
            t.encode_router_finalize_k(probs_k, bias, k).1 is Ok <==> {
                &&& n_experts != 0
                &&& n_experts <= 1024
                &&& probs_k.n_elements == k * n_experts
                &&& t.has(kernels.0)
                &&& t.has(kernels.1)
            }
        }),
{
    reveal(Trace::encode_router_finalize_k);
}

/// `encode_router_finalize_flat_k` succeeds exactly when its kernels are there and its
/// operands fit.
pub proof fn law_encode_router_finalize_flat_k_succeeds(
    t: Trace,
    probs_k: DeferredBuf,
    bias: DeferredBuf,
    k: u64,
)
    ensures
        ({
            let n_experts = bias.n_elements;
            t.encode_router_finalize_flat_k(probs_k, bias, k).1 is Ok <==> {
                &&& n_experts != 0
                &&& n_experts <= 1024
                &&& probs_k.n_elements == k * n_experts
            }
        }),
{
    reveal(Trace::encode_router_finalize_flat_k);
}

/// `flash_attn_k_mla` succeeds exactly when its kernels are there and its operands fit.
pub proof fn law_flash_attn_k_mla_succeeds(
    t: Trace,
    q_k: DeferredBuf,
    kv_cache: DeferredBuf,
    n_head: u64,
    dk: u64,
    dv: u64,
    n_cache: u64,
    k: u64,
    scale: F32,
    base_pos: u32,
    sinks: DeferredBuf,
)
    ensures
        ({
            t.flash_attn_k_mla(
                q_k,
                kv_cache,
                n_head,
                dk,
                dv,
                n_cache,
                k,
                scale,
                base_pos,
                sinks,
            ).1 is Ok <==> {
                &&& q_k.n_elements == k * n_head * dk
                &&& sinks.n_elements == n_head
                &&& dk == 512
                &&& dv == 512
                &&& n_cache % 8 == 0
                &&& (k == 1 || k == 2 || k == 4 || k == 8)
            }
        }),
{
    reveal(Trace::flash_attn_k_mla);
}

/// `flash_attn_k_mla_comp` succeeds exactly when its kernels are there and its operands fit.
pub proof fn law_flash_attn_k_mla_comp_succeeds(
    t: Trace,
    q_k: DeferredBuf,
    kv_cache: DeferredBuf,
    comp_ring: BufId,
    n_comp: u32,
    comp_avail: Seq<u32>,
    n_head: u64,
    dk: u64,
    dv: u64,
    n_cache: u64,
    k: u64,
    scale: F32,
    base_pos: u32,
    sinks: DeferredBuf,
)
    ensures
        ({
            t.flash_attn_k_mla_comp(
                q_k,
                kv_cache,
                comp_ring,
                n_comp,
                comp_avail,
                n_head,
                dk,
                dv,
                n_cache,
                k,
                scale,
                base_pos,
                sinks,
            ).1 is Ok <==> {
                &&& q_k.n_elements == k * n_head * dk
                &&& sinks.n_elements == n_head
                &&& dk == 512
                &&& dv == 512
                &&& n_cache % 8 == 0
                &&& (k == 1 || k == 2 || k == 4 || k == 8)
                &&& comp_avail.len() as u64 == n_comp
            }
        }),
{
    reveal(Trace::flash_attn_k_mla_comp);
}

/// `flash_attn_k_mla_comp_masked` succeeds exactly when its kernels are there and its operands fit.
pub proof fn law_flash_attn_k_mla_comp_masked_succeeds(
    t: Trace,
    q_k: DeferredBuf,
    kv_window: DeferredBuf,
    comp_ring: BufId,
    n_comp: u32,
    mask: HostRef,
    n_head: u64,
    dk: u64,
    dv: u64,
    n_cache: u64,
    k: u64,
    scale: F32,
    sinks: DeferredBuf,
)
    ensures
        ({
            t.flash_attn_k_mla_comp_masked(
                q_k,
                kv_window,
                comp_ring,
                n_comp,
                mask,
                n_head,
                dk,
                dv,
                n_cache,
                k,
                scale,
                sinks,
            ).1 is Ok <==> {
                &&& q_k.n_elements == k * n_head * dk
                &&& sinks.n_elements == n_head
                &&& dk == 512
                &&& dv == 512
                &&& n_cache % 8 == 0
                &&& (k == 1 || k == 2 || k == 4 || k == 8)
                &&& mask.len == k * (n_cache + n_comp)
            }
        }),
{
    reveal(Trace::flash_attn_k_mla_comp_masked);
}

/// `compressor_prefill_noidx` succeeds exactly when its kernels are there and its operands fit.
pub proof fn law_compressor_prefill_noidx_succeeds(
    t: Trace,
    kv: DeferredBuf,
    sc: DeferredBuf,
    ape: HostRef,
    norm: HostRef,
    comp_ring: BufId,
    head_dim: u32,
    ratio: u32,
    n_rot: u32,
    chunk_start: u32,
    comp_row0: u32,
    n_comp: u32,
    params: LayerParams,
    rms_eps: F32,
)
    ensures
        ({
            t.compressor_prefill_noidx(
                kv,
                sc,
                ape,
                norm,
                comp_ring,
                head_dim,
                ratio,
                n_rot,
                chunk_start,
                comp_row0,
                n_comp,
                params,
                rms_eps,
            ).1 is Ok <==> {
                &&& ratio != 0
                &&& ratio != 4
                &&& n_rot % 2 == 0
                &&& n_rot <= head_dim
                &&& head_dim <= 1024
                &&& ape.len == head_dim * ratio
                &&& norm.len == head_dim
                &&& (n_comp == 0 || t.has(Kernel::CompressorPrefillNoidx))
            }
        }),
{
    reveal(Trace::compressor_prefill_noidx);
}

/// `compressor_prefill_idx` succeeds exactly when its kernels are there and its operands fit.
pub proof fn law_compressor_prefill_idx_succeeds(
    t: Trace,
    kv: DeferredBuf,
    sc: DeferredBuf,
    ape: HostRef,
    norm: HostRef,
    comp_ring: BufId,
    head_dim: u32,
    n_rot: u32,
    chunk_start: u32,
    comp_row0: u32,
    n_comp: u32,
    params: LayerParams,
    rms_eps: F32,
)
    ensures
        ({
            t.compressor_prefill_idx(
                kv,
                sc,
                ape,
                norm,
                comp_ring,
                head_dim,
                n_rot,
                chunk_start,
                comp_row0,
                n_comp,
                params,
                rms_eps,
            ).1 is Ok <==> {
                &&& n_rot % 2 == 0
                &&& n_rot <= head_dim
                &&& ape.len == 2 * head_dim * 4
                &&& norm.len == head_dim
            }
        }),
{
    reveal(Trace::compressor_prefill_idx);
}

/// `compressor_pool_fill_noidx` succeeds exactly when its kernels are there and its operands fit.
pub proof fn law_compressor_pool_fill_noidx_succeeds(
    t: Trace,
    kv: DeferredBuf,
    sc: DeferredBuf,
    ape: HostRef,
    state_kv: BufId,
    state_score: BufId,
    head_dim: u32,
    ratio: u32,
    chunk_start: u32,
    first: u32,
    rem: u32,
)
    ensures
        ({
            t.compressor_pool_fill_noidx(
                kv,
                sc,
                ape,
                state_kv,
                state_score,
                head_dim,
                ratio,
                chunk_start,
                first,
                rem,
            ).1 is Ok <==> {
                &&& (
                    rem == 0 || (
                        rem <= ratio && ape.len == head_dim * ratio && t.has(
                            Kernel::CompressorPoolFillNoidx,
                        )
                    )
                )
            }
        }),
{
    reveal(Trace::compressor_pool_fill_noidx);
}

/// `kv_fp8_store_persistent_k` succeeds exactly when its kernels are there and its operands fit.
pub proof fn law_kv_fp8_store_persistent_k_succeeds(
    t: Trace,
    layer: u32,
    kv_row_k: DeferredBuf,
    params: LayerParams,
    raw_cap: u32,
    base_slot: u32,
    k: u64,
)
    ensures
        ({
            t.kv_fp8_store_persistent_k(
                layer,
                kv_row_k,
                params,
                raw_cap,
                base_slot,
                k,
            ).1 is Ok <==> {
                &&& kv_row_k.n_elements == k * params.n_lora_kv
                &&& raw_cap != 0
                &&& base_slot + k <= raw_cap
                &&& (
                    t.has(Kernel::KvFp8Store) || (
                        t.config.kv_merge == KvMerge::Kernel && t.has(Kernel::KvFp8StoreK)
                    )
                )
            }
        }),
{
    reveal(Trace::kv_fp8_store_persistent_k);
}

/// `matvec_f32` succeeds exactly when its kernels are there and its operands fit.
pub proof fn law_matvec_f32_succeeds(
    t: Trace,
    w: DeferredBuf,
    x: DeferredBuf,
    d_in: u64,
    d_out: u64,
)
    ensures
        ({
            t.matvec_f32(w, x, d_in, d_out).1 is Ok <==> {
                &&& w.n_elements == d_in * d_out
                &&& x.n_elements == d_in
                &&& d_in % 4 == 0
                &&& d_out % 2 == 0
            }
        }),
{
    reveal(Trace::matvec_f32);
}

/// `matvec_f16` succeeds exactly when its kernels are there and its operands fit.
pub proof fn law_matvec_f16_succeeds(
    t: Trace,
    w: DeferredBuf,
    x: DeferredBuf,
    d_in: u64,
    d_out: u64,
)
    ensures
        ({
            t.matvec_f16(w, x, d_in, d_out).1 is Ok <==> {
                &&& w.n_elements == d_in * d_out
                &&& x.n_elements == d_in
                &&& d_in % 4 == 0
                &&& d_out % 2 == 0
            }
        }),
{
    reveal(Trace::matvec_f16);
}

/// `matmul_f16_k` succeeds exactly when its kernels are there and its operands fit.
pub proof fn law_matmul_f16_k_succeeds(
    t: Trace,
    w: DeferredBuf,
    x_k: DeferredBuf,
    d_in: u64,
    d_out: u64,
    k: u64,
)
    ensures
        ({
            t.matmul_f16_k(w, x_k, d_in, d_out, k).1 is Ok <==> {
                &&& d_in != 0
                &&& d_out != 0
                &&& k != 0
                &&& w.n_elements == d_in * d_out
                &&& x_k.n_elements == k * d_in
                &&& d_in % 4 == 0
                &&& d_out % 2 == 0
            }
        }),
{
    reveal(Trace::matmul_f16_k);
}

/// `matmul_f32_k` succeeds exactly when its kernels are there and its operands fit.
pub proof fn law_matmul_f32_k_succeeds(
    t: Trace,
    w: DeferredBuf,
    x_k: DeferredBuf,
    d_in: u64,
    d_out: u64,
    k: u64,
)
    ensures
        ({
            t.matmul_f32_k(w, x_k, d_in, d_out, k).1 is Ok <==> {
                &&& d_in != 0
                &&& d_out != 0
                &&& k != 0
                &&& w.n_elements == d_in * d_out
                &&& x_k.n_elements == k * d_in
                &&& d_in % 4 == 0
                &&& d_out % 2 == 0
            }
        }),
{
    reveal(Trace::matmul_f32_k);
}

/// `matvec_q8_0` succeeds exactly when its kernels are there and its operands fit.
pub proof fn law_matvec_q8_0_succeeds(
    t: Trace,
    w_q8: DeferredBuf,
    x: DeferredBuf,
    d_in: u64,
    d_out: u64,
)
    ensures
        ({
            t.matvec_q8_0(w_q8, x, d_in, d_out).1 is Ok <==> {
                &&& w_q8.n_elements == d_in * d_out
                &&& x.n_elements == d_in
                &&& d_in % 32 == 0
                &&& d_out % 2 == 0
            }
        }),
{
    reveal(Trace::matvec_q8_0);
}

/// `matvec_q8_0_pair_concurrent` succeeds exactly when its kernels are there and its operands fit.
pub proof fn law_matvec_q8_0_pair_concurrent_succeeds(
    t: Trace,
    w_a: DeferredBuf,
    x_a: DeferredBuf,
    d_in_a: u64,
    d_out_a: u64,
    w_b: DeferredBuf,
    x_b: DeferredBuf,
    d_in_b: u64,
    d_out_b: u64,
)
    ensures
        ({
            t.matvec_q8_0_pair_concurrent(
                w_a,
                x_a,
                d_in_a,
                d_out_a,
                w_b,
                x_b,
                d_in_b,
                d_out_b,
            ).1 is Ok <==> {
                &&& w_a.n_elements == d_in_a * d_out_a
                &&& x_a.n_elements == d_in_a
                &&& d_in_a % 32 == 0
                &&& d_out_a % 2 == 0
                &&& w_b.n_elements == d_in_b * d_out_b
                &&& x_b.n_elements == d_in_b
                &&& d_in_b % 32 == 0
                &&& d_out_b % 2 == 0
            }
        }),
{
    reveal(Trace::matvec_q8_0_pair_concurrent);
}

/// `hc_expand_add` succeeds exactly when its kernels are there and its operands fit.
pub proof fn law_hc_expand_add_succeeds(
    t: Trace,
    shared_out: DeferredBuf,
    routed_out: DeferredBuf,
    after_attn_hc: DeferredBuf,
    post: DeferredBuf,
    comb: DeferredBuf,
    n_hc: u64,
    d_embd: u64,
)
    ensures
        ({
            t.hc_expand_add(
                shared_out,
                routed_out,
                after_attn_hc,
                post,
                comb,
                n_hc,
                d_embd,
            ).1 is Ok <==> {
                &&& shared_out.n_elements == d_embd
                &&& routed_out.n_elements == d_embd
                &&& after_attn_hc.n_elements == n_hc * d_embd
                &&& post.n_elements == n_hc
                &&& comb.n_elements == n_hc * n_hc
                &&& t.has(Kernel::HcExpand)
            }
        }),
{
    reveal(Trace::hc_expand_add);
}

/// `hc_expand_attn` succeeds exactly when its kernels are there and its operands fit.
pub proof fn law_hc_expand_attn_succeeds(
    t: Trace,
    attn_out: DeferredBuf,
    cur_hc: DeferredBuf,
    post: DeferredBuf,
    comb: DeferredBuf,
    n_hc: u64,
    d_embd: u64,
)
    ensures
        ({
            t.hc_expand_attn(attn_out, cur_hc, post, comb, n_hc, d_embd).1 is Ok <==> {
                &&& attn_out.n_elements == d_embd
                &&& cur_hc.n_elements == n_hc * d_embd
                &&& post.n_elements == n_hc
                &&& comb.n_elements == n_hc * n_hc
                &&& t.has(Kernel::HcExpand)
            }
        }),
{
    reveal(Trace::hc_expand_attn);
}

/// `encode_indexer_topk_batched` succeeds exactly when its kernels are there and its operands fit.
pub proof fn law_encode_indexer_topk_batched_succeeds(
    t: Trace,
    scores: DeferredBuf,
    n_comp: u64,
    n_tokens: u64,
    top_k: u64,
)
    ensures
        ({
            t.encode_indexer_topk_batched(scores, n_comp, n_tokens, top_k).1 is Ok <==> {
                &&& n_comp != 0
                &&& top_k <= n_comp
                &&& scores.n_elements == n_tokens * n_comp
            }
        }),
{
    reveal(Trace::encode_indexer_topk_batched);
    reveal(Trace::encode_indexer_topk_batched_threshold);
}

/// `encode_pair_swiglu_K_iq2_xxs` succeeds exactly when its kernels are there and its operands fit.
#[allow(non_snake_case)]
pub proof fn law_encode_pair_swiglu_K_iq2_xxs_succeeds(
    t: Trace,
    gate_w: DeferredBuf,
    up_w: DeferredBuf,
    x_k: DeferredBuf,
    ids_flat: DeferredBuf,
    weights_flat: DeferredBuf,
    d_in: u64,
    d_ffn: u64,
    k: u64,
)
    ensures
        ({
            t.encode_pair_swiglu_K_iq2_xxs(
                gate_w,
                up_w,
                x_k,
                ids_flat,
                weights_flat,
                d_in,
                d_ffn,
                k,
            ).1 is Ok <==> {
                &&& d_in % 256 == 0
                &&& x_k.n_elements == k * d_in
                &&& ids_flat.n_elements == k * 6
                &&& weights_flat.n_elements == k * 6
            }
        }),
{
    reveal(Trace::encode_pair_swiglu_K_iq2_xxs);
}

/// `encode_pair_swiglu_K_q4_K` succeeds exactly when its kernels are there and its operands fit.
#[allow(non_snake_case)]
pub proof fn law_encode_pair_swiglu_K_q4_K_succeeds(
    t: Trace,
    gate_w: DeferredBuf,
    up_w: DeferredBuf,
    x_k: DeferredBuf,
    ids_flat: DeferredBuf,
    weights_flat: DeferredBuf,
    d_in: u64,
    d_ffn: u64,
    k: u64,
)
    ensures
        ({
            t.encode_pair_swiglu_K_q4_K(
                gate_w,
                up_w,
                x_k,
                ids_flat,
                weights_flat,
                d_in,
                d_ffn,
                k,
            ).1 is Ok <==> {
                &&& d_in % 256 == 0
                &&& x_k.n_elements == k * d_in
                &&& ids_flat.n_elements == k * 6
                &&& weights_flat.n_elements == k * 6
            }
        }),
{
    reveal(Trace::encode_pair_swiglu_K_q4_K);
}

/// `encode_router_logits` succeeds exactly when its kernels are there and its operands fit.
pub proof fn law_encode_router_logits_succeeds(
    t: Trace,
    w_router: DeferredBuf,
    h_norm: DeferredBuf,
    n_experts: u64,
    w_router_is_f16: bool,
)
    ensures
        ({
            t.encode_router_logits(w_router, h_norm, n_experts, w_router_is_f16).1 is Ok <==> {
                &&& w_router.n_elements == n_experts * h_norm.n_elements
                &&& h_norm.n_elements % 4 == 0
                &&& n_experts % 4 == 0
                &&& t.has(Kernel::SoftplusSqrt)
            }
        }),
{
    reveal(Trace::encode_router_logits);
    reveal(Trace::matvec_f32);
    reveal(Trace::matvec_f16);
    reveal(Trace::softplus_sqrt);
    assert(h_norm.n_elements * n_experts == n_experts * h_norm.n_elements) by (nonlinear_arith);
}

/// The drafter's input is mixed exactly when its operands fit: one embedding, one, two,
/// four or eight streams, and weights of their width.
pub proof fn law_encode_mtp_input_mix_succeeds(
    t: Trace,
    token_embed: DeferredBuf,
    prev_hc: DeferredBuf,
    mix: MtpDraftInputMix,
    n_embd: u64,
    n_hc: u64,
    rms_eps: F32,
)
    requires
        !t.config.q8_faithful,
        n_hc * n_embd <= u64::MAX,
    ensures
        ({
            t.encode_mtp_input_mix(token_embed, prev_hc, mix, n_embd, n_hc, rms_eps).1 is Ok <==> {
                &&& token_embed.n_elements == n_embd
                &&& prev_hc.n_elements == n_hc * n_embd
                &&& (n_hc == 1 || n_hc == 2 || n_hc == 4 || n_hc == 8)
                &&& mix.enorm_gamma.n_elements == n_embd
                &&& mix.hnorm_gamma.n_elements == n_embd
                &&& mix.e_proj_q8.n_elements == n_embd * n_embd
                &&& mix.h_proj_q8.n_elements == n_embd * n_embd
                &&& n_embd % 32 == 0
                &&& t.has(Kernel::RmsNormMul)
            }
        }),
{
    reveal(Trace::encode_mtp_input_mix);
    reveal(Trace::rms_norm_mul);
    reveal(Trace::rms_norm_mul_k);
    reveal(Trace::matvec_q8_0);
    reveal(Trace::matvec_k_q8_0);
    reveal(Trace::alloc_attn_out);
}

} // verus!
