//! No operation touches the settings of a recording: whatever it is asked for, and whether
//! it succeeds or not, the engine and the configuration stay as they are.

use crate::command::{
    Ape, Args, BufId, Command, DeferredBuf, F32, HostRef, MoeSwigluActArgs, MulMmIdArgs,
    MulMvIdArgs,
};
use crate::config::{
    BaseLayerVerifyBundle, CompVerifyCtx, Config, LayerAttnHalfOutsK, LayerParams,
    MtpDraftInputMix, MtpDraftLayerWeights, MtpDraftOutputHead, MtpDraftShape,
};
use crate::ffn::{FfnShape, FfnWeights};
use crate::hc::{Collapsed, hc_binds_at, mix_hc, spec_hc_args};
use crate::kernel::{Kernel, MmIdKernel, Pipe};
use crate::layer::{AttnOutput, AttnShape, AttnWeights, Place, emitted};
use crate::matmul::spec_group_rows;
use crate::moe::MmStage;
use crate::mtp::{HeadWeights, LayerShape, VerifyAt, ring_rows};
use crate::norm::spec_rope_args;
use crate::pool::PoolKey;
use crate::router::Routed;
use crate::trace::Trace;
use vstd::prelude::*;

verus! {

/// The recordings have one engine and one configuration.
pub open spec fn alike(a: Trace, b: Trace) -> bool {
    a.engine == b.engine && a.config == b.config
}

pub broadcast proof fn stays_after_layer(
    t: Trace,
    config: Config,
    cur: DeferredBuf,
    ratio: u32,
    hc_dim: u64,
    k: u64,
    i: int,
    n_layers: nat,
)
    ensures
        alike(t, #[trigger] t.after_layer(config, cur, ratio, hc_dim, k, i, n_layers)),
{
    reveal(Trace::after_layer);
}

pub broadcast proof fn stays_matvec_f32(
    t: Trace,
    w: DeferredBuf,
    x: DeferredBuf,
    d_in: u64,
    d_out: u64,
)
    ensures
        alike(t, (#[trigger] t.matvec_f32(w, x, d_in, d_out)).0),
{
    reveal(Trace::matvec_f32);
}

pub broadcast proof fn stays_comp_step(
    t: Trace,
    normed_k: DeferredBuf,
    n_embd: u64,
    head_dim: u64,
    w_kv: DeferredBuf,
    w_gate: DeferredBuf,
    ape: Ape,
    state_kv: BufId,
    state_score: BufId,
    ratio: u32,
    pos: u32,
    i: int,
)
    ensures
        alike(
            t,
            (
                #[trigger] t.comp_step(
                    normed_k,
                    n_embd,
                    head_dim,
                    w_kv,
                    w_gate,
                    ape,
                    state_kv,
                    state_score,
                    ratio,
                    pos,
                    i,
                )
            ).0,
        ),
{
    broadcast use {stays_matvec_f32};

    reveal(Trace::comp_step);
}

pub broadcast proof fn stays_rms_norm_mul(
    t: Trace,
    x: DeferredBuf,
    gamma: DeferredBuf,
    eps: F32,
)
    ensures
        alike(t, (#[trigger] t.rms_norm_mul(x, gamma, eps)).0),
{
    reveal(Trace::rms_norm_mul);
}

pub broadcast proof fn stays_rope_tail_in_place(
    t: Trace,
    buf: DeferredBuf,
    byte_offset: u64,
    n_heads: u64,
    params: LayerParams,
    pos: u32,
    backward: bool,
)
    ensures
        alike(
            t,
            (#[trigger] t.rope_tail_in_place(buf, byte_offset, n_heads, params, pos, backward)).0,
        ),
{
    reveal(Trace::rope_tail_in_place);
}

pub broadcast proof fn stays_emit_row(
    t: Trace,
    state_kv: BufId,
    state_score: BufId,
    w_norm: DeferredBuf,
    head_dim: u64,
    params: LayerParams,
    pos: u32,
    ring: BufId,
    ring_row: u64,
)
    ensures
        alike(
            t,
            (
                #[trigger] t.emit_row(
                    state_kv,
                    state_score,
                    w_norm,
                    head_dim,
                    params,
                    pos,
                    ring,
                    ring_row,
                )
            ).0,
        ),
{
    broadcast use {stays_rms_norm_mul, stays_rope_tail_in_place};

    reveal(Trace::emit_row);
}

pub broadcast proof fn stays_comp_rows(
    t: Trace,
    normed_k: DeferredBuf,
    n_embd: u64,
    head_dim: u64,
    weights: (DeferredBuf, DeferredBuf, DeferredBuf),
    ape: Ape,
    states: (BufId, BufId),
    ring: BufId,
    n_comp: u32,
    params: LayerParams,
    base_pos: u32,
    k: u64,
    i: int,
)
    ensures
        alike(
            t,
            (
                #[trigger] t.comp_rows(
                    normed_k,
                    n_embd,
                    head_dim,
                    weights,
                    ape,
                    states,
                    ring,
                    n_comp,
                    params,
                    base_pos,
                    k,
                    i,
                )
            ).0,
        ),
    decreases k - i,
{
    broadcast use {stays_comp_step, stays_emit_row};

    if !(i >= k) {
        let pos = (base_pos + i) as u32;
        let (t, r) = t.comp_step(
            normed_k,
            n_embd,
            head_dim,
            weights.0,
            weights.1,
            ape,
            states.0,
            states.1,
            params.compress_ratio,
            pos,
            i,
        );
        let (t, r) = if r is Ok && (pos + 1) % params.compress_ratio as int == 0 {
            t.emit_row(
                states.0,
                states.1,
                weights.2,
                head_dim,
                params,
                pos,
                ring,
                (n_comp + emitted(base_pos as int, params.compress_ratio as int, i).len()) as u64,
            )
        } else {
            (t, r)
        };
        if !(r is Err) {
            stays_comp_rows(t, normed_k,
                n_embd,
                head_dim,
                weights,
                ape,
                states,
                ring,
                n_comp,
                params,
                base_pos,
                k,
                i + 1);
        }
    }
}

pub broadcast proof fn stays_compress(
    t: Trace,
    ctx: CompVerifyCtx,
    normed_k: DeferredBuf,
    shape: AttnShape,
    place: Place,
    ring: BufId,
)
    ensures
        alike(t, (#[trigger] t.compress(ctx, normed_k, shape, place, ring)).0),
{
    broadcast use {stays_comp_rows};

    reveal(Trace::compress);
}

pub broadcast proof fn stays_flash_attn_k_mla(
    t: Trace,
    q_k: DeferredBuf,
    kv_cache: DeferredBuf,
    n_head: u64,
    dk: u64,
    dv: u64,
    n_cache: u64,
    k: u64,
    scale: F32,
    base_pos: u32,
    sinks: DeferredBuf,
)
    ensures
        alike(
            t,
            (
                #[trigger] t.flash_attn_k_mla(
                    q_k,
                    kv_cache,
                    n_head,
                    dk,
                    dv,
                    n_cache,
                    k,
                    scale,
                    base_pos,
                    sinks,
                )
            ).0,
        ),
{
    reveal(Trace::flash_attn_k_mla);
}

pub broadcast proof fn stays_flash_attn_k_mla_comp(
    t: Trace,
    q_k: DeferredBuf,
    kv_cache: DeferredBuf,
    comp_ring: BufId,
    n_comp: u32,
    comp_avail: Seq<u32>,
    n_head: u64,
    dk: u64,
    dv: u64,
    n_cache: u64,
    k: u64,
    scale: F32,
    base_pos: u32,
    sinks: DeferredBuf,
)
    ensures
        alike(
            t,
            (
                #[trigger] t.flash_attn_k_mla_comp(
                    q_k,
                    kv_cache,
                    comp_ring,
                    n_comp,
                    comp_avail,
                    n_head,
                    dk,
                    dv,
                    n_cache,
                    k,
                    scale,
                    base_pos,
                    sinks,
                )
            ).0,
        ),
{
    reveal(Trace::flash_attn_k_mla_comp);
}

pub broadcast proof fn stays_attend(
    t: Trace,
    half: LayerAttnHalfOutsK,
    kv_cache: DeferredBuf,
    shape: AttnShape,
    place: Place,
    flash_scale: F32,
    sinks: DeferredBuf,
    comp: Option<CompVerifyCtx>,
)
    ensures
        alike(t, (#[trigger] t.attend(half, kv_cache, shape, place, flash_scale, sinks, comp)).0),
{
    broadcast use {stays_compress, stays_flash_attn_k_mla, stays_flash_attn_k_mla_comp};

    reveal(Trace::attend);
}

pub broadcast proof fn stays_attn_low_rows(
    t: Trace,
    w_o_a: BufId,
    heads: BufId,
    low: BufId,
    n_groups: u64,
    n_lora_o: u64,
    group_dim: u64,
    out_low_dim: u64,
    k: u64,
    i: int,
)
    ensures
        alike(
            t,
            #[trigger] t.attn_low_rows(
                w_o_a,
                heads,
                low,
                n_groups,
                n_lora_o,
                group_dim,
                out_low_dim,
                k,
                i,
            ),
        ),
    decreases k - i,
{
    if !(i >= k) {
        stays_attn_low_rows(t.attn_low_launch(
                Kernel::AttnOutLowQ8,
                w_o_a,
                (heads, (i * (n_groups * group_dim * 4)) as u64),
                (low, (i * (out_low_dim * 4)) as u64),
                n_groups,
                n_lora_o,
                group_dim,
                out_low_dim,
                n_groups,
            ), w_o_a,
            heads,
            low,
            n_groups,
            n_lora_o,
            group_dim,
            out_low_dim,
            k,
            i + 1);
    }
}

pub broadcast proof fn stays_interleave_group_major(
    t: Trace,
    src: DeferredBuf,
    n_groups: u64,
    k: u64,
    n_lora_o: u64,
)
    ensures
        alike(t, (#[trigger] t.interleave_group_major(src, n_groups, k, n_lora_o)).0),
{
    reveal(Trace::interleave_group_major);
}

pub broadcast proof fn stays_alloc_attn_out(t: Trace, n: u64)
    ensures
        alike(t, (#[trigger] t.alloc_attn_out(n)).0),
{
    reveal(Trace::alloc_attn_out);
}

pub broadcast proof fn stays_matmul_k_q4_0(
    t: Trace,
    w_q4: DeferredBuf,
    x_k: DeferredBuf,
    d_in: u64,
    d_out: u64,
    k: u64,
)
    ensures
        alike(t, (#[trigger] t.matmul_k_q4_0(w_q4, x_k, d_in, d_out, k)).0),
{
    broadcast use {stays_alloc_attn_out};

    reveal(Trace::matmul_k_q4_0);
}

pub broadcast proof fn stays_matvec_q8_0(
    t: Trace,
    w_q8: DeferredBuf,
    x: DeferredBuf,
    d_in: u64,
    d_out: u64,
)
    ensures
        alike(t, (#[trigger] t.matvec_q8_0(w_q8, x, d_in, d_out)).0),
{
    reveal(Trace::matvec_q8_0);
}

pub broadcast proof fn stays_q8_rows(
    t: Trace,
    w_q8: DeferredBuf,
    x_k: DeferredBuf,
    d_in: u64,
    d_out: u64,
    k: u64,
    out: DeferredBuf,
    i: int,
)
    ensures
        alike(t, (#[trigger] t.q8_rows(w_q8, x_k, d_in, d_out, k, out, i)).0),
    decreases k - i,
{
    broadcast use {stays_matvec_q8_0};

    if !(i >= k) {
        let (t, xk) = t.slice_out_f32(x_k, (i * d_in) as u64, d_in);
        let (t, r) = t.matvec_q8_0(w_q8, xk, d_in, d_out);
        if !(r is Err) {
            stays_q8_rows(t.copy_buf_into(r->Ok_0, out.buf, (i * d_out) as u64), w_q8,
                x_k,
                d_in,
                d_out,
                k,
                out,
                i + 1);
        }
    }
}

pub broadcast proof fn stays_matvec_k_q8_0(
    t: Trace,
    w_q8: DeferredBuf,
    x_k: DeferredBuf,
    d_in: u64,
    d_out: u64,
    k: u64,
)
    ensures
        alike(t, (#[trigger] t.matvec_k_q8_0(w_q8, x_k, d_in, d_out, k)).0),
{
    broadcast use {stays_q8_rows};

    reveal(Trace::matvec_k_q8_0);
}

pub broadcast proof fn stays_grouped_rows(
    t: Trace,
    w_q8: DeferredBuf,
    x_k: DeferredBuf,
    d_in: u64,
    d_out: u64,
    k: u64,
    out: DeferredBuf,
    r: int,
)
    ensures
        alike(t, (#[trigger] t.grouped_rows(w_q8, x_k, d_in, d_out, k, out, r)).0),
    decreases k - r,
{
    broadcast use {stays_matvec_k_q8_0};

    if !(r >= k) {
        let g = spec_group_rows(k - r);
        let (t, x_g) = t.slice_out_f32(x_k, (r * d_in) as u64, (g * d_in) as u64);
        let (t, res) = t.matvec_k_q8_0(w_q8, x_g, d_in, d_out, g);
        if !(res is Err) {
            stays_grouped_rows(t.copy_buf_into(res->Ok_0, out.buf, (r * d_out) as u64), w_q8,
                x_k,
                d_in,
                d_out,
                k,
                out,
                r + g);
        }
    }
}

pub broadcast proof fn stays_cast_f32_to_f16_contig(
    t: Trace,
    src: DeferredBuf,
    n: u64,
)
    ensures
        alike(t, (#[trigger] t.cast_f32_to_f16_contig(src, n)).0),
{
    reveal(Trace::cast_f32_to_f16_contig);
}

pub broadcast proof fn stays_matmul_k_q8_0(
    t: Trace,
    w_q8: DeferredBuf,
    x_k: DeferredBuf,
    d_in: u64,
    d_out: u64,
    k: u64,
)
    ensures
        alike(t, (#[trigger] t.matmul_k_q8_0(w_q8, x_k, d_in, d_out, k)).0),
{
    broadcast use {stays_alloc_attn_out, stays_cast_f32_to_f16_contig, stays_q8_rows};

    reveal(Trace::matmul_k_q8_0);
}

pub broadcast proof fn stays_matmul_k_q8_0_auto(
    t: Trace,
    w_q8: DeferredBuf,
    x_k: DeferredBuf,
    d_in: u64,
    d_out: u64,
    k: u64,
)
    ensures
        alike(t, (#[trigger] t.matmul_k_q8_0_auto(w_q8, x_k, d_in, d_out, k)).0),
{
    broadcast use {stays_grouped_rows, stays_matmul_k_q8_0, stays_matvec_k_q8_0};

    reveal(Trace::matmul_k_q8_0_auto);
}

pub broadcast proof fn stays_requantized(
    t: Trace,
    w_q8: DeferredBuf,
    d_in: u64,
    d_out: u64,
)
    ensures
        alike(t, (#[trigger] t.requantized(w_q8, d_in, d_out)).0),
{
    reveal(Trace::requantized);
}

pub broadcast proof fn stays_matmul_k_attn_proj(
    t: Trace,
    w_q8: DeferredBuf,
    x_k: DeferredBuf,
    d_in: u64,
    d_out: u64,
    k: u64,
)
    ensures
        alike(t, (#[trigger] t.matmul_k_attn_proj(w_q8, x_k, d_in, d_out, k)).0),
{
    broadcast use {stays_matmul_k_q4_0, stays_matmul_k_q8_0_auto, stays_requantized};

    reveal(Trace::matmul_k_attn_proj);
}

pub broadcast proof fn stays_matmul_k_q8_0_grouped(
    t: Trace,
    w_q8: DeferredBuf,
    x_k: DeferredBuf,
    group_dim: u64,
    n_lora_o: u64,
    n_groups: u64,
    k: u64,
)
    ensures
        alike(
            t,
            (#[trigger] t.matmul_k_q8_0_grouped(w_q8, x_k, group_dim, n_lora_o, n_groups, k)).0,
        ),
{
    reveal(Trace::matmul_k_q8_0_grouped);
}

pub broadcast proof fn stays_encode_attn_output_matmuls_q8_k(
    t: Trace,
    heads_k: DeferredBuf,
    w_o_a_q8: DeferredBuf,
    w_o_b_q8: DeferredBuf,
    n_groups: u64,
    n_lora_o: u64,
    group_dim: u64,
    out_low_dim: u64,
    d_embd: u64,
    k: u64,
)
    ensures
        alike(
            t,
            (
                #[trigger] t.encode_attn_output_matmuls_q8_k(
                    heads_k,
                    w_o_a_q8,
                    w_o_b_q8,
                    n_groups,
                    n_lora_o,
                    group_dim,
                    out_low_dim,
                    d_embd,
                    k,
                )
            ).0,
        ),
{
    broadcast use {
        stays_attn_low_rows,
        stays_interleave_group_major,
        stays_matmul_k_attn_proj,
        stays_matmul_k_q8_0_grouped,
    };

    reveal(Trace::encode_attn_output_matmuls_q8_k);
}

pub broadcast proof fn stays_store_rows(
    t: Trace,
    cache: BufId,
    rows: BufId,
    params: LayerParams,
    base_slot: u32,
    own_encoder: bool,
    k: u64,
    i: int,
)
    ensures
        alike(t, #[trigger] t.store_rows(cache, rows, params, base_slot, own_encoder, k, i)),
    decreases k - i,
{
    if !(i >= k) {
        let t = if own_encoder {
            t.put(Command::Encoder).put(
                Command::Pipeline(Pipe::Loaded(Kernel::KvFp8Store)),
            )
        } else {
            t
        };
        let t = t.store_bind(
            cache,
            rows,
            (i * (params.n_lora_kv * 4)) as u64,
            params,
            (base_slot + i) as u32,
            1,
        );
        let t = if own_encoder {
            t.put(Command::EndEncoder)
        } else {
            t
        };
        stays_store_rows(t, cache, rows, params, base_slot, own_encoder, k, i + 1);
    }
}

pub broadcast proof fn stays_kv_fp8_store_persistent_k(
    t: Trace,
    layer: u32,
    kv_row_k: DeferredBuf,
    params: LayerParams,
    raw_cap: u32,
    base_slot: u32,
    k: u64,
)
    ensures
        alike(
            t,
            (
                #[trigger] t.kv_fp8_store_persistent_k(
                    layer,
                    kv_row_k,
                    params,
                    raw_cap,
                    base_slot,
                    k,
                )
            ).0,
        ),
{
    broadcast use {stays_store_rows};

    reveal(Trace::kv_fp8_store_persistent_k);
}

pub broadcast proof fn stays_rope_q_rows(
    t: Trace,
    q_heads_k: DeferredBuf,
    n_head: u64,
    head_dim: u64,
    params: LayerParams,
    base_pos: u32,
    k: u64,
    backward: bool,
    freqs: BufId,
    i: int,
)
    ensures
        alike(
            t,
            #[trigger] t.rope_q_rows(
                q_heads_k,
                n_head,
                head_dim,
                params,
                base_pos,
                k,
                backward,
                freqs,
                i,
            ),
        ),
    decreases k - i,
{
    if !(i >= k) {
        let args = spec_rope_args(
            params,
            head_dim,
            (base_pos + i) as u32,
            n_head,
            4,
            backward,
        );
        let (t, pos) = t.upload_word(args.pos);
        let off = ((i * (n_head * head_dim) + (head_dim - params.n_rot)) * 4) as u64;
        stays_rope_q_rows(t.rope_launch(
            q_heads_k.buf,
            off,
            pos.buf,
            freqs,
            args,
            (n_head, 1, 1),
        ), q_heads_k,
            n_head,
            head_dim,
            params,
            base_pos,
            k,
            backward,
            freqs,
            i + 1);
    }
}

pub broadcast proof fn stays_rope_tail_k_fused(
    t: Trace,
    buf: DeferredBuf,
    byte_offset: u64,
    n_heads: u64,
    head_dim: u64,
    k_row_stride_floats: u64,
    params: LayerParams,
    base_pos: u32,
    k: u64,
    backward: bool,
)
    ensures
        alike(
            t,
            (
                #[trigger] t.rope_tail_k_fused(
                    buf,
                    byte_offset,
                    n_heads,
                    head_dim,
                    k_row_stride_floats,
                    params,
                    base_pos,
                    k,
                    backward,
                )
            ).0,
        ),
{
    reveal(Trace::rope_tail_k_fused);
}

pub broadcast proof fn stays_rope_tail_q_heads_in_place_k(
    t: Trace,
    q_heads_k: DeferredBuf,
    n_head: u64,
    head_dim: u64,
    params: LayerParams,
    base_pos: u32,
    k: u64,
    backward: bool,
)
    ensures
        alike(
            t,
            (
                #[trigger] t.rope_tail_q_heads_in_place_k(
                    q_heads_k,
                    n_head,
                    head_dim,
                    params,
                    base_pos,
                    k,
                    backward,
                )
            ).0,
        ),
{
    broadcast use {stays_rope_q_rows, stays_rope_tail_k_fused};

    reveal(Trace::rope_tail_q_heads_in_place_k);
}

pub broadcast proof fn stays_attn_tail(
    t: Trace,
    half: LayerAttnHalfOutsK,
    shape: AttnShape,
    out: AttnOutput,
    place: Place,
    comp: Option<CompVerifyCtx>,
)
    ensures
        alike(t, (#[trigger] t.attn_tail(half, shape, out, place, comp)).0),
{
    broadcast use {
        stays_attend,
        stays_encode_attn_output_matmuls_q8_k,
        stays_kv_fp8_store_persistent_k,
        stays_rope_tail_q_heads_in_place_k,
    };

    reveal(Trace::attn_tail);
}

pub broadcast proof fn stays_head_rms_norm_k(
    t: Trace,
    x_k: DeferredBuf,
    n_head: u64,
    head_dim: u64,
    k: u64,
    eps: F32,
)
    ensures
        alike(t, (#[trigger] t.head_rms_norm_k(x_k, n_head, head_dim, k, eps)).0),
{
    broadcast use {stays_alloc_attn_out};

    reveal(Trace::head_rms_norm_k);
}

pub broadcast proof fn stays_rms_norm_mul_k(
    t: Trace,
    x_k: DeferredBuf,
    gamma: DeferredBuf,
    n: u64,
    k: u64,
    eps: F32,
)
    ensures
        alike(t, (#[trigger] t.rms_norm_mul_k(x_k, gamma, n, k, eps)).0),
{
    broadcast use {stays_alloc_attn_out};

    reveal(Trace::rms_norm_mul_k);
}

pub broadcast proof fn stays_encode_attn_qkv_chain_k(
    t: Trace,
    normed_k: DeferredBuf,
    q_a: DeferredBuf,
    gamma_q: DeferredBuf,
    q_b: DeferredBuf,
    kv: DeferredBuf,
    n_lora_q: u64,
    n_head: u64,
    head_dim: u64,
    eps: F32,
    kv_row: u64,
    d_embd: u64,
    k: u64,
)
    ensures
        alike(
            t,
            (
                #[trigger] t.encode_attn_qkv_chain_k(
                    normed_k,
                    q_a,
                    gamma_q,
                    q_b,
                    kv,
                    n_lora_q,
                    n_head,
                    head_dim,
                    eps,
                    kv_row,
                    d_embd,
                    k,
                )
            ).0,
        ),
{
    broadcast use {
        stays_head_rms_norm_k,
        stays_matmul_k_attn_proj,
        stays_rms_norm_mul_k,
    };

    reveal(Trace::encode_attn_qkv_chain_k);
}

pub broadcast proof fn stays_fused_hc_collapse_stage12(
    t: Trace,
    hc_fn: DeferredBuf,
    prev_hc: DeferredBuf,
    hc_dim: u64,
    mix: u64,
    eps: F32,
    hc_fn_is_f16: bool,
)
    ensures
        alike(
            t,
            (
                #[trigger] t.fused_hc_collapse_stage12(
                    hc_fn,
                    prev_hc,
                    hc_dim,
                    mix,
                    eps,
                    hc_fn_is_f16,
                )
            ).0,
        ),
{
    reveal(Trace::fused_hc_collapse_stage12);
}

pub broadcast proof fn stays_hc_split_weighted_sum_norm4(
    t: Trace,
    mixes: DeferredBuf,
    scale: DeferredBuf,
    base: DeferredBuf,
    x: DeferredBuf,
    gamma: DeferredBuf,
    n_hc: u64,
    n_embd: u64,
    sinkhorn_iters: i32,
    hc_eps: F32,
    rms_eps: F32,
)
    ensures
        alike(
            t,
            (
                #[trigger] t.hc_split_weighted_sum_norm4(
                    mixes,
                    scale,
                    base,
                    x,
                    gamma,
                    n_hc,
                    n_embd,
                    sinkhorn_iters,
                    hc_eps,
                    rms_eps,
                )
            ).0,
        ),
{
    reveal(Trace::hc_split_weighted_sum_norm4);
}

pub broadcast proof fn stays_matvec_f16(
    t: Trace,
    w: DeferredBuf,
    x: DeferredBuf,
    d_in: u64,
    d_out: u64,
)
    ensures
        alike(t, (#[trigger] t.matvec_f16(w, x, d_in, d_out)).0),
{
    reveal(Trace::matvec_f16);
}

pub broadcast proof fn stays_hc_collapse_norm(
    t: Trace,
    prev_hc: DeferredBuf,
    hc_fn: DeferredBuf,
    hc_scale: DeferredBuf,
    hc_base: DeferredBuf,
    gamma: DeferredBuf,
    n_hc: u64,
    n_embd: u64,
    sinkhorn_iters: i32,
    hc_eps: F32,
    rms_eps: F32,
    unit_gamma: DeferredBuf,
    hc_fn_is_f16: bool,
)
    ensures
        alike(
            t,
            (
                #[trigger] t.hc_collapse_norm(
                    prev_hc,
                    hc_fn,
                    hc_scale,
                    hc_base,
                    gamma,
                    n_hc,
                    n_embd,
                    sinkhorn_iters,
                    hc_eps,
                    rms_eps,
                    unit_gamma,
                    hc_fn_is_f16,
                )
            ).0,
        ),
{
    broadcast use {
        stays_fused_hc_collapse_stage12,
        stays_hc_split_weighted_sum_norm4,
        stays_matvec_f16,
        stays_matvec_f32,
        stays_rms_norm_mul,
    };

    reveal(Trace::hc_collapse_norm);
}

pub broadcast proof fn stays_keep_collapsed(
    t: Trace,
    from: Collapsed,
    outs: Collapsed,
    mix: u64,
    n_embd: u64,
    i: int,
)
    ensures
        alike(t, #[trigger] t.keep_collapsed(from, outs, mix, n_embd, i)),
{
    reveal(Trace::keep_collapsed);
}

pub broadcast proof fn stays_hc_collapse_rows(
    t: Trace,
    prev_hc_k: DeferredBuf,
    hc_fn: DeferredBuf,
    hc_scale: DeferredBuf,
    hc_base: DeferredBuf,
    gamma: DeferredBuf,
    n_hc: u64,
    n_embd: u64,
    sinkhorn_iters: i32,
    hc_eps: F32,
    rms_eps: F32,
    unit_gamma: DeferredBuf,
    hc_fn_is_f16: bool,
    outs: Collapsed,
    k: u64,
    i: int,
)
    ensures
        alike(
            t,
            (
                #[trigger] t.hc_collapse_rows(
                    prev_hc_k,
                    hc_fn,
                    hc_scale,
                    hc_base,
                    gamma,
                    n_hc,
                    n_embd,
                    sinkhorn_iters,
                    hc_eps,
                    rms_eps,
                    unit_gamma,
                    hc_fn_is_f16,
                    outs,
                    k,
                    i,
                )
            ).0,
        ),
    decreases k - i,
{
    broadcast use {stays_hc_collapse_norm, stays_keep_collapsed};

    if !(i >= k) {
        let hc_dim = (n_hc * n_embd) as u64;
        let mix = mix_hc(n_hc) as u64;
        let (t, row) = t.alloc_f32(hc_dim);
        let t = t.blit(
            prev_hc_k.buf,
            (i * hc_dim * 4) as u64,
            row.buf,
            0,
            (hc_dim * 4) as u64,
        );
        let (t, r) = t.hc_collapse_norm(
            row,
            hc_fn,
            hc_scale,
            hc_base,
            gamma,
            n_hc,
            n_embd,
            sinkhorn_iters,
            hc_eps,
            rms_eps,
            unit_gamma,
            hc_fn_is_f16,
        );
        if !(r is Err) {
            stays_hc_collapse_rows(t.keep_collapsed(r->Ok_0, outs, mix, n_embd, i), prev_hc_k,
                hc_fn,
                hc_scale,
                hc_base,
                gamma,
                n_hc,
                n_embd,
                sinkhorn_iters,
                hc_eps,
                rms_eps,
                unit_gamma,
                hc_fn_is_f16,
                outs,
                k,
                i + 1);
        }
    }
}

pub broadcast proof fn stays_hc_split_weighted_sum_norm4_into_k(
    t: Trace,
    mixes_k: DeferredBuf,
    scale: DeferredBuf,
    base: DeferredBuf,
    x_k: DeferredBuf,
    gamma: DeferredBuf,
    n_hc: u64,
    n_embd: u64,
    sinkhorn_iters: i32,
    hc_eps: F32,
    rms_eps: F32,
    k: u64,
    outs: Collapsed,
)
    ensures
        alike(
            t,
            (
                #[trigger] t.hc_split_weighted_sum_norm4_into_k(
                    mixes_k,
                    scale,
                    base,
                    x_k,
                    gamma,
                    n_hc,
                    n_embd,
                    sinkhorn_iters,
                    hc_eps,
                    rms_eps,
                    k,
                    outs,
                )
            ).0,
        ),
{
    reveal(Trace::hc_split_weighted_sum_norm4_into_k);
}

pub broadcast proof fn stays_matmul_f16_k(
    t: Trace,
    w: DeferredBuf,
    x_k: DeferredBuf,
    d_in: u64,
    d_out: u64,
    k: u64,
)
    ensures
        alike(t, (#[trigger] t.matmul_f16_k(w, x_k, d_in, d_out, k)).0),
{
    reveal(Trace::matmul_f16_k);
}

pub broadcast proof fn stays_matvec_f32_k(
    t: Trace,
    w: DeferredBuf,
    x_k: DeferredBuf,
    d_in: u64,
    d_out: u64,
    k: u64,
)
    ensures
        alike(t, (#[trigger] t.matvec_f32_k(w, x_k, d_in, d_out, k)).0),
{
    reveal(Trace::matvec_f32_k);
}

pub broadcast proof fn stays_hc_collapse_norm_k(
    t: Trace,
    prev_hc_k: DeferredBuf,
    hc_fn: DeferredBuf,
    hc_scale: DeferredBuf,
    hc_base: DeferredBuf,
    gamma: DeferredBuf,
    n_hc: u64,
    n_embd: u64,
    sinkhorn_iters: i32,
    hc_eps: F32,
    rms_eps: F32,
    unit_gamma: DeferredBuf,
    k: u64,
    hc_fn_is_f16: bool,
)
    ensures
        alike(
            t,
            (
                #[trigger] t.hc_collapse_norm_k(
                    prev_hc_k,
                    hc_fn,
                    hc_scale,
                    hc_base,
                    gamma,
                    n_hc,
                    n_embd,
                    sinkhorn_iters,
                    hc_eps,
                    rms_eps,
                    unit_gamma,
                    k,
                    hc_fn_is_f16,
                )
            ).0,
        ),
{
    broadcast use {
        stays_alloc_attn_out,
        stays_hc_collapse_rows,
        stays_hc_split_weighted_sum_norm4_into_k,
        stays_matmul_f16_k,
        stays_matvec_f32_k,
        stays_rms_norm_mul_k,
    };

    reveal(Trace::hc_collapse_norm_k);
}

pub broadcast proof fn stays_rope_kv_rows(
    t: Trace,
    kv_normed_k: DeferredBuf,
    kv_row: u64,
    params: LayerParams,
    base_pos: u32,
    k: u64,
    i: int,
)
    ensures
        alike(t, (#[trigger] t.rope_kv_rows(kv_normed_k, kv_row, params, base_pos, k, i)).0),
    decreases k - i,
{
    broadcast use {stays_rope_tail_in_place};

    if !(i >= k) {
        let (t, r) = t.rope_tail_in_place(
            kv_normed_k,
            ((i * kv_row + (kv_row - params.n_rot)) * 4) as u64,
            1,
            params,
            (base_pos + i) as u32,
            false,
        );
        if !(r is Err) {
            stays_rope_kv_rows(t, kv_normed_k, kv_row, params, base_pos, k, i + 1);
        }
    }
}

pub broadcast proof fn stays_rope_kv(
    t: Trace,
    kv_normed_k: DeferredBuf,
    kv_row: u64,
    params: LayerParams,
    base_pos: u32,
    k: u64,
)
    ensures
        alike(t, (#[trigger] t.rope_kv(kv_normed_k, kv_row, params, base_pos, k)).0),
{
    broadcast use {stays_rope_kv_rows, stays_rope_tail_k_fused};

    reveal(Trace::rope_kv);
}

pub broadcast proof fn stays_encode_layer_attn_half_k(
    t: Trace,
    prev_hc_k: DeferredBuf,
    w: AttnWeights,
    shape: AttnShape,
    params: LayerParams,
    base_pos: u32,
    k: u64,
    hc_fn_is_f16: bool,
)
    ensures
        alike(
            t,
            (
                #[trigger] t.encode_layer_attn_half_k(
                    prev_hc_k,
                    w,
                    shape,
                    params,
                    base_pos,
                    k,
                    hc_fn_is_f16,
                )
            ).0,
        ),
{
    broadcast use {
        stays_encode_attn_qkv_chain_k,
        stays_hc_collapse_norm_k,
        stays_rms_norm_mul_k,
        stays_rope_kv,
    };

    reveal(Trace::encode_layer_attn_half_k);
}

pub broadcast proof fn stays_encode_attn_chain_k(
    t: Trace,
    prev_hc_k: DeferredBuf,
    w: AttnWeights,
    shape: AttnShape,
    out: AttnOutput,
    place: Place,
    comp: Option<CompVerifyCtx>,
)
    ensures
        alike(t, (#[trigger] t.encode_attn_chain_k(prev_hc_k, w, shape, out, place, comp)).0),
{
    broadcast use {stays_attn_tail, stays_encode_layer_attn_half_k};

    reveal(Trace::encode_attn_chain_k);
}

pub broadcast proof fn stays_dump_residual(
    t: Trace,
    layer: u32,
    attn_out: DeferredBuf,
    after_attn: DeferredBuf,
    after_ffn: DeferredBuf,
    n_hc: u64,
    n_embd: u64,
    k: u64,
)
    ensures
        alike(
            t,
            #[trigger] t.dump_residual(layer, attn_out, after_attn, after_ffn, n_hc, n_embd, k),
        ),
{
    reveal(Trace::dump_residual);
}

pub broadcast proof fn stays_mv_rows(
    t: Trace,
    pipe: Pipe,
    nsg: i16,
    w: BufId,
    x: BufId,
    out: BufId,
    n_experts: u64,
    d_embd: u64,
    wb: u64,
    k: u64,
    i: int,
)
    ensures
        alike(t, #[trigger] t.mv_rows(pipe, nsg, w, x, out, n_experts, d_embd, wb, k, i)),
    decreases k - i,
{
    if !(i >= k) {
        stays_mv_rows(t.launch3(
                pipe,
                Args::MulMv(Trace::row_args(n_experts, d_embd, wb)),
                w,
                (x, (i * (d_embd * 4)) as u64),
                (out, (i * (n_experts * 4)) as u64),
                256,
                (((n_experts + 1) / 2) as u64, 1, 1),
                (32, nsg as u64, 1),
            ), pipe, nsg, w, x, out, n_experts, d_embd, wb, k, i + 1);
    }
}

pub broadcast proof fn stays_pooled_scratch_f32(t: Trace, key: PoolKey, n: u64)
    ensures
        alike(t, (#[trigger] t.pooled_scratch_f32(key, n)).0),
{
    reveal(Trace::pooled_scratch_f32);
}

pub broadcast proof fn stays_softplus_sqrt(t: Trace, x: DeferredBuf)
    ensures
        alike(t, (#[trigger] t.softplus_sqrt(x)).0),
{
    reveal(Trace::softplus_sqrt);
}

pub broadcast proof fn stays_encode_router_logits_k(
    t: Trace,
    w_router: DeferredBuf,
    h_norm_k: DeferredBuf,
    n_experts: u64,
    d_embd: u64,
    k: u64,
    w_is_f16: bool,
)
    ensures
        alike(
            t,
            (
                #[trigger] t.encode_router_logits_k(
                    w_router,
                    h_norm_k,
                    n_experts,
                    d_embd,
                    k,
                    w_is_f16,
                )
            ).0,
        ),
{
    broadcast use {stays_mv_rows, stays_pooled_scratch_f32, stays_softplus_sqrt};

    reveal(Trace::encode_router_logits_k);
}

pub broadcast proof fn stays_hc_rows(
    t: Trace,
    block: BufId,
    add: BufId,
    res: BufId,
    split: BufId,
    out: BufId,
    has_add: bool,
    n_hc: u64,
    d_embd: u64,
    k: u64,
    i: int,
)
    ensures
        alike(t, #[trigger] t.hc_rows(block, add, res, split, out, has_add, n_hc, d_embd, k, i)),
    decreases k - i,
{
    if !(i >= k) {
        stays_hc_rows(t.hc_launch(
                spec_hc_args(n_hc, d_embd, has_add),
                hc_binds_at(block, add, res, split, out, n_hc, d_embd, i),
                ((n_hc * d_embd + 255) / 256) as u64,
            ), block, add, res, split, out, has_add, n_hc, d_embd, k, i + 1);
    }
}

pub broadcast proof fn stays_hc_expand_add_split_k(
    t: Trace,
    shared_out_k: DeferredBuf,
    routed_out_k: DeferredBuf,
    after_attn_k: DeferredBuf,
    split_k: DeferredBuf,
    n_hc: u64,
    d_embd: u64,
    k: u64,
)
    ensures
        alike(
            t,
            (
                #[trigger] t.hc_expand_add_split_k(
                    shared_out_k,
                    routed_out_k,
                    after_attn_k,
                    split_k,
                    n_hc,
                    d_embd,
                    k,
                )
            ).0,
        ),
{
    broadcast use {stays_hc_rows, stays_pooled_scratch_f32};

    reveal(Trace::hc_expand_add_split_k);
}

pub broadcast proof fn stays_hc_expand_attn_split_k(
    t: Trace,
    attn_out_k: DeferredBuf,
    cur_hc_k: DeferredBuf,
    split_k: DeferredBuf,
    n_hc: u64,
    d_embd: u64,
    k: u64,
)
    ensures
        alike(
            t,
            (#[trigger] t.hc_expand_attn_split_k(attn_out_k, cur_hc_k, split_k, n_hc, d_embd, k)).0,
        ),
{
    broadcast use {stays_hc_rows, stays_pooled_scratch_f32};

    reveal(Trace::hc_expand_attn_split_k);
}

pub broadcast proof fn stays_encode_moe_and_shared_chain_with_router_bufs_db(
    t: Trace,
    layer: u32,
    moe_x: DeferredBuf,
    selected: DeferredBuf,
    weights: DeferredBuf,
    d_ffn: u64,
    sh_ffn_norm: DeferredBuf,
    sh_w: (HostRef, HostRef, HostRef),
    shared_dim: u32,
    sh_q8: (HostRef, HostRef, HostRef),
)
    ensures
        alike(
            t,
            (
                #[trigger] t.encode_moe_and_shared_chain_with_router_bufs_db(
                    layer,
                    moe_x,
                    selected,
                    weights,
                    d_ffn,
                    sh_ffn_norm,
                    sh_w,
                    shared_dim,
                    sh_q8,
                )
            ).0,
        ),
{
    reveal(Trace::encode_moe_and_shared_chain_with_router_bufs_db);
}

pub broadcast proof fn stays_moe_rows(
    t: Trace,
    layer: u32,
    normed_k: DeferredBuf,
    routes: Seq<Routed>,
    d_ffn: u64,
    sh_w: (HostRef, HostRef, HostRef),
    shared_dim: u32,
    sh_q8: (HostRef, HostRef, HostRef),
    d_embd: u64,
    moe: BufId,
    shared: BufId,
    i: int,
)
    ensures
        alike(
            t,
            (
                #[trigger] t.moe_rows(
                    layer,
                    normed_k,
                    routes,
                    d_ffn,
                    sh_w,
                    shared_dim,
                    sh_q8,
                    d_embd,
                    moe,
                    shared,
                    i,
                )
            ).0,
        ),
    decreases routes.len() - i,
{
    broadcast use {stays_encode_moe_and_shared_chain_with_router_bufs_db};

    if !(i >= routes.len() || i < 0) {
        let row = (d_embd * 4) as u64;
        let off = (i * (d_embd * 4)) as u64;
        let (t, temp) = t.alloc_f32(d_embd);
        let t = t.blit(normed_k.buf, off, temp.buf, 0, row);
        let (t, r) = t.encode_moe_and_shared_chain_with_router_bufs_db(
            layer,
            temp,
            routes[i].0,
            routes[i].1,
            d_ffn,
            temp,
            sh_w,
            shared_dim,
            sh_q8,
        );
        if !(r is Err) {
            stays_moe_rows(t.put(Command::CloseShared).put(Command::Blit).put(
                    Command::Copy {
                        src: r->Ok_0.0.buf,
                        src_off: 0,
                        dst: moe,
                        dst_off: off,
                        bytes: row,
                    },
                ).put(
                    Command::Copy {
                        src: r->Ok_0.1.buf,
                        src_off: 0,
                        dst: shared,
                        dst_off: off,
                        bytes: row,
                    },
                ).put(Command::EndBlit), layer,
                normed_k,
                routes,
                d_ffn,
                sh_w,
                shared_dim,
                sh_q8,
                d_embd,
                moe,
                shared,
                i + 1);
        }
    }
}

pub broadcast proof fn stays_encode_moe_and_shared_chain_k(
    t: Trace,
    layer: u32,
    normed_k: DeferredBuf,
    routes: Seq<Routed>,
    d_ffn: u64,
    sh_w: (HostRef, HostRef, HostRef),
    shared_dim: u32,
    sh_q8: (HostRef, HostRef, HostRef),
    d_embd: u64,
    k: u64,
)
    ensures
        alike(
            t,
            (
                #[trigger] t.encode_moe_and_shared_chain_k(
                    layer,
                    normed_k,
                    routes,
                    d_ffn,
                    sh_w,
                    shared_dim,
                    sh_q8,
                    d_embd,
                    k,
                )
            ).0,
        ),
{
    broadcast use {stays_moe_rows};

    reveal(Trace::encode_moe_and_shared_chain_k);
}

pub broadcast proof fn stays_route_one(
    t: Trace,
    n_experts: u64,
    generic: bool,
    probs: (BufId, u64),
    bias: BufId,
    hash: BufId,
    tokens: BufId,
)
    ensures
        alike(t, (#[trigger] t.route_one(n_experts, generic, probs, bias, hash, tokens)).0),
{
    reveal(Trace::route_one);
}

pub broadcast proof fn stays_route_rows(
    t: Trace,
    n_experts: u64,
    generic: bool,
    probs: BufId,
    bias: BufId,
    hash: BufId,
    tokens: BufId,
    k: u64,
    i: int,
    done: Seq<Routed>,
)
    ensures
        alike(
            t,
            (#[trigger] t.route_rows(n_experts, generic, probs, bias, hash, tokens, k, i, done)).0,
        ),
    decreases k - i,
{
    broadcast use {stays_route_one};

    if !(i >= k) {
        let (t, r) = t.route_one(
            n_experts,
            generic,
            (probs, (i * (n_experts * 4)) as u64),
            bias,
            hash,
            tokens,
        );
        stays_route_rows(t, n_experts,
            generic,
            probs,
            bias,
            hash,
            tokens,
            k,
            i + 1,
            done.push(r));
    }
}

pub broadcast proof fn stays_encode_router_finalize_k(
    t: Trace,
    probs_k: DeferredBuf,
    bias: DeferredBuf,
    k: u64,
)
    ensures
        alike(t, (#[trigger] t.encode_router_finalize_k(probs_k, bias, k)).0),
{
    broadcast use {stays_route_rows};

    reveal(Trace::encode_router_finalize_k);
}

pub broadcast proof fn stays_moe_by_position(
    t: Trace,
    normed_k: DeferredBuf,
    probs_k: DeferredBuf,
    w: FfnWeights,
    shape: FfnShape,
    layer: u32,
    k: u64,
)
    ensures
        alike(t, (#[trigger] t.moe_by_position(normed_k, probs_k, w, shape, layer, k)).0),
{
    broadcast use {stays_encode_moe_and_shared_chain_k, stays_encode_router_finalize_k};

    reveal(Trace::moe_by_position);
}

pub broadcast proof fn stays_encode_mul_mm_id_iq2_pair_swiglu_k(
    t: Trace,
    gate_w: DeferredBuf,
    up_w: DeferredBuf,
    x_k: DeferredBuf,
    tpe: DeferredBuf,
    ids: DeferredBuf,
    wt_flat: DeferredBuf,
    n_experts: u64,
    d_embd: u64,
    d_ffn: u64,
    k: u64,
)
    ensures
        alike(
            t,
            (
                #[trigger] t.encode_mul_mm_id_iq2_pair_swiglu_k(
                    gate_w,
                    up_w,
                    x_k,
                    tpe,
                    ids,
                    wt_flat,
                    n_experts,
                    d_embd,
                    d_ffn,
                    k,
                )
            ).0,
        ),
{
    broadcast use {stays_pooled_scratch_f32};

    reveal(Trace::encode_mul_mm_id_iq2_pair_swiglu_k);
}

pub broadcast proof fn stays_encode_mul_mm_id_map0_k(
    t: Trace,
    selected_k: DeferredBuf,
    n_experts: u64,
    k: u64,
)
    ensures
        alike(t, (#[trigger] t.encode_mul_mm_id_map0_k(selected_k, n_experts, k)).0),
{
    reveal(Trace::encode_mul_mm_id_map0_k);
}

pub broadcast proof fn stays_mm_id_launch(
    t: Trace,
    kernel: MmIdKernel,
    args: MulMmIdArgs,
    w: BufId,
    x: BufId,
    tpe: BufId,
    ids: BufId,
    dst: BufId,
    n_experts: u64,
    d_out: u64,
    k: u64,
)
    ensures
        alike(t, #[trigger] t.mm_id_launch(kernel, args, w, x, tpe, ids, dst, n_experts, d_out, k)),
{
    reveal(Trace::mm_id_launch);
}

pub broadcast proof fn stays_encode_mul_mm_id_qx_k(
    t: Trace,
    stage: MmStage,
    experts_w: DeferredBuf,
    x_k: DeferredBuf,
    tpe: DeferredBuf,
    ids: DeferredBuf,
    n_experts: u64,
    d_in: u64,
    d_out: u64,
    k: u64,
    slots: u64,
    act: u64,
)
    ensures
        alike(
            t,
            (
                #[trigger] t.encode_mul_mm_id_qx_k(
                    stage,
                    experts_w,
                    x_k,
                    tpe,
                    ids,
                    n_experts,
                    d_in,
                    d_out,
                    k,
                    slots,
                    act,
                )
            ).0,
        ),
{
    broadcast use {stays_mm_id_launch, stays_pooled_scratch_f32};

    reveal(Trace::encode_mul_mm_id_qx_k);
}

pub broadcast proof fn stays_pooled_scratch_u16(t: Trace, key: PoolKey, n: u64)
    ensures
        alike(t, (#[trigger] t.pooled_scratch_u16(key, n)).0),
{
    reveal(Trace::pooled_scratch_u16);
}

pub broadcast proof fn stays_moe_swiglu_weight_k(
    t: Trace,
    gate_k: DeferredBuf,
    up_k: DeferredBuf,
    weights_k_flat: DeferredBuf,
    d_ffn: u64,
    k: u64,
    mid_f16: bool,
)
    ensures
        alike(
            t,
            (#[trigger] t.moe_swiglu_weight_k(gate_k, up_k, weights_k_flat, d_ffn, k, mid_f16)).0,
        ),
{
    broadcast use {stays_pooled_scratch_f32, stays_pooled_scratch_u16};

    reveal(Trace::moe_swiglu_weight_k);
}

pub broadcast proof fn stays_sum6_k(
    t: Trace,
    down_out_k: DeferredBuf,
    d_embd: u64,
    k: u64,
)
    ensures
        alike(t, (#[trigger] t.sum6_k(down_out_k, d_embd, k)).0),
{
    broadcast use {stays_pooled_scratch_f32};

    reveal(Trace::sum6_k);
}

pub broadcast proof fn stays_encode_moe_chain_mm_qx_k(
    t: Trace,
    normed_k: DeferredBuf,
    sel_k_flat: DeferredBuf,
    wt_k_flat: DeferredBuf,
    gate_w: DeferredBuf,
    up_w: DeferredBuf,
    down_w: DeferredBuf,
    gate: MmStage,
    up: MmStage,
    down: MmStage,
    n_experts: u64,
    d_embd: u64,
    d_ffn: u64,
    k: u64,
)
    ensures
        alike(
            t,
            (
                #[trigger] t.encode_moe_chain_mm_qx_k(
                    normed_k,
                    sel_k_flat,
                    wt_k_flat,
                    gate_w,
                    up_w,
                    down_w,
                    gate,
                    up,
                    down,
                    n_experts,
                    d_embd,
                    d_ffn,
                    k,
                )
            ).0,
        ),
{
    broadcast use {
        stays_encode_mul_mm_id_iq2_pair_swiglu_k,
        stays_encode_mul_mm_id_map0_k,
        stays_encode_mul_mm_id_qx_k,
        stays_moe_swiglu_weight_k,
        stays_sum6_k,
    };

    reveal(Trace::encode_moe_chain_mm_qx_k);
}

pub broadcast proof fn stays_encode_moe_chain_mm_qx_k_auto(
    t: Trace,
    layer: u32,
    normed_k: DeferredBuf,
    sel_flat: DeferredBuf,
    wt_flat: DeferredBuf,
    d_embd: u64,
    d_ffn: u64,
    k: u64,
)
    ensures
        alike(
            t,
            (
                #[trigger] t.encode_moe_chain_mm_qx_k_auto(
                    layer,
                    normed_k,
                    sel_flat,
                    wt_flat,
                    d_embd,
                    d_ffn,
                    k,
                )
            ).0,
        ),
{
    broadcast use {stays_encode_moe_chain_mm_qx_k};

    reveal(Trace::encode_moe_chain_mm_qx_k_auto);
}

pub broadcast proof fn stays_read_each(t: Trace, bufs: Seq<DeferredBuf>, n: nat)
    ensures
        alike(t, #[trigger] t.read_each(bufs, n)),
    decreases n,
{
    if n > 0 {
        stays_read_each(t, bufs, (n - 1) as nat);
    }
}

pub broadcast proof fn stays_wait_each(t: Trace, cbs: Seq<u64>, n: nat)
    ensures
        alike(t, #[trigger] t.wait_each(cbs, n)),
    decreases n,
{
    if n > 0 {
        stays_wait_each(t, cbs, (n - 1) as nat);
    }
}

pub broadcast proof fn stays_route_by_table(
    t: Trace,
    probs_k: DeferredBuf,
    n_experts: u64,
    k: u64,
    table: Seq<i32>,
    tokens: Seq<i32>,
    k_used: u64,
)
    ensures
        alike(t, (#[trigger] t.route_by_table(probs_k, n_experts, k, table, tokens, k_used)).0),
{
    broadcast use {stays_pooled_scratch_f32, stays_read_each, stays_wait_each};

    reveal(Trace::route_by_table);
}

pub broadcast proof fn stays_glu_rows(
    t: Trace,
    gate: BufId,
    up: BufId,
    mid: BufId,
    width: u64,
    k: u64,
    i: int,
)
    ensures
        alike(t, #[trigger] t.glu_rows(gate, up, mid, width, k, i)),
    decreases k - i,
{
    if !(i >= k) {
        stays_glu_rows(t.glu_launch(gate, up, mid, (i * width * 4) as u64, 1, width), gate,
            up,
            mid,
            width,
            k,
            i + 1);
    }
}

pub broadcast proof fn stays_encode_shared_chain_q8_k(
    t: Trace,
    normed_k: DeferredBuf,
    w_gate: DeferredBuf,
    w_up: DeferredBuf,
    w_down: DeferredBuf,
    d_embd: u64,
    sd: u64,
    k: u64,
)
    ensures
        alike(
            t,
            (
                #[trigger] t.encode_shared_chain_q8_k(normed_k, w_gate, w_up, w_down, d_embd, sd, k)
            ).0,
        ),
{
    broadcast use {stays_glu_rows, stays_matmul_k_q8_0_auto, stays_pooled_scratch_f32};

    reveal(Trace::encode_shared_chain_q8_k);
}

pub broadcast proof fn stays_shared_from_raw(
    t: Trace,
    fine: bool,
    normed_k: DeferredBuf,
    sh_q8: (HostRef, HostRef, HostRef),
    shared_dim: u64,
    d_embd: u64,
    k: u64,
)
    ensures
        alike(t, (#[trigger] t.shared_from_raw(fine, normed_k, sh_q8, shared_dim, d_embd, k)).0),
{
    broadcast use {stays_encode_shared_chain_q8_k};

    reveal(Trace::shared_from_raw);
}

pub broadcast proof fn stays_moe_by_table(
    t: Trace,
    normed_k: DeferredBuf,
    probs_k: DeferredBuf,
    w: FfnWeights,
    shape: FfnShape,
    layer: u32,
    k: u64,
    table: Seq<i32>,
    tokens: Seq<i32>,
    k_used: u64,
)
    ensures
        alike(
            t,
            (
                #[trigger] t.moe_by_table(
                    normed_k,
                    probs_k,
                    w,
                    shape,
                    layer,
                    k,
                    table,
                    tokens,
                    k_used,
                )
            ).0,
        ),
{
    broadcast use {
        stays_encode_moe_chain_mm_qx_k_auto,
        stays_route_by_table,
        stays_shared_from_raw,
    };

    reveal(Trace::moe_by_table);
}

pub broadcast proof fn stays_pair_launch(
    t: Trace,
    q4: bool,
    nsg: i16,
    nr0: i32,
    args: MulMvIdArgs,
    act: MoeSwigluActArgs,
    gate_w: BufId,
    up_w: BufId,
    x: BufId,
    ids: BufId,
    weights: BufId,
    n: u64,
    d_ffn: u64,
    k: u64,
)
    ensures
        alike(
            t,
            (
                #[trigger] t.pair_launch(
                    q4,
                    nsg,
                    nr0,
                    args,
                    act,
                    gate_w,
                    up_w,
                    x,
                    ids,
                    weights,
                    n,
                    d_ffn,
                    k,
                )
            ).0,
        ),
{
    broadcast use {stays_pooled_scratch_f32};

    reveal(Trace::pair_launch);
}

pub broadcast proof fn stays_encode_pair_swiglu_K_iq2_xxs(
    t: Trace,
    gate_w: DeferredBuf,
    up_w: DeferredBuf,
    x_k: DeferredBuf,
    ids_flat: DeferredBuf,
    weights_flat: DeferredBuf,
    d_in: u64,
    d_ffn: u64,
    k: u64,
)
    ensures
        alike(
            t,
            (
                #[trigger] t.encode_pair_swiglu_K_iq2_xxs(
                    gate_w,
                    up_w,
                    x_k,
                    ids_flat,
                    weights_flat,
                    d_in,
                    d_ffn,
                    k,
                )
            ).0,
        ),
{
    broadcast use {stays_pair_launch};

    reveal(Trace::encode_pair_swiglu_K_iq2_xxs);
}

pub broadcast proof fn stays_encode_pair_swiglu_K_q4_K(
    t: Trace,
    gate_w: DeferredBuf,
    up_w: DeferredBuf,
    x_k: DeferredBuf,
    ids_flat: DeferredBuf,
    weights_flat: DeferredBuf,
    d_in: u64,
    d_ffn: u64,
    k: u64,
)
    ensures
        alike(
            t,
            (
                #[trigger] t.encode_pair_swiglu_K_q4_K(
                    gate_w,
                    up_w,
                    x_k,
                    ids_flat,
                    weights_flat,
                    d_in,
                    d_ffn,
                    k,
                )
            ).0,
        ),
{
    broadcast use {stays_pair_launch};

    reveal(Trace::encode_pair_swiglu_K_q4_K);
}

pub broadcast proof fn stays_sum6_down(
    t: Trace,
    q4: bool,
    down_w: DeferredBuf,
    mid_k: DeferredBuf,
    ids_flat: DeferredBuf,
    d_ffn: u64,
    d_embd: u64,
    k: u64,
)
    ensures
        alike(t, (#[trigger] t.sum6_down(q4, down_w, mid_k, ids_flat, d_ffn, d_embd, k)).0),
{
    reveal(Trace::sum6_down);
}

pub broadcast proof fn stays_moe_chain_fused(
    t: Trace,
    q4: bool,
    normed_k: DeferredBuf,
    ids_flat: DeferredBuf,
    weights_flat: DeferredBuf,
    gate_w: DeferredBuf,
    up_w: DeferredBuf,
    down_w: DeferredBuf,
    d_embd: u64,
    d_ffn: u64,
    k: u64,
)
    ensures
        alike(
            t,
            (
                #[trigger] t.moe_chain_fused(
                    q4,
                    normed_k,
                    ids_flat,
                    weights_flat,
                    gate_w,
                    up_w,
                    down_w,
                    d_embd,
                    d_ffn,
                    k,
                )
            ).0,
        ),
{
    broadcast use {
        stays_encode_pair_swiglu_K_iq2_xxs,
        stays_encode_pair_swiglu_K_q4_K,
        stays_sum6_down,
    };

    reveal(Trace::moe_chain_fused);
}

pub broadcast proof fn stays_encode_moe_chain_fused_K_auto(
    t: Trace,
    layer: u32,
    normed_k: DeferredBuf,
    sel_flat: DeferredBuf,
    wt_flat: DeferredBuf,
    d_embd: u64,
    d_ffn: u64,
    k: u64,
)
    ensures
        alike(
            t,
            (
                #[trigger] t.encode_moe_chain_fused_K_auto(
                    layer,
                    normed_k,
                    sel_flat,
                    wt_flat,
                    d_embd,
                    d_ffn,
                    k,
                )
            ).0,
        ),
{
    broadcast use {stays_moe_chain_fused};

    reveal(Trace::encode_moe_chain_fused_K_auto);
}

pub broadcast proof fn stays_encode_router_finalize_flat_k(
    t: Trace,
    probs_k: DeferredBuf,
    bias: DeferredBuf,
    k: u64,
)
    ensures
        alike(t, (#[trigger] t.encode_router_finalize_flat_k(probs_k, bias, k)).0),
{
    reveal(Trace::encode_router_finalize_flat_k);
}

pub broadcast proof fn stays_flatten_rows(
    t: Trace,
    routes: Seq<Routed>,
    sel: BufId,
    wt: BufId,
    i: int,
)
    ensures
        alike(t, #[trigger] t.flatten_rows(routes, sel, wt, i)),
    decreases routes.len() - i,
{
    if !(i >= routes.len() || i < 0) {
        stays_flatten_rows(t.put(Command::CloseShared).put(Command::Blit).put(
                Command::Copy {
                    src: routes[i].0.buf,
                    src_off: 0,
                    dst: sel,
                    dst_off: (i * 24) as u64,
                    bytes: 24,
                },
            ).put(
                Command::Copy {
                    src: routes[i].1.buf,
                    src_off: 0,
                    dst: wt,
                    dst_off: (i * 24) as u64,
                    bytes: 24,
                },
            ).put(Command::EndBlit), routes, sel, wt, i + 1);
    }
}

pub broadcast proof fn stays_flatten_router_output_k(
    t: Trace,
    routes: Seq<Routed>,
)
    ensures
        alike(t, (#[trigger] t.flatten_router_output_k(routes)).0),
{
    broadcast use {stays_flatten_rows};

    reveal(Trace::flatten_router_output_k);
}

pub broadcast proof fn stays_route_flat(
    t: Trace,
    probs_k: DeferredBuf,
    bias: DeferredBuf,
    k: u64,
)
    ensures
        alike(t, (#[trigger] t.route_flat(probs_k, bias, k)).0),
{
    broadcast use {
        stays_encode_router_finalize_flat_k,
        stays_encode_router_finalize_k,
        stays_flatten_router_output_k,
    };

    reveal(Trace::route_flat);
}

pub broadcast proof fn stays_moe_flat(
    t: Trace,
    fused: bool,
    normed_k: DeferredBuf,
    probs_k: DeferredBuf,
    w: FfnWeights,
    shape: FfnShape,
    layer: u32,
    k: u64,
)
    ensures
        alike(t, (#[trigger] t.moe_flat(fused, normed_k, probs_k, w, shape, layer, k)).0),
{
    broadcast use {
        stays_encode_moe_chain_fused_K_auto,
        stays_encode_moe_chain_mm_qx_k_auto,
        stays_route_flat,
        stays_shared_from_raw,
    };

    reveal(Trace::moe_flat);
}

pub broadcast proof fn stays_moe_step(
    t: Trace,
    normed_k: DeferredBuf,
    probs_k: DeferredBuf,
    w: FfnWeights,
    shape: FfnShape,
    layer: u32,
    k: u64,
    hash_route: Option<(Seq<i32>, Seq<i32>, u64)>,
)
    ensures
        alike(t, (#[trigger] t.moe_step(normed_k, probs_k, w, shape, layer, k, hash_route)).0),
{
    broadcast use {stays_moe_by_position, stays_moe_by_table, stays_moe_flat};

    reveal(Trace::moe_step);
}

pub broadcast proof fn stays_refill_pool(t: Trace, layer: u32)
    ensures
        alike(t, #[trigger] t.refill_pool(layer)),
{
    reveal(Trace::refill_pool);
}

pub broadcast proof fn stays_encode_ffn_chain_k(
    t: Trace,
    attn_out_k: DeferredBuf,
    cur_hc_k: DeferredBuf,
    attn_split_k: DeferredBuf,
    w: FfnWeights,
    shape: FfnShape,
    layer: u32,
    k: u64,
    hash_route: Option<(Seq<i32>, Seq<i32>, u64)>,
)
    ensures
        alike(
            t,
            (
                #[trigger] t.encode_ffn_chain_k(
                    attn_out_k,
                    cur_hc_k,
                    attn_split_k,
                    w,
                    shape,
                    layer,
                    k,
                    hash_route,
                )
            ).0,
        ),
{
    broadcast use {
        stays_dump_residual,
        stays_encode_router_logits_k,
        stays_hc_collapse_norm_k,
        stays_hc_expand_add_split_k,
        stays_hc_expand_attn_split_k,
        stays_moe_step,
        stays_refill_pool,
    };

    reveal(Trace::encode_ffn_chain_k);
}

pub broadcast proof fn stays_encode_layer_k(
    t: Trace,
    prev_hc_k: DeferredBuf,
    aw: AttnWeights,
    ashape: AttnShape,
    out: AttnOutput,
    place: Place,
    comp: Option<CompVerifyCtx>,
    fw: FfnWeights,
    fshape: FfnShape,
)
    ensures
        alike(
            t,
            (#[trigger] t.encode_layer_k(prev_hc_k, aw, ashape, out, place, comp, fw, fshape)).0,
        ),
{
    broadcast use {stays_encode_attn_chain_k, stays_encode_ffn_chain_k};

    reveal(Trace::encode_layer_k);
}

pub broadcast proof fn stays_verify_from(
    t: Trace,
    config: Config,
    cur: DeferredBuf,
    layers: Seq<BaseLayerVerifyBundle>,
    unit_gamma_hc: DeferredBuf,
    shape: LayerShape,
    at: VerifyAt,
    comp: Option<Seq<u32>>,
    depth: nat,
    i: int,
)
    ensures
        alike(
            t,
            (
                #[trigger] t.verify_from(
                    config,
                    cur,
                    layers,
                    unit_gamma_hc,
                    shape,
                    at,
                    comp,
                    depth,
                    i,
                )
            ).0,
        ),
    decreases depth - i,
{
    broadcast use {stays_after_layer, stays_encode_layer_k};

    if !(i >= depth || i < 0) {
        let layer = layers[i];
        let (t, next) = t.encode_layer_k(
            cur,
            layer.attn(unit_gamma_hc),
            shape.attn(),
            shape.output(layer.w_o_a_q8, layer.w_o_b_q8, layer.attn_sinks),
            at.place(i, layer.layer_params),
            layer.spec_comp_ctx(ring_rows(comp, i)),
            layer.ffn(unit_gamma_hc),
            shape.ffn(),
        );
        if !(next is Err) {
            stays_verify_from(t.after_layer(
                    config,
                    next->Ok_0,
                    layer.layer_params.compress_ratio,
                    (shape.n_hc * shape.n_embd) as u64,
                    at.k,
                    i,
                    layers.len(),
                ), config,
                next->Ok_0,
                layers,
                unit_gamma_hc,
                shape,
                at,
                comp,
                depth,
                i + 1);
        }
    }
}

pub broadcast proof fn stays_encode_verify_layers_K(
    t: Trace,
    prev_hc_k: DeferredBuf,
    layers: Seq<BaseLayerVerifyBundle>,
    unit_gamma_hc: DeferredBuf,
    shape: LayerShape,
    at: VerifyAt,
    comp: Option<Seq<u32>>,
)
    ensures
        alike(
            t,
            (
                #[trigger] t.encode_verify_layers_K(
                    prev_hc_k,
                    layers,
                    unit_gamma_hc,
                    shape,
                    at,
                    comp,
                )
            ).0,
        ),
{
    broadcast use {stays_verify_from};

    reveal(Trace::encode_verify_layers_K);
}

pub broadcast proof fn stays_encode_mtp_input_mix(
    t: Trace,
    token_embed: DeferredBuf,
    prev_hc: DeferredBuf,
    mix: MtpDraftInputMix,
    n_embd: u64,
    n_hc: u64,
    rms_eps: F32,
)
    ensures
        alike(
            t,
            (#[trigger] t.encode_mtp_input_mix(token_embed, prev_hc, mix, n_embd, n_hc, rms_eps)).0,
        ),
{
    broadcast use {
        stays_matvec_k_q8_0,
        stays_matvec_q8_0,
        stays_rms_norm_mul,
        stays_rms_norm_mul_k,
    };

    reveal(Trace::encode_mtp_input_mix);
}

pub broadcast proof fn stays_encode_mtp_output_head(
    t: Trace,
    cur_hc: DeferredBuf,
    w: HeadWeights,
    n_embd: u64,
    n_hc: u64,
    vocab: u64,
    rms_eps: F32,
    hc_eps: F32,
)
    ensures
        alike(
            t,
            (
                #[trigger] t.encode_mtp_output_head(cur_hc, w, n_embd, n_hc, vocab, rms_eps, hc_eps)
            ).0,
        ),
{
    broadcast use {stays_matvec_f32, stays_matvec_q8_0, stays_rms_norm_mul};

    reveal(Trace::encode_mtp_output_head);
}

pub broadcast proof fn stays_encode_mtp_draft_with_out_hc(
    t: Trace,
    prev_hc: DeferredBuf,
    token_embed: DeferredBuf,
    mix: MtpDraftInputMix,
    layer: MtpDraftLayerWeights,
    head: MtpDraftOutputHead,
    shape: MtpDraftShape,
    place: Place,
)
    ensures
        alike(
            t,
            (
                #[trigger] t.encode_mtp_draft_with_out_hc(
                    prev_hc,
                    token_embed,
                    mix,
                    layer,
                    head,
                    shape,
                    place,
                )
            ).0,
        ),
{
    broadcast use {
        stays_encode_layer_k,
        stays_encode_mtp_input_mix,
        stays_encode_mtp_output_head,
    };

    reveal(Trace::encode_mtp_draft_with_out_hc);
}

pub broadcast proof fn stays_head_weights_rows(
    t: Trace,
    pre: BufId,
    scale: BufId,
    base: BufId,
    out: BufId,
    n_hc: u64,
    hc_eps: F32,
    k: u64,
    i: int,
)
    ensures
        alike(t, #[trigger] t.head_weights_rows(pre, scale, base, out, n_hc, hc_eps, k, i)),
    decreases k - i,
{
    if !(i >= k) {
        stays_head_weights_rows(t.head_weights_launch(
                pre,
                scale,
                base,
                out,
                (i * (n_hc * 4)) as u64,
                n_hc,
                hc_eps,
            ), pre, scale, base, out, n_hc, hc_eps, k, i + 1);
    }
}

pub broadcast proof fn stays_encode_verify_output_head_K(
    t: Trace,
    cur_hc: DeferredBuf,
    w: HeadWeights,
    n_embd: u64,
    n_hc: u64,
    vocab: u64,
    k: u64,
    rms_eps: F32,
    hc_eps: F32,
)
    ensures
        alike(
            t,
            (
                #[trigger] t.encode_verify_output_head_K(
                    cur_hc,
                    w,
                    n_embd,
                    n_hc,
                    vocab,
                    k,
                    rms_eps,
                    hc_eps,
                )
            ).0,
        ),
{
    broadcast use {
        stays_head_weights_rows,
        stays_matvec_k_q8_0,
        stays_mv_rows,
        stays_rms_norm_mul_k,
    };

    reveal(Trace::encode_verify_output_head_K);
}

pub broadcast proof fn stays_head_rms_norm(
    t: Trace,
    x: DeferredBuf,
    n_head: u64,
    head_dim: u64,
    eps: F32,
)
    ensures
        alike(t, (#[trigger] t.head_rms_norm(x, n_head, head_dim, eps)).0),
{
    reveal(Trace::head_rms_norm);
}

pub broadcast proof fn stays_matvec_attn_proj(
    t: Trace,
    w_q8: DeferredBuf,
    x: DeferredBuf,
    d_in: u64,
    d_out: u64,
)
    ensures
        alike(t, (#[trigger] t.matvec_attn_proj(w_q8, x, d_in, d_out)).0),
{
    broadcast use {stays_matvec_q8_0, stays_requantized};

    reveal(Trace::matvec_attn_proj);
}

pub broadcast proof fn stays_matvec_q8_0_pair_concurrent(
    t: Trace,
    w_a: DeferredBuf,
    x_a: DeferredBuf,
    d_in_a: u64,
    d_out_a: u64,
    w_b: DeferredBuf,
    x_b: DeferredBuf,
    d_in_b: u64,
    d_out_b: u64,
)
    ensures
        alike(
            t,
            (
                #[trigger] t.matvec_q8_0_pair_concurrent(
                    w_a,
                    x_a,
                    d_in_a,
                    d_out_a,
                    w_b,
                    x_b,
                    d_in_b,
                    d_out_b,
                )
            ).0,
        ),
{
    reveal(Trace::matvec_q8_0_pair_concurrent);
}

pub broadcast proof fn stays_encode_attn_qkv_chain(
    t: Trace,
    normed: DeferredBuf,
    q_a: DeferredBuf,
    gamma_q: DeferredBuf,
    q_b: DeferredBuf,
    kv: DeferredBuf,
    n_lora_q: u64,
    n_head: u64,
    head_dim: u64,
    eps: F32,
    kv_row: u64,
)
    ensures
        alike(
            t,
            (
                #[trigger] t.encode_attn_qkv_chain(
                    normed,
                    q_a,
                    gamma_q,
                    q_b,
                    kv,
                    n_lora_q,
                    n_head,
                    head_dim,
                    eps,
                    kv_row,
                )
            ).0,
        ),
{
    broadcast use {
        stays_head_rms_norm,
        stays_matvec_attn_proj,
        stays_matvec_f32,
        stays_matvec_q8_0_pair_concurrent,
        stays_rms_norm_mul,
    };

    reveal(Trace::encode_attn_qkv_chain);
}

pub broadcast proof fn stays_encode_layer_attn_half(
    t: Trace,
    prev_hc: DeferredBuf,
    w: AttnWeights,
    hc_fn_is_f16: bool,
    shape: AttnShape,
    params: LayerParams,
    pos: u32,
)
    ensures
        alike(
            t,
            (#[trigger] t.encode_layer_attn_half(prev_hc, w, hc_fn_is_f16, shape, params, pos)).0,
        ),
{
    broadcast use {
        stays_encode_attn_qkv_chain,
        stays_hc_collapse_norm,
        stays_rms_norm_mul,
        stays_rope_tail_in_place,
    };

    reveal(Trace::encode_layer_attn_half);
}

pub broadcast proof fn stays_encode_attn_output_matmuls(
    t: Trace,
    heads: DeferredBuf,
    w_o_a: DeferredBuf,
    w_o_b: DeferredBuf,
    n_groups: u64,
    n_lora_o: u64,
    group_dim: u64,
    out_low_dim: u64,
    d_embd: u64,
)
    ensures
        alike(
            t,
            (
                #[trigger] t.encode_attn_output_matmuls(
                    heads,
                    w_o_a,
                    w_o_b,
                    n_groups,
                    n_lora_o,
                    group_dim,
                    out_low_dim,
                    d_embd,
                )
            ).0,
        ),
{
    reveal(Trace::encode_attn_output_matmuls);
}

pub broadcast proof fn stays_encode_attn_output_matmuls_q8(
    t: Trace,
    heads: DeferredBuf,
    w_o_a_q8: DeferredBuf,
    w_o_b_q8: DeferredBuf,
    n_groups: u64,
    n_lora_o: u64,
    group_dim: u64,
    out_low_dim: u64,
    d_embd: u64,
)
    ensures
        alike(
            t,
            (
                #[trigger] t.encode_attn_output_matmuls_q8(
                    heads,
                    w_o_a_q8,
                    w_o_b_q8,
                    n_groups,
                    n_lora_o,
                    group_dim,
                    out_low_dim,
                    d_embd,
                )
            ).0,
        ),
{
    broadcast use {stays_matvec_attn_proj};

    reveal(Trace::encode_attn_output_matmuls_q8);
}

pub broadcast proof fn stays_hc_expand_attn(
    t: Trace,
    attn_out: DeferredBuf,
    cur_hc: DeferredBuf,
    post: DeferredBuf,
    comb: DeferredBuf,
    n_hc: u64,
    d_embd: u64,
)
    ensures
        alike(t, (#[trigger] t.hc_expand_attn(attn_out, cur_hc, post, comb, n_hc, d_embd)).0),
{
    reveal(Trace::hc_expand_attn);
}

pub broadcast proof fn stays_encode_attn_output_proj(
    t: Trace,
    heads: DeferredBuf,
    w_o_a: DeferredBuf,
    w_o_b: DeferredBuf,
    w_o_a_q8: HostRef,
    w_o_b_q8: HostRef,
    cur_hc: DeferredBuf,
    post: DeferredBuf,
    comb: DeferredBuf,
    n_groups: u64,
    n_lora_o: u64,
    group_dim: u64,
    out_low_dim: u64,
    n_hc: u64,
    d_embd: u64,
)
    ensures
        alike(
            t,
            (
                #[trigger] t.encode_attn_output_proj(
                    heads,
                    w_o_a,
                    w_o_b,
                    w_o_a_q8,
                    w_o_b_q8,
                    cur_hc,
                    post,
                    comb,
                    n_groups,
                    n_lora_o,
                    group_dim,
                    out_low_dim,
                    n_hc,
                    d_embd,
                )
            ).0,
        ),
{
    broadcast use {
        stays_encode_attn_output_matmuls,
        stays_encode_attn_output_matmuls_q8,
        stays_hc_expand_attn,
    };

    reveal(Trace::encode_attn_output_proj);
}

pub broadcast proof fn stays_rope_tail_q_heads_in_place(
    t: Trace,
    q_heads: DeferredBuf,
    n_head: u64,
    head_dim: u64,
    params: LayerParams,
    pos: u32,
    backward: bool,
)
    ensures
        alike(
            t,
            (
                #[trigger] t.rope_tail_q_heads_in_place(
                    q_heads,
                    n_head,
                    head_dim,
                    params,
                    pos,
                    backward,
                )
            ).0,
        ),
{
    reveal(Trace::rope_tail_q_heads_in_place);
}

pub broadcast proof fn stays_score_launch(
    t: Trace,
    q: BufId,
    weights: BufId,
    ring: BufId,
    n_comp: u64,
    n_head: u64,
    head_dim: u64,
)
    ensures
        alike(t, (#[trigger] t.score_launch(q, weights, ring, n_comp, n_head, head_dim)).0),
{
    reveal(Trace::score_launch);
}

pub broadcast proof fn stays_encode_indexer_scores(
    t: Trace,
    qr_normed: DeferredBuf,
    cur: DeferredBuf,
    w_q_b: HostRef,
    w_proj: HostRef,
    w_q_b_f16: Option<HostRef>,
    w_proj_f16: Option<HostRef>,
    index_ring: DeferredBuf,
    n_comp: u64,
    n_head: u64,
    head_dim: u64,
    params: LayerParams,
    pos: u32,
)
    ensures
        alike(
            t,
            (
                #[trigger] t.encode_indexer_scores(
                    qr_normed,
                    cur,
                    w_q_b,
                    w_proj,
                    w_q_b_f16,
                    w_proj_f16,
                    index_ring,
                    n_comp,
                    n_head,
                    head_dim,
                    params,
                    pos,
                )
            ).0,
        ),
{
    broadcast use {
        stays_matvec_f16,
        stays_matvec_f32,
        stays_rope_tail_q_heads_in_place,
        stays_score_launch,
    };

    reveal(Trace::encode_indexer_scores);
}

pub broadcast proof fn stays_encode_moe_chain_mm_q8_k(
    t: Trace,
    normed_k: DeferredBuf,
    sel_k_flat: DeferredBuf,
    wt_k_flat: DeferredBuf,
    gate_w: DeferredBuf,
    up_w: DeferredBuf,
    down_w: DeferredBuf,
    n_experts: u64,
    d_embd: u64,
    d_ffn: u64,
    k: u64,
)
    ensures
        alike(
            t,
            (
                #[trigger] t.encode_moe_chain_mm_q8_k(
                    normed_k,
                    sel_k_flat,
                    wt_k_flat,
                    gate_w,
                    up_w,
                    down_w,
                    n_experts,
                    d_embd,
                    d_ffn,
                    k,
                )
            ).0,
        ),
{
    broadcast use {
        stays_encode_mul_mm_id_iq2_pair_swiglu_k,
        stays_encode_mul_mm_id_map0_k,
        stays_encode_mul_mm_id_qx_k,
        stays_moe_swiglu_weight_k,
        stays_sum6_k,
    };

    reveal(Trace::encode_moe_chain_mm_q8_k);
}

pub broadcast proof fn stays_encode_router_logits(
    t: Trace,
    w_router: DeferredBuf,
    h_norm: DeferredBuf,
    n_experts: u64,
    w_router_is_f16: bool,
)
    ensures
        alike(
            t,
            (#[trigger] t.encode_router_logits(w_router, h_norm, n_experts, w_router_is_f16)).0,
        ),
{
    broadcast use {stays_matvec_f16, stays_matvec_f32, stays_softplus_sqrt};

    reveal(Trace::encode_router_logits);
}

} // verus!
