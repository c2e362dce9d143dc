//! What flows where through whole layers, and through the steps that are made of them.

use crate::binds::{grew_len, launched, lemma_kept, lemma_tail};
use crate::chains::{
    FfnBufs, SharedArrays, arrays_of, ffn_half, ffn_half_alike, ffn_half_kept, handed,
    law_ffn_flow,
};
use crate::command::{Args, BufId, Command, DeferredBuf, F32, Stage};
use crate::config::{
    BaseLayerVerifyBundle, CompVerifyCtx, Config, LayerParams, MtpDraftInputMix,
    MtpDraftLayerWeights, MtpDraftOutputHead, MtpDraftShape,
};
use crate::ffn::{FfnShape, FfnWeights};
use crate::flow::{
    Fineness, MixBufs, did_f32, did_few, did_norm, did_norms, did_q8, law_mix_flow, mixed,
    mixed_kept, multiplied, multiplied_few, multiplied_few_kept, normed, normed_kept, product_of,
};
use crate::growth::{
    grew, grew_itself, grew_push, grows_after_layer, grows_alloc_attn_out,
    grows_encode_attn_chain_k, grows_encode_ffn_chain_k, grows_encode_layer_k,
    grows_encode_mtp_input_mix, grows_encode_mtp_output_head, grows_head_weights_rows,
    grows_matvec_f32, grows_matvec_k_q8_0, grows_matvec_q8_0, grows_mv_rows,
    grows_pooled_scratch_f32, grows_pooled_scratch_u16, grows_rms_norm_mul, grows_rms_norm_mul_k,
    grows_verify_from,
};
use crate::halves::{
    At, AttnBufs, OutputBufs, attn_half, attn_half_alike, attn_half_kept, closed_windows,
    law_attention_flow, ring_of,
};
use crate::kernel::{Consts, Kernel, Pipe};
use crate::layer::{AttnOutput, AttnShape, AttnWeights, Place};
use crate::matmul::{spec_nsg_by_width, spec_nxpsg};
use crate::mtp::{HeadWeights, LayerShape, VerifyAt, draft_layer, ring_rows, spec_depth};
use crate::settings::{
    alike, stays_after_layer, stays_encode_attn_chain_k, stays_encode_layer_k,
    stays_encode_mtp_input_mix,
};
use crate::trace::Trace;
use vstd::prelude::*;

verus! {

broadcast group group_flow {
    grew_push,
    grew_len,
    grows_alloc_attn_out,
    grows_pooled_scratch_f32,
    grows_pooled_scratch_u16,
}

/// The sizes of a layer, and the factor of its attention scores.
pub struct Sizes {
    pub n_head: u64,
    pub head_dim: u64,
    pub kv_row: u64,
    pub low_dim: u64,
    pub scale: F32,
}

/// What a recording shows of a layer: the attention half takes the streams `prev` to a
/// block, and the feed-forward half takes that block, the same streams and the mixing
/// weights of the attention half's collapse to the streams `next`.
pub open spec fn layer_ran(
    t: Trace,
    log: Seq<Command>,
    from: int,
    b: AttnBufs,
    o: OutputBufs,
    w: FfnBufs,
    at: At,
    p: LayerParams,
    f: Fineness,
    z: Sizes,
    ring: (BufId, u32),
    prev: BufId,
    next: BufId,
) -> bool {
    exists|split: BufId, block: BufId|
        #![
            trigger attn_half(
                t,
                log,
                from,
                b,
                f,
                o,
                at,
                p,
                z.n_head,
                z.head_dim,
                z.kv_row,
                z.low_dim,
                z.scale,
                ring,
                prev,
                split,
                block,
            ),
        ]
        {
            &&& attn_half(
                t,
                log,
                from,
                b,
                f,
                o,
                at,
                p,
                z.n_head,
                z.head_dim,
                z.kv_row,
                z.low_dim,
                z.scale,
                ring,
                prev,
                split,
                block,
            )
            &&& ffn_half(t, log, from, w, at.layer, at.k, false, f, block, prev, split, next)
        }
}

pub(crate) proof fn layer_ran_is(
    t: Trace,
    log: Seq<Command>,
    from: int,
    b: AttnBufs,
    o: OutputBufs,
    w: FfnBufs,
    at: At,
    p: LayerParams,
    f: Fineness,
    z: Sizes,
    ring: (BufId, u32),
    prev: BufId,
    next: BufId,
    split: BufId,
    block: BufId,
)
    requires
        attn_half(
            t,
            log,
            from,
            b,
            f,
            o,
            at,
            p,
            z.n_head,
            z.head_dim,
            z.kv_row,
            z.low_dim,
            z.scale,
            ring,
            prev,
            split,
            block,
        ),
        ffn_half(t, log, from, w, at.layer, at.k, false, f, block, prev, split, next),
    ensures
        layer_ran(t, log, from, b, o, w, at, p, f, z, ring, prev, next),
{
}

pub(crate) proof fn layer_ran_kept(
    t: Trace,
    l: Seq<Command>,
    m: Seq<Command>,
    from: int,
    earlier: int,
    b: AttnBufs,
    o: OutputBufs,
    w: FfnBufs,
    at: At,
    p: LayerParams,
    f: Fineness,
    z: Sizes,
    ring: (BufId, u32),
    prev: BufId,
    next: BufId,
)
    requires
        layer_ran(t, l, from, b, o, w, at, p, f, z, ring, prev, next),
        grew(l, m),
        earlier <= from,
        0 <= earlier,
    ensures
        layer_ran(t, m, earlier, b, o, w, at, p, f, z, ring, prev, next),
{
    let (split, block) = choose|split: BufId, block: BufId|
        #![
            trigger attn_half(
                t,
                l,
                from,
                b,
                f,
                o,
                at,
                p,
                z.n_head,
                z.head_dim,
                z.kv_row,
                z.low_dim,
                z.scale,
                ring,
                prev,
                split,
                block,
            ),
        ]
        {
            &&& attn_half(
                t,
                l,
                from,
                b,
                f,
                o,
                at,
                p,
                z.n_head,
                z.head_dim,
                z.kv_row,
                z.low_dim,
                z.scale,
                ring,
                prev,
                split,
                block,
            )
            &&& ffn_half(t, l, from, w, at.layer, at.k, false, f, block, prev, split, next)
        };
    attn_half_kept(
        t,
        l,
        m,
        from,
        earlier,
        b,
        f,
        o,
        at,
        p,
        z.n_head,
        z.head_dim,
        z.kv_row,
        z.low_dim,
        z.scale,
        ring,
        prev,
        split,
        block,
    );
    ffn_half_kept(t, l, m, from, earlier, w, at.layer, at.k, false, f, block, prev, split, next);
}

pub(crate) proof fn layer_ran_alike(
    a: Trace,
    t: Trace,
    log: Seq<Command>,
    from: int,
    b: AttnBufs,
    o: OutputBufs,
    w: FfnBufs,
    at: At,
    p: LayerParams,
    f: Fineness,
    z: Sizes,
    ring: (BufId, u32),
    prev: BufId,
    next: BufId,
)
    requires
        layer_ran(a, log, from, b, o, w, at, p, f, z, ring, prev, next),
        alike(t, a),
    ensures
        layer_ran(t, log, from, b, o, w, at, p, f, z, ring, prev, next),
{
    let (split, block) = choose|split: BufId, block: BufId|
        #![
            trigger attn_half(
                a,
                log,
                from,
                b,
                f,
                o,
                at,
                p,
                z.n_head,
                z.head_dim,
                z.kv_row,
                z.low_dim,
                z.scale,
                ring,
                prev,
                split,
                block,
            ),
        ]
        {
            &&& attn_half(
                a,
                log,
                from,
                b,
                f,
                o,
                at,
                p,
                z.n_head,
                z.head_dim,
                z.kv_row,
                z.low_dim,
                z.scale,
                ring,
                prev,
                split,
                block,
            )
            &&& ffn_half(a, log, from, w, at.layer, at.k, false, f, block, prev, split, next)
        };
    attn_half_alike(
        a,
        t,
        log,
        from,
        b,
        f,
        o,
        at,
        p,
        z.n_head,
        z.head_dim,
        z.kv_row,
        z.low_dim,
        z.scale,
        ring,
        prev,
        split,
        block,
    );
    ffn_half_alike(a, t, log, from, w, at.layer, at.k, false, f, block, prev, split, next);
}

/// A layer follows its flow.
pub proof fn law_layer_flow(
    t: Trace,
    prev: DeferredBuf,
    aw: AttnWeights,
    s: AttnShape,
    o: AttnOutput,
    place: Place,
    comp: Option<CompVerifyCtx>,
    fw: FfnWeights,
    fs: FfnShape,
)
    requires
        fs.n_hc == s.n_hc,
        fs.n_embd == s.n_embd,
        fs.sinkhorn_iters == s.sinkhorn_iters,
        fs.hc_eps == s.hc_eps,
        fs.rms_eps == s.rms_eps,
    ensures
        ({
            let (u, r) = t.encode_layer_k(prev, aw, s, o, place, comp, fw, fs);
            let b = AttnBufs {
                hc_fn: aw.hc_fn.buf,
                hc_scale: aw.hc_scale.buf,
                hc_base: aw.hc_base.buf,
                norm: aw.hc_norm_gamma.buf,
                unit: aw.unit_gamma_hc.buf,
                q_a: aw.q_a.buf,
                gamma_q: aw.gamma_q.buf,
                q_b: aw.q_b.buf,
                kv: aw.kv.buf,
                gamma_kv: aw.gamma_kv.buf,
            };
            let ob = OutputBufs { o_a: o.w_o_a.buf, o_b: o.w_o_b.buf, sinks: o.sinks.buf };
            let arrays = SharedArrays {
                gate: fw.sh_gate,
                up: fw.sh_up,
                down: fw.sh_down,
                gate_q8: fw.sh_gate_q8,
                up_q8: fw.sh_up_q8,
                down_q8: fw.sh_down_q8,
            };
            let fb = FfnBufs {
                hc_fn: fw.hc_fn.buf,
                hc_scale: fw.hc_scale.buf,
                hc_base: fw.hc_base.buf,
                norm: fw.hc_norm_gamma.buf,
                unit: fw.unit_gamma_hc.buf,
                router: fw.router.buf,
                bias: fw.router_bias.buf,
                n_experts: fw.router_bias.n_elements,
                arrays,
            };
            let at = At {
                layer: place.layer,
                slot: place.base_slot,
                base: place.base_pos,
                window: place.attn_base_pos,
                k: place.k,
            };
            let f = Fineness {
                n_hc: s.n_hc,
                n_embd: s.n_embd,
                iters: s.sinkhorn_iters,
                hc_eps: s.hc_eps,
                rms_eps: s.rms_eps,
            };
            let z = Sizes {
                n_head: s.n_head,
                head_dim: s.head_dim,
                kv_row: s.kv_row,
                low_dim: o.out_low_dim,
                scale: o.flash_scale,
            };
            let ring = ring_of(
                place.layer,
                BufId::KvCache(place.layer),
                place.params,
                place.base_pos,
                place.k,
                comp,
            );
            r is Ok && place.k > 0 && u.log.len() <= u64::MAX ==> layer_ran(
                t,
                u.log,
                t.log.len() as int,
                b,
                ob,
                fb,
                at,
                place.params,
                f,
                z,
                ring,
                prev.buf,
                r->Ok_0.buf,
            )
        }),
{
    broadcast use group_flow;

    grew_itself(t.log);
    reveal(Trace::encode_layer_k);
    let (u, r) = t.encode_layer_k(prev, aw, s, o, place, comp, fw, fs);
    if r is Ok && place.k > 0 && u.log.len() <= u64::MAX {
        let from = t.log.len() as int;
        let prof = t.config.layer_profile;
        let b = AttnBufs {
            hc_fn: aw.hc_fn.buf,
            hc_scale: aw.hc_scale.buf,
            hc_base: aw.hc_base.buf,
            norm: aw.hc_norm_gamma.buf,
            unit: aw.unit_gamma_hc.buf,
            q_a: aw.q_a.buf,
            gamma_q: aw.gamma_q.buf,
            q_b: aw.q_b.buf,
            kv: aw.kv.buf,
            gamma_kv: aw.gamma_kv.buf,
        };
        let ob = OutputBufs { o_a: o.w_o_a.buf, o_b: o.w_o_b.buf, sinks: o.sinks.buf };
        let fb = FfnBufs {
            hc_fn: fw.hc_fn.buf,
            hc_scale: fw.hc_scale.buf,
            hc_base: fw.hc_base.buf,
            norm: fw.hc_norm_gamma.buf,
            unit: fw.unit_gamma_hc.buf,
            router: fw.router.buf,
            bias: fw.router_bias.buf,
            n_experts: fw.router_bias.n_elements,
            arrays: arrays_of(fw),
        };
        let at = At {
            layer: place.layer,
            slot: place.base_slot,
            base: place.base_pos,
            window: place.attn_base_pos,
            k: place.k,
        };
        let f = Fineness {
            n_hc: s.n_hc,
            n_embd: s.n_embd,
            iters: s.sinkhorn_iters,
            hc_eps: s.hc_eps,
            rms_eps: s.rms_eps,
        };
        let ring = ring_of(
            place.layer,
            BufId::KvCache(place.layer),
            place.params,
            place.base_pos,
            place.k,
            comp,
        );
        let (a, attn) = t.encode_attn_chain_k(prev, aw, s, o, place, comp);
        let (half, block) = attn->Ok_0;
        let c = a.stage_if(prof, Stage::LayerAttnHalf);
        let (d, next) = c.encode_ffn_chain_k(
            block,
            prev,
            half.split_k,
            fw,
            fs,
            place.layer,
            place.k,
            None,
        );
        law_attention_flow(t, prev, aw, s, o, place, comp);
        grew_itself(a.log);
        grew_itself(d.log);
        assert(grew(t.log, c.log) && grew(a.log, u.log) && grew(d.log, u.log)) by {
            broadcast use {grows_encode_attn_chain_k, grows_encode_ffn_chain_k};
        }
        law_ffn_flow(c, block, prev, half.split_k, fw, fs, place.layer, place.k, None);
        assert(alike(t, c)) by {
            broadcast use stays_encode_attn_chain_k;
        }
        attn_half_kept(
            t,
            a.log,
            u.log,
            from,
            from,
            b,
            f,
            ob,
            at,
            place.params,
            s.n_head,
            s.head_dim,
            s.kv_row,
            o.out_low_dim,
            o.flash_scale,
            ring,
            prev.buf,
            half.split_k.buf,
            block.buf,
        );
        ffn_half_kept(
            c,
            d.log,
            u.log,
            c.log.len() as int,
            from,
            fb,
            place.layer,
            place.k,
            false,
            f,
            block.buf,
            prev.buf,
            half.split_k.buf,
            r->Ok_0.buf,
        );
        ffn_half_alike(
            c,
            t,
            u.log,
            from,
            fb,
            place.layer,
            place.k,
            false,
            f,
            block.buf,
            prev.buf,
            half.split_k.buf,
            r->Ok_0.buf,
        );
        let z = Sizes {
            n_head: s.n_head,
            head_dim: s.head_dim,
            kv_row: s.kv_row,
            low_dim: o.out_low_dim,
            scale: o.flash_scale,
        };
        layer_ran_is(
            t,
            u.log,
            from,
            b,
            ob,
            fb,
            at,
            place.params,
            f,
            z,
            ring,
            prev.buf,
            r->Ok_0.buf,
            half.split_k.buf,
            block.buf,
        );
    }
}

/// The compressed rows that a verified layer reads: its ring, where it holds rows and
/// the layer has a compressor for windows of four; with the rows that the step closes,
/// where the compressor's weights are there in full precision.
pub open spec fn verify_ring(
    b: BaseLayerVerifyBundle,
    layer: u32,
    base: u32,
    k: u64,
    held: Option<u32>,
) -> (BufId, u32) {
    if held is Some && held->Some_0 > 0 && b.layer_params.compress_ratio == 4 && (
        b.attn_compressor_kv.len > 0 || b.attn_compressor_kv_f16 is Some
    ) {
        (
            BufId::CompRing(layer),
            (held->Some_0 + if b.attn_compressor_kv.len > 0 {
                closed_windows(base as int, 4, k as int)
            } else {
                0
            }) as u32,
        )
    } else {
        (BufId::KvCache(layer), 0u32)
    }
}

/// What a recording shows of layer `i` of a verification, by the fields of its bundle:
/// the attention half collapses by the attention's weights and norms by the attention's
/// norm, the feed-forward half by its own, and the window of its attention ends at the
/// first position of the step.
pub open spec fn verified(
    t: Trace,
    log: Seq<Command>,
    from: int,
    l: BaseLayerVerifyBundle,
    unit: BufId,
    s: LayerShape,
    v: VerifyAt,
    held: Option<u32>,
    i: int,
    prev: BufId,
    next: BufId,
) -> bool {
    let b = AttnBufs {
        hc_fn: l.hc_attn_fn.buf,
        hc_scale: l.hc_attn_scale.buf,
        hc_base: l.hc_attn_base.buf,
        norm: l.attn_norm.buf,
        unit,
        q_a: l.attn_q_a_q8.buf,
        gamma_q: l.gamma_q.buf,
        q_b: l.attn_q_b_q8.buf,
        kv: l.attn_kv_q8.buf,
        gamma_kv: l.gamma_kv.buf,
    };
    let o = OutputBufs { o_a: l.w_o_a_q8.buf, o_b: l.w_o_b_q8.buf, sinks: l.attn_sinks.buf };
    let arrays = SharedArrays {
        gate: l.sh_w_gate,
        up: l.sh_w_up,
        down: l.sh_w_down,
        gate_q8: l.sh_w_gate_q8,
        up_q8: l.sh_w_up_q8,
        down_q8: l.sh_w_down_q8,
    };
    let w = FfnBufs {
        hc_fn: l.hc_ffn_fn.buf,
        hc_scale: l.hc_ffn_scale.buf,
        hc_base: l.hc_ffn_base.buf,
        norm: l.ffn_norm.buf,
        unit,
        router: l.w_router.buf,
        bias: l.router_bias.buf,
        n_experts: l.router_bias.n_elements,
        arrays,
    };
    let at = At {
        layer: i as u32,
        slot: v.base_slot,
        base: v.base_pos,
        window: v.base_pos,
        k: v.k,
    };
    let f = Fineness {
        n_hc: s.n_hc,
        n_embd: s.n_embd,
        iters: s.sinkhorn_iters,
        hc_eps: s.hc_eps,
        rms_eps: s.rms_eps,
    };
    let z = Sizes {
        n_head: s.n_head,
        head_dim: s.head_dim,
        kv_row: s.kv_row,
        low_dim: s.out_low_dim,
        scale: s.flash_scale,
    };
    layer_ran(
        t,
        log,
        from,
        b,
        o,
        w,
        at,
        l.layer_params,
        f,
        z,
        verify_ring(l, i as u32, v.base_pos, v.k, held),
        prev,
        next,
    )
}

pub(crate) proof fn did_layer(
    t: Trace,
    cur: DeferredBuf,
    l: BaseLayerVerifyBundle,
    unit: DeferredBuf,
    s: LayerShape,
    v: VerifyAt,
    held: Option<u32>,
    i: int,
)
    ensures
        ({
            let (u, r) = t.encode_layer_k(
                cur,
                l.attn(unit),
                s.attn(),
                s.output(l.w_o_a_q8, l.w_o_b_q8, l.attn_sinks),
                v.place(i, l.layer_params),
                l.spec_comp_ctx(held),
                l.ffn(unit),
                s.ffn(),
            );
            r is Ok && v.k > 0 && u.log.len() <= u64::MAX ==> verified(
                t,
                u.log,
                t.log.len() as int,
                l,
                unit.buf,
                s,
                v,
                held,
                i,
                cur.buf,
                r->Ok_0.buf,
            )
        }),
{
    law_layer_flow(
        t,
        cur,
        l.attn(unit),
        s.attn(),
        s.output(l.w_o_a_q8, l.w_o_b_q8, l.attn_sinks),
        v.place(i, l.layer_params),
        l.spec_comp_ctx(held),
        l.ffn(unit),
        s.ffn(),
    );
}

pub(crate) proof fn verified_kept(
    t: Trace,
    a: Seq<Command>,
    b: Seq<Command>,
    from: int,
    earlier: int,
    l: BaseLayerVerifyBundle,
    unit: BufId,
    s: LayerShape,
    v: VerifyAt,
    held: Option<u32>,
    i: int,
    prev: BufId,
    next: BufId,
)
    requires
        verified(t, a, from, l, unit, s, v, held, i, prev, next),
        grew(a, b),
        earlier <= from,
        0 <= earlier,
    ensures
        verified(t, b, earlier, l, unit, s, v, held, i, prev, next),
{
    let c = AttnBufs {
        hc_fn: l.hc_attn_fn.buf,
        hc_scale: l.hc_attn_scale.buf,
        hc_base: l.hc_attn_base.buf,
        norm: l.attn_norm.buf,
        unit,
        q_a: l.attn_q_a_q8.buf,
        gamma_q: l.gamma_q.buf,
        q_b: l.attn_q_b_q8.buf,
        kv: l.attn_kv_q8.buf,
        gamma_kv: l.gamma_kv.buf,
    };
    let o = OutputBufs { o_a: l.w_o_a_q8.buf, o_b: l.w_o_b_q8.buf, sinks: l.attn_sinks.buf };
    let arrays = SharedArrays {
        gate: l.sh_w_gate,
        up: l.sh_w_up,
        down: l.sh_w_down,
        gate_q8: l.sh_w_gate_q8,
        up_q8: l.sh_w_up_q8,
        down_q8: l.sh_w_down_q8,
    };
    let w = FfnBufs {
        hc_fn: l.hc_ffn_fn.buf,
        hc_scale: l.hc_ffn_scale.buf,
        hc_base: l.hc_ffn_base.buf,
        norm: l.ffn_norm.buf,
        unit,
        router: l.w_router.buf,
        bias: l.router_bias.buf,
        n_experts: l.router_bias.n_elements,
        arrays,
    };
    let at = At {
        layer: i as u32,
        slot: v.base_slot,
        base: v.base_pos,
        window: v.base_pos,
        k: v.k,
    };
    let f = Fineness {
        n_hc: s.n_hc,
        n_embd: s.n_embd,
        iters: s.sinkhorn_iters,
        hc_eps: s.hc_eps,
        rms_eps: s.rms_eps,
    };
    let z = Sizes {
        n_head: s.n_head,
        head_dim: s.head_dim,
        kv_row: s.kv_row,
        low_dim: s.out_low_dim,
        scale: s.flash_scale,
    };
    layer_ran_kept(
        t,
        a,
        b,
        from,
        earlier,
        c,
        o,
        w,
        at,
        l.layer_params,
        f,
        z,
        verify_ring(l, i as u32, v.base_pos, v.k, held),
        prev,
        next,
    );
}

pub(crate) proof fn verified_alike(
    a: Trace,
    t: Trace,
    log: Seq<Command>,
    from: int,
    l: BaseLayerVerifyBundle,
    unit: BufId,
    s: LayerShape,
    v: VerifyAt,
    held: Option<u32>,
    i: int,
    prev: BufId,
    next: BufId,
)
    requires
        verified(a, log, from, l, unit, s, v, held, i, prev, next),
        alike(t, a),
    ensures
        verified(t, log, from, l, unit, s, v, held, i, prev, next),
{
    let c = AttnBufs {
        hc_fn: l.hc_attn_fn.buf,
        hc_scale: l.hc_attn_scale.buf,
        hc_base: l.hc_attn_base.buf,
        norm: l.attn_norm.buf,
        unit,
        q_a: l.attn_q_a_q8.buf,
        gamma_q: l.gamma_q.buf,
        q_b: l.attn_q_b_q8.buf,
        kv: l.attn_kv_q8.buf,
        gamma_kv: l.gamma_kv.buf,
    };
    let o = OutputBufs { o_a: l.w_o_a_q8.buf, o_b: l.w_o_b_q8.buf, sinks: l.attn_sinks.buf };
    let arrays = SharedArrays {
        gate: l.sh_w_gate,
        up: l.sh_w_up,
        down: l.sh_w_down,
        gate_q8: l.sh_w_gate_q8,
        up_q8: l.sh_w_up_q8,
        down_q8: l.sh_w_down_q8,
    };
    let w = FfnBufs {
        hc_fn: l.hc_ffn_fn.buf,
        hc_scale: l.hc_ffn_scale.buf,
        hc_base: l.hc_ffn_base.buf,
        norm: l.ffn_norm.buf,
        unit,
        router: l.w_router.buf,
        bias: l.router_bias.buf,
        n_experts: l.router_bias.n_elements,
        arrays,
    };
    let at = At {
        layer: i as u32,
        slot: v.base_slot,
        base: v.base_pos,
        window: v.base_pos,
        k: v.k,
    };
    let f = Fineness {
        n_hc: s.n_hc,
        n_embd: s.n_embd,
        iters: s.sinkhorn_iters,
        hc_eps: s.hc_eps,
        rms_eps: s.rms_eps,
    };
    let z = Sizes {
        n_head: s.n_head,
        head_dim: s.head_dim,
        kv_row: s.kv_row,
        low_dim: s.out_low_dim,
        scale: s.flash_scale,
    };
    layer_ran_alike(
        a,
        t,
        log,
        from,
        c,
        o,
        w,
        at,
        l.layer_params,
        f,
        z,
        verify_ring(l, i as u32, v.base_pos, v.k, held),
        prev,
        next,
    );
}

/// The streams between the layers of a verification: `streams[i]` goes into layer `i`,
/// and `streams[i + 1]` comes out of it.
pub open spec fn verified_along(
    t: Trace,
    log: Seq<Command>,
    from: int,
    layers: Seq<BaseLayerVerifyBundle>,
    unit: BufId,
    s: LayerShape,
    v: VerifyAt,
    comp: Option<Seq<u32>>,
    first: int,
    streams: Seq<BufId>,
) -> bool {
    forall|i: int| first <= i < first + streams.len() - 1 ==> #[trigger] verified_one(
        t,
        log,
        from,
        layers,
        unit,
        s,
        v,
        comp,
        first,
        streams,
        i,
    )
}

/// Layer `i` of [`verified_along`].
pub open spec fn verified_one(
    t: Trace,
    log: Seq<Command>,
    from: int,
    layers: Seq<BaseLayerVerifyBundle>,
    unit: BufId,
    s: LayerShape,
    v: VerifyAt,
    comp: Option<Seq<u32>>,
    first: int,
    streams: Seq<BufId>,
    i: int,
) -> bool {
    let held = match comp {
        Some(c) => Some(c[i]),
        None => None,
    };
    verified(
        t,
        log,
        from,
        layers[i],
        unit,
        s,
        v,
        held,
        i,
        streams[i - first],
        streams[i - first + 1],
    )
}

pub(crate) proof fn did_verify(
    t: Trace,
    config: Config,
    cur: DeferredBuf,
    layers: Seq<BaseLayerVerifyBundle>,
    unit: DeferredBuf,
    s: LayerShape,
    v: VerifyAt,
    comp: Option<Seq<u32>>,
    depth: nat,
    i: int,
) -> (streams: Seq<BufId>)
    requires
        0 <= i <= depth,
        v.k > 0,
    ensures
        ({
            let (u, r) = t.verify_from(config, cur, layers, unit, s, v, comp, depth, i);
            r is Ok && u.log.len() <= u64::MAX ==> {
                &&& streams.len() == depth - i + 1
                &&& streams[0] == cur.buf
                &&& streams.last() == r->Ok_0.buf
                &&& verified_along(
                    t,
                    u.log,
                    t.log.len() as int,
                    layers,
                    unit.buf,
                    s,
                    v,
                    comp,
                    i,
                    streams,
                )
            }
        }),
    decreases depth - i,
{
    let (u, r) = t.verify_from(config, cur, layers, unit, s, v, comp, depth, i);
    if i < depth && r is Ok && u.log.len() <= u64::MAX {
        broadcast use group_flow;

        let from = t.log.len() as int;
        let l = layers[i];
        let held = ring_rows(comp, i);
        let (a, next) = t.encode_layer_k(
            cur,
            l.attn(unit),
            s.attn(),
            s.output(l.w_o_a_q8, l.w_o_b_q8, l.attn_sinks),
            v.place(i, l.layer_params),
            l.spec_comp_ctx(held),
            l.ffn(unit),
            s.ffn(),
        );
        let b = a.after_layer(
            config,
            next->Ok_0,
            l.layer_params.compress_ratio,
            (s.n_hc * s.n_embd) as u64,
            v.k,
            i,
            layers.len(),
        );
        grew_itself(t.log);
        grew_itself(a.log);
        grew_itself(b.log);
        grew_itself(u.log);
        assert(grew(t.log, b.log) && grew(a.log, u.log) && grew(b.log, u.log)) by {
            broadcast use {grows_encode_layer_k, grows_after_layer, grows_verify_from};
        }
        assert(alike(t, b)) by {
            broadcast use {stays_encode_layer_k, stays_after_layer};
        }
        did_layer(t, cur, l, unit, s, v, held, i);
        verified_kept(
            t,
            a.log,
            u.log,
            from,
            from,
            l,
            unit.buf,
            s,
            v,
            held,
            i,
            cur.buf,
            next->Ok_0.buf,
        );
        let rest = did_verify(b, config, next->Ok_0, layers, unit, s, v, comp, depth, i + 1);
        let streams = seq![cur.buf] + rest;
        assert forall|j: int| i <= j < i + streams.len() - 1 implies #[trigger] verified_one(
            t,
            u.log,
            from,
            layers,
            unit.buf,
            s,
            v,
            comp,
            i,
            streams,
            j,
        ) by {
            if j > i {
                assert(
                    verified_one(
                        b,
                        u.log,
                        b.log.len() as int,
                        layers,
                        unit.buf,
                        s,
                        v,
                        comp,
                        i + 1,
                        rest,
                        j,
                    )
                );
                assert(streams[j - i] == rest[j - i - 1]);
                assert(streams[j - i + 1] == rest[j - i]);
                let held = match comp {
                    Some(c) => Some(c[j]),
                    None => None,
                };
                verified_kept(
                    b,
                    u.log,
                    u.log,
                    b.log.len() as int,
                    from,
                    layers[j],
                    unit.buf,
                    s,
                    v,
                    held,
                    j,
                    streams[j - i],
                    streams[j - i + 1],
                );
                verified_alike(
                    b,
                    t,
                    u.log,
                    from,
                    layers[j],
                    unit.buf,
                    s,
                    v,
                    held,
                    j,
                    streams[j - i],
                    streams[j - i + 1],
                );
            }
        }
        streams
    } else {
        seq![cur.buf]
    }
}

/// Verification runs its layers in turn, each by its own bundle: the streams that go in
/// reach the first layer, what leaves a layer reaches the next, and what leaves the
/// last is the result. Each half of a layer collapses and norms by the weights that the
/// bundle holds for that half.
#[allow(non_snake_case)]
pub proof fn law_verification_flow(
    t: Trace,
    prev: DeferredBuf,
    layers: Seq<BaseLayerVerifyBundle>,
    unit: DeferredBuf,
    s: LayerShape,
    v: VerifyAt,
    comp: Option<Seq<u32>>,
)
    ensures
        ({
            let (u, r) = t.encode_verify_layers_K(prev, layers, unit, s, v, comp);
            let depth: int = match t.config.verify_n_layers {
                Some(n) if n < layers.len() => n as int,
                _ => layers.len() as int,
            };
            r is Ok && v.k > 0 && u.log.len() <= u64::MAX ==> exists|streams: Seq<BufId>|
                #![
                    trigger verified_along(
                        t,
                        u.log,
                        t.log.len() as int,
                        layers,
                        unit.buf,
                        s,
                        v,
                        comp,
                        0,
                        streams,
                    ),
                ]
                {
                    &&& streams.len() == depth + 1
                    &&& streams[0] == prev.buf
                    &&& streams.last() == r->Ok_0.buf
                    &&& verified_along(
                        t,
                        u.log,
                        t.log.len() as int,
                        layers,
                        unit.buf,
                        s,
                        v,
                        comp,
                        0,
                        streams,
                    )
                }
        }),
{
    reveal(Trace::encode_verify_layers_K);
    let (u, r) = t.encode_verify_layers_K(prev, layers, unit, s, v, comp);
    if r is Ok && v.k > 0 && u.log.len() <= u64::MAX {
        let streams = did_verify(
            t,
            t.config,
            prev,
            layers,
            unit,
            s,
            v,
            comp,
            spec_depth(t.config, layers.len()),
            0,
        );
        assert(
            verified_along(t, u.log, t.log.len() as int, layers, unit.buf, s, v, comp, 0, streams)
        );
    }
}

/// The buffers that an output head is handed.
pub struct HeadBufs {
    pub unit: BufId,
    pub hc_fn: BufId,
    pub hc_scale: BufId,
    pub hc_base: BufId,
    pub norm: BufId,
    pub lm_head: BufId,
}

/// The matrix `w` times row `i` of `x` went to row `i` of `out`.
pub open spec fn multiplied_at(
    log: Seq<Command>,
    from: int,
    w: BufId,
    x: BufId,
    d_in: u64,
    d_out: u64,
    i: int,
    out: BufId,
) -> bool {
    launched(
        log,
        from,
        Kernel::MulMvF32,
        1,
        seq![
            Command::Buffer(1, w, 0),
            Command::Buffer(2, x, (i * (d_in * 4)) as u64),
            Command::Buffer(3, out, (i * (d_out * 4)) as u64),
        ],
    )
}

/// The factors of the streams of position `i`, by its row of `pre`, went to its row of
/// `out`.
pub open spec fn factored_at(
    log: Seq<Command>,
    from: int,
    pre: BufId,
    scale: BufId,
    base: BufId,
    n_hc: u64,
    eps: F32,
    i: int,
    out: BufId,
) -> bool {
    launched(
        log,
        from,
        Kernel::MtpOutputHcWeights,
        0,
        seq![
            Command::Buffer(0, pre, (i * (n_hc * 4)) as u64),
            Command::Buffer(1, scale, 0),
            Command::Buffer(2, base, 0),
            Command::Buffer(3, out, (i * (n_hc * 4)) as u64),
            Command::Bytes(4, Args::U32(n_hc as u32)),
            Command::Bytes(5, Args::F32(eps)),
        ],
    )
}

/// What a recording shows of an output head of `k` positions: the streams `hc` are
/// normed by ones, multiplied, and turned into a factor for each stream; by these the
/// streams are summed; and the sum is normed and multiplied by the vocabulary's matrix.
pub open spec fn head_ran(
    log: Seq<Command>,
    from: int,
    b: HeadBufs,
    hc: BufId,
    n_embd: u64,
    n_hc: u64,
    k: u64,
    rms_eps: F32,
    hc_eps: F32,
    logits: BufId,
) -> bool {
    exists|flat: BufId, pre: BufId, weights: BufId, embd: BufId, x: BufId| #[trigger] head_over(
        log,
        from,
        b,
        hc,
        n_embd,
        n_hc,
        k,
        rms_eps,
        hc_eps,
        logits,
        flat,
        pre,
        weights,
        embd,
        x,
    )
}

/// [`head_ran`], over the buffers between its steps.
pub open spec fn head_over(
    log: Seq<Command>,
    from: int,
    b: HeadBufs,
    hc: BufId,
    n_embd: u64,
    n_hc: u64,
    k: u64,
    rms_eps: F32,
    hc_eps: F32,
    logits: BufId,
    flat: BufId,
    pre: BufId,
    weights: BufId,
    embd: BufId,
    x: BufId,
) -> bool {
    &&& normed(log, from, hc, b.unit, rms_eps, flat)
    &&& forall|i: int| 0 <= i < k ==> #[trigger] multiplied_at(
        log,
        from,
        b.hc_fn,
        flat,
        (n_hc * n_embd) as u64,
        n_hc,
        i,
        pre,
    )
    &&& forall|i: int| 0 <= i < k ==> #[trigger] factored_at(
        log,
        from,
        pre,
        b.hc_scale,
        b.hc_base,
        n_hc,
        hc_eps,
        i,
        weights,
    )
    &&& launched(
        log,
        from,
        Kernel::HcWeightedSum,
        1,
        seq![
            Command::Buffer(1, hc, 0),
            Command::Buffer(2, weights, 0),
            Command::Buffer(3, embd, 0),
        ],
    )
    &&& normed(log, from, embd, b.norm, rms_eps, x)
    &&& product_of(
        log,
        from,
        Kernel::MulMvQ8,
        b.lm_head,
        x,
        logits,
    ) || multiplied_few(log, from, b.lm_head, x, logits)
}

pub(crate) proof fn head_ran_kept(
    l: Seq<Command>,
    m: Seq<Command>,
    from: int,
    earlier: int,
    b: HeadBufs,
    hc: BufId,
    n_embd: u64,
    n_hc: u64,
    k: u64,
    rms_eps: F32,
    hc_eps: F32,
    logits: BufId,
)
    requires
        head_ran(l, from, b, hc, n_embd, n_hc, k, rms_eps, hc_eps, logits),
        grew(l, m),
        earlier <= from,
    ensures
        head_ran(m, earlier, b, hc, n_embd, n_hc, k, rms_eps, hc_eps, logits),
{
    let (flat, pre, weights, embd, x) = choose|flat: BufId, pre: BufId, weights: BufId, embd: BufId, x: BufId|
        #[trigger] head_over(
        l,
        from,
        b,
        hc,
        n_embd,
        n_hc,
        k,
        rms_eps,
        hc_eps,
        logits,
        flat,
        pre,
        weights,
        embd,
        x,
    );
    broadcast use {lemma_kept, normed_kept};

    assert forall|i: int| 0 <= i < k implies #[trigger] multiplied_at(
        m,
        earlier,
        b.hc_fn,
        flat,
        (n_hc * n_embd) as u64,
        n_hc,
        i,
        pre,
    ) by {
        assert(multiplied_at(l, from, b.hc_fn, flat, (n_hc * n_embd) as u64, n_hc, i, pre));
    }
    assert forall|i: int| 0 <= i < k implies #[trigger] factored_at(
        m,
        earlier,
        pre,
        b.hc_scale,
        b.hc_base,
        n_hc,
        hc_eps,
        i,
        weights,
    ) by {
        assert(factored_at(l, from, pre, b.hc_scale, b.hc_base, n_hc, hc_eps, i, weights));
    }
    if multiplied_few(l, from, b.lm_head, x, logits) {
        multiplied_few_kept(l, m, from, earlier, b.lm_head, x, logits);
    } else {
        assert(product_of(m, earlier, Kernel::MulMvQ8, b.lm_head, x, logits));
    }
    assert(
        launched(
            m,
            earlier,
            Kernel::HcWeightedSum,
            1,
            seq![
                Command::Buffer(1, hc, 0),
                Command::Buffer(2, weights, 0),
                Command::Buffer(3, embd, 0),
            ],
        )
    );
    assert(
        head_over(
            m,
            earlier,
            b,
            hc,
            n_embd,
            n_hc,
            k,
            rms_eps,
            hc_eps,
            logits,
            flat,
            pre,
            weights,
            embd,
            x,
        )
    );
}

pub(crate) proof fn did_products(
    t: Trace,
    nsg: i16,
    nxpsg: i16,
    w: BufId,
    x: BufId,
    out: BufId,
    d_out: u64,
    d_in: u64,
    k: u64,
    i: int,
)
    requires
        0 <= i,
    ensures
        forall|j: int| i <= j < k ==> #[trigger] multiplied_at(
            t.mv_rows(
                Pipe::Special(Kernel::MulMvF32, Consts::Rows { nsg, nxpsg }),
                nsg,
                w,
                x,
                out,
                d_out,
                d_in,
                4,
                k,
                i,
            ).log,
            t.log.len() as int,
            w,
            x,
            d_in,
            d_out,
            j,
            out,
        ),
    decreases k - i,
{
    if i < k {
        let n = t.log.len() as int;
        let pipe = Pipe::Special(Kernel::MulMvF32, Consts::Rows { nsg, nxpsg });
        let u = t.mv_rows(pipe, nsg, w, x, out, d_out, d_in, 4, k, i);
        let b = t.launch3(
            pipe,
            Args::MulMv(Trace::row_args(d_out, d_in, 4)),
            w,
            (x, (i * (d_in * 4)) as u64),
            (out, (i * (d_out * 4)) as u64),
            256,
            (((d_out + 1) / 2) as u64, 1, 1),
            (32, nsg as u64, 1),
        );
        lemma_tail(
            b.log,
            n,
            Kernel::MulMvF32,
            1,
            seq![
                Command::Buffer(1, w, 0),
                Command::Buffer(2, x, (i * (d_in * 4)) as u64),
                Command::Buffer(3, out, (i * (d_out * 4)) as u64),
            ],
            3,
        );
        assert(multiplied_at(b.log, n, w, x, d_in, d_out, i, out));
        grew_itself(b.log);
        grows_mv_rows(b.log, b, pipe, nsg, w, x, out, d_out, d_in, 4, k, i + 1);
        grew_itself(u.log);
        did_products(b, nsg, nxpsg, w, x, out, d_out, d_in, k, i + 1);
        broadcast use lemma_kept;

        assert forall|j: int| i <= j < k implies #[trigger] multiplied_at(
            u.log,
            n,
            w,
            x,
            d_in,
            d_out,
            j,
            out,
        ) by {
            if j > i {
                assert(multiplied_at(u.log, b.log.len() as int, w, x, d_in, d_out, j, out));
            } else {
                assert(multiplied_at(b.log, n, w, x, d_in, d_out, i, out));
            }
        }
    }
}

pub(crate) proof fn did_factors(
    t: Trace,
    pre: BufId,
    scale: BufId,
    base: BufId,
    out: BufId,
    n_hc: u64,
    eps: F32,
    k: u64,
    i: int,
)
    requires
        0 <= i,
    ensures
        forall|j: int| i <= j < k ==> #[trigger] factored_at(
            t.head_weights_rows(pre, scale, base, out, n_hc, eps, k, i).log,
            t.log.len() as int,
            pre,
            scale,
            base,
            n_hc,
            eps,
            j,
            out,
        ),
    decreases k - i,
{
    if i < k {
        let n = t.log.len() as int;
        let off = (i * (n_hc * 4)) as u64;
        let u = t.head_weights_rows(pre, scale, base, out, n_hc, eps, k, i);
        let b = t.head_weights_launch(pre, scale, base, out, off, n_hc, eps);
        lemma_tail(
            b.log,
            n,
            Kernel::MtpOutputHcWeights,
            0,
            seq![
                Command::Buffer(0, pre, off),
                Command::Buffer(1, scale, 0),
                Command::Buffer(2, base, 0),
                Command::Buffer(3, out, off),
                Command::Bytes(4, Args::U32(n_hc as u32)),
                Command::Bytes(5, Args::F32(eps)),
            ],
            2,
        );
        assert(factored_at(b.log, n, pre, scale, base, n_hc, eps, i, out));
        grew_itself(b.log);
        grows_head_weights_rows(b.log, b, pre, scale, base, out, n_hc, eps, k, i + 1);
        grew_itself(u.log);
        did_factors(b, pre, scale, base, out, n_hc, eps, k, i + 1);
        broadcast use lemma_kept;

        assert forall|j: int| i <= j < k implies #[trigger] factored_at(
            u.log,
            n,
            pre,
            scale,
            base,
            n_hc,
            eps,
            j,
            out,
        ) by {
            if j > i {
                assert(factored_at(u.log, b.log.len() as int, pre, scale, base, n_hc, eps, j, out));
            } else {
                assert(factored_at(b.log, n, pre, scale, base, n_hc, eps, i, out));
            }
        }
    }
}

/// The output head of one position follows its flow.
pub proof fn law_head_flow(
    t: Trace,
    hc: DeferredBuf,
    w: HeadWeights,
    n_embd: u64,
    n_hc: u64,
    vocab: u64,
    rms_eps: F32,
    hc_eps: F32,
)
    ensures
        ({
            let (u, r) = t.encode_mtp_output_head(hc, w, n_embd, n_hc, vocab, rms_eps, hc_eps);
            let b = HeadBufs {
                unit: w.unit_gamma_hc.buf,
                hc_fn: w.hc_fn.buf,
                hc_scale: w.hc_scale.buf,
                hc_base: w.hc_base.buf,
                norm: w.norm_gamma.buf,
                lm_head: w.lm_head.buf,
            };
            r is Ok ==> head_ran(
                u.log,
                t.log.len() as int,
                b,
                hc.buf,
                n_embd,
                n_hc,
                1,
                rms_eps,
                hc_eps,
                r->Ok_0.buf,
            )
        }),
{
    broadcast use group_flow;

    grew_itself(t.log);
    reveal(Trace::encode_mtp_output_head);
    let (u, r) = t.encode_mtp_output_head(hc, w, n_embd, n_hc, vocab, rms_eps, hc_eps);
    if r is Ok {
        let from = t.log.len() as int;
        let dim = (n_hc * n_embd) as u64;
        let bufs = HeadBufs {
            unit: w.unit_gamma_hc.buf,
            hc_fn: w.hc_fn.buf,
            hc_scale: w.hc_scale.buf,
            hc_base: w.hc_base.buf,
            norm: w.norm_gamma.buf,
            lm_head: w.lm_head.buf,
        };
        let (a, flat) = t.rms_norm_mul(hc, w.unit_gamma_hc, rms_eps);
        let (b, pre) = a.matvec_f32(w.hc_fn, flat->Ok_0, dim, n_hc);
        let (c, weights) = b.alloc_f32(n_hc);
        let d = c.head_weights_launch(
            pre->Ok_0.buf,
            w.hc_scale.buf,
            w.hc_base.buf,
            weights.buf,
            0,
            n_hc,
            hc_eps,
        );
        let (e, embd) = d.alloc_f32(n_embd);
        let f = e.weighted_sum_launch(hc.buf, weights.buf, embd.buf, n_embd, n_hc, 1);
        let (g, x) = f.rms_norm_mul(embd, w.norm_gamma, rms_eps);
        did_norm(t, hc, w.unit_gamma_hc, rms_eps);
        did_f32(a, w.hc_fn, flat->Ok_0, dim, n_hc);
        lemma_tail(
            d.log,
            b.log.len() as int,
            Kernel::MtpOutputHcWeights,
            0,
            seq![
                Command::Buffer(0, pre->Ok_0.buf, 0),
                Command::Buffer(1, w.hc_scale.buf, 0),
                Command::Buffer(2, w.hc_base.buf, 0),
                Command::Buffer(3, weights.buf, 0),
                Command::Bytes(4, Args::U32(n_hc as u32)),
                Command::Bytes(5, Args::F32(hc_eps)),
            ],
            2,
        );
        lemma_tail(
            f.log,
            d.log.len() as int,
            Kernel::HcWeightedSum,
            1,
            seq![
                Command::Buffer(1, hc.buf, 0),
                Command::Buffer(2, weights.buf, 0),
                Command::Buffer(3, embd.buf, 0),
            ],
            2,
        );
        did_norm(f, embd, w.norm_gamma, rms_eps);
        did_q8(g, w.lm_head, x->Ok_0, n_embd, vocab);
        grew_itself(a.log);
        grew_itself(b.log);
        grew_itself(d.log);
        grew_itself(f.log);
        grew_itself(g.log);
        grew_itself(u.log);
        assert(
            grew(
                t.log,
                a.log,
            ) && grew(
                t.log,
                b.log,
            ) && grew(
                t.log,
                d.log,
            ) && grew(
                t.log,
                f.log,
            ) && grew(
                t.log,
                g.log,
            ) && grew(
                a.log,
                u.log,
            ) && grew(
                b.log,
                u.log,
            ) && grew(d.log, u.log) && grew(f.log, u.log) && grew(g.log, u.log)
        ) by {
            broadcast use {grows_rms_norm_mul, grows_matvec_f32, grows_matvec_q8_0};
        }
        broadcast use {lemma_kept, normed_kept};

        assert(
            multiplied_at(
                b.log,
                a.log.len() as int,
                w.hc_fn.buf,
                flat->Ok_0.buf,
                dim,
                n_hc,
                0,
                pre->Ok_0.buf,
            )
        ) by {
            assert(
                product_of(
                    b.log,
                    a.log.len() as int,
                    Kernel::MulMvF32,
                    w.hc_fn.buf,
                    flat->Ok_0.buf,
                    pre->Ok_0.buf,
                )
            );
        }
        assert(
            multiplied_at(u.log, from, w.hc_fn.buf, flat->Ok_0.buf, dim, n_hc, 0, pre->Ok_0.buf)
        );
        assert(
            factored_at(
                d.log,
                b.log.len() as int,
                pre->Ok_0.buf,
                w.hc_scale.buf,
                w.hc_base.buf,
                n_hc,
                hc_eps,
                0,
                weights.buf,
            )
        );
        assert(
            factored_at(
                u.log,
                from,
                pre->Ok_0.buf,
                w.hc_scale.buf,
                w.hc_base.buf,
                n_hc,
                hc_eps,
                0,
                weights.buf,
            )
        );
        assert(product_of(u.log, from, Kernel::MulMvQ8, w.lm_head.buf, x->Ok_0.buf, r->Ok_0.buf));
        assert(
            head_over(
                u.log,
                from,
                bufs,
                hc.buf,
                n_embd,
                n_hc,
                1,
                rms_eps,
                hc_eps,
                r->Ok_0.buf,
                flat->Ok_0.buf,
                pre->Ok_0.buf,
                weights.buf,
                embd.buf,
                x->Ok_0.buf,
            )
        );
    }
}

/// The output head of several positions follows the same flow, each position in its own
/// rows.
#[allow(non_snake_case)]
pub proof fn law_heads_flow(
    t: Trace,
    hc: DeferredBuf,
    w: HeadWeights,
    n_embd: u64,
    n_hc: u64,
    vocab: u64,
    k: u64,
    rms_eps: F32,
    hc_eps: F32,
)
    ensures
        ({
            let (u, r) = t.encode_verify_output_head_K(
                hc,
                w,
                n_embd,
                n_hc,
                vocab,
                k,
                rms_eps,
                hc_eps,
            );
            let b = HeadBufs {
                unit: w.unit_gamma_hc.buf,
                hc_fn: w.hc_fn.buf,
                hc_scale: w.hc_scale.buf,
                hc_base: w.hc_base.buf,
                norm: w.norm_gamma.buf,
                lm_head: w.lm_head.buf,
            };
            r is Ok && k > 0 ==> head_ran(
                u.log,
                t.log.len() as int,
                b,
                hc.buf,
                n_embd,
                n_hc,
                k,
                rms_eps,
                hc_eps,
                r->Ok_0.buf,
            )
        }),
{
    broadcast use group_flow;

    grew_itself(t.log);
    reveal(Trace::encode_verify_output_head_K);
    let (u, r) = t.encode_verify_output_head_K(hc, w, n_embd, n_hc, vocab, k, rms_eps, hc_eps);
    if r is Ok && k > 0 {
        let from = t.log.len() as int;
        let dim = (n_hc * n_embd) as u64;
        let nsg = spec_nsg_by_width(dim);
        let bufs = HeadBufs {
            unit: w.unit_gamma_hc.buf,
            hc_fn: w.hc_fn.buf,
            hc_scale: w.hc_scale.buf,
            hc_base: w.hc_base.buf,
            norm: w.norm_gamma.buf,
            lm_head: w.lm_head.buf,
        };
        let (a, flat) = t.rms_norm_mul_k(hc, w.unit_gamma_hc, dim, k, rms_eps);
        let (b0, pre) = a.alloc_f32((k * n_hc) as u64);
        let b = b0.mv_rows(
            Pipe::Special(Kernel::MulMvF32, Consts::Rows { nsg, nxpsg: spec_nxpsg(dim) }),
            nsg,
            w.hc_fn.buf,
            flat->Ok_0.buf,
            pre.buf,
            n_hc,
            dim,
            4,
            k,
            0,
        );
        let (c, weights) = b.alloc_f32((k * n_hc) as u64);
        let d = c.head_weights_rows(
            pre.buf,
            w.hc_scale.buf,
            w.hc_base.buf,
            weights.buf,
            n_hc,
            hc_eps,
            k,
            0,
        );
        let (e, embd) = d.alloc_f32((k * n_embd) as u64);
        let f = e.weighted_sum_launch(hc.buf, weights.buf, embd.buf, n_embd, n_hc, k);
        let (g, x) = f.rms_norm_mul_k(embd, w.norm_gamma, n_embd, k, rms_eps);
        did_norms(t, hc, w.unit_gamma_hc, dim, k, rms_eps);
        did_products(
            b0,
            nsg,
            spec_nxpsg(dim),
            w.hc_fn.buf,
            flat->Ok_0.buf,
            pre.buf,
            n_hc,
            dim,
            k,
            0,
        );
        did_factors(c, pre.buf, w.hc_scale.buf, w.hc_base.buf, weights.buf, n_hc, hc_eps, k, 0);
        lemma_tail(
            f.log,
            d.log.len() as int,
            Kernel::HcWeightedSum,
            1,
            seq![
                Command::Buffer(1, hc.buf, 0),
                Command::Buffer(2, weights.buf, 0),
                Command::Buffer(3, embd.buf, 0),
            ],
            2,
        );
        did_norms(f, embd, w.norm_gamma, n_embd, k, rms_eps);
        did_few(g, w.lm_head, x->Ok_0, n_embd, vocab, k);
        grew_itself(a.log);
        grew_itself(b.log);
        grew_itself(d.log);
        grew_itself(f.log);
        grew_itself(g.log);
        grew_itself(u.log);
        assert(
            grew(
                t.log,
                b0.log,
            ) && grew(
                t.log,
                c.log,
            ) && grew(
                t.log,
                d.log,
            ) && grew(
                t.log,
                f.log,
            ) && grew(
                t.log,
                g.log,
            ) && grew(
                a.log,
                u.log,
            ) && grew(
                b.log,
                u.log,
            ) && grew(d.log, u.log) && grew(f.log, u.log) && grew(g.log, u.log)
        ) by {
            broadcast use {
                grows_rms_norm_mul_k,
                grows_mv_rows,
                grows_head_weights_rows,
                grows_matvec_k_q8_0,
            };
        }
        multiplied_few_kept(
            u.log,
            u.log,
            g.log.len() as int,
            from,
            w.lm_head.buf,
            x->Ok_0.buf,
            r->Ok_0.buf,
        );
        broadcast use {lemma_kept, normed_kept};

        assert forall|i: int| 0 <= i < k implies #[trigger] multiplied_at(
            u.log,
            from,
            w.hc_fn.buf,
            flat->Ok_0.buf,
            dim,
            n_hc,
            i,
            pre.buf,
        ) by {
            assert(
                multiplied_at(
                    b.log,
                    b0.log.len() as int,
                    w.hc_fn.buf,
                    flat->Ok_0.buf,
                    dim,
                    n_hc,
                    i,
                    pre.buf,
                )
            );
        }
        assert forall|i: int| 0 <= i < k implies #[trigger] factored_at(
            u.log,
            from,
            pre.buf,
            w.hc_scale.buf,
            w.hc_base.buf,
            n_hc,
            hc_eps,
            i,
            weights.buf,
        ) by {
            assert(
                factored_at(
                    d.log,
                    c.log.len() as int,
                    pre.buf,
                    w.hc_scale.buf,
                    w.hc_base.buf,
                    n_hc,
                    hc_eps,
                    i,
                    weights.buf,
                )
            );
        }
        assert(
            head_over(
                u.log,
                from,
                bufs,
                hc.buf,
                n_embd,
                n_hc,
                k,
                rms_eps,
                hc_eps,
                r->Ok_0.buf,
                flat->Ok_0.buf,
                pre.buf,
                weights.buf,
                embd.buf,
                x->Ok_0.buf,
            )
        );
    }
}

/// A draft follows its flow: the mix of embedding and streams goes through the drafter's
/// layer, by the fields of its weights, and what leaves the layer is both returned and
/// given to the output head.
pub proof fn law_draft_flow(
    t: Trace,
    prev: DeferredBuf,
    token: DeferredBuf,
    mix: MtpDraftInputMix,
    l: MtpDraftLayerWeights,
    h: MtpDraftOutputHead,
    s: MtpDraftShape,
    place: Place,
)
    ensures
        ({
            let (u, r) = t.encode_mtp_draft_with_out_hc(prev, token, mix, l, h, s, place);
            let from = t.log.len() as int;
            let unit = h.unit_gamma_hc.buf;
            let m = MixBufs {
                enorm: mix.enorm_gamma.buf,
                e_proj: mix.e_proj_q8.buf,
                hnorm: mix.hnorm_gamma.buf,
                h_proj: mix.h_proj_q8.buf,
            };
            let b = AttnBufs {
                hc_fn: l.hc_attn_fn.buf,
                hc_scale: l.hc_attn_scale.buf,
                hc_base: l.hc_attn_base.buf,
                norm: l.attn_norm.buf,
                unit,
                q_a: l.attn_q_a_q8.buf,
                gamma_q: l.gamma_q.buf,
                q_b: l.attn_q_b_q8.buf,
                kv: l.attn_kv_q8.buf,
                gamma_kv: l.gamma_kv.buf,
            };
            let o = OutputBufs {
                o_a: l.w_o_a_q8.buf,
                o_b: l.w_o_b_q8.buf,
                sinks: l.attn_sinks.buf,
            };
            let arrays = SharedArrays {
                gate: l.sh_w_gate,
                up: l.sh_w_up,
                down: l.sh_w_down,
                gate_q8: l.sh_w_gate_q8,
                up_q8: l.sh_w_up_q8,
                down_q8: l.sh_w_down_q8,
            };
            let w = FfnBufs {
                hc_fn: l.hc_ffn_fn.buf,
                hc_scale: l.hc_ffn_scale.buf,
                hc_base: l.hc_ffn_base.buf,
                norm: l.ffn_norm.buf,
                unit,
                router: l.w_router.buf,
                bias: l.router_bias.buf,
                n_experts: l.router_bias.n_elements,
                arrays,
            };
            let at = At {
                layer: place.layer,
                slot: place.base_slot,
                base: place.base_pos,
                window: place.attn_base_pos,
                k: place.k,
            };
            let f = Fineness {
                n_hc: s.n_hc,
                n_embd: s.n_embd,
                iters: s.sinkhorn_iters,
                hc_eps: s.hc_eps,
                rms_eps: s.rms_eps,
            };
            let z = Sizes {
                n_head: s.n_head,
                head_dim: s.head_dim,
                kv_row: s.kv_row,
                low_dim: s.out_low_dim,
                scale: s.flash_scale,
            };
            let d = HeadBufs {
                unit,
                hc_fn: h.hc_head_fn.buf,
                hc_scale: h.hc_head_scale.buf,
                hc_base: h.hc_head_base.buf,
                norm: h.mtp_norm.buf,
                lm_head: h.base_lm_head_q8.buf,
            };
            r is Ok && place.k > 0 && u.log.len() <= u64::MAX ==> exists|input: BufId|
                #![
                    trigger mixed(
                        u.log,
                        from,
                        m,
                        token.buf,
                        prev.buf,
                        s.n_embd,
                        s.n_hc,
                        s.rms_eps,
                        input,
                    ),
                ]
                {
                    &&& mixed(
                        u.log,
                        from,
                        m,
                        token.buf,
                        prev.buf,
                        s.n_embd,
                        s.n_hc,
                        s.rms_eps,
                        input,
                    )
                    &&& layer_ran(
                        t,
                        u.log,
                        from,
                        b,
                        o,
                        w,
                        at,
                        place.params,
                        f,
                        z,
                        (BufId::KvCache(place.layer), 0),
                        input,
                        r->Ok_0.0.buf,
                    )
                    &&& head_ran(
                        u.log,
                        from,
                        d,
                        r->Ok_0.0.buf,
                        s.n_embd,
                        s.n_hc,
                        1,
                        s.rms_eps,
                        s.hc_eps,
                        r->Ok_0.1.buf,
                    )
                }
        }),
{
    broadcast use group_flow;

    grew_itself(t.log);
    reveal(Trace::encode_mtp_draft_with_out_hc);
    let (u, r) = t.encode_mtp_draft_with_out_hc(prev, token, mix, l, h, s, place);
    if r is Ok && place.k > 0 && u.log.len() <= u64::MAX {
        let from = t.log.len() as int;
        let unit = h.unit_gamma_hc.buf;
        let m = MixBufs {
            enorm: mix.enorm_gamma.buf,
            e_proj: mix.e_proj_q8.buf,
            hnorm: mix.hnorm_gamma.buf,
            h_proj: mix.h_proj_q8.buf,
        };
        let b = AttnBufs {
            hc_fn: l.hc_attn_fn.buf,
            hc_scale: l.hc_attn_scale.buf,
            hc_base: l.hc_attn_base.buf,
            norm: l.attn_norm.buf,
            unit,
            q_a: l.attn_q_a_q8.buf,
            gamma_q: l.gamma_q.buf,
            q_b: l.attn_q_b_q8.buf,
            kv: l.attn_kv_q8.buf,
            gamma_kv: l.gamma_kv.buf,
        };
        let o = OutputBufs { o_a: l.w_o_a_q8.buf, o_b: l.w_o_b_q8.buf, sinks: l.attn_sinks.buf };
        let arrays = SharedArrays {
            gate: l.sh_w_gate,
            up: l.sh_w_up,
            down: l.sh_w_down,
            gate_q8: l.sh_w_gate_q8,
            up_q8: l.sh_w_up_q8,
            down_q8: l.sh_w_down_q8,
        };
        let w = FfnBufs {
            hc_fn: l.hc_ffn_fn.buf,
            hc_scale: l.hc_ffn_scale.buf,
            hc_base: l.hc_ffn_base.buf,
            norm: l.ffn_norm.buf,
            unit,
            router: l.w_router.buf,
            bias: l.router_bias.buf,
            n_experts: l.router_bias.n_elements,
            arrays,
        };
        let at = At {
            layer: place.layer,
            slot: place.base_slot,
            base: place.base_pos,
            window: place.attn_base_pos,
            k: place.k,
        };
        let f = Fineness {
            n_hc: s.n_hc,
            n_embd: s.n_embd,
            iters: s.sinkhorn_iters,
            hc_eps: s.hc_eps,
            rms_eps: s.rms_eps,
        };
        let z = Sizes {
            n_head: s.n_head,
            head_dim: s.head_dim,
            kv_row: s.kv_row,
            low_dim: s.out_low_dim,
            scale: s.flash_scale,
        };
        let d = HeadBufs {
            unit,
            hc_fn: h.hc_head_fn.buf,
            hc_scale: h.hc_head_scale.buf,
            hc_base: h.hc_head_base.buf,
            norm: h.mtp_norm.buf,
            lm_head: h.base_lm_head_q8.buf,
        };
        let ls = draft_layer(s);
        let aw = l.attn(h.unit_gamma_hc);
        let fw = l.ffn(h.unit_gamma_hc);
        let ow = ls.output(l.w_o_a_q8, l.w_o_b_q8, l.attn_sinks);
        let hw = HeadWeights {
            unit_gamma_hc: h.unit_gamma_hc,
            hc_fn: h.hc_head_fn,
            hc_scale: h.hc_head_scale,
            hc_base: h.hc_head_base,
            norm_gamma: h.mtp_norm,
            lm_head: h.base_lm_head_q8,
        };
        let (a, input) = t.encode_mtp_input_mix(token, prev, mix, s.n_embd, s.n_hc, s.rms_eps);
        let (c, next) = a.encode_layer_k(input->Ok_0, aw, ls.attn(), ow, place, None, fw, ls.ffn());
        grew_itself(a.log);
        grew_itself(c.log);
        grew_itself(u.log);
        assert(
            grew(t.log, a.log) && grew(t.log, c.log) && grew(a.log, u.log) && grew(c.log, u.log)
        ) by {
            broadcast use {
                grows_encode_mtp_input_mix,
                grows_encode_layer_k,
                grows_encode_mtp_output_head,
            };
        }
        law_mix_flow(t, token, prev, mix, s.n_embd, s.n_hc, s.rms_eps);
        law_layer_flow(a, input->Ok_0, aw, ls.attn(), ow, place, None, fw, ls.ffn());
        law_head_flow(c, next->Ok_0, hw, s.n_embd, s.n_hc, s.vocab, s.rms_eps, s.hc_eps);
        assert(alike(t, a)) by {
            broadcast use stays_encode_mtp_input_mix;
        }
        let ring = (BufId::KvCache(place.layer), 0u32);
        mixed_kept(
            a.log,
            u.log,
            from,
            from,
            m,
            token.buf,
            prev.buf,
            s.n_embd,
            s.n_hc,
            s.rms_eps,
            input->Ok_0.buf,
        );
        layer_ran_kept(
            a,
            c.log,
            u.log,
            a.log.len() as int,
            from,
            b,
            o,
            w,
            at,
            place.params,
            f,
            z,
            ring,
            input->Ok_0.buf,
            next->Ok_0.buf,
        );
        layer_ran_alike(
            a,
            t,
            u.log,
            from,
            b,
            o,
            w,
            at,
            place.params,
            f,
            z,
            ring,
            input->Ok_0.buf,
            next->Ok_0.buf,
        );
        head_ran_kept(
            u.log,
            u.log,
            c.log.len() as int,
            from,
            d,
            next->Ok_0.buf,
            s.n_embd,
            s.n_hc,
            1,
            s.rms_eps,
            s.hc_eps,
            r->Ok_0.1.buf,
        );
    }
}

} // verus!
