//! What flows where through the steps of single positions, and through the compressor,
//! which takes in position by position.

use crate::attention::iota;
use crate::binds::{grew_len, launched, lemma_kept, lemma_tail, rotation_numbers};
use crate::chains::{chosen, handed, lemma_noted, noted, noted_kept};
use crate::command::{
    Ape, Args, BufId, Command, CompStore, DeferredBuf, Elem, ExtendedKv, F32, HostRef, MoeRouted,
    Route, SharedChain, Source, Stage,
};
use crate::config::{CompVerifyCtx, ExpertBufs, GgmlType, LayerParams};
use crate::flow::{
    Experts, Fineness, activated, activated_kept, collapsed, collapsed_at_once,
    collapsed_at_once_kept, copied, did_activation, did_f16, did_f32, did_gather, did_head_norm,
    did_map, did_norm, did_q8, did_softplus, did_sum, experts_by_gather, gathered, heads_normed,
    law_collapse_flow, normed, normed_kept, product_of, scored,
};
use crate::growth::{
    grew, grew_chain, grew_itself, grew_push, grows_alloc_attn_out, grows_comp_rows,
    grows_comp_step, grows_emit_row, grows_encode_attn_output_matmuls,
    grows_encode_attn_output_matmuls_q8, grows_encode_attn_qkv_chain,
    grows_encode_mul_mm_id_map0_k, grows_encode_mul_mm_id_qx_k, grows_hc_collapse_norm,
    grows_hc_expand_attn, grows_head_rms_norm, grows_matvec_attn_proj, grows_matvec_f16,
    grows_matvec_f32, grows_matvec_q8_0_pair_concurrent, grows_moe_swiglu_weight_k,
    grows_pooled_scratch_f32, grows_pooled_scratch_u16, grows_requantized, grows_rms_norm_mul,
    grows_rope_tail_in_place, grows_rope_tail_q_heads_in_place, grows_softplus_sqrt, grows_sum6_k,
};
use crate::halves::{closed_windows, lemma_emitted_counts, queries_of, stored, turned_at};
use crate::kernel::Kernel;
use crate::layer::{AttnShape, AttnWeights, Place, emitted};
use crate::moe::{MoeOuts, inner_width, spec_stage};
use crate::trace::Trace;
use vstd::prelude::*;

verus! {

broadcast group group_flow {
    grew_push,
    grew_len,
    grows_alloc_attn_out,
    grows_pooled_scratch_f32,
    grows_pooled_scratch_u16,
}

/// The matrix `w` times `x` went to `out`: from Q8_0 bytes, from their requantised copy,
/// or in single precision.
pub open spec fn multiplied_one(
    log: Seq<Command>,
    from: int,
    w: BufId,
    x: BufId,
    out: BufId,
) -> bool {
    ||| product_of(log, from, Kernel::MulMvQ8, w, x, out)
    ||| product_of(log, from, Kernel::MulMvF32, w, x, out)
    ||| exists|slot: u64| #[trigger] product_of(
        log,
        from,
        Kernel::MulMvQ4,
        BufId::Requant(slot),
        x,
        out,
    )
}

pub(crate) proof fn multiplied_one_kept(
    a: Seq<Command>,
    b: Seq<Command>,
    from: int,
    earlier: int,
    w: BufId,
    x: BufId,
    out: BufId,
)
    requires
        multiplied_one(a, from, w, x, out),
        grew(a, b),
        earlier <= from,
    ensures
        multiplied_one(b, earlier, w, x, out),
{
    broadcast use lemma_kept;

    if product_of(a, from, Kernel::MulMvQ8, w, x, out) {
        assert(product_of(b, earlier, Kernel::MulMvQ8, w, x, out));
    } else if product_of(a, from, Kernel::MulMvF32, w, x, out) {
        assert(product_of(b, earlier, Kernel::MulMvF32, w, x, out));
    } else {
        let slot = choose|slot: u64| #[trigger] product_of(
            a,
            from,
            Kernel::MulMvQ4,
            BufId::Requant(slot),
            x,
            out,
        );
        assert(product_of(b, earlier, Kernel::MulMvQ4, BufId::Requant(slot), x, out));
    }
}

pub(crate) proof fn lemma_least(s: Seq<BufId>, b: BufId, i: int) -> (least: int)
    requires
        0 <= i < s.len(),
        s[i] == b,
    ensures
        0 <= least < s.len(),
        s[least] == b,
        forall|j: int| 0 <= j < least ==> #[trigger] s[j] != b,
    decreases i,
{
    if forall|j: int| 0 <= j < i ==> #[trigger] s[j] != b {
        i
    } else {
        let j = choose|j: int| 0 <= j < i && #[trigger] s[j] == b;
        lemma_least(s, b, j)
    }
}

/// A requantised copy is the copy of the weight that was asked for: it is in the list of
/// copies at its slot, and where it was not there before, it is made from that weight.
pub proof fn law_requantised_is_its_own(t: Trace, w: DeferredBuf, d_in: u64, d_out: u64)
    requires
        t.pools.requant.len() < u64::MAX,
    ensures
        ({
            let (u, c) = t.requantized(w, d_in, d_out);
            &&& c.buf matches BufId::Requant(slot) && slot < u.pools.requant.len()
                && u.pools.requant[slot as int] == w.buf
            &&& !t.pools.requant.contains(w.buf) ==> u.log.len() > t.log.len() && u.log[t.log.len() as int] == (
                Command::Requantize {
                    src: w.buf,
                    blocks: ((d_in * d_out) as u64 / 32) as u64,
                    slot: c.buf->Requant_0,
                }
            )
            &&& t.pools.requant.contains(w.buf) ==> u == t
        }),
{
    reveal(Trace::requantized);
    if t.pools.requant.contains(w.buf) {
        let i = choose|i: int| 0 <= i < t.pools.requant.len() && t.pools.requant[i] == w.buf;
        let least = lemma_least(t.pools.requant, w.buf, i);
    }
}

pub(crate) proof fn did_one_projection(
    t: Trace,
    w: DeferredBuf,
    x: DeferredBuf,
    d_in: u64,
    d_out: u64,
)
    ensures
        ({
            let (u, r) = t.matvec_attn_proj(w, x, d_in, d_out);
            let out = r->Ok_0;
            r is Ok ==> multiplied_one(u.log, t.log.len() as int, w.buf, x.buf, out.buf)
        }),
{
    broadcast use group_flow;

    grew_itself(t.log);
    reveal(Trace::matvec_attn_proj);
    let (u, r) = t.matvec_attn_proj(w, x, d_in, d_out);
    if r is Ok {
        let out = r->Ok_0;
        let from = t.log.len() as int;
        if t.config.decode_attn_q4 {
            let (a, q) = t.requantized(w, d_in, d_out);
            assert(grew(t.log, a.log)) by {
                broadcast use grows_requantized;
            }
            assert(q.buf is Requant) by {
                reveal(Trace::requantized);
            }
            let slot = q.buf->Requant_0;
            lemma_tail(
                u.log,
                from,
                Kernel::MulMvQ4,
                1,
                seq![
                    Command::Buffer(1, q.buf, 0),
                    Command::Buffer(2, x.buf, 0),
                    Command::Buffer(3, out.buf, 0),
                ],
                3,
            );
            assert(product_of(u.log, from, Kernel::MulMvQ4, BufId::Requant(slot), x.buf, out.buf));
        } else {
            did_q8(t, w, x, d_in, d_out);
        }
    }
}

pub(crate) proof fn did_pair_projection(
    t: Trace,
    w: DeferredBuf,
    x: DeferredBuf,
    d_in: u64,
    d_out: u64,
    v: DeferredBuf,
    y: DeferredBuf,
    e_in: u64,
    e_out: u64,
)
    ensures
        ({
            let (u, r) = t.matvec_q8_0_pair_concurrent(w, x, d_in, d_out, v, y, e_in, e_out);
            let out = r->Ok_0;
            r is Ok ==> multiplied_one(
                u.log,
                t.log.len() as int,
                w.buf,
                x.buf,
                out.0.buf,
            ) && multiplied_one(u.log, t.log.len() as int, v.buf, y.buf, out.1.buf)
        }),
{
    broadcast use group_flow;

    grew_itself(t.log);
    reveal(Trace::matvec_q8_0_pair_concurrent);
    let (u, r) = t.matvec_q8_0_pair_concurrent(w, x, d_in, d_out, v, y, e_in, e_out);
    if r is Ok {
        let out = r->Ok_0;
        let from = t.log.len() as int;
        let (a, one) = t.put(Command::ConcurrentEncoder).q8_matvec_into(w, x, d_in, d_out);
        let (b, two) = a.q8_matvec_into(v, y, e_in, e_out);
        lemma_tail(
            a.log,
            from,
            Kernel::MulMvQ8,
            1,
            seq![
                Command::Buffer(1, w.buf, 0),
                Command::Buffer(2, x.buf, 0),
                Command::Buffer(3, out.0.buf, 0),
            ],
            2,
        );
        lemma_tail(
            b.log,
            from,
            Kernel::MulMvQ8,
            1,
            seq![
                Command::Buffer(1, v.buf, 0),
                Command::Buffer(2, y.buf, 0),
                Command::Buffer(3, out.1.buf, 0),
            ],
            2,
        );
        grew_itself(a.log);
        grew_itself(b.log);
        assert(grew(a.log, u.log) && grew(b.log, u.log));
        broadcast use lemma_kept;
        
        assert(product_of(u.log, from, Kernel::MulMvQ8, w.buf, x.buf, out.0.buf));
        assert(product_of(u.log, from, Kernel::MulMvQ8, v.buf, y.buf, out.1.buf));
    }
}

/// [`queries_of`] one position.
pub open spec fn query_of(
    log: Seq<Command>,
    from: int,
    x: BufId,
    q_a: BufId,
    gamma_q: BufId,
    q_b: BufId,
    kv: BufId,
    head_dim: u64,
    eps: F32,
    outs: (BufId, BufId, BufId),
) -> bool {
    &&& exists|qr: BufId| #[trigger] multiplied_one(log, from, q_a, x, qr) && normed(
        log,
        from,
        qr,
        gamma_q,
        eps,
        outs.0,
    )
    &&& exists|heads: BufId| #[trigger] multiplied_one(log, from, q_b, outs.0, heads)
        && heads_normed(
        log,
        from,
        heads,
        head_dim,
        eps,
        outs.1,
    )
    &&& multiplied_one(log, from, kv, x, outs.2)
}

pub(crate) proof fn query_of_is(
    log: Seq<Command>,
    from: int,
    x: BufId,
    q_a: BufId,
    gamma_q: BufId,
    q_b: BufId,
    kv: BufId,
    head_dim: u64,
    eps: F32,
    outs: (BufId, BufId, BufId),
    qr: BufId,
    heads: BufId,
)
    requires
        multiplied_one(log, from, q_a, x, qr),
        normed(log, from, qr, gamma_q, eps, outs.0),
        multiplied_one(log, from, q_b, outs.0, heads),
        heads_normed(log, from, heads, head_dim, eps, outs.1),
        multiplied_one(log, from, kv, x, outs.2),
    ensures
        query_of(log, from, x, q_a, gamma_q, q_b, kv, head_dim, eps, outs),
{
}

pub(crate) proof fn query_of_kept(
    a: Seq<Command>,
    b: Seq<Command>,
    from: int,
    earlier: int,
    x: BufId,
    q_a: BufId,
    gamma_q: BufId,
    q_b: BufId,
    kv: BufId,
    head_dim: u64,
    eps: F32,
    outs: (BufId, BufId, BufId),
)
    requires
        query_of(a, from, x, q_a, gamma_q, q_b, kv, head_dim, eps, outs),
        grew(a, b),
        earlier <= from,
    ensures
        query_of(b, earlier, x, q_a, gamma_q, q_b, kv, head_dim, eps, outs),
{
    let qr = choose|qr: BufId| #[trigger] multiplied_one(a, from, q_a, x, qr) && normed(
        a,
        from,
        qr,
        gamma_q,
        eps,
        outs.0,
    );
    let heads = choose|heads: BufId|
        #[trigger] multiplied_one(a, from, q_b, outs.0, heads) && heads_normed(
        a,
        from,
        heads,
        head_dim,
        eps,
        outs.1,
    );
    multiplied_one_kept(a, b, from, earlier, q_a, x, qr);
    multiplied_one_kept(a, b, from, earlier, q_b, outs.0, heads);
    multiplied_one_kept(a, b, from, earlier, kv, x, outs.2);
    broadcast use {lemma_kept, normed_kept};

    assert(normed(b, earlier, qr, gamma_q, eps, outs.0));
    assert(heads_normed(b, earlier, heads, head_dim, eps, outs.1));
    query_of_is(b, earlier, x, q_a, gamma_q, q_b, kv, head_dim, eps, outs, qr, heads);
}

/// Query and key-value row of one position come from one normed row.
pub proof fn law_single_projections_flow(
    t: Trace,
    x: DeferredBuf,
    q_a: DeferredBuf,
    gamma_q: DeferredBuf,
    q_b: DeferredBuf,
    kv: DeferredBuf,
    n_lora_q: u64,
    n_head: u64,
    head_dim: u64,
    eps: F32,
    kv_row: u64,
)
    ensures
        ({
            let (u, r) = t.encode_attn_qkv_chain(
                x,
                q_a,
                gamma_q,
                q_b,
                kv,
                n_lora_q,
                n_head,
                head_dim,
                eps,
                kv_row,
            );
            let out = r->Ok_0;
            r is Ok ==> query_of(
                u.log,
                t.log.len() as int,
                x.buf,
                q_a.buf,
                gamma_q.buf,
                q_b.buf,
                kv.buf,
                head_dim,
                eps,
                (out.0.buf, out.1.buf, out.2.buf),
            )
        }),
{
    broadcast use group_flow;

    grew_itself(t.log);
    reveal(Trace::encode_attn_qkv_chain);
    let (u, r) = t.encode_attn_qkv_chain(
        x,
        q_a,
        gamma_q,
        q_b,
        kv,
        n_lora_q,
        n_head,
        head_dim,
        eps,
        kv_row,
    );
    if r is Ok {
        let out = r->Ok_0;
        let from = t.log.len() as int;
        let d_embd = x.n_elements;
        let q_dim = (n_head * head_dim) as u64;
        let outs = (out.0.buf, out.1.buf, out.2.buf);
        if t.q8_proj {
            let (a, pair) = if t.config.qkv_concurrent {
                t.matvec_q8_0_pair_concurrent(q_a, x, d_embd, n_lora_q, kv, x, d_embd, kv_row)
            } else {
                t.qkv_pair(q_a, kv, x, d_embd, n_lora_q, kv_row)
            };
            let (qr, raw_kv) = pair->Ok_0;
            assert(
                multiplied_one(a.log, from, q_a.buf, x.buf, qr.buf) && multiplied_one(
                    a.log,
                    from,
                    kv.buf,
                    x.buf,
                    raw_kv.buf,
                ) && grew(t.log, a.log)
            ) by {
                if t.config.qkv_concurrent {
                    did_pair_projection(t, q_a, x, d_embd, n_lora_q, kv, x, d_embd, kv_row);
                    grows_matvec_q8_0_pair_concurrent(
                        t.log,
                        t,
                        q_a,
                        x,
                        d_embd,
                        n_lora_q,
                        kv,
                        x,
                        d_embd,
                        kv_row,
                    );
                } else {
                    let (b, one) = t.matvec_attn_proj(q_a, x, d_embd, n_lora_q);
                    did_one_projection(t, q_a, x, d_embd, n_lora_q);
                    did_one_projection(b, kv, x, d_embd, kv_row);
                    grew_itself(b.log);
                    grew_itself(a.log);
                    assert(grew(t.log, b.log) && grew(b.log, a.log) && grew(t.log, a.log)) by {
                        broadcast use grows_matvec_attn_proj;
                    }
                    multiplied_one_kept(b.log, a.log, from, from, q_a.buf, x.buf, qr.buf);
                    multiplied_one_kept(
                        a.log,
                        a.log,
                        b.log.len() as int,
                        from,
                        kv.buf,
                        x.buf,
                        raw_kv.buf,
                    );
                }
            }
            let (b, qn) = a.rms_norm_mul(qr, gamma_q, eps);
            let (c, raw) = b.matvec_attn_proj(q_b, qn->Ok_0, n_lora_q, q_dim);
            did_norm(a, qr, gamma_q, eps);
            did_one_projection(b, q_b, qn->Ok_0, n_lora_q, q_dim);
            did_head_norm(c, raw->Ok_0, n_head, head_dim, eps);
            grew_itself(a.log);
            grew_itself(b.log);
            grew_itself(c.log);
            grew_itself(u.log);
            assert(
                grew(
                    t.log,
                    b.log,
                ) && grew(
                    t.log,
                    c.log,
                ) && grew(a.log, u.log) && grew(b.log, u.log) && grew(c.log, u.log)
            ) by {
                broadcast use {grows_rms_norm_mul, grows_matvec_attn_proj, grows_head_rms_norm};
            }
            multiplied_one_kept(a.log, u.log, from, from, q_a.buf, x.buf, qr.buf);
            multiplied_one_kept(a.log, u.log, from, from, kv.buf, x.buf, raw_kv.buf);
            multiplied_one_kept(
                c.log,
                u.log,
                b.log.len() as int,
                from,
                q_b.buf,
                qn->Ok_0.buf,
                raw->Ok_0.buf,
            );
            broadcast use {lemma_kept, normed_kept};
        
            assert(normed(u.log, from, qr.buf, gamma_q.buf, eps, out.0.buf));
            assert(heads_normed(u.log, from, raw->Ok_0.buf, head_dim, eps, out.1.buf));
            query_of_is(
                u.log,
                from,
                x.buf,
                q_a.buf,
                gamma_q.buf,
                q_b.buf,
                kv.buf,
                head_dim,
                eps,
                outs,
                qr.buf,
                raw->Ok_0.buf,
            );
        } else {
            let (a, qr) = t.matvec_f32(q_a, x, d_embd, n_lora_q);
            let (b, qn) = a.rms_norm_mul(qr->Ok_0, gamma_q, eps);
            let (c, raw) = b.matvec_f32(q_b, qn->Ok_0, n_lora_q, q_dim);
            let (d, heads) = c.head_rms_norm(raw->Ok_0, n_head, head_dim, eps);
            did_f32(t, q_a, x, d_embd, n_lora_q);
            did_norm(a, qr->Ok_0, gamma_q, eps);
            did_f32(b, q_b, qn->Ok_0, n_lora_q, q_dim);
            did_head_norm(c, raw->Ok_0, n_head, head_dim, eps);
            did_f32(d, kv, x, d_embd, kv_row);
            grew_itself(a.log);
            grew_itself(b.log);
            grew_itself(c.log);
            grew_itself(d.log);
            grew_itself(u.log);
            assert(
                grew(
                    t.log,
                    a.log,
                ) && grew(
                    t.log,
                    b.log,
                ) && grew(
                    t.log,
                    c.log,
                ) && grew(
                    t.log,
                    d.log,
                ) && grew(
                    a.log,
                    u.log,
                ) && grew(b.log, u.log) && grew(c.log, u.log) && grew(d.log, u.log)
            ) by {
                broadcast use {grows_rms_norm_mul, grows_matvec_f32, grows_head_rms_norm};
            }
            broadcast use {lemma_kept, normed_kept};
        
            assert(product_of(u.log, from, Kernel::MulMvF32, q_a.buf, x.buf, qr->Ok_0.buf));
            assert(product_of(u.log, from, Kernel::MulMvF32, q_b.buf, qn->Ok_0.buf, raw->Ok_0.buf));
            assert(product_of(u.log, from, Kernel::MulMvF32, kv.buf, x.buf, out.2.buf));
            assert(normed(u.log, from, qr->Ok_0.buf, gamma_q.buf, eps, out.0.buf));
            assert(heads_normed(u.log, from, raw->Ok_0.buf, head_dim, eps, out.1.buf));
            query_of_is(
                u.log,
                from,
                x.buf,
                q_a.buf,
                gamma_q.buf,
                q_b.buf,
                kv.buf,
                head_dim,
                eps,
                outs,
                qr->Ok_0.buf,
                raw->Ok_0.buf,
            );
        }
    }
}

/// The attention half of one position follows its flow: the streams are collapsed by the
/// half's own weights, query and key-value row come from the normed row, and the
/// key-value row is normed and turned by the position.
pub proof fn law_query_flow(
    t: Trace,
    prev: DeferredBuf,
    w: AttnWeights,
    half: bool,
    shape: AttnShape,
    p: LayerParams,
    pos: u32,
)
    ensures
        ({
            let (u, r) = t.encode_layer_attn_half(prev, w, half, shape, p, pos);
            let h = r->Ok_0;
            let from = t.log.len() as int;
            let f = Fineness {
                n_hc: shape.n_hc,
                n_embd: shape.n_embd,
                iters: shape.sinkhorn_iters,
                hc_eps: shape.hc_eps,
                rms_eps: shape.rms_eps,
            };
            r is Ok ==> exists|row: BufId, raw: BufId|
                #![
                    trigger collapsed_at_once(
                        u.log,
                        from,
                        prev.buf,
                        w.hc_fn.buf,
                        w.hc_scale.buf,
                        w.hc_base.buf,
                        w.hc_norm_gamma.buf,
                        w.unit_gamma_hc.buf,
                        f,
                        (h.split.buf, row, h.normed.buf),
                    ),
                    normed(
                        u.log,
                        from,
                        raw,
                        w.gamma_kv.buf,
                        shape.rms_eps,
                        h.kv_normed_rotated.buf,
                    ),
                ]
                {
                    &&& collapsed_at_once(
                        u.log,
                        from,
                        prev.buf,
                        w.hc_fn.buf,
                        w.hc_scale.buf,
                        w.hc_base.buf,
                        w.hc_norm_gamma.buf,
                        w.unit_gamma_hc.buf,
                        f,
                        (h.split.buf, row, h.normed.buf),
                    )
                    &&& query_of(
                        u.log,
                        from,
                        h.normed.buf,
                        w.q_a.buf,
                        w.gamma_q.buf,
                        w.q_b.buf,
                        w.kv.buf,
                        shape.head_dim,
                        shape.rms_eps,
                        (h.qr_normed.buf, h.q_heads.buf, raw),
                    )
                    &&& normed(
                        u.log,
                        from,
                        raw,
                        w.gamma_kv.buf,
                        shape.rms_eps,
                        h.kv_normed_rotated.buf,
                    )
                    &&& turned_at(
                        u.log,
                        from,
                        h.kv_normed_rotated.buf,
                        ((shape.kv_row - p.n_rot) * 4) as u64,
                        rotation_numbers(p, p.n_rot as u64, pos, 1, 4, false),
                    )
                }
        }),
{
    broadcast use group_flow;

    grew_itself(t.log);
    reveal(Trace::encode_layer_attn_half);
    let (u, r) = t.encode_layer_attn_half(prev, w, half, shape, p, pos);
    if r is Ok {
        let from = t.log.len() as int;
        let h = r->Ok_0;
        let fine = t.config.profile_fine;
        let f = Fineness {
            n_hc: shape.n_hc,
            n_embd: shape.n_embd,
            iters: shape.sinkhorn_iters,
            hc_eps: shape.hc_eps,
            rms_eps: shape.rms_eps,
        };
        let (a, col) = t.hc_collapse_norm(
            prev,
            w.hc_fn,
            w.hc_scale,
            w.hc_base,
            w.hc_norm_gamma,
            shape.n_hc,
            shape.n_embd,
            shape.sinkhorn_iters,
            shape.hc_eps,
            shape.rms_eps,
            w.unit_gamma_hc,
            half,
        );
        let (split, row, x) = col->Ok_0;
        let b0 = a.stage_if(fine, Stage::AttnHcCollapse);
        let (b, qkv) = b0.encode_attn_qkv_chain(
            x,
            w.q_a,
            w.gamma_q,
            w.q_b,
            w.kv,
            shape.n_lora_q,
            shape.n_head,
            shape.head_dim,
            shape.rms_eps,
            shape.kv_row,
        );
        let (qn, heads, raw) = qkv->Ok_0;
        let c0 = b.stage_if(fine, Stage::AttnQkvChain);
        let (c, kn) = c0.rms_norm_mul(raw, w.gamma_kv, shape.rms_eps);
        let d0 = c.stage_if(fine, Stage::AttnKvRms);
        let (d, turn) = d0.rope_tail_in_place(
            kn->Ok_0,
            ((shape.kv_row - p.n_rot) * 4) as u64,
            1,
            p,
            pos,
            false,
        );
        law_collapse_flow(
            t,
            prev,
            w.hc_fn,
            w.hc_scale,
            w.hc_base,
            w.hc_norm_gamma,
            shape.n_hc,
            shape.n_embd,
            shape.sinkhorn_iters,
            shape.hc_eps,
            shape.rms_eps,
            w.unit_gamma_hc,
            half,
        );
        law_single_projections_flow(
            b0,
            x,
            w.q_a,
            w.gamma_q,
            w.q_b,
            w.kv,
            shape.n_lora_q,
            shape.n_head,
            shape.head_dim,
            shape.rms_eps,
            shape.kv_row,
        );
        did_norm(c0, raw, w.gamma_kv, shape.rms_eps);
        let off = ((shape.kv_row - p.n_rot) * 4) as u64;
        let numbers = rotation_numbers(p, p.n_rot as u64, pos, 1, 4, false);
        assert(turned_at(d.log, d0.log.len() as int, kn->Ok_0.buf, off, numbers)) by {
            reveal(Trace::rope_tail_in_place);
            lemma_tail(
                d.log,
                d0.log.len() as int,
                Kernel::RopeTail,
                3,
                seq![Command::Buffer(3, kn->Ok_0.buf, off), Command::Rope(numbers)],
                2,
            );
        }
        grew_itself(a.log);
        grew_itself(b.log);
        grew_itself(c.log);
        grew_itself(d.log);
        assert(
            grew(
                t.log,
                b0.log,
            ) && grew(
                t.log,
                c0.log,
            ) && grew(
                t.log,
                d0.log,
            ) && grew(
                a.log,
                u.log,
            ) && grew(b.log, u.log) && grew(c.log, u.log) && grew(d.log, u.log)
        ) by {
            broadcast use {
                grows_hc_collapse_norm,
                grows_encode_attn_qkv_chain,
                grows_rms_norm_mul,
                grows_rope_tail_in_place,
            };
        }
        collapsed_at_once_kept(
            a.log,
            u.log,
            from,
            from,
            prev.buf,
            w.hc_fn.buf,
            w.hc_scale.buf,
            w.hc_base.buf,
            w.hc_norm_gamma.buf,
            w.unit_gamma_hc.buf,
            f,
            (split.buf, row.buf, x.buf),
        );
        query_of_kept(
            b.log,
            u.log,
            b0.log.len() as int,
            from,
            x.buf,
            w.q_a.buf,
            w.gamma_q.buf,
            w.q_b.buf,
            w.kv.buf,
            shape.head_dim,
            shape.rms_eps,
            (qn.buf, heads.buf, raw.buf),
        );
        assert(normed(u.log, from, raw.buf, w.gamma_kv.buf, shape.rms_eps, kn->Ok_0.buf)) by {
            broadcast use normed_kept;
        }
        assert(turned_at(u.log, from, kn->Ok_0.buf, off, numbers)) by {
            broadcast use lemma_kept;
        }
    }
}

/// The router's probabilities of one position come from the router's weights and the
/// normed row.
pub proof fn law_scores_flow(t: Trace, w: DeferredBuf, x: DeferredBuf, n_experts: u64, half: bool)
    ensures
        ({
            let (u, r) = t.encode_router_logits(w, x, n_experts, half);
            let out = r->Ok_0;
            r is Ok ==> scored(u.log, t.log.len() as int, w.buf, x.buf, out.buf)
        }),
{
    broadcast use group_flow;

    grew_itself(t.log);
    reveal(Trace::encode_router_logits);
    let (u, r) = t.encode_router_logits(w, x, n_experts, half);
    if r is Ok {
        let out = r->Ok_0;
        let from = t.log.len() as int;
        let (a, logits) = if half {
            t.matvec_f16(w, x, x.n_elements, n_experts)
        } else {
            t.matvec_f32(w, x, x.n_elements, n_experts)
        };
        let kernel = if half { Kernel::MulMvF16 } else { Kernel::MulMvF32 };
        if half {
            did_f16(t, w, x, x.n_elements, n_experts);
        } else {
            did_f32(t, w, x, x.n_elements, n_experts);
        }
        did_softplus(a, logits->Ok_0);
        grew_itself(a.log);
        grew_itself(u.log);
        assert(grew(t.log, a.log) && grew(a.log, u.log)) by {
            broadcast use {grows_matvec_f16, grows_matvec_f32, grows_softplus_sqrt};
        }
        broadcast use lemma_kept;
        
        assert(product_of(u.log, from, kernel, w.buf, x.buf, logits->Ok_0.buf));
        assert(
            launched(
                u.log,
                from,
                Kernel::SoftplusSqrt,
                0,
                seq![Command::Buffer(0, logits->Ok_0.buf, 0), Command::Buffer(1, out.buf, 0)],
            )
        );
        assert(
            product_of(
                u.log,
                from,
                Kernel::MulMvF32,
                w.buf,
                x.buf,
                logits->Ok_0.buf,
            ) || product_of(u.log, from, Kernel::MulMvF16, w.buf, x.buf, logits->Ok_0.buf)
        );
    }
}

/// The gathered Q8_0 experts follow the flow of the gathered experts.
pub proof fn law_q8_experts_flow(
    t: Trace,
    x: DeferredBuf,
    sel: DeferredBuf,
    wt: DeferredBuf,
    gate_w: DeferredBuf,
    up_w: DeferredBuf,
    down_w: DeferredBuf,
    n_experts: u64,
    d_embd: u64,
    d_ffn: u64,
    k: u64,
)
    ensures
        ({
            let (u, r) = t.encode_moe_chain_mm_q8_k(
                x,
                sel,
                wt,
                gate_w,
                up_w,
                down_w,
                n_experts,
                d_embd,
                d_ffn,
                k,
            );
            let out = r->Ok_0;
            r is Ok ==> experts_by_gather(
                u.log,
                t.log.len() as int,
                Experts { gate: gate_w.buf, up: up_w.buf, down: down_w.buf },
                x.buf,
                sel.buf,
                wt.buf,
                out.buf,
            )
        }),
{
    broadcast use group_flow;

    grew_itself(t.log);
    reveal(Trace::encode_moe_chain_mm_q8_k);
    let (u, r) = t.encode_moe_chain_mm_q8_k(
        x,
        sel,
        wt,
        gate_w,
        up_w,
        down_w,
        n_experts,
        d_embd,
        d_ffn,
        k,
    );
    if r is Ok {
        let out = r->Ok_0;
        let from = t.log.len() as int;
        let q8 = spec_stage(GgmlType::Q8_0)->Some_0;
        let (a, map) = t.encode_mul_mm_id_map0_k(sel, n_experts, k);
        let (tpe, ids) = map->Ok_0;
        let (b, mid) = a.moe_mid(
            false,
            false,
            x,
            wt,
            tpe,
            ids,
            gate_w,
            up_w,
            q8,
            q8,
            n_experts,
            d_embd,
            d_ffn,
            k,
        );
        let (c, d) = b.encode_mul_mm_id_qx_k(
            q8,
            down_w,
            mid->Ok_0,
            tpe,
            ids,
            n_experts,
            d_ffn,
            d_embd,
            k,
            6,
            4,
        );
        did_map(t, sel, n_experts, k);
        did_activation(
            a,
            false,
            false,
            x,
            wt,
            tpe,
            ids,
            gate_w,
            up_w,
            q8,
            q8,
            n_experts,
            d_embd,
            d_ffn,
            k,
        );
        did_gather(b, q8, down_w, mid->Ok_0, tpe, ids, n_experts, d_ffn, d_embd, k, 6, 4);
        did_sum(c, d->Ok_0, d_embd, k);
        grew_itself(a.log);
        grew_itself(b.log);
        grew_itself(c.log);
        grew_itself(u.log);
        assert(
            grew(
                t.log,
                a.log,
            ) && grew(
                t.log,
                b.log,
            ) && grew(
                t.log,
                c.log,
            ) && grew(a.log, u.log) && grew(b.log, u.log) && grew(c.log, u.log)
        ) by {
            broadcast use {
                grows_encode_mul_mm_id_map0_k,
                grows_encode_mul_mm_id_qx_k,
                grows_moe_swiglu_weight_k,
                grows_sum6_k,
            };
        }
        let e = Experts { gate: gate_w.buf, up: up_w.buf, down: down_w.buf };
        assert(
            activated(b.log, a.log.len() as int, e, x.buf, wt.buf, tpe.buf, ids.buf, mid->Ok_0.buf)
        );
        activated_kept(
            b.log,
            u.log,
            a.log.len() as int,
            from,
            e,
            x.buf,
            wt.buf,
            tpe.buf,
            ids.buf,
            mid->Ok_0.buf,
        );
        broadcast use lemma_kept;
        
        assert(
            gathered(u.log, from, q8.kernel, e.down, mid->Ok_0.buf, tpe.buf, ids.buf, d->Ok_0.buf)
        );
        assert(
            launched(
                u.log,
                from,
                Kernel::MmIdMap0,
                1,
                seq![
                    Command::Buffer(1, sel.buf, 0),
                    Command::Buffer(2, tpe.buf, 0),
                    Command::Buffer(3, ids.buf, 0),
                ],
            )
        );
        assert(
            launched(
                u.log,
                from,
                Kernel::Sum6K,
                0,
                seq![Command::Buffer(0, d->Ok_0.buf, 0), Command::Buffer(1, out.buf, 0)],
            )
        );
    }
}

/// The expansion of one block into the streams `res` by the weights `post` and `comb`
/// went to `out`.
pub open spec fn expanded_by(
    log: Seq<Command>,
    from: int,
    block: BufId,
    res: BufId,
    post: BufId,
    comb: BufId,
    out: BufId,
) -> bool {
    launched(
        log,
        from,
        Kernel::HcExpand,
        1,
        seq![
            Command::Buffer(1, block, 0),
            Command::Buffer(2, res, 0),
            Command::Buffer(3, post, 0),
            Command::Buffer(4, comb, 0),
            Command::Buffer(5, block, 0),
            Command::Buffer(6, out, 0),
        ],
    )
}

pub(crate) proof fn did_expand_one(
    t: Trace,
    block: DeferredBuf,
    res: DeferredBuf,
    post: DeferredBuf,
    comb: DeferredBuf,
    n_hc: u64,
    d_embd: u64,
)
    ensures
        ({
            let (u, r) = t.hc_expand_attn(block, res, post, comb, n_hc, d_embd);
            let out = r->Ok_0;
            r is Ok ==> expanded_by(
                u.log,
                t.log.len() as int,
                block.buf,
                res.buf,
                post.buf,
                comb.buf,
                out.buf,
            )
        }),
{
    broadcast use group_flow;

    grew_itself(t.log);
    reveal(Trace::hc_expand_attn);
    let (u, r) = t.hc_expand_attn(block, res, post, comb, n_hc, d_embd);
    if r is Ok {
        let out = r->Ok_0;
        lemma_tail(
            u.log,
            t.log.len() as int,
            Kernel::HcExpand,
            1,
            seq![
                Command::Buffer(1, block.buf, 0),
                Command::Buffer(2, res.buf, 0),
                Command::Buffer(3, post.buf, 0),
                Command::Buffer(4, comb.buf, 0),
                Command::Buffer(5, block.buf, 0),
                Command::Buffer(6, out.buf, 0),
            ],
            2,
        );
    }
}

/// Both output products of one position: `a` times the heads of each group, and `b`
/// times what came of it.
pub open spec fn output_of(
    log: Seq<Command>,
    from: int,
    a: BufId,
    b: BufId,
    heads: BufId,
    out: BufId,
) -> bool {
    exists|low: BufId|
        #![trigger product_of(log, from, Kernel::MulMvF32, a, heads, low)]
        #![trigger product_of(log, from, Kernel::AttnOutLowQ8, a, heads, low)]
        {
            ||| product_of(
                log,
                from,
                Kernel::MulMvF32,
                a,
                heads,
                low,
            ) && product_of(log, from, Kernel::MulMvF32, b, low, out)
            ||| product_of(
                log,
                from,
                Kernel::AttnOutLowQ8,
                a,
                heads,
                low,
            ) && multiplied_one(log, from, b, low, out)
        }
}

pub(crate) proof fn output_of_kept(
    l: Seq<Command>,
    m: Seq<Command>,
    from: int,
    earlier: int,
    a: BufId,
    b: BufId,
    heads: BufId,
    out: BufId,
)
    requires
        output_of(l, from, a, b, heads, out),
        grew(l, m),
        earlier <= from,
    ensures
        output_of(m, earlier, a, b, heads, out),
{
    broadcast use lemma_kept;

    let low = choose|low: BufId|
        #![trigger product_of(l, from, Kernel::MulMvF32, a, heads, low)]
        #![trigger product_of(l, from, Kernel::AttnOutLowQ8, a, heads, low)]
        {
            ||| product_of(
                l,
                from,
                Kernel::MulMvF32,
                a,
                heads,
                low,
            ) && product_of(l, from, Kernel::MulMvF32, b, low, out)
            ||| product_of(
                l,
                from,
                Kernel::AttnOutLowQ8,
                a,
                heads,
                low,
            ) && multiplied_one(l, from, b, low, out)
        };
    if product_of(
        l,
        from,
        Kernel::MulMvF32,
        a,
        heads,
        low,
    ) && product_of(l, from, Kernel::MulMvF32, b, low, out) {
        assert(product_of(m, earlier, Kernel::MulMvF32, a, heads, low));
        assert(product_of(m, earlier, Kernel::MulMvF32, b, low, out));
    } else {
        multiplied_one_kept(l, m, from, earlier, b, low, out);
        assert(product_of(m, earlier, Kernel::AttnOutLowQ8, a, heads, low));
    }
}

pub(crate) proof fn did_output_f32(
    t: Trace,
    heads: DeferredBuf,
    a: DeferredBuf,
    b: DeferredBuf,
    n_groups: u64,
    n_lora_o: u64,
    group_dim: u64,
    low_dim: u64,
    d_embd: u64,
)
    ensures
        ({
            let (u, r) = t.encode_attn_output_matmuls(
                heads,
                a,
                b,
                n_groups,
                n_lora_o,
                group_dim,
                low_dim,
                d_embd,
            );
            let out = r->Ok_0;
            r is Ok ==> output_of(u.log, t.log.len() as int, a.buf, b.buf, heads.buf, out.1.buf)
        }),
{
    broadcast use group_flow;

    grew_itself(t.log);
    reveal(Trace::encode_attn_output_matmuls);
    let (u, r) = t.encode_attn_output_matmuls(
        heads,
        a,
        b,
        n_groups,
        n_lora_o,
        group_dim,
        low_dim,
        d_embd,
    );
    if r is Ok {
        let out = r->Ok_0;
        let from = t.log.len() as int;
        lemma_tail(
            u.log,
            from,
            Kernel::MulMvF32,
            1,
            seq![
                Command::Buffer(1, a.buf, 0),
                Command::Buffer(2, heads.buf, 0),
                Command::Buffer(3, out.0.buf, 0),
            ],
            12,
        );
        lemma_tail(
            u.log,
            from,
            Kernel::MulMvF32,
            1,
            seq![
                Command::Buffer(1, b.buf, 0),
                Command::Buffer(2, out.0.buf, 0),
                Command::Buffer(3, out.1.buf, 0),
            ],
            3,
        );
        assert(product_of(u.log, from, Kernel::MulMvF32, a.buf, heads.buf, out.0.buf));
    }
}

pub(crate) proof fn did_output_q8(
    t: Trace,
    heads: DeferredBuf,
    a: DeferredBuf,
    b: DeferredBuf,
    n_groups: u64,
    n_lora_o: u64,
    group_dim: u64,
    low_dim: u64,
    d_embd: u64,
)
    ensures
        ({
            let (u, r) = t.encode_attn_output_matmuls_q8(
                heads,
                a,
                b,
                n_groups,
                n_lora_o,
                group_dim,
                low_dim,
                d_embd,
            );
            let out = r->Ok_0;
            r is Ok ==> output_of(u.log, t.log.len() as int, a.buf, b.buf, heads.buf, out.1.buf)
        }),
{
    broadcast use group_flow;

    grew_itself(t.log);
    reveal(Trace::encode_attn_output_matmuls_q8);
    let (u, r) = t.encode_attn_output_matmuls_q8(
        heads,
        a,
        b,
        n_groups,
        n_lora_o,
        group_dim,
        low_dim,
        d_embd,
    );
    if r is Ok {
        let out = r->Ok_0;
        let from = t.log.len() as int;
        let (c, low) = t.alloc_f32(low_dim);
        let d = c.attn_low_launch(
            Kernel::AttnOutLowQ8,
            a.buf,
            (heads.buf, 0),
            (low.buf, 0),
            n_groups,
            n_lora_o,
            group_dim,
            low_dim,
            n_groups,
        );
        lemma_tail(
            d.log,
            from,
            Kernel::AttnOutLowQ8,
            1,
            seq![
                Command::Buffer(1, a.buf, 0),
                Command::Buffer(2, heads.buf, 0),
                Command::Buffer(3, low.buf, 0),
            ],
            3,
        );
        did_one_projection(d, b, low, low_dim, d_embd);
        grew_itself(d.log);
        grew_itself(u.log);
        assert(grew(t.log, d.log) && grew(d.log, u.log)) by {
            broadcast use grows_matvec_attn_proj;
        }
        multiplied_one_kept(u.log, u.log, d.log.len() as int, from, b.buf, low.buf, out.1.buf);
        broadcast use lemma_kept;
        
        assert(product_of(u.log, from, Kernel::AttnOutLowQ8, a.buf, heads.buf, low.buf));
    }
}

/// [`output_of`] one position, and its expansion into the streams `res`.
pub open spec fn output_expanded(
    log: Seq<Command>,
    from: int,
    a: BufId,
    b: BufId,
    heads: BufId,
    res: BufId,
    post: BufId,
    comb: BufId,
    out: BufId,
) -> bool {
    exists|block: BufId| #[trigger] output_of(log, from, a, b, heads, block) && expanded_by(
        log,
        from,
        block,
        res,
        post,
        comb,
        out,
    )
}

/// The output of one position's attention follows its flow: both products, by the Q8_0
/// bytes where both are there and asked for, and the expansion of what came of them into
/// the streams.
pub proof fn law_output_flow(
    t: Trace,
    heads: DeferredBuf,
    w_o_a: DeferredBuf,
    w_o_b: DeferredBuf,
    a_q8: HostRef,
    b_q8: HostRef,
    res: DeferredBuf,
    post: DeferredBuf,
    comb: DeferredBuf,
    n_groups: u64,
    n_lora_o: u64,
    group_dim: u64,
    low_dim: u64,
    n_hc: u64,
    d_embd: u64,
)
    ensures
        ({
            let (u, r) = t.encode_attn_output_proj(
                heads,
                w_o_a,
                w_o_b,
                a_q8,
                b_q8,
                res,
                post,
                comb,
                n_groups,
                n_lora_o,
                group_dim,
                low_dim,
                n_hc,
                d_embd,
            );
            let from = t.log.len() as int;
            let bytes = !t.config.q8_proj_off && a_q8.len > 0 && b_q8.len > 0;
            let a = if bytes { BufId::WeightRaw(a_q8.id) } else { w_o_a.buf };
            let b = if bytes { BufId::WeightRaw(b_q8.id) } else { w_o_b.buf };
            r is Ok ==> output_expanded(
                u.log,
                from,
                a,
                b,
                heads.buf,
                res.buf,
                post.buf,
                comb.buf,
                r->Ok_0.buf,
            )
        }),
{
    broadcast use group_flow;

    grew_itself(t.log);
    reveal(Trace::encode_attn_output_proj);
    let (u, r) = t.encode_attn_output_proj(
        heads,
        w_o_a,
        w_o_b,
        a_q8,
        b_q8,
        res,
        post,
        comb,
        n_groups,
        n_lora_o,
        group_dim,
        low_dim,
        n_hc,
        d_embd,
    );
    if r is Ok {
        let from = t.log.len() as int;
        let bytes = !t.config.q8_proj_off && a_q8.len > 0 && b_q8.len > 0;
        let (c, p) = t.weight_q8_0_raw(a_q8, ((a_q8.len / 34) * 32) as u64);
        let (d, q) = c.weight_q8_0_raw(b_q8, ((b_q8.len / 34) * 32) as u64);
        let start = if bytes { d } else { t };
        let (wa, wb) = if bytes { (p, q) } else { (w_o_a, w_o_b) };
        let (e, outs) = if bytes {
            d.encode_attn_output_matmuls_q8(
                heads,
                p,
                q,
                n_groups,
                n_lora_o,
                group_dim,
                low_dim,
                d_embd,
            )
        } else {
            t.encode_attn_output_matmuls(
                heads,
                w_o_a,
                w_o_b,
                n_groups,
                n_lora_o,
                group_dim,
                low_dim,
                d_embd,
            )
        };
        let block = outs->Ok_0.1;
        if bytes {
            did_output_q8(d, heads, p, q, n_groups, n_lora_o, group_dim, low_dim, d_embd);
        } else {
            did_output_f32(t, heads, w_o_a, w_o_b, n_groups, n_lora_o, group_dim, low_dim, d_embd);
        }
        did_expand_one(e, block, res, post, comb, n_hc, d_embd);
        grew_itself(d.log);
        grew_itself(e.log);
        grew_itself(u.log);
        assert(grew(t.log, d.log) && grew(t.log, e.log) && grew(e.log, u.log)) by {
            broadcast use {
                grows_encode_attn_output_matmuls,
                grows_encode_attn_output_matmuls_q8,
                grows_hc_expand_attn,
            };
        }
        output_of_kept(
            e.log,
            u.log,
            start.log.len() as int,
            from,
            wa.buf,
            wb.buf,
            heads.buf,
            block.buf,
        );
        let a = if bytes { BufId::WeightRaw(a_q8.id) } else { w_o_a.buf };
        let b = if bytes { BufId::WeightRaw(b_q8.id) } else { w_o_b.buf };
        assert(expanded_by(u.log, from, block.buf, res.buf, post.buf, comb.buf, r->Ok_0.buf)) by {
            broadcast use lemma_kept;
        }
        assert(
            output_expanded(
                u.log,
                from,
                wa.buf,
                wb.buf,
                heads.buf,
                res.buf,
                post.buf,
                comb.buf,
                r->Ok_0.buf,
            )
        );
        assert(wa.buf == a && wb.buf == b);
    }
}

/// A product with host weights: with the cached half-precision copy where there is one
/// and the shape allows it, with the cached single-precision copy otherwise.
pub open spec fn host_product_of(
    log: Seq<Command>,
    from: int,
    w: HostRef,
    half: Option<HostRef>,
    x: BufId,
    d_in: u64,
    d_out: u64,
    out: BufId,
) -> bool {
    if half is Some && d_in % 4 == 0 && d_out % 2 == 0 {
        product_of(log, from, Kernel::MulMvF16, BufId::WeightRaw(half->Some_0.id), x, out)
    } else {
        product_of(log, from, Kernel::MulMvF32, BufId::Weight(w.id), x, out)
    }
}

pub(crate) proof fn did_host_product(
    t: Trace,
    w: HostRef,
    half: Option<HostRef>,
    x: DeferredBuf,
    d_in: u64,
    d_out: u64,
)
    ensures
        ({
            let (u, r) = t.host_matvec(w, half, x, d_in, d_out);
            let out = r->Ok_0;
            r is Ok ==> host_product_of(
                u.log,
                t.log.len() as int,
                w,
                half,
                x.buf,
                d_in,
                d_out,
                out.buf,
            ) && grew(t.log, u.log)
        }),
{
    broadcast use group_flow;

    grew_itself(t.log);
    let (u, r) = t.host_matvec(w, half, x, d_in, d_out);
    if r is Ok {
        let out = r->Ok_0;
        let from = t.log.len() as int;
        let halved = half is Some && d_in % 4 == 0 && d_out % 2 == 0;
        let (a, b) = if halved {
            t.weight_f16(half->Some_0)
        } else {
            t.weight_f32(w)
        };
        if halved {
            did_f16(a, b, x, d_in, d_out);
        } else {
            did_f32(a, b, x, d_in, d_out);
        }
        assert(grew(t.log, a.log));
        grew_itself(u.log);
        assert(grew(t.log, u.log)) by {
            broadcast use {grows_matvec_f16, grows_matvec_f32};
        }
        broadcast use lemma_kept;
        
        assert(halved ==> product_of(u.log, from, Kernel::MulMvF16, b.buf, x.buf, out.buf));
        assert(!halved ==> product_of(u.log, from, Kernel::MulMvF32, b.buf, x.buf, out.buf));
    }
}

/// The indexer's scores follow their flow: the query is the normed low-rank query times
/// the query weights, turned by the position; the weights of its heads are the row times
/// the projection; and both score every row of the ring.
pub proof fn law_indexer_flow(
    t: Trace,
    qr: DeferredBuf,
    cur: DeferredBuf,
    w_q_b: HostRef,
    w_proj: HostRef,
    q_half: Option<HostRef>,
    proj_half: Option<HostRef>,
    ring: DeferredBuf,
    n_comp: u64,
    n_head: u64,
    head_dim: u64,
    p: LayerParams,
    pos: u32,
)
    ensures
        ({
            let (u, r) = t.encode_indexer_scores(
                qr,
                cur,
                w_q_b,
                w_proj,
                q_half,
                proj_half,
                ring,
                n_comp,
                n_head,
                head_dim,
                p,
                pos,
            );
            let from = t.log.len() as int;
            let q_dim = (n_head * head_dim) as u64;
            r is Ok ==> exists|q: BufId, weights: BufId|
                #![
                    trigger host_product_of(
                        u.log,
                        from,
                        w_q_b,
                        q_half,
                        qr.buf,
                        qr.n_elements,
                        q_dim,
                        q,
                    ),
                    host_product_of(
                        u.log,
                        from,
                        w_proj,
                        proj_half,
                        cur.buf,
                        cur.n_elements,
                        n_head,
                        weights,
                    ),
                ]
                {
                    &&& host_product_of(u.log, from, w_q_b, q_half, qr.buf, qr.n_elements, q_dim, q)
                    &&& p.n_rot > 0 ==> turned_at(
                        u.log,
                        from,
                        q,
                        ((head_dim - p.n_rot) * 4) as u64,
                        rotation_numbers(p, head_dim, pos, n_head, 4, false),
                    )
                    &&& host_product_of(
                        u.log,
                        from,
                        w_proj,
                        proj_half,
                        cur.buf,
                        cur.n_elements,
                        n_head,
                        weights,
                    )
                    &&& launched(
                        u.log,
                        from,
                        Kernel::IndexerScoreOne,
                        0,
                        seq![
                            Command::Buffer(0, q, 0),
                            Command::Buffer(1, weights, 0),
                            Command::Buffer(2, ring.buf, 0),
                            Command::Buffer(3, r->Ok_0.buf, 0),
                            Command::Bytes(4, Args::U32(n_comp as u32)),
                        ],
                    )
                }
        }),
{
    broadcast use group_flow;

    grew_itself(t.log);
    reveal(Trace::encode_indexer_scores);
    let (u, r) = t.encode_indexer_scores(
        qr,
        cur,
        w_q_b,
        w_proj,
        q_half,
        proj_half,
        ring,
        n_comp,
        n_head,
        head_dim,
        p,
        pos,
    );
    if r is Ok {
        let from = t.log.len() as int;
        let q_dim = (n_head * head_dim) as u64;
        let (a, qq) = t.host_matvec(w_q_b, q_half, qr, qr.n_elements, q_dim);
        let q = qq->Ok_0;
        let (b, roped) = if p.n_rot > 0 {
            a.rope_tail_q_heads_in_place(q, n_head, head_dim, p, pos, false)
        } else {
            (a, Ok(()))
        };
        let (c, ww) = b.host_matvec(w_proj, proj_half, cur, cur.n_elements, n_head);
        let weights = ww->Ok_0;
        let off = ((head_dim - p.n_rot) * 4) as u64;
        let numbers = rotation_numbers(p, head_dim, pos, n_head, 4, false);
        did_host_product(t, w_q_b, q_half, qr, qr.n_elements, q_dim);
        did_host_product(b, w_proj, proj_half, cur, cur.n_elements, n_head);
        if p.n_rot > 0 {
            reveal(Trace::rope_tail_q_heads_in_place);
            lemma_tail(
                b.log,
                a.log.len() as int,
                Kernel::RopeTail,
                3,
                seq![Command::Buffer(3, q.buf, off), Command::Rope(numbers)],
                2,
            );
            assert(turned_at(b.log, a.log.len() as int, q.buf, off, numbers));
        }
        let s = seq![
            Command::Buffer(0, q.buf, 0),
            Command::Buffer(1, weights.buf, 0),
            Command::Buffer(2, ring.buf, 0),
            Command::Buffer(3, r->Ok_0.buf, 0),
            Command::Bytes(4, Args::U32(n_comp as u32)),
        ];
        reveal(Trace::score_launch);
        lemma_tail(u.log, c.log.len() as int, Kernel::IndexerScoreOne, 0, s, 5);
        grew_itself(a.log);
        grew_itself(b.log);
        grew_itself(c.log);
        grew_itself(u.log);
        assert(grew(a.log, b.log) && grew(b.log, c.log) && grew(c.log, u.log)) by {
            broadcast use grows_rope_tail_q_heads_in_place;
        }
        grew_chain(t.log, a.log, b.log);
        grew_chain(t.log, b.log, c.log);
        grew_chain(b.log, c.log, u.log);
        grew_chain(a.log, b.log, u.log);
        broadcast use lemma_kept;

        assert(host_product_of(u.log, from, w_q_b, q_half, qr.buf, qr.n_elements, q_dim, q.buf));
        assert(
            host_product_of(
                u.log,
                from,
                w_proj,
                proj_half,
                cur.buf,
                cur.n_elements,
                n_head,
                weights.buf,
            )
        );
        assert(p.n_rot > 0 ==> turned_at(u.log, from, q.buf, off, numbers));
        assert(launched(u.log, from, Kernel::IndexerScoreOne, 0, s));
    }
}

/// The compressor took in row `i` of `x` at position `pos`: the row times the weights
/// `w_kv` and `w_gate`, stored as values and as scores in that order, with the layer's
/// position weights `ape`.
pub open spec fn taken_in(
    log: Seq<Command>,
    from: int,
    x: BufId,
    n_embd: u64,
    w_kv: BufId,
    w_gate: BufId,
    ape: Ape,
    states: (BufId, BufId),
    width: u64,
    ratio: u32,
    pos: u32,
    i: int,
) -> bool {
    exists|row: BufId, kv: BufId, score: BufId|
        #![
            trigger product_of(log, from, Kernel::MulMvF32, w_kv, row, kv),
            product_of(log, from, Kernel::MulMvF32, w_gate, row, score),
        ]
        {
            &&& noted(
                log,
                from,
                Command::Copy {
                    src: x,
                    src_off: ((i * n_embd) as u64 * 4) as u64,
                    dst: row,
                    dst_off: 0,
                    bytes: (n_embd * 4) as u64,
                },
            )
            &&& product_of(log, from, Kernel::MulMvF32, w_kv, row, kv)
            &&& product_of(log, from, Kernel::MulMvF32, w_gate, row, score)
            &&& noted(
                log,
                from,
                Command::CompStore(
                    (
                        CompStore {
                            kv: Source::Device(kv),
                            score: Source::Device(score),
                            ape,
                            state_kv: states.0,
                            state_score: states.1,
                            width: width as u32,
                            ratio,
                            pos,
                            ape_is_f16: false,
                        }
                    ),
                ),
            )
        }
}

/// A window that closes at position `pos` gave row `at` of the ring: the states pooled,
/// normed by `w_norm`, turned by the window's first position, and copied there.
pub open spec fn given_out(
    log: Seq<Command>,
    from: int,
    states: (BufId, BufId),
    w_norm: BufId,
    head_dim: u64,
    p: LayerParams,
    pos: u32,
    ring: BufId,
    at: u64,
) -> bool {
    exists|place: u64, row: BufId|
        #![trigger normed(log, from, BufId::Fresh(place), w_norm, F32(0x3586_37bd), row)]
        {
            &&& from <= place < log.len() && log[place as int] == (
                Command::PoolRatio4 {
                    state_kv: states.0,
                    state_score: states.1,
                    head_dim: head_dim as u32,
                }
            )
            &&& normed(log, from, BufId::Fresh(place), w_norm, F32(0x3586_37bd), row)
            &&& p.n_rot > 0 ==> turned_at(
                log,
                from,
                row,
                ((head_dim - p.n_rot) * 4) as u64,
                rotation_numbers(
                    p,
                    p.n_rot as u64,
                    (pos + 1 - p.compress_ratio) as u32,
                    1,
                    4,
                    false,
                ),
            )
            &&& noted(
                log,
                from,
                Command::Copy {
                    src: row,
                    src_off: 0,
                    dst: ring,
                    dst_off: ((at * head_dim) as u64 * 4) as u64,
                    bytes: (head_dim * 4) as u64,
                },
            )
        }
}

pub(crate) proof fn taken_in_kept(
    a: Seq<Command>,
    b: Seq<Command>,
    from: int,
    earlier: int,
    x: BufId,
    n_embd: u64,
    w_kv: BufId,
    w_gate: BufId,
    ape: Ape,
    states: (BufId, BufId),
    width: u64,
    ratio: u32,
    pos: u32,
    i: int,
)
    requires
        taken_in(a, from, x, n_embd, w_kv, w_gate, ape, states, width, ratio, pos, i),
        grew(a, b),
        earlier <= from,
    ensures
        taken_in(b, earlier, x, n_embd, w_kv, w_gate, ape, states, width, ratio, pos, i),
{
    broadcast use {noted_kept, lemma_kept};

    let (row, kv, score) = choose|row: BufId, kv: BufId, score: BufId|
        #![
            trigger product_of(a, from, Kernel::MulMvF32, w_kv, row, kv),
            product_of(a, from, Kernel::MulMvF32, w_gate, row, score),
        ]
        {
            &&& noted(
                a,
                from,
                Command::Copy {
                    src: x,
                    src_off: ((i * n_embd) as u64 * 4) as u64,
                    dst: row,
                    dst_off: 0,
                    bytes: (n_embd * 4) as u64,
                },
            )
            &&& product_of(a, from, Kernel::MulMvF32, w_kv, row, kv)
            &&& product_of(a, from, Kernel::MulMvF32, w_gate, row, score)
            &&& noted(
                a,
                from,
                Command::CompStore(
                    (
                        CompStore {
                            kv: Source::Device(kv),
                            score: Source::Device(score),
                            ape,
                            state_kv: states.0,
                            state_score: states.1,
                            width: width as u32,
                            ratio,
                            pos,
                            ape_is_f16: false,
                        }
                    ),
                ),
            )
        };
    assert(product_of(b, earlier, Kernel::MulMvF32, w_kv, row, kv));
    assert(product_of(b, earlier, Kernel::MulMvF32, w_gate, row, score));
    assert(
        noted(
            b,
            earlier,
            Command::Copy {
                src: x,
                src_off: ((i * n_embd) as u64 * 4) as u64,
                dst: row,
                dst_off: 0,
                bytes: (n_embd * 4) as u64,
            },
        )
    );
    assert(
        noted(
            b,
            earlier,
            Command::CompStore(
                (
                    CompStore {
                        kv: Source::Device(kv),
                        score: Source::Device(score),
                        ape,
                        state_kv: states.0,
                        state_score: states.1,
                        width: width as u32,
                        ratio,
                        pos,
                        ape_is_f16: false,
                    }
                ),
            ),
        )
    );
}

pub(crate) proof fn given_out_kept(
    a: Seq<Command>,
    b: Seq<Command>,
    from: int,
    earlier: int,
    states: (BufId, BufId),
    w_norm: BufId,
    head_dim: u64,
    p: LayerParams,
    pos: u32,
    ring: BufId,
    at: u64,
)
    requires
        given_out(a, from, states, w_norm, head_dim, p, pos, ring, at),
        grew(a, b),
        earlier <= from,
        0 <= earlier,
    ensures
        given_out(b, earlier, states, w_norm, head_dim, p, pos, ring, at),
{
    broadcast use {noted_kept, lemma_kept, normed_kept, grew_len};

    let (place, row) = choose|place: u64, row: BufId|
        #![trigger normed(a, from, BufId::Fresh(place), w_norm, F32(0x3586_37bd), row)]
        {
            &&& from <= place < a.len() && a[place as int] == (
                Command::PoolRatio4 {
                    state_kv: states.0,
                    state_score: states.1,
                    head_dim: head_dim as u32,
                }
            )
            &&& normed(a, from, BufId::Fresh(place), w_norm, F32(0x3586_37bd), row)
            &&& p.n_rot > 0 ==> turned_at(
                a,
                from,
                row,
                ((head_dim - p.n_rot) * 4) as u64,
                rotation_numbers(
                    p,
                    p.n_rot as u64,
                    (pos + 1 - p.compress_ratio) as u32,
                    1,
                    4,
                    false,
                ),
            )
            &&& noted(
                a,
                from,
                Command::Copy {
                    src: row,
                    src_off: 0,
                    dst: ring,
                    dst_off: ((at * head_dim) as u64 * 4) as u64,
                    bytes: (head_dim * 4) as u64,
                },
            )
        };
    reveal(grew);
    assert(b[place as int] == a[place as int]);
    assert(normed(b, earlier, BufId::Fresh(place), w_norm, F32(0x3586_37bd), row));
    assert(
        p.n_rot > 0 ==> turned_at(
            b,
            earlier,
            row,
            ((head_dim - p.n_rot) * 4) as u64,
            rotation_numbers(p, p.n_rot as u64, (pos + 1 - p.compress_ratio) as u32, 1, 4, false),
        )
    );
    assert(
        noted(
            b,
            earlier,
            Command::Copy {
                src: row,
                src_off: 0,
                dst: ring,
                dst_off: ((at * head_dim) as u64 * 4) as u64,
                bytes: (head_dim * 4) as u64,
            },
        )
    );
}

pub(crate) proof fn did_take_in(
    t: Trace,
    x: DeferredBuf,
    n_embd: u64,
    head_dim: u64,
    w_kv: DeferredBuf,
    w_gate: DeferredBuf,
    ape: Ape,
    state_kv: BufId,
    state_score: BufId,
    ratio: u32,
    pos: u32,
    i: int,
)
    ensures
        ({
            let (u, r) = t.comp_step(
                x,
                n_embd,
                head_dim,
                w_kv,
                w_gate,
                ape,
                state_kv,
                state_score,
                ratio,
                pos,
                i,
            );
            r is Ok ==> taken_in(
                u.log,
                t.log.len() as int,
                x.buf,
                n_embd,
                w_kv.buf,
                w_gate.buf,
                ape,
                (state_kv, state_score),
                (2 * head_dim) as u64,
                ratio,
                pos,
                i,
            )
        }),
{
    broadcast use group_flow;

    grew_itself(t.log);
    reveal(Trace::comp_step);
    let (u, r) = t.comp_step(
        x,
        n_embd,
        head_dim,
        w_kv,
        w_gate,
        ape,
        state_kv,
        state_score,
        ratio,
        pos,
        i,
    );
    if r is Ok {
        let from = t.log.len() as int;
        let width = (2 * head_dim) as u64;
        let (a, row) = t.slice_out_f32(x, (i * n_embd) as u64, n_embd);
        let (b, kv) = a.matvec_f32(w_kv, row, n_embd, width);
        let (c, score) = b.matvec_f32(w_gate, row, n_embd, width);
        did_f32(a, w_kv, row, n_embd, width);
        did_f32(b, w_gate, row, n_embd, width);
        grew_itself(a.log);
        grew_itself(b.log);
        grew_itself(c.log);
        assert(
            grew(
                t.log,
                a.log,
            ) && grew(
                t.log,
                b.log,
            ) && grew(
                t.log,
                c.log,
            ) && grew(a.log, u.log) && grew(b.log, u.log) && grew(c.log, u.log)
        ) by {
            broadcast use grows_matvec_f32;
        }
        lemma_noted(
            a.log,
            from,
            Command::Copy {
                src: x.buf,
                src_off: ((i * n_embd) as u64 * 4) as u64,
                dst: row.buf,
                dst_off: 0,
                bytes: (n_embd * 4) as u64,
            },
            a.log.len() - 2,
        );
        let s = CompStore {
            kv: Source::Device(kv->Ok_0.buf),
            score: Source::Device(score->Ok_0.buf),
            ape,
            state_kv,
            state_score,
            width: width as u32,
            ratio,
            pos,
            ape_is_f16: false,
        };
        lemma_noted(u.log, from, Command::CompStore(s), u.log.len() - 1);
        broadcast use {noted_kept, lemma_kept};
        
        assert(product_of(u.log, from, Kernel::MulMvF32, w_kv.buf, row.buf, kv->Ok_0.buf));
        assert(product_of(u.log, from, Kernel::MulMvF32, w_gate.buf, row.buf, score->Ok_0.buf));
        assert(
            noted(
                u.log,
                from,
                Command::Copy {
                    src: x.buf,
                    src_off: ((i * n_embd) as u64 * 4) as u64,
                    dst: row.buf,
                    dst_off: 0,
                    bytes: (n_embd * 4) as u64,
                },
            )
        );
    }
}

pub(crate) proof fn did_give_out(
    t: Trace,
    state_kv: BufId,
    state_score: BufId,
    w_norm: DeferredBuf,
    head_dim: u64,
    p: LayerParams,
    pos: u32,
    ring: BufId,
    at: u64,
)
    ensures
        ({
            let (u, r) = t.emit_row(state_kv, state_score, w_norm, head_dim, p, pos, ring, at);
            r is Ok && u.log.len() <= u64::MAX ==> given_out(
                u.log,
                t.log.len() as int,
                (state_kv, state_score),
                w_norm.buf,
                head_dim,
                p,
                pos,
                ring,
                at,
            )
        }),
{
    broadcast use group_flow;

    grew_itself(t.log);
    reveal(Trace::emit_row);
    let (u, r) = t.emit_row(state_kv, state_score, w_norm, head_dim, p, pos, ring, at);
    if r is Ok && u.log.len() <= u64::MAX {
        let from = t.log.len() as int;
        let (a, pooled) = t.make(
            Command::PoolRatio4 { state_kv, state_score, head_dim: head_dim as u32 },
            head_dim,
        );
        let (b, row) = a.rms_norm_mul(pooled, w_norm, F32(0x3586_37bd));
        let off = ((head_dim - p.n_rot) * 4) as u64;
        let turn = (pos + 1 - p.compress_ratio) as u32;
        let numbers = rotation_numbers(p, p.n_rot as u64, turn, 1, 4, false);
        let (c, turned) = if p.n_rot > 0 {
            b.rope_tail_in_place(row->Ok_0, off, 1, p, turn, false)
        } else {
            (b, Ok(()))
        };
        did_norm(a, pooled, w_norm, F32(0x3586_37bd));
        if p.n_rot > 0 {
            reveal(Trace::rope_tail_in_place);
            lemma_tail(
                c.log,
                b.log.len() as int,
                Kernel::RopeTail,
                3,
                seq![Command::Buffer(3, row->Ok_0.buf, off), Command::Rope(numbers)],
                2,
            );
            assert(turned_at(c.log, b.log.len() as int, row->Ok_0.buf, off, numbers));
        }
        grew_itself(a.log);
        grew_itself(b.log);
        grew_itself(c.log);
        assert(
            grew(
                t.log,
                a.log,
            ) && grew(
                t.log,
                b.log,
            ) && grew(
                t.log,
                c.log,
            ) && grew(a.log, u.log) && grew(b.log, u.log) && grew(c.log, u.log)
        ) by {
            broadcast use {grows_rms_norm_mul, grows_rope_tail_in_place};
        }
        assert(row->Ok_0.n_elements == head_dim) by {
            reveal(Trace::rms_norm_mul);
        }
        let copy = Command::Copy {
            src: row->Ok_0.buf,
            src_off: 0,
            dst: ring,
            dst_off: ((at * head_dim) as u64 * 4) as u64,
            bytes: (head_dim * 4) as u64,
        };
        lemma_noted(u.log, from, copy, u.log.len() - 2);
        broadcast use {noted_kept, lemma_kept, normed_kept};
        
        let place = t.log.len() as u64;
        assert(u.log[from] == a.log[from]) by {
            reveal(grew);
        }
        assert(
            normed(u.log, from, BufId::Fresh(place), w_norm.buf, F32(0x3586_37bd), row->Ok_0.buf)
        );
        assert(p.n_rot > 0 ==> turned_at(u.log, from, row->Ok_0.buf, off, numbers));
    }
}

/// Every position of a step is taken in by the compressor, by its own row and at its own
/// position, and every position that closes a window gives out a row, which goes behind
/// those that the ring held and those that the step gave out before.
pub(crate) proof fn did_comp_rows(
    t: Trace,
    x: DeferredBuf,
    n_embd: u64,
    head_dim: u64,
    weights: (DeferredBuf, DeferredBuf, DeferredBuf),
    ape: Ape,
    states: (BufId, BufId),
    ring: BufId,
    n_comp: u32,
    p: LayerParams,
    base: u32,
    k: u64,
    i: int,
)
    requires
        0 <= i,
        p.compress_ratio > 0,
        base + k <= u32::MAX,
    ensures
        ({
            let (u, r) = t.comp_rows(
                x,
                n_embd,
                head_dim,
                weights,
                ape,
                states,
                ring,
                n_comp,
                p,
                base,
                k,
                i,
            );
            r is Ok && u.log.len() <= u64::MAX ==> forall|j: int| i <= j < k ==> #[trigger] compressed_at(
                u.log,
                t.log.len() as int,
                x.buf,
                n_embd,
                head_dim,
                (weights.0.buf, weights.1.buf, weights.2.buf),
                ape,
                states,
                ring,
                n_comp,
                p,
                base,
                j,
            )
        }),
    decreases k - i,
{
    let (u, r) = t.comp_rows(
        x,
        n_embd,
        head_dim,
        weights,
        ape,
        states,
        ring,
        n_comp,
        p,
        base,
        k,
        i,
    );
    if i < k && r is Ok && u.log.len() <= u64::MAX {
        broadcast use group_flow;

        let from = t.log.len() as int;
        let w = (weights.0.buf, weights.1.buf, weights.2.buf);
        let pos = (base + i) as u32;
        let ratio = p.compress_ratio;
        let (a, one) = t.comp_step(
            x,
            n_embd,
            head_dim,
            weights.0,
            weights.1,
            ape,
            states.0,
            states.1,
            ratio,
            pos,
            i,
        );
        let closes = (pos + 1) % ratio as int == 0;
        let at = (n_comp + emitted(base as int, ratio as int, i).len()) as u64;
        lemma_emitted_counts(base as int, ratio as int, i);
        let (b, two) = if closes {
            a.emit_row(states.0, states.1, weights.2, head_dim, p, pos, ring, at)
        } else {
            (a, one)
        };
        grew_itself(t.log);
        grew_itself(a.log);
        grew_itself(b.log);
        grew_itself(u.log);
        assert(
            grew(t.log, a.log) && grew(a.log, u.log) && grew(t.log, b.log) && grew(b.log, u.log)
        ) by {
            broadcast use {grows_comp_step, grows_emit_row, grows_comp_rows};
        }
        did_take_in(
            t,
            x,
            n_embd,
            head_dim,
            weights.0,
            weights.1,
            ape,
            states.0,
            states.1,
            ratio,
            pos,
            i,
        );
        did_give_out(a, states.0, states.1, weights.2, head_dim, p, pos, ring, at);
        taken_in_kept(
            a.log,
            u.log,
            from,
            from,
            x.buf,
            n_embd,
            w.0,
            w.1,
            ape,
            states,
            (2 * head_dim) as u64,
            ratio,
            pos,
            i,
        );
        if closes {
            given_out_kept(
                b.log,
                u.log,
                a.log.len() as int,
                from,
                states,
                w.2,
                head_dim,
                p,
                pos,
                ring,
                at,
            );
        }
        assert(
            compressed_at(
                u.log,
                from,
                x.buf,
                n_embd,
                head_dim,
                w,
                ape,
                states,
                ring,
                n_comp,
                p,
                base,
                i,
            )
        );
        did_comp_rows(
            b,
            x,
            n_embd,
            head_dim,
            weights,
            ape,
            states,
            ring,
            n_comp,
            p,
            base,
            k,
            i + 1,
        );
        assert forall|j: int| i <= j < k implies #[trigger] compressed_at(
            u.log,
            from,
            x.buf,
            n_embd,
            head_dim,
            w,
            ape,
            states,
            ring,
            n_comp,
            p,
            base,
            j,
        ) by {
            if j > i {
                assert(
                    compressed_at(
                        u.log,
                        b.log.len() as int,
                        x.buf,
                        n_embd,
                        head_dim,
                        w,
                        ape,
                        states,
                        ring,
                        n_comp,
                        p,
                        base,
                        j,
                    )
                );
                compressed_at_kept(
                    u.log,
                    u.log,
                    b.log.len() as int,
                    from,
                    x.buf,
                    n_embd,
                    head_dim,
                    w,
                    ape,
                    states,
                    ring,
                    n_comp,
                    p,
                    base,
                    j,
                );
            }
        }
    }
}

/// Position `j` of a step went through the compressor.
pub open spec fn compressed_at(
    log: Seq<Command>,
    from: int,
    x: BufId,
    n_embd: u64,
    head_dim: u64,
    w: (BufId, BufId, BufId),
    ape: Ape,
    states: (BufId, BufId),
    ring: BufId,
    n_comp: u32,
    p: LayerParams,
    base: u32,
    j: int,
) -> bool {
    let pos = (base + j) as u32;
    &&& taken_in(
        log,
        from,
        x,
        n_embd,
        w.0,
        w.1,
        ape,
        states,
        (2 * head_dim) as u64,
        p.compress_ratio,
        pos,
        j,
    )
    &&& (pos + 1) % p.compress_ratio as int == 0 ==> given_out(
        log,
        from,
        states,
        w.2,
        head_dim,
        p,
        pos,
        ring,
        (n_comp + closed_windows(base as int, p.compress_ratio as int, j)) as u64,
    )
}

pub(crate) proof fn compressed_at_kept(
    a: Seq<Command>,
    b: Seq<Command>,
    from: int,
    earlier: int,
    x: BufId,
    n_embd: u64,
    head_dim: u64,
    w: (BufId, BufId, BufId),
    ape: Ape,
    states: (BufId, BufId),
    ring: BufId,
    n_comp: u32,
    p: LayerParams,
    base: u32,
    j: int,
)
    requires
        compressed_at(a, from, x, n_embd, head_dim, w, ape, states, ring, n_comp, p, base, j),
        grew(a, b),
        earlier <= from,
        0 <= earlier,
    ensures
        compressed_at(b, earlier, x, n_embd, head_dim, w, ape, states, ring, n_comp, p, base, j),
{
    let pos = (base + j) as u32;
    taken_in_kept(
        a,
        b,
        from,
        earlier,
        x,
        n_embd,
        w.0,
        w.1,
        ape,
        states,
        (2 * head_dim) as u64,
        p.compress_ratio,
        pos,
        j,
    );
    if (pos + 1) % p.compress_ratio as int == 0 {
        given_out_kept(
            a,
            b,
            from,
            earlier,
            states,
            w.2,
            head_dim,
            p,
            pos,
            ring,
            (n_comp + closed_windows(base as int, p.compress_ratio as int, j)) as u64,
        );
    }
}

/// The compressor of a layer follows its flow: every position's row is taken in by the
/// layer's own weights and states, and every window that closes goes to the layer's
/// ring.
pub proof fn law_compression_flow(
    t: Trace,
    ctx: CompVerifyCtx,
    x: DeferredBuf,
    shape: AttnShape,
    place: Place,
    ring: BufId,
)
    requires
        place.params.compress_ratio > 0,
        place.base_pos + place.k <= u32::MAX,
    ensures
        ({
            let (u, r) = t.compress(ctx, x, shape, place, ring);
            let c = ctx.attn_comp;
            let w = (
                BufId::Weight(c.w_kv.id),
                BufId::Weight(c.w_gate.id),
                BufId::Weight(c.w_norm.id),
            );
            let ape = Ape::Transposed {
                host: c.w_ape,
                width: (2 * shape.head_dim) as u64,
                ratio: place.params.compress_ratio as u64,
            };
            let states = (BufId::CompStateKv(place.layer), BufId::CompStateScore(place.layer));
            r is Ok && u.log.len() <= u64::MAX ==> forall|j: int| 0 <= j < place.k ==> #[trigger] compressed_at(
                u.log,
                t.log.len() as int,
                x.buf,
                shape.n_embd,
                shape.head_dim,
                w,
                ape,
                states,
                ring,
                ctx.n_comp,
                place.params,
                place.base_pos,
                j,
            )
        }),
{
    broadcast use group_flow;

    reveal(Trace::compress);
    let (u, r) = t.compress(ctx, x, shape, place, ring);
    if r is Ok && u.log.len() <= u64::MAX {
        let bytes = (64 * shape.head_dim) as u64;
        let (a, w_kv) = t.put(Command::CompStateKv { layer: place.layer, bytes }).put(
            Command::CompStateScore { layer: place.layer, bytes },
        ).weight_f32(ctx.attn_comp.w_kv);
        let (b, w_gate) = a.weight_f32(ctx.attn_comp.w_gate);
        let (d, w_norm) = b.weight_f32(ctx.attn_comp.w_norm);
        let ape = Ape::Transposed {
            host: ctx.attn_comp.w_ape,
            width: (2 * shape.head_dim) as u64,
            ratio: place.params.compress_ratio as u64,
        };
        let states = (BufId::CompStateKv(place.layer), BufId::CompStateScore(place.layer));
        let w = (w_kv.buf, w_gate.buf, w_norm.buf);
        let from = t.log.len() as int;
        did_comp_rows(
            d,
            x,
            shape.n_embd,
            shape.head_dim,
            (w_kv, w_gate, w_norm),
            ape,
            states,
            ring,
            ctx.n_comp,
            place.params,
            place.base_pos,
            place.k,
            0,
        );
        grew_itself(t.log);
        grew_itself(u.log);
        assert(grew(t.log, d.log));
        assert forall|j: int| 0 <= j < place.k implies #[trigger] compressed_at(
            u.log,
            from,
            x.buf,
            shape.n_embd,
            shape.head_dim,
            w,
            ape,
            states,
            ring,
            ctx.n_comp,
            place.params,
            place.base_pos,
            j,
        ) by {
            assert(
                compressed_at(
                    u.log,
                    d.log.len() as int,
                    x.buf,
                    shape.n_embd,
                    shape.head_dim,
                    w,
                    ape,
                    states,
                    ring,
                    ctx.n_comp,
                    place.params,
                    place.base_pos,
                    j,
                )
            );
            compressed_at_kept(
                u.log,
                u.log,
                d.log.len() as int,
                from,
                x.buf,
                shape.n_embd,
                shape.head_dim,
                w,
                ape,
                states,
                ring,
                ctx.n_comp,
                place.params,
                place.base_pos,
                j,
            );
        }
    }
}

/// The last two commands of `log` are a step of the routed experts and one of the shared
/// ones, and `outs` are what they make.
pub open spec fn stepped(
    log: Seq<Command>,
    from: int,
    m: MoeRouted,
    s: SharedChain,
    outs: MoeOuts,
) -> bool {
    &&& log.len() == from + 2
    &&& log[from] == Command::MoeRouted(m)
    &&& log[from + 1] == Command::SharedChain(s)
    &&& outs.0 == (DeferredBuf { buf: BufId::Fresh(from as u64), n_elements: m.d_in })
    &&& outs.1 == (DeferredBuf { buf: BufId::Fresh((from + 1) as u64), n_elements: s.d_in })
}

/// A step of one position from the host hands the experts of its layer the row, the
/// choice and the factors, and the shared experts their own row and weights.
pub proof fn law_host_step(
    t: Trace,
    layer: u32,
    x: HostRef,
    sel: HostRef,
    wt: HostRef,
    d_ffn: u64,
    row: HostRef,
    gate: HostRef,
    up: HostRef,
    down: HostRef,
    dim: u32,
    want: bool,
)
    ensures
        ({
            let (u, r) = t.encode_moe_and_shared_chain(
                layer,
                x,
                sel,
                wt,
                d_ffn,
                row,
                gate,
                up,
                down,
                dim,
                want,
            );
            let e = t.engine.experts[layer as int];
            let m = MoeRouted {
                layer,
                x: Source::Host(x),
                d_in: x.len,
                route: Route::Host { selected: sel, weights: wt },
                experts: ExpertBufs { gate: e.gate.buf, up: e.up.buf, down: e.down.buf },
                streamed: true,
                gate: e.gate.ttype,
                up: e.up.ttype,
                down: e.down.ttype,
                d_ffn: inner_width(d_ffn, e),
            };
            let s = SharedChain {
                x: Source::Host(row),
                d_in: row.len,
                w_gate: gate,
                w_up: up,
                w_down: down,
                shared_dim: dim,
                want_q80: want,
                gate_q8: None,
                up_q8: None,
                down_q8: None,
            };
            r is Ok ==> stepped(u.log, t.log.len() as int, m, s, r->Ok_0)
        }),
{
    reveal(Trace::encode_moe_and_shared_chain);
}

/// The Q8_0 bytes that a step is handed: those that are there, unless they are switched
/// off.
pub open spec fn bytes_handed(t: Trace, b: HostRef) -> Option<HostRef> {
    if t.config.q8_proj_off || b.len == 0 {
        None
    } else {
        Some(b)
    }
}

/// A step of one position whose route lies on the device hands over that route.
pub proof fn law_routed_step(
    t: Trace,
    layer: u32,
    x: HostRef,
    sel: DeferredBuf,
    wt: DeferredBuf,
    d_ffn: u64,
    row: HostRef,
    w: (HostRef, HostRef, HostRef),
    dim: u32,
    want: bool,
    q8: (HostRef, HostRef, HostRef),
)
    ensures
        ({
            let (u, r) = t.encode_moe_and_shared_chain_with_router_bufs(
                layer,
                x,
                sel,
                wt,
                d_ffn,
                row,
                w,
                dim,
                want,
                q8,
            );
            let e = t.engine.experts[layer as int];
            let m = MoeRouted {
                layer,
                x: Source::Host(x),
                d_in: x.len,
                route: Route::Device { chosen: sel.buf, factors: wt.buf },
                experts: ExpertBufs { gate: e.gate.buf, up: e.up.buf, down: e.down.buf },
                streamed: false,
                gate: e.gate.ttype,
                up: e.up.ttype,
                down: e.down.ttype,
                d_ffn: inner_width(d_ffn, e),
            };
            let s = SharedChain {
                x: Source::Host(row),
                d_in: row.len,
                w_gate: w.0,
                w_up: w.1,
                w_down: w.2,
                shared_dim: dim,
                want_q80: want,
                gate_q8: bytes_handed(t, q8.0),
                up_q8: bytes_handed(t, q8.1),
                down_q8: bytes_handed(t, q8.2),
            };
            r is Ok ==> stepped(u.log, t.log.len() as int, m, s, r->Ok_0)
        }),
{
    reveal(Trace::encode_moe_and_shared_chain_with_router_bufs);
}

/// A step of one position that lies on the device altogether hands over the row for the
/// routed experts, the row for the shared ones, and the route, and takes the experts
/// that the engine keeps in its caches where it keeps them.
pub proof fn law_device_step(
    t: Trace,
    layer: u32,
    x: DeferredBuf,
    sel: DeferredBuf,
    wt: DeferredBuf,
    d_ffn: u64,
    row: DeferredBuf,
    w: (HostRef, HostRef, HostRef),
    dim: u32,
    q8: (HostRef, HostRef, HostRef),
)
    ensures
        ({
            let (u, r) = t.encode_moe_and_shared_chain_with_router_bufs_db(
                layer,
                x,
                sel,
                wt,
                d_ffn,
                row,
                w,
                dim,
                q8,
            );
            let e = t.engine.experts[layer as int];
            let experts = if layer < t.engine.expert_caches.len() {
                t.engine.expert_caches[layer as int]
            } else {
                ExpertBufs { gate: e.gate.buf, up: e.up.buf, down: e.down.buf }
            };
            let m = MoeRouted {
                layer,
                x: Source::Device(x.buf),
                d_in: x.n_elements,
                route: Route::Device { chosen: sel.buf, factors: wt.buf },
                experts,
                streamed: false,
                gate: e.gate.ttype,
                up: e.up.ttype,
                down: e.down.ttype,
                d_ffn: inner_width(d_ffn, e),
            };
            let s = SharedChain {
                x: Source::Device(row.buf),
                d_in: row.n_elements,
                w_gate: w.0,
                w_up: w.1,
                w_down: w.2,
                shared_dim: dim,
                want_q80: false,
                gate_q8: bytes_handed(t, q8.0),
                up_q8: bytes_handed(t, q8.1),
                down_q8: bytes_handed(t, q8.2),
            };
            r is Ok ==> stepped(u.log, t.log.len() as int, m, s, r->Ok_0)
        }),
{
    reveal(Trace::encode_moe_and_shared_chain_with_router_bufs_db);
}

/// Cached weights are named by their array and by what the copy holds: two requests give
/// one buffer exactly when they ask for the same array in the same form.
pub proof fn law_weights_are_named(t: Trace, s: Trace, w: HostRef, v: HostRef, n: u64)
    ensures
        t.weight_f32(w).1.buf == s.weight_f32(v).1.buf <==> w.id == v.id,
        t.weight_q8_0(w).1.buf == s.weight_q8_0(v).1.buf <==> w.id == v.id,
        t.weight_q8_0_raw(w, n).1.buf == s.weight_q8_0_raw(v, n).1.buf <==> w.id == v.id,
        t.weight_f16(w).1.buf == s.weight_q8_0_raw(v, n).1.buf <==> w.id == v.id,
        t.weight_f32(w).1.buf != s.weight_q8_0(v).1.buf,
        t.weight_f32(w).1.buf != s.weight_q8_0_raw(v, n).1.buf,
        t.weight_q8_0(w).1.buf != s.weight_q8_0_raw(v, n).1.buf,
        t.weight_f32(w).1.n_elements == w.len,
        t.weight_q8_0(w).1.n_elements == w.len,
        t.weight_q8_0_raw(w, n).1.n_elements == n,
        t.weight_f16(w).1.n_elements == w.len / 2,
{
}

/// The mixing weights come in half precision exactly when there is a half-precision
/// array, and from that array.
pub proof fn law_mixing_weights(t: Trace, w: HostRef, half: Option<HostRef>)
    ensures
        ({
            let (u, (b, is_half)) = t.weight_hc(w, half);
            &&& is_half <==> half is Some
            &&& half matches Some(h) ==> b.buf == BufId::WeightRaw(h.id) && b.n_elements == h.len / 2
            &&& half is None ==> b.buf == BufId::Weight(w.id) && b.n_elements == w.len
        }),
{
}

/// An excerpt is a new buffer, filled with the elements from the first one asked for on;
/// a copy puts all of a buffer behind the first elements of another.
pub proof fn law_copies_are_whole(t: Trace, src: DeferredBuf, first: u64, n: u64, dst: BufId)
    requires
        first * 4 <= u64::MAX,
        n * 4 <= u64::MAX,
        src.n_elements * 4 <= u64::MAX,
        t.log.len() <= u64::MAX,
    ensures
        ({
            let (u, out) = t.slice_out_f32(src, first, n);
            &&& out == (DeferredBuf { buf: BufId::Fresh(t.log.len() as u64), n_elements: n })
            &&& u.log.len() == t.log.len() + 5
            &&& u.log[t.log.len() as int] == (Command::NewBuffer { elem: Elem::F32, n })
            &&& u.log[t.log.len() as int + 3] == (
                Command::Copy {
                    src: src.buf,
                    src_off: (first * 4) as u64,
                    dst: out.buf,
                    dst_off: 0,
                    bytes: (n * 4) as u64,
                }
            )
        }),
        ({
            let u = t.copy_buf_into(src, dst, first);
            &&& u.log.len() == t.log.len() + 4
            &&& u.log[t.log.len() as int + 2] == (
                Command::Copy {
                    src: src.buf,
                    src_off: 0,
                    dst,
                    dst_off: (first * 4) as u64,
                    bytes: (src.n_elements * 4) as u64,
                }
            )
        }),
{
}

/// A conversion into a workspace takes the rows that it is given, in order, from the
/// first on.
pub proof fn law_workspace_is_filled(
    t: Trace,
    kv: DeferredBuf,
    n_rows: u64,
    head_dim: u64,
    padded: u32,
)
    ensures
        ({
            let (u, r) = t.kv_f16_workspace_direct(kv, n_rows, head_dim, padded);
            r is Ok ==> launched(
                u.log,
                t.log.len() as int,
                Kernel::CpyF32F16,
                1,
                seq![
                    Command::Buffer(1, kv.buf, 0),
                    Command::Buffer(2, r->Ok_0, 0),
                    Command::Dispatch(
                        ((((n_rows * head_dim) as u64 + 255) / 256) as u64, 1, 1),
                        (256, 1, 1),
                    ),
                ],
            )
        }),
{
    reveal(Trace::kv_f16_workspace_direct);
    let (u, r) = t.kv_f16_workspace_direct(kv, n_rows, head_dim, padded);
    if r is Ok {
        lemma_tail(
            u.log,
            t.log.len() as int,
            Kernel::CpyF32F16,
            1,
            seq![
                Command::Buffer(1, kv.buf, 0),
                Command::Buffer(2, r->Ok_0, 0),
                Command::Dispatch(
                    ((((n_rows * head_dim) as u64 + 255) / 256) as u64, 1, 1),
                    (256, 1, 1),
                ),
            ],
            1,
        );
    }
}

/// The workspace of a chunk joins the raw rows and the first `n_comp` rows of the ring,
/// in order.
pub proof fn law_chunk_workspace(
    t: Trace,
    kv: DeferredBuf,
    ring: BufId,
    n_raw: u32,
    n_comp: u32,
    head_dim: u32,
    padded: u32,
)
    ensures
        ({
            let (u, out) = t.build_chunk_kv_workspace(kv, ring, n_raw, n_comp, head_dim, padded);
            let n = t.words.len() as int;
            &&& out == BufId::Fresh(t.log.len() as u64)
            &&& u.log.len() == t.log.len() + 1
            &&& u.log.last() == Command::ExtendedKv(
                (
                    ExtendedKv {
                        kv_raw: kv.buf,
                        comp_ring: ring,
                        sel_start: n as u64,
                        n_raw,
                        n_comp,
                        head_dim,
                        n_total_padded: padded,
                    }
                ),
            )
            &&& u.words.len() == n + n_comp
            &&& forall|i: int| 0 <= i < n_comp ==> #[trigger] u.words[n + i] == i
        }),
{
    let (u, out) = t.build_chunk_kv_workspace(kv, ring, n_raw, n_comp, head_dim, padded);
    let n = t.words.len() as int;
    assert forall|i: int| 0 <= i < n_comp implies #[trigger] u.words[n + i] == i by {
        assert(u.words[n + i] == iota(n_comp)[i]);
    }
}

} // verus!
