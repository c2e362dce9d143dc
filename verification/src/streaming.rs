//! The streaming pool of experts: one pool serves all layers, and what is read from
//! it is what it was last filled with.

use crate::command::{BufId, Command, DeferredBuf, Elem, Stage};
use crate::ffn::spec_rows;
use crate::kernel::{MmIdKernel, MmQuant};
use crate::moe::{MmStage, inner_width, spec_mm_id_args, spec_stage};
use crate::pool::{PoolKey, Pools, tag_f32, tag_u16};
use crate::router::Routed;
use crate::trace::{Trace, held};
use vstd::prelude::*;

verus! {

/// From `t` to `u` commands were only added, and none of them fills the pool.
#[verifier::opaque]
pub open spec fn fills_none(t: Trace, u: Trace) -> bool {
    &&& t.log.is_prefix_of(u.log)
    &&& u.pools.chunk_layer == t.pools.chunk_layer
    &&& u.config == t.config
    &&& u.engine == t.engine
    &&& forall|j: int|
        t.log.len() <= j < u.log.len() ==> !(#[trigger] u.log[j] is RefillChunkPool)
}

broadcast proof fn lemma_none_itself(t: Trace)
    ensures
        #[trigger] fills_none(t, t),
{
    reveal(fills_none);
}

broadcast proof fn lemma_none_put(t: Trace, u: Trace, c: Command)
    requires
        fills_none(t, u),
        !(c is RefillChunkPool),
    ensures
        #[trigger] fills_none(t, u.put(c)),
{
    reveal(fills_none);
    let v = u.put(c);
    assert(t.log =~= v.log.subrange(0, t.log.len() as int));
    assert forall|j: int| t.log.len() <= j < v.log.len() implies !(
    #[trigger] v.log[j] is RefillChunkPool) by {
        if j < u.log.len() {
            assert(v.log[j] == u.log[j]);
        }
    }
}

proof fn lemma_none_chain(t: Trace, u: Trace, v: Trace)
    requires
        fills_none(t, u),
        fills_none(u, v),
    ensures
        fills_none(t, v),
{
    reveal(fills_none);
    assert(t.log =~= v.log.subrange(0, t.log.len() as int));
    assert forall|j: int| t.log.len() <= j < v.log.len() implies !(
    #[trigger] v.log[j] is RefillChunkPool) by {
        if j < u.log.len() {
            assert(v.log[j] == u.log[j]);
        }
    }
}

proof fn lemma_none_aside(t: Trace, u: Trace, v: Trace)
    requires
        fills_none(t, u),
        v.log == u.log,
        v.pools.chunk_layer == u.pools.chunk_layer,
        v.config == u.config,
        v.engine == u.engine,
    ensures
        fills_none(t, v),
{
    reveal(fills_none);
}

broadcast group group_none {
    lemma_none_itself,
    lemma_none_put,
}

proof fn lemma_none_pooled(t: Trace, key: PoolKey, n: u64)
    ensures
        fills_none(t, t.pooled_scratch_f32(key, n).0),
        fills_none(t, t.pooled_scratch_u16(key, n).0),
        fills_none(t, t.alloc_f32(n).0),
        fills_none(t, t.alloc_i32(n).0),
{
    broadcast use group_none;

    reveal(Trace::pooled_scratch_f32);
    reveal(Trace::pooled_scratch_u16);
    let w = t.warned();
    assert(fills_none(t, w));
    let tag = tag_f32(n, t.bit());
    lemma_none_named(w, key, tag, Elem::F32, n);
    lemma_none_chain(t, w, w.pooled(key, tag, Elem::F32, n).0);
    let tag = tag_u16(n, t.bit());
    lemma_none_named(w, key, tag, Elem::U16, n);
    lemma_none_chain(t, w, w.pooled(key, tag, Elem::U16, n).0);
}

proof fn lemma_none_named(t: Trace, key: PoolKey, tag: u64, elem: Elem, n: u64)
    ensures
        fills_none(t, t.pooled(key, tag, elem, n).0),
{
    broadcast use group_none;

    let u = t.put(Command::NewPooled { key, tag, elem, n }).put(
        Command::Pin(BufId::Pooled(key, tag)),
    ).put(Command::CommitResidency);
    assert(fills_none(t, u));
    lemma_none_aside(
        t,
        u,
        Trace {
            pools: Pools { entries: t.pools.entries.push((key, tag)), ..t.pools },
            ..u
        },
    );
}

proof fn lemma_none_map(t: Trace, sel: DeferredBuf, n_experts: u64, k: u64)
    ensures
        fills_none(t, t.encode_mul_mm_id_map0_k(sel, n_experts, k).0),
{
    broadcast use group_none;

    reveal(Trace::encode_mul_mm_id_map0_k);
}

proof fn lemma_none_gemm(
    t: Trace,
    stage: MmStage,
    w: DeferredBuf,
    x: DeferredBuf,
    tpe: DeferredBuf,
    ids: DeferredBuf,
    n_experts: u64,
    d_in: u64,
    d_out: u64,
    k: u64,
    slots: u64,
    act: u64,
)
    ensures
        fills_none(
            t,
            t.encode_mul_mm_id_qx_k(
                stage,
                w,
                x,
                tpe,
                ids,
                n_experts,
                d_in,
                d_out,
                k,
                slots,
                act,
            ).0,
        ),
{
    broadcast use group_none;

    reveal(Trace::encode_mul_mm_id_qx_k);
    let n = (k * 6 * d_out) as u64;
    lemma_none_pooled(t, PoolKey::MoeMmIdDst, n);
    let (u, dst) = t.pooled_scratch_f32(PoolKey::MoeMmIdDst, n);
    let args = spec_mm_id_args(
        stage.qk,
        stage.bytes,
        n_experts,
        d_in,
        d_out,
        k,
        slots,
        act,
    );
    let v = u.mm_id_launch(
        stage.kernel,
        args,
        w.buf,
        x.buf,
        tpe.buf,
        ids.buf,
        dst.buf,
        n_experts,
        d_out,
        k,
    );
    assert(fills_none(u, v)) by {
        reveal(Trace::mm_id_launch);
    }
    lemma_none_chain(t, u, v);
}

proof fn lemma_none_pair(
    t: Trace,
    gate_w: DeferredBuf,
    up_w: DeferredBuf,
    x: DeferredBuf,
    tpe: DeferredBuf,
    ids: DeferredBuf,
    wt: DeferredBuf,
    n_experts: u64,
    d_embd: u64,
    d_ffn: u64,
    k: u64,
)
    ensures
        fills_none(
            t,
            t.encode_mul_mm_id_iq2_pair_swiglu_k(
                gate_w,
                up_w,
                x,
                tpe,
                ids,
                wt,
                n_experts,
                d_embd,
                d_ffn,
                k,
            ).0,
        ),
{
    broadcast use group_none;

    reveal(Trace::encode_mul_mm_id_iq2_pair_swiglu_k);
    lemma_none_pooled(t, PoolKey::MoeMid, (k * 6 * d_ffn) as u64);
}

proof fn lemma_none_activation(
    t: Trace,
    gate: DeferredBuf,
    up: DeferredBuf,
    wt: DeferredBuf,
    d_ffn: u64,
    k: u64,
    half: bool,
)
    ensures
        fills_none(t, t.moe_swiglu_weight_k(gate, up, wt, d_ffn, k, half).0),
{
    broadcast use group_none;

    reveal(Trace::moe_swiglu_weight_k);
    let n = (k * 6 * d_ffn) as u64;
    lemma_none_pooled(t, PoolKey::MoeMidF16, n);
    lemma_none_pooled(t, PoolKey::MoeMidF32, n);
}

proof fn lemma_none_sum(t: Trace, x: DeferredBuf, d_embd: u64, k: u64)
    ensures
        fills_none(t, t.sum6_k(x, d_embd, k).0),
{
    broadcast use group_none;

    reveal(Trace::sum6_k);
    lemma_none_pooled(t, PoolKey::MoeMmIdOut, (k * d_embd) as u64);
}

/// The expert chain on given buffers fills nothing.
proof fn lemma_none_chain_of_experts(
    t: Trace,
    normed: DeferredBuf,
    sel: DeferredBuf,
    wt: DeferredBuf,
    gate_w: DeferredBuf,
    up_w: DeferredBuf,
    down_w: DeferredBuf,
    gate: MmStage,
    up: MmStage,
    down: MmStage,
    n_experts: u64,
    d_embd: u64,
    d_ffn: u64,
    k: u64,
)
    ensures
        fills_none(
            t,
            t.encode_moe_chain_mm_qx_k(
                normed,
                sel,
                wt,
                gate_w,
                up_w,
                down_w,
                gate,
                up,
                down,
                n_experts,
                d_embd,
                d_ffn,
                k,
            ).0,
        ),
{
    reveal(Trace::encode_moe_chain_mm_qx_k);
    lemma_none_itself(t);
    lemma_none_map(t, sel, n_experts, k);
    let (a, map) = t.encode_mul_mm_id_map0_k(sel, n_experts, k);
    if map is Ok {
        let (tpe, ids) = map->Ok_0;
        let iq2 = MmIdKernel {
            quant: MmQuant::IQ2_XXS,
            half_rhs: false,
        };
        let fuse = gate.kernel == iq2 && up.kernel == iq2 && t.config.moe_fused_mm_id;
        let half = !t.config.moe_mid_f32 && !fuse;
        lemma_none_pair(a, gate_w, up_w, normed, tpe, ids, wt, n_experts, d_embd, d_ffn, k);
        lemma_none_gemm(a, gate, gate_w, normed, tpe, ids, n_experts, d_embd, d_ffn, k, 1, 4);
        let (b, g) = a.encode_mul_mm_id_qx_k(
            gate,
            gate_w,
            normed,
            tpe,
            ids,
            n_experts,
            d_embd,
            d_ffn,
            k,
            1,
            4,
        );
        lemma_none_gemm(b, up, up_w, normed, tpe, ids, n_experts, d_embd, d_ffn, k, 1, 4);
        let (c, u) = b.encode_mul_mm_id_qx_k(
            up,
            up_w,
            normed,
            tpe,
            ids,
            n_experts,
            d_embd,
            d_ffn,
            k,
            1,
            4,
        );
        lemma_none_chain(a, b, c);
        lemma_none_activation(c, g->Ok_0, u->Ok_0, wt, d_ffn, k, half);
        let d = c.moe_swiglu_weight_k(g->Ok_0, u->Ok_0, wt, d_ffn, k, half).0;
        lemma_none_chain(a, c, d);
        let (m, mid) = a.moe_mid(
            fuse,
            half,
            normed,
            wt,
            tpe,
            ids,
            gate_w,
            up_w,
            gate,
            up,
            n_experts,
            d_embd,
            d_ffn,
            k,
        );
        assert(fills_none(a, m));
        lemma_none_chain(t, a, m);
        if mid is Ok {
            let stage = if half {
                MmStage {
                    kernel: MmIdKernel { half_rhs: true, ..down.kernel },
                    ..down
                }
            } else {
                down
            };
            let act: u64 = if half {
                2
            } else {
                4
            };
            lemma_none_gemm(
                m,
                stage,
                down_w,
                mid->Ok_0,
                tpe,
                ids,
                n_experts,
                d_ffn,
                d_embd,
                k,
                6,
                act,
            );
            let (o, out) = m.encode_mul_mm_id_qx_k(
                stage,
                down_w,
                mid->Ok_0,
                tpe,
                ids,
                n_experts,
                d_ffn,
                d_embd,
                k,
                6,
                act,
            );
            lemma_none_chain(t, m, o);
            if out is Ok {
                lemma_none_sum(o, out->Ok_0, d_embd, k);
                lemma_none_chain(t, o, o.sum6_k(out->Ok_0, d_embd, k).0);
            }
        }
    }
}

proof fn lemma_held_steady(before: Option<u32>, log: Seq<Command>, from: int, n: int)
    requires
        0 <= n <= log.len(),
        from <= n,
        forall|j: int| n <= j < log.len() ==> !(#[trigger] log[j] is RefillChunkPool),
    ensures
        held(before, log, from) == held(before, log.take(n), from),
    decreases log.len(),
{
    if n < log.len() {
        let shorter = log.drop_last();
        assert(!(log[log.len() - 1] is RefillChunkPool));
        assert forall|j: int| n <= j < shorter.len() implies !(
        #[trigger] shorter[j] is RefillChunkPool) by {
            assert(shorter[j] == log[j]);
        }
        lemma_held_steady(before, shorter, from, n);
        assert(shorter.take(n) =~= log.take(n));
    } else {
        assert(log.take(n) =~= log);
    }
}

/// Under streaming, the experts that a chain multiplies by are those of its own
/// layer: before each of its commands but the refill itself, the last refill since
/// any earlier state of the scope names that layer, or there was none since and
/// the pool held that layer then. The chain reads the pool's three buffers.
pub proof fn law_pool_holds_the_layer(
    earlier: Trace,
    t: Trace,
    layer: u32,
    normed: DeferredBuf,
    sel: DeferredBuf,
    wt: DeferredBuf,
    d_embd: u64,
    d_ffn: u64,
    k: u64,
    j: int,
)
    requires
        t.extends(earlier),
        t.config.ssd_stream,
    ensures
        ({
            let (u, r) = t.encode_moe_chain_mm_qx_k_auto(
                layer,
                normed,
                sel,
                wt,
                d_embd,
                d_ffn,
                k,
            );
            let e = t.engine.experts[layer as int];
            let pool = t.engine.chunk_pool->Some_0;
            let n = (e.n_experts * inner_width(d_ffn, e) * d_embd) as u64;
            r is Ok ==> {
                &&& (t.log.len() <= j < u.log.len() && !(u.log[j] is RefillChunkPool)) ==> held(
                    earlier.pools.chunk_layer,
                    u.log.take(j),
                    earlier.log.len() as int,
                ) == Some(layer)
                &&& u.pools.chunk_layer == Some(layer)
                &&& t.engine.chunk_pool is Some
                &&& (u, r) == t.bind_pool(layer).encode_moe_chain_mm_qx_k(
                    normed,
                    sel,
                    wt,
                    DeferredBuf { buf: pool.gate, n_elements: n },
                    DeferredBuf { buf: pool.up, n_elements: n },
                    DeferredBuf { buf: pool.down, n_elements: n },
                    spec_stage(e.gate.ttype)->Some_0,
                    spec_stage(e.up.ttype)->Some_0,
                    spec_stage(e.down.ttype)->Some_0,
                    e.n_experts as u64,
                    d_embd,
                    inner_width(d_ffn, e),
                    k,
                )
            }
        }),
{
    reveal(Trace::encode_moe_chain_mm_qx_k_auto);
    let (u, r) = t.encode_moe_chain_mm_qx_k_auto(layer, normed, sel, wt, d_embd, d_ffn, k);
    if r is Ok {
        let e = t.engine.experts[layer as int];
        let pool = t.engine.chunk_pool->Some_0;
        let n = (e.n_experts * inner_width(d_ffn, e) * d_embd) as u64;
        let b = t.bind_pool(layer);
        lemma_none_chain_of_experts(
            b,
            normed,
            sel,
            wt,
            DeferredBuf { buf: pool.gate, n_elements: n },
            DeferredBuf { buf: pool.up, n_elements: n },
            DeferredBuf { buf: pool.down, n_elements: n },
            spec_stage(e.gate.ttype)->Some_0,
            spec_stage(e.up.ttype)->Some_0,
            spec_stage(e.down.ttype)->Some_0,
            e.n_experts as u64,
            d_embd,
            inner_width(d_ffn, e),
            k,
        );
        crate::trace::lemma_fill_pool(t, layer, false);
        crate::trace::lemma_encodes_itself(t);
        crate::trace::lemma_encodes_extends(t, b);
        crate::trace::lemma_extends_chain(earlier, t, b);
        reveal(Trace::extends);
        reveal(fills_none);
        if t.log.len() <= j < u.log.len() && !(u.log[j] is RefillChunkPool) {
            if j < b.log.len() {
                assert(u.log[j] == b.log[j]);
            }
            let cut = u.log.take(j);
            assert forall|i: int| b.log.len() <= i < cut.len() implies !(
            #[trigger] cut[i] is RefillChunkPool) by {
                assert(cut[i] == u.log[i]);
            }
            lemma_held_steady(
                earlier.pools.chunk_layer,
                cut,
                earlier.log.len() as int,
                b.log.len() as int,
            );
            assert(cut.take(b.log.len() as int) =~= b.log);
        }
    }
}

proof fn lemma_none_waits(t: Trace, cbs: Seq<u64>, n: nat)
    ensures
        fills_none(t, t.wait_each(cbs, n)),
    decreases n,
{
    broadcast use group_none;

    if n > 0 {
        lemma_none_waits(t, cbs, (n - 1) as nat);
    }
}

proof fn lemma_none_read_back(t: Trace, b: DeferredBuf)
    ensures
        fills_none(t, t.commit_wait_read_multi(seq![b])),
{
    broadcast use group_none;

    let a = t.put(Command::CloseShared);
    let c = a.rotate().put(Command::Commit(t.cmd_buf)).put(Command::ProfilePush(t.cmd_buf));
    let r = a.put(Command::CloseShared).put(Command::NewCommandBuffer);
    assert(fills_none(t, r));
    lemma_none_aside(t, r, a.rotate());
    assert(fills_none(t, c));
    let d = a.commit_keep_open();
    lemma_none_aside(t, c, d);
    let w = d.wait_each(d.pending, d.pending.len());
    lemma_none_waits(d, d.pending, d.pending.len());
    lemma_none_chain(t, d, w);
    let v = Trace { pending: seq![], ..w };
    lemma_none_aside(t, w, v);
    let bufs = seq![b];
    assert(v.read_each(bufs, 0) == v);
    assert(v.read_each(bufs, 1) == v.read_each(bufs, 0).read(bufs[0], Elem::F32));
    assert(fills_none(t, v.read_each(bufs, 1)));
}

proof fn lemma_none_routes(
    t: Trace,
    n_experts: u64,
    generic: bool,
    probs: BufId,
    bias: BufId,
    hash: BufId,
    tokens: BufId,
    k: u64,
    i: int,
    done: Seq<Routed>,
)
    ensures
        fills_none(
            t,
            t.route_rows(n_experts, generic, probs, bias, hash, tokens, k, i, done).0,
        ),
    decreases k - i,
{
    broadcast use group_none;

    if i < k {
        let (u, r) = t.route_one(
            n_experts,
            generic,
            (probs, (i * (n_experts * 4)) as u64),
            bias,
            hash,
            tokens,
        );
        assert(fills_none(t, u)) by {
            reveal(Trace::route_one);
        }
        lemma_none_routes(
            u,
            n_experts,
            generic,
            probs,
            bias,
            hash,
            tokens,
            k,
            i + 1,
            done.push(r),
        );
        lemma_none_chain(
            t,
            u,
            u.route_rows(
                n_experts,
                generic,
                probs,
                bias,
                hash,
                tokens,
                k,
                i + 1,
                done.push(r),
            ).0,
        );
    }
}

proof fn lemma_none_flattened(t: Trace, routes: Seq<Routed>, sel: BufId, wt: BufId, i: int)
    ensures
        fills_none(t, t.flatten_rows(routes, sel, wt, i)),
    decreases routes.len() - i,
{
    broadcast use group_none;

    if 0 <= i < routes.len() {
        let off = (i * 24) as u64;
        let u = t.put(Command::CloseShared).put(Command::Blit).put(
            Command::Copy { src: routes[i].0.buf, src_off: 0, dst: sel, dst_off: off, bytes: 24 },
        ).put(
            Command::Copy { src: routes[i].1.buf, src_off: 0, dst: wt, dst_off: off, bytes: 24 },
        ).put(Command::EndBlit);
        assert(fills_none(t, u));
        lemma_none_flattened(u, routes, sel, wt, i + 1);
        lemma_none_chain(t, u, u.flatten_rows(routes, sel, wt, i + 1));
    }
}

/// Routing leaves the pool as it is, so that the experts which a step gathers are
/// those that its pool was filled with, after a wait, before routing.
pub proof fn law_routing_keeps_the_pool(
    t: Trace,
    probs: DeferredBuf,
    bias: DeferredBuf,
    n_experts: u64,
    k: u64,
    table: Seq<i32>,
    tokens: Seq<i32>,
    k_used: u64,
    layer: u32,
)
    ensures
        fills_none(t, t.route_by_table(probs, n_experts, k, table, tokens, k_used).0),
        fills_none(t, t.route_flat(probs, bias, k).0),
        t.config.ssd_stream ==> {
            let u = t.refill_pool(layer);
            let a = u.route_by_table(probs, n_experts, k, table, tokens, k_used).0;
            let b = u.route_flat(probs, bias, k).0;
            a.bind_pool(layer) == a && b.bind_pool(layer) == b
        },
{
    lemma_none_by_table(t, probs, n_experts, k, table, tokens, k_used);
    lemma_none_flat(t, probs, bias, k);
    if t.config.ssd_stream {
        law_pool_is_filled_once(t, layer);
        let u = t.refill_pool(layer);
        lemma_none_by_table(u, probs, n_experts, k, table, tokens, k_used);
        lemma_none_flat(u, probs, bias, k);
        reveal(fills_none);
    }
}

proof fn lemma_none_by_table(
    t: Trace,
    probs: DeferredBuf,
    n_experts: u64,
    k: u64,
    table: Seq<i32>,
    tokens: Seq<i32>,
    k_used: u64,
)
    ensures
        fills_none(t, t.route_by_table(probs, n_experts, k, table, tokens, k_used).0),
{
    broadcast use group_none;

    reveal(Trace::route_by_table);
    let n = (k * 6) as u64;
    let (a, start) = t.add_words(spec_rows(table, tokens, k_used as int, 6));
    lemma_none_aside(t, t, a);
    let (b, sel) = a.make(Command::UploadWords { start, len: n }, n);
    assert(fills_none(t, b));
    lemma_none_pooled(b, PoolKey::RouterWtK, n);
    lemma_none_chain(t, b, b.pooled_scratch_f32(PoolKey::RouterWtK, n).0);
    lemma_none_read_back(b, probs);
    let c = b.commit_wait_read_multi(seq![probs]);
    lemma_none_chain(t, b, c);
    let d = c.add_words(spec_rows(table, tokens, k_used as int, k_used as int)).0;
    lemma_none_aside(t, c, d);
}

proof fn lemma_none_flat(t: Trace, probs: DeferredBuf, bias: DeferredBuf, k: u64)
    ensures
        fills_none(t, t.route_flat(probs, bias, k).0),
{
    broadcast use group_none;

    reveal(Trace::route_flat);
    assert(fills_none(t, t.encode_router_finalize_flat_k(probs, bias, k).0)) by {
        reveal(Trace::encode_router_finalize_flat_k);
    }
    let (u, r) = t.encode_router_finalize_k(probs, bias, k);
    assert(fills_none(t, u)) by {
        reveal(Trace::encode_router_finalize_k);
        let n = bias.n_elements;
        let (a, hash) = t.upload_word(0);
        let (b, tokens) = a.upload_word(0);
        assert(fills_none(t, b));
        lemma_none_routes(
            b,
            n,
            t.engine.generic_router(n),
            probs.buf,
            bias.buf,
            hash.buf,
            tokens.buf,
            k,
            0,
            seq![],
        );
        let v = b.route_rows(
            n,
            t.engine.generic_router(n),
            probs.buf,
            bias.buf,
            hash.buf,
            tokens.buf,
            k,
            0,
            seq![],
        ).0;
        lemma_none_chain(t, b, v);
    }
    if r is Ok {
        let routes = r->Ok_0;
        let v = u.flatten_router_output_k(routes).0;
        assert(fills_none(u, v)) by {
            reveal(Trace::flatten_router_output_k);
            let n = (routes.len() * 6) as u64;
            let (a, sel) = u.alloc_i32(n);
            let (b, wt) = a.alloc_f32(n);
            assert(fills_none(u, b));
            lemma_none_flattened(b, routes, sel.buf, wt.buf, 0);
            lemma_none_chain(u, b, b.flatten_rows(routes, sel.buf, wt.buf, 0));
        }
        lemma_none_chain(t, u, v);
    }
}

/// A pool that holds the layer is left alone; one that holds another is filled
/// once, after what was encoded so far has run.
pub proof fn law_pool_is_filled_once(t: Trace, layer: u32)
    requires
        t.config.ssd_stream,
    ensures
        t.refill_pool(layer).pools.chunk_layer == Some(layer),
        t.refill_pool(layer).refill_pool(layer) == t.refill_pool(layer),
        t.refill_pool(layer).bind_pool(layer) == t.refill_pool(layer),
        t.pools.chunk_layer == Some(layer) ==> t.refill_pool(layer) == t,
        t.pools.chunk_layer != Some(layer) ==> {
            let log = t.refill_pool(layer).log;
            let n = log.len() as int;
            &&& log[n - 1] matches Command::RefillChunkPool { layer: l, .. } && l == layer
            &&& log[n - 3] == Command::CommitWait(t.cmd_buf, Stage::SsdChunkPool)
            &&& n == t.log.len() + 5
        },
{
    reveal(Trace::refill_pool);
}

} // verus!
