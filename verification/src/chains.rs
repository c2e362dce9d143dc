//! What flows where through the feed-forward half of a layer: from the streams and the
//! block that it is given, over the routed and the shared experts, to the streams that
//! it returns.

use crate::binds::{grew_len, launched, lemma_kept, lemma_tail};
use crate::command::{
    BufId, Command, DeferredBuf, HashWeights, HostRef, MoeRouted, Route, SharedChain, Source,
    Stage,
};
use crate::config::MoePath;
use crate::ffn::{FfnShape, FfnWeights, MoeChoice, spec_choice, spec_rows};
use crate::flow::{
    Experts, Fineness, collapsed, collapsed_kept, copied, did_expand_add, did_expand_attn,
    did_scores, did_shared_raw, expanded, experts_at_once, experts_at_once_kept,
    experts_by_gather, experts_by_gather_kept, experts_of, gathered, law_collapses_flow,
    law_layer_experts_flow, law_layer_fused_flow, mixed, normed, scored, scored_kept, shared_kept,
    shared_of,
};
use crate::growth::{
    grew, grew_itself, grew_push, grows_alloc_attn_out, grows_dump_residual,
    grows_encode_moe_chain_fused_K_auto, grows_encode_moe_chain_mm_qx_k_auto,
    grows_encode_router_finalize_k, grows_encode_router_logits_k, grows_flatten_router_output_k,
    grows_flatten_rows, grows_hc_collapse_norm_k, grows_hc_expand_add_split_k,
    grows_hc_expand_attn_split_k, grows_moe_rows, grows_moe_step, grows_pooled_scratch_f32,
    grows_pooled_scratch_u16, grows_read_each, grows_refill_pool, grows_route_by_table,
    grows_route_flat, grows_route_one, grows_shared_from_raw, grows_wait_each,
};
use crate::kernel::Kernel;
use crate::pool::PoolKey;
use crate::router::{Routed, spec_router_kernels};
use crate::settings::{
    alike, stays_encode_router_logits_k, stays_hc_collapse_norm_k, stays_hc_expand_attn_split_k,
    stays_refill_pool, stays_route_by_table, stays_route_flat,
};
use crate::trace::Trace;
use vstd::prelude::*;

verus! {

broadcast group group_flow {
    grew_push,
    grew_len,
    grows_alloc_attn_out,
    grows_pooled_scratch_f32,
    grows_pooled_scratch_u16,
}

/// The recording holds `c` from place `from` on.
#[verifier::opaque]
pub open spec fn noted(log: Seq<Command>, from: int, c: Command) -> bool {
    exists|p: int| from <= p < log.len() && 0 <= p && #[trigger] log[p] == c
}

pub broadcast proof fn noted_kept(
    a: Seq<Command>,
    b: Seq<Command>,
    from: int,
    earlier: int,
    c: Command,
)
    requires
        #[trigger] noted(a, from, c),
        grew(a, b),
        earlier <= from,
    ensures
        #[trigger] noted(b, earlier, c),
{
    reveal(noted);
    reveal(grew);
    let p = choose|p: int| from <= p < a.len() && 0 <= p && #[trigger] a[p] == c;
    assert(b[p] == a[p]);
}

pub(crate) proof fn lemma_noted(log: Seq<Command>, from: int, c: Command, p: int)
    requires
        from <= p < log.len(),
        0 <= p,
        log[p] == c,
    ensures
        noted(log, from, c),
{
    reveal(noted);
}

/// By the probabilities `probs` from byte `off` on and `bias`, experts were chosen into
/// `sel`.
pub open spec fn chosen(
    log: Seq<Command>,
    from: int,
    probs: BufId,
    off: u64,
    bias: BufId,
    hash: BufId,
    tokens: BufId,
    sel: BufId,
) -> bool {
    let s = seq![
        Command::Buffer(1, probs, off),
        Command::Buffer(2, bias, 0),
        Command::Buffer(3, hash, 0),
        Command::Buffer(4, tokens, 0),
        Command::Buffer(5, sel, 0),
    ];
    launched(
        log,
        from,
        Kernel::RouterFinalizeOneAny,
        1,
        s,
    ) || launched(log, from, Kernel::RouterFinalizeOne, 1, s)
}

/// The factors of the experts `sel` by the probabilities `probs` from byte `off` on
/// went to `wt`.
pub open spec fn weighed(
    log: Seq<Command>,
    from: int,
    probs: BufId,
    off: u64,
    sel: BufId,
    wt: BufId,
) -> bool {
    let s = seq![
        Command::Buffer(0, probs, off),
        Command::Buffer(1, sel, 0),
        Command::Buffer(2, wt, 0),
    ];
    launched(
        log,
        from,
        Kernel::RouterWeightsOneAny,
        0,
        s,
    ) || launched(log, from, Kernel::RouterWeightsOne, 0, s)
}

/// One position was routed: the probabilities from byte `off` on give both the experts
/// and their factors.
pub open spec fn routed_at(
    log: Seq<Command>,
    from: int,
    probs: BufId,
    off: u64,
    bias: BufId,
    sel: BufId,
    wt: BufId,
) -> bool {
    exists|hash: BufId, tokens: BufId| #[trigger] chosen(
        log,
        from,
        probs,
        off,
        bias,
        hash,
        tokens,
        sel,
    ) && weighed(log, from, probs, off, sel, wt)
}

pub(crate) proof fn routed_at_kept(
    a: Seq<Command>,
    b: Seq<Command>,
    from: int,
    earlier: int,
    probs: BufId,
    off: u64,
    bias: BufId,
    sel: BufId,
    wt: BufId,
)
    requires
        routed_at(a, from, probs, off, bias, sel, wt),
        grew(a, b),
        earlier <= from,
    ensures
        routed_at(b, earlier, probs, off, bias, sel, wt),
{
    broadcast use lemma_kept;

    let (hash, tokens) = choose|hash: BufId, tokens: BufId| #[trigger] chosen(
        a,
        from,
        probs,
        off,
        bias,
        hash,
        tokens,
        sel,
    ) && weighed(a, from, probs, off, sel, wt);
    let s = seq![
        Command::Buffer(1, probs, off),
        Command::Buffer(2, bias, 0),
        Command::Buffer(3, hash, 0),
        Command::Buffer(4, tokens, 0),
        Command::Buffer(5, sel, 0),
    ];
    assert(
        launched(
            b,
            earlier,
            Kernel::RouterFinalizeOneAny,
            1,
            s,
        ) || launched(b, earlier, Kernel::RouterFinalizeOne, 1, s)
    );
    assert(chosen(b, earlier, probs, off, bias, hash, tokens, sel));
    let s = seq![
        Command::Buffer(0, probs, off),
        Command::Buffer(1, sel, 0),
        Command::Buffer(2, wt, 0),
    ];
    assert(
        launched(
            b,
            earlier,
            Kernel::RouterWeightsOneAny,
            0,
            s,
        ) || launched(b, earlier, Kernel::RouterWeightsOne, 0, s)
    );
}

pub(crate) proof fn did_route_one(
    t: Trace,
    n: u64,
    generic: bool,
    probs: (BufId, u64),
    bias: BufId,
    hash: BufId,
    tokens: BufId,
)
    ensures
        ({
            let (u, (sel, wt)) = t.route_one(n, generic, probs, bias, hash, tokens);
            routed_at(u.log, t.log.len() as int, probs.0, probs.1, bias, sel.buf, wt.buf)
        }),
{
    broadcast use group_flow;

    let (u, (sel, wt)) = t.route_one(n, generic, probs, bias, hash, tokens);
    let from = t.log.len() as int;
    reveal(Trace::route_one);
    let kernels = spec_router_kernels(generic);
    let s = seq![
        Command::Buffer(1, probs.0, probs.1),
        Command::Buffer(2, bias, 0),
        Command::Buffer(3, hash, 0),
        Command::Buffer(4, tokens, 0),
        Command::Buffer(5, sel.buf, 0),
    ];
    let z = seq![
        Command::Buffer(0, probs.0, probs.1),
        Command::Buffer(1, sel.buf, 0),
        Command::Buffer(2, wt.buf, 0),
    ];
    lemma_tail(u.log, from, kernels.0, 1, s, 13);
    lemma_tail(u.log, from, kernels.1, 0, z, 5);
    assert(chosen(u.log, from, probs.0, probs.1, bias, hash, tokens, sel.buf));
}

/// Every position is routed by its own probabilities: those of position `i` begin at
/// row `i`.
pub proof fn law_each_position_is_routed(t: Trace, probs: DeferredBuf, bias: DeferredBuf, k: u64)
    ensures
        ({
            let (u, r) = t.encode_router_finalize_k(probs, bias, k);
            r is Ok ==> {
                &&& r->Ok_0.len() == k
                &&& forall|i: int| 0 <= i < k ==> routed_at(
                    u.log,
                    t.log.len() as int,
                    probs.buf,
                    (i * (bias.n_elements * 4)) as u64,
                    bias.buf,
                    (#[trigger] r->Ok_0[i]).0.buf,
                    r->Ok_0[i].1.buf,
                )
            }
        }),
{
    reveal(Trace::encode_router_finalize_k);
    let (u, r) = t.encode_router_finalize_k(probs, bias, k);
    if r is Ok {
        let n = bias.n_elements;
        let (a, hash) = t.upload_word(0);
        let (b, tokens) = a.upload_word(0);
        did_route_rows(
            t.log.len() as int,
            b,
            n,
            t.engine.generic_router(n),
            probs.buf,
            bias.buf,
            hash.buf,
            tokens.buf,
            k,
            0,
            seq![],
        );
    }
}

pub(crate) proof fn did_route_rows(
    from: int,
    t: Trace,
    n: u64,
    generic: bool,
    probs: BufId,
    bias: BufId,
    hash: BufId,
    tokens: BufId,
    k: u64,
    i: int,
    done: Seq<Routed>,
)
    requires
        from <= t.log.len(),
        0 <= i <= k,
        done.len() == i,
        forall|j: int| 0 <= j < i ==> routed_at(
            t.log,
            from,
            probs,
            (j * (n * 4)) as u64,
            bias,
            (#[trigger] done[j]).0.buf,
            done[j].1.buf,
        ),
    ensures
        ({
            let (u, rs) = t.route_rows(n, generic, probs, bias, hash, tokens, k, i, done);
            &&& rs.len() == k
            &&& forall|j: int| 0 <= j < k ==> routed_at(
                u.log,
                from,
                probs,
                (j * (n * 4)) as u64,
                bias,
                (#[trigger] rs[j]).0.buf,
                rs[j].1.buf,
            )
        }),
    decreases k - i,
{
    if i < k {
        let off = (i * (n * 4)) as u64;
        let (a, r) = t.route_one(n, generic, (probs, off), bias, hash, tokens);
        did_route_one(t, n, generic, (probs, off), bias, hash, tokens);
        grew_itself(t.log);
        grew_itself(a.log);
        assert(grew(t.log, a.log)) by {
            broadcast use grows_route_one;
        }
        broadcast use grew_len;

        let next = done.push(r);
        assert forall|j: int| 0 <= j < i + 1 implies routed_at(
            a.log,
            from,
            probs,
            (j * (n * 4)) as u64,
            bias,
            (#[trigger] next[j]).0.buf,
            next[j].1.buf,
        ) by {
            if j < i {
                assert(next[j] == done[j]);
                routed_at_kept(
                    t.log,
                    a.log,
                    from,
                    from,
                    probs,
                    (j * (n * 4)) as u64,
                    bias,
                    done[j].0.buf,
                    done[j].1.buf,
                );
            } else {
                routed_at_kept(
                    a.log,
                    a.log,
                    t.log.len() as int,
                    from,
                    probs,
                    off,
                    bias,
                    r.0.buf,
                    r.1.buf,
                );
            }
        }
        did_route_rows(from, a, n, generic, probs, bias, hash, tokens, k, i + 1, next);
    }
}

/// Experts and factors of every position, by the probabilities `probs` and `bias`: in
/// two launches, or position by position and copied together.
pub open spec fn routed_by(
    log: Seq<Command>,
    from: int,
    probs: BufId,
    bias: BufId,
    n_experts: u64,
    k: u64,
    sel: BufId,
    wt: BufId,
) -> bool {
    ||| {
        &&& launched(
            log,
            from,
            Kernel::RouterFinalizeOneAnyK,
            1,
            seq![
                Command::Buffer(1, probs, 0),
                Command::Buffer(2, bias, 0),
                Command::Buffer(3, sel, 0),
            ],
        )
        &&& launched(
            log,
            from,
            Kernel::RouterWeightsOneAnyK,
            0,
            seq![
                Command::Buffer(0, probs, 0),
                Command::Buffer(1, sel, 0),
                Command::Buffer(2, wt, 0),
            ],
        )
    }
    ||| forall|i: int| 0 <= i < k ==> #[trigger] put_together(
        log,
        from,
        probs,
        bias,
        n_experts,
        i,
        sel,
        wt,
    )
}

/// Position `i` was routed by its own probabilities, and its experts and factors were
/// copied to its rows of `sel` and `wt`.
pub open spec fn put_together(
    log: Seq<Command>,
    from: int,
    probs: BufId,
    bias: BufId,
    n_experts: u64,
    i: int,
    sel: BufId,
    wt: BufId,
) -> bool {
    exists|s: BufId, w: BufId|
        #![trigger routed_at(log, from, probs, (i * (n_experts * 4)) as u64, bias, s, w)]
        {
            &&& routed_at(log, from, probs, (i * (n_experts * 4)) as u64, bias, s, w)
            &&& noted(
                log,
                from,
                Command::Copy { src: s, src_off: 0, dst: sel, dst_off: (i * 24) as u64, bytes: 24 },
            )
            &&& noted(
                log,
                from,
                Command::Copy { src: w, src_off: 0, dst: wt, dst_off: (i * 24) as u64, bytes: 24 },
            )
        }
}

pub(crate) proof fn put_together_kept(
    a: Seq<Command>,
    b: Seq<Command>,
    from: int,
    earlier: int,
    probs: BufId,
    bias: BufId,
    n_experts: u64,
    i: int,
    sel: BufId,
    wt: BufId,
)
    requires
        put_together(a, from, probs, bias, n_experts, i, sel, wt),
        grew(a, b),
        earlier <= from,
    ensures
        put_together(b, earlier, probs, bias, n_experts, i, sel, wt),
{
    broadcast use noted_kept;

    let off = (i * (n_experts * 4)) as u64;
    let (s, w) = choose|s: BufId, w: BufId|
        #![trigger routed_at(a, from, probs, (i * (n_experts * 4)) as u64, bias, s, w)]
        {
            &&& routed_at(a, from, probs, (i * (n_experts * 4)) as u64, bias, s, w)
            &&& noted(
                a,
                from,
                Command::Copy { src: s, src_off: 0, dst: sel, dst_off: (i * 24) as u64, bytes: 24 },
            )
            &&& noted(
                a,
                from,
                Command::Copy { src: w, src_off: 0, dst: wt, dst_off: (i * 24) as u64, bytes: 24 },
            )
        };
    routed_at_kept(a, b, from, earlier, probs, off, bias, s, w);
    assert(
        noted(
            b,
            earlier,
            Command::Copy { src: s, src_off: 0, dst: sel, dst_off: (i * 24) as u64, bytes: 24 },
        )
    );
    assert(
        noted(
            b,
            earlier,
            Command::Copy { src: w, src_off: 0, dst: wt, dst_off: (i * 24) as u64, bytes: 24 },
        )
    );
}

pub(crate) proof fn routed_by_kept(
    a: Seq<Command>,
    b: Seq<Command>,
    from: int,
    earlier: int,
    probs: BufId,
    bias: BufId,
    n_experts: u64,
    k: u64,
    sel: BufId,
    wt: BufId,
)
    requires
        routed_by(a, from, probs, bias, n_experts, k, sel, wt),
        grew(a, b),
        earlier <= from,
    ensures
        routed_by(b, earlier, probs, bias, n_experts, k, sel, wt),
{
    let s = seq![
        Command::Buffer(1, probs, 0),
        Command::Buffer(2, bias, 0),
        Command::Buffer(3, sel, 0),
    ];
    let w = seq![
        Command::Buffer(0, probs, 0),
        Command::Buffer(1, sel, 0),
        Command::Buffer(2, wt, 0),
    ];
    if launched(
        a,
        from,
        Kernel::RouterFinalizeOneAnyK,
        1,
        s,
    ) && launched(a, from, Kernel::RouterWeightsOneAnyK, 0, w) {
        lemma_kept(a, b, from, earlier, Kernel::RouterFinalizeOneAnyK, 1, s);
        lemma_kept(a, b, from, earlier, Kernel::RouterWeightsOneAnyK, 0, w);
    } else {
        assert forall|i: int| 0 <= i < k implies #[trigger] put_together(
            b,
            earlier,
            probs,
            bias,
            n_experts,
            i,
            sel,
            wt,
        ) by {
            assert(put_together(a, from, probs, bias, n_experts, i, sel, wt));
            put_together_kept(a, b, from, earlier, probs, bias, n_experts, i, sel, wt);
        }
    }
}

pub(crate) proof fn did_flatten_rows(t: Trace, routes: Seq<Routed>, sel: BufId, wt: BufId, i: int)
    requires
        0 <= i,
    ensures
        forall|j: int| i <= j < routes.len() ==> {
            let u = t.flatten_rows(routes, sel, wt, i);
            &&& noted(
                u.log,
                t.log.len() as int,
                Command::Copy {
                    src: (#[trigger] routes[j]).0.buf,
                    src_off: 0,
                    dst: sel,
                    dst_off: (j * 24) as u64,
                    bytes: 24,
                },
            )
            &&& noted(
                u.log,
                t.log.len() as int,
                Command::Copy {
                    src: routes[j].1.buf,
                    src_off: 0,
                    dst: wt,
                    dst_off: (j * 24) as u64,
                    bytes: 24,
                },
            )
        },
    decreases routes.len() - i,
{
    if i < routes.len() {
        let n = t.log.len() as int;
        let s = Command::Copy {
            src: routes[i].0.buf,
            src_off: 0,
            dst: sel,
            dst_off: (i * 24) as u64,
            bytes: 24,
        };
        let w = Command::Copy {
            src: routes[i].1.buf,
            src_off: 0,
            dst: wt,
            dst_off: (i * 24) as u64,
            bytes: 24,
        };
        let a = t.put(Command::CloseShared).put(Command::Blit).put(s).put(w).put(Command::EndBlit);
        let u = t.flatten_rows(routes, sel, wt, i);
        lemma_noted(a.log, n, s, n + 2);
        lemma_noted(a.log, n, w, n + 3);
        grew_itself(a.log);
        grows_flatten_rows(a.log, a, routes, sel, wt, i + 1);
        did_flatten_rows(a, routes, sel, wt, i + 1);
        grew_itself(u.log);
        broadcast use noted_kept;

        assert forall|j: int| i <= j < routes.len() implies {
            &&& noted(
                u.log,
                n,
                Command::Copy {
                    src: (#[trigger] routes[j]).0.buf,
                    src_off: 0,
                    dst: sel,
                    dst_off: (j * 24) as u64,
                    bytes: 24,
                },
            )
            &&& noted(
                u.log,
                n,
                Command::Copy {
                    src: routes[j].1.buf,
                    src_off: 0,
                    dst: wt,
                    dst_off: (j * 24) as u64,
                    bytes: 24,
                },
            )
        } by {
            if j > i {
                assert(
                    noted(
                        u.log,
                        a.log.len() as int,
                        Command::Copy {
                            src: routes[j].0.buf,
                            src_off: 0,
                            dst: sel,
                            dst_off: (j * 24) as u64,
                            bytes: 24,
                        },
                    )
                );
                assert(
                    noted(
                        u.log,
                        a.log.len() as int,
                        Command::Copy {
                            src: routes[j].1.buf,
                            src_off: 0,
                            dst: wt,
                            dst_off: (j * 24) as u64,
                            bytes: 24,
                        },
                    )
                );
            }
        }
    }
}

pub(crate) proof fn did_flat_route(t: Trace, probs: DeferredBuf, bias: DeferredBuf, k: u64)
    ensures
        ({
            let (u, r) = t.encode_router_finalize_flat_k(probs, bias, k);
            let out = r->Ok_0;
            r is Ok ==> routed_by(
                u.log,
                t.log.len() as int,
                probs.buf,
                bias.buf,
                bias.n_elements,
                k,
                out.0.buf,
                out.1.buf,
            )
        }),
{
    broadcast use group_flow;

    grew_itself(t.log);
    reveal(Trace::encode_router_finalize_flat_k);
    let (u, r) = t.encode_router_finalize_flat_k(probs, bias, k);
    if r is Ok {
        let out = r->Ok_0;
        let from = t.log.len() as int;
        lemma_tail(
            u.log,
            from,
            Kernel::RouterFinalizeOneAnyK,
            1,
            seq![
                Command::Buffer(1, probs.buf, 0),
                Command::Buffer(2, bias.buf, 0),
                Command::Buffer(3, out.0.buf, 0),
            ],
            14,
        );
        lemma_tail(
            u.log,
            from,
            Kernel::RouterWeightsOneAnyK,
            0,
            seq![
                Command::Buffer(0, probs.buf, 0),
                Command::Buffer(1, out.0.buf, 0),
                Command::Buffer(2, out.1.buf, 0),
            ],
            6,
        );
    }
}

/// Experts and factors of all positions come from the same probabilities.
pub proof fn law_route_flow(t: Trace, probs: DeferredBuf, bias: DeferredBuf, k: u64)
    ensures
        ({
            let (u, r) = t.route_flat(probs, bias, k);
            let out = r->Ok_0;
            r is Ok ==> routed_by(
                u.log,
                t.log.len() as int,
                probs.buf,
                bias.buf,
                bias.n_elements,
                k,
                out.0.buf,
                out.1.buf,
            )
        }),
{
    broadcast use group_flow;

    grew_itself(t.log);
    reveal(Trace::route_flat);
    let (u, r) = t.route_flat(probs, bias, k);
    if r is Ok {
        let out = r->Ok_0;
        let from = t.log.len() as int;
        if t.config.batch_router {
            did_flat_route(t, probs, bias, k);
        } else {
            let (a, rs) = t.encode_router_finalize_k(probs, bias, k);
            let routes = rs->Ok_0;
            let n = (routes.len() * 6) as u64;
            law_each_position_is_routed(t, probs, bias, k);
            reveal(Trace::flatten_router_output_k);
            let b = a.alloc_i32(n).0.alloc_f32(n).0;
            did_flatten_rows(b, routes, out.0.buf, out.1.buf, 0);
            grew_itself(a.log);
            grew_itself(u.log);
            assert(grew(t.log, a.log) && grew(a.log, u.log) && grew(t.log, b.log)) by {
                broadcast use {grows_encode_router_finalize_k, grows_flatten_router_output_k};
            }
            broadcast use noted_kept;
        
            assert forall|i: int| 0 <= i < k implies #[trigger] put_together(
                u.log,
                from,
                probs.buf,
                bias.buf,
                bias.n_elements,
                i,
                out.0.buf,
                out.1.buf,
            ) by {
                routed_at_kept(
                    a.log,
                    u.log,
                    from,
                    from,
                    probs.buf,
                    (i * (bias.n_elements * 4)) as u64,
                    bias.buf,
                    routes[i].0.buf,
                    routes[i].1.buf,
                );
                assert(
                    noted(
                        u.log,
                        from,
                        Command::Copy {
                            src: routes[i].0.buf,
                            src_off: 0,
                            dst: out.0.buf,
                            dst_off: (i * 24) as u64,
                            bytes: 24,
                        },
                    )
                );
                assert(
                    noted(
                        u.log,
                        from,
                        Command::Copy {
                            src: routes[i].1.buf,
                            src_off: 0,
                            dst: out.1.buf,
                            dst_off: (i * 24) as u64,
                            bytes: 24,
                        },
                    )
                );
            }
        }
    }
}

/// The factors of the experts `sel` by the probabilities `probs` went to `wt`: on the
/// device, or on the host.
pub open spec fn tabled(log: Seq<Command>, from: int, probs: BufId, sel: BufId, wt: BufId) -> bool {
    ||| launched(
        log,
        from,
        Kernel::RouterWeightsK,
        0,
        seq![Command::Buffer(0, probs, 0), Command::Buffer(1, sel, 0), Command::Buffer(2, wt, 0)],
    )
    ||| exists|h: HashWeights| #[trigger] noted(
        log,
        from,
        Command::HashWeights(h),
    ) && h.probs == probs
}

pub(crate) proof fn tabled_kept(
    a: Seq<Command>,
    b: Seq<Command>,
    from: int,
    earlier: int,
    probs: BufId,
    sel: BufId,
    wt: BufId,
)
    requires
        tabled(a, from, probs, sel, wt),
        grew(a, b),
        earlier <= from,
    ensures
        tabled(b, earlier, probs, sel, wt),
{
    broadcast use noted_kept;

    let s = seq![
        Command::Buffer(0, probs, 0),
        Command::Buffer(1, sel, 0),
        Command::Buffer(2, wt, 0),
    ];
    if launched(a, from, Kernel::RouterWeightsK, 0, s) {
        lemma_kept(a, b, from, earlier, Kernel::RouterWeightsK, 0, s);
    } else {
        let h = choose|h: HashWeights| #[trigger] noted(
            a,
            from,
            Command::HashWeights(h),
        ) && h.probs == probs;
        assert(noted(b, earlier, Command::HashWeights(h)));
    }
}

pub(crate) proof fn did_table_route(
    t: Trace,
    probs: DeferredBuf,
    n_experts: u64,
    k: u64,
    table: Seq<i32>,
    tokens: Seq<i32>,
    k_used: u64,
)
    ensures
        ({
            let (u, r) = t.route_by_table(probs, n_experts, k, table, tokens, k_used);
            let out = r->Ok_0;
            r is Ok ==> tabled(u.log, t.log.len() as int, probs.buf, out.0.buf, out.1.buf)
        }),
{
    broadcast use group_flow;

    grew_itself(t.log);
    reveal(Trace::route_by_table);
    reveal(Trace::pooled_scratch_f32);
    let (u, r) = t.route_by_table(probs, n_experts, k, table, tokens, k_used);
    if r is Ok {
        let out = r->Ok_0;
        let from = t.log.len() as int;
        if t.config.hash_gpu && k_used == 6 && t.has(Kernel::RouterWeightsK) {
            lemma_tail(
                u.log,
                from,
                Kernel::RouterWeightsK,
                0,
                seq![
                    Command::Buffer(0, probs.buf, 0),
                    Command::Buffer(1, out.0.buf, 0),
                    Command::Buffer(2, out.1.buf, 0),
                ],
                6,
            );
        } else {
            let p = u.log.len() - 1;
            let h = u.log[p]->HashWeights_0;
            broadcast use {grows_read_each, grows_wait_each};
        
            assert(grew(t.log, u.log.drop_last())) by {
                let (a, start) = t.add_words(spec_rows(table, tokens, k_used as int, 6));
                let n = (k * 6) as u64;
                let (b, sel) = a.make(Command::UploadWords { start, len: n }, n);
                let c = b.commit_wait_read_multi(seq![probs]);
                assert(grew(t.log, b.log));
                assert(grew(t.log, c.log));
                assert(u.log.drop_last() =~= c.log);
            }
            lemma_noted(u.log, from, Command::HashWeights(h), p);
        }
    }
}

/// What the shared experts of a position are handed: the arrays and their Q8_0 bytes.
pub struct SharedArrays {
    pub gate: HostRef,
    pub up: HostRef,
    pub down: HostRef,
    pub gate_q8: HostRef,
    pub up_q8: HostRef,
    pub down_q8: HostRef,
}

/// Position `i` of `x` was cut out and handed to the routed experts of `layer`, with
/// the experts `route.0` and the factors `route.1`, and to the shared ones; what came
/// back went to row `i` of `moe` and of `shared`.
pub open spec fn stepped_at(
    log: Seq<Command>,
    from: int,
    layer: u32,
    e: SharedArrays,
    x: BufId,
    d_embd: u64,
    i: int,
    route: Routed,
    moe: BufId,
    shared: BufId,
) -> bool {
    exists|cut: BufId, m: MoeRouted, p: u64, s: SharedChain, q: u64| #[trigger] handed(
        log,
        from,
        layer,
        e,
        x,
        d_embd,
        i,
        route,
        moe,
        shared,
        cut,
        m,
        p,
        s,
        q,
    )
}

/// [`stepped_at`], over the row `cut` and the steps at the places `p` and `q`.
pub open spec fn handed(
    log: Seq<Command>,
    from: int,
    layer: u32,
    e: SharedArrays,
    x: BufId,
    d_embd: u64,
    i: int,
    route: Routed,
    moe: BufId,
    shared: BufId,
    cut: BufId,
    m: MoeRouted,
    p: u64,
    s: SharedChain,
    q: u64,
) -> bool {
    let off = (i * (d_embd * 4)) as u64;
    let bytes = (d_embd * 4) as u64;
    &&& noted(log, from, Command::Copy { src: x, src_off: off, dst: cut, dst_off: 0, bytes })
    &&& from <= p < log.len() && log[p as int] == Command::MoeRouted(m)
    &&& m.layer == layer && m.x == Source::Device(cut) && m.d_in == d_embd && m.route == (
        Route::Device { chosen: route.0.buf, factors: route.1.buf }
    )
    &&& from <= q < log.len() && log[q as int] == Command::SharedChain(s)
    &&& s.x == Source::Device(cut) && s.d_in == d_embd && s.w_gate == e.gate && s.w_up == e.up
        && s.w_down == e.down
    &&& s.gate_q8 is Some ==> s.gate_q8 == Some(e.gate_q8)
    &&& s.up_q8 is Some ==> s.up_q8 == Some(e.up_q8)
    &&& s.down_q8 is Some ==> s.down_q8 == Some(e.down_q8)
    &&& p < q
    &&& noted(
        log,
        from,
        Command::Copy { src: BufId::Fresh(p), src_off: 0, dst: moe, dst_off: off, bytes },
    )
    &&& noted(
        log,
        from,
        Command::Copy { src: BufId::Fresh(q), src_off: 0, dst: shared, dst_off: off, bytes },
    )
}

pub(crate) proof fn stepped_at_kept(
    a: Seq<Command>,
    b: Seq<Command>,
    from: int,
    earlier: int,
    layer: u32,
    e: SharedArrays,
    x: BufId,
    d_embd: u64,
    i: int,
    route: Routed,
    moe: BufId,
    shared: BufId,
)
    requires
        stepped_at(a, from, layer, e, x, d_embd, i, route, moe, shared),
        grew(a, b),
        earlier <= from,
        0 <= earlier,
    ensures
        stepped_at(b, earlier, layer, e, x, d_embd, i, route, moe, shared),
{
    broadcast use {noted_kept, grew_len};

    let (cut, m, p, s, q) = choose|cut: BufId, m: MoeRouted, p: u64, s: SharedChain, q: u64|
        #[trigger] handed(
        a,
        from,
        layer,
        e,
        x,
        d_embd,
        i,
        route,
        moe,
        shared,
        cut,
        m,
        p,
        s,
        q,
    );
    reveal(grew);
    assert(b[p as int] == a[p as int] && b[q as int] == a[q as int]);
    assert(handed(b, earlier, layer, e, x, d_embd, i, route, moe, shared, cut, m, p, s, q));
}

/// Every position goes through the experts on its own, in its own row, with its own
/// route, and the routed and the shared results stay apart.
pub(crate) proof fn did_moe_rows(
    t: Trace,
    layer: u32,
    x: DeferredBuf,
    routes: Seq<Routed>,
    d_ffn: u64,
    e: SharedArrays,
    shared_dim: u32,
    d_embd: u64,
    moe: BufId,
    shared: BufId,
    i: int,
)
    requires
        0 <= i,
    ensures
        ({
            let (u, r) = t.moe_rows(
                layer,
                x,
                routes,
                d_ffn,
                (e.gate, e.up, e.down),
                shared_dim,
                (e.gate_q8, e.up_q8, e.down_q8),
                d_embd,
                moe,
                shared,
                i,
            );
            r is Ok && u.log.len() <= u64::MAX ==> forall|j: int| i <= j < routes.len() ==> stepped_at(
                u.log,
                t.log.len() as int,
                layer,
                e,
                x.buf,
                d_embd,
                j,
                #[trigger] routes[j],
                moe,
                shared,
            )
        }),
    decreases routes.len() - i,
{
    let sh = (e.gate, e.up, e.down);
    let q8 = (e.gate_q8, e.up_q8, e.down_q8);
    let (u, r) = t.moe_rows(layer, x, routes, d_ffn, sh, shared_dim, q8, d_embd, moe, shared, i);
    if i < routes.len() && r is Ok && u.log.len() <= u64::MAX {
        broadcast use {group_flow, noted_kept};

        let n = t.log.len() as int;
        let bytes = (d_embd * 4) as u64;
        let off = (i * (d_embd * 4)) as u64;
        let (a, cut) = t.alloc_f32(d_embd);
        let b = a.blit(x.buf, off, cut.buf, 0, bytes);
        let (c, one) = b.encode_moe_and_shared_chain_with_router_bufs_db(
            layer,
            cut,
            routes[i].0,
            routes[i].1,
            d_ffn,
            cut,
            sh,
            shared_dim,
            q8,
        );
        reveal(Trace::encode_moe_and_shared_chain_with_router_bufs_db);
        let cm = Command::Copy { src: one->Ok_0.0.buf, src_off: 0, dst: moe, dst_off: off, bytes };
        let cs = Command::Copy {
            src: one->Ok_0.1.buf,
            src_off: 0,
            dst: shared,
            dst_off: off,
            bytes,
        };
        let d = c.put(
            Command::CloseShared,
        ).put(Command::Blit).put(cm).put(cs).put(Command::EndBlit);
        grew_itself(t.log);
        grew_itself(d.log);
        assert(grew(t.log, b.log));
        grows_moe_rows(
            d.log,
            d,
            layer,
            x,
            routes,
            d_ffn,
            sh,
            shared_dim,
            q8,
            d_embd,
            moe,
            shared,
            i + 1,
        );
        let p = b.log.len() as u64;
        let q = (b.log.len() + 1) as u64;
        let m = d.log[p as int]->MoeRouted_0;
        let s = d.log[q as int]->SharedChain_0;
        lemma_noted(
            d.log,
            n,
            Command::Copy { src: x.buf, src_off: off, dst: cut.buf, dst_off: 0, bytes },
            b.log.len() - 2,
        );
        lemma_noted(d.log, n, cm, d.log.len() - 3);
        lemma_noted(d.log, n, cs, d.log.len() - 2);
        assert(
            handed(
                d.log,
                n,
                layer,
                e,
                x.buf,
                d_embd,
                i,
                routes[i],
                moe,
                shared,
                cut.buf,
                m,
                p,
                s,
                q,
            )
        );
        stepped_at_kept(d.log, u.log, n, n, layer, e, x.buf, d_embd, i, routes[i], moe, shared);
        did_moe_rows(d, layer, x, routes, d_ffn, e, shared_dim, d_embd, moe, shared, i + 1);
        grew_itself(u.log);
        assert forall|j: int| i <= j < routes.len() implies stepped_at(
            u.log,
            n,
            layer,
            e,
            x.buf,
            d_embd,
            j,
            #[trigger] routes[j],
            moe,
            shared,
        ) by {
            if j > i {
                stepped_at_kept(
                    u.log,
                    u.log,
                    d.log.len() as int,
                    n,
                    layer,
                    e,
                    x.buf,
                    d_embd,
                    j,
                    routes[j],
                    moe,
                    shared,
                );
            }
        }
    }
}

/// What a recording shows of the routed and the shared experts of a step of `k`
/// positions `x`, by the probabilities `probs`, into `moe` and `shared`. Long steps,
/// streamed experts and tables have the experts gathered.
pub open spec fn experts_ran(
    t: Trace,
    log: Seq<Command>,
    from: int,
    layer: u32,
    k: u64,
    table: bool,
    probs: BufId,
    bias: BufId,
    n_experts: u64,
    x: BufId,
    e: SharedArrays,
    d_embd: u64,
    moe: BufId,
    shared: BufId,
) -> bool {
    let raw = Experts {
        gate: BufId::WeightRaw(e.gate_q8.id),
        up: BufId::WeightRaw(e.up_q8.id),
        down: BufId::WeightRaw(e.down_q8.id),
    };
    let path = t.config.moe_path;
    if table {
        shared_of(log, from, raw, x, shared) && exists|sel: BufId, wt: BufId|
            #![trigger tabled(log, from, probs, sel, wt)]
            tabled(log, from, probs, sel, wt) && experts_by_gather(
                log,
                from,
                experts_of(t, layer, true),
                x,
                sel,
                wt,
                moe,
            )
    } else if path == MoePath::MmId || t.config.ssd_stream || (path == MoePath::Unset && k >= 128) {
        shared_of(log, from, raw, x, shared) && exists|sel: BufId, wt: BufId|
            #![trigger routed_by(log, from, probs, bias, n_experts, k, sel, wt)]
            routed_by(log, from, probs, bias, n_experts, k, sel, wt) && experts_by_gather(
                log,
                from,
                experts_of(t, layer, true),
                x,
                sel,
                wt,
                moe,
            )
    } else if path == MoePath::Fused {
        shared_of(log, from, raw, x, shared) && exists|sel: BufId, wt: BufId|
            #![trigger routed_by(log, from, probs, bias, n_experts, k, sel, wt)]
            routed_by(log, from, probs, bias, n_experts, k, sel, wt) && experts_at_once(
                log,
                from,
                experts_of(t, layer, false),
                x,
                sel,
                wt,
                moe,
            )
    } else {
        forall|i: int| 0 <= i < k ==> #[trigger] stepped_by_own_route(
            log,
            from,
            layer,
            probs,
            bias,
            n_experts,
            x,
            e,
            d_embd,
            moe,
            shared,
            i,
        )
    }
}

/// Position `i` was routed by its own probabilities and went through the experts with
/// that route.
pub open spec fn stepped_by_own_route(
    log: Seq<Command>,
    from: int,
    layer: u32,
    probs: BufId,
    bias: BufId,
    n_experts: u64,
    x: BufId,
    e: SharedArrays,
    d_embd: u64,
    moe: BufId,
    shared: BufId,
    i: int,
) -> bool {
    exists|route: Routed|
        #![trigger stepped_at(log, from, layer, e, x, d_embd, i, route, moe, shared)]
        stepped_at(log, from, layer, e, x, d_embd, i, route, moe, shared) && routed_at(
            log,
            from,
            probs,
            (i * (n_experts * 4)) as u64,
            bias,
            route.0.buf,
            route.1.buf,
        )
}

pub(crate) proof fn experts_ran_kept(
    t: Trace,
    a: Seq<Command>,
    b: Seq<Command>,
    from: int,
    earlier: int,
    layer: u32,
    k: u64,
    table: bool,
    probs: BufId,
    bias: BufId,
    n_experts: u64,
    x: BufId,
    e: SharedArrays,
    d_embd: u64,
    moe: BufId,
    shared: BufId,
)
    requires
        experts_ran(t, a, from, layer, k, table, probs, bias, n_experts, x, e, d_embd, moe, shared),
        grew(a, b),
        earlier <= from,
        0 <= earlier,
    ensures
        experts_ran(
            t,
            b,
            earlier,
            layer,
            k,
            table,
            probs,
            bias,
            n_experts,
            x,
            e,
            d_embd,
            moe,
            shared,
        ),
{
    let raw = Experts {
        gate: BufId::WeightRaw(e.gate_q8.id),
        up: BufId::WeightRaw(e.up_q8.id),
        down: BufId::WeightRaw(e.down_q8.id),
    };
    let path = t.config.moe_path;
    let gather = path == MoePath::MmId || t.config.ssd_stream || (
        path == MoePath::Unset && k >= 128
    );
    if table || gather || path == MoePath::Fused {
        shared_kept(a, b, from, earlier, raw, x, shared);
    }
    if table {
        let w = experts_of(t, layer, true);
        let (sel, wt) = choose|sel: BufId, wt: BufId|
            #![trigger tabled(a, from, probs, sel, wt)]
            tabled(a, from, probs, sel, wt) && experts_by_gather(a, from, w, x, sel, wt, moe);
        tabled_kept(a, b, from, earlier, probs, sel, wt);
        experts_by_gather_kept(a, b, from, earlier, w, x, sel, wt, moe);
    } else if gather {
        let w = experts_of(t, layer, true);
        let (sel, wt) = choose|sel: BufId, wt: BufId|
            #![trigger routed_by(a, from, probs, bias, n_experts, k, sel, wt)]
            routed_by(
                a,
                from,
                probs,
                bias,
                n_experts,
                k,
                sel,
                wt,
            ) && experts_by_gather(a, from, w, x, sel, wt, moe);
        routed_by_kept(a, b, from, earlier, probs, bias, n_experts, k, sel, wt);
        experts_by_gather_kept(a, b, from, earlier, w, x, sel, wt, moe);
    } else if path == MoePath::Fused {
        let w = experts_of(t, layer, false);
        let (sel, wt) = choose|sel: BufId, wt: BufId|
            #![trigger routed_by(a, from, probs, bias, n_experts, k, sel, wt)]
            routed_by(
                a,
                from,
                probs,
                bias,
                n_experts,
                k,
                sel,
                wt,
            ) && experts_at_once(a, from, w, x, sel, wt, moe);
        routed_by_kept(a, b, from, earlier, probs, bias, n_experts, k, sel, wt);
        experts_at_once_kept(a, b, from, earlier, w, x, sel, wt, moe);
    } else {
        assert forall|i: int| 0 <= i < k implies #[trigger] stepped_by_own_route(
            b,
            earlier,
            layer,
            probs,
            bias,
            n_experts,
            x,
            e,
            d_embd,
            moe,
            shared,
            i,
        ) by {
            assert(
                stepped_by_own_route(
                    a,
                    from,
                    layer,
                    probs,
                    bias,
                    n_experts,
                    x,
                    e,
                    d_embd,
                    moe,
                    shared,
                    i,
                )
            );
            let route = choose|route: Routed|
                #![trigger stepped_at(a, from, layer, e, x, d_embd, i, route, moe, shared)]
                stepped_at(a, from, layer, e, x, d_embd, i, route, moe, shared) && routed_at(
                    a,
                    from,
                    probs,
                    (i * (n_experts * 4)) as u64,
                    bias,
                    route.0.buf,
                    route.1.buf,
                );
            stepped_at_kept(a, b, from, earlier, layer, e, x, d_embd, i, route, moe, shared);
            routed_at_kept(
                a,
                b,
                from,
                earlier,
                probs,
                (i * (n_experts * 4)) as u64,
                bias,
                route.0.buf,
                route.1.buf,
            );
        }
    }
}

/// The arrays of the shared experts, as the feed-forward half is handed them.
pub open spec fn arrays_of(w: FfnWeights) -> SharedArrays {
    SharedArrays {
        gate: w.sh_gate,
        up: w.sh_up,
        down: w.sh_down,
        gate_q8: w.sh_gate_q8,
        up_q8: w.sh_up_q8,
        down_q8: w.sh_down_q8,
    }
}

pub(crate) proof fn did_by_table(
    t: Trace,
    x: DeferredBuf,
    probs: DeferredBuf,
    w: FfnWeights,
    shape: FfnShape,
    layer: u32,
    k: u64,
    table: Seq<i32>,
    tokens: Seq<i32>,
    k_used: u64,
)
    ensures
        ({
            let (u, r) = t.moe_by_table(x, probs, w, shape, layer, k, table, tokens, k_used);
            let out = r->Ok_0;
            r is Ok && k > 0 ==> experts_ran(
                t,
                u.log,
                t.log.len() as int,
                layer,
                k,
                true,
                probs.buf,
                w.router_bias.buf,
                w.router_bias.n_elements,
                x.buf,
                arrays_of(w),
                shape.n_embd,
                out.0.buf,
                out.1.buf,
            )
        }),
{
    broadcast use group_flow;

    grew_itself(t.log);
    reveal(Trace::moe_by_table);
    let (u, r) = t.moe_by_table(x, probs, w, shape, layer, k, table, tokens, k_used);
    if r is Ok && k > 0 {
        let out = r->Ok_0;
        let from = t.log.len() as int;
        let (a, route) = t.route_by_table(probs, shape.n_experts, k, table, tokens, k_used);
        let (sel, wt) = route->Ok_0;
        let (b, moe) = a.encode_moe_chain_mm_qx_k_auto(
            layer,
            x,
            sel,
            wt,
            shape.n_embd,
            shape.d_ffn,
            k,
        );
        let q8 = (w.sh_gate_q8, w.sh_up_q8, w.sh_down_q8);
        did_table_route(t, probs, shape.n_experts, k, table, tokens, k_used);
        law_layer_experts_flow(a, layer, x, sel, wt, shape.n_embd, shape.d_ffn, k);
        did_shared_raw(b, false, x, q8, shape.shared_dim as u64, shape.n_embd, k);
        stays_route_by_table(t, probs, shape.n_experts, k, table, tokens, k_used);
        grew_itself(a.log);
        grew_itself(b.log);
        grew_itself(u.log);
        assert(
            grew(t.log, a.log) && grew(t.log, b.log) && grew(a.log, u.log) && grew(b.log, u.log)
        ) by {
            broadcast use {
                grows_route_by_table,
                grows_encode_moe_chain_mm_qx_k_auto,
                grows_shared_from_raw,
            };
        }
        let e = arrays_of(w);
        tabled_kept(a.log, u.log, from, from, probs.buf, sel.buf, wt.buf);
        experts_by_gather_kept(
            b.log,
            u.log,
            a.log.len() as int,
            from,
            experts_of(t, layer, true),
            x.buf,
            sel.buf,
            wt.buf,
            out.0.buf,
        );
        shared_kept(
            u.log,
            u.log,
            b.log.len() as int,
            from,
            Experts {
                gate: BufId::WeightRaw(e.gate_q8.id),
                up: BufId::WeightRaw(e.up_q8.id),
                down: BufId::WeightRaw(e.down_q8.id),
            },
            x.buf,
            out.1.buf,
        );
    }
}

pub(crate) proof fn did_by_route(
    t: Trace,
    fused: bool,
    x: DeferredBuf,
    probs: DeferredBuf,
    w: FfnWeights,
    shape: FfnShape,
    layer: u32,
    k: u64,
)
    ensures
        ({
            let (u, r) = t.moe_flat(fused, x, probs, w, shape, layer, k);
            let out = r->Ok_0;
            r is Ok && k > 0 && spec_choice(t.config, k) == (if fused { MoeChoice::Fused } else { MoeChoice::ByExpert }) ==> experts_ran(
                t,
                u.log,
                t.log.len() as int,
                layer,
                k,
                false,
                probs.buf,
                w.router_bias.buf,
                w.router_bias.n_elements,
                x.buf,
                arrays_of(w),
                shape.n_embd,
                out.0.buf,
                out.1.buf,
            )
        }),
{
    broadcast use group_flow;

    grew_itself(t.log);
    reveal(Trace::moe_flat);
    let (u, r) = t.moe_flat(fused, x, probs, w, shape, layer, k);
    if r is Ok && k > 0 && spec_choice(t.config, k) == (
        if fused { MoeChoice::Fused } else { MoeChoice::ByExpert }
    ) {
        let out = r->Ok_0;
        let from = t.log.len() as int;
        let fine = t.config.profile_fine;
        let (a, route) = t.route_flat(probs, w.router_bias, k);
        let (sel, wt) = route->Ok_0;
        let b = a.stage_if(fine, Stage::FfnRouter);
        let c = if fused && t.config.expert_profile {
            b.commit_wait_stage(Stage::MoeExpertProfile).put(
                Command::ExpertProfile { layer, k, selected: sel.buf },
            )
        } else {
            b
        };
        let (d, moe) = if fused {
            c.encode_moe_chain_fused_K_auto(layer, x, sel, wt, shape.n_embd, shape.d_ffn, k)
        } else {
            c.encode_moe_chain_mm_qx_k_auto(layer, x, sel, wt, shape.n_embd, shape.d_ffn, k)
        };
        let q8 = (w.sh_gate_q8, w.sh_up_q8, w.sh_down_q8);
        let (h, shared) = d.shared_from_raw(fine, x, q8, shape.shared_dim as u64, shape.n_embd, k);
        law_route_flow(t, probs, w.router_bias, k);
        stays_route_flat(t, probs, w.router_bias, k);
        if fused {
            law_layer_fused_flow(c, layer, x, sel, wt, shape.n_embd, shape.d_ffn, k);
        } else {
            law_layer_experts_flow(c, layer, x, sel, wt, shape.n_embd, shape.d_ffn, k);
        }
        did_shared_raw(d, fine, x, q8, shape.shared_dim as u64, shape.n_embd, k);
        grew_itself(a.log);
        grew_itself(c.log);
        grew_itself(d.log);
        grew_itself(h.log);
        assert(
            grew(
                t.log,
                a.log,
            ) && grew(
                t.log,
                c.log,
            ) && grew(
                t.log,
                d.log,
            ) && grew(a.log, u.log) && grew(d.log, u.log) && grew(h.log, u.log)
        ) by {
            broadcast use {
                grows_route_flat,
                grows_encode_moe_chain_mm_qx_k_auto,
                grows_encode_moe_chain_fused_K_auto,
                grows_shared_from_raw,
            };
        }
        let e = arrays_of(w);
        routed_by_kept(
            a.log,
            u.log,
            from,
            from,
            probs.buf,
            w.router_bias.buf,
            w.router_bias.n_elements,
            k,
            sel.buf,
            wt.buf,
        );
        if fused {
            experts_at_once_kept(
                d.log,
                u.log,
                c.log.len() as int,
                from,
                experts_of(t, layer, false),
                x.buf,
                sel.buf,
                wt.buf,
                out.0.buf,
            );
        } else {
            experts_by_gather_kept(
                d.log,
                u.log,
                c.log.len() as int,
                from,
                experts_of(t, layer, true),
                x.buf,
                sel.buf,
                wt.buf,
                out.0.buf,
            );
        }
        shared_kept(
            h.log,
            u.log,
            d.log.len() as int,
            from,
            Experts {
                gate: BufId::WeightRaw(e.gate_q8.id),
                up: BufId::WeightRaw(e.up_q8.id),
                down: BufId::WeightRaw(e.down_q8.id),
            },
            x.buf,
            out.1.buf,
        );
    }
}

pub(crate) proof fn did_by_position(
    t: Trace,
    x: DeferredBuf,
    probs: DeferredBuf,
    w: FfnWeights,
    shape: FfnShape,
    layer: u32,
    k: u64,
)
    ensures
        ({
            let (u, r) = t.moe_by_position(x, probs, w, shape, layer, k);
            let out = r->Ok_0;
            r is Ok && u.log.len() <= u64::MAX && spec_choice(t.config, k) == MoeChoice::ByPosition ==> experts_ran(
                t,
                u.log,
                t.log.len() as int,
                layer,
                k,
                false,
                probs.buf,
                w.router_bias.buf,
                w.router_bias.n_elements,
                x.buf,
                arrays_of(w),
                shape.n_embd,
                out.0.buf,
                out.1.buf,
            )
        }),
{
    broadcast use group_flow;

    grew_itself(t.log);
    reveal(Trace::moe_by_position);
    let (u, r) = t.moe_by_position(x, probs, w, shape, layer, k);
    if r is Ok && u.log.len() <= u64::MAX && spec_choice(t.config, k) == MoeChoice::ByPosition {
        let out = r->Ok_0;
        let from = t.log.len() as int;
        let e = arrays_of(w);
        let (a, rs) = t.encode_router_finalize_k(probs, w.router_bias, k);
        let routes = rs->Ok_0;
        let b = a.stage_if(t.config.profile_fine, Stage::FfnRouter);
        reveal(Trace::encode_moe_and_shared_chain_k);
        let n = (k * shape.n_embd) as u64;
        let c = b.alloc_f32(n).0.alloc_f32(n).0;
        law_each_position_is_routed(t, probs, w.router_bias, k);
        did_moe_rows(
            c,
            layer,
            x,
            routes,
            shape.d_ffn,
            e,
            shape.shared_dim,
            shape.n_embd,
            out.0.buf,
            out.1.buf,
            0,
        );
        grew_itself(a.log);
        grew_itself(c.log);
        grew_itself(u.log);
        assert(grew(t.log, a.log) && grew(t.log, c.log) && grew(a.log, u.log)) by {
            broadcast use {grows_encode_router_finalize_k, grows_moe_rows};
        }
        assert forall|i: int| 0 <= i < k implies #[trigger] stepped_by_own_route(
            u.log,
            from,
            layer,
            probs.buf,
            w.router_bias.buf,
            w.router_bias.n_elements,
            x.buf,
            e,
            shape.n_embd,
            out.0.buf,
            out.1.buf,
            i,
        ) by {
            let route = routes[i];
            routed_at_kept(
                a.log,
                u.log,
                from,
                from,
                probs.buf,
                (i * (w.router_bias.n_elements * 4)) as u64,
                w.router_bias.buf,
                route.0.buf,
                route.1.buf,
            );
            stepped_at_kept(
                u.log,
                u.log,
                c.log.len() as int,
                from,
                layer,
                e,
                x.buf,
                shape.n_embd,
                i,
                route,
                out.0.buf,
                out.1.buf,
            );
        }
    }
}

pub(crate) proof fn did_step(
    t: Trace,
    x: DeferredBuf,
    probs: DeferredBuf,
    w: FfnWeights,
    shape: FfnShape,
    layer: u32,
    k: u64,
    hash: Option<(Seq<i32>, Seq<i32>, u64)>,
)
    ensures
        ({
            let (u, r) = t.moe_step(x, probs, w, shape, layer, k, hash);
            let out = r->Ok_0;
            r is Ok && k > 0 && u.log.len() <= u64::MAX ==> experts_ran(
                t,
                u.log,
                t.log.len() as int,
                layer,
                k,
                hash is Some,
                probs.buf,
                w.router_bias.buf,
                w.router_bias.n_elements,
                x.buf,
                arrays_of(w),
                shape.n_embd,
                out.0.buf,
                out.1.buf,
            )
        }),
{
    broadcast use group_flow;

    grew_itself(t.log);
    reveal(Trace::moe_step);
    let (u, r) = t.moe_step(x, probs, w, shape, layer, k, hash);
    if r is Ok && k > 0 && u.log.len() <= u64::MAX {
        let out = r->Ok_0;
        match hash {
            Some((table, tokens, k_used)) => did_by_table(
                t,
                x,
                probs,
                w,
                shape,
                layer,
                k,
                table,
                tokens,
                k_used,
            ),
            None => {
                did_by_route(t, false, x, probs, w, shape, layer, k);
                did_by_route(t, true, x, probs, w, shape, layer, k);
                did_by_position(t, x, probs, w, shape, layer, k);
            },
        }
    }
}

/// The buffers and arrays that the feed-forward half of a layer is handed.
pub struct FfnBufs {
    pub hc_fn: BufId,
    pub hc_scale: BufId,
    pub hc_base: BufId,
    pub norm: BufId,
    pub unit: BufId,
    pub router: BufId,
    pub bias: BufId,
    pub n_experts: u64,
    pub arrays: SharedArrays,
}

/// What a recording shows of the feed-forward half of a layer. The block `block` is
/// mixed into the streams `res` by `split`; these are collapsed, and normed by the
/// half's own norm; the router scores the normed row; the routed and the shared
/// experts take it; and both results, two buffers, are mixed into the streams by the
/// weights of the collapse.
pub open spec fn ffn_half(
    t: Trace,
    log: Seq<Command>,
    from: int,
    b: FfnBufs,
    layer: u32,
    k: u64,
    table: bool,
    f: Fineness,
    block: BufId,
    res: BufId,
    split: BufId,
    out: BufId,
) -> bool {
    exists|after: BufId, mix: BufId, row: BufId, x: BufId, probs: BufId, moe: BufId, shared: BufId|
        #![
            trigger expanded(log, from, block, block, res, split, f.n_hc, after),
            collapsed(
                log,
                from,
                after,
                b.hc_fn,
                b.hc_scale,
                b.hc_base,
                b.norm,
                b.unit,
                f,
                (mix, row, x),
            ),
            scored(log, from, b.router, x, probs),
            expanded(log, from, shared, moe, after, mix, f.n_hc, out),
        ]
        {
            &&& expanded(log, from, block, block, res, split, f.n_hc, after)
            &&& collapsed(
                log,
                from,
                after,
                b.hc_fn,
                b.hc_scale,
                b.hc_base,
                b.norm,
                b.unit,
                f,
                (mix, row, x),
            )
            &&& scored(log, from, b.router, x, probs)
            &&& experts_ran(
                t,
                log,
                from,
                layer,
                k,
                table,
                probs,
                b.bias,
                b.n_experts,
                x,
                b.arrays,
                f.n_embd,
                moe,
                shared,
            )
            &&& expanded(log, from, shared, moe, after, mix, f.n_hc, out)
        }
}

pub(crate) proof fn ffn_half_is(
    t: Trace,
    log: Seq<Command>,
    from: int,
    b: FfnBufs,
    layer: u32,
    k: u64,
    table: bool,
    f: Fineness,
    block: BufId,
    res: BufId,
    split: BufId,
    out: BufId,
    after: BufId,
    mix: BufId,
    row: BufId,
    x: BufId,
    probs: BufId,
    moe: BufId,
    shared: BufId,
)
    requires
        expanded(log, from, block, block, res, split, f.n_hc, after),
        collapsed(
            log,
            from,
            after,
            b.hc_fn,
            b.hc_scale,
            b.hc_base,
            b.norm,
            b.unit,
            f,
            (mix, row, x),
        ),
        scored(log, from, b.router, x, probs),
        experts_ran(
            t,
            log,
            from,
            layer,
            k,
            table,
            probs,
            b.bias,
            b.n_experts,
            x,
            b.arrays,
            f.n_embd,
            moe,
            shared,
        ),
        expanded(log, from, shared, moe, after, mix, f.n_hc, out),
    ensures
        ffn_half(t, log, from, b, layer, k, table, f, block, res, split, out),
{
}

pub(crate) proof fn expanded_kept(
    a: Seq<Command>,
    b: Seq<Command>,
    from: int,
    earlier: int,
    block: BufId,
    add: BufId,
    res: BufId,
    split: BufId,
    n_hc: u64,
    out: BufId,
)
    requires
        expanded(a, from, block, add, res, split, n_hc, out),
        grew(a, b),
        earlier <= from,
    ensures
        expanded(b, earlier, block, add, res, split, n_hc, out),
{
    broadcast use lemma_kept;
}

pub(crate) proof fn ffn_half_kept(
    t: Trace,
    l: Seq<Command>,
    m: Seq<Command>,
    from: int,
    earlier: int,
    b: FfnBufs,
    layer: u32,
    k: u64,
    table: bool,
    f: Fineness,
    block: BufId,
    res: BufId,
    split: BufId,
    out: BufId,
)
    requires
        ffn_half(t, l, from, b, layer, k, table, f, block, res, split, out),
        grew(l, m),
        earlier <= from,
        0 <= earlier,
    ensures
        ffn_half(t, m, earlier, b, layer, k, table, f, block, res, split, out),
{
    let (
        after,
        mix,
        row,
        x,
        probs,
        moe,
        shared,
    ) = choose|after: BufId, mix: BufId, row: BufId, x: BufId, probs: BufId, moe: BufId, shared: BufId|
        #![
            trigger expanded(l, from, block, block, res, split, f.n_hc, after),
            collapsed(
                l,
                from,
                after,
                b.hc_fn,
                b.hc_scale,
                b.hc_base,
                b.norm,
                b.unit,
                f,
                (mix, row, x),
            ),
            scored(l, from, b.router, x, probs),
            expanded(l, from, shared, moe, after, mix, f.n_hc, out),
        ]
        {
            &&& expanded(l, from, block, block, res, split, f.n_hc, after)
            &&& collapsed(
                l,
                from,
                after,
                b.hc_fn,
                b.hc_scale,
                b.hc_base,
                b.norm,
                b.unit,
                f,
                (mix, row, x),
            )
            &&& scored(l, from, b.router, x, probs)
            &&& experts_ran(
                t,
                l,
                from,
                layer,
                k,
                table,
                probs,
                b.bias,
                b.n_experts,
                x,
                b.arrays,
                f.n_embd,
                moe,
                shared,
            )
            &&& expanded(l, from, shared, moe, after, mix, f.n_hc, out)
        };
    expanded_kept(l, m, from, earlier, block, block, res, split, f.n_hc, after);
    collapsed_kept(
        l,
        m,
        from,
        earlier,
        after,
        b.hc_fn,
        b.hc_scale,
        b.hc_base,
        b.norm,
        b.unit,
        f,
        (mix, row, x),
    );
    scored_kept(l, m, from, earlier, b.router, x, probs);
    experts_ran_kept(
        t,
        l,
        m,
        from,
        earlier,
        layer,
        k,
        table,
        probs,
        b.bias,
        b.n_experts,
        x,
        b.arrays,
        f.n_embd,
        moe,
        shared,
    );
    expanded_kept(l, m, from, earlier, shared, moe, after, mix, f.n_hc, out);
    ffn_half_is(
        t,
        m,
        earlier,
        b,
        layer,
        k,
        table,
        f,
        block,
        res,
        split,
        out,
        after,
        mix,
        row,
        x,
        probs,
        moe,
        shared,
    );
}

/// The feed-forward half follows its flow, for every step of one or more positions: the
/// streams after the attention, collapsed by the half's own weights and norm, reach the
/// router, the routed and the shared experts, and the closing mix takes the shared
/// result first and the routed result beside it.
pub proof fn law_ffn_flow(
    t: Trace,
    block: DeferredBuf,
    res: DeferredBuf,
    split: DeferredBuf,
    w: FfnWeights,
    shape: FfnShape,
    layer: u32,
    k: u64,
    hash: Option<(Seq<i32>, Seq<i32>, u64)>,
)
    ensures
        ({
            let (u, r) = t.encode_ffn_chain_k(block, res, split, w, shape, layer, k, hash);
            let arrays = SharedArrays {
                gate: w.sh_gate,
                up: w.sh_up,
                down: w.sh_down,
                gate_q8: w.sh_gate_q8,
                up_q8: w.sh_up_q8,
                down_q8: w.sh_down_q8,
            };
            let b = FfnBufs {
                hc_fn: w.hc_fn.buf,
                hc_scale: w.hc_scale.buf,
                hc_base: w.hc_base.buf,
                norm: w.hc_norm_gamma.buf,
                unit: w.unit_gamma_hc.buf,
                router: w.router.buf,
                bias: w.router_bias.buf,
                n_experts: w.router_bias.n_elements,
                arrays,
            };
            let f = Fineness {
                n_hc: shape.n_hc,
                n_embd: shape.n_embd,
                iters: shape.sinkhorn_iters,
                hc_eps: shape.hc_eps,
                rms_eps: shape.rms_eps,
            };
            r is Ok && k > 0 && u.log.len() <= u64::MAX ==> ffn_half(
                t,
                u.log,
                t.log.len() as int,
                b,
                layer,
                k,
                hash is Some,
                f,
                block.buf,
                res.buf,
                split.buf,
                r->Ok_0.buf,
            )
        }),
{
    broadcast use group_flow;

    grew_itself(t.log);
    reveal(Trace::encode_ffn_chain_k);
    let (u, r) = t.encode_ffn_chain_k(block, res, split, w, shape, layer, k, hash);
    if r is Ok && k > 0 && u.log.len() <= u64::MAX {
        let from = t.log.len() as int;
        let fine = t.config.profile_fine;
        let arrays = arrays_of(w);
        let how = Fineness {
            n_hc: shape.n_hc,
            n_embd: shape.n_embd,
            iters: shape.sinkhorn_iters,
            hc_eps: shape.hc_eps,
            rms_eps: shape.rms_eps,
        };
        let bufs = FfnBufs {
            hc_fn: w.hc_fn.buf,
            hc_scale: w.hc_scale.buf,
            hc_base: w.hc_base.buf,
            norm: w.hc_norm_gamma.buf,
            unit: w.unit_gamma_hc.buf,
            router: w.router.buf,
            bias: w.router_bias.buf,
            n_experts: w.router_bias.n_elements,
            arrays,
        };
        let (a, after) = t.hc_expand_attn_split_k(block, res, split, shape.n_hc, shape.n_embd, k);
        let b = a.stage_if(fine, Stage::FfnHcExpandAttn).arm(PoolKey::HcFfnNormed);
        let (c, col) = b.hc_collapse_norm_k(
            after->Ok_0,
            w.hc_fn,
            w.hc_scale,
            w.hc_base,
            w.hc_norm_gamma,
            shape.n_hc,
            shape.n_embd,
            shape.sinkhorn_iters,
            shape.hc_eps,
            shape.rms_eps,
            w.unit_gamma_hc,
            k,
            w.hc_fn_is_f16,
        );
        let (mix, row, x) = col->Ok_0;
        let d = c.stage_if(fine, Stage::FfnHcCollapse);
        let (e, probs) = d.encode_router_logits_k(
            w.router,
            x,
            shape.n_experts,
            shape.n_embd,
            k,
            w.router_is_f16,
        );
        let f = e.refill_pool(layer);
        let (g, outs) = f.moe_step(x, probs->Ok_0, w, shape, layer, k, hash);
        let (moe, shared) = outs->Ok_0;
        let (h, last) = g.hc_expand_add_split_k(
            shared,
            moe,
            after->Ok_0,
            mix,
            shape.n_hc,
            shape.n_embd,
            k,
        );
        did_expand_attn(t, block, res, split, shape.n_hc, shape.n_embd, k);
        law_collapses_flow(
            b,
            after->Ok_0,
            w.hc_fn,
            w.hc_scale,
            w.hc_base,
            w.hc_norm_gamma,
            shape.n_hc,
            shape.n_embd,
            shape.sinkhorn_iters,
            shape.hc_eps,
            shape.rms_eps,
            w.unit_gamma_hc,
            k,
            w.hc_fn_is_f16,
        );
        did_scores(d, w.router, x, shape.n_experts, shape.n_embd, k, w.router_is_f16);
        did_step(f, x, probs->Ok_0, w, shape, layer, k, hash);
        did_expand_add(g, shared, moe, after->Ok_0, mix, shape.n_hc, shape.n_embd, k);
        assert(alike(t, f)) by {
            broadcast use {
                stays_hc_expand_attn_split_k,
                stays_hc_collapse_norm_k,
                stays_encode_router_logits_k,
                stays_refill_pool,
            };
        }
        grew_itself(a.log);
        grew_itself(c.log);
        grew_itself(e.log);
        grew_itself(g.log);
        grew_itself(h.log);
        assert(
            grew(
                t.log,
                b.log,
            ) && grew(
                t.log,
                d.log,
            ) && grew(
                t.log,
                f.log,
            ) && grew(
                t.log,
                g.log,
            ) && grew(
                a.log,
                u.log,
            ) && grew(
                c.log,
                u.log,
            ) && grew(e.log, u.log) && grew(g.log, u.log) && grew(h.log, u.log)
        ) by {
            broadcast use {
                grows_hc_expand_attn_split_k,
                grows_hc_collapse_norm_k,
                grows_encode_router_logits_k,
                grows_refill_pool,
                grows_moe_step,
                grows_hc_expand_add_split_k,
                grows_dump_residual,
            };
        }
        expanded_kept(
            a.log,
            u.log,
            from,
            from,
            block.buf,
            block.buf,
            res.buf,
            split.buf,
            shape.n_hc,
            after->Ok_0.buf,
        );
        collapsed_kept(
            c.log,
            u.log,
            b.log.len() as int,
            from,
            after->Ok_0.buf,
            w.hc_fn.buf,
            w.hc_scale.buf,
            w.hc_base.buf,
            w.hc_norm_gamma.buf,
            w.unit_gamma_hc.buf,
            how,
            (mix.buf, row.buf, x.buf),
        );
        scored_kept(e.log, u.log, d.log.len() as int, from, w.router.buf, x.buf, probs->Ok_0.buf);
        experts_ran_kept(
            f,
            g.log,
            u.log,
            f.log.len() as int,
            from,
            layer,
            k,
            hash is Some,
            probs->Ok_0.buf,
            w.router_bias.buf,
            w.router_bias.n_elements,
            x.buf,
            arrays,
            shape.n_embd,
            moe.buf,
            shared.buf,
        );
        expanded_kept(
            h.log,
            u.log,
            g.log.len() as int,
            from,
            shared.buf,
            moe.buf,
            after->Ok_0.buf,
            mix.buf,
            shape.n_hc,
            r->Ok_0.buf,
        );
        ffn_half_is(
            t,
            u.log,
            from,
            bufs,
            layer,
            k,
            hash is Some,
            how,
            block.buf,
            res.buf,
            split.buf,
            r->Ok_0.buf,
            after->Ok_0.buf,
            mix.buf,
            row.buf,
            x.buf,
            probs->Ok_0.buf,
            moe.buf,
            shared.buf,
        );
    }
}

pub(crate) proof fn ffn_half_alike(
    a: Trace,
    t: Trace,
    log: Seq<Command>,
    from: int,
    b: FfnBufs,
    layer: u32,
    k: u64,
    table: bool,
    f: Fineness,
    block: BufId,
    res: BufId,
    split: BufId,
    out: BufId,
)
    requires
        ffn_half(a, log, from, b, layer, k, table, f, block, res, split, out),
        alike(t, a),
    ensures
        ffn_half(t, log, from, b, layer, k, table, f, block, res, split, out),
{
    let (
        after,
        mix,
        row,
        x,
        probs,
        moe,
        shared,
    ) = choose|after: BufId, mix: BufId, row: BufId, x: BufId, probs: BufId, moe: BufId, shared: BufId|
        #![
            trigger expanded(log, from, block, block, res, split, f.n_hc, after),
            collapsed(
                log,
                from,
                after,
                b.hc_fn,
                b.hc_scale,
                b.hc_base,
                b.norm,
                b.unit,
                f,
                (mix, row, x),
            ),
            scored(log, from, b.router, x, probs),
            expanded(log, from, shared, moe, after, mix, f.n_hc, out),
        ]
        {
            &&& expanded(log, from, block, block, res, split, f.n_hc, after)
            &&& collapsed(
                log,
                from,
                after,
                b.hc_fn,
                b.hc_scale,
                b.hc_base,
                b.norm,
                b.unit,
                f,
                (mix, row, x),
            )
            &&& scored(log, from, b.router, x, probs)
            &&& experts_ran(
                a,
                log,
                from,
                layer,
                k,
                table,
                probs,
                b.bias,
                b.n_experts,
                x,
                b.arrays,
                f.n_embd,
                moe,
                shared,
            )
            &&& expanded(log, from, shared, moe, after, mix, f.n_hc, out)
        };
    assert(
        experts_ran(
            t,
            log,
            from,
            layer,
            k,
            table,
            probs,
            b.bias,
            b.n_experts,
            x,
            b.arrays,
            f.n_embd,
            moe,
            shared,
        )
    );
    ffn_half_is(
        t,
        log,
        from,
        b,
        layer,
        k,
        table,
        f,
        block,
        res,
        split,
        out,
        after,
        mix,
        row,
        x,
        probs,
        moe,
        shared,
    );
}

} // verus!
