//! How far back a query sees: the window of the attention over several positions.

use crate::binds::pipes;
use crate::command::{Args, BufId, Command, DeferredBuf, F32};
use crate::config::LayerAttnHalfOutsK;
use crate::kernel::{Consts, Kernel, Pipe};
use crate::layer::{AttnShape, Place};
use crate::trace::Trace;
use vstd::prelude::*;

verus! {

/// How many rows of the cache query `q` of the attention launch at place `p` may see:
/// the launch's own bound, argument five, and the queries up to `q`.
pub open spec fn sees(log: Seq<Command>, p: int, q: int) -> int {
    log[p + 6]->Bytes_1->U32_0 + q + 1
}

/// The recording launches attention at place `p`, for `k` queries over `n_cache` rows,
/// with a window that the launch's arguments bound.
pub open spec fn attends_at(log: Seq<Command>, p: int, k: u64, n_cache: u64) -> bool {
    &&& 0 <= p
    &&& p + 6 < log.len()
    &&& log[p] == Command::Pipeline(
        Pipe::Special(
            Kernel::FlashKMla,
            Consts::Flash {
                dk: 512,
                dv: 512,
                k: k as i32,
                n_cache: n_cache as i32,
                has_mask: false,
            },
        ),
    )
    &&& log[p + 6] matches Command::Bytes(5, Args::U32(_))
}

/// From place `from` on there is one attention launch, for `k` queries over `n_cache`
/// rows, and query `q` of it sees the rows before `base`, and those from there up to its
/// own.
pub open spec fn windowed(log: Seq<Command>, from: int, k: u64, n_cache: u64, base: u32) -> bool {
    &&& exists|p: int| from <= p && #[trigger] attends_at(log, p, k, n_cache)
    &&& forall|p: int| from <= p < log.len() && #[trigger] pipes(
        log[p],
        Kernel::FlashKMla,
    ) ==> attends_at(
        log,
        p,
        k,
        n_cache,
    ) && forall|q: int| 0 <= q < k ==> #[trigger] sees(log, p, q) == base + q + 1
}

pub(crate) proof fn windowed_at(
    log: Seq<Command>,
    from: int,
    k: u64,
    n_cache: u64,
    base: u32,
    p: int,
)
    requires
        from <= p,
        attends_at(log, p, k, n_cache),
        log[p + 6] == Command::Bytes(5, Args::U32(base)),
        forall|i: int| from <= i < log.len() && i != p ==> !pipes(
            #[trigger] log[i],
            Kernel::FlashKMla,
        ),
    ensures
        windowed(log, from, k, n_cache, base),
{
}

/// Every query of an attention over several positions sees the cache up to its own
/// position, counted from the position that the call is given.
pub proof fn law_attention_window(
    t: Trace,
    q: DeferredBuf,
    kv: DeferredBuf,
    n_head: u64,
    dk: u64,
    dv: u64,
    n_cache: u64,
    k: u64,
    scale: F32,
    base: u32,
    sinks: DeferredBuf,
)
    ensures
        ({
            let (u, r) = t.flash_attn_k_mla(q, kv, n_head, dk, dv, n_cache, k, scale, base, sinks);
            r is Ok ==> windowed(u.log, t.log.len() as int, k, n_cache, base)
        }),
{
    reveal(Trace::flash_attn_k_mla);
    let (u, r) = t.flash_attn_k_mla(q, kv, n_head, dk, dv, n_cache, k, scale, base, sinks);
    if r is Ok {
        windowed_at(u.log, t.log.len() as int, k, n_cache, base, u.log.len() - 14);
    }
}

/// So does every query of an attention that reads compressed rows too.
pub proof fn law_ring_attention_window(
    t: Trace,
    q: DeferredBuf,
    kv: DeferredBuf,
    ring: BufId,
    n: u32,
    avail: Seq<u32>,
    n_head: u64,
    dk: u64,
    dv: u64,
    n_cache: u64,
    k: u64,
    scale: F32,
    base: u32,
    sinks: DeferredBuf,
)
    ensures
        ({
            let (u, r) = t.flash_attn_k_mla_comp(
                q,
                kv,
                ring,
                n,
                avail,
                n_head,
                dk,
                dv,
                n_cache,
                k,
                scale,
                base,
                sinks,
            );
            r is Ok ==> windowed(u.log, t.log.len() as int, k, n_cache, base)
        }),
{
    reveal(Trace::flash_attn_k_mla_comp);
    let (u, r) = t.flash_attn_k_mla_comp(
        q,
        kv,
        ring,
        n,
        avail,
        n_head,
        dk,
        dv,
        n_cache,
        k,
        scale,
        base,
        sinks,
    );
    if r is Ok {
        windowed_at(u.log, t.log.len() as int, k, n_cache, base, u.log.len() - 15);
    }
}

/// Two attentions that differ in the first position alone are recorded differently: a
/// query of the one sees more of the cache than the same query of the other.
pub proof fn law_windows_differ(
    t: Trace,
    q: DeferredBuf,
    kv: DeferredBuf,
    n_head: u64,
    dk: u64,
    dv: u64,
    n_cache: u64,
    k: u64,
    scale: F32,
    base: u32,
    other: u32,
    sinks: DeferredBuf,
)
    requires
        base != other,
        t.flash_attn_k_mla(q, kv, n_head, dk, dv, n_cache, k, scale, base, sinks).1 is Ok,
    ensures
        t.flash_attn_k_mla(q, kv, n_head, dk, dv, n_cache, k, scale, other, sinks).1 is Ok,
        t.flash_attn_k_mla(q, kv, n_head, dk, dv, n_cache, k, scale, base, sinks).0.log != t.flash_attn_k_mla(
            q,
            kv,
            n_head,
            dk,
            dv,
            n_cache,
            k,
            scale,
            other,
            sinks,
        ).0.log,
{
    let (a, x) = t.flash_attn_k_mla(q, kv, n_head, dk, dv, n_cache, k, scale, base, sinks);
    let (b, y) = t.flash_attn_k_mla(q, kv, n_head, dk, dv, n_cache, k, scale, other, sinks);
    let from = t.log.len() as int;
    law_attention_window(t, q, kv, n_head, dk, dv, n_cache, k, scale, base, sinks);
    law_attention_window(t, q, kv, n_head, dk, dv, n_cache, k, scale, other, sinks);
    assert(y is Ok && k > 0) by {
        reveal(Trace::flash_attn_k_mla);
    }
    let p = choose|p: int| from <= p && #[trigger] attends_at(a.log, p, k, n_cache);
    assert(pipes(a.log[p], Kernel::FlashKMla));
    assert(sees(a.log, p, 0) == base + 1);
    if a.log == b.log {
        assert(pipes(b.log[p], Kernel::FlashKMla));
        assert(sees(b.log, p, 0) == other + 1);
    }
}

/// Position `i` of an attention of several positions sees of the cache what an attention
/// of that position alone sees.
pub proof fn law_window_by_position(
    t: Trace,
    q: DeferredBuf,
    s: Trace,
    one: DeferredBuf,
    kv: DeferredBuf,
    n_head: u64,
    dk: u64,
    dv: u64,
    n_cache: u64,
    k: u64,
    scale: F32,
    base: u32,
    sinks: DeferredBuf,
    i: int,
)
    requires
        0 <= i < k,
        base + i <= u32::MAX,
        t.flash_attn_k_mla(q, kv, n_head, dk, dv, n_cache, k, scale, base, sinks).1 is Ok,
        s.flash_attn_k_mla(
            one,
            kv,
            n_head,
            dk,
            dv,
            n_cache,
            1,
            scale,
            (base + i) as u32,
            sinks,
        ).1 is Ok,
    ensures
        ({
            let all = t.flash_attn_k_mla(q, kv, n_head, dk, dv, n_cache, k, scale, base, sinks).0;
            let single = s.flash_attn_k_mla(
                one,
                kv,
                n_head,
                dk,
                dv,
                n_cache,
                1,
                scale,
                (base + i) as u32,
                sinks,
            ).0;
            forall|p: int, r: int|
                #![
                    trigger attends_at(all.log, p, k, n_cache),
                    attends_at(single.log, r, 1, n_cache),
                ]
                t.log.len() <= p && attends_at(all.log, p, k, n_cache) && s.log.len() <= r && attends_at(
                    single.log,
                    r,
                    1,
                    n_cache,
                ) ==> sees(all.log, p, i) == sees(single.log, r, 0)
        }),
{
    let all = t.flash_attn_k_mla(q, kv, n_head, dk, dv, n_cache, k, scale, base, sinks).0;
    let single = s.flash_attn_k_mla(
        one,
        kv,
        n_head,
        dk,
        dv,
        n_cache,
        1,
        scale,
        (base + i) as u32,
        sinks,
    ).0;
    law_attention_window(t, q, kv, n_head, dk, dv, n_cache, k, scale, base, sinks);
    law_attention_window(s, one, kv, n_head, dk, dv, n_cache, 1, scale, (base + i) as u32, sinks);
    assert forall|p: int, r: int|
        #![trigger attends_at(all.log, p, k, n_cache), attends_at(single.log, r, 1, n_cache)]
        t.log.len() <= p && attends_at(all.log, p, k, n_cache) && s.log.len() <= r && attends_at(
            single.log,
            r,
            1,
            n_cache,
        ) implies sees(all.log, p, i) == sees(single.log, r, 0) by {
        assert(pipes(all.log[p], Kernel::FlashKMla));
        assert(pipes(single.log[r], Kernel::FlashKMla));
        assert(sees(all.log, p, i) == base + i + 1);
        assert(sees(single.log, r, 0) == base + i + 1);
    }
}

/// The attention of a layer's step is bounded by the position that the step is given
/// for that.
pub proof fn law_step_window(
    t: Trace,
    half: LayerAttnHalfOutsK,
    kv: DeferredBuf,
    shape: AttnShape,
    place: Place,
    scale: F32,
    sinks: DeferredBuf,
)
    ensures
        ({
            let (u, r) = t.attend(half, kv, shape, place, scale, sinks, None);
            r is Ok ==> windowed(
                u.log,
                t.log.len() as int,
                place.k,
                place.raw_cap as u64,
                place.attn_base_pos,
            )
        }),
{
    reveal(Trace::attend);
    law_attention_window(
        t,
        half.q_heads_k,
        kv,
        shape.n_head,
        shape.head_dim,
        shape.head_dim,
        place.raw_cap as u64,
        place.k,
        scale,
        place.attn_base_pos,
        sinks,
    );
}

} // verus!
