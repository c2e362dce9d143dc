//! What flows where through the attention half of a layer, from the streams
//! to its block.

use crate::binds::{grew_len, launched, lemma_kept, lemma_tail, pipes, rotation_numbers};
use crate::chains::handed;
use crate::command::{Args, BufId, Command, DeferredBuf, Dump, F32, RopeArgs, Stage};
use crate::config::{CompVerifyCtx, KvMerge, LayerAttnHalfOutsK, LayerParams};
use crate::flow::{
    Fineness, collapsed, collapsed_kept, copied, copied_kept, did_head_norms, did_norms,
    heads_normed, law_collapses_flow, law_projection_flow, lemma_copied, normed, normed_kept,
    product_of, projected, projected_kept,
};
use crate::growth::{
    grew, grew_itself, grew_push, grows_alloc_attn_out, grows_attend, grows_attn_low_rows,
    grows_attn_tail, grows_compress, grows_encode_attn_output_matmuls_q8_k,
    grows_encode_attn_qkv_chain_k, grows_encode_layer_attn_half_k, grows_hc_collapse_norm_k,
    grows_head_rms_norm_k, grows_interleave_group_major, grows_kv_fp8_store_persistent_k,
    grows_matmul_k_attn_proj, grows_matmul_k_q8_0_grouped, grows_pooled_scratch_f32,
    grows_pooled_scratch_u16, grows_rms_norm_mul_k, grows_rope_kv, grows_rope_kv_rows,
    grows_rope_q_rows, grows_rope_tail_q_heads_in_place_k, grows_store_rows,
};
use crate::kernel::{Kernel, Pipe};
use crate::layer::{AttnOutput, AttnShape, AttnWeights, Place, active, emits, emitted};
use crate::norm::spec_rope_args;
use crate::pool::PoolKey;
use crate::settings::{
    alike, stays_attend, stays_encode_attn_qkv_chain_k, stays_encode_layer_attn_half_k,
    stays_hc_collapse_norm_k, stays_kv_fp8_store_persistent_k, stays_rms_norm_mul_k,
    stays_rope_tail_q_heads_in_place_k,
};
use crate::trace::Trace;
use vstd::prelude::*;

verus! {

broadcast group group_flow {
    grew_push,
    grew_len,
    grows_alloc_attn_out,
    grows_pooled_scratch_f32,
    grows_pooled_scratch_u16,
}

/// The heads in `buf` from byte `off` on were turned by the rotation of position `pos`.
pub open spec fn turned_at(
    log: Seq<Command>,
    from: int,
    buf: BufId,
    off: u64,
    numbers: RopeArgs,
) -> bool {
    launched(
        log,
        from,
        Kernel::RopeTail,
        3,
        seq![Command::Buffer(3, buf, off), Command::Rope(numbers)],
    )
}

/// The heads of `k` positions in `buf` were turned, position `i` as position
/// `base + i`: in one launch whose rows are a position apart, or one by one.
pub open spec fn heads_turned(
    log: Seq<Command>,
    from: int,
    per_k: bool,
    buf: BufId,
    n_head: u64,
    head_dim: u64,
    p: LayerParams,
    base: u32,
    k: u64,
    backward: bool,
) -> bool {
    if p.n_rot == 0 {
        true
    } else if per_k {
        forall|i: int| 0 <= i < k ==> #[trigger] head_turned(
            log,
            from,
            buf,
            n_head,
            head_dim,
            p,
            base,
            i,
            backward,
        )
    } else {
        turned_at(
            log,
            from,
            buf,
            ((head_dim - p.n_rot) * 4) as u64,
            rotation_numbers(
                p,
                head_dim,
                base,
                n_head,
                (n_head * head_dim) as u64 as u32,
                backward,
            ),
        )
    }
}

/// The heads of position `i` were turned as position `base + i`.
pub open spec fn head_turned(
    log: Seq<Command>,
    from: int,
    buf: BufId,
    n_head: u64,
    head_dim: u64,
    p: LayerParams,
    base: u32,
    i: int,
    backward: bool,
) -> bool {
    turned_at(
        log,
        from,
        buf,
        ((i * (n_head * head_dim) + (head_dim - p.n_rot)) * 4) as u64,
        rotation_numbers(p, head_dim, (base + i) as u32, n_head, 4, backward),
    )
}

/// The key-value rows of `k` positions in `buf` were turned, row `i` as position
/// `base + i`: in one launch whose rows are a row apart, or one by one.
pub open spec fn rows_turned(
    log: Seq<Command>,
    from: int,
    per_k: bool,
    buf: BufId,
    kv_row: u64,
    p: LayerParams,
    base: u32,
    k: u64,
) -> bool {
    if p.n_rot > 0 && !per_k {
        turned_at(
            log,
            from,
            buf,
            ((kv_row - p.n_rot) * 4) as u64,
            rotation_numbers(p, p.n_rot as u64, base, 1, kv_row as u32, false),
        )
    } else {
        forall|i: int| 0 <= i < k ==> #[trigger] row_turned(log, from, buf, kv_row, p, base, i)
    }
}

/// The key-value row of position `i` was turned as position `base + i`.
pub open spec fn row_turned(
    log: Seq<Command>,
    from: int,
    buf: BufId,
    kv_row: u64,
    p: LayerParams,
    base: u32,
    i: int,
) -> bool {
    turned_at(
        log,
        from,
        buf,
        ((i * kv_row + (kv_row - p.n_rot)) * 4) as u64,
        rotation_numbers(p, p.n_rot as u64, (base + i) as u32, 1, 4, false),
    )
}

pub(crate) proof fn heads_turned_kept(
    a: Seq<Command>,
    b: Seq<Command>,
    from: int,
    earlier: int,
    per_k: bool,
    buf: BufId,
    n_head: u64,
    head_dim: u64,
    p: LayerParams,
    base: u32,
    k: u64,
    backward: bool,
)
    requires
        heads_turned(a, from, per_k, buf, n_head, head_dim, p, base, k, backward),
        grew(a, b),
        earlier <= from,
    ensures
        heads_turned(b, earlier, per_k, buf, n_head, head_dim, p, base, k, backward),
{
    broadcast use lemma_kept;

    assert forall|i: int| per_k && p.n_rot > 0 && 0 <= i < k implies #[trigger] head_turned(
        b,
        earlier,
        buf,
        n_head,
        head_dim,
        p,
        base,
        i,
        backward,
    ) by {
        assert(head_turned(a, from, buf, n_head, head_dim, p, base, i, backward));
    }
}

pub(crate) proof fn rows_turned_kept(
    a: Seq<Command>,
    b: Seq<Command>,
    from: int,
    earlier: int,
    per_k: bool,
    buf: BufId,
    kv_row: u64,
    p: LayerParams,
    base: u32,
    k: u64,
)
    requires
        rows_turned(a, from, per_k, buf, kv_row, p, base, k),
        grew(a, b),
        earlier <= from,
    ensures
        rows_turned(b, earlier, per_k, buf, kv_row, p, base, k),
{
    broadcast use lemma_kept;

    assert forall|i: int| (per_k || p.n_rot == 0) && 0 <= i < k implies #[trigger] row_turned(
        b,
        earlier,
        buf,
        kv_row,
        p,
        base,
        i,
    ) by {
        assert(row_turned(a, from, buf, kv_row, p, base, i));
    }
}

pub(crate) proof fn did_head_turns(
    t: Trace,
    q: DeferredBuf,
    n_head: u64,
    head_dim: u64,
    p: LayerParams,
    base: u32,
    k: u64,
    backward: bool,
    freqs: BufId,
    i: int,
)
    requires
        0 <= i,
    ensures
        forall|j: int| i <= j < k ==> #[trigger] head_turned(
            t.rope_q_rows(q, n_head, head_dim, p, base, k, backward, freqs, i).log,
            t.log.len() as int,
            q.buf,
            n_head,
            head_dim,
            p,
            base,
            j,
            backward,
        ),
    decreases k - i,
{
    if i < k {
        let u = t.rope_q_rows(q, n_head, head_dim, p, base, k, backward, freqs, i);
        let args = spec_rope_args(p, head_dim, (base + i) as u32, n_head, 4, backward);
        let (a, pos) = t.upload_word(args.pos);
        let off = ((i * (n_head * head_dim) + (head_dim - p.n_rot)) * 4) as u64;
        let b = a.rope_launch(q.buf, off, pos.buf, freqs, args, (n_head, 1, 1));
        let n = t.log.len() as int;
        lemma_tail(
            b.log,
            n,
            Kernel::RopeTail,
            3,
            seq![
                Command::Buffer(3, q.buf, off),
                Command::Rope(
                    rotation_numbers(p, head_dim, (base + i) as u32, n_head, 4, backward),
                ),
            ],
            2,
        );
        assert(head_turned(b.log, n, q.buf, n_head, head_dim, p, base, i, backward));
        grew_itself(b.log);
        grows_rope_q_rows(b.log, b, q, n_head, head_dim, p, base, k, backward, freqs, i + 1);
        grew_itself(u.log);
        did_head_turns(b, q, n_head, head_dim, p, base, k, backward, freqs, i + 1);
        broadcast use lemma_kept;

        assert forall|j: int| i <= j < k implies #[trigger] head_turned(
            u.log,
            n,
            q.buf,
            n_head,
            head_dim,
            p,
            base,
            j,
            backward,
        ) by {
            if j > i {
                assert(
                    head_turned(
                        u.log,
                        b.log.len() as int,
                        q.buf,
                        n_head,
                        head_dim,
                        p,
                        base,
                        j,
                        backward,
                    )
                );
            } else {
                assert(head_turned(b.log, n, q.buf, n_head, head_dim, p, base, i, backward));
            }
        }
    }
}

pub(crate) proof fn did_row_turns(
    t: Trace,
    kv: DeferredBuf,
    kv_row: u64,
    p: LayerParams,
    base: u32,
    k: u64,
    i: int,
)
    requires
        0 <= i,
    ensures
        ({
            let (u, r) = t.rope_kv_rows(kv, kv_row, p, base, k, i);
            r is Ok ==> forall|j: int| i <= j < k ==> #[trigger] row_turned(
                u.log,
                t.log.len() as int,
                kv.buf,
                kv_row,
                p,
                base,
                j,
            )
        }),
    decreases k - i,
{
    let (u, r) = t.rope_kv_rows(kv, kv_row, p, base, k, i);
    if i < k && r is Ok {
        let off = ((i * kv_row + (kv_row - p.n_rot)) * 4) as u64;
        let (b, one) = t.rope_tail_in_place(kv, off, 1, p, (base + i) as u32, false);
        reveal(Trace::rope_tail_in_place);
        let n = t.log.len() as int;
        lemma_tail(
            b.log,
            n,
            Kernel::RopeTail,
            3,
            seq![
                Command::Buffer(3, kv.buf, off),
                Command::Rope(rotation_numbers(p, p.n_rot as u64, (base + i) as u32, 1, 4, false)),
            ],
            2,
        );
        assert(row_turned(b.log, n, kv.buf, kv_row, p, base, i));
        grew_itself(b.log);
        grows_rope_kv_rows(b.log, b, kv, kv_row, p, base, k, i + 1);
        grew_itself(u.log);
        did_row_turns(b, kv, kv_row, p, base, k, i + 1);
        broadcast use lemma_kept;

        assert forall|j: int| i <= j < k implies #[trigger] row_turned(
            u.log,
            n,
            kv.buf,
            kv_row,
            p,
            base,
            j,
        ) by {
            if j > i {
                assert(row_turned(u.log, b.log.len() as int, kv.buf, kv_row, p, base, j));
            } else {
                assert(row_turned(b.log, n, kv.buf, kv_row, p, base, i));
            }
        }
    }
}

/// The query heads of several positions are turned, each by its own position.
pub proof fn law_heads_turn(
    t: Trace,
    q: DeferredBuf,
    n_head: u64,
    head_dim: u64,
    p: LayerParams,
    base: u32,
    k: u64,
    backward: bool,
)
    ensures
        ({
            let (u, r) = t.rope_tail_q_heads_in_place_k(q, n_head, head_dim, p, base, k, backward);
            r is Ok && k > 0 ==> heads_turned(
                u.log,
                t.log.len() as int,
                t.config.rope_per_k,
                q.buf,
                n_head,
                head_dim,
                p,
                base,
                k,
                backward,
            )
        }),
{
    broadcast use group_flow;

    grew_itself(t.log);
    reveal(Trace::rope_tail_q_heads_in_place_k);
    reveal(Trace::rope_tail_k_fused);
    let (u, r) = t.rope_tail_q_heads_in_place_k(q, n_head, head_dim, p, base, k, backward);
    if r is Ok && k > 0 {
        let from = t.log.len() as int;
        if p.n_rot > 0 {
            let (a, freqs) = t.upload_word(0);
            if t.config.rope_per_k {
                did_head_turns(a, q, n_head, head_dim, p, base, k, backward, freqs.buf, 0);
                grew_itself(u.log);
                broadcast use lemma_kept;
        
                assert forall|j: int| 0 <= j < k implies #[trigger] head_turned(
                    u.log,
                    from,
                    q.buf,
                    n_head,
                    head_dim,
                    p,
                    base,
                    j,
                    backward,
                ) by {
                    assert(
                        head_turned(
                            u.log,
                            a.log.len() as int,
                            q.buf,
                            n_head,
                            head_dim,
                            p,
                            base,
                            j,
                            backward,
                        )
                    );
                }
            } else {
                lemma_tail(
                    u.log,
                    from,
                    Kernel::RopeTail,
                    3,
                    seq![
                        Command::Buffer(3, q.buf, ((head_dim - p.n_rot) * 4) as u64),
                        Command::Rope(
                            rotation_numbers(
                                p,
                                head_dim,
                                base,
                                n_head,
                                (n_head * head_dim) as u64 as u32,
                                backward,
                            ),
                        ),
                    ],
                    2,
                );
            }
        }
    }
}

/// The key-value rows of several positions are turned, each by its own position.
pub proof fn law_rows_turn(
    t: Trace,
    kv: DeferredBuf,
    kv_row: u64,
    p: LayerParams,
    base: u32,
    k: u64,
)
    ensures
        ({
            let (u, r) = t.rope_kv(kv, kv_row, p, base, k);
            r is Ok && k > 0 ==> rows_turned(
                u.log,
                t.log.len() as int,
                t.config.rope_per_k,
                kv.buf,
                kv_row,
                p,
                base,
                k,
            )
        }),
{
    broadcast use group_flow;

    grew_itself(t.log);
    reveal(Trace::rope_kv);
    reveal(Trace::rope_tail_k_fused);
    let (u, r) = t.rope_kv(kv, kv_row, p, base, k);
    if r is Ok && k > 0 {
        if p.n_rot > 0 && !t.config.rope_per_k {
            lemma_tail(
                u.log,
                t.log.len() as int,
                Kernel::RopeTail,
                3,
                seq![
                    Command::Buffer(3, kv.buf, ((kv_row - p.n_rot) * 4) as u64),
                    Command::Rope(
                        rotation_numbers(p, p.n_rot as u64, base, 1, kv_row as u32, false),
                    ),
                ],
                2,
            );
        } else {
            did_row_turns(t, kv, kv_row, p, base, k, 0);
        }
    }
}

/// The rows of `k` positions were stored into the layer's cache, row `i` in slot
/// `slot + i`: in one launch, or one by one.
pub open spec fn stored(
    log: Seq<Command>,
    from: int,
    merged: bool,
    layer: u32,
    rows: BufId,
    p: LayerParams,
    slot: u32,
    k: u64,
) -> bool {
    if merged {
        launched(log, from, Kernel::KvFp8StoreK, 0, store_of(layer, rows, 0, p, slot))
    } else {
        forall|i: int| 0 <= i < k ==> #[trigger] stored_at(log, from, layer, rows, p, slot, i)
    }
}

/// What a store binds: the cache, the rows from byte `off` on, how many elements of a
/// row are rotated and how many not, and the slot.
pub open spec fn store_of(
    layer: u32,
    rows: BufId,
    off: u64,
    p: LayerParams,
    slot: u32,
) -> Seq<Command> {
    seq![
        Command::Buffer(0, BufId::KvCache(layer), 0),
        Command::Buffer(1, rows, off),
        Command::Bytes(
            2,
            Args::U32(if p.head_dim >= p.n_rot { (p.head_dim - p.n_rot) as u32 } else { 0 }),
        ),
        Command::Bytes(3, Args::U32(p.n_rot)),
        Command::Bytes(4, Args::U32(slot)),
    ]
}

/// Row `i` was stored in slot `slot + i`, some commands into an encoder.
pub open spec fn stored_at(
    log: Seq<Command>,
    from: int,
    layer: u32,
    rows: BufId,
    p: LayerParams,
    slot: u32,
    i: int,
) -> bool {
    exists|skip: int| #[trigger] launched(
        log,
        from,
        Kernel::KvFp8Store,
        skip,
        store_of(layer, rows, (i * (p.n_lora_kv * 4)) as u64, p, (slot + i) as u32),
    )
}

pub(crate) proof fn stored_at_kept(
    a: Seq<Command>,
    b: Seq<Command>,
    from: int,
    earlier: int,
    layer: u32,
    rows: BufId,
    p: LayerParams,
    slot: u32,
    i: int,
)
    requires
        stored_at(a, from, layer, rows, p, slot, i),
        grew(a, b),
        earlier <= from,
    ensures
        stored_at(b, earlier, layer, rows, p, slot, i),
{
    let s = store_of(layer, rows, (i * (p.n_lora_kv * 4)) as u64, p, (slot + i) as u32);
    let skip = choose|skip: int| #[trigger] launched(a, from, Kernel::KvFp8Store, skip, s);
    lemma_kept(a, b, from, earlier, Kernel::KvFp8Store, skip, s);
}

pub(crate) proof fn stored_kept(
    a: Seq<Command>,
    b: Seq<Command>,
    from: int,
    earlier: int,
    merged: bool,
    layer: u32,
    rows: BufId,
    p: LayerParams,
    slot: u32,
    k: u64,
)
    requires
        stored(a, from, merged, layer, rows, p, slot, k),
        grew(a, b),
        earlier <= from,
    ensures
        stored(b, earlier, merged, layer, rows, p, slot, k),
{
    if merged {
        lemma_kept(a, b, from, earlier, Kernel::KvFp8StoreK, 0, store_of(layer, rows, 0, p, slot));
    } else {
        assert forall|i: int| 0 <= i < k implies #[trigger] stored_at(
            b,
            earlier,
            layer,
            rows,
            p,
            slot,
            i,
        ) by {
            assert(stored_at(a, from, layer, rows, p, slot, i));
            stored_at_kept(a, b, from, earlier, layer, rows, p, slot, i);
        }
    }
}

pub(crate) proof fn did_stores(
    from: int,
    place: int,
    t: Trace,
    layer: u32,
    rows: BufId,
    p: LayerParams,
    slot: u32,
    own: bool,
    k: u64,
    i: int,
)
    requires
        0 <= i,
        0 <= from <= t.log.len(),
        !own ==> from <= place < t.log.len() && t.log.len() == place + 1 + 6 * i && pipes(
            t.log[place],
            Kernel::KvFp8Store,
        ),
    ensures
        forall|j: int| i <= j < k ==> #[trigger] stored_at(
            t.store_rows(BufId::KvCache(layer), rows, p, slot, own, k, i).log,
            from,
            layer,
            rows,
            p,
            slot,
            j,
        ),
    decreases k - i,
{
    if i < k {
        let cache = BufId::KvCache(layer);
        let u = t.store_rows(cache, rows, p, slot, own, k, i);
        let off = (i * (p.n_lora_kv * 4)) as u64;
        let a = if own {
            t.put(Command::Encoder).put(Command::Pipeline(Pipe::Loaded(Kernel::KvFp8Store)))
        } else {
            t
        };
        let b = a.store_bind(cache, rows, off, p, (slot + i) as u32, 1);
        let c = if own {
            b.put(Command::EndEncoder)
        } else {
            b
        };
        let s = store_of(layer, rows, off, p, (slot + i) as u32);
        if own {
            lemma_tail(c.log, from, Kernel::KvFp8Store, 0, s, 2);
        } else {
            lemma_tail(c.log, from, Kernel::KvFp8Store, 6 * i, s, 1);
        }
        assert(stored_at(c.log, from, layer, rows, p, slot, i));
        grew_itself(c.log);
        grows_store_rows(c.log, c, cache, rows, p, slot, own, k, i + 1);
        stored_at_kept(c.log, u.log, from, from, layer, rows, p, slot, i);
        did_stores(from, place, c, layer, rows, p, slot, own, k, i + 1);
    }
}

/// The key-value rows of several positions are stored in the layer's cache, each in its
/// own slot.
pub proof fn law_store_flow(
    t: Trace,
    layer: u32,
    rows: DeferredBuf,
    p: LayerParams,
    cap: u32,
    slot: u32,
    k: u64,
)
    ensures
        ({
            let (u, r) = t.kv_fp8_store_persistent_k(layer, rows, p, cap, slot, k);
            let out = r->Ok_0;
            r is Ok && k > 0 ==> out.buf == BufId::KvCache(layer) && stored(
                u.log,
                t.log.len() as int,
                t.config.kv_merge == KvMerge::Kernel && t.has(Kernel::KvFp8StoreK),
                layer,
                rows.buf,
                p,
                slot,
                k,
            )
        }),
{
    broadcast use group_flow;

    grew_itself(t.log);
    reveal(Trace::kv_fp8_store_persistent_k);
    let (u, r) = t.kv_fp8_store_persistent_k(layer, rows, p, cap, slot, k);
    if r is Ok && k > 0 {
        let out = r->Ok_0;
        let from = t.log.len() as int;
        let (a, cache) = t.kv_cache(layer, cap, p.n_lora_kv);
        let s = store_of(layer, rows.buf, 0, p, slot);
        if t.config.kv_merge == KvMerge::Kernel && t.has(Kernel::KvFp8StoreK) {
            lemma_tail(u.log, from, Kernel::KvFp8StoreK, 0, s, 2);
        } else if t.config.kv_merge == KvMerge::Encoder {
            let b = a.put(Command::Encoder).put(
                Command::Pipeline(Pipe::Loaded(Kernel::KvFp8Store)),
            );
            let c = b.store_rows(cache.buf, rows.buf, p, slot, false, k, 0);
            did_stores(from, b.log.len() - 1, b, layer, rows.buf, p, slot, false, k, 0);
            grew_itself(c.log);
            assert(grew(c.log, u.log));
            assert forall|i: int| 0 <= i < k implies #[trigger] stored_at(
                u.log,
                from,
                layer,
                rows.buf,
                p,
                slot,
                i,
            ) by {
                assert(stored_at(c.log, from, layer, rows.buf, p, slot, i));
                stored_at_kept(c.log, u.log, from, from, layer, rows.buf, p, slot, i);
            }
        } else {
            did_stores(from, 0, a, layer, rows.buf, p, slot, true, k, 0);
        }
    }
}

/// The queries `q` attended to `cache` and to `n` compressed rows of `ring`, up to the
/// window that ends at `base`.
pub open spec fn attended(
    log: Seq<Command>,
    from: int,
    q: BufId,
    cache: BufId,
    out: BufId,
    scale: F32,
    n_head: u64,
    base: u32,
    sinks: BufId,
    ring: BufId,
    n: u32,
) -> bool {
    launched(
        log,
        from,
        Kernel::FlashKMla,
        0,
        seq![
            Command::Buffer(0, q, 0),
            Command::Buffer(1, cache, 0),
            Command::Buffer(2, out, 0),
            Command::Bytes(3, Args::F32(scale)),
            Command::Bytes(4, Args::U32(n_head as u32)),
            Command::Bytes(5, Args::U32(base)),
            Command::Buffer(6, sinks, 0),
            Command::Buffer(7, ring, 0),
            Command::Bytes(8, Args::U32(n)),
        ],
    )
}

pub(crate) proof fn did_attention(
    t: Trace,
    q: DeferredBuf,
    kv: DeferredBuf,
    n_head: u64,
    dk: u64,
    dv: u64,
    n_cache: u64,
    k: u64,
    scale: F32,
    base: u32,
    sinks: DeferredBuf,
)
    ensures
        ({
            let (u, r) = t.flash_attn_k_mla(q, kv, n_head, dk, dv, n_cache, k, scale, base, sinks);
            let out = r->Ok_0;
            r is Ok ==> attended(
                u.log,
                t.log.len() as int,
                q.buf,
                kv.buf,
                out.buf,
                scale,
                n_head,
                base,
                sinks.buf,
                kv.buf,
                0,
            )
        }),
{
    broadcast use group_flow;

    grew_itself(t.log);
    reveal(Trace::flash_attn_k_mla);
    let (u, r) = t.flash_attn_k_mla(q, kv, n_head, dk, dv, n_cache, k, scale, base, sinks);
    if r is Ok {
        let out = r->Ok_0;
        lemma_tail(
            u.log,
            t.log.len() as int,
            Kernel::FlashKMla,
            0,
            seq![
                Command::Buffer(0, q.buf, 0),
                Command::Buffer(1, kv.buf, 0),
                Command::Buffer(2, out.buf, 0),
                Command::Bytes(3, Args::F32(scale)),
                Command::Bytes(4, Args::U32(n_head as u32)),
                Command::Bytes(5, Args::U32(base)),
                Command::Buffer(6, sinks.buf, 0),
                Command::Buffer(7, kv.buf, 0),
                Command::Bytes(8, Args::U32(0)),
            ],
            4,
        );
    }
}

pub(crate) proof fn did_ring_attention(
    t: Trace,
    q: DeferredBuf,
    kv: DeferredBuf,
    ring: BufId,
    n: u32,
    avail: Seq<u32>,
    n_head: u64,
    dk: u64,
    dv: u64,
    n_cache: u64,
    k: u64,
    scale: F32,
    base: u32,
    sinks: DeferredBuf,
)
    ensures
        ({
            let (u, r) = t.flash_attn_k_mla_comp(
                q,
                kv,
                ring,
                n,
                avail,
                n_head,
                dk,
                dv,
                n_cache,
                k,
                scale,
                base,
                sinks,
            );
            let out = r->Ok_0;
            r is Ok ==> attended(
                u.log,
                t.log.len() as int,
                q.buf,
                kv.buf,
                out.buf,
                scale,
                n_head,
                base,
                sinks.buf,
                ring,
                n,
            )
        }),
{
    broadcast use group_flow;

    grew_itself(t.log);
    reveal(Trace::flash_attn_k_mla_comp);
    let (u, r) = t.flash_attn_k_mla_comp(
        q,
        kv,
        ring,
        n,
        avail,
        n_head,
        dk,
        dv,
        n_cache,
        k,
        scale,
        base,
        sinks,
    );
    if r is Ok {
        let out = r->Ok_0;
        lemma_tail(
            u.log,
            t.log.len() as int,
            Kernel::FlashKMla,
            0,
            seq![
                Command::Buffer(0, q.buf, 0),
                Command::Buffer(1, kv.buf, 0),
                Command::Buffer(2, out.buf, 0),
                Command::Bytes(3, Args::F32(scale)),
                Command::Bytes(4, Args::U32(n_head as u32)),
                Command::Bytes(5, Args::U32(base)),
                Command::Buffer(6, sinks.buf, 0),
                Command::Buffer(7, ring, 0),
                Command::Bytes(8, Args::U32(n)),
            ],
            5,
        );
    }
}

/// The compressed rows that an attention of `k` positions reads: the layer's ring, with
/// the rows that it held and those that the step adds, or none, with the cache in the
/// ring's place.
pub open spec fn ring_of(
    layer: u32,
    cache: BufId,
    p: LayerParams,
    base: u32,
    k: u64,
    comp: Option<CompVerifyCtx>,
) -> (BufId, u32) {
    match comp {
        Some(ctx) if ctx.n_comp > 0 => (
            BufId::CompRing(layer),
            (ctx.n_comp + if p.compress_ratio == 4 && ctx.attn_comp.w_kv.len > 0 {
                closed_windows(base as int, 4, k as int)
            } else {
                0
            }) as u32,
        ),
        _ => (cache, 0u32),
    }
}

/// How many of the positions from `base` on, `k` of them, close a window of `ratio`.
pub open spec fn closed_windows(base: int, ratio: int, k: int) -> int {
    (base + k) / ratio - base / ratio
}

pub(crate) proof fn lemma_emitted_counts(base: int, ratio: int, k: int)
    requires
        0 <= base,
        0 < ratio,
        0 <= k,
    ensures
        emitted(base, ratio, k).len() == closed_windows(base, ratio, k),
    decreases k,
{
    if k > 0 {
        lemma_emitted_counts(base, ratio, k - 1);
        let n = base + k;
        lemma_div_step(n, ratio);
    }
}

pub(crate) proof fn lemma_div_step(n: int, d: int)
    requires
        0 < n,
        0 < d,
    ensures
        n / d == (n - 1) / d + if n % d == 0 { 1int } else { 0int },
{
    let q = (n - 1) / d;
    let r = (n - 1) % d;
    vstd::arithmetic::div_mod::lemma_fundamental_div_mod(n - 1, d);
    vstd::arithmetic::div_mod::lemma_mod_bound(n - 1, d);
    if r + 1 == d {
        assert(n == (q + 1) * d) by (nonlinear_arith)
            requires
                n - 1 == d * q + r,
                r + 1 == d,
        ;
        vstd::arithmetic::div_mod::lemma_fundamental_div_mod_converse(n, d, q + 1, 0);
    } else {
        assert(n == q * d + (r + 1)) by (nonlinear_arith)
            requires
                n - 1 == d * q + r,
        ;
        vstd::arithmetic::div_mod::lemma_fundamental_div_mod_converse(n, d, q, r + 1);
    }
}

/// The query heads attend to the cache that they are given, and to the layer's ring where
/// it holds rows.
pub proof fn law_attend_flow(
    t: Trace,
    half: LayerAttnHalfOutsK,
    kv: DeferredBuf,
    shape: AttnShape,
    place: Place,
    scale: F32,
    sinks: DeferredBuf,
    comp: Option<CompVerifyCtx>,
)
    ensures
        ({
            let (u, r) = t.attend(half, kv, shape, place, scale, sinks, comp);
            let out = r->Ok_0;
            let (ring, n) = ring_of(
                place.layer,
                kv.buf,
                place.params,
                place.base_pos,
                place.k,
                comp,
            );
            r is Ok ==> attended(
                u.log,
                t.log.len() as int,
                half.q_heads_k.buf,
                kv.buf,
                out.buf,
                scale,
                shape.n_head,
                place.attn_base_pos,
                sinks.buf,
                ring,
                n,
            )
        }),
{
    broadcast use group_flow;

    grew_itself(t.log);
    reveal(Trace::attend);
    let (u, r) = t.attend(half, kv, shape, place, scale, sinks, comp);
    if r is Ok {
        let out = r->Ok_0;
        let (ring, n) = ring_of(place.layer, kv.buf, place.params, place.base_pos, place.k, comp);
        let from = t.log.len() as int;
        if active(comp) {
            let ctx = comp->Some_0;
            let ring = BufId::CompRing(place.layer);
            let on = emits(ctx, place.params);
            let a = t.put(
                Command::CompRing {
                    layer: place.layer,
                    bytes: (place.raw_cap * shape.head_dim * 4) as u64,
                },
            );
            let (b, made) = if on {
                a.compress(ctx, half.normed_k, shape, place, ring)
            } else {
                (a, Ok(()))
            };
            let more = if on {
                emitted(place.base_pos as int, place.params.compress_ratio as int, place.k as int)
            } else {
                Seq::empty()
            };
            let avail = Seq::new(ctx.n_comp as nat, |j: int| 0u32) + more;
            if on {
                lemma_emitted_counts(place.base_pos as int, 4, place.k as int);
            }
            assert(avail.len() == ctx.n_comp + more.len());
            did_ring_attention(
                b,
                half.q_heads_k,
                kv,
                ring,
                avail.len() as u32,
                avail,
                shape.n_head,
                shape.head_dim,
                shape.head_dim,
                place.raw_cap as u64,
                place.k,
                scale,
                place.attn_base_pos,
                sinks,
            );
            assert(grew(t.log, b.log)) by {
                broadcast use grows_compress;
            }
            grew_itself(u.log);
            broadcast use lemma_kept;
        
            assert(
                attended(
                    u.log,
                    b.log.len() as int,
                    half.q_heads_k.buf,
                    kv.buf,
                    out.buf,
                    scale,
                    shape.n_head,
                    place.attn_base_pos,
                    sinks.buf,
                    ring,
                    avail.len() as u32,
                )
            );
            assert(
                attended(
                    u.log,
                    from,
                    half.q_heads_k.buf,
                    kv.buf,
                    out.buf,
                    scale,
                    shape.n_head,
                    place.attn_base_pos,
                    sinks.buf,
                    ring,
                    avail.len() as u32,
                )
            );
        } else {
            did_attention(
                t,
                half.q_heads_k,
                kv,
                shape.n_head,
                shape.head_dim,
                shape.head_dim,
                place.raw_cap as u64,
                place.k,
                scale,
                place.attn_base_pos,
                sinks,
            );
        }
    }
}

/// The low half of the output product: the matrices `a` times the heads of each group
/// went to `low`, in one launch, position by position, or as one product by groups that
/// was then put in order.
pub open spec fn lowered(
    log: Seq<Command>,
    from: int,
    a: BufId,
    heads: BufId,
    q_dim: int,
    low_dim: int,
    k: u64,
    low: BufId,
) -> bool {
    ||| launched(
        log,
        from,
        Kernel::AttnOutLowQ8K,
        1,
        seq![Command::Buffer(1, a, 0), Command::Buffer(2, heads, 0), Command::Buffer(3, low, 0)],
    )
    ||| forall|i: int| 0 <= i < k ==> #[trigger] lowered_at(
        log,
        from,
        a,
        heads,
        q_dim,
        low_dim,
        i,
        low,
    )
    ||| exists|gm: BufId, il: BufId|
        #[trigger] product_of(log, from, Kernel::MulMmQ8F32, a, heads, gm) && launched(
        log,
        from,
        Kernel::InterleaveGroupMajor,
        0,
        seq![Command::Buffer(0, gm, 0), Command::Buffer(1, il, 0)],
    ) && #[trigger] copied(log, from, il, low)
}

/// The low half of position `i`.
pub open spec fn lowered_at(
    log: Seq<Command>,
    from: int,
    a: BufId,
    heads: BufId,
    q_dim: int,
    low_dim: int,
    i: int,
    low: BufId,
) -> bool {
    launched(
        log,
        from,
        Kernel::AttnOutLowQ8,
        1,
        seq![
            Command::Buffer(1, a, 0),
            Command::Buffer(2, heads, (i * (q_dim * 4)) as u64),
            Command::Buffer(3, low, (i * (low_dim * 4)) as u64),
        ],
    )
}

pub(crate) proof fn lowered_kept(
    l: Seq<Command>,
    m: Seq<Command>,
    from: int,
    earlier: int,
    a: BufId,
    heads: BufId,
    q_dim: int,
    low_dim: int,
    k: u64,
    low: BufId,
)
    requires
        lowered(l, from, a, heads, q_dim, low_dim, k, low),
        grew(l, m),
        earlier <= from,
    ensures
        lowered(m, earlier, a, heads, q_dim, low_dim, k, low),
{
    broadcast use {lemma_kept, copied_kept};

    let s = seq![
        Command::Buffer(1, a, 0),
        Command::Buffer(2, heads, 0),
        Command::Buffer(3, low, 0),
    ];
    if launched(l, from, Kernel::AttnOutLowQ8K, 1, s) {
        assert(launched(m, earlier, Kernel::AttnOutLowQ8K, 1, s));
    } else if forall|i: int| 0 <= i < k ==> #[trigger] lowered_at(
        l,
        from,
        a,
        heads,
        q_dim,
        low_dim,
        i,
        low,
    ) {
        assert forall|i: int| 0 <= i < k implies #[trigger] lowered_at(
            m,
            earlier,
            a,
            heads,
            q_dim,
            low_dim,
            i,
            low,
        ) by {
            assert(lowered_at(l, from, a, heads, q_dim, low_dim, i, low));
        }
    } else {
        let (gm, il) = choose|gm: BufId, il: BufId|
            #[trigger] product_of(l, from, Kernel::MulMmQ8F32, a, heads, gm) && launched(
            l,
            from,
            Kernel::InterleaveGroupMajor,
            0,
            seq![Command::Buffer(0, gm, 0), Command::Buffer(1, il, 0)],
        ) && #[trigger] copied(l, from, il, low);
        assert(product_of(m, earlier, Kernel::MulMmQ8F32, a, heads, gm));
        assert(
            launched(
                m,
                earlier,
                Kernel::InterleaveGroupMajor,
                0,
                seq![Command::Buffer(0, gm, 0), Command::Buffer(1, il, 0)],
            )
        );
        assert(copied(m, earlier, il, low));
    }
}

pub(crate) proof fn did_low_rows(
    t: Trace,
    a: BufId,
    heads: BufId,
    low: BufId,
    n_groups: u64,
    n_lora_o: u64,
    group_dim: u64,
    low_dim: u64,
    k: u64,
    i: int,
)
    requires
        0 <= i,
    ensures
        forall|j: int| i <= j < k ==> #[trigger] lowered_at(
            t.attn_low_rows(a, heads, low, n_groups, n_lora_o, group_dim, low_dim, k, i).log,
            t.log.len() as int,
            a,
            heads,
            n_groups * group_dim,
            low_dim as int,
            j,
            low,
        ),
    decreases k - i,
{
    if i < k {
        let n = t.log.len() as int;
        let q = n_groups * group_dim;
        let u = t.attn_low_rows(a, heads, low, n_groups, n_lora_o, group_dim, low_dim, k, i);
        let b = t.attn_low_launch(
            Kernel::AttnOutLowQ8,
            a,
            (heads, (i * (n_groups * group_dim * 4)) as u64),
            (low, (i * (low_dim * 4)) as u64),
            n_groups,
            n_lora_o,
            group_dim,
            low_dim,
            n_groups,
        );
        lemma_tail(
            b.log,
            n,
            Kernel::AttnOutLowQ8,
            1,
            seq![
                Command::Buffer(1, a, 0),
                Command::Buffer(2, heads, (i * (n_groups * group_dim * 4)) as u64),
                Command::Buffer(3, low, (i * (low_dim * 4)) as u64),
            ],
            3,
        );
        assert(lowered_at(b.log, n, a, heads, q, low_dim as int, i, low));
        grew_itself(b.log);
        grows_attn_low_rows(
            b.log,
            b,
            a,
            heads,
            low,
            n_groups,
            n_lora_o,
            group_dim,
            low_dim,
            k,
            i + 1,
        );
        grew_itself(u.log);
        did_low_rows(b, a, heads, low, n_groups, n_lora_o, group_dim, low_dim, k, i + 1);
        broadcast use lemma_kept;

        assert forall|j: int| i <= j < k implies #[trigger] lowered_at(
            u.log,
            n,
            a,
            heads,
            q,
            low_dim as int,
            j,
            low,
        ) by {
            if j > i {
                assert(lowered_at(u.log, b.log.len() as int, a, heads, q, low_dim as int, j, low));
            } else {
                assert(lowered_at(b.log, n, a, heads, q, low_dim as int, i, low));
            }
        }
    }
}

pub(crate) proof fn did_grouped(
    t: Trace,
    w: DeferredBuf,
    x: DeferredBuf,
    group_dim: u64,
    n_lora_o: u64,
    n_groups: u64,
    k: u64,
)
    ensures
        ({
            let (u, r) = t.matmul_k_q8_0_grouped(w, x, group_dim, n_lora_o, n_groups, k);
            let out = r->Ok_0;
            r is Ok ==> product_of(
                u.log,
                t.log.len() as int,
                Kernel::MulMmQ8F32,
                w.buf,
                x.buf,
                out.buf,
            )
        }),
{
    broadcast use group_flow;

    grew_itself(t.log);
    reveal(Trace::matmul_k_q8_0_grouped);
    let (u, r) = t.matmul_k_q8_0_grouped(w, x, group_dim, n_lora_o, n_groups, k);
    if r is Ok {
        let out = r->Ok_0;
        lemma_tail(
            u.log,
            t.log.len() as int,
            Kernel::MulMmQ8F32,
            1,
            seq![
                Command::Buffer(1, w.buf, 0),
                Command::Buffer(2, x.buf, 0),
                Command::Buffer(3, out.buf, 0),
            ],
            3,
        );
    }
}

/// The output of several positions goes through both products in turn.
#[verifier::rlimit(60)]
pub proof fn law_outputs_flow(
    t: Trace,
    heads: DeferredBuf,
    a: DeferredBuf,
    b: DeferredBuf,
    n_groups: u64,
    n_lora_o: u64,
    group_dim: u64,
    low_dim: u64,
    d_embd: u64,
    k: u64,
)
    ensures
        ({
            let (u, r) = t.encode_attn_output_matmuls_q8_k(
                heads,
                a,
                b,
                n_groups,
                n_lora_o,
                group_dim,
                low_dim,
                d_embd,
                k,
            );
            let out = r->Ok_0;
            r is Ok && k > 0 ==> lowered(
                u.log,
                t.log.len() as int,
                a.buf,
                heads.buf,
                n_groups * group_dim,
                low_dim as int,
                k,
                out.0.buf,
            ) && projected(u.log, t.log.len() as int, b.buf, out.0.buf, out.1.buf)
        }),
{
    broadcast use group_flow;

    grew_itself(t.log);
    reveal(Trace::encode_attn_output_matmuls_q8_k);
    let (u, r) = t.encode_attn_output_matmuls_q8_k(
        heads,
        a,
        b,
        n_groups,
        n_lora_o,
        group_dim,
        low_dim,
        d_embd,
        k,
    );
    if r is Ok && k > 0 {
        let out = r->Ok_0;
        let from = t.log.len() as int;
        let q = n_groups * group_dim;
        let (c, low) = t.alloc_f32((k * low_dim) as u64);
        if t.config.attn_out_gemm && k > 8 {
            let (d, gm) = c.matmul_k_q8_0_grouped(a, heads, group_dim, n_lora_o, n_groups, k);
            let (e, il) = d.interleave_group_major(gm->Ok_0, n_groups, k, n_lora_o);
            let f = e.copy_buf_into(il, low.buf, 0);
            did_grouped(c, a, heads, group_dim, n_lora_o, n_groups, k);
            reveal(Trace::interleave_group_major);
            lemma_tail(
                e.log,
                d.log.len() as int,
                Kernel::InterleaveGroupMajor,
                0,
                seq![Command::Buffer(0, gm->Ok_0.buf, 0), Command::Buffer(1, il.buf, 0)],
                6,
            );
            grew_itself(d.log);
            grew_itself(e.log);
            grew_itself(f.log);
            assert(
                grew(
                    t.log,
                    d.log,
                ) && grew(
                    t.log,
                    f.log,
                ) && grew(
                    d.log,
                    u.log,
                ) && grew(e.log, u.log) && grew(f.log, u.log) && grew(t.log, e.log)
            ) by {
                broadcast use {
                    grows_matmul_k_q8_0_grouped,
                    grows_interleave_group_major,
                    grows_matmul_k_attn_proj,
                };
            }
            lemma_copied(f.log, from, il.buf, low.buf, f.log.len() - 2);
            law_projection_flow(f, b, low, low_dim, d_embd, k);
            grew_itself(u.log);
            projected_kept(u.log, u.log, f.log.len() as int, from, b.buf, low.buf, out.1.buf);
            broadcast use {lemma_kept, copied_kept};
        
            assert(product_of(u.log, from, Kernel::MulMmQ8F32, a.buf, heads.buf, gm->Ok_0.buf));
            assert(
                launched(
                    u.log,
                    from,
                    Kernel::InterleaveGroupMajor,
                    0,
                    seq![Command::Buffer(0, gm->Ok_0.buf, 0), Command::Buffer(1, il.buf, 0)],
                )
            );
            assert(copied(u.log, from, il.buf, low.buf));
        } else {
            let f = if t.config.attn_out_merge && t.engine.attn_out_low_k {
                c.attn_low_launch(
                    Kernel::AttnOutLowQ8K,
                    a.buf,
                    (heads.buf, 0),
                    (low.buf, 0),
                    n_groups,
                    n_lora_o,
                    group_dim,
                    low_dim,
                    (k * n_groups) as u64,
                )
            } else {
                c.attn_low_rows(
                    a.buf,
                    heads.buf,
                    low.buf,
                    n_groups,
                    n_lora_o,
                    group_dim,
                    low_dim,
                    k,
                    0,
                )
            };
            if t.config.attn_out_merge && t.engine.attn_out_low_k {
                lemma_tail(
                    f.log,
                    from,
                    Kernel::AttnOutLowQ8K,
                    1,
                    seq![
                        Command::Buffer(1, a.buf, 0),
                        Command::Buffer(2, heads.buf, 0),
                        Command::Buffer(3, low.buf, 0),
                    ],
                    3,
                );
                assert(lowered(f.log, from, a.buf, heads.buf, q, low_dim as int, k, low.buf));
            } else {
                did_low_rows(
                    c,
                    a.buf,
                    heads.buf,
                    low.buf,
                    n_groups,
                    n_lora_o,
                    group_dim,
                    low_dim,
                    k,
                    0,
                );
                assert(
                    lowered(
                        f.log,
                        c.log.len() as int,
                        a.buf,
                        heads.buf,
                        q,
                        low_dim as int,
                        k,
                        low.buf,
                    )
                );
                grew_itself(f.log);
                lowered_kept(
                    f.log,
                    f.log,
                    c.log.len() as int,
                    from,
                    a.buf,
                    heads.buf,
                    q,
                    low_dim as int,
                    k,
                    low.buf,
                );
            }
            law_projection_flow(f, b, low, low_dim, d_embd, k);
            grew_itself(f.log);
            grew_itself(u.log);
            assert(grew(t.log, f.log) && grew(f.log, u.log)) by {
                broadcast use {grows_attn_low_rows, grows_matmul_k_attn_proj};
            }
            lowered_kept(f.log, u.log, from, from, a.buf, heads.buf, q, low_dim as int, k, low.buf);
            projected_kept(u.log, u.log, f.log.len() as int, from, b.buf, low.buf, out.1.buf);
        }
    }
}

/// The normed row `x` gave a low-rank query, its norm, the query heads, their norm, and
/// the key-value row: two products in turn for the query, one for the row.
pub open spec fn queries_of(
    log: Seq<Command>,
    from: int,
    x: BufId,
    q_a: BufId,
    gamma_q: BufId,
    q_b: BufId,
    kv: BufId,
    head_dim: u64,
    eps: F32,
    outs: (BufId, BufId, BufId),
) -> bool {
    &&& exists|qr: BufId| #[trigger] projected(log, from, q_a, x, qr) && normed(
        log,
        from,
        qr,
        gamma_q,
        eps,
        outs.0,
    )
    &&& exists|heads: BufId| #[trigger] projected(log, from, q_b, outs.0, heads) && heads_normed(
        log,
        from,
        heads,
        head_dim,
        eps,
        outs.1,
    )
    &&& projected(log, from, kv, x, outs.2)
}

pub(crate) proof fn queries_of_is(
    log: Seq<Command>,
    from: int,
    x: BufId,
    q_a: BufId,
    gamma_q: BufId,
    q_b: BufId,
    kv: BufId,
    head_dim: u64,
    eps: F32,
    outs: (BufId, BufId, BufId),
    qr: BufId,
    heads: BufId,
)
    requires
        projected(log, from, q_a, x, qr),
        normed(log, from, qr, gamma_q, eps, outs.0),
        projected(log, from, q_b, outs.0, heads),
        heads_normed(log, from, heads, head_dim, eps, outs.1),
        projected(log, from, kv, x, outs.2),
    ensures
        queries_of(log, from, x, q_a, gamma_q, q_b, kv, head_dim, eps, outs),
{
}

pub(crate) proof fn queries_of_kept(
    a: Seq<Command>,
    b: Seq<Command>,
    from: int,
    earlier: int,
    x: BufId,
    q_a: BufId,
    gamma_q: BufId,
    q_b: BufId,
    kv: BufId,
    head_dim: u64,
    eps: F32,
    outs: (BufId, BufId, BufId),
)
    requires
        queries_of(a, from, x, q_a, gamma_q, q_b, kv, head_dim, eps, outs),
        grew(a, b),
        earlier <= from,
    ensures
        queries_of(b, earlier, x, q_a, gamma_q, q_b, kv, head_dim, eps, outs),
{
    let qr = choose|qr: BufId| #[trigger] projected(a, from, q_a, x, qr) && normed(
        a,
        from,
        qr,
        gamma_q,
        eps,
        outs.0,
    );
    let heads = choose|heads: BufId|
        #[trigger] projected(a, from, q_b, outs.0, heads) && heads_normed(
        a,
        from,
        heads,
        head_dim,
        eps,
        outs.1,
    );
    projected_kept(a, b, from, earlier, q_a, x, qr);
    projected_kept(a, b, from, earlier, q_b, outs.0, heads);
    projected_kept(a, b, from, earlier, kv, x, outs.2);
    broadcast use {lemma_kept, normed_kept};

    assert(normed(b, earlier, qr, gamma_q, eps, outs.0));
    assert(heads_normed(b, earlier, heads, head_dim, eps, outs.1));
}

/// Query and key-value row of several positions come from one normed row.
pub proof fn law_projections_flow(
    t: Trace,
    x: DeferredBuf,
    q_a: DeferredBuf,
    gamma_q: DeferredBuf,
    q_b: DeferredBuf,
    kv: DeferredBuf,
    n_lora_q: u64,
    n_head: u64,
    head_dim: u64,
    eps: F32,
    kv_row: u64,
    d_embd: u64,
    k: u64,
)
    ensures
        ({
            let (u, r) = t.encode_attn_qkv_chain_k(
                x,
                q_a,
                gamma_q,
                q_b,
                kv,
                n_lora_q,
                n_head,
                head_dim,
                eps,
                kv_row,
                d_embd,
                k,
            );
            let out = r->Ok_0;
            r is Ok && k > 0 ==> queries_of(
                u.log,
                t.log.len() as int,
                x.buf,
                q_a.buf,
                gamma_q.buf,
                q_b.buf,
                kv.buf,
                head_dim,
                eps,
                (out.0.buf, out.1.buf, out.2.buf),
            )
        }),
{
    broadcast use group_flow;

    grew_itself(t.log);
    reveal(Trace::encode_attn_qkv_chain_k);
    let (u, r) = t.encode_attn_qkv_chain_k(
        x,
        q_a,
        gamma_q,
        q_b,
        kv,
        n_lora_q,
        n_head,
        head_dim,
        eps,
        kv_row,
        d_embd,
        k,
    );
    if r is Ok && k > 0 {
        let out = r->Ok_0;
        let from = t.log.len() as int;
        let q_dim = (n_head * head_dim) as u64;
        let a0 = t.arm(PoolKey::AttnQr);
        let (a, qr) = a0.matmul_k_attn_proj(q_a, x, d_embd, n_lora_q, k);
        let b0 = a.arm(PoolKey::AttnQrNorm);
        let (b, qn) = b0.rms_norm_mul_k(qr->Ok_0, gamma_q, n_lora_q, k, eps);
        let c0 = b.arm(PoolKey::AttnQHeadsRaw);
        let (c, raw) = c0.matmul_k_attn_proj(q_b, qn->Ok_0, n_lora_q, q_dim, k);
        let d0 = c.arm(PoolKey::AttnQHeads);
        let (d, heads) = d0.head_rms_norm_k(raw->Ok_0, n_head, head_dim, k, eps);
        let e0 = d.arm(PoolKey::AttnKvRaw);
        law_projection_flow(a0, q_a, x, d_embd, n_lora_q, k);
        did_norms(b0, qr->Ok_0, gamma_q, n_lora_q, k, eps);
        law_projection_flow(c0, q_b, qn->Ok_0, n_lora_q, q_dim, k);
        did_head_norms(d0, raw->Ok_0, n_head, head_dim, k, eps);
        law_projection_flow(e0, kv, x, d_embd, kv_row, k);
        grew_itself(a.log);
        grew_itself(b.log);
        grew_itself(c.log);
        grew_itself(d.log);
        grew_itself(u.log);
        assert(
            grew(
                t.log,
                a.log,
            ) && grew(
                t.log,
                b.log,
            ) && grew(
                t.log,
                c.log,
            ) && grew(
                t.log,
                d.log,
            ) && grew(
                a.log,
                u.log,
            ) && grew(b.log, u.log) && grew(c.log, u.log) && grew(d.log, u.log)
        ) by {
            broadcast use {grows_matmul_k_attn_proj, grows_rms_norm_mul_k, grows_head_rms_norm_k};
        }
        projected_kept(a.log, u.log, from, from, q_a.buf, x.buf, qr->Ok_0.buf);
        projected_kept(
            c.log,
            u.log,
            b.log.len() as int,
            from,
            q_b.buf,
            qn->Ok_0.buf,
            raw->Ok_0.buf,
        );
        projected_kept(u.log, u.log, d.log.len() as int, from, kv.buf, x.buf, out.2.buf);
        broadcast use {lemma_kept, normed_kept};
        
        assert(normed(u.log, from, qr->Ok_0.buf, gamma_q.buf, eps, out.0.buf));
        assert(heads_normed(u.log, from, raw->Ok_0.buf, head_dim, eps, out.1.buf));
        queries_of_is(
            u.log,
            from,
            x.buf,
            q_a.buf,
            gamma_q.buf,
            q_b.buf,
            kv.buf,
            head_dim,
            eps,
            (out.0.buf, out.1.buf, out.2.buf),
            qr->Ok_0.buf,
            raw->Ok_0.buf,
        );
    }
}

/// The buffers that the projections of the attention half of a layer are handed.
pub struct AttnBufs {
    pub hc_fn: BufId,
    pub hc_scale: BufId,
    pub hc_base: BufId,
    pub norm: BufId,
    pub unit: BufId,
    pub q_a: BufId,
    pub gamma_q: BufId,
    pub q_b: BufId,
    pub kv: BufId,
    pub gamma_kv: BufId,
}

/// What a recording shows of the projections of the attention half: the streams `prev`
/// are collapsed, and normed by the half's own norm; query and key-value row come from
/// the normed row; the row is normed and turned.
pub open spec fn queries_made(
    log: Seq<Command>,
    from: int,
    per_k: bool,
    b: AttnBufs,
    f: Fineness,
    prev: BufId,
    head_dim: u64,
    kv_row: u64,
    p: LayerParams,
    base: u32,
    k: u64,
    outs: (BufId, BufId, BufId, BufId, BufId),
) -> bool {
    exists|row: BufId, raw: BufId|
        #![
            trigger collapsed(
                log,
                from,
                prev,
                b.hc_fn,
                b.hc_scale,
                b.hc_base,
                b.norm,
                b.unit,
                f,
                (outs.1, row, outs.0),
            ),
            normed(log, from, raw, b.gamma_kv, f.rms_eps, outs.4),
        ]
        {
            &&& collapsed(
                log,
                from,
                prev,
                b.hc_fn,
                b.hc_scale,
                b.hc_base,
                b.norm,
                b.unit,
                f,
                (outs.1, row, outs.0),
            )
            &&& queries_of(
                log,
                from,
                outs.0,
                b.q_a,
                b.gamma_q,
                b.q_b,
                b.kv,
                head_dim,
                f.rms_eps,
                (outs.2, outs.3, raw),
            )
            &&& normed(log, from, raw, b.gamma_kv, f.rms_eps, outs.4)
            &&& rows_turned(log, from, per_k, outs.4, kv_row, p, base, k)
        }
}

pub(crate) proof fn queries_made_is(
    log: Seq<Command>,
    from: int,
    per_k: bool,
    b: AttnBufs,
    f: Fineness,
    prev: BufId,
    head_dim: u64,
    kv_row: u64,
    p: LayerParams,
    base: u32,
    k: u64,
    outs: (BufId, BufId, BufId, BufId, BufId),
    row: BufId,
    raw: BufId,
)
    requires
        collapsed(
            log,
            from,
            prev,
            b.hc_fn,
            b.hc_scale,
            b.hc_base,
            b.norm,
            b.unit,
            f,
            (outs.1, row, outs.0),
        ),
        queries_of(
            log,
            from,
            outs.0,
            b.q_a,
            b.gamma_q,
            b.q_b,
            b.kv,
            head_dim,
            f.rms_eps,
            (outs.2, outs.3, raw),
        ),
        normed(log, from, raw, b.gamma_kv, f.rms_eps, outs.4),
        rows_turned(log, from, per_k, outs.4, kv_row, p, base, k),
    ensures
        queries_made(log, from, per_k, b, f, prev, head_dim, kv_row, p, base, k, outs),
{
}

pub(crate) proof fn queries_made_kept(
    l: Seq<Command>,
    m: Seq<Command>,
    from: int,
    earlier: int,
    per_k: bool,
    b: AttnBufs,
    f: Fineness,
    prev: BufId,
    head_dim: u64,
    kv_row: u64,
    p: LayerParams,
    base: u32,
    k: u64,
    outs: (BufId, BufId, BufId, BufId, BufId),
)
    requires
        queries_made(l, from, per_k, b, f, prev, head_dim, kv_row, p, base, k, outs),
        grew(l, m),
        earlier <= from,
    ensures
        queries_made(m, earlier, per_k, b, f, prev, head_dim, kv_row, p, base, k, outs),
{
    let (row, raw) = choose|row: BufId, raw: BufId|
        #![
            trigger collapsed(
                l,
                from,
                prev,
                b.hc_fn,
                b.hc_scale,
                b.hc_base,
                b.norm,
                b.unit,
                f,
                (outs.1, row, outs.0),
            ),
            normed(l, from, raw, b.gamma_kv, f.rms_eps, outs.4),
        ]
        {
            &&& collapsed(
                l,
                from,
                prev,
                b.hc_fn,
                b.hc_scale,
                b.hc_base,
                b.norm,
                b.unit,
                f,
                (outs.1, row, outs.0),
            )
            &&& queries_of(
                l,
                from,
                outs.0,
                b.q_a,
                b.gamma_q,
                b.q_b,
                b.kv,
                head_dim,
                f.rms_eps,
                (outs.2, outs.3, raw),
            )
            &&& normed(l, from, raw, b.gamma_kv, f.rms_eps, outs.4)
            &&& rows_turned(l, from, per_k, outs.4, kv_row, p, base, k)
        };
    collapsed_kept(
        l,
        m,
        from,
        earlier,
        prev,
        b.hc_fn,
        b.hc_scale,
        b.hc_base,
        b.norm,
        b.unit,
        f,
        (outs.1, row, outs.0),
    );
    queries_of_kept(
        l,
        m,
        from,
        earlier,
        outs.0,
        b.q_a,
        b.gamma_q,
        b.q_b,
        b.kv,
        head_dim,
        f.rms_eps,
        (outs.2, outs.3, raw),
    );
    rows_turned_kept(l, m, from, earlier, per_k, outs.4, kv_row, p, base, k);
    assert(normed(m, earlier, raw, b.gamma_kv, f.rms_eps, outs.4)) by {
        broadcast use normed_kept;
    }
    queries_made_is(m, earlier, per_k, b, f, prev, head_dim, kv_row, p, base, k, outs, row, raw);
}

/// The projections of several positions follow their flow.
pub proof fn law_queries_flow(
    t: Trace,
    prev: DeferredBuf,
    w: AttnWeights,
    shape: AttnShape,
    p: LayerParams,
    base: u32,
    k: u64,
    half: bool,
)
    ensures
        ({
            let (u, r) = t.encode_layer_attn_half_k(prev, w, shape, p, base, k, half);
            let h = r->Ok_0;
            let b = AttnBufs {
                hc_fn: w.hc_fn.buf,
                hc_scale: w.hc_scale.buf,
                hc_base: w.hc_base.buf,
                norm: w.hc_norm_gamma.buf,
                unit: w.unit_gamma_hc.buf,
                q_a: w.q_a.buf,
                gamma_q: w.gamma_q.buf,
                q_b: w.q_b.buf,
                kv: w.kv.buf,
                gamma_kv: w.gamma_kv.buf,
            };
            let f = Fineness {
                n_hc: shape.n_hc,
                n_embd: shape.n_embd,
                iters: shape.sinkhorn_iters,
                hc_eps: shape.hc_eps,
                rms_eps: shape.rms_eps,
            };
            r is Ok && k > 0 ==> queries_made(
                u.log,
                t.log.len() as int,
                t.config.rope_per_k,
                b,
                f,
                prev.buf,
                shape.head_dim,
                shape.kv_row,
                p,
                base,
                k,
                (
                    h.normed_k.buf,
                    h.split_k.buf,
                    h.qr_normed_k.buf,
                    h.q_heads_k.buf,
                    h.kv_normed_rotated_k.buf,
                ),
            )
        }),
{
    broadcast use group_flow;

    grew_itself(t.log);
    reveal(Trace::encode_layer_attn_half_k);
    let (u, r) = t.encode_layer_attn_half_k(prev, w, shape, p, base, k, half);
    if r is Ok && k > 0 {
        let from = t.log.len() as int;
        let h = r->Ok_0;
        let fine = t.config.profile_fine;
        let how = Fineness {
            n_hc: shape.n_hc,
            n_embd: shape.n_embd,
            iters: shape.sinkhorn_iters,
            hc_eps: shape.hc_eps,
            rms_eps: shape.rms_eps,
        };
        let bufs = AttnBufs {
            hc_fn: w.hc_fn.buf,
            hc_scale: w.hc_scale.buf,
            hc_base: w.hc_base.buf,
            norm: w.hc_norm_gamma.buf,
            unit: w.unit_gamma_hc.buf,
            q_a: w.q_a.buf,
            gamma_q: w.gamma_q.buf,
            q_b: w.q_b.buf,
            kv: w.kv.buf,
            gamma_kv: w.gamma_kv.buf,
        };
        let a0 = t.arm(PoolKey::HcAttnNormed);
        let (a, col) = a0.hc_collapse_norm_k(
            prev,
            w.hc_fn,
            w.hc_scale,
            w.hc_base,
            w.hc_norm_gamma,
            shape.n_hc,
            shape.n_embd,
            shape.sinkhorn_iters,
            shape.hc_eps,
            shape.rms_eps,
            w.unit_gamma_hc,
            k,
            half,
        );
        let (split, row, x) = col->Ok_0;
        let b0 = a.stage_if(fine, Stage::AttnHcCollapseK);
        let (b, qkv) = b0.encode_attn_qkv_chain_k(
            x,
            w.q_a,
            w.gamma_q,
            w.q_b,
            w.kv,
            shape.n_lora_q,
            shape.n_head,
            shape.head_dim,
            shape.rms_eps,
            shape.kv_row,
            shape.n_embd,
            k,
        );
        let (qn, heads, raw) = qkv->Ok_0;
        let c0 = b.stage_if(fine, Stage::AttnQkvChainK).arm(PoolKey::AttnKvNorm);
        let (c, kn) = c0.rms_norm_mul_k(raw, w.gamma_kv, shape.kv_row, k, shape.rms_eps);
        let d0 = c.stage_if(fine, Stage::AttnKvRmsK);
        let (d, turn) = d0.rope_kv(kn->Ok_0, shape.kv_row, p, base, k);
        law_collapses_flow(
            a0,
            prev,
            w.hc_fn,
            w.hc_scale,
            w.hc_base,
            w.hc_norm_gamma,
            shape.n_hc,
            shape.n_embd,
            shape.sinkhorn_iters,
            shape.hc_eps,
            shape.rms_eps,
            w.unit_gamma_hc,
            k,
            half,
        );
        law_projections_flow(
            b0,
            x,
            w.q_a,
            w.gamma_q,
            w.q_b,
            w.kv,
            shape.n_lora_q,
            shape.n_head,
            shape.head_dim,
            shape.rms_eps,
            shape.kv_row,
            shape.n_embd,
            k,
        );
        did_norms(c0, raw, w.gamma_kv, shape.kv_row, k, shape.rms_eps);
        law_rows_turn(d0, kn->Ok_0, shape.kv_row, p, base, k);
        assert(alike(t, d0)) by {
            broadcast use {
                stays_hc_collapse_norm_k,
                stays_encode_attn_qkv_chain_k,
                stays_rms_norm_mul_k,
            };
        }
        grew_itself(a.log);
        grew_itself(b.log);
        grew_itself(c.log);
        grew_itself(d.log);
        assert(
            grew(
                t.log,
                b0.log,
            ) && grew(
                t.log,
                c0.log,
            ) && grew(
                t.log,
                d0.log,
            ) && grew(
                a.log,
                u.log,
            ) && grew(b.log, u.log) && grew(c.log, u.log) && grew(d.log, u.log)
        ) by {
            broadcast use {
                grows_hc_collapse_norm_k,
                grows_encode_attn_qkv_chain_k,
                grows_rms_norm_mul_k,
                grows_rope_kv,
            };
        }
        collapsed_kept(
            a.log,
            u.log,
            from,
            from,
            prev.buf,
            w.hc_fn.buf,
            w.hc_scale.buf,
            w.hc_base.buf,
            w.hc_norm_gamma.buf,
            w.unit_gamma_hc.buf,
            how,
            (split.buf, row.buf, x.buf),
        );
        queries_of_kept(
            b.log,
            u.log,
            b0.log.len() as int,
            from,
            x.buf,
            w.q_a.buf,
            w.gamma_q.buf,
            w.q_b.buf,
            w.kv.buf,
            shape.head_dim,
            shape.rms_eps,
            (qn.buf, heads.buf, raw.buf),
        );
        rows_turned_kept(
            d.log,
            u.log,
            d0.log.len() as int,
            from,
            t.config.rope_per_k,
            kn->Ok_0.buf,
            shape.kv_row,
            p,
            base,
            k,
        );
        assert(normed(u.log, from, raw.buf, w.gamma_kv.buf, shape.rms_eps, kn->Ok_0.buf)) by {
            broadcast use normed_kept;
        }
        queries_made_is(
            u.log,
            from,
            t.config.rope_per_k,
            bufs,
            how,
            prev.buf,
            shape.head_dim,
            shape.kv_row,
            p,
            base,
            k,
            (x.buf, split.buf, qn.buf, heads.buf, kn->Ok_0.buf),
            row.buf,
            raw.buf,
        );
    }
}

/// The buffers that the rest of the attention half of a layer is handed.
pub struct OutputBufs {
    pub o_a: BufId,
    pub o_b: BufId,
    pub sinks: BufId,
}

/// Where a step stands: its layer, first cache slot, first position, the end of its
/// attention window, and how many positions it has.
pub struct At {
    pub layer: u32,
    pub slot: u32,
    pub base: u32,
    pub window: u32,
    pub k: u64,
}

/// What a recording shows of the attention half after its projections: the key-value
/// rows are stored in the layer's cache; the query heads are turned by their positions
/// and attend to that cache; what they read is turned back, and goes through both
/// output products.
pub open spec fn attention_made(
    t: Trace,
    log: Seq<Command>,
    from: int,
    b: OutputBufs,
    at: At,
    p: LayerParams,
    n_head: u64,
    head_dim: u64,
    low_dim: u64,
    scale: F32,
    ring: (BufId, u32),
    heads: BufId,
    rows: BufId,
    out: BufId,
) -> bool {
    exists|read: BufId, low: BufId|
        #![
            trigger heads_turned(
                log,
                from,
                t.config.rope_per_k,
                read,
                n_head,
                head_dim,
                p,
                at.base,
                at.k,
                true,
            ),
            projected(log, from, b.o_b, low, out),
        ]
        {
            let cache = BufId::KvCache(at.layer);
            &&& stored(
                log,
                from,
                t.config.kv_merge == KvMerge::Kernel && t.has(Kernel::KvFp8StoreK),
                at.layer,
                rows,
                p,
                at.slot,
                at.k,
            )
            &&& heads_turned(
                log,
                from,
                t.config.rope_per_k,
                heads,
                n_head,
                head_dim,
                p,
                at.base,
                at.k,
                false,
            )
            &&& attended(
                log,
                from,
                heads,
                cache,
                read,
                scale,
                n_head,
                at.window,
                b.sinks,
                ring.0,
                ring.1,
            )
            &&& heads_turned(
                log,
                from,
                t.config.rope_per_k,
                read,
                n_head,
                head_dim,
                p,
                at.base,
                at.k,
                true,
            )
            &&& lowered(log, from, b.o_a, read, n_head * head_dim, low_dim as int, at.k, low)
            &&& projected(log, from, b.o_b, low, out)
        }
}

pub(crate) proof fn attention_made_is(
    t: Trace,
    log: Seq<Command>,
    from: int,
    b: OutputBufs,
    at: At,
    p: LayerParams,
    n_head: u64,
    head_dim: u64,
    low_dim: u64,
    scale: F32,
    ring: (BufId, u32),
    heads: BufId,
    rows: BufId,
    out: BufId,
    read: BufId,
    low: BufId,
)
    requires
        stored(
            log,
            from,
            t.config.kv_merge == KvMerge::Kernel && t.has(Kernel::KvFp8StoreK),
            at.layer,
            rows,
            p,
            at.slot,
            at.k,
        ),
        heads_turned(
            log,
            from,
            t.config.rope_per_k,
            heads,
            n_head,
            head_dim,
            p,
            at.base,
            at.k,
            false,
        ),
        attended(
            log,
            from,
            heads,
            BufId::KvCache(at.layer),
            read,
            scale,
            n_head,
            at.window,
            b.sinks,
            ring.0,
            ring.1,
        ),
        heads_turned(
            log,
            from,
            t.config.rope_per_k,
            read,
            n_head,
            head_dim,
            p,
            at.base,
            at.k,
            true,
        ),
        lowered(log, from, b.o_a, read, n_head * head_dim, low_dim as int, at.k, low),
        projected(log, from, b.o_b, low, out),
    ensures
        attention_made(
            t,
            log,
            from,
            b,
            at,
            p,
            n_head,
            head_dim,
            low_dim,
            scale,
            ring,
            heads,
            rows,
            out,
        ),
{
}

pub(crate) proof fn attention_made_kept(
    t: Trace,
    l: Seq<Command>,
    m: Seq<Command>,
    from: int,
    earlier: int,
    b: OutputBufs,
    at: At,
    p: LayerParams,
    n_head: u64,
    head_dim: u64,
    low_dim: u64,
    scale: F32,
    ring: (BufId, u32),
    heads: BufId,
    rows: BufId,
    out: BufId,
)
    requires
        attention_made(
            t,
            l,
            from,
            b,
            at,
            p,
            n_head,
            head_dim,
            low_dim,
            scale,
            ring,
            heads,
            rows,
            out,
        ),
        grew(l, m),
        earlier <= from,
    ensures
        attention_made(
            t,
            m,
            earlier,
            b,
            at,
            p,
            n_head,
            head_dim,
            low_dim,
            scale,
            ring,
            heads,
            rows,
            out,
        ),
{
    let cache = BufId::KvCache(at.layer);
    let merged = t.config.kv_merge == KvMerge::Kernel && t.has(Kernel::KvFp8StoreK);
    let per_k = t.config.rope_per_k;
    let (read, low) = choose|read: BufId, low: BufId|
        #![
            trigger heads_turned(l, from, per_k, read, n_head, head_dim, p, at.base, at.k, true),
            projected(l, from, b.o_b, low, out),
        ]
        {
            &&& stored(l, from, merged, at.layer, rows, p, at.slot, at.k)
            &&& heads_turned(l, from, per_k, heads, n_head, head_dim, p, at.base, at.k, false)
            &&& attended(
                l,
                from,
                heads,
                cache,
                read,
                scale,
                n_head,
                at.window,
                b.sinks,
                ring.0,
                ring.1,
            )
            &&& heads_turned(l, from, per_k, read, n_head, head_dim, p, at.base, at.k, true)
            &&& lowered(l, from, b.o_a, read, n_head * head_dim, low_dim as int, at.k, low)
            &&& projected(l, from, b.o_b, low, out)
        };
    stored_kept(l, m, from, earlier, merged, at.layer, rows, p, at.slot, at.k);
    heads_turned_kept(l, m, from, earlier, per_k, heads, n_head, head_dim, p, at.base, at.k, false);
    heads_turned_kept(l, m, from, earlier, per_k, read, n_head, head_dim, p, at.base, at.k, true);
    lowered_kept(l, m, from, earlier, b.o_a, read, n_head * head_dim, low_dim as int, at.k, low);
    projected_kept(l, m, from, earlier, b.o_b, low, out);
    assert(
        attended(m, earlier, heads, cache, read, scale, n_head, at.window, b.sinks, ring.0, ring.1)
    ) by {
        broadcast use lemma_kept;
    }
    attention_made_is(
        t,
        m,
        earlier,
        b,
        at,
        p,
        n_head,
        head_dim,
        low_dim,
        scale,
        ring,
        heads,
        rows,
        out,
        read,
        low,
    );
}

pub(crate) proof fn did_tail(
    t: Trace,
    half: LayerAttnHalfOutsK,
    shape: AttnShape,
    o: AttnOutput,
    place: Place,
    comp: Option<CompVerifyCtx>,
)
    ensures
        ({
            let (u, r) = t.attn_tail(half, shape, o, place, comp);
            let b = OutputBufs { o_a: o.w_o_a.buf, o_b: o.w_o_b.buf, sinks: o.sinks.buf };
            let at = At {
                layer: place.layer,
                slot: place.base_slot,
                base: place.base_pos,
                window: place.attn_base_pos,
                k: place.k,
            };
            r is Ok && place.k > 0 && shape.n_head * shape.head_dim == o.n_groups * o.group_dim ==> attention_made(
                t,
                u.log,
                t.log.len() as int,
                b,
                at,
                place.params,
                shape.n_head,
                shape.head_dim,
                o.out_low_dim,
                o.flash_scale,
                ring_of(
                    place.layer,
                    BufId::KvCache(place.layer),
                    place.params,
                    place.base_pos,
                    place.k,
                    comp,
                ),
                half.q_heads_k.buf,
                half.kv_normed_rotated_k.buf,
                r->Ok_0.buf,
            )
        }),
{
    broadcast use group_flow;

    grew_itself(t.log);
    reveal(Trace::attn_tail);
    let (u, r) = t.attn_tail(half, shape, o, place, comp);
    if r is Ok && place.k > 0 && shape.n_head * shape.head_dim == o.n_groups * o.group_dim {
        let from = t.log.len() as int;
        let bufs = OutputBufs { o_a: o.w_o_a.buf, o_b: o.w_o_b.buf, sinks: o.sinks.buf };
        let at = At {
            layer: place.layer,
            slot: place.base_slot,
            base: place.base_pos,
            window: place.attn_base_pos,
            k: place.k,
        };
        let k = place.k;
        let p = place.params;
        let per_k = t.config.rope_per_k;
        let merged = t.config.kv_merge == KvMerge::Kernel && t.has(Kernel::KvFp8StoreK);
        let q_dim = (shape.n_head * shape.head_dim) as u64;
        let a = t.dump_row(
            t.config.dump_normed_layer == Some(place.layer) && k >= 2,
            Stage::DumpNormedK,
            Dump::Normed,
            place.layer,
            half.normed_k.buf,
            shape.n_embd,
        );
        let (b, cache) = a.kv_fp8_store_persistent_k(
            place.layer,
            half.kv_normed_rotated_k,
            p,
            place.raw_cap,
            place.base_slot,
            k,
        );
        let (c, turn) = b.rope_tail_q_heads_in_place_k(
            half.q_heads_k,
            shape.n_head,
            shape.head_dim,
            p,
            place.base_pos,
            k,
            false,
        );
        let (d, flash) = c.attend(half, cache->Ok_0, shape, place, o.flash_scale, o.sinks, comp);
        let read = flash->Ok_0;
        let e = d.dump_row(
            t.config.dump_flash_layer == Some(place.layer),
            Stage::DumpFlashK,
            Dump::Flash,
            place.layer,
            read.buf,
            q_dim,
        );
        let (f, back) = e.rope_tail_q_heads_in_place_k(
            read,
            shape.n_head,
            shape.head_dim,
            p,
            place.base_pos,
            k,
            true,
        );
        let (g, outs) = f.encode_attn_output_matmuls_q8_k(
            read,
            o.w_o_a,
            o.w_o_b,
            o.n_groups,
            o.n_lora_o,
            o.group_dim,
            o.out_low_dim,
            shape.n_embd,
            k,
        );
        let (low, out) = outs->Ok_0;
        law_store_flow(
            a,
            place.layer,
            half.kv_normed_rotated_k,
            p,
            place.raw_cap,
            place.base_slot,
            k,
        );
        law_heads_turn(
            b,
            half.q_heads_k,
            shape.n_head,
            shape.head_dim,
            p,
            place.base_pos,
            k,
            false,
        );
        law_attend_flow(c, half, cache->Ok_0, shape, place, o.flash_scale, o.sinks, comp);
        law_heads_turn(e, read, shape.n_head, shape.head_dim, p, place.base_pos, k, true);
        law_outputs_flow(
            f,
            read,
            o.w_o_a,
            o.w_o_b,
            o.n_groups,
            o.n_lora_o,
            o.group_dim,
            o.out_low_dim,
            shape.n_embd,
            k,
        );
        assert(alike(t, a) && alike(t, b) && alike(t, e)) by {
            broadcast use {
                stays_kv_fp8_store_persistent_k,
                stays_rope_tail_q_heads_in_place_k,
                stays_attend,
            };
        }
        grew_itself(b.log);
        grew_itself(c.log);
        grew_itself(d.log);
        grew_itself(f.log);
        grew_itself(g.log);
        assert(
            grew(
                t.log,
                a.log,
            ) && grew(
                t.log,
                b.log,
            ) && grew(
                t.log,
                c.log,
            ) && grew(
                t.log,
                e.log,
            ) && grew(
                t.log,
                f.log,
            ) && grew(
                b.log,
                u.log,
            ) && grew(c.log, u.log) && grew(d.log, u.log) && grew(f.log, u.log)
        ) by {
            broadcast use {
                grows_kv_fp8_store_persistent_k,
                grows_rope_tail_q_heads_in_place_k,
                grows_attend,
                grows_encode_attn_output_matmuls_q8_k,
            };
        }
        stored_kept(
            b.log,
            u.log,
            a.log.len() as int,
            from,
            merged,
            place.layer,
            half.kv_normed_rotated_k.buf,
            p,
            place.base_slot,
            k,
        );
        heads_turned_kept(
            c.log,
            u.log,
            b.log.len() as int,
            from,
            per_k,
            half.q_heads_k.buf,
            shape.n_head,
            shape.head_dim,
            p,
            place.base_pos,
            k,
            false,
        );
        heads_turned_kept(
            f.log,
            u.log,
            e.log.len() as int,
            from,
            per_k,
            read.buf,
            shape.n_head,
            shape.head_dim,
            p,
            place.base_pos,
            k,
            true,
        );
        lowered_kept(
            u.log,
            u.log,
            f.log.len() as int,
            from,
            o.w_o_a.buf,
            read.buf,
            o.n_groups * o.group_dim,
            o.out_low_dim as int,
            k,
            low.buf,
        );
        projected_kept(u.log, u.log, f.log.len() as int, from, o.w_o_b.buf, low.buf, out.buf);
        let (ring, n) = ring_of(
            place.layer,
            BufId::KvCache(place.layer),
            p,
            place.base_pos,
            k,
            comp,
        );
        assert(
            attended(
                u.log,
                from,
                half.q_heads_k.buf,
                BufId::KvCache(place.layer),
                read.buf,
                o.flash_scale,
                shape.n_head,
                place.attn_base_pos,
                o.sinks.buf,
                ring,
                n,
            )
        ) by {
            broadcast use lemma_kept;
        }
        attention_made_is(
            t,
            u.log,
            from,
            bufs,
            at,
            p,
            shape.n_head,
            shape.head_dim,
            o.out_low_dim,
            o.flash_scale,
            ring_of(
                place.layer,
                BufId::KvCache(place.layer),
                place.params,
                place.base_pos,
                place.k,
                comp,
            ),
            half.q_heads_k.buf,
            half.kv_normed_rotated_k.buf,
            out.buf,
            read.buf,
            low.buf,
        );
    }
}

/// What a recording shows of the attention half of a layer, from the streams `prev` to
/// its block `out`: the projections, and what is made of them. Beside the block it
/// leaves the mixing weights `split` of its collapse.
pub open spec fn attn_half(
    t: Trace,
    log: Seq<Command>,
    from: int,
    b: AttnBufs,
    f: Fineness,
    o: OutputBufs,
    at: At,
    p: LayerParams,
    n_head: u64,
    head_dim: u64,
    kv_row: u64,
    low_dim: u64,
    scale: F32,
    ring: (BufId, u32),
    prev: BufId,
    split: BufId,
    out: BufId,
) -> bool {
    exists|x: BufId, qr: BufId, heads: BufId, rows: BufId|
        #![
            trigger queries_made(
                log,
                from,
                t.config.rope_per_k,
                b,
                f,
                prev,
                head_dim,
                kv_row,
                p,
                at.base,
                at.k,
                (x, split, qr, heads, rows),
            ),
        ]
        {
            &&& queries_made(
                log,
                from,
                t.config.rope_per_k,
                b,
                f,
                prev,
                head_dim,
                kv_row,
                p,
                at.base,
                at.k,
                (x, split, qr, heads, rows),
            )
            &&& attention_made(
                t,
                log,
                from,
                o,
                at,
                p,
                n_head,
                head_dim,
                low_dim,
                scale,
                ring,
                heads,
                rows,
                out,
            )
        }
}

pub(crate) proof fn attn_half_kept(
    t: Trace,
    l: Seq<Command>,
    m: Seq<Command>,
    from: int,
    earlier: int,
    b: AttnBufs,
    f: Fineness,
    o: OutputBufs,
    at: At,
    p: LayerParams,
    n_head: u64,
    head_dim: u64,
    kv_row: u64,
    low_dim: u64,
    scale: F32,
    ring: (BufId, u32),
    prev: BufId,
    split: BufId,
    out: BufId,
)
    requires
        attn_half(
            t,
            l,
            from,
            b,
            f,
            o,
            at,
            p,
            n_head,
            head_dim,
            kv_row,
            low_dim,
            scale,
            ring,
            prev,
            split,
            out,
        ),
        grew(l, m),
        earlier <= from,
    ensures
        attn_half(
            t,
            m,
            earlier,
            b,
            f,
            o,
            at,
            p,
            n_head,
            head_dim,
            kv_row,
            low_dim,
            scale,
            ring,
            prev,
            split,
            out,
        ),
{
    let per_k = t.config.rope_per_k;
    let (x, qr, heads, rows) = choose|x: BufId, qr: BufId, heads: BufId, rows: BufId|
        #![
            trigger queries_made(
                l,
                from,
                per_k,
                b,
                f,
                prev,
                head_dim,
                kv_row,
                p,
                at.base,
                at.k,
                (x, split, qr, heads, rows),
            ),
        ]
        {
            &&& queries_made(
                l,
                from,
                per_k,
                b,
                f,
                prev,
                head_dim,
                kv_row,
                p,
                at.base,
                at.k,
                (x, split, qr, heads, rows),
            )
            &&& attention_made(
                t,
                l,
                from,
                o,
                at,
                p,
                n_head,
                head_dim,
                low_dim,
                scale,
                ring,
                heads,
                rows,
                out,
            )
        };
    queries_made_kept(
        l,
        m,
        from,
        earlier,
        per_k,
        b,
        f,
        prev,
        head_dim,
        kv_row,
        p,
        at.base,
        at.k,
        (x, split, qr, heads, rows),
    );
    attention_made_kept(
        t,
        l,
        m,
        from,
        earlier,
        o,
        at,
        p,
        n_head,
        head_dim,
        low_dim,
        scale,
        ring,
        heads,
        rows,
        out,
    );
}

/// The attention half follows its flow: from the streams, collapsed by the half's own
/// weights and norm, over projections, cache, rotation and attention to the output
/// products. Its attention window ends at the position that it is given for that.
pub proof fn law_attention_flow(
    t: Trace,
    prev: DeferredBuf,
    w: AttnWeights,
    shape: AttnShape,
    o: AttnOutput,
    place: Place,
    comp: Option<CompVerifyCtx>,
)
    ensures
        ({
            let (u, r) = t.encode_attn_chain_k(prev, w, shape, o, place, comp);
            let b = AttnBufs {
                hc_fn: w.hc_fn.buf,
                hc_scale: w.hc_scale.buf,
                hc_base: w.hc_base.buf,
                norm: w.hc_norm_gamma.buf,
                unit: w.unit_gamma_hc.buf,
                q_a: w.q_a.buf,
                gamma_q: w.gamma_q.buf,
                q_b: w.q_b.buf,
                kv: w.kv.buf,
                gamma_kv: w.gamma_kv.buf,
            };
            let ob = OutputBufs { o_a: o.w_o_a.buf, o_b: o.w_o_b.buf, sinks: o.sinks.buf };
            let at = At {
                layer: place.layer,
                slot: place.base_slot,
                base: place.base_pos,
                window: place.attn_base_pos,
                k: place.k,
            };
            let f = Fineness {
                n_hc: shape.n_hc,
                n_embd: shape.n_embd,
                iters: shape.sinkhorn_iters,
                hc_eps: shape.hc_eps,
                rms_eps: shape.rms_eps,
            };
            r is Ok && place.k > 0 ==> attn_half(
                t,
                u.log,
                t.log.len() as int,
                b,
                f,
                ob,
                at,
                place.params,
                shape.n_head,
                shape.head_dim,
                shape.kv_row,
                o.out_low_dim,
                o.flash_scale,
                ring_of(
                    place.layer,
                    BufId::KvCache(place.layer),
                    place.params,
                    place.base_pos,
                    place.k,
                    comp,
                ),
                prev.buf,
                r->Ok_0.0.split_k.buf,
                r->Ok_0.1.buf,
            )
        }),
{
    grew_itself(t.log);
    reveal(Trace::encode_attn_chain_k);
    let (u, r) = t.encode_attn_chain_k(prev, w, shape, o, place, comp);
    if r is Ok && place.k > 0 {
        let from = t.log.len() as int;
        let b = AttnBufs {
            hc_fn: w.hc_fn.buf,
            hc_scale: w.hc_scale.buf,
            hc_base: w.hc_base.buf,
            norm: w.hc_norm_gamma.buf,
            unit: w.unit_gamma_hc.buf,
            q_a: w.q_a.buf,
            gamma_q: w.gamma_q.buf,
            q_b: w.q_b.buf,
            kv: w.kv.buf,
            gamma_kv: w.gamma_kv.buf,
        };
        let ob = OutputBufs { o_a: o.w_o_a.buf, o_b: o.w_o_b.buf, sinks: o.sinks.buf };
        let at = At {
            layer: place.layer,
            slot: place.base_slot,
            base: place.base_pos,
            window: place.attn_base_pos,
            k: place.k,
        };
        let f = Fineness {
            n_hc: shape.n_hc,
            n_embd: shape.n_embd,
            iters: shape.sinkhorn_iters,
            hc_eps: shape.hc_eps,
            rms_eps: shape.rms_eps,
        };
        let (a, half) = t.encode_layer_attn_half_k(
            prev,
            w,
            shape,
            place.params,
            place.base_pos,
            place.k,
            false,
        );
        let h = half->Ok_0;
        law_queries_flow(t, prev, w, shape, place.params, place.base_pos, place.k, false);
        did_tail(a, h, shape, o, place, comp);
        stays_encode_layer_attn_half_k(
            t,
            prev,
            w,
            shape,
            place.params,
            place.base_pos,
            place.k,
            false,
        );
        grew_itself(a.log);
        grew_itself(u.log);
        assert(grew(t.log, a.log) && grew(a.log, u.log)) by {
            broadcast use {grows_encode_layer_attn_half_k, grows_attn_tail};
        }
        broadcast use grew_len;

        queries_made_kept(
            a.log,
            u.log,
            from,
            from,
            t.config.rope_per_k,
            b,
            f,
            prev.buf,
            shape.head_dim,
            shape.kv_row,
            place.params,
            place.base_pos,
            place.k,
            (
                h.normed_k.buf,
                h.split_k.buf,
                h.qr_normed_k.buf,
                h.q_heads_k.buf,
                h.kv_normed_rotated_k.buf,
            ),
        );
        attention_made_kept(
            a,
            u.log,
            u.log,
            a.log.len() as int,
            from,
            ob,
            at,
            place.params,
            shape.n_head,
            shape.head_dim,
            o.out_low_dim,
            o.flash_scale,
            ring_of(
                place.layer,
                BufId::KvCache(place.layer),
                place.params,
                place.base_pos,
                place.k,
                comp,
            ),
            h.q_heads_k.buf,
            h.kv_normed_rotated_k.buf,
            r->Ok_0.1.buf,
        );
        attention_made_alike(
            a,
            t,
            u.log,
            from,
            ob,
            at,
            place.params,
            shape.n_head,
            shape.head_dim,
            o.out_low_dim,
            o.flash_scale,
            ring_of(
                place.layer,
                BufId::KvCache(place.layer),
                place.params,
                place.base_pos,
                place.k,
                comp,
            ),
            h.q_heads_k.buf,
            h.kv_normed_rotated_k.buf,
            r->Ok_0.1.buf,
        );
    }
}

pub(crate) proof fn attention_made_alike(
    a: Trace,
    t: Trace,
    log: Seq<Command>,
    from: int,
    b: OutputBufs,
    at: At,
    p: LayerParams,
    n_head: u64,
    head_dim: u64,
    low_dim: u64,
    scale: F32,
    ring: (BufId, u32),
    heads: BufId,
    rows: BufId,
    out: BufId,
)
    requires
        attention_made(
            a,
            log,
            from,
            b,
            at,
            p,
            n_head,
            head_dim,
            low_dim,
            scale,
            ring,
            heads,
            rows,
            out,
        ),
        alike(t, a),
    ensures
        attention_made(
            t,
            log,
            from,
            b,
            at,
            p,
            n_head,
            head_dim,
            low_dim,
            scale,
            ring,
            heads,
            rows,
            out,
        ),
{
}

pub(crate) proof fn attn_half_alike(
    a: Trace,
    t: Trace,
    log: Seq<Command>,
    from: int,
    b: AttnBufs,
    f: Fineness,
    o: OutputBufs,
    at: At,
    p: LayerParams,
    n_head: u64,
    head_dim: u64,
    kv_row: u64,
    low_dim: u64,
    scale: F32,
    ring: (BufId, u32),
    prev: BufId,
    split: BufId,
    out: BufId,
)
    requires
        attn_half(
            a,
            log,
            from,
            b,
            f,
            o,
            at,
            p,
            n_head,
            head_dim,
            kv_row,
            low_dim,
            scale,
            ring,
            prev,
            split,
            out,
        ),
        alike(t, a),
    ensures
        attn_half(
            t,
            log,
            from,
            b,
            f,
            o,
            at,
            p,
            n_head,
            head_dim,
            kv_row,
            low_dim,
            scale,
            ring,
            prev,
            split,
            out,
        ),
{
    let per_k = t.config.rope_per_k;
    let (x, qr, heads, rows) = choose|x: BufId, qr: BufId, heads: BufId, rows: BufId|
        #![
            trigger queries_made(
                log,
                from,
                per_k,
                b,
                f,
                prev,
                head_dim,
                kv_row,
                p,
                at.base,
                at.k,
                (x, split, qr, heads, rows),
            ),
        ]
        {
            &&& queries_made(
                log,
                from,
                per_k,
                b,
                f,
                prev,
                head_dim,
                kv_row,
                p,
                at.base,
                at.k,
                (x, split, qr, heads, rows),
            )
            &&& attention_made(
                a,
                log,
                from,
                o,
                at,
                p,
                n_head,
                head_dim,
                low_dim,
                scale,
                ring,
                heads,
                rows,
                out,
            )
        };
    attention_made_alike(
        a,
        t,
        log,
        from,
        o,
        at,
        p,
        n_head,
        head_dim,
        low_dim,
        scale,
        ring,
        heads,
        rows,
        out,
    );
}

} // verus!
