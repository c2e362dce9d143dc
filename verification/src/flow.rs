//! What flows where: which result of a chain each later step reads. A chain is followed
//! along the launches of its recording, from the buffers that it is given to the
//! buffer that it returns.

use crate::binds::{grew_len, launched, lemma_kept, lemma_tail};
use crate::command::{Args, BufId, Command, DeferredBuf, F32, HcSplitArgs, HostRef, NormArgs, Stage};
use crate::config::MtpDraftInputMix;
use crate::growth::{
    grew, grew_itself, grew_push, grows_alloc_attn_out, grows_cast_f32_to_f16_contig,
    grows_encode_mul_mm_id_iq2_pair_swiglu_k, grows_encode_mul_mm_id_map0_k,
    grows_encode_mul_mm_id_qx_k, grows_encode_pair_swiglu_K_iq2_xxs,
    grows_encode_pair_swiglu_K_q4_K, grows_fused_hc_collapse_stage12, grows_glu_rows,
    grows_grouped_rows, grows_hc_collapse_norm, grows_hc_collapse_rows, grows_hc_rows,
    grows_hc_split_weighted_sum_norm4, grows_hc_split_weighted_sum_norm4_into_k,
    grows_keep_collapsed, grows_matmul_f16_k, grows_matmul_k_q8_0_auto, grows_matvec_f16,
    grows_matvec_f32, grows_matvec_f32_k, grows_matvec_k_q8_0, grows_matvec_q8_0,
    grows_moe_swiglu_weight_k, grows_mv_rows, grows_pooled_scratch_f32, grows_pooled_scratch_u16,
    grows_q8_rows, grows_rms_norm_mul, grows_rms_norm_mul_k, grows_softplus_sqrt, grows_sum6_down,
    grows_sum6_k,
};
use crate::hc::{Collapsed, hc_binds_at, mix_hc, spec_hc_args};
use crate::kernel::{Consts, Kernel, MmIdKernel, MmQuant, Pipe};
use crate::matmul::{spec_group_rows, spec_nsg_by_width, spec_nxpsg};
use crate::moe::{MmStage, inner_width, spec_stage};
use crate::pool::PoolKey;
use crate::trace::Trace;
use vstd::prelude::*;

verus! {

broadcast group group_flow {
    grew_push,
    grew_len,
    grows_alloc_attn_out,
    grows_pooled_scratch_f32,
    grows_pooled_scratch_u16,
}

/// The norm of `x` by `gamma`, kept from zero by `eps`, went to `out`.
pub open spec fn normed(
    log: Seq<Command>,
    from: int,
    x: BufId,
    gamma: BufId,
    eps: F32,
    out: BufId,
) -> bool {
    exists|n: NormArgs| #[trigger] normed_with(log, from, n, x, gamma, out) && n.eps == eps
}

/// [`normed`], with the numbers `n`.
pub open spec fn normed_with(
    log: Seq<Command>,
    from: int,
    n: NormArgs,
    x: BufId,
    gamma: BufId,
    out: BufId,
) -> bool {
    launched(
        log,
        from,
        Kernel::RmsNormMul,
        0,
        seq![
            Command::Bytes(0, Args::Norm(n)),
            Command::Buffer(1, x, 0),
            Command::Buffer(2, gamma, 0),
            Command::Buffer(3, x, 0),
            Command::Buffer(4, out, 0),
        ],
    )
}

pub broadcast proof fn normed_kept(
    a: Seq<Command>,
    b: Seq<Command>,
    from: int,
    earlier: int,
    x: BufId,
    gamma: BufId,
    eps: F32,
    out: BufId,
)
    requires
        #[trigger] normed(a, from, x, gamma, eps, out),
        grew(a, b),
        earlier <= from,
    ensures
        #[trigger] normed(b, earlier, x, gamma, eps, out),
{
    let n = choose|n: NormArgs| #[trigger] normed_with(a, from, n, x, gamma, out) && n.eps == eps;
    lemma_kept(
        a,
        b,
        from,
        earlier,
        Kernel::RmsNormMul,
        0,
        seq![
            Command::Bytes(0, Args::Norm(n)),
            Command::Buffer(1, x, 0),
            Command::Buffer(2, gamma, 0),
            Command::Buffer(3, x, 0),
            Command::Buffer(4, out, 0),
        ],
    );
    assert(normed_with(b, earlier, n, x, gamma, out));
}

/// The norm of each head of `x`, of `head_dim` elements, kept from zero by `eps`, went
/// to `out`.
pub open spec fn heads_normed(
    log: Seq<Command>,
    from: int,
    x: BufId,
    head_dim: u64,
    eps: F32,
    out: BufId,
) -> bool {
    launched(
        log,
        from,
        Kernel::HeadRmsNorm,
        0,
        seq![
            Command::Buffer(0, x, 0),
            Command::Buffer(1, out, 0),
            Command::Bytes(2, Args::U32(head_dim as u32)),
            Command::Bytes(3, Args::F32(eps)),
        ],
    )
}

/// The matrix `w`, of whatever format the kernel takes, times `x` went to `out`.
pub open spec fn product_of(
    log: Seq<Command>,
    from: int,
    kernel: Kernel,
    w: BufId,
    x: BufId,
    out: BufId,
) -> bool {
    launched(
        log,
        from,
        kernel,
        1,
        seq![Command::Buffer(1, w, 0), Command::Buffer(2, x, 0), Command::Buffer(3, out, 0)],
    )
}

/// The Q8_0 matrix `w` times a few rows of `x` went to `out`.
pub open spec fn few_products_of(
    log: Seq<Command>,
    from: int,
    w: BufId,
    x: BufId,
    out: BufId,
) -> bool {
    launched(
        log,
        from,
        Kernel::MulMvKQ8,
        2,
        seq![Command::Buffer(2, w, 0), Command::Buffer(3, x, 0), Command::Buffer(4, out, 0)],
    )
}

/// Some bytes of `src` were copied into `dst`.
#[verifier::opaque]
pub open spec fn copied(log: Seq<Command>, from: int, src: BufId, dst: BufId) -> bool {
    exists|p: int|
        from <= p < log.len() && 0 <= p && (
            #[trigger] log[p] matches Command::Copy { src: s, dst: d, .. } && s == src && d == dst
        )
}

pub broadcast proof fn copied_kept(
    a: Seq<Command>,
    b: Seq<Command>,
    from: int,
    earlier: int,
    src: BufId,
    dst: BufId,
)
    requires
        #[trigger] copied(a, from, src, dst),
        grew(a, b),
        earlier <= from,
    ensures
        #[trigger] copied(b, earlier, src, dst),
{
    reveal(copied);
    reveal(grew);
    let p = choose|p: int|
        from <= p < a.len() && 0 <= p && (
            #[trigger] a[p] matches Command::Copy { src: s, dst: d, .. } && s == src && d == dst
        );
    assert(b[p] == a[p]);
}

pub(crate) proof fn lemma_copied(log: Seq<Command>, from: int, src: BufId, dst: BufId, p: int)
    requires
        from <= p < log.len(),
        0 <= p,
        log[p] matches Command::Copy { src: s, dst: d, .. } && s == src && d == dst,
    ensures
        copied(log, from, src, dst),
{
    reveal(copied);
}

/// The Q8_0 matrix `w` times the first row of `x`, cut out for it, went to the first
/// row of `out`.
pub open spec fn row_product_of(
    log: Seq<Command>,
    from: int,
    w: BufId,
    x: BufId,
    out: BufId,
) -> bool {
    exists|row: BufId, y: BufId|
        #![trigger copied(log, from, x, row), copied(log, from, y, out)]
        copied(log, from, x, row) && copied(log, from, y, out) && product_of(
            log,
            from,
            Kernel::MulMvQ8,
            w,
            row,
            y,
        )
}

/// One of the ways in which a Q8_0 matrix `w` times the rows of `x` goes to `out`: in
/// one launch for a few rows, or row by row.
pub open spec fn multiplied_few(
    log: Seq<Command>,
    from: int,
    w: BufId,
    x: BufId,
    out: BufId,
) -> bool {
    few_products_of(log, from, w, x, out) || row_product_of(log, from, w, x, out)
}

/// A group of rows of `x`, cut out for it, multiplied by the Q8_0 matrix `w`, went to
/// its rows of `out`.
pub open spec fn group_product_of(
    log: Seq<Command>,
    from: int,
    w: BufId,
    x: BufId,
    out: BufId,
) -> bool {
    exists|rows: BufId, y: BufId|
        #![trigger copied(log, from, x, rows), copied(log, from, y, out)]
        copied(log, from, x, rows) && copied(log, from, y, out) && multiplied_few(
            log,
            from,
            w,
            rows,
            y,
        )
}

/// A GEMM of `w` with `x`, or with the conversion of `x` to half precision, went to
/// `out`.
pub open spec fn gemm_of(log: Seq<Command>, from: int, w: BufId, x: BufId, out: BufId) -> bool {
    ||| product_of(log, from, Kernel::MulMmQ8F32, w, x, out)
    ||| exists|half: BufId|
        #![trigger product_of(log, from, Kernel::MulMmQ8F16, w, half, out)]
        product_of(log, from, Kernel::MulMmQ8F16, w, half, out) && launched(
            log,
            from,
            Kernel::CpyF32F16,
            1,
            seq![Command::Buffer(1, x, 0), Command::Buffer(2, half, 0)],
        )
}

/// One of the ways in which a Q8_0 matrix `w` times the rows of `x` goes to `out`.
pub open spec fn multiplied(log: Seq<Command>, from: int, w: BufId, x: BufId, out: BufId) -> bool {
    ||| multiplied_few(log, from, w, x, out)
    ||| gemm_of(log, from, w, x, out)
    ||| group_product_of(log, from, w, x, out)
}

/// [`multiplied`], or by the requantised copy of `w`.
pub open spec fn projected(log: Seq<Command>, from: int, w: BufId, x: BufId, out: BufId) -> bool {
    ||| multiplied(log, from, w, x, out)
    ||| exists|slot: u64| #[trigger] product_of(
        log,
        from,
        Kernel::MulMmQ4F32,
        BufId::Requant(slot),
        x,
        out,
    )
}

pub proof fn multiplied_few_kept(
    a: Seq<Command>,
    b: Seq<Command>,
    from: int,
    earlier: int,
    w: BufId,
    x: BufId,
    out: BufId,
)
    requires
        multiplied_few(a, from, w, x, out),
        grew(a, b),
        earlier <= from,
    ensures
        multiplied_few(b, earlier, w, x, out),
{
    broadcast use {copied_kept, lemma_kept};

    if row_product_of(a, from, w, x, out) {
        let (row, y) = choose|row: BufId, y: BufId|
            #![trigger copied(a, from, x, row), copied(a, from, y, out)]
            copied(a, from, x, row) && copied(a, from, y, out) && product_of(
                a,
                from,
                Kernel::MulMvQ8,
                w,
                row,
                y,
            );
        assert(
            copied(b, earlier, x, row) && copied(b, earlier, y, out) && product_of(
                b,
                earlier,
                Kernel::MulMvQ8,
                w,
                row,
                y,
            )
        );
    } else {
        assert(few_products_of(b, earlier, w, x, out));
    }
}

pub proof fn projected_kept(
    a: Seq<Command>,
    b: Seq<Command>,
    from: int,
    earlier: int,
    w: BufId,
    x: BufId,
    out: BufId,
)
    requires
        projected(a, from, w, x, out),
        grew(a, b),
        earlier <= from,
    ensures
        projected(b, earlier, w, x, out),
        multiplied(a, from, w, x, out) ==> multiplied(b, earlier, w, x, out),
{
    broadcast use {copied_kept, lemma_kept};

    if multiplied(a, from, w, x, out) {
        if multiplied_few(a, from, w, x, out) {
            multiplied_few_kept(a, b, from, earlier, w, x, out);
        } else if group_product_of(a, from, w, x, out) {
            let (rows, y) = choose|rows: BufId, y: BufId|
                #![trigger copied(a, from, x, rows), copied(a, from, y, out)]
                copied(a, from, x, rows) && copied(a, from, y, out) && multiplied_few(
                    a,
                    from,
                    w,
                    rows,
                    y,
                );
            multiplied_few_kept(a, b, from, earlier, w, rows, y);
            assert(copied(b, earlier, x, rows) && copied(b, earlier, y, out));
        } else if product_of(a, from, Kernel::MulMmQ8F32, w, x, out) {
            assert(product_of(b, earlier, Kernel::MulMmQ8F32, w, x, out));
        } else {
            let half = choose|half: BufId|
                #![trigger product_of(a, from, Kernel::MulMmQ8F16, w, half, out)]
                product_of(a, from, Kernel::MulMmQ8F16, w, half, out) && launched(
                    a,
                    from,
                    Kernel::CpyF32F16,
                    1,
                    seq![Command::Buffer(1, x, 0), Command::Buffer(2, half, 0)],
                );
            assert(
                product_of(b, earlier, Kernel::MulMmQ8F16, w, half, out) && launched(
                    b,
                    earlier,
                    Kernel::CpyF32F16,
                    1,
                    seq![Command::Buffer(1, x, 0), Command::Buffer(2, half, 0)],
                )
            );
        }
    } else {
        let slot = choose|slot: u64| #[trigger] product_of(
            a,
            from,
            Kernel::MulMmQ4F32,
            BufId::Requant(slot),
            x,
            out,
        );
        assert(product_of(b, earlier, Kernel::MulMmQ4F32, BufId::Requant(slot), x, out));
    }
}

pub(crate) proof fn did_norm(t: Trace, x: DeferredBuf, gamma: DeferredBuf, eps: F32)
    ensures
        ({
            let (u, r) = t.rms_norm_mul(x, gamma, eps);
            let out = r->Ok_0;
            r is Ok ==> normed(u.log, t.log.len() as int, x.buf, gamma.buf, eps, out.buf)
        }),
{
    broadcast use group_flow;

    grew_itself(t.log);
    reveal(Trace::rms_norm_mul);
    let (u, r) = t.rms_norm_mul(x, gamma, eps);
    if r is Ok {
        let out = r->Ok_0;
        let n = u.log[u.log.len() - 8]->Bytes_1->Norm_0;
        lemma_tail(
            u.log,
            t.log.len() as int,
            Kernel::RmsNormMul,
            0,
            seq![
                Command::Bytes(0, Args::Norm(n)),
                Command::Buffer(1, x.buf, 0),
                Command::Buffer(2, gamma.buf, 0),
                Command::Buffer(3, x.buf, 0),
                Command::Buffer(4, out.buf, 0),
            ],
            3,
        );
        assert(normed_with(u.log, t.log.len() as int, n, x.buf, gamma.buf, out.buf));
    }
}

pub(crate) proof fn did_norms(
    t: Trace,
    x: DeferredBuf,
    gamma: DeferredBuf,
    n: u64,
    k: u64,
    eps: F32,
)
    ensures
        ({
            let (u, r) = t.rms_norm_mul_k(x, gamma, n, k, eps);
            let out = r->Ok_0;
            r is Ok ==> normed(u.log, t.log.len() as int, x.buf, gamma.buf, eps, out.buf)
        }),
{
    broadcast use group_flow;

    grew_itself(t.log);
    reveal(Trace::rms_norm_mul_k);
    reveal(Trace::alloc_attn_out);
    let (u, r) = t.rms_norm_mul_k(x, gamma, n, k, eps);
    if r is Ok {
        let out = r->Ok_0;
        let n = u.log[u.log.len() - 8]->Bytes_1->Norm_0;
        lemma_tail(
            u.log,
            t.log.len() as int,
            Kernel::RmsNormMul,
            0,
            seq![
                Command::Bytes(0, Args::Norm(n)),
                Command::Buffer(1, x.buf, 0),
                Command::Buffer(2, gamma.buf, 0),
                Command::Buffer(3, x.buf, 0),
                Command::Buffer(4, out.buf, 0),
            ],
            3,
        );
        assert(normed_with(u.log, t.log.len() as int, n, x.buf, gamma.buf, out.buf));
    }
}

pub(crate) proof fn did_head_norm(t: Trace, x: DeferredBuf, n_head: u64, head_dim: u64, eps: F32)
    ensures
        ({
            let (u, r) = t.head_rms_norm(x, n_head, head_dim, eps);
            let out = r->Ok_0;
            r is Ok ==> heads_normed(u.log, t.log.len() as int, x.buf, head_dim, eps, out.buf)
        }),
{
    broadcast use group_flow;

    grew_itself(t.log);
    reveal(Trace::head_rms_norm);
    let (u, r) = t.head_rms_norm(x, n_head, head_dim, eps);
    if r is Ok {
        let out = r->Ok_0;
        lemma_tail(
            u.log,
            t.log.len() as int,
            Kernel::HeadRmsNorm,
            0,
            seq![
                Command::Buffer(0, x.buf, 0),
                Command::Buffer(1, out.buf, 0),
                Command::Bytes(2, Args::U32(head_dim as u32)),
                Command::Bytes(3, Args::F32(eps)),
            ],
            2,
        );
    }
}

pub(crate) proof fn did_head_norms(
    t: Trace,
    x: DeferredBuf,
    n_head: u64,
    head_dim: u64,
    k: u64,
    eps: F32,
)
    ensures
        ({
            let (u, r) = t.head_rms_norm_k(x, n_head, head_dim, k, eps);
            let out = r->Ok_0;
            r is Ok ==> heads_normed(u.log, t.log.len() as int, x.buf, head_dim, eps, out.buf)
        }),
{
    broadcast use group_flow;

    grew_itself(t.log);
    reveal(Trace::head_rms_norm_k);
    reveal(Trace::alloc_attn_out);
    let (u, r) = t.head_rms_norm_k(x, n_head, head_dim, k, eps);
    if r is Ok {
        let out = r->Ok_0;
        lemma_tail(
            u.log,
            t.log.len() as int,
            Kernel::HeadRmsNorm,
            0,
            seq![
                Command::Buffer(0, x.buf, 0),
                Command::Buffer(1, out.buf, 0),
                Command::Bytes(2, Args::U32(head_dim as u32)),
                Command::Bytes(3, Args::F32(eps)),
            ],
            2,
        );
    }
}

pub(crate) proof fn did_q8(t: Trace, w: DeferredBuf, x: DeferredBuf, d_in: u64, d_out: u64)
    ensures
        ({
            let (u, r) = t.matvec_q8_0(w, x, d_in, d_out);
            let out = r->Ok_0;
            r is Ok ==> product_of(
                u.log,
                t.log.len() as int,
                Kernel::MulMvQ8,
                w.buf,
                x.buf,
                out.buf,
            )
        }),
{
    broadcast use group_flow;

    grew_itself(t.log);
    reveal(Trace::matvec_q8_0);
    let (u, r) = t.matvec_q8_0(w, x, d_in, d_out);
    if r is Ok {
        let out = r->Ok_0;
        lemma_tail(
            u.log,
            t.log.len() as int,
            Kernel::MulMvQ8,
            1,
            seq![
                Command::Buffer(1, w.buf, 0),
                Command::Buffer(2, x.buf, 0),
                Command::Buffer(3, out.buf, 0),
            ],
            3,
        );
    }
}

pub(crate) proof fn did_f32(t: Trace, w: DeferredBuf, x: DeferredBuf, d_in: u64, d_out: u64)
    ensures
        ({
            let (u, r) = t.matvec_f32(w, x, d_in, d_out);
            let out = r->Ok_0;
            r is Ok ==> product_of(
                u.log,
                t.log.len() as int,
                Kernel::MulMvF32,
                w.buf,
                x.buf,
                out.buf,
            )
        }),
{
    broadcast use group_flow;

    grew_itself(t.log);
    reveal(Trace::matvec_f32);
    let (u, r) = t.matvec_f32(w, x, d_in, d_out);
    if r is Ok {
        let out = r->Ok_0;
        lemma_tail(
            u.log,
            t.log.len() as int,
            Kernel::MulMvF32,
            1,
            seq![
                Command::Buffer(1, w.buf, 0),
                Command::Buffer(2, x.buf, 0),
                Command::Buffer(3, out.buf, 0),
            ],
            3,
        );
    }
}

pub(crate) proof fn did_f16(t: Trace, w: DeferredBuf, x: DeferredBuf, d_in: u64, d_out: u64)
    ensures
        ({
            let (u, r) = t.matvec_f16(w, x, d_in, d_out);
            let out = r->Ok_0;
            r is Ok ==> product_of(
                u.log,
                t.log.len() as int,
                Kernel::MulMvF16,
                w.buf,
                x.buf,
                out.buf,
            )
        }),
{
    broadcast use group_flow;

    grew_itself(t.log);
    reveal(Trace::matvec_f16);
    let (u, r) = t.matvec_f16(w, x, d_in, d_out);
    if r is Ok {
        let out = r->Ok_0;
        lemma_tail(
            u.log,
            t.log.len() as int,
            Kernel::MulMvF16,
            1,
            seq![
                Command::Buffer(1, w.buf, 0),
                Command::Buffer(2, x.buf, 0),
                Command::Buffer(3, out.buf, 0),
            ],
            3,
        );
    }
}

pub(crate) proof fn did_f16_k(
    t: Trace,
    w: DeferredBuf,
    x: DeferredBuf,
    d_in: u64,
    d_out: u64,
    k: u64,
)
    ensures
        ({
            let (u, r) = t.matmul_f16_k(w, x, d_in, d_out, k);
            let out = r->Ok_0;
            r is Ok ==> product_of(
                u.log,
                t.log.len() as int,
                Kernel::MulMvF16,
                w.buf,
                x.buf,
                out.buf,
            )
        }),
{
    broadcast use group_flow;

    grew_itself(t.log);
    reveal(Trace::matmul_f16_k);
    let (u, r) = t.matmul_f16_k(w, x, d_in, d_out, k);
    if r is Ok {
        let out = r->Ok_0;
        lemma_tail(
            u.log,
            t.log.len() as int,
            Kernel::MulMvF16,
            1,
            seq![
                Command::Buffer(1, w.buf, 0),
                Command::Buffer(2, x.buf, 0),
                Command::Buffer(3, out.buf, 0),
            ],
            3,
        );
    }
}

pub(crate) proof fn did_f32_k(
    t: Trace,
    w: DeferredBuf,
    x: DeferredBuf,
    d_in: u64,
    d_out: u64,
    k: u64,
)
    ensures
        ({
            let (u, r) = t.matvec_f32_k(w, x, d_in, d_out, k);
            let out = r->Ok_0;
            r is Ok ==> product_of(
                u.log,
                t.log.len() as int,
                Kernel::MulMvF32,
                w.buf,
                x.buf,
                out.buf,
            )
        }),
{
    broadcast use group_flow;

    grew_itself(t.log);
    reveal(Trace::matvec_f32_k);
    let (u, r) = t.matvec_f32_k(w, x, d_in, d_out, k);
    if r is Ok {
        let out = r->Ok_0;
        lemma_tail(
            u.log,
            t.log.len() as int,
            Kernel::MulMvF32,
            1,
            seq![
                Command::Buffer(1, w.buf, 0),
                Command::Buffer(2, x.buf, 0),
                Command::Buffer(3, out.buf, 0),
            ],
            3,
        );
    }
}

pub(crate) proof fn did_cast(t: Trace, x: DeferredBuf, n: u64)
    ensures
        ({
            let (u, r) = t.cast_f32_to_f16_contig(x, n);
            let out = r->Ok_0;
            r is Ok ==> launched(
                u.log,
                t.log.len() as int,
                Kernel::CpyF32F16,
                1,
                seq![Command::Buffer(1, x.buf, 0), Command::Buffer(2, out.buf, 0)],
            )
        }),
{
    broadcast use group_flow;

    grew_itself(t.log);
    reveal(Trace::cast_f32_to_f16_contig);
    let (u, r) = t.cast_f32_to_f16_contig(x, n);
    if r is Ok {
        let out = r->Ok_0;
        lemma_tail(
            u.log,
            t.log.len() as int,
            Kernel::CpyF32F16,
            1,
            seq![Command::Buffer(1, x.buf, 0), Command::Buffer(2, out.buf, 0)],
            2,
        );
    }
}

pub(crate) proof fn did_few(t: Trace, w: DeferredBuf, x: DeferredBuf, d_in: u64, d_out: u64, k: u64)
    ensures
        ({
            let (u, r) = t.matvec_k_q8_0(w, x, d_in, d_out, k);
            let out = r->Ok_0;
            r is Ok && k > 0 ==> multiplied_few(u.log, t.log.len() as int, w.buf, x.buf, out.buf)
        }),
{
    broadcast use group_flow;

    grew_itself(t.log);
    reveal(Trace::matvec_k_q8_0);
    let (u, r) = t.matvec_k_q8_0(w, x, d_in, d_out, k);
    if r is Ok && k > 0 {
        let out = r->Ok_0;
        if t.config.q8_faithful {
            let (a, all) = t.alloc_f32((k * d_out) as u64);
            did_first_row(a, w, x, d_in, d_out, k, all);
            multiplied_few_kept(
                u.log,
                u.log,
                a.log.len() as int,
                t.log.len() as int,
                w.buf,
                x.buf,
                out.buf,
            );
        } else {
            lemma_tail(
                u.log,
                t.log.len() as int,
                Kernel::MulMvKQ8,
                2,
                seq![
                    Command::Buffer(2, w.buf, 0),
                    Command::Buffer(3, x.buf, 0),
                    Command::Buffer(4, out.buf, 0),
                ],
                3,
            );
        }
    }
}

pub(crate) proof fn did_first_row(
    t: Trace,
    w: DeferredBuf,
    x: DeferredBuf,
    d_in: u64,
    d_out: u64,
    k: u64,
    out: DeferredBuf,
)
    requires
        k > 0,
    ensures
        ({
            let (u, r) = t.q8_rows(w, x, d_in, d_out, k, out, 0);
            r is Ok ==> row_product_of(
                u.log,
                t.log.len() as int,
                w.buf,
                x.buf,
                out.buf,
            ) && grew(u.log, u.log)
        }),
{
    broadcast use {group_flow, copied_kept, lemma_kept, grows_matvec_q8_0, grows_q8_rows};

    grew_itself(t.log);
    let (u, r) = t.q8_rows(w, x, d_in, d_out, k, out, 0);
    grew_itself(u.log);
    if r is Ok {
        let (a, row) = t.slice_out_f32(x, 0, d_in);
        lemma_copied(a.log, t.log.len() as int, x.buf, row.buf, a.log.len() - 2);
        did_q8(a, w, row, d_in, d_out);
        let (b, y) = a.matvec_q8_0(w, row, d_in, d_out);
        let c = b.copy_buf_into(y->Ok_0, out.buf, 0);
        assert(grew(t.log, b.log));
        lemma_copied(c.log, t.log.len() as int, y->Ok_0.buf, out.buf, c.log.len() - 2);
        grew_itself(a.log);
        grew_itself(b.log);
        grew_itself(c.log);
        assert(u == c.q8_rows(w, x, d_in, d_out, k, out, 1).0);
        assert(grew(a.log, u.log) && grew(b.log, u.log) && grew(c.log, u.log));
        assert(copied(u.log, t.log.len() as int, x.buf, row.buf));
        assert(copied(u.log, t.log.len() as int, y->Ok_0.buf, out.buf));
        assert(product_of(u.log, t.log.len() as int, Kernel::MulMvQ8, w.buf, row.buf, y->Ok_0.buf));
    }
}

pub(crate) proof fn did_gemm(
    t: Trace,
    w: DeferredBuf,
    x: DeferredBuf,
    d_in: u64,
    d_out: u64,
    k: u64,
)
    ensures
        ({
            let (u, r) = t.matmul_k_q8_0(w, x, d_in, d_out, k);
            let out = r->Ok_0;
            r is Ok && k > 0 ==> multiplied(u.log, t.log.len() as int, w.buf, x.buf, out.buf)
        }),
{
    broadcast use group_flow;

    grew_itself(t.log);
    reveal(Trace::matmul_k_q8_0);
    reveal(Trace::alloc_attn_out);
    let (u, r) = t.matmul_k_q8_0(w, x, d_in, d_out, k);
    if r is Ok && k > 0 {
        let out = r->Ok_0;
        if t.config.q8_faithful {
            let (a, all) = t.alloc_f32((k * d_out) as u64);
            did_first_row(a, w, x, d_in, d_out, k, all);
            multiplied_few_kept(
                u.log,
                u.log,
                a.log.len() as int,
                t.log.len() as int,
                w.buf,
                x.buf,
                out.buf,
            );
        } else if t.config.attn_gemm_f16 {
            let rows = if t.config.mm_pad {
                (k + 31) / 32 * 32
            } else {
                k as int
            };
            let (a, padded) = t.alloc_attn_out((rows * d_out) as u64);
            did_cast(a, x, (k * d_in) as u64);
            let (b, half) = a.cast_f32_to_f16_contig(x, (k * d_in) as u64);
            grew_itself(b.log);
            assert(grew(b.log, u.log));
            grew_itself(a.log);
            assert(grew(a.log, b.log)) by {
                broadcast use grows_cast_f32_to_f16_contig;
            }
            lemma_kept(
                b.log,
                u.log,
                a.log.len() as int,
                t.log.len() as int,
                Kernel::CpyF32F16,
                1,
                seq![Command::Buffer(1, x.buf, 0), Command::Buffer(2, half->Ok_0.buf, 0)],
            );
            lemma_tail(
                u.log,
                t.log.len() as int,
                Kernel::MulMmQ8F16,
                1,
                seq![
                    Command::Buffer(1, w.buf, 0),
                    Command::Buffer(2, half->Ok_0.buf, 0),
                    Command::Buffer(3, out.buf, 0),
                ],
                3,
            );
            assert(
                product_of(
                    u.log,
                    t.log.len() as int,
                    Kernel::MulMmQ8F16,
                    w.buf,
                    half->Ok_0.buf,
                    out.buf,
                )
            );
        } else {
            lemma_tail(
                u.log,
                t.log.len() as int,
                Kernel::MulMmQ8F32,
                1,
                seq![
                    Command::Buffer(1, w.buf, 0),
                    Command::Buffer(2, x.buf, 0),
                    Command::Buffer(3, out.buf, 0),
                ],
                3,
            );
        }
    }
}

pub(crate) proof fn did_first_group(
    t: Trace,
    w: DeferredBuf,
    x: DeferredBuf,
    d_in: u64,
    d_out: u64,
    k: u64,
    out: DeferredBuf,
)
    requires
        k > 0,
    ensures
        ({
            let (u, r) = t.grouped_rows(w, x, d_in, d_out, k, out, 0);
            r is Ok ==> group_product_of(u.log, t.log.len() as int, w.buf, x.buf, out.buf)
        }),
{
    broadcast use {group_flow, copied_kept, grows_matvec_k_q8_0, grows_grouped_rows};

    grew_itself(t.log);
    let (u, r) = t.grouped_rows(w, x, d_in, d_out, k, out, 0);
    if r is Ok {
        let g = spec_group_rows(k as int);
        let (a, rows) = t.slice_out_f32(x, 0, (g * d_in) as u64);
        lemma_copied(a.log, t.log.len() as int, x.buf, rows.buf, a.log.len() - 2);
        did_few(a, w, rows, d_in, d_out, g);
        let (b, y) = a.matvec_k_q8_0(w, rows, d_in, d_out, g);
        let c = b.copy_buf_into(y->Ok_0, out.buf, 0);
        assert(grew(t.log, b.log));
        lemma_copied(c.log, t.log.len() as int, y->Ok_0.buf, out.buf, c.log.len() - 2);
        grew_itself(a.log);
        grew_itself(b.log);
        grew_itself(c.log);
        assert(u == c.grouped_rows(w, x, d_in, d_out, k, out, g as int).0);
        assert(grew(a.log, u.log) && grew(b.log, u.log) && grew(c.log, u.log));
        multiplied_few_kept(
            b.log,
            u.log,
            a.log.len() as int,
            t.log.len() as int,
            w.buf,
            rows.buf,
            y->Ok_0.buf,
        );
        assert(copied(u.log, t.log.len() as int, x.buf, rows.buf));
        assert(copied(u.log, t.log.len() as int, y->Ok_0.buf, out.buf));
    }
}

/// A product of several positions multiplies by the weights that it is given, whichever
/// kernels it is done by.
pub proof fn law_product_flow(
    t: Trace,
    w: DeferredBuf,
    x: DeferredBuf,
    d_in: u64,
    d_out: u64,
    k: u64,
)
    ensures
        ({
            let (u, r) = t.matmul_k_q8_0_auto(w, x, d_in, d_out, k);
            let out = r->Ok_0;
            r is Ok && k > 0 ==> multiplied(u.log, t.log.len() as int, w.buf, x.buf, out.buf)
        }),
{
    broadcast use group_flow;

    grew_itself(t.log);
    reveal(Trace::matmul_k_q8_0_auto);
    let (u, r) = t.matmul_k_q8_0_auto(w, x, d_in, d_out, k);
    if r is Ok && k > 0 {
        let out = r->Ok_0;
        if t.config.matmul_k_pertok && k > 4 {
            let (a, all) = t.disarm().alloc_f32((k * d_out) as u64);
            did_first_group(a, w, x, d_in, d_out, k, all);
            grew_itself(u.log);
            projected_kept(
                u.log,
                u.log,
                a.log.len() as int,
                t.log.len() as int,
                w.buf,
                x.buf,
                out.buf,
            );
        } else if k == 1 || k == 2 || k == 4 || (k == 8 && t.config.k8_matvec) {
            did_few(t.disarm(), w, x, d_in, d_out, k);
        } else {
            did_gemm(t, w, x, d_in, d_out, k);
        }
    }
}

pub(crate) proof fn did_q4_gemm(
    t: Trace,
    w: DeferredBuf,
    x: DeferredBuf,
    d_in: u64,
    d_out: u64,
    k: u64,
)
    ensures
        ({
            let (u, r) = t.matmul_k_q4_0(w, x, d_in, d_out, k);
            let out = r->Ok_0;
            r is Ok ==> product_of(
                u.log,
                t.log.len() as int,
                Kernel::MulMmQ4F32,
                w.buf,
                x.buf,
                out.buf,
            )
        }),
{
    broadcast use group_flow;

    grew_itself(t.log);
    reveal(Trace::matmul_k_q4_0);
    reveal(Trace::alloc_attn_out);
    let (u, r) = t.matmul_k_q4_0(w, x, d_in, d_out, k);
    if r is Ok {
        let out = r->Ok_0;
        lemma_tail(
            u.log,
            t.log.len() as int,
            Kernel::MulMmQ4F32,
            1,
            seq![
                Command::Buffer(1, w.buf, 0),
                Command::Buffer(2, x.buf, 0),
                Command::Buffer(3, out.buf, 0),
            ],
            3,
        );
    }
}

/// A projection multiplies by the weights that it is given, or by their requantised copy.
pub proof fn law_projection_flow(
    t: Trace,
    w: DeferredBuf,
    x: DeferredBuf,
    d_in: u64,
    d_out: u64,
    k: u64,
)
    ensures
        ({
            let (u, r) = t.matmul_k_attn_proj(w, x, d_in, d_out, k);
            let out = r->Ok_0;
            r is Ok && k > 0 ==> projected(u.log, t.log.len() as int, w.buf, x.buf, out.buf)
        }),
{
    broadcast use group_flow;

    grew_itself(t.log);
    reveal(Trace::matmul_k_attn_proj);
    let (u, r) = t.matmul_k_attn_proj(w, x, d_in, d_out, k);
    if r is Ok && k > 0 {
        let out = r->Ok_0;
        if t.config.attn_q4 {
            let (a, q) = t.requantized(w, d_in, d_out);
            reveal(Trace::requantized);
            did_q4_gemm(a, q, x, d_in, d_out, k);
            assert(grew(t.log, a.log));
            grew_itself(u.log);
            let slot = q.buf->Requant_0;
            assert(
                product_of(
                    u.log,
                    a.log.len() as int,
                    Kernel::MulMmQ4F32,
                    BufId::Requant(slot),
                    x.buf,
                    out.buf,
                )
            );
            projected_kept(
                u.log,
                u.log,
                a.log.len() as int,
                t.log.len() as int,
                w.buf,
                x.buf,
                out.buf,
            );
        } else {
            law_product_flow(t, w, x, d_in, d_out, k);
        }
    }
}

/// The buffers that the mix of the drafter's input is handed.
pub struct MixBufs {
    pub enorm: BufId,
    pub e_proj: BufId,
    pub hnorm: BufId,
    pub h_proj: BufId,
}

/// The embedding `token` was normed and projected by its own weights, the streams `prev`
/// by theirs, and the two projections, in this order, were mixed into `out`.
pub open spec fn mixed(
    log: Seq<Command>,
    from: int,
    b: MixBufs,
    token: BufId,
    prev: BufId,
    n_embd: u64,
    n_hc: u64,
    eps: F32,
    out: BufId,
) -> bool {
    exists|en: BufId, ep: BufId, hn: BufId, hp: BufId|
        #![
            trigger normed(log, from, token, b.enorm, eps, en),
            product_of(log, from, Kernel::MulMvQ8, b.e_proj, en, ep),
            normed(log, from, prev, b.hnorm, eps, hn),
            multiplied_few(log, from, b.h_proj, hn, hp),
        ]
        {
            &&& normed(log, from, token, b.enorm, eps, en)
            &&& product_of(log, from, Kernel::MulMvQ8, b.e_proj, en, ep)
            &&& normed(log, from, prev, b.hnorm, eps, hn)
            &&& multiplied_few(log, from, b.h_proj, hn, hp)
            &&& launched(
                log,
                from,
                Kernel::MtpInputMix,
                0,
                seq![
                    Command::Buffer(0, ep, 0),
                    Command::Buffer(1, hp, 0),
                    Command::Buffer(2, out, 0),
                    Command::Bytes(3, Args::U32(n_embd as u32)),
                    Command::Bytes(4, Args::U32(n_hc as u32)),
                ],
            )
        }
}

pub(crate) proof fn mixed_is(
    log: Seq<Command>,
    from: int,
    b: MixBufs,
    token: BufId,
    prev: BufId,
    n_embd: u64,
    n_hc: u64,
    eps: F32,
    out: BufId,
    en: BufId,
    ep: BufId,
    hn: BufId,
    hp: BufId,
)
    requires
        normed(log, from, token, b.enorm, eps, en),
        product_of(log, from, Kernel::MulMvQ8, b.e_proj, en, ep),
        normed(log, from, prev, b.hnorm, eps, hn),
        multiplied_few(log, from, b.h_proj, hn, hp),
        launched(
            log,
            from,
            Kernel::MtpInputMix,
            0,
            seq![
                Command::Buffer(0, ep, 0),
                Command::Buffer(1, hp, 0),
                Command::Buffer(2, out, 0),
                Command::Bytes(3, Args::U32(n_embd as u32)),
                Command::Bytes(4, Args::U32(n_hc as u32)),
            ],
        ),
    ensures
        mixed(log, from, b, token, prev, n_embd, n_hc, eps, out),
{
}

pub(crate) proof fn mixed_kept(
    l: Seq<Command>,
    m: Seq<Command>,
    from: int,
    earlier: int,
    b: MixBufs,
    token: BufId,
    prev: BufId,
    n_embd: u64,
    n_hc: u64,
    eps: F32,
    out: BufId,
)
    requires
        mixed(l, from, b, token, prev, n_embd, n_hc, eps, out),
        grew(l, m),
        earlier <= from,
    ensures
        mixed(m, earlier, b, token, prev, n_embd, n_hc, eps, out),
{
    let (en, ep, hn, hp) = choose|en: BufId, ep: BufId, hn: BufId, hp: BufId|
        #![
            trigger normed(l, from, token, b.enorm, eps, en),
            product_of(l, from, Kernel::MulMvQ8, b.e_proj, en, ep),
            normed(l, from, prev, b.hnorm, eps, hn),
            multiplied_few(l, from, b.h_proj, hn, hp),
        ]
        {
            &&& normed(l, from, token, b.enorm, eps, en)
            &&& product_of(l, from, Kernel::MulMvQ8, b.e_proj, en, ep)
            &&& normed(l, from, prev, b.hnorm, eps, hn)
            &&& multiplied_few(l, from, b.h_proj, hn, hp)
            &&& launched(
                l,
                from,
                Kernel::MtpInputMix,
                0,
                seq![
                    Command::Buffer(0, ep, 0),
                    Command::Buffer(1, hp, 0),
                    Command::Buffer(2, out, 0),
                    Command::Bytes(3, Args::U32(n_embd as u32)),
                    Command::Bytes(4, Args::U32(n_hc as u32)),
                ],
            )
        };
    multiplied_few_kept(l, m, from, earlier, b.h_proj, hn, hp);
    broadcast use {lemma_kept, normed_kept};

    assert(normed(m, earlier, token, b.enorm, eps, en));
    assert(product_of(m, earlier, Kernel::MulMvQ8, b.e_proj, en, ep));
    assert(normed(m, earlier, prev, b.hnorm, eps, hn));
    mixed_is(m, earlier, b, token, prev, n_embd, n_hc, eps, out, en, ep, hn, hp);
}

/// The drafter's input is the projected embedding and the projected streams, each of
/// the norm of what it projects: the mixing launch reads the very buffer that the
/// product with the first projection wrote, and the very one that the product with
/// the second wrote.
pub proof fn law_mix_flow(
    t: Trace,
    token: DeferredBuf,
    prev: DeferredBuf,
    mix: MtpDraftInputMix,
    n_embd: u64,
    n_hc: u64,
    eps: F32,
)
    ensures
        ({
            let (u, r) = t.encode_mtp_input_mix(token, prev, mix, n_embd, n_hc, eps);
            let from = t.log.len() as int;
            let b = MixBufs {
                enorm: mix.enorm_gamma.buf,
                e_proj: mix.e_proj_q8.buf,
                hnorm: mix.hnorm_gamma.buf,
                h_proj: mix.h_proj_q8.buf,
            };
            r is Ok ==> mixed(u.log, from, b, token.buf, prev.buf, n_embd, n_hc, eps, r->Ok_0.buf)
        }),
{
    broadcast use {
        group_flow,
        grows_rms_norm_mul,
        grows_matvec_q8_0,
        grows_rms_norm_mul_k,
        grows_matvec_k_q8_0,
    };

    grew_itself(t.log);
    reveal(Trace::encode_mtp_input_mix);
    let (u, r) = t.encode_mtp_input_mix(token, prev, mix, n_embd, n_hc, eps);
    let from = t.log.len() as int;
    if r is Ok {
        let (a, en) = t.rms_norm_mul(token, mix.enorm_gamma, eps);
        let (b, ep) = a.matvec_q8_0(mix.e_proj_q8, en->Ok_0, n_embd, n_embd);
        let (c, hn) = b.rms_norm_mul_k(prev, mix.hnorm_gamma, n_embd, n_hc, eps);
        let (d, hp) = c.matvec_k_q8_0(mix.h_proj_q8, hn->Ok_0, n_embd, n_embd, n_hc);
        did_norm(t, token, mix.enorm_gamma, eps);
        did_q8(a, mix.e_proj_q8, en->Ok_0, n_embd, n_embd);
        did_norms(b, prev, mix.hnorm_gamma, n_embd, n_hc, eps);
        did_few(c, mix.h_proj_q8, hn->Ok_0, n_embd, n_embd, n_hc);
        grew_itself(a.log);
        grew_itself(b.log);
        grew_itself(c.log);
        grew_itself(d.log);
        assert(
            grew(t.log, a.log) && grew(t.log, b.log) && grew(t.log, c.log) && grew(t.log, d.log)
        );
        assert(
            grew(a.log, u.log) && grew(b.log, u.log) && grew(c.log, u.log) && grew(d.log, u.log)
        );
        broadcast use {lemma_kept, normed_kept};

        assert(normed(u.log, from, token.buf, mix.enorm_gamma.buf, eps, en->Ok_0.buf));
        assert(
            product_of(u.log, from, Kernel::MulMvQ8, mix.e_proj_q8.buf, en->Ok_0.buf, ep->Ok_0.buf)
        );
        assert(normed(u.log, from, prev.buf, mix.hnorm_gamma.buf, eps, hn->Ok_0.buf));
        multiplied_few_kept(
            d.log,
            u.log,
            c.log.len() as int,
            from,
            mix.h_proj_q8.buf,
            hn->Ok_0.buf,
            hp->Ok_0.buf,
        );
        lemma_tail(
            u.log,
            from,
            Kernel::MtpInputMix,
            0,
            seq![
                Command::Buffer(0, ep->Ok_0.buf, 0),
                Command::Buffer(1, hp->Ok_0.buf, 0),
                Command::Buffer(2, r->Ok_0.buf, 0),
                Command::Bytes(3, Args::U32(n_embd as u32)),
                Command::Bytes(4, Args::U32(n_hc as u32)),
            ],
            2,
        );
        mixed_is(
            u.log,
            from,
            MixBufs {
                enorm: mix.enorm_gamma.buf,
                e_proj: mix.e_proj_q8.buf,
                hnorm: mix.hnorm_gamma.buf,
                h_proj: mix.h_proj_q8.buf,
            },
            token.buf,
            prev.buf,
            n_embd,
            n_hc,
            eps,
            r->Ok_0.buf,
            en->Ok_0.buf,
            ep->Ok_0.buf,
            hn->Ok_0.buf,
            hp->Ok_0.buf,
        );
    }
}

/// How a collapse is done: over how many streams of how many elements, in how many
/// rounds, and by what its sums and its norms are kept from zero.
pub struct Fineness {
    pub n_hc: u64,
    pub n_embd: u64,
    pub iters: i32,
    pub hc_eps: F32,
    pub rms_eps: F32,
}

/// The mixing logits of the streams `prev` went to `m`: one launch of norm and product,
/// or the norm by ones and the product with it.
pub open spec fn mixing_logits(
    log: Seq<Command>,
    from: int,
    prev: BufId,
    hc_fn: BufId,
    unit: BufId,
    dim: u64,
    eps: F32,
    m: BufId,
) -> bool {
    ||| launched(
        log,
        from,
        Kernel::HcCollapseMvF32,
        0,
        seq![
            Command::Buffer(0, hc_fn, 0),
            Command::Buffer(1, prev, 0),
            Command::Buffer(2, m, 0),
            Command::Bytes(3, Args::U32(dim as u32)),
            Command::Bytes(4, Args::F32(eps)),
        ],
    )
    ||| launched(
        log,
        from,
        Kernel::HcCollapseMvF16,
        0,
        seq![
            Command::Buffer(0, hc_fn, 0),
            Command::Buffer(1, prev, 0),
            Command::Buffer(2, m, 0),
            Command::Bytes(3, Args::U32(dim as u32)),
            Command::Bytes(4, Args::F32(eps)),
        ],
    )
    ||| exists|flat: BufId| #[trigger] normed(log, from, prev, unit, eps, flat) && (
        product_of(
            log,
            from,
            Kernel::MulMvF32,
            hc_fn,
            flat,
            m,
        ) || product_of(log, from, Kernel::MulMvF16, hc_fn, flat, m)
    )
}

/// By the mixing logits `m`, the streams `x` were split, summed and normed by `gamma`.
pub open spec fn split_by(
    log: Seq<Command>,
    from: int,
    m: BufId,
    scale: BufId,
    base: BufId,
    x: BufId,
    gamma: BufId,
    f: Fineness,
    outs: (BufId, BufId, BufId),
) -> bool {
    exists|n: HcSplitArgs| #[trigger] split_with(
        log,
        from,
        n,
        m,
        scale,
        base,
        x,
        gamma,
        outs,
    ) && n.n_hc == f.n_hc as i32 && n.n_embd == f.n_embd as i64 && n.sinkhorn_iters == f.iters
        && n.eps == f.hc_eps && n.norm_eps == f.rms_eps
}

/// [`split_by`], with the numbers `n`.
pub open spec fn split_with(
    log: Seq<Command>,
    from: int,
    n: HcSplitArgs,
    m: BufId,
    scale: BufId,
    base: BufId,
    x: BufId,
    gamma: BufId,
    outs: (BufId, BufId, BufId),
) -> bool {
    let s = seq![
        Command::Bytes(0, Args::HcSplit(n)),
        Command::Buffer(1, m, 0),
        Command::Buffer(2, scale, 0),
        Command::Buffer(3, base, 0),
        Command::Buffer(4, x, 0),
        Command::Buffer(5, outs.0, 0),
        Command::Buffer(6, outs.1, 0),
        Command::Buffer(7, gamma, 0),
        Command::Buffer(8, outs.2, 0),
    ];
    launched(log, from, Kernel::HcSplitNorm4, 0, s) || launched(
        log,
        from,
        Kernel::HcSplitNormAny,
        0,
        s,
    )
}

/// The streams `x` were collapsed into mixing weights, a row, and that row normed by
/// `gamma`.
pub open spec fn collapsed_at_once(
    log: Seq<Command>,
    from: int,
    x: BufId,
    hc_fn: BufId,
    scale: BufId,
    base: BufId,
    gamma: BufId,
    unit: BufId,
    f: Fineness,
    outs: (BufId, BufId, BufId),
) -> bool {
    exists|m: BufId| #[trigger] mixing_logits(
        log,
        from,
        x,
        hc_fn,
        unit,
        (f.n_hc * f.n_embd) as u64,
        f.rms_eps,
        m,
    ) && split_by(log, from, m, scale, base, x, gamma, f, outs)
}

/// [`collapsed_at_once`], or the first position cut out, collapsed, and its results put
/// into their rows.
pub open spec fn collapsed(
    log: Seq<Command>,
    from: int,
    x: BufId,
    hc_fn: BufId,
    scale: BufId,
    base: BufId,
    gamma: BufId,
    unit: BufId,
    f: Fineness,
    outs: (BufId, BufId, BufId),
) -> bool {
    ||| collapsed_at_once(log, from, x, hc_fn, scale, base, gamma, unit, f, outs)
    ||| exists|row: BufId, s: BufId, c: BufId, n: BufId|
        #![
            trigger copied(log, from, x, row),
            copied(log, from, s, outs.0),
            copied(log, from, c, outs.1),
            copied(log, from, n, outs.2),
        ]
        {
            &&& copied(log, from, x, row)
            &&& collapsed_at_once(log, from, row, hc_fn, scale, base, gamma, unit, f, (s, c, n))
            &&& copied(log, from, s, outs.0)
            &&& copied(log, from, c, outs.1)
            &&& copied(log, from, n, outs.2)
        }
}

pub(crate) proof fn collapsed_by_row(
    log: Seq<Command>,
    from: int,
    x: BufId,
    hc_fn: BufId,
    scale: BufId,
    base: BufId,
    gamma: BufId,
    unit: BufId,
    f: Fineness,
    outs: (BufId, BufId, BufId),
    row: BufId,
    s: BufId,
    c: BufId,
    n: BufId,
)
    requires
        copied(log, from, x, row),
        collapsed_at_once(log, from, row, hc_fn, scale, base, gamma, unit, f, (s, c, n)),
        copied(log, from, s, outs.0),
        copied(log, from, c, outs.1),
        copied(log, from, n, outs.2),
    ensures
        collapsed(log, from, x, hc_fn, scale, base, gamma, unit, f, outs),
{
}

pub(crate) proof fn mixing_kept(
    a: Seq<Command>,
    b: Seq<Command>,
    from: int,
    earlier: int,
    prev: BufId,
    hc_fn: BufId,
    unit: BufId,
    dim: u64,
    eps: F32,
    m: BufId,
)
    requires
        mixing_logits(a, from, prev, hc_fn, unit, dim, eps, m),
        grew(a, b),
        earlier <= from,
    ensures
        mixing_logits(b, earlier, prev, hc_fn, unit, dim, eps, m),
{
    broadcast use {lemma_kept, normed_kept};

    let s = seq![
        Command::Buffer(0, hc_fn, 0),
        Command::Buffer(1, prev, 0),
        Command::Buffer(2, m, 0),
        Command::Bytes(3, Args::U32(dim as u32)),
        Command::Bytes(4, Args::F32(eps)),
    ];
    if launched(a, from, Kernel::HcCollapseMvF32, 0, s) {
        assert(launched(b, earlier, Kernel::HcCollapseMvF32, 0, s));
    } else if launched(a, from, Kernel::HcCollapseMvF16, 0, s) {
        assert(launched(b, earlier, Kernel::HcCollapseMvF16, 0, s));
    } else {
        let flat = choose|flat: BufId| #[trigger] normed(a, from, prev, unit, eps, flat) && (
            product_of(
                a,
                from,
                Kernel::MulMvF32,
                hc_fn,
                flat,
                m,
            ) || product_of(a, from, Kernel::MulMvF16, hc_fn, flat, m)
        );
        assert(normed(b, earlier, prev, unit, eps, flat));
        if product_of(a, from, Kernel::MulMvF32, hc_fn, flat, m) {
            assert(product_of(b, earlier, Kernel::MulMvF32, hc_fn, flat, m));
        } else {
            assert(product_of(b, earlier, Kernel::MulMvF16, hc_fn, flat, m));
        }
    }
}

pub(crate) proof fn split_kept(
    a: Seq<Command>,
    b: Seq<Command>,
    from: int,
    earlier: int,
    m: BufId,
    scale: BufId,
    base: BufId,
    x: BufId,
    gamma: BufId,
    f: Fineness,
    outs: (BufId, BufId, BufId),
)
    requires
        split_by(a, from, m, scale, base, x, gamma, f, outs),
        grew(a, b),
        earlier <= from,
    ensures
        split_by(b, earlier, m, scale, base, x, gamma, f, outs),
{
    let n = choose|n: HcSplitArgs| #[trigger] split_with(
        a,
        from,
        n,
        m,
        scale,
        base,
        x,
        gamma,
        outs,
    ) && n.n_hc == f.n_hc as i32 && n.n_embd == f.n_embd as i64 && n.sinkhorn_iters == f.iters
        && n.eps == f.hc_eps && n.norm_eps == f.rms_eps;
    let s = seq![
        Command::Bytes(0, Args::HcSplit(n)),
        Command::Buffer(1, m, 0),
        Command::Buffer(2, scale, 0),
        Command::Buffer(3, base, 0),
        Command::Buffer(4, x, 0),
        Command::Buffer(5, outs.0, 0),
        Command::Buffer(6, outs.1, 0),
        Command::Buffer(7, gamma, 0),
        Command::Buffer(8, outs.2, 0),
    ];
    if launched(a, from, Kernel::HcSplitNorm4, 0, s) {
        lemma_kept(a, b, from, earlier, Kernel::HcSplitNorm4, 0, s);
    } else {
        lemma_kept(a, b, from, earlier, Kernel::HcSplitNormAny, 0, s);
    }
    assert(split_with(b, earlier, n, m, scale, base, x, gamma, outs));
}

pub(crate) proof fn collapsed_at_once_kept(
    a: Seq<Command>,
    b: Seq<Command>,
    from: int,
    earlier: int,
    x: BufId,
    hc_fn: BufId,
    scale: BufId,
    base: BufId,
    gamma: BufId,
    unit: BufId,
    f: Fineness,
    outs: (BufId, BufId, BufId),
)
    requires
        collapsed_at_once(a, from, x, hc_fn, scale, base, gamma, unit, f, outs),
        grew(a, b),
        earlier <= from,
    ensures
        collapsed_at_once(b, earlier, x, hc_fn, scale, base, gamma, unit, f, outs),
{
    let m = choose|m: BufId| #[trigger] mixing_logits(
        a,
        from,
        x,
        hc_fn,
        unit,
        (f.n_hc * f.n_embd) as u64,
        f.rms_eps,
        m,
    ) && split_by(a, from, m, scale, base, x, gamma, f, outs);
    mixing_kept(a, b, from, earlier, x, hc_fn, unit, (f.n_hc * f.n_embd) as u64, f.rms_eps, m);
    split_kept(a, b, from, earlier, m, scale, base, x, gamma, f, outs);
}

pub(crate) proof fn collapsed_kept(
    a: Seq<Command>,
    b: Seq<Command>,
    from: int,
    earlier: int,
    x: BufId,
    hc_fn: BufId,
    scale: BufId,
    base: BufId,
    gamma: BufId,
    unit: BufId,
    f: Fineness,
    outs: (BufId, BufId, BufId),
)
    requires
        collapsed(a, from, x, hc_fn, scale, base, gamma, unit, f, outs),
        grew(a, b),
        earlier <= from,
    ensures
        collapsed(b, earlier, x, hc_fn, scale, base, gamma, unit, f, outs),
{
    broadcast use copied_kept;

    if collapsed_at_once(a, from, x, hc_fn, scale, base, gamma, unit, f, outs) {
        collapsed_at_once_kept(a, b, from, earlier, x, hc_fn, scale, base, gamma, unit, f, outs);
    } else {
        let (row, s, c, n) = choose|row: BufId, s: BufId, c: BufId, n: BufId|
            #![
                trigger copied(a, from, x, row),
                copied(a, from, s, outs.0),
                copied(a, from, c, outs.1),
                copied(a, from, n, outs.2),
            ]
            {
                &&& copied(a, from, x, row)
                &&& collapsed_at_once(a, from, row, hc_fn, scale, base, gamma, unit, f, (s, c, n))
                &&& copied(a, from, s, outs.0)
                &&& copied(a, from, c, outs.1)
                &&& copied(a, from, n, outs.2)
            };
        collapsed_at_once_kept(
            a,
            b,
            from,
            earlier,
            row,
            hc_fn,
            scale,
            base,
            gamma,
            unit,
            f,
            (s, c, n),
        );
        assert(
            copied(b, earlier, x, row) && copied(
                b,
                earlier,
                s,
                outs.0,
            ) && copied(b, earlier, c, outs.1) && copied(b, earlier, n, outs.2)
        );
    }
}

pub(crate) proof fn did_split(
    t: Trace,
    m: DeferredBuf,
    scale: DeferredBuf,
    base: DeferredBuf,
    x: DeferredBuf,
    gamma: DeferredBuf,
    n_hc: u64,
    n_embd: u64,
    iters: i32,
    hc_eps: F32,
    rms_eps: F32,
)
    ensures
        ({
            let (u, r) = t.hc_split_weighted_sum_norm4(
                m,
                scale,
                base,
                x,
                gamma,
                n_hc,
                n_embd,
                iters,
                hc_eps,
                rms_eps,
            );
            let out = r->Ok_0;
            r is Ok ==> split_by(
                u.log,
                t.log.len() as int,
                m.buf,
                scale.buf,
                base.buf,
                x.buf,
                gamma.buf,
                Fineness { n_hc, n_embd, iters, hc_eps, rms_eps },
                (out.0.buf, out.1.buf, out.2.buf),
            )
        }),
{
    broadcast use group_flow;

    grew_itself(t.log);
    reveal(Trace::hc_split_weighted_sum_norm4);
    let (u, r) = t.hc_split_weighted_sum_norm4(
        m,
        scale,
        base,
        x,
        gamma,
        n_hc,
        n_embd,
        iters,
        hc_eps,
        rms_eps,
    );
    if r is Ok {
        let out = r->Ok_0;
        let n = u.log[u.log.len() - 12]->Bytes_1->HcSplit_0;
        lemma_tail(
            u.log,
            t.log.len() as int,
            if n_embd == 4096 { Kernel::HcSplitNorm4 } else { Kernel::HcSplitNormAny },
            0,
            seq![
                Command::Bytes(0, Args::HcSplit(n)),
                Command::Buffer(1, m.buf, 0),
                Command::Buffer(2, scale.buf, 0),
                Command::Buffer(3, base.buf, 0),
                Command::Buffer(4, x.buf, 0),
                Command::Buffer(5, out.0.buf, 0),
                Command::Buffer(6, out.1.buf, 0),
                Command::Buffer(7, gamma.buf, 0),
                Command::Buffer(8, out.2.buf, 0),
            ],
            3,
        );
        assert(
            split_with(
                u.log,
                t.log.len() as int,
                n,
                m.buf,
                scale.buf,
                base.buf,
                x.buf,
                gamma.buf,
                (out.0.buf, out.1.buf, out.2.buf),
            )
        );
    }
}

pub(crate) proof fn did_splits(
    t: Trace,
    m: DeferredBuf,
    scale: DeferredBuf,
    base: DeferredBuf,
    x: DeferredBuf,
    gamma: DeferredBuf,
    n_hc: u64,
    n_embd: u64,
    iters: i32,
    hc_eps: F32,
    rms_eps: F32,
    k: u64,
    out: Collapsed,
)
    ensures
        ({
            let (u, r) = t.hc_split_weighted_sum_norm4_into_k(
                m,
                scale,
                base,
                x,
                gamma,
                n_hc,
                n_embd,
                iters,
                hc_eps,
                rms_eps,
                k,
                out,
            );
            r is Ok ==> split_by(
                u.log,
                t.log.len() as int,
                m.buf,
                scale.buf,
                base.buf,
                x.buf,
                gamma.buf,
                Fineness { n_hc, n_embd, iters, hc_eps, rms_eps },
                (out.0.buf, out.1.buf, out.2.buf),
            )
        }),
{
    broadcast use group_flow;

    grew_itself(t.log);
    reveal(Trace::hc_split_weighted_sum_norm4_into_k);
    let (u, r) = t.hc_split_weighted_sum_norm4_into_k(
        m,
        scale,
        base,
        x,
        gamma,
        n_hc,
        n_embd,
        iters,
        hc_eps,
        rms_eps,
        k,
        out,
    );
    if r is Ok {
        let n = u.log[u.log.len() - 12]->Bytes_1->HcSplit_0;
        lemma_tail(
            u.log,
            t.log.len() as int,
            Kernel::HcSplitNorm4,
            0,
            seq![
                Command::Bytes(0, Args::HcSplit(n)),
                Command::Buffer(1, m.buf, 0),
                Command::Buffer(2, scale.buf, 0),
                Command::Buffer(3, base.buf, 0),
                Command::Buffer(4, x.buf, 0),
                Command::Buffer(5, out.0.buf, 0),
                Command::Buffer(6, out.1.buf, 0),
                Command::Buffer(7, gamma.buf, 0),
                Command::Buffer(8, out.2.buf, 0),
            ],
            3,
        );
        assert(
            split_with(
                u.log,
                t.log.len() as int,
                n,
                m.buf,
                scale.buf,
                base.buf,
                x.buf,
                gamma.buf,
                (out.0.buf, out.1.buf, out.2.buf),
            )
        );
    }
}

pub(crate) proof fn did_mixing(
    t: Trace,
    prev: DeferredBuf,
    hc_fn: DeferredBuf,
    hc_dim: u64,
    mix: u64,
    eps: F32,
    unit: DeferredBuf,
    half: bool,
)
    ensures
        ({
            let (u, r) = t.hc_mix(prev, hc_fn, hc_dim, mix, eps, unit, half);
            let out = r->Ok_0;
            r is Ok ==> mixing_logits(
                u.log,
                t.log.len() as int,
                prev.buf,
                hc_fn.buf,
                unit.buf,
                hc_dim,
                eps,
                out.buf,
            )
        }),
{
    broadcast use group_flow;

    grew_itself(t.log);
    let (u, r) = t.hc_mix(prev, hc_fn, hc_dim, mix, eps, unit, half);
    if r is Ok {
        let out = r->Ok_0;
        if t.config.hc_stages_apart {
            let (a, flat) = t.rms_norm_mul(prev, unit, eps);
            did_norm(t, prev, unit, eps);
            did_f16(a, hc_fn, flat->Ok_0, hc_dim, mix);
            did_f32(a, hc_fn, flat->Ok_0, hc_dim, mix);
            grew_itself(a.log);
            grew_itself(u.log);
            assert(grew(a.log, u.log)) by {
                broadcast use {grows_matvec_f16, grows_matvec_f32};
            }
            assert(grew(t.log, a.log)) by {
                broadcast use grows_rms_norm_mul;
            }
            broadcast use {lemma_kept, normed_kept};
        
            assert(normed(u.log, t.log.len() as int, prev.buf, unit.buf, eps, flat->Ok_0.buf));
            assert(
                half ==> product_of(
                    u.log,
                    t.log.len() as int,
                    Kernel::MulMvF16,
                    hc_fn.buf,
                    flat->Ok_0.buf,
                    out.buf,
                )
            );
            assert(
                !half ==> product_of(
                    u.log,
                    t.log.len() as int,
                    Kernel::MulMvF32,
                    hc_fn.buf,
                    flat->Ok_0.buf,
                    out.buf,
                )
            );
        } else {
            reveal(Trace::fused_hc_collapse_stage12);
            lemma_tail(
                u.log,
                t.log.len() as int,
                if half { Kernel::HcCollapseMvF16 } else { Kernel::HcCollapseMvF32 },
                0,
                seq![
                    Command::Buffer(0, hc_fn.buf, 0),
                    Command::Buffer(1, prev.buf, 0),
                    Command::Buffer(2, out.buf, 0),
                    Command::Bytes(3, Args::U32(hc_dim as u32)),
                    Command::Bytes(4, Args::F32(eps)),
                ],
                2,
            );
        }
    }
}

/// The collapse of one position takes its mixing logits from the streams, and splits,
/// sums and norms the same streams by them.
pub proof fn law_collapse_flow(
    t: Trace,
    prev: DeferredBuf,
    hc_fn: DeferredBuf,
    scale: DeferredBuf,
    base: DeferredBuf,
    gamma: DeferredBuf,
    n_hc: u64,
    n_embd: u64,
    iters: i32,
    hc_eps: F32,
    rms_eps: F32,
    unit: DeferredBuf,
    half: bool,
)
    ensures
        ({
            let (u, r) = t.hc_collapse_norm(
                prev,
                hc_fn,
                scale,
                base,
                gamma,
                n_hc,
                n_embd,
                iters,
                hc_eps,
                rms_eps,
                unit,
                half,
            );
            let out = r->Ok_0;
            r is Ok ==> collapsed_at_once(
                u.log,
                t.log.len() as int,
                prev.buf,
                hc_fn.buf,
                scale.buf,
                base.buf,
                gamma.buf,
                unit.buf,
                Fineness { n_hc, n_embd, iters, hc_eps, rms_eps },
                (out.0.buf, out.1.buf, out.2.buf),
            )
        }),
{
    broadcast use group_flow;

    grew_itself(t.log);
    reveal(Trace::hc_collapse_norm);
    let (u, r) = t.hc_collapse_norm(
        prev,
        hc_fn,
        scale,
        base,
        gamma,
        n_hc,
        n_embd,
        iters,
        hc_eps,
        rms_eps,
        unit,
        half,
    );
    if r is Ok {
        let out = r->Ok_0;
        let hc_dim = (n_hc * n_embd) as u64;
        let mix = mix_hc(n_hc) as u64;
        let (a, m) = t.hc_mix(prev, hc_fn, hc_dim, mix, rms_eps, unit, half);
        did_mixing(t, prev, hc_fn, hc_dim, mix, rms_eps, unit, half);
        did_split(a, m->Ok_0, scale, base, prev, gamma, n_hc, n_embd, iters, hc_eps, rms_eps);
        grew_itself(a.log);
        grew_itself(u.log);
        assert(grew(a.log, u.log)) by {
            broadcast use grows_hc_split_weighted_sum_norm4;
        }
        assert(grew(t.log, a.log)) by {
            broadcast use {
                grows_rms_norm_mul,
                grows_matvec_f16,
                grows_matvec_f32,
                grows_fused_hc_collapse_stage12,
            };
        }
        mixing_kept(
            a.log,
            u.log,
            t.log.len() as int,
            t.log.len() as int,
            prev.buf,
            hc_fn.buf,
            unit.buf,
            hc_dim,
            rms_eps,
            m->Ok_0.buf,
        );
        split_kept(
            u.log,
            u.log,
            a.log.len() as int,
            t.log.len() as int,
            m->Ok_0.buf,
            scale.buf,
            base.buf,
            prev.buf,
            gamma.buf,
            Fineness { n_hc, n_embd, iters, hc_eps, rms_eps },
            (out.0.buf, out.1.buf, out.2.buf),
        );
        assert(
            mixing_logits(
                u.log,
                t.log.len() as int,
                prev.buf,
                hc_fn.buf,
                unit.buf,
                hc_dim,
                rms_eps,
                m->Ok_0.buf,
            )
        );
    }
}

pub(crate) proof fn did_first_collapse(
    t: Trace,
    prev: DeferredBuf,
    hc_fn: DeferredBuf,
    scale: DeferredBuf,
    base: DeferredBuf,
    gamma: DeferredBuf,
    n_hc: u64,
    n_embd: u64,
    iters: i32,
    hc_eps: F32,
    rms_eps: F32,
    unit: DeferredBuf,
    half: bool,
    outs: Collapsed,
    k: u64,
)
    requires
        k > 0,
    ensures
        ({
            let (u, r) = t.hc_collapse_rows(
                prev,
                hc_fn,
                scale,
                base,
                gamma,
                n_hc,
                n_embd,
                iters,
                hc_eps,
                rms_eps,
                unit,
                half,
                outs,
                k,
                0,
            );
            r is Ok ==> collapsed(
                u.log,
                t.log.len() as int,
                prev.buf,
                hc_fn.buf,
                scale.buf,
                base.buf,
                gamma.buf,
                unit.buf,
                Fineness { n_hc, n_embd, iters, hc_eps, rms_eps },
                (outs.0.buf, outs.1.buf, outs.2.buf),
            )
        }),
{
    broadcast use {
        group_flow,
        copied_kept,
        grows_hc_collapse_norm,
        grows_keep_collapsed,
        grows_hc_collapse_rows,
    };

    grew_itself(t.log);
    let from = t.log.len() as int;
    let (u, r) = t.hc_collapse_rows(
        prev,
        hc_fn,
        scale,
        base,
        gamma,
        n_hc,
        n_embd,
        iters,
        hc_eps,
        rms_eps,
        unit,
        half,
        outs,
        k,
        0,
    );
    if r is Ok {
        let hc_dim = (n_hc * n_embd) as u64;
        let mix = mix_hc(n_hc) as u64;
        let (a, row) = t.alloc_f32(hc_dim);
        let b = a.blit(prev.buf, 0, row.buf, 0, (hc_dim * 4) as u64);
        lemma_copied(b.log, from, prev.buf, row.buf, b.log.len() - 2);
        let (c, one) = b.hc_collapse_norm(
            row,
            hc_fn,
            scale,
            base,
            gamma,
            n_hc,
            n_embd,
            iters,
            hc_eps,
            rms_eps,
            unit,
            half,
        );
        law_collapse_flow(
            b,
            row,
            hc_fn,
            scale,
            base,
            gamma,
            n_hc,
            n_embd,
            iters,
            hc_eps,
            rms_eps,
            unit,
            half,
        );
        let x = one->Ok_0;
        let d = c.keep_collapsed(x, outs, mix, n_embd, 0);
        grew_itself(b.log);
        grew_itself(c.log);
        grew_itself(d.log);
        assert(
            u == d.hc_collapse_rows(
                prev,
                hc_fn,
                scale,
                base,
                gamma,
                n_hc,
                n_embd,
                iters,
                hc_eps,
                rms_eps,
                unit,
                half,
                outs,
                k,
                1,
            ).0
        );
        assert(grew(t.log, b.log) && grew(t.log, c.log));
        assert(grew(b.log, u.log) && grew(c.log, u.log) && grew(d.log, u.log));
        assert(
            copied(
                d.log,
                from,
                x.0.buf,
                outs.0.buf,
            ) && copied(
                d.log,
                from,
                x.1.buf,
                outs.1.buf,
            ) && copied(d.log, from, x.2.buf, outs.2.buf)
        ) by {
            reveal(Trace::keep_collapsed);
            lemma_copied(d.log, from, x.0.buf, outs.0.buf, d.log.len() - 4);
            lemma_copied(d.log, from, x.1.buf, outs.1.buf, d.log.len() - 3);
            lemma_copied(d.log, from, x.2.buf, outs.2.buf, d.log.len() - 2);
        }
        collapsed_at_once_kept(
            c.log,
            u.log,
            b.log.len() as int,
            from,
            row.buf,
            hc_fn.buf,
            scale.buf,
            base.buf,
            gamma.buf,
            unit.buf,
            Fineness { n_hc, n_embd, iters, hc_eps, rms_eps },
            (x.0.buf, x.1.buf, x.2.buf),
        );
        assert(copied(u.log, from, prev.buf, row.buf));
        assert(
            copied(
                u.log,
                from,
                x.0.buf,
                outs.0.buf,
            ) && copied(
                u.log,
                from,
                x.1.buf,
                outs.1.buf,
            ) && copied(u.log, from, x.2.buf, outs.2.buf)
        );
        collapsed_by_row(
            u.log,
            from,
            prev.buf,
            hc_fn.buf,
            scale.buf,
            base.buf,
            gamma.buf,
            unit.buf,
            Fineness { n_hc, n_embd, iters, hc_eps, rms_eps },
            (outs.0.buf, outs.1.buf, outs.2.buf),
            row.buf,
            x.0.buf,
            x.1.buf,
            x.2.buf,
        );
    }
}

/// The collapse of several positions follows the flow of one.
pub proof fn law_collapses_flow(
    t: Trace,
    prev: DeferredBuf,
    hc_fn: DeferredBuf,
    scale: DeferredBuf,
    base: DeferredBuf,
    gamma: DeferredBuf,
    n_hc: u64,
    n_embd: u64,
    iters: i32,
    hc_eps: F32,
    rms_eps: F32,
    unit: DeferredBuf,
    k: u64,
    half: bool,
)
    ensures
        ({
            let (u, r) = t.hc_collapse_norm_k(
                prev,
                hc_fn,
                scale,
                base,
                gamma,
                n_hc,
                n_embd,
                iters,
                hc_eps,
                rms_eps,
                unit,
                k,
                half,
            );
            let out = r->Ok_0;
            r is Ok && k > 0 ==> collapsed(
                u.log,
                t.log.len() as int,
                prev.buf,
                hc_fn.buf,
                scale.buf,
                base.buf,
                gamma.buf,
                unit.buf,
                Fineness { n_hc, n_embd, iters, hc_eps, rms_eps },
                (out.0.buf, out.1.buf, out.2.buf),
            )
        }),
{
    broadcast use group_flow;

    grew_itself(t.log);
    reveal(Trace::hc_collapse_norm_k);
    let (u, r) = t.hc_collapse_norm_k(
        prev,
        hc_fn,
        scale,
        base,
        gamma,
        n_hc,
        n_embd,
        iters,
        hc_eps,
        rms_eps,
        unit,
        k,
        half,
    );
    if r is Ok && k > 0 {
        let out = r->Ok_0;
        let (a, split_k) = t.alloc_f32((k * mix_hc(n_hc)) as u64);
        let (a, cur_k) = a.alloc_f32((k * n_embd) as u64);
        let (a, normed_k) = a.alloc_attn_out((k * n_embd) as u64);
        assert(grew(t.log, a.log));
        grew_itself(u.log);
        let hc_dim = (n_hc * n_embd) as u64;
        let mix = mix_hc(n_hc) as u64;
        if !t.config.hc_collapse_per_k && n_hc == 4 && n_embd == 4096 && k <= t.config.hc_collapse_fuse_max {
            let (b, flat) = a.rms_norm_mul_k(prev, unit, hc_dim, k, rms_eps);
            did_norms(a, prev, unit, hc_dim, k, rms_eps);
            let (c, m) = if half {
                b.matmul_f16_k(hc_fn, flat->Ok_0, hc_dim, mix, k)
            } else {
                b.matvec_f32_k(hc_fn, flat->Ok_0, hc_dim, mix, k)
            };
            did_f16_k(b, hc_fn, flat->Ok_0, hc_dim, mix, k);
            did_f32_k(b, hc_fn, flat->Ok_0, hc_dim, mix, k);
            did_splits(
                c,
                m->Ok_0,
                scale,
                base,
                prev,
                gamma,
                n_hc,
                n_embd,
                iters,
                hc_eps,
                rms_eps,
                k,
                out,
            );
            grew_itself(b.log);
            grew_itself(c.log);
            assert(
                grew(
                    a.log,
                    b.log,
                ) && grew(
                    t.log,
                    b.log,
                ) && grew(
                    b.log,
                    c.log,
                ) && grew(t.log, c.log) && grew(b.log, u.log) && grew(c.log, u.log)
            ) by {
                grew_itself(a.log);
                broadcast use {
                    grows_rms_norm_mul_k,
                    grows_matmul_f16_k,
                    grows_matvec_f32_k,
                    grows_hc_split_weighted_sum_norm4_into_k,
                };
            }
            let from = t.log.len() as int;
            assert(
                normed(u.log, from, prev.buf, unit.buf, rms_eps, flat->Ok_0.buf) && (
                    product_of(
                        u.log,
                        from,
                        Kernel::MulMvF32,
                        hc_fn.buf,
                        flat->Ok_0.buf,
                        m->Ok_0.buf,
                    ) || product_of(
                        u.log,
                        from,
                        Kernel::MulMvF16,
                        hc_fn.buf,
                        flat->Ok_0.buf,
                        m->Ok_0.buf,
                    )
                )
            ) by {
                broadcast use {lemma_kept, normed_kept};
            }
            split_kept(
                u.log,
                u.log,
                c.log.len() as int,
                from,
                m->Ok_0.buf,
                scale.buf,
                base.buf,
                prev.buf,
                gamma.buf,
                Fineness { n_hc, n_embd, iters, hc_eps, rms_eps },
                (out.0.buf, out.1.buf, out.2.buf),
            );
            assert(
                mixing_logits(
                    u.log,
                    from,
                    prev.buf,
                    hc_fn.buf,
                    unit.buf,
                    hc_dim,
                    rms_eps,
                    m->Ok_0.buf,
                )
            );
        } else {
            did_first_collapse(
                a,
                prev,
                hc_fn,
                scale,
                base,
                gamma,
                n_hc,
                n_embd,
                iters,
                hc_eps,
                rms_eps,
                unit,
                half,
                out,
                k,
            );
            collapsed_kept(
                u.log,
                u.log,
                a.log.len() as int,
                t.log.len() as int,
                prev.buf,
                hc_fn.buf,
                scale.buf,
                base.buf,
                gamma.buf,
                unit.buf,
                Fineness { n_hc, n_embd, iters, hc_eps, rms_eps },
                (out.0.buf, out.1.buf, out.2.buf),
            );
        }
    }
}

/// The streams `res` and the blocks `block` and `add` were mixed by the weights in
/// `split`, and went to `out`.
pub open spec fn expanded(
    log: Seq<Command>,
    from: int,
    block: BufId,
    add: BufId,
    res: BufId,
    split: BufId,
    n_hc: u64,
    out: BufId,
) -> bool {
    launched(
        log,
        from,
        Kernel::HcExpand,
        1,
        seq![
            Command::Buffer(1, block, 0),
            Command::Buffer(2, res, 0),
            Command::Buffer(3, split, (n_hc * 4) as u64),
            Command::Buffer(4, split, (2 * n_hc * 4) as u64),
            Command::Buffer(5, add, 0),
            Command::Buffer(6, out, 0),
        ],
    )
}

pub(crate) proof fn did_expand_add(
    t: Trace,
    block: DeferredBuf,
    add: DeferredBuf,
    res: DeferredBuf,
    split: DeferredBuf,
    n_hc: u64,
    d_embd: u64,
    k: u64,
)
    ensures
        ({
            let (u, r) = t.hc_expand_add_split_k(block, add, res, split, n_hc, d_embd, k);
            let out = r->Ok_0;
            r is Ok && k > 0 ==> expanded(
                u.log,
                t.log.len() as int,
                block.buf,
                add.buf,
                res.buf,
                split.buf,
                n_hc,
                out.buf,
            )
        }),
{
    broadcast use group_flow;

    grew_itself(t.log);
    reveal(Trace::hc_expand_add_split_k);
    reveal(Trace::pooled_scratch_f32);
    let (u, r) = t.hc_expand_add_split_k(block, add, res, split, n_hc, d_embd, k);
    if r is Ok && k > 0 {
        let out = r->Ok_0;
        let made = t.carrier((k * n_hc * d_embd) as u64);
        let s = seq![
            Command::Buffer(1, block.buf, 0),
            Command::Buffer(2, res.buf, 0),
            Command::Buffer(3, split.buf, (n_hc * 4) as u64),
            Command::Buffer(4, split.buf, (2 * n_hc * 4) as u64),
            Command::Buffer(5, add.buf, 0),
            Command::Buffer(6, out.buf, 0),
        ];
        let binds = hc_binds_at(block.buf, add.buf, res.buf, split.buf, out.buf, n_hc, d_embd, 0);
        let one = made.0.hc_launch(
            spec_hc_args(n_hc, d_embd, true),
            binds,
            ((n_hc * d_embd + 255) / 256) as u64,
        );
        if t.config.hc_expand_per_k {
            lemma_tail(one.log, t.log.len() as int, Kernel::HcExpand, 1, s, 2);
            grew_itself(one.log);
            grows_hc_rows(
                one.log,
                one,
                block.buf,
                add.buf,
                res.buf,
                split.buf,
                out.buf,
                true,
                n_hc,
                d_embd,
                k,
                1,
            );
            lemma_kept(
                one.log,
                u.log,
                t.log.len() as int,
                t.log.len() as int,
                Kernel::HcExpand,
                1,
                s,
            );
        } else {
            lemma_tail(u.log, t.log.len() as int, Kernel::HcExpand, 1, s, 2);
        }
    }
}

pub(crate) proof fn did_expand_attn(
    t: Trace,
    block: DeferredBuf,
    res: DeferredBuf,
    split: DeferredBuf,
    n_hc: u64,
    d_embd: u64,
    k: u64,
)
    ensures
        ({
            let (u, r) = t.hc_expand_attn_split_k(block, res, split, n_hc, d_embd, k);
            let out = r->Ok_0;
            r is Ok && k > 0 ==> expanded(
                u.log,
                t.log.len() as int,
                block.buf,
                block.buf,
                res.buf,
                split.buf,
                n_hc,
                out.buf,
            )
        }),
{
    broadcast use group_flow;

    grew_itself(t.log);
    reveal(Trace::hc_expand_attn_split_k);
    reveal(Trace::pooled_scratch_f32);
    let (u, r) = t.hc_expand_attn_split_k(block, res, split, n_hc, d_embd, k);
    if r is Ok && k > 0 {
        let out = r->Ok_0;
        let made = t.pooled_scratch_f32(PoolKey::HcAfterAttn, (k * n_hc * d_embd) as u64);
        let s = seq![
            Command::Buffer(1, block.buf, 0),
            Command::Buffer(2, res.buf, 0),
            Command::Buffer(3, split.buf, (n_hc * 4) as u64),
            Command::Buffer(4, split.buf, (2 * n_hc * 4) as u64),
            Command::Buffer(5, block.buf, 0),
            Command::Buffer(6, out.buf, 0),
        ];
        let binds = hc_binds_at(block.buf, block.buf, res.buf, split.buf, out.buf, n_hc, d_embd, 0);
        let one = made.0.hc_launch(
            spec_hc_args(n_hc, d_embd, false),
            binds,
            ((n_hc * d_embd + 255) / 256) as u64,
        );
        if t.config.hc_expand_per_k {
            lemma_tail(one.log, t.log.len() as int, Kernel::HcExpand, 1, s, 2);
            grew_itself(one.log);
            grows_hc_rows(
                one.log,
                one,
                block.buf,
                block.buf,
                res.buf,
                split.buf,
                out.buf,
                false,
                n_hc,
                d_embd,
                k,
                1,
            );
            lemma_kept(
                one.log,
                u.log,
                t.log.len() as int,
                t.log.len() as int,
                Kernel::HcExpand,
                1,
                s,
            );
        } else {
            lemma_tail(u.log, t.log.len() as int, Kernel::HcExpand, 1, s, 2);
        }
    }
}

/// The matrix `w` times `x`, each element's softplus and its square root, went to
/// `probs`.
pub open spec fn scored(log: Seq<Command>, from: int, w: BufId, x: BufId, probs: BufId) -> bool {
    exists|logits: BufId|
        #![trigger product_of(log, from, Kernel::MulMvF32, w, x, logits)]
        #![trigger product_of(log, from, Kernel::MulMvF16, w, x, logits)]
        (
            product_of(
                log,
                from,
                Kernel::MulMvF32,
                w,
                x,
                logits,
            ) || product_of(log, from, Kernel::MulMvF16, w, x, logits)
        ) && launched(
            log,
            from,
            Kernel::SoftplusSqrt,
            0,
            seq![Command::Buffer(0, logits, 0), Command::Buffer(1, probs, 0)],
        )
}

pub(crate) proof fn scored_kept(
    a: Seq<Command>,
    b: Seq<Command>,
    from: int,
    earlier: int,
    w: BufId,
    x: BufId,
    probs: BufId,
)
    requires
        scored(a, from, w, x, probs),
        grew(a, b),
        earlier <= from,
    ensures
        scored(b, earlier, w, x, probs),
{
    broadcast use lemma_kept;

    let logits = choose|logits: BufId|
        #![trigger product_of(a, from, Kernel::MulMvF32, w, x, logits)]
        #![trigger product_of(a, from, Kernel::MulMvF16, w, x, logits)]
        (
            product_of(
                a,
                from,
                Kernel::MulMvF32,
                w,
                x,
                logits,
            ) || product_of(a, from, Kernel::MulMvF16, w, x, logits)
        ) && launched(
            a,
            from,
            Kernel::SoftplusSqrt,
            0,
            seq![Command::Buffer(0, logits, 0), Command::Buffer(1, probs, 0)],
        );
    assert(
        launched(
            b,
            earlier,
            Kernel::SoftplusSqrt,
            0,
            seq![Command::Buffer(0, logits, 0), Command::Buffer(1, probs, 0)],
        )
    );
    assert(
        product_of(
            b,
            earlier,
            Kernel::MulMvF32,
            w,
            x,
            logits,
        ) || product_of(b, earlier, Kernel::MulMvF16, w, x, logits)
    );
}

pub(crate) proof fn did_softplus(t: Trace, x: DeferredBuf)
    ensures
        ({
            let (u, r) = t.softplus_sqrt(x);
            let out = r->Ok_0;
            r is Ok ==> launched(
                u.log,
                t.log.len() as int,
                Kernel::SoftplusSqrt,
                0,
                seq![Command::Buffer(0, x.buf, 0), Command::Buffer(1, out.buf, 0)],
            )
        }),
{
    broadcast use group_flow;

    grew_itself(t.log);
    reveal(Trace::softplus_sqrt);
    let (u, r) = t.softplus_sqrt(x);
    if r is Ok {
        let out = r->Ok_0;
        lemma_tail(
            u.log,
            t.log.len() as int,
            Kernel::SoftplusSqrt,
            0,
            seq![Command::Buffer(0, x.buf, 0), Command::Buffer(1, out.buf, 0)],
            5,
        );
    }
}

pub(crate) proof fn did_scores(
    t: Trace,
    w: DeferredBuf,
    x: DeferredBuf,
    n_experts: u64,
    d_embd: u64,
    k: u64,
    half: bool,
)
    ensures
        ({
            let (u, r) = t.encode_router_logits_k(w, x, n_experts, d_embd, k, half);
            let out = r->Ok_0;
            r is Ok && k > 0 ==> scored(u.log, t.log.len() as int, w.buf, x.buf, out.buf)
        }),
{
    broadcast use group_flow;

    grew_itself(t.log);
    reveal(Trace::encode_router_logits_k);
    reveal(Trace::pooled_scratch_f32);
    let (u, r) = t.encode_router_logits_k(w, x, n_experts, d_embd, k, half);
    if r is Ok && k > 0 {
        let out = r->Ok_0;
        let from = t.log.len() as int;
        let nsg = spec_nsg_by_width(d_embd);
        let kernel = if half { Kernel::MulMvF16 } else { Kernel::MulMvF32 };
        let wb: u64 = if half { 2 } else { 4 };
        let pipe = Pipe::Special(kernel, Consts::Rows { nsg, nxpsg: spec_nxpsg(d_embd) });
        let (a, logits) = t.pooled_scratch_f32(PoolKey::RouterLogitsK, (k * n_experts) as u64);
        let s = seq![
            Command::Buffer(1, w.buf, 0),
            Command::Buffer(2, x.buf, 0),
            Command::Buffer(3, logits.buf, 0),
        ];
        let b = if t.config.batch_router {
            a.launch3(
                pipe,
                Args::MulMv(Trace::row_args_k(n_experts, d_embd, wb, k)),
                w.buf,
                (x.buf, 0),
                (logits.buf, 0),
                256,
                (((n_experts + 1) / 2) as u64, 1, k),
                (32, nsg as u64, 1),
            )
        } else {
            a.mv_rows(pipe, nsg, w.buf, x.buf, logits.buf, n_experts, d_embd, wb, k, 0)
        };
        if t.config.batch_router {
            lemma_tail(b.log, from, kernel, 1, s, 3);
        } else {
            let one = a.launch3(
                pipe,
                Args::MulMv(Trace::row_args(n_experts, d_embd, wb)),
                w.buf,
                (x.buf, 0),
                (logits.buf, 0),
                256,
                (((n_experts + 1) / 2) as u64, 1, 1),
                (32, nsg as u64, 1),
            );
            lemma_tail(one.log, from, kernel, 1, s, 3);
            grew_itself(one.log);
            grows_mv_rows(
                one.log,
                one,
                pipe,
                nsg,
                w.buf,
                x.buf,
                logits.buf,
                n_experts,
                d_embd,
                wb,
                k,
                1,
            );
            lemma_kept(one.log, b.log, from, from, kernel, 1, s);
        }
        assert(grew(t.log, b.log)) by {
            broadcast use grows_mv_rows;
        }
        did_softplus(b, logits);
        grew_itself(b.log);
        assert(grew(b.log, u.log)) by {
            broadcast use grows_softplus_sqrt;
        }
        lemma_kept(b.log, u.log, from, from, kernel, 1, s);
        grew_itself(u.log);
        lemma_kept(
            u.log,
            u.log,
            b.log.len() as int,
            from,
            Kernel::SoftplusSqrt,
            0,
            seq![Command::Buffer(0, logits.buf, 0), Command::Buffer(1, out.buf, 0)],
        );
        assert(
            product_of(
                u.log,
                from,
                Kernel::MulMvF32,
                w.buf,
                x.buf,
                logits.buf,
            ) || product_of(u.log, from, Kernel::MulMvF16, w.buf, x.buf, logits.buf)
        );
    }
}

/// The weights that an expert chain is handed: gate, up and down.
pub struct Experts {
    pub gate: BufId,
    pub up: BufId,
    pub down: BufId,
}

/// The experts `w` applied to `x` by the lists `ids` of the tokens of each, counted in
/// `tpe`, went to `out`.
pub open spec fn gathered(
    log: Seq<Command>,
    from: int,
    kernel: MmIdKernel,
    w: BufId,
    x: BufId,
    tpe: BufId,
    ids: BufId,
    out: BufId,
) -> bool {
    launched(
        log,
        from,
        Kernel::MmId(kernel),
        1,
        seq![
            Command::Buffer(1, w, 0),
            Command::Buffer(2, x, 0),
            Command::Buffer(3, tpe, 0),
            Command::Buffer(4, ids, 0),
            Command::Buffer(5, out, 0),
        ],
    )
}

/// The gated activation of `g` and `u`, weighed by `wt`, went to `mid`.
pub open spec fn gated(
    log: Seq<Command>,
    from: int,
    g: BufId,
    u: BufId,
    wt: BufId,
    mid: BufId,
) -> bool {
    let s = seq![
        Command::Buffer(1, g, 0),
        Command::Buffer(2, u, 0),
        Command::Buffer(3, mid, 0),
        Command::Buffer(4, wt, 0),
    ];
    launched(log, from, Kernel::MoeSwigluWeight, 1, s) || launched(
        log,
        from,
        Kernel::MoeSwigluWeightF16,
        1,
        s,
    )
}

/// Gate and up of `x`, and their activation weighed by `wt`, went to `mid`.
pub open spec fn activated(
    log: Seq<Command>,
    from: int,
    e: Experts,
    x: BufId,
    wt: BufId,
    tpe: BufId,
    ids: BufId,
    mid: BufId,
) -> bool {
    ||| launched(
        log,
        from,
        Kernel::MmIdIq2PairSwiglu,
        2,
        seq![
            Command::Buffer(2, e.gate, 0),
            Command::Buffer(3, e.up, 0),
            Command::Buffer(4, x, 0),
            Command::Buffer(5, tpe, 0),
            Command::Buffer(6, ids, 0),
            Command::Buffer(7, mid, 0),
            Command::Buffer(8, wt, 0),
        ],
    )
    ||| exists|kg: MmIdKernel, ku: MmIdKernel, g: BufId, u: BufId|
        #![
            trigger gathered(log, from, kg, e.gate, x, tpe, ids, g),
            gathered(log, from, ku, e.up, x, tpe, ids, u),
        ]
        gathered(
            log,
            from,
            kg,
            e.gate,
            x,
            tpe,
            ids,
            g,
        ) && gathered(log, from, ku, e.up, x, tpe, ids, u) && gated(log, from, g, u, wt, mid)
}

/// The experts that `sel` selects were applied to `x`, weighed by `wt` and summed, by
/// gathering the tokens of each expert.
pub open spec fn experts_by_gather(
    log: Seq<Command>,
    from: int,
    e: Experts,
    x: BufId,
    sel: BufId,
    wt: BufId,
    out: BufId,
) -> bool {
    exists|tpe: BufId, ids: BufId, mid: BufId, kd: MmIdKernel, d: BufId|
        #![
            trigger activated(log, from, e, x, wt, tpe, ids, mid),
            gathered(log, from, kd, e.down, mid, tpe, ids, d),
        ]
        {
            &&& launched(
                log,
                from,
                Kernel::MmIdMap0,
                1,
                seq![
                    Command::Buffer(1, sel, 0),
                    Command::Buffer(2, tpe, 0),
                    Command::Buffer(3, ids, 0),
                ],
            )
            &&& activated(log, from, e, x, wt, tpe, ids, mid)
            &&& gathered(log, from, kd, e.down, mid, tpe, ids, d)
            &&& launched(
                log,
                from,
                Kernel::Sum6K,
                0,
                seq![Command::Buffer(0, d, 0), Command::Buffer(1, out, 0)],
            )
        }
}

pub(crate) proof fn activated_kept(
    a: Seq<Command>,
    b: Seq<Command>,
    from: int,
    earlier: int,
    e: Experts,
    x: BufId,
    wt: BufId,
    tpe: BufId,
    ids: BufId,
    mid: BufId,
)
    requires
        activated(a, from, e, x, wt, tpe, ids, mid),
        grew(a, b),
        earlier <= from,
    ensures
        activated(b, earlier, e, x, wt, tpe, ids, mid),
{
    broadcast use lemma_kept;

    let s = seq![
        Command::Buffer(2, e.gate, 0),
        Command::Buffer(3, e.up, 0),
        Command::Buffer(4, x, 0),
        Command::Buffer(5, tpe, 0),
        Command::Buffer(6, ids, 0),
        Command::Buffer(7, mid, 0),
        Command::Buffer(8, wt, 0),
    ];
    if launched(a, from, Kernel::MmIdIq2PairSwiglu, 2, s) {
        assert(launched(b, earlier, Kernel::MmIdIq2PairSwiglu, 2, s));
    } else {
        let (kg, ku, g, u) = choose|kg: MmIdKernel, ku: MmIdKernel, g: BufId, u: BufId|
            #![
                trigger gathered(a, from, kg, e.gate, x, tpe, ids, g),
                gathered(a, from, ku, e.up, x, tpe, ids, u),
            ]
            gathered(
                a,
                from,
                kg,
                e.gate,
                x,
                tpe,
                ids,
                g,
            ) && gathered(a, from, ku, e.up, x, tpe, ids, u) && gated(a, from, g, u, wt, mid);
        assert(
            gathered(
                b,
                earlier,
                kg,
                e.gate,
                x,
                tpe,
                ids,
                g,
            ) && gathered(b, earlier, ku, e.up, x, tpe, ids, u)
        );
        let s = seq![
            Command::Buffer(1, g, 0),
            Command::Buffer(2, u, 0),
            Command::Buffer(3, mid, 0),
            Command::Buffer(4, wt, 0),
        ];
        assert(
            launched(b, earlier, Kernel::MoeSwigluWeight, 1, s) || launched(
                b,
                earlier,
                Kernel::MoeSwigluWeightF16,
                1,
                s,
            )
        );
    }
}

pub(crate) proof fn experts_by_gather_kept(
    a: Seq<Command>,
    b: Seq<Command>,
    from: int,
    earlier: int,
    e: Experts,
    x: BufId,
    sel: BufId,
    wt: BufId,
    out: BufId,
)
    requires
        experts_by_gather(a, from, e, x, sel, wt, out),
        grew(a, b),
        earlier <= from,
    ensures
        experts_by_gather(b, earlier, e, x, sel, wt, out),
{
    broadcast use lemma_kept;

    let (
        tpe,
        ids,
        mid,
        kd,
        d,
    ) = choose|tpe: BufId, ids: BufId, mid: BufId, kd: MmIdKernel, d: BufId|
        #![
            trigger activated(a, from, e, x, wt, tpe, ids, mid),
            gathered(a, from, kd, e.down, mid, tpe, ids, d),
        ]
        {
            &&& launched(
                a,
                from,
                Kernel::MmIdMap0,
                1,
                seq![
                    Command::Buffer(1, sel, 0),
                    Command::Buffer(2, tpe, 0),
                    Command::Buffer(3, ids, 0),
                ],
            )
            &&& activated(a, from, e, x, wt, tpe, ids, mid)
            &&& gathered(a, from, kd, e.down, mid, tpe, ids, d)
            &&& launched(
                a,
                from,
                Kernel::Sum6K,
                0,
                seq![Command::Buffer(0, d, 0), Command::Buffer(1, out, 0)],
            )
        };
    activated_kept(a, b, from, earlier, e, x, wt, tpe, ids, mid);
    assert(gathered(b, earlier, kd, e.down, mid, tpe, ids, d));
    assert(
        launched(
            b,
            earlier,
            Kernel::MmIdMap0,
            1,
            seq![
                Command::Buffer(1, sel, 0),
                Command::Buffer(2, tpe, 0),
                Command::Buffer(3, ids, 0),
            ],
        )
    );
    assert(
        launched(
            b,
            earlier,
            Kernel::Sum6K,
            0,
            seq![Command::Buffer(0, d, 0), Command::Buffer(1, out, 0)],
        )
    );
}

pub(crate) proof fn did_map(t: Trace, sel: DeferredBuf, n_experts: u64, k: u64)
    ensures
        ({
            let (u, r) = t.encode_mul_mm_id_map0_k(sel, n_experts, k);
            let out = r->Ok_0;
            r is Ok ==> launched(
                u.log,
                t.log.len() as int,
                Kernel::MmIdMap0,
                1,
                seq![
                    Command::Buffer(1, sel.buf, 0),
                    Command::Buffer(2, out.0.buf, 0),
                    Command::Buffer(3, out.1.buf, 0),
                ],
            )
        }),
{
    broadcast use group_flow;

    grew_itself(t.log);
    reveal(Trace::encode_mul_mm_id_map0_k);
    let (u, r) = t.encode_mul_mm_id_map0_k(sel, n_experts, k);
    if r is Ok {
        let out = r->Ok_0;
        lemma_tail(
            u.log,
            t.log.len() as int,
            Kernel::MmIdMap0,
            1,
            seq![
                Command::Buffer(1, sel.buf, 0),
                Command::Buffer(2, out.0.buf, 0),
                Command::Buffer(3, out.1.buf, 0),
            ],
            3,
        );
    }
}

pub(crate) proof fn did_gather(
    t: Trace,
    stage: MmStage,
    w: DeferredBuf,
    x: DeferredBuf,
    tpe: DeferredBuf,
    ids: DeferredBuf,
    n_experts: u64,
    d_in: u64,
    d_out: u64,
    k: u64,
    slots: u64,
    act: u64,
)
    ensures
        ({
            let (u, r) = t.encode_mul_mm_id_qx_k(
                stage,
                w,
                x,
                tpe,
                ids,
                n_experts,
                d_in,
                d_out,
                k,
                slots,
                act,
            );
            let out = r->Ok_0;
            r is Ok ==> gathered(
                u.log,
                t.log.len() as int,
                stage.kernel,
                w.buf,
                x.buf,
                tpe.buf,
                ids.buf,
                out.buf,
            )
        }),
{
    broadcast use group_flow;

    grew_itself(t.log);
    reveal(Trace::encode_mul_mm_id_qx_k);
    reveal(Trace::mm_id_launch);
    reveal(Trace::pooled_scratch_f32);
    let (u, r) = t.encode_mul_mm_id_qx_k(
        stage,
        w,
        x,
        tpe,
        ids,
        n_experts,
        d_in,
        d_out,
        k,
        slots,
        act,
    );
    if r is Ok {
        let out = r->Ok_0;
        lemma_tail(
            u.log,
            t.log.len() as int,
            Kernel::MmId(stage.kernel),
            1,
            seq![
                Command::Buffer(1, w.buf, 0),
                Command::Buffer(2, x.buf, 0),
                Command::Buffer(3, tpe.buf, 0),
                Command::Buffer(4, ids.buf, 0),
                Command::Buffer(5, out.buf, 0),
            ],
            3,
        );
    }
}

pub(crate) proof fn did_pair(
    t: Trace,
    gate: DeferredBuf,
    up: DeferredBuf,
    x: DeferredBuf,
    tpe: DeferredBuf,
    ids: DeferredBuf,
    wt: DeferredBuf,
    n_experts: u64,
    d_embd: u64,
    d_ffn: u64,
    k: u64,
)
    ensures
        ({
            let (u, r) = t.encode_mul_mm_id_iq2_pair_swiglu_k(
                gate,
                up,
                x,
                tpe,
                ids,
                wt,
                n_experts,
                d_embd,
                d_ffn,
                k,
            );
            let out = r->Ok_0;
            r is Ok ==> launched(
                u.log,
                t.log.len() as int,
                Kernel::MmIdIq2PairSwiglu,
                2,
                seq![
                    Command::Buffer(2, gate.buf, 0),
                    Command::Buffer(3, up.buf, 0),
                    Command::Buffer(4, x.buf, 0),
                    Command::Buffer(5, tpe.buf, 0),
                    Command::Buffer(6, ids.buf, 0),
                    Command::Buffer(7, out.buf, 0),
                    Command::Buffer(8, wt.buf, 0),
                ],
            )
        }),
{
    broadcast use group_flow;

    grew_itself(t.log);
    reveal(Trace::encode_mul_mm_id_iq2_pair_swiglu_k);
    reveal(Trace::pooled_scratch_f32);
    let (u, r) = t.encode_mul_mm_id_iq2_pair_swiglu_k(
        gate,
        up,
        x,
        tpe,
        ids,
        wt,
        n_experts,
        d_embd,
        d_ffn,
        k,
    );
    if r is Ok {
        let out = r->Ok_0;
        lemma_tail(
            u.log,
            t.log.len() as int,
            Kernel::MmIdIq2PairSwiglu,
            2,
            seq![
                Command::Buffer(2, gate.buf, 0),
                Command::Buffer(3, up.buf, 0),
                Command::Buffer(4, x.buf, 0),
                Command::Buffer(5, tpe.buf, 0),
                Command::Buffer(6, ids.buf, 0),
                Command::Buffer(7, out.buf, 0),
                Command::Buffer(8, wt.buf, 0),
            ],
            3,
        );
    }
}

pub(crate) proof fn did_gate(
    t: Trace,
    gate: DeferredBuf,
    up: DeferredBuf,
    wt: DeferredBuf,
    d_ffn: u64,
    k: u64,
    half: bool,
)
    ensures
        ({
            let (u, r) = t.moe_swiglu_weight_k(gate, up, wt, d_ffn, k, half);
            let out = r->Ok_0;
            r is Ok ==> gated(u.log, t.log.len() as int, gate.buf, up.buf, wt.buf, out.buf)
        }),
{
    broadcast use group_flow;

    grew_itself(t.log);
    reveal(Trace::moe_swiglu_weight_k);
    reveal(Trace::pooled_scratch_f32);
    reveal(Trace::pooled_scratch_u16);
    let (u, r) = t.moe_swiglu_weight_k(gate, up, wt, d_ffn, k, half);
    if r is Ok {
        let out = r->Ok_0;
        lemma_tail(
            u.log,
            t.log.len() as int,
            if half { Kernel::MoeSwigluWeightF16 } else { Kernel::MoeSwigluWeight },
            1,
            seq![
                Command::Buffer(1, gate.buf, 0),
                Command::Buffer(2, up.buf, 0),
                Command::Buffer(3, out.buf, 0),
                Command::Buffer(4, wt.buf, 0),
            ],
            2,
        );
    }
}

pub(crate) proof fn did_sum(t: Trace, x: DeferredBuf, d_embd: u64, k: u64)
    ensures
        ({
            let (u, r) = t.sum6_k(x, d_embd, k);
            let out = r->Ok_0;
            r is Ok ==> launched(
                u.log,
                t.log.len() as int,
                Kernel::Sum6K,
                0,
                seq![Command::Buffer(0, x.buf, 0), Command::Buffer(1, out.buf, 0)],
            )
        }),
{
    broadcast use group_flow;

    grew_itself(t.log);
    reveal(Trace::sum6_k);
    reveal(Trace::pooled_scratch_f32);
    let (u, r) = t.sum6_k(x, d_embd, k);
    if r is Ok {
        let out = r->Ok_0;
        lemma_tail(
            u.log,
            t.log.len() as int,
            Kernel::Sum6K,
            0,
            seq![Command::Buffer(0, x.buf, 0), Command::Buffer(1, out.buf, 0)],
            4,
        );
    }
}

pub(crate) proof fn did_activation(
    t: Trace,
    fuse: bool,
    half: bool,
    x: DeferredBuf,
    wt: DeferredBuf,
    tpe: DeferredBuf,
    ids: DeferredBuf,
    gate_w: DeferredBuf,
    up_w: DeferredBuf,
    gate: MmStage,
    up: MmStage,
    n_experts: u64,
    d_embd: u64,
    d_ffn: u64,
    k: u64,
)
    ensures
        ({
            let (u, r) = t.moe_mid(
                fuse,
                half,
                x,
                wt,
                tpe,
                ids,
                gate_w,
                up_w,
                gate,
                up,
                n_experts,
                d_embd,
                d_ffn,
                k,
            );
            let out = r->Ok_0;
            r is Ok ==> forall|down: BufId| #[trigger] activated(
                u.log,
                t.log.len() as int,
                Experts { gate: gate_w.buf, up: up_w.buf, down },
                x.buf,
                wt.buf,
                tpe.buf,
                ids.buf,
                out.buf,
            )
        }),
{
    broadcast use group_flow;

    grew_itself(t.log);
    let (u, r) = t.moe_mid(
        fuse,
        half,
        x,
        wt,
        tpe,
        ids,
        gate_w,
        up_w,
        gate,
        up,
        n_experts,
        d_embd,
        d_ffn,
        k,
    );
    if r is Ok {
        let out = r->Ok_0;
        let from = t.log.len() as int;
        if fuse {
            did_pair(t, gate_w, up_w, x, tpe, ids, wt, n_experts, d_embd, d_ffn, k);
        } else {
            let (a, g) = t.encode_mul_mm_id_qx_k(
                gate,
                gate_w,
                x,
                tpe,
                ids,
                n_experts,
                d_embd,
                d_ffn,
                k,
                1,
                4,
            );
            let (b, p) = a.encode_mul_mm_id_qx_k(
                up,
                up_w,
                x,
                tpe,
                ids,
                n_experts,
                d_embd,
                d_ffn,
                k,
                1,
                4,
            );
            did_gather(t, gate, gate_w, x, tpe, ids, n_experts, d_embd, d_ffn, k, 1, 4);
            did_gather(a, up, up_w, x, tpe, ids, n_experts, d_embd, d_ffn, k, 1, 4);
            did_gate(b, g->Ok_0, p->Ok_0, wt, d_ffn, k, half);
            grew_itself(a.log);
            grew_itself(b.log);
            grew_itself(u.log);
            assert(
                grew(t.log, a.log) && grew(t.log, b.log) && grew(a.log, u.log) && grew(b.log, u.log)
            ) by {
                broadcast use {grows_encode_mul_mm_id_qx_k, grows_moe_swiglu_weight_k};
            }
            broadcast use lemma_kept;
        
            assert(
                gathered(u.log, from, gate.kernel, gate_w.buf, x.buf, tpe.buf, ids.buf, g->Ok_0.buf)
            );
            assert(
                gathered(u.log, from, up.kernel, up_w.buf, x.buf, tpe.buf, ids.buf, p->Ok_0.buf)
            );
            let s = seq![
                Command::Buffer(1, g->Ok_0.buf, 0),
                Command::Buffer(2, p->Ok_0.buf, 0),
                Command::Buffer(3, out.buf, 0),
                Command::Buffer(4, wt.buf, 0),
            ];
            assert(
                launched(u.log, from, Kernel::MoeSwigluWeight, 1, s) || launched(
                    u.log,
                    from,
                    Kernel::MoeSwigluWeightF16,
                    1,
                    s,
                )
            );
        }
    }
}

/// The gathered experts follow their flow: from the tokens of each expert over gate, up
/// and down to the sum of a position's six.
pub proof fn law_experts_flow(
    t: Trace,
    x: DeferredBuf,
    sel: DeferredBuf,
    wt: DeferredBuf,
    gate_w: DeferredBuf,
    up_w: DeferredBuf,
    down_w: DeferredBuf,
    gate: MmStage,
    up: MmStage,
    down: MmStage,
    n_experts: u64,
    d_embd: u64,
    d_ffn: u64,
    k: u64,
)
    ensures
        ({
            let (u, r) = t.encode_moe_chain_mm_qx_k(
                x,
                sel,
                wt,
                gate_w,
                up_w,
                down_w,
                gate,
                up,
                down,
                n_experts,
                d_embd,
                d_ffn,
                k,
            );
            let out = r->Ok_0;
            r is Ok ==> experts_by_gather(
                u.log,
                t.log.len() as int,
                Experts { gate: gate_w.buf, up: up_w.buf, down: down_w.buf },
                x.buf,
                sel.buf,
                wt.buf,
                out.buf,
            )
        }),
{
    broadcast use group_flow;

    grew_itself(t.log);
    reveal(Trace::encode_moe_chain_mm_qx_k);
    let (u, r) = t.encode_moe_chain_mm_qx_k(
        x,
        sel,
        wt,
        gate_w,
        up_w,
        down_w,
        gate,
        up,
        down,
        n_experts,
        d_embd,
        d_ffn,
        k,
    );
    if r is Ok {
        let out = r->Ok_0;
        let from = t.log.len() as int;
        let iq2 = MmIdKernel { quant: MmQuant::IQ2_XXS, half_rhs: false };
        let fuse = gate.kernel == iq2 && up.kernel == iq2 && t.config.moe_fused_mm_id;
        let half = !t.config.moe_mid_f32 && !fuse;
        let (a, map) = t.encode_mul_mm_id_map0_k(sel, n_experts, k);
        let (tpe, ids) = map->Ok_0;
        let (b, mid) = a.moe_mid(
            fuse,
            half,
            x,
            wt,
            tpe,
            ids,
            gate_w,
            up_w,
            gate,
            up,
            n_experts,
            d_embd,
            d_ffn,
            k,
        );
        let stage = if half {
            MmStage { kernel: MmIdKernel { half_rhs: true, ..down.kernel }, ..down }
        } else {
            down
        };
        let act: u64 = if half { 2 } else { 4 };
        let (c, d) = b.encode_mul_mm_id_qx_k(
            stage,
            down_w,
            mid->Ok_0,
            tpe,
            ids,
            n_experts,
            d_ffn,
            d_embd,
            k,
            6,
            act,
        );
        did_map(t, sel, n_experts, k);
        did_activation(
            a,
            fuse,
            half,
            x,
            wt,
            tpe,
            ids,
            gate_w,
            up_w,
            gate,
            up,
            n_experts,
            d_embd,
            d_ffn,
            k,
        );
        did_gather(b, stage, down_w, mid->Ok_0, tpe, ids, n_experts, d_ffn, d_embd, k, 6, act);
        did_sum(c, d->Ok_0, d_embd, k);
        grew_itself(a.log);
        grew_itself(b.log);
        grew_itself(c.log);
        grew_itself(u.log);
        assert(
            grew(
                t.log,
                a.log,
            ) && grew(
                t.log,
                b.log,
            ) && grew(
                t.log,
                c.log,
            ) && grew(a.log, u.log) && grew(b.log, u.log) && grew(c.log, u.log)
        ) by {
            broadcast use {
                grows_encode_mul_mm_id_map0_k,
                grows_encode_mul_mm_id_qx_k,
                grows_encode_mul_mm_id_iq2_pair_swiglu_k,
                grows_moe_swiglu_weight_k,
                grows_sum6_k,
            };
        }
        let e = Experts { gate: gate_w.buf, up: up_w.buf, down: down_w.buf };
        assert(
            activated(b.log, a.log.len() as int, e, x.buf, wt.buf, tpe.buf, ids.buf, mid->Ok_0.buf)
        );
        activated_kept(
            b.log,
            u.log,
            a.log.len() as int,
            from,
            e,
            x.buf,
            wt.buf,
            tpe.buf,
            ids.buf,
            mid->Ok_0.buf,
        );
        broadcast use lemma_kept;
        
        assert(
            gathered(
                u.log,
                from,
                stage.kernel,
                e.down,
                mid->Ok_0.buf,
                tpe.buf,
                ids.buf,
                d->Ok_0.buf,
            )
        );
        assert(
            launched(
                u.log,
                from,
                Kernel::MmIdMap0,
                1,
                seq![
                    Command::Buffer(1, sel.buf, 0),
                    Command::Buffer(2, tpe.buf, 0),
                    Command::Buffer(3, ids.buf, 0),
                ],
            )
        );
        assert(
            launched(
                u.log,
                from,
                Kernel::Sum6K,
                0,
                seq![Command::Buffer(0, d->Ok_0.buf, 0), Command::Buffer(1, out.buf, 0)],
            )
        );
    }
}

/// Gate and up of `x`, their activation, and down of that went to `out`.
pub open spec fn shared_of(log: Seq<Command>, from: int, e: Experts, x: BufId, out: BufId) -> bool {
    exists|g: BufId, p: BufId, mid: BufId|
        #![
            trigger multiplied(log, from, e.gate, x, g),
            multiplied(log, from, e.up, x, p),
            multiplied(log, from, e.down, mid, out),
        ]
        {
            &&& multiplied(log, from, e.gate, x, g)
            &&& multiplied(log, from, e.up, x, p)
            &&& launched(
                log,
                from,
                Kernel::Swiglu,
                1,
                seq![
                    Command::Buffer(1, g, 0),
                    Command::Buffer(2, p, 0),
                    Command::Buffer(3, mid, 0),
                ],
            )
            &&& multiplied(log, from, e.down, mid, out)
        }
}

pub(crate) proof fn shared_kept(
    a: Seq<Command>,
    b: Seq<Command>,
    from: int,
    earlier: int,
    e: Experts,
    x: BufId,
    out: BufId,
)
    requires
        shared_of(a, from, e, x, out),
        grew(a, b),
        earlier <= from,
    ensures
        shared_of(b, earlier, e, x, out),
{
    let (g, p, mid) = choose|g: BufId, p: BufId, mid: BufId|
        #![
            trigger multiplied(a, from, e.gate, x, g),
            multiplied(a, from, e.up, x, p),
            multiplied(a, from, e.down, mid, out),
        ]
        {
            &&& multiplied(a, from, e.gate, x, g)
            &&& multiplied(a, from, e.up, x, p)
            &&& launched(
                a,
                from,
                Kernel::Swiglu,
                1,
                seq![
                    Command::Buffer(1, g, 0),
                    Command::Buffer(2, p, 0),
                    Command::Buffer(3, mid, 0),
                ],
            )
            &&& multiplied(a, from, e.down, mid, out)
        };
    multiplied_kept(a, b, from, earlier, e.gate, x, g);
    multiplied_kept(a, b, from, earlier, e.up, x, p);
    multiplied_kept(a, b, from, earlier, e.down, mid, out);
    lemma_kept(
        a,
        b,
        from,
        earlier,
        Kernel::Swiglu,
        1,
        seq![Command::Buffer(1, g, 0), Command::Buffer(2, p, 0), Command::Buffer(3, mid, 0)],
    );
}

pub(crate) proof fn multiplied_kept(
    a: Seq<Command>,
    b: Seq<Command>,
    from: int,
    earlier: int,
    w: BufId,
    x: BufId,
    out: BufId,
)
    requires
        multiplied(a, from, w, x, out),
        grew(a, b),
        earlier <= from,
    ensures
        multiplied(b, earlier, w, x, out),
{
    projected_kept(a, b, from, earlier, w, x, out);
}

/// The shared experts follow their flow: gate and up of one input, and down of their
/// activation.
pub proof fn law_shared_flow(
    t: Trace,
    x: DeferredBuf,
    w_gate: DeferredBuf,
    w_up: DeferredBuf,
    w_down: DeferredBuf,
    d_embd: u64,
    sd: u64,
    k: u64,
)
    ensures
        ({
            let (u, r) = t.encode_shared_chain_q8_k(x, w_gate, w_up, w_down, d_embd, sd, k);
            let out = r->Ok_0;
            r is Ok && k > 0 ==> shared_of(
                u.log,
                t.log.len() as int,
                Experts { gate: w_gate.buf, up: w_up.buf, down: w_down.buf },
                x.buf,
                out.buf,
            )
        }),
{
    broadcast use group_flow;

    grew_itself(t.log);
    reveal(Trace::encode_shared_chain_q8_k);
    reveal(Trace::pooled_scratch_f32);
    let (u, r) = t.encode_shared_chain_q8_k(x, w_gate, w_up, w_down, d_embd, sd, k);
    if r is Ok && k > 0 {
        let out = r->Ok_0;
        let from = t.log.len() as int;
        let (a, g) = t.matmul_k_q8_0_auto(w_gate, x, d_embd, sd, k);
        let (b, p) = a.matmul_k_q8_0_auto(w_up, x, d_embd, sd, k);
        let (c, mid) = b.pooled_scratch_f32(PoolKey::SharedMid, (k * sd) as u64);
        let d = if t.config.batch_router {
            c.glu_launch(g->Ok_0.buf, p->Ok_0.buf, mid.buf, 0, k, sd)
        } else {
            c.glu_rows(g->Ok_0.buf, p->Ok_0.buf, mid.buf, sd, k, 0)
        };
        let s = seq![
            Command::Buffer(1, g->Ok_0.buf, 0),
            Command::Buffer(2, p->Ok_0.buf, 0),
            Command::Buffer(3, mid.buf, 0),
        ];
        grew_itself(a.log);
        grew_itself(b.log);
        grew_itself(c.log);
        if t.config.batch_router {
            lemma_tail(d.log, b.log.len() as int, Kernel::Swiglu, 1, s, 2);
        } else {
            let one = c.glu_launch(g->Ok_0.buf, p->Ok_0.buf, mid.buf, 0, 1, sd);
            lemma_tail(one.log, b.log.len() as int, Kernel::Swiglu, 1, s, 2);
            grew_itself(one.log);
            grows_glu_rows(one.log, one, g->Ok_0.buf, p->Ok_0.buf, mid.buf, sd, k, 1);
            lemma_kept(
                one.log,
                d.log,
                b.log.len() as int,
                b.log.len() as int,
                Kernel::Swiglu,
                1,
                s,
            );
        }
        law_product_flow(t, w_gate, x, d_embd, sd, k);
        law_product_flow(a, w_up, x, d_embd, sd, k);
        law_product_flow(d, w_down, mid, sd, d_embd, k);
        grew_itself(d.log);
        grew_itself(u.log);
        assert(
            grew(
                t.log,
                a.log,
            ) && grew(
                t.log,
                b.log,
            ) && grew(
                a.log,
                u.log,
            ) && grew(b.log, u.log) && grew(t.log, d.log) && grew(d.log, u.log)
        ) by {
            broadcast use {grows_matmul_k_q8_0_auto, grows_glu_rows};
        }
        multiplied_kept(a.log, u.log, from, from, w_gate.buf, x.buf, g->Ok_0.buf);
        multiplied_kept(b.log, u.log, a.log.len() as int, from, w_up.buf, x.buf, p->Ok_0.buf);
        multiplied_kept(u.log, u.log, d.log.len() as int, from, w_down.buf, mid.buf, out.buf);
        lemma_kept(d.log, u.log, b.log.len() as int, from, Kernel::Swiglu, 1, s);
    }
}

pub(crate) proof fn did_shared_raw(
    t: Trace,
    fine: bool,
    x: DeferredBuf,
    q8: (HostRef, HostRef, HostRef),
    sd: u64,
    d_embd: u64,
    k: u64,
)
    ensures
        ({
            let (u, r) = t.shared_from_raw(fine, x, q8, sd, d_embd, k);
            let out = r->Ok_0;
            r is Ok && k > 0 ==> shared_of(
                u.log,
                t.log.len() as int,
                Experts {
                    gate: BufId::WeightRaw(q8.0.id),
                    up: BufId::WeightRaw(q8.1.id),
                    down: BufId::WeightRaw(q8.2.id),
                },
                x.buf,
                out.buf,
            )
        }),
{
    broadcast use group_flow;

    grew_itself(t.log);
    reveal(Trace::shared_from_raw);
    let (u, r) = t.shared_from_raw(fine, x, q8, sd, d_embd, k);
    if r is Ok && k > 0 {
        let out = r->Ok_0;
        let n = (sd * d_embd) as u64;
        let (a, g) = t.weight_q8_0_raw(q8.0, n);
        let (b, p) = a.weight_q8_0_raw(q8.1, n);
        let (c, d) = b.weight_q8_0_raw(q8.2, n);
        let e = c.stage_if(fine, Stage::FfnMoeExperts);
        law_shared_flow(e, x, g, p, d, d_embd, sd, k);
        assert(grew(t.log, e.log));
        grew_itself(u.log);
        shared_kept(
            u.log,
            u.log,
            e.log.len() as int,
            t.log.len() as int,
            Experts { gate: g.buf, up: p.buf, down: d.buf },
            x.buf,
            out.buf,
        );
    }
}

/// The experts that `sel` selects were applied to `x`, weighed by `wt` and summed, in
/// two launches.
pub open spec fn experts_at_once(
    log: Seq<Command>,
    from: int,
    e: Experts,
    x: BufId,
    sel: BufId,
    wt: BufId,
    out: BufId,
) -> bool {
    exists|mid: BufId|
        #![trigger paired(log, from, e, x, sel, wt, mid)]
        paired(log, from, e, x, sel, wt, mid) && summed_down(log, from, e.down, mid, sel, out)
}

/// Gate and up of the experts that `sel` selects, and their activation weighed by `wt`,
/// went to `mid`.
pub open spec fn paired(
    log: Seq<Command>,
    from: int,
    e: Experts,
    x: BufId,
    sel: BufId,
    wt: BufId,
    mid: BufId,
) -> bool {
    ||| launched(
        log,
        from,
        Kernel::PairSwigluKIq2,
        2,
        seq![
            Command::Buffer(2, e.gate, 0),
            Command::Buffer(3, e.up, 0),
            Command::Buffer(4, x, 0),
            Command::Buffer(5, mid, 0),
            Command::Buffer(6, sel, 0),
            Command::Buffer(7, wt, 0),
        ],
    )
    ||| exists|g: BufId, p: BufId| #[trigger] paired_apart(log, from, e, x, sel, wt, mid, g, p)
}

/// [`paired`], with gate and up kept in `g` and `p`.
pub open spec fn paired_apart(
    log: Seq<Command>,
    from: int,
    e: Experts,
    x: BufId,
    sel: BufId,
    wt: BufId,
    mid: BufId,
    g: BufId,
    p: BufId,
) -> bool {
    launched(
        log,
        from,
        Kernel::PairSwigluKQ4K,
        2,
        seq![
            Command::Buffer(2, e.gate, 0),
            Command::Buffer(3, e.up, 0),
            Command::Buffer(4, x, 0),
            Command::Buffer(5, g, 0),
            Command::Buffer(6, p, 0),
            Command::Buffer(7, mid, 0),
            Command::Buffer(8, sel, 0),
            Command::Buffer(9, wt, 0),
        ],
    )
}

/// Down of the experts that `sel` selects, summed, went to `out`.
pub open spec fn summed_down(
    log: Seq<Command>,
    from: int,
    down: BufId,
    mid: BufId,
    sel: BufId,
    out: BufId,
) -> bool {
    let s = seq![
        Command::Buffer(1, down, 0),
        Command::Buffer(2, mid, 0),
        Command::Buffer(3, out, 0),
        Command::Buffer(4, sel, 0),
    ];
    launched(log, from, Kernel::Sum6Q4K, 1, s) || launched(log, from, Kernel::Sum6Q2K, 1, s)
}

pub(crate) proof fn paired_kept(
    a: Seq<Command>,
    b: Seq<Command>,
    from: int,
    earlier: int,
    e: Experts,
    x: BufId,
    sel: BufId,
    wt: BufId,
    mid: BufId,
)
    requires
        paired(a, from, e, x, sel, wt, mid),
        grew(a, b),
        earlier <= from,
    ensures
        paired(b, earlier, e, x, sel, wt, mid),
{
    broadcast use lemma_kept;

    let s = seq![
        Command::Buffer(2, e.gate, 0),
        Command::Buffer(3, e.up, 0),
        Command::Buffer(4, x, 0),
        Command::Buffer(5, mid, 0),
        Command::Buffer(6, sel, 0),
        Command::Buffer(7, wt, 0),
    ];
    if launched(a, from, Kernel::PairSwigluKIq2, 2, s) {
        assert(launched(b, earlier, Kernel::PairSwigluKIq2, 2, s));
    } else {
        let (g, p) = choose|g: BufId, p: BufId| #[trigger] paired_apart(
            a,
            from,
            e,
            x,
            sel,
            wt,
            mid,
            g,
            p,
        );
        assert(paired_apart(b, earlier, e, x, sel, wt, mid, g, p));
    }
}

pub(crate) proof fn summed_down_kept(
    a: Seq<Command>,
    b: Seq<Command>,
    from: int,
    earlier: int,
    down: BufId,
    mid: BufId,
    sel: BufId,
    out: BufId,
)
    requires
        summed_down(a, from, down, mid, sel, out),
        grew(a, b),
        earlier <= from,
    ensures
        summed_down(b, earlier, down, mid, sel, out),
{
    broadcast use lemma_kept;

    let s = seq![
        Command::Buffer(1, down, 0),
        Command::Buffer(2, mid, 0),
        Command::Buffer(3, out, 0),
        Command::Buffer(4, sel, 0),
    ];
    assert(
        launched(b, earlier, Kernel::Sum6Q4K, 1, s) || launched(b, earlier, Kernel::Sum6Q2K, 1, s)
    );
}

pub(crate) proof fn experts_at_once_kept(
    a: Seq<Command>,
    b: Seq<Command>,
    from: int,
    earlier: int,
    e: Experts,
    x: BufId,
    sel: BufId,
    wt: BufId,
    out: BufId,
)
    requires
        experts_at_once(a, from, e, x, sel, wt, out),
        grew(a, b),
        earlier <= from,
    ensures
        experts_at_once(b, earlier, e, x, sel, wt, out),
{
    let mid = choose|mid: BufId|
        #![trigger paired(a, from, e, x, sel, wt, mid)]
        paired(a, from, e, x, sel, wt, mid) && summed_down(a, from, e.down, mid, sel, out);
    paired_kept(a, b, from, earlier, e, x, sel, wt, mid);
    summed_down_kept(a, b, from, earlier, e.down, mid, sel, out);
}

pub(crate) proof fn did_pair_q4(
    t: Trace,
    e: Experts,
    gate: DeferredBuf,
    up: DeferredBuf,
    x: DeferredBuf,
    sel: DeferredBuf,
    wt: DeferredBuf,
    d_in: u64,
    d_ffn: u64,
    k: u64,
)
    ensures
        ({
            let (u, r) = t.encode_pair_swiglu_K_q4_K(gate, up, x, sel, wt, d_in, d_ffn, k);
            let out = r->Ok_0;
            r is Ok && e.gate == gate.buf && e.up == up.buf ==> paired(
                u.log,
                t.log.len() as int,
                e,
                x.buf,
                sel.buf,
                wt.buf,
                out.buf,
            )
        }),
{
    broadcast use group_flow;

    grew_itself(t.log);
    reveal(Trace::encode_pair_swiglu_K_q4_K);
    reveal(Trace::pair_launch);
    reveal(Trace::pooled_scratch_f32);
    let (u, r) = t.encode_pair_swiglu_K_q4_K(gate, up, x, sel, wt, d_in, d_ffn, k);
    if r is Ok && e.gate == gate.buf && e.up == up.buf {
        let out = r->Ok_0;
        let n = (k * 6 * d_ffn) as u64;
        let (a, g) = t.alloc_f32(n);
        let (b, p) = a.alloc_f32(n);
        lemma_tail(
            u.log,
            t.log.len() as int,
            Kernel::PairSwigluKQ4K,
            2,
            seq![
                Command::Buffer(2, gate.buf, 0),
                Command::Buffer(3, up.buf, 0),
                Command::Buffer(4, x.buf, 0),
                Command::Buffer(5, g.buf, 0),
                Command::Buffer(6, p.buf, 0),
                Command::Buffer(7, out.buf, 0),
                Command::Buffer(8, sel.buf, 0),
                Command::Buffer(9, wt.buf, 0),
            ],
            3,
        );
        assert(
            paired_apart(
                u.log,
                t.log.len() as int,
                e,
                x.buf,
                sel.buf,
                wt.buf,
                out.buf,
                g.buf,
                p.buf,
            )
        );
    }
}

pub(crate) proof fn did_pair_iq2(
    t: Trace,
    e: Experts,
    gate: DeferredBuf,
    up: DeferredBuf,
    x: DeferredBuf,
    sel: DeferredBuf,
    wt: DeferredBuf,
    d_in: u64,
    d_ffn: u64,
    k: u64,
)
    ensures
        ({
            let (u, r) = t.encode_pair_swiglu_K_iq2_xxs(gate, up, x, sel, wt, d_in, d_ffn, k);
            let out = r->Ok_0;
            r is Ok && e.gate == gate.buf && e.up == up.buf ==> paired(
                u.log,
                t.log.len() as int,
                e,
                x.buf,
                sel.buf,
                wt.buf,
                out.buf,
            )
        }),
{
    broadcast use group_flow;

    grew_itself(t.log);
    reveal(Trace::encode_pair_swiglu_K_iq2_xxs);
    reveal(Trace::pair_launch);
    reveal(Trace::pooled_scratch_f32);
    let (u, r) = t.encode_pair_swiglu_K_iq2_xxs(gate, up, x, sel, wt, d_in, d_ffn, k);
    if r is Ok && e.gate == gate.buf && e.up == up.buf {
        let out = r->Ok_0;
        lemma_tail(
            u.log,
            t.log.len() as int,
            Kernel::PairSwigluKIq2,
            2,
            seq![
                Command::Buffer(2, gate.buf, 0),
                Command::Buffer(3, up.buf, 0),
                Command::Buffer(4, x.buf, 0),
                Command::Buffer(5, out.buf, 0),
                Command::Buffer(6, sel.buf, 0),
                Command::Buffer(7, wt.buf, 0),
            ],
            3,
        );
    }
}

pub(crate) proof fn did_down(
    t: Trace,
    q4: bool,
    down: DeferredBuf,
    mid: DeferredBuf,
    sel: DeferredBuf,
    d_ffn: u64,
    d_embd: u64,
    k: u64,
)
    ensures
        ({
            let (u, r) = t.sum6_down(q4, down, mid, sel, d_ffn, d_embd, k);
            let out = r->Ok_0;
            r is Ok ==> summed_down(u.log, t.log.len() as int, down.buf, mid.buf, sel.buf, out.buf)
        }),
{
    broadcast use group_flow;

    grew_itself(t.log);
    reveal(Trace::sum6_down);
    let (u, r) = t.sum6_down(q4, down, mid, sel, d_ffn, d_embd, k);
    if r is Ok {
        let out = r->Ok_0;
        lemma_tail(
            u.log,
            t.log.len() as int,
            if q4 { Kernel::Sum6Q4K } else { Kernel::Sum6Q2K },
            1,
            seq![
                Command::Buffer(1, down.buf, 0),
                Command::Buffer(2, mid.buf, 0),
                Command::Buffer(3, out.buf, 0),
                Command::Buffer(4, sel.buf, 0),
            ],
            3,
        );
    }
}

/// The fused experts follow their flow in two launches, over one choice of experts.
pub proof fn law_fused_flow(
    t: Trace,
    q4: bool,
    x: DeferredBuf,
    sel: DeferredBuf,
    wt: DeferredBuf,
    gate: DeferredBuf,
    up: DeferredBuf,
    down: DeferredBuf,
    d_embd: u64,
    d_ffn: u64,
    k: u64,
)
    ensures
        ({
            let (u, r) = t.moe_chain_fused(q4, x, sel, wt, gate, up, down, d_embd, d_ffn, k);
            let out = r->Ok_0;
            r is Ok ==> experts_at_once(
                u.log,
                t.log.len() as int,
                Experts { gate: gate.buf, up: up.buf, down: down.buf },
                x.buf,
                sel.buf,
                wt.buf,
                out.buf,
            )
        }),
{
    broadcast use group_flow;

    grew_itself(t.log);
    reveal(Trace::moe_chain_fused);
    let (u, r) = t.moe_chain_fused(q4, x, sel, wt, gate, up, down, d_embd, d_ffn, k);
    if r is Ok {
        let out = r->Ok_0;
        let from = t.log.len() as int;
        let e = Experts { gate: gate.buf, up: up.buf, down: down.buf };
        let (a, mid) = if q4 {
            t.encode_pair_swiglu_K_q4_K(gate, up, x, sel, wt, d_embd, d_ffn, k)
        } else {
            t.encode_pair_swiglu_K_iq2_xxs(gate, up, x, sel, wt, d_embd, d_ffn, k)
        };
        if q4 {
            did_pair_q4(t, e, gate, up, x, sel, wt, d_embd, d_ffn, k);
        } else {
            did_pair_iq2(t, e, gate, up, x, sel, wt, d_embd, d_ffn, k);
        }
        did_down(a, q4, down, mid->Ok_0, sel, d_ffn, d_embd, k);
        grew_itself(a.log);
        grew_itself(u.log);
        assert(grew(t.log, a.log) && grew(a.log, u.log)) by {
            broadcast use {
                grows_encode_pair_swiglu_K_q4_K,
                grows_encode_pair_swiglu_K_iq2_xxs,
                grows_sum6_down,
            };
        }
        paired_kept(a.log, u.log, from, from, e, x.buf, sel.buf, wt.buf, mid->Ok_0.buf);
        summed_down_kept(
            u.log,
            u.log,
            a.log.len() as int,
            from,
            e.down,
            mid->Ok_0.buf,
            sel.buf,
            out.buf,
        );
    }
}

/// The buffers of a layer's routed experts: the streaming pool's where experts are
/// streamed, the layer's own otherwise.
pub open spec fn experts_of(t: Trace, layer: u32, streams: bool) -> Experts {
    if streams && t.config.ssd_stream {
        Experts {
            gate: t.engine.chunk_pool->Some_0.gate,
            up: t.engine.chunk_pool->Some_0.up,
            down: t.engine.chunk_pool->Some_0.down,
        }
    } else {
        let e = t.engine.experts[layer as int];
        Experts { gate: e.gate.buf, up: e.up.buf, down: e.down.buf }
    }
}

/// The gathered experts of a layer are those of that layer, or those of the streaming
/// pool.
pub proof fn law_layer_experts_flow(
    t: Trace,
    layer: u32,
    x: DeferredBuf,
    sel: DeferredBuf,
    wt: DeferredBuf,
    d_embd: u64,
    d_ffn: u64,
    k: u64,
)
    ensures
        ({
            let (u, r) = t.encode_moe_chain_mm_qx_k_auto(layer, x, sel, wt, d_embd, d_ffn, k);
            let out = r->Ok_0;
            r is Ok ==> experts_by_gather(
                u.log,
                t.log.len() as int,
                experts_of(t, layer, true),
                x.buf,
                sel.buf,
                wt.buf,
                out.buf,
            )
        }),
{
    broadcast use group_flow;

    grew_itself(t.log);
    reveal(Trace::encode_moe_chain_mm_qx_k_auto);
    let (u, r) = t.encode_moe_chain_mm_qx_k_auto(layer, x, sel, wt, d_embd, d_ffn, k);
    if r is Ok {
        let out = r->Ok_0;
        let e = t.engine.experts[layer as int];
        let f = inner_width(d_ffn, e);
        let n = (e.n_experts * f * d_embd) as u64;
        let w = experts_of(t, layer, true);
        let a = if t.config.ssd_stream {
            t.bind_pool(layer)
        } else {
            t
        };
        let g = DeferredBuf { buf: w.gate, n_elements: n };
        let p = DeferredBuf { buf: w.up, n_elements: n };
        let d = DeferredBuf { buf: w.down, n_elements: n };
        law_experts_flow(
            a,
            x,
            sel,
            wt,
            g,
            p,
            d,
            spec_stage(e.gate.ttype)->Some_0,
            spec_stage(e.up.ttype)->Some_0,
            spec_stage(e.down.ttype)->Some_0,
            e.n_experts as u64,
            d_embd,
            f,
            k,
        );
        assert(grew(t.log, a.log));
        grew_itself(u.log);
        experts_by_gather_kept(
            u.log,
            u.log,
            a.log.len() as int,
            t.log.len() as int,
            w,
            x.buf,
            sel.buf,
            wt.buf,
            out.buf,
        );
    }
}

/// The fused experts of a layer are those of that layer.
pub proof fn law_layer_fused_flow(
    t: Trace,
    layer: u32,
    x: DeferredBuf,
    sel: DeferredBuf,
    wt: DeferredBuf,
    d_embd: u64,
    d_ffn: u64,
    k: u64,
)
    ensures
        ({
            let (u, r) = t.encode_moe_chain_fused_K_auto(layer, x, sel, wt, d_embd, d_ffn, k);
            let out = r->Ok_0;
            r is Ok ==> experts_at_once(
                u.log,
                t.log.len() as int,
                experts_of(t, layer, false),
                x.buf,
                sel.buf,
                wt.buf,
                out.buf,
            )
        }),
{
    broadcast use group_flow;

    grew_itself(t.log);
    reveal(Trace::encode_moe_chain_fused_K_auto);
    let (u, r) = t.encode_moe_chain_fused_K_auto(layer, x, sel, wt, d_embd, d_ffn, k);
    if r is Ok {
        let out = r->Ok_0;
        let e = t.engine.experts[layer as int];
        let f = inner_width(d_ffn, e);
        let n = (e.n_experts * f * d_embd) as u64;
        let g = DeferredBuf { buf: e.gate.buf, n_elements: n };
        let p = DeferredBuf { buf: e.up.buf, n_elements: n };
        let d = DeferredBuf { buf: e.down.buf, n_elements: n };
        law_fused_flow(t, true, x, sel, wt, g, p, d, d_embd, f, k);
        law_fused_flow(t, false, x, sel, wt, g, p, d, d_embd, f, k);
    }
}

} // verus!
