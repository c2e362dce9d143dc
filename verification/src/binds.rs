//! What each operation hands to the device: which buffer stands in which slot of its
//! launch, and with which numbers. Every result lies in a buffer of its own.

use crate::attention::unrotated;
use crate::command::{
    Args, BufId, Command, DeferredBuf, Elem, F32, HcExpandArgs, HcSplitArgs, HostRef, Map0Args,
    MmArgs, MulMmIdArgs, MulMvArgs, NormArgs, PoolFillArgs, PrefillArgs, PrefillIdx, RopeArgs,
    SelectArgs,
};
use crate::config::{KvMerge, LayerParams};
use crate::growth::{
    grew, grew_itself, grew_push, grows_alloc_attn_out, grows_hc_rows, grows_matvec_attn_proj,
    grows_pooled_scratch_f32, grows_pooled_scratch_u16,
};
use crate::hc::{Collapsed, hc_binds_at, spec_hc_args};
use crate::kernel::{Kernel, Pipe};
use crate::moe::MmStage;
use crate::pool::PoolKey;
use crate::trace::Trace;
use vstd::prelude::*;

verus! {

/// A pipeline of this kernel, loaded or built.
pub open spec fn pipes(c: Command, k: Kernel) -> bool {
    match c {
        Command::Pipeline(Pipe::Loaded(l)) => l == k,
        Command::Pipeline(Pipe::Special(l, _)) => l == k,
        _ => false,
    }
}

/// At place `p` the log sets a pipeline of `k`, and `skip` commands after it come
/// the commands `s`, one after the other.
pub open spec fn launch_at(
    log: Seq<Command>,
    p: int,
    k: Kernel,
    skip: int,
    s: Seq<Command>,
) -> bool {
    &&& 0 <= p
    &&& 0 <= skip
    &&& p + 1 + skip + s.len() <= log.len()
    &&& pipes(log[p], k)
    &&& log.subrange(p + 1 + skip, p + 1 + skip + s.len()) == s
}

/// From place `from` on, the log launches `k` with these commands, the first of them
/// `skip` places behind the pipeline.
#[verifier::opaque]
pub open spec fn launched(
    log: Seq<Command>,
    from: int,
    k: Kernel,
    skip: int,
    s: Seq<Command>,
) -> bool {
    exists|p: int| from <= p && #[trigger] launch_at(log, p, k, skip, s)
}

/// A buffer that did not exist in `t`, or one of the pool.
pub open spec fn anew(t: Trace, b: BufId) -> bool {
    match b {
        BufId::Fresh(i) => i >= t.log.len(),
        BufId::Pooled(_, _) => true,
        _ => false,
    }
}

/// Places of this recording and a thousand more can be numbered.
pub open spec fn room(t: Trace) -> bool {
    t.log.len() + 1000 <= u64::MAX
}

/// What was launched stays launched as a recording grows.
pub broadcast proof fn lemma_kept(
    a: Seq<Command>,
    b: Seq<Command>,
    from: int,
    earlier: int,
    k: Kernel,
    skip: int,
    s: Seq<Command>,
)
    requires
        #[trigger] launched(a, from, k, skip, s),
        grew(a, b),
        earlier <= from,
    ensures
        #[trigger] launched(b, earlier, k, skip, s),
{
    reveal(launched);
    reveal(grew);
    let p = choose|p: int| from <= p && #[trigger] launch_at(a, p, k, skip, s);
    assert(b[p] == a[p]);
    assert(b.subrange(p + 1 + skip, p + 1 + skip + s.len()) =~= a.subrange(
        p + 1 + skip,
        p + 1 + skip + s.len(),
    ));
    assert(launch_at(b, p, k, skip, s));
}

/// A launch is also one of any run of its commands.
pub proof fn lemma_part(
    log: Seq<Command>,
    from: int,
    k: Kernel,
    s: Seq<Command>,
    skip: int,
    n: int,
)
    requires
        launched(log, from, k, 0, s),
        0 <= skip,
        0 <= n,
        skip + n <= s.len(),
    ensures
        launched(log, from, k, skip, s.subrange(skip, skip + n)),
{
    reveal(launched);
    let p = choose|p: int| from <= p && #[trigger] launch_at(log, p, k, 0, s);
    let part = s.subrange(skip, skip + n);
    let whole = log.subrange(p + 1, p + 1 + s.len());
    assert forall|j: int| 0 <= j < n implies log.subrange(p + 1 + skip, p + 1 + skip + n)[j]
        == part[j] by {
        assert(whole[skip + j] == s[skip + j]);
    }
    assert(log.subrange(p + 1 + skip, p + 1 + skip + n) =~= part);
    assert(launch_at(log, p, k, skip, part));
}

/// The launch at the end of a log, with `after` commands behind it.
pub proof fn lemma_tail(
    log: Seq<Command>,
    from: int,
    k: Kernel,
    skip: int,
    s: Seq<Command>,
    after: int,
)
    requires
        0 <= from,
        0 <= skip,
        0 <= after,
        from <= log.len() - after - s.len() - skip - 1,
        pipes(log[log.len() - after - s.len() - skip - 1], k),
        log.subrange(log.len() - after - s.len(), log.len() - after) =~= s,
    ensures
        launched(log, from, k, skip, s),
{
    reveal(launched);
    let p = log.len() - after - s.len() - skip - 1;
    assert(launch_at(log, p, k, skip, s));
}

pub broadcast proof fn grew_len(a: Seq<Command>, b: Seq<Command>)
    requires
        #[trigger] grew(a, b),
    ensures
        a.len() <= b.len(),
{
    reveal(grew);
}

broadcast group group_binds {
    grew_push,
    grew_len,
    grows_alloc_attn_out,
    grows_pooled_scratch_f32,
    grows_pooled_scratch_u16,
}

/// The numbers of a product of one matrix of `d_out` rows, `row` bytes each, with `k`
/// vectors of `d_in` singles.
pub open spec fn product_args(d_in: u64, d_out: u64, unit: u64, row: int, k: u64) -> MulMvArgs {
    MulMvArgs {
        ne00: d_in as i32,
        ne01: d_out as i32,
        ne02: 1,
        nb00: unit,
        nb01: row as u64,
        nb02: (row * d_out) as u64,
        nb03: (row * d_out) as u64,
        ne10: d_in as i32,
        ne11: k as i32,
        ne12: 1,
        nb10: 4,
        nb11: (d_in * 4) as u64,
        nb12: (k * d_in * 4) as u64,
        nb13: (k * d_in * 4) as u64,
        ne0: d_out as i32,
        ne1: k as i32,
        nr0: 2,
        r2: 1,
        r3: 1,
    }
}

/// The numbers of a GEMM of one matrix of `d_out` rows, `row` bytes each, with `k`
/// vectors of `d_in` elements of `act` bytes.
pub open spec fn gemm_args(d_in: u64, d_out: u64, row: int, act: u64, k: u64) -> MmArgs {
    MmArgs {
        ne00: d_in as i32,
        ne02: 1,
        nb01: row as u64,
        nb02: (row * d_out) as u64,
        nb03: (row * d_out) as u64,
        ne12: 1,
        nb10: act,
        nb11: (d_in * act) as u64,
        nb12: (d_in * k * act) as u64,
        nb13: (d_in * k * act) as u64,
        ne0: d_out as i32,
        ne1: k as i32,
        r2: 1,
        r3: 1,
    }
}

/// The bytes of a row of `d_in` weights in Q8_0: blocks of 32 in 34 bytes.
pub open spec fn q8_bytes_of(d_in: u64) -> int {
    d_in / 32 * 34
}

/// The Q8_0 product multiplies the matrix in its first operand with the vector in its
/// second, into its result.
pub proof fn law_q8_product_binds(t: Trace, w: DeferredBuf, x: DeferredBuf, d_in: u64, d_out: u64)
    requires
        room(t),
        d_in <= u32::MAX,
    ensures
        ({
            let (u, r) = t.matvec_q8_0(w, x, d_in, d_out);
            let out = r->Ok_0;
            r is Ok ==> {
                &&& anew(t, out.buf)
                &&& launched(
                    u.log,
                    t.log.len() as int,
                    Kernel::MulMvQ8,
                    0,
                    seq![
                        Command::Bytes(
                            0,
                            Args::MulMv(product_args(d_in, d_out, 2, q8_bytes_of(d_in), 1)),
                        ),
                        Command::Buffer(1, w.buf, 0),
                        Command::Buffer(2, x.buf, 0),
                        Command::Buffer(3, out.buf, 0),
                        Command::GroupMemory(256),
                    ],
                )
                &&& out.n_elements == d_out
                &&& w.n_elements == d_in * d_out
                &&& x.n_elements == d_in
            }
        }),
{
    broadcast use group_binds;

    grew_itself(t.log);
    reveal(Trace::matvec_q8_0);
    let (u, r) = t.matvec_q8_0(w, x, d_in, d_out);
    if r is Ok {
        let out = r->Ok_0;
        lemma_tail(
            u.log,
            t.log.len() as int,
            Kernel::MulMvQ8,
            0,
            seq![
                Command::Bytes(0, Args::MulMv(product_args(d_in, d_out, 2, q8_bytes_of(d_in), 1))),
                Command::Buffer(1, w.buf, 0),
                Command::Buffer(2, x.buf, 0),
                Command::Buffer(3, out.buf, 0),
                Command::GroupMemory(256),
            ],
            2,
        );
    }
}

/// The Q8_0 product of one, two, four or eight positions multiplies the matrix in its
/// first operand with the vectors in its second, into its result.
pub proof fn law_q8_products_bind(
    t: Trace,
    w: DeferredBuf,
    x: DeferredBuf,
    d_in: u64,
    d_out: u64,
    k: u64,
)
    requires
        room(t),
    ensures
        ({
            let (u, r) = t.matvec_k_q8_0(w, x, d_in, d_out, k);
            let out = r->Ok_0;
            r is Ok && !t.config.q8_faithful ==> {
                &&& anew(t, out.buf)
                &&& launched(
                    u.log,
                    t.log.len() as int,
                    Kernel::MulMvKQ8,
                    0,
                    seq![
                        Command::Bytes(0, Args::U32(d_in as u32)),
                        Command::Bytes(1, Args::U32(d_out as u32)),
                        Command::Buffer(2, w.buf, 0),
                        Command::Buffer(3, x.buf, 0),
                        Command::Buffer(4, out.buf, 0),
                        Command::GroupMemory(5120),
                        Command::Dispatch((((d_out + 31) / 32) as u64, 1, 1), (32, 4, 1)),
                    ],
                )
                &&& out.n_elements == (k * d_out) as u64
                &&& w.n_elements == d_in * d_out
                &&& x.n_elements == k * d_in
            }
        }),
{
    broadcast use group_binds;

    grew_itself(t.log);
    reveal(Trace::matvec_k_q8_0);
    let (u, r) = t.matvec_k_q8_0(w, x, d_in, d_out, k);
    if r is Ok && !t.config.q8_faithful {
        let out = r->Ok_0;
        lemma_tail(
            u.log,
            t.log.len() as int,
            Kernel::MulMvKQ8,
            0,
            seq![
                Command::Bytes(0, Args::U32(d_in as u32)),
                Command::Bytes(1, Args::U32(d_out as u32)),
                Command::Buffer(2, w.buf, 0),
                Command::Buffer(3, x.buf, 0),
                Command::Buffer(4, out.buf, 0),
                Command::GroupMemory(5120),
                Command::Dispatch((((d_out + 31) / 32) as u64, 1, 1), (32, 4, 1)),
            ],
            1,
        );
    }
}

/// The product with single-precision weights multiplies the matrix in its first operand
/// with the vector in its second, into its result.
pub proof fn law_single_product_binds(
    t: Trace,
    w: DeferredBuf,
    x: DeferredBuf,
    d_in: u64,
    d_out: u64,
)
    requires
        room(t),
        d_in * d_out * 4 <= u64::MAX,
    ensures
        ({
            let (u, r) = t.matvec_f32(w, x, d_in, d_out);
            let out = r->Ok_0;
            r is Ok ==> {
                &&& anew(t, out.buf)
                &&& launched(
                    u.log,
                    t.log.len() as int,
                    Kernel::MulMvF32,
                    0,
                    seq![
                        Command::Bytes(0, Args::MulMv(product_args(d_in, d_out, 4, d_in * 4, 1))),
                        Command::Buffer(1, w.buf, 0),
                        Command::Buffer(2, x.buf, 0),
                        Command::Buffer(3, out.buf, 0),
                        Command::GroupMemory(256),
                    ],
                )
                &&& out.n_elements == d_out
            }
        }),
{
    broadcast use group_binds;

    grew_itself(t.log);
    reveal(Trace::matvec_f32);
    let (u, r) = t.matvec_f32(w, x, d_in, d_out);
    if r is Ok {
        let out = r->Ok_0;
        assert(d_in * d_out * 4 == d_in * 4 * d_out) by (nonlinear_arith);
        lemma_tail(
            u.log,
            t.log.len() as int,
            Kernel::MulMvF32,
            0,
            seq![
                Command::Bytes(0, Args::MulMv(product_args(d_in, d_out, 4, d_in * 4, 1))),
                Command::Buffer(1, w.buf, 0),
                Command::Buffer(2, x.buf, 0),
                Command::Buffer(3, out.buf, 0),
                Command::GroupMemory(256),
            ],
            2,
        );
    }
}

/// The product with half-precision weights multiplies the matrix in its first operand
/// with the vector in its second, into its result.
pub proof fn law_half_product_binds(
    t: Trace,
    w: DeferredBuf,
    x: DeferredBuf,
    d_in: u64,
    d_out: u64,
)
    requires
        room(t),
        d_in * d_out * 4 <= u64::MAX,
    ensures
        ({
            let (u, r) = t.matvec_f16(w, x, d_in, d_out);
            let out = r->Ok_0;
            r is Ok ==> {
                &&& anew(t, out.buf)
                &&& launched(
                    u.log,
                    t.log.len() as int,
                    Kernel::MulMvF16,
                    0,
                    seq![
                        Command::Bytes(0, Args::MulMv(product_args(d_in, d_out, 2, d_in * 2, 1))),
                        Command::Buffer(1, w.buf, 0),
                        Command::Buffer(2, x.buf, 0),
                        Command::Buffer(3, out.buf, 0),
                        Command::GroupMemory(256),
                    ],
                )
                &&& out.n_elements == d_out
            }
        }),
{
    broadcast use group_binds;

    grew_itself(t.log);
    reveal(Trace::matvec_f16);
    let (u, r) = t.matvec_f16(w, x, d_in, d_out);
    if r is Ok {
        let out = r->Ok_0;
        assert(d_in * d_out * 2 == d_in * 2 * d_out) by (nonlinear_arith);
        lemma_tail(
            u.log,
            t.log.len() as int,
            Kernel::MulMvF16,
            0,
            seq![
                Command::Bytes(0, Args::MulMv(product_args(d_in, d_out, 2, d_in * 2, 1))),
                Command::Buffer(1, w.buf, 0),
                Command::Buffer(2, x.buf, 0),
                Command::Buffer(3, out.buf, 0),
                Command::GroupMemory(256),
            ],
            2,
        );
    }
}

/// The product of several positions in one launch multiplies the matrix in its first
/// operand with the vectors in its second, into its result.
pub proof fn law_single_products_bind(
    t: Trace,
    w: DeferredBuf,
    x: DeferredBuf,
    d_in: u64,
    d_out: u64,
    k: u64,
)
    requires
        room(t),
        d_in * d_out * 4 <= u64::MAX,
    ensures
        ({
            let (u, r) = t.matmul_f32_k(w, x, d_in, d_out, k);
            let out = r->Ok_0;
            r is Ok ==> {
                &&& anew(t, out.buf)
                &&& launched(
                    u.log,
                    t.log.len() as int,
                    Kernel::MulMvF32,
                    0,
                    seq![
                        Command::Bytes(0, Args::MulMv(product_args(d_in, d_out, 4, d_in * 4, k))),
                        Command::Buffer(1, w.buf, 0),
                        Command::Buffer(2, x.buf, 0),
                        Command::Buffer(3, out.buf, 0),
                        Command::GroupMemory(256),
                    ],
                )
                &&& out.n_elements == (k * d_out) as u64
            }
        }),
{
    broadcast use group_binds;

    grew_itself(t.log);
    reveal(Trace::matmul_f32_k);
    let (u, r) = t.matmul_f32_k(w, x, d_in, d_out, k);
    if r is Ok {
        let out = r->Ok_0;
        assert(d_in * d_out * 4 == d_in * 4 * d_out) by (nonlinear_arith);
        lemma_tail(
            u.log,
            t.log.len() as int,
            Kernel::MulMvF32,
            0,
            seq![
                Command::Bytes(0, Args::MulMv(product_args(d_in, d_out, 4, d_in * 4, k))),
                Command::Buffer(1, w.buf, 0),
                Command::Buffer(2, x.buf, 0),
                Command::Buffer(3, out.buf, 0),
                Command::GroupMemory(256),
            ],
            2,
        );
    }
}

/// The product of several positions in one launch multiplies the matrix in its first
/// operand with the vectors in its second, into its result.
pub proof fn law_half_products_bind(
    t: Trace,
    w: DeferredBuf,
    x: DeferredBuf,
    d_in: u64,
    d_out: u64,
    k: u64,
)
    requires
        room(t),
        d_in * d_out * 4 <= u64::MAX,
    ensures
        ({
            let (u, r) = t.matmul_f16_k(w, x, d_in, d_out, k);
            let out = r->Ok_0;
            r is Ok ==> {
                &&& anew(t, out.buf)
                &&& launched(
                    u.log,
                    t.log.len() as int,
                    Kernel::MulMvF16,
                    0,
                    seq![
                        Command::Bytes(0, Args::MulMv(product_args(d_in, d_out, 2, d_in * 2, k))),
                        Command::Buffer(1, w.buf, 0),
                        Command::Buffer(2, x.buf, 0),
                        Command::Buffer(3, out.buf, 0),
                        Command::GroupMemory(256),
                    ],
                )
                &&& out.n_elements == (k * d_out) as u64
            }
        }),
{
    broadcast use group_binds;

    grew_itself(t.log);
    reveal(Trace::matmul_f16_k);
    let (u, r) = t.matmul_f16_k(w, x, d_in, d_out, k);
    if r is Ok {
        let out = r->Ok_0;
        assert(d_in * d_out * 2 == d_in * 2 * d_out) by (nonlinear_arith);
        lemma_tail(
            u.log,
            t.log.len() as int,
            Kernel::MulMvF16,
            0,
            seq![
                Command::Bytes(0, Args::MulMv(product_args(d_in, d_out, 2, d_in * 2, k))),
                Command::Buffer(1, w.buf, 0),
                Command::Buffer(2, x.buf, 0),
                Command::Buffer(3, out.buf, 0),
                Command::GroupMemory(256),
            ],
            2,
        );
    }
}

/// The product of several positions in one launch multiplies the matrix in its first
/// operand with the vectors in its second, into its result.
pub proof fn law_vector_products_bind(
    t: Trace,
    w: DeferredBuf,
    x: DeferredBuf,
    d_in: u64,
    d_out: u64,
    k: u64,
)
    requires
        room(t),
        d_in * d_out * 4 <= u64::MAX,
    ensures
        ({
            let (u, r) = t.matvec_f32_k(w, x, d_in, d_out, k);
            let out = r->Ok_0;
            r is Ok ==> {
                &&& anew(t, out.buf)
                &&& launched(
                    u.log,
                    t.log.len() as int,
                    Kernel::MulMvF32,
                    0,
                    seq![
                        Command::Bytes(0, Args::MulMv(product_args(d_in, d_out, 4, d_in * 4, k))),
                        Command::Buffer(1, w.buf, 0),
                        Command::Buffer(2, x.buf, 0),
                        Command::Buffer(3, out.buf, 0),
                        Command::GroupMemory(256),
                    ],
                )
                &&& out.n_elements == (k * d_out) as u64
            }
        }),
{
    broadcast use group_binds;

    grew_itself(t.log);
    reveal(Trace::matvec_f32_k);
    let (u, r) = t.matvec_f32_k(w, x, d_in, d_out, k);
    if r is Ok {
        let out = r->Ok_0;
        assert(d_in * d_out * 4 == d_in * 4 * d_out) by (nonlinear_arith);
        lemma_tail(
            u.log,
            t.log.len() as int,
            Kernel::MulMvF32,
            0,
            seq![
                Command::Bytes(0, Args::MulMv(product_args(d_in, d_out, 4, d_in * 4, k))),
                Command::Buffer(1, w.buf, 0),
                Command::Buffer(2, x.buf, 0),
                Command::Buffer(3, out.buf, 0),
                Command::GroupMemory(256),
            ],
            2,
        );
    }
}

/// The Q8_0 GEMM multiplies the matrix in its first operand with the vectors in its
/// second, into its result.
pub proof fn law_q8_gemm_binds(
    t: Trace,
    w: DeferredBuf,
    x: DeferredBuf,
    d_in: u64,
    d_out: u64,
    k: u64,
)
    requires
        room(t),
        d_in <= u32::MAX,
    ensures
        ({
            let (u, r) = t.matmul_k_q8_0(w, x, d_in, d_out, k);
            let out = r->Ok_0;
            r is Ok && !t.config.q8_faithful && !t.config.attn_gemm_f16 ==> {
                &&& anew(t, out.buf)
                &&& launched(
                    u.log,
                    t.log.len() as int,
                    Kernel::MulMmQ8F32,
                    0,
                    seq![
                        Command::Bytes(
                            0,
                            Args::Mm(gemm_args(d_in, d_out, q8_bytes_of(d_in), 4, k)),
                        ),
                        Command::Buffer(1, w.buf, 0),
                        Command::Buffer(2, x.buf, 0),
                        Command::Buffer(3, out.buf, 0),
                    ],
                )
                &&& out.n_elements == (k * d_out) as u64
            }
        }),
{
    broadcast use group_binds;

    grew_itself(t.log);
    reveal(Trace::matmul_k_q8_0);
    reveal(Trace::alloc_attn_out);
    let (u, r) = t.matmul_k_q8_0(w, x, d_in, d_out, k);
    if r is Ok && !t.config.q8_faithful && !t.config.attn_gemm_f16 {
        let out = r->Ok_0;
        lemma_tail(
            u.log,
            t.log.len() as int,
            Kernel::MulMmQ8F32,
            0,
            seq![
                Command::Bytes(0, Args::Mm(gemm_args(d_in, d_out, q8_bytes_of(d_in), 4, k))),
                Command::Buffer(1, w.buf, 0),
                Command::Buffer(2, x.buf, 0),
                Command::Buffer(3, out.buf, 0),
            ],
            3,
        );
    }
}

/// With half-precision activations, the Q8_0 GEMM reads the conversion of its second
/// operand, and nothing else of it.
pub proof fn law_half_gemm_binds(
    t: Trace,
    w: DeferredBuf,
    x: DeferredBuf,
    d_in: u64,
    d_out: u64,
    k: u64,
)
    requires
        room(t),
        d_in <= u32::MAX,
    ensures
        ({
            let (u, r) = t.matmul_k_q8_0(w, x, d_in, d_out, k);
            let out = r->Ok_0;
            let half = t.alloc_attn_out(
                (if t.config.mm_pad {
                    (k + 31) / 32 * 32
                } else {
                    k as int
                } * d_out) as u64,
            ).0.cast_f32_to_f16_contig(x, (k * d_in) as u64).1->Ok_0;
            r is Ok && !t.config.q8_faithful && t.config.attn_gemm_f16 ==> {
                &&& anew(t, out.buf)
                &&& launched(
                    u.log,
                    t.log.len() as int,
                    Kernel::MulMmQ8F16,
                    0,
                    seq![
                        Command::Bytes(
                            0,
                            Args::Mm(gemm_args(d_in, d_out, q8_bytes_of(d_in), 2, k)),
                        ),
                        Command::Buffer(1, w.buf, 0),
                        Command::Buffer(2, half.buf, 0),
                        Command::Buffer(3, out.buf, 0),
                    ],
                )
                &&& out.n_elements == (k * d_out) as u64
            }
        }),
{
    broadcast use group_binds;

    grew_itself(t.log);
    reveal(Trace::matmul_k_q8_0);
    reveal(Trace::alloc_attn_out);
    reveal(Trace::cast_f32_to_f16_contig);
    let (u, r) = t.matmul_k_q8_0(w, x, d_in, d_out, k);
    if r is Ok && !t.config.q8_faithful && t.config.attn_gemm_f16 {
        let out = r->Ok_0;
        let half = t.alloc_attn_out(
            (if t.config.mm_pad {
                (k + 31) / 32 * 32
            } else {
                k as int
            } * d_out) as u64,
        ).0.cast_f32_to_f16_contig(x, (k * d_in) as u64).1->Ok_0;
        lemma_tail(
            u.log,
            t.log.len() as int,
            Kernel::MulMmQ8F16,
            0,
            seq![
                Command::Bytes(0, Args::Mm(gemm_args(d_in, d_out, q8_bytes_of(d_in), 2, k))),
                Command::Buffer(1, w.buf, 0),
                Command::Buffer(2, half.buf, 0),
                Command::Buffer(3, out.buf, 0),
            ],
            3,
        );
    }
}

/// The Q4_0 GEMM multiplies the matrix in its first operand with the vectors in its
/// second, into its result.
pub proof fn law_q4_gemm_binds(
    t: Trace,
    w: DeferredBuf,
    x: DeferredBuf,
    d_in: u64,
    d_out: u64,
    k: u64,
)
    requires
        room(t),
        d_in <= u32::MAX,
    ensures
        ({
            let (u, r) = t.matmul_k_q4_0(w, x, d_in, d_out, k);
            let out = r->Ok_0;
            r is Ok ==> {
                &&& anew(t, out.buf)
                &&& launched(
                    u.log,
                    t.log.len() as int,
                    Kernel::MulMmQ4F32,
                    0,
                    seq![
                        Command::Bytes(0, Args::Mm(gemm_args(d_in, d_out, d_in / 32 * 18, 4, k))),
                        Command::Buffer(1, w.buf, 0),
                        Command::Buffer(2, x.buf, 0),
                        Command::Buffer(3, out.buf, 0),
                    ],
                )
                &&& out.n_elements == (k * d_out) as u64
            }
        }),
{
    broadcast use group_binds;

    grew_itself(t.log);
    reveal(Trace::matmul_k_q4_0);
    reveal(Trace::alloc_attn_out);
    let (u, r) = t.matmul_k_q4_0(w, x, d_in, d_out, k);
    if r is Ok {
        let out = r->Ok_0;
        lemma_tail(
            u.log,
            t.log.len() as int,
            Kernel::MulMmQ4F32,
            0,
            seq![
                Command::Bytes(0, Args::Mm(gemm_args(d_in, d_out, d_in / 32 * 18, 4, k))),
                Command::Buffer(1, w.buf, 0),
                Command::Buffer(2, x.buf, 0),
                Command::Buffer(3, out.buf, 0),
            ],
            3,
        );
    }
}

/// The half-precision GEMM multiplies the matrix in its first operand with the vectors
/// in its second, into its result.
pub proof fn law_f16_gemm_binds(
    t: Trace,
    w: DeferredBuf,
    x: DeferredBuf,
    d_in: u64,
    d_out: u64,
    k: u64,
)
    requires
        room(t),
        d_in <= u32::MAX,
    ensures
        ({
            let (u, r) = t.matmul_k_f16(w, x, d_in, d_out, k);
            let out = r->Ok_0;
            r is Ok ==> {
                &&& anew(t, out.buf)
                &&& launched(
                    u.log,
                    t.log.len() as int,
                    Kernel::MulMmF16F32,
                    0,
                    seq![
                        Command::Bytes(0, Args::Mm(gemm_args(d_in, d_out, d_in * 2, 4, k))),
                        Command::Buffer(1, w.buf, 0),
                        Command::Buffer(2, x.buf, 0),
                        Command::Buffer(3, out.buf, 0),
                    ],
                )
                &&& out.n_elements == (k * d_out) as u64
            }
        }),
{
    broadcast use group_binds;

    grew_itself(t.log);
    reveal(Trace::matmul_k_f16);
    let (u, r) = t.matmul_k_f16(w, x, d_in, d_out, k);
    if r is Ok {
        let out = r->Ok_0;
        lemma_tail(
            u.log,
            t.log.len() as int,
            Kernel::MulMmF16F32,
            0,
            seq![
                Command::Bytes(0, Args::Mm(gemm_args(d_in, d_out, d_in * 2, 4, k))),
                Command::Buffer(1, w.buf, 0),
                Command::Buffer(2, x.buf, 0),
                Command::Buffer(3, out.buf, 0),
            ],
            3,
        );
    }
}

/// The conversion to half precision reads its operand and writes its result.
pub proof fn law_cast_binds(t: Trace, x: DeferredBuf, n: u64)
    requires
        room(t),
    ensures
        ({
            let (u, r) = t.cast_f32_to_f16_contig(x, n);
            let out = r->Ok_0;
            r is Ok ==> {
                &&& anew(t, out.buf)
                &&& launched(
                    u.log,
                    t.log.len() as int,
                    Kernel::CpyF32F16,
                    1,
                    seq![
                        Command::Buffer(1, x.buf, 0),
                        Command::Buffer(2, out.buf, 0),
                        Command::Dispatch((((n + 255) / 256) as u64, 1, 1), (256, 1, 1)),
                    ],
                )
                &&& out.n_elements == n
            }
        }),
{
    broadcast use group_binds;

    grew_itself(t.log);
    reveal(Trace::cast_f32_to_f16_contig);
    let (u, r) = t.cast_f32_to_f16_contig(x, n);
    if r is Ok {
        let out = r->Ok_0;
        lemma_tail(
            u.log,
            t.log.len() as int,
            Kernel::CpyF32F16,
            1,
            seq![
                Command::Buffer(1, x.buf, 0),
                Command::Buffer(2, out.buf, 0),
                Command::Dispatch((((n + 255) / 256) as u64, 1, 1), (256, 1, 1)),
            ],
            1,
        );
    }
}

/// The GEMM by groups multiplies the matrices in its first operand with the vectors in
/// its second, into its result.
pub proof fn law_grouped_gemm_binds(
    t: Trace,
    w: DeferredBuf,
    x: DeferredBuf,
    group_dim: u64,
    n_lora_o: u64,
    n_groups: u64,
    k: u64,
)
    requires
        room(t),
    ensures
        ({
            let (u, r) = t.matmul_k_q8_0_grouped(w, x, group_dim, n_lora_o, n_groups, k);
            let out = r->Ok_0;
            r is Ok ==> {
                &&& anew(t, out.buf)
                &&& launched(
                    u.log,
                    t.log.len() as int,
                    Kernel::MulMmQ8F32,
                    1,
                    seq![
                        Command::Buffer(1, w.buf, 0),
                        Command::Buffer(2, x.buf, 0),
                        Command::Buffer(3, out.buf, 0),
                    ],
                )
                &&& out.n_elements == (n_groups * k * n_lora_o) as u64
            }
        }),
{
    broadcast use group_binds;

    grew_itself(t.log);
    reveal(Trace::matmul_k_q8_0_grouped);
    let (u, r) = t.matmul_k_q8_0_grouped(w, x, group_dim, n_lora_o, n_groups, k);
    if r is Ok {
        let out = r->Ok_0;
        lemma_tail(
            u.log,
            t.log.len() as int,
            Kernel::MulMmQ8F32,
            1,
            seq![
                Command::Buffer(1, w.buf, 0),
                Command::Buffer(2, x.buf, 0),
                Command::Buffer(3, out.buf, 0),
            ],
            3,
        );
    }
}

/// Interleaving reads its operand and writes its result; the greatest of the first `n`
/// logits is looked for among the logits.
pub proof fn law_interleave_and_argmax_bind(
    t: Trace,
    x: DeferredBuf,
    n_groups: u64,
    k: u64,
    n_lora_o: u64,
    n: u64,
)
    requires
        room(t),
    ensures
        ({
            let (u, out) = t.interleave_group_major(x, n_groups, k, n_lora_o);
            &&& anew(t, out.buf)
            &&& launched(
                u.log,
                t.log.len() as int,
                Kernel::InterleaveGroupMajor,
                0,
                seq![
                    Command::Buffer(0, x.buf, 0),
                    Command::Buffer(1, out.buf, 0),
                    Command::Bytes(2, Args::U32(n_groups as u32)),
                    Command::Bytes(3, Args::U32(k as u32)),
                    Command::Bytes(4, Args::U32(n_lora_o as u32)),
                ],
            )
        }),
        ({
            let (u, out) = t.argmax(x, n);
            &&& anew(t, out.buf)
            &&& out.n_elements == 1
            &&& launched(
                u.log,
                t.log.len() as int,
                Kernel::Argmax,
                0,
                seq![
                    Command::Buffer(0, x.buf, 0),
                    Command::Buffer(1, out.buf, 0),
                    Command::Bytes(2, Args::U32(n as u32)),
                ],
            )
        }),
{
    broadcast use group_binds;

    grew_itself(t.log);
    reveal(Trace::interleave_group_major);
    reveal(Trace::argmax);
    let (u, out) = t.interleave_group_major(x, n_groups, k, n_lora_o);
    lemma_tail(
        u.log,
        t.log.len() as int,
        Kernel::InterleaveGroupMajor,
        0,
        seq![
            Command::Buffer(0, x.buf, 0),
            Command::Buffer(1, out.buf, 0),
            Command::Bytes(2, Args::U32(n_groups as u32)),
            Command::Bytes(3, Args::U32(k as u32)),
            Command::Bytes(4, Args::U32(n_lora_o as u32)),
        ],
        3,
    );
    let (u, out) = t.argmax(x, n);
    lemma_tail(
        u.log,
        t.log.len() as int,
        Kernel::Argmax,
        0,
        seq![
            Command::Buffer(0, x.buf, 0),
            Command::Buffer(1, out.buf, 0),
            Command::Bytes(2, Args::U32(n as u32)),
        ],
        2,
    );
}

/// The numbers of a norm of `rows` rows of `n` elements.
pub open spec fn norm_numbers(n: u64, rows: u64, eps: F32) -> NormArgs {
    NormArgs {
        ne00: n as i32,
        ne00_t: (n / 4) as i32,
        nb1: (n * 4) as u64,
        nb2: (n * 4 * rows) as u64,
        nb3: (n * 4 * rows) as u64,
        eps,
        nef1: (rows as i32, 1, 1),
        nef2: (1, 1, 1),
        nef3: (1, 1, 1),
        nbf1: ((n * 4) as u64, (n * 4) as u64, (n * 4) as u64),
        nbf2: ((n * 4 * rows) as u64, (n * 4) as u64, (n * 4) as u64),
        nbf3: ((n * 4 * rows) as u64, (n * 4) as u64, (n * 4) as u64),
    }
}

/// The norm reads its operand, multiplies by its factors, and writes its result.
pub proof fn law_norm_binds(t: Trace, x: DeferredBuf, gamma: DeferredBuf, eps: F32)
    requires
        room(t),
        x.n_elements * 4 <= u64::MAX,
    ensures
        ({
            let (u, r) = t.rms_norm_mul(x, gamma, eps);
            let out = r->Ok_0;
            r is Ok ==> {
                &&& anew(t, out.buf)
                &&& launched(
                    u.log,
                    t.log.len() as int,
                    Kernel::RmsNormMul,
                    0,
                    seq![
                        Command::Bytes(0, Args::Norm(norm_numbers(x.n_elements, 1, eps))),
                        Command::Buffer(1, x.buf, 0),
                        Command::Buffer(2, gamma.buf, 0),
                        Command::Buffer(3, x.buf, 0),
                        Command::Buffer(4, out.buf, 0),
                        Command::GroupMemory(128),
                    ],
                )
                &&& out.n_elements == x.n_elements
                &&& gamma.n_elements == x.n_elements
            }
        }),
{
    broadcast use group_binds;

    grew_itself(t.log);
    reveal(Trace::rms_norm_mul);
    let (u, r) = t.rms_norm_mul(x, gamma, eps);
    if r is Ok {
        let out = r->Ok_0;
        lemma_tail(
            u.log,
            t.log.len() as int,
            Kernel::RmsNormMul,
            0,
            seq![
                Command::Bytes(0, Args::Norm(norm_numbers(x.n_elements, 1, eps))),
                Command::Buffer(1, x.buf, 0),
                Command::Buffer(2, gamma.buf, 0),
                Command::Buffer(3, x.buf, 0),
                Command::Buffer(4, out.buf, 0),
                Command::GroupMemory(128),
            ],
            2,
        );
    }
}

/// The norm of several rows reads its operand, multiplies every row by the same
/// factors, and writes its result.
pub proof fn law_norms_bind(t: Trace, x: DeferredBuf, gamma: DeferredBuf, n: u64, k: u64, eps: F32)
    requires
        room(t),
        n * 4 <= u64::MAX,
    ensures
        ({
            let (u, r) = t.rms_norm_mul_k(x, gamma, n, k, eps);
            let out = r->Ok_0;
            r is Ok ==> {
                &&& anew(t, out.buf)
                &&& launched(
                    u.log,
                    t.log.len() as int,
                    Kernel::RmsNormMul,
                    0,
                    seq![
                        Command::Bytes(0, Args::Norm(norm_numbers(n, k, eps))),
                        Command::Buffer(1, x.buf, 0),
                        Command::Buffer(2, gamma.buf, 0),
                        Command::Buffer(3, x.buf, 0),
                        Command::Buffer(4, out.buf, 0),
                        Command::GroupMemory(128),
                    ],
                )
                &&& out.n_elements == (k * n) as u64
                &&& gamma.n_elements == n
                &&& x.n_elements == k * n
            }
        }),
{
    broadcast use group_binds;

    grew_itself(t.log);
    reveal(Trace::rms_norm_mul_k);
    reveal(Trace::alloc_attn_out);
    let (u, r) = t.rms_norm_mul_k(x, gamma, n, k, eps);
    if r is Ok {
        let out = r->Ok_0;
        lemma_tail(
            u.log,
            t.log.len() as int,
            Kernel::RmsNormMul,
            0,
            seq![
                Command::Bytes(0, Args::Norm(norm_numbers(n, k, eps))),
                Command::Buffer(1, x.buf, 0),
                Command::Buffer(2, gamma.buf, 0),
                Command::Buffer(3, x.buf, 0),
                Command::Buffer(4, out.buf, 0),
                Command::GroupMemory(128),
            ],
            2,
        );
    }
}

/// The norm of heads reads its operand and writes its result, a group to each head.
pub proof fn law_head_norm_binds(t: Trace, x: DeferredBuf, n_head: u64, head_dim: u64, eps: F32)
    requires
        room(t),
    ensures
        ({
            let (u, r) = t.head_rms_norm(x, n_head, head_dim, eps);
            let out = r->Ok_0;
            r is Ok ==> {
                &&& anew(t, out.buf)
                &&& launched(
                    u.log,
                    t.log.len() as int,
                    Kernel::HeadRmsNorm,
                    0,
                    seq![
                        Command::Buffer(0, x.buf, 0),
                        Command::Buffer(1, out.buf, 0),
                        Command::Bytes(2, Args::U32(head_dim as u32)),
                        Command::Bytes(3, Args::F32(eps)),
                        Command::Dispatch(
                            (n_head, 1, 1),
                            (if head_dim > 1024 { 1024u64 } else { head_dim }, 1, 1),
                        ),
                    ],
                )
                &&& out.n_elements == x.n_elements
            }
        }),
{
    broadcast use group_binds;

    grew_itself(t.log);
    reveal(Trace::head_rms_norm);
    let (u, r) = t.head_rms_norm(x, n_head, head_dim, eps);
    if r is Ok {
        let out = r->Ok_0;
        lemma_tail(
            u.log,
            t.log.len() as int,
            Kernel::HeadRmsNorm,
            0,
            seq![
                Command::Buffer(0, x.buf, 0),
                Command::Buffer(1, out.buf, 0),
                Command::Bytes(2, Args::U32(head_dim as u32)),
                Command::Bytes(3, Args::F32(eps)),
                Command::Dispatch(
                    (n_head, 1, 1),
                    (if head_dim > 1024 { 1024u64 } else { head_dim }, 1, 1),
                ),
            ],
            1,
        );
    }
}

/// The norm of the heads of several positions reads its operand and writes its
/// result, a group to each head of each position.
pub proof fn law_head_norms_bind(
    t: Trace,
    x: DeferredBuf,
    n_head: u64,
    head_dim: u64,
    k: u64,
    eps: F32,
)
    requires
        room(t),
    ensures
        ({
            let (u, r) = t.head_rms_norm_k(x, n_head, head_dim, k, eps);
            let out = r->Ok_0;
            r is Ok ==> {
                &&& anew(t, out.buf)
                &&& launched(
                    u.log,
                    t.log.len() as int,
                    Kernel::HeadRmsNorm,
                    0,
                    seq![
                        Command::Buffer(0, x.buf, 0),
                        Command::Buffer(1, out.buf, 0),
                        Command::Bytes(2, Args::U32(head_dim as u32)),
                        Command::Bytes(3, Args::F32(eps)),
                    ],
                )
                &&& out.n_elements == x.n_elements
                &&& x.n_elements == k * n_head * head_dim
            }
        }),
{
    broadcast use group_binds;

    grew_itself(t.log);
    reveal(Trace::head_rms_norm_k);
    reveal(Trace::alloc_attn_out);
    let (u, r) = t.head_rms_norm_k(x, n_head, head_dim, k, eps);
    if r is Ok {
        let out = r->Ok_0;
        lemma_tail(
            u.log,
            t.log.len() as int,
            Kernel::HeadRmsNorm,
            0,
            seq![
                Command::Buffer(0, x.buf, 0),
                Command::Buffer(1, out.buf, 0),
                Command::Bytes(2, Args::U32(head_dim as u32)),
                Command::Bytes(3, Args::F32(eps)),
            ],
            2,
        );
    }
}

/// The numbers of a rotation of `n_heads` heads, `stride` apart, at position `pos`.
pub open spec fn rotation_numbers(
    p: LayerParams,
    head_dim: u64,
    pos: u32,
    n_heads: u64,
    stride: u32,
    backward: bool,
) -> RopeArgs {
    RopeArgs {
        head_dim: head_dim as u32,
        n_rot: p.n_rot,
        freq_base: p.rope_freq_base,
        freq_scale: p.rope_freq_scale,
        ext_factor: p.rope_ext_factor,
        attn_factor: p.rope_attn_factor,
        orig_ctx: p.rope_orig_ctx,
        pos,
        n_heads: n_heads as u32,
        elem_stride: stride,
        head_bytes: (head_dim * 4) as u32,
        plane_bytes: (head_dim * 4 * n_heads) as u32,
        backward,
    }
}

/// The rotation in place reads and writes the same bytes, at the position it is given,
/// which it uploads.
pub proof fn law_tail_rotation_binds(
    t: Trace,
    buf: DeferredBuf,
    off: u64,
    n_heads: u64,
    p: LayerParams,
    pos: u32,
    backward: bool,
)
    ensures
        ({
            let (u, r) = t.rope_tail_in_place(buf, off, n_heads, p, pos, backward);
            r is Ok ==> {
                &&& launched(
                    u.log,
                    t.log.len() as int,
                    Kernel::RopeTail,
                    0,
                    seq![
                        Command::Buffer(0, buf.buf, off),
                        Command::Buffer(1, BufId::Fresh(t.log.len() as u64), 0),
                        Command::Buffer(2, BufId::Fresh((t.log.len() + 1) as u64), 0),
                        Command::Buffer(3, buf.buf, off),
                        Command::Rope(
                            rotation_numbers(p, p.n_rot as u64, pos, n_heads, 4, backward),
                        ),
                    ],
                )
                &&& u.log[t.log.len() as int] == Command::UploadWord(pos)
            }
        }),
{
    broadcast use group_binds;

    grew_itself(t.log);
    reveal(Trace::rope_tail_in_place);
    let (u, r) = t.rope_tail_in_place(buf, off, n_heads, p, pos, backward);
    if r is Ok {
        lemma_tail(
            u.log,
            t.log.len() as int,
            Kernel::RopeTail,
            0,
            seq![
                Command::Buffer(0, buf.buf, off),
                Command::Buffer(1, BufId::Fresh(t.log.len() as u64), 0),
                Command::Buffer(2, BufId::Fresh((t.log.len() + 1) as u64), 0),
                Command::Buffer(3, buf.buf, off),
                Command::Rope(rotation_numbers(p, p.n_rot as u64, pos, n_heads, 4, backward)),
            ],
            2,
        );
    }
}

/// The rotation of query heads turns the tail of each head, at the position it is given.
pub proof fn law_heads_rotation_binds(
    t: Trace,
    q: DeferredBuf,
    n_head: u64,
    head_dim: u64,
    p: LayerParams,
    pos: u32,
    backward: bool,
)
    ensures
        ({
            let (u, r) = t.rope_tail_q_heads_in_place(q, n_head, head_dim, p, pos, backward);
            r is Ok ==> {
                &&& launched(
                    u.log,
                    t.log.len() as int,
                    Kernel::RopeTail,
                    0,
                    seq![
                        Command::Buffer(0, q.buf, ((head_dim - p.n_rot) * 4) as u64),
                        Command::Buffer(1, BufId::Fresh(t.log.len() as u64), 0),
                        Command::Buffer(2, BufId::Fresh((t.log.len() + 1) as u64), 0),
                        Command::Buffer(3, q.buf, ((head_dim - p.n_rot) * 4) as u64),
                        Command::Rope(rotation_numbers(p, head_dim, pos, n_head, 4, backward)),
                    ],
                )
                &&& u.log[t.log.len() as int] == Command::UploadWord(pos)
                &&& q.n_elements == n_head * head_dim
            }
        }),
{
    broadcast use group_binds;

    grew_itself(t.log);
    reveal(Trace::rope_tail_q_heads_in_place);
    let (u, r) = t.rope_tail_q_heads_in_place(q, n_head, head_dim, p, pos, backward);
    if r is Ok {
        lemma_tail(
            u.log,
            t.log.len() as int,
            Kernel::RopeTail,
            0,
            seq![
                Command::Buffer(0, q.buf, ((head_dim - p.n_rot) * 4) as u64),
                Command::Buffer(1, BufId::Fresh(t.log.len() as u64), 0),
                Command::Buffer(2, BufId::Fresh((t.log.len() + 1) as u64), 0),
                Command::Buffer(3, q.buf, ((head_dim - p.n_rot) * 4) as u64),
                Command::Rope(rotation_numbers(p, head_dim, pos, n_head, 4, backward)),
            ],
            2,
        );
    }
}

/// The rotation of several positions in one launch starts from the position it is given,
/// with a group for each head of each position.
pub proof fn law_rows_rotation_binds(
    t: Trace,
    buf: DeferredBuf,
    off: u64,
    n_heads: u64,
    head_dim: u64,
    stride: u64,
    p: LayerParams,
    pos: u32,
    k: u64,
    backward: bool,
)
    ensures
        ({
            let (u, r) = t.rope_tail_k_fused(
                buf,
                off,
                n_heads,
                head_dim,
                stride,
                p,
                pos,
                k,
                backward,
            );
            r is Ok && p.n_rot > 0 && k > 0 ==> {
                &&& launched(
                    u.log,
                    t.log.len() as int,
                    Kernel::RopeTail,
                    0,
                    seq![
                        Command::Buffer(0, buf.buf, off),
                        Command::Buffer(1, BufId::Fresh(t.log.len() as u64), 0),
                        Command::Buffer(2, BufId::Fresh((t.log.len() + 1) as u64), 0),
                        Command::Buffer(3, buf.buf, off),
                        Command::Rope(
                            rotation_numbers(p, head_dim, pos, n_heads, stride as u32, backward),
                        ),
                    ],
                )
                &&& u.log[t.log.len() as int] == Command::UploadWord(pos)
            }
        }),
{
    broadcast use group_binds;

    grew_itself(t.log);
    reveal(Trace::rope_tail_k_fused);
    let (u, r) = t.rope_tail_k_fused(buf, off, n_heads, head_dim, stride, p, pos, k, backward);
    if r is Ok && p.n_rot > 0 && k > 0 {
        lemma_tail(
            u.log,
            t.log.len() as int,
            Kernel::RopeTail,
            0,
            seq![
                Command::Buffer(0, buf.buf, off),
                Command::Buffer(1, BufId::Fresh(t.log.len() as u64), 0),
                Command::Buffer(2, BufId::Fresh((t.log.len() + 1) as u64), 0),
                Command::Buffer(3, buf.buf, off),
                Command::Rope(rotation_numbers(p, head_dim, pos, n_heads, stride as u32, backward)),
            ],
            2,
        );
    }
}

/// The numbers of an expansion of `k` positions whose mixing weights are `post` bytes
/// and `comb` bytes apart from one position to the next.
pub open spec fn expansion_numbers(
    n_hc: u64,
    d_embd: u64,
    k: u64,
    post: int,
    comb: int,
    add: bool,
) -> HcExpandArgs {
    HcExpandArgs {
        n_embd: d_embd as i64,
        n_hc: n_hc as i64,
        n_tokens: k as i64,
        nb_block0: 4,
        nb_block1: (d_embd * 4) as u64,
        nb_add0: 4,
        nb_add1: (d_embd * 4) as u64,
        nb_res0: 4,
        nb_res1: (d_embd * 4) as u64,
        nb_res2: (n_hc * d_embd * 4) as u64,
        nb_post0: 4,
        nb_post1: post as u64,
        nb_comb0: 4,
        nb_comb1: (n_hc * 4) as u64,
        nb_comb2: comb as u64,
        nb0: 4,
        nb1: (d_embd * 4) as u64,
        nb2: (n_hc * d_embd * 4) as u64,
        has_add: if add {
            1
        } else {
            0
        },
    }
}

/// The expansion with a second block reads both blocks, the streams, the weights out and
/// the mixing matrix, and writes its result.
pub proof fn law_block_expansion_binds(
    t: Trace,
    shared: DeferredBuf,
    routed: DeferredBuf,
    res: DeferredBuf,
    post: DeferredBuf,
    comb: DeferredBuf,
    n_hc: u64,
    d_embd: u64,
)
    requires
        room(t),
    ensures
        ({
            let (u, r) = t.hc_expand_add(shared, routed, res, post, comb, n_hc, d_embd);
            let out = r->Ok_0;
            r is Ok ==> {
                &&& anew(t, out.buf)
                &&& launched(
                    u.log,
                    t.log.len() as int,
                    Kernel::HcExpand,
                    0,
                    seq![
                        Command::Bytes(
                            0,
                            Args::HcExpand(
                                expansion_numbers(n_hc, d_embd, 1, n_hc * 4, n_hc * n_hc * 4, true),
                            ),
                        ),
                        Command::Buffer(1, shared.buf, 0),
                        Command::Buffer(2, res.buf, 0),
                        Command::Buffer(3, post.buf, 0),
                        Command::Buffer(4, comb.buf, 0),
                        Command::Buffer(5, routed.buf, 0),
                        Command::Buffer(6, out.buf, 0),
                    ],
                )
                &&& out.n_elements == (n_hc * d_embd) as u64
            }
        }),
{
    broadcast use group_binds;

    grew_itself(t.log);
    reveal(Trace::hc_expand_add);
    let (u, r) = t.hc_expand_add(shared, routed, res, post, comb, n_hc, d_embd);
    if r is Ok {
        let out = r->Ok_0;
        lemma_tail(
            u.log,
            t.log.len() as int,
            Kernel::HcExpand,
            0,
            seq![
                Command::Bytes(
                    0,
                    Args::HcExpand(
                        expansion_numbers(n_hc, d_embd, 1, n_hc * 4, n_hc * n_hc * 4, true),
                    ),
                ),
                Command::Buffer(1, shared.buf, 0),
                Command::Buffer(2, res.buf, 0),
                Command::Buffer(3, post.buf, 0),
                Command::Buffer(4, comb.buf, 0),
                Command::Buffer(5, routed.buf, 0),
                Command::Buffer(6, out.buf, 0),
            ],
            2,
        );
    }
}

/// The expansion without a second block reads the block, the streams, the weights out and
/// the mixing matrix, and writes its result.
pub proof fn law_expansion_binds(
    t: Trace,
    block: DeferredBuf,
    res: DeferredBuf,
    post: DeferredBuf,
    comb: DeferredBuf,
    n_hc: u64,
    d_embd: u64,
)
    requires
        room(t),
    ensures
        ({
            let (u, r) = t.hc_expand_attn(block, res, post, comb, n_hc, d_embd);
            let out = r->Ok_0;
            r is Ok ==> {
                &&& anew(t, out.buf)
                &&& launched(
                    u.log,
                    t.log.len() as int,
                    Kernel::HcExpand,
                    0,
                    seq![
                        Command::Bytes(
                            0,
                            Args::HcExpand(
                                expansion_numbers(
                                    n_hc,
                                    d_embd,
                                    1,
                                    n_hc * 4,
                                    n_hc * n_hc * 4,
                                    false,
                                ),
                            ),
                        ),
                        Command::Buffer(1, block.buf, 0),
                        Command::Buffer(2, res.buf, 0),
                        Command::Buffer(3, post.buf, 0),
                        Command::Buffer(4, comb.buf, 0),
                        Command::Buffer(5, block.buf, 0),
                        Command::Buffer(6, out.buf, 0),
                    ],
                )
                &&& out.n_elements == (n_hc * d_embd) as u64
            }
        }),
{
    broadcast use group_binds;

    grew_itself(t.log);
    reveal(Trace::hc_expand_attn);
    let (u, r) = t.hc_expand_attn(block, res, post, comb, n_hc, d_embd);
    if r is Ok {
        let out = r->Ok_0;
        lemma_tail(
            u.log,
            t.log.len() as int,
            Kernel::HcExpand,
            0,
            seq![
                Command::Bytes(
                    0,
                    Args::HcExpand(
                        expansion_numbers(n_hc, d_embd, 1, n_hc * 4, n_hc * n_hc * 4, false),
                    ),
                ),
                Command::Buffer(1, block.buf, 0),
                Command::Buffer(2, res.buf, 0),
                Command::Buffer(3, post.buf, 0),
                Command::Buffer(4, comb.buf, 0),
                Command::Buffer(5, block.buf, 0),
                Command::Buffer(6, out.buf, 0),
            ],
            2,
        );
    }
}

/// The expansion with its mixing weights in one buffer finds the weights out behind the
/// weights in, and the matrix behind both.
pub proof fn law_block_split_expansion_binds(
    t: Trace,
    shared: DeferredBuf,
    routed: DeferredBuf,
    res: DeferredBuf,
    split: DeferredBuf,
    n_hc: u64,
    d_embd: u64,
)
    requires
        room(t),
    ensures
        ({
            let (u, r) = t.hc_expand_add_split(shared, routed, res, split, n_hc, d_embd);
            let out = r->Ok_0;
            r is Ok ==> {
                &&& anew(t, out.buf)
                &&& launched(
                    u.log,
                    t.log.len() as int,
                    Kernel::HcExpand,
                    0,
                    seq![
                        Command::Bytes(
                            0,
                            Args::HcExpand(
                                expansion_numbers(n_hc, d_embd, 1, n_hc * 4, n_hc * n_hc * 4, true),
                            ),
                        ),
                        Command::Buffer(1, shared.buf, 0),
                        Command::Buffer(2, res.buf, 0),
                        Command::Buffer(3, split.buf, (n_hc * 4) as u64),
                        Command::Buffer(4, split.buf, (2 * n_hc * 4) as u64),
                        Command::Buffer(5, routed.buf, 0),
                        Command::Buffer(6, out.buf, 0),
                    ],
                )
                &&& out.n_elements == (n_hc * d_embd) as u64
            }
        }),
{
    broadcast use group_binds;

    grew_itself(t.log);
    reveal(Trace::hc_expand_add_split);
    let (u, r) = t.hc_expand_add_split(shared, routed, res, split, n_hc, d_embd);
    if r is Ok {
        let out = r->Ok_0;
        lemma_tail(
            u.log,
            t.log.len() as int,
            Kernel::HcExpand,
            0,
            seq![
                Command::Bytes(
                    0,
                    Args::HcExpand(
                        expansion_numbers(n_hc, d_embd, 1, n_hc * 4, n_hc * n_hc * 4, true),
                    ),
                ),
                Command::Buffer(1, shared.buf, 0),
                Command::Buffer(2, res.buf, 0),
                Command::Buffer(3, split.buf, (n_hc * 4) as u64),
                Command::Buffer(4, split.buf, (2 * n_hc * 4) as u64),
                Command::Buffer(5, routed.buf, 0),
                Command::Buffer(6, out.buf, 0),
            ],
            2,
        );
    }
}

/// The expansion of several positions: the first of them, or all in one launch, reads
/// both blocks, the streams and the mixing weights from their starts.
pub proof fn law_block_split_expansions_bind(
    t: Trace,
    shared: DeferredBuf,
    routed: DeferredBuf,
    res: DeferredBuf,
    split: DeferredBuf,
    n_hc: u64,
    d_embd: u64,
    k: u64,
)
    requires
        room(t),
    ensures
        ({
            let (u, r) = t.hc_expand_add_split_k(shared, routed, res, split, n_hc, d_embd, k);
            let out = r->Ok_0;
            r is Ok && k > 0 ==> {
                &&& anew(t, out.buf)
                &&& out.n_elements == (k * n_hc * d_embd) as u64
                &&& launched(
                    u.log,
                    t.log.len() as int,
                    Kernel::HcExpand,
                    1,
                    seq![
                        Command::Buffer(1, shared.buf, 0),
                        Command::Buffer(2, res.buf, 0),
                        Command::Buffer(3, split.buf, (n_hc * 4) as u64),
                        Command::Buffer(4, split.buf, (2 * n_hc * 4) as u64),
                        Command::Buffer(5, routed.buf, 0),
                        Command::Buffer(6, out.buf, 0),
                    ],
                )
            }
        }),
{
    broadcast use group_binds;

    grew_itself(t.log);
    reveal(Trace::hc_expand_add_split_k);
    reveal(Trace::pooled_scratch_f32);
    let (u, r) = t.hc_expand_add_split_k(shared, routed, res, split, n_hc, d_embd, k);
    if r is Ok && k > 0 {
        let out = r->Ok_0;
        let made = t.carrier((k * n_hc * d_embd) as u64);
        let s = seq![
            Command::Buffer(1, shared.buf, 0),
            Command::Buffer(2, res.buf, 0),
            Command::Buffer(3, split.buf, (n_hc * 4) as u64),
            Command::Buffer(4, split.buf, (2 * n_hc * 4) as u64),
            Command::Buffer(5, routed.buf, 0),
            Command::Buffer(6, out.buf, 0),
        ];
        let binds = hc_binds_at(
            shared.buf,
            routed.buf,
            res.buf,
            split.buf,
            out.buf,
            n_hc,
            d_embd,
            0,
        );
        let one = made.0.hc_launch(
            spec_hc_args(n_hc, d_embd, true),
            binds,
            ((n_hc * d_embd + 255) / 256) as u64,
        );
        if t.config.hc_expand_per_k {
            lemma_tail(one.log, t.log.len() as int, Kernel::HcExpand, 1, s, 2);
            grew_itself(one.log);
            grows_hc_rows(
                one.log,
                one,
                shared.buf,
                routed.buf,
                res.buf,
                split.buf,
                out.buf,
                true,
                n_hc,
                d_embd,
                k,
                1,
            );
            lemma_kept(
                one.log,
                u.log,
                t.log.len() as int,
                t.log.len() as int,
                Kernel::HcExpand,
                1,
                s,
            );
        } else {
            lemma_tail(u.log, t.log.len() as int, Kernel::HcExpand, 1, s, 2);
        }
    }
}

/// The expansion with its mixing weights in one buffer finds the weights out behind the
/// weights in, and the matrix behind both.
pub proof fn law_split_expansion_binds(
    t: Trace,
    shared: DeferredBuf,
    res: DeferredBuf,
    split: DeferredBuf,
    n_hc: u64,
    d_embd: u64,
)
    requires
        room(t),
    ensures
        ({
            let (u, r) = t.hc_expand_attn_split(shared, res, split, n_hc, d_embd);
            let out = r->Ok_0;
            r is Ok ==> {
                &&& anew(t, out.buf)
                &&& launched(
                    u.log,
                    t.log.len() as int,
                    Kernel::HcExpand,
                    0,
                    seq![
                        Command::Bytes(
                            0,
                            Args::HcExpand(
                                expansion_numbers(
                                    n_hc,
                                    d_embd,
                                    1,
                                    n_hc * 4,
                                    n_hc * n_hc * 4,
                                    false,
                                ),
                            ),
                        ),
                        Command::Buffer(1, shared.buf, 0),
                        Command::Buffer(2, res.buf, 0),
                        Command::Buffer(3, split.buf, (n_hc * 4) as u64),
                        Command::Buffer(4, split.buf, (2 * n_hc * 4) as u64),
                        Command::Buffer(5, shared.buf, 0),
                        Command::Buffer(6, out.buf, 0),
                    ],
                )
                &&& out.n_elements == (n_hc * d_embd) as u64
            }
        }),
{
    broadcast use group_binds;

    grew_itself(t.log);
    reveal(Trace::hc_expand_attn_split);
    let (u, r) = t.hc_expand_attn_split(shared, res, split, n_hc, d_embd);
    if r is Ok {
        let out = r->Ok_0;
        lemma_tail(
            u.log,
            t.log.len() as int,
            Kernel::HcExpand,
            0,
            seq![
                Command::Bytes(
                    0,
                    Args::HcExpand(
                        expansion_numbers(n_hc, d_embd, 1, n_hc * 4, n_hc * n_hc * 4, false),
                    ),
                ),
                Command::Buffer(1, shared.buf, 0),
                Command::Buffer(2, res.buf, 0),
                Command::Buffer(3, split.buf, (n_hc * 4) as u64),
                Command::Buffer(4, split.buf, (2 * n_hc * 4) as u64),
                Command::Buffer(5, shared.buf, 0),
                Command::Buffer(6, out.buf, 0),
            ],
            2,
        );
    }
}

/// The expansion of several positions: the first of them, or all in one launch, reads
/// both blocks, the streams and the mixing weights from their starts.
pub proof fn law_split_expansions_bind(
    t: Trace,
    shared: DeferredBuf,
    res: DeferredBuf,
    split: DeferredBuf,
    n_hc: u64,
    d_embd: u64,
    k: u64,
)
    requires
        room(t),
    ensures
        ({
            let (u, r) = t.hc_expand_attn_split_k(shared, res, split, n_hc, d_embd, k);
            let out = r->Ok_0;
            r is Ok && k > 0 ==> {
                &&& anew(t, out.buf)
                &&& out.n_elements == (k * n_hc * d_embd) as u64
                &&& launched(
                    u.log,
                    t.log.len() as int,
                    Kernel::HcExpand,
                    1,
                    seq![
                        Command::Buffer(1, shared.buf, 0),
                        Command::Buffer(2, res.buf, 0),
                        Command::Buffer(3, split.buf, (n_hc * 4) as u64),
                        Command::Buffer(4, split.buf, (2 * n_hc * 4) as u64),
                        Command::Buffer(5, shared.buf, 0),
                        Command::Buffer(6, out.buf, 0),
                    ],
                )
            }
        }),
{
    broadcast use group_binds;

    grew_itself(t.log);
    reveal(Trace::hc_expand_attn_split_k);
    reveal(Trace::pooled_scratch_f32);
    let (u, r) = t.hc_expand_attn_split_k(shared, res, split, n_hc, d_embd, k);
    if r is Ok && k > 0 {
        let out = r->Ok_0;
        let made = t.pooled_scratch_f32(PoolKey::HcAfterAttn, (k * n_hc * d_embd) as u64);
        let s = seq![
            Command::Buffer(1, shared.buf, 0),
            Command::Buffer(2, res.buf, 0),
            Command::Buffer(3, split.buf, (n_hc * 4) as u64),
            Command::Buffer(4, split.buf, (2 * n_hc * 4) as u64),
            Command::Buffer(5, shared.buf, 0),
            Command::Buffer(6, out.buf, 0),
        ];
        let binds = hc_binds_at(
            shared.buf,
            shared.buf,
            res.buf,
            split.buf,
            out.buf,
            n_hc,
            d_embd,
            0,
        );
        let one = made.0.hc_launch(
            spec_hc_args(n_hc, d_embd, false),
            binds,
            ((n_hc * d_embd + 255) / 256) as u64,
        );
        if t.config.hc_expand_per_k {
            lemma_tail(one.log, t.log.len() as int, Kernel::HcExpand, 1, s, 2);
            grew_itself(one.log);
            grows_hc_rows(
                one.log,
                one,
                shared.buf,
                shared.buf,
                res.buf,
                split.buf,
                out.buf,
                false,
                n_hc,
                d_embd,
                k,
                1,
            );
            lemma_kept(
                one.log,
                u.log,
                t.log.len() as int,
                t.log.len() as int,
                Kernel::HcExpand,
                1,
                s,
            );
        } else {
            lemma_tail(u.log, t.log.len() as int, Kernel::HcExpand, 1, s, 2);
        }
    }
}

/// The numbers of a split, weighted sum and norm of `k` positions.
pub open spec fn split_numbers(
    n_hc: u64,
    n_embd: u64,
    k: u64,
    iters: i32,
    hc_eps: F32,
    rms_eps: F32,
) -> HcSplitArgs {
    let mix = 2 * n_hc + n_hc * n_hc;
    HcSplitArgs {
        n_embd: n_embd as i64,
        n_hc: n_hc as i32,
        sinkhorn_iters: iters,
        n_rows: k as i64,
        mix_hc: mix as i64,
        nb_mix1: (mix * 4) as u64,
        nb_split1: (mix * 4) as u64,
        nb_x0: 4,
        nb_x1: (n_embd * 4) as u64,
        nb_x2: (n_hc * n_embd * 4) as u64,
        nb0: 4,
        nb1: (n_embd * 4) as u64,
        nb_norm1: (n_embd * 4) as u64,
        eps: hc_eps,
        norm_eps: rms_eps,
    }
}

/// The split reads the mixing logits, their scale and base, the streams and the factors of
/// the norm, and writes the mixing weights, the collapsed row and the normed row.
pub proof fn law_split_binds(
    t: Trace,
    mixes: DeferredBuf,
    scale: DeferredBuf,
    base: DeferredBuf,
    x: DeferredBuf,
    gamma: DeferredBuf,
    n_hc: u64,
    n_embd: u64,
    iters: i32,
    hc_eps: F32,
    rms_eps: F32,
)
    requires
        room(t),
    ensures
        ({
            let (u, r) = t.hc_split_weighted_sum_norm4(
                mixes,
                scale,
                base,
                x,
                gamma,
                n_hc,
                n_embd,
                iters,
                hc_eps,
                rms_eps,
            );
            let out = r->Ok_0;
            r is Ok ==> {
                &&& anew(t, out.0.buf)
                &&& anew(t, out.1.buf)
                &&& anew(t, out.2.buf)
                &&& launched(
                    u.log,
                    t.log.len() as int,
                    if n_embd == 4096 {
                        Kernel::HcSplitNorm4
                    } else {
                        Kernel::HcSplitNormAny
                    },
                    0,
                    seq![
                        Command::Bytes(
                            0,
                            Args::HcSplit(split_numbers(n_hc, n_embd, 1, iters, hc_eps, rms_eps)),
                        ),
                        Command::Buffer(1, mixes.buf, 0),
                        Command::Buffer(2, scale.buf, 0),
                        Command::Buffer(3, base.buf, 0),
                        Command::Buffer(4, x.buf, 0),
                        Command::Buffer(5, out.0.buf, 0),
                        Command::Buffer(6, out.1.buf, 0),
                        Command::Buffer(7, gamma.buf, 0),
                        Command::Buffer(8, out.2.buf, 0),
                    ],
                )
                &&& out.0.buf != out.1.buf
                &&& out.0.buf != out.2.buf
                &&& out.1.buf != out.2.buf
                &&& out.0.n_elements == 2 * n_hc + n_hc * n_hc
                &&& out.1.n_elements == n_embd
                &&& out.2.n_elements == n_embd
            }
        }),
{
    broadcast use group_binds;

    grew_itself(t.log);
    reveal(Trace::hc_split_weighted_sum_norm4);
    let (u, r) = t.hc_split_weighted_sum_norm4(
        mixes,
        scale,
        base,
        x,
        gamma,
        n_hc,
        n_embd,
        iters,
        hc_eps,
        rms_eps,
    );
    if r is Ok {
        let out = r->Ok_0;
        lemma_tail(
            u.log,
            t.log.len() as int,
            if n_embd == 4096 {
                        Kernel::HcSplitNorm4
                    } else {
                        Kernel::HcSplitNormAny
                    },
            0,
            seq![
                Command::Bytes(
                    0,
                    Args::HcSplit(split_numbers(n_hc, n_embd, 1, iters, hc_eps, rms_eps)),
                ),
                Command::Buffer(1, mixes.buf, 0),
                Command::Buffer(2, scale.buf, 0),
                Command::Buffer(3, base.buf, 0),
                Command::Buffer(4, x.buf, 0),
                Command::Buffer(5, out.0.buf, 0),
                Command::Buffer(6, out.1.buf, 0),
                Command::Buffer(7, gamma.buf, 0),
                Command::Buffer(8, out.2.buf, 0),
            ],
            3,
        );
    }
}

/// The split of several positions reads and writes the same operands in one launch.
pub proof fn law_splits_bind(
    t: Trace,
    mixes: DeferredBuf,
    scale: DeferredBuf,
    base: DeferredBuf,
    x: DeferredBuf,
    gamma: DeferredBuf,
    n_hc: u64,
    n_embd: u64,
    iters: i32,
    hc_eps: F32,
    rms_eps: F32,
    k: u64,
    out: Collapsed,
)
    ensures
        ({
            let (u, r) = t.hc_split_weighted_sum_norm4_into_k(
                mixes,
                scale,
                base,
                x,
                gamma,
                n_hc,
                n_embd,
                iters,
                hc_eps,
                rms_eps,
                k,
                out,
            );
            r is Ok ==> {
                &&& launched(
                    u.log,
                    t.log.len() as int,
                    Kernel::HcSplitNorm4,
                    0,
                    seq![
                        Command::Bytes(
                            0,
                            Args::HcSplit(split_numbers(n_hc, n_embd, k, iters, hc_eps, rms_eps)),
                        ),
                        Command::Buffer(1, mixes.buf, 0),
                        Command::Buffer(2, scale.buf, 0),
                        Command::Buffer(3, base.buf, 0),
                        Command::Buffer(4, x.buf, 0),
                        Command::Buffer(5, out.0.buf, 0),
                        Command::Buffer(6, out.1.buf, 0),
                        Command::Buffer(7, gamma.buf, 0),
                        Command::Buffer(8, out.2.buf, 0),
                    ],
                )
            }
        }),
{
    broadcast use group_binds;

    grew_itself(t.log);
    reveal(Trace::hc_split_weighted_sum_norm4_into_k);
    let (u, r) = t.hc_split_weighted_sum_norm4_into_k(
        mixes,
        scale,
        base,
        x,
        gamma,
        n_hc,
        n_embd,
        iters,
        hc_eps,
        rms_eps,
        k,
        out,
    );
    if r is Ok {
        lemma_tail(
            u.log,
            t.log.len() as int,
            Kernel::HcSplitNorm4,
            0,
            seq![
                Command::Bytes(
                    0,
                    Args::HcSplit(split_numbers(n_hc, n_embd, k, iters, hc_eps, rms_eps)),
                ),
                Command::Buffer(1, mixes.buf, 0),
                Command::Buffer(2, scale.buf, 0),
                Command::Buffer(3, base.buf, 0),
                Command::Buffer(4, x.buf, 0),
                Command::Buffer(5, out.0.buf, 0),
                Command::Buffer(6, out.1.buf, 0),
                Command::Buffer(7, gamma.buf, 0),
                Command::Buffer(8, out.2.buf, 0),
            ],
            3,
        );
    }
}

/// The fused norm and product reads the mixing matrix and the streams, and writes the
/// mixing logits, a group to each.
pub proof fn law_mixing_logits_bind(
    t: Trace,
    hc_fn: DeferredBuf,
    prev: DeferredBuf,
    hc_dim: u64,
    mix: u64,
    eps: F32,
    half: bool,
)
    requires
        room(t),
    ensures
        ({
            let (u, r) = t.fused_hc_collapse_stage12(hc_fn, prev, hc_dim, mix, eps, half);
            let out = r->Ok_0;
            r is Ok ==> {
                &&& anew(t, out.buf)
                &&& launched(
                    u.log,
                    t.log.len() as int,
                    if half {
                        Kernel::HcCollapseMvF16
                    } else {
                        Kernel::HcCollapseMvF32
                    },
                    0,
                    seq![
                        Command::Buffer(0, hc_fn.buf, 0),
                        Command::Buffer(1, prev.buf, 0),
                        Command::Buffer(2, out.buf, 0),
                        Command::Bytes(3, Args::U32(hc_dim as u32)),
                        Command::Bytes(4, Args::F32(eps)),
                        Command::Dispatch((mix, 1, 1), (256, 1, 1)),
                    ],
                )
                &&& out.n_elements == mix
                &&& hc_fn.n_elements == hc_dim * mix
            }
        }),
{
    broadcast use group_binds;

    grew_itself(t.log);
    reveal(Trace::fused_hc_collapse_stage12);
    let (u, r) = t.fused_hc_collapse_stage12(hc_fn, prev, hc_dim, mix, eps, half);
    if r is Ok {
        let out = r->Ok_0;
        lemma_tail(
            u.log,
            t.log.len() as int,
            if half {
                        Kernel::HcCollapseMvF16
                    } else {
                        Kernel::HcCollapseMvF32
                    },
            0,
            seq![
                Command::Buffer(0, hc_fn.buf, 0),
                Command::Buffer(1, prev.buf, 0),
                Command::Buffer(2, out.buf, 0),
                Command::Bytes(3, Args::U32(hc_dim as u32)),
                Command::Bytes(4, Args::F32(eps)),
                Command::Dispatch((mix, 1, 1), (256, 1, 1)),
            ],
            1,
        );
    }
}

/// The store writes the row into the layer's cache at its slot.
pub proof fn law_store_binds(
    t: Trace,
    layer: u32,
    row: DeferredBuf,
    p: LayerParams,
    cap: u32,
    slot: u32,
)
    ensures
        ({
            let (u, r) = t.kv_fp8_store_persistent(layer, row, p, cap, slot);
            let out = r->Ok_0;
            r is Ok ==> {
                &&& launched(
                    u.log,
                    t.log.len() as int,
                    Kernel::KvFp8Store,
                    0,
                    seq![
                        Command::Buffer(0, BufId::KvCache(layer), 0),
                        Command::Buffer(1, row.buf, 0),
                        Command::Bytes(2, Args::U32(unrotated(p))),
                        Command::Bytes(3, Args::U32(p.n_rot)),
                        Command::Bytes(4, Args::U32(slot)),
                    ],
                )
                &&& out.buf == BufId::KvCache(layer)
                &&& slot < cap
                &&& out.n_elements == (cap * p.n_lora_kv) as u64
            }
        }),
{
    broadcast use group_binds;

    grew_itself(t.log);
    reveal(Trace::kv_fp8_store_persistent);
    let (u, r) = t.kv_fp8_store_persistent(layer, row, p, cap, slot);
    if r is Ok {
        let out = r->Ok_0;
        lemma_tail(
            u.log,
            t.log.len() as int,
            Kernel::KvFp8Store,
            0,
            seq![
                Command::Buffer(0, BufId::KvCache(layer), 0),
                Command::Buffer(1, row.buf, 0),
                Command::Bytes(2, Args::U32(unrotated(p))),
                Command::Bytes(3, Args::U32(p.n_rot)),
                Command::Bytes(4, Args::U32(slot)),
            ],
            2,
        );
    }
}

/// Merged into one launch, the store of several rows writes them into the layer's cache from
/// its first slot on, a group to each.
pub proof fn law_merged_store_binds(
    t: Trace,
    layer: u32,
    rows: DeferredBuf,
    p: LayerParams,
    cap: u32,
    slot: u32,
    k: u64,
)
    ensures
        ({
            let (u, r) = t.kv_fp8_store_persistent_k(layer, rows, p, cap, slot, k);
            let out = r->Ok_0;
            r is Ok && t.config.kv_merge == KvMerge::Kernel && t.has(Kernel::KvFp8StoreK) ==> {
                &&& launched(
                    u.log,
                    t.log.len() as int,
                    Kernel::KvFp8StoreK,
                    0,
                    seq![
                        Command::Buffer(0, BufId::KvCache(layer), 0),
                        Command::Buffer(1, rows.buf, 0),
                        Command::Bytes(2, Args::U32(unrotated(p))),
                        Command::Bytes(3, Args::U32(p.n_rot)),
                        Command::Bytes(4, Args::U32(slot)),
                    ],
                )
                &&& out.buf == BufId::KvCache(layer)
                &&& slot + k <= cap
            }
        }),
{
    broadcast use group_binds;

    grew_itself(t.log);
    reveal(Trace::kv_fp8_store_persistent_k);
    let (u, r) = t.kv_fp8_store_persistent_k(layer, rows, p, cap, slot, k);
    if r is Ok && t.config.kv_merge == KvMerge::Kernel && t.has(Kernel::KvFp8StoreK) {
        let out = r->Ok_0;
        lemma_tail(
            u.log,
            t.log.len() as int,
            Kernel::KvFp8StoreK,
            0,
            seq![
                Command::Buffer(0, BufId::KvCache(layer), 0),
                Command::Buffer(1, rows.buf, 0),
                Command::Bytes(2, Args::U32(unrotated(p))),
                Command::Bytes(3, Args::U32(p.n_rot)),
                Command::Bytes(4, Args::U32(slot)),
            ],
            2,
        );
    }
}

/// Attention over the cache reads the queries, the cache and the sinks, and writes its
/// result. The bound of its causal window is the position that it is given.
pub proof fn law_attention_binds(
    t: Trace,
    q: DeferredBuf,
    kv: DeferredBuf,
    n_head: u64,
    dk: u64,
    dv: u64,
    n_cache: u64,
    k: u64,
    scale: F32,
    base_pos: u32,
    sinks: DeferredBuf,
)
    requires
        room(t),
    ensures
        ({
            let (u, r) = t.flash_attn_k_mla(
                q,
                kv,
                n_head,
                dk,
                dv,
                n_cache,
                k,
                scale,
                base_pos,
                sinks,
            );
            let out = r->Ok_0;
            r is Ok ==> {
                &&& anew(t, out.buf)
                &&& launched(
                    u.log,
                    t.log.len() as int,
                    Kernel::FlashKMla,
                    0,
                    seq![
                        Command::Buffer(0, q.buf, 0),
                        Command::Buffer(1, kv.buf, 0),
                        Command::Buffer(2, out.buf, 0),
                        Command::Bytes(3, Args::F32(scale)),
                        Command::Bytes(4, Args::U32(n_head as u32)),
                        Command::Bytes(5, Args::U32(base_pos)),
                        Command::Buffer(6, sinks.buf, 0),
                        Command::Buffer(7, kv.buf, 0),
                        Command::Bytes(8, Args::U32(0)),
                        Command::Buffer(9, kv.buf, 0),
                        Command::GroupMemory(24832),
                        Command::Dispatch((n_head, 1, 1), (32, 4, 1)),
                    ],
                )
                &&& out.n_elements == (k * n_head * dv) as u64
                &&& q.n_elements == k * n_head * dk
                &&& sinks.n_elements == n_head
            }
        }),
{
    broadcast use group_binds;

    grew_itself(t.log);
    reveal(Trace::flash_attn_k_mla);
    let (u, r) = t.flash_attn_k_mla(q, kv, n_head, dk, dv, n_cache, k, scale, base_pos, sinks);
    if r is Ok {
        let out = r->Ok_0;
        lemma_tail(
            u.log,
            t.log.len() as int,
            Kernel::FlashKMla,
            0,
            seq![
                Command::Buffer(0, q.buf, 0),
                Command::Buffer(1, kv.buf, 0),
                Command::Buffer(2, out.buf, 0),
                Command::Bytes(3, Args::F32(scale)),
                Command::Bytes(4, Args::U32(n_head as u32)),
                Command::Bytes(5, Args::U32(base_pos)),
                Command::Buffer(6, sinks.buf, 0),
                Command::Buffer(7, kv.buf, 0),
                Command::Bytes(8, Args::U32(0)),
                Command::Buffer(9, kv.buf, 0),
                Command::GroupMemory(24832),
                Command::Dispatch((n_head, 1, 1), (32, 4, 1)),
            ],
            1,
        );
    }
}

/// Attention over the cache and compressed rows reads both, each compressed row with the
/// position from which on it is visible, uploaded for it.
pub proof fn law_ring_attention_binds(
    t: Trace,
    q: DeferredBuf,
    kv: DeferredBuf,
    ring: BufId,
    n_comp: u32,
    avail: Seq<u32>,
    n_head: u64,
    dk: u64,
    dv: u64,
    n_cache: u64,
    k: u64,
    scale: F32,
    base_pos: u32,
    sinks: DeferredBuf,
)
    requires
        room(t),
        avail.len() <= u32::MAX,
    ensures
        ({
            let (u, r) = t.flash_attn_k_mla_comp(
                q,
                kv,
                ring,
                n_comp,
                avail,
                n_head,
                dk,
                dv,
                n_cache,
                k,
                scale,
                base_pos,
                sinks,
            );
            let out = r->Ok_0;
            r is Ok ==> {
                &&& anew(t, out.buf)
                &&& launched(
                    u.log,
                    t.log.len() as int,
                    Kernel::FlashKMla,
                    0,
                    seq![
                        Command::Buffer(0, q.buf, 0),
                        Command::Buffer(1, kv.buf, 0),
                        Command::Buffer(2, out.buf, 0),
                        Command::Bytes(3, Args::F32(scale)),
                        Command::Bytes(4, Args::U32(n_head as u32)),
                        Command::Bytes(5, Args::U32(base_pos)),
                        Command::Buffer(6, sinks.buf, 0),
                        Command::Buffer(7, ring, 0),
                        Command::Bytes(8, Args::U32(n_comp)),
                    ],
                )
                &&& out.n_elements == (k * n_head * dv) as u64
                &&& u.log[u.log.len() - 5] == (
                    Command::UploadWords {
                        start: t.words.len() as u64,
                        len: if n_comp == 0 { 1 } else { n_comp as u64 },
                    }
                )
                &&& u.log[u.log.len() - 4] == Command::Buffer(
                    9,
                    BufId::Fresh((u.log.len() - 5) as u64),
                    0,
                )
                &&& n_comp > 0 ==> u.words == t.words + avail
                &&& avail.len() == n_comp
            }
        }),
{
    broadcast use group_binds;

    grew_itself(t.log);
    reveal(Trace::flash_attn_k_mla_comp);
    let (u, r) = t.flash_attn_k_mla_comp(
        q,
        kv,
        ring,
        n_comp,
        avail,
        n_head,
        dk,
        dv,
        n_cache,
        k,
        scale,
        base_pos,
        sinks,
    );
    if r is Ok {
        let out = r->Ok_0;
        lemma_tail(
            u.log,
            t.log.len() as int,
            Kernel::FlashKMla,
            0,
            seq![
                Command::Buffer(0, q.buf, 0),
                Command::Buffer(1, kv.buf, 0),
                Command::Buffer(2, out.buf, 0),
                Command::Bytes(3, Args::F32(scale)),
                Command::Bytes(4, Args::U32(n_head as u32)),
                Command::Bytes(5, Args::U32(base_pos)),
                Command::Buffer(6, sinks.buf, 0),
                Command::Buffer(7, ring, 0),
                Command::Bytes(8, Args::U32(n_comp)),
            ],
            5,
        );
    }
}

/// Attention under a mask reads the window, the compressed rows and the mask, which it
/// uploads.
pub proof fn law_masked_attention_binds(
    t: Trace,
    q: DeferredBuf,
    kv: DeferredBuf,
    ring: BufId,
    n_comp: u32,
    mask: HostRef,
    n_head: u64,
    dk: u64,
    dv: u64,
    n_cache: u64,
    k: u64,
    scale: F32,
    sinks: DeferredBuf,
)
    requires
        room(t),
    ensures
        ({
            let (u, r) = t.flash_attn_k_mla_comp_masked(
                q,
                kv,
                ring,
                n_comp,
                mask,
                n_head,
                dk,
                dv,
                n_cache,
                k,
                scale,
                sinks,
            );
            let out = r->Ok_0;
            r is Ok ==> {
                &&& anew(t, out.buf)
                &&& launched(
                    u.log,
                    t.log.len() as int,
                    Kernel::FlashKMla,
                    0,
                    seq![
                        Command::Buffer(0, q.buf, 0),
                        Command::Buffer(1, kv.buf, 0),
                        Command::Buffer(2, out.buf, 0),
                        Command::Bytes(3, Args::F32(scale)),
                        Command::Bytes(4, Args::U32(n_head as u32)),
                        Command::Bytes(5, Args::U32(0)),
                        Command::Buffer(6, sinks.buf, 0),
                        Command::Buffer(7, ring, 0),
                        Command::Bytes(8, Args::U32(n_comp)),
                        Command::Buffer(9, ring, 0),
                        Command::Buffer(10, BufId::Fresh((u.log.len() - 18) as u64), 0),
                        Command::Bytes(11, Args::U32((n_cache + n_comp) as u32)),
                    ],
                )
                &&& u.log[u.log.len() - 18] == (Command::Upload { elem: Elem::U16, host: mask })
            }
        }),
{
    broadcast use group_binds;

    grew_itself(t.log);
    reveal(Trace::flash_attn_k_mla_comp_masked);
    let (u, r) = t.flash_attn_k_mla_comp_masked(
        q,
        kv,
        ring,
        n_comp,
        mask,
        n_head,
        dk,
        dv,
        n_cache,
        k,
        scale,
        sinks,
    );
    if r is Ok {
        let out = r->Ok_0;
        lemma_tail(
            u.log,
            t.log.len() as int,
            Kernel::FlashKMla,
            0,
            seq![
                Command::Buffer(0, q.buf, 0),
                Command::Buffer(1, kv.buf, 0),
                Command::Buffer(2, out.buf, 0),
                Command::Bytes(3, Args::F32(scale)),
                Command::Bytes(4, Args::U32(n_head as u32)),
                Command::Bytes(5, Args::U32(0)),
                Command::Buffer(6, sinks.buf, 0),
                Command::Buffer(7, ring, 0),
                Command::Bytes(8, Args::U32(n_comp)),
                Command::Buffer(9, ring, 0),
                Command::Buffer(10, BufId::Fresh((u.log.len() - 18) as u64), 0),
                Command::Bytes(11, Args::U32((n_cache + n_comp) as u32)),
            ],
            3,
        );
    }
}

/// The attention output in single precision multiplies each group's heads by its matrix,
/// and what comes of it by the second matrix.
pub proof fn law_output_products_bind(
    t: Trace,
    heads: DeferredBuf,
    a: DeferredBuf,
    b: DeferredBuf,
    n_groups: u64,
    n_lora_o: u64,
    group_dim: u64,
    low_dim: u64,
    d_embd: u64,
)
    requires
        room(t),
        low_dim * d_embd * 4 <= u64::MAX,
    ensures
        ({
            let (u, r) = t.encode_attn_output_matmuls(
                heads,
                a,
                b,
                n_groups,
                n_lora_o,
                group_dim,
                low_dim,
                d_embd,
            );
            let out = r->Ok_0;
            r is Ok ==> {
                &&& anew(t, out.0.buf)
                &&& anew(t, out.1.buf)
                &&& launched(
                    u.log,
                    t.log.len() as int,
                    Kernel::MulMvF32,
                    1,
                    seq![
                        Command::Buffer(1, a.buf, 0),
                        Command::Buffer(2, heads.buf, 0),
                        Command::Buffer(3, out.0.buf, 0),
                        Command::GroupMemory(256),
                    ],
                )
                &&& launched(
                    u.log,
                    t.log.len() as int,
                    Kernel::MulMvF32,
                    0,
                    seq![
                        Command::Bytes(
                            0,
                            Args::MulMv(product_args(low_dim, d_embd, 4, low_dim * 4, 1)),
                        ),
                        Command::Buffer(1, b.buf, 0),
                        Command::Buffer(2, out.0.buf, 0),
                        Command::Buffer(3, out.1.buf, 0),
                        Command::GroupMemory(256),
                    ],
                )
                &&& out.0.buf != out.1.buf
                &&& out.0.n_elements == low_dim
                &&& out.1.n_elements == d_embd
            }
        }),
{
    broadcast use group_binds;

    grew_itself(t.log);
    reveal(Trace::encode_attn_output_matmuls);
    let (u, r) = t.encode_attn_output_matmuls(
        heads,
        a,
        b,
        n_groups,
        n_lora_o,
        group_dim,
        low_dim,
        d_embd,
    );
    if r is Ok {
        let out = r->Ok_0;
        assert(low_dim * d_embd * 4 == low_dim * 4 * d_embd) by (nonlinear_arith);
        lemma_tail(
            u.log,
            t.log.len() as int,
            Kernel::MulMvF32,
            1,
            seq![
                Command::Buffer(1, a.buf, 0),
                Command::Buffer(2, heads.buf, 0),
                Command::Buffer(3, out.0.buf, 0),
                Command::GroupMemory(256),
            ],
            11,
        );
        lemma_tail(
            u.log,
            t.log.len() as int,
            Kernel::MulMvF32,
            0,
            seq![
                Command::Bytes(0, Args::MulMv(product_args(low_dim, d_embd, 4, low_dim * 4, 1))),
                Command::Buffer(1, b.buf, 0),
                Command::Buffer(2, out.0.buf, 0),
                Command::Buffer(3, out.1.buf, 0),
                Command::GroupMemory(256),
            ],
            2,
        );
    }
}

/// The low-rank attention output multiplies each group's heads by its Q8_0 matrix, and what
/// comes of it goes to the second product.
pub proof fn law_low_output_binds(
    t: Trace,
    heads: DeferredBuf,
    a: DeferredBuf,
    b: DeferredBuf,
    n_groups: u64,
    n_lora_o: u64,
    group_dim: u64,
    low_dim: u64,
    d_embd: u64,
)
    requires
        room(t),
    ensures
        ({
            let (u, r) = t.encode_attn_output_matmuls_q8(
                heads,
                a,
                b,
                n_groups,
                n_lora_o,
                group_dim,
                low_dim,
                d_embd,
            );
            let out = r->Ok_0;
            r is Ok ==> {
                &&& anew(t, out.0.buf)
                &&& launched(
                    u.log,
                    t.log.len() as int,
                    Kernel::AttnOutLowQ8,
                    1,
                    seq![
                        Command::Buffer(1, a.buf, 0),
                        Command::Buffer(2, heads.buf, 0),
                        Command::Buffer(3, out.0.buf, 0),
                    ],
                )
                &&& out.0.n_elements == low_dim
            }
        }),
{
    broadcast use group_binds;

    grew_itself(t.log);
    reveal(Trace::encode_attn_output_matmuls_q8);
    let (u, r) = t.encode_attn_output_matmuls_q8(
        heads,
        a,
        b,
        n_groups,
        n_lora_o,
        group_dim,
        low_dim,
        d_embd,
    );
    if r is Ok {
        let out = r->Ok_0;
        let s = seq![
            Command::Buffer(1, a.buf, 0),
            Command::Buffer(2, heads.buf, 0),
            Command::Buffer(3, out.0.buf, 0),
        ];
        let (v, low) = t.alloc_f32(low_dim);
        let v = v.attn_low_launch(
            Kernel::AttnOutLowQ8,
            a.buf,
            (heads.buf, 0),
            (low.buf, 0),
            n_groups,
            n_lora_o,
            group_dim,
            low_dim,
            n_groups,
        );
        lemma_tail(v.log, t.log.len() as int, Kernel::AttnOutLowQ8, 1, s, 3);
        grew_itself(v.log);
        grows_matvec_attn_proj(v.log, v, b, low, low_dim, d_embd);
        lemma_kept(
            v.log,
            u.log,
            t.log.len() as int,
            t.log.len() as int,
            Kernel::AttnOutLowQ8,
            1,
            s,
        );
    }
}

/// The scores of a tile read the queries, their weights and the ring, and write the scores.
pub proof fn law_tiled_scores_bind(
    t: Trace,
    q: DeferredBuf,
    weights: DeferredBuf,
    ring: DeferredBuf,
    n_comp: u64,
    n_tokens: u64,
    n_head: u64,
    head_dim: u64,
    pos0: u32,
    ratio: u32,
)
    requires
        room(t),
    ensures
        ({
            let (u, r) = t.encode_indexer_scores_tiled(
                q,
                weights,
                ring,
                n_comp,
                n_tokens,
                n_head,
                head_dim,
                pos0,
                ratio,
            );
            let out = r->Ok_0;
            r is Ok ==> {
                &&& anew(t, out.buf)
                &&& launched(
                    u.log,
                    t.log.len() as int,
                    if t.config.indexer_f16 {
                        Kernel::IndexerScoresTiled
                    } else {
                        Kernel::IndexerScoresTiledF32
                    },
                    0,
                    seq![
                        Command::Buffer(0, q.buf, 0),
                        Command::Buffer(1, weights.buf, 0),
                        Command::Buffer(2, ring.buf, 0),
                        Command::Buffer(3, out.buf, 0),
                        Command::Bytes(4, Args::U32(n_comp as u32)),
                        Command::Bytes(5, Args::U32(n_tokens as u32)),
                        Command::Bytes(6, Args::U32(n_head as u32)),
                        Command::Bytes(7, Args::U32(pos0)),
                        Command::Bytes(8, Args::U32(ratio)),
                        Command::Bytes(9, Args::U32((n_head * head_dim * 4) as u32)),
                        Command::Bytes(10, Args::U32((head_dim * 4) as u32)),
                        Command::Bytes(11, Args::U32((n_head * 4) as u32)),
                        Command::Bytes(12, Args::U32((head_dim * 4) as u32)),
                        Command::Bytes(13, Args::U32((n_comp * 4) as u32)),
                        Command::Bytes(14, Args::InvSqrt((head_dim * n_head) as u64)),
                    ],
                )
                &&& out.n_elements == (n_tokens * n_comp) as u64
                &&& q.n_elements == n_tokens * n_head * head_dim
                &&& ring.n_elements == n_comp * head_dim
            }
        }),
{
    broadcast use group_binds;

    grew_itself(t.log);
    reveal(Trace::encode_indexer_scores_tiled);
    let (u, r) = t.encode_indexer_scores_tiled(
        q,
        weights,
        ring,
        n_comp,
        n_tokens,
        n_head,
        head_dim,
        pos0,
        ratio,
    );
    if r is Ok {
        let out = r->Ok_0;
        lemma_tail(
            u.log,
            t.log.len() as int,
            if t.config.indexer_f16 {
                        Kernel::IndexerScoresTiled
                    } else {
                        Kernel::IndexerScoresTiledF32
                    },
            0,
            seq![
                Command::Buffer(0, q.buf, 0),
                Command::Buffer(1, weights.buf, 0),
                Command::Buffer(2, ring.buf, 0),
                Command::Buffer(3, out.buf, 0),
                Command::Bytes(4, Args::U32(n_comp as u32)),
                Command::Bytes(5, Args::U32(n_tokens as u32)),
                Command::Bytes(6, Args::U32(n_head as u32)),
                Command::Bytes(7, Args::U32(pos0)),
                Command::Bytes(8, Args::U32(ratio)),
                Command::Bytes(9, Args::U32((n_head * head_dim * 4) as u32)),
                Command::Bytes(10, Args::U32((head_dim * 4) as u32)),
                Command::Bytes(11, Args::U32((n_head * 4) as u32)),
                Command::Bytes(12, Args::U32((head_dim * 4) as u32)),
                Command::Bytes(13, Args::U32((n_comp * 4) as u32)),
                Command::Bytes(14, Args::InvSqrt((head_dim * n_head) as u64)),
            ],
            2,
        );
    }
}

/// The choice of the highest scores reads the scores and writes the chosen rows.
pub proof fn law_sorted_choice_binds(
    t: Trace,
    scores: DeferredBuf,
    n_comp: u64,
    n_tokens: u64,
    top_k: u64,
)
    requires
        room(t),
    ensures
        ({
            let (u, r) = t.encode_indexer_topk_batched(scores, n_comp, n_tokens, top_k);
            let out = r->Ok_0;
            r is Ok && n_comp <= 1024 ==> {
                &&& anew(t, out.buf)
                &&& launched(
                    u.log,
                    t.log.len() as int,
                    Kernel::ArgsortDesc,
                    0,
                    seq![
                        Command::Buffer(0, scores.buf, 0),
                        Command::Buffer(1, out.buf, 0),
                        Command::Bytes(2, Args::U32(n_comp as u32)),
                        Command::Bytes(3, Args::U32(n_tokens as u32)),
                        Command::Bytes(4, Args::U32(top_k as u32)),
                        Command::Bytes(5, Args::U32(top_k as u32)),
                        Command::Bytes(6, Args::U32((n_comp * 4) as u32)),
                    ],
                )
                &&& out.n_elements == (n_tokens * top_k) as u64
                &&& top_k <= n_comp
            }
        }),
{
    broadcast use group_binds;

    grew_itself(t.log);
    reveal(Trace::encode_indexer_topk_batched);
    let (u, r) = t.encode_indexer_topk_batched(scores, n_comp, n_tokens, top_k);
    if r is Ok && n_comp <= 1024 {
        let out = r->Ok_0;
        lemma_tail(
            u.log,
            t.log.len() as int,
            Kernel::ArgsortDesc,
            0,
            seq![
                Command::Buffer(0, scores.buf, 0),
                Command::Buffer(1, out.buf, 0),
                Command::Bytes(2, Args::U32(n_comp as u32)),
                Command::Bytes(3, Args::U32(n_tokens as u32)),
                Command::Bytes(4, Args::U32(top_k as u32)),
                Command::Bytes(5, Args::U32(top_k as u32)),
                Command::Bytes(6, Args::U32((n_comp * 4) as u32)),
            ],
            2,
        );
    }
}

/// The choice by threshold reads the scores and writes the chosen rows.
pub proof fn law_threshold_choice_binds(
    t: Trace,
    scores: DeferredBuf,
    n_comp: u64,
    n_tokens: u64,
    top_k: u64,
)
    requires
        room(t),
    ensures
        ({
            let (u, r) = t.encode_indexer_topk_batched_threshold(scores, n_comp, n_tokens, top_k);
            let out = r->Ok_0;
            r is Ok ==> {
                &&& anew(t, out.buf)
                &&& launched(
                    u.log,
                    t.log.len() as int,
                    Kernel::IndexerTopkThresholdBatched,
                    0,
                    seq![
                        Command::Buffer(0, scores.buf, 0),
                        Command::Buffer(1, out.buf, 0),
                        Command::Bytes(2, Args::U32(n_comp as u32)),
                        Command::Bytes(3, Args::U32(top_k as u32)),
                        Command::Bytes(4, Args::U32(n_tokens as u32)),
                    ],
                )
                &&& out.n_elements == (n_tokens * top_k) as u64
                &&& top_k <= n_comp
            }
        }),
{
    broadcast use group_binds;

    grew_itself(t.log);
    reveal(Trace::encode_indexer_topk_batched_threshold);
    let (u, r) = t.encode_indexer_topk_batched_threshold(scores, n_comp, n_tokens, top_k);
    if r is Ok {
        let out = r->Ok_0;
        lemma_tail(
            u.log,
            t.log.len() as int,
            Kernel::IndexerTopkThresholdBatched,
            0,
            seq![
                Command::Buffer(0, scores.buf, 0),
                Command::Buffer(1, out.buf, 0),
                Command::Bytes(2, Args::U32(n_comp as u32)),
                Command::Bytes(3, Args::U32(top_k as u32)),
                Command::Bytes(4, Args::U32(n_tokens as u32)),
            ],
            2,
        );
    }
}

/// The choice for one row of scores reads the scores and writes the chosen rows.
pub proof fn law_choice_binds(
    t: Trace,
    kernel: Kernel,
    scores: DeferredBuf,
    n_comp: u64,
    top_k: u64,
)
    requires
        room(t),
    ensures
        ({
            let (u, r) = t.topk_one(kernel, scores, n_comp, top_k);
            let out = r->Ok_0;
            r is Ok ==> {
                &&& anew(t, out.buf)
                &&& launched(
                    u.log,
                    t.log.len() as int,
                    kernel,
                    0,
                    seq![
                        Command::Buffer(0, scores.buf, 0),
                        Command::Buffer(1, out.buf, 0),
                        Command::Bytes(2, Args::U32(n_comp as u32)),
                        Command::Bytes(3, Args::U32(top_k as u32)),
                    ],
                )
                &&& out.n_elements == top_k
                &&& top_k <= n_comp
            }
        }),
{
    broadcast use group_binds;

    grew_itself(t.log);
    let (u, r) = t.topk_one(kernel, scores, n_comp, top_k);
    if r is Ok {
        let out = r->Ok_0;
        lemma_tail(
            u.log,
            t.log.len() as int,
            kernel,
            0,
            seq![
                Command::Buffer(0, scores.buf, 0),
                Command::Buffer(1, out.buf, 0),
                Command::Bytes(2, Args::U32(n_comp as u32)),
                Command::Bytes(3, Args::U32(top_k as u32)),
            ],
            2,
        );
    }
}

/// Attention over raw and chosen rows reads the queries, both rings, the choice and the
/// sinks, and writes its result.
pub proof fn law_mixed_attention_binds(
    t: Trace,
    q: DeferredBuf,
    raw: DeferredBuf,
    ring: DeferredBuf,
    sel: DeferredBuf,
    sinks: DeferredBuf,
    n_tokens: u64,
    n_head: u64,
    head_dim: u64,
    n_raw: u64,
    n_comp: u64,
    top_k: u64,
    ratio: u32,
    window: u32,
    pos0: u32,
    raw_start: u32,
    raw_cap: u32,
    scale: F32,
)
    requires
        room(t),
    ensures
        ({
            let (u, r) = t.encode_indexed_mixed_attention(
                q,
                raw,
                ring,
                sel,
                sinks,
                n_tokens,
                n_head,
                head_dim,
                n_raw,
                n_comp,
                top_k,
                ratio,
                window,
                pos0,
                raw_start,
                raw_cap,
                scale,
            );
            let out = r->Ok_0;
            r is Ok ==> {
                &&& anew(t, out.buf)
                &&& launched(
                    u.log,
                    t.log.len() as int,
                    Kernel::IndexedMixedAttention,
                    0,
                    seq![
                        Command::Buffer(0, q.buf, 0),
                        Command::Buffer(1, raw.buf, 0),
                        Command::Buffer(2, ring.buf, 0),
                        Command::Buffer(3, sel.buf, 0),
                        Command::Buffer(4, sinks.buf, 0),
                        Command::Buffer(5, out.buf, 0),
                        Command::Bytes(6, Args::U32(n_tokens as u32)),
                        Command::Bytes(7, Args::U32(n_head as u32)),
                        Command::Bytes(8, Args::U32(n_raw as u32)),
                        Command::Bytes(9, Args::U32(n_comp as u32)),
                        Command::Bytes(10, Args::U32(top_k as u32)),
                        Command::Bytes(11, Args::U32(ratio)),
                        Command::Bytes(12, Args::U32(window)),
                        Command::Bytes(13, Args::U32(pos0)),
                        Command::Bytes(14, Args::U32(raw_start)),
                        Command::Bytes(15, Args::U32(raw_cap)),
                        Command::Bytes(16, Args::U32((n_head * head_dim * 4) as u32)),
                        Command::Bytes(17, Args::U32((head_dim * 4) as u32)),
                        Command::Bytes(18, Args::U32((head_dim * 4) as u32)),
                        Command::Bytes(19, Args::U32((head_dim * 4) as u32)),
                        Command::Bytes(20, Args::U32((top_k * 4) as u32)),
                        Command::Bytes(21, Args::U32((n_head * head_dim * 4) as u32)),
                        Command::Bytes(22, Args::U32((head_dim * 4) as u32)),
                        Command::Bytes(23, Args::F32(scale)),
                    ],
                )
                &&& out.n_elements == (n_tokens * n_head * head_dim) as u64
            }
        }),
{
    broadcast use group_binds;

    grew_itself(t.log);
    reveal(Trace::encode_indexed_mixed_attention);
    let (u, r) = t.encode_indexed_mixed_attention(
        q,
        raw,
        ring,
        sel,
        sinks,
        n_tokens,
        n_head,
        head_dim,
        n_raw,
        n_comp,
        top_k,
        ratio,
        window,
        pos0,
        raw_start,
        raw_cap,
        scale,
    );
    if r is Ok {
        let out = r->Ok_0;
        lemma_tail(
            u.log,
            t.log.len() as int,
            Kernel::IndexedMixedAttention,
            0,
            seq![
                Command::Buffer(0, q.buf, 0),
                Command::Buffer(1, raw.buf, 0),
                Command::Buffer(2, ring.buf, 0),
                Command::Buffer(3, sel.buf, 0),
                Command::Buffer(4, sinks.buf, 0),
                Command::Buffer(5, out.buf, 0),
                Command::Bytes(6, Args::U32(n_tokens as u32)),
                Command::Bytes(7, Args::U32(n_head as u32)),
                Command::Bytes(8, Args::U32(n_raw as u32)),
                Command::Bytes(9, Args::U32(n_comp as u32)),
                Command::Bytes(10, Args::U32(top_k as u32)),
                Command::Bytes(11, Args::U32(ratio)),
                Command::Bytes(12, Args::U32(window)),
                Command::Bytes(13, Args::U32(pos0)),
                Command::Bytes(14, Args::U32(raw_start)),
                Command::Bytes(15, Args::U32(raw_cap)),
                Command::Bytes(16, Args::U32((n_head * head_dim * 4) as u32)),
                Command::Bytes(17, Args::U32((head_dim * 4) as u32)),
                Command::Bytes(18, Args::U32((head_dim * 4) as u32)),
                Command::Bytes(19, Args::U32((head_dim * 4) as u32)),
                Command::Bytes(20, Args::U32((top_k * 4) as u32)),
                Command::Bytes(21, Args::U32((n_head * head_dim * 4) as u32)),
                Command::Bytes(22, Args::U32((head_dim * 4) as u32)),
                Command::Bytes(23, Args::F32(scale)),
            ],
            2,
        );
    }
}

/// The scores of one query read the query, its weights and the ring, and write one
/// score for each row of the ring.
pub proof fn law_scores_bind(
    t: Trace,
    q: BufId,
    weights: BufId,
    ring: BufId,
    n_comp: u64,
    n_head: u64,
    head_dim: u64,
)
    requires
        room(t),
    ensures
        ({
            let (u, out) = t.score_launch(q, weights, ring, n_comp, n_head, head_dim);
            &&& anew(t, out.buf)
            &&& out.n_elements == n_comp
            &&& launched(
                u.log,
                t.log.len() as int,
                Kernel::IndexerScoreOne,
                0,
                seq![
                    Command::Buffer(0, q, 0),
                    Command::Buffer(1, weights, 0),
                    Command::Buffer(2, ring, 0),
                    Command::Buffer(3, out.buf, 0),
                    Command::Bytes(4, Args::U32(n_comp as u32)),
                ],
            )
        }),
{
    broadcast use group_binds;

    grew_itself(t.log);
    reveal(Trace::score_launch);
    let (u, out) = t.score_launch(q, weights, ring, n_comp, n_head, head_dim);
    lemma_tail(
        u.log,
        t.log.len() as int,
        Kernel::IndexerScoreOne,
        0,
        seq![
            Command::Buffer(0, q, 0),
            Command::Buffer(1, weights, 0),
            Command::Buffer(2, ring, 0),
            Command::Buffer(3, out.buf, 0),
            Command::Bytes(4, Args::U32(n_comp as u32)),
        ],
        5,
    );
}

/// The compression of a chunk pools the values that it is given as keys and values, with
/// weights from what it is given as scores, into the ring from its first row on; the
/// position table and the factors of the norm are uploaded for it.
pub proof fn law_chunk_compression_binds(
    t: Trace,
    kv: DeferredBuf,
    sc: DeferredBuf,
    ape: HostRef,
    norm: HostRef,
    ring: BufId,
    head_dim: u32,
    ratio: u32,
    n_rot: u32,
    start: u32,
    row0: u32,
    n_comp: u32,
    p: LayerParams,
    eps: F32,
)
    ensures
        ({
            let (u, r) = t.compressor_prefill_noidx(
                kv,
                sc,
                ape,
                norm,
                ring,
                head_dim,
                ratio,
                n_rot,
                start,
                row0,
                n_comp,
                p,
                eps,
            );
            r is Ok && n_comp > 0 ==> {
                &&& launched(
                    u.log,
                    t.log.len() as int,
                    Kernel::CompressorPrefillNoidx,
                    0,
                    seq![
                        Command::Buffer(0, kv.buf, 0),
                        Command::Buffer(1, sc.buf, 0),
                        Command::Buffer(2, BufId::Fresh(t.log.len() as u64), 0),
                        Command::Buffer(3, BufId::Fresh((t.log.len() + 1) as u64), 0),
                        Command::Buffer(4, ring, 0),
                        Command::Bytes(
                            5,
                            Args::Prefill(
                                PrefillArgs {
                                    head_dim,
                                    ratio,
                                    n_rot,
                                    pos0: start,
                                    comp_row0: row0,
                                    n_comp,
                                    rms_eps: eps,
                                    freq_base: p.rope_freq_base,
                                    freq_scale: p.rope_freq_scale,
                                    ext_factor: p.rope_ext_factor,
                                    attn_factor: p.rope_attn_factor,
                                    beta_fast: F32(0x4200_0000),
                                    beta_slow: F32(0x3f80_0000),
                                    orig_ctx: p.rope_orig_ctx,
                                    backward: 0,
                                },
                            ),
                        ),
                        Command::Dispatch((n_comp as u64, 1, 1), (head_dim as u64, 1, 1)),
                    ],
                )
                &&& u.log[t.log.len() as int] == (Command::Upload { elem: Elem::F32, host: ape })
                &&& u.log[t.log.len() as int + 1] == (
                    Command::Upload { elem: Elem::F32, host: norm }
                )
                &&& ape.len == head_dim * ratio
                &&& norm.len == head_dim
            }
        }),
{
    broadcast use group_binds;

    grew_itself(t.log);
    reveal(Trace::compressor_prefill_noidx);
    let (u, r) = t.compressor_prefill_noidx(
        kv,
        sc,
        ape,
        norm,
        ring,
        head_dim,
        ratio,
        n_rot,
        start,
        row0,
        n_comp,
        p,
        eps,
    );
    if r is Ok && n_comp > 0 {
        lemma_tail(
            u.log,
            t.log.len() as int,
            Kernel::CompressorPrefillNoidx,
            0,
            seq![
                Command::Buffer(0, kv.buf, 0),
                Command::Buffer(1, sc.buf, 0),
                Command::Buffer(2, BufId::Fresh(t.log.len() as u64), 0),
                Command::Buffer(3, BufId::Fresh((t.log.len() + 1) as u64), 0),
                Command::Buffer(4, ring, 0),
                Command::Bytes(
                            5,
                            Args::Prefill(
                                PrefillArgs {
                                    head_dim,
                                    ratio,
                                    n_rot,
                                    pos0: start,
                                    comp_row0: row0,
                                    n_comp,
                                    rms_eps: eps,
                                    freq_base: p.rope_freq_base,
                                    freq_scale: p.rope_freq_scale,
                                    ext_factor: p.rope_ext_factor,
                                    attn_factor: p.rope_attn_factor,
                                    beta_fast: F32(0x4200_0000),
                                    beta_slow: F32(0x3f80_0000),
                                    orig_ctx: p.rope_orig_ctx,
                                    backward: 0,
                                },
                            ),
                        ),
                Command::Dispatch((n_comp as u64, 1, 1), (head_dim as u64, 1, 1)),
            ],
            1,
        );
    }
}

/// The compression in overlapping windows asks for the same: keys and values, scores,
/// position table, factors and ring in their places.
pub proof fn law_overlapping_compression_is_asked_for(
    t: Trace,
    kv: DeferredBuf,
    sc: DeferredBuf,
    ape: HostRef,
    norm: HostRef,
    ring: BufId,
    head_dim: u32,
    n_rot: u32,
    start: u32,
    row0: u32,
    n_comp: u32,
    p: LayerParams,
    eps: F32,
)
    ensures
        ({
            let (u, r) = t.compressor_prefill_idx(
                kv,
                sc,
                ape,
                norm,
                ring,
                head_dim,
                n_rot,
                start,
                row0,
                n_comp,
                p,
                eps,
            );
            r is Ok && n_comp > 0 ==> {
                &&& u.log == t.log.push(Command::Upload { elem: Elem::F32, host: ape }).push(
                    Command::Upload { elem: Elem::F32, host: norm },
                ).push(
                    Command::PrefillIdx(
                        PrefillIdx {
                            kv: kv.buf,
                            sc: sc.buf,
                            ape: BufId::Fresh(t.log.len() as u64),
                            norm: BufId::Fresh((t.log.len() + 1) as u64),
                            comp_ring: ring,
                            head_dim,
                            n_rot,
                            chunk_start: start,
                            comp_row0: row0,
                            n_comp,
                            params: p,
                            rms_eps: eps,
                        },
                    ),
                )
            }
        }),
{
    broadcast use group_binds;

    grew_itself(t.log);
    reveal(Trace::compressor_prefill_idx);
    let (u, r) = t.compressor_prefill_idx(
        kv,
        sc,
        ape,
        norm,
        ring,
        head_dim,
        n_rot,
        start,
        row0,
        n_comp,
        p,
        eps,
    );
    if r is Ok && n_comp > 0 {
    }
}

/// The fill of a compressor's state stores keys and values in one state and scores in the
/// other, each from its own operand.
pub proof fn law_state_fill_binds(
    t: Trace,
    kv: DeferredBuf,
    sc: DeferredBuf,
    ape: HostRef,
    state_kv: BufId,
    state_score: BufId,
    head_dim: u32,
    ratio: u32,
    start: u32,
    first: u32,
    rem: u32,
)
    ensures
        ({
            let (u, r) = t.compressor_pool_fill_noidx(
                kv,
                sc,
                ape,
                state_kv,
                state_score,
                head_dim,
                ratio,
                start,
                first,
                rem,
            );
            r is Ok && rem > 0 ==> {
                &&& launched(
                    u.log,
                    t.log.len() as int,
                    Kernel::CompressorPoolFillNoidx,
                    0,
                    seq![
                        Command::Buffer(0, kv.buf, 0),
                        Command::Buffer(1, sc.buf, 0),
                        Command::Buffer(2, BufId::Fresh(t.log.len() as u64), 0),
                        Command::Buffer(3, state_kv, 0),
                        Command::Buffer(4, state_score, 0),
                        Command::Bytes(
                            5,
                            Args::PoolFill(
                                PoolFillArgs { width: head_dim, ratio, pos0: start, first, rem },
                            ),
                        ),
                    ],
                )
                &&& u.log[t.log.len() as int] == (Command::Upload { elem: Elem::F32, host: ape })
                &&& rem <= ratio
            }
        }),
{
    broadcast use group_binds;

    grew_itself(t.log);
    reveal(Trace::compressor_pool_fill_noidx);
    let (u, r) = t.compressor_pool_fill_noidx(
        kv,
        sc,
        ape,
        state_kv,
        state_score,
        head_dim,
        ratio,
        start,
        first,
        rem,
    );
    if r is Ok && rem > 0 {
        lemma_tail(
            u.log,
            t.log.len() as int,
            Kernel::CompressorPoolFillNoidx,
            0,
            seq![
                Command::Buffer(0, kv.buf, 0),
                Command::Buffer(1, sc.buf, 0),
                Command::Buffer(2, BufId::Fresh(t.log.len() as u64), 0),
                Command::Buffer(3, state_kv, 0),
                Command::Buffer(4, state_score, 0),
                Command::Bytes(
                    5,
                    Args::PoolFill(
                        PoolFillArgs { width: head_dim, ratio, pos0: start, first, rem },
                    ),
                ),
            ],
            2,
        );
    }
}

/// The square root of the softplus reads its operand and writes its result.
pub proof fn law_softplus_binds(t: Trace, x: DeferredBuf)
    requires
        room(t),
    ensures
        ({
            let (u, r) = t.softplus_sqrt(x);
            let out = r->Ok_0;
            r is Ok ==> {
                &&& anew(t, out.buf)
                &&& launched(
                    u.log,
                    t.log.len() as int,
                    Kernel::SoftplusSqrt,
                    0,
                    seq![
                        Command::Buffer(0, x.buf, 0),
                        Command::Buffer(1, out.buf, 0),
                        Command::Bytes(2, Args::U32((x.n_elements / 4) as u32)),
                        Command::Bytes(3, Args::U32((x.n_elements * 4) as u32)),
                        Command::Bytes(4, Args::U32((x.n_elements * 4) as u32)),
                    ],
                )
                &&& out.n_elements == x.n_elements
            }
        }),
{
    broadcast use group_binds;

    grew_itself(t.log);
    reveal(Trace::softplus_sqrt);
    let (u, r) = t.softplus_sqrt(x);
    if r is Ok {
        let out = r->Ok_0;
        lemma_tail(
            u.log,
            t.log.len() as int,
            Kernel::SoftplusSqrt,
            0,
            seq![
                Command::Buffer(0, x.buf, 0),
                Command::Buffer(1, out.buf, 0),
                Command::Bytes(2, Args::U32((x.n_elements / 4) as u32)),
                Command::Bytes(3, Args::U32((x.n_elements * 4) as u32)),
                Command::Bytes(4, Args::U32((x.n_elements * 4) as u32)),
            ],
            2,
        );
    }
}

/// The numbers of a selection among `n` experts.
pub open spec fn selection_numbers(n: u64) -> SelectArgs {
    SelectArgs {
        has_bias: 1,
        hash_mode: 0,
        use_token_buffer: 0,
        token: 0,
        hash_rows: 1,
        n_experts: n as u32,
    }
}

/// The route of one position selects by the probabilities and the bias, and weighs
/// what it selected by the probabilities alone.
pub proof fn law_route_binds(
    t: Trace,
    n: u64,
    generic: bool,
    probs: (BufId, u64),
    bias: BufId,
    hash: BufId,
    tokens: BufId,
)
    requires
        room(t),
    ensures
        ({
            let (u, (sel, wt)) = t.route_one(n, generic, probs, bias, hash, tokens);
            &&& anew(t, sel.buf)
            &&& anew(t, wt.buf)
            &&& sel.buf != wt.buf
            &&& sel.n_elements == 6
            &&& wt.n_elements == 6
            &&& launched(
                u.log,
                t.log.len() as int,
                if generic {
                    Kernel::RouterFinalizeOneAny
                } else {
                    Kernel::RouterFinalizeOne
                },
                0,
                seq![
                    Command::Bytes(0, Args::Select(selection_numbers(n))),
                    Command::Buffer(1, probs.0, probs.1),
                    Command::Buffer(2, bias, 0),
                    Command::Buffer(3, hash, 0),
                    Command::Buffer(4, tokens, 0),
                    Command::Buffer(5, sel.buf, 0),
                ],
            )
            &&& launched(
                u.log,
                t.log.len() as int,
                if generic {
                    Kernel::RouterWeightsOneAny
                } else {
                    Kernel::RouterWeightsOne
                },
                0,
                seq![
                    Command::Buffer(0, probs.0, probs.1),
                    Command::Buffer(1, sel.buf, 0),
                    Command::Buffer(2, wt.buf, 0),
                    Command::Bytes(3, Args::U32(6)),
                    Command::Bytes(4, Args::F32(t.engine.router_scale)),
                    Command::Bytes(5, Args::F32(F32(0x3880_0000))),
                ],
            )
        }),
{
    broadcast use group_binds;

    grew_itself(t.log);
    reveal(Trace::route_one);
    let (u, (sel, wt)) = t.route_one(n, generic, probs, bias, hash, tokens);
    lemma_tail(
        u.log,
        t.log.len() as int,
        if generic {
            Kernel::RouterFinalizeOneAny
        } else {
            Kernel::RouterFinalizeOne
        },
        0,
        seq![
            Command::Bytes(0, Args::Select(selection_numbers(n))),
            Command::Buffer(1, probs.0, probs.1),
            Command::Buffer(2, bias, 0),
            Command::Buffer(3, hash, 0),
            Command::Buffer(4, tokens, 0),
            Command::Buffer(5, sel.buf, 0),
        ],
        13,
    );
    lemma_tail(
        u.log,
        t.log.len() as int,
        if generic {
            Kernel::RouterWeightsOneAny
        } else {
            Kernel::RouterWeightsOne
        },
        0,
        seq![
            Command::Buffer(0, probs.0, probs.1),
            Command::Buffer(1, sel.buf, 0),
            Command::Buffer(2, wt.buf, 0),
            Command::Bytes(3, Args::U32(6)),
            Command::Bytes(4, Args::F32(t.engine.router_scale)),
            Command::Bytes(5, Args::F32(F32(0x3880_0000))),
        ],
        2,
    );
}

/// The factors of given experts are taken from the probabilities at those experts.
pub proof fn law_weights_bind(t: Trace, probs: DeferredBuf, sel: DeferredBuf)
    requires
        room(t),
    ensures
        ({
            let (u, r) = t.encode_router_weights_one(probs, sel);
            let out = r->Ok_0;
            r is Ok ==> {
                &&& anew(t, out.buf)
                &&& launched(
                    u.log,
                    t.log.len() as int,
                    if probs.n_elements != 256 || t.engine.router_scale != F32(0x3fc0_0000) {
                        Kernel::RouterWeightsOneAny
                    } else {
                        Kernel::RouterWeightsOne
                    },
                    0,
                    seq![
                        Command::Buffer(0, probs.buf, 0),
                        Command::Buffer(1, sel.buf, 0),
                        Command::Buffer(2, out.buf, 0),
                        Command::Bytes(3, Args::U32(6)),
                        Command::Bytes(4, Args::F32(t.engine.router_scale)),
                        Command::Bytes(5, Args::F32(F32(0x3880_0000))),
                    ],
                )
                &&& out.n_elements == 6
                &&& sel.n_elements == 6
            }
        }),
{
    broadcast use group_binds;

    grew_itself(t.log);
    reveal(Trace::encode_router_weights_one);
    let (u, r) = t.encode_router_weights_one(probs, sel);
    if r is Ok {
        let out = r->Ok_0;
        lemma_tail(
            u.log,
            t.log.len() as int,
            if probs.n_elements != 256 || t.engine.router_scale != F32(0x3fc0_0000) {
                        Kernel::RouterWeightsOneAny
                    } else {
                        Kernel::RouterWeightsOne
                    },
            0,
            seq![
                Command::Buffer(0, probs.buf, 0),
                Command::Buffer(1, sel.buf, 0),
                Command::Buffer(2, out.buf, 0),
                Command::Bytes(3, Args::U32(6)),
                Command::Bytes(4, Args::F32(t.engine.router_scale)),
                Command::Bytes(5, Args::F32(F32(0x3880_0000))),
            ],
            2,
        );
    }
}

/// The routes of several positions at once select by the probabilities and the bias, and
/// weigh what was selected by the probabilities alone.
pub proof fn law_flat_route_binds(t: Trace, probs: DeferredBuf, bias: DeferredBuf, k: u64)
    requires
        room(t),
    ensures
        ({
            let (u, r) = t.encode_router_finalize_flat_k(probs, bias, k);
            let out = r->Ok_0;
            r is Ok ==> {
                &&& anew(t, out.0.buf)
                &&& anew(t, out.1.buf)
                &&& launched(
                    u.log,
                    t.log.len() as int,
                    Kernel::RouterFinalizeOneAnyK,
                    0,
                    seq![
                        Command::Bytes(0, Args::Select(selection_numbers(bias.n_elements))),
                        Command::Buffer(1, probs.buf, 0),
                        Command::Buffer(2, bias.buf, 0),
                        Command::Buffer(3, out.0.buf, 0),
                    ],
                )
                &&& launched(
                    u.log,
                    t.log.len() as int,
                    Kernel::RouterWeightsOneAnyK,
                    0,
                    seq![
                        Command::Buffer(0, probs.buf, 0),
                        Command::Buffer(1, out.0.buf, 0),
                        Command::Buffer(2, out.1.buf, 0),
                        Command::Bytes(3, Args::U32(6)),
                        Command::Bytes(4, Args::F32(t.engine.router_scale)),
                        Command::Bytes(5, Args::F32(F32(0x3880_0000))),
                        Command::Bytes(6, Args::U32(bias.n_elements as u32)),
                    ],
                )
                &&& out.0.buf != out.1.buf
                &&& out.0.n_elements == (k * 6) as u64
                &&& out.1.n_elements == (k * 6) as u64
                &&& probs.n_elements == k * bias.n_elements
            }
        }),
{
    broadcast use group_binds;

    grew_itself(t.log);
    reveal(Trace::encode_router_finalize_flat_k);
    let (u, r) = t.encode_router_finalize_flat_k(probs, bias, k);
    if r is Ok {
        let out = r->Ok_0;
        lemma_tail(
            u.log,
            t.log.len() as int,
            Kernel::RouterFinalizeOneAnyK,
            0,
            seq![
                Command::Bytes(0, Args::Select(selection_numbers(bias.n_elements))),
                Command::Buffer(1, probs.buf, 0),
                Command::Buffer(2, bias.buf, 0),
                Command::Buffer(3, out.0.buf, 0),
            ],
            14,
        );
        lemma_tail(
            u.log,
            t.log.len() as int,
            Kernel::RouterWeightsOneAnyK,
            0,
            seq![
                Command::Buffer(0, probs.buf, 0),
                Command::Buffer(1, out.0.buf, 0),
                Command::Buffer(2, out.1.buf, 0),
                Command::Bytes(3, Args::U32(6)),
                Command::Bytes(4, Args::F32(t.engine.router_scale)),
                Command::Bytes(5, Args::F32(F32(0x3880_0000))),
                Command::Bytes(6, Args::U32(bias.n_elements as u32)),
            ],
            2,
        );
    }
}

/// The map from experts to tokens reads the selection and writes how many tokens each
/// expert has, and which.
pub proof fn law_map_binds(t: Trace, sel: DeferredBuf, n_experts: u64, k: u64)
    requires
        room(t),
    ensures
        ({
            let (u, r) = t.encode_mul_mm_id_map0_k(sel, n_experts, k);
            let out = r->Ok_0;
            r is Ok ==> {
                &&& anew(t, out.0.buf)
                &&& anew(t, out.1.buf)
                &&& launched(
                    u.log,
                    t.log.len() as int,
                    Kernel::MmIdMap0,
                    0,
                    seq![
                        Command::Bytes(
                            0,
                            Args::Map0(
                                Map0Args {
                                    ne02: n_experts as i32,
                                    ne10: 1,
                                    ne11: 1,
                                    nb11: 0,
                                    nb12: 0,
                                    ne21: k as i32,
                                    ne20: 6,
                                    nb21: 24,
                                },
                            ),
                        ),
                        Command::Buffer(1, sel.buf, 0),
                        Command::Buffer(2, out.0.buf, 0),
                        Command::Buffer(3, out.1.buf, 0),
                    ],
                )
                &&& out.0.buf != out.1.buf
                &&& out.0.n_elements == n_experts
                &&& out.1.n_elements == (n_experts * k) as u64
            }
        }),
{
    broadcast use group_binds;

    grew_itself(t.log);
    reveal(Trace::encode_mul_mm_id_map0_k);
    let (u, r) = t.encode_mul_mm_id_map0_k(sel, n_experts, k);
    if r is Ok {
        let out = r->Ok_0;
        lemma_tail(
            u.log,
            t.log.len() as int,
            Kernel::MmIdMap0,
            0,
            seq![
                Command::Bytes(
                            0,
                            Args::Map0(
                                Map0Args {
                                    ne02: n_experts as i32,
                                    ne10: 1,
                                    ne11: 1,
                                    nb11: 0,
                                    nb12: 0,
                                    ne21: k as i32,
                                    ne20: 6,
                                    nb21: 24,
                                },
                            ),
                        ),
                Command::Buffer(1, sel.buf, 0),
                Command::Buffer(2, out.0.buf, 0),
                Command::Buffer(3, out.1.buf, 0),
            ],
            3,
        );
    }
}

/// The numbers of an expert-gather GEMM: rows of `d_in` weights in blocks of `qk` to
/// `bytes`, against `slots` vectors of each of `k` tokens.
pub open spec fn gather_numbers(
    qk: u64,
    bytes: u64,
    n_experts: u64,
    d_in: u64,
    d_out: u64,
    k: u64,
    slots: u64,
    act: u64,
) -> MulMmIdArgs {
    MulMmIdArgs {
        ne00: d_in as i32,
        ne02: n_experts as i32,
        nb01: (d_in / qk * bytes) as u64,
        nb02: (d_in / qk * bytes * d_out) as u64,
        nb03: (d_in / qk * bytes * d_out * n_experts) as u64,
        ne11: slots as i32,
        nb10: act,
        nb11: (d_in * act) as u64,
        nb12: (slots * d_in * act) as u64,
        nb13: (k * slots * d_in * act) as u64,
        ne20: 6,
        ne21: k as i32,
        ne0: d_out as i32,
        ne1: 6,
        r2: 1,
        r3: 1,
    }
}

/// The expert-gather GEMM reads the experts, the activations, the counts and the lists, and
/// writes its result.
pub proof fn law_gather_binds(
    t: Trace,
    stage: MmStage,
    w: DeferredBuf,
    x: DeferredBuf,
    tpe: DeferredBuf,
    ids: DeferredBuf,
    n_experts: u64,
    d_in: u64,
    d_out: u64,
    k: u64,
    slots: u64,
    act: u64,
)
    requires
        room(t),
    ensures
        ({
            let (u, r) = t.encode_mul_mm_id_qx_k(
                stage,
                w,
                x,
                tpe,
                ids,
                n_experts,
                d_in,
                d_out,
                k,
                slots,
                act,
            );
            let out = r->Ok_0;
            r is Ok ==> {
                &&& anew(t, out.buf)
                &&& launched(
                    u.log,
                    t.log.len() as int,
                    Kernel::MmId(stage.kernel),
                    0,
                    seq![
                        Command::Bytes(
                            0,
                            Args::MmId(
                                gather_numbers(
                                    stage.qk,
                                    stage.bytes,
                                    n_experts,
                                    d_in,
                                    d_out,
                                    k,
                                    slots,
                                    act,
                                ),
                            ),
                        ),
                        Command::Buffer(1, w.buf, 0),
                        Command::Buffer(2, x.buf, 0),
                        Command::Buffer(3, tpe.buf, 0),
                        Command::Buffer(4, ids.buf, 0),
                        Command::Buffer(5, out.buf, 0),
                    ],
                )
                &&& out.n_elements == (k * 6 * d_out) as u64
                &&& tpe.n_elements == n_experts
                &&& ids.n_elements == n_experts * k
                &&& x.n_elements == k * slots * d_in
            }
        }),
{
    broadcast use group_binds;

    grew_itself(t.log);
    reveal(Trace::encode_mul_mm_id_qx_k);
    reveal(Trace::mm_id_launch);
    reveal(Trace::pooled_scratch_f32);
    let (u, r) = t.encode_mul_mm_id_qx_k(
        stage,
        w,
        x,
        tpe,
        ids,
        n_experts,
        d_in,
        d_out,
        k,
        slots,
        act,
    );
    if r is Ok {
        let out = r->Ok_0;
        lemma_tail(
            u.log,
            t.log.len() as int,
            Kernel::MmId(stage.kernel),
            0,
            seq![
                Command::Bytes(
                    0,
                    Args::MmId(
                        gather_numbers(
                            stage.qk,
                            stage.bytes,
                            n_experts,
                            d_in,
                            d_out,
                            k,
                            slots,
                            act,
                        ),
                    ),
                ),
                Command::Buffer(1, w.buf, 0),
                Command::Buffer(2, x.buf, 0),
                Command::Buffer(3, tpe.buf, 0),
                Command::Buffer(4, ids.buf, 0),
                Command::Buffer(5, out.buf, 0),
            ],
            3,
        );
    }
}

/// The fused gather of gate and up reads both, the activations, the counts, the lists and
/// the factors, and writes its result.
pub proof fn law_gather_pair_binds(
    t: Trace,
    gate: DeferredBuf,
    up: DeferredBuf,
    x: DeferredBuf,
    tpe: DeferredBuf,
    ids: DeferredBuf,
    wt: DeferredBuf,
    n_experts: u64,
    d_embd: u64,
    d_ffn: u64,
    k: u64,
)
    requires
        room(t),
    ensures
        ({
            let (u, r) = t.encode_mul_mm_id_iq2_pair_swiglu_k(
                gate,
                up,
                x,
                tpe,
                ids,
                wt,
                n_experts,
                d_embd,
                d_ffn,
                k,
            );
            let out = r->Ok_0;
            r is Ok ==> {
                &&& anew(t, out.buf)
                &&& launched(
                    u.log,
                    t.log.len() as int,
                    Kernel::MmIdIq2PairSwiglu,
                    2,
                    seq![
                        Command::Buffer(2, gate.buf, 0),
                        Command::Buffer(3, up.buf, 0),
                        Command::Buffer(4, x.buf, 0),
                        Command::Buffer(5, tpe.buf, 0),
                        Command::Buffer(6, ids.buf, 0),
                        Command::Buffer(7, out.buf, 0),
                        Command::Buffer(8, wt.buf, 0),
                    ],
                )
                &&& out.n_elements == (k * 6 * d_ffn) as u64
            }
        }),
{
    broadcast use group_binds;

    grew_itself(t.log);
    reveal(Trace::encode_mul_mm_id_iq2_pair_swiglu_k);
    reveal(Trace::pooled_scratch_f32);
    let (u, r) = t.encode_mul_mm_id_iq2_pair_swiglu_k(
        gate,
        up,
        x,
        tpe,
        ids,
        wt,
        n_experts,
        d_embd,
        d_ffn,
        k,
    );
    if r is Ok {
        let out = r->Ok_0;
        lemma_tail(
            u.log,
            t.log.len() as int,
            Kernel::MmIdIq2PairSwiglu,
            2,
            seq![
                Command::Buffer(2, gate.buf, 0),
                Command::Buffer(3, up.buf, 0),
                Command::Buffer(4, x.buf, 0),
                Command::Buffer(5, tpe.buf, 0),
                Command::Buffer(6, ids.buf, 0),
                Command::Buffer(7, out.buf, 0),
                Command::Buffer(8, wt.buf, 0),
            ],
            3,
        );
    }
}

/// The gated activation of the experts reads gate, up and factors, and writes its result.
pub proof fn law_expert_activation_binds(
    t: Trace,
    gate: DeferredBuf,
    up: DeferredBuf,
    wt: DeferredBuf,
    d_ffn: u64,
    k: u64,
    half: bool,
)
    requires
        room(t),
    ensures
        ({
            let (u, r) = t.moe_swiglu_weight_k(gate, up, wt, d_ffn, k, half);
            let out = r->Ok_0;
            r is Ok ==> {
                &&& anew(t, out.buf)
                &&& launched(
                    u.log,
                    t.log.len() as int,
                    if half {
                        Kernel::MoeSwigluWeightF16
                    } else {
                        Kernel::MoeSwigluWeight
                    },
                    1,
                    seq![
                        Command::Buffer(1, gate.buf, 0),
                        Command::Buffer(2, up.buf, 0),
                        Command::Buffer(3, out.buf, 0),
                        Command::Buffer(4, wt.buf, 0),
                    ],
                )
                &&& out.n_elements == (k * 6 * d_ffn) as u64
            }
        }),
{
    broadcast use group_binds;

    grew_itself(t.log);
    reveal(Trace::moe_swiglu_weight_k);
    reveal(Trace::pooled_scratch_f32);
    reveal(Trace::pooled_scratch_u16);
    let (u, r) = t.moe_swiglu_weight_k(gate, up, wt, d_ffn, k, half);
    if r is Ok {
        let out = r->Ok_0;
        lemma_tail(
            u.log,
            t.log.len() as int,
            if half {
                        Kernel::MoeSwigluWeightF16
                    } else {
                        Kernel::MoeSwigluWeight
                    },
            1,
            seq![
                Command::Buffer(1, gate.buf, 0),
                Command::Buffer(2, up.buf, 0),
                Command::Buffer(3, out.buf, 0),
                Command::Buffer(4, wt.buf, 0),
            ],
            2,
        );
    }
}

/// The sum of the six slots reads them and writes its result.
pub proof fn law_slot_sum_binds(t: Trace, x: DeferredBuf, d_embd: u64, k: u64)
    requires
        room(t),
    ensures
        ({
            let (u, r) = t.sum6_k(x, d_embd, k);
            let out = r->Ok_0;
            r is Ok ==> {
                &&& anew(t, out.buf)
                &&& launched(
                    u.log,
                    t.log.len() as int,
                    Kernel::Sum6K,
                    0,
                    seq![
                        Command::Buffer(0, x.buf, 0),
                        Command::Buffer(1, out.buf, 0),
                        Command::Bytes(2, Args::U32(d_embd as u32)),
                        Command::Bytes(3, Args::U32(k as u32)),
                    ],
                )
                &&& out.n_elements == (k * d_embd) as u64
                &&& x.n_elements == k * 6 * d_embd
            }
        }),
{
    broadcast use group_binds;

    grew_itself(t.log);
    reveal(Trace::sum6_k);
    reveal(Trace::pooled_scratch_f32);
    let (u, r) = t.sum6_k(x, d_embd, k);
    if r is Ok {
        let out = r->Ok_0;
        lemma_tail(
            u.log,
            t.log.len() as int,
            Kernel::Sum6K,
            0,
            seq![
                Command::Buffer(0, x.buf, 0),
                Command::Buffer(1, out.buf, 0),
                Command::Bytes(2, Args::U32(d_embd as u32)),
                Command::Bytes(3, Args::U32(k as u32)),
            ],
            2,
        );
    }
}

/// The fused down projection reads the experts, the activations and the selection, and
/// writes its result.
pub proof fn law_fused_down_binds(
    t: Trace,
    q4: bool,
    w: DeferredBuf,
    mid: DeferredBuf,
    ids: DeferredBuf,
    d_ffn: u64,
    d_embd: u64,
    k: u64,
)
    requires
        room(t),
    ensures
        ({
            let (u, r) = t.sum6_down(q4, w, mid, ids, d_ffn, d_embd, k);
            let out = r->Ok_0;
            r is Ok ==> {
                &&& anew(t, out.buf)
                &&& launched(
                    u.log,
                    t.log.len() as int,
                    if q4 {
                        Kernel::Sum6Q4K
                    } else {
                        Kernel::Sum6Q2K
                    },
                    1,
                    seq![
                        Command::Buffer(1, w.buf, 0),
                        Command::Buffer(2, mid.buf, 0),
                        Command::Buffer(3, out.buf, 0),
                        Command::Buffer(4, ids.buf, 0),
                    ],
                )
                &&& out.n_elements == (k * d_embd) as u64
            }
        }),
{
    broadcast use group_binds;

    grew_itself(t.log);
    reveal(Trace::sum6_down);
    let (u, r) = t.sum6_down(q4, w, mid, ids, d_ffn, d_embd, k);
    if r is Ok {
        let out = r->Ok_0;
        lemma_tail(
            u.log,
            t.log.len() as int,
            if q4 {
                        Kernel::Sum6Q4K
                    } else {
                        Kernel::Sum6Q2K
                    },
            1,
            seq![
                Command::Buffer(1, w.buf, 0),
                Command::Buffer(2, mid.buf, 0),
                Command::Buffer(3, out.buf, 0),
                Command::Buffer(4, ids.buf, 0),
            ],
            3,
        );
    }
}

/// The fused gate and up of Q4_K experts read both, the activations, the selection and the
/// factors, and write their result.
pub proof fn law_fused_pair_q4_binds(
    t: Trace,
    gate: DeferredBuf,
    up: DeferredBuf,
    x: DeferredBuf,
    ids: DeferredBuf,
    wt: DeferredBuf,
    d_in: u64,
    d_ffn: u64,
    k: u64,
)
    requires
        room(t),
    ensures
        ({
            let (u, r) = t.encode_pair_swiglu_K_q4_K(gate, up, x, ids, wt, d_in, d_ffn, k);
            let out = r->Ok_0;
            let scratch = t.alloc_f32((k * 6 * d_ffn) as u64).0.alloc_f32((k * 6 * d_ffn) as u64).1;
            r is Ok ==> {
                &&& anew(t, out.buf)
                &&& launched(
                    u.log,
                    t.log.len() as int,
                    Kernel::PairSwigluKQ4K,
                    2,
                    seq![
                        Command::Buffer(2, gate.buf, 0),
                        Command::Buffer(3, up.buf, 0),
                        Command::Buffer(4, x.buf, 0),
                        Command::Buffer(5, BufId::Fresh(t.log.len() as u64), 0),
                        Command::Buffer(6, scratch.buf, 0),
                        Command::Buffer(7, out.buf, 0),
                        Command::Buffer(8, ids.buf, 0),
                        Command::Buffer(9, wt.buf, 0),
                    ],
                )
                &&& out.n_elements == (k * 6 * d_ffn) as u64
            }
        }),
{
    broadcast use group_binds;

    grew_itself(t.log);
    reveal(Trace::encode_pair_swiglu_K_q4_K);
    reveal(Trace::pair_launch);
    reveal(Trace::pooled_scratch_f32);
    let (u, r) = t.encode_pair_swiglu_K_q4_K(gate, up, x, ids, wt, d_in, d_ffn, k);
    if r is Ok {
        let out = r->Ok_0;
        let scratch = t.alloc_f32((k * 6 * d_ffn) as u64).0.alloc_f32((k * 6 * d_ffn) as u64).1;
        lemma_tail(
            u.log,
            t.log.len() as int,
            Kernel::PairSwigluKQ4K,
            2,
            seq![
                Command::Buffer(2, gate.buf, 0),
                Command::Buffer(3, up.buf, 0),
                Command::Buffer(4, x.buf, 0),
                Command::Buffer(5, BufId::Fresh(t.log.len() as u64), 0),
                Command::Buffer(6, scratch.buf, 0),
                Command::Buffer(7, out.buf, 0),
                Command::Buffer(8, ids.buf, 0),
                Command::Buffer(9, wt.buf, 0),
            ],
            3,
        );
    }
}

/// The fused gate and up of IQ2_XXS experts read both, the activations, the selection and
/// the factors, and write their result.
pub proof fn law_fused_pair_iq2_binds(
    t: Trace,
    gate: DeferredBuf,
    up: DeferredBuf,
    x: DeferredBuf,
    ids: DeferredBuf,
    wt: DeferredBuf,
    d_in: u64,
    d_ffn: u64,
    k: u64,
)
    requires
        room(t),
    ensures
        ({
            let (u, r) = t.encode_pair_swiglu_K_iq2_xxs(gate, up, x, ids, wt, d_in, d_ffn, k);
            let out = r->Ok_0;
            r is Ok ==> {
                &&& anew(t, out.buf)
                &&& launched(
                    u.log,
                    t.log.len() as int,
                    Kernel::PairSwigluKIq2,
                    2,
                    seq![
                        Command::Buffer(2, gate.buf, 0),
                        Command::Buffer(3, up.buf, 0),
                        Command::Buffer(4, x.buf, 0),
                        Command::Buffer(5, out.buf, 0),
                        Command::Buffer(6, ids.buf, 0),
                        Command::Buffer(7, wt.buf, 0),
                    ],
                )
                &&& out.n_elements == (k * 6 * d_ffn) as u64
            }
        }),
{
    broadcast use group_binds;

    grew_itself(t.log);
    reveal(Trace::encode_pair_swiglu_K_iq2_xxs);
    reveal(Trace::pair_launch);
    reveal(Trace::pooled_scratch_f32);
    let (u, r) = t.encode_pair_swiglu_K_iq2_xxs(gate, up, x, ids, wt, d_in, d_ffn, k);
    if r is Ok {
        let out = r->Ok_0;
        lemma_tail(
            u.log,
            t.log.len() as int,
            Kernel::PairSwigluKIq2,
            2,
            seq![
                Command::Buffer(2, gate.buf, 0),
                Command::Buffer(3, up.buf, 0),
                Command::Buffer(4, x.buf, 0),
                Command::Buffer(5, out.buf, 0),
                Command::Buffer(6, ids.buf, 0),
                Command::Buffer(7, wt.buf, 0),
            ],
            3,
        );
    }
}

} // verus!
