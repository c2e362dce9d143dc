//! Several positions against one: what an operation over many positions records
//! next to what the operation on a single position records.

use crate::arith::{MAX_EXTENT, extent, pow2_above};
use crate::attention::{store_threads, unrotated};
use crate::command::{
    Args, BufId, Command, DeferredBuf, Elem, F32, Groups, HcExpandArgs, HcWsArgs, MulMvArgs,
    RopeArgs,
};
use crate::config::{Config, KvMerge, LayerAttnHalfOuts, LayerAttnHalfOutsK, LayerParams};
use crate::error::EncodeError;
use crate::hc::{
    Collapsed, HcBinds, hc_binds_at, mix_hc, spec_hc_args, spec_hc_args_k, spec_split_args,
};
use crate::kernel::{Consts, Kernel, Pipe};
use crate::layer::{AttnShape, AttnWeights, Qkv};
use crate::matmul::{
    spec_group_rows, spec_mv_args, spec_nsg_by_rows, spec_nsg_by_width, spec_nxpsg, spec_or,
};
use crate::mtp::{HeadWeights, spec_ws_args};
use crate::norm::{spec_norm_args, spec_rope_args, spec_row_threads};
use crate::pool::PoolKey;
use crate::router::{Routed, min_sum, spec_select_args};
use crate::shared::spec_glu_args;
use crate::trace::Trace;
use vstd::prelude::*;

verus! {

/// The commands of the rows from `i` to `k`, row after row.
pub open spec fn each(row: spec_fn(int) -> Seq<Command>, i: int, k: int) -> Seq<Command>
    decreases k - i,
{
    if i >= k {
        seq![]
    } else {
        row(i) + each(row, i + 1, k)
    }
}

/// The steps from `i` to `k` one after another, up to the first that fails.
pub open spec fn steps(
    t: Trace,
    step: spec_fn(Trace, int) -> (Trace, Result<(), EncodeError>),
    i: int,
    k: int,
) -> (Trace, Result<(), EncodeError>)
    decreases k - i,
{
    if i >= k {
        (t, Ok(()))
    } else {
        let (u, r) = step(t, i);
        if r is Err {
            (u, r)
        } else {
            steps(u, step, i + 1, k)
        }
    }
}

impl Trace {
    /// The trace with these commands recorded after what it holds.
    pub open spec fn followed_by(self, s: Seq<Command>) -> Trace {
        Trace { log: self.log + s, ..self }
    }
}

proof fn lemma_followed(t: Trace, a: Seq<Command>, b: Seq<Command>)
    ensures
        t.followed_by(a).followed_by(b) == t.followed_by(a + b),
        t.followed_by(seq![]) == t,
{
    assert(t.log + a + b =~= t.log + (a + b));
    assert(t.log + Seq::<Command>::empty() =~= t.log);
}

// Expansions of residual streams.

/// The commands of one launch of the expansion.
pub open spec fn expansion_launch(args: HcExpandArgs, b: HcBinds, n_tg: u64) -> Seq<Command> {
    seq![
        Command::Encoder,
        Command::Pipeline(Pipe::Loaded(Kernel::HcExpand)),
        Command::Bytes(0, Args::HcExpand(args)),
        Command::Buffer(1, b.block.0, b.block.1),
        Command::Buffer(2, b.res.0, b.res.1),
        Command::Buffer(3, b.post.0, b.post.1),
        Command::Buffer(4, b.comb.0, b.comb.1),
        Command::Buffer(5, b.add.0, b.add.1),
        Command::Buffer(6, b.out.0, b.out.1),
        Command::Dispatch((n_tg, 1, 1), (256, 1, 1)),
        Command::EndEncoder,
    ]
}

/// The expansion of position `i`, every operand `i` rows from its start.
pub open spec fn expansion(
    block: BufId,
    add: BufId,
    res: BufId,
    split: BufId,
    out: BufId,
    has_add: bool,
    n_hc: u64,
    d_embd: u64,
) -> spec_fn(int) -> Seq<Command> {
    |i: int|
        expansion_launch(
            spec_hc_args(n_hc, d_embd, has_add),
            hc_binds_at(block, add, res, split, out, n_hc, d_embd, i),
            ((n_hc * d_embd + 255) / 256) as u64,
        )
}

/// What the expansion of `k` positions records.
pub open spec fn expansion_k(
    config: Config,
    block: BufId,
    add: BufId,
    res: BufId,
    split: BufId,
    out: BufId,
    has_add: bool,
    n_hc: u64,
    d_embd: u64,
    k: u64,
) -> Seq<Command> {
    if config.hc_expand_per_k {
        each(expansion(block, add, res, split, out, has_add, n_hc, d_embd), 0, k as int)
    } else {
        expansion_launch(
            spec_hc_args_k(n_hc, d_embd, has_add, k),
            hc_binds_at(block, add, res, split, out, n_hc, d_embd, 0),
            ((n_hc * d_embd * k + 255) / 256) as u64,
        )
    }
}

proof fn lemma_expansion_launch(t: Trace, args: HcExpandArgs, b: HcBinds, n_tg: u64)
    ensures
        t.hc_launch(args, b, n_tg) == t.followed_by(expansion_launch(args, b, n_tg)),
{
    assert(t.hc_launch(args, b, n_tg).log =~= t.log + expansion_launch(args, b, n_tg));
}

proof fn lemma_expansion_rows(
    t: Trace,
    block: BufId,
    add: BufId,
    res: BufId,
    split: BufId,
    out: BufId,
    has_add: bool,
    n_hc: u64,
    d_embd: u64,
    k: u64,
    i: int,
)
    ensures
        t.hc_rows(block, add, res, split, out, has_add, n_hc, d_embd, k, i) == t.followed_by(
            each(expansion(block, add, res, split, out, has_add, n_hc, d_embd), i, k as int),
        ),
    decreases k - i,
{
    let f = expansion(block, add, res, split, out, has_add, n_hc, d_embd);
    if i < k {
        let args = spec_hc_args(n_hc, d_embd, has_add);
        let b = hc_binds_at(block, add, res, split, out, n_hc, d_embd, i);
        let n_tg = ((n_hc * d_embd + 255) / 256) as u64;
        lemma_expansion_launch(t, args, b, n_tg);
        let u = t.hc_launch(args, b, n_tg);
        lemma_expansion_rows(
            u,
            block,
            add,
            res,
            split,
            out,
            has_add,
            n_hc,
            d_embd,
            k,
            i + 1,
        );
        lemma_followed(t, f(i), each(f, i + 1, k as int));
    } else {
        lemma_followed(t, seq![], seq![]);
    }
}

/// The expansion of one position with a second block is one launch; that of
/// several is the same launch position by position, each operand one row further
/// every time, or one launch over all of them.
pub proof fn law_expansion_with_block_by_position(
    t: Trace,
    shared: DeferredBuf,
    routed: DeferredBuf,
    res: DeferredBuf,
    split: DeferredBuf,
    n_hc: u64,
    d_embd: u64,
    k: u64,
)
    requires
        n_hc * d_embd <= u64::MAX,
    ensures
        ({
            let (u, out) = t.alloc_f32((n_hc * d_embd) as u64);
            let one = expansion(
                shared.buf,
                routed.buf,
                res.buf,
                split.buf,
                out.buf,
                true,
                n_hc,
                d_embd,
            );
            let r = t.hc_expand_add_split(shared, routed, res, split, n_hc, d_embd);
            r.1 is Ok ==> r == (u.followed_by(one(0)), Ok::<DeferredBuf, EncodeError>(out))
        }),
        ({
            let (u, out) = t.carrier((k * n_hc * d_embd) as u64);
            let all = expansion_k(
                u.config,
                shared.buf,
                routed.buf,
                res.buf,
                split.buf,
                out.buf,
                true,
                n_hc,
                d_embd,
                k,
            );
            let r = t.hc_expand_add_split_k(shared, routed, res, split, n_hc, d_embd, k);
            r.1 is Ok ==> r == (u.followed_by(all), Ok::<DeferredBuf, EncodeError>(out))
        }),
{
    reveal(Trace::hc_expand_add_split);
    reveal(Trace::hc_expand_add_split_k);
    let (u, out) = t.alloc_f32((n_hc * d_embd) as u64);
    let b = hc_binds_at(shared.buf, routed.buf, res.buf, split.buf, out.buf, n_hc, d_embd, 0);
    lemma_expansion_launch(
        u,
        spec_hc_args(n_hc, d_embd, true),
        b,
        ((n_hc * d_embd + 255) / 256) as u64,
    );
    lemma_expansion_k(
        t.carrier((k * n_hc * d_embd) as u64).0,
        shared.buf,
        routed.buf,
        res.buf,
        split.buf,
        t.carrier((k * n_hc * d_embd) as u64).1.buf,
        true,
        n_hc,
        d_embd,
        k,
    );
}

/// The same of the expansion without a second block, whose place the first takes.
pub proof fn law_expansion_by_position(
    t: Trace,
    attn: DeferredBuf,
    res: DeferredBuf,
    split: DeferredBuf,
    n_hc: u64,
    d_embd: u64,
    k: u64,
)
    requires
        n_hc * d_embd <= u64::MAX,
    ensures
        ({
            let (u, out) = t.alloc_f32((n_hc * d_embd) as u64);
            let one = expansion(
                attn.buf,
                attn.buf,
                res.buf,
                split.buf,
                out.buf,
                false,
                n_hc,
                d_embd,
            );
            let r = t.hc_expand_attn_split(attn, res, split, n_hc, d_embd);
            r.1 is Ok ==> r == (u.followed_by(one(0)), Ok::<DeferredBuf, EncodeError>(out))
        }),
        ({
            let (u, out) = t.pooled_scratch_f32(
                PoolKey::HcAfterAttn,
                (k * n_hc * d_embd) as u64,
            );
            let all = expansion_k(
                u.config,
                attn.buf,
                attn.buf,
                res.buf,
                split.buf,
                out.buf,
                false,
                n_hc,
                d_embd,
                k,
            );
            let r = t.hc_expand_attn_split_k(attn, res, split, n_hc, d_embd, k);
            r.1 is Ok ==> r == (u.followed_by(all), Ok::<DeferredBuf, EncodeError>(out))
        }),
{
    reveal(Trace::hc_expand_attn_split);
    reveal(Trace::hc_expand_attn_split_k);
    let (u, out) = t.alloc_f32((n_hc * d_embd) as u64);
    let b = hc_binds_at(attn.buf, attn.buf, res.buf, split.buf, out.buf, n_hc, d_embd, 0);
    lemma_expansion_launch(
        u,
        spec_hc_args(n_hc, d_embd, false),
        b,
        ((n_hc * d_embd + 255) / 256) as u64,
    );
    let (u, out) = t.pooled_scratch_f32(
        PoolKey::HcAfterAttn,
        (k * n_hc * d_embd) as u64,
    );
    lemma_expansion_k(
        u,
        attn.buf,
        attn.buf,
        res.buf,
        split.buf,
        out.buf,
        false,
        n_hc,
        d_embd,
        k,
    );
}

proof fn lemma_expansion_k(
    u: Trace,
    block: BufId,
    add: BufId,
    res: BufId,
    split: BufId,
    out: BufId,
    has_add: bool,
    n_hc: u64,
    d_embd: u64,
    k: u64,
)
    ensures
        u.hc_expand_k(block, add, res, split, out, has_add, n_hc, d_embd, k) == u.followed_by(
            expansion_k(u.config, block, add, res, split, out, has_add, n_hc, d_embd, k),
        ),
{
    lemma_expansion_rows(u, block, add, res, split, out, has_add, n_hc, d_embd, k, 0);
    lemma_expansion_launch(
        u,
        spec_hc_args_k(n_hc, d_embd, has_add, k),
        hc_binds_at(block, add, res, split, out, n_hc, d_embd, 0),
        ((n_hc * d_embd * k + 255) / 256) as u64,
    );
}

/// One launch over several positions reads and writes where the launches of the
/// single positions do: row `i` of each operand lies `i` of its strides further.
pub proof fn law_expansion_addresses(
    block: BufId,
    add: BufId,
    res: BufId,
    split: BufId,
    out: BufId,
    has_add: bool,
    n_hc: u64,
    d_embd: u64,
    k: u64,
    i: int,
)
    requires
        0 <= i < k,
        extent(k),
        extent(d_embd),
        extent(n_hc),
        mix_hc(n_hc) <= MAX_EXTENT,
        n_hc * d_embd <= MAX_EXTENT,
    ensures
        ({
            let one = hc_binds_at(block, add, res, split, out, n_hc, d_embd, i);
            let all = hc_binds_at(block, add, res, split, out, n_hc, d_embd, 0);
            let args = spec_hc_args_k(n_hc, d_embd, has_add, k);
            &&& one.block.1 == all.block.1 + i * args.nb_block1
            &&& one.res.1 == all.res.1 + i * args.nb_res2
            &&& one.post.1 == all.post.1 + i * args.nb_post1
            &&& one.comb.1 == all.comb.1 + i * args.nb_comb2
            &&& one.add.1 == all.add.1 + i * args.nb_add1
            &&& one.out.1 == all.out.1 + i * args.nb2
        }),
{
    lemma_small_product(i, d_embd * 4);
    lemma_small_product(i, n_hc * d_embd * 4);
    lemma_small_product(i, mix_hc(n_hc) * 4);
}

proof fn lemma_small_product(i: int, row: int)
    requires
        0 <= i <= MAX_EXTENT,
        0 <= row <= 4 * MAX_EXTENT,
    ensures
        0 <= i * row,
        i * row + row <= 4 * 0x8000_0000 * 0x7fff_ffff,
{
    assert(0 <= i * row && i * row + row <= 4 * 0x8000_0000 * 0x7fff_ffff) by (nonlinear_arith)
        requires
            0 <= i <= 0x7fff_ffff,
            0 <= row <= 4 * 0x7fff_ffff,
    ;
}

/// Exchanging the two blocks of an expansion exchanges the buffers of two slots
/// of its launch and changes nothing else; without the second block the launch
/// says so in its arguments and has the first block in both slots.
pub proof fn law_blocks_exchanged(
    t: Trace,
    shared: DeferredBuf,
    routed: DeferredBuf,
    res: DeferredBuf,
    post: DeferredBuf,
    comb: DeferredBuf,
    n_hc: u64,
    d_embd: u64,
)
    requires
        n_hc * d_embd <= u64::MAX,
        t.hc_expand_add(shared, routed, res, post, comb, n_hc, d_embd).1 is Ok,
    ensures
        ({
            let (u, out) = t.alloc_f32((n_hc * d_embd) as u64);
            let args = spec_hc_args(n_hc, d_embd, true);
            let n_tg = ((n_hc * d_embd + 255) / 256) as u64;
            let b = HcBinds {
                block: (shared.buf, 0),
                res: (res.buf, 0),
                post: (post.buf, 0),
                comb: (comb.buf, 0),
                add: (routed.buf, 0),
                out: (out.buf, 0),
            };
            let swapped = HcBinds { block: b.add, add: b.block, ..b };
            let alone = HcBinds { add: b.block, ..b };
            let ok = Ok::<DeferredBuf, EncodeError>(out);
            &&& t.hc_expand_add(shared, routed, res, post, comb, n_hc, d_embd) == (
                u.followed_by(expansion_launch(args, b, n_tg)),
                ok,
            )
            &&& t.hc_expand_add(routed, shared, res, post, comb, n_hc, d_embd) == (
                u.followed_by(expansion_launch(args, swapped, n_tg)),
                ok,
            )
            &&& t.hc_expand_attn(shared, res, post, comb, n_hc, d_embd) == (
                u.followed_by(
                    expansion_launch((HcExpandArgs { has_add: 0, ..args }), alone, n_tg),
                ),
                ok,
            )
        }),
{
    reveal(Trace::hc_expand_add);
    reveal(Trace::hc_expand_attn);
    let (u, out) = t.alloc_f32((n_hc * d_embd) as u64);
    let args = spec_hc_args(n_hc, d_embd, true);
    let n_tg = ((n_hc * d_embd + 255) / 256) as u64;
    let b = HcBinds {
        block: (shared.buf, 0),
        res: (res.buf, 0),
        post: (post.buf, 0),
        comb: (comb.buf, 0),
        add: (routed.buf, 0),
        out: (out.buf, 0),
    };
    lemma_expansion_launch(u, args, b, n_tg);
    lemma_expansion_launch(u, args, HcBinds { block: b.add, add: b.block, ..b }, n_tg);
    lemma_expansion_launch(
        u,
        HcExpandArgs { has_add: 0, ..args },
        HcBinds { add: b.block, ..b },
        n_tg,
    );
    assert(spec_hc_args(n_hc, d_embd, false) == HcExpandArgs { has_add: 0, ..args });
}

// Products.

/// The commands of a launch that binds three buffers.
pub open spec fn product_launch(
    pipe: Pipe,
    args: Args,
    w: BufId,
    x: (BufId, u64),
    out: (BufId, u64),
    memory: u64,
    groups: (u64, u64, u64),
    threads: (u64, u64, u64),
) -> Seq<Command> {
    seq![
        Command::Encoder,
        Command::Pipeline(pipe),
        Command::Bytes(0, args),
        Command::Buffer(1, w, 0),
        Command::Buffer(2, x.0, x.1),
        Command::Buffer(3, out.0, out.1),
        Command::GroupMemory(memory),
        Command::Dispatch(groups, threads),
        Command::EndEncoder,
    ]
}

proof fn lemma_product_launch(
    t: Trace,
    pipe: Pipe,
    args: Args,
    w: BufId,
    x: (BufId, u64),
    out: (BufId, u64),
    memory: u64,
    groups: (u64, u64, u64),
    threads: (u64, u64, u64),
)
    ensures
        t.launch3(pipe, args, w, x, out, memory, groups, threads) == t.followed_by(
            product_launch(pipe, args, w, x, out, memory, groups, threads),
        ),
{
    assert(t.launch3(pipe, args, w, x, out, memory, groups, threads).log =~= t.log
        + product_launch(pipe, args, w, x, out, memory, groups, threads));
}

/// The product of position `i` with a matrix of elements of `wb` bytes.
pub open spec fn product(
    kernel: Kernel,
    wb: u64,
    w: BufId,
    x: BufId,
    out: BufId,
    d_in: u64,
    d_out: u64,
) -> spec_fn(int) -> Seq<Command> {
    let nsg = spec_nsg_by_width(d_in);
    |i: int|
        product_launch(
            Pipe::Special(kernel, Consts::Rows { nsg, nxpsg: spec_nxpsg(d_in) }),
            Args::MulMv(Trace::row_args(d_out, d_in, wb)),
            w,
            (x, (i * (d_in * 4)) as u64),
            (out, (i * (d_out * 4)) as u64),
            256,
            (((d_out + 1) / 2) as u64, 1, 1),
            (32, nsg as u64, 1),
        )
}

/// The products of several positions with one matrix are the product of one
/// position, input and output one row further every time. The router and the
/// verifier's output head record them so.
pub proof fn law_product_by_position(
    t: Trace,
    kernel: Kernel,
    wb: u64,
    w: DeferredBuf,
    x: DeferredBuf,
    out: BufId,
    d_in: u64,
    d_out: u64,
    k: u64,
)
    ensures
        ({
            let (u, one) = t.alloc_f32(d_out);
            let r = t.matvec_float(kernel, wb, w, x, d_in, d_out);
            r.1 is Ok ==> r == (
                u.followed_by(product(kernel, wb, w.buf, x.buf, one.buf, d_in, d_out)(0)),
                Ok::<DeferredBuf, EncodeError>(one),
            )
        }),
        t.mv_rows(
            Pipe::Special(
                kernel,
                Consts::Rows { nsg: spec_nsg_by_width(d_in), nxpsg: spec_nxpsg(d_in) },
            ),
            spec_nsg_by_width(d_in),
            w.buf,
            x.buf,
            out,
            d_out,
            d_in,
            wb,
            k,
            0,
        ) == t.followed_by(
            each(product(kernel, wb, w.buf, x.buf, out, d_in, d_out), 0, k as int),
        ),
{
    let (u, one) = t.alloc_f32(d_out);
    let nsg = spec_nsg_by_width(d_in);
    let pipe = Pipe::Special(kernel, Consts::Rows { nsg, nxpsg: spec_nxpsg(d_in) });
    lemma_product_launch(
        u,
        pipe,
        Args::MulMv(Trace::row_args(d_out, d_in, wb)),
        w.buf,
        (x.buf, 0),
        (one.buf, 0),
        256,
        (((d_out + 1) / 2) as u64, 1, 1),
        (32, nsg as u64, 1),
    );
    lemma_product_rows(t, kernel, wb, w.buf, x.buf, out, d_in, d_out, k, 0);
}

proof fn lemma_product_rows(
    t: Trace,
    kernel: Kernel,
    wb: u64,
    w: BufId,
    x: BufId,
    out: BufId,
    d_in: u64,
    d_out: u64,
    k: u64,
    i: int,
)
    ensures
        t.mv_rows(
            Pipe::Special(
                kernel,
                Consts::Rows { nsg: spec_nsg_by_width(d_in), nxpsg: spec_nxpsg(d_in) },
            ),
            spec_nsg_by_width(d_in),
            w,
            x,
            out,
            d_out,
            d_in,
            wb,
            k,
            i,
        ) == t.followed_by(each(product(kernel, wb, w, x, out, d_in, d_out), i, k as int)),
    decreases k - i,
{
    let f = product(kernel, wb, w, x, out, d_in, d_out);
    if i < k {
        let nsg = spec_nsg_by_width(d_in);
        lemma_product_launch(
            t,
            Pipe::Special(kernel, Consts::Rows { nsg, nxpsg: spec_nxpsg(d_in) }),
            Args::MulMv(Trace::row_args(d_out, d_in, wb)),
            w,
            (x, (i * (d_in * 4)) as u64),
            (out, (i * (d_out * 4)) as u64),
            256,
            (((d_out + 1) / 2) as u64, 1, 1),
            (32, nsg as u64, 1),
        );
        lemma_product_rows(
            t.followed_by(f(i)),
            kernel,
            wb,
            w,
            x,
            out,
            d_in,
            d_out,
            k,
            i + 1,
        );
        lemma_followed(t, f(i), each(f, i + 1, k as int));
    } else {
        lemma_followed(t, seq![], seq![]);
    }
}

/// The router product of all positions in one launch reads its inputs, and writes
/// its outputs, where the products of the single positions do: position `i` lies
/// `i` planes further, and a plane of the output is one row of `ne0` elements.
pub proof fn law_router_addresses(
    kernel: Kernel,
    w: BufId,
    x: BufId,
    out: BufId,
    n_experts: u64,
    d_embd: u64,
    wb: u64,
    k: u64,
    i: int,
)
    requires
        0 <= i < k,
        extent(k),
        extent(d_embd),
        extent(n_experts),
    ensures
        ({
            let args = Trace::row_args_k(n_experts, d_embd, wb, k);
            let one = product(kernel, wb, w, x, out, d_embd, n_experts)(i);
            &&& args.ne12 == k
            &&& one[4] == Command::Buffer(2, x, (i * args.nb12) as u64)
            &&& one[5] == Command::Buffer(3, out, (i * (args.ne0 * args.ne1 * 4)) as u64)
            &&& i * args.nb12 <= u64::MAX
            &&& i * (args.ne0 * args.ne1 * 4) <= u64::MAX
        }),
{
    lemma_small_product(i, d_embd * 4);
    lemma_small_product(i, n_experts * 4);
    let args = Trace::row_args_k(n_experts, d_embd, wb, k);
    assert(args.ne0 * args.ne1 * 4 == n_experts * 4) by (nonlinear_arith)
        requires
            args.ne0 == n_experts,
            args.ne1 == 1,
    ;
}

/// Products with half-precision and with single-precision weights differ in the
/// kernel and in the width of the weights, and in nothing else.
pub proof fn law_weight_width(
    t: Trace,
    w: DeferredBuf,
    x: DeferredBuf,
    d_in: u64,
    d_out: u64,
    k: u64,
)
    ensures
        t.matvec_f16(w, x, d_in, d_out).1 == t.matvec_f32(w, x, d_in, d_out).1,
        t.matmul_f16_k(w, x, d_in, d_out, k).1 == t.matmul_f32_k(w, x, d_in, d_out, k).1,
        widened(t.matvec_f16(w, x, d_in, d_out).0, t.log.len() as int, d_in, d_out)
            =~= t.matvec_f32(w, x, d_in, d_out).0,
        widened(t.matmul_f16_k(w, x, d_in, d_out, k).0, t.log.len() as int, d_in, d_out)
            =~= t.matmul_f32_k(w, x, d_in, d_out, k).0,
{
    reveal(Trace::matvec_f16);
    reveal(Trace::matvec_f32);
    reveal(Trace::matmul_f16_k);
    reveal(Trace::matmul_f32_k);
}

/// The commands from place `from` on with single-precision weights in place of
/// half-precision ones.
pub open spec fn widened(t: Trace, from: int, d_in: u64, d_out: u64) -> Trace {
    Trace {
        log: Seq::new(
            t.log.len(),
            |j: int|
                if j < from {
                    t.log[j]
                } else {
                    match t.log[j] {
                        Command::Pipeline(Pipe::Special(Kernel::MulMvF16, c)) => Command::Pipeline(
                            Pipe::Special(Kernel::MulMvF32, c),
                        ),
                        Command::Bytes(slot, Args::MulMv(a)) => Command::Bytes(
                            slot,
                            Args::MulMv(
                                MulMvArgs {
                                    nb00: 4,
                                    nb01: (d_in * 4) as u64,
                                    nb02: (d_in * d_out * 4) as u64,
                                    nb03: (d_in * d_out * 4) as u64,
                                    ..a
                                },
                            ),
                        ),
                        c => c,
                    }
                },
        ),
        ..t
    }
}

/// The Q8_0 product of several positions, encoded row by row: position `i` is cut
/// out, multiplied as a single position, and put into its row.
pub open spec fn product_step(
    w: DeferredBuf,
    x: DeferredBuf,
    d_in: u64,
    d_out: u64,
    out: DeferredBuf,
) -> spec_fn(Trace, int) -> (Trace, Result<(), EncodeError>) {
    |t: Trace, i: int|
        {
            let (t, row) = t.slice_out_f32(x, (i * d_in) as u64, d_in);
            let (t, r) = t.matvec_q8_0(w, row, d_in, d_out);
            if r is Err {
                t.failed(r)
            } else {
                (t.copy_buf_into(r->Ok_0, out.buf, (i * d_out) as u64), Ok(()))
            }
        }
}

/// Row by row, the Q8_0 product of several positions is the product of the single
/// positions.
pub proof fn law_q8_product_by_position(
    t: Trace,
    w: DeferredBuf,
    x: DeferredBuf,
    d_in: u64,
    d_out: u64,
    k: u64,
)
    requires
        t.config.q8_faithful,
    ensures
        ({
            let (u, out) = t.alloc_f32((k * d_out) as u64);
            let all = steps(u, product_step(w, x, d_in, d_out, out), 0, k as int);
            let gemm = t.matmul_k_q8_0(w, x, d_in, d_out, k);
            let mv = t.matvec_k_q8_0(w, x, d_in, d_out, k);
            &&& gemm.1 is Ok ==> all.1 is Ok && gemm == (
                all.0,
                Ok::<DeferredBuf, EncodeError>(out),
            )
            &&& mv.1 is Ok ==> all.1 is Ok && mv == (all.0, Ok::<DeferredBuf, EncodeError>(out))
        }),
{
    reveal(Trace::matmul_k_q8_0);
    reveal(Trace::matvec_k_q8_0);
    let (u, out) = t.alloc_f32((k * d_out) as u64);
    lemma_q8_rows(u, w, x, d_in, d_out, k, out, 0);
}

/// The group of `g` rows from row `r` on of a product in groups: `g` rows are cut out
/// from byte `r * d_in * 4` on, multiplied together, and put in from byte
/// `r * d_out * 4` on.
pub open spec fn group_step(
    t: Trace,
    w: DeferredBuf,
    x: DeferredBuf,
    d_in: u64,
    d_out: u64,
    out: DeferredBuf,
    r: int,
    g: u64,
) -> (Trace, Result<(), EncodeError>) {
    let n = (g * d_in) as u64;
    let (t, rows) = t.make(Command::NewBuffer { elem: Elem::F32, n }, n);
    let (t, y) = t.blit(
        x.buf,
        (r * d_in * 4) as u64,
        rows.buf,
        0,
        (g * d_in * 4) as u64,
    ).matvec_k_q8_0(w, rows, d_in, d_out, g);
    if y is Err {
        t.failed(y)
    } else {
        (
            t.blit(
                y->Ok_0.buf,
                0,
                out.buf,
                (r * d_out * 4) as u64,
                (y->Ok_0.n_elements * 4) as u64,
            ),
            Ok(()),
        )
    }
}

/// The groups from row `r` on: four rows while four are left, then two, then one.
pub open spec fn groups_from(
    t: Trace,
    w: DeferredBuf,
    x: DeferredBuf,
    d_in: u64,
    d_out: u64,
    out: DeferredBuf,
    r: int,
    k: int,
) -> (Trace, Result<(), EncodeError>)
    decreases k - r,
{
    if r >= k {
        (t, Ok(()))
    } else {
        let g = spec_group_rows(k - r);
        let (u, res) = group_step(t, w, x, d_in, d_out, out, r, g);
        if res is Err {
            (u, res)
        } else {
            groups_from(u, w, x, d_in, d_out, out, r + g, k)
        }
    }
}

/// The product of more than four positions in groups takes every row once, in
/// order, and puts it into its own place.
pub proof fn law_product_by_groups(
    t: Trace,
    w: DeferredBuf,
    x: DeferredBuf,
    d_in: u64,
    d_out: u64,
    k: u64,
)
    requires
        t.config.matmul_k_pertok,
        k > 4,
        k * d_in * 4 <= u64::MAX,
        k * d_out * 4 <= u64::MAX,
    ensures
        ({
            let (u, out) = t.disarm().alloc_f32((k * d_out) as u64);
            let all = groups_from(u, w, x, d_in, d_out, out, 0, k as int);
            let r = t.matmul_k_q8_0_auto(w, x, d_in, d_out, k);
            r.1 is Ok ==> all.1 is Ok && r == (all.0, Ok::<DeferredBuf, EncodeError>(out))
        }),
{
    reveal(Trace::matmul_k_q8_0_auto);
    let (u, out) = t.disarm().alloc_f32((k * d_out) as u64);
    lemma_groups(u, w, x, d_in, d_out, k, out, 0);
}

proof fn lemma_groups(
    t: Trace,
    w: DeferredBuf,
    x: DeferredBuf,
    d_in: u64,
    d_out: u64,
    k: u64,
    out: DeferredBuf,
    r: int,
)
    requires
        0 <= r,
        k * d_in * 4 <= u64::MAX,
        k * d_out * 4 <= u64::MAX,
    ensures
        t.grouped_rows(w, x, d_in, d_out, k, out, r) == groups_from(
            t,
            w,
            x,
            d_in,
            d_out,
            out,
            r,
            k as int,
        ),
    decreases k - r,
{
    if r < k {
        let g = spec_group_rows(k - r);
        assert(0 <= r * d_in && r * d_in * 4 <= k * d_in * 4 && 0 <= g * d_in && g * d_in * 4 <= k
            * d_in * 4 && 0 <= r * d_out && r * d_out * 4 <= k * d_out * 4) by (nonlinear_arith)
            requires
                0 <= r < k,
                0 < g <= k,
                0 <= d_in,
                0 <= d_out,
        ;
        let (u, res) = group_step(t, w, x, d_in, d_out, out, r, g);
        if res is Ok {
            lemma_groups(u, w, x, d_in, d_out, k, out, r + g);
        }
    }
}

proof fn lemma_q8_rows(
    t: Trace,
    w: DeferredBuf,
    x: DeferredBuf,
    d_in: u64,
    d_out: u64,
    k: u64,
    out: DeferredBuf,
    i: int,
)
    ensures
        t.q8_rows(w, x, d_in, d_out, k, out, i) == steps(
            t,
            product_step(w, x, d_in, d_out, out),
            i,
            k as int,
        ),
    decreases k - i,
{
    if i < k {
        let u = product_step(w, x, d_in, d_out, out)(t, i).0;
        lemma_q8_rows(u, w, x, d_in, d_out, k, out, i + 1);
    }
}

// Attention output.

/// The low-rank attention output of position `i`.
pub open spec fn low_output(
    config: Config,
    w: BufId,
    heads: BufId,
    low: BufId,
    n_groups: u64,
    n_lora_o: u64,
    group_dim: u64,
    out_low_dim: u64,
) -> spec_fn(int) -> Seq<Command> {
    |i: int|
        low_output_launch(
            config,
            Kernel::AttnOutLowQ8,
            w,
            (heads, (i * (n_groups * group_dim * 4)) as u64),
            (low, (i * (out_low_dim * 4)) as u64),
            n_groups,
            n_lora_o,
            group_dim,
            out_low_dim,
            n_groups,
        )
}

/// The commands of one launch of the low-rank attention output.
pub open spec fn low_output_launch(
    config: Config,
    kernel: Kernel,
    w: BufId,
    heads: (BufId, u64),
    low: (BufId, u64),
    n_groups: u64,
    n_lora_o: u64,
    group_dim: u64,
    out_low_dim: u64,
    planes: u64,
) -> Seq<Command> {
    let nsg = spec_or(config.attn_out_nsg, spec_nsg_by_rows(n_lora_o));
    product_launch(
        Pipe::Special(kernel, Consts::Rows { nsg, nxpsg: spec_nxpsg(group_dim) }),
        Args::MulMvId(Trace::attn_low_args(n_groups, n_lora_o, group_dim, out_low_dim)),
        w,
        heads,
        low,
        256,
        (((n_lora_o + 1) / 2) as u64, 1, planes),
        (32, nsg as u64, 1),
    )
}

/// What the low-rank attention output of `k` positions records where it is not
/// one GEMM: the launch of one position for each of them, rows further, or one
/// launch that differs in the kernel and in the number of planes.
pub open spec fn low_output_k(
    t: Trace,
    w: BufId,
    heads: BufId,
    low: BufId,
    n_groups: u64,
    n_lora_o: u64,
    group_dim: u64,
    out_low_dim: u64,
    k: u64,
) -> Seq<Command> {
    if t.config.attn_out_merge && t.engine.attn_out_low_k {
        low_output_launch(
            t.config,
            Kernel::AttnOutLowQ8K,
            w,
            (heads, 0),
            (low, 0),
            n_groups,
            n_lora_o,
            group_dim,
            out_low_dim,
            (k * n_groups) as u64,
        )
    } else {
        each(
            low_output(
                t.config,
                w,
                heads,
                low,
                n_groups,
                n_lora_o,
                group_dim,
                out_low_dim,
            ),
            0,
            k as int,
        )
    }
}

/// The attention output of several positions is that of one, position by
/// position, and then one product over all of them.
pub proof fn law_attention_output_by_position(
    t: Trace,
    heads: DeferredBuf,
    w_o_a: DeferredBuf,
    w_o_b: DeferredBuf,
    n_groups: u64,
    n_lora_o: u64,
    group_dim: u64,
    out_low_dim: u64,
    d_embd: u64,
    k: u64,
)
    requires
        !(t.config.attn_out_gemm && k > 8),
    ensures
        ({
            let (u, low) = t.alloc_f32(out_low_dim);
            let one = low_output(
                t.config,
                w_o_a.buf,
                heads.buf,
                low.buf,
                n_groups,
                n_lora_o,
                group_dim,
                out_low_dim,
            );
            let (v, out) = u.followed_by(one(0)).matvec_attn_proj(w_o_b, low, out_low_dim, d_embd);
            let r = t.encode_attn_output_matmuls_q8(
                heads,
                w_o_a,
                w_o_b,
                n_groups,
                n_lora_o,
                group_dim,
                out_low_dim,
                d_embd,
            );
            r.1 is Ok ==> out is Ok && r == (
                v,
                Ok::<(DeferredBuf, DeferredBuf), EncodeError>((low, out->Ok_0)),
            )
        }),
        ({
            let (u, low) = t.alloc_f32((k * out_low_dim) as u64);
            let all = low_output_k(
                t,
                w_o_a.buf,
                heads.buf,
                low.buf,
                n_groups,
                n_lora_o,
                group_dim,
                out_low_dim,
                k,
            );
            let (v, out) = u.followed_by(all).matmul_k_attn_proj(
                w_o_b,
                low,
                out_low_dim,
                d_embd,
                k,
            );
            let r = t.encode_attn_output_matmuls_q8_k(
                heads,
                w_o_a,
                w_o_b,
                n_groups,
                n_lora_o,
                group_dim,
                out_low_dim,
                d_embd,
                k,
            );
            r.1 is Ok ==> out is Ok && r == (
                v,
                Ok::<(DeferredBuf, DeferredBuf), EncodeError>((low, out->Ok_0)),
            )
        }),
{
    reveal(Trace::encode_attn_output_matmuls_q8);
    reveal(Trace::encode_attn_output_matmuls_q8_k);
    let (u, low) = t.alloc_f32(out_low_dim);
    lemma_low_launch(
        u,
        Kernel::AttnOutLowQ8,
        w_o_a.buf,
        (heads.buf, 0),
        (low.buf, 0),
        n_groups,
        n_lora_o,
        group_dim,
        out_low_dim,
        n_groups,
    );
    let (u, low) = t.alloc_f32((k * out_low_dim) as u64);
    lemma_low_launch(
        u,
        Kernel::AttnOutLowQ8K,
        w_o_a.buf,
        (heads.buf, 0),
        (low.buf, 0),
        n_groups,
        n_lora_o,
        group_dim,
        out_low_dim,
        (k * n_groups) as u64,
    );
    lemma_low_rows(
        u,
        w_o_a.buf,
        heads.buf,
        low.buf,
        n_groups,
        n_lora_o,
        group_dim,
        out_low_dim,
        k,
        0,
    );
}

proof fn lemma_low_launch(
    t: Trace,
    kernel: Kernel,
    w: BufId,
    heads: (BufId, u64),
    low: (BufId, u64),
    n_groups: u64,
    n_lora_o: u64,
    group_dim: u64,
    out_low_dim: u64,
    planes: u64,
)
    ensures
        t.attn_low_launch(
            kernel,
            w,
            heads,
            low,
            n_groups,
            n_lora_o,
            group_dim,
            out_low_dim,
            planes,
        ) == t.followed_by(
            low_output_launch(
                t.config,
                kernel,
                w,
                heads,
                low,
                n_groups,
                n_lora_o,
                group_dim,
                out_low_dim,
                planes,
            ),
        ),
{
    let nsg = spec_or(t.config.attn_out_nsg, spec_nsg_by_rows(n_lora_o));
    lemma_product_launch(
        t,
        Pipe::Special(kernel, Consts::Rows { nsg, nxpsg: spec_nxpsg(group_dim) }),
        Args::MulMvId(Trace::attn_low_args(n_groups, n_lora_o, group_dim, out_low_dim)),
        w,
        heads,
        low,
        256,
        (((n_lora_o + 1) / 2) as u64, 1, planes),
        (32, nsg as u64, 1),
    );
}

proof fn lemma_low_rows(
    t: Trace,
    w: BufId,
    heads: BufId,
    low: BufId,
    n_groups: u64,
    n_lora_o: u64,
    group_dim: u64,
    out_low_dim: u64,
    k: u64,
    i: int,
)
    ensures
        t.attn_low_rows(
            w,
            heads,
            low,
            n_groups,
            n_lora_o,
            group_dim,
            out_low_dim,
            k,
            i,
        ) == t.followed_by(
            each(
                low_output(
                    t.config,
                    w,
                    heads,
                    low,
                    n_groups,
                    n_lora_o,
                    group_dim,
                    out_low_dim,
                ),
                i,
                k as int,
            ),
        ),
    decreases k - i,
{
    let f = low_output(
        t.config,
        w,
        heads,
        low,
        n_groups,
        n_lora_o,
        group_dim,
        out_low_dim,
    );
    if i < k {
        lemma_low_launch(
            t,
            Kernel::AttnOutLowQ8,
            w,
            (heads, (i * (n_groups * group_dim * 4)) as u64),
            (low, (i * (out_low_dim * 4)) as u64),
            n_groups,
            n_lora_o,
            group_dim,
            out_low_dim,
            n_groups,
        );
        lemma_low_rows(
            t.followed_by(f(i)),
            w,
            heads,
            low,
            n_groups,
            n_lora_o,
            group_dim,
            out_low_dim,
            k,
            i + 1,
        );
        lemma_followed(t, f(i), each(f, i + 1, k as int));
    } else {
        lemma_followed(t, seq![], seq![]);
    }
}

// Stores.

/// What the store of one row binds and launches: the row from byte `off` on, into
/// `slot` of the cache.
pub open spec fn store(
    cache: BufId,
    rows: BufId,
    off: u64,
    params: LayerParams,
    slot: u32,
) -> Seq<Command> {
    seq![
        Command::Buffer(0, cache, 0),
        Command::Buffer(1, rows, off),
        Command::Bytes(2, Args::U32(unrotated(params))),
        Command::Bytes(3, Args::U32(params.n_rot)),
        Command::Bytes(4, Args::U32(slot)),
        Command::Dispatch((1, 1, 1), (store_threads(params), 1, 1)),
    ]
}

/// The store of row `i` into the slot `i` behind the first, in an encoder of its
/// own or in the one that is open.
pub open spec fn store_row(
    cache: BufId,
    rows: BufId,
    params: LayerParams,
    base_slot: u32,
    own_encoder: bool,
) -> spec_fn(int) -> Seq<Command> {
    |i: int|
        {
            let s = store(
                cache,
                rows,
                (i * (params.n_lora_kv * 4)) as u64,
                params,
                (base_slot + i) as u32,
            );
            if own_encoder {
                store_opening() + s + seq![Command::EndEncoder]
            } else {
                s
            }
        }
}

/// What opens an encoder for stores.
pub open spec fn store_opening() -> Seq<Command> {
    seq![Command::Encoder, Command::Pipeline(Pipe::Loaded(Kernel::KvFp8Store))]
}

/// The store of several rows is the store of one row for each of them: row `i`
/// of the input, into slot `base_slot + i`. Where the kernel for several rows is
/// asked for and loaded, one launch of it stands for them.
pub proof fn law_store_by_position(
    t: Trace,
    layer: u32,
    rows: DeferredBuf,
    params: LayerParams,
    raw_cap: u32,
    slot: u32,
    k: u64,
)
    ensures
        ({
            let (u, cache) = t.kv_cache(layer, raw_cap, params.n_lora_kv);
            let r = t.kv_fp8_store_persistent(layer, rows, params, raw_cap, slot);
            r.1 is Ok ==> r == (
                u.followed_by(store_row(cache.buf, rows.buf, params, slot, true)(0)),
                Ok::<DeferredBuf, EncodeError>(cache),
            )
        }),
        ({
            let (u, cache) = t.kv_cache(layer, raw_cap, params.n_lora_kv);
            let shared = t.config.kv_merge == KvMerge::Encoder;
            let all = each(
                store_row(cache.buf, rows.buf, params, slot, !shared),
                0,
                k as int,
            );
            let r = t.kv_fp8_store_persistent_k(layer, rows, params, raw_cap, slot, k);
            r.1 is Ok && !(t.config.kv_merge == KvMerge::Kernel && t.has(Kernel::KvFp8StoreK))
                ==> r == (
                u.followed_by(
                    if shared {
                        store_opening() + all + seq![Command::EndEncoder]
                    } else {
                        all
                    },
                ),
                Ok::<DeferredBuf, EncodeError>(cache),
            )
        }),
{
    reveal(Trace::kv_fp8_store_persistent);
    reveal(Trace::kv_fp8_store_persistent_k);
    let (u, cache) = t.kv_cache(layer, raw_cap, params.n_lora_kv);
    let r = t.kv_fp8_store_persistent(layer, rows, params, raw_cap, slot);
    if r.1 is Ok {
        assert(r.0.log =~= u.log + store_row(cache.buf, rows.buf, params, slot, true)(0));
    }
    lemma_store_rows(u, cache.buf, rows.buf, params, slot, true, k, 0);
    let opened = u.put(Command::Encoder).put(
        Command::Pipeline(Pipe::Loaded(Kernel::KvFp8Store)),
    );
    lemma_store_rows(opened, cache.buf, rows.buf, params, slot, false, k, 0);
    let all = each(store_row(cache.buf, rows.buf, params, slot, false), 0, k as int);
    assert(opened.followed_by(all).put(Command::EndEncoder).log =~= u.log + (store_opening() + all
        + seq![Command::EndEncoder]));
}

proof fn lemma_store_rows(
    t: Trace,
    cache: BufId,
    rows: BufId,
    params: LayerParams,
    base_slot: u32,
    own_encoder: bool,
    k: u64,
    i: int,
)
    ensures
        t.store_rows(cache, rows, params, base_slot, own_encoder, k, i) == t.followed_by(
            each(store_row(cache, rows, params, base_slot, own_encoder), i, k as int),
        ),
    decreases k - i,
{
    let f = store_row(cache, rows, params, base_slot, own_encoder);
    if i < k {
        let off = (i * (params.n_lora_kv * 4)) as u64;
        let slot = (base_slot + i) as u32;
        let a = if own_encoder {
            t.put(Command::Encoder).put(Command::Pipeline(Pipe::Loaded(Kernel::KvFp8Store)))
        } else {
            t
        };
        let b = a.store_bind(cache, rows, off, params, slot, 1);
        let c = if own_encoder {
            b.put(Command::EndEncoder)
        } else {
            b
        };
        assert(c.log =~= t.log + f(i));
        lemma_store_rows(c, cache, rows, params, base_slot, own_encoder, k, i + 1);
        lemma_followed(t, f(i), each(f, i + 1, k as int));
    } else {
        lemma_followed(t, seq![], seq![]);
    }
}

// Activations and factors.

/// The gated activation of row `i`, or of `groups` rows from there on.
pub open spec fn activation(
    gate: BufId,
    up: BufId,
    mid: BufId,
    groups: u64,
    width: u64,
) -> spec_fn(int) -> Seq<Command> {
    |i: int|
        {
            let off = (i * width * 4) as u64;
            seq![
                Command::Encoder,
                Command::Pipeline(Pipe::Loaded(Kernel::Swiglu)),
                Command::Bytes(0, Args::Glu(spec_glu_args(width))),
                Command::Buffer(1, gate, off),
                Command::Buffer(2, up, off),
                Command::Buffer(3, mid, off),
                Command::DispatchUpTo {
                    groups: Groups::Count(groups),
                    want: width,
                    at_least_one: true,
                },
                Command::EndEncoder,
            ]
        }
}

/// The gated activation of several rows is that of one row for each of them; in
/// one launch it is the launch of the first row over `k` groups, whose strides
/// are the bytes between the rows.
pub proof fn law_activation_by_position(
    t: Trace,
    gate: BufId,
    up: BufId,
    mid: BufId,
    width: u64,
    k: u64,
    i: int,
)
    requires
        0 <= i < k,
        extent(width),
    ensures
        t.glu_rows(gate, up, mid, width, k, 0) == t.followed_by(
            each(activation(gate, up, mid, 1, width), 0, k as int),
        ),
        t.glu_launch(gate, up, mid, 0, k, width) == t.followed_by(
            activation(gate, up, mid, k, width)(0),
        ),
        i * width * 4 == i * spec_glu_args(width).nb01,
        i * width * 4 == i * spec_glu_args(width).nb11,
        i * width * 4 == i * spec_glu_args(width).nb1,
{
    lemma_activation_rows(t, gate, up, mid, width, k, 0);
    assert(t.glu_launch(gate, up, mid, 0, k, width).log =~= t.log + activation(
        gate,
        up,
        mid,
        k,
        width,
    )(0));
    assert(i * width * 4 == i * (width * 4)) by (nonlinear_arith);
}

proof fn lemma_activation_rows(
    t: Trace,
    gate: BufId,
    up: BufId,
    mid: BufId,
    width: u64,
    k: u64,
    i: int,
)
    ensures
        t.glu_rows(gate, up, mid, width, k, i) == t.followed_by(
            each(activation(gate, up, mid, 1, width), i, k as int),
        ),
    decreases k - i,
{
    let f = activation(gate, up, mid, 1, width);
    if i < k {
        let u = t.glu_launch(gate, up, mid, (i * width * 4) as u64, 1, width);
        assert(u.log =~= t.log + f(i));
        lemma_activation_rows(u, gate, up, mid, width, k, i + 1);
        lemma_followed(t, f(i), each(f, i + 1, k as int));
    } else {
        lemma_followed(t, seq![], seq![]);
    }
}

/// The factors of the residual streams of position `i` in an output head.
pub open spec fn factors(
    pre: BufId,
    scale: BufId,
    base: BufId,
    out: BufId,
    n_hc: u64,
    hc_eps: F32,
) -> spec_fn(int) -> Seq<Command> {
    |i: int|
        {
            let off = (i * (n_hc * 4)) as u64;
            seq![
                Command::Encoder,
                Command::Pipeline(Pipe::Special(Kernel::MtpOutputHcWeights, Consts::Plain)),
                Command::Buffer(0, pre, off),
                Command::Buffer(1, scale, 0),
                Command::Buffer(2, base, 0),
                Command::Buffer(3, out, off),
                Command::Bytes(4, Args::U32(n_hc as u32)),
                Command::Bytes(5, Args::F32(hc_eps)),
                Command::DispatchUpTo { groups: Groups::Count(1), want: n_hc, at_least_one: true },
                Command::EndEncoder,
            ]
        }
}

/// The verifier's output head weighs the streams of each position as the head of
/// one position does: from the rows of that position, into its row.
pub proof fn law_factors_by_position(
    t: Trace,
    pre: BufId,
    scale: BufId,
    base: BufId,
    out: BufId,
    n_hc: u64,
    hc_eps: F32,
    k: u64,
    i: int,
)
    requires
        0 <= i,
    ensures
        t.head_weights_launch(pre, scale, base, out, 0, n_hc, hc_eps) == t.followed_by(
            factors(pre, scale, base, out, n_hc, hc_eps)(0),
        ),
        t.head_weights_rows(pre, scale, base, out, n_hc, hc_eps, k, i) == t.followed_by(
            each(factors(pre, scale, base, out, n_hc, hc_eps), i, k as int),
        ),
    decreases k - i,
{
    let f = factors(pre, scale, base, out, n_hc, hc_eps);
    assert(t.head_weights_launch(pre, scale, base, out, 0, n_hc, hc_eps).log =~= t.log + f(0));
    if i < k {
        let u = t.head_weights_launch(
            pre,
            scale,
            base,
            out,
            (i * (n_hc * 4)) as u64,
            n_hc,
            hc_eps,
        );
        assert(u.log =~= t.log + f(i));
        law_factors_by_position(u, pre, scale, base, out, n_hc, hc_eps, k, i + 1);
        lemma_followed(t, f(i), each(f, i + 1, k as int));
    } else {
        lemma_followed(t, seq![], seq![]);
    }
}

// Rotations.

/// The commands of one rotation recorded at place `at`: the position and the
/// unused frequency factors are uploaded there.
pub open spec fn rotation(
    buf: BufId,
    off: u64,
    args: RopeArgs,
    groups: (u64, u64, u64),
    at: int,
) -> Seq<Command> {
    seq![
        Command::UploadWord(args.pos),
        Command::UploadWord(0),
        Command::Encoder,
        Command::Pipeline(Pipe::Loaded(Kernel::RopeTail)),
        Command::Buffer(0, buf, off),
        Command::Buffer(1, BufId::Fresh(at as u64), 0),
        Command::Buffer(2, BufId::Fresh((at + 1) as u64), 0),
        Command::Buffer(3, buf, off),
        Command::Rope(args),
        Command::Dispatch(groups, (spec_row_threads((args.n_rot / 2) as u64), 1, 1)),
        Command::EndEncoder,
    ]
}

proof fn lemma_rotation(t: Trace, buf: BufId, off: u64, args: RopeArgs, groups: (u64, u64, u64))
    ensures
        t.rope_at(buf, off, args, groups) == t.followed_by(
            rotation(buf, off, args, groups, t.log.len() as int),
        ),
{
    assert(t.rope_at(buf, off, args, groups).log =~= t.log + rotation(
        buf,
        off,
        args,
        groups,
        t.log.len() as int,
    ));
}

/// The byte at which the rotated part of key-value row `i` starts.
pub open spec fn kv_tail(kv_row: u64, n_rot: u32, i: int) -> int {
    (i * kv_row + (kv_row - n_rot)) * 4
}

/// The rotation of key-value row `i` at its own position, the first of them
/// recorded at place `at`.
pub open spec fn kv_rotation(
    kv: BufId,
    kv_row: u64,
    params: LayerParams,
    base_pos: u32,
    at: int,
) -> spec_fn(int) -> Seq<Command> {
    |i: int|
        rotation(
            kv,
            kv_tail(kv_row, params.n_rot, i) as u64,
            spec_rope_args(params, params.n_rot as u64, (base_pos + i) as u32, 1, 4, false),
            (1, 1, 1),
            at + 11 * i,
        )
}

/// Key-value rows are rotated one by one, each at its own position, or in one
/// launch that starts at the first and finds row `i` where its own rotation
/// would: `i` row strides behind. The arguments of the one launch are those of
/// the single rotation but for position and stride.
pub proof fn law_rotation_addresses(
    t: Trace,
    kv: DeferredBuf,
    kv_row: u64,
    params: LayerParams,
    base_pos: u32,
    k: u64,
)
    requires
        0 < k,
        0 < params.n_rot <= kv_row,
        extent(k),
        extent(kv_row),
    ensures
        ({
            let n = t.log.len() as int;
            let args = spec_rope_args(
                params,
                params.n_rot as u64,
                base_pos,
                1,
                kv_row as u32,
                false,
            );
            let first = kv_tail(kv_row, params.n_rot, 0) as u64;
            let rows = t.rope_kv_rows(kv, kv_row, params, base_pos, k, 0);
            let once = t.rope_tail_k_fused(
                kv,
                first,
                1,
                params.n_rot as u64,
                kv_row,
                params,
                base_pos,
                k,
                false,
            );
            &&& rows.1 is Ok ==> rows.0 == t.followed_by(
                each(kv_rotation(kv.buf, kv_row, params, base_pos, n), 0, k as int),
            )
            &&& once.1 is Ok ==> once.0 == t.followed_by(
                rotation(kv.buf, first, args, (1, k, 1), n),
            )
            &&& forall|i: int|
                0 <= i < k ==> #[trigger] kv_tail(kv_row, params.n_rot, i) == first + i
                    * args.elem_stride * 4
            &&& forall|i: int|
                0 <= i < k ==> #[trigger] spec_rope_args(
                    params,
                    params.n_rot as u64,
                    (base_pos + i) as u32,
                    1,
                    4,
                    false,
                ) == (RopeArgs { pos: (base_pos + i) as u32, elem_stride: 4, ..args })
        }),
{
    reveal(Trace::rope_tail_k_fused);
    let n = t.log.len() as int;
    let first = kv_tail(kv_row, params.n_rot, 0) as u64;
    let args = spec_rope_args(params, params.n_rot as u64, base_pos, 1, kv_row as u32, false);
    lemma_kv_rotations(t, kv, kv_row, params, base_pos, k, n, 0);
    lemma_rotation(t, kv.buf, first, args, (1, k, 1));
    assert forall|i: int| 0 <= i < k implies #[trigger] kv_tail(kv_row, params.n_rot, i) == first
        + i * args.elem_stride * 4 by {
        assert((i * kv_row + (kv_row - params.n_rot)) * 4 == (kv_row - params.n_rot) * 4 + i
            * kv_row * 4) by (nonlinear_arith);
    }
}

proof fn lemma_kv_rotations(
    t: Trace,
    kv: DeferredBuf,
    kv_row: u64,
    params: LayerParams,
    base_pos: u32,
    k: u64,
    at: int,
    i: int,
)
    requires
        t.log.len() == at + 11 * i,
    ensures
        ({
            let r = t.rope_kv_rows(kv, kv_row, params, base_pos, k, i);
            r.1 is Ok ==> r.0 == t.followed_by(
                each(kv_rotation(kv.buf, kv_row, params, base_pos, at), i, k as int),
            )
        }),
    decreases k - i,
{
    let f = kv_rotation(kv.buf, kv_row, params, base_pos, at);
    if i < k {
        reveal(Trace::rope_tail_in_place);
        let off = kv_tail(kv_row, params.n_rot, i) as u64;
        let args = spec_rope_args(
            params,
            params.n_rot as u64,
            (base_pos + i) as u32,
            1,
            4,
            false,
        );
        lemma_rotation(t, kv.buf, off, args, (1, 1, 1));
        let u = t.rope_at(kv.buf, off, args, (1, 1, 1));
        lemma_kv_rotations(u, kv, kv_row, params, base_pos, k, at, i + 1);
        lemma_followed(t, f(i), each(f, i + 1, k as int));
    } else {
        lemma_followed(t, seq![], seq![]);
    }
}

/// The rotation backward is the rotation forward, at the same place and position,
/// with the direction reversed and nothing else.
pub proof fn law_backward_reverses_forward(
    t: Trace,
    q: DeferredBuf,
    n_head: u64,
    head_dim: u64,
    params: LayerParams,
    pos: u32,
)
    ensures
        ({
            let forward = t.rope_tail_q_heads_in_place(q, n_head, head_dim, params, pos, false);
            let backward = t.rope_tail_q_heads_in_place(q, n_head, head_dim, params, pos, true);
            let n = t.log.len() as int;
            let args = spec_rope_args(params, head_dim, pos, n_head, 4, false);
            let off = ((head_dim - params.n_rot) * 4) as u64;
            &&& forward.1 == backward.1
            &&& forward.1 is Err ==> forward == backward
            &&& forward.1 is Ok ==> forward.0 == t.followed_by(
                rotation(q.buf, off, args, (n_head, 1, 1), n),
            )
            &&& backward.1 is Ok ==> backward.0 == t.followed_by(
                rotation(
                    q.buf,
                    off,
                    (RopeArgs { backward: true, ..args }),
                    (n_head, 1, 1),
                    n,
                ),
            )
        }),
{
    reveal(Trace::rope_tail_q_heads_in_place);
    let args = spec_rope_args(params, head_dim, pos, n_head, 4, false);
    let off = ((head_dim - params.n_rot) * 4) as u64;
    lemma_rotation(t, q.buf, off, args, (n_head, 1, 1));
    lemma_rotation(t, q.buf, off, RopeArgs { backward: true, ..args }, (n_head, 1, 1));
}

// Routing.

/// The copies of the route of position `i` into its six places.
pub open spec fn route_copy(routes: Seq<Routed>, sel: BufId, wt: BufId) -> spec_fn(
    int,
) -> Seq<Command> {
    |i: int|
        seq![
            Command::CloseShared,
            Command::Blit,
            Command::Copy {
                src: routes[i].0.buf,
                src_off: 0,
                dst: sel,
                dst_off: (i * 24) as u64,
                bytes: 24,
            },
            Command::Copy {
                src: routes[i].1.buf,
                src_off: 0,
                dst: wt,
                dst_off: (i * 24) as u64,
                bytes: 24,
            },
            Command::EndBlit,
        ]
}

/// Flattening puts the route of position `i` into places `6 i` to `6 i + 6` of
/// both results.
pub proof fn law_flattened_by_position(t: Trace, routes: Seq<Routed>)
    ensures
        ({
            let n = (routes.len() * 6) as u64;
            let (u, sel) = t.alloc_i32(n);
            let (u, wt) = u.alloc_f32(n);
            t.flatten_router_output_k(routes) == (
                u.followed_by(
                    each(route_copy(routes, sel.buf, wt.buf), 0, routes.len() as int),
                ),
                (sel, wt),
            )
        }),
{
    reveal(Trace::flatten_router_output_k);
    let n = (routes.len() * 6) as u64;
    let (u, sel) = t.alloc_i32(n);
    let (u, wt) = u.alloc_f32(n);
    lemma_flatten_rows(u, routes, sel.buf, wt.buf, 0);
}

proof fn lemma_flatten_rows(t: Trace, routes: Seq<Routed>, sel: BufId, wt: BufId, i: int)
    requires
        0 <= i,
    ensures
        t.flatten_rows(routes, sel, wt, i) == t.followed_by(
            each(route_copy(routes, sel, wt), i, routes.len() as int),
        ),
    decreases routes.len() - i,
{
    let f = route_copy(routes, sel, wt);
    if i < routes.len() {
        let u = t.followed_by(f(i));
        lemma_flatten_rows(u, routes, sel, wt, i + 1);
        lemma_followed(t, f(i), each(f, i + 1, routes.len() as int));
        let v = t.put(Command::CloseShared).put(Command::Blit).put(
            Command::Copy {
                src: routes[i].0.buf,
                src_off: 0,
                dst: sel,
                dst_off: (i * 24) as u64,
                bytes: 24,
            },
        ).put(
            Command::Copy {
                src: routes[i].1.buf,
                src_off: 0,
                dst: wt,
                dst_off: (i * 24) as u64,
                bytes: 24,
            },
        ).put(Command::EndBlit);
        assert(v.log =~= u.log);
    } else {
        lemma_followed(t, seq![], seq![]);
    }
}

/// The route of one position of several, `i` rows into the probabilities.
pub open spec fn route_step(
    n_experts: u64,
    generic: bool,
    probs: BufId,
    bias: BufId,
    hash: BufId,
    tokens: BufId,
) -> spec_fn(Trace, int) -> (Trace, Routed) {
    |t: Trace, i: int|
        t.route_one(
            n_experts,
            generic,
            (probs, (i * (n_experts * 4)) as u64),
            bias,
            hash,
            tokens,
        )
}

/// The traces before each of `k` steps, and after the last.
pub open spec fn route_trace(
    t: Trace,
    step: spec_fn(Trace, int) -> (Trace, Routed),
    i: int,
) -> Trace
    decreases i,
{
    if i <= 0 {
        t
    } else {
        step(route_trace(t, step, i - 1), i - 1).0
    }
}

/// What flat routing of `k` positions records: a launch of the selection and one of
/// the factors, each with one group for each position, over whole buffers of six
/// places to a position.
pub open spec fn flat_route(
    n_experts: u64,
    scale: F32,
    probs: BufId,
    bias: BufId,
    sel: BufId,
    wt: BufId,
    k: u64,
) -> Seq<Command> {
    let threads = pow2_above(n_experts, 1);
    seq![
        Command::Encoder,
        Command::Pipeline(Pipe::Special(Kernel::RouterFinalizeOneAnyK, Consts::Plain)),
        Command::Bytes(0, Args::Select(spec_select_args(n_experts))),
        Command::Buffer(1, probs, 0),
        Command::Buffer(2, bias, 0),
        Command::Buffer(3, sel, 0),
        Command::GroupMemory((2 * threads * 4) as u64),
        Command::Dispatch((k, 1, 1), (threads, 1, 1)),
        Command::EndEncoder,
        Command::Encoder,
        Command::Pipeline(Pipe::Special(Kernel::RouterWeightsOneAnyK, Consts::Plain)),
        Command::Buffer(0, probs, 0),
        Command::Buffer(1, sel, 0),
        Command::Buffer(2, wt, 0),
        Command::Bytes(3, Args::U32(6)),
        Command::Bytes(4, Args::F32(scale)),
        Command::Bytes(5, Args::F32(min_sum())),
        Command::Bytes(6, Args::U32(n_experts as u32)),
        Command::Dispatch((k, 1, 1), (6, 1, 1)),
        Command::EndEncoder,
    ]
}

/// Flat routing has one group for each position in both of its launches, and six
/// places for each in both results, as many as flattening the routes of the
/// single positions gives.
pub proof fn law_flat_routing_by_position(
    t: Trace,
    probs: DeferredBuf,
    bias: DeferredBuf,
    k: u64,
)
    ensures
        ({
            let n = (k * 6) as u64;
            let (u, sel) = t.alloc_i32(n);
            let (u, wt) = u.alloc_f32(n);
            let r = t.encode_router_finalize_flat_k(probs, bias, k);
            r.1 is Ok ==> r == (
                u.followed_by(
                    flat_route(
                        bias.n_elements,
                        t.engine.router_scale,
                        probs.buf,
                        bias.buf,
                        sel.buf,
                        wt.buf,
                        k,
                    ),
                ),
                Ok::<Routed, EncodeError>((sel, wt)),
            )
        }),
{
    reveal(Trace::encode_router_finalize_flat_k);
    let n = (k * 6) as u64;
    let (u, sel) = t.alloc_i32(n);
    let (u, wt) = u.alloc_f32(n);
    let r = t.encode_router_finalize_flat_k(probs, bias, k);
    if r.1 is Ok {
        assert(r.0.log =~= u.log + flat_route(
            bias.n_elements,
            t.engine.router_scale,
            probs.buf,
            bias.buf,
            sel.buf,
            wt.buf,
            k,
        ));
    }
}

/// Routing several positions is routing each of them: position `i` from its row of
/// the probabilities, under the same bias; routing one position is the first of
/// these steps. Flat routing accepts the same probabilities, and writes six
/// places of both results for each position.
pub proof fn law_routing_by_position(t: Trace, probs: DeferredBuf, bias: DeferredBuf, k: u64)
    requires
        k * 6 <= u64::MAX,
    ensures
        ({
            let n = bias.n_elements;
            let (u, hash) = t.upload_word(0);
            let (u, tokens) = u.upload_word(0);
            let step = route_step(
                n,
                t.engine.generic_router(n),
                probs.buf,
                bias.buf,
                hash.buf,
                tokens.buf,
            );
            let several = t.encode_router_finalize_k(probs, bias, k);
            let single = t.encode_router_finalize(probs, bias);
            let flat = t.encode_router_finalize_flat_k(probs, bias, k);
            &&& several.1 is Ok ==> {
                &&& several.0 == route_trace(u, step, k as int)
                &&& several.1->Ok_0.len() == k
                &&& forall|i: int|
                    0 <= i < k ==> #[trigger] several.1->Ok_0[i] == step(
                        route_trace(u, step, i),
                        i,
                    ).1
                &&& flat.1 is Ok
            }
            &&& single.1 is Ok ==> single == (
                step(u, 0).0,
                Ok::<Routed, EncodeError>(step(u, 0).1),
            )
            &&& flat.1 matches Ok((sel, wt)) ==> sel.n_elements == k * 6 && wt.n_elements == k * 6
        }),
{
    reveal(Trace::encode_router_finalize_k);
    reveal(Trace::encode_router_finalize);
    reveal(Trace::encode_router_finalize_flat_k);
    let n = bias.n_elements;
    let (u, hash) = t.upload_word(0);
    let (u, tokens) = u.upload_word(0);
    lemma_route_rows(
        u,
        n,
        t.engine.generic_router(n),
        probs.buf,
        bias.buf,
        hash.buf,
        tokens.buf,
        k,
        0,
        seq![],
    );
}

proof fn lemma_route_rows(
    t: Trace,
    n_experts: u64,
    generic: bool,
    probs: BufId,
    bias: BufId,
    hash: BufId,
    tokens: BufId,
    k: u64,
    i: int,
    done: Seq<Routed>,
)
    requires
        0 <= i <= k,
        done.len() == i,
        forall|j: int|
            0 <= j < i ==> #[trigger] done[j] == route_step(
                n_experts,
                generic,
                probs,
                bias,
                hash,
                tokens,
            )(
                route_trace(
                    t,
                    route_step(n_experts, generic, probs, bias, hash, tokens),
                    j,
                ),
                j,
            ).1,
    ensures
        ({
            let step = route_step(n_experts, generic, probs, bias, hash, tokens);
            let r = route_trace(t, step, i).route_rows(
                n_experts,
                generic,
                probs,
                bias,
                hash,
                tokens,
                k,
                i,
                done,
            );
            &&& r.0 == route_trace(t, step, k as int)
            &&& r.1.len() == k
            &&& forall|j: int|
                0 <= j < k ==> #[trigger] r.1[j] == step(route_trace(t, step, j), j).1
        }),
    decreases k - i,
{
    if i < k {
        let step = route_step(n_experts, generic, probs, bias, hash, tokens);
        let next = done.push(step(route_trace(t, step, i), i).1);
        lemma_route_rows(t, n_experts, generic, probs, bias, hash, tokens, k, i + 1, next);
    }
}

// Collapses of residual streams.

/// The collapse of position `i` of several: it is cut out, collapsed as a single
/// position, and its results put into their rows.
pub open spec fn collapse_step(
    prev: DeferredBuf,
    hc_fn: DeferredBuf,
    scale: DeferredBuf,
    base: DeferredBuf,
    gamma: DeferredBuf,
    n_hc: u64,
    n_embd: u64,
    sinkhorn_iters: i32,
    hc_eps: F32,
    rms_eps: F32,
    unit_gamma: DeferredBuf,
    is_f16: bool,
    outs: Collapsed,
) -> spec_fn(Trace, int) -> (Trace, Result<(), EncodeError>) {
    |t: Trace, i: int|
        {
            let hc_dim = (n_hc * n_embd) as u64;
            let (t, row) = t.alloc_f32(hc_dim);
            let (t, r) = t.blit(
                prev.buf,
                (i * hc_dim * 4) as u64,
                row.buf,
                0,
                (hc_dim * 4) as u64,
            ).hc_collapse_norm(
                row,
                hc_fn,
                scale,
                base,
                gamma,
                n_hc,
                n_embd,
                sinkhorn_iters,
                hc_eps,
                rms_eps,
                unit_gamma,
                is_f16,
            );
            if r is Err {
                t.failed(r)
            } else {
                (
                    t.keep_collapsed(r->Ok_0, outs, mix_hc(n_hc) as u64, n_embd, i),
                    Ok(()),
                )
            }
        }
}

/// Position by position, the collapse of several positions is the collapse of
/// each of them.
pub proof fn law_collapse_by_position(
    t: Trace,
    prev: DeferredBuf,
    hc_fn: DeferredBuf,
    scale: DeferredBuf,
    base: DeferredBuf,
    gamma: DeferredBuf,
    n_hc: u64,
    n_embd: u64,
    sinkhorn_iters: i32,
    hc_eps: F32,
    rms_eps: F32,
    unit_gamma: DeferredBuf,
    k: u64,
    is_f16: bool,
)
    requires
        t.config.hc_collapse_per_k,
    ensures
        ({
            let (u, split_k) = t.alloc_f32((k * mix_hc(n_hc)) as u64);
            let (u, cur_k) = u.alloc_f32((k * n_embd) as u64);
            let (u, normed_k) = u.alloc_attn_out((k * n_embd) as u64);
            let outs = (split_k, cur_k, normed_k);
            let all = steps(
                u,
                collapse_step(
                    prev,
                    hc_fn,
                    scale,
                    base,
                    gamma,
                    n_hc,
                    n_embd,
                    sinkhorn_iters,
                    hc_eps,
                    rms_eps,
                    unit_gamma,
                    is_f16,
                    outs,
                ),
                0,
                k as int,
            );
            let r = t.hc_collapse_norm_k(
                prev,
                hc_fn,
                scale,
                base,
                gamma,
                n_hc,
                n_embd,
                sinkhorn_iters,
                hc_eps,
                rms_eps,
                unit_gamma,
                k,
                is_f16,
            );
            r.1 is Ok ==> all.1 is Ok && r == (all.0, Ok::<Collapsed, EncodeError>(outs))
        }),
{
    reveal(Trace::hc_collapse_norm_k);
    let (u, split_k) = t.alloc_f32((k * mix_hc(n_hc)) as u64);
    let (u, cur_k) = u.alloc_f32((k * n_embd) as u64);
    let (u, normed_k) = u.alloc_attn_out((k * n_embd) as u64);
    lemma_collapse_rows(
        u,
        prev,
        hc_fn,
        scale,
        base,
        gamma,
        n_hc,
        n_embd,
        sinkhorn_iters,
        hc_eps,
        rms_eps,
        unit_gamma,
        is_f16,
        (split_k, cur_k, normed_k),
        k,
        0,
    );
}

proof fn lemma_collapse_rows(
    t: Trace,
    prev: DeferredBuf,
    hc_fn: DeferredBuf,
    scale: DeferredBuf,
    base: DeferredBuf,
    gamma: DeferredBuf,
    n_hc: u64,
    n_embd: u64,
    sinkhorn_iters: i32,
    hc_eps: F32,
    rms_eps: F32,
    unit_gamma: DeferredBuf,
    is_f16: bool,
    outs: Collapsed,
    k: u64,
    i: int,
)
    ensures
        t.hc_collapse_rows(
            prev,
            hc_fn,
            scale,
            base,
            gamma,
            n_hc,
            n_embd,
            sinkhorn_iters,
            hc_eps,
            rms_eps,
            unit_gamma,
            is_f16,
            outs,
            k,
            i,
        ) == steps(
            t,
            collapse_step(
                prev,
                hc_fn,
                scale,
                base,
                gamma,
                n_hc,
                n_embd,
                sinkhorn_iters,
                hc_eps,
                rms_eps,
                unit_gamma,
                is_f16,
                outs,
            ),
            i,
            k as int,
        ),
    decreases k - i,
{
    if i < k {
        let step = collapse_step(
            prev,
            hc_fn,
            scale,
            base,
            gamma,
            n_hc,
            n_embd,
            sinkhorn_iters,
            hc_eps,
            rms_eps,
            unit_gamma,
            is_f16,
            outs,
        );
        lemma_collapse_rows(
            step(t, i).0,
            prev,
            hc_fn,
            scale,
            base,
            gamma,
            n_hc,
            n_embd,
            sinkhorn_iters,
            hc_eps,
            rms_eps,
            unit_gamma,
            is_f16,
            outs,
            k,
            i + 1,
        );
    }
}

/// In three launches over all positions, each launch steps from position to
/// position by the bytes that lie between their rows.
pub proof fn law_collapse_addresses(
    n_hc: u64,
    n_embd: u64,
    k: u64,
    wb: u64,
    sinkhorn_iters: i32,
    hc_eps: F32,
    rms_eps: F32,
    i: int,
)
    requires
        0 <= i < k,
        extent(n_hc),
        extent(n_embd),
        n_hc * n_embd <= MAX_EXTENT,
        mix_hc(n_hc) <= MAX_EXTENT,
    ensures
        ({
            let hc_dim = (n_hc * n_embd) as u64;
            let mix = mix_hc(n_hc);
            let norm = spec_norm_args(hc_dim, k, rms_eps);
            let mv = spec_mv_args(
                hc_dim,
                mix as u64,
                1,
                wb,
                (hc_dim * wb) as u64,
                (hc_dim * mix * wb) as u64,
                k,
                (hc_dim * 4) as u64,
                (k * hc_dim * 4) as u64,
            );
            let split = spec_split_args(n_hc, n_embd, k, sinkhorn_iters, hc_eps, rms_eps);
            &&& i * hc_dim * 4 == i * norm.nb1
            &&& i * hc_dim * 4 == i * mv.nb11
            &&& i * hc_dim * 4 == i * split.nb_x2
            &&& i * mix * 4 == i * split.nb_mix1
            &&& i * mix * 4 == i * split.nb_split1
            &&& i * n_embd * 4 == i * split.nb1
            &&& i * n_embd * 4 == i * split.nb_norm1
        }),
{
    let hc_dim = n_hc * n_embd;
    let mix = mix_hc(n_hc);
    assert(i * hc_dim * 4 == i * (hc_dim * 4)) by (nonlinear_arith);
    assert(i * mix * 4 == i * (mix * 4)) by (nonlinear_arith);
    assert(i * n_embd * 4 == i * (n_embd * 4)) by (nonlinear_arith);
    assert(0 <= hc_dim) by (nonlinear_arith)
        requires
            hc_dim == n_hc * n_embd,
    ;
}

// Norms.

/// The commands of the norm of `rows` rows of `n` elements.
pub open spec fn norm_of_rows(
    x: BufId,
    gamma: BufId,
    out: BufId,
    n: u64,
    rows: u64,
    eps: F32,
) -> Seq<Command> {
    seq![
        Command::Encoder,
        Command::Pipeline(Pipe::Loaded(Kernel::RmsNormMul)),
        Command::Bytes(0, Args::Norm(spec_norm_args(n, rows, eps))),
        Command::Buffer(1, x, 0),
        Command::Buffer(2, gamma, 0),
        Command::Buffer(3, x, 0),
        Command::Buffer(4, out, 0),
        Command::GroupMemory(128),
        Command::Dispatch((rows, 1, 1), (spec_row_threads(n / 4), 1, 1)),
        Command::EndEncoder,
    ]
}

/// The commands of the norm of `rows` heads.
pub open spec fn norm_of_heads(x: BufId, out: BufId, head_dim: u64, rows: u64, eps: F32) -> Seq<
    Command,
> {
    seq![
        Command::Encoder,
        Command::Pipeline(Pipe::Loaded(Kernel::HeadRmsNorm)),
        Command::Buffer(0, x, 0),
        Command::Buffer(1, out, 0),
        Command::Bytes(2, Args::U32(head_dim as u32)),
        Command::Bytes(3, Args::F32(eps)),
        Command::Dispatch((rows, 1, 1), (spec_row_threads(head_dim), 1, 1)),
        Command::EndEncoder,
    ]
}

/// The norm of several positions is the launch of the norm of one with one group
/// for each position, rows as many bytes apart as a row is long; the norm of the
/// heads of several positions is that of as many heads.
pub proof fn law_norm_by_position(
    t: Trace,
    x: DeferredBuf,
    gamma: DeferredBuf,
    n: u64,
    n_head: u64,
    head_dim: u64,
    k: u64,
    eps: F32,
)
    requires
        extent(n),
    ensures
        ({
            let (u, out) = t.alloc_f32(x.n_elements);
            let r = t.rms_norm_mul(x, gamma, eps);
            r.1 is Ok ==> r == (
                u.followed_by(norm_of_rows(x.buf, gamma.buf, out.buf, x.n_elements, 1, eps)),
                Ok::<DeferredBuf, EncodeError>(out),
            )
        }),
        ({
            let (u, out) = t.alloc_attn_out((k * n) as u64);
            let r = t.rms_norm_mul_k(x, gamma, n, k, eps);
            r.1 is Ok ==> r == (
                u.followed_by(norm_of_rows(x.buf, gamma.buf, out.buf, n, k, eps)),
                Ok::<DeferredBuf, EncodeError>(out),
            )
        }),
        spec_norm_args(n, k, eps).nb1 == n * 4,
        ({
            let (u, out) = t.alloc_f32(x.n_elements);
            let r = t.head_rms_norm(x, n_head, head_dim, eps);
            r.1 is Ok ==> r == (
                u.followed_by(norm_of_heads(x.buf, out.buf, head_dim, n_head, eps)),
                Ok::<DeferredBuf, EncodeError>(out),
            )
        }),
        ({
            let (u, out) = t.alloc_attn_out(x.n_elements);
            let r = t.head_rms_norm_k(x, n_head, head_dim, k, eps);
            r.1 is Ok ==> r == (
                u.followed_by(
                    norm_of_heads(x.buf, out.buf, head_dim, (k * n_head) as u64, eps),
                ),
                Ok::<DeferredBuf, EncodeError>(out),
            )
        }),
{
    reveal(Trace::rms_norm_mul);
    reveal(Trace::rms_norm_mul_k);
    reveal(Trace::head_rms_norm);
    reveal(Trace::head_rms_norm_k);
    let (u, out) = t.alloc_f32(x.n_elements);
    lemma_norm(u, x.buf, gamma.buf, out.buf, x.n_elements, 1, eps);
    lemma_head_norm(u, x.buf, out.buf, head_dim, n_head, eps);
    let (u, out) = t.alloc_attn_out((k * n) as u64);
    lemma_norm(u, x.buf, gamma.buf, out.buf, n, k, eps);
    let (u, out) = t.alloc_attn_out(x.n_elements);
    lemma_head_norm(u, x.buf, out.buf, head_dim, (k * n_head) as u64, eps);
}

proof fn lemma_norm(t: Trace, x: BufId, gamma: BufId, out: BufId, n: u64, rows: u64, eps: F32)
    ensures
        t.norm_launch(x, gamma, out, n, rows, eps) == t.followed_by(
            norm_of_rows(x, gamma, out, n, rows, eps),
        ),
{
    assert(t.norm_launch(x, gamma, out, n, rows, eps).log =~= t.log + norm_of_rows(
        x,
        gamma,
        out,
        n,
        rows,
        eps,
    ));
}

proof fn lemma_head_norm(t: Trace, x: BufId, out: BufId, head_dim: u64, rows: u64, eps: F32)
    ensures
        t.head_norm_launch(x, out, head_dim, rows, eps) == t.followed_by(
            norm_of_heads(x, out, head_dim, rows, eps),
        ),
{
    assert(t.head_norm_launch(x, out, head_dim, rows, eps).log =~= t.log + norm_of_heads(
        x,
        out,
        head_dim,
        rows,
        eps,
    ));
}

// Chains.

/// The shared expert of several positions: both projections of all positions, the
/// activation of each row from its rows of both, and the projection back.
pub proof fn law_shared_chain_by_position(
    t: Trace,
    normed: DeferredBuf,
    w_gate: DeferredBuf,
    w_up: DeferredBuf,
    w_down: DeferredBuf,
    d_embd: u64,
    sd: u64,
    k: u64,
)
    ensures
        ({
            let r = t.encode_shared_chain_q8_k(normed, w_gate, w_up, w_down, d_embd, sd, k);
            let (u, g) = t.matmul_k_q8_0_auto(w_gate, normed, d_embd, sd, k);
            let (u, p) = u.matmul_k_q8_0_auto(w_up, normed, d_embd, sd, k);
            let (u, mid) = u.pooled_scratch_f32(
                PoolKey::SharedMid,
                (k * sd) as u64,
            );
            let s = if t.config.batch_router {
                activation(g->Ok_0.buf, p->Ok_0.buf, mid.buf, k, sd)(0)
            } else {
                each(activation(g->Ok_0.buf, p->Ok_0.buf, mid.buf, 1, sd), 0, k as int)
            };
            r.1 is Ok ==> g is Ok && p is Ok && r == u.followed_by(s).matmul_k_q8_0_auto(
                w_down,
                mid,
                sd,
                d_embd,
                k,
            )
        }),
{
    reveal(Trace::encode_shared_chain_q8_k);
    let (u, g) = t.matmul_k_q8_0_auto(w_gate, normed, d_embd, sd, k);
    let (u, p) = u.matmul_k_q8_0_auto(w_up, normed, d_embd, sd, k);
    let (u, mid) = u.pooled_scratch_f32(PoolKey::SharedMid, (k * sd) as u64);
    let (a, b) = (g->Ok_0.buf, p->Ok_0.buf);
    lemma_activation_rows(u, a, b, mid.buf, sd, k, 0);
    assert(u.glu_launch(a, b, mid.buf, 0, k, sd).log =~= u.log + activation(
        a,
        b,
        mid.buf,
        k,
        sd,
    )(0));
}

/// The output head of several positions takes the steps of the head of one: the
/// norm over the rows of all, the mixing product and the factors position by
/// position, the weighted sum and the norm over the rows of all, and the
/// vocabulary product of all.
pub proof fn law_output_head_by_position(
    t: Trace,
    cur: DeferredBuf,
    w: HeadWeights,
    n_embd: u64,
    n_hc: u64,
    vocab: u64,
    k: u64,
    rms_eps: F32,
    hc_eps: F32,
)
    ensures
        ({
            let hc_dim = (n_hc * n_embd) as u64;
            let r = t.encode_verify_output_head_K(
                cur,
                w,
                n_embd,
                n_hc,
                vocab,
                k,
                rms_eps,
                hc_eps,
            );
            let (u, flat) = t.rms_norm_mul_k(cur, w.unit_gamma_hc, hc_dim, k, rms_eps);
            let (u, pre) = u.alloc_f32((k * n_hc) as u64);
            let (u, weights) = u.followed_by(
                each(
                    product(
                        Kernel::MulMvF32,
                        4,
                        w.hc_fn.buf,
                        flat->Ok_0.buf,
                        pre.buf,
                        hc_dim,
                        n_hc,
                    ),
                    0,
                    k as int,
                ),
            ).alloc_f32((k * n_hc) as u64);
            let (u, embd) = u.followed_by(
                each(
                    factors(
                        pre.buf,
                        w.hc_scale.buf,
                        w.hc_base.buf,
                        weights.buf,
                        n_hc,
                        hc_eps,
                    ),
                    0,
                    k as int,
                ),
            ).alloc_f32((k * n_embd) as u64);
            let (u, norm) = u.weighted_sum_launch(
                cur.buf,
                weights.buf,
                embd.buf,
                n_embd,
                n_hc,
                k,
            ).rms_norm_mul_k(embd, w.norm_gamma, n_embd, k, rms_eps);
            r.1 is Ok ==> flat is Ok && norm is Ok && r == u.matvec_k_q8_0(
                w.lm_head,
                norm->Ok_0,
                n_embd,
                vocab,
                k,
            )
        }),
        ({
            let hc_dim = (n_hc * n_embd) as u64;
            let r = t.encode_mtp_output_head(cur, w, n_embd, n_hc, vocab, rms_eps, hc_eps);
            let (u, flat) = t.rms_norm_mul(cur, w.unit_gamma_hc, rms_eps);
            let (u, pre) = u.alloc_f32(n_hc);
            let (u, weights) = u.followed_by(
                product(
                    Kernel::MulMvF32,
                    4,
                    w.hc_fn.buf,
                    flat->Ok_0.buf,
                    pre.buf,
                    hc_dim,
                    n_hc,
                )(0),
            ).alloc_f32(n_hc);
            let (u, embd) = u.followed_by(
                factors(pre.buf, w.hc_scale.buf, w.hc_base.buf, weights.buf, n_hc, hc_eps)(0),
            ).alloc_f32(n_embd);
            let (u, norm) = u.weighted_sum_launch(
                cur.buf,
                weights.buf,
                embd.buf,
                n_embd,
                n_hc,
                1,
            ).rms_norm_mul(embd, w.norm_gamma, rms_eps);
            r.1 is Ok ==> flat is Ok && norm is Ok && r == u.matvec_q8_0(
                w.lm_head,
                norm->Ok_0,
                n_embd,
                vocab,
            )
        }),
        spec_ws_args(n_embd, n_hc, k) == (HcWsArgs {
            n_tokens: k as i64,
            ..spec_ws_args(n_embd, n_hc, 1)
        }),
{
    reveal(Trace::encode_verify_output_head_K);
    reveal(Trace::encode_mtp_output_head);
    reveal(Trace::matvec_f32);
    let hc_dim = (n_hc * n_embd) as u64;
    let (u, flat) = t.rms_norm_mul_k(cur, w.unit_gamma_hc, hc_dim, k, rms_eps);
    let (u, pre) = u.alloc_f32((k * n_hc) as u64);
    lemma_product_rows(
        u,
        Kernel::MulMvF32,
        4,
        w.hc_fn.buf,
        flat->Ok_0.buf,
        pre.buf,
        hc_dim,
        n_hc,
        k,
        0,
    );
    let (u, weights) = u.followed_by(
        each(
            product(Kernel::MulMvF32, 4, w.hc_fn.buf, flat->Ok_0.buf, pre.buf, hc_dim, n_hc),
            0,
            k as int,
        ),
    ).alloc_f32((k * n_hc) as u64);
    law_factors_by_position(
        u,
        pre.buf,
        w.hc_scale.buf,
        w.hc_base.buf,
        weights.buf,
        n_hc,
        hc_eps,
        k,
        0,
    );
    let (u, flat) = t.rms_norm_mul(cur, w.unit_gamma_hc, rms_eps);
    if flat is Ok {
        law_product_by_position(
            u,
            Kernel::MulMvF32,
            4,
            w.hc_fn,
            flat->Ok_0,
            cur.buf,
            hc_dim,
            n_hc,
            k,
        );
        let (u, pre) = u.matvec_f32(w.hc_fn, flat->Ok_0, hc_dim, n_hc);
        if pre is Ok {
            let (u, weights) = u.alloc_f32(n_hc);
            law_factors_by_position(
                u,
                pre->Ok_0.buf,
                w.hc_scale.buf,
                w.hc_base.buf,
                weights.buf,
                n_hc,
                hc_eps,
                k,
                0,
            );
        }
    }
}

/// The projections of several positions take the steps of the projections of one,
/// but for the place of the key-value product: the low-rank query, its norm with
/// one group for each position, the query heads, and their norm as that of so
/// many more heads.
pub proof fn law_projections_by_position(
    t: Trace,
    x: DeferredBuf,
    q_a: DeferredBuf,
    gamma: DeferredBuf,
    q_b: DeferredBuf,
    kv: DeferredBuf,
    n_lora_q: u64,
    n_head: u64,
    head_dim: u64,
    eps: F32,
    kv_row: u64,
    d_embd: u64,
    k: u64,
)
    ensures
        ({
            let q_dim = (n_head * head_dim) as u64;
            let r = t.encode_attn_qkv_chain_k(
                x,
                q_a,
                gamma,
                q_b,
                kv,
                n_lora_q,
                n_head,
                head_dim,
                eps,
                kv_row,
                d_embd,
                k,
            );
            let (u, qr) = t.arm(PoolKey::AttnQr).matmul_k_attn_proj(q_a, x, d_embd, n_lora_q, k);
            let (u, qn) = u.arm(PoolKey::AttnQrNorm).alloc_attn_out((k * n_lora_q) as u64);
            let (u, raw) = u.followed_by(
                norm_of_rows(qr->Ok_0.buf, gamma.buf, qn.buf, n_lora_q, k, eps),
            ).arm(PoolKey::AttnQHeadsRaw).matmul_k_attn_proj(q_b, qn, n_lora_q, q_dim, k);
            let (u, heads) = u.arm(PoolKey::AttnQHeads).alloc_attn_out(raw->Ok_0.n_elements);
            let (u, kv_raw) = u.followed_by(
                norm_of_heads(raw->Ok_0.buf, heads.buf, head_dim, (k * n_head) as u64, eps),
            ).arm(PoolKey::AttnKvRaw).matmul_k_attn_proj(kv, x, d_embd, kv_row, k);
            r.1 is Ok ==> qr is Ok && raw is Ok && kv_raw is Ok && r == (
                u,
                Ok::<Qkv, EncodeError>((qn, heads, kv_raw->Ok_0)),
            )
        }),
        ({
            let q_dim = (n_head * head_dim) as u64;
            let r = t.encode_attn_qkv_chain(
                x,
                q_a,
                gamma,
                q_b,
                kv,
                n_lora_q,
                n_head,
                head_dim,
                eps,
                kv_row,
            );
            let (u, qr) = t.matvec_attn_proj(q_a, x, x.n_elements, n_lora_q);
            let (u, kv_raw) = u.matvec_attn_proj(kv, x, x.n_elements, kv_row);
            let (u, qn) = u.alloc_f32(n_lora_q);
            let (u, raw) = u.followed_by(
                norm_of_rows(qr->Ok_0.buf, gamma.buf, qn.buf, n_lora_q, 1, eps),
            ).matvec_attn_proj(q_b, qn, n_lora_q, q_dim);
            let (u, heads) = u.alloc_f32(raw->Ok_0.n_elements);
            let u = u.followed_by(
                norm_of_heads(raw->Ok_0.buf, heads.buf, head_dim, n_head, eps),
            );
            r.1 is Ok && t.q8_proj && !t.config.qkv_concurrent ==> qr is Ok && raw is Ok
                && kv_raw is Ok && r == (
                u,
                Ok::<Qkv, EncodeError>((qn, heads, kv_raw->Ok_0)),
            )
        }),
{
    lemma_projections_k(
        t,
        x,
        q_a,
        gamma,
        q_b,
        kv,
        n_lora_q,
        n_head,
        head_dim,
        eps,
        kv_row,
        d_embd,
        k,
    );
    reveal(Trace::encode_attn_qkv_chain);
    let q_dim = (n_head * head_dim) as u64;
    let (u, qr) = t.matvec_attn_proj(q_a, x, x.n_elements, n_lora_q);
    let (u, kv_raw) = u.matvec_attn_proj(kv, x, x.n_elements, kv_row);
    lemma_norm_row(u, qr->Ok_0, gamma, eps);
    let (v, qn) = u.rms_norm_mul(qr->Ok_0, gamma, eps);
    let (v, raw) = v.matvec_attn_proj(q_b, qn->Ok_0, n_lora_q, q_dim);
    lemma_norm_heads(v, raw->Ok_0, n_head, head_dim, eps);
}

proof fn lemma_projections_k(
    t: Trace,
    x: DeferredBuf,
    q_a: DeferredBuf,
    gamma: DeferredBuf,
    q_b: DeferredBuf,
    kv: DeferredBuf,
    n_lora_q: u64,
    n_head: u64,
    head_dim: u64,
    eps: F32,
    kv_row: u64,
    d_embd: u64,
    k: u64,
)
    ensures
        ({
            let q_dim = (n_head * head_dim) as u64;
            let r = t.encode_attn_qkv_chain_k(
                x,
                q_a,
                gamma,
                q_b,
                kv,
                n_lora_q,
                n_head,
                head_dim,
                eps,
                kv_row,
                d_embd,
                k,
            );
            let (u, qr) = t.arm(PoolKey::AttnQr).matmul_k_attn_proj(q_a, x, d_embd, n_lora_q, k);
            let (u, qn) = u.arm(PoolKey::AttnQrNorm).alloc_attn_out((k * n_lora_q) as u64);
            let (u, raw) = u.followed_by(
                norm_of_rows(qr->Ok_0.buf, gamma.buf, qn.buf, n_lora_q, k, eps),
            ).arm(PoolKey::AttnQHeadsRaw).matmul_k_attn_proj(q_b, qn, n_lora_q, q_dim, k);
            let (u, heads) = u.arm(PoolKey::AttnQHeads).alloc_attn_out(raw->Ok_0.n_elements);
            let (u, kv_raw) = u.followed_by(
                norm_of_heads(raw->Ok_0.buf, heads.buf, head_dim, (k * n_head) as u64, eps),
            ).arm(PoolKey::AttnKvRaw).matmul_k_attn_proj(kv, x, d_embd, kv_row, k);
            r.1 is Ok ==> qr is Ok && raw is Ok && kv_raw is Ok && r == (
                u,
                Ok::<Qkv, EncodeError>((qn, heads, kv_raw->Ok_0)),
            )
        }),
{
    reveal(Trace::encode_attn_qkv_chain_k);
    let q_dim = (n_head * head_dim) as u64;
    let (u, qr) = t.arm(PoolKey::AttnQr).matmul_k_attn_proj(q_a, x, d_embd, n_lora_q, k);
    let armed = u.arm(PoolKey::AttnQrNorm);
    lemma_norm_rows_k(armed, qr->Ok_0, gamma, n_lora_q, k, eps);
    let (v, qn) = armed.rms_norm_mul_k(qr->Ok_0, gamma, n_lora_q, k, eps);
    let (v, raw) = v.arm(PoolKey::AttnQHeadsRaw).matmul_k_attn_proj(
        q_b,
        qn->Ok_0,
        n_lora_q,
        q_dim,
        k,
    );
    lemma_norm_heads_k(v.arm(PoolKey::AttnQHeads), raw->Ok_0, n_head, head_dim, k, eps);
}

proof fn lemma_norm_row(t: Trace, x: DeferredBuf, gamma: DeferredBuf, eps: F32)
    ensures
        ({
            let (u, out) = t.alloc_f32(gamma.n_elements);
            let r = t.rms_norm_mul(x, gamma, eps);
            r.1 is Ok ==> r == (
                u.followed_by(norm_of_rows(x.buf, gamma.buf, out.buf, gamma.n_elements, 1, eps)),
                Ok::<DeferredBuf, EncodeError>(out),
            )
        }),
{
    reveal(Trace::rms_norm_mul);
    let (u, out) = t.alloc_f32(gamma.n_elements);
    lemma_norm(u, x.buf, gamma.buf, out.buf, gamma.n_elements, 1, eps);
}

proof fn lemma_norm_rows_k(
    t: Trace,
    x: DeferredBuf,
    gamma: DeferredBuf,
    n: u64,
    k: u64,
    eps: F32,
)
    ensures
        ({
            let (u, out) = t.alloc_attn_out((k * n) as u64);
            let r = t.rms_norm_mul_k(x, gamma, n, k, eps);
            r.1 is Ok ==> r == (
                u.followed_by(norm_of_rows(x.buf, gamma.buf, out.buf, n, k, eps)),
                Ok::<DeferredBuf, EncodeError>(out),
            )
        }),
{
    reveal(Trace::rms_norm_mul_k);
    let (u, out) = t.alloc_attn_out((k * n) as u64);
    lemma_norm(u, x.buf, gamma.buf, out.buf, n, k, eps);
}

proof fn lemma_norm_heads(t: Trace, x: DeferredBuf, n_head: u64, head_dim: u64, eps: F32)
    ensures
        ({
            let (u, out) = t.alloc_f32(x.n_elements);
            let r = t.head_rms_norm(x, n_head, head_dim, eps);
            r.1 is Ok ==> r == (
                u.followed_by(norm_of_heads(x.buf, out.buf, head_dim, n_head, eps)),
                Ok::<DeferredBuf, EncodeError>(out),
            )
        }),
{
    reveal(Trace::head_rms_norm);
    let (u, out) = t.alloc_f32(x.n_elements);
    lemma_head_norm(u, x.buf, out.buf, head_dim, n_head, eps);
}

proof fn lemma_norm_heads_k(
    t: Trace,
    x: DeferredBuf,
    n_head: u64,
    head_dim: u64,
    k: u64,
    eps: F32,
)
    ensures
        ({
            let (u, out) = t.alloc_attn_out(x.n_elements);
            let r = t.head_rms_norm_k(x, n_head, head_dim, k, eps);
            r.1 is Ok ==> r == (
                u.followed_by(
                    norm_of_heads(x.buf, out.buf, head_dim, (k * n_head) as u64, eps),
                ),
                Ok::<DeferredBuf, EncodeError>(out),
            )
        }),
{
    reveal(Trace::head_rms_norm_k);
    let (u, out) = t.alloc_attn_out(x.n_elements);
    lemma_head_norm(u, x.buf, out.buf, head_dim, (k * n_head) as u64, eps);
}

/// What the rotation of the key-value rows of a half layer records: the rotation
/// of each row at its own position, or one launch for all of them.
pub open spec fn kv_rotations(
    config: Config,
    kv: BufId,
    kv_row: u64,
    params: LayerParams,
    base_pos: u32,
    k: u64,
    at: int,
) -> Seq<Command> {
    if config.rope_per_k {
        each(kv_rotation(kv, kv_row, params, base_pos, at), 0, k as int)
    } else {
        rotation(
            kv,
            kv_tail(kv_row, params.n_rot, 0) as u64,
            spec_rope_args(params, params.n_rot as u64, base_pos, 1, kv_row as u32, false),
            (1, k, 1),
            at,
        )
    }
}

/// The attention half of several positions takes the steps of the half of one:
/// collapse, projections, the norm of the key-value rows with one group for each
/// position, and the rotation of row `i` at position `base_pos + i`, which for one
/// position is the rotation of row zero.
pub proof fn law_half_by_position(
    t: Trace,
    prev: DeferredBuf,
    w: AttnWeights,
    shape: AttnShape,
    params: LayerParams,
    pos: u32,
    k: u64,
    is_f16: bool,
)
    requires
        0 < k,
        0 < params.n_rot <= shape.kv_row,
        extent(k),
        extent(shape.kv_row),
        !t.config.profile_fine,
        !t.config.rope_kv_order,
    ensures
        ({
            let r = t.encode_layer_attn_half_k(prev, w, shape, params, pos, k, is_f16);
            let (u, col) = t.arm(PoolKey::HcAttnNormed).hc_collapse_norm_k(
                prev,
                w.hc_fn,
                w.hc_scale,
                w.hc_base,
                w.hc_norm_gamma,
                shape.n_hc,
                shape.n_embd,
                shape.sinkhorn_iters,
                shape.hc_eps,
                shape.rms_eps,
                w.unit_gamma_hc,
                k,
                is_f16,
            );
            let (u, qkv) = u.encode_attn_qkv_chain_k(
                col->Ok_0.2,
                w.q_a,
                w.gamma_q,
                w.q_b,
                w.kv,
                shape.n_lora_q,
                shape.n_head,
                shape.head_dim,
                shape.rms_eps,
                shape.kv_row,
                shape.n_embd,
                k,
            );
            let (u, kv) = u.arm(PoolKey::AttnKvNorm).alloc_attn_out((k * shape.kv_row) as u64);
            let u = u.followed_by(
                norm_of_rows(
                    qkv->Ok_0.2.buf,
                    w.gamma_kv.buf,
                    kv.buf,
                    shape.kv_row,
                    k,
                    shape.rms_eps,
                ),
            );
            let rotated = u.followed_by(
                kv_rotations(
                    u.config,
                    kv.buf,
                    shape.kv_row,
                    params,
                    pos,
                    k,
                    u.log.len() as int,
                ),
            );
            r.1 is Ok ==> col is Ok && qkv is Ok && r == (
                rotated,
                Ok::<LayerAttnHalfOutsK, EncodeError>(
                    LayerAttnHalfOutsK {
                        normed_k: col->Ok_0.2,
                        split_k: col->Ok_0.0,
                        qr_normed_k: qkv->Ok_0.0,
                        q_heads_k: qkv->Ok_0.1,
                        kv_normed_rotated_k: kv,
                    },
                ),
            )
        }),
        ({
            let r = t.encode_layer_attn_half(prev, w, is_f16, shape, params, pos);
            let (u, col) = t.hc_collapse_norm(
                prev,
                w.hc_fn,
                w.hc_scale,
                w.hc_base,
                w.hc_norm_gamma,
                shape.n_hc,
                shape.n_embd,
                shape.sinkhorn_iters,
                shape.hc_eps,
                shape.rms_eps,
                w.unit_gamma_hc,
                is_f16,
            );
            let (u, qkv) = u.encode_attn_qkv_chain(
                col->Ok_0.2,
                w.q_a,
                w.gamma_q,
                w.q_b,
                w.kv,
                shape.n_lora_q,
                shape.n_head,
                shape.head_dim,
                shape.rms_eps,
                shape.kv_row,
            );
            let (u, kv) = u.alloc_f32(w.gamma_kv.n_elements);
            let u = u.followed_by(
                norm_of_rows(
                    qkv->Ok_0.2.buf,
                    w.gamma_kv.buf,
                    kv.buf,
                    w.gamma_kv.n_elements,
                    1,
                    shape.rms_eps,
                ),
            );
            let rotated = u.followed_by(
                kv_rotation(kv.buf, shape.kv_row, params, pos, u.log.len() as int)(0),
            );
            r.1 is Ok ==> col is Ok && qkv is Ok && r == (
                rotated,
                Ok::<LayerAttnHalfOuts, EncodeError>(
                    LayerAttnHalfOuts {
                        normed: col->Ok_0.2,
                        split: col->Ok_0.0,
                        qr_normed: qkv->Ok_0.0,
                        q_heads: qkv->Ok_0.1,
                        kv_normed_rotated: kv,
                    },
                ),
            )
        }),
{
    lemma_half_k(t, prev, w, shape, params, pos, k, is_f16);
    lemma_half_one(t, prev, w, shape, params, pos, is_f16);
}

proof fn lemma_half_k(
    t: Trace,
    prev: DeferredBuf,
    w: AttnWeights,
    shape: AttnShape,
    params: LayerParams,
    pos: u32,
    k: u64,
    is_f16: bool,
)
    requires
        0 < k,
        0 < params.n_rot <= shape.kv_row,
        extent(k),
        extent(shape.kv_row),
        !t.config.profile_fine,
        !t.config.rope_kv_order,
    ensures
        ({
            let r = t.encode_layer_attn_half_k(prev, w, shape, params, pos, k, is_f16);
            let (u, col) = t.arm(PoolKey::HcAttnNormed).hc_collapse_norm_k(
                prev,
                w.hc_fn,
                w.hc_scale,
                w.hc_base,
                w.hc_norm_gamma,
                shape.n_hc,
                shape.n_embd,
                shape.sinkhorn_iters,
                shape.hc_eps,
                shape.rms_eps,
                w.unit_gamma_hc,
                k,
                is_f16,
            );
            let (u, qkv) = u.encode_attn_qkv_chain_k(
                col->Ok_0.2,
                w.q_a,
                w.gamma_q,
                w.q_b,
                w.kv,
                shape.n_lora_q,
                shape.n_head,
                shape.head_dim,
                shape.rms_eps,
                shape.kv_row,
                shape.n_embd,
                k,
            );
            let (u, kv) = u.arm(PoolKey::AttnKvNorm).alloc_attn_out((k * shape.kv_row) as u64);
            let u = u.followed_by(
                norm_of_rows(
                    qkv->Ok_0.2.buf,
                    w.gamma_kv.buf,
                    kv.buf,
                    shape.kv_row,
                    k,
                    shape.rms_eps,
                ),
            );
            let rotated = u.followed_by(
                kv_rotations(
                    u.config,
                    kv.buf,
                    shape.kv_row,
                    params,
                    pos,
                    k,
                    u.log.len() as int,
                ),
            );
            r.1 is Ok ==> col is Ok && qkv is Ok && r == (
                rotated,
                Ok::<LayerAttnHalfOutsK, EncodeError>(
                    LayerAttnHalfOutsK {
                        normed_k: col->Ok_0.2,
                        split_k: col->Ok_0.0,
                        qr_normed_k: qkv->Ok_0.0,
                        q_heads_k: qkv->Ok_0.1,
                        kv_normed_rotated_k: kv,
                    },
                ),
            )
        }),
{
    reveal(Trace::encode_layer_attn_half_k);
    reveal(Trace::rope_kv);
    let (u, col) = t.arm(PoolKey::HcAttnNormed).hc_collapse_norm_k(
        prev,
        w.hc_fn,
        w.hc_scale,
        w.hc_base,
        w.hc_norm_gamma,
        shape.n_hc,
        shape.n_embd,
        shape.sinkhorn_iters,
        shape.hc_eps,
        shape.rms_eps,
        w.unit_gamma_hc,
        k,
        is_f16,
    );
    let (u, qkv) = u.encode_attn_qkv_chain_k(
        col->Ok_0.2,
        w.q_a,
        w.gamma_q,
        w.q_b,
        w.kv,
        shape.n_lora_q,
        shape.n_head,
        shape.head_dim,
        shape.rms_eps,
        shape.kv_row,
        shape.n_embd,
        k,
    );
    let armed = u.arm(PoolKey::AttnKvNorm);
    lemma_norm_rows_k(armed, qkv->Ok_0.2, w.gamma_kv, shape.kv_row, k, shape.rms_eps);
    let (v, kv) = armed.rms_norm_mul_k(
        qkv->Ok_0.2,
        w.gamma_kv,
        shape.kv_row,
        k,
        shape.rms_eps,
    );
    if kv is Ok {
        law_rotation_addresses(v, kv->Ok_0, shape.kv_row, params, pos, k);
    }
}

proof fn lemma_half_one(
    t: Trace,
    prev: DeferredBuf,
    w: AttnWeights,
    shape: AttnShape,
    params: LayerParams,
    pos: u32,
    is_f16: bool,
)
    requires
        !t.config.profile_fine,
    ensures
        ({
            let r = t.encode_layer_attn_half(prev, w, is_f16, shape, params, pos);
            let (u, col) = t.hc_collapse_norm(
                prev,
                w.hc_fn,
                w.hc_scale,
                w.hc_base,
                w.hc_norm_gamma,
                shape.n_hc,
                shape.n_embd,
                shape.sinkhorn_iters,
                shape.hc_eps,
                shape.rms_eps,
                w.unit_gamma_hc,
                is_f16,
            );
            let (u, qkv) = u.encode_attn_qkv_chain(
                col->Ok_0.2,
                w.q_a,
                w.gamma_q,
                w.q_b,
                w.kv,
                shape.n_lora_q,
                shape.n_head,
                shape.head_dim,
                shape.rms_eps,
                shape.kv_row,
            );
            let (u, kv) = u.alloc_f32(w.gamma_kv.n_elements);
            let u = u.followed_by(
                norm_of_rows(
                    qkv->Ok_0.2.buf,
                    w.gamma_kv.buf,
                    kv.buf,
                    w.gamma_kv.n_elements,
                    1,
                    shape.rms_eps,
                ),
            );
            let rotated = u.followed_by(
                kv_rotation(kv.buf, shape.kv_row, params, pos, u.log.len() as int)(0),
            );
            r.1 is Ok ==> col is Ok && qkv is Ok && r == (
                rotated,
                Ok::<LayerAttnHalfOuts, EncodeError>(
                    LayerAttnHalfOuts {
                        normed: col->Ok_0.2,
                        split: col->Ok_0.0,
                        qr_normed: qkv->Ok_0.0,
                        q_heads: qkv->Ok_0.1,
                        kv_normed_rotated: kv,
                    },
                ),
            )
        }),
{
    reveal(Trace::encode_layer_attn_half);
    reveal(Trace::rope_tail_in_place);
    let (u, col) = t.hc_collapse_norm(
        prev,
        w.hc_fn,
        w.hc_scale,
        w.hc_base,
        w.hc_norm_gamma,
        shape.n_hc,
        shape.n_embd,
        shape.sinkhorn_iters,
        shape.hc_eps,
        shape.rms_eps,
        w.unit_gamma_hc,
        is_f16,
    );
    let (u, qkv) = u.encode_attn_qkv_chain(
        col->Ok_0.2,
        w.q_a,
        w.gamma_q,
        w.q_b,
        w.kv,
        shape.n_lora_q,
        shape.n_head,
        shape.head_dim,
        shape.rms_eps,
        shape.kv_row,
    );
    lemma_norm_row(u, qkv->Ok_0.2, w.gamma_kv, shape.rms_eps);
    let (v, kv) = u.rms_norm_mul(qkv->Ok_0.2, w.gamma_kv, shape.rms_eps);
    if kv is Ok {
        lemma_rotation(
            v,
            kv->Ok_0.buf,
            kv_tail(shape.kv_row, params.n_rot, 0) as u64,
            spec_rope_args(params, params.n_rot as u64, pos, 1, 4, false),
            (1, 1, 1),
        );
    }
}

} // verus!
