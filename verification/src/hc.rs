//! The residual streams: expansion after a block, and collapse before one.

use crate::arith::{elements, extent, lemma_product, lemma_row, row_offset, times, times3};
use crate::command::{Args, BufId, Command, DeferredBuf, F32, Groups, HcExpandArgs, HcSplitArgs};
use crate::error::{Check, EncodeError, unfit};
use crate::kernel::{Consts, Kernel, Pipe};
use crate::pool::{PoolKey, Pools};
use crate::scope::BatchScope;
use crate::trace::Trace;
use vstd::prelude::*;

verus! {

broadcast use {crate::trace::group_encodes, crate::trace::group_aside};

/// The mixing weights of `n_hc` streams: one row in, one row out, and one matrix.
pub open spec fn mix_hc(n_hc: u64) -> int {
    2 * n_hc + n_hc * n_hc
}

/// Streams whose mixing weights, as a kernel dimension, fit.
pub open spec fn streams(n_hc: u64) -> bool {
    extent(n_hc) && mix_hc(n_hc) <= crate::arith::MAX_EXTENT
}

fn mix_of(n_hc: u64) -> (r: u64)
    requires
        streams(n_hc),
    ensures
        r == mix_hc(n_hc),
        extent(r),
{
    2 * n_hc + times(n_hc, n_hc)
}

/// The arguments of an expansion of one position, with or without a second block.
pub open spec fn spec_hc_args(n_hc: u64, d_embd: u64, add: bool) -> HcExpandArgs {
    let row = (d_embd * 4) as u64;
    let plane = (n_hc * d_embd * 4) as u64;
    HcExpandArgs {
        n_embd: d_embd as i64,
        n_hc: n_hc as i64,
        n_tokens: 1,
        nb_block0: 4,
        nb_block1: row,
        nb_add0: 4,
        nb_add1: row,
        nb_res0: 4,
        nb_res1: row,
        nb_res2: plane,
        nb_post0: 4,
        nb_post1: (n_hc * 4) as u64,
        nb_comb0: 4,
        nb_comb1: (n_hc * 4) as u64,
        nb_comb2: (n_hc * n_hc * 4) as u64,
        nb0: 4,
        nb1: row,
        nb2: plane,
        has_add: if add {
            1
        } else {
            0
        },
    }
}

/// The arguments of an expansion of `k` positions whose mixing weights lie
/// interleaved, one row of them per position.
pub open spec fn spec_hc_args_k(n_hc: u64, d_embd: u64, add: bool, k: u64) -> HcExpandArgs {
    HcExpandArgs {
        n_tokens: k as i64,
        nb_post1: (mix_hc(n_hc) * 4) as u64,
        nb_comb2: (mix_hc(n_hc) * 4) as u64,
        ..spec_hc_args(n_hc, d_embd, add)
    }
}

fn hc_args(n_hc: u64, d_embd: u64, add: bool) -> (r: HcExpandArgs)
    requires
        extent(n_hc),
        extent(d_embd),
    ensures
        r == spec_hc_args(n_hc, d_embd, add),
{
    let row: u64 = d_embd * 4;
    let plane: u64 = times(n_hc, d_embd) * 4;
    HcExpandArgs {
        n_embd: d_embd as i64,
        n_hc: n_hc as i64,
        n_tokens: 1,
        nb_block0: 4,
        nb_block1: row,
        nb_add0: 4,
        nb_add1: row,
        nb_res0: 4,
        nb_res1: row,
        nb_res2: plane,
        nb_post0: 4,
        nb_post1: n_hc * 4,
        nb_comb0: 4,
        nb_comb1: n_hc * 4,
        nb_comb2: times(n_hc, n_hc) * 4,
        nb0: 4,
        nb1: row,
        nb2: plane,
        has_add: if add {
            1
        } else {
            0
        },
    }
}

/// The arguments of a split, weighted sum and norm of `rows` positions.
pub open spec fn spec_split_args(
    n_hc: u64,
    n_embd: u64,
    rows: u64,
    sinkhorn_iters: i32,
    hc_eps: F32,
    rms_eps: F32,
) -> HcSplitArgs {
    let mix = (mix_hc(n_hc) * 4) as u64;
    let row = (n_embd * 4) as u64;
    HcSplitArgs {
        n_embd: n_embd as i64,
        n_hc: n_hc as i32,
        sinkhorn_iters,
        n_rows: rows as i64,
        mix_hc: mix_hc(n_hc) as i64,
        nb_mix1: mix,
        nb_split1: mix,
        nb_x0: 4,
        nb_x1: row,
        nb_x2: (n_hc * n_embd * 4) as u64,
        nb0: 4,
        nb1: row,
        nb_norm1: row,
        eps: hc_eps,
        norm_eps: rms_eps,
    }
}

fn split_args(
    n_hc: u64,
    n_embd: u64,
    rows: u64,
    sinkhorn_iters: i32,
    hc_eps: F32,
    rms_eps: F32,
) -> (r: HcSplitArgs)
    requires
        streams(n_hc),
        extent(n_embd),
        extent(rows),
    ensures
        r == spec_split_args(n_hc, n_embd, rows, sinkhorn_iters, hc_eps, rms_eps),
{
    let m: u64 = mix_of(n_hc);
    let row: u64 = n_embd * 4;
    HcSplitArgs {
        n_embd: n_embd as i64,
        n_hc: n_hc as i32,
        sinkhorn_iters,
        n_rows: rows as i64,
        mix_hc: m as i64,
        nb_mix1: m * 4,
        nb_split1: m * 4,
        nb_x0: 4,
        nb_x1: row,
        nb_x2: times(n_hc, n_embd) * 4,
        nb0: 4,
        nb1: row,
        nb_norm1: row,
        eps: hc_eps,
        norm_eps: rms_eps,
    }
}

/// The buffers of an expansion, with the byte at which each is read.
pub struct HcBinds {
    pub block: (BufId, u64),
    pub res: (BufId, u64),
    pub post: (BufId, u64),
    pub comb: (BufId, u64),
    pub add: (BufId, u64),
    pub out: (BufId, u64),
}

/// What the expansion of position `i` of several binds, launched on its own.
pub open spec fn hc_binds_at(
    block: BufId,
    add: BufId,
    res: BufId,
    split: BufId,
    out: BufId,
    n_hc: u64,
    d_embd: u64,
    i: int,
) -> HcBinds {
    HcBinds {
        block: (block, (i * (d_embd * 4)) as u64),
        res: (res, (i * (n_hc * d_embd * 4)) as u64),
        post: (split, (i * (mix_hc(n_hc) * 4) + n_hc * 4) as u64),
        comb: (split, (i * (mix_hc(n_hc) * 4) + 2 * n_hc * 4) as u64),
        add: (add, (i * (d_embd * 4)) as u64),
        out: (out, (i * (n_hc * d_embd * 4)) as u64),
    }
}

/// The name of the carrier that comes next.
pub open spec fn carrier_key(slot: bool) -> PoolKey {
    if slot {
        PoolKey::HcCarrierA
    } else {
        PoolKey::HcCarrierB
    }
}

/// `b` carries the residual streams from `before` to `after`: with pooling on
/// it is the carrier whose turn it was, and then it is the other's turn;
/// otherwise it is a buffer made since.
pub open spec fn carried(before: Trace, after: Trace, b: DeferredBuf) -> bool {
    if before.config.pool_scratch {
        &&& b.buf matches BufId::Pooled(key, _)
        &&& key == carrier_key(before.pools.carrier)
        &&& after.pools.carrier == !before.pools.carrier
    } else {
        &&& b.buf matches BufId::Fresh(i)
        &&& before.log.len() <= i < after.log.len()
        &&& after.pools.carrier == before.pools.carrier
    }
}

/// The three results of a collapse: mixing weights, collapsed row, normed row.
pub type Collapsed = (DeferredBuf, DeferredBuf, DeferredBuf);

impl Trace {
    pub open spec fn hc_launch(self, args: HcExpandArgs, b: HcBinds, n_tg: u64) -> Trace {
        self.put(Command::Encoder).put(Command::Pipeline(Pipe::Loaded(Kernel::HcExpand))).put(
            Command::Bytes(0, Args::HcExpand(args)),
        ).put(Command::Buffer(1, b.block.0, b.block.1)).put(
            Command::Buffer(2, b.res.0, b.res.1),
        ).put(Command::Buffer(3, b.post.0, b.post.1)).put(
            Command::Buffer(4, b.comb.0, b.comb.1),
        ).put(Command::Buffer(5, b.add.0, b.add.1)).put(Command::Buffer(6, b.out.0, b.out.1)).put(
            Command::Dispatch((n_tg, 1, 1), (256, 1, 1)),
        ).put(Command::EndEncoder)
    }

    /// The expansion of one position into a fresh buffer.
    pub open spec fn hc_expand_one(
        self,
        block: DeferredBuf,
        res: DeferredBuf,
        post: (BufId, u64),
        comb: (BufId, u64),
        add: Option<DeferredBuf>,
        n_hc: u64,
        d_embd: u64,
    ) -> (Trace, Result<DeferredBuf, EncodeError>) {
        if !self.has(Kernel::HcExpand) {
            self.missing(Kernel::HcExpand)
        } else {
            let n = (n_hc * d_embd) as u64;
            let (t, out) = self.alloc_f32(n);
            let second = match add {
                Some(a) => a.buf,
                None => block.buf,
            };
            (
                t.hc_launch(
                    spec_hc_args(n_hc, d_embd, add is Some),
                    HcBinds {
                        block: (block.buf, 0),
                        res: (res.buf, 0),
                        post,
                        comb,
                        add: (second, 0),
                        out: (out.buf, 0),
                    },
                    ((n + 255) / 256) as u64,
                ),
                Ok(out),
            )
        }
    }

    #[verifier::opaque]
    pub open spec fn hc_expand_add(
        self,
        shared_out: DeferredBuf,
        routed_out: DeferredBuf,
        after_attn_hc: DeferredBuf,
        post: DeferredBuf,
        comb: DeferredBuf,
        n_hc: u64,
        d_embd: u64,
    ) -> (Trace, Result<DeferredBuf, EncodeError>) {
        if shared_out.n_elements != d_embd {
            self.refuse(Check::InputLen, shared_out.n_elements as int, d_embd as int)
        } else if routed_out.n_elements != d_embd {
            self.refuse(Check::SecondInputLen, routed_out.n_elements as int, d_embd as int)
        } else if after_attn_hc.n_elements != n_hc * d_embd {
            self.refuse(Check::ResidualLen, after_attn_hc.n_elements as int, n_hc * d_embd)
        } else if post.n_elements != n_hc {
            self.refuse(Check::PostLen, post.n_elements as int, n_hc as int)
        } else if comb.n_elements != n_hc * n_hc {
            self.refuse(Check::CombLen, comb.n_elements as int, n_hc * n_hc)
        } else {
            self.hc_expand_one(
                shared_out,
                after_attn_hc,
                (post.buf, 0),
                (comb.buf, 0),
                Some(routed_out),
                n_hc,
                d_embd,
            )
        }
    }

    #[verifier::opaque]
    pub open spec fn hc_expand_attn(
        self,
        attn_out: DeferredBuf,
        cur_hc: DeferredBuf,
        post: DeferredBuf,
        comb: DeferredBuf,
        n_hc: u64,
        d_embd: u64,
    ) -> (Trace, Result<DeferredBuf, EncodeError>) {
        if attn_out.n_elements != d_embd {
            self.refuse(Check::InputLen, attn_out.n_elements as int, d_embd as int)
        } else if cur_hc.n_elements != n_hc * d_embd {
            self.refuse(Check::ResidualLen, cur_hc.n_elements as int, n_hc * d_embd)
        } else if post.n_elements != n_hc {
            self.refuse(Check::PostLen, post.n_elements as int, n_hc as int)
        } else if comb.n_elements != n_hc * n_hc {
            self.refuse(Check::CombLen, comb.n_elements as int, n_hc * n_hc)
        } else {
            self.hc_expand_one(
                attn_out,
                cur_hc,
                (post.buf, 0),
                (comb.buf, 0),
                None,
                n_hc,
                d_embd,
            )
        }
    }

    pub open spec fn hc_expand_core(
        self,
        block: DeferredBuf,
        res: DeferredBuf,
        post: (BufId, u64),
        comb: (BufId, u64),
        add: Option<DeferredBuf>,
        n_hc: u64,
        d_embd: u64,
    ) -> (Trace, Result<DeferredBuf, EncodeError>) {
        if block.n_elements != d_embd {
            self.refuse(Check::InputLen, block.n_elements as int, d_embd as int)
        } else if res.n_elements != n_hc * d_embd {
            self.refuse(Check::ResidualLen, res.n_elements as int, n_hc * d_embd)
        } else {
            self.hc_expand_one(block, res, post, comb, add, n_hc, d_embd)
        }
    }

    /// An expansion whose mixing weights lie in one buffer: `n_hc` weights in,
    /// `n_hc` out, and the matrix.
    pub open spec fn hc_expand_split(
        self,
        block: DeferredBuf,
        res: DeferredBuf,
        split: DeferredBuf,
        add: Option<DeferredBuf>,
        n_hc: u64,
        d_embd: u64,
    ) -> (Trace, Result<DeferredBuf, EncodeError>) {
        if split.n_elements != mix_hc(n_hc) {
            self.refuse(Check::SplitLen, split.n_elements as int, mix_hc(n_hc) as int)
        } else {
            self.hc_expand_core(
                block,
                res,
                (split.buf, (n_hc * 4) as u64),
                (split.buf, (2 * n_hc * 4) as u64),
                add,
                n_hc,
                d_embd,
            )
        }
    }

    #[verifier::opaque]
    pub open spec fn hc_expand_add_split(
        self,
        shared_out: DeferredBuf,
        routed_out: DeferredBuf,
        after_attn_hc: DeferredBuf,
        split: DeferredBuf,
        n_hc: u64,
        d_embd: u64,
    ) -> (Trace, Result<DeferredBuf, EncodeError>) {
        self.hc_expand_split(shared_out, after_attn_hc, split, Some(routed_out), n_hc, d_embd)
    }

    #[verifier::opaque]
    pub open spec fn hc_expand_attn_split(
        self,
        attn_out: DeferredBuf,
        cur_hc: DeferredBuf,
        split: DeferredBuf,
        n_hc: u64,
        d_embd: u64,
    ) -> (Trace, Result<DeferredBuf, EncodeError>) {
        self.hc_expand_split(attn_out, cur_hc, split, None, n_hc, d_embd)
    }

    /// The expansions of several positions one by one, from position `i` on.
    pub open spec fn hc_rows(
        self,
        block: BufId,
        add: BufId,
        res: BufId,
        split: BufId,
        out: BufId,
        has_add: bool,
        n_hc: u64,
        d_embd: u64,
        k: u64,
        i: int,
    ) -> Trace
        decreases k - i,
    {
        if i >= k {
            self
        } else {
            self.hc_launch(
                spec_hc_args(n_hc, d_embd, has_add),
                hc_binds_at(block, add, res, split, out, n_hc, d_embd, i),
                ((n_hc * d_embd + 255) / 256) as u64,
            ).hc_rows(block, add, res, split, out, has_add, n_hc, d_embd, k, i + 1)
        }
    }

    /// The expansions of several positions: in one launch, or one by one.
    pub open spec fn hc_expand_k(
        self,
        block: BufId,
        add: BufId,
        res: BufId,
        split: BufId,
        out: BufId,
        has_add: bool,
        n_hc: u64,
        d_embd: u64,
        k: u64,
    ) -> Trace {
        if self.config.hc_expand_per_k {
            self.hc_rows(block, add, res, split, out, has_add, n_hc, d_embd, k, 0)
        } else {
            self.hc_launch(
                spec_hc_args_k(n_hc, d_embd, has_add, k),
                HcBinds {
                    block: (block, 0),
                    res: (res, 0),
                    post: (split, (n_hc * 4) as u64),
                    comb: (split, (2 * n_hc * 4) as u64),
                    add: (add, 0),
                    out: (out, 0),
                },
                ((n_hc * d_embd * k + 255) / 256) as u64,
            )
        }
    }

    /// The buffer that carries the residual streams to the next layer: with
    /// pooling on, the two carriers in turn.
    pub open spec fn carrier(self, n: u64) -> (Trace, DeferredBuf) {
        if self.config.pool_scratch {
            let key = if self.pools.carrier {
                PoolKey::HcCarrierA
            } else {
                PoolKey::HcCarrierB
            };
            Trace {
                pools: Pools { carrier: !self.pools.carrier, ..self.pools },
                ..self
            }.pooled_scratch_f32(key, n)
        } else {
            self.alloc_f32(n)
        }
    }

    #[verifier::opaque]
    pub open spec fn hc_expand_add_split_k(
        self,
        shared_out_k: DeferredBuf,
        routed_out_k: DeferredBuf,
        after_attn_k: DeferredBuf,
        split_k: DeferredBuf,
        n_hc: u64,
        d_embd: u64,
        k: u64,
    ) -> (Trace, Result<DeferredBuf, EncodeError>) {
        if shared_out_k.n_elements != k * d_embd {
            self.refuse(Check::InputLen, shared_out_k.n_elements as int, k * d_embd)
        } else if routed_out_k.n_elements != k * d_embd {
            self.refuse(Check::SecondInputLen, routed_out_k.n_elements as int, k * d_embd)
        } else if after_attn_k.n_elements != k * n_hc * d_embd {
            self.refuse(Check::ResidualLen, after_attn_k.n_elements as int, k * n_hc * d_embd)
        } else if split_k.n_elements != k * mix_hc(n_hc) {
            self.refuse(Check::SplitLen, split_k.n_elements as int, k * mix_hc(n_hc))
        } else if !self.has(Kernel::HcExpand) {
            self.missing(Kernel::HcExpand)
        } else {
            let (t, out) = self.carrier((k * n_hc * d_embd) as u64);
            (
                t.hc_expand_k(
                    shared_out_k.buf,
                    routed_out_k.buf,
                    after_attn_k.buf,
                    split_k.buf,
                    out.buf,
                    true,
                    n_hc,
                    d_embd,
                    k,
                ),
                Ok(out),
            )
        }
    }

    #[verifier::opaque]
    pub open spec fn hc_expand_attn_split_k(
        self,
        attn_out_k: DeferredBuf,
        cur_hc_k: DeferredBuf,
        split_k: DeferredBuf,
        n_hc: u64,
        d_embd: u64,
        k: u64,
    ) -> (Trace, Result<DeferredBuf, EncodeError>) {
        if attn_out_k.n_elements != k * d_embd {
            self.refuse(Check::InputLen, attn_out_k.n_elements as int, k * d_embd)
        } else if cur_hc_k.n_elements != k * n_hc * d_embd {
            self.refuse(Check::ResidualLen, cur_hc_k.n_elements as int, k * n_hc * d_embd)
        } else if split_k.n_elements != k * mix_hc(n_hc) {
            self.refuse(Check::SplitLen, split_k.n_elements as int, k * mix_hc(n_hc))
        } else if !self.has(Kernel::HcExpand) {
            self.missing(Kernel::HcExpand)
        } else {
            let (t, out) = self.pooled_scratch_f32(
                PoolKey::HcAfterAttn,
                (k * n_hc * d_embd) as u64,
            );
            (
                t.hc_expand_k(
                    attn_out_k.buf,
                    attn_out_k.buf,
                    cur_hc_k.buf,
                    split_k.buf,
                    out.buf,
                    false,
                    n_hc,
                    d_embd,
                    k,
                ),
                Ok(out),
            )
        }
    }

    /// A launch of the split, weighted sum and norm.
    pub open spec fn hc_split_launch(
        self,
        kernel: Kernel,
        args: HcSplitArgs,
        mixes: BufId,
        scale: BufId,
        base: BufId,
        x: BufId,
        gamma: BufId,
        outs: (BufId, BufId, BufId),
        memory: u64,
        rows: u64,
        want: u64,
    ) -> Trace {
        self.put(Command::Encoder).put(Command::Pipeline(Pipe::Loaded(kernel))).put(
            Command::Bytes(0, Args::HcSplit(args)),
        ).buf_at(1, mixes).buf_at(2, scale).buf_at(3, base).buf_at(4, x).buf_at(5, outs.0).buf_at(
            6,
            outs.1,
        ).buf_at(7, gamma).buf_at(8, outs.2).put(Command::GroupMemory(memory)).put(
            Command::DispatchUpTo { groups: Groups::Count(rows), want, at_least_one: false },
        ).put(Command::EndEncoder)
    }

    #[verifier::opaque]
    pub open spec fn hc_split_weighted_sum_norm4(
        self,
        mixes: DeferredBuf,
        scale: DeferredBuf,
        base: DeferredBuf,
        x: DeferredBuf,
        gamma: DeferredBuf,
        n_hc: u64,
        n_embd: u64,
        sinkhorn_iters: i32,
        hc_eps: F32,
        rms_eps: F32,
    ) -> (Trace, Result<Collapsed, EncodeError>) {
        let kernel = if n_embd != 4096 {
            Kernel::HcSplitNormAny
        } else {
            Kernel::HcSplitNorm4
        };
        if n_hc != 4 || n_embd % 4 != 0 {
            self.refuse(Check::HeadShape, n_hc as int, 4)
        } else if mixes.n_elements != mix_hc(n_hc) {
            self.refuse(Check::MixesLen, mixes.n_elements as int, mix_hc(n_hc) as int)
        } else if scale.n_elements != 3 {
            self.refuse(Check::ScaleLen, scale.n_elements as int, 3)
        } else if base.n_elements != mix_hc(n_hc) {
            self.refuse(Check::BaseLen, base.n_elements as int, mix_hc(n_hc) as int)
        } else if x.n_elements != n_hc * n_embd {
            self.refuse(Check::InputLen, x.n_elements as int, n_hc * n_embd)
        } else if gamma.n_elements != n_embd {
            self.refuse(Check::GammaLen, gamma.n_elements as int, n_embd as int)
        } else if !self.has(kernel) {
            self.missing(kernel)
        } else {
            let (t, split) = self.alloc_f32(mix_hc(n_hc) as u64);
            let (t, cur) = t.alloc_f32(n_embd);
            let (t, normed) = t.alloc_f32(n_embd);
            (
                t.hc_split_launch(
                    kernel,
                    spec_split_args(n_hc, n_embd, 1, sinkhorn_iters, hc_eps, rms_eps),
                    mixes.buf,
                    scale.buf,
                    base.buf,
                    x.buf,
                    gamma.buf,
                    (split.buf, cur.buf, normed.buf),
                    (n_embd * 4 + 144) as u64,
                    1,
                    if n_embd / 4 < 1024 {
                        n_embd / 4
                    } else {
                        1024
                    },
                ),
                Ok((split, cur, normed)),
            )
        }
    }

    #[verifier::opaque]
    pub open spec fn hc_split_weighted_sum_norm4_into_k(
        self,
        mixes_k: DeferredBuf,
        scale: DeferredBuf,
        base: DeferredBuf,
        x_k: DeferredBuf,
        gamma: DeferredBuf,
        n_hc: u64,
        n_embd: u64,
        sinkhorn_iters: i32,
        hc_eps: F32,
        rms_eps: F32,
        k: u64,
        outs: Collapsed,
    ) -> (Trace, Result<(), EncodeError>) {
        if n_hc != 4 || n_embd != 4096 {
            self.refuse(Check::HeadShape, n_hc as int, 4)
        } else if !self.has(Kernel::HcSplitNorm4) {
            self.missing(Kernel::HcSplitNorm4)
        } else {
            (
                self.hc_split_launch(
                    Kernel::HcSplitNorm4,
                    spec_split_args(n_hc, n_embd, k, sinkhorn_iters, hc_eps, rms_eps),
                    mixes_k.buf,
                    scale.buf,
                    base.buf,
                    x_k.buf,
                    gamma.buf,
                    (outs.0.buf, outs.1.buf, outs.2.buf),
                    16528,
                    k,
                    1024,
                ),
                Ok(()),
            )
        }
    }

    #[verifier::opaque]
    pub open spec fn fused_hc_collapse_stage12(
        self,
        hc_fn: DeferredBuf,
        prev_hc: DeferredBuf,
        hc_dim: u64,
        mix: u64,
        eps: F32,
        hc_fn_is_f16: bool,
    ) -> (Trace, Result<DeferredBuf, EncodeError>) {
        if hc_dim % 4 != 0 {
            self.refuse(Check::InputAlign, hc_dim as int, 4)
        } else if prev_hc.n_elements != hc_dim {
            self.refuse(Check::InputLen, prev_hc.n_elements as int, hc_dim as int)
        } else if hc_fn.n_elements != hc_dim * mix {
            self.refuse(Check::WeightLen, hc_fn.n_elements as int, hc_dim * mix)
        } else {
            let kernel = if hc_fn_is_f16 {
                Kernel::HcCollapseMvF16
            } else {
                Kernel::HcCollapseMvF32
            };
            let (t, out) = self.alloc_f32(mix);
            (
                t.put(Command::Encoder).put(
                    Command::Pipeline(Pipe::Special(kernel, Consts::Plain)),
                ).buf_at(0, hc_fn.buf).buf_at(1, prev_hc.buf).buf_at(2, out.buf).u32_at(
                    3,
                    hc_dim as u32,
                ).f32_at(4, eps).put(Command::Dispatch((mix, 1, 1), (256, 1, 1))).put(
                    Command::EndEncoder,
                ),
                Ok(out),
            )
        }
    }

    /// The first two stages of a collapse: norm, and product with the mixing matrix.
    pub open spec fn hc_mix(
        self,
        prev_hc: DeferredBuf,
        hc_fn: DeferredBuf,
        hc_dim: u64,
        mix: u64,
        rms_eps: F32,
        unit_gamma: DeferredBuf,
        hc_fn_is_f16: bool,
    ) -> (Trace, Result<DeferredBuf, EncodeError>) {
        if self.config.hc_stages_apart {
            let (t, flat) = self.rms_norm_mul(prev_hc, unit_gamma, rms_eps);
            if flat is Err {
                (t, flat)
            } else if hc_fn_is_f16 {
                t.matvec_f16(hc_fn, flat->Ok_0, hc_dim, mix)
            } else {
                t.matvec_f32(hc_fn, flat->Ok_0, hc_dim, mix)
            }
        } else {
            self.fused_hc_collapse_stage12(hc_fn, prev_hc, hc_dim, mix, rms_eps, hc_fn_is_f16)
        }
    }

    #[verifier::opaque]
    pub open spec fn hc_collapse_norm(
        self,
        prev_hc: DeferredBuf,
        hc_fn: DeferredBuf,
        hc_scale: DeferredBuf,
        hc_base: DeferredBuf,
        gamma: DeferredBuf,
        n_hc: u64,
        n_embd: u64,
        sinkhorn_iters: i32,
        hc_eps: F32,
        rms_eps: F32,
        unit_gamma: DeferredBuf,
        hc_fn_is_f16: bool,
    ) -> (Trace, Result<Collapsed, EncodeError>) {
        let hc_dim = (n_hc * n_embd) as u64;
        let mix = mix_hc(n_hc) as u64;
        if prev_hc.n_elements != n_hc * n_embd {
            self.refuse(Check::InputLen, prev_hc.n_elements as int, n_hc * n_embd)
        } else if hc_fn.n_elements != n_hc * n_embd * mix_hc(n_hc) {
            self.refuse(Check::WeightLen, hc_fn.n_elements as int, n_hc * n_embd * mix_hc(n_hc))
        } else if unit_gamma.n_elements != n_hc * n_embd {
            self.refuse(Check::UnitGammaLen, unit_gamma.n_elements as int, n_hc * n_embd)
        } else {
            let (t, m) = self.hc_mix(
                prev_hc,
                hc_fn,
                hc_dim,
                mix,
                rms_eps,
                unit_gamma,
                hc_fn_is_f16,
            );
            if m is Err {
                t.failed(m)
            } else {
                t.hc_split_weighted_sum_norm4(
                    m->Ok_0,
                    hc_scale,
                    hc_base,
                    prev_hc,
                    gamma,
                    n_hc,
                    n_embd,
                    sinkhorn_iters,
                    hc_eps,
                    rms_eps,
                )
            }
        }
    }

    /// Copies what position `i` collapsed to into its rows of the whole.
    #[verifier::opaque]
    pub open spec fn keep_collapsed(
        self,
        from: Collapsed,
        outs: Collapsed,
        mix: u64,
        n_embd: u64,
        i: int,
    ) -> Trace {
        self.put(Command::CloseShared).put(Command::Blit).put(
            Command::Copy {
                src: from.0.buf,
                src_off: 0,
                dst: outs.0.buf,
                dst_off: (i * mix * 4) as u64,
                bytes: (mix * 4) as u64,
            },
        ).put(
            Command::Copy {
                src: from.1.buf,
                src_off: 0,
                dst: outs.1.buf,
                dst_off: (i * n_embd * 4) as u64,
                bytes: (n_embd * 4) as u64,
            },
        ).put(
            Command::Copy {
                src: from.2.buf,
                src_off: 0,
                dst: outs.2.buf,
                dst_off: (i * n_embd * 4) as u64,
                bytes: (n_embd * 4) as u64,
            },
        ).put(Command::EndBlit)
    }

    /// The collapses of several positions one by one, from position `i` on.
    pub open spec fn hc_collapse_rows(
        self,
        prev_hc_k: DeferredBuf,
        hc_fn: DeferredBuf,
        hc_scale: DeferredBuf,
        hc_base: DeferredBuf,
        gamma: DeferredBuf,
        n_hc: u64,
        n_embd: u64,
        sinkhorn_iters: i32,
        hc_eps: F32,
        rms_eps: F32,
        unit_gamma: DeferredBuf,
        hc_fn_is_f16: bool,
        outs: Collapsed,
        k: u64,
        i: int,
    ) -> (Trace, Result<(), EncodeError>)
        decreases k - i,
    {
        if i >= k {
            (self, Ok(()))
        } else {
            let hc_dim = (n_hc * n_embd) as u64;
            let mix = mix_hc(n_hc) as u64;
            let (t, row) = self.alloc_f32(hc_dim);
            let t = t.blit(
                prev_hc_k.buf,
                (i * hc_dim * 4) as u64,
                row.buf,
                0,
                (hc_dim * 4) as u64,
            );
            let (t, r) = t.hc_collapse_norm(
                row,
                hc_fn,
                hc_scale,
                hc_base,
                gamma,
                n_hc,
                n_embd,
                sinkhorn_iters,
                hc_eps,
                rms_eps,
                unit_gamma,
                hc_fn_is_f16,
            );
            if r is Err {
                t.failed(r)
            } else {
                t.keep_collapsed(r->Ok_0, outs, mix, n_embd, i).hc_collapse_rows(
                    prev_hc_k,
                    hc_fn,
                    hc_scale,
                    hc_base,
                    gamma,
                    n_hc,
                    n_embd,
                    sinkhorn_iters,
                    hc_eps,
                    rms_eps,
                    unit_gamma,
                    hc_fn_is_f16,
                    outs,
                    k,
                    i + 1,
                )
            }
        }
    }

    /// The collapses of several positions in three launches.
    pub open spec fn hc_collapse_fused(
        self,
        prev_hc_k: DeferredBuf,
        hc_fn: DeferredBuf,
        hc_scale: DeferredBuf,
        hc_base: DeferredBuf,
        gamma: DeferredBuf,
        n_hc: u64,
        n_embd: u64,
        sinkhorn_iters: i32,
        hc_eps: F32,
        rms_eps: F32,
        unit_gamma: DeferredBuf,
        hc_fn_is_f16: bool,
        outs: Collapsed,
        k: u64,
    ) -> (Trace, Result<(), EncodeError>) {
        let hc_dim = (n_hc * n_embd) as u64;
        let mix = mix_hc(n_hc) as u64;
        let (t, flat) = self.rms_norm_mul_k(prev_hc_k, unit_gamma, hc_dim, k, rms_eps);
        if flat is Err {
            t.failed(flat)
        } else {
            let (t, m) = if hc_fn_is_f16 {
                t.matmul_f16_k(hc_fn, flat->Ok_0, hc_dim, mix, k)
            } else {
                t.matvec_f32_k(hc_fn, flat->Ok_0, hc_dim, mix, k)
            };
            if m is Err {
                t.failed(m)
            } else {
                t.hc_split_weighted_sum_norm4_into_k(
                    m->Ok_0,
                    hc_scale,
                    hc_base,
                    prev_hc_k,
                    gamma,
                    n_hc,
                    n_embd,
                    sinkhorn_iters,
                    hc_eps,
                    rms_eps,
                    k,
                    outs,
                )
            }
        }
    }

    #[verifier::opaque]
    pub open spec fn hc_collapse_norm_k(
        self,
        prev_hc_k: DeferredBuf,
        hc_fn: DeferredBuf,
        hc_scale: DeferredBuf,
        hc_base: DeferredBuf,
        gamma: DeferredBuf,
        n_hc: u64,
        n_embd: u64,
        sinkhorn_iters: i32,
        hc_eps: F32,
        rms_eps: F32,
        unit_gamma: DeferredBuf,
        k: u64,
        hc_fn_is_f16: bool,
    ) -> (Trace, Result<Collapsed, EncodeError>) {
        if prev_hc_k.n_elements != k * (n_hc * n_embd) {
            self.refuse(Check::InputLen, prev_hc_k.n_elements as int, k * (n_hc * n_embd))
        } else {
            let (t, split_k) = self.alloc_f32((k * mix_hc(n_hc)) as u64);
            let (t, cur_k) = t.alloc_f32((k * n_embd) as u64);
            let (t, normed_k) = t.alloc_attn_out((k * n_embd) as u64);
            let outs = (split_k, cur_k, normed_k);
            let fused = !self.config.hc_collapse_per_k && n_hc == 4 && n_embd == 4096 && k
                <= self.config.hc_collapse_fuse_max;
            let (t, r) = if fused {
                t.hc_collapse_fused(
                    prev_hc_k,
                    hc_fn,
                    hc_scale,
                    hc_base,
                    gamma,
                    n_hc,
                    n_embd,
                    sinkhorn_iters,
                    hc_eps,
                    rms_eps,
                    unit_gamma,
                    hc_fn_is_f16,
                    outs,
                    k,
                )
            } else {
                t.hc_collapse_rows(
                    prev_hc_k,
                    hc_fn,
                    hc_scale,
                    hc_base,
                    gamma,
                    n_hc,
                    n_embd,
                    sinkhorn_iters,
                    hc_eps,
                    rms_eps,
                    unit_gamma,
                    hc_fn_is_f16,
                    outs,
                    k,
                    0,
                )
            };
            if r is Err {
                t.failed(r)
            } else {
                (t, Ok(outs))
            }
        }
    }
}

impl BatchScope {
    fn hc_launch(&mut self, args: HcExpandArgs, b: HcBinds, n_tg: u64)
        ensures
            final(self)@ == old(self)@.hc_launch(args, b, n_tg),
            final(self)@.encodes(old(self)@),
            final(self)@.pools.carrier == old(self)@.pools.carrier,
    {
        self.put(Command::Encoder);
        self.put(Command::Pipeline(Pipe::Loaded(Kernel::HcExpand)));
        self.put(Command::Bytes(0, Args::HcExpand(args)));
        self.put(Command::Buffer(1, b.block.0, b.block.1));
        self.put(Command::Buffer(2, b.res.0, b.res.1));
        self.put(Command::Buffer(3, b.post.0, b.post.1));
        self.put(Command::Buffer(4, b.comb.0, b.comb.1));
        self.put(Command::Buffer(5, b.add.0, b.add.1));
        self.put(Command::Buffer(6, b.out.0, b.out.1));
        self.put(Command::Dispatch((n_tg, 1, 1), (256, 1, 1)));
        self.put(Command::EndEncoder);
    }

    fn hc_expand_one(
        &mut self,
        block: &DeferredBuf,
        res: &DeferredBuf,
        post: (BufId, u64),
        comb: (BufId, u64),
        add: Option<DeferredBuf>,
        n_hc: u64,
        d_embd: u64,
    ) -> (r: Result<DeferredBuf, EncodeError>)
        requires
            extent(n_hc),
            extent(d_embd),
        ensures
            (final(self)@, r) == old(self)@.hc_expand_one(
                *block,
                *res,
                post,
                comb,
                add,
                n_hc,
                d_embd,
            ),
            final(self)@.encodes(old(self)@),
            final(self)@.pools.carrier == old(self)@.pools.carrier,
    {
        if !self.has(Kernel::HcExpand) {
            return Err(EncodeError::NotLoaded(Kernel::HcExpand));
        }
        let n: u64 = times(n_hc, d_embd);
        let out: DeferredBuf = self.alloc_f32(n);
        let (second, has_add): (BufId, bool) = match add {
            Some(a) => (a.buf, true),
            None => (block.buf, false),
        };
        self.hc_launch(
            hc_args(n_hc, d_embd, has_add),
            HcBinds {
                block: (block.buf, 0),
                res: (res.buf, 0),
                post,
                comb,
                add: (second, 0),
                out: (out.buf, 0),
            },
            (n + 255) / 256,
        );
        Ok(out)
    }

    /// Expands the sum of a shared and a routed block into the residual streams.
    pub fn hc_expand_add(
        &mut self,
        shared_out: &DeferredBuf,
        routed_out: &DeferredBuf,
        after_attn_hc: &DeferredBuf,
        hc_split_post: &DeferredBuf,
        hc_split_comb: &DeferredBuf,
        n_hc: u64,
        d_embd: u64,
    ) -> (r: Result<DeferredBuf, EncodeError>)
        requires
            extent(n_hc),
            extent(d_embd),
        ensures
            (final(self)@, r) == old(self)@.hc_expand_add(
                *shared_out,
                *routed_out,
                *after_attn_hc,
                *hc_split_post,
                *hc_split_comb,
                n_hc,
                d_embd,
            ),
            r matches Ok(b) ==> b.n_elements == n_hc * d_embd,
            final(self)@.encodes(old(self)@),
            final(self)@.pools.carrier == old(self)@.pools.carrier,
    {
        proof {
            reveal(Trace::hc_expand_add);
        }
        if shared_out.n_elements != d_embd {
            return Err(unfit(Check::InputLen, shared_out.n_elements, d_embd));
        }
        if routed_out.n_elements != d_embd {
            return Err(unfit(Check::SecondInputLen, routed_out.n_elements, d_embd));
        }
        if after_attn_hc.n_elements != times(n_hc, d_embd) {
            return Err(unfit(Check::ResidualLen, after_attn_hc.n_elements, times(n_hc, d_embd)));
        }
        if hc_split_post.n_elements != n_hc {
            return Err(unfit(Check::PostLen, hc_split_post.n_elements, n_hc));
        }
        if hc_split_comb.n_elements != times(n_hc, n_hc) {
            return Err(unfit(Check::CombLen, hc_split_comb.n_elements, times(n_hc, n_hc)));
        }
        self.hc_expand_one(
            shared_out,
            after_attn_hc,
            (hc_split_post.buf, 0),
            (hc_split_comb.buf, 0),
            Some(*routed_out),
            n_hc,
            d_embd,
        )
    }

    /// Expands an attention output into the residual streams.
    pub fn hc_expand_attn(
        &mut self,
        attn_out: &DeferredBuf,
        cur_hc: &DeferredBuf,
        hc_split_post_attn: &DeferredBuf,
        hc_split_comb_attn: &DeferredBuf,
        n_hc: u64,
        d_embd: u64,
    ) -> (r: Result<DeferredBuf, EncodeError>)
        requires
            extent(n_hc),
            extent(d_embd),
        ensures
            (final(self)@, r) == old(self)@.hc_expand_attn(
                *attn_out,
                *cur_hc,
                *hc_split_post_attn,
                *hc_split_comb_attn,
                n_hc,
                d_embd,
            ),
            r matches Ok(b) ==> b.n_elements == n_hc * d_embd,
            final(self)@.encodes(old(self)@),
            final(self)@.pools.carrier == old(self)@.pools.carrier,
    {
        proof {
            reveal(Trace::hc_expand_attn);
        }
        if attn_out.n_elements != d_embd {
            return Err(unfit(Check::InputLen, attn_out.n_elements, d_embd));
        }
        if cur_hc.n_elements != times(n_hc, d_embd) {
            return Err(unfit(Check::ResidualLen, cur_hc.n_elements, times(n_hc, d_embd)));
        }
        if hc_split_post_attn.n_elements != n_hc {
            return Err(unfit(Check::PostLen, hc_split_post_attn.n_elements, n_hc));
        }
        if hc_split_comb_attn.n_elements != times(n_hc, n_hc) {
            return Err(unfit(Check::CombLen, hc_split_comb_attn.n_elements, times(n_hc, n_hc)));
        }
        self.hc_expand_one(
            attn_out,
            cur_hc,
            (hc_split_post_attn.buf, 0),
            (hc_split_comb_attn.buf, 0),
            None,
            n_hc,
            d_embd,
        )
    }

    fn hc_expand_core(
        &mut self,
        block: &DeferredBuf,
        res: &DeferredBuf,
        post: (BufId, u64),
        comb: (BufId, u64),
        add: Option<DeferredBuf>,
        n_hc: u64,
        d_embd: u64,
    ) -> (r: Result<DeferredBuf, EncodeError>)
        requires
            extent(n_hc),
            extent(d_embd),
        ensures
            (final(self)@, r) == old(self)@.hc_expand_core(
                *block,
                *res,
                post,
                comb,
                add,
                n_hc,
                d_embd,
            ),
            final(self)@.encodes(old(self)@),
            final(self)@.pools.carrier == old(self)@.pools.carrier,
    {
        if block.n_elements != d_embd {
            return Err(unfit(Check::InputLen, block.n_elements, d_embd));
        }
        if res.n_elements != times(n_hc, d_embd) {
            return Err(unfit(Check::ResidualLen, res.n_elements, times(n_hc, d_embd)));
        }
        self.hc_expand_one(block, res, post, comb, add, n_hc, d_embd)
    }

    /// [`BatchScope::hc_expand_add`] with the mixing weights in one buffer.
    pub fn hc_expand_add_split(
        &mut self,
        shared_out: &DeferredBuf,
        routed_out: &DeferredBuf,
        after_attn_hc: &DeferredBuf,
        split: &DeferredBuf,
        n_hc: u64,
        d_embd: u64,
    ) -> (r: Result<DeferredBuf, EncodeError>)
        requires
            extent(n_hc),
            extent(d_embd),
        ensures
            (final(self)@, r) == old(self)@.hc_expand_add_split(
                *shared_out,
                *routed_out,
                *after_attn_hc,
                *split,
                n_hc,
                d_embd,
            ),
            r matches Ok(b) ==> b.n_elements == n_hc * d_embd,
            final(self)@.encodes(old(self)@),
            final(self)@.pools.carrier == old(self)@.pools.carrier,
    {
        proof {
            reveal(Trace::hc_expand_add_split);
        }
        if split.n_elements != 2 * n_hc + times(n_hc, n_hc) {
            return Err(unfit(Check::SplitLen, split.n_elements, 2 * n_hc + times(n_hc, n_hc)));
        }
        self.hc_expand_core(
            shared_out,
            after_attn_hc,
            (split.buf, n_hc * 4),
            (split.buf, 2 * n_hc * 4),
            Some(*routed_out),
            n_hc,
            d_embd,
        )
    }

    /// [`BatchScope::hc_expand_attn`] with the mixing weights in one buffer.
    pub fn hc_expand_attn_split(
        &mut self,
        attn_out: &DeferredBuf,
        cur_hc: &DeferredBuf,
        split: &DeferredBuf,
        n_hc: u64,
        d_embd: u64,
    ) -> (r: Result<DeferredBuf, EncodeError>)
        requires
            extent(n_hc),
            extent(d_embd),
        ensures
            (final(self)@, r) == old(self)@.hc_expand_attn_split(
                *attn_out,
                *cur_hc,
                *split,
                n_hc,
                d_embd,
            ),
            r matches Ok(b) ==> b.n_elements == n_hc * d_embd,
            final(self)@.encodes(old(self)@),
            final(self)@.pools.carrier == old(self)@.pools.carrier,
    {
        proof {
            reveal(Trace::hc_expand_attn_split);
        }
        if split.n_elements != 2 * n_hc + times(n_hc, n_hc) {
            return Err(unfit(Check::SplitLen, split.n_elements, 2 * n_hc + times(n_hc, n_hc)));
        }
        self.hc_expand_core(
            attn_out,
            cur_hc,
            (split.buf, n_hc * 4),
            (split.buf, 2 * n_hc * 4),
            None,
            n_hc,
            d_embd,
        )
    }

    fn hc_expand_k(
        &mut self,
        block: BufId,
        add: BufId,
        res: BufId,
        split: BufId,
        out: BufId,
        has_add: bool,
        n_hc: u64,
        d_embd: u64,
        k: u64,
    )
        requires
            streams(n_hc),
            extent(d_embd),
            extent(k),
            elements(k * n_hc * d_embd),
        ensures
            final(self)@ == old(self)@.hc_expand_k(
                block,
                add,
                res,
                split,
                out,
                has_add,
                n_hc,
                d_embd,
                k,
            ),
            final(self)@.encodes(old(self)@),
            final(self)@.pools.carrier == old(self)@.pools.carrier,
    {
        let plane: u64 = times(n_hc, d_embd);
        let mix: u64 = mix_of(n_hc);
        proof {
            assert(k * (n_hc * d_embd * 4) == k * n_hc * d_embd * 4 && n_hc * d_embd * k == k * n_hc
                * d_embd) by (nonlinear_arith);
            lemma_product(k as int, mix as int);
            lemma_product(k as int, d_embd as int);
            assert(k * (mix * 4) == k * mix * 4 && k * (d_embd * 4) == k * d_embd * 4)
                by (nonlinear_arith);
        }
        let args: HcExpandArgs = hc_args(n_hc, d_embd, has_add);
        if !self.config.hc_expand_per_k {
            let fused: HcExpandArgs = HcExpandArgs {
                n_tokens: k as i64,
                nb_post1: mix * 4,
                nb_comb2: mix * 4,
                ..args
            };
            self.hc_launch(
                fused,
                HcBinds {
                    block: (block, 0),
                    res: (res, 0),
                    post: (split, n_hc * 4),
                    comb: (split, 2 * n_hc * 4),
                    add: (add, 0),
                    out: (out, 0),
                },
                (plane * k + 255) / 256,
            );
            return;
        }
        let ghost goal = self@.hc_rows(
            block,
            add,
            res,
            split,
            out,
            has_add,
            n_hc,
            d_embd,
            k,
            0,
        );
        let mut i: u64 = 0;
        while i < k
            invariant
                self@.encodes(old(self)@),
                self@.pools.carrier == old(self)@.pools.carrier,
                i <= k,
                extent(n_hc),
                plane == n_hc * d_embd,
                plane <= 0x3fff_ffff_0000_0001,
                mix == mix_hc(n_hc),
                extent(mix),
                extent(d_embd),
                k * (plane * 4) <= 0x4000_0000_0000_0000,
                k * (mix * 4) <= 0xffff_fffc_0000_0004,
                k * (d_embd * 4) <= u64::MAX,
                args == spec_hc_args(n_hc, d_embd, has_add),
                goal == self@.hc_rows(
                    block,
                    add,
                    res,
                    split,
                    out,
                    has_add,
                    n_hc,
                    d_embd,
                    k,
                    i as int,
                ),
            decreases k - i,
        {
            let row: u64 = row_offset(i, k, d_embd * 4);
            let hc: u64 = row_offset(i, k, plane * 4);
            let sp: u64 = row_offset(i, k, mix * 4);
            proof {
                lemma_row(i + 1, k as int, mix * 4);
                assert((i + 1) * (mix * 4) == i * (mix * 4) + mix * 4) by (nonlinear_arith);
                lemma_product(n_hc as int, n_hc as int);
            }
            self.hc_launch(
                args,
                HcBinds {
                    block: (block, row),
                    res: (res, hc),
                    post: (split, sp + n_hc * 4),
                    comb: (split, sp + 2 * n_hc * 4),
                    add: (add, row),
                    out: (out, hc),
                },
                (plane + 255) / 256,
            );
            i = i + 1;
        }
    }

    fn carrier(&mut self, n: u64) -> (r: DeferredBuf)
        ensures
            (final(self)@, r) == old(self)@.carrier(n),
            r.n_elements == n,
            final(self)@.encodes(old(self)@),
            carried(old(self)@, final(self)@, r),
    {
        let _made: usize = self.log.len();
        if !self.config.pool_scratch {
            return self.alloc_f32(n);
        }
        let slot: bool = self.pools.carrier;
        proof {
            crate::trace::lemma_encodes_itself(self@);
        }
        self.pools.carrier = !slot;
        assert(self@.encodes(old(self)@));
        let key: PoolKey = if slot {
            PoolKey::HcCarrierA
        } else {
            PoolKey::HcCarrierB
        };
        proof {
            reveal(Trace::pooled_scratch_f32);
        }
        self.pooled_scratch_f32(key, n)
    }

    /// [`BatchScope::hc_expand_add_split`] for several positions. The result
    /// carries the residual streams to the next layer.
    pub fn hc_expand_add_split_k(
        &mut self,
        shared_out_k: &DeferredBuf,
        routed_out_k: &DeferredBuf,
        after_attn_k: &DeferredBuf,
        split_k: &DeferredBuf,
        n_hc: u64,
        d_embd: u64,
        k_positions: u64,
    ) -> (r: Result<DeferredBuf, EncodeError>)
        requires
            streams(n_hc),
            extent(d_embd),
            extent(k_positions),
            elements(k_positions * n_hc * d_embd),
        ensures
            (final(self)@, r) == old(self)@.hc_expand_add_split_k(
                *shared_out_k,
                *routed_out_k,
                *after_attn_k,
                *split_k,
                n_hc,
                d_embd,
                k_positions,
            ),
            r matches Ok(b) ==> b.n_elements == k_positions * n_hc * d_embd && carried(
                old(self)@,
                final(self)@,
                b,
            ),
            final(self)@.encodes(old(self)@),
    {
        proof {
            reveal(Trace::hc_expand_add_split_k);
        }
        let k: u64 = k_positions;
        if shared_out_k.n_elements != times(k, d_embd) {
            return Err(unfit(Check::InputLen, shared_out_k.n_elements, times(k, d_embd)));
        }
        if routed_out_k.n_elements != times(k, d_embd) {
            return Err(unfit(Check::SecondInputLen, routed_out_k.n_elements, times(k, d_embd)));
        }
        let n: u64 = times3(k, n_hc, d_embd);
        if after_attn_k.n_elements != n {
            return Err(unfit(Check::ResidualLen, after_attn_k.n_elements, n));
        }
        if split_k.n_elements != times(k, mix_of(n_hc)) {
            return Err(unfit(Check::SplitLen, split_k.n_elements, times(k, mix_of(n_hc))));
        }
        if !self.has(Kernel::HcExpand) {
            return Err(EncodeError::NotLoaded(Kernel::HcExpand));
        }
        let out: DeferredBuf = self.carrier(n);
        self.hc_expand_k(
            shared_out_k.buf,
            routed_out_k.buf,
            after_attn_k.buf,
            split_k.buf,
            out.buf,
            true,
            n_hc,
            d_embd,
            k,
        );
        Ok(out)
    }

    /// [`BatchScope::hc_expand_attn_split`] for several positions.
    pub fn hc_expand_attn_split_k(
        &mut self,
        attn_out_k: &DeferredBuf,
        cur_hc_k: &DeferredBuf,
        split_k: &DeferredBuf,
        n_hc: u64,
        d_embd: u64,
        k_positions: u64,
    ) -> (r: Result<DeferredBuf, EncodeError>)
        requires
            streams(n_hc),
            extent(d_embd),
            extent(k_positions),
            elements(k_positions * n_hc * d_embd),
        ensures
            (final(self)@, r) == old(self)@.hc_expand_attn_split_k(
                *attn_out_k,
                *cur_hc_k,
                *split_k,
                n_hc,
                d_embd,
                k_positions,
            ),
            r matches Ok(b) ==> b.n_elements == k_positions * n_hc * d_embd,
            final(self)@.encodes(old(self)@),
            final(self)@.pools.carrier == old(self)@.pools.carrier,
    {
        proof {
            reveal(Trace::hc_expand_attn_split_k);
        }
        let k: u64 = k_positions;
        if attn_out_k.n_elements != times(k, d_embd) {
            return Err(unfit(Check::InputLen, attn_out_k.n_elements, times(k, d_embd)));
        }
        let n: u64 = times3(k, n_hc, d_embd);
        if cur_hc_k.n_elements != n {
            return Err(unfit(Check::ResidualLen, cur_hc_k.n_elements, n));
        }
        if split_k.n_elements != times(k, mix_of(n_hc)) {
            return Err(unfit(Check::SplitLen, split_k.n_elements, times(k, mix_of(n_hc))));
        }
        if !self.has(Kernel::HcExpand) {
            return Err(EncodeError::NotLoaded(Kernel::HcExpand));
        }
        let out: DeferredBuf = self.pooled_scratch_f32(PoolKey::HcAfterAttn, n);
        self.hc_expand_k(
            attn_out_k.buf,
            attn_out_k.buf,
            cur_hc_k.buf,
            split_k.buf,
            out.buf,
            false,
            n_hc,
            d_embd,
            k,
        );
        Ok(out)
    }

    fn hc_split_launch(
        &mut self,
        kernel: Kernel,
        args: HcSplitArgs,
        mixes: BufId,
        scale: BufId,
        base: BufId,
        x: BufId,
        gamma: BufId,
        outs: (BufId, BufId, BufId),
        memory: u64,
        rows: u64,
        want: u64,
    )
        ensures
            final(self)@ == old(self)@.hc_split_launch(
                kernel,
                args,
                mixes,
                scale,
                base,
                x,
                gamma,
                outs,
                memory,
                rows,
                want,
            ),
            final(self)@.encodes(old(self)@),
            final(self)@.pools.carrier == old(self)@.pools.carrier,
    {
        self.put(Command::Encoder);
        self.put(Command::Pipeline(Pipe::Loaded(kernel)));
        self.put(Command::Bytes(0, Args::HcSplit(args)));
        self.buf_at(1, mixes);
        self.buf_at(2, scale);
        self.buf_at(3, base);
        self.buf_at(4, x);
        self.buf_at(5, outs.0);
        self.buf_at(6, outs.1);
        self.buf_at(7, gamma);
        self.buf_at(8, outs.2);
        self.put(Command::GroupMemory(memory));
        self.put(
            Command::DispatchUpTo { groups: Groups::Count(rows), want, at_least_one: false },
        );
        self.put(Command::EndEncoder);
    }

    /// The last stage of a collapse: mixing weights, weighted sum, norm.
    pub fn hc_split_weighted_sum_norm4(
        &mut self,
        mixes: &DeferredBuf,
        scale: &DeferredBuf,
        base: &DeferredBuf,
        x: &DeferredBuf,
        gamma: &DeferredBuf,
        n_hc: u64,
        n_embd: u64,
        sinkhorn_iters: i32,
        hc_eps: F32,
        rms_eps: F32,
    ) -> (r: Result<Collapsed, EncodeError>)
        requires
            extent(n_embd),
        ensures
            (final(self)@, r) == old(self)@.hc_split_weighted_sum_norm4(
                *mixes,
                *scale,
                *base,
                *x,
                *gamma,
                n_hc,
                n_embd,
                sinkhorn_iters,
                hc_eps,
                rms_eps,
            ),
            r matches Ok(b) ==> b.0.n_elements == mix_hc(n_hc) && b.1.n_elements == n_embd
                && b.2.n_elements == n_embd,
            final(self)@.encodes(old(self)@),
            final(self)@.pools.carrier == old(self)@.pools.carrier,
    {
        proof {
            reveal(Trace::hc_split_weighted_sum_norm4);
        }
        if n_hc != 4 || n_embd % 4 != 0 {
            return Err(unfit(Check::HeadShape, n_hc, 4));
        }
        assert(mix_hc(4) == 24) by (nonlinear_arith)
            requires
                mix_hc(4) == 2 * 4 + 4 * 4,
        ;
        let kernel: Kernel = if n_embd != 4096 {
            Kernel::HcSplitNormAny
        } else {
            Kernel::HcSplitNorm4
        };
        if mixes.n_elements != 24 {
            return Err(unfit(Check::MixesLen, mixes.n_elements, 24));
        }
        if scale.n_elements != 3 {
            return Err(unfit(Check::ScaleLen, scale.n_elements, 3));
        }
        if base.n_elements != 24 {
            return Err(unfit(Check::BaseLen, base.n_elements, 24));
        }
        if x.n_elements != times(n_hc, n_embd) {
            return Err(unfit(Check::InputLen, x.n_elements, times(n_hc, n_embd)));
        }
        if gamma.n_elements != n_embd {
            return Err(unfit(Check::GammaLen, gamma.n_elements, n_embd));
        }
        if !self.has(kernel) {
            return Err(EncodeError::NotLoaded(kernel));
        }
        let split: DeferredBuf = self.alloc_f32(24);
        let cur: DeferredBuf = self.alloc_f32(n_embd);
        let normed: DeferredBuf = self.alloc_f32(n_embd);
        let want: u64 = if n_embd / 4 < 1024 {
            n_embd / 4
        } else {
            1024
        };
        self.hc_split_launch(
            kernel,
            split_args(n_hc, n_embd, 1, sinkhorn_iters, hc_eps, rms_eps),
            mixes.buf,
            scale.buf,
            base.buf,
            x.buf,
            gamma.buf,
            (split.buf, cur.buf, normed.buf),
            n_embd * 4 + 144,
            1,
            want,
        );
        Ok((split, cur, normed))
    }

    /// [`BatchScope::hc_split_weighted_sum_norm4`] for several positions, into given buffers.
    pub fn hc_split_weighted_sum_norm4_into_k(
        &mut self,
        mixes_k: &DeferredBuf,
        scale: &DeferredBuf,
        base: &DeferredBuf,
        x_k: &DeferredBuf,
        gamma: &DeferredBuf,
        n_hc: u64,
        n_embd: u64,
        sinkhorn_iters: i32,
        hc_eps: F32,
        rms_eps: F32,
        k_positions: u64,
        split_k: &DeferredBuf,
        cur_k: &DeferredBuf,
        normed_k: &DeferredBuf,
    ) -> (r: Result<(), EncodeError>)
        requires
            extent(k_positions),
        ensures
            (final(self)@, r) == old(self)@.hc_split_weighted_sum_norm4_into_k(
                *mixes_k,
                *scale,
                *base,
                *x_k,
                *gamma,
                n_hc,
                n_embd,
                sinkhorn_iters,
                hc_eps,
                rms_eps,
                k_positions,
                (*split_k, *cur_k, *normed_k),
            ),
            final(self)@.encodes(old(self)@),
            final(self)@.pools.carrier == old(self)@.pools.carrier,
    {
        proof {
            reveal(Trace::hc_split_weighted_sum_norm4_into_k);
        }
        if n_hc != 4 || n_embd != 4096 {
            return Err(unfit(Check::HeadShape, n_hc, 4));
        }
        assert(mix_hc(4) == 24) by (nonlinear_arith)
            requires
                mix_hc(4) == 2 * 4 + 4 * 4,
        ;
        if !self.has(Kernel::HcSplitNorm4) {
            return Err(EncodeError::NotLoaded(Kernel::HcSplitNorm4));
        }
        self.hc_split_launch(
            Kernel::HcSplitNorm4,
            split_args(n_hc, n_embd, k_positions, sinkhorn_iters, hc_eps, rms_eps),
            mixes_k.buf,
            scale.buf,
            base.buf,
            x_k.buf,
            gamma.buf,
            (split_k.buf, cur_k.buf, normed_k.buf),
            16528,
            k_positions,
            1024,
        );
        Ok(())
    }

    /// The first two stages of a collapse in one launch.
    pub fn fused_hc_collapse_stage12(
        &mut self,
        hc_fn: &DeferredBuf,
        prev_hc: &DeferredBuf,
        hc_dim: u64,
        mix_hc: u64,
        eps: F32,
        hc_fn_is_f16: bool,
    ) -> (r: Result<DeferredBuf, EncodeError>)
        requires
            extent(hc_dim),
            extent(mix_hc),
        ensures
            (final(self)@, r) == old(self)@.fused_hc_collapse_stage12(
                *hc_fn,
                *prev_hc,
                hc_dim,
                mix_hc,
                eps,
                hc_fn_is_f16,
            ),
            r matches Ok(b) ==> b.n_elements == mix_hc,
            final(self)@.encodes(old(self)@),
            final(self)@.pools.carrier == old(self)@.pools.carrier,
    {
        proof {
            reveal(Trace::fused_hc_collapse_stage12);
        }
        if hc_dim % 4 != 0 {
            return Err(unfit(Check::InputAlign, hc_dim, 4));
        }
        if prev_hc.n_elements != hc_dim {
            return Err(unfit(Check::InputLen, prev_hc.n_elements, hc_dim));
        }
        if hc_fn.n_elements != times(hc_dim, mix_hc) {
            return Err(unfit(Check::WeightLen, hc_fn.n_elements, times(hc_dim, mix_hc)));
        }
        let kernel: Kernel = if hc_fn_is_f16 {
            Kernel::HcCollapseMvF16
        } else {
            Kernel::HcCollapseMvF32
        };
        let out: DeferredBuf = self.alloc_f32(mix_hc);
        self.put(Command::Encoder);
        self.put(Command::Pipeline(Pipe::Special(kernel, Consts::Plain)));
        self.buf_at(0, hc_fn.buf);
        self.buf_at(1, prev_hc.buf);
        self.buf_at(2, out.buf);
        self.u32_at(3, hc_dim as u32);
        self.f32_at(4, eps);
        self.put(Command::Dispatch((mix_hc, 1, 1), (256, 1, 1)));
        self.put(Command::EndEncoder);
        Ok(out)
    }

    fn hc_mix(
        &mut self,
        prev_hc: &DeferredBuf,
        hc_fn: &DeferredBuf,
        hc_dim: u64,
        mix: u64,
        rms_eps: F32,
        unit_gamma: &DeferredBuf,
        hc_fn_is_f16: bool,
    ) -> (r: Result<DeferredBuf, EncodeError>)
        requires
            extent(hc_dim),
            extent(mix),
            prev_hc.n_elements == hc_dim,
        ensures
            (final(self)@, r) == old(self)@.hc_mix(
                *prev_hc,
                *hc_fn,
                hc_dim,
                mix,
                rms_eps,
                *unit_gamma,
                hc_fn_is_f16,
            ),
            final(self)@.encodes(old(self)@),
            final(self)@.pools.carrier == old(self)@.pools.carrier,
    {
        if !self.config.hc_stages_apart {
            return self.fused_hc_collapse_stage12(
                hc_fn,
                prev_hc,
                hc_dim,
                mix,
                rms_eps,
                hc_fn_is_f16,
            );
        }
        let flat: DeferredBuf = self.rms_norm_mul(prev_hc, unit_gamma, rms_eps)?;
        if hc_fn_is_f16 {
            self.matvec_f16(hc_fn, &flat, hc_dim, mix)
        } else {
            self.matvec_f32(hc_fn, &flat, hc_dim, mix)
        }
    }

    /// Collapses the residual streams of one position into one normed row.
    pub fn hc_collapse_norm(
        &mut self,
        prev_hc: &DeferredBuf,
        hc_fn: &DeferredBuf,
        hc_scale: &DeferredBuf,
        hc_base: &DeferredBuf,
        hc_norm_gamma: &DeferredBuf,
        n_hc: u64,
        n_embd: u64,
        sinkhorn_iters: i32,
        hc_eps: F32,
        rms_eps: F32,
        unit_gamma_hc_dim: &DeferredBuf,
        hc_fn_is_f16: bool,
    ) -> (r: Result<Collapsed, EncodeError>)
        requires
            streams(n_hc),
            extent(n_embd),
            n_hc * n_embd <= crate::arith::MAX_EXTENT,
        ensures
            (final(self)@, r) == old(self)@.hc_collapse_norm(
                *prev_hc,
                *hc_fn,
                *hc_scale,
                *hc_base,
                *hc_norm_gamma,
                n_hc,
                n_embd,
                sinkhorn_iters,
                hc_eps,
                rms_eps,
                *unit_gamma_hc_dim,
                hc_fn_is_f16,
            ),
            r matches Ok(b) ==> b.0.n_elements == mix_hc(n_hc) && b.1.n_elements == n_embd
                && b.2.n_elements == n_embd,
            final(self)@.encodes(old(self)@),
            final(self)@.pools.carrier == old(self)@.pools.carrier,
    {
        proof {
            reveal(Trace::hc_collapse_norm);
        }
        let hc_dim: u64 = times(n_hc, n_embd);
        let mix: u64 = mix_of(n_hc);
        if prev_hc.n_elements != hc_dim {
            return Err(unfit(Check::InputLen, prev_hc.n_elements, hc_dim));
        }
        if hc_fn.n_elements != times(hc_dim, mix) {
            return Err(unfit(Check::WeightLen, hc_fn.n_elements, times(hc_dim, mix)));
        }
        if unit_gamma_hc_dim.n_elements != hc_dim {
            return Err(unfit(Check::UnitGammaLen, unit_gamma_hc_dim.n_elements, hc_dim));
        }
        let m: DeferredBuf = self.hc_mix(
            prev_hc,
            hc_fn,
            hc_dim,
            mix,
            rms_eps,
            unit_gamma_hc_dim,
            hc_fn_is_f16,
        )?;
        self.hc_split_weighted_sum_norm4(
            &m,
            hc_scale,
            hc_base,
            prev_hc,
            hc_norm_gamma,
            n_hc,
            n_embd,
            sinkhorn_iters,
            hc_eps,
            rms_eps,
        )
    }

    fn hc_collapse_fused(
        &mut self,
        prev_hc_k: &DeferredBuf,
        hc_fn: &DeferredBuf,
        hc_scale: &DeferredBuf,
        hc_base: &DeferredBuf,
        hc_norm_gamma: &DeferredBuf,
        n_hc: u64,
        n_embd: u64,
        sinkhorn_iters: i32,
        hc_eps: F32,
        rms_eps: F32,
        unit_gamma_hc_dim: &DeferredBuf,
        hc_fn_is_f16: bool,
        outs: Collapsed,
        k: u64,
    ) -> (r: Result<(), EncodeError>)
        requires
            streams(n_hc),
            extent(n_embd),
            extent(k),
            n_hc * n_embd <= crate::arith::MAX_EXTENT,
        ensures
            (final(self)@, r) == old(self)@.hc_collapse_fused(
                *prev_hc_k,
                *hc_fn,
                *hc_scale,
                *hc_base,
                *hc_norm_gamma,
                n_hc,
                n_embd,
                sinkhorn_iters,
                hc_eps,
                rms_eps,
                *unit_gamma_hc_dim,
                hc_fn_is_f16,
                outs,
                k,
            ),
            final(self)@.encodes(old(self)@),
            final(self)@.pools.carrier == old(self)@.pools.carrier,
    {
        let hc_dim: u64 = times(n_hc, n_embd);
        let mix: u64 = mix_of(n_hc);
        let flat: DeferredBuf = self.rms_norm_mul_k(
            prev_hc_k,
            unit_gamma_hc_dim,
            hc_dim,
            k,
            rms_eps,
        )?;
        let m: DeferredBuf = if hc_fn_is_f16 {
            self.matmul_f16_k(hc_fn, &flat, hc_dim, mix, k)?
        } else {
            self.matvec_f32_k(hc_fn, &flat, hc_dim, mix, k)?
        };
        self.hc_split_weighted_sum_norm4_into_k(
            &m,
            hc_scale,
            hc_base,
            prev_hc_k,
            hc_norm_gamma,
            n_hc,
            n_embd,
            sinkhorn_iters,
            hc_eps,
            rms_eps,
            k,
            &outs.0,
            &outs.1,
            &outs.2,
        )
    }

    fn keep_collapsed(
        &mut self,
        from: &Collapsed,
        outs: &Collapsed,
        mix: u64,
        n_embd: u64,
        i: u64,
    )
        requires
            extent(mix),
            extent(n_embd),
            extent(i),
        ensures
            final(self)@ == old(self)@.keep_collapsed(*from, *outs, mix, n_embd, i as int),
            final(self)@.encodes(old(self)@),
            final(self)@.pools.carrier == old(self)@.pools.carrier,
    {
        proof {
            reveal(Trace::keep_collapsed);
        }
        self.put(Command::CloseShared);
        self.put(Command::Blit);
        self.put(
            Command::Copy {
                src: from.0.buf,
                src_off: 0,
                dst: outs.0.buf,
                dst_off: times(i, mix) * 4,
                bytes: mix * 4,
            },
        );
        self.put(
            Command::Copy {
                src: from.1.buf,
                src_off: 0,
                dst: outs.1.buf,
                dst_off: times(i, n_embd) * 4,
                bytes: n_embd * 4,
            },
        );
        self.put(
            Command::Copy {
                src: from.2.buf,
                src_off: 0,
                dst: outs.2.buf,
                dst_off: times(i, n_embd) * 4,
                bytes: n_embd * 4,
            },
        );
        self.put(Command::EndBlit);
    }

    fn hc_collapse_rows(
        &mut self,
        prev_hc_k: &DeferredBuf,
        hc_fn: &DeferredBuf,
        hc_scale: &DeferredBuf,
        hc_base: &DeferredBuf,
        hc_norm_gamma: &DeferredBuf,
        n_hc: u64,
        n_embd: u64,
        sinkhorn_iters: i32,
        hc_eps: F32,
        rms_eps: F32,
        unit_gamma_hc_dim: &DeferredBuf,
        hc_fn_is_f16: bool,
        outs: Collapsed,
        k: u64,
    ) -> (r: Result<(), EncodeError>)
        requires
            streams(n_hc),
            extent(n_embd),
            extent(k),
            n_hc * n_embd <= crate::arith::MAX_EXTENT,
        ensures
            (final(self)@, r) == old(self)@.hc_collapse_rows(
                *prev_hc_k,
                *hc_fn,
                *hc_scale,
                *hc_base,
                *hc_norm_gamma,
                n_hc,
                n_embd,
                sinkhorn_iters,
                hc_eps,
                rms_eps,
                *unit_gamma_hc_dim,
                hc_fn_is_f16,
                outs,
                k,
                0,
            ),
            final(self)@.encodes(old(self)@),
            final(self)@.pools.carrier == old(self)@.pools.carrier,
    {
        let hc_dim: u64 = times(n_hc, n_embd);
        let mix: u64 = mix_of(n_hc);
        let ghost goal = self@.hc_collapse_rows(
            *prev_hc_k,
            *hc_fn,
            *hc_scale,
            *hc_base,
            *hc_norm_gamma,
            n_hc,
            n_embd,
            sinkhorn_iters,
            hc_eps,
            rms_eps,
            *unit_gamma_hc_dim,
            hc_fn_is_f16,
            outs,
            k,
            0,
        );
        let mut i: u64 = 0;
        while i < k
            invariant
                self@.encodes(old(self)@),
                self@.pools.carrier == old(self)@.pools.carrier,
                i <= k,
                streams(n_hc),
                extent(n_embd),
                extent(k),
                n_hc * n_embd <= crate::arith::MAX_EXTENT,
                hc_dim == n_hc * n_embd,
                mix == mix_hc(n_hc),
                goal == old(self)@.hc_collapse_rows(
                    *prev_hc_k,
                    *hc_fn,
                    *hc_scale,
                    *hc_base,
                    *hc_norm_gamma,
                    n_hc,
                    n_embd,
                    sinkhorn_iters,
                    hc_eps,
                    rms_eps,
                    *unit_gamma_hc_dim,
                    hc_fn_is_f16,
                    outs,
                    k,
                    0,
                ),
                goal == self@.hc_collapse_rows(
                    *prev_hc_k,
                    *hc_fn,
                    *hc_scale,
                    *hc_base,
                    *hc_norm_gamma,
                    n_hc,
                    n_embd,
                    sinkhorn_iters,
                    hc_eps,
                    rms_eps,
                    *unit_gamma_hc_dim,
                    hc_fn_is_f16,
                    outs,
                    k,
                    i as int,
                ),
            decreases k - i,
        {
            let row: DeferredBuf = self.alloc_f32(hc_dim);
            self.blit(prev_hc_k.buf, times(i, hc_dim) * 4, row.buf, 0, hc_dim * 4);
            let from: Collapsed = self.hc_collapse_norm(
                &row,
                hc_fn,
                hc_scale,
                hc_base,
                hc_norm_gamma,
                n_hc,
                n_embd,
                sinkhorn_iters,
                hc_eps,
                rms_eps,
                unit_gamma_hc_dim,
                hc_fn_is_f16,
            )?;
            self.keep_collapsed(&from, &outs, mix, n_embd, i);
            i = i + 1;
        }
        Ok(())
    }

    /// Collapses the residual streams of several positions.
    pub fn hc_collapse_norm_k(
        &mut self,
        prev_hc_k: &DeferredBuf,
        hc_fn: &DeferredBuf,
        hc_scale: &DeferredBuf,
        hc_base: &DeferredBuf,
        hc_norm_gamma: &DeferredBuf,
        n_hc: u64,
        n_embd: u64,
        sinkhorn_iters: i32,
        hc_eps: F32,
        rms_eps: F32,
        unit_gamma_hc_dim: &DeferredBuf,
        k_positions: u64,
        hc_fn_is_f16: bool,
    ) -> (r: Result<Collapsed, EncodeError>)
        requires
            streams(n_hc),
            extent(n_embd),
            extent(k_positions),
            n_hc * n_embd <= crate::arith::MAX_EXTENT,
        ensures
            (final(self)@, r) == old(self)@.hc_collapse_norm_k(
                *prev_hc_k,
                *hc_fn,
                *hc_scale,
                *hc_base,
                *hc_norm_gamma,
                n_hc,
                n_embd,
                sinkhorn_iters,
                hc_eps,
                rms_eps,
                *unit_gamma_hc_dim,
                k_positions,
                hc_fn_is_f16,
            ),
            r matches Ok(b) ==> b.0.n_elements == k_positions * mix_hc(n_hc) && b.1.n_elements
                == k_positions * n_embd && b.2.n_elements == k_positions * n_embd,
            final(self)@.encodes(old(self)@),
            final(self)@.pools.carrier == old(self)@.pools.carrier,
    {
        proof {
            reveal(Trace::hc_collapse_norm_k);
        }
        let k: u64 = k_positions;
        let hc_dim: u64 = times(n_hc, n_embd);
        if prev_hc_k.n_elements != times(k, hc_dim) {
            return Err(unfit(Check::InputLen, prev_hc_k.n_elements, times(k, hc_dim)));
        }
        let fused: bool = !self.config.hc_collapse_per_k && n_hc == 4 && n_embd == 4096 && k
            <= self.config.hc_collapse_fuse_max;
        let split_k: DeferredBuf = self.alloc_f32(times(k, mix_of(n_hc)));
        let cur_k: DeferredBuf = self.alloc_f32(times(k, n_embd));
        let normed_k: DeferredBuf = self.alloc_attn_out(times(k, n_embd));
        let outs: Collapsed = (split_k, cur_k, normed_k);
        if fused {
            self.hc_collapse_fused(
                prev_hc_k,
                hc_fn,
                hc_scale,
                hc_base,
                hc_norm_gamma,
                n_hc,
                n_embd,
                sinkhorn_iters,
                hc_eps,
                rms_eps,
                unit_gamma_hc_dim,
                hc_fn_is_f16,
                outs,
                k,
            )?;
        } else {
            self.hc_collapse_rows(
                prev_hc_k,
                hc_fn,
                hc_scale,
                hc_base,
                hc_norm_gamma,
                n_hc,
                n_embd,
                sinkhorn_iters,
                hc_eps,
                rms_eps,
                unit_gamma_hc_dim,
                hc_fn_is_f16,
                outs,
                k,
            )?;
        }
        Ok(outs)
    }
}

} // verus!
