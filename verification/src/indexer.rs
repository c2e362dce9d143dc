//! The sparse-attention indexer: scores over the compressed ring, and top-k.

use crate::arith::{extent, is_product3, pow2_above, pow2_at_least, times};
use crate::command::{Args, BufId, Command, DeferredBuf, F32, HostRef};
use crate::config::LayerParams;
use crate::error::{Check, EncodeError, capped3, unfit};
use crate::kernel::{Consts, Kernel, Pipe};
use crate::norm::rope_fits;
use crate::scope::BatchScope;
use crate::trace::Trace;
use vstd::prelude::*;

verus! {

broadcast use crate::trace::group_encodes;

/// Whether a product reads the half-precision copy of its weights.
pub open spec fn reads_half(half: Option<HostRef>, d_in: u64, d_out: u64) -> bool {
    half is Some && d_in % 4 == 0 && d_out % 2 == 0
}

impl Trace {
    /// A product with host weights, from their half-precision copy where there
    /// is one and the shape allows it.
    pub open spec fn host_matvec(
        self,
        w: HostRef,
        half: Option<HostRef>,
        x: DeferredBuf,
        d_in: u64,
        d_out: u64,
    ) -> (Trace, Result<DeferredBuf, EncodeError>) {
        if reads_half(half, d_in, d_out) {
            let (t, b) = self.weight_f16(half->Some_0);
            t.matvec_f16(b, x, d_in, d_out)
        } else {
            let (t, b) = self.weight_f32(w);
            t.matvec_f32(b, x, d_in, d_out)
        }
    }

    /// A launch of the scores of one query.
    #[verifier::opaque]
    pub open spec fn score_launch(
        self,
        q: BufId,
        weights: BufId,
        ring: BufId,
        n_comp: u64,
        n_head: u64,
        head_dim: u64,
    ) -> (Trace, DeferredBuf) {
        let (t, scores) = self.alloc_f32(n_comp);
        (
            t.put(Command::Encoder).put(
                Command::Pipeline(Pipe::Special(Kernel::IndexerScoreOne, Consts::Plain)),
            ).buf_at(0, q).buf_at(1, weights).buf_at(2, ring).buf_at(3, scores.buf).u32_at(
                4,
                n_comp as u32,
            ).u32_at(5, (head_dim * 4) as u32).u32_at(6, (head_dim * 4) as u32).put(
                Command::Bytes(7, Args::InvSqrt((head_dim * n_head) as u64)),
            ).put(Command::Dispatch((n_comp, 1, 1), (128, 1, 1))).put(Command::EndEncoder),
            scores,
        )
    }

    #[verifier::opaque]
    pub open spec fn encode_indexer_scores(
        self,
        qr_normed: DeferredBuf,
        cur: DeferredBuf,
        w_q_b: HostRef,
        w_proj: HostRef,
        w_q_b_f16: Option<HostRef>,
        w_proj_f16: Option<HostRef>,
        index_ring: DeferredBuf,
        n_comp: u64,
        n_head: u64,
        head_dim: u64,
        params: LayerParams,
        pos: u32,
    ) -> (Trace, Result<DeferredBuf, EncodeError>) {
        let q_dim = (n_head * head_dim) as u64;
        let n_lora_q = qr_normed.n_elements;
        let d_embd = cur.n_elements;
        if w_q_b_f16 is None && w_q_b.len != q_dim * n_lora_q {
            self.refuse(Check::WeightLen, w_q_b.len as int, q_dim * n_lora_q)
        } else if w_proj_f16 is None && w_proj.len != d_embd * n_head {
            self.refuse(Check::SecondWeightLen, w_proj.len as int, d_embd * n_head)
        } else if index_ring.n_elements != n_comp * head_dim {
            self.refuse(Check::RingLen, index_ring.n_elements as int, n_comp * head_dim)
        } else {
            let (t, q) = self.host_matvec(w_q_b, w_q_b_f16, qr_normed, n_lora_q, q_dim);
            if q is Err {
                t.failed(q)
            } else {
                let q = q->Ok_0;
                let (t, roped) = if params.n_rot > 0 {
                    t.rope_tail_q_heads_in_place(q, n_head, head_dim, params, pos, false)
                } else {
                    (t, Ok(()))
                };
                if roped is Err {
                    t.failed(roped)
                } else {
                    let (t, weights) = t.host_matvec(w_proj, w_proj_f16, cur, d_embd, n_head);
                    if weights is Err {
                        t.failed(weights)
                    } else if n_head != 64 || head_dim != 128 {
                        t.refuse(Check::HeadShape, head_dim as int, 128)
                    } else {
                        let (t, scores) = t.score_launch(
                            q.buf,
                            weights->Ok_0.buf,
                            index_ring.buf,
                            n_comp,
                            n_head,
                            head_dim,
                        );
                        (t, Ok(scores))
                    }
                }
            }
        }
    }

    #[verifier::opaque]
    pub open spec fn encode_indexer_scores_tiled(
        self,
        q_k: DeferredBuf,
        weights_k: DeferredBuf,
        index_ring: DeferredBuf,
        n_comp: u64,
        n_tokens: u64,
        n_head: u64,
        head_dim: u64,
        pos0: u32,
        ratio: u32,
    ) -> (Trace, Result<DeferredBuf, EncodeError>) {
        if n_head != 64 || head_dim != 128 {
            self.refuse(Check::HeadShape, head_dim as int, 128)
        } else if q_k.n_elements != n_tokens * n_head * head_dim {
            self.refuse(Check::InputLen, q_k.n_elements as int, n_tokens * n_head * head_dim)
        } else if weights_k.n_elements != n_tokens * n_head {
            self.refuse(Check::RouteWeightsLen, weights_k.n_elements as int, n_tokens * n_head)
        } else if index_ring.n_elements != n_comp * head_dim {
            self.refuse(Check::RingLen, index_ring.n_elements as int, n_comp * head_dim)
        } else {
            let kernel = if self.config.indexer_f16 {
                Kernel::IndexerScoresTiled
            } else {
                Kernel::IndexerScoresTiledF32
            };
            let (t, scores) = self.alloc_f32((n_tokens * n_comp) as u64);
            (
                t.put(Command::Encoder).put(
                    Command::Pipeline(Pipe::Special(kernel, Consts::Plain)),
                ).buf_at(0, q_k.buf).buf_at(1, weights_k.buf).buf_at(2, index_ring.buf).buf_at(
                    3,
                    scores.buf,
                ).u32_at(4, n_comp as u32).u32_at(5, n_tokens as u32).u32_at(
                    6,
                    n_head as u32,
                ).u32_at(7, pos0).u32_at(8, ratio).u32_at(
                    9,
                    (n_head * head_dim * 4) as u32,
                ).u32_at(10, (head_dim * 4) as u32).u32_at(11, (n_head * 4) as u32).u32_at(
                    12,
                    (head_dim * 4) as u32,
                ).u32_at(13, (n_comp * 4) as u32).put(
                    Command::Bytes(14, Args::InvSqrt((head_dim * n_head) as u64)),
                ).put(
                    Command::Dispatch(
                        (((n_comp + 31) / 32) as u64, ((n_tokens + 7) / 8) as u64, 1),
                        (128, 1, 1),
                    ),
                ).put(Command::EndEncoder),
                Ok(scores),
            )
        }
    }

    #[verifier::opaque]
    pub open spec fn encode_indexer_topk_batched(
        self,
        scores: DeferredBuf,
        n_comp: u64,
        n_tokens: u64,
        top_k: u64,
    ) -> (Trace, Result<DeferredBuf, EncodeError>) {
        if n_comp > 1024 {
            self.encode_indexer_topk_batched_threshold(scores, n_comp, n_tokens, top_k)
        } else if n_comp == 0 {
            self.refuse(Check::ZeroDim, 0, 1)
        } else if top_k > n_comp {
            self.refuse(Check::TopK, top_k as int, n_comp as int)
        } else if scores.n_elements != n_tokens * n_comp {
            self.refuse(Check::ScoresLen, scores.n_elements as int, n_tokens * n_comp)
        } else {
            let (t, sel) = self.alloc_i32((n_tokens * top_k) as u64);
            (
                t.put(Command::Encoder).put(
                    Command::Pipeline(Pipe::Special(Kernel::ArgsortDesc, Consts::Plain)),
                ).buf_at(0, scores.buf).buf_at(1, sel.buf).u32_at(2, n_comp as u32).u32_at(
                    3,
                    n_tokens as u32,
                ).u32_at(4, top_k as u32).u32_at(5, top_k as u32).u32_at(
                    6,
                    (n_comp * 4) as u32,
                ).put(
                    Command::Dispatch((n_tokens, 1, 1), (pow2_above(n_comp, 1), 1, 1)),
                ).put(Command::EndEncoder),
                Ok(sel),
            )
        }
    }

    #[verifier::opaque]
    pub open spec fn encode_indexer_topk_batched_threshold(
        self,
        scores: DeferredBuf,
        n_comp: u64,
        n_tokens: u64,
        top_k: u64,
    ) -> (Trace, Result<DeferredBuf, EncodeError>) {
        if n_comp == 0 {
            self.refuse(Check::ZeroDim, 0, 1)
        } else if top_k > n_comp {
            self.refuse(Check::TopK, top_k as int, n_comp as int)
        } else if scores.n_elements != n_tokens * n_comp {
            self.refuse(Check::ScoresLen, scores.n_elements as int, n_tokens * n_comp)
        } else {
            let (t, sel) = self.alloc_i32((n_tokens * top_k) as u64);
            (
                t.put(Command::Encoder).put(
                    Command::Pipeline(
                        Pipe::Special(Kernel::IndexerTopkThresholdBatched, Consts::Plain),
                    ),
                ).buf_at(0, scores.buf).buf_at(1, sel.buf).u32_at(2, n_comp as u32).u32_at(
                    3,
                    top_k as u32,
                ).u32_at(4, n_tokens as u32).put(
                    Command::Dispatch((n_tokens, 1, 1), (256, 1, 1)),
                ).put(Command::EndEncoder),
                Ok(sel),
            )
        }
    }

    /// The top `top_k` of one row of scores, by one of two kernels.
    pub open spec fn topk_one(
        self,
        kernel: Kernel,
        scores: DeferredBuf,
        n_comp: u64,
        top_k: u64,
    ) -> (Trace, Result<DeferredBuf, EncodeError>) {
        if top_k > n_comp {
            self.refuse(Check::TopK, top_k as int, n_comp as int)
        } else {
            let (t, sel) = self.alloc_i32(top_k);
            (
                t.put(Command::Encoder).put(
                    Command::Pipeline(Pipe::Special(kernel, Consts::Plain)),
                ).buf_at(0, scores.buf).buf_at(1, sel.buf).u32_at(2, n_comp as u32).u32_at(
                    3,
                    top_k as u32,
                ).put(Command::Dispatch((1, 1, 1), (256, 1, 1))).put(Command::EndEncoder),
                Ok(sel),
            )
        }
    }

    #[verifier::opaque]
    pub open spec fn encode_indexed_mixed_attention(
        self,
        q_heads_k: DeferredBuf,
        raw_ring: DeferredBuf,
        comp_ring: DeferredBuf,
        topk_sel: DeferredBuf,
        sinks: DeferredBuf,
        n_tokens: u64,
        n_head: u64,
        head_dim: u64,
        n_raw: u64,
        n_comp: u64,
        top_k: u64,
        ratio: u32,
        window: u32,
        pos0: u32,
        raw_start: u32,
        raw_cap: u32,
        scale: F32,
    ) -> (Trace, Result<DeferredBuf, EncodeError>) {
        if head_dim != 512 {
            self.refuse(Check::HeadDim, head_dim as int, 512)
        } else if q_heads_k.n_elements != n_tokens * n_head * head_dim {
            self.refuse(Check::InputLen, q_heads_k.n_elements as int, n_tokens * n_head * head_dim)
        } else if topk_sel.n_elements < n_tokens * top_k {
            self.refuse(Check::SelectedLen, topk_sel.n_elements as int, n_tokens * top_k)
        } else if ratio == 0 {
            self.refuse(Check::Ratio, 0, 1)
        } else {
            let (t, out) = self.alloc_f32((n_tokens * n_head * head_dim) as u64);
            let hd = (head_dim * 4) as u32;
            let plane = (n_head * head_dim * 4) as u32;
            (
                t.put(Command::Encoder).put(
                    Command::Pipeline(Pipe::Special(Kernel::IndexedMixedAttention, Consts::Plain)),
                ).buf_at(0, q_heads_k.buf).buf_at(1, raw_ring.buf).buf_at(
                    2,
                    comp_ring.buf,
                ).buf_at(3, topk_sel.buf).buf_at(4, sinks.buf).buf_at(5, out.buf).u32_at(
                    6,
                    n_tokens as u32,
                ).u32_at(7, n_head as u32).u32_at(8, n_raw as u32).u32_at(9, n_comp as u32).u32_at(
                    10,
                    top_k as u32,
                ).u32_at(11, ratio).u32_at(12, window).u32_at(13, pos0).u32_at(
                    14,
                    raw_start,
                ).u32_at(15, raw_cap).u32_at(16, plane).u32_at(17, hd).u32_at(18, hd).u32_at(
                    19,
                    hd,
                ).u32_at(20, (top_k * 4) as u32).u32_at(21, plane).u32_at(22, hd).f32_at(
                    23,
                    scale,
                ).put(
                    Command::Dispatch((n_tokens, ((n_head + 7) / 8) as u64, 1), (256, 1, 1)),
                ).put(Command::EndEncoder),
                Ok(out),
            )
        }
    }
}

impl BatchScope {
    fn host_matvec(
        &mut self,
        w: HostRef,
        half: Option<HostRef>,
        x: &DeferredBuf,
        d_in: u64,
        d_out: u64,
    ) -> (r: Result<DeferredBuf, EncodeError>)
        requires
            extent(d_in),
            extent(d_out),
            old(self)@.config.trap_zero_weight && !reads_half(half, d_in, d_out) ==> w.len > 0,
        ensures
            (final(self)@, r) == old(self)@.host_matvec(w, half, *x, d_in, d_out),
            final(self)@.encodes(old(self)@),
            final(self)@.pools.carrier == old(self)@.pools.carrier,
    {
        match half {
            Some(bytes) if d_in % 4 == 0 && d_out % 2 == 0 => {
                let b: DeferredBuf = self.weight_f16(bytes);
                self.matvec_f16(&b, x, d_in, d_out)
            },
            _ => {
                let b: DeferredBuf = self.weight_f32(w);
                self.matvec_f32(&b, x, d_in, d_out)
            },
        }
    }

    /// Scores one query against the rows of the compressed ring.
    pub fn encode_indexer_scores(
        &mut self,
        qr_normed: &DeferredBuf,
        cur: &DeferredBuf,
        w_q_b: HostRef,
        w_proj: HostRef,
        w_q_b_f16: Option<HostRef>,
        w_proj_f16: Option<HostRef>,
        index_ring: &DeferredBuf,
        n_comp: u64,
        n_head: u64,
        head_dim: u64,
        params: &LayerParams,
        pos: u32,
    ) -> (r: Result<DeferredBuf, EncodeError>)
        requires
            extent(qr_normed.n_elements),
            extent(cur.n_elements),
            extent(n_comp),
            extent(n_head),
            extent(head_dim),
            n_head * head_dim <= crate::arith::MAX_EXTENT,
            rope_fits(head_dim as int, n_head as int),
            old(self)@.config.trap_zero_weight && !reads_half(
                w_q_b_f16,
                qr_normed.n_elements,
                (n_head * head_dim) as u64,
            ) ==> w_q_b.len > 0,
            old(self)@.config.trap_zero_weight && !reads_half(w_proj_f16, cur.n_elements, n_head)
                ==> w_proj.len > 0,
        ensures
            (final(self)@, r) == old(self)@.encode_indexer_scores(
                *qr_normed,
                *cur,
                w_q_b,
                w_proj,
                w_q_b_f16,
                w_proj_f16,
                *index_ring,
                n_comp,
                n_head,
                head_dim,
                *params,
                pos,
            ),
            r matches Ok(b) ==> b.n_elements == n_comp,
            final(self)@.encodes(old(self)@),
            final(self)@.pools.carrier == old(self)@.pools.carrier,
    {
        proof {
            reveal(Trace::encode_indexer_scores);
        }
        let q_dim: u64 = times(n_head, head_dim);
        let n_lora_q: u64 = qr_normed.n_elements;
        let d_embd: u64 = cur.n_elements;
        if w_q_b_f16.is_none() && w_q_b.len != times(q_dim, n_lora_q) {
            return Err(unfit(Check::WeightLen, w_q_b.len, times(q_dim, n_lora_q)));
        }
        if w_proj_f16.is_none() && w_proj.len != times(d_embd, n_head) {
            return Err(unfit(Check::SecondWeightLen, w_proj.len, times(d_embd, n_head)));
        }
        if index_ring.n_elements != times(n_comp, head_dim) {
            return Err(unfit(Check::RingLen, index_ring.n_elements, times(n_comp, head_dim)));
        }
        let q: DeferredBuf = self.host_matvec(w_q_b, w_q_b_f16, qr_normed, n_lora_q, q_dim)?;
        if params.n_rot > 0 {
            self.rope_tail_q_heads_in_place(&q, n_head, head_dim, params, pos, false)?;
        }
        let weights: DeferredBuf = self.host_matvec(w_proj, w_proj_f16, cur, d_embd, n_head)?;
        if n_head != 64 || head_dim != 128 {
            return Err(unfit(Check::HeadShape, head_dim, 128));
        }
        let scores: DeferredBuf = self.score_launch(
            q.buf,
            weights.buf,
            index_ring.buf,
            n_comp,
            n_head,
            head_dim,
        );
        Ok(scores)
    }

    fn score_launch(
        &mut self,
        q: BufId,
        weights: BufId,
        ring: BufId,
        n_comp: u64,
        n_head: u64,
        head_dim: u64,
    ) -> (r: DeferredBuf)
        requires
            extent(n_comp),
            extent(n_head),
            extent(head_dim),
        ensures
            (final(self)@, r) == old(self)@.score_launch(
                q,
                weights,
                ring,
                n_comp,
                n_head,
                head_dim,
            ),
            r.n_elements == n_comp,
            final(self)@.encodes(old(self)@),
            final(self)@.pools.carrier == old(self)@.pools.carrier,
    {
        proof {
            reveal(Trace::score_launch);
        }
        let scores: DeferredBuf = self.alloc_f32(n_comp);
        self.put(Command::Encoder);
        self.put(Command::Pipeline(Pipe::Special(Kernel::IndexerScoreOne, Consts::Plain)));
        self.buf_at(0, q);
        self.buf_at(1, weights);
        self.buf_at(2, ring);
        self.buf_at(3, scores.buf);
        self.u32_at(4, n_comp as u32);
        self.u32_at(5, (head_dim * 4) as u32);
        self.u32_at(6, (head_dim * 4) as u32);
        self.put(Command::Bytes(7, Args::InvSqrt(times(head_dim, n_head))));
        self.put(Command::Dispatch((n_comp, 1, 1), (128, 1, 1)));
        self.put(Command::EndEncoder);
        scores
    }

    /// Scores several queries against the rows of the compressed ring, in tiles.
    pub fn encode_indexer_scores_tiled(
        &mut self,
        q_k: &DeferredBuf,
        weights_k: &DeferredBuf,
        index_ring: &DeferredBuf,
        n_comp: u64,
        n_tokens: u64,
        n_head: u64,
        head_dim: u64,
        pos0: u32,
        ratio: u32,
    ) -> (r: Result<DeferredBuf, EncodeError>)
        requires
            extent(n_comp),
            extent(n_tokens),
            extent(n_head),
            extent(head_dim),
        ensures
            (final(self)@, r) == old(self)@.encode_indexer_scores_tiled(
                *q_k,
                *weights_k,
                *index_ring,
                n_comp,
                n_tokens,
                n_head,
                head_dim,
                pos0,
                ratio,
            ),
            r matches Ok(b) ==> b.n_elements == n_tokens * n_comp,
            final(self)@.encodes(old(self)@),
            final(self)@.pools.carrier == old(self)@.pools.carrier,
    {
        proof {
            reveal(Trace::encode_indexer_scores_tiled);
        }
        if n_head != 64 || head_dim != 128 {
            return Err(unfit(Check::HeadShape, head_dim, 128));
        }
        if !is_product3(q_k.n_elements, n_tokens, n_head, head_dim) {
            return Err(unfit(Check::InputLen, q_k.n_elements, capped3(n_tokens, n_head, head_dim)));
        }
        if weights_k.n_elements != times(n_tokens, n_head) {
            return Err(
                unfit(Check::RouteWeightsLen, weights_k.n_elements, times(n_tokens, n_head)),
            );
        }
        if index_ring.n_elements != times(n_comp, head_dim) {
            return Err(unfit(Check::RingLen, index_ring.n_elements, times(n_comp, head_dim)));
        }
        let kernel: Kernel = if self.config.indexer_f16 {
            Kernel::IndexerScoresTiled
        } else {
            Kernel::IndexerScoresTiledF32
        };
        let plane: u64 = times(n_head, head_dim) * 4;
        let scores: DeferredBuf = self.alloc_f32(times(n_tokens, n_comp));
        self.put(Command::Encoder);
        self.put(Command::Pipeline(Pipe::Special(kernel, Consts::Plain)));
        self.buf_at(0, q_k.buf);
        self.buf_at(1, weights_k.buf);
        self.buf_at(2, index_ring.buf);
        self.buf_at(3, scores.buf);
        self.u32_at(4, n_comp as u32);
        self.u32_at(5, n_tokens as u32);
        self.u32_at(6, n_head as u32);
        self.u32_at(7, pos0);
        self.u32_at(8, ratio);
        self.u32_at(9, plane as u32);
        self.u32_at(10, (head_dim * 4) as u32);
        self.u32_at(11, (n_head * 4) as u32);
        self.u32_at(12, (head_dim * 4) as u32);
        self.u32_at(13, (n_comp * 4) as u32);
        self.put(Command::Bytes(14, Args::InvSqrt(times(head_dim, n_head))));
        self.put(Command::Dispatch(((n_comp + 31) / 32, (n_tokens + 7) / 8, 1), (128, 1, 1)));
        self.put(Command::EndEncoder);
        Ok(scores)
    }

    /// The indices of the `top_k` best rows for each of several queries.
    pub fn encode_indexer_topk_batched(
        &mut self,
        scores: &DeferredBuf,
        n_comp: u64,
        n_tokens: u64,
        top_k: u64,
    ) -> (r: Result<DeferredBuf, EncodeError>)
        requires
            extent(n_comp),
            extent(n_tokens),
        ensures
            (final(self)@, r) == old(self)@.encode_indexer_topk_batched(
                *scores,
                n_comp,
                n_tokens,
                top_k,
            ),
            r matches Ok(b) ==> b.n_elements == n_tokens * top_k,
            final(self)@.encodes(old(self)@),
            final(self)@.pools.carrier == old(self)@.pools.carrier,
    {
        proof {
            reveal(Trace::encode_indexer_topk_batched);
        }
        if n_comp > 1024 {
            return self.encode_indexer_topk_batched_threshold(scores, n_comp, n_tokens, top_k);
        }
        if n_comp == 0 {
            return Err(unfit(Check::ZeroDim, 0, 1));
        }
        if top_k > n_comp {
            return Err(unfit(Check::TopK, top_k, n_comp));
        }
        if scores.n_elements != times(n_tokens, n_comp) {
            return Err(unfit(Check::ScoresLen, scores.n_elements, times(n_tokens, n_comp)));
        }
        let sel: DeferredBuf = self.alloc_i32(times(n_tokens, top_k));
        let threads: u64 = pow2_at_least(n_comp);
        self.put(Command::Encoder);
        self.put(Command::Pipeline(Pipe::Special(Kernel::ArgsortDesc, Consts::Plain)));
        self.buf_at(0, scores.buf);
        self.buf_at(1, sel.buf);
        self.u32_at(2, n_comp as u32);
        self.u32_at(3, n_tokens as u32);
        self.u32_at(4, top_k as u32);
        self.u32_at(5, top_k as u32);
        self.u32_at(6, (n_comp * 4) as u32);
        self.put(Command::Dispatch((n_tokens, 1, 1), (threads, 1, 1)));
        self.put(Command::EndEncoder);
        Ok(sel)
    }

    /// [`BatchScope::encode_indexer_topk_batched`] for any number of rows.
    pub fn encode_indexer_topk_batched_threshold(
        &mut self,
        scores: &DeferredBuf,
        n_comp: u64,
        n_tokens: u64,
        top_k: u64,
    ) -> (r: Result<DeferredBuf, EncodeError>)
        requires
            extent(n_comp),
            extent(n_tokens),
        ensures
            (final(self)@, r) == old(self)@.encode_indexer_topk_batched_threshold(
                *scores,
                n_comp,
                n_tokens,
                top_k,
            ),
            r matches Ok(b) ==> b.n_elements == n_tokens * top_k,
            final(self)@.encodes(old(self)@),
            final(self)@.pools.carrier == old(self)@.pools.carrier,
    {
        proof {
            reveal(Trace::encode_indexer_topk_batched_threshold);
        }
        if n_comp == 0 {
            return Err(unfit(Check::ZeroDim, 0, 1));
        }
        if top_k > n_comp {
            return Err(unfit(Check::TopK, top_k, n_comp));
        }
        if scores.n_elements != times(n_tokens, n_comp) {
            return Err(unfit(Check::ScoresLen, scores.n_elements, times(n_tokens, n_comp)));
        }
        let sel: DeferredBuf = self.alloc_i32(times(n_tokens, top_k));
        self.put(Command::Encoder);
        self.put(
            Command::Pipeline(Pipe::Special(Kernel::IndexerTopkThresholdBatched, Consts::Plain)),
        );
        self.buf_at(0, scores.buf);
        self.buf_at(1, sel.buf);
        self.u32_at(2, n_comp as u32);
        self.u32_at(3, top_k as u32);
        self.u32_at(4, n_tokens as u32);
        self.put(Command::Dispatch((n_tokens, 1, 1), (256, 1, 1)));
        self.put(Command::EndEncoder);
        Ok(sel)
    }

    fn topk_one(&mut self, kernel: Kernel, scores: &DeferredBuf, n_comp: u64, top_k: u64) -> (r:
        Result<DeferredBuf, EncodeError>)
        ensures
            (final(self)@, r) == old(self)@.topk_one(kernel, *scores, n_comp, top_k),
            final(self)@.encodes(old(self)@),
            final(self)@.pools.carrier == old(self)@.pools.carrier,
    {
        if top_k > n_comp {
            return Err(unfit(Check::TopK, top_k, n_comp));
        }
        let sel: DeferredBuf = self.alloc_i32(top_k);
        self.put(Command::Encoder);
        self.put(Command::Pipeline(Pipe::Special(kernel, Consts::Plain)));
        self.buf_at(0, scores.buf);
        self.buf_at(1, sel.buf);
        self.u32_at(2, n_comp as u32);
        self.u32_at(3, top_k as u32);
        self.put(Command::Dispatch((1, 1, 1), (256, 1, 1)));
        self.put(Command::EndEncoder);
        Ok(sel)
    }

    /// The indices of the `top_k` best rows for one query, picked one after another.
    pub fn encode_indexer_topk(&mut self, scores: &DeferredBuf, n_comp: u64, top_k: u64) -> (r:
        Result<DeferredBuf, EncodeError>)
        ensures
            (final(self)@, r) == old(self)@.topk_one(
                Kernel::IndexerTopkGreedy,
                *scores,
                n_comp,
                top_k,
            ),
            final(self)@.encodes(old(self)@),
            final(self)@.pools.carrier == old(self)@.pools.carrier,
    {
        self.topk_one(Kernel::IndexerTopkGreedy, scores, n_comp, top_k)
    }

    /// The indices of the `top_k` best rows for one query, by a threshold.
    pub fn encode_indexer_topk_threshold(
        &mut self,
        scores: &DeferredBuf,
        n_comp: u64,
        top_k: u64,
    ) -> (r: Result<DeferredBuf, EncodeError>)
        ensures
            (final(self)@, r) == old(self)@.topk_one(
                Kernel::IndexerTopkThreshold,
                *scores,
                n_comp,
                top_k,
            ),
            final(self)@.encodes(old(self)@),
            final(self)@.pools.carrier == old(self)@.pools.carrier,
    {
        self.topk_one(Kernel::IndexerTopkThreshold, scores, n_comp, top_k)
    }

    /// Attention of several positions over the raw window and their selected rows.
    #[verifier::rlimit(40)]
    pub fn encode_indexed_mixed_attention(
        &mut self,
        q_heads_k: &DeferredBuf,
        raw_ring: &DeferredBuf,
        comp_ring: &DeferredBuf,
        topk_sel: &DeferredBuf,
        sinks: &DeferredBuf,
        n_tokens: u64,
        n_head: u64,
        head_dim: u64,
        n_raw: u64,
        n_comp: u64,
        top_k: u64,
        ratio: u32,
        window: u32,
        pos0: u32,
        raw_start: u32,
        raw_cap: u32,
        scale: F32,
    ) -> (r: Result<DeferredBuf, EncodeError>)
        requires
            extent(n_tokens),
            extent(n_head),
            extent(top_k),
        ensures
            (final(self)@, r) == old(self)@.encode_indexed_mixed_attention(
                *q_heads_k,
                *raw_ring,
                *comp_ring,
                *topk_sel,
                *sinks,
                n_tokens,
                n_head,
                head_dim,
                n_raw,
                n_comp,
                top_k,
                ratio,
                window,
                pos0,
                raw_start,
                raw_cap,
                scale,
            ),
            r matches Ok(b) ==> b.n_elements == n_tokens * n_head * head_dim,
            final(self)@.encodes(old(self)@),
            final(self)@.pools.carrier == old(self)@.pools.carrier,
    {
        proof {
            reveal(Trace::encode_indexed_mixed_attention);
        }
        if head_dim != 512 {
            return Err(unfit(Check::HeadDim, head_dim, 512));
        }
        if !is_product3(q_heads_k.n_elements, n_tokens, n_head, head_dim) {
            return Err(
                unfit(Check::InputLen, q_heads_k.n_elements, capped3(n_tokens, n_head, head_dim)),
            );
        }
        if topk_sel.n_elements < times(n_tokens, top_k) {
            return Err(unfit(Check::SelectedLen, topk_sel.n_elements, times(n_tokens, top_k)));
        }
        if ratio == 0 {
            return Err(unfit(Check::Ratio, 0, 1));
        }
        let out: DeferredBuf = self.alloc_f32(q_heads_k.n_elements);
        let hd: u32 = (head_dim * 4) as u32;
        let plane: u32 = (times(n_head, head_dim) * 4) as u32;
        self.put(Command::Encoder);
        self.put(Command::Pipeline(Pipe::Special(Kernel::IndexedMixedAttention, Consts::Plain)));
        self.buf_at(0, q_heads_k.buf);
        self.buf_at(1, raw_ring.buf);
        self.buf_at(2, comp_ring.buf);
        self.buf_at(3, topk_sel.buf);
        self.buf_at(4, sinks.buf);
        self.buf_at(5, out.buf);
        self.u32_at(6, n_tokens as u32);
        self.u32_at(7, n_head as u32);
        self.u32_at(8, n_raw as u32);
        self.u32_at(9, n_comp as u32);
        self.u32_at(10, top_k as u32);
        self.u32_at(11, ratio);
        self.u32_at(12, window);
        self.u32_at(13, pos0);
        self.u32_at(14, raw_start);
        self.u32_at(15, raw_cap);
        self.u32_at(16, plane);
        self.u32_at(17, hd);
        self.u32_at(18, hd);
        self.u32_at(19, hd);
        self.u32_at(20, (top_k * 4) as u32);
        self.u32_at(21, plane);
        self.u32_at(22, hd);
        self.f32_at(23, scale);
        self.put(Command::Dispatch((n_tokens, (n_head + 7) / 8, 1), (256, 1, 1)));
        self.put(Command::EndEncoder);
        Ok(out)
    }
}

} // verus!
