//! The attention half of a layer: projections, rotation, cache, attention, output.

use crate::arith::{MAX_EXTENT, elements, extent, lemma_product, lemma_row, times};
use crate::attention::cache_fits;
use crate::command::{Ape, BufId, Command, CompStore, DeferredBuf, Dump, F32, Source, Stage};
use crate::config::{CompVerifyCtx, LayerAttnHalfOuts, LayerAttnHalfOutsK, LayerParams};
use crate::error::{Check, EncodeError, unfit};
use crate::hc::{Collapsed, mix_hc, streams};
use crate::norm::rope_fits;
use crate::pool::PoolKey;
use crate::scope::BatchScope;
use crate::trace::Trace;
use vstd::prelude::*;

verus! {

broadcast use {crate::trace::group_encodes, crate::trace::group_extends};

/// The weights of the attention half of a layer.
#[derive(Clone, Copy, PartialEq, Eq, Structural, Debug)]
pub struct AttnWeights {
    pub hc_fn: DeferredBuf,
    pub hc_scale: DeferredBuf,
    pub hc_base: DeferredBuf,
    pub hc_norm_gamma: DeferredBuf,
    pub unit_gamma_hc: DeferredBuf,
    pub q_a: DeferredBuf,
    pub gamma_q: DeferredBuf,
    pub q_b: DeferredBuf,
    pub kv: DeferredBuf,
    pub gamma_kv: DeferredBuf,
}

/// The dimensions of the attention half of a layer.
#[derive(Clone, Copy, PartialEq, Eq, Structural, Debug)]
pub struct AttnShape {
    pub n_hc: u64,
    pub n_embd: u64,
    pub n_lora_q: u64,
    pub n_head: u64,
    pub head_dim: u64,
    pub kv_row: u64,
    pub sinkhorn_iters: i32,
    pub hc_eps: F32,
    pub rms_eps: F32,
}

impl AttnShape {
    /// The dimensions fit the kernels, and the rotated tail fits a row.
    pub open spec fn fits(self, params: LayerParams) -> bool {
        &&& streams(self.n_hc)
        &&& extent(self.n_embd)
        &&& extent(self.n_lora_q)
        &&& extent(self.n_head)
        &&& extent(self.head_dim)
        &&& extent(self.kv_row)
        &&& self.n_hc * self.n_embd <= MAX_EXTENT
        &&& self.n_head * self.head_dim <= MAX_EXTENT
        &&& params.n_rot <= self.kv_row
        &&& rope_fits(params.n_rot as int, 1)
    }
}

/// The weights and dimensions of the attention output.
#[derive(Clone, Copy, PartialEq, Eq, Structural, Debug)]
pub struct AttnOutput {
    pub w_o_a: DeferredBuf,
    pub w_o_b: DeferredBuf,
    pub n_groups: u64,
    pub n_lora_o: u64,
    pub group_dim: u64,
    pub out_low_dim: u64,
    pub flash_scale: F32,
    pub sinks: DeferredBuf,
}

/// Where a step stands: its layer, its cache, its positions.
#[derive(Clone, Copy, PartialEq, Eq, Structural, Debug)]
pub struct Place {
    pub layer: u32,
    pub params: LayerParams,
    pub raw_cap: u32,
    pub base_slot: u32,
    pub base_pos: u32,
    pub attn_base_pos: u32,
    pub k: u64,
}

/// The three results of the query and key-value chain.
pub type Qkv = (DeferredBuf, DeferredBuf, DeferredBuf);

/// Compressed rows are attended to where the ring holds any.
pub open spec fn active(comp: Option<CompVerifyCtx>) -> bool {
    comp matches Some(c) && c.n_comp > 0
}

/// New compressed rows are made only at this ratio, and only with weights.
pub open spec fn emits(ctx: CompVerifyCtx, params: LayerParams) -> bool {
    params.compress_ratio == 4 && ctx.attn_comp.w_kv.len > 0
}

/// The ring, the cache and the compressor's weights have room for the step.
pub open spec fn place_fits(
    shape: AttnShape,
    place: Place,
    comp: Option<CompVerifyCtx>,
    trap_zero_weight: bool,
) -> bool {
    &&& extent(place.k)
    &&& place.base_pos + place.k <= u32::MAX
    &&& elements(place.k * shape.n_head * shape.head_dim)
    &&& elements(place.k * shape.n_embd)
    &&& elements(place.k * shape.n_lora_q)
    &&& rope_fits(shape.head_dim as int, shape.n_head as int)
    &&& cache_fits(place.raw_cap as int, place.params.n_lora_kv as int)
    &&& active(comp) ==> {
        let c = comp->Some_0;
        &&& cache_fits(place.raw_cap as int, shape.head_dim as int)
        &&& emits(c, place.params) ==> {
            &&& 2 * shape.head_dim <= MAX_EXTENT
            &&& place.params.n_rot <= shape.head_dim
            &&& c.n_comp + place.k <= u32::MAX
            &&& elements((c.n_comp + place.k) * shape.head_dim)
            &&& c.attn_comp.w_ape.len >= 8 * shape.head_dim
            &&& trap_zero_weight ==> c.attn_comp.w_gate.len > 0 && c.attn_comp.w_norm.len > 0
        }
    }
}

/// The end of the compressed window that position `pos` closes is visible from
/// `pos + 1` on: what the emitted rows of positions `base_pos..base_pos + i` add.
pub open spec fn emitted(base_pos: int, ratio: int, i: int) -> Seq<u32>
    decreases i,
{
    if i <= 0 {
        Seq::empty()
    } else if (base_pos + i) % ratio == 0 {
        emitted(base_pos, ratio, i - 1).push((base_pos + i) as u32)
    } else {
        emitted(base_pos, ratio, i - 1)
    }
}

impl Trace {
    #[verifier::opaque]
    pub open spec fn encode_attn_qkv_chain(
        self,
        normed: DeferredBuf,
        q_a: DeferredBuf,
        gamma_q: DeferredBuf,
        q_b: DeferredBuf,
        kv: DeferredBuf,
        n_lora_q: u64,
        n_head: u64,
        head_dim: u64,
        eps: F32,
        kv_row: u64,
    ) -> (Trace, Result<Qkv, EncodeError>) {
        let d_embd = normed.n_elements;
        let q_dim = (n_head * head_dim) as u64;
        if q_a.n_elements != n_lora_q * d_embd {
            self.refuse(Check::WeightLen, q_a.n_elements as int, n_lora_q * d_embd)
        } else if gamma_q.n_elements != n_lora_q {
            self.refuse(Check::GammaLen, gamma_q.n_elements as int, n_lora_q as int)
        } else if q_b.n_elements != q_dim * n_lora_q {
            self.refuse(Check::SecondWeightLen, q_b.n_elements as int, q_dim * n_lora_q)
        } else if kv.n_elements != kv_row * d_embd {
            self.refuse(Check::ThirdWeightLen, kv.n_elements as int, kv_row * d_embd)
        } else if head_dim < 1 {
            self.refuse(Check::HeadDim, head_dim as int, 1)
        } else if self.q8_proj {
            let (t, pair) = if self.config.qkv_concurrent {
                self.matvec_q8_0_pair_concurrent(
                    q_a,
                    normed,
                    d_embd,
                    n_lora_q,
                    kv,
                    normed,
                    d_embd,
                    kv_row,
                )
            } else {
                self.qkv_pair(q_a, kv, normed, d_embd, n_lora_q, kv_row)
            };
            if pair is Err {
                t.failed(pair)
            } else {
                let (qr, kv_raw) = pair->Ok_0;
                let (t, qr_normed) = t.rms_norm_mul(qr, gamma_q, eps);
                if qr_normed is Err {
                    t.failed(qr_normed)
                } else {
                    let (t, raw) = t.matvec_attn_proj(q_b, qr_normed->Ok_0, n_lora_q, q_dim);
                    if raw is Err {
                        t.failed(raw)
                    } else {
                        let (t, heads) = t.head_rms_norm(raw->Ok_0, n_head, head_dim, eps);
                        if heads is Err {
                            t.failed(heads)
                        } else {
                            (t, Ok((qr_normed->Ok_0, heads->Ok_0, kv_raw)))
                        }
                    }
                }
            }
        } else {
            let (t, qr) = self.matvec_f32(q_a, normed, d_embd, n_lora_q);
            if qr is Err {
                t.failed(qr)
            } else {
                let (t, qr_normed) = t.rms_norm_mul(qr->Ok_0, gamma_q, eps);
                if qr_normed is Err {
                    t.failed(qr_normed)
                } else {
                    let (t, raw) = t.matvec_f32(q_b, qr_normed->Ok_0, n_lora_q, q_dim);
                    if raw is Err {
                        t.failed(raw)
                    } else {
                        let (t, heads) = t.head_rms_norm(raw->Ok_0, n_head, head_dim, eps);
                        if heads is Err {
                            t.failed(heads)
                        } else {
                            let (t, kv_raw) = t.matvec_f32(kv, normed, d_embd, kv_row);
                            if kv_raw is Err {
                                t.failed(kv_raw)
                            } else {
                                (t, Ok((qr_normed->Ok_0, heads->Ok_0, kv_raw->Ok_0)))
                            }
                        }
                    }
                }
            }
        }
    }

    /// The query and key-value projections one after the other.
    pub open spec fn qkv_pair(
        self,
        q_a: DeferredBuf,
        kv: DeferredBuf,
        normed: DeferredBuf,
        d_embd: u64,
        n_lora_q: u64,
        kv_row: u64,
    ) -> (Trace, Result<(DeferredBuf, DeferredBuf), EncodeError>) {
        let (t, qr) = self.matvec_attn_proj(q_a, normed, d_embd, n_lora_q);
        if qr is Err {
            t.failed(qr)
        } else {
            let (t, kv_raw) = t.matvec_attn_proj(kv, normed, d_embd, kv_row);
            if kv_raw is Err {
                t.failed(kv_raw)
            } else {
                (t, Ok((qr->Ok_0, kv_raw->Ok_0)))
            }
        }
    }

    #[verifier::opaque]
    pub open spec fn encode_attn_qkv_chain_k(
        self,
        normed_k: DeferredBuf,
        q_a: DeferredBuf,
        gamma_q: DeferredBuf,
        q_b: DeferredBuf,
        kv: DeferredBuf,
        n_lora_q: u64,
        n_head: u64,
        head_dim: u64,
        eps: F32,
        kv_row: u64,
        d_embd: u64,
        k: u64,
    ) -> (Trace, Result<Qkv, EncodeError>) {
        let q_dim = (n_head * head_dim) as u64;
        if normed_k.n_elements != k * d_embd {
            self.refuse(Check::InputLen, normed_k.n_elements as int, k * d_embd)
        } else if q_a.n_elements != n_lora_q * d_embd {
            self.refuse(Check::WeightLen, q_a.n_elements as int, n_lora_q * d_embd)
        } else if gamma_q.n_elements != n_lora_q {
            self.refuse(Check::GammaLen, gamma_q.n_elements as int, n_lora_q as int)
        } else if q_b.n_elements != q_dim * n_lora_q {
            self.refuse(Check::SecondWeightLen, q_b.n_elements as int, q_dim * n_lora_q)
        } else if kv.n_elements != kv_row * d_embd {
            self.refuse(Check::ThirdWeightLen, kv.n_elements as int, kv_row * d_embd)
        } else {
            let (t, qr) = self.arm(PoolKey::AttnQr).matmul_k_attn_proj(
                q_a,
                normed_k,
                d_embd,
                n_lora_q,
                k,
            );
            if qr is Err {
                t.failed(qr)
            } else {
                let (t, qr_normed) = t.arm(PoolKey::AttnQrNorm).rms_norm_mul_k(
                    qr->Ok_0,
                    gamma_q,
                    n_lora_q,
                    k,
                    eps,
                );
                if qr_normed is Err {
                    t.failed(qr_normed)
                } else {
                    let (t, raw) = t.arm(PoolKey::AttnQHeadsRaw).matmul_k_attn_proj(
                        q_b,
                        qr_normed->Ok_0,
                        n_lora_q,
                        q_dim,
                        k,
                    );
                    if raw is Err {
                        t.failed(raw)
                    } else {
                        let (t, heads) = t.arm(PoolKey::AttnQHeads).head_rms_norm_k(
                            raw->Ok_0,
                            n_head,
                            head_dim,
                            k,
                            eps,
                        );
                        if heads is Err {
                            t.failed(heads)
                        } else {
                            let (t, kv_raw) = t.arm(PoolKey::AttnKvRaw).matmul_k_attn_proj(
                                kv,
                                normed_k,
                                d_embd,
                                kv_row,
                                k,
                            );
                            if kv_raw is Err {
                                t.failed(kv_raw)
                            } else {
                                (t, Ok((qr_normed->Ok_0, heads->Ok_0, kv_raw->Ok_0)))
                            }
                        }
                    }
                }
            }
        }
    }

    #[verifier::opaque]
    pub open spec fn encode_layer_attn_half(
        self,
        prev_hc: DeferredBuf,
        w: AttnWeights,
        hc_fn_is_f16: bool,
        shape: AttnShape,
        params: LayerParams,
        pos: u32,
    ) -> (Trace, Result<LayerAttnHalfOuts, EncodeError>) {
        let fine = self.config.profile_fine;
        let (t, col) = self.hc_collapse_norm(
            prev_hc,
            w.hc_fn,
            w.hc_scale,
            w.hc_base,
            w.hc_norm_gamma,
            shape.n_hc,
            shape.n_embd,
            shape.sinkhorn_iters,
            shape.hc_eps,
            shape.rms_eps,
            w.unit_gamma_hc,
            hc_fn_is_f16,
        );
        if col is Err {
            t.failed(col)
        } else {
            let (split, _, normed) = col->Ok_0;
            let (t, qkv) = t.stage_if(fine, Stage::AttnHcCollapse).encode_attn_qkv_chain(
                normed,
                w.q_a,
                w.gamma_q,
                w.q_b,
                w.kv,
                shape.n_lora_q,
                shape.n_head,
                shape.head_dim,
                shape.rms_eps,
                shape.kv_row,
            );
            if qkv is Err {
                t.failed(qkv)
            } else {
                let (qr_normed, q_heads, kv_raw) = qkv->Ok_0;
                let (t, kv_normed) = t.stage_if(fine, Stage::AttnQkvChain).rms_norm_mul(
                    kv_raw,
                    w.gamma_kv,
                    shape.rms_eps,
                );
                if kv_normed is Err {
                    t.failed(kv_normed)
                } else {
                    let (t, turned) = t.stage_if(fine, Stage::AttnKvRms).rope_tail_in_place(
                        kv_normed->Ok_0,
                        ((shape.kv_row - params.n_rot) * 4) as u64,
                        1,
                        params,
                        pos,
                        false,
                    );
                    if turned is Err {
                        t.failed(turned)
                    } else {
                        (
                            t.stage_if(fine, Stage::AttnRopeTail),
                            Ok(
                                LayerAttnHalfOuts {
                                    normed,
                                    split,
                                    qr_normed,
                                    q_heads,
                                    kv_normed_rotated: kv_normed->Ok_0,
                                },
                            ),
                        )
                    }
                }
            }
        }
    }

    /// The rotation of the key-value rows one by one, from position `i` on.
    pub open spec fn rope_kv_rows(
        self,
        kv_normed_k: DeferredBuf,
        kv_row: u64,
        params: LayerParams,
        base_pos: u32,
        k: u64,
        i: int,
    ) -> (Trace, Result<(), EncodeError>)
        decreases k - i,
    {
        if i >= k {
            (self, Ok(()))
        } else {
            let (t, r) = self.rope_tail_in_place(
                kv_normed_k,
                ((i * kv_row + (kv_row - params.n_rot)) * 4) as u64,
                1,
                params,
                (base_pos + i) as u32,
                false,
            );
            if r is Err {
                (t, r)
            } else {
                t.rope_kv_rows(kv_normed_k, kv_row, params, base_pos, k, i + 1)
            }
        }
    }

    /// The rotation of the key-value rows, in one launch or row by row.
    #[verifier::opaque]
    pub open spec fn rope_kv(
        self,
        kv_normed_k: DeferredBuf,
        kv_row: u64,
        params: LayerParams,
        base_pos: u32,
        k: u64,
    ) -> (Trace, Result<(), EncodeError>) {
        if params.n_rot > 0 && !self.config.rope_per_k {
            self.rope_tail_k_fused(
                kv_normed_k,
                ((kv_row - params.n_rot) * 4) as u64,
                1,
                params.n_rot as u64,
                kv_row,
                params,
                base_pos,
                k,
                false,
            )
        } else {
            self.rope_kv_rows(kv_normed_k, kv_row, params, base_pos, k, 0)
        }
    }

    #[verifier::opaque]
    pub open spec fn encode_layer_attn_half_k(
        self,
        prev_hc_k: DeferredBuf,
        w: AttnWeights,
        shape: AttnShape,
        params: LayerParams,
        base_pos: u32,
        k: u64,
        hc_fn_is_f16: bool,
    ) -> (Trace, Result<LayerAttnHalfOutsK, EncodeError>) {
        let fine = self.config.profile_fine;
        let (t, col) = self.arm(PoolKey::HcAttnNormed).hc_collapse_norm_k(
            prev_hc_k,
            w.hc_fn,
            w.hc_scale,
            w.hc_base,
            w.hc_norm_gamma,
            shape.n_hc,
            shape.n_embd,
            shape.sinkhorn_iters,
            shape.hc_eps,
            shape.rms_eps,
            w.unit_gamma_hc,
            k,
            hc_fn_is_f16,
        );
        if col is Err {
            t.failed(col)
        } else {
            let (split_k, _, normed_k) = col->Ok_0;
            let (t, qkv) = t.stage_if(fine, Stage::AttnHcCollapseK).encode_attn_qkv_chain_k(
                normed_k,
                w.q_a,
                w.gamma_q,
                w.q_b,
                w.kv,
                shape.n_lora_q,
                shape.n_head,
                shape.head_dim,
                shape.rms_eps,
                shape.kv_row,
                shape.n_embd,
                k,
            );
            if qkv is Err {
                t.failed(qkv)
            } else {
                let (qr_normed_k, q_heads_k, kv_raw) = qkv->Ok_0;
                let (t, kv_normed) = t.stage_if(fine, Stage::AttnQkvChainK).arm(
                    PoolKey::AttnKvNorm,
                ).rms_norm_mul_k(kv_raw, w.gamma_kv, shape.kv_row, k, shape.rms_eps);
                if kv_normed is Err {
                    t.failed(kv_normed)
                } else {
                    let (t, turned) = t.stage_if(fine, Stage::AttnKvRmsK).rope_kv(
                        kv_normed->Ok_0,
                        shape.kv_row,
                        params,
                        base_pos,
                        k,
                    );
                    if turned is Err {
                        t.failed(turned)
                    } else {
                        (
                            t.stage_if(fine || self.config.rope_kv_order, Stage::AttnRopeTailK),
                            Ok(
                                LayerAttnHalfOutsK {
                                    normed_k,
                                    split_k,
                                    qr_normed_k,
                                    q_heads_k,
                                    kv_normed_rotated_k: kv_normed->Ok_0,
                                },
                            ),
                        )
                    }
                }
            }
        }
    }

    /// A diagnostic: row one of a buffer, read back and reported.
    pub open spec fn dump_row(
        self,
        on: bool,
        stage: Stage,
        what: Dump,
        layer: u32,
        buf: BufId,
        n: u64,
    ) -> Trace {
        if on {
            self.commit_wait_stage(stage).put(
                Command::DumpRow { what, layer, buf, first: n, n },
            )
        } else {
            self
        }
    }

    /// One compressed row: pooled, normalised, rotated, and put into the ring.
    #[verifier::opaque]
    pub open spec fn emit_row(
        self,
        state_kv: BufId,
        state_score: BufId,
        w_norm: DeferredBuf,
        head_dim: u64,
        params: LayerParams,
        pos: u32,
        ring: BufId,
        ring_row: u64,
    ) -> (Trace, Result<(), EncodeError>) {
        let (t, pooled) = self.make(
            Command::PoolRatio4 { state_kv, state_score, head_dim: head_dim as u32 },
            head_dim,
        );
        let (t, row) = t.rms_norm_mul(pooled, w_norm, F32(0x3586_37bd));
        if row is Err {
            t.failed(row)
        } else {
            let (t, turned) = if params.n_rot > 0 {
                t.rope_tail_in_place(
                    row->Ok_0,
                    ((head_dim - params.n_rot) * 4) as u64,
                    1,
                    params,
                    (pos + 1 - params.compress_ratio) as u32,
                    false,
                )
            } else {
                (t, Ok(()))
            };
            if turned is Err {
                (t, turned)
            } else {
                (t.copy_buf_into(row->Ok_0, ring, (ring_row * head_dim) as u64), Ok(()))
            }
        }
    }

    /// The compressor's state takes in one position.
    #[verifier::opaque]
    pub open spec fn comp_step(
        self,
        normed_k: DeferredBuf,
        n_embd: u64,
        head_dim: u64,
        w_kv: DeferredBuf,
        w_gate: DeferredBuf,
        ape: Ape,
        state_kv: BufId,
        state_score: BufId,
        ratio: u32,
        pos: u32,
        i: int,
    ) -> (Trace, Result<(), EncodeError>) {
        let width = (2 * head_dim) as u64;
        let (t, row) = self.slice_out_f32(normed_k, (i * n_embd) as u64, n_embd);
        let (t, kv) = t.matvec_f32(w_kv, row, n_embd, width);
        if kv is Err {
            t.failed(kv)
        } else {
            let (t, score) = t.matvec_f32(w_gate, row, n_embd, width);
            if score is Err {
                t.failed(score)
            } else {
                (
                    t.put(
                        Command::CompStore(
                            CompStore {
                                kv: Source::Device(kv->Ok_0.buf),
                                score: Source::Device(score->Ok_0.buf),
                                ape,
                                state_kv,
                                state_score,
                                width: width as u32,
                                ratio,
                                pos,
                                ape_is_f16: false,
                            },
                        ),
                    ),
                    Ok(()),
                )
            }
        }
    }

    /// The compressor over the positions from `i` on. A position that closes a
    /// window adds a row to the ring.
    pub open spec fn comp_rows(
        self,
        normed_k: DeferredBuf,
        n_embd: u64,
        head_dim: u64,
        weights: (DeferredBuf, DeferredBuf, DeferredBuf),
        ape: Ape,
        states: (BufId, BufId),
        ring: BufId,
        n_comp: u32,
        params: LayerParams,
        base_pos: u32,
        k: u64,
        i: int,
    ) -> (Trace, Result<(), EncodeError>)
        decreases k - i,
    {
        if i >= k {
            (self, Ok(()))
        } else {
            let pos = (base_pos + i) as u32;
            let (t, r) = self.comp_step(
                normed_k,
                n_embd,
                head_dim,
                weights.0,
                weights.1,
                ape,
                states.0,
                states.1,
                params.compress_ratio,
                pos,
                i,
            );
            let (t, r) = if r is Ok && (pos + 1) % params.compress_ratio as int == 0 {
                t.emit_row(
                    states.0,
                    states.1,
                    weights.2,
                    head_dim,
                    params,
                    pos,
                    ring,
                    (n_comp + emitted(base_pos as int, params.compress_ratio as int, i).len()) as u64,
                )
            } else {
                (t, r)
            };
            if r is Err {
                (t, r)
            } else {
                t.comp_rows(
                    normed_k,
                    n_embd,
                    head_dim,
                    weights,
                    ape,
                    states,
                    ring,
                    n_comp,
                    params,
                    base_pos,
                    k,
                    i + 1,
                )
            }
        }
    }

    /// The compressor of the layer over all positions of the step.
    #[verifier::opaque]
    pub open spec fn compress(
        self,
        ctx: CompVerifyCtx,
        normed_k: DeferredBuf,
        shape: AttnShape,
        place: Place,
        ring: BufId,
    ) -> (Trace, Result<(), EncodeError>) {
        let bytes = (64 * shape.head_dim) as u64;
        let t = self.put(Command::CompStateKv { layer: place.layer, bytes }).put(
            Command::CompStateScore { layer: place.layer, bytes },
        );
        let (t, w_kv) = t.weight_f32(ctx.attn_comp.w_kv);
        let (t, w_gate) = t.weight_f32(ctx.attn_comp.w_gate);
        let (t, w_norm) = t.weight_f32(ctx.attn_comp.w_norm);
        t.comp_rows(
            normed_k,
            shape.n_embd,
            shape.head_dim,
            (w_kv, w_gate, w_norm),
            Ape::Transposed {
                host: ctx.attn_comp.w_ape,
                width: (2 * shape.head_dim) as u64,
                ratio: place.params.compress_ratio as u64,
            },
            (BufId::CompStateKv(place.layer), BufId::CompStateScore(place.layer)),
            ring,
            ctx.n_comp,
            place.params,
            place.base_pos,
            place.k,
            0,
        )
    }

    /// Attention over the cache, and over the compressed ring where it holds rows.
    #[verifier::opaque]
    pub open spec fn attend(
        self,
        half: LayerAttnHalfOutsK,
        kv_cache: DeferredBuf,
        shape: AttnShape,
        place: Place,
        flash_scale: F32,
        sinks: DeferredBuf,
        comp: Option<CompVerifyCtx>,
    ) -> (Trace, Result<DeferredBuf, EncodeError>) {
        if active(comp) {
            let ctx = comp->Some_0;
            let ring = BufId::CompRing(place.layer);
            let t = self.put(
                Command::CompRing {
                    layer: place.layer,
                    bytes: (place.raw_cap * shape.head_dim * 4) as u64,
                },
            );
            let (t, r) = if emits(ctx, place.params) {
                t.compress(ctx, half.normed_k, shape, place, ring)
            } else {
                (t, Ok(()))
            };
            let avail = Seq::new(ctx.n_comp as nat, |j: int| 0u32) + if emits(ctx, place.params) {
                emitted(
                    place.base_pos as int,
                    place.params.compress_ratio as int,
                    place.k as int,
                )
            } else {
                Seq::empty()
            };
            if r is Err {
                t.failed(r)
            } else {
                t.flash_attn_k_mla_comp(
                    half.q_heads_k,
                    kv_cache,
                    ring,
                    avail.len() as u32,
                    avail,
                    shape.n_head,
                    shape.head_dim,
                    shape.head_dim,
                    place.raw_cap as u64,
                    place.k,
                    flash_scale,
                    place.attn_base_pos,
                    sinks,
                )
            }
        } else {
            self.flash_attn_k_mla(
                half.q_heads_k,
                kv_cache,
                shape.n_head,
                shape.head_dim,
                shape.head_dim,
                place.raw_cap as u64,
                place.k,
                flash_scale,
                place.attn_base_pos,
                sinks,
            )
        }
    }

    #[verifier::opaque]
    pub open spec fn encode_attn_chain_k(
        self,
        prev_hc_k: DeferredBuf,
        w: AttnWeights,
        shape: AttnShape,
        out: AttnOutput,
        place: Place,
        comp: Option<CompVerifyCtx>,
    ) -> (Trace, Result<(LayerAttnHalfOutsK, DeferredBuf), EncodeError>) {
        if shape.n_head * shape.head_dim != out.n_groups * out.group_dim {
            self.refuse(
                Check::HeadShape,
                shape.n_head * shape.head_dim,
                out.n_groups * out.group_dim,
            )
        } else {
            let (t, half) = self.encode_layer_attn_half_k(
                prev_hc_k,
                w,
                shape,
                place.params,
                place.base_pos,
                place.k,
                false,
            );
            if half is Err {
                t.failed(half)
            } else {
                let (t, r) = t.attn_tail(half->Ok_0, shape, out, place, comp);
                if r is Err {
                    t.failed(r)
                } else {
                    (t, Ok((half->Ok_0, r->Ok_0)))
                }
            }
        }
    }

    /// What follows the projections: cache, rotation, attention, output.
    #[verifier::opaque]
    pub open spec fn attn_tail(
        self,
        half: LayerAttnHalfOutsK,
        shape: AttnShape,
        out: AttnOutput,
        place: Place,
        comp: Option<CompVerifyCtx>,
    ) -> (Trace, Result<DeferredBuf, EncodeError>) {
        let q_dim = (shape.n_head * shape.head_dim) as u64;
        let t = self.dump_row(
            self.config.dump_normed_layer == Some(place.layer) && place.k >= 2,
            Stage::DumpNormedK,
            Dump::Normed,
            place.layer,
            half.normed_k.buf,
            shape.n_embd,
        );
        let (t, kv_cache) = t.kv_fp8_store_persistent_k(
            place.layer,
            half.kv_normed_rotated_k,
            place.params,
            place.raw_cap,
            place.base_slot,
            place.k,
        );
        if kv_cache is Err {
            t.failed(kv_cache)
        } else {
            let (t, r) = t.rope_tail_q_heads_in_place_k(
                half.q_heads_k,
                shape.n_head,
                shape.head_dim,
                place.params,
                place.base_pos,
                place.k,
                false,
            );
            if r is Err {
                t.failed(r)
            } else {
                let (t, flash) = t.attend(
                    half,
                    kv_cache->Ok_0,
                    shape,
                    place,
                    out.flash_scale,
                    out.sinks,
                    comp,
                );
                if flash is Err {
                    t.failed(flash)
                } else {
                    let t = t.dump_row(
                        self.config.dump_flash_layer == Some(place.layer),
                        Stage::DumpFlashK,
                        Dump::Flash,
                        place.layer,
                        flash->Ok_0.buf,
                        q_dim,
                    );
                    let (t, r) = t.rope_tail_q_heads_in_place_k(
                        flash->Ok_0,
                        shape.n_head,
                        shape.head_dim,
                        place.params,
                        place.base_pos,
                        place.k,
                        true,
                    );
                    if r is Err {
                        t.failed(r)
                    } else {
                        let (t, r) = t.encode_attn_output_matmuls_q8_k(
                            flash->Ok_0,
                            out.w_o_a,
                            out.w_o_b,
                            out.n_groups,
                            out.n_lora_o,
                            out.group_dim,
                            out.out_low_dim,
                            shape.n_embd,
                            place.k,
                        );
                        if r is Err {
                            t.failed(r)
                        } else {
                            (t, Ok(r->Ok_0.1))
                        }
                    }
                }
            }
        }
    }
}

/// A step emits at most one compressed row per position.
proof fn lemma_emitted_len(base_pos: int, ratio: int, i: int)
    requires
        0 <= i,
    ensures
        emitted(base_pos, ratio, i).len() <= i,
    decreases i,
{
    if i > 0 {
        lemma_emitted_len(base_pos, ratio, i - 1);
    }
}

impl BatchScope {
    /// Query and key-value projections of one position, from its normalised
    /// input: the normalised low-rank query, the query heads, the key-value row.
    pub fn encode_attn_qkv_chain(
        &mut self,
        normed_buf: &DeferredBuf,
        attn_q_a_buf: &DeferredBuf,
        gamma_q_buf: &DeferredBuf,
        attn_q_b_buf: &DeferredBuf,
        attn_kv_buf: &DeferredBuf,
        n_lora_q: u64,
        n_head: u64,
        head_dim: u64,
        eps: F32,
        kv_row: u64,
    ) -> (r: Result<Qkv, EncodeError>)
        requires
            extent(normed_buf.n_elements),
            extent(n_lora_q),
            extent(n_head),
            extent(head_dim),
            extent(kv_row),
            n_head * head_dim <= MAX_EXTENT,
        ensures
            (final(self)@, r) == old(self)@.encode_attn_qkv_chain(
                *normed_buf,
                *attn_q_a_buf,
                *gamma_q_buf,
                *attn_q_b_buf,
                *attn_kv_buf,
                n_lora_q,
                n_head,
                head_dim,
                eps,
                kv_row,
            ),
            r matches Ok(b) ==> b.0.n_elements == n_lora_q && b.1.n_elements == n_head * head_dim
                && b.2.n_elements == kv_row,
            final(self)@.encodes(old(self)@),
            final(self)@.pools.carrier == old(self)@.pools.carrier,
    {
        proof {
            reveal(Trace::encode_attn_qkv_chain);
        }
        let d_embd: u64 = normed_buf.n_elements;
        let q_dim: u64 = times(n_head, head_dim);
        if attn_q_a_buf.n_elements != times(n_lora_q, d_embd) {
            return Err(unfit(Check::WeightLen, attn_q_a_buf.n_elements, times(n_lora_q, d_embd)));
        }
        if gamma_q_buf.n_elements != n_lora_q {
            return Err(unfit(Check::GammaLen, gamma_q_buf.n_elements, n_lora_q));
        }
        if attn_q_b_buf.n_elements != times(q_dim, n_lora_q) {
            return Err(
                unfit(Check::SecondWeightLen, attn_q_b_buf.n_elements, times(q_dim, n_lora_q)),
            );
        }
        if attn_kv_buf.n_elements != times(kv_row, d_embd) {
            return Err(unfit(Check::ThirdWeightLen, attn_kv_buf.n_elements, times(kv_row, d_embd)));
        }
        if head_dim < 1 {
            return Err(unfit(Check::HeadDim, head_dim, 1));
        }
        if self.q8_proj {
            let (qr, kv_raw_row): (DeferredBuf, DeferredBuf) = if self.config.qkv_concurrent {
                self.matvec_q8_0_pair_concurrent(
                    attn_q_a_buf,
                    normed_buf,
                    d_embd,
                    n_lora_q,
                    attn_kv_buf,
                    normed_buf,
                    d_embd,
                    kv_row,
                )?
            } else {
                self.qkv_pair(attn_q_a_buf, attn_kv_buf, normed_buf, d_embd, n_lora_q, kv_row)?
            };
            let qr_normed: DeferredBuf = self.rms_norm_mul(&qr, gamma_q_buf, eps)?;
            let q_heads_raw: DeferredBuf = self.matvec_attn_proj(
                attn_q_b_buf,
                &qr_normed,
                n_lora_q,
                q_dim,
            )?;
            let q_heads: DeferredBuf = self.head_rms_norm(&q_heads_raw, n_head, head_dim, eps)?;
            return Ok((qr_normed, q_heads, kv_raw_row));
        }
        let qr: DeferredBuf = self.matvec_f32(attn_q_a_buf, normed_buf, d_embd, n_lora_q)?;
        let qr_normed: DeferredBuf = self.rms_norm_mul(&qr, gamma_q_buf, eps)?;
        let q_heads_raw: DeferredBuf = self.matvec_f32(attn_q_b_buf, &qr_normed, n_lora_q, q_dim)?;
        let q_heads: DeferredBuf = self.head_rms_norm(&q_heads_raw, n_head, head_dim, eps)?;
        let kv_raw_row: DeferredBuf = self.matvec_f32(attn_kv_buf, normed_buf, d_embd, kv_row)?;
        Ok((qr_normed, q_heads, kv_raw_row))
    }

    fn qkv_pair(
        &mut self,
        q_a: &DeferredBuf,
        kv: &DeferredBuf,
        normed: &DeferredBuf,
        d_embd: u64,
        n_lora_q: u64,
        kv_row: u64,
    ) -> (r: Result<(DeferredBuf, DeferredBuf), EncodeError>)
        requires
            extent(d_embd),
            extent(n_lora_q),
            extent(kv_row),
        ensures
            (final(self)@, r) == old(self)@.qkv_pair(*q_a, *kv, *normed, d_embd, n_lora_q, kv_row),
            r matches Ok(b) ==> b.0.n_elements == n_lora_q && b.1.n_elements == kv_row,
            final(self)@.encodes(old(self)@),
            final(self)@.pools.carrier == old(self)@.pools.carrier,
    {
        let qr: DeferredBuf = self.matvec_attn_proj(q_a, normed, d_embd, n_lora_q)?;
        let kv_raw: DeferredBuf = self.matvec_attn_proj(kv, normed, d_embd, kv_row)?;
        Ok((qr, kv_raw))
    }

    /// [`BatchScope::encode_attn_qkv_chain`] for several positions.
    pub fn encode_attn_qkv_chain_k(
        &mut self,
        normed_k_buf: &DeferredBuf,
        attn_q_a_buf: &DeferredBuf,
        gamma_q_buf: &DeferredBuf,
        attn_q_b_buf: &DeferredBuf,
        attn_kv_buf: &DeferredBuf,
        n_lora_q: u64,
        n_head: u64,
        head_dim: u64,
        eps: F32,
        kv_row: u64,
        d_embd: u64,
        k_positions: u64,
    ) -> (r: Result<Qkv, EncodeError>)
        requires
            extent(d_embd),
            extent(n_lora_q),
            extent(n_head),
            extent(head_dim),
            extent(kv_row),
            extent(k_positions),
            n_head * head_dim <= MAX_EXTENT,
            elements(k_positions * d_embd),
            elements(k_positions * n_lora_q),
        ensures
            (final(self)@, r) == old(self)@.encode_attn_qkv_chain_k(
                *normed_k_buf,
                *attn_q_a_buf,
                *gamma_q_buf,
                *attn_q_b_buf,
                *attn_kv_buf,
                n_lora_q,
                n_head,
                head_dim,
                eps,
                kv_row,
                d_embd,
                k_positions,
            ),
            r matches Ok(b) ==> b.0.n_elements == k_positions * n_lora_q && b.1.n_elements
                == k_positions * (n_head * head_dim) && b.2.n_elements == k_positions * kv_row,
            final(self)@.encodes(old(self)@),
            final(self)@.pools.carrier == old(self)@.pools.carrier,
    {
        proof {
            reveal(Trace::encode_attn_qkv_chain_k);
        }
        let k: u64 = k_positions;
        let q_dim: u64 = times(n_head, head_dim);
        if normed_k_buf.n_elements != times(k, d_embd) {
            return Err(unfit(Check::InputLen, normed_k_buf.n_elements, times(k, d_embd)));
        }
        if attn_q_a_buf.n_elements != times(n_lora_q, d_embd) {
            return Err(unfit(Check::WeightLen, attn_q_a_buf.n_elements, times(n_lora_q, d_embd)));
        }
        if gamma_q_buf.n_elements != n_lora_q {
            return Err(unfit(Check::GammaLen, gamma_q_buf.n_elements, n_lora_q));
        }
        if attn_q_b_buf.n_elements != times(q_dim, n_lora_q) {
            return Err(
                unfit(Check::SecondWeightLen, attn_q_b_buf.n_elements, times(q_dim, n_lora_q)),
            );
        }
        if attn_kv_buf.n_elements != times(kv_row, d_embd) {
            return Err(unfit(Check::ThirdWeightLen, attn_kv_buf.n_elements, times(kv_row, d_embd)));
        }
        self.arm(PoolKey::AttnQr);
        let qr: DeferredBuf = self.matmul_k_attn_proj(
            attn_q_a_buf,
            normed_k_buf,
            d_embd,
            n_lora_q,
            k,
        )?;
        self.arm(PoolKey::AttnQrNorm);
        let qr_normed: DeferredBuf = self.rms_norm_mul_k(&qr, gamma_q_buf, n_lora_q, k, eps)?;
        self.arm(PoolKey::AttnQHeadsRaw);
        let q_heads_raw: DeferredBuf = self.matmul_k_attn_proj(
            attn_q_b_buf,
            &qr_normed,
            n_lora_q,
            q_dim,
            k,
        )?;
        self.arm(PoolKey::AttnQHeads);
        let q_heads: DeferredBuf = self.head_rms_norm_k(&q_heads_raw, n_head, head_dim, k, eps)?;
        self.arm(PoolKey::AttnKvRaw);
        let kv_raw_row: DeferredBuf = self.matmul_k_attn_proj(
            attn_kv_buf,
            normed_k_buf,
            d_embd,
            kv_row,
            k,
        )?;
        Ok((qr_normed, q_heads, kv_raw_row))
    }

    /// The attention half of a layer for one position, up to the rotated
    /// key-value row.
    #[verifier::rlimit(40)]
    pub fn encode_layer_attn_half(
        &mut self,
        prev_hc: &DeferredBuf,
        hc_fn: &DeferredBuf,
        hc_scale: &DeferredBuf,
        hc_base: &DeferredBuf,
        hc_norm_gamma: &DeferredBuf,
        unit_gamma_hc_dim: &DeferredBuf,
        hc_fn_is_f16: bool,
        attn_q_a: &DeferredBuf,
        gamma_q: &DeferredBuf,
        attn_q_b: &DeferredBuf,
        attn_kv: &DeferredBuf,
        qkv_gamma_kv: &DeferredBuf,
        n_hc: u64,
        n_embd: u64,
        n_lora_q: u64,
        n_head: u64,
        head_dim: u64,
        kv_row: u64,
        sinkhorn_iters: i32,
        hc_eps: F32,
        rms_eps: F32,
        params_for_rope: &LayerParams,
        pos: u32,
    ) -> (r: Result<LayerAttnHalfOuts, EncodeError>)
        requires
            (AttnShape {
                n_hc,
                n_embd,
                n_lora_q,
                n_head,
                head_dim,
                kv_row,
                sinkhorn_iters,
                hc_eps,
                rms_eps,
            }).fits(*params_for_rope),
        ensures
            (final(self)@, r) == old(self)@.encode_layer_attn_half(
                *prev_hc,
                (AttnWeights {
                    hc_fn: *hc_fn,
                    hc_scale: *hc_scale,
                    hc_base: *hc_base,
                    hc_norm_gamma: *hc_norm_gamma,
                    unit_gamma_hc: *unit_gamma_hc_dim,
                    q_a: *attn_q_a,
                    gamma_q: *gamma_q,
                    q_b: *attn_q_b,
                    kv: *attn_kv,
                    gamma_kv: *qkv_gamma_kv,
                }),
                hc_fn_is_f16,
                (AttnShape {
                    n_hc,
                    n_embd,
                    n_lora_q,
                    n_head,
                    head_dim,
                    kv_row,
                    sinkhorn_iters,
                    hc_eps,
                    rms_eps,
                }),
                *params_for_rope,
                pos,
            ),
            final(self)@.extends(old(self)@),
            final(self)@.pools.carrier == old(self)@.pools.carrier,
            old(self)@.config.quiet() ==> final(self)@.encodes(old(self)@),
    {
        proof {
            reveal(Trace::encode_layer_attn_half);
        }
        let fine: bool = self.config.profile_fine;
        let (split, _, normed): Collapsed = self.hc_collapse_norm(
            prev_hc,
            hc_fn,
            hc_scale,
            hc_base,
            hc_norm_gamma,
            n_hc,
            n_embd,
            sinkhorn_iters,
            hc_eps,
            rms_eps,
            unit_gamma_hc_dim,
            hc_fn_is_f16,
        )?;
        self.stage_if(fine, Stage::AttnHcCollapse);
        let (qr_normed, q_heads, kv_raw_row): Qkv = self.encode_attn_qkv_chain(
            &normed,
            attn_q_a,
            gamma_q,
            attn_q_b,
            attn_kv,
            n_lora_q,
            n_head,
            head_dim,
            rms_eps,
            kv_row,
        )?;
        self.stage_if(fine, Stage::AttnQkvChain);
        let kv_normed: DeferredBuf = self.rms_norm_mul(&kv_raw_row, qkv_gamma_kv, rms_eps)?;
        self.stage_if(fine, Stage::AttnKvRms);
        let tail: u64 = (kv_row - params_for_rope.n_rot as u64) * 4;
        self.rope_tail_in_place(&kv_normed, tail, 1, params_for_rope, pos, false)?;
        self.stage_if(fine, Stage::AttnRopeTail);
        Ok(
            LayerAttnHalfOuts {
                normed,
                split,
                qr_normed,
                q_heads,
                kv_normed_rotated: kv_normed,
            },
        )
    }

    fn rope_kv_rows(
        &mut self,
        kv_normed_k: &DeferredBuf,
        kv_row: u64,
        params: &LayerParams,
        base_pos: u32,
        k: u64,
    ) -> (r: Result<(), EncodeError>)
        requires
            extent(kv_row),
            extent(k),
            kv_normed_k.n_elements == k * kv_row,
            params.n_rot <= kv_row,
            rope_fits(params.n_rot as int, 1),
            base_pos + k <= u32::MAX,
        ensures
            (final(self)@, r) == old(self)@.rope_kv_rows(
                *kv_normed_k,
                kv_row,
                *params,
                base_pos,
                k,
                0,
            ),
            final(self)@.encodes(old(self)@),
            final(self)@.pools.carrier == old(self)@.pools.carrier,
    {
        let ghost goal = self@.rope_kv_rows(*kv_normed_k, kv_row, *params, base_pos, k, 0);
        let mut i: u64 = 0;
        while i < k
            invariant
                i <= k,
                extent(kv_row),
                extent(k),
                kv_normed_k.n_elements == k * kv_row,
                params.n_rot <= kv_row,
                rope_fits(params.n_rot as int, 1),
                base_pos + k <= u32::MAX,
                self@.encodes(old(self)@),
                self@.pools.carrier == old(self)@.pools.carrier,
                goal == old(self)@.rope_kv_rows(*kv_normed_k, kv_row, *params, base_pos, k, 0),
                goal == self@.rope_kv_rows(
                    *kv_normed_k,
                    kv_row,
                    *params,
                    base_pos,
                    k,
                    i as int,
                ),
            decreases k - i,
        {
            proof {
                lemma_product(k as int, kv_row as int);
                assert(i * kv_row + kv_row <= k * kv_row) by (nonlinear_arith)
                    requires
                        i + 1 <= k,
                        0 <= kv_row,
                ;
            }
            let off: u64 = (times(i, kv_row) + (kv_row - params.n_rot as u64)) * 4;
            self.rope_tail_in_place(kv_normed_k, off, 1, params, base_pos + i as u32, false)?;
            i = i + 1;
        }
        Ok(())
    }

    fn rope_kv(
        &mut self,
        kv_normed_k: &DeferredBuf,
        kv_row: u64,
        params: &LayerParams,
        base_pos: u32,
        k: u64,
    ) -> (r: Result<(), EncodeError>)
        requires
            extent(kv_row),
            extent(k),
            kv_normed_k.n_elements == k * kv_row,
            params.n_rot <= kv_row,
            rope_fits(params.n_rot as int, 1),
            base_pos + k <= u32::MAX,
        ensures
            (final(self)@, r) == old(self)@.rope_kv(*kv_normed_k, kv_row, *params, base_pos, k),
            final(self)@.encodes(old(self)@),
            final(self)@.pools.carrier == old(self)@.pools.carrier,
    {
        proof {
            reveal(Trace::rope_kv);
        }
        if params.n_rot > 0 && !self.config.rope_per_k {
            self.rope_tail_k_fused(
                kv_normed_k,
                (kv_row - params.n_rot as u64) * 4,
                1,
                params.n_rot as u64,
                kv_row,
                params,
                base_pos,
                k,
                false,
            )
        } else {
            self.rope_kv_rows(kv_normed_k, kv_row, params, base_pos, k)
        }
    }

    /// [`BatchScope::encode_layer_attn_half`] for several positions.
    #[verifier::rlimit(40)]
    pub fn encode_layer_attn_half_k(
        &mut self,
        prev_hc_k: &DeferredBuf,
        hc_fn: &DeferredBuf,
        hc_scale: &DeferredBuf,
        hc_base: &DeferredBuf,
        hc_norm_gamma: &DeferredBuf,
        unit_gamma_hc_dim: &DeferredBuf,
        attn_q_a_q8: &DeferredBuf,
        gamma_q: &DeferredBuf,
        attn_q_b_q8: &DeferredBuf,
        attn_kv_q8: &DeferredBuf,
        qkv_gamma_kv: &DeferredBuf,
        n_hc: u64,
        n_embd: u64,
        n_lora_q: u64,
        n_head: u64,
        head_dim: u64,
        kv_row: u64,
        sinkhorn_iters: i32,
        hc_eps: F32,
        rms_eps: F32,
        params_for_rope: &LayerParams,
        base_pos: u32,
        k_positions: u64,
        hc_fn_is_f16: bool,
    ) -> (r: Result<LayerAttnHalfOutsK, EncodeError>)
        requires
            (AttnShape {
                n_hc,
                n_embd,
                n_lora_q,
                n_head,
                head_dim,
                kv_row,
                sinkhorn_iters,
                hc_eps,
                rms_eps,
            }).fits(*params_for_rope),
            extent(k_positions),
            elements(k_positions * n_embd),
            elements(k_positions * n_lora_q),
            base_pos + k_positions <= u32::MAX,
        ensures
            (final(self)@, r) == old(self)@.encode_layer_attn_half_k(
                *prev_hc_k,
                (AttnWeights {
                    hc_fn: *hc_fn,
                    hc_scale: *hc_scale,
                    hc_base: *hc_base,
                    hc_norm_gamma: *hc_norm_gamma,
                    unit_gamma_hc: *unit_gamma_hc_dim,
                    q_a: *attn_q_a_q8,
                    gamma_q: *gamma_q,
                    q_b: *attn_q_b_q8,
                    kv: *attn_kv_q8,
                    gamma_kv: *qkv_gamma_kv,
                }),
                (AttnShape {
                    n_hc,
                    n_embd,
                    n_lora_q,
                    n_head,
                    head_dim,
                    kv_row,
                    sinkhorn_iters,
                    hc_eps,
                    rms_eps,
                }),
                *params_for_rope,
                base_pos,
                k_positions,
                hc_fn_is_f16,
            ),
            r matches Ok(h) ==> h.normed_k.n_elements == k_positions * n_embd
                && h.split_k.n_elements == k_positions * mix_hc(n_hc),
            final(self)@.extends(old(self)@),
            final(self)@.pools.carrier == old(self)@.pools.carrier,
            old(self)@.config.quiet() ==> final(self)@.encodes(old(self)@),
    {
        proof {
            reveal(Trace::encode_layer_attn_half_k);
        }
        let k: u64 = k_positions;
        let fine: bool = self.config.profile_fine;
        let last: bool = fine || self.config.rope_kv_order;
        self.arm(PoolKey::HcAttnNormed);
        let (split_k, _, normed_k): Collapsed = self.hc_collapse_norm_k(
            prev_hc_k,
            hc_fn,
            hc_scale,
            hc_base,
            hc_norm_gamma,
            n_hc,
            n_embd,
            sinkhorn_iters,
            hc_eps,
            rms_eps,
            unit_gamma_hc_dim,
            k,
            hc_fn_is_f16,
        )?;
        self.stage_if(fine, Stage::AttnHcCollapseK);
        let (qr_normed_k, q_heads_k, kv_raw_row_k): Qkv = self.encode_attn_qkv_chain_k(
            &normed_k,
            attn_q_a_q8,
            gamma_q,
            attn_q_b_q8,
            attn_kv_q8,
            n_lora_q,
            n_head,
            head_dim,
            rms_eps,
            kv_row,
            n_embd,
            k,
        )?;
        self.stage_if(fine, Stage::AttnQkvChainK);
        self.arm(PoolKey::AttnKvNorm);
        let kv_normed_k: DeferredBuf = self.rms_norm_mul_k(
            &kv_raw_row_k,
            qkv_gamma_kv,
            kv_row,
            k,
            rms_eps,
        )?;
        self.stage_if(fine, Stage::AttnKvRmsK);
        self.rope_kv(&kv_normed_k, kv_row, params_for_rope, base_pos, k)?;
        self.stage_if(last, Stage::AttnRopeTailK);
        Ok(
            LayerAttnHalfOutsK {
                normed_k,
                split_k,
                qr_normed_k,
                q_heads_k,
                kv_normed_rotated_k: kv_normed_k,
            },
        )
    }

    pub(crate) fn dump_row(
        &mut self,
        on: bool,
        stage: Stage,
        what: Dump,
        layer: u32,
        buf: BufId,
        n: u64,
    )
        ensures
            final(self)@ == old(self)@.dump_row(on, stage, what, layer, buf, n),
            final(self)@.extends(old(self)@),
            final(self)@.pools.carrier == old(self)@.pools.carrier,
            !on ==> final(self)@.encodes(old(self)@),
    {
        if on {
            self.commit_wait_stage(stage);
            self.put(Command::DumpRow { what, layer, buf, first: n, n });
        }
    }

    fn emit_row(
        &mut self,
        state_kv: BufId,
        state_score: BufId,
        w_norm: &DeferredBuf,
        head_dim: u64,
        params: &LayerParams,
        pos: u32,
        ring: BufId,
        ring_row: u64,
    ) -> (r: Result<(), EncodeError>)
        requires
            2 * head_dim <= MAX_EXTENT,
            params.n_rot <= head_dim,
            params.compress_ratio <= pos + 1 <= u32::MAX,
            elements(ring_row * head_dim),
        ensures
            (final(self)@, r) == old(self)@.emit_row(
                state_kv,
                state_score,
                *w_norm,
                head_dim,
                *params,
                pos,
                ring,
                ring_row,
            ),
            final(self)@.encodes(old(self)@),
            final(self)@.pools.carrier == old(self)@.pools.carrier,
    {
        proof {
            reveal(Trace::emit_row);
        }
        let pooled: DeferredBuf = self.compressor_pool_ratio4(
            state_kv,
            state_score,
            head_dim as u32,
        )?;
        let row: DeferredBuf = self.rms_norm_mul(&pooled, w_norm, F32(0x3586_37bd))?;
        if params.n_rot > 0 {
            let off: u64 = (head_dim - params.n_rot as u64) * 4;
            self.rope_tail_in_place(
                &row,
                off,
                1,
                params,
                pos + 1 - params.compress_ratio,
                false,
            )?;
        }
        self.copy_buf_into(&row, ring, ring_row * head_dim);
        Ok(())
    }

    fn comp_step(
        &mut self,
        normed_k: &DeferredBuf,
        n_embd: u64,
        head_dim: u64,
        w_kv: &DeferredBuf,
        w_gate: &DeferredBuf,
        ape: Ape,
        state_kv: BufId,
        state_score: BufId,
        ratio: u32,
        pos: u32,
        i: u64,
    ) -> (r: Result<(), EncodeError>)
        requires
            extent(n_embd),
            extent(i),
            2 * head_dim <= MAX_EXTENT,
            i * n_embd + n_embd <= normed_k.n_elements,
        ensures
            (final(self)@, r) == old(self)@.comp_step(
                *normed_k,
                n_embd,
                head_dim,
                *w_kv,
                *w_gate,
                ape,
                state_kv,
                state_score,
                ratio,
                pos,
                i as int,
            ),
            final(self)@.encodes(old(self)@),
            final(self)@.pools.carrier == old(self)@.pools.carrier,
    {
        proof {
            reveal(Trace::comp_step);
        }
        let width: u64 = 2 * head_dim;
        let row: DeferredBuf = self.slice_out_f32(normed_k, times(i, n_embd), n_embd);
        let kv: DeferredBuf = self.matvec_f32(w_kv, &row, n_embd, width)?;
        let score: DeferredBuf = self.matvec_f32(w_gate, &row, n_embd, width)?;
        self.compressor_store_one_db(
            &kv,
            &score,
            ape,
            state_kv,
            state_score,
            width as u32,
            ratio,
            pos,
            false,
        )?;
        Ok(())
    }

    /// Returns what becomes visible when, for the rows that were added.
    fn comp_rows(
        &mut self,
        normed_k: &DeferredBuf,
        n_embd: u64,
        head_dim: u64,
        weights: (DeferredBuf, DeferredBuf, DeferredBuf),
        ape: Ape,
        states: (BufId, BufId),
        ring: BufId,
        n_comp: u32,
        params: &LayerParams,
        base_pos: u32,
        k: u64,
        avail: &mut Vec<u32>,
    ) -> (r: Result<(), EncodeError>)
        requires
            extent(n_embd),
            extent(k),
            2 * head_dim <= MAX_EXTENT,
            normed_k.n_elements == k * n_embd,
            params.n_rot <= head_dim,
            params.compress_ratio == 4,
            base_pos + k <= u32::MAX,
            n_comp + k <= u32::MAX,
            elements((n_comp + k) * head_dim),
            old(avail)@.len() == n_comp,
        ensures
            (final(self)@, r) == old(self)@.comp_rows(
                *normed_k,
                n_embd,
                head_dim,
                weights,
                ape,
                states,
                ring,
                n_comp,
                *params,
                base_pos,
                k,
                0,
            ),
            r is Ok ==> final(avail)@ == old(avail)@ + emitted(
                base_pos as int,
                params.compress_ratio as int,
                k as int,
            ),
            final(self)@.encodes(old(self)@),
            final(self)@.pools.carrier == old(self)@.pools.carrier,
    {
        let ghost goal = self@.comp_rows(
            *normed_k,
            n_embd,
            head_dim,
            weights,
            ape,
            states,
            ring,
            n_comp,
            *params,
            base_pos,
            k,
            0,
        );
        let ghost first = avail@;
        let ratio: u32 = params.compress_ratio;
        let mut i: u64 = 0;
        assert(avail@ =~= first + emitted(base_pos as int, ratio as int, 0));
        while i < k
            invariant
                i <= k,
                extent(n_embd),
                extent(k),
                2 * head_dim <= MAX_EXTENT,
                normed_k.n_elements == k * n_embd,
                params.n_rot <= head_dim,
                ratio == 4,
                ratio == params.compress_ratio,
                base_pos + k <= u32::MAX,
                n_comp + k <= u32::MAX,
                elements((n_comp + k) * head_dim),
                first == old(avail)@,
                first.len() == n_comp,
                avail@ == first + emitted(base_pos as int, ratio as int, i as int),
                self@.encodes(old(self)@),
                self@.pools.carrier == old(self)@.pools.carrier,
                goal == old(self)@.comp_rows(
                    *normed_k,
                    n_embd,
                    head_dim,
                    weights,
                    ape,
                    states,
                    ring,
                    n_comp,
                    *params,
                    base_pos,
                    k,
                    0,
                ),
                goal == self@.comp_rows(
                    *normed_k,
                    n_embd,
                    head_dim,
                    weights,
                    ape,
                    states,
                    ring,
                    n_comp,
                    *params,
                    base_pos,
                    k,
                    i as int,
                ),
            decreases k - i,
        {
            let pos: u32 = base_pos + i as u32;
            assert(i * n_embd + n_embd <= k * n_embd) by (nonlinear_arith)
                requires
                    i + 1 <= k,
                    0 <= n_embd,
            ;
            self.comp_step(
                normed_k,
                n_embd,
                head_dim,
                &weights.0,
                &weights.1,
                ape,
                states.0,
                states.1,
                ratio,
                pos,
                i,
            )?;
            if (pos + 1) % ratio == 0 {
                proof {
                    lemma_emitted_len(base_pos as int, ratio as int, i as int);
                    lemma_row(avail@.len() as int, n_comp + k, head_dim as int);
                }
                let ring_row: u64 = avail.len() as u64;
                self.emit_row(
                    states.0,
                    states.1,
                    &weights.2,
                    head_dim,
                    params,
                    pos,
                    ring,
                    ring_row,
                )?;
                avail.push(pos + 1);
            }
            i = i + 1;
            assert(avail@ =~= first + emitted(base_pos as int, ratio as int, i as int));
        }
        Ok(())
    }

    fn compress(
        &mut self,
        ctx: &CompVerifyCtx,
        normed_k: &DeferredBuf,
        shape: AttnShape,
        place: Place,
        ring: BufId,
        avail: &mut Vec<u32>,
    ) -> (r: Result<(), EncodeError>)
        requires
            shape.fits(place.params),
            place_fits(shape, place, Some(*ctx), old(self)@.config.trap_zero_weight),
            ctx.n_comp > 0,
            emits(*ctx, place.params),
            normed_k.n_elements == place.k * shape.n_embd,
            old(avail)@.len() == ctx.n_comp,
        ensures
            (final(self)@, r) == old(self)@.compress(*ctx, *normed_k, shape, place, ring),
            r is Ok ==> final(avail)@ == old(avail)@ + emitted(
                place.base_pos as int,
                place.params.compress_ratio as int,
                place.k as int,
            ),
            final(self)@.encodes(old(self)@),
            final(self)@.pools.carrier == old(self)@.pools.carrier,
    {
        proof {
            reveal(Trace::compress);
        }
        let bytes: u64 = 64 * shape.head_dim;
        self.put(Command::CompStateKv { layer: place.layer, bytes });
        self.put(Command::CompStateScore { layer: place.layer, bytes });
        let w_kv: DeferredBuf = self.weight_f32(ctx.attn_comp.w_kv);
        let w_gate: DeferredBuf = self.weight_f32(ctx.attn_comp.w_gate);
        let w_norm: DeferredBuf = self.weight_f32(ctx.attn_comp.w_norm);
        self.comp_rows(
            normed_k,
            shape.n_embd,
            shape.head_dim,
            (w_kv, w_gate, w_norm),
            Ape::Transposed {
                host: ctx.attn_comp.w_ape,
                width: 2 * shape.head_dim,
                ratio: place.params.compress_ratio as u64,
            },
            (BufId::CompStateKv(place.layer), BufId::CompStateScore(place.layer)),
            ring,
            ctx.n_comp,
            &place.params,
            place.base_pos,
            place.k,
            avail,
        )
    }

    fn zeros(n: u32) -> (r: Vec<u32>)
        ensures
            r@ == Seq::new(n as nat, |j: int| 0u32),
    {
        let mut v: Vec<u32> = Vec::new();
        let mut i: u32 = 0;
        while i < n
            invariant
                i <= n,
                v@ == Seq::new(i as nat, |j: int| 0u32),
            decreases n - i,
        {
            v.push(0);
            i = i + 1;
            assert(v@ =~= Seq::new(i as nat, |j: int| 0u32));
        }
        v
    }

    fn attend(
        &mut self,
        half: &LayerAttnHalfOutsK,
        kv_cache: &DeferredBuf,
        shape: AttnShape,
        place: Place,
        flash_scale: F32,
        sinks: &DeferredBuf,
        comp: Option<CompVerifyCtx>,
    ) -> (r: Result<DeferredBuf, EncodeError>)
        requires
            shape.fits(place.params),
            place_fits(shape, place, comp, old(self)@.config.trap_zero_weight),
            half.normed_k.n_elements == place.k * shape.n_embd,
        ensures
            (final(self)@, r) == old(self)@.attend(
                *half,
                *kv_cache,
                shape,
                place,
                flash_scale,
                *sinks,
                comp,
            ),
            r matches Ok(b) ==> b.n_elements == place.k * shape.n_head * shape.head_dim,
            final(self)@.encodes(old(self)@),
            final(self)@.pools.carrier == old(self)@.pools.carrier,
    {
        proof {
            reveal(Trace::attend);
        }
        match comp {
            Some(ctx) if ctx.n_comp > 0 => {
                let ring: BufId = BufId::CompRing(place.layer);
                proof {
                    assert(0 <= place.raw_cap * shape.head_dim) by (nonlinear_arith);
                }
                let bytes: u64 = place.raw_cap as u64 * shape.head_dim * 4;
                self.put(Command::CompRing { layer: place.layer, bytes });
                let mut avail: Vec<u32> = BatchScope::zeros(ctx.n_comp);
                if place.params.compress_ratio == 4 && ctx.attn_comp.w_kv.len > 0 {
                    self.compress(&ctx, &half.normed_k, shape, place, ring, &mut avail)?;
                    proof {
                        lemma_emitted_len(
                            place.base_pos as int,
                            place.params.compress_ratio as int,
                            place.k as int,
                        );
                    }
                } else {
                    assert(avail@ + Seq::<u32>::empty() =~= avail@);
                }
                self.flash_attn_k_mla_comp(
                    &half.q_heads_k,
                    kv_cache,
                    ring,
                    avail.len() as u32,
                    avail.as_slice(),
                    shape.n_head,
                    shape.head_dim,
                    shape.head_dim,
                    place.raw_cap as u64,
                    place.k,
                    flash_scale,
                    place.attn_base_pos,
                    sinks,
                )
            },
            _ => self.flash_attn_k_mla(
                &half.q_heads_k,
                kv_cache,
                shape.n_head,
                shape.head_dim,
                shape.head_dim,
                place.raw_cap as u64,
                place.k,
                flash_scale,
                place.attn_base_pos,
                sinks,
            ),
        }
    }

    #[verifier::rlimit(40)]
    fn attn_tail(
        &mut self,
        half: &LayerAttnHalfOutsK,
        shape: AttnShape,
        out: AttnOutput,
        place: Place,
        comp: Option<CompVerifyCtx>,
    ) -> (r: Result<DeferredBuf, EncodeError>)
        requires
            shape.fits(place.params),
            place_fits(shape, place, comp, old(self)@.config.trap_zero_weight),
            shape.n_head * shape.head_dim == out.n_groups * out.group_dim,
            extent(out.n_groups),
            extent(out.n_lora_o),
            extent(out.group_dim),
            extent(out.out_low_dim),
            elements(place.k * out.out_low_dim),
            half.normed_k.n_elements == place.k * shape.n_embd,
        ensures
            (final(self)@, r) == old(self)@.attn_tail(*half, shape, out, place, comp),
            r matches Ok(b) ==> b.n_elements == place.k * shape.n_embd,
            final(self)@.extends(old(self)@),
            final(self)@.pools.carrier == old(self)@.pools.carrier,
            old(self)@.config.quiet() ==> final(self)@.encodes(old(self)@),
    {
        proof {
            reveal(Trace::attn_tail);
            assert(place.k * out.n_groups * out.group_dim == place.k * shape.n_head
                * shape.head_dim) by (nonlinear_arith)
                requires
                    shape.n_head * shape.head_dim == out.n_groups * out.group_dim,
            ;
        }
        let k: u64 = place.k;
        let q_dim: u64 = times(shape.n_head, shape.head_dim);
        let show_normed: bool = is_layer(self.config.dump_normed_layer, place.layer) && k >= 2;
        let show_flash: bool = is_layer(self.config.dump_flash_layer, place.layer);
        self.dump_row(
            show_normed,
            Stage::DumpNormedK,
            Dump::Normed,
            place.layer,
            half.normed_k.buf,
            shape.n_embd,
        );
        let kv_cache: DeferredBuf = self.kv_fp8_store_persistent_k(
            place.layer,
            &half.kv_normed_rotated_k,
            &place.params,
            place.raw_cap,
            place.base_slot,
            k,
        )?;
        self.rope_tail_q_heads_in_place_k(
            &half.q_heads_k,
            shape.n_head,
            shape.head_dim,
            &place.params,
            place.base_pos,
            k,
            false,
        )?;
        let flash: DeferredBuf = self.attend(
            half,
            &kv_cache,
            shape,
            place,
            out.flash_scale,
            &out.sinks,
            comp,
        )?;
        self.dump_row(
            show_flash,
            Stage::DumpFlashK,
            Dump::Flash,
            place.layer,
            flash.buf,
            q_dim,
        );
        self.rope_tail_q_heads_in_place_k(
            &flash,
            shape.n_head,
            shape.head_dim,
            &place.params,
            place.base_pos,
            k,
            true,
        )?;
        let (_, attn_out): (DeferredBuf, DeferredBuf) = self.encode_attn_output_matmuls_q8_k(
            &flash,
            &out.w_o_a,
            &out.w_o_b,
            out.n_groups,
            out.n_lora_o,
            out.group_dim,
            out.out_low_dim,
            shape.n_embd,
            k,
        )?;
        Ok(attn_out)
    }

    /// The whole attention of a layer for several positions.
    pub fn encode_attn_chain_k(
        &mut self,
        prev_hc_k: &DeferredBuf,
        hc_fn: &DeferredBuf,
        hc_scale: &DeferredBuf,
        hc_base: &DeferredBuf,
        hc_norm_gamma: &DeferredBuf,
        unit_gamma_hc: &DeferredBuf,
        attn_q_a_q8: &DeferredBuf,
        gamma_q: &DeferredBuf,
        attn_q_b_q8: &DeferredBuf,
        attn_kv_q8: &DeferredBuf,
        qkv_gamma_kv: &DeferredBuf,
        w_o_a_q8: &DeferredBuf,
        w_o_b_q8: &DeferredBuf,
        n_hc: u64,
        n_embd: u64,
        n_lora_q: u64,
        n_head: u64,
        head_dim: u64,
        kv_row: u64,
        n_groups: u64,
        n_lora_o: u64,
        group_dim: u64,
        out_low_dim: u64,
        sinkhorn_iters: i32,
        hc_eps: F32,
        rms_eps: F32,
        flash_scale: F32,
        layer_idx: u32,
        layer_params: &LayerParams,
        raw_cap: u32,
        base_slot: u32,
        base_pos: u32,
        attn_base_pos: u32,
        attn_sinks: &DeferredBuf,
        k_positions: u64,
        comp: Option<CompVerifyCtx>,
    ) -> (r: Result<(LayerAttnHalfOutsK, DeferredBuf), EncodeError>)
        requires
            (AttnShape {
                n_hc,
                n_embd,
                n_lora_q,
                n_head,
                head_dim,
                kv_row,
                sinkhorn_iters,
                hc_eps,
                rms_eps,
            }).fits(*layer_params),
            place_fits(
                (AttnShape {
                    n_hc,
                    n_embd,
                    n_lora_q,
                    n_head,
                    head_dim,
                    kv_row,
                    sinkhorn_iters,
                    hc_eps,
                    rms_eps,
                }),
                (Place {
                    layer: layer_idx,
                    params: *layer_params,
                    raw_cap,
                    base_slot,
                    base_pos,
                    attn_base_pos,
                    k: k_positions,
                }),
                comp,
                old(self)@.config.trap_zero_weight,
            ),
            extent(n_groups),
            extent(n_lora_o),
            extent(group_dim),
            extent(out_low_dim),
            elements(k_positions * out_low_dim),
        ensures
            (final(self)@, r) == old(self)@.encode_attn_chain_k(
                *prev_hc_k,
                (AttnWeights {
                    hc_fn: *hc_fn,
                    hc_scale: *hc_scale,
                    hc_base: *hc_base,
                    hc_norm_gamma: *hc_norm_gamma,
                    unit_gamma_hc: *unit_gamma_hc,
                    q_a: *attn_q_a_q8,
                    gamma_q: *gamma_q,
                    q_b: *attn_q_b_q8,
                    kv: *attn_kv_q8,
                    gamma_kv: *qkv_gamma_kv,
                }),
                (AttnShape {
                    n_hc,
                    n_embd,
                    n_lora_q,
                    n_head,
                    head_dim,
                    kv_row,
                    sinkhorn_iters,
                    hc_eps,
                    rms_eps,
                }),
                (AttnOutput {
                    w_o_a: *w_o_a_q8,
                    w_o_b: *w_o_b_q8,
                    n_groups,
                    n_lora_o,
                    group_dim,
                    out_low_dim,
                    flash_scale,
                    sinks: *attn_sinks,
                }),
                (Place {
                    layer: layer_idx,
                    params: *layer_params,
                    raw_cap,
                    base_slot,
                    base_pos,
                    attn_base_pos,
                    k: k_positions,
                }),
                comp,
            ),
            r matches Ok(b) ==> b.0.split_k.n_elements == k_positions * mix_hc(n_hc)
                && b.1.n_elements == k_positions * n_embd,
            final(self)@.extends(old(self)@),
            final(self)@.pools.carrier == old(self)@.pools.carrier,
            old(self)@.config.quiet() ==> final(self)@.encodes(old(self)@),
    {
        proof {
            reveal(Trace::encode_attn_chain_k);
        }
        let shape: AttnShape = AttnShape {
            n_hc,
            n_embd,
            n_lora_q,
            n_head,
            head_dim,
            kv_row,
            sinkhorn_iters,
            hc_eps,
            rms_eps,
        };
        let out: AttnOutput = AttnOutput {
            w_o_a: *w_o_a_q8,
            w_o_b: *w_o_b_q8,
            n_groups,
            n_lora_o,
            group_dim,
            out_low_dim,
            flash_scale,
            sinks: *attn_sinks,
        };
        let place: Place = Place {
            layer: layer_idx,
            params: *layer_params,
            raw_cap,
            base_slot,
            base_pos,
            attn_base_pos,
            k: k_positions,
        };
        if times(n_head, head_dim) != times(n_groups, group_dim) {
            return Err(
                unfit(Check::HeadShape, times(n_head, head_dim), times(n_groups, group_dim)),
            );
        }
        let half: LayerAttnHalfOutsK = self.encode_layer_attn_half_k(
            prev_hc_k,
            hc_fn,
            hc_scale,
            hc_base,
            hc_norm_gamma,
            unit_gamma_hc,
            attn_q_a_q8,
            gamma_q,
            attn_q_b_q8,
            attn_kv_q8,
            qkv_gamma_kv,
            n_hc,
            n_embd,
            n_lora_q,
            n_head,
            head_dim,
            kv_row,
            sinkhorn_iters,
            hc_eps,
            rms_eps,
            layer_params,
            base_pos,
            k_positions,
            false,
        )?;
        let attn_out: DeferredBuf = self.attn_tail(&half, shape, out, place, comp)?;
        Ok((half, attn_out))
    }
}

/// Whether a switch names this layer.
pub(crate) fn is_layer(on: Option<u32>, layer: u32) -> (r: bool)
    ensures
        r == (on == Some(layer)),
{
    match on {
        Some(l) => l == layer,
        None => false,
    }
}

} // verus!
