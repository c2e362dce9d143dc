//! The drafter, and the verifier of what it drafts.

use crate::arith::{MAX_EXTENT, elements, extent, lemma_product, row_offset, times};
use crate::command::{Args, BufId, Command, DeferredBuf, F32, Groups, HcWsArgs, Stage};
use crate::config::{BaseLayerVerifyBundle, CompVerifyCtx, CompressorInputs, Config,
    DS4_N_INDEXER_HEAD_DIM, EngineView, LayerParams, MtpDraftInputMix, MtpDraftLayerWeights,
    MtpDraftOutputHead, MtpDraftShape};
use crate::error::{Check, EncodeError, unfit};
use crate::ffn::{FfnShape, FfnWeights};
use crate::hc::streams;
use crate::kernel::{Consts, Kernel, Pipe};
use crate::layer::{AttnOutput, AttnShape, AttnWeights, Place, place_fits};
use crate::matmul::{nsg_by_width, nxpsg_for, spec_nsg_by_width, spec_nxpsg};
use crate::moe::experts_fit;
use crate::scope::BatchScope;
use crate::trace::Trace;
use vstd::prelude::*;

verus! {

broadcast use {crate::trace::group_encodes, crate::trace::group_extends};

/// The dimensions of a whole layer.
#[derive(Clone, Copy, PartialEq, Eq, Structural, Debug)]
pub struct LayerShape {
    pub n_embd: u64,
    pub n_hc: u64,
    pub n_lora_q: u64,
    pub n_head: u64,
    pub head_dim: u64,
    pub kv_row: u64,
    pub n_groups: u64,
    pub n_lora_o: u64,
    pub group_dim: u64,
    pub out_low_dim: u64,
    pub n_experts: u64,
    pub d_ffn: u64,
    pub shared_dim: u32,
    pub sinkhorn_iters: i32,
    pub hc_eps: F32,
    pub rms_eps: F32,
    pub flash_scale: F32,
}

impl LayerShape {
    pub open spec fn attn(self) -> AttnShape {
        AttnShape {
            n_hc: self.n_hc,
            n_embd: self.n_embd,
            n_lora_q: self.n_lora_q,
            n_head: self.n_head,
            head_dim: self.head_dim,
            kv_row: self.kv_row,
            sinkhorn_iters: self.sinkhorn_iters,
            hc_eps: self.hc_eps,
            rms_eps: self.rms_eps,
        }
    }

    pub open spec fn output(self, w_o_a: DeferredBuf, w_o_b: DeferredBuf, sinks: DeferredBuf)
        -> AttnOutput {
        AttnOutput {
            w_o_a,
            w_o_b,
            n_groups: self.n_groups,
            n_lora_o: self.n_lora_o,
            group_dim: self.group_dim,
            out_low_dim: self.out_low_dim,
            flash_scale: self.flash_scale,
            sinks,
        }
    }

    pub open spec fn ffn(self) -> FfnShape {
        FfnShape {
            n_hc: self.n_hc,
            n_embd: self.n_embd,
            n_experts: self.n_experts,
            d_ffn: self.d_ffn,
            shared_dim: self.shared_dim,
            sinkhorn_iters: self.sinkhorn_iters,
            hc_eps: self.hc_eps,
            rms_eps: self.rms_eps,
        }
    }

    /// A layer of these dimensions fits the kernels, the cache and the engine.
    pub open spec fn fits(
        self,
        place: Place,
        comp: Option<CompVerifyCtx>,
        engine: EngineView,
        config: Config,
    ) -> bool {
        &&& self.attn().fits(place.params)
        &&& place_fits(self.attn(), place, comp, config.trap_zero_weight)
        &&& extent(self.n_groups)
        &&& extent(self.n_lora_o)
        &&& extent(self.group_dim)
        &&& extent(self.out_low_dim)
        &&& elements(place.k * self.out_low_dim)
        &&& self.ffn().fits(place.k)
        &&& experts_fit(engine, config, place.layer, self.n_embd, self.d_ffn, place.k)
    }
}

/// The dimensions of the drafter's layer.
pub open spec fn draft_layer(s: MtpDraftShape) -> LayerShape {
    LayerShape {
        n_embd: s.n_embd,
        n_hc: s.n_hc,
        n_lora_q: s.n_lora_q,
        n_head: s.n_head,
        head_dim: s.head_dim,
        kv_row: s.kv_row,
        n_groups: s.n_groups,
        n_lora_o: s.n_lora_o,
        group_dim: s.group_dim,
        out_low_dim: s.out_low_dim,
        n_experts: s.n_experts,
        d_ffn: s.d_ffn,
        shared_dim: s.shared_dim,
        sinkhorn_iters: s.sinkhorn_iters,
        hc_eps: s.hc_eps,
        rms_eps: s.rms_eps,
        flash_scale: s.flash_scale,
    }
}

impl MtpDraftLayerWeights {
    pub open spec fn attn(self, unit_gamma_hc: DeferredBuf) -> AttnWeights {
        AttnWeights {
            hc_fn: self.hc_attn_fn,
            hc_scale: self.hc_attn_scale,
            hc_base: self.hc_attn_base,
            hc_norm_gamma: self.attn_norm,
            unit_gamma_hc,
            q_a: self.attn_q_a_q8,
            gamma_q: self.gamma_q,
            q_b: self.attn_q_b_q8,
            kv: self.attn_kv_q8,
            gamma_kv: self.gamma_kv,
        }
    }

    pub open spec fn ffn(self, unit_gamma_hc: DeferredBuf) -> FfnWeights {
        FfnWeights {
            hc_fn: self.hc_ffn_fn,
            hc_fn_is_f16: false,
            hc_scale: self.hc_ffn_scale,
            hc_base: self.hc_ffn_base,
            hc_norm_gamma: self.ffn_norm,
            unit_gamma_hc,
            router: self.w_router,
            router_is_f16: false,
            router_bias: self.router_bias,
            sh_gate: self.sh_w_gate,
            sh_up: self.sh_w_up,
            sh_down: self.sh_w_down,
            sh_gate_q8: self.sh_w_gate_q8,
            sh_up_q8: self.sh_w_up_q8,
            sh_down_q8: self.sh_w_down_q8,
        }
    }
}

impl BaseLayerVerifyBundle {
    pub open spec fn attn(self, unit_gamma_hc: DeferredBuf) -> AttnWeights {
        AttnWeights {
            hc_fn: self.hc_attn_fn,
            hc_scale: self.hc_attn_scale,
            hc_base: self.hc_attn_base,
            hc_norm_gamma: self.attn_norm,
            unit_gamma_hc,
            q_a: self.attn_q_a_q8,
            gamma_q: self.gamma_q,
            q_b: self.attn_q_b_q8,
            kv: self.attn_kv_q8,
            gamma_kv: self.gamma_kv,
        }
    }

    pub open spec fn ffn(self, unit_gamma_hc: DeferredBuf) -> FfnWeights {
        FfnWeights {
            hc_fn: self.hc_ffn_fn,
            hc_fn_is_f16: false,
            hc_scale: self.hc_ffn_scale,
            hc_base: self.hc_ffn_base,
            hc_norm_gamma: self.ffn_norm,
            unit_gamma_hc,
            router: self.w_router,
            router_is_f16: false,
            router_bias: self.router_bias,
            sh_gate: self.sh_w_gate,
            sh_up: self.sh_w_up,
            sh_down: self.sh_w_down,
            sh_gate_q8: self.sh_w_gate_q8,
            sh_up_q8: self.sh_w_up_q8,
            sh_down_q8: self.sh_w_down_q8,
        }
    }

    /// The layer attends to compressed rows where the ring holds some and the
    /// layer has a compressor of the right ratio.
    pub open spec fn spec_comp_ctx(self, n_comp: Option<u32>) -> Option<CompVerifyCtx> {
        if n_comp matches Some(n) && n > 0 && self.layer_params.compress_ratio == 4 && (
        self.attn_compressor_kv.len > 0 || self.attn_compressor_kv_f16 is Some) {
            Some(
                CompVerifyCtx {
                    n_comp: n_comp->Some_0,
                    attn_sinks_cpu: self.attn_sinks_cpu,
                    attn_comp: CompressorInputs {
                        w_kv: self.attn_compressor_kv,
                        w_gate: self.attn_compressor_gate,
                        w_kv_f16: self.attn_compressor_kv_f16,
                        w_gate_f16: self.attn_compressor_gate_f16,
                        w_ape: self.attn_compressor_ape,
                        w_norm: self.attn_compressor_norm,
                        head_dim: self.layer_params.head_dim,
                        compress_ratio: self.layer_params.compress_ratio,
                    },
                    idx_comp: CompressorInputs {
                        w_kv: self.indexer_compressor_kv,
                        w_gate: self.indexer_compressor_gate,
                        w_kv_f16: self.indexer_compressor_kv_f16,
                        w_gate_f16: self.indexer_compressor_gate_f16,
                        w_ape: self.indexer_compressor_ape,
                        w_norm: self.indexer_compressor_norm,
                        head_dim: DS4_N_INDEXER_HEAD_DIM,
                        compress_ratio: self.layer_params.compress_ratio,
                    },
                },
            )
        } else {
            None
        }
    }

    fn comp_ctx(&self, n_comp: Option<u32>) -> (r: Option<CompVerifyCtx>)
        ensures
            r == self.spec_comp_ctx(n_comp),
    {
        let ratio: u32 = self.layer_params.compress_ratio;
        match n_comp {
            Some(n) if n > 0 && ratio == 4 && (self.attn_compressor_kv.len > 0
                || self.attn_compressor_kv_f16.is_some()) => Some(
                CompVerifyCtx {
                    n_comp: n,
                    attn_sinks_cpu: self.attn_sinks_cpu,
                    attn_comp: CompressorInputs {
                        w_kv: self.attn_compressor_kv,
                        w_gate: self.attn_compressor_gate,
                        w_kv_f16: self.attn_compressor_kv_f16,
                        w_gate_f16: self.attn_compressor_gate_f16,
                        w_ape: self.attn_compressor_ape,
                        w_norm: self.attn_compressor_norm,
                        head_dim: self.layer_params.head_dim,
                        compress_ratio: ratio,
                    },
                    idx_comp: CompressorInputs {
                        w_kv: self.indexer_compressor_kv,
                        w_gate: self.indexer_compressor_gate,
                        w_kv_f16: self.indexer_compressor_kv_f16,
                        w_gate_f16: self.indexer_compressor_gate_f16,
                        w_ape: self.indexer_compressor_ape,
                        w_norm: self.indexer_compressor_norm,
                        head_dim: DS4_N_INDEXER_HEAD_DIM,
                        compress_ratio: ratio,
                    },
                },
            ),
            _ => None,
        }
    }
}

/// The arguments of the weighted sum of the residual streams of `k` positions.
pub open spec fn spec_ws_args(n_embd: u64, n_hc: u64, k: u64) -> HcWsArgs {
    HcWsArgs {
        n_embd: n_embd as i64,
        n_hc: n_hc as i64,
        n_tokens: k as i64,
        nb_x0: 4,
        nb_x1: (n_embd * 4) as u64,
        nb_x2: (n_hc * n_embd * 4) as u64,
        nb_w0: 4,
        nb_w1: (n_hc * 4) as u64,
        nb0: 4,
        nb1: (n_embd * 4) as u64,
    }
}

/// The weights of an output head.
#[derive(Clone, Copy, PartialEq, Eq, Structural, Debug)]
pub struct HeadWeights {
    pub unit_gamma_hc: DeferredBuf,
    pub hc_fn: DeferredBuf,
    pub hc_scale: DeferredBuf,
    pub hc_base: DeferredBuf,
    pub norm_gamma: DeferredBuf,
    pub lm_head: DeferredBuf,
}

/// Where verification starts.
#[derive(Clone, Copy, PartialEq, Eq, Structural, Debug)]
pub struct VerifyAt {
    pub raw_cap: u32,
    pub base_slot: u32,
    pub base_pos: u32,
    pub k: u64,
}

impl VerifyAt {
    /// Where layer `i` of the verifier stands. Every position sees what came
    /// before it and itself.
    pub open spec fn place(self, layer: int, params: LayerParams) -> Place {
        Place {
            layer: layer as u32,
            params,
            raw_cap: self.raw_cap,
            base_slot: self.base_slot,
            base_pos: self.base_pos,
            attn_base_pos: self.base_pos,
            k: self.k,
        }
    }
}

/// How many layers the verifier runs.
pub open spec fn spec_depth(config: Config, n_layers: nat) -> nat {
    match config.verify_n_layers {
        Some(n) if n < n_layers => n as nat,
        _ => n_layers,
    }
}

/// The compressed rows that layer `i` starts from.
pub open spec fn ring_rows(comp: Option<Seq<u32>>, i: int) -> Option<u32> {
    match comp {
        Some(s) => Some(s[i]),
        None => None,
    }
}

impl Trace {
    #[verifier::opaque]
    pub open spec fn encode_mtp_input_mix(
        self,
        token_embed: DeferredBuf,
        prev_hc: DeferredBuf,
        mix: MtpDraftInputMix,
        n_embd: u64,
        n_hc: u64,
        rms_eps: F32,
    ) -> (Trace, Result<DeferredBuf, EncodeError>) {
        if token_embed.n_elements != n_embd {
            self.refuse(Check::InputLen, token_embed.n_elements as int, n_embd as int)
        } else if prev_hc.n_elements != n_hc * n_embd {
            self.refuse(Check::ResidualLen, prev_hc.n_elements as int, n_hc * n_embd)
        } else if n_hc != 1 && n_hc != 2 && n_hc != 4 && n_hc != 8 {
            self.refuse(Check::Positions, n_hc as int, 8)
        } else {
            let (t, enorm) = self.rms_norm_mul(token_embed, mix.enorm_gamma, rms_eps);
            if enorm is Err {
                (t, enorm)
            } else {
                let (t, eproj) = t.matvec_q8_0(mix.e_proj_q8, enorm->Ok_0, n_embd, n_embd);
                if eproj is Err {
                    (t, eproj)
                } else {
                    let (t, hnorm) = t.rms_norm_mul_k(
                        prev_hc,
                        mix.hnorm_gamma,
                        n_embd,
                        n_hc,
                        rms_eps,
                    );
                    if hnorm is Err {
                        (t, hnorm)
                    } else {
                        let (t, hproj) = t.matvec_k_q8_0(
                            mix.h_proj_q8,
                            hnorm->Ok_0,
                            n_embd,
                            n_embd,
                            n_hc,
                        );
                        if hproj is Err {
                            (t, hproj)
                        } else {
                            let n = (n_hc * n_embd) as u64;
                            let (t, out) = t.alloc_f32(n);
                            (
                                t.put(Command::Encoder).put(
                                    Command::Pipeline(
                                        Pipe::Special(Kernel::MtpInputMix, Consts::Plain),
                                    ),
                                ).buf_at(0, eproj->Ok_0.buf).buf_at(1, hproj->Ok_0.buf).buf_at(
                                    2,
                                    out.buf,
                                ).u32_at(3, n_embd as u32).u32_at(4, n_hc as u32).put(
                                    Command::DispatchUpTo {
                                        groups: Groups::Cover(n),
                                        want: n,
                                        at_least_one: true,
                                    },
                                ).put(Command::EndEncoder),
                                Ok(out),
                            )
                        }
                    }
                }
            }
        }
    }

    /// The factors of the residual streams of one position, `off` bytes in.
    pub open spec fn head_weights_launch(
        self,
        pre: BufId,
        scale: BufId,
        base: BufId,
        out: BufId,
        off: u64,
        n_hc: u64,
        hc_eps: F32,
    ) -> Trace {
        self.put(Command::Encoder).put(
            Command::Pipeline(Pipe::Special(Kernel::MtpOutputHcWeights, Consts::Plain)),
        ).put(Command::Buffer(0, pre, off)).buf_at(1, scale).buf_at(2, base).put(
            Command::Buffer(3, out, off),
        ).u32_at(4, n_hc as u32).f32_at(5, hc_eps).put(
            Command::DispatchUpTo {
                groups: Groups::Count(1),
                want: n_hc,
                at_least_one: true,
            },
        ).put(Command::EndEncoder)
    }

    /// The factors of several positions, from position `i` on.
    pub open spec fn head_weights_rows(
        self,
        pre: BufId,
        scale: BufId,
        base: BufId,
        out: BufId,
        n_hc: u64,
        hc_eps: F32,
        k: u64,
        i: int,
    ) -> Trace
        decreases k - i,
    {
        if i >= k {
            self
        } else {
            self.head_weights_launch(
                pre,
                scale,
                base,
                out,
                (i * (n_hc * 4)) as u64,
                n_hc,
                hc_eps,
            ).head_weights_rows(pre, scale, base, out, n_hc, hc_eps, k, i + 1)
        }
    }

    /// The weighted sum of the residual streams of `k` positions.
    pub open spec fn weighted_sum_launch(
        self,
        hc: BufId,
        weights: BufId,
        out: BufId,
        n_embd: u64,
        n_hc: u64,
        k: u64,
    ) -> Trace {
        let n = (n_embd * k) as u64;
        self.put(Command::Encoder).put(
            Command::Pipeline(Pipe::Special(Kernel::HcWeightedSum, Consts::Plain)),
        ).put(Command::Bytes(0, Args::HcWs(spec_ws_args(n_embd, n_hc, k)))).buf_at(1, hc).buf_at(
            2,
            weights,
        ).buf_at(3, out).put(
            Command::DispatchUpTo { groups: Groups::Cover(n), want: n, at_least_one: true },
        ).put(Command::EndEncoder)
    }

    #[verifier::opaque]
    pub open spec fn encode_mtp_output_head(
        self,
        cur_hc: DeferredBuf,
        w: HeadWeights,
        n_embd: u64,
        n_hc: u64,
        vocab: u64,
        rms_eps: F32,
        hc_eps: F32,
    ) -> (Trace, Result<DeferredBuf, EncodeError>) {
        let hc_dim = (n_hc * n_embd) as u64;
        if cur_hc.n_elements != hc_dim {
            self.refuse(Check::InputLen, cur_hc.n_elements as int, hc_dim as int)
        } else if w.unit_gamma_hc.n_elements != hc_dim {
            self.refuse(Check::UnitGammaLen, w.unit_gamma_hc.n_elements as int, hc_dim as int)
        } else if w.hc_fn.n_elements != hc_dim * n_hc {
            self.refuse(Check::WeightLen, w.hc_fn.n_elements as int, hc_dim * n_hc)
        } else if w.hc_base.n_elements != n_hc {
            self.refuse(Check::BaseLen, w.hc_base.n_elements as int, n_hc as int)
        } else if w.norm_gamma.n_elements != n_embd {
            self.refuse(Check::GammaLen, w.norm_gamma.n_elements as int, n_embd as int)
        } else {
            let (t, flat) = self.rms_norm_mul(cur_hc, w.unit_gamma_hc, rms_eps);
            if flat is Err {
                (t, flat)
            } else {
                let (t, pre) = t.matvec_f32(w.hc_fn, flat->Ok_0, hc_dim, n_hc);
                if pre is Err {
                    (t, pre)
                } else {
                    let (t, weights) = t.alloc_f32(n_hc);
                    let t = t.head_weights_launch(
                        pre->Ok_0.buf,
                        w.hc_scale.buf,
                        w.hc_base.buf,
                        weights.buf,
                        0,
                        n_hc,
                        hc_eps,
                    );
                    let (t, embd) = t.alloc_f32(n_embd);
                    let t = t.weighted_sum_launch(
                        cur_hc.buf,
                        weights.buf,
                        embd.buf,
                        n_embd,
                        n_hc,
                        1,
                    );
                    let (t, norm) = t.rms_norm_mul(embd, w.norm_gamma, rms_eps);
                    if norm is Err {
                        (t, norm)
                    } else {
                        t.matvec_q8_0(w.lm_head, norm->Ok_0, n_embd, vocab)
                    }
                }
            }
        }
    }

    #[verifier::opaque]
    #[allow(non_snake_case)]
    pub open spec fn encode_verify_output_head_K(
        self,
        cur_hc: DeferredBuf,
        w: HeadWeights,
        n_embd: u64,
        n_hc: u64,
        vocab: u64,
        k: u64,
        rms_eps: F32,
        hc_eps: F32,
    ) -> (Trace, Result<DeferredBuf, EncodeError>) {
        let hc_dim = (n_hc * n_embd) as u64;
        if cur_hc.n_elements != k * hc_dim {
            self.refuse(Check::InputLen, cur_hc.n_elements as int, k * hc_dim)
        } else if w.unit_gamma_hc.n_elements != hc_dim {
            self.refuse(Check::UnitGammaLen, w.unit_gamma_hc.n_elements as int, hc_dim as int)
        } else if w.hc_fn.n_elements != hc_dim * n_hc {
            self.refuse(Check::WeightLen, w.hc_fn.n_elements as int, hc_dim * n_hc)
        } else if w.hc_base.n_elements != n_hc {
            self.refuse(Check::BaseLen, w.hc_base.n_elements as int, n_hc as int)
        } else if w.norm_gamma.n_elements != n_embd {
            self.refuse(Check::GammaLen, w.norm_gamma.n_elements as int, n_embd as int)
        } else {
            let (t, flat) = self.rms_norm_mul_k(cur_hc, w.unit_gamma_hc, hc_dim, k, rms_eps);
            if flat is Err {
                (t, flat)
            } else {
                let nsg = spec_nsg_by_width(hc_dim);
                let (t, pre) = t.alloc_f32((k * n_hc) as u64);
                let t = t.mv_rows(
                    Pipe::Special(
                        Kernel::MulMvF32,
                        Consts::Rows { nsg, nxpsg: spec_nxpsg(hc_dim) },
                    ),
                    nsg,
                    w.hc_fn.buf,
                    flat->Ok_0.buf,
                    pre.buf,
                    n_hc,
                    hc_dim,
                    4,
                    k,
                    0,
                );
                let (t, weights) = t.alloc_f32((k * n_hc) as u64);
                let t = t.head_weights_rows(
                    pre.buf,
                    w.hc_scale.buf,
                    w.hc_base.buf,
                    weights.buf,
                    n_hc,
                    hc_eps,
                    k,
                    0,
                );
                let (t, embd) = t.alloc_f32((k * n_embd) as u64);
                let t = t.weighted_sum_launch(
                    cur_hc.buf,
                    weights.buf,
                    embd.buf,
                    n_embd,
                    n_hc,
                    k,
                );
                let (t, norm) = t.rms_norm_mul_k(embd, w.norm_gamma, n_embd, k, rms_eps);
                if norm is Err {
                    (t, norm)
                } else {
                    t.matvec_k_q8_0(w.lm_head, norm->Ok_0, n_embd, vocab, k)
                }
            }
        }
    }

    #[verifier::opaque]
    pub open spec fn encode_mtp_draft_with_out_hc(
        self,
        prev_hc: DeferredBuf,
        token_embed: DeferredBuf,
        mix: MtpDraftInputMix,
        layer: MtpDraftLayerWeights,
        head: MtpDraftOutputHead,
        shape: MtpDraftShape,
        place: Place,
    ) -> (Trace, Result<(DeferredBuf, DeferredBuf), EncodeError>) {
        let (t, input) = self.encode_mtp_input_mix(
            token_embed,
            prev_hc,
            mix,
            shape.n_embd,
            shape.n_hc,
            shape.rms_eps,
        );
        if input is Err {
            t.failed(input)
        } else {
            let s = draft_layer(shape);
            let (t, out_hc) = t.encode_layer_k(
                input->Ok_0,
                layer.attn(head.unit_gamma_hc),
                s.attn(),
                s.output(layer.w_o_a_q8, layer.w_o_b_q8, layer.attn_sinks),
                place,
                None,
                layer.ffn(head.unit_gamma_hc),
                s.ffn(),
            );
            if out_hc is Err {
                t.failed(out_hc)
            } else {
                let (t, logits) = t.encode_mtp_output_head(
                    out_hc->Ok_0,
                    HeadWeights {
                        unit_gamma_hc: head.unit_gamma_hc,
                        hc_fn: head.hc_head_fn,
                        hc_scale: head.hc_head_scale,
                        hc_base: head.hc_head_base,
                        norm_gamma: head.mtp_norm,
                        lm_head: head.base_lm_head_q8,
                    },
                    shape.n_embd,
                    shape.n_hc,
                    shape.vocab,
                    shape.rms_eps,
                    shape.hc_eps,
                );
                if logits is Err {
                    t.failed(logits)
                } else {
                    (t, Ok((out_hc->Ok_0, logits->Ok_0)))
                }
            }
        }
    }

    /// What follows a verified layer: a diagnostic, and a split where one is due.
    #[verifier::opaque]
    pub open spec fn after_layer(
        self,
        config: Config,
        cur: DeferredBuf,
        ratio: u32,
        hc_dim: u64,
        k: u64,
        i: int,
        n_layers: nat,
    ) -> Trace {
        let t = if config.dump_layer_rms && k >= 3 {
            self.commit_wait_stage(Stage::VerifyLayerRms).put(
                Command::DumpLayerRms {
                    layer: i as u32,
                    ratio,
                    buf: cur.buf,
                    row: hc_dim,
                    last_row: if k - 1 < 3 {
                        (k - 1) as u64
                    } else {
                        3
                    },
                },
            )
        } else {
            self
        };
        match config.verify_cb_split {
            Some(split) if split > 0 && (i + 1) % split as int == 0 && i + 1 < n_layers =>
            t.commit_keep_open(),
            _ => t,
        }
    }

    /// The verifier's layers from layer `i` on, up to `depth`, under the switches
    /// `config`.
    pub open spec fn verify_from(
        self,
        config: Config,
        cur: DeferredBuf,
        layers: Seq<BaseLayerVerifyBundle>,
        unit_gamma_hc: DeferredBuf,
        shape: LayerShape,
        at: VerifyAt,
        comp: Option<Seq<u32>>,
        depth: nat,
        i: int,
    ) -> (Trace, Result<DeferredBuf, EncodeError>)
        decreases depth - i,
    {
        if i >= depth || i < 0 {
            (self, Ok(cur))
        } else {
            let layer = layers[i];
            let (t, next) = self.encode_layer_k(
                cur,
                layer.attn(unit_gamma_hc),
                shape.attn(),
                shape.output(layer.w_o_a_q8, layer.w_o_b_q8, layer.attn_sinks),
                at.place(i, layer.layer_params),
                layer.spec_comp_ctx(ring_rows(comp, i)),
                layer.ffn(unit_gamma_hc),
                shape.ffn(),
            );
            if next is Err {
                (t, next)
            } else {
                t.after_layer(
                    config,
                    next->Ok_0,
                    layer.layer_params.compress_ratio,
                    (shape.n_hc * shape.n_embd) as u64,
                    at.k,
                    i,
                    layers.len(),
                ).verify_from(
                    config,
                    next->Ok_0,
                    layers,
                    unit_gamma_hc,
                    shape,
                    at,
                    comp,
                    depth,
                    i + 1,
                )
            }
        }
    }

    #[verifier::opaque]
    #[allow(non_snake_case)]
    pub open spec fn encode_verify_layers_K(
        self,
        prev_hc_k: DeferredBuf,
        layers: Seq<BaseLayerVerifyBundle>,
        unit_gamma_hc: DeferredBuf,
        shape: LayerShape,
        at: VerifyAt,
        comp: Option<Seq<u32>>,
    ) -> (Trace, Result<DeferredBuf, EncodeError>) {
        if comp matches Some(c) && c.len() != layers.len() {
            self.refuse(Check::LayerCount, (comp->Some_0.len()) as int, layers.len() as int)
        } else if prev_hc_k.n_elements != at.k * (shape.n_hc * shape.n_embd) {
            self.refuse(
                Check::InputLen,
                prev_hc_k.n_elements as int,
                at.k * (shape.n_hc * shape.n_embd),
            )
        } else if layers.len() == 0 {
            self.refuse(Check::NoLayers, 0, 1)
        } else {
            self.verify_from(
                self.config,
                prev_hc_k,
                layers,
                unit_gamma_hc,
                shape,
                at,
                comp,
                spec_depth(self.config, layers.len()),
                0,
            )
        }
    }
}

/// Per-layer ring counts as the contracts speak of them.
pub open spec fn counts_view(c: Option<&[u32]>) -> Option<Seq<u32>> {
    match c {
        Some(s) => Some(s@),
        None => None,
    }
}

impl BatchScope {
    /// The drafter's input: the projected token embedding added to every
    /// projected residual stream.
    pub fn encode_mtp_input_mix(
        &mut self,
        token_embed_db: &DeferredBuf,
        prev_hc_db: &DeferredBuf,
        enorm_gamma_db: &DeferredBuf,
        e_proj_q8_db: &DeferredBuf,
        hnorm_gamma_db: &DeferredBuf,
        h_proj_q8_db: &DeferredBuf,
        n_embd: u64,
        n_hc: u64,
        rms_eps: F32,
    ) -> (r: Result<DeferredBuf, EncodeError>)
        requires
            extent(n_embd),
            extent(n_hc),
        ensures
            (final(self)@, r) == old(self)@.encode_mtp_input_mix(
                *token_embed_db,
                *prev_hc_db,
                (MtpDraftInputMix {
                    enorm_gamma: *enorm_gamma_db,
                    e_proj_q8: *e_proj_q8_db,
                    hnorm_gamma: *hnorm_gamma_db,
                    h_proj_q8: *h_proj_q8_db,
                }),
                n_embd,
                n_hc,
                rms_eps,
            ),
            r matches Ok(b) ==> b.n_elements == n_hc * n_embd,
            final(self)@.encodes(old(self)@),
            final(self)@.pools.carrier == old(self)@.pools.carrier,
    {
        proof {
            reveal(Trace::encode_mtp_input_mix);
        }
        let n: u64 = times(n_hc, n_embd);
        if token_embed_db.n_elements != n_embd {
            return Err(unfit(Check::InputLen, token_embed_db.n_elements, n_embd));
        }
        if prev_hc_db.n_elements != n {
            return Err(unfit(Check::ResidualLen, prev_hc_db.n_elements, n));
        }
        if n_hc != 1 && n_hc != 2 && n_hc != 4 && n_hc != 8 {
            return Err(unfit(Check::Positions, n_hc, 8));
        }
        let enorm: DeferredBuf = self.rms_norm_mul(token_embed_db, enorm_gamma_db, rms_eps)?;
        let eproj: DeferredBuf = self.matvec_q8_0(e_proj_q8_db, &enorm, n_embd, n_embd)?;
        let hnorm: DeferredBuf = self.rms_norm_mul_k(
            prev_hc_db,
            hnorm_gamma_db,
            n_embd,
            n_hc,
            rms_eps,
        )?;
        let hproj: DeferredBuf = self.matvec_k_q8_0(h_proj_q8_db, &hnorm, n_embd, n_embd, n_hc)?;
        let out: DeferredBuf = self.alloc_f32(n);
        self.put(Command::Encoder);
        self.put(Command::Pipeline(Pipe::Special(Kernel::MtpInputMix, Consts::Plain)));
        self.buf_at(0, eproj.buf);
        self.buf_at(1, hproj.buf);
        self.buf_at(2, out.buf);
        self.u32_at(3, n_embd as u32);
        self.u32_at(4, n_hc as u32);
        self.put(
            Command::DispatchUpTo { groups: Groups::Cover(n), want: n, at_least_one: true },
        );
        self.put(Command::EndEncoder);
        Ok(out)
    }

    fn head_weights_launch(
        &mut self,
        pre: BufId,
        scale: BufId,
        base: BufId,
        out: BufId,
        off: u64,
        n_hc: u64,
        hc_eps: F32,
    )
        requires
            extent(n_hc),
        ensures
            final(self)@ == old(self)@.head_weights_launch(
                pre,
                scale,
                base,
                out,
                off,
                n_hc,
                hc_eps,
            ),
            final(self)@.encodes(old(self)@),
            final(self)@.pools.carrier == old(self)@.pools.carrier,
    {
        self.put(Command::Encoder);
        self.put(Command::Pipeline(Pipe::Special(Kernel::MtpOutputHcWeights, Consts::Plain)));
        self.put(Command::Buffer(0, pre, off));
        self.buf_at(1, scale);
        self.buf_at(2, base);
        self.put(Command::Buffer(3, out, off));
        self.u32_at(4, n_hc as u32);
        self.f32_at(5, hc_eps);
        self.put(
            Command::DispatchUpTo { groups: Groups::Count(1), want: n_hc, at_least_one: true },
        );
        self.put(Command::EndEncoder);
    }

    fn head_weights_rows(
        &mut self,
        pre: BufId,
        scale: BufId,
        base: BufId,
        out: BufId,
        n_hc: u64,
        hc_eps: F32,
        k: u64,
    )
        requires
            extent(n_hc),
            extent(k),
        ensures
            final(self)@ == old(self)@.head_weights_rows(
                pre,
                scale,
                base,
                out,
                n_hc,
                hc_eps,
                k,
                0,
            ),
            final(self)@.encodes(old(self)@),
            final(self)@.pools.carrier == old(self)@.pools.carrier,
    {
        let ghost goal = self@.head_weights_rows(pre, scale, base, out, n_hc, hc_eps, k, 0);
        proof {
            lemma_product(k as int, n_hc as int);
            assert(k * (n_hc * 4) == k * n_hc * 4) by (nonlinear_arith);
        }
        let mut i: u64 = 0;
        while i < k
            invariant
                i <= k,
                extent(n_hc),
                k * (n_hc * 4) <= u64::MAX,
                self@.encodes(old(self)@),
                self@.pools.carrier == old(self)@.pools.carrier,
                goal == self@.head_weights_rows(
                    pre,
                    scale,
                    base,
                    out,
                    n_hc,
                    hc_eps,
                    k,
                    i as int,
                ),
            decreases k - i,
        {
            let off: u64 = row_offset(i, k, n_hc * 4);
            self.head_weights_launch(pre, scale, base, out, off, n_hc, hc_eps);
            i = i + 1;
        }
    }

    fn weighted_sum_launch(
        &mut self,
        hc: BufId,
        weights: BufId,
        out: BufId,
        n_embd: u64,
        n_hc: u64,
        k: u64,
    )
        requires
            extent(n_embd),
            extent(n_hc),
            extent(k),
            n_hc * n_embd <= MAX_EXTENT,
        ensures
            final(self)@ == old(self)@.weighted_sum_launch(hc, weights, out, n_embd, n_hc, k),
            final(self)@.encodes(old(self)@),
            final(self)@.pools.carrier == old(self)@.pools.carrier,
    {
        let n: u64 = times(n_embd, k);
        let args: HcWsArgs = HcWsArgs {
            n_embd: n_embd as i64,
            n_hc: n_hc as i64,
            n_tokens: k as i64,
            nb_x0: 4,
            nb_x1: n_embd * 4,
            nb_x2: times(n_hc, n_embd) * 4,
            nb_w0: 4,
            nb_w1: n_hc * 4,
            nb0: 4,
            nb1: n_embd * 4,
        };
        self.put(Command::Encoder);
        self.put(Command::Pipeline(Pipe::Special(Kernel::HcWeightedSum, Consts::Plain)));
        self.put(Command::Bytes(0, Args::HcWs(args)));
        self.buf_at(1, hc);
        self.buf_at(2, weights);
        self.buf_at(3, out);
        self.put(
            Command::DispatchUpTo { groups: Groups::Cover(n), want: n, at_least_one: true },
        );
        self.put(Command::EndEncoder);
    }

    /// The drafter's output head: from the residual streams to the logits.
    pub fn encode_mtp_output_head(
        &mut self,
        cur_hc_db: &DeferredBuf,
        unit_gamma_hc_dim_db: &DeferredBuf,
        hc_head_fn_db: &DeferredBuf,
        hc_head_scale_db: &DeferredBuf,
        hc_head_base_db: &DeferredBuf,
        mtp_norm_gamma_db: &DeferredBuf,
        base_lm_head_q8_db: &DeferredBuf,
        n_embd: u64,
        n_hc: u64,
        vocab: u64,
        rms_eps: F32,
        hc_eps: F32,
    ) -> (r: Result<DeferredBuf, EncodeError>)
        requires
            extent(n_embd),
            extent(n_hc),
            extent(vocab),
            n_hc * n_embd <= MAX_EXTENT,
        ensures
            (final(self)@, r) == old(self)@.encode_mtp_output_head(
                *cur_hc_db,
                (HeadWeights {
                    unit_gamma_hc: *unit_gamma_hc_dim_db,
                    hc_fn: *hc_head_fn_db,
                    hc_scale: *hc_head_scale_db,
                    hc_base: *hc_head_base_db,
                    norm_gamma: *mtp_norm_gamma_db,
                    lm_head: *base_lm_head_q8_db,
                }),
                n_embd,
                n_hc,
                vocab,
                rms_eps,
                hc_eps,
            ),
            r matches Ok(b) ==> b.n_elements == vocab,
            final(self)@.encodes(old(self)@),
            final(self)@.pools.carrier == old(self)@.pools.carrier,
    {
        proof {
            reveal(Trace::encode_mtp_output_head);
        }
        let hc_dim: u64 = times(n_hc, n_embd);
        if cur_hc_db.n_elements != hc_dim {
            return Err(unfit(Check::InputLen, cur_hc_db.n_elements, hc_dim));
        }
        if unit_gamma_hc_dim_db.n_elements != hc_dim {
            return Err(unfit(Check::UnitGammaLen, unit_gamma_hc_dim_db.n_elements, hc_dim));
        }
        if hc_head_fn_db.n_elements != times(hc_dim, n_hc) {
            return Err(unfit(Check::WeightLen, hc_head_fn_db.n_elements, times(hc_dim, n_hc)));
        }
        if hc_head_base_db.n_elements != n_hc {
            return Err(unfit(Check::BaseLen, hc_head_base_db.n_elements, n_hc));
        }
        if mtp_norm_gamma_db.n_elements != n_embd {
            return Err(unfit(Check::GammaLen, mtp_norm_gamma_db.n_elements, n_embd));
        }
        let flat: DeferredBuf = self.rms_norm_mul(cur_hc_db, unit_gamma_hc_dim_db, rms_eps)?;
        let pre: DeferredBuf = self.matvec_f32(hc_head_fn_db, &flat, hc_dim, n_hc)?;
        let weights: DeferredBuf = self.alloc_f32(n_hc);
        self.head_weights_launch(
            pre.buf,
            hc_head_scale_db.buf,
            hc_head_base_db.buf,
            weights.buf,
            0,
            n_hc,
            hc_eps,
        );
        let embd: DeferredBuf = self.alloc_f32(n_embd);
        self.weighted_sum_launch(cur_hc_db.buf, weights.buf, embd.buf, n_embd, n_hc, 1);
        let norm: DeferredBuf = self.rms_norm_mul(&embd, mtp_norm_gamma_db, rms_eps)?;
        self.matvec_q8_0(base_lm_head_q8_db, &norm, n_embd, vocab)
    }

    /// The verifier's output head: a row of logits for every position.
    #[allow(non_snake_case)]
    pub fn encode_verify_output_head_K(
        &mut self,
        cur_hc_K: &DeferredBuf,
        unit_gamma_hc_dim: &DeferredBuf,
        hc_head_fn: &DeferredBuf,
        hc_head_scale: &DeferredBuf,
        hc_head_base: &DeferredBuf,
        final_norm_gamma: &DeferredBuf,
        base_lm_head_q8: &DeferredBuf,
        n_embd: u64,
        n_hc: u64,
        vocab: u64,
        k_positions: u64,
        rms_eps: F32,
        hc_eps: F32,
    ) -> (r: Result<DeferredBuf, EncodeError>)
        requires
            extent(n_embd),
            extent(n_hc),
            extent(vocab),
            extent(k_positions),
            n_hc * n_embd <= MAX_EXTENT,
        ensures
            (final(self)@, r) == old(self)@.encode_verify_output_head_K(
                *cur_hc_K,
                (HeadWeights {
                    unit_gamma_hc: *unit_gamma_hc_dim,
                    hc_fn: *hc_head_fn,
                    hc_scale: *hc_head_scale,
                    hc_base: *hc_head_base,
                    norm_gamma: *final_norm_gamma,
                    lm_head: *base_lm_head_q8,
                }),
                n_embd,
                n_hc,
                vocab,
                k_positions,
                rms_eps,
                hc_eps,
            ),
            r matches Ok(b) ==> b.n_elements == k_positions * vocab,
            final(self)@.encodes(old(self)@),
            final(self)@.pools.carrier == old(self)@.pools.carrier,
    {
        proof {
            reveal(Trace::encode_verify_output_head_K);
        }
        let k: u64 = k_positions;
        let hc_dim: u64 = times(n_hc, n_embd);
        if cur_hc_K.n_elements != times(k, hc_dim) {
            return Err(unfit(Check::InputLen, cur_hc_K.n_elements, times(k, hc_dim)));
        }
        if unit_gamma_hc_dim.n_elements != hc_dim {
            return Err(unfit(Check::UnitGammaLen, unit_gamma_hc_dim.n_elements, hc_dim));
        }
        if hc_head_fn.n_elements != times(hc_dim, n_hc) {
            return Err(unfit(Check::WeightLen, hc_head_fn.n_elements, times(hc_dim, n_hc)));
        }
        if hc_head_base.n_elements != n_hc {
            return Err(unfit(Check::BaseLen, hc_head_base.n_elements, n_hc));
        }
        if final_norm_gamma.n_elements != n_embd {
            return Err(unfit(Check::GammaLen, final_norm_gamma.n_elements, n_embd));
        }
        let flat: DeferredBuf = self.rms_norm_mul_k(
            cur_hc_K,
            unit_gamma_hc_dim,
            hc_dim,
            k,
            rms_eps,
        )?;
        let nsg: i16 = nsg_by_width(hc_dim);
        let pipe: Pipe = Pipe::Special(
            Kernel::MulMvF32,
            Consts::Rows { nsg, nxpsg: nxpsg_for(hc_dim) },
        );
        let pre: DeferredBuf = self.alloc_f32(times(k, n_hc));
        self.mv_rows(pipe, nsg, hc_head_fn.buf, flat.buf, pre.buf, n_hc, hc_dim, 4, k);
        let weights: DeferredBuf = self.alloc_f32(times(k, n_hc));
        self.head_weights_rows(
            pre.buf,
            hc_head_scale.buf,
            hc_head_base.buf,
            weights.buf,
            n_hc,
            hc_eps,
            k,
        );
        let embd: DeferredBuf = self.alloc_f32(times(k, n_embd));
        self.weighted_sum_launch(cur_hc_K.buf, weights.buf, embd.buf, n_embd, n_hc, k);
        let norm: DeferredBuf = self.rms_norm_mul_k(&embd, final_norm_gamma, n_embd, k, rms_eps)?;
        self.matvec_k_q8_0(base_lm_head_q8, &norm, n_embd, vocab, k)
    }

    /// The drafter's forward pass: the logits of one drafted token.
    pub fn encode_mtp_draft(
        &mut self,
        prev_hc_db: &DeferredBuf,
        token_embed_db: &DeferredBuf,
        input_mix: MtpDraftInputMix,
        layer: MtpDraftLayerWeights,
        output_head: MtpDraftOutputHead,
        shape: MtpDraftShape,
        layer_params: &LayerParams,
        mtp_layer_idx: u32,
        raw_cap: u32,
        base_slot: u32,
        base_pos: u32,
        attn_base_pos: u32,
    ) -> (r: Result<DeferredBuf, EncodeError>)
        requires
            extent(shape.vocab),
            draft_layer(shape).fits(
                (Place {
                    layer: mtp_layer_idx,
                    params: *layer_params,
                    raw_cap,
                    base_slot,
                    base_pos,
                    attn_base_pos,
                    k: 1,
                }),
                None,
                old(self)@.engine,
                old(self)@.config,
            ),
        ensures
            ({
                let (t, s) = old(self)@.encode_mtp_draft_with_out_hc(
                    *prev_hc_db,
                    *token_embed_db,
                    input_mix,
                    layer,
                    output_head,
                    shape,
                    (Place {
                        layer: mtp_layer_idx,
                        params: *layer_params,
                        raw_cap,
                        base_slot,
                        base_pos,
                        attn_base_pos,
                        k: 1,
                    }),
                );
                final(self)@ == t && match s {
                    Ok(b) => r == Ok::<DeferredBuf, EncodeError>(b.1),
                    Err(e) => r == Err::<DeferredBuf, EncodeError>(e),
                }
            }),
            final(self)@.extends(old(self)@),
            old(self)@.config.quiet() ==> final(self)@.encodes(old(self)@),
    {
        let (_, logits): (DeferredBuf, DeferredBuf) = self.encode_mtp_draft_with_out_hc(
            prev_hc_db,
            token_embed_db,
            input_mix,
            layer,
            output_head,
            shape,
            layer_params,
            mtp_layer_idx,
            raw_cap,
            base_slot,
            base_pos,
            attn_base_pos,
        )?;
        Ok(logits)
    }

    /// [`BatchScope::encode_mtp_draft`], which also gives the residual streams
    /// that the next draft starts from.
    pub fn encode_mtp_draft_with_out_hc(
        &mut self,
        prev_hc_db: &DeferredBuf,
        token_embed_db: &DeferredBuf,
        input_mix: MtpDraftInputMix,
        layer: MtpDraftLayerWeights,
        output_head: MtpDraftOutputHead,
        shape: MtpDraftShape,
        layer_params: &LayerParams,
        mtp_layer_idx: u32,
        raw_cap: u32,
        base_slot: u32,
        base_pos: u32,
        attn_base_pos: u32,
    ) -> (r: Result<(DeferredBuf, DeferredBuf), EncodeError>)
        requires
            extent(shape.vocab),
            draft_layer(shape).fits(
                (Place {
                    layer: mtp_layer_idx,
                    params: *layer_params,
                    raw_cap,
                    base_slot,
                    base_pos,
                    attn_base_pos,
                    k: 1,
                }),
                None,
                old(self)@.engine,
                old(self)@.config,
            ),
        ensures
            (final(self)@, r) == old(self)@.encode_mtp_draft_with_out_hc(
                *prev_hc_db,
                *token_embed_db,
                input_mix,
                layer,
                output_head,
                shape,
                (Place {
                    layer: mtp_layer_idx,
                    params: *layer_params,
                    raw_cap,
                    base_slot,
                    base_pos,
                    attn_base_pos,
                    k: 1,
                }),
            ),
            final(self)@.extends(old(self)@),
            old(self)@.config.quiet() ==> final(self)@.encodes(old(self)@),
    {
        proof {
            reveal(Trace::encode_mtp_draft_with_out_hc);
        }
        let input: DeferredBuf = self.encode_mtp_input_mix(
            token_embed_db,
            prev_hc_db,
            &input_mix.enorm_gamma,
            &input_mix.e_proj_q8,
            &input_mix.hnorm_gamma,
            &input_mix.h_proj_q8,
            shape.n_embd,
            shape.n_hc,
            shape.rms_eps,
        )?;
        let out_hc: DeferredBuf = self.encode_layer_k(
            &input,
            &layer.hc_attn_fn,
            &layer.hc_attn_scale,
            &layer.hc_attn_base,
            &layer.attn_norm,
            &output_head.unit_gamma_hc,
            &layer.attn_q_a_q8,
            &layer.gamma_q,
            &layer.attn_q_b_q8,
            &layer.attn_kv_q8,
            &layer.gamma_kv,
            &layer.w_o_a_q8,
            &layer.w_o_b_q8,
            &layer.hc_ffn_fn,
            &layer.hc_ffn_scale,
            &layer.hc_ffn_base,
            &layer.ffn_norm,
            &layer.w_router,
            &layer.router_bias,
            layer.sh_w_gate,
            layer.sh_w_up,
            layer.sh_w_down,
            layer.sh_w_gate_q8,
            layer.sh_w_up_q8,
            layer.sh_w_down_q8,
            shape.n_hc,
            shape.n_embd,
            shape.n_lora_q,
            shape.n_head,
            shape.head_dim,
            shape.kv_row,
            shape.n_groups,
            shape.n_lora_o,
            shape.group_dim,
            shape.out_low_dim,
            shape.n_experts,
            shape.d_ffn,
            shape.shared_dim,
            shape.sinkhorn_iters,
            shape.hc_eps,
            shape.rms_eps,
            shape.flash_scale,
            mtp_layer_idx,
            layer_params,
            raw_cap,
            base_slot,
            base_pos,
            attn_base_pos,
            &layer.attn_sinks,
            1,
            None,
        )?;
        let logits: DeferredBuf = self.encode_mtp_output_head(
            &out_hc,
            &output_head.unit_gamma_hc,
            &output_head.hc_head_fn,
            &output_head.hc_head_scale,
            &output_head.hc_head_base,
            &output_head.mtp_norm,
            &output_head.base_lm_head_q8,
            shape.n_embd,
            shape.n_hc,
            shape.vocab,
            shape.rms_eps,
            shape.hc_eps,
        )?;
        Ok((out_hc, logits))
    }

    fn after_layer(
        &mut self,
        cur: &DeferredBuf,
        ratio: u32,
        hc_dim: u64,
        k: u64,
        i: usize,
        n_layers: usize,
    )
        requires
            i < n_layers,
        ensures
            final(self)@ == old(self)@.after_layer(
                old(self)@.config,
                *cur,
                ratio,
                hc_dim,
                k,
                i as int,
                n_layers as nat,
            ),
            final(self)@.extends(old(self)@),
            final(self)@.pools.carrier == old(self)@.pools.carrier,
            old(self)@.config.quiet() ==> final(self)@.encodes(old(self)@),
    {
        proof {
            reveal(Trace::after_layer);
        }
        let split: Option<u64> = self.config.verify_cb_split;
        if self.config.dump_layer_rms && k >= 3 {
            let last_row: u64 = if k - 1 < 3 {
                k - 1
            } else {
                3
            };
            self.commit_wait_stage(Stage::VerifyLayerRms);
            self.put(
                Command::DumpLayerRms { layer: i as u32, ratio, buf: cur.buf, row: hc_dim, last_row },
            );
        }
        if let Some(every) = split {
            if every > 0 && (i as u64 + 1) % every == 0 && i + 1 < n_layers {
                self.commit_keep_open();
            }
        }
    }

    fn verify_layer(
        &mut self,
        cur: &DeferredBuf,
        layer: &BaseLayerVerifyBundle,
        unit_gamma_hc: &DeferredBuf,
        shape: LayerShape,
        at: VerifyAt,
        n_comp: Option<u32>,
        i: usize,
    ) -> (r: Result<DeferredBuf, EncodeError>)
        requires
            shape.fits(
                at.place(i as int, layer.layer_params),
                layer.spec_comp_ctx(n_comp),
                old(self)@.engine,
                old(self)@.config,
            ),
        ensures
            (final(self)@, r) == old(self)@.encode_layer_k(
                *cur,
                layer.attn(*unit_gamma_hc),
                shape.attn(),
                shape.output(layer.w_o_a_q8, layer.w_o_b_q8, layer.attn_sinks),
                at.place(i as int, layer.layer_params),
                layer.spec_comp_ctx(n_comp),
                layer.ffn(*unit_gamma_hc),
                shape.ffn(),
            ),
            r matches Ok(b) ==> b.n_elements == at.k * shape.n_hc * shape.n_embd,
            final(self)@.extends(old(self)@),
            old(self)@.config.quiet() ==> final(self)@.encodes(old(self)@),
    {
        let comp: Option<CompVerifyCtx> = layer.comp_ctx(n_comp);
        self.encode_layer_k(
            cur,
            &layer.hc_attn_fn,
            &layer.hc_attn_scale,
            &layer.hc_attn_base,
            &layer.attn_norm,
            unit_gamma_hc,
            &layer.attn_q_a_q8,
            &layer.gamma_q,
            &layer.attn_q_b_q8,
            &layer.attn_kv_q8,
            &layer.gamma_kv,
            &layer.w_o_a_q8,
            &layer.w_o_b_q8,
            &layer.hc_ffn_fn,
            &layer.hc_ffn_scale,
            &layer.hc_ffn_base,
            &layer.ffn_norm,
            &layer.w_router,
            &layer.router_bias,
            layer.sh_w_gate,
            layer.sh_w_up,
            layer.sh_w_down,
            layer.sh_w_gate_q8,
            layer.sh_w_up_q8,
            layer.sh_w_down_q8,
            shape.n_hc,
            shape.n_embd,
            shape.n_lora_q,
            shape.n_head,
            shape.head_dim,
            shape.kv_row,
            shape.n_groups,
            shape.n_lora_o,
            shape.group_dim,
            shape.out_low_dim,
            shape.n_experts,
            shape.d_ffn,
            shape.shared_dim,
            shape.sinkhorn_iters,
            shape.hc_eps,
            shape.rms_eps,
            shape.flash_scale,
            i as u32,
            &layer.layer_params,
            at.raw_cap,
            at.base_slot,
            at.base_pos,
            at.base_pos,
            &layer.attn_sinks,
            at.k,
            comp,
        )
    }

    fn verify_from(
        &mut self,
        prev_hc_k: &DeferredBuf,
        layers: &[BaseLayerVerifyBundle],
        unit_gamma_hc: &DeferredBuf,
        shape: LayerShape,
        at: VerifyAt,
        comp: Option<&[u32]>,
        depth: usize,
    ) -> (r: Result<DeferredBuf, EncodeError>)
        requires
            0 < depth <= layers@.len(),
            comp matches Some(c) ==> c@.len() == layers@.len(),
            extent(shape.n_hc),
            extent(shape.n_embd),
            forall|i: int|
                0 <= i < depth ==> shape.fits(
                    at.place(i, (#[trigger] layers@[i]).layer_params),
                    layers@[i].spec_comp_ctx(ring_rows(counts_view(comp), i)),
                    old(self)@.engine,
                    old(self)@.config,
                ),
        ensures
            (final(self)@, r) == old(self)@.verify_from(
                old(self)@.config,
                *prev_hc_k,
                layers@,
                *unit_gamma_hc,
                shape,
                at,
                counts_view(comp),
                depth as nat,
                0,
            ),
            r matches Ok(b) ==> b.n_elements == at.k * shape.n_hc * shape.n_embd,
            final(self)@.extends(old(self)@),
            old(self)@.config.quiet() ==> final(self)@.encodes(old(self)@),
    {
        let ghost goal = self@.verify_from(
            self@.config,
            *prev_hc_k,
            layers@,
            *unit_gamma_hc,
            shape,
            at,
            counts_view(comp),
            depth as nat,
            0,
        );
        let hc_dim: u64 = times(shape.n_hc, shape.n_embd);
        let mut cur: DeferredBuf = *prev_hc_k;
        let mut i: usize = 0;
        while i < depth
            invariant
                i <= depth <= layers@.len(),
                0 < depth,
                i > 0 ==> cur.n_elements == at.k * shape.n_hc * shape.n_embd,
                comp matches Some(c) ==> c@.len() == layers@.len(),
                hc_dim == shape.n_hc * shape.n_embd,
                forall|i: int|
                    0 <= i < depth ==> shape.fits(
                        at.place(i, (#[trigger] layers@[i]).layer_params),
                        layers@[i].spec_comp_ctx(ring_rows(counts_view(comp), i)),
                        old(self)@.engine,
                        old(self)@.config,
                    ),
                self@.extends(old(self)@),
                old(self)@.config.quiet() ==> self@.encodes(old(self)@),
                goal == old(self)@.verify_from(
                    old(self)@.config,
                    *prev_hc_k,
                    layers@,
                    *unit_gamma_hc,
                    shape,
                    at,
                    counts_view(comp),
                    depth as nat,
                    0,
                ),
                goal == self@.verify_from(
                    old(self)@.config,
                    cur,
                    layers@,
                    *unit_gamma_hc,
                    shape,
                    at,
                    counts_view(comp),
                    depth as nat,
                    i as int,
                ),
            decreases depth - i,
        {
            let n_comp: Option<u32> = match comp {
                Some(c) => Some(c[i]),
                None => None,
            };
            assert(n_comp == ring_rows(counts_view(comp), i as int));
            let next: DeferredBuf = self.verify_layer(
                &cur,
                &layers[i],
                unit_gamma_hc,
                shape,
                at,
                n_comp,
                i,
            )?;
            let ratio: u32 = layers[i].layer_params.compress_ratio;
            proof {
                reveal(Trace::extends);
            }
            self.after_layer(&next, ratio, hc_dim, at.k, i, layers.len());
            cur = next;
            i = i + 1;
        }
        Ok(cur)
    }

    /// Runs the base layers over several candidate positions at once, each
    /// layer's output the next one's input.
    #[allow(non_snake_case)]
    pub fn encode_verify_layers_K(
        &mut self,
        prev_hc_k: &DeferredBuf,
        layers: &[BaseLayerVerifyBundle],
        unit_gamma_hc: &DeferredBuf,
        n_hc: u64,
        n_embd: u64,
        n_lora_q: u64,
        n_head: u64,
        head_dim: u64,
        kv_row: u64,
        n_groups: u64,
        n_lora_o: u64,
        group_dim: u64,
        out_low_dim: u64,
        n_experts: u64,
        d_ffn: u64,
        shared_dim: u32,
        sinkhorn_iters: i32,
        hc_eps: F32,
        rms_eps: F32,
        flash_scale: F32,
        raw_cap: u32,
        base_slot: u32,
        base_pos: u32,
        k_positions: u64,
        comp_n_per_layer: Option<&[u32]>,
    ) -> (r: Result<DeferredBuf, EncodeError>)
        requires
            old(self)@.config.verify_n_layers != Some(0u64),
            extent(n_hc),
            extent(n_embd),
            n_hc * n_embd <= MAX_EXTENT,
            extent(k_positions),
            (comp_n_per_layer matches Some(c) ==> c@.len() == layers@.len()) ==> forall|i: int|
                0 <= i < spec_depth(old(self)@.config, layers@.len()) ==> (LayerShape {
                    n_embd,
                    n_hc,
                    n_lora_q,
                    n_head,
                    head_dim,
                    kv_row,
                    n_groups,
                    n_lora_o,
                    group_dim,
                    out_low_dim,
                    n_experts,
                    d_ffn,
                    shared_dim,
                    sinkhorn_iters,
                    hc_eps,
                    rms_eps,
                    flash_scale,
                }).fits(
                    (VerifyAt { raw_cap, base_slot, base_pos, k: k_positions }).place(
                        i,
                        (#[trigger] layers@[i]).layer_params,
                    ),
                    layers@[i].spec_comp_ctx(ring_rows(counts_view(comp_n_per_layer), i)),
                    old(self)@.engine,
                    old(self)@.config,
                ),
        ensures
            (final(self)@, r) == old(self)@.encode_verify_layers_K(
                *prev_hc_k,
                layers@,
                *unit_gamma_hc,
                (LayerShape {
                    n_embd,
                    n_hc,
                    n_lora_q,
                    n_head,
                    head_dim,
                    kv_row,
                    n_groups,
                    n_lora_o,
                    group_dim,
                    out_low_dim,
                    n_experts,
                    d_ffn,
                    shared_dim,
                    sinkhorn_iters,
                    hc_eps,
                    rms_eps,
                    flash_scale,
                }),
                (VerifyAt { raw_cap, base_slot, base_pos, k: k_positions }),
                counts_view(comp_n_per_layer),
            ),
            r matches Ok(b) ==> b.n_elements == k_positions * n_hc * n_embd,
            final(self)@.extends(old(self)@),
            old(self)@.config.quiet() ==> final(self)@.encodes(old(self)@),
    {
        proof {
            reveal(Trace::encode_verify_layers_K);
        }
        let shape: LayerShape = LayerShape {
            n_embd,
            n_hc,
            n_lora_q,
            n_head,
            head_dim,
            kv_row,
            n_groups,
            n_lora_o,
            group_dim,
            out_low_dim,
            n_experts,
            d_ffn,
            shared_dim,
            sinkhorn_iters,
            hc_eps,
            rms_eps,
            flash_scale,
        };
        let at: VerifyAt = VerifyAt { raw_cap, base_slot, base_pos, k: k_positions };
        if let Some(counts) = comp_n_per_layer {
            if counts.len() != layers.len() {
                return Err(unfit(Check::LayerCount, counts.len() as u64, layers.len() as u64));
            }
        }
        if prev_hc_k.n_elements != times(k_positions, times(n_hc, n_embd)) {
            return Err(
                unfit(
                    Check::InputLen,
                    prev_hc_k.n_elements,
                    times(k_positions, times(n_hc, n_embd)),
                ),
            );
        }
        if layers.len() == 0 {
            return Err(unfit(Check::NoLayers, 0, 1));
        }
        let depth: usize = match self.config.verify_n_layers {
            Some(n) if n < layers.len() as u64 => n as usize,
            _ => layers.len(),
        };
        self.verify_from(prev_hc_k, layers, unit_gamma_hc, shape, at, comp_n_per_layer, depth)
    }
}

} // verus!
