//! Routed experts: one position at a time, gathered by expert, or fused over positions.

use crate::arith::{MAX_EXTENT, div_up, elements, extent, is_product3, lemma_product, spec_div_up,
    times, times3, times_wide};
use crate::attention::{mv_id_args, spec_mv_id_args};
use crate::command::{Args, BufId, Command, DeferredBuf, F32, Groups, HostRef, Map0Args, MoeRouted,
    MoeSwigluActArgs, MulMmIdArgs, MulMvIdArgs, Route, SharedChain, Source};
use crate::config::{Config, EngineView, ExpertBufs, ExpertWeights, GgmlType};
use crate::error::{Check, EncodeError, capped3, unfit};
use crate::kernel::{Consts, Kernel, MmIdKernel, MmQuant, Pipe};
use crate::matmul::{setting_or, spec_or};
use crate::pool::PoolKey;
use crate::router::Routed;
use crate::scope::BatchScope;
use crate::trace::Trace;
use vstd::prelude::*;

verus! {

broadcast use crate::trace::group_encodes;

/// One stage of the expert-gather chain: the kernel, the weights of a block of
/// its format, and the bytes of one.
#[derive(Clone, Copy, PartialEq, Eq, Structural, Debug)]
pub struct MmStage {
    pub kernel: MmIdKernel,
    pub qk: u64,
    pub bytes: u64,
}

/// The stage for a weight format.
pub open spec fn spec_stage(t: GgmlType) -> Option<MmStage> {
    match t {
        GgmlType::Q8_0 => Some(
            MmStage {
                kernel: MmIdKernel { quant: MmQuant::Q8_0, half_rhs: false },
                qk: 32,
                bytes: 34,
            },
        ),
        GgmlType::Q2_K => Some(
            MmStage {
                kernel: MmIdKernel { quant: MmQuant::Q2_K, half_rhs: false },
                qk: 256,
                bytes: 84,
            },
        ),
        GgmlType::Q4_K => Some(
            MmStage {
                kernel: MmIdKernel { quant: MmQuant::Q4_K, half_rhs: false },
                qk: 256,
                bytes: 144,
            },
        ),
        GgmlType::IQ2_XXS => Some(
            MmStage {
                kernel: MmIdKernel { quant: MmQuant::IQ2_XXS, half_rhs: false },
                qk: 256,
                bytes: 66,
            },
        ),
        GgmlType::Other(_) => None,
    }
}

fn stage_of(t: GgmlType) -> (r: Result<MmStage, EncodeError>)
    ensures
        r == (match spec_stage(t) {
            Some(s) => Ok::<MmStage, EncodeError>(s),
            None => Err(EncodeError::UnsupportedQuant(t)),
        }),
{
    match t {
        GgmlType::Q8_0 => Ok(
            MmStage {
                kernel: MmIdKernel { quant: MmQuant::Q8_0, half_rhs: false },
                qk: 32,
                bytes: 34,
            },
        ),
        GgmlType::Q2_K => Ok(
            MmStage {
                kernel: MmIdKernel { quant: MmQuant::Q2_K, half_rhs: false },
                qk: 256,
                bytes: 84,
            },
        ),
        GgmlType::Q4_K => Ok(
            MmStage {
                kernel: MmIdKernel { quant: MmQuant::Q4_K, half_rhs: false },
                qk: 256,
                bytes: 144,
            },
        ),
        GgmlType::IQ2_XXS => Ok(
            MmStage {
                kernel: MmIdKernel { quant: MmQuant::IQ2_XXS, half_rhs: false },
                qk: 256,
                bytes: 66,
            },
        ),
        GgmlType::Other(n) => Err(EncodeError::UnsupportedQuant(GgmlType::Other(n))),
    }
}

/// The byte strides of an expert-gather GEMM stay inside 64 bits.
pub open spec fn mm_fits(
    qk: u64,
    bytes: u64,
    n_experts: u64,
    d_in: u64,
    d_out: u64,
    k: u64,
    slots: u64,
    act: u64,
) -> bool {
    &&& qk > 0
    &&& (d_in / qk) * bytes <= u64::MAX
    &&& (d_in / qk) * bytes * d_out <= u64::MAX
    &&& (d_in / qk) * bytes * d_out * n_experts <= u64::MAX
    &&& d_in * act <= u64::MAX
    &&& slots == 1 || slots == 6 ==> slots * d_in * act <= u64::MAX && k * slots * d_in * act
        <= u64::MAX
    &&& elements(k * 6 * d_out)
}

/// The arguments of an expert-gather GEMM.
pub open spec fn spec_mm_id_args(
    qk: u64,
    bytes: u64,
    n_experts: u64,
    d_in: u64,
    d_out: u64,
    k: u64,
    slots: u64,
    act: u64,
) -> MulMmIdArgs {
    let row = (d_in / qk) * bytes;
    MulMmIdArgs {
        ne00: d_in as i32,
        ne02: n_experts as i32,
        nb01: row as u64,
        nb02: (row * d_out) as u64,
        nb03: (row * d_out * n_experts) as u64,
        ne11: slots as i32,
        nb10: act,
        nb11: (d_in * act) as u64,
        nb12: (slots * d_in * act) as u64,
        nb13: (k * slots * d_in * act) as u64,
        ne20: 6,
        ne21: k as i32,
        ne0: d_out as i32,
        ne1: 6,
        r2: 1,
        r3: 1,
    }
}

fn mm_id_args(
    qk: u64,
    bytes: u64,
    n_experts: u64,
    d_in: u64,
    d_out: u64,
    k: u64,
    slots: u64,
    act: u64,
) -> (r: MulMmIdArgs)
    requires
        mm_fits(qk, bytes, n_experts, d_in, d_out, k, slots, act),
        slots == 1 || slots == 6,
        k * slots * d_in <= u64::MAX,
        extent(d_in),
        extent(k),
    ensures
        r == spec_mm_id_args(qk, bytes, n_experts, d_in, d_out, k, slots, act),
{
    let row: u64 = (d_in / qk) * bytes;
    let plane: u64 = row * d_out;
    let per_token: u64 = slots * d_in;
    let per_slot: u64 = k * slots;
    let all: u64 = per_slot * d_in;
    MulMmIdArgs {
        ne00: d_in as i32,
        ne02: n_experts as i32,
        nb01: row,
        nb02: plane,
        nb03: plane * n_experts,
        ne11: slots as i32,
        nb10: act,
        nb11: d_in * act,
        nb12: per_token * act,
        nb13: all * act,
        ne20: 6,
        ne21: k as i32,
        ne0: d_out as i32,
        ne1: 6,
        r2: 1,
        r3: 1,
    }
}

/// The tokens of one expert that an expert-gather GEMM makes room for.
pub open spec fn room_per_expert(config: Config, k: u64) -> int {
    if config.moe_grid_wide {
        k * 6
    } else {
        match config.moe_grid_div {
            Some(div) => {
                let d = if div < 1 {
                    1
                } else {
                    div
                };
                (k + d - 1) / d as int
            },
            None => (k + 7) / 8,
        }
    }
}

/// The arguments of the gated activation of six slots of `k` positions.
pub open spec fn spec_act_args(d_ffn: u64, k: u64, mid_bytes: u64, clamp: F32) -> MoeSwigluActArgs {
    MoeSwigluActArgs {
        width: d_ffn as u32,
        rows: (k * 6) as u32,
        gate_row_stride: (d_ffn * 4) as u64,
        up_row_stride: (d_ffn * 4) as u64,
        mid_row_stride: (d_ffn * mid_bytes) as u64,
        weight_stride: 4,
        write_clamped: 0,
        clamp_value: clamp,
    }
}

fn act_args(d_ffn: u64, k: u64, mid_bytes: u64, clamp: F32) -> (r: MoeSwigluActArgs)
    requires
        extent(d_ffn),
        extent(k),
        mid_bytes == 2 || mid_bytes == 4,
    ensures
        r == spec_act_args(d_ffn, k, mid_bytes, clamp),
{
    assert(d_ffn * mid_bytes <= 0x1_ffff_fffc) by (nonlinear_arith)
        requires
            d_ffn <= 0x7fff_ffff,
            mid_bytes == 2 || mid_bytes == 4,
    ;
    MoeSwigluActArgs {
        width: d_ffn as u32,
        rows: (k * 6) as u32,
        gate_row_stride: d_ffn * 4,
        up_row_stride: d_ffn * 4,
        mid_row_stride: d_ffn * mid_bytes,
        weight_stride: 4,
        write_clamped: 0,
        clamp_value: clamp,
    }
}

/// No bound on the gated activation.
pub open spec fn no_clamp() -> F32 {
    F32(0x7f80_0000)
}

/// The bound on the gated activation.
pub open spec fn spec_clamp(config: Config, mid_f16: bool) -> F32 {
    if !mid_f16 && config.swiglu_clamp_off {
        no_clamp()
    } else {
        config.mid_clamp
    }
}

/// The inner width of the experts: the caller's, or the tensors' where that is zero.
pub open spec fn inner_width(d_ffn: u64, e: ExpertWeights) -> u64 {
    if d_ffn == 0 {
        e.d_ffn as u64
    } else {
        d_ffn
    }
}

/// Q8_0 bytes are bound where they are there and the projections use them.
pub open spec fn q8_bytes(config: Config, b: HostRef) -> Option<HostRef> {
    if !config.q8_proj_off && b.len > 0 {
        Some(b)
    } else {
        None
    }
}

/// The dimensions of a layer's experts fit the kernels and the buffers.
pub open spec fn experts_fit(
    engine: EngineView,
    config: Config,
    layer: u32,
    d_embd: u64,
    d_ffn: u64,
    k: u64,
) -> bool {
    &&& extent(d_embd)
    &&& extent(k)
    &&& config.moe_grid_div matches Some(d) ==> k + d <= u64::MAX
    &&& config.moe_nsg matches Some(n) ==> n > 0
    &&& elements(k * 6 * d_embd)
    &&& layer < engine.experts.len() ==> {
        let e = engine.experts[layer as int];
        let f = inner_width(d_ffn, e);
        &&& extent(e.n_experts as u64)
        &&& extent(f)
        &&& elements(e.n_experts * f * d_embd)
        &&& elements(k * 6 * f)
    }
}

/// The outputs of the routed and of the shared experts.
pub type MoeOuts = (DeferredBuf, DeferredBuf);

impl Trace {
    /// A routed-expert step and the shared expert of one position.
    pub open spec fn moe_and_shared(self, routed: MoeRouted, shared: SharedChain) -> (
        Trace,
        MoeOuts,
    ) {
        let (t, moe) = self.make(Command::MoeRouted(routed), routed.d_in);
        let (t, sh) = t.make(Command::SharedChain(shared), shared.d_in);
        (t, (moe, sh))
    }

    pub open spec fn no_experts<T>(self, layer: u32) -> (Trace, Result<T, EncodeError>) {
        (
            self,
            Err(EncodeError::NoExperts { layer, loaded: self.engine.experts.len() as u64 }),
        )
    }

    #[verifier::opaque]
    pub open spec fn encode_moe_and_shared_chain(
        self,
        layer: u32,
        moe_x: HostRef,
        moe_selected: HostRef,
        moe_weights: HostRef,
        d_ffn: u64,
        sh_ffn_norm: HostRef,
        sh_w_gate: HostRef,
        sh_w_up: HostRef,
        sh_w_down: HostRef,
        shared_dim: u32,
        want_q80: bool,
    ) -> (Trace, Result<MoeOuts, EncodeError>) {
        if layer >= self.engine.experts.len() {
            self.no_experts(layer)
        } else {
            let e = self.engine.experts[layer as int];
            let (t, r) = self.moe_and_shared(
                MoeRouted {
                    layer,
                    x: Source::Host(moe_x),
                    d_in: moe_x.len,
                    route: Route::Host { selected: moe_selected, weights: moe_weights },
                    experts: ExpertBufs {
                        gate: e.gate.buf,
                        up: e.up.buf,
                        down: e.down.buf,
                    },
                    streamed: true,
                    gate: e.gate.ttype,
                    up: e.up.ttype,
                    down: e.down.ttype,
                    d_ffn: inner_width(d_ffn, e),
                },
                SharedChain {
                    x: Source::Host(sh_ffn_norm),
                    d_in: sh_ffn_norm.len,
                    w_gate: sh_w_gate,
                    w_up: sh_w_up,
                    w_down: sh_w_down,
                    shared_dim,
                    want_q80,
                    gate_q8: None,
                    up_q8: None,
                    down_q8: None,
                },
            );
            (t, Ok(r))
        }
    }

    #[verifier::opaque]
    pub open spec fn encode_moe_and_shared_chain_with_router_bufs(
        self,
        layer: u32,
        moe_x: HostRef,
        selected: DeferredBuf,
        weights: DeferredBuf,
        d_ffn: u64,
        sh_ffn_norm: HostRef,
        sh_w: (HostRef, HostRef, HostRef),
        shared_dim: u32,
        want_q80: bool,
        sh_q8: (HostRef, HostRef, HostRef),
    ) -> (Trace, Result<MoeOuts, EncodeError>) {
        if selected.n_elements != 6 {
            self.refuse(Check::SelectedLen, selected.n_elements as int, 6)
        } else if weights.n_elements != 6 {
            self.refuse(Check::RouteWeightsLen, weights.n_elements as int, 6)
        } else if layer >= self.engine.experts.len() {
            self.no_experts(layer)
        } else {
            let e = self.engine.experts[layer as int];
            let (t, r) = self.moe_and_shared(
                MoeRouted {
                    layer,
                    x: Source::Host(moe_x),
                    d_in: moe_x.len,
                    route: Route::Device { chosen: selected.buf, factors: weights.buf },
                    experts: ExpertBufs {
                        gate: e.gate.buf,
                        up: e.up.buf,
                        down: e.down.buf,
                    },
                    streamed: false,
                    gate: e.gate.ttype,
                    up: e.up.ttype,
                    down: e.down.ttype,
                    d_ffn: inner_width(d_ffn, e),
                },
                SharedChain {
                    x: Source::Host(sh_ffn_norm),
                    d_in: sh_ffn_norm.len,
                    w_gate: sh_w.0,
                    w_up: sh_w.1,
                    w_down: sh_w.2,
                    shared_dim,
                    want_q80,
                    gate_q8: q8_bytes(self.config, sh_q8.0),
                    up_q8: q8_bytes(self.config, sh_q8.1),
                    down_q8: q8_bytes(self.config, sh_q8.2),
                },
            );
            (t, Ok(r))
        }
    }

    #[verifier::opaque]
    pub open spec fn encode_moe_and_shared_chain_with_router_bufs_db(
        self,
        layer: u32,
        moe_x: DeferredBuf,
        selected: DeferredBuf,
        weights: DeferredBuf,
        d_ffn: u64,
        sh_ffn_norm: DeferredBuf,
        sh_w: (HostRef, HostRef, HostRef),
        shared_dim: u32,
        sh_q8: (HostRef, HostRef, HostRef),
    ) -> (Trace, Result<MoeOuts, EncodeError>) {
        if selected.n_elements != 6 {
            self.refuse(Check::SelectedLen, selected.n_elements as int, 6)
        } else if weights.n_elements != 6 {
            self.refuse(Check::RouteWeightsLen, weights.n_elements as int, 6)
        } else if layer >= self.engine.experts.len() {
            self.no_experts(layer)
        } else {
            let e = self.engine.experts[layer as int];
            let experts = if layer < self.engine.expert_caches.len() {
                self.engine.expert_caches[layer as int]
            } else {
                ExpertBufs { gate: e.gate.buf, up: e.up.buf, down: e.down.buf }
            };
            let (t, r) = self.moe_and_shared(
                MoeRouted {
                    layer,
                    x: Source::Device(moe_x.buf),
                    d_in: moe_x.n_elements,
                    route: Route::Device { chosen: selected.buf, factors: weights.buf },
                    experts,
                    streamed: false,
                    gate: e.gate.ttype,
                    up: e.up.ttype,
                    down: e.down.ttype,
                    d_ffn: inner_width(d_ffn, e),
                },
                SharedChain {
                    x: Source::Device(sh_ffn_norm.buf),
                    d_in: sh_ffn_norm.n_elements,
                    w_gate: sh_w.0,
                    w_up: sh_w.1,
                    w_down: sh_w.2,
                    shared_dim,
                    want_q80: false,
                    gate_q8: q8_bytes(self.config, sh_q8.0),
                    up_q8: q8_bytes(self.config, sh_q8.1),
                    down_q8: q8_bytes(self.config, sh_q8.2),
                },
            );
            (t, Ok(r))
        }
    }

    #[verifier::opaque]
    pub open spec fn encode_mul_mm_id_map0_k(
        self,
        selected_k: DeferredBuf,
        n_experts: u64,
        k: u64,
    ) -> (Trace, Result<(DeferredBuf, DeferredBuf), EncodeError>) {
        if selected_k.n_elements != k * 6 {
            self.refuse(Check::SelectedLen, selected_k.n_elements as int, k * 6)
        } else if n_experts != 256 {
            self.refuse(Check::ExpertCount, n_experts as int, 256)
        } else {
            let (t, tpe) = self.alloc_i32(n_experts);
            let (t, ids) = t.alloc_i32((n_experts * k) as u64);
            (
                t.put(Command::Encoder).put(
                    Command::Pipeline(Pipe::Special(Kernel::MmIdMap0, Consts::Plain)),
                ).put(
                    Command::Bytes(
                        0,
                        Args::Map0(
                            Map0Args {
                                ne02: n_experts as i32,
                                ne10: 1,
                                ne11: 1,
                                nb11: 0,
                                nb12: 0,
                                ne21: k as i32,
                                ne20: 6,
                                nb21: 24,
                            },
                        ),
                    ),
                ).buf_at(1, selected_k.buf).buf_at(2, tpe.buf).buf_at(3, ids.buf).put(
                    Command::GroupMemory((n_experts * 6 * 2) as u64),
                ).put(Command::Dispatch((1, 1, 1), (n_experts, 1, 1))).put(Command::EndEncoder),
                Ok((tpe, ids)),
            )
        }
    }

    /// Binds an expert-gather GEMM.
    pub open spec fn mm_id_bind(
        self,
        kernel: MmIdKernel,
        args: MulMmIdArgs,
        w: BufId,
        x: BufId,
        tpe: BufId,
        ids: BufId,
        dst: BufId,
    ) -> Trace {
        self.put(
            Command::Pipeline(
                Pipe::Special(Kernel::MmId(kernel), Consts::Bounds { inp: false, out: false }),
            ),
        ).put(Command::Bytes(0, Args::MmId(args))).buf_at(1, w).buf_at(2, x).buf_at(3, tpe).buf_at(
            4,
            ids,
        ).buf_at(5, dst).put(Command::GroupMemory(12288))
    }

    /// Launches an expert-gather GEMM over a grid of its own choice, or of the device's.
    #[verifier::opaque]
    pub open spec fn mm_id_launch(
        self,
        kernel: MmIdKernel,
        args: MulMmIdArgs,
        w: BufId,
        x: BufId,
        tpe: BufId,
        ids: BufId,
        dst: BufId,
        n_experts: u64,
        d_out: u64,
        k: u64,
    ) -> Trace {
        let grid_x = ((room_per_expert(self.config, k) + 31) / 32) as u64;
        let grid_y = ((d_out + 63) / 64) as u64;
        if self.config.moe_grid_indirect && !self.config.moe_grid_wide
            && self.config.moe_grid_div is None {
            let (t, counts) = self.alloc_i32(3);
            t.put(Command::Encoder).put(
                Command::Pipeline(Pipe::Special(Kernel::MoeGridArgs, Consts::Plain)),
            ).buf_at(0, tpe).u32_at(1, n_experts as u32).u32_at(2, 32).u32_at(
                3,
                grid_y as u32,
            ).u32_at(4, n_experts as u32).buf_at(5, counts.buf).put(
                Command::GroupMemory(1024),
            ).put(Command::Dispatch((1, 1, 1), (256, 1, 1))).put(Command::Barrier).mm_id_bind(
                kernel,
                args,
                w,
                x,
                tpe,
                ids,
                dst,
            ).put(
                Command::DispatchIndirect { counts: counts.buf, threads: (32, 4, 1) },
            ).put(Command::EndEncoder)
        } else {
            self.put(Command::Encoder).mm_id_bind(kernel, args, w, x, tpe, ids, dst).put(
                Command::Dispatch((grid_x, grid_y, n_experts), (32, 4, 1)),
            ).put(Command::EndEncoder)
        }
    }

    #[verifier::opaque]
    pub open spec fn encode_mul_mm_id_qx_k(
        self,
        stage: MmStage,
        experts_w: DeferredBuf,
        x_k: DeferredBuf,
        tpe: DeferredBuf,
        ids: DeferredBuf,
        n_experts: u64,
        d_in: u64,
        d_out: u64,
        k: u64,
        slots: u64,
        act: u64,
    ) -> (Trace, Result<DeferredBuf, EncodeError>) {
        if d_in == 0 || d_out == 0 || n_experts == 0 {
            self.refuse(Check::ZeroDim, 0, 1)
        } else if d_in % stage.qk != 0 {
            self.refuse(Check::InputAlign, d_in as int, stage.qk as int)
        } else if slots != 1 && slots != 6 {
            self.refuse(Check::ActivationSlots, slots as int, 6)
        } else if x_k.n_elements != k * slots * d_in {
            self.refuse(Check::InputLen, x_k.n_elements as int, k * slots * d_in)
        } else if tpe.n_elements != n_experts {
            self.refuse(Check::MapLen, tpe.n_elements as int, n_experts as int)
        } else if ids.n_elements != n_experts * k {
            self.refuse(Check::IdsLen, ids.n_elements as int, n_experts * k)
        } else {
            let args = spec_mm_id_args(
                stage.qk,
                stage.bytes,
                n_experts,
                d_in,
                d_out,
                k,
                slots,
                act,
            );
            let (t, dst) = self.pooled_scratch_f32(PoolKey::MoeMmIdDst, (k * 6 * d_out) as u64);
            (
                t.mm_id_launch(
                    stage.kernel,
                    args,
                    experts_w.buf,
                    x_k.buf,
                    tpe.buf,
                    ids.buf,
                    dst.buf,
                    n_experts,
                    d_out,
                    k,
                ),
                Ok(dst),
            )
        }
    }

    #[verifier::opaque]
    pub open spec fn encode_mul_mm_id_iq2_pair_swiglu_k(
        self,
        gate_w: DeferredBuf,
        up_w: DeferredBuf,
        x_k: DeferredBuf,
        tpe: DeferredBuf,
        ids: DeferredBuf,
        wt_flat: DeferredBuf,
        n_experts: u64,
        d_embd: u64,
        d_ffn: u64,
        k: u64,
    ) -> (Trace, Result<DeferredBuf, EncodeError>) {
        if d_embd == 0 || d_ffn == 0 || n_experts == 0 {
            self.refuse(Check::ZeroDim, 0, 1)
        } else if d_embd % 256 != 0 {
            self.refuse(Check::InputAlign, d_embd as int, 256)
        } else if x_k.n_elements != k * d_embd {
            self.refuse(Check::InputLen, x_k.n_elements as int, k * d_embd)
        } else if tpe.n_elements != n_experts {
            self.refuse(Check::MapLen, tpe.n_elements as int, n_experts as int)
        } else if ids.n_elements != n_experts * k {
            self.refuse(Check::IdsLen, ids.n_elements as int, n_experts * k)
        } else if wt_flat.n_elements != k * 6 {
            self.refuse(Check::RouteWeightsLen, wt_flat.n_elements as int, k * 6)
        } else {
            let (t, mid) = self.pooled_scratch_f32(PoolKey::MoeMid, (k * 6 * d_ffn) as u64);
            (
                t.put(Command::Encoder).put(
                    Command::Pipeline(Pipe::Special(Kernel::MmIdIq2PairSwiglu, Consts::Plain)),
                ).put(
                    Command::Bytes(
                        0,
                        Args::MmId(
                            spec_mm_id_args(256, 66, n_experts, d_embd, d_ffn, k, 1, 4),
                        ),
                    ),
                ).put(
                    Command::Bytes(1, Args::SwigluAct(spec_act_args(d_ffn, k, 4, no_clamp()))),
                ).buf_at(2, gate_w.buf).buf_at(3, up_w.buf).buf_at(4, x_k.buf).buf_at(
                    5,
                    tpe.buf,
                ).buf_at(6, ids.buf).buf_at(7, mid.buf).buf_at(8, wt_flat.buf).put(
                    Command::GroupMemory(16384),
                ).put(
                    Command::Dispatch(
                        (((k + 31) / 32) as u64, ((d_ffn + 63) / 64) as u64, n_experts),
                        (32, 4, 1),
                    ),
                ).put(Command::EndEncoder),
                Ok(mid),
            )
        }
    }

    #[verifier::opaque]
    pub open spec fn moe_swiglu_weight_k(
        self,
        gate_k: DeferredBuf,
        up_k: DeferredBuf,
        weights_k_flat: DeferredBuf,
        d_ffn: u64,
        k: u64,
        mid_f16: bool,
    ) -> (Trace, Result<DeferredBuf, EncodeError>) {
        if gate_k.n_elements != k * 6 * d_ffn {
            self.refuse(Check::InputLen, gate_k.n_elements as int, k * 6 * d_ffn)
        } else if up_k.n_elements != k * 6 * d_ffn {
            self.refuse(Check::SecondInputLen, up_k.n_elements as int, k * 6 * d_ffn)
        } else if weights_k_flat.n_elements != k * 6 {
            self.refuse(Check::RouteWeightsLen, weights_k_flat.n_elements as int, k * 6)
        } else {
            let n = (k * 6 * d_ffn) as u64;
            let (t, mid) = if mid_f16 {
                self.pooled_scratch_u16(PoolKey::MoeMidF16, n)
            } else {
                self.pooled_scratch_f32(PoolKey::MoeMidF32, n)
            };
            let kernel = if mid_f16 {
                Kernel::MoeSwigluWeightF16
            } else {
                Kernel::MoeSwigluWeight
            };
            let mid_bytes: u64 = if mid_f16 {
                2
            } else {
                4
            };
            (
                t.put(Command::Encoder).put(
                    Command::Pipeline(Pipe::Special(kernel, Consts::Plain)),
                ).put(
                    Command::Bytes(
                        0,
                        Args::SwigluAct(
                            spec_act_args(d_ffn, k, mid_bytes, spec_clamp(self.config, mid_f16)),
                        ),
                    ),
                ).buf_at(1, gate_k.buf).buf_at(2, up_k.buf).buf_at(3, mid.buf).buf_at(
                    4,
                    weights_k_flat.buf,
                ).put(
                    Command::DispatchUpTo {
                        groups: Groups::Count((k * 6) as u64),
                        want: d_ffn,
                        at_least_one: true,
                    },
                ).put(Command::EndEncoder),
                Ok(mid),
            )
        }
    }

    #[verifier::opaque]
    pub open spec fn sum6_k(self, down_out_k: DeferredBuf, d_embd: u64, k: u64) -> (
        Trace,
        Result<DeferredBuf, EncodeError>,
    ) {
        if down_out_k.n_elements != k * 6 * d_embd {
            self.refuse(Check::InputLen, down_out_k.n_elements as int, k * 6 * d_embd)
        } else {
            let n = (k * d_embd) as u64;
            let (t, out) = self.pooled_scratch_f32(PoolKey::MoeMmIdOut, n);
            (
                t.put(Command::Encoder).put(
                    Command::Pipeline(Pipe::Special(Kernel::Sum6K, Consts::Plain)),
                ).buf_at(0, down_out_k.buf).buf_at(1, out.buf).u32_at(2, d_embd as u32).u32_at(
                    3,
                    k as u32,
                ).put(
                    Command::DispatchUpTo {
                        groups: Groups::Cover(n),
                        want: n,
                        at_least_one: true,
                    },
                ).put(Command::EndEncoder),
                Ok(out),
            )
        }
    }

    /// The gated activations of the chain: in one launch, or gate, up and activation apart.
    pub open spec fn moe_mid(
        self,
        fuse: bool,
        mid_f16: bool,
        normed_k: DeferredBuf,
        wt_k_flat: DeferredBuf,
        tpe: DeferredBuf,
        ids: DeferredBuf,
        gate_w: DeferredBuf,
        up_w: DeferredBuf,
        gate: MmStage,
        up: MmStage,
        n_experts: u64,
        d_embd: u64,
        d_ffn: u64,
        k: u64,
    ) -> (Trace, Result<DeferredBuf, EncodeError>) {
        if fuse {
            self.encode_mul_mm_id_iq2_pair_swiglu_k(
                gate_w,
                up_w,
                normed_k,
                tpe,
                ids,
                wt_k_flat,
                n_experts,
                d_embd,
                d_ffn,
                k,
            )
        } else {
            let (t, g) = self.encode_mul_mm_id_qx_k(
                gate,
                gate_w,
                normed_k,
                tpe,
                ids,
                n_experts,
                d_embd,
                d_ffn,
                k,
                1,
                4,
            );
            if g is Err {
                (t, g)
            } else {
                let (t, u) = t.encode_mul_mm_id_qx_k(
                    up,
                    up_w,
                    normed_k,
                    tpe,
                    ids,
                    n_experts,
                    d_embd,
                    d_ffn,
                    k,
                    1,
                    4,
                );
                if u is Err {
                    (t, u)
                } else {
                    t.moe_swiglu_weight_k(g->Ok_0, u->Ok_0, wt_k_flat, d_ffn, k, mid_f16)
                }
            }
        }
    }

    #[verifier::opaque]
    pub open spec fn encode_moe_chain_mm_qx_k(
        self,
        normed_k: DeferredBuf,
        sel_k_flat: DeferredBuf,
        wt_k_flat: DeferredBuf,
        gate_w: DeferredBuf,
        up_w: DeferredBuf,
        down_w: DeferredBuf,
        gate: MmStage,
        up: MmStage,
        down: MmStage,
        n_experts: u64,
        d_embd: u64,
        d_ffn: u64,
        k: u64,
    ) -> (Trace, Result<DeferredBuf, EncodeError>) {
        if normed_k.n_elements != k * d_embd {
            self.refuse(Check::InputLen, normed_k.n_elements as int, k * d_embd)
        } else if sel_k_flat.n_elements != k * 6 {
            self.refuse(Check::SelectedLen, sel_k_flat.n_elements as int, k * 6)
        } else if wt_k_flat.n_elements != k * 6 {
            self.refuse(Check::RouteWeightsLen, wt_k_flat.n_elements as int, k * 6)
        } else {
            let iq2 = MmIdKernel { quant: MmQuant::IQ2_XXS, half_rhs: false };
            let fuse = gate.kernel == iq2 && up.kernel == iq2 && self.config.moe_fused_mm_id;
            let mid_f16 = !self.config.moe_mid_f32 && !fuse;
            let (t, map) = self.encode_mul_mm_id_map0_k(sel_k_flat, n_experts, k);
            if map is Err {
                t.failed(map)
            } else {
                let (tpe, ids) = map->Ok_0;
                let (t, mid) = t.moe_mid(
                    fuse,
                    mid_f16,
                    normed_k,
                    wt_k_flat,
                    tpe,
                    ids,
                    gate_w,
                    up_w,
                    gate,
                    up,
                    n_experts,
                    d_embd,
                    d_ffn,
                    k,
                );
                if mid is Err {
                    (t, mid)
                } else {
                    let stage = if mid_f16 {
                        MmStage { kernel: MmIdKernel { half_rhs: true, ..down.kernel }, ..down }
                    } else {
                        down
                    };
                    let (t, out) = t.encode_mul_mm_id_qx_k(
                        stage,
                        down_w,
                        mid->Ok_0,
                        tpe,
                        ids,
                        n_experts,
                        d_ffn,
                        d_embd,
                        k,
                        6,
                        if mid_f16 {
                            2
                        } else {
                            4
                        },
                    );
                    if out is Err {
                        (t, out)
                    } else {
                        t.sum6_k(out->Ok_0, d_embd, k)
                    }
                }
            }
        }
    }

    /// Binds the streaming pool to a layer, which fills it where it holds another.
    pub open spec fn bind_pool(self, layer: u32) -> Trace {
        if self.pools.chunk_layer != Some(layer) {
            self.fill_pool(layer, false)
        } else {
            self
        }
    }

    #[verifier::opaque]
    pub open spec fn encode_moe_chain_mm_qx_k_auto(
        self,
        layer: u32,
        normed_k: DeferredBuf,
        sel_flat: DeferredBuf,
        wt_flat: DeferredBuf,
        d_embd: u64,
        d_ffn: u64,
        k: u64,
    ) -> (Trace, Result<DeferredBuf, EncodeError>) {
        if layer >= self.engine.experts.len() {
            self.no_experts(layer)
        } else if self.config.ssd_stream && self.engine.chunk_pool is None {
            (self, Err(EncodeError::NoChunkPool { layer }))
        } else {
            let e = self.engine.experts[layer as int];
            let f = inner_width(d_ffn, e);
            let bufs = if self.config.ssd_stream {
                self.engine.chunk_pool->Some_0
            } else {
                ExpertBufs { gate: e.gate.buf, up: e.up.buf, down: e.down.buf }
            };
            let t = if self.config.ssd_stream {
                self.bind_pool(layer)
            } else {
                self
            };
            let n = (e.n_experts * f * d_embd) as u64;
            match (spec_stage(e.gate.ttype), spec_stage(e.up.ttype), spec_stage(e.down.ttype)) {
                (Some(gate), Some(up), Some(down)) => t.encode_moe_chain_mm_qx_k(
                    normed_k,
                    sel_flat,
                    wt_flat,
                    DeferredBuf { buf: bufs.gate, n_elements: n },
                    DeferredBuf { buf: bufs.up, n_elements: n },
                    DeferredBuf { buf: bufs.down, n_elements: n },
                    gate,
                    up,
                    down,
                    e.n_experts as u64,
                    d_embd,
                    f,
                    k,
                ),
                (None, _, _) => (t, Err(EncodeError::UnsupportedQuant(e.gate.ttype))),
                (_, None, _) => (t, Err(EncodeError::UnsupportedQuant(e.up.ttype))),
                (_, _, None) => (t, Err(EncodeError::UnsupportedQuant(e.down.ttype))),
            }
        }
    }

    /// The fused gate, up and activation of six slots of several positions.
    pub open spec fn pair_swiglu(
        self,
        q4: bool,
        gate_w: DeferredBuf,
        up_w: DeferredBuf,
        x_k: DeferredBuf,
        ids_flat: DeferredBuf,
        weights_flat: DeferredBuf,
        d_in: u64,
        d_ffn: u64,
        k: u64,
    ) -> (Trace, Result<DeferredBuf, EncodeError>) {
        if d_in % 256 != 0 {
            self.refuse(Check::InputAlign, d_in as int, 256)
        } else if x_k.n_elements != k * d_in {
            self.refuse(Check::InputLen, x_k.n_elements as int, k * d_in)
        } else if ids_flat.n_elements != k * 6 {
            self.refuse(Check::SelectedLen, ids_flat.n_elements as int, k * 6)
        } else if weights_flat.n_elements != k * 6 {
            self.refuse(Check::RouteWeightsLen, weights_flat.n_elements as int, k * 6)
        } else {
            let n = (k * 6 * d_ffn) as u64;
            let nsg: i16 = if q4 {
                2
            } else {
                spec_or(self.config.moe_nsg, 2)
            };
            let nr0: i32 = if q4 {
                2
            } else {
                4
            };
            let block: u64 = if q4 {
                144
            } else {
                66
            };
            let row = ((d_in / 256) * block) as u64;
            let args = spec_mv_id_args(
                6,
                k,
                24,
                d_in,
                d_ffn,
                1,
                row,
                (row * d_ffn) as u64,
                1,
                (d_in * 4) as u64,
                if q4 {
                    6
                } else {
                    1
                },
                nr0,
            );
            let (t, mid) = self.pair_launch(
                q4,
                nsg,
                nr0,
                args,
                spec_act_args(d_ffn, k, 4, no_clamp()),
                gate_w.buf,
                up_w.buf,
                x_k.buf,
                ids_flat.buf,
                weights_flat.buf,
                n,
                d_ffn,
                k,
            );
            (t, Ok(mid))
        }
    }

    /// Launches the fused gate, up and activation.
    #[verifier::opaque]
    pub open spec fn pair_launch(
        self,
        q4: bool,
        nsg: i16,
        nr0: i32,
        args: MulMvIdArgs,
        act: MoeSwigluActArgs,
        gate_w: BufId,
        up_w: BufId,
        x: BufId,
        ids: BufId,
        weights: BufId,
        n: u64,
        d_ffn: u64,
        k: u64,
    ) -> (Trace, DeferredBuf) {
        let rows_per_tg = nsg as u64 * nr0 as u64;
        let dispatch = Command::Dispatch(
            (((d_ffn + rows_per_tg - 1) / rows_per_tg) as u64, 1, (k * 6) as u64),
            (32, nsg as u64, 1),
        );
        let consts = Consts::Rows { nsg, nxpsg: 4 };
        if q4 {
            let (t, dst_gate) = self.alloc_f32(n);
            let (t, dst_up) = t.alloc_f32(n);
            let (t, mid) = t.pooled_scratch_f32(PoolKey::MoeMid, n);
            (
                t.put(Command::Encoder).put(
                    Command::Pipeline(Pipe::Special(Kernel::PairSwigluKQ4K, consts)),
                ).put(Command::Bytes(0, Args::MulMvId(args))).put(
                    Command::Bytes(1, Args::SwigluAct(act)),
                ).buf_at(2, gate_w).buf_at(3, up_w).buf_at(4, x).buf_at(5, dst_gate.buf).buf_at(
                    6,
                    dst_up.buf,
                ).buf_at(7, mid.buf).buf_at(8, ids).buf_at(9, weights).put(
                    Command::GroupMemory(8192),
                ).put(dispatch).put(Command::EndEncoder),
                mid,
            )
        } else {
            let (t, mid) = self.pooled_scratch_f32(PoolKey::MoeMid, n);
            (
                t.put(Command::Encoder).put(
                    Command::Pipeline(Pipe::Special(Kernel::PairSwigluKIq2, consts)),
                ).put(Command::Bytes(0, Args::MulMvId(args))).put(
                    Command::Bytes(1, Args::SwigluAct(act)),
                ).buf_at(2, gate_w).buf_at(3, up_w).buf_at(4, x).buf_at(5, mid.buf).buf_at(
                    6,
                    ids,
                ).buf_at(7, weights).put(Command::GroupMemory(8192)).put(dispatch).put(
                    Command::EndEncoder,
                ),
                mid,
            )
        }
    }

    #[verifier::opaque]
    #[allow(non_snake_case)]
    pub open spec fn encode_pair_swiglu_K_iq2_xxs(
        self,
        gate_w: DeferredBuf,
        up_w: DeferredBuf,
        x_k: DeferredBuf,
        ids_flat: DeferredBuf,
        weights_flat: DeferredBuf,
        d_in: u64,
        d_ffn: u64,
        k: u64,
    ) -> (Trace, Result<DeferredBuf, EncodeError>) {
        self.pair_swiglu(false, gate_w, up_w, x_k, ids_flat, weights_flat, d_in, d_ffn, k)
    }

    #[verifier::opaque]
    #[allow(non_snake_case)]
    pub open spec fn encode_pair_swiglu_K_q4_K(
        self,
        gate_w: DeferredBuf,
        up_w: DeferredBuf,
        x_k: DeferredBuf,
        ids_flat: DeferredBuf,
        weights_flat: DeferredBuf,
        d_in: u64,
        d_ffn: u64,
        k: u64,
    ) -> (Trace, Result<DeferredBuf, EncodeError>) {
        self.pair_swiglu(true, gate_w, up_w, x_k, ids_flat, weights_flat, d_in, d_ffn, k)
    }

    /// The down projection of six slots, summed, for several positions.
    #[verifier::opaque]
    pub open spec fn sum6_down(
        self,
        q4: bool,
        down_w: DeferredBuf,
        mid_k: DeferredBuf,
        ids_flat: DeferredBuf,
        d_ffn: u64,
        d_embd: u64,
        k: u64,
    ) -> (Trace, Result<DeferredBuf, EncodeError>) {
        if d_ffn % 256 != 0 {
            self.refuse(Check::InputAlign, d_ffn as int, 256)
        } else {
            let nr0: i32 = if q4 {
                2
            } else {
                4
            };
            let block: u64 = if q4 {
                144
            } else {
                84
            };
            let row = ((d_ffn / 256) * block) as u64;
            let args = spec_mv_id_args(
                6,
                k,
                24,
                d_ffn,
                d_embd,
                1,
                row,
                (row * d_embd) as u64,
                6,
                (6 * d_ffn * 4) as u64,
                k,
                nr0,
            );
            let per_tg: u64 = if q4 {
                4
            } else {
                8
            };
            let (t, out) = self.alloc_f32((k * d_embd) as u64);
            (
                t.put(Command::Encoder).put(
                    Command::Pipeline(
                        Pipe::Special(
                            if q4 {
                                Kernel::Sum6Q4K
                            } else {
                                Kernel::Sum6Q2K
                            },
                            Consts::Rows { nsg: 2, nxpsg: 4 },
                        ),
                    ),
                ).put(Command::Bytes(0, Args::MulMvId(args))).buf_at(1, down_w.buf).buf_at(
                    2,
                    mid_k.buf,
                ).buf_at(3, out.buf).buf_at(4, ids_flat.buf).put(Command::GroupMemory(8192)).put(
                    Command::Dispatch((spec_div_up(d_embd, per_tg), k, 1), (32, 2, 1)),
                ).put(Command::EndEncoder),
                Ok(out),
            )
        }
    }

    /// The fused chain of two launches, for Q4_K experts or for IQ2_XXS and Q2_K ones.
    #[verifier::opaque]
    pub open spec fn moe_chain_fused(
        self,
        q4: bool,
        normed_k: DeferredBuf,
        ids_flat: DeferredBuf,
        weights_flat: DeferredBuf,
        gate_w: DeferredBuf,
        up_w: DeferredBuf,
        down_w: DeferredBuf,
        d_embd: u64,
        d_ffn: u64,
        k: u64,
    ) -> (Trace, Result<DeferredBuf, EncodeError>) {
        let (t, mid) = if q4 {
            self.encode_pair_swiglu_K_q4_K(
                gate_w,
                up_w,
                normed_k,
                ids_flat,
                weights_flat,
                d_embd,
                d_ffn,
                k,
            )
        } else {
            self.encode_pair_swiglu_K_iq2_xxs(
                gate_w,
                up_w,
                normed_k,
                ids_flat,
                weights_flat,
                d_embd,
                d_ffn,
                k,
            )
        };
        if mid is Err {
            (t, mid)
        } else {
            t.sum6_down(q4, down_w, mid->Ok_0, ids_flat, d_ffn, d_embd, k)
        }
    }

    #[verifier::opaque]
    #[allow(non_snake_case)]
    pub open spec fn encode_moe_chain_fused_K_auto(
        self,
        layer: u32,
        normed_k: DeferredBuf,
        sel_flat: DeferredBuf,
        wt_flat: DeferredBuf,
        d_embd: u64,
        d_ffn: u64,
        k: u64,
    ) -> (Trace, Result<DeferredBuf, EncodeError>) {
        if layer >= self.engine.experts.len() {
            self.no_experts(layer)
        } else {
            let e = self.engine.experts[layer as int];
            let f = inner_width(d_ffn, e);
            let n = (e.n_experts * f * d_embd) as u64;
            let g = DeferredBuf { buf: e.gate.buf, n_elements: n };
            let u = DeferredBuf { buf: e.up.buf, n_elements: n };
            let d = DeferredBuf { buf: e.down.buf, n_elements: n };
            if e.gate.ttype == GgmlType::IQ2_XXS && e.up.ttype == GgmlType::IQ2_XXS && e.down.ttype
                == GgmlType::Q2_K {
                self.moe_chain_fused(
                    false,
                    normed_k,
                    sel_flat,
                    wt_flat,
                    g,
                    u,
                    d,
                    d_embd,
                    f,
                    k,
                )
            } else if e.gate.ttype == GgmlType::Q4_K && e.up.ttype == GgmlType::Q4_K
                && e.down.ttype == GgmlType::Q4_K {
                self.moe_chain_fused(
                    true,
                    normed_k,
                    sel_flat,
                    wt_flat,
                    g,
                    u,
                    d,
                    d_embd,
                    f,
                    k,
                )
            } else {
                (
                    self,
                    Err(
                        EncodeError::UnsupportedQuants {
                            layer,
                            gate: e.gate.ttype,
                            up: e.up.ttype,
                            down: e.down.ttype,
                        },
                    ),
                )
            }
        }
    }

    #[verifier::opaque]
    pub open spec fn encode_moe_chain_mm_q8_k(
        self,
        normed_k: DeferredBuf,
        sel_k_flat: DeferredBuf,
        wt_k_flat: DeferredBuf,
        gate_w: DeferredBuf,
        up_w: DeferredBuf,
        down_w: DeferredBuf,
        n_experts: u64,
        d_embd: u64,
        d_ffn: u64,
        k: u64,
    ) -> (Trace, Result<DeferredBuf, EncodeError>) {
        let q8 = spec_stage(GgmlType::Q8_0)->Some_0;
        if normed_k.n_elements != k * d_embd {
            self.refuse(Check::InputLen, normed_k.n_elements as int, k * d_embd)
        } else if sel_k_flat.n_elements != k * 6 {
            self.refuse(Check::SelectedLen, sel_k_flat.n_elements as int, k * 6)
        } else if wt_k_flat.n_elements != k * 6 {
            self.refuse(Check::RouteWeightsLen, wt_k_flat.n_elements as int, k * 6)
        } else if gate_w.n_elements != n_experts * d_ffn * d_embd {
            self.refuse(Check::WeightLen, gate_w.n_elements as int, n_experts * d_ffn * d_embd)
        } else if up_w.n_elements != n_experts * d_ffn * d_embd {
            self.refuse(Check::SecondWeightLen, up_w.n_elements as int, n_experts * d_ffn * d_embd)
        } else if down_w.n_elements != n_experts * d_embd * d_ffn {
            self.refuse(Check::ThirdWeightLen, down_w.n_elements as int, n_experts * d_embd * d_ffn)
        } else {
            let (t, map) = self.encode_mul_mm_id_map0_k(sel_k_flat, n_experts, k);
            if map is Err {
                t.failed(map)
            } else {
                let (tpe, ids) = map->Ok_0;
                let (t, mid) = t.moe_mid(
                    false,
                    false,
                    normed_k,
                    wt_k_flat,
                    tpe,
                    ids,
                    gate_w,
                    up_w,
                    q8,
                    q8,
                    n_experts,
                    d_embd,
                    d_ffn,
                    k,
                );
                if mid is Err {
                    (t, mid)
                } else {
                    let (t, out) = t.encode_mul_mm_id_qx_k(
                        q8,
                        down_w,
                        mid->Ok_0,
                        tpe,
                        ids,
                        n_experts,
                        d_ffn,
                        d_embd,
                        k,
                        6,
                        4,
                    );
                    if out is Err {
                        (t, out)
                    } else {
                        t.sum6_k(out->Ok_0, d_embd, k)
                    }
                }
            }
        }
    }

    /// The routed and shared experts of several positions one by one, from position `i` on.
    pub open spec fn moe_rows(
        self,
        layer: u32,
        normed_k: DeferredBuf,
        routes: Seq<Routed>,
        d_ffn: u64,
        sh_w: (HostRef, HostRef, HostRef),
        shared_dim: u32,
        sh_q8: (HostRef, HostRef, HostRef),
        d_embd: u64,
        moe: BufId,
        shared: BufId,
        i: int,
    ) -> (Trace, Result<(), EncodeError>)
        decreases routes.len() - i,
    {
        if i >= routes.len() || i < 0 {
            (self, Ok(()))
        } else {
            let row = (d_embd * 4) as u64;
            let off = (i * (d_embd * 4)) as u64;
            let (t, temp) = self.alloc_f32(d_embd);
            let t = t.blit(normed_k.buf, off, temp.buf, 0, row);
            let (t, r) = t.encode_moe_and_shared_chain_with_router_bufs_db(
                layer,
                temp,
                routes[i].0,
                routes[i].1,
                d_ffn,
                temp,
                sh_w,
                shared_dim,
                sh_q8,
            );
            if r is Err {
                t.failed(r)
            } else {
                t.put(Command::CloseShared).put(Command::Blit).put(
                    Command::Copy {
                        src: r->Ok_0.0.buf,
                        src_off: 0,
                        dst: moe,
                        dst_off: off,
                        bytes: row,
                    },
                ).put(
                    Command::Copy {
                        src: r->Ok_0.1.buf,
                        src_off: 0,
                        dst: shared,
                        dst_off: off,
                        bytes: row,
                    },
                ).put(Command::EndBlit).moe_rows(
                    layer,
                    normed_k,
                    routes,
                    d_ffn,
                    sh_w,
                    shared_dim,
                    sh_q8,
                    d_embd,
                    moe,
                    shared,
                    i + 1,
                )
            }
        }
    }

    #[verifier::opaque]
    pub open spec fn encode_moe_and_shared_chain_k(
        self,
        layer: u32,
        normed_k: DeferredBuf,
        routes: Seq<Routed>,
        d_ffn: u64,
        sh_w: (HostRef, HostRef, HostRef),
        shared_dim: u32,
        sh_q8: (HostRef, HostRef, HostRef),
        d_embd: u64,
        k: u64,
    ) -> (Trace, Result<MoeOuts, EncodeError>) {
        if normed_k.n_elements != k * d_embd {
            self.refuse(Check::InputLen, normed_k.n_elements as int, k * d_embd)
        } else if routes.len() != k {
            self.refuse(Check::TokenCount, routes.len() as int, k as int)
        } else {
            let (t, moe) = self.alloc_f32((k * d_embd) as u64);
            let (t, shared) = t.alloc_f32((k * d_embd) as u64);
            let (t, r) = t.moe_rows(
                layer,
                normed_k,
                routes,
                d_ffn,
                sh_w,
                shared_dim,
                sh_q8,
                d_embd,
                moe.buf,
                shared.buf,
                0,
            );
            if r is Err {
                t.failed(r)
            } else {
                (t, Ok((moe, shared)))
            }
        }
    }
}

/// A stage of a known format fits wherever the experts do.
proof fn lemma_stage_fits(
    qk: u64,
    bytes: u64,
    n_experts: u64,
    d_in: u64,
    d_out: u64,
    k: u64,
    slots: u64,
)
    requires
        (qk == 32 && bytes == 34) || (qk == 256 && (bytes == 84 || bytes == 144 || bytes == 66)),
        extent(n_experts),
        extent(d_in),
        extent(d_out),
        extent(k),
        elements(n_experts * d_in * d_out) || elements(n_experts * d_out * d_in),
        elements(k * 6 * d_out),
        slots == 1 || (slots == 6 && elements(k * 6 * d_in)),
    ensures
        mm_fits(qk, bytes, n_experts, d_in, d_out, k, slots, 4),
        mm_fits(qk, bytes, n_experts, d_in, d_out, k, slots, 2),
{
    let row = (d_in / qk) * bytes;
    assert(row <= 2 * d_in) by {
        if qk == 32 {
            assert((d_in / 32) * 34 <= 2 * d_in);
        } else {
            assert((d_in / 256) * bytes <= (d_in / 256) * 144) by (nonlinear_arith)
                requires
                    bytes <= 144,
            ;
        }
    }
    assert(0 <= row) by (nonlinear_arith)
        requires
            row == (d_in / qk) * bytes,
            qk > 0,
    ;
    assert(n_experts * d_in * d_out == n_experts * d_out * d_in) by (nonlinear_arith);
    assert(row * d_out <= 2 * (d_in * d_out)) by (nonlinear_arith)
        requires
            0 <= row <= 2 * d_in,
    ;
    assert(row * d_out * n_experts <= 2 * (n_experts * d_in * d_out)) by (nonlinear_arith)
        requires
            0 <= row <= 2 * d_in,
    ;
    lemma_product(d_in as int, d_out as int);
    lemma_product(k as int, d_in as int);
    assert(k * 1 * d_in * 4 == k * d_in * 4 && k * 1 * d_in * 2 == k * d_in * 2)
        by (nonlinear_arith);
}

impl BatchScope {
    fn moe_and_shared(&mut self, routed: MoeRouted, shared: SharedChain) -> (r: MoeOuts)
        ensures
            (final(self)@, r) == old(self)@.moe_and_shared(routed, shared),
            final(self)@.encodes(old(self)@),
            final(self)@.pools.carrier == old(self)@.pools.carrier,
    {
        let moe: DeferredBuf = self.make(Command::MoeRouted(routed), routed.d_in);
        let sh: DeferredBuf = self.make(Command::SharedChain(shared), shared.d_in);
        (moe, sh)
    }

    fn expert_weights(&self, layer: u32) -> (r: Result<ExpertWeights, EncodeError>)
        ensures
            r == (if layer < self@.engine.experts.len() {
                Ok::<ExpertWeights, EncodeError>(self@.engine.experts[layer as int])
            } else {
                Err(
                    EncodeError::NoExperts {
                        layer,
                        loaded: self@.engine.experts.len() as u64,
                    },
                )
            }),
    {
        let i: usize = layer as usize;
        if i < self.engine.experts.len() {
            Ok(self.engine.experts[i])
        } else {
            Err(EncodeError::NoExperts { layer, loaded: self.engine.experts.len() as u64 })
        }
    }

    fn inner_width(d_ffn: u64, e: &ExpertWeights) -> (r: u64)
        ensures
            r == inner_width(d_ffn, *e),
    {
        if d_ffn == 0 {
            e.d_ffn as u64
        } else {
            d_ffn
        }
    }

    fn q8_bytes(&self, b: HostRef) -> (r: Option<HostRef>)
        ensures
            r == q8_bytes(self@.config, b),
    {
        if !self.config.q8_proj_off && b.len > 0 {
            Some(b)
        } else {
            None
        }
    }

    /// The routed and the shared experts of one position, with everything from the host.
    pub fn encode_moe_and_shared_chain(
        &mut self,
        layer_idx: u32,
        moe_x: HostRef,
        moe_selected: HostRef,
        moe_weights: HostRef,
        d_ffn: u64,
        sh_ffn_norm: HostRef,
        sh_w_gate: HostRef,
        sh_w_up: HostRef,
        sh_w_down: HostRef,
        shared_dim: u32,
        want_q80: bool,
    ) -> (r: Result<MoeOuts, EncodeError>)
        ensures
            (final(self)@, r) == old(self)@.encode_moe_and_shared_chain(
                layer_idx,
                moe_x,
                moe_selected,
                moe_weights,
                d_ffn,
                sh_ffn_norm,
                sh_w_gate,
                sh_w_up,
                sh_w_down,
                shared_dim,
                want_q80,
            ),
            final(self)@.encodes(old(self)@),
            final(self)@.pools.carrier == old(self)@.pools.carrier,
    {
        proof {
            reveal(Trace::encode_moe_and_shared_chain);
        }
        let e: ExpertWeights = self.expert_weights(layer_idx)?;
        Ok(
            self.moe_and_shared(
                MoeRouted {
                    layer: layer_idx,
                    x: Source::Host(moe_x),
                    d_in: moe_x.len,
                    route: Route::Host { selected: moe_selected, weights: moe_weights },
                    experts: ExpertBufs {
                        gate: e.gate.buf,
                        up: e.up.buf,
                        down: e.down.buf,
                    },
                    streamed: true,
                    gate: e.gate.ttype,
                    up: e.up.ttype,
                    down: e.down.ttype,
                    d_ffn: BatchScope::inner_width(d_ffn, &e),
                },
                SharedChain {
                    x: Source::Host(sh_ffn_norm),
                    d_in: sh_ffn_norm.len,
                    w_gate: sh_w_gate,
                    w_up: sh_w_up,
                    w_down: sh_w_down,
                    shared_dim,
                    want_q80,
                    gate_q8: None,
                    up_q8: None,
                    down_q8: None,
                },
            ),
        )
    }

    /// [`BatchScope::encode_moe_and_shared_chain`] with the route on the device.
    pub fn encode_moe_and_shared_chain_with_router_bufs(
        &mut self,
        layer_idx: u32,
        moe_x: HostRef,
        selected: &DeferredBuf,
        weights: &DeferredBuf,
        d_ffn: u64,
        sh_ffn_norm: HostRef,
        sh_w_gate: HostRef,
        sh_w_up: HostRef,
        sh_w_down: HostRef,
        shared_dim: u32,
        want_q80: bool,
        sh_w_gate_q8: HostRef,
        sh_w_up_q8: HostRef,
        sh_w_down_q8: HostRef,
    ) -> (r: Result<MoeOuts, EncodeError>)
        ensures
            (final(self)@, r) == old(self)@.encode_moe_and_shared_chain_with_router_bufs(
                layer_idx,
                moe_x,
                *selected,
                *weights,
                d_ffn,
                sh_ffn_norm,
                (sh_w_gate, sh_w_up, sh_w_down),
                shared_dim,
                want_q80,
                (sh_w_gate_q8, sh_w_up_q8, sh_w_down_q8),
            ),
            final(self)@.encodes(old(self)@),
            final(self)@.pools.carrier == old(self)@.pools.carrier,
    {
        proof {
            reveal(Trace::encode_moe_and_shared_chain_with_router_bufs);
        }
        if selected.n_elements != 6 {
            return Err(unfit(Check::SelectedLen, selected.n_elements, 6));
        }
        if weights.n_elements != 6 {
            return Err(unfit(Check::RouteWeightsLen, weights.n_elements, 6));
        }
        let e: ExpertWeights = self.expert_weights(layer_idx)?;
        let shared: SharedChain = SharedChain {
            x: Source::Host(sh_ffn_norm),
            d_in: sh_ffn_norm.len,
            w_gate: sh_w_gate,
            w_up: sh_w_up,
            w_down: sh_w_down,
            shared_dim,
            want_q80,
            gate_q8: self.q8_bytes(sh_w_gate_q8),
            up_q8: self.q8_bytes(sh_w_up_q8),
            down_q8: self.q8_bytes(sh_w_down_q8),
        };
        Ok(
            self.moe_and_shared(
                MoeRouted {
                    layer: layer_idx,
                    x: Source::Host(moe_x),
                    d_in: moe_x.len,
                    route: Route::Device { chosen: selected.buf, factors: weights.buf },
                    experts: ExpertBufs {
                        gate: e.gate.buf,
                        up: e.up.buf,
                        down: e.down.buf,
                    },
                    streamed: false,
                    gate: e.gate.ttype,
                    up: e.up.ttype,
                    down: e.down.ttype,
                    d_ffn: BatchScope::inner_width(d_ffn, &e),
                },
                shared,
            ),
        )
    }

    /// [`BatchScope::encode_moe_and_shared_chain`] with route and inputs on the
    /// device. Where experts are streamed, the route names places of the cache.
    pub fn encode_moe_and_shared_chain_with_router_bufs_db(
        &mut self,
        layer_idx: u32,
        moe_x_db: &DeferredBuf,
        selected: &DeferredBuf,
        weights: &DeferredBuf,
        d_ffn: u64,
        sh_ffn_norm_db: &DeferredBuf,
        sh_w_gate: HostRef,
        sh_w_up: HostRef,
        sh_w_down: HostRef,
        shared_dim: u32,
        sh_w_gate_q8: HostRef,
        sh_w_up_q8: HostRef,
        sh_w_down_q8: HostRef,
    ) -> (r: Result<MoeOuts, EncodeError>)
        ensures
            (final(self)@, r) == old(self)@.encode_moe_and_shared_chain_with_router_bufs_db(
                layer_idx,
                *moe_x_db,
                *selected,
                *weights,
                d_ffn,
                *sh_ffn_norm_db,
                (sh_w_gate, sh_w_up, sh_w_down),
                shared_dim,
                (sh_w_gate_q8, sh_w_up_q8, sh_w_down_q8),
            ),
            r matches Ok(b) ==> b.0.n_elements == moe_x_db.n_elements && b.1.n_elements
                == sh_ffn_norm_db.n_elements,
            final(self)@.encodes(old(self)@),
            final(self)@.pools.carrier == old(self)@.pools.carrier,
    {
        proof {
            reveal(Trace::encode_moe_and_shared_chain_with_router_bufs_db);
        }
        if selected.n_elements != 6 {
            return Err(unfit(Check::SelectedLen, selected.n_elements, 6));
        }
        if weights.n_elements != 6 {
            return Err(unfit(Check::RouteWeightsLen, weights.n_elements, 6));
        }
        let e: ExpertWeights = self.expert_weights(layer_idx)?;
        let i: usize = layer_idx as usize;
        let experts: ExpertBufs = if i < self.engine.expert_caches.len() {
            self.engine.expert_caches[i]
        } else {
            ExpertBufs { gate: e.gate.buf, up: e.up.buf, down: e.down.buf }
        };
        let shared: SharedChain = SharedChain {
            x: Source::Device(sh_ffn_norm_db.buf),
            d_in: sh_ffn_norm_db.n_elements,
            w_gate: sh_w_gate,
            w_up: sh_w_up,
            w_down: sh_w_down,
            shared_dim,
            want_q80: false,
            gate_q8: self.q8_bytes(sh_w_gate_q8),
            up_q8: self.q8_bytes(sh_w_up_q8),
            down_q8: self.q8_bytes(sh_w_down_q8),
        };
        Ok(
            self.moe_and_shared(
                MoeRouted {
                    layer: layer_idx,
                    x: Source::Device(moe_x_db.buf),
                    d_in: moe_x_db.n_elements,
                    route: Route::Device { chosen: selected.buf, factors: weights.buf },
                    experts,
                    streamed: false,
                    gate: e.gate.ttype,
                    up: e.up.ttype,
                    down: e.down.ttype,
                    d_ffn: BatchScope::inner_width(d_ffn, &e),
                },
                shared,
            ),
        )
    }

    /// Sorts the routes of several positions by expert: how many tokens each
    /// expert has, and which.
    pub fn encode_mul_mm_id_map0_k(
        &mut self,
        selected_k: &DeferredBuf,
        n_experts: u64,
        k_positions: u64,
    ) -> (r: Result<(DeferredBuf, DeferredBuf), EncodeError>)
        requires
            extent(n_experts),
            extent(k_positions),
        ensures
            (final(self)@, r) == old(self)@.encode_mul_mm_id_map0_k(
                *selected_k,
                n_experts,
                k_positions,
            ),
            r matches Ok(b) ==> b.0.n_elements == n_experts && b.1.n_elements == n_experts
                * k_positions,
            final(self)@.encodes(old(self)@),
            final(self)@.pools.carrier == old(self)@.pools.carrier,
    {
        proof {
            reveal(Trace::encode_mul_mm_id_map0_k);
        }
        let k: u64 = k_positions;
        if selected_k.n_elements != k * 6 {
            return Err(unfit(Check::SelectedLen, selected_k.n_elements, k * 6));
        }
        if n_experts != 256 {
            return Err(unfit(Check::ExpertCount, n_experts, 256));
        }
        let tpe: DeferredBuf = self.alloc_i32(n_experts);
        let ids: DeferredBuf = self.alloc_i32(times(n_experts, k));
        self.put(Command::Encoder);
        self.put(Command::Pipeline(Pipe::Special(Kernel::MmIdMap0, Consts::Plain)));
        self.put(
            Command::Bytes(
                0,
                Args::Map0(
                    Map0Args {
                        ne02: n_experts as i32,
                        ne10: 1,
                        ne11: 1,
                        nb11: 0,
                        nb12: 0,
                        ne21: k as i32,
                        ne20: 6,
                        nb21: 24,
                    },
                ),
            ),
        );
        self.buf_at(1, selected_k.buf);
        self.buf_at(2, tpe.buf);
        self.buf_at(3, ids.buf);
        self.put(Command::GroupMemory(n_experts * 6 * 2));
        self.put(Command::Dispatch((1, 1, 1), (n_experts, 1, 1)));
        self.put(Command::EndEncoder);
        Ok((tpe, ids))
    }

    fn mm_id_bind(
        &mut self,
        kernel: MmIdKernel,
        args: MulMmIdArgs,
        w: BufId,
        x: BufId,
        tpe: BufId,
        ids: BufId,
        dst: BufId,
    )
        ensures
            final(self)@ == old(self)@.mm_id_bind(kernel, args, w, x, tpe, ids, dst),
            final(self)@.encodes(old(self)@),
            final(self)@.pools.carrier == old(self)@.pools.carrier,
    {
        self.put(
            Command::Pipeline(
                Pipe::Special(Kernel::MmId(kernel), Consts::Bounds { inp: false, out: false }),
            ),
        );
        self.put(Command::Bytes(0, Args::MmId(args)));
        self.buf_at(1, w);
        self.buf_at(2, x);
        self.buf_at(3, tpe);
        self.buf_at(4, ids);
        self.buf_at(5, dst);
        self.put(Command::GroupMemory(12288));
    }

    fn room_per_expert(&self, k: u64) -> (r: u64)
        requires
            extent(k),
            self@.config.moe_grid_div matches Some(d) ==> k + d <= u64::MAX,
        ensures
            r == room_per_expert(self@.config, k),
            r <= 6 * MAX_EXTENT,
    {
        if self.config.moe_grid_wide {
            k * 6
        } else {
            match self.config.moe_grid_div {
                Some(div) => {
                    let d: u64 = if div < 1 {
                        1
                    } else {
                        div
                    };
                    assert((k + d - 1) / d as int <= k) by (nonlinear_arith)
                        requires
                            d >= 1,
                            k >= 0,
                    ;
                    div_up(k, d)
                },
                None => (k + 7) / 8,
            }
        }
    }

    fn mm_id_launch(
        &mut self,
        kernel: MmIdKernel,
        args: MulMmIdArgs,
        w: BufId,
        x: BufId,
        tpe: BufId,
        ids: BufId,
        dst: BufId,
        n_experts: u64,
        d_out: u64,
        k: u64,
    )
        requires
            extent(n_experts),
            extent(d_out),
            extent(k),
            old(self)@.config.moe_grid_div matches Some(d) ==> k + d <= u64::MAX,
        ensures
            final(self)@ == old(self)@.mm_id_launch(
                kernel,
                args,
                w,
                x,
                tpe,
                ids,
                dst,
                n_experts,
                d_out,
                k,
            ),
            final(self)@.encodes(old(self)@),
            final(self)@.pools.carrier == old(self)@.pools.carrier,
    {
        proof {
            reveal(Trace::mm_id_launch);
        }
        let grid_x: u64 = (self.room_per_expert(k) + 31) / 32;
        let grid_y: u64 = (d_out + 63) / 64;
        if self.config.moe_grid_indirect && !self.config.moe_grid_wide
            && self.config.moe_grid_div.is_none() {
            let counts: DeferredBuf = self.alloc_i32(3);
            self.put(Command::Encoder);
            self.put(Command::Pipeline(Pipe::Special(Kernel::MoeGridArgs, Consts::Plain)));
            self.buf_at(0, tpe);
            self.u32_at(1, n_experts as u32);
            self.u32_at(2, 32);
            self.u32_at(3, grid_y as u32);
            self.u32_at(4, n_experts as u32);
            self.buf_at(5, counts.buf);
            self.put(Command::GroupMemory(1024));
            self.put(Command::Dispatch((1, 1, 1), (256, 1, 1)));
            self.put(Command::Barrier);
            self.mm_id_bind(kernel, args, w, x, tpe, ids, dst);
            self.put(Command::DispatchIndirect { counts: counts.buf, threads: (32, 4, 1) });
            self.put(Command::EndEncoder);
        } else {
            self.put(Command::Encoder);
            self.mm_id_bind(kernel, args, w, x, tpe, ids, dst);
            self.put(Command::Dispatch((grid_x, grid_y, n_experts), (32, 4, 1)));
            self.put(Command::EndEncoder);
        }
    }

    /// Every expert's matrix times the activations of the tokens routed to it.
    pub fn encode_mul_mm_id_qx_k(
        &mut self,
        kernel: MmIdKernel,
        block_qk: u64,
        block_bytes: u64,
        experts_w: &DeferredBuf,
        x_k: &DeferredBuf,
        tpe: &DeferredBuf,
        ids: &DeferredBuf,
        n_experts: u64,
        d_in: u64,
        d_out: u64,
        k_positions: u64,
        act_slots: u64,
        act_bytes: u64,
    ) -> (r: Result<DeferredBuf, EncodeError>)
        requires
            extent(n_experts),
            extent(d_in),
            extent(d_out),
            extent(k_positions),
            mm_fits(
                block_qk,
                block_bytes,
                n_experts,
                d_in,
                d_out,
                k_positions,
                act_slots,
                act_bytes,
            ),
            old(self)@.config.moe_grid_div matches Some(d) ==> k_positions + d <= u64::MAX,
        ensures
            (final(self)@, r) == old(self)@.encode_mul_mm_id_qx_k(
                (MmStage { kernel, qk: block_qk, bytes: block_bytes }),
                *experts_w,
                *x_k,
                *tpe,
                *ids,
                n_experts,
                d_in,
                d_out,
                k_positions,
                act_slots,
                act_bytes,
            ),
            r matches Ok(b) ==> b.n_elements == k_positions * 6 * d_out,
            final(self)@.encodes(old(self)@),
            final(self)@.pools.carrier == old(self)@.pools.carrier,
    {
        proof {
            reveal(Trace::encode_mul_mm_id_qx_k);
        }
        let k: u64 = k_positions;
        if d_in == 0 || d_out == 0 || n_experts == 0 {
            return Err(unfit(Check::ZeroDim, 0, 1));
        }
        if d_in % block_qk != 0 {
            return Err(unfit(Check::InputAlign, d_in, block_qk));
        }
        if act_slots != 1 && act_slots != 6 {
            return Err(unfit(Check::ActivationSlots, act_slots, 6));
        }
        if !is_product3(x_k.n_elements, k, act_slots, d_in) {
            return Err(unfit(Check::InputLen, x_k.n_elements, capped3(k, act_slots, d_in)));
        }
        if tpe.n_elements != n_experts {
            return Err(unfit(Check::MapLen, tpe.n_elements, n_experts));
        }
        if ids.n_elements != times(n_experts, k) {
            return Err(unfit(Check::IdsLen, ids.n_elements, times(n_experts, k)));
        }
        let args: MulMmIdArgs = mm_id_args(
            block_qk,
            block_bytes,
            n_experts,
            d_in,
            d_out,
            k,
            act_slots,
            act_bytes,
        );
        let dst: DeferredBuf = self.pooled_scratch_f32(
            PoolKey::MoeMmIdDst,
            times3(k, 6, d_out),
        );
        self.mm_id_launch(
            kernel,
            args,
            experts_w.buf,
            x_k.buf,
            tpe.buf,
            ids.buf,
            dst.buf,
            n_experts,
            d_out,
            k,
        );
        Ok(dst)
    }

    /// Gate, up and activation of IQ2_XXS experts in one launch.
    pub fn encode_mul_mm_id_iq2_pair_swiglu_k(
        &mut self,
        gate_w: &DeferredBuf,
        up_w: &DeferredBuf,
        x_k: &DeferredBuf,
        tpe: &DeferredBuf,
        ids: &DeferredBuf,
        wt_flat: &DeferredBuf,
        n_experts: u64,
        d_embd: u64,
        d_ffn: u64,
        k_positions: u64,
    ) -> (r: Result<DeferredBuf, EncodeError>)
        requires
            extent(n_experts),
            extent(d_embd),
            extent(d_ffn),
            extent(k_positions),
            mm_fits(256, 66, n_experts, d_embd, d_ffn, k_positions, 1, 4),
        ensures
            (final(self)@, r) == old(self)@.encode_mul_mm_id_iq2_pair_swiglu_k(
                *gate_w,
                *up_w,
                *x_k,
                *tpe,
                *ids,
                *wt_flat,
                n_experts,
                d_embd,
                d_ffn,
                k_positions,
            ),
            r matches Ok(b) ==> b.n_elements == k_positions * 6 * d_ffn,
            final(self)@.encodes(old(self)@),
            final(self)@.pools.carrier == old(self)@.pools.carrier,
    {
        proof {
            reveal(Trace::encode_mul_mm_id_iq2_pair_swiglu_k);
        }
        let k: u64 = k_positions;
        if d_embd == 0 || d_ffn == 0 || n_experts == 0 {
            return Err(unfit(Check::ZeroDim, 0, 1));
        }
        if d_embd % 256 != 0 {
            return Err(unfit(Check::InputAlign, d_embd, 256));
        }
        if x_k.n_elements != times(k, d_embd) {
            return Err(unfit(Check::InputLen, x_k.n_elements, times(k, d_embd)));
        }
        if tpe.n_elements != n_experts {
            return Err(unfit(Check::MapLen, tpe.n_elements, n_experts));
        }
        if ids.n_elements != times(n_experts, k) {
            return Err(unfit(Check::IdsLen, ids.n_elements, times(n_experts, k)));
        }
        if wt_flat.n_elements != k * 6 {
            return Err(unfit(Check::RouteWeightsLen, wt_flat.n_elements, k * 6));
        }
        assert(k * 1 * d_embd == k * d_embd) by (nonlinear_arith);
        let args: MulMmIdArgs = mm_id_args(256, 66, n_experts, d_embd, d_ffn, k, 1, 4);
        let act: MoeSwigluActArgs = act_args(d_ffn, k, 4, F32(0x7f80_0000));
        let mid: DeferredBuf = self.pooled_scratch_f32(PoolKey::MoeMid, times3(k, 6, d_ffn));
        self.put(Command::Encoder);
        self.put(Command::Pipeline(Pipe::Special(Kernel::MmIdIq2PairSwiglu, Consts::Plain)));
        self.put(Command::Bytes(0, Args::MmId(args)));
        self.put(Command::Bytes(1, Args::SwigluAct(act)));
        self.buf_at(2, gate_w.buf);
        self.buf_at(3, up_w.buf);
        self.buf_at(4, x_k.buf);
        self.buf_at(5, tpe.buf);
        self.buf_at(6, ids.buf);
        self.buf_at(7, mid.buf);
        self.buf_at(8, wt_flat.buf);
        self.put(Command::GroupMemory(16384));
        self.put(
            Command::Dispatch(((k + 31) / 32, (d_ffn + 63) / 64, n_experts), (32, 4, 1)),
        );
        self.put(Command::EndEncoder);
        Ok(mid)
    }

    /// [`BatchScope::encode_mul_mm_id_qx_k`] for Q8_0 experts.
    pub fn encode_mul_mm_id_q8_0_k(
        &mut self,
        experts_w_q8: &DeferredBuf,
        x_k: &DeferredBuf,
        tpe: &DeferredBuf,
        ids: &DeferredBuf,
        n_experts: u64,
        d_in: u64,
        d_out: u64,
        k_positions: u64,
        act_slots: u64,
    ) -> (r: Result<DeferredBuf, EncodeError>)
        requires
            extent(n_experts),
            extent(d_in),
            extent(d_out),
            extent(k_positions),
            mm_fits(32, 34, n_experts, d_in, d_out, k_positions, act_slots, 4),
            old(self)@.config.moe_grid_div matches Some(d) ==> k_positions + d <= u64::MAX,
        ensures
            (final(self)@, r) == old(self)@.encode_mul_mm_id_qx_k(
                spec_stage(GgmlType::Q8_0)->Some_0,
                *experts_w_q8,
                *x_k,
                *tpe,
                *ids,
                n_experts,
                d_in,
                d_out,
                k_positions,
                act_slots,
                4,
            ),
            r matches Ok(b) ==> b.n_elements == k_positions * 6 * d_out,
            final(self)@.encodes(old(self)@),
            final(self)@.pools.carrier == old(self)@.pools.carrier,
    {
        self.encode_mul_mm_id_qx_k(
            MmIdKernel { quant: MmQuant::Q8_0, half_rhs: false },
            32,
            34,
            experts_w_q8,
            x_k,
            tpe,
            ids,
            n_experts,
            d_in,
            d_out,
            k_positions,
            act_slots,
            4,
        )
    }

    /// [`BatchScope::encode_mul_mm_id_qx_k`] for Q4_K experts.
    #[allow(non_snake_case)]
    pub fn encode_mul_mm_id_q4_K_k(
        &mut self,
        experts_w_q4k: &DeferredBuf,
        x_k: &DeferredBuf,
        tpe: &DeferredBuf,
        ids: &DeferredBuf,
        n_experts: u64,
        d_in: u64,
        d_out: u64,
        k_positions: u64,
        act_slots: u64,
    ) -> (r: Result<DeferredBuf, EncodeError>)
        requires
            extent(n_experts),
            extent(d_in),
            extent(d_out),
            extent(k_positions),
            mm_fits(256, 144, n_experts, d_in, d_out, k_positions, act_slots, 4),
            old(self)@.config.moe_grid_div matches Some(d) ==> k_positions + d <= u64::MAX,
        ensures
            (final(self)@, r) == old(self)@.encode_mul_mm_id_qx_k(
                spec_stage(GgmlType::Q4_K)->Some_0,
                *experts_w_q4k,
                *x_k,
                *tpe,
                *ids,
                n_experts,
                d_in,
                d_out,
                k_positions,
                act_slots,
                4,
            ),
            r matches Ok(b) ==> b.n_elements == k_positions * 6 * d_out,
            final(self)@.encodes(old(self)@),
            final(self)@.pools.carrier == old(self)@.pools.carrier,
    {
        self.encode_mul_mm_id_qx_k(
            MmIdKernel { quant: MmQuant::Q4_K, half_rhs: false },
            256,
            144,
            experts_w_q4k,
            x_k,
            tpe,
            ids,
            n_experts,
            d_in,
            d_out,
            k_positions,
            act_slots,
            4,
        )
    }

    /// [`BatchScope::encode_mul_mm_id_qx_k`] for Q2_K experts.
    #[allow(non_snake_case)]
    pub fn encode_mul_mm_id_q2_K_k(
        &mut self,
        experts_w_q2k: &DeferredBuf,
        x_k: &DeferredBuf,
        tpe: &DeferredBuf,
        ids: &DeferredBuf,
        n_experts: u64,
        d_in: u64,
        d_out: u64,
        k_positions: u64,
        act_slots: u64,
    ) -> (r: Result<DeferredBuf, EncodeError>)
        requires
            extent(n_experts),
            extent(d_in),
            extent(d_out),
            extent(k_positions),
            mm_fits(256, 84, n_experts, d_in, d_out, k_positions, act_slots, 4),
            old(self)@.config.moe_grid_div matches Some(d) ==> k_positions + d <= u64::MAX,
        ensures
            (final(self)@, r) == old(self)@.encode_mul_mm_id_qx_k(
                spec_stage(GgmlType::Q2_K)->Some_0,
                *experts_w_q2k,
                *x_k,
                *tpe,
                *ids,
                n_experts,
                d_in,
                d_out,
                k_positions,
                act_slots,
                4,
            ),
            r matches Ok(b) ==> b.n_elements == k_positions * 6 * d_out,
            final(self)@.encodes(old(self)@),
            final(self)@.pools.carrier == old(self)@.pools.carrier,
    {
        self.encode_mul_mm_id_qx_k(
            MmIdKernel { quant: MmQuant::Q2_K, half_rhs: false },
            256,
            84,
            experts_w_q2k,
            x_k,
            tpe,
            ids,
            n_experts,
            d_in,
            d_out,
            k_positions,
            act_slots,
            4,
        )
    }

    /// [`BatchScope::encode_mul_mm_id_qx_k`] for IQ2_XXS experts.
    pub fn encode_mul_mm_id_iq2_xxs_k(
        &mut self,
        experts_w_iq2xxs: &DeferredBuf,
        x_k: &DeferredBuf,
        tpe: &DeferredBuf,
        ids: &DeferredBuf,
        n_experts: u64,
        d_in: u64,
        d_out: u64,
        k_positions: u64,
        act_slots: u64,
    ) -> (r: Result<DeferredBuf, EncodeError>)
        requires
            extent(n_experts),
            extent(d_in),
            extent(d_out),
            extent(k_positions),
            mm_fits(256, 66, n_experts, d_in, d_out, k_positions, act_slots, 4),
            old(self)@.config.moe_grid_div matches Some(d) ==> k_positions + d <= u64::MAX,
        ensures
            (final(self)@, r) == old(self)@.encode_mul_mm_id_qx_k(
                spec_stage(GgmlType::IQ2_XXS)->Some_0,
                *experts_w_iq2xxs,
                *x_k,
                *tpe,
                *ids,
                n_experts,
                d_in,
                d_out,
                k_positions,
                act_slots,
                4,
            ),
            r matches Ok(b) ==> b.n_elements == k_positions * 6 * d_out,
            final(self)@.encodes(old(self)@),
            final(self)@.pools.carrier == old(self)@.pools.carrier,
    {
        self.encode_mul_mm_id_qx_k(
            MmIdKernel { quant: MmQuant::IQ2_XXS, half_rhs: false },
            256,
            66,
            experts_w_iq2xxs,
            x_k,
            tpe,
            ids,
            n_experts,
            d_in,
            d_out,
            k_positions,
            act_slots,
            4,
        )
    }

    /// The gated activation of every slot, times its routed factor.
    pub fn moe_swiglu_weight_k(
        &mut self,
        gate_k: &DeferredBuf,
        up_k: &DeferredBuf,
        weights_k_flat: &DeferredBuf,
        d_ffn: u64,
        k_positions: u64,
        mid_f16: bool,
    ) -> (r: Result<DeferredBuf, EncodeError>)
        requires
            extent(d_ffn),
            extent(k_positions),
            elements(k_positions * 6 * d_ffn),
        ensures
            (final(self)@, r) == old(self)@.moe_swiglu_weight_k(
                *gate_k,
                *up_k,
                *weights_k_flat,
                d_ffn,
                k_positions,
                mid_f16,
            ),
            r matches Ok(b) ==> b.n_elements == k_positions * 6 * d_ffn,
            final(self)@.encodes(old(self)@),
            final(self)@.pools.carrier == old(self)@.pools.carrier,
    {
        proof {
            reveal(Trace::moe_swiglu_weight_k);
        }
        let k: u64 = k_positions;
        let n: u64 = times3(k, 6, d_ffn);
        if gate_k.n_elements != n {
            return Err(unfit(Check::InputLen, gate_k.n_elements, n));
        }
        if up_k.n_elements != n {
            return Err(unfit(Check::SecondInputLen, up_k.n_elements, n));
        }
        if weights_k_flat.n_elements != k * 6 {
            return Err(unfit(Check::RouteWeightsLen, weights_k_flat.n_elements, k * 6));
        }
        let clamp: F32 = if !mid_f16 && self.config.swiglu_clamp_off {
            F32(0x7f80_0000)
        } else {
            self.config.mid_clamp
        };
        let (kernel, mid_bytes): (Kernel, u64) = if mid_f16 {
            (Kernel::MoeSwigluWeightF16, 2)
        } else {
            (Kernel::MoeSwigluWeight, 4)
        };
        let args: MoeSwigluActArgs = act_args(d_ffn, k, mid_bytes, clamp);
        let mid: DeferredBuf = if mid_f16 {
            self.pooled_scratch_u16(PoolKey::MoeMidF16, n)
        } else {
            self.pooled_scratch_f32(PoolKey::MoeMidF32, n)
        };
        self.put(Command::Encoder);
        self.put(Command::Pipeline(Pipe::Special(kernel, Consts::Plain)));
        self.put(Command::Bytes(0, Args::SwigluAct(args)));
        self.buf_at(1, gate_k.buf);
        self.buf_at(2, up_k.buf);
        self.buf_at(3, mid.buf);
        self.buf_at(4, weights_k_flat.buf);
        self.put(
            Command::DispatchUpTo {
                groups: Groups::Count(k * 6),
                want: d_ffn,
                at_least_one: true,
            },
        );
        self.put(Command::EndEncoder);
        Ok(mid)
    }

    /// The sum of the six slots of every position.
    pub fn sum6_k(&mut self, down_out_k: &DeferredBuf, d_embd: u64, k_positions: u64) -> (r: Result<
        DeferredBuf,
        EncodeError,
    >)
        requires
            extent(d_embd),
            extent(k_positions),
            elements(k_positions * 6 * d_embd),
        ensures
            (final(self)@, r) == old(self)@.sum6_k(*down_out_k, d_embd, k_positions),
            r matches Ok(b) ==> b.n_elements == k_positions * d_embd,
            final(self)@.encodes(old(self)@),
            final(self)@.pools.carrier == old(self)@.pools.carrier,
    {
        proof {
            reveal(Trace::sum6_k);
        }
        let k: u64 = k_positions;
        if down_out_k.n_elements != times3(k, 6, d_embd) {
            return Err(unfit(Check::InputLen, down_out_k.n_elements, times3(k, 6, d_embd)));
        }
        let n: u64 = times(k, d_embd);
        let out: DeferredBuf = self.pooled_scratch_f32(PoolKey::MoeMmIdOut, n);
        self.put(Command::Encoder);
        self.put(Command::Pipeline(Pipe::Special(Kernel::Sum6K, Consts::Plain)));
        self.buf_at(0, down_out_k.buf);
        self.buf_at(1, out.buf);
        self.u32_at(2, d_embd as u32);
        self.u32_at(3, k as u32);
        self.put(
            Command::DispatchUpTo { groups: Groups::Cover(n), want: n, at_least_one: true },
        );
        self.put(Command::EndEncoder);
        Ok(out)
    }

    fn moe_mid(
        &mut self,
        fuse: bool,
        mid_f16: bool,
        normed_k: &DeferredBuf,
        wt_k_flat: &DeferredBuf,
        tpe: &DeferredBuf,
        ids: &DeferredBuf,
        gate_w: &DeferredBuf,
        up_w: &DeferredBuf,
        gate: MmStage,
        up: MmStage,
        n_experts: u64,
        d_embd: u64,
        d_ffn: u64,
        k: u64,
    ) -> (r: Result<DeferredBuf, EncodeError>)
        requires
            extent(n_experts),
            extent(d_embd),
            extent(d_ffn),
            extent(k),
            fuse ==> mm_fits(256, 66, n_experts, d_embd, d_ffn, k, 1, 4),
            !fuse ==> mm_fits(gate.qk, gate.bytes, n_experts, d_embd, d_ffn, k, 1, 4),
            !fuse ==> mm_fits(up.qk, up.bytes, n_experts, d_embd, d_ffn, k, 1, 4),
            elements(k * 6 * d_ffn),
            old(self)@.config.moe_grid_div matches Some(d) ==> k + d <= u64::MAX,
        ensures
            (final(self)@, r) == old(self)@.moe_mid(
                fuse,
                mid_f16,
                *normed_k,
                *wt_k_flat,
                *tpe,
                *ids,
                *gate_w,
                *up_w,
                gate,
                up,
                n_experts,
                d_embd,
                d_ffn,
                k,
            ),
            r matches Ok(b) ==> b.n_elements == k * 6 * d_ffn,
            final(self)@.encodes(old(self)@),
            final(self)@.pools.carrier == old(self)@.pools.carrier,
    {
        if fuse {
            return self.encode_mul_mm_id_iq2_pair_swiglu_k(
                gate_w,
                up_w,
                normed_k,
                tpe,
                ids,
                wt_k_flat,
                n_experts,
                d_embd,
                d_ffn,
                k,
            );
        }
        let gate_out: DeferredBuf = self.encode_mul_mm_id_qx_k(
            gate.kernel,
            gate.qk,
            gate.bytes,
            gate_w,
            normed_k,
            tpe,
            ids,
            n_experts,
            d_embd,
            d_ffn,
            k,
            1,
            4,
        )?;
        let up_out: DeferredBuf = self.encode_mul_mm_id_qx_k(
            up.kernel,
            up.qk,
            up.bytes,
            up_w,
            normed_k,
            tpe,
            ids,
            n_experts,
            d_embd,
            d_ffn,
            k,
            1,
            4,
        )?;
        self.moe_swiglu_weight_k(&gate_out, &up_out, wt_k_flat, d_ffn, k, mid_f16)
    }

    /// The routed experts of several positions, gathered by expert.
    pub fn encode_moe_chain_mm_qx_k(
        &mut self,
        normed_k: &DeferredBuf,
        sel_k_flat: &DeferredBuf,
        wt_k_flat: &DeferredBuf,
        gate_w: &DeferredBuf,
        up_w: &DeferredBuf,
        down_w: &DeferredBuf,
        gate_kernel: MmIdKernel,
        gate_qk: u64,
        gate_bytes: u64,
        up_kernel: MmIdKernel,
        up_qk: u64,
        up_bytes: u64,
        down_kernel: MmIdKernel,
        down_qk: u64,
        down_bytes: u64,
        n_experts: u64,
        d_embd: u64,
        d_ffn: u64,
        k_positions: u64,
    ) -> (r: Result<DeferredBuf, EncodeError>)
        requires
            extent(n_experts),
            extent(d_embd),
            extent(d_ffn),
            extent(k_positions),
            mm_fits(256, 66, n_experts, d_embd, d_ffn, k_positions, 1, 4),
            mm_fits(gate_qk, gate_bytes, n_experts, d_embd, d_ffn, k_positions, 1, 4),
            mm_fits(up_qk, up_bytes, n_experts, d_embd, d_ffn, k_positions, 1, 4),
            mm_fits(down_qk, down_bytes, n_experts, d_ffn, d_embd, k_positions, 6, 4),
            mm_fits(down_qk, down_bytes, n_experts, d_ffn, d_embd, k_positions, 6, 2),
            old(self)@.config.moe_grid_div matches Some(d) ==> k_positions + d <= u64::MAX,
        ensures
            (final(self)@, r) == old(self)@.encode_moe_chain_mm_qx_k(
                *normed_k,
                *sel_k_flat,
                *wt_k_flat,
                *gate_w,
                *up_w,
                *down_w,
                (MmStage { kernel: gate_kernel, qk: gate_qk, bytes: gate_bytes }),
                (MmStage { kernel: up_kernel, qk: up_qk, bytes: up_bytes }),
                (MmStage { kernel: down_kernel, qk: down_qk, bytes: down_bytes }),
                n_experts,
                d_embd,
                d_ffn,
                k_positions,
            ),
            r matches Ok(b) ==> b.n_elements == k_positions * d_embd,
            final(self)@.encodes(old(self)@),
            final(self)@.pools.carrier == old(self)@.pools.carrier,
    {
        proof {
            reveal(Trace::encode_moe_chain_mm_qx_k);
        }
        let k: u64 = k_positions;
        if normed_k.n_elements != times(k, d_embd) {
            return Err(unfit(Check::InputLen, normed_k.n_elements, times(k, d_embd)));
        }
        if sel_k_flat.n_elements != k * 6 {
            return Err(unfit(Check::SelectedLen, sel_k_flat.n_elements, k * 6));
        }
        if wt_k_flat.n_elements != k * 6 {
            return Err(unfit(Check::RouteWeightsLen, wt_k_flat.n_elements, k * 6));
        }
        let iq2: MmIdKernel = MmIdKernel { quant: MmQuant::IQ2_XXS, half_rhs: false };
        let fuse: bool = gate_kernel == iq2 && up_kernel == iq2 && self.config.moe_fused_mm_id;
        let mid_f16: bool = !self.config.moe_mid_f32 && !fuse;
        let (tpe, ids): (DeferredBuf, DeferredBuf) = self.encode_mul_mm_id_map0_k(
            sel_k_flat,
            n_experts,
            k,
        )?;
        let mid: DeferredBuf = self.moe_mid(
            fuse,
            mid_f16,
            normed_k,
            wt_k_flat,
            &tpe,
            &ids,
            gate_w,
            up_w,
            MmStage { kernel: gate_kernel, qk: gate_qk, bytes: gate_bytes },
            MmStage { kernel: up_kernel, qk: up_qk, bytes: up_bytes },
            n_experts,
            d_embd,
            d_ffn,
            k,
        )?;
        let kernel: MmIdKernel = if mid_f16 {
            MmIdKernel { quant: down_kernel.quant, half_rhs: true }
        } else {
            down_kernel
        };
        let act: u64 = if mid_f16 {
            2
        } else {
            4
        };
        let down_out: DeferredBuf = self.encode_mul_mm_id_qx_k(
            kernel,
            down_qk,
            down_bytes,
            down_w,
            &mid,
            &tpe,
            &ids,
            n_experts,
            d_ffn,
            d_embd,
            k,
            6,
            act,
        )?;
        self.sum6_k(&down_out, d_embd, k)
    }

    /// Whether the streaming pool holds the experts of `layer`.
    pub(crate) fn streams(&self, layer: u32) -> (r: bool)
        ensures
            r == (self@.pools.chunk_layer == Some(layer)),
    {
        match self.pools.chunk_layer {
            Some(l) => l == layer,
            None => false,
        }
    }

    fn bind_pool(&mut self, layer: u32)
        ensures
            final(self)@ == old(self)@.bind_pool(layer),
            final(self)@.encodes(old(self)@),
            final(self)@.pools.carrier == old(self)@.pools.carrier,
    {
        if !self.streams(layer) {
            self.fill_pool(layer, false);
        }
    }

    /// [`BatchScope::encode_moe_chain_mm_qx_k`] with the layer's own expert weights.
    pub fn encode_moe_chain_mm_qx_k_auto(
        &mut self,
        layer_idx: u32,
        normed_k: &DeferredBuf,
        sel_flat: &DeferredBuf,
        wt_flat: &DeferredBuf,
        d_embd: u64,
        d_ffn: u64,
        k_positions: u64,
    ) -> (r: Result<DeferredBuf, EncodeError>)
        requires
            experts_fit(
                old(self)@.engine,
                old(self)@.config,
                layer_idx,
                d_embd,
                d_ffn,
                k_positions,
            ),
        ensures
            (final(self)@, r) == old(self)@.encode_moe_chain_mm_qx_k_auto(
                layer_idx,
                *normed_k,
                *sel_flat,
                *wt_flat,
                d_embd,
                d_ffn,
                k_positions,
            ),
            r matches Ok(b) ==> b.n_elements == k_positions * d_embd,
            final(self)@.encodes(old(self)@),
            final(self)@.pools.carrier == old(self)@.pools.carrier,
    {
        proof {
            reveal(Trace::encode_moe_chain_mm_qx_k_auto);
        }
        let k: u64 = k_positions;
        let e: ExpertWeights = self.expert_weights(layer_idx)?;
        let n_experts: u64 = e.n_experts as u64;
        let f: u64 = BatchScope::inner_width(d_ffn, &e);
        let bufs: ExpertBufs = if self.config.ssd_stream {
            match self.engine.chunk_pool {
                Some(b) => {
                    self.bind_pool(layer_idx);
                    b
                },
                None => {
                    return Err(EncodeError::NoChunkPool { layer: layer_idx });
                },
            }
        } else {
            ExpertBufs { gate: e.gate.buf, up: e.up.buf, down: e.down.buf }
        };
        let n: u64 = times3(n_experts, f, d_embd);
        let gate: MmStage = stage_of(e.gate.ttype)?;
        let up: MmStage = stage_of(e.up.ttype)?;
        let down: MmStage = stage_of(e.down.ttype)?;
        proof {
            lemma_stage_fits(256, 66, n_experts, d_embd, f, k, 1);
            lemma_stage_fits(gate.qk, gate.bytes, n_experts, d_embd, f, k, 1);
            lemma_stage_fits(up.qk, up.bytes, n_experts, d_embd, f, k, 1);
            lemma_stage_fits(down.qk, down.bytes, n_experts, f, d_embd, k, 6);
        }
        self.encode_moe_chain_mm_qx_k(
            normed_k,
            sel_flat,
            wt_flat,
            &DeferredBuf { buf: bufs.gate, n_elements: n },
            &DeferredBuf { buf: bufs.up, n_elements: n },
            &DeferredBuf { buf: bufs.down, n_elements: n },
            gate.kernel,
            gate.qk,
            gate.bytes,
            up.kernel,
            up.qk,
            up.bytes,
            down.kernel,
            down.qk,
            down.bytes,
            n_experts,
            d_embd,
            f,
            k,
        )
    }

    fn pair_swiglu(
        &mut self,
        q4: bool,
        gate_w: &DeferredBuf,
        up_w: &DeferredBuf,
        x_k: &DeferredBuf,
        ids_flat: &DeferredBuf,
        weights_flat: &DeferredBuf,
        d_in: u64,
        d_ffn: u64,
        k: u64,
    ) -> (r: Result<DeferredBuf, EncodeError>)
        requires
            extent(d_in),
            extent(d_ffn),
            extent(k),
            elements(k * 6 * d_ffn),
            !q4 ==> (old(self)@.config.moe_nsg matches Some(n) ==> n > 0),
        ensures
            (final(self)@, r) == old(self)@.pair_swiglu(
                q4,
                *gate_w,
                *up_w,
                *x_k,
                *ids_flat,
                *weights_flat,
                d_in,
                d_ffn,
                k,
            ),
            r matches Ok(b) ==> b.n_elements == k * 6 * d_ffn,
            final(self)@.encodes(old(self)@),
            final(self)@.pools.carrier == old(self)@.pools.carrier,
    {
        if d_in % 256 != 0 {
            return Err(unfit(Check::InputAlign, d_in, 256));
        }
        if x_k.n_elements != times(k, d_in) {
            return Err(unfit(Check::InputLen, x_k.n_elements, times(k, d_in)));
        }
        if ids_flat.n_elements != k * 6 {
            return Err(unfit(Check::SelectedLen, ids_flat.n_elements, k * 6));
        }
        if weights_flat.n_elements != k * 6 {
            return Err(unfit(Check::RouteWeightsLen, weights_flat.n_elements, k * 6));
        }
        let n: u64 = times3(k, 6, d_ffn);
        let nsg: i16 = if q4 {
            2
        } else {
            setting_or(self.config.moe_nsg, 2)
        };
        let (nr0, block, ne1): (i32, u64, u64) = if q4 {
            (2, 144, 6)
        } else {
            (4, 66, 1)
        };
        assert((d_in / 256) * block <= 0x2_0000_0000) by (nonlinear_arith)
            requires
                d_in <= 0x7fff_ffff,
                block <= 144,
        ;
        let row: u64 = (d_in / 256) * block;
        let args: MulMvIdArgs = mv_id_args(
            6,
            k,
            24,
            d_in,
            d_ffn,
            1,
            row,
            times_wide(row, d_ffn),
            1,
            d_in * 4,
            ne1,
            nr0,
        );
        let act: MoeSwigluActArgs = act_args(d_ffn, k, 4, F32(0x7f80_0000));
        let mid: DeferredBuf = self.pair_launch(
            q4,
            nsg,
            nr0,
            args,
            act,
            gate_w.buf,
            up_w.buf,
            x_k.buf,
            ids_flat.buf,
            weights_flat.buf,
            n,
            d_ffn,
            k,
        );
        Ok(mid)
    }

    #[verifier::rlimit(40)]
    fn pair_launch(
        &mut self,
        q4: bool,
        nsg: i16,
        nr0: i32,
        args: MulMvIdArgs,
        act: MoeSwigluActArgs,
        gate_w: BufId,
        up_w: BufId,
        x: BufId,
        ids: BufId,
        weights: BufId,
        n: u64,
        d_ffn: u64,
        k: u64,
    ) -> (r: DeferredBuf)
        requires
            extent(d_ffn),
            extent(k),
            elements(n as int),
            nsg > 0,
            nr0 == 2 || nr0 == 4,
        ensures
            (final(self)@, r) == old(self)@.pair_launch(
                q4,
                nsg,
                nr0,
                args,
                act,
                gate_w,
                up_w,
                x,
                ids,
                weights,
                n,
                d_ffn,
                k,
            ),
            r.n_elements == n,
            final(self)@.encodes(old(self)@),
            final(self)@.pools.carrier == old(self)@.pools.carrier,
    {
        proof {
            reveal(Trace::pair_launch);
        }
        assert(0 < nsg as u64 * nr0 as u64 <= 0x2_0000) by (nonlinear_arith)
            requires
                0 < nsg as u64 <= 0x7fff,
                nr0 == 2 || nr0 == 4,
        ;
        let rows_per_tg: u64 = nsg as u64 * nr0 as u64;
        let n_row_tg: u64 = div_up(d_ffn, rows_per_tg);
        let consts: Consts = Consts::Rows { nsg, nxpsg: 4 };
        if q4 {
            let dst_gate: DeferredBuf = self.alloc_f32(n);
            let dst_up: DeferredBuf = self.alloc_f32(n);
            let mid: DeferredBuf = self.pooled_scratch_f32(PoolKey::MoeMid, n);
            self.put(Command::Encoder);
            self.put(Command::Pipeline(Pipe::Special(Kernel::PairSwigluKQ4K, consts)));
            self.put(Command::Bytes(0, Args::MulMvId(args)));
            self.put(Command::Bytes(1, Args::SwigluAct(act)));
            self.buf_at(2, gate_w);
            self.buf_at(3, up_w);
            self.buf_at(4, x);
            self.buf_at(5, dst_gate.buf);
            self.buf_at(6, dst_up.buf);
            self.buf_at(7, mid.buf);
            self.buf_at(8, ids);
            self.buf_at(9, weights);
            self.put(Command::GroupMemory(8192));
            self.put(Command::Dispatch((n_row_tg, 1, k * 6), (32, nsg as u64, 1)));
            self.put(Command::EndEncoder);
            mid
        } else {
            let mid: DeferredBuf = self.pooled_scratch_f32(PoolKey::MoeMid, n);
            self.put(Command::Encoder);
            self.put(Command::Pipeline(Pipe::Special(Kernel::PairSwigluKIq2, consts)));
            self.put(Command::Bytes(0, Args::MulMvId(args)));
            self.put(Command::Bytes(1, Args::SwigluAct(act)));
            self.buf_at(2, gate_w);
            self.buf_at(3, up_w);
            self.buf_at(4, x);
            self.buf_at(5, mid.buf);
            self.buf_at(6, ids);
            self.buf_at(7, weights);
            self.put(Command::GroupMemory(8192));
            self.put(Command::Dispatch((n_row_tg, 1, k * 6), (32, nsg as u64, 1)));
            self.put(Command::EndEncoder);
            mid
        }
    }

    /// Gate, up and activation of IQ2_XXS experts for several positions in one launch.
    #[allow(non_snake_case)]
    pub fn encode_pair_swiglu_K_iq2_xxs(
        &mut self,
        experts_w_gate_iq2: &DeferredBuf,
        experts_w_up_iq2: &DeferredBuf,
        x_k: &DeferredBuf,
        ids_flat: &DeferredBuf,
        weights_flat: &DeferredBuf,
        _n_experts: u64,
        d_in: u64,
        d_ffn: u64,
        k_positions: u64,
    ) -> (r: Result<DeferredBuf, EncodeError>)
        requires
            extent(d_in),
            extent(d_ffn),
            extent(k_positions),
            elements(k_positions * 6 * d_ffn),
            old(self)@.config.moe_nsg matches Some(n) ==> n > 0,
        ensures
            (final(self)@, r) == old(self)@.encode_pair_swiglu_K_iq2_xxs(
                *experts_w_gate_iq2,
                *experts_w_up_iq2,
                *x_k,
                *ids_flat,
                *weights_flat,
                d_in,
                d_ffn,
                k_positions,
            ),
            r matches Ok(b) ==> b.n_elements == k_positions * 6 * d_ffn,
            final(self)@.encodes(old(self)@),
            final(self)@.pools.carrier == old(self)@.pools.carrier,
    {
        proof {
            reveal(Trace::encode_pair_swiglu_K_iq2_xxs);
        }
        self.pair_swiglu(
            false,
            experts_w_gate_iq2,
            experts_w_up_iq2,
            x_k,
            ids_flat,
            weights_flat,
            d_in,
            d_ffn,
            k_positions,
        )
    }

    /// Gate, up and activation of Q4_K experts for several positions in one launch.
    #[allow(non_snake_case)]
    pub fn encode_pair_swiglu_K_q4_K(
        &mut self,
        experts_w_gate_q4k: &DeferredBuf,
        experts_w_up_q4k: &DeferredBuf,
        x_k: &DeferredBuf,
        ids_flat: &DeferredBuf,
        weights_flat: &DeferredBuf,
        _n_experts: u64,
        d_in: u64,
        d_ffn: u64,
        k_positions: u64,
    ) -> (r: Result<DeferredBuf, EncodeError>)
        requires
            extent(d_in),
            extent(d_ffn),
            extent(k_positions),
            elements(k_positions * 6 * d_ffn),
        ensures
            (final(self)@, r) == old(self)@.encode_pair_swiglu_K_q4_K(
                *experts_w_gate_q4k,
                *experts_w_up_q4k,
                *x_k,
                *ids_flat,
                *weights_flat,
                d_in,
                d_ffn,
                k_positions,
            ),
            r matches Ok(b) ==> b.n_elements == k_positions * 6 * d_ffn,
            final(self)@.encodes(old(self)@),
            final(self)@.pools.carrier == old(self)@.pools.carrier,
    {
        proof {
            reveal(Trace::encode_pair_swiglu_K_q4_K);
        }
        self.pair_swiglu(
            true,
            experts_w_gate_q4k,
            experts_w_up_q4k,
            x_k,
            ids_flat,
            weights_flat,
            d_in,
            d_ffn,
            k_positions,
        )
    }

    fn sum6_down(
        &mut self,
        q4: bool,
        down_w: &DeferredBuf,
        mid_k: &DeferredBuf,
        ids_flat: &DeferredBuf,
        d_ffn: u64,
        d_embd: u64,
        k: u64,
    ) -> (r: Result<DeferredBuf, EncodeError>)
        requires
            extent(d_ffn),
            extent(d_embd),
            extent(k),
        ensures
            (final(self)@, r) == old(self)@.sum6_down(
                q4,
                *down_w,
                *mid_k,
                *ids_flat,
                d_ffn,
                d_embd,
                k,
            ),
            r matches Ok(b) ==> b.n_elements == k * d_embd,
            final(self)@.encodes(old(self)@),
            final(self)@.pools.carrier == old(self)@.pools.carrier,
    {
        proof {
            reveal(Trace::sum6_down);
        }
        if d_ffn % 256 != 0 {
            return Err(unfit(Check::InputAlign, d_ffn, 256));
        }
        let (nr0, block, per_tg): (i32, u64, u64) = if q4 {
            (2, 144, 4)
        } else {
            (4, 84, 8)
        };
        assert((d_ffn / 256) * block <= 0x2_0000_0000) by (nonlinear_arith)
            requires
                d_ffn <= 0x7fff_ffff,
                block <= 144,
        ;
        let row: u64 = (d_ffn / 256) * block;
        let args: MulMvIdArgs = mv_id_args(
            6,
            k,
            24,
            d_ffn,
            d_embd,
            1,
            row,
            times_wide(row, d_embd),
            6,
            6 * d_ffn * 4,
            k,
            nr0,
        );
        let kernel: Kernel = if q4 {
            Kernel::Sum6Q4K
        } else {
            Kernel::Sum6Q2K
        };
        let out: DeferredBuf = self.alloc_f32(times(k, d_embd));
        self.put(Command::Encoder);
        self.put(
            Command::Pipeline(Pipe::Special(kernel, Consts::Rows { nsg: 2, nxpsg: 4 })),
        );
        self.put(Command::Bytes(0, Args::MulMvId(args)));
        self.buf_at(1, down_w.buf);
        self.buf_at(2, mid_k.buf);
        self.buf_at(3, out.buf);
        self.buf_at(4, ids_flat.buf);
        self.put(Command::GroupMemory(8192));
        self.put(Command::Dispatch((div_up(d_embd, per_tg), k, 1), (32, 2, 1)));
        self.put(Command::EndEncoder);
        Ok(out)
    }

    /// The down projection of Q4_K experts, summed over the slots.
    #[allow(non_snake_case)]
    pub fn encode_sum6_K_q4_K(
        &mut self,
        experts_w_down_q4k: &DeferredBuf,
        mid_K: &DeferredBuf,
        ids_flat: &DeferredBuf,
        _n_experts: u64,
        d_ffn: u64,
        d_embd: u64,
        k_positions: u64,
    ) -> (r: Result<DeferredBuf, EncodeError>)
        requires
            extent(d_ffn),
            extent(d_embd),
            extent(k_positions),
        ensures
            (final(self)@, r) == old(self)@.sum6_down(
                true,
                *experts_w_down_q4k,
                *mid_K,
                *ids_flat,
                d_ffn,
                d_embd,
                k_positions,
            ),
            r matches Ok(b) ==> b.n_elements == k_positions * d_embd,
            final(self)@.encodes(old(self)@),
            final(self)@.pools.carrier == old(self)@.pools.carrier,
    {
        self.sum6_down(true, experts_w_down_q4k, mid_K, ids_flat, d_ffn, d_embd, k_positions)
    }

    /// The down projection of Q2_K experts, summed over the slots.
    #[allow(non_snake_case)]
    pub fn encode_sum6_K_q2_K(
        &mut self,
        experts_w_down_q2k: &DeferredBuf,
        mid_K: &DeferredBuf,
        ids_flat: &DeferredBuf,
        _n_experts: u64,
        d_ffn: u64,
        d_embd: u64,
        k_positions: u64,
    ) -> (r: Result<DeferredBuf, EncodeError>)
        requires
            extent(d_ffn),
            extent(d_embd),
            extent(k_positions),
        ensures
            (final(self)@, r) == old(self)@.sum6_down(
                false,
                *experts_w_down_q2k,
                *mid_K,
                *ids_flat,
                d_ffn,
                d_embd,
                k_positions,
            ),
            r matches Ok(b) ==> b.n_elements == k_positions * d_embd,
            final(self)@.encodes(old(self)@),
            final(self)@.pools.carrier == old(self)@.pools.carrier,
    {
        self.sum6_down(false, experts_w_down_q2k, mid_K, ids_flat, d_ffn, d_embd, k_positions)
    }

    /// The fused chain for Q4_K experts.
    #[allow(non_snake_case)]
    pub fn encode_moe_chain_fused_K_q4_K_q4_K(
        &mut self,
        normed_k: &DeferredBuf,
        ids_flat: &DeferredBuf,
        weights_flat: &DeferredBuf,
        experts_w_gate_q4k: &DeferredBuf,
        experts_w_up_q4k: &DeferredBuf,
        experts_w_down_q4k: &DeferredBuf,
        n_experts: u64,
        d_embd: u64,
        d_ffn: u64,
        k_positions: u64,
    ) -> (r: Result<DeferredBuf, EncodeError>)
        requires
            extent(d_embd),
            extent(d_ffn),
            extent(k_positions),
            elements(k_positions * 6 * d_ffn),
        ensures
            (final(self)@, r) == old(self)@.moe_chain_fused(
                true,
                *normed_k,
                *ids_flat,
                *weights_flat,
                *experts_w_gate_q4k,
                *experts_w_up_q4k,
                *experts_w_down_q4k,
                d_embd,
                d_ffn,
                k_positions,
            ),
            r matches Ok(b) ==> b.n_elements == k_positions * d_embd,
            final(self)@.encodes(old(self)@),
            final(self)@.pools.carrier == old(self)@.pools.carrier,
    {
        proof {
            reveal(Trace::moe_chain_fused);
        }
        let mid: DeferredBuf = self.encode_pair_swiglu_K_q4_K(
            experts_w_gate_q4k,
            experts_w_up_q4k,
            normed_k,
            ids_flat,
            weights_flat,
            n_experts,
            d_embd,
            d_ffn,
            k_positions,
        )?;
        self.encode_sum6_K_q4_K(
            experts_w_down_q4k,
            &mid,
            ids_flat,
            n_experts,
            d_ffn,
            d_embd,
            k_positions,
        )
    }

    /// The fused chain for IQ2_XXS gate and up and Q2_K down experts.
    #[allow(non_snake_case)]
    pub fn encode_moe_chain_fused_K_iq2_xxs_q2_K(
        &mut self,
        normed_k: &DeferredBuf,
        ids_flat: &DeferredBuf,
        weights_flat: &DeferredBuf,
        experts_w_gate_iq2: &DeferredBuf,
        experts_w_up_iq2: &DeferredBuf,
        experts_w_down_q2k: &DeferredBuf,
        n_experts: u64,
        d_embd: u64,
        d_ffn: u64,
        k_positions: u64,
    ) -> (r: Result<DeferredBuf, EncodeError>)
        requires
            extent(d_embd),
            extent(d_ffn),
            extent(k_positions),
            elements(k_positions * 6 * d_ffn),
            old(self)@.config.moe_nsg matches Some(n) ==> n > 0,
        ensures
            (final(self)@, r) == old(self)@.moe_chain_fused(
                false,
                *normed_k,
                *ids_flat,
                *weights_flat,
                *experts_w_gate_iq2,
                *experts_w_up_iq2,
                *experts_w_down_q2k,
                d_embd,
                d_ffn,
                k_positions,
            ),
            r matches Ok(b) ==> b.n_elements == k_positions * d_embd,
            final(self)@.encodes(old(self)@),
            final(self)@.pools.carrier == old(self)@.pools.carrier,
    {
        proof {
            reveal(Trace::moe_chain_fused);
        }
        let mid: DeferredBuf = self.encode_pair_swiglu_K_iq2_xxs(
            experts_w_gate_iq2,
            experts_w_up_iq2,
            normed_k,
            ids_flat,
            weights_flat,
            n_experts,
            d_embd,
            d_ffn,
            k_positions,
        )?;
        self.encode_sum6_K_q2_K(
            experts_w_down_q2k,
            &mid,
            ids_flat,
            n_experts,
            d_ffn,
            d_embd,
            k_positions,
        )
    }

    /// The fused chain that the layer's weight formats call for.
    #[allow(non_snake_case)]
    pub fn encode_moe_chain_fused_K_auto(
        &mut self,
        layer_idx: u32,
        normed_k: &DeferredBuf,
        sel_flat: &DeferredBuf,
        wt_flat: &DeferredBuf,
        d_embd: u64,
        d_ffn: u64,
        k_positions: u64,
    ) -> (r: Result<DeferredBuf, EncodeError>)
        requires
            experts_fit(
                old(self)@.engine,
                old(self)@.config,
                layer_idx,
                d_embd,
                d_ffn,
                k_positions,
            ),
        ensures
            (final(self)@, r) == old(self)@.encode_moe_chain_fused_K_auto(
                layer_idx,
                *normed_k,
                *sel_flat,
                *wt_flat,
                d_embd,
                d_ffn,
                k_positions,
            ),
            r matches Ok(b) ==> b.n_elements == k_positions * d_embd,
            final(self)@.encodes(old(self)@),
            final(self)@.pools.carrier == old(self)@.pools.carrier,
    {
        proof {
            reveal(Trace::encode_moe_chain_fused_K_auto);
        }
        let k: u64 = k_positions;
        let e: ExpertWeights = self.expert_weights(layer_idx)?;
        let n_experts: u64 = e.n_experts as u64;
        let f: u64 = BatchScope::inner_width(d_ffn, &e);
        let n: u64 = times3(n_experts, f, d_embd);
        let g: DeferredBuf = DeferredBuf { buf: e.gate.buf, n_elements: n };
        let u: DeferredBuf = DeferredBuf { buf: e.up.buf, n_elements: n };
        let d: DeferredBuf = DeferredBuf { buf: e.down.buf, n_elements: n };
        if e.gate.ttype == GgmlType::IQ2_XXS && e.up.ttype == GgmlType::IQ2_XXS && e.down.ttype
            == GgmlType::Q2_K {
            self.encode_moe_chain_fused_K_iq2_xxs_q2_K(
                normed_k,
                sel_flat,
                wt_flat,
                &g,
                &u,
                &d,
                n_experts,
                d_embd,
                f,
                k,
            )
        } else if e.gate.ttype == GgmlType::Q4_K && e.up.ttype == GgmlType::Q4_K && e.down.ttype
            == GgmlType::Q4_K {
            self.encode_moe_chain_fused_K_q4_K_q4_K(
                normed_k,
                sel_flat,
                wt_flat,
                &g,
                &u,
                &d,
                n_experts,
                d_embd,
                f,
                k,
            )
        } else {
            Err(
                EncodeError::UnsupportedQuants {
                    layer: layer_idx,
                    gate: e.gate.ttype,
                    up: e.up.ttype,
                    down: e.down.ttype,
                },
            )
        }
    }

    /// [`BatchScope::encode_moe_chain_mm_qx_k`] for Q8_0 experts, in single precision throughout.
    pub fn encode_moe_chain_mm_q8_k(
        &mut self,
        normed_k: &DeferredBuf,
        sel_k_flat: &DeferredBuf,
        wt_k_flat: &DeferredBuf,
        gate_w_q8: &DeferredBuf,
        up_w_q8: &DeferredBuf,
        down_w_q8: &DeferredBuf,
        n_experts: u64,
        d_embd: u64,
        d_ffn: u64,
        k_positions: u64,
    ) -> (r: Result<DeferredBuf, EncodeError>)
        requires
            extent(n_experts),
            extent(d_embd),
            extent(d_ffn),
            extent(k_positions),
            mm_fits(32, 34, n_experts, d_embd, d_ffn, k_positions, 1, 4),
            mm_fits(32, 34, n_experts, d_ffn, d_embd, k_positions, 6, 4),
            old(self)@.config.moe_grid_div matches Some(d) ==> k_positions + d <= u64::MAX,
        ensures
            (final(self)@, r) == old(self)@.encode_moe_chain_mm_q8_k(
                *normed_k,
                *sel_k_flat,
                *wt_k_flat,
                *gate_w_q8,
                *up_w_q8,
                *down_w_q8,
                n_experts,
                d_embd,
                d_ffn,
                k_positions,
            ),
            r matches Ok(b) ==> b.n_elements == k_positions * d_embd,
            final(self)@.encodes(old(self)@),
            final(self)@.pools.carrier == old(self)@.pools.carrier,
    {
        proof {
            reveal(Trace::encode_moe_chain_mm_q8_k);
        }
        let k: u64 = k_positions;
        if normed_k.n_elements != times(k, d_embd) {
            return Err(unfit(Check::InputLen, normed_k.n_elements, times(k, d_embd)));
        }
        if sel_k_flat.n_elements != k * 6 {
            return Err(unfit(Check::SelectedLen, sel_k_flat.n_elements, k * 6));
        }
        if wt_k_flat.n_elements != k * 6 {
            return Err(unfit(Check::RouteWeightsLen, wt_k_flat.n_elements, k * 6));
        }
        if !is_product3(gate_w_q8.n_elements, n_experts, d_ffn, d_embd) {
            return Err(
                unfit(Check::WeightLen, gate_w_q8.n_elements, capped3(n_experts, d_ffn, d_embd)),
            );
        }
        if !is_product3(up_w_q8.n_elements, n_experts, d_ffn, d_embd) {
            return Err(
                unfit(
                    Check::SecondWeightLen,
                    up_w_q8.n_elements,
                    capped3(n_experts, d_ffn, d_embd),
                ),
            );
        }
        if !is_product3(down_w_q8.n_elements, n_experts, d_embd, d_ffn) {
            return Err(
                unfit(
                    Check::ThirdWeightLen,
                    down_w_q8.n_elements,
                    capped3(n_experts, d_embd, d_ffn),
                ),
            );
        }
        let (tpe, ids): (DeferredBuf, DeferredBuf) = self.encode_mul_mm_id_map0_k(
            sel_k_flat,
            n_experts,
            k,
        )?;
        let q8: MmStage = MmStage {
            kernel: MmIdKernel { quant: MmQuant::Q8_0, half_rhs: false },
            qk: 32,
            bytes: 34,
        };
        let mid: DeferredBuf = self.moe_mid(
            false,
            false,
            normed_k,
            wt_k_flat,
            &tpe,
            &ids,
            gate_w_q8,
            up_w_q8,
            q8,
            q8,
            n_experts,
            d_embd,
            d_ffn,
            k,
        )?;
        let down_out: DeferredBuf = self.encode_mul_mm_id_q8_0_k(
            down_w_q8,
            &mid,
            &tpe,
            &ids,
            n_experts,
            d_ffn,
            d_embd,
            k,
            6,
        )?;
        self.sum6_k(&down_out, d_embd, k)
    }

    /// The routed and the shared experts of several positions, one after another.
    pub fn encode_moe_and_shared_chain_k(
        &mut self,
        layer_idx: u32,
        normed_k: &DeferredBuf,
        selected_weights_k: &[Routed],
        d_ffn: u64,
        sh_w_gate: HostRef,
        sh_w_up: HostRef,
        sh_w_down: HostRef,
        shared_dim: u32,
        sh_w_gate_q8: HostRef,
        sh_w_up_q8: HostRef,
        sh_w_down_q8: HostRef,
        d_embd: u64,
        k_positions: u64,
    ) -> (r: Result<MoeOuts, EncodeError>)
        requires
            extent(d_embd),
            extent(k_positions),
        ensures
            (final(self)@, r) == old(self)@.encode_moe_and_shared_chain_k(
                layer_idx,
                *normed_k,
                selected_weights_k@,
                d_ffn,
                (sh_w_gate, sh_w_up, sh_w_down),
                shared_dim,
                (sh_w_gate_q8, sh_w_up_q8, sh_w_down_q8),
                d_embd,
                k_positions,
            ),
            r matches Ok(b) ==> b.0.n_elements == k_positions * d_embd && b.1.n_elements
                == k_positions * d_embd,
            final(self)@.encodes(old(self)@),
            final(self)@.pools.carrier == old(self)@.pools.carrier,
    {
        proof {
            reveal(Trace::encode_moe_and_shared_chain_k);
        }
        let k: u64 = k_positions;
        let n: u64 = times(k, d_embd);
        if normed_k.n_elements != n {
            return Err(unfit(Check::InputLen, normed_k.n_elements, n));
        }
        if selected_weights_k.len() as u64 != k {
            return Err(unfit(Check::TokenCount, selected_weights_k.len() as u64, k));
        }
        let moe: DeferredBuf = self.alloc_f32(n);
        let shared: DeferredBuf = self.alloc_f32(n);
        self.moe_rows(
            layer_idx,
            normed_k,
            selected_weights_k,
            d_ffn,
            (sh_w_gate, sh_w_up, sh_w_down),
            shared_dim,
            (sh_w_gate_q8, sh_w_up_q8, sh_w_down_q8),
            d_embd,
            moe.buf,
            shared.buf,
        )?;
        Ok((moe, shared))
    }

    fn moe_rows(
        &mut self,
        layer: u32,
        normed_k: &DeferredBuf,
        routes: &[Routed],
        d_ffn: u64,
        sh_w: (HostRef, HostRef, HostRef),
        shared_dim: u32,
        sh_q8: (HostRef, HostRef, HostRef),
        d_embd: u64,
        moe: BufId,
        shared: BufId,
    ) -> (r: Result<(), EncodeError>)
        requires
            extent(d_embd),
            routes@.len() <= MAX_EXTENT,
        ensures
            (final(self)@, r) == old(self)@.moe_rows(
                layer,
                *normed_k,
                routes@,
                d_ffn,
                sh_w,
                shared_dim,
                sh_q8,
                d_embd,
                moe,
                shared,
                0,
            ),
            final(self)@.encodes(old(self)@),
            final(self)@.pools.carrier == old(self)@.pools.carrier,
    {
        let ghost goal = self@.moe_rows(
            layer,
            *normed_k,
            routes@,
            d_ffn,
            sh_w,
            shared_dim,
            sh_q8,
            d_embd,
            moe,
            shared,
            0,
        );
        let row: u64 = d_embd * 4;
        let mut i: usize = 0;
        while i < routes.len()
            invariant
                self@.encodes(old(self)@),
                self@.pools.carrier == old(self)@.pools.carrier,
                i <= routes@.len() <= MAX_EXTENT,
                extent(d_embd),
                row == d_embd * 4,
                goal == old(self)@.moe_rows(
                    layer,
                    *normed_k,
                    routes@,
                    d_ffn,
                    sh_w,
                    shared_dim,
                    sh_q8,
                    d_embd,
                    moe,
                    shared,
                    0,
                ),
                goal == self@.moe_rows(
                    layer,
                    *normed_k,
                    routes@,
                    d_ffn,
                    sh_w,
                    shared_dim,
                    sh_q8,
                    d_embd,
                    moe,
                    shared,
                    i as int,
                ),
            decreases routes@.len() - i,
        {
            let off: u64 = times_wide(row, i as u64);
            assert(off == i * (d_embd * 4)) by (nonlinear_arith)
                requires
                    off == row * i,
                    row == d_embd * 4,
            ;
            let temp: DeferredBuf = self.alloc_f32(d_embd);
            self.blit(normed_k.buf, off, temp.buf, 0, row);
            let (moe_dst, shared_dst): MoeOuts =
                self.encode_moe_and_shared_chain_with_router_bufs_db(
                layer,
                &temp,
                &routes[i].0,
                &routes[i].1,
                d_ffn,
                &temp,
                sh_w.0,
                sh_w.1,
                sh_w.2,
                shared_dim,
                sh_q8.0,
                sh_q8.1,
                sh_q8.2,
            )?;
            self.put(Command::CloseShared);
            self.put(Command::Blit);
            self.put(
                Command::Copy {
                    src: moe_dst.buf,
                    src_off: 0,
                    dst: moe,
                    dst_off: off,
                    bytes: row,
                },
            );
            self.put(
                Command::Copy {
                    src: shared_dst.buf,
                    src_off: 0,
                    dst: shared,
                    dst_off: off,
                    bytes: row,
                },
            );
            self.put(Command::EndBlit);
            i = i + 1;
        }
        Ok(())
    }
}

} // verus!
