//! What a scope is told about the engine: its switches, its loaded pipelines,
//! its expert weights, and the parameters of a layer.

use crate::command::{BufId, DeferredBuf, F32, HostRef};
use crate::kernel::Kernel;
use vstd::prelude::*;

verus! {

/// How the keys and values of several positions are stored.
#[derive(Clone, Copy, PartialEq, Eq, Structural, Debug)]
pub enum KvMerge {
    /// One launch of the merged kernel, where it is loaded.
    Kernel,
    /// One launch per position, all in one encoder.
    Encoder,
    /// One launch and one encoder per position.
    Off,
}

/// The routed-expert path asked for.
#[derive(Clone, Copy, PartialEq, Eq, Structural, Debug)]
pub enum MoePath {
    Unset,
    Fused,
    MmId,
    Other,
}

/// The switches that choose between equivalent encodings, and the diagnostics.
#[derive(Clone, Copy, Debug)]
pub struct Config {
    /// Zero fresh scratch whose length lies in `zero_min ..= zero_max`.
    pub zero_scratch: bool,
    pub zero_min: u64,
    pub zero_max: u64,
    pub pool_scratch: bool,
    pub pool_attn: bool,
    pub pool_pingpong: bool,
    /// Refuse to bind an empty single-precision weight.
    pub trap_zero_weight: bool,
    /// Encode a several-position Q8_0 product row by row.
    pub q8_faithful: bool,
    pub attn_gemm_f16: bool,
    pub mm_pad: bool,
    pub attn_q4: bool,
    pub decode_attn_q4: bool,
    pub matmul_k_pertok: bool,
    pub k8_matvec: bool,
    /// Size Q8_0 matvec threadgroups by the input width.
    pub q8_nsg_by_width: bool,
    pub q8_nsg: Option<i16>,
    pub q8_nxpsg: Option<i16>,
    pub q4_nsg: Option<i16>,
    pub q4_nxpsg: Option<i16>,
    pub attn_out_nsg: Option<i16>,
    pub moe_nsg: Option<i16>,
    pub indexer_f16: bool,
    pub hc_expand_per_k: bool,
    pub hc_collapse_per_k: bool,
    pub hc_collapse_fuse_max: u64,
    pub hc_stages_apart: bool,
    pub qkv_concurrent: bool,
    pub rope_per_k: bool,
    pub rope_kv_order: bool,
    pub kv_merge: KvMerge,
    pub attn_out_gemm: bool,
    pub attn_out_merge: bool,
    pub q8_proj_off: bool,
    pub batch_router: bool,
    pub hash_gpu: bool,
    pub ssd_stream: bool,
    pub moe_path: MoePath,
    pub moe_grid_wide: bool,
    pub moe_grid_div: Option<u64>,
    pub moe_grid_indirect: bool,
    pub moe_fused_mm_id: bool,
    pub moe_mid_f32: bool,
    pub swiglu_clamp_off: bool,
    pub mid_clamp: F32,
    pub verify_cb_split: Option<u64>,
    pub verify_n_layers: Option<u64>,
    pub profile_fine: bool,
    pub layer_profile: bool,
    pub expert_profile: bool,
    pub dump_flash_q: bool,
    pub dump_normed_layer: Option<u32>,
    pub dump_flash_layer: Option<u32>,
    pub dump_resid_layer: Option<u32>,
    pub dump_layer_rms: bool,
}

impl Config {
    /// Nothing asks for a chain to be interrupted: no profile, no dump, no split,
    /// no streamed experts.
    pub open spec fn quiet(self) -> bool {
        &&& !self.profile_fine
        &&& !self.layer_profile
        &&& !self.expert_profile
        &&& !self.rope_kv_order
        &&& self.dump_normed_layer is None
        &&& self.dump_flash_layer is None
        &&& self.dump_resid_layer is None
        &&& !self.dump_layer_rms
        &&& !self.ssd_stream
        &&& self.verify_cb_split is None
    }

    /// The switches as they stand when nothing is set.
    pub open spec fn standard() -> Config {
        Config {
            zero_scratch: false,
            zero_min: 0,
            zero_max: u64::MAX,
            pool_scratch: false,
            pool_attn: false,
            pool_pingpong: false,
            trap_zero_weight: false,
            q8_faithful: false,
            attn_gemm_f16: false,
            mm_pad: false,
            attn_q4: false,
            decode_attn_q4: false,
            matmul_k_pertok: false,
            k8_matvec: false,
            q8_nsg_by_width: false,
            q8_nsg: None,
            q8_nxpsg: None,
            q4_nsg: None,
            q4_nxpsg: None,
            attn_out_nsg: None,
            moe_nsg: None,
            indexer_f16: false,
            hc_expand_per_k: false,
            hc_collapse_per_k: false,
            hc_collapse_fuse_max: u64::MAX,
            hc_stages_apart: false,
            qkv_concurrent: false,
            rope_per_k: false,
            rope_kv_order: false,
            kv_merge: KvMerge::Kernel,
            attn_out_gemm: false,
            attn_out_merge: false,
            q8_proj_off: false,
            batch_router: false,
            hash_gpu: false,
            ssd_stream: false,
            moe_path: MoePath::Unset,
            moe_grid_wide: false,
            moe_grid_div: None,
            moe_grid_indirect: false,
            moe_fused_mm_id: false,
            moe_mid_f32: false,
            swiglu_clamp_off: false,
            mid_clamp: F32(0x4120_0000),
            verify_cb_split: None,
            verify_n_layers: None,
            profile_fine: false,
            layer_profile: false,
            expert_profile: false,
            dump_flash_q: false,
            dump_normed_layer: None,
            dump_flash_layer: None,
            dump_resid_layer: None,
            dump_layer_rms: false,
        }
    }
}

impl Default for Config {
    fn default() -> (r: Config)
        ensures
            r == Config::standard(),
    {
        Config {
            zero_scratch: false,
            zero_min: 0,
            zero_max: u64::MAX,
            pool_scratch: false,
            pool_attn: false,
            pool_pingpong: false,
            trap_zero_weight: false,
            q8_faithful: false,
            attn_gemm_f16: false,
            mm_pad: false,
            attn_q4: false,
            decode_attn_q4: false,
            matmul_k_pertok: false,
            k8_matvec: false,
            q8_nsg_by_width: false,
            q8_nsg: None,
            q8_nxpsg: None,
            q4_nsg: None,
            q4_nxpsg: None,
            attn_out_nsg: None,
            moe_nsg: None,
            indexer_f16: false,
            hc_expand_per_k: false,
            hc_collapse_per_k: false,
            hc_collapse_fuse_max: u64::MAX,
            hc_stages_apart: false,
            qkv_concurrent: false,
            rope_per_k: false,
            rope_kv_order: false,
            kv_merge: KvMerge::Kernel,
            attn_out_gemm: false,
            attn_out_merge: false,
            q8_proj_off: false,
            batch_router: false,
            hash_gpu: false,
            ssd_stream: false,
            moe_path: MoePath::Unset,
            moe_grid_wide: false,
            moe_grid_div: None,
            moe_grid_indirect: false,
            moe_fused_mm_id: false,
            moe_mid_f32: false,
            swiglu_clamp_off: false,
            mid_clamp: F32(0x4120_0000),
            verify_cb_split: None,
            verify_n_layers: None,
            profile_fine: false,
            layer_profile: false,
            expert_profile: false,
            dump_flash_q: false,
            dump_normed_layer: None,
            dump_flash_layer: None,
            dump_resid_layer: None,
            dump_layer_rms: false,
        }
    }
}

/// A tensor format.
#[allow(non_camel_case_types)]
#[derive(Clone, Copy, PartialEq, Eq, Structural, Debug)]
pub enum GgmlType {
    Q8_0,
    Q2_K,
    Q4_K,
    IQ2_XXS,
    Other(u32),
}

/// One stacked expert tensor.
#[derive(Clone, Copy, PartialEq, Eq, Structural, Debug)]
pub struct ExpertTensor {
    pub buf: BufId,
    pub ttype: GgmlType,
}

/// The stacked expert tensors of one layer.
#[derive(Clone, Copy, PartialEq, Eq, Structural, Debug)]
pub struct ExpertWeights {
    pub gate: ExpertTensor,
    pub up: ExpertTensor,
    pub down: ExpertTensor,
    pub n_experts: u32,
    pub d_ffn: u32,
}

/// The three buffers from which experts are read.
#[derive(Clone, Copy, PartialEq, Eq, Structural, Debug)]
pub struct ExpertBufs {
    pub gate: BufId,
    pub up: BufId,
    pub down: BufId,
}

/// What the engine has loaded.
pub struct Engine {
    /// The pipelines that were loaded with the engine.
    pub loaded: Vec<Kernel>,
    /// Expert weights, by layer.
    pub experts: Vec<ExpertWeights>,
    /// Streaming caches of single experts, by layer.
    pub expert_caches: Vec<ExpertBufs>,
    /// The streaming pool, which holds the experts of one layer at a time.
    pub chunk_pool: Option<ExpertBufs>,
    /// The factor on the routed weights.
    pub router_scale: F32,
    /// Whether the merged attention-output kernel can be built.
    pub attn_out_low_k: bool,
}

/// The mathematical content of an [`Engine`].
#[verifier::ext_equal]
pub struct EngineView {
    pub loaded: Seq<Kernel>,
    pub experts: Seq<ExpertWeights>,
    pub expert_caches: Seq<ExpertBufs>,
    pub chunk_pool: Option<ExpertBufs>,
    pub router_scale: F32,
    pub attn_out_low_k: bool,
}

impl EngineView {
    /// Whether the pipeline of `k` was loaded with the engine.
    pub open spec fn has(self, k: Kernel) -> bool {
        self.loaded.contains(k)
    }

    /// The router weights are the standard ones only for 256 experts and a factor of 1.5.
    pub open spec fn generic_router(self, n_experts: u64) -> bool {
        n_experts != 256 || self.router_scale != F32(0x3fc0_0000)
    }
}

impl Engine {
    pub open spec fn view(&self) -> EngineView {
        EngineView {
            loaded: self.loaded@,
            experts: self.experts@,
            expert_caches: self.expert_caches@,
            chunk_pool: self.chunk_pool,
            router_scale: self.router_scale,
            attn_out_low_k: self.attn_out_low_k,
        }
    }

    /// Whether the pipeline of `k` was loaded with the engine.
    pub fn has(&self, k: Kernel) -> (r: bool)
        ensures
            r == self@.has(k),
    {
        let mut i: usize = 0;
        while i < self.loaded.len()
            invariant
                i <= self.loaded@.len(),
                forall|j: int| 0 <= j < i ==> self.loaded@[j] != k,
            decreases self.loaded@.len() - i,
        {
            if self.loaded[i] == k {
                assert(self.loaded@[i as int] == k);
                return true;
            }
            i = i + 1;
        }
        false
    }

    /// Whether the router needs the kernels for any expert count and factor.
    pub fn generic_router(&self, n_experts: u64) -> (r: bool)
        ensures
            r == self@.generic_router(n_experts),
    {
        n_experts != 256 || self.router_scale.0 != 0x3fc0_0000
    }
}

/// The attention parameters of a layer.
#[derive(Clone, Copy, PartialEq, Eq, Structural, Debug)]
pub struct LayerParams {
    pub n_head: u32,
    pub head_dim: u32,
    pub n_lora_kv: u32,
    pub n_rot: u32,
    pub compress_ratio: u32,
    pub rope_freq_base: F32,
    pub rope_freq_scale: F32,
    pub rope_ext_factor: F32,
    pub rope_attn_factor: F32,
    pub rope_orig_ctx: u32,
}

/// The host-side weights of one compressor.
#[derive(Clone, Copy, PartialEq, Eq, Structural, Debug)]
pub struct CompressorInputs {
    pub w_kv: HostRef,
    pub w_gate: HostRef,
    pub w_kv_f16: Option<HostRef>,
    pub w_gate_f16: Option<HostRef>,
    pub w_ape: HostRef,
    pub w_norm: HostRef,
    pub head_dim: u32,
    pub compress_ratio: u32,
}

/// The head width of the indexer's compressor.
pub const DS4_N_INDEXER_HEAD_DIM: u32 = 128;

/// What a ring-aware attention step needs beside the raw cache.
#[derive(Clone, Copy, PartialEq, Eq, Structural, Debug)]
pub struct CompVerifyCtx {
    /// Rows already in the compressed ring.
    pub n_comp: u32,
    pub attn_sinks_cpu: HostRef,
    pub attn_comp: CompressorInputs,
    pub idx_comp: CompressorInputs,
}

/// The outputs of the attention half of a layer for several positions.
#[derive(Clone, Copy, PartialEq, Eq, Structural, Debug)]
pub struct LayerAttnHalfOutsK {
    pub normed_k: DeferredBuf,
    pub split_k: DeferredBuf,
    pub qr_normed_k: DeferredBuf,
    pub q_heads_k: DeferredBuf,
    pub kv_normed_rotated_k: DeferredBuf,
}

/// The outputs of the attention half of a layer for one position.
#[derive(Clone, Copy, PartialEq, Eq, Structural, Debug)]
pub struct LayerAttnHalfOuts {
    pub normed: DeferredBuf,
    pub split: DeferredBuf,
    pub qr_normed: DeferredBuf,
    pub q_heads: DeferredBuf,
    pub kv_normed_rotated: DeferredBuf,
}

/// The weights of the drafter's input mixer.
#[derive(Clone, Copy, PartialEq, Eq, Structural, Debug)]
pub struct MtpDraftInputMix {
    pub enorm_gamma: DeferredBuf,
    pub e_proj_q8: DeferredBuf,
    pub hnorm_gamma: DeferredBuf,
    pub h_proj_q8: DeferredBuf,
}

/// The weights of the drafter's single layer.
#[derive(Clone, Copy, PartialEq, Eq, Structural, Debug)]
pub struct MtpDraftLayerWeights {
    pub hc_attn_fn: DeferredBuf,
    pub hc_attn_scale: DeferredBuf,
    pub hc_attn_base: DeferredBuf,
    pub attn_norm: DeferredBuf,
    pub attn_q_a_q8: DeferredBuf,
    pub gamma_q: DeferredBuf,
    pub attn_q_b_q8: DeferredBuf,
    pub attn_kv_q8: DeferredBuf,
    pub gamma_kv: DeferredBuf,
    pub attn_sinks: DeferredBuf,
    pub w_o_a_q8: DeferredBuf,
    pub w_o_b_q8: DeferredBuf,
    pub hc_ffn_fn: DeferredBuf,
    pub hc_ffn_scale: DeferredBuf,
    pub hc_ffn_base: DeferredBuf,
    pub ffn_norm: DeferredBuf,
    pub w_router: DeferredBuf,
    pub router_bias: DeferredBuf,
    pub sh_w_gate: HostRef,
    pub sh_w_up: HostRef,
    pub sh_w_down: HostRef,
    pub sh_w_gate_q8: HostRef,
    pub sh_w_up_q8: HostRef,
    pub sh_w_down_q8: HostRef,
}

/// The weights of the drafter's output head.
#[derive(Clone, Copy, PartialEq, Eq, Structural, Debug)]
pub struct MtpDraftOutputHead {
    pub unit_gamma_hc: DeferredBuf,
    pub hc_head_fn: DeferredBuf,
    pub hc_head_scale: DeferredBuf,
    pub hc_head_base: DeferredBuf,
    pub mtp_norm: DeferredBuf,
    pub base_lm_head_q8: DeferredBuf,
}

/// The dimensions of the drafter.
#[derive(Clone, Copy, PartialEq, Eq, Structural, Debug)]
pub struct MtpDraftShape {
    pub n_embd: u64,
    pub n_hc: u64,
    pub n_lora_q: u64,
    pub n_head: u64,
    pub head_dim: u64,
    pub kv_row: u64,
    pub n_groups: u64,
    pub n_lora_o: u64,
    pub group_dim: u64,
    pub out_low_dim: u64,
    pub n_experts: u64,
    pub d_ffn: u64,
    pub shared_dim: u32,
    pub vocab: u64,
    pub sinkhorn_iters: i32,
    pub hc_eps: F32,
    pub rms_eps: F32,
    pub flash_scale: F32,
}

/// The weights of one base layer, as the verifier reads them.
#[derive(Clone, Copy, PartialEq, Eq, Structural, Debug)]
pub struct BaseLayerVerifyBundle {
    pub hc_attn_fn: DeferredBuf,
    pub hc_attn_scale: DeferredBuf,
    pub hc_attn_base: DeferredBuf,
    pub attn_norm: DeferredBuf,
    pub attn_q_a_q8: DeferredBuf,
    pub gamma_q: DeferredBuf,
    pub attn_q_b_q8: DeferredBuf,
    pub attn_kv_q8: DeferredBuf,
    pub gamma_kv: DeferredBuf,
    pub attn_sinks: DeferredBuf,
    pub w_o_a_q8: DeferredBuf,
    pub w_o_b_q8: DeferredBuf,
    pub hc_ffn_fn: DeferredBuf,
    pub hc_ffn_scale: DeferredBuf,
    pub hc_ffn_base: DeferredBuf,
    pub ffn_norm: DeferredBuf,
    pub w_router: DeferredBuf,
    pub router_bias: DeferredBuf,
    pub sh_w_gate: HostRef,
    pub sh_w_up: HostRef,
    pub sh_w_down: HostRef,
    pub sh_w_gate_q8: HostRef,
    pub sh_w_up_q8: HostRef,
    pub sh_w_down_q8: HostRef,
    pub attn_compressor_kv: HostRef,
    pub attn_compressor_gate: HostRef,
    pub attn_compressor_ape: HostRef,
    pub attn_compressor_norm: HostRef,
    pub indexer_compressor_kv: HostRef,
    pub indexer_compressor_gate: HostRef,
    pub indexer_compressor_ape: HostRef,
    pub indexer_compressor_norm: HostRef,
    pub attn_compressor_kv_f16: Option<HostRef>,
    pub attn_compressor_gate_f16: Option<HostRef>,
    pub indexer_compressor_kv_f16: Option<HostRef>,
    pub indexer_compressor_gate_f16: Option<HostRef>,
    pub attn_sinks_cpu: HostRef,
    pub layer_params: LayerParams,
}

} // verus!
