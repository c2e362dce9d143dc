//! The compute kernels that a scope can launch, and how a pipeline is made of one.

use vstd::prelude::*;

verus! {

/// The expert weight formats for which an expert-gather GEMM kernel exists.
#[allow(non_camel_case_types)]
#[derive(Clone, Copy, PartialEq, Eq, Structural, Debug)]
pub enum MmQuant {
    Q8_0,
    Q2_K,
    Q4_K,
    IQ2_XXS,
}

/// An expert-gather GEMM kernel: the weight format, and whether the
/// activations it reads are half precision.
#[derive(Clone, Copy, PartialEq, Eq, Structural, Debug)]
pub struct MmIdKernel {
    pub quant: MmQuant,
    pub half_rhs: bool,
}

/// A compute kernel, by what it computes.
#[derive(Clone, Copy, PartialEq, Eq, Structural, Debug)]
pub enum Kernel {
    MulMvKQ8,
    CpyF32F16,
    MulMmQ8F32,
    MulMmQ8F16,
    MulMmQ4F32,
    MulMmF16F32,
    InterleaveGroupMajor,
    Argmax,
    MulMvQ8,
    MulMvQ4,
    MulMvF32,
    MulMvF16,
    IndexerScoreOne,
    IndexerScoresTiled,
    IndexerScoresTiledF32,
    ArgsortDesc,
    IndexerTopkThresholdBatched,
    IndexedMixedAttention,
    IndexerTopkGreedy,
    IndexerTopkThreshold,
    RmsNormMul,
    HeadRmsNorm,
    RopeTail,
    CompressorPrefillNoidx,
    CompressorPoolFillNoidx,
    HcExpand,
    HcSplitNormAny,
    HcSplitNorm4,
    HcCollapseMvF16,
    HcCollapseMvF32,
    HcWeightedSum,
    KvFp8Store,
    KvFp8StoreK,
    FlashKMla,
    AttnOutLowQ8,
    AttnOutLowQ8K,
    Swiglu,
    SoftplusSqrt,
    RouterFinalizeOne,
    RouterFinalizeOneAny,
    RouterFinalizeOneAnyK,
    RouterWeightsOne,
    RouterWeightsOneAny,
    RouterWeightsOneAnyK,
    RouterWeightsK,
    MmIdMap0,
    MmId(MmIdKernel),
    MoeGridArgs,
    MmIdIq2PairSwiglu,
    MoeSwigluWeight,
    MoeSwigluWeightF16,
    Sum6K,
    PairSwigluKIq2,
    PairSwigluKQ4K,
    Sum6Q4K,
    Sum6Q2K,
    MtpInputMix,
    MtpOutputHcWeights,
}

impl Kernel {
    /// The name under which the kernel library exports the kernel.
    pub open spec fn spec_name(self) -> &'static str {
        match self {
            Kernel::MulMvKQ8 => "ds4_kernel_mul_mv_K_q8_0_f32_sg",
            Kernel::CpyF32F16 => "ds4_kernel_cpy_f32_f16",
            Kernel::MulMmQ8F32 => "ds4_kernel_mul_mm_q8_0_f32",
            Kernel::MulMmQ8F16 => "ds4_kernel_mul_mm_q8_0_f16",
            Kernel::MulMmQ4F32 => "ds4_kernel_mul_mm_q4_0_f32",
            Kernel::MulMmF16F32 => "ds4_kernel_mul_mm_f16_f32",
            Kernel::InterleaveGroupMajor => "ds4_interleave_group_major",
            Kernel::Argmax => "ds4_argmax_f32",
            Kernel::MulMvQ8 => "ds4_kernel_mul_mv_q8_0_f32",
            Kernel::MulMvQ4 => "ds4_kernel_mul_mv_q4_0_f32",
            Kernel::MulMvF32 => "ds4_kernel_mul_mv_f32_f32_4",
            Kernel::MulMvF16 => "ds4_kernel_mul_mv_f16_f32_4",
            Kernel::IndexerScoreOne => "ds4_dsv4_indexer_score_one_direct",
            Kernel::IndexerScoresTiled => "ds4_dsv4_indexer_scores_tiled",
            Kernel::IndexerScoresTiledF32 => "ds4_dsv4_indexer_scores_tiled_f32",
            Kernel::ArgsortDesc => "ds4_argsort_f32_i32_desc",
            Kernel::IndexerTopkThresholdBatched => "ds4_dsv4_indexer_topk_threshold_batched",
            Kernel::IndexedMixedAttention => "ds4_dsv4_indexed_mixed_attention_h8",
            Kernel::IndexerTopkGreedy => "ds4_dsv4_indexer_topk_greedy",
            Kernel::IndexerTopkThreshold => "ds4_dsv4_indexer_topk_threshold",
            Kernel::RmsNormMul => "ds4_kernel_rms_norm_mul_f32_4",
            Kernel::HeadRmsNorm => "ds4_head_rms_norm_f32",
            Kernel::RopeTail => "ds4_kernel_dsv4_rope_tail_f32",
            Kernel::CompressorPrefillNoidx => "ds4_kernel_dsv4_compressor_prefill_noidx_f32",
            Kernel::CompressorPoolFillNoidx => "ds4_kernel_dsv4_compressor_pool_fill_noidx_f32",
            Kernel::HcExpand => "ds4_dsv4_hc_expand",
            Kernel::HcSplitNormAny => "ds4_dsv4_hc_split_weighted_sum_norm_any",
            Kernel::HcSplitNorm4 => "ds4_dsv4_hc_split_weighted_sum_norm4",
            Kernel::HcCollapseMvF16 => "ds4_dsv4_hc_collapse_rms_mv_f16",
            Kernel::HcCollapseMvF32 => "ds4_dsv4_hc_collapse_rms_mv_f32",
            Kernel::HcWeightedSum => "ds4_dsv4_hc_weighted_sum",
            Kernel::KvFp8Store => "ds4_dsv4_kv_fp8_store",
            Kernel::KvFp8StoreK => "ds4_dsv4_kv_fp8_store_k",
            Kernel::FlashKMla => "ds4_kernel_flash_attn_K_mla_f32_sg",
            Kernel::AttnOutLowQ8 => "ds4_dsv4_attn_out_low_q8_0_f32",
            Kernel::AttnOutLowQ8K => "ds4_dsv4_attn_out_low_q8_0_f32_k",
            Kernel::Swiglu => "ds4_kernel_swiglu_f32",
            Kernel::SoftplusSqrt => "ds4_kernel_dsv4_softplus_sqrt_f32_4",
            Kernel::RouterFinalizeOne => "ds4_dsv4_router_finalize_one",
            Kernel::RouterFinalizeOneAny => "ds4_dsv4_router_finalize_one_any",
            Kernel::RouterFinalizeOneAnyK => "ds4_dsv4_router_finalize_one_any_k",
            Kernel::RouterWeightsOne => "ds4_dsv4_router_weights_one",
            Kernel::RouterWeightsOneAny => "ds4_dsv4_router_weights_one_any",
            Kernel::RouterWeightsOneAnyK => "ds4_dsv4_router_weights_one_any_k",
            Kernel::RouterWeightsK => "ds4_dsv4_router_weights_k",
            Kernel::MmIdMap0 => "ds4_kernel_mul_mm_id_map0_ne20_6",
            Kernel::MmId(k) => match (k.quant, k.half_rhs) {
                (MmQuant::Q8_0, false) => "ds4_kernel_mul_mm_id_q8_0_f32",
                (MmQuant::Q8_0, true) => "ds4_kernel_mul_mm_id_q8_0_f16",
                (MmQuant::Q2_K, false) => "ds4_kernel_mul_mm_id_q2_K_f32",
                (MmQuant::Q2_K, true) => "ds4_kernel_mul_mm_id_q2_K_f16",
                (MmQuant::Q4_K, false) => "ds4_kernel_mul_mm_id_q4_K_f32",
                (MmQuant::Q4_K, true) => "ds4_kernel_mul_mm_id_q4_K_f16",
                (MmQuant::IQ2_XXS, false) => "ds4_kernel_mul_mm_id_iq2_xxs_f32",
                (MmQuant::IQ2_XXS, true) => "ds4_kernel_mul_mm_id_iq2_xxs_f16",
            },
            Kernel::MoeGridArgs => "ds4_kernel_moe_grid_args",
            Kernel::MmIdIq2PairSwiglu => "ds4_kernel_mul_mm_id_iq2_xxs_pair_swiglu_f32",
            Kernel::MoeSwigluWeight => "ds4_dsv4_moe_swiglu_weight",
            Kernel::MoeSwigluWeightF16 => "ds4_dsv4_moe_swiglu_weight_f16",
            Kernel::Sum6K => "ds4_kernel_dsv4_sum6_k_f32",
            Kernel::PairSwigluKIq2 => "ds4_kernel_mul_mv_id_iq2_xxs_pair_swiglu_K_f32",
            Kernel::PairSwigluKQ4K => "ds4_kernel_mul_mv_id_q4_K_pair_swiglu_K_f32",
            Kernel::Sum6Q4K => "ds4_kernel_mul_mv_id_q4_K_sum6_f32",
            Kernel::Sum6Q2K => "ds4_kernel_mul_mv_id_q2_K_sum6_f32",
            Kernel::MtpInputMix => "ds4_kernel_dsv4_mtp_input_mix_broadcast_add_f32",
            Kernel::MtpOutputHcWeights => "ds4_kernel_dsv4_mtp_output_hc_weights_f32",
        }
    }

    /// The name under which the kernel library exports the kernel.
    pub fn name(self) -> (r: &'static str)
        ensures
            r@ == self.spec_name()@,
    {
        match self {
            Kernel::MulMvKQ8 => "ds4_kernel_mul_mv_K_q8_0_f32_sg",
            Kernel::CpyF32F16 => "ds4_kernel_cpy_f32_f16",
            Kernel::MulMmQ8F32 => "ds4_kernel_mul_mm_q8_0_f32",
            Kernel::MulMmQ8F16 => "ds4_kernel_mul_mm_q8_0_f16",
            Kernel::MulMmQ4F32 => "ds4_kernel_mul_mm_q4_0_f32",
            Kernel::MulMmF16F32 => "ds4_kernel_mul_mm_f16_f32",
            Kernel::InterleaveGroupMajor => "ds4_interleave_group_major",
            Kernel::Argmax => "ds4_argmax_f32",
            Kernel::MulMvQ8 => "ds4_kernel_mul_mv_q8_0_f32",
            Kernel::MulMvQ4 => "ds4_kernel_mul_mv_q4_0_f32",
            Kernel::MulMvF32 => "ds4_kernel_mul_mv_f32_f32_4",
            Kernel::MulMvF16 => "ds4_kernel_mul_mv_f16_f32_4",
            Kernel::IndexerScoreOne => "ds4_dsv4_indexer_score_one_direct",
            Kernel::IndexerScoresTiled => "ds4_dsv4_indexer_scores_tiled",
            Kernel::IndexerScoresTiledF32 => "ds4_dsv4_indexer_scores_tiled_f32",
            Kernel::ArgsortDesc => "ds4_argsort_f32_i32_desc",
            Kernel::IndexerTopkThresholdBatched => "ds4_dsv4_indexer_topk_threshold_batched",
            Kernel::IndexedMixedAttention => "ds4_dsv4_indexed_mixed_attention_h8",
            Kernel::IndexerTopkGreedy => "ds4_dsv4_indexer_topk_greedy",
            Kernel::IndexerTopkThreshold => "ds4_dsv4_indexer_topk_threshold",
            Kernel::RmsNormMul => "ds4_kernel_rms_norm_mul_f32_4",
            Kernel::HeadRmsNorm => "ds4_head_rms_norm_f32",
            Kernel::RopeTail => "ds4_kernel_dsv4_rope_tail_f32",
            Kernel::CompressorPrefillNoidx => "ds4_kernel_dsv4_compressor_prefill_noidx_f32",
            Kernel::CompressorPoolFillNoidx => "ds4_kernel_dsv4_compressor_pool_fill_noidx_f32",
            Kernel::HcExpand => "ds4_dsv4_hc_expand",
            Kernel::HcSplitNormAny => "ds4_dsv4_hc_split_weighted_sum_norm_any",
            Kernel::HcSplitNorm4 => "ds4_dsv4_hc_split_weighted_sum_norm4",
            Kernel::HcCollapseMvF16 => "ds4_dsv4_hc_collapse_rms_mv_f16",
            Kernel::HcCollapseMvF32 => "ds4_dsv4_hc_collapse_rms_mv_f32",
            Kernel::HcWeightedSum => "ds4_dsv4_hc_weighted_sum",
            Kernel::KvFp8Store => "ds4_dsv4_kv_fp8_store",
            Kernel::KvFp8StoreK => "ds4_dsv4_kv_fp8_store_k",
            Kernel::FlashKMla => "ds4_kernel_flash_attn_K_mla_f32_sg",
            Kernel::AttnOutLowQ8 => "ds4_dsv4_attn_out_low_q8_0_f32",
            Kernel::AttnOutLowQ8K => "ds4_dsv4_attn_out_low_q8_0_f32_k",
            Kernel::Swiglu => "ds4_kernel_swiglu_f32",
            Kernel::SoftplusSqrt => "ds4_kernel_dsv4_softplus_sqrt_f32_4",
            Kernel::RouterFinalizeOne => "ds4_dsv4_router_finalize_one",
            Kernel::RouterFinalizeOneAny => "ds4_dsv4_router_finalize_one_any",
            Kernel::RouterFinalizeOneAnyK => "ds4_dsv4_router_finalize_one_any_k",
            Kernel::RouterWeightsOne => "ds4_dsv4_router_weights_one",
            Kernel::RouterWeightsOneAny => "ds4_dsv4_router_weights_one_any",
            Kernel::RouterWeightsOneAnyK => "ds4_dsv4_router_weights_one_any_k",
            Kernel::RouterWeightsK => "ds4_dsv4_router_weights_k",
            Kernel::MmIdMap0 => "ds4_kernel_mul_mm_id_map0_ne20_6",
            Kernel::MmId(k) => match (k.quant, k.half_rhs) {
                (MmQuant::Q8_0, false) => "ds4_kernel_mul_mm_id_q8_0_f32",
                (MmQuant::Q8_0, true) => "ds4_kernel_mul_mm_id_q8_0_f16",
                (MmQuant::Q2_K, false) => "ds4_kernel_mul_mm_id_q2_K_f32",
                (MmQuant::Q2_K, true) => "ds4_kernel_mul_mm_id_q2_K_f16",
                (MmQuant::Q4_K, false) => "ds4_kernel_mul_mm_id_q4_K_f32",
                (MmQuant::Q4_K, true) => "ds4_kernel_mul_mm_id_q4_K_f16",
                (MmQuant::IQ2_XXS, false) => "ds4_kernel_mul_mm_id_iq2_xxs_f32",
                (MmQuant::IQ2_XXS, true) => "ds4_kernel_mul_mm_id_iq2_xxs_f16",
            },
            Kernel::MoeGridArgs => "ds4_kernel_moe_grid_args",
            Kernel::MmIdIq2PairSwiglu => "ds4_kernel_mul_mm_id_iq2_xxs_pair_swiglu_f32",
            Kernel::MoeSwigluWeight => "ds4_dsv4_moe_swiglu_weight",
            Kernel::MoeSwigluWeightF16 => "ds4_dsv4_moe_swiglu_weight_f16",
            Kernel::Sum6K => "ds4_kernel_dsv4_sum6_k_f32",
            Kernel::PairSwigluKIq2 => "ds4_kernel_mul_mv_id_iq2_xxs_pair_swiglu_K_f32",
            Kernel::PairSwigluKQ4K => "ds4_kernel_mul_mv_id_q4_K_pair_swiglu_K_f32",
            Kernel::Sum6Q4K => "ds4_kernel_mul_mv_id_q4_K_sum6_f32",
            Kernel::Sum6Q2K => "ds4_kernel_mul_mv_id_q2_K_sum6_f32",
            Kernel::MtpInputMix => "ds4_kernel_dsv4_mtp_input_mix_broadcast_add_f32",
            Kernel::MtpOutputHcWeights => "ds4_kernel_dsv4_mtp_output_hc_weights_f32",
        }
    }
}

/// The function constants that a pipeline is specialised with.
#[derive(Clone, Copy, PartialEq, Eq, Structural, Debug)]
pub enum Consts {
    Plain,
    /// Simdgroups per threadgroup and threads per row.
    Rows { nsg: i16, nxpsg: i16 },
    /// Simdgroups per threadgroup and positions per launch.
    Positions { nsg: i16, positions: i16 },
    /// Whether the kernel checks the bounds of its input and of its output.
    Bounds { inp: bool, out: bool },
    /// Key and value widths, positions, cache rows, and whether a mask is read.
    Flash { dk: i32, dv: i32, k: i32, n_cache: i32, has_mask: bool },
}

/// The value of one function constant.
#[derive(Clone, Copy, PartialEq, Eq, Structural, Debug)]
pub enum ConstValue {
    Short(i16),
    Int(i32),
    Bool(bool),
}

impl Consts {
    /// The constants with the index that each has in the kernel source.
    pub open spec fn spec_slots(self) -> Seq<(u64, ConstValue)> {
        match self {
            Consts::Plain => seq![],
            Consts::Rows { nsg, nxpsg } => seq![
                (600u64, ConstValue::Short(nsg)),
                (601u64, ConstValue::Short(nxpsg)),
            ],
            Consts::Positions { nsg, positions } => seq![
                (1500u64, ConstValue::Short(nsg)),
                (1501u64, ConstValue::Short(positions)),
            ],
            Consts::Bounds { inp, out } => seq![
                (700u64, ConstValue::Bool(inp)),
                (701u64, ConstValue::Bool(out)),
            ],
            Consts::Flash { dk, dv, k, n_cache, has_mask } => seq![
                (1600u64, ConstValue::Int(dk)),
                (1601u64, ConstValue::Int(dv)),
                (1602u64, ConstValue::Int(k)),
                (1603u64, ConstValue::Int(n_cache)),
                (1604u64, ConstValue::Bool(has_mask)),
            ],
        }
    }

    /// The constants with the index that each has in the kernel source.
    pub fn slots(self) -> (r: Vec<(u64, ConstValue)>)
        ensures
            r@ == self.spec_slots(),
    {
        let mut v: Vec<(u64, ConstValue)> = Vec::new();
        match self {
            Consts::Plain => {},
            Consts::Rows { nsg, nxpsg } => {
                v.push((600u64, ConstValue::Short(nsg)));
                v.push((601u64, ConstValue::Short(nxpsg)));
            },
            Consts::Positions { nsg, positions } => {
                v.push((1500u64, ConstValue::Short(nsg)));
                v.push((1501u64, ConstValue::Short(positions)));
            },
            Consts::Bounds { inp, out } => {
                v.push((700u64, ConstValue::Bool(inp)));
                v.push((701u64, ConstValue::Bool(out)));
            },
            Consts::Flash { dk, dv, k, n_cache, has_mask } => {
                v.push((1600u64, ConstValue::Int(dk)));
                v.push((1601u64, ConstValue::Int(dv)));
                v.push((1602u64, ConstValue::Int(k)));
                v.push((1603u64, ConstValue::Int(n_cache)));
                v.push((1604u64, ConstValue::Bool(has_mask)));
            },
        }
        assert(v@ =~= self.spec_slots());
        v
    }
}

/// Where a launch takes its pipeline from.
#[derive(Clone, Copy, PartialEq, Eq, Structural, Debug)]
pub enum Pipe {
    /// Loaded with the engine; its absence refuses the operation.
    Loaded(Kernel),
    /// Built on first use for these constants. Whether it can be built is for the
    /// device to say, when the recording is carried out.
    Special(Kernel, Consts),
}

} // verus!
