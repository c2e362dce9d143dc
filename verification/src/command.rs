//! The commands that a scope records, in the order in which they are carried out.

use crate::config::{ExpertBufs, GgmlType, LayerParams};
use crate::kernel::Pipe;
use crate::pool::PoolKey;
use vstd::prelude::*;

verus! {

/// A single-precision number, by its bits.
#[derive(Clone, Copy, PartialEq, Eq, Structural, Debug)]
pub struct F32(pub u32);

/// A buffer on the device.
#[derive(Clone, Copy, PartialEq, Eq, Structural, Debug)]
pub enum BufId {
    /// Made by the command at this place of the recording.
    Fresh(u64),
    /// Pooled under a name and a tagged length.
    Pooled(PoolKey, u64),
    /// Handed in by the caller.
    External(u64),
    /// The cached single-precision copy of a host array.
    Weight(u64),
    /// The cached Q8_0 copy of a host array.
    WeightQ8(u64),
    /// The cached view of raw host bytes.
    WeightRaw(u64),
    /// The requantised copy at this place of the pool's list.
    Requant(u64),
    /// A layer's key-value cache.
    KvCache(u32),
    /// A layer's ring of compressed rows.
    CompRing(u32),
    /// A layer's compressor state: keys and values.
    CompStateKv(u32),
    /// A layer's compressor state: scores.
    CompStateScore(u32),
}

/// A host array that the caller holds: which one, and how many elements.
#[derive(Clone, Copy, PartialEq, Eq, Structural, Debug)]
pub struct HostRef {
    pub id: u64,
    pub len: u64,
}

/// A device buffer together with its number of elements, whose contents exist
/// only once the recording has been carried out.
#[derive(Clone, Copy, PartialEq, Eq, Structural, Debug)]
pub struct DeferredBuf {
    pub buf: BufId,
    pub n_elements: u64,
}

impl DeferredBuf {
    /// The number of elements.
    pub fn len(&self) -> (r: u64)
        ensures
            r == self.n_elements,
    {
        self.n_elements
    }

    /// Whether there are no elements.
    pub fn is_empty(&self) -> (r: bool)
        ensures
            r == (self.n_elements == 0),
    {
        self.n_elements == 0
    }

    /// The device buffer.
    pub fn buffer(&self) -> (r: BufId)
        ensures
            r == self.buf,
    {
        self.buf
    }

    /// Views a buffer that exists already as one of `n_elements` elements.
    pub fn from_external_buffer(buf: BufId, n_elements: u64) -> (r: DeferredBuf)
        ensures
            r == (DeferredBuf { buf, n_elements }),
    {
        DeferredBuf { buf, n_elements }
    }
}

/// An element type.
#[derive(Clone, Copy, PartialEq, Eq, Structural, Debug)]
pub enum Elem {
    F32,
    I32,
    U16,
}

/// Arguments of a strided copy.
#[derive(Clone, Copy, PartialEq, Eq, Structural, Debug)]
pub struct CpyArgs {
    pub nk0: i64,
    pub ne00: i64,
    pub ne01: i64,
    pub ne02: i64,
    pub ne03: i64,
    pub nb00: u64,
    pub nb01: u64,
    pub nb02: u64,
    pub nb03: u64,
    pub ne0: i64,
    pub ne1: i64,
    pub ne2: i64,
    pub ne3: i64,
    pub nb0: u64,
    pub nb1: u64,
    pub nb2: u64,
    pub nb3: u64,
}

/// Arguments of a GEMM.
#[derive(Clone, Copy, PartialEq, Eq, Structural, Debug)]
pub struct MmArgs {
    pub ne00: i32,
    pub ne02: i32,
    pub nb01: u64,
    pub nb02: u64,
    pub nb03: u64,
    pub ne12: i32,
    pub nb10: u64,
    pub nb11: u64,
    pub nb12: u64,
    pub nb13: u64,
    pub ne0: i32,
    pub ne1: i32,
    pub r2: i16,
    pub r3: i16,
}

/// Arguments of a matrix-vector product.
#[derive(Clone, Copy, PartialEq, Eq, Structural, Debug)]
pub struct MulMvArgs {
    pub ne00: i32,
    pub ne01: i32,
    pub ne02: i32,
    pub nb00: u64,
    pub nb01: u64,
    pub nb02: u64,
    pub nb03: u64,
    pub ne10: i32,
    pub ne11: i32,
    pub ne12: i32,
    pub nb10: u64,
    pub nb11: u64,
    pub nb12: u64,
    pub nb13: u64,
    pub ne0: i32,
    pub ne1: i32,
    pub nr0: i32,
    pub r2: i16,
    pub r3: i16,
}

/// Arguments of a matrix-vector product whose matrix is picked by an index.
#[derive(Clone, Copy, PartialEq, Eq, Structural, Debug)]
pub struct MulMvIdArgs {
    pub nei0: i32,
    pub nei1: i32,
    pub nbi1: u64,
    pub ne00: i32,
    pub ne01: i32,
    pub ne02: i32,
    pub nb00: u64,
    pub nb01: u64,
    pub nb02: u64,
    pub ne10: i32,
    pub ne11: i32,
    pub ne12: i32,
    pub ne13: i32,
    pub nb10: u64,
    pub nb11: u64,
    pub nb12: u64,
    pub ne0: i32,
    pub ne1: i32,
    pub nb1: u64,
    pub nr0: i32,
}

/// Arguments of an expert-gather GEMM.
#[derive(Clone, Copy, PartialEq, Eq, Structural, Debug)]
pub struct MulMmIdArgs {
    pub ne00: i32,
    pub ne02: i32,
    pub nb01: u64,
    pub nb02: u64,
    pub nb03: u64,
    pub ne11: i32,
    pub nb10: u64,
    pub nb11: u64,
    pub nb12: u64,
    pub nb13: u64,
    pub ne20: i32,
    pub ne21: i32,
    pub ne0: i32,
    pub ne1: i32,
    pub r2: i16,
    pub r3: i16,
}

/// Arguments of the expert-to-token map.
#[derive(Clone, Copy, PartialEq, Eq, Structural, Debug)]
pub struct Map0Args {
    pub ne02: i32,
    pub ne10: i32,
    pub ne11: i32,
    pub nb11: u64,
    pub nb12: u64,
    pub ne21: i32,
    pub ne20: i32,
    pub nb21: u64,
}

/// Arguments of the gated activation of routed experts.
#[derive(Clone, Copy, PartialEq, Eq, Structural, Debug)]
pub struct MoeSwigluActArgs {
    pub width: u32,
    pub rows: u32,
    pub gate_row_stride: u64,
    pub up_row_stride: u64,
    pub mid_row_stride: u64,
    pub weight_stride: u64,
    pub write_clamped: u32,
    pub clamp_value: F32,
}

/// Arguments of the residual-stream expansion.
#[derive(Clone, Copy, PartialEq, Eq, Structural, Debug)]
pub struct HcExpandArgs {
    pub n_embd: i64,
    pub n_hc: i64,
    pub n_tokens: i64,
    pub nb_block0: u64,
    pub nb_block1: u64,
    pub nb_add0: u64,
    pub nb_add1: u64,
    pub nb_res0: u64,
    pub nb_res1: u64,
    pub nb_res2: u64,
    pub nb_post0: u64,
    pub nb_post1: u64,
    pub nb_comb0: u64,
    pub nb_comb1: u64,
    pub nb_comb2: u64,
    pub nb0: u64,
    pub nb1: u64,
    pub nb2: u64,
    pub has_add: i32,
}

/// Arguments of the residual-stream split and norm.
#[derive(Clone, Copy, PartialEq, Eq, Structural, Debug)]
pub struct HcSplitArgs {
    pub n_embd: i64,
    pub n_hc: i32,
    pub sinkhorn_iters: i32,
    pub n_rows: i64,
    pub mix_hc: i64,
    pub nb_mix1: u64,
    pub nb_split1: u64,
    pub nb_x0: u64,
    pub nb_x1: u64,
    pub nb_x2: u64,
    pub nb0: u64,
    pub nb1: u64,
    pub nb_norm1: u64,
    pub eps: F32,
    pub norm_eps: F32,
}

/// Arguments of the weighted sum of residual streams.
#[derive(Clone, Copy, PartialEq, Eq, Structural, Debug)]
pub struct HcWsArgs {
    pub n_embd: i64,
    pub n_hc: i64,
    pub n_tokens: i64,
    pub nb_x0: u64,
    pub nb_x1: u64,
    pub nb_x2: u64,
    pub nb_w0: u64,
    pub nb_w1: u64,
    pub nb0: u64,
    pub nb1: u64,
}

/// Arguments of a row norm with a learned factor.
#[derive(Clone, Copy, PartialEq, Eq, Debug)]
pub struct NormArgs {
    pub ne00: i32,
    pub ne00_t: i32,
    pub nb1: u64,
    pub nb2: u64,
    pub nb3: u64,
    pub eps: F32,
    pub nef1: (i32, i32, i32),
    pub nef2: (i32, i32, i32),
    pub nef3: (i32, i32, i32),
    pub nbf1: (u64, u64, u64),
    pub nbf2: (u64, u64, u64),
    pub nbf3: (u64, u64, u64),
}

/// Arguments of a gated activation.
#[derive(Clone, Copy, PartialEq, Eq, Structural, Debug)]
pub struct GluArgs {
    pub ne00: i32,
    pub nb01: u64,
    pub ne10: i32,
    pub nb11: u64,
    pub ne0: i32,
    pub nb1: u64,
    pub i00: i32,
    pub i10: i32,
    pub alpha: F32,
    pub limit: F32,
}

/// Arguments of the expert selection.
#[derive(Clone, Copy, PartialEq, Eq, Structural, Debug)]
pub struct SelectArgs {
    pub has_bias: u32,
    pub hash_mode: u32,
    pub use_token_buffer: u32,
    pub token: u32,
    pub hash_rows: u32,
    pub n_experts: u32,
}

/// Arguments of the chunk compressor.
#[derive(Clone, Copy, PartialEq, Eq, Structural, Debug)]
pub struct PrefillArgs {
    pub head_dim: u32,
    pub ratio: u32,
    pub n_rot: u32,
    pub pos0: u32,
    pub comp_row0: u32,
    pub n_comp: u32,
    pub rms_eps: F32,
    pub freq_base: F32,
    pub freq_scale: F32,
    pub ext_factor: F32,
    pub attn_factor: F32,
    pub beta_fast: F32,
    pub beta_slow: F32,
    pub orig_ctx: u32,
    pub backward: u32,
}

/// Arguments of the compressor's state fill.
#[derive(Clone, Copy, PartialEq, Eq, Structural, Debug)]
pub struct PoolFillArgs {
    pub width: u32,
    pub ratio: u32,
    pub pos0: u32,
    pub first: u32,
    pub rem: u32,
}

/// Bytes bound to an argument slot.
#[derive(Clone, Copy, PartialEq, Eq, Debug)]
pub enum Args {
    U32(u32),
    F32(F32),
    /// One over the square root of an integer, in single precision.
    InvSqrt(u64),
    Cpy(CpyArgs),
    Mm(MmArgs),
    MulMv(MulMvArgs),
    MulMvId(MulMvIdArgs),
    MmId(MulMmIdArgs),
    Map0(Map0Args),
    SwigluAct(MoeSwigluActArgs),
    HcExpand(HcExpandArgs),
    HcSplit(HcSplitArgs),
    HcWs(HcWsArgs),
    Norm(NormArgs),
    Glu(GluArgs),
    Select(SelectArgs),
    Prefill(PrefillArgs),
    PoolFill(PoolFillArgs),
}

/// The rotary kernel's arguments: words bound to consecutive slots from the fourth on.
#[derive(Clone, Copy, PartialEq, Eq, Structural, Debug)]
pub struct RopeArgs {
    pub head_dim: u32,
    pub n_rot: u32,
    pub freq_base: F32,
    pub freq_scale: F32,
    pub ext_factor: F32,
    pub attn_factor: F32,
    pub orig_ctx: u32,
    pub pos: u32,
    pub n_heads: u32,
    pub elem_stride: u32,
    pub head_bytes: u32,
    pub plane_bytes: u32,
    pub backward: bool,
}

impl RopeArgs {
    /// The words in slot order.
    pub open spec fn spec_words(self) -> Seq<u32> {
        seq![
            self.head_dim,
            self.n_rot,
            0u32,
            self.freq_base.0,
            self.freq_scale.0,
            self.ext_factor.0,
            self.attn_factor.0,
            0x4200_0000u32,
            0x3f80_0000u32,
            self.orig_ctx,
            self.pos,
            self.n_heads,
            self.elem_stride,
            self.head_bytes,
            self.plane_bytes,
            if self.backward { 1u32 } else { 0u32 },
            4u32,
            self.head_bytes,
            self.plane_bytes,
            0u32,
            0u32,
            0u32,
            0u32,
        ]
    }

    /// The words in slot order.
    pub fn words(self) -> (r: Vec<u32>)
        ensures
            r@ == self.spec_words(),
    {
        let b: u32 = if self.backward {
            1
        } else {
            0
        };
        let v: Vec<u32> = vec![
            self.head_dim,
            self.n_rot,
            0,
            self.freq_base.0,
            self.freq_scale.0,
            self.ext_factor.0,
            self.attn_factor.0,
            0x4200_0000,
            0x3f80_0000,
            self.orig_ctx,
            self.pos,
            self.n_heads,
            self.elem_stride,
            self.head_bytes,
            self.plane_bytes,
            b,
            4,
            self.head_bytes,
            self.plane_bytes,
            0,
            0,
            0,
            0,
        ];
        assert(v@ =~= self.spec_words());
        v
    }
}

/// Where a launch gets its number of threadgroups from.
#[derive(Clone, Copy, PartialEq, Eq, Structural, Debug)]
pub enum Groups {
    /// This many.
    Count(u64),
    /// As many as cover this many threads.
    Cover(u64),
}

/// Names for the points at which a scope is committed and waited for.
#[derive(Clone, Copy, PartialEq, Eq, Structural, Debug)]
pub enum Stage {
    AttnHcCollapse,
    AttnQkvChain,
    AttnKvRms,
    AttnRopeTail,
    AttnHcCollapseK,
    AttnQkvChainK,
    AttnKvRmsK,
    AttnRopeTailK,
    FfnHcExpandAttn,
    FfnHcCollapse,
    FfnRouter,
    FfnMoeExperts,
    FfnShared,
    SsdChunkPool,
    MoeExpertProfile,
    DumpNormedK,
    DumpFlashK,
    DumpResidK,
    LayerAttnHalf,
    LayerFfnHalf,
    VerifyLayerRms,
    WaitAllPending,
    WaitAllCurrent,
    FlushAndRead,
    FlushAndReadMulti,
    FlushAndReadI32,
    /// A point of the caller's own.
    Caller(u32),
}

/// A vector that comes from the host or lies on the device.
#[derive(Clone, Copy, PartialEq, Eq, Structural, Debug)]
pub enum Source {
    Host(HostRef),
    Device(BufId),
}

/// The compressed rows that a decode step attends to beside the raw cache.
#[derive(Clone, Copy, PartialEq, Eq, Structural, Debug)]
pub enum CompRows {
    Absent,
    Host { rows: HostRef, selected: HostRef, n_selected: u32 },
    Ring { ring: BufId, selected: HostRef, n_selected: u32 },
    RingSel { ring: BufId, selection: BufId, n_selected: u32 },
}

/// A decode step of attention over a layer's persistent cache.
#[derive(Clone, Copy, PartialEq, Eq, Structural, Debug)]
pub struct FlashPersistent {
    pub layer: u32,
    pub params: LayerParams,
    pub q: Source,
    pub n_raw: u32,
    pub raw_cap: u32,
    pub comp: CompRows,
    pub sinks: HostRef,
}

/// Attention of several positions over a half-precision workspace.
#[derive(Clone, Copy, PartialEq, Eq, Structural, Debug)]
pub struct FlashWindow {
    /// Whether the blocked kernel is used.
    pub blocked: bool,
    pub params: LayerParams,
    pub q: BufId,
    pub workspace: BufId,
    pub n_total: u32,
    pub mask: HostRef,
    pub sinks: HostRef,
    pub k: u64,
}

/// A half-precision workspace of raw rows and compressed rows.
#[derive(Clone, Copy, PartialEq, Eq, Structural, Debug)]
pub struct ExtendedKv {
    pub kv_raw: BufId,
    pub comp_ring: BufId,
    /// Where the selected row numbers start among the recorded words.
    pub sel_start: u64,
    pub n_raw: u32,
    pub n_comp: u32,
    pub head_dim: u32,
    pub n_total_padded: u32,
}

/// The position encoding that a compressor adds to its scores.
#[derive(Clone, Copy, PartialEq, Eq, Structural, Debug)]
pub enum Ape {
    /// As the host array lies.
    Host(HostRef),
    /// The host array of `width` rows of `ratio`, transposed.
    Transposed { host: HostRef, width: u64, ratio: u64 },
}

/// One row stored into a compressor's state.
#[derive(Clone, Copy, PartialEq, Eq, Structural, Debug)]
pub struct CompStore {
    pub kv: Source,
    pub score: Source,
    pub ape: Ape,
    pub state_kv: BufId,
    pub state_score: BufId,
    pub width: u32,
    pub ratio: u32,
    pub pos: u32,
    pub ape_is_f16: bool,
}

/// A chunk compressed with overlapping windows of four.
#[derive(Clone, Copy, PartialEq, Eq, Structural, Debug)]
pub struct PrefillIdx {
    pub kv: BufId,
    pub sc: BufId,
    pub ape: BufId,
    pub norm: BufId,
    pub comp_ring: BufId,
    pub head_dim: u32,
    pub n_rot: u32,
    pub chunk_start: u32,
    pub comp_row0: u32,
    pub n_comp: u32,
    pub params: LayerParams,
    pub rms_eps: F32,
}

/// Which experts a routed step reads, and with which factors.
#[derive(Clone, Copy, PartialEq, Eq, Structural, Debug)]
pub enum Route {
    Host { selected: HostRef, weights: HostRef },
    Device { chosen: BufId, factors: BufId },
}

/// A routed-expert step for one position.
#[derive(Clone, Copy, PartialEq, Eq, Structural, Debug)]
pub struct MoeRouted {
    pub layer: u32,
    pub x: Source,
    pub d_in: u64,
    pub route: Route,
    /// The expert buffers, unless the engine streams the experts of this layer.
    pub experts: ExpertBufs,
    /// Whether experts that the engine streams are bound instead.
    pub streamed: bool,
    pub gate: GgmlType,
    pub up: GgmlType,
    pub down: GgmlType,
    pub d_ffn: u64,
}

/// The shared expert for one position.
#[derive(Clone, Copy, PartialEq, Eq, Structural, Debug)]
pub struct SharedChain {
    pub x: Source,
    pub d_in: u64,
    pub w_gate: HostRef,
    pub w_up: HostRef,
    pub w_down: HostRef,
    pub shared_dim: u32,
    pub want_q80: bool,
    pub gate_q8: Option<HostRef>,
    pub up_q8: Option<HostRef>,
    pub down_q8: Option<HostRef>,
}

/// Routed factors of table-chosen experts, computed on the host.
#[derive(Clone, Copy, PartialEq, Eq, Structural, Debug)]
pub struct HashWeights {
    pub probs: BufId,
    pub n_experts: u64,
    /// Where the experts of each position start among the recorded words,
    /// `k_used` to a position.
    pub experts_start: u64,
    pub k_positions: u64,
    pub k_used: u64,
}

/// A diagnostic that reads buffers on the host.
#[derive(Clone, Copy, PartialEq, Eq, Structural, Debug)]
pub enum Dump {
    Normed,
    Flash,
    AttnOut,
    AfterAttn,
    AfterFfn,
}

/// One step of a recording.
#[derive(Clone, Copy, PartialEq, Eq, Debug)]
pub enum Command {
    /// Make a buffer of `n` elements.
    NewBuffer { elem: Elem, n: u64 },
    /// Set the first `n` elements of a buffer to zero.
    Zero { buf: BufId, n: u64 },
    /// Make a buffer that holds a host array.
    Upload { elem: Elem, host: HostRef },
    /// Make a buffer that holds one word.
    UploadWord(u32),
    /// Make a buffer that holds recorded words.
    UploadWords { start: u64, len: u64 },
    /// Make a pooled buffer.
    NewPooled { key: PoolKey, tag: u64, elem: Elem, n: u64 },
    /// Keep a buffer resident.
    Pin(BufId),
    CommitResidency,
    /// Warn, once, that pooled scratch is experimental.
    WarnPooled,
    CachedWeight(HostRef),
    CachedWeightQ8(HostRef),
    CachedRaw(HostRef),
    /// Requantise the Q8_0 blocks of a buffer to Q4_0.
    Requantize { src: BufId, blocks: u64, slot: u64 },
    KvCache { layer: u32, bytes: u64 },
    CompRing { layer: u32, bytes: u64 },
    CompStateKv { layer: u32, bytes: u64 },
    CompStateScore { layer: u32, bytes: u64 },
    /// Take the compute encoder that launches share.
    Encoder,
    /// Open a compute encoder whose launches may overlap.
    ConcurrentEncoder,
    /// Done with the encoder taken or opened last.
    EndEncoder,
    /// Close the shared compute encoder.
    CloseShared,
    Pipeline(Pipe),
    Bytes(u64, Args),
    Rope(RopeArgs),
    Buffer(u64, BufId, u64),
    GroupMemory(u64),
    /// Launch threadgroups: how many, and of how many threads.
    Dispatch((u64, u64, u64), (u64, u64, u64)),
    /// Launch threads: how many, and how many to a group.
    DispatchThreads((u64, u64, u64), (u64, u64, u64)),
    /// Launch threadgroups of `want` threads, or of as many as the pipeline allows.
    DispatchUpTo { groups: Groups, want: u64, at_least_one: bool },
    /// Launch as many threadgroups as a buffer says.
    DispatchIndirect { counts: BufId, threads: (u64, u64, u64) },
    /// Make buffer writes visible to the launches that follow.
    Barrier,
    Blit,
    Copy { src: BufId, src_off: u64, dst: BufId, dst_off: u64, bytes: u64 },
    EndBlit,
    NewCommandBuffer,
    NewEvent,
    WaitEvent { cb: u64, value: u64 },
    SignalEvent { cb: u64, value: u64 },
    Commit(u64),
    Wait(u64),
    /// Fail if the command buffer ended in an error.
    CheckOk(u64, Stage),
    ProfilePush(u64),
    ProfileReport,
    CommitWait(u64, Stage),
    /// Report how long the command buffer ran on the device.
    GpuTime(u64),
    Read { buf: BufId, n: u64, elem: Elem },
    /// Count a drain, with this many command buffers pending.
    DrainTrace(u64),
    FlashPersistent(FlashPersistent),
    FlashWindow(FlashWindow),
    ExtendedKv(ExtendedKv),
    CompStore(CompStore),
    SoftmaxPool { kv: BufId, score: BufId, n_rows: u32, width: u32 },
    PoolRatio4 { state_kv: BufId, state_score: BufId, head_dim: u32 },
    RotateRatio4 { state_kv: BufId, state_score: BufId, head_dim: u32 },
    PrefillIdx(PrefillIdx),
    MoeRouted(MoeRouted),
    SharedChain(SharedChain),
    HashWeights(HashWeights),
    /// Fill the layer's streaming pool and ask for the next layer's pages.
    RefillChunkPool { layer: u32, prefetch_next: bool },
    DumpRow { what: Dump, layer: u32, buf: BufId, first: u64, n: u64 },
    DumpLayerRms { layer: u32, ratio: u32, buf: BufId, row: u64, last_row: u64 },
    DumpFlashInputs { q: BufId, kv: BufId, n_head: u64, dk: u64, base_pos: u32 },
    ExpertProfile { layer: u32, k: u64, selected: BufId },
}

} // verus!
