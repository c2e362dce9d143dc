use ds4_metal::command::{Ape, Args, BufId, Command, DeferredBuf, Elem, F32, HostRef, Stage};
use ds4_metal::config::{
    BaseLayerVerifyBundle, CompVerifyCtx, CompressorInputs, Config, Engine, ExpertBufs,
    ExpertTensor, ExpertWeights, GgmlType, LayerParams, MoePath, MtpDraftInputMix,
    MtpDraftLayerWeights, MtpDraftOutputHead, MtpDraftShape,
};
use ds4_metal::dispatcher::MetalDispatcher;
use ds4_metal::error::{Check, EncodeError};
use ds4_metal::ffn::{HashRoute, factor_rows, stray_token, table_rows};
use ds4_metal::kernel::{Kernel, MmIdKernel, MmQuant, Pipe};
use ds4_metal::pool::{PoolKey, PoolState};
use ds4_metal::scope::BatchScope;

const EPS: F32 = F32(0x3586_37bd);
const N_HC: u64 = 4;
const N_EMBD: u64 = 4096;
const HC: u64 = N_HC * N_EMBD;
const N_LORA_Q: u64 = 64;
const N_HEAD: u64 = 2;
const HEAD_DIM: u64 = 512;
const Q_DIM: u64 = N_HEAD * HEAD_DIM;
const KV_ROW: u64 = 512;
const N_EXPERTS: u64 = 256;
const D_FFN: u64 = 256;
const SHARED: u64 = 64;

fn buf(id: u64, n: u64) -> DeferredBuf {
    DeferredBuf::from_external_buffer(BufId::External(id), n)
}

fn host(id: u64, len: u64) -> HostRef {
    HostRef { id, len }
}

fn refused<T>(r: Result<T, EncodeError>) -> Option<Check> {
    match r {
        Err(EncodeError::Shape(refusal)) => Some(refusal.check),
        _ => None,
    }
}

fn tensor(id: u64, ttype: GgmlType) -> ExpertTensor {
    ExpertTensor { buf: BufId::External(id), ttype }
}

fn experts(gate: GgmlType, down: GgmlType) -> ExpertWeights {
    ExpertWeights {
        gate: tensor(100, gate),
        up: tensor(101, gate),
        down: tensor(102, down),
        n_experts: N_EXPERTS as u32,
        d_ffn: D_FFN as u32,
    }
}

fn engine(layers: Vec<ExpertWeights>) -> Engine {
    Engine {
        loaded: vec![
            Kernel::RmsNormMul,
            Kernel::HeadRmsNorm,
            Kernel::RopeTail,
            Kernel::HcExpand,
            Kernel::HcSplitNorm4,
            Kernel::KvFp8Store,
            Kernel::KvFp8StoreK,
            Kernel::Swiglu,
            Kernel::SoftplusSqrt,
            Kernel::RouterFinalizeOne,
            Kernel::RouterWeightsOne,
            Kernel::RouterWeightsK,
        ],
        experts: layers,
        expert_caches: vec![],
        chunk_pool: None,
        router_scale: F32(1.5f32.to_bits()),
        attn_out_low_k: false,
    }
}

fn q4_engine() -> Engine {
    engine(vec![experts(GgmlType::Q4_K, GgmlType::Q4_K); 3])
}

fn scope_with(config: Config) -> BatchScope {
    BatchScope::new(q4_engine(), config, PoolState::new())
}

fn scope() -> BatchScope {
    scope_with(Config::default())
}

fn params() -> LayerParams {
    LayerParams {
        n_head: N_HEAD as u32,
        head_dim: HEAD_DIM as u32,
        n_lora_kv: KV_ROW as u32,
        n_rot: 64,
        compress_ratio: 4,
        rope_freq_base: F32(1),
        rope_freq_scale: F32(2),
        rope_ext_factor: F32(3),
        rope_attn_factor: F32(4),
        rope_orig_ctx: 4096,
    }
}

fn pipes(log: &[Command]) -> Vec<Kernel> {
    log.iter()
        .filter_map(|c| match c {
            Command::Pipeline(Pipe::Loaded(k)) | Command::Pipeline(Pipe::Special(k, _)) => Some(*k),
            _ => None,
        })
        .collect()
}

fn interrupted(log: &[Command]) -> bool {
    log.iter().any(|c| {
        matches!(c, Command::Commit(_) | Command::CommitWait(_, _) | Command::Read { .. })
    })
}

struct Attn {
    hc_fn: DeferredBuf,
    hc_scale: DeferredBuf,
    hc_base: DeferredBuf,
    gamma: DeferredBuf,
    unit: DeferredBuf,
    q_a: DeferredBuf,
    gamma_q: DeferredBuf,
    q_b: DeferredBuf,
    kv: DeferredBuf,
    gamma_kv: DeferredBuf,
    o_a: DeferredBuf,
    o_b: DeferredBuf,
    sinks: DeferredBuf,
}

fn attn() -> Attn {
    Attn {
        hc_fn: buf(1, HC * 24),
        hc_scale: buf(2, 3),
        hc_base: buf(3, 24),
        gamma: buf(4, N_EMBD),
        unit: buf(5, HC),
        q_a: buf(6, N_LORA_Q * N_EMBD),
        gamma_q: buf(7, N_LORA_Q),
        q_b: buf(8, Q_DIM * N_LORA_Q),
        kv: buf(9, KV_ROW * N_EMBD),
        gamma_kv: buf(10, KV_ROW),
        o_a: buf(11, 64 * 512),
        o_b: buf(12, 64 * N_EMBD),
        sinks: buf(13, N_HEAD),
    }
}

fn attn_chain(
    s: &mut BatchScope,
    k: u64,
    base_pos: u32,
    n_groups: u64,
    comp: Option<CompVerifyCtx>,
) -> Result<DeferredBuf, EncodeError> {
    let a = attn();
    s.encode_attn_chain_k(
        &buf(20, k * HC),
        &a.hc_fn,
        &a.hc_scale,
        &a.hc_base,
        &a.gamma,
        &a.unit,
        &a.q_a,
        &a.gamma_q,
        &a.q_b,
        &a.kv,
        &a.gamma_kv,
        &a.o_a,
        &a.o_b,
        N_HC,
        N_EMBD,
        N_LORA_Q,
        N_HEAD,
        HEAD_DIM,
        KV_ROW,
        n_groups,
        32,
        512,
        64,
        3,
        EPS,
        EPS,
        EPS,
        0,
        &params(),
        16,
        base_pos,
        base_pos,
        base_pos,
        &a.sinks,
        k,
        comp,
    )
    .map(|r| r.1)
}

fn ffn_chain(
    s: &mut BatchScope,
    layer: u32,
    k: u64,
    hash: Option<HashRoute<'_>>,
) -> Result<DeferredBuf, EncodeError> {
    let a = attn();
    s.encode_ffn_chain_k(
        &buf(30, k * N_EMBD),
        &buf(31, k * HC),
        &buf(32, k * 24),
        &a.hc_fn,
        false,
        &a.hc_scale,
        &a.hc_base,
        &a.gamma,
        &a.unit,
        &buf(33, N_EXPERTS * N_EMBD),
        false,
        &buf(34, N_EXPERTS),
        host(1, SHARED * N_EMBD),
        host(2, SHARED * N_EMBD),
        host(3, SHARED * N_EMBD),
        host(4, 34),
        host(5, 34),
        host(6, 34),
        N_HC,
        N_EMBD,
        N_EXPERTS,
        0,
        SHARED as u32,
        3,
        EPS,
        EPS,
        layer,
        k,
        hash,
    )
}

fn layer(s: &mut BatchScope, prev: &DeferredBuf, layer: u32, k: u64) -> Result<DeferredBuf, EncodeError> {
    let a = attn();
    s.encode_layer_k(
        prev,
        &a.hc_fn,
        &a.hc_scale,
        &a.hc_base,
        &a.gamma,
        &a.unit,
        &a.q_a,
        &a.gamma_q,
        &a.q_b,
        &a.kv,
        &a.gamma_kv,
        &a.o_a,
        &a.o_b,
        &a.hc_fn,
        &a.hc_scale,
        &a.hc_base,
        &a.gamma,
        &buf(33, N_EXPERTS * N_EMBD),
        &buf(34, N_EXPERTS),
        host(1, SHARED * N_EMBD),
        host(2, SHARED * N_EMBD),
        host(3, SHARED * N_EMBD),
        host(4, 34),
        host(5, 34),
        host(6, 34),
        N_HC,
        N_EMBD,
        N_LORA_Q,
        N_HEAD,
        HEAD_DIM,
        KV_ROW,
        2,
        32,
        512,
        64,
        N_EXPERTS,
        0,
        SHARED as u32,
        3,
        EPS,
        EPS,
        EPS,
        layer,
        &params(),
        16,
        0,
        0,
        0,
        &a.sinks,
        k,
        None,
    )
}

#[test]
fn the_query_chain_gives_three_results() {
    let mut s = scope();
    let a = attn();
    let (qr, heads, kv) = s
        .encode_attn_qkv_chain(
            &buf(20, N_EMBD),
            &a.q_a,
            &a.gamma_q,
            &a.q_b,
            &a.kv,
            N_LORA_Q,
            N_HEAD,
            HEAD_DIM,
            EPS,
            KV_ROW,
        )
        .unwrap();
    assert_eq!((qr.n_elements, heads.n_elements, kv.n_elements), (N_LORA_Q, Q_DIM, KV_ROW));
    assert_eq!(
        pipes(&s.log),
        vec![
            Kernel::MulMvF32,
            Kernel::RmsNormMul,
            Kernel::MulMvF32,
            Kernel::HeadRmsNorm,
            Kernel::MulMvF32,
        ]
    );
    // With quantised projections the key-value product comes before the norm.
    let mut s = scope();
    s.set_q8_proj(true);
    s.encode_attn_qkv_chain(
        &buf(20, N_EMBD),
        &a.q_a,
        &a.gamma_q,
        &a.q_b,
        &a.kv,
        N_LORA_Q,
        N_HEAD,
        HEAD_DIM,
        EPS,
        KV_ROW,
    )
    .unwrap();
    assert_eq!(
        pipes(&s.log),
        vec![
            Kernel::MulMvQ8,
            Kernel::MulMvQ8,
            Kernel::RmsNormMul,
            Kernel::MulMvQ8,
            Kernel::HeadRmsNorm,
        ]
    );
}

#[test]
fn the_query_chain_checks_every_weight() {
    let a = attn();
    let mut s = scope();
    let mut run = |x: DeferredBuf, q_a: DeferredBuf, g: DeferredBuf, q_b: DeferredBuf, kv: DeferredBuf| {
        s.encode_attn_qkv_chain_k(
            &x, &q_a, &g, &q_b, &kv, N_LORA_Q, N_HEAD, HEAD_DIM, EPS, KV_ROW, N_EMBD, 2,
        )
    };
    let x = buf(20, 2 * N_EMBD);
    assert_eq!(refused(run(buf(20, 1), a.q_a, a.gamma_q, a.q_b, a.kv)), Some(Check::InputLen));
    assert_eq!(refused(run(x, buf(6, 1), a.gamma_q, a.q_b, a.kv)), Some(Check::WeightLen));
    assert_eq!(refused(run(x, a.q_a, buf(7, 1), a.q_b, a.kv)), Some(Check::GammaLen));
    assert_eq!(refused(run(x, a.q_a, a.gamma_q, buf(8, 1), a.kv)), Some(Check::SecondWeightLen));
    assert_eq!(refused(run(x, a.q_a, a.gamma_q, a.q_b, buf(9, 1))), Some(Check::ThirdWeightLen));
    let (qr, heads, kv) = run(x, a.q_a, a.gamma_q, a.q_b, a.kv).unwrap();
    assert_eq!(
        (qr.n_elements, heads.n_elements, kv.n_elements),
        (2 * N_LORA_Q, 2 * Q_DIM, 2 * KV_ROW)
    );
}

#[test]
fn attention_intermediates_have_pools_of_their_own() {
    let mut c = Config::default();
    c.pool_attn = true;
    let mut s = scope_with(c);
    let a = attn();
    let k = 16;
    s.encode_attn_qkv_chain_k(
        &buf(20, k * N_EMBD),
        &a.q_a,
        &a.gamma_q,
        &a.q_b,
        &a.kv,
        N_LORA_Q,
        N_HEAD,
        HEAD_DIM,
        EPS,
        KV_ROW,
        N_EMBD,
        k,
    )
    .unwrap();
    let keys: Vec<PoolKey> = s.pools.entries.iter().map(|e| e.0).collect();
    assert_eq!(
        keys,
        vec![
            PoolKey::AttnQr,
            PoolKey::AttnQrNorm,
            PoolKey::AttnQHeadsRaw,
            PoolKey::AttnQHeads,
            PoolKey::AttnKvRaw,
        ]
    );
    assert_eq!(s.pools.attn_key, None);
}

#[test]
fn the_attention_half_rotates_the_key_value_rows() {
    let a = attn();
    let mut s = scope();
    let half = s
        .encode_layer_attn_half(
            &buf(20, HC),
            &a.hc_fn,
            &a.hc_scale,
            &a.hc_base,
            &a.gamma,
            &a.unit,
            false,
            &a.q_a,
            &a.gamma_q,
            &a.q_b,
            &a.kv,
            &a.gamma_kv,
            N_HC,
            N_EMBD,
            N_LORA_Q,
            N_HEAD,
            HEAD_DIM,
            KV_ROW,
            3,
            EPS,
            EPS,
            &params(),
            9,
        )
        .unwrap();
    assert_eq!(half.normed.n_elements, N_EMBD);
    assert_eq!(half.split.n_elements, 24);
    assert_eq!(half.kv_normed_rotated.n_elements, KV_ROW);
    assert!(s.log.contains(&Command::Buffer(0, half.kv_normed_rotated.buf, 448 * 4)));
    assert!(!interrupted(&s.log));
}

#[test]
fn a_fine_profile_interrupts_the_half() {
    let mut c = Config::default();
    c.profile_fine = true;
    let mut s = scope_with(c);
    attn_chain(&mut s, 2, 0, 2, None).unwrap();
    let stages: Vec<Stage> = s
        .log
        .iter()
        .filter_map(|c| match c {
            Command::CommitWait(_, stage) => Some(*stage),
            _ => None,
        })
        .collect();
    assert_eq!(
        stages,
        vec![
            Stage::AttnHcCollapseK,
            Stage::AttnQkvChainK,
            Stage::AttnKvRmsK,
            Stage::AttnRopeTailK,
        ]
    );
}

#[test]
fn the_attention_chain_is_not_interrupted() {
    let mut s = scope();
    let out = attn_chain(&mut s, 2, 0, 2, None).unwrap();
    assert_eq!(out.n_elements, 2 * N_EMBD);
    assert!(!interrupted(&s.log));
    assert_eq!(refused(attn_chain(&mut s, 2, 0, 3, None)), Some(Check::HeadShape));
}

fn comp(n_comp: u32) -> CompVerifyCtx {
    let c = CompressorInputs {
        w_kv: host(40, 1024 * N_EMBD),
        w_gate: host(41, 1024 * N_EMBD),
        w_kv_f16: None,
        w_gate_f16: None,
        w_ape: host(42, 4096),
        w_norm: host(43, HEAD_DIM),
        head_dim: HEAD_DIM as u32,
        compress_ratio: 4,
    };
    CompVerifyCtx { n_comp, attn_sinks_cpu: host(44, 2), attn_comp: c, idx_comp: c }
}

#[test]
fn a_closed_window_adds_a_row_to_the_ring() {
    let mut s = scope();
    // Positions two to five: position three closes a window.
    attn_chain(&mut s, 4, 2, 2, Some(comp(5))).unwrap();
    assert!(s.log.contains(&Command::CompRing { layer: 0, bytes: 16 * 512 * 4 }));
    assert!(s.log.contains(&Command::CompStateKv { layer: 0, bytes: 64 * 512 }));
    let stored: Vec<u32> = s
        .log
        .iter()
        .filter_map(|c| match c {
            Command::CompStore(c) => {
                assert_eq!(
                    c.ape,
                    Ape::Transposed { host: host(42, 4096), width: 1024, ratio: 4 }
                );
                Some(c.pos)
            }
            _ => None,
        })
        .collect();
    assert_eq!(stored, vec![2, 3, 4, 5]);
    let rows: Vec<u64> = s
        .log
        .iter()
        .filter_map(|c| match c {
            Command::Copy { dst: BufId::CompRing(0), dst_off, bytes, .. } => {
                assert_eq!(*bytes, 2048);
                Some(*dst_off)
            }
            _ => None,
        })
        .collect();
    assert_eq!(rows, vec![5 * 2048]);
    // The old rows are visible from the start, the new one from position four on.
    assert!(s.words.windows(6).any(|w| w == [0, 0, 0, 0, 0, 4]));
}

#[test]
fn an_empty_ring_is_not_attended_to() {
    let mut s = scope();
    attn_chain(&mut s, 4, 2, 2, Some(comp(0))).unwrap();
    assert!(!s.log.iter().any(|c| matches!(c, Command::CompRing { .. })));
}

#[test]
fn short_steps_go_position_by_position() {
    let mut s = scope();
    let out = ffn_chain(&mut s, 0, 2, None).unwrap();
    assert_eq!(out.n_elements, 2 * HC);
    let routed: Vec<u64> = s
        .log
        .iter()
        .filter_map(|c| match c {
            Command::MoeRouted(m) => Some(m.d_ffn),
            _ => None,
        })
        .collect();
    assert_eq!(routed, vec![D_FFN, D_FFN]);
    assert!(!interrupted(&s.log));
}

#[test]
fn long_steps_gather_by_expert() {
    let mut s = scope();
    let out = ffn_chain(&mut s, 0, 128, None).unwrap();
    assert_eq!(out.n_elements, 128 * HC);
    let p = pipes(&s.log);
    assert!(p.contains(&Kernel::MmIdMap0));
    let q4 = |half_rhs| Kernel::MmId(MmIdKernel { quant: MmQuant::Q4_K, half_rhs });
    assert_eq!(p.iter().filter(|k| **k == q4(false)).count(), 2);
    assert_eq!(p.iter().filter(|k| **k == q4(true)).count(), 1);
    assert!(p.contains(&Kernel::MoeSwigluWeightF16));
    assert!(p.contains(&Kernel::Sum6K));
    // Sixteen tokens an expert, in tiles of 32 by 64.
    assert!(s.log.contains(&Command::Dispatch((1, 4, 256), (32, 4, 1))));
}

#[test]
fn the_fused_way_takes_two_launches() {
    let mut c = Config::default();
    c.moe_path = MoePath::Fused;
    let mut s = scope_with(c);
    ffn_chain(&mut s, 0, 2, None).unwrap();
    let p = pipes(&s.log);
    assert!(p.contains(&Kernel::PairSwigluKQ4K));
    assert!(p.contains(&Kernel::Sum6Q4K));
    assert!(!p.contains(&Kernel::MmIdMap0));
    let mut s = BatchScope::new(
        engine(vec![experts(GgmlType::IQ2_XXS, GgmlType::Q2_K)]),
        c,
        PoolState::new(),
    );
    ffn_chain(&mut s, 0, 2, None).unwrap();
    let p = pipes(&s.log);
    assert!(p.contains(&Kernel::PairSwigluKIq2));
    assert!(p.contains(&Kernel::Sum6Q2K));
    let mut s = BatchScope::new(
        engine(vec![experts(GgmlType::Q8_0, GgmlType::Q2_K)]),
        c,
        PoolState::new(),
    );
    assert_eq!(
        ffn_chain(&mut s, 0, 2, None),
        Err(EncodeError::UnsupportedQuants {
            layer: 0,
            gate: GgmlType::Q8_0,
            up: GgmlType::Q8_0,
            down: GgmlType::Q2_K,
        })
    );
}

#[test]
fn missing_experts_are_reported() {
    let mut s = scope();
    assert_eq!(
        ffn_chain(&mut s, 7, 128, None),
        Err(EncodeError::NoExperts { layer: 7, loaded: 3 })
    );
    let mut c = Config::default();
    c.ssd_stream = true;
    let mut s = scope_with(c);
    assert_eq!(ffn_chain(&mut s, 0, 2, None), Err(EncodeError::NoChunkPool { layer: 0 }));
    let mut c = Config::default();
    c.moe_path = MoePath::MmId;
    let mut s = BatchScope::new(
        engine(vec![experts(GgmlType::Other(3), GgmlType::Q2_K)]),
        c,
        PoolState::new(),
    );
    assert_eq!(
        ffn_chain(&mut s, 0, 2, None),
        Err(EncodeError::UnsupportedQuant(GgmlType::Other(3)))
    );
}

#[test]
fn a_stale_chunk_pool_is_filled_first() {
    let mut c = Config::default();
    c.ssd_stream = true;
    let mut e = q4_engine();
    let pool = ExpertBufs {
        gate: BufId::External(200),
        up: BufId::External(201),
        down: BufId::External(202),
    };
    e.chunk_pool = Some(pool);
    let mut s = BatchScope::new(e, c, PoolState::new());
    ffn_chain(&mut s, 0, 2, None).unwrap();
    let at = s
        .log
        .iter()
        .position(|c| *c == Command::RefillChunkPool { layer: 0, prefetch_next: true })
        .unwrap();
    assert!(matches!(s.log[at - 2], Command::CommitWait(_, Stage::SsdChunkPool)));
    assert!(s.log.contains(&Command::Buffer(1, BufId::External(200), 0)));
    assert!(!s.log.contains(&Command::Buffer(1, BufId::External(100), 0)));
}

fn streaming(held: Option<u32>) -> BatchScope {
    let mut c = Config::default();
    c.ssd_stream = true;
    let mut e = q4_engine();
    e.chunk_pool = Some(ExpertBufs {
        gate: BufId::External(200),
        up: BufId::External(201),
        down: BufId::External(202),
    });
    let mut p = PoolState::new();
    p.chunk_layer = held;
    BatchScope::new(e, c, p)
}

fn refills(log: &[Command]) -> Vec<u32> {
    log.iter()
        .filter_map(|c| match c {
            Command::RefillChunkPool { layer, .. } => Some(*layer),
            _ => None,
        })
        .collect()
}

#[test]
fn the_pool_follows_the_layers() {
    let mut s = streaming(Some(2));
    for layer in [0, 1, 1, 2] {
        ffn_chain(&mut s, layer, 2, None).unwrap();
        assert_eq!(s.pools.chunk_layer, Some(layer));
    }
    assert_eq!(refills(&s.log), vec![0, 1, 2]);
    let mut s = streaming(Some(2));
    ffn_chain(&mut s, 2, 2, None).unwrap();
    assert!(refills(&s.log).is_empty());
}

#[test]
fn a_direct_chain_fills_the_pool_too() {
    let mut s = streaming(Some(0));
    let (x, sel, wt) = (buf(1, 2 * N_EMBD), buf(2, 12), buf(3, 12));
    let chain = |s: &mut BatchScope, layer: u32| {
        s.encode_moe_chain_mm_qx_k_auto(layer, &x, &sel, &wt, N_EMBD, D_FFN, 2).unwrap()
    };
    chain(&mut s, 0);
    assert!(refills(&s.log).is_empty());
    chain(&mut s, 1);
    chain(&mut s, 1);
    assert_eq!(refills(&s.log), vec![1]);
    let at = s.log.iter().position(|c| matches!(c, Command::RefillChunkPool { .. })).unwrap();
    assert_eq!(s.log[at], Command::RefillChunkPool { layer: 1, prefetch_next: false });
    assert!(s.log[at..].contains(&Command::Buffer(1, BufId::External(200), 0)));
    assert_eq!(s.into_recording().pools.chunk_layer, Some(1));
}

#[test]
fn a_table_routes_by_token() {
    let table: Vec<i32> = (0..60).collect();
    let mut c = Config::default();
    c.hash_gpu = true;
    let mut s = scope_with(c);
    ffn_chain(&mut s, 0, 2, Some((&table, &[3, 9], 6))).unwrap();
    assert_eq!(s.words, vec![18, 19, 20, 21, 22, 23, 54, 55, 56, 57, 58, 59]);
    assert!(pipes(&s.log).contains(&Kernel::RouterWeightsK));
    assert!(!interrupted(&s.log));
    // On the host the probabilities are read back first.
    let mut s = scope();
    ffn_chain(&mut s, 0, 2, Some((&table, &[3, 9], 6))).unwrap();
    assert!(s.log.iter().any(|c| matches!(
        c,
        Command::Read { n: 512, elem: Elem::F32, .. }
    )));
    let w = s
        .log
        .iter()
        .find_map(|c| match c {
            Command::HashWeights(w) => Some(*w),
            _ => None,
        })
        .unwrap();
    assert_eq!((w.experts_start, w.k_positions, w.k_used), (12, 2, 6));
    assert_eq!(s.words[12..], s.words[..12]);
    let mut s = scope();
    assert_eq!(
        refused(ffn_chain(&mut s, 0, 2, Some((&table, &[3], 6)))),
        Some(Check::TokenCount)
    );
    assert_eq!(
        ffn_chain(&mut s, 0, 2, Some((&table, &[3, 10], 6))),
        Err(EncodeError::NoTableRow { token: 10, k_used: 6, table_len: 60 })
    );
    assert_eq!(
        ffn_chain(&mut s, 0, 2, Some((&table, &[-1, 3], 6))),
        Err(EncodeError::NoTableRow { token: -1, k_used: 6, table_len: 60 })
    );
}

#[test]
fn table_rows_are_cut_and_filled() {
    let table = [10, 11, 12, 20, 21, 22];
    assert_eq!(table_rows(&table, &[1, 0], 3, 2), vec![20, 21, 10, 11]);
    assert_eq!(table_rows(&table, &[1], 3, 5), vec![20, 21, 22, 0, 0]);
    assert_eq!(table_rows(&table, &[0, 1], 0, 2), vec![0, 0, 0, 0]);
    assert_eq!(stray_token(6, &[1, 0], 3), None);
    assert_eq!(stray_token(6, &[1, 2, 5], 3), Some(2));
    assert_eq!(stray_token(0, &[-7], 0), None);
}

#[test]
fn expert_gather_checks_its_shape() {
    let mut s = scope();
    assert_eq!(refused(s.encode_mul_mm_id_map0_k(&buf(1, 11), 256, 2)), Some(Check::SelectedLen));
    assert_eq!(refused(s.encode_mul_mm_id_map0_k(&buf(1, 12), 128, 2)), Some(Check::ExpertCount));
    let (tpe, ids) = s.encode_mul_mm_id_map0_k(&buf(1, 12), 256, 2).unwrap();
    assert_eq!((tpe.n_elements, ids.n_elements), (256, 512));
    let (w, x) = (buf(2, 256 * 256 * 64), buf(3, 2 * 256));
    let mut run = |x: DeferredBuf, tpe: DeferredBuf, ids: DeferredBuf, d_in: u64, slots: u64| {
        s.encode_mul_mm_id_q4_K_k(&w, &x, &tpe, &ids, 256, d_in, 64, 2, slots)
    };
    assert_eq!(refused(run(x, tpe, ids, 0, 1)), Some(Check::ZeroDim));
    assert_eq!(refused(run(x, tpe, ids, 100, 1)), Some(Check::InputAlign));
    assert_eq!(refused(run(x, tpe, ids, 256, 2)), Some(Check::ActivationSlots));
    assert_eq!(refused(run(x, tpe, ids, 256, 6)), Some(Check::InputLen));
    assert_eq!(refused(run(x, buf(4, 1), ids, 256, 1)), Some(Check::MapLen));
    assert_eq!(refused(run(x, tpe, buf(4, 1), 256, 1)), Some(Check::IdsLen));
    assert_eq!(run(x, tpe, ids, 256, 1).unwrap().n_elements, 2 * 6 * 64);
    assert_eq!(
        refused(s.moe_swiglu_weight_k(&buf(1, 12 * 8), &buf(2, 1), &buf(3, 12), 8, 2, false)),
        Some(Check::SecondInputLen)
    );
    assert_eq!(
        refused(s.moe_swiglu_weight_k(&buf(1, 12 * 8), &buf(2, 12 * 8), &buf(3, 1), 8, 2, false)),
        Some(Check::RouteWeightsLen)
    );
    assert_eq!(s.sum6_k(&buf(1, 12 * 8), 8, 2).unwrap().n_elements, 16);
}

#[test]
fn the_grid_can_be_counted_on_the_device() {
    let mut c = Config::default();
    c.moe_grid_indirect = true;
    let mut s = scope_with(c);
    ffn_chain(&mut s, 0, 128, None).unwrap();
    assert!(s.log.contains(&Command::Barrier));
    assert!(s.log.iter().any(|c| matches!(
        c,
        Command::DispatchIndirect { threads: (32, 4, 1), .. }
    )));
    let mut c = Config::default();
    c.moe_grid_wide = true;
    let mut s = scope_with(c);
    ffn_chain(&mut s, 0, 128, None).unwrap();
    assert!(s.log.contains(&Command::Dispatch((24, 4, 256), (32, 4, 1))));
    let mut c = Config::default();
    c.moe_grid_div = Some(1);
    let mut s = scope_with(c);
    ffn_chain(&mut s, 0, 128, None).unwrap();
    assert!(s.log.contains(&Command::Dispatch((4, 4, 256), (32, 4, 1))));
}

#[test]
fn unpooled_gate_and_up_are_apart() {
    let outputs = |config: Config| -> Vec<BufId> {
        let mut s = scope_with(config);
        ffn_chain(&mut s, 0, 128, None).unwrap();
        let at = s
            .log
            .iter()
            .position(|c| {
                *c == Command::Pipeline(Pipe::Special(
                    Kernel::MoeSwigluWeightF16,
                    ds4_metal::kernel::Consts::Plain,
                ))
            })
            .unwrap();
        s.log[at..at + 5]
            .iter()
            .filter_map(|c| match c {
                Command::Buffer(1 | 2, b, _) => Some(*b),
                _ => None,
            })
            .collect()
    };
    let apart = outputs(Config::default());
    assert_ne!(apart[0], apart[1]);
}

#[test]
fn layers_alternate_their_carriers() {
    let mut c = Config::default();
    c.pool_scratch = true;
    let mut s = scope_with(c);
    let first = buf(50, 2 * HC);
    let a = layer(&mut s, &first, 0, 2).unwrap();
    let b = layer(&mut s, &a, 1, 2).unwrap();
    let d = layer(&mut s, &b, 2, 2).unwrap();
    assert_ne!(a.buf, b.buf);
    assert_ne!(b.buf, d.buf);
    assert_eq!(a.buf, d.buf);
    assert!(!interrupted(&s.log));
}

fn mix() -> MtpDraftInputMix {
    MtpDraftInputMix {
        enorm_gamma: buf(60, N_EMBD),
        e_proj_q8: buf(61, N_EMBD * N_EMBD),
        hnorm_gamma: buf(62, N_EMBD),
        h_proj_q8: buf(63, N_EMBD * N_EMBD),
    }
}

#[test]
fn the_drafter_mixes_token_and_streams() {
    let m = mix();
    let mut s = scope();
    let mut run = |tok: DeferredBuf, prev: DeferredBuf, n_hc: u64| {
        s.encode_mtp_input_mix(
            &tok,
            &prev,
            &m.enorm_gamma,
            &m.e_proj_q8,
            &m.hnorm_gamma,
            &m.h_proj_q8,
            N_EMBD,
            n_hc,
            EPS,
        )
    };
    let tok = buf(70, N_EMBD);
    assert_eq!(refused(run(buf(70, 1), buf(71, HC), 4)), Some(Check::InputLen));
    assert_eq!(refused(run(tok, buf(71, 1), 4)), Some(Check::ResidualLen));
    assert_eq!(refused(run(tok, buf(71, 3 * N_EMBD), 3)), Some(Check::Positions));
    assert_eq!(run(tok, buf(71, HC), 4).unwrap().n_elements, HC);
    assert!(pipes(&s.log).contains(&Kernel::MtpInputMix));
}

fn head() -> MtpDraftOutputHead {
    MtpDraftOutputHead {
        unit_gamma_hc: buf(5, HC),
        hc_head_fn: buf(80, HC * N_HC),
        hc_head_scale: buf(81, 1),
        hc_head_base: buf(82, N_HC),
        mtp_norm: buf(83, N_EMBD),
        base_lm_head_q8: buf(84, 1000 * N_EMBD),
    }
}

#[test]
fn the_output_head_gives_a_logit_per_token() {
    let h = head();
    let mut s = scope();
    let mut run = |x: DeferredBuf, u: DeferredBuf, f: DeferredBuf, b: DeferredBuf, n: DeferredBuf| {
        s.encode_mtp_output_head(
            &x,
            &u,
            &f,
            &h.hc_head_scale,
            &b,
            &n,
            &h.base_lm_head_q8,
            N_EMBD,
            N_HC,
            1000,
            EPS,
            EPS,
        )
    };
    let x = buf(71, HC);
    let (u, f, b, n) = (h.unit_gamma_hc, h.hc_head_fn, h.hc_head_base, h.mtp_norm);
    assert_eq!(refused(run(buf(71, 1), u, f, b, n)), Some(Check::InputLen));
    assert_eq!(refused(run(x, buf(5, 1), f, b, n)), Some(Check::UnitGammaLen));
    assert_eq!(refused(run(x, u, buf(80, 1), b, n)), Some(Check::WeightLen));
    assert_eq!(refused(run(x, u, f, buf(82, 1), n)), Some(Check::BaseLen));
    assert_eq!(refused(run(x, u, f, b, buf(83, 1))), Some(Check::GammaLen));
    assert_eq!(run(x, u, f, b, n).unwrap().n_elements, 1000);
    assert_eq!(
        pipes(&s.log),
        vec![
            Kernel::RmsNormMul,
            Kernel::MulMvF32,
            Kernel::MtpOutputHcWeights,
            Kernel::HcWeightedSum,
            Kernel::RmsNormMul,
            Kernel::MulMvQ8,
        ]
    );
}

#[test]
fn the_verifier_head_gives_a_row_per_position() {
    let h = head();
    let mut s = scope();
    let out = s
        .encode_verify_output_head_K(
            &buf(71, 2 * HC),
            &h.unit_gamma_hc,
            &h.hc_head_fn,
            &h.hc_head_scale,
            &h.hc_head_base,
            &h.mtp_norm,
            &h.base_lm_head_q8,
            N_EMBD,
            N_HC,
            1000,
            2,
            EPS,
            EPS,
        )
        .unwrap();
    assert_eq!(out.n_elements, 2000);
    let p = pipes(&s.log);
    assert_eq!(p.iter().filter(|k| **k == Kernel::MulMvF32).count(), 2);
    assert_eq!(p.iter().filter(|k| **k == Kernel::MtpOutputHcWeights).count(), 2);
    assert_eq!(p.iter().filter(|k| **k == Kernel::HcWeightedSum).count(), 1);
}

fn draft_layer() -> MtpDraftLayerWeights {
    let a = attn();
    MtpDraftLayerWeights {
        hc_attn_fn: a.hc_fn,
        hc_attn_scale: a.hc_scale,
        hc_attn_base: a.hc_base,
        attn_norm: a.gamma,
        attn_q_a_q8: a.q_a,
        gamma_q: a.gamma_q,
        attn_q_b_q8: a.q_b,
        attn_kv_q8: a.kv,
        gamma_kv: a.gamma_kv,
        attn_sinks: a.sinks,
        w_o_a_q8: a.o_a,
        w_o_b_q8: a.o_b,
        hc_ffn_fn: a.hc_fn,
        hc_ffn_scale: a.hc_scale,
        hc_ffn_base: a.hc_base,
        ffn_norm: a.gamma,
        w_router: buf(33, N_EXPERTS * N_EMBD),
        router_bias: buf(34, N_EXPERTS),
        sh_w_gate: host(1, SHARED * N_EMBD),
        sh_w_up: host(2, SHARED * N_EMBD),
        sh_w_down: host(3, SHARED * N_EMBD),
        sh_w_gate_q8: host(4, 34),
        sh_w_up_q8: host(5, 34),
        sh_w_down_q8: host(6, 34),
    }
}

fn draft_shape() -> MtpDraftShape {
    MtpDraftShape {
        n_embd: N_EMBD,
        n_hc: N_HC,
        n_lora_q: N_LORA_Q,
        n_head: N_HEAD,
        head_dim: HEAD_DIM,
        kv_row: KV_ROW,
        n_groups: 2,
        n_lora_o: 32,
        group_dim: 512,
        out_low_dim: 64,
        n_experts: N_EXPERTS,
        d_ffn: 0,
        shared_dim: SHARED as u32,
        vocab: 1000,
        sinkhorn_iters: 3,
        hc_eps: EPS,
        rms_eps: EPS,
        flash_scale: EPS,
    }
}

#[test]
fn a_draft_gives_streams_and_logits() {
    let mut s = scope();
    let (out_hc, logits) = s
        .encode_mtp_draft_with_out_hc(
            &buf(71, HC),
            &buf(70, N_EMBD),
            mix(),
            draft_layer(),
            head(),
            draft_shape(),
            &params(),
            2,
            16,
            0,
            0,
            0,
        )
        .unwrap();
    assert_eq!((out_hc.n_elements, logits.n_elements), (HC, 1000));
    let mut t = scope();
    let again = t
        .encode_mtp_draft(
            &buf(71, HC),
            &buf(70, N_EMBD),
            mix(),
            draft_layer(),
            head(),
            draft_shape(),
            &params(),
            2,
            16,
            0,
            0,
            0,
        )
        .unwrap();
    assert_eq!(again, logits);
    assert_eq!(s.log, t.log);
    assert!(!interrupted(&s.log));
}

fn bundle() -> BaseLayerVerifyBundle {
    let l = draft_layer();
    BaseLayerVerifyBundle {
        hc_attn_fn: l.hc_attn_fn,
        hc_attn_scale: l.hc_attn_scale,
        hc_attn_base: l.hc_attn_base,
        attn_norm: l.attn_norm,
        attn_q_a_q8: l.attn_q_a_q8,
        gamma_q: l.gamma_q,
        attn_q_b_q8: l.attn_q_b_q8,
        attn_kv_q8: l.attn_kv_q8,
        gamma_kv: l.gamma_kv,
        attn_sinks: l.attn_sinks,
        w_o_a_q8: l.w_o_a_q8,
        w_o_b_q8: l.w_o_b_q8,
        hc_ffn_fn: l.hc_ffn_fn,
        hc_ffn_scale: l.hc_ffn_scale,
        hc_ffn_base: l.hc_ffn_base,
        ffn_norm: l.ffn_norm,
        w_router: l.w_router,
        router_bias: l.router_bias,
        sh_w_gate: l.sh_w_gate,
        sh_w_up: l.sh_w_up,
        sh_w_down: l.sh_w_down,
        sh_w_gate_q8: l.sh_w_gate_q8,
        sh_w_up_q8: l.sh_w_up_q8,
        sh_w_down_q8: l.sh_w_down_q8,
        attn_compressor_kv: host(40, 1024 * N_EMBD),
        attn_compressor_gate: host(41, 1024 * N_EMBD),
        attn_compressor_ape: host(42, 4096),
        attn_compressor_norm: host(43, HEAD_DIM),
        indexer_compressor_kv: host(45, 0),
        indexer_compressor_gate: host(46, 0),
        indexer_compressor_ape: host(47, 0),
        indexer_compressor_norm: host(48, 0),
        attn_compressor_kv_f16: None,
        attn_compressor_gate_f16: None,
        indexer_compressor_kv_f16: None,
        indexer_compressor_gate_f16: None,
        attn_sinks_cpu: host(44, 2),
        layer_params: params(),
    }
}

fn verify(
    s: &mut BatchScope,
    layers: &[BaseLayerVerifyBundle],
    prev: &DeferredBuf,
    comp: Option<&[u32]>,
) -> Result<DeferredBuf, EncodeError> {
    s.encode_verify_layers_K(
        prev,
        layers,
        &buf(5, HC),
        N_HC,
        N_EMBD,
        N_LORA_Q,
        N_HEAD,
        HEAD_DIM,
        KV_ROW,
        2,
        32,
        512,
        64,
        N_EXPERTS,
        0,
        SHARED as u32,
        3,
        EPS,
        EPS,
        EPS,
        16,
        2,
        2,
        2,
        comp,
    )
}

#[test]
fn verification_runs_every_layer() {
    let layers = [bundle(), bundle(), bundle()];
    let prev = buf(50, 2 * HC);
    let caches = |s: &BatchScope| -> Vec<u32> {
        s.log
            .iter()
            .filter_map(|c| match c {
                Command::KvCache { layer, .. } => Some(*layer),
                _ => None,
            })
            .collect()
    };
    let mut s = scope();
    assert_eq!(verify(&mut s, &layers, &prev, None).unwrap().n_elements, 2 * HC);
    assert_eq!(caches(&s), vec![0, 1, 2]);
    assert!(!interrupted(&s.log));
    let mut c = Config::default();
    c.verify_n_layers = Some(2);
    let mut s = scope_with(c);
    verify(&mut s, &layers, &prev, None).unwrap();
    assert_eq!(caches(&s), vec![0, 1]);
    let mut c = Config::default();
    c.verify_cb_split = Some(1);
    let mut s = scope_with(c);
    verify(&mut s, &layers, &prev, None).unwrap();
    assert_eq!(s.pending_cbs.len(), 2);
}

#[test]
fn verification_checks_its_arguments() {
    let layers = [bundle(), bundle()];
    let prev = buf(50, 2 * HC);
    let mut s = scope();
    assert_eq!(refused(verify(&mut s, &layers, &prev, Some(&[1]))), Some(Check::LayerCount));
    assert_eq!(refused(verify(&mut s, &layers, &buf(50, 1), None)), Some(Check::InputLen));
    assert_eq!(refused(verify(&mut s, &[], &prev, None)), Some(Check::NoLayers));
}

#[test]
fn verification_attends_to_filled_rings_only() {
    let layers = [bundle(), bundle()];
    let prev = buf(50, 2 * HC);
    let mut s = scope();
    verify(&mut s, &layers, &prev, Some(&[0, 3])).unwrap();
    let rings: Vec<u32> = s
        .log
        .iter()
        .filter_map(|c| match c {
            Command::CompRing { layer, .. } => Some(*layer),
            _ => None,
        })
        .collect();
    assert_eq!(rings, vec![1]);
}

#[test]
fn the_batched_chain_is_the_chain() {
    let d = MetalDispatcher {
        engine: q4_engine(),
        config: Config::default(),
        pools: PoolState::new(),
    };
    let a = attn();
    let (x, qa, g, qb, kv) = (
        host(1, N_EMBD),
        host(2, a.q_a.n_elements),
        host(3, N_LORA_Q),
        host(4, a.q_b.n_elements),
        host(5, a.kv.n_elements),
    );
    let r = d
        .attn_qkv_chain_batched(x, qa, g, N_LORA_Q, qb, N_HEAD, HEAD_DIM, EPS, kv, KV_ROW)
        .unwrap_or_else(|e| panic!("refused: {:?}", e));
    let mut s = d.batch_scope();
    let xb = s.upload_f32(x);
    let wqa = s.weight_f32(qa);
    let gb = s.upload_f32(g);
    let wqb = s.weight_f32(qb);
    let wkv = s.weight_f32(kv);
    let (q, h, k) = s
        .encode_attn_qkv_chain(&xb, &wqa, &gb, &wqb, &wkv, N_LORA_Q, N_HEAD, HEAD_DIM, EPS, KV_ROW)
        .unwrap();
    assert_eq!(r.log, s.flush_and_read_multi(&[q, h, k]).log);
    let bad = d.attn_qkv_chain_batched(
        x,
        host(2, 1),
        g,
        N_LORA_Q,
        qb,
        N_HEAD,
        HEAD_DIM,
        EPS,
        kv,
        KV_ROW,
    );
    assert_eq!(refused(bad), Some(Check::WeightLen));
}

#[test]
fn the_key_value_chain_reads_the_row_back() {
    let d = MetalDispatcher {
        engine: q4_engine(),
        config: Config::default(),
        pools: PoolState::new(),
    };
    let p = params();
    let run = |kv: u64, g: u64, p: &LayerParams| {
        d.kv_norm_rope_chain(host(1, kv), host(2, g), p, 3, EPS)
    };
    let r = run(KV_ROW, KV_ROW, &p).unwrap_or_else(|e| panic!("refused: {:?}", e));
    assert!(matches!(r.log.last(), Some(Command::Read { n: KV_ROW, .. })));
    assert!(r.log.iter().any(|c| matches!(c, Command::Buffer(0, _, 1792))));
    assert_eq!(refused(run(1, KV_ROW, &p)), Some(Check::InputLen));
    assert_eq!(refused(run(KV_ROW, 1, &p)), Some(Check::GammaLen));
    let mut wide = p;
    wide.n_rot = 600;
    assert_eq!(refused(run(KV_ROW, KV_ROW, &wide)), Some(Check::RotaryDim));
}

#[test]
fn the_shared_expert_activates_row_by_row_or_at_once() {
    let run = |config: Config| -> Vec<Command> {
        let mut s = scope_with(config);
        s.encode_shared_chain_q8_k(
            &buf(1, 2 * 128),
            &buf(2, 64 * 128),
            &buf(3, 64 * 128),
            &buf(4, 64 * 128),
            128,
            64,
            2,
        )
        .unwrap();
        s.log
    };
    let rows = run(Config::default());
    assert_eq!(pipes(&rows).iter().filter(|k| **k == Kernel::Swiglu).count(), 2);
    let stride = rows
        .iter()
        .find_map(|c| match c {
            Command::Bytes(0, Args::Glu(g)) => Some(g.nb01),
            _ => None,
        })
        .unwrap();
    assert_eq!(stride, 256);
    assert!(rows.iter().any(|c| matches!(c, Command::Buffer(1, _, 256))));
    let mut c = Config::default();
    c.batch_router = true;
    assert_eq!(pipes(&run(c)).iter().filter(|k| **k == Kernel::Swiglu).count(), 1);
    let mut s = scope();
    assert_eq!(
        refused(s.encode_shared_chain_q8_k(&buf(1, 1), &buf(2, 1), &buf(3, 1), &buf(4, 1), 128, 64, 2)),
        Some(Check::InputLen)
    );
    assert_eq!(
        refused(s.encode_shared_chain_q8_k(&buf(1, 256), &buf(2, 1), &buf(3, 1), &buf(4, 1), 128, 63, 2)),
        Some(Check::OutputAlign)
    );
}

#[test]
fn factors_are_cut_and_filled() {
    let f = |v: &[u32]| v.iter().map(|x| F32(*x)).collect::<Vec<F32>>();
    assert_eq!(
        factor_rows(&[f(&[1, 2]), f(&[3, 4])], 2),
        f(&[1, 2, 0, 0, 0, 0, 3, 4, 0, 0, 0, 0])
    );
    assert_eq!(factor_rows(&[f(&[1, 2, 3, 4, 5, 6, 7])], 7), f(&[1, 2, 3, 4, 5, 6]));
    assert_eq!(factor_rows(&[], 6), f(&[]));
}
