use ds4_metal::arith::pow2_at_least;
use ds4_metal::command::{
    Args, BufId, Command, DeferredBuf, F32, Groups, HostRef, MulMvArgs, RopeArgs,
};
use ds4_metal::compress::transpose_ape;
use ds4_metal::config::{Config, Engine, KvMerge, LayerParams};
use ds4_metal::error::{Check, EncodeError};
use ds4_metal::kernel::{Consts, Kernel, Pipe};
use ds4_metal::pool::PoolState;
use ds4_metal::scope::BatchScope;
use ds4_metal::trace::{group_count, group_threads};

const EPS: F32 = F32(0x3586_37bd);

fn loaded() -> Vec<Kernel> {
    vec![
        Kernel::RmsNormMul,
        Kernel::HeadRmsNorm,
        Kernel::RopeTail,
        Kernel::CompressorPrefillNoidx,
        Kernel::CompressorPoolFillNoidx,
        Kernel::HcExpand,
        Kernel::HcSplitNorm4,
        Kernel::KvFp8Store,
        Kernel::KvFp8StoreK,
        Kernel::Swiglu,
        Kernel::SoftplusSqrt,
        Kernel::RouterFinalizeOne,
        Kernel::RouterFinalizeOneAny,
        Kernel::RouterWeightsOne,
        Kernel::RouterWeightsOneAny,
        Kernel::RouterWeightsK,
    ]
}

fn engine(loaded: Vec<Kernel>) -> Engine {
    Engine {
        loaded,
        experts: vec![],
        expert_caches: vec![],
        chunk_pool: None,
        router_scale: F32(1.5f32.to_bits()),
        attn_out_low_k: false,
    }
}

fn scope_with(config: Config) -> BatchScope {
    BatchScope::new(engine(loaded()), config, PoolState::new())
}

fn scope() -> BatchScope {
    scope_with(Config::default())
}

fn buf(id: u64, n: u64) -> DeferredBuf {
    DeferredBuf::from_external_buffer(BufId::External(id), n)
}

fn host(id: u64, len: u64) -> HostRef {
    HostRef { id, len }
}

fn params() -> LayerParams {
    LayerParams {
        n_head: 2,
        head_dim: 512,
        n_lora_kv: 512,
        n_rot: 64,
        compress_ratio: 4,
        rope_freq_base: F32(1),
        rope_freq_scale: F32(2),
        rope_ext_factor: F32(3),
        rope_attn_factor: F32(4),
        rope_orig_ctx: 4096,
    }
}

fn refused<T>(r: Result<T, EncodeError>) -> Option<Check> {
    match r {
        Err(EncodeError::Shape(refusal)) => Some(refusal.check),
        _ => None,
    }
}

fn dispatches(log: &[Command]) -> Vec<((u64, u64, u64), (u64, u64, u64))> {
    log.iter()
        .filter_map(|c| match c {
            Command::Dispatch(g, t) => Some((*g, *t)),
            _ => None,
        })
        .collect()
}

#[test]
fn q8_matvec_is_laid_out_by_blocks() {
    let mut s = scope();
    let out = s.matvec_q8_0(&buf(1, 64 * 32), &buf(2, 64), 64, 32).unwrap();
    assert_eq!(out.n_elements, 32);
    let args = MulMvArgs {
        ne00: 64,
        ne01: 32,
        ne02: 1,
        nb00: 2,
        nb01: 68,
        nb02: 2176,
        nb03: 2176,
        ne10: 64,
        ne11: 1,
        ne12: 1,
        nb10: 4,
        nb11: 256,
        nb12: 256,
        nb13: 256,
        ne0: 32,
        ne1: 1,
        nr0: 2,
        r2: 1,
        r3: 1,
    };
    assert_eq!(
        s.log[1..],
        [
            Command::Encoder,
            Command::NewBuffer { elem: ds4_metal::command::Elem::F32, n: 32 },
            Command::Pipeline(Pipe::Special(
                Kernel::MulMvQ8,
                Consts::Rows { nsg: 4, nxpsg: 4 }
            )),
            Command::Bytes(0, Args::MulMv(args)),
            Command::Buffer(1, BufId::External(1), 0),
            Command::Buffer(2, BufId::External(2), 0),
            Command::Buffer(3, out.buf, 0),
            Command::GroupMemory(256),
            Command::Dispatch((16, 1, 1), (32, 4, 1)),
            Command::EndEncoder,
        ]
    );
}

#[test]
fn q8_matvec_refuses_what_does_not_fit() {
    let mut s = scope();
    assert_eq!(refused(s.matvec_q8_0(&buf(1, 65), &buf(2, 32), 32, 2)), Some(Check::WeightLen));
    assert_eq!(refused(s.matvec_q8_0(&buf(1, 64), &buf(2, 31), 32, 2)), Some(Check::InputLen));
    assert_eq!(refused(s.matvec_q8_0(&buf(1, 66), &buf(2, 33), 33, 2)), Some(Check::InputAlign));
    assert_eq!(refused(s.matvec_q8_0(&buf(1, 96), &buf(2, 32), 32, 3)), Some(Check::OutputAlign));
}

#[test]
fn tall_matrices_take_fewer_simdgroups() {
    let mut s = scope();
    s.matvec_q8_0(&buf(1, 32 * 1024), &buf(2, 32), 32, 1024).unwrap();
    s.matvec_q8_0(&buf(1, 32 * 8192), &buf(2, 32), 32, 8192).unwrap();
    let d = dispatches(&s.log);
    assert_eq!(d[0], ((512, 1, 1), (32, 2, 1)));
    assert_eq!(d[1], ((4096, 1, 1), (32, 1, 1)));
    let mut c = Config::default();
    c.q8_nsg = Some(7);
    let mut s = scope_with(c);
    s.matvec_q8_0(&buf(1, 64), &buf(2, 32), 32, 2).unwrap();
    assert_eq!(dispatches(&s.log)[0].1, (32, 7, 1));
}

#[test]
fn several_positions_at_once_are_one_two_four_or_eight() {
    let mut s = scope();
    let out = s.matvec_k_q8_0(&buf(1, 128 * 64), &buf(2, 4 * 128), 128, 64, 4).unwrap();
    assert_eq!(out.n_elements, 256);
    assert!(s.log.contains(&Command::Pipeline(Pipe::Special(
        Kernel::MulMvKQ8,
        Consts::Positions { nsg: 4, positions: 4 }
    ))));
    assert_eq!(dispatches(&s.log), vec![((2, 1, 1), (32, 4, 1))]);
    assert_eq!(
        refused(s.matvec_k_q8_0(&buf(1, 128 * 64), &buf(2, 3 * 128), 128, 64, 3)),
        Some(Check::Positions)
    );
}

#[test]
fn the_kernel_follows_the_number_of_positions() {
    let kernel = |config: Config, k: u64| -> Kernel {
        let mut s = scope_with(config);
        s.matmul_k_q8_0_auto(&buf(1, 64 * 32), &buf(2, k * 64), 64, 32, k).unwrap();
        let p = s.log.iter().find_map(|c| match c {
            Command::Pipeline(Pipe::Special(k, _)) => Some(*k),
            _ => None,
        });
        p.unwrap()
    };
    let standard = Config::default();
    for k in [1, 2, 4] {
        assert_eq!(kernel(standard, k), Kernel::MulMvKQ8);
    }
    for k in [3, 5, 8, 16] {
        assert_eq!(kernel(standard, k), Kernel::MulMmQ8F32);
    }
    let mut eight = Config::default();
    eight.k8_matvec = true;
    assert_eq!(kernel(eight, 8), Kernel::MulMvKQ8);
}

#[test]
fn row_groups_are_fours_twos_and_ones() {
    let mut c = Config::default();
    c.matmul_k_pertok = true;
    let mut s = scope_with(c);
    s.matmul_k_q8_0_auto(&buf(1, 64 * 32), &buf(2, 7 * 64), 64, 32, 7).unwrap();
    let groups: Vec<i16> = s
        .log
        .iter()
        .filter_map(|c| match c {
            Command::Pipeline(Pipe::Special(_, Consts::Positions { positions, .. })) => {
                Some(*positions)
            }
            _ => None,
        })
        .collect();
    assert_eq!(groups, vec![4, 2, 1]);
}

#[test]
fn gemm_refuses_empty_dimensions() {
    let mut s = scope();
    assert_eq!(refused(s.matmul_k_q8_0(&buf(1, 0), &buf(2, 0), 0, 2, 1)), Some(Check::ZeroDim));
    let out = s.matmul_k_q8_0(&buf(1, 64 * 32), &buf(2, 16 * 64), 64, 32, 16).unwrap();
    assert_eq!(out.n_elements, 512);
    assert_eq!(*dispatches(&s.log).last().unwrap(), ((1, 1, 1), (128, 1, 1)));
}

#[test]
fn requantised_weights_are_kept() {
    let mut c = Config::default();
    c.attn_q4 = true;
    let mut s = scope_with(c);
    let w = buf(1, 64 * 32);
    s.matmul_k_attn_proj(&w, &buf(2, 16 * 64), 64, 32, 16).unwrap();
    s.matmul_k_attn_proj(&w, &buf(2, 16 * 64), 64, 32, 16).unwrap();
    let made = s.log.iter().filter(|c| matches!(c, Command::Requantize { .. })).count();
    assert_eq!(made, 1);
    assert_eq!(s.pools.find_requant(BufId::External(1)), Some(0));
    assert_eq!(s.pools.find_requant(BufId::External(2)), None);
}

#[test]
fn the_concurrent_pair_writes_apart() {
    let mut s = scope();
    let x = buf(9, 32);
    let (a, b) = s
        .matvec_q8_0_pair_concurrent(&buf(1, 64), &x, 32, 2, &buf(2, 128), &x, 32, 4)
        .unwrap();
    assert_ne!(a.buf, b.buf);
    assert_eq!((a.n_elements, b.n_elements), (2, 4));
    assert_eq!(s.log[1], Command::ConcurrentEncoder);
    assert_eq!(s.log.iter().filter(|c| **c == Command::EndEncoder).count(), 1);
}

#[test]
fn argmax_looks_at_the_first_n() {
    let mut s = scope();
    let out = s.argmax(&buf(1, 10), 8).unwrap();
    assert_eq!(out.n_elements, 1);
    assert!(s.log.contains(&Command::Bytes(2, Args::U32(8))));
}

#[test]
fn norms_check_their_factors() {
    let mut s = scope();
    assert_eq!(refused(s.rms_norm_mul(&buf(1, 8), &buf(2, 4), EPS)), Some(Check::GammaLen));
    assert_eq!(refused(s.rms_norm_mul(&buf(1, 6), &buf(2, 6), EPS)), Some(Check::InputAlign));
    assert_eq!(refused(s.rms_norm_mul_k(&buf(1, 9), &buf(2, 4), 4, 2, EPS)), Some(Check::InputLen));
    assert_eq!(refused(s.head_rms_norm(&buf(1, 9), 2, 4, EPS)), Some(Check::InputLen));
    assert_eq!(refused(s.head_rms_norm(&buf(1, 0), 2, 0, EPS)), Some(Check::HeadDim));
    assert_eq!(s.rms_norm_mul(&buf(1, 8), &buf(2, 8), EPS).unwrap().n_elements, 8);
    let mut none = BatchScope::new(engine(vec![]), Config::default(), PoolState::new());
    assert_eq!(
        none.rms_norm_mul(&buf(1, 8), &buf(2, 8), EPS),
        Err(EncodeError::NotLoaded(Kernel::RmsNormMul))
    );
    assert_eq!(none.log.len(), 1);
}

#[test]
fn rotation_turns_the_tail_of_each_head() {
    let mut s = scope();
    let kv = buf(1, 512);
    s.rope_tail_in_place(&kv, 448 * 4, 1, &params(), 7, false).unwrap();
    let args = RopeArgs {
        head_dim: 64,
        n_rot: 64,
        freq_base: F32(1),
        freq_scale: F32(2),
        ext_factor: F32(3),
        attn_factor: F32(4),
        orig_ctx: 4096,
        pos: 7,
        n_heads: 1,
        elem_stride: 4,
        head_bytes: 256,
        plane_bytes: 256,
        backward: false,
    };
    assert!(s.log.contains(&Command::Rope(args)));
    assert!(s.log.contains(&Command::UploadWord(7)));
    assert!(s.log.contains(&Command::Buffer(0, kv.buf, 1792)));
    assert_eq!(dispatches(&s.log), vec![((1, 1, 1), (32, 1, 1))]);
    assert_eq!(
        refused(s.rope_tail_in_place(&kv, 449 * 4, 1, &params(), 7, false)),
        Some(Check::SpanEnd)
    );
    let mut odd = params();
    odd.n_rot = 3;
    assert_eq!(refused(s.rope_tail_in_place(&kv, 0, 1, &odd, 7, false)), Some(Check::RotaryDim));
}

#[test]
fn rotation_of_several_rows_agrees_with_single_rows() {
    let q = buf(1, 2 * 2 * 512);
    let mut fused = scope();
    fused.rope_tail_q_heads_in_place_k(&q, 2, 512, &params(), 10, 2, false).unwrap();
    assert_eq!(dispatches(&fused.log), vec![((2, 2, 1), (32, 1, 1))]);
    let mut c = Config::default();
    c.rope_per_k = true;
    let mut single = scope_with(c);
    single.rope_tail_q_heads_in_place_k(&q, 2, 512, &params(), 10, 2, false).unwrap();
    assert_eq!(dispatches(&single.log).len(), 2);
    // Row one starts a whole row behind row zero.
    assert!(fused.log.contains(&Command::Buffer(0, q.buf, 448 * 4)));
    assert!(single.log.contains(&Command::Buffer(0, q.buf, 448 * 4)));
    assert!(single.log.contains(&Command::Buffer(0, q.buf, (1024 + 448) * 4)));
    assert!(single.log.contains(&Command::UploadWord(11)));
}

#[test]
fn expansion_of_several_positions_agrees_with_single_ones() {
    let block = buf(1, 2 * 8);
    let res = buf(2, 2 * 2 * 8);
    let split = buf(3, 2 * 8);
    let mut fused = scope();
    let out = fused.hc_expand_attn_split_k(&block, &res, &split, 2, 8, 2).unwrap();
    assert_eq!(out.n_elements, 32);
    let all = fused
        .log
        .iter()
        .find_map(|c| match c {
            Command::Bytes(0, Args::HcExpand(a)) => Some(*a),
            _ => None,
        })
        .unwrap();
    assert_eq!(all.n_tokens, 2);
    let mut c = Config::default();
    c.hc_expand_per_k = true;
    let mut single = scope_with(c);
    let out = single.hc_expand_attn_split_k(&block, &res, &split, 2, 8, 2).unwrap();
    let binds = |slot: u64| -> Vec<u64> {
        single
            .log
            .iter()
            .filter_map(|c| match c {
                Command::Buffer(s, _, off) if *s == slot => Some(*off),
                _ => None,
            })
            .collect()
    };
    assert_eq!(out.n_elements, 32);
    assert_eq!(binds(1), vec![0, all.nb_block1]);
    assert_eq!(binds(2), vec![0, all.nb_res2]);
    assert_eq!(binds(3), vec![8, 8 + all.nb_post1]);
    assert_eq!(binds(4), vec![16, 16 + all.nb_comb2]);
    assert_eq!(binds(6), vec![0, all.nb2]);
}

#[test]
fn expansion_checks_every_length() {
    let mut s = scope();
    let b = buf(1, 8);
    let res = buf(2, 16);
    let split = buf(3, 8);
    assert_eq!(
        refused(s.hc_expand_add_split(&buf(1, 7), &b, &res, &split, 2, 8)),
        Some(Check::InputLen)
    );
    assert_eq!(
        refused(s.hc_expand_add_split_k(&b, &buf(1, 7), &res, &split, 2, 8, 1)),
        Some(Check::SecondInputLen)
    );
    assert_eq!(
        refused(s.hc_expand_add_split(&b, &b, &buf(2, 15), &split, 2, 8)),
        Some(Check::ResidualLen)
    );
    assert_eq!(
        refused(s.hc_expand_add_split(&b, &b, &res, &buf(3, 9), 2, 8)),
        Some(Check::SplitLen)
    );
    assert_eq!(
        refused(s.hc_expand_attn(&b, &res, &buf(4, 3), &buf(5, 4), 2, 8)),
        Some(Check::PostLen)
    );
    assert_eq!(
        refused(s.hc_expand_attn(&b, &res, &buf(4, 2), &buf(5, 5), 2, 8)),
        Some(Check::CombLen)
    );
    assert_eq!(s.hc_expand_add_split(&b, &b, &res, &split, 2, 8).unwrap().n_elements, 16);
}

#[test]
fn collapse_checks_every_length() {
    let mut s = scope();
    let hc = 4 * 4096;
    let (prev, f, scale, base, gamma, unit) =
        (buf(1, hc), buf(2, hc * 24), buf(3, 3), buf(4, 24), buf(5, 4096), buf(6, hc));
    let mut run = |p: DeferredBuf,
                   f: DeferredBuf,
                   sc: DeferredBuf,
                   b: DeferredBuf,
                   g: DeferredBuf,
                   u: DeferredBuf| {
        s.hc_collapse_norm(&p, &f, &sc, &b, &g, 4, 4096, 3, EPS, EPS, &u, false)
    };
    assert_eq!(refused(run(buf(1, 15), f, scale, base, gamma, unit)), Some(Check::InputLen));
    assert_eq!(refused(run(prev, buf(2, 1), scale, base, gamma, unit)), Some(Check::WeightLen));
    assert_eq!(refused(run(prev, f, scale, base, gamma, buf(6, 15))), Some(Check::UnitGammaLen));
    let (split, cur, normed) = run(prev, f, scale, base, gamma, unit).unwrap();
    assert_eq!((split.n_elements, cur.n_elements, normed.n_elements), (24, 4096, 4096));
    assert_eq!(refused(run(prev, f, buf(3, 2), base, gamma, unit)), Some(Check::ScaleLen));
    assert_eq!(refused(run(prev, f, scale, buf(4, 7), gamma, unit)), Some(Check::BaseLen));
    assert_eq!(refused(run(prev, f, scale, base, buf(5, 7), unit)), Some(Check::GammaLen));
    assert_eq!(
        refused(s.hc_collapse_norm(
            &buf(1, 16),
            &buf(2, 16 * 8),
            &scale,
            &buf(4, 8),
            &buf(5, 8),
            2,
            8,
            3,
            EPS,
            EPS,
            &buf(6, 16),
            false
        )),
        Some(Check::HeadShape)
    );
}

#[test]
fn the_cache_takes_rows_at_their_slots() {
    let rows = buf(1, 2 * 512);
    let mut s = scope();
    let cache = s.kv_fp8_store_persistent_k(3, &rows, &params(), 16, 5, 2).unwrap();
    assert_eq!(cache, DeferredBuf { buf: BufId::KvCache(3), n_elements: 16 * 512 });
    assert!(s.log.contains(&Command::KvCache { layer: 3, bytes: 16 * 512 * 4 }));
    let mut c = Config::default();
    c.kv_merge = KvMerge::Off;
    let mut single = scope_with(c);
    single.kv_fp8_store_persistent_k(3, &rows, &params(), 16, 5, 2).unwrap();
    assert!(single.log.contains(&Command::Bytes(4, Args::U32(5))));
    assert!(single.log.contains(&Command::Bytes(4, Args::U32(6))));
    assert!(single.log.contains(&Command::Buffer(1, rows.buf, 2048)));
    assert_eq!(
        refused(s.kv_fp8_store_persistent_k(3, &buf(1, 9), &params(), 16, 5, 2)),
        Some(Check::InputLen)
    );
    assert_eq!(
        refused(s.kv_fp8_store_persistent_k(3, &rows, &params(), 0, 0, 2)),
        Some(Check::RingCapacity)
    );
    assert_eq!(
        refused(s.kv_fp8_store_persistent_k(3, &rows, &params(), 6, 5, 2)),
        Some(Check::SlotRange)
    );
}

#[test]
fn a_wrapped_window_comes_out_in_order() {
    let mut s = scope();
    let out = buf(1, 64);
    s.gather_ring_window(BufId::KvCache(0), &out, 2, 8, 14, 5, 4);
    let copies: Vec<&Command> =
        s.log.iter().filter(|c| matches!(c, Command::Copy { .. })).collect();
    // Positions 14 and 15 lie in slots 6 and 7, positions 16 to 18 in slots 0 to 2.
    assert_eq!(
        copies,
        vec![
            &Command::Copy {
                src: BufId::KvCache(0),
                src_off: 96,
                dst: out.buf,
                dst_off: 32,
                bytes: 32,
            },
            &Command::Copy {
                src: BufId::KvCache(0),
                src_off: 0,
                dst: out.buf,
                dst_off: 64,
                bytes: 48,
            },
        ]
    );
    let before = s.log.len();
    s.gather_ring_window(BufId::KvCache(0), &out, 0, 8, 14, 0, 4);
    assert_eq!(s.log.len(), before);
}

#[test]
fn attention_of_several_positions_checks_its_shape() {
    let mut s = scope();
    let (q, kv, sinks) = (buf(1, 2 * 3 * 512), buf(2, 16 * 512), buf(3, 3));
    let scale = F32(0);
    let out = s.flash_attn_k_mla(&q, &kv, 3, 512, 512, 16, 2, scale, 9, &sinks).unwrap();
    assert_eq!(out.n_elements, 2 * 3 * 512);
    assert_eq!(dispatches(&s.log), vec![((3, 1, 1), (32, 4, 1))]);
    assert_eq!(
        refused(s.flash_attn_k_mla(&buf(1, 1), &kv, 3, 512, 512, 16, 2, scale, 9, &sinks)),
        Some(Check::InputLen)
    );
    assert_eq!(
        refused(s.flash_attn_k_mla(&q, &kv, 3, 512, 512, 16, 2, scale, 9, &buf(3, 2))),
        Some(Check::SinksLen)
    );
    assert_eq!(
        refused(s.flash_attn_k_mla(&buf(1, 6 * 256), &kv, 3, 256, 512, 16, 2, scale, 9, &sinks)),
        Some(Check::HeadDim)
    );
    assert_eq!(
        refused(s.flash_attn_k_mla(&q, &kv, 3, 512, 512, 15, 2, scale, 9, &sinks)),
        Some(Check::CacheAlign)
    );
    assert_eq!(
        refused(s.flash_attn_k_mla(&buf(1, 9 * 512), &kv, 3, 512, 512, 16, 3, scale, 9, &sinks)),
        Some(Check::Positions)
    );
    assert_eq!(
        refused(s.flash_attn_k_mla_comp(
            &q,
            &kv,
            BufId::CompRing(0),
            2,
            &[0],
            3,
            512,
            512,
            16,
            2,
            scale,
            9,
            &sinks
        )),
        Some(Check::AvailLen)
    );
    assert_eq!(
        refused(s.flash_attn_k_mla_comp_masked(
            &q,
            &kv,
            BufId::CompRing(0),
            2,
            host(1, 7),
            3,
            512,
            512,
            16,
            2,
            scale,
            &sinks
        )),
        Some(Check::MaskLen)
    );
}

#[test]
fn output_projection_checks_its_shape() {
    let mut s = scope();
    let (heads, a, b) = (buf(1, 2 * 64), buf(2, 64 * 64), buf(3, 64 * 32));
    let (low, out) =
        s.encode_attn_output_matmuls_q8(&heads, &a, &b, 2, 32, 64, 64, 32).unwrap();
    assert_eq!((low.n_elements, out.n_elements), (64, 32));
    assert_eq!(
        refused(s.encode_attn_output_matmuls_q8(&buf(1, 3), &a, &b, 2, 32, 64, 64, 32)),
        Some(Check::InputLen)
    );
    assert_eq!(
        refused(s.encode_attn_output_matmuls_q8(&heads, &a, &b, 2, 32, 64, 65, 32)),
        Some(Check::LowDim)
    );
    assert_eq!(
        refused(s.encode_attn_output_matmuls_q8(&heads, &buf(2, 1), &b, 2, 32, 64, 64, 32)),
        Some(Check::WeightLen)
    );
}

#[test]
fn the_router_checks_its_shape() {
    let mut s = scope();
    let probs = s.encode_router_logits_k(&buf(1, 256 * 8), &buf(2, 16), 256, 8, 2, false).unwrap();
    assert_eq!(probs.n_elements, 512);
    let routes = s.encode_router_finalize_k(&probs, &buf(3, 256), 2).unwrap();
    assert_eq!(routes.len(), 2);
    let (sel, wt) = s.flatten_router_output_k(&routes).unwrap();
    assert_eq!((sel.n_elements, wt.n_elements), (12, 12));
    let flat = s.encode_router_finalize_flat_k(&probs, &buf(3, 256), 2).unwrap();
    assert_eq!((flat.0.n_elements, flat.1.n_elements), (12, 12));
    assert_eq!(
        refused(s.encode_router_logits_k(&buf(1, 9), &buf(2, 16), 256, 8, 2, false)),
        Some(Check::WeightLen)
    );
    assert_eq!(refused(s.encode_router_finalize(&buf(1, 256), &buf(3, 255))), Some(Check::BiasLen));
    assert_eq!(
        refused(s.encode_router_weights_one(&buf(1, 256), &buf(4, 5))),
        Some(Check::SelectedLen)
    );
    assert_eq!(refused(s.softplus_sqrt(&buf(1, 6))), Some(Check::InputAlign));
}

#[test]
fn the_indexer_checks_its_shape() {
    let mut s = scope();
    let scores = s
        .encode_indexer_scores_tiled(&buf(1, 2 * 64 * 128), &buf(2, 128), &buf(3, 5 * 128), 5, 2, 64, 128, 0, 4)
        .unwrap();
    assert_eq!(scores.n_elements, 10);
    assert_eq!(
        refused(s.encode_indexer_scores_tiled(&buf(1, 1), &buf(2, 128), &buf(3, 640), 5, 2, 63, 128, 0, 4)),
        Some(Check::HeadShape)
    );
    assert_eq!(
        refused(s.encode_indexer_scores_tiled(&buf(1, 2 * 64 * 128), &buf(2, 128), &buf(3, 641), 5, 2, 64, 128, 0, 4)),
        Some(Check::RingLen)
    );
    assert_eq!(
        refused(s.encode_indexer_scores_tiled(&buf(1, 2 * 64 * 128), &buf(2, 1), &buf(3, 640), 5, 2, 64, 128, 0, 4)),
        Some(Check::RouteWeightsLen)
    );
    assert_eq!(s.encode_indexer_topk_batched(&scores, 5, 2, 3).unwrap().n_elements, 6);
    assert_eq!(refused(s.encode_indexer_topk_batched(&scores, 5, 2, 6)), Some(Check::TopK));
    assert_eq!(refused(s.encode_indexer_topk_batched(&buf(1, 9), 5, 2, 3)), Some(Check::ScoresLen));
    let many = buf(4, 2 * 2048);
    s.encode_indexer_topk_batched(&many, 2048, 2, 3).unwrap();
    assert!(s.log.contains(&Command::Pipeline(Pipe::Special(
        Kernel::IndexerTopkThresholdBatched,
        Consts::Plain
    ))));
}

#[test]
fn compression_of_a_chunk_checks_its_shape() {
    let mut s = scope();
    let ring = BufId::CompRing(0);
    let p = params();
    s.compressor_prefill_noidx(
        &buf(1, 2 * 8 * 512),
        &buf(2, 2 * 8 * 512),
        host(1, 512 * 8),
        host(2, 512),
        ring,
        512,
        8,
        64,
        0,
        3,
        2,
        &p,
        EPS,
    )
    .unwrap();
    assert_eq!(
        refused(s.compressor_prefill_noidx(
            &buf(1, 2 * 8 * 512),
            &buf(2, 2 * 8 * 512),
            host(1, 1),
            host(2, 512),
            ring,
            512,
            8,
            64,
            0,
            3,
            2,
            &p,
            EPS,
        )),
        Some(Check::ApeLen)
    );
    assert_eq!(
        refused(s.compressor_prefill_noidx(
            &buf(1, 2 * 8 * 512),
            &buf(2, 2 * 8 * 512),
            host(1, 512 * 8),
            host(2, 3),
            ring,
            512,
            8,
            64,
            0,
            3,
            2,
            &p,
            EPS,
        )),
        Some(Check::NormLen)
    );
}

#[test]
fn positional_factors_are_transposed() {
    // Two columns of three rows, column by column, to three rows of two.
    assert_eq!(transpose_ape(&[1, 2, 3, 4, 5, 6], 2, 3), vec![1, 4, 2, 5, 3, 6]);
}

#[test]
fn groups_cover_what_they_are_asked_to() {
    assert_eq!(group_threads(300, true, 256), 256);
    assert_eq!(group_threads(100, true, 256), 100);
    assert_eq!(group_threads(0, true, 256), 1);
    assert_eq!(group_count(Groups::Cover(1000), 256), 4);
    assert_eq!(group_count(Groups::Count(7), 256), 7);
    assert_eq!(pow2_at_least(200), 256);
    assert_eq!(pow2_at_least(256), 256);
    assert_eq!(pow2_at_least(1), 1);
}
