//! Representative shapes: what is accepted, how long the results are, and which
//! launches several positions take next to single ones.

use ds4_metal::command::{Args, BufId, Command, DeferredBuf, Elem, F32, HostRef};
use ds4_metal::config::{Config, Engine, KvMerge, LayerParams};
use ds4_metal::error::{Check, EncodeError, Refusal};
use ds4_metal::kernel::{Kernel, Pipe};
use ds4_metal::pool::PoolState;
use ds4_metal::scope::{BatchScope, Recording};

fn bits(x: f32) -> F32 {
    F32(x.to_bits())
}

fn unfit<T>(check: Check, got: u64, want: u64) -> Result<T, EncodeError> {
    Err(EncodeError::Shape(Refusal { check, got, want }))
}

fn scope_with(config: Config) -> BatchScope {
    let engine = Engine {
        loaded: vec![
            Kernel::RmsNormMul,
            Kernel::HeadRmsNorm,
            Kernel::RopeTail,
            Kernel::HcExpand,
            Kernel::HcSplitNorm4,
            Kernel::KvFp8Store,
            Kernel::KvFp8StoreK,
            Kernel::Swiglu,
        ],
        experts: vec![],
        expert_caches: vec![],
        chunk_pool: None,
        router_scale: bits(1.5),
        attn_out_low_k: true,
    };
    BatchScope::new(engine, config, PoolState::new())
}

fn scope() -> BatchScope {
    scope_with(Config::default())
}

fn host(id: u64, len: u64) -> HostRef {
    HostRef { id, len }
}

fn q8(s: &mut BatchScope, id: u64, d_out: u64, d_in: u64) -> DeferredBuf {
    s.weight_q8_0_raw(host(id, d_out * (d_in / 32) * 34), d_out * d_in)
}

fn read_lengths(r: &Recording) -> Vec<u64> {
    r.log
        .iter()
        .filter_map(|c| match c {
            Command::Read { n, elem: Elem::F32, .. } => Some(*n),
            _ => None,
        })
        .collect()
}

fn launches(log: &[Command], kernel: Kernel) -> usize {
    log.iter()
        .filter(|c| match c {
            Command::Pipeline(Pipe::Loaded(k)) | Command::Pipeline(Pipe::Special(k, _)) => {
                *k == kernel
            }
            _ => false,
        })
        .count()
}

fn layer_params(n_head: u32, head_dim: u32, n_rot: u32, n_lora_kv: u32) -> LayerParams {
    LayerParams {
        n_head,
        head_dim,
        n_lora_kv,
        n_rot,
        compress_ratio: 1,
        rope_freq_base: bits(10000.0),
        rope_freq_scale: bits(1.0),
        rope_ext_factor: bits(0.0),
        rope_attn_factor: bits(1.0),
        rope_orig_ctx: 4096,
    }
}

#[test]
fn matvec_k_q8_0_smoke() {
    let (d_in, d_out) = (128, 64);
    let mut s = scope();
    let w = q8(&mut s, 1, d_out, d_in);
    let x4 = s.upload_f32(host(2, 4 * d_in));
    let out4 = s.matvec_k_q8_0(&w, &x4, d_in, d_out, 4).unwrap();
    let x1 = s.upload_f32(host(3, d_in));
    let out1 = s.matvec_k_q8_0(&w, &x1, d_in, d_out, 1).unwrap();
    assert_eq!(out4.len(), 4 * d_out);
    assert_eq!(out1.len(), d_out);
    let r = s.flush_and_read_multi(&[out4, out1]);
    assert_eq!(read_lengths(&r), vec![4 * d_out, d_out]);
    assert_eq!(launches(&r.log, Kernel::MulMvKQ8), 2);
}

#[test]
fn matvec_f16_matches_matvec_f32_oracle() {
    for (d_in, d_out) in [(512u64, 256u64), (512, 1024)] {
        let mut s = scope();
        let x = s.upload_f32(host(1, d_in));
        let w32 = s.weight_f32(host(2, d_in * d_out));
        let w16 = s.weight_f16(host(3, d_in * d_out * 2));
        let out32 = s.matvec_f32(&w32, &x, d_in, d_out).unwrap();
        let out16 = s.matvec_f16(&w16, &x, d_in, d_out).unwrap();
        let r = s.flush_and_read_multi(&[out32, out16]);
        assert_eq!(read_lengths(&r), vec![d_out, d_out]);
        assert_eq!(launches(&r.log, Kernel::MulMvF32), 1);
        assert_eq!(launches(&r.log, Kernel::MulMvF16), 1);
    }
}

#[test]
fn matvec_k_then_rms_norm_k_matches_two_k1_paths() {
    let (d_in, d_out, eps) = (128, 64, bits(1e-5));
    let mut s = scope();
    let w = q8(&mut s, 1, d_out, d_in);
    let x = s.upload_f32(host(2, 2 * d_in));
    let gamma = s.weight_f32(host(3, d_out));
    let mv = s.matvec_k_q8_0(&w, &x, d_in, d_out, 2).unwrap();
    let rms = s.rms_norm_mul_k(&mv, &gamma, d_out, 2, eps).unwrap();
    let x0 = s.upload_f32(host(4, d_in));
    let mv0 = s.matvec_k_q8_0(&w, &x0, d_in, d_out, 1).unwrap();
    let rms0 = s.rms_norm_mul(&mv0, &gamma, eps).unwrap();
    let r = s.flush_and_read_multi(&[rms, rms0]);
    assert_eq!(read_lengths(&r), vec![2 * d_out, d_out]);
    assert_eq!(launches(&r.log, Kernel::RmsNormMul), 2);
}

#[test]
fn encode_attn_qkv_chain_k_matches_two_k1_paths() {
    let (d_embd, n_lora_q, n_head, head_dim, kv_row) = (128, 64, 4, 32, 64);
    let q_dim = n_head * head_dim;
    let mut s = scope();
    let q_a = q8(&mut s, 1, n_lora_q, d_embd);
    let q_b = q8(&mut s, 2, q_dim, n_lora_q);
    let kv = q8(&mut s, 3, kv_row, d_embd);
    let gamma = s.weight_f32(host(4, n_lora_q));
    for k in [2, 1, 1] {
        let x = s.upload_f32(host(5, k * d_embd));
        let (qrn, heads, raw) = s
            .encode_attn_qkv_chain_k(
                &x, &q_a, &gamma, &q_b, &kv, n_lora_q, n_head, head_dim, bits(1e-5), kv_row,
                d_embd, k,
            )
            .unwrap();
        assert_eq!(qrn.len(), k * n_lora_q);
        assert_eq!(heads.len(), k * q_dim);
        assert_eq!(raw.len(), k * kv_row);
    }
    assert_eq!(launches(&s.log, Kernel::MulMvKQ8), 9);
    assert_eq!(launches(&s.log, Kernel::RmsNormMul), 3);
    assert_eq!(launches(&s.log, Kernel::HeadRmsNorm), 3);
}

fn attn_out(config: Config, dims: (u64, u64, u64, u64), k: u64) -> (BatchScope, u64, u64) {
    let (n_groups, n_lora_o, group_dim, d_embd) = dims;
    let low_dim = n_groups * n_lora_o;
    let mut s = scope_with(config);
    let a = q8(&mut s, 1, low_dim, group_dim);
    let b = q8(&mut s, 2, d_embd, low_dim);
    let heads = s.upload_f32(host(3, k * n_groups * group_dim));
    let (low, out) = s
        .encode_attn_output_matmuls_q8_k(
            &heads, &a, &b, n_groups, n_lora_o, group_dim, low_dim, d_embd, k,
        )
        .unwrap();
    let lengths = (low.len(), out.len());
    (s, lengths.0, lengths.1)
}

#[test]
fn encode_attn_output_matmuls_q8_k_matches_two_k1_paths() {
    let dims = (4, 8, 64, 64);
    let (s, low, out) = attn_out(Config::default(), dims, 2);
    assert_eq!((low, out), (2 * 32, 2 * 64));
    assert_eq!(launches(&s.log, Kernel::AttnOutLowQ8), 2);
    let (s, low, out) = attn_out(Config::default(), dims, 1);
    assert_eq!((low, out), (32, 64));
    assert_eq!(launches(&s.log, Kernel::AttnOutLowQ8), 1);
}

#[test]
fn attn_out_low_k_merge_microbench() {
    let dims = (8, 1024, 4096, 4096);
    let mut merged = Config::default();
    merged.attn_out_merge = true;
    let (s, low, _) = attn_out(merged, dims, 8);
    assert_eq!(low, 8 * 8192);
    assert_eq!(launches(&s.log, Kernel::AttnOutLowQ8K), 1);
    let (s, low, _) = attn_out(Config::default(), dims, 8);
    assert_eq!(low, 8 * 8192);
    assert_eq!(launches(&s.log, Kernel::AttnOutLowQ8), 8);
}

#[test]
fn attn_output_proj_matches_cpu_reference() {
    let (s, low, out) = attn_out(Config::default(), (8, 1024, 4096, 4096), 1);
    assert_eq!((low, out), (8192, 4096));
    assert_eq!(launches(&s.log, Kernel::AttnOutLowQ8), 1);
}

#[test]
fn encode_shared_chain_q8_k_matches_two_k1_paths() {
    let (d_embd, sd) = (128, 64);
    let mut s = scope();
    let gate = q8(&mut s, 1, sd, d_embd);
    let up = q8(&mut s, 2, sd, d_embd);
    let down = q8(&mut s, 3, d_embd, sd);
    let mut outs = vec![];
    for k in [2, 1, 1] {
        let x = s.upload_f32(host(4, k * d_embd));
        outs.push(s.encode_shared_chain_q8_k(&x, &gate, &up, &down, d_embd, sd, k).unwrap());
    }
    assert_eq!(launches(&s.log, Kernel::Swiglu), 4);
    let r = s.flush_and_read_multi(&outs);
    assert_eq!(read_lengths(&r), vec![2 * d_embd, d_embd, d_embd]);
}

#[test]
fn hc_collapse_norm_k_matches_two_k1_paths() {
    let (n_hc, n_embd) = (4, 4096);
    let hc = n_hc * n_embd;
    for per_k in [false, true] {
        let mut c = Config::default();
        c.hc_collapse_per_k = per_k;
        let mut s = scope_with(c);
        let hc_fn = s.weight_f32(host(1, hc * 24));
        let scale = s.weight_f32(host(2, 3));
        let base = s.weight_f32(host(3, 24));
        let gamma = s.weight_f32(host(4, n_embd));
        let unit = s.weight_f32(host(5, hc));
        let prev = s.upload_f32(host(6, 2 * hc));
        let (split, cur, normed) = s
            .hc_collapse_norm_k(
                &prev, &hc_fn, &scale, &base, &gamma, n_hc, n_embd, 5, bits(1e-6), bits(1e-5),
                &unit, 2, false,
            )
            .unwrap();
        assert_eq!((split.len(), cur.len(), normed.len()), (48, 2 * n_embd, 2 * n_embd));
        let row = s.upload_f32(host(7, hc));
        let (split, cur, normed) = s
            .hc_collapse_norm(
                &row, &hc_fn, &scale, &base, &gamma, n_hc, n_embd, 5, bits(1e-6), bits(1e-5),
                &unit, false,
            )
            .unwrap();
        assert_eq!((split.len(), cur.len(), normed.len()), (24, n_embd, n_embd));
        assert_eq!(launches(&s.log, Kernel::HcSplitNorm4), if per_k { 3 } else { 2 });
    }
}

#[test]
fn encode_layer_attn_half_k_matches_two_k1_paths() {
    let (n_hc, n_embd, n_lora_q, n_head, head_dim, kv_row) = (4, 4096, 64, 4, 64, 128);
    let hc = n_hc * n_embd;
    let p = layer_params(4, 64, 32, 128);
    let mut s = scope();
    let hc_fn = s.weight_f32(host(1, hc * 24));
    let scale = s.weight_f32(host(2, 3));
    let base = s.weight_f32(host(3, 24));
    let gamma = s.weight_f32(host(4, n_embd));
    let unit = s.weight_f32(host(5, hc));
    let gamma_q = s.weight_f32(host(6, n_lora_q));
    let gamma_kv = s.weight_f32(host(7, kv_row));
    let q_a = q8(&mut s, 8, n_lora_q, n_embd);
    let q_b = q8(&mut s, 9, n_head * head_dim, n_lora_q);
    let kv = q8(&mut s, 10, kv_row, n_embd);
    let prev = s.upload_f32(host(11, 2 * hc));
    let k2 = s
        .encode_layer_attn_half_k(
            &prev, &hc_fn, &scale, &base, &gamma, &unit, &q_a, &gamma_q, &q_b, &kv, &gamma_kv,
            n_hc, n_embd, n_lora_q, n_head, head_dim, kv_row, 5, bits(1e-6), bits(1e-5), &p, 7, 2,
            false,
        )
        .unwrap();
    assert_eq!(k2.normed_k.len(), 2 * n_embd);
    assert_eq!(k2.split_k.len(), 2 * 24);
    assert_eq!(k2.qr_normed_k.len(), 2 * n_lora_q);
    assert_eq!(k2.q_heads_k.len(), 2 * n_head * head_dim);
    assert_eq!(k2.kv_normed_rotated_k.len(), 2 * kv_row);
    s.set_q8_proj(true);
    for pos in [7, 8] {
        let row = s.upload_f32(host(12, hc));
        let one = s
            .encode_layer_attn_half(
                &row, &hc_fn, &scale, &base, &gamma, &unit, false, &q_a, &gamma_q, &q_b, &kv,
                &gamma_kv, n_hc, n_embd, n_lora_q, n_head, head_dim, kv_row, 5, bits(1e-6),
                bits(1e-5), &p, pos,
            )
            .unwrap();
        assert_eq!(one.normed.len(), n_embd);
        assert_eq!(one.split.len(), 24);
        assert_eq!(one.qr_normed.len(), n_lora_q);
        assert_eq!(one.q_heads.len(), n_head * head_dim);
        assert_eq!(one.kv_normed_rotated.len(), kv_row);
    }
    let positions: Vec<u32> = s
        .log
        .iter()
        .filter_map(|c| match c {
            Command::Rope(a) => Some(a.pos),
            _ => None,
        })
        .collect();
    assert_eq!(positions, vec![7, 7, 8]);
}

fn slots(log: &[Command]) -> Vec<u32> {
    let mut stores = false;
    let mut found = vec![];
    for c in log {
        match c {
            Command::Pipeline(Pipe::Loaded(k)) => {
                stores = *k == Kernel::KvFp8Store || *k == Kernel::KvFp8StoreK;
            }
            Command::Bytes(4, Args::U32(slot)) if stores => found.push(*slot),
            _ => {}
        }
    }
    found
}

#[test]
fn kv_fp8_store_persistent_k_matches_two_k1_stores() {
    let p = layer_params(4, 320, 64, 256);
    for (merge, taken) in [(KvMerge::Kernel, vec![3, 3, 4]), (KvMerge::Off, vec![3, 4, 3, 4])] {
        let mut c = Config::default();
        c.kv_merge = merge;
        let mut s = scope_with(c);
        let rows = s.upload_f32(host(1, 2 * 256));
        let cache = s.kv_fp8_store_persistent_k(100, &rows, &p, 16, 3, 2).unwrap();
        let row0 = s.upload_f32(host(2, 256));
        let row1 = s.upload_f32(host(3, 256));
        s.kv_fp8_store_persistent(101, &row0, &p, 16, 3).unwrap();
        let single = s.kv_fp8_store_persistent(101, &row1, &p, 16, 4).unwrap();
        assert_eq!(cache.len(), single.len());
        assert_eq!(slots(&s.log), taken);
    }
}

#[test]
fn kv_fp8_store_merge_microbench() {
    let p = layer_params(64, 512, 64, 512);
    for (merge, pipelines, stores) in
        [(KvMerge::Kernel, 1, 1), (KvMerge::Encoder, 1, 8), (KvMerge::Off, 8, 8)]
    {
        let mut c = Config::default();
        c.kv_merge = merge;
        let mut s = scope_with(c);
        let rows = s.upload_f32(host(1, 8 * 512));
        let cache = s.kv_fp8_store_persistent_k(200, &rows, &p, 256, 0, 8).unwrap();
        assert_eq!(cache.len(), 256 * 512);
        let taken =
            launches(&s.log, Kernel::KvFp8Store) + launches(&s.log, Kernel::KvFp8StoreK);
        assert_eq!(taken, pipelines);
        assert_eq!(slots(&s.log), (0..stores).collect::<Vec<u32>>());
    }
}

fn flash(n_head: u64, n_cache: u64, k: u64, base_pos: u32) -> DeferredBuf {
    let mut s = scope();
    let q = s.upload_f32(host(1, k * n_head * 512));
    let kv = s.upload_f32(host(2, n_cache * 512));
    let sinks = s.weight_f32(host(3, n_head));
    let scale = bits(1.0 / 512f32.sqrt());
    let out =
        s.flash_attn_k_mla(&q, &kv, n_head, 512, 512, n_cache, k, scale, base_pos, &sinks).unwrap();
    assert_eq!(launches(&s.log, Kernel::FlashKMla), 1);
    out
}

#[test]
fn flash_attn_k_mla_matches_cpu_mla_reference() {
    assert_eq!(flash(64, 8, 1, 6).len(), 64 * 512);
}

#[test]
fn flash_attn_k_mla_matches_two_k1_paths() {
    assert_eq!(flash(2, 128, 2, 127).len(), 2 * 2 * 512);
    assert_eq!(flash(2, 128, 1, 127).len(), 2 * 512);
}

#[test]
fn hc_expand_attn_split_matches_cpu_reference() {
    let mut s = scope();
    let out = s.upload_f32(host(1, 4096));
    let cur = s.upload_f32(host(2, 4 * 4096));
    let split = s.upload_f32(host(3, 24));
    let y = s.hc_expand_attn_split(&out, &cur, &split, 4, 4096).unwrap();
    assert_eq!(y.len(), 4 * 4096);
    assert!(s.log.contains(&Command::Buffer(3, split.buf, 16)));
    assert!(s.log.contains(&Command::Buffer(4, split.buf, 32)));
}

#[test]
fn hc_expand_attn_split_k_matches_two_k1_paths() {
    for (per_k, n) in [(false, 1), (true, 2)] {
        let mut c = Config::default();
        c.hc_expand_per_k = per_k;
        let mut s = scope_with(c);
        let a = s.upload_f32(host(1, 2 * 256));
        let h = s.upload_f32(host(2, 2 * 1024));
        let p = s.upload_f32(host(3, 2 * 24));
        let y = s.hc_expand_attn_split_k(&a, &h, &p, 4, 256, 2).unwrap();
        assert_eq!(y.len(), 2 * 1024);
        assert_eq!(launches(&s.log, Kernel::HcExpand), n);
        let a = s.upload_f32(host(4, 256));
        let h = s.upload_f32(host(5, 1024));
        let p = s.upload_f32(host(6, 24));
        assert_eq!(s.hc_expand_attn_split(&a, &h, &p, 4, 256).unwrap().len(), 1024);
    }
}

#[test]
fn hc_expand_add_split_k_matches_two_k1_paths() {
    for (per_k, n) in [(false, 1), (true, 2)] {
        let mut c = Config::default();
        c.hc_expand_per_k = per_k;
        let mut s = scope_with(c);
        let a = s.upload_f32(host(1, 2 * 256));
        let b = s.upload_f32(host(2, 2 * 256));
        let h = s.upload_f32(host(3, 2 * 1024));
        let p = s.upload_f32(host(4, 2 * 24));
        let y = s.hc_expand_add_split_k(&a, &b, &h, &p, 4, 256, 2).unwrap();
        assert_eq!(y.len(), 2 * 1024);
        assert_eq!(launches(&s.log, Kernel::HcExpand), n);
        let a = s.upload_f32(host(5, 256));
        let b = s.upload_f32(host(6, 256));
        let h = s.upload_f32(host(7, 1024));
        let p = s.upload_f32(host(8, 24));
        assert_eq!(s.hc_expand_add_split(&a, &b, &h, &p, 4, 256).unwrap().len(), 1024);
    }
}

fn product_and_norm() -> Recording {
    let (d_in, d_out) = (256, 64);
    let mut s = scope();
    let w = s.weight_f32(host(1, d_in * d_out));
    let x = s.upload_f32(host(2, d_in));
    let qr = s.matvec_f32(&w, &x, d_in, d_out).unwrap();
    let g = s.upload_f32(host(3, d_out));
    let y = s.rms_norm_mul(&qr, &g, bits(1e-5)).unwrap();
    s.flush_and_read(&y)
}

#[test]
fn matvec_then_rms_norm_matches_sequential_trait() {
    let r = product_and_norm();
    assert_eq!(read_lengths(&r), vec![64]);
    let commits = r.log.iter().filter(|c| matches!(c, Command::CommitWait(_, _))).count();
    assert_eq!(commits, 1);
}

#[test]
fn matvec_then_rms_norm_matches_cpu_reference() {
    let r = product_and_norm();
    assert_eq!(read_lengths(&r), vec![64]);
    assert_eq!(launches(&r.log, Kernel::MulMvF32), 1);
    assert_eq!(launches(&r.log, Kernel::RmsNormMul), 1);
}

#[test]
fn encode_attn_chain_k_runs_end_to_end() {
    let (n_hc, n_embd, n_lora_q, n_head, head_dim, kv_row) = (4, 4096, 128, 2, 512, 512);
    let (n_groups, n_lora_o, group_dim, low_dim) = (8, 4, 128, 32);
    let hc = n_hc * n_embd;
    let p = layer_params(2, 512, 64, 512);
    let mut s = scope();
    s.set_q8_proj(true);
    let hc_fn = s.weight_f32(host(1, hc * 24));
    let scale = s.weight_f32(host(2, 3));
    let base = s.weight_f32(host(3, 24));
    let gamma = s.weight_f32(host(4, n_embd));
    let unit = s.weight_f32(host(5, hc));
    let gamma_q = s.weight_f32(host(6, n_lora_q));
    let gamma_kv = s.weight_f32(host(7, kv_row));
    let q_a = q8(&mut s, 8, n_lora_q, n_embd);
    let q_b = q8(&mut s, 9, n_head * head_dim, n_lora_q);
    let kv = q8(&mut s, 10, kv_row, n_embd);
    let o_a = q8(&mut s, 11, low_dim, group_dim);
    let o_b = q8(&mut s, 12, n_embd, low_dim);
    let prev = s.upload_f32(host(13, 2 * hc));
    let sinks = s.weight_f32(host(14, n_head));
    let (_half, out) = s
        .encode_attn_chain_k(
            &prev, &hc_fn, &scale, &base, &gamma, &unit, &q_a, &gamma_q, &q_b, &kv, &gamma_kv,
            &o_a, &o_b, n_hc, n_embd, n_lora_q, n_head, head_dim, kv_row, n_groups, n_lora_o,
            group_dim, low_dim, 5, bits(1e-6), bits(1e-5), bits(1.0 / 512f32.sqrt()), 200, &p, 16,
            4, 4, 15, &sinks, 2, None,
        )
        .unwrap();
    let r = s.flush_and_read_multi(&[out]);
    assert_eq!(read_lengths(&r), vec![8192]);
}

#[test]
fn encode_mtp_input_mix_synthetic_smoke() {
    let (n_hc, n_embd) = (4, 4096);
    let mut s = scope();
    let token = s.upload_f32(host(1, n_embd));
    let prev = s.upload_f32(host(2, n_hc * n_embd));
    let enorm = s.weight_f32(host(3, n_embd));
    let e_proj = q8(&mut s, 4, n_embd, n_embd);
    let hnorm = s.weight_f32(host(5, n_embd));
    let h_proj = q8(&mut s, 6, n_embd, n_embd);
    let out = s
        .encode_mtp_input_mix(
            &token, &prev, &enorm, &e_proj, &hnorm, &h_proj, n_embd, n_hc, bits(1e-5),
        )
        .unwrap();
    let r = s.flush_and_read(&out);
    assert_eq!(read_lengths(&r), vec![16384]);
}

#[test]
fn encode_mtp_output_head_synthetic_smoke() {
    let (n_hc, n_embd, vocab) = (4, 4096, 1024);
    let hc = n_hc * n_embd;
    let mut s = scope();
    let cur = s.upload_f32(host(1, hc));
    let unit = s.weight_f32(host(2, hc));
    let hc_fn = s.weight_f32(host(3, n_hc * hc));
    let scale = s.weight_f32(host(4, 1));
    let base = s.weight_f32(host(5, n_hc));
    let norm = s.weight_f32(host(6, n_embd));
    let lm = q8(&mut s, 7, vocab, n_embd);
    let logits = s
        .encode_mtp_output_head(
            &cur, &unit, &hc_fn, &scale, &base, &norm, &lm, n_embd, n_hc, vocab, bits(1e-5),
            bits(1e-3),
        )
        .unwrap();
    let r = s.flush_and_read(&logits);
    assert_eq!(read_lengths(&r), vec![1024]);
}

#[test]
fn decode_steps_refuse_what_their_kernel_does_not_take() {
    let good = layer_params(2, 512, 64, 512);
    let narrow = layer_params(2, 256, 64, 256);
    let uneven = layer_params(2, 512, 64, 256);
    let mut s = scope();
    let n = s.log.len();
    let (q, sinks) = (host(1, 1024), host(2, 2));
    let head_dim = |got| unfit(Check::HeadDim, got, 512);
    let align = |got, want| unfit(Check::CacheAlign, got, want);
    assert_eq!(s.flash_attn_decode_persistent(0, &narrow, q, 32, 64, sinks), head_dim(256));
    assert_eq!(s.flash_attn_decode_persistent(0, &good, q, 0, 64, sinks), align(0, 32));
    assert_eq!(s.flash_attn_decode_persistent(0, &good, q, 33, 64, sinks), align(33, 32));
    let db = DeferredBuf::from_external_buffer(BufId::External(1), 1024);
    assert_eq!(s.flash_attn_decode_persistent_qbuf(0, &good, &db, 40, 64, sinks), align(40, 32));
    let (rows, sel) = (host(3, 512), host(4, 1));
    let mixed = |s: &mut BatchScope, p: &LayerParams, raw: u32, n: u32| {
        s.flash_attn_decode_persistent_compressor(0, p, q, raw, 64, rows, sel, n, sinks)
    };
    assert_eq!(mixed(&mut s, &uneven, 7, 1), head_dim(512));
    assert_eq!(mixed(&mut s, &good, 0, 0), align(0, 1));
    let mask = host(5, 65);
    assert_eq!(
        s.flash_attn_ext_blk(&good, &db, BufId::External(2), 65, mask, sinks, 1),
        align(65, 64)
    );
    assert_eq!(s.log.len(), n);
    assert_eq!(mixed(&mut s, &good, 7, 1).unwrap().len(), 1024);
    assert_eq!(
        s.flash_attn_decode_persistent(0, &good, q, 32, 64, sinks).unwrap().len(),
        1024
    );
    assert_eq!(s.log.len(), n + 2);
}

#[test]
fn refusals_name_both_numbers() {
    let b = |n| DeferredBuf::from_external_buffer(BufId::External(1), n);
    let mut s = scope();
    assert_eq!(s.matvec_q8_0(&b(65), &b(32), 32, 2), unfit(Check::WeightLen, 65, 64));
    assert_eq!(s.matvec_q8_0(&b(64), &b(31), 32, 2), unfit(Check::InputLen, 31, 32));
    assert_eq!(s.matvec_q8_0(&b(66), &b(33), 33, 2), unfit(Check::InputAlign, 33, 32));
    assert_eq!(s.matvec_q8_0(&b(96), &b(32), 32, 3), unfit(Check::OutputAlign, 3, 2));
    assert_eq!(
        s.matvec_k_q8_0(&b(64), &b(96), 32, 2, 3),
        unfit(Check::Positions, 3, 8)
    );
    assert_eq!(
        s.head_rms_norm_k(&b(1), 2, 4, 3, bits(1e-5)),
        unfit(Check::InputLen, 1, 24)
    );
    let widest = 0x7fff_ffff;
    assert_eq!(
        s.head_rms_norm_k(&b(1), widest, widest, widest, bits(1e-5)),
        unfit(Check::InputLen, 1, u64::MAX)
    );
}
