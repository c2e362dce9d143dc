use ds4_metal::command::{BufId, Command, DeferredBuf, Elem, F32, HostRef, Stage};
use ds4_metal::config::{Config, Engine};
use ds4_metal::kernel::Kernel;
use ds4_metal::pool::{PoolKey, PoolState, arm_attn_pool_key, flip_pool_phase};
use ds4_metal::scope::BatchScope;

fn engine() -> Engine {
    Engine {
        loaded: vec![Kernel::RmsNormMul, Kernel::HeadRmsNorm, Kernel::HcExpand],
        experts: vec![],
        expert_caches: vec![],
        chunk_pool: None,
        router_scale: F32(1.5f32.to_bits()),
        attn_out_low_k: false,
    }
}

fn scope(config: Config) -> BatchScope {
    BatchScope::new(engine(), config, PoolState::new())
}

fn host(id: u64, len: u64) -> HostRef {
    HostRef { id, len }
}

fn buf(id: u64, n: u64) -> DeferredBuf {
    DeferredBuf::from_external_buffer(BufId::External(id), n)
}

fn submissions(log: &[Command]) -> usize {
    log.iter().filter(|c| matches!(c, Command::Commit(_) | Command::CommitWait(_, _))).count()
}

#[test]
fn a_scope_is_one_submission() {
    let mut s = scope(Config::default());
    let w = s.weight_f32(host(1, 8 * 4));
    let x = s.upload_f32(host(2, 8));
    let qr = s.matvec_f32(&w, &x, 8, 4).unwrap();
    let g = s.upload_f32(host(3, 4));
    let y = s.rms_norm_mul(&qr, &g, F32(1.0e-6f32.to_bits())).unwrap();
    assert_eq!(submissions(&s.log), 0);
    assert_eq!(s.cmd_buf, 0);
    let r = s.flush_and_read(&y);
    assert_eq!(submissions(&r.log), 1);
    let n = r.log.len();
    assert_eq!(r.log[0], Command::NewCommandBuffer);
    assert_eq!(r.log[n - 2], Command::CommitWait(0, Stage::FlushAndRead));
    assert_eq!(r.log[n - 1], Command::Read { buf: y.buf, n: 4, elem: Elem::F32 });
}

#[test]
fn several_results_are_read_in_order() {
    let mut s = scope(Config::default());
    let a = s.alloc_f32(3);
    let b = s.alloc_f32(5);
    let r = s.flush_and_read_multi(&[b, a]);
    let n = r.log.len();
    assert_eq!(r.log[n - 2], Command::Read { buf: b.buf, n: 5, elem: Elem::F32 });
    assert_eq!(r.log[n - 1], Command::Read { buf: a.buf, n: 3, elem: Elem::F32 });
    let mut s = scope(Config::default());
    let i = s.alloc_i32(7);
    let r = s.flush_and_read_i32(&i);
    assert_eq!(*r.log.last().unwrap(), Command::Read { buf: i.buf, n: 7, elem: Elem::I32 });
}

#[test]
fn keeping_open_commits_without_waiting() {
    let mut s = scope(Config::default());
    s.commit_keep_open();
    assert_eq!(s.pending_cbs, vec![0]);
    assert_eq!(s.cmd_buf, 2);
    assert_eq!(
        s.log,
        vec![
            Command::NewCommandBuffer,
            Command::CloseShared,
            Command::NewCommandBuffer,
            Command::Commit(0),
            Command::ProfilePush(0),
        ]
    );
    let out = s.alloc_f32(1);
    let r = s.flush_and_read(&out);
    let n = r.log.len();
    assert_eq!(r.log[n - 4], Command::DrainTrace(1));
    assert_eq!(r.log[n - 3], Command::Wait(0));
    assert_eq!(r.log[n - 2], Command::CommitWait(2, Stage::FlushAndRead));
}

#[test]
fn the_pipeline_is_one_deep() {
    let mut s = scope(Config::default());
    s.commit_pipelined(Stage::Caller(1));
    assert_eq!(s.pending_cbs, vec![0]);
    assert!(s.pools.phase);
    let second = s.cmd_buf;
    let before = s.log.len();
    s.commit_pipelined(Stage::Caller(1));
    assert_eq!(s.pending_cbs, vec![second]);
    assert!(!s.pools.phase);
    assert_eq!(s.log[before + 2], Command::Wait(0));
    assert_eq!(s.log[before + 3], Command::CheckOk(0, Stage::Caller(1)));
    assert_eq!(s.log[before + 5], Command::Commit(second));
}

#[test]
fn a_split_orders_the_command_buffers() {
    let mut s = scope(Config::default());
    s.event_split(Stage::Caller(0));
    assert_eq!(
        s.log[1..],
        [
            Command::CloseShared,
            Command::NewEvent,
            Command::NewCommandBuffer,
            Command::WaitEvent { cb: 3, value: 1 },
            Command::SignalEvent { cb: 0, value: 1 },
            Command::Commit(0),
        ]
    );
    s.event_split(Stage::Caller(0));
    assert_eq!(s.order_event_value, 2);
    assert_eq!(s.log.iter().filter(|c| **c == Command::NewEvent).count(), 1);
    assert_eq!(s.pending_cbs, vec![0, 3]);
}

#[test]
fn the_window_bounds_what_is_pending() {
    let mut s = scope(Config::default());
    for _ in 0..5 {
        s.event_split_windowed(Stage::Caller(0), 2);
        assert!(s.pending_cbs.len() <= 2);
    }
    let waited = s.log.iter().filter(|c| matches!(c, Command::Wait(_))).count();
    assert_eq!(waited, 3);
    s.drain_all_stage(Stage::Caller(2));
    assert!(s.pending_cbs.is_empty());
}

#[test]
fn detaching_hands_the_pending_over() {
    let mut s = scope(Config::default());
    s.commit_keep_open();
    let current = s.cmd_buf;
    let (r, cbs) = s.commit_detach();
    assert_eq!(cbs, vec![0, current]);
    assert_eq!(*r.log.last().unwrap(), Command::Commit(current));
}

#[test]
fn waiting_for_all_checks_each() {
    let mut s = scope(Config::default());
    s.commit_keep_open();
    let current = s.cmd_buf;
    let r = s.wait_all_and_drop();
    assert!(r.log.contains(&Command::CheckOk(0, Stage::WaitAllPending)));
    assert!(r.log.contains(&Command::CheckOk(current, Stage::WaitAllCurrent)));
    assert_eq!(*r.log.last().unwrap(), Command::ProfileReport);
}

#[test]
fn stages_wait_and_go_on() {
    let mut s = scope(Config::default());
    s.commit_wait_stage(Stage::FfnRouter);
    assert_eq!(s.log[3], Command::CommitWait(0, Stage::FfnRouter));
    assert!(s.pending_cbs.is_empty());
    s.commit_wait_gpu_us();
    assert_eq!(*s.log.last().unwrap(), Command::GpuTime(2));
}

#[test]
fn reading_midway_waits_for_everything() {
    let mut s = scope(Config::default());
    let x = s.alloc_f32(2);
    s.commit_keep_open();
    s.commit_wait_read_multi(&[x]);
    assert!(s.pending_cbs.is_empty());
    assert_eq!(*s.log.last().unwrap(), Command::Read { buf: x.buf, n: 2, elem: Elem::F32 });
    s.debug_read(&x);
    assert_eq!(s.pending_cbs.len(), 1);
}

#[test]
fn buffers_are_new_each_time() {
    let mut s = scope(Config::default());
    let a = s.alloc_f32(4);
    let b = s.alloc_f32(4);
    assert_eq!(a.buf, BufId::Fresh(1));
    assert_eq!(b.buf, BufId::Fresh(2));
    assert_eq!(a.len(), 4);
    assert!(!a.is_empty());
    assert!(buf(0, 0).is_empty());
    assert_eq!(buf(9, 3).buffer(), BufId::External(9));
}

#[test]
fn scratch_is_zeroed_on_request_within_bounds() {
    let mut c = Config::default();
    c.zero_scratch = true;
    c.zero_min = 4;
    c.zero_max = 8;
    let mut s = scope(c);
    s.alloc_f32(3);
    s.alloc_f32(8);
    s.alloc_f32(9);
    let zeros: Vec<&Command> =
        s.log.iter().filter(|c| matches!(c, Command::Zero { .. })).collect();
    assert_eq!(zeros, vec![&Command::Zero { buf: BufId::Fresh(2), n: 8 }]);
}

#[test]
fn pooled_scratch_is_made_once() {
    let mut c = Config::default();
    c.pool_scratch = true;
    c.hash_gpu = true;
    let mut s = scope(c);
    let a = s.pooled_scratch_f32(PoolKey::SharedMid, 16);
    let made = s.log.len();
    let b = s.pooled_scratch_f32(PoolKey::SharedMid, 16);
    assert_eq!(a, b);
    assert_eq!(s.log.len(), made);
    assert_eq!(a.buf, BufId::Pooled(PoolKey::SharedMid, 16));
    let h = s.pooled_scratch_u16(PoolKey::SharedMid, 16);
    assert_eq!(h.buf, BufId::Pooled(PoolKey::SharedMid, 16 | 1 << 62));
    assert!(s.pools.has(PoolKey::SharedMid, 16));
    assert!(!s.pools.has(PoolKey::SharedMid, 17));
}

#[test]
fn without_pooling_scratch_is_fresh() {
    let mut s = scope(Config::default());
    let a = s.pooled_scratch_f32(PoolKey::SharedMid, 16);
    let b = s.pooled_scratch_f32(PoolKey::SharedMid, 16);
    assert_ne!(a.buf, b.buf);
}

#[test]
fn phases_share_no_pooled_buffer() {
    let mut c = Config::default();
    c.pool_scratch = true;
    c.pool_pingpong = true;
    let mut s = scope(c);
    let a = s.pooled_scratch_f32(PoolKey::MoeMid, 32);
    s.commit_pipelined(Stage::Caller(0));
    let b = s.pooled_scratch_f32(PoolKey::MoeMid, 32);
    assert_ne!(a.buf, b.buf);
    assert_eq!(b.buf, BufId::Pooled(PoolKey::MoeMid, 32 | 1 << 63));
    s.commit_pipelined(Stage::Caller(0));
    assert_eq!(s.pooled_scratch_f32(PoolKey::MoeMid, 32).buf, a.buf);
}

#[test]
fn flipping_twice_changes_nothing() {
    let mut p = PoolState::new();
    flip_pool_phase(&mut p);
    assert!(p.phase);
    flip_pool_phase(&mut p);
    assert!(!p.phase);
}

#[test]
fn the_attention_key_is_used_once() {
    let mut c = Config::default();
    c.pool_attn = true;
    let mut p = PoolState::new();
    arm_attn_pool_key(&mut p, PoolKey::AttnQr);
    assert_eq!(p.attn_key, Some(PoolKey::AttnQr));
    let mut s = BatchScope::new(engine(), c, p);
    let x = buf(1, 12);
    let g = buf(2, 4);
    let a = s.rms_norm_mul_k(&x, &g, 4, 3, F32(0)).unwrap();
    assert_eq!(a.buf, BufId::Pooled(PoolKey::AttnQr, 12));
    assert_eq!(s.pools.attn_key, None);
    let b = s.rms_norm_mul_k(&x, &g, 4, 3, F32(0)).unwrap();
    assert!(matches!(b.buf, BufId::Fresh(_)));
}

#[test]
fn the_carriers_take_turns() {
    let mut c = Config::default();
    c.pool_scratch = true;
    let mut s = scope(c);
    let block = buf(1, 4);
    let res = buf(2, 8);
    let split = buf(3, 8);
    let a = s.hc_expand_add_split_k(&block, &block, &res, &split, 2, 4, 1).unwrap();
    let b = s.hc_expand_add_split_k(&block, &block, &a, &split, 2, 4, 1).unwrap();
    let d = s.hc_expand_add_split_k(&block, &block, &b, &split, 2, 4, 1).unwrap();
    assert_eq!(a.buf, BufId::Pooled(PoolKey::HcCarrierB, 8));
    assert_eq!(b.buf, BufId::Pooled(PoolKey::HcCarrierA, 8));
    assert_eq!(d.buf, a.buf);
}

#[test]
fn weights_are_cached_by_host_array() {
    let mut s = scope(Config::default());
    let a = s.weight_f32(host(7, 6));
    assert_eq!(a, DeferredBuf { buf: BufId::Weight(7), n_elements: 6 });
    let b = s.weight_q8_0(host(7, 64));
    assert_eq!(b.buf, BufId::WeightQ8(7));
    let r = s.weight_q8_0_raw(host(8, 34), 32);
    assert_eq!(r, DeferredBuf { buf: BufId::WeightRaw(8), n_elements: 32 });
    let h = s.weight_f16(host(9, 10));
    assert_eq!(h.n_elements, 5);
    let (m, half) = s.weight_hc(host(1, 4), Some(host(2, 8)));
    assert!(half);
    assert_eq!(m.n_elements, 4);
    let (_, half) = s.weight_hc(host(1, 4), None);
    assert!(!half);
}

#[test]
fn slices_and_copies_count_bytes() {
    let mut s = scope(Config::default());
    let src = buf(1, 10);
    let part = s.slice_out_f32(&src, 4, 3);
    assert_eq!(part.n_elements, 3);
    assert!(s.log.contains(&Command::Copy {
        src: src.buf,
        src_off: 16,
        dst: part.buf,
        dst_off: 0,
        bytes: 12,
    }));
    s.copy_buf_into(&part, BufId::CompRing(0), 5);
    assert!(s.log.contains(&Command::Copy {
        src: part.buf,
        src_off: 0,
        dst: BufId::CompRing(0),
        dst_off: 20,
        bytes: 12,
    }));
    assert_eq!(s.alloc_swa_raw_window(3, 8).n_elements, 24);
}

#[test]
fn a_recording_hands_the_pool_on() {
    let mut c = Config::default();
    c.pool_scratch = true;
    let mut s = scope(c);
    s.pooled_scratch_f32(PoolKey::MoeMid, 8);
    let r = s.into_recording();
    let mut again = BatchScope::new(engine(), c, r.pools);
    again.pooled_scratch_f32(PoolKey::MoeMid, 8);
    assert!(!again.log.iter().any(|c| matches!(c, Command::NewPooled { .. })));
}

#[test]
fn an_open_scope_hands_out_what_it_recorded() {
    let mut s = scope(Config::default());
    let x = s.upload_f32(host(2, 8));
    s.debug_read(&x);
    let part = s.recorded_since(0);
    assert_eq!(part.first, 0);
    assert_eq!(part.log, s.log);
    assert_eq!(
        *part.log.last().unwrap(),
        Command::Read { buf: x.buf, n: 8, elem: Elem::F32 }
    );
    let from = s.recorded();
    assert_eq!(from, part.log.len() as u64);
    let y = s.upload_f32(host(3, 4));
    assert_eq!(y.buf, BufId::Fresh(from));
    let rest = s.recorded_since(from);
    assert_eq!(rest.log.len(), 1);
    assert_eq!(s.recorded_since(s.recorded()).log.len(), 0);
    assert_eq!(s.recorded_since(1000).log.len(), 0);
}

#[test]
fn the_window_retires_the_oldest_first() {
    let mut s = scope(Config::default());
    let mut all = vec![];
    for _ in 0..4 {
        all.push(s.cmd_buf);
        s.event_split_windowed(Stage::Caller(0), 2);
    }
    assert_eq!(s.pending_cbs, all[2..].to_vec());
    let waited: Vec<Command> =
        s.log.iter().copied().filter(|c| matches!(c, Command::Wait(_))).collect();
    assert_eq!(waited, vec![Command::Wait(all[0]), Command::Wait(all[1])]);
    assert_eq!(s.order_event_value, 4);
}
