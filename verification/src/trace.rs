//! The model of a scope: what has been recorded, and what the next step depends on.

use crate::command::{Args, BufId, Command, DeferredBuf, Elem, F32, Groups, HostRef, Stage};
use crate::config::{Config, EngineView};
use crate::error::{Check, EncodeError, Refusal, refusal};
use crate::kernel::{Kernel, Pipe};
use crate::pool::{PoolKey, Pools, phase_bit, tag_f32, tag_u16};
use vstd::prelude::*;

verus! {

/// The state of a scope.
#[verifier::ext_equal]
pub struct Trace {
    /// The commands recorded so far.
    pub log: Seq<Command>,
    /// The words that commands refer to.
    pub words: Seq<u32>,
    /// The open command buffer, by the place of the command that made it.
    pub cmd_buf: u64,
    /// The command buffers committed and not yet waited for, oldest first.
    pub pending: Seq<u64>,
    /// Whether the ordering event exists.
    pub has_event: bool,
    /// The value that the ordering event was last asked to reach.
    pub event_value: u64,
    /// Whether the attention projections are Q8_0.
    pub q8_proj: bool,
    pub pools: Pools,
    pub engine: EngineView,
    pub config: Config,
}

/// What a finished scope leaves: the recording, and the pool for the next scope.
#[verifier::ext_equal]
pub struct RecordingView {
    pub log: Seq<Command>,
    pub words: Seq<u32>,
    pub pools: Pools,
}

/// Whether a command only adds work to the open command buffer, or prepares it:
/// it submits nothing, waits for nothing, and reads no result back.
pub open spec fn is_encoding(c: Command) -> bool {
    match c {
        Command::NewCommandBuffer => false,
        Command::NewEvent => false,
        Command::WaitEvent { .. } => false,
        Command::SignalEvent { .. } => false,
        Command::Commit(_) => false,
        Command::Wait(_) => false,
        Command::CheckOk(_, _) => false,
        Command::ProfilePush(_) => false,
        Command::ProfileReport => false,
        Command::CommitWait(_, _) => false,
        Command::GpuTime(_) => false,
        Command::Read { .. } => false,
        Command::DrainTrace(_) => false,
        _ => true,
    }
}

/// The layer whose experts the streaming pool holds after `log`, if it held
/// `before` when place `from` was reached: that of the last refill since.
pub open spec fn held(before: Option<u32>, log: Seq<Command>, from: int) -> Option<u32>
    decreases log.len(),
{
    if log.len() <= from || log.len() == 0 {
        before
    } else {
        match log.last() {
            Command::RefillChunkPool { layer, .. } => Some(layer),
            _ => held(before, log.drop_last(), from),
        }
    }
}

impl Trace {
    /// A scope that has only opened its command buffer.
    pub open spec fn start(engine: EngineView, config: Config, pools: Pools) -> Trace {
        Trace {
            log: seq![Command::NewCommandBuffer],
            words: seq![],
            cmd_buf: 0,
            pending: seq![],
            has_event: false,
            event_value: 0,
            q8_proj: false,
            pools,
            engine,
            config,
        }
    }

    /// What an earlier trace holds stays: its commands and words at their places,
    /// the switches and the engine. The streaming pool is known to hold the layer
    /// that it was last filled for.
    #[verifier::opaque]
    pub open spec fn extends(self, earlier: Trace) -> bool {
        &&& self.config == earlier.config
        &&& self.engine == earlier.engine
        &&& earlier.log.is_prefix_of(self.log)
        &&& earlier.words.is_prefix_of(self.words)
        &&& self.pools.chunk_layer == held(
            earlier.pools.chunk_layer,
            self.log,
            earlier.log.len() as int,
        )
    }

    /// Since an earlier trace, work has been encoded into the open command
    /// buffer, and nothing has been submitted, waited for or read back.
    #[verifier::opaque]
    pub open spec fn encodes(self, earlier: Trace) -> bool {
        &&& self.extends(earlier)
        &&& self.cmd_buf == earlier.cmd_buf
        &&& self.pending == earlier.pending
        &&& self.has_event == earlier.has_event
        &&& self.event_value == earlier.event_value
        &&& forall|i: int|
            earlier.log.len() <= i < self.log.len() ==> is_encoding(#[trigger] self.log[i])
    }

    pub open spec fn recording(self) -> RecordingView {
        RecordingView { log: self.log, words: self.words, pools: self.pools }
    }

    /// Nothing is recorded: a shape check failed.
    pub open spec fn refuse<T>(self, check: Check, got: int, want: int) -> (
        Trace,
        Result<T, EncodeError>,
    ) {
        self.refused(refusal(check, got, want))
    }

    pub open spec fn refused<T>(self, r: Refusal) -> (Trace, Result<T, EncodeError>) {
        (self, Err(EncodeError::Shape(r)))
    }

    /// Nothing is recorded: a pipeline is absent.
    pub open spec fn missing<T>(self, k: Kernel) -> (Trace, Result<T, EncodeError>) {
        (self, Err(EncodeError::NotLoaded(k)))
    }

    /// What was recorded stays; the error is handed on.
    pub open spec fn failed<A, B>(self, r: Result<A, EncodeError>) -> (
        Trace,
        Result<B, EncodeError>,
    ) {
        (self, Err(r->Err_0))
    }

    /// Records one command.
    pub open spec fn put(self, c: Command) -> Trace {
        Trace { log: self.log.push(c), ..self }
    }

    /// The place of the next command.
    pub open spec fn at(self) -> u64 {
        self.log.len() as u64
    }

    /// Records a command that makes a buffer.
    pub open spec fn make(self, c: Command, n: u64) -> (Trace, DeferredBuf) {
        (self.put(c), DeferredBuf { buf: BufId::Fresh(self.at()), n_elements: n })
    }

    pub open spec fn has(self, k: Kernel) -> bool {
        self.engine.has(k)
    }

    /// Fills the streaming pool for a layer.
    pub open spec fn fill_pool(self, layer: u32, prefetch_next: bool) -> Trace {
        Trace {
            pools: Pools { chunk_layer: Some(layer), ..self.pools },
            ..self.put(Command::RefillChunkPool { layer, prefetch_next })
        }
    }

    /// Opens a new command buffer in place of the current one.
    pub open spec fn rotate(self) -> Trace {
        let t = self.put(Command::CloseShared);
        Trace { cmd_buf: t.at(), ..t.put(Command::NewCommandBuffer) }
    }

    /// Commits `cb` and counts it as pending.
    pub open spec fn commit(self, cb: u64) -> Trace {
        Trace { pending: self.pending.push(cb), ..self.put(Command::Commit(cb)) }
    }

    pub open spec fn commit_keep_open(self) -> Trace {
        let t = self.rotate().put(Command::Commit(self.cmd_buf)).put(
            Command::ProfilePush(self.cmd_buf),
        );
        Trace { pending: self.pending.push(self.cmd_buf), ..t }
    }

    /// Waits for a command buffer, fails on its error, and profiles it.
    pub open spec fn retire(self, cb: u64, label: Stage) -> Trace {
        self.put(Command::Wait(cb)).put(Command::CheckOk(cb, label)).put(Command::ProfilePush(cb))
    }

    pub open spec fn commit_pipelined(self, label: Stage) -> Trace {
        let t = self.rotate();
        let t = if self.pending.len() > 0 {
            Trace {
                pending: self.pending.drop_last(),
                ..t.retire(self.pending.last(), label)
            }
        } else {
            t
        };
        let t = t.commit(self.cmd_buf);
        Trace { pools: t.pools.flipped(), ..t }
    }

    pub open spec fn event_split(self) -> Trace {
        let t = self.put(Command::CloseShared);
        let t = if self.has_event {
            t
        } else {
            Trace { has_event: true, ..t.put(Command::NewEvent) }
        };
        let v = (self.event_value + 1) as u64;
        let cb = t.at();
        let t = Trace { cmd_buf: cb, event_value: v, ..t.put(Command::NewCommandBuffer) };
        t.put(Command::WaitEvent { cb, value: v }).put(
            Command::SignalEvent { cb: self.cmd_buf, value: v },
        ).commit(self.cmd_buf)
    }

    /// Waits for the oldest pending command buffers until `window` are left.
    pub open spec fn retire_to(self, window: u64, label: Stage) -> Trace
        decreases self.pending.len(),
    {
        if self.pending.len() > window {
            Trace {
                pending: self.pending.drop_first(),
                ..self.retire(self.pending[0], label)
            }.retire_to(window, label)
        } else {
            self
        }
    }

    pub open spec fn event_split_windowed(self, label: Stage, window: u64) -> Trace {
        self.event_split().retire_to(window, label)
    }

    /// Waits for the first `n` of `cbs`.
    pub open spec fn wait_each(self, cbs: Seq<u64>, n: nat) -> Trace
        decreases n,
    {
        if n == 0 {
            self
        } else {
            self.wait_each(cbs, (n - 1) as nat).put(Command::Wait(cbs[n - 1]))
        }
    }

    /// Reads the first `n` of `bufs`.
    pub open spec fn read_each(self, bufs: Seq<DeferredBuf>, n: nat) -> Trace
        decreases n,
    {
        if n == 0 {
            self
        } else {
            self.read_each(bufs, (n - 1) as nat).read(bufs[n - 1], Elem::F32)
        }
    }

    pub open spec fn read(self, b: DeferredBuf, elem: Elem) -> Trace {
        self.put(Command::Read { buf: b.buf, n: b.n_elements, elem })
    }

    pub open spec fn debug_read(self, db: DeferredBuf) -> Trace {
        let t = self.rotate().commit(self.cmd_buf);
        t.wait_each(t.pending, t.pending.len()).read(db, Elem::F32)
    }

    pub open spec fn commit_wait_stage(self, label: Stage) -> Trace {
        self.rotate().put(Command::CommitWait(self.cmd_buf, label)).put(
            Command::ProfilePush(self.cmd_buf),
        )
    }

    /// [`Trace::commit_wait_stage`] where a diagnostic asks for it.
    pub open spec fn stage_if(self, on: bool, label: Stage) -> Trace {
        if on {
            self.commit_wait_stage(label)
        } else {
            self
        }
    }

    pub open spec fn commit_wait_gpu_us(self) -> Trace {
        self.rotate().put(Command::Commit(self.cmd_buf)).put(Command::Wait(self.cmd_buf)).put(
            Command::GpuTime(self.cmd_buf),
        )
    }

    pub open spec fn commit_wait_read_multi(self, outputs: Seq<DeferredBuf>) -> Trace {
        let t = self.put(Command::CloseShared).commit_keep_open();
        let t = Trace { pending: seq![], ..t.wait_each(t.pending, t.pending.len()) };
        t.read_each(outputs, outputs.len())
    }

    pub open spec fn commit_detach(self) -> (Trace, Seq<u64>) {
        (
            self.put(Command::CloseShared).put(Command::Commit(self.cmd_buf)),
            self.pending.push(self.cmd_buf),
        )
    }

    /// Waits for the first `n` of `cbs` and fails on their errors.
    pub open spec fn settle_each(self, cbs: Seq<u64>, n: nat) -> Trace
        decreases n,
    {
        if n == 0 {
            self
        } else {
            self.settle_each(cbs, (n - 1) as nat).put(Command::Wait(cbs[n - 1])).put(
                Command::CheckOk(cbs[n - 1], Stage::WaitAllPending),
            )
        }
    }

    /// Profiles the first `n` of `cbs`.
    pub open spec fn profile_each(self, cbs: Seq<u64>, n: nat) -> Trace
        decreases n,
    {
        if n == 0 {
            self
        } else {
            self.profile_each(cbs, (n - 1) as nat).put(Command::ProfilePush(cbs[n - 1]))
        }
    }

    pub open spec fn wait_all_and_drop(self) -> Trace {
        let t = self.put(Command::CloseShared).put(Command::Commit(self.cmd_buf));
        let t = t.settle_each(self.pending, self.pending.len()).put(
            Command::Wait(self.cmd_buf),
        ).put(Command::CheckOk(self.cmd_buf, Stage::WaitAllCurrent)).put(
            Command::ProfilePush(self.cmd_buf),
        );
        t.profile_each(self.pending, self.pending.len()).put(Command::ProfileReport)
    }

    /// Retires the first `n` of `cbs`.
    pub open spec fn retire_each(self, cbs: Seq<u64>, n: nat, label: Stage) -> Trace
        decreases n,
    {
        if n == 0 {
            self
        } else {
            self.retire_each(cbs, (n - 1) as nat, label).retire(cbs[n - 1], label)
        }
    }

    pub open spec fn drain_all_stage(self, label: Stage) -> Trace {
        let t = self.rotate().put(Command::Commit(self.cmd_buf));
        let t = t.retire_each(self.pending, self.pending.len(), label);
        Trace { pending: seq![], ..t }.retire(self.cmd_buf, label)
    }

    /// Commits what is left and waits for everything.
    pub open spec fn finish(self, label: Stage) -> Trace {
        let t = self.put(Command::CloseShared).put(Command::DrainTrace(self.pending.len() as u64));
        t.wait_each(self.pending, self.pending.len()).put(Command::CommitWait(self.cmd_buf, label))
    }

    pub open spec fn flush_and_read(self, out: DeferredBuf) -> Trace {
        self.finish(Stage::FlushAndRead).read(out, Elem::F32)
    }

    pub open spec fn flush_and_read_multi(self, outs: Seq<DeferredBuf>) -> Trace {
        self.finish(Stage::FlushAndReadMulti).read_each(outs, outs.len())
    }

    pub open spec fn flush_and_read_i32(self, out: DeferredBuf) -> Trace {
        self.finish(Stage::FlushAndReadI32).read(out, Elem::I32)
    }

    pub open spec fn upload_f32(self, data: HostRef) -> (Trace, DeferredBuf) {
        self.make(Command::Upload { elem: Elem::F32, host: data }, data.len)
    }

    pub open spec fn upload_i32(self, data: HostRef) -> (Trace, DeferredBuf) {
        self.make(Command::Upload { elem: Elem::I32, host: data }, data.len)
    }

    pub open spec fn upload_word(self, w: u32) -> (Trace, DeferredBuf) {
        self.make(Command::UploadWord(w), 1)
    }

    pub open spec fn alloc_f32(self, n: u64) -> (Trace, DeferredBuf) {
        let (t, b) = self.make(Command::NewBuffer { elem: Elem::F32, n }, n);
        if self.config.zero_scratch && self.config.zero_min <= n <= self.config.zero_max {
            (t.put(Command::Zero { buf: b.buf, n }), b)
        } else {
            (t, b)
        }
    }

    pub open spec fn alloc_i32(self, n: u64) -> (Trace, DeferredBuf) {
        self.make(Command::NewBuffer { elem: Elem::I32, n }, n)
    }

    pub open spec fn alloc_u16(self, n: u64) -> (Trace, DeferredBuf) {
        self.make(Command::NewBuffer { elem: Elem::U16, n }, n)
    }

    /// The buffer pooled under `key` and `tag`, made and pinned on first use.
    pub open spec fn pooled(self, key: PoolKey, tag: u64, elem: Elem, n: u64) -> (
        Trace,
        DeferredBuf,
    ) {
        let b = DeferredBuf { buf: BufId::Pooled(key, tag), n_elements: n };
        if self.pools.entries.contains((key, tag)) {
            (self, b)
        } else {
            let t = self.put(Command::NewPooled { key, tag, elem, n }).put(
                Command::Pin(b.buf),
            ).put(Command::CommitResidency);
            (Trace {
                pools: Pools { entries: self.pools.entries.push((key, tag)), ..self.pools },
                ..t
            }, b)
        }
    }

    /// The tag bit of the current phase.
    pub open spec fn bit(self) -> u64 {
        phase_bit(self.config.pool_pingpong, self.pools.phase)
    }

    /// The warning that goes with pooled scratch where the host routes.
    pub open spec fn warned(self) -> Trace {
        if self.config.hash_gpu {
            self
        } else {
            self.put(Command::WarnPooled)
        }
    }

    #[verifier::opaque]
    pub open spec fn pooled_scratch_f32(self, key: PoolKey, n: u64) -> (Trace, DeferredBuf) {
        if self.config.pool_scratch {
            self.warned().pooled(key, tag_f32(n, self.bit()), Elem::F32, n)
        } else {
            self.alloc_f32(n)
        }
    }

    #[verifier::opaque]
    pub open spec fn pooled_scratch_u16(self, key: PoolKey, n: u64) -> (Trace, DeferredBuf) {
        if self.config.pool_scratch {
            self.warned().pooled(key, tag_u16(n, self.bit()), Elem::U16, n)
        } else {
            self.alloc_u16(n)
        }
    }

    /// Arms the one-shot attention key.
    pub open spec fn arm(self, key: PoolKey) -> Trace {
        Trace { pools: Pools { attn_key: Some(key), ..self.pools }, ..self }
    }

    /// Takes the one-shot attention key away.
    pub open spec fn disarm(self) -> Trace {
        Trace { pools: Pools { attn_key: None, ..self.pools }, ..self }
    }

    /// An attention output: pooled under the armed key where that is asked for.
    /// The key is gone afterwards, pooled or not.
    #[verifier::opaque]
    pub open spec fn alloc_attn_out(self, n: u64) -> (Trace, DeferredBuf) {
        match self.pools.attn_key {
            Some(key) if self.config.pool_attn => self.disarm().pooled(
                key,
                tag_f32(n, self.bit()),
                Elem::F32,
                n,
            ),
            _ => self.disarm().alloc_f32(n),
        }
    }

    pub open spec fn weight_f32(self, w: HostRef) -> (Trace, DeferredBuf) {
        (
            self.put(Command::CachedWeight(w)),
            DeferredBuf { buf: BufId::Weight(w.id), n_elements: w.len },
        )
    }

    pub open spec fn weight_f32_lean_opt(self, w: HostRef) -> (Trace, DeferredBuf) {
        if w.len == 0 {
            self.alloc_f32(1)
        } else {
            self.weight_f32(w)
        }
    }

    pub open spec fn weight_q8_0(self, w: HostRef) -> (Trace, DeferredBuf) {
        (
            self.put(Command::CachedWeightQ8(w)),
            DeferredBuf { buf: BufId::WeightQ8(w.id), n_elements: w.len },
        )
    }

    pub open spec fn weight_q8_0_raw(self, bytes: HostRef, n_weights: u64) -> (
        Trace,
        DeferredBuf,
    ) {
        (
            self.put(Command::CachedRaw(bytes)),
            DeferredBuf { buf: BufId::WeightRaw(bytes.id), n_elements: n_weights },
        )
    }

    pub open spec fn weight_f16(self, bytes: HostRef) -> (Trace, DeferredBuf) {
        self.weight_q8_0_raw(bytes, bytes.len / 2)
    }

    pub open spec fn weight_hc(self, w: HostRef, half: Option<HostRef>) -> (
        Trace,
        (DeferredBuf, bool),
    ) {
        match half {
            Some(bytes) => {
                let (t, b) = self.weight_f16(bytes);
                (t, (b, true))
            },
            None => {
                let (t, b) = self.weight_f32(w);
                (t, (b, false))
            },
        }
    }

    /// One copy in a transfer encoder of its own.
    pub open spec fn blit(
        self,
        src: BufId,
        src_off: u64,
        dst: BufId,
        dst_off: u64,
        bytes: u64,
    ) -> Trace {
        self.put(Command::CloseShared).put(Command::Blit).put(
            Command::Copy { src, src_off, dst, dst_off, bytes },
        ).put(Command::EndBlit)
    }

    pub open spec fn copy_buf_into(self, src: DeferredBuf, dst: BufId, dst_elem_off: u64) -> Trace {
        self.blit(
            src.buf,
            0,
            dst,
            (dst_elem_off * 4) as u64,
            (src.n_elements * 4) as u64,
        )
    }

    pub open spec fn slice_out_f32(self, src: DeferredBuf, src_elem_off: u64, n_elems: u64) -> (
        Trace,
        DeferredBuf,
    ) {
        let (t, out) = self.make(Command::NewBuffer { elem: Elem::F32, n: n_elems }, n_elems);
        (
            t.blit(src.buf, (src_elem_off * 4) as u64, out.buf, 0, (n_elems * 4) as u64),
            out,
        )
    }

    pub open spec fn alloc_swa_raw_window(self, n_rows: u64, head_dim: u64) -> (
        Trace,
        DeferredBuf,
    ) {
        let n = (n_rows * head_dim) as u64;
        let (t, b) = self.make(Command::NewBuffer { elem: Elem::F32, n }, n);
        (t.put(Command::Zero { buf: b.buf, n }), b)
    }

    /// Records words, and says where they start.
    pub open spec fn add_words(self, ws: Seq<u32>) -> (Trace, u64) {
        (Trace { words: self.words + ws, ..self }, self.words.len() as u64)
    }

    /// A launch of a kernel that takes its arguments in slot 0 and three buffers after them.
    pub open spec fn launch3(
        self,
        pipe: Pipe,
        args: Args,
        b1: BufId,
        b2: (BufId, u64),
        b3: (BufId, u64),
        group_memory: u64,
        groups: (u64, u64, u64),
        threads: (u64, u64, u64),
    ) -> Trace {
        self.put(Command::Encoder).bind3(pipe, args, b1, b2, b3, group_memory, groups, threads).put(
            Command::EndEncoder,
        )
    }

    /// [`Trace::launch3`] in an encoder that is open already.
    pub open spec fn bind3(
        self,
        pipe: Pipe,
        args: Args,
        b1: BufId,
        b2: (BufId, u64),
        b3: (BufId, u64),
        group_memory: u64,
        groups: (u64, u64, u64),
        threads: (u64, u64, u64),
    ) -> Trace {
        self.put(Command::Pipeline(pipe)).put(Command::Bytes(0, args)).put(
            Command::Buffer(1, b1, 0),
        ).put(Command::Buffer(2, b2.0, b2.1)).put(Command::Buffer(3, b3.0, b3.1)).put(
            Command::GroupMemory(group_memory),
        ).put(Command::Dispatch(groups, threads))
    }

    /// Binds word scalars, one per slot.
    pub open spec fn u32_at(self, slot: u64, v: u32) -> Trace {
        self.put(Command::Bytes(slot, Args::U32(v)))
    }

    pub open spec fn f32_at(self, slot: u64, v: F32) -> Trace {
        self.put(Command::Bytes(slot, Args::F32(v)))
    }

    pub open spec fn buf_at(self, slot: u64, b: BufId) -> Trace {
        self.put(Command::Buffer(slot, b, 0))
    }
}

/// The threads of a group for a launch that wants `want`, given what the pipeline allows.
pub open spec fn spec_group_threads(want: u64, at_least_one: bool, pipe_max: u64) -> u64 {
    let t = if want < pipe_max {
        want
    } else {
        pipe_max
    };
    if at_least_one && t == 0 {
        1
    } else {
        t
    }
}

/// The threads of a group for a launch that wants `want`, given what the pipeline allows.
pub fn group_threads(want: u64, at_least_one: bool, pipe_max: u64) -> (r: u64)
    ensures
        r == spec_group_threads(want, at_least_one, pipe_max),
{
    let t: u64 = if want < pipe_max {
        want
    } else {
        pipe_max
    };
    if at_least_one && t == 0 {
        1
    } else {
        t
    }
}

/// The number of groups of `threads` threads.
pub open spec fn spec_group_count(groups: Groups, threads: u64) -> u64 {
    match groups {
        Groups::Count(n) => n,
        Groups::Cover(total) => crate::arith::spec_div_up(total, threads),
    }
}

/// The number of groups of `threads` threads.
pub fn group_count(groups: Groups, threads: u64) -> (r: u64)
    requires
        0 < threads,
        groups matches Groups::Cover(total) ==> total + threads - 1 <= u64::MAX,
    ensures
        r == spec_group_count(groups, threads),
{
    match groups {
        Groups::Count(n) => n,
        Groups::Cover(total) => crate::arith::div_up(total, threads),
    }
}

/// Whatever the pipeline allows, a covering launch reaches every thread asked for.
pub proof fn law_cover_reaches_all(total: u64, pipe_max: u64)
    requires
        total + total <= u64::MAX,
    ensures
        ({
            let t = spec_group_threads(total, true, pipe_max);
            t >= 1 && spec_group_count(Groups::Cover(total), t) * t >= total
        }),
{
    let t = spec_group_threads(total, true, pipe_max);
    if total > 0 {
        crate::arith::law_div_up_covers(total, t);
    } else {
        assert(spec_group_count(Groups::Cover(0), t) * t >= 0) by (nonlinear_arith)
            requires
                spec_group_count(Groups::Cover(0), t) >= 0,
                t >= 1,
        ;
    }
}

/// A trace extends itself.
pub broadcast proof fn lemma_extends_itself(t: Trace)
    ensures
        #[trigger] t.extends(t),
{
    reveal(Trace::extends);
}

proof fn lemma_held_chain(before: Option<u32>, from: int, b: Seq<Command>, c: Seq<Command>)
    requires
        from <= b.len(),
        b.is_prefix_of(c),
    ensures
        held(held(before, b, from), c, b.len() as int) == held(before, c, from),
    decreases c.len(),
{
    if c.len() > b.len() {
        assert(b =~= c.drop_last().subrange(0, b.len() as int));
        lemma_held_chain(before, from, b, c.drop_last());
    } else {
        assert(b =~= c);
    }
}

/// What extends an extension extends the first.
pub broadcast proof fn lemma_extends_chain(a: Trace, b: Trace, c: Trace)
    requires
        #[trigger] b.extends(a),
        #[trigger] c.extends(b),
    ensures
        c.extends(a),
{
    reveal(Trace::extends);
    lemma_held_chain(a.pools.chunk_layer, a.log.len() as int, b.log, c.log);
    assert(a.log =~= c.log.subrange(0, a.log.len() as int));
    assert(a.words =~= c.words.subrange(0, a.words.len() as int));
}

/// The switches and the engine never change, and the recording only grows.
pub broadcast proof fn lemma_extends_setup(a: Trace, b: Trace)
    requires
        #[trigger] b.extends(a),
    ensures
        b.config == a.config,
        b.engine == a.engine,
        a.log.len() <= b.log.len(),
{
    reveal(Trace::extends);
}

/// Encoding nothing is encoding.
pub broadcast proof fn lemma_encodes_itself(t: Trace)
    ensures
        #[trigger] t.encodes(t),
{
    reveal(Trace::encodes);
    lemma_extends_itself(t);
}

/// Encoding further is encoding.
pub broadcast proof fn lemma_encodes_chain(a: Trace, b: Trace, c: Trace)
    requires
        #[trigger] b.encodes(a),
        #[trigger] c.encodes(b),
    ensures
        c.encodes(a),
{
    reveal(Trace::encodes);
    reveal(Trace::extends);
    lemma_extends_chain(a, b, c);
    assert forall|i: int| a.log.len() <= i < c.log.len() implies is_encoding(
        #[trigger] c.log[i],
    ) by {
        if i < b.log.len() {
            assert(c.log[i] == b.log[i]);
        }
    }
}

/// Encoding leaves the switches and the engine as they are, and only adds.
pub broadcast proof fn lemma_encodes_setup(a: Trace, b: Trace)
    requires
        #[trigger] b.encodes(a),
    ensures
        b.config == a.config,
        b.engine == a.engine,
        a.log.len() <= b.log.len(),
{
    reveal(Trace::encodes);
    reveal(Trace::extends);
}

/// Encoding only adds to a trace.
pub broadcast proof fn lemma_encodes_extends(a: Trace, b: Trace)
    requires
        #[trigger] b.encodes(a),
    ensures
        b.extends(a),
{
    reveal(Trace::encodes);
}

/// One more command extends a trace, and encodes where it is one that encodes. A
/// refill of the streaming pool goes with a change of what the pool holds.
pub proof fn lemma_put(t: Trace, c: Command)
    ensures
        !(c is RefillChunkPool) ==> t.put(c).extends(t),
        is_encoding(c) && !(c is RefillChunkPool) ==> t.put(c).encodes(t),
{
    reveal(Trace::extends);
    reveal(Trace::encodes);
    assert(t.put(c).log.drop_last() =~= t.log);
    assert(held(t.pools.chunk_layer, t.log, t.log.len() as int) == t.pools.chunk_layer);
    assert(t.log =~= t.put(c).log.subrange(0, t.log.len() as int));
    assert(t.words =~= t.words.subrange(0, t.words.len() as int));
}

/// Filling the streaming pool encodes.
pub proof fn lemma_fill_pool(t: Trace, layer: u32, prefetch_next: bool)
    ensures
        t.fill_pool(layer, prefetch_next).encodes(t),
{
    reveal(Trace::extends);
    reveal(Trace::encodes);
    let u = t.fill_pool(layer, prefetch_next);
    assert(t.log =~= u.log.subrange(0, t.log.len() as int));
    assert(t.words =~= t.words.subrange(0, t.words.len() as int));
}

/// What is not recorded may change: the trace still extends what it did.
pub broadcast proof fn lemma_extends_aside(a: Trace, b: Trace, c: Trace)
    requires
        #[trigger] b.extends(a),
        c.log == b.log,
        c.words == b.words,
        c.config == b.config,
        c.engine == b.engine,
        c.pools.chunk_layer == b.pools.chunk_layer,
    ensures
        #[trigger] c.extends(a),
{
    reveal(Trace::extends);
}

/// The pools and the kind of the projections may change: the trace still encodes.
pub broadcast proof fn lemma_encodes_aside(a: Trace, b: Trace, c: Trace)
    requires
        #[trigger] b.encodes(a),
        c.log == b.log,
        c.words == b.words,
        c.config == b.config,
        c.engine == b.engine,
        c.pools.chunk_layer == b.pools.chunk_layer,
        c.cmd_buf == b.cmd_buf,
        c.pending == b.pending,
        c.has_event == b.has_event,
        c.event_value == b.event_value,
    ensures
        #[trigger] c.encodes(a),
{
    reveal(Trace::encodes);
    lemma_extends_aside(a, b, c);
}

/// Changes beside the recording.
pub broadcast group group_aside {
    lemma_extends_aside,
    lemma_encodes_aside,
}

/// Steps that encode make up one that does.
pub broadcast group group_encodes {
    lemma_encodes_itself,
    lemma_encodes_chain,
    lemma_encodes_setup,
}

/// Steps that extend make up one that does.
pub broadcast group group_extends {
    lemma_extends_itself,
    lemma_extends_chain,
    lemma_extends_setup,
    lemma_encodes_extends,
}

} // verus!
