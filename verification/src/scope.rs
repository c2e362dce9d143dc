//! The scope: recording commands, committing and waiting, and making buffers.

use crate::command::{Args, BufId, Command, DeferredBuf, Elem, F32, HostRef, Stage};
use crate::config::{Config, Engine};
use crate::kernel::{Kernel, Pipe};
use crate::pool::{PoolKey, PoolState, flip_pool_phase};
use crate::trace::{RecordingView, Trace, is_encoding, lemma_put};
use vstd::prelude::*;

verus! {

broadcast use {crate::trace::group_encodes, crate::trace::group_extends, crate::trace::group_aside};

/// A scope: operations are checked and recorded, and take effect when the
/// recording is carried out.
pub struct BatchScope {
    pub log: Vec<Command>,
    pub words: Vec<u32>,
    pub cmd_buf: u64,
    pub pending_cbs: Vec<u64>,
    pub has_event: bool,
    pub order_event_value: u64,
    pub q8_proj: bool,
    pub pools: PoolState,
    pub engine: Engine,
    pub config: Config,
}

/// What a finished scope leaves: the recording, and the pool for the next scope.
pub struct Recording {
    pub log: Vec<Command>,
    pub words: Vec<u32>,
    pub pools: PoolState,
}

/// A part of what a scope that is still open has recorded: the commands from place
/// `first` on, and all words that they may refer to.
pub struct Excerpt {
    pub first: u64,
    pub log: Vec<Command>,
    pub words: Vec<u32>,
}

impl Recording {
    pub open spec fn view(&self) -> RecordingView {
        RecordingView { log: self.log@, words: self.words@, pools: self.pools@ }
    }
}

impl BatchScope {
    pub open spec fn view(&self) -> Trace {
        Trace {
            log: self.log@,
            words: self.words@,
            cmd_buf: self.cmd_buf,
            pending: self.pending_cbs@,
            has_event: self.has_event,
            event_value: self.order_event_value,
            q8_proj: self.q8_proj,
            pools: self.pools@,
            engine: self.engine@,
            config: self.config,
        }
    }

    /// Opens a scope with a command buffer of its own.
    pub fn new(engine: Engine, config: Config, pools: PoolState) -> (r: BatchScope)
        ensures
            r@ == Trace::start(engine@, config, pools@),
    {
        let mut log: Vec<Command> = Vec::new();
        log.push(Command::NewCommandBuffer);
        let s = BatchScope {
            log,
            words: Vec::new(),
            cmd_buf: 0,
            pending_cbs: Vec::new(),
            has_event: false,
            order_event_value: 0,
            q8_proj: false,
            pools,
            engine,
            config,
        };
        assert(s@ =~= Trace::start(engine@, config, pools@));
        s
    }

    /// The recording and the pool.
    pub fn into_recording(self) -> (r: Recording)
        ensures
            r@ == self@.recording(),
    {
        Recording { log: self.log, words: self.words, pools: self.pools }
    }

    /// How many commands have been recorded: the place of the next one.
    pub fn recorded(&self) -> (r: u64)
        ensures
            r == self@.log.len(),
    {
        self.log.len() as u64
    }

    /// What has been recorded from place `first` on. The scope stays open and its
    /// places go on, so that what was committed and read can be carried out, and
    /// looked at, before more is recorded.
    pub fn recorded_since(&self, first: u64) -> (r: Excerpt)
        ensures
            r.first == first,
            r.log@ == if first <= self@.log.len() {
                self@.log.skip(first as int)
            } else {
                seq![]
            },
            r.words@ == self@.words,
    {
        let mut log: Vec<Command> = Vec::new();
        let mut i: u64 = first;
        while i < self.log.len() as u64
            invariant
                first <= i,
                first <= self.log@.len() ==> i <= self.log@.len() && log@ == self.log@.subrange(
                    first as int,
                    i as int,
                ),
                first > self.log@.len() ==> log@ == Seq::<Command>::empty(),
            decreases self.log@.len() - i,
        {
            log.push(self.log[i as usize]);
            i = i + 1;
            assert(log@ =~= self.log@.subrange(first as int, i as int));
        }
        let mut words: Vec<u32> = Vec::new();
        let mut j: usize = 0;
        while j < self.words.len()
            invariant
                j <= self.words@.len(),
                words@ == self.words@.subrange(0, j as int),
            decreases self.words@.len() - j,
        {
            words.push(self.words[j]);
            j = j + 1;
            assert(words@ =~= self.words@.subrange(0, j as int));
        }
        assert(words@ =~= self.words@);
        Excerpt { first, log, words }
    }

    /// Says whether the attention projections are Q8_0.
    pub fn set_q8_proj(&mut self, on: bool)
        ensures
            final(self)@ == (Trace { q8_proj: on, ..old(self)@ }),
            final(self)@.encodes(old(self)@),
            final(self)@.pools.carrier == old(self)@.pools.carrier,
    {
        proof {
            crate::trace::lemma_encodes_itself(self@);
        }
        self.q8_proj = on;
    }

    pub(crate) fn put(&mut self, c: Command)
        ensures
            final(self)@ == old(self)@.put(c),
            !(c is RefillChunkPool) ==> final(self)@.extends(old(self)@),
            final(self)@.pools.carrier == old(self)@.pools.carrier,
            is_encoding(c) && !(c is RefillChunkPool) ==> final(self)@.encodes(old(self)@),
    {
        proof {
            lemma_put(self@, c);
        }
        self.log.push(c);
    }

    pub(crate) fn at(&self) -> (r: u64)
        ensures
            r == self@.at(),
    {
        self.log.len() as u64
    }

    pub(crate) fn make(&mut self, c: Command, n: u64) -> (r: DeferredBuf)
        ensures
            (final(self)@, r) == old(self)@.make(c, n),
            !(c is RefillChunkPool) ==> final(self)@.extends(old(self)@),
            final(self)@.pools.carrier == old(self)@.pools.carrier,
            is_encoding(c) && !(c is RefillChunkPool) ==> final(self)@.encodes(old(self)@),
    {
        let id: u64 = self.at();
        self.put(c);
        DeferredBuf { buf: BufId::Fresh(id), n_elements: n }
    }

    pub(crate) fn fill_pool(&mut self, layer: u32, prefetch_next: bool)
        ensures
            final(self)@ == old(self)@.fill_pool(layer, prefetch_next),
            final(self)@.encodes(old(self)@),
            final(self)@.pools.carrier == old(self)@.pools.carrier,
    {
        proof {
            crate::trace::lemma_fill_pool(self@, layer, prefetch_next);
        }
        self.put(Command::RefillChunkPool { layer, prefetch_next });
        self.pools.chunk_layer = Some(layer);
    }

    pub(crate) fn has(&self, k: Kernel) -> (r: bool)
        ensures
            r == self@.has(k),
    {
        self.engine.has(k)
    }

    fn rotate(&mut self)
        ensures
            final(self)@ == old(self)@.rotate(),
            final(self)@.extends(old(self)@),
            final(self)@.pools.carrier == old(self)@.pools.carrier,
    {
        self.put(Command::CloseShared);
        let cb: u64 = self.at();
        self.put(Command::NewCommandBuffer);
        self.cmd_buf = cb;
    }

    fn commit(&mut self, cb: u64)
        ensures
            final(self)@ == old(self)@.commit(cb),
            final(self)@.extends(old(self)@),
            final(self)@.pools.carrier == old(self)@.pools.carrier,
    {
        self.put(Command::Commit(cb));
        self.pending_cbs.push(cb);
    }

    fn retire(&mut self, cb: u64, label: Stage)
        ensures
            final(self)@ == old(self)@.retire(cb, label),
            final(self)@.extends(old(self)@),
            final(self)@.pools.carrier == old(self)@.pools.carrier,
    {
        self.put(Command::Wait(cb));
        self.put(Command::CheckOk(cb, label));
        self.put(Command::ProfilePush(cb));
    }

    /// Commits what has been encoded without waiting, and goes on in a new
    /// command buffer.
    pub fn commit_keep_open(&mut self)
        ensures
            final(self)@ == old(self)@.commit_keep_open(),
            final(self)@.extends(old(self)@),
            final(self)@.pools.carrier == old(self)@.pools.carrier,
    {
        let old_cb: u64 = self.cmd_buf;
        self.rotate();
        self.put(Command::Commit(old_cb));
        self.put(Command::ProfilePush(old_cb));
        self.pending_cbs.push(old_cb);
    }

    /// Commits what has been encoded after waiting for the command buffer
    /// committed last, so that one runs while the next is encoded.
    pub fn commit_pipelined(&mut self, label: Stage)
        ensures
            final(self)@ == old(self)@.commit_pipelined(label),
            final(self)@.extends(old(self)@),
            final(self)@.pools.carrier == old(self)@.pools.carrier,
    {
        let old_cb: u64 = self.cmd_buf;
        self.rotate();
        let prev: Option<u64> = self.pending_cbs.pop();
        assert(self@.extends(old(self)@));
        if let Some(cb) = prev {
            self.retire(cb, label);
        }
        self.commit(old_cb);
        flip_pool_phase(&mut self.pools);
    }

    /// Commits what has been encoded, and makes the new command buffer wait on
    /// the device for the old one.
    pub fn event_split(&mut self, _label: Stage)
        requires
            old(self)@.event_value < u64::MAX,
        ensures
            final(self)@ == old(self)@.event_split(),
            final(self)@.extends(old(self)@),
            final(self)@.pools.carrier == old(self)@.pools.carrier,
    {
        let old_cb: u64 = self.cmd_buf;
        self.put(Command::CloseShared);
        if !self.has_event {
            self.put(Command::NewEvent);
            self.has_event = true;
        }
        self.order_event_value = self.order_event_value + 1;
        assert(self@.extends(old(self)@));
        let v: u64 = self.order_event_value;
        let cb: u64 = self.at();
        self.put(Command::NewCommandBuffer);
        self.cmd_buf = cb;
        assert(self@.extends(old(self)@));
        self.put(Command::WaitEvent { cb, value: v });
        self.put(Command::SignalEvent { cb: old_cb, value: v });
        self.commit(old_cb);
    }

    /// [`BatchScope::event_split`], then waits for the oldest command buffers
    /// until at most `window` are pending.
    pub fn event_split_windowed(&mut self, label: Stage, window: u64)
        requires
            old(self)@.event_value < u64::MAX,
        ensures
            final(self)@ == old(self)@.event_split_windowed(label, window),
            final(self)@.pending.len() <= window,
            final(self)@.extends(old(self)@),
            final(self)@.pools.carrier == old(self)@.pools.carrier,
    {
        self.event_split(label);
        let ghost start = self@;
        while self.pending_cbs.len() as u64 > window
            invariant
                self@.extends(old(self)@),
                self@.pools.carrier == old(self)@.pools.carrier,
                self@.retire_to(window, label) == start.retire_to(window, label),
            decreases self.pending_cbs.len(),
        {
            let ghost before = self@;
            let oldest: u64 = self.pending_cbs.remove(0);
            assert(self@.pending =~= before.pending.drop_first());
            assert(self@.extends(old(self)@));
            self.retire(oldest, label);
        }
    }

    fn wait_each(&mut self, cbs: &Vec<u64>)
        ensures
            final(self)@ == old(self)@.wait_each(cbs@, cbs@.len()),
            final(self)@.extends(old(self)@),
            final(self)@.pools.carrier == old(self)@.pools.carrier,
    {
        let ghost start = self@;
        let mut i: usize = 0;
        while i < cbs.len()
            invariant
                self@.extends(old(self)@),
                self@.pools.carrier == old(self)@.pools.carrier,
                i <= cbs@.len(),
                self@ == start.wait_each(cbs@, i as nat),
            decreases cbs@.len() - i,
        {
            self.put(Command::Wait(cbs[i]));
            i = i + 1;
        }
    }

    pub(crate) fn read(&mut self, b: &DeferredBuf, elem: Elem)
        ensures
            final(self)@ == old(self)@.read(*b, elem),
            final(self)@.extends(old(self)@),
            final(self)@.pools.carrier == old(self)@.pools.carrier,
    {
        self.put(Command::Read { buf: b.buf, n: b.n_elements, elem });
    }

    fn read_each(&mut self, bufs: &[DeferredBuf])
        ensures
            final(self)@ == old(self)@.read_each(bufs@, bufs@.len()),
            final(self)@.extends(old(self)@),
            final(self)@.pools.carrier == old(self)@.pools.carrier,
    {
        let ghost start = self@;
        let mut i: usize = 0;
        while i < bufs.len()
            invariant
                self@.extends(old(self)@),
                self@.pools.carrier == old(self)@.pools.carrier,
                i <= bufs@.len(),
                self@ == start.read_each(bufs@, i as nat),
            decreases bufs@.len() - i,
        {
            self.read(&bufs[i], Elem::F32);
            i = i + 1;
        }
    }

    /// Commits, waits for everything pending, and reads one buffer back. What
    /// was pending stays listed.
    pub fn debug_read(&mut self, db: &DeferredBuf)
        ensures
            final(self)@ == old(self)@.debug_read(*db),
            final(self)@.extends(old(self)@),
            final(self)@.pools.carrier == old(self)@.pools.carrier,
    {
        let old_cb: u64 = self.cmd_buf;
        self.rotate();
        self.commit(old_cb);
        let cbs: Vec<u64> = self.copy_pending();
        self.wait_each(&cbs);
        self.read(db, Elem::F32);
    }

    fn copy_pending(&self) -> (r: Vec<u64>)
        ensures
            r@ == self@.pending,
    {
        let mut v: Vec<u64> = Vec::new();
        let mut i: usize = 0;
        while i < self.pending_cbs.len()
            invariant
                i <= self.pending_cbs@.len(),
                v@ == self.pending_cbs@.take(i as int),
            decreases self.pending_cbs@.len() - i,
        {
            v.push(self.pending_cbs[i]);
            i = i + 1;
        }
        v
    }

    /// Commits what has been encoded and waits for it.
    pub fn commit_wait_stage(&mut self, label: Stage)
        ensures
            final(self)@ == old(self)@.commit_wait_stage(label),
            final(self)@.extends(old(self)@),
            final(self)@.pools.carrier == old(self)@.pools.carrier,
    {
        let old_cb: u64 = self.cmd_buf;
        self.rotate();
        self.put(Command::CommitWait(old_cb, label));
        self.put(Command::ProfilePush(old_cb));
    }

    pub(crate) fn stage_if(&mut self, on: bool, label: Stage)
        ensures
            final(self)@ == old(self)@.stage_if(on, label),
            final(self)@.extends(old(self)@),
            final(self)@.pools.carrier == old(self)@.pools.carrier,
            !on ==> final(self)@.encodes(old(self)@),
    {
        if on {
            self.commit_wait_stage(label);
        }
    }

    /// Commits what has been encoded, waits for it, and asks for its time on the device.
    pub fn commit_wait_gpu_us(&mut self)
        ensures
            final(self)@ == old(self)@.commit_wait_gpu_us(),
            final(self)@.extends(old(self)@),
            final(self)@.pools.carrier == old(self)@.pools.carrier,
    {
        let old_cb: u64 = self.cmd_buf;
        self.rotate();
        self.put(Command::Commit(old_cb));
        self.put(Command::Wait(old_cb));
        self.put(Command::GpuTime(old_cb));
    }

    /// Commits, waits for everything pending, and reads buffers back in order.
    pub fn commit_wait_read_multi(&mut self, outputs: &[DeferredBuf])
        ensures
            final(self)@ == old(self)@.commit_wait_read_multi(outputs@),
            final(self)@.extends(old(self)@),
            final(self)@.pools.carrier == old(self)@.pools.carrier,
    {
        self.put(Command::CloseShared);
        self.commit_keep_open();
        let cbs: Vec<u64> = self.copy_pending();
        self.wait_each(&cbs);
        self.pending_cbs = Vec::new();
        assert(self@.extends(old(self)@));
        self.read_each(outputs);
    }

    /// Commits without waiting and hands over every command buffer, oldest first.
    pub fn commit_detach(self) -> (r: (Recording, Vec<u64>))
        ensures
            r.0@ == self@.commit_detach().0.recording(),
            r.1@ == self@.commit_detach().1,
    {
        let mut s = self;
        s.put(Command::CloseShared);
        let cb: u64 = s.cmd_buf;
        s.put(Command::Commit(cb));
        let mut cbs: Vec<u64> = s.copy_pending();
        cbs.push(cb);
        (s.into_recording(), cbs)
    }

    /// Commits, waits for everything, and fails on any error.
    pub fn wait_all_and_drop(self) -> (r: Recording)
        ensures
            r@ == self@.wait_all_and_drop().recording(),
    {
        let mut s = self;
        s.put(Command::CloseShared);
        let cb: u64 = s.cmd_buf;
        s.put(Command::Commit(cb));
        let cbs: Vec<u64> = s.copy_pending();
        let ghost start = s@;
        let mut i: usize = 0;
        while i < cbs.len()
            invariant
                i <= cbs@.len(),
                s@ == start.settle_each(cbs@, i as nat),
            decreases cbs@.len() - i,
        {
            s.put(Command::Wait(cbs[i]));
            s.put(Command::CheckOk(cbs[i], Stage::WaitAllPending));
            i = i + 1;
        }
        s.put(Command::Wait(cb));
        s.put(Command::CheckOk(cb, Stage::WaitAllCurrent));
        s.put(Command::ProfilePush(cb));
        let ghost mid = s@;
        let mut j: usize = 0;
        while j < cbs.len()
            invariant
                j <= cbs@.len(),
                s@ == mid.profile_each(cbs@, j as nat),
            decreases cbs@.len() - j,
        {
            s.put(Command::ProfilePush(cbs[j]));
            j = j + 1;
        }
        s.put(Command::ProfileReport);
        s.into_recording()
    }

    /// Commits, waits for everything, fails on any error, and goes on in a new
    /// command buffer with nothing pending.
    pub fn drain_all_stage(&mut self, label: Stage)
        ensures
            final(self)@ == old(self)@.drain_all_stage(label),
            final(self)@.pending.len() == 0,
            final(self)@.extends(old(self)@),
            final(self)@.pools.carrier == old(self)@.pools.carrier,
    {
        let old_cb: u64 = self.cmd_buf;
        self.rotate();
        self.put(Command::Commit(old_cb));
        let cbs: Vec<u64> = self.copy_pending();
        let ghost start = self@;
        let mut i: usize = 0;
        while i < cbs.len()
            invariant
                self@.extends(old(self)@),
                self@.pools.carrier == old(self)@.pools.carrier,
                i <= cbs@.len(),
                self@ == start.retire_each(cbs@, i as nat, label),
            decreases cbs@.len() - i,
        {
            self.retire(cbs[i], label);
            i = i + 1;
        }
        self.pending_cbs = Vec::new();
        assert(self@.extends(old(self)@));
        self.retire(old_cb, label);
    }

    fn finish(&mut self, label: Stage)
        ensures
            final(self)@ == old(self)@.finish(label),
            final(self)@.extends(old(self)@),
            final(self)@.pools.carrier == old(self)@.pools.carrier,
    {
        let cb: u64 = self.cmd_buf;
        self.put(Command::CloseShared);
        let n: u64 = self.pending_cbs.len() as u64;
        self.put(Command::DrainTrace(n));
        let cbs: Vec<u64> = self.copy_pending();
        self.wait_each(&cbs);
        self.put(Command::CommitWait(cb, label));
    }

    /// Ends the scope: commits, waits for everything, and reads one buffer back.
    pub fn flush_and_read(self, out: &DeferredBuf) -> (r: Recording)
        ensures
            r@ == self@.flush_and_read(*out).recording(),
    {
        let mut s = self;
        s.finish(Stage::FlushAndRead);
        s.read(out, Elem::F32);
        s.into_recording()
    }

    /// Ends the scope: commits, waits for everything, and reads buffers back in order.
    pub fn flush_and_read_multi(self, outs: &[DeferredBuf]) -> (r: Recording)
        ensures
            r@ == self@.flush_and_read_multi(outs@).recording(),
    {
        let mut s = self;
        s.finish(Stage::FlushAndReadMulti);
        s.read_each(outs);
        s.into_recording()
    }

    /// [`BatchScope::flush_and_read`] for a buffer of integers.
    pub fn flush_and_read_i32(self, out: &DeferredBuf) -> (r: Recording)
        ensures
            r@ == self@.flush_and_read_i32(*out).recording(),
    {
        let mut s = self;
        s.finish(Stage::FlushAndReadI32);
        s.read(out, Elem::I32);
        s.into_recording()
    }

    /// Uploads single-precision values.
    pub fn upload_f32(&mut self, data: HostRef) -> (r: DeferredBuf)
        ensures
            (final(self)@, r) == old(self)@.upload_f32(data),
            final(self)@.encodes(old(self)@),
            final(self)@.pools.carrier == old(self)@.pools.carrier,
    {
        self.make(Command::Upload { elem: Elem::F32, host: data }, data.len)
    }

    /// Uploads integers.
    pub fn upload_i32(&mut self, data: HostRef) -> (r: DeferredBuf)
        ensures
            (final(self)@, r) == old(self)@.upload_i32(data),
            final(self)@.encodes(old(self)@),
            final(self)@.pools.carrier == old(self)@.pools.carrier,
    {
        self.make(Command::Upload { elem: Elem::I32, host: data }, data.len)
    }

    pub(crate) fn upload_word(&mut self, w: u32) -> (r: DeferredBuf)
        ensures
            (final(self)@, r) == old(self)@.upload_word(w),
            final(self)@.encodes(old(self)@),
            final(self)@.pools.carrier == old(self)@.pools.carrier,
    {
        self.make(Command::UploadWord(w), 1)
    }

    /// Makes a buffer of `n` single-precision elements.
    pub fn alloc_f32(&mut self, n: u64) -> (r: DeferredBuf)
        ensures
            (final(self)@, r) == old(self)@.alloc_f32(n),
            final(self)@.encodes(old(self)@),
            final(self)@.pools.carrier == old(self)@.pools.carrier,
    {
        let b: DeferredBuf = self.make(Command::NewBuffer { elem: Elem::F32, n }, n);
        if self.config.zero_scratch && n >= self.config.zero_min && n <= self.config.zero_max {
            self.put(Command::Zero { buf: b.buf, n });
        }
        b
    }

    /// Makes a buffer of `n` integers.
    pub fn alloc_i32(&mut self, n: u64) -> (r: DeferredBuf)
        ensures
            (final(self)@, r) == old(self)@.alloc_i32(n),
            final(self)@.encodes(old(self)@),
            final(self)@.pools.carrier == old(self)@.pools.carrier,
    {
        self.make(Command::NewBuffer { elem: Elem::I32, n }, n)
    }

    pub(crate) fn alloc_u16(&mut self, n: u64) -> (r: DeferredBuf)
        ensures
            (final(self)@, r) == old(self)@.alloc_u16(n),
            final(self)@.encodes(old(self)@),
            final(self)@.pools.carrier == old(self)@.pools.carrier,
    {
        self.make(Command::NewBuffer { elem: Elem::U16, n }, n)
    }

    fn pooled(&mut self, key: PoolKey, tag: u64, elem: Elem, n: u64) -> (r: DeferredBuf)
        ensures
            (final(self)@, r) == old(self)@.pooled(key, tag, elem, n),
            final(self)@.encodes(old(self)@),
            final(self)@.pools.carrier == old(self)@.pools.carrier,
    {
        let b: DeferredBuf = DeferredBuf { buf: BufId::Pooled(key, tag), n_elements: n };
        if !self.pools.has(key, tag) {
            self.put(Command::NewPooled { key, tag, elem, n });
            self.pin_pooled_resident(b.buf);
            self.pools.entries.push((key, tag));
        }
        b
    }

    fn pin_pooled_resident(&mut self, buf: BufId)
        ensures
            final(self)@ == old(self)@.put(Command::Pin(buf)).put(Command::CommitResidency),
            final(self)@.encodes(old(self)@),
            final(self)@.pools.carrier == old(self)@.pools.carrier,
    {
        self.put(Command::Pin(buf));
        self.put(Command::CommitResidency);
    }

    fn pool_phase_bit(&self) -> (r: u64)
        ensures
            r == self@.bit(),
    {
        if self.config.pool_pingpong && self.pools.phase {
            0x8000_0000_0000_0000
        } else {
            0
        }
    }

    fn warn_pool_scratch_unstable(&mut self)
        ensures
            final(self)@ == old(self)@.warned(),
            final(self)@.encodes(old(self)@),
            final(self)@.pools.carrier == old(self)@.pools.carrier,
    {
        if !self.config.hash_gpu {
            self.put(Command::WarnPooled);
        }
    }

    /// Scratch that lives within one layer: one buffer per name and length where
    /// pooling is on, else a fresh one.
    pub fn pooled_scratch_f32(&mut self, key: PoolKey, n: u64) -> (r: DeferredBuf)
        ensures
            (final(self)@, r) == old(self)@.pooled_scratch_f32(key, n),
            r.n_elements == n,
            final(self)@.encodes(old(self)@),
            final(self)@.pools.carrier == old(self)@.pools.carrier,
    {
        proof {
            reveal(Trace::pooled_scratch_f32);
        }
        if !self.config.pool_scratch {
            return self.alloc_f32(n);
        }
        self.warn_pool_scratch_unstable();
        let bit: u64 = self.pool_phase_bit();
        self.pooled(key, n | bit, Elem::F32, n)
    }

    /// [`BatchScope::pooled_scratch_f32`] for half-precision elements.
    pub fn pooled_scratch_u16(&mut self, key: PoolKey, n: u64) -> (r: DeferredBuf)
        ensures
            (final(self)@, r) == old(self)@.pooled_scratch_u16(key, n),
            r.n_elements == n,
            final(self)@.encodes(old(self)@),
            final(self)@.pools.carrier == old(self)@.pools.carrier,
    {
        proof {
            reveal(Trace::pooled_scratch_u16);
        }
        if !self.config.pool_scratch {
            return self.alloc_u16(n);
        }
        self.warn_pool_scratch_unstable();
        let bit: u64 = self.pool_phase_bit();
        self.pooled(key, n | 0x4000_0000_0000_0000u64 | bit, Elem::U16, n)
    }

    pub(crate) fn arm(&mut self, key: PoolKey)
        ensures
            final(self)@ == old(self)@.arm(key),
            final(self)@.encodes(old(self)@),
            final(self)@.pools.carrier == old(self)@.pools.carrier,
    {
        proof {
            crate::trace::lemma_encodes_itself(self@);
        }
        crate::pool::arm_attn_pool_key(&mut self.pools, key);
    }

    pub(crate) fn disarm(&mut self)
        ensures
            final(self)@ == old(self)@.disarm(),
            final(self)@.encodes(old(self)@),
            final(self)@.pools.carrier == old(self)@.pools.carrier,
    {
        proof {
            crate::trace::lemma_encodes_itself(self@);
        }
        self.pools.attn_key = None;
    }

    pub(crate) fn alloc_attn_out(&mut self, n: u64) -> (r: DeferredBuf)
        ensures
            (final(self)@, r) == old(self)@.alloc_attn_out(n),
            r.n_elements == n,
            final(self)@.encodes(old(self)@),
            final(self)@.pools.carrier == old(self)@.pools.carrier,
    {
        proof {
            reveal(Trace::alloc_attn_out);
        }
        let key: Option<PoolKey> = self.pools.attn_key;
        self.disarm();
        match key {
            Some(key) if self.config.pool_attn => {
                let bit: u64 = self.pool_phase_bit();
                self.pooled(key, n | bit, Elem::F32, n)
            },
            _ => self.alloc_f32(n),
        }
    }

    /// A weight array, uploaded once per host array.
    pub fn weight_f32(&mut self, w: HostRef) -> (r: DeferredBuf)
        requires
            old(self)@.config.trap_zero_weight ==> w.len > 0,
        ensures
            (final(self)@, r) == old(self)@.weight_f32(w),
            final(self)@.encodes(old(self)@),
            final(self)@.pools.carrier == old(self)@.pools.carrier,
    {
        self.put(Command::CachedWeight(w));
        DeferredBuf { buf: BufId::Weight(w.id), n_elements: w.len }
    }

    /// [`BatchScope::weight_f32`], or one element of scratch for an empty array.
    pub fn weight_f32_lean_opt(&mut self, w: HostRef) -> (r: DeferredBuf)
        ensures
            (final(self)@, r) == old(self)@.weight_f32_lean_opt(w),
            final(self)@.encodes(old(self)@),
            final(self)@.pools.carrier == old(self)@.pools.carrier,
    {
        if w.len == 0 {
            return self.alloc_f32(1);
        }
        self.weight_f32(w)
    }

    /// A weight array, quantised to Q8_0 once per host array.
    pub fn weight_q8_0(&mut self, w: HostRef) -> (r: DeferredBuf)
        ensures
            (final(self)@, r) == old(self)@.weight_q8_0(w),
            final(self)@.encodes(old(self)@),
            final(self)@.pools.carrier == old(self)@.pools.carrier,
    {
        self.put(Command::CachedWeightQ8(w));
        DeferredBuf { buf: BufId::WeightQ8(w.id), n_elements: w.len }
    }

    /// Raw Q8_0 bytes that hold `n_weights` weights.
    pub fn weight_q8_0_raw(&mut self, bytes: HostRef, n_weights: u64) -> (r: DeferredBuf)
        ensures
            (final(self)@, r) == old(self)@.weight_q8_0_raw(bytes, n_weights),
            final(self)@.encodes(old(self)@),
            final(self)@.pools.carrier == old(self)@.pools.carrier,
    {
        self.put(Command::CachedRaw(bytes));
        DeferredBuf { buf: BufId::WeightRaw(bytes.id), n_elements: n_weights }
    }

    /// Raw half-precision bytes.
    pub fn weight_f16(&mut self, bytes: HostRef) -> (r: DeferredBuf)
        ensures
            (final(self)@, r) == old(self)@.weight_f16(bytes),
            final(self)@.encodes(old(self)@),
            final(self)@.pools.carrier == old(self)@.pools.carrier,
    {
        self.weight_q8_0_raw(bytes, bytes.len / 2)
    }

    /// The half-precision bytes where there are some, else the single-precision
    /// array; and which it was.
    pub fn weight_hc(&mut self, w: HostRef, half: Option<HostRef>) -> (r: (DeferredBuf, bool))
        requires
            half is None && old(self)@.config.trap_zero_weight ==> w.len > 0,
        ensures
            (final(self)@, r) == old(self)@.weight_hc(w, half),
            final(self)@.encodes(old(self)@),
            final(self)@.pools.carrier == old(self)@.pools.carrier,
    {
        match half {
            Some(bytes) => (self.weight_f16(bytes), true),
            None => (self.weight_f32(w), false),
        }
    }

    pub(crate) fn blit(&mut self, src: BufId, src_off: u64, dst: BufId, dst_off: u64, bytes: u64)
        ensures
            final(self)@ == old(self)@.blit(src, src_off, dst, dst_off, bytes),
            final(self)@.encodes(old(self)@),
            final(self)@.pools.carrier == old(self)@.pools.carrier,
    {
        self.put(Command::CloseShared);
        self.put(Command::Blit);
        self.put(Command::Copy { src, src_off, dst, dst_off, bytes });
        self.put(Command::EndBlit);
    }

    /// Copies the whole of `src` to `dst` from an element on.
    pub fn copy_buf_into(&mut self, src: &DeferredBuf, dst: BufId, dst_elem_off: u64)
        requires
            src.n_elements * 4 <= u64::MAX,
            dst_elem_off * 4 <= u64::MAX,
        ensures
            final(self)@ == old(self)@.copy_buf_into(*src, dst, dst_elem_off),
            final(self)@.encodes(old(self)@),
            final(self)@.pools.carrier == old(self)@.pools.carrier,
    {
        self.blit(src.buf, 0, dst, dst_elem_off * 4, src.n_elements * 4);
    }

    /// Copies `n_elems` elements of `src` out into a buffer of their own.
    pub fn slice_out_f32(&mut self, src: &DeferredBuf, src_elem_off: u64, n_elems: u64) -> (r:
        DeferredBuf)
        requires
            src_elem_off + n_elems <= src.n_elements,
            src_elem_off * 4 <= u64::MAX,
            n_elems * 4 <= u64::MAX,
        ensures
            (final(self)@, r) == old(self)@.slice_out_f32(*src, src_elem_off, n_elems),
            final(self)@.encodes(old(self)@),
            final(self)@.pools.carrier == old(self)@.pools.carrier,
    {
        let out: DeferredBuf = self.make(
            Command::NewBuffer { elem: Elem::F32, n: n_elems },
            n_elems,
        );
        self.blit(src.buf, src_elem_off * 4, out.buf, 0, n_elems * 4);
        out
    }

    /// A zeroed window of `n_rows` rows.
    pub fn alloc_swa_raw_window(&mut self, n_rows: u64, head_dim: u64) -> (r: DeferredBuf)
        requires
            n_rows * head_dim <= u64::MAX,
        ensures
            (final(self)@, r) == old(self)@.alloc_swa_raw_window(n_rows, head_dim),
            final(self)@.encodes(old(self)@),
            final(self)@.pools.carrier == old(self)@.pools.carrier,
    {
        let n: u64 = n_rows * head_dim;
        let b: DeferredBuf = self.make(Command::NewBuffer { elem: Elem::F32, n }, n);
        self.put(Command::Zero { buf: b.buf, n });
        b
    }

    pub(crate) fn add_words(&mut self, ws: &[u32]) -> (r: u64)
        ensures
            (final(self)@, r) == old(self)@.add_words(ws@),
            final(self)@.encodes(old(self)@),
            final(self)@.pools.carrier == old(self)@.pools.carrier,
    {
        let start: u64 = self.words.len() as u64;
        let ghost before = self.words@;
        let mut i: usize = 0;
        while i < ws.len()
            invariant
                i <= ws@.len(),
                self@ == (Trace { words: before + ws@.take(i as int), ..old(self)@ }),
            decreases ws@.len() - i,
        {
            self.words.push(ws[i]);
            i = i + 1;
            assert(self.words@ =~= before + ws@.take(i as int));
        }
        assert(ws@.take(ws@.len() as int) =~= ws@);
        proof {
            reveal(Trace::encodes);
            reveal(Trace::extends);
            assert(before =~= self.words@.subrange(0, before.len() as int));
            assert(self.log@ =~= self.log@.subrange(0, self.log@.len() as int));
        }
        start
    }

    pub(crate) fn bind3(
        &mut self,
        pipe: Pipe,
        args: Args,
        b1: BufId,
        b2: (BufId, u64),
        b3: (BufId, u64),
        group_memory: u64,
        groups: (u64, u64, u64),
        threads: (u64, u64, u64),
    )
        ensures
            final(self)@ == old(self)@.bind3(
                pipe,
                args,
                b1,
                b2,
                b3,
                group_memory,
                groups,
                threads,
            ),
            final(self)@.encodes(old(self)@),
            final(self)@.pools.carrier == old(self)@.pools.carrier,
    {
        self.put(Command::Pipeline(pipe));
        self.put(Command::Bytes(0, args));
        self.put(Command::Buffer(1, b1, 0));
        self.put(Command::Buffer(2, b2.0, b2.1));
        self.put(Command::Buffer(3, b3.0, b3.1));
        self.put(Command::GroupMemory(group_memory));
        self.put(Command::Dispatch(groups, threads));
    }

    pub(crate) fn launch3(
        &mut self,
        pipe: Pipe,
        args: Args,
        b1: BufId,
        b2: (BufId, u64),
        b3: (BufId, u64),
        group_memory: u64,
        groups: (u64, u64, u64),
        threads: (u64, u64, u64),
    )
        ensures
            final(self)@ == old(self)@.launch3(
                pipe,
                args,
                b1,
                b2,
                b3,
                group_memory,
                groups,
                threads,
            ),
            final(self)@.encodes(old(self)@),
            final(self)@.pools.carrier == old(self)@.pools.carrier,
    {
        self.put(Command::Encoder);
        self.bind3(pipe, args, b1, b2, b3, group_memory, groups, threads);
        self.put(Command::EndEncoder);
    }

    pub(crate) fn u32_at(&mut self, slot: u64, v: u32)
        ensures
            final(self)@ == old(self)@.u32_at(slot, v),
            final(self)@.encodes(old(self)@),
            final(self)@.pools.carrier == old(self)@.pools.carrier,
    {
        self.put(Command::Bytes(slot, Args::U32(v)));
    }

    pub(crate) fn f32_at(&mut self, slot: u64, v: F32)
        ensures
            final(self)@ == old(self)@.f32_at(slot, v),
            final(self)@.encodes(old(self)@),
            final(self)@.pools.carrier == old(self)@.pools.carrier,
    {
        self.put(Command::Bytes(slot, Args::F32(v)));
    }

    pub(crate) fn buf_at(&mut self, slot: u64, b: BufId)
        ensures
            final(self)@ == old(self)@.buf_at(slot, b),
            final(self)@.encodes(old(self)@),
            final(self)@.pools.carrier == old(self)@.pools.carrier,
    {
        self.put(Command::Buffer(slot, b, 0));
    }
}

} // verus!
