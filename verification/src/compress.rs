//! The compressor: rows pooled into a ring of compressed rows.

use crate::arith::{div_up, spec_div_up};
use crate::command::{Ape, Args, BufId, Command, CompStore, DeferredBuf, F32, HostRef, PoolFillArgs,
    PrefillArgs, PrefillIdx, Source};
use crate::config::LayerParams;
use crate::error::{Check, EncodeError, unfit};
use crate::kernel::{Kernel, Pipe};
use crate::scope::BatchScope;
use crate::trace::Trace;
use vstd::prelude::*;

verus! {

broadcast use crate::trace::group_encodes;

/// The position encoding of a compressor, turned from `width` rows of `ratio`
/// into `ratio` rows of `width`.
pub fn transpose_ape(src: &[u32], width: usize, ratio: usize) -> (r: Vec<u32>)
    requires
        width * ratio <= src@.len(),
        width * ratio <= usize::MAX,
    ensures
        r@.len() == ratio * width,
        forall|row: int, col: int|
            0 <= row < ratio && 0 <= col < width ==> #[trigger] r@[row * width + col] == src@[col
                * ratio + row],
{
    let mut out: Vec<u32> = Vec::new();
    let mut row: usize = 0;
    assert(0 * width == 0) by (nonlinear_arith);
    while row < ratio
        invariant
            row <= ratio,
            width * ratio <= src@.len(),
            width * ratio <= usize::MAX,
            out@.len() == row * width,
            forall|a: int, b: int|
                0 <= a < row && 0 <= b < width ==> #[trigger] out@[a * width + b] == src@[b * ratio
                    + a],
        decreases ratio - row,
    {
        let ghost base = out@;
        let mut col: usize = 0;
        while col < width
            invariant
                row < ratio,
                col <= width,
                width * ratio <= src@.len(),
                width * ratio <= usize::MAX,
                base.len() == row * width,
                out@.len() == row * width + col,
                out@.take(base.len() as int) == base,
                forall|b: int|
                    0 <= b < col ==> #[trigger] out@[row * width + b] == src@[b * ratio + row],
            decreases width - col,
        {
            proof {
                lemma_cell(col as int, row as int, width as int, ratio as int);
            }
            let ghost before = out@;
            out.push(src[col * ratio + row]);
            assert(out@.take(base.len() as int) =~= before.take(base.len() as int));
            col = col + 1;
        }
        proof {
            assert((row + 1) * width == row * width + width) by (nonlinear_arith);
            assert forall|a: int, b: int|
                0 <= a < row + 1 && 0 <= b < width implies #[trigger] out@[a * width + b]
                == src@[b * ratio + a] by {
                if a < row {
                    assert(a * width + b < row * width && 0 <= a * width + b) by (nonlinear_arith)
                        requires
                            0 <= a < row,
                            0 <= b < width,
                    ;
                    assert(out@[a * width + b] == out@.take(base.len() as int)[a * width + b]);
                }
            }
        }
        row = row + 1;
    }
    proof {
        assert(row * width == ratio * width) by (nonlinear_arith)
            requires
                row == ratio,
        ;
    }
    out
}

proof fn lemma_cell(col: int, row: int, width: int, ratio: int)
    requires
        0 <= col < width,
        0 <= row < ratio,
    ensures
        0 <= col * ratio,
        col * ratio + row < width * ratio,
{
    assert(0 <= col * ratio && col * ratio + row < width * ratio) by (nonlinear_arith)
        requires
            0 <= col < width,
            0 <= row < ratio,
    ;
}

/// The arguments of a chunk compression.
pub open spec fn spec_prefill_args(
    head_dim: u32,
    ratio: u32,
    n_rot: u32,
    chunk_start: u32,
    comp_row0: u32,
    n_comp: u32,
    params: LayerParams,
    rms_eps: F32,
) -> PrefillArgs {
    PrefillArgs {
        head_dim,
        ratio,
        n_rot,
        pos0: chunk_start,
        comp_row0,
        n_comp,
        rms_eps,
        freq_base: params.rope_freq_base,
        freq_scale: params.rope_freq_scale,
        ext_factor: params.rope_ext_factor,
        attn_factor: params.rope_attn_factor,
        beta_fast: F32(0x4200_0000),
        beta_slow: F32(0x3f80_0000),
        orig_ctx: params.rope_orig_ctx,
        backward: 0,
    }
}

impl Trace {
    #[verifier::opaque]
    pub open spec fn compressor_prefill_noidx(
        self,
        kv: DeferredBuf,
        sc: DeferredBuf,
        ape: HostRef,
        norm: HostRef,
        comp_ring: BufId,
        head_dim: u32,
        ratio: u32,
        n_rot: u32,
        chunk_start: u32,
        comp_row0: u32,
        n_comp: u32,
        params: LayerParams,
        rms_eps: F32,
    ) -> (Trace, Result<(), EncodeError>) {
        if ratio == 0 || ratio == 4 {
            self.refuse(Check::Ratio, ratio as int, 4)
        } else if n_rot % 2 != 0 || n_rot > head_dim {
            self.refuse(Check::RotaryDim, n_rot as int, head_dim as int)
        } else if head_dim > 1024 {
            self.refuse(Check::HeadDim, head_dim as int, 1024)
        } else if ape.len != head_dim * ratio {
            self.refuse(Check::ApeLen, ape.len as int, head_dim * ratio)
        } else if norm.len != head_dim {
            self.refuse(Check::NormLen, norm.len as int, head_dim as int)
        } else if n_comp == 0 {
            (self, Ok(()))
        } else if !self.has(Kernel::CompressorPrefillNoidx) {
            self.missing(Kernel::CompressorPrefillNoidx)
        } else {
            let (t, ape_db) = self.upload_f32(ape);
            let (t, norm_db) = t.upload_f32(norm);
            (
                t.put(Command::Encoder).put(
                    Command::Pipeline(Pipe::Loaded(Kernel::CompressorPrefillNoidx)),
                ).buf_at(0, kv.buf).buf_at(1, sc.buf).buf_at(2, ape_db.buf).buf_at(
                    3,
                    norm_db.buf,
                ).buf_at(4, comp_ring).put(
                    Command::Bytes(
                        5,
                        Args::Prefill(
                            spec_prefill_args(
                                head_dim,
                                ratio,
                                n_rot,
                                chunk_start,
                                comp_row0,
                                n_comp,
                                params,
                                rms_eps,
                            ),
                        ),
                    ),
                ).put(Command::Dispatch((n_comp as u64, 1, 1), (head_dim as u64, 1, 1))).put(
                    Command::EndEncoder,
                ),
                Ok(()),
            )
        }
    }

    #[verifier::opaque]
    pub open spec fn compressor_prefill_idx(
        self,
        kv: DeferredBuf,
        sc: DeferredBuf,
        ape: HostRef,
        norm: HostRef,
        comp_ring: BufId,
        head_dim: u32,
        n_rot: u32,
        chunk_start: u32,
        comp_row0: u32,
        n_comp: u32,
        params: LayerParams,
        rms_eps: F32,
    ) -> (Trace, Result<(), EncodeError>) {
        if n_rot % 2 != 0 || n_rot > head_dim {
            self.refuse(Check::RotaryDim, n_rot as int, head_dim as int)
        } else if ape.len != 2 * head_dim * 4 {
            self.refuse(Check::ApeLen, ape.len as int, 2 * head_dim * 4)
        } else if norm.len != head_dim {
            self.refuse(Check::NormLen, norm.len as int, head_dim as int)
        } else if n_comp == 0 {
            (self, Ok(()))
        } else {
            let (t, ape_db) = self.upload_f32(ape);
            let (t, norm_db) = t.upload_f32(norm);
            (
                t.put(
                    Command::PrefillIdx(
                        PrefillIdx {
                            kv: kv.buf,
                            sc: sc.buf,
                            ape: ape_db.buf,
                            norm: norm_db.buf,
                            comp_ring,
                            head_dim,
                            n_rot,
                            chunk_start,
                            comp_row0,
                            n_comp,
                            params,
                            rms_eps,
                        },
                    ),
                ),
                Ok(()),
            )
        }
    }

    #[verifier::opaque]
    pub open spec fn compressor_pool_fill_noidx(
        self,
        kv: DeferredBuf,
        sc: DeferredBuf,
        ape: HostRef,
        state_kv: BufId,
        state_score: BufId,
        head_dim: u32,
        ratio: u32,
        chunk_start: u32,
        first: u32,
        rem: u32,
    ) -> (Trace, Result<(), EncodeError>) {
        if rem == 0 {
            (self, Ok(()))
        } else if rem > ratio {
            self.refuse(Check::Rows, rem as int, ratio as int)
        } else if ape.len != head_dim * ratio {
            self.refuse(Check::ApeLen, ape.len as int, head_dim * ratio)
        } else if !self.has(Kernel::CompressorPoolFillNoidx) {
            self.missing(Kernel::CompressorPoolFillNoidx)
        } else {
            let (t, ape_db) = self.upload_f32(ape);
            let tg: u64 = if head_dim < 32 {
                head_dim as u64
            } else {
                32
            };
            (
                t.put(Command::Encoder).put(
                    Command::Pipeline(Pipe::Loaded(Kernel::CompressorPoolFillNoidx)),
                ).buf_at(0, kv.buf).buf_at(1, sc.buf).buf_at(2, ape_db.buf).buf_at(
                    3,
                    state_kv,
                ).buf_at(4, state_score).put(
                    Command::Bytes(
                        5,
                        Args::PoolFill(
                            PoolFillArgs { width: head_dim, ratio, pos0: chunk_start, first, rem },
                        ),
                    ),
                ).put(
                    Command::Dispatch(
                        (spec_div_up(head_dim as u64, tg), rem as u64, 1),
                        (tg, 1, 1),
                    ),
                ).put(Command::EndEncoder),
                Ok(()),
            )
        }
    }
}

impl BatchScope {
    /// Stores one row of keys, values and scores, from the host, into a compressor's state.
    pub fn compressor_store_one(
        &mut self,
        kv: HostRef,
        score: HostRef,
        ape_bytes: HostRef,
        state_kv: BufId,
        state_score: BufId,
        width: u32,
        ratio: u32,
        pos: u32,
        ape_is_f16: bool,
    ) -> (r: Result<(), EncodeError>)
        ensures
            r is Ok,
            final(self)@ == old(self)@.put(
                Command::CompStore(
                    (CompStore {
                        kv: Source::Host(kv),
                        score: Source::Host(score),
                        ape: Ape::Host(ape_bytes),
                        state_kv,
                        state_score,
                        width,
                        ratio,
                        pos,
                        ape_is_f16,
                    }),
                ),
            ),
            final(self)@.encodes(old(self)@),
            final(self)@.pools.carrier == old(self)@.pools.carrier,
    {
        self.put(
            Command::CompStore(
                CompStore {
                    kv: Source::Host(kv),
                    score: Source::Host(score),
                    ape: Ape::Host(ape_bytes),
                    state_kv,
                    state_score,
                    width,
                    ratio,
                    pos,
                    ape_is_f16,
                },
            ),
        );
        Ok(())
    }

    /// [`BatchScope::compressor_store_one`] with the row on the device.
    pub fn compressor_store_one_db(
        &mut self,
        kv: &DeferredBuf,
        score: &DeferredBuf,
        ape: Ape,
        state_kv: BufId,
        state_score: BufId,
        width: u32,
        ratio: u32,
        pos: u32,
        ape_is_f16: bool,
    ) -> (r: Result<(), EncodeError>)
        ensures
            r is Ok,
            final(self)@ == old(self)@.put(
                Command::CompStore(
                    (CompStore {
                        kv: Source::Device(kv.buf),
                        score: Source::Device(score.buf),
                        ape,
                        state_kv,
                        state_score,
                        width,
                        ratio,
                        pos,
                        ape_is_f16,
                    }),
                ),
            ),
            final(self)@.encodes(old(self)@),
            final(self)@.pools.carrier == old(self)@.pools.carrier,
    {
        self.put(
            Command::CompStore(
                CompStore {
                    kv: Source::Device(kv.buf),
                    score: Source::Device(score.buf),
                    ape,
                    state_kv,
                    state_score,
                    width,
                    ratio,
                    pos,
                    ape_is_f16,
                },
            ),
        );
        Ok(())
    }

    /// Pools `n_rows` rows into one, weighted by their scores.
    pub fn softmax_pool(&mut self, kv: BufId, score: BufId, n_rows: u32, width: u32) -> (r: Result<
        DeferredBuf,
        EncodeError,
    >)
        ensures
            r is Ok,
            (final(self)@, r->Ok_0) == old(self)@.make(
                Command::SoftmaxPool { kv, score, n_rows, width },
                width as u64,
            ),
            final(self)@.encodes(old(self)@),
            final(self)@.pools.carrier == old(self)@.pools.carrier,
    {
        Ok(self.make(Command::SoftmaxPool { kv, score, n_rows, width }, width as u64))
    }

    /// Pools the overlapping windows of four that a compressor's state holds.
    pub fn compressor_pool_ratio4(&mut self, state_kv: BufId, state_score: BufId, head_dim: u32)
        -> (r: Result<DeferredBuf, EncodeError>)
        ensures
            r is Ok,
            (final(self)@, r->Ok_0) == old(self)@.make(
                Command::PoolRatio4 { state_kv, state_score, head_dim },
                head_dim as u64,
            ),
            final(self)@.encodes(old(self)@),
            final(self)@.pools.carrier == old(self)@.pools.carrier,
    {
        Ok(self.make(Command::PoolRatio4 { state_kv, state_score, head_dim }, head_dim as u64))
    }

    /// Moves the newer window of a compressor's state to the place of the older.
    pub fn compressor_rotate_ratio4(&mut self, state_kv: BufId, state_score: BufId, head_dim: u32)
        -> (r: Result<(), EncodeError>)
        ensures
            r is Ok,
            final(self)@ == old(self)@.put(
                Command::RotateRatio4 { state_kv, state_score, head_dim },
            ),
            final(self)@.encodes(old(self)@),
            final(self)@.pools.carrier == old(self)@.pools.carrier,
    {
        self.put(Command::RotateRatio4 { state_kv, state_score, head_dim });
        Ok(())
    }

    /// Compresses the whole windows of a chunk into rows of the ring.
    pub fn compressor_prefill_noidx(
        &mut self,
        kv: &DeferredBuf,
        sc: &DeferredBuf,
        ape: HostRef,
        norm: HostRef,
        comp_ring: BufId,
        head_dim: u32,
        ratio: u32,
        n_rot: u32,
        chunk_start: u32,
        comp_row0: u32,
        n_comp: u32,
        params: &LayerParams,
        rms_eps: F32,
    ) -> (r: Result<(), EncodeError>)
        requires
            ratio != 4 && n_rot % 2 == 0 && n_rot <= head_dim <= 1024 ==> head_dim * ratio
                <= u32::MAX,
        ensures
            (final(self)@, r) == old(self)@.compressor_prefill_noidx(
                *kv,
                *sc,
                ape,
                norm,
                comp_ring,
                head_dim,
                ratio,
                n_rot,
                chunk_start,
                comp_row0,
                n_comp,
                *params,
                rms_eps,
            ),
            final(self)@.encodes(old(self)@),
            final(self)@.pools.carrier == old(self)@.pools.carrier,
    {
        proof {
            reveal(Trace::compressor_prefill_noidx);
        }
        if ratio == 0 || ratio == 4 {
            return Err(unfit(Check::Ratio, ratio as u64, 4));
        }
        if n_rot % 2 != 0 || n_rot > head_dim {
            return Err(unfit(Check::RotaryDim, n_rot as u64, head_dim as u64));
        }
        if head_dim > 1024 {
            return Err(unfit(Check::HeadDim, head_dim as u64, 1024));
        }
        if ape.len != (head_dim * ratio) as u64 {
            return Err(unfit(Check::ApeLen, ape.len, (head_dim * ratio) as u64));
        }
        if norm.len != head_dim as u64 {
            return Err(unfit(Check::NormLen, norm.len, head_dim as u64));
        }
        if n_comp == 0 {
            return Ok(());
        }
        if !self.has(Kernel::CompressorPrefillNoidx) {
            return Err(EncodeError::NotLoaded(Kernel::CompressorPrefillNoidx));
        }
        let ape_db: DeferredBuf = self.upload_f32(ape);
        let norm_db: DeferredBuf = self.upload_f32(norm);
        let args: PrefillArgs = PrefillArgs {
            head_dim,
            ratio,
            n_rot,
            pos0: chunk_start,
            comp_row0,
            n_comp,
            rms_eps,
            freq_base: params.rope_freq_base,
            freq_scale: params.rope_freq_scale,
            ext_factor: params.rope_ext_factor,
            attn_factor: params.rope_attn_factor,
            beta_fast: F32(0x4200_0000),
            beta_slow: F32(0x3f80_0000),
            orig_ctx: params.rope_orig_ctx,
            backward: 0,
        };
        self.put(Command::Encoder);
        self.put(Command::Pipeline(Pipe::Loaded(Kernel::CompressorPrefillNoidx)));
        self.buf_at(0, kv.buf);
        self.buf_at(1, sc.buf);
        self.buf_at(2, ape_db.buf);
        self.buf_at(3, norm_db.buf);
        self.buf_at(4, comp_ring);
        self.put(Command::Bytes(5, Args::Prefill(args)));
        self.put(Command::Dispatch((n_comp as u64, 1, 1), (head_dim as u64, 1, 1)));
        self.put(Command::EndEncoder);
        Ok(())
    }

    /// Compresses a chunk in overlapping windows of four.
    pub fn compressor_prefill_idx(
        &mut self,
        kv: &DeferredBuf,
        sc: &DeferredBuf,
        ape: HostRef,
        norm: HostRef,
        comp_ring: BufId,
        head_dim: u32,
        n_rot: u32,
        chunk_start: u32,
        comp_row0: u32,
        n_comp: u32,
        params: &LayerParams,
        rms_eps: F32,
    ) -> (r: Result<(), EncodeError>)
        requires
            n_rot % 2 == 0 && n_rot <= head_dim ==> 2 * head_dim * 4 <= u32::MAX,
        ensures
            (final(self)@, r) == old(self)@.compressor_prefill_idx(
                *kv,
                *sc,
                ape,
                norm,
                comp_ring,
                head_dim,
                n_rot,
                chunk_start,
                comp_row0,
                n_comp,
                *params,
                rms_eps,
            ),
            final(self)@.encodes(old(self)@),
            final(self)@.pools.carrier == old(self)@.pools.carrier,
    {
        proof {
            reveal(Trace::compressor_prefill_idx);
        }
        if n_rot % 2 != 0 || n_rot > head_dim {
            return Err(unfit(Check::RotaryDim, n_rot as u64, head_dim as u64));
        }
        if ape.len != (2 * head_dim * 4) as u64 {
            return Err(unfit(Check::ApeLen, ape.len, (2 * head_dim * 4) as u64));
        }
        if norm.len != head_dim as u64 {
            return Err(unfit(Check::NormLen, norm.len, head_dim as u64));
        }
        if n_comp == 0 {
            return Ok(());
        }
        let ape_db: DeferredBuf = self.upload_f32(ape);
        let norm_db: DeferredBuf = self.upload_f32(norm);
        self.put(
            Command::PrefillIdx(
                PrefillIdx {
                    kv: kv.buf,
                    sc: sc.buf,
                    ape: ape_db.buf,
                    norm: norm_db.buf,
                    comp_ring,
                    head_dim,
                    n_rot,
                    chunk_start,
                    comp_row0,
                    n_comp,
                    params: *params,
                    rms_eps,
                },
            ),
        );
        Ok(())
    }

    /// Puts the rows of a chunk that fill no whole window into the compressor's state.
    pub fn compressor_pool_fill_noidx(
        &mut self,
        kv: &DeferredBuf,
        sc: &DeferredBuf,
        ape: HostRef,
        state_kv: BufId,
        state_score: BufId,
        head_dim: u32,
        ratio: u32,
        chunk_start: u32,
        first: u32,
        rem: u32,
    ) -> (r: Result<(), EncodeError>)
        requires
            0 < rem <= ratio ==> head_dim * ratio <= u32::MAX && (ape.len == head_dim * ratio
                && old(self)@.has(Kernel::CompressorPoolFillNoidx) ==> 0 < head_dim),
        ensures
            (final(self)@, r) == old(self)@.compressor_pool_fill_noidx(
                *kv,
                *sc,
                ape,
                state_kv,
                state_score,
                head_dim,
                ratio,
                chunk_start,
                first,
                rem,
            ),
            final(self)@.encodes(old(self)@),
            final(self)@.pools.carrier == old(self)@.pools.carrier,
    {
        proof {
            reveal(Trace::compressor_pool_fill_noidx);
        }
        if rem == 0 {
            return Ok(());
        }
        if rem > ratio {
            return Err(unfit(Check::Rows, rem as u64, ratio as u64));
        }
        if ape.len != (head_dim * ratio) as u64 {
            return Err(unfit(Check::ApeLen, ape.len, (head_dim * ratio) as u64));
        }
        if !self.has(Kernel::CompressorPoolFillNoidx) {
            return Err(EncodeError::NotLoaded(Kernel::CompressorPoolFillNoidx));
        }
        let ape_db: DeferredBuf = self.upload_f32(ape);
        let tg: u64 = if head_dim < 32 {
            head_dim as u64
        } else {
            32
        };
        self.put(Command::Encoder);
        self.put(Command::Pipeline(Pipe::Loaded(Kernel::CompressorPoolFillNoidx)));
        self.buf_at(0, kv.buf);
        self.buf_at(1, sc.buf);
        self.buf_at(2, ape_db.buf);
        self.buf_at(3, state_kv);
        self.buf_at(4, state_score);
        self.put(
            Command::Bytes(
                5,
                Args::PoolFill(
                    PoolFillArgs { width: head_dim, ratio, pos0: chunk_start, first, rem },
                ),
            ),
        );
        self.put(
            Command::Dispatch((div_up(head_dim as u64, tg), rem as u64, 1), (tg, 1, 1)),
        );
        self.put(Command::EndEncoder);
        Ok(())
    }
}

} // verus!
