//! Row norms and rotary position encoding.

use crate::arith::{elements, extent, is_product3, lemma_row, times, times3, times_wide};
use crate::command::{Args, BufId, Command, DeferredBuf, F32, NormArgs, RopeArgs};
use crate::config::LayerParams;
use crate::error::{Check, EncodeError, capped3, unfit};
use crate::kernel::{Kernel, Pipe};
use crate::scope::BatchScope;
use crate::trace::Trace;
use vstd::prelude::*;

verus! {

broadcast use crate::trace::group_encodes;

/// The arguments of the norm of `rows` rows of `n` elements.
pub open spec fn spec_norm_args(n: u64, rows: u64, eps: F32) -> NormArgs {
    let row = (n * 4) as u64;
    let plane = (row * rows) as u64;
    NormArgs {
        ne00: n as i32,
        ne00_t: (n / 4) as i32,
        nb1: row,
        nb2: plane,
        nb3: plane,
        eps,
        nef1: (rows as i32, 1, 1),
        nef2: (1, 1, 1),
        nef3: (1, 1, 1),
        nbf1: (row, row, row),
        nbf2: (plane, row, row),
        nbf3: (plane, row, row),
    }
}

/// One thread per lane, from one to 1024.
pub open spec fn spec_row_threads(lanes: u64) -> u64 {
    if lanes == 0 {
        1
    } else if lanes > 1024 {
        1024
    } else {
        lanes
    }
}

/// Threads for a row: powers of two from 32 on, cut down to the lanes there are.
pub(crate) fn row_threads(lanes: u64) -> (r: u64)
    ensures
        r == spec_row_threads(lanes),
{
    let mut n: u64 = 32;
    while n < lanes && n < 1024
        invariant
            n == 32 || n == 64 || n == 128 || n == 256 || n == 512 || n == 1024,
        decreases 1024 - n,
    {
        n = n * 2;
    }
    if n > lanes {
        n = lanes;
    }
    if n < 1 {
        1
    } else {
        n
    }
}

/// The arguments of a rotation of `n_heads` heads of `head_dim` elements.
pub open spec fn spec_rope_args(
    params: LayerParams,
    head_dim: u64,
    pos: u32,
    n_heads: u64,
    elem_stride: u32,
    backward: bool,
) -> RopeArgs {
    RopeArgs {
        head_dim: head_dim as u32,
        n_rot: params.n_rot,
        freq_base: params.rope_freq_base,
        freq_scale: params.rope_freq_scale,
        ext_factor: params.rope_ext_factor,
        attn_factor: params.rope_attn_factor,
        orig_ctx: params.rope_orig_ctx,
        pos,
        n_heads: n_heads as u32,
        elem_stride,
        head_bytes: (head_dim * 4) as u32,
        plane_bytes: (head_dim * 4 * n_heads) as u32,
        backward,
    }
}

pub(crate) fn rope_args(
    params: &LayerParams,
    head_dim: u64,
    pos: u32,
    n_heads: u64,
    elem_stride: u32,
    backward: bool,
) -> (r: RopeArgs)
    requires
        extent(head_dim),
        extent(n_heads),
        head_dim * 4 <= u32::MAX,
        head_dim * 4 * n_heads <= u32::MAX,
    ensures
        r == spec_rope_args(*params, head_dim, pos, n_heads, elem_stride, backward),
{
    let head_bytes: u64 = head_dim * 4;
    let plane_bytes: u64 = head_bytes * n_heads;
    RopeArgs {
        head_dim: head_dim as u32,
        n_rot: params.n_rot,
        freq_base: params.rope_freq_base,
        freq_scale: params.rope_freq_scale,
        ext_factor: params.rope_ext_factor,
        attn_factor: params.rope_attn_factor,
        orig_ctx: params.rope_orig_ctx,
        pos,
        n_heads: n_heads as u32,
        elem_stride,
        head_bytes: head_bytes as u32,
        plane_bytes: plane_bytes as u32,
        backward,
    }
}

/// The rotary kernel's 32-bit strides hold these heads.
pub open spec fn rope_fits(head_dim: int, n_heads: int) -> bool {
    0 <= head_dim * 4 <= u32::MAX && 0 <= head_dim * 4 * n_heads <= u32::MAX
}

impl Trace {
    pub open spec fn norm_launch(
        self,
        x: BufId,
        gamma: BufId,
        out: BufId,
        n: u64,
        rows: u64,
        eps: F32,
    ) -> Trace {
        self.put(Command::Encoder).put(Command::Pipeline(Pipe::Loaded(Kernel::RmsNormMul))).put(
            Command::Bytes(0, Args::Norm(spec_norm_args(n, rows, eps))),
        ).buf_at(1, x).buf_at(2, gamma).buf_at(3, x).buf_at(4, out).put(
            Command::GroupMemory(128),
        ).put(Command::Dispatch((rows, 1, 1), (spec_row_threads(n / 4), 1, 1))).put(
            Command::EndEncoder,
        )
    }

    #[verifier::opaque]
    pub open spec fn rms_norm_mul(self, x: DeferredBuf, gamma: DeferredBuf, eps: F32) -> (
        Trace,
        Result<DeferredBuf, EncodeError>,
    ) {
        let n = x.n_elements;
        if gamma.n_elements != n {
            self.refuse(Check::GammaLen, gamma.n_elements as int, n as int)
        } else if n % 4 != 0 {
            self.refuse(Check::InputAlign, n as int, 4)
        } else if !self.has(Kernel::RmsNormMul) {
            self.missing(Kernel::RmsNormMul)
        } else {
            let (t, out) = self.alloc_f32(n);
            (t.norm_launch(x.buf, gamma.buf, out.buf, n, 1, eps), Ok(out))
        }
    }

    #[verifier::opaque]
    pub open spec fn rms_norm_mul_k(
        self,
        x_k: DeferredBuf,
        gamma: DeferredBuf,
        n: u64,
        k: u64,
        eps: F32,
    ) -> (Trace, Result<DeferredBuf, EncodeError>) {
        if x_k.n_elements != k * n {
            self.refuse(Check::InputLen, x_k.n_elements as int, k * n)
        } else if gamma.n_elements != n {
            self.refuse(Check::GammaLen, gamma.n_elements as int, n as int)
        } else if n % 4 != 0 {
            self.refuse(Check::InputAlign, n as int, 4)
        } else if !self.has(Kernel::RmsNormMul) {
            self.missing(Kernel::RmsNormMul)
        } else {
            let (t, out) = self.alloc_attn_out((k * n) as u64);
            (t.norm_launch(x_k.buf, gamma.buf, out.buf, n, k, eps), Ok(out))
        }
    }

    pub open spec fn head_norm_launch(
        self,
        x: BufId,
        out: BufId,
        head_dim: u64,
        rows: u64,
        eps: F32,
    ) -> Trace {
        self.put(Command::Encoder).put(Command::Pipeline(Pipe::Loaded(Kernel::HeadRmsNorm))).buf_at(
            0,
            x,
        ).buf_at(1, out).u32_at(2, head_dim as u32).f32_at(3, eps).put(
            Command::Dispatch((rows, 1, 1), (spec_row_threads(head_dim), 1, 1)),
        ).put(Command::EndEncoder)
    }

    #[verifier::opaque]
    pub open spec fn head_rms_norm_k(
        self,
        x_k: DeferredBuf,
        n_head: u64,
        head_dim: u64,
        k: u64,
        eps: F32,
    ) -> (Trace, Result<DeferredBuf, EncodeError>) {
        if x_k.n_elements != k * n_head * head_dim {
            self.refuse(Check::InputLen, x_k.n_elements as int, k * n_head * head_dim)
        } else if !self.has(Kernel::HeadRmsNorm) {
            self.missing(Kernel::HeadRmsNorm)
        } else {
            let (t, out) = self.alloc_attn_out(x_k.n_elements);
            (
                t.head_norm_launch(x_k.buf, out.buf, head_dim, (k * n_head) as u64, eps),
                Ok(out),
            )
        }
    }

    #[verifier::opaque]
    pub open spec fn head_rms_norm(self, x: DeferredBuf, n_head: u64, head_dim: u64, eps: F32) -> (
        Trace,
        Result<DeferredBuf, EncodeError>,
    ) {
        if x.n_elements != n_head * head_dim {
            self.refuse(Check::InputLen, x.n_elements as int, n_head * head_dim)
        } else if head_dim < 1 {
            self.refuse(Check::HeadDim, head_dim as int, 1)
        } else if !self.has(Kernel::HeadRmsNorm) {
            self.missing(Kernel::HeadRmsNorm)
        } else {
            let (t, out) = self.alloc_f32(x.n_elements);
            (t.head_norm_launch(x.buf, out.buf, head_dim, n_head, eps), Ok(out))
        }
    }

    pub open spec fn rope_launch(
        self,
        buf: BufId,
        off: u64,
        pos: BufId,
        freqs: BufId,
        args: RopeArgs,
        groups: (u64, u64, u64),
    ) -> Trace {
        self.put(Command::Encoder).put(Command::Pipeline(Pipe::Loaded(Kernel::RopeTail))).put(
            Command::Buffer(0, buf, off),
        ).buf_at(1, pos).buf_at(2, freqs).put(Command::Buffer(3, buf, off)).put(
            Command::Rope(args),
        ).put(
            Command::Dispatch(groups, (spec_row_threads((args.n_rot / 2) as u64), 1, 1)),
        ).put(Command::EndEncoder)
    }

    /// Uploads the position and the unused frequency factors of a rotation, then launches it.
    pub open spec fn rope_at(
        self,
        buf: BufId,
        off: u64,
        args: RopeArgs,
        groups: (u64, u64, u64),
    ) -> Trace {
        let (t, pos) = self.upload_word(args.pos);
        let (t, freqs) = t.upload_word(0);
        t.rope_launch(buf, off, pos.buf, freqs.buf, args, groups)
    }

    #[verifier::opaque]
    pub open spec fn rope_tail_in_place(
        self,
        buf: DeferredBuf,
        byte_offset: u64,
        n_heads: u64,
        params: LayerParams,
        pos: u32,
        backward: bool,
    ) -> (Trace, Result<(), EncodeError>) {
        let n_rot = params.n_rot as u64;
        if n_rot < 2 || n_rot % 2 != 0 {
            self.refuse(Check::RotaryDim, n_rot as int, 2)
        } else if byte_offset + n_heads * n_rot * 4 > buf.n_elements * 4 {
            self.refuse(Check::SpanEnd, byte_offset + n_heads * n_rot * 4, buf.n_elements * 4)
        } else if !self.has(Kernel::RopeTail) {
            self.missing(Kernel::RopeTail)
        } else {
            let args = spec_rope_args(params, n_rot, pos, n_heads, 4, backward);
            (self.rope_at(buf.buf, byte_offset, args, (n_heads, 1, 1)), Ok(()))
        }
    }

    #[verifier::opaque]
    pub open spec fn rope_tail_q_heads_in_place(
        self,
        q_heads: DeferredBuf,
        n_head: u64,
        head_dim: u64,
        params: LayerParams,
        pos: u32,
        backward: bool,
    ) -> (Trace, Result<(), EncodeError>) {
        let n_rot = params.n_rot as u64;
        if n_rot < 2 || n_rot % 2 != 0 {
            self.refuse(Check::RotaryDim, n_rot as int, 2)
        } else if head_dim < n_rot {
            self.refuse(Check::HeadDim, head_dim as int, n_rot as int)
        } else if q_heads.n_elements != n_head * head_dim {
            self.refuse(Check::InputLen, q_heads.n_elements as int, n_head * head_dim)
        } else if !self.has(Kernel::RopeTail) {
            self.missing(Kernel::RopeTail)
        } else {
            let args = spec_rope_args(params, head_dim, pos, n_head, 4, backward);
            (
                self.rope_at(
                    q_heads.buf,
                    ((head_dim - n_rot) * 4) as u64,
                    args,
                    (n_head, 1, 1),
                ),
                Ok(()),
            )
        }
    }

    #[verifier::opaque]
    pub open spec fn rope_tail_k_fused(
        self,
        buf: DeferredBuf,
        byte_offset: u64,
        n_heads: u64,
        head_dim: u64,
        k_row_stride_floats: u64,
        params: LayerParams,
        base_pos: u32,
        k: u64,
        backward: bool,
    ) -> (Trace, Result<(), EncodeError>) {
        let n_rot = params.n_rot as u64;
        if n_rot == 0 || k == 0 {
            (self, Ok(()))
        } else if n_rot < 2 || n_rot % 2 != 0 || head_dim < n_rot {
            self.refuse(Check::RotaryDim, n_rot as int, head_dim as int)
        } else if !self.has(Kernel::RopeTail) {
            self.missing(Kernel::RopeTail)
        } else {
            let args = spec_rope_args(
                params,
                head_dim,
                base_pos,
                n_heads,
                k_row_stride_floats as u32,
                backward,
            );
            (self.rope_at(buf.buf, byte_offset, args, (n_heads, k, 1)), Ok(()))
        }
    }

    /// The rotations of the query heads position by position, from position `i` on.
    pub open spec fn rope_q_rows(
        self,
        q_heads_k: DeferredBuf,
        n_head: u64,
        head_dim: u64,
        params: LayerParams,
        base_pos: u32,
        k: u64,
        backward: bool,
        freqs: BufId,
        i: int,
    ) -> Trace
        decreases k - i,
    {
        if i >= k {
            self
        } else {
            let args = spec_rope_args(
                params,
                head_dim,
                (base_pos + i) as u32,
                n_head,
                4,
                backward,
            );
            let (t, pos) = self.upload_word(args.pos);
            let off = ((i * (n_head * head_dim) + (head_dim - params.n_rot)) * 4) as u64;
            t.rope_launch(q_heads_k.buf, off, pos.buf, freqs, args, (n_head, 1, 1)).rope_q_rows(
                q_heads_k,
                n_head,
                head_dim,
                params,
                base_pos,
                k,
                backward,
                freqs,
                i + 1,
            )
        }
    }

    #[verifier::opaque]
    pub open spec fn rope_tail_q_heads_in_place_k(
        self,
        q_heads_k: DeferredBuf,
        n_head: u64,
        head_dim: u64,
        params: LayerParams,
        base_pos: u32,
        k: u64,
        backward: bool,
    ) -> (Trace, Result<(), EncodeError>) {
        let n_rot = params.n_rot as u64;
        if n_rot == 0 {
            (self, Ok(()))
        } else if q_heads_k.n_elements != k * n_head * head_dim {
            self.refuse(Check::InputLen, q_heads_k.n_elements as int, k * n_head * head_dim)
        } else if n_rot < 2 || n_rot % 2 != 0 || head_dim < n_rot {
            self.refuse(Check::RotaryDim, n_rot as int, head_dim as int)
        } else if !self.has(Kernel::RopeTail) {
            self.missing(Kernel::RopeTail)
        } else {
            let (t, freqs) = self.upload_word(0);
            if self.config.rope_per_k {
                (
                    t.rope_q_rows(
                        q_heads_k,
                        n_head,
                        head_dim,
                        params,
                        base_pos,
                        k,
                        backward,
                        freqs.buf,
                        0,
                    ),
                    Ok(()),
                )
            } else {
                t.rope_tail_k_fused(
                    q_heads_k,
                    ((head_dim - n_rot) * 4) as u64,
                    n_head,
                    head_dim,
                    (n_head * head_dim) as u64,
                    params,
                    base_pos,
                    k,
                    backward,
                )
            }
        }
    }
}

impl BatchScope {
    fn norm_launch(&mut self, x: BufId, gamma: BufId, out: BufId, n: u64, rows: u64, eps: F32)
        requires
            extent(n),
            extent(rows),
        ensures
            final(self)@ == old(self)@.norm_launch(x, gamma, out, n, rows, eps),
            final(self)@.encodes(old(self)@),
            final(self)@.pools.carrier == old(self)@.pools.carrier,
    {
        let row: u64 = n * 4;
        let plane: u64 = times_wide(row, rows);
        let args: NormArgs = NormArgs {
            ne00: n as i32,
            ne00_t: (n / 4) as i32,
            nb1: row,
            nb2: plane,
            nb3: plane,
            eps,
            nef1: (rows as i32, 1, 1),
            nef2: (1, 1, 1),
            nef3: (1, 1, 1),
            nbf1: (row, row, row),
            nbf2: (plane, row, row),
            nbf3: (plane, row, row),
        };
        let threads: u64 = row_threads(n / 4);
        self.put(Command::Encoder);
        self.put(Command::Pipeline(Pipe::Loaded(Kernel::RmsNormMul)));
        self.put(Command::Bytes(0, Args::Norm(args)));
        self.buf_at(1, x);
        self.buf_at(2, gamma);
        self.buf_at(3, x);
        self.buf_at(4, out);
        self.put(Command::GroupMemory(128));
        self.put(Command::Dispatch((rows, 1, 1), (threads, 1, 1)));
        self.put(Command::EndEncoder);
    }

    /// The norm of one row, times a learned factor.
    pub fn rms_norm_mul(&mut self, x: &DeferredBuf, gamma: &DeferredBuf, eps: F32) -> (r: Result<
        DeferredBuf,
        EncodeError,
    >)
        requires
            extent(x.n_elements),
        ensures
            (final(self)@, r) == old(self)@.rms_norm_mul(*x, *gamma, eps),
            r matches Ok(b) ==> b.n_elements == x.n_elements,
            final(self)@.encodes(old(self)@),
            final(self)@.pools.carrier == old(self)@.pools.carrier,
    {
        proof {
            reveal(Trace::rms_norm_mul);
        }
        let n: u64 = x.n_elements;
        if gamma.n_elements != n {
            return Err(unfit(Check::GammaLen, gamma.n_elements, n));
        }
        if n % 4 != 0 {
            return Err(unfit(Check::InputAlign, n, 4));
        }
        if !self.has(Kernel::RmsNormMul) {
            return Err(EncodeError::NotLoaded(Kernel::RmsNormMul));
        }
        let out: DeferredBuf = self.alloc_f32(n);
        self.norm_launch(x.buf, gamma.buf, out.buf, n, 1, eps);
        Ok(out)
    }

    /// The norms of `k_positions` rows of `n` elements, times one learned factor.
    pub fn rms_norm_mul_k(
        &mut self,
        x_k: &DeferredBuf,
        gamma: &DeferredBuf,
        n: u64,
        k_positions: u64,
        eps: F32,
    ) -> (r: Result<DeferredBuf, EncodeError>)
        requires
            extent(n),
            extent(k_positions),
        ensures
            (final(self)@, r) == old(self)@.rms_norm_mul_k(*x_k, *gamma, n, k_positions, eps),
            r matches Ok(b) ==> b.n_elements == k_positions * n,
            final(self)@.encodes(old(self)@),
            final(self)@.pools.carrier == old(self)@.pools.carrier,
    {
        proof {
            reveal(Trace::rms_norm_mul_k);
        }
        let total: u64 = times(k_positions, n);
        if x_k.n_elements != total {
            return Err(unfit(Check::InputLen, x_k.n_elements, total));
        }
        if gamma.n_elements != n {
            return Err(unfit(Check::GammaLen, gamma.n_elements, n));
        }
        if n % 4 != 0 {
            return Err(unfit(Check::InputAlign, n, 4));
        }
        if !self.has(Kernel::RmsNormMul) {
            return Err(EncodeError::NotLoaded(Kernel::RmsNormMul));
        }
        let out: DeferredBuf = self.alloc_attn_out(total);
        self.norm_launch(x_k.buf, gamma.buf, out.buf, n, k_positions, eps);
        Ok(out)
    }

    fn head_norm_launch(&mut self, x: BufId, out: BufId, head_dim: u64, rows: u64, eps: F32)
        ensures
            final(self)@ == old(self)@.head_norm_launch(x, out, head_dim, rows, eps),
            final(self)@.encodes(old(self)@),
            final(self)@.pools.carrier == old(self)@.pools.carrier,
    {
        let threads: u64 = row_threads(head_dim);
        self.put(Command::Encoder);
        self.put(Command::Pipeline(Pipe::Loaded(Kernel::HeadRmsNorm)));
        self.buf_at(0, x);
        self.buf_at(1, out);
        self.u32_at(2, head_dim as u32);
        self.f32_at(3, eps);
        self.put(Command::Dispatch((rows, 1, 1), (threads, 1, 1)));
        self.put(Command::EndEncoder);
    }

    /// The norm of every head of several positions.
    pub fn head_rms_norm_k(
        &mut self,
        x_k: &DeferredBuf,
        n_head: u64,
        head_dim: u64,
        k_positions: u64,
        eps: F32,
    ) -> (r: Result<DeferredBuf, EncodeError>)
        requires
            extent(n_head),
            extent(k_positions),
        ensures
            (final(self)@, r) == old(self)@.head_rms_norm_k(
                *x_k,
                n_head,
                head_dim,
                k_positions,
                eps,
            ),
            r matches Ok(b) ==> b.n_elements == x_k.n_elements,
            final(self)@.encodes(old(self)@),
            final(self)@.pools.carrier == old(self)@.pools.carrier,
    {
        proof {
            reveal(Trace::head_rms_norm_k);
        }
        if !is_product3(x_k.n_elements, k_positions, n_head, head_dim) {
            return Err(
                unfit(Check::InputLen, x_k.n_elements, capped3(k_positions, n_head, head_dim)),
            );
        }
        if !self.has(Kernel::HeadRmsNorm) {
            return Err(EncodeError::NotLoaded(Kernel::HeadRmsNorm));
        }
        let out: DeferredBuf = self.alloc_attn_out(x_k.n_elements);
        self.head_norm_launch(x_k.buf, out.buf, head_dim, times(k_positions, n_head), eps);
        Ok(out)
    }

    /// The norm of every head.
    pub fn head_rms_norm(&mut self, x: &DeferredBuf, n_head: u64, head_dim: u64, eps: F32) -> (r:
        Result<DeferredBuf, EncodeError>)
        requires
            extent(n_head),
            extent(head_dim),
        ensures
            (final(self)@, r) == old(self)@.head_rms_norm(*x, n_head, head_dim, eps),
            r matches Ok(b) ==> b.n_elements == x.n_elements,
            final(self)@.encodes(old(self)@),
            final(self)@.pools.carrier == old(self)@.pools.carrier,
    {
        proof {
            reveal(Trace::head_rms_norm);
        }
        if x.n_elements != times(n_head, head_dim) {
            return Err(unfit(Check::InputLen, x.n_elements, times(n_head, head_dim)));
        }
        if head_dim < 1 {
            return Err(unfit(Check::HeadDim, head_dim, 1));
        }
        if !self.has(Kernel::HeadRmsNorm) {
            return Err(EncodeError::NotLoaded(Kernel::HeadRmsNorm));
        }
        let out: DeferredBuf = self.alloc_f32(x.n_elements);
        self.head_norm_launch(x.buf, out.buf, head_dim, n_head, eps);
        Ok(out)
    }

    fn rope_launch(
        &mut self,
        buf: BufId,
        off: u64,
        pos: BufId,
        freqs: BufId,
        args: RopeArgs,
        groups: (u64, u64, u64),
    )
        ensures
            final(self)@ == old(self)@.rope_launch(buf, off, pos, freqs, args, groups),
            final(self)@.encodes(old(self)@),
            final(self)@.pools.carrier == old(self)@.pools.carrier,
    {
        let threads: u64 = row_threads((args.n_rot / 2) as u64);
        self.put(Command::Encoder);
        self.put(Command::Pipeline(Pipe::Loaded(Kernel::RopeTail)));
        self.put(Command::Buffer(0, buf, off));
        self.buf_at(1, pos);
        self.buf_at(2, freqs);
        self.put(Command::Buffer(3, buf, off));
        self.put(Command::Rope(args));
        self.put(Command::Dispatch(groups, (threads, 1, 1)));
        self.put(Command::EndEncoder);
    }

    fn rope_at(&mut self, buf: BufId, off: u64, args: RopeArgs, groups: (u64, u64, u64))
        ensures
            final(self)@ == old(self)@.rope_at(buf, off, args, groups),
            final(self)@.encodes(old(self)@),
            final(self)@.pools.carrier == old(self)@.pools.carrier,
    {
        let pos: DeferredBuf = self.upload_word(args.pos);
        let freqs: DeferredBuf = self.upload_word(0);
        self.rope_launch(buf, off, pos.buf, freqs.buf, args, groups);
    }

    /// Rotates `n_heads` contiguous heads of the rotary width, from a byte on.
    pub fn rope_tail_in_place(
        &mut self,
        buf: &DeferredBuf,
        byte_offset: u64,
        n_heads: u64,
        params: &LayerParams,
        pos: u32,
        backward: bool,
    ) -> (r: Result<(), EncodeError>)
        requires
            extent(n_heads),
            extent(params.n_rot as u64),
            rope_fits(params.n_rot as int, n_heads as int),
            byte_offset + n_heads * params.n_rot * 4 <= u64::MAX,
            buf.n_elements * 4 <= u64::MAX,
        ensures
            (final(self)@, r) == old(self)@.rope_tail_in_place(
                *buf,
                byte_offset,
                n_heads,
                *params,
                pos,
                backward,
            ),
            final(self)@.encodes(old(self)@),
            final(self)@.pools.carrier == old(self)@.pools.carrier,
    {
        proof {
            reveal(Trace::rope_tail_in_place);
        }
        let n_rot: u64 = params.n_rot as u64;
        if n_rot < 2 || n_rot % 2 != 0 {
            return Err(unfit(Check::RotaryDim, n_rot, 2));
        }
        let span: u64 = times(n_heads, n_rot) * 4;
        if byte_offset + span > buf.n_elements * 4 {
            return Err(unfit(Check::SpanEnd, byte_offset + span, buf.n_elements * 4));
        }
        if !self.has(Kernel::RopeTail) {
            return Err(EncodeError::NotLoaded(Kernel::RopeTail));
        }
        let args: RopeArgs = rope_args(params, n_rot, pos, n_heads, 4, backward);
        self.rope_at(buf.buf, byte_offset, args, (n_heads, 1, 1));
        Ok(())
    }

    /// Rotates the last elements of every query head.
    pub fn rope_tail_q_heads_in_place(
        &mut self,
        q_heads: &DeferredBuf,
        n_head: u64,
        head_dim: u64,
        params: &LayerParams,
        pos: u32,
        backward: bool,
    ) -> (r: Result<(), EncodeError>)
        requires
            extent(n_head),
            extent(head_dim),
            rope_fits(head_dim as int, n_head as int),
        ensures
            (final(self)@, r) == old(self)@.rope_tail_q_heads_in_place(
                *q_heads,
                n_head,
                head_dim,
                *params,
                pos,
                backward,
            ),
            final(self)@.encodes(old(self)@),
            final(self)@.pools.carrier == old(self)@.pools.carrier,
    {
        proof {
            reveal(Trace::rope_tail_q_heads_in_place);
        }
        let n_rot: u64 = params.n_rot as u64;
        if n_rot < 2 || n_rot % 2 != 0 {
            return Err(unfit(Check::RotaryDim, n_rot, 2));
        }
        if head_dim < n_rot {
            return Err(unfit(Check::HeadDim, head_dim, n_rot));
        }
        if q_heads.n_elements != times(n_head, head_dim) {
            return Err(unfit(Check::InputLen, q_heads.n_elements, times(n_head, head_dim)));
        }
        if !self.has(Kernel::RopeTail) {
            return Err(EncodeError::NotLoaded(Kernel::RopeTail));
        }
        let args: RopeArgs = rope_args(params, head_dim, pos, n_head, 4, backward);
        self.rope_at(q_heads.buf, (head_dim - n_rot) * 4, args, (n_head, 1, 1));
        Ok(())
    }

    /// Rotates the heads of several positions in one launch.
    pub fn rope_tail_k_fused(
        &mut self,
        buf: &DeferredBuf,
        byte_offset: u64,
        n_heads: u64,
        head_dim: u64,
        k_row_stride_floats: u64,
        params: &LayerParams,
        base_pos: u32,
        k_positions: u64,
        backward: bool,
    ) -> (r: Result<(), EncodeError>)
        requires
            extent(n_heads),
            extent(head_dim),
            rope_fits(head_dim as int, n_heads as int),
        ensures
            (final(self)@, r) == old(self)@.rope_tail_k_fused(
                *buf,
                byte_offset,
                n_heads,
                head_dim,
                k_row_stride_floats,
                *params,
                base_pos,
                k_positions,
                backward,
            ),
            final(self)@.encodes(old(self)@),
            final(self)@.pools.carrier == old(self)@.pools.carrier,
    {
        proof {
            reveal(Trace::rope_tail_k_fused);
        }
        let n_rot: u64 = params.n_rot as u64;
        if n_rot == 0 || k_positions == 0 {
            return Ok(());
        }
        if n_rot < 2 || n_rot % 2 != 0 || head_dim < n_rot {
            return Err(unfit(Check::RotaryDim, n_rot, head_dim));
        }
        if !self.has(Kernel::RopeTail) {
            return Err(EncodeError::NotLoaded(Kernel::RopeTail));
        }
        let args: RopeArgs = rope_args(
            params,
            head_dim,
            base_pos,
            n_heads,
            k_row_stride_floats as u32,
            backward,
        );
        self.rope_at(buf.buf, byte_offset, args, (n_heads, k_positions, 1));
        Ok(())
    }

    /// Rotates the last elements of every query head of several positions.
    pub fn rope_tail_q_heads_in_place_k(
        &mut self,
        q_heads_k: &DeferredBuf,
        n_head: u64,
        head_dim: u64,
        params: &LayerParams,
        base_pos: u32,
        k_positions: u64,
        backward: bool,
    ) -> (r: Result<(), EncodeError>)
        requires
            extent(n_head),
            extent(head_dim),
            extent(k_positions),
            elements(k_positions * n_head * head_dim),
            rope_fits(head_dim as int, n_head as int),
            base_pos + k_positions <= u32::MAX,
        ensures
            (final(self)@, r) == old(self)@.rope_tail_q_heads_in_place_k(
                *q_heads_k,
                n_head,
                head_dim,
                *params,
                base_pos,
                k_positions,
                backward,
            ),
            final(self)@.encodes(old(self)@),
            final(self)@.pools.carrier == old(self)@.pools.carrier,
    {
        proof {
            reveal(Trace::rope_tail_q_heads_in_place_k);
        }
        let n_rot: u64 = params.n_rot as u64;
        let k: u64 = k_positions;
        if n_rot == 0 {
            return Ok(());
        }
        if q_heads_k.n_elements != times3(k, n_head, head_dim) {
            return Err(unfit(Check::InputLen, q_heads_k.n_elements, times3(k, n_head, head_dim)));
        }
        if n_rot < 2 || n_rot % 2 != 0 || head_dim < n_rot {
            return Err(unfit(Check::RotaryDim, n_rot, head_dim));
        }
        if !self.has(Kernel::RopeTail) {
            return Err(EncodeError::NotLoaded(Kernel::RopeTail));
        }
        let freqs: DeferredBuf = self.upload_word(0);
        let per_k: u64 = times(n_head, head_dim);
        if !self.config.rope_per_k {
            return self.rope_tail_k_fused(
                q_heads_k,
                (head_dim - n_rot) * 4,
                n_head,
                head_dim,
                per_k,
                params,
                base_pos,
                k,
                backward,
            );
        }
        proof {
            assert(k * per_k == k * n_head * head_dim) by (nonlinear_arith)
                requires
                    per_k == n_head * head_dim,
            ;
        }
        let ghost goal = self@.rope_q_rows(
            *q_heads_k,
            n_head,
            head_dim,
            *params,
            base_pos,
            k,
            backward,
            freqs.buf,
            0,
        );
        let mut i: u64 = 0;
        while i < k
            invariant
                self@.encodes(old(self)@),
                self@.pools.carrier == old(self)@.pools.carrier,
                i <= k,
                extent(k),
                extent(n_head),
                extent(head_dim),
                rope_fits(head_dim as int, n_head as int),
                base_pos + k <= u32::MAX,
                n_rot == params.n_rot,
                n_rot <= head_dim,
                per_k == n_head * head_dim,
                k * per_k <= 0x1000_0000_0000_0000,
                goal == self@.rope_q_rows(
                    *q_heads_k,
                    n_head,
                    head_dim,
                    *params,
                    base_pos,
                    k,
                    backward,
                    freqs.buf,
                    i as int,
                ),
            decreases k - i,
        {
            proof {
                lemma_row(i as int, k as int, per_k as int);
            }
            let pos: u32 = base_pos + i as u32;
            let pos_buf: DeferredBuf = self.upload_word(pos);
            let off: u64 = (i * per_k + (head_dim - n_rot)) * 4;
            let args: RopeArgs = rope_args(params, head_dim, pos, n_head, 4, backward);
            self.rope_launch(q_heads_k.buf, off, pos_buf.buf, freqs.buf, args, (n_head, 1, 1));
            i = i + 1;
        }
        Ok(())
    }
}

} // verus!
