//! Dense products: matrix-vector, several positions at once, and GEMM.

use crate::arith::{elements, extent, is_product3, lemma_product, lemma_row, times, times3,
    times_wide};
use crate::command::{Args, BufId, Command, CpyArgs, DeferredBuf, MmArgs, MulMvArgs};
use crate::error::{Check, EncodeError, capped3, unfit};
use crate::kernel::{Consts, Kernel, Pipe};
use crate::pool::{PoolKey, Pools, find_buf};
use crate::scope::BatchScope;
use crate::trace::Trace;
use vstd::prelude::*;

verus! {

broadcast use {crate::trace::group_encodes, crate::trace::group_aside};

/// Threads per row for rows of `d` elements.
pub open spec fn spec_nxpsg(d: u64) -> i16 {
    if d % 256 == 0 {
        16
    } else if d % 128 == 0 {
        8
    } else {
        4
    }
}

pub(crate) fn nxpsg_for(d: u64) -> (r: i16)
    ensures
        r == spec_nxpsg(d),
{
    if d % 256 == 0 {
        16
    } else if d % 128 == 0 {
        8
    } else {
        4
    }
}

/// Simdgroups for rows of `d` elements: one per 128 elements, from one to eight.
pub open spec fn spec_nsg_by_width(d: u64) -> i16 {
    let t = (d + 127) / 128;
    if t < 1 {
        1
    } else if t > 8 {
        8
    } else {
        t as i16
    }
}

pub(crate) fn nsg_by_width(d: u64) -> (r: i16)
    requires
        extent(d),
    ensures
        r == spec_nsg_by_width(d),
        1 <= r <= 8,
{
    let t: u64 = (d + 127) / 128;
    if t < 1 {
        1
    } else if t > 8 {
        8
    } else {
        t as i16
    }
}

/// Simdgroups for a matrix of `d_out` rows: the more rows, the fewer.
pub open spec fn spec_nsg_by_rows(d_out: u64) -> i16 {
    if d_out >= 8192 {
        1
    } else if d_out >= 1024 {
        2
    } else {
        4
    }
}

pub(crate) fn nsg_by_rows(d_out: u64) -> (r: i16)
    ensures
        r == spec_nsg_by_rows(d_out),
{
    if d_out >= 8192 {
        1
    } else if d_out >= 1024 {
        2
    } else {
        4
    }
}

/// The setting where there is one, else the standard value.
pub open spec fn spec_or(setting: Option<i16>, standard: i16) -> i16 {
    match setting {
        Some(n) => n,
        None => standard,
    }
}

pub(crate) fn setting_or(setting: Option<i16>, standard: i16) -> (r: i16)
    ensures
        r == spec_or(setting, standard),
{
    match setting {
        Some(n) => n,
        None => standard,
    }
}

/// The bytes of a row of Q8_0 blocks: 34 to every 32 weights.
pub open spec fn q8_row(d_in: u64) -> u64 {
    ((d_in / 32) * 34) as u64
}

/// The bytes of a row of Q4_0 blocks: 18 to every 32 weights.
pub open spec fn q4_row(d_in: u64) -> u64 {
    ((d_in / 32) * 18) as u64
}

/// The arguments of a matrix-vector product: `ne02` matrices of `ne01` rows of
/// `ne00` weights, a row `row` bytes and a matrix `plane` bytes apart, against
/// `ne11` vectors `nb11` bytes apart, in groups `nb12` bytes apart.
pub open spec fn spec_mv_args(
    ne00: u64,
    ne01: u64,
    ne02: u64,
    nb00: u64,
    row: u64,
    plane: u64,
    ne11: u64,
    nb11: u64,
    nb12: u64,
) -> MulMvArgs {
    MulMvArgs {
        ne00: ne00 as i32,
        ne01: ne01 as i32,
        ne02: ne02 as i32,
        nb00,
        nb01: row,
        nb02: plane,
        nb03: plane,
        ne10: ne00 as i32,
        ne11: ne11 as i32,
        ne12: ne02 as i32,
        nb10: 4,
        nb11,
        nb12,
        nb13: nb12,
        ne0: ne01 as i32,
        ne1: ne11 as i32,
        nr0: 2,
        r2: 1,
        r3: 1,
    }
}

pub(crate) fn mv_args(
    ne00: u64,
    ne01: u64,
    ne02: u64,
    nb00: u64,
    row: u64,
    plane: u64,
    ne11: u64,
    nb11: u64,
    nb12: u64,
) -> (r: MulMvArgs)
    requires
        extent(ne00),
        extent(ne01),
        extent(ne02),
        extent(ne11),
    ensures
        r == spec_mv_args(ne00, ne01, ne02, nb00, row, plane, ne11, nb11, nb12),
{
    MulMvArgs {
        ne00: ne00 as i32,
        ne01: ne01 as i32,
        ne02: ne02 as i32,
        nb00,
        nb01: row,
        nb02: plane,
        nb03: plane,
        ne10: ne00 as i32,
        ne11: ne11 as i32,
        ne12: ne02 as i32,
        nb10: 4,
        nb11,
        nb12,
        nb13: nb12,
        ne0: ne01 as i32,
        ne1: ne11 as i32,
        nr0: 2,
        r2: 1,
        r3: 1,
    }
}

/// The arguments of a GEMM of `ne02` matrices of `ne0` rows of `ne00` weights
/// against `ne1` vectors of elements of `act` bytes.
pub open spec fn spec_mm_args(
    ne00: u64,
    ne02: u64,
    row: u64,
    plane: u64,
    act: u64,
    nb11: u64,
    nb12: u64,
    nb13: u64,
    ne0: u64,
    ne1: u64,
) -> MmArgs {
    MmArgs {
        ne00: ne00 as i32,
        ne02: ne02 as i32,
        nb01: row,
        nb02: plane,
        nb03: plane,
        ne12: ne02 as i32,
        nb10: act,
        nb11,
        nb12,
        nb13,
        ne0: ne0 as i32,
        ne1: ne1 as i32,
        r2: 1,
        r3: 1,
    }
}

fn mm_args(
    ne00: u64,
    ne02: u64,
    row: u64,
    plane: u64,
    act: u64,
    nb11: u64,
    nb12: u64,
    nb13: u64,
    ne0: u64,
    ne1: u64,
) -> (r: MmArgs)
    requires
        extent(ne00),
        extent(ne02),
        extent(ne0),
        extent(ne1),
    ensures
        r == spec_mm_args(ne00, ne02, row, plane, act, nb11, nb12, nb13, ne0, ne1),
{
    MmArgs {
        ne00: ne00 as i32,
        ne02: ne02 as i32,
        nb01: row,
        nb02: plane,
        nb03: plane,
        ne12: ne02 as i32,
        nb10: act,
        nb11,
        nb12,
        nb13,
        ne0: ne0 as i32,
        ne1: ne1 as i32,
        r2: 1,
        r3: 1,
    }
}

/// Whether a GEMM must check its output bounds: its tiles are 64 by 32.
pub open spec fn ragged(d_out: u64, k: u64) -> bool {
    d_out % 64 != 0 || k % 32 != 0
}

/// The arguments of a contiguous conversion of `n` elements to half precision.
pub open spec fn spec_cast_args(n: u64) -> CpyArgs {
    CpyArgs {
        nk0: n as i64,
        ne00: n as i64,
        ne01: 1,
        ne02: 1,
        ne03: 1,
        nb00: 4,
        nb01: (n * 4) as u64,
        nb02: (n * 4) as u64,
        nb03: (n * 4) as u64,
        ne0: n as i64,
        ne1: 1,
        ne2: 1,
        ne3: 1,
        nb0: 2,
        nb1: (n * 2) as u64,
        nb2: (n * 2) as u64,
        nb3: (n * 2) as u64,
    }
}

/// How many rows the next group of a row-wise product takes.
pub open spec fn spec_group_rows(left: int) -> u64 {
    if left >= 4 {
        4
    } else if left >= 2 {
        2
    } else {
        1
    }
}

impl Trace {
    pub open spec fn cast_launch(self, src: BufId, dst: BufId, n: u64) -> Trace {
        self.put(Command::Encoder).put(
            Command::Pipeline(Pipe::Special(Kernel::CpyF32F16, Consts::Plain)),
        ).put(Command::Bytes(0, Args::Cpy(spec_cast_args(n)))).buf_at(1, src).buf_at(2, dst).put(
            Command::Dispatch((((n + 255) / 256) as u64, 1, 1), (256, 1, 1)),
        ).put(Command::EndEncoder)
    }

    #[verifier::opaque]
    pub open spec fn cast_f32_to_f16_contig(self, src: DeferredBuf, n: u64) -> (
        Trace,
        Result<DeferredBuf, EncodeError>,
    ) {
        if n == 0 {
            self.refuse(Check::ZeroDim, 0, 1)
        } else if src.n_elements < n {
            self.refuse(Check::InputLen, src.n_elements as int, n as int)
        } else {
            let (t, dst) = self.alloc_u16(n);
            (t.cast_launch(src.buf, dst.buf, n), Ok(dst))
        }
    }

    #[verifier::opaque]
    pub open spec fn kv_f16_workspace_direct(
        self,
        kv_f32: DeferredBuf,
        n_rows: u64,
        head_dim: u64,
        n_total_padded: u32,
    ) -> (Trace, Result<BufId, EncodeError>) {
        if kv_f32.n_elements < n_rows * head_dim {
            self.refuse(Check::InputLen, kv_f32.n_elements as int, n_rows * head_dim)
        } else if n_total_padded < n_rows {
            self.refuse(Check::Rows, n_total_padded as int, n_rows as int)
        } else {
            let (t, dst) = self.alloc_u16((n_total_padded * head_dim) as u64);
            (t.cast_launch(kv_f32.buf, dst.buf, (n_rows * head_dim) as u64), Ok(dst.buf))
        }
    }

    pub open spec fn q8_matvec_into(
        self,
        w_q8: DeferredBuf,
        x: DeferredBuf,
        d_in: u64,
        d_out: u64,
    ) -> (Trace, Result<DeferredBuf, EncodeError>) {
        if w_q8.n_elements != d_in * d_out {
            self.refuse(Check::WeightLen, w_q8.n_elements as int, d_in * d_out)
        } else if x.n_elements != d_in {
            self.refuse(Check::InputLen, x.n_elements as int, d_in as int)
        } else if d_in % 32 != 0 {
            self.refuse(Check::InputAlign, d_in as int, 32)
        } else if d_out % 2 != 0 {
            self.refuse(Check::OutputAlign, d_out as int, 2)
        } else {
            let standard = if self.config.q8_nsg_by_width {
                spec_nsg_by_width(d_in)
            } else {
                spec_nsg_by_rows(d_out)
            };
            let nsg = spec_or(self.config.q8_nsg, standard);
            let nxpsg = spec_or(self.config.q8_nxpsg, spec_nxpsg(d_in));
            let row = q8_row(d_in);
            let args = spec_mv_args(
                d_in,
                d_out,
                1,
                2,
                row,
                (row * d_out) as u64,
                1,
                (d_in * 4) as u64,
                (d_in * 4) as u64,
            );
            let (t, out) = self.alloc_f32(d_out);
            (
                t.bind3(
                    Pipe::Special(Kernel::MulMvQ8, Consts::Rows { nsg, nxpsg }),
                    Args::MulMv(args),
                    w_q8.buf,
                    (x.buf, 0),
                    (out.buf, 0),
                    256,
                    (((d_out + 1) / 2) as u64, 1, 1),
                    (32, nsg as u64, 1),
                ),
                Ok(out),
            )
        }
    }

    pub open spec fn q4_matvec_into(
        self,
        w_q4: DeferredBuf,
        x: DeferredBuf,
        d_in: u64,
        d_out: u64,
    ) -> (Trace, Result<DeferredBuf, EncodeError>) {
        if x.n_elements != d_in {
            self.refuse(Check::InputLen, x.n_elements as int, d_in as int)
        } else if d_in % 32 != 0 {
            self.refuse(Check::InputAlign, d_in as int, 32)
        } else if d_out % 2 != 0 {
            self.refuse(Check::OutputAlign, d_out as int, 2)
        } else {
            let nsg = spec_or(self.config.q4_nsg, spec_nsg_by_rows(d_out));
            let nxpsg = spec_or(self.config.q4_nxpsg, spec_nxpsg(d_in));
            let row = q4_row(d_in);
            let args = spec_mv_args(
                d_in,
                d_out,
                1,
                2,
                row,
                (row * d_out) as u64,
                1,
                (d_in * 4) as u64,
                (d_in * 4) as u64,
            );
            let (t, out) = self.alloc_f32(d_out);
            (
                t.bind3(
                    Pipe::Special(Kernel::MulMvQ4, Consts::Rows { nsg, nxpsg }),
                    Args::MulMv(args),
                    w_q4.buf,
                    (x.buf, 0),
                    (out.buf, 0),
                    256,
                    (((d_out + 1) / 2) as u64, 1, 1),
                    (32, nsg as u64, 1),
                ),
                Ok(out),
            )
        }
    }

    #[verifier::opaque]
    pub open spec fn matvec_q8_0(
        self,
        w_q8: DeferredBuf,
        x: DeferredBuf,
        d_in: u64,
        d_out: u64,
    ) -> (Trace, Result<DeferredBuf, EncodeError>) {
        let (t, r) = self.put(Command::Encoder).q8_matvec_into(w_q8, x, d_in, d_out);
        match r {
            Ok(out) => (t.put(Command::EndEncoder), Ok(out)),
            Err(e) => (t, Err(e)),
        }
    }

    #[verifier::opaque]
    pub open spec fn matvec_q8_0_pair_concurrent(
        self,
        w_a: DeferredBuf,
        x_a: DeferredBuf,
        d_in_a: u64,
        d_out_a: u64,
        w_b: DeferredBuf,
        x_b: DeferredBuf,
        d_in_b: u64,
        d_out_b: u64,
    ) -> (Trace, Result<(DeferredBuf, DeferredBuf), EncodeError>) {
        let (t, ra) = self.put(Command::ConcurrentEncoder).q8_matvec_into(
            w_a,
            x_a,
            d_in_a,
            d_out_a,
        );
        if ra is Err {
            t.failed(ra)
        } else {
            let (t, rb) = t.q8_matvec_into(w_b, x_b, d_in_b, d_out_b);
            if rb is Err {
                t.failed(rb)
            } else {
                (t.put(Command::EndEncoder), Ok((ra->Ok_0, rb->Ok_0)))
            }
        }
    }

    /// The requantised copy of a Q8_0 weight, made and pinned on first use.
    #[verifier::opaque]
    pub open spec fn requantized(self, w_q8: DeferredBuf, d_in: u64, d_out: u64) -> (
        Trace,
        DeferredBuf,
    ) {
        let n = (d_in * d_out) as u64;
        match find_buf(self.pools.requant, w_q8.buf) {
            Some(slot) => (self, DeferredBuf { buf: BufId::Requant(slot), n_elements: n }),
            None => {
                let slot = self.pools.requant.len() as u64;
                let t = self.put(
                    Command::Requantize { src: w_q8.buf, blocks: n / 32, slot },
                ).put(Command::Pin(BufId::Requant(slot))).put(Command::CommitResidency);
                (
                    Trace {
                        pools: Pools {
                            requant: self.pools.requant.push(w_q8.buf),
                            ..self.pools
                        },
                        ..t
                    },
                    DeferredBuf { buf: BufId::Requant(slot), n_elements: n },
                )
            },
        }
    }

    #[verifier::opaque]
    pub open spec fn matvec_attn_proj(
        self,
        w_q8: DeferredBuf,
        x: DeferredBuf,
        d_in: u64,
        d_out: u64,
    ) -> (Trace, Result<DeferredBuf, EncodeError>) {
        if self.config.decode_attn_q4 {
            let (t, w_q4) = self.requantized(w_q8, d_in, d_out);
            let (t, r) = t.put(Command::Encoder).q4_matvec_into(w_q4, x, d_in, d_out);
            match r {
                Ok(out) => (t.put(Command::EndEncoder), Ok(out)),
                Err(e) => (t, Err(e)),
            }
        } else {
            self.matvec_q8_0(w_q8, x, d_in, d_out)
        }
    }

    /// A several-position Q8_0 product encoded row by row, from row `i` on.
    pub open spec fn q8_rows(
        self,
        w_q8: DeferredBuf,
        x_k: DeferredBuf,
        d_in: u64,
        d_out: u64,
        k: u64,
        out: DeferredBuf,
        i: int,
    ) -> (Trace, Result<(), EncodeError>)
        decreases k - i,
    {
        if i >= k {
            (self, Ok(()))
        } else {
            let (t, xk) = self.slice_out_f32(x_k, (i * d_in) as u64, d_in);
            let (t, r) = t.matvec_q8_0(w_q8, xk, d_in, d_out);
            if r is Err {
                t.failed(r)
            } else {
                t.copy_buf_into(r->Ok_0, out.buf, (i * d_out) as u64).q8_rows(
                    w_q8,
                    x_k,
                    d_in,
                    d_out,
                    k,
                    out,
                    i + 1,
                )
            }
        }
    }

    pub open spec fn q8_faithful(
        self,
        w_q8: DeferredBuf,
        x_k: DeferredBuf,
        d_in: u64,
        d_out: u64,
        k: u64,
    ) -> (Trace, Result<DeferredBuf, EncodeError>) {
        let (t, out) = self.alloc_f32((k * d_out) as u64);
        let (t, r) = t.q8_rows(w_q8, x_k, d_in, d_out, k, out, 0);
        if r is Err {
            t.failed(r)
        } else {
            (t, Ok(out))
        }
    }

    #[verifier::opaque]
    pub open spec fn matvec_k_q8_0(
        self,
        w_q8: DeferredBuf,
        x_k: DeferredBuf,
        d_in: u64,
        d_out: u64,
        k: u64,
    ) -> (Trace, Result<DeferredBuf, EncodeError>) {
        if w_q8.n_elements != d_in * d_out {
            self.refuse(Check::WeightLen, w_q8.n_elements as int, d_in * d_out)
        } else if x_k.n_elements != k * d_in {
            self.refuse(Check::InputLen, x_k.n_elements as int, k * d_in)
        } else if d_in % 32 != 0 {
            self.refuse(Check::InputAlign, d_in as int, 32)
        } else if !(k == 1 || k == 2 || k == 4 || k == 8) {
            self.refuse(Check::Positions, k as int, 8)
        } else if self.config.q8_faithful {
            self.q8_faithful(w_q8, x_k, d_in, d_out, k)
        } else {
            let (t, out) = self.alloc_f32((k * d_out) as u64);
            (
                t.put(Command::Encoder).put(
                    Command::Pipeline(
                        Pipe::Special(
                            Kernel::MulMvKQ8,
                            Consts::Positions { nsg: 4, positions: k as i16 },
                        ),
                    ),
                ).u32_at(0, d_in as u32).u32_at(1, d_out as u32).buf_at(2, w_q8.buf).buf_at(
                    3,
                    x_k.buf,
                ).buf_at(4, out.buf).put(Command::GroupMemory(5120)).put(
                    Command::Dispatch((((d_out + 31) / 32) as u64, 1, 1), (32, 4, 1)),
                ).put(Command::EndEncoder),
                Ok(out),
            )
        }
    }

    #[verifier::opaque]
    pub open spec fn matmul_k_q8_0(
        self,
        w_q8: DeferredBuf,
        x_k: DeferredBuf,
        d_in: u64,
        d_out: u64,
        k: u64,
    ) -> (Trace, Result<DeferredBuf, EncodeError>) {
        if d_in == 0 || d_out == 0 {
            self.refuse(Check::ZeroDim, 0, 1)
        } else if w_q8.n_elements != d_in * d_out {
            self.refuse(Check::WeightLen, w_q8.n_elements as int, d_in * d_out)
        } else if x_k.n_elements != k * d_in {
            self.refuse(Check::InputLen, x_k.n_elements as int, k * d_in)
        } else if d_in % 32 != 0 {
            self.refuse(Check::InputAlign, d_in as int, 32)
        } else if self.config.q8_faithful {
            self.q8_faithful(w_q8, x_k, d_in, d_out, k)
        } else {
            let half = self.config.attn_gemm_f16;
            let act: u64 = if half {
                2
            } else {
                4
            };
            let row = q8_row(d_in);
            let args = spec_mm_args(
                d_in,
                1,
                row,
                (row * d_out) as u64,
                act,
                (d_in * act) as u64,
                (d_in * k * act) as u64,
                (d_in * k * act) as u64,
                d_out,
                k,
            );
            let pad_rows = if self.config.mm_pad {
                (k + 31) / 32 * 32
            } else {
                k as int
            };
            let (t, padded) = self.alloc_attn_out((pad_rows * d_out) as u64);
            let out = DeferredBuf { buf: padded.buf, n_elements: (k * d_out) as u64 };
            let (t, x) = if half {
                t.cast_f32_to_f16_contig(x_k, (k * d_in) as u64)
            } else {
                (t, Ok(x_k))
            };
            if x is Err {
                t.failed(x)
            } else {
                (
                    t.launch3(
                        Pipe::Special(
                            if half {
                                Kernel::MulMmQ8F16
                            } else {
                                Kernel::MulMmQ8F32
                            },
                            Consts::Bounds { inp: false, out: ragged(d_out, k) },
                        ),
                        Args::Mm(args),
                        w_q8.buf,
                        (x->Ok_0.buf, 0),
                        (out.buf, 0),
                        if ragged(d_out, k) {
                            8192
                        } else {
                            6144
                        },
                        (((k + 31) / 32) as u64, ((d_out + 63) / 64) as u64, 1),
                        (128, 1, 1),
                    ),
                    Ok(out),
                )
            }
        }
    }

    #[verifier::opaque]
    pub open spec fn matmul_k_q4_0(
        self,
        w_q4: DeferredBuf,
        x_k: DeferredBuf,
        d_in: u64,
        d_out: u64,
        k: u64,
    ) -> (Trace, Result<DeferredBuf, EncodeError>) {
        if d_in == 0 || d_out == 0 {
            self.refuse(Check::ZeroDim, 0, 1)
        } else if d_in % 32 != 0 {
            self.refuse(Check::InputAlign, d_in as int, 32)
        } else {
            let row = q4_row(d_in);
            let args = spec_mm_args(
                d_in,
                1,
                row,
                (row * d_out) as u64,
                4,
                (d_in * 4) as u64,
                (d_in * k * 4) as u64,
                (d_in * k * 4) as u64,
                d_out,
                k,
            );
            let (t, out) = self.alloc_attn_out((k * d_out) as u64);
            (
                t.put(Command::CloseShared).launch3(
                    Pipe::Special(
                        Kernel::MulMmQ4F32,
                        Consts::Bounds { inp: false, out: ragged(d_out, k) },
                    ),
                    Args::Mm(args),
                    w_q4.buf,
                    (x_k.buf, 0),
                    (out.buf, 0),
                    8192,
                    (((k + 31) / 32) as u64, ((d_out + 63) / 64) as u64, 1),
                    (128, 1, 1),
                ),
                Ok(out),
            )
        }
    }

    #[verifier::opaque]
    pub open spec fn matmul_k_f16(
        self,
        w: DeferredBuf,
        x_k: DeferredBuf,
        d_in: u64,
        d_out: u64,
        k: u64,
    ) -> (Trace, Result<DeferredBuf, EncodeError>) {
        if d_in == 0 || d_out == 0 {
            self.refuse(Check::ZeroDim, 0, 1)
        } else if w.n_elements != d_in * d_out {
            self.refuse(Check::WeightLen, w.n_elements as int, d_in * d_out)
        } else if x_k.n_elements != k * d_in {
            self.refuse(Check::InputLen, x_k.n_elements as int, k * d_in)
        } else if d_in % 8 != 0 {
            self.refuse(Check::InputAlign, d_in as int, 8)
        } else {
            let row = (d_in * 2) as u64;
            let args = spec_mm_args(
                d_in,
                1,
                row,
                (row * d_out) as u64,
                4,
                (d_in * 4) as u64,
                (d_in * k * 4) as u64,
                (d_in * k * 4) as u64,
                d_out,
                k,
            );
            let (t, out) = self.alloc_f32((k * d_out) as u64);
            (
                t.launch3(
                    Pipe::Special(
                        Kernel::MulMmF16F32,
                        Consts::Bounds { inp: d_in % 32 != 0, out: ragged(d_out, k) },
                    ),
                    Args::Mm(args),
                    w.buf,
                    (x_k.buf, 0),
                    (out.buf, 0),
                    if ragged(d_out, k) {
                        8192
                    } else {
                        6144
                    },
                    (((k + 31) / 32) as u64, ((d_out + 63) / 64) as u64, 1),
                    (128, 1, 1),
                ),
                Ok(out),
            )
        }
    }

    #[verifier::opaque]
    pub open spec fn matmul_k_q8_0_grouped(
        self,
        w_q8: DeferredBuf,
        x_k: DeferredBuf,
        group_dim: u64,
        n_lora_o: u64,
        n_groups: u64,
        k: u64,
    ) -> (Trace, Result<DeferredBuf, EncodeError>) {
        if group_dim % 32 != 0 {
            self.refuse(Check::InputAlign, group_dim as int, 32)
        } else if w_q8.n_elements != n_groups * n_lora_o * group_dim {
            self.refuse(Check::WeightLen, w_q8.n_elements as int, n_groups * n_lora_o * group_dim)
        } else if x_k.n_elements != k * n_groups * group_dim {
            self.refuse(Check::InputLen, x_k.n_elements as int, k * n_groups * group_dim)
        } else {
            let row = q8_row(group_dim);
            let x_row = (n_groups * group_dim * 4) as u64;
            let args = spec_mm_args(
                group_dim,
                n_groups,
                row,
                (row * n_lora_o) as u64,
                4,
                x_row,
                (group_dim * 4) as u64,
                (x_row * k) as u64,
                n_lora_o,
                k,
            );
            let (t, out) = self.alloc_f32((n_groups * k * n_lora_o) as u64);
            (
                t.launch3(
                    Pipe::Special(
                        Kernel::MulMmQ8F32,
                        Consts::Bounds { inp: false, out: ragged(n_lora_o, k) },
                    ),
                    Args::Mm(args),
                    w_q8.buf,
                    (x_k.buf, 0),
                    (out.buf, 0),
                    if ragged(n_lora_o, k) {
                        8192
                    } else {
                        6144
                    },
                    (((k + 31) / 32) as u64, ((n_lora_o + 63) / 64) as u64, n_groups),
                    (128, 1, 1),
                ),
                Ok(out),
            )
        }
    }

    #[verifier::opaque]
    pub open spec fn interleave_group_major(
        self,
        src: DeferredBuf,
        n_groups: u64,
        k: u64,
        n_lora_o: u64,
    ) -> (Trace, DeferredBuf) {
        let n = (k * n_groups * n_lora_o) as u64;
        let total = n as u32;
        let (t, out) = self.alloc_f32(n);
        (
            t.put(Command::Encoder).put(
                Command::Pipeline(Pipe::Special(Kernel::InterleaveGroupMajor, Consts::Plain)),
            ).buf_at(0, src.buf).buf_at(1, out.buf).u32_at(2, n_groups as u32).u32_at(
                3,
                k as u32,
            ).u32_at(4, n_lora_o as u32).u32_at(5, total).put(
                Command::Dispatch((((total + 255) / 256) as u64, 1, 1), (256, 1, 1)),
            ).put(Command::EndEncoder),
            out,
        )
    }

    /// A several-position product encoded in groups of four, two and one rows,
    /// from row `r` on.
    pub open spec fn grouped_rows(
        self,
        w_q8: DeferredBuf,
        x_k: DeferredBuf,
        d_in: u64,
        d_out: u64,
        k: u64,
        out: DeferredBuf,
        r: int,
    ) -> (Trace, Result<(), EncodeError>)
        decreases k - r,
    {
        if r >= k {
            (self, Ok(()))
        } else {
            let g = spec_group_rows(k - r);
            let (t, x_g) = self.slice_out_f32(x_k, (r * d_in) as u64, (g * d_in) as u64);
            let (t, res) = t.matvec_k_q8_0(w_q8, x_g, d_in, d_out, g);
            if res is Err {
                t.failed(res)
            } else {
                t.copy_buf_into(res->Ok_0, out.buf, (r * d_out) as u64).grouped_rows(
                    w_q8,
                    x_k,
                    d_in,
                    d_out,
                    k,
                    out,
                    r + g,
                )
            }
        }
    }

    #[verifier::opaque]
    pub open spec fn matmul_k_q8_0_auto(
        self,
        w_q8: DeferredBuf,
        x_k: DeferredBuf,
        d_in: u64,
        d_out: u64,
        k: u64,
    ) -> (Trace, Result<DeferredBuf, EncodeError>) {
        if self.config.matmul_k_pertok && k > 4 {
            let (t, out) = self.disarm().alloc_f32((k * d_out) as u64);
            let (t, r) = t.grouped_rows(w_q8, x_k, d_in, d_out, k, out, 0);
            if r is Err {
                t.failed(r)
            } else {
                (t, Ok(out))
            }
        } else if k == 1 || k == 2 || k == 4 || (k == 8 && self.config.k8_matvec) {
            self.disarm().matvec_k_q8_0(w_q8, x_k, d_in, d_out, k)
        } else {
            self.matmul_k_q8_0(w_q8, x_k, d_in, d_out, k)
        }
    }

    #[verifier::opaque]
    pub open spec fn matmul_k_attn_proj(
        self,
        w_q8: DeferredBuf,
        x_k: DeferredBuf,
        d_in: u64,
        d_out: u64,
        k: u64,
    ) -> (Trace, Result<DeferredBuf, EncodeError>) {
        if self.config.attn_q4 {
            let (t, w_q4) = self.requantized(w_q8, d_in, d_out);
            t.matmul_k_q4_0(w_q4, x_k, d_in, d_out, k)
        } else {
            self.matmul_k_q8_0_auto(w_q8, x_k, d_in, d_out, k)
        }
    }

    #[verifier::opaque]
    pub open spec fn argmax(self, logits: DeferredBuf, n: u64) -> (Trace, DeferredBuf) {
        let (t, out) = self.alloc_i32(1);
        (
            t.put(Command::Encoder).put(
                Command::Pipeline(Pipe::Special(Kernel::Argmax, Consts::Plain)),
            ).buf_at(0, logits.buf).buf_at(1, out.buf).u32_at(2, n as u32).put(
                Command::Dispatch((1, 1, 1), (256, 1, 1)),
            ).put(Command::EndEncoder),
            out,
        )
    }

    /// The product of one matrix of elements of `wb` bytes with `k` vectors in one launch.
    pub open spec fn mv_batch(
        self,
        kernel: Kernel,
        wb: u64,
        w: DeferredBuf,
        x_k: DeferredBuf,
        d_in: u64,
        d_out: u64,
        k: u64,
    ) -> (Trace, DeferredBuf) {
        let nsg = spec_nsg_by_width(d_in);
        let args = spec_mv_args(
            d_in,
            d_out,
            1,
            wb,
            (d_in * wb) as u64,
            (d_in * d_out * wb) as u64,
            k,
            (d_in * 4) as u64,
            (k * d_in * 4) as u64,
        );
        let (t, out) = self.alloc_f32((k * d_out) as u64);
        (
            t.launch3(
                Pipe::Special(kernel, Consts::Rows { nsg, nxpsg: spec_nxpsg(d_in) }),
                Args::MulMv(args),
                w.buf,
                (x_k.buf, 0),
                (out.buf, 0),
                256,
                (((d_out + 1) / 2) as u64, k, 1),
                (32, nsg as u64, 1),
            ),
            out,
        )
    }

    pub open spec fn matvec_float(
        self,
        kernel: Kernel,
        wb: u64,
        w: DeferredBuf,
        x: DeferredBuf,
        d_in: u64,
        d_out: u64,
    ) -> (Trace, Result<DeferredBuf, EncodeError>) {
        if w.n_elements != d_in * d_out {
            self.refuse(Check::WeightLen, w.n_elements as int, d_in * d_out)
        } else if x.n_elements != d_in {
            self.refuse(Check::InputLen, x.n_elements as int, d_in as int)
        } else if d_in % 4 != 0 {
            self.refuse(Check::InputAlign, d_in as int, 4)
        } else if d_out % 2 != 0 {
            self.refuse(Check::OutputAlign, d_out as int, 2)
        } else {
            let (t, out) = self.mv_batch(kernel, wb, w, x, d_in, d_out, 1);
            (t, Ok(out))
        }
    }

    #[verifier::opaque]
    pub open spec fn matvec_f32(
        self,
        w: DeferredBuf,
        x: DeferredBuf,
        d_in: u64,
        d_out: u64,
    ) -> (Trace, Result<DeferredBuf, EncodeError>) {
        self.matvec_float(Kernel::MulMvF32, 4, w, x, d_in, d_out)
    }

    #[verifier::opaque]
    pub open spec fn matvec_f16(
        self,
        w: DeferredBuf,
        x: DeferredBuf,
        d_in: u64,
        d_out: u64,
    ) -> (Trace, Result<DeferredBuf, EncodeError>) {
        self.matvec_float(Kernel::MulMvF16, 2, w, x, d_in, d_out)
    }

    pub open spec fn mul_mv_k_impl(
        self,
        kernel: Kernel,
        wb: u64,
        w: DeferredBuf,
        x_k: DeferredBuf,
        d_in: u64,
        d_out: u64,
        k: u64,
    ) -> (Trace, Result<DeferredBuf, EncodeError>) {
        if d_in == 0 || d_out == 0 || k == 0 {
            self.refuse(Check::ZeroDim, 0, 1)
        } else if w.n_elements != d_in * d_out {
            self.refuse(Check::WeightLen, w.n_elements as int, d_in * d_out)
        } else if x_k.n_elements != k * d_in {
            self.refuse(Check::InputLen, x_k.n_elements as int, k * d_in)
        } else if d_in % 4 != 0 {
            self.refuse(Check::InputAlign, d_in as int, 4)
        } else if d_out % 2 != 0 {
            self.refuse(Check::OutputAlign, d_out as int, 2)
        } else {
            let (t, out) = self.mv_batch(kernel, wb, w, x_k, d_in, d_out, k);
            (t, Ok(out))
        }
    }

    #[verifier::opaque]
    pub open spec fn matmul_f16_k(
        self,
        w: DeferredBuf,
        x_k: DeferredBuf,
        d_in: u64,
        d_out: u64,
        k: u64,
    ) -> (Trace, Result<DeferredBuf, EncodeError>) {
        self.mul_mv_k_impl(Kernel::MulMvF16, 2, w, x_k, d_in, d_out, k)
    }

    #[verifier::opaque]
    pub open spec fn matmul_f32_k(
        self,
        w: DeferredBuf,
        x_k: DeferredBuf,
        d_in: u64,
        d_out: u64,
        k: u64,
    ) -> (Trace, Result<DeferredBuf, EncodeError>) {
        self.mul_mv_k_impl(Kernel::MulMvF32, 4, w, x_k, d_in, d_out, k)
    }

    #[verifier::opaque]
    pub open spec fn matvec_f32_k(
        self,
        w: DeferredBuf,
        x_k: DeferredBuf,
        d_in: u64,
        d_out: u64,
        k: u64,
    ) -> (Trace, Result<DeferredBuf, EncodeError>) {
        if w.n_elements != d_in * d_out {
            self.refuse(Check::WeightLen, w.n_elements as int, d_in * d_out)
        } else if x_k.n_elements != k * d_in {
            self.refuse(Check::InputLen, x_k.n_elements as int, k * d_in)
        } else if d_in % 4 != 0 || d_out % 2 != 0 {
            self.refuse(Check::InputAlign, d_in as int, 4)
        } else {
            let (t, out) = self.mv_batch(Kernel::MulMvF32, 4, w, x_k, d_in, d_out, k);
            (t, Ok(out))
        }
    }
}

impl BatchScope {
    fn cast_launch(&mut self, src: BufId, dst: BufId, n: u64)
        requires
            elements(n as int),
        ensures
            final(self)@ == old(self)@.cast_launch(src, dst, n),
            final(self)@.encodes(old(self)@),
            final(self)@.pools.carrier == old(self)@.pools.carrier,
    {
        let args: CpyArgs = CpyArgs {
            nk0: n as i64,
            ne00: n as i64,
            ne01: 1,
            ne02: 1,
            ne03: 1,
            nb00: 4,
            nb01: n * 4,
            nb02: n * 4,
            nb03: n * 4,
            ne0: n as i64,
            ne1: 1,
            ne2: 1,
            ne3: 1,
            nb0: 2,
            nb1: n * 2,
            nb2: n * 2,
            nb3: n * 2,
        };
        self.put(Command::Encoder);
        self.put(Command::Pipeline(Pipe::Special(Kernel::CpyF32F16, Consts::Plain)));
        self.put(Command::Bytes(0, Args::Cpy(args)));
        self.buf_at(1, src);
        self.buf_at(2, dst);
        self.put(Command::Dispatch(((n + 255) / 256, 1, 1), (256, 1, 1)));
        self.put(Command::EndEncoder);
    }

    /// Converts the first `n` elements to half precision.
    pub fn cast_f32_to_f16_contig(&mut self, src: &DeferredBuf, n: u64) -> (r: Result<
        DeferredBuf,
        EncodeError,
    >)
        requires
            elements(n as int),
        ensures
            (final(self)@, r) == old(self)@.cast_f32_to_f16_contig(*src, n),
            r matches Ok(b) ==> b.n_elements == n,
            final(self)@.encodes(old(self)@),
            final(self)@.pools.carrier == old(self)@.pools.carrier,
    {
        proof {
            reveal(Trace::cast_f32_to_f16_contig);
        }
        if n == 0 {
            return Err(unfit(Check::ZeroDim, 0, 1));
        }
        if src.n_elements < n {
            return Err(unfit(Check::InputLen, src.n_elements, n));
        }
        let dst: DeferredBuf = self.alloc_u16(n);
        self.cast_launch(src.buf, dst.buf, n);
        Ok(dst)
    }

    /// Converts `n_rows` rows to half precision into a workspace of `n_total_padded` rows.
    pub fn kv_f16_workspace_direct(
        &mut self,
        kv_f32: &DeferredBuf,
        n_rows: u64,
        head_dim: u64,
        n_total_padded: u32,
    ) -> (r: Result<BufId, EncodeError>)
        requires
            extent(n_rows),
            extent(head_dim),
            elements(n_rows * head_dim),
        ensures
            (final(self)@, r) == old(self)@.kv_f16_workspace_direct(
                *kv_f32,
                n_rows,
                head_dim,
                n_total_padded,
            ),
            final(self)@.encodes(old(self)@),
            final(self)@.pools.carrier == old(self)@.pools.carrier,
    {
        proof {
            reveal(Trace::kv_f16_workspace_direct);
        }
        let n: u64 = times(n_rows, head_dim);
        if kv_f32.n_elements < n {
            return Err(unfit(Check::InputLen, kv_f32.n_elements, n));
        }
        if (n_total_padded as u64) < n_rows {
            return Err(unfit(Check::Rows, n_total_padded as u64, n_rows));
        }
        let dst: DeferredBuf = self.alloc_u16(times_wide(n_total_padded as u64, head_dim));
        self.cast_launch(kv_f32.buf, dst.buf, n);
        Ok(dst.buf)
    }

    fn q8_matvec_into(
        &mut self,
        w_q8: &DeferredBuf,
        x: &DeferredBuf,
        d_in: u64,
        d_out: u64,
    ) -> (r: Result<DeferredBuf, EncodeError>)
        requires
            extent(d_in),
            extent(d_out),
        ensures
            (final(self)@, r) == old(self)@.q8_matvec_into(*w_q8, *x, d_in, d_out),
            final(self)@.encodes(old(self)@),
            final(self)@.pools.carrier == old(self)@.pools.carrier,
    {
        if w_q8.n_elements != times(d_in, d_out) {
            return Err(unfit(Check::WeightLen, w_q8.n_elements, times(d_in, d_out)));
        }
        if x.n_elements != d_in {
            return Err(unfit(Check::InputLen, x.n_elements, d_in));
        }
        if d_in % 32 != 0 {
            return Err(unfit(Check::InputAlign, d_in, 32));
        }
        if d_out % 2 != 0 {
            return Err(unfit(Check::OutputAlign, d_out, 2));
        }
        let standard: i16 = if self.config.q8_nsg_by_width {
            nsg_by_width(d_in)
        } else {
            nsg_by_rows(d_out)
        };
        let nsg: i16 = setting_or(self.config.q8_nsg, standard);
        let nxpsg: i16 = setting_or(self.config.q8_nxpsg, nxpsg_for(d_in));
        let row: u64 = (d_in / 32) * 34;
        let args: MulMvArgs = mv_args(
            d_in,
            d_out,
            1,
            2,
            row,
            times_wide(row, d_out),
            1,
            d_in * 4,
            d_in * 4,
        );
        let out: DeferredBuf = self.alloc_f32(d_out);
        self.bind3(
            Pipe::Special(Kernel::MulMvQ8, Consts::Rows { nsg, nxpsg }),
            Args::MulMv(args),
            w_q8.buf,
            (x.buf, 0),
            (out.buf, 0),
            256,
            ((d_out + 1) / 2, 1, 1),
            (32, nsg as u64, 1),
        );
        Ok(out)
    }

    fn q4_matvec_into(
        &mut self,
        w_q4: &DeferredBuf,
        x: &DeferredBuf,
        d_in: u64,
        d_out: u64,
    ) -> (r: Result<DeferredBuf, EncodeError>)
        requires
            extent(d_in),
            extent(d_out),
        ensures
            (final(self)@, r) == old(self)@.q4_matvec_into(*w_q4, *x, d_in, d_out),
            final(self)@.encodes(old(self)@),
            final(self)@.pools.carrier == old(self)@.pools.carrier,
    {
        if x.n_elements != d_in {
            return Err(unfit(Check::InputLen, x.n_elements, d_in));
        }
        if d_in % 32 != 0 {
            return Err(unfit(Check::InputAlign, d_in, 32));
        }
        if d_out % 2 != 0 {
            return Err(unfit(Check::OutputAlign, d_out, 2));
        }
        let nsg: i16 = setting_or(self.config.q4_nsg, nsg_by_rows(d_out));
        let nxpsg: i16 = setting_or(self.config.q4_nxpsg, nxpsg_for(d_in));
        let row: u64 = (d_in / 32) * 18;
        let args: MulMvArgs = mv_args(
            d_in,
            d_out,
            1,
            2,
            row,
            times_wide(row, d_out),
            1,
            d_in * 4,
            d_in * 4,
        );
        let out: DeferredBuf = self.alloc_f32(d_out);
        self.bind3(
            Pipe::Special(Kernel::MulMvQ4, Consts::Rows { nsg, nxpsg }),
            Args::MulMv(args),
            w_q4.buf,
            (x.buf, 0),
            (out.buf, 0),
            256,
            ((d_out + 1) / 2, 1, 1),
            (32, nsg as u64, 1),
        );
        Ok(out)
    }

    /// A Q8_0 matrix times one vector.
    pub fn matvec_q8_0(
        &mut self,
        w_q8: &DeferredBuf,
        x: &DeferredBuf,
        d_in: u64,
        d_out: u64,
    ) -> (r: Result<DeferredBuf, EncodeError>)
        requires
            extent(d_in),
            extent(d_out),
        ensures
            (final(self)@, r) == old(self)@.matvec_q8_0(*w_q8, *x, d_in, d_out),
            r matches Ok(b) ==> b.n_elements == d_out,
            final(self)@.encodes(old(self)@),
            final(self)@.pools.carrier == old(self)@.pools.carrier,
    {
        proof {
            reveal(Trace::matvec_q8_0);
        }
        self.put(Command::Encoder);
        let out: DeferredBuf = self.q8_matvec_into(w_q8, x, d_in, d_out)?;
        self.put(Command::EndEncoder);
        Ok(out)
    }

    /// Two independent Q8_0 matrix-vector products that may overlap on the device.
    pub fn matvec_q8_0_pair_concurrent(
        &mut self,
        w_a: &DeferredBuf,
        x_a: &DeferredBuf,
        d_in_a: u64,
        d_out_a: u64,
        w_b: &DeferredBuf,
        x_b: &DeferredBuf,
        d_in_b: u64,
        d_out_b: u64,
    ) -> (r: Result<(DeferredBuf, DeferredBuf), EncodeError>)
        requires
            extent(d_in_a),
            extent(d_out_a),
            extent(d_in_b),
            extent(d_out_b),
        ensures
            (final(self)@, r) == old(self)@.matvec_q8_0_pair_concurrent(
                *w_a,
                *x_a,
                d_in_a,
                d_out_a,
                *w_b,
                *x_b,
                d_in_b,
                d_out_b,
            ),
            r matches Ok(b) ==> b.0.n_elements == d_out_a && b.1.n_elements == d_out_b,
            final(self)@.encodes(old(self)@),
            final(self)@.pools.carrier == old(self)@.pools.carrier,
    {
        proof {
            reveal(Trace::matvec_q8_0_pair_concurrent);
        }
        self.put(Command::ConcurrentEncoder);
        let out_a: DeferredBuf = self.q8_matvec_into(w_a, x_a, d_in_a, d_out_a)?;
        let out_b: DeferredBuf = self.q8_matvec_into(w_b, x_b, d_in_b, d_out_b)?;
        self.put(Command::EndEncoder);
        Ok((out_a, out_b))
    }

    fn requantized(&mut self, w_q8: &DeferredBuf, d_in: u64, d_out: u64) -> (r: DeferredBuf)
        requires
            extent(d_in),
            extent(d_out),
        ensures
            (final(self)@, r) == old(self)@.requantized(*w_q8, d_in, d_out),
            r.n_elements == d_in * d_out,
            final(self)@.encodes(old(self)@),
            final(self)@.pools.carrier == old(self)@.pools.carrier,
    {
        proof {
            reveal(Trace::requantized);
        }
        let n: u64 = times(d_in, d_out);
        match self.pools.find_requant(w_q8.buf) {
            Some(slot) => DeferredBuf { buf: BufId::Requant(slot), n_elements: n },
            None => {
                let slot: u64 = self.pools.requant.len() as u64;
                self.put(Command::Requantize { src: w_q8.buf, blocks: n / 32, slot });
                self.put(Command::Pin(BufId::Requant(slot)));
                self.put(Command::CommitResidency);
                self.pools.requant.push(w_q8.buf);
                DeferredBuf { buf: BufId::Requant(slot), n_elements: n }
            },
        }
    }

    /// An attention projection of one vector, at Q4_0 where that is asked for.
    pub fn matvec_attn_proj(
        &mut self,
        w_q8: &DeferredBuf,
        x: &DeferredBuf,
        d_in: u64,
        d_out: u64,
    ) -> (r: Result<DeferredBuf, EncodeError>)
        requires
            extent(d_in),
            extent(d_out),
        ensures
            (final(self)@, r) == old(self)@.matvec_attn_proj(*w_q8, *x, d_in, d_out),
            r matches Ok(b) ==> b.n_elements == d_out,
            final(self)@.encodes(old(self)@),
            final(self)@.pools.carrier == old(self)@.pools.carrier,
    {
        proof {
            reveal(Trace::matvec_attn_proj);
        }
        if !self.config.decode_attn_q4 {
            return self.matvec_q8_0(w_q8, x, d_in, d_out);
        }
        let w_q4: DeferredBuf = self.requantized(w_q8, d_in, d_out);
        self.put(Command::Encoder);
        let out: DeferredBuf = self.q4_matvec_into(&w_q4, x, d_in, d_out)?;
        self.put(Command::EndEncoder);
        Ok(out)
    }

    fn q8_faithful(
        &mut self,
        w_q8: &DeferredBuf,
        x_k: &DeferredBuf,
        d_in: u64,
        d_out: u64,
        k: u64,
    ) -> (r: Result<DeferredBuf, EncodeError>)
        requires
            extent(d_in),
            extent(d_out),
            extent(k),
            x_k.n_elements == k * d_in,
        ensures
            (final(self)@, r) == old(self)@.q8_faithful(*w_q8, *x_k, d_in, d_out, k),
            r matches Ok(b) ==> b.n_elements == k * d_out,
            final(self)@.encodes(old(self)@),
            final(self)@.pools.carrier == old(self)@.pools.carrier,
    {
        let n: u64 = times(k, d_out);
        let out: DeferredBuf = self.alloc_f32(n);
        let ghost start = self@;
        let ghost goal = start.q8_rows(*w_q8, *x_k, d_in, d_out, k, out, 0);
        let mut i: u64 = 0;
        while i < k
            invariant
                self@.encodes(old(self)@),
                self@.pools.carrier == old(self)@.pools.carrier,
                extent(d_in),
                extent(d_out),
                extent(k),
                i <= k,
                x_k.n_elements == k * d_in,
                goal == self@.q8_rows(*w_q8, *x_k, d_in, d_out, k, out, i as int),
                goal == start.q8_rows(*w_q8, *x_k, d_in, d_out, k, out, 0),
                (start, out) == old(self)@.alloc_f32((k * d_out) as u64),
            decreases k - i,
        {
            proof {
                lemma_product(i as int, d_in as int);
                lemma_product(i as int, d_out as int);
                lemma_row(i + 1, k as int, d_in as int);
                assert((i + 1) * d_in == i * d_in + d_in) by (nonlinear_arith);
            }
            let xk: DeferredBuf = self.slice_out_f32(x_k, i * d_in, d_in);
            let ok: DeferredBuf = self.matvec_q8_0(w_q8, &xk, d_in, d_out)?;
            self.copy_buf_into(&ok, out.buf, i * d_out);
            i = i + 1;
        }
        Ok(out)
    }

    /// A Q8_0 matrix times one, two, four or eight vectors.
    pub fn matvec_k_q8_0(
        &mut self,
        w_q8: &DeferredBuf,
        x_k: &DeferredBuf,
        d_in: u64,
        d_out: u64,
        k_positions: u64,
    ) -> (r: Result<DeferredBuf, EncodeError>)
        requires
            extent(d_in),
            extent(d_out),
            extent(k_positions),
        ensures
            (final(self)@, r) == old(self)@.matvec_k_q8_0(*w_q8, *x_k, d_in, d_out, k_positions),
            r matches Ok(b) ==> b.n_elements == k_positions * d_out,
            final(self)@.encodes(old(self)@),
            final(self)@.pools.carrier == old(self)@.pools.carrier,
    {
        proof {
            reveal(Trace::matvec_k_q8_0);
        }
        let k: u64 = k_positions;
        if w_q8.n_elements != times(d_in, d_out) {
            return Err(unfit(Check::WeightLen, w_q8.n_elements, times(d_in, d_out)));
        }
        if x_k.n_elements != times(k, d_in) {
            return Err(unfit(Check::InputLen, x_k.n_elements, times(k, d_in)));
        }
        if d_in % 32 != 0 {
            return Err(unfit(Check::InputAlign, d_in, 32));
        }
        if !(k == 1 || k == 2 || k == 4 || k == 8) {
            return Err(unfit(Check::Positions, k, 8));
        }
        if self.config.q8_faithful {
            return self.q8_faithful(w_q8, x_k, d_in, d_out, k);
        }
        let out: DeferredBuf = self.alloc_f32(times(k, d_out));
        self.put(Command::Encoder);
        self.put(
            Command::Pipeline(
                Pipe::Special(
                    Kernel::MulMvKQ8,
                    Consts::Positions { nsg: 4, positions: k as i16 },
                ),
            ),
        );
        self.u32_at(0, d_in as u32);
        self.u32_at(1, d_out as u32);
        self.buf_at(2, w_q8.buf);
        self.buf_at(3, x_k.buf);
        self.buf_at(4, out.buf);
        self.put(Command::GroupMemory(5120));
        self.put(Command::Dispatch(((d_out + 31) / 32, 1, 1), (32, 4, 1)));
        self.put(Command::EndEncoder);
        Ok(out)
    }

    /// A Q8_0 matrix times any number of vectors, as a GEMM.
    pub fn matmul_k_q8_0(
        &mut self,
        w_q8: &DeferredBuf,
        x_k: &DeferredBuf,
        d_in: u64,
        d_out: u64,
        k_positions: u64,
    ) -> (r: Result<DeferredBuf, EncodeError>)
        requires
            extent(d_in),
            extent(d_out),
            extent(k_positions),
            elements(k_positions * d_in),
        ensures
            (final(self)@, r) == old(self)@.matmul_k_q8_0(*w_q8, *x_k, d_in, d_out, k_positions),
            r matches Ok(b) ==> b.n_elements == k_positions * d_out,
            final(self)@.encodes(old(self)@),
            final(self)@.pools.carrier == old(self)@.pools.carrier,
    {
        proof {
            reveal(Trace::matmul_k_q8_0);
        }
        let k: u64 = k_positions;
        if d_in == 0 || d_out == 0 {
            return Err(unfit(Check::ZeroDim, 0, 1));
        }
        if w_q8.n_elements != times(d_in, d_out) {
            return Err(unfit(Check::WeightLen, w_q8.n_elements, times(d_in, d_out)));
        }
        if x_k.n_elements != times(k, d_in) {
            return Err(unfit(Check::InputLen, x_k.n_elements, times(k, d_in)));
        }
        if d_in % 32 != 0 {
            return Err(unfit(Check::InputAlign, d_in, 32));
        }
        if self.config.q8_faithful {
            return self.q8_faithful(w_q8, x_k, d_in, d_out, k);
        }
        let half: bool = self.config.attn_gemm_f16;
        let act: u64 = if half {
            2
        } else {
            4
        };
        let row: u64 = (d_in / 32) * 34;
        let n_act: u64 = times(d_in, k);
        assert(d_in * act <= 0x1_ffff_fffc && n_act * act <= u64::MAX) by (nonlinear_arith)
            requires
                d_in <= 0x7fff_ffff,
                act == 2 || act == 4,
                n_act <= 0x3fff_ffff_0000_0001,
        ;
        let args: MmArgs = mm_args(
            d_in,
            1,
            row,
            times_wide(row, d_out),
            act,
            d_in * act,
            n_act * act,
            n_act * act,
            d_out,
            k,
        );
        let bc_out: bool = d_out % 64 != 0 || k % 32 != 0;
        let pad_rows: u64 = if self.config.mm_pad {
            (k + 31) / 32 * 32
        } else {
            k
        };
        let padded: DeferredBuf = self.alloc_attn_out(times_wide(pad_rows, d_out));
        let out: DeferredBuf = DeferredBuf { buf: padded.buf, n_elements: times(k, d_out) };
        let x: DeferredBuf = if half {
            self.cast_f32_to_f16_contig(x_k, times(k, d_in))?
        } else {
            *x_k
        };
        let kernel: Kernel = if half {
            Kernel::MulMmQ8F16
        } else {
            Kernel::MulMmQ8F32
        };
        let memory: u64 = if bc_out {
            8192
        } else {
            6144
        };
        self.launch3(
            Pipe::Special(kernel, Consts::Bounds { inp: false, out: bc_out }),
            Args::Mm(args),
            w_q8.buf,
            (x.buf, 0),
            (out.buf, 0),
            memory,
            ((k + 31) / 32, (d_out + 63) / 64, 1),
            (128, 1, 1),
        );
        Ok(out)
    }

    /// A Q4_0 matrix times any number of vectors, as a GEMM.
    pub fn matmul_k_q4_0(
        &mut self,
        w_q4: &DeferredBuf,
        x_k: &DeferredBuf,
        d_in: u64,
        d_out: u64,
        k_positions: u64,
    ) -> (r: Result<DeferredBuf, EncodeError>)
        requires
            extent(d_in),
            extent(d_out),
            extent(k_positions),
        ensures
            (final(self)@, r) == old(self)@.matmul_k_q4_0(*w_q4, *x_k, d_in, d_out, k_positions),
            r matches Ok(b) ==> b.n_elements == k_positions * d_out,
            final(self)@.encodes(old(self)@),
            final(self)@.pools.carrier == old(self)@.pools.carrier,
    {
        proof {
            reveal(Trace::matmul_k_q4_0);
        }
        let k: u64 = k_positions;
        if d_in == 0 || d_out == 0 {
            return Err(unfit(Check::ZeroDim, 0, 1));
        }
        if d_in % 32 != 0 {
            return Err(unfit(Check::InputAlign, d_in, 32));
        }
        let row: u64 = (d_in / 32) * 18;
        let n_act: u64 = times(d_in, k);
        let args: MmArgs = mm_args(
            d_in,
            1,
            row,
            times_wide(row, d_out),
            4,
            d_in * 4,
            n_act * 4,
            n_act * 4,
            d_out,
            k,
        );
        let bc_out: bool = d_out % 64 != 0 || k % 32 != 0;
        let out: DeferredBuf = self.alloc_attn_out(times(k, d_out));
        self.put(Command::CloseShared);
        self.launch3(
            Pipe::Special(Kernel::MulMmQ4F32, Consts::Bounds { inp: false, out: bc_out }),
            Args::Mm(args),
            w_q4.buf,
            (x_k.buf, 0),
            (out.buf, 0),
            8192,
            ((k + 31) / 32, (d_out + 63) / 64, 1),
            (128, 1, 1),
        );
        Ok(out)
    }

    /// A half-precision matrix times any number of vectors, as a GEMM.
    pub fn matmul_k_f16(
        &mut self,
        w: &DeferredBuf,
        x_k: &DeferredBuf,
        d_in: u64,
        d_out: u64,
        k_positions: u64,
    ) -> (r: Result<DeferredBuf, EncodeError>)
        requires
            extent(d_in),
            extent(d_out),
            extent(k_positions),
        ensures
            (final(self)@, r) == old(self)@.matmul_k_f16(*w, *x_k, d_in, d_out, k_positions),
            r matches Ok(b) ==> b.n_elements == k_positions * d_out,
            final(self)@.encodes(old(self)@),
            final(self)@.pools.carrier == old(self)@.pools.carrier,
    {
        proof {
            reveal(Trace::matmul_k_f16);
        }
        let k: u64 = k_positions;
        if d_in == 0 || d_out == 0 {
            return Err(unfit(Check::ZeroDim, 0, 1));
        }
        if w.n_elements != times(d_in, d_out) {
            return Err(unfit(Check::WeightLen, w.n_elements, times(d_in, d_out)));
        }
        if x_k.n_elements != times(k, d_in) {
            return Err(unfit(Check::InputLen, x_k.n_elements, times(k, d_in)));
        }
        if d_in % 8 != 0 {
            return Err(unfit(Check::InputAlign, d_in, 8));
        }
        let row: u64 = d_in * 2;
        let n_act: u64 = times(d_in, k);
        let args: MmArgs = mm_args(
            d_in,
            1,
            row,
            times_wide(row, d_out),
            4,
            d_in * 4,
            n_act * 4,
            n_act * 4,
            d_out,
            k,
        );
        let bc_out: bool = d_out % 64 != 0 || k % 32 != 0;
        let memory: u64 = if bc_out {
            8192
        } else {
            6144
        };
        let out: DeferredBuf = self.alloc_f32(times(k, d_out));
        self.launch3(
            Pipe::Special(
                Kernel::MulMmF16F32,
                Consts::Bounds { inp: d_in % 32 != 0, out: bc_out },
            ),
            Args::Mm(args),
            w.buf,
            (x_k.buf, 0),
            (out.buf, 0),
            memory,
            ((k + 31) / 32, (d_out + 63) / 64, 1),
            (128, 1, 1),
        );
        Ok(out)
    }

    /// One Q8_0 matrix per group, each times its part of every vector. The
    /// result lies group by group.
    pub fn matmul_k_q8_0_grouped(
        &mut self,
        w_q8: &DeferredBuf,
        x_k: &DeferredBuf,
        group_dim: u64,
        n_lora_o: u64,
        n_groups: u64,
        k_positions: u64,
    ) -> (r: Result<DeferredBuf, EncodeError>)
        requires
            extent(group_dim),
            extent(n_lora_o),
            extent(n_groups),
            extent(k_positions),
            n_groups * group_dim * 4 * k_positions <= u64::MAX,
            elements(n_groups * k_positions * n_lora_o),
        ensures
            (final(self)@, r) == old(self)@.matmul_k_q8_0_grouped(
                *w_q8,
                *x_k,
                group_dim,
                n_lora_o,
                n_groups,
                k_positions,
            ),
            r matches Ok(b) ==> b.n_elements == n_groups * k_positions * n_lora_o,
            final(self)@.encodes(old(self)@),
            final(self)@.pools.carrier == old(self)@.pools.carrier,
    {
        proof {
            reveal(Trace::matmul_k_q8_0_grouped);
        }
        let k: u64 = k_positions;
        if group_dim % 32 != 0 {
            return Err(unfit(Check::InputAlign, group_dim, 32));
        }
        if !is_product3(w_q8.n_elements, n_groups, n_lora_o, group_dim) {
            return Err(
                unfit(Check::WeightLen, w_q8.n_elements, capped3(n_groups, n_lora_o, group_dim)),
            );
        }
        if !is_product3(x_k.n_elements, k, n_groups, group_dim) {
            return Err(unfit(Check::InputLen, x_k.n_elements, capped3(k, n_groups, group_dim)));
        }
        let row: u64 = (group_dim / 32) * 34;
        let x_row: u64 = times(n_groups, group_dim) * 4;
        let args: MmArgs = mm_args(
            group_dim,
            n_groups,
            row,
            times_wide(row, n_lora_o),
            4,
            x_row,
            group_dim * 4,
            x_row * k,
            n_lora_o,
            k,
        );
        let bc_out: bool = n_lora_o % 64 != 0 || k % 32 != 0;
        let memory: u64 = if bc_out {
            8192
        } else {
            6144
        };
        let out: DeferredBuf = self.alloc_f32(times3(n_groups, k, n_lora_o));
        self.launch3(
            Pipe::Special(Kernel::MulMmQ8F32, Consts::Bounds { inp: false, out: bc_out }),
            Args::Mm(args),
            w_q8.buf,
            (x_k.buf, 0),
            (out.buf, 0),
            memory,
            ((k + 31) / 32, (n_lora_o + 63) / 64, n_groups),
            (128, 1, 1),
        );
        Ok(out)
    }

    /// Turns rows that lie group by group into rows that lie position by position.
    pub fn interleave_group_major(
        &mut self,
        src: &DeferredBuf,
        n_groups: u64,
        k_positions: u64,
        n_lora_o: u64,
    ) -> (r: Result<DeferredBuf, EncodeError>)
        requires
            extent(n_groups),
            extent(k_positions),
            elements(k_positions * n_groups * n_lora_o),
        ensures
            (final(self)@, r) == ({
                let (t, out) = old(self)@.interleave_group_major(
                    *src,
                    n_groups,
                    k_positions,
                    n_lora_o,
                );
                (t, Ok::<DeferredBuf, EncodeError>(out))
            }),
            r matches Ok(b) && b.n_elements == k_positions * n_groups * n_lora_o,
            final(self)@.encodes(old(self)@),
            final(self)@.pools.carrier == old(self)@.pools.carrier,
    {
        proof {
            reveal(Trace::interleave_group_major);
        }
        let n: u64 = times3(k_positions, n_groups, n_lora_o);
        let out: DeferredBuf = self.alloc_f32(n);
        let total: u32 = n as u32;
        self.put(Command::Encoder);
        self.put(
            Command::Pipeline(Pipe::Special(Kernel::InterleaveGroupMajor, Consts::Plain)),
        );
        self.buf_at(0, src.buf);
        self.buf_at(1, out.buf);
        self.u32_at(2, n_groups as u32);
        self.u32_at(3, k_positions as u32);
        self.u32_at(4, n_lora_o as u32);
        self.u32_at(5, total);
        self.put(Command::Dispatch(((total as u64 + 255) / 256, 1, 1), (256, 1, 1)));
        self.put(Command::EndEncoder);
        Ok(out)
    }

    /// A Q8_0 matrix times any number of vectors, by the kernel that suits the number.
    pub fn matmul_k_q8_0_auto(
        &mut self,
        w_q8: &DeferredBuf,
        x_k: &DeferredBuf,
        d_in: u64,
        d_out: u64,
        k_positions: u64,
    ) -> (r: Result<DeferredBuf, EncodeError>)
        requires
            extent(d_in),
            extent(d_out),
            extent(k_positions),
            elements(k_positions * d_in),
            old(self)@.config.matmul_k_pertok && k_positions > 4 ==> k_positions * d_in
                <= x_k.n_elements,
        ensures
            (final(self)@, r) == old(self)@.matmul_k_q8_0_auto(
                *w_q8,
                *x_k,
                d_in,
                d_out,
                k_positions,
            ),
            r matches Ok(b) ==> b.n_elements == k_positions * d_out,
            final(self)@.encodes(old(self)@),
            final(self)@.pools.carrier == old(self)@.pools.carrier,
    {
        proof {
            reveal(Trace::matmul_k_q8_0_auto);
        }
        let k: u64 = k_positions;
        let armed: Option<PoolKey> = self.pools.attn_key;
        self.disarm();
        if self.config.matmul_k_pertok && k > 4 {
            let out: DeferredBuf = self.alloc_f32(times(k, d_out));
            let ghost start = self@;
            let ghost goal = start.grouped_rows(*w_q8, *x_k, d_in, d_out, k, out, 0);
            let mut r: u64 = 0;
            while r < k
                invariant
                    self@.encodes(old(self)@),
                    self@.pools.carrier == old(self)@.pools.carrier,
                    extent(d_in),
                    extent(d_out),
                    extent(k),
                    r <= k,
                    k * d_in <= x_k.n_elements,
                    goal == self@.grouped_rows(*w_q8, *x_k, d_in, d_out, k, out, r as int),
                    goal == start.grouped_rows(*w_q8, *x_k, d_in, d_out, k, out, 0),
                    (start, out) == old(self)@.disarm().alloc_f32((k * d_out) as u64),
                    old(self)@.config.matmul_k_pertok,
                    k == k_positions,
                    k > 4,
                decreases k - r,
            {
                let g: u64 = if k - r >= 4 {
                    4
                } else if k - r >= 2 {
                    2
                } else {
                    1
                };
                proof {
                    reveal(Trace::matmul_k_q8_0_auto);
                    lemma_product(k as int, d_out as int);
                    lemma_product(r as int, d_in as int);
                    lemma_product(r as int, d_out as int);
                    lemma_row(r + g, k as int, d_in as int);
                    assert((r + g) * d_in == r * d_in + g * d_in) by (nonlinear_arith);
                    lemma_product(g as int, d_out as int);
                }
                let x_g: DeferredBuf = self.slice_out_f32(x_k, r * d_in, g * d_in);
                let res: DeferredBuf = self.matvec_k_q8_0(w_q8, &x_g, d_in, d_out, g)?;
                self.copy_buf_into(&res, out.buf, r * d_out);
                r = r + g;
            }
            return Ok(out);
        }
        if k == 1 || k == 2 || k == 4 || (k == 8 && self.config.k8_matvec) {
            self.matvec_k_q8_0(w_q8, x_k, d_in, d_out, k)
        } else {
            if let Some(key) = armed {
                self.arm(key);
            }
            assert(self@ == old(self)@);
            self.matmul_k_q8_0(w_q8, x_k, d_in, d_out, k)
        }
    }

    /// An attention projection of several vectors, at Q4_0 where that is asked for.
    pub fn matmul_k_attn_proj(
        &mut self,
        w_q8: &DeferredBuf,
        x_k: &DeferredBuf,
        d_in: u64,
        d_out: u64,
        k_positions: u64,
    ) -> (r: Result<DeferredBuf, EncodeError>)
        requires
            extent(d_in),
            extent(d_out),
            extent(k_positions),
            elements(k_positions * d_in),
            old(self)@.config.matmul_k_pertok && k_positions > 4 ==> k_positions * d_in
                <= x_k.n_elements,
        ensures
            (final(self)@, r) == old(self)@.matmul_k_attn_proj(
                *w_q8,
                *x_k,
                d_in,
                d_out,
                k_positions,
            ),
            r matches Ok(b) ==> b.n_elements == k_positions * d_out,
            final(self)@.encodes(old(self)@),
            final(self)@.pools.carrier == old(self)@.pools.carrier,
    {
        proof {
            reveal(Trace::matmul_k_attn_proj);
        }
        if !self.config.attn_q4 {
            return self.matmul_k_q8_0_auto(w_q8, x_k, d_in, d_out, k_positions);
        }
        let w_q4: DeferredBuf = self.requantized(w_q8, d_in, d_out);
        self.matmul_k_q4_0(&w_q4, x_k, d_in, d_out, k_positions)
    }

    /// The index of the greatest of the first `n` values.
    pub fn argmax(&mut self, logits: &DeferredBuf, n: u64) -> (r: Result<DeferredBuf, EncodeError>)
        ensures
            (final(self)@, r) == ({
                let (t, out) = old(self)@.argmax(*logits, n);
                (t, Ok::<DeferredBuf, EncodeError>(out))
            }),
            r matches Ok(b) && b.n_elements == 1,
            final(self)@.encodes(old(self)@),
            final(self)@.pools.carrier == old(self)@.pools.carrier,
    {
        proof {
            reveal(Trace::argmax);
        }
        let out: DeferredBuf = self.alloc_i32(1);
        self.put(Command::Encoder);
        self.put(Command::Pipeline(Pipe::Special(Kernel::Argmax, Consts::Plain)));
        self.buf_at(0, logits.buf);
        self.buf_at(1, out.buf);
        self.u32_at(2, n as u32);
        self.put(Command::Dispatch((1, 1, 1), (256, 1, 1)));
        self.put(Command::EndEncoder);
        Ok(out)
    }

    fn mv_batch(
        &mut self,
        kernel: Kernel,
        wb: u64,
        w: &DeferredBuf,
        x_k: &DeferredBuf,
        d_in: u64,
        d_out: u64,
        k: u64,
    ) -> (r: DeferredBuf)
        requires
            extent(d_in),
            extent(d_out),
            extent(k),
            wb == 2 || wb == 4,
        ensures
            (final(self)@, r) == old(self)@.mv_batch(kernel, wb, *w, *x_k, d_in, d_out, k),
            r.n_elements == k * d_out,
            final(self)@.encodes(old(self)@),
            final(self)@.pools.carrier == old(self)@.pools.carrier,
    {
        let nsg: i16 = nsg_by_width(d_in);
        let n_w: u64 = times(d_in, d_out);
        assert(d_in * wb <= 0x1_ffff_fffc && n_w * wb <= u64::MAX) by (nonlinear_arith)
            requires
                d_in <= 0x7fff_ffff,
                wb == 2 || wb == 4,
                n_w <= 0x3fff_ffff_0000_0001,
        ;
        let args: MulMvArgs = mv_args(
            d_in,
            d_out,
            1,
            wb,
            d_in * wb,
            n_w * wb,
            k,
            d_in * 4,
            times(k, d_in) * 4,
        );
        let out: DeferredBuf = self.alloc_f32(times(k, d_out));
        self.launch3(
            Pipe::Special(kernel, Consts::Rows { nsg, nxpsg: nxpsg_for(d_in) }),
            Args::MulMv(args),
            w.buf,
            (x_k.buf, 0),
            (out.buf, 0),
            256,
            ((d_out + 1) / 2, k, 1),
            (32, nsg as u64, 1),
        );
        out
    }

    fn matvec_float(
        &mut self,
        kernel: Kernel,
        wb: u64,
        w: &DeferredBuf,
        x: &DeferredBuf,
        d_in: u64,
        d_out: u64,
    ) -> (r: Result<DeferredBuf, EncodeError>)
        requires
            extent(d_in),
            extent(d_out),
            wb == 2 || wb == 4,
        ensures
            (final(self)@, r) == old(self)@.matvec_float(kernel, wb, *w, *x, d_in, d_out),
            r matches Ok(b) ==> b.n_elements == d_out,
            final(self)@.encodes(old(self)@),
            final(self)@.pools.carrier == old(self)@.pools.carrier,
    {
        if w.n_elements != times(d_in, d_out) {
            return Err(unfit(Check::WeightLen, w.n_elements, times(d_in, d_out)));
        }
        if x.n_elements != d_in {
            return Err(unfit(Check::InputLen, x.n_elements, d_in));
        }
        if d_in % 4 != 0 {
            return Err(unfit(Check::InputAlign, d_in, 4));
        }
        if d_out % 2 != 0 {
            return Err(unfit(Check::OutputAlign, d_out, 2));
        }
        Ok(self.mv_batch(kernel, wb, w, x, d_in, d_out, 1))
    }

    /// A single-precision matrix times one vector.
    pub fn matvec_f32(
        &mut self,
        w: &DeferredBuf,
        x: &DeferredBuf,
        d_in: u64,
        d_out: u64,
    ) -> (r: Result<DeferredBuf, EncodeError>)
        requires
            extent(d_in),
            extent(d_out),
        ensures
            (final(self)@, r) == old(self)@.matvec_f32(*w, *x, d_in, d_out),
            r matches Ok(b) ==> b.n_elements == d_out,
            final(self)@.encodes(old(self)@),
            final(self)@.pools.carrier == old(self)@.pools.carrier,
    {
        proof {
            reveal(Trace::matvec_f32);
        }
        self.matvec_float(Kernel::MulMvF32, 4, w, x, d_in, d_out)
    }

    /// A half-precision matrix times one vector.
    pub fn matvec_f16(
        &mut self,
        w: &DeferredBuf,
        x: &DeferredBuf,
        d_in: u64,
        d_out: u64,
    ) -> (r: Result<DeferredBuf, EncodeError>)
        requires
            extent(d_in),
            extent(d_out),
        ensures
            (final(self)@, r) == old(self)@.matvec_f16(*w, *x, d_in, d_out),
            r matches Ok(b) ==> b.n_elements == d_out,
            final(self)@.encodes(old(self)@),
            final(self)@.pools.carrier == old(self)@.pools.carrier,
    {
        proof {
            reveal(Trace::matvec_f16);
        }
        self.matvec_float(Kernel::MulMvF16, 2, w, x, d_in, d_out)
    }

    fn mul_mv_k_impl(
        &mut self,
        kernel: Kernel,
        wb: u64,
        w: &DeferredBuf,
        x_k: &DeferredBuf,
        d_in: u64,
        d_out: u64,
        k: u64,
    ) -> (r: Result<DeferredBuf, EncodeError>)
        requires
            extent(d_in),
            extent(d_out),
            extent(k),
            wb == 2 || wb == 4,
        ensures
            (final(self)@, r) == old(self)@.mul_mv_k_impl(kernel, wb, *w, *x_k, d_in, d_out, k),
            r matches Ok(b) ==> b.n_elements == k * d_out,
            final(self)@.encodes(old(self)@),
            final(self)@.pools.carrier == old(self)@.pools.carrier,
    {
        if d_in == 0 || d_out == 0 || k == 0 {
            return Err(unfit(Check::ZeroDim, 0, 1));
        }
        if w.n_elements != times(d_in, d_out) {
            return Err(unfit(Check::WeightLen, w.n_elements, times(d_in, d_out)));
        }
        if x_k.n_elements != times(k, d_in) {
            return Err(unfit(Check::InputLen, x_k.n_elements, times(k, d_in)));
        }
        if d_in % 4 != 0 {
            return Err(unfit(Check::InputAlign, d_in, 4));
        }
        if d_out % 2 != 0 {
            return Err(unfit(Check::OutputAlign, d_out, 2));
        }
        Ok(self.mv_batch(kernel, wb, w, x_k, d_in, d_out, k))
    }

    /// A half-precision matrix times several vectors in one launch.
    pub fn matmul_f16_k(
        &mut self,
        w: &DeferredBuf,
        x_k: &DeferredBuf,
        d_in: u64,
        d_out: u64,
        k: u64,
    ) -> (r: Result<DeferredBuf, EncodeError>)
        requires
            extent(d_in),
            extent(d_out),
            extent(k),
        ensures
            (final(self)@, r) == old(self)@.matmul_f16_k(*w, *x_k, d_in, d_out, k),
            r matches Ok(b) ==> b.n_elements == k * d_out,
            final(self)@.encodes(old(self)@),
            final(self)@.pools.carrier == old(self)@.pools.carrier,
    {
        proof {
            reveal(Trace::matmul_f16_k);
        }
        self.mul_mv_k_impl(Kernel::MulMvF16, 2, w, x_k, d_in, d_out, k)
    }

    /// A single-precision matrix times several vectors in one launch.
    pub fn matmul_f32_k(
        &mut self,
        w: &DeferredBuf,
        x_k: &DeferredBuf,
        d_in: u64,
        d_out: u64,
        k: u64,
    ) -> (r: Result<DeferredBuf, EncodeError>)
        requires
            extent(d_in),
            extent(d_out),
            extent(k),
        ensures
            (final(self)@, r) == old(self)@.matmul_f32_k(*w, *x_k, d_in, d_out, k),
            r matches Ok(b) ==> b.n_elements == k * d_out,
            final(self)@.encodes(old(self)@),
            final(self)@.pools.carrier == old(self)@.pools.carrier,
    {
        proof {
            reveal(Trace::matmul_f32_k);
        }
        self.mul_mv_k_impl(Kernel::MulMvF32, 4, w, x_k, d_in, d_out, k)
    }

    /// [`BatchScope::matmul_f32_k`] that takes no vectors at all, too.
    pub fn matvec_f32_k(
        &mut self,
        w: &DeferredBuf,
        x_k: &DeferredBuf,
        d_in: u64,
        d_out: u64,
        k_positions: u64,
    ) -> (r: Result<DeferredBuf, EncodeError>)
        requires
            extent(d_in),
            extent(d_out),
            extent(k_positions),
        ensures
            (final(self)@, r) == old(self)@.matvec_f32_k(*w, *x_k, d_in, d_out, k_positions),
            r matches Ok(b) ==> b.n_elements == k_positions * d_out,
            final(self)@.encodes(old(self)@),
            final(self)@.pools.carrier == old(self)@.pools.carrier,
    {
        proof {
            reveal(Trace::matvec_f32_k);
        }
        if w.n_elements != times(d_in, d_out) {
            return Err(unfit(Check::WeightLen, w.n_elements, times(d_in, d_out)));
        }
        if x_k.n_elements != times(k_positions, d_in) {
            return Err(unfit(Check::InputLen, x_k.n_elements, times(k_positions, d_in)));
        }
        if d_in % 4 != 0 || d_out % 2 != 0 {
            return Err(unfit(Check::InputAlign, d_in, 4));
        }
        Ok(self.mv_batch(Kernel::MulMvF32, 4, w, x_k, d_in, d_out, k_positions))
    }
}

} // verus!
