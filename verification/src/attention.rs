//! Attention over the caches: decode steps, several positions, and the cache itself.

use crate::arith::{elements, extent, is_product3, lemma_product, lemma_row, row_offset, times,
    times_u32, times_wide};
use crate::command::{Args, BufId, Command, CompRows, DeferredBuf, Elem, ExtendedKv, F32,
    FlashPersistent, FlashWindow, HostRef, MulMvArgs, MulMvIdArgs, Source};
use crate::config::{KvMerge, LayerParams};
use crate::error::{Check, EncodeError, Refusal, capped3, refusal, refusal_of, unfit};
use crate::kernel::{Consts, Kernel, Pipe};
use crate::matmul::{mv_args, nsg_by_rows, nsg_by_width, nxpsg_for, q8_row, setting_or,
    spec_mv_args, spec_nsg_by_rows, spec_nsg_by_width, spec_nxpsg, spec_or};
use crate::norm::{row_threads, spec_row_threads};
use crate::scope::BatchScope;
use crate::trace::Trace;
use vstd::prelude::*;

verus! {

broadcast use crate::trace::group_encodes;

/// The numbers `0, 1, .., n - 1`.
pub open spec fn iota(n: u32) -> Seq<u32> {
    Seq::new(n as nat, |i: int| i as u32)
}

/// The arguments of an indexed matrix-vector product: `ne02` matrices of `ne01`
/// rows of `ne00` weights, picked by `nei0` indices for each of `nei1` positions,
/// against `ne11` vectors per position.
pub open spec fn spec_mv_id_args(
    nei0: u64,
    nei1: u64,
    nbi1: u64,
    ne00: u64,
    ne01: u64,
    ne02: u64,
    row: u64,
    plane: u64,
    ne11: u64,
    nb12: u64,
    ne1: u64,
    nr0: i32,
) -> MulMvIdArgs {
    MulMvIdArgs {
        nei0: nei0 as i32,
        nei1: nei1 as i32,
        nbi1,
        ne00: ne00 as i32,
        ne01: ne01 as i32,
        ne02: ne02 as i32,
        nb00: 2,
        nb01: row,
        nb02: plane,
        ne10: ne00 as i32,
        ne11: ne11 as i32,
        ne12: 1,
        ne13: 1,
        nb10: 4,
        nb11: (ne00 * 4) as u64,
        nb12,
        ne0: ne01 as i32,
        ne1: ne1 as i32,
        nb1: (ne01 * 4) as u64,
        nr0,
    }
}

pub(crate) fn mv_id_args(
    nei0: u64,
    nei1: u64,
    nbi1: u64,
    ne00: u64,
    ne01: u64,
    ne02: u64,
    row: u64,
    plane: u64,
    ne11: u64,
    nb12: u64,
    ne1: u64,
    nr0: i32,
) -> (r: MulMvIdArgs)
    requires
        extent(ne00),
        extent(ne01),
    ensures
        r == spec_mv_id_args(
            nei0,
            nei1,
            nbi1,
            ne00,
            ne01,
            ne02,
            row,
            plane,
            ne11,
            nb12,
            ne1,
            nr0,
        ),
{
    MulMvIdArgs {
        nei0: nei0 as i32,
        nei1: nei1 as i32,
        nbi1,
        ne00: ne00 as i32,
        ne01: ne01 as i32,
        ne02: ne02 as i32,
        nb00: 2,
        nb01: row,
        nb02: plane,
        ne10: ne00 as i32,
        ne11: ne11 as i32,
        ne12: 1,
        ne13: 1,
        nb10: 4,
        nb11: ne00 * 4,
        nb12,
        ne0: ne01 as i32,
        ne1: ne1 as i32,
        nb1: ne01 * 4,
        nr0,
    }
}

/// The threads that store one row: one per 64 unrotated elements, from one to 1024.
pub open spec fn store_threads(params: LayerParams) -> u64 {
    spec_row_threads((unrotated(params) / 64) as u64)
}

/// The elements of a head that are not rotated.
pub open spec fn unrotated(params: LayerParams) -> u32 {
    if params.head_dim >= params.n_rot {
        (params.head_dim - params.n_rot) as u32
    } else {
        0
    }
}

fn unrotated_of(params: &LayerParams) -> (r: u32)
    ensures
        r == unrotated(*params),
{
    if params.head_dim >= params.n_rot {
        params.head_dim - params.n_rot
    } else {
        0
    }
}

/// Where the row at `pos` of a ring of `cap` rows lies.
pub open spec fn ring_slot(pos: int, cap: int) -> int {
    pos % cap
}

/// A layer's caches hold `rows` rows of `row` elements.
pub open spec fn cache_fits(rows: int, row: int) -> bool {
    rows * row * 4 <= u64::MAX
}

impl Trace {
    pub open spec fn flash_persistent(self, op: FlashPersistent) -> (Trace, DeferredBuf) {
        self.make(
            Command::FlashPersistent(op),
            (op.params.n_head * op.params.head_dim) as u64,
        )
    }

    /// Why a decode step over the cache alone is refused: its kernel takes heads of
    /// 512 elements and rows in whole groups of 32.
    pub open spec fn raw_refusal(params: LayerParams, n_raw: u32) -> Option<Refusal> {
        if params.head_dim != 512 {
            Some(refusal(Check::HeadDim, params.head_dim as int, 512))
        } else if n_raw == 0 || n_raw % 32 != 0 {
            Some(refusal(Check::CacheAlign, n_raw as int, 32))
        } else {
            None
        }
    }

    /// Why a decode step over the cache and compressed rows is refused: heads and
    /// rows have 512 elements, and there is some row.
    pub open spec fn mixed_refusal(
        params: LayerParams,
        n_raw: u32,
        n_selected: u32,
    ) -> Option<Refusal> {
        if params.head_dim != 512 || params.n_lora_kv != params.head_dim {
            Some(refusal(Check::HeadDim, params.head_dim as int, 512))
        } else if n_raw == 0 && n_selected == 0 {
            Some(refusal(Check::CacheAlign, 0, 1))
        } else {
            None
        }
    }

    /// A decode step whose queries lie on the host.
    pub open spec fn flash_host(self, refusal: Option<Refusal>, op: FlashPersistent) -> (
        Trace,
        Result<DeferredBuf, EncodeError>,
    ) {
        match refusal {
            Some(c) => self.refused(c),
            None => {
                let (t, out) = self.flash_persistent(op);
                (t, Ok(out))
            },
        }
    }

    /// A decode step whose queries lie on the device.
    pub open spec fn flash_qbuf(self, q: DeferredBuf, op: FlashPersistent) -> (
        Trace,
        Result<DeferredBuf, EncodeError>,
    ) {
        if q.n_elements != op.params.n_head * op.params.head_dim {
            self.refuse(Check::InputLen, q.n_elements as int, op.params.n_head * op.params.head_dim)
        } else {
            self.flash_host(
                if op.comp is Absent {
                    Trace::raw_refusal(op.params, op.n_raw)
                } else {
                    None
                },
                op,
            )
        }
    }

    pub open spec fn flash_window(self, op: FlashWindow) -> (Trace, DeferredBuf) {
        self.make(
            Command::FlashWindow(op),
            (op.k * op.params.n_head * op.params.head_dim) as u64,
        )
    }

    pub open spec fn build_chunk_kv_workspace(
        self,
        kv_raw: DeferredBuf,
        comp_ring: BufId,
        n_raw: u32,
        n_comp: u32,
        head_dim: u32,
        n_total_padded: u32,
    ) -> (Trace, BufId) {
        let (t, sel_start) = self.add_words(iota(n_comp));
        let op = ExtendedKv {
            kv_raw: kv_raw.buf,
            comp_ring,
            sel_start,
            n_raw,
            n_comp,
            head_dim,
            n_total_padded,
        };
        (t.put(Command::ExtendedKv(op)), BufId::Fresh(t.at()))
    }

    pub open spec fn gather_ring_window(
        self,
        ring: BufId,
        out: DeferredBuf,
        out_row_off: u32,
        raw_cap: u32,
        first_pos: u32,
        n: u32,
        head_dim: u32,
    ) -> Trace {
        if n == 0 {
            self
        } else {
            let row = head_dim * 4;
            let first = ring_slot(first_pos as int, raw_cap as int);
            let seg1 = if raw_cap - first < n {
                raw_cap - first
            } else {
                n as int
            };
            let t = self.put(Command::CloseShared).put(Command::Blit).put(
                Command::Copy {
                    src: ring,
                    src_off: (first * row) as u64,
                    dst: out.buf,
                    dst_off: (out_row_off * row) as u64,
                    bytes: (seg1 * row) as u64,
                },
            );
            let t = if seg1 < n {
                t.put(
                    Command::Copy {
                        src: ring,
                        src_off: 0,
                        dst: out.buf,
                        dst_off: ((out_row_off + seg1) * row) as u64,
                        bytes: ((n - seg1) * row) as u64,
                    },
                )
            } else {
                t
            };
            t.put(Command::EndBlit)
        }
    }

    /// The layer's cache of `raw_cap` rows.
    pub open spec fn kv_cache(self, layer: u32, raw_cap: u32, row: u32) -> (Trace, DeferredBuf) {
        (
            self.put(Command::KvCache { layer, bytes: (raw_cap * row * 4) as u64 }),
            DeferredBuf { buf: BufId::KvCache(layer), n_elements: (raw_cap * row) as u64 },
        )
    }

    /// Binds and launches the store of rows from a byte on into slots from `slot` on.
    pub open spec fn store_bind(
        self,
        cache: BufId,
        rows: BufId,
        off: u64,
        params: LayerParams,
        slot: u32,
        n: u64,
    ) -> Trace {
        self.buf_at(0, cache).put(Command::Buffer(1, rows, off)).u32_at(
            2,
            unrotated(params),
        ).u32_at(3, params.n_rot).u32_at(4, slot).put(
            Command::Dispatch((n, 1, 1), (store_threads(params), 1, 1)),
        )
    }

    #[verifier::opaque]
    pub open spec fn kv_fp8_store_persistent(
        self,
        layer: u32,
        kv_row: DeferredBuf,
        params: LayerParams,
        raw_cap: u32,
        slot: u32,
    ) -> (Trace, Result<DeferredBuf, EncodeError>) {
        if kv_row.n_elements != params.n_lora_kv {
            self.refuse(Check::InputLen, kv_row.n_elements as int, params.n_lora_kv as int)
        } else if raw_cap == 0 {
            self.refuse(Check::RingCapacity, 0, 1)
        } else if slot >= raw_cap {
            self.refuse(Check::SlotRange, slot as int, raw_cap as int)
        } else if !self.has(Kernel::KvFp8Store) {
            self.missing(Kernel::KvFp8Store)
        } else {
            let (t, cache) = self.kv_cache(layer, raw_cap, params.n_lora_kv);
            (
                t.put(Command::Encoder).put(
                    Command::Pipeline(Pipe::Loaded(Kernel::KvFp8Store)),
                ).store_bind(cache.buf, kv_row.buf, 0, params, slot, 1).put(Command::EndEncoder),
                Ok(cache),
            )
        }
    }

    /// The stores of several rows one by one, from row `i` on; each in an encoder
    /// of its own, or all in the one that is open.
    pub open spec fn store_rows(
        self,
        cache: BufId,
        rows: BufId,
        params: LayerParams,
        base_slot: u32,
        own_encoder: bool,
        k: u64,
        i: int,
    ) -> Trace
        decreases k - i,
    {
        if i >= k {
            self
        } else {
            let t = if own_encoder {
                self.put(Command::Encoder).put(
                    Command::Pipeline(Pipe::Loaded(Kernel::KvFp8Store)),
                )
            } else {
                self
            };
            let t = t.store_bind(
                cache,
                rows,
                (i * (params.n_lora_kv * 4)) as u64,
                params,
                (base_slot + i) as u32,
                1,
            );
            let t = if own_encoder {
                t.put(Command::EndEncoder)
            } else {
                t
            };
            t.store_rows(cache, rows, params, base_slot, own_encoder, k, i + 1)
        }
    }

    #[verifier::opaque]
    pub open spec fn kv_fp8_store_persistent_k(
        self,
        layer: u32,
        kv_row_k: DeferredBuf,
        params: LayerParams,
        raw_cap: u32,
        base_slot: u32,
        k: u64,
    ) -> (Trace, Result<DeferredBuf, EncodeError>) {
        if kv_row_k.n_elements != k * params.n_lora_kv {
            self.refuse(Check::InputLen, kv_row_k.n_elements as int, k * params.n_lora_kv)
        } else if raw_cap == 0 {
            self.refuse(Check::RingCapacity, 0, 1)
        } else if base_slot + k > raw_cap {
            self.refuse(Check::SlotRange, base_slot + k, raw_cap as int)
        } else {
            let (t, cache) = self.kv_cache(layer, raw_cap, params.n_lora_kv);
            if self.config.kv_merge == KvMerge::Kernel && self.has(Kernel::KvFp8StoreK) {
                (
                    t.put(Command::Encoder).put(
                        Command::Pipeline(Pipe::Loaded(Kernel::KvFp8StoreK)),
                    ).store_bind(cache.buf, kv_row_k.buf, 0, params, base_slot, k).put(
                        Command::EndEncoder,
                    ),
                    Ok(cache),
                )
            } else if !self.has(Kernel::KvFp8Store) {
                t.missing(Kernel::KvFp8Store)
            } else if self.config.kv_merge == KvMerge::Encoder {
                (
                    t.put(Command::Encoder).put(
                        Command::Pipeline(Pipe::Loaded(Kernel::KvFp8Store)),
                    ).store_rows(
                        cache.buf,
                        kv_row_k.buf,
                        params,
                        base_slot,
                        false,
                        k,
                        0,
                    ).put(Command::EndEncoder),
                    Ok(cache),
                )
            } else {
                (
                    t.store_rows(cache.buf, kv_row_k.buf, params, base_slot, true, k, 0),
                    Ok(cache),
                )
            }
        }
    }

    /// Why attention of several positions over a cache refuses its arguments.
    pub open spec fn mla_check(
        q_k: DeferredBuf,
        n_head: u64,
        dk: u64,
        dv: u64,
        n_cache: u64,
        k: u64,
        avail: u64,
        n_comp: u64,
        sinks: DeferredBuf,
    ) -> Option<Refusal> {
        if q_k.n_elements != k * n_head * dk {
            Some(refusal(Check::InputLen, q_k.n_elements as int, k * n_head * dk))
        } else if avail != n_comp {
            Some(refusal(Check::AvailLen, avail as int, n_comp as int))
        } else if sinks.n_elements != n_head {
            Some(refusal(Check::SinksLen, sinks.n_elements as int, n_head as int))
        } else if dk != 512 || dv != 512 {
            Some(refusal(Check::HeadDim, dk as int, 512))
        } else if n_cache % 8 != 0 {
            Some(refusal(Check::CacheAlign, n_cache as int, 8))
        } else if !(k == 1 || k == 2 || k == 4 || k == 8) {
            Some(refusal(Check::Positions, k as int, 8))
        } else {
            None
        }
    }

    /// The part of an attention launch that all its forms share.
    pub open spec fn mla_head(
        self,
        q: BufId,
        kv: BufId,
        out: BufId,
        n_head: u64,
        n_cache: u64,
        k: u64,
        has_mask: bool,
        scale: F32,
        base_pos: u32,
        sinks: BufId,
        ring: BufId,
        n_comp: u32,
    ) -> Trace {
        self.put(Command::Encoder).put(
            Command::Pipeline(
                Pipe::Special(
                    Kernel::FlashKMla,
                    Consts::Flash {
                        dk: 512,
                        dv: 512,
                        k: k as i32,
                        n_cache: n_cache as i32,
                        has_mask,
                    },
                ),
            ),
        ).buf_at(0, q).buf_at(1, kv).buf_at(2, out).f32_at(3, scale).u32_at(
            4,
            n_head as u32,
        ).u32_at(5, base_pos).buf_at(6, sinks).buf_at(7, ring).u32_at(8, n_comp)
    }

    pub open spec fn mla_tail(self, n_head: u64) -> Trace {
        self.put(Command::GroupMemory(24832)).put(
            Command::Dispatch((n_head, 1, 1), (32, 4, 1)),
        ).put(Command::EndEncoder)
    }

    #[verifier::opaque]
    pub open spec fn flash_attn_k_mla(
        self,
        q_k: DeferredBuf,
        kv_cache: DeferredBuf,
        n_head: u64,
        dk: u64,
        dv: u64,
        n_cache: u64,
        k: u64,
        scale: F32,
        base_pos: u32,
        sinks: DeferredBuf,
    ) -> (Trace, Result<DeferredBuf, EncodeError>) {
        match Trace::mla_check(q_k, n_head, dk, dv, n_cache, k, 0, 0, sinks) {
            Some(c) => self.refused(c),
            None => {
                let (t, out) = self.alloc_f32((k * n_head * dv) as u64);
                let t = if self.config.dump_flash_q {
                    t.put(
                        Command::DumpFlashInputs {
                            q: q_k.buf,
                            kv: kv_cache.buf,
                            n_head,
                            dk,
                            base_pos,
                        },
                    )
                } else {
                    t
                };
                (
                    t.mla_head(
                        q_k.buf,
                        kv_cache.buf,
                        out.buf,
                        n_head,
                        n_cache,
                        k,
                        false,
                        scale,
                        base_pos,
                        sinks.buf,
                        kv_cache.buf,
                        0,
                    ).buf_at(9, kv_cache.buf).mla_tail(n_head),
                    Ok(out),
                )
            },
        }
    }

    #[verifier::opaque]
    pub open spec fn flash_attn_k_mla_comp(
        self,
        q_k: DeferredBuf,
        kv_cache: DeferredBuf,
        comp_ring: BufId,
        n_comp: u32,
        comp_avail: Seq<u32>,
        n_head: u64,
        dk: u64,
        dv: u64,
        n_cache: u64,
        k: u64,
        scale: F32,
        base_pos: u32,
        sinks: DeferredBuf,
    ) -> (Trace, Result<DeferredBuf, EncodeError>) {
        let avail = comp_avail.len() as u64;
        match Trace::mla_check(q_k, n_head, dk, dv, n_cache, k, avail, n_comp as u64, sinks) {
            Some(c) => self.refused(c),
            None => {
                let (t, out) = self.alloc_f32((k * n_head * dv) as u64);
                let t = t.mla_head(
                    q_k.buf,
                    kv_cache.buf,
                    out.buf,
                    n_head,
                    n_cache,
                    k,
                    false,
                    scale,
                    base_pos,
                    sinks.buf,
                    comp_ring,
                    n_comp,
                );
                let avail = if comp_avail.len() == 0 {
                    seq![0u32]
                } else {
                    comp_avail
                };
                let (t, start) = t.add_words(avail);
                let len = avail.len() as u64;
                let (t, buf) = t.make(Command::UploadWords { start, len }, len);
                (t.buf_at(9, buf.buf).mla_tail(n_head), Ok(out))
            },
        }
    }

    #[verifier::opaque]
    pub open spec fn flash_attn_k_mla_comp_masked(
        self,
        q_k: DeferredBuf,
        kv_window: DeferredBuf,
        comp_ring: BufId,
        n_comp: u32,
        mask: HostRef,
        n_head: u64,
        dk: u64,
        dv: u64,
        n_cache: u64,
        k: u64,
        scale: F32,
        sinks: DeferredBuf,
    ) -> (Trace, Result<DeferredBuf, EncodeError>) {
        match Trace::mla_check(q_k, n_head, dk, dv, n_cache, k, 0, 0, sinks) {
            Some(c) => self.refused(c),
            None => if mask.len != k * (n_cache + n_comp) {
                self.refuse(Check::MaskLen, mask.len as int, k * (n_cache + n_comp))
            } else {
                let (t, out) = self.alloc_f32((k * n_head * dv) as u64);
                let (t, mask_buf) = t.make(
                    Command::Upload { elem: Elem::U16, host: mask },
                    mask.len,
                );
                (
                    t.mla_head(
                        q_k.buf,
                        kv_window.buf,
                        out.buf,
                        n_head,
                        n_cache,
                        k,
                        true,
                        scale,
                        0,
                        sinks.buf,
                        comp_ring,
                        n_comp,
                    ).buf_at(9, comp_ring).buf_at(10, mask_buf.buf).u32_at(
                        11,
                        (n_cache + n_comp) as u32,
                    ).mla_tail(n_head),
                    Ok(out),
                )
            },
        }
    }

    #[verifier::opaque]
    pub open spec fn encode_attn_output_matmuls(
        self,
        heads: DeferredBuf,
        w_o_a: DeferredBuf,
        w_o_b: DeferredBuf,
        n_groups: u64,
        n_lora_o: u64,
        group_dim: u64,
        out_low_dim: u64,
        d_embd: u64,
    ) -> (Trace, Result<(DeferredBuf, DeferredBuf), EncodeError>) {
        if group_dim % 4 != 0 {
            self.refuse(Check::InputAlign, group_dim as int, 4)
        } else if n_lora_o % 2 != 0 {
            self.refuse(Check::OutputAlign, n_lora_o as int, 2)
        } else if out_low_dim % 4 != 0 {
            self.refuse(Check::LowAlign, out_low_dim as int, 4)
        } else if d_embd % 2 != 0 {
            self.refuse(Check::EmbdAlign, d_embd as int, 2)
        } else if out_low_dim != n_groups * n_lora_o {
            self.refuse(Check::LowDim, out_low_dim as int, n_groups * n_lora_o)
        } else if heads.n_elements != n_groups * group_dim {
            self.refuse(Check::InputLen, heads.n_elements as int, n_groups * group_dim)
        } else if w_o_a.n_elements != out_low_dim * group_dim {
            self.refuse(Check::WeightLen, w_o_a.n_elements as int, out_low_dim * group_dim)
        } else if w_o_b.n_elements != d_embd * out_low_dim {
            self.refuse(Check::SecondWeightLen, w_o_b.n_elements as int, d_embd * out_low_dim)
        } else {
            let nsg1 = spec_nsg_by_width(group_dim);
            let nsg2 = spec_nsg_by_width(out_low_dim);
            let (t, attn_low) = self.alloc_f32(out_low_dim);
            let (t, attn_out) = t.alloc_f32(d_embd);
            let t = t.launch3(
                Pipe::Special(
                    Kernel::MulMvF32,
                    Consts::Rows { nsg: nsg1, nxpsg: spec_nxpsg(group_dim) },
                ),
                Args::MulMv(
                    spec_mv_args(
                        group_dim,
                        n_lora_o,
                        n_groups,
                        4,
                        (group_dim * 4) as u64,
                        (group_dim * n_lora_o * 4) as u64,
                        1,
                        (group_dim * 4) as u64,
                        (group_dim * 4) as u64,
                    ),
                ),
                w_o_a.buf,
                (heads.buf, 0),
                (attn_low.buf, 0),
                256,
                (((n_lora_o + 1) / 2) as u64, 1, n_groups),
                (32, nsg1 as u64, 1),
            );
            (
                t.launch3(
                    Pipe::Special(
                        Kernel::MulMvF32,
                        Consts::Rows { nsg: nsg2, nxpsg: spec_nxpsg(out_low_dim) },
                    ),
                    Args::MulMv(
                        spec_mv_args(
                            out_low_dim,
                            d_embd,
                            1,
                            4,
                            (out_low_dim * 4) as u64,
                            (out_low_dim * d_embd * 4) as u64,
                            1,
                            (out_low_dim * 4) as u64,
                            (out_low_dim * 4) as u64,
                        ),
                    ),
                    w_o_b.buf,
                    (attn_low.buf, 0),
                    (attn_out.buf, 0),
                    256,
                    (((d_embd + 1) / 2) as u64, 1, 1),
                    (32, nsg2 as u64, 1),
                ),
                Ok((attn_low, attn_out)),
            )
        }
    }

    /// Why the low-rank attention output refuses its arguments.
    pub open spec fn attn_out_check(
        heads: DeferredBuf,
        w_o_a: DeferredBuf,
        n_groups: u64,
        n_lora_o: u64,
        group_dim: u64,
        out_low_dim: u64,
        k: u64,
    ) -> Option<Refusal> {
        if group_dim % 32 != 0 {
            Some(refusal(Check::InputAlign, group_dim as int, 32))
        } else if n_lora_o % 2 != 0 {
            Some(refusal(Check::OutputAlign, n_lora_o as int, 2))
        } else if out_low_dim != n_groups * n_lora_o {
            Some(refusal(Check::LowDim, out_low_dim as int, n_groups * n_lora_o))
        } else if heads.n_elements != k * n_groups * group_dim {
            Some(refusal(Check::InputLen, heads.n_elements as int, k * n_groups * group_dim))
        } else if w_o_a.n_elements != out_low_dim * group_dim {
            Some(refusal(Check::WeightLen, w_o_a.n_elements as int, out_low_dim * group_dim))
        } else {
            None
        }
    }

    /// The arguments of the low-rank attention output of one position.
    pub open spec fn attn_low_args(
        n_groups: u64,
        n_lora_o: u64,
        group_dim: u64,
        out_low_dim: u64,
    ) -> MulMvIdArgs {
        spec_mv_id_args(
            n_groups,
            1,
            0,
            group_dim,
            n_lora_o,
            n_groups,
            q8_row(group_dim),
            (q8_row(group_dim) * n_lora_o) as u64,
            n_groups,
            (n_groups * group_dim * 4) as u64,
            out_low_dim,
            2,
        )
    }

    /// A launch of the low-rank attention output.
    pub open spec fn attn_low_launch(
        self,
        kernel: Kernel,
        w_o_a: BufId,
        heads: (BufId, u64),
        low: (BufId, u64),
        n_groups: u64,
        n_lora_o: u64,
        group_dim: u64,
        out_low_dim: u64,
        planes: u64,
    ) -> Trace {
        let nsg = spec_or(self.config.attn_out_nsg, spec_nsg_by_rows(n_lora_o));
        self.launch3(
            Pipe::Special(kernel, Consts::Rows { nsg, nxpsg: spec_nxpsg(group_dim) }),
            Args::MulMvId(Trace::attn_low_args(n_groups, n_lora_o, group_dim, out_low_dim)),
            w_o_a,
            heads,
            low,
            256,
            (((n_lora_o + 1) / 2) as u64, 1, planes),
            (32, nsg as u64, 1),
        )
    }

    #[verifier::opaque]
    pub open spec fn encode_attn_output_matmuls_q8(
        self,
        heads: DeferredBuf,
        w_o_a_q8: DeferredBuf,
        w_o_b_q8: DeferredBuf,
        n_groups: u64,
        n_lora_o: u64,
        group_dim: u64,
        out_low_dim: u64,
        d_embd: u64,
    ) -> (Trace, Result<(DeferredBuf, DeferredBuf), EncodeError>) {
        match Trace::attn_out_check(
            heads,
            w_o_a_q8,
            n_groups,
            n_lora_o,
            group_dim,
            out_low_dim,
            1,
        ) {
            Some(c) => self.refused(c),
            None => {
                let (t, low) = self.alloc_f32(out_low_dim);
                let t = t.attn_low_launch(
                    Kernel::AttnOutLowQ8,
                    w_o_a_q8.buf,
                    (heads.buf, 0),
                    (low.buf, 0),
                    n_groups,
                    n_lora_o,
                    group_dim,
                    out_low_dim,
                    n_groups,
                );
                let (t, out) = t.matvec_attn_proj(w_o_b_q8, low, out_low_dim, d_embd);
                if out is Err {
                    t.failed(out)
                } else {
                    (t, Ok((low, out->Ok_0)))
                }
            },
        }
    }

    /// The low-rank outputs of several positions one by one, from position `i` on.
    pub open spec fn attn_low_rows(
        self,
        w_o_a: BufId,
        heads: BufId,
        low: BufId,
        n_groups: u64,
        n_lora_o: u64,
        group_dim: u64,
        out_low_dim: u64,
        k: u64,
        i: int,
    ) -> Trace
        decreases k - i,
    {
        if i >= k {
            self
        } else {
            self.attn_low_launch(
                Kernel::AttnOutLowQ8,
                w_o_a,
                (heads, (i * (n_groups * group_dim * 4)) as u64),
                (low, (i * (out_low_dim * 4)) as u64),
                n_groups,
                n_lora_o,
                group_dim,
                out_low_dim,
                n_groups,
            ).attn_low_rows(
                w_o_a,
                heads,
                low,
                n_groups,
                n_lora_o,
                group_dim,
                out_low_dim,
                k,
                i + 1,
            )
        }
    }

    #[verifier::opaque]
    pub open spec fn encode_attn_output_matmuls_q8_k(
        self,
        heads_k: DeferredBuf,
        w_o_a_q8: DeferredBuf,
        w_o_b_q8: DeferredBuf,
        n_groups: u64,
        n_lora_o: u64,
        group_dim: u64,
        out_low_dim: u64,
        d_embd: u64,
        k: u64,
    ) -> (Trace, Result<(DeferredBuf, DeferredBuf), EncodeError>) {
        match Trace::attn_out_check(
            heads_k,
            w_o_a_q8,
            n_groups,
            n_lora_o,
            group_dim,
            out_low_dim,
            k,
        ) {
            Some(c) => self.refused(c),
            None => {
                let (t, low) = self.alloc_f32((k * out_low_dim) as u64);
                let (t, done) = if self.config.attn_out_gemm && k > 8 {
                    let (t, gm) = t.matmul_k_q8_0_grouped(
                        w_o_a_q8,
                        heads_k,
                        group_dim,
                        n_lora_o,
                        n_groups,
                        k,
                    );
                    if gm is Err {
                        t.failed(gm)
                    } else {
                        let (t, il) = t.interleave_group_major(gm->Ok_0, n_groups, k, n_lora_o);
                        (t.copy_buf_into(il, low.buf, 0), Ok(()))
                    }
                } else if self.config.attn_out_merge && self.engine.attn_out_low_k {
                    (
                        t.attn_low_launch(
                            Kernel::AttnOutLowQ8K,
                            w_o_a_q8.buf,
                            (heads_k.buf, 0),
                            (low.buf, 0),
                            n_groups,
                            n_lora_o,
                            group_dim,
                            out_low_dim,
                            (k * n_groups) as u64,
                        ),
                        Ok(()),
                    )
                } else {
                    (
                        t.attn_low_rows(
                            w_o_a_q8.buf,
                            heads_k.buf,
                            low.buf,
                            n_groups,
                            n_lora_o,
                            group_dim,
                            out_low_dim,
                            k,
                            0,
                        ),
                        Ok(()),
                    )
                };
                if done is Err {
                    t.failed(done)
                } else {
                    let (t, out) = t.matmul_k_attn_proj(w_o_b_q8, low, out_low_dim, d_embd, k);
                    if out is Err {
                        t.failed(out)
                    } else {
                        (t, Ok((low, out->Ok_0)))
                    }
                }
            },
        }
    }

    #[verifier::opaque]
    pub open spec fn encode_attn_output_proj(
        self,
        heads: DeferredBuf,
        w_o_a: DeferredBuf,
        w_o_b: DeferredBuf,
        w_o_a_q8: HostRef,
        w_o_b_q8: HostRef,
        cur_hc: DeferredBuf,
        post: DeferredBuf,
        comb: DeferredBuf,
        n_groups: u64,
        n_lora_o: u64,
        group_dim: u64,
        out_low_dim: u64,
        n_hc: u64,
        d_embd: u64,
    ) -> (Trace, Result<DeferredBuf, EncodeError>) {
        let (t, r) = if !self.config.q8_proj_off && w_o_a_q8.len > 0 && w_o_b_q8.len > 0 {
            let (t, a) = self.weight_q8_0_raw(w_o_a_q8, ((w_o_a_q8.len / 34) * 32) as u64);
            let (t, b) = t.weight_q8_0_raw(w_o_b_q8, ((w_o_b_q8.len / 34) * 32) as u64);
            t.encode_attn_output_matmuls_q8(
                heads,
                a,
                b,
                n_groups,
                n_lora_o,
                group_dim,
                out_low_dim,
                d_embd,
            )
        } else {
            self.encode_attn_output_matmuls(
                heads,
                w_o_a,
                w_o_b,
                n_groups,
                n_lora_o,
                group_dim,
                out_low_dim,
                d_embd,
            )
        };
        if r is Err {
            t.failed(r)
        } else {
            t.hc_expand_attn(r->Ok_0.1, cur_hc, post, comb, n_hc, d_embd)
        }
    }
}

impl BatchScope {
    fn flash_persistent(&mut self, op: FlashPersistent) -> (r: DeferredBuf)
        ensures
            (final(self)@, r) == old(self)@.flash_persistent(op),
            final(self)@.encodes(old(self)@),
            final(self)@.pools.carrier == old(self)@.pools.carrier,
    {
        let n: u64 = times_u32(op.params.n_head, op.params.head_dim);
        self.make(Command::FlashPersistent(op), n)
    }

    fn flash_qbuf(&mut self, q: &DeferredBuf, op: FlashPersistent) -> (r: Result<
        DeferredBuf,
        EncodeError,
    >)
        ensures
            (final(self)@, r) == old(self)@.flash_qbuf(*q, op),
            final(self)@.encodes(old(self)@),
            final(self)@.pools.carrier == old(self)@.pools.carrier,
    {
        if q.n_elements != times_u32(op.params.n_head, op.params.head_dim) {
            return Err(
                unfit(
                    Check::InputLen,
                    q.n_elements,
                    times_u32(op.params.n_head, op.params.head_dim),
                ),
            );
        }
        let refusal: Option<Refusal> = match op.comp {
            CompRows::Absent => BatchScope::raw_refusal(&op.params, op.n_raw),
            _ => None,
        };
        self.flash_host(refusal, op)
    }

    fn raw_refusal(params: &LayerParams, n_raw: u32) -> (r: Option<Refusal>)
        ensures
            r == Trace::raw_refusal(*params, n_raw),
    {
        if params.head_dim != 512 {
            Some(refusal_of(Check::HeadDim, params.head_dim as u64, 512))
        } else if n_raw == 0 || n_raw % 32 != 0 {
            Some(refusal_of(Check::CacheAlign, n_raw as u64, 32))
        } else {
            None
        }
    }

    fn flash_host(&mut self, refusal: Option<Refusal>, op: FlashPersistent) -> (r: Result<
        DeferredBuf,
        EncodeError,
    >)
        ensures
            (final(self)@, r) == old(self)@.flash_host(refusal, op),
            final(self)@.encodes(old(self)@),
            final(self)@.pools.carrier == old(self)@.pools.carrier,
    {
        match refusal {
            Some(c) => Err(EncodeError::Shape(c)),
            None => Ok(self.flash_persistent(op)),
        }
    }

    /// A decode step of attention over the layer's cache, with queries from the host.
    pub fn flash_attn_decode_persistent(
        &mut self,
        layer_idx: u32,
        params: &LayerParams,
        q: HostRef,
        n_raw: u32,
        raw_cap: u32,
        attn_sinks: HostRef,
    ) -> (r: Result<DeferredBuf, EncodeError>)
        ensures
            (final(self)@, r) == old(self)@.flash_host(
                Trace::raw_refusal(*params, n_raw),
                (FlashPersistent {
                    layer: layer_idx,
                    params: *params,
                    q: Source::Host(q),
                    n_raw,
                    raw_cap,
                    comp: CompRows::Absent,
                    sinks: attn_sinks,
                }),
            ),
            final(self)@.encodes(old(self)@),
            final(self)@.pools.carrier == old(self)@.pools.carrier,
    {
        self.flash_host(
            BatchScope::raw_refusal(params, n_raw),
            FlashPersistent {
                layer: layer_idx,
                params: *params,
                q: Source::Host(q),
                n_raw,
                raw_cap,
                comp: CompRows::Absent,
                sinks: attn_sinks,
            },
        )
    }

    /// [`BatchScope::flash_attn_decode_persistent`] with queries on the device.
    pub fn flash_attn_decode_persistent_qbuf(
        &mut self,
        layer_idx: u32,
        params: &LayerParams,
        q: &DeferredBuf,
        n_raw: u32,
        raw_cap: u32,
        attn_sinks: HostRef,
    ) -> (r: Result<DeferredBuf, EncodeError>)
        ensures
            (final(self)@, r) == old(self)@.flash_qbuf(
                *q,
                (FlashPersistent {
                    layer: layer_idx,
                    params: *params,
                    q: Source::Device(q.buf),
                    n_raw,
                    raw_cap,
                    comp: CompRows::Absent,
                    sinks: attn_sinks,
                }),
            ),
            final(self)@.encodes(old(self)@),
            final(self)@.pools.carrier == old(self)@.pools.carrier,
    {
        self.flash_qbuf(
            q,
            FlashPersistent {
                layer: layer_idx,
                params: *params,
                q: Source::Device(q.buf),
                n_raw,
                raw_cap,
                comp: CompRows::Absent,
                sinks: attn_sinks,
            },
        )
    }

    /// A decode step over the cache and selected compressed rows, all from the host.
    pub fn flash_attn_decode_persistent_compressor(
        &mut self,
        layer_idx: u32,
        params: &LayerParams,
        q: HostRef,
        n_raw: u32,
        raw_cap: u32,
        kv_comp: HostRef,
        comp_selected: HostRef,
        n_selected: u32,
        attn_sinks: HostRef,
    ) -> (r: Result<DeferredBuf, EncodeError>)
        ensures
            (final(self)@, r) == old(self)@.flash_host(
                Trace::mixed_refusal(*params, n_raw, n_selected),
                (FlashPersistent {
                    layer: layer_idx,
                    params: *params,
                    q: Source::Host(q),
                    n_raw,
                    raw_cap,
                    comp: CompRows::Host { rows: kv_comp, selected: comp_selected, n_selected },
                    sinks: attn_sinks,
                }),
            ),
            final(self)@.encodes(old(self)@),
            final(self)@.pools.carrier == old(self)@.pools.carrier,
    {
        let refusal: Option<Refusal> = if params.head_dim != 512 || params.n_lora_kv
            != params.head_dim {
            Some(refusal_of(Check::HeadDim, params.head_dim as u64, 512))
        } else if n_raw == 0 && n_selected == 0 {
            Some(refusal_of(Check::CacheAlign, 0, 1))
        } else {
            None
        };
        self.flash_host(
            refusal,
            FlashPersistent {
                layer: layer_idx,
                params: *params,
                q: Source::Host(q),
                n_raw,
                raw_cap,
                comp: CompRows::Host { rows: kv_comp, selected: comp_selected, n_selected },
                sinks: attn_sinks,
            },
        )
    }

    /// A decode step over the cache and selected compressed rows, with queries on the
    /// device. Beyond the queries, the engine judges the shapes when it carries the
    /// step out.
    pub fn flash_attn_decode_persistent_compressor_qbuf(
        &mut self,
        layer_idx: u32,
        params: &LayerParams,
        q: &DeferredBuf,
        n_raw: u32,
        raw_cap: u32,
        kv_comp: HostRef,
        comp_selected: HostRef,
        n_selected: u32,
        attn_sinks: HostRef,
    ) -> (r: Result<DeferredBuf, EncodeError>)
        ensures
            (final(self)@, r) == old(self)@.flash_qbuf(
                *q,
                (FlashPersistent {
                    layer: layer_idx,
                    params: *params,
                    q: Source::Device(q.buf),
                    n_raw,
                    raw_cap,
                    comp: CompRows::Host { rows: kv_comp, selected: comp_selected, n_selected },
                    sinks: attn_sinks,
                }),
            ),
            final(self)@.encodes(old(self)@),
            final(self)@.pools.carrier == old(self)@.pools.carrier,
    {
        self.flash_qbuf(
            q,
            FlashPersistent {
                layer: layer_idx,
                params: *params,
                q: Source::Device(q.buf),
                n_raw,
                raw_cap,
                comp: CompRows::Host { rows: kv_comp, selected: comp_selected, n_selected },
                sinks: attn_sinks,
            },
        )
    }

    /// A decode step over the cache and selected rows of a ring on the device. Beyond
    /// the queries, the engine judges the shapes when it carries the step out.
    pub fn flash_attn_decode_persistent_compressor_qbuf_gpuring(
        &mut self,
        layer_idx: u32,
        params: &LayerParams,
        q: &DeferredBuf,
        n_raw: u32,
        raw_cap: u32,
        kv_comp_buf: BufId,
        comp_selected: HostRef,
        n_selected: u32,
        attn_sinks: HostRef,
    ) -> (r: Result<DeferredBuf, EncodeError>)
        ensures
            (final(self)@, r) == old(self)@.flash_qbuf(
                *q,
                (FlashPersistent {
                    layer: layer_idx,
                    params: *params,
                    q: Source::Device(q.buf),
                    n_raw,
                    raw_cap,
                    comp: CompRows::Ring {
                        ring: kv_comp_buf,
                        selected: comp_selected,
                        n_selected,
                    },
                    sinks: attn_sinks,
                }),
            ),
            final(self)@.encodes(old(self)@),
            final(self)@.pools.carrier == old(self)@.pools.carrier,
    {
        self.flash_qbuf(
            q,
            FlashPersistent {
                layer: layer_idx,
                params: *params,
                q: Source::Device(q.buf),
                n_raw,
                raw_cap,
                comp: CompRows::Ring { ring: kv_comp_buf, selected: comp_selected, n_selected },
                sinks: attn_sinks,
            },
        )
    }

    /// A decode step over the cache and rows of a ring selected on the device. Beyond
    /// the queries and the selection, the engine judges the shapes when it carries the
    /// step out.
    pub fn flash_attn_decode_persistent_compressor_qbuf_gpuring_sel(
        &mut self,
        layer_idx: u32,
        params: &LayerParams,
        q: &DeferredBuf,
        n_raw: u32,
        raw_cap: u32,
        kv_comp_buf: BufId,
        comp_selected_db: &DeferredBuf,
        n_selected: u32,
        attn_sinks: HostRef,
    ) -> (r: Result<DeferredBuf, EncodeError>)
        ensures
            q.n_elements == params.n_head * params.head_dim && comp_selected_db.n_elements
                < n_selected ==> (final(self)@, r) == old(self)@.refuse::<DeferredBuf>(
                Check::SelectedLen,
                comp_selected_db.n_elements as int,
                n_selected as int,
            ),
            q.n_elements != params.n_head * params.head_dim || comp_selected_db.n_elements
                >= n_selected ==> (final(self)@, r) == old(self)@.flash_qbuf(
                *q,
                (FlashPersistent {
                    layer: layer_idx,
                    params: *params,
                    q: Source::Device(q.buf),
                    n_raw,
                    raw_cap,
                    comp: CompRows::RingSel {
                        ring: kv_comp_buf,
                        selection: comp_selected_db.buf,
                        n_selected,
                    },
                    sinks: attn_sinks,
                }),
            ),
            final(self)@.encodes(old(self)@),
            final(self)@.pools.carrier == old(self)@.pools.carrier,
    {
        if q.n_elements != times_u32(params.n_head, params.head_dim) {
            return Err(
                unfit(Check::InputLen, q.n_elements, times_u32(params.n_head, params.head_dim)),
            );
        }
        if comp_selected_db.n_elements < n_selected as u64 {
            return Err(unfit(Check::SelectedLen, comp_selected_db.n_elements, n_selected as u64));
        }
        self.flash_qbuf(
            q,
            FlashPersistent {
                layer: layer_idx,
                params: *params,
                q: Source::Device(q.buf),
                n_raw,
                raw_cap,
                comp: CompRows::RingSel {
                    ring: kv_comp_buf,
                    selection: comp_selected_db.buf,
                    n_selected,
                },
                sinks: attn_sinks,
            },
        )
    }

    /// A half-precision workspace of all raw rows and the first `n_comp` compressed rows.
    pub fn build_chunk_kv_workspace(
        &mut self,
        kv_raw: &DeferredBuf,
        comp_ring: BufId,
        n_raw: u32,
        n_comp: u32,
        head_dim: u32,
        n_total_padded: u32,
    ) -> (r: Result<BufId, EncodeError>)
        ensures
            r is Ok,
            (final(self)@, r->Ok_0) == old(self)@.build_chunk_kv_workspace(
                *kv_raw,
                comp_ring,
                n_raw,
                n_comp,
                head_dim,
                n_total_padded,
            ),
            final(self)@.encodes(old(self)@),
            final(self)@.pools.carrier == old(self)@.pools.carrier,
    {
        let mut sel: Vec<u32> = Vec::new();
        let mut i: u32 = 0;
        while i < n_comp
            invariant
                self@.encodes(old(self)@),
                self@.pools.carrier == old(self)@.pools.carrier,
                i <= n_comp,
                sel@ == iota(i),
            decreases n_comp - i,
        {
            sel.push(i);
            i = i + 1;
            assert(sel@ =~= iota(i));
        }
        let sel_start: u64 = self.add_words(sel.as_slice());
        let id: u64 = self.at();
        self.put(
            Command::ExtendedKv(
                ExtendedKv {
                    kv_raw: kv_raw.buf,
                    comp_ring,
                    sel_start,
                    n_raw,
                    n_comp,
                    head_dim,
                    n_total_padded,
                },
            ),
        );
        Ok(BufId::Fresh(id))
    }

    /// Copies `n` rows of a ring, from position `first_pos` on, into a window.
    /// Where they wrap round the end of the ring there are two copies.
    pub fn gather_ring_window(
        &mut self,
        ring: BufId,
        out: &DeferredBuf,
        out_row_off: u32,
        raw_cap: u32,
        first_pos: u32,
        n: u32,
        head_dim: u32,
    )
        requires
            n > 0 ==> {
                &&& 0 < raw_cap
                &&& out_row_off + n <= u32::MAX
                &&& cache_fits(raw_cap as int, head_dim as int)
                &&& cache_fits(out_row_off + n, head_dim as int)
            },
        ensures
            final(self)@ == old(self)@.gather_ring_window(
                ring,
                *out,
                out_row_off,
                raw_cap,
                first_pos,
                n,
                head_dim,
            ),
            final(self)@.encodes(old(self)@),
            final(self)@.pools.carrier == old(self)@.pools.carrier,
    {
        if n == 0 {
            return;
        }
        let row: u64 = head_dim as u64 * 4;
        let first: u32 = first_pos % raw_cap;
        let seg1: u32 = if raw_cap - first < n {
            raw_cap - first
        } else {
            n
        };
        proof {
            assert(raw_cap * (head_dim * 4) == raw_cap * head_dim * 4 && (out_row_off + n) * (
            head_dim * 4) == (out_row_off + n) * head_dim * 4) by (nonlinear_arith);
            lemma_row(first as int, raw_cap as int, row as int);
            lemma_row(out_row_off as int, out_row_off + n, row as int);
            lemma_row(seg1 as int, out_row_off + n, row as int);
            lemma_row(out_row_off + seg1, out_row_off + n, row as int);
            lemma_row(n - seg1, out_row_off + n, row as int);
        }
        self.put(Command::CloseShared);
        self.put(Command::Blit);
        self.put(
            Command::Copy {
                src: ring,
                src_off: first as u64 * row,
                dst: out.buf,
                dst_off: out_row_off as u64 * row,
                bytes: seg1 as u64 * row,
            },
        );
        if seg1 < n {
            self.put(
                Command::Copy {
                    src: ring,
                    src_off: 0,
                    dst: out.buf,
                    dst_off: (out_row_off + seg1) as u64 * row,
                    bytes: (n - seg1) as u64 * row,
                },
            );
        }
        self.put(Command::EndBlit);
    }

    fn flash_window(&mut self, op: FlashWindow) -> (r: DeferredBuf)
        requires
            op.k * op.params.n_head * op.params.head_dim <= u64::MAX,
            op.k * op.params.n_head <= u64::MAX,
        ensures
            (final(self)@, r) == old(self)@.flash_window(op),
            final(self)@.encodes(old(self)@),
            final(self)@.pools.carrier == old(self)@.pools.carrier,
    {
        let n: u64 = op.k * op.params.n_head as u64 * op.params.head_dim as u64;
        self.make(Command::FlashWindow(op), n)
    }

    /// Attention of `k` positions over a workspace, under a mask.
    pub fn flash_attn_decode_k(
        &mut self,
        params: &LayerParams,
        q_k: &DeferredBuf,
        workspace: BufId,
        n_total: u32,
        mask: HostRef,
        sinks: HostRef,
        k: u64,
    ) -> (r: Result<DeferredBuf, EncodeError>)
        requires
            k * params.n_head * params.head_dim <= u64::MAX,
            k * params.n_head <= u64::MAX,
        ensures
            r is Ok,
            (final(self)@, r->Ok_0) == old(self)@.flash_window(
                (FlashWindow {
                    blocked: false,
                    params: *params,
                    q: q_k.buf,
                    workspace,
                    n_total,
                    mask,
                    sinks,
                    k,
                }),
            ),
            final(self)@.encodes(old(self)@),
            final(self)@.pools.carrier == old(self)@.pools.carrier,
    {
        Ok(
            self.flash_window(
                FlashWindow {
                    blocked: false,
                    params: *params,
                    q: q_k.buf,
                    workspace,
                    n_total,
                    mask,
                    sinks,
                    k,
                },
            ),
        )
    }

    /// [`BatchScope::flash_attn_decode_k`] by the blocked kernel.
    pub fn flash_attn_ext_blk(
        &mut self,
        params: &LayerParams,
        q_k: &DeferredBuf,
        workspace: BufId,
        n_total: u32,
        mask: HostRef,
        sinks: HostRef,
        k: u64,
    ) -> (r: Result<DeferredBuf, EncodeError>)
        requires
            k * params.n_head * params.head_dim <= u64::MAX,
            k * params.n_head <= u64::MAX,
        ensures
            (final(self)@, r) == if n_total % 64 != 0 {
                old(self)@.refuse(Check::CacheAlign, n_total as int, 64)
            } else {
                let (t, out) = old(self)@.flash_window(
                    (FlashWindow {
                        blocked: true,
                        params: *params,
                        q: q_k.buf,
                        workspace,
                        n_total,
                        mask,
                        sinks,
                        k,
                    }),
                );
                (t, Ok(out))
            },
            final(self)@.encodes(old(self)@),
            final(self)@.pools.carrier == old(self)@.pools.carrier,
    {
        if n_total % 64 != 0 {
            return Err(unfit(Check::CacheAlign, n_total as u64, 64));
        }
        Ok(
            self.flash_window(
                FlashWindow {
                    blocked: true,
                    params: *params,
                    q: q_k.buf,
                    workspace,
                    n_total,
                    mask,
                    sinks,
                    k,
                },
            ),
        )
    }

    fn kv_cache(&mut self, layer: u32, raw_cap: u32, row: u32) -> (r: DeferredBuf)
        requires
            cache_fits(raw_cap as int, row as int),
        ensures
            (final(self)@, r) == old(self)@.kv_cache(layer, raw_cap, row),
            final(self)@.encodes(old(self)@),
            final(self)@.pools.carrier == old(self)@.pools.carrier,
    {
        let n: u64 = times_u32(raw_cap, row);
        self.put(Command::KvCache { layer, bytes: n * 4 });
        DeferredBuf { buf: BufId::KvCache(layer), n_elements: n }
    }

    fn store_bind(
        &mut self,
        cache: BufId,
        rows: BufId,
        off: u64,
        params: &LayerParams,
        slot: u32,
        n: u64,
    )
        ensures
            final(self)@ == old(self)@.store_bind(cache, rows, off, *params, slot, n),
            final(self)@.encodes(old(self)@),
            final(self)@.pools.carrier == old(self)@.pools.carrier,
    {
        let n_nope: u32 = unrotated_of(params);
        let threads: u64 = row_threads((n_nope / 64) as u64);
        self.buf_at(0, cache);
        self.put(Command::Buffer(1, rows, off));
        self.u32_at(2, n_nope);
        self.u32_at(3, params.n_rot);
        self.u32_at(4, slot);
        self.put(Command::Dispatch((n, 1, 1), (threads, 1, 1)));
    }

    /// Stores one row of keys and values into the layer's cache.
    pub fn kv_fp8_store_persistent(
        &mut self,
        layer_idx: u32,
        kv_row: &DeferredBuf,
        params: &LayerParams,
        raw_cap: u32,
        slot: u32,
    ) -> (r: Result<DeferredBuf, EncodeError>)
        requires
            cache_fits(raw_cap as int, params.n_lora_kv as int),
        ensures
            (final(self)@, r) == old(self)@.kv_fp8_store_persistent(
                layer_idx,
                *kv_row,
                *params,
                raw_cap,
                slot,
            ),
            r matches Ok(b) ==> b.n_elements == raw_cap * params.n_lora_kv,
            final(self)@.encodes(old(self)@),
            final(self)@.pools.carrier == old(self)@.pools.carrier,
    {
        proof {
            reveal(Trace::kv_fp8_store_persistent);
        }
        if kv_row.n_elements != params.n_lora_kv as u64 {
            return Err(unfit(Check::InputLen, kv_row.n_elements, params.n_lora_kv as u64));
        }
        if raw_cap == 0 {
            return Err(unfit(Check::RingCapacity, 0, 1));
        }
        if slot >= raw_cap {
            return Err(unfit(Check::SlotRange, slot as u64, raw_cap as u64));
        }
        if !self.has(Kernel::KvFp8Store) {
            return Err(EncodeError::NotLoaded(Kernel::KvFp8Store));
        }
        let cache: DeferredBuf = self.kv_cache(layer_idx, raw_cap, params.n_lora_kv);
        self.put(Command::Encoder);
        self.put(Command::Pipeline(Pipe::Loaded(Kernel::KvFp8Store)));
        self.store_bind(cache.buf, kv_row.buf, 0, params, slot, 1);
        self.put(Command::EndEncoder);
        Ok(cache)
    }

    fn store_rows(
        &mut self,
        cache: BufId,
        rows: BufId,
        params: &LayerParams,
        base_slot: u32,
        own_encoder: bool,
        k: u64,
    )
        requires
            base_slot + k <= u32::MAX,
            k * (params.n_lora_kv * 4) <= u64::MAX,
        ensures
            final(self)@ == old(self)@.store_rows(
                cache,
                rows,
                *params,
                base_slot,
                own_encoder,
                k,
                0,
            ),
            final(self)@.encodes(old(self)@),
            final(self)@.pools.carrier == old(self)@.pools.carrier,
    {
        let ghost goal = self@.store_rows(cache, rows, *params, base_slot, own_encoder, k, 0);
        let row: u64 = params.n_lora_kv as u64 * 4;
        let mut i: u64 = 0;
        while i < k
            invariant
                self@.encodes(old(self)@),
                self@.pools.carrier == old(self)@.pools.carrier,
                i <= k,
                base_slot + k <= u32::MAX,
                row == params.n_lora_kv * 4,
                k * row <= u64::MAX,
                goal == self@.store_rows(
                    cache,
                    rows,
                    *params,
                    base_slot,
                    own_encoder,
                    k,
                    i as int,
                ),
            decreases k - i,
        {
            if own_encoder {
                self.put(Command::Encoder);
                self.put(Command::Pipeline(Pipe::Loaded(Kernel::KvFp8Store)));
            }
            let off: u64 = row_offset(i, k, row);
            self.store_bind(cache, rows, off, params, base_slot + i as u32, 1);
            if own_encoder {
                self.put(Command::EndEncoder);
            }
            i = i + 1;
        }
    }

    /// Stores several rows of keys and values into consecutive slots of the layer's cache.
    #[verifier::rlimit(40)]
    pub fn kv_fp8_store_persistent_k(
        &mut self,
        layer_idx: u32,
        kv_row_k: &DeferredBuf,
        params: &LayerParams,
        raw_cap: u32,
        base_slot: u32,
        k_positions: u64,
    ) -> (r: Result<DeferredBuf, EncodeError>)
        requires
            extent(k_positions),
            cache_fits(raw_cap as int, params.n_lora_kv as int),
        ensures
            (final(self)@, r) == old(self)@.kv_fp8_store_persistent_k(
                layer_idx,
                *kv_row_k,
                *params,
                raw_cap,
                base_slot,
                k_positions,
            ),
            r matches Ok(b) ==> b.n_elements == raw_cap * params.n_lora_kv,
            final(self)@.encodes(old(self)@),
            final(self)@.pools.carrier == old(self)@.pools.carrier,
    {
        proof {
            reveal(Trace::kv_fp8_store_persistent_k);
        }
        let k: u64 = k_positions;
        if kv_row_k.n_elements != times_wide(params.n_lora_kv as u64, k) {
            assert(params.n_lora_kv * k == k * params.n_lora_kv) by (nonlinear_arith);
            return Err(
                unfit(
                    Check::InputLen,
                    kv_row_k.n_elements,
                    times_wide(params.n_lora_kv as u64, k),
                ),
            );
        }
        assert(params.n_lora_kv * k == k * params.n_lora_kv) by (nonlinear_arith);
        if raw_cap == 0 {
            return Err(unfit(Check::RingCapacity, 0, 1));
        }
        if base_slot as u64 + k > raw_cap as u64 {
            return Err(unfit(Check::SlotRange, base_slot as u64 + k, raw_cap as u64));
        }
        proof {
            assert(raw_cap * (params.n_lora_kv * 4) == raw_cap * params.n_lora_kv * 4)
                by (nonlinear_arith);
            lemma_row(k as int, raw_cap as int, params.n_lora_kv * 4);
        }
        let cache: DeferredBuf = self.kv_cache(layer_idx, raw_cap, params.n_lora_kv);
        if self.config.kv_merge == KvMerge::Kernel && self.has(Kernel::KvFp8StoreK) {
            self.put(Command::Encoder);
            self.put(Command::Pipeline(Pipe::Loaded(Kernel::KvFp8StoreK)));
            self.store_bind(cache.buf, kv_row_k.buf, 0, params, base_slot, k);
            self.put(Command::EndEncoder);
            return Ok(cache);
        }
        if !self.has(Kernel::KvFp8Store) {
            return Err(EncodeError::NotLoaded(Kernel::KvFp8Store));
        }
        if self.config.kv_merge == KvMerge::Encoder {
            self.put(Command::Encoder);
            self.put(Command::Pipeline(Pipe::Loaded(Kernel::KvFp8Store)));
            self.store_rows(cache.buf, kv_row_k.buf, params, base_slot, false, k);
            self.put(Command::EndEncoder);
            return Ok(cache);
        }
        self.store_rows(cache.buf, kv_row_k.buf, params, base_slot, true, k);
        Ok(cache)
    }

    fn mla_check(
        q_k: &DeferredBuf,
        n_head: u64,
        dk: u64,
        dv: u64,
        n_cache: u64,
        k: u64,
        avail: u64,
        n_comp: u64,
        sinks: &DeferredBuf,
    ) -> (r: Option<Refusal>)
        requires
            extent(n_head),
            extent(k),
        ensures
            r == Trace::mla_check(*q_k, n_head, dk, dv, n_cache, k, avail, n_comp, *sinks),
    {
        if !is_product3(q_k.n_elements, k, n_head, dk) {
            Some(refusal_of(Check::InputLen, q_k.n_elements, capped3(k, n_head, dk)))
        } else if avail != n_comp {
            Some(refusal_of(Check::AvailLen, avail, n_comp))
        } else if sinks.n_elements != n_head {
            Some(refusal_of(Check::SinksLen, sinks.n_elements, n_head))
        } else if dk != 512 || dv != 512 {
            Some(refusal_of(Check::HeadDim, dk, 512))
        } else if n_cache % 8 != 0 {
            Some(refusal_of(Check::CacheAlign, n_cache, 8))
        } else if !(k == 1 || k == 2 || k == 4 || k == 8) {
            Some(refusal_of(Check::Positions, k, 8))
        } else {
            None
        }
    }

    fn mla_head(
        &mut self,
        q: BufId,
        kv: BufId,
        out: BufId,
        n_head: u64,
        n_cache: u64,
        k: u64,
        has_mask: bool,
        scale: F32,
        base_pos: u32,
        sinks: BufId,
        ring: BufId,
        n_comp: u32,
    )
        ensures
            final(self)@ == old(self)@.mla_head(
                q,
                kv,
                out,
                n_head,
                n_cache,
                k,
                has_mask,
                scale,
                base_pos,
                sinks,
                ring,
                n_comp,
            ),
            final(self)@.encodes(old(self)@),
            final(self)@.pools.carrier == old(self)@.pools.carrier,
    {
        self.put(Command::Encoder);
        self.put(
            Command::Pipeline(
                Pipe::Special(
                    Kernel::FlashKMla,
                    Consts::Flash {
                        dk: 512,
                        dv: 512,
                        k: k as i32,
                        n_cache: n_cache as i32,
                        has_mask,
                    },
                ),
            ),
        );
        self.buf_at(0, q);
        self.buf_at(1, kv);
        self.buf_at(2, out);
        self.f32_at(3, scale);
        self.u32_at(4, n_head as u32);
        self.u32_at(5, base_pos);
        self.buf_at(6, sinks);
        self.buf_at(7, ring);
        self.u32_at(8, n_comp);
    }

    fn mla_tail(&mut self, n_head: u64)
        ensures
            final(self)@ == old(self)@.mla_tail(n_head),
            final(self)@.encodes(old(self)@),
            final(self)@.pools.carrier == old(self)@.pools.carrier,
    {
        self.put(Command::GroupMemory(24832));
        self.put(Command::Dispatch((n_head, 1, 1), (32, 4, 1)));
        self.put(Command::EndEncoder);
    }

    /// Attention of one, two, four or eight positions over a raw cache.
    pub fn flash_attn_k_mla(
        &mut self,
        q_k: &DeferredBuf,
        kv_cache: &DeferredBuf,
        n_head: u64,
        dk: u64,
        dv: u64,
        n_cache: u64,
        k_positions: u64,
        scale: F32,
        attn_base_pos: u32,
        attn_sinks: &DeferredBuf,
    ) -> (r: Result<DeferredBuf, EncodeError>)
        requires
            extent(n_head),
            extent(k_positions),
        ensures
            (final(self)@, r) == old(self)@.flash_attn_k_mla(
                *q_k,
                *kv_cache,
                n_head,
                dk,
                dv,
                n_cache,
                k_positions,
                scale,
                attn_base_pos,
                *attn_sinks,
            ),
            r matches Ok(b) ==> b.n_elements == k_positions * n_head * dv,
            final(self)@.encodes(old(self)@),
            final(self)@.pools.carrier == old(self)@.pools.carrier,
    {
        proof {
            reveal(Trace::flash_attn_k_mla);
        }
        let k: u64 = k_positions;
        match BatchScope::mla_check(q_k, n_head, dk, dv, n_cache, k, 0, 0, attn_sinks) {
            Some(c) => {
                return Err(EncodeError::Shape(c));
            },
            None => {},
        }
        let out: DeferredBuf = self.alloc_f32(q_k.n_elements);
        if self.config.dump_flash_q {
            self.put(
                Command::DumpFlashInputs {
                    q: q_k.buf,
                    kv: kv_cache.buf,
                    n_head,
                    dk,
                    base_pos: attn_base_pos,
                },
            );
        }
        self.mla_head(
            q_k.buf,
            kv_cache.buf,
            out.buf,
            n_head,
            n_cache,
            k,
            false,
            scale,
            attn_base_pos,
            attn_sinks.buf,
            kv_cache.buf,
            0,
        );
        self.buf_at(9, kv_cache.buf);
        self.mla_tail(n_head);
        Ok(out)
    }

    /// [`BatchScope::flash_attn_k_mla`] over the raw cache and a ring of compressed
    /// rows, each of which is seen from a position on.
    pub fn flash_attn_k_mla_comp(
        &mut self,
        q_k: &DeferredBuf,
        kv_cache: &DeferredBuf,
        comp_ring: BufId,
        n_comp: u32,
        comp_avail: &[u32],
        n_head: u64,
        dk: u64,
        dv: u64,
        n_cache: u64,
        k_positions: u64,
        scale: F32,
        attn_base_pos: u32,
        attn_sinks: &DeferredBuf,
    ) -> (r: Result<DeferredBuf, EncodeError>)
        requires
            extent(n_head),
            extent(k_positions),
        ensures
            (final(self)@, r) == old(self)@.flash_attn_k_mla_comp(
                *q_k,
                *kv_cache,
                comp_ring,
                n_comp,
                comp_avail@,
                n_head,
                dk,
                dv,
                n_cache,
                k_positions,
                scale,
                attn_base_pos,
                *attn_sinks,
            ),
            r matches Ok(b) ==> b.n_elements == k_positions * n_head * dv,
            final(self)@.encodes(old(self)@),
            final(self)@.pools.carrier == old(self)@.pools.carrier,
    {
        proof {
            reveal(Trace::flash_attn_k_mla_comp);
        }
        let k: u64 = k_positions;
        let avail: u64 = comp_avail.len() as u64;
        match BatchScope::mla_check(
            q_k,
            n_head,
            dk,
            dv,
            n_cache,
            k,
            avail,
            n_comp as u64,
            attn_sinks,
        ) {
            Some(c) => {
                return Err(EncodeError::Shape(c));
            },
            None => {},
        }
        let out: DeferredBuf = self.alloc_f32(q_k.n_elements);
        self.mla_head(
            q_k.buf,
            kv_cache.buf,
            out.buf,
            n_head,
            n_cache,
            k,
            false,
            scale,
            attn_base_pos,
            attn_sinks.buf,
            comp_ring,
            n_comp,
        );
        let (start, len): (u64, u64) = if comp_avail.len() == 0 {
            let mut pad: Vec<u32> = Vec::new();
            pad.push(0);
            assert(pad@ =~= seq![0u32]);
            (self.add_words(pad.as_slice()), 1)
        } else {
            (self.add_words(comp_avail), comp_avail.len() as u64)
        };
        let avail: DeferredBuf = self.make(Command::UploadWords { start, len }, len);
        self.buf_at(9, avail.buf);
        self.mla_tail(n_head);
        Ok(out)
    }

    /// [`BatchScope::flash_attn_k_mla_comp`] under a mask over both kinds of row.
    pub fn flash_attn_k_mla_comp_masked(
        &mut self,
        q_k: &DeferredBuf,
        kv_window: &DeferredBuf,
        comp_ring: BufId,
        n_comp: u32,
        mask: HostRef,
        n_head: u64,
        dk: u64,
        dv: u64,
        n_cache: u64,
        k_positions: u64,
        scale: F32,
        attn_sinks: &DeferredBuf,
    ) -> (r: Result<DeferredBuf, EncodeError>)
        requires
            extent(n_head),
            extent(k_positions),
            extent(n_cache),
        ensures
            (final(self)@, r) == old(self)@.flash_attn_k_mla_comp_masked(
                *q_k,
                *kv_window,
                comp_ring,
                n_comp,
                mask,
                n_head,
                dk,
                dv,
                n_cache,
                k_positions,
                scale,
                *attn_sinks,
            ),
            r matches Ok(b) ==> b.n_elements == k_positions * n_head * dv,
            final(self)@.encodes(old(self)@),
            final(self)@.pools.carrier == old(self)@.pools.carrier,
    {
        proof {
            reveal(Trace::flash_attn_k_mla_comp_masked);
        }
        let k: u64 = k_positions;
        match BatchScope::mla_check(q_k, n_head, dk, dv, n_cache, k, 0, 0, attn_sinks) {
            Some(c) => {
                return Err(EncodeError::Shape(c));
            },
            None => {},
        }
        let mask_row: u64 = n_cache + n_comp as u64;
        if mask.len != times_wide(mask_row, k) {
            assert(mask_row * k == k * mask_row) by (nonlinear_arith);
            return Err(unfit(Check::MaskLen, mask.len, times_wide(mask_row, k)));
        }
        assert(mask_row * k == k * mask_row) by (nonlinear_arith);
        let out: DeferredBuf = self.alloc_f32(q_k.n_elements);
        let mask_buf: DeferredBuf = self.make(
            Command::Upload { elem: Elem::U16, host: mask },
            mask.len,
        );
        self.mla_head(
            q_k.buf,
            kv_window.buf,
            out.buf,
            n_head,
            n_cache,
            k,
            true,
            scale,
            0,
            attn_sinks.buf,
            comp_ring,
            n_comp,
        );
        self.buf_at(9, comp_ring);
        self.buf_at(10, mask_buf.buf);
        self.u32_at(11, mask_row as u32);
        self.mla_tail(n_head);
        Ok(out)
    }

    /// The attention output of one position through single-precision weights:
    /// a low-rank product per group, then one product over the groups.
    pub fn encode_attn_output_matmuls(
        &mut self,
        heads: &DeferredBuf,
        w_o_a: &DeferredBuf,
        w_o_b: &DeferredBuf,
        n_groups: u64,
        n_lora_o: u64,
        group_dim: u64,
        out_low_dim: u64,
        d_embd: u64,
    ) -> (r: Result<(DeferredBuf, DeferredBuf), EncodeError>)
        requires
            extent(n_groups),
            extent(n_lora_o),
            extent(group_dim),
            extent(out_low_dim),
            extent(d_embd),
        ensures
            (final(self)@, r) == old(self)@.encode_attn_output_matmuls(
                *heads,
                *w_o_a,
                *w_o_b,
                n_groups,
                n_lora_o,
                group_dim,
                out_low_dim,
                d_embd,
            ),
            r matches Ok(b) ==> b.0.n_elements == out_low_dim && b.1.n_elements == d_embd,
            final(self)@.encodes(old(self)@),
            final(self)@.pools.carrier == old(self)@.pools.carrier,
    {
        proof {
            reveal(Trace::encode_attn_output_matmuls);
        }
        if group_dim % 4 != 0 {
            return Err(unfit(Check::InputAlign, group_dim, 4));
        }
        if n_lora_o % 2 != 0 {
            return Err(unfit(Check::OutputAlign, n_lora_o, 2));
        }
        if out_low_dim % 4 != 0 {
            return Err(unfit(Check::LowAlign, out_low_dim, 4));
        }
        if d_embd % 2 != 0 {
            return Err(unfit(Check::EmbdAlign, d_embd, 2));
        }
        if out_low_dim != times(n_groups, n_lora_o) {
            return Err(unfit(Check::LowDim, out_low_dim, times(n_groups, n_lora_o)));
        }
        if heads.n_elements != times(n_groups, group_dim) {
            return Err(unfit(Check::InputLen, heads.n_elements, times(n_groups, group_dim)));
        }
        if w_o_a.n_elements != times(out_low_dim, group_dim) {
            return Err(unfit(Check::WeightLen, w_o_a.n_elements, times(out_low_dim, group_dim)));
        }
        if w_o_b.n_elements != times(d_embd, out_low_dim) {
            return Err(unfit(Check::SecondWeightLen, w_o_b.n_elements, times(d_embd, out_low_dim)));
        }
        let nsg1: i16 = nsg_by_width(group_dim);
        let nsg2: i16 = nsg_by_width(out_low_dim);
        let attn_low: DeferredBuf = self.alloc_f32(out_low_dim);
        let attn_out: DeferredBuf = self.alloc_f32(d_embd);
        let args1: MulMvArgs = mv_args(
            group_dim,
            n_lora_o,
            n_groups,
            4,
            group_dim * 4,
            times(group_dim, n_lora_o) * 4,
            1,
            group_dim * 4,
            group_dim * 4,
        );
        self.launch3(
            Pipe::Special(
                Kernel::MulMvF32,
                Consts::Rows { nsg: nsg1, nxpsg: nxpsg_for(group_dim) },
            ),
            Args::MulMv(args1),
            w_o_a.buf,
            (heads.buf, 0),
            (attn_low.buf, 0),
            256,
            ((n_lora_o + 1) / 2, 1, n_groups),
            (32, nsg1 as u64, 1),
        );
        let args2: MulMvArgs = mv_args(
            out_low_dim,
            d_embd,
            1,
            4,
            out_low_dim * 4,
            times(out_low_dim, d_embd) * 4,
            1,
            out_low_dim * 4,
            out_low_dim * 4,
        );
        self.launch3(
            Pipe::Special(
                Kernel::MulMvF32,
                Consts::Rows { nsg: nsg2, nxpsg: nxpsg_for(out_low_dim) },
            ),
            Args::MulMv(args2),
            w_o_b.buf,
            (attn_low.buf, 0),
            (attn_out.buf, 0),
            256,
            ((d_embd + 1) / 2, 1, 1),
            (32, nsg2 as u64, 1),
        );
        Ok((attn_low, attn_out))
    }

    fn attn_out_check(
        heads: &DeferredBuf,
        w_o_a: &DeferredBuf,
        n_groups: u64,
        n_lora_o: u64,
        group_dim: u64,
        out_low_dim: u64,
        k: u64,
    ) -> (r: Option<Refusal>)
        requires
            extent(n_groups),
            extent(n_lora_o),
            extent(group_dim),
            extent(out_low_dim),
            extent(k),
        ensures
            r == Trace::attn_out_check(
                *heads,
                *w_o_a,
                n_groups,
                n_lora_o,
                group_dim,
                out_low_dim,
                k,
            ),
    {
        if group_dim % 32 != 0 {
            Some(refusal_of(Check::InputAlign, group_dim, 32))
        } else if n_lora_o % 2 != 0 {
            Some(refusal_of(Check::OutputAlign, n_lora_o, 2))
        } else if out_low_dim != times(n_groups, n_lora_o) {
            Some(refusal_of(Check::LowDim, out_low_dim, times(n_groups, n_lora_o)))
        } else if !is_product3(heads.n_elements, k, n_groups, group_dim) {
            Some(refusal_of(Check::InputLen, heads.n_elements, capped3(k, n_groups, group_dim)))
        } else if w_o_a.n_elements != times(out_low_dim, group_dim) {
            Some(refusal_of(Check::WeightLen, w_o_a.n_elements, times(out_low_dim, group_dim)))
        } else {
            None
        }
    }

    fn attn_low_launch(
        &mut self,
        kernel: Kernel,
        w_o_a: BufId,
        heads: (BufId, u64),
        low: (BufId, u64),
        n_groups: u64,
        n_lora_o: u64,
        group_dim: u64,
        out_low_dim: u64,
        planes: u64,
    )
        requires
            extent(n_groups),
            extent(n_lora_o),
            extent(group_dim),
        ensures
            final(self)@ == old(self)@.attn_low_launch(
                kernel,
                w_o_a,
                heads,
                low,
                n_groups,
                n_lora_o,
                group_dim,
                out_low_dim,
                planes,
            ),
            final(self)@.encodes(old(self)@),
            final(self)@.pools.carrier == old(self)@.pools.carrier,
    {
        let nsg: i16 = setting_or(self.config.attn_out_nsg, nsg_by_rows(n_lora_o));
        let row: u64 = (group_dim / 32) * 34;
        let args: MulMvIdArgs = mv_id_args(
            n_groups,
            1,
            0,
            group_dim,
            n_lora_o,
            n_groups,
            row,
            times_wide(row, n_lora_o),
            n_groups,
            times(n_groups, group_dim) * 4,
            out_low_dim,
            2,
        );
        self.launch3(
            Pipe::Special(kernel, Consts::Rows { nsg, nxpsg: nxpsg_for(group_dim) }),
            Args::MulMvId(args),
            w_o_a,
            heads,
            low,
            256,
            ((n_lora_o + 1) / 2, 1, planes),
            (32, nsg as u64, 1),
        );
    }

    /// [`BatchScope::encode_attn_output_matmuls`] through Q8_0 weights.
    pub fn encode_attn_output_matmuls_q8(
        &mut self,
        heads: &DeferredBuf,
        w_o_a_q8: &DeferredBuf,
        w_o_b_q8: &DeferredBuf,
        n_groups: u64,
        n_lora_o: u64,
        group_dim: u64,
        out_low_dim: u64,
        d_embd: u64,
    ) -> (r: Result<(DeferredBuf, DeferredBuf), EncodeError>)
        requires
            extent(n_groups),
            extent(n_lora_o),
            extent(group_dim),
            extent(out_low_dim),
            extent(d_embd),
        ensures
            (final(self)@, r) == old(self)@.encode_attn_output_matmuls_q8(
                *heads,
                *w_o_a_q8,
                *w_o_b_q8,
                n_groups,
                n_lora_o,
                group_dim,
                out_low_dim,
                d_embd,
            ),
            r matches Ok(b) ==> b.0.n_elements == out_low_dim && b.1.n_elements == d_embd,
            final(self)@.encodes(old(self)@),
            final(self)@.pools.carrier == old(self)@.pools.carrier,
    {
        proof {
            reveal(Trace::encode_attn_output_matmuls_q8);
        }
        match BatchScope::attn_out_check(
            heads,
            w_o_a_q8,
            n_groups,
            n_lora_o,
            group_dim,
            out_low_dim,
            1,
        ) {
            Some(c) => {
                return Err(EncodeError::Shape(c));
            },
            None => {},
        }
        let low: DeferredBuf = self.alloc_f32(out_low_dim);
        self.attn_low_launch(
            Kernel::AttnOutLowQ8,
            w_o_a_q8.buf,
            (heads.buf, 0),
            (low.buf, 0),
            n_groups,
            n_lora_o,
            group_dim,
            out_low_dim,
            n_groups,
        );
        let out: DeferredBuf = self.matvec_attn_proj(w_o_b_q8, &low, out_low_dim, d_embd)?;
        Ok((low, out))
    }

    fn attn_low_rows(
        &mut self,
        w_o_a: BufId,
        heads: BufId,
        low: BufId,
        n_groups: u64,
        n_lora_o: u64,
        group_dim: u64,
        out_low_dim: u64,
        k: u64,
    )
        requires
            extent(n_groups),
            extent(n_lora_o),
            extent(group_dim),
            extent(out_low_dim),
            extent(k),
            elements(k * n_groups * group_dim),
        ensures
            final(self)@ == old(self)@.attn_low_rows(
                w_o_a,
                heads,
                low,
                n_groups,
                n_lora_o,
                group_dim,
                out_low_dim,
                k,
                0,
            ),
            final(self)@.encodes(old(self)@),
            final(self)@.pools.carrier == old(self)@.pools.carrier,
    {
        let ghost goal = self@.attn_low_rows(
            w_o_a,
            heads,
            low,
            n_groups,
            n_lora_o,
            group_dim,
            out_low_dim,
            k,
            0,
        );
        let plane: u64 = times(n_groups, group_dim) * 4;
        proof {
            assert(k * (n_groups * group_dim * 4) == k * n_groups * group_dim * 4)
                by (nonlinear_arith);
            lemma_product(k as int, out_low_dim as int);
            assert(k * (out_low_dim * 4) == k * out_low_dim * 4) by (nonlinear_arith);
        }
        let mut i: u64 = 0;
        while i < k
            invariant
                self@.encodes(old(self)@),
                self@.pools.carrier == old(self)@.pools.carrier,
                i <= k,
                extent(n_groups),
                extent(n_lora_o),
                extent(group_dim),
                extent(out_low_dim),
                plane == n_groups * group_dim * 4,
                k * plane <= u64::MAX,
                k * (out_low_dim * 4) <= u64::MAX,
                goal == self@.attn_low_rows(
                    w_o_a,
                    heads,
                    low,
                    n_groups,
                    n_lora_o,
                    group_dim,
                    out_low_dim,
                    k,
                    i as int,
                ),
            decreases k - i,
        {
            let heads_off: u64 = row_offset(i, k, plane);
            let low_off: u64 = row_offset(i, k, out_low_dim * 4);
            self.attn_low_launch(
                Kernel::AttnOutLowQ8,
                w_o_a,
                (heads, heads_off),
                (low, low_off),
                n_groups,
                n_lora_o,
                group_dim,
                out_low_dim,
                n_groups,
            );
            i = i + 1;
        }
    }

    /// [`BatchScope::encode_attn_output_matmuls_q8`] for several positions.
    #[verifier::rlimit(40)]
    pub fn encode_attn_output_matmuls_q8_k(
        &mut self,
        heads_k: &DeferredBuf,
        w_o_a_q8: &DeferredBuf,
        w_o_b_q8: &DeferredBuf,
        n_groups: u64,
        n_lora_o: u64,
        group_dim: u64,
        out_low_dim: u64,
        d_embd: u64,
        k_positions: u64,
    ) -> (r: Result<(DeferredBuf, DeferredBuf), EncodeError>)
        requires
            extent(n_groups),
            extent(n_lora_o),
            extent(group_dim),
            extent(out_low_dim),
            extent(d_embd),
            extent(k_positions),
            elements(k_positions * n_groups * group_dim),
            elements(k_positions * out_low_dim),
        ensures
            (final(self)@, r) == old(self)@.encode_attn_output_matmuls_q8_k(
                *heads_k,
                *w_o_a_q8,
                *w_o_b_q8,
                n_groups,
                n_lora_o,
                group_dim,
                out_low_dim,
                d_embd,
                k_positions,
            ),
            r matches Ok(b) ==> b.0.n_elements == k_positions * out_low_dim && b.1.n_elements
                == k_positions * d_embd,
            final(self)@.encodes(old(self)@),
            final(self)@.pools.carrier == old(self)@.pools.carrier,
    {
        proof {
            reveal(Trace::encode_attn_output_matmuls_q8_k);
        }
        let k: u64 = k_positions;
        match BatchScope::attn_out_check(
            heads_k,
            w_o_a_q8,
            n_groups,
            n_lora_o,
            group_dim,
            out_low_dim,
            k,
        ) {
            Some(c) => {
                return Err(EncodeError::Shape(c));
            },
            None => {},
        }
        let gemm: bool = self.config.attn_out_gemm && k > 8;
        let merged: bool = self.config.attn_out_merge && self.engine.attn_out_low_k;
        let low: DeferredBuf = self.alloc_f32(times(k, out_low_dim));
        if gemm {
            proof {
                assert(n_groups * group_dim * 4 * k == k * n_groups * group_dim * 4)
                    by (nonlinear_arith);
                assert(n_groups * k * n_lora_o == k * out_low_dim && k * n_groups * n_lora_o == k
                    * out_low_dim) by (nonlinear_arith)
                    requires
                        out_low_dim == n_groups * n_lora_o,
                ;
            }
            let gm: DeferredBuf = self.matmul_k_q8_0_grouped(
                w_o_a_q8,
                heads_k,
                group_dim,
                n_lora_o,
                n_groups,
                k,
            )?;
            let il: DeferredBuf = self.interleave_group_major(&gm, n_groups, k, n_lora_o)?;
            self.copy_buf_into(&il, low.buf, 0);
        } else if merged {
            self.attn_low_launch(
                Kernel::AttnOutLowQ8K,
                w_o_a_q8.buf,
                (heads_k.buf, 0),
                (low.buf, 0),
                n_groups,
                n_lora_o,
                group_dim,
                out_low_dim,
                times(k, n_groups),
            );
        } else {
            self.attn_low_rows(
                w_o_a_q8.buf,
                heads_k.buf,
                low.buf,
                n_groups,
                n_lora_o,
                group_dim,
                out_low_dim,
                k,
            );
        }
        let out: DeferredBuf = self.matmul_k_attn_proj(w_o_b_q8, &low, out_low_dim, d_embd, k)?;
        Ok((low, out))
    }

    /// The attention output of one position, expanded into the residual streams.
    pub fn encode_attn_output_proj(
        &mut self,
        heads: &DeferredBuf,
        w_o_a: &DeferredBuf,
        w_o_b: &DeferredBuf,
        w_o_a_q8: HostRef,
        w_o_b_q8: HostRef,
        cur_hc: &DeferredBuf,
        hc_split_post_attn: &DeferredBuf,
        hc_split_comb_attn: &DeferredBuf,
        n_groups: u64,
        n_lora_o: u64,
        group_dim: u64,
        out_low_dim: u64,
        n_hc: u64,
        d_embd: u64,
    ) -> (r: Result<DeferredBuf, EncodeError>)
        requires
            extent(n_groups),
            extent(n_lora_o),
            extent(group_dim),
            extent(out_low_dim),
            extent(n_hc),
            extent(d_embd),
        ensures
            (final(self)@, r) == old(self)@.encode_attn_output_proj(
                *heads,
                *w_o_a,
                *w_o_b,
                w_o_a_q8,
                w_o_b_q8,
                *cur_hc,
                *hc_split_post_attn,
                *hc_split_comb_attn,
                n_groups,
                n_lora_o,
                group_dim,
                out_low_dim,
                n_hc,
                d_embd,
            ),
            r matches Ok(b) ==> b.n_elements == n_hc * d_embd,
            final(self)@.encodes(old(self)@),
            final(self)@.pools.carrier == old(self)@.pools.carrier,
    {
        proof {
            reveal(Trace::encode_attn_output_proj);
        }
        let use_q8: bool = !self.config.q8_proj_off && w_o_a_q8.len > 0 && w_o_b_q8.len > 0;
        let (_low, out): (DeferredBuf, DeferredBuf) = if use_q8 {
            let a: DeferredBuf = self.weight_q8_0_raw(w_o_a_q8, (w_o_a_q8.len / 34) * 32);
            let b: DeferredBuf = self.weight_q8_0_raw(w_o_b_q8, (w_o_b_q8.len / 34) * 32);
            self.encode_attn_output_matmuls_q8(
                heads,
                &a,
                &b,
                n_groups,
                n_lora_o,
                group_dim,
                out_low_dim,
                d_embd,
            )?
        } else {
            self.encode_attn_output_matmuls(
                heads,
                w_o_a,
                w_o_b,
                n_groups,
                n_lora_o,
                group_dim,
                out_low_dim,
                d_embd,
            )?
        };
        self.hc_expand_attn(
            &out,
            cur_hc,
            hc_split_post_attn,
            hc_split_comb_attn,
            n_hc,
            d_embd,
        )
    }
}

} // verus!
