//! The expert router: logits, selection of six experts, and their factors.

use crate::arith::{MAX_EXTENT, extent, lemma_product, pow2_above, pow2_at_least, row_offset, times};
use crate::command::{Args, BufId, Command, DeferredBuf, F32, MulMvArgs, SelectArgs};
use crate::error::{Check, EncodeError, unfit};
use crate::kernel::{Consts, Kernel, Pipe};
use crate::matmul::{mv_args, nsg_by_width, nxpsg_for, spec_mv_args, spec_nsg_by_width, spec_nxpsg};
use crate::pool::PoolKey;
use crate::scope::BatchScope;
use crate::trace::Trace;
use vstd::prelude::*;

verus! {

broadcast use crate::trace::group_encodes;

/// The least sum by which routed factors are divided.
pub open spec fn min_sum() -> F32 {
    F32(0x3880_0000)
}

/// The arguments of a selection among `n_experts` experts.
pub open spec fn spec_select_args(n_experts: u64) -> SelectArgs {
    SelectArgs {
        has_bias: 1,
        hash_mode: 0,
        use_token_buffer: 0,
        token: 0,
        hash_rows: 1,
        n_experts: n_experts as u32,
    }
}

fn select_args(n_experts: u64) -> (r: SelectArgs)
    ensures
        r == spec_select_args(n_experts),
{
    SelectArgs {
        has_bias: 1,
        hash_mode: 0,
        use_token_buffer: 0,
        token: 0,
        hash_rows: 1,
        n_experts: n_experts as u32,
    }
}

/// The kernels that select experts and weigh them.
pub open spec fn spec_router_kernels(generic: bool) -> (Kernel, Kernel) {
    if generic {
        (Kernel::RouterFinalizeOneAny, Kernel::RouterWeightsOneAny)
    } else {
        (Kernel::RouterFinalizeOne, Kernel::RouterWeightsOne)
    }
}

/// The threads of a selection.
pub open spec fn spec_select_threads(generic: bool, n_experts: u64) -> u64 {
    if generic {
        pow2_above(n_experts, 1)
    } else {
        256
    }
}

/// The selected experts of one position and their factors.
pub type Routed = (DeferredBuf, DeferredBuf);

impl Trace {
    #[verifier::opaque]
    pub open spec fn softplus_sqrt(self, x: DeferredBuf) -> (
        Trace,
        Result<DeferredBuf, EncodeError>,
    ) {
        let n = x.n_elements;
        if n % 4 != 0 {
            self.refuse(Check::InputAlign, n as int, 4)
        } else if !self.has(Kernel::SoftplusSqrt) {
            self.missing(Kernel::SoftplusSqrt)
        } else {
            let lanes = (n / 4) as u32;
            let nb = (n * 4) as u32;
            let (t, out) = self.alloc_f32(n);
            (
                t.put(Command::Encoder).put(
                    Command::Pipeline(Pipe::Loaded(Kernel::SoftplusSqrt)),
                ).buf_at(0, x.buf).buf_at(1, out.buf).u32_at(2, lanes).u32_at(3, nb).u32_at(
                    4,
                    nb,
                ).put(
                    Command::DispatchThreads((lanes as u64, 1, 1), (lanes as u64, 1, 1)),
                ).put(Command::EndEncoder),
                Ok(out),
            )
        }
    }

    #[verifier::opaque]
    pub open spec fn encode_router_logits(
        self,
        w_router: DeferredBuf,
        h_norm: DeferredBuf,
        n_experts: u64,
        w_router_is_f16: bool,
    ) -> (Trace, Result<DeferredBuf, EncodeError>) {
        let d_embd = h_norm.n_elements;
        if w_router.n_elements != n_experts * d_embd {
            self.refuse(Check::WeightLen, w_router.n_elements as int, n_experts * d_embd)
        } else {
            let (t, logits) = if w_router_is_f16 {
                self.matvec_f16(w_router, h_norm, d_embd, n_experts)
            } else {
                self.matvec_f32(w_router, h_norm, d_embd, n_experts)
            };
            if logits is Err {
                (t, logits)
            } else {
                t.softplus_sqrt(logits->Ok_0)
            }
        }
    }

    /// The arguments of the router product of one position.
    pub open spec fn row_args(n_experts: u64, d_embd: u64, wb: u64) -> MulMvArgs {
        spec_mv_args(
            d_embd,
            n_experts,
            1,
            wb,
            (d_embd * wb) as u64,
            (d_embd * n_experts * wb) as u64,
            1,
            (d_embd * 4) as u64,
            (d_embd * 4) as u64,
        )
    }

    /// The arguments of the router product of `k` positions in one launch.
    pub open spec fn row_args_k(n_experts: u64, d_embd: u64, wb: u64, k: u64) -> MulMvArgs {
        MulMvArgs {
            ne12: k as i32,
            nb12: (d_embd * 4) as u64,
            nb13: (k * (d_embd * 4)) as u64,
            r2: k as i16,
            r3: 1,
            ..Trace::row_args(n_experts, d_embd, wb)
        }
    }

    /// The products of several positions one by one, from position `i` on.
    pub open spec fn mv_rows(
        self,
        pipe: Pipe,
        nsg: i16,
        w: BufId,
        x: BufId,
        out: BufId,
        n_experts: u64,
        d_embd: u64,
        wb: u64,
        k: u64,
        i: int,
    ) -> Trace
        decreases k - i,
    {
        if i >= k {
            self
        } else {
            self.launch3(
                pipe,
                Args::MulMv(Trace::row_args(n_experts, d_embd, wb)),
                w,
                (x, (i * (d_embd * 4)) as u64),
                (out, (i * (n_experts * 4)) as u64),
                256,
                (((n_experts + 1) / 2) as u64, 1, 1),
                (32, nsg as u64, 1),
            ).mv_rows(pipe, nsg, w, x, out, n_experts, d_embd, wb, k, i + 1)
        }
    }

    #[verifier::opaque]
    pub open spec fn encode_router_logits_k(
        self,
        w_router: DeferredBuf,
        h_norm_k: DeferredBuf,
        n_experts: u64,
        d_embd: u64,
        k: u64,
        w_is_f16: bool,
    ) -> (Trace, Result<DeferredBuf, EncodeError>) {
        if h_norm_k.n_elements != k * d_embd {
            self.refuse(Check::InputLen, h_norm_k.n_elements as int, k * d_embd)
        } else if w_router.n_elements != n_experts * d_embd {
            self.refuse(Check::WeightLen, w_router.n_elements as int, n_experts * d_embd)
        } else if d_embd % 4 != 0 {
            self.refuse(Check::InputAlign, d_embd as int, 4)
        } else if n_experts % 2 != 0 {
            self.refuse(Check::OutputAlign, n_experts as int, 2)
        } else if n_experts % 4 != 0 {
            self.refuse(Check::ExpertCount, n_experts as int, 4)
        } else {
            let nsg = spec_nsg_by_width(d_embd);
            let kernel = if w_is_f16 {
                Kernel::MulMvF16
            } else {
                Kernel::MulMvF32
            };
            let wb: u64 = if w_is_f16 {
                2
            } else {
                4
            };
            let pipe = Pipe::Special(kernel, Consts::Rows { nsg, nxpsg: spec_nxpsg(d_embd) });
            let (t, logits) = self.pooled_scratch_f32(
                PoolKey::RouterLogitsK,
                (k * n_experts) as u64,
            );
            let t = if self.config.batch_router {
                t.launch3(
                    pipe,
                    Args::MulMv(Trace::row_args_k(n_experts, d_embd, wb, k)),
                    w_router.buf,
                    (h_norm_k.buf, 0),
                    (logits.buf, 0),
                    256,
                    (((n_experts + 1) / 2) as u64, 1, k),
                    (32, nsg as u64, 1),
                )
            } else {
                t.mv_rows(
                    pipe,
                    nsg,
                    w_router.buf,
                    h_norm_k.buf,
                    logits.buf,
                    n_experts,
                    d_embd,
                    wb,
                    k,
                    0,
                )
            };
            t.softplus_sqrt(logits)
        }
    }

    /// A launch of the selection of six experts.
    pub open spec fn select_launch(
        self,
        kernel: Kernel,
        n_experts: u64,
        probs: (BufId, u64),
        bias: BufId,
        hash: BufId,
        tokens: BufId,
        selected: BufId,
        threads: u64,
    ) -> Trace {
        self.put(Command::Encoder).put(Command::Pipeline(Pipe::Loaded(kernel))).put(
            Command::Bytes(0, Args::Select(spec_select_args(n_experts))),
        ).put(Command::Buffer(1, probs.0, probs.1)).buf_at(2, bias).buf_at(3, hash).buf_at(
            4,
            tokens,
        ).buf_at(5, selected).put(Command::GroupMemory((2 * threads * 4) as u64)).put(
            Command::Dispatch((1, 1, 1), (threads, 1, 1)),
        ).put(Command::EndEncoder)
    }

    /// A launch of the factors of six selected experts.
    pub open spec fn weights_launch(
        self,
        kernel: Kernel,
        probs: (BufId, u64),
        selected: BufId,
        weights: BufId,
    ) -> Trace {
        self.put(Command::Encoder).put(Command::Pipeline(Pipe::Loaded(kernel))).put(
            Command::Buffer(0, probs.0, probs.1),
        ).buf_at(1, selected).buf_at(2, weights).u32_at(3, 6).f32_at(
            4,
            self.engine.router_scale,
        ).f32_at(5, min_sum()).put(Command::DispatchThreads((6, 1, 1), (6, 1, 1))).put(
            Command::EndEncoder,
        )
    }

    /// The selection and the factors of one position.
    #[verifier::opaque]
    pub open spec fn route_one(
        self,
        n_experts: u64,
        generic: bool,
        probs: (BufId, u64),
        bias: BufId,
        hash: BufId,
        tokens: BufId,
    ) -> (Trace, Routed) {
        let kernels = spec_router_kernels(generic);
        let (t, selected) = self.alloc_i32(6);
        let (t, weights) = t.alloc_f32(6);
        (
            t.select_launch(
                kernels.0,
                n_experts,
                probs,
                bias,
                hash,
                tokens,
                selected.buf,
                spec_select_threads(generic, n_experts),
            ).weights_launch(kernels.1, probs, selected.buf, weights.buf),
            (selected, weights),
        )
    }

    #[verifier::opaque]
    pub open spec fn encode_router_finalize(self, probs: DeferredBuf, bias: DeferredBuf) -> (
        Trace,
        Result<Routed, EncodeError>,
    ) {
        let n_experts = probs.n_elements;
        let generic = self.engine.generic_router(n_experts);
        let kernels = spec_router_kernels(generic);
        if n_experts == 0 || n_experts > 1024 {
            self.refuse(Check::ExpertCount, n_experts as int, 1024)
        } else if bias.n_elements != n_experts {
            self.refuse(Check::BiasLen, bias.n_elements as int, n_experts as int)
        } else if !self.has(kernels.0) {
            self.missing(kernels.0)
        } else if !self.has(kernels.1) {
            self.missing(kernels.1)
        } else {
            let (t, hash) = self.upload_word(0);
            let (t, tokens) = t.upload_word(0);
            let (t, r) = t.route_one(
                n_experts,
                generic,
                (probs.buf, 0),
                bias.buf,
                hash.buf,
                tokens.buf,
            );
            (t, Ok(r))
        }
    }

    #[verifier::opaque]
    pub open spec fn encode_router_weights_one(self, probs: DeferredBuf, selected: DeferredBuf) -> (
        Trace,
        Result<DeferredBuf, EncodeError>,
    ) {
        let n_experts = probs.n_elements;
        let kernels = spec_router_kernels(self.engine.generic_router(n_experts));
        if n_experts == 0 || n_experts > 1024 {
            self.refuse(Check::ExpertCount, n_experts as int, 1024)
        } else if selected.n_elements != 6 {
            self.refuse(Check::SelectedLen, selected.n_elements as int, 6)
        } else if !self.has(kernels.1) {
            self.missing(kernels.1)
        } else {
            let (t, weights) = self.alloc_f32(6);
            (
                t.weights_launch(kernels.1, (probs.buf, 0), selected.buf, weights.buf),
                Ok(weights),
            )
        }
    }

    /// The routes of several positions one by one: `done` come before position `i`.
    pub open spec fn route_rows(
        self,
        n_experts: u64,
        generic: bool,
        probs: BufId,
        bias: BufId,
        hash: BufId,
        tokens: BufId,
        k: u64,
        i: int,
        done: Seq<Routed>,
    ) -> (Trace, Seq<Routed>)
        decreases k - i,
    {
        if i >= k {
            (self, done)
        } else {
            let (t, r) = self.route_one(
                n_experts,
                generic,
                (probs, (i * (n_experts * 4)) as u64),
                bias,
                hash,
                tokens,
            );
            t.route_rows(
                n_experts,
                generic,
                probs,
                bias,
                hash,
                tokens,
                k,
                i + 1,
                done.push(r),
            )
        }
    }

    #[verifier::opaque]
    pub open spec fn encode_router_finalize_k(
        self,
        probs_k: DeferredBuf,
        bias: DeferredBuf,
        k: u64,
    ) -> (Trace, Result<Seq<Routed>, EncodeError>) {
        let n_experts = bias.n_elements;
        let generic = self.engine.generic_router(n_experts);
        let kernels = spec_router_kernels(generic);
        if n_experts == 0 || n_experts > 1024 {
            self.refuse(Check::ExpertCount, n_experts as int, 1024)
        } else if probs_k.n_elements != k * n_experts {
            self.refuse(Check::InputLen, probs_k.n_elements as int, k * n_experts)
        } else if !self.has(kernels.0) {
            self.missing(kernels.0)
        } else if !self.has(kernels.1) {
            self.missing(kernels.1)
        } else {
            let (t, hash) = self.upload_word(0);
            let (t, tokens) = t.upload_word(0);
            let (t, rs) = t.route_rows(
                n_experts,
                generic,
                probs_k.buf,
                bias.buf,
                hash.buf,
                tokens.buf,
                k,
                0,
                seq![],
            );
            (t, Ok(rs))
        }
    }

    #[verifier::opaque]
    pub open spec fn encode_router_finalize_flat_k(
        self,
        probs_k: DeferredBuf,
        bias: DeferredBuf,
        k: u64,
    ) -> (Trace, Result<Routed, EncodeError>) {
        let n_experts = bias.n_elements;
        if n_experts == 0 || n_experts > 1024 {
            self.refuse(Check::ExpertCount, n_experts as int, 1024)
        } else if probs_k.n_elements != k * n_experts {
            self.refuse(Check::InputLen, probs_k.n_elements as int, k * n_experts)
        } else {
            let threads = pow2_above(n_experts, 1);
            let (t, sel) = self.alloc_i32((k * 6) as u64);
            let (t, wt) = t.alloc_f32((k * 6) as u64);
            (
                t.put(Command::Encoder).put(
                    Command::Pipeline(
                        Pipe::Special(Kernel::RouterFinalizeOneAnyK, Consts::Plain),
                    ),
                ).put(Command::Bytes(0, Args::Select(spec_select_args(n_experts)))).buf_at(
                    1,
                    probs_k.buf,
                ).buf_at(2, bias.buf).buf_at(3, sel.buf).put(
                    Command::GroupMemory((2 * threads * 4) as u64),
                ).put(Command::Dispatch((k, 1, 1), (threads, 1, 1))).put(
                    Command::EndEncoder,
                ).put(Command::Encoder).put(
                    Command::Pipeline(Pipe::Special(Kernel::RouterWeightsOneAnyK, Consts::Plain)),
                ).buf_at(0, probs_k.buf).buf_at(1, sel.buf).buf_at(2, wt.buf).u32_at(3, 6).f32_at(
                    4,
                    self.engine.router_scale,
                ).f32_at(5, min_sum()).u32_at(6, n_experts as u32).put(
                    Command::Dispatch((k, 1, 1), (6, 1, 1)),
                ).put(Command::EndEncoder),
                Ok((sel, wt)),
            )
        }
    }

    /// The copies of the routes of several positions into one buffer each, from
    /// position `i` on.
    pub open spec fn flatten_rows(
        self,
        routes: Seq<Routed>,
        sel: BufId,
        wt: BufId,
        i: int,
    ) -> Trace
        decreases routes.len() - i,
    {
        if i >= routes.len() || i < 0 {
            self
        } else {
            self.put(Command::CloseShared).put(Command::Blit).put(
                Command::Copy {
                    src: routes[i].0.buf,
                    src_off: 0,
                    dst: sel,
                    dst_off: (i * 24) as u64,
                    bytes: 24,
                },
            ).put(
                Command::Copy {
                    src: routes[i].1.buf,
                    src_off: 0,
                    dst: wt,
                    dst_off: (i * 24) as u64,
                    bytes: 24,
                },
            ).put(Command::EndBlit).flatten_rows(routes, sel, wt, i + 1)
        }
    }

    #[verifier::opaque]
    pub open spec fn flatten_router_output_k(self, routes: Seq<Routed>) -> (Trace, Routed) {
        let n = (routes.len() * 6) as u64;
        let (t, sel) = self.alloc_i32(n);
        let (t, wt) = t.alloc_f32(n);
        (t.flatten_rows(routes, sel.buf, wt.buf, 0), (sel, wt))
    }
}

impl BatchScope {
    /// The square root of the softplus of every element.
    pub fn softplus_sqrt(&mut self, x: &DeferredBuf) -> (r: Result<DeferredBuf, EncodeError>)
        requires
            x.n_elements * 4 <= u64::MAX,
        ensures
            (final(self)@, r) == old(self)@.softplus_sqrt(*x),
            r matches Ok(b) ==> b.n_elements == x.n_elements,
            final(self)@.encodes(old(self)@),
            final(self)@.pools.carrier == old(self)@.pools.carrier,
    {
        proof {
            reveal(Trace::softplus_sqrt);
        }
        let n: u64 = x.n_elements;
        if n % 4 != 0 {
            return Err(unfit(Check::InputAlign, n, 4));
        }
        if !self.has(Kernel::SoftplusSqrt) {
            return Err(EncodeError::NotLoaded(Kernel::SoftplusSqrt));
        }
        let out: DeferredBuf = self.alloc_f32(n);
        let lanes: u32 = (n / 4) as u32;
        let nb: u32 = (n * 4) as u32;
        self.put(Command::Encoder);
        self.put(Command::Pipeline(Pipe::Loaded(Kernel::SoftplusSqrt)));
        self.buf_at(0, x.buf);
        self.buf_at(1, out.buf);
        self.u32_at(2, lanes);
        self.u32_at(3, nb);
        self.u32_at(4, nb);
        self.put(Command::DispatchThreads((lanes as u64, 1, 1), (lanes as u64, 1, 1)));
        self.put(Command::EndEncoder);
        Ok(out)
    }

    /// The router's scores of one position.
    pub fn encode_router_logits(
        &mut self,
        w_router: &DeferredBuf,
        h_norm: &DeferredBuf,
        n_experts: u64,
        w_router_is_f16: bool,
    ) -> (r: Result<DeferredBuf, EncodeError>)
        requires
            extent(h_norm.n_elements),
            extent(n_experts),
        ensures
            (final(self)@, r) == old(self)@.encode_router_logits(
                *w_router,
                *h_norm,
                n_experts,
                w_router_is_f16,
            ),
            r matches Ok(b) ==> b.n_elements == n_experts,
            final(self)@.encodes(old(self)@),
            final(self)@.pools.carrier == old(self)@.pools.carrier,
    {
        proof {
            reveal(Trace::encode_router_logits);
        }
        let d_embd: u64 = h_norm.n_elements;
        if w_router.n_elements != times(n_experts, d_embd) {
            return Err(unfit(Check::WeightLen, w_router.n_elements, times(n_experts, d_embd)));
        }
        let logits: DeferredBuf = if w_router_is_f16 {
            self.matvec_f16(w_router, h_norm, d_embd, n_experts)?
        } else {
            self.matvec_f32(w_router, h_norm, d_embd, n_experts)?
        };
        self.softplus_sqrt(&logits)
    }

    fn row_args(n_experts: u64, d_embd: u64, wb: u64) -> (r: MulMvArgs)
        requires
            extent(n_experts),
            extent(d_embd),
            wb == 2 || wb == 4,
        ensures
            r == Trace::row_args(n_experts, d_embd, wb),
    {
        let n_w: u64 = times(d_embd, n_experts);
        assert(d_embd * wb <= 0x1_ffff_fffc && n_w * wb <= u64::MAX) by (nonlinear_arith)
            requires
                d_embd <= 0x7fff_ffff,
                wb == 2 || wb == 4,
                n_w <= 0x3fff_ffff_0000_0001,
        ;
        mv_args(
            d_embd,
            n_experts,
            1,
            wb,
            d_embd * wb,
            n_w * wb,
            1,
            d_embd * 4,
            d_embd * 4,
        )
    }

    pub(crate) fn mv_rows(
        &mut self,
        pipe: Pipe,
        nsg: i16,
        w: BufId,
        x: BufId,
        out: BufId,
        n_experts: u64,
        d_embd: u64,
        wb: u64,
        k: u64,
    )
        requires
            extent(n_experts),
            extent(d_embd),
            extent(k),
            wb == 2 || wb == 4,
        ensures
            final(self)@ == old(self)@.mv_rows(
                pipe,
                nsg,
                w,
                x,
                out,
                n_experts,
                d_embd,
                wb,
                k,
                0,
            ),
            final(self)@.encodes(old(self)@),
            final(self)@.pools.carrier == old(self)@.pools.carrier,
    {
        let ghost goal = self@.mv_rows(pipe, nsg, w, x, out, n_experts, d_embd, wb, k, 0);
        let args: MulMvArgs = BatchScope::row_args(n_experts, d_embd, wb);
        proof {
            lemma_product(k as int, d_embd as int);
            lemma_product(k as int, n_experts as int);
            assert(k * (d_embd * 4) == k * d_embd * 4 && k * (n_experts * 4) == k * n_experts * 4)
                by (nonlinear_arith);
        }
        let mut i: u64 = 0;
        while i < k
            invariant
                self@.encodes(old(self)@),
                self@.pools.carrier == old(self)@.pools.carrier,
                i <= k,
                extent(n_experts),
                extent(d_embd),
                k * (d_embd * 4) <= u64::MAX,
                k * (n_experts * 4) <= u64::MAX,
                args == Trace::row_args(n_experts, d_embd, wb),
                goal == self@.mv_rows(
                    pipe,
                    nsg,
                    w,
                    x,
                    out,
                    n_experts,
                    d_embd,
                    wb,
                    k,
                    i as int,
                ),
            decreases k - i,
        {
            let x_off: u64 = row_offset(i, k, d_embd * 4);
            let out_off: u64 = row_offset(i, k, n_experts * 4);
            self.launch3(
                pipe,
                Args::MulMv(args),
                w,
                (x, x_off),
                (out, out_off),
                256,
                ((n_experts + 1) / 2, 1, 1),
                (32, nsg as u64, 1),
            );
            i = i + 1;
        }
    }

    /// The router's scores of several positions.
    pub fn encode_router_logits_k(
        &mut self,
        w_router: &DeferredBuf,
        h_norm_k: &DeferredBuf,
        n_experts: u64,
        d_embd: u64,
        k_positions: u64,
        w_is_f16: bool,
    ) -> (r: Result<DeferredBuf, EncodeError>)
        requires
            extent(n_experts),
            extent(d_embd),
            extent(k_positions),
        ensures
            (final(self)@, r) == old(self)@.encode_router_logits_k(
                *w_router,
                *h_norm_k,
                n_experts,
                d_embd,
                k_positions,
                w_is_f16,
            ),
            r matches Ok(b) ==> b.n_elements == k_positions * n_experts,
            final(self)@.encodes(old(self)@),
            final(self)@.pools.carrier == old(self)@.pools.carrier,
    {
        proof {
            reveal(Trace::encode_router_logits_k);
        }
        let k: u64 = k_positions;
        if h_norm_k.n_elements != times(k, d_embd) {
            return Err(unfit(Check::InputLen, h_norm_k.n_elements, times(k, d_embd)));
        }
        if w_router.n_elements != times(n_experts, d_embd) {
            return Err(unfit(Check::WeightLen, w_router.n_elements, times(n_experts, d_embd)));
        }
        if d_embd % 4 != 0 {
            return Err(unfit(Check::InputAlign, d_embd, 4));
        }
        if n_experts % 2 != 0 {
            return Err(unfit(Check::OutputAlign, n_experts, 2));
        }
        if n_experts % 4 != 0 {
            return Err(unfit(Check::ExpertCount, n_experts, 4));
        }
        let batch: bool = self.config.batch_router;
        let nsg: i16 = nsg_by_width(d_embd);
        let (kernel, wb): (Kernel, u64) = if w_is_f16 {
            (Kernel::MulMvF16, 2)
        } else {
            (Kernel::MulMvF32, 4)
        };
        let pipe: Pipe = Pipe::Special(kernel, Consts::Rows { nsg, nxpsg: nxpsg_for(d_embd) });
        let logits: DeferredBuf = self.pooled_scratch_f32(
            PoolKey::RouterLogitsK,
            times(k, n_experts),
        );
        if batch {
            proof {
                lemma_product(k as int, d_embd as int);
                assert(k * (d_embd * 4) == k * d_embd * 4) by (nonlinear_arith);
            }
            let args: MulMvArgs = MulMvArgs {
                ne12: k as i32,
                nb12: d_embd * 4,
                nb13: k * (d_embd * 4),
                r2: k as i16,
                r3: 1,
                ..BatchScope::row_args(n_experts, d_embd, wb)
            };
            self.launch3(
                pipe,
                Args::MulMv(args),
                w_router.buf,
                (h_norm_k.buf, 0),
                (logits.buf, 0),
                256,
                ((n_experts + 1) / 2, 1, k),
                (32, nsg as u64, 1),
            );
        } else {
            self.mv_rows(
                pipe,
                nsg,
                w_router.buf,
                h_norm_k.buf,
                logits.buf,
                n_experts,
                d_embd,
                wb,
                k,
            );
        }
        self.softplus_sqrt(&logits)
    }

    fn select_launch(
        &mut self,
        kernel: Kernel,
        n_experts: u64,
        probs: (BufId, u64),
        bias: BufId,
        hash: BufId,
        tokens: BufId,
        selected: BufId,
        threads: u64,
    )
        requires
            threads <= 0x4000_0000,
        ensures
            final(self)@ == old(self)@.select_launch(
                kernel,
                n_experts,
                probs,
                bias,
                hash,
                tokens,
                selected,
                threads,
            ),
            final(self)@.encodes(old(self)@),
            final(self)@.pools.carrier == old(self)@.pools.carrier,
    {
        self.put(Command::Encoder);
        self.put(Command::Pipeline(Pipe::Loaded(kernel)));
        self.put(Command::Bytes(0, Args::Select(select_args(n_experts))));
        self.put(Command::Buffer(1, probs.0, probs.1));
        self.buf_at(2, bias);
        self.buf_at(3, hash);
        self.buf_at(4, tokens);
        self.buf_at(5, selected);
        self.put(Command::GroupMemory(2 * threads * 4));
        self.put(Command::Dispatch((1, 1, 1), (threads, 1, 1)));
        self.put(Command::EndEncoder);
    }

    fn weights_launch(
        &mut self,
        kernel: Kernel,
        probs: (BufId, u64),
        selected: BufId,
        weights: BufId,
    )
        ensures
            final(self)@ == old(self)@.weights_launch(kernel, probs, selected, weights),
            final(self)@.encodes(old(self)@),
            final(self)@.pools.carrier == old(self)@.pools.carrier,
    {
        let scale: F32 = self.engine.router_scale;
        self.put(Command::Encoder);
        self.put(Command::Pipeline(Pipe::Loaded(kernel)));
        self.put(Command::Buffer(0, probs.0, probs.1));
        self.buf_at(1, selected);
        self.buf_at(2, weights);
        self.u32_at(3, 6);
        self.f32_at(4, scale);
        self.f32_at(5, F32(0x3880_0000));
        self.put(Command::DispatchThreads((6, 1, 1), (6, 1, 1)));
        self.put(Command::EndEncoder);
    }

    fn router_kernels(generic: bool) -> (r: (Kernel, Kernel))
        ensures
            r == spec_router_kernels(generic),
    {
        if generic {
            (Kernel::RouterFinalizeOneAny, Kernel::RouterWeightsOneAny)
        } else {
            (Kernel::RouterFinalizeOne, Kernel::RouterWeightsOne)
        }
    }

    fn route_one(
        &mut self,
        n_experts: u64,
        generic: bool,
        probs: (BufId, u64),
        bias: BufId,
        hash: BufId,
        tokens: BufId,
    ) -> (r: Routed)
        requires
            0 < n_experts <= 1024,
        ensures
            (final(self)@, r) == old(self)@.route_one(
                n_experts,
                generic,
                probs,
                bias,
                hash,
                tokens,
            ),
            r.0.n_elements == 6,
            r.1.n_elements == 6,
            final(self)@.encodes(old(self)@),
            final(self)@.pools.carrier == old(self)@.pools.carrier,
    {
        let kernels: (Kernel, Kernel) = BatchScope::router_kernels(generic);
        proof {
            reveal(Trace::route_one);
            crate::arith::law_pow2_is_least(n_experts);
        }
        let threads: u64 = if generic {
            pow2_at_least(n_experts)
        } else {
            256
        };
        let selected: DeferredBuf = self.alloc_i32(6);
        let weights: DeferredBuf = self.alloc_f32(6);
        self.select_launch(
            kernels.0,
            n_experts,
            probs,
            bias,
            hash,
            tokens,
            selected.buf,
            threads,
        );
        self.weights_launch(kernels.1, probs, selected.buf, weights.buf);
        (selected, weights)
    }

    /// Selects six experts for one position and computes their factors.
    pub fn encode_router_finalize(&mut self, probs: &DeferredBuf, bias: &DeferredBuf) -> (r: Result<
        Routed,
        EncodeError,
    >)
        ensures
            (final(self)@, r) == old(self)@.encode_router_finalize(*probs, *bias),
            r matches Ok(b) ==> b.0.n_elements == 6 && b.1.n_elements == 6,
            final(self)@.encodes(old(self)@),
            final(self)@.pools.carrier == old(self)@.pools.carrier,
    {
        proof {
            reveal(Trace::encode_router_finalize);
        }
        let n_experts: u64 = probs.n_elements;
        if n_experts == 0 || n_experts > 1024 {
            return Err(unfit(Check::ExpertCount, n_experts, 1024));
        }
        if bias.n_elements != n_experts {
            return Err(unfit(Check::BiasLen, bias.n_elements, n_experts));
        }
        let generic: bool = self.engine.generic_router(n_experts);
        let kernels: (Kernel, Kernel) = BatchScope::router_kernels(generic);
        if !self.has(kernels.0) {
            return Err(EncodeError::NotLoaded(kernels.0));
        }
        if !self.has(kernels.1) {
            return Err(EncodeError::NotLoaded(kernels.1));
        }
        let hash: DeferredBuf = self.upload_word(0);
        let tokens: DeferredBuf = self.upload_word(0);
        Ok(
            self.route_one(
                n_experts,
                generic,
                (probs.buf, 0),
                bias.buf,
                hash.buf,
                tokens.buf,
            ),
        )
    }

    /// The factors of six experts that were selected otherwise.
    pub fn encode_router_weights_one(&mut self, probs: &DeferredBuf, selected: &DeferredBuf) -> (r:
        Result<DeferredBuf, EncodeError>)
        ensures
            (final(self)@, r) == old(self)@.encode_router_weights_one(*probs, *selected),
            r matches Ok(b) ==> b.n_elements == 6,
            final(self)@.encodes(old(self)@),
            final(self)@.pools.carrier == old(self)@.pools.carrier,
    {
        proof {
            reveal(Trace::encode_router_weights_one);
        }
        let n_experts: u64 = probs.n_elements;
        if n_experts == 0 || n_experts > 1024 {
            return Err(unfit(Check::ExpertCount, n_experts, 1024));
        }
        if selected.n_elements != 6 {
            return Err(unfit(Check::SelectedLen, selected.n_elements, 6));
        }
        let kernels: (Kernel, Kernel) = BatchScope::router_kernels(
            self.engine.generic_router(n_experts),
        );
        if !self.has(kernels.1) {
            return Err(EncodeError::NotLoaded(kernels.1));
        }
        let weights: DeferredBuf = self.alloc_f32(6);
        self.weights_launch(kernels.1, (probs.buf, 0), selected.buf, weights.buf);
        Ok(weights)
    }

    /// [`BatchScope::encode_router_finalize`] for several positions, one after another.
    pub fn encode_router_finalize_k(
        &mut self,
        probs_k: &DeferredBuf,
        bias: &DeferredBuf,
        k_positions: u64,
    ) -> (r: Result<Vec<Routed>, EncodeError>)
        requires
            extent(k_positions),
        ensures
            final(self)@ == old(self)@.encode_router_finalize_k(*probs_k, *bias, k_positions).0,
            match (r, old(self)@.encode_router_finalize_k(*probs_k, *bias, k_positions).1) {
                (Ok(v), Ok(s)) => v@ == s,
                (Err(e), Err(f)) => e == f,
                _ => false,
            },
            r matches Ok(v) ==> v@.len() == k_positions && forall|j: int|
                0 <= j < v@.len() ==> (#[trigger] v@[j]).0.n_elements == 6 && v@[j].1.n_elements
                    == 6,
            final(self)@.encodes(old(self)@),
            final(self)@.pools.carrier == old(self)@.pools.carrier,
    {
        proof {
            reveal(Trace::encode_router_finalize_k);
        }
        let k: u64 = k_positions;
        let n_experts: u64 = bias.n_elements;
        if n_experts == 0 || n_experts > 1024 {
            return Err(unfit(Check::ExpertCount, n_experts, 1024));
        }
        if probs_k.n_elements != times(k, n_experts) {
            return Err(unfit(Check::InputLen, probs_k.n_elements, times(k, n_experts)));
        }
        let generic: bool = self.engine.generic_router(n_experts);
        let kernels: (Kernel, Kernel) = BatchScope::router_kernels(generic);
        if !self.has(kernels.0) {
            return Err(EncodeError::NotLoaded(kernels.0));
        }
        if !self.has(kernels.1) {
            return Err(EncodeError::NotLoaded(kernels.1));
        }
        let hash: DeferredBuf = self.upload_word(0);
        let tokens: DeferredBuf = self.upload_word(0);
        let ghost goal = self@.route_rows(
            n_experts,
            generic,
            probs_k.buf,
            bias.buf,
            hash.buf,
            tokens.buf,
            k,
            0,
            seq![],
        );
        let mut out: Vec<Routed> = Vec::new();
        let mut i: u64 = 0;
        assert(out@ =~= seq![]);
        while i < k
            invariant
                self@.encodes(old(self)@),
                self@.pools.carrier == old(self)@.pools.carrier,
                i <= k,
                extent(k),
                0 < n_experts <= 1024,
                out@.len() == i,
                forall|j: int|
                    0 <= j < out@.len() ==> (#[trigger] out@[j]).0.n_elements == 6
                        && out@[j].1.n_elements == 6,
                goal == self@.route_rows(
                    n_experts,
                    generic,
                    probs_k.buf,
                    bias.buf,
                    hash.buf,
                    tokens.buf,
                    k,
                    i as int,
                    out@,
                ),
            decreases k - i,
        {
            assert(i * (n_experts * 4) <= 0x7fff_ffff * 4096) by (nonlinear_arith)
                requires
                    i <= 0x7fff_ffff,
                    n_experts <= 1024,
            ;
            let route: Routed = self.route_one(
                n_experts,
                generic,
                (probs_k.buf, i * (n_experts * 4)),
                bias.buf,
                hash.buf,
                tokens.buf,
            );
            out.push(route);
            i = i + 1;
        }
        Ok(out)
    }

    /// [`BatchScope::encode_router_finalize`] for several positions, in two launches.
    pub fn encode_router_finalize_flat_k(
        &mut self,
        probs_k: &DeferredBuf,
        bias: &DeferredBuf,
        k_positions: u64,
    ) -> (r: Result<Routed, EncodeError>)
        requires
            extent(k_positions),
        ensures
            (final(self)@, r) == old(self)@.encode_router_finalize_flat_k(
                *probs_k,
                *bias,
                k_positions,
            ),
            r matches Ok(b) ==> b.0.n_elements == k_positions * 6 && b.1.n_elements == k_positions
                * 6,
            final(self)@.encodes(old(self)@),
            final(self)@.pools.carrier == old(self)@.pools.carrier,
    {
        proof {
            reveal(Trace::encode_router_finalize_flat_k);
        }
        let k: u64 = k_positions;
        let n_experts: u64 = bias.n_elements;
        if n_experts == 0 || n_experts > 1024 {
            return Err(unfit(Check::ExpertCount, n_experts, 1024));
        }
        if probs_k.n_elements != times(k, n_experts) {
            return Err(unfit(Check::InputLen, probs_k.n_elements, times(k, n_experts)));
        }
        proof {
            crate::arith::law_pow2_is_least(n_experts);
        }
        let threads: u64 = pow2_at_least(n_experts);
        let scale: F32 = self.engine.router_scale;
        let sel: DeferredBuf = self.alloc_i32(k * 6);
        let wt: DeferredBuf = self.alloc_f32(k * 6);
        self.put(Command::Encoder);
        self.put(
            Command::Pipeline(Pipe::Special(Kernel::RouterFinalizeOneAnyK, Consts::Plain)),
        );
        self.put(Command::Bytes(0, Args::Select(select_args(n_experts))));
        self.buf_at(1, probs_k.buf);
        self.buf_at(2, bias.buf);
        self.buf_at(3, sel.buf);
        self.put(Command::GroupMemory(2 * threads * 4));
        self.put(Command::Dispatch((k, 1, 1), (threads, 1, 1)));
        self.put(Command::EndEncoder);
        self.put(Command::Encoder);
        self.put(Command::Pipeline(Pipe::Special(Kernel::RouterWeightsOneAnyK, Consts::Plain)));
        self.buf_at(0, probs_k.buf);
        self.buf_at(1, sel.buf);
        self.buf_at(2, wt.buf);
        self.u32_at(3, 6);
        self.f32_at(4, scale);
        self.f32_at(5, F32(0x3880_0000));
        self.u32_at(6, n_experts as u32);
        self.put(Command::Dispatch((k, 1, 1), (6, 1, 1)));
        self.put(Command::EndEncoder);
        Ok((sel, wt))
    }

    /// Gathers the routes of several positions into one buffer of experts and one of factors.
    pub fn flatten_router_output_k(&mut self, sel_wt_k: &[Routed]) -> (r: Result<
        Routed,
        EncodeError,
    >)
        requires
            sel_wt_k@.len() <= MAX_EXTENT,
        ensures
            r is Ok,
            (final(self)@, r->Ok_0) == old(self)@.flatten_router_output_k(sel_wt_k@),
            r->Ok_0.0.n_elements == sel_wt_k@.len() * 6,
            r->Ok_0.1.n_elements == sel_wt_k@.len() * 6,
            final(self)@.encodes(old(self)@),
            final(self)@.pools.carrier == old(self)@.pools.carrier,
    {
        proof {
            reveal(Trace::flatten_router_output_k);
        }
        let n: u64 = sel_wt_k.len() as u64 * 6;
        let sel: DeferredBuf = self.alloc_i32(n);
        let wt: DeferredBuf = self.alloc_f32(n);
        let ghost goal = self@.flatten_rows(sel_wt_k@, sel.buf, wt.buf, 0);
        let mut i: usize = 0;
        while i < sel_wt_k.len()
            invariant
                self@.encodes(old(self)@),
                self@.pools.carrier == old(self)@.pools.carrier,
                i <= sel_wt_k@.len() <= MAX_EXTENT,
                goal == self@.flatten_rows(sel_wt_k@, sel.buf, wt.buf, i as int),
            decreases sel_wt_k@.len() - i,
        {
            let off: u64 = i as u64 * 24;
            self.put(Command::CloseShared);
            self.put(Command::Blit);
            self.put(
                Command::Copy {
                    src: sel_wt_k[i].0.buf,
                    src_off: 0,
                    dst: sel.buf,
                    dst_off: off,
                    bytes: 24,
                },
            );
            self.put(
                Command::Copy {
                    src: sel_wt_k[i].1.buf,
                    src_off: 0,
                    dst: wt.buf,
                    dst_off: off,
                    bytes: 24,
                },
            );
            self.put(Command::EndBlit);
            i = i + 1;
        }
        Ok((sel, wt))
    }
}

} // verus!
