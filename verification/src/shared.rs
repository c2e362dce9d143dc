//! The shared expert of several positions, with Q8_0 weights.

use crate::arith::{elements, extent, times};
use crate::command::{Args, BufId, Command, DeferredBuf, F32, GluArgs, Groups, HostRef};
use crate::error::{Check, EncodeError, unfit};
use crate::kernel::{Kernel, Pipe};
use crate::pool::PoolKey;
use crate::scope::BatchScope;
use crate::trace::Trace;
use vstd::prelude::*;

verus! {

broadcast use {crate::trace::group_encodes, crate::trace::group_extends};

/// The arguments of the gated activation of rows of `width` elements.
pub open spec fn spec_glu_args(width: u64) -> GluArgs {
    GluArgs {
        ne00: width as i32,
        nb01: (width * 4) as u64,
        ne10: width as i32,
        nb11: (width * 4) as u64,
        ne0: width as i32,
        nb1: (width * 4) as u64,
        i00: 0,
        i10: 0,
        alpha: F32(0),
        limit: F32(0),
    }
}

impl Trace {
    /// One launch of the gated activation, for `groups` rows from byte `off` on.
    pub open spec fn glu_launch(
        self,
        gate: BufId,
        up: BufId,
        mid: BufId,
        off: u64,
        groups: u64,
        width: u64,
    ) -> Trace {
        self.put(Command::Encoder).put(Command::Pipeline(Pipe::Loaded(Kernel::Swiglu))).put(
            Command::Bytes(0, Args::Glu(spec_glu_args(width))),
        ).put(Command::Buffer(1, gate, off)).put(Command::Buffer(2, up, off)).put(
            Command::Buffer(3, mid, off),
        ).put(
            Command::DispatchUpTo {
                groups: Groups::Count(groups),
                want: width,
                at_least_one: true,
            },
        ).put(Command::EndEncoder)
    }

    /// The gated activation of several positions one by one, from position `i` on.
    pub open spec fn glu_rows(
        self,
        gate: BufId,
        up: BufId,
        mid: BufId,
        width: u64,
        k: u64,
        i: int,
    ) -> Trace
        decreases k - i,
    {
        if i >= k {
            self
        } else {
            self.glu_launch(gate, up, mid, (i * width * 4) as u64, 1, width).glu_rows(
                gate,
                up,
                mid,
                width,
                k,
                i + 1,
            )
        }
    }

    #[verifier::opaque]
    pub open spec fn encode_shared_chain_q8_k(
        self,
        normed_k: DeferredBuf,
        w_gate: DeferredBuf,
        w_up: DeferredBuf,
        w_down: DeferredBuf,
        d_embd: u64,
        sd: u64,
        k: u64,
    ) -> (Trace, Result<DeferredBuf, EncodeError>) {
        if normed_k.n_elements != k * d_embd {
            self.refuse(Check::InputLen, normed_k.n_elements as int, k * d_embd)
        } else if sd % 32 != 0 {
            self.refuse(Check::OutputAlign, sd as int, 32)
        } else if d_embd % 32 != 0 {
            self.refuse(Check::InputAlign, d_embd as int, 32)
        } else {
            let (t, g) = self.matmul_k_q8_0_auto(w_gate, normed_k, d_embd, sd, k);
            if g is Err {
                (t, g)
            } else {
                let (t, u) = t.matmul_k_q8_0_auto(w_up, normed_k, d_embd, sd, k);
                if u is Err {
                    (t, u)
                } else {
                    let (t, mid) = t.pooled_scratch_f32(PoolKey::SharedMid, (k * sd) as u64);
                    if !self.has(Kernel::Swiglu) {
                        t.missing(Kernel::Swiglu)
                    } else {
                        let (gate, up) = (g->Ok_0.buf, u->Ok_0.buf);
                        let t = if self.config.batch_router {
                            t.glu_launch(gate, up, mid.buf, 0, k, sd)
                        } else {
                            t.glu_rows(gate, up, mid.buf, sd, k, 0)
                        };
                        t.matmul_k_q8_0_auto(w_down, mid, sd, d_embd, k)
                    }
                }
            }
        }
    }
}

impl BatchScope {
    fn glu_launch(&mut self, gate: BufId, up: BufId, mid: BufId, off: u64, groups: u64, width: u64)
        requires
            extent(width),
        ensures
            final(self)@ == old(self)@.glu_launch(gate, up, mid, off, groups, width),
            final(self)@.encodes(old(self)@),
            final(self)@.pools.carrier == old(self)@.pools.carrier,
    {
        self.put(Command::Encoder);
        self.put(Command::Pipeline(Pipe::Loaded(Kernel::Swiglu)));
        self.put(
            Command::Bytes(
                0,
                Args::Glu(
                    GluArgs {
                        ne00: width as i32,
                        nb01: width * 4,
                        ne10: width as i32,
                        nb11: width * 4,
                        ne0: width as i32,
                        nb1: width * 4,
                        i00: 0,
                        i10: 0,
                        alpha: F32(0),
                        limit: F32(0),
                    },
                ),
            ),
        );
        self.put(Command::Buffer(1, gate, off));
        self.put(Command::Buffer(2, up, off));
        self.put(Command::Buffer(3, mid, off));
        self.put(
            Command::DispatchUpTo {
                groups: Groups::Count(groups),
                want: width,
                at_least_one: true,
            },
        );
        self.put(Command::EndEncoder);
    }

    fn glu_rows(&mut self, gate: BufId, up: BufId, mid: BufId, width: u64, k: u64)
        requires
            extent(width),
            extent(k),
        ensures
            final(self)@ == old(self)@.glu_rows(gate, up, mid, width, k, 0),
            final(self)@.encodes(old(self)@),
            final(self)@.pools.carrier == old(self)@.pools.carrier,
    {
        let ghost goal = self@.glu_rows(gate, up, mid, width, k, 0);
        let mut i: u64 = 0;
        while i < k
            invariant
                i <= k,
                extent(width),
                extent(k),
                self@.encodes(old(self)@),
                self@.pools.carrier == old(self)@.pools.carrier,
                goal == self@.glu_rows(gate, up, mid, width, k, i as int),
            decreases k - i,
        {
            self.glu_launch(gate, up, mid, times(i, width) * 4, 1, width);
            i = i + 1;
        }
    }

    /// The shared expert: gate and up projections, gated activation, down projection.
    pub fn encode_shared_chain_q8_k(
        &mut self,
        normed_k: &DeferredBuf,
        w_gate_q8: &DeferredBuf,
        w_up_q8: &DeferredBuf,
        w_down_q8: &DeferredBuf,
        d_embd: u64,
        sd: u64,
        k_positions: u64,
    ) -> (r: Result<DeferredBuf, EncodeError>)
        requires
            extent(d_embd),
            extent(sd),
            extent(k_positions),
            elements(k_positions * d_embd),
            elements(k_positions * sd),
        ensures
            (final(self)@, r) == old(self)@.encode_shared_chain_q8_k(
                *normed_k,
                *w_gate_q8,
                *w_up_q8,
                *w_down_q8,
                d_embd,
                sd,
                k_positions,
            ),
            r matches Ok(b) ==> b.n_elements == k_positions * d_embd,
            final(self)@.encodes(old(self)@),
            final(self)@.pools.carrier == old(self)@.pools.carrier,
    {
        proof {
            reveal(Trace::encode_shared_chain_q8_k);
        }
        let k: u64 = k_positions;
        if normed_k.n_elements != times(k, d_embd) {
            return Err(unfit(Check::InputLen, normed_k.n_elements, times(k, d_embd)));
        }
        if sd % 32 != 0 {
            return Err(unfit(Check::OutputAlign, sd, 32));
        }
        if d_embd % 32 != 0 {
            return Err(unfit(Check::InputAlign, d_embd, 32));
        }
        let loaded: bool = self.has(Kernel::Swiglu);
        let batched: bool = self.config.batch_router;
        let g_k: DeferredBuf = self.matmul_k_q8_0_auto(w_gate_q8, normed_k, d_embd, sd, k)?;
        let u_k: DeferredBuf = self.matmul_k_q8_0_auto(w_up_q8, normed_k, d_embd, sd, k)?;
        let mid_k: DeferredBuf = self.pooled_scratch_f32(PoolKey::SharedMid, times(k, sd));
        if !loaded {
            return Err(EncodeError::NotLoaded(Kernel::Swiglu));
        }
        if batched {
            self.glu_launch(g_k.buf, u_k.buf, mid_k.buf, 0, k, sd);
        } else {
            self.glu_rows(g_k.buf, u_k.buf, mid_k.buf, sd, k);
        }
        self.matmul_k_q8_0_auto(w_down_q8, &mid_k, sd, d_embd, k)
    }

    /// [`BatchScope::encode_shared_chain_q8_k`] with the weights' raw blocks from the host.
    pub(crate) fn shared_from_raw(
        &mut self,
        fine: bool,
        normed_k: &DeferredBuf,
        sh_q8: (HostRef, HostRef, HostRef),
        shared_dim: u64,
        d_embd: u64,
        k: u64,
    ) -> (r: Result<DeferredBuf, EncodeError>)
        requires
            extent(d_embd),
            extent(shared_dim),
            extent(k),
            elements(k * d_embd),
            elements(k * shared_dim),
        ensures
            (final(self)@, r) == old(self)@.shared_from_raw(
                fine,
                *normed_k,
                sh_q8,
                shared_dim,
                d_embd,
                k,
            ),
            r matches Ok(b) ==> b.n_elements == k * d_embd,
            final(self)@.extends(old(self)@),
            final(self)@.pools.carrier == old(self)@.pools.carrier,
            !fine ==> final(self)@.encodes(old(self)@),
    {
        proof {
            reveal(Trace::shared_from_raw);
            assert(d_embd * shared_dim == shared_dim * d_embd) by (nonlinear_arith);
        }
        let n: u64 = times(shared_dim, d_embd);
        let w_gate: DeferredBuf = self.weight_q8_0_raw(sh_q8.0, n);
        let w_up: DeferredBuf = self.weight_q8_0_raw(sh_q8.1, n);
        let w_down: DeferredBuf = self.weight_q8_0_raw(sh_q8.2, n);
        self.stage_if(fine, crate::command::Stage::FfnMoeExperts);
        self.encode_shared_chain_q8_k(normed_k, &w_gate, &w_up, &w_down, d_embd, shared_dim, k)
    }
}

impl Trace {
    #[verifier::opaque]
    pub open spec fn shared_from_raw(
        self,
        fine: bool,
        normed_k: DeferredBuf,
        sh_q8: (HostRef, HostRef, HostRef),
        shared_dim: u64,
        d_embd: u64,
        k: u64,
    ) -> (Trace, Result<DeferredBuf, EncodeError>) {
        let n = (shared_dim * d_embd) as u64;
        let (t, w_gate) = self.weight_q8_0_raw(sh_q8.0, n);
        let (t, w_up) = t.weight_q8_0_raw(sh_q8.1, n);
        let (t, w_down) = t.weight_q8_0_raw(sh_q8.2, n);
        t.stage_if(fine, crate::command::Stage::FfnMoeExperts).encode_shared_chain_q8_k(
            normed_k,
            w_gate,
            w_up,
            w_down,
            d_embd,
            shared_dim,
            k,
        )
    }
}

} // verus!
