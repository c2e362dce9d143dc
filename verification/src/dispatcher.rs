//! The dispatcher: opens scopes, and runs two short chains in one scope each.

use crate::arith::{MAX_EXTENT, extent, times};
use crate::command::{DeferredBuf, F32, HostRef};
use crate::config::{Config, Engine, LayerParams};
use crate::error::{Check, EncodeError, refusal, unfit};
use crate::norm::rope_fits;
use crate::pool::PoolState;
use crate::scope::{BatchScope, Recording};
use crate::trace::{RecordingView, Trace};
use vstd::prelude::*;

verus! {

/// What scopes are opened against.
pub struct MetalDispatcher {
    pub engine: Engine,
    pub config: Config,
    /// The pool that the last recording left.
    pub pools: PoolState,
}

fn copy_all<T: Copy>(v: &Vec<T>) -> (r: Vec<T>)
    ensures
        r@ == v@,
{
    let mut out: Vec<T> = Vec::new();
    let mut i: usize = 0;
    while i < v.len()
        invariant
            i <= v@.len(),
            out@ == v@.take(i as int),
        decreases v@.len() - i,
    {
        out.push(v[i]);
        i = i + 1;
        assert(out@ =~= v@.take(i as int));
    }
    assert(v@.take(v@.len() as int) =~= v@);
    out
}

/// What [`MetalDispatcher::attn_qkv_chain_batched`] records in a fresh scope.
pub open spec fn qkv_recording(
    start: Trace,
    normed: HostRef,
    attn_q_a: HostRef,
    gamma_q: HostRef,
    n_lora_q: u64,
    attn_q_b: HostRef,
    n_head: u64,
    head_dim: u64,
    eps: F32,
    attn_kv: HostRef,
    kv_row: u64,
) -> Result<RecordingView, EncodeError> {
    let d_embd = normed.len;
    let q_dim = (n_head * head_dim) as u64;
    if attn_q_a.len != n_lora_q * d_embd {
        Err(EncodeError::Shape(refusal(Check::WeightLen, attn_q_a.len as int, n_lora_q * d_embd)))
    } else if gamma_q.len != n_lora_q {
        Err(EncodeError::Shape(refusal(Check::GammaLen, gamma_q.len as int, n_lora_q as int)))
    } else if attn_q_b.len != q_dim * n_lora_q {
        Err(
            EncodeError::Shape(
                refusal(Check::SecondWeightLen, attn_q_b.len as int, q_dim * n_lora_q),
            ),
        )
    } else if attn_kv.len != kv_row * d_embd {
        Err(EncodeError::Shape(refusal(Check::ThirdWeightLen, attn_kv.len as int, kv_row * d_embd)))
    } else if head_dim < 1 {
        Err(EncodeError::Shape(refusal(Check::HeadDim, head_dim as int, 1)))
    } else {
        let (t, x) = start.upload_f32(normed);
        let (t, w_qa) = t.weight_f32(attn_q_a);
        let (t, g) = t.upload_f32(gamma_q);
        let (t, w_qb) = t.weight_f32(attn_q_b);
        let (t, w_kv) = t.weight_f32(attn_kv);
        let (t, qr) = t.matvec_f32(w_qa, x, d_embd, n_lora_q);
        if qr is Err {
            Err(qr->Err_0)
        } else {
            let (t, qr_normed) = t.rms_norm_mul(qr->Ok_0, g, eps);
            if qr_normed is Err {
                Err(qr_normed->Err_0)
            } else {
                let (t, raw) = t.matvec_f32(w_qb, qr_normed->Ok_0, n_lora_q, q_dim);
                if raw is Err {
                    Err(raw->Err_0)
                } else {
                    let (t, heads) = t.head_rms_norm(raw->Ok_0, n_head, head_dim, eps);
                    if heads is Err {
                        Err(heads->Err_0)
                    } else {
                        let (t, kv) = t.matvec_f32(w_kv, x, d_embd, kv_row);
                        if kv is Err {
                            Err(kv->Err_0)
                        } else {
                            Ok(
                                t.flush_and_read_multi(
                                    seq![qr_normed->Ok_0, heads->Ok_0, kv->Ok_0],
                                ).recording(),
                            )
                        }
                    }
                }
            }
        }
    }
}

/// What [`MetalDispatcher::kv_norm_rope_chain`] records in a fresh scope.
pub open spec fn kv_recording(
    start: Trace,
    kv_raw_row: HostRef,
    gamma_kv: HostRef,
    params: LayerParams,
    pos: u32,
    eps: F32,
) -> Result<RecordingView, EncodeError> {
    if kv_raw_row.len != params.n_lora_kv {
        Err(
            EncodeError::Shape(
                refusal(Check::InputLen, kv_raw_row.len as int, params.n_lora_kv as int),
            ),
        )
    } else if gamma_kv.len != params.n_lora_kv {
        Err(
            EncodeError::Shape(
                refusal(Check::GammaLen, gamma_kv.len as int, params.n_lora_kv as int),
            ),
        )
    } else if params.n_lora_kv < params.n_rot {
        Err(
            EncodeError::Shape(
                refusal(Check::RotaryDim, params.n_lora_kv as int, params.n_rot as int),
            ),
        )
    } else {
        let (t, x) = start.upload_f32(kv_raw_row);
        let (t, g) = t.upload_f32(gamma_kv);
        let (t, normed) = t.rms_norm_mul(x, g, eps);
        if normed is Err {
            Err(normed->Err_0)
        } else {
            let (t, r) = t.rope_tail_in_place(
                normed->Ok_0,
                ((params.n_lora_kv - params.n_rot) * 4) as u64,
                1,
                params,
                pos,
                false,
            );
            if r is Err {
                Err(r->Err_0)
            } else {
                Ok(t.flush_and_read(normed->Ok_0).recording())
            }
        }
    }
}

/// A recording, or the error that stopped it.
pub open spec fn same_outcome(
    r: Result<Recording, EncodeError>,
    s: Result<RecordingView, EncodeError>,
) -> bool {
    match (r, s) {
        (Ok(a), Ok(b)) => a@ == b,
        (Err(a), Err(b)) => a == b,
        _ => false,
    }
}

impl MetalDispatcher {
    /// What a scope of this dispatcher starts from.
    pub open spec fn start(&self) -> Trace {
        Trace::start(self.engine@, self.config, self.pools@)
    }

    /// Opens a scope. Each scope stands for one submission.
    pub fn batch_scope(&self) -> (r: BatchScope)
        ensures
            r@ == self.start(),
    {
        let engine: Engine = Engine {
            loaded: copy_all(&self.engine.loaded),
            experts: copy_all(&self.engine.experts),
            expert_caches: copy_all(&self.engine.expert_caches),
            chunk_pool: self.engine.chunk_pool,
            router_scale: self.engine.router_scale,
            attn_out_low_k: self.engine.attn_out_low_k,
        };
        let pools: PoolState = PoolState {
            entries: copy_all(&self.pools.entries),
            carrier: self.pools.carrier,
            phase: self.pools.phase,
            attn_key: self.pools.attn_key,
            requant: copy_all(&self.pools.requant),
            chunk_layer: self.pools.chunk_layer,
        };
        BatchScope::new(engine, self.config, pools)
    }

    /// The query and key-value chain of one position in one submission. The
    /// normalised low-rank query, the query heads and the key-value row are
    /// read back, in that order.
    pub fn attn_qkv_chain_batched(
        &self,
        normed: HostRef,
        attn_q_a: HostRef,
        gamma_q: HostRef,
        n_lora_q: u64,
        attn_q_b: HostRef,
        n_head: u64,
        head_dim: u64,
        eps: F32,
        attn_kv: HostRef,
        kv_row: u64,
    ) -> (r: Result<Recording, EncodeError>)
        requires
            extent(normed.len),
            extent(n_lora_q),
            extent(n_head),
            extent(head_dim),
            extent(kv_row),
            n_head * head_dim <= MAX_EXTENT,
            self.config.trap_zero_weight ==> attn_q_a.len > 0 && attn_q_b.len > 0 && attn_kv.len
                > 0,
        ensures
            same_outcome(
                r,
                qkv_recording(
                    self.start(),
                    normed,
                    attn_q_a,
                    gamma_q,
                    n_lora_q,
                    attn_q_b,
                    n_head,
                    head_dim,
                    eps,
                    attn_kv,
                    kv_row,
                ),
            ),
    {
        let d_embd: u64 = normed.len;
        let q_dim: u64 = times(n_head, head_dim);
        if attn_q_a.len != times(n_lora_q, d_embd) {
            return Err(unfit(Check::WeightLen, attn_q_a.len, times(n_lora_q, d_embd)));
        }
        if gamma_q.len != n_lora_q {
            return Err(unfit(Check::GammaLen, gamma_q.len, n_lora_q));
        }
        if attn_q_b.len != times(q_dim, n_lora_q) {
            return Err(unfit(Check::SecondWeightLen, attn_q_b.len, times(q_dim, n_lora_q)));
        }
        if attn_kv.len != times(kv_row, d_embd) {
            return Err(unfit(Check::ThirdWeightLen, attn_kv.len, times(kv_row, d_embd)));
        }
        if head_dim < 1 {
            return Err(unfit(Check::HeadDim, head_dim, 1));
        }
        let mut scope: BatchScope = self.batch_scope();
        let x: DeferredBuf = scope.upload_f32(normed);
        let w_qa: DeferredBuf = scope.weight_f32(attn_q_a);
        let g: DeferredBuf = scope.upload_f32(gamma_q);
        let w_qb: DeferredBuf = scope.weight_f32(attn_q_b);
        let w_kv: DeferredBuf = scope.weight_f32(attn_kv);
        let qr: DeferredBuf = scope.matvec_f32(&w_qa, &x, d_embd, n_lora_q)?;
        let qr_normed: DeferredBuf = scope.rms_norm_mul(&qr, &g, eps)?;
        let q_heads_raw: DeferredBuf = scope.matvec_f32(&w_qb, &qr_normed, n_lora_q, q_dim)?;
        let q_heads: DeferredBuf = scope.head_rms_norm(&q_heads_raw, n_head, head_dim, eps)?;
        let kv_raw_row: DeferredBuf = scope.matvec_f32(&w_kv, &x, d_embd, kv_row)?;
        let mut outs: Vec<DeferredBuf> = Vec::new();
        outs.push(qr_normed);
        outs.push(q_heads);
        outs.push(kv_raw_row);
        assert(outs@ =~= seq![qr_normed, q_heads, kv_raw_row]);
        Ok(scope.flush_and_read_multi(outs.as_slice()))
    }

    /// The normalised and rotated key-value row of one position in one
    /// submission. The row is read back.
    pub fn kv_norm_rope_chain(
        &self,
        kv_raw_row: HostRef,
        qkv_gamma_kv: HostRef,
        params: &LayerParams,
        pos: u32,
        eps_rms: F32,
    ) -> (r: Result<Recording, EncodeError>)
        requires
            extent(params.n_lora_kv as u64),
            rope_fits(params.n_rot as int, 1),
        ensures
            same_outcome(
                r,
                kv_recording(self.start(), kv_raw_row, qkv_gamma_kv, *params, pos, eps_rms),
            ),
    {
        if kv_raw_row.len != params.n_lora_kv as u64 {
            return Err(unfit(Check::InputLen, kv_raw_row.len, params.n_lora_kv as u64));
        }
        if qkv_gamma_kv.len != params.n_lora_kv as u64 {
            return Err(unfit(Check::GammaLen, qkv_gamma_kv.len, params.n_lora_kv as u64));
        }
        if params.n_lora_kv < params.n_rot {
            return Err(unfit(Check::RotaryDim, params.n_lora_kv as u64, params.n_rot as u64));
        }
        let mut scope: BatchScope = self.batch_scope();
        let x: DeferredBuf = scope.upload_f32(kv_raw_row);
        let g: DeferredBuf = scope.upload_f32(qkv_gamma_kv);
        let kv_normed: DeferredBuf = scope.rms_norm_mul(&x, &g, eps_rms)?;
        let tail: u64 = (params.n_lora_kv - params.n_rot) as u64 * 4;
        scope.rope_tail_in_place(&kv_normed, tail, 1, params, pos, false)?;
        Ok(scope.flush_and_read(&kv_normed))
    }
}

} // verus!
