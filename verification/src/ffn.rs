//! The feed-forward half of a layer, and the whole layer.

use crate::arith::{MAX_EXTENT, elements, extent, times};
use crate::command::{Command, DeferredBuf, Dump, F32, HashWeights, HostRef, Stage};
use crate::config::{CompVerifyCtx, Config, LayerAttnHalfOutsK, LayerParams, MoePath};
use crate::error::{Check, EncodeError, unfit};
use crate::hc::{Collapsed, carried, streams};
use crate::kernel::{Kernel, Pipe};
use crate::layer::{AttnOutput, AttnShape, AttnWeights, Place, is_layer, place_fits};
use crate::moe::{MoeOuts, experts_fit};
use crate::pool::PoolKey;
use crate::router::Routed;
use crate::scope::BatchScope;
use crate::trace::Trace;
use vstd::arithmetic::div_mod::lemma_fundamental_div_mod_converse;
use vstd::prelude::*;

verus! {

broadcast use {crate::trace::group_encodes, crate::trace::group_extends};

/// The weights of the feed-forward half of a layer.
#[derive(Clone, Copy, PartialEq, Eq, Structural, Debug)]
pub struct FfnWeights {
    pub hc_fn: DeferredBuf,
    pub hc_fn_is_f16: bool,
    pub hc_scale: DeferredBuf,
    pub hc_base: DeferredBuf,
    pub hc_norm_gamma: DeferredBuf,
    pub unit_gamma_hc: DeferredBuf,
    pub router: DeferredBuf,
    pub router_is_f16: bool,
    pub router_bias: DeferredBuf,
    pub sh_gate: HostRef,
    pub sh_up: HostRef,
    pub sh_down: HostRef,
    pub sh_gate_q8: HostRef,
    pub sh_up_q8: HostRef,
    pub sh_down_q8: HostRef,
}

/// The dimensions of the feed-forward half of a layer.
#[derive(Clone, Copy, PartialEq, Eq, Structural, Debug)]
pub struct FfnShape {
    pub n_hc: u64,
    pub n_embd: u64,
    pub n_experts: u64,
    pub d_ffn: u64,
    pub shared_dim: u32,
    pub sinkhorn_iters: i32,
    pub hc_eps: F32,
    pub rms_eps: F32,
}

impl FfnShape {
    /// The dimensions fit the kernels and the buffers.
    pub open spec fn fits(self, k: u64) -> bool {
        &&& streams(self.n_hc)
        &&& extent(self.n_embd)
        &&& extent(self.n_experts)
        &&& extent(self.shared_dim as u64)
        &&& extent(k)
        &&& self.n_hc * self.n_embd <= MAX_EXTENT
        &&& elements(k * self.n_hc * self.n_embd)
        &&& elements(k * self.n_embd)
        &&& elements(k * self.shared_dim)
    }
}

/// A routing table, the tokens of the step, and the experts of a table row.
pub type HashRoute<'a> = (&'a [i32], &'a [i32], u64);

/// How the routed experts of a step are computed.
#[derive(Clone, Copy, PartialEq, Eq, Structural, Debug)]
pub enum MoeChoice {
    /// Gathered by expert.
    ByExpert,
    /// In two launches.
    Fused,
    /// Position by position.
    ByPosition,
}

/// Long steps and streamed experts are gathered by expert.
pub open spec fn spec_choice(config: Config, k: u64) -> MoeChoice {
    if config.moe_path == MoePath::MmId || config.ssd_stream || (config.moe_path == MoePath::Unset
        && k >= 128) {
        MoeChoice::ByExpert
    } else if config.moe_path == MoePath::Fused {
        MoeChoice::Fused
    } else {
        MoeChoice::ByPosition
    }
}

/// Whether the table has a row for a token.
pub open spec fn has_row(table_len: int, token: int, k_used: int) -> bool {
    k_used == 0 || (token >= 0 && (token + 1) * k_used <= table_len)
}

/// The table rows of the tokens, cut or filled up with zeros to `cols` columns.
pub open spec fn spec_rows(table: Seq<i32>, tokens: Seq<i32>, k_used: int, cols: int) -> Seq<u32> {
    Seq::new(
        (tokens.len() * cols) as nat,
        |i: int|
            if i % cols < k_used {
                table[tokens[i / cols] * k_used + i % cols] as u32
            } else {
                0
            },
    )
}

proof fn lemma_index(row: int, col: int, cols: int)
    requires
        0 <= col < cols,
    ensures
        (row * cols + col) / cols == row,
        (row * cols + col) % cols == col,
{
    lemma_fundamental_div_mod_converse(row * cols + col, cols, row, col);
}

/// The table rows of the tokens, cut or filled up with zeros to `cols` columns.
pub fn table_rows(table: &[i32], tokens: &[i32], k_used: u64, cols: u64) -> (r: Vec<u32>)
    requires
        forall|i: int|
            0 <= i < tokens@.len() ==> has_row(
                table@.len() as int,
                #[trigger] tokens@[i] as int,
                k_used as int,
            ),
    ensures
        r@ == spec_rows(table@, tokens@, k_used as int, cols as int),
{
    let mut v: Vec<u32> = Vec::new();
    let mut row: usize = 0;
    let ghost goal = spec_rows(table@, tokens@, k_used as int, cols as int);
    assert(0 * cols == 0);
    while row < tokens.len()
        invariant
            row <= tokens@.len(),
            v@.len() == row * cols,
            forall|i: int|
                0 <= i < tokens@.len() ==> has_row(
                    table@.len() as int,
                    #[trigger] tokens@[i] as int,
                    k_used as int,
                ),
            goal == spec_rows(table@, tokens@, k_used as int, cols as int),
            forall|i: int| 0 <= i < v@.len() ==> #[trigger] v@[i] == goal[i],
        decreases tokens@.len() - row,
    {
        let mut col: u64 = 0;
        assert(row * cols + cols <= tokens@.len() * cols) by (nonlinear_arith)
            requires
                row + 1 <= tokens@.len(),
                0 <= cols,
        ;
        while col < cols
            invariant
                row < tokens@.len(),
                col <= cols,
                v@.len() == row * cols + col,
                row * cols + cols <= tokens@.len() * cols,
                has_row(table@.len() as int, tokens@[row as int] as int, k_used as int),
                goal == spec_rows(table@, tokens@, k_used as int, cols as int),
                forall|i: int| 0 <= i < v@.len() ==> #[trigger] v@[i] == goal[i],
            decreases cols - col,
        {
            proof {
                lemma_index(row as int, col as int, cols as int);
                assert(0 <= row * cols) by (nonlinear_arith);
            }
            let ghost before = v@;
            if col < k_used {
                let token: i32 = tokens[row];
                assert(0 <= token * k_used && token * k_used + k_used <= table@.len())
                    by (nonlinear_arith)
                    requires
                        token >= 0,
                        (token + 1) * k_used <= table@.len(),
                        k_used >= 0,
                ;
                let len: usize = table.len();
                let at: u64 = token as u64 * k_used + col;
                assert(at < len);
                v.push(table[at as usize] as u32);
            } else {
                v.push(0);
            }
            assert(forall|i: int| 0 <= i < v@.len() ==> #[trigger] v@[i] == goal[i]) by {
                assert forall|i: int| 0 <= i < v@.len() implies #[trigger] v@[i] == goal[i] by {
                    if i < before.len() {
                        assert(v@[i] == before[i]);
                    }
                }
            }
            col = col + 1;
        }
        assert((row + 1) * cols == row * cols + cols) by (nonlinear_arith);
        row = row + 1;
    }
    assert(v@ =~= goal);
    v
}

/// The first token from place `i` on for which the table has no row.
pub open spec fn spec_stray(table_len: int, tokens: Seq<i32>, k_used: int, i: int) -> Option<i32>
    decreases tokens.len() - i,
{
    if i >= tokens.len() || i < 0 {
        None
    } else if !has_row(table_len, tokens[i] as int, k_used) {
        Some(tokens[i])
    } else {
        spec_stray(table_len, tokens, k_used, i + 1)
    }
}

/// No token is without a row where every token has one, and only there.
proof fn lemma_stray(table_len: int, tokens: Seq<i32>, k_used: int, i: int)
    requires
        0 <= i <= tokens.len(),
        forall|j: int| 0 <= j < i ==> has_row(table_len, #[trigger] tokens[j] as int, k_used),
    ensures
        spec_stray(table_len, tokens, k_used, i) is None <==> (forall|j: int|
            0 <= j < tokens.len() ==> has_row(table_len, #[trigger] tokens[j] as int, k_used)),
    decreases tokens.len() - i,
{
    if i < tokens.len() && has_row(table_len, tokens[i] as int, k_used) {
        lemma_stray(table_len, tokens, k_used, i + 1);
    }
}

/// The first token for which the table has no row.
pub fn stray_token(table_len: usize, tokens: &[i32], k_used: u64) -> (r: Option<i32>)
    ensures
        r == spec_stray(table_len as int, tokens@, k_used as int, 0),
        r is None <==> (forall|i: int|
            0 <= i < tokens@.len() ==> has_row(
                table_len as int,
                #[trigger] tokens@[i] as int,
                k_used as int,
            )),
{
    proof {
        lemma_stray(table_len as int, tokens@, k_used as int, 0);
    }
    let mut i: usize = 0;
    while i < tokens.len()
        invariant
            i <= tokens@.len(),
            spec_stray(table_len as int, tokens@, k_used as int, 0) == spec_stray(
                table_len as int,
                tokens@,
                k_used as int,
                i as int,
            ),
        decreases tokens@.len() - i,
    {
        if !row_of(table_len, tokens[i], k_used) {
            return Some(tokens[i]);
        }
        i = i + 1;
    }
    None
}

fn row_of(table_len: usize, token: i32, k_used: u64) -> (r: bool)
    ensures
        r == has_row(table_len as int, token as int, k_used as int),
{
    if k_used == 0 {
        return true;
    }
    if token < 0 {
        return false;
    }
    let rows: u64 = table_len as u64 / k_used;
    assert((token + 1) * k_used <= table_len <==> token + 1 <= rows) by (nonlinear_arith)
        requires
            k_used > 0,
            token >= 0,
            rows == table_len as u64 / k_used,
            table_len as u64 == table_len,
    ;
    token as u64 + 1 <= rows
}

/// Six factors to a position, as many as were computed and zeros behind them.
pub open spec fn spec_factor_rows(factors: Seq<Vec<F32>>, k_used: int) -> Seq<F32> {
    Seq::new(
        (factors.len() * 6) as nat,
        |i: int|
            if i % 6 < k_used {
                factors[i / 6]@[i % 6]
            } else {
                F32(0)
            },
    )
}

/// Six factors to a position, as many as were computed and zeros behind them.
pub fn factor_rows(factors: &[Vec<F32>], k_used: u64) -> (r: Vec<F32>)
    requires
        forall|i: int|
            0 <= i < factors@.len() ==> (#[trigger] factors@[i])@.len() >= k_used
                || factors@[i]@.len() >= 6,
    ensures
        r@ == spec_factor_rows(factors@, k_used as int),
{
    let mut v: Vec<F32> = Vec::new();
    let mut row: usize = 0;
    while row < factors.len()
        invariant
            row <= factors@.len(),
            v@.len() == row * 6,
            forall|i: int|
                0 <= i < factors@.len() ==> (#[trigger] factors@[i])@.len() >= k_used
                    || factors@[i]@.len() >= 6,
            forall|i: int|
                0 <= i < v@.len() ==> #[trigger] v@[i] == spec_factor_rows(
                    factors@,
                    k_used as int,
                )[i],
        decreases factors@.len() - row,
    {
        let mut col: usize = 0;
        while col < 6
            invariant
                row < factors@.len(),
                col <= 6,
                v@.len() == row * 6 + col,
                factors@[row as int]@.len() >= k_used || factors@[row as int]@.len() >= 6,
                forall|i: int|
                    0 <= i < v@.len() ==> #[trigger] v@[i] == spec_factor_rows(
                        factors@,
                        k_used as int,
                    )[i],
            decreases 6 - col,
        {
            let ghost before = v@;
            if (col as u64) < k_used {
                v.push(factors[row][col]);
            } else {
                v.push(F32(0));
            }
            assert forall|i: int| 0 <= i < v@.len() implies #[trigger] v@[i] == spec_factor_rows(
                factors@,
                k_used as int,
            )[i] by {
                if i < before.len() {
                    assert(v@[i] == before[i]);
                }
            }
            col = col + 1;
        }
        row = row + 1;
    }
    assert(v@ =~= spec_factor_rows(factors@, k_used as int));
    v
}

impl Trace {
    /// The streaming pool is filled for the layer where it holds another. What is
    /// queued may still read it, so that is waited for first.
    #[verifier::opaque]
    pub open spec fn refill_pool(self, layer: u32) -> Trace {
        if self.config.ssd_stream && self.pools.chunk_layer != Some(layer) {
            self.commit_wait_stage(Stage::SsdChunkPool).fill_pool(
                layer,
                layer + 1 < self.engine.experts.len(),
            )
        } else {
            self
        }
    }

    /// The experts that a table chooses, and their factors.
    #[verifier::opaque]
    pub open spec fn route_by_table(
        self,
        probs_k: DeferredBuf,
        n_experts: u64,
        k: u64,
        table: Seq<i32>,
        tokens: Seq<i32>,
        k_used: u64,
    ) -> (Trace, Result<Routed, EncodeError>) {
        if tokens.len() != k {
            self.refuse(Check::TokenCount, tokens.len() as int, k as int)
        } else if spec_stray(table.len() as int, tokens, k_used as int, 0) is Some {
            (
                self,
                Err(
                    EncodeError::NoTableRow {
                        token: spec_stray(table.len() as int, tokens, k_used as int, 0)->Some_0,
                        k_used,
                        table_len: table.len() as u64,
                    },
                ),
            )
        } else {
            let n = (k * 6) as u64;
            let (t, start) = self.add_words(spec_rows(table, tokens, k_used as int, 6));
            let (t, sel) = t.make(Command::UploadWords { start, len: n }, n);
            if self.config.hash_gpu && k_used == 6 && self.has(Kernel::RouterWeightsK) {
                let (t, wt) = t.pooled_scratch_f32(PoolKey::RouterWtK, n);
                (
                    t.put(Command::Encoder).put(
                        Command::Pipeline(Pipe::Loaded(Kernel::RouterWeightsK)),
                    ).buf_at(0, probs_k.buf).buf_at(1, sel.buf).buf_at(2, wt.buf).u32_at(
                        3,
                        k_used as u32,
                    ).u32_at(4, n_experts as u32).f32_at(5, self.engine.router_scale).f32_at(
                        6,
                        F32(0x3880_0000),
                    ).put(Command::Dispatch((k, 1, 1), (6, 1, 1))).put(Command::EndEncoder),
                    Ok((sel, wt)),
                )
            } else {
                let t = t.commit_wait_read_multi(seq![probs_k]);
                let (t, start) = t.add_words(
                    spec_rows(table, tokens, k_used as int, k_used as int),
                );
                let (t, wt) = t.make(
                    Command::HashWeights(
                        HashWeights {
                            probs: probs_k.buf,
                            n_experts,
                            experts_start: start,
                            k_positions: k,
                            k_used,
                        },
                    ),
                    n,
                );
                (t, Ok((sel, wt)))
            }
        }
    }

    /// The routed experts and their factors, six to a position.
    #[verifier::opaque]
    pub open spec fn route_flat(self, probs_k: DeferredBuf, bias: DeferredBuf, k: u64) -> (
        Trace,
        Result<Routed, EncodeError>,
    ) {
        if self.config.batch_router {
            self.encode_router_finalize_flat_k(probs_k, bias, k)
        } else {
            let (t, r) = self.encode_router_finalize_k(probs_k, bias, k);
            if r is Err {
                t.failed(r)
            } else {
                let (t, flat) = t.flatten_router_output_k(r->Ok_0);
                (t, Ok(flat))
            }
        }
    }

    /// The routed and shared experts where a table routes.
    #[verifier::opaque]
    pub open spec fn moe_by_table(
        self,
        normed_k: DeferredBuf,
        probs_k: DeferredBuf,
        w: FfnWeights,
        shape: FfnShape,
        layer: u32,
        k: u64,
        table: Seq<i32>,
        tokens: Seq<i32>,
        k_used: u64,
    ) -> (Trace, Result<MoeOuts, EncodeError>) {
        let (t, route) = self.route_by_table(probs_k, shape.n_experts, k, table, tokens, k_used);
        if route is Err {
            t.failed(route)
        } else {
            let (t, moe) = t.encode_moe_chain_mm_qx_k_auto(
                layer,
                normed_k,
                route->Ok_0.0,
                route->Ok_0.1,
                shape.n_embd,
                shape.d_ffn,
                k,
            );
            if moe is Err {
                t.failed(moe)
            } else {
                let (t, shared) = t.shared_from_raw(
                    false,
                    normed_k,
                    (w.sh_gate_q8, w.sh_up_q8, w.sh_down_q8),
                    shape.shared_dim as u64,
                    shape.n_embd,
                    k,
                );
                if shared is Err {
                    t.failed(shared)
                } else {
                    (t, Ok((moe->Ok_0, shared->Ok_0)))
                }
            }
        }
    }

    /// The routed experts gathered by expert or fused, and the shared ones.
    #[verifier::opaque]
    pub open spec fn moe_flat(
        self,
        fused: bool,
        normed_k: DeferredBuf,
        probs_k: DeferredBuf,
        w: FfnWeights,
        shape: FfnShape,
        layer: u32,
        k: u64,
    ) -> (Trace, Result<MoeOuts, EncodeError>) {
        let fine = self.config.profile_fine;
        let (t, route) = self.route_flat(probs_k, w.router_bias, k);
        if route is Err {
            t.failed(route)
        } else {
            let (sel, wt) = route->Ok_0;
            let t = t.stage_if(fine, Stage::FfnRouter);
            let (t, moe) = if fused {
                let t = if self.config.expert_profile {
                    t.commit_wait_stage(Stage::MoeExpertProfile).put(
                        Command::ExpertProfile { layer, k, selected: sel.buf },
                    )
                } else {
                    t
                };
                t.encode_moe_chain_fused_K_auto(
                    layer,
                    normed_k,
                    sel,
                    wt,
                    shape.n_embd,
                    shape.d_ffn,
                    k,
                )
            } else {
                t.encode_moe_chain_mm_qx_k_auto(
                    layer,
                    normed_k,
                    sel,
                    wt,
                    shape.n_embd,
                    shape.d_ffn,
                    k,
                )
            };
            if moe is Err {
                t.failed(moe)
            } else {
                let (t, shared) = t.shared_from_raw(
                    fine,
                    normed_k,
                    (w.sh_gate_q8, w.sh_up_q8, w.sh_down_q8),
                    shape.shared_dim as u64,
                    shape.n_embd,
                    k,
                );
                if shared is Err {
                    t.failed(shared)
                } else {
                    (t.stage_if(fine, Stage::FfnShared), Ok((moe->Ok_0, shared->Ok_0)))
                }
            }
        }
    }

    /// The routed and shared experts position by position.
    #[verifier::opaque]
    pub open spec fn moe_by_position(
        self,
        normed_k: DeferredBuf,
        probs_k: DeferredBuf,
        w: FfnWeights,
        shape: FfnShape,
        layer: u32,
        k: u64,
    ) -> (Trace, Result<MoeOuts, EncodeError>) {
        let (t, routes) = self.encode_router_finalize_k(probs_k, w.router_bias, k);
        if routes is Err {
            t.failed(routes)
        } else {
            t.stage_if(self.config.profile_fine, Stage::FfnRouter).encode_moe_and_shared_chain_k(
                layer,
                normed_k,
                routes->Ok_0,
                shape.d_ffn,
                (w.sh_gate, w.sh_up, w.sh_down),
                shape.shared_dim,
                (w.sh_gate_q8, w.sh_up_q8, w.sh_down_q8),
                shape.n_embd,
                k,
            )
        }
    }

    /// The routed and shared experts of a step.
    #[verifier::opaque]
    pub open spec fn moe_step(
        self,
        normed_k: DeferredBuf,
        probs_k: DeferredBuf,
        w: FfnWeights,
        shape: FfnShape,
        layer: u32,
        k: u64,
        hash_route: Option<(Seq<i32>, Seq<i32>, u64)>,
    ) -> (Trace, Result<MoeOuts, EncodeError>) {
        match hash_route {
            Some((table, tokens, k_used)) => self.moe_by_table(
                normed_k,
                probs_k,
                w,
                shape,
                layer,
                k,
                table,
                tokens,
                k_used,
            ),
            None => match spec_choice(self.config, k) {
                MoeChoice::ByExpert => self.moe_flat(
                    false,
                    normed_k,
                    probs_k,
                    w,
                    shape,
                    layer,
                    k,
                ),
                MoeChoice::Fused => self.moe_flat(true, normed_k, probs_k, w, shape, layer, k),
                MoeChoice::ByPosition => self.moe_by_position(
                    normed_k,
                    probs_k,
                    w,
                    shape,
                    layer,
                    k,
                ),
            },
        }
    }

    /// A diagnostic: row one of the residual streams around the feed-forward half.
    #[verifier::opaque]
    pub open spec fn dump_residual(
        self,
        layer: u32,
        attn_out: DeferredBuf,
        after_attn: DeferredBuf,
        after_ffn: DeferredBuf,
        n_hc: u64,
        n_embd: u64,
        k: u64,
    ) -> Trace {
        if self.config.dump_resid_layer == Some(layer) && k >= 2 {
            let hc = (n_hc * n_embd) as u64;
            self.commit_wait_stage(Stage::DumpResidK).put(
                Command::DumpRow {
                    what: Dump::AttnOut,
                    layer,
                    buf: attn_out.buf,
                    first: n_embd,
                    n: n_embd,
                },
            ).put(
                Command::DumpRow {
                    what: Dump::AfterAttn,
                    layer,
                    buf: after_attn.buf,
                    first: hc,
                    n: hc,
                },
            ).put(
                Command::DumpRow {
                    what: Dump::AfterFfn,
                    layer,
                    buf: after_ffn.buf,
                    first: hc,
                    n: hc,
                },
            )
        } else {
            self
        }
    }

    #[verifier::opaque]
    pub open spec fn encode_ffn_chain_k(
        self,
        attn_out_k: DeferredBuf,
        cur_hc_k: DeferredBuf,
        attn_split_k: DeferredBuf,
        w: FfnWeights,
        shape: FfnShape,
        layer: u32,
        k: u64,
        hash_route: Option<(Seq<i32>, Seq<i32>, u64)>,
    ) -> (Trace, Result<DeferredBuf, EncodeError>) {
        let fine = self.config.profile_fine;
        let (t, after_attn) = self.hc_expand_attn_split_k(
            attn_out_k,
            cur_hc_k,
            attn_split_k,
            shape.n_hc,
            shape.n_embd,
            k,
        );
        if after_attn is Err {
            (t, after_attn)
        } else {
            let (t, col) = t.stage_if(fine, Stage::FfnHcExpandAttn).arm(
                PoolKey::HcFfnNormed,
            ).hc_collapse_norm_k(
                after_attn->Ok_0,
                w.hc_fn,
                w.hc_scale,
                w.hc_base,
                w.hc_norm_gamma,
                shape.n_hc,
                shape.n_embd,
                shape.sinkhorn_iters,
                shape.hc_eps,
                shape.rms_eps,
                w.unit_gamma_hc,
                k,
                w.hc_fn_is_f16,
            );
            if col is Err {
                t.failed(col)
            } else {
                let (split, _, normed) = col->Ok_0;
                let (t, probs) = t.stage_if(fine, Stage::FfnHcCollapse).encode_router_logits_k(
                    w.router,
                    normed,
                    shape.n_experts,
                    shape.n_embd,
                    k,
                    w.router_is_f16,
                );
                if probs is Err {
                    (t, probs)
                } else {
                    let (t, outs) = t.refill_pool(layer).moe_step(
                        normed,
                        probs->Ok_0,
                        w,
                        shape,
                        layer,
                        k,
                        hash_route,
                    );
                    if outs is Err {
                        t.failed(outs)
                    } else {
                        let (moe, shared) = outs->Ok_0;
                        let (t, after_ffn) = t.hc_expand_add_split_k(
                            shared,
                            moe,
                            after_attn->Ok_0,
                            split,
                            shape.n_hc,
                            shape.n_embd,
                            k,
                        );
                        if after_ffn is Err || hash_route is Some {
                            (t, after_ffn)
                        } else {
                            (
                                t.dump_residual(
                                    layer,
                                    attn_out_k,
                                    after_attn->Ok_0,
                                    after_ffn->Ok_0,
                                    shape.n_hc,
                                    shape.n_embd,
                                    k,
                                ),
                                after_ffn,
                            )
                        }
                    }
                }
            }
        }
    }

    #[verifier::opaque]
    pub open spec fn encode_layer_k(
        self,
        prev_hc_k: DeferredBuf,
        aw: AttnWeights,
        ashape: AttnShape,
        out: AttnOutput,
        place: Place,
        comp: Option<CompVerifyCtx>,
        fw: FfnWeights,
        fshape: FfnShape,
    ) -> (Trace, Result<DeferredBuf, EncodeError>) {
        let prof = self.config.layer_profile;
        let (t, attn) = self.encode_attn_chain_k(prev_hc_k, aw, ashape, out, place, comp);
        if attn is Err {
            t.failed(attn)
        } else {
            let (half, attn_out) = attn->Ok_0;
            let (t, r) = t.stage_if(prof, Stage::LayerAttnHalf).encode_ffn_chain_k(
                attn_out,
                prev_hc_k,
                half.split_k,
                fw,
                fshape,
                place.layer,
                place.k,
                None,
            );
            if r is Err {
                (t, r)
            } else {
                (t.stage_if(prof, Stage::LayerFfnHalf), r)
            }
        }
    }
}

/// A table's factors are computed on the device, or there is no table.
pub open spec fn by_device(t: Trace, h: Option<(Seq<i32>, Seq<i32>, u64)>) -> bool {
    h matches Some((_, _, k_used)) ==> t.config.hash_gpu && k_used == 6 && t.has(
        Kernel::RouterWeightsK,
    )
}

/// A routing table as the contracts speak of it.
pub open spec fn route_view(h: Option<HashRoute<'_>>) -> Option<(Seq<i32>, Seq<i32>, u64)> {
    match h {
        Some((table, tokens, k_used)) => Some((table@, tokens@, k_used)),
        None => None,
    }
}

impl BatchScope {
    fn refill_pool(&mut self, layer: u32)
        ensures
            final(self)@ == old(self)@.refill_pool(layer),
            final(self)@.extends(old(self)@),
            final(self)@.pools.carrier == old(self)@.pools.carrier,
            !old(self)@.config.ssd_stream ==> final(self)@.encodes(old(self)@),
    {
        proof {
            reveal(Trace::refill_pool);
        }
        if self.config.ssd_stream && !self.streams(layer) {
            let prefetch_next: bool = (layer as u64 + 1) < self.engine.experts.len() as u64;
            self.commit_wait_stage(Stage::SsdChunkPool);
            self.fill_pool(layer, prefetch_next);
        }
    }

    fn route_by_table(
        &mut self,
        probs_k: &DeferredBuf,
        n_experts: u64,
        k: u64,
        table: &[i32],
        tokens: &[i32],
        k_used: u64,
    ) -> (r: Result<Routed, EncodeError>)
        requires
            extent(n_experts),
            extent(k),
        ensures
            (final(self)@, r) == old(self)@.route_by_table(
                *probs_k,
                n_experts,
                k,
                table@,
                tokens@,
                k_used,
            ),
            r matches Ok(b) ==> b.0.n_elements == k * 6 && b.1.n_elements == k * 6,
            final(self)@.extends(old(self)@),
            final(self)@.pools.carrier == old(self)@.pools.carrier,
            by_device(old(self)@, Some((table@, tokens@, k_used))) ==> final(self)@.encodes(old(self)@),
    {
        proof {
            reveal(Trace::route_by_table);
        }
        if tokens.len() as u64 != k {
            return Err(unfit(Check::TokenCount, tokens.len() as u64, k));
        }
        if let Some(token) = stray_token(table.len(), tokens, k_used) {
            return Err(EncodeError::NoTableRow { token, k_used, table_len: table.len() as u64 });
        }
        let n: u64 = k * 6;
        let on_device: bool = self.config.hash_gpu && k_used == 6 && self.has(
            Kernel::RouterWeightsK,
        );
        let scale: F32 = self.engine.router_scale;
        let rows: Vec<u32> = table_rows(table, tokens, k_used, 6);
        let start: u64 = self.add_words(rows.as_slice());
        let sel: DeferredBuf = self.make(Command::UploadWords { start, len: n }, n);
        if on_device {
            let wt: DeferredBuf = self.pooled_scratch_f32(PoolKey::RouterWtK, n);
            self.put(Command::Encoder);
            self.put(Command::Pipeline(Pipe::Loaded(Kernel::RouterWeightsK)));
            self.buf_at(0, probs_k.buf);
            self.buf_at(1, sel.buf);
            self.buf_at(2, wt.buf);
            self.u32_at(3, k_used as u32);
            self.u32_at(4, n_experts as u32);
            self.f32_at(5, scale);
            self.f32_at(6, F32(0x3880_0000));
            self.put(Command::Dispatch((k, 1, 1), (6, 1, 1)));
            self.put(Command::EndEncoder);
            Ok((sel, wt))
        } else {
            let mut outputs: Vec<DeferredBuf> = Vec::new();
            outputs.push(*probs_k);
            assert(outputs@ =~= seq![*probs_k]);
            self.commit_wait_read_multi(outputs.as_slice());
            let all: Vec<u32> = table_rows(table, tokens, k_used, k_used);
            let experts_start: u64 = self.add_words(all.as_slice());
            let wt: DeferredBuf = self.make(
                Command::HashWeights(
                    HashWeights {
                        probs: probs_k.buf,
                        n_experts,
                        experts_start,
                        k_positions: k,
                        k_used,
                    },
                ),
                n,
            );
            Ok((sel, wt))
        }
    }

    fn route_flat(&mut self, probs_k: &DeferredBuf, bias: &DeferredBuf, k: u64) -> (r: Result<
        Routed,
        EncodeError,
    >)
        requires
            extent(k),
        ensures
            (final(self)@, r) == old(self)@.route_flat(*probs_k, *bias, k),
            r matches Ok(b) ==> b.0.n_elements == k * 6 && b.1.n_elements == k * 6,
            final(self)@.encodes(old(self)@),
            final(self)@.pools.carrier == old(self)@.pools.carrier,
    {
        proof {
            reveal(Trace::route_flat);
        }
        if self.config.batch_router {
            self.encode_router_finalize_flat_k(probs_k, bias, k)
        } else {
            let routes: Vec<Routed> = self.encode_router_finalize_k(probs_k, bias, k)?;
            self.flatten_router_output_k(routes.as_slice())
        }
    }

    fn moe_by_table(
        &mut self,
        normed_k: &DeferredBuf,
        probs_k: &DeferredBuf,
        w: &FfnWeights,
        shape: FfnShape,
        layer: u32,
        k: u64,
        table: &[i32],
        tokens: &[i32],
        k_used: u64,
    ) -> (r: Result<MoeOuts, EncodeError>)
        requires
            shape.fits(k),
            experts_fit(
                old(self)@.engine,
                old(self)@.config,
                layer,
                shape.n_embd,
                shape.d_ffn,
                k,
            ),
        ensures
            (final(self)@, r) == old(self)@.moe_by_table(
                *normed_k,
                *probs_k,
                *w,
                shape,
                layer,
                k,
                table@,
                tokens@,
                k_used,
            ),
            final(self)@.extends(old(self)@),
            final(self)@.pools.carrier == old(self)@.pools.carrier,
            old(self)@.config.quiet() && by_device(old(self)@, Some((table@, tokens@, k_used))) ==> final(self)@.encodes(old(self)@),
    {
        proof {
            reveal(Trace::moe_by_table);
        }
        let (sel, wt): Routed = self.route_by_table(
            probs_k,
            shape.n_experts,
            k,
            table,
            tokens,
            k_used,
        )?;
        let moe: DeferredBuf = self.encode_moe_chain_mm_qx_k_auto(
            layer,
            normed_k,
            &sel,
            &wt,
            shape.n_embd,
            shape.d_ffn,
            k,
        )?;
        let shared: DeferredBuf = self.shared_from_raw(
            false,
            normed_k,
            (w.sh_gate_q8, w.sh_up_q8, w.sh_down_q8),
            shape.shared_dim as u64,
            shape.n_embd,
            k,
        )?;
        Ok((moe, shared))
    }

    fn moe_flat(
        &mut self,
        fused: bool,
        normed_k: &DeferredBuf,
        probs_k: &DeferredBuf,
        w: &FfnWeights,
        shape: FfnShape,
        layer: u32,
        k: u64,
    ) -> (r: Result<MoeOuts, EncodeError>)
        requires
            shape.fits(k),
            experts_fit(
                old(self)@.engine,
                old(self)@.config,
                layer,
                shape.n_embd,
                shape.d_ffn,
                k,
            ),
        ensures
            (final(self)@, r) == old(self)@.moe_flat(
                fused,
                *normed_k,
                *probs_k,
                *w,
                shape,
                layer,
                k,
            ),
            final(self)@.extends(old(self)@),
            final(self)@.pools.carrier == old(self)@.pools.carrier,
            old(self)@.config.quiet() ==> final(self)@.encodes(old(self)@),
    {
        proof {
            reveal(Trace::moe_flat);
        }
        let fine: bool = self.config.profile_fine;
        let profile: bool = self.config.expert_profile;
        let (sel, wt): Routed = self.route_flat(probs_k, &w.router_bias, k)?;
        self.stage_if(fine, Stage::FfnRouter);
        let moe: DeferredBuf = if fused {
            if profile {
                self.commit_wait_stage(Stage::MoeExpertProfile);
                self.put(Command::ExpertProfile { layer, k, selected: sel.buf });
            }
            self.encode_moe_chain_fused_K_auto(
                layer,
                normed_k,
                &sel,
                &wt,
                shape.n_embd,
                shape.d_ffn,
                k,
            )?
        } else {
            self.encode_moe_chain_mm_qx_k_auto(
                layer,
                normed_k,
                &sel,
                &wt,
                shape.n_embd,
                shape.d_ffn,
                k,
            )?
        };
        let shared: DeferredBuf = self.shared_from_raw(
            fine,
            normed_k,
            (w.sh_gate_q8, w.sh_up_q8, w.sh_down_q8),
            shape.shared_dim as u64,
            shape.n_embd,
            k,
        )?;
        self.stage_if(fine, Stage::FfnShared);
        Ok((moe, shared))
    }

    fn moe_by_position(
        &mut self,
        normed_k: &DeferredBuf,
        probs_k: &DeferredBuf,
        w: &FfnWeights,
        shape: FfnShape,
        layer: u32,
        k: u64,
    ) -> (r: Result<MoeOuts, EncodeError>)
        requires
            shape.fits(k),
        ensures
            (final(self)@, r) == old(self)@.moe_by_position(
                *normed_k,
                *probs_k,
                *w,
                shape,
                layer,
                k,
            ),
            final(self)@.extends(old(self)@),
            final(self)@.pools.carrier == old(self)@.pools.carrier,
            old(self)@.config.quiet() ==> final(self)@.encodes(old(self)@),
    {
        proof {
            reveal(Trace::moe_by_position);
        }
        let fine: bool = self.config.profile_fine;
        let routes: Vec<Routed> = self.encode_router_finalize_k(probs_k, &w.router_bias, k)?;
        self.stage_if(fine, Stage::FfnRouter);
        self.encode_moe_and_shared_chain_k(
            layer,
            normed_k,
            routes.as_slice(),
            shape.d_ffn,
            w.sh_gate,
            w.sh_up,
            w.sh_down,
            shape.shared_dim,
            w.sh_gate_q8,
            w.sh_up_q8,
            w.sh_down_q8,
            shape.n_embd,
            k,
        )
    }

    fn choice(&self, k: u64) -> (r: MoeChoice)
        ensures
            r == spec_choice(self@.config, k),
    {
        if self.config.moe_path == MoePath::MmId || self.config.ssd_stream || (
        self.config.moe_path == MoePath::Unset && k >= 128) {
            MoeChoice::ByExpert
        } else if self.config.moe_path == MoePath::Fused {
            MoeChoice::Fused
        } else {
            MoeChoice::ByPosition
        }
    }

    fn moe_step(
        &mut self,
        normed_k: &DeferredBuf,
        probs_k: &DeferredBuf,
        w: &FfnWeights,
        shape: FfnShape,
        layer: u32,
        k: u64,
        hash_route: Option<HashRoute<'_>>,
    ) -> (r: Result<MoeOuts, EncodeError>)
        requires
            shape.fits(k),
            experts_fit(
                old(self)@.engine,
                old(self)@.config,
                layer,
                shape.n_embd,
                shape.d_ffn,
                k,
            ),
        ensures
            (final(self)@, r) == old(self)@.moe_step(
                *normed_k,
                *probs_k,
                *w,
                shape,
                layer,
                k,
                route_view(hash_route),
            ),
            final(self)@.extends(old(self)@),
            final(self)@.pools.carrier == old(self)@.pools.carrier,
            old(self)@.config.quiet() && by_device(old(self)@, route_view(hash_route)) ==> final(self)@.encodes(old(self)@),
    {
        proof {
            reveal(Trace::moe_step);
        }
        match hash_route {
            Some((table, tokens, k_used)) => self.moe_by_table(
                normed_k,
                probs_k,
                w,
                shape,
                layer,
                k,
                table,
                tokens,
                k_used,
            ),
            None => match self.choice(k) {
                MoeChoice::ByExpert => self.moe_flat(
                    false,
                    normed_k,
                    probs_k,
                    w,
                    shape,
                    layer,
                    k,
                ),
                MoeChoice::Fused => self.moe_flat(true, normed_k, probs_k, w, shape, layer, k),
                MoeChoice::ByPosition => self.moe_by_position(
                    normed_k,
                    probs_k,
                    w,
                    shape,
                    layer,
                    k,
                ),
            },
        }
    }

    fn dump_residual(
        &mut self,
        layer: u32,
        attn_out: &DeferredBuf,
        after_attn: &DeferredBuf,
        after_ffn: &DeferredBuf,
        n_hc: u64,
        n_embd: u64,
        k: u64,
    )
        requires
            extent(n_hc),
            extent(n_embd),
        ensures
            final(self)@ == old(self)@.dump_residual(
                layer,
                *attn_out,
                *after_attn,
                *after_ffn,
                n_hc,
                n_embd,
                k,
            ),
            final(self)@.extends(old(self)@),
            final(self)@.pools.carrier == old(self)@.pools.carrier,
            old(self)@.config.dump_resid_layer is None ==> final(self)@.encodes(old(self)@),
    {
        proof {
            reveal(Trace::dump_residual);
        }
        if is_layer(self.config.dump_resid_layer, layer) && k >= 2 {
            let hc: u64 = times(n_hc, n_embd);
            self.commit_wait_stage(Stage::DumpResidK);
            self.put(
                Command::DumpRow {
                    what: Dump::AttnOut,
                    layer,
                    buf: attn_out.buf,
                    first: n_embd,
                    n: n_embd,
                },
            );
            self.put(
                Command::DumpRow {
                    what: Dump::AfterAttn,
                    layer,
                    buf: after_attn.buf,
                    first: hc,
                    n: hc,
                },
            );
            self.put(
                Command::DumpRow {
                    what: Dump::AfterFfn,
                    layer,
                    buf: after_ffn.buf,
                    first: hc,
                    n: hc,
                },
            );
        }
    }

    /// The feed-forward half of a layer for several positions: routing, routed
    /// and shared experts, and the mix into the residual streams.
    #[verifier::rlimit(40)]
    pub fn encode_ffn_chain_k(
        &mut self,
        attn_out_k: &DeferredBuf,
        cur_hc_k: &DeferredBuf,
        attn_split_k: &DeferredBuf,
        hc_ffn_fn: &DeferredBuf,
        hc_ffn_fn_is_f16: bool,
        hc_ffn_scale: &DeferredBuf,
        hc_ffn_base: &DeferredBuf,
        hc_ffn_norm_gamma: &DeferredBuf,
        unit_gamma_hc: &DeferredBuf,
        w_router: &DeferredBuf,
        w_router_is_f16: bool,
        router_bias: &DeferredBuf,
        sh_w_gate: HostRef,
        sh_w_up: HostRef,
        sh_w_down: HostRef,
        sh_w_gate_q8: HostRef,
        sh_w_up_q8: HostRef,
        sh_w_down_q8: HostRef,
        n_hc: u64,
        n_embd: u64,
        n_experts: u64,
        d_ffn: u64,
        shared_dim: u32,
        sinkhorn_iters: i32,
        hc_eps: F32,
        rms_eps: F32,
        layer_idx: u32,
        k_positions: u64,
        hash_route: Option<HashRoute<'_>>,
    ) -> (r: Result<DeferredBuf, EncodeError>)
        requires
            (FfnShape {
                n_hc,
                n_embd,
                n_experts,
                d_ffn,
                shared_dim,
                sinkhorn_iters,
                hc_eps,
                rms_eps,
            }).fits(k_positions),
            experts_fit(
                old(self)@.engine,
                old(self)@.config,
                layer_idx,
                n_embd,
                d_ffn,
                k_positions,
            ),
        ensures
            (final(self)@, r) == old(self)@.encode_ffn_chain_k(
                *attn_out_k,
                *cur_hc_k,
                *attn_split_k,
                (FfnWeights {
                    hc_fn: *hc_ffn_fn,
                    hc_fn_is_f16: hc_ffn_fn_is_f16,
                    hc_scale: *hc_ffn_scale,
                    hc_base: *hc_ffn_base,
                    hc_norm_gamma: *hc_ffn_norm_gamma,
                    unit_gamma_hc: *unit_gamma_hc,
                    router: *w_router,
                    router_is_f16: w_router_is_f16,
                    router_bias: *router_bias,
                    sh_gate: sh_w_gate,
                    sh_up: sh_w_up,
                    sh_down: sh_w_down,
                    sh_gate_q8: sh_w_gate_q8,
                    sh_up_q8: sh_w_up_q8,
                    sh_down_q8: sh_w_down_q8,
                }),
                (FfnShape {
                    n_hc,
                    n_embd,
                    n_experts,
                    d_ffn,
                    shared_dim,
                    sinkhorn_iters,
                    hc_eps,
                    rms_eps,
                }),
                layer_idx,
                k_positions,
                route_view(hash_route),
            ),
            r matches Ok(b) ==> b.n_elements == k_positions * n_hc * n_embd && carried(
                old(self)@,
                final(self)@,
                b,
            ),
            final(self)@.extends(old(self)@),
            old(self)@.config.quiet() && by_device(old(self)@, route_view(hash_route)) ==> final(self)@.encodes(old(self)@),
    {
        proof {
            reveal(Trace::encode_ffn_chain_k);
        }
        let k: u64 = k_positions;
        let fine: bool = self.config.profile_fine;
        let w: FfnWeights = FfnWeights {
            hc_fn: *hc_ffn_fn,
            hc_fn_is_f16: hc_ffn_fn_is_f16,
            hc_scale: *hc_ffn_scale,
            hc_base: *hc_ffn_base,
            hc_norm_gamma: *hc_ffn_norm_gamma,
            unit_gamma_hc: *unit_gamma_hc,
            router: *w_router,
            router_is_f16: w_router_is_f16,
            router_bias: *router_bias,
            sh_gate: sh_w_gate,
            sh_up: sh_w_up,
            sh_down: sh_w_down,
            sh_gate_q8: sh_w_gate_q8,
            sh_up_q8: sh_w_up_q8,
            sh_down_q8: sh_w_down_q8,
        };
        let shape: FfnShape = FfnShape {
            n_hc,
            n_embd,
            n_experts,
            d_ffn,
            shared_dim,
            sinkhorn_iters,
            hc_eps,
            rms_eps,
        };
        let after_attn_k: DeferredBuf = self.hc_expand_attn_split_k(
            attn_out_k,
            cur_hc_k,
            attn_split_k,
            n_hc,
            n_embd,
            k,
        )?;
        self.stage_if(fine, Stage::FfnHcExpandAttn);
        self.arm(PoolKey::HcFfnNormed);
        let (ffn_split_k, _, normed_k): Collapsed = self.hc_collapse_norm_k(
            &after_attn_k,
            hc_ffn_fn,
            hc_ffn_scale,
            hc_ffn_base,
            hc_ffn_norm_gamma,
            n_hc,
            n_embd,
            sinkhorn_iters,
            hc_eps,
            rms_eps,
            unit_gamma_hc,
            k,
            hc_ffn_fn_is_f16,
        )?;
        self.stage_if(fine, Stage::FfnHcCollapse);
        let probs_k: DeferredBuf = self.encode_router_logits_k(
            w_router,
            &normed_k,
            n_experts,
            n_embd,
            k,
            w_router_is_f16,
        )?;
        self.refill_pool(layer_idx);
        let (moe_k, shared_k): MoeOuts = self.moe_step(
            &normed_k,
            &probs_k,
            &w,
            shape,
            layer_idx,
            k,
            hash_route,
        )?;
        let after_ffn_k: DeferredBuf = self.hc_expand_add_split_k(
            &shared_k,
            &moe_k,
            &after_attn_k,
            &ffn_split_k,
            n_hc,
            n_embd,
            k,
        )?;
        if hash_route.is_none() {
            self.dump_residual(
                layer_idx,
                attn_out_k,
                &after_attn_k,
                &after_ffn_k,
                n_hc,
                n_embd,
                k,
            );
        }
        Ok(after_ffn_k)
    }

    /// A whole layer for several positions.
    pub fn encode_layer_k(
        &mut self,
        prev_hc_k: &DeferredBuf,
        hc_attn_fn: &DeferredBuf,
        hc_attn_scale: &DeferredBuf,
        hc_attn_base: &DeferredBuf,
        hc_attn_norm_gamma: &DeferredBuf,
        unit_gamma_hc: &DeferredBuf,
        attn_q_a_q8: &DeferredBuf,
        gamma_q: &DeferredBuf,
        attn_q_b_q8: &DeferredBuf,
        attn_kv_q8: &DeferredBuf,
        qkv_gamma_kv: &DeferredBuf,
        w_o_a_q8: &DeferredBuf,
        w_o_b_q8: &DeferredBuf,
        hc_ffn_fn: &DeferredBuf,
        hc_ffn_scale: &DeferredBuf,
        hc_ffn_base: &DeferredBuf,
        hc_ffn_norm_gamma: &DeferredBuf,
        w_router: &DeferredBuf,
        router_bias: &DeferredBuf,
        sh_w_gate: HostRef,
        sh_w_up: HostRef,
        sh_w_down: HostRef,
        sh_w_gate_q8: HostRef,
        sh_w_up_q8: HostRef,
        sh_w_down_q8: HostRef,
        n_hc: u64,
        n_embd: u64,
        n_lora_q: u64,
        n_head: u64,
        head_dim: u64,
        kv_row: u64,
        n_groups: u64,
        n_lora_o: u64,
        group_dim: u64,
        out_low_dim: u64,
        n_experts: u64,
        d_ffn: u64,
        shared_dim: u32,
        sinkhorn_iters: i32,
        hc_eps: F32,
        rms_eps: F32,
        flash_scale: F32,
        layer_idx: u32,
        layer_params: &LayerParams,
        raw_cap: u32,
        base_slot: u32,
        base_pos: u32,
        attn_base_pos: u32,
        attn_sinks: &DeferredBuf,
        k_positions: u64,
        comp: Option<CompVerifyCtx>,
    ) -> (r: Result<DeferredBuf, EncodeError>)
        requires
            (AttnShape {
                n_hc,
                n_embd,
                n_lora_q,
                n_head,
                head_dim,
                kv_row,
                sinkhorn_iters,
                hc_eps,
                rms_eps,
            }).fits(*layer_params),
            place_fits(
                (AttnShape {
                    n_hc,
                    n_embd,
                    n_lora_q,
                    n_head,
                    head_dim,
                    kv_row,
                    sinkhorn_iters,
                    hc_eps,
                    rms_eps,
                }),
                (Place {
                    layer: layer_idx,
                    params: *layer_params,
                    raw_cap,
                    base_slot,
                    base_pos,
                    attn_base_pos,
                    k: k_positions,
                }),
                comp,
                old(self)@.config.trap_zero_weight,
            ),
            extent(n_groups),
            extent(n_lora_o),
            extent(group_dim),
            extent(out_low_dim),
            elements(k_positions * out_low_dim),
            (FfnShape {
                n_hc,
                n_embd,
                n_experts,
                d_ffn,
                shared_dim,
                sinkhorn_iters,
                hc_eps,
                rms_eps,
            }).fits(k_positions),
            experts_fit(
                old(self)@.engine,
                old(self)@.config,
                layer_idx,
                n_embd,
                d_ffn,
                k_positions,
            ),
        ensures
            (final(self)@, r) == old(self)@.encode_layer_k(
                *prev_hc_k,
                (AttnWeights {
                    hc_fn: *hc_attn_fn,
                    hc_scale: *hc_attn_scale,
                    hc_base: *hc_attn_base,
                    hc_norm_gamma: *hc_attn_norm_gamma,
                    unit_gamma_hc: *unit_gamma_hc,
                    q_a: *attn_q_a_q8,
                    gamma_q: *gamma_q,
                    q_b: *attn_q_b_q8,
                    kv: *attn_kv_q8,
                    gamma_kv: *qkv_gamma_kv,
                }),
                (AttnShape {
                    n_hc,
                    n_embd,
                    n_lora_q,
                    n_head,
                    head_dim,
                    kv_row,
                    sinkhorn_iters,
                    hc_eps,
                    rms_eps,
                }),
                (AttnOutput {
                    w_o_a: *w_o_a_q8,
                    w_o_b: *w_o_b_q8,
                    n_groups,
                    n_lora_o,
                    group_dim,
                    out_low_dim,
                    flash_scale,
                    sinks: *attn_sinks,
                }),
                (Place {
                    layer: layer_idx,
                    params: *layer_params,
                    raw_cap,
                    base_slot,
                    base_pos,
                    attn_base_pos,
                    k: k_positions,
                }),
                comp,
                (FfnWeights {
                    hc_fn: *hc_ffn_fn,
                    hc_fn_is_f16: false,
                    hc_scale: *hc_ffn_scale,
                    hc_base: *hc_ffn_base,
                    hc_norm_gamma: *hc_ffn_norm_gamma,
                    unit_gamma_hc: *unit_gamma_hc,
                    router: *w_router,
                    router_is_f16: false,
                    router_bias: *router_bias,
                    sh_gate: sh_w_gate,
                    sh_up: sh_w_up,
                    sh_down: sh_w_down,
                    sh_gate_q8: sh_w_gate_q8,
                    sh_up_q8: sh_w_up_q8,
                    sh_down_q8: sh_w_down_q8,
                }),
                (FfnShape {
                    n_hc,
                    n_embd,
                    n_experts,
                    d_ffn,
                    shared_dim,
                    sinkhorn_iters,
                    hc_eps,
                    rms_eps,
                }),
            ),
            r matches Ok(b) ==> b.n_elements == k_positions * n_hc * n_embd && carried(
                old(self)@,
                final(self)@,
                b,
            ),
            final(self)@.extends(old(self)@),
            old(self)@.config.quiet() ==> final(self)@.encodes(old(self)@),
    {
        proof {
            reveal(Trace::encode_layer_k);
        }
        let prof: bool = self.config.layer_profile;
        let (half, attn_out_k): (LayerAttnHalfOutsK, DeferredBuf) = self.encode_attn_chain_k(
            prev_hc_k,
            hc_attn_fn,
            hc_attn_scale,
            hc_attn_base,
            hc_attn_norm_gamma,
            unit_gamma_hc,
            attn_q_a_q8,
            gamma_q,
            attn_q_b_q8,
            attn_kv_q8,
            qkv_gamma_kv,
            w_o_a_q8,
            w_o_b_q8,
            n_hc,
            n_embd,
            n_lora_q,
            n_head,
            head_dim,
            kv_row,
            n_groups,
            n_lora_o,
            group_dim,
            out_low_dim,
            sinkhorn_iters,
            hc_eps,
            rms_eps,
            flash_scale,
            layer_idx,
            layer_params,
            raw_cap,
            base_slot,
            base_pos,
            attn_base_pos,
            attn_sinks,
            k_positions,
            comp,
        )?;
        self.stage_if(prof, Stage::LayerAttnHalf);
        let out: DeferredBuf = self.encode_ffn_chain_k(
            &attn_out_k,
            prev_hc_k,
            &half.split_k,
            hc_ffn_fn,
            false,
            hc_ffn_scale,
            hc_ffn_base,
            hc_ffn_norm_gamma,
            unit_gamma_hc,
            w_router,
            false,
            router_bias,
            sh_w_gate,
            sh_w_up,
            sh_w_down,
            sh_w_gate_q8,
            sh_w_up_q8,
            sh_w_down_q8,
            n_hc,
            n_embd,
            n_experts,
            d_ffn,
            shared_dim,
            sinkhorn_iters,
            hc_eps,
            rms_eps,
            layer_idx,
            k_positions,
            None,
        )?;
        self.stage_if(prof, Stage::LayerFfnHalf);
        Ok(out)
    }
}

} // verus!
