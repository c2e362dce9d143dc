//! The numbers that the launches of the experts, the conversions and the attention output
//! are given.

use crate::binds::{gather_numbers, launched, lemma_kept, lemma_tail};
use crate::command::{
    Args, BufId, Command, CpyArgs, DeferredBuf, F32, MoeSwigluActArgs, MulMvIdArgs,
};
use crate::ffn::spec_rows;
use crate::growth::{
    grew, grew_itself, grew_push, grows_matvec_attn_proj, grows_pooled_scratch_f32,
    grows_read_each, grows_wait_each,
};
use crate::kernel::Kernel;
use crate::numbers::law_table_rows;
use crate::trace::Trace;
use vstd::prelude::*;

verus! {

/// The command `n` places from the end.
pub open spec fn back(log: Seq<Command>, n: int) -> Command {
    log[log.len() - n]
}

/// The numbers of a gated activation of six rows of `d_ffn` elements for each of `k`
/// positions, whose results have `bytes` bytes each.
pub open spec fn activation_numbers(d_ffn: u64, k: u64, bytes: int, bound: F32) -> MoeSwigluActArgs {
    MoeSwigluActArgs {
        width: d_ffn as u32,
        rows: (k * 6) as u32,
        gate_row_stride: (d_ffn * 4) as u64,
        up_row_stride: (d_ffn * 4) as u64,
        mid_row_stride: (d_ffn * bytes) as u64,
        weight_stride: 4,
        write_clamped: 0,
        clamp_value: bound,
    }
}

/// The numbers of six products for each of `k` positions with matrices of `rows` rows of
/// `width` weights, in blocks of 256 weights and `block` bytes, against `vectors` vectors
/// a position.
pub open spec fn six_products(
    k: u64,
    rows: u64,
    width: u64,
    block: int,
    vectors: int,
    slots: int,
    at_once: i32,
) -> MulMvIdArgs {
    let row = width / 256 * block;
    MulMvIdArgs {
        nei0: 6,
        nei1: k as i32,
        nbi1: 24,
        ne00: width as i32,
        ne01: rows as i32,
        ne02: 1,
        nb00: 2,
        nb01: row as u64,
        nb02: (row as u64 * rows) as u64,
        ne10: width as i32,
        ne11: vectors as i32,
        ne12: 1,
        ne13: 1,
        nb10: 4,
        nb11: (width * 4) as u64,
        nb12: (vectors * width * 4) as u64,
        ne0: rows as i32,
        ne1: slots as i32,
        nb1: (rows * 4) as u64,
        nr0: at_once,
    }
}

/// The activation of the experts is told its rows, and its bound: the configured one,
/// but none where that is switched off and the result stays in single precision.
pub proof fn law_activation_is_told(
    t: Trace,
    gate: DeferredBuf,
    up: DeferredBuf,
    wt: DeferredBuf,
    d_ffn: u64,
    k: u64,
    half: bool,
)
    ensures
        ({
            let (u, r) = t.moe_swiglu_weight_k(gate, up, wt, d_ffn, k, half);
            let bound = if !half && t.config.swiglu_clamp_off {
                F32(0x7f80_0000)
            } else {
                t.config.mid_clamp
            };
            let bytes: int = if half {
                2
            } else {
                4
            };
            r is Ok ==> back(u.log, 7) == Command::Bytes(
                0,
                Args::SwigluAct(activation_numbers(d_ffn, k, bytes, bound)),
            )
        }),
{
    reveal(Trace::moe_swiglu_weight_k);
    reveal(Trace::pooled_scratch_f32);
    reveal(Trace::pooled_scratch_u16);
}

/// The fused gather of gate and up is told the blocks of its format, one vector a
/// position, and an activation without a bound.
pub proof fn law_gathered_pair_is_told(
    t: Trace,
    gate: DeferredBuf,
    up: DeferredBuf,
    x: DeferredBuf,
    tpe: DeferredBuf,
    ids: DeferredBuf,
    wt: DeferredBuf,
    n_experts: u64,
    d_embd: u64,
    d_ffn: u64,
    k: u64,
)
    ensures
        ({
            let (u, r) = t.encode_mul_mm_id_iq2_pair_swiglu_k(
                gate,
                up,
                x,
                tpe,
                ids,
                wt,
                n_experts,
                d_embd,
                d_ffn,
                k,
            );
            r is Ok ==> {
                &&& back(u.log, 12) == Command::Bytes(
                    0,
                    Args::MmId(gather_numbers(256, 66, n_experts, d_embd, d_ffn, k, 1, 4)),
                )
                &&& back(u.log, 11) == Command::Bytes(
                    1,
                    Args::SwigluAct(activation_numbers(d_ffn, k, 4, F32(0x7f80_0000))),
                )
            }
        }),
{
    reveal(Trace::encode_mul_mm_id_iq2_pair_swiglu_k);
    reveal(Trace::pooled_scratch_f32);
}

/// The fused gate and up of Q4_K experts is told the blocks of its format, two rows at
/// once, and six slots a position.
#[allow(non_snake_case)]
pub proof fn law_q4_pair_is_told(
    t: Trace,
    gate: DeferredBuf,
    up: DeferredBuf,
    x: DeferredBuf,
    ids: DeferredBuf,
    wt: DeferredBuf,
    d_in: u64,
    d_ffn: u64,
    k: u64,
)
    ensures
        ({
            let (u, r) = t.encode_pair_swiglu_K_q4_K(gate, up, x, ids, wt, d_in, d_ffn, k);
            r is Ok ==> {
                &&& back(u.log, 13) == Command::Bytes(
                    0,
                    Args::MulMvId(six_products(k, d_ffn, d_in, 144, 1, 6, 2)),
                )
                &&& back(u.log, 12) == Command::Bytes(
                    1,
                    Args::SwigluAct(activation_numbers(d_ffn, k, 4, F32(0x7f80_0000))),
                )
            }
        }),
{
    reveal(Trace::encode_pair_swiglu_K_q4_K);
    reveal(Trace::pair_launch);
    reveal(Trace::pooled_scratch_f32);
}

/// The fused gate and up of IQ2_XXS experts is told the blocks of its format, four rows
/// at once, and one slot.
#[allow(non_snake_case)]
pub proof fn law_iq2_pair_is_told(
    t: Trace,
    gate: DeferredBuf,
    up: DeferredBuf,
    x: DeferredBuf,
    ids: DeferredBuf,
    wt: DeferredBuf,
    d_in: u64,
    d_ffn: u64,
    k: u64,
)
    ensures
        ({
            let (u, r) = t.encode_pair_swiglu_K_iq2_xxs(gate, up, x, ids, wt, d_in, d_ffn, k);
            r is Ok ==> {
                &&& back(u.log, 11) == Command::Bytes(
                    0,
                    Args::MulMvId(six_products(k, d_ffn, d_in, 66, 1, 1, 4)),
                )
                &&& back(u.log, 10) == Command::Bytes(
                    1,
                    Args::SwigluAct(activation_numbers(d_ffn, k, 4, F32(0x7f80_0000))),
                )
            }
        }),
{
    reveal(Trace::encode_pair_swiglu_K_iq2_xxs);
    reveal(Trace::pair_launch);
    reveal(Trace::pooled_scratch_f32);
}

/// The fused down projection is told the blocks of its format and the six rows of each
/// position that it sums.
pub proof fn law_down_is_told(
    t: Trace,
    q4: bool,
    down: DeferredBuf,
    mid: DeferredBuf,
    ids: DeferredBuf,
    d_ffn: u64,
    d_embd: u64,
    k: u64,
)
    ensures
        ({
            let (u, r) = t.sum6_down(q4, down, mid, ids, d_ffn, d_embd, k);
            let block: int = if q4 {
                144
            } else {
                84
            };
            let at_once: i32 = if q4 {
                2
            } else {
                4
            };
            r is Ok ==> back(u.log, 8) == Command::Bytes(
                0,
                Args::MulMvId(six_products(k, d_embd, d_ffn, block, 6, k as int, at_once)),
            )
        }),
{
    reveal(Trace::sum6_down);
}

/// A conversion is told one run of elements, four bytes each where it reads and two where
/// it writes.
pub proof fn law_conversion_is_told(t: Trace, x: DeferredBuf, n: u64)
    ensures
        ({
            let (u, r) = t.cast_f32_to_f16_contig(x, n);
            let told = CpyArgs {
                nk0: n as i64,
                ne00: n as i64,
                ne01: 1,
                ne02: 1,
                ne03: 1,
                nb00: 4,
                nb01: (4 * n) as u64,
                nb02: (4 * n) as u64,
                nb03: (4 * n) as u64,
                ne0: n as i64,
                ne1: 1,
                ne2: 1,
                ne3: 1,
                nb0: 2,
                nb1: (2 * n) as u64,
                nb2: (2 * n) as u64,
                nb3: (2 * n) as u64,
            };
            r is Ok ==> back(u.log, 5) == Command::Bytes(0, Args::Cpy(told))
        }),
{
    reveal(Trace::cast_f32_to_f16_contig);
}

/// The low half of the attention output is told a matrix for each group of heads, and
/// one vector a group.
pub proof fn law_low_output_is_told(
    t: Trace,
    heads: DeferredBuf,
    a: DeferredBuf,
    b: DeferredBuf,
    n_groups: u64,
    n_lora_o: u64,
    group_dim: u64,
    low_dim: u64,
    d_embd: u64,
)
    ensures
        ({
            let (u, r) = t.encode_attn_output_matmuls_q8(
                heads,
                a,
                b,
                n_groups,
                n_lora_o,
                group_dim,
                low_dim,
                d_embd,
            );
            let row = group_dim / 32 * 34;
            let told = MulMvIdArgs {
                nei0: n_groups as i32,
                nei1: 1,
                nbi1: 0,
                ne00: group_dim as i32,
                ne01: n_lora_o as i32,
                ne02: n_groups as i32,
                nb00: 2,
                nb01: row as u64,
                nb02: (row as u64 * n_lora_o) as u64,
                ne10: group_dim as i32,
                ne11: n_groups as i32,
                ne12: 1,
                ne13: 1,
                nb10: 4,
                nb11: (group_dim * 4) as u64,
                nb12: (n_groups * group_dim * 4) as u64,
                ne0: n_lora_o as i32,
                ne1: low_dim as i32,
                nb1: (n_lora_o * 4) as u64,
                nr0: 2,
            };
            r is Ok ==> launched(
                u.log,
                t.log.len() as int,
                Kernel::AttnOutLowQ8,
                0,
                seq![
                    Command::Bytes(0, Args::MulMvId(told)),
                    Command::Buffer(1, a.buf, 0),
                    Command::Buffer(2, heads.buf, 0),
                    Command::Buffer(3, r->Ok_0.0.buf, 0),
                    Command::GroupMemory(256),
                ],
            )
        }),
{
    reveal(Trace::encode_attn_output_matmuls_q8);
    let (u, r) = t.encode_attn_output_matmuls_q8(
        heads,
        a,
        b,
        n_groups,
        n_lora_o,
        group_dim,
        low_dim,
        d_embd,
    );
    if r is Ok {
        let from = t.log.len() as int;
        let (c, low) = t.alloc_f32(low_dim);
        let d = c.attn_low_launch(
            Kernel::AttnOutLowQ8,
            a.buf,
            (heads.buf, 0),
            (low.buf, 0),
            n_groups,
            n_lora_o,
            group_dim,
            low_dim,
            n_groups,
        );
        let s = d.log.subrange(d.log.len() - 7, d.log.len() - 2);
        lemma_tail(d.log, from, Kernel::AttnOutLowQ8, 0, s, 2);
        grew_itself(d.log);
        grows_matvec_attn_proj(d.log, d, b, low, low_dim, d_embd);
        lemma_kept(d.log, u.log, from, from, Kernel::AttnOutLowQ8, 0, s);
        let row = group_dim / 32 * 34;
        let told = MulMvIdArgs {
            nei0: n_groups as i32,
            nei1: 1,
            nbi1: 0,
            ne00: group_dim as i32,
            ne01: n_lora_o as i32,
            ne02: n_groups as i32,
            nb00: 2,
            nb01: row as u64,
            nb02: (row as u64 * n_lora_o) as u64,
            ne10: group_dim as i32,
            ne11: n_groups as i32,
            ne12: 1,
            ne13: 1,
            nb10: 4,
            nb11: (group_dim * 4) as u64,
            nb12: (n_groups * group_dim * 4) as u64,
            ne0: n_lora_o as i32,
            ne1: low_dim as i32,
            nb1: (n_lora_o * 4) as u64,
            nr0: 2,
        };
        assert(s =~= seq![
            Command::Bytes(0, Args::MulMvId(told)),
            Command::Buffer(1, a.buf, 0),
            Command::Buffer(2, heads.buf, 0),
            Command::Buffer(3, r->Ok_0.0.buf, 0),
            Command::GroupMemory(256),
        ]);
    }
}

proof fn waiting_keeps_words(t: Trace, cbs: Seq<u64>, n: nat)
    ensures
        t.wait_each(cbs, n).words == t.words,
    decreases n,
{
    if n > 0 {
        waiting_keeps_words(t, cbs, (n - 1) as nat);
    }
}

proof fn reading_keeps_words(t: Trace, bufs: Seq<DeferredBuf>, n: nat)
    ensures
        t.read_each(bufs, n).words == t.words,
    decreases n,
{
    if n > 0 {
        reading_keeps_words(t, bufs, (n - 1) as nat);
    }
}

proof fn words_kept(t: Trace, b: DeferredBuf)
    ensures
        t.commit_wait_read_multi(seq![b]).words == t.words,
{
    let bufs = seq![b];
    let a = t.put(Command::CloseShared).commit_keep_open();
    waiting_keeps_words(a, a.pending, a.pending.len());
    let c = Trace { pending: seq![], ..a.wait_each(a.pending, a.pending.len()) };
    reading_keeps_words(c, bufs, bufs.len());
}

/// A table's route uploads, for each position, the table's row for its token, with zeros
/// behind it up to six.
pub proof fn law_table_route_is_uploaded(
    t: Trace,
    probs: DeferredBuf,
    n_experts: u64,
    k: u64,
    table: Seq<i32>,
    tokens: Seq<i32>,
    k_used: u64,
    i: int,
    j: int,
)
    requires
        0 <= i < k,
        0 <= j < 6,
        t.log.len() <= u64::MAX,
    ensures
        ({
            let (u, r) = t.route_by_table(probs, n_experts, k, table, tokens, k_used);
            let start = t.words.len() as int;
            r is Ok ==> {
                &&& tokens.len() == k
                &&& r->Ok_0.0.buf == BufId::Fresh(t.log.len() as u64)
                &&& u.log.len() > t.log.len()
                &&& u.log[t.log.len() as int] == (Command::UploadWords {
                    start: start as u64,
                    len: (k * 6) as u64,
                })
                &&& u.words.len() >= start + 6 * k
                &&& u.words[start + i * 6 + j] == if j < k_used {
                    table[tokens[i] * k_used + j] as u32
                } else {
                    0
                }
            }
        }),
{
    reveal(Trace::route_by_table);
    reveal(Trace::pooled_scratch_f32);
    let (u, r) = t.route_by_table(probs, n_experts, k, table, tokens, k_used);
    if r is Ok {
        let ws = spec_rows(table, tokens, k_used as int, 6);
        let n = (k * 6) as u64;
        let (a, start) = t.add_words(ws);
        let (b, sel) = a.make(Command::UploadWords { start, len: n }, n);
        law_table_rows(table, tokens, k_used as int, 6, i, j);
        grew_itself(b.log);
        assert(grew(b.log, u.log)) by {
            broadcast use {
                grew_push,
                grows_pooled_scratch_f32,
                grows_read_each,
                grows_wait_each,
            };

        }
        reveal(grew);
        assert(u.log[t.log.len() as int] == b.log[t.log.len() as int]);
        words_kept(b, probs);
        assert(u.words[t.words.len() as int + i * 6 + j] == ws[i * 6 + j]);
    }
}

} // verus!
