//! The small numbers that the operations rest on: block sizes of the weight formats,
//! tiles, threads, bounds and table rows.

use crate::attention::{store_threads, unrotated};
use crate::command::F32;
use crate::config::{Config, ExpertWeights, GgmlType, LayerParams};
use crate::error::Check;
use crate::ffn::{has_row, spec_rows};
use crate::hc::carrier_key;
use crate::kernel::MmQuant;
use crate::matmul::{
    ragged, spec_group_rows, spec_nsg_by_rows, spec_nsg_by_width, spec_nxpsg, spec_or,
};
use crate::moe::{inner_width, spec_act_args, spec_clamp, spec_stage};
use crate::mtp::spec_depth;
use crate::norm::spec_row_threads;
use crate::trace::Trace;
use vstd::prelude::*;

verus! {

/// A block of a known format holds its weights and its scales, and nothing else: a byte
/// a weight and a scale; half a byte a weight, twelve bytes of scales and two factors; a
/// quarter of a byte a weight, a byte for every sixteen and two factors; a quarter of a
/// byte a weight and one factor. Each is gathered by the kernel of its own format.
pub proof fn law_blocks(f: GgmlType)
    ensures
        spec_stage(f) is None <==> f is Other,
        spec_stage(f) matches Some(s) ==> !s.kernel.half_rhs,
        f is Q8_0 ==> spec_stage(f)->Some_0.kernel.quant == MmQuant::Q8_0 && spec_stage(f)->Some_0.bytes
            == spec_stage(f)->Some_0.qk + 2 && spec_stage(f)->Some_0.qk == 32,
        f is Q4_K ==> spec_stage(f)->Some_0.kernel.quant == MmQuant::Q4_K && spec_stage(f)->Some_0.bytes
            == spec_stage(f)->Some_0.qk / 2 + 12 + 4 && spec_stage(f)->Some_0.qk == 256,
        f is Q2_K ==> spec_stage(f)->Some_0.kernel.quant == MmQuant::Q2_K && spec_stage(f)->Some_0.bytes
            == spec_stage(f)->Some_0.qk / 4 + spec_stage(f)->Some_0.qk / 16 + 4
            && spec_stage(f)->Some_0.qk == 256,
        f is IQ2_XXS ==> spec_stage(f)->Some_0.kernel.quant == MmQuant::IQ2_XXS
            && spec_stage(f)->Some_0.bytes == spec_stage(f)->Some_0.qk / 4 + 2
            && spec_stage(f)->Some_0.qk == 256,
{
}

/// The bound of the activation is the configured one, and only an activation that stays
/// in single precision can go without it.
pub proof fn law_bound_of_activation(c: Config, half: bool)
    ensures
        half ==> spec_clamp(c, half) == c.mid_clamp,
        !c.swiglu_clamp_off ==> spec_clamp(c, half) == c.mid_clamp,
        !half && c.swiglu_clamp_off ==> spec_clamp(c, half) == F32(0x7f80_0000),
{
}

/// The inner width is the caller's, and the tensors' where the caller gives none.
pub proof fn law_inner_width(d_ffn: u64, e: ExpertWeights)
    ensures
        d_ffn > 0 ==> inner_width(d_ffn, e) == d_ffn,
        inner_width(0, e) == e.d_ffn,
{
}

/// The rows of an activation lie one behind the other, six to a position, gate and up
/// alike, and the rows of the result as wide as their elements.
pub proof fn law_activation_rows(d_ffn: u64, k: u64, bytes: u64, bound: F32)
    requires
        d_ffn <= u32::MAX,
        k * 6 <= u32::MAX,
        bytes <= 4,
    ensures
        ({
            let a = spec_act_args(d_ffn, k, bytes, bound);
            &&& a.rows == 6 * k
            &&& a.width == d_ffn
            &&& a.gate_row_stride == 4 * a.width
            &&& a.up_row_stride == a.gate_row_stride
            &&& a.mid_row_stride == bytes * a.width
            &&& a.weight_stride == 4
            &&& a.write_clamped == 0
            &&& a.clamp_value == bound
        }),
{
    assert(d_ffn * bytes <= u32::MAX * 4) by (nonlinear_arith)
        requires
            d_ffn <= u32::MAX,
            bytes <= 4,
    ;
    assert(d_ffn * bytes == bytes * d_ffn) by (nonlinear_arith);
}

/// A GEMM goes without checks of its bounds exactly when whole tiles of 64 rows and 32
/// positions make up its result.
pub proof fn law_whole_tiles(d_out: u64, k: u64)
    ensures
        !ragged(d_out, k) <==> exists|a: int, b: int|
            d_out == #[trigger] (64 * a) && k == #[trigger] (32 * b),
{
    if !ragged(d_out, k) {
        let a = d_out as int / 64;
        let b = k as int / 32;
        assert(d_out == 64 * a && k == 32 * b);
    }
}

/// The two carriers have two names.
pub proof fn law_carriers_differ(slot: bool)
    ensures
        carrier_key(slot) != carrier_key(!slot),
{
}

/// A row-wise product takes rows in groups that leave none over: at most those that are
/// left, four at most, and never more than twice as many groups as are needed.
pub proof fn law_groups_of_rows(left: int)
    requires
        left > 0,
    ensures
        1 <= spec_group_rows(left) <= left,
        spec_group_rows(left) <= 4,
        left < 2 * spec_group_rows(left) || spec_group_rows(left) == 4,
        spec_group_rows(left) == 1 || spec_group_rows(left) == 2 || spec_group_rows(left) == 4,
{
}

/// Every lane has a thread, up to 1024, and there is always one.
pub proof fn law_threads_of_a_row(lanes: u64, more: u64, p: LayerParams)
    ensures
        1 <= spec_row_threads(lanes) <= 1024,
        1 <= lanes <= 1024 ==> spec_row_threads(lanes) == lanes,
        lanes <= more ==> spec_row_threads(lanes) <= spec_row_threads(more),
        p.head_dim >= p.n_rot ==> unrotated(p) + p.n_rot == p.head_dim,
        64 <= unrotated(p) < 64 * 1024 ==> store_threads(p) == unrotated(p) / 64,
{
}

/// The split of the work on a row: a longer row never has fewer simdgroups, one for
/// every 128 elements up to eight; a matrix of more rows never has more of them; a row
/// that is a whole number of wider parts has more threads.
pub proof fn law_simdgroups(d: u64, more: u64)
    requires
        d <= more,
    ensures
        1 <= spec_nsg_by_width(d) <= spec_nsg_by_width(more) <= 8,
        0 < d <= 1024 ==> 128 * (spec_nsg_by_width(d) - 1) < d <= 128 * spec_nsg_by_width(d),
        1 <= spec_nsg_by_rows(more) <= spec_nsg_by_rows(d) <= 4,
        spec_nsg_by_rows(1023) == 4,
        spec_nsg_by_rows(1024) == 2,
        spec_nsg_by_rows(8191) == 2,
        spec_nsg_by_rows(8192) == 1,
        spec_nxpsg(d) == 16 <==> d % 256 == 0,
        spec_nxpsg(d) == 8 <==> d % 128 == 0 && d % 256 != 0,
        spec_nxpsg(d) == 4 <==> d % 128 != 0,
{
}

/// A setting that was made is used, and the standard value only where none was.
pub proof fn law_settings_win(setting: Option<i16>, standard: i16)
    ensures
        setting matches Some(n) ==> spec_or(setting, standard) == n,
        setting is None ==> spec_or(setting, standard) == standard,
{
}

/// Verification runs all layers, or fewer where fewer are asked for.
pub proof fn law_depth(c: Config, n: nat)
    ensures
        spec_depth(c, n) <= n,
        c.verify_n_layers is None ==> spec_depth(c, n) == n,
        c.verify_n_layers matches Some(m) ==> spec_depth(c, n) <= m && (spec_depth(c, n) == m
            || spec_depth(c, n) == n),
{
}

/// Row `i` of the routed experts is the table's row for token `i`, column by column, with
/// zeros behind it.
pub proof fn law_table_rows(table: Seq<i32>, tokens: Seq<i32>, k_used: int, cols: int, i: int, j: int)
    requires
        0 < cols,
        0 <= i < tokens.len(),
        0 <= j < cols,
    ensures
        spec_rows(table, tokens, k_used, cols).len() == tokens.len() * cols,
        0 <= i * cols + j < tokens.len() * cols,
        j < k_used ==> spec_rows(table, tokens, k_used, cols)[i * cols + j] == table[tokens[i]
            * k_used + j] as u32,
        j >= k_used ==> spec_rows(table, tokens, k_used, cols)[i * cols + j] == 0,
{
    let p = i * cols + j;
    assert(0 <= p < tokens.len() * cols) by (nonlinear_arith)
        requires
            p == i * cols + j,
            0 <= i < tokens.len(),
            0 <= j < cols,
    ;
    assert(tokens.len() * cols >= 0) by (nonlinear_arith)
        requires
            0 < cols,
    ;
    vstd::arithmetic::div_mod::lemma_fundamental_div_mod_converse(p, cols, i, j);
}

/// A table has a row for a token exactly when all columns of that row lie inside it.
pub proof fn law_table_has_row(len: int, token: int, k_used: int)
    requires
        0 < k_used,
        0 <= len,
    ensures
        has_row(len, token, k_used) <==> token >= 0 && forall|j: int|
            0 <= j < k_used ==> 0 <= #[trigger] (token * k_used + j) < len,
{
    if has_row(len, token, k_used) {
        assert forall|j: int| 0 <= j < k_used implies 0 <= #[trigger] (token * k_used + j) < len by {
            assert(0 <= token * k_used && (token + 1) * k_used == token * k_used + k_used)
                by (nonlinear_arith)
                requires
                    token >= 0,
                    k_used > 0,
            ;
        }
    }
    if token >= 0 && forall|j: int|
        0 <= j < k_used ==> 0 <= #[trigger] (token * k_used + j) < len {
        let last = token * k_used + (k_used - 1);
        assert(0 <= last < len);
        assert((token + 1) * k_used == last + 1) by (nonlinear_arith)
            requires
                last == token * k_used + (k_used - 1),
        ;
    }
}

/// A decode step over the cache alone takes heads of 512 elements and whole groups of 32
/// rows; one that reads compressed rows too takes any number of rows, but some.
pub proof fn law_decode_steps(p: LayerParams, n_raw: u32, n_selected: u32)
    ensures
        Trace::raw_refusal(p, n_raw) is None <==> p.head_dim == 512 && n_raw > 0 && n_raw % 32 == 0,
        Trace::raw_refusal(p, n_raw) matches Some(r) ==> (r.check == Check::HeadDim
            <==> p.head_dim != 512),
        Trace::mixed_refusal(p, n_raw, n_selected) is None <==> p.head_dim == 512 && p.n_lora_kv
            == 512 && (n_raw > 0 || n_selected > 0),
{
}

} // verus!
