//! Buffers that outlive one scope: the scratch pool with its ping-pong phase,
//! the one-shot attention key, and the requantised weights.

use crate::command::BufId;
use vstd::prelude::*;

verus! {

/// The names under which scratch buffers are pooled.
#[derive(Clone, Copy, PartialEq, Eq, Structural, Debug)]
pub enum PoolKey {
    AttnQr,
    AttnQrNorm,
    AttnQHeadsRaw,
    AttnQHeads,
    AttnKvRaw,
    AttnKvNorm,
    HcAttnNormed,
    HcFfnNormed,
    HcCarrierA,
    HcCarrierB,
    HcAfterAttn,
    RouterLogitsK,
    RouterWtK,
    SharedMid,
    MoeMmIdDst,
    MoeMmIdOut,
    MoeMid,
    MoeMidF16,
    MoeMidF32,
    /// A key of the caller's own.
    Caller(u32),
}

/// What persists between scopes.
pub struct PoolState {
    /// The pooled buffers that exist, by name and tagged length.
    pub entries: Vec<(PoolKey, u64)>,
    /// Which of the two residual carriers comes next.
    pub carrier: bool,
    /// The key armed for the next attention output, if any.
    pub attn_key: Option<PoolKey>,
    /// The ping-pong phase.
    pub phase: bool,
    /// The weights that have a requantised copy; a copy is named by its place here.
    pub requant: Vec<BufId>,
    /// The layer whose experts the streaming pool holds, once it was filled.
    pub chunk_layer: Option<u32>,
}

/// The mathematical content of a [`PoolState`].
#[verifier::ext_equal]
pub struct Pools {
    pub entries: Seq<(PoolKey, u64)>,
    pub carrier: bool,
    pub attn_key: Option<PoolKey>,
    pub phase: bool,
    pub requant: Seq<BufId>,
    pub chunk_layer: Option<u32>,
}

impl Pools {
    /// Nothing pooled, nothing armed, the first phase, no layer streamed.
    pub open spec fn start() -> Pools {
        Pools {
            entries: seq![],
            carrier: false,
            attn_key: None,
            phase: false,
            requant: seq![],
            chunk_layer: None,
        }
    }

    /// The pool in the other phase.
    pub open spec fn flipped(self) -> Pools {
        Pools { phase: !self.phase, ..self }
    }
}

impl PoolState {
    pub open spec fn view(&self) -> Pools {
        Pools {
            entries: self.entries@,
            carrier: self.carrier,
            attn_key: self.attn_key,
            phase: self.phase,
            requant: self.requant@,
            chunk_layer: self.chunk_layer,
        }
    }

    /// An empty pool.
    pub fn new() -> (r: PoolState)
        ensures
            r@ == Pools::start(),
    {
        PoolState {
            entries: Vec::new(),
            carrier: false,
            attn_key: None,
            phase: false,
            requant: Vec::new(),
            chunk_layer: None,
        }
    }

    /// Whether a buffer is pooled under this name and tagged length.
    pub fn has(&self, key: PoolKey, tag: u64) -> (r: bool)
        ensures
            r == self@.entries.contains((key, tag)),
    {
        let mut i: usize = 0;
        while i < self.entries.len()
            invariant
                i <= self.entries@.len(),
                forall|j: int| 0 <= j < i ==> self.entries@[j] != (key, tag),
            decreases self.entries@.len() - i,
        {
            if self.entries[i].0 == key && self.entries[i].1 == tag {
                assert(self.entries@[i as int] == (key, tag));
                return true;
            }
            i = i + 1;
        }
        false
    }

    /// The place of the requantised copy of `src`, if there is one.
    pub fn find_requant(&self, src: BufId) -> (r: Option<u64>)
        ensures
            r == find_buf(self@.requant, src),
    {
        let mut i: usize = 0;
        while i < self.requant.len()
            invariant
                i <= self.requant@.len(),
                forall|j: int| 0 <= j < i ==> self.requant@[j] != src,
            decreases self.requant@.len() - i,
        {
            if self.requant[i] == src {
                proof {
                    lemma_find_buf(self.requant@, src, i as int);
                }
                return Some(i as u64);
            }
            i = i + 1;
        }
        None
    }
}

/// The first place of `b` in `s`.
pub open spec fn find_buf(s: Seq<BufId>, b: BufId) -> Option<u64> {
    if s.contains(b) {
        Some(first_of(s, b) as u64)
    } else {
        None
    }
}

/// The least index at which `s` holds `b`.
pub open spec fn first_of(s: Seq<BufId>, b: BufId) -> int {
    choose|i: int|
        0 <= i < s.len() && s[i] == b && forall|j: int| 0 <= j < i ==> #[trigger] s[j] != b
}

proof fn lemma_find_buf(s: Seq<BufId>, b: BufId, i: int)
    requires
        0 <= i < s.len(),
        s[i] == b,
        forall|j: int| 0 <= j < i ==> s[j] != b,
    ensures
        s.contains(b),
        first_of(s, b) == i,
{
    assert(forall|j: int| 0 <= j < i ==> #[trigger] s[j] != b);
    let k = first_of(s, b);
    assert(0 <= k < s.len() && s[k] == b && forall|j: int| 0 <= j < k ==> #[trigger] s[j] != b);
    if k < i {
        assert(s[k] != b);
    }
    if i < k {
        assert(s[i] != b);
    }
}

/// Turns the ping-pong phase over, so that the next command buffer draws other
/// pooled buffers than the one just committed.
pub fn flip_pool_phase(pools: &mut PoolState)
    ensures
        final(pools)@ == old(pools)@.flipped(),
{
    pools.phase = !pools.phase;
}

/// Arms the key that the next attention output takes its pooled buffer under.
pub fn arm_attn_pool_key(pools: &mut PoolState, key: PoolKey)
    ensures
        final(pools)@ == (Pools { attn_key: Some(key), ..old(pools)@ }),
{
    pools.attn_key = Some(key);
}

/// The bit that marks a pooled length as belonging to the second phase.
pub open spec fn phase_bit(pingpong: bool, phase: bool) -> u64 {
    if pingpong && phase {
        0x8000_0000_0000_0000u64
    } else {
        0
    }
}

/// The tag of a pooled buffer of `n` single-precision elements.
pub open spec fn tag_f32(n: u64, bit: u64) -> u64 {
    n | bit
}

/// The tag of a pooled buffer of `n` half-precision elements.
pub open spec fn tag_u16(n: u64, bit: u64) -> u64 {
    n | 0x4000_0000_0000_0000u64 | bit
}

/// Lengths that leave the two tag bits clear.
pub open spec fn untagged(n: u64) -> bool {
    n < 0x4000_0000_0000_0000
}

/// With ping-pong on, buffers drawn in opposite phases are never the same, so a
/// command buffer in flight and the one being encoded share none.
pub proof fn law_phases_share_no_buffer(n: u64, m: u64, phase: bool)
    requires
        untagged(n),
        untagged(m),
    ensures
        tag_f32(n, phase_bit(true, phase)) != tag_f32(m, phase_bit(true, !phase)),
        tag_u16(n, phase_bit(true, phase)) != tag_u16(m, phase_bit(true, !phase)),
{
    let b: u64 = 0x8000_0000_0000_0000u64;
    assert(n < 0x4000_0000_0000_0000 && m < 0x4000_0000_0000_0000 ==> (n | b) != (m | 0u64)
        && (n | 0u64) != (m | b) && (n | 0x4000_0000_0000_0000u64 | b) != (m
        | 0x4000_0000_0000_0000u64 | 0u64) && (n | 0x4000_0000_0000_0000u64 | 0u64) != (m
        | 0x4000_0000_0000_0000u64 | b)) by (bit_vector)
        requires
            b == 0x8000_0000_0000_0000u64,
    ;
}

/// A half-precision buffer never takes the place of a single-precision one of
/// the same name, whatever the phases.
pub proof fn law_element_types_share_no_buffer(
    n: u64,
    m: u64,
    pingpong: bool,
    phase_n: bool,
    phase_m: bool,
)
    requires
        untagged(n),
        untagged(m),
    ensures
        tag_f32(n, phase_bit(pingpong, phase_n)) != tag_u16(m, phase_bit(pingpong, phase_m)),
{
    let a: u64 = phase_bit(pingpong, phase_n);
    let b: u64 = phase_bit(pingpong, phase_m);
    assert((n | a) != (m | 0x4000_0000_0000_0000u64 | b)) by (bit_vector)
        requires
            n < 0x4000_0000_0000_0000,
            a == 0 || a == 0x8000_0000_0000_0000u64,
            b == 0 || b == 0x8000_0000_0000_0000u64,
    ;
}

/// Within one phase, buffers of different lengths are different.
pub proof fn law_lengths_share_no_buffer(n: u64, m: u64, pingpong: bool, phase: bool)
    requires
        untagged(n),
        untagged(m),
        n != m,
    ensures
        tag_f32(n, phase_bit(pingpong, phase)) != tag_f32(m, phase_bit(pingpong, phase)),
        tag_u16(n, phase_bit(pingpong, phase)) != tag_u16(m, phase_bit(pingpong, phase)),
{
    let b: u64 = phase_bit(pingpong, phase);
    assert((n | b) != (m | b) && (n | 0x4000_0000_0000_0000u64 | b) != (m
        | 0x4000_0000_0000_0000u64 | b)) by (bit_vector)
        requires
            n < 0x4000_0000_0000_0000,
            m < 0x4000_0000_0000_0000,
            n != m,
            b == 0 || b == 0x8000_0000_0000_0000u64,
    ;
}

/// Turning the phase over twice leaves the pool as it was, and turning it over
/// once changes which buffers are drawn and none that exist.
pub proof fn law_two_flips_cancel(p: Pools)
    ensures
        p.flipped().flipped() == p,
        p.flipped().entries == p.entries,
        phase_bit(true, p.flipped().phase) != phase_bit(true, p.phase),
{
}

} // verus!
