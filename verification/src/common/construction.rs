//! Glyphs assembled from parts.
//!
//! A font describes a glyph that can grow as a list of parts, some of them
//! extenders. Neighbouring parts overlap, within limits; by placing the
//! extenders more often and choosing the overlaps, the assembly reaches any
//! size from a smallest one on.

use vstd::prelude::*;

use crate::common::Glyph;
use crate::length::{clamp_wide, div_floor};

verus! {

/// One part of a glyph assembly.
#[derive(Clone, Copy, Debug, PartialEq, Eq, Structural)]
pub struct ConstructionPart {
    pub glyph: Glyph,
    /// The length of the part in the direction of growth.
    pub size: i64,
    /// How far the part may at most overlap the part before it.
    pub max_start_overlap: i64,
    /// How far the part may at most overlap the part after it.
    pub max_end_overlap: i64,
    pub is_extender: bool,
}

/// A glyph assembly: the parts in their order, and the overlap that two
/// neighbours should at least have.
#[derive(Clone, Debug, PartialEq, Eq)]
pub struct Construction {
    pub min_overlap: i64,
    pub parts: Vec<ConstructionPart>,
}

/// The largest number of parts of a well-formed construction.
pub const MAX_PARTS: usize = 0xffff;

/// The largest length in a well-formed construction.
pub const MAX_LENGTH: i64 = 0x3fff_ffff;

/// How often a part is placed for an extender count of `extenders`: a part
/// that is no extender once, an extender as often as the count says.
pub open spec fn copies(part: ConstructionPart, extenders: nat) -> nat {
    if part.is_extender {
        extenders
    } else {
        1
    }
}

/// The parts as they are placed for an extender count: in their order, each
/// as often as [`copies`] says.
pub open spec fn placed(parts: Seq<ConstructionPart>, extenders: nat) -> Seq<ConstructionPart>
    decreases parts.len(),
{
    if parts.len() == 0 {
        Seq::empty()
    } else {
        placed(parts.drop_last(), extenders) + Seq::new(
            copies(parts.last(), extenders),
            |j: int| parts.last(),
        )
    }
}

/// The parts of a list that are no extenders, in their order.
pub open spec fn fixed_parts(s: Seq<ConstructionPart>) -> Seq<ConstructionPart>
    decreases s.len(),
{
    if s.len() == 0 {
        Seq::empty()
    } else if s.last().is_extender {
        fixed_parts(s.drop_last())
    } else {
        fixed_parts(s.drop_last()).push(s.last())
    }
}

/// Copies of an extender behind a list add nothing to the parts of the list
/// that are no extenders.
pub proof fn lemma_fixed_parts_with_copies(
    s: Seq<ConstructionPart>,
    part: ConstructionPart,
    count: nat,
)
    requires
        part.is_extender,
    ensures
        fixed_parts(s + Seq::new(count, |j: int| part)) == fixed_parts(s),
    decreases count,
{
    let all = s + Seq::new(count, |j: int| part);
    if count == 0 {
        assert(all =~= s);
    } else {
        lemma_fixed_parts_with_copies(s, part, (count - 1) as nat);
        assert(all.drop_last() =~= s + Seq::new((count - 1) as nat, |j: int| part));
        assert(all.last() == part);
    }
}

/// Whatever the extender count, the placed parts that are no extenders are
/// those of the construction, each once and in their order.
pub proof fn lemma_fixed_parts_stay(parts: Seq<ConstructionPart>, extenders: nat)
    ensures
        fixed_parts(placed(parts, extenders)) == fixed_parts(parts),
    decreases parts.len(),
{
    if parts.len() > 0 {
        let front = placed(parts.drop_last(), extenders);
        let part = parts.last();
        lemma_fixed_parts_stay(parts.drop_last(), extenders);
        if part.is_extender {
            lemma_fixed_parts_with_copies(front, part, extenders);
        } else {
            let all = front + Seq::new(1, |j: int| part);
            assert(all.drop_last() =~= front);
            assert(all.last() == part);
        }
    }
}

/// The largest overlap allowed between the placed part `i` and the one before
/// it: what both sides allow. The first part overlaps nothing.
pub open spec fn max_overlap_at(s: Seq<ConstructionPart>, i: int) -> int {
    let before = if i == 0 {
        0
    } else {
        s[i - 1].max_end_overlap as int
    };
    crate::length::min(s[i].max_start_overlap as int, before)
}

/// The smallest overlap allowed between the placed part `i` and the one before
/// it: the construction's minimum, unless the largest one is smaller.
pub open spec fn min_overlap_at(s: Seq<ConstructionPart>, min_overlap: int, i: int) -> int {
    crate::length::min(min_overlap, max_overlap_at(s, i))
}

/// The length of the first `n` placed parts where all overlap as far as they
/// may.
pub open spec fn min_size_upto(s: Seq<ConstructionPart>, n: int) -> int
    decreases n,
{
    if n <= 0 {
        0
    } else {
        min_size_upto(s, n - 1) + s[n - 1].size - max_overlap_at(s, n - 1)
    }
}

/// The length of the first `n` placed parts where all overlap as little as
/// they may.
pub open spec fn max_size_upto(s: Seq<ConstructionPart>, min_overlap: int, n: int) -> int
    decreases n,
{
    if n <= 0 {
        0
    } else {
        max_size_upto(s, min_overlap, n - 1) + s[n - 1].size - min_overlap_at(
            s,
            min_overlap,
            n - 1,
        )
    }
}

/// The smallest length of the placed parts.
pub open spec fn min_size(s: Seq<ConstructionPart>) -> int {
    min_size_upto(s, s.len() as int)
}

/// The largest length of the placed parts.
pub open spec fn max_size(s: Seq<ConstructionPart>, min_overlap: int) -> int {
    max_size_upto(s, min_overlap, s.len() as int)
}

/// The length that an assembly of the placed parts aims at: the length asked
/// for, or the smallest possible one where that is larger.
pub open spec fn goal(s: Seq<ConstructionPart>, wanted: int) -> int {
    crate::length::max(wanted, min_size(s))
}

/// The overlap that the assembly gives the placed part `i` with the one before
/// it. Every overlap lies the same fraction of the way from its smallest to
/// its largest value: the fraction by which the goal lies below the largest
/// length. The result is rounded down to an integer.
pub open spec fn overlap_at(
    s: Seq<ConstructionPart>,
    min_overlap: int,
    wanted: int,
    i: int,
) -> int {
    let lo = min_overlap_at(s, min_overlap, i);
    let hi = max_overlap_at(s, i);
    let spread = max_size(s, min_overlap) - min_size(s);
    let excess = max_size(s, min_overlap) - goal(s, wanted);
    if spread <= 0 {
        lo
    } else {
        lo + ((hi - lo) * excess) / spread
    }
}

/// The length of the first `n` placed parts with the overlaps that the
/// assembly gives them.
pub open spec fn assembled_size_upto(
    s: Seq<ConstructionPart>,
    min_overlap: int,
    wanted: int,
    n: int,
) -> int
    decreases n,
{
    if n <= 0 {
        0
    } else {
        assembled_size_upto(s, min_overlap, wanted, n - 1) + s[n - 1].size - overlap_at(
            s,
            min_overlap,
            wanted,
            n - 1,
        )
    }
}

/// The length of the assembly.
pub open spec fn assembled_size(s: Seq<ConstructionPart>, min_overlap: int, wanted: int) -> int {
    assembled_size_upto(s, min_overlap, wanted, s.len() as int)
}

/// The length of the first `n` parts of a list of parts with their overlaps:
/// the sizes of the parts less the overlaps.
pub open spec fn emitted_size_upto(list: Seq<(i64, ConstructionPart)>, n: int) -> int
    decreases n,
{
    if n <= 0 {
        0
    } else {
        emitted_size_upto(list, n - 1) + list[n - 1].1.size - list[n - 1].0
    }
}

/// The length of a list of parts with their overlaps.
pub open spec fn emitted_size(list: Seq<(i64, ConstructionPart)>) -> int {
    emitted_size_upto(list, list.len() as int)
}

/// The assembly: every placed part with its overlap.
pub open spec fn assembled(s: Seq<ConstructionPart>, min_overlap: int, wanted: int) -> Seq<
    (i64, ConstructionPart),
> {
    Seq::new(s.len(), |i: int| (overlap_at(s, min_overlap, wanted, i) as i64, s[i]))
}

/// The lengths of the part are not negative and at most [`MAX_LENGTH`].
pub open spec fn part_wf(part: ConstructionPart) -> bool {
    &&& 0 <= part.size <= MAX_LENGTH
    &&& 0 <= part.max_start_overlap <= MAX_LENGTH
    &&& 0 <= part.max_end_overlap <= MAX_LENGTH
}

/// Every part of the list is well-formed.
pub open spec fn parts_wf(s: Seq<ConstructionPart>) -> bool {
    forall|i: int| 0 <= i < s.len() ==> part_wf(#[trigger] s[i])
}

/// Placing well-formed parts gives well-formed parts.
pub proof fn lemma_placed_wf(parts: Seq<ConstructionPart>, extenders: nat)
    requires
        parts_wf(parts),
    ensures
        parts_wf(placed(parts, extenders)),
    decreases parts.len(),
{
    if parts.len() > 0 {
        assert(parts_wf(parts.drop_last())) by {
            assert forall|i: int| 0 <= i < parts.drop_last().len() implies part_wf(
                #[trigger] parts.drop_last()[i],
            ) by {
                assert(parts.drop_last()[i] == parts[i]);
            }
        }
        lemma_placed_wf(parts.drop_last(), extenders);
        assert(part_wf(parts.last()));
    }
}

/// The windows of well-formed parts: the overlaps that are allowed are not
/// negative, and the smallest is at most the largest.
pub proof fn lemma_window(s: Seq<ConstructionPart>, min_overlap: int, i: int)
    requires
        parts_wf(s),
        0 <= min_overlap,
        0 <= i < s.len(),
    ensures
        0 <= min_overlap_at(s, min_overlap, i) <= max_overlap_at(s, i) <= MAX_LENGTH,
{
    assert(part_wf(s[i]));
    if i > 0 {
        assert(part_wf(s[i - 1]));
    }
}

/// The smallest and the largest length of the first `n` well-formed parts:
/// the smallest is at most the largest, and both are bounded by the number of
/// parts.
pub proof fn lemma_sizes_upto(s: Seq<ConstructionPart>, min_overlap: int, n: int)
    requires
        parts_wf(s),
        0 <= min_overlap,
        0 <= n <= s.len(),
    ensures
        -n * MAX_LENGTH <= min_size_upto(s, n) <= max_size_upto(s, min_overlap, n) <= n
            * MAX_LENGTH,
        max_size_upto(s, min_overlap, n) - min_size_upto(s, n) <= n * MAX_LENGTH,
    decreases n,
{
    if n > 0 {
        lemma_sizes_upto(s, min_overlap, n - 1);
        lemma_window(s, min_overlap, n - 1);
        assert(part_wf(s[n - 1]));
    }
}

/// The overlap that the assembly gives a part lies in the window of the part.
pub proof fn lemma_overlap_in_window(
    s: Seq<ConstructionPart>,
    min_overlap: int,
    wanted: int,
    i: int,
)
    requires
        parts_wf(s),
        0 <= min_overlap,
        0 <= i < s.len(),
        wanted <= max_size(s, min_overlap),
    ensures
        min_overlap_at(s, min_overlap, i) <= overlap_at(s, min_overlap, wanted, i)
            <= max_overlap_at(s, i),
{
    lemma_window(s, min_overlap, i);
    lemma_sizes_upto(s, min_overlap, s.len() as int);
    let lo = min_overlap_at(s, min_overlap, i);
    let hi = max_overlap_at(s, i);
    let spread = max_size(s, min_overlap) - min_size(s);
    let excess = max_size(s, min_overlap) - goal(s, wanted);
    if spread > 0 {
        lemma_fraction(hi - lo, excess, spread);
    }
}

/// A fraction of a length: for `0 <= excess <= spread`, the part
/// `excess / spread` of `d`, rounded down, lies between 0 and `d`, and
/// `spread` times it is at most `d * excess` and less than `spread` below it.
pub proof fn lemma_fraction(d: int, excess: int, spread: int)
    requires
        0 <= d,
        0 <= excess <= spread,
        0 < spread,
    ensures
        0 <= (d * excess) / spread <= d,
        ((d * excess) / spread) * spread <= d * excess,
        ((d * excess) / spread) * spread >= d * excess - (spread - 1),
{
    assert(0 <= d * excess <= d * spread) by (nonlinear_arith)
        requires
            0 <= d,
            0 <= excess <= spread,
    ;
    vstd::arithmetic::div_mod::lemma_fundamental_div_mod(d * excess, spread);
    vstd::arithmetic::div_mod::lemma_mod_bound(d * excess, spread);
    let q = (d * excess) / spread;
    assert(spread * q <= d * excess);
    assert(q * spread == spread * q) by (nonlinear_arith);
    assert(q >= 0) by (nonlinear_arith)
        requires
            spread * q + (d * excess) % spread == d * excess,
            0 <= (d * excess) % spread < spread,
            0 <= d * excess,
            0 < spread,
    ;
    assert(q <= d) by (nonlinear_arith)
        requires
            spread * q <= d * spread,
            0 < spread,
    ;
}

/// The assembly is at least as long as its goal, and at most as long as the
/// placed parts can be: rounding the overlaps down only makes it longer, for
/// every part by less than one unit.
pub proof fn lemma_assembled_size_upto(
    s: Seq<ConstructionPart>,
    min_overlap: int,
    wanted: int,
    n: int,
)
    requires
        parts_wf(s),
        0 <= min_overlap,
        0 <= n <= s.len(),
        wanted <= max_size(s, min_overlap),
    ensures
        assembled_size_upto(s, min_overlap, wanted, n) <= max_size_upto(s, min_overlap, n),
        ({
            let spread = max_size(s, min_overlap) - min_size(s);
            let excess = max_size(s, min_overlap) - goal(s, wanted);
            spread > 0 ==> assembled_size_upto(s, min_overlap, wanted, n) * spread
                >= max_size_upto(s, min_overlap, n) * spread - excess * (max_size_upto(
                s,
                min_overlap,
                n,
            ) - min_size_upto(s, n))
        }),
        ({
            let spread = max_size(s, min_overlap) - min_size(s);
            let excess = max_size(s, min_overlap) - goal(s, wanted);
            spread > 0 ==> assembled_size_upto(s, min_overlap, wanted, n) * spread
                <= max_size_upto(s, min_overlap, n) * spread - excess * (max_size_upto(
                s,
                min_overlap,
                n,
            ) - min_size_upto(s, n)) + n * (spread - 1)
        }),
        max_size(s, min_overlap) - min_size(s) <= 0 ==> assembled_size_upto(
            s,
            min_overlap,
            wanted,
            n,
        ) == max_size_upto(s, min_overlap, n),
    decreases n,
{
    if n > 0 {
        lemma_assembled_size_upto(s, min_overlap, wanted, n - 1);
        lemma_overlap_in_window(s, min_overlap, wanted, n - 1);
        lemma_window(s, min_overlap, n - 1);
        lemma_sizes_upto(s, min_overlap, s.len() as int);
        let spread = max_size(s, min_overlap) - min_size(s);
        let excess = max_size(s, min_overlap) - goal(s, wanted);
        let lo = min_overlap_at(s, min_overlap, n - 1);
        let hi = max_overlap_at(s, n - 1);
        if spread > 0 {
            lemma_fraction(hi - lo, excess, spread);
            let q = ((hi - lo) * excess) / spread;
            let a0 = assembled_size_upto(s, min_overlap, wanted, n - 1);
            let x0 = max_size_upto(s, min_overlap, n - 1);
            let m0 = min_size_upto(s, n - 1);
            let size = s[n - 1].size as int;
            assert(assembled_size_upto(s, min_overlap, wanted, n) == a0 + size - (lo + q));
            assert(max_size_upto(s, min_overlap, n) == x0 + size - lo);
            assert(min_size_upto(s, n) == m0 + size - hi);
            assert((a0 + size - (lo + q)) * spread >= (x0 + size - lo) * spread - excess * ((x0
                + size - lo) - (m0 + size - hi))) by (nonlinear_arith)
                requires
                    a0 * spread >= x0 * spread - excess * (x0 - m0),
                    q * spread <= (hi - lo) * excess,
            ;
            assert((a0 + size - (lo + q)) * spread <= (x0 + size - lo) * spread - excess * ((x0
                + size - lo) - (m0 + size - hi)) + n * (spread - 1)) by (nonlinear_arith)
                requires
                    a0 * spread <= x0 * spread - excess * (x0 - m0) + (n - 1) * (spread - 1),
                    q * spread >= (hi - lo) * excess - (spread - 1),
            ;
        }
    } else {
        let spread = max_size(s, min_overlap) - min_size(s);
        let excess = max_size(s, min_overlap) - goal(s, wanted);
        assert(0 * spread <= 0 * spread - excess * (0 - 0) + n * (spread - 1)) by (nonlinear_arith)
            requires
                n == 0,
        ;
    }
}

/// The length of an assembly is that of its parts less their overlaps.
pub proof fn lemma_emitted_size(s: Seq<ConstructionPart>, min_overlap: int, wanted: int, n: int)
    requires
        parts_wf(s),
        0 <= min_overlap,
        0 <= n <= s.len(),
        wanted <= max_size(s, min_overlap),
    ensures
        emitted_size_upto(assembled(s, min_overlap, wanted), n) == assembled_size_upto(
            s,
            min_overlap,
            wanted,
            n,
        ),
        n == s.len() ==> emitted_size(assembled(s, min_overlap, wanted)) == assembled_size(
            s,
            min_overlap,
            wanted,
        ),
    decreases n,
{
    if n > 0 {
        lemma_emitted_size(s, min_overlap, wanted, n - 1);
        lemma_overlap_in_window(s, min_overlap, wanted, n - 1);
        lemma_window(s, min_overlap, n - 1);
    }
}

/// What an assembly owes: it is at least as long as was asked for. It is as
/// long as its goal, or longer by less than one unit for every placed part.
pub proof fn lemma_assembled_size(s: Seq<ConstructionPart>, min_overlap: int, wanted: int)
    requires
        parts_wf(s),
        0 <= min_overlap,
        wanted <= max_size(s, min_overlap),
    ensures
        wanted <= goal(s, wanted) <= assembled_size(s, min_overlap, wanted) <= max_size(
            s,
            min_overlap,
        ),
        assembled_size(s, min_overlap, wanted) == goal(s, wanted) || assembled_size(
            s,
            min_overlap,
            wanted,
        ) < goal(s, wanted) + s.len(),
{
    let n = s.len() as int;
    lemma_assembled_size_upto(s, min_overlap, wanted, n);
    lemma_sizes_upto(s, min_overlap, n);
    let spread = max_size(s, min_overlap) - min_size(s);
    let excess = max_size(s, min_overlap) - goal(s, wanted);
    let a = assembled_size(s, min_overlap, wanted);
    let x = max_size(s, min_overlap);
    if spread > 0 {
        assert(a >= x - excess) by (nonlinear_arith)
            requires
                a * spread >= x * spread - excess * spread,
                spread > 0,
        ;
        assert(a < x - excess + n || a == x - excess) by (nonlinear_arith)
            requires
                a * spread <= x * spread - excess * spread + n * (spread - 1),
                spread > 0,
                n >= 0,
        ;
    }
}

/// How far the part at the end of placed parts may overlap what follows; 0
/// where nothing is placed.
pub open spec fn end_overlap(s: Seq<ConstructionPart>) -> int {
    if s.len() == 0 {
        0
    } else {
        s.last().max_end_overlap as int
    }
}

/// By how much an assembly can at most grow with one more copy of a part
/// behind a copy of the same part: nothing for a part that is no extender.
pub open spec fn growth(part: ConstructionPart, min_overlap: int) -> int {
    if part.is_extender {
        part.size - crate::length::min(
            min_overlap,
            crate::length::min(part.max_start_overlap as int, part.max_end_overlap as int),
        )
    } else {
        0
    }
}

/// By how much the largest length of an assembly grows from one extender
/// count to the next, from the count 1 on: the sum of the growths of the
/// parts.
pub open spec fn total_growth(parts: Seq<ConstructionPart>, min_overlap: int) -> int
    decreases parts.len(),
{
    if parts.len() == 0 {
        0
    } else {
        total_growth(parts.drop_last(), min_overlap) + growth(parts.last(), min_overlap)
    }
}

/// The lengths of the first placed parts do not depend on what is placed
/// behind them.
pub proof fn lemma_sizes_of_prefix(
    s: Seq<ConstructionPart>,
    t: Seq<ConstructionPart>,
    min_overlap: int,
    n: int,
)
    requires
        0 <= n <= s.len(),
    ensures
        max_size_upto(s + t, min_overlap, n) == max_size_upto(s, min_overlap, n),
        min_size_upto(s + t, n) == min_size_upto(s, n),
    decreases n,
{
    if n > 0 {
        lemma_sizes_of_prefix(s, t, min_overlap, n - 1);
        assert((s + t)[n - 1] == s[n - 1]);
        if n > 1 {
            assert((s + t)[n - 2] == s[n - 2]);
        }
    }
}

/// The largest length of placed parts with `count` copies of one more part
/// behind them: every copy adds its size less its smallest overlap, which
/// for the first copy is that with the part before it and for the others
/// that with itself.
pub proof fn lemma_max_size_with_copies(
    s: Seq<ConstructionPart>,
    part: ConstructionPart,
    count: nat,
    min_overlap: int,
)
    ensures
        count == 0 ==> max_size(s + Seq::new(count, |j: int| part), min_overlap) == max_size(
            s,
            min_overlap,
        ),
        count >= 1 ==> max_size(s + Seq::new(count, |j: int| part), min_overlap) == max_size(
            s,
            min_overlap,
        ) + part.size - crate::length::min(
            min_overlap,
            crate::length::min(part.max_start_overlap as int, end_overlap(s)),
        ) + (count - 1) * (part.size - crate::length::min(
            min_overlap,
            crate::length::min(part.max_start_overlap as int, part.max_end_overlap as int),
        )),
    decreases count,
{
    let copies = Seq::new(count, |j: int| part);
    let all = s + copies;
    if count == 0 {
        assert(all =~= s);
    } else {
        let fewer = Seq::new((count - 1) as nat, |j: int| part);
        let before = s + fewer;
        lemma_max_size_with_copies(s, part, (count - 1) as nat, min_overlap);
        assert(all =~= before + seq![part]);
        lemma_sizes_of_prefix(before, seq![part], min_overlap, before.len() as int);
        let n = all.len() as int;
        assert(all[n - 1] == part);
        assert(max_size(all, min_overlap) == max_size_upto(all, min_overlap, n - 1) + part.size
            - min_overlap_at(all, min_overlap, n - 1));
        if count == 1 {
            assert(before =~= s);
            if s.len() > 0 {
                assert(all[n - 2] == s.last());
            }
        } else {
            assert(all[n - 2] == part);
            assert((count - 1) * (part.size - crate::length::min(
                min_overlap,
                crate::length::min(part.max_start_overlap as int, part.max_end_overlap as int),
            )) == (count - 2) * (part.size - crate::length::min(
                min_overlap,
                crate::length::min(part.max_start_overlap as int, part.max_end_overlap as int),
            )) + (part.size - crate::length::min(
                min_overlap,
                crate::length::min(part.max_start_overlap as int, part.max_end_overlap as int),
            ))) by (nonlinear_arith);
        }
    }
}

/// From the extender count 1 on, the part that is placed last is the last
/// part.
pub proof fn lemma_end_overlap_of_placed(parts: Seq<ConstructionPart>, extenders: nat)
    requires
        extenders >= 1,
    ensures
        end_overlap(placed(parts, extenders)) == end_overlap(parts),
        placed(parts, extenders).len() >= parts.len(),
{
    if parts.len() > 0 {
        let front = placed(parts.drop_last(), extenders);
        let copies = Seq::new(copies(parts.last(), extenders), |j: int| parts.last());
        assert(copies.len() >= 1);
        assert((front + copies).last() == copies.last());
        lemma_placed_len(parts.drop_last(), extenders);
    }
}

/// From the extender count 1 on, every part is placed at least once.
pub proof fn lemma_placed_len(parts: Seq<ConstructionPart>, extenders: nat)
    requires
        extenders >= 1,
    ensures
        placed(parts, extenders).len() >= parts.len(),
    decreases parts.len(),
{
    if parts.len() > 0 {
        lemma_placed_len(parts.drop_last(), extenders);
    }
}

/// For the extender count 1 every part is placed once.
pub proof fn lemma_placed_once(parts: Seq<ConstructionPart>)
    ensures
        placed(parts, 1) =~= parts,
    decreases parts.len(),
{
    if parts.len() > 0 {
        lemma_placed_once(parts.drop_last());
    }
}

/// From the extender count 1 on, the largest length of an assembly grows by
/// the same amount with every extender more.
pub proof fn lemma_max_size_step(parts: Seq<ConstructionPart>, min_overlap: int, extenders: nat)
    requires
        extenders >= 1,
    ensures
        max_size(placed(parts, extenders + 1), min_overlap) == max_size(
            placed(parts, extenders),
            min_overlap,
        ) + total_growth(parts, min_overlap),
    decreases parts.len(),
{
    if parts.len() > 0 {
        let front = parts.drop_last();
        let part = parts.last();
        lemma_max_size_step(front, min_overlap, extenders);
        lemma_end_overlap_of_placed(front, extenders);
        lemma_end_overlap_of_placed(front, extenders + 1);
        lemma_max_size_with_copies(
            placed(front, extenders),
            part,
            copies(part, extenders),
            min_overlap,
        );
        lemma_max_size_with_copies(
            placed(front, extenders + 1),
            part,
            copies(part, extenders + 1),
            min_overlap,
        );
        if part.is_extender {
            let step = part.size - crate::length::min(
                min_overlap,
                crate::length::min(part.max_start_overlap as int, part.max_end_overlap as int),
            );
            assert(extenders * step == (extenders - 1) * step + step) by (nonlinear_arith);
        }
    }
}

/// From the extender count 1 on, the largest length of an assembly is that
/// for the count 1 and the growth for every extender more.
pub proof fn lemma_max_size_linear(parts: Seq<ConstructionPart>, min_overlap: int, extenders: nat)
    requires
        extenders >= 1,
    ensures
        max_size(placed(parts, extenders), min_overlap) == max_size(placed(parts, 1), min_overlap)
            + (extenders - 1) * total_growth(parts, min_overlap),
    decreases extenders,
{
    let g = total_growth(parts, min_overlap);
    if extenders > 1 {
        let fewer = (extenders - 1) as nat;
        lemma_max_size_linear(parts, min_overlap, fewer);
        lemma_max_size_step(parts, min_overlap, fewer);
        assert(fewer + 1 == extenders);
        assert((extenders - 1) * g == (fewer - 1) * g + g) by (nonlinear_arith)
            requires
                fewer == extenders - 1,
        ;
    } else {
        assert((extenders - 1) * g == 0) by (nonlinear_arith)
            requires
                extenders == 1,
        ;
    }
}

/// The value of a construction that may be missing.
pub open spec fn view_of(construction: Option<Construction>) -> Option<ConstructionView> {
    match construction {
        Some(c) => Some(c@),
        None => None,
    }
}

/// The mathematical value of a [`Construction`].
pub ghost struct ConstructionView {
    pub min_overlap: i64,
    pub parts: Seq<ConstructionPart>,
}

impl View for Construction {
    type V = ConstructionView;

    open spec fn view(&self) -> ConstructionView {
        ConstructionView { min_overlap: self.min_overlap, parts: self.parts@ }
    }
}

impl ConstructionView {
    /// The lengths are not negative and at most [`MAX_LENGTH`], and there are
    /// at most [`MAX_PARTS`] parts.
    pub open spec fn wf(self) -> bool {
        &&& self.parts.len() <= MAX_PARTS
        &&& 0 <= self.min_overlap <= MAX_LENGTH
        &&& parts_wf(self.parts)
    }

    /// The placed parts for an extender count.
    pub open spec fn placed(self, extenders: nat) -> Seq<ConstructionPart> {
        placed(self.parts, extenders)
    }

    /// Whether the assembly with this extender count can be made as long as
    /// `wanted`.
    pub open spec fn fits(self, extenders: nat, wanted: int) -> bool {
        max_size(self.placed(extenders), self.min_overlap as int) >= wanted
    }

    /// Whether some extender count fits.
    pub open spec fn reaches(self, wanted: int) -> bool {
        exists|k: nat| #[trigger] self.fits(k, wanted)
    }

    /// Whether `extenders` is the smallest extender count that fits.
    pub open spec fn is_least_fit(self, extenders: nat, wanted: int) -> bool {
        &&& self.fits(extenders, wanted)
        &&& forall|k: nat| k < extenders ==> !#[trigger] self.fits(k, wanted)
    }

    /// The smallest extender count that fits, where there is one.
    pub open spec fn least_fit(self, wanted: int) -> nat {
        choose|k: nat| self.is_least_fit(k, wanted)
    }

    /// The assembly at least `wanted` long with the smallest extender count
    /// that fits: its length and the placed parts with their overlaps. `None`
    /// where the construction is not well-formed or no extender count fits.
    pub open spec fn assembly(self, wanted: int) -> Option<(i64, Seq<(i64, ConstructionPart)>)> {
        if self.wf() && self.reaches(wanted) {
            let s = self.placed(self.least_fit(wanted));
            Some(
                (
                    crate::length::clamp(assembled_size(s, self.min_overlap as int, wanted)),
                    assembled(s, self.min_overlap as int, wanted),
                ),
            )
        } else {
            None
        }
    }

    /// There is one smallest extender count that fits.
    pub proof fn lemma_least_fit(self, extenders: nat, wanted: int)
        requires
            self.fits(extenders, wanted),
            forall|k: nat| k < extenders ==> !#[trigger] self.fits(k, wanted),
        ensures
            self.is_least_fit(extenders, wanted),
            self.least_fit(wanted) == extenders,
            self.reaches(wanted),
    {
        assert(self.is_least_fit(extenders, wanted));
        let k = self.least_fit(wanted);
        assert(self.is_least_fit(k, wanted));
        if k < extenders {
            assert(!self.fits(k, wanted));
        }
        if extenders < k {
            assert(!self.fits(extenders, wanted));
        }
    }

    /// The lengths that a construction reaches: those that it reaches without
    /// extenders or with one copy of each, and every length where one more
    /// copy of each extender makes the assembly longer.
    pub proof fn lemma_reaches(self, wanted: int)
        ensures
            self.reaches(wanted) <==> self.fits(0, wanted) || self.fits(1, wanted) || total_growth(
                self.parts,
                self.min_overlap as int,
            ) > 0,
    {
        let g = total_growth(self.parts, self.min_overlap as int);
        let once = max_size(self.placed(1), self.min_overlap as int);
        if g > 0 {
            let more: nat = if wanted > once {
                (wanted - once) as nat
            } else {
                0
            };
            let k: nat = more + 1;
            lemma_max_size_linear(self.parts, self.min_overlap as int, k);
            assert((k - 1) * g >= more) by (nonlinear_arith)
                requires
                    k - 1 == more,
                    g >= 1,
            ;
            assert(self.fits(k, wanted));
        } else if self.reaches(wanted) {
            let k = choose|k: nat| #[trigger] self.fits(k, wanted);
            if k >= 1 {
                lemma_max_size_linear(self.parts, self.min_overlap as int, k);
                assert((k - 1) * g <= 0) by (nonlinear_arith)
                    requires
                        k >= 1,
                        g <= 0,
                ;
                assert(self.fits(1, wanted));
            }
        }
    }

    /// A construction reaches every length where no extender overlaps a
    /// neighbour by more than its own size and some extender is longer than
    /// the smallest overlap.
    pub proof fn lemma_extender_reaches(self, wanted: int)
        requires
            forall|i: int|
                0 <= i < self.parts.len() && (#[trigger] self.parts[i]).is_extender
                    ==> self.parts[i].max_start_overlap <= self.parts[i].size
                    && self.parts[i].max_end_overlap <= self.parts[i].size,
            exists|i: int|
                0 <= i < self.parts.len() && (#[trigger] self.parts[i]).is_extender
                    && self.parts[i].size > self.min_overlap,
        ensures
            self.reaches(wanted),
    {
        let i = choose|i: int|
            0 <= i < self.parts.len() && (#[trigger] self.parts[i]).is_extender
                && self.parts[i].size > self.min_overlap;
        assert forall|j: int| 0 <= j < self.parts.len() implies growth(
            #[trigger] self.parts[j],
            self.min_overlap as int,
        ) >= 0 by {}
        lemma_total_growth(self.parts, self.min_overlap as int, i);
        self.lemma_reaches(wanted);
    }
}

/// Where no part shrinks an assembly, the growth of all parts is at least
/// that of each.
pub proof fn lemma_total_growth(parts: Seq<ConstructionPart>, min_overlap: int, i: int)
    requires
        forall|j: int| 0 <= j < parts.len() ==> growth(#[trigger] parts[j], min_overlap) >= 0,
        0 <= i < parts.len(),
    ensures
        total_growth(parts, min_overlap) >= growth(parts[i], min_overlap),
        total_growth(parts, min_overlap) >= 0,
    decreases parts.len(),
{
    let front = parts.drop_last();
    assert forall|j: int| 0 <= j < front.len() implies growth(#[trigger] front[j], min_overlap)
        >= 0 by {
        assert(front[j] == parts[j]);
    }
    if front.len() > 0 {
        lemma_total_growth(front, min_overlap, 0);
    } else {
        assert(total_growth(front, min_overlap) == 0);
    }
    assert(parts.last() == parts[parts.len() - 1]);
    if i < front.len() {
        lemma_total_growth(front, min_overlap, i);
        assert(front[i] == parts[i]);
    }
    assert(growth(parts[parts.len() - 1], min_overlap) >= 0);
}

impl Construction {
    /// Whether the construction is well-formed.
    pub fn is_wf(&self) -> (r: bool)
        ensures
            r == self@.wf(),
    {
        if self.parts.len() > MAX_PARTS || self.min_overlap < 0 || self.min_overlap > MAX_LENGTH {
            return false;
        }
        let n: usize = self.parts.len();
        let mut i: usize = 0;
        while i < n
            invariant
                i <= n,
                n == self.parts@.len(),
                forall|j: int| 0 <= j < i ==> part_wf(#[trigger] self.parts@[j]),
            decreases n - i,
        {
            let p: &ConstructionPart = &self.parts[i];
            if p.size < 0 || p.size > MAX_LENGTH || p.max_start_overlap < 0 || p.max_start_overlap
                > MAX_LENGTH || p.max_end_overlap < 0 || p.max_end_overlap > MAX_LENGTH {
                return false;
            }
            i = i + 1;
        }
        true
    }

    /// The smallest and the largest length of an assembly with this extender
    /// count, and the number of parts placed in it, as far as a `u32` counts.
    pub fn size_bounds(&self, extenders: u32) -> (r: (i64, i64, u32))
        requires
            self@.wf(),
        ensures
            r.0 == crate::length::clamp(min_size(self@.placed(extenders as nat))),
            r.1 == crate::length::clamp(
                max_size(self@.placed(extenders as nat), self.min_overlap as int),
            ),
            r.2 == crate::length::min(self@.placed(extenders as nat).len() as int, u32::MAX as int),
            r.0 <= r.1,
    {
        let s: Vec<ConstructionPart> = self.place(extenders as u64);
        proof {
            lemma_placed_wf(self.parts@, extenders as nat);
        }
        let (lo, hi): (i128, i128) = measure(&s, self.min_overlap);
        let len: u32 = if s.len() > 0xffff_ffff {
            u32::MAX
        } else {
            s.len() as u32
        };
        (clamp_wide(lo), clamp_wide(hi), len)
    }

    /// Assembles the glyph at least `min_size` long, with as few extenders as
    /// that takes, where the construction is well-formed and some extender
    /// count reaches that length; `None` otherwise.
    ///
    /// The result is the length of the assembly and the placed parts, each
    /// with the overlap it has with the part before it. Every overlap lies in
    /// the window that the two parts allow.
    pub fn try_construct(&self, min_size: i64) -> (r: Option<(i64, Vec<(i64, ConstructionPart)>)>)
        ensures
            match r {
                Some((size, list)) => self@.assembly(min_size as int) == Some((size, list@)),
                None => self@.assembly(min_size as int) is None,
            },
            r is Some <==> self@.wf() && self@.reaches(min_size as int),
            r matches Some((size, list)) ==> {
                let k = self@.least_fit(min_size as int);
                &&& self@.is_least_fit(k, min_size as int)
                &&& size >= min_size
                &&& size == crate::length::clamp(emitted_size(list@))
                &&& forall|i: int|
                    0 <= i < list@.len() ==> min_overlap_at(
                        self@.placed(k),
                        self.min_overlap as int,
                        i,
                    ) <= (#[trigger] list@[i]).0 <= max_overlap_at(self@.placed(k), i)
                &&& forall|i: int|
                    0 <= i < list@.len() && self.min_overlap <= max_overlap_at(self@.placed(k), i)
                        ==> self.min_overlap <= (#[trigger] list@[i]).0
            },
    {
        if !self.is_wf() {
            return None;
        }
        let ghost parts = self.parts@;
        let ghost least = self.min_overlap as int;
        let ghost wanted = min_size as int;
        let none: Vec<ConstructionPart> = self.place(0);
        proof {
            lemma_placed_wf(parts, 0);
        }
        let (lo, hi): (i128, i128) = measure(&none, self.min_overlap);
        if hi >= min_size as i128 {
            proof {
                self@.lemma_least_fit(0, wanted);
            }
            return Some(assemble(&none, self.min_overlap, min_size, lo, hi));
        }
        let once: Vec<ConstructionPart> = self.place(1);
        proof {
            lemma_placed_wf(parts, 1);
        }
        let (lo, hi): (i128, i128) = measure(&once, self.min_overlap);
        if hi >= min_size as i128 {
            proof {
                assert forall|k: nat| k < 1 implies !#[trigger] self@.fits(k, wanted) by {
                    assert(k == 0);
                }
                self@.lemma_least_fit(1, wanted);
            }
            return Some(assemble(&once, self.min_overlap, min_size, lo, hi));
        }
        // neither no extender nor one of each is enough: from here on every
        // extender more adds the same
        let step: i128 = self.growth_sum();
        if step <= 0 {
            proof {
                assert forall|k: nat| !#[trigger] self@.fits(k, wanted) by {
                    if k >= 1 {
                        lemma_max_size_linear(parts, least, k);
                        assert((k - 1) * step <= 0) by (nonlinear_arith)
                            requires
                                k >= 1,
                                step <= 0,
                        ;
                    }
                }
            }
            return None;
        }
        proof {
            lemma_placed_once(parts);
        }
        let need: i128 = min_size as i128 - hi;
        let more: i128 = div_floor(need + step - 1, step);
        proof {
            vstd::arithmetic::div_mod::lemma_fundamental_div_mod(need + step - 1, step as int);
            vstd::arithmetic::div_mod::lemma_mod_bound(need + step - 1, step as int);
            assert(more * step >= need && (more - 1) * step < need) by (nonlinear_arith)
                requires
                    need + step - 1 == step * more + (need + step - 1) % (step as int),
                    0 <= (need + step - 1) % (step as int) < step,
                    step > 0,
            ;
            assert(more >= 1) by (nonlinear_arith)
                requires
                    more * step >= need,
                    need > 0,
                    step > 0,
            ;
            assert(more <= need) by (nonlinear_arith)
                requires
                    (more - 1) * step < need,
                    more >= 1,
                    step >= 1,
            ;
        }
        let k: u64 = (more + 1) as u64;
        let many: Vec<ConstructionPart> = self.place(k);
        proof {
            lemma_placed_wf(parts, k as nat);
            lemma_max_size_linear(parts, least, k as nat);
            assert forall|j: nat| j < k implies !#[trigger] self@.fits(j, wanted) by {
                if j >= 1 {
                    lemma_max_size_linear(parts, least, j);
                    assert((j - 1) * step <= (more - 1) * step) by (nonlinear_arith)
                        requires
                            j - 1 <= more - 1,
                            step > 0,
                    ;
                }
            }
            self@.lemma_least_fit(k as nat, wanted);
        }
        let (lo, hi): (i128, i128) = measure(&many, self.min_overlap);
        Some(assemble(&many, self.min_overlap, min_size, lo, hi))
    }

    /// By how much the largest length of an assembly grows with every
    /// extender more.
    fn growth_sum(&self) -> (r: i128)
        requires
            self@.wf(),
        ensures
            r == total_growth(self.parts@, self.min_overlap as int),
            -self.parts@.len() * MAX_LENGTH <= r <= self.parts@.len() * MAX_LENGTH,
    {
        let n: usize = self.parts.len();
        let mut sum: i128 = 0;
        let mut i: usize = 0;
        assert(self.parts@.take(0) =~= Seq::<ConstructionPart>::empty());
        while i < n
            invariant
                i <= n,
                n == self.parts@.len(),
                self@.wf(),
                sum == total_growth(self.parts@.take(i as int), self.min_overlap as int),
                -(i as int) * MAX_LENGTH <= sum <= (i as int) * MAX_LENGTH,
            decreases n - i,
        {
            let part: ConstructionPart = self.parts[i];
            proof {
                assert(self.parts@.take(i + 1).drop_last() == self.parts@.take(i as int));
                assert(self.parts@.take(i + 1).last() == part);
                assert(part_wf(self.parts@[i as int]));
            }
            if part.is_extender {
                let both: i64 = if part.max_start_overlap <= part.max_end_overlap {
                    part.max_start_overlap
                } else {
                    part.max_end_overlap
                };
                let overlap: i64 = if self.min_overlap <= both {
                    self.min_overlap
                } else {
                    both
                };
                sum = sum + (part.size as i128 - overlap as i128);
            }
            i = i + 1;
        }
        proof {
            assert(self.parts@.take(n as int) == self.parts@);
        }
        sum
    }

    /// Assembles the glyph at least `min_size` long, with as few extenders as
    /// that takes.
    ///
    /// The result is the length of the assembly and the placed parts, each
    /// with the overlap it has with the part before it. Every overlap lies in
    /// the window that the two parts allow.
    pub fn construct(&self, min_size: i64) -> (r: (i64, Vec<(i64, ConstructionPart)>))
        requires
            self@.wf(),
            self@.reaches(min_size as int),
        ensures
            self@.assembly(min_size as int) == Some((r.0, r.1@)),
            self@.is_least_fit(self@.least_fit(min_size as int), min_size as int),
            r.0 >= min_size,
            r.0 == crate::length::clamp(emitted_size(r.1@)),
            forall|i: int|
                0 <= i < r.1@.len() ==> min_overlap_at(
                    self@.placed(self@.least_fit(min_size as int)),
                    self.min_overlap as int,
                    i,
                ) <= (#[trigger] r.1@[i]).0 <= max_overlap_at(
                    self@.placed(self@.least_fit(min_size as int)),
                    i,
                ),
            forall|i: int|
                0 <= i < r.1@.len() && self.min_overlap <= max_overlap_at(
                    self@.placed(self@.least_fit(min_size as int)),
                    i,
                ) ==> self.min_overlap <= (#[trigger] r.1@[i]).0,
    {
        match self.try_construct(min_size) {
            Some(r) => r,
            None => (min_size, Vec::new()),
        }
    }

    /// The parts as they are placed for an extender count.
    pub fn iter_parts(&self, extenders: u32) -> (r: Vec<ConstructionPart>)
        ensures
            r@ == self@.placed(extenders as nat),
    {
        self.place(extenders as u64)
    }

    /// The parts as they are placed for an extender count of any size.
    fn place(&self, extenders: u64) -> (r: Vec<ConstructionPart>)
        ensures
            r@ == self@.placed(extenders as nat),
    {
        let mut out: Vec<ConstructionPart> = Vec::new();
        let n: usize = self.parts.len();
        let mut i: usize = 0;
        while i < n
            invariant
                i <= n,
                n == self.parts@.len(),
                out@ == placed(self.parts@.take(i as int), extenders as nat),
            decreases n - i,
        {
            let part: ConstructionPart = self.parts[i];
            let count: u64 = if part.is_extender {
                extenders
            } else {
                1
            };
            let ghost before = out@;
            let mut j: u64 = 0;
            while j < count
                invariant
                    j <= count,
                    out@ == before + Seq::new(j as nat, |x: int| part),
                decreases count - j,
            {
                out.push(part);
                j = j + 1;
                assert(out@ == before + Seq::new(j as nat, |x: int| part));
            }
            proof {
                assert(self.parts@.take(i + 1).drop_last() == self.parts@.take(i as int));
                assert(self.parts@.take(i + 1).last() == part);
            }
            i = i + 1;
        }
        proof {
            assert(self.parts@.take(n as int) == self.parts@);
        }
        out
    }
}

/// The smallest and the largest length of the placed parts.
fn measure(s: &Vec<ConstructionPart>, min_overlap: i64) -> (r: (i128, i128))
    requires
        parts_wf(s@),
        0 <= min_overlap <= MAX_LENGTH,
    ensures
        r.0 == min_size(s@),
        r.1 == max_size(s@, min_overlap as int),
        -s@.len() * MAX_LENGTH <= r.0 <= r.1 <= s@.len() * MAX_LENGTH,
{
    let n: usize = s.len();
    let mut lo: i128 = 0;
    let mut hi: i128 = 0;
    let mut before: i64 = 0;
    let mut i: usize = 0;
    while i < n
        invariant
            i <= n,
            n == s@.len(),
            parts_wf(s@),
            0 <= min_overlap <= MAX_LENGTH,
            before == (if i == 0 {
                0
            } else {
                s@[i - 1].max_end_overlap
            }),
            lo == min_size_upto(s@, i as int),
            hi == max_size_upto(s@, min_overlap as int, i as int),
            -(i as int) * MAX_LENGTH <= lo <= hi <= (i as int) * MAX_LENGTH,
        decreases n - i,
    {
        let part: ConstructionPart = s[i];
        proof {
            lemma_window(s@, min_overlap as int, i as int);
            assert(part_wf(s@[i as int]));
        }
        let most: i64 = if part.max_start_overlap <= before {
            part.max_start_overlap
        } else {
            before
        };
        let least: i64 = if min_overlap <= most {
            min_overlap
        } else {
            most
        };
        lo = lo + (part.size as i128 - most as i128);
        hi = hi + (part.size as i128 - least as i128);
        before = part.max_end_overlap;
        i = i + 1;
    }
    (lo, hi)
}

/// Gives every placed part its overlap.
fn assemble(
    s: &Vec<ConstructionPart>,
    min_overlap: i64,
    wanted: i64,
    lo: i128,
    hi: i128,
) -> (r: (i64, Vec<(i64, ConstructionPart)>))
    requires
        parts_wf(s@),
        0 <= min_overlap <= MAX_LENGTH,
        lo == min_size(s@),
        hi == max_size(s@, min_overlap as int),
        wanted <= hi,
    ensures
        r.1@ == assembled(s@, min_overlap as int, wanted as int),
        r.0 == crate::length::clamp(assembled_size(s@, min_overlap as int, wanted as int)),
        r.0 >= wanted,
        r.0 == crate::length::clamp(emitted_size(r.1@)),
        forall|i: int|
            0 <= i < r.1@.len() ==> min_overlap_at(s@, min_overlap as int, i) <= (
            #[trigger] r.1@[i]).0 <= max_overlap_at(s@, i),
        forall|i: int|
            0 <= i < r.1@.len() && min_overlap <= max_overlap_at(s@, i) ==> min_overlap <= (
            #[trigger] r.1@[i]).0,
{
    let n: usize = s.len();
    proof {
        lemma_sizes_upto(s@, min_overlap as int, n as int);
        lemma_assembled_size(s@, min_overlap as int, wanted as int);
        lemma_emitted_size(s@, min_overlap as int, wanted as int, n as int);
    }
    let aim: i128 = if wanted as i128 >= lo {
        wanted as i128
    } else {
        lo
    };
    let spread: i128 = hi - lo;
    let excess: i128 = hi - aim;
    let mut out: Vec<(i64, ConstructionPart)> = Vec::new();
    let mut total: i128 = 0;
    let mut before: i64 = 0;
    let mut i: usize = 0;
    while i < n
        invariant
            i <= n,
            n == s@.len(),
            parts_wf(s@),
            0 <= min_overlap <= MAX_LENGTH,
            lo == min_size(s@),
            hi == max_size(s@, min_overlap as int),
            wanted <= hi,
            aim == goal(s@, wanted as int),
            spread == hi - lo,
            excess == hi - aim,
            0 <= excess <= spread <= n * MAX_LENGTH,
            before == (if i == 0 {
                0
            } else {
                s@[i - 1].max_end_overlap
            }),
            out@.len() == i,
            forall|j: int|
                0 <= j < i ==> #[trigger] out@[j] == (
                    overlap_at(s@, min_overlap as int, wanted as int, j) as i64,
                    s@[j],
                ),
            forall|j: int|
                0 <= j < i ==> min_overlap_at(s@, min_overlap as int, j) <= (
                #[trigger] out@[j]).0 <= max_overlap_at(s@, j),
            total == assembled_size_upto(s@, min_overlap as int, wanted as int, i as int),
            -(i as int) * MAX_LENGTH <= total <= (i as int) * MAX_LENGTH,
        decreases n - i,
    {
        let part: ConstructionPart = s[i];
        proof {
            lemma_window(s@, min_overlap as int, i as int);
            lemma_overlap_in_window(s@, min_overlap as int, wanted as int, i as int);
            assert(part_wf(s@[i as int]));
        }
        let most: i64 = if part.max_start_overlap <= before {
            part.max_start_overlap
        } else {
            before
        };
        let least: i64 = if min_overlap <= most {
            min_overlap
        } else {
            most
        };
        let overlap: i64 = if spread <= 0 {
            least
        } else {
            let d: i128 = most as i128 - least as i128;
            assert(0 <= d * excess <= 0x4000_0000 * (0x1_0000_0000_0000_0000 * 0x4000_0000))
                by (nonlinear_arith)
                requires
                    0 <= d <= 0x4000_0000,
                    0 <= excess <= 0x1_0000_0000_0000_0000 * 0x4000_0000,
            ;
            let q: i128 = div_floor(d * excess, spread);
            (least as i128 + q) as i64
        };
        total = total + (part.size as i128 - overlap as i128);
        out.push((overlap, part));
        before = part.max_end_overlap;
        i = i + 1;
    }
    proof {
        assert(out@ =~= assembled(s@, min_overlap as int, wanted as int));
    }
    (clamp_wide(total), out)
}

} // verus!
