use vstd::prelude::*;

use crate::unit::Unit;

verus! {

/// The line feed byte, which closes a line.
pub const LF: u8 = 0x0A;

/// The NUL byte, which closes a null-separated record.
pub const NUL: u8 = 0x00;

/// Whether byte `b` closes a unit of `unit`.
pub open spec fn closes_unit(unit: Unit, b: u8) -> bool {
    match unit {
        Unit::Byte => true,
        Unit::Line => b == LF,
        Unit::Null => b == NUL,
    }
}

/// The indices of the bytes of `s` that close a unit, in increasing order.
pub open spec fn boundaries(s: Seq<u8>, unit: Unit) -> Seq<int>
    decreases s.len(),
{
    if s.len() == 0 {
        Seq::empty()
    } else {
        let p = boundaries(s.drop_last(), unit);
        if closes_unit(unit, s.last()) {
            p.push(s.len() - 1)
        } else {
            p
        }
    }
}

/// The indices held in `v`, as integers.
pub open spec fn as_ints(v: Seq<usize>) -> Seq<int> {
    v.map_values(|x: usize| x as int)
}

/// The length of the prefix of `s` that a grant of `granted` tokens admits:
/// up to and including the `granted`-th boundary, or all of `s` when it holds
/// no boundary at all.
pub open spec fn admitted_len(s: Seq<u8>, unit: Unit, granted: int) -> int {
    let b = boundaries(s, unit);
    if b.len() == 0 {
        s.len() as int
    } else {
        b[granted - 1] + 1
    }
}

/// The number of tokens a buffer with `n` boundaries asks for.
pub open spec fn cost_of(n: int) -> int {
    if n > u32::MAX {
        u32::MAX as int
    } else {
        n
    }
}

/// Every boundary lies inside `s`, closes a unit, and the boundaries
/// strictly increase.
pub proof fn lemma_boundaries_well_formed(s: Seq<u8>, unit: Unit)
    ensures
        boundaries(s, unit).len() <= s.len(),
        forall|k: int|
            0 <= k < boundaries(s, unit).len() ==> 0 <= #[trigger] boundaries(s, unit)[k] < s.len()
                && closes_unit(unit, s[boundaries(s, unit)[k]]),
        forall|k: int, l: int|
            0 <= k < l < boundaries(s, unit).len() ==> boundaries(s, unit)[k] < boundaries(
                s,
                unit,
            )[l],
    decreases s.len(),
{
    if s.len() > 0 {
        lemma_boundaries_well_formed(s.drop_last(), unit);
    }
}

/// The boundaries of a prefix of `s` are a prefix of the boundaries of `s`,
/// and the boundaries of `s` beyond them lie beyond the prefix.
pub proof fn lemma_boundaries_of_prefix(s: Seq<u8>, unit: Unit, j: int)
    requires
        0 <= j <= s.len(),
    ensures
        boundaries(s.take(j), unit).len() <= boundaries(s, unit).len(),
        boundaries(s.take(j), unit) == boundaries(s, unit).take(
            boundaries(s.take(j), unit).len() as int,
        ),
        forall|k: int|
            boundaries(s.take(j), unit).len() <= k < boundaries(s, unit).len()
                ==> #[trigger] boundaries(s, unit)[k] >= j,
    decreases s.len(),
{
    let b = boundaries(s, unit);
    if j == s.len() {
        assert(s.take(j) =~= s);
        assert(b.take(b.len() as int) =~= b);
    } else {
        let t = s.drop_last();
        assert(s.take(j) =~= t.take(j));
        lemma_boundaries_of_prefix(t, unit, j);
        let p = boundaries(s.take(j), unit);
        let bt = boundaries(t, unit);
        if closes_unit(unit, s.last()) {
            assert(b =~= bt.push(s.len() - 1));
            assert(p =~= b.take(p.len() as int));
        }
    }
}

/// With the byte as unit, every index is a boundary.
pub proof fn lemma_byte_boundaries(s: Seq<u8>)
    ensures
        boundaries(s, Unit::Byte).len() == s.len(),
        forall|k: int| 0 <= k < s.len() ==> #[trigger] boundaries(s, Unit::Byte)[k] == k,
    decreases s.len(),
{
    if s.len() > 0 {
        lemma_byte_boundaries(s.drop_last());
    }
}

/// The prefix that a grant admits ends right after a boundary and holds
/// exactly as many units as were granted; a buffer without any boundary is
/// admitted whole. So the admitted prefix never ends between two boundaries,
/// and line and null modes never cut a record.
pub proof fn lemma_admission_ends_on_boundary(s: Seq<u8>, unit: Unit, granted: int)
    requires
        boundaries(s, unit).len() > 0 ==> 1 <= granted <= boundaries(s, unit).len(),
    ensures
        0 <= admitted_len(s, unit, granted) <= s.len(),
        boundaries(s, unit).len() == 0 ==> admitted_len(s, unit, granted) == s.len(),
        boundaries(s, unit).len() > 0 ==> {
            let e = admitted_len(s, unit, granted);
            &&& e >= 1
            &&& closes_unit(unit, s[e - 1])
            &&& boundaries(s.take(e), unit).len() == granted
        },
        unit == Unit::Byte && s.len() > 0 ==> admitted_len(s, unit, granted) == granted,
{
    let b = boundaries(s, unit);
    lemma_boundaries_well_formed(s, unit);
    if unit == Unit::Byte {
        lemma_byte_boundaries(s);
    }
    if b.len() > 0 {
        let e = b[granted - 1] + 1;
        lemma_boundaries_of_prefix(s, unit, e);
        let p = boundaries(s.take(e), unit);
        lemma_boundaries_well_formed(s.take(e), unit);
        if p.len() < granted {
            assert(b[granted - 1] >= e);
        }
        if p.len() > granted {
            assert(p[granted as int] == b[granted as int]);
            assert(b[granted - 1] < b[granted as int]);
        }
    }
}

/// The indices of the bytes of `buf` that close a unit of `unit`.
pub fn annotate(buf: &[u8], unit: Unit) -> (r: Vec<usize>)
    ensures
        as_ints(r@) == boundaries(buf@, unit),
{
    let mut points: Vec<usize> = Vec::new();
    let mut i: usize = 0;
    while i < buf.len()
        invariant
            i <= buf@.len(),
            as_ints(points@) == boundaries(buf@.take(i as int), unit),
        decreases buf@.len() - i,
    {
        let b = buf[i];
        let closes = match unit {
            Unit::Byte => true,
            Unit::Line => b == LF,
            Unit::Null => b == NUL,
        };
        proof {
            assert(buf@.take(i + 1).drop_last() =~= buf@.take(i as int));
        }
        if closes {
            points.push(i);
            assert(as_ints(points@) =~= boundaries(buf@.take(i as int), unit).push(i as int));
        }
        i = i + 1;
    }
    assert(buf@.take(buf@.len() as int) =~= buf@);
    points
}

/// The index of every byte of `buf`.
pub fn annotate_bytes(buf: &[u8]) -> (r: Vec<usize>)
    ensures
        as_ints(r@) == boundaries(buf@, Unit::Byte),
{
    annotate(buf, Unit::Byte)
}

/// The indices of the line feeds in `buf`.
pub fn annotate_lines(buf: &[u8]) -> (r: Vec<usize>)
    ensures
        as_ints(r@) == boundaries(buf@, Unit::Line),
{
    annotate(buf, Unit::Line)
}

/// The indices of the NUL bytes in `buf`.
pub fn annotate_nulls(buf: &[u8]) -> (r: Vec<usize>)
    ensures
        as_ints(r@) == boundaries(buf@, Unit::Null),
{
    annotate(buf, Unit::Null)
}

/// The number of units of `unit` that `buf` closes.
pub fn count_units(buf: &[u8], unit: Unit) -> (r: usize)
    ensures
        r == boundaries(buf@, unit).len(),
{
    let mut n: usize = 0;
    let mut i: usize = 0;
    while i < buf.len()
        invariant
            i <= buf@.len(),
            n == boundaries(buf@.take(i as int), unit).len(),
            n <= i,
        decreases buf@.len() - i,
    {
        let b = buf[i];
        let closes = match unit {
            Unit::Byte => true,
            Unit::Line => b == LF,
            Unit::Null => b == NUL,
        };
        proof {
            assert(buf@.take(i + 1).drop_last() =~= buf@.take(i as int));
        }
        if closes {
            n = n + 1;
        }
        i = i + 1;
    }
    assert(buf@.take(buf@.len() as int) =~= buf@);
    n
}

/// The number of bytes in `buf`.
pub fn count_bytes(buf: &[u8]) -> (r: usize)
    ensures
        r == buf@.len(),
        r == boundaries(buf@, Unit::Byte).len(),
{
    proof {
        lemma_byte_boundaries(buf@);
    }
    buf.len()
}

/// The number of line feeds in `buf`.
pub fn count_lines(buf: &[u8]) -> (r: usize)
    ensures
        r == boundaries(buf@, Unit::Line).len(),
{
    count_units(buf, Unit::Line)
}

/// The number of NUL bytes in `buf`.
pub fn count_nulls(buf: &[u8]) -> (r: usize)
    ensures
        r == boundaries(buf@, Unit::Null).len(),
{
    count_units(buf, Unit::Null)
}

/// The number of tokens to ask for a buffer with `points` boundaries: one per
/// boundary, capped at the largest request a limiter takes.
pub fn buffer_cost(points: usize) -> (r: u32)
    ensures
        r == cost_of(points as int),
{
    if points > u32::MAX as usize {
        u32::MAX
    } else {
        points as u32
    }
}

/// The end of the prefix of `buf` that a grant of `granted` tokens admits,
/// given the boundaries `points` of `buf` under `unit`.
pub fn admitted_end(buf: &[u8], unit: Unit, points: &Vec<usize>, granted: u32) -> (r: usize)
    requires
        as_ints(points@) == boundaries(buf@, unit),
        points@.len() > 0 ==> 1 <= granted <= points@.len(),
    ensures
        r == admitted_len(buf@, unit, granted as int),
        r <= buf@.len(),
{
    proof {
        lemma_admission_ends_on_boundary(buf@, unit, granted as int);
        lemma_boundaries_well_formed(buf@, unit);
    }
    if points.len() == 0 {
        buf.len()
    } else {
        let n = buf.len();
        let k = (granted - 1) as usize;
        assert(points@[k as int] as int == as_ints(points@)[k as int]);
        assert(boundaries(buf@, unit)[k as int] < buf@.len());
        assert(points@[k as int] < n);
        points[k] + 1
    }
}

} // verus!
