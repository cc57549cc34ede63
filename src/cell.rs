//! Stack cells: unsigned machine words whose arithmetic is two's-complement.
use vstd::prelude::*;

verus! {

/// The number of distinct cell values, `2^usize::BITS`.
pub open spec fn cell_range() -> int {
    usize::MAX as int + 1
}

/// The cell holding `i` modulo the cell range (two's-complement narrowing).
pub open spec fn wrap(i: int) -> usize {
    (i % cell_range()) as usize
}

/// The signed reading of a cell's bit pattern.
pub open spec fn signed_value(v: usize) -> int {
    if v <= isize::MAX {
        v as int
    } else {
        v as int - cell_range()
    }
}

/// The absolute value of an integer.
pub open spec fn abs(i: int) -> int {
    if i < 0 {
        -i
    } else {
        i
    }
}

/// Division rounding toward zero, as Rust's signed `/` does.
pub open spec fn trunc_div(x: int, d: int) -> int {
    let q = abs(x) / abs(d);
    if (x < 0) != (d < 0) {
        -q
    } else {
        q
    }
}

/// The remainder of `trunc_div`, carrying the sign of the dividend.
pub open spec fn trunc_rem(x: int, d: int) -> int {
    let r = abs(x) % abs(d);
    if x < 0 {
        -r
    } else {
        r
    }
}

/// Reinterprets a cell as a signed word, keeping its bit pattern.
pub fn to_signed(v: usize) -> (r: isize)
    ensures
        r as int == signed_value(v),
{
    if v <= isize::MAX as usize {
        v as isize
    } else {
        let below: usize = usize::MAX - v;
        -(below as isize) - 1
    }
}

/// The magnitude of the signed reading of `v`, which always fits in a cell.
fn magnitude(v: usize) -> (r: usize)
    ensures
        r as int == abs(signed_value(v)),
{
    if v <= isize::MAX as usize {
        v
    } else {
        usize::MAX - v + 1
    }
}

/// The cell that holds `-m`.
fn negate(m: usize) -> (r: usize)
    ensures
        r == wrap(-(m as int)),
{
    if m == 0 {
        0
    } else {
        assert((-(m as int)) % cell_range() == cell_range() - m) by (nonlinear_arith)
            requires
                0 < m < cell_range(),
        ;
        usize::MAX - m + 1
    }
}

/// `b + a` narrowed to a cell.
pub fn cell_add(b: usize, a: usize) -> (r: usize)
    ensures
        r == wrap(b + a),
{
    assert((b + a) % cell_range() == if b + a > usize::MAX { b + a - cell_range() } else { b + a })
        by (nonlinear_arith)
        requires
            b <= usize::MAX,
            a <= usize::MAX,
    ;
    b.wrapping_add(a)
}

/// `b - a` narrowed to a cell.
pub fn cell_sub(b: usize, a: usize) -> (r: usize)
    ensures
        r == wrap(b - a),
{
    assert((b - a) % cell_range() == if b - a < 0 { b - a + cell_range() } else { b - a })
        by (nonlinear_arith)
        requires
            b <= usize::MAX,
            a <= usize::MAX,
    ;
    b.wrapping_sub(a)
}

/// `b * a` narrowed to a cell.
pub fn cell_mul(b: usize, a: usize) -> (r: usize)
    ensures
        r == wrap(b * a),
{
    b.wrapping_mul(a)
}

/// The signed quotient of `b` by `a`, rounded toward zero and narrowed to a cell.
pub fn cell_div(b: usize, a: usize) -> (r: usize)
    requires
        a != 0,
    ensures
        r == wrap(trunc_div(signed_value(b), signed_value(a))),
{
    let mb = magnitude(b);
    let ma = magnitude(a);
    let q = mb / ma;
    if (b > isize::MAX as usize) != (a > isize::MAX as usize) {
        negate(q)
    } else {
        assert(q as int % cell_range() == q as int) by (nonlinear_arith)
            requires
                0 <= q < cell_range(),
        ;
        q
    }
}

/// The signed remainder of `b` by `a`, with the sign of `b`, narrowed to a cell.
pub fn cell_rem(b: usize, a: usize) -> (r: usize)
    requires
        a != 0,
    ensures
        r == wrap(trunc_rem(signed_value(b), signed_value(a))),
{
    let mb = magnitude(b);
    let ma = magnitude(a);
    let m = mb % ma;
    if b > isize::MAX as usize {
        negate(m)
    } else {
        assert(m as int % cell_range() == m as int) by (nonlinear_arith)
            requires
                0 <= m < cell_range(),
        ;
        m
    }
}

/// Whether `v` is a Unicode scalar value, the values a `char` can hold.
pub open spec fn is_scalar(v: int) -> bool {
    (0 <= v && v <= 0xD7FF) || (0xE000 <= v && v <= 0x10FFFF)
}

/// The glyph a cell stands for: its codepoint, or U+FFFD where it names none.
pub open spec fn glyph_of(v: usize) -> char {
    if is_scalar(v as int) {
        v as char
    } else {
        '\u{FFFD}'
    }
}

/// Relies on `char::from_u32`: `Some` exactly for scalar values, holding that value.
#[verifier::external_body]
fn char_from_u32(v: u32) -> (r: Option<char>)
    ensures
        is_scalar(v as int) ==> r == Some(v as char),
        !is_scalar(v as int) ==> r is None,
{
    char::from_u32(v)
}

/// The glyph a cell stands for, as `,` prints it and `p` writes it.
pub fn cell_to_char(v: usize) -> (c: char)
    ensures
        c == glyph_of(v),
{
    if v <= 0x10FFFF {
        match char_from_u32(v as u32) {
            Some(c) => c,
            None => '\u{FFFD}',
        }
    } else {
        '\u{FFFD}'
    }
}

/// The cell holding the codepoint of `c`.
pub fn char_to_cell(c: char) -> (v: usize)
    ensures
        v == c as int,
        glyph_of(v) == c,
{
    c as u32 as usize
}

/// The ASCII digit for `d < 10`.
pub open spec fn digit_char(d: int) -> char {
    (48 + d) as char
}

/// The decimal numeral of `n`, most significant digit first, without leading zeros.
pub open spec fn decimal(n: nat) -> Seq<char>
    decreases n,
{
    if n < 10 {
        seq![digit_char(n as int)]
    } else {
        decimal(n / 10).push(digit_char((n % 10) as int))
    }
}

/// Appends the decimal numeral of `n` to `out`.
pub fn push_decimal(n: usize, out: &mut Vec<char>)
    ensures
        final(out)@ == old(out)@ + decimal(n as nat),
    decreases n,
{
    if n >= 10 {
        push_decimal(n / 10, out);
    }
    let d: u8 = (n % 10) as u8;
    out.push((48u8 + d) as char);
    assert(out@ =~= old(out)@ + decimal(n as nat));
}

} // verus!
