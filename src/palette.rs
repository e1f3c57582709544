use vstd::arithmetic::div_mod::lemma_div_is_ordered;
use vstd::prelude::*;

verus! {

/// The alphabet that columns are filled from.
pub const NUCLEOTIDES: [char; 5] = ['A', 'T', 'C', 'G', 'U'];

/// Number of alphabet symbols used when a column's letters are regenerated
/// (all but the last one).
pub const REGEN_SYMBOLS: usize = 4;

/// The colour of the head of a column: full-bright white.
pub const HEAD_COLOR: (u8, u8, u8) = (255, 255, 255);

/// Symbol `k` of the alphabet.
pub open spec fn nucleotide(k: int) -> char {
    if k == 0 {
        'A'
    } else if k == 1 {
        'T'
    } else if k == 2 {
        'C'
    } else if k == 3 {
        'G'
    } else {
        'U'
    }
}

/// `c` is one of the first `n` symbols of the alphabet.
pub open spec fn in_alphabet(c: char, n: int) -> bool {
    exists|k: int| 0 <= k < n && #[trigger] nucleotide(k) == c
}

/// The base colour that a symbol is drawn in.
pub open spec fn base_color(ch: char) -> (u8, u8, u8) {
    if ch == 'A' {
        (0, 200, 0)
    } else if ch == 'T' {
        (200, 0, 0)
    } else if ch == 'C' {
        (0, 100, 255)
    } else if ch == 'G' {
        (220, 220, 0)
    } else if ch == 'U' {
        (153, 51, 255)
    } else {
        (0, 200, 0)
    }
}

/// The fade factor `1 - i/t` of trail row `i` is `fade_numerator(i, t) / t`.
pub open spec fn fade_numerator(i: int, t: int) -> int {
    t - i
}

/// One colour channel scaled by the fade factor of trail row `i`, rounded
/// down.
pub open spec fn faded(c: u8, i: int, t: int) -> int {
    (c as int) * fade_numerator(i, t) / t
}

/// The colour of trail row `i` (0 is the head) of a trail of length `t`
/// whose symbol is `ch`.
pub open spec fn trail_color_spec(ch: char, i: int, t: int) -> (u8, u8, u8) {
    if i == 0 {
        HEAD_COLOR
    } else {
        let (r, g, b) = base_color(ch);
        (faded(r, i, t) as u8, faded(g, i, t) as u8, faded(b, i, t) as u8)
    }
}

/// Along a trail of length `t`, the fade factor falls strictly from row to
/// row; it stays above zero up to row `t - 1`, where it is `1/t`, and reaches
/// zero only at row `t`. No channel of a faded colour grows along the trail.
pub proof fn lemma_fade_along_trail(c: u8, t: int, i: int, j: int)
    requires
        0 < t,
        0 <= i < j <= t,
    ensures
        fade_numerator(i, t) > fade_numerator(j, t),
        j < t ==> fade_numerator(j, t) > 0,
        fade_numerator(t - 1, t) == 1,
        fade_numerator(t, t) == 0,
        faded(c, j, t) <= faded(c, i, t),
{
    assert((c as int) * (t - j) <= (c as int) * (t - i)) by (nonlinear_arith)
        requires
            0 <= c,
            t - j <= t - i,
    ;
    lemma_div_is_ordered((c as int) * (t - j), (c as int) * (t - i), t);
}

/// Symbol `k` of the alphabet.
pub fn symbol_at(k: usize) -> (r: char)
    requires
        k < 5,
    ensures
        r == nucleotide(k as int),
{
    NUCLEOTIDES[k]
}

/// The base colour of a symbol; a symbol outside the alphabet is drawn green.
pub fn nucleotide_color(ch: char) -> (r: (u8, u8, u8))
    ensures
        r == base_color(ch),
{
    match ch {
        'A' => (0, 200, 0),
        'T' => (200, 0, 0),
        'C' => (0, 100, 255),
        'G' => (220, 220, 0),
        'U' => (153, 51, 255),
        _ => (0, 200, 0),
    }
}

fn fade_channel(c: u8, i: u16, t: u16) -> (r: u8)
    requires
        0 < i <= t,
    ensures
        r as int == faded(c, i as int, t as int),
        r <= c,
{
    let d: u32 = (t - i) as u32;
    assert((c as u32) * d <= 255 * 65535) by (nonlinear_arith)
        requires
            c <= 255,
            d <= 65535,
    ;
    let scaled: u32 = c as u32 * d;
    assert(scaled <= (c as u32) * (t as u32)) by (nonlinear_arith)
        requires
            scaled == c as u32 * d,
            d <= t,
    ;
    assert(scaled / (t as u32) <= c as u32) by (nonlinear_arith)
        requires
            scaled <= (c as u32) * (t as u32),
            t > 0,
    ;
    (scaled / t as u32) as u8
}

/// The colour of trail row `i` (0 is the head) of a trail of length `t`:
/// the head is white whatever its symbol, every other row is the symbol's
/// base colour faded by `1 - i/t`.
pub fn trail_color(ch: char, i: u16, t: u16) -> (r: (u8, u8, u8))
    requires
        i <= t,
        t > 0,
    ensures
        r == trail_color_spec(ch, i as int, t as int),
        i == 0 ==> r == HEAD_COLOR,
{
    if i == 0 {
        HEAD_COLOR
    } else {
        let (r, g, b) = nucleotide_color(ch);
        (fade_channel(r, i, t), fade_channel(g, i, t), fade_channel(b, i, t))
    }
}

} // verus!
