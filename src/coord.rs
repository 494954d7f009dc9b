//! Fixed-point coordinates and their four-digit decimal text.
use vstd::prelude::*;

verus! {

/// The character of a decimal digit; `d` is taken modulo ten.
pub open spec fn digit_char(d: nat) -> char {
    let d = d % 10;
    if d == 0 {
        '0'
    } else if d == 1 {
        '1'
    } else if d == 2 {
        '2'
    } else if d == 3 {
        '3'
    } else if d == 4 {
        '4'
    } else if d == 5 {
        '5'
    } else if d == 6 {
        '6'
    } else if d == 7 {
        '7'
    } else if d == 8 {
        '8'
    } else {
        '9'
    }
}

pub open spec fn is_digit(c: char) -> bool {
    '0' <= c && c <= '9'
}

/// Decimal text of a natural number, without leading zeros.
pub open spec fn nat_text(n: nat) -> Seq<char>
    decreases n,
{
    if n < 10 {
        seq![digit_char(n)]
    } else {
        nat_text(n / 10).push(digit_char(n % 10))
    }
}

/// The four fraction digits of `f` ten-thousandths, zero-padded.
pub open spec fn frac_text(f: nat) -> Seq<char> {
    seq![digit_char(f / 1000), digit_char(f / 100), digit_char(f / 10), digit_char(f)]
}

/// A coordinate rounded to four decimal places: a sign, a whole part and a
/// fraction counted in ten-thousandths. A negative sign is kept even where
/// both parts are zero, as the text `-0.0000` keeps it.
#[derive(Clone, Copy, Debug, PartialEq, Eq)]
pub struct Coord {
    negative: bool,
    whole: u128,
    frac: u16,
}

impl Coord {
    pub closed spec fn is_negative(self) -> bool {
        self.negative
    }

    pub closed spec fn whole(self) -> nat {
        self.whole as nat
    }

    pub closed spec fn frac(self) -> nat {
        self.frac as nat
    }

    /// The coordinate `(-1)^negative * (whole + frac / 10000)`.
    pub fn new(negative: bool, whole: u128, frac: u16) -> (r: Coord)
        requires
            frac < 10000,
        ensures
            r.is_negative() == negative,
            r.whole() == whole,
            r.frac() == frac,
    {
        Coord { negative, whole, frac }
    }

    /// The whole number `v`.
    pub fn from_int(v: i64) -> (r: Coord)
        ensures
            r.is_negative() == (v < 0),
            r.whole() == if v < 0 { -v } else { v as int },
            r.frac() == 0,
    {
        let whole: u128 = if v < 0 {
            (0i128 - v as i128) as u128
        } else {
            v as u128
        };
        Coord { negative: v < 0, whole, frac: 0 }
    }
}

/// The text of a coordinate: an optional minus sign, the whole part, a point
/// and exactly four fraction digits.
pub open spec fn coord_text(c: Coord) -> Seq<char> {
    (if c.is_negative() {
        seq!['-']
    } else {
        Seq::<char>::empty()
    }) + nat_text(c.whole()) + seq!['.'] + frac_text(c.frac())
}

/// A point of the plane.
#[derive(Clone, Copy, Debug, PartialEq, Eq)]
pub struct Point(pub Coord, pub Coord);

/// `(x, y)`.
pub open spec fn point_text(p: Point) -> Seq<char> {
    "("@ + coord_text(p.0) + ", "@ + coord_text(p.1) + ")"@
}

fn digit_str(d: u128) -> (r: &'static str)
    ensures
        r@ == seq![digit_char(d as nat)],
{
    let d = d % 10;
    proof {
        reveal_strlit("0");
        reveal_strlit("1");
        reveal_strlit("2");
        reveal_strlit("3");
        reveal_strlit("4");
        reveal_strlit("5");
        reveal_strlit("6");
        reveal_strlit("7");
        reveal_strlit("8");
        reveal_strlit("9");
    }
    if d == 0 {
        "0"
    } else if d == 1 {
        "1"
    } else if d == 2 {
        "2"
    } else if d == 3 {
        "3"
    } else if d == 4 {
        "4"
    } else if d == 5 {
        "5"
    } else if d == 6 {
        "6"
    } else if d == 7 {
        "7"
    } else if d == 8 {
        "8"
    } else {
        "9"
    }
}

fn push_nat(out: &mut String, n: u128)
    ensures
        final(out)@ == old(out)@ + nat_text(n as nat),
    decreases n,
{
    if n >= 10 {
        push_nat(out, n / 10);
    }
    out.append(digit_str(n % 10));
    assert(digit_char((n % 10) as nat) == digit_char(n as nat));
}

/// Appends the text of `c` to `out`.
pub fn push_coord(out: &mut String, c: &Coord)
    ensures
        final(out)@ == old(out)@ + coord_text(*c),
{
    proof {
        reveal_strlit("-");
        reveal_strlit(".");
    }
    if c.negative {
        out.append("-");
    }
    push_nat(out, c.whole);
    out.append(".");
    let f = c.frac as u128;
    out.append(digit_str(f / 1000));
    out.append(digit_str(f / 100));
    out.append(digit_str(f / 10));
    out.append(digit_str(f));
    assert(final(out)@ =~= old(out)@ + coord_text(*c));
}

proof fn lemma_nat_text_digits(n: nat)
    ensures
        nat_text(n).len() >= 1,
        forall|i: int| 0 <= i < nat_text(n).len() ==> is_digit(#[trigger] nat_text(n)[i]),
    decreases n,
{
    if n >= 10 {
        lemma_nat_text_digits(n / 10);
    }
}

/// Every coordinate's text has exactly four digits after its decimal point,
/// whatever its sign or magnitude: the point is the fifth character from the
/// end, the four after it are digits, and no point comes before it.
pub proof fn lemma_four_fraction_digits(c: Coord)
    ensures
        coord_text(c).len() >= 6,
        coord_text(c)[coord_text(c).len() - 5] == '.',
        forall|i: int|
            coord_text(c).len() - 4 <= i < coord_text(c).len() ==> is_digit(
                #[trigger] coord_text(c)[i],
            ),
        forall|i: int| 0 <= i < coord_text(c).len() - 5 ==> #[trigger] coord_text(c)[i] != '.',
{
    lemma_nat_text_digits(c.whole());
    let sign = if c.is_negative() {
        seq!['-']
    } else {
        Seq::<char>::empty()
    };
    let t = coord_text(c);
    let w = nat_text(c.whole());
    assert(t =~= sign + w + seq!['.'] + frac_text(c.frac()));
    assert forall|i: int| 0 <= i < t.len() - 5 implies #[trigger] t[i] != '.' by {
        if i >= sign.len() {
            assert(t[i] == w[i - sign.len()]);
        }
    }
}

/// The text of a point is its two coordinates' texts, in order, between
/// parentheses and separated by a comma and a space; so both carry exactly
/// four fraction digits.
pub proof fn lemma_point_text(p: Point)
    ensures
        point_text(p) =~= seq!['('] + coord_text(p.0) + seq![',', ' '] + coord_text(p.1) + seq![')'],
{
    reveal_strlit("(");
    reveal_strlit(", ");
    reveal_strlit(")");
}

impl Point {
    pub fn new(x: Coord, y: Coord) -> (r: Point)
        ensures
            r == Point(x, y),
    {
        Point(x, y)
    }

    /// Appends the text of this point to `out`.
    pub fn push_text(&self, out: &mut String)
        ensures
            final(out)@ == old(out)@ + point_text(*self),
    {
        out.append("(");
        push_coord(out, &self.0);
        out.append(", ");
        push_coord(out, &self.1);
        out.append(")");
        assert(final(out)@ =~= old(out)@ + point_text(*self));
    }

    /// The text `(x, y)`, each coordinate with four fraction digits.
    pub fn to_string(&self) -> (r: String)
        ensures
            r@ == point_text(*self),
    {
        let mut out = String::new();
        self.push_text(&mut out);
        assert(out@ =~= point_text(*self));
        out
    }
}

} // verus!
