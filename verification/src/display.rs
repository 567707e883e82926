//! Text forms of intervals and measurements: `{}` for the empty set,
//! `[a, b]`-style brackets for bounds, and `<-` / `->` for unbounded ends.
use vstd::prelude::*;

use vstd::string::StringExecFns;

use crate::bound::{BoundType, FiniteBound, SetBounds, Side};
use crate::measure::Extent;
use crate::numeric::{Element, WideInt};
use crate::sets::{EnumInterval, FiniteInterval, HalfInterval};

verus! {

/// The character of the decimal digit `d`.
pub open spec fn digit_char(d: int) -> char {
    if d == 0 {
        '0'
    } else if d == 1 {
        '1'
    } else if d == 2 {
        '2'
    } else if d == 3 {
        '3'
    } else if d == 4 {
        '4'
    } else if d == 5 {
        '5'
    } else if d == 6 {
        '6'
    } else if d == 7 {
        '7'
    } else if d == 8 {
        '8'
    } else {
        '9'
    }
}

/// The decimal digits of `n`, most significant first.
pub open spec fn nat_text(n: nat) -> Seq<char>
    decreases n,
{
    if n < 10 {
        seq![digit_char(n as int)]
    } else {
        nat_text(n / 10).push(digit_char((n % 10) as int))
    }
}

/// The decimal text of `v`, with a leading `-` when negative.
pub open spec fn int_text(v: int) -> Seq<char> {
    if v < 0 {
        seq!['-'] + nat_text((-v) as nat)
    } else {
        nat_text(v as nat)
    }
}

/// The one-character text of the decimal digit `d`.
fn digit_str(d: u128) -> (r: &'static str)
    requires
        d < 10,
    ensures
        r@ == seq![digit_char(d as int)],
{
    proof {
        reveal_strlit("0");
        reveal_strlit("1");
        reveal_strlit("2");
        reveal_strlit("3");
        reveal_strlit("4");
        reveal_strlit("5");
        reveal_strlit("6");
        reveal_strlit("7");
        reveal_strlit("8");
        reveal_strlit("9");
    }
    if d == 0 {
        "0"
    } else if d == 1 {
        "1"
    } else if d == 2 {
        "2"
    } else if d == 3 {
        "3"
    } else if d == 4 {
        "4"
    } else if d == 5 {
        "5"
    } else if d == 6 {
        "6"
    } else if d == 7 {
        "7"
    } else if d == 8 {
        "8"
    } else {
        "9"
    }
}

/// Appends the decimal digits of `n`.
fn write_nat(f: &mut String, n: u128)
    ensures
        final(f)@ == old(f)@ + nat_text(n as nat),
    decreases n,
{
    if n >= 10 {
        write_nat(f, n / 10);
    }
    f.append(digit_str(n % 10));
    proof {
        assert(final(f)@ =~= old(f)@ + nat_text(n as nat));
    }
}

/// Appends the decimal text of an element.
fn write_value<T: Element>(f: &mut String, v: &T)
    ensures
        final(f)@ == old(f)@ + int_text(v.as_int()),
{
    let w = v.into_wide();
    if w.negative && w.magnitude != 0 {
        proof {
            reveal_strlit("-");
        }
        f.append("-");
    }
    write_nat(f, w.magnitude);
    proof {
        assert(final(f)@ =~= old(f)@ + int_text(v.as_int()));
    }
}

/// The delimiter of a bound of type `bound_type` (open when unbounded) on
/// `side`.
pub open spec fn delim(side: Side, bound_type: Option<BoundType>) -> char {
    match bound_type {
        Some(BoundType::Closed) => match side {
            Side::Left => '[',
            Side::Right => ']',
        },
        _ => match side {
            Side::Left => '(',
            Side::Right => ')',
        },
    }
}

/// The text of the bound on `side`: its delimiter and value, or an arrow
/// when unbounded.
pub open spec fn bound_text(side: Side, bound: Option<(BoundType, int)>) -> Seq<char> {
    let d = delim(
        side,
        match bound {
            Some((bt, _)) => Some(bt),
            None => None,
        },
    );
    let body = match (side, bound) {
        (_, Some((_, v))) => int_text(v),
        (Side::Left, None) => seq!['<', '-'],
        (Side::Right, None) => seq!['-', '>'],
    };
    match side {
        Side::Left => seq![d] + body,
        Side::Right => body + seq![d],
    }
}

/// Appends the delimiter of a bound.
fn write_bound_type(f: &mut String, side: Side, bound_type: Option<BoundType>)
    ensures
        final(f)@ == old(f)@ + seq![delim(side, bound_type)],
{
    proof {
        reveal_strlit("[");
        reveal_strlit("]");
        reveal_strlit("(");
        reveal_strlit(")");
    }
    let closed = match bound_type {
        Some(BoundType::Closed) => true,
        _ => false,
    };
    let delim: &str = if closed {
        side.select("[", "]")
    } else {
        side.select("(", ")")
    };
    f.append(delim);
}

/// The bound type and value of an optional bound, as a value.
pub open spec fn bound_model<T: Element>(bound: Option<&FiniteBound<T>>) -> Option<(BoundType, int)> {
    match bound {
        Some(b) => Some((b.kind(), b.lim())),
        None => None,
    }
}

/// Appends the text of the bound on `side`.
fn write_bound<T: Element>(f: &mut String, side: Side, bound: Option<&FiniteBound<T>>)
    ensures
        final(f)@ == old(f)@ + bound_text(side, bound_model(bound)),
{
    proof {
        reveal_strlit("<-");
        reveal_strlit("->");
    }
    let bound_type = match bound {
        Some(b) => Some(b.bound_type()),
        None => None,
    };
    match side {
        Side::Left => {
            write_bound_type(f, side, bound_type);
            match bound {
                None => f.append("<-"),
                Some(inner) => write_value(f, inner.value()),
            }
        },
        Side::Right => {
            match bound {
                None => f.append("->"),
                Some(inner) => write_value(f, inner.value()),
            }
            write_bound_type(f, side, bound_type);
        },
    }
    proof {
        assert(final(f)@ =~= old(f)@ + bound_text(side, bound_model(bound)));
    }
}

/// The text `lhs, rhs` of two bounds joined.
pub open spec fn pair_text(
    lhs: Option<(BoundType, int)>,
    rhs: Option<(BoundType, int)>,
) -> Seq<char> {
    bound_text(Side::Left, lhs) + seq![',', ' '] + bound_text(Side::Right, rhs)
}

/// Appends the text of a pair of bounds.
fn write_pair<T: Element>(
    f: &mut String,
    lhs: Option<&FiniteBound<T>>,
    rhs: Option<&FiniteBound<T>>,
)
    ensures
        final(f)@ == old(f)@ + pair_text(bound_model(lhs), bound_model(rhs)),
{
    proof {
        reveal_strlit(", ");
    }
    write_bound(f, Side::Left, lhs);
    f.append(", ");
    write_bound(f, Side::Right, rhs);
    proof {
        assert(final(f)@ =~= old(f)@ + pair_text(bound_model(lhs), bound_model(rhs)));
    }
}

impl<T: Element> FiniteInterval<T> {
    /// The text of this interval: `{}` when empty, else `[a, b]`.
    pub open spec fn text(self) -> Seq<char> {
        match self.bounds() {
            None => seq!['{', '}'],
            Some((l, r)) => pair_text(Some((l.kind(), l.lim())), Some((r.kind(), r.lim()))),
        }
    }

    /// The text of this interval.
    pub fn to_string(&self) -> (r: String)
        ensures
            r@ == self.text(),
    {
        proof {
            reveal_strlit("{}");
        }
        let mut f = String::new();
        match self.view_raw() {
            None => f.append("{}"),
            Some((lhs, rhs)) => write_pair(&mut f, Some(lhs), Some(rhs)),
        }
        proof {
            assert(f@ =~= self.text());
        }
        f
    }
}

impl<T: Element> HalfInterval<T> {
    /// The text of this interval: `[a, ->)` or `(<-, b]`.
    pub open spec fn text(self) -> Seq<char> {
        let b = Some((self.bound_spec().kind(), self.bound_spec().lim()));
        match self.side_spec() {
            Side::Left => pair_text(b, None),
            Side::Right => pair_text(None, b),
        }
    }

    /// The text of this interval.
    pub fn to_string(&self) -> (r: String)
        ensures
            r@ == self.text(),
    {
        let mut f = String::new();
        let b = self.finite_bound();
        match self.side() {
            Side::Left => write_pair::<T>(&mut f, Some(b), None),
            Side::Right => write_pair::<T>(&mut f, None, Some(b)),
        }
        proof {
            assert(f@ =~= self.text());
        }
        f
    }
}

impl<T: Element> EnumInterval<T> {
    /// The text of this interval: `(<-, ->)` when unbounded.
    pub open spec fn text(self) -> Seq<char> {
        match self {
            EnumInterval::Finite(f) => f.text(),
            EnumInterval::Half(h) => h.text(),
            EnumInterval::Unbounded => pair_text(None, None),
        }
    }

    /// The text of this interval.
    pub fn to_string(&self) -> (r: String)
        ensures
            r@ == self.text(),
    {
        match self {
            EnumInterval::Finite(inner) => inner.to_string(),
            EnumInterval::Half(inner) => inner.to_string(),
            EnumInterval::Unbounded => {
                let mut f = String::new();
                write_pair::<T>(&mut f, None, None);
                proof {
                    assert(f@ =~= self.text());
                }
                f
            },
        }
    }
}

impl<T: Element> Extent<T> {
    /// The text of this extent: the value, or `∞`.
    pub open spec fn text(self) -> Seq<char> {
        match self {
            Extent::Finite(t) => int_text(t.as_int()),
            Extent::Infinite => seq!['∞'],
        }
    }

    /// The text of this extent.
    pub fn to_string(&self) -> (r: String)
        ensures
            r@ == self.text(),
    {
        proof {
            reveal_strlit("∞");
        }
        let mut f = String::new();
        match self {
            Extent::Finite(t) => write_value(&mut f, t),
            Extent::Infinite => f.append("∞"),
        }
        proof {
            assert(f@ =~= self.text());
        }
        f
    }
}

/// The text of an interval: `{}` for the empty set; otherwise it opens with
/// `[` and the least value when bounded on the left, or `(<-` when not, and
/// closes with the greatest value and `]` when bounded on the right, or `->)`
/// when not.
pub proof fn lemma_interval_text<T: Element>(e: EnumInterval<T>)
    requires
        e.wf(),
    ensures
        e.is_empty_spec() ==> e.text() == seq!['{', '}'],
        !e.is_empty_spec() ==> e.text()[0] == (if e.left_end() is Some {
            '['
        } else {
            '('
        }),
        !e.is_empty_spec() ==> e.text().last() == (if e.right_end() is Some {
            ']'
        } else {
            ')'
        }),
        !e.is_empty_spec() && e.left_end() is Some ==> e.text().subrange(
            1,
            (1 + int_text(e.left_end().unwrap()).len()) as int,
        ) == int_text(e.left_end().unwrap()),
        !e.is_empty_spec() && e.left_end() is None ==> e.text().subrange(1, 3) == seq!['<', '-'],
        !e.is_empty_spec() && e.right_end() is Some ==> e.text().subrange(
            e.text().len() - 1 - int_text(e.right_end().unwrap()).len(),
            e.text().len() - 1,
        ) == int_text(e.right_end().unwrap()),
        !e.is_empty_spec() && e.right_end() is None ==> e.text().subrange(
            e.text().len() - 3,
            e.text().len() - 1,
        ) == seq!['-', '>'],
{
    let l: Option<(BoundType, int)> = match e.left_end() {
        Some(v) => Some((BoundType::Closed, v)),
        None => None,
    };
    let r: Option<(BoundType, int)> = match e.right_end() {
        Some(v) => Some((BoundType::Closed, v)),
        None => None,
    };
    if !e.is_empty_spec() {
        assert(e.text() == pair_text(l, r));
        let lt = bound_text(Side::Left, l);
        let rt = bound_text(Side::Right, r);
        assert(e.text() =~= lt + seq![',', ' '] + rt);
        if let Some(v) = e.left_end() {
            assert(lt.subrange(1, (1 + int_text(v).len()) as int) =~= int_text(v));
        } else {
            assert(lt =~= seq!['(', '<', '-']);
        }
        if let Some(v) = e.right_end() {
            assert(rt.subrange(0, int_text(v).len() as int) =~= int_text(v));
        } else {
            assert(rt =~= seq!['-', '>', ')']);
        }
        assert(e.text().subrange(0, lt.len() as int) =~= lt);
        assert(e.text().subrange(e.text().len() - rt.len(), e.text().len() as int) =~= rt);
    }
}

/// The number a decimal digit character stands for.
pub open spec fn digit_value(c: char) -> int {
    (c as int) - ('0' as int)
}

/// The number a string of decimal digits stands for, read from the left.
pub open spec fn decimal_value(s: Seq<char>) -> int
    decreases s.len(),
{
    if s.len() == 0 {
        0
    } else {
        decimal_value(s.drop_last()) * 10 + digit_value(s.last())
    }
}

/// The decimal text of a number reads back as that number, is made of
/// digits only, and has no leading zero.
pub proof fn lemma_nat_text_reads_back(n: nat)
    ensures
        decimal_value(nat_text(n)) == n,
        forall|i: int| 0 <= i < nat_text(n).len() ==> '0' <= #[trigger] nat_text(n)[i] <= '9',
        nat_text(n).len() >= 1,
        n > 0 ==> nat_text(n)[0] != '0',
    decreases n,
{
    if n < 10 {
        assert(nat_text(n).drop_last() =~= Seq::<char>::empty());
        assert(decimal_value(Seq::<char>::empty()) == 0);
        assert(digit_value(digit_char(n as int)) == n);
        assert(decimal_value(nat_text(n)) == decimal_value(nat_text(n).drop_last()) * 10
            + digit_value(nat_text(n).last()));
    } else {
        lemma_nat_text_reads_back(n / 10);
        let s = nat_text(n / 10);
        let d: int = (n % 10) as int;
        assert(nat_text(n) == s.push(digit_char(d)));
        assert(s.push(digit_char(d)).drop_last() =~= s);
        assert(digit_value(digit_char(d)) == d);
        vstd::arithmetic::div_mod::lemma_fundamental_div_mod(n as int, 10);
        assert(decimal_value(nat_text(n)) == decimal_value(s) * 10 + d);
        assert forall|i: int| 0 <= i < nat_text(n).len() implies '0' <= #[trigger] nat_text(n)[i]
            <= '9' by {
            if i < s.len() {
                assert(nat_text(n)[i] == s[i]);
            }
        }
    }
}

} // verus!
