//! Numbers as the search command and the player write them: a sign, digits
//! with a point among them, an exponent; or one of the words `inf`,
//! `infinity` and `nan`. A number is read as far as its whole units go, and
//! these are the whole units of the number as it is written: nothing is
//! rounded to what a binary fraction can hold.

use crate::text::{
    all_digits, digits_only, digits_value, find_char, is_digit, lemma_digits_value_push, position,
    read_digits, to_chars,
};
use vstd::prelude::*;

verus! {

/// What a number says as far as whole units go.
pub enum Numeral {
    /// A number with so many whole units, below zero or not.
    Finite { negative: bool, whole: nat },
    Infinite { negative: bool },
    NotANumber,
}

/// Whether `c` is the lower-case letter `letter` in either case.
pub open spec fn same_letter(c: char, letter: char) -> bool {
    c == letter || c as u32 + 32 == letter as u32
}

/// Whether `s` spells the lower-case word `word`, in whatever case.
pub open spec fn spells(s: Seq<char>, word: Seq<char>) -> bool {
    s.len() == word.len() && forall|i: int| 0 <= i < s.len() ==> same_letter(#[trigger] s[i], word[i])
}

/// The word for infinity.
pub open spec fn word_inf() -> Seq<char> {
    seq!['i', 'n', 'f']
}

/// The long word for infinity.
pub open spec fn word_infinity() -> Seq<char> {
    seq!['i', 'n', 'f', 'i', 'n', 'i', 't', 'y']
}

/// The word for a value that is no number.
pub open spec fn word_nan() -> Seq<char> {
    seq!['n', 'a', 'n']
}

/// Whether `c` marks the start of an exponent.
pub open spec fn is_mark(c: char) -> bool {
    c == 'e' || c == 'E'
}

/// The index of the first exponent mark in `s`, or `s.len()` where there is
/// none.
pub open spec fn mark_position(s: Seq<char>) -> int
    decreases s.len(),
{
    if s.len() == 0 || is_mark(s[0]) {
        0
    } else {
        1 + mark_position(s.drop_first())
    }
}

/// `k` zeros.
pub open spec fn zeros(k: nat) -> Seq<char> {
    Seq::new(k, |i: int| '0')
}

/// The digits that stand before the point when the point stands after the
/// first `point` of `digits`: none where it stands before them all, and
/// with zeros at the end where it stands past the last.
pub open spec fn shifted(digits: Seq<char>, point: int) -> Seq<char> {
    if point <= 0 {
        Seq::empty()
    } else if point <= digits.len() {
        digits.take(point)
    } else {
        digits + zeros((point - digits.len()) as nat)
    }
}

/// `n`, or the largest `u64` where `n` is beyond it.
pub open spec fn saturated(n: nat) -> u64 {
    if n > u64::MAX {
        u64::MAX
    } else {
        n as u64
    }
}

/// The exponent that `s` spells: digits with at most a sign in front. An
/// exponent beyond the largest `u64` counts as that; no text that fits in
/// memory can tell the two apart.
pub open spec fn exponent(s: Seq<char>) -> Option<int> {
    let signed = s.len() > 0 && (s[0] == '-' || s[0] == '+');
    let digits = if signed {
        s.drop_first()
    } else {
        s
    };
    if digits.len() > 0 && all_digits(digits) {
        if signed && s[0] == '-' {
            Some(-(saturated(digits_value(digits)) as int))
        } else {
            Some(saturated(digits_value(digits)) as int)
        }
    } else {
        None
    }
}

/// The whole units of the unsigned number that `body` spells: digits with
/// an optional point among them, at least one digit in all, and an optional
/// exponent that moves the point.
pub open spec fn magnitude(body: Seq<char>) -> Option<nat> {
    let k = mark_position(body);
    let mantissa = body.take(k);
    let p = position(mantissa, '.');
    let whole = mantissa.take(p);
    let fraction = if p < mantissa.len() {
        mantissa.skip(p + 1)
    } else {
        Seq::empty()
    };
    let e = if k < body.len() {
        exponent(body.skip(k + 1))
    } else {
        Some(0int)
    };
    if all_digits(whole) && all_digits(fraction) && whole.len() + fraction.len() > 0 && e is Some {
        Some(digits_value(shifted(whole + fraction, whole.len() + e->0)))
    } else {
        None
    }
}

/// Reads `s` as a number: an optional sign, then `inf`, `infinity` or `nan`
/// in whatever case, or digits with point and exponent. `None` where `s` is
/// none of these.
pub open spec fn numeral(s: Seq<char>) -> Option<Numeral> {
    let signed = s.len() > 0 && (s[0] == '-' || s[0] == '+');
    let negative = signed && s[0] == '-';
    let body = if signed {
        s.drop_first()
    } else {
        s
    };
    if spells(body, word_inf()) || spells(body, word_infinity()) {
        Some(Numeral::Infinite { negative })
    } else if spells(body, word_nan()) {
        Some(Numeral::NotANumber)
    } else {
        match magnitude(body) {
            Some(whole) => Some(Numeral::Finite { negative, whole }),
            None => None,
        }
    }
}

/// A number as it is held: the whole units stop at the largest `u64`.
#[derive(Clone, Copy, Debug, PartialEq, Eq, Structural)]
pub enum Reading {
    Finite { negative: bool, whole: u64 },
    Infinite { negative: bool },
    NotANumber,
}

/// The reading of the numeral `n`.
pub open spec fn reading_of(n: Numeral) -> Reading {
    match n {
        Numeral::Finite { negative, whole } => Reading::Finite {
            negative,
            whole: saturated(whole),
        },
        Numeral::Infinite { negative } => Reading::Infinite { negative },
        Numeral::NotANumber => Reading::NotANumber,
    }
}

/// The first mark is where the scan for it stops.
proof fn lemma_mark_position_is(s: Seq<char>, k: int)
    requires
        0 <= k <= s.len(),
        forall|i: int| 0 <= i < k ==> !is_mark(s[i]),
        k == s.len() || is_mark(s[k]),
    ensures
        mark_position(s) == k,
    decreases s.len(),
{
    if s.len() > 0 && !is_mark(s[0]) {
        let t = s.drop_first();
        assert forall|i: int| 0 <= i < k - 1 implies !is_mark(t[i]) by {
            assert(t[i] == s[i + 1]);
        }
        lemma_mark_position_is(t, k - 1);
    }
}

/// A zero at the end of zeros is one more zero.
proof fn lemma_zeros_push(x: Seq<char>, k: nat)
    ensures
        x + zeros(k + 1) == (x + zeros(k)).push('0'),
        digits_value(x + zeros(k + 1)) == digits_value(x + zeros(k)) * 10,
{
    assert(x + zeros(k + 1) =~= (x + zeros(k)).push('0'));
    lemma_digits_value_push(x + zeros(k), '0');
}

/// Zeros at the end never make a number smaller, and they leave zero at
/// zero.
proof fn lemma_zeros_grow(x: Seq<char>, j: nat, k: nat)
    requires
        j <= k,
    ensures
        digits_value(x + zeros(j)) <= digits_value(x + zeros(k)),
        digits_value(x + zeros(j)) == 0 ==> digits_value(x + zeros(k)) == 0,
    decreases k - j,
{
    if j < k {
        lemma_zeros_grow(x, j, (k - 1) as nat);
        lemma_zeros_push(x, (k - 1) as nat);
    }
}

/// The index of the first exponent mark in `from..to`, or `to`.
fn find_mark(v: &Vec<char>, from: usize, to: usize) -> (r: usize)
    requires
        from <= to <= v.len(),
    ensures
        from <= r <= to,
        r - from == mark_position(v@.subrange(from as int, to as int)),
{
    let ghost s = v@.subrange(from as int, to as int);
    let mut i: usize = from;
    while i < to && v[i] != 'e' && v[i] != 'E'
        invariant
            from <= i <= to <= v.len(),
            s == v@.subrange(from as int, to as int),
            forall|j: int| 0 <= j < i - from ==> !is_mark(s[j]),
        decreases to - i,
    {
        i += 1;
    }
    proof {
        lemma_mark_position_is(s, i - from);
    }
    i
}

/// Whether `v[from..to]` spells `word`.
fn spells_word(v: &Vec<char>, from: usize, to: usize, word: &Vec<char>) -> (b: bool)
    requires
        from <= to <= v.len(),
    ensures
        b == spells(v@.subrange(from as int, to as int), word@),
{
    let ghost s = v@.subrange(from as int, to as int);
    if to - from != word.len() {
        return false;
    }
    let mut i: usize = 0;
    while i < word.len()
        invariant
            i <= word.len(),
            from <= to <= v.len(),
            to - from == word.len(),
            s == v@.subrange(from as int, to as int),
            forall|j: int| 0 <= j < i ==> same_letter(#[trigger] s[j], word@[j]),
        decreases word.len() - i,
    {
        let c = v[from + i];
        let letter = word[i];
        let code: u64 = (c as u32) as u64;
        let wanted: u64 = (letter as u32) as u64;
        if !(c == letter || code + 32 == wanted) {
            assert(!same_letter(s[i as int], word@[i as int]));
            return false;
        }
        i += 1;
    }
    true
}

/// Takes the digits `v[from..to]` in after the digits `before`: from the
/// number that `before` spells to the number that both spell in a row.
fn take_digits(v: &Vec<char>, from: usize, to: usize, acc: u64, Ghost(before): Ghost<Seq<char>>) -> (r:
    u64)
    requires
        from <= to <= v.len(),
        all_digits(v@.subrange(from as int, to as int)),
        acc == saturated(digits_value(before)),
    ensures
        r == saturated(digits_value(before + v@.subrange(from as int, to as int))),
{
    let ghost s = v@.subrange(from as int, to as int);
    let mut acc = acc;
    let mut i: usize = from;
    assert(before + s.take(0) =~= before);
    while i < to
        invariant
            from <= i <= to <= v.len(),
            s == v@.subrange(from as int, to as int),
            all_digits(s),
            acc == saturated(digits_value(before + s.take(i - from))),
        decreases to - i,
    {
        let c = v[i];
        assert(c == s[i - from]);
        assert(is_digit(c));
        let d: u64 = (c as u32 - '0' as u32) as u64;
        proof {
            assert(before + s.take(i - from + 1) =~= (before + s.take(i - from)).push(c));
            lemma_digits_value_push(before + s.take(i - from), c);
        }
        acc = if acc > (u64::MAX - d) / 10 {
            u64::MAX
        } else {
            acc * 10 + d
        };
        i += 1;
    }
    assert(s.take(to - from) =~= s);
    acc
}

/// Puts `extra` zeros after the digits `before`.
fn take_zeros(acc: u64, extra: u64, Ghost(before): Ghost<Seq<char>>) -> (r: u64)
    requires
        acc == saturated(digits_value(before)),
    ensures
        r == saturated(digits_value(before + zeros(extra as nat))),
{
    let mut acc = acc;
    let mut j: u64 = 0;
    assert(before + zeros(0) =~= before);
    while j < extra && acc != 0 && acc != u64::MAX
        invariant
            j <= extra,
            acc == saturated(digits_value(before + zeros(j as nat))),
        decreases extra - j,
    {
        proof {
            lemma_zeros_push(before, j as nat);
        }
        acc = if acc > u64::MAX / 10 {
            u64::MAX
        } else {
            acc * 10
        };
        j += 1;
    }
    proof {
        lemma_zeros_grow(before, j as nat, extra as nat);
    }
    acc
}

/// An exponent as it is held: its sign and its size.
struct Exponent {
    negative: bool,
    size: u64,
}

impl Exponent {
    /// The number that the exponent stands for.
    spec fn value(self) -> int {
        if self.negative {
            -(self.size as int)
        } else {
            self.size as int
        }
    }
}

/// Reads the exponent `v[from..to]`.
fn read_exponent(v: &Vec<char>, from: usize, to: usize) -> (r: Option<Exponent>)
    requires
        from <= to <= v.len(),
    ensures
        match exponent(v@.subrange(from as int, to as int)) {
            Some(e) => r is Some && r->Some_0.value() == e,
            None => r is None,
        },
{
    let ghost s = v@.subrange(from as int, to as int);
    let signed = from < to && (v[from] == '-' || v[from] == '+');
    let negative = signed && v[from] == '-';
    let start: usize = if signed {
        from + 1
    } else {
        from
    };
    assert(v@.subrange(start as int, to as int) =~= if signed {
        s.drop_first()
    } else {
        s
    });
    if start == to || !digits_only(v, start, to) {
        return None;
    }
    let size = match read_digits(v, start, to, u64::MAX) {
        Some(n) => n,
        None => u64::MAX,
    };
    Some(Exponent { negative, size })
}

/// Any run of neighbours among digits holds digits only.
proof fn lemma_digits_within(s: Seq<char>, a: int, b: int)
    requires
        all_digits(s),
        0 <= a <= b <= s.len(),
    ensures
        all_digits(s.subrange(a, b)),
{
    assert forall|i: int| 0 <= i < b - a implies is_digit(#[trigger] s.subrange(a, b)[i]) by {
        assert(s.subrange(a, b)[i] == s[a + i]);
    }
}

/// The whole units when the point moves `size` places to the left of where
/// it stands after the digits `v[from..point]`.
fn units_left_of(v: &Vec<char>, from: usize, point: usize, size: u64, Ghost(fraction): Ghost<
    Seq<char>,
>) -> (r: u64)
    requires
        from <= point <= v.len(),
        all_digits(v@.subrange(from as int, point as int)),
    ensures
        r == saturated(
            digits_value(
                shifted(v@.subrange(from as int, point as int) + fraction, point - from - size),
            ),
        ),
{
    let ghost whole = v@.subrange(from as int, point as int);
    let whole_len = point - from;
    if size >= whole_len as u64 {
        return 0;
    }
    let kept = whole_len - size as usize;
    proof {
        lemma_digits_within(whole, 0, kept as int);
        assert(whole.subrange(0, kept as int) =~= v@.subrange(from as int, from + kept));
        assert((whole + fraction).take(kept as int) =~= v@.subrange(from as int, from + kept));
        assert(Seq::<char>::empty() + v@.subrange(from as int, from + kept) =~= v@.subrange(
            from as int,
            from + kept,
        ));
    }
    take_digits(v, from, from + kept, 0, Ghost(Seq::empty()))
}

/// The whole units when the point moves `size` places to the right of where
/// it stands between the digits `v[from..point]` and `v[first..mark]`.
fn units_right_of(v: &Vec<char>, from: usize, point: usize, first: usize, mark: usize, size: u64) -> (r:
    u64)
    requires
        from <= point <= first <= mark <= v.len(),
        all_digits(v@.subrange(from as int, point as int)),
        all_digits(v@.subrange(first as int, mark as int)),
    ensures
        r == saturated(
            digits_value(
                shifted(
                    v@.subrange(from as int, point as int) + v@.subrange(
                        first as int,
                        mark as int,
                    ),
                    point - from + size,
                ),
            ),
        ),
{
    let ghost whole = v@.subrange(from as int, point as int);
    let ghost fraction = v@.subrange(first as int, mark as int);
    let fraction_len = mark - first;
    assert(Seq::<char>::empty() + whole =~= whole);
    let in_whole = take_digits(v, from, point, 0, Ghost(Seq::empty()));
    if size <= fraction_len as u64 {
        let moved = size as usize;
        proof {
            lemma_digits_within(fraction, 0, moved as int);
            assert(fraction.subrange(0, moved as int) =~= v@.subrange(
                first as int,
                first + moved,
            ));
            assert((whole + fraction).take(point - from + moved) =~= whole + v@.subrange(
                first as int,
                first + moved,
            ));
            if point - from + moved == 0 {
                assert(whole + v@.subrange(first as int, first + moved) =~= Seq::<char>::empty());
            }
        }
        take_digits(v, first, first + moved, in_whole, Ghost(whole))
    } else {
        let in_all = take_digits(v, first, mark, in_whole, Ghost(whole));
        take_zeros(in_all, size - fraction_len as u64, Ghost(whole + fraction))
    }
}

/// Reads the unsigned number `v[from..to]`.
fn read_magnitude(v: &Vec<char>, from: usize, to: usize) -> (r: Option<u64>)
    requires
        from <= to <= v.len(),
    ensures
        match magnitude(v@.subrange(from as int, to as int)) {
            Some(whole) => r == Some(saturated(whole)),
            None => r is None,
        },
{
    let ghost body = v@.subrange(from as int, to as int);
    let mark = find_mark(v, from, to);
    let ghost mantissa = v@.subrange(from as int, mark as int);
    assert(body.take(mark - from) =~= mantissa);
    let point = find_char(v, from, mark, '.');
    assert(mantissa.take(point - from) =~= v@.subrange(from as int, point as int));
    let first: usize = if point < mark {
        point + 1
    } else {
        mark
    };
    assert(v@.subrange(first as int, mark as int) =~= if point - from < mantissa.len() {
        mantissa.skip(point - from + 1)
    } else {
        Seq::<char>::empty()
    });
    if !digits_only(v, from, point) || !digits_only(v, first, mark) {
        return None;
    }
    if point == from && first == mark {
        return None;
    }
    let e = if mark < to {
        assert(body.skip(mark - from + 1) =~= v@.subrange(mark + 1, to as int));
        match read_exponent(v, mark + 1, to) {
            Some(e) => e,
            None => {
                return None;
            },
        }
    } else {
        Exponent { negative: false, size: 0 }
    };
    if e.negative {
        Some(units_left_of(v, from, point, e.size, Ghost(v@.subrange(first as int, mark as int))))
    } else {
        Some(units_right_of(v, from, point, first, mark, e.size))
    }
}

/// Reads `v[from..to]` as a number.
pub fn read_numeral(v: &Vec<char>, from: usize, to: usize) -> (r: Option<Reading>)
    requires
        from <= to <= v.len(),
    ensures
        match numeral(v@.subrange(from as int, to as int)) {
            Some(n) => r == Some(reading_of(n)),
            None => r is None,
        },
{
    let ghost s = v@.subrange(from as int, to as int);
    let signed = from < to && (v[from] == '-' || v[from] == '+');
    let negative = signed && v[from] == '-';
    let start: usize = if signed {
        from + 1
    } else {
        from
    };
    assert(v@.subrange(start as int, to as int) =~= if signed {
        s.drop_first()
    } else {
        s
    });
    let inf: Vec<char> = vec!['i', 'n', 'f'];
    let infinity: Vec<char> = vec!['i', 'n', 'f', 'i', 'n', 'i', 't', 'y'];
    let nan: Vec<char> = vec!['n', 'a', 'n'];
    assert(inf@ =~= word_inf());
    assert(infinity@ =~= word_infinity());
    assert(nan@ =~= word_nan());
    if spells_word(v, start, to, &inf) || spells_word(v, start, to, &infinity) {
        return Some(Reading::Infinite { negative });
    }
    if spells_word(v, start, to, &nan) {
        return Some(Reading::NotANumber);
    }
    match read_magnitude(v, start, to) {
        Some(whole) => Some(Reading::Finite { negative, whole }),
        None => None,
    }
}

/// Reads `s` as a number.
pub fn parse_numeral(s: &str) -> (r: Option<Reading>)
    ensures
        match numeral(s@) {
            Some(n) => r == Some(reading_of(n)),
            None => r is None,
        },
{
    let v = to_chars(s);
    assert(v@.subrange(0, v.len() as int) =~= s@);
    read_numeral(&v, 0, v.len())
}

} // verus!
