//! Shaping the text of a numeric input while the user types: sign toggling,
//! decimal truncation, leading-zero cleanup, bounded parsing, and the
//! state that keeps the text and the bounds together.
use vstd::prelude::*;
use vstd::string::*;
use crate::number::{
    Number, format_integer, integer_text, lemma_integer_text_round_trip, number_text_value,
    parse_as, is_signed,
};

verus! {

/// Index of the first `c` in `s`, or `s.len()` where there is none.
pub open spec fn index_of(s: Seq<char>, c: char) -> int
    decreases s.len(),
{
    if s.len() == 0 {
        0
    } else if s[0] == c {
        0
    } else {
        1 + index_of(s.drop_first(), c)
    }
}

/// A lone `-` becomes empty.
pub open spec fn collapse_lone_minus(s: Seq<char>) -> Seq<char> {
    if s == seq!['-'] {
        Seq::empty()
    } else {
        s
    }
}

/// A trailing `-` toggles the sign: with a leading `-` both go, otherwise
/// the trailing one moves to the front.
pub open spec fn toggle_trailing_minus(s: Seq<char>) -> Seq<char> {
    if s.len() > 0 && s.last() == '-' {
        if s.len() >= 2 && s[0] == '-' {
            s.subrange(1, s.len() - 1)
        } else {
            seq!['-'] + s.drop_last()
        }
    } else {
        s
    }
}

/// At most `decimals` characters after the first `.`, cut off without
/// rounding.
pub open spec fn shorten(s: Seq<char>, decimals: nat) -> Seq<char> {
    let i = index_of(s, '.');
    if i < s.len() && i + decimals < s.len() {
        s.subrange(0, i + decimals + 1)
    } else {
        s
    }
}

/// A leading `0` goes where more follows and it does not start `0.`.
pub open spec fn strip_leading_zero(s: Seq<char>) -> Seq<char> {
    if s.len() > 1 && s[0] == '0' && s[1] != '.' {
        s.drop_first()
    } else {
        s
    }
}

/// A `0` right after a leading `-` goes where more follows and it does not
/// start `-0.`.
pub open spec fn strip_zero_after_minus(s: Seq<char>) -> Seq<char> {
    if s.len() > 2 && s[0] == '-' && s[1] == '0' && s[2] != '.' {
        seq!['-'] + s.subrange(2, s.len() as int)
    } else {
        s
    }
}

/// The sanitized text of raw input: the five rules in their order.
pub open spec fn spec_transform(s: Seq<char>, decimals: nat) -> Seq<char> {
    strip_zero_after_minus(
        strip_leading_zero(shorten(toggle_trailing_minus(collapse_lone_minus(s)), decimals)),
    )
}

/// The number of `0` characters that end `t`.
pub open spec fn trailing_zero_run(t: Seq<char>) -> nat
    decreases t.len(),
{
    if t.len() > 0 && t.last() == '0' {
        1 + trailing_zero_run(t.drop_last())
    } else {
        0
    }
}

/// The zeros that end the fractional part; none without a `.`.
pub open spec fn spec_trailing_zeros(s: Seq<char>) -> nat {
    let i = index_of(s, '.');
    if i < s.len() {
        trailing_zero_run(s.subrange(i, s.len() as int))
    } else {
        0
    }
}

/// A parsed value held to `[min, max]`, with whether it was moved: below
/// `min` gives `min`, else above `max` gives `max`.
pub open spec fn clamp_flagged(v: int, min: int, max: int) -> (int, bool) {
    if v < min {
        (min, true)
    } else if v > max {
        (max, true)
    } else {
        (v, false)
    }
}

/// Parsing non-empty text: the kind's reading of it, clamped.
pub open spec fn spec_parse_number_value<N: Number>(s: Seq<char>, min: int, max: int) -> Option<
    (int, bool),
> {
    match number_text_value::<N>(s) {
        Some(v) => Some(clamp_flagged(v, min, max)),
        None => None,
    }
}

/// Parsing input text: empty text is zero, flagged as not typed; other
/// text as `spec_parse_number_value`.
pub open spec fn spec_parse_number<N: Number>(s: Seq<char>, min: int, max: int) -> Option<
    (int, bool),
> {
    if s.len() == 0 {
        Some((0, true))
    } else {
        spec_parse_number_value::<N>(s, min, max)
    }
}

/// A parse result with the value as an integer.
pub open spec fn result_ints<N: Number>(r: Option<(N, bool)>) -> Option<(int, bool)> {
    match r {
        Some(p) => Some((p.0.as_int(), p.1)),
        None => None,
    }
}

/// The stored text after `raw` is typed: unchanged where the sanitized
/// text does not parse; the sanitized text where it parses in range; the
/// canonical text of the clamped or default value otherwise.
pub open spec fn spec_set_text<N: Number>(
    text: Seq<char>,
    raw: Seq<char>,
    min: int,
    max: int,
    decimals: nat,
) -> Seq<char> {
    let t = spec_transform(raw, decimals);
    match spec_parse_number::<N>(t, min, max) {
        Some(p) => if p.1 {
            integer_text(p.0)
        } else {
            t
        },
        None => text,
    }
}

/// The displayed text: the stored text with a pending `.` and pending
/// fractional zeros put back; `0` where that is empty.
pub open spec fn spec_display_text(text: Seq<char>, trailing_decimal: bool, zeros: nat) -> Seq<
    char,
> {
    let with_dot = if trailing_decimal {
        text.push('.')
    } else {
        text
    };
    let with_zeros = if zeros > 0 {
        if index_of(with_dot, '.') < with_dot.len() {
            with_dot + Seq::new(zeros, |i: int| '0')
        } else {
            with_dot.push('.') + Seq::new(zeros, |i: int| '0')
        }
    } else {
        with_dot
    };
    if with_zeros.len() == 0 {
        integer_text(0)
    } else {
        with_zeros
    }
}

proof fn lemma_index_of(s: Seq<char>, c: char, i: int)
    requires
        0 <= i <= s.len(),
        forall|j: int| 0 <= j < i ==> s[j] != c,
        i == s.len() || s[i] == c,
    ensures
        index_of(s, c) == i,
    decreases i,
{
    if i > 0 {
        lemma_index_of(s.drop_first(), c, i - 1);
    }
}

/// Index of the first `c` in `s`, or the length where there is none.
fn find_char(s: &str, c: char) -> (r: usize)
    ensures
        r == index_of(s@, c),
        r <= s@.len(),
{
    let len = s.unicode_len();
    let mut i: usize = 0;
    while i < len
        invariant
            i <= len,
            len == s@.len(),
            forall|j: int| 0 <= j < i ==> s@[j] != c,
        decreases len - i,
    {
        if s.get_char(i) == c {
            proof {
                lemma_index_of(s@, c, i as int);
            }
            return i;
        }
        i = i + 1;
    }
    proof {
        lemma_index_of(s@, c, i as int);
    }
    i
}

/// The characters of `s` from `from` to `to`, as an owned string.
fn slice(s: &str, from: usize, to: usize) -> (r: String)
    requires
        from <= to <= s@.len(),
    ensures
        r@ == s@.subrange(from as int, to as int),
{
    String::from_str(s.substring_char(from, to))
}

/// Counts the zeros at the end of the fractional part of `value`; zero
/// where it has no `.`.
pub fn count_trailing_zeros(value: &str) -> (r: usize)
    ensures
        r == spec_trailing_zeros(value@),
{
    let len = value.unicode_len();
    let dot = find_char(value, '.');
    if dot == len {
        return 0;
    }
    let mut count: usize = 0;
    let mut j: usize = len;
    while j > dot && value.get_char(j - 1) == '0'
        invariant
            dot < len,
            len == value@.len(),
            dot <= j <= len,
            count + j == len,
            trailing_zero_run(value@.subrange(dot as int, len as int)) == count
                + trailing_zero_run(value@.subrange(dot as int, j as int)),
        decreases j,
    {
        let ghost t = value@.subrange(dot as int, j as int);
        assert(t.drop_last() =~= value@.subrange(dot as int, j - 1));
        count = count + 1;
        j = j - 1;
    }
    proof {
        let t = value@.subrange(dot as int, j as int);
        if j > dot {
            assert(t.last() == value@[j - 1]);
        }
    }
    count
}

/// Cuts `value` to at most `decimals` characters after its first `.`.
pub fn shorten_to(value: &str, decimals: u16) -> (r: String)
    ensures
        r@ == shorten(value@, decimals as nat),
{
    let len = value.unicode_len();
    let dot = find_char(value, '.');
    if dot < len && (decimals as usize) < len - dot {
        slice(value, 0, dot + decimals as usize + 1)
    } else {
        String::from_str(value)
    }
}

/// Sanitizes raw numeric input: a lone `-` becomes empty; a trailing `-`
/// toggles the sign; at most `decimals` digits stay after the point; a
/// superfluous leading `0`, or one right after a leading `-`, goes.
pub fn transform_number(value: &str, decimals: u16) -> (r: String)
    ensures
        r@ == spec_transform(value@, decimals as nat),
{
    proof {
        reveal_strlit("-");
    }
    let len = value.unicode_len();
    let step1: String = if len == 1 && value.get_char(0) == '-' {
        assert(value@ =~= seq!['-']);
        String::new()
    } else {
        proof {
            if value@ == seq!['-'] {
                assert(value@[0] == '-');
            }
        }
        String::from_str(value)
    };
    assert(step1@ == collapse_lone_minus(value@));
    let len1 = step1.as_str().unicode_len();
    let step2: String = if len1 > 0 && step1.as_str().get_char(len1 - 1) == '-' {
        if len1 >= 2 && step1.as_str().get_char(0) == '-' {
            slice(step1.as_str(), 1, len1 - 1)
        } else {
            let rest = slice(step1.as_str(), 0, len1 - 1);
            let r = String::from_str("-").concat(rest.as_str());
            assert(r@ =~= seq!['-'] + step1@.drop_last());
            r
        }
    } else {
        step1
    };
    assert(step2@ == toggle_trailing_minus(collapse_lone_minus(value@)));
    let step3 = shorten_to(step2.as_str(), decimals);
    let len3 = step3.as_str().unicode_len();
    let step4: String = if len3 > 1 && step3.as_str().get_char(0) == '0' && step3.as_str().get_char(
        1,
    ) != '.' {
        slice(step3.as_str(), 1, len3)
    } else {
        step3
    };
    assert(step4@ =~= strip_leading_zero(step3@));
    let len4 = step4.as_str().unicode_len();
    if len4 > 2 && step4.as_str().get_char(0) == '-' && step4.as_str().get_char(1) == '0'
        && step4.as_str().get_char(2) != '.' {
        let rest = slice(step4.as_str(), 2, len4);
        let r = String::from_str("-").concat(rest.as_str());
        assert(r@ =~= strip_zero_after_minus(step4@));
        r
    } else {
        step4
    }
}

/// Parses non-empty numeric text as the kind reads it and holds the value
/// to `[min, max]`: `Some((value, moved))`, or `None` where the text is
/// not a number of the kind.
pub fn parse_number_value<N: Number>(value: &str, min: N, max: N) -> (r: Option<(N, bool)>)
    ensures
        result_ints(r) == spec_parse_number_value::<N>(value@, min.as_int(), max.as_int()),
{
    match parse_as::<N>(value) {
        Some(v) => {
            if v.to_i128() < min.to_i128() {
                Some((min, true))
            } else if v.to_i128() > max.to_i128() {
                Some((max, true))
            } else {
                Some((v, false))
            }
        },
        None => None,
    }
}

/// Parses sanitized numeric text: empty text gives zero flagged as moved;
/// other text as `parse_number_value`.
pub fn parse_number<N: Number>(value: &str, min: N, max: N) -> (r: Option<(N, bool)>)
    ensures
        result_ints(r) == spec_parse_number::<N>(value@, min.as_int(), max.as_int()),
{
    if value.unicode_len() == 0 {
        proof {
            N::lemma_bounds();
        }
        Some((N::from_i128(0), true))
    } else {
        parse_number_value(value, min, max)
    }
}

/// What a number state holds: its text, its bounds, and the largest
/// number of digits after the point.
pub ghost struct NumberStateView {
    pub text: Seq<char>,
    pub min: int,
    pub max: int,
    pub decimals: nat,
}

/// The text of a numeric input together with its bounds. The text, where
/// not empty, always parses to a value of the kind.
#[derive(Clone)]
pub struct NumberState<N: Number> {
    state: String,
    min: N,
    max: N,
    decimals: u16,
}

impl<N: Number> View for NumberState<N> {
    type V = NumberStateView;

    closed spec fn view(&self) -> NumberStateView {
        NumberStateView {
            text: self.state@,
            min: self.min.as_int(),
            max: self.max.as_int(),
            decimals: self.decimals as nat,
        }
    }
}

/// The canonical text of a value of the kind parses back to it.
pub proof fn lemma_canonical_text_parses<N: Number>(v: int, min: int, max: int)
    requires
        N::lowest() <= v <= N::highest(),
    ensures
        number_text_value::<N>(integer_text(v)) == Some(v),
        integer_text(v).len() > 0,
        spec_parse_number::<N>(integer_text(v), min, max) == Some(clamp_flagged(v, min, max)),
{
    N::lemma_bounds();
    lemma_integer_text_round_trip(v, is_signed::<N>());
    crate::number::lemma_natural_text(if v < 0 { (-v) as nat } else { v as nat });
}


/// Canonical text passes sanitizing unchanged, whatever the decimal limit.
pub proof fn lemma_canonical_text_is_sanitized(v: int, decimals: nat)
    ensures
        spec_transform(integer_text(v), decimals) == integer_text(v),
{
    let n: nat = if v < 0 {
        (-v) as nat
    } else {
        v as nat
    };
    crate::number::lemma_natural_text(n);
    let d = crate::number::natural_text(n);
    let s = integer_text(v);
    assert(crate::number::is_digit(d[0]));
    assert(crate::number::is_digit(d[d.len() - 1]));
    if v < 0 {
        assert(s[0] == '-');
        assert(s[1] == d[0]);
        assert(s.last() == d[d.len() - 1]);
        if s.len() > 2 {
            assert(s[1] != '0');
        }
    } else {
        assert(s == d);
    }
    assert(s != seq!['-']);
    assert(collapse_lone_minus(s) == s);
    assert(toggle_trailing_minus(s) == s);
    assert forall|j: int| 0 <= j < s.len() implies s[j] != '.' by {
        if v < 0 {
            if j > 0 {
                assert(s[j] == d[j - 1]);
                assert(crate::number::is_digit(d[j - 1]));
            }
        } else {
            assert(crate::number::is_digit(d[j]));
        }
    }
    lemma_index_of(s, '.', s.len() as int);
    assert(shorten(s, decimals) == s);
    assert(strip_leading_zero(s) == s);
}

/// Once typed text parses, its value written canonically and typed again
/// gives that same value, unmoved. Where the typed text sanitizes to
/// nothing, the default zero must lie within the bounds for this to hold.
pub proof fn lemma_parse_round_trip<N: Number>(raw: Seq<char>, decimals: nat, min: N, max: N)
    requires
        min.as_int() <= max.as_int(),
        spec_parse_number::<N>(spec_transform(raw, decimals), min.as_int(), max.as_int()) is Some,
        spec_transform(raw, decimals).len() == 0 ==> min.as_int() <= 0 <= max.as_int(),
    ensures
        ({
            let v = spec_parse_number::<N>(
                spec_transform(raw, decimals),
                min.as_int(),
                max.as_int(),
            ).unwrap().0;
            &&& min.as_int() <= v <= max.as_int()
            &&& spec_parse_number::<N>(
                spec_transform(integer_text(v), decimals),
                min.as_int(),
                max.as_int(),
            ) == Some((v, false))
        }),
{
    N::lemma_range(min, max);
    N::lemma_range(max, min);
    N::lemma_bounds();
    let t = spec_transform(raw, decimals);
    let v = spec_parse_number::<N>(t, min.as_int(), max.as_int()).unwrap().0;
    if t.len() > 0 {
        assert(N::lowest() <= v <= N::highest());
    }
    lemma_canonical_text_is_sanitized(v, decimals);
    lemma_canonical_text_parses::<N>(v, min.as_int(), max.as_int());
}


/// Where the bounds hold the default zero, typing keeps the stored text
/// one that parses within the bounds without being moved.
pub proof fn lemma_set_keeps_text_in_range<N: Number>(
    text: Seq<char>,
    raw: Seq<char>,
    min: N,
    max: N,
    decimals: nat,
)
    requires
        min.as_int() <= 0 <= max.as_int(),
        spec_parse_number::<N>(text, min.as_int(), max.as_int()) matches Some(p) && !p.1,
    ensures
        spec_parse_number::<N>(
            spec_set_text::<N>(text, raw, min.as_int(), max.as_int(), decimals),
            min.as_int(),
            max.as_int(),
        ) matches Some(p) && !p.1,
{
    N::lemma_range(min, max);
    N::lemma_range(max, min);
    N::lemma_bounds();
    let t = spec_transform(raw, decimals);
    match spec_parse_number::<N>(t, min.as_int(), max.as_int()) {
        Some(p) => {
            if p.1 {
                lemma_canonical_text_parses::<N>(p.0, min.as_int(), max.as_int());
            }
        },
        None => {},
    }
}

impl<N: Number> NumberState<N> {
    /// The text parses: it is empty or the kind's reading of it exists.
    pub closed spec fn wf(&self) -> bool {
        spec_parse_number::<N>(self.state@, self.min.as_int(), self.max.as_int()) is Some
    }

    /// A state holding the canonical text of `value`.
    pub fn new(value: N, min: N, max: N, decimals: u16) -> (r: Self)
        ensures
            r.wf(),
            r@ == (NumberStateView {
                text: integer_text(value.as_int()),
                min: min.as_int(),
                max: max.as_int(),
                decimals: decimals as nat,
            }),
    {
        proof {
            N::lemma_range(value, value);
            lemma_canonical_text_parses::<N>(value.as_int(), min.as_int(), max.as_int());
        }
        NumberState { state: format_integer(value.to_i128()), min, max, decimals }
    }

    /// The value the text stands for, held to the bounds.
    pub fn get(&self) -> (r: N)
        requires
            self.wf(),
        ensures
            spec_parse_number::<N>(self@.text, self@.min, self@.max) matches Some(p)
                && r.as_int() == p.0,
    {
        match parse_number(self.state.as_str(), self.min, self.max) {
            Some(p) => p.0,
            None => self.min,
        }
    }

    /// Takes newly typed raw text: sanitizes it, and keeps the sanitized
    /// text where it parses in range, the canonical text of the clamped
    /// or default value where it was moved, and the old text where it does
    /// not parse.
    pub fn set(&mut self, new_value: &str)
        requires
            old(self).wf(),
        ensures
            final(self).wf(),
            final(self)@ == (NumberStateView {
                text: spec_set_text::<N>(
                    old(self)@.text,
                    new_value@,
                    old(self)@.min,
                    old(self)@.max,
                    old(self)@.decimals,
                ),
                ..old(self)@
            }),
    {
        let transformed = transform_number(new_value, self.decimals);
        let parsed = parse_number(transformed.as_str(), self.min, self.max);
        match parsed {
            Some(p) => {
                if !p.1 {
                    self.state = transformed;
                } else {
                    proof {
                        N::lemma_range(p.0, p.0);
                        lemma_canonical_text_parses::<N>(
                            p.0.as_int(),
                            self.min.as_int(),
                            self.max.as_int(),
                        );
                    }
                    self.state = format_integer(p.0.to_i128());
                }
            },
            None => {},
        }
    }

    /// The stored text; `0` where it is empty.
    pub fn to_string(&self) -> (r: String)
        ensures
            r@ == (if self@.text.len() == 0 {
                integer_text(0)
            } else {
                self@.text
            }),
    {
        if self.state.as_str().unicode_len() == 0 {
            format_integer(0)
        } else {
            self.state.clone()
        }
    }

    /// The stored text.
    pub fn text(&self) -> (r: &str)
        ensures
            r@ == self@.text,
    {
        self.state.as_str()
    }

    /// The text to display: the stored text with a pending `.` and
    /// `trailing_zeros` pending fractional zeros put back.
    pub fn display_text(&self, trailing_decimal: bool, trailing_zeros: usize) -> (r: String)
        ensures
            r@ == spec_display_text(self@.text, trailing_decimal, trailing_zeros as nat),
    {
        proof {
            reveal_strlit(".");
            reveal_strlit("0");
        }
        let mut text = self.state.clone();
        if trailing_decimal {
            text.append(".");
        }
        let ghost with_dot = text@;
        assert(with_dot =~= if trailing_decimal {
            self@.text.push('.')
        } else {
            self@.text
        });
        if trailing_zeros > 0 {
            if find_char(text.as_str(), '.') == text.as_str().unicode_len() {
                text.append(".");
                assert(text@ =~= with_dot.push('.'));
            }
            let ghost base = text@;
            let mut k: usize = 0;
            while k < trailing_zeros
                invariant
                    k <= trailing_zeros,
                    text@ == base + Seq::new(k as nat, |i: int| '0'),
                decreases trailing_zeros - k,
            {
                proof {
                    reveal_strlit("0");
                }
                text.append("0");
                k = k + 1;
                assert(text@ =~= base + Seq::new(k as nat, |i: int| '0'));
            }
        }
        assert(text@.len() > 0 ==> text@ =~= spec_display_text(
            self@.text,
            trailing_decimal,
            trailing_zeros as nat,
        ));
        if text.as_str().unicode_len() == 0 {
            format_integer(0)
        } else {
            text
        }
    }
}

impl<N: Number> Default for NumberState<N> {
    /// An empty text over the kind's whole range, with no limit on
    /// decimals.
    fn default() -> (r: Self)
        ensures
            r.wf(),
            r@ == (NumberStateView {
                text: Seq::empty(),
                min: N::lowest(),
                max: N::highest(),
                decimals: 0xffff,
            }),
    {
        proof {
            N::lemma_bounds();
        }
        NumberState {
            state: String::new(),
            min: N::from_i128(N::lowest_i128()),
            max: N::from_i128(N::highest_i128()),
            decimals: 0xffff,
        }
    }
}

} // verus!
