//! Primitive integer kinds for numeric inputs, and their decimal text:
//! reading it as `str::parse` does and writing it as `to_string` does.
use vstd::prelude::*;
use vstd::string::*;

verus! {

/// A decimal digit character.
pub open spec fn is_digit(c: char) -> bool {
    '0' <= c && c <= '9'
}

/// The value of a decimal digit character.
pub open spec fn digit_value(c: char) -> int {
    c as int - '0' as int
}

/// The character of a digit value below ten.
pub open spec fn digit_char(d: nat) -> char {
    if d == 0 {
        '0'
    } else if d == 1 {
        '1'
    } else if d == 2 {
        '2'
    } else if d == 3 {
        '3'
    } else if d == 4 {
        '4'
    } else if d == 5 {
        '5'
    } else if d == 6 {
        '6'
    } else if d == 7 {
        '7'
    } else if d == 8 {
        '8'
    } else {
        '9'
    }
}

/// At least one character, and only decimal digits.
pub open spec fn all_digits(s: Seq<char>) -> bool {
    s.len() > 0 && forall|i: int| 0 <= i < s.len() ==> is_digit(#[trigger] s[i])
}

/// The value of a string of decimal digits.
pub open spec fn digits_value(s: Seq<char>) -> int
    decreases s.len(),
{
    if s.len() == 0 {
        0
    } else {
        digits_value(s.drop_last()) * 10 + digit_value(s.last())
    }
}

/// The integer that `s` spells as the standard library reads integers: an
/// optional `+` (or `-`, only where negative values are allowed) and then
/// one or more decimal digits, nothing else.
pub open spec fn integer_text_value(s: Seq<char>, signed: bool) -> Option<int> {
    if s.len() > 0 && s[0] == '+' && all_digits(s.drop_first()) {
        Some(digits_value(s.drop_first()))
    } else if signed && s.len() > 0 && s[0] == '-' && all_digits(s.drop_first()) {
        Some(-digits_value(s.drop_first()))
    } else if all_digits(s) {
        Some(digits_value(s))
    } else {
        None
    }
}

/// The shortest decimal digits of `n`.
pub open spec fn natural_text(n: nat) -> Seq<char>
    decreases n,
{
    if n < 10 {
        seq![digit_char(n)]
    } else {
        natural_text(n / 10).push(digit_char(n % 10))
    }
}

/// The canonical decimal text of an integer: a `-` for negative values,
/// then the shortest digits of its magnitude.
pub open spec fn integer_text(v: int) -> Seq<char> {
    if v < 0 {
        seq!['-'] + natural_text((-v) as nat)
    } else {
        natural_text(v as nat)
    }
}

/// Where an integer parse saturates: far beyond every supported kind.
pub open spec fn parse_cap() -> int {
    0x1_0000_0000_0000_0000_0000
}

/// `v` held to `[-parse_cap(), parse_cap()]`.
pub open spec fn saturate(v: int) -> int {
    if v > parse_cap() {
        parse_cap()
    } else if v < -parse_cap() {
        -parse_cap()
    } else {
        v
    }
}

/// A primitive integer kind usable in a numeric input. Its values are
/// integers within `[lowest(), highest()]`, a range that holds zero and
/// lies within 64 bits of magnitude.
pub trait Number: Sized + Copy {
    /// The integer this value stands for.
    spec fn as_int(&self) -> int;

    /// The kind's smallest value.
    spec fn lowest() -> int;

    /// The kind's largest value.
    spec fn highest() -> int;

    /// The kind's range holds zero and fits in 64 bits of magnitude.
    proof fn lemma_bounds()
        ensures
            -0x1_0000_0000_0000_0000 < Self::lowest() <= 0,
            0 < Self::highest() < 0x1_0000_0000_0000_0000,
    ;

    /// Values lie in the kind's range; equal integers are equal values.
    proof fn lemma_range(x: Self, y: Self)
        ensures
            Self::lowest() <= x.as_int() <= Self::highest(),
            x.as_int() == y.as_int() ==> x == y,
    ;

    /// The value as a 128-bit integer.
    fn to_i128(&self) -> (r: i128)
        ensures
            r == self.as_int(),
    ;

    /// The value of an integer within the kind's range.
    fn from_i128(v: i128) -> (r: Self)
        requires
            Self::lowest() <= v <= Self::highest(),
        ensures
            r.as_int() == v,
    ;

    /// The kind's smallest value as a 128-bit integer.
    fn lowest_i128() -> (r: i128)
        ensures
            r == Self::lowest(),
    ;

    /// The kind's largest value as a 128-bit integer.
    fn highest_i128() -> (r: i128)
        ensures
            r == Self::highest(),
    ;
}

/// Negative values exist in the kind.
pub open spec fn is_signed<N: Number>() -> bool {
    N::lowest() < 0
}

/// What `str::parse::<N>` gives for `s`: the integer it spells, where that
/// lies in the kind's range.
pub open spec fn number_text_value<N: Number>(s: Seq<char>) -> Option<int> {
    match integer_text_value(s, is_signed::<N>()) {
        Some(v) => if N::lowest() <= v <= N::highest() {
            Some(v)
        } else {
            None
        },
        None => None,
    }
}

impl Number for u8 {
    open spec fn as_int(&self) -> int {
        *self as int
    }

    open spec fn lowest() -> int {
        0
    }

    open spec fn highest() -> int {
        0xff
    }

    proof fn lemma_bounds() {
    }

    proof fn lemma_range(x: Self, y: Self) {
    }

    fn to_i128(&self) -> (r: i128) {
        *self as i128
    }

    fn from_i128(v: i128) -> (r: Self) {
        v as u8
    }

    fn lowest_i128() -> (r: i128) {
        0
    }

    fn highest_i128() -> (r: i128) {
        0xff
    }
}

impl Number for u16 {
    open spec fn as_int(&self) -> int {
        *self as int
    }

    open spec fn lowest() -> int {
        0
    }

    open spec fn highest() -> int {
        0xffff
    }

    proof fn lemma_bounds() {
    }

    proof fn lemma_range(x: Self, y: Self) {
    }

    fn to_i128(&self) -> (r: i128) {
        *self as i128
    }

    fn from_i128(v: i128) -> (r: Self) {
        v as u16
    }

    fn lowest_i128() -> (r: i128) {
        0
    }

    fn highest_i128() -> (r: i128) {
        0xffff
    }
}

impl Number for u32 {
    open spec fn as_int(&self) -> int {
        *self as int
    }

    open spec fn lowest() -> int {
        0
    }

    open spec fn highest() -> int {
        0xffff_ffff
    }

    proof fn lemma_bounds() {
    }

    proof fn lemma_range(x: Self, y: Self) {
    }

    fn to_i128(&self) -> (r: i128) {
        *self as i128
    }

    fn from_i128(v: i128) -> (r: Self) {
        v as u32
    }

    fn lowest_i128() -> (r: i128) {
        0
    }

    fn highest_i128() -> (r: i128) {
        0xffff_ffff
    }
}

impl Number for u64 {
    open spec fn as_int(&self) -> int {
        *self as int
    }

    open spec fn lowest() -> int {
        0
    }

    open spec fn highest() -> int {
        0xffff_ffff_ffff_ffff
    }

    proof fn lemma_bounds() {
    }

    proof fn lemma_range(x: Self, y: Self) {
    }

    fn to_i128(&self) -> (r: i128) {
        *self as i128
    }

    fn from_i128(v: i128) -> (r: Self) {
        v as u64
    }

    fn lowest_i128() -> (r: i128) {
        0
    }

    fn highest_i128() -> (r: i128) {
        0xffff_ffff_ffff_ffff
    }
}

impl Number for i8 {
    open spec fn as_int(&self) -> int {
        *self as int
    }

    open spec fn lowest() -> int {
        -0x80
    }

    open spec fn highest() -> int {
        0x7f
    }

    proof fn lemma_bounds() {
    }

    proof fn lemma_range(x: Self, y: Self) {
    }

    fn to_i128(&self) -> (r: i128) {
        *self as i128
    }

    fn from_i128(v: i128) -> (r: Self) {
        v as i8
    }

    fn lowest_i128() -> (r: i128) {
        -0x80
    }

    fn highest_i128() -> (r: i128) {
        0x7f
    }
}

impl Number for i16 {
    open spec fn as_int(&self) -> int {
        *self as int
    }

    open spec fn lowest() -> int {
        -0x8000
    }

    open spec fn highest() -> int {
        0x7fff
    }

    proof fn lemma_bounds() {
    }

    proof fn lemma_range(x: Self, y: Self) {
    }

    fn to_i128(&self) -> (r: i128) {
        *self as i128
    }

    fn from_i128(v: i128) -> (r: Self) {
        v as i16
    }

    fn lowest_i128() -> (r: i128) {
        -0x8000
    }

    fn highest_i128() -> (r: i128) {
        0x7fff
    }
}

impl Number for i32 {
    open spec fn as_int(&self) -> int {
        *self as int
    }

    open spec fn lowest() -> int {
        -0x8000_0000
    }

    open spec fn highest() -> int {
        0x7fff_ffff
    }

    proof fn lemma_bounds() {
    }

    proof fn lemma_range(x: Self, y: Self) {
    }

    fn to_i128(&self) -> (r: i128) {
        *self as i128
    }

    fn from_i128(v: i128) -> (r: Self) {
        v as i32
    }

    fn lowest_i128() -> (r: i128) {
        -0x8000_0000
    }

    fn highest_i128() -> (r: i128) {
        0x7fff_ffff
    }
}

impl Number for i64 {
    open spec fn as_int(&self) -> int {
        *self as int
    }

    open spec fn lowest() -> int {
        -0x8000_0000_0000_0000
    }

    open spec fn highest() -> int {
        0x7fff_ffff_ffff_ffff
    }

    proof fn lemma_bounds() {
    }

    proof fn lemma_range(x: Self, y: Self) {
    }

    fn to_i128(&self) -> (r: i128) {
        *self as i128
    }

    fn from_i128(v: i128) -> (r: Self) {
        v as i64
    }

    fn lowest_i128() -> (r: i128) {
        -0x8000_0000_0000_0000
    }

    fn highest_i128() -> (r: i128) {
        0x7fff_ffff_ffff_ffff
    }
}


/// The one-character text of a digit value below ten.
fn digit_str(d: u8) -> (r: &'static str)
    requires
        d < 10,
    ensures
        r@ == seq![digit_char(d as nat)],
{
    proof {
        reveal_strlit("0");
        reveal_strlit("1");
        reveal_strlit("2");
        reveal_strlit("3");
        reveal_strlit("4");
        reveal_strlit("5");
        reveal_strlit("6");
        reveal_strlit("7");
        reveal_strlit("8");
        reveal_strlit("9");
    }
    let r = if d == 0 {
        "0"
    } else if d == 1 {
        "1"
    } else if d == 2 {
        "2"
    } else if d == 3 {
        "3"
    } else if d == 4 {
        "4"
    } else if d == 5 {
        "5"
    } else if d == 6 {
        "6"
    } else if d == 7 {
        "7"
    } else if d == 8 {
        "8"
    } else {
        "9"
    };
    assert(r@ =~= seq![digit_char(d as nat)]);
    r
}

fn format_natural(n: u128) -> (r: String)
    ensures
        r@ == natural_text(n as nat),
    decreases n,
{
    if n < 10 {
        String::from_str(digit_str(n as u8))
    } else {
        let mut r = format_natural(n / 10);
        r.append(digit_str((n % 10) as u8));
        r
    }
}

/// The canonical decimal text of `v`, as `to_string` writes integers.
pub fn format_integer(v: i128) -> (r: String)
    ensures
        r@ == integer_text(v as int),
{
    if v < 0 {
        let magnitude: u128 = ((-(v + 1)) as u128) + 1;
        let digits = format_natural(magnitude);
        proof {
            reveal_strlit("-");
        }
        let r = String::from_str("-").concat(digits.as_str());
        assert(r@ =~= integer_text(v as int));
        r
    } else {
        format_natural(v as u128)
    }
}

proof fn lemma_digit_char(d: nat)
    requires
        d < 10,
    ensures
        is_digit(digit_char(d)),
        digit_value(digit_char(d)) == d,
{
}

/// The canonical text of a natural number is digits only, spells that
/// number, and starts with `0` only for zero itself.
pub proof fn lemma_natural_text(n: nat)
    ensures
        all_digits(natural_text(n)),
        digits_value(natural_text(n)) == n,
        natural_text(n)[0] == '0' ==> n == 0,
        n == 0 ==> natural_text(n) == seq!['0'],
    decreases n,
{
    if n < 10 {
        lemma_digit_char(n);
        let t = seq![digit_char(n)];
        assert(t.drop_last() =~= Seq::<char>::empty());
        assert(digits_value(t) == digits_value(t.drop_last()) * 10 + digit_value(t.last()));
    } else {
        lemma_natural_text(n / 10);
        lemma_digit_char(n % 10);
        let t = natural_text(n);
        assert(t.drop_last() =~= natural_text(n / 10));
        assert(t.last() == digit_char(n % 10));
        assert(n == (n / 10) * 10 + n % 10);
        assert(digits_value(t) == digits_value(t.drop_last()) * 10 + digit_value(t.last()));
        assert forall|i: int| 0 <= i < t.len() implies is_digit(#[trigger] t[i]) by {
            if i < t.len() - 1 {
                assert(t[i] == natural_text(n / 10)[i]);
            }
        }
        assert(t[0] == natural_text(n / 10)[0]);
    }
}

/// Reading the canonical text of an integer gives that integer back.
pub proof fn lemma_integer_text_round_trip(v: int, signed: bool)
    requires
        v < 0 ==> signed,
    ensures
        integer_text_value(integer_text(v), signed) == Some(v),
{
    if v < 0 {
        lemma_natural_text((-v) as nat);
        let t = integer_text(v);
        assert(t.drop_first() =~= natural_text((-v) as nat));
        assert(t[0] == '-');
    } else {
        lemma_natural_text(v as nat);
        let t = natural_text(v as nat);
        assert(is_digit(t[0]));
    }
}

/// Reads `s` as an integer by the rules of `integer_text_value`, with
/// values beyond `parse_cap()` in magnitude held to it.
pub fn parse_integer(s: &str, signed: bool) -> (r: Option<i128>)
    ensures
        r == (match integer_text_value(s@, signed) {
            Some(v) => Some(saturate(v) as i128),
            None => None::<i128>,
        }),
{
    let len = s.unicode_len();
    if len == 0 {
        return None;
    }
    let first = s.get_char(0);
    let start: usize = if first == '+' || (signed && first == '-') {
        1
    } else {
        0
    };
    if start == len {
        assert(s@.drop_first().len() == 0);
        return None;
    }
    let ghost digits = s@.subrange(start as int, len as int);
    let cap: i128 = 0x1_0000_0000_0000_0000_0000;
    let mut acc: i128 = 0;
    let mut i: usize = start;
    while i < len
        invariant
            start <= i <= len,
            start <= 1,
            len == s@.len(),
            digits == s@.subrange(start as int, len as int),
            cap == parse_cap(),
            s@[0] == first,
            start == 1 ==> !is_digit(first) && (first == '+' || (signed && first == '-')),
            start == 0 ==> first != '+' && !(signed && first == '-'),
            forall|j: int| start <= j < i ==> is_digit(#[trigger] s@[j]),
            digits_value(s@.subrange(start as int, i as int)) >= 0,
            acc == if digits_value(s@.subrange(start as int, i as int)) > cap {
                cap + 1
            } else {
                digits_value(s@.subrange(start as int, i as int))
            },
        decreases len - i,
    {
        let c = s.get_char(i);
        if !('0' <= c && c <= '9') {
            assert(s@[i as int] == c);
            assert(!is_digit(s@[i as int]));
            proof {
                assert(!all_digits(s@));
                if start == 1 {
                    assert(s@.drop_first()[i - 1] == c);
                    assert(!all_digits(s@.drop_first()));
                }

            }
            return None;
        }
        let ghost prev = s@.subrange(start as int, i as int);
        let ghost next = s@.subrange(start as int, i + 1);
        assert(next.drop_last() =~= prev);
        assert(next.last() == c);
        let d: i128 = (c as u32 - '0' as u32) as i128;
        assert(digits_value(next) == digits_value(prev) * 10 + d);
        if acc > cap {
            assert(digits_value(next) > cap) by (nonlinear_arith)
                requires
                    digits_value(next) == digits_value(prev) * 10 + d,
                    digits_value(prev) > cap,
                    cap > 0,
                    d >= 0,
            ;
        } else {
            let nv = acc * 10 + d;
            acc = if nv > cap {
                cap + 1
            } else {
                nv
            };
        }
        i = i + 1;
    }
    assert(s@.subrange(start as int, len as int) =~= digits);
    proof {
        if start == 1 {
            assert(s@.drop_first() =~= digits);
        } else {
            assert(s@ =~= digits);
        }
    }
    let value: i128 = if acc > cap {
        cap
    } else {
        acc
    };
    if start == 1 && first == '-' {
        Some(-value)
    } else {
        Some(value)
    }
}

/// What `str::parse::<N>` gives: the value that `s` spells, where it is
/// integer text within the kind's range.
pub fn parse_as<N: Number>(s: &str) -> (r: Option<N>)
    ensures
        match r {
            Some(x) => number_text_value::<N>(s@) == Some(x.as_int()),
            None => number_text_value::<N>(s@) is None,
        },
{
    let low = N::lowest_i128();
    let high = N::highest_i128();
    proof {
        N::lemma_bounds();
    }
    match parse_integer(s, low < 0) {
        Some(v) => {
            if low <= v && v <= high {
                Some(N::from_i128(v))
            } else {
                None
            }
        },
        None => None,
    }
}

} // verus!
