//! The grammar of decimal floating-point literals,
//! `[+-]digits[.digits][(e|E)[+-]digits]`, split into its parts. Turning the
//! parts into a float is the caller's.
use vstd::prelude::*;

verus! {

/// Why a literal was refused.
#[derive(Clone, Copy, Debug, PartialEq, Eq, Structural)]
pub enum FloatErrorKind {
    Empty,
    Invalid,
}

/// A refused literal.
#[derive(Clone, Copy, Debug, PartialEq, Eq, Structural)]
pub struct ParseFloatError {
    pub kind: FloatErrorKind,
}

fn pfe_empty() -> (r: ParseFloatError)
    ensures
        r.kind == FloatErrorKind::Empty,
{
    ParseFloatError { kind: FloatErrorKind::Empty }
}

fn pfe_invalid() -> (r: ParseFloatError)
    ensures
        r.kind == FloatErrorKind::Invalid,
{
    ParseFloatError { kind: FloatErrorKind::Invalid }
}

/// The parts of a literal; digits are given by value, 0 to 9.
pub struct DecimalParts {
    pub negative: bool,
    pub int_digits: Vec<u8>,
    pub frac_digits: Vec<u8>,
    pub exp_negative: bool,
    pub exp_digits: Vec<u8>,
}

/// What a literal is made of, as the grammar reads it.
pub ghost struct ScannedParts {
    pub negative: bool,
    pub int_digits: Seq<u8>,
    pub frac_digits: Seq<u8>,
    pub exp_negative: bool,
    pub exp_digits: Seq<u8>,
}

pub open spec fn is_digit(b: u8) -> bool {
    48 <= b <= 57
}

/// The values of the digit characters in `s`.
pub open spec fn digit_values(s: Seq<u8>) -> Seq<u8> {
    s.map_values(|b: u8| (b - 48) as u8)
}

/// The end of the run of digits in `s` that starts at `from`.
pub open spec fn digits_end(s: Seq<u8>, from: int) -> int
    decreases s.len() - from,
{
    if from < 0 || from >= s.len() {
        from
    } else if is_digit(s[from]) {
        digits_end(s, from + 1)
    } else {
        from
    }
}

/// The exponent part of `s` starting right after the `e` at `at - 1`, or
/// `None` when the rest of `s` is not an optionally signed run of digits.
pub open spec fn scan_exponent(s: Seq<u8>, at: int) -> Option<(bool, Seq<u8>)> {
    let signed = at < s.len() && (s[at] == 45u8 || s[at] == 43u8);
    let start = if signed { at + 1 } else { at };
    let end = digits_end(s, start);
    if end == s.len() {
        Some((at < s.len() && s[at] == 45u8, digit_values(s.subrange(start, end))))
    } else {
        None
    }
}

/// How `s` reads as a literal: an optional sign, integer digits, then
/// optionally a point and fraction digits, then optionally `e` or `E`, an
/// optional sign and exponent digits, and nothing else. Any part may have
/// no digits. An empty `s` is refused as empty, any other that does not
/// read so as invalid.
pub open spec fn scan_spec(s: Seq<u8>) -> Result<ScannedParts, FloatErrorKind> {
    if s.len() == 0 {
        Err(FloatErrorKind::Empty)
    } else {
        let p0: int = if s[0] == 45u8 || s[0] == 43u8 { 1 } else { 0 };
        let p1 = digits_end(s, p0);
        let has_frac = p1 < s.len() && s[p1] == 46u8;
        let p2 = if has_frac { digits_end(s, p1 + 1) } else { p1 };
        let frac = if has_frac { digit_values(s.subrange(p1 + 1, p2)) } else { Seq::empty() };
        let ints = digit_values(s.subrange(p0, p1));
        if p2 == s.len() {
            Ok(ScannedParts {
                negative: s[0] == 45u8,
                int_digits: ints,
                frac_digits: frac,
                exp_negative: false,
                exp_digits: Seq::empty(),
            })
        } else if s[p2] == 101u8 || s[p2] == 69u8 {
            match scan_exponent(s, p2 + 1) {
                Some((eneg, exps)) => Ok(ScannedParts {
                    negative: s[0] == 45u8,
                    int_digits: ints,
                    frac_digits: frac,
                    exp_negative: eneg,
                    exp_digits: exps,
                }),
                None => Err(FloatErrorKind::Invalid),
            }
        } else {
            Err(FloatErrorKind::Invalid)
        }
    }
}

impl DecimalParts {
    pub open spec fn view_parts(&self) -> ScannedParts {
        ScannedParts {
            negative: self.negative,
            int_digits: self.int_digits@,
            frac_digits: self.frac_digits@,
            exp_negative: self.exp_negative,
            exp_digits: self.exp_digits@,
        }
    }
}

/// Reads the run of digits of `s` from `from`, giving its end and the
/// values of its digits.
fn scan_digits(s: &[u8], from: usize) -> (r: (usize, Vec<u8>))
    requires
        from <= s@.len(),
    ensures
        r.0 == digits_end(s@, from as int),
        from <= r.0 <= s@.len(),
        r.1@ == digit_values(s@.subrange(from as int, r.0 as int)),
{
    let mut i: usize = from;
    let mut v: Vec<u8> = Vec::new();
    while i < s.len() && 48 <= s[i] && s[i] <= 57
        invariant
            from <= i <= s@.len(),
            digits_end(s@, i as int) == digits_end(s@, from as int),
            v@ == digit_values(s@.subrange(from as int, i as int)),
        decreases s@.len() - i,
    {
        v.push(s[i] - 48);
        i = i + 1;
        assert(v@ =~= digit_values(s@.subrange(from as int, i as int)));
    }
    (i, v)
}

/// Splits the literal `s` into its parts as `scan_spec` reads it.
pub fn scan_decimal(s: &[u8]) -> (r: Result<DecimalParts, ParseFloatError>)
    ensures
        match r {
            Ok(p) => scan_spec(s@) == Ok::<ScannedParts, FloatErrorKind>(p.view_parts()),
            Err(e) => scan_spec(s@) == Err::<ScannedParts, FloatErrorKind>(e.kind),
        },
{
    let len = s.len();
    if len == 0 {
        return Err(pfe_empty());
    }
    let negative = s[0] == 45u8;
    let p0: usize = if s[0] == 45u8 || s[0] == 43u8 {
        1
    } else {
        0
    };
    let (p1, int_digits) = scan_digits(s, p0);
    let has_frac = p1 < len && s[p1] == 46u8;
    let (p2, frac_digits) = if has_frac {
        scan_digits(s, p1 + 1)
    } else {
        (p1, Vec::new())
    };
    proof {
        if !has_frac {
            assert(frac_digits@ =~= Seq::<u8>::empty());
        }
    }
    if p2 == len {
        return Ok(
            DecimalParts {
                negative,
                int_digits,
                frac_digits,
                exp_negative: false,
                exp_digits: Vec::new(),
            },
        );
    }
    if s[p2] != 101u8 && s[p2] != 69u8 {
        return Err(pfe_invalid());
    }
    let at = p2 + 1;
    let signed = at < len && (s[at] == 45u8 || s[at] == 43u8);
    let exp_negative = at < len && s[at] == 45u8;
    let start = if signed {
        at + 1
    } else {
        at
    };
    let (end, exp_digits) = scan_digits(s, start);
    if end != len {
        return Err(pfe_invalid());
    }
    Ok(DecimalParts { negative, int_digits, frac_digits, exp_negative, exp_digits })
}

} // verus!
