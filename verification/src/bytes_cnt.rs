//! A byte count with an optional unit suffix, as accepted on the command
//! line: decimal digits, `_` separators after the first digit, and an
//! optional trailing `k`, `m` or `g` (case-insensitive) scaling by powers
//! of 1024.

use vstd::prelude::*;
use vstd::string::StringSliceAdditionalSpecFns;

verus! {

/// Why a byte-count string or value was rejected.
#[derive(PartialEq, Eq, Structural, Debug, Clone, Copy)]
pub enum BytesError {
    /// The input does not start with a digit.
    LeadingNonDigit,
    /// A character that is neither digit, separator nor unit suffix.
    UnexpectedChar,
    /// The input is empty.
    EmptyNumber,
    /// Input continues after the unit suffix.
    TrailingInput,
    /// The digits alone exceed the representable range.
    NumberOverflow,
    /// The digits scaled by the suffix exceed the representable range.
    ValueOverflow,
    /// A suffix character outside `k`, `m`, `g`.
    UnsupportedSuffix,
}

pub open spec fn is_digit(b: u8) -> bool {
    48 <= b <= 57
}

pub open spec fn is_sep(b: u8) -> bool {
    b == 95
}

/// The canonical suffix letter a byte stands for, if any.
pub open spec fn spec_suffix_of(b: u8) -> Option<char> {
    if b == 107 || b == 75 {
        Some('k')
    } else if b == 109 || b == 77 {
        Some('m')
    } else if b == 103 || b == 71 {
        Some('g')
    } else {
        None
    }
}

pub open spec fn spec_valid_suffix(s: Option<char>) -> bool {
    match s {
        None => true,
        Some(c) => c == 'k' || c == 'm' || c == 'g',
    }
}

/// The scale factor a suffix applies: powers of 1024.
pub open spec fn spec_multiplier(s: Option<char>) -> int {
    match s {
        None => 1,
        Some(c) => if c == 'k' {
            1024
        } else if c == 'm' {
            1048576
        } else if c == 'g' {
            1073741824
        } else {
            0
        },
    }
}

/// The digit bytes of `s`, in order, separators dropped.
pub open spec fn spec_digits(s: Seq<u8>) -> Seq<u8>
    decreases s.len(),
{
    if s.len() == 0 {
        Seq::empty()
    } else if is_digit(s.last()) {
        spec_digits(s.drop_last()).push(s.last())
    } else {
        spec_digits(s.drop_last())
    }
}

/// The number the digit bytes denote, in decimal.
pub open spec fn digits_value(d: Seq<u8>) -> int
    decreases d.len(),
{
    if d.len() == 0 {
        0
    } else {
        digits_value(d.drop_last()) * 10 + (d.last() - 48)
    }
}

/// Length of the leading run of digits and separators.
pub open spec fn body_end(s: Seq<u8>) -> int
    decreases s.len(),
{
    if s.len() == 0 {
        0
    } else if is_digit(s[0]) || is_sep(s[0]) {
        1 + body_end(s.skip(1))
    } else {
        0
    }
}

/// What parsing a byte-count string yields: the digits' value and the
/// canonical suffix, or the error the input earns, checked in scan order.
pub open spec fn spec_parse(s: Seq<u8>) -> Result<(int, Option<char>), BytesError> {
    let j = body_end(s);
    if s.len() == 0 {
        Err(BytesError::EmptyNumber)
    } else if !is_digit(s[0]) {
        Err(BytesError::LeadingNonDigit)
    } else if j < s.len() && spec_suffix_of(s[j]) is None {
        Err(BytesError::UnexpectedChar)
    } else if j < s.len() && j != s.len() - 1 {
        Err(BytesError::TrailingInput)
    } else if digits_value(spec_digits(s.take(j))) > u64::MAX {
        Err(BytesError::NumberOverflow)
    } else {
        let suf = if j < s.len() {
            spec_suffix_of(s[j])
        } else {
            None
        };
        Ok((digits_value(spec_digits(s.take(j))), suf))
    }
}

/// Every byte of the digit subsequence is a digit.
proof fn lemma_spec_digits_are_digits(s: Seq<u8>)
    ensures
        forall|i: int| 0 <= i < spec_digits(s).len() ==> is_digit(#[trigger] spec_digits(s)[i]),
    decreases s.len(),
{
    if s.len() > 0 {
        lemma_spec_digits_are_digits(s.drop_last());
        let d0 = spec_digits(s.drop_last());
        if is_digit(s.last()) {
            assert forall|i: int| 0 <= i < spec_digits(s).len() implies is_digit(
                #[trigger] spec_digits(s)[i],
            ) by {
                if i < d0.len() {
                    assert(spec_digits(s)[i] == d0[i]);
                } else {
                    assert(spec_digits(s)[i] == s.last());
                }
            }
        }
    }
}

/// The value of a digit sequence is never negative.
proof fn lemma_digits_value_nonneg(d: Seq<u8>)
    requires
        forall|i: int| 0 <= i < d.len() ==> is_digit(#[trigger] d[i]),
    ensures
        digits_value(d) >= 0,
    decreases d.len(),
{
    if d.len() > 0 {
        lemma_digits_value_nonneg(d.drop_last());
    }
}

/// A byte count: the number as given, and the suffix it was given with.
#[derive(Debug, Clone)]
pub struct BytesCnt {
    num: u64,
    suffix: Option<char>,
}

impl BytesCnt {
    /// The suffix is one of the accepted letters and the denoted byte count
    /// fits in 64 bits.
    pub closed spec fn wf(self) -> bool {
        &&& spec_valid_suffix(self.suffix)
        &&& self.num * spec_multiplier(self.suffix) <= u64::MAX
    }

    /// The number as given, before scaling.
    pub closed spec fn spec_num(self) -> u64 {
        self.num
    }

    /// The canonical suffix, if one was given.
    pub closed spec fn spec_suffix(self) -> Option<char> {
        self.suffix
    }

    /// The denoted byte count: the number scaled by the suffix.
    pub open spec fn spec_bytes(self) -> int {
        self.spec_num() * spec_multiplier(self.spec_suffix())
    }

    /// A byte count from a number and an optional suffix; rejected if the
    /// suffix is not one of the accepted letters or the denoted count does
    /// not fit in 64 bits.
    pub fn new(num: u64, suffix: Option<char>) -> (r: Result<BytesCnt, BytesError>)
        ensures
            !spec_valid_suffix(suffix) ==> r == Err::<BytesCnt, BytesError>(
                BytesError::UnsupportedSuffix,
            ),
            spec_valid_suffix(suffix) && num * spec_multiplier(suffix) > u64::MAX ==> r == Err::<
                BytesCnt,
                BytesError,
            >(BytesError::ValueOverflow),
            spec_valid_suffix(suffix) && num * spec_multiplier(suffix) <= u64::MAX ==> (r matches Ok(
                bc,
            ) && bc.wf() && bc.spec_num() == num && bc.spec_suffix() == suffix),
    {
        let me = BytesCnt { num, suffix };
        match me.to_bytes_safe() {
            Some(_) => Ok(me),
            None => {
                match suffix {
                    None => Err(BytesError::ValueOverflow),
                    Some(c) => {
                        if c == 'k' || c == 'm' || c == 'g' {
                            Err(BytesError::ValueOverflow)
                        } else {
                            Err(BytesError::UnsupportedSuffix)
                        }
                    },
                }
            },
        }
    }

    /// The denoted byte count, when the suffix is accepted and the count
    /// fits; nothing otherwise.
    pub fn to_bytes_safe(&self) -> (r: Option<u64>)
        ensures
            r is Some <==> (spec_valid_suffix(self.spec_suffix()) && self.spec_bytes()
                <= u64::MAX),
            r matches Some(v) ==> v == self.spec_bytes(),
    {
        let mult: u64 = match self.suffix {
            None => 1,
            Some(c) => {
                if c == 'k' {
                    1024
                } else if c == 'm' {
                    1048576
                } else if c == 'g' {
                    1073741824
                } else {
                    return None;
                }
            },
        };
        if self.num <= u64::MAX / mult {
            proof {
                assert(self.num * mult <= u64::MAX) by (nonlinear_arith)
                    requires
                        self.num <= u64::MAX / mult,
                        1 <= mult,
                ;
            }
            Some(self.num * mult)
        } else {
            proof {
                assert(self.num * mult > u64::MAX) by (nonlinear_arith)
                    requires
                        self.num > u64::MAX / mult,
                        1 <= mult,
                ;
            }
            None
        }
    }

    /// The denoted byte count of a well-formed value.
    pub fn to_bytes(&self) -> (r: u64)
        requires
            self.wf(),
        ensures
            r == self.spec_bytes(),
    {
        match self.to_bytes_safe() {
            Some(v) => v,
            None => {
                proof {
                    assert(false);
                }
                0
            },
        }
    }

    /// Parses a byte-count string: digits with optional `_` separators,
    /// then an optional unit suffix.
    pub fn parse(s: &str) -> (r: Result<BytesCnt, BytesError>)
        ensures
            ({
                let b = s.spec_bytes();
                match spec_parse(b) {
                    Err(e) => r == Err::<BytesCnt, BytesError>(e),
                    Ok((v, suf)) => if v * spec_multiplier(suf) <= u64::MAX {
                        r matches Ok(bc) && bc.wf() && bc.spec_num() == v && bc.spec_suffix()
                            == suf
                    } else {
                        r == Err::<BytesCnt, BytesError>(BytesError::ValueOverflow)
                    },
                }
            }),
    {
        let bytes = s.as_bytes();
        parse_bytes(bytes)
    }
}

/// The parser behind `BytesCnt::parse`, over the raw bytes.
fn parse_bytes(s: &[u8]) -> (r: Result<BytesCnt, BytesError>)
    ensures
        ({
            match spec_parse(s@) {
                Err(e) => r == Err::<BytesCnt, BytesError>(e),
                Ok((v, suf)) => if v * spec_multiplier(suf) <= u64::MAX {
                    r matches Ok(bc) && bc.wf() && bc.spec_num() == v && bc.spec_suffix() == suf
                } else {
                    r == Err::<BytesCnt, BytesError>(BytesError::ValueOverflow)
                },
            }
        }),
{
    let n = s.len();
    if n == 0 {
        return Err(BytesError::EmptyNumber);
    }
    if !(48 <= s[0] && s[0] <= 57) {
        return Err(BytesError::LeadingNonDigit);
    }
    let mut i: usize = 0;
    let mut acc: u64 = 0;
    let mut overflow = false;
    loop
        invariant
            n == s@.len(),
            0 <= i <= n,
            forall|k: int| 0 <= k < i ==> is_digit(#[trigger] s@[k]) || is_sep(s@[k]),
            !overflow ==> acc == digits_value(spec_digits(s@.take(i as int))),
            overflow ==> digits_value(spec_digits(s@.take(i as int))) > u64::MAX,
        ensures
            i == body_end(s@),
            !overflow ==> acc == digits_value(spec_digits(s@.take(i as int))),
            overflow ==> digits_value(spec_digits(s@.take(i as int))) > u64::MAX,
        decreases n - i,
    {
        if i >= n {
            proof {
                lemma_body_end_converse(s@, i as int);
            }
            break;
        }
        let b = s[i];
        if 48 <= b && b <= 57 {
            let d = b - 48;
            proof {
                let t0 = s@.take(i as int);
                let t1 = s@.take(i + 1);
                assert(t1.drop_last() =~= t0);
                assert(t1.last() == s@[i as int]);
                lemma_spec_digits_are_digits(t0);
                lemma_digits_value_nonneg(spec_digits(t0));
                assert(spec_digits(t1) =~= spec_digits(t0).push(s@[i as int]));
                assert(spec_digits(t0).push(s@[i as int]).drop_last() =~= spec_digits(t0));
                assert(digits_value(spec_digits(t1)) == digits_value(spec_digits(t0)) * 10 + (s@[
                    i as int
                ] - 48));
            }
            if !overflow {
                if acc <= (u64::MAX - (d as u64)) / 10 {
                    proof {
                        assert(acc * 10 + d <= u64::MAX) by (nonlinear_arith)
                            requires
                                acc <= (u64::MAX - d) / 10,
                                0 <= d <= 9,
                        ;
                    }
                    acc = acc * 10 + (d as u64);
                } else {
                    proof {
                        assert(acc * 10 + d > u64::MAX) by (nonlinear_arith)
                            requires
                                acc > (u64::MAX - d) / 10,
                                0 <= d <= 9,
                        ;
                    }
                    overflow = true;
                }
            } else {
                proof {
                    let prev = digits_value(spec_digits(s@.take(i as int)));
                    assert(prev * 10 + d > u64::MAX) by (nonlinear_arith)
                        requires
                            prev > u64::MAX,
                            0 <= d,
                    ;
                }
            }
            i = i + 1;
        } else if b == 95 {
            proof {
                let t0 = s@.take(i as int);
                let t1 = s@.take(i + 1);
                assert(t1.drop_last() =~= t0);
                assert(t1.last() == s@[i as int]);
                assert(spec_digits(t1) =~= spec_digits(t0));
            }
            i = i + 1;
        } else {
            proof {
                lemma_body_end_converse(s@, i as int);
            }
            break;
        }
    }
    if i < n {
        let c: char = match s[i] {
            107 | 75 => 'k',
            109 | 77 => 'm',
            103 | 71 => 'g',
            _ => {
                return Err(BytesError::UnexpectedChar);
            },
        };
        if i != n - 1 {
            return Err(BytesError::TrailingInput);
        }
        if overflow {
            return Err(BytesError::NumberOverflow);
        }
        match BytesCnt::new(acc, Some(c)) {
            Ok(bc) => Ok(bc),
            Err(_) => Err(BytesError::ValueOverflow),
        }
    } else {
        if overflow {
            return Err(BytesError::NumberOverflow);
        }
        match BytesCnt::new(acc, None) {
            Ok(bc) => Ok(bc),
            Err(_) => Err(BytesError::ValueOverflow),
        }
    }
}

/// If every byte before `j` is digit or separator and the byte at `j` (if
/// any) is neither, then `j` is exactly the body's end.
proof fn lemma_body_end_converse(s: Seq<u8>, j: int)
    requires
        0 <= j <= s.len(),
        forall|k: int| 0 <= k < j ==> is_digit(#[trigger] s[k]) || is_sep(s[k]),
        j < s.len() ==> !is_digit(s[j]) && !is_sep(s[j]),
    ensures
        body_end(s) == j,
    decreases s.len(),
{
    if s.len() > 0 && (is_digit(s[0]) || is_sep(s[0])) {
        assert(j > 0);
        assert(forall|i: int| 0 <= i < s.skip(1).len() ==> s.skip(1)[i] == s[i + 1]);
        lemma_body_end_converse(s.skip(1), j - 1);
    }
}

/// The character of a single decimal digit.
pub open spec fn spec_digit_char(d: int) -> char {
    if d == 0 {
        '0'
    } else if d == 1 {
        '1'
    } else if d == 2 {
        '2'
    } else if d == 3 {
        '3'
    } else if d == 4 {
        '4'
    } else if d == 5 {
        '5'
    } else if d == 6 {
        '6'
    } else if d == 7 {
        '7'
    } else if d == 8 {
        '8'
    } else {
        '9'
    }
}

/// The decimal digits of a number, most significant first.
pub open spec fn spec_decimal_chars(x: int) -> Seq<char>
    decreases x,
{
    if x < 0 {
        Seq::empty()
    } else if x < 10 {
        seq![spec_digit_char(x)]
    } else {
        spec_decimal_chars(x / 10).push(spec_digit_char(x % 10))
    }
}

/// The decimal digits of a positive number, most significant first;
/// empty for zero.
pub open spec fn spec_digits_prefix(v: int) -> Seq<char>
    decreases v,
{
    if v <= 0 {
        Seq::empty()
    } else if v < 10 {
        seq![spec_digit_char(v)]
    } else {
        spec_digits_prefix(v / 10).push(spec_digit_char(v % 10))
    }
}

/// For a positive number the zero-stripped digit sequence is the decimal
/// rendering itself.
proof fn lemma_prefix_is_decimal(x: int)
    requires
        x > 0,
    ensures
        spec_digits_prefix(x) == spec_decimal_chars(x),
    decreases x,
{
    if x >= 10 {
        lemma_prefix_is_decimal(x / 10);
    }
}

/// Renders a number in decimal, most significant digit first.
fn u64_to_string(x: u64) -> (r: String)
    ensures
        r@ == spec_decimal_chars(x as int),
{
    proof {
        reveal_strlit("0");
        reveal_strlit("1");
        reveal_strlit("2");
        reveal_strlit("3");
        reveal_strlit("4");
        reveal_strlit("5");
        reveal_strlit("6");
        reveal_strlit("7");
        reveal_strlit("8");
        reveal_strlit("9");
    }
    if x == 0 {
        return "0".to_owned();
    }
    let mut digits: Vec<u64> = Vec::new();
    let mut v: u64 = x;
    while v > 0
        invariant
            x > 0,
            forall|k: int| 0 <= k < digits@.len() ==> 0 <= #[trigger] digits@[k] < 10,
            v > 0 ==> spec_digits_prefix(x as int) =~= spec_digits_prefix(v as int) + Seq::new(
                digits@.len(),
                |j: int| spec_digit_char(digits@[digits@.len() - 1 - j] as int),
            ),
            v == 0 ==> spec_digits_prefix(x as int) =~= Seq::new(
                digits@.len(),
                |j: int| spec_digit_char(digits@[digits@.len() - 1 - j] as int),
            ),
        decreases v,
    {
        let ghost digits0 = digits@;
        let ghost v0 = v;
        let d = v % 10;
        digits.push(d);
        v = v / 10;
        proof {
            let m0 = digits0.len() as int;
            let rev0 = Seq::new(
                digits0.len(),
                |j: int| spec_digit_char(digits0[m0 - 1 - j] as int),
            );
            let rev1 = Seq::new(
                digits@.len(),
                |j: int| spec_digit_char(digits@[digits@.len() - 1 - j] as int),
            );
            assert(rev1 =~= seq![spec_digit_char(d as int)] + rev0);
            if v0 < 10 {
                assert(spec_digits_prefix(v0 as int) =~= seq![spec_digit_char(d as int)]);
            } else {
                assert(spec_digits_prefix(v0 as int) =~= spec_digits_prefix(v as int) + seq![
                    spec_digit_char(d as int),
                ]);
            }
            if v > 0 {
                assert(spec_digits_prefix(x as int) =~= spec_digits_prefix(v as int) + rev1);
            } else {
                assert(spec_digits_prefix(x as int) =~= rev1);
            }
        }
    }
    let mut out = String::new();
    let m = digits.len();
    let mut i: usize = m;
    while i > 0
        invariant
            m == digits@.len(),
            0 <= i <= m,
            forall|k: int| 0 <= k < digits@.len() ==> 0 <= #[trigger] digits@[k] < 10,
            out@ =~= Seq::new(
                (m - i) as nat,
                |j: int| spec_digit_char(digits@[m - 1 - j] as int),
            ),
        decreases i,
    {
        i = i - 1;
        let d = digits[i];
        let ghost out0 = out@;
        let piece: &str = if d == 0 {
            "0"
        } else if d == 1 {
            "1"
        } else if d == 2 {
            "2"
        } else if d == 3 {
            "3"
        } else if d == 4 {
            "4"
        } else if d == 5 {
            "5"
        } else if d == 6 {
            "6"
        } else if d == 7 {
            "7"
        } else if d == 8 {
            "8"
        } else {
            "9"
        };
        proof {
            reveal_strlit("0");
            reveal_strlit("1");
            reveal_strlit("2");
            reveal_strlit("3");
            reveal_strlit("4");
            reveal_strlit("5");
            reveal_strlit("6");
            reveal_strlit("7");
            reveal_strlit("8");
            reveal_strlit("9");
            assert(piece@ =~= seq![spec_digit_char(d as int)]);
        }
        out.append(piece);
        proof {
            assert(out@ =~= Seq::new(
                (m - i) as nat,
                |j: int| spec_digit_char(digits@[m - 1 - j] as int),
            ));
        }
    }
    proof {
        lemma_prefix_is_decimal(x as int);
        assert(out@ =~= spec_decimal_chars(x as int));
    }
    out
}

impl BytesCnt {
    /// The value as it was written: the decimal number, then the suffix
    /// letter if one was given.
    pub fn render(&self) -> (r: String)
        requires
            self.wf(),
        ensures
            r@ == spec_decimal_chars(self.spec_num() as int) + (match self.spec_suffix() {
                None => Seq::<char>::empty(),
                Some(c) => seq![c],
            }),
    {
        let mut out = u64_to_string(self.num);
        match self.suffix {
            None => {},
            Some(c) => {
                if c == 'k' {
                    proof {
                        reveal_strlit("k");
                    }
                    out.append("k");
                } else if c == 'm' {
                    proof {
                        reveal_strlit("m");
                    }
                    out.append("m");
                } else {
                    proof {
                        reveal_strlit("g");
                    }
                    out.append("g");
                }
            },
        }
        proof {
            assert(out@ =~= spec_decimal_chars(self.spec_num() as int) + (match self.spec_suffix() {
                None => Seq::<char>::empty(),
                Some(c) => seq![c],
            }));
        }
        out
    }
}

impl core::str::FromStr for BytesCnt {
    type Err = BytesError;

    fn from_str(s: &str) -> Result<BytesCnt, BytesError> {
        BytesCnt::parse(s)
    }
}

} // verus!
