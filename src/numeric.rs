//! Decimal integers as written in headers and settings.
use vstd::prelude::*;
use vstd::string::StrSliceExecFns;

verus! {

pub open spec fn is_digit(c: char) -> bool {
    '0' <= c && c <= '9'
}

/// A non-empty run of ASCII digits.
pub open spec fn is_digits(d: Seq<char>) -> bool {
    d.len() > 0 && forall|i: int| 0 <= i < d.len() ==> is_digit(#[trigger] d[i])
}

/// The value of a run of digits, read in base ten.
pub open spec fn digits_value(d: Seq<char>) -> int
    decreases d.len(),
{
    if d.len() == 0 {
        0
    } else {
        digits_value(d.drop_last()) * 10 + (d.last() as int - '0' as int)
    }
}

/// The integer that `s` spells: digits, with an optional leading `+` or `-`.
pub open spec fn signed_decimal(s: Seq<char>) -> Option<int> {
    if s.len() > 0 && s[0] == '-' && is_digits(s.drop_first()) {
        Some(-digits_value(s.drop_first()))
    } else if s.len() > 0 && s[0] == '+' && is_digits(s.drop_first()) {
        Some(digits_value(s.drop_first()))
    } else if is_digits(s) {
        Some(digits_value(s))
    } else {
        None
    }
}

/// `s` as an `i64`: its decimal value when it spells one in range.
pub open spec fn i64_of(s: Seq<char>) -> Option<i64> {
    match signed_decimal(s) {
        Some(v) => if i64::MIN <= v <= i64::MAX {
            Some(v as i64)
        } else {
            None
        },
        None => None,
    }
}

/// Why a text is not an unsigned integer of a type whose largest value is `max`.
#[derive(Clone, Copy, Debug, PartialEq, Eq, Structural)]
pub enum IntFault {
    /// The text is empty.
    Empty,
    /// A character is not a digit (a sign alone counts, and `-` before digits).
    InvalidDigit,
    /// The number is larger than the type holds.
    PosOverflow,
}

/// The message that std's integer parse error gives for each fault.
pub open spec fn fault_text(f: IntFault) -> Seq<char> {
    match f {
        IntFault::Empty => "cannot parse integer from empty string"@,
        IntFault::InvalidDigit => "invalid digit found in string"@,
        IntFault::PosOverflow => "number too large to fit in target type"@,
    }
}

/// Reads the digits `d` left to right on top of `acc`: the first character that is not
/// a digit, or the first digit that carries the value past `max`, ends the reading.
pub open spec fn scan_digits(d: Seq<char>, acc: int, max: int) -> Result<int, IntFault>
    decreases d.len(),
{
    if d.len() == 0 {
        Ok(acc)
    } else if !is_digit(d[0]) {
        Err(IntFault::InvalidDigit)
    } else if acc * 10 + (d[0] as int - '0' as int) > max {
        Err(IntFault::PosOverflow)
    } else {
        scan_digits(d.drop_first(), acc * 10 + (d[0] as int - '0' as int), max)
    }
}

/// `s` read as an unsigned integer no greater than `max`: digits with an optional
/// leading `+`, as `str::parse` reads them for an unsigned type whose largest value is `max`.
pub open spec fn unsigned_parse(s: Seq<char>, max: u64) -> Result<u64, IntFault> {
    if s.len() == 0 {
        Err(IntFault::Empty)
    } else if s[0] == '+' && s.len() == 1 {
        Err(IntFault::InvalidDigit)
    } else {
        let d = if s[0] == '+' { s.drop_first() } else { s };
        match scan_digits(d, 0, max as int) {
            Ok(v) => Ok(v as u64),
            Err(f) => Err(f),
        }
    }
}

impl IntFault {
    /// The message of this fault.
    pub fn message(&self) -> (r: &'static str)
        ensures
            r@ == fault_text(*self),
    {
        match self {
            IntFault::Empty => {
                proof { reveal_strlit("cannot parse integer from empty string"); }
                "cannot parse integer from empty string"
            },
            IntFault::InvalidDigit => {
                proof { reveal_strlit("invalid digit found in string"); }
                "invalid digit found in string"
            },
            IntFault::PosOverflow => {
                proof { reveal_strlit("number too large to fit in target type"); }
                "number too large to fit in target type"
            },
        }
    }
}

proof fn lemma_digits_value_nonneg(d: Seq<char>)
    requires
        forall|i: int| 0 <= i < d.len() ==> is_digit(#[trigger] d[i]),
    ensures
        digits_value(d) >= 0,
    decreases d.len(),
{
    if d.len() > 0 {
        lemma_digits_value_nonneg(d.drop_last());
    }
}

proof fn lemma_digits_value_grows(d: Seq<char>, i: int)
    requires
        forall|j: int| 0 <= j < d.len() ==> is_digit(#[trigger] d[j]),
        0 <= i <= d.len(),
    ensures
        digits_value(d.subrange(0, i)) <= digits_value(d),
    decreases d.len() - i,
{
    if i < d.len() {
        lemma_digits_value_grows(d, i + 1);
        let p = d.subrange(0, i + 1);
        assert(p.drop_last() == d.subrange(0, i));
        lemma_digits_value_nonneg(d.subrange(0, i));
    } else {
        assert(d.subrange(0, i) == d);
    }
}

/// The value of the digits of `s` from position `from` on, when they are all digits,
/// there is at least one, and the value is at most `bound`.
fn digits_at_most(s: &str, from: usize, bound: u64) -> (r: Option<u64>)
    requires
        from <= s@.len(),
    ensures
        r matches Some(v) ==> is_digits(s@.subrange(from as int, s@.len() as int)) && v
            == digits_value(s@.subrange(from as int, s@.len() as int)) && v <= bound,
        r is None ==> !is_digits(s@.subrange(from as int, s@.len() as int)) || digits_value(
            s@.subrange(from as int, s@.len() as int),
        ) > bound,
{
    let n = s.unicode_len();
    let ghost d = s@.subrange(from as int, n as int);
    if from == n {
        return None;
    }
    let mut i: usize = from;
    let mut acc: u64 = 0;
    let mut over = false;
    while i < n
        invariant
            n == s@.len(),
            from <= i <= n,
            d == s@.subrange(from as int, n as int),
            forall|j: int| 0 <= j < i - from ==> is_digit(#[trigger] d[j]),
            !over ==> acc == digits_value(d.subrange(0, i - from)),
            over ==> digits_value(d.subrange(0, i - from)) > bound,
            acc <= bound,
        decreases n - i,
    {
        let c = s.get_char(i);
        if !('0' <= c && c <= '9') {
            assert(d[i - from] == c);
            return None;
        }
        proof {
            assert(d.subrange(0, i + 1 - from).drop_last() == d.subrange(0, i - from));
            assert(d.subrange(0, i + 1 - from).last() == c);
            lemma_digits_value_nonneg(d.subrange(0, i - from));
        }
        if !over {
            let dv = (c as u32 - '0' as u32) as u128;
            let next: u128 = acc as u128 * 10 + dv;
            if next > bound as u128 {
                over = true;
            } else {
                acc = next as u64;
            }
        }
        i = i + 1;
    }
    assert(d.subrange(0, n - from) == d);
    if over {
        proof {
            lemma_digits_value_grows(d, n - from);
        }
        None
    } else {
        Some(acc)
    }
}

/// Reads an `i64` written in decimal, as `str::parse::<i64>` accepts it.
pub fn parse_i64(s: &str) -> (r: Option<i64>)
    ensures
        r == i64_of(s@),
{
    let n = s.unicode_len();
    if n == 0 {
        return None;
    }
    let c = s.get_char(0);
    let from: usize = if c == '-' || c == '+' { 1 } else { 0 };
    let bound: u64 = if c == '-' { 9223372036854775808 } else { 9223372036854775807 };
    assert(s@.subrange(1, n as int) == s@.drop_first());
    assert(s@.subrange(0, n as int) == s@);
    match digits_at_most(s, from, bound) {
        Some(v) => {
            if c == '-' {
                if v == 9223372036854775808 {
                    Some(i64::MIN)
                } else {
                    Some(-(v as i64))
                }
            } else {
                Some(v as i64)
            }
        },
        None => None,
    }
}

/// Reads an unsigned integer written in decimal that is at most `max`, or says why the
/// text is not one.
pub fn parse_unsigned(s: &str, max: u64) -> (r: Result<u64, IntFault>)
    ensures
        r == unsigned_parse(s@, max),
        r matches Ok(v) ==> v <= max,
{
    let n = s.unicode_len();
    if n == 0 {
        return Err(IntFault::Empty);
    }
    let c = s.get_char(0);
    if c == '+' && n == 1 {
        return Err(IntFault::InvalidDigit);
    }
    let from: usize = if c == '+' { 1 } else { 0 };
    let ghost d = if c == '+' { s@.drop_first() } else { s@ };
    proof {
        assert(s@.subrange(1, n as int) == s@.drop_first());
        assert(s@.subrange(0, n as int) == s@);
        assert(d == s@.subrange(from as int, n as int));
        assert(s@[0] == c);
        assert(unsigned_parse(s@, max) == match scan_digits(d, 0, max as int) {
            Ok(v) => Ok::<u64, IntFault>(v as u64),
            Err(f) => Err::<u64, IntFault>(f),
        });
    }
    let mut i: usize = from;
    let mut acc: u64 = 0;
    while i < n
        invariant
            n == s@.len(),
            from <= i <= n,
            acc <= max,
            unsigned_parse(s@, max) == match scan_digits(d, 0, max as int) {
                Ok(v) => Ok::<u64, IntFault>(v as u64),
                Err(f) => Err::<u64, IntFault>(f),
            },
            scan_digits(d, 0, max as int) == scan_digits(s@.subrange(i as int, n as int), acc as int, max as int),
        decreases n - i,
    {
        let ch = s.get_char(i);
        let ghost rest = s@.subrange(i as int, n as int);
        assert(rest[0] == ch);
        assert(rest.drop_first() == s@.subrange(i + 1, n as int));
        assert(rest.len() > 0);
        if !('0' <= ch && ch <= '9') {
            assert(scan_digits(rest, acc as int, max as int) == Err::<int, IntFault>(
                IntFault::InvalidDigit,
            ));
            return Err(IntFault::InvalidDigit);
        }
        let next: u128 = acc as u128 * 10 + (ch as u32 - '0' as u32) as u128;
        assert(next == acc * 10 + (rest[0] as int - '0' as int));
        if next > max as u128 {
            assert(scan_digits(rest, acc as int, max as int) == Err::<int, IntFault>(
                IntFault::PosOverflow,
            ));
            return Err(IntFault::PosOverflow);
        }
        assert(scan_digits(rest, acc as int, max as int) == scan_digits(
            rest.drop_first(),
            next as int,
            max as int,
        ));
        acc = next as u64;
        i = i + 1;
    }
    assert(s@.subrange(n as int, n as int).len() == 0);
    Ok(acc)
}

} // verus!
