use vstd::prelude::*;

verus! {

/// Whether a character is a decimal digit.
pub open spec fn is_digit(c: char) -> bool {
    48 <= c as u32 <= 57
}

/// The numeric value of a digit character.
pub open spec fn digit_val(c: char) -> int {
    c as u32 - 48
}

/// Why a numeral failed to parse, the way unsigned integer parsing
/// distinguishes failures: empty text, a character that is no digit, or a
/// value too large for the target type.
#[derive(Clone, Copy, PartialEq, Eq, Structural, Debug)]
pub enum NumeralError {
    Empty,
    InvalidDigit,
    Overflow,
}

/// The message each parse failure displays.
pub open spec fn numeral_error_text(e: NumeralError) -> Seq<char> {
    match e {
        NumeralError::Empty => "cannot parse integer from empty string"@,
        NumeralError::InvalidDigit => "invalid digit found in string"@,
        NumeralError::Overflow => "number too large to fit in target type"@,
    }
}

impl NumeralError {
    /// The message this parse failure displays.
    pub fn message(&self) -> (r: String)
        ensures
            r@ == numeral_error_text(*self),
    {
        match self {
            NumeralError::Empty => String::from_str("cannot parse integer from empty string"),
            NumeralError::InvalidDigit => String::from_str("invalid digit found in string"),
            NumeralError::Overflow => String::from_str("number too large to fit in target type"),
        }
    }
}

/// The digit part of a numeral: everything after one optional leading plus
/// sign.
pub open spec fn digits_of(s: Seq<char>) -> Seq<char> {
    if s.len() >= 1 && s[0] == '+' {
        s.drop_first()
    } else {
        s
    }
}

/// Scan digit characters left to right, accumulating their base-ten value on
/// top of `acc`. At each character, a non-digit fails first; a value that
/// leaves the unsigned 32-bit range fails next; the first failure wins.
pub open spec fn scan_digits(d: Seq<char>, acc: int) -> Result<int, NumeralError>
    decreases d.len(),
{
    if d.len() == 0 {
        Ok(acc)
    } else if !is_digit(d[0]) {
        Err(NumeralError::InvalidDigit)
    } else if acc * 10 + digit_val(d[0]) > u32::MAX {
        Err(NumeralError::Overflow)
    } else {
        scan_digits(d.drop_first(), acc * 10 + digit_val(d[0]))
    }
}

/// The unsigned 32-bit value a piece of text denotes: one optional leading
/// plus sign, then one or more digits, scanned as unsigned integer parsing
/// scans them. Empty text, a sign with no digits, a non-digit, and a value
/// over the 32-bit range each fail with their own error.
pub open spec fn u32_of_text(s: Seq<char>) -> Result<u32, NumeralError> {
    if s.len() == 0 {
        Err(NumeralError::Empty)
    } else {
        let d = digits_of(s);
        if d.len() == 0 {
            Err(NumeralError::InvalidDigit)
        } else {
            match scan_digits(d, 0) {
                Ok(v) => Ok(v as u32),
                Err(e) => Err(e),
            }
        }
    }
}

/// Parse a base-ten numeral into an unsigned 32-bit integer, accepting one
/// optional leading plus sign, exactly as `u32_of_text` says.
pub fn parse_u32(s: &str) -> (r: Result<u32, NumeralError>)
    ensures
        r == u32_of_text(s@),
{
    let n = s.unicode_len();
    if n == 0 {
        return Err(NumeralError::Empty);
    }
    let start: usize = if s.get_char(0) == '+' {
        1
    } else {
        0
    };
    let ghost d = digits_of(s@);
    proof {
        assert(d =~= s@.skip(start as int));
    }
    if n == start {
        return Err(NumeralError::InvalidDigit);
    }
    let mut acc: u64 = 0;
    let mut i: usize = start;
    proof {
        assert(d.skip(0) =~= d);
    }
    while i < n
        invariant
            n == s@.len(),
            start <= i <= n,
            start <= 1,
            d == digits_of(s@),
            d =~= s@.skip(start as int),
            acc <= u32::MAX,
            scan_digits(d, 0) == scan_digits(d.skip(i - start), acc as int),
        decreases n - i,
    {
        let ghost rest = d.skip(i - start);
        proof {
            assert(rest[0] == s@[i as int]);
            assert(rest.drop_first() =~= d.skip(i + 1 - start));
        }
        let c = s.get_char(i);
        let cv = c as u32;
        if cv < 48 || cv > 57 {
            return Err(NumeralError::InvalidDigit);
        }
        let dv: u64 = (cv - 48) as u64;
        let next: u64 = acc * 10 + dv;
        if next > 0xffff_ffffu64 {
            return Err(NumeralError::Overflow);
        }
        acc = next;
        i = i + 1;
    }
    proof {
        assert(d.skip(n - start) =~= Seq::<char>::empty());
    }
    Ok(acc as u32)
}

/// The digit character for a value below ten.
pub open spec fn digit_char(d: int) -> char {
    if d == 0 {
        '0'
    } else if d == 1 {
        '1'
    } else if d == 2 {
        '2'
    } else if d == 3 {
        '3'
    } else if d == 4 {
        '4'
    } else if d == 5 {
        '5'
    } else if d == 6 {
        '6'
    } else if d == 7 {
        '7'
    } else if d == 8 {
        '8'
    } else {
        '9'
    }
}

/// The base-ten numeral of a number, most significant digit first.
pub open spec fn dec_str(n: nat) -> Seq<char>
    decreases n,
{
    if n < 10 {
        seq![digit_char(n as int)]
    } else {
        dec_str(n / 10) + seq![digit_char((n % 10) as int)]
    }
}

fn digit_literal(d: u32) -> (r: &'static str)
    requires
        d < 10,
    ensures
        r@ == seq![digit_char(d as int)],
{
    proof {
        reveal_strlit("0");
        reveal_strlit("1");
        reveal_strlit("2");
        reveal_strlit("3");
        reveal_strlit("4");
        reveal_strlit("5");
        reveal_strlit("6");
        reveal_strlit("7");
        reveal_strlit("8");
        reveal_strlit("9");
    }
    let r = if d == 0 {
        "0"
    } else if d == 1 {
        "1"
    } else if d == 2 {
        "2"
    } else if d == 3 {
        "3"
    } else if d == 4 {
        "4"
    } else if d == 5 {
        "5"
    } else if d == 6 {
        "6"
    } else if d == 7 {
        "7"
    } else if d == 8 {
        "8"
    } else {
        "9"
    };
    proof {
        assert(r@ =~= seq![digit_char(d as int)]);
    }
    r
}

/// Render a number as its base-ten numeral.
pub fn u32_to_string(n: u32) -> (r: String)
    ensures
        r@ == dec_str(n as nat),
    decreases n,
{
    if n < 10 {
        String::from_str(digit_literal(n))
    } else {
        let mut rest = u32_to_string(n / 10);
        rest.append(digit_literal(n % 10));
        proof {
            assert(rest@ =~= dec_str((n as nat) / 10) + seq![digit_char((n % 10) as int)]);
        }
        rest
    }
}

/// Whether two pieces of text hold the same characters.
pub fn str_eq(a: &str, b: &str) -> (r: bool)
    ensures
        r == (a@ == b@),
{
    let na = a.unicode_len();
    let nb = b.unicode_len();
    if na != nb {
        return false;
    }
    let mut i: usize = 0;
    while i < na
        invariant
            na == a@.len(),
            na == b@.len(),
            0 <= i <= na,
            forall|k: int| 0 <= k < i ==> a@[k] == b@[k],
        decreases na - i,
    {
        if a.get_char(i) != b.get_char(i) {
            return false;
        }
        i = i + 1;
    }
    proof {
        assert(a@ =~= b@);
    }
    true
}

} // verus!
