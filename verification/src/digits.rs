use vstd::prelude::*;

verus! {

/// Why a string of digits could not be read as an unsigned integer
/// (the same three outcomes that `u64::from_str_radix` and friends report).
#[derive(Debug, Clone, Copy, PartialEq, Eq, Structural)]
pub enum IntParseError {
    /// The string was empty.
    Empty,
    /// A character that is not a digit of the radix, or a lone sign.
    InvalidDigit,
    /// The value does not fit the target type.
    PosOverflow,
}

/// The value of `c` as a digit of `radix` (letters of either case stand for 10..35).
pub open spec fn digit_value(c: char, radix: nat) -> Option<nat> {
    let x = c as int;
    let d: int = if 48 <= x <= 57 {
        x - 48
    } else if 97 <= x <= 122 {
        x - 97 + 10
    } else if 65 <= x <= 90 {
        x - 65 + 10
    } else {
        radix as int
    };
    if 0 <= d < radix {
        Some(d as nat)
    } else {
        None
    }
}

/// Reads the digits of `s` left to right, starting from the value `acc`,
/// failing at the first non-digit or at the first prefix whose value exceeds `max`.
pub open spec fn scan_digits(acc: int, s: Seq<char>, radix: nat, max: int) -> Result<int, IntParseError>
    decreases s.len(),
{
    if s.len() == 0 {
        Ok(acc)
    } else {
        match digit_value(s[0], radix) {
            None => Err(IntParseError::InvalidDigit),
            Some(d) => {
                let next = acc * radix + d;
                if next > max {
                    Err(IntParseError::PosOverflow)
                } else {
                    scan_digits(next, s.drop_first(), radix, max)
                }
            },
        }
    }
}

/// What `from_str_radix` of an unsigned integer type whose largest value is `max`
/// gives for `s`: an optional leading `+`, then one or more digits.
pub open spec fn parse_unsigned(s: Seq<char>, radix: nat, max: int) -> Result<int, IntParseError> {
    if s.len() == 0 {
        Err(IntParseError::Empty)
    } else if (s[0] == '+' || s[0] == '-') && s.len() == 1 {
        Err(IntParseError::InvalidDigit)
    } else if s[0] == '+' {
        scan_digits(0, s.drop_first(), radix, max)
    } else {
        scan_digits(0, s, radix, max)
    }
}

/// The lower-case character for the digit `d < 36`.
pub open spec fn digit_char(d: nat) -> char {
    if d < 10 {
        (48 + d) as char
    } else {
        (97 + d - 10) as char
    }
}

/// The shortest representation of `n` in `radix` with lower-case digits, most significant first.
pub open spec fn digits_of(n: nat, radix: nat) -> Seq<char>
    recommends
        radix >= 2,
    decreases n,
{
    if radix < 2 || n < radix {
        seq![digit_char(n % 36)]
    } else {
        proof {
            assert(n / radix < n) by (nonlinear_arith)
                requires
                    n >= radix,
                    radix >= 2,
            ;
        }
        digits_of(n / radix, radix).push(digit_char(n % radix))
    }
}

/// Exactly `width` digits of `n` in `radix`, zero-padded on the left, most significant first.
pub open spec fn padded_digits_of(n: nat, radix: nat, width: nat) -> Seq<char>
    decreases width,
{
    if width == 0 || radix < 2 {
        seq![]
    } else {
        padded_digits_of(n / radix, radix, (width - 1) as nat).push(digit_char(n % radix))
    }
}

/// `radix` to the power `width`.
pub open spec fn capacity(radix: nat, width: nat) -> nat
    decreases width,
{
    if width == 0 {
        1
    } else {
        radix * capacity(radix, (width - 1) as nat)
    }
}

proof fn lemma_digit_char_value(d: nat, radix: nat)
    requires
        d < radix,
        2 <= radix <= 36,
    ensures
        digit_value(digit_char(d), radix) == Some(d),
{
}

/// The hex digits of a number are `0`-`9` and `a`-`f`.
pub(crate) proof fn lemma_padded_hex_chars(n: nat, width: nat)
    ensures
        padded_digits_of(n, 16, width).len() == width,
        forall|i: int|
            0 <= i < width ==> {
                let x = #[trigger] padded_digits_of(n, 16, width)[i] as int;
                (48 <= x <= 57) || (97 <= x <= 102)
            },
    decreases width,
{
    if width > 0 {
        lemma_padded_hex_chars(n / 16, (width - 1) as nat);
        let d = n % 16;
        assert(d < 16);
        let c = digit_char(d);
        assert((48 <= c as int <= 57) || (97 <= c as int <= 102));
        let p = padded_digits_of(n / 16, 16, (width - 1) as nat);
        assert(padded_digits_of(n, 16, width) == p.push(c));
        assert forall|i: int| 0 <= i < width implies {
            let x = #[trigger] padded_digits_of(n, 16, width)[i] as int;
            (48 <= x <= 57) || (97 <= x <= 102)
        } by {
            if i < width - 1 {
                assert(padded_digits_of(n, 16, width)[i] == p[i]);
            }
        }
    }
}

/// Reading `a + b` goes through `a` first and then continues with `b`.
proof fn lemma_scan_append(acc: int, a: Seq<char>, b: Seq<char>, radix: nat, max: int)
    requires
        scan_digits(acc, a, radix, max) is Ok,
    ensures
        scan_digits(acc, a + b, radix, max) == scan_digits(scan_digits(acc, a, radix, max)->Ok_0, b, radix, max),
    decreases a.len(),
{
    if a.len() > 0 {
        assert((a + b).drop_first() =~= a.drop_first() + b);
        assert((a + b)[0] == a[0]);
        let d = digit_value(a[0], radix)->Some_0;
        lemma_scan_append(acc * radix + d, a.drop_first(), b, radix, max);
    } else {
        assert(a + b =~= b);
    }
}

proof fn lemma_div_bound(n: nat, radix: nat, width: nat)
    requires
        radix >= 2,
        width >= 1,
        n < capacity(radix, width),
    ensures
        n / radix < capacity(radix, (width - 1) as nat),
        n / radix <= n,
{
    let c = capacity(radix, (width - 1) as nat);
    assert(capacity(radix, width) == radix * c);
    assert(n / radix < c) by (nonlinear_arith)
        requires n < radix * c, radix >= 2;
    assert(n / radix <= n) by (nonlinear_arith)
        requires radix >= 2;
}

/// Reading the padded digits of `n` gives `n` back.
pub proof fn lemma_padded_roundtrip(n: nat, radix: nat, width: nat, max: int)
    requires
        2 <= radix <= 36,
        n < capacity(radix, width),
        n <= max,
    ensures
        scan_digits(0, padded_digits_of(n, radix, width), radix, max) == Ok::<int, IntParseError>(n as int),
    decreases width,
{
    if width == 0 {
        assert(n == 0);
    } else {
        lemma_div_bound(n, radix, width);
        let q = n / radix;
        let d = n % radix;
        lemma_padded_roundtrip(q, radix, (width - 1) as nat, max);
        let p = padded_digits_of(q, radix, (width - 1) as nat);
        lemma_scan_append(0, p, seq![digit_char(d)], radix, max);
        assert(p.push(digit_char(d)) =~= p + seq![digit_char(d)]);
        lemma_digit_char_value(d, radix);
        assert(q * radix + d == n) by (nonlinear_arith)
            requires q == n / radix, d == n % radix, radix >= 2;
        assert(seq![digit_char(d)].drop_first() =~= Seq::<char>::empty());
        assert(scan_digits(n as int, Seq::<char>::empty(), radix, max) == Ok::<int, IntParseError>(n as int));
        assert(scan_digits(q as int, seq![digit_char(d)], radix, max) == Ok::<int, IntParseError>(n as int));
    }
}

/// Reading the shortest digits of `n` gives `n` back.
pub proof fn lemma_digits_roundtrip(n: nat, radix: nat, max: int)
    requires
        2 <= radix <= 36,
        n <= max,
    ensures
        scan_digits(0, digits_of(n, radix), radix, max) == Ok::<int, IntParseError>(n as int),
    decreases n,
{
    if n < radix {
        lemma_digit_char_value(n, radix);
        assert(n % 36 == n);
        assert(seq![digit_char(n)].drop_first() =~= Seq::<char>::empty());
    } else {
        let q = n / radix;
        let d = n % radix;
        assert(q < n && q <= max) by (nonlinear_arith)
            requires q == n / radix, radix >= 2, n >= radix, n <= max;
        lemma_digits_roundtrip(q, radix, max);
        let p = digits_of(q, radix);
        lemma_scan_append(0, p, seq![digit_char(d)], radix, max);
        assert(p.push(digit_char(d)) =~= p + seq![digit_char(d)]);
        lemma_digit_char_value(d, radix);
        assert(q * radix + d == n) by (nonlinear_arith)
            requires q == n / radix, d == n % radix, radix >= 2;
        assert(seq![digit_char(d)].drop_first() =~= Seq::<char>::empty());
        assert(scan_digits(n as int, Seq::<char>::empty(), radix, max) == Ok::<int, IntParseError>(n as int));
        assert(scan_digits(q as int, seq![digit_char(d)], radix, max) == Ok::<int, IntParseError>(n as int));
    }
}

/// The exec digit value of a character, or `None`.
fn digit_value_exec(c: char, radix: u32) -> (r: Option<u32>)
    requires
        2 <= radix <= 36,
    ensures
        match r {
            Some(d) => digit_value(c, radix as nat) == Some(d as nat),
            None => digit_value(c, radix as nat) is None,
        },
{
    let x = c as u32;
    let d: u32 = if 48 <= x && x <= 57 {
        x - 48
    } else if 97 <= x && x <= 122 {
        x - 97 + 10
    } else if 65 <= x && x <= 90 {
        x - 65 + 10
    } else {
        radix
    };
    if d < radix {
        Some(d)
    } else {
        None
    }
}

/// Reads the digits `s[start..]` in `radix`, failing once the value passes `max`.
fn scan_digits_exec(s: &Vec<char>, start: usize, radix: u32, max: u128) -> (r: Result<u128, IntParseError>)
    requires
        start <= s.len(),
        2 <= radix <= 36,
    ensures
        match r {
            Ok(n) => scan_digits(0, s@.skip(start as int), radix as nat, max as int) == Ok::<int, IntParseError>(n as int),
            Err(e) => scan_digits(0, s@.skip(start as int), radix as nat, max as int) == Err::<int, IntParseError>(e),
        },
{
    let mut acc: u128 = 0;
    let mut i: usize = start;
    while i < s.len()
        invariant
            start <= i <= s.len(),
            2 <= radix <= 36,
            acc <= max,
            scan_digits(0, s@.skip(start as int), radix as nat, max as int) == scan_digits(
                acc as int,
                s@.skip(i as int),
                radix as nat,
                max as int,
            ),
        decreases s.len() - i,
    {
        let ghost rest = s@.skip(i as int);
        assert(rest[0] == s@[i as int]);
        assert(rest.drop_first() =~= s@.skip(i as int + 1));
        match digit_value_exec(s[i], radix) {
            None => {
                return Err(IntParseError::InvalidDigit);
            },
            Some(d) => {
                let m = acc.checked_mul(radix as u128);
                match m {
                    None => {
                        assert(acc * radix + d > max);
                        return Err(IntParseError::PosOverflow);
                    },
                    Some(m) => {
                        match m.checked_add(d as u128) {
                            None => {
                                return Err(IntParseError::PosOverflow);
                            },
                            Some(next) => {
                                if next > max {
                                    return Err(IntParseError::PosOverflow);
                                }
                                acc = next;
                            },
                        }
                    },
                }
            },
        }
        i = i + 1;
    }
    assert(s@.skip(i as int) =~= Seq::<char>::empty());
    Ok(acc)
}

/// `from_str_radix` for an unsigned integer type whose largest value is `max`.
pub fn parse_unsigned_exec(s: &Vec<char>, radix: u32, max: u128) -> (r: Result<u128, IntParseError>)
    requires
        2 <= radix <= 36,
    ensures
        match r {
            Ok(n) => parse_unsigned(s@, radix as nat, max as int) == Ok::<int, IntParseError>(n as int),
            Err(e) => parse_unsigned(s@, radix as nat, max as int) == Err::<int, IntParseError>(e),
        },
{
    if s.len() == 0 {
        return Err(IntParseError::Empty);
    }
    if (s[0] == '+' || s[0] == '-') && s.len() == 1 {
        return Err(IntParseError::InvalidDigit);
    }
    if s[0] == '+' {
        assert(s@.skip(1) =~= s@.drop_first());
        scan_digits_exec(s, 1, radix, max)
    } else {
        assert(s@.skip(0) =~= s@);
        scan_digits_exec(s, 0, radix, max)
    }
}

/// The lower-case character for a digit below 36.
fn digit_char_exec(d: u32) -> (c: char)
    requires
        d < 36,
    ensures
        c == digit_char(d as nat),
{
    if d < 10 {
        let b: u8 = (48 + d) as u8;
        b as char
    } else {
        let b: u8 = (97 + d - 10) as u8;
        b as char
    }
}

/// The shortest lower-case digits of `n` in `radix`.
pub fn format_digits(n: u128, radix: u32) -> (v: Vec<char>)
    requires
        2 <= radix <= 36,
    ensures
        v@ == digits_of(n as nat, radix as nat),
    decreases n,
{
    if n < radix as u128 {
        let c = digit_char_exec(n as u32);
        assert(n as nat % 36 == n as nat);
        let mut v: Vec<char> = Vec::new();
        v.push(c);
        assert(v@ =~= seq![c]);
        v
    } else {
        assert(n / (radix as u128) < n) by (nonlinear_arith)
            requires
                n >= radix,
                radix >= 2,
        ;
        let mut v = format_digits(n / radix as u128, radix);
        let d = (n % radix as u128) as u32;
        v.push(digit_char_exec(d));
        v
    }
}

/// Exactly `width` lower-case digits of `n` in `radix`, zero-padded on the left.
pub fn format_padded_digits(n: u128, radix: u32, width: usize) -> (v: Vec<char>)
    requires
        2 <= radix <= 36,
    ensures
        v@ == padded_digits_of(n as nat, radix as nat, width as nat),
        v@.len() == width,
    decreases width,
{
    if width == 0 {
        let v: Vec<char> = Vec::new();
        assert(v@ =~= Seq::<char>::empty());
        v
    } else {
        let mut v = format_padded_digits(n / radix as u128, radix, width - 1);
        let d = (n % radix as u128) as u32;
        v.push(digit_char_exec(d));
        v
    }
}

} // verus!
