use vstd::prelude::*;
use vstd::string::StrSliceExecFns;

verus! {

/// Why a port setting was refused; the same three kinds as the standard
/// library's integer parser reports for an unsigned 16-bit target.
#[derive(PartialEq, Eq, Structural, Debug, Clone, Copy)]
pub enum PortError {
    /// The text is empty.
    Empty,
    /// The text holds something other than an optional `+` and digits.
    InvalidDigit,
    /// The digits name a number above 65535.
    PosOverflow,
}

/// Whether `c` is one of the ASCII digits `0` to `9`.
pub open spec fn is_decimal_digit(c: char) -> bool {
    '0' as int <= c as int <= '9' as int
}

/// The value of an ASCII digit.
pub open spec fn digit_value(c: char) -> int {
    c as int - '0' as int
}

/// Reads the digits of `s` from the left onto the value `acc` read so far,
/// stopping at the first character that is not a digit or that would take
/// the value above 65535.
pub open spec fn scan_decimal(s: Seq<char>, acc: int) -> Result<u16, PortError>
    decreases s.len(),
{
    if s.len() == 0 {
        Ok(acc as u16)
    } else if !is_decimal_digit(s[0]) {
        Err(PortError::InvalidDigit)
    } else if acc * 10 + digit_value(s[0]) > 65535 {
        Err(PortError::PosOverflow)
    } else {
        scan_decimal(s.drop_first(), acc * 10 + digit_value(s[0]))
    }
}

/// A port number written in decimal: an optional `+` and at least one digit,
/// with a value that fits in 16 bits.
pub open spec fn parse_port_of(s: Seq<char>) -> Result<u16, PortError> {
    if s.len() == 0 {
        Err(PortError::Empty)
    } else if s == seq!['+'] {
        Err(PortError::InvalidDigit)
    } else if s[0] == '+' {
        scan_decimal(s.drop_first(), 0)
    } else {
        scan_decimal(s, 0)
    }
}

/// The port that a setting selects: the parsed text where the setting is
/// present, the default where it is absent.
pub open spec fn port_setting_of(value: Option<Seq<char>>, default: u16) -> Result<u16, PortError> {
    match value {
        Some(t) => parse_port_of(t),
        None => Ok(default),
    }
}

/// The ASCII digit for a value below ten.
pub open spec fn digit_char(d: nat) -> char {
    ('0' as int + d) as char
}

/// A number written out in decimal, without leading zeros.
pub open spec fn decimal_text(n: nat) -> Seq<char>
    decreases n,
{
    if n < 10 {
        seq![digit_char(n)]
    } else {
        decimal_text(n / 10).push(digit_char(n % 10))
    }
}

/// Reading one more digit after digits that were read without failure.
proof fn lemma_scan_push(s: Seq<char>, acc: int, c: char)
    requires
        is_decimal_digit(c),
        0 <= acc <= 65535,
        scan_decimal(s, acc) is Ok,
    ensures
        ({
            let v = scan_decimal(s, acc)->Ok_0 as int;
            scan_decimal(s.push(c), acc) == if v * 10 + digit_value(c) <= 65535 {
                Ok::<u16, PortError>((v * 10 + digit_value(c)) as u16)
            } else {
                Err::<u16, PortError>(PortError::PosOverflow)
            }
        }),
    decreases s.len(),
{
    if s.len() == 0 {
        assert(seq![c].drop_first() =~= Seq::<char>::empty());
        assert(s.push(c) =~= seq![c]);
        assert(seq![c][0] == c);
        assert((acc as u16) as int == acc);
        let e = Seq::<char>::empty();
        let nv = acc * 10 + digit_value(c);
        assert(scan_decimal(e, nv) == Ok::<u16, PortError>(nv as u16));
        assert(scan_decimal(s, acc) == Ok::<u16, PortError>(acc as u16));
    } else {
        let next = acc * 10 + digit_value(s[0]);
        assert(s.push(c)[0] == s[0]);
        assert(s.push(c).drop_first() =~= s.drop_first().push(c));
        lemma_scan_push(s.drop_first(), next, c);
        assert(scan_decimal(s, acc) == scan_decimal(s.drop_first(), next));
    }
}

/// The decimal text of a number holds digits only and is never empty.
proof fn lemma_decimal_text_digits(n: nat)
    ensures
        decimal_text(n).len() > 0,
        forall|i: int| 0 <= i < decimal_text(n).len() ==> is_decimal_digit(#[trigger] decimal_text(n)[i]),
    decreases n,
{
    if n >= 10 {
        lemma_decimal_text_digits(n / 10);
    }
}

/// A port written out in decimal reads back as itself.
pub proof fn lemma_parse_decimal_port(n: u16)
    ensures
        parse_port_of(decimal_text(n as nat)) == Ok::<u16, PortError>(n),
{
    lemma_scan_decimal_text(n as nat);
    lemma_decimal_text_digits(n as nat);
    let t = decimal_text(n as nat);
    assert(is_decimal_digit(t[0]));
    assert(t != seq!['+']) by {
        if t == seq!['+'] {
            assert(t[0] == '+');
        }
    }
}

proof fn lemma_scan_decimal_text(n: nat)
    requires
        n <= 65535,
    ensures
        scan_decimal(decimal_text(n), 0) == Ok::<u16, PortError>(n as u16),
    decreases n,
{
    if n < 10 {
        let t = decimal_text(n);
        assert(t.drop_first() =~= Seq::<char>::empty());
        assert(digit_value(digit_char(n)) == n);
        assert(t[0] == digit_char(n));
        assert(is_decimal_digit(t[0]));
        assert(scan_decimal(Seq::<char>::empty(), n as int) == Ok::<u16, PortError>(n as u16));
    } else {
        lemma_scan_decimal_text(n / 10);
        lemma_decimal_text_digits(n / 10);
        assert(digit_value(digit_char(n % 10)) == n % 10);
        lemma_scan_push(decimal_text(n / 10), 0, digit_char(n % 10));
        assert((n / 10) * 10 + n % 10 == n);
        assert(((n / 10) as u16) as int == n / 10);
    }
}

/// Whether every character of `s` is an ASCII digit.
pub open spec fn all_digits(s: Seq<char>) -> bool {
    forall|i: int| 0 <= i < s.len() ==> is_decimal_digit(#[trigger] s[i])
}

/// The number that the digits of `s` write, read onto `acc`, with no bound.
pub open spec fn decimal_value_from(s: Seq<char>, acc: int) -> int
    decreases s.len(),
{
    if s.len() == 0 {
        acc
    } else {
        decimal_value_from(s.drop_first(), acc * 10 + digit_value(s[0]))
    }
}

/// The number that a run of decimal digits writes.
pub open spec fn decimal_value(s: Seq<char>) -> int {
    decimal_value_from(s, 0)
}

/// The digits of a port setting: the text without a leading `+`.
pub open spec fn port_digits(t: Seq<char>) -> Seq<char> {
    if t.len() > 0 && t[0] == '+' {
        t.drop_first()
    } else {
        t
    }
}

proof fn lemma_value_from_grows(s: Seq<char>, acc: int)
    requires
        all_digits(s),
        acc >= 0,
    ensures
        decimal_value_from(s, acc) >= acc,
    decreases s.len(),
{
    if s.len() > 0 {
        assert(is_decimal_digit(s[0]));
        let rest = s.drop_first();
        assert forall|i: int| 0 <= i < rest.len() implies is_decimal_digit(#[trigger] rest[i]) by {
            assert(rest[i] == s[i + 1]);
        }
        lemma_value_from_grows(rest, acc * 10 + digit_value(s[0]));
    }
}

proof fn lemma_scan_digits(s: Seq<char>, acc: int)
    requires
        all_digits(s),
        0 <= acc <= 65535,
    ensures
        decimal_value_from(s, acc) <= 65535 ==> scan_decimal(s, acc) == Ok::<u16, PortError>(
            decimal_value_from(s, acc) as u16,
        ),
        decimal_value_from(s, acc) > 65535 ==> scan_decimal(s, acc) == Err::<u16, PortError>(
            PortError::PosOverflow,
        ),
    decreases s.len(),
{
    if s.len() > 0 {
        assert(is_decimal_digit(s[0]));
        let rest = s.drop_first();
        assert forall|i: int| 0 <= i < rest.len() implies is_decimal_digit(#[trigger] rest[i]) by {
            assert(rest[i] == s[i + 1]);
        }
        let next = acc * 10 + digit_value(s[0]);
        if next > 65535 {
            lemma_value_from_grows(rest, next);
        } else {
            lemma_scan_digits(rest, next);
        }
    }
}

proof fn lemma_scan_ok_means_digits(s: Seq<char>, acc: int)
    requires
        scan_decimal(s, acc) is Ok,
        0 <= acc <= 65535,
    ensures
        all_digits(s),
        decimal_value_from(s, acc) == scan_decimal(s, acc)->Ok_0 as int,
    decreases s.len(),
{
    if s.len() == 0 {
        assert((acc as u16) as int == acc);
    } else {
        let rest = s.drop_first();
        let next = acc * 10 + digit_value(s[0]);
        lemma_scan_ok_means_digits(rest, next);
        assert forall|i: int| 0 <= i < s.len() implies is_decimal_digit(#[trigger] s[i]) by {
            if i > 0 {
                assert(s[i] == rest[i - 1]);
            }
        }
    }
}

/// What a port setting means: an empty text is refused as empty; otherwise,
/// after an optional leading `+`, the text is accepted exactly where it is
/// one or more digits writing a number up to 65535, and the port is that
/// number; digits writing a larger number are refused as too large.
pub proof fn lemma_parse_port_meaning(t: Seq<char>)
    ensures
        t.len() == 0 ==> parse_port_of(t) == Err::<u16, PortError>(PortError::Empty),
        parse_port_of(t) is Ok ==> port_digits(t).len() > 0 && all_digits(port_digits(t))
            && parse_port_of(t)->Ok_0 as int == decimal_value(port_digits(t)),
        port_digits(t).len() > 0 && all_digits(port_digits(t)) && decimal_value(port_digits(t)) <= 65535
            ==> parse_port_of(t) is Ok && parse_port_of(t)->Ok_0 as int == decimal_value(port_digits(t)),
        port_digits(t).len() > 0 && all_digits(port_digits(t)) && decimal_value(port_digits(t)) > 65535
            ==> parse_port_of(t) == Err::<u16, PortError>(PortError::PosOverflow),
{
    let b = port_digits(t);
    if t.len() > 0 {
        if t == seq!['+'] {
            assert(b.len() == 0);
        } else {
            if t.len() == 1 && t[0] == '+' {
                assert(t =~= seq!['+']);
            }
            assert(b.len() > 0);
            if parse_port_of(t) is Ok {
                lemma_scan_ok_means_digits(b, 0);
            }
            if b.len() > 0 && all_digits(b) {
                lemma_scan_digits(b, 0);
                if decimal_value(b) <= 65535 {
                    assert((decimal_value(b) as u16) as int == decimal_value(b));
                }
            }
        }
    }
}

/// What a port setting selects: with the setting absent, the given default,
/// whatever it is; with the setting present, what its text parses to, the
/// same whatever the default, so that the default never stands in for a
/// refused value.
pub proof fn lemma_port_setting_meaning(t: Seq<char>, default: u16, other: u16)
    ensures
        port_setting_of(None, default) == Ok::<u16, PortError>(default),
        port_setting_of(Some(t), default) == port_setting_of(Some(t), other),
        port_setting_of(Some(t), default) == parse_port_of(t),
        port_setting_of(Some(t), default) is Ok ==> port_digits(t).len() > 0 && all_digits(port_digits(t))
            && port_setting_of(Some(t), default)->Ok_0 as int == decimal_value(port_digits(t)),
{
    lemma_parse_port_meaning(t);
}

/// Parses a port number written in decimal, as the standard library parses
/// text into a `u16`.
pub fn parse_port(text: &str) -> (r: Result<u16, PortError>)
    ensures
        r == parse_port_of(text@),
{
    let n = text.unicode_len();
    if n == 0 {
        return Err(PortError::Empty);
    }
    let mut i: usize = 0;
    if text.get_char(0) == '+' {
        if n == 1 {
            assert(text@ =~= seq!['+']);
            return Err(PortError::InvalidDigit);
        }
        assert(text@.drop_first() =~= text@.subrange(1, n as int));
        i = 1;
    } else {
        assert(text@ =~= text@.subrange(0, n as int));
    }
    let mut acc: u32 = 0;
    while i < n
        invariant
            i <= n,
            n == text@.len(),
            acc <= 65535,
            parse_port_of(text@) == scan_decimal(text@.subrange(i as int, n as int), acc as int),
        decreases n - i,
    {
        let c = text.get_char(i);
        let ghost rest = text@.subrange(i as int, n as int);
        assert(rest[0] == c);
        if !('0' <= c && c <= '9') {
            return Err(PortError::InvalidDigit);
        }
        let d = (c as u32) - ('0' as u32);
        let next = acc * 10 + d;
        if next > 65535 {
            return Err(PortError::PosOverflow);
        }
        acc = next;
        assert(rest.drop_first() =~= text@.subrange(i + 1, n as int));
        i = i + 1;
    }
    assert(text@.subrange(n as int, n as int).len() == 0);
    Ok(acc as u16)
}

/// The listening port of a service: the value of its port setting where one
/// is given, the service's default where none is.
pub fn port_setting(value: Option<&str>, default: u16) -> (r: Result<u16, PortError>)
    ensures
        r == port_setting_of(
            match value {
                Some(t) => Some(t@),
                None => None,
            },
            default,
        ),
        value is None ==> r == Ok::<u16, PortError>(default),
        value matches Some(t) ==> r == parse_port_of(t@),
{
    match value {
        Some(t) => parse_port(t),
        None => Ok(default),
    }
}

impl PortError {
    /// The sentence that the standard library gives for this kind of error.
    pub fn description(&self) -> (text: &'static str)
        ensures
            *self == PortError::Empty ==> text@ == "cannot parse integer from empty string"@,
            *self == PortError::InvalidDigit ==> text@ == "invalid digit found in string"@,
            *self == PortError::PosOverflow ==> text@ == "number too large to fit in target type"@,
    {
        match self {
            PortError::Empty => "cannot parse integer from empty string",
            PortError::InvalidDigit => "invalid digit found in string",
            PortError::PosOverflow => "number too large to fit in target type",
        }
    }
}

} // verus!
