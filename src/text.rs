//! Decimal rendering of numbers into strings.
use vstd::prelude::*;

verus! {

/// The character of decimal digit `d`.
pub open spec fn digit_char(d: int) -> char {
    seq!['0', '1', '2', '3', '4', '5', '6', '7', '8', '9'][d]
}

/// The decimal digits of `n`, without leading zeros.
pub open spec fn decimal(n: nat) -> Seq<char>
    decreases n,
{
    if n < 10 {
        seq![digit_char(n as int)]
    } else {
        decimal(n / 10).push(digit_char((n % 10) as int))
    }
}

/// The decimal digits of `n`, padded with a leading zero to at least two.
pub open spec fn two_digits(n: nat) -> Seq<char> {
    if n < 10 {
        seq!['0'] + decimal(n)
    } else {
        decimal(n)
    }
}

fn digit_str(d: u32) -> (r: &'static str)
    requires
        d < 10,
    ensures
        r@ == seq![digit_char(d as int)],
{
    proof {
        reveal_strlit("0");
        reveal_strlit("1");
        reveal_strlit("2");
        reveal_strlit("3");
        reveal_strlit("4");
        reveal_strlit("5");
        reveal_strlit("6");
        reveal_strlit("7");
        reveal_strlit("8");
        reveal_strlit("9");
    }
    match d {
        0 => "0",
        1 => "1",
        2 => "2",
        3 => "3",
        4 => "4",
        5 => "5",
        6 => "6",
        7 => "7",
        8 => "8",
        _ => "9",
    }
}

/// Appends the decimal digits of `n` to `s`.
pub fn push_decimal(s: &mut String, n: u32)
    ensures
        final(s)@ == old(s)@ + decimal(n as nat),
    decreases n,
{
    if n >= 10 {
        push_decimal(s, n / 10);
    }
    s.append(digit_str(n % 10));
    proof {
        if n < 10 {
            assert(old(s)@ + decimal(n as nat) == old(s)@ + seq![digit_char(n as int)]);
        } else {
            assert(decimal(n as nat) == decimal((n / 10) as nat).push(digit_char((n % 10) as int)));
            assert(s@ =~= old(s)@ + decimal(n as nat));
        }
    }
}

/// Appends `n` as at least two decimal digits to `s`.
pub fn push_two_digits(s: &mut String, n: u32)
    ensures
        final(s)@ == old(s)@ + two_digits(n as nat),
{
    if n < 10 {
        proof {
            reveal_strlit("0");
        }
        s.append("0");
        push_decimal(s, n);
        proof {
            assert(s@ =~= old(s)@ + two_digits(n as nat));
        }
    } else {
        push_decimal(s, n);
    }
}


/// The three-letter English name of weekday `w` (0 = Monday).
pub open spec fn weekday_name(w: int) -> Seq<char> {
    if w == 0 {
        seq!['M', 'o', 'n']
    } else if w == 1 {
        seq!['T', 'u', 'e']
    } else if w == 2 {
        seq!['W', 'e', 'd']
    } else if w == 3 {
        seq!['T', 'h', 'u']
    } else if w == 4 {
        seq!['F', 'r', 'i']
    } else if w == 5 {
        seq!['S', 'a', 't']
    } else {
        seq!['S', 'u', 'n']
    }
}

/// Appends the name of the weekday of `day` to `s`.
pub fn push_weekday(s: &mut String, day: u32)
    ensures
        final(s)@ == old(s)@ + weekday_name(day as int % 7),
{
    proof {
        reveal_strlit("Mon");
        reveal_strlit("Tue");
        reveal_strlit("Wed");
        reveal_strlit("Thu");
        reveal_strlit("Fri");
        reveal_strlit("Sat");
        reveal_strlit("Sun");
    }
    let name = match day % 7 {
        0 => "Mon",
        1 => "Tue",
        2 => "Wed",
        3 => "Thu",
        4 => "Fri",
        5 => "Sat",
        _ => "Sun",
    };
    s.append(name);
    proof {
        assert(name@ =~= weekday_name(day as int % 7));
    }
}


/// Whether `a` and `b` hold the same characters.
pub fn str_eq(a: &str, b: &str) -> (r: bool)
    ensures
        r == (a@ == b@),
{
    let n: usize = a.unicode_len();
    if n != b.unicode_len() {
        return false;
    }
    let mut i: usize = 0;
    while i < n
        invariant
            n == a@.len(),
            n == b@.len(),
            i <= n,
            forall|k: int| 0 <= k < i ==> a@[k] == b@[k],
        decreases n - i,
    {
        if a.get_char(i) != b.get_char(i) {
            return false;
        }
        i = i + 1;
    }
    proof {
        assert(a@ =~= b@);
    }
    true
}

/// The index of the first `c` in `s` at or after `start`, or the length of
/// `s` when there is none.
pub open spec fn find_from(s: Seq<char>, c: char, start: int) -> int
    decreases s.len() - start,
{
    if start >= s.len() {
        s.len() as int
    } else if s[start] == c {
        start
    } else {
        find_from(s, c, start + 1)
    }
}

proof fn lemma_find_from_bounds(s: Seq<char>, c: char, start: int)
    requires
        0 <= start,
    ensures
        find_from(s, c, start) <= s.len(),
        start <= s.len() ==> start <= find_from(s, c, start),
        start > s.len() ==> find_from(s, c, start) == s.len(),
    decreases s.len() - start,
{
    if start < s.len() && s[start] != c {
        lemma_find_from_bounds(s, c, start + 1);
    }
}

/// The index of the first `c` in `s` at or after `start`, or the length of
/// `s` when there is none.
pub fn find_char_from(s: &str, c: char, start: usize) -> (r: usize)
    ensures
        r == find_from(s@, c, start as int),
        r <= s@.len(),
        start <= s@.len() ==> start <= r,
{
    proof {
        lemma_find_from_bounds(s@, c, start as int);
    }
    let n: usize = s.unicode_len();
    if start >= n {
        return n;
    }
    let mut i: usize = start;
    while i < n
        invariant
            n == s@.len(),
            start <= i <= n,
            find_from(s@, c, start as int) == find_from(s@, c, i as int),
        decreases n - i,
    {
        if s.get_char(i) == c {
            return i;
        }
        i = i + 1;
    }
    i
}

/// Whether `c` is an ASCII decimal digit.
pub open spec fn is_digit(c: char) -> bool {
    '0' <= c && c <= '9'
}

/// The value of the decimal digits `s`.
pub open spec fn digits_value(s: Seq<char>) -> nat
    decreases s.len(),
{
    if s.len() == 0 {
        0
    } else {
        digits_value(s.drop_last()) * 10 + ((s.last() as u32 - '0' as u32) as nat)
    }
}

/// `s` without a leading `+` sign.
pub open spec fn unsigned_body(s: Seq<char>) -> Seq<char> {
    if s.len() > 0 && s[0] == '+' {
        s.drop_first()
    } else {
        s
    }
}

/// What parsing `s` as a `u16` gives: an optional `+` sign followed by one or
/// more decimal digits whose value fits, else nothing.
pub open spec fn spec_parse_u16(s: Seq<char>) -> Option<u16> {
    let body = unsigned_body(s);
    if body.len() > 0 && (forall|k: int| 0 <= k < body.len() ==> is_digit(#[trigger] body[k]))
        && digits_value(body) <= u16::MAX {
        Some(digits_value(body) as u16)
    } else {
        None
    }
}

/// Parses the characters `[from, to)` of `s` as a `u16`.
pub fn parse_u16_range(s: &str, from: usize, to: usize) -> (r: Option<u16>)
    requires
        from <= to <= s@.len(),
    ensures
        r == spec_parse_u16(s@.subrange(from as int, to as int)),
{
    let ghost whole = s@.subrange(from as int, to as int);
    let mut start: usize = from;
    if from < to && s.get_char(from) == '+' {
        start = from + 1;
    }
    let ghost body = s@.subrange(start as int, to as int);
    proof {
        assert(whole.len() == to - from);
        if from < to {
            assert(whole[0] == s@[from as int]);
        }
        if from < to && s@[from as int] == '+' {
            assert(body =~= whole.drop_first());
            assert(unsigned_body(whole) == body);
        } else {
            assert(body =~= whole);
            assert(unsigned_body(whole) == body);
        }
    }
    if start == to {
        return None;
    }
    let mut value: u32 = 0;
    let mut overflow = false;
    let mut i: usize = start;
    while i < to
        invariant
            from <= start <= i <= to <= s@.len(),
            body == s@.subrange(start as int, to as int),
            whole == s@.subrange(from as int, to as int),
            unsigned_body(whole) == body,
            forall|k: int| start <= k < i ==> is_digit(#[trigger] s@[k]),
            overflow ==> digits_value(s@.subrange(start as int, i as int)) > u16::MAX,
            !overflow ==> value == digits_value(s@.subrange(start as int, i as int)),
            value <= u16::MAX,
        decreases to - i,
    {
        let c = s.get_char(i);
        if c < '0' || c > '9' {
            proof {
                assert(body[i - start] == c);
                assert(!is_digit(body[i - start]));
                assert(!(forall|k: int| 0 <= k < body.len() ==> is_digit(#[trigger] body[k])));
            }
            return None;
        }
        proof {
            assert(s@.subrange(start as int, i + 1).drop_last() =~= s@.subrange(start as int, i as int));
        }
        if !overflow {
            let next = value * 10 + (c as u32 - '0' as u32);
            if next > 65535 {
                overflow = true;
            } else {
                value = next;
            }
        }
        i = i + 1;
    }
    proof {
        assert(s@.subrange(start as int, i as int) =~= body);
        assert forall|k: int| 0 <= k < body.len() implies is_digit(#[trigger] body[k]) by {
            assert(body[k] == s@[start + k]);
        }
    }
    if overflow {
        None
    } else {
        Some(value as u16)
    }
}

} // verus!
