//! Account identifiers as decimal text, the form in which a token carries
//! them.

use vstd::prelude::*;
use vstd::string::StrSliceExecFns;
use vstd::string::StringExecFns;

verus! {

/// The character of a digit.
pub open spec fn digit_char(d: nat) -> char {
    if d == 0 {
        '0'
    } else if d == 1 {
        '1'
    } else if d == 2 {
        '2'
    } else if d == 3 {
        '3'
    } else if d == 4 {
        '4'
    } else if d == 5 {
        '5'
    } else if d == 6 {
        '6'
    } else if d == 7 {
        '7'
    } else if d == 8 {
        '8'
    } else {
        '9'
    }
}

/// The digit that a character stands for, if it is one of `0` to `9`.
pub open spec fn digit_value(c: char) -> Option<nat> {
    if c == '0' {
        Some(0)
    } else if c == '1' {
        Some(1)
    } else if c == '2' {
        Some(2)
    } else if c == '3' {
        Some(3)
    } else if c == '4' {
        Some(4)
    } else if c == '5' {
        Some(5)
    } else if c == '6' {
        Some(6)
    } else if c == '7' {
        Some(7)
    } else if c == '8' {
        Some(8)
    } else if c == '9' {
        Some(9)
    } else {
        None
    }
}

/// A natural number in decimal, without leading zeros.
pub open spec fn digits(n: nat) -> Seq<char>
    decreases n,
{
    if n < 10 {
        seq![digit_char(n)]
    } else {
        digits(n / 10).push(digit_char(n % 10))
    }
}

/// An identifier in decimal, with a minus sign before a negative one.
pub open spec fn decimal_text(id: int) -> Seq<char> {
    if id < 0 {
        seq!['-'] + digits((-id) as nat)
    } else {
        digits(id as nat)
    }
}

/// The number that a text of digits stands for. A text that is empty or
/// holds anything but digits stands for none. Leading zeros are allowed.
pub open spec fn digits_value(s: Seq<char>) -> Option<nat>
    decreases s.len(),
{
    if s.len() == 0 {
        None
    } else {
        match digit_value(s.last()) {
            None => None,
            Some(d) => if s.len() == 1 {
                Some(d)
            } else {
                match digits_value(s.drop_last()) {
                    Some(v) => Some(10 * v + d),
                    None => None,
                }
            },
        }
    }
}

/// The text after an optional sign.
pub open spec fn unsigned_part(s: Seq<char>) -> Seq<char> {
    if s.len() > 0 && (s[0] == '-' || s[0] == '+') {
        s.subrange(1, s.len() as int)
    } else {
        s
    }
}

/// The identifier that a text stands for: an optional `+` or `-`, then
/// digits, the whole within the range of `i32`. Anything else, blanks
/// included, stands for none.
pub open spec fn parsed_id(s: Seq<char>) -> Option<i32> {
    match digits_value(unsigned_part(s)) {
        None => None,
        Some(v) => if s[0] == '-' {
            if v <= 2147483648 {
                Some((-(v as int)) as i32)
            } else {
                None
            }
        } else {
            if v <= 2147483647 {
                Some(v as i32)
            } else {
                None
            }
        },
    }
}

/// A text of digits has digits in every place, and each of its beginnings
/// stands for a number that is no larger than the whole.
proof fn prefix_of_digits(s: Seq<char>, k: int)
    requires
        0 < k <= s.len(),
        digits_value(s) is Some,
    ensures
        digits_value(s.subrange(0, k)) is Some,
        digits_value(s.subrange(0, k)).unwrap() <= digits_value(s).unwrap(),
        digit_value(s[k - 1]) is Some,
    decreases s.len(),
{
    if k == s.len() {
        assert(s.subrange(0, k) =~= s);
    } else {
        assert(s.drop_last().subrange(0, k) =~= s.subrange(0, k));
        prefix_of_digits(s.drop_last(), k);
    }
}

/// Reading the decimal form of a natural number gives the number back.
proof fn digits_round_trip(n: nat)
    ensures
        digits(n).len() >= 1,
        digits_value(digits(n)) == Some(n),
        digit_value(digits(n)[0]) is Some,
    decreases n,
{
    if n >= 10 {
        digits_round_trip(n / 10);
        let front = digits(n / 10);
        let all = digits(n);
        assert(all.drop_last() =~= front);
        assert(all.last() == digit_char(n % 10));
        assert(all[0] == front[0]);
    }
}

/// Reading the decimal text of an identifier gives the identifier back.
pub proof fn decimal_round_trip(id: i32)
    ensures
        parsed_id(decimal_text(id as int)) == Some(id),
{
    if id < 0 {
        let magnitude = (-(id as int)) as nat;
        digits_round_trip(magnitude);
        let text = decimal_text(id as int);
        assert(text[0] == '-');
        assert(text.subrange(1, text.len() as int) =~= digits(magnitude));
    } else {
        digits_round_trip(id as nat);
    }
}

fn digit_of(c: char) -> (d: Option<u64>)
    ensures
        match digit_value(c) {
            Some(v) => d == Some(v as u64),
            None => d is None,
        },
{
    match c {
        '0' => Some(0),
        '1' => Some(1),
        '2' => Some(2),
        '3' => Some(3),
        '4' => Some(4),
        '5' => Some(5),
        '6' => Some(6),
        '7' => Some(7),
        '8' => Some(8),
        '9' => Some(9),
        _ => None,
    }
}

fn digit_text(d: u32) -> (s: &'static str)
    requires
        d < 10,
    ensures
        s@ == seq![digit_char(d as nat)],
{
    proof {
        reveal_strlit("0");
        reveal_strlit("1");
        reveal_strlit("2");
        reveal_strlit("3");
        reveal_strlit("4");
        reveal_strlit("5");
        reveal_strlit("6");
        reveal_strlit("7");
        reveal_strlit("8");
        reveal_strlit("9");
    }
    let s = if d == 0 {
        "0"
    } else if d == 1 {
        "1"
    } else if d == 2 {
        "2"
    } else if d == 3 {
        "3"
    } else if d == 4 {
        "4"
    } else if d == 5 {
        "5"
    } else if d == 6 {
        "6"
    } else if d == 7 {
        "7"
    } else if d == 8 {
        "8"
    } else {
        "9"
    };
    assert(s@ =~= seq![digit_char(d as nat)]);
    s
}

fn push_digits(n: u32, out: &mut String)
    ensures
        final(out)@ == old(out)@ + digits(n as nat),
    decreases n,
{
    if n >= 10 {
        push_digits(n / 10, out);
    }
    out.append(digit_text(n % 10));
    assert(out@ =~= old(out)@ + digits(n as nat));
}

/// Writes an identifier in decimal.
pub fn format_id(id: i32) -> (text: String)
    ensures
        text@ == decimal_text(id as int),
        parsed_id(text@) == Some(id),
{
    let mut out = String::new();
    let magnitude: u32 = if id < 0 {
        proof {
            reveal_strlit("-");
        }
        out.append("-");
        assert(out@ =~= seq!['-']);
        (-(id as i64)) as u32
    } else {
        id as u32
    };
    push_digits(magnitude, &mut out);
    proof {
        decimal_round_trip(id);
    }
    out
}

/// Reads an identifier from its text.
pub fn parse_id(text: &str) -> (id: Option<i32>)
    ensures
        id == parsed_id(text@),
{
    let n = text.unicode_len();
    if n == 0 {
        return None;
    }
    let first = text.get_char(0);
    let start: usize = if first == '-' || first == '+' {
        1
    } else {
        0
    };
    let ghost body = unsigned_part(text@);
    assert(body =~= text@.subrange(start as int, n as int));
    if start == n {
        return None;
    }
    let mut acc: u64 = 0;
    let mut i: usize = start;
    while i < n
        invariant
            start <= i <= n,
            n == text@.len(),
            body == text@.subrange(start as int, n as int),
            body == unsigned_part(text@),
            acc <= 2147483648,
            i == start ==> acc == 0,
            i > start ==> digits_value(body.subrange(0, i - start)) == Some(acc as nat),
        decreases n - i,
    {
        let c = text.get_char(i);
        let ghost upto = body.subrange(0, i - start + 1);
        proof {
            assert(body[i - start] == c);
            assert(upto.last() == c);
            assert(upto.drop_last() =~= body.subrange(0, i - start));
            if digits_value(body) is Some {
                prefix_of_digits(body, i - start + 1);
            }
        }
        let d = match digit_of(c) {
            Some(d) => d,
            None => {
                return None;
            },
        };
        acc = acc * 10 + d;
        assert(digits_value(upto) == Some(acc as nat));
        if acc > 2147483648 {
            return None;
        }
        i += 1;
    }
    assert(body.subrange(0, n - start) =~= body);
    if first == '-' {
        Some((-(acc as i64)) as i32)
    } else if acc <= 2147483647 {
        Some(acc as i32)
    } else {
        None
    }
}

} // verus!
