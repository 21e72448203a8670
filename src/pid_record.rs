//! The pid record: a text file holding one decimal process id.
//!
//! Reading is forgiving: surrounding whitespace is ignored and anything that
//! is not a decimal `u32` reads as "no record".

use vstd::prelude::*;

verus! {

/// Whitespace as `char::is_whitespace` defines it (the Unicode `White_Space` property).
pub open spec fn is_ws(c: char) -> bool {
    let u = c as u32;
    (0x9 <= u && u <= 0xd) || u == 0x20 || u == 0x85 || u == 0xa0 || u == 0x1680
        || (0x2000 <= u && u <= 0x200a) || u == 0x2028 || u == 0x2029 || u == 0x202f
        || u == 0x205f || u == 0x3000
}

pub open spec fn trim_start(s: Seq<char>) -> Seq<char>
    decreases s.len(),
{
    if s.len() > 0 && is_ws(s[0]) {
        trim_start(s.drop_first())
    } else {
        s
    }
}

pub open spec fn trim_end(s: Seq<char>) -> Seq<char>
    decreases s.len(),
{
    if s.len() > 0 && is_ws(s.last()) {
        trim_end(s.drop_last())
    } else {
        s
    }
}

/// The text with leading and trailing whitespace removed.
pub open spec fn trimmed(s: Seq<char>) -> Seq<char> {
    trim_end(trim_start(s))
}

pub open spec fn is_digit(c: char) -> bool {
    '0' <= c && c <= '9'
}

pub open spec fn digit_value(c: char) -> nat {
    (c as u32 - '0' as u32) as nat
}

pub open spec fn all_digits(s: Seq<char>) -> bool {
    forall|i: int| 0 <= i < s.len() ==> is_digit(#[trigger] s[i])
}

/// The number that a string of decimal digits denotes.
pub open spec fn digits_value(s: Seq<char>) -> nat
    decreases s.len(),
{
    if s.len() == 0 {
        0
    } else {
        digits_value(s.drop_last()) * 10 + digit_value(s.last())
    }
}

/// The digits of a decimal number, after an optional leading `+`.
pub open spec fn unsigned_part(t: Seq<char>) -> Seq<char> {
    if t.len() > 0 && t[0] == '+' {
        t.drop_first()
    } else {
        t
    }
}

/// What `u32`'s `FromStr` accepts: an optional `+`, then one or more decimal
/// digits whose value fits in 32 bits.
pub open spec fn parse_u32(t: Seq<char>) -> Option<u32> {
    let d = unsigned_part(t);
    if d.len() > 0 && all_digits(d) && digits_value(d) <= u32::MAX {
        Some(digits_value(d) as u32)
    } else {
        None
    }
}

/// The pid that a record's text denotes, if any.
pub open spec fn pid_of_text(s: Seq<char>) -> Option<u32> {
    parse_u32(trimmed(s))
}

pub open spec fn digit_char(d: nat) -> char {
    if d == 0 { '0' } else if d == 1 { '1' } else if d == 2 { '2' } else if d == 3 { '3' }
    else if d == 4 { '4' } else if d == 5 { '5' } else if d == 6 { '6' } else if d == 7 { '7' }
    else if d == 8 { '8' } else { '9' }
}

/// The decimal form of `n`, without sign or leading zeros.
pub open spec fn decimal(n: nat) -> Seq<char>
    decreases n,
{
    if n < 10 {
        seq![digit_char(n)]
    } else {
        decimal(n / 10).push(digit_char(n % 10))
    }
}

/// Where the record lives, relative to the host's working directory.
pub fn pid_file_path() -> (r: String)
    ensures
        r@ == "../../backend/.server.pid"@,
{
    String::from_str("../../backend/.server.pid")
}

fn is_ws_char(c: char) -> (r: bool)
    ensures
        r == is_ws(c),
{
    let u = c as u32;
    (0x9 <= u && u <= 0xd) || u == 0x20 || u == 0x85 || u == 0xa0 || u == 0x1680
        || (0x2000 <= u && u <= 0x200a) || u == 0x2028 || u == 0x2029 || u == 0x202f
        || u == 0x205f || u == 0x3000
}

proof fn lemma_digits_prefix_le(d: Seq<char>, m: int)
    requires
        all_digits(d),
        0 <= m <= d.len(),
    ensures
        digits_value(d.subrange(0, m)) <= digits_value(d),
    decreases d.len() - m,
{
    if m < d.len() {
        lemma_digits_prefix_le(d, m + 1);
        assert(d.subrange(0, m + 1).drop_last() =~= d.subrange(0, m));
    } else {
        assert(d.subrange(0, m) =~= d);
    }
}

/// Reads a record's text: the pid it holds, or `None` when the text is not a
/// decimal `u32` once surrounding whitespace is removed.
pub fn parse_pid(text: &str) -> (r: Option<u32>)
    ensures
        r == pid_of_text(text@),
{
    let ghost s = text@;
    let n = text.unicode_len();
    let mut i: usize = 0;
    assert(s.subrange(0, n as int) =~= s);
    while i < n && is_ws_char(text.get_char(i))
        invariant
            i <= n,
            n == s.len(),
            s == text@,
            trim_start(s) == trim_start(s.subrange(i as int, n as int)),
        decreases n - i,
    {
        assert(s.subrange(i as int, n as int).drop_first() =~= s.subrange(i + 1, n as int));
        i = i + 1;
    }
    proof {
        if i == n {
            assert(s.subrange(i as int, n as int).len() == 0);
        }
    }
    assert(trim_start(s) == s.subrange(i as int, n as int));
    let mut j: usize = n;
    while j > i && is_ws_char(text.get_char(j - 1))
        invariant
            i <= j <= n,
            n == s.len(),
            s == text@,
            trimmed(s) == trim_end(s.subrange(i as int, j as int)),
        decreases j,
    {
        assert(s.subrange(i as int, j as int).drop_last() =~= s.subrange(i as int, j - 1));
        j = j - 1;
    }
    let ghost t = s.subrange(i as int, j as int);
    assert(trimmed(s) == t);
    let mut k: usize = i;
    if i < j && text.get_char(i) == '+' {
        k = i + 1;
        assert(unsigned_part(t) =~= s.subrange(k as int, j as int));
    } else {
        assert(unsigned_part(t) =~= s.subrange(k as int, j as int));
    }
    let k0 = k;
    let ghost d = s.subrange(k0 as int, j as int);
    if k0 == j {
        return None;
    }
    let mut v: u64 = 0;
    while k < j
        invariant
            k0 <= k <= j <= n,
            n == s.len(),
            s == text@,
            d == s.subrange(k0 as int, j as int),
            unsigned_part(trimmed(s)) == d,
            all_digits(d.subrange(0, k - k0)),
            v == digits_value(d.subrange(0, k - k0)),
            v <= u32::MAX,
        decreases j - k,
    {
        let c = text.get_char(k);
        if !('0' <= c && c <= '9') {
            assert(d[k - k0] == c);
            return None;
        }
        let dv = (c as u32 - '0' as u32) as u64;
        proof {
            assert(d.subrange(0, k - k0 + 1).drop_last() =~= d.subrange(0, k - k0));
            assert(d.subrange(0, k - k0 + 1).last() == c);
        }
        let w = v * 10 + dv;
        if w > u32::MAX as u64 {
            proof {
                if all_digits(d) {
                    lemma_digits_prefix_le(d, k - k0 + 1);
                }
            }
            return None;
        }
        v = w;
        k = k + 1;
    }
    assert(d.subrange(0, k - k0) =~= d);
    Some(v as u32)
}

proof fn lemma_decimal(n: nat)
    ensures
        decimal(n).len() > 0,
        all_digits(decimal(n)),
        digits_value(decimal(n)) == n,
    decreases n,
{
    let s = decimal(n);
    assert(digit_value(digit_char(n % 10)) == n % 10);
    assert(is_digit(digit_char(n % 10)));
    assert(digits_value(s) == digits_value(s.drop_last()) * 10 + digit_value(s.last()));
    if n < 10 {
        assert(n % 10 == n);
        assert(s.drop_last() =~= Seq::<char>::empty());
        assert(digits_value(s.drop_last()) == 0);
    } else {
        lemma_decimal(n / 10);
        assert(s.drop_last() =~= decimal(n / 10));
        assert(n == (n / 10) * 10 + n % 10);
        assert(s.last() == digit_char(n % 10));
        assert forall|i: int| 0 <= i < s.len() implies is_digit(#[trigger] s[i]) by {
            if i < s.len() - 1 {
                assert(s[i] == decimal(n / 10)[i]);
            }
        }
    }
}

/// Written and read back, a record yields the same pid.
pub proof fn lemma_pid_text_round_trip(pid: u32)
    ensures
        pid_of_text(decimal(pid as nat)) == Some(pid),
{
    let s = decimal(pid as nat);
    lemma_decimal(pid as nat);
    assert(!is_ws(s[0]));
    assert(!is_ws(s.last()));
    assert(trim_start(s) == s);
    assert(trim_end(s) == s);
    assert(unsigned_part(s) == s);
}

fn digit_str(d: u32) -> (r: &'static str)
    requires
        d < 10,
    ensures
        r@ == seq![digit_char(d as nat)],
{
    proof {
        reveal_strlit("0");
        reveal_strlit("1");
        reveal_strlit("2");
        reveal_strlit("3");
        reveal_strlit("4");
        reveal_strlit("5");
        reveal_strlit("6");
        reveal_strlit("7");
        reveal_strlit("8");
        reveal_strlit("9");
    }
    if d == 0 {
        "0"
    } else if d == 1 {
        "1"
    } else if d == 2 {
        "2"
    } else if d == 3 {
        "3"
    } else if d == 4 {
        "4"
    } else if d == 5 {
        "5"
    } else if d == 6 {
        "6"
    } else if d == 7 {
        "7"
    } else if d == 8 {
        "8"
    } else {
        "9"
    }
}

/// The decimal form of a number; as the text of a record, it reads back as that pid.
pub fn decimal_text(n: u32) -> (r: String)
    ensures
        r@ == decimal(n as nat),
        pid_of_text(r@) == Some(n),
    decreases n,
{
    proof {
        lemma_pid_text_round_trip(n);
    }
    if n < 10 {
        String::from_str(digit_str(n))
    } else {
        let head = decimal_text(n / 10);
        head.concat(digit_str(n % 10))
    }
}

} // verus!
