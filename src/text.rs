//! Text building with exact character-level contracts.

use vstd::prelude::*;
use vstd::string::*;

verus! {

/// The ASCII character of a decimal digit.
pub open spec fn digit_char(d: nat) -> char {
    seq!['0', '1', '2', '3', '4', '5', '6', '7', '8', '9'][d as int]
}

/// The decimal representation of a natural number, without leading zeros.
pub open spec fn decimal(n: nat) -> Seq<char>
    decreases n,
{
    if n < 10 {
        seq![digit_char(n)]
    } else {
        decimal(n / 10) + seq![digit_char(n % 10)]
    }
}

/// The decimal representation of an integer, with a leading `-` when negative.
pub open spec fn signed_decimal(n: int) -> Seq<char> {
    if n < 0 {
        seq!['-'] + decimal((-n) as nat)
    } else {
        decimal(n as nat)
    }
}

/// The text of a boolean, as Rust prints it.
pub open spec fn bool_text(b: bool) -> Seq<char> {
    if b {
        seq!['t', 'r', 'u', 'e']
    } else {
        seq!['f', 'a', 'l', 's', 'e']
    }
}

fn digit_str(d: u64) -> (r: &'static str)
    requires
        d < 10,
    ensures
        r@ == seq![digit_char(d as nat)],
{
    let r = if d == 0 {
        "0"
    } else if d == 1 {
        "1"
    } else if d == 2 {
        "2"
    } else if d == 3 {
        "3"
    } else if d == 4 {
        "4"
    } else if d == 5 {
        "5"
    } else if d == 6 {
        "6"
    } else if d == 7 {
        "7"
    } else if d == 8 {
        "8"
    } else {
        "9"
    };
    proof {
        reveal_strlit("0");
        reveal_strlit("1");
        reveal_strlit("2");
        reveal_strlit("3");
        reveal_strlit("4");
        reveal_strlit("5");
        reveal_strlit("6");
        reveal_strlit("7");
        reveal_strlit("8");
        reveal_strlit("9");
        assert(r@ =~= seq![digit_char(d as nat)]);
    }
    r
}

/// Appends the decimal digits of `n` to `s`.
pub fn push_decimal(s: &mut String, n: u64)
    ensures
        final(s)@ == old(s)@ + decimal(n as nat),
    decreases n,
{
    if n >= 10 {
        push_decimal(s, n / 10);
        s.append(digit_str(n % 10));
        assert(final(s)@ =~= old(s)@ + decimal(n as nat));
    } else {
        s.append(digit_str(n));
    }
}

/// Appends `n` in decimal, with a leading `-` when it is negative.
pub fn push_signed_decimal(s: &mut String, n: i64)
    ensures
        final(s)@ == old(s)@ + signed_decimal(n as int),
{
    if n < 0 {
        s.append("-");
        proof {
            reveal_strlit("-");
        }
        let m: u64 = (0i128 - (n as i128)) as u64;
        push_decimal(s, m);
        assert(final(s)@ =~= old(s)@ + signed_decimal(n as int));
    } else {
        push_decimal(s, n as u64);
    }
}

/// Appends `true` or `false`.
pub fn push_bool(s: &mut String, b: bool)
    ensures
        final(s)@ == old(s)@ + bool_text(b),
{
    if b {
        s.append("true");
        proof {
            reveal_strlit("true");
            assert("true"@ =~= bool_text(b));
        }
    } else {
        s.append("false");
        proof {
            reveal_strlit("false");
            assert("false"@ =~= bool_text(b));
        }
    }
}

/// The decimal text of `n` as a new string.
pub fn decimal_string(n: u64) -> (r: String)
    ensures
        r@ == decimal(n as nat),
{
    let mut s = String::new();
    push_decimal(&mut s, n);
    assert(s@ =~= decimal(n as nat));
    s
}

/// One labelled line of a description: the label, the value, a line break.
pub open spec fn field_line(label: Seq<char>, value: Seq<char>) -> Seq<char> {
    label + value + "\n"@
}

/// Whether two strings hold the same characters.
pub fn same_text(a: &str, b: &str) -> (r: bool)
    ensures
        r == (a@ == b@),
{
    let n = a.unicode_len();
    if n != b.unicode_len() {
        return false;
    }
    let mut i: usize = 0;
    while i < n
        invariant
            n == a@.len(),
            n == b@.len(),
            i <= n,
            forall|j: int| 0 <= j < i ==> a@[j] == b@[j],
        decreases n - i,
    {
        if a.get_char(i) != b.get_char(i) {
            return false;
        }
        i += 1;
    }
    assert(a@ =~= b@);
    true
}

/// Appends the line `label value`.
pub fn push_text_field(s: &mut String, label: &str, value: &str)
    ensures
        final(s)@ == old(s)@ + field_line(label@, value@),
{
    s.append(label);
    s.append(value);
    s.append("\n");
    assert(final(s)@ =~= old(s)@ + field_line(label@, value@));
}

/// Appends the line `label n`, `n` in decimal.
pub fn push_decimal_field(s: &mut String, label: &str, n: u64)
    ensures
        final(s)@ == old(s)@ + field_line(label@, decimal(n as nat)),
{
    s.append(label);
    push_decimal(s, n);
    s.append("\n");
    assert(final(s)@ =~= old(s)@ + field_line(label@, decimal(n as nat)));
}

/// Appends the line `label n`, `n` signed in decimal.
pub fn push_signed_field(s: &mut String, label: &str, n: i64)
    ensures
        final(s)@ == old(s)@ + field_line(label@, signed_decimal(n as int)),
{
    s.append(label);
    push_signed_decimal(s, n);
    s.append("\n");
    assert(final(s)@ =~= old(s)@ + field_line(label@, signed_decimal(n as int)));
}

/// Appends the line `label true` or `label false`.
pub fn push_bool_field(s: &mut String, label: &str, b: bool)
    ensures
        final(s)@ == old(s)@ + field_line(label@, bool_text(b)),
{
    s.append(label);
    push_bool(s, b);
    s.append("\n");
    assert(final(s)@ =~= old(s)@ + field_line(label@, bool_text(b)));
}

/// `base` joined with `name` by a single `/`: no separator is added after an
/// empty base or one that already ends in `/`.
pub open spec fn join_path(base: Seq<char>, name: Seq<char>) -> Seq<char> {
    if base.len() == 0 || base.last() == '/' {
        base + name
    } else {
        base + "/"@ + name
    }
}

/// Joins a path and a name with a single `/`.
pub fn join_path_exec(base: &str, name: &str) -> (r: String)
    ensures
        r@ == join_path(base@, name@),
{
    let n = base.unicode_len();
    let mut s = String::from_str(base);
    if n == 0 || base.get_char(n - 1) == '/' {
        s.append(name);
    } else {
        s.append("/");
        s.append(name);
    }
    s
}

} // verus!
