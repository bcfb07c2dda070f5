//! Commit message construction.
//!
//! The first commit of a schedule carries the base message verbatim;
//! every later commit at index `i` (0-based) carries
//! `"{base} (part {i+1}/{count})"`.

use vstd::prelude::*;
use vstd::string::StringExecFns;

verus! {

/// The decimal digit character for a value below ten.
pub open spec fn dec_digit(d: nat) -> char {
    if d == 0 {
        '0'
    } else if d == 1 {
        '1'
    } else if d == 2 {
        '2'
    } else if d == 3 {
        '3'
    } else if d == 4 {
        '4'
    } else if d == 5 {
        '5'
    } else if d == 6 {
        '6'
    } else if d == 7 {
        '7'
    } else if d == 8 {
        '8'
    } else {
        '9'
    }
}

/// The decimal rendering of a natural number, most significant digit
/// first, with no leading zeros (zero itself renders as "0").
pub open spec fn dec_str(n: nat) -> Seq<char>
    decreases n,
{
    if n < 10 {
        seq![dec_digit(n)]
    } else {
        dec_str(n / 10) + seq![dec_digit(n % 10)]
    }
}

/// The message of the commit at 0-based index `i` in a schedule of
/// `count` commits: the base message alone at index 0, otherwise the
/// base message with a part suffix.
pub open spec fn commit_message(base: Seq<char>, i: nat, count: nat) -> Seq<char> {
    if i == 0 {
        base
    } else {
        base + " (part "@ + dec_str(i + 1) + "/"@ + dec_str(count) + ")"@
    }
}

/// Appends the decimal digit character of `d` to `s`.
fn append_digit(s: &mut String, d: u32)
    requires
        d < 10,
    ensures
        final(s)@ == old(s)@ + seq![dec_digit(d as nat)],
{
    let lit: &str = if d == 0 {
        "0"
    } else if d == 1 {
        "1"
    } else if d == 2 {
        "2"
    } else if d == 3 {
        "3"
    } else if d == 4 {
        "4"
    } else if d == 5 {
        "5"
    } else if d == 6 {
        "6"
    } else if d == 7 {
        "7"
    } else if d == 8 {
        "8"
    } else {
        "9"
    };
    proof {
        reveal_strlit("0");
        reveal_strlit("1");
        reveal_strlit("2");
        reveal_strlit("3");
        reveal_strlit("4");
        reveal_strlit("5");
        reveal_strlit("6");
        reveal_strlit("7");
        reveal_strlit("8");
        reveal_strlit("9");
        assert(lit@ =~= seq![dec_digit(d as nat)]);
    }
    s.append(lit);
}

/// Appends the decimal rendering of `n` to `s`.
fn append_dec(s: &mut String, n: u32)
    ensures
        final(s)@ == old(s)@ + dec_str(n as nat),
    decreases n,
{
    if n < 10 {
        append_digit(s, n);
    } else {
        append_dec(s, n / 10);
        append_digit(s, n % 10);
        proof {
            assert(final(s)@ == old(s)@ + dec_str(n as nat / 10) + seq![
                dec_digit(n as nat % 10),
            ]);
            assert(old(s)@ + dec_str(n as nat) =~= old(s)@ + dec_str(n as nat / 10) + seq![
                dec_digit(n as nat % 10),
            ]);
        }
    }
}

/// Builds the message of the commit at index `i` in a schedule of
/// `count` commits.
pub fn build_message(base: &String, i: u32, count: u32) -> (r: String)
    requires
        i < count,
    ensures
        r@ == commit_message(base@, i as nat, count as nat),
{
    if i == 0 {
        base.clone()
    } else {
        let mut m = base.clone();
        m.append(" (part ");
        append_dec(&mut m, i + 1);
        m.append("/");
        append_dec(&mut m, count);
        m.append(")");
        m
    }
}

} // verus!
