//! The few texts that the engine writes.

use vstd::prelude::*;

verus! {

/// The character of a decimal digit.
pub open spec fn digit(d: nat) -> char
    recommends
        d < 10,
{
    (48 + d) as char
}

/// A number in decimal, without leading zeros.
pub open spec fn decimal(n: nat) -> Seq<char>
    decreases n,
{
    if n < 10 {
        seq![digit(n)]
    } else {
        decimal(n / 10).push(digit(n % 10))
    }
}

/// The first `count` of `lines`, with a line break between each two.
pub open spec fn joined(lines: Seq<String>, count: nat) -> Seq<char>
    decreases count,
{
    if count == 0 {
        seq![]
    } else if count == 1 {
        lines[0]@
    } else {
        joined(lines, (count - 1) as nat).push('\n') + lines[count - 1]@
    }
}

/// The decimal digit `d`, as text.
fn digit_text(d: usize) -> (r: &'static str)
    requires
        d < 10,
    ensures
        r@ == seq![digit(d as nat)],
{
    proof {
        reveal_strlit("0");
        reveal_strlit("1");
        reveal_strlit("2");
        reveal_strlit("3");
        reveal_strlit("4");
        reveal_strlit("5");
        reveal_strlit("6");
        reveal_strlit("7");
        reveal_strlit("8");
        reveal_strlit("9");
    }
    match d {
        0 => "0",
        1 => "1",
        2 => "2",
        3 => "3",
        4 => "4",
        5 => "5",
        6 => "6",
        7 => "7",
        8 => "8",
        _ => "9",
    }
}

/// Adds `n` in decimal to `out`.
fn append_decimal(out: &mut String, n: usize)
    ensures
        final(out)@ == old(out)@ + decimal(n as nat),
    decreases n,
{
    if n >= 10 {
        append_decimal(out, n / 10);
    }
    out.append(digit_text(n % 10));
}

/// `prefix`, a dash and `n` in decimal.
pub fn numbered(prefix: &str, n: usize) -> (r: String)
    ensures
        r@ == prefix@.push('-') + decimal(n as nat),
{
    proof {
        reveal_strlit("-");
    }
    let mut out: String = prefix.to_string();
    out.append("-");
    assert(out@ =~= prefix@.push('-'));
    append_decimal(&mut out, n);
    out
}

/// All of `lines`, with a line break between each two.
pub fn join_lines(lines: &Vec<String>) -> (r: String)
    ensures
        r@ == joined(lines@, lines@.len()),
{
    proof {
        reveal_strlit("\n");
    }
    let mut out: String = String::new();
    for i in 0..lines.len()
        invariant
            "\n"@ == seq!['\n'],
            out@ == joined(lines@, i as nat),
    {
        if i > 0 {
            out.append("\n");
            assert(out@ =~= joined(lines@, i as nat).push('\n'));
        }
        out.append(lines[i].as_str());
        assert(out@ =~= joined(lines@, (i + 1) as nat));
    }
    out
}

} // verus!
