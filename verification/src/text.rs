//! Numbers and flags as text.

use vstd::prelude::*;
use vstd::string::StringExecFns;

verus! {

/// The character of a digit below 16.
pub open spec fn digit_char(d: nat) -> char {
    if d == 0 {
        '0'
    } else if d == 1 {
        '1'
    } else if d == 2 {
        '2'
    } else if d == 3 {
        '3'
    } else if d == 4 {
        '4'
    } else if d == 5 {
        '5'
    } else if d == 6 {
        '6'
    } else if d == 7 {
        '7'
    } else if d == 8 {
        '8'
    } else if d == 9 {
        '9'
    } else if d == 10 {
        'a'
    } else if d == 11 {
        'b'
    } else if d == 12 {
        'c'
    } else if d == 13 {
        'd'
    } else if d == 14 {
        'e'
    } else {
        'f'
    }
}

/// The number in decimal notation: its digits, most significant first,
/// without leading zeros; a single zero for zero.
pub open spec fn decimal(n: nat) -> Seq<char>
    decreases n,
{
    if n < 10 {
        seq![digit_char(n)]
    } else {
        decimal(n / 10) + seq![digit_char(n % 10)]
    }
}

/// The number in decimal notation, with a minus sign where it is negative.
pub open spec fn signed_decimal(n: int) -> Seq<char> {
    if n < 0 {
        seq!['-'] + decimal((-n) as nat)
    } else {
        decimal(n as nat)
    }
}

/// The number in hexadecimal notation, in lower case, without leading
/// zeros; a single zero for zero.
pub open spec fn hexadecimal(n: nat) -> Seq<char>
    decreases n,
{
    if n < 16 {
        seq![digit_char(n)]
    } else {
        hexadecimal(n / 16) + seq![digit_char(n % 16)]
    }
}

/// `true` or `false`.
pub open spec fn truth(b: bool) -> Seq<char> {
    if b {
        "true"@
    } else {
        "false"@
    }
}

/// The digit as text.
fn digit_str(d: u64) -> (res: &'static str)
    requires
        d < 16,
    ensures
        res@ == seq![digit_char(d as nat)],
{
    proof {
        reveal_strlit("0");
        reveal_strlit("1");
        reveal_strlit("2");
        reveal_strlit("3");
        reveal_strlit("4");
        reveal_strlit("5");
        reveal_strlit("6");
        reveal_strlit("7");
        reveal_strlit("8");
        reveal_strlit("9");
        reveal_strlit("a");
        reveal_strlit("b");
        reveal_strlit("c");
        reveal_strlit("d");
        reveal_strlit("e");
        reveal_strlit("f");
    }
    let res = if d == 0 {
        "0"
    } else if d == 1 {
        "1"
    } else if d == 2 {
        "2"
    } else if d == 3 {
        "3"
    } else if d == 4 {
        "4"
    } else if d == 5 {
        "5"
    } else if d == 6 {
        "6"
    } else if d == 7 {
        "7"
    } else if d == 8 {
        "8"
    } else if d == 9 {
        "9"
    } else if d == 10 {
        "a"
    } else if d == 11 {
        "b"
    } else if d == 12 {
        "c"
    } else if d == 13 {
        "d"
    } else if d == 14 {
        "e"
    } else {
        "f"
    };
    assert(res@ =~= seq![digit_char(d as nat)]);
    res
}

/// Appends the number in decimal notation.
fn write_decimal(n: u64, out: &mut String)
    ensures
        final(out)@ == old(out)@ + decimal(n as nat),
    decreases n,
{
    if n >= 10 {
        write_decimal(n / 10, out);
    }
    out.append(digit_str(n % 10));
    assert(out@ =~= old(out)@ + decimal(n as nat));
}

/// Appends the number in hexadecimal notation.
fn write_hexadecimal(n: u64, out: &mut String)
    ensures
        final(out)@ == old(out)@ + hexadecimal(n as nat),
    decreases n,
{
    if n >= 16 {
        write_hexadecimal(n / 16, out);
    }
    out.append(digit_str(n % 16));
    assert(out@ =~= old(out)@ + hexadecimal(n as nat));
}

/// The number in decimal notation.
pub fn u64_to_string(n: u64) -> (res: String)
    ensures
        res@ == decimal(n as nat),
{
    let mut res = String::new();
    write_decimal(n, &mut res);
    assert(res@ =~= decimal(n as nat));
    res
}

/// The number in decimal notation, with a minus sign where it is negative.
pub fn i64_to_string(n: i64) -> (res: String)
    ensures
        res@ == signed_decimal(n as int),
{
    if n < 0 {
        proof {
            reveal_strlit("-");
        }
        let mut res = String::from_str("-");
        let magnitude: u64 = if n == i64::MIN {
            0x8000_0000_0000_0000
        } else {
            (-n) as u64
        };
        write_decimal(magnitude, &mut res);
        assert(res@ =~= signed_decimal(n as int));
        res
    } else {
        u64_to_string(n as u64)
    }
}

/// The number in hexadecimal notation, in lower case.
pub fn u64_to_hex(n: u64) -> (res: String)
    ensures
        res@ == hexadecimal(n as nat),
{
    let mut res = String::new();
    write_hexadecimal(n, &mut res);
    assert(res@ =~= hexadecimal(n as nat));
    res
}

/// `true` or `false`.
pub fn bool_to_string(b: bool) -> (res: String)
    ensures
        res@ == truth(b),
{
    if b {
        String::from_str("true")
    } else {
        String::from_str("false")
    }
}

/// The text of the literal as an owned string.
pub fn text(s: &str) -> (res: String)
    ensures
        res@ == s@,
{
    String::from_str(s)
}

/// The text, or `None` where there is none.
pub open spec fn or_none(o: Option<Seq<char>>) -> Seq<char> {
    match o {
        Some(s) => s,
        None => "None"@,
    }
}

/// The text, or `None` where there is none.
pub fn text_or_none(o: Option<String>) -> (res: String)
    ensures
        res@ == or_none(crate::model::opt_view(o)),
{
    match o {
        Some(s) => s,
        None => String::from_str("None"),
    }
}

/// The texts separated by `separator`.
pub open spec fn joined(items: Seq<Seq<char>>, separator: Seq<char>) -> Seq<char>
    decreases items.len(),
{
    if items.len() == 0 {
        Seq::empty()
    } else if items.len() == 1 {
        items[0]
    } else {
        joined(items.drop_last(), separator) + separator + items.last()
    }
}

/// The texts between square brackets, separated by a comma and a space.
pub open spec fn bracketed(items: Seq<Seq<char>>) -> Seq<char> {
    "["@ + joined(items, ", "@) + "]"@
}

/// The texts separated by `separator`.
pub fn join(items: &Vec<String>, separator: &str) -> (res: String)
    ensures
        res@ == joined(crate::model::views(items@), separator@),
{
    let mut res = String::new();
    let ghost all = crate::model::views(items@);
    let mut i: usize = 0;
    assert(all.take(0) =~= Seq::empty());
    while i < items.len()
        invariant
            i <= items.len(),
            all == crate::model::views(items@),
            res@ == joined(all.take(i as int), separator@),
        decreases items.len() - i,
    {
        proof {
            assert(all.take(i as int + 1).drop_last() =~= all.take(i as int));
            assert(all.take(i as int + 1).last() == all[i as int]);
            assert(all.take(i as int + 1)[0] == all[0]);
        }
        if i > 0 {
            res.append(separator);
        }
        res.append(items[i].as_str());
        assert(res@ =~= joined(all.take(i as int + 1), separator@));
        i += 1;
    }
    assert(all.take(items.len() as int) =~= all);
    res
}

/// The texts between square brackets, separated by a comma and a space.
pub fn list_to_string(items: &Vec<String>) -> (res: String)
    ensures
        res@ == bracketed(crate::model::views(items@)),
{
    let mut res = String::from_str("[");
    let inner = join(items, ", ");
    res.append(inner.as_str());
    res.append("]");
    res
}

} // verus!
