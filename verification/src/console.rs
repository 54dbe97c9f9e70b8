//! The D-Bus object paths of QEMU's display consoles.

use vstd::prelude::*;

verus! {

/// The character of a decimal digit.
pub open spec fn digit_char(d: int) -> char {
    if d == 0 {
        '0'
    } else if d == 1 {
        '1'
    } else if d == 2 {
        '2'
    } else if d == 3 {
        '3'
    } else if d == 4 {
        '4'
    } else if d == 5 {
        '5'
    } else if d == 6 {
        '6'
    } else if d == 7 {
        '7'
    } else if d == 8 {
        '8'
    } else {
        '9'
    }
}

/// `n` written in decimal, without leading zeros.
pub open spec fn decimal(n: nat) -> Seq<char>
    decreases n,
{
    if n < 10 {
        seq![digit_char(n as int)]
    } else {
        decimal(n / 10) + seq![digit_char((n % 10) as int)]
    }
}

/// The object path of console `idx`.
pub open spec fn console_path(idx: u32) -> Seq<char> {
    "/org/qemu/Display1/Console_"@ + decimal(idx as nat)
}

/// A character allowed in an element of a D-Bus object path.
pub open spec fn is_path_element_char(c: char) -> bool {
    ||| 'A' as int <= c as int <= 'Z' as int
    ||| 'a' as int <= c as int <= 'z' as int
    ||| '0' as int <= c as int <= '9' as int
    ||| c == '_'
}

/// A valid D-Bus object path: a `/`, then elements of `[A-Za-z0-9_]`
/// separated by single `/`, with no `/` at the end unless the path is `/`.
pub open spec fn is_object_path(s: Seq<char>) -> bool {
    &&& s.len() >= 1
    &&& s[0] == '/'
    &&& forall|i: int| 0 <= i < s.len() ==> #[trigger] s[i] == '/' || is_path_element_char(s[i])
    &&& forall|i: int| 1 <= i < s.len() && #[trigger] s[i] == '/' ==> s[i - 1] != '/'
    &&& s.len() > 1 ==> s[s.len() - 1] != '/'
}

fn digit_str(d: u32) -> (s: &'static str)
    requires
        d < 10,
    ensures
        s@ == seq![digit_char(d as int)],
{
    if d == 0 {
        proof { reveal_strlit("0"); }
        "0"
    } else if d == 1 {
        proof { reveal_strlit("1"); }
        "1"
    } else if d == 2 {
        proof { reveal_strlit("2"); }
        "2"
    } else if d == 3 {
        proof { reveal_strlit("3"); }
        "3"
    } else if d == 4 {
        proof { reveal_strlit("4"); }
        "4"
    } else if d == 5 {
        proof { reveal_strlit("5"); }
        "5"
    } else if d == 6 {
        proof { reveal_strlit("6"); }
        "6"
    } else if d == 7 {
        proof { reveal_strlit("7"); }
        "7"
    } else if d == 8 {
        proof { reveal_strlit("8"); }
        "8"
    } else {
        proof { reveal_strlit("9"); }
        "9"
    }
}

fn append_decimal(s: &mut String, n: u32)
    ensures
        final(s)@ == old(s)@ + decimal(n as nat),
    decreases n,
{
    if n >= 10 {
        append_decimal(s, n / 10);
    }
    s.append(digit_str(n % 10));
    proof {
        assert(final(s)@ =~= old(s)@ + decimal(n as nat));
    }
}

/// The D-Bus object path of console `idx`: `/org/qemu/Display1/Console_`
/// followed by `idx` in decimal.
pub fn console_object_path(idx: u32) -> (path: String)
    ensures
        path@ == console_path(idx),
{
    let mut path = String::from_str("/org/qemu/Display1/Console_");
    append_decimal(&mut path, idx);
    path
}

/// Every character of a decimal numeral is a digit, and there is one at least.
pub proof fn lemma_decimal_digits(n: nat)
    ensures
        decimal(n).len() >= 1,
        n < 10 <==> decimal(n).len() == 1,
        forall|i: int| 0 <= i < decimal(n).len() ==> '0' as int <= #[trigger] decimal(n)[i] as int <= '9' as int,
    decreases n,
{
    if n >= 10 {
        lemma_decimal_digits(n / 10);
    }
}

/// Distinct numbers have distinct decimal numerals.
pub proof fn lemma_decimal_injective(a: nat, b: nat)
    requires
        decimal(a) == decimal(b),
    ensures
        a == b,
    decreases a,
{
    lemma_decimal_digits(a);
    lemma_decimal_digits(b);
    if a >= 10 && b >= 10 {
        let da = decimal(a);
        let db = decimal(b);
        assert(da[da.len() - 1] == digit_char((a % 10) as int));
        assert(db[db.len() - 1] == digit_char((b % 10) as int));
        assert(a % 10 == b % 10);
        assert(decimal(a / 10) =~= da.drop_last());
        assert(decimal(b / 10) =~= db.drop_last());
        lemma_decimal_injective(a / 10, b / 10);
    } else if a < 10 && b < 10 {
        assert(decimal(a)[0] == digit_char(a as int));
    }
}

/// The number that a string of decimal digits stands for, each character
/// `c` standing for the digit `c - '0'`, the last one the units.
pub open spec fn numeral_value(s: Seq<char>) -> int
    decreases s.len(),
{
    if s.len() == 0 {
        0
    } else {
        10 * numeral_value(s.drop_last()) + (s.last() as int - '0' as int)
    }
}

/// The suffix of a console's path, read as a decimal numeral, is the
/// console's number: `decimal` writes numbers in base ten.
pub proof fn law_decimal_reads_back(n: nat)
    ensures
        numeral_value(decimal(n)) == n,
    decreases n,
{
    let d = decimal(n);
    assert(d.len() >= 1) by {
        lemma_decimal_digits(n);
    }
    if n < 10 {
        assert(d.drop_last() =~= Seq::<char>::empty());
        assert(numeral_value(d.drop_last()) == 0);
    } else {
        law_decimal_reads_back(n / 10);
        assert(d.drop_last() =~= decimal(n / 10));
    }
    let r = if n < 10 { n as int } else { (n % 10) as int };
    assert(digit_char(r) as int - '0' as int == r) by {
        assert('0' as int == 48);
        assert('1' as int == 49);
        assert('2' as int == 50);
        assert('3' as int == 51);
        assert('4' as int == 52);
        assert('5' as int == 53);
        assert('6' as int == 54);
        assert('7' as int == 55);
        assert('8' as int == 56);
        assert('9' as int == 57);
    }
}

/// The path of console `idx` is the console prefix followed by a numeral,
/// made of digits, whose value is `idx`.
pub proof fn law_console_path_names_console(idx: u32)
    ensures
        ({
            let p = "/org/qemu/Display1/Console_"@;
            let suffix = console_path(idx).subrange(p.len() as int, console_path(idx).len() as int);
            &&& console_path(idx).subrange(0, p.len() as int) == p
            &&& suffix.len() >= 1
            &&& forall|i: int| 0 <= i < suffix.len() ==> '0' as int <= #[trigger] suffix[i] as int <= '9' as int
            &&& numeral_value(suffix) == idx
        }),
{
    let p = "/org/qemu/Display1/Console_"@;
    let s = console_path(idx);
    assert(s.subrange(0, p.len() as int) =~= p);
    assert(s.subrange(p.len() as int, s.len() as int) =~= decimal(idx as nat));
    lemma_decimal_digits(idx as nat);
    law_decimal_reads_back(idx as nat);
}

/// The path of every console is a valid D-Bus object path.
pub proof fn law_console_path_is_object_path(idx: u32)
    ensures
        is_object_path(console_path(idx)),
{
    reveal_strlit("/org/qemu/Display1/Console_");
    let p = "/org/qemu/Display1/Console_"@;
    let d = decimal(idx as nat);
    let s = console_path(idx);
    lemma_decimal_digits(idx as nat);
    assert(p.len() == 27);
    assert forall|i: int| 0 <= i < s.len() implies #[trigger] s[i] == '/' || is_path_element_char(s[i]) by {
        if i >= 27 {
            assert(s[i] == d[i - 27]);
        }
    }
    assert forall|i: int| 1 <= i < s.len() && #[trigger] s[i] == '/' implies s[i - 1] != '/' by {
        if i >= 27 {
            assert(s[i] == d[i - 27]);
        }
    }
    assert(s[s.len() - 1] == d[d.len() - 1]);
}

/// Distinct consoles have distinct paths.
pub proof fn law_console_paths_distinct(a: u32, b: u32)
    requires
        a != b,
    ensures
        console_path(a) != console_path(b),
{
    if console_path(a) == console_path(b) {
        let p = "/org/qemu/Display1/Console_"@;
        assert(decimal(a as nat) =~= console_path(a).subrange(p.len() as int, console_path(a).len() as int));
        assert(decimal(b as nat) =~= console_path(b).subrange(p.len() as int, console_path(b).len() as int));
        lemma_decimal_injective(a as nat, b as nat);
    }
}

} // verus!
