//! Decimal rendering, list joining and the mebibyte display string.

use vstd::prelude::*;

verus! {

/// The character for one decimal digit.
pub open spec fn digit_char(d: int) -> char {
    if d == 0 {
        '0'
    } else if d == 1 {
        '1'
    } else if d == 2 {
        '2'
    } else if d == 3 {
        '3'
    } else if d == 4 {
        '4'
    } else if d == 5 {
        '5'
    } else if d == 6 {
        '6'
    } else if d == 7 {
        '7'
    } else if d == 8 {
        '8'
    } else {
        '9'
    }
}

/// The canonical base-10 rendering of a non-negative integer: no sign,
/// no padding, a single `'0'` for zero.
pub open spec fn dec_str(n: int) -> Seq<char>
    decreases n,
{
    if n < 10 {
        seq![digit_char(n)]
    } else {
        dec_str(n / 10).push(digit_char(n % 10))
    }
}

fn digit_str(d: u64) -> (r: &'static str)
    requires
        d < 10,
    ensures
        r@ == seq![digit_char(d as int)],
{
    let r: &'static str = if d == 0 {
        "0"
    } else if d == 1 {
        "1"
    } else if d == 2 {
        "2"
    } else if d == 3 {
        "3"
    } else if d == 4 {
        "4"
    } else if d == 5 {
        "5"
    } else if d == 6 {
        "6"
    } else if d == 7 {
        "7"
    } else if d == 8 {
        "8"
    } else {
        "9"
    };
    proof {
        reveal_strlit("0");
        reveal_strlit("1");
        reveal_strlit("2");
        reveal_strlit("3");
        reveal_strlit("4");
        reveal_strlit("5");
        reveal_strlit("6");
        reveal_strlit("7");
        reveal_strlit("8");
        reveal_strlit("9");
        assert(r@ =~= seq![digit_char(d as int)]);
    }
    r
}

/// Renders `n` in base 10.
pub fn u64_to_string(n: u64) -> (r: String)
    ensures
        r@ == dec_str(n as int),
    decreases n,
{
    if n < 10 {
        String::from_str(digit_str(n))
    } else {
        let mut r = u64_to_string(n / 10);
        r.append(digit_str(n % 10));
        proof {
            assert(r@ =~= dec_str(n as int));
        }
        r
    }
}

/// The separator placed between list elements: a comma and a space.
pub open spec fn sep_comma() -> Seq<char> {
    seq![',', ' ']
}

/// The pieces of `parts` concatenated with `sep` between neighbours.
pub open spec fn joined(parts: Seq<Seq<char>>, sep: Seq<char>) -> Seq<char>
    decreases parts.len(),
{
    if parts.len() == 0 {
        Seq::empty()
    } else if parts.len() == 1 {
        parts[0]
    } else {
        joined(parts.drop_last(), sep) + sep + parts.last()
    }
}

proof fn lemma_joined_step(parts: Seq<Seq<char>>, sep: Seq<char>, i: int)
    requires
        0 <= i < parts.len(),
    ensures
        i == 0 ==> joined(parts.take(1), sep) == parts[0],
        i > 0 ==> joined(parts.take(i + 1), sep) == joined(parts.take(i), sep) + sep + parts[i],
{
    let pre = parts.take(i + 1);
    assert(pre.len() == i + 1);
    if i == 0 {
        assert(joined(pre, sep) == pre[0]);
        assert(pre[0] == parts[0]);
    } else {
        assert(joined(pre, sep) == joined(pre.drop_last(), sep) + sep + pre.last());
        assert(pre.drop_last() =~= parts.take(i));
        assert(pre.last() == parts[i]);
    }
}

/// Joins the given strings with `sep` between neighbours.
pub fn join_strings(parts: &Vec<String>, sep: &str) -> (r: String)
    ensures
        r@ == joined(parts@.map_values(|s: String| s@), sep@),
{
    let ghost vs = parts@.map_values(|s: String| s@);
    let mut r = String::new();
    let mut i: usize = 0;
    while i < parts.len()
        invariant
            i <= parts.len(),
            vs == parts@.map_values(|s: String| s@),
            r@ == joined(vs.take(i as int), sep@),
        decreases parts.len() - i,
    {
        if i > 0 {
            r.append(sep);
        }
        r.append(parts[i].as_str());
        proof {
            lemma_joined_step(vs, sep@, i as int);
        }
        i = i + 1;
    }
    proof {
        assert(vs.take(parts@.len() as int) =~= vs);
    }
    r
}

/// The view of a list of two-cell display rows.
pub open spec fn rows_view(rows: Seq<(String, String)>) -> Seq<(Seq<char>, Seq<char>)> {
    rows.map_values(|r: (String, String)| (r.0@, r.1@))
}

/// The size in hundredths of a mebibyte, rounded half up.
pub open spec fn mb_hundredths(bytes: u64) -> int {
    (bytes * 100 + 524288) / 1048576
}

/// The displayed file size: whole mebibytes, a dot, exactly two fractional
/// digits, and the literal suffix `" MB"`.
pub open spec fn mb_display(bytes: u64) -> Seq<char> {
    dec_str(mb_hundredths(bytes) / 100) + seq!['.'] + seq![
        digit_char((mb_hundredths(bytes) % 100) / 10),
        digit_char(mb_hundredths(bytes) % 10),
    ] + seq![' ', 'M', 'B']
}

/// Formats a byte length as mebibytes with two decimal digits.
pub fn format_file_size(bytes: u64) -> (r: String)
    ensures
        r@ == mb_display(bytes),
{
    let wide: u128 = ((bytes as u128) * 100 + 524288) / 1048576;
    proof {
        vstd::arithmetic::div_mod::lemma_div_is_ordered(
            (bytes * 100 + 524288) as int,
            0xffffffffffffffffu64 * 100 + 524288,
            1048576,
        );
    }
    let h: u64 = wide as u64;
    let mut r = u64_to_string(h / 100);
    let dot: &str = ".";
    r.append(dot);
    r.append(digit_str((h % 100) / 10));
    r.append(digit_str(h % 10));
    let unit: &str = " MB";
    r.append(unit);
    proof {
        reveal_strlit(".");
        reveal_strlit(" MB");
        assert(r@ =~= mb_display(bytes));
    }
    r
}

} // verus!
