//! Numbers and widths as the screen shows them.

use crate::text::{owned, push_char, push_str};
use vstd::prelude::*;

verus! {

/// The ASCII digit for `d < 10`.
pub open spec fn digit_char(d: nat) -> char {
    (('0' as u32) + d) as char
}

/// The decimal digits of `n`, most significant first, without leading
/// zeros (`"0"` for zero).
pub open spec fn decimal(n: nat) -> Seq<char>
    decreases n,
{
    if n < 10 {
        seq![digit_char(n)]
    } else {
        decimal(n / 10) + seq![digit_char(n % 10)]
    }
}

fn digit(d: u64) -> (c: char)
    requires
        d < 10,
    ensures
        c == digit_char(d as nat),
{
    let b = (48 + d) as u8;
    assert(b as u32 == ('0' as u32) + d);
    proof {
        vstd::utf8::char_u32_cast(b as char, b as u32);
    }
    b as char
}

/// The decimal form of `n` (what `u64::to_string` gives).
pub fn u64_to_decimal(n: u64) -> (s: String)
    ensures
        s@ == decimal(n as nat),
{
    let mut digits: Vec<char> = Vec::new();
    let mut m = n;
    // digits holds the low digits of n, least significant first.
    while m >= 10
        invariant
            m <= n,
            decimal(n as nat) == decimal(m as nat) + digits@.reverse(),
        decreases m,
    {
        let d = digit(m % 10);
        proof {
            assert(decimal(m as nat) == decimal((m / 10) as nat) + seq![d]);
            assert(digits@.push(d).reverse() =~= seq![d] + digits@.reverse());
        }
        digits.push(d);
        m = m / 10;
    }
    let first = digit(m);
    digits.push(first);
    assert(digits@.reverse() =~= seq![first] + digits@.drop_last().reverse());
    let mut s = String::new();
    let mut i = digits.len();
    while i > 0
        invariant
            i <= digits@.len(),
            s@ == digits@.reverse().take((digits@.len() - i) as int),
        decreases i,
    {
        i = i - 1;
        push_char(&mut s, digits[i]);
        assert(digits@.reverse().take((digits@.len() - i) as int) =~= digits@.reverse().take(
            (digits@.len() - i - 1) as int,
        ).push(digits@[i as int]));
    }
    assert(digits@.reverse().take(digits@.len() as int) =~= digits@.reverse());
    s
}

/// The piece written for digit `j` of `s`: the digit, preceded by a comma
/// when a group of three digits ends right before it.
pub open spec fn group_piece(s: Seq<char>, j: int) -> Seq<char> {
    if j > 0 && (s.len() - j) % 3 == 0 {
        seq![',', s[j]]
    } else {
        seq![s[j]]
    }
}

/// The first `i` digits of `s` with thousands separators.
pub open spec fn grouped_prefix(s: Seq<char>, i: nat) -> Seq<char>
    decreases i,
{
    if i == 0 {
        seq![]
    } else {
        grouped_prefix(s, (i - 1) as nat) + group_piece(s, i - 1)
    }
}

/// The digits of `s` with a comma between every group of three, counted
/// from the right.
pub open spec fn group_thousands(s: Seq<char>) -> Seq<char> {
    grouped_prefix(s, s.len())
}

/// A token count with thousands separators, e.g. `1,234,567`.
pub fn format_token_count(value: u64) -> (s: String)
    ensures
        s@ == group_thousands(decimal(value as nat)),
{
    let text = u64_to_decimal(value);
    let digits = crate::text::chars_of(text.as_str());
    let n = digits.len();
    let mut s = String::new();
    let mut i: usize = 0;
    while i < n
        invariant
            n == digits@.len(),
            i <= n,
            s@ == grouped_prefix(digits@, i as nat),
        decreases n - i,
    {
        if i > 0 && (n - i) % 3 == 0 {
            push_char(&mut s, ',');
        }
        push_char(&mut s, digits[i]);
        assert(s@ =~= grouped_prefix(digits@, (i + 1) as nat));
        i = i + 1;
    }
    s
}

/// A percentage, or `pending` when there is none yet.
pub fn limit_percent_text(percent: Option<u16>) -> (s: String)
    ensures
        s@ == match percent {
            Some(p) => decimal(p as nat) + "%"@,
            None => "pending"@,
        },
{
    match percent {
        Some(p) => {
            let mut s = u64_to_decimal(p as u64);
            push_str(&mut s, "%");
            s
        },
        None => owned("pending"),
    }
}

/// The columns left for content after `reserved_cols`; `None` when
/// nothing is left.
pub fn usable_content_width(total_width: usize, reserved_cols: usize) -> (r: Option<usize>)
    ensures
        match r {
            Some(w) => total_width > reserved_cols && w == total_width - reserved_cols,
            None => total_width <= reserved_cols,
        },
{
    if total_width > reserved_cols {
        Some(total_width - reserved_cols)
    } else {
        None
    }
}

/// `usable_content_width` for terminal column counts.
pub fn usable_content_width_u16(total_width: u16, reserved_cols: u16) -> (r: Option<usize>)
    ensures
        match r {
            Some(w) => total_width > reserved_cols && w == total_width - reserved_cols,
            None => total_width <= reserved_cols,
        },
{
    usable_content_width(total_width as usize, reserved_cols as usize)
}

} // verus!
