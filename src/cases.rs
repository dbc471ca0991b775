//! Splitting a filter pattern into its top-level alternatives.

use vstd::prelude::*;

verus! {

/// The alternatives found scanning `s` from position `i`, with `depth` open
/// parentheses, the current alternative starting at `last`, and `acc` found
/// so far. A backslash escapes the character after it; only a `|` outside all
/// parentheses ends an alternative, and text after the last such `|` is not
/// an alternative.
pub open spec fn scan_cases(s: Seq<char>, i: int, depth: int, last: int, acc: Seq<Seq<char>>) -> Seq<Seq<char>>
    decreases s.len() + 1 - i,
{
    if i < 0 || i >= s.len() {
        acc
    } else if s[i] == '\\' {
        scan_cases(s, i + 2, depth, last, acc)
    } else if s[i] == '(' {
        scan_cases(s, i + 1, depth + 1, last, acc)
    } else if s[i] == ')' {
        scan_cases(s, i + 1, depth - 1, last, acc)
    } else if s[i] == '|' && depth == 0 {
        scan_cases(s, i + 1, depth, i + 1, acc.push(s.subrange(last, i)))
    } else {
        scan_cases(s, i + 1, depth, last, acc)
    }
}

/// The top-level alternatives of the pattern `s` that a `|` closes.
pub open spec fn cases_of(s: Seq<char>) -> Seq<Seq<char>> {
    scan_cases(s, 0, 0, 0, Seq::empty())
}

/// The views of a list of string slices.
pub open spec fn slices_view<'a>(v: Seq<&'a str>) -> Seq<Seq<char>> {
    v.map_values(|s: &'a str| s@)
}

/// Splits `input` at each `|` outside parentheses and not escaped, keeping
/// the alternatives that a `|` closes.
pub fn extract_cases<'a>(input: &'a str) -> (r: Vec<&'a str>)
    ensures
        slices_view(r@) == cases_of(input@),
{
    let n = input.unicode_len();
    let ghost s = input@;
    let mut buffer: Vec<&'a str> = Vec::new();
    let mut opens: usize = 0;
    let mut closes: usize = 0;
    let mut last: usize = 0;
    let mut i: usize = 0;
    assert(slices_view(buffer@) =~= Seq::<Seq<char>>::empty());
    while i < n
        invariant
            n == s.len(),
            s == input@,
            i <= n,
            last <= i,
            opens <= i,
            closes <= i,
            scan_cases(s, i as int, opens - closes, last as int, slices_view(buffer@)) == cases_of(s),
        decreases n - i,
    {
        let c = input.get_char(i);
        if c == '\\' {
            if i + 1 < n {
                i = i + 2;
            } else {
                assert(scan_cases(s, i + 2, opens - closes, last as int, slices_view(buffer@)) == slices_view(buffer@));
                i = n;
            }
        } else if c == '(' {
            opens = opens + 1;
            i = i + 1;
        } else if c == ')' {
            closes = closes + 1;
            i = i + 1;
        } else if c == '|' && opens == closes {
            let piece = input.substring_char(last, i);
            let ghost before = buffer@;
            buffer.push(piece);
            assert(slices_view(buffer@) =~= slices_view(before).push(s.subrange(last as int, i as int)));
            i = i + 1;
            last = i;
        } else {
            i = i + 1;
        }
    }
    buffer
}

} // verus!
