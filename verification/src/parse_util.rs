//! Character-level parsing primitives shared by the porcelain parsers.
//!
//! All parsers in this crate work over `&str`, viewed as a `Seq<char>`.
//! The helpers here give exact, spec-level accounts of literal matching,
//! digit runs, substring search and digit-string values; the porcelain
//! grammars are built from them.

use vstd::prelude::*;

verus! {

/// A decimal digit.
pub open spec fn is_dec_digit(c: char) -> bool {
    '0' <= c && c <= '9'
}

/// An octal digit.
pub open spec fn is_oct_digit(c: char) -> bool {
    '0' <= c && c <= '7'
}

/// A hexadecimal digit, either case.
pub open spec fn is_hex_digit(c: char) -> bool {
    is_dec_digit(c) || ('a' <= c && c <= 'f') || ('A' <= c && c <= 'F')
}

/// Whether `c` counts as a digit under `radix` (8 or 10).
pub open spec fn is_radix_digit(c: char, radix: u32) -> bool {
    if radix == 8 {
        is_oct_digit(c)
    } else {
        is_dec_digit(c)
    }
}

/// Numeric value of a single digit character.
pub open spec fn digit_value(c: char) -> nat {
    (c as nat - '0' as nat) as nat
}

/// Value of a digit string under `radix`, most significant digit first.
pub open spec fn radix_value(s: Seq<char>, radix: u32) -> nat
    decreases s.len(),
{
    if s.len() == 0 {
        0
    } else {
        radix_value(s.drop_last(), radix) * (radix as nat) + digit_value(s.last())
    }
}

/// The literal `t` occurs in `s` starting at position `pos`.
pub open spec fn tag_at(s: Seq<char>, pos: int, t: Seq<char>) -> bool {
    &&& 0 <= pos
    &&& pos + t.len() <= s.len()
    &&& s.subrange(pos, pos + t.len()) == t
}

/// End of the run of `radix` digits that starts at `pos`: the first
/// index at or after `pos` that is out of range or not a digit.
pub open spec fn digit_run_end(s: Seq<char>, pos: int, radix: u32) -> int
    decreases s.len() - pos,
{
    if pos < 0 {
        pos
    } else if pos >= s.len() || !is_radix_digit(s[pos], radix) {
        pos
    } else {
        digit_run_end(s, pos + 1, radix)
    }
}

/// First position at or after `pos` where the literal `t` occurs, if any.
pub open spec fn find_at(s: Seq<char>, pos: int, t: Seq<char>) -> Option<int>
    decreases s.len() - pos + 1,
{
    if pos < 0 || pos + t.len() > s.len() {
        None
    } else if tag_at(s, pos, t) {
        Some(pos)
    } else {
        find_at(s, pos + 1, t)
    }
}

/// The digit run from `pos` ends exactly at `k` when everything before
/// `k` is a digit and `k` is the end of the string or a non-digit.
pub proof fn lemma_digit_run_end_is(s: Seq<char>, pos: int, k: int, radix: u32)
    requires
        0 <= pos <= k <= s.len(),
        forall|i: int| pos <= i < k ==> is_radix_digit(s[i], radix),
        k == s.len() || !is_radix_digit(s[k], radix),
    ensures
        digit_run_end(s, pos, radix) == k,
    decreases k - pos,
{
    if pos < k {
        lemma_digit_run_end_is(s, pos + 1, k, radix);
    }
}

/// The character for the decimal digit `d`.
pub open spec fn dec_digit_char(d: nat) -> char
    recommends
        d < 10,
{
    if d == 0 {
        '0'
    } else if d == 1 {
        '1'
    } else if d == 2 {
        '2'
    } else if d == 3 {
        '3'
    } else if d == 4 {
        '4'
    } else if d == 5 {
        '5'
    } else if d == 6 {
        '6'
    } else if d == 7 {
        '7'
    } else if d == 8 {
        '8'
    } else {
        '9'
    }
}

/// The usual decimal rendering of `n`: most significant digit first,
/// no leading zeros (a lone zero for 0).
pub open spec fn dec_str(n: nat) -> Seq<char>
    decreases n,
{
    if n < 10 {
        seq![dec_digit_char(n)]
    } else {
        dec_str(n / 10) + seq![dec_digit_char(n % 10)]
    }
}

/// Every character of a decimal rendering is a decimal digit, and the
/// rendering is never empty.
pub proof fn lemma_dec_str_chars(n: nat)
    ensures
        dec_str(n).len() >= 1,
        forall|i: int| 0 <= i < dec_str(n).len() ==> is_dec_digit(#[trigger] dec_str(n)[i]),
    decreases n,
{
    if n < 10 {
        assert(is_dec_digit(dec_digit_char(n)));
    } else {
        lemma_dec_str_chars(n / 10);
        assert(is_dec_digit(dec_digit_char(n % 10)));
        assert(forall|i: int|
            0 <= i < dec_str(n).len() ==> is_dec_digit(#[trigger] dec_str(n)[i])) by {
            assert(forall|i: int|
                0 <= i < dec_str(n).len() ==> dec_str(n)[i] == if i < dec_str(n / 10).len() {
                    dec_str(n / 10)[i]
                } else {
                    dec_digit_char(n % 10)
                });
        }
    }
}

/// Reading a decimal rendering back gives the number it renders.
pub proof fn lemma_dec_str_value(n: nat)
    ensures
        radix_value(dec_str(n), 10) == n,
    decreases n,
{
    if n < 10 {
        let s = dec_str(n);
        assert(s.len() == 1);
        assert(s.last() == dec_digit_char(n));
        assert(s.drop_last() =~= Seq::<char>::empty());
        assert(radix_value(Seq::<char>::empty(), 10) == 0);
        assert(radix_value(s, 10) == radix_value(s.drop_last(), 10) * 10 + digit_value(s.last()));
        assert(digit_value(dec_digit_char(n)) == n);
    } else {
        lemma_dec_str_value(n / 10);
        let s = dec_str(n);
        assert(s.drop_last() =~= dec_str(n / 10));
        assert(s.last() == dec_digit_char(n % 10));
        assert(radix_value(s, 10) == radix_value(s.drop_last(), 10) * 10 + digit_value(s.last()));
        assert(digit_value(dec_digit_char(n % 10)) == n % 10);
        assert(radix_value(dec_str(n / 10), 10) * 10 + n % 10 == n);
    }
}

/// Whether the literal `t` occurs in `s` at position `pos`, exactly.
pub fn tag_matches_at(s: &str, pos: usize, t: &str) -> (r: bool)
    ensures
        r == tag_at(s@, pos as int, t@),
{
    let s_len = s.unicode_len();
    let t_len = t.unicode_len();
    if pos > s_len || t_len > s_len - pos {
        proof {
            assert(!tag_at(s@, pos as int, t@));
        }
        return false;
    }
    let mut i: usize = 0;
    while i < t_len
        invariant
            0 <= i <= t_len,
            s_len == s@.len(),
            t_len == t@.len(),
            pos + t_len <= s_len,
            forall|j: int| 0 <= j < i ==> s@[pos + j] == t@[j],
        decreases t_len - i,
    {
        if s.get_char(pos + i) != t.get_char(i) {
            proof {
                assert(s@.subrange(pos as int, pos + t@.len()) != t@) by {
                    assert(s@.subrange(pos as int, pos + t@.len())[i as int] != t@[i as int]);
                }
            }
            return false;
        }
        i += 1;
    }
    proof {
        assert(s@.subrange(pos as int, pos + t@.len()) =~= t@);
    }
    true
}

/// End of the digit run starting at `pos` (clamped to the string's end).
pub fn scan_digits(s: &str, pos: usize, radix: u32) -> (r: usize)
    requires
        radix == 8 || radix == 10,
        pos <= s@.len(),
    ensures
        r == digit_run_end(s@, pos as int, radix),
        pos <= r <= s@.len(),
        forall|i: int| pos <= i < r ==> is_radix_digit(s@[i], radix),
        r < s@.len() ==> !is_radix_digit(s@[r as int], radix),
{
    let s_len = s.unicode_len();
    let mut i: usize = pos;
    while i < s_len
        invariant
            pos <= i <= s_len,
            s_len == s@.len(),
            radix == 8 || radix == 10,
            digit_run_end(s@, pos as int, radix) == digit_run_end(s@, i as int, radix),
            forall|j: int| pos <= j < i ==> is_radix_digit(s@[j], radix),
        decreases s_len - i,
    {
        let c = s.get_char(i);
        let is_digit: bool = if radix == 8 {
            '0' <= c && c <= '7'
        } else {
            '0' <= c && c <= '9'
        };
        if !is_digit {
            return i;
        }
        i += 1;
    }
    i
}

/// First position at or after `pos` where the literal `t` occurs.
pub fn find_str(s: &str, pos: usize, t: &str) -> (r: Option<usize>)
    requires
        pos <= s@.len(),
    ensures
        match r {
            Some(i) => {
                &&& find_at(s@, pos as int, t@) == Some(i as int)
                &&& pos <= i
                &&& tag_at(s@, i as int, t@)
                &&& forall|j: int| pos <= j < i ==> !tag_at(s@, j, t@)
            },
            None => {
                &&& find_at(s@, pos as int, t@) is None
                &&& forall|j: int| pos <= j ==> !tag_at(s@, j, t@)
            },
        },
{
    let s_len = s.unicode_len();
    let t_len = t.unicode_len();
    if t_len == 0 {
        proof {
            assert(s@.subrange(pos as int, pos as int) =~= t@);
            assert(tag_at(s@, pos as int, t@));
        }
        return Some(pos);
    }
    if t_len > s_len || pos > s_len - t_len {
        proof {
            assert(forall|j: int| pos <= j ==> !tag_at(s@, j, t@));
        }
        return None;
    }
    let last = s_len - t_len;
    let mut i: usize = pos;
    while i <= last
        invariant
            pos <= i <= last + 1,
            s_len == s@.len(),
            t_len == t@.len(),
            t_len >= 1,
            last == s_len - t_len,
            find_at(s@, pos as int, t@) == find_at(s@, i as int, t@),
            forall|j: int| pos <= j < i ==> !tag_at(s@, j, t@),
        decreases last + 1 - i,
    {
        if tag_matches_at(s, i, t) {
            return Some(i);
        }
        i += 1;
    }
    proof {
        assert(forall|j: int| i <= j ==> !tag_at(s@, j, t@));
    }
    None
}

/// Value of the digit string `s@.subrange(from, to)` under `radix`,
/// rejected with `None` when it does not fit in a `u32`.
pub fn digits_to_u32(s: &str, from: usize, to: usize, radix: u32) -> (r: Option<u32>)
    requires
        radix == 8 || radix == 10,
        from <= to <= s@.len(),
        forall|i: int| from <= i < to ==> is_radix_digit(s@[i], radix),
    ensures
        match r {
            Some(v) => v as nat == radix_value(s@.subrange(from as int, to as int), radix),
            None => radix_value(s@.subrange(from as int, to as int), radix) > u32::MAX,
        },
{
    let mut acc: u32 = 0;
    let mut i: usize = from;
    while i < to
        invariant
            from <= i <= to <= s@.len(),
            radix == 8 || radix == 10,
            forall|j: int| from <= j < to ==> is_radix_digit(s@[j], radix),
            acc as nat == radix_value(s@.subrange(from as int, i as int), radix),
        decreases to - i,
    {
        let c = s.get_char(i);
        let d: u32 = (c as u32) - ('0' as u32);
        proof {
            assert(is_radix_digit(s@[i as int], radix));
            assert(d == digit_value(s@[i as int]));
        }
        if acc > (u32::MAX - d) / radix {
            proof {
                let ghost prefix = s@.subrange(from as int, i as int + 1);
                let ghost whole = s@.subrange(from as int, to as int);
                assert(prefix.drop_last() =~= s@.subrange(from as int, i as int));
                assert(prefix.last() == s@[i as int]);
                assert(radix_value(prefix, radix) > u32::MAX) by {
                    assert(acc as nat * radix as nat + d as nat > u32::MAX) by (nonlinear_arith)
                        requires
                            acc as int > (u32::MAX as int - d as int) / (radix as int),
                            radix == 8 || radix == 10,
                            d <= 9,
                            acc <= u32::MAX,
                        {}
                }
                lemma_radix_value_prefix_le(whole, prefix.len() as int, radix);
                assert(whole.subrange(0, prefix.len() as int) =~= prefix);
            }
            return None;
        }
        proof {
            assert(acc as nat * radix as nat + d as nat <= u32::MAX) by (nonlinear_arith)
                requires
                    acc as int <= (u32::MAX as int - d as int) / (radix as int),
                    radix == 8 || radix == 10,
                    d <= u32::MAX,
                {}
        }
        let next = acc * radix + d;
        proof {
            let ghost prefix = s@.subrange(from as int, i as int + 1);
            assert(prefix.drop_last() =~= s@.subrange(from as int, i as int));
            assert(prefix.last() == s@[i as int]);
        }
        acc = next;
        i += 1;
    }
    proof {
        assert(s@.subrange(from as int, to as int) =~= s@.subrange(from as int, i as int));
    }
    Some(acc)
}

/// A digit string's value only grows as the string extends to the right.
proof fn lemma_radix_value_prefix_le(s: Seq<char>, k: int, radix: u32)
    requires
        0 <= k <= s.len(),
        radix == 8 || radix == 10,
    ensures
        radix_value(s.subrange(0, k), radix) <= radix_value(s, radix),
    decreases s.len() - k,
{
    if k == s.len() {
        assert(s.subrange(0, k) =~= s);
    } else {
        lemma_radix_value_prefix_le(s, k + 1, radix);
        let p = s.subrange(0, k + 1);
        assert(p.drop_last() =~= s.subrange(0, k));
        assert(radix_value(p.drop_last(), radix) * (radix as nat) + digit_value(p.last())
            >= radix_value(p.drop_last(), radix)) by (nonlinear_arith)
            requires radix == 8 || radix == 10,
            {}
    }
}

/// The value of the digit string `input` under `radix`. The caller
/// guarantees a plain, in-range digit string; the porcelain parsers use
/// only radixes 8 and 10.
pub fn parse_u32(input: &str, radix: u32) -> (r: u32)
    requires
        radix == 8 || radix == 10,
        input@.len() > 0,
        forall|i: int| 0 <= i < input@.len() ==> is_radix_digit(input@[i], radix),
        radix_value(input@, radix) <= u32::MAX,
    ensures
        r as nat == radix_value(input@, radix),
{
    let len = input.unicode_len();
    let r = digits_to_u32(input, 0, len, radix);
    proof {
        assert(input@.subrange(0, input@.len() as int) =~= input@);
    }
    match r {
        Some(v) => v,
        None => {
            proof {
                assert(false);
            }
            0
        },
    }
}

/// The literal `t` read at `pos`, giving the position just after it.
pub open spec fn sp_tag(s: Seq<char>, pos: int, t: Seq<char>) -> Option<int> {
    if tag_at(s, pos, t) {
        Some(pos + t.len() as int)
    } else {
        None
    }
}

/// An optional single character at `pos`: consumed when present.
pub open spec fn sp_opt_char(s: Seq<char>, pos: int, c: char) -> int {
    if 0 <= pos < s.len() && s[pos] == c {
        pos + 1
    } else {
        pos
    }
}

/// A non-empty run of decimal digits at `pos` whose value fits in `u32`,
/// giving the value and the position just after the run.
pub open spec fn sp_digits(s: Seq<char>, pos: int) -> Option<(nat, int)> {
    let end = digit_run_end(s, pos, 10);
    if end == pos {
        None
    } else {
        let v = radix_value(s.subrange(pos, end), 10);
        if v > u32::MAX {
            None
        } else {
            Some((v, end))
        }
    }
}

/// Forty characters read blindly at `pos` as a commit id.
pub open spec fn sp_sha(s: Seq<char>, pos: int) -> Option<(Seq<char>, int)> {
    if 0 <= pos && pos + 40 <= s.len() {
        Some((s.subrange(pos, pos + 40), pos + 40))
    } else {
        None
    }
}

/// Everything from `pos` up to (not including) the first occurrence of
/// `t`, which is left unconsumed.
pub open spec fn sp_until(s: Seq<char>, pos: int, t: Seq<char>) -> Option<(Seq<char>, int)> {
    match find_at(s, pos, t) {
        None => None,
        Some(q) => Some((s.subrange(pos, q), q)),
    }
}

/// Read the literal `t` at `pos`.
pub fn take_tag(input: &str, pos: usize, t: &str) -> (r: Option<usize>)
    ensures
        match r {
            Some(end) => sp_tag(input@, pos as int, t@) == Some(end as int) && pos <= end
                <= input@.len(),
            None => sp_tag(input@, pos as int, t@) is None,
        },
{
    if tag_matches_at(input, pos, t) {
        let len = input.unicode_len();
        Some(pos + t.unicode_len())
    } else {
        None
    }
}

/// Skip one occurrence of `c` at `pos`, if present.
pub fn skip_char(input: &str, pos: usize, c: char) -> (r: usize)
    requires
        pos <= input@.len(),
    ensures
        r as int == sp_opt_char(input@, pos as int, c),
        pos <= r <= input@.len(),
{
    if pos < input.unicode_len() && input.get_char(pos) == c {
        pos + 1
    } else {
        pos
    }
}

/// Read a non-empty decimal digit run at `pos` as a `u32`.
pub fn take_digits(input: &str, pos: usize) -> (r: Option<(u32, usize)>)
    requires
        pos <= input@.len(),
    ensures
        match r {
            Some(v) => sp_digits(input@, pos as int) == Some((v.0 as nat, v.1 as int)) && pos
                < v.1 <= input@.len(),
            None => sp_digits(input@, pos as int) is None,
        },
{
    let end = scan_digits(input, pos, 10);
    if end == pos {
        return None;
    }
    match digits_to_u32(input, pos, end, 10) {
        Some(v) => Some((v, end)),
        None => None,
    }
}

/// Read forty characters at `pos` as an owned commit id.
pub fn take_sha(input: &str, pos: usize) -> (r: Option<(String, usize)>)
    requires
        pos <= input@.len(),
    ensures
        match r {
            Some(v) => sp_sha(input@, pos as int) == Some((v.0@, v.1 as int)) && pos < v.1
                <= input@.len(),
            None => sp_sha(input@, pos as int) is None,
        },
{
    let len = input.unicode_len();
    if len - pos < 40 {
        return None;
    }
    let s = input.substring_char(pos, pos + 40);
    Some((s.to_owned(), pos + 40))
}

/// Read everything up to the first occurrence of `t`, leaving `t` there.
pub fn take_until(input: &str, pos: usize, t: &str) -> (r: Option<(String, usize)>)
    requires
        pos <= input@.len(),
    ensures
        match r {
            Some(v) => sp_until(input@, pos as int, t@) == Some((v.0@, v.1 as int)) && pos <= v.1
                <= input@.len(),
            None => sp_until(input@, pos as int, t@) is None,
        },
{
    match find_str(input, pos, t) {
        Some(q) => {
            let piece = input.substring_char(pos, q);
            Some((piece.to_owned(), q))
        },
        None => None,
    }
}


/// A non-empty run of octal digits at `pos` whose value fits in `u32`,
/// giving the value and the position just after the run.
pub open spec fn sp_oct(s: Seq<char>, pos: int) -> Option<(nat, int)> {
    let end = digit_run_end(s, pos, 8);
    if end == pos {
        None
    } else {
        let v = radix_value(s.subrange(pos, end), 8);
        if v > u32::MAX {
            None
        } else {
            Some((v, end))
        }
    }
}

/// Read a non-empty octal digit run at `pos` as a `u32`.
pub fn take_oct(input: &str, pos: usize) -> (r: Option<(u32, usize)>)
    requires
        pos <= input@.len(),
    ensures
        match r {
            Some(v) => sp_oct(input@, pos as int) == Some((v.0 as nat, v.1 as int)) && pos
                < v.1 <= input@.len(),
            None => sp_oct(input@, pos as int) is None,
        },
{
    let end = scan_digits(input, pos, 8);
    if end == pos {
        return None;
    }
    match digits_to_u32(input, pos, end, 8) {
        Some(v) => Some((v, end)),
        None => None,
    }
}

} // verus!
