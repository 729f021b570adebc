use vstd::prelude::*;

verus! {

use vstd::string::StrSliceExecFns;
use vstd::string::StringExecFns;

/// True when `sub` occurs as a contiguous run of characters inside `s`.
pub open spec fn seq_contains_sub(s: Seq<char>, sub: Seq<char>) -> bool {
    exists|i: int|
        0 <= i && i + sub.len() <= s.len() && #[trigger] s.subrange(i, i + sub.len() as int) == sub
}

/// Character-by-character equality of two string slices.
pub fn str_eq(a: &str, b: &str) -> (r: bool)
    ensures
        r == (a@ == b@),
{
    let la = a.unicode_len();
    let lb = b.unicode_len();
    if la != lb {
        return false;
    }
    let mut i: usize = 0;
    while i < la
        invariant
            la == a@.len(),
            lb == b@.len(),
            la == lb,
            i <= la,
            forall|j: int| 0 <= j < i ==> a@[j] == b@[j],
        decreases la - i,
    {
        let ca = a.get_char(i);
        let cb = b.get_char(i);
        if ca != cb {
            return false;
        }
        i = i + 1;
    }
    proof {
        assert(a@ =~= b@);
    }
    true
}

/// Substring search: does `needle` occur contiguously inside `hay`?
pub fn str_contains(hay: &str, needle: &str) -> (r: bool)
    ensures
        r == seq_contains_sub(hay@, needle@),
{
    let lh = hay.unicode_len();
    let ln = needle.unicode_len();
    if ln > lh {
        return false;
    }
    if ln == 0 {
        proof {
            assert(hay@.subrange(0, 0 + needle@.len() as int) =~= needle@);
        }
        return true;
    }
    let mut i: usize = 0;
    while i <= lh - ln
        invariant
            lh == hay@.len(),
            ln == needle@.len(),
            0 < ln <= lh,
            i <= lh - ln + 1,
            forall|k: int|
                0 <= k < i ==> #[trigger] hay@.subrange(k, k + ln as int) != needle@,
        decreases lh + 1 - ln - i,
    {
        let mut j: usize = 0;
        let mut matched = true;
        while matched && j < ln
            invariant
                lh == hay@.len(),
                ln == needle@.len(),
                i + ln <= lh,
                j <= ln,
                matched ==> forall|m: int| 0 <= m < j ==> hay@[i + m] == needle@[m],
                !matched ==> hay@.subrange(i as int, i + ln as int) != needle@,
            decreases ln - j + if matched { 1int } else { 0int },
        {
            let ca = hay.get_char(i + j);
            let cb = needle.get_char(j);
            if ca != cb {
                proof {
                    assert(hay@.subrange(i as int, i + ln as int)[j as int] == hay@[i + j]);
                }
                matched = false;
            } else {
                j = j + 1;
            }
        }
        if matched {
            proof {
                assert(hay@.subrange(i as int, i + ln as int) =~= needle@);
            }
            return true;
        }
        i = i + 1;
    }
    proof {
        assert forall|k: int| 0 <= k && k + needle@.len() <= hay@.len() implies #[trigger] hay@.subrange(
            k,
            k + needle@.len() as int,
        ) != needle@ by {
            assert(k < i);
        }
    }
    false
}

/// The character for a single decimal digit.
pub open spec fn digit_char(d: int) -> char {
    if d == 0 {
        '0'
    } else if d == 1 {
        '1'
    } else if d == 2 {
        '2'
    } else if d == 3 {
        '3'
    } else if d == 4 {
        '4'
    } else if d == 5 {
        '5'
    } else if d == 6 {
        '6'
    } else if d == 7 {
        '7'
    } else if d == 8 {
        '8'
    } else {
        '9'
    }
}

/// Decimal representation of a non-negative integer, most significant
/// digit first, with no leading zeros (`0` is written as one digit).
pub open spec fn dec_digits(n: int) -> Seq<char>
    decreases n,
{
    if n < 10 {
        seq![digit_char(n)]
    } else {
        dec_digits(n / 10).push(digit_char(n % 10))
    }
}

/// Decimal representation padded with a leading zero to at least two
/// characters.
pub open spec fn dec_digits_pad2(n: int) -> Seq<char> {
    if n < 10 {
        seq!['0'].add(dec_digits(n))
    } else {
        dec_digits(n)
    }
}

/// A one-character string slice for a single decimal digit.
fn digit_str(d: u64) -> (s: &'static str)
    requires
        d < 10,
    ensures
        s@ == seq![digit_char(d as int)],
{
    proof {
        reveal_strlit("0");
        reveal_strlit("1");
        reveal_strlit("2");
        reveal_strlit("3");
        reveal_strlit("4");
        reveal_strlit("5");
        reveal_strlit("6");
        reveal_strlit("7");
        reveal_strlit("8");
        reveal_strlit("9");
    }
    let s: &'static str = if d == 0 {
        "0"
    } else if d == 1 {
        "1"
    } else if d == 2 {
        "2"
    } else if d == 3 {
        "3"
    } else if d == 4 {
        "4"
    } else if d == 5 {
        "5"
    } else if d == 6 {
        "6"
    } else if d == 7 {
        "7"
    } else if d == 8 {
        "8"
    } else {
        "9"
    };
    proof {
        assert(s@ =~= seq![digit_char(d as int)]);
    }
    s
}

/// True when every character is a decimal digit.
pub open spec fn all_digits(s: Seq<char>) -> bool {
    forall|i: int| 0 <= i < s.len() ==> 48 <= (#[trigger] s[i]) as int <= 57
}

/// The number a run of decimal digits denotes.
pub open spec fn digits_value(s: Seq<char>) -> int
    decreases s.len(),
{
    if s.len() == 0 {
        0
    } else {
        digits_value(s.drop_last()) * 10 + (s.last() as int - 48)
    }
}

/// What parsing a string as an unbounded decimal number yields: the
/// denoted value for a non-empty run of digits, nothing otherwise.
pub open spec fn parse_decimal_spec(s: Seq<char>) -> Option<int> {
    if s.len() > 0 && all_digits(s) {
        Some(digits_value(s))
    } else {
        None
    }
}

/// A digit run denotes a non-negative number.
pub proof fn lemma_digits_value_nonneg(s: Seq<char>)
    requires
        all_digits(s),
    ensures
        digits_value(s) >= 0,
    decreases s.len(),
{
    if s.len() > 0 {
        assert(all_digits(s.drop_last()));
        lemma_digits_value_nonneg(s.drop_last());
    }
}

/// A prefix of a digit run never denotes more than the whole run.
pub proof fn lemma_digits_prefix_le(s: Seq<char>, k: int)
    requires
        all_digits(s),
        0 <= k <= s.len(),
    ensures
        digits_value(s.take(k)) <= digits_value(s),
    decreases s.len() - k,
{
    if k < s.len() {
        assert(all_digits(s.take(k + 1)));
        assert(s.take(k + 1).drop_last() =~= s.take(k));
        lemma_digits_value_nonneg(s.take(k));
        lemma_digits_prefix_le(s, k + 1);
    } else {
        assert(s.take(k) =~= s);
    }
}

/// Parses a run of decimal digits; anything else, the empty string, or
/// a value beyond `u64` yields nothing.
pub fn parse_u64(s: &str) -> (r: Option<u64>)
    ensures
        match r {
            Some(v) => parse_decimal_spec(s@) == Some(v as int),
            None => parse_decimal_spec(s@) matches Some(v) ==> v > u64::MAX,
        },
{
    let n = s.unicode_len();
    if n == 0 {
        return None;
    }
    let mut acc: u64 = 0;
    let mut i: usize = 0;
    while i < n
        invariant
            n == s@.len(),
            0 < n,
            i <= n,
            all_digits(s@.take(i as int)),
            acc == digits_value(s@.take(i as int)),
        decreases n - i,
    {
        let c = s.get_char(i);
        let d: u32 = c as u32;
        if d < 48 || d > 57 {
            return None;
        }
        proof {
            assert(all_digits(s@.take(i as int + 1)));
            assert(s@.take(i as int + 1).drop_last() =~= s@.take(i as int));
        }
        let digit: u64 = (d - 48) as u64;
        if acc > (u64::MAX - digit) / 10 {
            proof {
                if all_digits(s@) {
                    lemma_digits_prefix_le(s@, i as int + 1);
                    assert(s@.take(s@.len() as int) =~= s@);
                }
            }
            return None;
        }
        acc = acc * 10 + digit;
        i = i + 1;
    }
    proof {
        assert(s@.take(n as int) =~= s@);
    }
    Some(acc)
}

/// Parses a run of decimal digits into a `u32`.
pub fn parse_u32(s: &str) -> (r: Option<u32>)
    ensures
        match r {
            Some(v) => parse_decimal_spec(s@) == Some(v as int),
            None => parse_decimal_spec(s@) matches Some(v) ==> v > u32::MAX,
        },
{
    match parse_u64(s) {
        Some(v) => {
            if v <= 0xffff_ffffu64 {
                Some(v as u32)
            } else {
                None
            }
        },
        None => None,
    }
}

/// Parses a run of decimal digits into a `usize`.
pub fn parse_usize(s: &str) -> (r: Option<usize>)
    ensures
        match r {
            Some(v) => parse_decimal_spec(s@) == Some(v as int),
            None => parse_decimal_spec(s@) matches Some(v) ==> v > usize::MAX,
        },
{
    match parse_u64(s) {
        Some(v) => {
            if v <= usize::MAX as u64 {
                Some(v as usize)
            } else {
                None
            }
        },
        None => None,
    }
}

/// True for the five ASCII whitespace characters.
pub open spec fn is_ascii_ws(c: char) -> bool {
    c == ' ' || c == '\t' || c == '\n' || c == '\u{c}' || c == '\r'
}

/// The length of the run of non-whitespace characters at the front.
pub open spec fn token_len(s: Seq<char>) -> int
    decreases s.len(),
{
    if s.len() == 0 || is_ascii_ws(s[0]) {
        0
    } else {
        1 + token_len(s.drop_first())
    }
}

/// The front run of non-whitespace characters is never longer than the
/// string.
pub proof fn lemma_token_len_bounds(s: Seq<char>)
    ensures
        0 <= token_len(s) <= s.len(),
    decreases s.len(),
{
    if s.len() == 0 || is_ascii_ws(s[0]) {
    } else {
        lemma_token_len_bounds(s.drop_first());
    }
}

/// The front run is exactly the characters before the first whitespace.
pub proof fn lemma_token_len_eq(t: Seq<char>, k: int)
    requires
        0 <= k <= t.len(),
        forall|m: int| 0 <= m < k ==> !is_ascii_ws(#[trigger] t[m]),
        k == t.len() || is_ascii_ws(t[k]),
    ensures
        token_len(t) == k,
    decreases k,
{
    if k == 0 {
    } else {
        assert(!is_ascii_ws(t[0]));
        lemma_token_len_eq(t.drop_first(), k - 1);
    }
}

/// The maximal runs of non-whitespace characters, in order.
pub open spec fn spec_tokens(s: Seq<char>) -> Seq<Seq<char>>
    decreases s.len(),
    via spec_tokens_dec
{
    if s.len() == 0 {
        Seq::empty()
    } else if is_ascii_ws(s[0]) {
        spec_tokens(s.drop_first())
    } else {
        seq![s.take(token_len(s))] + spec_tokens(s.skip(token_len(s)))
    }
}

#[via_fn]
proof fn spec_tokens_dec(s: Seq<char>) {
    lemma_token_len_bounds(s);
    if s.len() > 0 && !is_ascii_ws(s[0]) {
        lemma_token_len_bounds(s.drop_first());
        assert(token_len(s) == 1 + token_len(s.drop_first()));
    }
}

/// Splits a string at ASCII whitespace into its maximal non-blank runs.
pub fn split_ascii_ws(s: &str) -> (r: Vec<String>)
    ensures
        r@.len() == spec_tokens(s@).len(),
        forall|k: int| 0 <= k < r@.len() ==> (#[trigger] r@[k])@ == spec_tokens(s@)[k],
{
    let n = s.unicode_len();
    let mut r: Vec<String> = Vec::new();
    let ghost mut done: Seq<Seq<char>> = Seq::empty();
    proof {
        assert(s@.skip(0) =~= s@);
        assert(done + spec_tokens(s@) =~= spec_tokens(s@));
    }
    let mut i: usize = 0;
    while i < n
        invariant
            n == s@.len(),
            i <= n,
            r@.len() == done.len(),
            forall|k: int| 0 <= k < r@.len() ==> (#[trigger] r@[k])@ == done[k],
            spec_tokens(s@) == done + spec_tokens(s@.skip(i as int)),
        decreases n - i,
    {
        let c = s.get_char(i);
        if c == ' ' || c == '\t' || c == '\n' || c == '\u{c}' || c == '\r' {
            proof {
                assert(s@.skip(i as int).drop_first() =~= s@.skip(i as int + 1));
            }
            i = i + 1;
        } else {
            let mut j: usize = i + 1;
            let mut more = true;
            while more && j < n
                invariant
                    n == s@.len(),
                    i < j <= n,
                    forall|m: int| i <= m < j ==> !is_ascii_ws(#[trigger] s@[m]),
                    !more ==> j < n && is_ascii_ws(s@[j as int]),
                decreases n - j + if more { 1int } else { 0int },
            {
                let cj = s.get_char(j);
                if cj == ' ' || cj == '\t' || cj == '\n' || cj == '\u{c}' || cj == '\r' {
                    more = false;
                } else {
                    j = j + 1;
                }
            }
            let end = j;
            proof {
                lemma_token_len_eq(s@.skip(i as int), end - i);
                assert(s@.skip(i as int).take(end - i) =~= s@.subrange(i as int, end as int));
                assert(s@.skip(i as int).skip(end - i) =~= s@.skip(end as int));
            }
            let token = s.substring_char(i, end);
            r.push(String::from_str(token));
            proof {
                done = done.push(s@.subrange(i as int, end as int));
                assert(spec_tokens(s@) == done + spec_tokens(s@.skip(end as int)));
            }
            i = end;
            if !more {
                proof {
                    assert(s@.skip(i as int).drop_first() =~= s@.skip(i as int + 1));
                }
                i = i + 1;
            }
        }
    }
    proof {
        assert(spec_tokens(s@.skip(n as int)) =~= Seq::<Seq<char>>::empty());
        assert(spec_tokens(s@) =~= done);
    }
    r
}

/// The index of the first occurrence of `c`, or the length when `c`
/// does not occur.
pub open spec fn idx_of(s: Seq<char>, c: char) -> int
    decreases s.len(),
{
    if s.len() == 0 {
        0
    } else if s[0] == c {
        0
    } else {
        1 + idx_of(s.drop_first(), c)
    }
}

/// Where the first occurrence sits: within the string, on `c`, with no
/// earlier occurrence.
pub proof fn lemma_idx_of_props(s: Seq<char>, c: char)
    ensures
        0 <= idx_of(s, c) <= s.len(),
        idx_of(s, c) < s.len() ==> s[idx_of(s, c)] == c,
        forall|m: int| 0 <= m < idx_of(s, c) ==> #[trigger] s[m] != c,
    decreases s.len(),
{
    if s.len() == 0 || s[0] == c {
    } else {
        lemma_idx_of_props(s.drop_first(), c);
        assert forall|m: int| 0 <= m < idx_of(s, c) implies #[trigger] s[m] != c by {
            if m > 0 {
                assert(s.drop_first()[m - 1] != c);
            }
        }
    }
}

/// A scan that stopped at `k` found the first occurrence.
pub proof fn lemma_idx_of_eq(s: Seq<char>, c: char, k: int)
    requires
        0 <= k <= s.len(),
        forall|m: int| 0 <= m < k ==> #[trigger] s[m] != c,
        k == s.len() || s[k] == c,
    ensures
        idx_of(s, c) == k,
    decreases k,
{
    if k == 0 {
    } else {
        assert(s[0] != c);
        lemma_idx_of_eq(s.drop_first(), c, k - 1);
    }
}

/// Finds the first occurrence of `c`, or the length when it is absent.
pub fn find_first(s: &str, c: char) -> (i: usize)
    ensures
        i == idx_of(s@, c),
{
    let n = s.unicode_len();
    let mut i: usize = 0;
    while i < n
        invariant
            n == s@.len(),
            i <= n,
            forall|m: int| 0 <= m < i ==> #[trigger] s@[m] != c,
        decreases n - i,
    {
        if s.get_char(i) == c {
            proof {
                lemma_idx_of_eq(s@, c, i as int);
            }
            return i;
        }
        i = i + 1;
    }
    proof {
        lemma_idx_of_eq(s@, c, n as int);
    }
    n
}

/// True for the characters a word is made of: ASCII letters, digits
/// and the underscore.
pub open spec fn is_word_char(c: char) -> bool {
    (48 <= c as int <= 57) || (65 <= c as int <= 90) || (97 <= c as int <= 122) || c == '_'
}

/// `sub` sits at position `i` of `s`.
pub open spec fn match_at(s: Seq<char>, sub: Seq<char>, i: int) -> bool {
    0 <= i && i + sub.len() <= s.len() && s.subrange(i, i + sub.len() as int) == sub
}

/// When a word boundary is asked for, position `i` starts the string or
/// follows a non-word character.
pub open spec fn boundary_ok(s: Seq<char>, i: int, bword: bool) -> bool {
    !bword || i == 0 || !is_word_char(s[i - 1])
}

/// The leftmost position at or after `i` where `sub` occurs (with a
/// word boundary before it, when asked).
pub open spec fn find_sub_spec(s: Seq<char>, sub: Seq<char>, i: int, bword: bool) -> Option<int>
    decreases s.len() - i,
    when 0 <= i && sub.len() > 0
{
    if i + sub.len() > s.len() {
        None
    } else if match_at(s, sub, i) && boundary_ok(s, i, bword) {
        Some(i)
    } else {
        find_sub_spec(s, sub, i + 1, bword)
    }
}

/// A scan that found nothing before `k` may as well start at `k`.
pub proof fn lemma_find_sub_from(s: Seq<char>, sub: Seq<char>, from: int, k: int, bword: bool)
    requires
        sub.len() > 0,
        0 <= from <= k,
        forall|j: int|
            from <= j < k ==> !(match_at(s, sub, j) && boundary_ok(s, j, bword)),
    ensures
        find_sub_spec(s, sub, from, bword) == find_sub_spec(s, sub, k, bword),
    decreases k - from,
{
    if from < k {
        lemma_find_sub_from(s, sub, from + 1, k, bword);
    }
}

/// Finds the leftmost occurrence of `needle` (preceded by a word
/// boundary, when asked).
pub fn find_sub(s: &str, needle: &str, bword: bool) -> (r: Option<usize>)
    requires
        needle@.len() > 0,
    ensures
        match r {
            Some(i) => find_sub_spec(s@, needle@, 0, bword) == Some(i as int) && match_at(
                s@,
                needle@,
                i as int,
            ),
            None => find_sub_spec(s@, needle@, 0, bword) is None,
        },
{
    let n = s.unicode_len();
    let ln = needle.unicode_len();
    if ln > n {
        return None;
    }
    let mut i: usize = 0;
    while i <= n - ln
        invariant
            n == s@.len(),
            ln == needle@.len(),
            0 < ln <= n,
            i <= n - ln + 1,
            forall|j: int|
                0 <= j < i ==> !(match_at(s@, needle@, j) && boundary_ok(s@, j, bword)),
        decreases n + 1 - ln - i,
    {
        let mut boundary = true;
        if bword && i > 0 {
            let before = s.get_char(i - 1);
            let code: u32 = before as u32;
            if (48 <= code && code <= 57) || (65 <= code && code <= 90) || (97 <= code && code
                <= 122) || before == '_' {
                boundary = false;
            }
        }
        if boundary {
            let mut j: usize = 0;
            let mut matched = true;
            while matched && j < ln
                invariant
                    n == s@.len(),
                    ln == needle@.len(),
                    i + ln <= n,
                    j <= ln,
                    matched ==> forall|m: int| 0 <= m < j ==> s@[i + m] == needle@[m],
                    !matched ==> s@.subrange(i as int, i + ln as int) != needle@,
                decreases ln - j + if matched { 1int } else { 0int },
            {
                let ca = s.get_char(i + j);
                let cb = needle.get_char(j);
                if ca != cb {
                    proof {
                        assert(s@.subrange(i as int, i + ln as int)[j as int] == s@[i + j]);
                    }
                    matched = false;
                } else {
                    j = j + 1;
                }
            }
            if matched {
                proof {
                    assert(s@.subrange(i as int, i + ln as int) =~= needle@);
                    lemma_find_sub_from(s@, needle@, 0, i as int, bword);
                }
                return Some(i);
            }
        }
        i = i + 1;
    }
    proof {
        lemma_find_sub_from(s@, needle@, 0, i as int, bword);
    }
    None
}

/// The rightmost position before `upto` where `c` occurs.
pub open spec fn find_last_spec(s: Seq<char>, c: char, upto: int) -> Option<int>
    decreases upto,
    when upto <= s.len()
{
    if upto <= 0 {
        None
    } else if s[upto - 1] == c {
        Some(upto - 1)
    } else {
        find_last_spec(s, c, upto - 1)
    }
}

/// Finds the rightmost occurrence of `c`.
pub fn find_last(s: &str, c: char) -> (r: Option<usize>)
    ensures
        match r {
            Some(i) => find_last_spec(s@, c, s@.len() as int) == Some(i as int) && i < s@.len()
                && s@[i as int] == c,
            None => find_last_spec(s@, c, s@.len() as int) is None,
        },
{
    let n = s.unicode_len();
    let mut j: usize = n;
    while j > 0
        invariant
            n == s@.len(),
            j <= n,
            find_last_spec(s@, c, n as int) == find_last_spec(s@, c, j as int),
        decreases j,
    {
        if s.get_char(j - 1) == c {
            return Some(j - 1);
        }
        j = j - 1;
    }
    None
}

/// `p` is how `s` begins.
pub open spec fn starts_with_spec(s: Seq<char>, p: Seq<char>) -> bool {
    p.len() <= s.len() && s.take(p.len() as int) == p
}

/// Does `s` begin with `p`?
pub fn str_starts_with(s: &str, p: &str) -> (r: bool)
    ensures
        r == starts_with_spec(s@, p@),
{
    let n = s.unicode_len();
    let lp = p.unicode_len();
    if lp > n {
        return false;
    }
    let mut i: usize = 0;
    while i < lp
        invariant
            n == s@.len(),
            lp == p@.len(),
            lp <= n,
            i <= lp,
            forall|j: int| 0 <= j < i ==> s@[j] == p@[j],
        decreases lp - i,
    {
        if s.get_char(i) != p.get_char(i) {
            proof {
                assert(s@.take(p@.len() as int)[i as int] == s@[i as int]);
            }
            return false;
        }
        i = i + 1;
    }
    proof {
        assert(s@.take(p@.len() as int) =~= p@);
    }
    true
}

/// `s` begins with `p` followed immediately by a decimal digit.
pub open spec fn prefix_then_digit(s: Seq<char>, p: Seq<char>) -> bool {
    starts_with_spec(s, p) && p.len() < s.len() && 48 <= s[p.len() as int] as int <= 57
}

/// Does `s` begin with `p` followed immediately by a decimal digit?
pub fn str_prefix_then_digit(s: &str, p: &str) -> (r: bool)
    ensures
        r == prefix_then_digit(s@, p@),
{
    if !str_starts_with(s, p) {
        return false;
    }
    let n = s.unicode_len();
    let lp = p.unicode_len();
    if lp >= n {
        return false;
    }
    let c = s.get_char(lp);
    let code: u32 = c as u32;
    48 <= code && code <= 57
}

/// A character, ASCII letters taken to lower case.
pub open spec fn lower_char(c: char) -> char {
    if 65 <= c as int <= 90 {
        (((c as u8) + 32) as char)
    } else {
        c
    }
}

/// A string, ASCII letters taken to lower case.
pub open spec fn ascii_lower(s: Seq<char>) -> Seq<char> {
    s.map_values(|c: char| lower_char(c))
}

/// Does `a`, ASCII letters taken to lower case, read exactly `b`?
pub fn ascii_lower_eq(a: &str, b: &str) -> (r: bool)
    ensures
        r == (ascii_lower(a@) == b@),
{
    let la = a.unicode_len();
    let lb = b.unicode_len();
    if la != lb {
        return false;
    }
    let mut i: usize = 0;
    while i < la
        invariant
            la == a@.len(),
            lb == b@.len(),
            la == lb,
            i <= la,
            forall|j: int| 0 <= j < i ==> ascii_lower(a@)[j] == b@[j],
        decreases la - i,
    {
        let ca = a.get_char(i);
        let code: u32 = ca as u32;
        let lowered: char = if 65 <= code && code <= 90 {
            (((ca as u8) + 32) as char)
        } else {
            ca
        };
        let cb = b.get_char(i);
        if lowered != cb {
            proof {
                assert(ascii_lower(a@)[i as int] == lower_char(a@[i as int]));
            }
            return false;
        }
        i = i + 1;
    }
    proof {
        assert(ascii_lower(a@) =~= b@);
    }
    true
}

/// Renders a number in decimal.
pub fn u64_to_string(n: u64) -> (s: String)
    ensures
        s@ == dec_digits(n as int),
    decreases n,
{
    if n < 10 {
        String::from_str(digit_str(n))
    } else {
        let mut s = u64_to_string(n / 10);
        s.append(digit_str(n % 10));
        proof {
            assert(s@ =~= dec_digits(n as int));
        }
        s
    }
}

/// Renders a number in decimal, zero-padded to at least two characters.
pub fn u64_to_string_pad2(n: u64) -> (s: String)
    ensures
        s@ == dec_digits_pad2(n as int),
{
    if n < 10 {
        let mut s = String::from_str("0");
        s.append(digit_str(n));
        proof {
            reveal_strlit("0");
            assert(s@ =~= dec_digits_pad2(n as int));
        }
        s
    } else {
        u64_to_string(n)
    }
}

} // verus!
