//! Text operations on `str` and byte values, stated over sequences.

use vstd::prelude::*;

verus! {

/// The characters of `s`, in order.
pub(crate) fn chars_of(s: &str) -> (v: Vec<char>)
    ensures
        v@ == s@,
{
    let mut v: Vec<char> = Vec::new();
    for c in iter: s.chars()
        invariant
            iter.seq() == s@,
            v@ == s@.take(iter.index()),
    {
        v.push(c);
    }
    v
}

// ---------------------------------------------------------------------------
// Trimming
// ---------------------------------------------------------------------------

/// The code points with the Unicode property `White_Space`.
pub open spec fn is_white_space(c: char) -> bool {
    ||| '\u{9}' <= c <= '\u{d}'
    ||| c == '\u{20}'
    ||| c == '\u{85}'
    ||| c == '\u{a0}'
    ||| c == '\u{1680}'
    ||| '\u{2000}' <= c <= '\u{200a}'
    ||| c == '\u{2028}'
    ||| c == '\u{2029}'
    ||| c == '\u{202f}'
    ||| c == '\u{205f}'
    ||| c == '\u{3000}'
}

fn white_space(c: char) -> (r: bool)
    ensures
        r == is_white_space(c),
{
    ('\u{9}' <= c && c <= '\u{d}') || c == '\u{20}' || c == '\u{85}' || c == '\u{a0}'
        || c == '\u{1680}' || ('\u{2000}' <= c && c <= '\u{200a}') || c == '\u{2028}'
        || c == '\u{2029}' || c == '\u{202f}' || c == '\u{205f}' || c == '\u{3000}'
}

/// `s` without its leading white space.
pub open spec fn trim_start(s: Seq<char>) -> Seq<char>
    decreases s.len(),
{
    if s.len() > 0 && is_white_space(s[0]) {
        trim_start(s.skip(1))
    } else {
        s
    }
}

/// `s` without its trailing white space.
pub open spec fn trim_end(s: Seq<char>) -> Seq<char>
    decreases s.len(),
{
    if s.len() > 0 && is_white_space(s.last()) {
        trim_end(s.drop_last())
    } else {
        s
    }
}

/// `s` without leading and trailing white space.
pub open spec fn trimmed(s: Seq<char>) -> Seq<char> {
    trim_end(trim_start(s))
}

/// What trimming leaves neither starts nor ends with white space.
pub proof fn lemma_trimmed_ends(s: Seq<char>)
    ensures
        trimmed(s).len() > 0 ==> !is_white_space(trimmed(s)[0]) && !is_white_space(
            trimmed(s).last(),
        ),
        trimmed(s).len() <= s.len(),
{
    lemma_trim_start_head(s);
    lemma_trim_end_last(trim_start(s));
}

proof fn lemma_trim_start_head(s: Seq<char>)
    ensures
        trim_start(s).len() > 0 ==> !is_white_space(trim_start(s)[0]),
        trim_start(s).len() <= s.len(),
    decreases s.len(),
{
    if s.len() > 0 && is_white_space(s[0]) {
        lemma_trim_start_head(s.skip(1));
    }
}

proof fn lemma_trim_end_last(s: Seq<char>)
    ensures
        trim_end(s).len() > 0 ==> !is_white_space(trim_end(s).last()) && trim_end(s)[0] == s[0],
        trim_end(s).len() <= s.len(),
    decreases s.len(),
{
    if s.len() > 0 && is_white_space(s.last()) {
        lemma_trim_end_last(s.drop_last());
    }
}

/// White space before and behind a text that neither starts nor ends with it is
/// what trimming takes away, and all that it takes away.
pub proof fn law_trimming_removes_outer_white_space(
    before: Seq<char>,
    core: Seq<char>,
    behind: Seq<char>,
)
    requires
        forall|i: int| 0 <= i < before.len() ==> is_white_space(#[trigger] before[i]),
        forall|i: int| 0 <= i < behind.len() ==> is_white_space(#[trigger] behind[i]),
        core.len() > 0 ==> !is_white_space(core[0]) && !is_white_space(core.last()),
    ensures
        trimmed(before + core + behind) == core,
{
    lemma_trim_start_skips(before, core + behind);
    assert(before + (core + behind) =~= before + core + behind);
    if core.len() > 0 {
        assert((core + behind)[0] == core[0]);
        lemma_trim_end_skips(core, behind);
    } else {
        assert(core + behind =~= behind);
        assert(behind + Seq::<char>::empty() =~= behind);
        lemma_trim_start_skips(behind, Seq::empty());
        assert(core =~= Seq::<char>::empty());
    }
}

proof fn lemma_trim_start_skips(before: Seq<char>, s: Seq<char>)
    requires
        forall|i: int| 0 <= i < before.len() ==> is_white_space(#[trigger] before[i]),
    ensures
        trim_start(before + s) == trim_start(s),
    decreases before.len(),
{
    if before.len() > 0 {
        assert((before + s)[0] == before[0]);
        assert((before + s).skip(1) =~= before.skip(1) + s);
        lemma_trim_start_skips(before.skip(1), s);
    } else {
        assert(before + s =~= s);
    }
}

proof fn lemma_trim_end_skips(s: Seq<char>, behind: Seq<char>)
    requires
        forall|i: int| 0 <= i < behind.len() ==> is_white_space(#[trigger] behind[i]),
    ensures
        trim_end(s + behind) == trim_end(s),
    decreases behind.len(),
{
    if behind.len() > 0 {
        assert((s + behind).last() == behind.last());
        assert((s + behind).drop_last() =~= s + behind.drop_last());
        lemma_trim_end_skips(s, behind.drop_last());
    } else {
        assert(s + behind =~= s);
    }
}

/// Every text is what trimming leaves of it, between white space.
pub proof fn law_trimmed_stands_in_the_text(s: Seq<char>)
    ensures
        exists|i: int, j: int|
            #![trigger s.subrange(i, j)]
            0 <= i <= j <= s.len() && s.subrange(i, j) == trimmed(s) && (forall|k: int|
                0 <= k < i || j <= k < s.len() ==> is_white_space(#[trigger] s[k])),
{
    let i = lemma_trim_start_is_suffix(s);
    let t = s.skip(i);
    let n = lemma_trim_end_is_prefix(t);
    assert(s.subrange(i, i + n) =~= t.take(n));
    assert forall|k: int| 0 <= k < i || i + n <= k < s.len() implies is_white_space(
        #[trigger] s[k],
    ) by {
        if k >= i + n {
            assert(t[k - i] == s[k]);
        }
    }
}

proof fn lemma_trim_start_is_suffix(s: Seq<char>) -> (i: int)
    ensures
        0 <= i <= s.len(),
        trim_start(s) == s.skip(i),
        forall|k: int| 0 <= k < i ==> is_white_space(#[trigger] s[k]),
    decreases s.len(),
{
    if s.len() > 0 && is_white_space(s[0]) {
        let j = lemma_trim_start_is_suffix(s.skip(1));
        assert(s.skip(1).skip(j) =~= s.skip(j + 1));
        assert forall|k: int| 0 <= k < j + 1 implies is_white_space(#[trigger] s[k]) by {
            if k > 0 {
                assert(s.skip(1)[k - 1] == s[k]);
            }
        }
        j + 1
    } else {
        assert(s.skip(0) =~= s);
        0
    }
}

proof fn lemma_trim_end_is_prefix(s: Seq<char>) -> (n: int)
    ensures
        0 <= n <= s.len(),
        trim_end(s) == s.take(n),
        forall|k: int| n <= k < s.len() ==> is_white_space(#[trigger] s[k]),
    decreases s.len(),
{
    if s.len() > 0 && is_white_space(s.last()) {
        let n = lemma_trim_end_is_prefix(s.drop_last());
        assert(s.drop_last().take(n) =~= s.take(n));
        assert forall|k: int| n <= k < s.len() implies is_white_space(#[trigger] s[k]) by {
            if k < s.len() - 1 {
                assert(s.drop_last()[k] == s[k]);
            }
        }
        n
    } else {
        assert(s.take(s.len() as int) =~= s);
        s.len() as int
    }
}

/// White space is, by code point, the five controls from the tabulator on, the
/// blank, the next line, and the spaces and separators beyond ASCII.
pub proof fn law_white_space_code_points(c: char)
    ensures
        is_white_space(c) <==> {
            let n = c as u32;
            ||| 9 <= n <= 13
            ||| 0x2000 <= n <= 0x200a
            ||| n == 0x20 || n == 0x85 || n == 0xa0 || n == 0x1680 || n == 0x2028 || n == 0x2029
                || n == 0x202f || n == 0x205f || n == 0x3000
        },
{
}

/// `s` without leading and trailing white space.
pub(crate) fn trim(s: &str) -> (r: String)
    ensures
        r@ == trimmed(s@),
{
    let v = chars_of(s);
    let mut from: usize = 0;
    assert(s@.skip(0) =~= s@);
    while from < v.len() && white_space(v[from])
        invariant
            v@ == s@,
            from <= v.len(),
            trim_start(s@) == trim_start(s@.skip(from as int)),
        decreases v.len() - from,
    {
        assert(s@.skip(from as int).skip(1) =~= s@.skip(from + 1));
        from = from + 1;
    }
    let mut to: usize = v.len();
    let ghost t = s@.skip(from as int);
    assert(t.take(to - from) =~= t);
    while from < to && white_space(v[to - 1])
        invariant
            v@ == s@,
            from <= to <= v.len(),
            t == s@.skip(from as int),
            trim_end(t) == trim_end(t.take(to - from)),
        decreases to,
    {
        assert(t.take(to - from).drop_last() =~= t.take(to - 1 - from));
        to = to - 1;
    }
    assert(t.take(to - from) =~= s@.subrange(from as int, to as int));
    s.substring_char(from, to).to_owned()
}

// ---------------------------------------------------------------------------
// Prefixes and equality
// ---------------------------------------------------------------------------

/// Whether `s` starts with `prefix`.
pub(crate) fn starts_with(s: &str, prefix: &str) -> (r: bool)
    ensures
        r == prefix@.is_prefix_of(s@),
{
    let v = chars_of(s);
    let p = chars_of(prefix);
    if p.len() > v.len() {
        return false;
    }
    let mut i: usize = 0;
    while i < p.len()
        invariant
            v@ == s@,
            p@ == prefix@,
            i <= p.len() <= v.len(),
            forall|j: int| 0 <= j < i ==> p[j] == v[j],
        decreases p.len() - i,
    {
        if p[i] != v[i] {
            assert(s@.subrange(0, prefix@.len() as int)[i as int] != prefix@[i as int]);
            return false;
        }
        i = i + 1;
    }
    assert(prefix@ =~= s@.subrange(0, prefix@.len() as int));
    true
}

/// What follows `prefix` in `s`, or `None` where `s` does not start with it.
pub(crate) fn strip_prefix(s: &str, prefix: &str) -> (r: Option<String>)
    ensures
        r is Some <==> prefix@.is_prefix_of(s@),
        r matches Some(rest) ==> s@ == prefix@ + rest@,
{
    if !starts_with(s, prefix) {
        return None;
    }
    let n: usize = prefix.unicode_len();
    let len: usize = s.unicode_len();
    let rest = s.substring_char(n, len).to_owned();
    assert(s@ =~= prefix@ + rest@);
    Some(rest)
}

/// Whether the two texts are the same.
pub(crate) fn same(a: &str, b: &str) -> (r: bool)
    ensures
        r == (a@ == b@),
{
    let v = chars_of(a);
    let w = chars_of(b);
    if v.len() != w.len() {
        return false;
    }
    let mut i: usize = 0;
    while i < v.len()
        invariant
            v@ == a@,
            w@ == b@,
            i <= v.len() == w.len(),
            forall|j: int| 0 <= j < i ==> v[j] == w[j],
        decreases v.len() - i,
    {
        if v[i] != w[i] {
            return false;
        }
        i = i + 1;
    }
    assert(a@ =~= b@);
    true
}

// ---------------------------------------------------------------------------
// ASCII case
// ---------------------------------------------------------------------------

/// `c` with an ASCII capital letter made small; any other character as it is.
pub open spec fn ascii_lower(c: char) -> char {
    if 'A' <= c <= 'Z' {
        (c as u32 + 32) as char
    } else {
        c
    }
}

/// `s` with each ASCII capital letter made small.
pub open spec fn ascii_lowercase(s: Seq<char>) -> Seq<char> {
    s.map_values(|c: char| ascii_lower(c))
}

fn lower(c: char) -> (r: char)
    ensures
        r == ascii_lower(c),
{
    if 'A' <= c && c <= 'Z' {
        ((c as u8) + 32) as char
    } else {
        c
    }
}

/// The characters of `s` with each ASCII capital letter made small.
pub(crate) fn lowercase_chars(s: &str) -> (r: Vec<char>)
    ensures
        r@ == ascii_lowercase(s@),
{
    let v = chars_of(s);
    let mut r: Vec<char> = Vec::new();
    let mut i: usize = 0;
    while i < v.len()
        invariant
            v@ == s@,
            i <= v.len(),
            r@ == ascii_lowercase(s@.take(i as int)),
        decreases v.len() - i,
    {
        r.push(lower(v[i]));
        i = i + 1;
        assert(s@.take(i as int).drop_last() =~= s@.take(i - 1));
    }
    assert(s@.take(i as int) =~= s@);
    r
}

/// Whether the two texts are the same once ASCII capital letters are made small.
pub(crate) fn eq_ignore_ascii_case(a: &str, b: &str) -> (r: bool)
    ensures
        r == (ascii_lowercase(a@) == ascii_lowercase(b@)),
{
    let v = lowercase_chars(a);
    let w = lowercase_chars(b);
    if v.len() != w.len() {
        return false;
    }
    let mut i: usize = 0;
    while i < v.len()
        invariant
            v@ == ascii_lowercase(a@),
            w@ == ascii_lowercase(b@),
            i <= v.len() == w.len(),
            forall|j: int| 0 <= j < i ==> v[j] == w[j],
        decreases v.len() - i,
    {
        if v[i] != w[i] {
            return false;
        }
        i = i + 1;
    }
    assert(v@ =~= w@);
    true
}

/// Two texts are the same, ASCII case aside, just where they are of one length
/// and agree at every position, or differ there by a capital letter and its
/// small one.
pub proof fn law_same_but_for_ascii_case(a: Seq<char>, b: Seq<char>)
    ensures
        ascii_lowercase(a) == ascii_lowercase(b) <==> (a.len() == b.len() && forall|i: int|
            0 <= i < a.len() ==> differ_in_case_at_most(#[trigger] a[i], b[i])),
{
    let v = ascii_lowercase(a);
    let w = ascii_lowercase(b);
    if v == w {
        assert(a.len() == v.len() && b.len() == w.len());
        assert forall|i: int| 0 <= i < a.len() implies differ_in_case_at_most(
            #[trigger] a[i],
            b[i],
        ) by {
            assert(v[i] == ascii_lower(a[i]) && w[i] == ascii_lower(b[i]));
            lemma_ascii_lower(a[i], b[i]);
        }
    }
    if a.len() == b.len() && forall|i: int|
        0 <= i < a.len() ==> differ_in_case_at_most(#[trigger] a[i], b[i]) {
        assert forall|i: int| 0 <= i < a.len() implies v[i] == w[i] by {
            assert(differ_in_case_at_most(a[i], b[i]));
            lemma_ascii_lower(a[i], b[i]);
        }
        assert(v =~= w);
    }
}

/// Whether the characters are the same, or one is an ASCII capital letter and
/// the other the small letter 32 code points above it.
pub open spec fn differ_in_case_at_most(c: char, d: char) -> bool {
    let m = c as u32;
    let n = d as u32;
    m == n || (65 <= m <= 90 && n == m + 32) || (65 <= n <= 90 && m == n + 32)
}

proof fn lemma_ascii_lower(c: char, d: char)
    ensures
        ascii_lower(c) == ascii_lower(d) <==> differ_in_case_at_most(c, d),
{
    lemma_ascii_lower_code(c);
    lemma_ascii_lower_code(d);
}

proof fn lemma_ascii_lower_code(c: char)
    ensures
        ascii_lower(c) as u32 == (if 65 <= c as u32 <= 90 {
            c as u32 + 32
        } else {
            c as u32 as int
        }),
{
}

// ---------------------------------------------------------------------------
// Occurrence
// ---------------------------------------------------------------------------

/// Whether `needle` stands in `hay` at position `i`.
pub open spec fn occurs_at<T>(hay: Seq<T>, needle: Seq<T>, i: int) -> bool {
    0 <= i <= hay.len() - needle.len() && hay.subrange(i, i + needle.len()) == needle
}

/// Whether `needle` stands in `hay` somewhere.
pub open spec fn occurs<T>(hay: Seq<T>, needle: Seq<T>) -> bool {
    exists|i: int| occurs_at(hay, needle, i)
}

/// One text stands in another just where the other is it with something, or
/// nothing, before and behind.
pub proof fn law_occurs_between_parts<T>(hay: Seq<T>, needle: Seq<T>)
    ensures
        occurs(hay, needle) <==> exists|before: Seq<T>, behind: Seq<T>|
            hay == #[trigger] (before + needle + behind),
{
    if occurs(hay, needle) {
        let i = choose|i: int| occurs_at(hay, needle, i);
        let before = hay.take(i);
        let behind = hay.skip(i + needle.len());
        assert(hay.subrange(i, i + needle.len()) == needle);
        assert(hay =~= before + needle + behind);
    }
    if exists|before: Seq<T>, behind: Seq<T>| hay == #[trigger] (before + needle + behind) {
        let (before, behind) = choose|before: Seq<T>, behind: Seq<T>|
            hay == #[trigger] (before + needle + behind);
        let i = before.len() as int;
        assert(hay.subrange(i, i + needle.len()) =~= needle);
        assert(occurs_at(hay, needle, i));
    }
}

fn occurs_bytes_at(hay: &Vec<u8>, needle: &Vec<u8>, i: usize) -> (r: bool)
    requires
        i + needle.len() <= hay.len(),
    ensures
        r == occurs_at(hay@, needle@, i as int),
{
    let mut j: usize = 0;
    while j < needle.len()
        invariant
            j <= needle.len(),
            i + needle.len() <= hay.len(),
            forall|k: int| 0 <= k < j ==> hay[i + k] == needle[k],
        decreases needle.len() - j,
    {
        if hay[i + j] != needle[j] {
            assert(hay@.subrange(i as int, i + needle.len())[j as int] != needle@[j as int]);
            return false;
        }
        j = j + 1;
    }
    assert(hay@.subrange(i as int, i + needle.len()) =~= needle@);
    true
}

/// Whether the bytes `needle` stand in a row somewhere in `hay`.
pub(crate) fn contains_bytes(hay: &Vec<u8>, needle: &Vec<u8>) -> (r: bool)
    ensures
        r == occurs(hay@, needle@),
{
    if needle.len() > hay.len() {
        return false;
    }
    let last: usize = hay.len() - needle.len();
    let mut i: usize = 0;
    while i <= last
        invariant
            last == hay.len() - needle.len(),
            i <= last + 1,
            forall|k: int| 0 <= k < i ==> !occurs_at(hay@, needle@, k),
        decreases last + 1 - i,
    {
        if occurs_bytes_at(hay, needle, i) {
            return true;
        }
        if i == last {
            return false;
        }
        i = i + 1;
    }
    false
}

// ---------------------------------------------------------------------------
// Decimal numbers
// ---------------------------------------------------------------------------

/// The character of the decimal digit `d`.
pub open spec fn digit(d: nat) -> char {
    (48 + d) as char
}

/// `n` in decimal, without leading zeros.
pub open spec fn decimal(n: nat) -> Seq<char>
    decreases n,
{
    if n < 10 {
        seq![digit(n)]
    } else {
        decimal(n / 10).push(digit(n % 10))
    }
}

fn digit_text(d: u64) -> (r: &'static str)
    requires
        d < 10,
    ensures
        r@ == seq![digit(d as nat)],
{
    proof {
        reveal_strlit("0");
        reveal_strlit("1");
        reveal_strlit("2");
        reveal_strlit("3");
        reveal_strlit("4");
        reveal_strlit("5");
        reveal_strlit("6");
        reveal_strlit("7");
        reveal_strlit("8");
        reveal_strlit("9");
    }
    match d {
        0 => "0",
        1 => "1",
        2 => "2",
        3 => "3",
        4 => "4",
        5 => "5",
        6 => "6",
        7 => "7",
        8 => "8",
        _ => "9",
    }
}

/// `n` in decimal, without leading zeros.
pub(crate) fn decimal_string(n: u64) -> (r: String)
    ensures
        r@ == decimal(n as nat),
    decreases n,
{
    if n < 10 {
        digit_text(n).to_owned()
    } else {
        let mut s = decimal_string(n / 10);
        s.append(digit_text(n % 10));
        assert(s@ =~= decimal(n as nat));
        s
    }
}

/// Different numbers have different decimal texts.
pub proof fn lemma_decimal_injective(m: nat, n: nat)
    requires
        decimal(m) == decimal(n),
    ensures
        m == n,
    decreases m,
{
    lemma_decimal_len(m / 10);
    lemma_decimal_len(n / 10);
    if m < 10 && n < 10 {
        assert(decimal(m) == seq![digit(m)] && decimal(n) == seq![digit(n)]);
        assert(decimal(m)[0] == digit(m) && decimal(n)[0] == digit(n));
        assert(digit(m) as int == 48 + m && digit(n) as int == 48 + n);
    } else if m < 10 {
        assert(decimal(m).len() == 1 && decimal(n).len() > 1);
    } else if n < 10 {
        assert(decimal(n).len() == 1 && decimal(m).len() > 1);
    } else {
        assert(digit(m % 10) as int == 48 + m % 10);
        assert(digit(n % 10) as int == 48 + n % 10);
        assert(decimal(m).last() == digit(m % 10) && decimal(n).last() == digit(n % 10));
        assert(decimal(m).drop_last() =~= decimal(m / 10));
        assert(decimal(n).drop_last() =~= decimal(n / 10));
        lemma_decimal_injective(m / 10, n / 10);
    }
}

/// The number that a row of decimal digits stands for.
pub open spec fn number_of(digits: Seq<char>) -> int
    decreases digits.len(),
{
    if digits.len() == 0 {
        0
    } else {
        10 * number_of(digits.drop_last()) + (digits.last() as int - '0' as int)
    }
}

/// The decimal text of a number consists of digits, starts with a zero only
/// where the number is zero, and stands for that number.
pub proof fn law_decimal_reads_back(n: nat)
    ensures
        number_of(decimal(n)) == n,
        forall|i: int| 0 <= i < decimal(n).len() ==> '0' <= #[trigger] decimal(n)[i] <= '9',
        decimal(n).len() > 0,
        decimal(n)[0] == '0' ==> n == 0 && decimal(n).len() == 1,
    decreases n,
{
    assert(digit(n % 10) as int == 48 + n % 10);
    if n < 10 {
        assert(decimal(n) =~= seq![digit(n)]);
        assert(decimal(n).drop_last() =~= Seq::empty());
        reveal_with_fuel(number_of, 2);
    } else {
        law_decimal_reads_back(n / 10);
        assert(decimal(n).drop_last() =~= decimal(n / 10));
        assert(decimal(n).last() == digit(n % 10));
        assert forall|i: int| 0 <= i < decimal(n).len() implies '0' <= #[trigger] decimal(n)[i]
            <= '9' by {
            if i < decimal(n).len() - 1 {
                assert(decimal(n)[i] == decimal(n / 10)[i]);
            }
        }
        assert(decimal(n)[0] == decimal(n / 10)[0]);
    }
}

proof fn lemma_decimal_len(n: nat)
    ensures
        decimal(n).len() > 0,
    decreases n,
{
    if n >= 10 {
        lemma_decimal_len(n / 10);
    }
}

} // verus!
