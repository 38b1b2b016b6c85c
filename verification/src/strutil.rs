//! String helpers shared by the whole library: trusted wrappers around the
//! few standard string operations that vstd gives no specification, names for
//! their results where the exact result cannot be stated shortly, and fully
//! verified helpers (substring search, suffix test, decimal rendering).

use vstd::prelude::*;
use vstd::string::*;

verus! {

/// What `str::trim` returns for a given character sequence.
pub uninterp spec fn trim_of(s: Seq<char>) -> Seq<char>;

/// What `str::to_lowercase` returns for a given character sequence.
pub uninterp spec fn lower_of(s: Seq<char>) -> Seq<char>;

/// Relies on `str::trim`: removes leading and trailing whitespace, so the
/// result is no longer than the input and an empty input stays empty.
#[verifier::external_body]
pub fn trimmed(s: &str) -> (r: String)
    ensures
        r@ == trim_of(s@),
        r@.len() <= s@.len(),
        s@.len() == 0 ==> r@.len() == 0,
{
    s.trim().to_owned()
}

/// Relies on `str::to_lowercase`: the result depends on the input characters
/// alone; an empty input stays empty.
#[verifier::external_body]
pub fn lowercase(s: &str) -> (r: String)
    ensures
        r@ == lower_of(s@),
        s@.len() == 0 ==> r@.len() == 0,
{
    s.to_lowercase()
}

/// Relies on `String::push`: appends the given character to the end.
#[verifier::external_body]
pub fn push_char(s: &mut String, c: char)
    ensures
        final(s)@ == old(s)@.push(c),
{
    s.push(c);
}

/// Relies on `String::pop`: removes and returns the last character, or
/// returns `None` and leaves the string alone when it is empty.
#[verifier::external_body]
pub fn pop_char(s: &mut String) -> (r: Option<char>)
    ensures
        old(s)@.len() == 0 ==> r is None && final(s)@ == old(s)@,
        old(s)@.len() > 0 ==> r == Some(old(s)@.last()) && final(s)@ == old(s)@.drop_last(),
{
    s.pop()
}

/// Whether two string slices hold the same characters.
pub fn str_eq(a: &str, b: &str) -> (r: bool)
    ensures
        r == (a@ == b@),
{
    let a_len = a.unicode_len();
    let b_len = b.unicode_len();
    if a_len != b_len {
        assert(a@ != b@) by {
            assert(a@.len() != b@.len());
        }
        return false;
    }
    let mut i: usize = 0;
    while i < a_len
        invariant
            a_len == a@.len(),
            b_len == b@.len(),
            a_len == b_len,
            i <= a_len,
            forall|k: int| 0 <= k < i ==> a@[k] == b@[k],
        decreases a_len - i,
    {
        if a.get_char(i) != b.get_char(i) {
            return false;
        }
        i += 1;
    }
    proof {
        assert(a@ =~= b@);
    }
    true
}

/// `needle` occurs in `hay` starting at index `i`.
pub open spec fn matches_at(hay: Seq<char>, needle: Seq<char>, i: int) -> bool {
    0 <= i && i + needle.len() <= hay.len() && hay.subrange(i, i + needle.len()) == needle
}

/// `needle` occurs somewhere in `hay`.
pub open spec fn is_substring_of(needle: Seq<char>, hay: Seq<char>) -> bool {
    exists|i: int| matches_at(hay, needle, i)
}

/// Whether `hay` contains `needle` as a contiguous run of characters.
pub fn contains_str(hay: &str, needle: &str) -> (r: bool)
    ensures
        r == is_substring_of(needle@, hay@),
{
    let hay_len = hay.unicode_len();
    let needle_len = needle.unicode_len();
    if needle_len > hay_len {
        assert(forall|i: int| !matches_at(hay@, needle@, i));
        return false;
    }
    if needle_len == 0 {
        proof {
            assert(hay@.subrange(0, 0) =~= needle@);
            assert(matches_at(hay@, needle@, 0));
        }
        return true;
    }
    let mut start: usize = 0;
    while start <= hay_len - needle_len
        invariant
            hay_len == hay@.len(),
            needle_len == needle@.len(),
            0 < needle_len <= hay_len,
            start <= hay_len - needle_len + 1,
            forall|i: int| 0 <= i < start ==> !matches_at(hay@, needle@, i),
        decreases hay_len - start,
    {
        let mut k: usize = 0;
        let mut mismatch = false;
        while k < needle_len && !mismatch
            invariant
                hay_len == hay@.len(),
                needle_len == needle@.len(),
                start + needle_len <= hay_len,
                k <= needle_len,
                forall|j: int| 0 <= j < k ==> hay@[start + j] == needle@[j],
                mismatch ==> k < needle_len && hay@[start + k] != needle@[k as int],
            decreases needle_len - k + (if mismatch { 0int } else { 1int }),
        {
            if hay.get_char(start + k) != needle.get_char(k) {
                mismatch = true;
            } else {
                k += 1;
            }
        }
        if !mismatch {
            proof {
                assert(hay@.subrange(start as int, start + needle@.len()) =~= needle@);
                assert(matches_at(hay@, needle@, start as int));
            }
            return true;
        }
        proof {
            assert(!matches_at(hay@, needle@, start as int)) by {
                assert(hay@.subrange(start as int, start + needle@.len())[k as int]
                    == hay@[start + k]);
            }
        }
        start += 1;
    }
    proof {
        assert forall|i: int| !matches_at(hay@, needle@, i) by {
            if 0 <= i && i + needle@.len() <= hay@.len() {
                assert(i < start);
            }
        }
    }
    false
}

/// `suffix` is a suffix of `s`.
pub open spec fn is_suffix_of(suffix: Seq<char>, s: Seq<char>) -> bool {
    suffix.len() <= s.len() && s.subrange(s.len() - suffix.len(), s.len() as int) == suffix
}

/// Whether `s` ends with `suffix`.
pub fn ends_with_str(s: &str, suffix: &str) -> (r: bool)
    ensures
        r == is_suffix_of(suffix@, s@),
{
    let s_len = s.unicode_len();
    let suf_len = suffix.unicode_len();
    if suf_len > s_len {
        return false;
    }
    let base = s_len - suf_len;
    let mut k: usize = 0;
    while k < suf_len
        invariant
            s_len == s@.len(),
            suf_len == suffix@.len(),
            suf_len <= s_len,
            base == s_len - suf_len,
            k <= suf_len,
            forall|j: int| 0 <= j < k ==> s@[base + j] == suffix@[j],
        decreases suf_len - k,
    {
        if s.get_char(base + k) != suffix.get_char(k) {
            assert(s@.subrange(s@.len() - suffix@.len(), s@.len() as int)[k as int]
                != suffix@[k as int]);
            return false;
        }
        k += 1;
    }
    proof {
        assert(s@.subrange(s@.len() - suffix@.len(), s@.len() as int) =~= suffix@);
    }
    true
}

/// Every space replaced by a hyphen, other characters kept.
pub open spec fn replaced_of(s: Seq<char>) -> Seq<char> {
    s.map_values(|c: char| if c == ' ' { '-' } else { c })
}

/// Replaces each space with a hyphen.
pub fn replace_space_hyphen(s: &str) -> (r: String)
    ensures
        r@ == replaced_of(s@),
{
    let len = s.unicode_len();
    let mut out = String::new();
    let mut i: usize = 0;
    while i < len
        invariant
            len == s@.len(),
            i <= len,
            out@ == replaced_of(s@.subrange(0, i as int)),
        decreases len - i,
    {
        let c = s.get_char(i);
        if c == ' ' {
            push_char(&mut out, '-');
        } else {
            push_char(&mut out, c);
        }
        proof {
            assert(s@.subrange(0, i + 1) =~= s@.subrange(0, i as int).push(s@[i as int]));
            assert(out@ =~= replaced_of(s@.subrange(0, i + 1)));
        }
        i += 1;
    }
    proof {
        assert(s@.subrange(0, s@.len() as int) =~= s@);
    }
    out
}

/// The file-name form of an entry name: spaces become hyphens, then the
/// whole string is lowercased.
pub open spec fn sanitized_of(s: Seq<char>) -> Seq<char> {
    lower_of(replaced_of(s))
}

/// Sanitizes an entry name for use in a mirror file name.
pub fn sanitize_name(s: &str) -> (r: String)
    ensures
        r@ == sanitized_of(s@),
{
    let replaced = replace_space_hyphen(s);
    lowercase(replaced.as_str())
}

/// Index of the first `'T'` in `s`, or `s.len()` when there is none.
pub open spec fn first_t_index(s: Seq<char>) -> int
    decreases s.len(),
{
    if s.len() == 0 {
        0
    } else if s[0] == 'T' {
        0
    } else {
        1 + first_t_index(s.drop_first())
    }
}

pub proof fn lemma_first_t_index(s: Seq<char>)
    ensures
        0 <= first_t_index(s) <= s.len(),
        forall|k: int| 0 <= k < first_t_index(s) ==> s[k] != 'T',
        first_t_index(s) < s.len() ==> s[first_t_index(s)] == 'T',
    decreases s.len(),
{
    if s.len() > 0 && s[0] != 'T' {
        lemma_first_t_index(s.drop_first());
        assert forall|k: int| 0 <= k < first_t_index(s) implies s[k] != 'T' by {
            if k > 0 {
                assert(s.drop_first()[k - 1] == s[k]);
            }
        }
        if first_t_index(s) < s.len() {
            assert(s.drop_first()[first_t_index(s) - 1] == s[first_t_index(s)]);
        }
    }
}

/// The part of `s` before its first `'T'`: the date part of a stored
/// timestamp string.
pub open spec fn date_prefix_of(s: Seq<char>) -> Seq<char> {
    s.subrange(0, first_t_index(s))
}

/// Returns the part of `s` before the first `'T'`, or all of `s` when there
/// is no `'T'`.
pub fn date_prefix(s: &str) -> (r: String)
    ensures
        r@ == date_prefix_of(s@),
{
    let len = s.unicode_len();
    let mut i: usize = 0;
    let mut out = String::new();
    proof {
        lemma_first_t_index(s@);
    }
    while i < len
        invariant
            len == s@.len(),
            i <= len,
            out@ == s@.subrange(0, i as int),
            forall|k: int| 0 <= k < i ==> s@[k] != 'T',
            0 <= first_t_index(s@) <= s@.len(),
            forall|k: int| 0 <= k < first_t_index(s@) ==> s@[k] != 'T',
            first_t_index(s@) < s@.len() ==> s@[first_t_index(s@)] == 'T',
        decreases len - i,
    {
        let c = s.get_char(i);
        if c == 'T' {
            proof {
                assert(i as int == first_t_index(s@)) by {
                    if (i as int) < first_t_index(s@) {
                        assert(s@[i as int] != 'T');
                    }
                    if first_t_index(s@) < i as int {
                        assert(s@[first_t_index(s@)] != 'T');
                    }
                }
            }
            return out;
        }
        push_char(&mut out, c);
        proof {
            assert(s@.subrange(0, i + 1) =~= s@.subrange(0, i as int).push(s@[i as int]));
        }
        i += 1;
    }
    proof {
        assert(first_t_index(s@) == s@.len());
        assert(out@ =~= s@.subrange(0, first_t_index(s@)));
    }
    out
}

/// The decimal digit character for `d`, which must lie in `0 ..= 9`.
pub open spec fn dec_digit(d: int) -> char {
    if d == 0 {
        '0'
    } else if d == 1 {
        '1'
    } else if d == 2 {
        '2'
    } else if d == 3 {
        '3'
    } else if d == 4 {
        '4'
    } else if d == 5 {
        '5'
    } else if d == 6 {
        '6'
    } else if d == 7 {
        '7'
    } else if d == 8 {
        '8'
    } else {
        '9'
    }
}

/// The decimal rendering of a non-negative integer, without leading zeros
/// (except for the number zero itself).
pub open spec fn dec_of(n: int) -> Seq<char>
    decreases n,
{
    if n < 10 {
        seq![dec_digit(n)]
    } else {
        dec_of(n / 10).push(dec_digit(n % 10))
    }
}

fn digit_str(d: u32) -> (r: &'static str)
    requires
        d < 10,
    ensures
        r@ == seq![dec_digit(d as int)],
{
    proof {
        reveal_strlit("0");
        reveal_strlit("1");
        reveal_strlit("2");
        reveal_strlit("3");
        reveal_strlit("4");
        reveal_strlit("5");
        reveal_strlit("6");
        reveal_strlit("7");
        reveal_strlit("8");
        reveal_strlit("9");
    }
    let r = match d {
        0 => "0",
        1 => "1",
        2 => "2",
        3 => "3",
        4 => "4",
        5 => "5",
        6 => "6",
        7 => "7",
        8 => "8",
        _ => "9",
    };
    proof {
        assert(r@ =~= seq![dec_digit(d as int)]);
    }
    r
}

/// Renders a `u32` in decimal.
pub fn u32_string(n: u32) -> (r: String)
    ensures
        r@ == dec_of(n as int),
    decreases n,
{
    if n < 10 {
        String::from_str(digit_str(n))
    } else {
        let mut s = u32_string(n / 10);
        s.append(digit_str(n % 10));
        proof {
            assert(s@ =~= dec_of((n / 10) as int).push(dec_digit((n % 10) as int)));
        }
        s
    }
}

/// Renders a non-negative `i32` in decimal.
pub fn i32_string(n: i32) -> (r: String)
    requires
        0 <= n,
    ensures
        r@ == dec_of(n as int),
{
    u32_string(n as u32)
}

/// The rendering of a boolean as `true` or `false`.
pub open spec fn bool_str(b: bool) -> Seq<char> {
    if b {
        "true"@
    } else {
        "false"@
    }
}

/// Renders a boolean as `true` or `false`.
pub fn bool_string(b: bool) -> (r: &'static str)
    ensures
        r@ == bool_str(b),
{
    if b {
        "true"
    } else {
        "false"
    }
}

/// Index of the last `'/'` in `s`, or `-1` when there is none.
pub open spec fn last_slash_index(s: Seq<char>) -> int
    decreases s.len(),
{
    if s.len() == 0 {
        -1
    } else if s.last() == '/' {
        s.len() - 1
    } else {
        last_slash_index(s.drop_last())
    }
}

pub proof fn lemma_last_slash_index(s: Seq<char>)
    ensures
        -1 <= last_slash_index(s) < s.len(),
        last_slash_index(s) >= 0 ==> s[last_slash_index(s)] == '/',
        forall|k: int| last_slash_index(s) < k < s.len() ==> s[k] != '/',
    decreases s.len(),
{
    if s.len() > 0 && s.last() != '/' {
        lemma_last_slash_index(s.drop_last());
        assert forall|k: int| last_slash_index(s) < k < s.len() implies s[k] != '/' by {
            if k < s.len() - 1 {
                assert(s.drop_last()[k] == s[k]);
            }
        }
        if last_slash_index(s) >= 0 {
            assert(s.drop_last()[last_slash_index(s)] == s[last_slash_index(s)]);
        }
    }
}

/// The part of a path after its last `'/'` — the bare file name.
pub open spec fn file_name_part_of(p: Seq<char>) -> Seq<char> {
    p.subrange(last_slash_index(p) + 1, p.len() as int)
}

/// Returns the part of `p` after the last `'/'`, or all of `p` when there
/// is none.
#[verifier::loop_isolation(false)]
pub fn path_file_name(p: &str) -> (r: String)
    ensures
        r@ == file_name_part_of(p@),
{
    let len = p.unicode_len();
    proof {
        lemma_last_slash_index(p@);
    }
    let mut cut: usize = 0;
    let mut i: usize = 0;
    while i < len
        invariant
            len == p@.len(),
            i <= len,
            cut <= i,
            cut == 0 ==> forall|k: int| 0 <= k < i ==> p@[k] != '/',
            cut > 0 ==> cut <= i && p@[cut - 1] == '/' && forall|k: int|
                cut <= k < i ==> p@[k] != '/',
        decreases len - i,
    {
        if p.get_char(i) == '/' {
            cut = i + 1;
        }
        i += 1;
    }
    proof {
        assert(cut as int == last_slash_index(p@) + 1) by {
            let idx = last_slash_index(p@);
            if cut == 0 {
                if idx >= 0 {
                    assert(p@[idx] != '/');
                }
            } else {
                if idx < cut - 1 {
                    assert(p@[cut - 1] != '/');
                }
                if idx > cut - 1 {
                    assert(p@[idx] != '/');
                }
            }
        }
    }
    let mut out = String::new();
    let mut j: usize = cut;
    while j < len
        invariant
            len == p@.len(),
            cut <= j <= len,
            out@ == p@.subrange(cut as int, j as int),
        decreases len - j,
    {
        push_char(&mut out, p.get_char(j));
        proof {
            assert(p@.subrange(cut as int, j + 1) =~= p@.subrange(cut as int, j as int).push(
                p@[j as int],
            ));
        }
        j += 1;
    }
    out
}

/// Lexicographic order on character sequences, by code point.
pub open spec fn seq_char_le(a: Seq<char>, b: Seq<char>) -> bool
    decreases a.len(),
{
    if a.len() == 0 {
        true
    } else if b.len() == 0 {
        false
    } else if a[0] == b[0] {
        seq_char_le(a.drop_first(), b.drop_first())
    } else {
        a[0] < b[0]
    }
}

/// The order is total: one of the two directions always holds.
pub proof fn lemma_seq_char_le_total(a: Seq<char>, b: Seq<char>)
    ensures
        seq_char_le(a, b) || seq_char_le(b, a),
    decreases a.len(),
{
    if a.len() > 0 && b.len() > 0 && a[0] == b[0] {
        lemma_seq_char_le_total(a.drop_first(), b.drop_first());
    }
}

/// The order is transitive.
pub proof fn lemma_seq_char_le_trans(a: Seq<char>, b: Seq<char>, c: Seq<char>)
    requires
        seq_char_le(a, b),
        seq_char_le(b, c),
    ensures
        seq_char_le(a, c),
    decreases a.len(),
{
    if a.len() > 0 && b.len() > 0 && c.len() > 0 && a[0] == b[0] && b[0] == c[0] {
        lemma_seq_char_le_trans(a.drop_first(), b.drop_first(), c.drop_first());
    }
}

/// Whether `a` comes at or before `b` in lexicographic order.
pub fn str_le(a: &str, b: &str) -> (r: bool)
    ensures
        r == seq_char_le(a@, b@),
{
    let a_len = a.unicode_len();
    let b_len = b.unicode_len();
    let mut i: usize = 0;
    proof {
        assert(a@.skip(0) =~= a@);
        assert(b@.skip(0) =~= b@);
    }
    while i < a_len && i < b_len && a.get_char(i) == b.get_char(i)
        invariant
            a_len == a@.len(),
            b_len == b@.len(),
            i <= a_len,
            i <= b_len,
            seq_char_le(a@, b@) == seq_char_le(a@.skip(i as int), b@.skip(i as int)),
        decreases a_len - i,
    {
        proof {
            let sa = a@.skip(i as int);
            let sb = b@.skip(i as int);
            assert(sa[0] == a@[i as int] && sb[0] == b@[i as int]);
            assert(sa.drop_first() =~= a@.skip(i + 1));
            assert(sb.drop_first() =~= b@.skip(i + 1));
        }
        i += 1;
    }
    proof {
        let sa = a@.skip(i as int);
        let sb = b@.skip(i as int);
        if i < a_len && i < b_len {
            assert(sa[0] == a@[i as int] && sb[0] == b@[i as int]);
        } else if i >= a_len {
            assert(sa.len() == 0);
        } else {
            assert(sa.len() > 0 && sb.len() == 0);
        }
    }
    if i >= a_len {
        true
    } else if i >= b_len {
        false
    } else {
        a.get_char(i) < b.get_char(i)
    }
}

} // verus!
