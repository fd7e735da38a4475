//! Verified string utilities: the character-level operations the resolution
//! engine and the flag builder are specified and proved against.

use vstd::prelude::*;

verus! {

/// The Unicode `White_Space` characters, the set `char::is_whitespace`
/// recognizes.
pub open spec fn is_space_char(c: char) -> bool {
    ||| c == '\u{9}'
    ||| c == '\u{A}'
    ||| c == '\u{B}'
    ||| c == '\u{C}'
    ||| c == '\u{D}'
    ||| c == ' '
    ||| c == '\u{85}'
    ||| c == '\u{A0}'
    ||| c == '\u{1680}'
    ||| c == '\u{2000}'
    ||| c == '\u{2001}'
    ||| c == '\u{2002}'
    ||| c == '\u{2003}'
    ||| c == '\u{2004}'
    ||| c == '\u{2005}'
    ||| c == '\u{2006}'
    ||| c == '\u{2007}'
    ||| c == '\u{2008}'
    ||| c == '\u{2009}'
    ||| c == '\u{200A}'
    ||| c == '\u{2028}'
    ||| c == '\u{2029}'
    ||| c == '\u{202F}'
    ||| c == '\u{205F}'
    ||| c == '\u{3000}'
}

/// Whether `c` is a whitespace character.
pub fn is_space(c: char) -> (r: bool)
    ensures
        r == is_space_char(c),
{
    match c {
        '\u{9}' | '\u{A}' | '\u{B}' | '\u{C}' | '\u{D}' | ' ' | '\u{85}' | '\u{A0}'
        | '\u{1680}' | '\u{2000}' | '\u{2001}' | '\u{2002}' | '\u{2003}' | '\u{2004}'
        | '\u{2005}' | '\u{2006}' | '\u{2007}' | '\u{2008}' | '\u{2009}' | '\u{200A}'
        | '\u{2028}' | '\u{2029}' | '\u{202F}' | '\u{205F}' | '\u{3000}' => true,
        _ => false,
    }
}

/// Whether the two string slices hold the same characters.
pub fn str_eq(a: &str, b: &str) -> (r: bool)
    ensures
        r == (a@ == b@),
{
    let la = a.unicode_len();
    let lb = b.unicode_len();
    if la != lb {
        return false;
    }
    let mut i: usize = 0;
    while i < la
        invariant
            la == a@.len(),
            la == b@.len(),
            i <= la,
            forall|j: int| 0 <= j < i ==> a@[j] == b@[j],
        decreases la - i,
    {
        if a.get_char(i) != b.get_char(i) {
            return false;
        }
        i = i + 1;
    }
    proof {
        assert(a@ =~= b@);
    }
    true
}

/// `p` is a prefix of `s`.
pub open spec fn spec_starts_with(s: Seq<char>, p: Seq<char>) -> bool {
    p.len() <= s.len() && s.subrange(0, p.len() as int) == p
}

/// Whether `s` starts with `p`.
pub fn starts_with(s: &str, p: &str) -> (r: bool)
    ensures
        r == spec_starts_with(s@, p@),
{
    let ls = s.unicode_len();
    let lp = p.unicode_len();
    if lp > ls {
        return false;
    }
    let mut i: usize = 0;
    while i < lp
        invariant
            ls == s@.len(),
            lp == p@.len(),
            lp <= ls,
            i <= lp,
            forall|j: int| 0 <= j < i ==> s@[j] == p@[j],
        decreases lp - i,
    {
        if s.get_char(i) != p.get_char(i) {
            proof {
                assert(s@.subrange(0, p@.len() as int)[i as int] != p@[i as int]);
            }
            return false;
        }
        i = i + 1;
    }
    proof {
        assert(s@.subrange(0, p@.len() as int) =~= p@);
    }
    true
}

/// `p` is a suffix of `s`.
pub open spec fn spec_ends_with(s: Seq<char>, p: Seq<char>) -> bool {
    p.len() <= s.len() && s.subrange(s.len() - p.len(), s.len() as int) == p
}

/// Whether `s` ends with `p`.
pub fn ends_with(s: &str, p: &str) -> (r: bool)
    ensures
        r == spec_ends_with(s@, p@),
{
    let ls = s.unicode_len();
    let lp = p.unicode_len();
    if lp > ls {
        return false;
    }
    let off = ls - lp;
    let mut i: usize = 0;
    while i < lp
        invariant
            ls == s@.len(),
            lp == p@.len(),
            lp <= ls,
            off == ls - lp,
            i <= lp,
            forall|j: int| 0 <= j < i ==> s@[off + j] == p@[j],
        decreases lp - i,
    {
        if s.get_char(off + i) != p.get_char(i) {
            proof {
                assert(s@.subrange(s@.len() - p@.len(), s@.len() as int)[i as int] != p@[i as int]);
            }
            return false;
        }
        i = i + 1;
    }
    proof {
        assert(s@.subrange(s@.len() - p@.len(), s@.len() as int) =~= p@);
    }
    true
}

/// `s` with its leading whitespace removed.
pub open spec fn spec_trim_start(s: Seq<char>) -> Seq<char>
    decreases s.len(),
{
    if s.len() > 0 && is_space_char(s[0]) {
        spec_trim_start(s.drop_first())
    } else {
        s
    }
}

/// `s` with its trailing whitespace removed.
pub open spec fn spec_trim_end(s: Seq<char>) -> Seq<char>
    decreases s.len(),
{
    if s.len() > 0 && is_space_char(s.last()) {
        spec_trim_end(s.drop_last())
    } else {
        s
    }
}

/// `s` with leading and trailing whitespace removed, as `str::trim` yields it.
pub open spec fn spec_trim(s: Seq<char>) -> Seq<char> {
    spec_trim_end(spec_trim_start(s))
}

/// Trim leading and trailing whitespace.
pub fn trim(s: &str) -> (r: &str)
    ensures
        r@ == spec_trim(s@),
{
    let len = s.unicode_len();
    let mut i: usize = 0;
    proof {
        assert(s@.skip(0) =~= s@);
    }
    loop
        invariant
            len == s@.len(),
            i <= len,
            spec_trim_start(s@) == spec_trim_start(s@.skip(i as int)),
        ensures
            i <= len,
            spec_trim_start(s@) == s@.skip(i as int),
            i < len ==> !is_space_char(s@[i as int]),
        decreases len - i,
    {
        if i >= len {
            proof {
                assert(s@.skip(i as int) =~= Seq::<char>::empty());
            }
            break;
        }
        if !is_space(s.get_char(i)) {
            break;
        }
        proof {
            assert(s@.skip(i as int).drop_first() =~= s@.skip(i + 1));
        }
        i = i + 1;
    }
    let mut j: usize = len;
    proof {
        assert(s@.skip(i as int) =~= s@.subrange(i as int, len as int));
    }
    loop
        invariant
            len == s@.len(),
            i <= j <= len,
            i < len ==> !is_space_char(s@[i as int]),
            spec_trim_end(s@.skip(i as int)) == spec_trim_end(s@.subrange(i as int, j as int)),
        ensures
            i <= j <= len,
            spec_trim_end(s@.skip(i as int)) == s@.subrange(i as int, j as int),
        decreases j,
    {
        if j <= i {
            proof {
                assert(s@.subrange(i as int, j as int) =~= Seq::<char>::empty());
            }
            break;
        }
        if !is_space(s.get_char(j - 1)) {
            proof {
                assert(s@.subrange(i as int, j as int).last() == s@[j - 1]);
            }
            break;
        }
        proof {
            assert(s@.subrange(i as int, j as int).last() == s@[j - 1]);
            assert(s@.subrange(i as int, j as int).drop_last() =~= s@.subrange(
                i as int,
                j - 1,
            ));
        }
        j = j - 1;
    }
    proof {
        assert(s@.skip(i as int) =~= s@.subrange(i as int, len as int));
    }
    s.substring_char(i, j)
}

/// The first index of `c` in `s` at or after `i`, or `s.len()` if there is
/// none.
pub open spec fn spec_idx_of(s: Seq<char>, c: char, i: int) -> int
    recommends
        0 <= i <= s.len(),
    decreases s.len() - i,
{
    if i < 0 || i >= s.len() {
        s.len() as int
    } else if s[i] == c {
        i
    } else {
        spec_idx_of(s, c, i + 1)
    }
}

pub proof fn lemma_idx_of_props(s: Seq<char>, c: char, i: int)
    requires
        0 <= i <= s.len(),
    ensures
        i <= spec_idx_of(s, c, i) <= s.len(),
        spec_idx_of(s, c, i) < s.len() ==> s[spec_idx_of(s, c, i)] == c,
        forall|j: int| i <= j < spec_idx_of(s, c, i) ==> s[j] != c,
    decreases s.len() - i,
{
    if i < s.len() && s[i] != c {
        lemma_idx_of_props(s, c, i + 1);
    }
}

/// The first index of `c` in `s` at or after `from`, or the length of `s`.
pub fn find_char(s: &str, c: char, from: usize) -> (r: usize)
    requires
        from <= s@.len(),
    ensures
        r == spec_idx_of(s@, c, from as int),
        from <= r <= s@.len(),
{
    let len = s.unicode_len();
    let mut i: usize = from;
    loop
        invariant
            len == s@.len(),
            from <= i <= len,
            spec_idx_of(s@, c, from as int) == spec_idx_of(s@, c, i as int),
        ensures
            i == spec_idx_of(s@, c, from as int),
        decreases len - i,
    {
        if i >= len {
            break;
        }
        if s.get_char(i) == c {
            break;
        }
        i = i + 1;
    }
    i
}

/// A line as `str::lines` yields it: a carriage return directly before the
/// line feed is dropped.
pub open spec fn spec_strip_cr(line: Seq<char>) -> Seq<char> {
    if line.len() > 0 && line.last() == '\r' {
        line.drop_last()
    } else {
        line
    }
}

/// The lines of `s`, split as `str::lines` splits them: at each line feed,
/// dropping a carriage return directly before it, with no empty final line
/// for a trailing line feed.
pub open spec fn spec_lines(s: Seq<char>) -> Seq<Seq<char>>
    decreases s.len(),
{
    if s.len() == 0 {
        Seq::empty()
    } else {
        let e = spec_idx_of(s, '\n', 0);
        if e == s.len() {
            seq![s]
        } else if 0 <= e < s.len() {
            seq![spec_strip_cr(s.take(e))] + spec_lines(s.skip(e + 1))
        } else {
            Seq::empty()
        }
    }
}

/// Split `s` into its lines.
pub fn split_lines(s: &str) -> (r: Vec<String>)
    ensures
        r.deep_view() == spec_lines(s@),
{
    let mut rest: &str = s;
    let mut r: Vec<String> = Vec::new();
    proof {
        assert(r.deep_view() =~= Seq::<Seq<char>>::empty());
    }
    loop
        invariant
            r.deep_view() + spec_lines(rest@) == spec_lines(s@),
        ensures
            r.deep_view() == spec_lines(s@),
        decreases rest@.len(),
    {
        let len = rest.unicode_len();
        if len == 0 {
            proof {
                assert(r.deep_view() + spec_lines(rest@) =~= r.deep_view());
            }
            break;
        }
        proof {
            lemma_idx_of_props(rest@, '\n', 0);
        }
        let ghost prev = rest@;
        let ghost prev_dv = r.deep_view();
        let e = find_char(rest, '\n', 0);
        if e == len {
            let line = String::from_str(rest);
            let ghost line_view = line@;
            r.push(line);
            rest = rest.substring_char(len, len);
            proof {
                assert(r.deep_view() =~= prev_dv.push(line_view));
                assert(rest@ =~= Seq::<char>::empty());
                assert(spec_lines(prev) == seq![prev]);
                assert(r.deep_view() + spec_lines(rest@) =~= prev_dv + spec_lines(prev));
            }
        } else {
            let end = if e > 0 && rest.get_char(e - 1) == '\r' {
                e - 1
            } else {
                e
            };
            let line = String::from_str(rest.substring_char(0, end));
            let ghost line_view = line@;
            r.push(line);
            rest = rest.substring_char(e + 1, len);
            proof {
                assert(r.deep_view() =~= prev_dv.push(line_view));
                assert(rest@ == prev.skip(e + 1));
                assert(prev.take(e as int) == prev.subrange(0, e as int));
                if e > 0 && prev[e - 1] == '\r' {
                    assert(prev.take(e as int).last() == '\r');
                    assert(prev.take(e as int).drop_last() =~= prev.subrange(0, e - 1));
                    assert(line_view == spec_strip_cr(prev.take(e as int)));
                } else {
                    if prev.take(e as int).len() > 0 && prev.take(e as int).last() == '\r' {
                        assert(prev[e - 1] == '\r');
                        assert(false);
                    }
                    assert(line_view == spec_strip_cr(prev.take(e as int)));
                }
                assert(spec_lines(prev) == seq![spec_strip_cr(prev.take(e as int))] + spec_lines(
                    prev.skip(e + 1),
                ));
                assert(r.deep_view() + spec_lines(rest@) =~= prev_dv + spec_lines(prev));
            }
        }
    }
    r
}

/// The first index at or after `i` holding a non-whitespace character, or
/// `s.len()`.
pub open spec fn spec_first_nonspace_at(s: Seq<char>, i: int) -> int
    recommends
        0 <= i <= s.len(),
    decreases s.len() - i,
{
    if i < 0 || i >= s.len() {
        s.len() as int
    } else if !is_space_char(s[i]) {
        i
    } else {
        spec_first_nonspace_at(s, i + 1)
    }
}

/// The first index at or after `i` holding a whitespace character, or
/// `s.len()`.
pub open spec fn spec_first_space_at(s: Seq<char>, i: int) -> int
    recommends
        0 <= i <= s.len(),
    decreases s.len() - i,
{
    if i < 0 || i >= s.len() {
        s.len() as int
    } else if is_space_char(s[i]) {
        i
    } else {
        spec_first_space_at(s, i + 1)
    }
}

pub proof fn lemma_scan_bounds(s: Seq<char>, i: int)
    requires
        0 <= i <= s.len(),
    ensures
        i <= spec_first_nonspace_at(s, i) <= s.len(),
        i <= spec_first_space_at(s, i) <= s.len(),
    decreases s.len() - i,
{
    if i < s.len() {
        lemma_scan_bounds(s, i + 1);
    }
}

/// The first index at or after `from` holding a non-whitespace character.
pub fn first_nonspace_from(s: &str, from: usize) -> (r: usize)
    requires
        from <= s@.len(),
    ensures
        r == spec_first_nonspace_at(s@, from as int),
        from <= r <= s@.len(),
{
    let len = s.unicode_len();
    let mut i: usize = from;
    loop
        invariant
            len == s@.len(),
            from <= i <= len,
            spec_first_nonspace_at(s@, from as int) == spec_first_nonspace_at(s@, i as int),
        ensures
            i == spec_first_nonspace_at(s@, from as int),
        decreases len - i,
    {
        if i >= len {
            break;
        }
        if !is_space(s.get_char(i)) {
            break;
        }
        i = i + 1;
    }
    i
}

/// The first index at or after `from` holding a whitespace character.
pub fn first_space_from(s: &str, from: usize) -> (r: usize)
    requires
        from <= s@.len(),
    ensures
        r == spec_first_space_at(s@, from as int),
        from <= r <= s@.len(),
{
    let len = s.unicode_len();
    let mut i: usize = from;
    loop
        invariant
            len == s@.len(),
            from <= i <= len,
            spec_first_space_at(s@, from as int) == spec_first_space_at(s@, i as int),
        ensures
            i == spec_first_space_at(s@, from as int),
        decreases len - i,
    {
        if i >= len {
            break;
        }
        if is_space(s.get_char(i)) {
            break;
        }
        i = i + 1;
    }
    i
}

/// The first whitespace-delimited token of `s`, as
/// `str::split_whitespace` yields it, or nothing if `s` is empty or all
/// whitespace.
pub open spec fn spec_first_token(s: Seq<char>) -> Option<Seq<char>> {
    let a = spec_first_nonspace_at(s, 0);
    if a == s.len() {
        None
    } else {
        Some(s.subrange(a, spec_first_space_at(s, a)))
    }
}

/// The second whitespace-delimited token of `s`, or nothing if there are
/// fewer than two.
pub open spec fn spec_second_token(s: Seq<char>) -> Option<Seq<char>> {
    let a = spec_first_nonspace_at(s, 0);
    if a == s.len() {
        None
    } else {
        let b = spec_first_space_at(s, a);
        let c2 = spec_first_nonspace_at(s, b);
        if c2 == s.len() {
            None
        } else {
            Some(s.subrange(c2, spec_first_space_at(s, c2)))
        }
    }
}

/// The first whitespace-delimited token of `s`.
pub fn first_token(s: &str) -> (r: Option<&str>)
    ensures
        r is Some <==> spec_first_token(s@) is Some,
        r is Some ==> r->0@ == spec_first_token(s@)->0,
{
    let len = s.unicode_len();
    let a = first_nonspace_from(s, 0);
    if a == len {
        None
    } else {
        let b = first_space_from(s, a);
        proof {
            lemma_scan_bounds(s@, a as int);
        }
        Some(s.substring_char(a, b))
    }
}

/// The second whitespace-delimited token of `s`.
pub fn second_token(s: &str) -> (r: Option<&str>)
    ensures
        r is Some <==> spec_second_token(s@) is Some,
        r is Some ==> r->0@ == spec_second_token(s@)->0,
{
    let len = s.unicode_len();
    let a = first_nonspace_from(s, 0);
    if a == len {
        return None;
    }
    let b = first_space_from(s, a);
    let c2 = first_nonspace_from(s, b);
    if c2 == len {
        return None;
    }
    let d = first_space_from(s, c2);
    proof {
        lemma_scan_bounds(s@, c2 as int);
    }
    Some(s.substring_char(c2, d))
}

/// The last index of `c` in `s`, if any.
pub open spec fn spec_last_idx_of(s: Seq<char>, c: char) -> Option<int>
    decreases s.len(),
{
    if s.len() == 0 {
        None
    } else if s.last() == c {
        Some(s.len() - 1)
    } else {
        spec_last_idx_of(s.drop_last(), c)
    }
}

pub proof fn lemma_last_idx_of_props(s: Seq<char>, c: char)
    ensures
        spec_last_idx_of(s, c) matches Some(i) ==> 0 <= i < s.len() && s[i] == c,
        spec_last_idx_of(s, c) is None ==> forall|j: int| 0 <= j < s.len() ==> s[j] != c,
    decreases s.len(),
{
    if s.len() > 0 && s.last() != c {
        lemma_last_idx_of_props(s.drop_last(), c);
        if spec_last_idx_of(s, c) is None {
            assert forall|j: int| 0 <= j < s.len() implies s[j] != c by {
                if j < s.len() - 1 {
                    assert(s.drop_last()[j] == s[j]);
                }
            }
        }
    }
}

/// The last index of `c` in `s`, if any.
pub fn last_idx_of(s: &str, c: char) -> (r: Option<usize>)
    ensures
        r is Some <==> spec_last_idx_of(s@, c) is Some,
        r is Some ==> r->0 as int == spec_last_idx_of(s@, c)->0,
{
    let len = s.unicode_len();
    let mut j: usize = len;
    proof {
        assert(s@.take(len as int) =~= s@);
    }
    loop
        invariant
            len == s@.len(),
            j <= len,
            spec_last_idx_of(s@, c) == spec_last_idx_of(s@.take(j as int), c),
        ensures
            j <= len,
            spec_last_idx_of(s@, c) == spec_last_idx_of(s@.take(j as int), c),
            j == 0 || s@[j - 1] == c,
            j > 0 ==> spec_last_idx_of(s@, c) == Some(j - 1 as int),
        decreases j,
    {
        proof {
            assert(s@.take(len as int) =~= s@);
        }
        if j == 0 {
            break;
        }
        if s.get_char(j - 1) == c {
            proof {
                assert(s@.take(j as int).last() == s@[j - 1]);
            }
            break;
        }
        proof {
            assert(s@.take(j as int).last() == s@[j - 1]);
            assert(s@.take(j as int).drop_last() =~= s@.take(j - 1));
        }
        j = j - 1;
    }
    if j == 0 {
        proof {
            assert(s@.take(0) =~= Seq::<char>::empty());
        }
        None
    } else {
        Some(j - 1)
    }
}

/// `p` occurs in `s` starting at `i`.
pub open spec fn spec_match_at(s: Seq<char>, p: Seq<char>, i: int) -> bool {
    0 <= i && i + p.len() <= s.len() && s.subrange(i, i + p.len()) == p
}

/// The first index at or after `i` where `p` occurs in `s`, if any.
pub open spec fn spec_find_sub(s: Seq<char>, p: Seq<char>, i: int) -> Option<int>
    recommends
        0 <= i,
    decreases s.len() + 1 - i,
{
    if i < 0 || i + p.len() > s.len() {
        None
    } else if spec_match_at(s, p, i) {
        Some(i)
    } else {
        spec_find_sub(s, p, i + 1)
    }
}

pub proof fn lemma_find_sub_props(s: Seq<char>, p: Seq<char>, i: int)
    requires
        0 <= i,
    ensures
        spec_find_sub(s, p, i) matches Some(k) ==> i <= k && spec_match_at(s, p, k),
        spec_find_sub(s, p, i) is None ==> forall|k: int| i <= k ==> !spec_match_at(s, p, k),
    decreases s.len() + 1 - i,
{
    if i + p.len() <= s.len() && !spec_match_at(s, p, i) {
        lemma_find_sub_props(s, p, i + 1);
    }
}

/// The first index at or after `from` where `p` occurs in `s`, if any.
pub fn find_sub(s: &str, p: &str, from: usize) -> (r: Option<usize>)
    requires
        from <= s@.len(),
    ensures
        r is Some <==> spec_find_sub(s@, p@, from as int) is Some,
        r is Some ==> r->0 as int == spec_find_sub(s@, p@, from as int)->0,
        r is Some ==> r->0 + p@.len() <= s@.len(),
{
    let ls = s.unicode_len();
    let lp = p.unicode_len();
    if lp == 0 {
        proof {
            assert(s@.subrange(from as int, from as int) =~= p@);
        }
        return Some(from);
    }
    let mut i: usize = from;
    loop
        invariant
            ls == s@.len(),
            lp == p@.len(),
            lp >= 1,
            from <= i <= ls,
            spec_find_sub(s@, p@, from as int) == spec_find_sub(s@, p@, i as int),
        ensures
            i <= ls,
            spec_find_sub(s@, p@, from as int) == spec_find_sub(s@, p@, i as int),
            lp <= ls - i ==> spec_match_at(s@, p@, i as int) && spec_find_sub(
                s@,
                p@,
                i as int,
            ) == Some(i as int),
            lp > ls - i ==> spec_find_sub(s@, p@, i as int) is None,
        decreases ls + 1 - i,
    {
        if lp > ls - i {
            break;
        }
        if str_eq(s.substring_char(i, i + lp), p) {
            break;
        }
        i = i + 1;
    }
    if lp <= ls - i {
        Some(i)
    } else {
        None
    }
}

/// The two characters are equal up to ASCII case.
pub open spec fn chars_eq_ci(a: char, b: char) -> bool {
    ||| a == b
    ||| ('A' <= a <= 'Z' && a as int + 32 == b as int)
    ||| ('A' <= b <= 'Z' && b as int + 32 == a as int)
}

/// Whether the two characters are equal up to ASCII case.
pub fn char_eq_ci(a: char, b: char) -> (r: bool)
    ensures
        r == chars_eq_ci(a, b),
{
    if a == b {
        true
    } else if 'A' <= a && a <= 'Z' && a as u32 + 32 == b as u32 {
        true
    } else if 'A' <= b && b <= 'Z' && b as u32 + 32 == a as u32 {
        true
    } else {
        false
    }
}

/// `p` occurs in `s` at `i`, compared up to ASCII case.
pub open spec fn spec_match_ci_at(s: Seq<char>, p: Seq<char>, i: int) -> bool {
    0 <= i && i + p.len() <= s.len() && forall|j: int|
        0 <= j < p.len() ==> chars_eq_ci(s[i + j], p[j])
}

/// `p` occurs somewhere in `s`, compared up to ASCII case.
pub open spec fn spec_contains_ci(s: Seq<char>, p: Seq<char>) -> bool {
    exists|i: int| spec_match_ci_at(s, p, i)
}

/// Whether `p` occurs in `s`, compared up to ASCII case.
pub fn contains_ci(s: &str, p: &str) -> (r: bool)
    ensures
        r == spec_contains_ci(s@, p@),
{
    let ls = s.unicode_len();
    let lp = p.unicode_len();
    let mut i: usize = 0;
    loop
        invariant
            ls == s@.len(),
            lp == p@.len(),
            i <= ls,
            forall|k: int| 0 <= k < i ==> !spec_match_ci_at(s@, p@, k),
        ensures
            !spec_contains_ci(s@, p@),
        decreases ls + 1 - i,
    {
        if lp > ls - i {
            proof {
                assert forall|k: int| !spec_match_ci_at(s@, p@, k) by {
                    if 0 <= k && k + p@.len() <= s@.len() {
                        assert(k < i);
                    }
                }
            }
            break;
        }
        let mut j: usize = 0;
        let mut ok = true;
        while j < lp
            invariant
                ls == s@.len(),
                lp == p@.len(),
                i + lp <= ls,
                j <= lp,
                ok ==> forall|m: int| 0 <= m < j ==> chars_eq_ci(s@[i + m], p@[m]),
                !ok ==> !spec_match_ci_at(s@, p@, i as int),
            ensures
                ok ==> spec_match_ci_at(s@, p@, i as int),
                !ok ==> !spec_match_ci_at(s@, p@, i as int),
            decreases lp - j,
        {
            if !char_eq_ci(s.get_char(i + j), p.get_char(j)) {
                ok = false;
                break;
            }
            j = j + 1;
        }
        if ok {
            proof {
                assert(spec_match_ci_at(s@, p@, i as int));
            }
            return true;
        }
        proof {
            assert(lp >= 1) by {
                if lp == 0 {
                    assert(spec_match_ci_at(s@, p@, i as int));
                }
            }
        }
        i = i + 1;
    }
    false
}

/// A decimal digit.
pub open spec fn is_dec_digit(c: char) -> bool {
    '0' <= c <= '9'
}

/// The numeric value of a decimal digit.
pub open spec fn digit_val(c: char) -> int {
    c as int - '0' as int
}

/// Every character of `s` is a decimal digit.
pub open spec fn all_dec_digits(s: Seq<char>) -> bool {
    forall|j: int| 0 <= j < s.len() ==> is_dec_digit(#[trigger] s[j])
}

/// The value of `s` read as a decimal numeral.
pub open spec fn spec_dec_val(s: Seq<char>) -> int
    decreases s.len(),
{
    if s.len() == 0 {
        0
    } else {
        spec_dec_val(s.drop_last()) * 10 + digit_val(s.last())
    }
}

pub proof fn lemma_dec_val_nonneg(s: Seq<char>)
    requires
        all_dec_digits(s),
    ensures
        spec_dec_val(s) >= 0,
    decreases s.len(),
{
    if s.len() > 0 {
        assert(all_dec_digits(s.drop_last())) by {
            assert(forall|j: int|
                0 <= j < s.len() - 1 ==> #[trigger] s.drop_last()[j] == s[j]);
        }
        lemma_dec_val_nonneg(s.drop_last());
    }
}

/// Reading more digits never shrinks the value.
pub proof fn lemma_dec_val_prefix_le(s: Seq<char>, k: int)
    requires
        all_dec_digits(s),
        0 <= k <= s.len(),
    ensures
        spec_dec_val(s.take(k)) <= spec_dec_val(s),
    decreases s.len() - k,
{
    if k == s.len() {
        assert(s.take(k) =~= s);
    }
    if k < s.len() {
        lemma_dec_val_prefix_le(s, k + 1);
        assert(s.take(k + 1).drop_last() =~= s.take(k));
        assert(s.take(k + 1).last() == s[k]);
        assert(all_dec_digits(s.take(k))) by {
            assert(forall|j: int| 0 <= j < k ==> #[trigger] s.take(k)[j] == s[j]);
        }
        lemma_dec_val_nonneg(s.take(k));
        assert(is_dec_digit(s[k]));
        assert(digit_val(s[k]) >= 0);
        assert(spec_dec_val(s.take(k + 1)) == spec_dec_val(s.take(k)) * 10 + digit_val(s[k]));
        assert(spec_dec_val(s.take(k)) <= spec_dec_val(s.take(k)) * 10);
    }
}

/// The value of `s` parsed as `str::parse::<u32>` parses it: an optional
/// leading plus sign, then one or more decimal digits, whose value fits.
pub open spec fn spec_parse_u32(s: Seq<char>) -> Option<u32> {
    let body = if s.len() > 0 && s[0] == '+' {
        s.drop_first()
    } else {
        s
    };
    if body.len() > 0 && all_dec_digits(body) && spec_dec_val(body) <= u32::MAX {
        Some(spec_dec_val(body) as u32)
    } else {
        None
    }
}

/// Parse `s` as a non-negative integer, as `str::parse::<u32>` does.
pub fn parse_u32(s: &str) -> (r: Option<u32>)
    ensures
        r == spec_parse_u32(s@),
{
    let len = s.unicode_len();
    let start: usize = if len > 0 && s.get_char(0) == '+' {
        1
    } else {
        0
    };
    let ghost body = if s@.len() > 0 && s@[0] == '+' {
        s@.drop_first()
    } else {
        s@
    };
    proof {
        assert(body =~= s@.subrange(start as int, len as int));
    }
    if start >= len {
        return None;
    }
    let mut acc: u64 = 0;
    let mut i: usize = start;
    while i < len
        invariant
            len == s@.len(),
            start <= i <= len,
            start < len,
            body == s@.subrange(start as int, len as int),
            body == (if s@.len() > 0 && s@[0] == '+' {
                s@.drop_first()
            } else {
                s@
            }),
            all_dec_digits(body.take(i - start)),
            acc == spec_dec_val(body.take(i - start)),
            acc <= u32::MAX,
        decreases len - i,
    {
        let c = s.get_char(i);
        if !('0' <= c && c <= '9') {
            proof {
                assert(body[i - start] == c);
                assert(!is_dec_digit(body[i - start]));
                assert(!all_dec_digits(body));
            }
            return None;
        }
        let d = c as u32 - 48;
        proof {
            assert(c as int - '0' as int == c as int - 48) by {
                assert('0' as int == 48);
            }
        }
        let next = acc * 10 + d as u64;
        proof {
            assert(body.take(i - start + 1).drop_last() =~= body.take(i - start));
            assert(body.take(i - start + 1).last() == body[i - start]);
            assert(body[i - start] == c);
            assert(all_dec_digits(body.take(i - start + 1)));
        }
        if next > u32::MAX as u64 {
            proof {
                if all_dec_digits(body) {
                    lemma_dec_val_prefix_le(body, i - start + 1);
                    assert(spec_dec_val(body.take(i - start + 1)) == acc * 10 + digit_val(c));
                    assert(spec_dec_val(body) > u32::MAX);
                }
            }
            return None;
        }
        acc = next;
        i = i + 1;
    }
    proof {
        assert(body.take(len - start) =~= body);
    }
    Some(acc as u32)
}

/// The decimal digit character for a value below ten.
pub open spec fn spec_digit_char(d: int) -> char {
    if d == 0 {
        '0'
    } else if d == 1 {
        '1'
    } else if d == 2 {
        '2'
    } else if d == 3 {
        '3'
    } else if d == 4 {
        '4'
    } else if d == 5 {
        '5'
    } else if d == 6 {
        '6'
    } else if d == 7 {
        '7'
    } else if d == 8 {
        '8'
    } else {
        '9'
    }
}

/// The decimal numeral of `n`, most significant digit first, with no sign
/// and no leading zero except for zero itself.
pub open spec fn spec_dec_seq(n: nat) -> Seq<char>
    decreases n,
{
    if n < 10 {
        seq![spec_digit_char(n as int)]
    } else {
        spec_dec_seq(n / 10).push(spec_digit_char((n % 10) as int))
    }
}

/// The one-character string for a decimal digit value.
fn digit_str(d: u64) -> (r: &'static str)
    requires
        d < 10,
    ensures
        r@ == seq![spec_digit_char(d as int)],
{
    proof {
        reveal_strlit("0");
        reveal_strlit("1");
        reveal_strlit("2");
        reveal_strlit("3");
        reveal_strlit("4");
        reveal_strlit("5");
        reveal_strlit("6");
        reveal_strlit("7");
        reveal_strlit("8");
        reveal_strlit("9");
    }
    let r = match d {
        0 => "0",
        1 => "1",
        2 => "2",
        3 => "3",
        4 => "4",
        5 => "5",
        6 => "6",
        7 => "7",
        8 => "8",
        _ => "9",
    };
    proof {
        assert(r@ =~= seq![spec_digit_char(d as int)]);
    }
    r
}

/// Render `n` as its decimal numeral.
pub fn u64_to_string(n: u64) -> (r: String)
    ensures
        r@ == spec_dec_seq(n as nat),
    decreases n,
{
    if n < 10 {
        String::from_str(digit_str(n))
    } else {
        let mut prefix = u64_to_string(n / 10);
        prefix.append(digit_str(n % 10));
        proof {
            assert(prefix@ =~= spec_dec_seq((n / 10) as nat).push(spec_digit_char(
                (n % 10) as int,
            )));
        }
        prefix
    }
}

} // verus!
