//! Character-sequence operations that the rest of the library is written in.
//!
//! Strings are handled as `Seq<char>` in specifications and as `Vec<char>`
//! in executable code; conversions to and from `str`/`String` happen here.

use vstd::prelude::*;

verus! {

// ---------------------------------------------------------------------------
// Specifications
// ---------------------------------------------------------------------------

/// `s` ends with `p`.
pub open spec fn ends_with(s: Seq<char>, p: Seq<char>) -> bool {
    p.len() <= s.len() && s.subrange(s.len() - p.len(), s.len() as int) == p
}

/// `s` starts with `p`.
pub open spec fn starts_with(s: Seq<char>, p: Seq<char>) -> bool {
    p.len() <= s.len() && s.subrange(0, p.len() as int) == p
}

/// `p` occurs in `s` at position `i`.
pub open spec fn occurs_at(s: Seq<char>, p: Seq<char>, i: int) -> bool {
    0 <= i && i + p.len() <= s.len() && s.subrange(i, i + p.len()) == p
}

/// `p` occurs somewhere in `s` (the empty pattern occurs in every string).
pub open spec fn contains(s: Seq<char>, p: Seq<char>) -> bool {
    exists|i: int| occurs_at(s, p, i)
}

/// `s` with every leftmost, non-overlapping occurrence of the non-empty
/// pattern `p` replaced by `t`, scanning from the left.
pub open spec fn replace_all(s: Seq<char>, p: Seq<char>, t: Seq<char>) -> Seq<char>
    decreases s.len(),
{
    if s.len() == 0 {
        s
    } else if p.len() > 0 && starts_with(s, p) {
        t + replace_all(s.subrange(p.len() as int, s.len() as int), p, t)
    } else {
        seq![s[0]] + replace_all(s.drop_first(), p, t)
    }
}

/// Every suffix equal to `p` removed, repeatedly, from the end of `s`
/// (an empty pattern removes nothing).
pub open spec fn trim_end_matches(s: Seq<char>, p: Seq<char>) -> Seq<char>
    decreases s.len(),
{
    if p.len() > 0 && ends_with(s, p) {
        trim_end_matches(s.subrange(0, s.len() - p.len()), p)
    } else {
        s
    }
}

/// An ASCII character.
pub open spec fn ascii_char(c: char) -> bool {
    c <= '\u{7f}'
}

/// Every character of `s` is ASCII.
pub open spec fn ascii_text(s: Seq<char>) -> bool {
    forall|i: int| 0 <= i < s.len() ==> ascii_char(#[trigger] s[i])
}

/// The lowercase of an ASCII character: `A` to `Z` become `a` to `z`, every
/// other character stays.
pub open spec fn ascii_lower(c: char) -> char {
    if 'A' <= c <= 'Z' {
        ((c as u32) + 32) as char
    } else {
        c
    }
}

/// The uppercase of an ASCII character: `a` to `z` become `A` to `Z`, every
/// other character stays.
pub open spec fn ascii_upper(c: char) -> char {
    if 'a' <= c <= 'z' {
        ((c as u32) - 32) as char
    } else {
        c
    }
}

/// What `str::to_lowercase` returns for a text with some character beyond
/// ASCII (Unicode `Lowercase` mapping; a character may map to several).
pub uninterp spec fn unicode_lowercase(s: Seq<char>) -> Seq<char>;

/// What `char::to_uppercase` yields for a character beyond ASCII (Unicode
/// uppercase mapping; possibly several characters).
pub uninterp spec fn unicode_uppercase(c: char) -> Seq<char>;

/// The lowercase mapping of a string as `str::to_lowercase` computes it: on
/// ASCII text, each of `A` to `Z` becomes its lowercase letter and nothing
/// else changes; beyond ASCII, the Unicode mapping.
pub open spec fn lowercase_of(s: Seq<char>) -> Seq<char> {
    if ascii_text(s) {
        s.map_values(|c: char| ascii_lower(c))
    } else {
        unicode_lowercase(s)
    }
}

/// The uppercase mapping of one character as `char::to_uppercase` yields
/// it: for ASCII, the one character uppercased; beyond ASCII, the Unicode
/// mapping.
pub open spec fn uppercase_of(c: char) -> Seq<char> {
    if ascii_char(c) {
        seq![ascii_upper(c)]
    } else {
        unicode_uppercase(c)
    }
}

/// Whether `c` has the Unicode `White_Space` property, the property that
/// `char::is_whitespace` tests: the controls from tab to carriage return,
/// space, next line, no-break space, ogham space mark, the spaces from en
/// quad to hair space, the line and paragraph separators, narrow no-break
/// space, medium mathematical space and ideographic space.
pub open spec fn white_space(c: char) -> bool {
    let n = c as u32;
    ||| 0x09 <= n <= 0x0D
    ||| n == 0x20
    ||| n == 0x85
    ||| n == 0xA0
    ||| n == 0x1680
    ||| 0x2000 <= n <= 0x200A
    ||| n == 0x2028
    ||| n == 0x2029
    ||| n == 0x202F
    ||| n == 0x205F
    ||| n == 0x3000
}

/// `s` without its leading whitespace.
pub open spec fn trim_start(s: Seq<char>) -> Seq<char>
    decreases s.len(),
{
    if s.len() > 0 && white_space(s[0]) {
        trim_start(s.drop_first())
    } else {
        s
    }
}

/// `s` without its trailing whitespace.
pub open spec fn trim_end(s: Seq<char>) -> Seq<char>
    decreases s.len(),
{
    if s.len() > 0 && white_space(s.last()) {
        trim_end(s.drop_last())
    } else {
        s
    }
}

/// `s` without leading and trailing whitespace, as `str::trim` returns it.
pub open spec fn trim(s: Seq<char>) -> Seq<char> {
    trim_end(trim_start(s))
}

/// The words of `s` that are still to come when `cur` holds the word read so
/// far: maximal runs of non-whitespace characters, in order.
pub open spec fn words_from(s: Seq<char>, cur: Seq<char>) -> Seq<Seq<char>>
    decreases s.len(),
{
    if s.len() == 0 {
        if cur.len() > 0 { seq![cur] } else { seq![] }
    } else if white_space(s[0]) {
        (if cur.len() > 0 { seq![cur] } else { seq![] }) + words_from(s.drop_first(), seq![])
    } else {
        words_from(s.drop_first(), cur.push(s[0]))
    }
}

/// The words of `s`, as `str::split_whitespace` yields them.
pub open spec fn words(s: Seq<char>) -> Seq<Seq<char>> {
    words_from(s, seq![])
}

/// The pieces of `parts` joined by `sep`.
pub open spec fn join(parts: Seq<Seq<char>>, sep: Seq<char>) -> Seq<char>
    decreases parts.len(),
{
    if parts.len() == 0 {
        seq![]
    } else if parts.len() == 1 {
        parts[0]
    } else {
        join(parts.drop_last(), sep) + sep + parts.last()
    }
}

/// The views of a vector of character vectors.
pub open spec fn views(v: Seq<Vec<char>>) -> Seq<Seq<char>> {
    v.map_values(|w: Vec<char>| w@)
}

// ---------------------------------------------------------------------------
// Conversions and calls into the standard library
// ---------------------------------------------------------------------------

/// Builds a `String` from characters (`FromIterator<&char>` for `String`);
/// the string holds exactly those characters.
#[verifier::external_body]
pub fn string_from_chars(v: &Vec<char>) -> (r: String)
    ensures
        r@ == v@,
{
    v.iter().collect()
}

/// `str::to_lowercase`: on ASCII text its documented mapping of `A` to `Z`
/// onto `a` to `z` (every other ASCII character has no lowercase mapping and
/// stays); beyond ASCII the named Unicode mapping of `s`.
#[verifier::external_body]
pub fn lowercase(s: &str) -> (r: String)
    ensures
        ascii_text(s@) ==> r@ == s@.map_values(|c: char| ascii_lower(c)),
        !ascii_text(s@) ==> r@ == unicode_lowercase(s@),
{
    s.to_lowercase()
}

/// `char::to_uppercase`, collected into a `String`: for an ASCII character
/// the one character uppercased (`a` to `z` onto `A` to `Z`, the rest kept);
/// beyond ASCII the named Unicode mapping of `c`.
#[verifier::external_body]
pub fn uppercase_char(c: char) -> (r: String)
    ensures
        ascii_char(c) ==> r@ == seq![ascii_upper(c)],
        !ascii_char(c) ==> r@ == unicode_uppercase(c),
{
    c.to_uppercase().collect()
}

/// Whether `c` is whitespace, as `char::is_whitespace` answers.
pub fn is_whitespace(c: char) -> (r: bool)
    ensures
        r == white_space(c),
{
    let n = c as u32;
    (0x09 <= n && n <= 0x0D) || n == 0x20 || n == 0x85 || n == 0xA0 || n == 0x1680 || (0x2000 <= n
        && n <= 0x200A) || n == 0x2028 || n == 0x2029 || n == 0x202F || n == 0x205F || n == 0x3000
}

/// The characters of `s`, in order.
pub fn to_chars(s: &str) -> (r: Vec<char>)
    ensures
        r@ == s@,
{
    let mut r: Vec<char> = Vec::new();
    for c in it: s.chars()
        invariant
            r@ == it.seq().take(it.index() as int),
            it.seq() == s@,
    {
        r.push(c);
    }
    r
}

} // verus!

verus! {

/// Whether `p` occurs in `s` at position `i`.
pub fn occurs_at_exec(s: &Vec<char>, p: &Vec<char>, i: usize) -> (r: bool)
    ensures
        r == occurs_at(s@, p@, i as int),
{
    if i > s.len() || p.len() > s.len() - i {
        return false;
    }
    let mut k: usize = 0;
    while k < p.len()
        invariant
            i + p.len() <= s.len(),
            k <= p.len(),
            forall|j: int| 0 <= j < k ==> s@[i + j] == p@[j],
        decreases p.len() - k,
    {
        if s[i + k] != p[k] {
            assert(s@.subrange(i as int, i + p.len())[k as int] != p@[k as int]);
            return false;
        }
        k = k + 1;
    }
    assert(s@.subrange(i as int, i + p.len()) =~= p@);
    true
}

/// Whether `s` ends with `p`.
pub fn ends_with_exec(s: &Vec<char>, p: &Vec<char>) -> (r: bool)
    ensures
        r == ends_with(s@, p@),
{
    if p.len() > s.len() {
        false
    } else {
        occurs_at_exec(s, p, s.len() - p.len())
    }
}

/// Whether `p` occurs in `s` (`str::contains` with a string pattern).
pub fn contains_exec(s: &Vec<char>, p: &Vec<char>) -> (r: bool)
    ensures
        r == contains(s@, p@),
{
    if p.len() > s.len() {
        assert forall|i: int| !occurs_at(s@, p@, i) by {}
        return false;
    }
    let limit = s.len() - p.len();
    let mut i: usize = 0;
    loop
        invariant
            limit == s.len() - p.len(),
            i <= limit,
            forall|j: int| 0 <= j < i ==> !occurs_at(s@, p@, j),
        ensures
            forall|j: int| 0 <= j <= limit ==> !occurs_at(s@, p@, j),
        decreases limit - i,
    {
        if occurs_at_exec(s, p, i) {
            return true;
        }
        if i == limit {
            break;
        }
        i = i + 1;
    }
    assert forall|j: int| !occurs_at(s@, p@, j) by {
        if 0 <= j <= limit {
        }
    }
    false
}

/// The first `n` characters of `s`.
pub fn prefix(s: &Vec<char>, n: usize) -> (r: Vec<char>)
    requires
        n <= s.len(),
    ensures
        r@ == s@.subrange(0, n as int),
{
    let mut r: Vec<char> = Vec::new();
    let mut i: usize = 0;
    while i < n
        invariant
            n <= s.len(),
            i <= n,
            r@ == s@.subrange(0, i as int),
        decreases n - i,
    {
        r.push(s[i]);
        i = i + 1;
        assert(r@ =~= s@.subrange(0, i as int));
    }
    r
}

proof fn lemma_subrange_of_prefix(s: Seq<char>, a: int, b: int)
    requires
        0 <= a <= b <= s.len(),
    ensures
        s.subrange(0, b).subrange(0, a) == s.subrange(0, a),
{
    assert(s.subrange(0, b).subrange(0, a) =~= s.subrange(0, a));
}

/// `s` with every suffix equal to `p` removed repeatedly
/// (`str::trim_end_matches` with a string pattern).
pub fn trim_end_matches_exec(s: &Vec<char>, p: &Vec<char>) -> (r: Vec<char>)
    ensures
        r@ == trim_end_matches(s@, p@),
{
    let mut end: usize = s.len();
    assert(s@.subrange(0, end as int) =~= s@);
    loop
        invariant
            end <= s.len(),
            trim_end_matches(s@.subrange(0, end as int), p@) == trim_end_matches(s@, p@),
        ensures
            end <= s.len(),
            trim_end_matches(s@.subrange(0, end as int), p@) == trim_end_matches(s@, p@),
            trim_end_matches(s@.subrange(0, end as int), p@) == s@.subrange(0, end as int),
        decreases end,
    {
        let ghost cur = s@.subrange(0, end as int);
        if p.len() == 0 || p.len() > end {
            break;
        }
        let hit = occurs_at_exec(s, p, end - p.len());
        proof {
            assert(cur.subrange(cur.len() - p@.len(), cur.len() as int) =~= s@.subrange(
                end - p.len(),
                end as int,
            ));
        }
        if !hit {
            break;
        }
        proof {
            lemma_subrange_of_prefix(s@, end - p.len(), end as int);
        }
        end = end - p.len();
    }
    prefix(s, end)
}

} // verus!

verus! {

proof fn lemma_replace_all_step(s: Seq<char>, p: Seq<char>, t: Seq<char>, i: int)
    requires
        0 <= i < s.len(),
        p.len() > 0,
    ensures
        starts_with(s.subrange(i, s.len() as int), p) ==> i + p.len() <= s.len() && replace_all(
            s.subrange(i, s.len() as int),
            p,
            t,
        ) == t + replace_all(s.subrange(i + p.len(), s.len() as int), p, t),
        !starts_with(s.subrange(i, s.len() as int), p) ==> replace_all(
            s.subrange(i, s.len() as int),
            p,
            t,
        ) == seq![s[i]] + replace_all(s.subrange(i + 1, s.len() as int), p, t),
{
    let rest = s.subrange(i, s.len() as int);
    if starts_with(rest, p) {
        assert(rest.subrange(p.len() as int, rest.len() as int) =~= s.subrange(
            i + p.len(),
            s.len() as int,
        ));
    } else {
        assert(rest.drop_first() =~= s.subrange(i + 1, s.len() as int));
    }
}

/// `s` with every leftmost non-overlapping occurrence of `p` replaced by `t`
/// (`str::replace` with a non-empty string pattern).
pub fn replace_all_exec(s: &Vec<char>, p: &Vec<char>, t: &Vec<char>) -> (r: Vec<char>)
    requires
        p.len() > 0,
    ensures
        r@ == replace_all(s@, p@, t@),
{
    let mut out: Vec<char> = Vec::new();
    let mut i: usize = 0;
    assert(s@.subrange(0, s.len() as int) =~= s@);
    while i < s.len()
        invariant
            p.len() > 0,
            i <= s.len(),
            out@ + replace_all(s@.subrange(i as int, s.len() as int), p@, t@) == replace_all(
                s@,
                p@,
                t@,
            ),
        decreases s.len() - i,
    {
        let ghost before = out@;
        let rest_len = s.len() - i;
        proof {
            lemma_replace_all_step(s@, p@, t@, i as int);
        }
        let hit = occurs_at_exec(s, p, i);
        proof {
            assert(s@.subrange(i as int, s.len() as int).subrange(0, p.len() as int) =~= s@.subrange(
                i as int,
                i + p.len(),
            ) || p.len() > rest_len);
        }
        if hit {
            let mut k: usize = 0;
            while k < t.len()
                invariant
                    k <= t.len(),
                    out@ == before + t@.subrange(0, k as int),
                decreases t.len() - k,
            {
                out.push(t[k]);
                k = k + 1;
                assert(out@ =~= before + t@.subrange(0, k as int));
            }
            assert(t@.subrange(0, t.len() as int) =~= t@);
            assert(before + (t@ + replace_all(s@.subrange(i + p.len(), s.len() as int), p@, t@))
                =~= (before + t@) + replace_all(s@.subrange(i + p.len(), s.len() as int), p@, t@));
            i = i + p.len();
        } else {
            out.push(s[i]);
            assert(before + (seq![s@[i as int]] + replace_all(s@.subrange(i + 1, s.len() as int), p@, t@))
                =~= out@ + replace_all(s@.subrange(i + 1, s.len() as int), p@, t@));
            i = i + 1;
        }
    }
    assert(s@.subrange(i as int, s.len() as int) =~= Seq::<char>::empty());
    assert(out@ + Seq::<char>::empty() =~= out@);
    out
}

/// `s` with the characters `_`, `-` and `.` each replaced by a space.
pub open spec fn separators_to_spaces(s: Seq<char>) -> Seq<char> {
    s.map_values(|c: char| if c == '_' || c == '-' || c == '.' { ' ' } else { c })
}

/// `s` with the characters `_`, `-` and `.` each replaced by a space.
pub fn separators_to_spaces_exec(s: &Vec<char>) -> (r: Vec<char>)
    ensures
        r@ == separators_to_spaces(s@),
{
    let mut out: Vec<char> = Vec::new();
    let mut i: usize = 0;
    while i < s.len()
        invariant
            i <= s.len(),
            out@ == separators_to_spaces(s@.subrange(0, i as int)),
        decreases s.len() - i,
    {
        let c = s[i];
        if c == '_' || c == '-' || c == '.' {
            out.push(' ');
        } else {
            out.push(c);
        }
        i = i + 1;
        assert(out@ =~= separators_to_spaces(s@.subrange(0, i as int)));
    }
    assert(s@.subrange(0, s.len() as int) =~= s@);
    out
}

/// `s` without leading and trailing whitespace (`str::trim`).
pub fn trim_exec(s: &Vec<char>) -> (r: Vec<char>)
    ensures
        r@ == trim(s@),
{
    let mut a: usize = 0;
    assert(s@.subrange(0, s.len() as int) =~= s@);
    while a < s.len() && is_whitespace(s[a])
        invariant
            a <= s.len(),
            trim_start(s@.subrange(a as int, s.len() as int)) == trim_start(s@),
        decreases s.len() - a,
    {
        assert(s@.subrange(a as int, s.len() as int).drop_first() =~= s@.subrange(
            a + 1,
            s.len() as int,
        ));
        a = a + 1;
    }
    let ghost mid = s@.subrange(a as int, s.len() as int);
    assert(trim_start(mid) == mid);
    let mut b: usize = s.len();
    assert(s@.subrange(a as int, b as int) =~= mid);
    while b > a && is_whitespace(s[b - 1])
        invariant
            a <= b <= s.len(),
            mid == s@.subrange(a as int, s.len() as int),
            trim_end(s@.subrange(a as int, b as int)) == trim_end(mid),
        decreases b,
    {
        assert(s@.subrange(a as int, b as int).drop_last() =~= s@.subrange(a as int, b - 1));
        b = b - 1;
    }
    let mut out: Vec<char> = Vec::new();
    let mut i: usize = a;
    while i < b
        invariant
            a <= i <= b,
            b <= s.len(),
            out@ == s@.subrange(a as int, i as int),
        decreases b - i,
    {
        out.push(s[i]);
        i = i + 1;
        assert(out@ =~= s@.subrange(a as int, i as int));
    }
    out
}

/// Whether `s` is empty once trimmed (`s.trim().is_empty()`).
pub fn is_blank(s: &str) -> (r: bool)
    ensures
        r == (trim(s@).len() == 0),
{
    let cs = to_chars(s);
    let t = trim_exec(&cs);
    t.len() == 0
}

/// `s.trim()` as a `String`.
pub fn trimmed(s: &str) -> (r: String)
    ensures
        r@ == trim(s@),
{
    let cs = to_chars(s);
    let t = trim_exec(&cs);
    string_from_chars(&t)
}

} // verus!

verus! {

/// The words of `s`: maximal runs of non-whitespace characters, in order
/// (`str::split_whitespace`).
pub fn split_whitespace_exec(s: &Vec<char>) -> (r: Vec<Vec<char>>)
    ensures
        views(r@) == words(s@),
{
    let mut out: Vec<Vec<char>> = Vec::new();
    let mut cur: Vec<char> = Vec::new();
    let mut i: usize = 0;
    assert(s@.subrange(0, s.len() as int) =~= s@);
    assert(views(out@) =~= Seq::<Seq<char>>::empty());
    while i < s.len()
        invariant
            i <= s.len(),
            views(out@) + words_from(s@.subrange(i as int, s.len() as int), cur@) == words(s@),
        decreases s.len() - i,
    {
        let ghost rest = s@.subrange(i as int, s.len() as int);
        assert(rest.drop_first() =~= s@.subrange(i + 1, s.len() as int));
        let c = s[i];
        if is_whitespace(c) {
            if cur.len() > 0 {
                let ghost before = views(out@);
                let w = cur;
                out.push(w);
                assert(views(out@) =~= before.push(w@));
                assert(before + (seq![w@] + words_from(s@.subrange(i + 1, s.len() as int), seq![]))
                    =~= views(out@) + words_from(s@.subrange(i + 1, s.len() as int), seq![]));
            } else {
                assert(Seq::<Seq<char>>::empty() + words_from(
                    s@.subrange(i + 1, s.len() as int),
                    seq![],
                ) =~= words_from(s@.subrange(i + 1, s.len() as int), seq![]));
            }
            cur = Vec::new();
            assert(cur@ =~= Seq::<char>::empty());
        } else {
            cur.push(c);
        }
        i = i + 1;
    }
    assert(s@.subrange(i as int, s.len() as int) =~= Seq::<char>::empty());
    if cur.len() > 0 {
        let ghost before = views(out@);
        let w = cur;
        out.push(w);
        assert(views(out@) =~= before.push(w@));
        assert(before + seq![w@] =~= views(out@));
    } else {
        assert(views(out@) + Seq::<Seq<char>>::empty() =~= views(out@));
    }
    out
}

/// The pieces of `parts` joined by `sep`.
pub fn join_exec(parts: &Vec<Vec<char>>, sep: &Vec<char>) -> (r: Vec<char>)
    ensures
        r@ == join(views(parts@), sep@),
{
    let mut out: Vec<char> = Vec::new();
    let mut i: usize = 0;
    while i < parts.len()
        invariant
            i <= parts.len(),
            out@ == join(views(parts@).subrange(0, i as int), sep@),
        decreases parts.len() - i,
    {
        let ghost before = out@;
        if i > 0 {
            let mut k: usize = 0;
            while k < sep.len()
                invariant
                    k <= sep.len(),
                    out@ == before + sep@.subrange(0, k as int),
                decreases sep.len() - k,
            {
                out.push(sep[k]);
                k = k + 1;
                assert(out@ =~= before + sep@.subrange(0, k as int));
            }
            assert(sep@.subrange(0, sep.len() as int) =~= sep@);
        }
        let ghost mid = out@;
        let w = &parts[i];
        let mut k: usize = 0;
        while k < w.len()
            invariant
                k <= w.len(),
                out@ == mid + w@.subrange(0, k as int),
            decreases w.len() - k,
        {
            out.push(w[k]);
            k = k + 1;
            assert(out@ =~= mid + w@.subrange(0, k as int));
        }
        assert(w@.subrange(0, w.len() as int) =~= w@);
        let ghost next = views(parts@).subrange(0, i + 1);
        assert(next.drop_last() =~= views(parts@).subrange(0, i as int));
        assert(next.last() == parts@[i as int]@);
        if i == 0 {
            assert(next.len() == 1);
            assert(out@ =~= w@);
        }
        i = i + 1;
    }
    assert(views(parts@).subrange(0, parts.len() as int) =~= views(parts@));
    out
}

} // verus!

verus! {

/// The views of an optional string.
pub open spec fn opt_view(o: Option<String>) -> Option<Seq<char>> {
    match o {
        Some(s) => Some(s@),
        None => None,
    }
}

/// A copy of an optional string.
pub fn clone_opt(o: &Option<String>) -> (r: Option<String>)
    ensures
        r == *o,
{
    match o {
        Some(s) => Some(s.clone()),
        None => None,
    }
}

/// Whether two optional strings hold the same text.
pub fn opt_str_eq(a: &Option<String>, b: &Option<String>) -> (r: bool)
    ensures
        r == (opt_view(*a) == opt_view(*b)),
{
    match (a, b) {
        (Some(x), Some(y)) => *x == *y,
        (None, None) => true,
        _ => false,
    }
}

/// Whether `p` occurs in `s`, for a pattern given as text.
pub fn contains_str(s: &Vec<char>, p: &str) -> (r: bool)
    ensures
        r == contains(s@, p@),
{
    let pc = to_chars(p);
    contains_exec(s, &pc)
}

/// Whether `s` ends with `p`, for a pattern given as text.
pub fn ends_with_str(s: &Vec<char>, p: &str) -> (r: bool)
    ensures
        r == ends_with(s@, p@),
{
    let pc = to_chars(p);
    ends_with_exec(s, &pc)
}

/// `s` with every suffix equal to `p` removed repeatedly, for a pattern
/// given as text.
pub fn trim_end_matches_str(s: &Vec<char>, p: &str) -> (r: Vec<char>)
    ensures
        r@ == trim_end_matches(s@, p@),
{
    let pc = to_chars(p);
    trim_end_matches_exec(s, &pc)
}

} // verus!

verus! {

/// The three texts one after the other.
pub fn concat3(a: &str, b: &str, c: &str) -> (r: String)
    ensures
        r@ == a@ + b@ + c@,
{
    let mut v = to_chars(a);
    let bv = to_chars(b);
    let cv = to_chars(c);
    let mut i: usize = 0;
    let ghost start = v@;
    while i < bv.len()
        invariant
            i <= bv@.len(),
            v@ == start + bv@.subrange(0, i as int),
        decreases bv@.len() - i,
    {
        v.push(bv[i]);
        i = i + 1;
        assert(v@ =~= start + bv@.subrange(0, i as int));
    }
    assert(bv@.subrange(0, bv@.len() as int) =~= bv@);
    let ghost mid = v@;
    let mut j: usize = 0;
    while j < cv.len()
        invariant
            j <= cv@.len(),
            v@ == mid + cv@.subrange(0, j as int),
        decreases cv@.len() - j,
    {
        v.push(cv[j]);
        j = j + 1;
        assert(v@ =~= mid + cv@.subrange(0, j as int));
    }
    assert(cv@.subrange(0, cv@.len() as int) =~= cv@);
    string_from_chars(&v)
}

} // verus!
