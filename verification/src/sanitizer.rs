//! Turning raw executable names into readable titles.

use vstd::prelude::*;
use crate::text::{
    ascii_char, ascii_lower, ascii_text, ascii_upper, ends_with, join, join_exec, lowercase,
    lowercase_of, separators_to_spaces, separators_to_spaces_exec, split_whitespace_exec,
    string_from_chars, to_chars, trim_end_matches, trim_end_matches_exec, uppercase_char,
    uppercase_of, views, white_space, words, words_from,
};

verus! {

/// A word with its first character uppercased; the rest is kept as is.
pub open spec fn capitalize(w: Seq<char>) -> Seq<char> {
    if w.len() == 0 {
        seq![]
    } else {
        uppercase_of(w[0]) + w.drop_first()
    }
}

/// The readable title for a raw binary name: lowercased, a trailing run of
/// `.exe` removed, `_`, `-` and `.` turned into spaces, split into words,
/// each word capitalised and the words joined by single spaces; a name with
/// no words at all is returned unchanged.
pub open spec fn display_title(raw: Seq<char>) -> Seq<char> {
    title_from_lowered(raw, lowercase_of(raw))
}

/// The readable title for a raw binary name, given the name lowercased:
/// a trailing run of `.exe` removed, `_`, `-` and `.` turned into spaces,
/// split into words, each word capitalised and the words joined by single
/// spaces; with no words at all, the raw name.
pub open spec fn title_from_lowered(raw: Seq<char>, lower: Seq<char>) -> Seq<char> {
    let ws = title_words(lower);
    if ws.len() == 0 {
        raw
    } else {
        join(ws.map_values(|w: Seq<char>| capitalize(w)), " "@)
    }
}

/// The words of a lowercased name: without its trailing `.exe` run, with
/// `_`, `-` and `.` as spaces.
pub open spec fn title_words(lower: Seq<char>) -> Seq<Seq<char>> {
    words(separators_to_spaces(trim_end_matches(lower, ".exe"@)))
}

/// One word with its first character uppercased.
fn capitalize_exec(w: &Vec<char>) -> (r: Vec<char>)
    ensures
        r@ == capitalize(w@),
{
    if w.len() == 0 {
        return Vec::new();
    }
    let up = uppercase_char(w[0]);
    let mut out = to_chars(up.as_str());
    let ghost head = out@;
    let mut i: usize = 1;
    while i < w.len()
        invariant
            1 <= i <= w.len(),
            out@ == head + w@.subrange(1, i as int),
        decreases w.len() - i,
    {
        out.push(w[i]);
        i = i + 1;
        assert(out@ =~= head + w@.subrange(1, i as int));
    }
    assert(w@.subrange(1, w.len() as int) =~= w@.drop_first());
    out
}

/// Converts raw binary names like "monster_hunter_world" or "eldenring" into
/// readable titles ("Monster Hunter World", "Eldenring").
pub fn sanitize_to_display_title(raw_name: &str) -> (r: String)
    ensures
        r@ == display_title(raw_name@),
{
    let lower = lowercase(raw_name);
    title_from_lowered_name(raw_name, lower.as_str())
}

/// The readable title of a raw binary name, given the name lowercased.
pub fn title_from_lowered_name(raw_name: &str, lower: &str) -> (r: String)
    ensures
        r@ == title_from_lowered(raw_name@, lower@),
{
    let lower_chars = to_chars(lower);
    let ext = to_chars(".exe");
    let without_ext = trim_end_matches_exec(&lower_chars, &ext);
    let with_spaces = separators_to_spaces_exec(&without_ext);
    let ws = split_whitespace_exec(&with_spaces);
    if ws.len() == 0 {
        return string_from_chars(&to_chars(raw_name));
    }
    let mut caps: Vec<Vec<char>> = Vec::new();
    let mut i: usize = 0;
    while i < ws.len()
        invariant
            i <= ws.len(),
            views(caps@) == views(ws@).subrange(0, i as int).map_values(
                |w: Seq<char>| capitalize(w),
            ),
        decreases ws.len() - i,
    {
        let ghost before = views(caps@);
        let c = capitalize_exec(&ws[i]);
        caps.push(c);
        assert(views(caps@) =~= before.push(c@));
        i = i + 1;
        assert(views(caps@) =~= views(ws@).subrange(0, i as int).map_values(
            |w: Seq<char>| capitalize(w),
        ));
    }
    assert(views(ws@).subrange(0, ws.len() as int) =~= views(ws@));
    let sep = to_chars(" ");
    let joined = join_exec(&caps, &sep);
    string_from_chars(&joined)
}

} // verus!

verus! {

/// A character that a word of a title can hold once lowercased: ASCII, its
/// own lowercase, no whitespace and no separator.
pub open spec fn word_char(c: char) -> bool {
    ascii_char(c) && ascii_lower(c) == c && !white_space(c) && c != '_' && c != '-' && c != '.'
}

/// A word made of such characters, not empty.
pub open spec fn plain_word(w: Seq<char>) -> bool {
    w.len() > 0 && forall|i: int| 0 <= i < w.len() ==> word_char(#[trigger] w[i])
}

/// `s` with each ASCII uppercase letter lowercased.
pub open spec fn ascii_lowered(s: Seq<char>) -> Seq<char> {
    s.map_values(|c: char| ascii_lower(c))
}

proof fn lemma_ascii_case(c: char)
    requires
        ascii_char(c),
    ensures
        ascii_char(ascii_lower(c)),
        ascii_lower(ascii_lower(c)) == ascii_lower(c),
        ascii_lower(c) == c ==> ascii_char(ascii_upper(c)) && ascii_lower(ascii_upper(c)) == c,
{
}

/// What is left of `s` after trimming is a prefix of `s`.
proof fn lemma_trim_prefix(s: Seq<char>, p: Seq<char>)
    ensures
        trim_end_matches(s, p).len() <= s.len(),
        forall|i: int| 0 <= i < trim_end_matches(s, p).len() ==> #[trigger] trim_end_matches(s, p)[i] == s[i],
    decreases s.len(),
{
    if p.len() > 0 && ends_with(s, p) {
        let t = s.subrange(0, s.len() - p.len());
        lemma_trim_prefix(t, p);
    }
}

/// The words still to come are plain when the text holds only whitespace and
/// word characters, and the word read so far holds only word characters.
proof fn lemma_words_plain(s: Seq<char>, cur: Seq<char>)
    requires
        forall|i: int| 0 <= i < s.len() ==> white_space(#[trigger] s[i]) || word_char(s[i]),
        forall|i: int| 0 <= i < cur.len() ==> word_char(#[trigger] cur[i]),
    ensures
        forall|k: int| 0 <= k < words_from(s, cur).len() ==> plain_word(#[trigger] words_from(s, cur)[k]),
    decreases s.len(),
{
    if s.len() > 0 {
        let rest = s.drop_first();
        assert forall|i: int| 0 <= i < rest.len() implies white_space(#[trigger] rest[i]) || word_char(
            rest[i],
        ) by {
            assert(rest[i] == s[i + 1]);
        }
        if white_space(s[0]) {
            lemma_words_plain(rest, seq![]);
            let head: Seq<Seq<char>> = if cur.len() > 0 { seq![cur] } else { seq![] };
            assert(words_from(s, cur) == head + words_from(rest, seq![]));
            assert forall|k: int| 0 <= k < words_from(s, cur).len() implies plain_word(
                #[trigger] words_from(s, cur)[k],
            ) by {
                if k >= head.len() {
                    assert(words_from(s, cur)[k] == words_from(rest, seq![])[k - head.len()]);
                } else {
                    assert(words_from(s, cur)[k] == cur);
                }
            }
        } else {
            let next = cur.push(s[0]);
            assert forall|i: int| 0 <= i < next.len() implies word_char(#[trigger] next[i]) by {
                if i < cur.len() {
                    assert(next[i] == cur[i]);
                }
            }
            lemma_words_plain(rest, next);
            assert(words_from(s, cur) == words_from(rest, next));
        }
    } else if cur.len() > 0 {
        assert(words_from(s, cur) == seq![cur]);
        assert(plain_word(cur));
    }
}

/// Joining a list of at least two pieces is its first piece, the separator
/// and the rest joined.
proof fn lemma_join_front(parts: Seq<Seq<char>>, sep: Seq<char>)
    requires
        parts.len() >= 2,
    ensures
        join(parts, sep) == parts[0] + sep + join(parts.drop_first(), sep),
    decreases parts.len(),
{
    let rest = parts.drop_first();
    if parts.len() == 2 {
        assert(parts.drop_last().len() == 1);
        assert(rest.len() == 1);
        assert(join(parts.drop_last(), sep) == parts[0]);
        assert(join(rest, sep) == rest[0]);
    } else {
        let init = parts.drop_last();
        lemma_join_front(init, sep);
        assert(init.drop_first() =~= rest.drop_last());
        assert(rest.last() == parts.last());
        assert(join(rest, sep) == join(rest.drop_last(), sep) + sep + rest.last());
        assert(parts[0] + sep + join(rest, sep) =~= (parts[0] + sep + join(init.drop_first(), sep)) + sep
            + parts.last());
    }
}

/// Reading past characters that are not whitespace adds them to the word.
proof fn lemma_words_skip(a: Seq<char>, t: Seq<char>, cur: Seq<char>)
    requires
        forall|i: int| 0 <= i < a.len() ==> !white_space(#[trigger] a[i]),
    ensures
        words_from(a + t, cur) == words_from(t, cur + a),
    decreases a.len(),
{
    if a.len() == 0 {
        assert(a + t =~= t);
        assert(cur + a =~= cur);
    } else {
        let rest = a.drop_first();
        assert forall|i: int| 0 <= i < rest.len() implies !white_space(#[trigger] rest[i]) by {
            assert(rest[i] == a[i + 1]);
        }
        lemma_words_skip(rest, t, cur.push(a[0]));
        assert((a + t).drop_first() =~= rest + t);
        assert((a + t)[0] == a[0]);
        assert(cur.push(a[0]) + rest =~= cur + a);
    }
}

/// The words of plain words joined by single spaces are those words.
proof fn lemma_words_of_join(ws: Seq<Seq<char>>)
    requires
        forall|k: int| 0 <= k < ws.len() ==> plain_word(#[trigger] ws[k]),
    ensures
        words(join(ws, " "@)) == ws,
    decreases ws.len(),
{
    reveal_strlit(" ");
    if ws.len() == 0 {
    } else if ws.len() == 1 {
        assert(plain_word(ws[0]));
        lemma_words_skip(ws[0], seq![], seq![]);
        assert(ws[0] + Seq::<char>::empty() =~= ws[0]);
        assert(Seq::<char>::empty() + ws[0] =~= ws[0]);
        assert(words_from(seq![], ws[0]) == seq![ws[0]]);
        assert(seq![ws[0]] =~= ws);
    } else {
        let rest = ws.drop_first();
        assert forall|k: int| 0 <= k < rest.len() implies plain_word(#[trigger] rest[k]) by {
            assert(rest[k] == ws[k + 1]);
        }
        lemma_words_of_join(rest);
        lemma_join_front(ws, " "@);
        let j = join(rest, " "@);
        assert(plain_word(ws[0]));
        assert(ws[0] + " "@ + j =~= ws[0] + (" "@ + j));
        lemma_words_skip(ws[0], " "@ + j, seq![]);
        assert(Seq::<char>::empty() + ws[0] =~= ws[0]);
        let st = " "@ + j;
        assert(st[0] == ' ');
        assert(white_space(' '));
        assert(st.drop_first() =~= j);
        assert(words_from(st, ws[0]) == seq![ws[0]] + words_from(j, seq![]));
        assert(seq![ws[0]] + rest =~= ws);
    }
}

/// Lowercasing (ASCII) a join is joining the lowercased pieces with the
/// lowercased separator.
proof fn lemma_lowered_join(caps: Seq<Seq<char>>, ws: Seq<Seq<char>>)
    requires
        caps.len() == ws.len(),
        forall|k: int| 0 <= k < caps.len() ==> ascii_lowered(#[trigger] caps[k]) == ws[k],
    ensures
        ascii_lowered(join(caps, " "@)) == join(ws, " "@),
    decreases caps.len(),
{
    reveal_strlit(" ");
    if caps.len() == 1 {
        assert(ascii_lowered(caps[0]) == ws[0]);
    } else if caps.len() > 1 {
        let ci = caps.drop_last();
        let wi = ws.drop_last();
        assert forall|k: int| 0 <= k < ci.len() implies ascii_lowered(#[trigger] ci[k]) == wi[k] by {
            assert(ci[k] == caps[k]);
            assert(wi[k] == ws[k]);
        }
        lemma_lowered_join(ci, wi);
        assert(ascii_lowered(" "@) =~= " "@);
        assert(ascii_lowered(caps.last()) == ws.last());
        assert(ascii_lowered(join(ci, " "@) + " "@ + caps.last()) =~= ascii_lowered(join(ci, " "@))
            + ascii_lowered(" "@) + ascii_lowered(caps.last()));
    }
}

/// A join of pieces whose characters all satisfy `good`, with a separator
/// whose characters do too, holds only such characters.
proof fn lemma_join_chars(parts: Seq<Seq<char>>, sep: Seq<char>, good: spec_fn(char) -> bool)
    requires
        forall|k: int, i: int| 0 <= k < parts.len() && 0 <= i < parts[k].len() ==> good(#[trigger] parts[k][i]),
        forall|i: int| 0 <= i < sep.len() ==> good(#[trigger] sep[i]),
    ensures
        forall|i: int| 0 <= i < join(parts, sep).len() ==> good(#[trigger] join(parts, sep)[i]),
    decreases parts.len(),
{
    if parts.len() == 1 {
        assert forall|i: int| 0 <= i < join(parts, sep).len() implies good(#[trigger] join(parts, sep)[i]) by {
            assert(join(parts, sep)[i] == parts[0][i]);
        }
    } else if parts.len() > 1 {
        let init = parts.drop_last();
        assert forall|k: int, i: int| 0 <= k < init.len() && 0 <= i < init[k].len() implies good(
            #[trigger] init[k][i],
        ) by {
            assert(init[k] == parts[k]);
        }
        lemma_join_chars(init, sep, good);
        let a = join(init, sep);
        let l = parts.last();
        assert forall|i: int| 0 <= i < join(parts, sep).len() implies good(#[trigger] join(parts, sep)[i]) by {
            assert(join(parts, sep) == a + sep + l);
            if i < a.len() {
                assert((a + sep + l)[i] == a[i]);
            } else if i < a.len() + sep.len() {
                assert((a + sep + l)[i] == sep[i - a.len()]);
            } else {
                assert((a + sep + l)[i] == l[i - a.len() - sep.len()]);
                assert(good(parts[parts.len() - 1][i - a.len() - sep.len()]));
            }
        }
    }
}

/// Sanitizing a title made of ASCII characters again gives it back: the
/// sanitizer is idempotent on ASCII names.
pub proof fn sanitizing_twice_is_sanitizing_once(raw: Seq<char>)
    requires
        ascii_text(raw),
    ensures
        display_title(display_title(raw)) == display_title(raw),
{
    reveal_strlit(".exe");
    reveal_strlit(" ");
    let l = lowercase_of(raw);
    assert(l == ascii_lowered(raw));
    let t = trim_end_matches(l, ".exe"@);
    lemma_trim_prefix(l, ".exe"@);
    let sp = separators_to_spaces(t);
    assert forall|i: int| 0 <= i < sp.len() implies white_space(#[trigger] sp[i]) || word_char(sp[i]) by {
        assert(t[i] == l[i]);
        assert(l[i] == ascii_lower(raw[i]));
        lemma_ascii_case(raw[i]);
        assert(white_space(' '));
    }
    let ws = words(sp);
    lemma_words_plain(sp, seq![]);
    if ws.len() > 0 {
        let caps = ws.map_values(|w: Seq<char>| capitalize(w));
        let out = join(caps, " "@);
        assert(display_title(raw) == out);
        assert forall|k: int| 0 <= k < caps.len() implies ascii_lowered(#[trigger] caps[k]) == ws[k] && (
        forall|i: int| 0 <= i < caps[k].len() ==> ascii_char(#[trigger] caps[k][i])) by {
            let w = ws[k];
            assert(plain_word(w));
            assert(word_char(w[0]));
            lemma_ascii_case(w[0]);
            assert(caps[k] == seq![ascii_upper(w[0])] + w.drop_first());
            assert(ascii_lowered(caps[k]) =~= w);
            assert forall|i: int| 0 <= i < caps[k].len() implies ascii_char(#[trigger] caps[k][i]) by {
                if i > 0 {
                    assert(caps[k][i] == w[i]);
                }
            }
        }
        let is_ascii = |c: char| ascii_char(c);
        lemma_join_chars(caps, " "@, is_ascii);
        assert(ascii_text(out));
        lemma_lowered_join(caps, ws);
        let l2 = lowercase_of(out);
        assert(l2 == join(ws, " "@));
        let in_text = |c: char| c == ' ' || word_char(c);
        assert forall|k: int, i: int| 0 <= k < ws.len() && 0 <= i < ws[k].len() implies in_text(
            #[trigger] ws[k][i],
        ) by {
            assert(plain_word(ws[k]));
        }
        lemma_join_chars(ws, " "@, in_text);
        if ends_with(l2, ".exe"@) {
            assert(l2.subrange(l2.len() - 4, l2.len() as int)[0] == '.');
            assert(in_text(l2[l2.len() - 4]));
        }
        assert(trim_end_matches(l2, ".exe"@) == l2);
        assert forall|i: int| 0 <= i < l2.len() implies #[trigger] separators_to_spaces(l2)[i] == l2[i] by {
            assert(in_text(l2[i]));
        }
        assert(separators_to_spaces(l2) =~= l2);
        lemma_words_of_join(ws);
        assert(title_words(l2) == ws);
    }
}

} // verus!
