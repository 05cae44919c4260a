//! Splitting text into lines and words, greedy word wrapping, and telling
//! which words look like links (which must not be broken).

use crate::env_file::{find_char, index_of, lemma_index_of_bounds};
use crate::text::{
    chars_of, contains_char, is_whitespace, push_str, spec_is_whitespace, starts_with,
    string_from_chars, string_from_range,
};
use vstd::prelude::*;

verus! {

// ---------------------------------------------------------------------------
// Lines
// ---------------------------------------------------------------------------

/// A line without the `'\r'` of a `"\r\n"` ending.
pub open spec fn strip_cr(l: Seq<char>) -> Seq<char> {
    if l.len() > 0 && l.last() == '\r' {
        l.drop_last()
    } else {
        l
    }
}

/// The lines of `t` as `str::lines` gives them: the pieces between
/// `'\n'`, each without the `'\r'` before its `'\n'`, and no empty piece
/// after a final `'\n'`.
pub open spec fn rust_lines(t: Seq<char>) -> Seq<Seq<char>>
    decreases t.len(),
{
    if t.len() == 0 {
        seq![]
    } else {
        let i = index_of(t, '\n');
        proof {
            lemma_index_of_bounds(t, '\n');
        }
        if i >= t.len() {
            seq![t]
        } else {
            seq![strip_cr(t.take(i))] + rust_lines(t.skip(i + 1))
        }
    }
}

/// The texts of a list of strings.
pub open spec fn strings_view(v: Seq<String>) -> Seq<Seq<char>> {
    v.map_values(|s: String| s@)
}

/// The lines of `text` (`str::lines`).
pub fn lines_of(text: &str) -> (r: Vec<String>)
    ensures
        strings_view(r@) == rust_lines(text@),
{
    let v = chars_of(text);
    let mut out: Vec<String> = Vec::new();
    let mut start: usize = 0;
    assert(v@.skip(0) =~= v@);
    while start < v.len()
        invariant
            v@ == text@,
            start <= v@.len(),
            rust_lines(text@) == strings_view(out@) + rust_lines(v@.skip(start as int)),
        decreases v.len() - start,
    {
        let ghost rest = v@.skip(start as int);
        let tail = rest_from(&v, start);
        let i = find_char(&tail, '\n');
        let ghost before = out@;
        if i >= tail.len() {
            let piece = string_from_chars(&tail);
            out.push(piece);
            assert(strings_view(out@) =~= strings_view(before) + seq![rest]);
            assert(v@.skip(v@.len() as int) =~= Seq::<char>::empty());
            assert(rust_lines(rest) == seq![rest]);
            start = v.len();
        } else {
            let mut end = i;
            if end > 0 && tail[end - 1] == '\r' {
                end = end - 1;
            }
            let piece = string_from_range(&tail, 0, end);
            assert(piece@ =~= strip_cr(rest.take(i as int)));
            out.push(piece);
            assert(strings_view(out@) =~= strings_view(before) + seq![strip_cr(rest.take(i as int))]);
            assert(rest.skip(i + 1) =~= v@.skip(start + i + 1));
            start = start + i + 1;
        }
    }
    assert(v@.skip(start as int) =~= Seq::<char>::empty());
    assert(strings_view(out@) + Seq::<Seq<char>>::empty() =~= strings_view(out@));
    out
}

/// The characters of `v` from `start` on.
fn rest_from(v: &Vec<char>, start: usize) -> (r: Vec<char>)
    requires
        start <= v@.len(),
    ensures
        r@ == v@.skip(start as int),
{
    let mut r: Vec<char> = Vec::new();
    let mut k: usize = start;
    while k < v.len()
        invariant
            start <= k <= v@.len(),
            r@ == v@.subrange(start as int, k as int),
        decreases v.len() - k,
    {
        r.push(v[k]);
        k = k + 1;
    }
    assert(r@ =~= v@.skip(start as int));
    r
}

// ---------------------------------------------------------------------------
// Words
// ---------------------------------------------------------------------------

/// Reading `s` from the left: the words completed so far and the word
/// being read.
pub open spec fn words_state(s: Seq<char>) -> (Seq<Seq<char>>, Seq<char>)
    decreases s.len(),
{
    if s.len() == 0 {
        (seq![], seq![])
    } else {
        let (done, cur) = words_state(s.drop_last());
        let c = s.last();
        if spec_is_whitespace(c) {
            if cur.len() > 0 {
                (done.push(cur), seq![])
            } else {
                (done, seq![])
            }
        } else {
            (done, cur.push(c))
        }
    }
}

/// The words of `s` as `str::split_whitespace` gives them: the maximal
/// runs of non-whitespace characters.
pub open spec fn words_of(s: Seq<char>) -> Seq<Seq<char>> {
    let (done, cur) = words_state(s);
    if cur.len() > 0 {
        done.push(cur)
    } else {
        done
    }
}

/// The texts of a list of character vectors.
pub open spec fn chars_view(v: Seq<Vec<char>>) -> Seq<Seq<char>> {
    v.map_values(|w: Vec<char>| w@)
}

/// The words of `s` (`str::split_whitespace`).
pub fn split_words(s: &str) -> (r: Vec<Vec<char>>)
    ensures
        chars_view(r@) == words_of(s@),
{
    let v = chars_of(s);
    let mut done: Vec<Vec<char>> = Vec::new();
    let mut cur: Vec<char> = Vec::new();
    let mut i: usize = 0;
    assert(v@.take(0) =~= Seq::<char>::empty());
    assert(chars_view(done@) =~= Seq::<Seq<char>>::empty());
    while i < v.len()
        invariant
            v@ == s@,
            i <= v@.len(),
            (chars_view(done@), cur@) == words_state(v@.take(i as int)),
        decreases v.len() - i,
    {
        let c = v[i];
        assert(v@.take(i + 1).drop_last() =~= v@.take(i as int));
        assert(v@.take(i + 1).last() == c);
        if is_whitespace(c) {
            if cur.len() > 0 {
                let ghost before = done@;
                let mut w: Vec<char> = Vec::new();
                std::mem::swap(&mut w, &mut cur);
                done.push(w);
                assert(chars_view(done@) =~= chars_view(before).push(w@));
            }
            cur = Vec::new();
        } else {
            cur.push(c);
        }
        i = i + 1;
    }
    assert(v@.take(i as int) =~= v@);
    if cur.len() > 0 {
        let ghost before = done@;
        let c2 = cur;
        done.push(c2);
        assert(chars_view(done@) =~= chars_view(before).push(c2@));
    }
    done
}

// ---------------------------------------------------------------------------
// Greedy wrapping
// ---------------------------------------------------------------------------

/// Placing `words` one after another on lines of at most `width`
/// characters: the finished lines and the line being filled.  A word goes
/// on the current line, after a space, unless that would pass `width`;
/// then the current line is finished first.  A word longer than `width`
/// gets a line of its own.
pub open spec fn wrap_state(words: Seq<Seq<char>>, width: nat) -> (Seq<Seq<char>>, Seq<char>)
    decreases words.len(),
{
    if words.len() == 0 {
        (seq![], seq![])
    } else {
        let (lines, cur) = wrap_state(words.drop_last(), width);
        let w = words.last();
        let sep: nat = if cur.len() > 0 {
            1
        } else {
            0
        };
        if cur.len() > 0 && cur.len() + sep + w.len() > width {
            (lines.push(cur), w)
        } else if cur.len() > 0 {
            (lines, cur.push(' ') + w)
        } else {
            (lines, w)
        }
    }
}

/// `value` wrapped greedily at `width`: its words, joined by single
/// spaces, filling each line as far as it goes.
pub open spec fn wrap_words_spec(value: Seq<char>, width: nat) -> Seq<Seq<char>> {
    let (lines, cur) = wrap_state(words_of(value), width);
    if cur.len() > 0 {
        lines.push(cur)
    } else {
        lines
    }
}

/// Wraps `value` greedily at `width` (the model picker's descriptions).
pub fn wrap_words(value: &str, width: usize) -> (r: Vec<String>)
    ensures
        strings_view(r@) == wrap_words_spec(value@, width as nat),
{
    let words = split_words(value);
    let ghost ws = chars_view(words@);
    let mut lines: Vec<String> = Vec::new();
    let mut cur: Vec<char> = Vec::new();
    let mut i: usize = 0;
    assert(ws.take(0) =~= Seq::<Seq<char>>::empty());
    assert(strings_view(lines@) =~= Seq::<Seq<char>>::empty());
    while i < words.len()
        invariant
            ws == chars_view(words@),
            ws == words_of(value@),
            i <= words@.len(),
            (strings_view(lines@), cur@) == wrap_state(ws.take(i as int), width as nat),
        decreases words.len() - i,
    {
        let w = &words[i];
        assert(ws.take(i + 1).drop_last() =~= ws.take(i as int));
        assert(ws.take(i + 1).last() == w@);
        let cur_len = cur.len();
        let w_len = w.len();
        let sep: usize = if cur_len > 0 {
            1
        } else {
            0
        };
        let too_long = if w_len > width {
            true
        } else {
            let room = width - w_len;
            if sep > room {
                true
            } else {
                cur_len > room - sep
            }
        };
        assert(too_long == (cur_len + sep + w_len > width));
        if cur_len > 0 && too_long {
            let ghost before = lines@;
            let finished = string_from_chars(&cur);
            lines.push(finished);
            assert(strings_view(lines@) =~= strings_view(before).push(cur@));
            cur = copy_chars(w);
        } else if cur_len > 0 {
            let ghost old_cur = cur@;
            cur.push(' ');
            append_chars(&mut cur, w);
            assert(cur@ =~= old_cur.push(' ') + w@);
        } else {
            cur = copy_chars(w);
        }
        i = i + 1;
    }
    assert(ws.take(i as int) =~= ws);
    if cur.len() > 0 {
        let ghost before = lines@;
        let last = string_from_chars(&cur);
        lines.push(last);
        assert(strings_view(lines@) =~= strings_view(before).push(cur@));
    }
    lines
}

/// A copy of `v`.
fn copy_chars(v: &Vec<char>) -> (r: Vec<char>)
    ensures
        r@ == v@,
{
    let mut r: Vec<char> = Vec::new();
    append_chars(&mut r, v);
    assert(r@ =~= v@);
    r
}

/// Appends the characters of `t` to `v`.
fn append_chars(v: &mut Vec<char>, t: &Vec<char>)
    ensures
        final(v)@ == old(v)@ + t@,
{
    let mut k: usize = 0;
    while k < t.len()
        invariant
            k <= t@.len(),
            v@ == old(v)@ + t@.take(k as int),
        decreases t.len() - k,
    {
        v.push(t[k]);
        k = k + 1;
        assert(v@ =~= old(v)@ + t@.take(k as int));
    }
    assert(t@.take(k as int) =~= t@);
}

// ---------------------------------------------------------------------------
// Links, and wrapping a transcript line
// ---------------------------------------------------------------------------

/// The number of terminal columns unicode-width gives a string.
pub uninterp spec fn str_display_width(s: Seq<char>) -> nat;

/// `UnicodeWidthStr::width`: the columns `s` takes on a terminal.  Its
/// value is named, not stated: it follows the Unicode width tables and the
/// crate's rules for emoji and joining sequences.
#[verifier::external_body]
pub fn display_width(s: &str) -> (w: usize)
    ensures
        w == str_display_width(s@),
{
    unicode_width::UnicodeWidthStr::width(s)
}

/// The number of terminal columns unicode-width gives a character, or
/// `None` for a control character.
pub uninterp spec fn char_display_width(c: char) -> Option<usize>;

/// `UnicodeWidthChar::width`: the columns `c` takes, `None` for a control
/// character.  What the source shows is stated: printable ASCII takes one
/// column, the C0 and C1 control characters (below U+0020, and U+007F up
/// to U+00A0) have no width, and every other character takes at most three
/// columns; the exact value is named.
#[verifier::external_body]
pub fn char_width(c: char) -> (w: Option<usize>)
    ensures
        w == char_display_width(c),
        0x20 <= (c as u32) < 0x7F ==> w == Some(1usize),
        ((c as u32) < 0x20 || (0x7F <= (c as u32) && (c as u32) < 0xA0)) ==> w == None::<usize>,
        (c as u32) >= 0xA0 ==> (w.is_some() && w.unwrap() <= 3),
{
    unicode_width::UnicodeWidthChar::width(c)
}

/// The columns a character takes, zero for a control character.
pub open spec fn char_columns(c: char) -> nat {
    match char_display_width(c) {
        Some(n) => n as nat,
        None => 0,
    }
}

/// Whether a word looks like a link: it starts with `http://`,
/// `https://` or `file://`, or holds a `.` and a `/` and is wider than
/// 12 columns.
pub open spec fn url_like_spec(t: Seq<char>) -> bool {
    ||| "http://"@.is_prefix_of(t)
    ||| "https://"@.is_prefix_of(t)
    ||| "file://"@.is_prefix_of(t)
    ||| (t.contains('.') && t.contains('/') && str_display_width(t) > 12)
}

/// Whether some word of `t` looks like a link.
pub open spec fn contains_url_like_spec(t: Seq<char>) -> bool {
    exists|i: int| 0 <= i < words_of(t).len() && #[trigger] url_like_spec(words_of(t)[i])
}

/// Whether `token` looks like a link.
pub fn is_url_like_token(token: &str) -> (b: bool)
    ensures
        b == url_like_spec(token@),
{
    if starts_with(token, "http://") || starts_with(token, "https://") || starts_with(
        token,
        "file://",
    ) {
        return true;
    }
    let v = chars_of(token);
    contains_char(&v, '.') && contains_char(&v, '/') && display_width(token) > 12
}

/// Whether some word of `text` looks like a link.
pub fn text_contains_url_like(text: &str) -> (b: bool)
    ensures
        b == contains_url_like_spec(text@),
{
    let words = split_words(text);
    let ghost ws = chars_view(words@);
    let mut i: usize = 0;
    while i < words.len()
        invariant
            ws == chars_view(words@),
            ws == words_of(text@),
            i <= words@.len(),
            forall|j: int| 0 <= j < i ==> !url_like_spec(#[trigger] ws[j]),
        decreases words.len() - i,
    {
        let w = string_from_chars(&words[i]);
        assert(ws[i as int] == words@[i as int]@);
        if is_url_like_token(w.as_str()) {
            assert(url_like_spec(ws[i as int]));
            return true;
        }
        i = i + 1;
    }
    false
}

/// Whether some piece of a styled line looks like a link.
pub open spec fn line_contains_url_like_spec(spans: Seq<Seq<char>>) -> bool {
    exists|i: int| 0 <= i < spans.len() && #[trigger] contains_url_like_spec(spans[i])
}

/// Whether some piece of a styled line looks like a link.
pub fn line_contains_url_like(spans: &Vec<String>) -> (b: bool)
    ensures
        b == line_contains_url_like_spec(strings_view(spans@)),
{
    let mut i: usize = 0;
    while i < spans.len()
        invariant
            i <= spans@.len(),
            forall|j: int| 0 <= j < i ==> !contains_url_like_spec(#[trigger] spans@[j]@),
        decreases spans.len() - i,
    {
        if text_contains_url_like(spans[i].as_str()) {
            assert(contains_url_like_spec(strings_view(spans@)[i as int]));
            return true;
        }
        i = i + 1;
    }
    assert forall|j: int| 0 <= j < strings_view(spans@).len() implies !contains_url_like_spec(
        #[trigger] strings_view(spans@)[j],
    ) by {
        assert(strings_view(spans@)[j] == spans@[j]@);
    }
    false
}

/// The lines textwrap makes of `text`: first-fit wrapping at `width`
/// columns, words found by the Unicode line-breaking rules, long words
/// broken (at hyphens first) when `break_words` holds and kept whole
/// otherwise.
pub uninterp spec fn textwrap_first_fit(text: Seq<char>, width: usize, break_words: bool) -> Seq<
    Seq<char>,
>;

/// `textwrap::wrap` with first-fit wrapping, the default word separator
/// (the Unicode line-breaking rules, with the crate's default features)
/// and, when `break_words` holds, the hyphen splitter and long words
/// broken (else no splitting, long words kept whole).  Its result is
/// named, not stated.
#[verifier::external_body]
fn textwrap_wrap(text: &str, width: usize, break_words: bool) -> (r: Vec<String>)
    ensures
        strings_view(r@) == textwrap_first_fit(text@, width, break_words),
{
    let splitter = if break_words {
        textwrap::WordSplitter::HyphenSplitter
    } else {
        textwrap::WordSplitter::NoHyphenation
    };
    let options = textwrap::Options::new(width).break_words(break_words).word_separator(
        textwrap::WordSeparator::new(),
    ).word_splitter(splitter).wrap_algorithm(textwrap::WrapAlgorithm::FirstFit);
    textwrap::wrap(text, options).into_iter().map(|line| line.into_owned()).collect()
}

/// The concatenation of the pieces of a line.
pub open spec fn concat_spans(spans: Seq<Seq<char>>) -> Seq<char> {
    spans.flatten()
}

/// The texts a styled line wraps to at `width`: its pieces joined and
/// wrapped, breaking long words unless some piece holds a link; one empty
/// line when wrapping gives none.
pub open spec fn wrap_line_spec(spans: Seq<Seq<char>>, width: usize) -> Seq<Seq<char>> {
    let wrapped = textwrap_first_fit(
        concat_spans(spans),
        width,
        !line_contains_url_like_spec(spans),
    );
    if wrapped.len() == 0 {
        seq![Seq::empty()]
    } else {
        wrapped
    }
}

/// Wraps a styled line, given as the texts of its pieces, at `width`.
pub fn wrap_line_texts(spans: &Vec<String>, width: usize) -> (r: Vec<String>)
    ensures
        strings_view(r@) == wrap_line_spec(strings_view(spans@), width),
{
    let break_words = !line_contains_url_like(spans);
    let mut flat = String::new();
    let mut i: usize = 0;
    assert(strings_view(spans@.take(0)).flatten() =~= Seq::<char>::empty());
    while i < spans.len()
        invariant
            i <= spans@.len(),
            flat@ == strings_view(spans@.take(i as int)).flatten(),
        decreases spans.len() - i,
    {
        proof {
            assert(strings_view(spans@.take(i + 1)) =~= strings_view(spans@.take(i as int)).push(
                spans@[i as int]@,
            ));
            strings_view(spans@.take(i as int)).lemma_flatten_push(spans@[i as int]@);
        }
        push_str(&mut flat, spans[i].as_str());
        i = i + 1;
    }
    assert(spans@.take(i as int) =~= spans@);
    let wrapped = textwrap_wrap(flat.as_str(), width, break_words);
    if wrapped.len() == 0 {
        let r = vec![String::new()];
        assert(strings_view(r@) =~= seq![Seq::<char>::empty()]);
        r
    } else {
        wrapped
    }
}

} // verus!
