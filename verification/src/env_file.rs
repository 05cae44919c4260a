//! The `.env` file format: `KEY=value` lines, `#` comments, optional
//! quotes around values.  Values are kept sorted by key so that writing
//! them back is deterministic.

use crate::text::{
    chars_of, is_whitespace, push_char, push_chars, spec_is_whitespace, string_from_chars,
    string_from_range, trim, trim_bounds, trim_end, trim_start,
};
use vstd::prelude::*;

verus! {

// ---------------------------------------------------------------------------
// Specification of the format
// ---------------------------------------------------------------------------

/// Index of the first `c` in `s`, or `s.len()` when there is none.
pub open spec fn index_of(s: Seq<char>, c: char) -> int
    decreases s.len(),
{
    if s.len() == 0 {
        0
    } else if s[0] == c {
        0
    } else {
        1 + index_of(s.drop_first(), c)
    }
}

/// The lines of `t`: the pieces between `'\n'` characters, without a final
/// empty piece after a trailing newline.
pub open spec fn split_lines(t: Seq<char>) -> Seq<Seq<char>>
    decreases t.len(),
{
    if t.len() == 0 {
        seq![]
    } else {
        let i = index_of(t, '\n');
        proof {
            lemma_index_of_bounds(t, '\n');
        }
        if i >= t.len() {
            seq![t]
        } else {
            seq![t.take(i)] + split_lines(t.skip(i + 1))
        }
    }
}

/// A value that needs surrounding quotes drops them (one pair of matching
/// double or single quotes).
pub open spec fn unquote_env(v: Seq<char>) -> Seq<char> {
    if v.len() >= 2 && ((v[0] == '"' && v.last() == '"') || (v[0] == '\'' && v.last() == '\'')) {
        v.subrange(1, v.len() - 1)
    } else {
        v
    }
}

/// What one line of an env file holds: nothing for blank and comment
/// lines and lines without `=` or key; otherwise the trimmed key and the
/// trimmed, unquoted value.
pub open spec fn parse_env_line_spec(line: Seq<char>) -> Option<(Seq<char>, Seq<char>)> {
    let t = trim(line);
    if t.len() == 0 || t[0] == '#' {
        None
    } else {
        let p = index_of(t, '=');
        if p >= t.len() {
            None
        } else {
            let key = trim(t.take(p));
            if key.len() == 0 {
                None
            } else {
                Some((key, unquote_env(trim(t.skip(p + 1)))))
            }
        }
    }
}

/// The key-value map of a sequence of lines; a later line wins over an
/// earlier one with the same key.
pub open spec fn map_of_lines(lines: Seq<Seq<char>>) -> Map<Seq<char>, Seq<char>>
    decreases lines.len(),
{
    if lines.len() == 0 {
        Map::empty()
    } else {
        let m = map_of_lines(lines.drop_last());
        match parse_env_line_spec(lines.last()) {
            Some(kv) => m.insert(kv.0, kv.1),
            None => m,
        }
    }
}

/// Characters a value may hold and still be written without quotes.
pub open spec fn is_env_safe_char(c: char) -> bool {
    ('a' <= c <= 'z') || ('A' <= c <= 'Z') || ('0' <= c <= '9') || c == '_' || c == '-' || c
        == '.'
}

/// The escaped form of one character inside double quotes.
pub open spec fn escape_env_char(c: char) -> Seq<char> {
    if c == '\\' {
        seq!['\\', '\\']
    } else if c == '"' {
        seq!['\\', '"']
    } else {
        seq![c]
    }
}

/// `v` with backslashes and double quotes escaped.
pub open spec fn escape_env(v: Seq<char>) -> Seq<char>
    decreases v.len(),
{
    if v.len() == 0 {
        seq![]
    } else {
        escape_env(v.drop_last()) + escape_env_char(v.last())
    }
}

/// How a value is written: as it is when every character is safe,
/// otherwise escaped and in double quotes.
pub open spec fn quote_env(v: Seq<char>) -> Seq<char> {
    if forall|i: int| 0 <= i < v.len() ==> is_env_safe_char(#[trigger] v[i]) {
        v
    } else {
        seq!['"'] + escape_env(v) + seq!['"']
    }
}

/// Lexicographic order on character sequences (the order of `str`).
pub open spec fn lex_lt(a: Seq<char>, b: Seq<char>) -> bool
    decreases a.len(),
{
    if a.len() == 0 {
        b.len() > 0
    } else if b.len() == 0 {
        false
    } else if a[0] < b[0] {
        true
    } else if a[0] == b[0] {
        lex_lt(a.drop_first(), b.drop_first())
    } else {
        false
    }
}

/// The map held by a list of entries; a later entry wins.
pub open spec fn entries_map(s: Seq<(String, String)>) -> Map<Seq<char>, Seq<char>>
    decreases s.len(),
{
    if s.len() == 0 {
        Map::empty()
    } else {
        entries_map(s.drop_last()).insert(s.last().0@, s.last().1@)
    }
}

/// Entries whose keys strictly increase.
pub open spec fn sorted_entries(s: Seq<(String, String)>) -> bool {
    forall|i: int, j: int| 0 <= i < j < s.len() ==> lex_lt(#[trigger] s[i].0@, #[trigger] s[j].0@)
}

/// One written line, without its newline.
pub open spec fn env_line(key: Seq<char>, value: Seq<char>) -> Seq<char> {
    key + seq!['='] + quote_env(value)
}

/// The text written for a list of entries: one line per entry, in order.
pub open spec fn render_entries(s: Seq<(String, String)>) -> Seq<char>
    decreases s.len(),
{
    if s.len() == 0 {
        seq![]
    } else {
        render_entries(s.drop_last()) + env_line(s.last().0@, s.last().1@) + seq!['\n']
    }
}

/// A key that is read back as written.
pub open spec fn round_trip_key(k: Seq<char>) -> bool {
    &&& k.len() > 0
    &&& !spec_is_whitespace(k[0])
    &&& !spec_is_whitespace(k.last())
    &&& k[0] != '#'
    &&& !k.contains('=')
    &&& !k.contains('\n')
}

/// A value that is read back as written.
pub open spec fn round_trip_value(v: Seq<char>) -> bool {
    !v.contains('\n') && !v.contains('"') && !v.contains('\\')
}

// ---------------------------------------------------------------------------
// The sorted map of values
// ---------------------------------------------------------------------------

/// Values read from or written to an env file, sorted by key with no key
/// twice.
#[derive(Debug)]
pub struct EnvValues {
    entries: Vec<(String, String)>,
}

impl EnvValues {
    /// The entries in key order.
    pub closed spec fn entries_spec(&self) -> Seq<(String, String)> {
        self.entries@
    }

    /// Keys strictly increase.
    #[verifier::type_invariant]
    pub closed spec fn wf(&self) -> bool {
        sorted_entries(self.entries@)
    }

    /// The key-value map.
    pub closed spec fn view(&self) -> Map<Seq<char>, Seq<char>> {
        entries_map(self.entries@)
    }

    /// No values.
    pub fn new() -> (r: EnvValues)
        ensures
            r.view() == Map::<Seq<char>, Seq<char>>::empty(),
            r.entries_spec().len() == 0,
    {
        EnvValues { entries: Vec::new() }
    }

    /// The number of keys.
    pub fn len(&self) -> (n: usize)
        ensures
            n == self.view().dom().len(),
    {
        proof {
            use_type_invariant(self);
            lemma_sorted_dom_len(self.entries@);
        }
        self.entries.len()
    }

    /// The value stored for `key`, if any.
    pub fn get(&self, key: &str) -> (r: Option<String>)
        ensures
            match r {
                Some(v) => self.view().contains_key(key@) && self.view()[key@] == v@,
                None => !self.view().contains_key(key@),
            },
    {
        proof {
            use_type_invariant(self);
        }
        let mut i: usize = 0;
        while i < self.entries.len()
            invariant
                sorted_entries(self.entries@),
                i <= self.entries@.len(),
                forall|k: int| 0 <= k < i ==> self.entries@[k].0@ != key@,
            decreases self.entries.len() - i,
        {
            if crate::text::str_eq(self.entries[i].0.as_str(), key) {
                proof {
                    lemma_sorted_lookup(self.entries@, i as int);
                }
                return Some(self.entries[i].1.clone());
            }
            i = i + 1;
        }
        proof {
            lemma_absent_key(self.entries@, key@);
        }
        None
    }

    /// Whether `key` has a value.
    pub fn contains_key(&self, key: &str) -> (b: bool)
        ensures
            b == self.view().contains_key(key@),
    {
        self.get(key).is_some()
    }

    /// Sets `key` to `value`, keeping the keys sorted.
    pub fn insert(&mut self, key: String, value: String)
        ensures
            final(self).view() == old(self).view().insert(key@, value@),
    {
        proof {
            use_type_invariant(&*self);
        }
        let mut taken = EnvValues::new();
        std::mem::swap(self, &mut taken);
        let EnvValues { mut entries } = taken;
        let ghost s = entries@;
        let mut p: usize = 0;
        while p < entries.len() && string_lt(&entries[p].0, &key)
            invariant
                entries@ == s,
                sorted_entries(s),
                p <= s.len(),
                forall|k: int| 0 <= k < p ==> lex_lt(#[trigger] s[k].0@, key@),
            decreases entries.len() - p,
        {
            p = p + 1;
        }
        if p < entries.len() && string_eq(&entries[p].0, &key) {
            proof {
                lemma_entries_map_update(s, p as int, key, value);
                lemma_sorted_update(s, p as int, key, value);
            }
            entries.set(p, (key, value));
        } else {
            proof {
                if p < s.len() {
                    lemma_lex_total(s[p as int].0@, key@);
                }
                lemma_sorted_insert(s, p as int, key, value);
                lemma_entries_map_insert(s, p as int, key, value);
            }
            entries.insert(p, (key, value));
        }
        *self = EnvValues { entries };
    }

    /// The text of an env file holding these values: `KEY=value` lines in
    /// key order, each ending with a newline.
    pub fn render(&self) -> (t: String)
        ensures
            t@ == render_entries(self.entries_spec()),
    {
        let mut t = String::new();
        let mut i: usize = 0;
        while i < self.entries.len()
            invariant
                i <= self.entries@.len(),
                t@ == render_entries(self.entries@.take(i as int)),
            decreases self.entries.len() - i,
        {
            let key = &self.entries[i].0;
            let quoted = quote_env_value(self.entries[i].1.as_str());
            let ghost before = t@;
            crate::text::push_str(&mut t, key.as_str());
            push_char(&mut t, '=');
            crate::text::push_str(&mut t, quoted.as_str());
            push_char(&mut t, '\n');
            assert(self.entries@.take(i + 1).drop_last() =~= self.entries@.take(i as int));
            assert(t@ =~= before + env_line(key@, self.entries@[i as int].1@) + seq!['\n']);
            i = i + 1;
        }
        assert(self.entries@.take(self.entries@.len() as int) =~= self.entries@);
        t
    }
}

/// `a < b` in the order of `str`.
pub fn string_lt(a: &String, b: &String) -> (r: bool)
    ensures
        r == lex_lt(a@, b@),
{
    let va = chars_of(a.as_str());
    let vb = chars_of(b.as_str());
    let mut i: usize = 0;
    assert(va@.skip(0) =~= va@);
    assert(vb@.skip(0) =~= vb@);
    while i < va.len() && i < vb.len() && va[i] == vb[i]
        invariant
            i <= va@.len(),
            i <= vb@.len(),
            lex_lt(va@, vb@) == lex_lt(va@.skip(i as int), vb@.skip(i as int)),
        decreases va.len() - i,
    {
        assert(va@.skip(i as int).drop_first() =~= va@.skip(i + 1));
        assert(vb@.skip(i as int).drop_first() =~= vb@.skip(i + 1));
        i = i + 1;
    }
    if i == va.len() {
        i < vb.len()
    } else if i == vb.len() {
        false
    } else {
        va[i] < vb[i]
    }
}

/// Whether two strings hold the same characters.
pub fn string_eq(a: &String, b: &String) -> (r: bool)
    ensures
        r == (a@ == b@),
{
    crate::text::str_eq(a.as_str(), b.as_str())
}

// ---------------------------------------------------------------------------
// Parsing and quoting
// ---------------------------------------------------------------------------

/// Index of the first `c` in `v`, or `v.len()`.
pub fn find_char(v: &Vec<char>, c: char) -> (i: usize)
    ensures
        i as int == index_of(v@, c),
        i <= v@.len(),
{
    let mut i: usize = 0;
    while i < v.len() && v[i] != c
        invariant
            i <= v@.len(),
            forall|k: int| 0 <= k < i ==> v@[k] != c,
        decreases v.len() - i,
    {
        i = i + 1;
    }
    proof {
        lemma_index_of(v@, c, i as int);
    }
    i
}

/// The value without one pair of surrounding quotes.
pub fn unquote_env_value(value: &str) -> (r: String)
    ensures
        r@ == unquote_env(value@),
{
    let v = chars_of(value);
    let n = v.len();
    if n >= 2 && ((v[0] == '"' && v[n - 1] == '"') || (v[0] == '\'' && v[n - 1] == '\'')) {
        string_from_range(&v, 1, n - 1)
    } else {
        string_from_chars(&v)
    }
}

/// The value as written to a file: unchanged when every character is an
/// ASCII letter or digit, `_`, `-` or `.`; otherwise escaped and quoted.
pub fn quote_env_value(value: &str) -> (r: String)
    ensures
        r@ == quote_env(value@),
{
    let v = chars_of(value);
    let mut i: usize = 0;
    while i < v.len() && is_safe_char(v[i])
        invariant
            i <= v@.len(),
            forall|k: int| 0 <= k < i ==> is_env_safe_char(#[trigger] v@[k]),
        decreases v.len() - i,
    {
        i = i + 1;
    }
    if i == v.len() {
        return string_from_chars(&v);
    }
    let mut r = String::new();
    push_char(&mut r, '"');
    let mut j: usize = 0;
    while j < v.len()
        invariant
            j <= v@.len(),
            r@ == seq!['"'] + escape_env(v@.take(j as int)),
        decreases v.len() - j,
    {
        let c = v[j];
        let ghost before = r@;
        if c == '\\' {
            push_char(&mut r, '\\');
            push_char(&mut r, '\\');
        } else if c == '"' {
            push_char(&mut r, '\\');
            push_char(&mut r, '"');
        } else {
            push_char(&mut r, c);
        }
        assert(v@.take(j + 1).drop_last() =~= v@.take(j as int));
        assert(r@ =~= before + escape_env_char(c));
        j = j + 1;
    }
    push_char(&mut r, '"');
    assert(v@.take(v@.len() as int) =~= v@);
    assert(!is_env_safe_char(v@[i as int]));
    r
}

fn is_safe_char(c: char) -> (b: bool)
    ensures
        b == is_env_safe_char(c),
{
    ('a' <= c && c <= 'z') || ('A' <= c && c <= 'Z') || ('0' <= c && c <= '9') || c == '_' || c
        == '-' || c == '.'
}

/// One line of an env file: `None` for blank lines, comments, lines
/// without `=` and lines with an empty key; otherwise the key and value.
pub fn parse_env_line(line: &str) -> (r: Option<(String, String)>)
    ensures
        match r {
            Some(kv) => parse_env_line_spec(line@) == Some((kv.0@, kv.1@)),
            None => parse_env_line_spec(line@) is None,
        },
{
    let v = chars_of(line);
    parse_env_line_chars(&v)
}

fn parse_env_line_chars(v: &Vec<char>) -> (r: Option<(String, String)>)
    ensures
        match r {
            Some(kv) => parse_env_line_spec(v@) == Some((kv.0@, kv.1@)),
            None => parse_env_line_spec(v@) is None,
        },
{
    let (a, b) = trim_bounds(v);
    let mut t: Vec<char> = Vec::new();
    let mut k = a;
    while k < b
        invariant
            a <= k <= b <= v@.len(),
            t@ == v@.subrange(a as int, k as int),
        decreases b - k,
    {
        t.push(v[k]);
        k = k + 1;
    }
    if t.len() == 0 || t[0] == '#' {
        return None;
    }
    let p = find_char(&t, '=');
    if p >= t.len() {
        return None;
    }
    let mut key_part: Vec<char> = Vec::new();
    let mut rest_part: Vec<char> = Vec::new();
    let mut q: usize = 0;
    while q < t.len()
        invariant
            p < t@.len(),
            q <= t@.len(),
            q <= p ==> key_part@ == t@.take(q as int) && rest_part@.len() == 0,
            q > p ==> key_part@ == t@.take(p as int) && rest_part@ == t@.subrange(
                p + 1,
                q as int,
            ),
        decreases t.len() - q,
    {
        if q < p {
            key_part.push(t[q]);
        } else if q > p {
            rest_part.push(t[q]);
        }
        q = q + 1;
    }
    assert(rest_part@ =~= t@.skip(p + 1));
    let key = crate::text::trim_chars(&key_part);
    if key.len() == 0 {
        return None;
    }
    let value_chars = crate::text::trim_chars(&rest_part);
    let value_str = string_from_chars(&value_chars);
    Some((string_from_chars(&key), unquote_env_value(value_str.as_str())))
}

/// The values of an env file; a later line wins over an earlier line with
/// the same key.
pub fn parse_env_file(text: &str) -> (r: EnvValues)
    ensures
        r.view() == map_of_lines(split_lines(text@)),
        forall|k: Seq<char>| #[trigger] r.view().contains_key(k) ==> round_trip_key(k),
{
    let v = chars_of(text);
    let n = v.len();
    let mut values = EnvValues::new();
    let mut start: usize = 0;
    let ghost mut done: Seq<Seq<char>> = seq![];
    assert(v@.skip(0) =~= v@);
    while start < n
        invariant
            n == v@.len(),
            v@ == text@,
            start <= n,
            values.view() == map_of_lines(done),
            split_lines(v@) == done + split_lines(v@.skip(start as int)),
        decreases n - start,
    {
        let mut end = start;
        while end < n && v[end] != '\n'
            invariant
                start <= end <= n,
                n == v@.len(),
                forall|k: int| start <= k < end ==> v@[k] != '\n',
            decreases n - end,
        {
            end = end + 1;
        }
        let mut line: Vec<char> = Vec::new();
        let mut k = start;
        while k < end
            invariant
                start <= k <= end <= n,
                n == v@.len(),
                line@ == v@.subrange(start as int, k as int),
            decreases end - k,
        {
            line.push(v[k]);
            k = k + 1;
        }
        proof {
            let rest = v@.skip(start as int);
            assert forall|m: int| 0 <= m < end - start implies rest[m] != '\n' by {
                assert(rest[m] == v@[start + m]);
            }
            lemma_index_of(rest, '\n', (end - start) as int);
            assert(rest.take((end - start) as int) =~= line@);
            if end < n {
                assert(rest.skip((end - start) + 1) =~= v@.skip(end + 1));
                assert(split_lines(rest) == seq![line@] + split_lines(v@.skip(end + 1)));
            } else {
                assert(rest =~= line@);
                assert(split_lines(rest) == seq![line@]);
                assert(v@.skip(n as int) =~= seq![]);
            }
            assert((done + seq![line@]).drop_last() =~= done);
        }
        let parsed = parse_env_line_chars(&line);
        match parsed {
            Some((key, value)) => {
                values.insert(key, value);
            },
            None => {},
        }
        proof {
            done = done + seq![line@];
        }
        if end < n {
            start = end + 1;
        } else {
            start = n;
        }
    }
    proof {
        assert(v@.skip(n as int) =~= seq![]);
        assert(done + seq![] =~= done);
        lemma_split_lines_no_newline(text@);
        lemma_map_of_lines_keys(split_lines(text@));
    }
    values
}

/// Sets `key` to `value` and returns the text of the file that then holds
/// the values (what saving a value writes).
pub fn set_and_render(values: &mut EnvValues, key: &str, value: &str) -> (t: String)
    ensures
        final(values).view() == old(values).view().insert(key@, value@),
        t@ == render_entries(final(values).entries_spec()),
        (round_trip_key(key@) && round_trip_value(value@) && carried(old(values).view()))
            ==> map_of_lines(split_lines(t@)) == old(values).view().insert(key@, value@),
{
    values.insert(crate::text::owned(key), crate::text::owned(value));
    let t = values.render();
    proof {
        use_type_invariant(&*values);
        if round_trip_key(key@) && round_trip_value(value@) && carried(old(values).view()) {
            let m = old(values).view().insert(key@, value@);
            assert(values.view() == m);
            assert forall|k: Seq<char>| #[trigger] m.contains_key(k) implies round_trip_key(k)
                && round_trip_value(m[k]) by {
                if k != key@ {
                    assert(old(values).view().contains_key(k));
                }
            }
            lemma_render_parse_round_trip(*values);
        }
    }
    t
}

// ---------------------------------------------------------------------------
// Lemmas
// ---------------------------------------------------------------------------

/// `index_of` lies within `0..=s.len()`.
pub proof fn lemma_index_of_bounds(s: Seq<char>, c: char)
    ensures
        0 <= index_of(s, c) <= s.len(),
    decreases s.len(),
{
    if s.len() > 0 && s[0] != c {
        lemma_index_of_bounds(s.drop_first(), c);
    }
}

/// The written lines of a list of entries, in order.
pub open spec fn rendered_lines(s: Seq<(String, String)>) -> Seq<Seq<char>> {
    Seq::new(s.len(), |i: int| env_line(s[i].0@, s[i].1@))
}

/// Every key of `m` and its value can be written and read back.
pub open spec fn carried(m: Map<Seq<char>, Seq<char>>) -> bool {
    forall|k: Seq<char>| #[trigger] m.contains_key(k) ==> round_trip_key(k) && round_trip_value(m[k])
}

/// Reading back what was written gives the values that were written, for
/// keys and values the format can carry (keys without `=`, newlines,
/// leading `#` or surrounding whitespace; values without newlines, double
/// quotes or backslashes).
pub proof fn lemma_render_parse_round_trip(values: EnvValues)
    requires
        values.wf(),
        carried(values.view()),
    ensures
        map_of_lines(split_lines(render_entries(values.entries_spec()))) == values.view(),
{
    let s = values.entries_spec();
    assert forall|i: int| 0 <= i < s.len() implies round_trip_key(#[trigger] s[i].0@)
        && round_trip_value(s[i].1@) by {
        lemma_sorted_lookup(s, i);
        assert(values.view().contains_key(s[i].0@));
    }
    lemma_split_rendered(s);
    lemma_map_of_rendered(s);
}

/// The written text is one `KEY=value` line per key, in increasing key
/// order: the entries `render` writes are sorted, hold each key once, and
/// are exactly the values.
pub proof fn lemma_render_layout(values: EnvValues)
    requires
        values.wf(),
    ensures
        sorted_entries(values.entries_spec()),
        entries_map(values.entries_spec()) == values.view(),
        values.entries_spec().len() == values.view().dom().len(),
{
    lemma_sorted_dom_len(values.entries_spec());
}

/// No piece of `split_lines` holds a newline.
proof fn lemma_split_lines_no_newline(t: Seq<char>)
    ensures
        forall|i: int| 0 <= i < split_lines(t).len() ==> !(#[trigger] split_lines(t)[i]).contains('\n'),
    decreases t.len(),
{
    if t.len() > 0 {
        let i = index_of(t, '\n');
        lemma_index_of_props(t, '\n');
        lemma_index_of_bounds(t, '\n');
        if i >= t.len() {
            assert(split_lines(t) =~= seq![t]);
            assert(!t.contains('\n'));
        } else {
            lemma_split_lines_no_newline(t.skip(i + 1));
            let head = t.take(i);
            assert(!head.contains('\n')) by {
                assert forall|m: int| 0 <= m < head.len() implies head[m] != '\n' by {
                    assert(head[m] == t[m]);
                }
            }
            let rest = split_lines(t.skip(i + 1));
            assert(split_lines(t) == seq![head] + rest);
            assert forall|j: int| 0 <= j < split_lines(t).len() implies !(
            #[trigger] split_lines(t)[j]).contains('\n') by {
                if j > 0 {
                    assert(split_lines(t)[j] == rest[j - 1]);
                }
            }
        }
    }
}

/// `trim_start(s)` is a suffix of `s` that, when not empty, starts with a
/// non-whitespace character.
proof fn lemma_trim_start_props(s: Seq<char>)
    ensures
        trim_start(s) == s.skip(s.len() - trim_start(s).len()),
        trim_start(s).len() <= s.len(),
        trim_start(s).len() > 0 ==> !spec_is_whitespace(trim_start(s)[0]),
        s.len() > 0 && !spec_is_whitespace(s[0]) ==> trim_start(s) == s,
    decreases s.len(),
{
    if s.len() > 0 && spec_is_whitespace(s[0]) {
        lemma_trim_start_props(s.drop_first());
        assert(s.drop_first().skip(s.drop_first().len() - trim_start(s.drop_first()).len())
            =~= s.skip(s.len() - trim_start(s).len()));
    } else {
        assert(s.skip(0) =~= s);
    }
}

/// `trim_end(s)` is a prefix of `s` that, when not empty, ends with a
/// non-whitespace character.
proof fn lemma_trim_end_props(s: Seq<char>)
    ensures
        trim_end(s) == s.take(trim_end(s).len() as int),
        trim_end(s).len() <= s.len(),
        trim_end(s).len() > 0 ==> !spec_is_whitespace(trim_end(s).last()),
    decreases s.len(),
{
    if s.len() > 0 && spec_is_whitespace(s.last()) {
        lemma_trim_end_props(s.drop_last());
        assert(s.drop_last().take(trim_end(s.drop_last()).len() as int) =~= s.take(
            trim_end(s).len() as int,
        ));
    } else {
        assert(s.take(s.len() as int) =~= s);
    }
}

/// A character of `trim(s)` is a character of `s`; a non-empty `trim(s)`
/// starts and ends with non-whitespace, and starts with `s[0]` when that
/// is not whitespace.
proof fn lemma_trim_props(s: Seq<char>)
    ensures
        forall|c: char| trim(s).contains(c) ==> s.contains(c),
        trim(s).len() > 0 ==> !spec_is_whitespace(trim(s)[0]) && !spec_is_whitespace(
            trim(s).last(),
        ),
        trim(s).len() > 0 && !spec_is_whitespace(s[0]) ==> trim(s)[0] == s[0],
{
    let u = trim_start(s);
    lemma_trim_start_props(s);
    lemma_trim_end_props(u);
    let t = trim(s);
    let off = s.len() - u.len();
    assert forall|c: char| t.contains(c) implies s.contains(c) by {
        let m = choose|m: int| 0 <= m < t.len() && t[m] == c;
        assert(t[m] == u[m]);
        assert(u[m] == s[off + m]);
    }
    if t.len() > 0 {
        assert(t[0] == u[0]);
    }
}

/// The key a line yields can be written and read back.
proof fn lemma_parse_line_key(line: Seq<char>)
    requires
        !line.contains('\n'),
        parse_env_line_spec(line) is Some,
    ensures
        round_trip_key(parse_env_line_spec(line).unwrap().0),
{
    let t = trim(line);
    lemma_trim_props(line);
    let p = index_of(t, '=');
    lemma_index_of_props(t, '=');
    lemma_index_of_bounds(t, '=');
    let head = t.take(p);
    let key = trim(head);
    lemma_trim_props(head);
    assert(!head.contains('=')) by {
        assert forall|m: int| 0 <= m < head.len() implies head[m] != '=' by {
            assert(head[m] == t[m]);
        }
    }
    assert(!head.contains('\n')) by {
        assert forall|m: int| 0 <= m < head.len() implies head[m] != '\n' by {
            assert(head[m] == t[m]);
            if t[m] == '\n' {
                assert(t.contains('\n'));
            }
        }
    }
    assert(key.len() > 0);
    if head.len() == 0 {
        assert(trim_start(head) =~= head);
        assert(key.len() == 0);
    }
    assert(head[0] == t[0]);
    assert(key[0] == head[0]);
    assert(!key.contains('=')) by {
        if key.contains('=') {
            assert(head.contains('='));
        }
    }
    assert(!key.contains('\n')) by {
        if key.contains('\n') {
            assert(head.contains('\n'));
        }
    }
}

/// The keys of lines without newlines can be written and read back.
proof fn lemma_map_of_lines_keys(lines: Seq<Seq<char>>)
    requires
        forall|i: int| 0 <= i < lines.len() ==> !(#[trigger] lines[i]).contains('\n'),
    ensures
        forall|k: Seq<char>| #[trigger] map_of_lines(lines).contains_key(k) ==> round_trip_key(k),
    decreases lines.len(),
{
    if lines.len() > 0 {
        let init = lines.drop_last();
        assert forall|i: int| 0 <= i < init.len() implies !(#[trigger] init[i]).contains('\n') by {
            assert(init[i] == lines[i]);
        }
        lemma_map_of_lines_keys(init);
        assert(!lines.last().contains('\n')) by {
            assert(lines.last() == lines[lines.len() - 1]);
        }
        if parse_env_line_spec(lines.last()) is Some {
            lemma_parse_line_key(lines.last());
        }
        assert forall|k: Seq<char>| #[trigger] map_of_lines(lines).contains_key(k) implies round_trip_key(
            k,
        ) by {
            match parse_env_line_spec(lines.last()) {
                Some(kv) => {
                    if k != kv.0 {
                        assert(map_of_lines(init).contains_key(k));
                    }
                },
                None => {
                    assert(map_of_lines(init).contains_key(k));
                },
            }
        }
    }
}

proof fn lemma_index_of_props(s: Seq<char>, c: char)
    ensures
        forall|m: int| 0 <= m < index_of(s, c) ==> s[m] != c,
        index_of(s, c) < s.len() ==> s[index_of(s, c)] == c,
    decreases s.len(),
{
    lemma_index_of_bounds(s, c);
    if s.len() > 0 && s[0] != c {
        lemma_index_of_props(s.drop_first(), c);
        lemma_index_of_bounds(s.drop_first(), c);
        if index_of(s, c) < s.len() {
            assert(s[index_of(s, c)] == s.drop_first()[index_of(s.drop_first(), c)]);
        }
        assert forall|m: int| 0 <= m < index_of(s, c) implies s[m] != c by {
            if m > 0 {
                assert(s[m] == s.drop_first()[m - 1]);
            }
        }
    }
}

proof fn lemma_split_append(a: Seq<char>, b: Seq<char>)
    requires
        a.len() == 0 || a.last() == '\n',
    ensures
        split_lines(a + b) == split_lines(a) + split_lines(b),
    decreases a.len(),
{
    if a.len() == 0 {
        assert(a + b =~= b);
        assert(split_lines(a) =~= seq![]);
        assert(seq![] + split_lines(b) =~= split_lines(b));
    } else {
        lemma_index_of_props(a, '\n');
        lemma_index_of_bounds(a, '\n');
        let i = index_of(a, '\n');
        assert(i < a.len()) by {
            if i >= a.len() {
                assert(a[a.len() - 1] != '\n');
            }
        }
        let ab = a + b;
        assert forall|m: int| 0 <= m < i implies ab[m] != '\n' by {
            assert(ab[m] == a[m]);
        }
        lemma_index_of(ab, '\n', i);
        assert(ab.take(i) =~= a.take(i));
        let rest = a.skip(i + 1);
        assert(ab.skip(i + 1) =~= rest + b);
        assert(rest.len() == 0 || rest.last() == '\n');
        lemma_split_append(rest, b);
        assert(split_lines(a) == seq![a.take(i)] + split_lines(rest));
        assert(split_lines(ab) == seq![ab.take(i)] + split_lines(ab.skip(i + 1)));
        assert(split_lines(ab) =~= split_lines(a) + split_lines(b));
    }
}

proof fn lemma_split_one_line(l: Seq<char>)
    requires
        !l.contains('\n'),
    ensures
        split_lines(l + seq!['\n']) == seq![l],
{
    let t = l + seq!['\n'];
    assert forall|m: int| 0 <= m < l.len() implies t[m] != '\n' by {
        assert(t[m] == l[m]);
        if t[m] == '\n' {
            assert(l.contains('\n'));
        }
    }
    lemma_index_of(t, '\n', l.len() as int);
    assert(t.take(l.len() as int) =~= l);
    assert(t.skip(l.len() as int + 1) =~= seq![]);
    assert(split_lines(seq![]) =~= seq![]);
    assert(seq![l] + seq![] =~= seq![l]);
}

proof fn lemma_trim_fixed(x: Seq<char>)
    requires
        x.len() == 0 || (!spec_is_whitespace(x[0]) && !spec_is_whitespace(x.last())),
    ensures
        trim(x) == x,
{
}

proof fn lemma_escape_plain(v: Seq<char>)
    requires
        !v.contains('"'),
        !v.contains('\\'),
    ensures
        escape_env(v) == v,
    decreases v.len(),
{
    if v.len() > 0 {
        assert(!v.drop_last().contains('"')) by {
            if v.drop_last().contains('"') {
                let m = choose|m: int| 0 <= m < v.drop_last().len() && v.drop_last()[m] == '"';
                assert(v[m] == '"');
            }
        }
        assert(!v.drop_last().contains('\\')) by {
            if v.drop_last().contains('\\') {
                let m = choose|m: int| 0 <= m < v.drop_last().len() && v.drop_last()[m] == '\\';
                assert(v[m] == '\\');
            }
        }
        lemma_escape_plain(v.drop_last());
        assert(v[v.len() - 1] != '"' && v[v.len() - 1] != '\\');
        assert(escape_env(v) =~= v);
    }
}

proof fn lemma_parse_env_line(k: Seq<char>, v: Seq<char>)
    requires
        round_trip_key(k),
        round_trip_value(v),
    ensures
        parse_env_line_spec(env_line(k, v)) == Some((k, v)),
        !env_line(k, v).contains('\n'),
{
    let q = quote_env(v);
    let l = env_line(k, v);
    let safe = forall|i: int| 0 <= i < v.len() ==> is_env_safe_char(#[trigger] v[i]);
    if !safe {
        lemma_escape_plain(v);
        assert(q =~= seq!['"'] + v + seq!['"']);
    }
    // q is fixed by trim and unquote gives v back.
    assert(trim(q) == q) by {
        if q.len() > 0 {
            if safe {
                assert(is_env_safe_char(v[0]));
                assert(is_env_safe_char(v[v.len() - 1]));
            }
        }
        lemma_trim_fixed(q);
    }
    assert(unquote_env(q) == v) by {
        if safe {
            if v.len() >= 2 {
                assert(is_env_safe_char(v[0]));
            }
        } else {
            assert(q.subrange(1, q.len() - 1) =~= v);
        }
    }
    assert(!q.contains('\n')) by {
        if q.contains('\n') {
            let m = choose|m: int| 0 <= m < q.len() && q[m] == '\n';
            if safe {
                assert(is_env_safe_char(v[m]));
            } else {
                assert(0 < m < q.len() - 1);
                assert(q[m] == v[m - 1]);
            }
        }
    }
    // The whole line.
    assert(l.last() != ' ' && !spec_is_whitespace(l.last())) by {
        if q.len() > 0 {
            assert(l.last() == q.last());
            if safe {
                assert(is_env_safe_char(v[v.len() - 1]));
            }
        } else {
            assert(l.last() == '=');
        }
    }
    assert(l[0] == k[0]);
    lemma_trim_fixed(l);
    assert forall|m: int| 0 <= m < k.len() implies l[m] != '=' by {
        assert(l[m] == k[m]);
        if k[m] == '=' {
            assert(k.contains('='));
        }
    }
    lemma_index_of(l, '=', k.len() as int);
    assert(l.take(k.len() as int) =~= k);
    assert(l.skip(k.len() as int + 1) =~= q);
    lemma_trim_fixed(k);
    assert(!l.contains('\n')) by {
        if l.contains('\n') {
            let m = choose|m: int| 0 <= m < l.len() && l[m] == '\n';
            if m < k.len() {
                assert(l[m] == k[m]);
                assert(k.contains('\n'));
            } else if m > k.len() {
                assert(l[m] == q[m - k.len() - 1]);
                assert(q.contains('\n'));
            }
        }
    }
}

proof fn lemma_split_rendered(s: Seq<(String, String)>)
    requires
        forall|i: int|
            0 <= i < s.len() ==> round_trip_key(#[trigger] s[i].0@) && round_trip_value(s[i].1@),
    ensures
        split_lines(render_entries(s)) == rendered_lines(s),
    decreases s.len(),
{
    if s.len() == 0 {
        assert(rendered_lines(s) =~= seq![]);
    } else {
        let t = s.drop_last();
        assert forall|i: int| 0 <= i < t.len() implies round_trip_key(#[trigger] t[i].0@)
            && round_trip_value(t[i].1@) by {
            assert(t[i] == s[i]);
        }
        lemma_split_rendered(t);
        let a = render_entries(t);
        let l = env_line(s.last().0@, s.last().1@);
        lemma_parse_env_line(s.last().0@, s.last().1@);
        assert(a.len() == 0 || a.last() == '\n') by {
            if t.len() > 0 {
                assert(a == render_entries(t.drop_last()) + env_line(t.last().0@, t.last().1@)
                    + seq!['\n']);
            }
        }
        assert(render_entries(s) =~= a + (l + seq!['\n']));
        lemma_split_append(a, l + seq!['\n']);
        lemma_split_one_line(l);
        assert(rendered_lines(s) =~= rendered_lines(t) + seq![l]);
    }
}

proof fn lemma_map_of_rendered(s: Seq<(String, String)>)
    requires
        forall|i: int|
            0 <= i < s.len() ==> round_trip_key(#[trigger] s[i].0@) && round_trip_value(s[i].1@),
    ensures
        map_of_lines(rendered_lines(s)) == entries_map(s),
    decreases s.len(),
{
    if s.len() > 0 {
        let t = s.drop_last();
        assert forall|i: int| 0 <= i < t.len() implies round_trip_key(#[trigger] t[i].0@)
            && round_trip_value(t[i].1@) by {
            assert(t[i] == s[i]);
        }
        lemma_map_of_rendered(t);
        assert(rendered_lines(s).drop_last() =~= rendered_lines(t));
        lemma_parse_env_line(s.last().0@, s.last().1@);
    }
}

pub proof fn lemma_index_of(s: Seq<char>, c: char, k: int)
    requires
        0 <= k <= s.len(),
        forall|m: int| 0 <= m < k ==> s[m] != c,
        k == s.len() || s[k] == c,
    ensures
        index_of(s, c) == k,
    decreases s.len(),
{
    if s.len() > 0 && k > 0 {
        assert forall|m: int| 0 <= m < k - 1 implies s.drop_first()[m] != c by {
            assert(s.drop_first()[m] == s[m + 1]);
        }
        lemma_index_of(s.drop_first(), c, k - 1);
    }
}

/// `lex_lt` is transitive.
pub proof fn lemma_lex_trans(a: Seq<char>, b: Seq<char>, c: Seq<char>)
    requires
        lex_lt(a, b),
        lex_lt(b, c),
    ensures
        lex_lt(a, c),
    decreases a.len(),
{
    if a.len() > 0 && b.len() > 0 && c.len() > 0 && a[0] == b[0] && b[0] == c[0] {
        lemma_lex_trans(a.drop_first(), b.drop_first(), c.drop_first());
    }
}

/// `lex_lt` is irreflexive.
pub proof fn lemma_lex_irrefl(a: Seq<char>)
    ensures
        !lex_lt(a, a),
    decreases a.len(),
{
    if a.len() > 0 {
        lemma_lex_irrefl(a.drop_first());
    }
}

/// Two different sequences are ordered one way or the other.
pub proof fn lemma_lex_total(a: Seq<char>, b: Seq<char>)
    ensures
        a == b || lex_lt(a, b) || lex_lt(b, a),
    decreases a.len(),
{
    if a.len() > 0 && b.len() > 0 && a[0] == b[0] {
        lemma_lex_total(a.drop_first(), b.drop_first());
        if a.drop_first() == b.drop_first() {
            assert(a =~= seq![a[0]] + a.drop_first());
            assert(b =~= seq![b[0]] + b.drop_first());
        }
    }
}

proof fn lemma_sorted_distinct(s: Seq<(String, String)>, i: int, j: int)
    requires
        sorted_entries(s),
        0 <= i < s.len(),
        0 <= j < s.len(),
        i != j,
    ensures
        s[i].0@ != s[j].0@,
{
    if i < j {
        assert(lex_lt(s[i].0@, s[j].0@));
        lemma_lex_irrefl(s[i].0@);
    } else {
        assert(lex_lt(s[j].0@, s[i].0@));
        lemma_lex_irrefl(s[j].0@);
    }
}

proof fn lemma_entries_map_dom(s: Seq<(String, String)>, k: Seq<char>)
    ensures
        entries_map(s).contains_key(k) <==> exists|i: int| 0 <= i < s.len() && #[trigger] s[i].0@
            == k,
    decreases s.len(),
{
    if s.len() > 0 {
        lemma_entries_map_dom(s.drop_last(), k);
        if exists|i: int| 0 <= i < s.len() && #[trigger] s[i].0@ == k {
            let i = choose|i: int| 0 <= i < s.len() && #[trigger] s[i].0@ == k;
            if i < s.len() - 1 {
                assert(s.drop_last()[i].0@ == k);
            }
        }
        if exists|i: int| 0 <= i < s.drop_last().len() && #[trigger] s.drop_last()[i].0@ == k {
            let i = choose|i: int| 0 <= i < s.drop_last().len() && #[trigger] s.drop_last()[i].0@
                == k;
            assert(s[i].0@ == k);
        }
    }
}

proof fn lemma_sorted_lookup(s: Seq<(String, String)>, i: int)
    requires
        sorted_entries(s),
        0 <= i < s.len(),
    ensures
        entries_map(s).contains_key(s[i].0@),
        entries_map(s)[s[i].0@] == s[i].1@,
    decreases s.len(),
{
    if i < s.len() - 1 {
        let t = s.drop_last();
        assert(sorted_entries(t)) by {
            assert forall|a: int, b: int| 0 <= a < b < t.len() implies lex_lt(
                #[trigger] t[a].0@,
                #[trigger] t[b].0@,
            ) by {
                assert(t[a] == s[a] && t[b] == s[b]);
            }
        }
        assert(t[i] == s[i]);
        lemma_sorted_lookup(t, i);
        lemma_sorted_distinct(s, i, s.len() - 1);
    }
}

proof fn lemma_absent_key(s: Seq<(String, String)>, k: Seq<char>)
    requires
        forall|m: int| 0 <= m < s.len() ==> s[m].0@ != k,
    ensures
        !entries_map(s).contains_key(k),
{
    lemma_entries_map_dom(s, k);
}

proof fn lemma_sorted_dom_len(s: Seq<(String, String)>)
    requires
        sorted_entries(s),
    ensures
        entries_map(s).dom().len() == s.len(),
        entries_map(s).dom().finite(),
    decreases s.len(),
{
    if s.len() > 0 {
        let t = s.drop_last();
        assert(sorted_entries(t)) by {
            assert forall|a: int, b: int| 0 <= a < b < t.len() implies lex_lt(
                #[trigger] t[a].0@,
                #[trigger] t[b].0@,
            ) by {
                assert(t[a] == s[a] && t[b] == s[b]);
            }
        }
        lemma_sorted_dom_len(t);
        assert forall|m: int| 0 <= m < t.len() implies t[m].0@ != s.last().0@ by {
            assert(t[m] == s[m]);
            lemma_sorted_distinct(s, m, s.len() - 1);
        }
        lemma_absent_key(t, s.last().0@);
    }
}

proof fn lemma_entries_map_insert(s: Seq<(String, String)>, p: int, key: String, value: String)
    requires
        0 <= p <= s.len(),
        forall|m: int| 0 <= m < s.len() ==> s[m].0@ != key@,
    ensures
        entries_map(s.insert(p, (key, value))) == entries_map(s).insert(key@, value@),
    decreases s.len(),
{
    let t = s.insert(p, (key, value));
    if p == s.len() {
        assert(t.drop_last() =~= s);
    } else {
        assert(t.drop_last() =~= s.drop_last().insert(p, (key, value)));
        assert(t.last() == s.last());
        assert forall|m: int| 0 <= m < s.drop_last().len() implies s.drop_last()[m].0@
            != key@ by {
            assert(s.drop_last()[m] == s[m]);
        }
        lemma_entries_map_insert(s.drop_last(), p, key, value);
        assert(s.last().0@ != key@);
        assert(entries_map(t) =~= entries_map(s).insert(key@, value@));
    }
}

proof fn lemma_entries_map_update(s: Seq<(String, String)>, p: int, key: String, value: String)
    requires
        sorted_entries(s),
        0 <= p < s.len(),
        s[p].0@ == key@,
    ensures
        entries_map(s.update(p, (key, value))) == entries_map(s).insert(key@, value@),
    decreases s.len(),
{
    let t = s.update(p, (key, value));
    if p == s.len() - 1 {
        assert(t.drop_last() =~= s.drop_last());
        assert(entries_map(t) =~= entries_map(s).insert(key@, value@));
    } else {
        let u = s.drop_last();
        assert(sorted_entries(u)) by {
            assert forall|a: int, b: int| 0 <= a < b < u.len() implies lex_lt(
                #[trigger] u[a].0@,
                #[trigger] u[b].0@,
            ) by {
                assert(u[a] == s[a] && u[b] == s[b]);
            }
        }
        assert(t.drop_last() =~= u.update(p, (key, value)));
        assert(u[p] == s[p]);
        lemma_entries_map_update(u, p, key, value);
        lemma_sorted_distinct(s, p, s.len() - 1);
        assert(entries_map(t) =~= entries_map(s).insert(key@, value@));
    }
}

proof fn lemma_sorted_update(s: Seq<(String, String)>, p: int, key: String, value: String)
    requires
        sorted_entries(s),
        0 <= p < s.len(),
        s[p].0@ == key@,
    ensures
        sorted_entries(s.update(p, (key, value))),
{
    let t = s.update(p, (key, value));
    assert forall|a: int, b: int| 0 <= a < b < t.len() implies lex_lt(
        #[trigger] t[a].0@,
        #[trigger] t[b].0@,
    ) by {
        assert(t[a].0@ == s[a].0@);
        assert(t[b].0@ == s[b].0@);
    }
}

proof fn lemma_sorted_insert(s: Seq<(String, String)>, p: int, key: String, value: String)
    requires
        sorted_entries(s),
        0 <= p <= s.len(),
        forall|k: int| 0 <= k < p ==> lex_lt(#[trigger] s[k].0@, key@),
        p < s.len() ==> lex_lt(key@, s[p].0@),
    ensures
        sorted_entries(s.insert(p, (key, value))),
        forall|m: int| 0 <= m < s.len() ==> s[m].0@ != key@,
{
    let t = s.insert(p, (key, value));
    assert forall|m: int| 0 <= m < s.len() implies s[m].0@ != key@ by {
        if m < p {
            lemma_lex_irrefl(key@);
        } else {
            if m > p {
                lemma_lex_trans(key@, s[p].0@, s[m].0@);
            }
            lemma_lex_irrefl(key@);
        }
    }
    assert forall|a: int, b: int| 0 <= a < b < t.len() implies lex_lt(
        #[trigger] t[a].0@,
        #[trigger] t[b].0@,
    ) by {
        if b < p {
            assert(t[a] == s[a] && t[b] == s[b]);
        } else if b == p {
            assert(t[a] == s[a]);
        } else if a > p {
            assert(t[a] == s[a - 1] && t[b] == s[b - 1]);
        } else if a == p {
            assert(t[b] == s[b - 1]);
            if b - 1 > p {
                lemma_lex_trans(key@, s[p].0@, s[b - 1].0@);
            }
        } else {
            assert(t[a] == s[a] && t[b] == s[b - 1]);
            if b - 1 > p {
                lemma_lex_trans(key@, s[p].0@, s[b - 1].0@);
            }
            lemma_lex_trans(s[a].0@, key@, s[b - 1].0@);
        }
    }
}

} // verus!
