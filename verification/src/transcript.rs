//! The plain transcript of a session (who said what, with the prompt sent
//! to Codex when it was translated), and the short texts around it.

use crate::format::{decimal, u64_to_decimal};
use crate::text::{chars_of, owned, push_str};
use crate::textarea::Area;
use vstd::prelude::*;

verus! {

/// Who wrote a transcript entry.
#[derive(Debug, Clone, Copy, PartialEq, Eq, Structural)]
pub enum TranscriptRole {
    User,
    Assistant,
    System,
}

/// One entry of the transcript.
#[derive(Debug)]
pub struct TranscriptEntry {
    pub role: TranscriptRole,
    pub text: String,
    pub translated_text: Option<String>,
}

/// An entry as plain values.
pub open spec fn entry_view(e: TranscriptEntry) -> (TranscriptRole, Seq<char>, Option<Seq<char>>) {
    (e.role, e.text@, crate::text::opt_chars(e.translated_text))
}

/// The entries as plain values.
pub open spec fn entries_view(s: Seq<TranscriptEntry>) -> Seq<(TranscriptRole, Seq<char>, Option<Seq<char>>)> {
    s.map_values(|e: TranscriptEntry| entry_view(e))
}

/// The last position of an entry by `role`.
pub open spec fn last_of_role(s: Seq<(TranscriptRole, Seq<char>, Option<Seq<char>>)>, role: TranscriptRole) -> Option<int>
    decreases s.len(),
{
    if s.len() == 0 {
        None
    } else if s.last().0 == role {
        Some(s.len() - 1)
    } else {
        last_of_role(s.drop_last(), role)
    }
}

/// The position `last_of_role` finds holds an entry by that role.
proof fn lemma_last_of_role(s: Seq<(TranscriptRole, Seq<char>, Option<Seq<char>>)>, role: TranscriptRole)
    ensures
        last_of_role(s, role) matches Some(i) ==> 0 <= i < s.len() && s[i].0 == role,
    decreases s.len(),
{
    if s.len() > 0 && s.last().0 != role {
        lemma_last_of_role(s.drop_last(), role);
        match last_of_role(s.drop_last(), role) {
            Some(i) => {
                assert(s.drop_last()[i] == s[i]);
            },
            None => {},
        }
    }
}

/// The transcript.
#[derive(Debug)]
pub struct Transcript {
    entries: Vec<TranscriptEntry>,
}

impl Transcript {
    /// The entries, oldest first.
    pub closed spec fn view(&self) -> Seq<(TranscriptRole, Seq<char>, Option<Seq<char>>)> {
        entries_view(self.entries@)
    }

    /// An empty transcript.
    pub fn new() -> (t: Transcript)
        ensures
            t.view().len() == 0,
    {
        let t = Transcript { entries: Vec::new() };
        assert(t.view() =~= Seq::empty());
        t
    }

    /// The entries.
    pub fn entries(&self) -> (r: &Vec<TranscriptEntry>)
        ensures
            entries_view(r@) == self.view(),
    {
        &self.entries
    }

    /// Adds an entry.
    fn push(&mut self, role: TranscriptRole, text: String, translated_text: Option<String>)
        ensures
            final(self).view() == old(self).view().push(
                (role, text@, crate::text::opt_chars(translated_text)),
            ),
    {
        let ghost before = self.entries@;
        self.entries.push(TranscriptEntry { role, text, translated_text });
        assert(entries_view(self.entries@) =~= entries_view(before).push(
            (role, text@, crate::text::opt_chars(translated_text)),
        ));
    }

    /// Adds a note from the application.
    pub fn push_system(&mut self, text: String)
        ensures
            final(self).view() == old(self).view().push((TranscriptRole::System, text@, None)),
    {
        self.push(TranscriptRole::System, text, None);
    }

    /// Adds a user prompt.
    pub fn push_user(&mut self, text: String)
        ensures
            final(self).view() == old(self).view().push((TranscriptRole::User, text@, None)),
    {
        self.push_user_with_translation(text, None);
    }

    /// Adds a user prompt and the prompt sent to Codex for it.
    pub fn push_user_with_translation(&mut self, text: String, translated_text: Option<String>)
        ensures
            final(self).view() == old(self).view().push(
                (TranscriptRole::User, text@, crate::text::opt_chars(translated_text)),
            ),
    {
        self.push(TranscriptRole::User, text, translated_text);
    }

    /// Opens an empty answer.
    pub fn start_assistant_message(&mut self)
        ensures
            final(self).view() == old(self).view().push(
                (TranscriptRole::Assistant, Seq::empty(), None),
            ),
    {
        self.push(TranscriptRole::Assistant, String::new(), None);
    }

    /// The position of the last entry by `role`.
    fn last_index_of(&self, role: TranscriptRole) -> (r: Option<usize>)
        ensures
            r matches Some(k) ==> last_of_role(self.view(), role) == Some(k as int),
            r is None ==> last_of_role(self.view(), role) is None,
    {
        let mut k = self.entries.len();
        assert(self.view().take(k as int) =~= self.view());
        while k > 0
            invariant
                k <= self.entries@.len(),
                last_of_role(self.view(), role) == last_of_role(self.view().take(k as int), role),
            decreases k,
        {
            assert(self.view().take(k as int).last() == entry_view(self.entries@[k - 1]));
            if self.entries[k - 1].role == role {
                return Some(k - 1);
            }
            assert(self.view().take(k as int).drop_last() =~= self.view().take(k - 1));
            k = k - 1;
        }
        None
    }

    /// Records the prompt sent to Codex for the last user prompt.
    pub fn set_last_user_translation(&mut self, translated_text: String)
        ensures
            match last_of_role(old(self).view(), TranscriptRole::User) {
                Some(i) => final(self).view() == old(self).view().update(
                    i,
                    (TranscriptRole::User, old(self).view()[i].1, Some(translated_text@)),
                ),
                None => final(self).view() == old(self).view(),
            },
    {
        match self.last_index_of(TranscriptRole::User) {
            Some(i) => {
                proof {
                    lemma_last_of_role(self.view(), TranscriptRole::User);
                }
                let ghost before = self.entries@;
                assert(entry_view(before[i as int]) == self.view()[i as int]);
                let entry = self.entries.remove(i);
                assert(entry == before[i as int]);
                assert(entry.role == TranscriptRole::User);
                self.entries.insert(
                    i,
                    TranscriptEntry {
                        role: entry.role,
                        text: entry.text,
                        translated_text: Some(translated_text),
                    },
                );
                assert(entries_view(self.entries@) =~= entries_view(before).update(
                    i as int,
                    (TranscriptRole::User, entries_view(before)[i as int].1, Some(translated_text@)),
                ));
            },
            None => {},
        }
    }

    /// Adds streamed answer text to the last entry, opening an answer first
    /// when the last entry is not one.
    pub fn append_assistant_delta(&mut self, delta: &str)
        ensures
            old(self).view().len() > 0 && old(self).view().last().0 == TranscriptRole::Assistant
                ==> final(self).view() == old(self).view().update(
                old(self).view().len() - 1,
                (
                    TranscriptRole::Assistant,
                    old(self).view().last().1 + delta@,
                    old(self).view().last().2,
                ),
            ),
            !(old(self).view().len() > 0 && old(self).view().last().0 == TranscriptRole::Assistant)
                ==> final(self).view() == old(self).view().push(
                (TranscriptRole::Assistant, delta@, None),
            ),
    {
        let n = self.entries.len();
        let last_is_answer = n > 0 && self.entries[n - 1].role == TranscriptRole::Assistant;
        if !last_is_answer {
            self.start_assistant_message();
        }
        let n = self.entries.len();
        assert(self.entries@.len() == self.view().len());
        assert(n > 0);
        let ghost before = self.entries@;
        assert(entry_view(before[n - 1]) == self.view().last());
        let entry = self.entries.pop().unwrap();
        let mut text = entry.text;
        push_str(&mut text, delta);
        self.entries.push(
            TranscriptEntry { role: entry.role, text, translated_text: entry.translated_text },
        );
        assert(entries_view(self.entries@) =~= entries_view(before).update(
            n - 1,
            (entry.role, entry.text@ + delta@, crate::text::opt_chars(entry.translated_text)),
        ));
    }

    /// Replaces the text of the last answer, or adds an answer when there
    /// is none.
    pub fn replace_last_assistant_message(&mut self, text: String)
        ensures
            match last_of_role(old(self).view(), TranscriptRole::Assistant) {
                Some(i) => final(self).view() == old(self).view().update(
                    i,
                    (TranscriptRole::Assistant, text@, old(self).view()[i].2),
                ),
                None => final(self).view() == old(self).view().push(
                    (TranscriptRole::Assistant, text@, None),
                ),
            },
    {
        match self.last_index_of(TranscriptRole::Assistant) {
            Some(i) => {
                proof {
                    lemma_last_of_role(self.view(), TranscriptRole::Assistant);
                }
                let ghost before = self.entries@;
                assert(entry_view(before[i as int]) == self.view()[i as int]);
                let entry = self.entries.remove(i);
                self.entries.insert(
                    i,
                    TranscriptEntry {
                        role: entry.role,
                        text,
                        translated_text: entry.translated_text,
                    },
                );
                assert(entries_view(self.entries@) =~= entries_view(before).update(
                    i as int,
                    (
                        TranscriptRole::Assistant,
                        text@,
                        crate::text::opt_chars(entry.translated_text),
                    ),
                ));
            },
            None => {
                self.push(TranscriptRole::Assistant, text, None);
            },
        }
    }

    /// Empties the transcript.
    pub fn clear(&mut self)
        ensures
            final(self).view().len() == 0,
    {
        self.entries = Vec::new();
        assert(self.view() =~= Seq::empty());
    }
}

/// The rate-limit hint of the footer: the share left of each known window.
pub fn limit_footer_hint(five_hour: Option<u16>, weekly: Option<u16>) -> (r: String)
    requires
        five_hour matches Some(p) ==> p <= 100,
        weekly matches Some(p) ==> p <= 100,
    ensures
        r@ == match (five_hour, weekly) {
            (Some(f), Some(w)) => "5h "@ + decimal((100 - f) as nat) + "% left · weekly "@ + decimal(
                (100 - w) as nat,
            ) + "% left"@,
            (Some(f), None) => "5h "@ + decimal((100 - f) as nat) + "% left"@,
            (None, Some(w)) => "weekly "@ + decimal((100 - w) as nat) + "% left"@,
            (None, None) => Seq::empty(),
        },
{
    match (five_hour, weekly) {
        (Some(f), Some(w)) => {
            let mut r = owned("5h ");
            push_str(&mut r, u64_to_decimal((100 - f) as u64).as_str());
            push_str(&mut r, "% left · weekly ");
            push_str(&mut r, u64_to_decimal((100 - w) as u64).as_str());
            push_str(&mut r, "% left");
            r
        },
        (Some(f), None) => {
            let mut r = owned("5h ");
            push_str(&mut r, u64_to_decimal((100 - f) as u64).as_str());
            push_str(&mut r, "% left");
            r
        },
        (None, Some(w)) => {
            let mut r = owned("weekly ");
            push_str(&mut r, u64_to_decimal((100 - w) as u64).as_str());
            push_str(&mut r, "% left");
            r
        },
        (None, None) => String::new(),
    }
}

/// The token totals as the header shows them.
pub fn token_usage_summary(input: u64, cached: u64, output: u64) -> (r: String)
    ensures
        r@ == "input "@ + decimal(input as nat) + " · cached "@ + decimal(cached as nat)
            + " · output "@ + decimal(output as nat),
{
    let mut r = owned("input ");
    push_str(&mut r, u64_to_decimal(input).as_str());
    push_str(&mut r, " · cached ");
    push_str(&mut r, u64_to_decimal(cached).as_str());
    push_str(&mut r, " · output ");
    push_str(&mut r, u64_to_decimal(output).as_str());
    r
}

/// The second header line: directory, plan, model, effort, usage and
/// uptime.
pub fn header_detail_line(
    cwd: &str,
    plan: Option<&str>,
    model: Option<&str>,
    effort: Option<&str>,
    usage: Option<&str>,
    uptime_secs: u64,
) -> (r: String)
    ensures
        r@ == "cwd: "@ + cwd@ + " · plan: "@ + crate::view::text_or(
            crate::text::opt_str_chars(plan),
            "unknown"@,
        ) + " · model: "@ + crate::view::text_or(crate::text::opt_str_chars(model), "default"@)
            + " · reasoning: "@ + crate::view::text_or(
            crate::text::opt_str_chars(effort),
            "default"@,
        ) + " · "@ + crate::view::text_or(crate::text::opt_str_chars(usage), "usage pending"@)
            + " · "@ + decimal(uptime_secs as nat) + "s"@,
{
    let mut r = owned("cwd: ");
    push_str(&mut r, cwd);
    push_str(&mut r, " · plan: ");
    push_str(&mut r, or_str(plan, "unknown"));
    push_str(&mut r, " · model: ");
    push_str(&mut r, or_str(model, "default"));
    push_str(&mut r, " · reasoning: ");
    push_str(&mut r, or_str(effort, "default"));
    push_str(&mut r, " · ");
    push_str(&mut r, or_str(usage, "usage pending"));
    push_str(&mut r, " · ");
    push_str(&mut r, u64_to_decimal(uptime_secs).as_str());
    push_str(&mut r, "s");
    r
}

/// An optional text, else `default`.
fn or_str<'a>(o: Option<&'a str>, default: &'a str) -> (r: &'a str)
    ensures
        r@ == crate::view::text_or(crate::text::opt_str_chars(o), default@),
{
    match o {
        Some(t) => t,
        None => default,
    }
}

/// The number of pieces `s` splits into at `'\n'` (`str::split`).
pub open spec fn newline_count(s: Seq<char>) -> nat
    decreases s.len(),
{
    if s.len() == 0 {
        0
    } else {
        newline_count(s.drop_last()) + if s.last() == '\n' {
            1nat
        } else {
            0nat
        }
    }
}

/// The rows the plain composer takes: its lines (at most six) and three
/// rows of frame.
pub fn composer_height(input: &str) -> (h: u16)
    ensures
        h == (if newline_count(input@) + 1 < 6 {
            newline_count(input@) + 1
        } else {
            6
        }) + 3,
{
    let v = chars_of(input);
    let mut count: usize = 0;
    let mut i: usize = 0;
    while i < v.len()
        invariant
            v@ == input@,
            i <= v@.len(),
            count == newline_count(v@.take(i as int)),
            count <= i,
        decreases v.len() - i,
    {
        assert(v@.take(i + 1).drop_last() =~= v@.take(i as int));
        if v[i] == '\n' {
            count = count + 1;
        }
        i = i + 1;
    }
    assert(v@.take(i as int) =~= v@);
    let lines = if count < 5 {
        (count + 1) as u16
    } else {
        6
    };
    lines + 3
}

/// The translator picker's window within `area`: 4 columns and 6 rows
/// narrower than it, kept within 48..=92 by 14..=20 (and within the area),
/// centered.
pub fn modal_rect(area: Area) -> (r: Area)
    requires
        area.x + area.width <= u16::MAX,
        area.y + area.height <= u16::MAX,
    ensures
        ({
            let w0: int = if area.width >= 4 {
                area.width - 4
            } else {
                0
            };
            let w1: int = if w0 < 48 {
                48
            } else if w0 > 92 {
                92
            } else {
                w0
            };
            let width: int = if w1 < area.width {
                w1
            } else {
                area.width as int
            };
            let h0: int = if area.height >= 6 {
                area.height - 6
            } else {
                0
            };
            let h1: int = if h0 < 14 {
                14
            } else if h0 > 20 {
                20
            } else {
                h0
            };
            let height: int = if h1 < area.height {
                h1
            } else {
                area.height as int
            };
            &&& r.width == width
            &&& r.height == height
            &&& r.x == area.x + (area.width - width) / 2
            &&& r.y == area.y + (area.height - height) / 2
        }),
{
    let w0 = area.width.saturating_sub(4);
    let w1 = if w0 < 48 {
        48
    } else if w0 > 92 {
        92
    } else {
        w0
    };
    let width = if w1 < area.width {
        w1
    } else {
        area.width
    };
    let h0 = area.height.saturating_sub(6);
    let h1 = if h0 < 14 {
        14
    } else if h0 > 20 {
        20
    } else {
        h0
    };
    let height = if h1 < area.height {
        h1
    } else {
        area.height
    };
    Area {
        x: area.x + (area.width - width) / 2,
        y: area.y + (area.height - height) / 2,
        width,
        height,
    }
}

/// The detail of the schema-snapshot check when its files were counted.
pub fn schema_count_detail(count: u64) -> (r: String)
    ensures
        r@ == decimal(count as nat) + " json schema files"@,
{
    let mut r = u64_to_decimal(count);
    push_str(&mut r, " json schema files");
    r
}

} // verus!
