//! The composer at the bottom of the screen: the text being typed, the
//! slash-command popup that follows it, and the queued messages above it.

use crate::slash_popup::{lemma_completion_closes_popup, slash_filter_spec, SlashCommandPopup};
use crate::text::{chars_of, owned, push_char, push_str, trim, trim_str, string_from_chars};
use crate::textarea::{clamp_u16, cursor_row_spec, row_texts, scroll_spec, shown_rows, Area, TextArea};
use crate::wrapping::{char_columns, char_width, strings_view};
use vstd::prelude::*;

verus! {

/// The composer's state.
#[derive(Debug)]
pub struct BottomPane {
    textarea: TextArea,
    slash_popup: Option<SlashCommandPopup>,
    queued_messages: Vec<String>,
}

/// What a pasted piece of text inserts at position `k`: a `'\r'` before a
/// `'\n'` is dropped, any other `'\r'` becomes `'\n'`.
pub open spec fn newline_piece(s: Seq<char>, k: int) -> Seq<char> {
    if s[k] == '\r' {
        if k + 1 < s.len() && s[k + 1] == '\n' {
            seq![]
        } else {
            seq!['\n']
        }
    } else {
        seq![s[k]]
    }
}

/// The first `i` characters of `s` with their line endings made `'\n'`.
pub open spec fn normalized_prefix(s: Seq<char>, i: nat) -> Seq<char>
    decreases i,
{
    if i == 0 {
        seq![]
    } else {
        normalized_prefix(s, (i - 1) as nat) + newline_piece(s, i - 1)
    }
}

/// `s` with `"\r\n"` and lone `'\r'` made `'\n'`.
pub open spec fn normalize_newlines_spec(s: Seq<char>) -> Seq<char> {
    normalized_prefix(s, s.len())
}

/// Makes every line ending of `text` a `'\n'` (`"\r\n"` first, then a
/// lone `'\r'`).
pub fn normalize_newlines(text: &str) -> (r: String)
    ensures
        r@ == normalize_newlines_spec(text@),
{
    let v = chars_of(text);
    let mut out: Vec<char> = Vec::new();
    let mut i: usize = 0;
    while i < v.len()
        invariant
            v@ == text@,
            i <= v@.len(),
            out@ == normalized_prefix(v@, i as nat),
        decreases v.len() - i,
    {
        let c = v[i];
        let ghost before = out@;
        if c == '\r' {
            if i + 1 < v.len() && v[i + 1] == '\n' {
                assert(out@ =~= before + newline_piece(v@, i as int));
            } else {
                out.push('\n');
                assert(out@ =~= before + newline_piece(v@, i as int));
            }
        } else {
            out.push(c);
            assert(out@ =~= before + newline_piece(v@, i as int));
        }
        i = i + 1;
    }
    string_from_chars(&out)
}

/// The longest prefix of `s` whose columns fit `max_width`.
pub open spec fn fitting_prefix_len(s: Seq<char>, max_width: nat) -> nat
    decreases s.len(),
{
    if s.len() == 0 {
        0
    } else {
        let k = fitting_prefix_len(s.drop_last(), max_width);
        if k == s.len() - 1 && columns_of(s) <= max_width {
            s.len()
        } else {
            k
        }
    }
}

/// The columns `s` takes, character by character.
pub open spec fn columns_of(s: Seq<char>) -> nat
    decreases s.len(),
{
    if s.len() == 0 {
        0
    } else {
        columns_of(s.drop_last()) + char_columns(s.last())
    }
}

/// `text` cut at the first character that would pass `max_width` columns.
pub fn truncate_to_width(text: &str, max_width: usize) -> (r: String)
    ensures
        r@ == text@.take(fitting_prefix_len(text@, max_width as nat) as int),
{
    let v = chars_of(text);
    let mut width: usize = 0;
    let mut i: usize = 0;
    while i < v.len()
        invariant
            v@ == text@,
            i <= v@.len(),
            width == columns_of(v@.take(i as int)),
            width <= max_width,
            fitting_prefix_len(v@.take(i as int), max_width as nat) == i,
        decreases v.len() - i,
    {
        let cw: usize = match char_width(v[i]) {
            Some(x) => x,
            None => 0,
        };
        assert(v@.take(i + 1).drop_last() =~= v@.take(i as int));
        if cw > max_width - width {
            proof {
                lemma_fitting_stops(v@, i as nat, max_width as nat);
            }
            let r = crate::text::string_from_range(&v, 0, i);
            assert(r@ =~= text@.take(i as int));
            return r;
        }
        width = width + cw;
        i = i + 1;
    }
    assert(v@.take(i as int) =~= v@);
    owned(text)
}

/// Once a character does not fit, the fitting prefix stops before it.
proof fn lemma_fitting_stops(s: Seq<char>, i: nat, max_width: nat)
    requires
        i < s.len(),
        fitting_prefix_len(s.take(i as int), max_width) == i,
        columns_of(s.take(i as int + 1)) > max_width,
    ensures
        fitting_prefix_len(s, max_width) == i,
    decreases s.len() - i,
{
    assert(s.take(i as int + 1).drop_last() =~= s.take(i as int));
    lemma_fitting_stays(s, i, (i + 1) as nat, max_width);
}

/// A fitting prefix shorter than the text it was taken from stays the
/// same for longer texts.
proof fn lemma_fitting_stays(s: Seq<char>, i: nat, j: nat, max_width: nat)
    requires
        i < j <= s.len(),
        fitting_prefix_len(s.take(j as int), max_width) == i,
    ensures
        fitting_prefix_len(s, max_width) == i,
    decreases s.len() - j,
{
    if j < s.len() {
        assert(s.take(j as int + 1).drop_last() =~= s.take(j as int));
        lemma_fitting_stays(s, i, (j + 1) as nat, max_width);
    } else {
        assert(s.take(j as int) =~= s);
    }
}

/// The composer area within `area`, below `queued` queued messages.
pub open spec fn text_area_spec(area: Area, queued: u16) -> Area {
    let h = area.height - (3 + queued);
    Area {
        x: clamp_u16(area.x + 2),
        y: clamp_u16(area.y + 1 + queued),
        width: if area.width >= 2 {
            (area.width - 2) as u16
        } else {
            0u16
        },
        height: if h >= 1 {
            h as u16
        } else {
            1u16
        },
    }
}

/// The composer area within `area`, below `queued` queued messages.
pub fn text_area(area: Area, queued: u16) -> (r: Area)
    requires
        queued <= 3,
    ensures
        r == text_area_spec(area, queued),
{
    let reserved = 3 + queued;
    let height = if area.height > reserved && area.height - reserved >= 1 {
        area.height - reserved
    } else {
        1
    };
    Area {
        x: area.x.saturating_add(2),
        y: area.y.saturating_add(1 + queued),
        width: area.width.saturating_sub(2),
        height,
    }
}

/// What the empty composer shows.
pub fn placeholder(task_running: bool, approval_required: bool) -> (r: &'static str)
    ensures
        approval_required ==> r@ == "Approval required"@,
        !approval_required && task_running ==> r@ == "Codex is responding..."@,
        !approval_required && !task_running ==> r@ == "Ask Codex to do anything"@,
{
    if approval_required {
        "Approval required"
    } else if task_running {
        "Codex is responding..."
    } else {
        "Ask Codex to do anything"
    }
}

impl BottomPane {
    /// The composer's text.
    pub open spec fn input_spec(&self) -> Seq<char> {
        self.textarea_spec().chars_spec()
    }

    /// The composer's text area.
    pub closed spec fn textarea_spec(&self) -> TextArea {
        self.textarea
    }

    /// The popup, if shown.
    pub closed spec fn popup_spec(&self) -> Option<SlashCommandPopup> {
        self.slash_popup
    }

    /// The queued messages.
    pub closed spec fn queued_spec(&self) -> Seq<Seq<char>> {
        strings_view(self.queued_messages@)
    }

    /// The popup shows exactly when the text starts a slash command, with
    /// that command's filter.
    pub open spec fn popup_synced(&self) -> bool {
        match slash_filter_spec(self.input_spec()) {
            Some(f) => self.popup_spec() matches Some(p) && p.filter_spec() == f,
            None => self.popup_spec() is None,
        }
    }

    /// An empty composer.
    pub fn new() -> (p: BottomPane)
        ensures
            p.input_spec().len() == 0,
            p.popup_spec() is None,
            p.queued_spec().len() == 0,
    {
        BottomPane { textarea: TextArea::new(), slash_popup: None, queued_messages: Vec::new() }
    }

    /// Shows or hides the popup to follow the text, keeping its selection
    /// when it stays open.
    pub fn sync_slash_popup(&mut self)
        ensures
            final(self).popup_synced(),
            final(self).textarea_spec() == old(self).textarea_spec(),
            final(self).queued_spec() == old(self).queued_spec(),
    {
        if SlashCommandPopup::should_show(self.textarea.text()) {
            let mut popup = match self.slash_popup.take() {
                Some(p) => p,
                None => SlashCommandPopup::new(self.textarea.text()),
            };
            popup.update(self.textarea.text());
            self.slash_popup = Some(popup);
        } else {
            self.slash_popup = None;
        }
    }

    /// Replaces the text (the cursor goes to its end).
    pub fn set_input(&mut self, input: String)
        ensures
            final(self).popup_synced(),
            final(self).input_spec() == input@,
            final(self).textarea_spec().cursor_spec() == input@.len(),
            final(self).queued_spec() == old(self).queued_spec(),
    {
        self.textarea.set_text(input);
        self.sync_slash_popup();
    }

    /// Empties the text.
    pub fn clear_input(&mut self)
        ensures
            final(self).popup_synced(),
            final(self).input_spec().len() == 0,
            final(self).queued_spec() == old(self).queued_spec(),
    {
        self.textarea.clear();
        self.sync_slash_popup();
    }

    /// Hands out the text without surrounding whitespace, and empties it.
    pub fn take_trimmed_input(&mut self) -> (r: String)
        ensures
            r@ == trim(old(self).input_spec()),
            final(self).popup_synced(),
            final(self).input_spec().len() == 0,
            final(self).queued_spec() == old(self).queued_spec(),
    {
        let input = trim_str(self.textarea.text());
        self.clear_input();
        input
    }

    /// Whether the text is empty.
    pub fn is_input_empty(&self) -> (b: bool)
        ensures
            b == (self.input_spec().len() == 0),
    {
        self.textarea.is_empty()
    }

    /// The text.
    pub fn input(&self) -> (s: &str)
        ensures
            s@ == self.input_spec(),
    {
        self.textarea.text()
    }

    /// The popup, if shown.
    pub fn slash_popup(&self) -> (r: Option<&SlashCommandPopup>)
        ensures
            r matches Some(p) ==> self.popup_spec() == Some(*p),
            r is None ==> self.popup_spec() is None,
    {
        self.slash_popup.as_ref()
    }

    /// Moves the popup's selection up (nothing without a popup).
    pub fn select_previous_slash_command(&mut self)
        ensures
            final(self).textarea_spec() == old(self).textarea_spec(),
            final(self).queued_spec() == old(self).queued_spec(),
            old(self).popup_spec() is None ==> final(self).popup_spec() is None,
            old(self).popup_spec() matches Some(p) ==> (final(self).popup_spec() matches Some(q)
                && q.filter_spec() == p.filter_spec() && q.selected_spec()
                == crate::slash_popup::previous_index(p.selected_spec(), p.filtered_spec().len())),
    {
        if let Some(mut popup) = self.slash_popup.take() {
            popup.select_previous();
            self.slash_popup = Some(popup);
        }
    }

    /// Moves the popup's selection down (nothing without a popup).
    pub fn select_next_slash_command(&mut self)
        ensures
            final(self).textarea_spec() == old(self).textarea_spec(),
            final(self).queued_spec() == old(self).queued_spec(),
            old(self).popup_spec() is None ==> final(self).popup_spec() is None,
            old(self).popup_spec() matches Some(p) ==> (final(self).popup_spec() matches Some(q)
                && q.filter_spec() == p.filter_spec() && q.selected_spec()
                == crate::slash_popup::next_index(p.selected_spec(), p.filtered_spec().len())),
    {
        if let Some(mut popup) = self.slash_popup.take() {
            popup.select_next();
            self.slash_popup = Some(popup);
        }
    }

    /// Hides the popup until the text changes.
    pub fn dismiss_slash_popup(&mut self)
        ensures
            final(self).popup_spec() is None,
            final(self).textarea_spec() == old(self).textarea_spec(),
            final(self).queued_spec() == old(self).queued_spec(),
    {
        self.slash_popup = None;
    }

    /// Tab: replaces the text by the selected command, `/`, its name and a
    /// space (nothing without a popup or a matching command).
    pub fn complete_slash_command(&mut self)
        ensures
            final(self).queued_spec() == old(self).queued_spec(),
            match old(self).popup_spec() {
                Some(p) => if p.filtered_spec().len() > 0 {
                    &&& final(self).input_spec() == seq!['/'] + p.filtered_spec()[
                        p.selected_spec() as int
                    ].name@ + seq![' ']
                    &&& final(self).textarea_spec().cursor_spec() == final(self).input_spec().len()
                    &&& final(self).popup_spec() is None
                } else {
                    *final(self) == *old(self)
                },
                None => *final(self) == *old(self),
            },
    {
        let completion = match &self.slash_popup {
            Some(p) => {
                proof {
                    use_type_invariant(p);
                }
                p.completion_text()
            },
            None => None,
        };
        proof {
            match old(self).popup_spec() {
                Some(p) => if p.filtered_spec().len() > 0 {
                    p.lemma_listed_names_plain();
                    lemma_completion_closes_popup(p.filtered_spec()[p.selected_spec() as int].name@);
                },
                None => {},
            }
        }
        match completion {
            Some(c) => self.set_input(c),
            None => {},
        }
    }

    /// Enter in the popup: the text becomes `/` and the selected command's
    /// name, the popup closes, and true is returned (false, with nothing
    /// changed, without a popup or a matching command).
    pub fn accept_slash_command(&mut self) -> (accepted: bool)
        ensures
            final(self).queued_spec() == old(self).queued_spec(),
            accepted <==> (old(self).popup_spec() matches Some(p) && p.filtered_spec().len() > 0),
            !accepted ==> *final(self) == *old(self),
            accepted ==> final(self).popup_spec() is None,
            accepted ==> (old(self).popup_spec() matches Some(p) && final(self).input_spec()
                == seq!['/'] + p.filtered_spec()[p.selected_spec() as int].name@),
            accepted ==> final(self).textarea_spec().cursor_spec() == final(self).input_spec().len(),
    {
        let command = match &self.slash_popup {
            Some(p) => p.selected_command(),
            None => None,
        };
        match command {
            Some(name) => {
                let mut text = owned("/");
                proof {
                    reveal_strlit("/");
                }
                push_str(&mut text, name);
                self.textarea.set_text(text);
                self.slash_popup = None;
                true
            },
            None => false,
        }
    }

    /// Replaces the queued messages.
    pub fn set_queued_messages(&mut self, queued_messages: Vec<String>)
        ensures
            final(self).queued_spec() == strings_view(queued_messages@),
            final(self).textarea_spec() == old(self).textarea_spec(),
            final(self).popup_spec() == old(self).popup_spec(),
    {
        self.queued_messages = queued_messages;
    }

    /// Types one character.
    pub fn insert_char(&mut self, character: char)
        ensures
            final(self).popup_synced(),
            final(self).input_spec() == old(self).input_spec().insert(
                old(self).textarea_spec().cursor_spec() as int,
                character,
            ),
            final(self).textarea_spec().cursor_spec() == old(self).textarea_spec().cursor_spec() + 1,
            final(self).queued_spec() == old(self).queued_spec(),
    {
        self.textarea.insert_char(character);
        self.sync_slash_popup();
    }

    /// Pastes `text` at the cursor, with its line endings made `'\n'`
    /// (nothing for empty text).
    pub fn insert_text(&mut self, text: &str)
        ensures
            final(self).queued_spec() == old(self).queued_spec(),
            text@.len() == 0 ==> *final(self) == *old(self),
            text@.len() > 0 ==> {
                let c = old(self).textarea_spec().cursor_spec() as int;
                &&& final(self).popup_synced()
                &&& final(self).input_spec() == old(self).input_spec().take(c)
                    + normalize_newlines_spec(text@) + old(self).input_spec().skip(c)
                &&& final(self).textarea_spec().cursor_spec() == c + normalize_newlines_spec(
                    text@,
                ).len()
            },
    {
        if text.unicode_len() == 0 {
            return;
        }
        let normalized = normalize_newlines(text);
        self.textarea.insert_text(normalized.as_str());
        self.sync_slash_popup();
    }

    /// Deletes the character before the cursor.
    pub fn backspace(&mut self)
        ensures
            final(self).popup_synced(),
            final(self).queued_spec() == old(self).queued_spec(),
            old(self).textarea_spec().cursor_spec() == 0 ==> final(self).textarea_spec()
                == old(self).textarea_spec(),
            old(self).textarea_spec().cursor_spec() > 0 ==> final(self).input_spec()
                == old(self).input_spec().remove(old(self).textarea_spec().cursor_spec() - 1)
                && final(self).textarea_spec().cursor_spec() == old(self).textarea_spec().cursor_spec()
                - 1,
    {
        self.textarea.backspace();
        self.sync_slash_popup();
    }

    /// Deletes the character after the cursor.
    pub fn delete(&mut self)
        ensures
            final(self).popup_synced(),
            final(self).queued_spec() == old(self).queued_spec(),
            old(self).textarea_spec().cursor_spec() >= old(self).input_spec().len() ==> final(self).textarea_spec() == old(self).textarea_spec(),
            old(self).textarea_spec().cursor_spec() < old(self).input_spec().len() ==> final(self).input_spec() == old(self).input_spec().remove(
                old(self).textarea_spec().cursor_spec() as int,
            ) && final(self).textarea_spec().cursor_spec() == old(self).textarea_spec().cursor_spec(),
    {
        self.textarea.delete();
        self.sync_slash_popup();
    }

    /// Moves the cursor one character left.
    pub fn move_cursor_left(&mut self)
        ensures
            final(self).input_spec() == old(self).input_spec(),
            final(self).popup_spec() == old(self).popup_spec(),
            final(self).queued_spec() == old(self).queued_spec(),
            final(self).textarea_spec().cursor_spec() == (if old(self).textarea_spec().cursor_spec()
                > 0 {
                old(self).textarea_spec().cursor_spec() - 1
            } else {
                0
            }),
    {
        self.textarea.move_cursor_left();
    }

    /// Moves the cursor one character right.
    pub fn move_cursor_right(&mut self)
        ensures
            final(self).input_spec() == old(self).input_spec(),
            final(self).popup_spec() == old(self).popup_spec(),
            final(self).queued_spec() == old(self).queued_spec(),
            final(self).textarea_spec().cursor_spec() == (if old(self).textarea_spec().cursor_spec()
                < old(self).input_spec().len() {
                old(self).textarea_spec().cursor_spec() + 1
            } else {
                old(self).textarea_spec().cursor_spec()
            }),
    {
        self.textarea.move_cursor_right();
    }

    /// Moves the cursor to the start of its line.
    pub fn move_cursor_to_line_start(&mut self)
        ensures
            final(self).input_spec() == old(self).input_spec(),
            final(self).popup_spec() == old(self).popup_spec(),
            final(self).queued_spec() == old(self).queued_spec(),
            final(self).textarea_spec().cursor_spec() == match crate::textarea::last_index_of(
                old(self).input_spec().take(old(self).textarea_spec().cursor_spec() as int),
                '\n',
            ) {
                Some(i) => i + 1,
                None => 0,
            },
    {
        self.textarea.move_cursor_to_line_start();
    }

    /// Moves the cursor to the end of its line.
    pub fn move_cursor_to_line_end(&mut self)
        ensures
            final(self).input_spec() == old(self).input_spec(),
            final(self).popup_spec() == old(self).popup_spec(),
            final(self).queued_spec() == old(self).queued_spec(),
            final(self).textarea_spec().cursor_spec() == old(self).textarea_spec().cursor_spec()
                + crate::env_file::index_of(
                old(self).input_spec().skip(old(self).textarea_spec().cursor_spec() as int),
                '\n',
            ),
    {
        self.textarea.move_cursor_to_line_end();
    }

    /// How many queued messages show: at most three.
    pub open spec fn queued_shown(&self) -> u16 {
        if self.queued_spec().len() < 3 {
            self.queued_spec().len() as u16
        } else {
            3u16
        }
    }

    /// How many queued messages show.
    pub fn queued_count(&self) -> (n: u16)
        ensures
            n == self.queued_shown(),
    {
        if self.queued_messages.len() < 3 {
            self.queued_messages.len() as u16
        } else {
            3
        }
    }

    /// The rows the composer wants at `width`: the queued messages shown,
    /// the text's rows (one to six) and three rows of frame.
    pub fn desired_height(&self, width: u16) -> (h: u16)
        ensures
            ({
                let input_width: u16 = if width >= 3 {
                    (width - 2) as u16
                } else {
                    1u16
                };
                let rows = clamp_u16(self.textarea_spec().rows_spec(input_width).len() as int);
                let input_rows: u16 = if rows < 1 {
                    1u16
                } else if rows > 6 {
                    6u16
                } else {
                    rows
                };
                h == self.queued_shown() + input_rows + 3
            }),
    {
        let queued = self.queued_count();
        let input_width = if width >= 3 {
            width - 2
        } else {
            1
        };
        let rows = self.textarea.visual_line_count(input_width);
        let input_rows = if rows < 1 {
            1
        } else if rows > 6 {
            6
        } else {
            rows
        };
        queued + input_rows + 3
    }

    /// The rows of the typed text shown in `height` rows at `width`.
    pub fn visible_lines(&self, width: u16, height: u16) -> (r: Vec<String>)
        ensures
            ({
                let t = self.textarea_spec();
                let rows = t.rows_spec(width);
                strings_view(r@) == row_texts(
                    t.chars_spec(),
                    shown_rows(
                        rows,
                        scroll_spec(
                            height as int,
                            rows.len() as int,
                            cursor_row_spec(rows, t.cursor_spec() as int),
                        ),
                        height as int,
                    ),
                )
            }),
    {
        self.textarea.visible_lines(width, height)
    }

    /// Where the cursor shows when the composer is drawn in `area`.
    pub fn cursor_pos(&self, area: Area) -> (r: (u16, u16))
        ensures
            r == self.textarea_spec().cursor_position_spec(
                text_area_spec(area, self.queued_shown()),
            ),
    {
        let queued = self.queued_count();
        let inner = text_area(area, queued);
        self.textarea.cursor_position(inner)
    }

    /// The lines shown for the queued messages: the first three, each
    /// after `queued  `.
    pub fn queued_lines(&self) -> (r: Vec<String>)
        ensures
            r@.len() == self.queued_shown(),
            forall|i: int|
                0 <= i < r@.len() ==> #[trigger] r@[i]@ == "queued  "@ + self.queued_spec()[i],
    {
        let n = self.queued_count() as usize;
        let mut out: Vec<String> = Vec::new();
        let mut i: usize = 0;
        while i < n
            invariant
                n == self.queued_shown(),
                n <= self.queued_messages@.len(),
                i <= n,
                out@.len() == i,
                forall|j: int|
                    0 <= j < i ==> #[trigger] out@[j]@ == "queued  "@ + strings_view(
                        self.queued_messages@,
                    )[j],
            decreases n - i,
        {
            let mut line = owned("queued  ");
            push_str(&mut line, self.queued_messages[i].as_str());
            out.push(line);
            i = i + 1;
        }
        out
    }
}

/// The footer under the composer: the working directory on the left, and
/// the status line on the right where it fits (its column and text).
pub fn footer_texts(cwd: &str, status_line: &str, area: Area) -> (r: (String, Option<(u16, String)>))
    ensures
        ({
            let left = "  "@ + cwd@;
            let right_max: nat = if area.width >= 2 {
                (area.width - 2) as nat
            } else {
                0
            };
            let right = status_line@.take(fitting_prefix_len(status_line@, right_max) as int);
            let rw = right.len();
            &&& r.0@ == left.take(fitting_prefix_len(left, area.width as nat) as int)
            &&& (rw > 0 && rw + 2 < area.width) ==> (r.1 matches Some(p) && p.1@ == right && p.0
                == clamp_u16(area.x + area.width) - (rw + 1))
            &&& !(rw > 0 && rw + 2 < area.width) ==> r.1 is None
        }),
{
    let mut left_full = owned("  ");
    push_str(&mut left_full, cwd);
    let left = truncate_to_width(left_full.as_str(), area.width as usize);
    let right_max: usize = if area.width >= 2 {
        (area.width - 2) as usize
    } else {
        0
    };
    let right = truncate_to_width(status_line, right_max);
    let rw = right.as_str().unicode_len();
    let w = area.width as usize;
    if rw > 0 && w >= 3 && rw < w - 2 {
        let end = area.x.saturating_add(area.width);
        let x = end - (rw as u16 + 1);
        (left, Some((x, right)))
    } else {
        (left, None)
    }
}

} // verus!
