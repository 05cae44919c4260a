//! The composer's text: editing at a cursor, and laying the text out on
//! screen rows.

use crate::env_file::{find_char, index_of, lemma_index_of_bounds};
use crate::model_picker::{first_index, lemma_first_index_found, lemma_first_index_none};
use crate::text::{chars_of, string_from_chars, string_from_range};
use crate::wrapping::{char_columns, char_width, display_width, str_display_width, strings_view};
use vstd::prelude::*;

verus! {

/// A rectangle of the screen, in cells.
#[derive(Debug, Clone, Copy, PartialEq, Eq)]
pub struct Area {
    pub x: u16,
    pub y: u16,
    pub width: u16,
    pub height: u16,
}

/// Text being edited, with a cursor between characters.
#[derive(Debug)]
pub struct TextArea {
    text: String,
    chars: Vec<char>,
    cursor: usize,
}

// ---------------------------------------------------------------------------
// Layout on screen rows
// ---------------------------------------------------------------------------

/// The layout width for a screen width: at least one column.
pub open spec fn layout_width(width: u16) -> int {
    if width == 0 {
        1
    } else {
        width as int
    }
}

/// One step of the layout: the rows finished so far (as character
/// ranges), where the open row starts and how wide it is, after reading
/// the character `c` at position `p`.  A newline ends the open row and
/// also yields an empty row after it; another character goes on the open
/// row unless that row is not empty and would pass `width`, in which case
/// the row is finished first.
pub open spec fn layout_step(state: (Seq<(int, int)>, int, int), p: int, c: char, width: int) -> (
    Seq<(int, int)>,
    int,
    int,
) {
    let (rows, start, cw) = state;
    if c == '\n' {
        (rows.push((start, p)).push((p + 1, p + 1)), p + 1, 0)
    } else {
        let w = char_columns(c) as int;
        if cw > 0 && cw + w > width {
            (rows.push((start, p)), p, w)
        } else {
            (rows, start, cw + w)
        }
    }
}

/// The layout state after reading all of `s`.
pub open spec fn layout_scan(s: Seq<char>, width: int) -> (Seq<(int, int)>, int, int)
    decreases s.len(),
{
    if s.len() == 0 {
        (seq![], 0, 0)
    } else {
        layout_step(layout_scan(s.drop_last(), width), s.len() - 1, s.last(), width)
    }
}

/// The screen rows of `s` at `width`, as character ranges: one empty row
/// for empty text; otherwise the rows of the scan, and the open row unless
/// the text ends with a newline.
pub open spec fn wrapped_ranges_spec(s: Seq<char>, width: int) -> Seq<(int, int)> {
    if s.len() == 0 {
        seq![(0, 0)]
    } else {
        let (rows, start, cw) = layout_scan(s, width);
        if s.last() == '\n' {
            rows
        } else {
            rows.push((start, s.len() as int))
        }
    }
}

/// The row at `i` holds `cursor`.
pub open spec fn holds_cursor(rows: Seq<(int, int)>, cursor: int) -> spec_fn(int) -> bool {
    |i: int| rows[i].0 <= cursor <= rows[i].1
}

/// The row of the cursor: the first row that holds it, else the last row.
pub open spec fn cursor_row_spec(rows: Seq<(int, int)>, cursor: int) -> int {
    match first_index(rows.len(), holds_cursor(rows, cursor)) {
        Some(i) => i as int,
        None => if rows.len() == 0 {
            0
        } else {
            rows.len() - 1
        },
    }
}

/// The first row shown in `height` rows: none is skipped when all fit,
/// else just enough for the cursor's row to be the last shown.
pub open spec fn scroll_spec(height: int, rows_len: int, cursor_row: int) -> int {
    if height == 0 || rows_len <= height {
        0
    } else if cursor_row + 1 >= height {
        cursor_row + 1 - height
    } else {
        0
    }
}

/// The rows shown in `height` rows, starting at `scroll`.
pub open spec fn shown_rows(rows: Seq<(int, int)>, scroll: int, height: int) -> Seq<(int, int)> {
    let rest = rows.skip(scroll);
    if rest.len() <= height {
        rest
    } else {
        rest.take(height)
    }
}

/// The texts of a list of rows.
pub open spec fn row_texts(s: Seq<char>, rows: Seq<(int, int)>) -> Seq<Seq<char>> {
    rows.map_values(|r: (int, int)| s.subrange(r.0, r.1))
}

/// The last position of `c` in `s`.
pub open spec fn last_index_of(s: Seq<char>, c: char) -> Option<int>
    decreases s.len(),
{
    if s.len() == 0 {
        None
    } else if s.last() == c {
        Some(s.len() - 1)
    } else {
        last_index_of(s.drop_last(), c)
    }
}

/// Character ranges as integers.
pub open spec fn ranges_view(v: Seq<(usize, usize)>) -> Seq<(int, int)> {
    v.map_values(|r: (usize, usize)| (r.0 as int, r.1 as int))
}

/// A count kept within `u16`.
pub open spec fn clamp_u16(n: int) -> u16 {
    if n > u16::MAX {
        u16::MAX
    } else {
        n as u16
    }
}

impl TextArea {
    /// The text.
    pub closed spec fn chars_spec(&self) -> Seq<char> {
        self.chars@
    }

    /// The cursor, as a character position.
    pub closed spec fn cursor_spec(&self) -> nat {
        self.cursor as nat
    }

    /// The text is held twice in step, and the cursor is within it.
    #[verifier::type_invariant]
    pub closed spec fn wf(&self) -> bool {
        self.text@ == self.chars@ && self.cursor <= self.chars@.len()
    }

    /// The screen rows of the text at `width`.
    pub open spec fn rows_spec(&self, width: u16) -> Seq<(int, int)> {
        wrapped_ranges_spec(self.chars_spec(), layout_width(width))
    }

    /// Where the cursor shows on screen when the text is drawn in `area`:
    /// its column within its row (limited to the area), and its row among
    /// those shown.
    pub open spec fn cursor_position_spec(&self, area: Area) -> (u16, u16) {
        let rows = self.rows_spec(area.width);
        let line = cursor_row_spec(rows, self.cursor_spec() as int);
        let scroll = scroll_spec(area.height as int, rows.len() as int, line);
        let row = rows[line];
        let end = if (self.cursor_spec() as int) < row.1 {
            self.cursor_spec() as int
        } else {
            row.1
        };
        let column_text = if row.0 <= end {
            self.chars_spec().subrange(row.0, end)
        } else {
            Seq::empty()
        };
        let column = str_display_width(column_text) as u16;
        let max_col = if area.width >= 1 {
            (area.width - 1) as u16
        } else {
            0u16
        };
        let shown_line = if line >= scroll {
            line - scroll
        } else {
            0
        };
        let y_off = if shown_line < area.height - 1 {
            shown_line
        } else {
            area.height - 1
        };
        (clamp_u16(area.x + if column < max_col {
            column as int
        } else {
            max_col as int
        }), clamp_u16(area.y + y_off))
    }

    /// Empty text.
    pub fn new() -> (t: TextArea)
        ensures
            t.chars_spec().len() == 0,
            t.cursor_spec() == 0,
    {
        TextArea { text: String::new(), chars: Vec::new(), cursor: 0 }
    }

    /// A text area holding `chars` with the cursor at `cursor`.
    fn from_parts(chars: Vec<char>, cursor: usize) -> (t: TextArea)
        requires
            cursor <= chars@.len(),
        ensures
            t.chars_spec() == chars@,
            t.cursor_spec() == cursor,
    {
        let text = string_from_chars(&chars);
        TextArea { text, chars, cursor }
    }

    /// The characters and the cursor.
    fn into_parts(self) -> (r: (Vec<char>, usize))
        ensures
            r.0@ == self.chars_spec(),
            r.1 == self.cursor_spec(),
            r.1 <= r.0@.len(),
    {
        proof {
            use_type_invariant(&self);
        }
        let TextArea { text: _, chars, cursor } = self;
        (chars, cursor)
    }

    /// Moves the text area out, leaving an empty one.
    fn take(&mut self) -> (t: TextArea)
        ensures
            t == *old(self),
    {
        let mut t = TextArea::new();
        std::mem::swap(self, &mut t);
        t
    }

    /// The text.
    pub fn text(&self) -> (s: &str)
        ensures
            s@ == self.chars_spec(),
    {
        proof {
            use_type_invariant(self);
        }
        self.text.as_str()
    }

    /// Replaces the text; the cursor goes to its end.
    pub fn set_text(&mut self, text: String)
        ensures
            final(self).chars_spec() == text@,
            final(self).cursor_spec() == text@.len(),
    {
        let chars = chars_of(text.as_str());
        let cursor = chars.len();
        *self = TextArea { text, chars, cursor };
    }

    /// Empties the text.
    pub fn clear(&mut self)
        ensures
            final(self).chars_spec().len() == 0,
            final(self).cursor_spec() == 0,
    {
        *self = TextArea::new();
    }

    /// Whether the text is empty.
    pub fn is_empty(&self) -> (b: bool)
        ensures
            b == (self.chars_spec().len() == 0),
    {
        self.chars.len() == 0
    }

    /// Types `character` at the cursor, which moves past it.
    pub fn insert_char(&mut self, character: char)
        ensures
            final(self).chars_spec() == old(self).chars_spec().insert(
                old(self).cursor_spec() as int,
                character,
            ),
            final(self).cursor_spec() == old(self).cursor_spec() + 1,
    {
        let (mut chars, cursor) = self.take().into_parts();
        chars.insert(cursor, character);
        let len = chars.len();
        assert(cursor < len);
        *self = TextArea::from_parts(chars, cursor + 1);
    }

    /// Inserts `text` at the cursor, which moves past it.
    pub fn insert_text(&mut self, text: &str)
        ensures
            final(self).chars_spec() == old(self).chars_spec().take(old(self).cursor_spec() as int)
                + text@ + old(self).chars_spec().skip(old(self).cursor_spec() as int),
            final(self).cursor_spec() == old(self).cursor_spec() + text@.len(),
    {
        let (mut chars, mut cursor) = self.take().into_parts();
        let t = chars_of(text);
        let mut i: usize = 0;
        let ghost c0 = cursor as int;
        let ghost before = chars@;
        while i < t.len()
            invariant
                t@ == text@,
                i <= t@.len(),
                cursor == c0 + i,
                chars@ == before.take(c0) + t@.take(i as int) + before.skip(c0),
                0 <= c0 <= before.len(),
            decreases t.len() - i,
        {
            chars.insert(cursor, t[i]);
            assert(chars@ =~= before.take(c0) + t@.take(i + 1) + before.skip(c0));
            let len = chars.len();
            assert(cursor < len);
            cursor = cursor + 1;
            i = i + 1;
        }
        assert(t@.take(i as int) =~= t@);
        *self = TextArea::from_parts(chars, cursor);
    }

    /// Deletes the character before the cursor.
    pub fn backspace(&mut self)
        ensures
            old(self).cursor_spec() == 0 ==> *final(self) == *old(self),
            old(self).cursor_spec() > 0 ==> final(self).chars_spec() == old(self).chars_spec().remove(
                old(self).cursor_spec() - 1,
            ) && final(self).cursor_spec() == old(self).cursor_spec() - 1,
    {
        if self.cursor == 0 {
            return;
        }
        let (mut chars, cursor) = self.take().into_parts();
        chars.remove(cursor - 1);
        *self = TextArea::from_parts(chars, cursor - 1);
    }

    /// Deletes the character after the cursor.
    pub fn delete(&mut self)
        ensures
            old(self).cursor_spec() >= old(self).chars_spec().len() ==> *final(self) == *old(self),
            old(self).cursor_spec() < old(self).chars_spec().len() ==> final(self).chars_spec()
                == old(self).chars_spec().remove(old(self).cursor_spec() as int)
                && final(self).cursor_spec() == old(self).cursor_spec(),
    {
        if self.cursor >= self.chars.len() {
            return;
        }
        let (mut chars, cursor) = self.take().into_parts();
        chars.remove(cursor);
        *self = TextArea::from_parts(chars, cursor);
    }

    /// Moves the cursor one character left.
    pub fn move_cursor_left(&mut self)
        ensures
            final(self).chars_spec() == old(self).chars_spec(),
            final(self).cursor_spec() == (if old(self).cursor_spec() > 0 {
                old(self).cursor_spec() - 1
            } else {
                0
            }),
    {
        proof {
            use_type_invariant(&*self);
        }
        if self.cursor > 0 {
            self.cursor = self.cursor - 1;
        }
    }

    /// Moves the cursor one character right.
    pub fn move_cursor_right(&mut self)
        ensures
            final(self).chars_spec() == old(self).chars_spec(),
            final(self).cursor_spec() == (if old(self).cursor_spec() < old(self).chars_spec().len() {
                old(self).cursor_spec() + 1
            } else {
                old(self).cursor_spec()
            }),
    {
        proof {
            use_type_invariant(&*self);
        }
        if self.cursor < self.chars.len() {
            self.cursor = self.cursor + 1;
        }
    }

    /// Moves the cursor to the start of its line: just after the last
    /// newline before it, else to the start of the text.
    pub fn move_cursor_to_line_start(&mut self)
        ensures
            final(self).chars_spec() == old(self).chars_spec(),
            final(self).cursor_spec() == match last_index_of(
                old(self).chars_spec().take(old(self).cursor_spec() as int),
                '\n',
            ) {
                Some(i) => i + 1,
                None => 0,
            },
    {
        proof {
            use_type_invariant(&*self);
        }
        let mut k = self.cursor;
        while k > 0 && self.chars[k - 1] != '\n'
            invariant
                self.wf(),
                k <= self.cursor,
                last_index_of(self.chars@.take(self.cursor as int), '\n') == last_index_of(
                    self.chars@.take(k as int),
                    '\n',
                ),
            decreases k,
        {
            assert(self.chars@.take(k as int).drop_last() =~= self.chars@.take(k - 1));
            k = k - 1;
        }
        if k > 0 {
            assert(self.chars@.take(k as int).last() == '\n');
        }
        self.cursor = k;
    }

    /// Moves the cursor to the end of its line: onto the next newline,
    /// else to the end of the text.
    pub fn move_cursor_to_line_end(&mut self)
        ensures
            final(self).chars_spec() == old(self).chars_spec(),
            final(self).cursor_spec() == old(self).cursor_spec() + index_of(
                old(self).chars_spec().skip(old(self).cursor_spec() as int),
                '\n',
            ),
    {
        proof {
            use_type_invariant(&*self);
        }
        let mut k = self.cursor;
        while k < self.chars.len() && self.chars[k] != '\n'
            invariant
                self.wf(),
                self.cursor <= k <= self.chars@.len(),
                forall|m: int| self.cursor <= m < k ==> self.chars@[m] != '\n',
            decreases self.chars.len() - k,
        {
            k = k + 1;
        }
        proof {
            let rest = self.chars@.skip(self.cursor as int);
            assert forall|m: int| 0 <= m < k - self.cursor implies rest[m] != '\n' by {
                assert(rest[m] == self.chars@[self.cursor + m]);
            }
            if k < self.chars.len() {
                assert(rest[k - self.cursor] == '\n');
            }
            lemma_index_of_is(rest, '\n', k - self.cursor);
        }
        self.cursor = k;
    }

    /// The screen rows of the text at `width`, as character ranges.
    pub fn wrapped_ranges(&self, width: u16) -> (r: Vec<(usize, usize)>)
        ensures
            ranges_view(r@) == self.rows_spec(width),
            r@.len() > 0,
            forall|k: int|
                0 <= k < r@.len() ==> #[trigger] r@[k].0 <= r@[k].1 <= self.chars_spec().len(),
    {
        proof {
            use_type_invariant(&*self);
        }
        let w: usize = if width == 0 {
            1
        } else {
            width as usize
        };
        if self.chars.len() == 0 {
            let r = vec![(0usize, 0usize)];
            assert(ranges_view(r@) =~= seq![(0int, 0int)]);
            return r;
        }
        let n = self.chars.len();
        let mut rows: Vec<(usize, usize)> = Vec::new();
        let mut start: usize = 0;
        let mut cw: usize = 0;
        let mut i: usize = 0;
        assert(self.chars@.take(0) =~= Seq::<char>::empty());
        assert(ranges_view(rows@) =~= Seq::<(int, int)>::empty());
        while i < n
            invariant
                n == self.chars@.len(),
                w as int == layout_width(width),
                i <= n,
                start <= i,
                cw <= w || cw <= 3,
                (ranges_view(rows@), start as int, cw as int) == layout_scan(
                    self.chars@.take(i as int),
                    w as int,
                ),
                forall|k: int|
                    0 <= k < rows@.len() ==> (#[trigger] rows@[k]).0 <= rows@[k].1 && rows@[k].1 <= i,
                i > 0 && self.chars@[i - 1] == '\n' ==> rows@.len() > 0,
            decreases n - i,
        {
            let c = self.chars[i];
            assert(self.chars@.take(i + 1).drop_last() =~= self.chars@.take(i as int));
            assert(self.chars@.take(i + 1).last() == c);
            let ghost before = rows@;
            if c == '\n' {
                rows.push((start, i));
                rows.push((i + 1, i + 1));
                assert(ranges_view(rows@) =~= ranges_view(before).push((start as int, i as int)).push(
                    (i + 1, i + 1),
                ));
                start = i + 1;
                cw = 0;
                assert(rows@.len() > 0);
            } else {
                let cwid: usize = match char_width(c) {
                    Some(x) => x,
                    None => 0,
                };
                assert(cwid <= 3) by {
                    if (c as u32) >= 0xA0 {
                    } else if 0x20 <= (c as u32) && (c as u32) < 0x7F {
                    } else {
                    }
                }
                let over = if cwid > w {
                    true
                } else {
                    cw > w - cwid
                };
                if cw > 0 && over {
                    rows.push((start, i));
                    assert(ranges_view(rows@) =~= ranges_view(before).push((start as int, i as int)));
                    start = i;
                    cw = cwid;
                } else {
                    cw = cw + cwid;
                }
            }
            assert(self.chars@[i as int] == c);
            assert forall|k: int| 0 <= k < rows@.len() implies (#[trigger] rows@[k]).0 <= rows@[k].1
                && rows@[k].1 <= i + 1 by {
                if k < before.len() {
                    assert(rows@[k] == before[k]);
                }
            }
            i = i + 1;
        }
        assert(self.chars@.take(n as int) =~= self.chars@);
        if self.chars[n - 1] != '\n' {
            let ghost before = rows@;
            rows.push((start, n));
            assert(ranges_view(rows@) =~= ranges_view(before).push((start as int, n as int)));
            assert forall|k: int| 0 <= k < rows@.len() implies #[trigger] rows@[k].0 <= rows@[k].1
                <= n by {
                if k < before.len() {
                    assert(rows@[k] == before[k]);
                }
            }
        }
        rows
    }

    /// How many screen rows the text takes at `width`, at most `u16::MAX`.
    pub fn visual_line_count(&self, width: u16) -> (n: u16)
        ensures
            n == clamp_u16(self.rows_spec(width).len() as int),
    {
        proof {
            use_type_invariant(&*self);
        }
        let rows = self.wrapped_ranges(width);
        if rows.len() > 65535 {
            u16::MAX
        } else {
            rows.len() as u16
        }
    }

    /// The row of the cursor among `rows`.
    fn cursor_visual_line(&self, rows: &Vec<(usize, usize)>) -> (r: usize)
        ensures
            r == cursor_row_spec(ranges_view(rows@), self.cursor as int),
            rows@.len() > 0 ==> r < rows@.len(),
    {
        proof {
            use_type_invariant(&*self);
        }
        let ghost rv = ranges_view(rows@);
        let ghost p = holds_cursor(rv, self.cursor as int);
        let mut i: usize = 0;
        while i < rows.len()
            invariant
                rv == ranges_view(rows@),
                p == holds_cursor(rv, self.cursor as int),
                i <= rows@.len(),
                forall|j: int| 0 <= j < i ==> !(#[trigger] p(j)),
            decreases rows.len() - i,
        {
            let (s, e) = rows[i];
            if s <= self.cursor && self.cursor <= e {
                proof {
                    assert(rv[i as int] == (s as int, e as int));
                    lemma_first_index_found(rv.len(), p, i as nat);
                }
                return i;
            }
            assert(rv[i as int] == (s as int, e as int));
            i = i + 1;
        }
        proof {
            lemma_first_index_none(rv.len(), p);
        }
        if rows.len() == 0 {
            0
        } else {
            rows.len() - 1
        }
    }

    /// The first row shown in `height` rows.
    fn effective_scroll(&self, height: u16, rows: &Vec<(usize, usize)>) -> (r: usize)
        ensures
            r == scroll_spec(
                height as int,
                rows@.len() as int,
                cursor_row_spec(ranges_view(rows@), self.cursor as int),
            ),
            r <= rows@.len(),
    {
        proof {
            use_type_invariant(&*self);
        }
        if height == 0 || rows.len() <= height as usize {
            return 0;
        }
        let line = self.cursor_visual_line(rows);
        if line + 1 >= height as usize {
            line + 1 - height as usize
        } else {
            0
        }
    }

    /// The texts of the rows shown in `height` rows at `width`.
    pub fn visible_lines(&self, width: u16, height: u16) -> (r: Vec<String>)
        ensures
            strings_view(r@) == row_texts(
                self.chars_spec(),
                shown_rows(
                    self.rows_spec(width),
                    scroll_spec(
                        height as int,
                        self.rows_spec(width).len() as int,
                        cursor_row_spec(self.rows_spec(width), self.cursor_spec() as int),
                    ),
                    height as int,
                ),
            ),
    {
        proof {
            use_type_invariant(&*self);
        }
        let rows = self.wrapped_ranges(width);
        let scroll = self.effective_scroll(height, &rows);
        let ghost rv = ranges_view(rows@);
        let ghost shown = shown_rows(rv, scroll as int, height as int);
        let end = if rows.len() - scroll <= height as usize {
            rows.len()
        } else {
            scroll + height as usize
        };
        assert(shown =~= rv.subrange(scroll as int, end as int));
        let mut out: Vec<String> = Vec::new();
        let mut k: usize = scroll;
        assert(strings_view(out@) =~= row_texts(self.chars@, rv.subrange(scroll as int, k as int)));
        while k < end
            invariant
                self.wf(),
                rv == ranges_view(rows@),
                scroll <= k <= end <= rows@.len(),
                forall|m: int|
                    0 <= m < rows@.len() ==> #[trigger] rows@[m].0 <= rows@[m].1 <= self.chars@.len(),
                strings_view(out@) == row_texts(self.chars@, rv.subrange(scroll as int, k as int)),
            decreases end - k,
        {
            let (s, e) = rows[k];
            let piece = string_from_range(&self.chars, s, e);
            let ghost before = out@;
            out.push(piece);
            assert(rv[k as int] == (s as int, e as int));
            assert(rv.subrange(scroll as int, k + 1) =~= rv.subrange(scroll as int, k as int).push(
                (s as int, e as int),
            ));
            assert(piece@ == self.chars@.subrange(s as int, e as int));
            assert(row_texts(self.chars@, rv.subrange(scroll as int, k + 1)) =~= row_texts(
                self.chars@,
                rv.subrange(scroll as int, k as int),
            ).push(self.chars@.subrange(s as int, e as int)));
            assert(strings_view(out@) =~= strings_view(before).push(piece@));
            k = k + 1;
        }
        out
    }

    /// Where the cursor shows on screen when the text is drawn in `area`:
    /// its column within its row (limited to the area), and its row among
    /// those shown.
    pub fn cursor_position(&self, area: Area) -> (r: (u16, u16))
        requires
            area.height >= 1,
        ensures
            r == self.cursor_position_spec(area),
    {
        proof {
            use_type_invariant(&*self);
        }
        let rows = self.wrapped_ranges(area.width);
        let scroll = self.effective_scroll(area.height, &rows);
        let line = self.cursor_visual_line(&rows);
        let (s, e) = rows[line];
        let end = if self.cursor < e {
            self.cursor
        } else {
            e
        };
        let column_text = if s <= end {
            string_from_range(&self.chars, s, end)
        } else {
            String::new()
        };
        let column = display_width(column_text.as_str()) as u16;
        let max_col = if area.width >= 1 {
            area.width - 1
        } else {
            0
        };
        let col = if column < max_col {
            column
        } else {
            max_col
        };
        let shown_line = if line >= scroll {
            line - scroll
        } else {
            0
        };
        let limit = (area.height - 1) as usize;
        let y_off = if shown_line < limit {
            shown_line
        } else {
            limit
        };
        let x = area.x.saturating_add(col);
        let y = area.y.saturating_add(y_off as u16);
        assert(ranges_view(rows@)[line as int] == (s as int, e as int));
        (x, y)
    }
}

/// The columns the characters `s[a..b]` take.
pub open spec fn columns_between(s: Seq<char>, a: int, b: int) -> nat
    decreases b - a,
{
    if b <= a {
        0
    } else {
        columns_between(s, a, b - 1) + char_columns(s[b - 1])
    }
}

/// A row no wider than `width`, unless all it holds before its last
/// character takes no column (a single character wider than the screen).
pub open spec fn row_fits(s: Seq<char>, a: int, b: int, width: int) -> bool {
    columns_between(s, a, b) <= width || (b > a && columns_between(s, a, b - 1) == 0)
}

/// What the layout scan keeps true after reading the first `n` characters
/// of `s`: finished rows in order inside `0..start`, none holding a
/// newline, every earlier non-newline character in a row, each row
/// fitting; the open row `start..n` holds no newline, fits, and `cw` is its
/// width.
spec fn scan_inv(s: Seq<char>, n: int, st: (Seq<(int, int)>, int, int), width: int) -> bool {
    let (rows, start, cw) = st;
    &&& 0 <= start <= n <= s.len()
    &&& forall|i: int| 0 <= i < rows.len() ==> 0 <= (#[trigger] rows[i]).0 <= rows[i].1 <= start
    &&& forall|i: int| 0 <= i < rows.len() - 1 ==> (#[trigger] rows[i]).1 <= rows[i + 1].0
    &&& forall|i: int, k: int| #![trigger rows[i], s[k]] 0 <= i < rows.len() && rows[i].0 <= k < rows[i].1 ==> s[k] != '\n'
    &&& forall|k: int| start <= k < n ==> s[k] != '\n'
    &&& forall|k: int|
        0 <= k < start && s[k] != '\n' ==> exists|i: int|
            0 <= i < rows.len() && (#[trigger] rows[i]).0 <= k < rows[i].1
    &&& forall|i: int| 0 <= i < rows.len() ==> row_fits(s, (#[trigger] rows[i]).0, rows[i].1, width)
    &&& cw == columns_between(s, start, n)
    &&& row_fits(s, start, n, width)
    &&& forall|k: int|
        0 <= k < n && s[k] == '\n' ==> exists|i: int|
            0 <= i < rows.len() - 1 && (#[trigger] rows[i]).1 == k && rows[i + 1].0 == k + 1
}

proof fn lemma_layout_scan_inv(s: Seq<char>, n: int, width: int)
    requires
        0 <= n <= s.len(),
        width >= 1,
    ensures
        scan_inv(s, n, layout_scan(s.take(n), width), width),
    decreases n,
{
    if n == 0 {
        assert(s.take(0) =~= Seq::<char>::empty());
    } else {
        lemma_layout_scan_inv(s, n - 1, width);
        assert(s.take(n).drop_last() =~= s.take(n - 1));
        let prev = layout_scan(s.take(n - 1), width);
        let (rows, start, cw) = prev;
        let p = n - 1;
        let c = s[p];
        assert(s.take(n).last() == c);
        let next = layout_scan(s.take(n), width);
        assert(next == layout_step(prev, p, c, width));
        let (rows2, start2, cw2) = next;
        if c == '\n' {
            let r1 = rows.push((start, p));
            assert(rows2 == r1.push((p + 1, p + 1)));
            assert forall|i: int| 0 <= i < rows2.len() implies 0 <= (#[trigger] rows2[i]).0
                <= rows2[i].1 <= start2 by {
                if i < rows.len() {
                    assert(rows2[i] == rows[i]);
                }
            }
            assert forall|i: int| 0 <= i < rows2.len() - 1 implies (#[trigger] rows2[i]).1
                <= rows2[i + 1].0 by {
                if i + 1 < rows.len() {
                    assert(rows2[i] == rows[i] && rows2[i + 1] == rows[i + 1]);
                } else if i + 1 == rows.len() {
                    assert(rows2[i] == rows[i] && rows2[i + 1] == (start, p));
                }
            }
            assert forall|i: int, k: int|
                #![trigger rows2[i], s[k]] 0 <= i < rows2.len() && rows2[i].0 <= k < rows2[i].1 implies s[k]
                != '\n' by {
                if i < rows.len() {
                    assert(rows2[i] == rows[i]);
                }
            }
            assert forall|k: int| 0 <= k < start2 && s[k] != '\n' implies exists|i: int|
                0 <= i < rows2.len() && (#[trigger] rows2[i]).0 <= k < rows2[i].1 by {
                if k < start {
                    let i = choose|i: int| 0 <= i < rows.len() && (#[trigger] rows[i]).0 <= k < rows[i].1;
                    assert(rows2[i] == rows[i]);
                } else {
                    assert(k < p);
                    assert(rows2[rows.len() as int] == (start, p));
                }
            }
            assert forall|i: int| 0 <= i < rows2.len() implies row_fits(
                s,
                (#[trigger] rows2[i]).0,
                rows2[i].1,
                width,
            ) by {
                if i < rows.len() {
                    assert(rows2[i] == rows[i]);
                } else if i == rows.len() {
                    assert(rows2[i] == (start, p));
                } else {
                    assert(rows2[i] == (p + 1, p + 1));
                }
            }
            assert forall|k: int| 0 <= k < n && s[k] == '\n' implies exists|i: int|
                0 <= i < rows2.len() - 1 && (#[trigger] rows2[i]).1 == k && rows2[i + 1].0 == k
                    + 1 by {
                if k < p {
                    let i = choose|i: int|
                        0 <= i < rows.len() - 1 && (#[trigger] rows[i]).1 == k && rows[i + 1].0 == k + 1;
                    assert(rows2[i] == rows[i] && rows2[i + 1] == rows[i + 1]);
                } else {
                    assert(rows2[rows.len() as int] == (start, p));
                    assert(rows2[rows.len() as int + 1] == (p + 1, p + 1));
                }
            }
        } else {
            let w = char_columns(c) as int;
            assert(columns_between(s, start, n) == columns_between(s, start, p) + w);
            if cw > 0 && cw + w > width {
                assert(rows2 == rows.push((start, p)));
                assert forall|i: int| 0 <= i < rows2.len() implies 0 <= (#[trigger] rows2[i]).0
                    <= rows2[i].1 <= start2 by {
                    if i < rows.len() {
                        assert(rows2[i] == rows[i]);
                    }
                }
                assert forall|i: int| 0 <= i < rows2.len() - 1 implies (#[trigger] rows2[i]).1
                    <= rows2[i + 1].0 by {
                    if i + 1 < rows.len() {
                        assert(rows2[i] == rows[i] && rows2[i + 1] == rows[i + 1]);
                    } else {
                        assert(rows2[i] == rows[i] && rows2[i + 1] == (start, p));
                    }
                }
                assert forall|i: int, k: int|
                    #![trigger rows2[i], s[k]] 0 <= i < rows2.len() && rows2[i].0 <= k < rows2[i].1 implies s[k]
                    != '\n' by {
                    if i < rows.len() {
                        assert(rows2[i] == rows[i]);
                    }
                }
                assert forall|k: int| 0 <= k < start2 && s[k] != '\n' implies exists|i: int|
                    0 <= i < rows2.len() && (#[trigger] rows2[i]).0 <= k < rows2[i].1 by {
                    if k < start {
                        let i = choose|i: int| 0 <= i < rows.len() && (#[trigger] rows[i]).0 <= k < rows[i].1;
                        assert(rows2[i] == rows[i]);
                    } else {
                        assert(rows2[rows.len() as int] == (start, p));
                    }
                }
                assert forall|i: int| 0 <= i < rows2.len() implies row_fits(
                    s,
                    (#[trigger] rows2[i]).0,
                    rows2[i].1,
                    width,
                ) by {
                    if i < rows.len() {
                        assert(rows2[i] == rows[i]);
                    } else {
                        assert(rows2[i] == (start, p));
                    }
                }
                assert(columns_between(s, p, p) == 0);
                assert(columns_between(s, p, n) == w);
                assert forall|k: int| 0 <= k < n && s[k] == '\n' implies exists|i: int|
                    0 <= i < rows2.len() - 1 && (#[trigger] rows2[i]).1 == k && rows2[i + 1].0
                        == k + 1 by {
                    let i = choose|i: int|
                        0 <= i < rows.len() - 1 && (#[trigger] rows[i]).1 == k && rows[i + 1].0 == k + 1;
                    assert(rows2[i] == rows[i] && rows2[i + 1] == rows[i + 1]);
                }
            } else {
                assert(rows2 == rows);
                if cw + w > width {
                    assert(cw == 0);
                }
            }
        }
    }
}

/// The screen rows of a text are in order, inside the text and apart;
/// no row holds a newline; every character but the newlines lies in a
/// row; each newline ends a row and the next row starts right after it;
/// and a row is no wider than the screen unless everything it holds
/// before its last character takes no column (for instance combining
/// marks before a character wider than the screen).
pub proof fn lemma_wrapped_rows(s: Seq<char>, width: u16)
    ensures
        ({
            let rows = wrapped_ranges_spec(s, layout_width(width));
            &&& forall|i: int| 0 <= i < rows.len() ==> 0 <= (#[trigger] rows[i]).0 <= rows[i].1 <= s.len()
            &&& forall|i: int| 0 <= i < rows.len() - 1 ==> (#[trigger] rows[i]).1 <= rows[i + 1].0
            &&& forall|i: int, k: int|
                #![trigger rows[i], s[k]] 0 <= i < rows.len() && rows[i].0 <= k < rows[i].1 ==> s[k] != '\n'
            &&& forall|k: int|
                0 <= k < s.len() && s[k] != '\n' ==> exists|i: int|
                    0 <= i < rows.len() && (#[trigger] rows[i]).0 <= k < rows[i].1
            &&& forall|i: int|
                0 <= i < rows.len() ==> row_fits(s, (#[trigger] rows[i]).0, rows[i].1, layout_width(width))
            &&& forall|k: int|
                0 <= k < s.len() && s[k] == '\n' ==> exists|i: int|
                    0 <= i < rows.len() - 1 && (#[trigger] rows[i]).1 == k && rows[i + 1].0 == k + 1
        }),
{
    let w = layout_width(width);
    let rows = wrapped_ranges_spec(s, w);
    if s.len() == 0 {
        assert(rows == seq![(0int, 0int)]);
        assert(columns_between(s, 0, 0) == 0);
    } else {
        lemma_layout_scan_inv(s, s.len() as int, w);
        assert(s.take(s.len() as int) =~= s);
        let (r, start, cw) = layout_scan(s, w);
        if s.last() == '\n' {
            assert(rows == r);
            assert(start == s.len()) by {
                if start < s.len() {
                    assert(s[s.len() - 1] != '\n');
                }
            }
        } else {
            assert(rows == r.push((start, s.len() as int)));
            assert forall|i: int| 0 <= i < rows.len() implies 0 <= (#[trigger] rows[i]).0
                <= rows[i].1 <= s.len() by {
                if i < r.len() {
                    assert(rows[i] == r[i]);
                }
            }
            assert forall|i: int| 0 <= i < rows.len() - 1 implies (#[trigger] rows[i]).1
                <= rows[i + 1].0 by {
                if i + 1 < r.len() {
                    assert(rows[i] == r[i] && rows[i + 1] == r[i + 1]);
                } else {
                    assert(rows[i] == r[i] && rows[i + 1] == (start, s.len() as int));
                }
            }
            assert forall|i: int, k: int|
                #![trigger rows[i], s[k]] 0 <= i < rows.len() && rows[i].0 <= k < rows[i].1 implies s[k]
                != '\n' by {
                if i < r.len() {
                    assert(rows[i] == r[i]);
                }
            }
            assert forall|k: int| 0 <= k < s.len() && s[k] != '\n' implies exists|i: int|
                0 <= i < rows.len() && (#[trigger] rows[i]).0 <= k < rows[i].1 by {
                if k < start {
                    let i = choose|i: int| 0 <= i < r.len() && (#[trigger] r[i]).0 <= k < r[i].1;
                    assert(rows[i] == r[i]);
                } else {
                    assert(rows[r.len() as int] == (start, s.len() as int));
                }
            }
            assert forall|i: int| 0 <= i < rows.len() implies row_fits(
                s,
                (#[trigger] rows[i]).0,
                rows[i].1,
                w,
            ) by {
                if i < r.len() {
                    assert(rows[i] == r[i]);
                }
            }
            assert forall|k: int| 0 <= k < s.len() && s[k] == '\n' implies exists|i: int|
                0 <= i < rows.len() - 1 && (#[trigger] rows[i]).1 == k && rows[i + 1].0 == k + 1 by {
                let i = choose|i: int|
                    0 <= i < r.len() - 1 && (#[trigger] r[i]).1 == k && r[i + 1].0 == k + 1;
                assert(rows[i] == r[i] && rows[i + 1] == r[i + 1]);
            }
        }
    }
}

/// Typing a character and deleting it again with backspace gives back
/// the text; the cursor, one further after typing, is back where it was.
pub proof fn lemma_insert_then_backspace(text: Seq<char>, cursor: nat, c: char)
    requires
        cursor <= text.len(),
    ensures
        text.insert(cursor as int, c).remove((cursor + 1) - 1) == text,
{
    assert(text.insert(cursor as int, c).remove(cursor as int) =~= text);
}

/// `index_of` is `k` when `c` first occurs at `k` (or not at all, with
/// `k` the length).
proof fn lemma_index_of_is(s: Seq<char>, c: char, k: int)
    requires
        0 <= k <= s.len(),
        forall|m: int| 0 <= m < k ==> s[m] != c,
        k == s.len() || s[k] == c,
    ensures
        index_of(s, c) == k,
    decreases s.len(),
{
    if s.len() > 0 && k > 0 {
        assert forall|m: int| 0 <= m < k - 1 implies s.drop_first()[m] != c by {
            assert(s.drop_first()[m] == s[m + 1]);
        }
        lemma_index_of_is(s.drop_first(), c, k - 1);
    }
}

} // verus!
