//! The transcript: its cells, the answer being streamed, the inputs queued
//! while Codex works, and the lines the transcript shows.

use crate::format::usable_content_width_u16;
use crate::stream::{AssistantStream, AssistantStreamingCell, TranscriptReflow};
use crate::text::{chars_of, owned, push_str, utf8_len, byte_len};
use crate::wrapping::{display_width, rust_lines, str_display_width, lines_of, strings_view, wrap_line_spec, wrap_line_texts};
use vstd::prelude::*;

verus! {

/// How a piece of a transcript line is drawn.
#[derive(Debug, Clone, Copy, PartialEq, Eq)]
pub enum SpanStyle {
    Plain,
    Error,
    Approval,
    Note,
    Muted,
}

/// One cell of the transcript.
#[derive(Debug)]
pub enum HistoryCell {
    UserPrompt { text: String, translated_text: Option<String> },
    AssistantMarkdown { source: String },
    System { text: String },
    Error { text: String },
    ApprovalRequest { text: String },
    ToolCall { label: String, text: String },
    Plan { text: String },
    FinalMessageSeparator { label: Option<String> },
}

/// A transcript line: its pieces and how each is drawn.
pub open spec fn line_view(l: Vec<(String, SpanStyle)>) -> Seq<(Seq<char>, SpanStyle)> {
    l@.map_values(|p: (String, SpanStyle)| (p.0@, p.1))
}

/// A list of transcript lines.
pub open spec fn lines_view(v: Seq<Vec<(String, SpanStyle)>>) -> Seq<Seq<(Seq<char>, SpanStyle)>> {
    v.map_values(|l: Vec<(String, SpanStyle)>| line_view(l))
}

/// The larger of two numbers.
pub open spec fn max_nat(a: nat, b: nat) -> nat {
    if a >= b {
        a
    } else {
        b
    }
}

/// The texts of `text` wrapped after a prefix: the width left beside the
/// wider prefix (`None` when no column is left), then each line of the
/// text (one empty line for empty text) wrapped there.
pub open spec fn prefixed_texts_spec(ip: Seq<char>, sp: Seq<char>, text: Seq<char>, width: u16) -> Option<
    Seq<Seq<char>>,
> {
    let reserved = max_nat(str_display_width(ip), str_display_width(sp)) as u16;
    if width > reserved {
        let w = (width - reserved) as usize;
        let source = if text.len() == 0 {
            seq![Seq::<char>::empty()]
        } else {
            rust_lines(text)
        };
        Some(Seq::new(source.len(), |k: int| wrap_line_spec(seq![source[k]], w)).flatten())
    } else {
        None
    }
}

/// The lines of `text` after a prefix: the first line starts with the
/// first prefix, the others with the second; only the first prefix when
/// no column is left for text.
pub open spec fn prefixed_lines_spec(
    ip: Seq<char>,
    ip_style: SpanStyle,
    sp: Seq<char>,
    text: Seq<char>,
    width: u16,
) -> Seq<Seq<(Seq<char>, SpanStyle)>> {
    match prefixed_texts_spec(ip, sp, text, width) {
        None => seq![seq![(ip, ip_style)]],
        Some(ts) => Seq::new(
            ts.len(),
            |k: int|
                if k == 0 {
                    seq![(ip, ip_style), (ts[0], SpanStyle::Plain)]
                } else {
                    seq![(sp, SpanStyle::Plain), (ts[k], SpanStyle::Plain)]
                },
        ),
    }
}

/// `n` copies of `c`.
pub open spec fn repeat_char(c: char, n: nat) -> Seq<char> {
    Seq::new(n, |i: int| c)
}

/// The text of the separator before a final answer: a rule of `─` across
/// the width, with the label after `─ ` when there is one.
pub open spec fn separator_text(label: Option<Seq<char>>, width: u16) -> Seq<char> {
    let start = match label {
        None => repeat_char('─', width as nat),
        Some(l) => seq!['─', ' '] + l + seq![' '],
    };
    if str_display_width(start) < width {
        start + repeat_char('─', (width - str_display_width(start)) as nat)
    } else {
        start
    }
}

/// A blank transcript line.
pub open spec fn blank_line() -> Seq<(Seq<char>, SpanStyle)> {
    seq![(Seq::<char>::empty(), SpanStyle::Plain)]
}

/// The lines an answer shows: `• ...` while empty.
pub open spec fn assistant_lines(source: Seq<char>, width: u16) -> Seq<Seq<(Seq<char>, SpanStyle)>> {
    if source.len() == 0 {
        seq![seq![("• ..."@, SpanStyle::Plain)]]
    } else {
        prefixed_lines_spec("• "@, SpanStyle::Plain, "  "@, source, width)
    }
}

/// The lines a cell shows at `width`.
pub open spec fn cell_lines_spec(cell: HistoryCell, width: u16) -> Seq<Seq<(Seq<char>, SpanStyle)>> {
    match cell {
        HistoryCell::UserPrompt { text, translated_text } => {
            let own = prefixed_lines_spec("› "@, SpanStyle::Plain, "  "@, text@, width);
            match translated_text {
                Some(t) => own + seq![
                    blank_line(),
                    seq![("  "@, SpanStyle::Plain), ("codex prompt"@, SpanStyle::Note)],
                ] + prefixed_lines_spec("    "@, SpanStyle::Plain, "    "@, t@, width),
                None => own,
            }
        },
        HistoryCell::AssistantMarkdown { source } => assistant_lines(source@, width),
        HistoryCell::System { text } => prefixed_lines_spec(
            "system  "@,
            SpanStyle::Plain,
            "        "@,
            text@,
            width,
        ),
        HistoryCell::Error { text } => prefixed_lines_spec(
            "error  "@,
            SpanStyle::Error,
            "       "@,
            text@,
            width,
        ),
        HistoryCell::ApprovalRequest { text } => prefixed_lines_spec(
            "approve  "@,
            SpanStyle::Approval,
            "         "@,
            text@,
            width,
        ),
        HistoryCell::ToolCall { label, text } => prefixed_lines_spec(
            label@ + "  "@,
            SpanStyle::Plain,
            repeat_char(' ', utf8_len(label@ + "  "@)),
            text@,
            width,
        ),
        HistoryCell::Plan { text } => prefixed_lines_spec(
            "plan  "@,
            SpanStyle::Plain,
            "      "@,
            text@,
            width,
        ),
        HistoryCell::FinalMessageSeparator { label } => seq![
            seq![
                (
                    separator_text(
                        match label {
                            Some(l) => Some(l@),
                            None => None,
                        },
                        width,
                    ),
                    SpanStyle::Muted,
                ),
            ],
        ],
    }
}

/// `block` after `lines`, with a blank line between when both have lines.
pub open spec fn append_block(
    lines: Seq<Seq<(Seq<char>, SpanStyle)>>,
    block: Seq<Seq<(Seq<char>, SpanStyle)>>,
) -> Seq<Seq<(Seq<char>, SpanStyle)>> {
    if lines.len() > 0 {
        lines.push(blank_line()) + block
    } else {
        block
    }
}

/// The lines of a list of cells, blank lines between cells.
pub open spec fn cells_lines(cells: Seq<HistoryCell>, width: u16) -> Seq<
    Seq<(Seq<char>, SpanStyle)>,
>
    decreases cells.len(),
{
    if cells.len() == 0 {
        seq![]
    } else {
        append_block(cells_lines(cells.drop_last(), width), cell_lines_spec(cells.last(), width))
    }
}

/// The last `height` lines (all of them when they fit, or when the height
/// is zero).
pub open spec fn tail_spec<T>(lines: Seq<T>, height: nat) -> Seq<T> {
    if height == 0 || lines.len() <= height {
        lines
    } else {
        lines.skip(lines.len() - height)
    }
}

/// The position of the last cell of `cells` satisfying `p`.
pub open spec fn last_where(cells: Seq<HistoryCell>, p: spec_fn(HistoryCell) -> bool) -> Option<nat>
    decreases cells.len(),
{
    if cells.len() == 0 {
        None
    } else if p(cells.last()) {
        Some((cells.len() - 1) as nat)
    } else {
        last_where(cells.drop_last(), p)
    }
}

/// A user prompt cell.
pub open spec fn is_user_prompt() -> spec_fn(HistoryCell) -> bool {
    |c: HistoryCell| c is UserPrompt
}

/// An answer cell.
pub open spec fn is_assistant() -> spec_fn(HistoryCell) -> bool {
    |c: HistoryCell| c is AssistantMarkdown
}

/// A line of one piece.
fn one_piece(text: String, style: SpanStyle) -> (r: Vec<(String, SpanStyle)>)
    ensures
        line_view(r) == seq![(text@, style)],
{
    let r = vec![(text, style)];
    assert(line_view(r) =~= seq![(text@, style)]);
    r
}

/// Wraps `text` after a prefix (`prefixed_texts_spec`).
pub fn prefixed_texts(initial_prefix: &str, subsequent_prefix: &str, text: &str, width: u16) -> (r:
    Option<Vec<String>>)
    ensures
        match r {
            Some(v) => prefixed_texts_spec(initial_prefix@, subsequent_prefix@, text@, width) == Some(
                strings_view(v@),
            ),
            None => prefixed_texts_spec(initial_prefix@, subsequent_prefix@, text@, width) is None,
        },
{
    let a = display_width(initial_prefix);
    let b = display_width(subsequent_prefix);
    let reserved = (if a >= b {
        a
    } else {
        b
    }) as u16;
    let w = match usable_content_width_u16(width, reserved) {
        Some(w) => w,
        None => return None,
    };
    let source: Vec<String> = if text.unicode_len() == 0 {
        vec![String::new()]
    } else {
        lines_of(text)
    };
    let ghost src = if text@.len() == 0 {
        seq![Seq::<char>::empty()]
    } else {
        rust_lines(text@)
    };
    assert(strings_view(source@) =~= src);
    let ghost pieces = Seq::new(src.len(), |k: int| wrap_line_spec(seq![src[k]], w));
    let mut out: Vec<String> = Vec::new();
    let mut k: usize = 0;
    assert(pieces.take(0).flatten() =~= Seq::<Seq<char>>::empty());
    assert(strings_view(out@) =~= Seq::<Seq<char>>::empty());
    while k < source.len()
        invariant
            strings_view(source@) == src,
            pieces == Seq::new(src.len(), |k: int| wrap_line_spec(seq![src[k]], w)),
            k <= source@.len(),
            strings_view(out@) == pieces.take(k as int).flatten(),
        decreases source.len() - k,
    {
        let spans = vec![source[k].clone()];
        assert(strings_view(spans@) =~= seq![src[k as int]]);
        let more = wrap_line_texts(&spans, w);
        proof {
            assert(pieces.take(k + 1) =~= pieces.take(k as int).push(pieces[k as int]));
            pieces.take(k as int).lemma_flatten_push(pieces[k as int]);
        }
        let ghost before = out@;
        let mut j: usize = 0;
        assert(strings_view(out@) =~= strings_view(before) + strings_view(more@).take(0));
        while j < more.len()
            invariant
                j <= more@.len(),
                strings_view(out@) == strings_view(before) + strings_view(more@).take(j as int),
            decreases more.len() - j,
        {
            let line = more[j].clone();
            let ghost mid = out@;
            out.push(line);
            assert(strings_view(out@) =~= strings_view(mid).push(line@));
            assert(strings_view(more@).take(j + 1) =~= strings_view(more@).take(j as int).push(
                line@,
            ));
            j = j + 1;
        }
        assert(strings_view(more@).take(j as int) =~= strings_view(more@));
        k = k + 1;
    }
    assert(pieces.take(k as int) =~= pieces);
    Some(out)
}

/// The lines of `text` after a prefix (`prefixed_lines_spec`).
pub fn prefixed_lines(
    initial_prefix: &str,
    initial_style: SpanStyle,
    subsequent_prefix: &str,
    text: &str,
    width: u16,
) -> (r: Vec<Vec<(String, SpanStyle)>>)
    ensures
        lines_view(r@) == prefixed_lines_spec(
            initial_prefix@,
            initial_style,
            subsequent_prefix@,
            text@,
            width,
        ),
{
    match prefixed_texts(initial_prefix, subsequent_prefix, text, width) {
        None => {
            let r = vec![one_piece(owned(initial_prefix), initial_style)];
            assert(lines_view(r@) =~= seq![seq![(initial_prefix@, initial_style)]]);
            r
        },
        Some(ts) => {
            let ghost tv = strings_view(ts@);
            let ghost target = prefixed_lines_spec(
                initial_prefix@,
                initial_style,
                subsequent_prefix@,
                text@,
                width,
            );
            let mut out: Vec<Vec<(String, SpanStyle)>> = Vec::new();
            let mut k: usize = 0;
            while k < ts.len()
                invariant
                    tv == strings_view(ts@),
                    target.len() == tv.len(),
                    forall|m: int|
                        0 <= m < tv.len() ==> #[trigger] target[m] == (if m == 0 {
                            seq![(initial_prefix@, initial_style), (tv[0], SpanStyle::Plain)]
                        } else {
                            seq![(subsequent_prefix@, SpanStyle::Plain), (tv[m], SpanStyle::Plain)]
                        }),
                    k <= ts@.len(),
                    lines_view(out@) == target.take(k as int),
                decreases ts.len() - k,
            {
                let piece = ts[k].clone();
                let line = if k == 0 {
                    vec![(owned(initial_prefix), initial_style), (piece, SpanStyle::Plain)]
                } else {
                    vec![(owned(subsequent_prefix), SpanStyle::Plain), (piece, SpanStyle::Plain)]
                };
                assert(line_view(line) =~= target[k as int]);
                let ghost before = out@;
                out.push(line);
                assert(lines_view(out@) =~= lines_view(before).push(line_view(line)));
                assert(target.take(k + 1) =~= target.take(k as int).push(target[k as int]));
                k = k + 1;
            }
            assert(target.take(k as int) =~= target);
            out
        },
    }
}

/// `n` copies of `c`.
fn repeat(c: char, n: usize) -> (r: String)
    ensures
        r@ == repeat_char(c, n as nat),
{
    let mut r = String::new();
    let mut k: usize = 0;
    while k < n
        invariant
            k <= n,
            r@ == repeat_char(c, k as nat),
        decreases n - k,
    {
        crate::text::push_char(&mut r, c);
        k = k + 1;
        assert(r@ =~= repeat_char(c, k as nat));
    }
    r
}

/// The lines an answer shows.
fn assistant_cell_lines(source: &str, width: u16) -> (r: Vec<Vec<(String, SpanStyle)>>)
    ensures
        lines_view(r@) == assistant_lines(source@, width),
{
    if source.unicode_len() == 0 {
        let r = vec![one_piece(owned("• ..."), SpanStyle::Plain)];
        assert(lines_view(r@) =~= seq![seq![("• ..."@, SpanStyle::Plain)]]);
        r
    } else {
        prefixed_lines("• ", SpanStyle::Plain, "  ", source, width)
    }
}

impl AssistantStreamingCell {
    /// The lines the streamed answer shows.
    pub fn display_lines(&self, width: u16) -> (r: Vec<Vec<(String, SpanStyle)>>)
        ensures
            lines_view(r@) == assistant_lines(self.source_spec(), width),
    {
        assistant_cell_lines(self.source(), width)
    }
}

/// Appends `block` after `lines`, with a blank line between.
fn push_block(lines: &mut Vec<Vec<(String, SpanStyle)>>, block: Vec<Vec<(String, SpanStyle)>>)
    ensures
        lines_view(final(lines)@) == append_block(lines_view(old(lines)@), lines_view(block@)),
{
    let ghost start = lines_view(lines@);
    if lines.len() > 0 {
        let blank = one_piece(String::new(), SpanStyle::Plain);
        lines.push(blank);
        assert(lines_view(lines@) =~= start.push(blank_line()));
    }
    let ghost mid = lines@;
    let mut b = block;
    let ghost bv = b@;
    lines.append(&mut b);
    assert(lines_view(lines@) =~= lines_view(mid) + lines_view(bv));
}

impl HistoryCell {
    /// The lines the cell shows at `width`.
    pub fn display_lines(&self, width: u16) -> (r: Vec<Vec<(String, SpanStyle)>>)
        ensures
            lines_view(r@) == cell_lines_spec(*self, width),
    {
        match self {
            HistoryCell::UserPrompt { text, translated_text } => {
                let mut lines = prefixed_lines("› ", SpanStyle::Plain, "  ", text.as_str(), width);
                match translated_text {
                    Some(t) => {
                        let ghost own = lines_view(lines@);
                        let blank = one_piece(String::new(), SpanStyle::Plain);
                        lines.push(blank);
                        let label = vec![
                            (owned("  "), SpanStyle::Plain),
                            (owned("codex prompt"), SpanStyle::Note),
                        ];
                        assert(line_view(label) =~= seq![
                            ("  "@, SpanStyle::Plain),
                            ("codex prompt"@, SpanStyle::Note),
                        ]);
                        lines.push(label);
                        let ghost with_label = lines_view(lines@);
                        assert(with_label =~= own + seq![
                            blank_line(),
                            seq![("  "@, SpanStyle::Plain), ("codex prompt"@, SpanStyle::Note)],
                        ]);
                        let more = prefixed_lines("    ", SpanStyle::Plain, "    ", t.as_str(), width);
                        let ghost mid = lines@;
                        let mut rest = more;
                        let ghost mv = rest@;
                        lines.append(&mut rest);
                        assert(lines_view(lines@) =~= lines_view(mid) + lines_view(mv));
                        lines
                    },
                    None => lines,
                }
            },
            HistoryCell::AssistantMarkdown { source } => assistant_cell_lines(source.as_str(), width),
            HistoryCell::System { text } => prefixed_lines(
                "system  ",
                SpanStyle::Plain,
                "        ",
                text.as_str(),
                width,
            ),
            HistoryCell::Error { text } => prefixed_lines(
                "error  ",
                SpanStyle::Error,
                "       ",
                text.as_str(),
                width,
            ),
            HistoryCell::ApprovalRequest { text } => prefixed_lines(
                "approve  ",
                SpanStyle::Approval,
                "         ",
                text.as_str(),
                width,
            ),
            HistoryCell::ToolCall { label, text } => {
                let mut prefix = label.clone();
                push_str(&mut prefix, "  ");
                let indent = repeat(' ', byte_len(prefix.as_str()));
                prefixed_lines(prefix.as_str(), SpanStyle::Plain, indent.as_str(), text.as_str(), width)
            },
            HistoryCell::Plan { text } => prefixed_lines(
                "plan  ",
                SpanStyle::Plain,
                "      ",
                text.as_str(),
                width,
            ),
            HistoryCell::FinalMessageSeparator { label } => {
                let start = match label {
                    None => repeat('─', width as usize),
                    Some(l) => {
                        let mut t = owned("─ ");
                        push_str(&mut t, l.as_str());
                        crate::text::push_char(&mut t, ' ');
                        proof {
                            reveal_strlit("─ ");
                        }
                        t
                    },
                };
                let ghost lv = match label {
                    Some(l) => Some(l@),
                    None => None::<Seq<char>>,
                };
                assert(start@ =~= (match lv {
                    None => repeat_char('─', width as nat),
                    Some(l) => seq!['─', ' '] + l + seq![' '],
                }));
                let w = display_width(start.as_str());
                let text = if w < width as usize {
                    let mut t = start;
                    let pad = repeat('─', width as usize - w);
                    push_str(&mut t, pad.as_str());
                    t
                } else {
                    start
                };
                assert(text@ =~= separator_text(lv, width));
                let line = one_piece(text, SpanStyle::Muted);
                let r = vec![line];
                assert(lines_view(r@) =~= cell_lines_spec(*self, width));
                r
            },
        }
    }
}

/// The transcript widget's state.
#[derive(Debug)]
pub struct ChatWidget {
    history: Vec<HistoryCell>,
    stream: AssistantStream,
    queued_inputs: Vec<String>,
    reflow: TranscriptReflow,
}

impl ChatWidget {
    /// The cells.
    pub closed spec fn history_spec(&self) -> Seq<HistoryCell> {
        self.history@
    }

    /// The answer being streamed.
    pub closed spec fn stream_spec(&self) -> AssistantStream {
        self.stream
    }

    /// The inputs queued while Codex works, oldest first.
    pub closed spec fn queued_spec(&self) -> Seq<Seq<char>> {
        strings_view(self.queued_inputs@)
    }

    /// The width of the last frame, if any.
    pub closed spec fn last_width_spec(&self) -> Option<u16> {
        self.reflow.last_width
    }

    /// An empty transcript.
    pub fn new() -> (c: ChatWidget)
        ensures
            c.history_spec().len() == 0,
            !c.stream_spec().active_spec(),
            c.stream_spec().visible_spec().len() == 0,
            c.queued_spec().len() == 0,
            c.last_width_spec() is None,
    {
        ChatWidget {
            history: Vec::new(),
            stream: AssistantStream::new(),
            queued_inputs: Vec::new(),
            reflow: TranscriptReflow { last_width: None },
        }
    }

    /// Moves an open stream's text into an answer cell (none for empty
    /// text) and closes the stream.
    fn flush_assistant_stream(&mut self)
        ensures
            !final(self).stream_spec().active_spec(),
            final(self).queued_spec() == old(self).queued_spec(),
            (old(self).stream_spec().active_spec() && old(self).stream_spec().visible_spec().len()
                > 0) ==> ({
                &&& final(self).history_spec().len() == old(self).history_spec().len() + 1
                &&& final(self).history_spec().take(old(self).history_spec().len() as int)
                    == old(self).history_spec()
                &&& final(self).history_spec().last() matches HistoryCell::AssistantMarkdown {
                    source,
                } && source@ == old(self).stream_spec().visible_spec()
            }),
            !(old(self).stream_spec().active_spec() && old(self).stream_spec().visible_spec().len()
                > 0) ==> final(self).history_spec() == old(self).history_spec(),
            !old(self).stream_spec().active_spec() ==> final(self).stream_spec()
                == old(self).stream_spec(),
    {
        match self.stream.take_finished_or_active() {
            Some(source) => {
                if source.as_str().unicode_len() > 0 {
                    let ghost before = self.history@;
                    self.history.push(HistoryCell::AssistantMarkdown { source });
                    assert(self.history@.take(before.len() as int) =~= before);
                }
            },
            None => {},
        }
    }

    /// Adds a note from the application.
    pub fn push_system(&mut self, text: String)
        ensures
            final(self).history_spec() == old(self).history_spec().push(
                HistoryCell::System { text },
            ),
            final(self).stream_spec() == old(self).stream_spec(),
            final(self).queued_spec() == old(self).queued_spec(),
    {
        self.history.push(HistoryCell::System { text });
    }

    /// Adds a cell after closing an open stream.
    fn push_after_stream(&mut self, cell: HistoryCell)
        ensures
            !final(self).stream_spec().active_spec(),
            final(self).queued_spec() == old(self).queued_spec(),
            final(self).history_spec().last() == cell,
            (old(self).stream_spec().active_spec() && old(self).stream_spec().visible_spec().len()
                > 0) ==> ({
                &&& final(self).history_spec().len() == old(self).history_spec().len() + 2
                &&& final(self).history_spec().take(old(self).history_spec().len() as int)
                    == old(self).history_spec()
                &&& final(self).history_spec()[old(self).history_spec().len() as int] matches HistoryCell::AssistantMarkdown {
                    source,
                } && source@ == old(self).stream_spec().visible_spec()
            }),
            !(old(self).stream_spec().active_spec() && old(self).stream_spec().visible_spec().len()
                > 0) ==> final(self).history_spec() == old(self).history_spec().push(cell),
    {
        self.flush_assistant_stream();
        let ghost mid = self.history@;
        self.history.push(cell);
        assert(self.history@.take(mid.len() as int) =~= mid);
        assert(self.history@.take(old(self).history@.len() as int) =~= mid.take(
            old(self).history@.len() as int,
        ));
    }

    /// Adds an error, after closing an open stream.
    pub fn push_error(&mut self, text: String)
        ensures
            !final(self).stream_spec().active_spec(),
            final(self).queued_spec() == old(self).queued_spec(),
            final(self).history_spec().last() == (HistoryCell::Error { text }),
            !(old(self).stream_spec().active_spec() && old(self).stream_spec().visible_spec().len()
                > 0) ==> final(self).history_spec() == old(self).history_spec().push(
                HistoryCell::Error { text },
            ),
    {
        self.push_after_stream(HistoryCell::Error { text });
    }

    /// Adds an approval request, after closing an open stream.
    pub fn push_approval(&mut self, text: String)
        ensures
            !final(self).stream_spec().active_spec(),
            final(self).queued_spec() == old(self).queued_spec(),
            final(self).history_spec().last() == (HistoryCell::ApprovalRequest { text }),
            !(old(self).stream_spec().active_spec() && old(self).stream_spec().visible_spec().len()
                > 0) ==> final(self).history_spec() == old(self).history_spec().push(
                HistoryCell::ApprovalRequest { text },
            ),
    {
        self.push_after_stream(HistoryCell::ApprovalRequest { text });
    }

    /// Adds a tool call, after closing an open stream.
    pub fn push_tool_call(&mut self, label: String, text: String)
        ensures
            !final(self).stream_spec().active_spec(),
            final(self).queued_spec() == old(self).queued_spec(),
            final(self).history_spec().last() == (HistoryCell::ToolCall { label, text }),
            !(old(self).stream_spec().active_spec() && old(self).stream_spec().visible_spec().len()
                > 0) ==> final(self).history_spec() == old(self).history_spec().push(
                HistoryCell::ToolCall { label, text },
            ),
    {
        self.push_after_stream(HistoryCell::ToolCall { label, text });
    }

    /// Adds a plan, after closing an open stream.
    pub fn push_plan(&mut self, text: String)
        ensures
            !final(self).stream_spec().active_spec(),
            final(self).queued_spec() == old(self).queued_spec(),
            final(self).history_spec().last() == (HistoryCell::Plan { text }),
            !(old(self).stream_spec().active_spec() && old(self).stream_spec().visible_spec().len()
                > 0) ==> final(self).history_spec() == old(self).history_spec().push(
                HistoryCell::Plan { text },
            ),
    {
        self.push_after_stream(HistoryCell::Plan { text });
    }

    /// Adds the separator before a final answer, after closing an open
    /// stream.
    pub fn push_final_separator(&mut self, label: Option<String>)
        ensures
            !final(self).stream_spec().active_spec(),
            final(self).queued_spec() == old(self).queued_spec(),
            final(self).history_spec().last() == (HistoryCell::FinalMessageSeparator { label }),
            !(old(self).stream_spec().active_spec() && old(self).stream_spec().visible_spec().len()
                > 0) ==> final(self).history_spec() == old(self).history_spec().push(
                HistoryCell::FinalMessageSeparator { label },
            ),
    {
        self.push_after_stream(HistoryCell::FinalMessageSeparator { label });
    }

    /// Adds a user prompt (with the prompt sent to Codex, when it was
    /// translated), after closing an open stream.
    pub fn push_user_with_translation(&mut self, text: String, translated_text: Option<String>)
        ensures
            !final(self).stream_spec().active_spec(),
            final(self).queued_spec() == old(self).queued_spec(),
            final(self).history_spec().last() == (HistoryCell::UserPrompt { text, translated_text }),
            !(old(self).stream_spec().active_spec() && old(self).stream_spec().visible_spec().len()
                > 0) ==> final(self).history_spec() == old(self).history_spec().push(
                HistoryCell::UserPrompt { text, translated_text },
            ),
    {
        self.push_after_stream(HistoryCell::UserPrompt { text, translated_text });
    }

    /// The position of the last cell of the kind `p` names.
    fn last_index(&self, user: bool) -> (r: Option<usize>)
        ensures
            r == (match last_where(
                self.history@,
                if user {
                    is_user_prompt()
                } else {
                    is_assistant()
                },
            ) {
                Some(i) => Some(i as usize),
                None => None,
            }),
    {
        let ghost p = if user {
            is_user_prompt()
        } else {
            is_assistant()
        };
        let mut k = self.history.len();
        assert(self.history@.take(k as int) =~= self.history@);
        while k > 0
            invariant
                p == (if user {
                    is_user_prompt()
                } else {
                    is_assistant()
                }),
                k <= self.history@.len(),
                last_where(self.history@, p) == last_where(self.history@.take(k as int), p),
            decreases k,
        {
            let found = match &self.history[k - 1] {
                HistoryCell::UserPrompt { .. } => user,
                HistoryCell::AssistantMarkdown { .. } => !user,
                _ => false,
            };
            assert(self.history@.take(k as int).last() == self.history@[k - 1]);
            if found {
                return Some(k - 1);
            }
            assert(self.history@.take(k as int).drop_last() =~= self.history@.take(k - 1));
            k = k - 1;
        }
        None
    }

    /// Records the prompt sent to Codex for the last user prompt.
    pub fn set_last_user_translation(&mut self, translated_text: String)
        ensures
            final(self).stream_spec() == old(self).stream_spec(),
            final(self).queued_spec() == old(self).queued_spec(),
            final(self).history_spec().len() == old(self).history_spec().len(),
            match last_where(old(self).history_spec(), is_user_prompt()) {
                Some(i) => (old(self).history_spec()[i as int] matches HistoryCell::UserPrompt {
                    text,
                    ..
                } && final(self).history_spec() == old(self).history_spec().update(
                    i as int,
                    HistoryCell::UserPrompt { text, translated_text: Some(translated_text) },
                )),
                None => final(self).history_spec() == old(self).history_spec(),
            },
    {
        match self.last_index(true) {
            Some(i) => {
                proof {
                    lemma_last_where_holds(self.history@, is_user_prompt());
                }
                let cell = self.history.remove(i);
                match cell {
                    HistoryCell::UserPrompt { text, .. } => {
                        self.history.insert(
                            i,
                            HistoryCell::UserPrompt { text, translated_text: Some(translated_text) },
                        );
                        assert(self.history@ =~= old(self).history@.update(
                            i as int,
                            HistoryCell::UserPrompt { text, translated_text: Some(translated_text) },
                        ));
                    },
                    other => {
                        self.history.insert(i, other);
                        assert(false);
                    },
                }
            },
            None => {},
        }
    }

    /// Opens a new streamed answer.
    pub fn start_assistant_message(&mut self)
        ensures
            final(self).stream_spec().active_spec(),
            final(self).stream_spec().visible_spec().len() == 0,
            final(self).history_spec() == old(self).history_spec(),
            final(self).queued_spec() == old(self).queued_spec(),
    {
        self.stream.start();
    }

    /// Adds streamed text to the answer.
    pub fn append_assistant_delta(&mut self, delta: &str)
        ensures
            final(self).stream_spec().active_spec(),
            final(self).stream_spec().visible_spec() == old(self).stream_spec().visible_spec()
                + delta@,
            final(self).history_spec() == old(self).history_spec(),
            final(self).queued_spec() == old(self).queued_spec(),
    {
        self.stream.push_delta(delta);
    }

    /// Commits the streamed text received since the last commit; whether
    /// there was any.
    pub fn commit_stream(&mut self) -> (moved: bool)
        ensures
            moved == (old(self).stream_spec().pending_spec().len() > 0),
            final(self).stream_spec().visible_spec() == old(self).stream_spec().visible_spec(),
            final(self).stream_spec().active_spec() == old(self).stream_spec().active_spec(),
            final(self).history_spec() == old(self).history_spec(),
            final(self).queued_spec() == old(self).queued_spec(),
    {
        let moved = self.stream.commit_pending();
        moved
    }

    /// The final text of an answer: it replaces the open stream (which
    /// becomes a cell), else the last answer cell, else it is added as an
    /// answer.
    #[verifier::spinoff_prover]
    pub fn replace_last_assistant_message(&mut self, text: String)
        ensures
            !final(self).stream_spec().active_spec(),
            final(self).queued_spec() == old(self).queued_spec(),
            old(self).stream_spec().active_spec() ==> (text@.len() > 0 ==> ({
                &&& final(self).history_spec().len() == old(self).history_spec().len() + 1
                &&& final(self).history_spec().take(old(self).history_spec().len() as int)
                    == old(self).history_spec()
                &&& final(self).history_spec().last() matches HistoryCell::AssistantMarkdown {
                    source,
                } && source@ == text@
            })) && (text@.len() == 0 ==> final(self).history_spec() == old(self).history_spec()),
            !old(self).stream_spec().active_spec() ==> match last_where(
                old(self).history_spec(),
                is_assistant(),
            ) {
                Some(i) => final(self).history_spec() == old(self).history_spec().update(
                    i as int,
                    HistoryCell::AssistantMarkdown { source: text },
                ),
                None => final(self).history_spec() == old(self).history_spec().push(
                    HistoryCell::AssistantMarkdown { source: text },
                ),
            },
    {
        if self.stream.is_active() {
            self.stream.finish_with(text);
            self.flush_assistant_stream();
            return;
        }
        let count = self.history.len();
        proof {
            lemma_last_where_holds(old(self).history@, is_assistant());
            assert(count == old(self).history@.len());
        }
        let found = self.last_index(false);
        assert(found == (match last_where(old(self).history@, is_assistant()) {
            Some(i) => Some(i as usize),
            None => None::<usize>,
        }));
        match found {
            Some(i) => {
                proof {
                    lemma_last_where_holds(old(self).history@, is_assistant());
                    assert(last_where(old(self).history@, is_assistant()) == Some(i as nat));
                }
                self.history.set(i, HistoryCell::AssistantMarkdown { source: text });
                assert(self.history@ == old(self).history@.update(
                    i as int,
                    HistoryCell::AssistantMarkdown { source: text },
                ));
            },
            None => {
                assert(last_where(old(self).history@, is_assistant()) is None);
                self.history.push(HistoryCell::AssistantMarkdown { source: text });
            },
        }
    }

    /// Empties the transcript, the stream and the queue.
    pub fn clear(&mut self)
        ensures
            final(self).history_spec().len() == 0,
            !final(self).stream_spec().active_spec(),
            final(self).stream_spec().visible_spec().len() == 0,
            final(self).queued_spec().len() == 0,
    {
        self.history = Vec::new();
        self.stream.clear();
        self.queued_inputs = Vec::new();
        assert(strings_view(self.queued_inputs@) =~= Seq::<Seq<char>>::empty());
    }

    /// Queues an input typed while Codex works.
    pub fn queue_user_input(&mut self, text: String)
        ensures
            final(self).queued_spec() == old(self).queued_spec().push(text@),
            final(self).history_spec() == old(self).history_spec(),
            final(self).stream_spec() == old(self).stream_spec(),
    {
        self.queued_inputs.push(text);
        assert(strings_view(self.queued_inputs@) =~= strings_view(old(self).queued_inputs@).push(
            text@,
        ));
    }

    /// Takes the oldest queued input.
    pub fn take_next_queued_input(&mut self) -> (r: Option<String>)
        ensures
            old(self).queued_spec().len() == 0 ==> r is None && final(self).queued_spec()
                == old(self).queued_spec(),
            old(self).queued_spec().len() > 0 ==> (r matches Some(t) && t@ == old(
                self,
            ).queued_spec()[0]) && final(self).queued_spec() == old(self).queued_spec().drop_first(),
            final(self).history_spec() == old(self).history_spec(),
            final(self).stream_spec() == old(self).stream_spec(),
    {
        if self.queued_inputs.len() == 0 {
            return None;
        }
        let first = self.queued_inputs.remove(0);
        assert(strings_view(self.queued_inputs@) =~= strings_view(old(self).queued_inputs@).drop_first());
        Some(first)
    }

    /// The queued inputs, oldest first.
    pub fn queued_input_lines(&self) -> (r: Vec<String>)
        ensures
            strings_view(r@) == self.queued_spec(),
    {
        let mut out: Vec<String> = Vec::new();
        let mut i: usize = 0;
        while i < self.queued_inputs.len()
            invariant
                i <= self.queued_inputs@.len(),
                strings_view(out@) == strings_view(self.queued_inputs@).take(i as int),
            decreases self.queued_inputs.len() - i,
        {
            let t = self.queued_inputs[i].clone();
            let ghost before = out@;
            out.push(t);
            assert(strings_view(out@) =~= strings_view(before).push(t@));
            assert(strings_view(self.queued_inputs@).take(i + 1) =~= strings_view(
                self.queued_inputs@,
            ).take(i as int).push(self.queued_inputs@[i as int]@));
            i = i + 1;
        }
        assert(strings_view(self.queued_inputs@).take(i as int) =~= strings_view(
            self.queued_inputs@,
        ));
        out
    }

    /// Whether the width changed since the last frame (the transcript is
    /// then laid out again).
    pub fn prepare_reflow(&mut self, width: u16) -> (changed: bool)
        ensures
            final(self).history_spec() == old(self).history_spec(),
            final(self).stream_spec() == old(self).stream_spec(),
            final(self).queued_spec() == old(self).queued_spec(),
            changed == (old(self).last_width_spec() matches Some(w) && w != width),
            final(self).last_width_spec() == Some(width),
    {
        self.reflow.observe_width(width)
    }

    /// The lines the transcript shows in `area`: the cells, then the open
    /// stream, blank lines between; a notice when there is nothing; the
    /// last `height` lines of that.
    pub fn display_lines(&self, width: u16, height: u16) -> (r: Vec<Vec<(String, SpanStyle)>>)
        ensures
            lines_view(r@) == tail_spec(self.transcript_spec(width), height as nat),
    {
        let mut lines: Vec<Vec<(String, SpanStyle)>> = Vec::new();
        let mut i: usize = 0;
        assert(self.history@.take(0) =~= Seq::<HistoryCell>::empty());
        assert(lines_view(lines@) =~= Seq::<Seq<(Seq<char>, SpanStyle)>>::empty());
        while i < self.history.len()
            invariant
                i <= self.history@.len(),
                lines_view(lines@) == cells_lines(self.history@.take(i as int), width),
            decreases self.history.len() - i,
        {
            let block = self.history[i].display_lines(width);
            assert(self.history@.take(i + 1).drop_last() =~= self.history@.take(i as int));
            push_block(&mut lines, block);
            i = i + 1;
        }
        assert(self.history@.take(i as int) =~= self.history@);
        match self.stream.active_cell() {
            Some(active) => {
                let block = active.display_lines(width);
                push_block(&mut lines, block);
            },
            None => {},
        }
        if lines.len() == 0 {
            let notice = one_piece(owned("Connected TUI will appear here."), SpanStyle::Plain);
            lines.push(notice);
            assert(lines_view(lines@) =~= seq![seq![("Connected TUI will appear here."@, SpanStyle::Plain)]]);
        }
        render_history_tail(lines, height as usize)
    }

    /// The transcript's lines before the tail is taken.
    pub open spec fn transcript_spec(&self, width: u16) -> Seq<Seq<(Seq<char>, SpanStyle)>> {
        let cells = cells_lines(self.history_spec(), width);
        let with_stream = if self.stream_spec().active_spec() {
            append_block(cells, assistant_lines(self.stream_spec().visible_spec(), width))
        } else {
            cells
        };
        if with_stream.len() == 0 {
            seq![seq![("Connected TUI will appear here."@, SpanStyle::Plain)]]
        } else {
            with_stream
        }
    }
}

/// The last `height` lines (all when they fit or the height is zero).
pub fn render_history_tail(lines: Vec<Vec<(String, SpanStyle)>>, height: usize) -> (r: Vec<
    Vec<(String, SpanStyle)>,
>)
    ensures
        lines_view(r@) == tail_spec(lines_view(lines@), height as nat),
{
    if height == 0 || lines.len() <= height {
        return lines;
    }
    let ghost before = lines@;
    let mut lines = lines;
    let at = lines.len() - height;
    let tail = lines.split_off(at);
    assert(lines_view(tail@) =~= lines_view(before).skip(at as int));
    tail
}

/// The last position satisfying `p` does satisfy it.
proof fn lemma_last_where_holds(cells: Seq<HistoryCell>, p: spec_fn(HistoryCell) -> bool)
    ensures
        last_where(cells, p) matches Some(i) ==> i < cells.len() && p(cells[i as int]),
    decreases cells.len(),
{
    if cells.len() > 0 && !p(cells.last()) {
        lemma_last_where_holds(cells.drop_last(), p);
        match last_where(cells.drop_last(), p) {
            Some(i) => {
                assert(cells.drop_last()[i as int] == cells[i as int]);
            },
            None => {},
        }
    }
}

/// `last_where` finds the latest cell that satisfies `p`: the cell it names
/// satisfies `p` and none after it does; when it names none, no cell does.
/// So the translation of the last prompt and the final answer land on the
/// newest prompt and the newest answer.
pub proof fn lemma_last_where_is_latest(cells: Seq<HistoryCell>, p: spec_fn(HistoryCell) -> bool)
    ensures
        last_where(cells, p) matches Some(i) ==> {
            &&& i < cells.len()
            &&& p(cells[i as int])
            &&& forall|j: int| i < j < cells.len() ==> !p(#[trigger] cells[j])
        },
        last_where(cells, p) is None ==> forall|j: int| 0 <= j < cells.len() ==> !p(#[trigger] cells[j]),
    decreases cells.len(),
{
    if cells.len() > 0 {
        let init = cells.drop_last();
        lemma_last_where_is_latest(init, p);
        if !p(cells.last()) {
            assert forall|j: int| 0 <= j < init.len() implies init[j] == cells[j] by {}
            match last_where(init, p) {
                Some(i) => {
                    assert(cells[i as int] == init[i as int]);
                    assert forall|j: int| i < j < cells.len() implies !p(#[trigger] cells[j]) by {
                        if j < init.len() {
                            assert(cells[j] == init[j]);
                        }
                    }
                },
                None => {
                    assert forall|j: int| 0 <= j < cells.len() implies !p(#[trigger] cells[j]) by {
                        if j < init.len() {
                            assert(cells[j] == init[j]);
                        }
                    }
                },
            }
        }
    }
}

} // verus!
