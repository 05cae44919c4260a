//! The slash-command popup: which commands match what was typed after `/`,
//! and which one is selected.

use crate::env_file::{find_char, index_of, lemma_index_of, lemma_index_of_bounds};
use crate::text::{chars_of, owned, push_char, push_str, starts_with, string_from_range};
use vstd::prelude::*;

verus! {

/// A command the composer offers after `/`.
#[derive(Debug, Clone, Copy)]
pub struct SlashCommand {
    pub name: &'static str,
    pub description: &'static str,
}

/// The names of the commands, in the order the popup lists them.
pub open spec fn command_names() -> Seq<Seq<char>> {
    seq![
        "translator"@, "model"@, "status"@, "account"@, "usage"@, "limits"@, "diff"@,
        "review"@, "compact"@, "list"@, "resume"@, "new"@, "clear"@, "interrupt"@,
        "help"@, "exit"@,
    ]
}

/// What each command does, in the same order.
pub open spec fn command_descriptions() -> Seq<Seq<char>> {
    seq![
        "configure prompt translation provider"@,
        "choose model and reasoning effort"@,
        "show current session status"@,
        "refresh Codex account information"@,
        "show current usage and rate limits"@,
        "show current usage and rate limits"@,
        "show repository diff summary"@,
        "review current changes"@,
        "compact the current thread"@,
        "show recent Codex threads"@,
        "resume a Codex thread"@,
        "start a new Codex thread"@,
        "clear the transcript"@,
        "interrupt the active Codex turn"@,
        "show command help"@,
        "exit Oh My Limit"@,
    ]
}

/// Whether `cmds` is the full command list.
pub open spec fn is_command_list(cmds: Seq<SlashCommand>) -> bool {
    &&& cmds.len() == command_names().len()
    &&& forall|i: int| 0 <= i < cmds.len() ==> #[trigger] cmds[i].name@ == command_names()[i]
    &&& forall|i: int|
        0 <= i < cmds.len() ==> #[trigger] cmds[i].description@ == command_descriptions()[i]
}

/// The first line of `s` as `str::lines` gives it: up to the first `'\n'`,
/// without the `'\r'` of a `"\r\n"` ending.
pub open spec fn first_line(s: Seq<char>) -> Seq<char> {
    let i = index_of(s, '\n');
    if i < s.len() {
        let upto = s.take(i);
        if upto.len() > 0 && upto.last() == '\r' {
            upto.drop_last()
        } else {
            upto
        }
    } else {
        s
    }
}

/// What follows `/` on the first line, when the line starts with `/` and
/// holds no space.
pub open spec fn slash_filter_spec(input: Seq<char>) -> Option<Seq<char>> {
    let line = first_line(input);
    if line.len() > 0 && line[0] == '/' && !line.drop_first().contains(' ') {
        Some(line.drop_first())
    } else {
        None
    }
}

/// Whether a command's name starts with `filter`.
pub open spec fn matches_filter(filter: Seq<char>) -> spec_fn(SlashCommand) -> bool {
    |c: SlashCommand| filter.is_prefix_of(c.name@)
}

/// No command name holds a newline or a space.
proof fn lemma_command_names_plain()
    ensures
        forall|j: int|
            0 <= j < command_names().len() ==> !(#[trigger] command_names()[j]).contains('\n')
                && !command_names()[j].contains(' '),
{
    reveal_strlit("translator");
    reveal_strlit("model");
    reveal_strlit("status");
    reveal_strlit("account");
    reveal_strlit("usage");
    reveal_strlit("limits");
    reveal_strlit("diff");
    reveal_strlit("review");
    reveal_strlit("compact");
    reveal_strlit("list");
    reveal_strlit("resume");
    reveal_strlit("new");
    reveal_strlit("clear");
    reveal_strlit("interrupt");
    reveal_strlit("help");
    reveal_strlit("exit");
    assert forall|j: int| 0 <= j < command_names().len() implies !(
    #[trigger] command_names()[j]).contains('\n') && !command_names()[j].contains(' ') by {
        let n = command_names()[j];
        assert forall|m: int| 0 <= m < n.len() implies n[m] != '\n' && n[m] != ' ' by {
            assert('a' <= n[m] <= 'z');
        }
    }
}

/// A completed command (`/`, a name without newline, a space) opens no
/// popup: its first line holds a space after the `/`.
pub proof fn lemma_completion_closes_popup(name: Seq<char>)
    requires
        !name.contains('\n'),
    ensures
        slash_filter_spec(seq!['/'] + name + seq![' ']) is None,
{
    let s = seq!['/'] + name + seq![' '];
    assert forall|m: int| 0 <= m < s.len() implies s[m] != '\n' by {
        if 0 < m < s.len() - 1 {
            assert(s[m] == name[m - 1]);
        }
    }
    lemma_index_of(s, '\n', s.len() as int);
    assert(first_line(s) == s);
    assert(s.drop_first()[name.len() as int] == ' ');
}

/// A command as its name and description.
pub open spec fn row_of(c: SlashCommand) -> (Seq<char>, Seq<char>) {
    (c.name@, c.description@)
}

/// The full command list as names and descriptions.
pub open spec fn command_rows() -> Seq<(Seq<char>, Seq<char>)> {
    Seq::new(command_names().len(), |i: int| (command_names()[i], command_descriptions()[i]))
}

/// Whether a row's name starts with `filter`.
pub open spec fn row_matches(filter: Seq<char>) -> spec_fn((Seq<char>, Seq<char>)) -> bool {
    |r: (Seq<char>, Seq<char>)| filter.is_prefix_of(r.0)
}

/// The commands listed for `filter`: those whose names start with it, in
/// list order (all of them for an empty filter).
pub open spec fn listed_rows(filter: Seq<char>) -> Seq<(Seq<char>, Seq<char>)> {
    command_rows().filter(row_matches(filter))
}

/// Filtering commands by name and then reading their rows is reading the
/// rows and then filtering them.
proof fn lemma_filter_rows(s: Seq<SlashCommand>, filter: Seq<char>)
    ensures
        s.filter(matches_filter(filter)).map_values(|c: SlashCommand| row_of(c)) == s.map_values(
            |c: SlashCommand| row_of(c),
        ).filter(row_matches(filter)),
    decreases s.len(),
{
    let f = |c: SlashCommand| row_of(c);
    if s.len() == 0 {
        assert(s.filter(matches_filter(filter)) =~= Seq::<SlashCommand>::empty()) by {
            reveal(Seq::filter);
        }
        assert(s.map_values(f) =~= Seq::<(Seq<char>, Seq<char>)>::empty());
        assert(s.map_values(f).filter(row_matches(filter)) =~= Seq::<(Seq<char>, Seq<char>)>::empty()) by {
            reveal(Seq::filter);
        }
    } else {
        let init = s.drop_last();
        let c = s.last();
        lemma_filter_rows(init, filter);
        assert(init.push(c) =~= s);
        init.lemma_filter_push(c, matches_filter(filter));
        assert(s.map_values(f) =~= init.map_values(f).push(row_of(c)));
        init.map_values(f).lemma_filter_push(row_of(c), row_matches(filter));
        if filter.is_prefix_of(c.name@) {
            assert(init.filter(matches_filter(filter)).push(c).map_values(f) =~= init.filter(
                matches_filter(filter),
            ).map_values(f).push(row_of(c)));
        }
    }
}

/// The selection after moving up in a list of `len` rows: the row above,
/// the last row from the first, unchanged in an empty list.
pub open spec fn previous_index(selected: nat, len: nat) -> nat {
    if len == 0 {
        selected
    } else if selected == 0 {
        (len - 1) as nat
    } else {
        (selected - 1) as nat
    }
}

/// The selection after moving down in a list of `len` rows: the row below,
/// the first row from the last, unchanged in an empty list.
pub open spec fn next_index(selected: nat, len: nat) -> nat {
    if len == 0 {
        selected
    } else {
        (selected + 1) % len
    }
}

/// Moving down and then up returns to the same row, and so does moving up
/// and then down.
pub proof fn lemma_next_previous_inverse(selected: nat, len: nat)
    requires
        selected < len,
    ensures
        previous_index(next_index(selected, len), len) == selected,
        next_index(previous_index(selected, len), len) == selected,
        next_index(selected, len) < len,
        previous_index(selected, len) < len,
{
    if selected + 1 < len {
        assert((selected + 1) % len == selected + 1) by (nonlinear_arith)
            requires
                selected + 1 < len,
        ;
    } else {
        assert((selected + 1) % len == 0) by (nonlinear_arith)
            requires
                selected + 1 == len,
        ;
    }
    if selected == 0 {
        assert(len % len == 0) by (nonlinear_arith)
            requires
                len > 0,
        ;
    } else {
        assert(selected % len == selected) by (nonlinear_arith)
            requires
                selected < len,
        ;
    }
}

/// `(s + 1) % n` does not change when `s` is first reduced modulo `n`.
pub proof fn lemma_succ_mod(s: nat, n: nat)
    requires
        n > 0,
    ensures
        ((s % n) + 1) % n == (s + 1) % n,
{
    assert(((s % n) + 1) % n == (s + 1) % n) by (nonlinear_arith)
        requires
            n > 0,
    ;
}

/// The full command list.
pub fn commands() -> (r: Vec<SlashCommand>)
    ensures
        is_command_list(r@),
{
    let r = vec![
        SlashCommand { name: "translator", description: "configure prompt translation provider" },
        SlashCommand { name: "model", description: "choose model and reasoning effort" },
        SlashCommand { name: "status", description: "show current session status" },
        SlashCommand { name: "account", description: "refresh Codex account information" },
        SlashCommand { name: "usage", description: "show current usage and rate limits" },
        SlashCommand { name: "limits", description: "show current usage and rate limits" },
        SlashCommand { name: "diff", description: "show repository diff summary" },
        SlashCommand { name: "review", description: "review current changes" },
        SlashCommand { name: "compact", description: "compact the current thread" },
        SlashCommand { name: "list", description: "show recent Codex threads" },
        SlashCommand { name: "resume", description: "resume a Codex thread" },
        SlashCommand { name: "new", description: "start a new Codex thread" },
        SlashCommand { name: "clear", description: "clear the transcript" },
        SlashCommand { name: "interrupt", description: "interrupt the active Codex turn" },
        SlashCommand { name: "help", description: "show command help" },
        SlashCommand { name: "exit", description: "exit Oh My Limit" },
    ];
    r
}

/// The characters of the first line of `input`.
pub fn first_line_chars(input: &str) -> (r: Vec<char>)
    ensures
        r@ == first_line(input@),
{
    let v = chars_of(input);
    let i = find_char(&v, '\n');
    if i < v.len() {
        let mut end = i;
        if end > 0 && v[end - 1] == '\r' {
            end = end - 1;
        }
        let mut r: Vec<char> = Vec::new();
        let mut k: usize = 0;
        while k < end
            invariant
                end <= i < v@.len(),
                k <= end,
                r@ == v@.subrange(0, k as int),
            decreases end - k,
        {
            r.push(v[k]);
            k = k + 1;
        }
        assert(r@ =~= first_line(input@));
        r
    } else {
        v
    }
}

/// The filter a composer input gives the popup, if it shows one
/// (`slash_filter`).
pub fn slash_filter(input: &str) -> (r: Option<String>)
    ensures
        r matches Some(f) ==> slash_filter_spec(input@) == Some(f@),
        r is None ==> slash_filter_spec(input@) is None,
{
    let line = first_line_chars(input);
    if line.len() == 0 || line[0] != '/' {
        return None;
    }
    let mut k: usize = 1;
    while k < line.len()
        invariant
            1 <= k <= line@.len(),
            line@ == first_line(input@),
            line@[0] == '/',
            forall|m: int| 1 <= m < k ==> line@[m] != ' ',
        decreases line.len() - k,
    {
        if line[k] == ' ' {
            assert(line@.drop_first()[k - 1] == ' ');
            assert(line@.drop_first().contains(' '));
            return None;
        }
        k = k + 1;
    }
    assert(!line@.drop_first().contains(' ')) by {
        assert forall|m: int| 0 <= m < line@.drop_first().len() implies line@.drop_first()[m]
            != ' ' by {
            assert(line@.drop_first()[m] == line@[m + 1]);
        }
    }
    let rest = string_from_range(&line, 1, line.len());
    assert(rest@ =~= line@.drop_first());
    Some(rest)
}

/// The popup's state: the commands, the typed filter and the selection.
#[derive(Debug)]
pub struct SlashCommandPopup {
    commands: Vec<SlashCommand>,
    filter: String,
    selected: usize,
}

impl SlashCommandPopup {
    /// The typed filter.
    pub closed spec fn filter_spec(&self) -> Seq<char> {
        self.filter@
    }

    /// The selected position among the matching commands.
    pub closed spec fn selected_spec(&self) -> nat {
        self.selected as nat
    }

    /// The commands that match the filter, in list order.
    pub closed spec fn filtered_spec(&self) -> Seq<SlashCommand> {
        self.commands@.filter(matches_filter(self.filter@))
    }

    /// The popup holds the full command list and its selection is on a
    /// matching command, or at 0 when none matches.
    #[verifier::type_invariant]
    pub closed spec fn wf(&self) -> bool {
        &&& is_command_list(self.commands@)
        &&& (self.filtered_spec().len() == 0 ==> self.selected == 0)
        &&& (self.filtered_spec().len() > 0 ==> self.selected < self.filtered_spec().len())
    }

    /// The selected position among the matching commands.
    pub fn selected_row(&self) -> (r: usize)
        ensures
            r == self.selected_spec(),
    {
        self.selected
    }

    /// The popup lists exactly the commands whose names start with its
    /// filter, in list order.
    pub proof fn lemma_listed_commands(&self)
        requires
            self.wf(),
        ensures
            self.filtered_spec().map_values(|c: SlashCommand| row_of(c)) == listed_rows(
                self.filter_spec(),
            ),
    {
        lemma_filter_rows(self.commands@, self.filter@);
        assert(self.commands@.map_values(|c: SlashCommand| row_of(c)) =~= command_rows());
    }

    /// The names the popup lists hold no newline and no space, and the
    /// selection is on one of them when there is any.
    pub proof fn lemma_listed_names_plain(&self)
        requires
            self.wf(),
        ensures
            self.filtered_spec().len() > 0 ==> self.selected_spec() < self.filtered_spec().len(),
            forall|i: int|
                0 <= i < self.filtered_spec().len() ==> !(
                #[trigger] self.filtered_spec()[i]).name@.contains('\n')
                    && !self.filtered_spec()[i].name@.contains(' '),
    {
        lemma_command_names_plain();
        assert forall|i: int| 0 <= i < self.filtered_spec().len() implies !(
        #[trigger] self.filtered_spec()[i]).name@.contains('\n')
            && !self.filtered_spec()[i].name@.contains(' ') by {
            let c = self.filtered_spec()[i];
            assert(self.filtered_spec().contains(c));
            self.commands@.lemma_filter_contains_rev(matches_filter(self.filter@), c);
            let j = choose|j: int| 0 <= j < self.commands@.len() && self.commands@[j] == c;
            assert(c.name@ == command_names()[j]);
        }
    }

    /// A popup for `input`, with the first matching command selected.
    pub fn new(input: &str) -> (p: SlashCommandPopup)
        ensures
            p.filter_spec() == (match slash_filter_spec(input@) {
                Some(f) => f,
                None => Seq::empty(),
            }),
            p.selected_spec() == 0,
    {
        let mut popup = SlashCommandPopup { commands: commands(), filter: String::new(), selected: 0 };
        popup.update(input);
        popup
    }

    /// Takes a new input: its filter, and a selection kept in range.
    pub fn update(&mut self, input: &str)
        ensures
            final(self).filter_spec() == (match slash_filter_spec(input@) {
                Some(f) => f,
                None => Seq::empty(),
            }),
            final(self).selected_spec() == (if final(self).filtered_spec().len() == 0 {
                0
            } else if old(self).selected_spec() >= final(self).filtered_spec().len() {
                (final(self).filtered_spec().len() - 1) as nat
            } else {
                old(self).selected_spec()
            }),
    {
        proof {
            use_type_invariant(&*self);
        }
        let previous = self.selected;
        self.selected = 0;
        self.filter = match slash_filter(input) {
            Some(f) => f,
            None => String::new(),
        };
        let len = self.filtered().len();
        if len == 0 {
        } else if previous >= len {
            self.selected = len - 1;
        } else {
            self.selected = previous;
        }
    }

    /// Whether the popup shows for `input`.
    pub fn should_show(input: &str) -> (b: bool)
        ensures
            b == slash_filter_spec(input@) is Some,
    {
        slash_filter(input).is_some()
    }

    /// Moves the selection up, from the first command to the last.
    pub fn select_previous(&mut self)
        ensures
            final(self).filter_spec() == old(self).filter_spec(),
            final(self).filtered_spec() == old(self).filtered_spec(),
            final(self).selected_spec() == previous_index(
                old(self).selected_spec(),
                old(self).filtered_spec().len(),
            ),
    {
        proof {
            use_type_invariant(&*self);
        }
        let len = self.filtered().len();
        if len == 0 {
            return;
        }
        self.selected = if self.selected == 0 {
            len - 1
        } else {
            self.selected - 1
        };
    }

    /// Moves the selection down, from the last command to the first.
    pub fn select_next(&mut self)
        ensures
            final(self).filter_spec() == old(self).filter_spec(),
            final(self).filtered_spec() == old(self).filtered_spec(),
            final(self).selected_spec() == next_index(
                old(self).selected_spec(),
                old(self).filtered_spec().len(),
            ),
    {
        proof {
            use_type_invariant(&*self);
        }
        let len = self.filtered().len();
        if len == 0 {
            return;
        }
        self.selected = (self.selected + 1) % len;
    }

    /// The selected command's name.
    pub fn selected_command(&self) -> (r: Option<&'static str>)
        ensures
            r is Some <==> self.filtered_spec().len() > 0,
            r matches Some(n) ==> n@ == self.filtered_spec()[self.selected_spec() as int].name@,
    {
        proof {
            use_type_invariant(self);
        }
        let filtered = self.filtered();
        if self.selected < filtered.len() {
            Some(filtered[self.selected].name)
        } else {
            None
        }
    }

    /// The text that completes the input to the selected command:
    /// `/`, its name and a space.
    pub fn completion_text(&self) -> (r: Option<String>)
        ensures
            r is Some <==> self.filtered_spec().len() > 0,
            r matches Some(t) ==> t@ == seq!['/'] + self.filtered_spec()[
                self.selected_spec() as int
            ].name@ + seq![' '],
    {
        match self.selected_command() {
            Some(name) => {
                let mut text = owned("/");
                proof {
                    reveal_strlit("/");
                }
                push_str(&mut text, name);
                push_char(&mut text, ' ');
                Some(text)
            },
            None => None,
        }
    }

    /// The commands whose names start with the filter, in list order.
    pub fn filtered(&self) -> (r: Vec<SlashCommand>)
        ensures
            r@ == self.filtered_spec(),
    {
        let ghost pred = matches_filter(self.filter@);
        let mut out: Vec<SlashCommand> = Vec::new();
        let mut i: usize = 0;
        while i < self.commands.len()
            invariant
                pred == matches_filter(self.filter@),
                i <= self.commands@.len(),
                out@ == self.commands@.take(i as int).filter(pred),
            decreases self.commands.len() - i,
        {
            let c = self.commands[i];
            proof {
                assert(self.commands@.take(i + 1) =~= self.commands@.take(i as int).push(c));
                self.commands@.take(i as int).lemma_filter_push(c, pred);
            }
            if starts_with(c.name, self.filter.as_str()) {
                assert(pred(c));
                out.push(c);
            } else {
                assert(!pred(c));
            }
            i = i + 1;
        }
        assert(self.commands@.take(i as int) =~= self.commands@);
        out
    }

    /// How many rows the popup lists: the matching commands, at most 8.
    pub fn visible_len(&self) -> (n: usize)
        ensures
            n == (if self.filtered_spec().len() < 8 { self.filtered_spec().len() } else { 8 }),
    {
        let len = self.filtered().len();
        if len < 8 {
            len
        } else {
            8
        }
    }
}

} // verus!
