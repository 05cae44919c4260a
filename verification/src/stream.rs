//! The answer Codex is streaming, and when the transcript must be laid out
//! again.

use crate::text::push_str;
use vstd::prelude::*;

verus! {

/// An answer being streamed: text already committed to the transcript,
/// text received since, and whether a stream is open.
#[derive(Debug, Default)]
pub struct AssistantStream {
    committed: String,
    pending: String,
    active: bool,
}

/// The text a streaming cell shows.
#[derive(Debug)]
pub struct AssistantStreamingCell {
    source: String,
}

impl AssistantStreamingCell {
    /// The text shown.
    pub closed spec fn source_spec(&self) -> Seq<char> {
        self.source@
    }

    fn new(source: String) -> (r: AssistantStreamingCell)
        ensures
            r.source_spec() == source@,
    {
        AssistantStreamingCell { source }
    }

    /// The text shown.
    pub fn source(&self) -> (s: &str)
        ensures
            s@ == self.source_spec(),
    {
        self.source.as_str()
    }
}

/// One thing done to an open stream: text received, or a commit.
pub enum StreamStep {
    Delta(Seq<char>),
    Commit,
}

/// What a step does to a stream: a delta is added to the received text;
/// a commit moves the received text to the committed text.  The stream
/// is open afterwards.
pub open spec fn stream_step(before: AssistantStream, after: AssistantStream, step: StreamStep) -> bool {
    &&& after.active_spec()
    &&& match step {
        StreamStep::Delta(d) => {
            &&& after.committed_spec() == before.committed_spec()
            &&& after.pending_spec() == before.pending_spec() + d
        },
        StreamStep::Commit => {
            &&& after.committed_spec() == before.visible_spec()
            &&& after.pending_spec().len() == 0
        },
    }
}

/// The text of the deltas among `steps`, in order.
pub open spec fn deltas_text(steps: Seq<StreamStep>) -> Seq<char>
    decreases steps.len(),
{
    if steps.len() == 0 {
        seq![]
    } else {
        deltas_text(steps.drop_last()) + match steps.last() {
            StreamStep::Delta(d) => d,
            StreamStep::Commit => seq![],
        }
    }
}

impl AssistantStream {
    /// Committed text.
    pub closed spec fn committed_spec(&self) -> Seq<char> {
        self.committed@
    }

    /// Text received but not yet committed.
    pub closed spec fn pending_spec(&self) -> Seq<char> {
        self.pending@
    }

    /// Whether a stream is open.
    pub closed spec fn active_spec(&self) -> bool {
        self.active
    }

    /// Everything received so far.
    pub open spec fn visible_spec(&self) -> Seq<char> {
        self.committed_spec() + self.pending_spec()
    }

    /// No stream.
    pub fn new() -> (r: AssistantStream)
        ensures
            r.committed_spec().len() == 0,
            r.pending_spec().len() == 0,
            !r.active_spec(),
    {
        AssistantStream { committed: String::new(), pending: String::new(), active: false }
    }

    /// Opens a new, empty stream.
    pub fn start(&mut self)
        ensures
            final(self).committed_spec().len() == 0,
            final(self).pending_spec().len() == 0,
            final(self).active_spec(),
    {
        self.committed = String::new();
        self.pending = String::new();
        self.active = true;
    }

    /// Adds received text (opening a stream if none is open).
    pub fn push_delta(&mut self, delta: &str)
        ensures
            final(self).committed_spec() == old(self).committed_spec(),
            final(self).pending_spec() == old(self).pending_spec() + delta@,
            final(self).active_spec(),
            stream_step(*old(self), *final(self), StreamStep::Delta(delta@)),
    {
        if !self.active {
            self.active = true;
        }
        push_str(&mut self.pending, delta);
    }

    /// Replaces everything received by the final text.
    pub fn finish_with(&mut self, source: String)
        ensures
            final(self).committed_spec() == source@,
            final(self).pending_spec().len() == 0,
            final(self).active_spec(),
    {
        self.committed = source;
        self.pending = String::new();
        self.active = true;
    }

    /// Drops the stream.
    pub fn clear(&mut self)
        ensures
            final(self).committed_spec().len() == 0,
            final(self).pending_spec().len() == 0,
            !final(self).active_spec(),
    {
        self.committed = String::new();
        self.pending = String::new();
        self.active = false;
    }

    /// Whether a stream is open.
    pub fn is_active(&self) -> (b: bool)
        ensures
            b == self.active_spec(),
    {
        self.active
    }

    /// The cell showing the open stream, if any.
    pub fn active_cell(&self) -> (r: Option<AssistantStreamingCell>)
        ensures
            r is Some <==> self.active_spec(),
            r matches Some(c) ==> c.source_spec() == self.visible_spec(),
    {
        if self.active {
            Some(AssistantStreamingCell::new(self.visible_source()))
        } else {
            None
        }
    }

    /// Closes the stream and hands out all its text; nothing when no
    /// stream is open.
    pub fn take_finished_or_active(&mut self) -> (r: Option<String>)
        ensures
            !old(self).active_spec() ==> r is None && *final(self) == *old(self),
            old(self).active_spec() ==> (r matches Some(t) && t@ == old(self).visible_spec()),
            old(self).active_spec() ==> !final(self).active_spec(),
            old(self).active_spec() ==> final(self).visible_spec().len() == 0,
    {
        if !self.active {
            return None;
        }
        self.active = false;
        self.commit_pending();
        let mut taken = String::new();
        std::mem::swap(&mut taken, &mut self.committed);
        Some(taken)
    }

    /// Moves received text to the committed text; whether there was any.
    pub fn commit_pending(&mut self) -> (moved: bool)
        ensures
            moved == (old(self).pending_spec().len() > 0),
            final(self).committed_spec() == old(self).visible_spec(),
            final(self).pending_spec().len() == 0,
            final(self).active_spec() == old(self).active_spec(),
            old(self).active_spec() ==> stream_step(*old(self), *final(self), StreamStep::Commit),
    {
        if self.pending.as_str().unicode_len() == 0 {
            assert(self.committed@ + self.pending@ =~= self.committed@);
            return false;
        }
        let mut pending = String::new();
        std::mem::swap(&mut pending, &mut self.pending);
        push_str(&mut self.committed, pending.as_str());
        true
    }

    /// Everything received so far.
    fn visible_source(&self) -> (s: String)
        ensures
            s@ == self.visible_spec(),
    {
        let mut source = self.committed.clone();
        push_str(&mut source, self.pending.as_str());
        source
    }
}

/// A stream hands out every delta in order, wherever the commits came:
/// after `start` and any run of deltas and commits, the stream is open and
/// holds exactly the deltas' text, which `take_finished_or_active` then
/// returns.
pub proof fn lemma_stream_keeps_every_delta(states: Seq<AssistantStream>, steps: Seq<StreamStep>)
    requires
        states.len() == steps.len() + 1,
        states[0].active_spec(),
        states[0].visible_spec().len() == 0,
        forall|i: int| 0 <= i < steps.len() ==> stream_step(#[trigger] states[i], states[i + 1], steps[i]),
    ensures
        states.last().active_spec(),
        states.last().visible_spec() == deltas_text(steps),
    decreases steps.len(),
{
    if steps.len() > 0 {
        let n = steps.len() - 1;
        let init_states = states.take(n + 1);
        let init_steps = steps.drop_last();
        assert forall|i: int| 0 <= i < init_steps.len() implies stream_step(
            #[trigger] init_states[i],
            init_states[i + 1],
            init_steps[i],
        ) by {
            assert(stream_step(states[i], states[i + 1], steps[i]));
        }
        lemma_stream_keeps_every_delta(init_states, init_steps);
        assert(init_states.last() == states[n]);
        assert(stream_step(states[n], states[n + 1], steps[n]));
        assert(states.last() == states[n + 1]);
        match steps[n] {
            StreamStep::Delta(d) => {
                assert(states[n + 1].visible_spec() =~= states[n].visible_spec() + d);
            },
            StreamStep::Commit => {
                assert(states[n + 1].visible_spec() =~= states[n].visible_spec());
            },
        }
    } else {
        assert(deltas_text(steps) =~= Seq::<char>::empty());
    }
}

/// Remembers the last transcript width to tell when the layout changes.
#[derive(Debug, Default)]
pub struct TranscriptReflow {
    pub last_width: Option<u16>,
}

impl TranscriptReflow {
    /// Records `width`; true when an earlier, different width was seen.
    pub fn observe_width(&mut self, width: u16) -> (changed: bool)
        ensures
            changed == (old(self).last_width matches Some(w) && w != width),
            final(self).last_width == Some(width),
    {
        let changed = match self.last_width {
            Some(last) => last != width,
            None => false,
        };
        self.last_width = Some(width);
        changed
    }
}

} // verus!
