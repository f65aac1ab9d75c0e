//! The terminal renderer: a state machine that turns each classified
//! fragment into a short list of terminal operations.
//!
//! Reasoning text is shown transiently on a single redrawn line and never
//! kept in terminal history; answer text is appended verbatim and kept.
//! The whole decision for one fragment is a pure function of the render
//! state, the rolling buffer and the fragment, stated here as spec
//! functions (`step_state`, `step_buffer`, `step_ops`) that the executable
//! `Session::process_fragment` is proved to follow.

use vstd::prelude::*;
use crate::classify::{
    Signal, classify, classify_spec, ends_with_newline, exit_marker, think_marker,
};
use crate::text::copy_chars;
use crate::truncate::{truncate, truncate_spec};

verus! {

/// The rendering phase.
#[derive(Clone, Copy, PartialEq, Eq, Structural, Debug)]
pub enum Phase {
    /// Reasoning: text is shown transiently, truncated and de-emphasized.
    Thinking,
    /// Answering: text is shown permanently and verbatim.
    Answering,
}

/// Render state carried across fragments.
#[derive(Clone, Copy, PartialEq, Eq, Structural, Debug)]
pub struct RenderState {
    /// The current phase.
    pub phase: Phase,
    /// Whether the first answer content has been emitted; never reverts.
    pub answer_started: bool,
    /// Whether an in-progress reasoning line is currently drawn, and so
    /// must be cleared before the next redraw.
    pub line_drawn: bool,
}

/// The initial state: answering (text before any marker streams as answer
/// text), nothing emitted, nothing drawn.
pub open spec fn initial_state() -> RenderState {
    RenderState { phase: Phase::Answering, answer_started: false, line_drawn: false }
}

/// One terminal mutation the renderer asks its terminal to perform.
#[derive(PartialEq, Eq, Debug)]
pub enum TermOp {
    /// Clear the last `n` lines written.
    ClearLastLines(usize),
    /// Clear the current line.
    ClearLine,
    /// Append raw text at the cursor.
    Write(Vec<char>),
    /// Redraw the transient reasoning line: the reasoning prefix followed
    /// by this already-truncated text, as one full line.
    WriteThinkingLine(Vec<char>),
    /// Write the answer-phase prefix as a standalone visible cue.
    WriteAnswerPrefix,
}

/// Spec-level picture of a terminal operation, with text as a sequence.
pub enum OpModel {
    ClearLastLines(int),
    ClearLine,
    Write(Seq<char>),
    WriteThinkingLine(Seq<char>),
    WriteAnswerPrefix,
}

/// Whether a runtime terminal operation realizes a spec-level one.
pub open spec fn op_matches(op: TermOp, m: OpModel) -> bool {
    match m {
        OpModel::ClearLastLines(n) => op matches TermOp::ClearLastLines(k) && k as int == n,
        OpModel::ClearLine => op is ClearLine,
        OpModel::Write(t) => op matches TermOp::Write(v) && v@ == t,
        OpModel::WriteThinkingLine(t) => op matches TermOp::WriteThinkingLine(v) && v@ == t,
        OpModel::WriteAnswerPrefix => op is WriteAnswerPrefix,
    }
}

/// Whether a runtime operation list realizes a spec-level list, item by item.
pub open spec fn ops_match(ops: Seq<TermOp>, ms: Seq<OpModel>) -> bool {
    &&& ops.len() == ms.len()
    &&& forall|i: int| 0 <= i < ms.len() ==> #[trigger] op_matches(ops[i], ms[i])
}

/// Whether the fragment begins with a newline character.
pub open spec fn starts_with_newline(frag: Seq<char>) -> bool {
    frag.len() > 0 && frag[0] == '\n'
}

/// In the answering phase a completed line is written unless it would be a
/// stray blank line before any real answer content: a fragment that itself
/// begins with a newline is suppressed until the answer has started.
pub open spec fn writes_completed_line(s: RenderState, frag: Seq<char>) -> bool {
    s.answer_started || !starts_with_newline(frag)
}

/// Columns left for reasoning text once the prefix is drawn; zero when the
/// reported width is smaller than the prefix.
pub open spec fn spec_available_width(columns: nat, prefix_width: nat) -> nat {
    if columns >= prefix_width {
        (columns - prefix_width) as nat
    } else {
        0
    }
}

/// The render state after one fragment is processed.
pub open spec fn step_state(s: RenderState, buf: Seq<char>, frag: Seq<char>) -> RenderState {
    match classify_spec(buf + frag) {
        Signal::EnterThinking => RenderState {
            phase: Phase::Thinking,
            answer_started: s.answer_started,
            line_drawn: false,
        },
        Signal::ExitThinking => RenderState {
            phase: Phase::Answering,
            answer_started: s.answer_started,
            line_drawn: false,
        },
        Signal::LineComplete => {
            if s.phase is Thinking {
                RenderState { phase: s.phase, answer_started: s.answer_started, line_drawn: false }
            } else if writes_completed_line(s, frag) {
                RenderState { phase: s.phase, answer_started: true, line_drawn: s.line_drawn }
            } else {
                s
            }
        },
        Signal::PartialLine => {
            if s.phase is Thinking {
                RenderState { phase: s.phase, answer_started: s.answer_started, line_drawn: true }
            } else {
                RenderState { phase: s.phase, answer_started: true, line_drawn: s.line_drawn }
            }
        },
    }
}

/// The rolling buffer after one fragment is processed: the fragment is
/// appended, and the buffer is kept only while the line is still in
/// progress — every other event clears it.
pub open spec fn step_buffer(s: RenderState, buf: Seq<char>, frag: Seq<char>) -> Seq<char> {
    if classify_spec(buf + frag) is PartialLine {
        buf + frag
    } else {
        Seq::<char>::empty()
    }
}

/// The terminal operations for one fragment, in order.
pub open spec fn step_ops(
    s: RenderState,
    buf: Seq<char>,
    frag: Seq<char>,
    columns: nat,
    prefix_width: nat,
) -> Seq<OpModel> {
    match classify_spec(buf + frag) {
        Signal::EnterThinking => Seq::<OpModel>::empty(),
        Signal::ExitThinking => seq![OpModel::ClearLastLines(1), OpModel::WriteAnswerPrefix],
        Signal::LineComplete => {
            if s.phase is Thinking {
                seq![OpModel::ClearLine]
            } else if writes_completed_line(s, frag) {
                seq![OpModel::Write(frag)]
            } else {
                Seq::<OpModel>::empty()
            }
        },
        Signal::PartialLine => {
            if s.phase is Thinking {
                let line = OpModel::WriteThinkingLine(
                    truncate_spec(buf + frag, spec_available_width(columns, prefix_width)),
                );
                if s.line_drawn {
                    seq![OpModel::ClearLastLines(1), line]
                } else {
                    seq![line]
                }
            } else {
                seq![OpModel::Write(frag)]
            }
        },
    }
}

/// Columns left for reasoning text after the prefix.
pub fn available_width(columns: usize, prefix_width: usize) -> (w: usize)
    ensures
        w as nat == spec_available_width(columns as nat, prefix_width as nat),
{
    if columns >= prefix_width {
        columns - prefix_width
    } else {
        0
    }
}

/// One streaming session: the rolling buffer and the render state. All
/// state is created at the start of a session and discarded at its end.
pub struct Session {
    /// The render state.
    pub state: RenderState,
    /// The rolling accumulation buffer: text received since the last
    /// boundary, newline or flush event.
    pub buffer: Vec<char>,
}

impl Session {
    /// A fresh session: answering phase, empty buffer.
    pub fn new() -> (s: Session)
        ensures
            s.state == initial_state(),
            s.buffer@ == Seq::<char>::empty(),
    {
        Session {
            state: RenderState {
                phase: Phase::Answering,
                answer_started: false,
                line_drawn: false,
            },
            buffer: Vec::new(),
        }
    }

    /// Feed one fragment: append it to the buffer, classify, update the
    /// state and buffer, and return the terminal operations to perform,
    /// in order. `columns` is the terminal's current column width and
    /// `prefix_width` the visual width of the reasoning prefix.
    pub fn process_fragment(
        &mut self,
        frag: &Vec<char>,
        columns: usize,
        prefix_width: usize,
    ) -> (ops: Vec<TermOp>)
        ensures
            final(self).state == step_state(old(self).state, old(self).buffer@, frag@),
            final(self).buffer@ == step_buffer(old(self).state, old(self).buffer@, frag@),
            ops_match(
                ops@,
                step_ops(
                    old(self).state,
                    old(self).buffer@,
                    frag@,
                    columns as nat,
                    prefix_width as nat,
                ),
            ),
    {
        let ghost s0 = self.state;
        let ghost buf0 = self.buffer@;
        let mut i: usize = 0;
        while i < frag.len()
            invariant
                i <= frag.len(),
                self.state == s0,
                self.buffer@ == buf0 + frag@.take(i as int),
            decreases frag.len() - i,
        {
            self.buffer.push(frag[i]);
            proof {
                assert((buf0 + frag@.take(i as int)).push(frag@[i as int]) =~= buf0 + frag@.take(
                    i + 1,
                ));
            }
            i += 1;
        }
        proof {
            assert(frag@.take(frag@.len() as int) =~= frag@);
            assert(self.buffer@ == buf0 + frag@);
        }
        let ghost ms = step_ops(s0, buf0, frag@, columns as nat, prefix_width as nat);
        let sig = classify(&self.buffer);
        let mut ops: Vec<TermOp> = Vec::new();
        match sig {
            Signal::EnterThinking => {
                self.state.phase = Phase::Thinking;
                self.state.line_drawn = false;
                self.buffer = Vec::new();
            },
            Signal::ExitThinking => {
                self.state.phase = Phase::Answering;
                self.state.line_drawn = false;
                ops.push(TermOp::ClearLastLines(1));
                ops.push(TermOp::WriteAnswerPrefix);
                self.buffer = Vec::new();
            },
            Signal::LineComplete => {
                match self.state.phase {
                    Phase::Thinking => {
                        ops.push(TermOp::ClearLine);
                        self.state.line_drawn = false;
                    },
                    Phase::Answering => {
                        if self.state.answer_started || !(frag.len() > 0 && frag[0] == '\n') {
                            ops.push(TermOp::Write(copy_chars(frag)));
                            self.state.answer_started = true;
                        }
                    },
                }
                self.buffer = Vec::new();
            },
            Signal::PartialLine => {
                match self.state.phase {
                    Phase::Thinking => {
                        let aw = available_width(columns, prefix_width);
                        let line = truncate(&self.buffer, aw);
                        if self.state.line_drawn {
                            ops.push(TermOp::ClearLastLines(1));
                        }
                        ops.push(TermOp::WriteThinkingLine(line));
                        self.state.line_drawn = true;
                    },
                    Phase::Answering => {
                        ops.push(TermOp::Write(copy_chars(frag)));
                        self.state.answer_started = true;
                    },
                }
            },
        }
        proof {
            assert(ops@.len() == ms.len());
            assert forall|j: int| 0 <= j < ms.len() implies #[trigger] op_matches(
                ops@[j],
                ms[j],
            ) by {};
        }
        ops
    }
}

/// Entering the reasoning phase and leaving it again with no fragments in
/// between produces no output on entry, and on exit exactly one line-clear
/// followed by one answer-prefix write — no reasoning text is ever emitted,
/// whatever the state and buffer before the enter marker.
/// Appending a marker to any buffer makes it a suffix of the result.
proof fn lemma_append_is_suffix(buf: Seq<char>, m: Seq<char>)
    ensures
        m.is_suffix_of(buf + m),
{
    assert(m =~= (buf + m).subrange((buf + m).len() - m.len(), (buf + m).len() as int));
}

/// The enter marker is not a suffix of the exit marker: the exit marker's
/// second character is a slash where the enter marker opens its bracket.
proof fn lemma_think_not_suffix_of_exit()
    ensures
        !think_marker().is_suffix_of(exit_marker()),
{
    let tm = think_marker();
    let em = exit_marker();
    if tm.is_suffix_of(em) {
        assert(tm == em.subrange(1, em.len() as int));
        assert(tm[0] == em.subrange(1, em.len() as int)[0]);
        assert(em.subrange(1, em.len() as int)[0] == em[1]);
        assert(false);
    }
}

/// Entering the reasoning phase and leaving it again with no fragments in
/// between produces no output on entry, and on exit exactly one line-clear
/// followed by one answer-prefix write — no reasoning text is ever emitted,
/// whatever the state and buffer before the enter marker.
pub proof fn lemma_enter_exit_no_output(
    s: RenderState,
    buf: Seq<char>,
    columns: nat,
    prefix_width: nat,
)
    ensures
        ({
            let s1 = step_state(s, buf, think_marker());
            let b1 = step_buffer(s, buf, think_marker());
            let ops1 = step_ops(s, buf, think_marker(), columns, prefix_width);
            let s2 = step_state(s1, b1, exit_marker());
            let ops2 = step_ops(s1, b1, exit_marker(), columns, prefix_width);
            &&& s1.phase is Thinking
            &&& b1 == Seq::<char>::empty()
            &&& ops1 == Seq::<OpModel>::empty()
            &&& s2.phase is Answering
            &&& ops2 == seq![OpModel::ClearLastLines(1), OpModel::WriteAnswerPrefix]
        }),
{
    let tm = think_marker();
    let em = exit_marker();
    lemma_append_is_suffix(buf, tm);
    assert(classify_spec(buf + tm) is EnterThinking);
    let b1 = step_buffer(s, buf, tm);
    assert(b1 + em =~= em);
    lemma_append_is_suffix(b1, em);
    lemma_think_not_suffix_of_exit();
    assert(classify_spec(b1 + em) is ExitThinking);
}

/// Once answer content has been emitted, `answer_started` never reverts,
/// whatever fragment arrives in whatever phase.
pub proof fn lemma_answer_started_never_reverts(s: RenderState, buf: Seq<char>, frag: Seq<char>)
    requires
        s.answer_started,
    ensures
        step_state(s, buf, frag).answer_started,
{
}

/// Outside the reasoning phase no text is silently dropped: as long as the
/// buffer after the fragment ends with neither marker, the step stays in
/// the answering phase and writes the fragment's raw text — except for the
/// one suppressed case, a fragment beginning with a newline that completes
/// a line before any answer content has been emitted, which produces no
/// operation at all.
pub proof fn lemma_answer_text_written(
    s: RenderState,
    buf: Seq<char>,
    frag: Seq<char>,
    columns: nat,
    prefix_width: nat,
)
    requires
        s.phase is Answering,
        !think_marker().is_suffix_of(buf + frag),
        !exit_marker().is_suffix_of(buf + frag),
    ensures
        step_state(s, buf, frag).phase is Answering,
        writes_completed_line(s, frag) || !ends_with_newline(buf + frag) ==> step_ops(
            s,
            buf,
            frag,
            columns,
            prefix_width,
        ) == seq![OpModel::Write(frag)],
        !(writes_completed_line(s, frag) || !ends_with_newline(buf + frag)) ==> step_ops(
            s,
            buf,
            frag,
            columns,
            prefix_width,
        ) == Seq::<OpModel>::empty(),
{
}

} // verus!
