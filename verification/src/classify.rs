//! The fragment classifier: decide which event the accumulated buffer
//! represents, by exact suffix checks in priority order.
//!
//! Detection runs against the whole rolling buffer, not the fragment alone,
//! because a marker may arrive split across several fragments. A marker that
//! occurs inside the buffer without being its suffix fires nothing.

use vstd::prelude::*;
use crate::text::ends_with;

verus! {

/// The classifier's verdict for the buffer after a fragment arrived.
/// Exactly one verdict is produced per fragment.
#[derive(Clone, Copy, PartialEq, Eq, Structural, Debug)]
pub enum Signal {
    /// The buffer ends with the enter-reasoning marker.
    EnterThinking,
    /// The buffer ends with the exit-reasoning marker.
    ExitThinking,
    /// The buffer ends with a newline.
    LineComplete,
    /// None of the above: the line is still in progress.
    PartialLine,
}

/// The enter-reasoning marker, `<think>`.
pub open spec fn think_marker() -> Seq<char> {
    seq!['<', 't', 'h', 'i', 'n', 'k', '>']
}

/// The exit-reasoning marker, `</think>`.
pub open spec fn exit_marker() -> Seq<char> {
    seq!['<', '/', 't', 'h', 'i', 'n', 'k', '>']
}

/// Whether the buffer ends with a newline character.
pub open spec fn ends_with_newline(buf: Seq<char>) -> bool {
    buf.len() > 0 && buf[buf.len() - 1] == '\n'
}

/// Which signal the buffer produces. Marker suffixes take priority over
/// newline completion (a marker contains no newline, so the order can
/// never matter for the last character); anything else is a partial line.
pub open spec fn classify_spec(buf: Seq<char>) -> Signal {
    if think_marker().is_suffix_of(buf) {
        Signal::EnterThinking
    } else if exit_marker().is_suffix_of(buf) {
        Signal::ExitThinking
    } else if ends_with_newline(buf) {
        Signal::LineComplete
    } else {
        Signal::PartialLine
    }
}

/// The enter-reasoning marker as runtime characters.
pub fn think_marker_chars() -> (v: Vec<char>)
    ensures
        v@ == think_marker(),
{
    let mut v: Vec<char> = Vec::new();
    v.push('<');
    v.push('t');
    v.push('h');
    v.push('i');
    v.push('n');
    v.push('k');
    v.push('>');
    proof {
        assert(v@ =~= think_marker());
    }
    v
}

/// The exit-reasoning marker as runtime characters.
pub fn exit_marker_chars() -> (v: Vec<char>)
    ensures
        v@ == exit_marker(),
{
    let mut v: Vec<char> = Vec::new();
    v.push('<');
    v.push('/');
    v.push('t');
    v.push('h');
    v.push('i');
    v.push('n');
    v.push('k');
    v.push('>');
    proof {
        assert(v@ =~= exit_marker());
    }
    v
}

/// Classify the accumulated buffer.
pub fn classify(buf: &Vec<char>) -> (s: Signal)
    ensures
        s == classify_spec(buf@),
{
    let think = think_marker_chars();
    if ends_with(buf, &think) {
        return Signal::EnterThinking;
    }
    let exit = exit_marker_chars();
    if ends_with(buf, &exit) {
        return Signal::ExitThinking;
    }
    if buf.len() > 0 && buf[buf.len() - 1] == '\n' {
        return Signal::LineComplete;
    }
    Signal::PartialLine
}

} // verus!
