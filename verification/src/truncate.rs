//! Front-truncation of an in-progress line so it fits the terminal width.
//!
//! The tail of the text is the most recent — and most relevant — part, so
//! when the text is too wide the front is removed and replaced by a
//! three-character ellipsis. When even the ellipsis does not fit, the
//! result degenerates to however much of the ellipsis does.

use vstd::prelude::*;
use crate::text::copy_chars;

verus! {

/// The three-character ellipsis that stands in for the removed front.
pub open spec fn ellipsis() -> Seq<char> {
    seq!['.', '.', '.']
}

/// What truncation returns: the text itself when it fits; otherwise the
/// ellipsis (cut down if even it does not fit) followed by the tail of the
/// text that fills the remaining columns.
pub open spec fn truncate_spec(text: Seq<char>, available_width: nat) -> Seq<char> {
    if text.len() <= available_width {
        text
    } else if available_width <= 3 {
        ellipsis().take(available_width as int)
    } else {
        ellipsis() + text.skip(text.len() - (available_width - 3))
    }
}

/// The result of truncation always fits in the available width.
pub proof fn lemma_truncate_fits(text: Seq<char>, available_width: nat)
    ensures
        truncate_spec(text, available_width).len() <= available_width,
{
}

/// Truncation is idempotent: truncating an already-truncated line again,
/// to the same width, reproduces it unchanged, so repeated redraws of a
/// growing buffer cannot drift.
pub proof fn lemma_truncate_idempotent(text: Seq<char>, available_width: nat)
    ensures
        truncate_spec(truncate_spec(text, available_width), available_width)
            == truncate_spec(text, available_width),
{
    lemma_truncate_fits(text, available_width);
}

/// Truncate `text` from the front to fit in `available_width` columns.
pub fn truncate(text: &Vec<char>, available_width: usize) -> (r: Vec<char>)
    ensures
        r@ == truncate_spec(text@, available_width as nat),
        r@.len() <= available_width,
{
    if text.len() <= available_width {
        copy_chars(text)
    } else if available_width <= 3 {
        let mut r: Vec<char> = Vec::new();
        let mut i: usize = 0;
        while i < available_width
            invariant
                available_width <= 3,
                i <= available_width,
                r@ == ellipsis().take(i as int),
            decreases available_width - i,
        {
            proof {
                assert(ellipsis()[i as int] == '.');
                assert(ellipsis().take(i + 1) =~= ellipsis().take(i as int).push('.'));
            }
            r.push('.');
            i += 1;
        }
        r
    } else {
        let mut r: Vec<char> = Vec::new();
        r.push('.');
        r.push('.');
        r.push('.');
        let start: usize = text.len() - (available_width - 3);
        let mut i: usize = start;
        proof {
            assert(r@ =~= ellipsis() + text@.subrange(start as int, start as int));
        }
        while i < text.len()
            invariant
                start <= i <= text.len(),
                start == text.len() - (available_width - 3),
                3 < available_width < text.len(),
                r@ == ellipsis() + text@.subrange(start as int, i as int),
            decreases text.len() - i,
        {
            proof {
                assert(text@.subrange(start as int, i + 1) =~= text@.subrange(
                    start as int,
                    i as int,
                ).push(text@[i as int]));
            }
            r.push(text[i]);
            i += 1;
        }
        proof {
            assert(text@.subrange(start as int, text@.len() as int) =~= text@.skip(
                text@.len() - (available_width - 3),
            ));
        }
        r
    }
}

} // verus!
