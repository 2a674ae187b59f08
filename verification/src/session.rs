//! The input loop's key-handling policy: one state-machine step per key
//! event. The caller owns the loop; it repaints, polls for a key, feeds
//! it here, and carries out the returned action.

use vstd::prelude::*;
use crate::buffer::{append_model, delete_model, InputBuffer};
use crate::tokens::{blank, lemma_blank_iff_no_tokens, tokens_of};

verus! {

/// A key event, as the loop's owner decodes it. Every key the view
/// reacts to is one of the first three; all others are `Other`.
#[derive(Clone, Copy, PartialEq, Eq, Structural, Debug)]
pub enum Key {
    Enter,
    Backspace,
    Char(char),
    Other,
}

/// What the loop must do after a step: leave the loop, dispatch the
/// submitted line, or just repaint and poll again.
#[derive(Debug)]
pub enum Action {
    Exit,
    Dispatch(String),
    Continue,
}

/// The key that ends the session.
pub const QUIT_KEY: char = 'q';

/// Advances the session by one key event.
///
/// The quit character exits; Enter submits the line unless it is blank,
/// clearing the buffer whatever the outcome of the dispatch will be;
/// Backspace deletes the last character; any other printable character is
/// appended; everything else is ignored. A blank line is never
/// dispatched and leaves the buffer unchanged.
pub fn step(buf: &mut InputBuffer, key: Key) -> (a: Action)
    ensures
        key == Key::Char(QUIT_KEY) ==> a == Action::Exit && final(buf)@ == old(buf)@,
        (forall|c: char| key == Key::Char(c) && c != QUIT_KEY ==> final(buf)@ == append_model(
            old(buf)@,
            c,
        ) && a == Action::Continue),
        key == Key::Backspace ==> final(buf)@ == delete_model(old(buf)@) && a == Action::Continue,
        key == Key::Enter && blank(old(buf)@) ==> final(buf)@ == old(buf)@ && a
            == Action::Continue,
        key == Key::Enter && !blank(old(buf)@) ==> (a matches Action::Dispatch(line) && line@
            == old(buf)@ && tokens_of(line@).len() > 0) && final(buf)@ == Seq::<char>::empty(),
        key == Key::Other ==> final(buf)@ == old(buf)@ && a == Action::Continue,
{
    match key {
        Key::Char(c) => {
            if c == QUIT_KEY {
                Action::Exit
            } else {
                buf.append(c);
                Action::Continue
            }
        },
        Key::Backspace => {
            buf.delete_last();
            Action::Continue
        },
        Key::Enter => {
            let line = buf.text();
            if crate::tokens::is_blank(line.as_str()) {
                Action::Continue
            } else {
                proof {
                    lemma_blank_iff_no_tokens(line@);
                }
                buf.clear();
                Action::Dispatch(line)
            }
        },
        Key::Other => Action::Continue,
    }
}

} // verus!
