//! The editable input line: a growable sequence of characters with
//! append, delete-last and clear operations, and a prompt-prefixed
//! rendering for display.

use vstd::prelude::*;
use vstd::string::*;
use crate::convert::chars_to_string;

verus! {

/// The effect of typing one character at the end of the line.
pub open spec fn append_model(s: Seq<char>, c: char) -> Seq<char> {
    s.push(c)
}

/// The effect of one delete-last keystroke: drops the final character,
/// and leaves an empty line unchanged.
pub open spec fn delete_model(s: Seq<char>) -> Seq<char> {
    if s.len() == 0 {
        s
    } else {
        s.drop_last()
    }
}

/// The line after typing the characters of `cs`, in order.
pub open spec fn after_appends(s: Seq<char>, cs: Seq<char>) -> Seq<char>
    decreases cs.len(),
{
    if cs.len() == 0 {
        s
    } else {
        after_appends(append_model(s, cs[0]), cs.skip(1))
    }
}

/// The line after `n` delete-last keystrokes.
pub open spec fn after_deletes(s: Seq<char>, n: nat) -> Seq<char>
    decreases n,
{
    if n == 0 {
        s
    } else {
        after_deletes(delete_model(s), (n - 1) as nat)
    }
}

/// The uncommitted input line. Growth is unbounded by design: no maximum
/// length is enforced.
pub struct InputBuffer {
    chars: Vec<char>,
}

impl View for InputBuffer {
    type V = Seq<char>;

    closed spec fn view(&self) -> Seq<char> {
        self.chars@
    }
}

impl InputBuffer {
    /// An empty line.
    pub fn new() -> (r: InputBuffer)
        ensures
            r@ == Seq::<char>::empty(),
    {
        InputBuffer { chars: Vec::new() }
    }

    /// Appends one character at the end; always succeeds.
    pub fn append(&mut self, c: char)
        ensures
            final(self)@ == append_model(old(self)@, c),
    {
        self.chars.push(c);
    }

    /// Removes the last character if any; does nothing on an empty line.
    pub fn delete_last(&mut self)
        ensures
            final(self)@ == delete_model(old(self)@),
    {
        if self.chars.len() > 0 {
            self.chars.pop();
            proof {
                assert(self@ =~= old(self)@.drop_last());
            }
        }
    }

    /// Resets the line to empty.
    pub fn clear(&mut self)
        ensures
            final(self)@ == Seq::<char>::empty(),
    {
        self.chars.clear();
    }

    /// The current line as a `String`.
    pub fn text(&self) -> (r: String)
        ensures
            r@ == self@,
    {
        chars_to_string(&self.chars)
    }

    /// The display text: the prompt followed by the current line.
    /// Pure; it has no side effect on the buffer.
    pub fn render_text(&self, prompt: &str) -> (r: String)
        ensures
            r@ == prompt@ + self@,
    {
        let line = self.text();
        String::from_str(prompt).concat(line.as_str())
    }
}

/// Law: starting from an empty line, typing the characters of `cs` and then
/// pressing delete-last `n` times leaves exactly the typed characters minus
/// the last `n`, clamped at the empty line. The length never goes negative
/// and deleting from an empty line is harmless.
pub proof fn lemma_appends_then_deletes(cs: Seq<char>, n: nat)
    ensures
        after_deletes(after_appends(Seq::<char>::empty(), cs), n) == (if n >= cs.len() {
            Seq::<char>::empty()
        } else {
            cs.take((cs.len() - n) as int)
        }),
{
    lemma_after_appends(Seq::<char>::empty(), cs);
    assert(Seq::<char>::empty() + cs =~= cs);
    lemma_after_deletes(cs, n);
}

proof fn lemma_after_appends(s: Seq<char>, cs: Seq<char>)
    ensures
        after_appends(s, cs) == s + cs,
    decreases cs.len(),
{
    if cs.len() == 0 {
        assert(s + cs =~= s);
    } else {
        lemma_after_appends(s.push(cs[0]), cs.skip(1));
        assert(s.push(cs[0]) + cs.skip(1) =~= s + cs);
    }
}

proof fn lemma_after_deletes(t: Seq<char>, n: nat)
    ensures
        after_deletes(t, n) == (if n >= t.len() {
            Seq::<char>::empty()
        } else {
            t.take((t.len() - n) as int)
        }),
    decreases n,
{
    if n == 0 {
        if t.len() > 0 {
            assert(t.take(t.len() as int) =~= t);
        } else {
            assert(t =~= Seq::<char>::empty());
        }
    } else {
        lemma_after_deletes(delete_model(t), (n - 1) as nat);
        if t.len() > 0 {
            assert(t.drop_last() =~= t.take(t.len() - 1));
            if n < t.len() {
                assert(t.take(t.len() - 1).take((t.len() - n) as int) =~= t.take(
                    (t.len() - n) as int,
                ));
            }
        }
    }
}

} // verus!
