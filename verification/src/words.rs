use vstd::prelude::*;

use crate::text::{split_on_space, split_spaces, views, lemma_split_nonempty};

verus! {

/// A cursor over the space-separated words of a command invocation.
///
/// The words are fixed when the cursor is made; only the position moves. There
/// is one cursor for one invocation: whoever reads the words borrows it, so a
/// word that one reader takes is taken for every other.
#[derive(Debug)]
pub struct Words {
    values: Vec<String>,
    pos: usize,
}

/// The position after one step forward, wrapping at the top of `usize`.
pub open spec fn step_forward(pos: usize) -> usize {
    if pos == usize::MAX { 0 } else { (pos + 1) as usize }
}

/// Stepping back undoes a step forward, and a step forward undoes a step back,
/// whatever the position, wrapping included.
pub proof fn lemma_steps_undo(pos: usize)
    ensures
        step_back(step_forward(pos)) == pos,
        step_forward(step_back(pos)) == pos,
{
}

/// The position after one step back, wrapping at zero.
pub open spec fn step_back(pos: usize) -> usize {
    if pos == 0 { usize::MAX } else { (pos - 1) as usize }
}

impl View for Words {
    /// The words, and the position of the cursor.
    type V = (Seq<Seq<char>>, usize);

    closed spec fn view(&self) -> (Seq<Seq<char>>, usize) {
        (views(self.values@), self.pos)
    }
}

impl Words {
    /// The word at `i`, if the cursor's words reach that far.
    pub open spec fn word_at(self, i: usize) -> Option<Seq<char>> {
        if i < self@.0.len() {
            Some(self@.0[i as int])
        } else {
            None
        }
    }

    /// The number of words fits in a `usize`.
    pub proof fn lemma_len_fits(self)
        ensures
            self@.0.len() <= usize::MAX,
    {
        assert(self.values.len() == self.values@.len());
    }

    /// Splits `input` at each space into words, with the cursor at the first word.
    pub fn new(input: &str) -> (w: Words)
        ensures
            w@.0 == split_spaces(input@),
            w@.1 == 0,
    {
        proof {
            lemma_split_nonempty(input@);
        }
        Words { values: split_on_space(input), pos: 0 }
    }

    fn get(&self, i: usize) -> (r: Option<String>)
        ensures
            r matches Some(s) ==> Some(s@) == self.word_at(i),
            r is None <==> self.word_at(i) is None,
    {
        if i < self.values.len() {
            Some(self.values[i].clone())
        } else {
            None
        }
    }

    /// Returns the word under the cursor and moves the cursor one word on.
    pub fn next(&mut self) -> (r: Option<String>)
        ensures
            final(self)@.0 == old(self)@.0,
            final(self)@.1 == step_forward(old(self)@.1),
            r matches Some(s) ==> Some(s@) == old(self).word_at(old(self)@.1),
            r is None <==> old(self).word_at(old(self)@.1) is None,
    {
        let pos = self.advance();
        self.get(pos)
    }

    /// The word under the cursor, without moving it.
    pub fn current(&self) -> (r: Option<String>)
        ensures
            r matches Some(s) ==> Some(s@) == self.word_at(self@.1),
            r is None <==> self.word_at(self@.1) is None,
    {
        self.get(self.current_position())
    }

    /// Every word from the cursor on; the cursor moves past the last word.
    pub fn rest(&mut self) -> (r: Vec<String>)
        ensures
            final(self)@.0 == old(self)@.0,
            final(self)@.1 == old(self)@.0.len(),
            views(r@) == (if old(self)@.1 < old(self)@.0.len() {
                old(self)@.0.skip(old(self)@.1 as int)
            } else {
                Seq::<Seq<char>>::empty()
            }),
    {
        let start = self.advance_to_end();
        let n = self.values.len();
        let mut out: Vec<String> = Vec::new();
        if start >= n {
            assert(views(out@) =~= Seq::<Seq<char>>::empty());
            return out;
        }
        let mut i = start;
        assert(views(out@) =~= views(self.values@).subrange(start as int, start as int));
        while i < n
            invariant
                start <= i <= n,
                n == self.values@.len(),
                views(out@) == views(self.values@).subrange(start as int, i as int),
            decreases n - i,
        {
            let w = self.values[i].clone();
            let ghost before = out@;
            out.push(w);
            assert(views(out@) =~= views(before).push(w@)) by {
                assert(out@ =~= before.push(w));
            }
            assert(views(self.values@).subrange(start as int, i + 1) =~= views(self.values@).subrange(start as int, i as int).push(w@));
            i = i + 1;
        }
        assert(views(self.values@).subrange(start as int, n as int) =~= views(self.values@).skip(start as int));
        out
    }

    /// The cursor's position.
    pub fn current_position(&self) -> (r: usize)
        ensures
            r == self@.1,
    {
        self.pos
    }

    /// Moves the cursor one word on and returns the position it had.
    pub fn advance(&mut self) -> (r: usize)
        ensures
            r == old(self)@.1,
            final(self)@.0 == old(self)@.0,
            final(self)@.1 == step_forward(old(self)@.1),
    {
        let p = self.pos;
        self.pos = p.wrapping_add(1);
        p
    }

    /// Moves the cursor one word back and returns the position it had.
    pub fn undo(&mut self) -> (r: usize)
        ensures
            r == old(self)@.1,
            final(self)@.0 == old(self)@.0,
            final(self)@.1 == step_back(old(self)@.1),
    {
        let p = self.pos;
        self.pos = p.wrapping_sub(1);
        p
    }

    /// Moves the cursor past the last word and returns the position it had.
    pub fn advance_to_end(&mut self) -> (r: usize)
        ensures
            r == old(self)@.1,
            final(self)@.0 == old(self)@.0,
            final(self)@.1 == old(self)@.0.len(),
    {
        let p = self.pos;
        self.pos = self.values.len();
        p
    }
}

} // verus!
