use vstd::prelude::*;

verus! {

/// A character cursor that tracks the 1-based line number of the most
/// recently consumed character and can say, without consuming, whether a
/// character is still available.
pub struct IteratorWithLineNo {
    chars: Vec<char>,
    pos: usize,
    line_no: u32,
}

impl IteratorWithLineNo {
    /// The characters not yet consumed, in order.
    pub closed spec fn remaining(&self) -> Seq<char> {
        self.chars@.skip(self.pos as int)
    }

    /// The line number of the most recently consumed character, or 1 if
    /// nothing has been consumed yet.
    pub closed spec fn line(&self) -> nat {
        self.line_no as nat
    }

    /// Well-formedness: the position stays within the underlying text, the
    /// line counter starts at 1, and it can absorb one increment per
    /// remaining character without overflowing.
    pub closed spec fn wf(&self) -> bool {
        &&& self.pos <= self.chars@.len()
        &&& 1 <= self.line_no
        &&& self.line_no as int + (self.chars@.len() - self.pos as int) <= u32::MAX as int
    }

    /// Wraps a sequence of characters. The length bound keeps the `u32`
    /// line counter from ever overflowing, since it grows by at most one
    /// per character consumed.
    pub fn new(c: Vec<char>) -> (r: IteratorWithLineNo)
        requires
            c@.len() < u32::MAX as nat,
        ensures
            r.wf(),
            r.remaining() == c@,
            r.line() == 1,
    {
        let r = IteratorWithLineNo { chars: c, pos: 0, line_no: 1 };
        proof {
            assert(r.remaining() =~= r.chars@);
        }
        r
    }

    pub fn line_no(&self) -> (r: u32)
        ensures
            r as nat == self.line(),
    {
        self.line_no
    }

    /// True iff a character is available; consumes nothing.
    pub fn has_next(&mut self) -> (r: bool)
        requires
            old(self).wf(),
        ensures
            *final(self) == *old(self),
            r == (old(self).remaining().len() > 0),
    {
        self.pos < self.chars.len()
    }

    /// Consumes and returns the next character, or `None` at end of input.
    /// The line counter advances exactly when the consumed character is a
    /// newline.
    pub fn next(&mut self) -> (r: Option<char>)
        requires
            old(self).wf(),
        ensures
            final(self).wf(),
            old(self).remaining().len() == 0 ==> r is None && *final(self) == *old(self),
            old(self).remaining().len() > 0 ==> {
                &&& r == Some(old(self).remaining()[0])
                &&& final(self).remaining() == old(self).remaining().drop_first()
                &&& old(self).remaining()[0] == '\n' ==> final(self).line() == old(self).line() + 1
                &&& old(self).remaining()[0] != '\n' ==> final(self).line() == old(self).line()
            },
    {
        if self.pos < self.chars.len() {
            let c = self.chars[self.pos];
            self.pos = self.pos + 1;
            if c == '\n' {
                self.line_no = self.line_no + 1;
            }
            proof {
                assert(self.remaining() =~= old(self).remaining().drop_first());
            }
            Some(c)
        } else {
            None
        }
    }
}

} // verus!
