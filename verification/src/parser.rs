use vstd::prelude::*;

use crate::cursor::IteratorWithLineNo;

verus! {

/// The tokenizer's states. `End` is terminal: it is entered exactly when a
/// record boundary (a newline outside quotes, or end of input) is consumed,
/// and the tokenizer must not be fed further characters for this record.
pub enum State {
    Init,
    InQuote,
    InQuoteQuote,
    End,
}

/// A single fatal parse failure: free-form message text plus the 1-based
/// line number at which the malformed input was detected.
#[derive(Debug)]
pub struct CsvParseError {
    pub message: String,
    pub line_no: u32,
}

/// The ways a record can fail to parse.
pub enum ErrKind {
    /// A bare quote inside an already started unquoted field.
    UnenclosedQuote,
    /// End of input while inside a quoted field.
    UnclosedQuote,
    /// An unexpected character right after a closing quote.
    InvalidAfterQuote(char),
    /// A character fed to the terminal state; `parse_line` never does this.
    AfterEnd,
}

/// The exact message text carried by each kind of failure.
pub open spec fn error_message(kind: ErrKind) -> Seq<char> {
    match kind {
        ErrKind::UnenclosedQuote =>
            "Parse error. Should be enclosed by double quote if data contains double quotes."@,
        ErrKind::UnclosedQuote => "Parse error. Quote is not closed."@,
        ErrKind::InvalidAfterQuote(c) =>
            "Parse error. Invalid character '"@ + seq![c] + "' after quote."@,
        ErrKind::AfterEnd => "End state does not accept input."@,
    }
}

/// One step of the state machine: a successor configuration (state, field
/// buffer, fields finished so far) or a failure.
pub enum Step {
    Go { state: State, buf: Seq<char>, fields: Seq<Seq<char>> },
    Fail { kind: ErrKind },
}

/// The transition function of the tokenizer. `c` is `None` exactly at end
/// of input; a literal NUL in the text is an ordinary character.
///
/// Right after a closing quote (`InQuoteQuote`) only a comma, a carriage
/// return, an escaping quote or end of input is accepted: in particular a
/// bare newline there is rejected rather than taken as a record terminator.
pub open spec fn spec_step(state: State, buf: Seq<char>, fields: Seq<Seq<char>>, c: Option<char>) -> Step {
    match state {
        State::Init => match c {
            Option::None => Step::Go { state: State::End, buf, fields: fields.push(buf) },
            Option::Some(ch) => if ch == '\n' {
                Step::Go { state: State::End, buf, fields: fields.push(buf) }
            } else if ch == '\r' {
                Step::Go { state: State::Init, buf, fields }
            } else if ch == '"' {
                if buf.len() == 0 {
                    Step::Go { state: State::InQuote, buf, fields }
                } else {
                    Step::Fail { kind: ErrKind::UnenclosedQuote }
                }
            } else if ch == ',' {
                Step::Go { state: State::Init, buf: Seq::empty(), fields: fields.push(buf) }
            } else {
                Step::Go { state: State::Init, buf: buf.push(ch), fields }
            },
        },
        State::InQuote => match c {
            Option::None => Step::Fail { kind: ErrKind::UnclosedQuote },
            Option::Some(ch) => if ch == '"' {
                Step::Go { state: State::InQuoteQuote, buf, fields }
            } else {
                Step::Go { state: State::InQuote, buf: buf.push(ch), fields }
            },
        },
        State::InQuoteQuote => match c {
            Option::None => Step::Go { state: State::End, buf, fields: fields.push(buf) },
            Option::Some(ch) => if ch == ',' {
                Step::Go { state: State::Init, buf: Seq::empty(), fields: fields.push(buf) }
            } else if ch == '\r' {
                Step::Go { state: State::InQuoteQuote, buf, fields }
            } else if ch == '"' {
                Step::Go { state: State::InQuote, buf: buf.push('"'), fields }
            } else {
                Step::Fail { kind: ErrKind::InvalidAfterQuote(ch) }
            },
        },
        State::End => Step::Fail { kind: ErrKind::AfterEnd },
    }
}

/// The parser that accumulates one record. `result` holds the fields of the
/// most recently parsed record; `buf` is the field currently being built.
pub struct CsvParser {
    pub result: Vec<String>,
    buf: String,
}

impl CsvParser {
    /// The fields finished so far, as sequences of characters.
    pub closed spec fn fields(&self) -> Seq<Seq<char>> {
        self.result@.map_values(|f: String| f@)
    }

    /// The contents of the field buffer.
    pub closed spec fn buffer(&self) -> Seq<char> {
        self.buf@
    }

    pub fn new() -> (r: CsvParser)
        ensures
            r.fields() == Seq::<Seq<char>>::empty(),
            r.buffer() == Seq::<char>::empty(),
    {
        let r = CsvParser { result: Vec::new(), buf: String::new() };
        proof {
            assert(r.fields() =~= Seq::<Seq<char>>::empty());
        }
        r
    }
}

/// What a per-character handler guarantees: it performs exactly one
/// `spec_step` transition on the parser's configuration, or, on a failing
/// step, leaves the parser unchanged and reports the step's message tagged
/// with the given line number.
pub open spec fn step_post(
    pre: CsvParser,
    post: CsvParser,
    st: State,
    c: Option<char>,
    line_no: u32,
    r: Result<State, CsvParseError>,
) -> bool {
    match spec_step(st, pre.buffer(), pre.fields(), c) {
        Step::Go { state, buf, fields } => {
            &&& r matches Ok(s2) && s2 == state
            &&& post.buffer() == buf
            &&& post.fields() == fields
        },
        Step::Fail { kind } => {
            &&& r matches Err(e) && e.message@ == error_message(kind) && e.line_no == (
            if kind is AfterEnd {
                0u32
            } else {
                line_no
            })
            &&& post == pre
        },
    }
}

/// The outcome of running the tokenizer over an input: the parsed fields or
/// a failure, together with how many characters were consumed and the line
/// number after the last consumed character.
pub enum Outcome {
    Parsed { fields: Seq<Seq<char>>, used: nat, line: nat },
    Failed { kind: ErrKind, used: nat, line: nat },
}

/// The same outcome with `k` more characters counted as consumed.
pub open spec fn add_used(o: Outcome, k: nat) -> Outcome {
    match o {
        Outcome::Parsed { fields, used, line } => Outcome::Parsed {
            fields,
            used: (used + k) as nat,
            line,
        },
        Outcome::Failed { kind, used, line } => Outcome::Failed {
            kind,
            used: (used + k) as nat,
            line,
        },
    }
}

/// Runs the tokenizer from a configuration until it finishes one record or
/// fails. `line` is the line number of the most recently consumed character;
/// it advances with every newline consumed, so an error's line number is the
/// line on which the offending character (or end of input) was met.
pub open spec fn spec_run(
    input: Seq<char>,
    line: nat,
    state: State,
    buf: Seq<char>,
    fields: Seq<Seq<char>>,
) -> Outcome
    decreases input.len(),
{
    if input.len() == 0 {
        match spec_step(state, buf, fields, Option::None) {
            Step::Go { state: st, buf: b, fields: f } => Outcome::Parsed {
                fields: f,
                used: 0,
                line,
            },
            Step::Fail { kind } => Outcome::Failed { kind, used: 0, line },
        }
    } else {
        let c = input[0];
        let line2: nat = if c == '\n' {
            line + 1
        } else {
            line
        };
        match spec_step(state, buf, fields, Option::Some(c)) {
            Step::Fail { kind } => Outcome::Failed { kind, used: 1, line: line2 },
            Step::Go { state: st, buf: b, fields: f } => if st is End {
                Outcome::Parsed { fields: f, used: 1, line: line2 }
            } else {
                add_used(spec_run(input.drop_first(), line2, st, b, f), 1)
            },
        }
    }
}

/// Running the tokenizer on `input` from a fresh configuration: state
/// `Init`, empty field buffer, empty record, starting at line number `line`.
pub open spec fn spec_parse(input: Seq<char>, line: nat) -> Outcome {
    spec_run(input, line, State::Init, Seq::empty(), Seq::empty())
}

/// Relies on `String::push`: appends exactly the given character to the end
/// of the string.
#[verifier::external_body]
fn push_char(s: &mut String, c: char)
    ensures
        final(s)@ == old(s)@ + seq![c],
{
    s.push(c)
}

impl CsvParser {
    /// Moves the finished field buffer into the record. `keep` tells whether
    /// the buffer's contents stay (record boundary) or are cleared (comma).
    fn push_field(&mut self, keep: bool)
        ensures
            final(self).fields() == old(self).fields().push(old(self).buffer()),
            keep ==> final(self).buffer() == old(self).buffer(),
            !keep ==> final(self).buffer() == Seq::<char>::empty(),
    {
        self.result.push(self.buf.clone());
        if !keep {
            self.buf = String::new();
        }
        proof {
            assert(final(self).fields() =~~= old(self).fields().push(old(self).buffer()));
        }
    }

    fn on_init(&mut self, c: Option<char>, line_no: u32) -> (r: Result<State, CsvParseError>)
        ensures
            step_post(*old(self), *final(self), State::Init, c, line_no, r),
    {
        match c {
            Option::None => {
                self.push_field(true);
                Ok(State::End)
            },
            Option::Some(ch) => {
                if ch == '\n' {
                    self.push_field(true);
                    Ok(State::End)
                } else if ch == '\r' {
                    Ok(State::Init)
                } else if ch == '"' {
                    if self.buf.as_str().is_empty() {
                        Ok(State::InQuote)
                    } else {
                        Err(CsvParseError {
                            message:
                                "Parse error. Should be enclosed by double quote if data contains double quotes.".to_owned(),
                            line_no,
                        })
                    }
                } else if ch == ',' {
                    self.push_field(false);
                    Ok(State::Init)
                } else {
                    push_char(&mut self.buf, ch);
                    proof {
                        assert(self.buffer() =~= old(self).buffer().push(ch));
                    }
                    Ok(State::Init)
                }
            },
        }
    }

    fn on_in_quote(&mut self, c: Option<char>, line_no: u32) -> (r: Result<State, CsvParseError>)
        ensures
            step_post(*old(self), *final(self), State::InQuote, c, line_no, r),
    {
        match c {
            Option::None => Err(CsvParseError {
                message: "Parse error. Quote is not closed.".to_owned(),
                line_no,
            }),
            Option::Some(ch) => {
                if ch == '"' {
                    Ok(State::InQuoteQuote)
                } else {
                    push_char(&mut self.buf, ch);
                    proof {
                        assert(self.buffer() =~= old(self).buffer().push(ch));
                    }
                    Ok(State::InQuote)
                }
            },
        }
    }

    fn on_in_quote_quote(&mut self, c: Option<char>, line_no: u32) -> (r: Result<State, CsvParseError>)
        ensures
            step_post(*old(self), *final(self), State::InQuoteQuote, c, line_no, r),
    {
        match c {
            Option::None => {
                self.push_field(true);
                Ok(State::End)
            },
            Option::Some(ch) => {
                if ch == ',' {
                    self.push_field(false);
                    Ok(State::Init)
                } else if ch == '\r' {
                    Ok(State::InQuoteQuote)
                } else if ch == '"' {
                    push_char(&mut self.buf, ch);
                    proof {
                        assert(self.buffer() =~= old(self).buffer().push(ch));
                    }
                    Ok(State::InQuote)
                } else {
                    let mut message = "Parse error. Invalid character '".to_owned();
                    push_char(&mut message, ch);
                    message.append("' after quote.");
                    Err(CsvParseError { message, line_no })
                }
            },
        }
    }

    fn on_end(&mut self, c: Option<char>, line_no: u32) -> (r: Result<State, CsvParseError>)
        ensures
            step_post(*old(self), *final(self), State::End, c, line_no, r),
    {
        Err(CsvParseError { message: "End state does not accept input.".to_owned(), line_no: 0 })
    }

    fn on_char(&mut self, s: &State, c: Option<char>, line_no: u32) -> (r: Result<
        State,
        CsvParseError,
    >)
        ensures
            step_post(*old(self), *final(self), *s, c, line_no, r),
    {
        match *s {
            State::Init => self.on_init(c, line_no),
            State::InQuote => self.on_in_quote(c, line_no),
            State::InQuoteQuote => self.on_in_quote_quote(c, line_no),
            State::End => self.on_end(c, line_no),
        }
    }

    /// Parses one record from the cursor: resets the record and field
    /// buffer, then consumes characters until a record boundary or a
    /// malformed character. The outcome, the characters consumed and the
    /// final line number are exactly those of `spec_parse` on the cursor's
    /// remaining input; the result never depends on what the parser held
    /// before the call.
    pub fn parse_line(&mut self, itr: &mut IteratorWithLineNo) -> (r: Result<
        &Self,
        CsvParseError,
    >)
        requires
            old(itr).wf(),
        ensures
            final(itr).wf(),
            ({
                let o = spec_parse(old(itr).remaining(), old(itr).line());
                match o {
                    Outcome::Parsed { fields, used, line } => {
                        &&& r matches Ok(p) && *p == *final(self)
                        &&& final(self).fields() == fields
                        &&& final(itr).remaining() == old(itr).remaining().skip(used as int)
                        &&& final(itr).line() == line
                    },
                    Outcome::Failed { kind, used, line } => {
                        &&& r matches Err(e) && e.message@ == error_message(kind) && e.line_no
                            as nat == line
                        &&& final(itr).remaining() == old(itr).remaining().skip(used as int)
                        &&& final(itr).line() == line
                    },
                }
            }),
    {
        self.buf = String::new();
        self.result = Vec::new();

        let ghost init_rem = itr.remaining();
        let ghost init_line = itr.line();

        let mut state = State::Init;
        proof {
            assert(self.fields() =~= Seq::<Seq<char>>::empty());
            assert(init_rem.skip(0) =~= init_rem);
        }
        loop
            invariant
                itr.wf(),
                !(state is End),
                init_rem == old(itr).remaining(),
                init_line == old(itr).line(),
                itr.remaining().len() <= init_rem.len(),
                itr.remaining() == init_rem.skip(init_rem.len() - itr.remaining().len()),
                spec_parse(init_rem, init_line) == add_used(
                    spec_run(itr.remaining(), itr.line(), state, self.buffer(), self.fields()),
                    (init_rem.len() - itr.remaining().len()) as nat,
                ),
            decreases itr.remaining().len(),
        {
            let ghost pre_rem = itr.remaining();
            let ghost k = init_rem.len() - pre_rem.len();
            match itr.next() {
                Option::Some(c) => {
                    proof {
                        assert(itr.remaining() =~= init_rem.skip(k + 1));
                    }
                    let ln = itr.line_no();
                    match self.on_char(&state, Option::Some(c), ln) {
                        Result::Err(e) => {
                            return Err(e);
                        },
                        Result::Ok(next_state) => {
                            match next_state {
                                State::End => {
                                    return Ok(self);
                                },
                                _ => {
                                    state = next_state;
                                },
                            }
                        },
                    }
                },
                Option::None => {
                    let ln = itr.line_no();
                    match self.on_char(&state, Option::None, ln) {
                        Result::Err(e) => {
                            return Err(e);
                        },
                        Result::Ok(_) => {
                            return Ok(self);
                        },
                    }
                },
            }
        }
    }
}

} // verus!
