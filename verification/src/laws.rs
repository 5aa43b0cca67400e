use vstd::prelude::*;

use crate::parser::ErrKind;
use crate::parser::Outcome;
use crate::parser::State;
use crate::parser::add_used;
use crate::parser::spec_parse;
use crate::parser::spec_run;

verus! {

/// A character with no special meaning to the tokenizer inside an unquoted
/// field: not a comma, quote, newline or carriage return.
pub open spec fn is_plain(c: char) -> bool {
    c != ',' && c != '"' && c != '\n' && c != '\r'
}

/// Every character of the sequence is plain.
pub open spec fn all_plain(s: Seq<char>) -> bool {
    forall|i: int| 0 <= i < s.len() ==> is_plain(#[trigger] s[i])
}

/// How many newline characters the sequence holds.
pub open spec fn newline_count(s: Seq<char>) -> nat
    decreases s.len(),
{
    if s.len() == 0 {
        0
    } else {
        (if s[0] == '\n' {
            1nat
        } else {
            0nat
        }) + newline_count(s.drop_first())
    }
}

/// The fields joined with single commas, in order.
pub open spec fn comma_join(fields: Seq<Seq<char>>) -> Seq<char>
    decreases fields.len(),
{
    if fields.len() == 0 {
        Seq::empty()
    } else if fields.len() == 1 {
        fields[0]
    } else {
        fields[0] + seq![','] + comma_join(fields.drop_first())
    }
}

proof fn lemma_add_used_add(o: Outcome, a: nat, b: nat)
    ensures
        add_used(add_used(o, a), b) == add_used(o, (a + b) as nat),
{
    match o {
        Outcome::Parsed { .. } => {},
        Outcome::Failed { .. } => {},
    }
}

proof fn lemma_add_used_zero(o: Outcome)
    ensures
        add_used(o, 0) == o,
{
    match o {
        Outcome::Parsed { .. } => {},
        Outcome::Failed { .. } => {},
    }
}

/// In `Init`, a run of plain characters is appended to the field buffer one
/// step per character, changing neither the state, the finished fields nor
/// the line number.
pub proof fn lemma_plain_chars(
    s: Seq<char>,
    rest: Seq<char>,
    line: nat,
    buf: Seq<char>,
    fields: Seq<Seq<char>>,
)
    requires
        all_plain(s),
    ensures
        spec_run(s + rest, line, State::Init, buf, fields) == add_used(
            spec_run(rest, line, State::Init, buf + s, fields),
            s.len(),
        ),
    decreases s.len(),
{
    if s.len() == 0 {
        assert(s + rest =~= rest);
        assert(buf + s =~= buf);
        lemma_add_used_zero(spec_run(rest, line, State::Init, buf, fields));
    } else {
        let c = s[0];
        assert(is_plain(c));
        assert((s + rest)[0] == c);
        assert((s + rest).drop_first() =~= s.drop_first() + rest);
        assert(all_plain(s.drop_first())) by {
            assert(forall|i: int| 0 <= i < s.drop_first().len() ==> #[trigger] s.drop_first()[i]
                == s[i + 1]);
        }
        lemma_plain_chars(s.drop_first(), rest, line, buf.push(c), fields);
        assert(buf.push(c) + s.drop_first() =~= buf + s);
        lemma_add_used_add(
            spec_run(rest, line, State::Init, buf + s, fields),
            (s.len() - 1) as nat,
            1,
        );
    }
}

proof fn lemma_unquoted_fields_from(fs: Seq<Seq<char>>, line: nat, acc: Seq<Seq<char>>)
    requires
        fs.len() >= 1,
        forall|i: int| 0 <= i < fs.len() ==> all_plain(#[trigger] fs[i]),
    ensures
        spec_run(comma_join(fs) + seq!['\n'], line, State::Init, Seq::empty(), acc)
            == (Outcome::Parsed {
            fields: acc + fs,
            used: comma_join(fs).len() + 1,
            line: line + 1,
        }),
    decreases fs.len(),
{
    if fs.len() == 1 {
        lemma_plain_chars(fs[0], seq!['\n'], line, Seq::empty(), acc);
        assert(Seq::<char>::empty() + fs[0] =~= fs[0]);
        assert(spec_run(seq!['\n'], line, State::Init, fs[0], acc) == Outcome::Parsed {
            fields: acc.push(fs[0]),
            used: 1nat,
            line: line + 1,
        });
        assert(acc.push(fs[0]) =~= acc + fs);
    } else {
        let tail = fs.drop_first();
        let rest1 = seq![','] + comma_join(tail) + seq!['\n'];
        assert(comma_join(fs) + seq!['\n'] =~= fs[0] + rest1);
        lemma_plain_chars(fs[0], rest1, line, Seq::empty(), acc);
        assert(Seq::<char>::empty() + fs[0] =~= fs[0]);
        assert(rest1[0] == ',');
        assert(rest1.drop_first() =~= comma_join(tail) + seq!['\n']);
        assert(forall|i: int| 0 <= i < tail.len() ==> all_plain(#[trigger] tail[i])) by {
            assert(forall|i: int| 0 <= i < tail.len() ==> #[trigger] tail[i] == fs[i + 1]);
        }
        lemma_unquoted_fields_from(tail, line, acc.push(fs[0]));
        assert(acc.push(fs[0]) + tail =~= acc + fs);
        let inner = Outcome::Parsed {
            fields: acc + fs,
            used: comma_join(tail).len() + 1,
            line: line + 1,
        };
        assert(spec_run(rest1, line, State::Init, fs[0], acc) == add_used(inner, 1));
        lemma_add_used_add(inner, 1, fs[0].len());
        assert(comma_join(fs).len() == fs[0].len() + 1 + comma_join(tail).len());
    }
}

/// Law: a newline-terminated line of unquoted fields, each free of commas,
/// quotes, newlines and carriage returns, parses to exactly those fields;
/// the whole line including the newline is consumed and the line counter
/// moves one line forward.
pub proof fn lemma_unquoted_fields(fs: Seq<Seq<char>>, line: nat)
    requires
        fs.len() >= 1,
        forall|i: int| 0 <= i < fs.len() ==> all_plain(#[trigger] fs[i]),
    ensures
        spec_parse(comma_join(fs) + seq!['\n'], line) == (Outcome::Parsed {
            fields: fs,
            used: comma_join(fs).len() + 1,
            line: line + 1,
        }),
{
    lemma_unquoted_fields_from(fs, line, Seq::empty());
    assert(Seq::<Seq<char>>::empty() + fs =~= fs);
}

/// Law: wherever a record terminator may come next — in `Init`, so `\r\n`
/// ends a record exactly as a bare `\n` does and a stray `\r` in an
/// unquoted field is dropped, and in `InQuoteQuote`, right after a closing
/// quote — a carriage return is skipped with no effect on the outcome
/// beyond being counted as consumed.
pub proof fn lemma_cr_skipped(
    rest: Seq<char>,
    line: nat,
    state: State,
    buf: Seq<char>,
    fields: Seq<Seq<char>>,
)
    requires
        state is Init || state is InQuoteQuote,
    ensures
        spec_run(seq!['\r'] + rest, line, state, buf, fields) == add_used(
            spec_run(rest, line, state, buf, fields),
            1,
        ),
{
    assert((seq!['\r'] + rest)[0] == '\r');
    assert((seq!['\r'] + rest).drop_first() =~= rest);
}

/// Law: inside a quoted field every character but the quote — commas,
/// newlines and carriage returns included — is taken verbatim into the
/// field buffer; only the line counter follows the newlines consumed.
pub proof fn lemma_quoted_verbatim(
    s: Seq<char>,
    rest: Seq<char>,
    line: nat,
    buf: Seq<char>,
    fields: Seq<Seq<char>>,
)
    requires
        forall|i: int| 0 <= i < s.len() ==> #[trigger] s[i] != '"',
    ensures
        spec_run(s + rest, line, State::InQuote, buf, fields) == add_used(
            spec_run(rest, line + newline_count(s), State::InQuote, buf + s, fields),
            s.len(),
        ),
    decreases s.len(),
{
    if s.len() == 0 {
        assert(s + rest =~= rest);
        assert(buf + s =~= buf);
        lemma_add_used_zero(spec_run(rest, line, State::InQuote, buf, fields));
    } else {
        let c = s[0];
        let line2: nat = if c == '\n' {
            line + 1
        } else {
            line
        };
        assert((s + rest)[0] == c);
        assert((s + rest).drop_first() =~= s.drop_first() + rest);
        lemma_quoted_verbatim(s.drop_first(), rest, line2, buf.push(c), fields);
        assert(buf.push(c) + s.drop_first() =~= buf + s);
        lemma_add_used_add(
            spec_run(rest, line + newline_count(s), State::InQuote, buf + s, fields),
            (s.len() - 1) as nat,
            1,
        );
    }
}

/// Law: a doubled quote inside a quoted field appends one literal quote to
/// the field buffer and returns to the quoted state.
pub proof fn lemma_escaped_quote(
    rest: Seq<char>,
    line: nat,
    buf: Seq<char>,
    fields: Seq<Seq<char>>,
)
    ensures
        spec_run(seq!['"', '"'] + rest, line, State::InQuote, buf, fields) == add_used(
            spec_run(rest, line, State::InQuote, buf.push('"'), fields),
            2,
        ),
{
    let s = seq!['"', '"'] + rest;
    assert(s[0] == '"');
    assert(s.drop_first()[0] == '"');
    assert(s.drop_first().drop_first() =~= rest);
    assert(spec_run(s.drop_first(), line, State::InQuoteQuote, buf, fields) == add_used(
        spec_run(rest, line, State::InQuote, buf.push('"'), fields),
        1,
    ));
    lemma_add_used_add(spec_run(rest, line, State::InQuote, buf.push('"'), fields), 1, 1);
}

/// Law: an opening quote that is never closed fails with the
/// "quote is not closed" error after consuming the whole input, and the
/// error's line number is the line on which end of input was reached —
/// the starting line plus one per newline swallowed by the open quote.
pub proof fn lemma_unterminated_quote(s: Seq<char>, line: nat)
    requires
        forall|i: int| 0 <= i < s.len() ==> #[trigger] s[i] != '"',
    ensures
        spec_parse(seq!['"'] + s, line) == (Outcome::Failed {
            kind: ErrKind::UnclosedQuote,
            used: s.len() + 1,
            line: line + newline_count(s),
        }),
{
    assert((seq!['"'] + s)[0] == '"');
    assert((seq!['"'] + s).drop_first() =~= s);
    lemma_quoted_verbatim(s, Seq::empty(), line, Seq::empty(), Seq::empty());
    assert(s + Seq::<char>::empty() =~= s);
    lemma_add_used_add(
        Outcome::Failed { kind: ErrKind::UnclosedQuote, used: 0, line: line + newline_count(s) },
        s.len(),
        1,
    );
}

} // verus!
