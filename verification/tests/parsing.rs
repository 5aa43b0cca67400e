use csv::CsvParser;
use csv::IteratorWithLineNo;

fn cursor(s: &str) -> IteratorWithLineNo {
    IteratorWithLineNo::new(s.chars().collect())
}

fn parse_one(s: &str) -> Result<Vec<String>, (String, u32)> {
    let mut it = cursor(s);
    let mut parser = CsvParser::new();
    match parser.parse_line(&mut it) {
        Ok(p) => Ok(p.result.clone()),
        Err(e) => Err((e.message, e.line_no)),
    }
}

#[test]
fn it_works() {
}

#[test]
fn unquoted_fields() {
    assert_eq!(parse_one("a,b,c\n").unwrap(), vec!["a", "b", "c"]);
}

#[test]
fn unquoted_fields_without_newline() {
    assert_eq!(parse_one("a,b,c").unwrap(), vec!["a", "b", "c"]);
}

#[test]
fn quoted_field() {
    assert_eq!(parse_one("1,\"2\",3").unwrap(), vec!["1", "2", "3"]);
}

#[test]
fn quoted_field_with_embedded_delimiter() {
    assert_eq!(parse_one("a,\"b,c\",d").unwrap(), vec!["a", "b,c", "d"]);
}

#[test]
fn quoted_field_with_embedded_newline() {
    assert_eq!(parse_one("\"a\nb\",c").unwrap(), vec!["a\nb", "c"]);
}

#[test]
fn escaped_quote() {
    assert_eq!(parse_one("\"a\"\"b\"").unwrap(), vec!["a\"b"]);
}

#[test]
fn unterminated_quote() {
    let (message, line_no) = parse_one("\"a").unwrap_err();
    assert_eq!(message, "Parse error. Quote is not closed.");
    assert_eq!(line_no, 1);
}

#[test]
fn unterminated_quote_line_is_where_input_ended() {
    let (message, line_no) = parse_one("\"a\nb\nc").unwrap_err();
    assert_eq!(message, "Parse error. Quote is not closed.");
    assert_eq!(line_no, 3);
}

#[test]
fn unescaped_quote_mid_field() {
    let (message, line_no) = parse_one("a\"b,c").unwrap_err();
    assert_eq!(
        message,
        "Parse error. Should be enclosed by double quote if data contains double quotes."
    );
    assert_eq!(line_no, 1);
}

#[test]
fn two_records_and_line_number() {
    let mut it = cursor("1,\"2\",3\n5,6,7");
    let mut first = CsvParser::new();
    assert_eq!(first.parse_line(&mut it).unwrap().result, vec!["1", "2", "3"]);
    let mut second = CsvParser::new();
    assert_eq!(second.parse_line(&mut it).unwrap().result, vec!["5", "6", "7"]);
    assert_eq!(it.line_no(), 2);
}

#[test]
fn crlf_parses_like_lf() {
    let mut crlf = cursor("a,b\r\nc,d");
    let mut lf = cursor("a,b\nc,d");
    let mut p1 = CsvParser::new();
    let mut p2 = CsvParser::new();
    assert_eq!(
        p1.parse_line(&mut crlf).unwrap().result,
        p2.parse_line(&mut lf).unwrap().result
    );
    let mut q1 = CsvParser::new();
    let mut q2 = CsvParser::new();
    assert_eq!(
        q1.parse_line(&mut crlf).unwrap().result,
        q2.parse_line(&mut lf).unwrap().result
    );
    assert_eq!(crlf.line_no(), lf.line_no());
}

#[test]
fn carriage_return_in_quotes_is_kept() {
    assert_eq!(parse_one("\"x\ry\"").unwrap(), vec!["x\ry"]);
}

#[test]
fn carriage_return_in_unquoted_field_is_dropped() {
    assert_eq!(parse_one("a\rb,c").unwrap(), vec!["ab", "c"]);
}

#[test]
fn reuse_after_error_starts_clean() {
    let mut it = cursor("\"a");
    let mut parser = CsvParser::new();
    assert!(parser.parse_line(&mut it).is_err());
    let mut it2 = cursor("x,y");
    assert_eq!(parser.parse_line(&mut it2).unwrap().result, vec!["x", "y"]);
}

#[test]
fn newline_right_after_closing_quote_is_rejected() {
    let (message, line_no) = parse_one("\"a\"\nb").unwrap_err();
    assert_eq!(message, "Parse error. Invalid character '\n' after quote.");
    assert_eq!(line_no, 2);
}

#[test]
fn character_right_after_closing_quote_is_rejected() {
    let (message, line_no) = parse_one("\"a\"b").unwrap_err();
    assert_eq!(message, "Parse error. Invalid character 'b' after quote.");
    assert_eq!(line_no, 1);
}

#[test]
fn carriage_return_after_closing_quote_is_tolerated() {
    assert_eq!(parse_one("\"a\"\r,b").unwrap(), vec!["a", "b"]);
    assert_eq!(parse_one("\"a\"\r").unwrap(), vec!["a"]);
}

#[test]
fn comma_right_after_closing_quote_starts_next_field() {
    assert_eq!(parse_one("\"a\",b").unwrap(), vec!["a", "b"]);
}

#[test]
fn empty_input_is_one_empty_field() {
    assert_eq!(parse_one("").unwrap(), vec![""]);
}

#[test]
fn empty_fields() {
    assert_eq!(parse_one(",").unwrap(), vec!["", ""]);
    assert_eq!(parse_one("a,").unwrap(), vec!["a", ""]);
    assert_eq!(parse_one(",b").unwrap(), vec!["", "b"]);
    assert_eq!(parse_one("\"\"").unwrap(), vec![""]);
}

#[test]
fn nul_is_an_ordinary_character() {
    assert_eq!(parse_one("a\u{0}b,c").unwrap(), vec!["a\u{0}b", "c"]);
}

#[test]
fn cursor_counts_lines_and_reports_lookahead() {
    let mut it = cursor("x\ny");
    assert_eq!(it.line_no(), 1);
    assert!(it.has_next());
    assert_eq!(it.next(), Some('x'));
    assert_eq!(it.line_no(), 1);
    assert_eq!(it.next(), Some('\n'));
    assert_eq!(it.line_no(), 2);
    assert_eq!(it.next(), Some('y'));
    assert!(!it.has_next());
    assert_eq!(it.next(), None);
    assert_eq!(it.line_no(), 2);
}

#[test]
fn driver_loop_over_all_records() {
    let mut it = cursor("a,b\n\"c\",d\ne");
    let mut records: Vec<Vec<String>> = Vec::new();
    while it.has_next() {
        let mut parser = CsvParser::new();
        let record = parser.parse_line(&mut it).unwrap().result.clone();
        records.push(record);
    }
    assert_eq!(records.len(), 3);
    assert_eq!(records[0], vec!["a", "b"]);
    assert_eq!(records[1], vec!["c", "d"]);
    assert_eq!(records[2], vec!["e"]);
}
