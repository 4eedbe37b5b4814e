use northline_core::syntax::{parse_requests, RequestSyntax, ToolRequest};
use northline_core::text::{chars_of, find};

fn request(name: &str, input: &str) -> ToolRequest {
    ToolRequest { tool_name: name.to_string(), input: input.to_string() }
}

#[test]
fn chars_of_gives_the_characters() {
    assert_eq!(chars_of("añ😀b"), vec!['a', 'ñ', '😀', 'b']);
    assert_eq!(chars_of(""), Vec::<char>::new());
}

#[test]
fn find_gives_the_first_occurrence() {
    let hay = chars_of("abcabc");
    assert_eq!(find(&hay, &chars_of("bc"), 0), Some(1));
    assert_eq!(find(&hay, &chars_of("bc"), 1), Some(1));
    assert_eq!(find(&hay, &chars_of("bc"), 2), Some(4));
    assert_eq!(find(&hay, &chars_of("bc"), 5), None);
    assert_eq!(find(&hay, &chars_of("x"), 0), None);
    assert_eq!(find(&hay, &chars_of("abcabcd"), 0), None);
}

#[test]
fn find_of_the_empty_needle() {
    let hay = chars_of("ab");
    assert_eq!(find(&hay, &chars_of(""), 0), Some(0));
    assert_eq!(find(&hay, &chars_of(""), 2), Some(2));
    assert_eq!(find(&hay, &chars_of(""), 3), None);
}

#[test]
fn text_without_request_gives_none() {
    let syntax = RequestSyntax::bracketed();
    assert!(parse_requests(&syntax, "The capital is Paris.", 8).is_empty());
    assert!(parse_requests(&syntax, "", 8).is_empty());
    assert!(parse_requests(&syntax, "[[tool:search|never closed", 8).is_empty());
    assert!(parse_requests(&syntax, "[tool:search|x]]", 8).is_empty());
}

#[test]
fn requests_come_in_the_order_written() {
    let syntax = RequestSyntax::bracketed();
    let found = parse_requests(&syntax, "a [[tool:search|paris]] b [[tool:calc|1+1]] c", 8);
    assert_eq!(found, vec![request("search", "paris"), request("calc", "1+1")]);
}

#[test]
fn block_without_separator_has_empty_input() {
    let syntax = RequestSyntax::bracketed();
    let found = parse_requests(&syntax, "[[tool:clock]] and [[tool:search|x]]", 8);
    assert_eq!(found, vec![request("clock", ""), request("search", "x")]);
}

#[test]
fn input_may_hold_the_separator() {
    let syntax = RequestSyntax::bracketed();
    let found = parse_requests(&syntax, "[[tool:calc|a|b]]", 8);
    assert_eq!(found, vec![request("calc", "a|b")]);
}

#[test]
fn empty_name_and_empty_input_are_read() {
    let syntax = RequestSyntax::bracketed();
    assert_eq!(parse_requests(&syntax, "[[tool:|]]", 8), vec![request("", "")]);
    assert_eq!(parse_requests(&syntax, "[[tool:]]", 8), vec![request("", "")]);
}

#[test]
fn limit_bounds_the_requests() {
    let syntax = RequestSyntax::bracketed();
    let text = "[[tool:a|1]][[tool:b|2]][[tool:c|3]]";
    assert_eq!(parse_requests(&syntax, text, 2), vec![request("a", "1"), request("b", "2")]);
    assert_eq!(parse_requests(&syntax, text, 0), Vec::<ToolRequest>::new());
    assert_eq!(parse_requests(&syntax, text, 3).len(), 3);
}

#[test]
fn indices_count_characters_not_bytes() {
    let syntax = RequestSyntax::bracketed();
    let found = parse_requests(&syntax, "é😀 [[tool:sök|München 😀]] ü", 8);
    assert_eq!(found, vec![request("sök", "München 😀")]);
}

#[test]
fn other_delimiters_can_be_configured() {
    let syntax = RequestSyntax::new("<call ", " with ", "/>");
    let found = parse_requests(&syntax, "x <call search with rust verus/> y <call now/>", 8);
    assert_eq!(found, vec![request("search", "rust verus"), request("now", "")]);
    assert!(parse_requests(&syntax, "[[tool:search|x]]", 8).is_empty());
}

#[test]
fn syntax_with_an_empty_delimiter_is_not_valid() {
    assert!(RequestSyntax::bracketed().is_valid());
    assert!(RequestSyntax::new("<", ":", ">").is_valid());
    assert!(!RequestSyntax::new("", ":", ">").is_valid());
    assert!(!RequestSyntax::new("<", "", ">").is_valid());
    assert!(!RequestSyntax::new("<", ":", "").is_valid());
}

#[test]
fn bracketed_syntax_has_its_delimiters() {
    let syntax = RequestSyntax::bracketed();
    assert_eq!(syntax.open, "[[tool:");
    assert_eq!(syntax.separator, "|");
    assert_eq!(syntax.close, "]]");
    assert_eq!(syntax.duplicate(), syntax);
}

#[test]
fn block_runs_from_the_first_open_to_the_first_close() {
    let syntax = RequestSyntax::bracketed();
    assert_eq!(
        parse_requests(&syntax, "[[tool:[[tool:a|b]] rest", 8),
        vec![request("[[tool:a", "b")]
    );
    assert_eq!(parse_requests(&syntax, "[[tool:a|b]]]", 8), vec![request("a", "b")]);
    assert_eq!(
        parse_requests(&syntax, "]] [[tool:a]] | [[tool:b|]]", 8),
        vec![request("a", ""), request("b", "")]
    );
}

#[test]
fn separator_behind_the_close_is_not_part_of_the_block() {
    let syntax = RequestSyntax::new("<<", "::", ">>");
    assert_eq!(
        parse_requests(&syntax, "<<a>> :: <<b::c>>", 8),
        vec![request("a", ""), request("b", "c")]
    );
    assert_eq!(parse_requests(&syntax, "<<a:>>", 8), vec![request("a:", "")]);
    assert_eq!(parse_requests(&syntax, "<<a::>>", 8), vec![request("a", "")]);
    assert_eq!(parse_requests(&syntax, "<<a:>>:", 8), vec![request("a:", "")]);
}
