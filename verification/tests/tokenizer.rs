use shinigami::tokenizer::tokenize;

fn toks(text: &str) -> Vec<String> {
    tokenize(text)
}

#[test]
fn double_quoted_span_is_one_token() {
    assert_eq!(toks("add \"Night Owl\" extra"), vec!["add", "Night Owl", "extra"]);
}

#[test]
fn single_quoted_span_is_one_token() {
    assert_eq!(toks("add 'Solo' @Bot"), vec!["add", "Solo", "@Bot"]);
}

#[test]
fn empty_input_has_no_tokens() {
    assert_eq!(toks(""), Vec::<String>::new());
}

#[test]
fn whitespace_only_has_no_tokens() {
    assert_eq!(toks("  \t \n  \r "), Vec::<String>::new());
}

#[test]
fn runs_of_whitespace_separate_tokens() {
    assert_eq!(toks("  add\tOverwatch\n@Bot  "), vec!["add", "Overwatch", "@Bot"]);
}

#[test]
fn unterminated_quote_takes_rest_of_line() {
    assert_eq!(toks("add \"Night Owl extra"), vec!["add", "Night Owl extra"]);
}

#[test]
fn unterminated_single_quote_takes_rest_of_line() {
    assert_eq!(toks("add 'Solo"), vec!["add", "Solo"]);
}

#[test]
fn quote_kinds_do_not_close_each_other() {
    assert_eq!(toks("\"it's\" fine"), vec!["it's", "fine"]);
}

#[test]
fn quote_ends_a_bare_token() {
    assert_eq!(toks("ab\"cd\"ef"), vec!["ab", "cd", "ef"]);
}

#[test]
fn empty_quotes_give_an_empty_token() {
    assert_eq!(toks("add \"\" x"), vec!["add", "", "x"]);
}

#[test]
fn quoted_span_keeps_inner_whitespace() {
    assert_eq!(toks("'  a  b  '"), vec!["  a  b  "]);
}

#[test]
fn order_is_left_to_right() {
    assert_eq!(toks("one two three four"), vec!["one", "two", "three", "four"]);
}
