use brush_shell::tokens::{prepare_for_flag_parser, rewrite_plus_o_options, split_at_separator};

fn token_list(items: &[&str]) -> Vec<String> {
    items.iter().map(|item| item.to_string()).collect()
}

#[test]
fn split_without_separator_keeps_everything_in_head() {
    let tokens = token_list(&["brush", "-c", "exit 7"]);
    let (head, tail) = split_at_separator(&tokens);
    assert_eq!(head, tokens);
    assert_eq!(tail, None);
}

#[test]
fn split_at_separator_leaves_separator_out() {
    let tokens = token_list(&["brush", "--", "myscript", "x"]);
    let (head, tail) = split_at_separator(&tokens);
    assert_eq!(head, token_list(&["brush"]));
    assert_eq!(tail, Some(token_list(&["myscript", "x"])));
}

#[test]
fn split_with_trailing_separator_gives_empty_tail() {
    let tokens = token_list(&["brush", "-x", "--"]);
    let (head, tail) = split_at_separator(&tokens);
    assert_eq!(head, token_list(&["brush", "-x"]));
    assert_eq!(tail, Some(Vec::new()));
}

#[test]
fn split_stops_at_first_separator() {
    let tokens = token_list(&["brush", "--", "a", "--", "b"]);
    let (head, tail) = split_at_separator(&tokens);
    assert_eq!(head, token_list(&["brush"]));
    assert_eq!(tail, Some(token_list(&["a", "--", "b"])));
}

#[test]
fn split_of_separator_alone() {
    let tokens = token_list(&["--"]);
    let (head, tail) = split_at_separator(&tokens);
    assert_eq!(head, Vec::<String>::new());
    assert_eq!(tail, Some(Vec::new()));
}

#[test]
fn split_of_empty_command_line() {
    let tokens: Vec<String> = Vec::new();
    let (head, tail) = split_at_separator(&tokens);
    assert_eq!(head, Vec::<String>::new());
    assert_eq!(tail, None);
}

#[test]
fn split_does_not_take_longer_tokens_for_separator() {
    let tokens = token_list(&["brush", "---", "--x", "-", "-- "]);
    let (head, tail) = split_at_separator(&tokens);
    assert_eq!(head, tokens);
    assert_eq!(tail, None);
}

#[test]
fn split_parts_put_together_give_the_command_line() {
    let tokens = token_list(&["brush", "-s", "one", "--", "two", "three"]);
    let (head, tail) = split_at_separator(&tokens);
    let mut joined = head.clone();
    joined.push("--".to_string());
    joined.extend(tail.unwrap());
    assert_eq!(joined, tokens);
    assert!(head.iter().all(|token| token != "--"));
}

#[test]
fn plus_o_option_gets_two_hyphens() {
    let tokens = token_list(&["brush", "+O", "extglob"]);
    let rewritten = rewrite_plus_o_options(&tokens);
    assert_eq!(rewritten, token_list(&["brush", "--+O", "extglob"]));
}

#[test]
fn plus_o_option_with_value_attached_gets_two_hyphens() {
    let tokens = token_list(&["+Oextglob"]);
    let rewritten = rewrite_plus_o_options(&tokens);
    assert_eq!(rewritten, token_list(&["--+Oextglob"]));
}

#[test]
fn other_tokens_are_not_rewritten() {
    let tokens = token_list(&["brush", "-O", "+o", "+", "", "O+", "x+O", "+é", "é+O"]);
    let rewritten = rewrite_plus_o_options(&tokens);
    assert_eq!(rewritten, tokens);
}

#[test]
fn rewrite_keeps_number_and_order_of_tokens() {
    let tokens = token_list(&["a", "+Ob", "c", "+O", "--", "+Od"]);
    let rewritten = rewrite_plus_o_options(&tokens);
    assert_eq!(rewritten, token_list(&["a", "--+Ob", "c", "--+O", "--", "--+Od"]));
}

#[test]
fn rewrite_of_empty_command_line() {
    let tokens: Vec<String> = Vec::new();
    assert_eq!(rewrite_plus_o_options(&tokens), Vec::<String>::new());
}

#[test]
fn preparation_rewrites_only_what_the_flag_parser_sees() {
    let tokens = token_list(&["brush", "+O", "extglob", "--", "+Ofoo", "+O"]);
    let (flags, tail) = prepare_for_flag_parser(&tokens);
    assert_eq!(flags, token_list(&["brush", "--+O", "extglob"]));
    assert_eq!(tail, Some(token_list(&["+Ofoo", "+O"])));
}

#[test]
fn preparation_without_separator_rewrites_everything() {
    let tokens = token_list(&["brush", "+Oextglob", "script.sh", "+O"]);
    let (flags, tail) = prepare_for_flag_parser(&tokens);
    assert_eq!(flags, token_list(&["brush", "--+Oextglob", "script.sh", "--+O"]));
    assert_eq!(tail, None);
}

#[test]
fn preparation_leaves_separator_out_of_both_parts() {
    let tokens = token_list(&["brush", "--", "myscript", "x"]);
    let (flags, tail) = prepare_for_flag_parser(&tokens);
    assert_eq!(flags, token_list(&["brush"]));
    assert_eq!(tail, Some(token_list(&["myscript", "x"])));
}

#[test]
fn preparation_of_trailing_separator_gives_empty_tail() {
    let tokens = token_list(&["+O", "--"]);
    let (flags, tail) = prepare_for_flag_parser(&tokens);
    assert_eq!(flags, token_list(&["--+O"]));
    assert_eq!(tail, Some(Vec::new()));
}

#[test]
fn preparation_of_empty_command_line() {
    let tokens: Vec<String> = Vec::new();
    let (flags, tail) = prepare_for_flag_parser(&tokens);
    assert_eq!(flags, Vec::<String>::new());
    assert_eq!(tail, None);
}
