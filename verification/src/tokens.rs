//! The raw tokens of the command line, before any flag is parsed.

use crate::text::append_strings;
use vstd::prelude::*;
use vstd::string::*;

verus! {

/// The token that ends the flags: two hyphens.
pub open spec fn separator() -> Seq<char> {
    seq!['-', '-']
}

/// Whether `head` and `tail` are the two sides of the first separator in
/// `tokens`: `head` holds the tokens before it and none of them is a
/// separator, `tail` holds the tokens after it. Where `tokens` holds no
/// separator there is no tail, and `head` is all of `tokens`.
pub open spec fn splits_at_separator(
    tokens: Seq<Seq<char>>,
    head: Seq<Seq<char>>,
    tail: Option<Seq<Seq<char>>>,
) -> bool {
    &&& forall|i: int| 0 <= i < head.len() ==> head[i] != separator()
    &&& match tail {
        Some(rest) => tokens == head + seq![separator()] + rest,
        None => tokens == head,
    }
}

/// Whether a token begins with `+O`, the form in which a `shopt` option to
/// disable is given.
pub open spec fn is_plus_o_option(token: Seq<char>) -> bool {
    token.len() >= 2 && token[0] == '+' && token[1] == 'O'
}

/// A token as the flag parser is to see it: one that begins with `+O` gets
/// two hyphens in front, any other stays as it is.
pub open spec fn rewritten_token(token: Seq<char>) -> Seq<char> {
    if is_plus_o_option(token) {
        seq!['-', '-'] + token
    } else {
        token
    }
}

/// A list of tokens as the flag parser is to see it: each token rewritten,
/// in the same order.
pub open spec fn rewritten_tokens(tokens: Seq<Seq<char>>) -> Seq<Seq<char>> {
    Seq::new(tokens.len(), |i: int| rewritten_token(tokens[i]))
}

/// Whether `flags` and `tail` are what becomes of `tokens` before the flags
/// are parsed: `flags` holds the tokens before the first separator, each
/// rewritten for the flag parser; `tail` holds the tokens behind that
/// separator exactly as they were given, and is `None` where there is no
/// separator.
pub open spec fn prepared_for_flag_parser(
    tokens: Seq<Seq<char>>,
    flags: Seq<Seq<char>>,
    tail: Option<Seq<Seq<char>>>,
) -> bool {
    &&& flags.len() <= tokens.len()
    &&& splits_at_separator(tokens, tokens.take(flags.len() as int), tail)
    &&& flags == rewritten_tokens(tokens.take(flags.len() as int))
}

/// Tells whether a token is the separator.
fn is_separator(token: &String) -> (found: bool)
    ensures
        found == (token@ == separator()),
{
    let two_hyphens = String::from_str("--");
    proof {
        reveal_strlit("--");
        assert("--"@ =~= separator());
    }
    *token == two_hyphens
}

/// Tells whether a token begins with `+O`.
fn begins_with_plus_o(token: &String) -> (found: bool)
    ensures
        found == is_plus_o_option(token@),
{
    let slice = token.as_str();
    if slice.unicode_len() < 2 {
        false
    } else if slice.get_char(0) != '+' {
        false
    } else {
        slice.get_char(1) == 'O'
    }
}

/// Rewrites one token for the flag parser.
fn rewrite_token(token: &String) -> (rewritten: String)
    ensures
        rewritten@ == rewritten_token(token@),
{
    if begins_with_plus_o(token) {
        proof {
            reveal_strlit("--");
            assert("--"@ =~= seq!['-', '-']);
        }
        String::from_str("--").concat(token.as_str())
    } else {
        token.clone()
    }
}

/// Rewrites tokens for the flag parser, which cannot take an option that
/// begins with `+O`: each such token gets two hyphens in front. The other
/// tokens, the number of tokens and their order stay as they are.
pub fn rewrite_plus_o_options(tokens: &Vec<String>) -> (rewritten: Vec<String>)
    ensures
        rewritten.deep_view() == rewritten_tokens(tokens.deep_view()),
{
    let mut rewritten: Vec<String> = Vec::new();
    let mut i: usize = 0;
    while i < tokens.len()
        invariant
            i <= tokens.len(),
            rewritten@.len() == i,
            forall|j: int| 0 <= j < i ==> rewritten@[j]@ == rewritten_token(tokens@[j]@),
        decreases tokens.len() - i,
    {
        rewritten.push(rewrite_token(&tokens[i]));
        i += 1;
    }
    assert(rewritten.deep_view() =~= rewritten_tokens(tokens.deep_view()));
    rewritten
}

/// Splits the command line at its first separator. Returns the tokens
/// before the separator and, where there is a separator, the tokens after
/// it; the separator itself is in neither. The flags are parsed from the
/// first part alone.
pub fn split_at_separator(tokens: &Vec<String>) -> (parts: (Vec<String>, Option<Vec<String>>))
    ensures
        splits_at_separator(tokens.deep_view(), parts.0.deep_view(), parts.1.deep_view()),
{
    let mut head: Vec<String> = Vec::new();
    let mut i: usize = 0;
    while i < tokens.len()
        invariant
            i <= tokens.len(),
            head@.len() == i,
            forall|j: int| 0 <= j < i ==> head@[j]@ == tokens@[j]@,
            forall|j: int| 0 <= j < i ==> tokens@[j]@ != separator(),
        decreases tokens.len() - i,
    {
        if is_separator(&tokens[i]) {
            let rest = append_strings(Vec::new(), tokens, i + 1);
            assert(rest.deep_view() =~= tokens.deep_view().skip(i + 1));
            assert(tokens.deep_view() =~= head.deep_view() + seq![separator()] + rest.deep_view());
            return (head, Some(rest));
        }
        head.push(tokens[i].clone());
        i += 1;
    }
    assert(tokens.deep_view() =~= head.deep_view());
    (head, None)
}

/// Prepares the command line for the flag parser. Returns the tokens the
/// flags are parsed from, which are those before the first separator, each
/// rewritten for the parser, and the tokens behind the separator, where
/// there is one. The tokens behind the separator belong to the script and
/// are handed on as they are.
pub fn prepare_for_flag_parser(tokens: &Vec<String>) -> (parts: (Vec<String>, Option<Vec<String>>))
    ensures
        prepared_for_flag_parser(tokens.deep_view(), parts.0.deep_view(), parts.1.deep_view()),
{
    let (head, tail) = split_at_separator(tokens);
    let flags = rewrite_plus_o_options(&head);
    assert(tokens.deep_view().take(head.deep_view().len() as int) =~= head.deep_view());
    (flags, tail)
}

/// A command line is split at its separator in one way only.
pub proof fn lemma_split_is_unique(
    tokens: Seq<Seq<char>>,
    head: Seq<Seq<char>>,
    tail: Option<Seq<Seq<char>>>,
    other_head: Seq<Seq<char>>,
    other_tail: Option<Seq<Seq<char>>>,
)
    requires
        splits_at_separator(tokens, head, tail),
        splits_at_separator(tokens, other_head, other_tail),
    ensures
        head == other_head,
        tail == other_tail,
{
    let first = head + seq![separator()];
    let second = other_head + seq![separator()];
    if tail is Some && other_tail is Some {
        assert(tokens == first + tail->0);
        assert(tokens == second + other_tail->0);
        if head.len() < other_head.len() {
            assert(tokens[head.len() as int] == separator());
            assert(tokens[head.len() as int] == other_head[head.len() as int]);
        } else if other_head.len() < head.len() {
            assert(tokens[other_head.len() as int] == separator());
            assert(tokens[other_head.len() as int] == head[other_head.len() as int]);
        }
        assert(head =~= tokens.take(head.len() as int));
        assert(other_head =~= tokens.take(other_head.len() as int));
        assert(tail->0 =~= tokens.skip((head.len() + 1) as int));
        assert(other_tail->0 =~= tokens.skip((other_head.len() + 1) as int));
    } else if tail is Some {
        assert(tokens[head.len() as int] == separator());
        assert(tokens[head.len() as int] == other_head[head.len() as int]);
    } else if other_tail is Some {
        assert(tokens[other_head.len() as int] == separator());
        assert(tokens[other_head.len() as int] == head[other_head.len() as int]);
    }
}

/// A command line is prepared for the flag parser in one way only.
pub proof fn lemma_preparation_is_unique(
    tokens: Seq<Seq<char>>,
    flags: Seq<Seq<char>>,
    tail: Option<Seq<Seq<char>>>,
    other_flags: Seq<Seq<char>>,
    other_tail: Option<Seq<Seq<char>>>,
)
    requires
        prepared_for_flag_parser(tokens, flags, tail),
        prepared_for_flag_parser(tokens, other_flags, other_tail),
    ensures
        flags == other_flags,
        tail == other_tail,
{
    lemma_split_is_unique(
        tokens,
        tokens.take(flags.len() as int),
        tail,
        tokens.take(other_flags.len() as int),
        other_tail,
    );
    assert(flags.len() == other_flags.len());
}

} // verus!
