//! The line classifier: a character-driven dispatch over a line's
//! leading characters (and, for the fallback branch, its trailing two)
//! that appends the line's tokens to a caller-owned buffer.

use vstd::prelude::*;
use vstd::string::StrSliceExecFns;
use vstd::string::StringExecFns;

use crate::literals::{c_block_literal, code_block_literal, hashes_literal, heading_label_literal,
    heading_marker_literal, lemma_char_repeat_index, markdown_block_literal};
use crate::model::{asterisk_tokens, backtick_tokens, colon_tokens, digit_tokens,
    fallback_tokens, hash_tokens, heading_kind, hyphen_tokens, is_digit, leading_run,
    lemma_leading_run_bounds, lemma_leading_run_is, lex_spec, list_tail, quote_tokens,
    text_tokens, underscore_tokens};
use crate::tokens::{Token, Tokens};

verus! {

/// How many copies of `c` open the line.
fn count_leading_run(line: &str, c: char) -> (n: usize)
    ensures
        n == leading_run(line@, c),
{
    let len = line.unicode_len();
    let mut n: usize = 0;
    while n < len && line.get_char(n) == c
        invariant
            n <= len,
            len == line@.len(),
            forall|j: int| 0 <= j < n ==> line@[j] == c,
        decreases len - n,
    {
        n = n + 1;
    }
    proof {
        lemma_leading_run_is(line@, c, n as nat);
    }
    n
}

/// Whether two string slices hold the same characters.
fn str_eq_str(a: &str, b: &str) -> (r: bool)
    ensures
        r == (a@ == b@),
{
    let a_len = a.unicode_len();
    let b_len = b.unicode_len();
    if a_len != b_len {
        return false;
    }
    let mut i: usize = 0;
    while i < a_len
        invariant
            i <= a_len,
            a_len == a@.len(),
            a_len == b_len,
            b_len == b@.len(),
            forall|j: int| 0 <= j < i ==> a@[j] == b@[j],
        decreases a_len - i,
    {
        if a.get_char(i) != b.get_char(i) {
            return false;
        }
        i = i + 1;
    }
    proof {
        assert(a@ =~= b@);
    }
    true
}

/// Whether `c` is a decimal digit.
fn is_digit_char(c: char) -> (r: bool)
    ensures
        r == is_digit(c),
{
    let u: u32 = c as u32;
    48 <= u && u <= 57
}

/// Appends one token, relating the buffer's view to its old value.
fn push_token(tokens: &mut Vec<Token>, t: Token)
    ensures
        final(tokens).deep_view() == old(tokens).deep_view() + seq![t@],
{
    let ghost pushed = t@;
    tokens.push(t);
    proof {
        assert(tokens.deep_view() =~= old(tokens).deep_view() + seq![pushed]);
    }
}

/// The heading variant and canonical marker for level `level`.
fn heading_kind_exec(level: usize) -> (t: Tokens)
    requires
        1 <= level <= 6,
    ensures
        t@ == heading_kind(level as int),
{
    let marker = String::from_str(heading_marker_literal(level));
    if level == 1 {
        Tokens::HeadingOne(marker)
    } else if level == 2 {
        Tokens::HeadingTwo(marker)
    } else if level == 3 {
        Tokens::HeadingThree(marker)
    } else if level == 4 {
        Tokens::HeadingFour(marker)
    } else if level == 5 {
        Tokens::HeadingFive(marker)
    } else {
        Tokens::HeadingSix(marker)
    }
}

/// Lines opened by `#`: a heading of the level the leading run gives,
/// or nothing at all when the run is deeper than six.
fn lex_hash(line_number: usize, line: &str, tokens: &mut Vec<Token>)
    requires
        line@.len() > 0,
        line@[0] == '#',
    ensures
        final(tokens).deep_view() == old(tokens).deep_view() + hash_tokens(line_number, line@),
{
    let level = count_leading_run(line, '#');
    proof {
        lemma_leading_run_bounds(line@, '#');
    }
    if level <= 6 {
        let body = lex_element_text(line, level);
        let value = String::from_str(hashes_literal(level)).concat(body);
        proof {
            lemma_char_repeat_index('#', level as int);
            assert(value@ =~= line@);
        }
        push_token(
            tokens,
            Token {
                line_number,
                name: String::from_str(heading_label_literal(level)),
                kind: heading_kind_exec(level),
                value,
            },
        );
    } else {
        proof {
            assert(tokens.deep_view() =~= old(tokens).deep_view() + hash_tokens(
                line_number,
                line@,
            ));
        }
    }
}

/// Appends a single plain-text token holding the entire line.
pub fn lex_text(line_number: usize, line: &str, tokens: &mut Vec<Token>)
    ensures
        final(tokens).deep_view() == old(tokens).deep_view() + text_tokens(line_number, line@),
{
    push_token(
        tokens,
        Token {
            line_number,
            name: String::from_str("text"),
            kind: Tokens::Text(String::from_str(line)),
            value: String::from_str(line),
        },
    );
}

/// The body of a marker-led element: the line from `offset` characters
/// onward (code-point indexing).
pub fn lex_element_text<'a>(line: &'a str, offset: usize) -> (r: &'a str)
    requires
        offset <= line@.len(),
    ensures
        r@ == line@.skip(offset as int),
{
    let len = line.unicode_len();
    line.substring_char(offset, len)
}

/// The ordered-list marker for the digit `d`: `d`, then `". "`.
fn ordered_marker_literal(d: char) -> (r: &'static str)
    requires
        is_digit(d),
    ensures
        r@ == seq![d, '.', ' '],
{
    proof {
        reveal_strlit("0. ");
        reveal_strlit("1. ");
        reveal_strlit("2. ");
        reveal_strlit("3. ");
        reveal_strlit("4. ");
        reveal_strlit("5. ");
        reveal_strlit("6. ");
        reveal_strlit("7. ");
        reveal_strlit("8. ");
        reveal_strlit("9. ");
    }
    if d == '0' {
        proof { assert("0. "@ =~= seq![d, '.', ' ']); }
        "0. "
    } else if d == '1' {
        proof { assert("1. "@ =~= seq![d, '.', ' ']); }
        "1. "
    } else if d == '2' {
        proof { assert("2. "@ =~= seq![d, '.', ' ']); }
        "2. "
    } else if d == '3' {
        proof { assert("3. "@ =~= seq![d, '.', ' ']); }
        "3. "
    } else if d == '4' {
        proof { assert("4. "@ =~= seq![d, '.', ' ']); }
        "4. "
    } else if d == '5' {
        proof { assert("5. "@ =~= seq![d, '.', ' ']); }
        "5. "
    } else if d == '6' {
        proof { assert("6. "@ =~= seq![d, '.', ' ']); }
        "6. "
    } else if d == '7' {
        proof { assert("7. "@ =~= seq![d, '.', ' ']); }
        "7. "
    } else if d == '8' {
        proof { assert("8. "@ =~= seq![d, '.', ' ']); }
        "8. "
    } else {
        proof {
            assert(d == '9');
            assert("9. "@ =~= seq![d, '.', ' ']);
        }
        "9. "
    }
}

/// Lines opened by a decimal digit: an ordered-list item when `". "`
/// follows the digit and the line is longer than three characters,
/// otherwise plain text.
fn lex_digit(line_number: usize, line: &str, tokens: &mut Vec<Token>)
    requires
        line@.len() > 0,
        is_digit(line@[0]),
    ensures
        final(tokens).deep_view() == old(tokens).deep_view() + digit_tokens(line_number, line@),
{
    let len = line.unicode_len();
    if len > 3 && line.get_char(1) == '.' && line.get_char(2) == ' ' {
        let marker = ordered_marker_literal(line.get_char(0));
        let rest = lex_element_text(line, 3);
        let value = String::from_str(marker).concat(rest);
        proof {
            assert(value@ =~= line@);
        }
        push_token(
            tokens,
            Token {
                line_number,
                name: String::from_str("Ordered List"),
                kind: Tokens::OrderedListNumber(String::from_str(marker)),
                value,
            },
        );
    } else {
        lex_text(line_number, line, tokens);
    }
}

/// Lines opened by `-`: the exact triple-hyphen rule, a task-list item,
/// or an unordered-list item, in that order of precedence.
fn lex_hyphen(line_number: usize, line: &str, tokens: &mut Vec<Token>)
    requires
        line@.len() > 0,
        line@[0] == '-',
    ensures
        final(tokens).deep_view() == old(tokens).deep_view() + hyphen_tokens(line_number, line@),
{
    let len = line.unicode_len();
    let run = count_leading_run(line, '-');
    if run == 3 && len == 3 {
        push_token(
            tokens,
            Token {
                line_number,
                name: String::from_str("horizontal_rule_hyphen"),
                kind: Tokens::HorizontalRuleHyphen(String::from_str("---")),
                value: String::from_str("---"),
            },
        );
        return;
    }
    let is_task = len >= 6 && line.get_char(1) == ' ' && line.get_char(2) == '['
        && line.get_char(3) == ' ' && line.get_char(4) == ']' && line.get_char(5) == ' ';
    if is_task {
        let rest = lex_element_text(line, 6);
        let value = String::from_str("- [ ] ").concat(rest);
        proof {
            reveal_strlit("- [ ] ");
            assert(value@ =~= line@);
        }
        push_token(
            tokens,
            Token {
                line_number,
                name: String::from_str("task_list"),
                kind: Tokens::TaskList(String::from_str("- [ ] ")),
                value,
            },
        );
        return;
    }
    let value = if len >= 2 {
        String::from_str("- ").concat(line.substring_char(2, len))
    } else {
        String::from_str("- ")
    };
    proof {
        assert(value@ =~= "- "@ + list_tail(line@));
    }
    push_token(
        tokens,
        Token {
            line_number,
            name: String::from_str("unordered_list_hyphen"),
            kind: Tokens::UnorderedListHyphen(String::from_str("- ")),
            value,
        },
    );
}

/// Lines opened by `*`: only the exact triple-asterisk rule emits a
/// token; anything else is dropped.
fn lex_asterisk(line_number: usize, line: &str, tokens: &mut Vec<Token>)
    requires
        line@.len() > 0,
        line@[0] == '*',
    ensures
        final(tokens).deep_view() == old(tokens).deep_view() + asterisk_tokens(
            line_number,
            line@,
        ),
{
    let len = line.unicode_len();
    let run = count_leading_run(line, '*');
    if run == 3 && len == 3 {
        push_token(
            tokens,
            Token {
                line_number,
                name: String::from_str("horizontal_rule_asterisk"),
                kind: Tokens::HorizontalRuleAsterisk(String::from_str("***")),
                value: String::from_str("***"),
            },
        );
    } else {
        proof {
            assert(tokens.deep_view() =~= old(tokens).deep_view() + asterisk_tokens(
                line_number,
                line@,
            ));
        }
    }
}

/// Lines opened by `_`: only the exact triple-underscore rule emits a
/// token; anything else is dropped.
fn lex_underscore(line_number: usize, line: &str, tokens: &mut Vec<Token>)
    requires
        line@.len() > 0,
        line@[0] == '_',
    ensures
        final(tokens).deep_view() == old(tokens).deep_view() + underscore_tokens(
            line_number,
            line@,
        ),
{
    let len = line.unicode_len();
    let run = count_leading_run(line, '_');
    if run == 3 && len == 3 {
        push_token(
            tokens,
            Token {
                line_number,
                name: String::from_str("horizontal_rule_underscore"),
                kind: Tokens::HorizontalRuleUnderscore(String::from_str("___")),
                value: String::from_str("___"),
            },
        );
    } else {
        proof {
            assert(tokens.deep_view() =~= old(tokens).deep_view() + underscore_tokens(
                line_number,
                line@,
            ));
        }
    }
}

/// Lines opened by `:`: a definition-list marker when a space follows;
/// the rest of the line is dropped, as is the whole line otherwise.
fn lex_colon(line_number: usize, line: &str, tokens: &mut Vec<Token>)
    requires
        line@.len() > 0,
        line@[0] == ':',
    ensures
        final(tokens).deep_view() == old(tokens).deep_view() + colon_tokens(line_number, line@),
{
    let len = line.unicode_len();
    if len >= 2 && line.get_char(1) == ' ' {
        push_token(
            tokens,
            Token {
                line_number,
                name: String::from_str("definition_list"),
                kind: Tokens::DefinitionList(String::from_str(": ")),
                value: String::from_str(": "),
            },
        );
    } else {
        proof {
            assert(tokens.deep_view() =~= old(tokens).deep_view() + colon_tokens(
                line_number,
                line@,
            ));
        }
    }
}

/// Lines opened by `>`: a blockquote marker when a space follows; the
/// rest of the line is dropped, as is the whole line otherwise.
fn lex_quote(line_number: usize, line: &str, tokens: &mut Vec<Token>)
    requires
        line@.len() > 0,
        line@[0] == '>',
    ensures
        final(tokens).deep_view() == old(tokens).deep_view() + quote_tokens(line_number, line@),
{
    let len = line.unicode_len();
    if len >= 2 && line.get_char(1) == ' ' {
        push_token(
            tokens,
            Token {
                line_number,
                name: String::from_str("blockquote"),
                kind: Tokens::Blockquote(String::from_str("> ")),
                value: String::from_str("> "),
            },
        );
    } else {
        proof {
            assert(tokens.deep_view() =~= old(tokens).deep_view() + quote_tokens(
                line_number,
                line@,
            ));
        }
    }
}

/// Lines opened by a backtick: the reserved fence literals first, then
/// any other triple-backtick opener as a generic code block; a lone
/// backtick line that opens no fence is dropped.
fn lex_backtick(line_number: usize, line: &str, tokens: &mut Vec<Token>)
    requires
        line@.len() > 0,
        line@[0] == '`',
    ensures
        final(tokens).deep_view() == old(tokens).deep_view() + backtick_tokens(
            line_number,
            line@,
        ),
{
    if str_eq_str(line, c_block_literal()) {
        push_token(
            tokens,
            Token {
                line_number,
                name: String::from_str("c_block"),
                kind: Tokens::CBlock(String::from_str(c_block_literal())),
                value: String::from_str(line),
            },
        );
        return;
    }
    if str_eq_str(line, markdown_block_literal()) {
        push_token(
            tokens,
            Token {
                line_number,
                name: String::from_str("markdown_block"),
                kind: Tokens::MarkdownBlock(String::from_str(markdown_block_literal())),
                value: String::from_str(line),
            },
        );
        return;
    }
    if str_eq_str(line, code_block_literal()) {
        push_token(
            tokens,
            Token {
                line_number,
                name: String::from_str("code_block"),
                kind: Tokens::CodeBlock(String::from_str(code_block_literal())),
                value: String::from_str(line),
            },
        );
        return;
    }
    let len = line.unicode_len();
    if len >= 3 && line.get_char(1) == '`' && line.get_char(2) == '`' {
        push_token(
            tokens,
            Token {
                line_number,
                name: String::from_str("general_code_block"),
                kind: Tokens::CodeBlock(String::from_str("```")),
                value: String::from_str(line),
            },
        );
    } else {
        proof {
            assert(tokens.deep_view() =~= old(tokens).deep_view() + backtick_tokens(
                line_number,
                line@,
            ));
        }
    }
}

/// Lines opened by any other character: a trailing double space splits
/// the line into a text token and a line-break token; otherwise the
/// whole line is one text token.
fn lex_fallback(line_number: usize, line: &str, tokens: &mut Vec<Token>)
    requires
        line@.len() > 0,
    ensures
        final(tokens).deep_view() == old(tokens).deep_view() + fallback_tokens(
            line_number,
            line@,
        ),
{
    let len = line.unicode_len();
    if len >= 2 && line.get_char(len - 1) == ' ' && line.get_char(len - 2) == ' ' {
        let body = line.substring_char(0, len - 2);
        push_token(
            tokens,
            Token {
                line_number,
                name: String::from_str("text"),
                kind: Tokens::Text(String::from_str(body)),
                value: String::from_str(body),
            },
        );
        push_token(
            tokens,
            Token {
                line_number,
                name: String::from_str("line_break"),
                kind: Tokens::LineBreak(String::from_str("  ")),
                value: String::from_str("  "),
            },
        );
        proof {
            assert(tokens.deep_view() =~= old(tokens).deep_view() + fallback_tokens(
                line_number,
                line@,
            ));
        }
    } else {
        lex_text(line_number, line, tokens);
    }
}

/// Classifies one line, appending its tokens to `tokens`.
///
/// The appended tokens are exactly `lex_spec(line_number, line@)`: a
/// pure function of the pair, so re-classifying the same line always
/// appends the identical sequence. Most unrecognized shapes fall
/// through to a single `Text` token; over-deep headings, non-triple
/// `*`/`_` runs, `:`/`>` lines not followed by a space, and backtick
/// lines that open no fence deliberately emit nothing at all.
pub fn lex(line_number: usize, line: &str, tokens: &mut Vec<Token>)
    ensures
        final(tokens).deep_view() == old(tokens).deep_view() + lex_spec(line_number, line@),
{
    let len = line.unicode_len();
    if len == 0 {
        push_token(
            tokens,
            Token {
                line_number,
                name: String::from_str("empty_line"),
                kind: Tokens::EmptyLine(String::new()),
                value: String::new(),
            },
        );
        return;
    }
    let c = line.get_char(0);
    if c == '#' {
        lex_hash(line_number, line, tokens);
    } else if is_digit_char(c) {
        lex_digit(line_number, line, tokens);
    } else if c == '-' {
        lex_hyphen(line_number, line, tokens);
    } else if c == '*' {
        lex_asterisk(line_number, line, tokens);
    } else if c == '_' {
        lex_underscore(line_number, line, tokens);
    } else if c == ':' {
        lex_colon(line_number, line, tokens);
    } else if c == '>' {
        lex_quote(line_number, line, tokens);
    } else if c == '`' {
        lex_backtick(line_number, line, tokens);
    } else {
        lex_fallback(line_number, line, tokens);
    }
}

} // verus!
