//! The mathematical model of classification.
//!
//! `lex_spec` says, for every `(line_number, line)` pair, exactly which
//! tokens classification emits, as a pure function over the line's
//! character sequence. The executable classifier in `lexer` is proved to
//! append precisely `lex_spec(line_number, line@)` to its output buffer.

use vstd::prelude::*;

use crate::literals::{c_block_fence, code_block_fence, heading_label, heading_marker,
    markdown_block_fence};

verus! {

/// Spec-level mirror of `tokens::Tokens`: each variant carries the view
/// of its marker payload (for `Text`, the text itself).
#[verifier::ext_equal]
pub ghost enum TokensView {
    HeadingOne(Seq<char>),
    HeadingTwo(Seq<char>),
    HeadingThree(Seq<char>),
    HeadingFour(Seq<char>),
    HeadingFive(Seq<char>),
    HeadingSix(Seq<char>),
    OrderedListNumber(Seq<char>),
    UnorderedListHyphen(Seq<char>),
    TaskList(Seq<char>),
    DefinitionList(Seq<char>),
    Blockquote(Seq<char>),
    HorizontalRuleHyphen(Seq<char>),
    HorizontalRuleAsterisk(Seq<char>),
    HorizontalRuleUnderscore(Seq<char>),
    CBlock(Seq<char>),
    MarkdownBlock(Seq<char>),
    CodeBlock(Seq<char>),
    EmptyLine(Seq<char>),
    LineBreak(Seq<char>),
    Text(Seq<char>),
}

/// Spec-level mirror of `tokens::Token`.
#[verifier::ext_equal]
pub ghost struct TokenView {
    pub line_number: int,
    pub name: Seq<char>,
    pub kind: TokensView,
    pub value: Seq<char>,
}

pub open spec fn token_view(
    line_number: usize,
    name: Seq<char>,
    kind: TokensView,
    value: Seq<char>,
) -> TokenView {
    TokenView { line_number: line_number as int, name, kind, value }
}

/// The length of the longest prefix of `line` made of copies of `c`.
pub open spec fn leading_run(line: Seq<char>, c: char) -> nat
    decreases line.len(),
{
    if line.len() == 0 || line[0] != c {
        0
    } else {
        (1 + leading_run(line.skip(1), c)) as nat
    }
}

/// `leading_run` is the unique cut `n` with only `c` before it and, if
/// anything follows it, something other than `c` right after it.
pub proof fn lemma_leading_run_is(line: Seq<char>, c: char, n: nat)
    requires
        n <= line.len(),
        forall|j: int| 0 <= j < n ==> line[j] == c,
        n < line.len() ==> line[n as int] != c,
    ensures
        leading_run(line, c) == n,
    decreases n,
{
    if n == 0 {
    } else {
        assert(line[0] == c);
        let rest = line.skip(1);
        assert(forall|j: int| 0 <= j < n - 1 ==> rest[j] == c);
        lemma_leading_run_is(rest, c, (n - 1) as nat);
    }
}

/// Every position before `leading_run(line, c)` holds `c`, and the run
/// never exceeds the line.
pub proof fn lemma_leading_run_bounds(line: Seq<char>, c: char)
    ensures
        leading_run(line, c) <= line.len(),
        forall|j: int| 0 <= j < leading_run(line, c) ==> line[j] == c,
    decreases line.len(),
{
    if line.len() == 0 || line[0] != c {
    } else {
        let rest = line.skip(1);
        lemma_leading_run_bounds(rest, c);
        assert forall|j: int| 0 <= j < leading_run(line, c) implies line[j] == c by {
            if j >= 1 {
                assert(line[j] == rest[j - 1]);
            }
        }
    }
}

pub open spec fn is_digit(c: char) -> bool {
    '0' as u32 <= c as u32 && c as u32 <= '9' as u32
}

/// An ordered-list line: more than three characters, and `". "` right
/// after the leading digit.
pub open spec fn is_ordered_list(line: Seq<char>) -> bool {
    line.len() > 3 && line[1] == '.' && line[2] == ' '
}

/// A horizontal-rule line for character `c`: exactly three characters,
/// all equal to `c`.
pub open spec fn is_horizontal_rule(line: Seq<char>, c: char) -> bool {
    line.len() == 3 && leading_run(line, c) == 3
}

/// A task-list line: it starts with the six characters `"- [ ] "`.
pub open spec fn is_task_list(line: Seq<char>) -> bool {
    line.len() >= 6 && line[0] == '-' && line[1] == ' ' && line[2] == '[' && line[3] == ' '
        && line[4] == ']' && line[5] == ' '
}

/// A generic code-fence opener: the line starts with three backticks.
pub open spec fn starts_with_fence(line: Seq<char>) -> bool {
    line.len() >= 3 && line[0] == '`' && line[1] == '`' && line[2] == '`'
}

/// A trailing line break: the line's last two characters are both spaces.
pub open spec fn ends_with_break(line: Seq<char>) -> bool {
    line.len() >= 2 && line[line.len() - 1] == ' ' && line[line.len() - 2] == ' '
}

/// What follows the two-character list marker; empty on lines too short
/// to carry it.
pub open spec fn list_tail(line: Seq<char>) -> Seq<char> {
    if line.len() >= 2 {
        line.skip(2)
    } else {
        Seq::empty()
    }
}

pub open spec fn heading_kind(k: int) -> TokensView {
    if k == 1 {
        TokensView::HeadingOne(heading_marker(1))
    } else if k == 2 {
        TokensView::HeadingTwo(heading_marker(2))
    } else if k == 3 {
        TokensView::HeadingThree(heading_marker(3))
    } else if k == 4 {
        TokensView::HeadingFour(heading_marker(4))
    } else if k == 5 {
        TokensView::HeadingFive(heading_marker(5))
    } else {
        TokensView::HeadingSix(heading_marker(6))
    }
}

/// The marker carried by an ordered-list token: the line's actual leading
/// digit, then `". "`.
pub open spec fn ordered_marker(line: Seq<char>) -> Seq<char> {
    seq![line[0], '.', ' ']
}

pub open spec fn empty_line_tokens(line_number: usize) -> Seq<TokenView> {
    seq![
        token_view(
            line_number,
            "empty_line"@,
            TokensView::EmptyLine(Seq::empty()),
            Seq::empty(),
        ),
    ]
}

pub open spec fn text_tokens(line_number: usize, line: Seq<char>) -> Seq<TokenView> {
    seq![token_view(line_number, "text"@, TokensView::Text(line), line)]
}

/// Lines whose first character is `#`: headings of level 1..=6 keep the
/// whole line as their value; a deeper run of `#` emits nothing.
pub open spec fn hash_tokens(line_number: usize, line: Seq<char>) -> Seq<TokenView> {
    let k = leading_run(line, '#') as int;
    if k <= 6 {
        seq![token_view(line_number, heading_label(k), heading_kind(k), line)]
    } else {
        Seq::empty()
    }
}

/// Lines whose first character is a decimal digit: an ordered-list item
/// when `". "` follows, plain text otherwise.
pub open spec fn digit_tokens(line_number: usize, line: Seq<char>) -> Seq<TokenView> {
    if is_ordered_list(line) {
        seq![
            token_view(
                line_number,
                "Ordered List"@,
                TokensView::OrderedListNumber(ordered_marker(line)),
                line,
            ),
        ]
    } else {
        text_tokens(line_number, line)
    }
}

/// Lines whose first character is `-`: a horizontal rule, a task-list
/// item, or an unordered-list item, in that order of precedence.
pub open spec fn hyphen_tokens(line_number: usize, line: Seq<char>) -> Seq<TokenView> {
    if is_horizontal_rule(line, '-') {
        seq![
            token_view(
                line_number,
                "horizontal_rule_hyphen"@,
                TokensView::HorizontalRuleHyphen("---"@),
                "---"@,
            ),
        ]
    } else if is_task_list(line) {
        seq![token_view(line_number, "task_list"@, TokensView::TaskList("- [ ] "@), line)]
    } else {
        seq![
            token_view(
                line_number,
                "unordered_list_hyphen"@,
                TokensView::UnorderedListHyphen("- "@),
                "- "@ + list_tail(line),
            ),
        ]
    }
}

/// Lines whose first character is `*`: only the exact triple-asterisk
/// rule emits a token.
pub open spec fn asterisk_tokens(line_number: usize, line: Seq<char>) -> Seq<TokenView> {
    if is_horizontal_rule(line, '*') {
        seq![
            token_view(
                line_number,
                "horizontal_rule_asterisk"@,
                TokensView::HorizontalRuleAsterisk("***"@),
                "***"@,
            ),
        ]
    } else {
        Seq::empty()
    }
}

/// Lines whose first character is `_`: only the exact triple-underscore
/// rule emits a token.
pub open spec fn underscore_tokens(line_number: usize, line: Seq<char>) -> Seq<TokenView> {
    if is_horizontal_rule(line, '_') {
        seq![
            token_view(
                line_number,
                "horizontal_rule_underscore"@,
                TokensView::HorizontalRuleUnderscore("___"@),
                "___"@,
            ),
        ]
    } else {
        Seq::empty()
    }
}

/// Lines whose first character is `:`: a definition-list marker when a
/// space follows; the remainder of the line is dropped, not reattached.
pub open spec fn colon_tokens(line_number: usize, line: Seq<char>) -> Seq<TokenView> {
    if line.len() >= 2 && line[1] == ' ' {
        seq![
            token_view(
                line_number,
                "definition_list"@,
                TokensView::DefinitionList(": "@),
                ": "@,
            ),
        ]
    } else {
        Seq::empty()
    }
}

/// Lines whose first character is `>`: a blockquote marker when a space
/// follows; the remainder of the line is dropped, not reattached.
pub open spec fn quote_tokens(line_number: usize, line: Seq<char>) -> Seq<TokenView> {
    if line.len() >= 2 && line[1] == ' ' {
        seq![token_view(line_number, "blockquote"@, TokensView::Blockquote("> "@), "> "@)]
    } else {
        Seq::empty()
    }
}

/// Lines whose first character is a backtick: the reserved fence
/// literals are checked first, then any other triple-backtick opener
/// becomes a generic code block keeping the whole line as its value.
pub open spec fn backtick_tokens(line_number: usize, line: Seq<char>) -> Seq<TokenView> {
    if line == c_block_fence() {
        seq![token_view(line_number, "c_block"@, TokensView::CBlock(c_block_fence()), line)]
    } else if line == markdown_block_fence() {
        seq![
            token_view(
                line_number,
                "markdown_block"@,
                TokensView::MarkdownBlock(markdown_block_fence()),
                line,
            ),
        ]
    } else if line == code_block_fence() {
        seq![
            token_view(
                line_number,
                "code_block"@,
                TokensView::CodeBlock(code_block_fence()),
                line,
            ),
        ]
    } else if starts_with_fence(line) {
        seq![
            token_view(
                line_number,
                "general_code_block"@,
                TokensView::CodeBlock("```"@),
                line,
            ),
        ]
    } else {
        Seq::empty()
    }
}

/// Lines opened by any other character: a trailing double space splits
/// the line into a text token and a line-break token; otherwise the whole
/// line is one text token.
pub open spec fn fallback_tokens(line_number: usize, line: Seq<char>) -> Seq<TokenView> {
    if ends_with_break(line) {
        let body = line.take(line.len() - 2);
        seq![
            token_view(line_number, "text"@, TokensView::Text(body), body),
            token_view(line_number, "line_break"@, TokensView::LineBreak("  "@), "  "@),
        ]
    } else {
        text_tokens(line_number, line)
    }
}

/// The tokens classification emits for one line: a dispatch over the
/// line's first character.
pub open spec fn lex_spec(line_number: usize, line: Seq<char>) -> Seq<TokenView> {
    if line.len() == 0 {
        empty_line_tokens(line_number)
    } else {
        let c = line[0];
        if c == '#' {
            hash_tokens(line_number, line)
        } else if is_digit(c) {
            digit_tokens(line_number, line)
        } else if c == '-' {
            hyphen_tokens(line_number, line)
        } else if c == '*' {
            asterisk_tokens(line_number, line)
        } else if c == '_' {
            underscore_tokens(line_number, line)
        } else if c == ':' {
            colon_tokens(line_number, line)
        } else if c == '>' {
            quote_tokens(line_number, line)
        } else if c == '`' {
            backtick_tokens(line_number, line)
        } else {
            fallback_tokens(line_number, line)
        }
    }
}

} // verus!
