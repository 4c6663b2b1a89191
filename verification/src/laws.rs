//! Classification laws, proved once and for all against the model.

use vstd::prelude::*;

use crate::literals::{char_repeat, heading_label, lemma_char_repeat_index};
use crate::model::{heading_kind, is_digit, is_horizontal_rule, is_task_list, leading_run,
    lemma_leading_run_bounds, lemma_leading_run_is, lex_spec, list_tail, token_view, TokenView,
    TokensView};

verus! {

/// The concatenation of the tokens' `value` fields, in emission order.
pub open spec fn values_concat(ts: Seq<TokenView>) -> Seq<char>
    decreases ts.len(),
{
    if ts.len() == 0 {
        Seq::empty()
    } else {
        ts[0].value + values_concat(ts.skip(1))
    }
}

proof fn lemma_values_concat_singleton(ts: Seq<TokenView>)
    requires
        ts.len() == 1,
    ensures
        values_concat(ts) == ts[0].value,
{
    assert(values_concat(ts.skip(1)) =~= Seq::empty());
    assert(values_concat(ts) =~= ts[0].value);
}

proof fn lemma_values_concat_pair(ts: Seq<TokenView>)
    requires
        ts.len() == 2,
    ensures
        values_concat(ts) == ts[0].value + ts[1].value,
{
    lemma_values_concat_singleton(ts.skip(1));
    assert(values_concat(ts) =~= ts[0].value + ts[1].value);
}

/// An empty line yields exactly one `EmptyLine` token, with an empty
/// value and the line's number.
pub proof fn lemma_empty_line(line_number: usize, line: Seq<char>)
    requires
        line.len() == 0,
    ensures
        lex_spec(line_number, line).len() == 1,
        lex_spec(line_number, line)[0].kind == TokensView::EmptyLine(Seq::<char>::empty()),
        lex_spec(line_number, line)[0].value == Seq::<char>::empty(),
        lex_spec(line_number, line)[0].line_number == line_number as int,
{
}

/// A line of exactly `k` leading `#` characters (1 <= k <= 6) followed
/// by a space and a body yields one heading token of level `k` whose
/// value is the whole line.
pub proof fn lemma_heading(line_number: usize, line: Seq<char>, k: nat, body: Seq<char>)
    requires
        1 <= k <= 6,
        line == char_repeat('#', k as int).push(' ') + body,
    ensures
        lex_spec(line_number, line) == seq![
            token_view(line_number, heading_label(k as int), heading_kind(k as int), line),
        ],
{
    lemma_char_repeat_index('#', k as int);
    let prefix = char_repeat('#', k as int).push(' ');
    assert forall|j: int| 0 <= j < k implies line[j] == '#' by {
        assert(line[j] == prefix[j]);
    }
    assert(line[k as int] == prefix[k as int]);
    assert(line[k as int] == ' ');
    lemma_leading_run_is(line, '#', k);
    assert(lex_spec(line_number, line) =~= seq![
        token_view(line_number, heading_label(k as int), heading_kind(k as int), line),
    ]);
}

/// A line `"<digit>. <rest>"` longer than three characters yields one
/// ordered-list token carrying that digit, whose value is the whole
/// line.
pub proof fn lemma_ordered_list(line_number: usize, line: Seq<char>)
    requires
        line.len() > 3,
        is_digit(line[0]),
        line[1] == '.',
        line[2] == ' ',
    ensures
        lex_spec(line_number, line) == seq![
            token_view(
                line_number,
                "Ordered List"@,
                TokensView::OrderedListNumber(seq![line[0], '.', ' ']),
                line,
            ),
        ],
{
    assert(lex_spec(line_number, line) =~= seq![
        token_view(
            line_number,
            "Ordered List"@,
            TokensView::OrderedListNumber(seq![line[0], '.', ' ']),
            line,
        ),
    ]);
}

pub open spec fn is_horizontal_rule_kind(k: TokensView) -> bool {
    ||| k is HorizontalRuleHyphen
    ||| k is HorizontalRuleAsterisk
    ||| k is HorizontalRuleUnderscore
}

/// The horizontal-rule token belonging to the rule character `c`.
pub open spec fn horizontal_rule_token(line_number: usize, c: char) -> TokenView {
    if c == '-' {
        token_view(
            line_number,
            "horizontal_rule_hyphen"@,
            TokensView::HorizontalRuleHyphen("---"@),
            "---"@,
        )
    } else if c == '*' {
        token_view(
            line_number,
            "horizontal_rule_asterisk"@,
            TokensView::HorizontalRuleAsterisk("***"@),
            "***"@,
        )
    } else {
        token_view(
            line_number,
            "horizontal_rule_underscore"@,
            TokensView::HorizontalRuleUnderscore("___"@),
            "___"@,
        )
    }
}

/// A line made of three or more copies of a rule character yields the
/// corresponding horizontal-rule token exactly when its length is
/// exactly three; a longer run yields no horizontal-rule token at all.
pub proof fn lemma_horizontal_rule_boundary(line_number: usize, line: Seq<char>, c: char)
    requires
        c == '-' || c == '*' || c == '_',
        line.len() >= 3,
        forall|j: int| 0 <= j < line.len() ==> line[j] == c,
    ensures
        line.len() == 3 ==> lex_spec(line_number, line) == seq![
            horizontal_rule_token(line_number, c),
        ],
        line.len() > 3 ==> forall|i: int|
            0 <= i < lex_spec(line_number, line).len() ==> !is_horizontal_rule_kind(
                #[trigger] lex_spec(line_number, line)[i].kind,
            ),
{
    lemma_leading_run_is(line, c, line.len());
    if line.len() == 3 {
        assert(lex_spec(line_number, line) =~= seq![horizontal_rule_token(line_number, c)]);
    }
}

/// Round trip: concatenating the emitted values in emission order
/// rebuilds the line, on every line that yields at least one token and
/// whose branch keeps the line's content. Left out, because those
/// branches drop or normalize content by design: definition-list and
/// blockquote lines (only the two-character marker is kept), and
/// unordered-list lines whose second character is not a space (the
/// marker is normalized to `"- "`).
pub proof fn lemma_round_trip(line_number: usize, line: Seq<char>)
    requires
        lex_spec(line_number, line).len() > 0,
        line.len() > 0 ==> line[0] != ':' && line[0] != '>',
        (line.len() > 0 && line[0] == '-' && !is_horizontal_rule(line, '-') && !is_task_list(
            line,
        )) ==> line.len() >= 2 && line[1] == ' ',
    ensures
        values_concat(lex_spec(line_number, line)) == line,
{
    let ts = lex_spec(line_number, line);
    if line.len() == 0 {
        lemma_values_concat_singleton(ts);
        assert(values_concat(ts) =~= line);
    } else {
        let c = line[0];
        if c == '#' {
            assert(leading_run(line, '#') <= 6) by {
                if leading_run(line, '#') > 6 {
                    assert(ts.len() == 0);
                }
            }
            lemma_values_concat_singleton(ts);
        } else if is_digit(c) {
            lemma_values_concat_singleton(ts);
        } else if c == '-' {
            lemma_values_concat_singleton(ts);
            if is_horizontal_rule(line, '-') {
                reveal_strlit("---");
                lemma_leading_run_bounds(line, '-');
                assert(ts[0].value =~= line);
            } else if is_task_list(line) {
            } else {
                reveal_strlit("- ");
                assert(("- "@ + list_tail(line)) =~= line);
            }
        } else if c == '*' {
            lemma_values_concat_singleton(ts);
            reveal_strlit("***");
            lemma_leading_run_bounds(line, '*');
            assert(ts[0].value =~= line);
        } else if c == '_' {
            lemma_values_concat_singleton(ts);
            reveal_strlit("___");
            lemma_leading_run_bounds(line, '_');
            assert(ts[0].value =~= line);
        } else if c == '`' {
            lemma_values_concat_singleton(ts);
        } else {
            if ts.len() == 2 {
                lemma_values_concat_pair(ts);
                reveal_strlit("  ");
                assert((line.take(line.len() - 2) + "  "@) =~= line);
            } else {
                lemma_values_concat_singleton(ts);
            }
        }
    }
}

} // verus!
