use mdlex::lexer::{lex, lex_element_text, lex_text};
use mdlex::tokens::{Token, Tokens};

fn classify(line: &str) -> Vec<Token> {
    let mut tokens: Vec<Token> = Vec::new();
    lex(1, line, &mut tokens);
    tokens
}

#[test]
fn empty_line_yields_one_empty_line_token() {
    let tokens = classify("");
    assert_eq!(tokens.len(), 1);
    assert!(matches!(tokens[0].kind, Tokens::EmptyLine(_)));
    assert_eq!(tokens[0].value, "");
    assert_eq!(tokens[0].name, "empty_line");
    assert_eq!(tokens[0].line_number, 1);
}

#[test]
fn heading_one() {
    let tokens = classify("# Title");
    assert_eq!(tokens.len(), 1);
    match &tokens[0].kind {
        Tokens::HeadingOne(marker) => assert_eq!(marker, "# "),
        other => panic!("expected a level-1 heading, got {:?}", other),
    }
    assert_eq!(tokens[0].value, "# Title");
    assert_eq!(tokens[0].name, "h1");
}

#[test]
fn heading_levels_two_to_five() {
    let cases = [
        ("## Two", "## ", "h2"),
        ("### Three", "### ", "h3"),
        ("#### Four", "#### ", "h4"),
        ("##### Five", "##### ", "h5"),
    ];
    for (line, marker, name) in cases.iter() {
        let tokens = classify(line);
        assert_eq!(tokens.len(), 1);
        let found = match &tokens[0].kind {
            Tokens::HeadingTwo(m) => m,
            Tokens::HeadingThree(m) => m,
            Tokens::HeadingFour(m) => m,
            Tokens::HeadingFive(m) => m,
            other => panic!("expected a heading, got {:?}", other),
        };
        assert_eq!(found, marker);
        assert_eq!(&tokens[0].value, line);
        assert_eq!(&tokens[0].name, name);
    }
}

#[test]
fn heading_six_marker_has_no_trailing_space() {
    let tokens = classify("###### deep");
    assert_eq!(tokens.len(), 1);
    match &tokens[0].kind {
        Tokens::HeadingSix(marker) => assert_eq!(marker, "######"),
        other => panic!("expected a level-6 heading, got {:?}", other),
    }
    assert_eq!(tokens[0].value, "###### deep");
}

#[test]
fn heading_beyond_six_hashes_yields_nothing() {
    assert_eq!(classify("####### too deep").len(), 0);
    assert_eq!(classify("#######").len(), 0);
}

#[test]
fn heading_without_space_keeps_line_as_value() {
    let tokens = classify("#intro");
    assert_eq!(tokens.len(), 1);
    assert!(matches!(tokens[0].kind, Tokens::HeadingOne(_)));
    assert_eq!(tokens[0].value, "#intro");
}

#[test]
fn ordered_list_carries_actual_digit() {
    let tokens = classify("1. first");
    assert_eq!(tokens.len(), 1);
    match &tokens[0].kind {
        Tokens::OrderedListNumber(marker) => assert_eq!(marker, "1. "),
        other => panic!("expected an ordered-list item, got {:?}", other),
    }
    assert_eq!(tokens[0].value, "1. first");
    assert_eq!(tokens[0].name, "Ordered List");

    let tokens = classify("9. last");
    match &tokens[0].kind {
        Tokens::OrderedListNumber(marker) => assert_eq!(marker, "9. "),
        other => panic!("expected an ordered-list item, got {:?}", other),
    }
}

#[test]
fn ordered_list_needs_more_than_three_characters() {
    let tokens = classify("1. ");
    assert_eq!(tokens.len(), 1);
    assert!(matches!(tokens[0].kind, Tokens::Text(_)));
    assert_eq!(tokens[0].value, "1. ");
}

#[test]
fn two_digit_number_is_plain_text() {
    let tokens = classify("12. item");
    assert_eq!(tokens.len(), 1);
    assert!(matches!(tokens[0].kind, Tokens::Text(_)));
    assert_eq!(tokens[0].value, "12. item");
}

#[test]
fn horizontal_rules_match_exactly_three() {
    let tokens = classify("---");
    assert_eq!(tokens.len(), 1);
    assert!(matches!(tokens[0].kind, Tokens::HorizontalRuleHyphen(_)));
    assert_eq!(tokens[0].value, "---");

    let tokens = classify("***");
    assert_eq!(tokens.len(), 1);
    assert!(matches!(tokens[0].kind, Tokens::HorizontalRuleAsterisk(_)));
    assert_eq!(tokens[0].value, "***");

    let tokens = classify("___");
    assert_eq!(tokens.len(), 1);
    assert!(matches!(tokens[0].kind, Tokens::HorizontalRuleUnderscore(_)));
    assert_eq!(tokens[0].value, "___");
}

#[test]
fn four_rule_characters_yield_no_rule_token() {
    let tokens = classify("----");
    assert_eq!(tokens.len(), 1);
    assert!(matches!(tokens[0].kind, Tokens::UnorderedListHyphen(_)));
    assert_eq!(tokens[0].value, "- --");

    assert_eq!(classify("****").len(), 0);
    assert_eq!(classify("____").len(), 0);
}

#[test]
fn lone_asterisk_or_underscore_yields_nothing() {
    assert_eq!(classify("*emphasis*").len(), 0);
    assert_eq!(classify("_x_").len(), 0);
}

#[test]
fn task_list_line() {
    let tokens = classify("- [ ] buy milk");
    assert_eq!(tokens.len(), 1);
    match &tokens[0].kind {
        Tokens::TaskList(marker) => assert_eq!(marker, "- [ ] "),
        other => panic!("expected a task-list item, got {:?}", other),
    }
    assert_eq!(tokens[0].value, "- [ ] buy milk");
    assert_eq!(tokens[0].name, "task_list");
}

#[test]
fn unordered_list_line() {
    let tokens = classify("- item");
    assert_eq!(tokens.len(), 1);
    match &tokens[0].kind {
        Tokens::UnorderedListHyphen(marker) => assert_eq!(marker, "- "),
        other => panic!("expected an unordered-list item, got {:?}", other),
    }
    assert_eq!(tokens[0].value, "- item");
    assert_eq!(tokens[0].name, "unordered_list_hyphen");
}

#[test]
fn short_hyphen_lines_normalize_to_bare_marker() {
    let tokens = classify("-");
    assert_eq!(tokens.len(), 1);
    assert!(matches!(tokens[0].kind, Tokens::UnorderedListHyphen(_)));
    assert_eq!(tokens[0].value, "- ");

    let tokens = classify("-x");
    assert_eq!(tokens[0].value, "- ");
}

#[test]
fn definition_list_keeps_only_marker() {
    let tokens = classify(": term");
    assert_eq!(tokens.len(), 1);
    assert!(matches!(tokens[0].kind, Tokens::DefinitionList(_)));
    assert_eq!(tokens[0].value, ": ");
    assert_eq!(tokens[0].name, "definition_list");

    assert_eq!(classify(":term").len(), 0);
}

#[test]
fn blockquote_keeps_only_marker() {
    let tokens = classify("> quoted");
    assert_eq!(tokens.len(), 1);
    assert!(matches!(tokens[0].kind, Tokens::Blockquote(_)));
    assert_eq!(tokens[0].value, "> ");
    assert_eq!(tokens[0].name, "blockquote");

    assert_eq!(classify(">quoted").len(), 0);
}

#[test]
fn reserved_fence_literals() {
    let tokens = classify("```c");
    assert_eq!(tokens.len(), 1);
    match &tokens[0].kind {
        Tokens::CBlock(marker) => assert_eq!(marker, "```c"),
        other => panic!("expected a C block fence, got {:?}", other),
    }
    assert_eq!(tokens[0].value, "```c");

    let tokens = classify("```markdown");
    assert_eq!(tokens.len(), 1);
    assert!(matches!(tokens[0].kind, Tokens::MarkdownBlock(_)));
    assert_eq!(tokens[0].value, "```markdown");

    let tokens = classify("```");
    assert_eq!(tokens.len(), 1);
    assert!(matches!(tokens[0].kind, Tokens::CodeBlock(_)));
    assert_eq!(tokens[0].value, "```");
    assert_eq!(tokens[0].name, "code_block");
}

#[test]
fn generic_code_fence_keeps_whole_line() {
    let tokens = classify("```python");
    assert_eq!(tokens.len(), 1);
    match &tokens[0].kind {
        Tokens::CodeBlock(marker) => assert_eq!(marker, "```"),
        other => panic!("expected a code block, got {:?}", other),
    }
    assert_eq!(tokens[0].value, "```python");
    assert_eq!(tokens[0].name, "general_code_block");
}

#[test]
fn short_backtick_line_yields_nothing() {
    assert_eq!(classify("`code`").len(), 0);
    assert_eq!(classify("``").len(), 0);
}

#[test]
fn trailing_double_space_splits_text_and_line_break() {
    let tokens = classify("hello  ");
    assert_eq!(tokens.len(), 2);
    match &tokens[0].kind {
        Tokens::Text(text) => assert_eq!(text, "hello"),
        other => panic!("expected text, got {:?}", other),
    }
    assert_eq!(tokens[0].value, "hello");
    match &tokens[1].kind {
        Tokens::LineBreak(marker) => assert_eq!(marker, "  "),
        other => panic!("expected a line break, got {:?}", other),
    }
    assert_eq!(tokens[1].value, "  ");
    assert_eq!(tokens[1].name, "line_break");
}

#[test]
fn all_space_line_still_splits() {
    let tokens = classify("  ");
    assert_eq!(tokens.len(), 2);
    match &tokens[0].kind {
        Tokens::Text(text) => assert_eq!(text, ""),
        other => panic!("expected text, got {:?}", other),
    }
    assert!(matches!(tokens[1].kind, Tokens::LineBreak(_)));
}

#[test]
fn plain_text_passes_through() {
    let tokens = classify("just words");
    assert_eq!(tokens.len(), 1);
    match &tokens[0].kind {
        Tokens::Text(text) => assert_eq!(text, "just words"),
        other => panic!("expected text, got {:?}", other),
    }
    assert_eq!(tokens[0].value, "just words");
    assert_eq!(tokens[0].name, "text");

    let tokens = classify("one trailing space ");
    assert_eq!(tokens.len(), 1);
    assert_eq!(tokens[0].value, "one trailing space ");
}

#[test]
fn reclassifying_is_idempotent() {
    let lines = [
        "", "# Title", "1. first", "---", "----", "- [ ] buy milk", "- item", ": term",
        "> quoted", "```python", "hello  ", "plain",
    ];
    for (i, line) in lines.iter().enumerate() {
        let mut first: Vec<Token> = Vec::new();
        let mut second: Vec<Token> = Vec::new();
        lex(i + 1, line, &mut first);
        lex(i + 1, line, &mut second);
        assert_eq!(first, second);
    }
}

#[test]
fn round_trip_rebuilds_content_keeping_branches() {
    let lines = [
        "", "# Title", "###### deep", "#intro", "1. first", "12. item", "---", "***", "___",
        "- [ ] buy milk", "- item", "- ", "```c", "```markdown", "```", "```python",
        "hello  ", "plain",
    ];
    for line in lines.iter() {
        let tokens = classify(line);
        assert!(!tokens.is_empty());
        let rebuilt: String = tokens.iter().map(|t| t.value.as_str()).collect::<String>();
        assert_eq!(&rebuilt, line);
    }
}

#[test]
fn non_ascii_text_is_indexed_by_code_points() {
    let tokens = classify("café  ");
    assert_eq!(tokens.len(), 2);
    match &tokens[0].kind {
        Tokens::Text(text) => assert_eq!(text, "café"),
        other => panic!("expected text, got {:?}", other),
    }
    assert!(matches!(tokens[1].kind, Tokens::LineBreak(_)));

    let tokens = classify("naïve");
    assert_eq!(tokens.len(), 1);
    assert_eq!(tokens[0].value, "naïve");
}

#[test]
fn tokens_accumulate_across_lines() {
    let mut tokens: Vec<Token> = Vec::new();
    lex(1, "# Title", &mut tokens);
    lex(2, "", &mut tokens);
    lex(3, "body", &mut tokens);
    assert_eq!(tokens.len(), 3);
    assert_eq!(tokens[0].line_number, 1);
    assert_eq!(tokens[1].line_number, 2);
    assert_eq!(tokens[2].line_number, 3);
}

#[test]
fn lex_text_pushes_whole_line() {
    let mut tokens: Vec<Token> = Vec::new();
    lex_text(4, "anything at all", &mut tokens);
    assert_eq!(tokens.len(), 1);
    assert_eq!(tokens[0].line_number, 4);
    assert_eq!(tokens[0].value, "anything at all");
    assert!(matches!(tokens[0].kind, Tokens::Text(_)));
}

#[test]
fn lex_element_text_slices_from_offset() {
    assert_eq!(lex_element_text("## Two", 2), " Two");
    assert_eq!(lex_element_text("1. first", 3), "first");
    assert_eq!(lex_element_text("abc", 3), "");
    assert_eq!(lex_element_text("abc", 0), "abc");
}
