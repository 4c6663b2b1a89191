//! The token vocabulary: one closed tagged union covering every line
//! shape the classifier recognizes, and the token record it emits.

use vstd::prelude::*;

use crate::model::{TokenView, TokensView};

verus! {

/// Every recognizable line shape. Each variant except `Text` carries its
/// canonical marker string (for ordered lists, the actual leading digit
/// plus `". "`); `Text` carries the text itself.
#[derive(Debug, PartialEq, Eq)]
pub enum Tokens {
    HeadingOne(String),
    HeadingTwo(String),
    HeadingThree(String),
    HeadingFour(String),
    HeadingFive(String),
    HeadingSix(String),
    OrderedListNumber(String),
    UnorderedListHyphen(String),
    TaskList(String),
    DefinitionList(String),
    Blockquote(String),
    HorizontalRuleHyphen(String),
    HorizontalRuleAsterisk(String),
    HorizontalRuleUnderscore(String),
    CBlock(String),
    MarkdownBlock(String),
    CodeBlock(String),
    EmptyLine(String),
    LineBreak(String),
    Text(String),
}

impl View for Tokens {
    type V = TokensView;

    open spec fn view(&self) -> TokensView {
        match self {
            Tokens::HeadingOne(s) => TokensView::HeadingOne(s@),
            Tokens::HeadingTwo(s) => TokensView::HeadingTwo(s@),
            Tokens::HeadingThree(s) => TokensView::HeadingThree(s@),
            Tokens::HeadingFour(s) => TokensView::HeadingFour(s@),
            Tokens::HeadingFive(s) => TokensView::HeadingFive(s@),
            Tokens::HeadingSix(s) => TokensView::HeadingSix(s@),
            Tokens::OrderedListNumber(s) => TokensView::OrderedListNumber(s@),
            Tokens::UnorderedListHyphen(s) => TokensView::UnorderedListHyphen(s@),
            Tokens::TaskList(s) => TokensView::TaskList(s@),
            Tokens::DefinitionList(s) => TokensView::DefinitionList(s@),
            Tokens::Blockquote(s) => TokensView::Blockquote(s@),
            Tokens::HorizontalRuleHyphen(s) => TokensView::HorizontalRuleHyphen(s@),
            Tokens::HorizontalRuleAsterisk(s) => TokensView::HorizontalRuleAsterisk(s@),
            Tokens::HorizontalRuleUnderscore(s) => TokensView::HorizontalRuleUnderscore(s@),
            Tokens::CBlock(s) => TokensView::CBlock(s@),
            Tokens::MarkdownBlock(s) => TokensView::MarkdownBlock(s@),
            Tokens::CodeBlock(s) => TokensView::CodeBlock(s@),
            Tokens::EmptyLine(s) => TokensView::EmptyLine(s@),
            Tokens::LineBreak(s) => TokensView::LineBreak(s@),
            Tokens::Text(s) => TokensView::Text(s@),
        }
    }
}

impl DeepView for Tokens {
    type V = TokensView;

    open spec fn deep_view(&self) -> TokensView {
        self.view()
    }
}

/// One classified unit: the 1-based source line number, a short
/// descriptive label, the structural kind, and the reconstructed text
/// the token stands for.
#[derive(Debug, PartialEq, Eq)]
pub struct Token {
    pub line_number: usize,
    pub name: String,
    pub kind: Tokens,
    pub value: String,
}

impl View for Token {
    type V = TokenView;

    open spec fn view(&self) -> TokenView {
        TokenView {
            line_number: self.line_number as int,
            name: self.name@,
            kind: self.kind@,
            value: self.value@,
        }
    }
}

impl DeepView for Token {
    type V = TokenView;

    open spec fn deep_view(&self) -> TokenView {
        self.view()
    }
}

} // verus!
