//! The literal table: canonical markers and reserved fence literals.
//!
//! Every token kind carries a canonical marker string. The classifier's
//! correctness depends on this table being internally consistent (marker
//! widths matching the heading levels, rules being exactly three
//! characters); that consistency is proved once and for all in
//! `lemma_literal_table_consistent` rather than re-checked at runtime.

use vstd::prelude::*;

verus! {

/// The reserved fence literal recognized as a C code block.
pub open spec fn c_block_fence() -> Seq<char> {
    "```c"@
}

/// The reserved fence literal recognized as a Markdown code block.
pub open spec fn markdown_block_fence() -> Seq<char> {
    "```markdown"@
}

/// The reserved fence literal recognized as a generic code block.
pub open spec fn code_block_fence() -> Seq<char> {
    "```"@
}

pub fn c_block_literal() -> (r: &'static str)
    ensures
        r@ == c_block_fence(),
{
    "```c"
}

pub fn markdown_block_literal() -> (r: &'static str)
    ensures
        r@ == markdown_block_fence(),
{
    "```markdown"
}

pub fn code_block_literal() -> (r: &'static str)
    ensures
        r@ == code_block_fence(),
{
    "```"
}

/// The canonical marker carried by a heading token of level `k`
/// (levels 1 through 5 carry a trailing space; level 6 does not).
pub open spec fn heading_marker(k: int) -> Seq<char> {
    if k == 1 {
        "# "@
    } else if k == 2 {
        "## "@
    } else if k == 3 {
        "### "@
    } else if k == 4 {
        "#### "@
    } else if k == 5 {
        "##### "@
    } else {
        "######"@
    }
}

/// The descriptive label carried by a heading token of level `k`.
pub open spec fn heading_label(k: int) -> Seq<char> {
    if k == 1 {
        "h1"@
    } else if k == 2 {
        "h2"@
    } else if k == 3 {
        "h3"@
    } else if k == 4 {
        "h4"@
    } else if k == 5 {
        "h5"@
    } else {
        "h6"@
    }
}

pub fn heading_marker_literal(level: usize) -> (r: &'static str)
    requires
        1 <= level <= 6,
    ensures
        r@ == heading_marker(level as int),
{
    if level == 1 {
        "# "
    } else if level == 2 {
        "## "
    } else if level == 3 {
        "### "
    } else if level == 4 {
        "#### "
    } else if level == 5 {
        "##### "
    } else {
        "######"
    }
}

pub fn heading_label_literal(level: usize) -> (r: &'static str)
    requires
        1 <= level <= 6,
    ensures
        r@ == heading_label(level as int),
{
    if level == 1 {
        "h1"
    } else if level == 2 {
        "h2"
    } else if level == 3 {
        "h3"
    } else if level == 4 {
        "h4"
    } else if level == 5 {
        "h5"
    } else {
        "h6"
    }
}

/// A sequence of `n` copies of the character `c`.
pub open spec fn char_repeat(c: char, n: int) -> Seq<char>
    decreases n,
{
    if n <= 0 {
        Seq::empty()
    } else {
        char_repeat(c, n - 1).push(c)
    }
}

pub proof fn lemma_char_repeat_index(c: char, n: int)
    ensures
        char_repeat(c, n).len() == if n <= 0 { 0int } else { n },
        forall|j: int| 0 <= j < n ==> char_repeat(c, n)[j] == c,
    decreases n,
{
    if n > 0 {
        lemma_char_repeat_index(c, n - 1);
    }
}

/// The repeated-`#` prefix of a heading line of level `level`.
pub fn hashes_literal(level: usize) -> (r: &'static str)
    requires
        1 <= level <= 6,
    ensures
        r@ == char_repeat('#', level as int),
{
    proof {
        reveal_with_fuel(char_repeat, 8);
        reveal_strlit("#");
        reveal_strlit("##");
        reveal_strlit("###");
        reveal_strlit("####");
        reveal_strlit("#####");
        reveal_strlit("######");
        assert("#"@ =~= char_repeat('#', 1));
        assert("##"@ =~= char_repeat('#', 2));
        assert("###"@ =~= char_repeat('#', 3));
        assert("####"@ =~= char_repeat('#', 4));
        assert("#####"@ =~= char_repeat('#', 5));
        assert("######"@ =~= char_repeat('#', 6));
    }
    if level == 1 {
        "#"
    } else if level == 2 {
        "##"
    } else if level == 3 {
        "###"
    } else if level == 4 {
        "####"
    } else if level == 5 {
        "#####"
    } else {
        "######"
    }
}

/// Consistency of the literal table: each heading marker of level 1..=5 is
/// exactly that many `#` characters followed by one space, the level-6
/// marker is exactly six `#` characters, and each horizontal-rule literal
/// is exactly three copies of its character.
pub proof fn lemma_literal_table_consistent()
    ensures
        forall|k: int| 1 <= k <= 5 ==> heading_marker(k) == char_repeat('#', k).push(' '),
        heading_marker(6) == char_repeat('#', 6),
        "---"@ == char_repeat('-', 3),
        "***"@ == char_repeat('*', 3),
        "___"@ == char_repeat('_', 3),
        "- [ ] "@ == seq!['-', ' ', '[', ' ', ']', ' '],
{
    reveal_with_fuel(char_repeat, 8);
    reveal_strlit("# ");
    reveal_strlit("## ");
    reveal_strlit("### ");
    reveal_strlit("#### ");
    reveal_strlit("##### ");
    reveal_strlit("######");
    reveal_strlit("---");
    reveal_strlit("***");
    reveal_strlit("___");
    reveal_strlit("- [ ] ");
    assert(heading_marker(1) =~= char_repeat('#', 1).push(' '));
    assert(heading_marker(2) =~= char_repeat('#', 2).push(' '));
    assert(heading_marker(3) =~= char_repeat('#', 3).push(' '));
    assert(heading_marker(4) =~= char_repeat('#', 4).push(' '));
    assert(heading_marker(5) =~= char_repeat('#', 5).push(' '));
    assert(heading_marker(6) =~= char_repeat('#', 6));
    assert("---"@ =~= char_repeat('-', 3));
    assert("***"@ =~= char_repeat('*', 3));
    assert("___"@ =~= char_repeat('_', 3));
    assert("- [ ] "@ =~= seq!['-', ' ', '[', ' ', ']', ' ']);
    assert(forall|k: int| 1 <= k <= 5 ==> heading_marker(k) == char_repeat('#', k).push(' '));
}

} // verus!
