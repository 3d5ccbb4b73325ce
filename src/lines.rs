use vstd::prelude::*;
use crate::operations::{
    definition_line, definition_lines, definitions_text, lines_text, synonyms_text,
};

verus! {

/// The index of the first `c` in `s`, or its length if there is none.
pub open spec fn first_index(s: Seq<char>, c: char) -> int
    decreases s.len(),
{
    if s.len() == 0 {
        0
    } else if s[0] == c {
        0
    } else {
        1 + first_index(s.drop_first(), c)
    }
}

/// The lines of a text, each without its terminating newline.
pub open spec fn split_lines(text: Seq<char>) -> Seq<Seq<char>>
    decreases text.len(),
{
    if text.len() == 0 {
        Seq::empty()
    } else {
        let i = first_index(text, '\n');
        if 0 <= i < text.len() {
            seq![text.take(i)] + split_lines(text.skip(i + 1))
        } else {
            seq![text]
        }
    }
}

/// The (definition, part of speech) pair read back from a `(<pos>) <text>` line.
pub open spec fn definition_pair(line: Seq<char>) -> (Seq<char>, Seq<char>) {
    let j = first_index(line.drop_first(), ')');
    (line.skip(j + 3), line.subrange(1, j + 1))
}

/// Whether `c` does not occur in `s`.
pub open spec fn lacks(s: Seq<char>, c: char) -> bool {
    forall|k: int| 0 <= k < s.len() ==> s[k] != c
}

/// The header of rendered synonyms.
pub open spec fn synonyms_header(word: Seq<char>) -> Seq<char> {
    "Synonyms for '"@ + word + "':\n\n"@
}

/// The header of rendered definitions.
pub open spec fn definitions_header(word: Seq<char>) -> Seq<char> {
    "Definitions for '"@ + word + "':\n\n"@
}

proof fn lemma_first_index(a: Seq<char>, c: char, rest: Seq<char>)
    requires
        lacks(a, c),
    ensures
        first_index(a + seq![c] + rest, c) == a.len(),
    decreases a.len(),
{
    let s = a + seq![c] + rest;
    if a.len() == 0 {
        assert(s[0] == c);
    } else {
        assert(s.drop_first() =~= a.drop_first() + seq![c] + rest);
        lemma_first_index(a.drop_first(), c, rest);
    }
}

proof fn lemma_lines_text_first(items: Seq<Seq<char>>)
    requires
        items.len() > 0,
    ensures
        lines_text(items) == items[0] + seq!['\n'] + lines_text(items.drop_first()),
    decreases items.len(),
{
    if items.len() == 1 {
        assert(items.drop_last() =~= Seq::<Seq<char>>::empty());
        assert(items.drop_first() =~= Seq::<Seq<char>>::empty());
        assert(lines_text(items) =~= items[0] + seq!['\n'] + lines_text(items.drop_first()));
    } else {
        lemma_lines_text_first(items.drop_last());
        assert(items.drop_first().drop_last() =~= items.drop_last().drop_first());
        assert(lines_text(items) =~= items[0] + seq!['\n'] + lines_text(items.drop_first()));
    }
}

/// Splitting newline-terminated lines gives back the lines, when none holds a newline.
proof fn lemma_split_lines_text(items: Seq<Seq<char>>)
    requires
        forall|i: int| 0 <= i < items.len() ==> lacks(#[trigger] items[i], '\n'),
    ensures
        split_lines(lines_text(items)) == items,
    decreases items.len(),
{
    if items.len() > 0 {
        lemma_lines_text_first(items);
        let rest = lines_text(items.drop_first());
        let text = lines_text(items);
        lemma_first_index(items[0], '\n', rest);
        assert(text.take(items[0].len() as int) =~= items[0]);
        assert(text.skip(items[0].len() as int + 1) =~= rest);
        lemma_split_lines_text(items.drop_first());
        assert(split_lines(text) =~= items);
    }
}

/// Rendering synonyms and then reading the lines after the header gives back
/// the synonyms in order, when no synonym holds a newline.
pub proof fn lemma_synonyms_read_back(word: Seq<char>, synonyms: Seq<Seq<char>>)
    requires
        synonyms.len() > 0,
        forall|i: int| 0 <= i < synonyms.len() ==> lacks(#[trigger] synonyms[i], '\n'),
    ensures
        ({
            let text = synonyms_text(word, synonyms);
            let head = synonyms_header(word);
            text.take(head.len() as int) == head && split_lines(text.skip(head.len() as int))
                == synonyms
        }),
{
    let text = synonyms_text(word, synonyms);
    let head = synonyms_header(word);
    assert(text.take(head.len() as int) =~= head);
    assert(text.skip(head.len() as int) =~= lines_text(synonyms));
    lemma_split_lines_text(synonyms);
}

proof fn lemma_definition_line(d: Seq<char>, p: Seq<char>)
    requires
        lacks(p, ')'),
        lacks(p, '\n'),
        lacks(d, '\n'),
    ensures
        lacks(definition_line(p, d), '\n'),
        definition_pair(definition_line(p, d)) == (d, p),
{
    reveal_strlit(") ");
    let line = definition_line(p, d);
    assert(line.drop_first() =~= p + seq![')'] + (seq![' '] + d));
    lemma_first_index(p, ')', seq![' '] + d);
    assert(line.skip(p.len() as int + 3) =~= d);
    assert(line.subrange(1, p.len() as int + 1) =~= p);
    assert forall|k: int| 0 <= k < line.len() implies line[k] != '\n' by {
        if k == 0 {
        } else if k < p.len() + 1 {
            assert(line[k] == p[k - 1]);
        } else if k < p.len() + 3 {
        } else {
            assert(line[k] == d[k - p.len() - 3]);
        }
    }
}

/// Rendering definitions and then reading a `(<pos>) <text>` pair from each
/// line after the header gives back the definitions in order, an empty list
/// included, when no text holds a newline and no part of speech a `)`.
pub proof fn lemma_definitions_read_back(
    word: Seq<char>,
    defs: Seq<(Seq<char>, Seq<char>)>,
)
    requires
        forall|i: int|
            0 <= i < defs.len() ==> lacks((#[trigger] defs[i]).0, '\n') && lacks(defs[i].1, '\n')
                && lacks(defs[i].1, ')'),
    ensures
        ({
            let text = definitions_text(word, defs);
            let head = definitions_header(word);
            text.take(head.len() as int) == head && split_lines(
                text.skip(head.len() as int),
            ).map_values(|l: Seq<char>| definition_pair(l)) == defs
        }),
{
    let text = definitions_text(word, defs);
    let head = definitions_header(word);
    let lines = definition_lines(defs);
    assert(text.take(head.len() as int) =~= head);
    assert(text.skip(head.len() as int) =~= lines_text(lines));
    assert forall|i: int| 0 <= i < lines.len() implies lacks(#[trigger] lines[i], '\n')
        && definition_pair(lines[i]) == defs[i] by {
        lemma_definition_line(defs[i].0, defs[i].1);
    }
    lemma_split_lines_text(lines);
    assert(lines.map_values(|l: Seq<char>| definition_pair(l)) =~= defs);
}

} // verus!
