//! Plain text files of rows, as the stores beside the vault keep them.

use vstd::prelude::*;

use crate::text::{blank, chars_of, is_blank, text_of};

verus! {

/// A line without the carriage return that came before its line feed.
pub open spec fn uncr(line: Seq<char>) -> Seq<char> {
    if line.len() > 0 && line.last() == '\r' {
        line.drop_last()
    } else {
        line
    }
}

/// The lines of a text, where `line` is what has been read of the current one. A line ends with a
/// line feed, and a carriage return before it belongs to the ending; what follows the last line
/// feed is a line if there is any of it.
pub open spec fn lines_from(line: Seq<char>, rest: Seq<char>) -> Seq<Seq<char>>
    decreases rest.len(),
{
    if rest.len() == 0 {
        if line.len() == 0 {
            Seq::empty()
        } else {
            seq![line]
        }
    } else if rest[0] == '\n' {
        seq![uncr(line)] + lines_from(Seq::empty(), rest.subrange(1, rest.len() as int))
    } else {
        lines_from(line.push(rest[0]), rest.subrange(1, rest.len() as int))
    }
}

/// The lines of a text.
pub open spec fn lines(text: Seq<char>) -> Seq<Seq<char>> {
    lines_from(Seq::empty(), text)
}

/// The words of a text, where `word` is what has been read of the current one. Words are the
/// longest runs without white space.
pub open spec fn words_from(word: Seq<char>, rest: Seq<char>) -> Seq<Seq<char>>
    decreases rest.len(),
{
    if rest.len() == 0 {
        if word.len() == 0 {
            Seq::empty()
        } else {
            seq![word]
        }
    } else if blank(rest[0]) {
        (if word.len() == 0 {
            Seq::<Seq<char>>::empty()
        } else {
            seq![word]
        }) + words_from(Seq::empty(), rest.subrange(1, rest.len() as int))
    } else {
        words_from(word.push(rest[0]), rest.subrange(1, rest.len() as int))
    }
}

/// The words of a text.
pub open spec fn words(text: Seq<char>) -> Seq<Seq<char>> {
    words_from(Seq::empty(), text)
}

/// The characters of each of some texts.
pub open spec fn views(texts: Seq<Vec<char>>) -> Seq<Seq<char>> {
    texts.map_values(|text: Vec<char>| text@)
}

/// The lines of a text.
pub fn lines_of(text: &str) -> (out: Vec<Vec<char>>)
    ensures
        views(out@) == lines(text@),
{
    let chars: Vec<char> = chars_of(text);
    let mut out: Vec<Vec<char>> = Vec::new();
    let mut line: Vec<char> = Vec::new();
    let mut i: usize = 0;
    assert(chars@.subrange(0, chars@.len() as int) =~= chars@);
    assert(views(out@) + lines(chars@) =~= lines(chars@));
    while i < chars.len()
        invariant
            i <= chars@.len(),
            views(out@) + lines_from(line@, chars@.subrange(i as int, chars@.len() as int)) == lines(
                chars@,
            ),
        decreases chars.len() - i,
    {
        let ghost rest = chars@.subrange(i as int, chars@.len() as int);
        let ghost next = chars@.subrange(i + 1, chars@.len() as int);
        assert(rest.subrange(1, rest.len() as int) =~= next);
        let ghost before = views(out@);
        if chars[i] == '\n' {
            let ghost whole = line@;
            if line.len() > 0 && line[line.len() - 1] == '\r' {
                let _cr = line.pop();
            }
            assert(line@ =~= uncr(whole));
            let ghost ended = line@;
            out.push(line);
            assert(views(out@) =~= before.push(ended));
            assert(before + (seq![ended] + lines_from(Seq::empty(), next)) =~= before.push(ended)
                + lines_from(Seq::empty(), next));
            line = Vec::new();
        } else {
            line.push(chars[i]);
        }
        i = i + 1;
    }
    assert(chars@.subrange(i as int, chars@.len() as int) =~= Seq::<char>::empty());
    let ghost before = views(out@);
    if line.len() > 0 {
        let ghost last = line@;
        out.push(line);
        assert(views(out@) =~= before + seq![last]);
    } else {
        assert(before + Seq::<Seq<char>>::empty() =~= before);
    }
    out
}

/// The words of a line.
pub fn words_of(chars: &Vec<char>) -> (out: Vec<Vec<char>>)
    ensures
        views(out@) == words(chars@),
{
    let mut out: Vec<Vec<char>> = Vec::new();
    let mut word: Vec<char> = Vec::new();
    let mut i: usize = 0;
    assert(chars@.subrange(0, chars@.len() as int) =~= chars@);
    assert(views(out@) + words(chars@) =~= words(chars@));
    while i < chars.len()
        invariant
            i <= chars@.len(),
            views(out@) + words_from(word@, chars@.subrange(i as int, chars@.len() as int)) == words(
                chars@,
            ),
        decreases chars.len() - i,
    {
        let ghost rest = chars@.subrange(i as int, chars@.len() as int);
        let ghost next = chars@.subrange(i + 1, chars@.len() as int);
        assert(rest.subrange(1, rest.len() as int) =~= next);
        let ghost before = views(out@);
        if is_blank(chars[i]) {
            if word.len() > 0 {
                let ghost ended = word@;
                out.push(word);
                assert(views(out@) =~= before.push(ended));
                assert(before + (seq![ended] + words_from(Seq::empty(), next)) =~= before.push(
                    ended,
                ) + words_from(Seq::empty(), next));
                word = Vec::new();
            } else {
                assert(word@ =~= Seq::<char>::empty());
                assert(Seq::<Seq<char>>::empty() + words_from(Seq::empty(), next) =~= words_from(
                    Seq::empty(),
                    next,
                ));
            }
        } else {
            word.push(chars[i]);
        }
        i = i + 1;
    }
    assert(chars@.subrange(i as int, chars@.len() as int) =~= Seq::<char>::empty());
    let ghost before = views(out@);
    if word.len() > 0 {
        let ghost last = word@;
        out.push(word);
        assert(views(out@) =~= before + seq![last]);
    } else {
        assert(before + Seq::<Seq<char>>::empty() =~= before);
    }
    out
}

/// Whether a text is one word: not empty, and without white space.
pub open spec fn one_word(text: Seq<char>) -> bool {
    text.len() > 0 && forall|i: int| 0 <= i < text.len() ==> !blank(#[trigger] text[i])
}

/// A line that holds no line feed and does not end with a carriage return comes back as it was
/// written, and what follows it is read on its own.
pub proof fn lemma_line(line: Seq<char>, text: Seq<char>, rest: Seq<char>)
    requires
        forall|i: int| 0 <= i < text.len() ==> #[trigger] text[i] != '\n',
    ensures
        lines_from(line, text + seq!['\n'] + rest) == seq![uncr(line + text)] + lines_from(
            Seq::empty(),
            rest,
        ),
    decreases text.len(),
{
    let all = text + seq!['\n'] + rest;
    let tail = all.subrange(1, all.len() as int);
    if text.len() == 0 {
        assert(tail =~= rest);
        assert(line + text =~= line);
    } else {
        let after = text.subrange(1, text.len() as int);
        assert(tail =~= after + seq!['\n'] + rest);
        lemma_line(line.push(text[0]), after, rest);
        assert(line.push(text[0]) + after =~= line + text);
    }
}

/// Words are read up to the white space that ends them.
pub proof fn lemma_word(word: Seq<char>, text: Seq<char>, rest: Seq<char>)
    requires
        forall|i: int| 0 <= i < text.len() ==> !blank(#[trigger] text[i]),
        (word + text).len() > 0,
    ensures
        words_from(word, text + seq![' '] + rest) == seq![word + text] + words_from(
            Seq::empty(),
            rest,
        ),
        words_from(word, text) == seq![word + text],
    decreases text.len(),
{
    let all = text + seq![' '] + rest;
    let tail = all.subrange(1, all.len() as int);
    if text.len() == 0 {
        assert(tail =~= rest);
        assert(word + text =~= word);
    } else {
        let after = text.subrange(1, text.len() as int);
        assert(tail =~= after + seq![' '] + rest);
        assert(word.push(text[0]) + after =~= word + text);
        lemma_word(word.push(text[0]), after, rest);
    }
}

/// Joins characters into texts, in order.
pub fn texts_of(lines: &Vec<Vec<char>>) -> (out: Vec<String>)
    ensures
        out@.len() == lines@.len(),
        forall|i: int| 0 <= i < out@.len() ==> (#[trigger] out@[i])@ == lines@[i]@,
{
    let mut out: Vec<String> = Vec::new();
    let mut i: usize = 0;
    while i < lines.len()
        invariant
            i <= lines@.len(),
            out@.len() == i,
            forall|j: int| 0 <= j < i ==> (#[trigger] out@[j])@ == lines@[j]@,
        decreases lines.len() - i,
    {
        out.push(text_of(&lines[i]));
        i = i + 1;
    }
    out
}

/// No line holds a line feed, and no word holds white space or is empty.
pub proof fn law_lines_and_words_are_clean(text: Seq<char>, i: int, j: int)
    ensures
        0 <= i < lines(text).len() && 0 <= j < lines(text)[i].len() ==> lines(text)[i][j] != '\n',
        0 <= i < words(text).len() ==> words(text)[i].len() > 0,
        0 <= i < words(text).len() && 0 <= j < words(text)[i].len() ==> !blank(words(text)[i][j]),
{
    lemma_lines_are_clean(Seq::empty(), text, i, j);
    lemma_words_are_clean(Seq::empty(), text, i, j);
}

proof fn lemma_lines_are_clean(line: Seq<char>, rest: Seq<char>, i: int, j: int)
    requires
        forall|k: int| 0 <= k < line.len() ==> #[trigger] line[k] != '\n',
    ensures
        0 <= i < lines_from(line, rest).len() && 0 <= j < lines_from(line, rest)[i].len()
            ==> lines_from(line, rest)[i][j] != '\n',
    decreases rest.len(),
{
    if rest.len() > 0 {
        let tail = rest.subrange(1, rest.len() as int);
        if rest[0] == '\n' {
            lemma_lines_are_clean(Seq::empty(), tail, i - 1, j);
        } else {
            lemma_lines_are_clean(line.push(rest[0]), tail, i, j);
        }
    }
}

proof fn lemma_words_are_clean(word: Seq<char>, rest: Seq<char>, i: int, j: int)
    requires
        forall|k: int| 0 <= k < word.len() ==> !blank(#[trigger] word[k]),
    ensures
        0 <= i < words_from(word, rest).len() ==> words_from(word, rest)[i].len() > 0,
        0 <= i < words_from(word, rest).len() && 0 <= j < words_from(word, rest)[i].len() ==> !blank(
            words_from(word, rest)[i][j],
        ),
    decreases rest.len(),
{
    if rest.len() > 0 {
        let tail = rest.subrange(1, rest.len() as int);
        if blank(rest[0]) {
            lemma_words_are_clean(
                Seq::empty(),
                tail,
                if word.len() == 0 {
                    i
                } else {
                    i - 1
                },
                j,
            );
        } else {
            lemma_words_are_clean(word.push(rest[0]), tail, i, j);
        }
    }
}

} // verus!
