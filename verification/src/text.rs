//! Text as lines: line endings, splitting and joining.

use vstd::prelude::*;
use vstd::std_specs::iter::IteratorSpec;
use vstd::string::StringExecFns;

verus! {

/// The text with every carriage return that stands directly before a line
/// feed taken out.
pub open spec fn normalize_line_endings(text: Seq<char>) -> Seq<char>
    decreases text.len(),
{
    if text.len() == 0 {
        text
    } else if text.last() == '\n' && text.len() >= 2 && text[text.len() - 2] == '\r' {
        normalize_line_endings(text.take(text.len() - 2)).push('\n')
    } else {
        normalize_line_endings(text.drop_last()).push(text.last())
    }
}

/// The lines of a text: the stretches between its line feeds, in order. A
/// text with `n` line feeds has `n + 1` lines, some of which may be empty.
pub open spec fn split_lines(text: Seq<char>) -> Seq<Seq<char>>
    decreases text.len(),
{
    if text.len() == 0 {
        seq![Seq::empty()]
    } else {
        let before = split_lines(text.drop_last());
        if text.last() == '\n' {
            before.push(Seq::empty())
        } else {
            before.drop_last().push(before.last().push(text.last()))
        }
    }
}

/// The lines written one after another with a line feed between each two.
pub open spec fn join_lines(lines: Seq<Seq<char>>) -> Seq<char>
    decreases lines.len(),
{
    if lines.len() == 0 {
        Seq::empty()
    } else if lines.len() == 1 {
        lines[0]
    } else {
        join_lines(lines.drop_last()).push('\n') + lines.last()
    }
}

/// The lines of a document: its line endings normalized, then split at each
/// line feed.
pub open spec fn document_lines(text: Seq<char>) -> Seq<Seq<char>> {
    split_lines(normalize_line_endings(text))
}

/// The strings hold, in order, the given lines.
pub open spec fn reads_as(strings: Seq<String>, lines: Seq<Seq<char>>) -> bool {
    &&& strings.len() == lines.len()
    &&& forall|i: int| 0 <= i < strings.len() ==> (#[trigger] strings[i])@ == lines[i]
}

/// A frame of `height` rows: the given rows first, blank rows after them.
pub open spec fn padded(rows: Seq<Seq<char>>, height: nat) -> Seq<Seq<char>> {
    Seq::new(
        height,
        |i: int|
            if i < rows.len() {
                rows[i]
            } else {
                Seq::empty()
            },
    )
}

/// The text of a frame of `height` blank rows: a line feed between each two
/// of them and nothing else.
pub open spec fn blank_frame(height: nat) -> Seq<char> {
    if height == 0 {
        Seq::empty()
    } else {
        Seq::new((height - 1) as nat, |i: int| '\n')
    }
}

/// The row holds no line feed.
pub open spec fn is_line(row: Seq<char>) -> bool {
    forall|k: int| 0 <= k < row.len() ==> row[k] != '\n'
}

/// No row holds a line feed.
pub open spec fn are_lines(rows: Seq<Seq<char>>) -> bool {
    forall|i: int| 0 <= i < rows.len() ==> is_line(#[trigger] rows[i])
}

/// Joining goes on row by row: the first row stands alone, each later one
/// follows a line feed.
pub proof fn lemma_join_push(lines: Seq<Seq<char>>, row: Seq<char>)
    ensures
        join_lines(lines.push(row)) == if lines.len() == 0 {
            row
        } else {
            join_lines(lines).push('\n') + row
        },
{
    assert(lines.push(row).drop_last() == lines);
}

/// Text added after the last line feed lengthens the last line.
pub proof fn lemma_split_append(head: Seq<char>, tail: Seq<char>)
    requires
        is_line(tail),
    ensures
        split_lines(head).len() >= 1,
        split_lines(head + tail) == split_lines(head).drop_last().push(
            split_lines(head).last() + tail,
        ),
    decreases head.len(), tail.len(),
{
    if head.len() > 0 {
        lemma_split_append(head.drop_last(), Seq::empty());
    }
    if tail.len() == 0 {
        assert(head + tail == head);
        assert(split_lines(head).last() + tail == split_lines(head).last());
        assert(split_lines(head).drop_last().push(split_lines(head).last()) == split_lines(
            head,
        ));
    } else {
        let shorter = tail.drop_last();
        lemma_split_append(head, shorter);
        assert((head + tail).drop_last() == head + shorter);
        assert((split_lines(head).last() + shorter).push(tail.last()) == split_lines(
            head,
        ).last() + tail);
    }
}

/// Splitting undoes joining: the lines of joined rows are these rows, where
/// there is a row at all and none of them holds a line feed.
pub proof fn lemma_split_join(rows: Seq<Seq<char>>)
    requires
        rows.len() >= 1,
        are_lines(rows),
    ensures
        split_lines(join_lines(rows)) == rows,
    decreases rows.len(),
{
    if rows.len() == 1 {
        lemma_split_append(Seq::empty(), rows[0]);
        assert(Seq::<char>::empty() + rows[0] == rows[0]);
        assert(split_lines(Seq::empty()).drop_last().push(Seq::<char>::empty() + rows[0])
            == rows);
    } else {
        let above = rows.drop_last();
        let text = join_lines(above);
        lemma_split_join(above);
        lemma_split_append(text.push('\n'), rows.last());
        assert(text.push('\n').drop_last() == text);
        assert(Seq::<char>::empty() + rows.last() == rows.last());
        assert(above.push(Seq::<char>::empty()).drop_last().push(rows.last()) == rows);
    }
}

/// Joining undoes splitting: a text has at least one line, no line holds a
/// line feed, and the lines joined are the text again.
pub proof fn lemma_join_split(text: Seq<char>)
    ensures
        split_lines(text).len() >= 1,
        are_lines(split_lines(text)),
        join_lines(split_lines(text)) == text,
    decreases text.len(),
{
    if text.len() > 0 {
        let before = split_lines(text.drop_last());
        lemma_join_split(text.drop_last());
        if text.last() == '\n' {
            lemma_join_push(before, Seq::empty());
            assert(join_lines(before).push('\n') + Seq::<char>::empty() == text);
        } else {
            let longer = before.last().push(text.last());
            lemma_join_push(before.drop_last(), before.last());
            lemma_join_push(before.drop_last(), longer);
            assert(before.drop_last().push(before.last()) == before);
            if before.len() > 1 {
                assert(join_lines(before.drop_last()).push('\n') + longer == (join_lines(
                    before.drop_last(),
                ).push('\n') + before.last()).push(text.last()));
            }
            assert(text.drop_last().push(text.last()) == text);
        }
    } else {
        assert(join_lines(seq![Seq::<char>::empty()]) == text);
    }
}

/// A frame with no rows to show is a blank frame.
pub proof fn lemma_join_blank_rows(height: nat)
    ensures
        join_lines(padded(Seq::empty(), height)) == blank_frame(height),
    decreases height,
{
    let rows = padded(Seq::empty(), height);
    if height >= 2 {
        let above = padded(Seq::empty(), (height - 1) as nat);
        assert(rows.drop_last() == above);
        lemma_join_blank_rows((height - 1) as nat);
        assert(blank_frame((height - 1) as nat).push('\n') + Seq::<char>::empty() == blank_frame(
            height,
        ));
    } else if height == 1 {
        assert(rows[0] == blank_frame(1));
    }
}

/// How normalizing goes on when one more character is read: a line feed that
/// follows a carriage return takes its place, anything else is added.
pub proof fn lemma_normalize_push(text: Seq<char>, c: char)
    ensures
        normalize_line_endings(text.push(c)) == if c == '\n' && text.len() > 0 && text.last()
            == '\r' {
            normalize_line_endings(text.drop_last()).push('\n')
        } else {
            normalize_line_endings(text).push(c)
        },
{
    let longer = text.push(c);
    assert(longer.drop_last() == text);
    if text.len() > 0 {
        assert(longer.take(longer.len() - 2) == text.drop_last());
    }
}

/// Normalized text ends in a carriage return exactly when the text itself
/// does, and is then the normalized text before it with that character added.
pub proof fn lemma_normalize_ends_in_cr(text: Seq<char>)
    ensures
        normalize_line_endings(text).len() > 0 && normalize_line_endings(text).last() == '\r'
            <==> text.len() > 0 && text.last() == '\r',
        text.len() > 0 && text.last() == '\r' ==> normalize_line_endings(text)
            == normalize_line_endings(text.drop_last()).push('\r'),
{
}

/// Copies `s` without the carriage return of each carriage return and line
/// feed pair.
pub fn normalized(s: &str) -> (out: Vec<char>)
    ensures
        out@ == normalize_line_endings(s@),
{
    broadcast use vstd::string::group_string_axioms;

    let mut out: Vec<char> = Vec::new();
    let mut rest = s.chars();
    let ghost mut seen: Seq<char> = Seq::empty();
    loop
        invariant
            seen + rest.remaining() == s@,
            out@ == normalize_line_endings(seen),
            rest.obeys_prophetic_iter_laws(),
            rest.decrease() is Some,
        decreases rest.decrease()->0,
    {
        match rest.next() {
            None => {
                return out;
            },
            Some(c) => {
                proof {
                    lemma_normalize_ends_in_cr(seen);
                    lemma_normalize_push(seen, c);
                }
                if c == '\n' && out.len() > 0 && out[out.len() - 1] == '\r' {
                    out.pop();
                }
                out.push(c);
                proof {
                    seen = seen.push(c);
                }
            },
        }
    }
}

/// `String::push` of std: the string afterwards is the string before with
/// the character added at its end.
pub assume_specification[ String::push ](s: &mut String, c: char)
    ensures
        final(s)@ == old(s)@.push(c),
;

/// Cuts `text` at each line feed. The line feeds themselves belong to no
/// line, and there is always a line, if only an empty one.
pub fn split(text: &[char]) -> (lines: Vec<String>)
    ensures
        reads_as(lines@, split_lines(text@)),
        lines.len() >= 1,
{
    let mut lines: Vec<String> = Vec::new();
    let mut line = String::new();
    let mut i: usize = 0;
    while i < text.len()
        invariant
            i <= text.len(),
            lines.deep_view().push(line@) == split_lines(text@.take(i as int)),
        decreases text.len() - i,
    {
        let c = text[i];
        let ghost before = lines.deep_view();
        proof {
            assert(text@.take(i + 1).drop_last() == text@.take(i as int));
        }
        if c == '\n' {
            let ghost ended = line@;
            lines.push(line);
            line = String::new();
            assert(lines.deep_view() == before.push(ended));
        } else {
            line.push(c);
        }
        i += 1;
    }
    let ghost before = lines.deep_view();
    let ghost last = line@;
    lines.push(line);
    assert(lines.deep_view() == before.push(last));
    assert(text@.take(text.len() as int) == text@);
    lines
}

/// The lines of the document `s`: its line endings normalized, then cut at
/// each line feed.
pub fn lines_of(s: &str) -> (lines: Vec<String>)
    ensures
        reads_as(lines@, document_lines(s@)),
        lines.len() >= 1,
{
    let text = normalized(s);
    split(text.as_slice())
}

/// Writes a frame of `height` rows: the first `height` of `rows`, then blank
/// rows where these are fewer, with a line feed between each two.
pub fn join_padded(rows: &[String], height: usize) -> (text: String)
    ensures
        text@ == join_lines(padded(rows.deep_view(), height as nat)),
{
    let ghost frame = padded(rows.deep_view(), height as nat);
    let mut text = String::new();
    let mut i: usize = 0;
    while i < height
        invariant
            i <= height,
            frame == padded(rows.deep_view(), height as nat),
            text@ == join_lines(frame.take(i as int)),
        decreases height - i,
    {
        proof {
            assert(frame.take(i + 1) == frame.take(i as int).push(frame[i as int]));
            lemma_join_push(frame.take(i as int), frame[i as int]);
        }
        if i > 0 {
            text.push('\n');
        }
        if i < rows.len() {
            text.append(rows[i].as_str());
        }
        i += 1;
    }
    assert(frame.take(height as int) == frame);
    text
}

} // verus!
