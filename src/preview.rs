use vstd::prelude::*;
use vstd::std_specs::iter::IteratorSpec;
use vstd::string::*;

verus! {

broadcast use vstd::string::group_string_axioms;

/// What the selected entry holds, as far as its preview depends on it.
pub enum EntryContent {
    /// A regular file, with its text, or `None` where it could not be read.
    File(Option<String>),
    Directory,
    /// Neither a regular file nor a directory, or no longer there.
    Other,
}

/// How many lines of a file the preview shows.
pub const PREVIEW_LINES: usize = 20;

/// A line without the carriage return that ends it, if one does.
pub open spec fn strip_cr(line: Seq<char>) -> Seq<char> {
    if line.len() > 0 && line.last() == '\r' {
        line.drop_last()
    } else {
        line
    }
}

/// The text cut at each newline: the lines that a newline ended, each without
/// its line ending, and what follows the last newline.
pub open spec fn split_lines(text: Seq<char>) -> (Seq<Seq<char>>, Seq<char>)
    decreases text.len(),
{
    if text.len() == 0 {
        (Seq::empty(), Seq::empty())
    } else {
        let (done, rest) = split_lines(text.drop_last());
        if text.last() == '\n' {
            (done.push(strip_cr(rest)), Seq::empty())
        } else {
            (done, rest.push(text.last()))
        }
    }
}

/// The lines of a text: each ends at a newline or at the end of the text, a
/// carriage return before the newline is dropped, and a final newline starts
/// no empty line.
pub open spec fn lines_of(text: Seq<char>) -> Seq<Seq<char>> {
    let (done, rest) = split_lines(text);
    if rest.len() > 0 {
        done.push(rest)
    } else {
        done
    }
}

/// Lines joined into one text, with a newline between each two.
pub open spec fn join_lines(lines: Seq<Seq<char>>) -> Seq<char>
    decreases lines.len(),
{
    if lines.len() == 0 {
        Seq::empty()
    } else if lines.len() == 1 {
        lines[0]
    } else {
        join_lines(lines.drop_last()) + seq!['\n'] + lines.last()
    }
}

/// The preview of a file's text: its first lines, at most `PREVIEW_LINES`,
/// joined by newlines.
pub open spec fn preview_of_text(text: Seq<char>) -> Seq<char> {
    let lines = lines_of(text);
    if lines.len() > PREVIEW_LINES {
        join_lines(lines.take(PREVIEW_LINES as int))
    } else {
        join_lines(lines)
    }
}

/// A file's preview shows exactly its first `PREVIEW_LINES` lines where it
/// has that many or more, and all of its lines where it has fewer.
pub proof fn lemma_preview_shows_first_lines(text: Seq<char>)
    ensures
        lines_of(text).len() >= PREVIEW_LINES ==> preview_of_text(text) == join_lines(
            lines_of(text).take(PREVIEW_LINES as int),
        ),
        lines_of(text).len() < PREVIEW_LINES ==> preview_of_text(text) == join_lines(
            lines_of(text),
        ),
{
    if lines_of(text).len() == PREVIEW_LINES {
        assert(lines_of(text).take(PREVIEW_LINES as int) =~= lines_of(text));
    }
}

proof fn lemma_join_push(lines: Seq<Seq<char>>, line: Seq<char>)
    ensures
        join_lines(lines.push(line)) == if lines.len() == 0 {
            line
        } else {
            join_lines(lines) + seq!['\n'] + line
        },
{
    assert(lines.push(line).drop_last() =~= lines);
}

/// The preview of a file's text: its first `PREVIEW_LINES` lines joined by
/// newlines, or all of them where it has fewer.
pub fn text_preview(text: &str) -> (r: String)
    ensures
        r@ == preview_of_text(text@),
{
    let n = text.unicode_len();
    let mut chars = text.chars();
    let mut out = String::new();
    let mut i: usize = 0;
    let mut start: usize = 0;
    let mut count: usize = 0;
    let mut prev_cr = false;
    let ghost mut done: Seq<Seq<char>> = Seq::empty();
    assert(text@.take(0) =~= Seq::<char>::empty());
    assert(text@.skip(0) =~= text@);
    loop
        invariant
            n as nat == text@.len(),
            start <= i <= n,
            chars.remaining() == text@.skip(i as int),
            split_lines(text@.take(i as int)) == (done, text@.subrange(start as int, i as int)),
            count == done.len(),
            count <= i,
            prev_cr <==> (i > start && text@[i - 1] == '\r'),
            count <= PREVIEW_LINES ==> out@ == join_lines(done),
            count > PREVIEW_LINES ==> out@ == join_lines(done.take(PREVIEW_LINES as int)),
        ensures
            i == n,
            split_lines(text@) == (done, text@.subrange(start as int, i as int)),
        decreases n - i,
    {
        let next = chars.next();
        match next {
            None => {
                assert(text@.skip(i as int).len() == 0);
                assert(text@.take(i as int) =~= text@);
                break;
            },
            Some(c) => {
                assert(text@.skip(i as int)[0] == text@[i as int]);
                assert(text@.take(i + 1).drop_last() =~= text@.take(i as int));
                if c == '\n' {
                    let end = if prev_cr { i - 1 } else { i };
                    assert(strip_cr(text@.subrange(start as int, i as int)) =~= text@.subrange(
                        start as int,
                        end as int,
                    ));
                    if count < PREVIEW_LINES {
                        proof {
                            lemma_join_push(done, text@.subrange(start as int, end as int));
                        }
                        if count > 0 {
                            proof {
                                reveal_strlit("\n");
                            }
                            out.append("\n");
                        }
                        let line = text.substring_char(start, end);
                        out.append(line);
                    } else if count == PREVIEW_LINES {
                        assert(done.push(text@.subrange(start as int, end as int)).take(
                            PREVIEW_LINES as int,
                        ) =~= done);
                    } else {
                        assert(done.push(text@.subrange(start as int, end as int)).take(
                            PREVIEW_LINES as int,
                        ) =~= done.take(PREVIEW_LINES as int));
                    }
                    proof {
                        done = done.push(text@.subrange(start as int, end as int));
                    }
                    count = count + 1;
                    start = i + 1;
                    prev_cr = false;
                } else {
                    assert(text@.subrange(start as int, i + 1) =~= text@.subrange(
                        start as int,
                        i as int,
                    ).push(c));
                    prev_cr = c == '\r';
                }
                i = i + 1;
                assert(text@.skip(i as int) =~= text@.skip(i - 1).drop_first());
            },
        }
    }
    if start < i && count < PREVIEW_LINES {
        proof {
            lemma_join_push(done, text@.subrange(start as int, i as int));
        }
        if count > 0 {
            proof {
                reveal_strlit("\n");
            }
            out.append("\n");
        }
        let line = text.substring_char(start, i);
        out.append(line);
    }
    proof {
        let lines = lines_of(text@);
        if start < i {
            assert(lines == done.push(text@.subrange(start as int, i as int)));
            if count >= PREVIEW_LINES {
                assert(lines.take(PREVIEW_LINES as int) =~= done.take(PREVIEW_LINES as int));
                if count == PREVIEW_LINES {
                    assert(done.take(PREVIEW_LINES as int) =~= done);
                }
            }
        } else {
            assert(lines == done);
        }
    }
    out
}

/// The preview of a file that could not be read.
pub open spec fn unreadable_text() -> Seq<char> {
    "Unable to read file content."@
}

/// The preview of a directory: a hint on how to enter it.
pub open spec fn directory_hint() -> Seq<char> {
    "Directory selected. Press 'l' to enter."@
}

/// The preview of an entry.
pub open spec fn preview_of_entry(content: EntryContent) -> Seq<char> {
    match content {
        EntryContent::File(Some(text)) => preview_of_text(text@),
        EntryContent::File(None) => unreadable_text(),
        EntryContent::Directory => directory_hint(),
        EntryContent::Other => Seq::empty(),
    }
}

/// The preview of an entry: the first lines of a file's text, a placeholder
/// for a file that could not be read, a hint for a directory, and nothing for
/// anything else.
pub fn entry_preview(content: &EntryContent) -> (r: String)
    ensures
        r@ == preview_of_entry(*content),
{
    match content {
        EntryContent::File(Some(text)) => text_preview(text.as_str()),
        EntryContent::File(None) => String::from_str("Unable to read file content."),
        EntryContent::Directory => String::from_str("Directory selected. Press 'l' to enter."),
        EntryContent::Other => String::new(),
    }
}

} // verus!
