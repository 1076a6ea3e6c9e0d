//! Text as lines: how a blob of text is cut into lines and how lines are
//! joined back into one text.

use vstd::prelude::*;

verus! {

/// `String::push` appends one character: the string then holds the
/// characters that it held, followed by `ch`.
pub assume_specification[ String::push ](s: &mut String, ch: char)
    ensures
        final(s)@ == old(s)@.push(ch),
;

/// The text after the last newline of `s`; all of `s` where it holds none.
pub open spec fn open_tail(s: Seq<char>) -> Seq<char>
    decreases s.len(),
{
    if s.len() == 0 || s.last() == '\n' {
        Seq::empty()
    } else {
        open_tail(s.drop_last()).push(s.last())
    }
}

/// `line` without the carriage return that it may end in.
pub open spec fn strip_cr(line: Seq<char>) -> Seq<char> {
    if line.len() > 0 && line.last() == '\r' {
        line.drop_last()
    } else {
        line
    }
}

/// The lines of `s` that a newline ends, in order. A line ending is a
/// newline, or a carriage return directly followed by a newline; the line
/// does not include it.
pub open spec fn closed_lines(s: Seq<char>) -> Seq<Seq<char>>
    decreases s.len(),
{
    if s.len() == 0 {
        Seq::empty()
    } else if s.last() == '\n' {
        closed_lines(s.drop_last()).push(strip_cr(open_tail(s.drop_last())))
    } else {
        closed_lines(s.drop_last())
    }
}

/// The lines of `s`: those that a newline ends, then the text after the last
/// newline if there is any. The last line needs no line ending, and a
/// carriage return that no newline follows is part of its line.
pub open spec fn split_lines(s: Seq<char>) -> Seq<Seq<char>> {
    if open_tail(s).len() == 0 {
        closed_lines(s)
    } else {
        closed_lines(s).push(open_tail(s))
    }
}

/// The lines that a buffer starts with when it is made from `s`: the lines
/// of `s`, or one empty line where `s` is empty.
pub open spec fn initial_lines(s: Seq<char>) -> Seq<Seq<char>> {
    if s.len() == 0 {
        seq![Seq::empty()]
    } else {
        split_lines(s)
    }
}

/// The lines with one newline between each two neighbours.
pub open spec fn join_lines(lines: Seq<Seq<char>>) -> Seq<char>
    decreases lines.len(),
{
    if lines.len() == 0 {
        Seq::empty()
    } else if lines.len() == 1 {
        lines[0]
    } else {
        join_lines(lines.drop_last()) + seq!['\n'] + lines.last()
    }
}

/// What a vector of lines holds, each line as a sequence of characters.
pub open spec fn rows(lines: Seq<Vec<char>>) -> Seq<Seq<char>> {
    Seq::new(lines.len(), |i: int| lines[i]@)
}

/// A non-empty text has at least one line.
pub proof fn lemma_split_nonempty(s: Seq<char>)
    requires
        s.len() > 0,
    ensures
        split_lines(s).len() >= 1,
{
    if s.last() == '\n' {
        assert(closed_lines(s).len() >= 1);
    }
}

/// The characters of `s`, in order.
pub fn chars_of(s: &str) -> (out: Vec<char>)
    ensures
        out@ == s@,
{
    let mut out: Vec<char> = Vec::new();
    for c in it: s.chars()
        invariant
            it.seq() == s@,
            out@ == s@.take(it.index()),
    {
        assert(s@.take(it.index() + 1) == s@.take(it.index()).push(c));
        out.push(c);
    }
    assert(s@.take(s@.len() as int) == s@);
    out
}

/// Cuts `content` into its lines; the empty text has none.
pub fn lines_of(content: &str) -> (lines: Vec<Vec<char>>)
    ensures
        rows(lines@) == split_lines(content@),
{
    let mut lines: Vec<Vec<char>> = Vec::new();
    let mut cur: Vec<char> = Vec::new();
    for c in it: content.chars()
        invariant
            it.seq() == content@,
            rows(lines@) == closed_lines(content@.take(it.index())),
            cur@ == open_tail(content@.take(it.index())),
    {
        proof {
            let before = content@.take(it.index());
            let after = content@.take(it.index() + 1);
            assert(after.drop_last() == before);
            assert(after.last() == c);
        }
        if c == '\n' {
            let n: usize = cur.len();
            if n > 0 && cur[n - 1] == '\r' {
                cur.pop();
            }
            let ghost prev = rows(lines@);
            lines.push(cur);
            assert(rows(lines@) == prev.push(cur@));
            cur = Vec::new();
        } else {
            cur.push(c);
        }
    }
    assert(content@.take(content@.len() as int) == content@);
    if cur.len() > 0 {
        let ghost prev = rows(lines@);
        lines.push(cur);
        assert(rows(lines@) == prev.push(cur@));
    }
    lines
}

/// Cuts `content` into the lines that a buffer starts with: its lines, or
/// one empty line where it is empty.
pub fn split_text(content: &str) -> (lines: Vec<Vec<char>>)
    ensures
        rows(lines@) == initial_lines(content@),
        lines@.len() >= 1,
{
    let mut lines = lines_of(content);
    proof {
        if content@.len() > 0 {
            lemma_split_nonempty(content@);
        }
    }
    if lines.len() == 0 {
        lines.push(Vec::new());
        assert(rows(lines@) == seq![Seq::<char>::empty()]);
    }
    lines
}

/// What a vector of strings holds, each string as a sequence of characters.
pub open spec fn string_rows(lines: Seq<String>) -> Seq<Seq<char>> {
    Seq::new(lines.len(), |i: int| lines[i]@)
}

/// Appends the characters of `line` to `out`.
fn push_line(out: &mut String, line: &Vec<char>)
    ensures
        final(out)@ == old(out)@ + line@,
{
    let n: usize = line.len();
    let mut i: usize = 0;
    while i < n
        invariant
            n == line@.len(),
            i <= n,
            out@ == old(out)@ + line@.take(i as int),
        decreases n - i,
    {
        out.push(line[i]);
        assert(line@.take(i + 1) == line@.take(i as int).push(line@[i as int]));
        i = i + 1;
    }
    assert(line@.take(n as int) == line@);
}

/// The characters of `line` as a string.
pub fn line_to_string(line: &Vec<char>) -> (s: String)
    ensures
        s@ == line@,
{
    let mut s = String::new();
    push_line(&mut s, line);
    s
}

/// Each line as a string of its own, in order.
pub fn lines_to_strings(lines: &Vec<Vec<char>>) -> (out: Vec<String>)
    ensures
        string_rows(out@) == rows(lines@),
{
    let n: usize = lines.len();
    let mut out: Vec<String> = Vec::new();
    let mut i: usize = 0;
    while i < n
        invariant
            n == lines@.len(),
            i <= n,
            string_rows(out@) == rows(lines@.take(i as int)),
        decreases n - i,
    {
        let ghost prev = string_rows(out@);
        let s = line_to_string(&lines[i]);
        out.push(s);
        assert(string_rows(out@) == prev.push(s@));
        assert(rows(lines@.take(i + 1)) == rows(lines@.take(i as int)).push(lines@[i as int]@));
        i = i + 1;
    }
    assert(lines@.take(n as int) == lines@);
    out
}

/// The whole text: the lines with a newline between each two neighbours.
pub fn join_text(lines: &Vec<Vec<char>>) -> (text: String)
    ensures
        text@ == join_lines(rows(lines@)),
{
    let n: usize = lines.len();
    let mut text = String::new();
    let mut i: usize = 0;
    while i < n
        invariant
            n == lines@.len(),
            i <= n,
            text@ == join_lines(rows(lines@.take(i as int))),
        decreases n - i,
    {
        let ghost before = rows(lines@.take(i as int));
        let ghost after = rows(lines@.take(i + 1));
        assert(after.drop_last() == before);
        assert(after.last() == lines@[i as int]@);
        if i > 0 {
            text.push('\n');
            assert(text@ == join_lines(before) + seq!['\n']);
        }
        push_line(&mut text, &lines[i]);
        i = i + 1;
    }
    assert(lines@.take(n as int) == lines@);
    text
}

/// Joining the closed lines of a text without carriage returns, with its
/// open tail as the last line, gives the text back.
proof fn lemma_join_pieces(s: Seq<char>)
    requires
        !s.contains('\r'),
    ensures
        join_lines(closed_lines(s).push(open_tail(s))) == s,
        !open_tail(s).contains('\r'),
    decreases s.len(),
{
    let pieces = closed_lines(s).push(open_tail(s));
    if s.len() == 0 {
        assert(pieces.len() == 1);
        assert(join_lines(pieces) == s);
    } else {
        let front = s.drop_last();
        assert forall|c: char| front.contains(c) implies s.contains(c) by {
            let i = choose|i: int| 0 <= i < front.len() && front[i] == c;
            assert(s[i] == c);
        }
        lemma_join_pieces(front);
        let before = closed_lines(front).push(open_tail(front));
        assert(s == front.push(s.last()));
        if s.last() == '\n' {
            assert(strip_cr(open_tail(front)) == open_tail(front)) by {
                let t = open_tail(front);
                if t.len() > 0 && t.last() == '\r' {
                    assert(t[t.len() - 1] == '\r');
                    assert(t.contains('\r'));
                }
            }
            assert(pieces.drop_last() == before);
            assert(join_lines(pieces) == join_lines(before) + seq!['\n'] + Seq::<char>::empty());
            assert(join_lines(pieces) == s);
        } else {
            assert(s[s.len() - 1] == s.last());
            assert(s.contains(s.last()));
            assert(pieces.drop_last() == closed_lines(front));
            assert(before.drop_last() == closed_lines(front));
            assert(before.last() == open_tail(front));
            assert(pieces.last() == open_tail(front).push(s.last()));
            if closed_lines(front).len() == 0 {
                assert(join_lines(pieces) == s);
            } else {
                assert(join_lines(pieces) == join_lines(closed_lines(front)) + seq!['\n']
                    + open_tail(front).push(s.last()));
                assert(join_lines(before) == join_lines(closed_lines(front)) + seq!['\n']
                    + open_tail(front));
                assert(join_lines(pieces) == join_lines(before).push(s.last()));
            }
            assert forall|c: char| open_tail(s).contains(c) implies c != '\r' by {
                let i = choose|i: int| 0 <= i < open_tail(s).len() && open_tail(s)[i] == c;
                if i < open_tail(front).len() {
                    assert(open_tail(front)[i] == c);
                    assert(open_tail(front).contains(c));
                }
            }
        }
    }
}

/// No line of a text holds a newline.
pub proof fn lemma_lines_hold_no_newline(s: Seq<char>)
    ensures
        !open_tail(s).contains('\n'),
        forall|i: int|
            0 <= i < closed_lines(s).len() ==> !(#[trigger] closed_lines(s)[i]).contains('\n'),
        forall|i: int|
            0 <= i < split_lines(s).len() ==> !(#[trigger] split_lines(s)[i]).contains('\n'),
        forall|i: int|
            0 <= i < initial_lines(s).len() ==> !(#[trigger] initial_lines(s)[i]).contains('\n'),
    decreases s.len(),
{
    if s.len() > 0 {
        let front = s.drop_last();
        lemma_lines_hold_no_newline(front);
        if s.last() == '\n' {
            let t = open_tail(front);
            if strip_cr(t).contains('\n') {
                let i = choose|i: int| 0 <= i < strip_cr(t).len() && strip_cr(t)[i] == '\n';
                assert(t[i] == '\n');
                assert(t.contains('\n'));
            }
            assert forall|i: int| 0 <= i < closed_lines(s).len() implies !(
            #[trigger] closed_lines(s)[i]).contains('\n') by {
                if i < closed_lines(front).len() {
                    assert(closed_lines(s)[i] == closed_lines(front)[i]);
                } else {
                    assert(closed_lines(s)[i] == strip_cr(t));
                }
            }
        } else {
            if open_tail(s).contains('\n') {
                let i = choose|i: int| 0 <= i < open_tail(s).len() && open_tail(s)[i] == '\n';
                if i < open_tail(front).len() {
                    assert(open_tail(front)[i] == '\n');
                    assert(open_tail(front).contains('\n'));
                }
            }
        }
        assert forall|i: int| 0 <= i < split_lines(s).len() implies !(#[trigger] split_lines(
            s,
        )[i]).contains('\n') by {
            if i < closed_lines(s).len() {
                assert(split_lines(s)[i] == closed_lines(s)[i]);
            } else {
                assert(split_lines(s)[i] == open_tail(s));
            }
        }
    } else {
        assert(initial_lines(s)[0] =~= Seq::<char>::empty());
    }
}

/// What a buffer gives back at once: for a text without carriage returns,
/// the lines it starts with, joined, are the text itself, less the one
/// newline that the text may end in.
pub proof fn lemma_join_initial_lines(s: Seq<char>)
    requires
        !s.contains('\r'),
    ensures
        join_lines(initial_lines(s)) == if s.len() > 0 && s.last() == '\n' {
            s.drop_last()
        } else {
            s
        },
{
    if s.len() == 0 {
        assert(initial_lines(s).len() == 1);
    } else if s.last() == '\n' {
        let front = s.drop_last();
        assert forall|c: char| front.contains(c) implies s.contains(c) by {
            let i = choose|i: int| 0 <= i < front.len() && front[i] == c;
            assert(s[i] == c);
        }
        lemma_join_pieces(front);
        let t = open_tail(front);
        if t.len() > 0 && t.last() == '\r' {
            assert(t[t.len() - 1] == '\r');
            assert(t.contains('\r'));
        }
        assert(initial_lines(s) == closed_lines(front).push(open_tail(front)));
    } else {
        lemma_join_pieces(s);
    }
}

} // verus!
