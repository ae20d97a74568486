//! How text is written to the debugger: line by line, with percent signs doubled, since the
//! debugger takes each line as a format string.

use vstd::prelude::*;

use crate::text;
use crate::text::{chars_of, contains_any, without_suffix, CharClass};

verus! {

pub const OUTPUT_HAS_NUL: &'static str = "output text contained NUL";

/// A line without the carriage return at its end.
pub open spec fn chomped(line: Seq<char>) -> Seq<char> {
    if line.len() > 0 && line.last() == '\r' {
        line.drop_last()
    } else {
        line
    }
}

/// The lines of a text. A line ends in a line feed, or in a carriage return and a line feed;
/// the last one need not.
pub open spec fn lines_of(s: Seq<char>) -> Seq<Seq<char>>
    decreases s.len(),
{
    if s.len() == 0 {
        Seq::empty()
    } else {
        let end = text::first_in(s, CharClass::Only('\n'), 0);
        if 0 <= end < s.len() {
            seq![chomped(s.take(end))] + lines_of(s.skip(end + 1))
        } else {
            seq![s]
        }
    }
}

/// A text with each percent sign doubled.
pub open spec fn escaped(s: Seq<char>) -> Seq<char>
    decreases s.len(),
{
    if s.len() == 0 {
        Seq::empty()
    } else if s.last() == '%' {
        escaped(s.drop_last()).push('%').push('%')
    } else {
        escaped(s.drop_last()).push(s.last())
    }
}

/// Whether the debugger can be handed a line: it takes text up to the first NUL.
pub open spec fn can_be_written(line: Seq<char>) -> bool {
    !text::has_any(line, CharClass::Only('\0'))
}

/// What is written for a number of lines: one output for each, up to the first that cannot
/// be written.
pub open spec fn written(lines: Seq<Seq<char>>) -> Seq<Seq<char>>
    decreases lines.len(),
{
    if lines.len() == 0 || !can_be_written(lines.first()) {
        Seq::empty()
    } else {
        seq![escaped(lines.first()).push('\n')] + written(lines.drop_first())
    }
}

proof fn lemma_first_line(line: Seq<char>, rest: Seq<char>)
    requires
        forall|i: int| 0 <= i < line.len() ==> #[trigger] line[i] != '\n',
    ensures
        lines_of(line + seq!['\n'] + rest) == seq![chomped(line)] + lines_of(rest),
{
    let s = line + seq!['\n'] + rest;
    let k = CharClass::Only('\n');
    text::lemma_first_in_bounds(s, k, 0);
    let end = text::first_in(s, k, 0);
    assert(s[line.len() as int] == '\n');
    assert(end == line.len()) by {
        if end < line.len() {
            assert(s[end] == line[end]);
        }
    }
    assert(s.take(end) =~= line);
    assert(s.skip(end + 1) =~= rest);
}

proof fn lemma_last_line(line: Seq<char>)
    requires
        forall|i: int| 0 <= i < line.len() ==> #[trigger] line[i] != '\n',
        line.len() > 0,
    ensures
        lines_of(line) == seq![line],
{
    text::lemma_first_in_bounds(line, CharClass::Only('\n'), 0);
}

proof fn lemma_carriage_return(line: Seq<char>)
    ensures
        text::ends_with(line, "\r"@) <==> line.len() > 0 && line.last() == '\r',
        "\r"@.len() == 1,
{
    reveal_strlit("\r");
    if line.len() > 0 {
        let tail = line.subrange(line.len() - 1, line.len() as int);
        assert(tail[0] == line.last());
        if line.last() == '\r' {
            assert(tail =~= "\r"@);
        }
    }
}

/// The lines of `s`.
pub fn text_lines(s: &str) -> (r: Vec<String>)
    ensures
        text::texts(r@) == lines_of(s@),
{
    let cs = chars_of(s);
    let mut lines: Vec<String> = Vec::new();
    let mut line = String::new();
    let mut i: usize = 0;
    assert(line@ + cs@.skip(0) =~= s@);
    assert(text::texts(lines@) + lines_of(s@) =~= lines_of(s@));
    while i < cs.len()
        invariant
            i <= cs@.len(),
            cs@ == s@,
            forall|j: int| 0 <= j < line@.len() ==> #[trigger] line@[j] != '\n',
            text::texts(lines@) + lines_of(line@ + cs@.skip(i as int)) == lines_of(s@),
        decreases cs@.len() - i,
    {
        let c = cs[i];
        let ghost done = lines@;
        let ghost rest = cs@.skip(i + 1);
        if c == '\n' {
            proof {
                lemma_first_line(line@, rest);
                assert(line@ + cs@.skip(i as int) =~= line@ + seq!['\n'] + rest);
            }
            let ghost ended = line@;
            let chomp = match without_suffix(line.as_str(), "\r") {
                Some(chomp) => chomp.to_owned(),
                None => line,
            };
            proof {
                lemma_carriage_return(ended);
                assert(chomp@ =~= chomped(ended));
            }
            lines.push(chomp);
            line = String::new();
            assert(text::texts(lines@) =~= text::texts(done).push(chomped(ended)));
            assert(line@ + rest =~= rest);
            assert(text::texts(done).push(chomped(ended)) + lines_of(rest) =~= text::texts(done) + (
            seq![chomped(ended)] + lines_of(rest)));
        } else {
            assert(line@ + cs@.skip(i as int) =~= line@.push(c) + rest);
            line.push(c);
        }
        i = i + 1;
    }
    assert(line@ + cs@.skip(i as int) =~= line@);
    if !line.as_str().is_empty() {
        proof {
            lemma_last_line(line@);
        }
        let ghost done = lines@;
        let ghost last = line@;
        lines.push(line);
        assert(text::texts(lines@) =~= text::texts(done) + seq![last]);
    } else {
        assert(text::texts(lines@) + lines_of(line@) =~= text::texts(lines@));
    }
    lines
}

/// `s` with each percent sign doubled.
pub fn escape_percent(s: &str) -> (r: String)
    ensures
        r@ == escaped(s@),
{
    let cs = chars_of(s);
    let mut r = String::new();
    let mut i: usize = 0;
    while i < cs.len()
        invariant
            i <= cs@.len(),
            cs@ == s@,
            r@ == escaped(cs@.take(i as int)),
        decreases cs@.len() - i,
    {
        let c = cs[i];
        assert(cs@.take(i + 1).drop_last() =~= cs@.take(i as int));
        r.push(c);
        if c == '%' {
            r.push('%');
        }
        i = i + 1;
    }
    assert(cs@.take(i as int) =~= s@);
    r
}

/// What is written to the debugger for a text, and whether that is all of it.
pub struct Output {
    pub lines: Vec<String>,
    pub whole: bool,
}

/// What is written to the debugger for `text`: all of it, or the lines before the first that
/// holds a NUL.
pub fn output_of(text: &str) -> (r: Output)
    ensures
        text::texts(r.lines@) == written(lines_of(text@)),
        r.whole <==> (forall|i: int|
            0 <= i < lines_of(text@).len() ==> can_be_written(#[trigger] lines_of(text@)[i])),
{
    let source = text_lines(text);
    let ghost all = lines_of(text@);
    let mut lines: Vec<String> = Vec::new();
    let mut i: usize = 0;
    assert(all.skip(0) =~= all);
    assert(text::texts(lines@) + written(all) =~= written(all));
    while i < source.len()
        invariant
            i <= source@.len(),
            all == lines_of(text@),
            text::texts(source@) == all,
            text::texts(lines@) + written(all.skip(i as int)) == written(all),
            forall|j: int| 0 <= j < i ==> can_be_written(#[trigger] all[j]),
        decreases source@.len() - i,
    {
        let ghost rest = all.skip(i as int);
        assert(rest.first() == source@[i as int]@);
        if contains_any(source[i].as_str(), CharClass::Only('\0')) {
            assert(!can_be_written(all[i as int]));
            assert(text::texts(lines@) + Seq::<Seq<char>>::empty() =~= text::texts(lines@));
            return Output { lines, whole: false };
        }
        let mut line = escape_percent(source[i].as_str());
        line.push('\n');
        let ghost done = lines@;
        let ghost output = line@;
        lines.push(line);
        assert(text::texts(lines@) =~= text::texts(done).push(output));
        assert(rest.drop_first() =~= all.skip(i + 1));
        assert(text::texts(done).push(output) + written(all.skip(i + 1)) =~= text::texts(done) + (
        seq![output] + written(all.skip(i + 1))));
        i = i + 1;
    }
    assert(all.skip(i as int).len() == 0);
    assert(text::texts(lines@) + Seq::<Seq<char>>::empty() =~= text::texts(lines@));
    Output { lines, whole: true }
}

/// What a format string without arguments prints, where its only directives are doubled
/// percent signs.
pub open spec fn printed(format: Seq<char>) -> Seq<char>
    decreases format.len(),
{
    if format.len() == 0 {
        Seq::empty()
    } else if format.len() > 1 && format[0] == '%' && format[1] == '%' {
        seq!['%'] + printed(format.skip(2))
    } else {
        seq![format[0]] + printed(format.skip(1))
    }
}

proof fn lemma_escaped_first(s: Seq<char>)
    requires
        s.len() > 0,
    ensures
        escaped(s) == (if s[0] == '%' {
            seq!['%', '%']
        } else {
            seq![s[0]]
        }) + escaped(s.skip(1)),
    decreases s.len(),
{
    if s.len() == 1 {
        assert(escaped(s.drop_last()) =~= Seq::empty());
        assert(escaped(s.skip(1)) =~= Seq::empty());
    } else {
        lemma_escaped_first(s.drop_last());
        assert(s.drop_last().skip(1) =~= s.skip(1).drop_last());
    }
}

/// The debugger prints a text as it stands: its percent signs are no directives.
pub proof fn escaped_text_is_printed_as_it_stands(s: Seq<char>)
    ensures
        printed(escaped(s)) == s,
    decreases s.len(),
{
    if s.len() > 0 {
        lemma_escaped_first(s);
        escaped_text_is_printed_as_it_stands(s.skip(1));
        let tail = escaped(s.skip(1));
        if s[0] == '%' {
            assert(escaped(s).skip(2) =~= tail);
        } else {
            assert(escaped(s).skip(1) =~= tail);
        }
        assert(s =~= seq![s[0]] + s.skip(1));
    } else {
        assert(s =~= Seq::empty());
    }
}

proof fn lemma_escaped_has(s: Seq<char>, c: char)
    requires
        !s.contains(c),
        c != '%',
    ensures
        !escaped(s).contains(c),
    decreases s.len(),
{
    if s.len() > 0 {
        let rest = s.drop_last();
        assert forall|i: int| 0 <= i < rest.len() implies rest[i] != c by {
            assert(s.contains(s[i]));
        }
        lemma_escaped_has(rest, c);
        assert(s.contains(s.last()));
        assert forall|i: int| 0 <= i < escaped(s).len() implies escaped(s)[i] != c by {
            if i < escaped(rest).len() {
                assert(escaped(rest).contains(escaped(rest)[i]));
            }
        }
    }
}

proof fn lemma_lines_have_no_line_feed(s: Seq<char>, i: int)
    requires
        0 <= i < lines_of(s).len(),
    ensures
        !lines_of(s)[i].contains('\n'),
    decreases s.len(),
{
    let k = CharClass::Only('\n');
    text::lemma_first_in_bounds(s, k, 0);
    let end = text::first_in(s, k, 0);
    if end < s.len() {
        if i == 0 {
            let line = s.take(end);
            assert forall|j: int| 0 <= j < line.len() implies line[j] != '\n' by {
                assert(!k.has(s[j]));
            }
            assert forall|j: int| 0 <= j < chomped(line).len() implies chomped(line)[j] != '\n' by {
                assert(chomped(line)[j] == line[j]);
            }
        } else {
            lemma_lines_have_no_line_feed(s.skip(end + 1), i - 1);
        }
    } else {
        assert forall|j: int| 0 <= j < s.len() implies s[j] != '\n' by {
            assert(!k.has(s[j]));
        }
    }
}

/// Every output is one whole line: a line feed ends it and stands nowhere else in it, and it
/// holds no NUL.
pub proof fn every_output_is_one_line(s: Seq<char>, i: int)
    requires
        0 <= i < written(lines_of(s)).len(),
    ensures
        ({
            let output = written(lines_of(s))[i];
            &&& output.len() > 0
            &&& output.last() == '\n'
            &&& !output.drop_last().contains('\n')
            &&& !output.contains('\0')
        }),
{
    lemma_written(lines_of(s), i);
    lemma_lines_have_no_line_feed(s, i);
    let line = lines_of(s)[i];
    lemma_escaped_has(line, '\n');
    assert(!line.contains('\0')) by {
        assert forall|j: int| 0 <= j < line.len() implies line[j] != '\0' by {
            assert(!CharClass::Only('\0').has(line[j]));
        }
    }
    lemma_escaped_has(line, '\0');
    let output = escaped(line).push('\n');
    assert(output.drop_last() =~= escaped(line));
    assert forall|j: int| 0 <= j < output.len() implies output[j] != '\0' by {
        if j < escaped(line).len() {
            assert(escaped(line).contains(escaped(line)[j]));
        }
    }
}

proof fn lemma_written(lines: Seq<Seq<char>>, i: int)
    requires
        0 <= i < written(lines).len(),
    ensures
        i < lines.len(),
        can_be_written(lines[i]),
        written(lines)[i] == escaped(lines[i]).push('\n'),
    decreases lines.len(),
{
    if i > 0 {
        lemma_written(lines.drop_first(), i - 1);
    }
}

/// Lines in a row, each with an ending behind it.
pub open spec fn ended(lines: Seq<Seq<char>>, ending: Seq<char>) -> Seq<char>
    decreases lines.len(),
{
    if lines.len() == 0 {
        Seq::empty()
    } else {
        lines.first() + ending + ended(lines.drop_first(), ending)
    }
}

/// Lines that were written in a row are read back as they are, each of them and in their order,
/// whether they end in a line feed or in a carriage return and a line feed. What follows the
/// last ending is a line too, unless it is nothing.
pub proof fn lines_are_read_back(lines: Seq<Seq<char>>, last: Seq<char>, ending: Seq<char>)
    requires
        ending == seq!['\n'] || ending == seq!['\r', '\n'],
        forall|i: int| 0 <= i < lines.len() ==> !(#[trigger] lines[i]).contains('\n'),
        ending.len() == 1 ==> forall|i: int|
            0 <= i < lines.len() && (#[trigger] lines[i]).len() > 0 ==> lines[i].last() != '\r',
        !last.contains('\n'),
    ensures
        lines_of(ended(lines, ending) + last) == (if last.len() == 0 {
            lines
        } else {
            lines.push(last)
        }),
    decreases lines.len(),
{
    if lines.len() == 0 {
        assert(ended(lines, ending) + last =~= last);
        assert(lines =~= Seq::empty());
        if last.len() > 0 {
            assert forall|i: int| 0 <= i < last.len() implies #[trigger] last[i] != '\n' by {
                assert(last.contains(last[i]));
            }
            lemma_last_line(last);
            assert(lines.push(last) =~= seq![last]);
        }
    } else {
        let rest = lines.drop_first();
        assert forall|i: int| 0 <= i < rest.len() implies !(#[trigger] rest[i]).contains('\n')
            && (ending.len() == 1 && rest[i].len() > 0 ==> rest[i].last() != '\r') by {
            assert(rest[i] == lines[i + 1]);
        }
        lines_are_read_back(rest, last, ending);
        let first = lines[0];
        assert(!lines[0].contains('\n'));
        let line = if ending.len() == 1 {
            first
        } else {
            first.push('\r')
        };
        assert forall|i: int| 0 <= i < line.len() implies #[trigger] line[i] != '\n' by {
            if i < first.len() {
                assert(first.contains(first[i]));
            }
        }
        let tail = ended(rest, ending) + last;
        assert(ended(lines, ending) + last =~= line + seq!['\n'] + tail);
        lemma_first_line(line, tail);
        if ending.len() == 2 {
            assert(line.drop_last() =~= first);
        }
        assert(chomped(line) == first);
        if last.len() == 0 {
            assert(seq![first] + rest =~= lines);
        } else {
            assert(seq![first] + rest.push(last) =~= lines.push(last));
        }
    }
}

/// Every percent sign is doubled, wherever it stands, and nothing else is changed.
pub proof fn each_character_is_escaped_for_itself(a: Seq<char>, b: Seq<char>, c: char)
    ensures
        escaped(a + b) == escaped(a) + escaped(b),
        escaped(seq!['%']) == seq!['%', '%'],
        c != '%' ==> escaped(seq![c]) == seq![c],
        escaped(Seq::empty()) == Seq::<char>::empty(),
    decreases b.len(),
{
    assert(seq!['%'].drop_last() =~= Seq::empty());
    assert(seq![c].drop_last() =~= Seq::empty());
    assert(escaped(Seq::<char>::empty()) =~= Seq::empty());
    if b.len() == 0 {
        assert(a + b =~= a);
        assert(escaped(a) + escaped(b) =~= escaped(a));
    } else {
        each_character_is_escaped_for_itself(a, b.drop_last(), c);
        assert((a + b).drop_last() =~= a + b.drop_last());
        assert(escaped(a + b) =~= escaped(a) + escaped(b));
    }
}

/// The debugger prints each line as it stands, in their order, and a line feed behind it, up to
/// the first line that holds a NUL; where none does, it prints all of them.
pub proof fn lines_are_printed_up_to_a_nul(lines: Seq<Seq<char>>, count: int)
    requires
        0 <= count <= lines.len(),
        forall|i: int| 0 <= i < count ==> !(#[trigger] lines[i]).contains('\0'),
        count < lines.len() ==> lines[count].contains('\0'),
    ensures
        written(lines).len() == count,
        forall|i: int|
            0 <= i < count ==> printed((#[trigger] written(lines)[i]).drop_last()) == lines[i]
                && written(lines)[i].last() == '\n',
    decreases lines.len(),
{
    if lines.len() > 0 {
        let k = CharClass::Only('\0');
        if count == 0 {
            let first = lines[0];
            let at = choose|j: int| 0 <= j < first.len() && first[j] == '\0';
            assert(k.has(first[at]));
        } else {
            let rest = lines.drop_first();
            assert forall|i: int| 0 <= i < count - 1 implies !(#[trigger] rest[i]).contains(
                '\0',
            ) by {
                assert(rest[i] == lines[i + 1]);
            }
            lines_are_printed_up_to_a_nul(rest, count - 1);
            assert(!lines[0].contains('\0'));
            assert(can_be_written(lines[0])) by {
                if text::has_any(lines[0], k) {
                    let j = choose|j: int| 0 <= j < lines[0].len() && k.has(lines[0][j]);
                    assert(lines[0].contains(lines[0][j]));
                }
            }
            assert forall|i: int| 0 <= i < count implies printed(
                (#[trigger] written(lines)[i]).drop_last(),
            ) == lines[i] && written(lines)[i].last() == '\n' by {
                if i == 0 {
                    escaped_text_is_printed_as_it_stands(lines[0]);
                    assert(escaped(lines[0]).push('\n').drop_last() =~= escaped(lines[0]));
                } else {
                    assert(written(lines)[i] == written(rest)[i - 1]);
                    assert(rest[i - 1] == lines[i]);
                }
            }
        }
    }
}

} // verus!
