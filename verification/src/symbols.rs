//! Where the symbols of a scan come from, and how a list of symbols is
//! read from text: one symbol on a line, blank lines and lines that start
//! with `#` left out, every symbol in upper case.

use crate::config::Config;
use crate::errors::ScannerError;
use crate::text::{texts, uppercased, white_space};
use vstd::prelude::*;

verus! {

/// An item of a text, with whether it counts as white space.
#[derive(Clone, Copy, Debug)]
pub struct Marked<C> {
    pub ch: C,
    pub blank: bool,
}

/// A character of a text, with whether it counts as white space.
pub type Cell = Marked<char>;

/// The characters of a sequence of cells.
pub open spec fn chars_of(cells: Seq<Cell>) -> Seq<char> {
    cells.map_values(|cell: Cell| cell.ch)
}

/// A text as cells, each character marked as std classes it.
pub open spec fn marked(text: Seq<char>) -> Seq<Cell> {
    text.map_values(|c: char| Cell { ch: c, blank: white_space(c) })
}

/// The index of the first line feed at or after `from`, or the length of
/// the text where there is none.
pub open spec fn line_end(text: Seq<Cell>, from: int) -> int
    decreases text.len() - from,
{
    if from < 0 || from >= text.len() || text[from].ch == '\n' {
        from
    } else {
        line_end(text, from + 1)
    }
}

/// The line that starts at `from` and runs up to `end`, where the text
/// ends or a line feed stands. Before a line feed a carriage return
/// belongs to the line ending, not to the line.
pub open spec fn line_between(text: Seq<Cell>, from: int, end: int) -> Seq<Cell> {
    if from < end < text.len() && text[end - 1].ch == '\r' {
        text.subrange(from, end - 1)
    } else {
        text.subrange(from, end)
    }
}

/// The lines of the text from `from` on. A line ends at a line feed or at
/// the end of the text; after the last line feed there is a line only if
/// text follows.
pub open spec fn lines_from(text: Seq<Cell>, from: int) -> Seq<Seq<Cell>>
    decreases text.len() - from,
    via lines_from_decreases
{
    if from < 0 || from >= text.len() {
        Seq::empty()
    } else {
        let end = line_end(text, from);
        if end < text.len() {
            seq![line_between(text, from, end)] + lines_from(text, end + 1)
        } else {
            seq![line_between(text, from, end)]
        }
    }
}

/// The text left after a line is shorter than the text before it.
#[via_fn]
proof fn lines_from_decreases(text: Seq<Cell>, from: int) {
    if 0 <= from < text.len() {
        lemma_line_end(text, from);
    }
}

/// A line ends at or after its start and within the text, at a line feed
/// unless the text ends first, and holds no line feed.
pub proof fn lemma_line_end(text: Seq<Cell>, from: int)
    requires
        0 <= from <= text.len(),
    ensures
        from <= line_end(text, from) <= text.len(),
        line_end(text, from) < text.len() ==> text[line_end(text, from)].ch == '\n',
        forall|i: int| from <= i < line_end(text, from) ==> (#[trigger] text[i]).ch != '\n',
    decreases text.len() - from,
{
    if from < text.len() && text[from].ch != '\n' {
        lemma_line_end(text, from + 1);
    }
}

/// The lines of a text.
pub open spec fn lines_of(text: Seq<Cell>) -> Seq<Seq<Cell>> {
    lines_from(text, 0)
}

/// The line without the blanks at its start.
pub open spec fn trim_start(line: Seq<Cell>) -> Seq<Cell>
    decreases line.len(),
{
    if line.len() > 0 && line[0].blank {
        trim_start(line.drop_first())
    } else {
        line
    }
}

/// The line without the blanks at its end.
pub open spec fn trim_end(line: Seq<Cell>) -> Seq<Cell>
    decreases line.len(),
{
    if line.len() > 0 && line.last().blank {
        trim_end(line.drop_last())
    } else {
        line
    }
}

/// The line without the blanks at its start and at its end.
pub open spec fn trimmed(line: Seq<Cell>) -> Seq<Cell> {
    trim_end(trim_start(line))
}

/// Whether a trimmed line names a symbol: it is not empty and does not
/// start with `#`.
pub open spec fn is_entry(line: Seq<Cell>) -> bool {
    line.len() > 0 && line[0].ch != '#'
}

/// The entries among the lines: each line trimmed, those that name a
/// symbol kept, as characters.
pub open spec fn entries_in(lines: Seq<Seq<Cell>>) -> Seq<Seq<char>> {
    lines.map_values(|line: Seq<Cell>| trimmed(line)).filter(|line: Seq<Cell>| is_entry(line))
        .map_values(|line: Seq<Cell>| chars_of(line))
}

/// The entries of a text, in their order.
pub open spec fn entries_of(text: Seq<Cell>) -> Seq<Seq<char>> {
    entries_in(lines_of(text))
}

/// The symbols that a text lists: its entries in upper case.
pub open spec fn symbols_in(text: Seq<char>) -> Seq<Seq<char>> {
    entries_of(marked(text)).map_values(|entry: Seq<char>| uppercased(entry))
}

/// The characters of a text.
pub fn chars_in(content: &str) -> (chars: Vec<char>)
    ensures
        chars@ == content@,
{
    let mut chars: Vec<char> = Vec::new();
    let ghost mut seen: int = 0;
    for c in it: content.chars()
        invariant
            it.seq() == content@,
            seen == it.index(),
            chars@ == content@.take(seen),
    {
        chars.push(c);
        proof {
            assert(content@.take(seen + 1) =~= content@.take(seen).push(c));
            seen = seen + 1;
        }
    }
    assert(content@.take(seen) =~= content@);
    chars
}

/// The characters of a text, each marked as std classes it.
pub fn mark(content: &str) -> (cells: Vec<Cell>)
    ensures
        cells@ == marked(content@),
{
    let chars = chars_in(content);
    let mut cells: Vec<Cell> = Vec::new();
    let mut i: usize = 0;
    while i < chars.len()
        invariant
            i <= chars.len(),
            chars@ == content@,
            cells@.len() == i,
            forall|k: int|
                0 <= k < i ==> #[trigger] cells@[k] == (Cell {
                    ch: content@[k],
                    blank: white_space(content@[k]),
                }),
        decreases chars.len() - i,
    {
        let c = chars[i];
        cells.push(Cell { ch: c, blank: c.is_whitespace() });
        i += 1;
    }
    assert(cells@ =~= marked(content@));
    cells
}

/// Where the line between `from` and `to` starts and ends once the blanks
/// at both ends are left out.
pub fn trim_bounds(cells: &[Cell], from: usize, to: usize) -> (bounds: (usize, usize))
    requires
        from <= to <= cells@.len(),
    ensures
        from <= bounds.0 <= bounds.1 <= to,
        cells@.subrange(bounds.0 as int, bounds.1 as int) == trimmed(
            cells@.subrange(from as int, to as int),
        ),
{
    let ghost line = cells@.subrange(from as int, to as int);
    let mut start = from;
    while start < to && cells[start].blank
        invariant
            from <= start <= to <= cells@.len(),
            trim_start(line) == trim_start(cells@.subrange(start as int, to as int)),
        decreases to - start,
    {
        assert(cells@.subrange(start as int, to as int).drop_first() =~= cells@.subrange(
            start + 1,
            to as int,
        ));
        start += 1;
    }
    let ghost rest = cells@.subrange(start as int, to as int);
    assert(trim_start(line) == rest);
    let mut end = to;
    while start < end && cells[end - 1].blank
        invariant
            start <= end <= to <= cells@.len(),
            rest == cells@.subrange(start as int, to as int),
            trim_end(rest) == trim_end(cells@.subrange(start as int, end as int)),
        decreases end - start,
    {
        assert(cells@.subrange(start as int, end as int).drop_last() =~= cells@.subrange(
            start as int,
            end - 1,
        ));
        end -= 1;
    }
    (start, end)
}

/// The entries of a list of lines that has one more line are those of the
/// shorter list and, where the line names a symbol, that line trimmed.
pub proof fn lemma_entries_push(lines: Seq<Seq<Cell>>, line: Seq<Cell>)
    ensures
        entries_in(lines.push(line)) == if is_entry(trimmed(line)) {
            entries_in(lines).push(chars_of(trimmed(line)))
        } else {
            entries_in(lines)
        },
{
    let trim = |line: Seq<Cell>| trimmed(line);
    let keep = |line: Seq<Cell>| is_entry(line);
    let chars = |line: Seq<Cell>| chars_of(line);
    assert(lines.push(line).map_values(trim) =~= lines.map_values(trim).push(trimmed(line)));
    lines.map_values(trim).lemma_filter_push(trimmed(line), keep);
    let kept = lines.map_values(trim).filter(keep);
    assert(kept.push(trimmed(line)).map_values(chars) =~= kept.map_values(chars).push(
        chars_of(trimmed(line)),
    ));
}

/// The entries of a marked text: each line without the blanks at its
/// ends, those kept that are not empty and do not start with `#`.
pub fn entries(cells: &[Cell]) -> (found: Vec<String>)
    ensures
        texts(found@) == entries_of(cells@),
{
    let mut found: Vec<String> = Vec::new();
    let mut pos: usize = 0;
    let ghost mut done: Seq<Seq<Cell>> = Seq::empty();
    proof {
        assert(done + lines_from(cells@, 0) =~= lines_of(cells@));
        assert(texts(found@) =~= entries_in(done)) by {
            reveal(Seq::filter);
        }
    }
    while pos < cells.len()
        invariant
            pos <= cells@.len(),
            done + lines_from(cells@, pos as int) == lines_of(cells@),
            texts(found@) == entries_in(done),
        decreases cells@.len() - pos,
    {
        let mut end = pos;
        while end < cells.len() && cells[end].ch != '\n'
            invariant
                pos <= end <= cells@.len(),
                line_end(cells@, pos as int) == line_end(cells@, end as int),
            decreases cells@.len() - end,
        {
            end += 1;
        }
        let stop = if end < cells.len() && pos < end && cells[end - 1].ch == '\r' {
            end - 1
        } else {
            end
        };
        let ghost line = line_between(cells@, pos as int, end as int);
        assert(line == cells@.subrange(pos as int, stop as int));
        let (first, last) = trim_bounds(cells, pos, stop);
        let ghost before = found@;
        if first < last && cells[first].ch != '#' {
            let mut entry = String::new();
            let mut at = first;
            while at < last
                invariant
                    first <= at <= last <= cells@.len(),
                    entry@ == chars_of(cells@.subrange(first as int, at as int)),
                decreases last - at,
            {
                entry.push(cells[at].ch);
                at += 1;
                assert(chars_of(cells@.subrange(first as int, at as int)) =~= chars_of(
                    cells@.subrange(first as int, at - 1),
                ).push(cells@[at - 1].ch));
            }
            found.push(entry);
            assert(texts(found@) =~= texts(before).push(entry@));
        }
        proof {
            let next: int = if end < cells@.len() {
                end + 1
            } else {
                end as int
            };
            assert(done.push(line) + lines_from(cells@, next) =~= done + lines_from(
                cells@,
                pos as int,
            ));
            lemma_entries_push(done, line);
            assert(trimmed(line).len() > 0 ==> trimmed(line)[0] == cells@[first as int]);
            done = done.push(line);
        }
        pos = if end < cells.len() {
            end + 1
        } else {
            end
        };
    }
    assert(done =~= lines_of(cells@));
    found
}

/// Every text in upper case, as std maps it.
pub fn uppercase_all(list: &Vec<String>) -> (upper: Vec<String>)
    ensures
        texts(upper@) == texts(list@).map_values(|entry: Seq<char>| uppercased(entry)),
{
    let mut upper: Vec<String> = Vec::new();
    let mut i: usize = 0;
    while i < list.len()
        invariant
            i <= list.len(),
            upper@.len() == i,
            forall|k: int| 0 <= k < i ==> (#[trigger] upper@[k])@ == uppercased(list@[k]@),
        decreases list.len() - i,
    {
        upper.push(list[i].as_str().to_uppercase());
        i += 1;
    }
    assert(texts(upper@) =~= texts(list@).map_values(|entry: Seq<char>| uppercased(entry)));
    upper
}

/// The symbols, unless there is none: a scan needs at least one.
pub fn require_symbols(symbols: Vec<String>) -> (checked: Result<Vec<String>, ScannerError>)
    ensures
        symbols@.len() > 0 ==> checked == Ok::<Vec<String>, ScannerError>(symbols),
        symbols@.len() == 0 ==> checked matches Err(ScannerError::NoSymbols),
{
    if symbols.len() == 0 {
        Err(ScannerError::NoSymbols)
    } else {
        Ok(symbols)
    }
}

/// The symbols that a text lists, in their order; an error where it lists
/// none.
pub fn parse_symbols(content: &str) -> (parsed: Result<Vec<String>, ScannerError>)
    ensures
        symbols_in(content@).len() > 0 ==> (parsed matches Ok(symbols) && texts(symbols@)
            == symbols_in(content@)),
        symbols_in(content@).len() == 0 ==> parsed matches Err(ScannerError::NoSymbols),
{
    let cells = mark(content);
    let found = entries(cells.as_slice());
    let symbols = uppercase_all(&found);
    require_symbols(symbols)
}

/// Where the symbols of a scan come from.
#[derive(Debug)]
pub enum SymbolSource {
    /// The symbols themselves, ready for use.
    Listed(Vec<String>),
    /// The path of a file that lists them.
    File(String),
}

/// Picks the source of the symbols. Symbols given outright come first, in
/// upper case, and an empty list of them is no source at all: a scan needs
/// at least one symbol. Then comes a file given outright, then the file
/// that the settings name. With none of them there is nothing to scan.
pub fn load_symbols(
    symbols: Option<Vec<String>>,
    symbols_file: Option<String>,
    config: &Config,
) -> (source: Result<SymbolSource, ScannerError>)
    ensures
        match (symbols, symbols_file, config.symbols_file) {
            (Some(given), _, _) => if given@.len() == 0 {
                source matches Err(ScannerError::NoSymbols)
            } else {
                source matches Ok(SymbolSource::Listed(list)) && texts(list@) == texts(
                    given@,
                ).map_values(|entry: Seq<char>| uppercased(entry))
            },
            (None, Some(path), _) => source matches Ok(SymbolSource::File(file)) && file@ == path@,
            (None, None, Some(path)) => source matches Ok(SymbolSource::File(file)) && file@
                == path@,
            (None, None, None) => source matches Err(ScannerError::NoSymbols),
        },
{
    if let Some(given) = symbols {
        let upper = uppercase_all(&given);
        assert(upper@.len() == given@.len()) by {
            assert(texts(upper@).len() == upper@.len());
            assert(texts(given@).len() == given@.len());
        }
        return match require_symbols(upper) {
            Ok(list) => Ok(SymbolSource::Listed(list)),
            Err(err) => Err(err),
        };
    }
    if let Some(path) = symbols_file {
        return Ok(SymbolSource::File(path));
    }
    if let Some(path) = &config.symbols_file {
        return Ok(SymbolSource::File(path.clone()));
    }
    Err(ScannerError::NoSymbols)
}

} // verus!
