//! The loader for the textual form of object modules.
//!
//! The text is read line by line. A line ends at a line feed, and a carriage
//! return right before the line feed does not belong to it; the last line may
//! do without the line feed. The lines are, in this
//! order: the header `___b91___`; `___code___`, the two offsets of the code
//! and one line for each word of it; `___data___`, the two offsets of the
//! data and one line for each word of it; `___symboltable___` and one line
//! `name address` for each symbol; and `___end___`. What follows is not read.
//!
//! Two items on a line are separated by exactly one blank. All numbers are
//! unsigned and decimal.

use vstd::prelude::*;
use vstd::slice::{slice_subrange, slice_to_vec};
use vstd::string::StringSliceAdditionalSpecFns;
use crate::b91::{bytes_equal, span, CodeBlock, DataBlock, ModuleModel, ObjectModule, SymbolTable};
use crate::decimal::{parse_decimal, parse_u32, parse_usize};

verus! {

/// What is wrong with the text of an object module.
#[derive(Debug, PartialEq, Eq, Structural, Clone, Copy)]
pub enum LoadErrorKind {
    /// The first line is not the header.
    MissingHeader,
    /// The line where `___code___` is due is another.
    ExpectedCode,
    /// The line where `___data___` is due is another.
    ExpectedData,
    /// The line where `___symboltable___` is due is another.
    ExpectedSymbolTable,
    /// The text ends before `___end___`.
    MissingEnd,
    /// A line of offsets is not two numbers, or the second is more than one
    /// below the first.
    InvalidOffsets,
    /// A line of the code is not a number that fits a word.
    InvalidInstruction,
    /// A line of the data is not a number that fits a word.
    InvalidData,
    /// A line of the symbol table is not an ASCII name and a number.
    InvalidSymbol,
}

/// An error of the loader: what is wrong, and the index of the line, counted
/// from zero, at which it is. A line that is missing has the index that it
/// would have.
#[derive(Debug, PartialEq, Eq, Structural, Clone, Copy)]
pub struct LoadError {
    pub kind: LoadErrorKind,
    pub line: usize,
}

/// The first line of every object module.
pub open spec fn header_token() -> Seq<u8> {
    "___b91___".spec_bytes()
}

/// The line before the code block.
pub open spec fn code_token() -> Seq<u8> {
    "___code___".spec_bytes()
}

/// The line before the data block.
pub open spec fn data_token() -> Seq<u8> {
    "___data___".spec_bytes()
}

/// The line before the symbol table.
pub open spec fn symbol_table_token() -> Seq<u8> {
    "___symboltable___".spec_bytes()
}

/// The line after the symbol table.
pub open spec fn end_token() -> Seq<u8> {
    "___end___".spec_bytes()
}

/// The number of bytes from `from` on that come before the first byte
/// `stop`, or before the end of the text.
pub open spec fn run_length(text: Seq<u8>, from: int, stop: u8) -> nat
    decreases text.len() - from,
{
    if from < 0 || from >= text.len() || text[from] == stop {
        0
    } else {
        1 + run_length(text, from + 1, stop)
    }
}

/// What stands before a line feed, without the carriage return at its end,
/// if it has one.
pub open spec fn strip_cr(line: Seq<u8>) -> Seq<u8> {
    if line.len() > 0 && line.last() == 13 {
        line.drop_last()
    } else {
        line
    }
}

/// The lines of the text from the byte `from` on.
pub open spec fn lines_from(text: Seq<u8>, from: int) -> Seq<Seq<u8>>
    decreases text.len() - from,
{
    if from < 0 || from >= text.len() {
        Seq::empty()
    } else {
        let end = from + run_length(text, from, 10);
        let line = text.subrange(from, end);
        if end >= text.len() {
            seq![line]
        } else {
            seq![strip_cr(line)] + lines_from(text, end + 1)
        }
    }
}

/// The lines of a text.
pub open spec fn lines_of(text: Seq<u8>) -> Seq<Seq<u8>> {
    lines_from(text, 0)
}

/// The contents of a list of lines.
pub open spec fn texts(lines: Seq<Vec<u8>>) -> Seq<Seq<u8>> {
    Seq::new(lines.len(), |i: int| lines[i]@)
}

/// The two items of a line that holds exactly one blank: what is before it
/// and what is after it.
pub open spec fn split_pair(line: Seq<u8>) -> Option<(Seq<u8>, Seq<u8>)> {
    let blank = run_length(line, 0, 32) as int;
    if blank < line.len() && blank + 1 + run_length(line, blank + 1, 32) == line.len() {
        Some((line.subrange(0, blank), line.subrange(blank + 1, line.len() as int)))
    } else {
        None
    }
}

/// The two offsets that a line holds, if it holds two.
pub open spec fn offsets_of(line: Seq<u8>) -> Option<(usize, usize)> {
    match split_pair(line) {
        Some((first, second)) => match (
            parse_decimal(first, usize::MAX as nat),
            parse_decimal(second, usize::MAX as nat),
        ) {
            (Some(start), Some(end)) => Some((start as usize, end as usize)),
            _ => None,
        },
        None => None,
    }
}

/// The word that the line with the given index holds, if there is such a
/// line and it holds one.
pub open spec fn word_at(lines: Seq<Seq<u8>>, index: int) -> Option<u32> {
    if 0 <= index < lines.len() {
        match parse_decimal(lines[index], u32::MAX as nat) {
            Some(value) => Some(value as u32),
            None => None,
        }
    } else {
        None
    }
}

/// How many of the `count` lines from `at` on hold a word, up to the first
/// that does not.
pub open spec fn words_read(lines: Seq<Seq<u8>>, at: int, count: nat) -> nat
    decreases count,
{
    if count == 0 || word_at(lines, at) is None {
        0
    } else {
        1 + words_read(lines, at + 1, (count - 1) as nat)
    }
}

/// Every byte of the text is an ASCII character.
pub open spec fn is_ascii_text(text: Seq<u8>) -> bool {
    forall|i: int| 0 <= i < text.len() ==> #[trigger] text[i] < 128
}

/// The name and the address that a line of the symbol table holds. The name
/// is any ASCII text without a blank.
pub open spec fn symbol_of(line: Seq<u8>) -> Option<(Seq<u8>, usize)> {
    match split_pair(line) {
        Some((name, number)) => match parse_decimal(number, usize::MAX as nat) {
            Some(address) if is_ascii_text(name) => Some((name, address as usize)),
            _ => None,
        },
        None => None,
    }
}

/// The line with the given index exists and is the given one.
pub open spec fn line_is(lines: Seq<Seq<u8>>, index: int, token: Seq<u8>) -> bool {
    0 <= index < lines.len() && lines[index] == token
}

/// A block as the text gives it.
pub struct BlockModel {
    pub start: usize,
    pub end: usize,
    pub words: Seq<u32>,
}

/// The block whose line of offsets has the index `at`, and the index of the
/// line after the block; `kind` is the error for a line that holds no word.
pub open spec fn block_model(lines: Seq<Seq<u8>>, at: int, kind: LoadErrorKind) -> Result<
    (BlockModel, int),
    LoadError,
> {
    let offsets = if 0 <= at < lines.len() {
        offsets_of(lines[at])
    } else {
        None
    };
    match offsets {
        Some((start, end)) if span(start as int, end as int) >= 0 => {
            let count = span(start as int, end as int) as nat;
            let read = words_read(lines, at + 1, count);
            if read < count {
                Err(LoadError { kind, line: (at + 1 + read) as usize })
            } else {
                Ok(
                    (
                        BlockModel {
                            start,
                            end,
                            words: Seq::new(count, |k: int| word_at(lines, at + 1 + k)->Some_0),
                        },
                        at + 1 + count,
                    ),
                )
            }
        },
        _ => Err(LoadError { kind: LoadErrorKind::InvalidOffsets, line: at as usize }),
    }
}

/// The symbol table whose first line has the index `at`, added to `table`.
pub open spec fn symbols_model(lines: Seq<Seq<u8>>, at: int, table: Map<Seq<u8>, usize>) -> Result<
    Map<Seq<u8>, usize>,
    LoadError,
>
    decreases lines.len() - at,
{
    if at < 0 || at >= lines.len() {
        Err(LoadError { kind: LoadErrorKind::MissingEnd, line: lines.len() as usize })
    } else if lines[at] == end_token() {
        Ok(table)
    } else {
        match symbol_of(lines[at]) {
            Some((name, address)) => symbols_model(lines, at + 1, table.insert(name, address)),
            None => Err(LoadError { kind: LoadErrorKind::InvalidSymbol, line: at as usize }),
        }
    }
}

/// The object module that the lines describe, or the first error in them.
pub open spec fn parse_model(lines: Seq<Seq<u8>>) -> Result<ModuleModel, LoadError> {
    if !line_is(lines, 0, header_token()) {
        Err(LoadError { kind: LoadErrorKind::MissingHeader, line: 0 })
    } else if !line_is(lines, 1, code_token()) {
        Err(LoadError { kind: LoadErrorKind::ExpectedCode, line: 1 })
    } else {
        match block_model(lines, 2, LoadErrorKind::InvalidInstruction) {
            Err(error) => Err(error),
            Ok((code, after_code)) => if !line_is(lines, after_code, data_token()) {
                Err(LoadError { kind: LoadErrorKind::ExpectedData, line: after_code as usize })
            } else {
                match block_model(lines, after_code + 1, LoadErrorKind::InvalidData) {
                    Err(error) => Err(error),
                    Ok((data, after_data)) => if !line_is(
                        lines,
                        after_data,
                        symbol_table_token(),
                    ) {
                        Err(
                            LoadError {
                                kind: LoadErrorKind::ExpectedSymbolTable,
                                line: after_data as usize,
                            },
                        )
                    } else {
                        match symbols_model(lines, after_data + 1, Map::empty()) {
                            Err(error) => Err(error),
                            Ok(symbols) => Ok(
                                ModuleModel {
                                    code_start: code.start,
                                    code_end: code.end,
                                    code: code.words,
                                    data_start: data.start,
                                    data_end: data.end,
                                    data: data.words,
                                    symbols,
                                },
                            ),
                        }
                    },
                }
            },
        }
    }
}

/// In a module that the loader accepts, each block holds exactly as many
/// words as its offsets span.
pub proof fn lemma_parsed_lengths(lines: Seq<Seq<u8>>)
    requires
        parse_model(lines) is Ok,
    ensures
        parse_model(lines)->Ok_0.code.len() == span(
            parse_model(lines)->Ok_0.code_start as int,
            parse_model(lines)->Ok_0.code_end as int,
        ),
        parse_model(lines)->Ok_0.data.len() == span(
            parse_model(lines)->Ok_0.data_start as int,
            parse_model(lines)->Ok_0.data_end as int,
        ),
{
}

/// The index of the first line `___end___` at or after `at`, or the number
/// of lines if there is none.
pub open spec fn end_line(lines: Seq<Seq<u8>>, at: int) -> int
    decreases lines.len() - at,
{
    if at < 0 || at >= lines.len() || lines[at] == end_token() {
        at
    } else {
        end_line(lines, at + 1)
    }
}

/// The name that the line with the given index declares.
pub open spec fn name_at(lines: Seq<Seq<u8>>, index: int) -> Seq<u8> {
    symbol_of(lines[index])->Some_0.0
}

/// The address that the line with the given index declares.
pub open spec fn address_at(lines: Seq<Seq<u8>>, index: int) -> usize {
    symbol_of(lines[index])->Some_0.1
}

/// One of the lines from `from` up to `to` declares the name.
pub open spec fn declares(lines: Seq<Seq<u8>>, from: int, to: int, name: Seq<u8>) -> bool {
    exists|i: int| from <= i < to && #[trigger] name_at(lines, i) == name
}

/// A symbol table that the loader accepts holds exactly the declared pairs.
/// The table ends at a line `___end___`, and every line before it declares a
/// name and an address. The names of the result are those that were there
/// before and those that the lines declare. A name has the address of the
/// last line that declares it, and a name that no line declares keeps the
/// address that it had.
pub proof fn lemma_symbols_declared(lines: Seq<Seq<u8>>, at: int, table: Map<Seq<u8>, usize>)
    requires
        0 <= at,
        symbols_model(lines, at, table) is Ok,
    ensures
        at <= end_line(lines, at) < lines.len(),
        lines[end_line(lines, at)] == end_token(),
        forall|i: int| at <= i < end_line(lines, at) ==> (#[trigger] symbol_of(lines[i])) is Some,
        forall|name: Seq<u8>| #[trigger]
            symbols_model(lines, at, table)->Ok_0.dom().contains(name) <==> table.dom().contains(
                name,
            ) || declares(lines, at, end_line(lines, at), name),
        forall|i: int|
            at <= i < end_line(lines, at) && !declares(
                lines,
                i + 1,
                end_line(lines, at),
                #[trigger] name_at(lines, i),
            ) ==> symbols_model(lines, at, table)->Ok_0[name_at(lines, i)] == address_at(lines, i),
        forall|name: Seq<u8>|
            table.dom().contains(name) && !declares(lines, at, end_line(lines, at), name)
                ==> #[trigger] symbols_model(lines, at, table)->Ok_0[name] == table[name],
    decreases lines.len() - at,
{
    if lines[at] != end_token() {
        let end = end_line(lines, at);
        let result = symbols_model(lines, at, table)->Ok_0;
        let first = name_at(lines, at);
        let next = table.insert(first, address_at(lines, at));
        lemma_symbols_declared(lines, at + 1, next);
        assert forall|name: Seq<u8>|
            declares(lines, at, end, name) <==> name == first || declares(
                lines,
                at + 1,
                end,
                name,
            ) by {
        }
        assert forall|i: int|
            at <= i < end && !declares(
                lines,
                i + 1,
                end,
                #[trigger] name_at(lines, i),
            ) implies result[name_at(lines, i)] == address_at(lines, i) by {
        }
    }
}

/// The index of the first line of the symbol table in a text that the
/// loader accepts: the line after `___symboltable___`.
pub open spec fn symbols_start(lines: Seq<Seq<u8>>) -> int {
    let after_code = block_model(lines, 2, LoadErrorKind::InvalidInstruction)->Ok_0.1;
    block_model(lines, after_code + 1, LoadErrorKind::InvalidData)->Ok_0.1 + 1
}

/// In a module that the loader accepts, the symbol table holds exactly the
/// pairs that the lines between `___symboltable___` and `___end___` declare:
/// its names are the names declared there, and each has the address of the
/// last line that declares it.
pub proof fn lemma_parsed_symbols(lines: Seq<Seq<u8>>)
    requires
        parse_model(lines) is Ok,
    ensures
        symbols_start(lines) <= end_line(lines, symbols_start(lines)) < lines.len(),
        lines[end_line(lines, symbols_start(lines))] == end_token(),
        forall|name: Seq<u8>| #[trigger]
            parse_model(lines)->Ok_0.symbols.dom().contains(name) <==> declares(
                lines,
                symbols_start(lines),
                end_line(lines, symbols_start(lines)),
                name,
            ),
        forall|i: int|
            symbols_start(lines) <= i < end_line(lines, symbols_start(lines)) && !declares(
                lines,
                i + 1,
                end_line(lines, symbols_start(lines)),
                #[trigger] name_at(lines, i),
            ) ==> parse_model(lines)->Ok_0.symbols[name_at(lines, i)] == address_at(lines, i),
{
    lemma_symbols_declared(lines, symbols_start(lines), Map::empty());
}

/// Finds the first byte `stop` from `from` on, or the end of the text.
pub fn scan(text: &[u8], from: usize, stop: u8) -> (end: usize)
    requires
        from <= text@.len(),
    ensures
        end == from + run_length(text@, from as int, stop),
        from <= end <= text@.len(),
{
    let mut i: usize = from;
    while i < text.len() && text[i] != stop
        invariant
            from <= i <= text@.len(),
            from + run_length(text@, from as int, stop) == i + run_length(text@, i as int, stop),
        decreases text@.len() - i,
    {
        i += 1;
    }
    i
}

/// Cuts a text into its lines.
pub fn split_lines(data: &[u8]) -> (lines: Vec<Vec<u8>>)
    ensures
        texts(lines@) == lines_of(data@),
{
    let mut lines: Vec<Vec<u8>> = Vec::new();
    let mut from: usize = 0;
    while from < data.len()
        invariant
            texts(lines@) + lines_from(data@, from as int) == lines_of(data@),
        decreases data@.len() - from,
    {
        let end: usize = scan(data, from, 10);
        let stop: usize = if end < data.len() && end > from && data[end - 1] == 13 {
            end - 1
        } else {
            end
        };
        let line: Vec<u8> = slice_to_vec(slice_subrange(data, from, stop));
        let ghost before = texts(lines@);
        proof {
            if end < data@.len() {
                assert(line@ =~= strip_cr(data@.subrange(from as int, end as int)));
            }
        }
        lines.push(line);
        proof {
            assert(before + (seq![line@] + lines_from(data@, end + 1)) =~= (before + seq![line@])
                + lines_from(data@, end + 1));
        }
        if end == data.len() {
            return lines;
        }
        from = end + 1;
    }
    lines
}

/// Splits a line that holds exactly one blank into what is before the blank
/// and what is after it.
pub fn parse_tuple<'a>(s: &'a [u8]) -> (pair: Option<(&'a [u8], &'a [u8])>)
    ensures
        match pair {
            Some((first, second)) => split_pair(s@) == Some((first@, second@)),
            None => split_pair(s@) is None,
        },
{
    let blank: usize = scan(s, 0, 32);
    if blank >= s.len() {
        return None;
    }
    let second_blank: usize = scan(s, blank + 1, 32);
    if second_blank < s.len() {
        return None;
    }
    Some((slice_subrange(s, 0, blank), slice_subrange(s, blank + 1, s.len())))
}

/// Reads the two offsets of a block.
pub fn parse_offset_info(s: &[u8]) -> (offsets: Option<(usize, usize)>)
    ensures
        offsets == offsets_of(s@),
{
    match parse_tuple(s) {
        Some((first, second)) => match (parse_usize(first), parse_usize(second)) {
            (Some(start), Some(end)) => Some((start, end)),
            _ => None,
        },
        None => None,
    }
}

/// Reads the words of a block whose line of offsets has the index `at`.
fn parse_block(lines: &[Vec<u8>], at: usize, kind: LoadErrorKind) -> (block: Result<
    (usize, usize, Vec<u32>, usize),
    LoadError,
>)
    ensures
        match block_model(texts(lines@), at as int, kind) {
            Ok((model, next)) => block is Ok && block->Ok_0.0 == model.start && block->Ok_0.1
                == model.end && block->Ok_0.2@ == model.words && block->Ok_0.3 == next,
            Err(error) => block == Err::<(usize, usize, Vec<u32>, usize), LoadError>(error),
        },
{
    let ghost all = texts(lines@);
    if at >= lines.len() {
        return Err(LoadError { kind: LoadErrorKind::InvalidOffsets, line: at });
    }
    let (start, end) = match parse_offset_info(lines[at].as_slice()) {
        Some(offsets) => offsets,
        None => {
            return Err(LoadError { kind: LoadErrorKind::InvalidOffsets, line: at });
        },
    };
    if end < start && start - end > 1 {
        return Err(LoadError { kind: LoadErrorKind::InvalidOffsets, line: at });
    }
    let ghost count = span(start as int, end as int) as nat;
    let mut words: Vec<u32> = Vec::new();
    loop
        invariant
            all == texts(lines@),
            at < lines@.len(),
            lines@.len() <= usize::MAX,
            offsets_of(all[at as int]) == Some((start, end)),
            span(start as int, end as int) >= 0,
            count == span(start as int, end as int),
            words@.len() <= count,
            at + 1 + words@.len() <= lines@.len(),
            words_read(all, at + 1, count) == words@.len() + words_read(
                all,
                at + 1 + words@.len(),
                (count - words@.len()) as nat,
            ),
            forall|k: int|
                0 <= k < words@.len() ==> word_at(all, at + 1 + k) == Some(#[trigger] words@[k]),
        decreases count - words@.len(),
    {
        if end < start || words.len() > end - start {
            let next: usize = at + 1 + words.len();
            return Ok((start, end, words, next));
        }
        let index: usize = at + 1 + words.len();
        if index >= lines.len() {
            return Err(LoadError { kind, line: index });
        }
        match parse_u32(lines[index].as_slice()) {
            None => {
                return Err(LoadError { kind, line: index });
            },
            Some(word) => {
                words.push(word);
            },
        }
    }
}

/// Reads the code block whose line of offsets has the index `at`. Returns
/// the block and the index of the line after it.
pub fn parse_code_block(lines: &[Vec<u8>], at: usize) -> (block: Result<
    (CodeBlock, usize),
    LoadError,
>)
    ensures
        match block_model(texts(lines@), at as int, LoadErrorKind::InvalidInstruction) {
            Ok((model, next)) => block is Ok && block->Ok_0.0.wf() && block->Ok_0.0.start
                == model.start && block->Ok_0.0.end == model.end && block->Ok_0.0.instructions@
                == model.words && block->Ok_0.1 == next,
            Err(error) => block is Err && block->Err_0 == error,
        },
{
    match parse_block(lines, at, LoadErrorKind::InvalidInstruction) {
        Ok((start, end, instructions, next)) => Ok((CodeBlock { start, end, instructions }, next)),
        Err(error) => Err(error),
    }
}

/// Reads the data block whose line of offsets has the index `at`. Returns
/// the block and the index of the line after it.
pub fn parse_data_block(lines: &[Vec<u8>], at: usize) -> (block: Result<
    (DataBlock, usize),
    LoadError,
>)
    ensures
        match block_model(texts(lines@), at as int, LoadErrorKind::InvalidData) {
            Ok((model, next)) => block is Ok && block->Ok_0.0.wf() && block->Ok_0.0.start
                == model.start && block->Ok_0.0.end == model.end && block->Ok_0.0.data@
                == model.words && block->Ok_0.1 == next,
            Err(error) => block is Err && block->Err_0 == error,
        },
{
    match parse_block(lines, at, LoadErrorKind::InvalidData) {
        Ok((start, end, data, next)) => Ok((DataBlock { start, end, data }, next)),
        Err(error) => Err(error),
    }
}

/// Whether every byte of a text is an ASCII character.
pub fn all_ascii(text: &[u8]) -> (ascii: bool)
    ensures
        ascii == is_ascii_text(text@),
{
    let mut i: usize = 0;
    while i < text.len()
        invariant
            i <= text@.len(),
            forall|k: int| 0 <= k < i ==> #[trigger] text@[k] < 128,
        decreases text@.len() - i,
    {
        if text[i] >= 128 {
            return false;
        }
        i += 1;
    }
    true
}

/// Reads the symbol table whose first line has the index `at`, up to the
/// line `___end___`.
pub fn parse_symbol_table(lines: &[Vec<u8>], at: usize) -> (table: Result<SymbolTable, LoadError>)
    ensures
        match symbols_model(texts(lines@), at as int, Map::empty()) {
            Ok(symbols) => table is Ok && table->Ok_0.wf() && table->Ok_0@ == symbols,
            Err(error) => table is Err && table->Err_0 == error,
        },
{
    let ghost all = texts(lines@);
    let mut table = SymbolTable::new();
    let end = "___end___".as_bytes();
    let mut index: usize = at;
    while index < lines.len()
        invariant
            all == texts(lines@),
            end@ == end_token(),
            table.wf(),
            at <= index,
            symbols_model(all, at as int, Map::empty()) == symbols_model(all, index as int, table@),
        decreases lines@.len() - index,
    {
        let line = lines[index].as_slice();
        if bytes_equal(line, end) {
            return Ok(table);
        }
        match parse_tuple(line) {
            None => {
                return Err(LoadError { kind: LoadErrorKind::InvalidSymbol, line: index });
            },
            Some((name, number)) => match parse_usize(number) {
                Some(address) if all_ascii(name) => {
                    table.insert(slice_to_vec(name), address);
                },
                _ => {
                    return Err(LoadError { kind: LoadErrorKind::InvalidSymbol, line: index });
                },
            },
        }
        index += 1;
    }
    Err(LoadError { kind: LoadErrorKind::MissingEnd, line: lines.len() })
}

/// Whether the line with the given index exists and is the given one.
fn line_matches(lines: &[Vec<u8>], index: usize, token: &[u8]) -> (same: bool)
    ensures
        same == line_is(texts(lines@), index as int, token@),
{
    if index >= lines.len() {
        return false;
    }
    bytes_equal(lines[index].as_slice(), token)
}

/// Whether a text begins with the header of an object module.
pub fn validate_header(input: &[u8]) -> (valid: bool)
    ensures
        valid == (input@.len() >= header_token().len() && input@.subrange(
            0,
            header_token().len() as int,
        ) == header_token()),
{
    let header = "___b91___".as_bytes();
    if input.len() < header.len() {
        return false;
    }
    bytes_equal(slice_subrange(input, 0, header.len()), header)
}

/// Reads an object module from its text. The whole text is checked before a
/// module is returned; the first line that is not what is due there decides
/// the error.
pub fn parse(data: &[u8]) -> (module: Result<ObjectModule, LoadError>)
    ensures
        match parse_model(lines_of(data@)) {
            Ok(model) => module is Ok && module->Ok_0.wf() && module->Ok_0@ == model,
            Err(error) => module is Err && module->Err_0 == error,
        },
{
    let lines = split_lines(data);
    parse_lines(lines.as_slice())
}

/// Reads an object module from the lines of its text.
pub fn parse_lines(lines: &[Vec<u8>]) -> (module: Result<ObjectModule, LoadError>)
    ensures
        match parse_model(texts(lines@)) {
            Ok(model) => module is Ok && module->Ok_0.wf() && module->Ok_0@ == model,
            Err(error) => module is Err && module->Err_0 == error,
        },
{
    let total: usize = lines.len();
    if !line_matches(lines, 0, "___b91___".as_bytes()) {
        return Err(LoadError { kind: LoadErrorKind::MissingHeader, line: 0 });
    }
    if !line_matches(lines, 1, "___code___".as_bytes()) {
        return Err(LoadError { kind: LoadErrorKind::ExpectedCode, line: 1 });
    }
    let (code, after_code) = match parse_code_block(lines, 2) {
        Ok(parsed) => parsed,
        Err(error) => {
            return Err(error);
        },
    };
    if !line_matches(lines, after_code, "___data___".as_bytes()) {
        return Err(LoadError { kind: LoadErrorKind::ExpectedData, line: after_code });
    }
    let (data, after_data) = match parse_data_block(lines, after_code + 1) {
        Ok(parsed) => parsed,
        Err(error) => {
            return Err(error);
        },
    };
    if !line_matches(lines, after_data, "___symboltable___".as_bytes()) {
        return Err(LoadError { kind: LoadErrorKind::ExpectedSymbolTable, line: after_data });
    }
    let symbol_table = match parse_symbol_table(lines, after_data + 1) {
        Ok(table) => table,
        Err(error) => {
            return Err(error);
        },
    };
    Ok(ObjectModule { code, data, symbol_table })
}

} // verus!
