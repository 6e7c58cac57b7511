//! Target palettes from their sources: a text with one colour to a line, or a list of tokens.
//! Entries that are no colour are reported and left out; they stop nothing.

use crate::color::{chars_of, parse_hex, Color};
use crate::error::PaletteError;
use vstd::prelude::*;
use vstd::string::*;

verus! {

/// Whether `c` is white space: a character with the Unicode property `White_Space`.
pub open spec fn is_blank(c: char) -> bool {
    let code = c as u32;
    ||| 0x09 <= code <= 0x0D
    ||| code == 0x20
    ||| code == 0x85
    ||| code == 0xA0
    ||| code == 0x1680
    ||| 0x2000 <= code <= 0x200A
    ||| code == 0x2028
    ||| code == 0x2029
    ||| code == 0x202F
    ||| code == 0x205F
    ||| code == 0x3000
}

/// The number of blank characters at the start of `text`.
pub open spec fn blank_prefix_len(text: Seq<char>) -> nat
    decreases text.len(),
{
    if text.len() > 0 && is_blank(text[0]) {
        1 + blank_prefix_len(text.skip(1))
    } else {
        0
    }
}

/// The number of blank characters at the end of `text`.
pub open spec fn blank_suffix_len(text: Seq<char>) -> nat
    decreases text.len(),
{
    if text.len() > 0 && is_blank(text.last()) {
        1 + blank_suffix_len(text.drop_last())
    } else {
        0
    }
}

/// `text` without the blank characters at its start and at its end.
pub open spec fn trimmed(text: Seq<char>) -> Seq<char> {
    let rest = text.skip(blank_prefix_len(text) as int);
    rest.take(rest.len() - blank_suffix_len(rest))
}

/// The place of the first line feed of `text` at or after `from`; the length of `text` where
/// there is none.
pub open spec fn line_end(text: Seq<char>, from: int) -> int
    decreases text.len() - from,
{
    if from >= text.len() {
        text.len() as int
    } else if text[from] == '\n' {
        from
    } else {
        line_end(text, from + 1)
    }
}

/// The lines of `text` from `from` on: the pieces between line feeds. After a last line feed
/// stands one more piece, which may be empty.
pub open spec fn lines_from(text: Seq<char>, from: int) -> Seq<Seq<char>>
    decreases text.len() - from,
{
    let end = line_end(text, from);
    if from <= end < text.len() {
        seq![text.subrange(from, end)] + lines_from(text, end + 1)
    } else {
        seq![text.subrange(from, text.len() as int)]
    }
}

/// The palette entries of a text: its lines, each without the blanks around it.
pub open spec fn text_entries(text: Seq<char>) -> Seq<Seq<char>> {
    lines_from(text, 0).map_values(|line: Seq<char>| trimmed(line))
}

/// The palette entries of a list of tokens: the tokens as they are.
pub open spec fn token_entries(tokens: Seq<String>) -> Seq<Seq<char>> {
    tokens.map_values(|token: String| token@)
}

/// The colours that `entries` denote, in order; entries that denote none are left out.
pub open spec fn accepted(entries: Seq<Seq<char>>) -> Seq<Color>
    decreases entries.len(),
{
    if entries.len() == 0 {
        Seq::empty()
    } else {
        let before = accepted(entries.drop_last());
        match parse_hex(entries.last()) {
            Some(color) => before.push(color),
            None => before,
        }
    }
}

/// An entry of a palette source that denotes no colour, as a mathematical value.
pub struct RejectedView {
    pub position: int,
    pub text: Seq<char>,
}

/// Whether `entry` is reported: it denotes no colour, and it is not an empty entry of a source
/// whose empty entries are passed over in silence.
pub open spec fn is_rejected(entry: Seq<char>, skip_empty: bool) -> bool {
    parse_hex(entry) is None && !(skip_empty && entry.len() == 0)
}

/// The entries of `entries` that are reported, in order, each with its place in `entries`.
pub open spec fn rejected(entries: Seq<Seq<char>>, skip_empty: bool) -> Seq<RejectedView>
    decreases entries.len(),
{
    if entries.len() == 0 {
        Seq::empty()
    } else {
        let before = rejected(entries.drop_last(), skip_empty);
        if is_rejected(entries.last(), skip_empty) {
            before.push(RejectedView { position: entries.len() - 1, text: entries.last() })
        } else {
            before
        }
    }
}

/// An entry of a palette source that denotes no colour: its place among the entries, counted
/// from zero (a line of the text, or a token), and its text.
#[derive(Clone, Debug, PartialEq, Eq)]
pub struct Rejected {
    pub position: usize,
    pub text: String,
}

impl View for Rejected {
    type V = RejectedView;

    open spec fn view(&self) -> RejectedView {
        RejectedView { position: self.position as int, text: self.text@ }
    }
}

/// What a palette source yielded: the colours, in the order of the source, and the entries
/// that were left out.
#[derive(Clone, Debug, PartialEq, Eq)]
pub struct PaletteLoad {
    pub colors: Vec<Color>,
    pub rejected: Vec<Rejected>,
}

impl PaletteLoad {
    /// The entries that were left out, as mathematical values.
    pub open spec fn rejected_view(self) -> Seq<RejectedView> {
        self.rejected@.map_values(|entry: Rejected| entry@)
    }

    /// The palette that was loaded. A source without a single colour gives no palette.
    pub fn into_palette(self) -> (palette: Result<Vec<Color>, PaletteError>)
        ensures
            palette is Err <==> self.colors@.len() == 0,
            palette matches Ok(colors) ==> colors@ == self.colors@,
    {
        if self.colors.len() == 0 {
            Err(PaletteError::EmptyPalette)
        } else {
            Ok(self.colors)
        }
    }
}

/// Whether `c` is white space.
pub fn is_whitespace(c: char) -> (blank: bool)
    ensures
        blank == is_blank(c),
{
    let code: u32 = c as u32;
    (0x09 <= code && code <= 0x0D) || code == 0x20 || code == 0x85 || code == 0xA0 || code
        == 0x1680 || (0x2000 <= code && code <= 0x200A) || code == 0x2028 || code == 0x2029
        || code == 0x202F || code == 0x205F || code == 0x3000
}

/// The end of the line of `chars` that starts at `from`.
fn find_line_end(chars: &Vec<char>, from: usize) -> (end: usize)
    requires
        from <= chars.len(),
    ensures
        from <= end <= chars.len(),
        end == line_end(chars@, from as int),
{
    let mut end: usize = from;
    while end < chars.len() && chars[end] != '\n'
        invariant
            from <= end <= chars.len(),
            line_end(chars@, from as int) == line_end(chars@, end as int),
        decreases chars.len() - end,
    {
        end += 1;
    }
    end
}

/// The part of `chars` between `from` and `to` that is left when the blanks at both ends are
/// taken off.
fn trim_range(chars: &Vec<char>, from: usize, to: usize) -> (range: (usize, usize))
    requires
        from <= to <= chars.len(),
    ensures
        from <= range.0 <= range.1 <= to,
        chars@.subrange(range.0 as int, range.1 as int) == trimmed(
            chars@.subrange(from as int, to as int),
        ),
{
    let ghost text = chars@.subrange(from as int, to as int);
    let mut start: usize = from;
    assert(text.skip(0) =~= text);
    while start < to && is_whitespace(chars[start])
        invariant
            from <= start <= to <= chars.len(),
            text == chars@.subrange(from as int, to as int),
            blank_prefix_len(text) == (start - from) + blank_prefix_len(text.skip(start - from)),
        decreases to - start,
    {
        assert(text.skip(start - from)[0] == chars@[start as int]);
        assert(text.skip(start - from).skip(1) =~= text.skip(start - from + 1));
        start += 1;
    }
    assert(blank_prefix_len(text.skip(start - from)) == 0) by {
        if start < to {
            assert(text.skip(start - from)[0] == chars@[start as int]);
        }
    }
    let ghost rest = text.skip(start - from);
    let mut end: usize = to;
    assert(rest.take(rest.len() as int) =~= rest);
    while end > start && is_whitespace(chars[end - 1])
        invariant
            from <= start <= end <= to <= chars.len(),
            rest == chars@.subrange(start as int, to as int),
            blank_suffix_len(rest) == (to - end) + blank_suffix_len(rest.take(end - start)),
        decreases end - start,
    {
        assert(rest.take(end - start).last() == chars@[end - 1]);
        assert(rest.take(end - start).drop_last() =~= rest.take(end - start - 1));
        end -= 1;
    }
    assert(blank_suffix_len(rest.take(end - start)) == 0) by {
        if end > start {
            assert(rest.take(end - start).last() == chars@[end - 1]);
        }
    }
    assert(chars@.subrange(start as int, end as int) =~= rest.take(rest.len() - blank_suffix_len(rest)));
    (start, end)
}

/// Loads a target palette from the content of a palette text: one colour to a line, in
/// hexadecimal notation. Lines are told apart by line feeds, and the blanks around a line
/// are not part of it. A line that is empty then is passed over; a line that denotes no
/// colour is reported with its place, counted from zero, and its text.
pub fn load_palette_from_txt(content: &str) -> (load: PaletteLoad)
    ensures
        load.colors@ == accepted(text_entries(content@)),
        load.rejected_view() == rejected(text_entries(content@), true),
{
    let chars = chars_of(content);
    let n = chars.len();
    let mut load = PaletteLoad { colors: Vec::new(), rejected: Vec::new() };
    let mut start: usize = 0;
    let mut position: usize = 0;
    let ghost done: Seq<Seq<char>> = Seq::empty();
    assert(load.rejected_view() =~= Seq::empty());
    assert(done + lines_from(chars@, 0) =~= lines_from(chars@, 0));
    loop
        invariant_except_break
            lines_from(chars@, 0) == done + lines_from(chars@, start as int),
            position == done.len(),
        invariant
            chars@ == content@,
            n == chars.len(),
            start <= n,
            position <= start,
            load.colors@ == accepted(done.map_values(|line: Seq<char>| trimmed(line))),
            load.rejected_view() == rejected(
                done.map_values(|line: Seq<char>| trimmed(line)),
                true,
            ),
        ensures
            lines_from(chars@, 0) == done,
        decreases n - start,
    {
        let end = find_line_end(&chars, start);
        let (from, to) = trim_range(&chars, start, end);
        let ghost line = chars@.subrange(start as int, end as int);
        let ghost entry = chars@.subrange(from as int, to as int);
        let ghost entries = done.map_values(|line: Seq<char>| trimmed(line));
        let ghost reported = load.rejected_view();
        proof {
            assert(done.push(line).map_values(|line: Seq<char>| trimmed(line)) =~= entries.push(
                entry,
            ));
            assert(entries.push(entry).drop_last() =~= entries);
        }
        if from < to {
            match Color::from_hex_chars(&chars, from, to) {
                Some(color) => {
                    load.colors.push(color);
                },
                None => {
                    let text = content.substring_char(from, to).to_owned();
                    let entry_rejected = Rejected { position, text };
                    load.rejected.push(entry_rejected);
                    assert(load.rejected_view() =~= reported.push(entry_rejected@));
                },
            }
        }
        proof {
            if end < n {
                assert(done.push(line) + lines_from(chars@, end + 1) =~= done + lines_from(
                    chars@,
                    start as int,
                ));
            } else {
                assert(done.push(line) =~= done + lines_from(chars@, start as int));
            }
            done = done.push(line);
        }
        if end == n {
            break ;
        }
        start = end + 1;
        position += 1;
    }
    load
}

/// Loads a target palette from a list of tokens, each one colour in hexadecimal notation. A
/// token that denotes no colour is reported with its place in the list, counted from zero,
/// and its text.
pub fn load_palette_from_args(args: &[String]) -> (load: PaletteLoad)
    ensures
        load.colors@ == accepted(token_entries(args@)),
        load.rejected_view() == rejected(token_entries(args@), false),
{
    let mut load = PaletteLoad { colors: Vec::new(), rejected: Vec::new() };
    let mut i: usize = 0;
    assert(load.rejected_view() =~= Seq::empty());
    assert(token_entries(args@.take(0)) =~= Seq::empty());
    while i < args.len()
        invariant
            i <= args.len(),
            load.colors@ == accepted(token_entries(args@.take(i as int))),
            load.rejected_view() == rejected(token_entries(args@.take(i as int)), false),
        decreases args.len() - i,
    {
        let ghost entries = token_entries(args@.take(i as int));
        let ghost reported = load.rejected_view();
        proof {
            assert(token_entries(args@.take(i + 1)) =~= entries.push(args@[i as int]@));
            assert(entries.push(args@[i as int]@).drop_last() =~= entries);
        }
        match Color::from_hex(args[i].as_str()) {
            Some(color) => {
                load.colors.push(color);
            },
            None => {
                let entry_rejected = Rejected { position: i, text: args[i].clone() };
                load.rejected.push(entry_rejected);
                assert(load.rejected_view() =~= reported.push(entry_rejected@));
            },
        }
        i += 1;
    }
    assert(args@.take(args@.len() as int) =~= args@);
    load
}

} // verus!
