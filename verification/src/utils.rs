//! Helpers for the presentation layer: list navigation with wrap-around,
//! greedy word wrapping, text comparison and decimal numerals.

use vstd::prelude::*;
use vstd::std_specs::iter::IteratorSpec;
use vstd::string::StringExecFns;
use vstd::utf8::encode_utf8;

verus! {

/// Position reached from `current` by one step through a list of `list_len`
/// entries, wrapping at either end. A positive `direction` steps forward,
/// anything else steps backward.
pub open spec fn cycled(current: int, list_len: int, direction: int) -> int {
    if list_len == 0 {
        0
    } else if direction > 0 {
        if current >= list_len - 1 {
            0
        } else {
            current + 1
        }
    } else {
        if current == 0 {
            list_len - 1
        } else {
            current - 1
        }
    }
}

/// Steps a selection index through a list with wrap-around. A selection
/// inside the list stays inside it.
pub fn cycle_index(current: usize, list_len: usize, direction: i32) -> (next: usize)
    ensures
        next == cycled(current as int, list_len as int, direction as int),
        current < list_len ==> next < list_len,
{
    if list_len == 0 {
        return 0;
    }
    if direction > 0 {
        if current >= list_len - 1 {
            0
        } else {
            current + 1
        }
    } else {
        if current == 0 {
            list_len - 1
        } else {
            current - 1
        }
    }
}

/// `String::push` appends the given character to the end of the string.
pub assume_specification[ String::push ](text: &mut String, ch: char)
    ensures
        final(text)@ == old(text)@.push(ch),
;

/// Characters with the Unicode property White_Space.
pub open spec fn is_space(c: char) -> bool {
    let u = c as u32;
    ||| 0x09 <= u <= 0x0D
    ||| u == 0x20
    ||| u == 0x85
    ||| u == 0xA0
    ||| u == 0x1680
    ||| 0x2000 <= u <= 0x200A
    ||| u == 0x2028
    ||| u == 0x2029
    ||| u == 0x202F
    ||| u == 0x205F
    ||| u == 0x3000
}

/// Whether a character separates words.
pub fn is_whitespace(c: char) -> (space: bool)
    ensures
        space == is_space(c),
{
    let u: u32 = c as u32;
    (0x09 <= u && u <= 0x0D) || u == 0x20 || u == 0x85 || u == 0xA0 || u == 0x1680 || (0x2000 <= u
        && u <= 0x200A) || u == 0x2028 || u == 0x2029 || u == 0x202F || u == 0x205F || u == 0x3000
}

/// Words found while scanning a text from its start: those that are complete,
/// and the one that is still growing at the end of the text (empty between
/// words).
pub struct Scan {
    pub words: Seq<Seq<char>>,
    pub pending: Seq<char>,
}

/// The scan of a text: a character that is no space extends the pending word,
/// and a space completes it.
pub open spec fn scan_of(text: Seq<char>) -> Scan
    decreases text.len(),
{
    if text.len() == 0 {
        Scan { words: Seq::empty(), pending: Seq::empty() }
    } else {
        let before = scan_of(text.drop_last());
        if !is_space(text.last()) {
            Scan { words: before.words, pending: before.pending.push(text.last()) }
        } else if before.pending.len() > 0 {
            Scan { words: before.words.push(before.pending), pending: Seq::empty() }
        } else {
            before
        }
    }
}

/// The words of a text: its maximal runs of characters that are no spaces, in
/// order.
pub open spec fn words_of(text: Seq<char>) -> Seq<Seq<char>> {
    let scan = scan_of(text);
    if scan.pending.len() > 0 {
        scan.words.push(scan.pending)
    } else {
        scan.words
    }
}

/// Length of a text in bytes of UTF-8, the measure that widths are counted in.
pub open spec fn byte_len(text: Seq<char>) -> nat {
    encode_utf8(text).len()
}

/// Lines laid out so far, and the line that is still being filled.
pub struct Layout {
    pub lines: Seq<Seq<char>>,
    pub current: Seq<char>,
}

/// Whether the limit on the number of lines is reached.
pub open spec fn lines_spent(lines: nat, max_lines: Option<usize>) -> bool {
    match max_lines {
        Some(limit) => lines >= limit,
        None => false,
    }
}

/// The layout after one more word. Once the line limit is reached nothing is
/// laid out any more. Otherwise a word that would take the current line
/// beyond the width, counted with the blank before it, first sends that line
/// out behind the indent; then the word joins the current line, after a blank
/// unless it starts the line.
pub open spec fn place_word(
    layout: Layout,
    word: Seq<char>,
    max_width: nat,
    max_lines: Option<usize>,
    indent: Seq<char>,
) -> Layout {
    if lines_spent(layout.lines.len(), max_lines) {
        layout
    } else if layout.current.len() == 0 {
        Layout { lines: layout.lines, current: word }
    } else if byte_len(layout.current) + byte_len(word) + 1 > max_width {
        Layout { lines: layout.lines.push(indent + layout.current), current: word }
    } else {
        Layout { lines: layout.lines, current: layout.current.push(' ') + word }
    }
}

/// The layout after a run of words.
pub open spec fn layout_of(
    words: Seq<Seq<char>>,
    max_width: nat,
    max_lines: Option<usize>,
    indent: Seq<char>,
) -> Layout
    decreases words.len(),
{
    if words.len() == 0 {
        Layout { lines: Seq::empty(), current: Seq::empty() }
    } else {
        place_word(
            layout_of(words.drop_last(), max_width, max_lines, indent),
            words.last(),
            max_width,
            max_lines,
            indent,
        )
    }
}

/// The lines of a layout once no word is left: the line being filled goes out
/// too, unless it is empty or the line limit is reached.
pub open spec fn finished(layout: Layout, max_lines: Option<usize>, indent: Seq<char>) -> Seq<
    Seq<char>,
> {
    if layout.current.len() > 0 && !lines_spent(layout.lines.len(), max_lines) {
        layout.lines.push(indent + layout.current)
    } else {
        layout.lines
    }
}

/// The words of a text wrapped greedily to a width, each line behind the
/// indent, and no more lines than the limit allows.
pub open spec fn wrapped(
    text: Seq<char>,
    max_width: nat,
    max_lines: Option<usize>,
    indent: Seq<char>,
) -> Seq<Seq<char>> {
    finished(layout_of(words_of(text), max_width, max_lines, indent), max_lines, indent)
}

/// The texts of a list of strings.
pub open spec fn texts(lines: Seq<String>) -> Seq<Seq<char>> {
    Seq::new(lines.len(), |i: int| lines[i]@)
}

/// A layout never holds more lines than the limit, and each of its lines
/// begins with the indent.
pub proof fn lemma_layout_within_limit(
    words: Seq<Seq<char>>,
    max_width: nat,
    max_lines: Option<usize>,
    indent: Seq<char>,
)
    ensures
        max_lines matches Some(limit) ==> layout_of(words, max_width, max_lines, indent).lines.len()
            <= limit,
        forall|i: int|
            0 <= i < layout_of(words, max_width, max_lines, indent).lines.len() ==> indent.is_prefix_of(
                #[trigger] layout_of(words, max_width, max_lines, indent).lines[i],
            ),
    decreases words.len(),
{
    if words.len() > 0 {
        lemma_layout_within_limit(words.drop_last(), max_width, max_lines, indent);
        let before = layout_of(words.drop_last(), max_width, max_lines, indent);
        assert(indent.is_prefix_of(indent + before.current));
    }
}

/// Wrapped text keeps to the line limit, and every line begins with the
/// indent.
pub proof fn lemma_wrapped_within_limit(
    text: Seq<char>,
    max_width: nat,
    max_lines: Option<usize>,
    indent: Seq<char>,
)
    ensures
        max_lines matches Some(limit) ==> wrapped(text, max_width, max_lines, indent).len()
            <= limit,
        forall|i: int|
            0 <= i < wrapped(text, max_width, max_lines, indent).len() ==> indent.is_prefix_of(
                #[trigger] wrapped(text, max_width, max_lines, indent)[i],
            ),
{
    let layout = layout_of(words_of(text), max_width, max_lines, indent);
    lemma_layout_within_limit(words_of(text), max_width, max_lines, indent);
    assert(indent.is_prefix_of(indent + layout.current));
}

/// Words in a row with a blank between neighbours.
pub open spec fn joined(words: Seq<Seq<char>>) -> Seq<char>
    decreases words.len(),
{
    if words.len() == 0 {
        Seq::empty()
    } else if words.len() == 1 {
        words[0]
    } else {
        joined(words.drop_last()).push(' ') + words.last()
    }
}

/// The words of a layout, line by line: those of the lines laid out, and those
/// of the line that is being filled.
pub struct Grouping {
    pub lines: Seq<Seq<Seq<char>>>,
    pub current: Seq<Seq<char>>,
}

/// The words that a grouping holds, in their order.
pub open spec fn taken(grouping: Grouping) -> Seq<Seq<char>> {
    grouping.lines.flatten() + grouping.current
}

/// Whether a word still fits on a line that holds the given words: with the
/// blank before it, the line stays within the width.
pub open spec fn still_fits(line: Seq<Seq<char>>, word: Seq<char>, max_width: nat) -> bool {
    byte_len(joined(line)) + byte_len(word) + 1 <= max_width
}

/// The grouping of the words of a layout. It follows the layout word by word:
/// a word that starts a line starts a group, a word that joins a line joins
/// its group, and words behind the line limit belong to no group.
pub open spec fn grouping_of(
    words: Seq<Seq<char>>,
    max_width: nat,
    max_lines: Option<usize>,
    indent: Seq<char>,
) -> Grouping
    decreases words.len(),
{
    if words.len() == 0 {
        Grouping { lines: Seq::empty(), current: Seq::empty() }
    } else {
        let before = layout_of(words.drop_last(), max_width, max_lines, indent);
        let grouping = grouping_of(words.drop_last(), max_width, max_lines, indent);
        if lines_spent(before.lines.len(), max_lines) {
            grouping
        } else if before.current.len() == 0 {
            Grouping { lines: grouping.lines, current: seq![words.last()] }
        } else if byte_len(before.current) + byte_len(words.last()) + 1 > max_width {
            Grouping { lines: grouping.lines.push(grouping.current), current: seq![words.last()] }
        } else {
            Grouping { lines: grouping.lines, current: grouping.current.push(words.last()) }
        }
    }
}

/// A layout keeps the words and their order, and it is greedy.
///
/// Every line is its words joined by blanks behind the indent, and the line
/// that is being filled is its words joined by blanks. The words of the lines
/// and of the line being filled, in a row, are the words that were laid out:
/// all of them while the line limit is not reached, and a leading part of them
/// once it is. And no line ends early: the word that follows a line, be it the
/// first of the next line or of the line being filled, did not fit on it any
/// more.
pub proof fn lemma_layout_keeps_words(
    words: Seq<Seq<char>>,
    max_width: nat,
    max_lines: Option<usize>,
    indent: Seq<char>,
)
    requires
        forall|i: int| 0 <= i < words.len() ==> (#[trigger] words[i]).len() > 0,
    ensures
        ({
            let layout = layout_of(words, max_width, max_lines, indent);
            let grouping = grouping_of(words, max_width, max_lines, indent);
            &&& layout.lines.len() == grouping.lines.len()
            &&& layout.current == joined(grouping.current)
            &&& (layout.current.len() == 0 <==> grouping.current.len() == 0)
            &&& forall|i: int|
                0 <= i < grouping.lines.len() ==> (#[trigger] grouping.lines[i]).len() > 0
                    && layout.lines[i] == indent + joined(grouping.lines[i])
            &&& taken(grouping).is_prefix_of(words)
            &&& !lines_spent(layout.lines.len(), max_lines) ==> taken(grouping) == words
            &&& forall|i: int|
                0 <= i < grouping.lines.len() - 1 ==> !still_fits(
                    #[trigger] grouping.lines[i],
                    grouping.lines[i + 1][0],
                    max_width,
                )
            &&& grouping.lines.len() > 0 ==> grouping.current.len() > 0 && !still_fits(
                grouping.lines.last(),
                grouping.current[0],
                max_width,
            )
        }),
    decreases words.len(),
{
    let layout = layout_of(words, max_width, max_lines, indent);
    let grouping = grouping_of(words, max_width, max_lines, indent);
    if words.len() == 0 {
        assert(taken(grouping) =~= words);
    } else {
        let earlier = words.drop_last();
        let word = words.last();
        assert forall|i: int| 0 <= i < earlier.len() implies (#[trigger] earlier[i]).len() > 0 by {
            assert(earlier[i] == words[i]);
        }
        lemma_layout_keeps_words(earlier, max_width, max_lines, indent);
        let before = layout_of(earlier, max_width, max_lines, indent);
        let held = grouping_of(earlier, max_width, max_lines, indent);
        assert(earlier.push(word) =~= words);
        assert(word.len() > 0);
        if lines_spent(before.lines.len(), max_lines) {
            assert(taken(held).is_prefix_of(words));
        } else if before.current.len() == 0 {
            assert(joined(seq![word]) == word);
            assert(held.current =~= Seq::<Seq<char>>::empty());
            assert(taken(grouping) =~= taken(held).push(word));
            assert(taken(grouping) =~= words);
        } else if byte_len(before.current) + byte_len(word) + 1 > max_width {
            assert(joined(seq![word]) == word);
            held.lines.lemma_flatten_push(held.current);
            assert(taken(grouping) =~= taken(held).push(word));
            assert(taken(grouping) =~= words);
            assert forall|i: int| 0 <= i < grouping.lines.len() - 1 implies !still_fits(
                #[trigger] grouping.lines[i],
                grouping.lines[i + 1][0],
                max_width,
            ) by {
                if i + 1 < held.lines.len() {
                    assert(grouping.lines[i] == held.lines[i]);
                    assert(grouping.lines[i + 1] == held.lines[i + 1]);
                } else {
                    assert(grouping.lines[i] == held.lines.last());
                    assert(grouping.lines[i + 1] == held.current);
                }
            }
        } else {
            let grown = held.current.push(word);
            assert(grown.drop_last() =~= held.current);
            assert(grown.last() == word);
            assert(joined(grown) == joined(held.current).push(' ') + word);
            assert(taken(grouping) =~= taken(held).push(word));
            assert(taken(grouping) =~= words);
            assert(grown[0] == held.current[0]);
        }
    }
}

/// Wrapping keeps the words of a text and their order, and it is greedy: the
/// lines are the words of the text, joined by blanks behind the indent, each
/// line taking every word that still fits. Without a line limit no word is
/// left out.
pub proof fn lemma_wrapped_keeps_words(
    text: Seq<char>,
    max_width: nat,
    max_lines: Option<usize>,
    indent: Seq<char>,
)
    ensures
        ({
            let words = words_of(text);
            let grouping = grouping_of(words, max_width, max_lines, indent);
            let lines = wrapped(text, max_width, max_lines, indent);
            &&& taken(grouping).is_prefix_of(words)
            &&& max_lines is None ==> taken(grouping) == words
            &&& grouping.lines.len() <= lines.len() <= grouping.lines.len() + 1
            &&& forall|i: int|
                0 <= i < grouping.lines.len() ==> #[trigger] lines[i] == indent + joined(
                    grouping.lines[i],
                )
            &&& lines.len() > grouping.lines.len() ==> lines.last() == indent + joined(
                grouping.current,
            )
            &&& max_lines is None && grouping.current.len() > 0 ==> lines.len()
                == grouping.lines.len() + 1
            &&& forall|i: int|
                0 <= i < grouping.lines.len() - 1 ==> !still_fits(
                    #[trigger] grouping.lines[i],
                    grouping.lines[i + 1][0],
                    max_width,
                )
            &&& grouping.lines.len() > 0 ==> grouping.current.len() > 0 && !still_fits(
                grouping.lines.last(),
                grouping.current[0],
                max_width,
            )
        }),
{
    lemma_words_are_spaceless(text);
    lemma_layout_keeps_words(words_of(text), max_width, max_lines, indent);
}

/// A text without white space: what a word is made of.
pub open spec fn spaceless(text: Seq<char>) -> bool {
    forall|i: int| 0 <= i < text.len() ==> !is_space(#[trigger] text[i])
}

/// A line body keeps to a width if it is no longer than the width, or if it
/// is a single word, which cannot be broken.
pub open spec fn keeps_width(body: Seq<char>, max_width: nat) -> bool {
    byte_len(body) <= max_width || (body.len() > 0 && spaceless(body))
}

/// Every word of a scan, complete or pending, is free of white space, and the
/// complete ones are not empty.
pub proof fn lemma_scan_words_are_spaceless(text: Seq<char>)
    ensures
        spaceless(scan_of(text).pending),
        forall|i: int|
            0 <= i < scan_of(text).words.len() ==> (#[trigger] scan_of(text).words[i]).len() > 0
                && spaceless(scan_of(text).words[i]),
    decreases text.len(),
{
    if text.len() > 0 {
        lemma_scan_words_are_spaceless(text.drop_last());
    }
}

/// The words of a text are not empty and free of white space.
pub proof fn lemma_words_are_spaceless(text: Seq<char>)
    ensures
        forall|i: int|
            0 <= i < words_of(text).len() ==> (#[trigger] words_of(text)[i]).len() > 0 && spaceless(
                words_of(text)[i],
            ),
{
    lemma_scan_words_are_spaceless(text);
}

/// The test that keeps the characters that are no white space.
pub open spec fn no_space() -> spec_fn(char) -> bool {
    |c: char| !is_space(c)
}

/// The characters of a scan's words, in order, are the characters of the text
/// that are no white space.
pub proof fn lemma_scan_covers_text(text: Seq<char>)
    ensures
        scan_of(text).words.flatten() + scan_of(text).pending == text.filter(no_space()),
    decreases text.len(),
{
    reveal(Seq::filter);
    if text.len() == 0 {
        assert(scan_of(text).words.flatten() + scan_of(text).pending =~= text.filter(no_space()));
    } else {
        lemma_scan_covers_text(text.drop_last());
        let before = scan_of(text.drop_last());
        if is_space(text.last()) && before.pending.len() > 0 {
            before.words.lemma_flatten_push(before.pending);
        }
        assert(scan_of(text).words.flatten() + scan_of(text).pending =~= text.filter(no_space()));
    }
}

/// Splitting a text into words loses nothing but white space, and adds
/// nothing: the words in a row are the text without its white space.
pub proof fn lemma_words_cover_text(text: Seq<char>)
    ensures
        words_of(text).flatten() == text.filter(no_space()),
{
    lemma_scan_covers_text(text);
    let scan = scan_of(text);
    if scan.pending.len() > 0 {
        scan.words.lemma_flatten_push(scan.pending);
    }
    assert(words_of(text).flatten() =~= text.filter(no_space()));
}

/// The bytes of two texts in a row are the bytes of the first followed by the
/// bytes of the second.
pub proof fn lemma_byte_len_adds(a: Seq<char>, b: Seq<char>)
    ensures
        encode_utf8(a + b) == encode_utf8(a) + encode_utf8(b),
        byte_len(a + b) == byte_len(a) + byte_len(b),
    decreases a.len(),
{
    if a.len() == 0 {
        assert(a + b =~= b);
        assert(encode_utf8(a) + encode_utf8(b) =~= encode_utf8(b));
    } else {
        lemma_byte_len_adds(a.drop_first(), b);
        assert((a + b).drop_first() =~= a.drop_first() + b);
        assert((a + b)[0] == a[0]);
        assert(encode_utf8(a + b) =~= encode_utf8(a) + encode_utf8(b));
    }
}

/// A blank takes one byte.
pub proof fn lemma_blank_is_one_byte()
    ensures
        byte_len(seq![' ']) == 1,
{
    let blank = seq![' '];
    assert(blank.drop_first() =~= Seq::<char>::empty());
    assert(encode_utf8(blank.drop_first()) =~= Seq::<u8>::empty()) by {
        reveal_with_fuel(encode_utf8, 1);
    }
    assert(encode_utf8(blank).len() == 1) by {
        reveal_with_fuel(encode_utf8, 2);
        assert(blank[0] as u32 == 0x20);
    }
}

/// Laying out words keeps every line to the width: behind the indent, a line
/// is no longer than the width unless it is a single word. The same holds of
/// the line that is being filled.
pub proof fn lemma_layout_keeps_width(
    words: Seq<Seq<char>>,
    max_width: nat,
    max_lines: Option<usize>,
    indent: Seq<char>,
)
    requires
        forall|i: int| 0 <= i < words.len() ==> (#[trigger] words[i]).len() > 0 && spaceless(words[i]),
    ensures
        layout_of(words, max_width, max_lines, indent).current.len() > 0 ==> keeps_width(
            layout_of(words, max_width, max_lines, indent).current,
            max_width,
        ),
        forall|i: int|
            0 <= i < layout_of(words, max_width, max_lines, indent).lines.len() ==> keeps_width(
                (#[trigger] layout_of(words, max_width, max_lines, indent).lines[i]).skip(
                    indent.len() as int,
                ),
                max_width,
            ),
    decreases words.len(),
{
    if words.len() > 0 {
        let earlier = words.drop_last();
        let word = words.last();
        assert forall|i: int| 0 <= i < earlier.len() implies (#[trigger] earlier[i]).len() > 0
            && spaceless(earlier[i]) by {
            assert(earlier[i] == words[i]);
        }
        lemma_layout_keeps_width(earlier, max_width, max_lines, indent);
        let before = layout_of(earlier, max_width, max_lines, indent);
        let after = layout_of(words, max_width, max_lines, indent);
        assert(word.len() > 0 && spaceless(word));
        assert((indent + before.current).skip(indent.len() as int) =~= before.current);
        if !lines_spent(before.lines.len(), max_lines) && before.current.len() > 0 && byte_len(
            before.current,
        ) + byte_len(word) + 1 <= max_width {
            lemma_byte_len_adds(before.current, seq![' ']);
            lemma_byte_len_adds(before.current + seq![' '], word);
            lemma_blank_is_one_byte();
            assert(before.current.push(' ') =~= before.current + seq![' ']);
            assert(byte_len(after.current) <= max_width);
        }
    }
}

/// Wrapped text keeps to the width: behind the indent, every line is no longer
/// than the width in bytes, unless it is a single word that is longer than the
/// width by itself.
pub proof fn lemma_wrapped_keeps_width(
    text: Seq<char>,
    max_width: nat,
    max_lines: Option<usize>,
    indent: Seq<char>,
)
    ensures
        forall|i: int|
            0 <= i < wrapped(text, max_width, max_lines, indent).len() ==> keeps_width(
                (#[trigger] wrapped(text, max_width, max_lines, indent)[i]).skip(indent.len() as int),
                max_width,
            ),
{
    let words = words_of(text);
    lemma_words_are_spaceless(text);
    lemma_layout_keeps_width(words, max_width, max_lines, indent);
    let layout = layout_of(words, max_width, max_lines, indent);
    assert((indent + layout.current).skip(indent.len() as int) =~= layout.current);
}

/// Puts a completed word into the layout that `lines` and `current` hold.
fn place(
    lines: &mut Vec<String>,
    current: &mut String,
    word: &String,
    max_width: usize,
    max_lines: Option<usize>,
    indent: &str,
)
    ensures
        (Layout { lines: texts(final(lines)@), current: final(current)@ }) == place_word(
            Layout { lines: texts(old(lines)@), current: old(current)@ },
            word@,
            max_width as nat,
            max_lines,
            indent@,
        ),
{
    let spent: bool = match max_lines {
        Some(limit) => lines.len() >= limit,
        None => false,
    };
    if spent {
        return ;
    }
    let current_len: usize = current.as_str().as_bytes().len();
    let word_len: usize = word.as_str().as_bytes().len();
    if current.as_str().is_empty() {
        current.append(word.as_str());
        assert(current@ =~= word@);
    } else if current_len as u128 + word_len as u128 + 1 > max_width as u128 {
        let mut line = String::from_str(indent);
        line.append(current.as_str());
        lines.push(line);
        *current = word.clone();
        assert(texts(lines@) =~= texts(old(lines)@).push(indent@ + old(current)@));
    } else {
        current.push(' ');
        current.append(word.as_str());
    }
}

/// Wraps a text to a maximum width.
///
/// The text is split into words at white space. Words are laid out greedily:
/// a word goes on the current line as long as the line, with a blank before
/// the word, stays within `max_width` bytes; a word longer than the width
/// stands alone on a line. Each line is prefixed with `indent`, which does not
/// count towards the width. With `max_lines` given, at most that many lines
/// are returned and the rest of the text is left out.
pub fn wrap_text(text: &str, max_width: usize, max_lines: Option<usize>, indent: &str) -> (lines:
    Vec<String>)
    ensures
        texts(lines@) == wrapped(text@, max_width as nat, max_lines, indent@),
        max_lines matches Some(limit) ==> lines@.len() <= limit,
        forall|i: int| 0 <= i < lines@.len() ==> indent@.is_prefix_of(#[trigger] lines@[i]@),
        forall|i: int|
            0 <= i < lines@.len() ==> keeps_width(
                (#[trigger] lines@[i]@).skip(indent@.len() as int),
                max_width as nat,
            ),
{
    broadcast use vstd::string::group_string_axioms;

    let mut lines: Vec<String> = Vec::new();
    let mut current = String::new();
    let mut word = String::new();
    let ghost mut seen: Seq<char> = Seq::empty();
    let mut it = text.chars();
    assert(texts(lines@) =~= Seq::<Seq<char>>::empty());
    loop
        invariant
            it.obeys_prophetic_iter_laws(),
            it.decrease() is Some,
            seen + it.remaining() == text@,
            word@ == scan_of(seen).pending,
            (Layout { lines: texts(lines@), current: current@ }) == layout_of(
                scan_of(seen).words,
                max_width as nat,
                max_lines,
                indent@,
            ),
        ensures
            seen == text@,
            word@ == scan_of(seen).pending,
            (Layout { lines: texts(lines@), current: current@ }) == layout_of(
                scan_of(seen).words,
                max_width as nat,
                max_lines,
                indent@,
            ),
        decreases it.decrease()->0,
    {
        match it.next() {
            Some(c) => {
                let ghost before = seen;
                proof {
                    seen = seen.push(c);
                    assert(seen.drop_last() =~= before);
                    assert(seen.last() == c);
                }
                if !is_whitespace(c) {
                    word.push(c);
                } else if !word.as_str().is_empty() {
                    place(&mut lines, &mut current, &word, max_width, max_lines, indent);
                    word = String::new();
                    proof {
                        let words = scan_of(seen).words;
                        assert(words.drop_last() =~= scan_of(before).words);
                        assert(words.last() == scan_of(before).pending);
                    }
                }
            },
            None => {
                assert(seen =~= text@);
                break ;
            },
        }
    }
    if !word.as_str().is_empty() {
        let ghost words = scan_of(seen).words.push(word@);
        place(&mut lines, &mut current, &word, max_width, max_lines, indent);
        proof {
            assert(words.drop_last() =~= scan_of(seen).words);
            assert(words.last() == word@);
        }
    }
    let spent: bool = match max_lines {
        Some(limit) => lines.len() >= limit,
        None => false,
    };
    if !current.as_str().is_empty() && !spent {
        let mut line = String::from_str(indent);
        line.append(current.as_str());
        let ghost laid = texts(lines@);
        lines.push(line);
        assert(texts(lines@) =~= laid.push(indent@ + current@));
    }
    proof {
        lemma_wrapped_within_limit(text@, max_width as nat, max_lines, indent@);
        assert(texts(lines@).len() == lines@.len());
        assert forall|i: int| 0 <= i < lines@.len() implies indent@.is_prefix_of(
            #[trigger] lines@[i]@,
        ) by {
            let laid = wrapped(text@, max_width as nat, max_lines, indent@);
            assert(texts(lines@) == laid);
            assert(laid[i] == lines@[i]@);
            assert(indent@.is_prefix_of(laid[i]));
        }
        lemma_wrapped_keeps_width(text@, max_width as nat, max_lines, indent@);
        assert forall|i: int| 0 <= i < lines@.len() implies keeps_width(
            (#[trigger] lines@[i]@).skip(indent@.len() as int),
            max_width as nat,
        ) by {
            let laid = wrapped(text@, max_width as nat, max_lines, indent@);
            assert(texts(lines@) == laid);
            assert(laid[i] == lines@[i]@);
            assert(keeps_width(laid[i].skip(indent@.len() as int), max_width as nat));
        }
    }
    lines
}

/// The character of a decimal digit.
pub open spec fn digit_char(digit: nat) -> char {
    if digit == 0 {
        '0'
    } else if digit == 1 {
        '1'
    } else if digit == 2 {
        '2'
    } else if digit == 3 {
        '3'
    } else if digit == 4 {
        '4'
    } else if digit == 5 {
        '5'
    } else if digit == 6 {
        '6'
    } else if digit == 7 {
        '7'
    } else if digit == 8 {
        '8'
    } else {
        '9'
    }
}

/// The decimal numeral of a number: its digits, most significant first,
/// without leading zeros.
pub open spec fn decimal(value: nat) -> Seq<char>
    decreases value,
{
    if value < 10 {
        seq![digit_char(value)]
    } else {
        decimal(value / 10).push(digit_char(value % 10))
    }
}

/// Appends the decimal numeral of a number to a text.
pub fn push_decimal(text: &mut String, value: u64)
    ensures
        final(text)@ == old(text)@ + decimal(value as nat),
    decreases value,
{
    if value >= 10 {
        push_decimal(text, value / 10);
    }
    let digit: u64 = value % 10;
    let c: char = if digit == 0 {
        '0'
    } else if digit == 1 {
        '1'
    } else if digit == 2 {
        '2'
    } else if digit == 3 {
        '3'
    } else if digit == 4 {
        '4'
    } else if digit == 5 {
        '5'
    } else if digit == 6 {
        '6'
    } else if digit == 7 {
        '7'
    } else if digit == 8 {
        '8'
    } else {
        '9'
    };
    text.push(c);
    assert(text@ =~= old(text)@ + decimal(value as nat));
}

/// The decimal numeral of a number.
pub fn decimal_string(value: u64) -> (text: String)
    ensures
        text@ == decimal(value as nat),
{
    let mut text = String::new();
    push_decimal(&mut text, value);
    assert(text@ =~= decimal(value as nat));
    text
}

/// Whether two texts are the same, character by character.
pub fn same_text(a: &str, b: &str) -> (same: bool)
    ensures
        same == (a@ == b@),
{
    let left = a.to_owned();
    let right = b.to_owned();
    left == right
}

} // verus!
