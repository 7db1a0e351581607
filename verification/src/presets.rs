//! Presentation of presets: which files count as shipped defaults, the order
//! of the preset list, the name a preset is listed under, the lines of its
//! description in the mixer, and the detail text of the preset browser.

use vstd::prelude::*;
use vstd::std_specs::iter::IteratorSpec;
use vstd::string::StringExecFns;
use vstd::utf8::encode_utf8;
use crate::constants::{DESC_BRIEF_CHAR_THRESHOLD, DESC_BRIEF_LINES, DESC_MAX_WIDTH};
use crate::utils::{byte_len, texts, wrap_text, wrapped};

verus! {

/// Columns that the frame and padding of the detail pane take from its width.
pub const DETAIL_MARGIN: u16 = 4;

/// The text that `textwrap::fill` returns for a text and a width: the text
/// re-wrapped so that its lines fit the width, joined with line feeds.
pub uninterp spec fn filled(text: Seq<char>, width: nat) -> Seq<char>;

/// `textwrap::fill` with a plain width, which wraps with the crate's default
/// options. The result is a function of the text and the width alone; what it
/// is, is left to the crate. Widths are those of a terminal, for which the
/// crate's line-breaking arithmetic stays in range.
#[verifier::external_body]
fn fill(text: &str, width: u16) -> (out: String)
    ensures
        out@ == filled(text@, width as nat),
{
    textwrap::fill(text, width as usize)
}

/// How much of a preset's description the mixer shows.
#[derive(Clone, Copy, Debug, PartialEq, Eq, Structural)]
pub enum PresetDescMode {
    /// Nothing.
    Hidden,
    /// The first lines, and a hint where more is left out.
    Brief,
    /// Everything.
    Full,
}

impl PresetDescMode {
    pub open spec fn spec_next(self) -> PresetDescMode {
        match self {
            PresetDescMode::Hidden => PresetDescMode::Brief,
            PresetDescMode::Brief => PresetDescMode::Full,
            PresetDescMode::Full => PresetDescMode::Hidden,
        }
    }

    /// The mode that follows in the cycle hidden, brief, full.
    pub fn next(self) -> (mode: PresetDescMode)
        ensures
            mode == self.spec_next(),
            mode != self,
            mode.spec_next().spec_next() == self,
    {
        match self {
            PresetDescMode::Hidden => PresetDescMode::Brief,
            PresetDescMode::Brief => PresetDescMode::Full,
            PresetDescMode::Full => PresetDescMode::Hidden,
        }
    }

    pub open spec fn spec_label(self) -> Seq<char> {
        match self {
            PresetDescMode::Hidden => "hidden"@,
            PresetDescMode::Brief => "brief (3 lines)"@,
            PresetDescMode::Full => "full text"@,
        }
    }

    /// Name of the mode in status messages.
    pub fn label(self) -> (text: &'static str)
        ensures
            text@ == self.spec_label(),
    {
        match self {
            PresetDescMode::Hidden => "hidden",
            PresetDescMode::Brief => "brief (3 lines)",
            PresetDescMode::Full => "full text",
        }
    }
}

/// Whether a text begins with a prefix.
pub fn has_prefix(text: &str, prefix: &str) -> (found: bool)
    ensures
        found == prefix@.is_prefix_of(text@),
{
    broadcast use vstd::string::group_string_axioms;

    let mut rest = text.chars();
    let mut wanted = prefix.chars();
    let ghost mut seen: Seq<char> = Seq::empty();
    loop
        invariant
            rest.obeys_prophetic_iter_laws(),
            wanted.obeys_prophetic_iter_laws(),
            wanted.decrease() is Some,
            seen + rest.remaining() == text@,
            seen + wanted.remaining() == prefix@,
        decreases wanted.decrease()->0,
    {
        match wanted.next() {
            None => {
                assert(seen =~= prefix@);
                assert(text@.subrange(0, seen.len() as int) =~= seen);
                return true;
            },
            Some(expected) => {
                match rest.next() {
                    None => {
                        assert(seen =~= text@);
                        assert(prefix@.len() > text@.len());
                        return false;
                    },
                    Some(c) => {
                        let ghost at = seen.len() as int;
                        assert(text@[at] == c);
                        assert(prefix@[at] == expected);
                        if c != expected {
                            assert(prefix@.len() <= text@.len() ==> text@.subrange(
                                0,
                                prefix@.len() as int,
                            )[at] == c);
                            return false;
                        }
                        proof {
                            seen = seen.push(c);
                            assert(seen + rest.remaining() =~= text@);
                            assert(seen + wanted.remaining() =~= prefix@);
                        }
                    },
                }
            },
        }
    }
}

/// Whether a file name marks a preset that ships with the program.
pub fn is_default_preset(filename: &str) -> (shipped: bool)
    ensures
        shipped == "DEFAULT_"@.is_prefix_of(filename@),
{
    has_prefix(filename, "DEFAULT_")
}

/// Lexicographic order of byte strings: the first byte that differs decides,
/// and a proper prefix comes before what it is a prefix of.
pub open spec fn bytes_before(a: Seq<u8>, b: Seq<u8>) -> bool
    decreases a.len(),
{
    if b.len() == 0 {
        false
    } else if a.len() == 0 {
        true
    } else if a[0] != b[0] {
        a[0] < b[0]
    } else {
        bytes_before(a.drop_first(), b.drop_first())
    }
}

/// Compares two byte strings lexicographically.
pub fn bytes_less(a: &[u8], b: &[u8]) -> (less: bool)
    ensures
        less == bytes_before(a@, b@),
{
    let mut i: usize = 0;
    assert(a@.skip(0) =~= a@);
    assert(b@.skip(0) =~= b@);
    while i < a.len() && i < b.len()
        invariant
            i <= a.len(),
            i <= b.len(),
            bytes_before(a@, b@) == bytes_before(a@.skip(i as int), b@.skip(i as int)),
        decreases a.len() - i,
    {
        let ghost ra = a@.skip(i as int);
        let ghost rb = b@.skip(i as int);
        assert(ra[0] == a@[i as int] && rb[0] == b@[i as int]);
        if a[i] != b[i] {
            return a[i] < b[i];
        }
        assert(ra.drop_first() =~= a@.skip(i + 1));
        assert(rb.drop_first() =~= b@.skip(i + 1));
        i += 1;
    }
    assert(a@.skip(i as int).len() == a@.len() - i);
    assert(b@.skip(i as int).len() == b@.len() - i);
    i < b.len()
}

/// Order of the preset list: shipped presets come before the user's own, and
/// within each group the file names are in byte order.
pub open spec fn listed_before(a: Seq<char>, b: Seq<char>) -> bool {
    let a_shipped = "DEFAULT_"@.is_prefix_of(a);
    let b_shipped = "DEFAULT_"@.is_prefix_of(b);
    if a_shipped != b_shipped {
        a_shipped
    } else {
        bytes_before(encode_utf8(a), encode_utf8(b))
    }
}

/// Whether the preset file `a` is listed before the preset file `b`.
pub fn preset_precedes(a: &str, b: &str) -> (before: bool)
    ensures
        before == listed_before(a@, b@),
{
    let a_shipped = is_default_preset(a);
    let b_shipped = is_default_preset(b);
    if a_shipped != b_shipped {
        a_shipped
    } else {
        bytes_less(a.as_bytes(), b.as_bytes())
    }
}

/// The byte order is a strict total order: nothing comes before itself, of two
/// byte strings at most one comes before the other, the order is transitive,
/// and whatever lies between neither of two ordered byte strings does not
/// exist: a third byte string comes after the first or before the second.
pub proof fn lemma_bytes_order(x: Seq<u8>, y: Seq<u8>, z: Seq<u8>)
    ensures
        !bytes_before(x, x),
        bytes_before(x, y) ==> !bytes_before(y, x),
        bytes_before(x, y) && bytes_before(y, z) ==> bytes_before(x, z),
        bytes_before(x, z) ==> bytes_before(x, y) || bytes_before(y, z),
    decreases x.len(),
{
    if x.len() > 0 {
        lemma_bytes_order(x.drop_first(), x.drop_first(), x.drop_first());
        if y.len() > 0 {
            lemma_bytes_order(x.drop_first(), y.drop_first(), y.drop_first());
            if z.len() > 0 {
                lemma_bytes_order(x.drop_first(), y.drop_first(), z.drop_first());
            }
        }
    }
}

/// The list order is a strict order of the same kind as the byte order.
pub proof fn lemma_list_order(a: Seq<char>, b: Seq<char>, c: Seq<char>)
    ensures
        !listed_before(a, a),
        listed_before(a, b) ==> !listed_before(b, a),
        listed_before(a, b) && listed_before(b, c) ==> listed_before(a, c),
        listed_before(a, c) ==> listed_before(a, b) || listed_before(b, c),
{
    lemma_bytes_order(encode_utf8(a), encode_utf8(b), encode_utf8(c));
    lemma_bytes_order(encode_utf8(a), encode_utf8(a), encode_utf8(a));
}

/// A preset as the browser lists it.
pub struct PresetInfo {
    pub filename: String,
    pub title: Option<String>,
    pub description: Option<String>,
    pub experimental: Option<bool>,
}

/// The file names of a list of presets.
pub open spec fn filenames(list: Seq<PresetInfo>) -> Seq<Seq<char>> {
    Seq::new(list.len(), |i: int| list[i].filename@)
}

/// Whether file names stand in list order: none is listed before a name that
/// stands earlier.
pub open spec fn in_list_order(names: Seq<Seq<char>>) -> bool {
    forall|i: int, j: int|
        0 <= i < j < names.len() ==> !listed_before(#[trigger] names[j], #[trigger] names[i])
}

/// A name put into an ordered list, behind the names that are listed before it
/// and in front of the first name that is not, leaves the list ordered.
pub proof fn lemma_insert_keeps_order(names: Seq<Seq<char>>, at: int, name: Seq<char>)
    requires
        in_list_order(names),
        0 <= at <= names.len(),
        forall|k: int| 0 <= k < at ==> listed_before(#[trigger] names[k], name),
        at < names.len() ==> !listed_before(names[at], name),
    ensures
        in_list_order(names.insert(at, name)),
{
    let grown = names.insert(at, name);
    assert forall|i: int, j: int| 0 <= i < j < grown.len() implies !listed_before(
        #[trigger] grown[j],
        #[trigger] grown[i],
    ) by {
        if j == at {
            assert(grown[i] == names[i]);
            lemma_list_order(names[i], name, name);
        } else if i == at {
            assert(grown[j] == names[j - 1]);
            if j - 1 > at {
                assert(!listed_before(names[j - 1], names[at]));
            }
            lemma_list_order(names[j - 1], names[at], name);
        } else {
            let from_i = if i < at {
                i
            } else {
                i - 1
            };
            let from_j = if j < at {
                j
            } else {
                j - 1
            };
            assert(grown[i] == names[from_i]);
            assert(grown[j] == names[from_j]);
        }
    }
}

/// Puts a list of presets into list order: shipped presets first, and each
/// group by file name. The sorted list holds the same presets, each as often
/// as the list held it.
pub fn sort_presets(list: Vec<PresetInfo>) -> (sorted: Vec<PresetInfo>)
    ensures
        in_list_order(filenames(sorted@)),
        sorted@.to_multiset() == list@.to_multiset(),
        sorted@.len() == list@.len(),
{
    broadcast use vstd::seq_lib::group_to_multiset_ensures;

    let mut rest = list;
    let mut sorted: Vec<PresetInfo> = Vec::new();
    assert(sorted@.to_multiset().add(rest@.to_multiset()) =~= list@.to_multiset());
    while rest.len() > 0
        invariant
            in_list_order(filenames(sorted@)),
            sorted@.to_multiset().add(rest@.to_multiset()) == list@.to_multiset(),
            sorted@.len() + rest@.len() == list@.len(),
        decreases rest.len(),
    {
        let ghost before_rest = rest@;
        let ghost before_sorted = sorted@;
        let item = rest.pop().unwrap();
        let mut at: usize = 0;
        loop
            invariant
                at <= sorted.len(),
                sorted@ == before_sorted,
                forall|k: int|
                    0 <= k < at ==> listed_before(
                        (#[trigger] filenames(sorted@)[k]),
                        item.filename@,
                    ),
            ensures
                at <= sorted.len(),
                sorted@ == before_sorted,
                forall|k: int|
                    0 <= k < at ==> listed_before(
                        (#[trigger] filenames(sorted@)[k]),
                        item.filename@,
                    ),
                at < sorted.len() ==> !listed_before(filenames(sorted@)[at as int], item.filename@),
            decreases sorted.len() - at,
        {
            if at >= sorted.len() {
                break ;
            }
            if !preset_precedes(sorted[at].filename.as_str(), item.filename.as_str()) {
                break ;
            }
            at += 1;
        }
        proof {
            lemma_insert_keeps_order(filenames(sorted@), at as int, item.filename@);
            assert(filenames(sorted@.insert(at as int, item)) =~= filenames(sorted@).insert(
                at as int,
                item.filename@,
            ));
            let grown = sorted@.insert(at as int, item);
            assert(grown.remove(at as int) =~= sorted@);
            assert(grown[at as int] == item);
            vstd::seq_lib::to_multiset_remove(grown, at as int);
            grown.to_multiset_ensures();
            assert(grown.contains(item));
            assert(grown.to_multiset() =~= sorted@.to_multiset().insert(item));
            assert(before_rest =~= rest@.push(item));
            vstd::seq_lib::to_multiset_build(rest@, item);
            assert(before_rest.to_multiset() =~= rest@.to_multiset().insert(item));
            assert(grown.to_multiset().add(rest@.to_multiset()) =~= before_sorted.to_multiset().add(
                before_rest.to_multiset(),
            ));
        }
        sorted.insert(at, item);
    }
    assert(rest@.to_multiset() =~= vstd::multiset::Multiset::<PresetInfo>::empty());
    assert(sorted@.to_multiset() =~= list@.to_multiset());
    sorted
}

/// Name under which a preset is listed: a lock for shipped presets and a
/// blank margin for the user's own, a tag for experimental presets, and the
/// title, or the file name where the preset has no title.
pub open spec fn listed_name(title: Option<Seq<char>>, filename: Seq<char>, experimental: bool)
    -> Seq<char> {
    (if "DEFAULT_"@.is_prefix_of(filename) {
        "🔒 "@
    } else {
        "   "@
    }) + (if experimental {
        "[EXPERIMENTAL] "@
    } else {
        ""@
    }) + (match title {
        Some(text) => text,
        None => filename,
    })
}

/// Builds the name under which a preset is listed. A preset counts as
/// experimental only where it says so.
pub fn display_name(title: Option<&str>, filename: &str, experimental: Option<bool>) -> (name:
    String)
    ensures
        name@ == listed_name(
            match title {
                Some(text) => Some(text@),
                None => None,
            },
            filename@,
            experimental == Some(true),
        ),
{
    let mut name = if is_default_preset(filename) {
        String::from_str("🔒 ")
    } else {
        String::from_str("   ")
    };
    let tag: &str = match experimental {
        Some(true) => "[EXPERIMENTAL] ",
        _ => "",
    };
    name.append(tag);
    match title {
        Some(text) => name.append(text),
        None => name.append(filename),
    }
    name
}

/// Lines of a description in the mixer: wrapped to the description width
/// behind a margin of two blanks. The brief form stops after its few lines
/// and, for a description beyond the brief threshold in bytes, ends with a
/// hint at the full text.
pub open spec fn described(description: Seq<char>, brief: bool) -> Seq<Seq<char>> {
    if brief {
        let lines = wrapped(description, DESC_MAX_WIDTH as nat, Some(DESC_BRIEF_LINES), "  "@);
        if byte_len(description) > DESC_BRIEF_CHAR_THRESHOLD {
            lines.push("  ... (press [x] on PRESET line for full text)"@)
        } else {
            lines
        }
    } else {
        wrapped(description, DESC_MAX_WIDTH as nat, None, "  "@)
    }
}

/// Lays out a description for the mixer, in its brief or its full form.
pub fn description_lines(description: &str, brief: bool) -> (lines: Vec<String>)
    ensures
        texts(lines@) == described(description@, brief),
{
    if brief {
        let mut lines = wrap_text(description, DESC_MAX_WIDTH, Some(DESC_BRIEF_LINES), "  ");
        if description.as_bytes().len() > DESC_BRIEF_CHAR_THRESHOLD {
            let ghost laid = texts(lines@);
            lines.push(String::from_str("  ... (press [x] on PRESET line for full text)"));
            assert(texts(lines@) =~= laid.push(
                "  ... (press [x] on PRESET line for full text)"@,
            ));
        }
        lines
    } else {
        wrap_text(description, DESC_MAX_WIDTH, None, "  ")
    }
}

/// Width to which the description is filled in a detail pane of the given
/// width.
pub open spec fn detail_width(area_width: u16) -> nat {
    if area_width < DETAIL_MARGIN {
        0
    } else {
        (area_width - DETAIL_MARGIN) as nat
    }
}

/// Detail text of a preset: a ruled heading with its title (or file name),
/// the description as it was filled, and the file name.
pub open spec fn detail_text(
    title: Option<Seq<char>>,
    filename: Seq<char>,
    description: Option<Seq<char>>,
) -> Seq<char> {
    "━━ "@ + (match title {
        Some(text) => text,
        None => filename,
    }) + " ━━\n\n"@ + (match description {
        Some(text) => text + "\n\n"@,
        None => ""@,
    }) + "File: "@ + filename
}

/// Puts the detail text of a preset together from its parts; the description
/// is taken as it is.
pub fn compose_detail(title: Option<&str>, filename: &str, description: Option<&str>) -> (text:
    String)
    ensures
        text@ == detail_text(
            match title {
                Some(t) => Some(t@),
                None => None,
            },
            filename@,
            match description {
                Some(d) => Some(d@),
                None => None,
            },
        ),
{
    let mut text = String::from_str("━━ ");
    match title {
        Some(t) => text.append(t),
        None => text.append(filename),
    }
    text.append(" ━━\n\n");
    match description {
        Some(d) => {
            text.append(d);
            text.append("\n\n");
        },
        None => {
            text.append("");
        },
    }
    text.append("File: ");
    text.append(filename);
    text
}

/// Detail text of a preset for a pane of the given width: the description is
/// filled to the pane's inner width.
pub fn preset_detail(
    title: Option<&str>,
    filename: &str,
    description: Option<&str>,
    area_width: u16,
) -> (text: String)
    ensures
        text@ == detail_text(
            match title {
                Some(t) => Some(t@),
                None => None,
            },
            filename@,
            match description {
                Some(d) => Some(filled(d@, detail_width(area_width))),
                None => None,
            },
        ),
{
    let width: u16 = if area_width < DETAIL_MARGIN {
        0
    } else {
        area_width - DETAIL_MARGIN
    };
    match description {
        Some(d) => {
            let fitted = fill(d, width);
            compose_detail(title, filename, Some(fitted.as_str()))
        },
        None => compose_detail(title, filename, None),
    }
}

} // verus!
