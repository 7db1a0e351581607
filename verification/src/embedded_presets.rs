//! Presets that ship with the program, as a fallback for files that the user's
//! preset directory does not hold.

use vstd::prelude::*;
use crate::utils::same_text;

verus! {

/// A preset file carried inside the program.
pub struct EmbeddedPreset {
    pub filename: &'static str,
    pub content: &'static str,
}

/// Whether the entry at `index` is the first one with the given file name.
pub open spec fn is_first_named(presets: Seq<EmbeddedPreset>, filename: Seq<char>, index: int)
    -> bool {
    &&& 0 <= index < presets.len()
    &&& presets[index].filename@ == filename
    &&& forall|j: int| 0 <= j < index ==> (#[trigger] presets[j]).filename@ != filename
}

/// Looks a preset up by its file name and gives the place of the first entry
/// that carries the name, or nothing where no entry does.
pub fn find_embedded(presets: &[EmbeddedPreset], filename: &str) -> (found: Option<usize>)
    ensures
        match found {
            Some(index) => is_first_named(presets@, filename@, index as int),
            None => forall|j: int|
                0 <= j < presets@.len() ==> (#[trigger] presets@[j]).filename@ != filename@,
        },
{
    let mut i: usize = 0;
    while i < presets.len()
        invariant
            i <= presets.len(),
            forall|j: int| 0 <= j < i ==> (#[trigger] presets@[j]).filename@ != filename@,
        decreases presets.len() - i,
    {
        if same_text(presets[i].filename, filename) {
            return Some(i);
        }
        i += 1;
    }
    None
}

} // verus!
