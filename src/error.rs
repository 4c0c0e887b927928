use vstd::prelude::*;

verus! {

/// Why a palette could not be loaded.
#[derive(Clone, Debug, PartialEq, Eq)]
pub enum PaletteLoaderError {
    /// The bytes could not be read; the reader's message.
    Io(String),
    /// The bytes are not a JSON object with a `colors` array of strings; the
    /// parser's message.
    Json(String),
    /// The color at `index` of the list is not a hex color.
    HexColor { index: usize, text: String },
    /// The list of colors is empty.
    Empty,
}

} // verus!
