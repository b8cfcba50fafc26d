use vstd::prelude::*;

verus! {

/// Number of colours in the beat-synced palette.
pub const PALETTE_LEN: usize = 6;

/// The beat-synced palette as a mathematical table: entry `i` is `(r, g, b)`.
pub open spec fn palette_rgb(index: int) -> (u8, u8, u8) {
    if index == 0 {
        (0, 100, 255)  // electric blue
    } else if index == 1 {
        (255, 0, 180)  // hot magenta
    } else if index == 2 {
        (0, 220, 170)  // teal
    } else if index == 3 {
        (255, 160, 0)  // amber
    } else if index == 4 {
        (140, 0, 255)  // purple
    } else {
        (255, 80, 30)  // coral
    }
}

/// Colour of palette entry `index`.
pub fn palette_color(index: usize) -> (rgb: (u8, u8, u8))
    requires
        index < PALETTE_LEN,
    ensures
        rgb == palette_rgb(index as int),
{
    if index == 0 {
        (0, 100, 255)
    } else if index == 1 {
        (255, 0, 180)
    } else if index == 2 {
        (0, 220, 170)
    } else if index == 3 {
        (255, 160, 0)
    } else if index == 4 {
        (140, 0, 255)
    } else {
        (255, 80, 30)
    }
}

/// Palette entry chosen for a section kind, `None` for a kind with no colour
/// of its own (the beat then falls back to its bar number).
pub open spec fn kind_palette(kind: Seq<char>) -> Option<usize> {
    if kind == "intro"@ {
        Some(0)
    } else if kind == "verse"@ {
        Some(2)
    } else if kind == "chorus"@ {
        Some(1)
    } else if kind == "buildup"@ {
        Some(3)
    } else if kind == "drop"@ {
        Some(4)
    } else if kind == "breakdown"@ {
        Some(5)
    } else if kind == "bridge"@ {
        Some(0)
    } else if kind == "outro"@ {
        Some(2)
    } else {
        None
    }
}

/// Whether two strings hold the same characters.
pub(crate) fn same_text(a: &str, b: &str) -> (r: bool)
    ensures
        r == (a@ == b@),
{
    let x = a.to_owned();
    let y = b.to_owned();
    x == y
}

/// Maps a section kind to its palette entry.
pub fn section_palette_index(kind: &str) -> (r: Option<usize>)
    ensures
        r == kind_palette(kind@),
        r matches Some(i) ==> i < PALETTE_LEN,
{
    if same_text(kind, "intro") {
        Some(0)
    } else if same_text(kind, "verse") {
        Some(2)
    } else if same_text(kind, "chorus") {
        Some(1)
    } else if same_text(kind, "buildup") {
        Some(3)
    } else if same_text(kind, "drop") {
        Some(4)
    } else if same_text(kind, "breakdown") {
        Some(5)
    } else if same_text(kind, "bridge") {
        Some(0)
    } else if same_text(kind, "outro") {
        Some(2)
    } else {
        None
    }
}

} // verus!
