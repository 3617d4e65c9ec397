use vstd::prelude::*;

use crate::configuration_properties::MAP_TILE_SIZE;

verus! {

/// Number of glyph columns and rows in the ascii sprite sheet.
pub const ASCII_SHEET_COLUMNS: usize = 16;

pub const ASCII_SHEET_ROWS: usize = 16;

/// One glyph sprite: an index into the 16-by-16 ascii sheet, the glyph's
/// byte value.
#[derive(Clone, Copy, Debug, PartialEq, Eq, Structural)]
pub struct AsciiSprite {
    pub index: usize,
}

impl AsciiSprite {
    /// A sheet index exists for every byte value.
    pub open spec fn wf(self) -> bool {
        self.index < ASCII_SHEET_COLUMNS * ASCII_SHEET_ROWS
    }

    /// The sheet cell this sprite is sliced from: row first, column
    /// second, in reading order.
    pub fn sheet_cell(&self) -> (r: (usize, usize))
        requires
            self.wf(),
        ensures
            r.0 == self.index as int / ASCII_SHEET_COLUMNS as int,
            r.1 == self.index as int % ASCII_SHEET_COLUMNS as int,
    {
        (self.index / ASCII_SHEET_COLUMNS, self.index % ASCII_SHEET_COLUMNS)
    }
}

/// A line of text rendered from glyph sprites, one per byte; the glyph
/// for byte `i` of the text sits `i` tile widths right of the block's
/// anchor.
#[derive(Clone, Debug)]
pub struct AsciiText {
    pub glyphs: Vec<AsciiSprite>,
}

/// Lay a byte string out as a text block: one sheet sprite per byte, in
/// text order. Every byte has a glyph, so the layout never fails.
pub fn spawn_ascii_text(text: &Vec<u8>) -> (r: AsciiText)
    ensures
        r.glyphs@.len() == text@.len(),
        forall|i: int| 0 <= i < text@.len() ==> (#[trigger] r.glyphs@[i]).index == text@[i],
        forall|i: int| 0 <= i < text@.len() ==> (#[trigger] r.glyphs@[i]).wf(),
{
    let mut glyphs: Vec<AsciiSprite> = Vec::new();
    let mut i: usize = 0;
    while i < text.len()
        invariant
            0 <= i <= text@.len(),
            glyphs@.len() == i,
            forall|j: int| 0 <= j < i ==> (#[trigger] glyphs@[j]).index == text@[j],
            forall|j: int| 0 <= j < i ==> (#[trigger] glyphs@[j]).wf(),
        decreases text@.len() - i,
    {
        glyphs.push(AsciiSprite { index: text[i] as usize });
        i = i + 1;
    }
    AsciiText { glyphs }
}

/// How far right of the text block's anchor its glyph number `i` sits:
/// one tile width per preceding glyph.
pub fn glyph_offset(i: usize) -> (r: i64)
    requires
        i <= 100_000,
    ensures
        r == i * MAP_TILE_SIZE,
{
    (i as i64) * MAP_TILE_SIZE
}

} // verus!
