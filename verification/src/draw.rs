//! What the screen is asked to show. The library decides which glyphs go
//! where and in which colours; the console itself lives outside it.
use vstd::prelude::*;
use crate::worldgen::Frames;

verus! {

/// An RGB colour.
#[derive(Debug, Copy, Clone, PartialEq, Eq, Structural)]
pub struct Color {
    pub r: u8,
    pub g: u8,
    pub b: u8,
}

pub open spec fn rgb(r: u8, g: u8, b: u8) -> Color {
    Color { r, g, b }
}

pub fn color(r: u8, g: u8, b: u8) -> (c: Color)
    ensures
        c == rgb(r, g, b),
{
    Color { r, g, b }
}

/// How a glyph is blended with the cell's background: `Keep` leaves the
/// background as it is, `Replace` sets it.
#[derive(Debug, Copy, Clone, PartialEq, Eq, Structural)]
pub enum Background {
    Keep,
    Replace,
    Darken,
    Default,
}

/// One instruction to the console. Glyphs are Unicode code points.
#[derive(Debug, Copy, Clone, PartialEq, Eq, Structural)]
pub enum DrawCmd {
    /// Put a glyph with explicit fore- and background colours.
    PutCharEx { x: usize, y: usize, chr: u32, fg: Color, bg: Color },
    /// Put a glyph in the default foreground colour.
    PutChar { x: usize, y: usize, chr: u32, flag: Background },
    /// Change the default foreground colour.
    SetDefaultForeground { fg: Color },
}

pub open spec fn put_ex(pos: (usize, usize), chr: u32, fg: Color, bg: Color) -> DrawCmd {
    DrawCmd::PutCharEx { x: pos.0, y: pos.1, chr, fg, bg }
}

pub open spec fn put(pos: (usize, usize), chr: u32, flag: Background) -> DrawCmd {
    DrawCmd::PutChar { x: pos.0, y: pos.1, chr, flag }
}

/// How text is aligned on the point it is printed at.
#[derive(Debug, Copy, Clone, PartialEq, Eq, Structural)]
pub enum Align {
    Left,
    Center,
}

/// One instruction to the whole console: clearing it, colours, text, and
/// the glyphs of the map's cells.
#[derive(Debug, Clone, PartialEq)]
pub enum ScreenCmd {
    Clear,
    SetDefaultForeground(Color),
    SetDefaultBackground(Color),
    SetCharForeground { x: i32, y: i32, fg: Color },
    SetCharBackground { x: i32, y: i32, bg: Color, flag: Background },
    PrintEx { x: i32, y: i32, flag: Background, align: Align, text: String },
    PutChar { x: i32, y: i32, chr: u32, flag: Background },
    /// A glyph of a map cell.
    Glyph(DrawCmd),
}

/// Things that can say what they are in words.
pub trait Describe {
    /// Whether the value has a description at all.
    spec fn describable(&self) -> bool;

    fn describe(&self) -> String
        requires
            self.describable(),
    ;
}

/// Things whose look changes from frame to frame.
pub trait FramedDraw {
    /// Whether the value has a look at `time` with these animations.
    spec fn framed_drawable(&self, time: usize, frames: &Frames) -> bool;

    fn draw_framed_char(&self, pos: (usize, usize), time: usize, frames: &Frames) -> Vec<DrawCmd>
        requires
            self.framed_drawable(time, frames),
    ;
}

/// Things that occupy one cell of the map when drawn.
pub trait DrawChar {
    /// Whether the value has a look at all.
    spec fn drawable(&self) -> bool;

    fn draw_char(&self, pos: (usize, usize)) -> Vec<DrawCmd>
        requires
            self.drawable(),
    ;
}

} // verus!

verus! {

/// Glyphs of the console's code page 437 font.
pub const BLOCK1: u32 = 0xb0;
pub const BLOCK2: u32 = 0xb1;
pub const BLOCK3: u32 = 0xb2;
pub const ARROW_N: u32 = 0x18;
pub const RADIO_SET: u32 = 0x0a;
pub const CLUB: u32 = 0x05;
pub const BULLET: u32 = 0x07;
pub const EXCLAM_DOUBLE: u32 = 0x13;
pub const YEN: u32 = 0xbe;

/// A single coloured glyph at `pos`.
pub fn cell(pos: (usize, usize), chr: u32, fg: Color, bg: Color) -> (r: Vec<DrawCmd>)
    ensures
        r@ == seq![put_ex(pos, chr, fg, bg)],
{
    vec![DrawCmd::PutCharEx { x: pos.0, y: pos.1, chr, fg, bg }]
}

} // verus!
