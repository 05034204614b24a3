//! What the world is made of: rock, soil, water, plants, items and the
//! tiles that stack up into a column of the map.
use vstd::prelude::*;
use crate::draw::{
    FramedDraw,
    cell, color, put, put_ex, rgb, Background, Color, Describe, DrawChar, DrawCmd, ARROW_N, BLOCK1,
    BLOCK2, BLOCK3, BULLET, CLUB, EXCLAM_DOUBLE, RADIO_SET, YEN,
};
use crate::life::animal::{species_ident, Species};
use crate::physics::PhysicsActor;
use crate::text::{decimal, join, text, to_decimal};
use crate::rng;
use crate::time::Calendar;
use crate::worldgen::Frames;

verus! {

broadcast use vstd::string::group_string_axioms;

/// Whether the graphical tileset is used instead of plain console glyphs.
pub const TILES: bool = true;
/// The code point of the first graphical tile.
pub const BASE: isize = 256;

/// The graphical tiles, in the order they sit in the tileset after `BASE`.
#[derive(Debug, Copy, Clone, PartialEq, Eq, Structural)]
pub enum Tiles {
    Bentgrass,
    Bluegrass,
    Chickweed,
    Dandelion,
    Pasturegrass,
    Ryegrass,
    Clay,
    Conglomerate,
    Gneiss,
    Limestone,
    Loamy,
    Marble,
    Obsidian,
    Peaty,
    Sandy,
    Silty,
    Water,
    Lava,
    Crabapple,
    Basalt,
    Banyon,
    Broomshrub,
    Pine,
    Redbud,
    Redwood,
    Rhododendron,
    Treetrunk,
    Puddle,
    Ice,
    Snow,
    Woodwall,
    Stonewall,
}

/// The position of a tile in the tileset.
pub open spec fn tile_index(t: Tiles) -> u32 {
    match t {
        Tiles::Bentgrass => 0,
        Tiles::Bluegrass => 1,
        Tiles::Chickweed => 2,
        Tiles::Dandelion => 3,
        Tiles::Pasturegrass => 4,
        Tiles::Ryegrass => 5,
        Tiles::Clay => 6,
        Tiles::Conglomerate => 7,
        Tiles::Gneiss => 8,
        Tiles::Limestone => 9,
        Tiles::Loamy => 10,
        Tiles::Marble => 11,
        Tiles::Obsidian => 12,
        Tiles::Peaty => 13,
        Tiles::Sandy => 14,
        Tiles::Silty => 15,
        Tiles::Water => 16,
        Tiles::Lava => 17,
        Tiles::Crabapple => 18,
        Tiles::Basalt => 19,
        Tiles::Banyon => 20,
        Tiles::Broomshrub => 21,
        Tiles::Pine => 22,
        Tiles::Redbud => 23,
        Tiles::Redwood => 24,
        Tiles::Rhododendron => 25,
        Tiles::Treetrunk => 26,
        Tiles::Puddle => 27,
        Tiles::Ice => 28,
        Tiles::Snow => 29,
        Tiles::Woodwall => 30,
        Tiles::Stonewall => 31,
    }
}

/// The code point of a graphical tile.
pub open spec fn tile_code(t: Tiles) -> u32 {
    (256 + tile_index(t)) as u32
}

impl Tiles {
    /// The code point under which the tile is drawn.
    pub fn code(&self) -> (c: u32)
        ensures
            c == tile_code(*self),
    {
        let i: u32 = match self {
            Tiles::Bentgrass => 0,
            Tiles::Bluegrass => 1,
            Tiles::Chickweed => 2,
            Tiles::Dandelion => 3,
            Tiles::Pasturegrass => 4,
            Tiles::Ryegrass => 5,
            Tiles::Clay => 6,
            Tiles::Conglomerate => 7,
            Tiles::Gneiss => 8,
            Tiles::Limestone => 9,
            Tiles::Loamy => 10,
            Tiles::Marble => 11,
            Tiles::Obsidian => 12,
            Tiles::Peaty => 13,
            Tiles::Sandy => 14,
            Tiles::Silty => 15,
            Tiles::Water => 16,
            Tiles::Lava => 17,
            Tiles::Crabapple => 18,
            Tiles::Basalt => 19,
            Tiles::Banyon => 20,
            Tiles::Broomshrub => 21,
            Tiles::Pine => 22,
            Tiles::Redbud => 23,
            Tiles::Redwood => 24,
            Tiles::Rhododendron => 25,
            Tiles::Treetrunk => 26,
            Tiles::Puddle => 27,
            Tiles::Ice => 28,
            Tiles::Snow => 29,
            Tiles::Woodwall => 30,
            Tiles::Stonewall => 31,
        };
        256 + i
    }
}

/// The tile's code point when the tileset is used, else `plain`.
pub open spec fn glyph(t: Tiles, plain: u32) -> u32 {
    if TILES { tile_code(t) } else { plain }
}

fn glyph_of(t: Tiles, plain: u32) -> (c: u32)
    ensures
        c == glyph(t, plain),
{
    if TILES { t.code() } else { plain }
}

/// White when the tileset is used (the tile carries its own colours),
/// else `plain`.
pub open spec fn tint(plain: Color) -> Color {
    if TILES { rgb(255, 255, 255) } else { plain }
}

fn tint_of(plain: Color) -> (c: Color)
    ensures
        c == tint(plain),
{
    if TILES { color(255, 255, 255) } else { plain }
}

/////// ROCK

/// Possible igneous rock kinds.
#[derive(Debug, Copy, Clone, PartialEq, Eq, Structural)]
pub enum IgneousRocks {
    Obsidian,
    Basalt,
}

pub open spec fn igneous_name(r: IgneousRocks) -> Seq<char> {
    match r {
        IgneousRocks::Obsidian => "Igneous obisidian"@,
        IgneousRocks::Basalt => "Igneous basalt"@,
    }
}

pub open spec fn igneous_draw(r: IgneousRocks, pos: (usize, usize)) -> Seq<DrawCmd> {
    match r {
        IgneousRocks::Obsidian => seq![
            put_ex(pos, glyph(Tiles::Obsidian, BLOCK1), tint(rgb(12, 12, 12)), rgb(2, 2, 2)),
        ],
        IgneousRocks::Basalt => seq![
            put_ex(pos, glyph(Tiles::Basalt, BLOCK3), tint(rgb(40, 40, 12)), rgb(2, 2, 2)),
        ],
    }
}

impl Describe for IgneousRocks {
    open spec fn describable(&self) -> bool {
        true
    }

    fn describe(&self) -> (s: String)
        ensures
            s@ == igneous_name(*self),
    {
        match self {
            IgneousRocks::Obsidian => text("Igneous obisidian"),
            IgneousRocks::Basalt => text("Igneous basalt"),
        }
    }
}

impl DrawChar for IgneousRocks {
    open spec fn drawable(&self) -> bool {
        true
    }

    fn draw_char(&self, pos: (usize, usize)) -> (r: Vec<DrawCmd>)
        ensures
            r@ == igneous_draw(*self, pos),
    {
        match self {
            IgneousRocks::Obsidian => cell(
                pos,
                glyph_of(Tiles::Obsidian, BLOCK1),
                tint_of(color(12, 12, 12)),
                color(2, 2, 2),
            ),
            IgneousRocks::Basalt => cell(
                pos,
                glyph_of(Tiles::Basalt, BLOCK3),
                tint_of(color(40, 40, 12)),
                color(2, 2, 2),
            ),
        }
    }
}

/// Possible metamorphic rock kinds.
#[derive(Debug, Copy, Clone, PartialEq, Eq, Structural)]
pub enum MetamorphicRocks {
    Gneiss,
    Marble,
}

pub open spec fn metamorphic_name(r: MetamorphicRocks) -> Seq<char> {
    match r {
        MetamorphicRocks::Gneiss => "Metamorphic gneiss"@,
        MetamorphicRocks::Marble => "Metamorphic marble"@,
    }
}

pub open spec fn metamorphic_draw(r: MetamorphicRocks, pos: (usize, usize)) -> Seq<DrawCmd> {
    match r {
        MetamorphicRocks::Gneiss => seq![
            put_ex(pos, glyph(Tiles::Gneiss, BLOCK2), tint(rgb(125, 85, 62)), rgb(2, 2, 2)),
        ],
        MetamorphicRocks::Marble => seq![
            put_ex(pos, glyph(Tiles::Marble, BLOCK1), tint(rgb(250, 250, 250)), rgb(12, 12, 12)),
        ],
    }
}

impl Describe for MetamorphicRocks {
    open spec fn describable(&self) -> bool {
        true
    }

    fn describe(&self) -> (s: String)
        ensures
            s@ == metamorphic_name(*self),
    {
        match self {
            MetamorphicRocks::Gneiss => text("Metamorphic gneiss"),
            MetamorphicRocks::Marble => text("Metamorphic marble"),
        }
    }
}

impl DrawChar for MetamorphicRocks {
    open spec fn drawable(&self) -> bool {
        true
    }

    fn draw_char(&self, pos: (usize, usize)) -> (r: Vec<DrawCmd>)
        ensures
            r@ == metamorphic_draw(*self, pos),
    {
        match self {
            MetamorphicRocks::Gneiss => cell(
                pos,
                glyph_of(Tiles::Gneiss, BLOCK2),
                tint_of(color(125, 85, 62)),
                color(2, 2, 2),
            ),
            MetamorphicRocks::Marble => cell(
                pos,
                glyph_of(Tiles::Marble, BLOCK1),
                tint_of(color(250, 250, 250)),
                color(12, 12, 12),
            ),
        }
    }
}

/// Possible sedimentary rock kinds.
#[derive(Debug, Copy, Clone, PartialEq, Eq, Structural)]
pub enum SedimentaryRocks {
    Limestone,
    Conglomerate,
}

pub open spec fn sedimentary_name(r: SedimentaryRocks) -> Seq<char> {
    match r {
        SedimentaryRocks::Limestone => "Sedimentary limestone"@,
        SedimentaryRocks::Conglomerate => "Sedimentary conglomerate"@,
    }
}

pub open spec fn sedimentary_draw(r: SedimentaryRocks, pos: (usize, usize)) -> Seq<DrawCmd> {
    match r {
        SedimentaryRocks::Limestone => seq![
            put_ex(
                pos,
                glyph(Tiles::Limestone, BLOCK3),
                if TILES { rgb(150, 150, 150) } else { rgb(125, 85, 62) },
                rgb(255, 255, 255),
            ),
        ],
        SedimentaryRocks::Conglomerate => seq![
            put_ex(
                pos,
                glyph(Tiles::Conglomerate, BLOCK2),
                tint(rgb(130, 100, 50)),
                rgb(200, 200, 200),
            ),
        ],
    }
}

impl Describe for SedimentaryRocks {
    open spec fn describable(&self) -> bool {
        true
    }

    fn describe(&self) -> (s: String)
        ensures
            s@ == sedimentary_name(*self),
    {
        match self {
            SedimentaryRocks::Limestone => text("Sedimentary limestone"),
            SedimentaryRocks::Conglomerate => text("Sedimentary conglomerate"),
        }
    }
}

impl DrawChar for SedimentaryRocks {
    open spec fn drawable(&self) -> bool {
        true
    }

    fn draw_char(&self, pos: (usize, usize)) -> (r: Vec<DrawCmd>)
        ensures
            r@ == sedimentary_draw(*self, pos),
    {
        match self {
            SedimentaryRocks::Limestone => cell(
                pos,
                glyph_of(Tiles::Limestone, BLOCK3),
                if TILES { color(150, 150, 150) } else { color(125, 85, 62) },
                color(255, 255, 255),
            ),
            SedimentaryRocks::Conglomerate => cell(
                pos,
                glyph_of(Tiles::Conglomerate, BLOCK2),
                tint_of(color(130, 100, 50)),
                color(200, 200, 200),
            ),
        }
    }
}

/// Soil types.
#[derive(Debug, Copy, Clone, PartialEq, Eq, Structural)]
pub enum SoilTypes {
    Clay,
    Sandy,
    Silty,
    Peaty,
    Loamy,
}

pub open spec fn soil_name(s: SoilTypes) -> Seq<char> {
    match s {
        SoilTypes::Clay => "Clay soil"@,
        SoilTypes::Sandy => "Sandy soil"@,
        SoilTypes::Silty => "Silty soil"@,
        SoilTypes::Peaty => "Peaty soil"@,
        SoilTypes::Loamy => "Loamy soil"@,
    }
}

/// Tile, plain foreground and background of each soil.
pub open spec fn soil_look(s: SoilTypes) -> (Tiles, Color, Color) {
    match s {
        SoilTypes::Clay => (Tiles::Clay, rgb(167, 107, 41), rgb(191, 100, 35)),
        SoilTypes::Sandy => (Tiles::Sandy, rgb(167, 107, 41), rgb(191, 100, 35)),
        SoilTypes::Silty => (Tiles::Silty, rgb(133, 126, 108), rgb(99, 94, 80)),
        SoilTypes::Peaty => (Tiles::Peaty, rgb(159, 145, 95), rgb(119, 108, 71)),
        SoilTypes::Loamy => (Tiles::Loamy, rgb(86, 59, 56), rgb(64, 44, 41)),
    }
}

pub open spec fn soil_draw(s: SoilTypes, pos: (usize, usize)) -> Seq<DrawCmd> {
    let (t, fg, bg) = soil_look(s);
    seq![put_ex(pos, glyph(t, '=' as u32), tint(fg), bg)]
}

impl Describe for SoilTypes {
    open spec fn describable(&self) -> bool {
        true
    }

    fn describe(&self) -> (s: String)
        ensures
            s@ == soil_name(*self),
    {
        match self {
            SoilTypes::Clay => text("Clay soil"),
            SoilTypes::Sandy => text("Sandy soil"),
            SoilTypes::Silty => text("Silty soil"),
            SoilTypes::Peaty => text("Peaty soil"),
            SoilTypes::Loamy => text("Loamy soil"),
        }
    }
}

impl DrawChar for SoilTypes {
    open spec fn drawable(&self) -> bool {
        true
    }

    fn draw_char(&self, pos: (usize, usize)) -> (r: Vec<DrawCmd>)
        ensures
            r@ == soil_draw(*self, pos),
    {
        let plain = '=' as u32;
        match self {
            SoilTypes::Clay => cell(
                pos,
                glyph_of(Tiles::Clay, plain),
                tint_of(color(167, 107, 41)),
                color(191, 100, 35),
            ),
            SoilTypes::Sandy => cell(
                pos,
                glyph_of(Tiles::Sandy, plain),
                tint_of(color(167, 107, 41)),
                color(191, 100, 35),
            ),
            SoilTypes::Silty => cell(
                pos,
                glyph_of(Tiles::Silty, plain),
                tint_of(color(133, 126, 108)),
                color(99, 94, 80),
            ),
            SoilTypes::Peaty => cell(
                pos,
                glyph_of(Tiles::Peaty, plain),
                tint_of(color(159, 145, 95)),
                color(119, 108, 71),
            ),
            SoilTypes::Loamy => cell(
                pos,
                glyph_of(Tiles::Loamy, plain),
                tint_of(color(86, 59, 56)),
                color(64, 44, 41),
            ),
        }
    }
}

/// Stone types.
#[derive(Debug, Copy, Clone, PartialEq, Eq, Structural)]
pub enum StoneTypes {
    Sedimentary(SedimentaryRocks),
    Igneous(IgneousRocks),
    Metamorphic(MetamorphicRocks),
    Soil(SoilTypes),
}

pub open spec fn stone_name(s: StoneTypes) -> Seq<char> {
    match s {
        StoneTypes::Sedimentary(v) => sedimentary_name(v),
        StoneTypes::Igneous(v) => igneous_name(v),
        StoneTypes::Metamorphic(v) => metamorphic_name(v),
        StoneTypes::Soil(v) => soil_name(v),
    }
}

pub open spec fn stone_draw(s: StoneTypes, pos: (usize, usize)) -> Seq<DrawCmd> {
    match s {
        StoneTypes::Sedimentary(v) => sedimentary_draw(v, pos),
        StoneTypes::Igneous(v) => igneous_draw(v, pos),
        StoneTypes::Metamorphic(v) => metamorphic_draw(v, pos),
        StoneTypes::Soil(v) => soil_draw(v, pos),
    }
}

impl Describe for StoneTypes {
    open spec fn describable(&self) -> bool {
        true
    }

    fn describe(&self) -> (s: String)
        ensures
            s@ == stone_name(*self),
    {
        match self {
            StoneTypes::Sedimentary(v) => v.describe(),
            StoneTypes::Igneous(v) => v.describe(),
            StoneTypes::Metamorphic(v) => v.describe(),
            StoneTypes::Soil(v) => v.describe(),
        }
    }
}

impl DrawChar for StoneTypes {
    open spec fn drawable(&self) -> bool {
        true
    }

    fn draw_char(&self, pos: (usize, usize)) -> (r: Vec<DrawCmd>)
        ensures
            r@ == stone_draw(*self, pos),
    {
        match self {
            StoneTypes::Sedimentary(s) => s.draw_char(pos),
            StoneTypes::Metamorphic(s) => s.draw_char(pos),
            StoneTypes::Igneous(s) => s.draw_char(pos),
            StoneTypes::Soil(s) => s.draw_char(pos),
        }
    }
}

/////// WATER

/// How clean a liquid is.
#[derive(Debug, Copy, Clone, PartialEq, Eq, Structural)]
pub enum LiquidPurity {
    // Helps with healing
    Pure,
    Clear,
    // Normal
    Clean,
    // Might cause health issues
    Sandy,
    Dirty,
    Murky,
    // Will kill eventually
    Muddy,
    Toxic,
}

pub open spec fn purity_word(p: LiquidPurity) -> Seq<char> {
    match p {
        LiquidPurity::Clean => "clean"@,
        LiquidPurity::Clear => "clear"@,
        LiquidPurity::Dirty => "dirty"@,
        LiquidPurity::Muddy => "muddy"@,
        LiquidPurity::Murky => "murky"@,
        LiquidPurity::Pure => "pure"@,
        LiquidPurity::Sandy => "sandy"@,
        LiquidPurity::Toxic => "toxic"@,
    }
}

fn purity_text(p: LiquidPurity) -> (s: String)
    ensures
        s@ == purity_word(p),
{
    match p {
        LiquidPurity::Clean => text("clean"),
        LiquidPurity::Clear => text("clear"),
        LiquidPurity::Dirty => text("dirty"),
        LiquidPurity::Muddy => text("muddy"),
        LiquidPurity::Murky => text("murky"),
        LiquidPurity::Pure => text("pure"),
        LiquidPurity::Sandy => text("sandy"),
        LiquidPurity::Toxic => text("toxic"),
    }
}

/////// VEGETATION

/// Vegetation types, from the most to the least common.
#[derive(Debug, Clone, Copy, PartialEq, Eq, Structural)]
pub enum VegType {
    // Small grasses (height 1)
    Bluegrass,
    Bentgrass,
    Ryegrass,
    // Small edible plants (height 1-3)
    Dandelion,
    Chickweed,
    // Bushes (height 4-6)
    BroomShrub,
    Rhododendron,
    // Small trees (height 6-9)
    Crabapple,
    Redbud,
    Treetrunk,
    // Tall trees (height 10-20)
    Pine,
    Redwood,
    Banyon,
}

pub open spec fn veg_name(v: VegType) -> Seq<char> {
    match v {
        VegType::Bluegrass => "Bluegrass"@,
        VegType::Bentgrass => "Bentgrass"@,
        VegType::Ryegrass => "Ryegrass"@,
        VegType::Dandelion => "Dandelion"@,
        VegType::Chickweed => "Chickweed"@,
        VegType::BroomShrub => "Broom Shrub"@,
        VegType::Rhododendron => "Rhododendron"@,
        VegType::Crabapple => "Crabapple"@,
        VegType::Redbud => "Redbud"@,
        VegType::Pine => "Pine"@,
        VegType::Redwood => "Redwood"@,
        VegType::Banyon => "Banyon"@,
        VegType::Treetrunk => "Tree trunk"@,
    }
}

/// The variant's own name, as `{:?}` writes it.
pub open spec fn veg_ident(v: VegType) -> Seq<char> {
    match v {
        VegType::BroomShrub => "BroomShrub"@,
        VegType::Treetrunk => "Treetrunk"@,
        _ => veg_name(v),
    }
}

/// Tile, plain glyph, plain foreground and background of each plant.
pub open spec fn veg_look(v: VegType) -> (Tiles, u32, Color, Color) {
    match v {
        VegType::Bluegrass => (Tiles::Pasturegrass, '"' as u32, rgb(0, 50, 200), rgb(50, 200, 50)),
        VegType::Treetrunk => (Tiles::Treetrunk, 'O' as u32, rgb(139, 69, 19), rgb(50, 200, 50)),
        VegType::Bentgrass => (Tiles::Bentgrass, ',' as u32, rgb(0, 255, 0), rgb(50, 200, 50)),
        VegType::Ryegrass => (Tiles::Ryegrass, '`' as u32, rgb(150, 200, 0), rgb(50, 200, 50)),
        VegType::Dandelion => (Tiles::Dandelion, EXCLAM_DOUBLE, rgb(255, 255, 255), rgb(50, 200, 50)),
        VegType::Chickweed => (Tiles::Chickweed, '!' as u32, rgb(255, 255, 254), rgb(30, 190, 30)),
        VegType::BroomShrub => (Tiles::Broomshrub, 0xf4, rgb(79, 121, 66), rgb(227, 255, 0)),
        VegType::Rhododendron => (Tiles::Rhododendron, 0xf4, rgb(176, 90, 100), rgb(227, 255, 0)),
        VegType::Crabapple => (Tiles::Crabapple, CLUB, rgb(186, 85, 211), rgb(50, 200, 50)),
        VegType::Redbud => (Tiles::Redbud, CLUB, rgb(216, 191, 216), rgb(50, 200, 50)),
        VegType::Pine => (Tiles::Pine, ARROW_N, rgb(255, 255, 250), rgb(50, 200, 50)),
        VegType::Redwood => (Tiles::Redwood, 0x17, rgb(255, 100, 100), rgb(50, 200, 50)),
        VegType::Banyon => (Tiles::Banyon, CLUB, rgb(255, 255, 255), rgb(50, 200, 50)),
    }
}

pub open spec fn veg_draw(v: VegType, pos: (usize, usize)) -> Seq<DrawCmd> {
    let (t, plain, fg, bg) = veg_look(v);
    seq![put_ex(pos, glyph(t, plain), tint(fg), bg)]
}

impl VegType {
    /// The variant's own name, as `{:?}` writes it.
    pub fn ident(&self) -> (s: String)
        ensures
            s@ == veg_ident(*self),
    {
        match self {
            VegType::BroomShrub => text("BroomShrub"),
            VegType::Treetrunk => text("Treetrunk"),
            _ => self.describe(),
        }
    }
}

impl Describe for VegType {
    open spec fn describable(&self) -> bool {
        true
    }

    fn describe(&self) -> (s: String)
        ensures
            s@ == veg_name(*self),
    {
        match self {
            VegType::Bluegrass => text("Bluegrass"),
            VegType::Bentgrass => text("Bentgrass"),
            VegType::Ryegrass => text("Ryegrass"),
            VegType::Dandelion => text("Dandelion"),
            VegType::Chickweed => text("Chickweed"),
            VegType::BroomShrub => text("Broom Shrub"),
            VegType::Rhododendron => text("Rhododendron"),
            VegType::Crabapple => text("Crabapple"),
            VegType::Redbud => text("Redbud"),
            VegType::Pine => text("Pine"),
            VegType::Redwood => text("Redwood"),
            VegType::Banyon => text("Banyon"),
            VegType::Treetrunk => text("Tree trunk"),
        }
    }
}

impl DrawChar for VegType {
    open spec fn drawable(&self) -> bool {
        true
    }

    fn draw_char(&self, pos: (usize, usize)) -> (r: Vec<DrawCmd>)
        ensures
            r@ == veg_draw(*self, pos),
    {
        let grass_bg = color(50, 200, 50);
        match self {
            VegType::Bluegrass => cell(
                pos,
                glyph_of(Tiles::Pasturegrass, '"' as u32),
                tint_of(color(0, 50, 200)),
                grass_bg,
            ),
            VegType::Treetrunk => cell(
                pos,
                glyph_of(Tiles::Treetrunk, 'O' as u32),
                tint_of(color(139, 69, 19)),
                grass_bg,
            ),
            VegType::Bentgrass => cell(
                pos,
                glyph_of(Tiles::Bentgrass, ',' as u32),
                tint_of(color(0, 255, 0)),
                grass_bg,
            ),
            VegType::Ryegrass => cell(
                pos,
                glyph_of(Tiles::Ryegrass, '`' as u32),
                tint_of(color(150, 200, 0)),
                grass_bg,
            ),
            VegType::Dandelion => cell(
                pos,
                glyph_of(Tiles::Dandelion, EXCLAM_DOUBLE),
                tint_of(color(255, 255, 255)),
                grass_bg,
            ),
            VegType::Chickweed => cell(
                pos,
                glyph_of(Tiles::Chickweed, '!' as u32),
                tint_of(color(255, 255, 254)),
                color(30, 190, 30),
            ),
            VegType::BroomShrub => cell(
                pos,
                glyph_of(Tiles::Broomshrub, 0xf4),
                tint_of(color(79, 121, 66)),
                color(227, 255, 0),
            ),
            VegType::Rhododendron => cell(
                pos,
                glyph_of(Tiles::Rhododendron, 0xf4),
                tint_of(color(176, 90, 100)),
                color(227, 255, 0),
            ),
            VegType::Crabapple => cell(
                pos,
                glyph_of(Tiles::Crabapple, CLUB),
                tint_of(color(186, 85, 211)),
                grass_bg,
            ),
            VegType::Redbud => cell(
                pos,
                glyph_of(Tiles::Redbud, CLUB),
                tint_of(color(216, 191, 216)),
                grass_bg,
            ),
            VegType::Pine => cell(
                pos,
                glyph_of(Tiles::Pine, ARROW_N),
                tint_of(color(255, 255, 250)),
                grass_bg,
            ),
            VegType::Redwood => cell(
                pos,
                glyph_of(Tiles::Redwood, 0x17),
                tint_of(color(255, 100, 100)),
                grass_bg,
            ),
            VegType::Banyon => cell(
                pos,
                glyph_of(Tiles::Banyon, CLUB),
                tint_of(color(255, 255, 255)),
                grass_bg,
            ),
        }
    }
}

/////// BIOME

/// Degrees Fahrenheit. Every temperature the world produces is a whole
/// number of degrees.
pub type Ferenheight = i64;
pub type Percent = i32;

#[derive(Debug, Copy, Clone, PartialEq, Eq, Structural)]
pub enum BiomeType {
    Swamp,
    Jungle,
    Forest,
    Desert,
    Pasture,
    Beach,
    Water,
}

pub open spec fn biome_letter(b: BiomeType) -> Seq<char> {
    match b {
        BiomeType::Swamp => "s"@,
        BiomeType::Jungle => "j"@,
        BiomeType::Forest => "f"@,
        BiomeType::Desert => "d"@,
        BiomeType::Pasture => "p"@,
        BiomeType::Beach => "b"@,
        BiomeType::Water => "w"@,
    }
}

impl BiomeType {
    /// The one-letter key of the biome type.
    pub fn stringified(&self) -> (s: String)
        ensures
            s@ == biome_letter(*self),
    {
        match self {
            BiomeType::Swamp => "s",
            BiomeType::Jungle => "j",
            BiomeType::Forest => "f",
            BiomeType::Desert => "d",
            BiomeType::Pasture => "p",
            BiomeType::Beach => "b",
            BiomeType::Water => "w",
        }.to_string()
    }
}

#[derive(Debug, Copy, Clone, PartialEq, Eq, Structural)]
pub struct Biome {
    pub biome_type: BiomeType,
    pub temperature_night_f: Ferenheight,
    pub temperature_day_f: Ferenheight,
    pub percipitation_chance: Percent,
}

/// The biome of open water.
pub open spec fn spec_water_biome() -> Biome {
    Biome {
        biome_type: BiomeType::Water,
        temperature_night_f: -5i64,
        temperature_day_f: 70,
        percipitation_chance: 80,
    }
}

/// The biome of open water.
pub fn water_biome() -> (b: Biome)
    ensures
        b == spec_water_biome(),
{
    Biome {
        biome_type: BiomeType::Water,
        temperature_night_f: -5,
        temperature_day_f: 70,
        percipitation_chance: 80,
    }
}

/// Which plants grow in which biome. Nothing grows in the desert.
pub open spec fn grows_in(b: BiomeType, veg: VegType) -> bool {
    if b == BiomeType::Desert {
        false
    } else {
        match veg {
            VegType::Bluegrass => b == BiomeType::Forest || b == BiomeType::Pasture || b
                == BiomeType::Swamp,
            VegType::Bentgrass => b == BiomeType::Forest || b == BiomeType::Pasture,
            VegType::Ryegrass => b == BiomeType::Pasture,
            VegType::Dandelion => b != BiomeType::Swamp,
            VegType::Chickweed => b != BiomeType::Swamp && b != BiomeType::Jungle,
            VegType::BroomShrub => b == BiomeType::Forest || b == BiomeType::Pasture,
            VegType::Crabapple => b == BiomeType::Forest || b == BiomeType::Beach || b
                == BiomeType::Pasture,
            VegType::Rhododendron => b == BiomeType::Jungle,
            VegType::Redbud => b == BiomeType::Pasture,
            VegType::Pine => b == BiomeType::Forest || b == BiomeType::Pasture,
            VegType::Redwood => b == BiomeType::Forest,
            VegType::Banyon => b == BiomeType::Jungle,
            VegType::Treetrunk => false,
        }
    }
}

impl Biome {
    pub fn survives(&self, veg: VegType) -> (r: bool)
        ensures
            r == grows_in(self.biome_type, veg),
    {
        let b = self.biome_type;
        if b == BiomeType::Desert {
            return false;
        }
        match veg {
            VegType::Bluegrass => b == BiomeType::Forest || b == BiomeType::Pasture || b
                == BiomeType::Swamp,
            VegType::Bentgrass => b == BiomeType::Forest || b == BiomeType::Pasture,
            VegType::Ryegrass => b == BiomeType::Pasture,
            VegType::Dandelion => b != BiomeType::Swamp,
            VegType::Chickweed => b != BiomeType::Swamp && b != BiomeType::Jungle,
            VegType::BroomShrub => b == BiomeType::Forest || b == BiomeType::Pasture,
            VegType::Crabapple => b == BiomeType::Forest || b == BiomeType::Beach || b
                == BiomeType::Pasture,
            VegType::Rhododendron => b == BiomeType::Jungle,
            VegType::Redbud => b == BiomeType::Pasture,
            VegType::Pine => b == BiomeType::Forest || b == BiomeType::Pasture,
            VegType::Redwood => b == BiomeType::Forest,
            VegType::Banyon => b == BiomeType::Jungle,
            _ => false,
        }
    }
}

/////// GENERAL

/// Physical state of an object: the three forms of matter.
#[derive(Debug, Copy, Clone, PartialEq, Eq, Structural)]
pub enum State {
    Liquid,
    Solid,
    Gas,
}

pub type Height = i32;
pub type Depth = i32;

/// North is up, South is down, East is left, West is right.
#[derive(Debug, Copy, Clone, PartialEq, Eq, Structural)]
pub enum Compass {
    North,
    South,
    East,
    West,
}

pub open spec fn rock_ident(s: StoneTypes) -> Seq<char> {
    match s {
        StoneTypes::Sedimentary(SedimentaryRocks::Limestone) => "Sedimentary(Limestone)"@,
        StoneTypes::Sedimentary(SedimentaryRocks::Conglomerate) => "Sedimentary(Conglomerate)"@,
        StoneTypes::Igneous(IgneousRocks::Obsidian) => "Igneous(Obsidian)"@,
        StoneTypes::Igneous(IgneousRocks::Basalt) => "Igneous(Basalt)"@,
        StoneTypes::Metamorphic(MetamorphicRocks::Gneiss) => "Metamorphic(Gneiss)"@,
        StoneTypes::Metamorphic(MetamorphicRocks::Marble) => "Metamorphic(Marble)"@,
        StoneTypes::Soil(SoilTypes::Clay) => "Soil(Clay)"@,
        StoneTypes::Soil(SoilTypes::Sandy) => "Soil(Sandy)"@,
        StoneTypes::Soil(SoilTypes::Silty) => "Soil(Silty)"@,
        StoneTypes::Soil(SoilTypes::Peaty) => "Soil(Peaty)"@,
        StoneTypes::Soil(SoilTypes::Loamy) => "Soil(Loamy)"@,
    }
}

impl StoneTypes {
    /// The stone as `{:?}` writes it, such as `Soil(Clay)`.
    pub fn ident(&self) -> (s: String)
        ensures
            s@ == rock_ident(*self),
    {
        match self {
            StoneTypes::Sedimentary(SedimentaryRocks::Limestone) => text("Sedimentary(Limestone)"),
            StoneTypes::Sedimentary(SedimentaryRocks::Conglomerate) => text(
                "Sedimentary(Conglomerate)",
            ),
            StoneTypes::Igneous(IgneousRocks::Obsidian) => text("Igneous(Obsidian)"),
            StoneTypes::Igneous(IgneousRocks::Basalt) => text("Igneous(Basalt)"),
            StoneTypes::Metamorphic(MetamorphicRocks::Gneiss) => text("Metamorphic(Gneiss)"),
            StoneTypes::Metamorphic(MetamorphicRocks::Marble) => text("Metamorphic(Marble)"),
            StoneTypes::Soil(SoilTypes::Clay) => text("Soil(Clay)"),
            StoneTypes::Soil(SoilTypes::Sandy) => text("Soil(Sandy)"),
            StoneTypes::Soil(SoilTypes::Silty) => text("Soil(Silty)"),
            StoneTypes::Soil(SoilTypes::Peaty) => text("Soil(Peaty)"),
            StoneTypes::Soil(SoilTypes::Loamy) => text("Soil(Loamy)"),
        }
    }
}

/// How a stone in a given state is described: rough when solid, molten when
/// liquid. A stone is never a gas.
pub open spec fn stone_state_name(s: StoneTypes, state: State) -> Seq<char> {
    match state {
        State::Solid => "Rough "@ + stone_name(s),
        _ => "Molten "@ + stone_name(s),
    }
}

fn stone_state_text(s: StoneTypes, state: State) -> (r: String)
    requires
        state != State::Gas,
    ensures
        r@ == stone_state_name(s, state),
{
    let mut r = match state {
        State::Solid => text("Rough "),
        _ => text("Molten "),
    };
    let name = s.describe();
    r.append(name.as_str());
    r
}

/// The lava glyph: how molten stone looks.
pub open spec fn lava_draw(pos: (usize, usize)) -> Seq<DrawCmd> {
    seq![put_ex(pos, glyph(Tiles::Lava, '~' as u32), tint(rgb(0, 0, 0)), rgb(255, 0, 0))]
}

fn lava_cell(pos: (usize, usize)) -> (r: Vec<DrawCmd>)
    ensures
        r@ == lava_draw(pos),
{
    cell(pos, glyph_of(Tiles::Lava, '~' as u32), tint_of(color(0, 0, 0)), color(255, 0, 0))
}

/// Tile types that can be moved or made into ramps.
#[derive(Debug, Copy, Clone, PartialEq, Eq, Structural)]
pub enum RestrictedTile {
    Stone(StoneTypes, State),
    Vegetation(VegType, Height, State),
}

pub open spec fn restricted_describable(t: RestrictedTile) -> bool {
    !(t matches RestrictedTile::Stone(_, State::Gas))
}

pub open spec fn restricted_name(t: RestrictedTile) -> Seq<char> {
    match t {
        RestrictedTile::Stone(s, state) => stone_state_name(s, state),
        RestrictedTile::Vegetation(veg, _, _) => veg_name(veg),
    }
}

pub open spec fn restricted_draw(t: RestrictedTile, pos: (usize, usize)) -> Seq<DrawCmd> {
    match t {
        RestrictedTile::Stone(s, State::Solid) => stone_draw(s, pos),
        RestrictedTile::Stone(_, _) => lava_draw(pos),
        RestrictedTile::Vegetation(v, _, _) => veg_draw(v, pos),
    }
}

impl Describe for RestrictedTile {
    open spec fn describable(&self) -> bool {
        restricted_describable(*self)
    }

    fn describe(&self) -> (s: String)
        ensures
            s@ == restricted_name(*self),
    {
        match self {
            RestrictedTile::Stone(s, state) => stone_state_text(*s, *state),
            RestrictedTile::Vegetation(veg, ..) => veg.describe(),
        }
    }
}

impl DrawChar for RestrictedTile {
    open spec fn drawable(&self) -> bool {
        restricted_describable(*self)
    }

    fn draw_char(&self, pos: (usize, usize)) -> (r: Vec<DrawCmd>)
        ensures
            r@ == restricted_draw(*self, pos),
    {
        match self {
            RestrictedTile::Stone(s, State::Solid) => s.draw_char(pos),
            RestrictedTile::Stone(_, _) => lava_cell(pos),
            RestrictedTile::Vegetation(v, ..) => v.draw_char(pos),
        }
    }
}

/// Weapons, armour and tools.
#[derive(Debug, Copy, Clone, PartialEq, Eq, Structural)]
pub enum Tool {
    // Weapons
    Sword,
    Spear,
    // Armor
    Sheild,
    Breastplate,
    Leggings,
    Helmet,
    Boots,
    Shoes,
    // Tools
    Hammer,
    Pickaxe,
    Net,
    FishingPole,
    Fork,
    Knife,
    Spoon,
    Bowl,
    Goblet,
    Cup,
    Plate,
    Wheel,
}

pub open spec fn tool_ident(t: Tool) -> Seq<char> {
    match t {
        Tool::Sword => "Sword"@,
        Tool::Spear => "Spear"@,
        Tool::Sheild => "Sheild"@,
        Tool::Breastplate => "Breastplate"@,
        Tool::Leggings => "Leggings"@,
        Tool::Helmet => "Helmet"@,
        Tool::Boots => "Boots"@,
        Tool::Shoes => "Shoes"@,
        Tool::Hammer => "Hammer"@,
        Tool::Pickaxe => "Pickaxe"@,
        Tool::Net => "Net"@,
        Tool::FishingPole => "FishingPole"@,
        Tool::Fork => "Fork"@,
        Tool::Knife => "Knife"@,
        Tool::Spoon => "Spoon"@,
        Tool::Bowl => "Bowl"@,
        Tool::Goblet => "Goblet"@,
        Tool::Cup => "Cup"@,
        Tool::Plate => "Plate"@,
        Tool::Wheel => "Wheel"@,
    }
}

impl Tool {
    /// The tool as `{:?}` writes it.
    pub fn ident(&self) -> (s: String)
        ensures
            s@ == tool_ident(*self),
    {
        text(
            match self {
                Tool::Sword => "Sword",
                Tool::Spear => "Spear",
                Tool::Sheild => "Sheild",
                Tool::Breastplate => "Breastplate",
                Tool::Leggings => "Leggings",
                Tool::Helmet => "Helmet",
                Tool::Boots => "Boots",
                Tool::Shoes => "Shoes",
                Tool::Hammer => "Hammer",
                Tool::Pickaxe => "Pickaxe",
                Tool::Net => "Net",
                Tool::FishingPole => "FishingPole",
                Tool::Fork => "Fork",
                Tool::Knife => "Knife",
                Tool::Spoon => "Spoon",
                Tool::Bowl => "Bowl",
                Tool::Goblet => "Goblet",
                Tool::Cup => "Cup",
                Tool::Plate => "Plate",
                Tool::Wheel => "Wheel",
            },
        )
    }
}

impl DrawChar for Tool {
    open spec fn drawable(&self) -> bool {
        true
    }

    /// Tools are not drawn yet.
    fn draw_char(&self, pos: (usize, usize)) -> (r: Vec<DrawCmd>)
        ensures
            r@ == Seq::<DrawCmd>::empty(),
    {
        Vec::new()
    }
}

pub type Quantity = u8;

#[derive(Debug, Copy, Clone, PartialEq, Eq, Structural)]
pub enum Food {
    Meat(Species),
    Herb(VegType),
    Water(Quantity),
}

pub open spec fn food_ident(f: Food) -> Seq<char> {
    match f {
        Food::Meat(s) => "Meat("@ + species_ident(s) + ")"@,
        Food::Herb(v) => "Herb("@ + veg_ident(v) + ")"@,
        Food::Water(q) => "Water("@ + decimal(q as nat) + ")"@,
    }
}

/// A glyph in a colour of its own, after which the default foreground is
/// white again.
pub open spec fn stamp_draw(pos: (usize, usize), fg: Color, chr: u32) -> Seq<DrawCmd> {
    seq![
        DrawCmd::SetDefaultForeground { fg },
        put(pos, chr, Background::Keep),
        DrawCmd::SetDefaultForeground { fg: rgb(255, 255, 255) },
    ]
}

fn stamp(pos: (usize, usize), fg: Color, chr: u32) -> (r: Vec<DrawCmd>)
    ensures
        r@ == stamp_draw(pos, fg, chr),
{
    vec![
        DrawCmd::SetDefaultForeground { fg },
        DrawCmd::PutChar { x: pos.0, y: pos.1, chr, flag: Background::Keep },
        DrawCmd::SetDefaultForeground { fg: color(255, 255, 255) },
    ]
}

pub open spec fn food_draw(f: Food, pos: (usize, usize)) -> Seq<DrawCmd> {
    match f {
        Food::Meat(_) => stamp_draw(pos, rgb(138, 7, 7), '%' as u32),
        Food::Herb(_) => stamp_draw(pos, rgb(139, 172, 44), '#' as u32),
        Food::Water(_) => seq![DrawCmd::SetDefaultForeground { fg: rgb(255, 255, 255) }],
    }
}

impl Food {
    /// The food as `{:?}` writes it, such as `Herb(Dandelion)`.
    pub fn ident(&self) -> (s: String)
        ensures
            s@ == food_ident(*self),
    {
        let (mut s, inner) = match self {
            Food::Meat(sp) => (text("Meat("), sp.ident()),
            Food::Herb(v) => (text("Herb("), v.ident()),
            Food::Water(q) => (text("Water("), to_decimal(*q as usize)),
        };
        s.append(inner.as_str());
        s.append(")");
        s
    }
}

impl DrawChar for Food {
    open spec fn drawable(&self) -> bool {
        true
    }

    fn draw_char(&self, pos: (usize, usize)) -> (r: Vec<DrawCmd>)
        ensures
            r@ == food_draw(*self, pos),
    {
        match self {
            Food::Meat(_) => stamp(pos, color(138, 7, 7), '%' as u32),
            Food::Herb(_) => stamp(pos, color(139, 172, 44), '#' as u32),
            Food::Water(_) => vec![DrawCmd::SetDefaultForeground { fg: color(255, 255, 255) }],
        }
    }
}

#[derive(Debug, Copy, Clone, PartialEq, Eq, Structural)]
pub enum Material {
    Wood(VegType),
    Stone(StoneTypes),
}

pub open spec fn material_ident(m: Material) -> Seq<char> {
    match m {
        Material::Wood(v) => "Wood("@ + veg_ident(v) + ")"@,
        Material::Stone(s) => "Stone("@ + rock_ident(s) + ")"@,
    }
}

pub open spec fn material_draw(m: Material, pos: (usize, usize)) -> Seq<DrawCmd> {
    match m {
        Material::Wood(_) => stamp_draw(pos, rgb(139, 69, 19), '/' as u32),
        Material::Stone(_) => stamp_draw(pos, rgb(139, 141, 122), '/' as u32),
    }
}

impl Material {
    /// The material as `{:?}` writes it, such as `Wood(Pine)`.
    pub fn ident(&self) -> (s: String)
        ensures
            s@ == material_ident(*self),
    {
        let (mut s, inner) = match self {
            Material::Wood(v) => (text("Wood("), v.ident()),
            Material::Stone(st) => (text("Stone("), st.ident()),
        };
        s.append(inner.as_str());
        s.append(")");
        s
    }
}

impl DrawChar for Material {
    open spec fn drawable(&self) -> bool {
        true
    }

    fn draw_char(&self, pos: (usize, usize)) -> (r: Vec<DrawCmd>)
        ensures
            r@ == material_draw(*self, pos),
    {
        match self {
            Material::Wood(_) => stamp(pos, color(139, 69, 19), '/' as u32),
            Material::Stone(_) => stamp(pos, color(139, 141, 122), '/' as u32),
        }
    }
}

#[derive(Debug, Copy, Clone, PartialEq, Eq)]
pub struct Magic {
    potency: u8,
    cursed: bool,
    dates: Option<Calendar>,
}

pub type Weight = u8;
pub type Length = u8;

#[derive(Debug, Copy, Clone, PartialEq, Eq)]
pub enum Item {
    Tool(Tool, Weight, Length, Option<Magic>),
    Food(Food),
    Material(Material),
}

pub open spec fn item_name(i: Item) -> Seq<char> {
    match i {
        Item::Tool(tk, _, l, m) => if m is Some {
            "an enchanted length "@ + decimal(l as nat) + " "@ + tool_ident(tk)
        } else {
            "a normal length "@ + decimal(l as nat) + " "@ + tool_ident(tk)
        },
        Item::Food(f) => "a "@ + food_ident(f),
        Item::Material(m) => "some loose, piled "@ + material_ident(m),
    }
}

pub open spec fn item_draw(i: Item, pos: (usize, usize)) -> Seq<DrawCmd> {
    match i {
        Item::Tool(..) => Seq::empty(),
        Item::Food(f) => food_draw(f, pos),
        Item::Material(m) => material_draw(m, pos),
    }
}

impl DrawChar for Item {
    open spec fn drawable(&self) -> bool {
        true
    }

    fn draw_char(&self, pos: (usize, usize)) -> (r: Vec<DrawCmd>)
        ensures
            r@ == item_draw(*self, pos),
    {
        match self {
            Item::Tool(t, ..) => t.draw_char(pos),
            Item::Food(f) => f.draw_char(pos),
            Item::Material(m) => m.draw_char(pos),
        }
    }
}

impl Describe for Item {
    open spec fn describable(&self) -> bool {
        true
    }

    fn describe(&self) -> (s: String)
        ensures
            s@ == item_name(*self),
    {
        match self {
            Item::Tool(tk, _w, l, m) => {
                let mut s = if m.is_some() {
                    text("an enchanted length ")
                } else {
                    text("a normal length ")
                };
                let len = to_decimal(*l as usize);
                s.append(len.as_str());
                s.append(" ");
                let name = tk.ident();
                s.append(name.as_str());
                s
            },
            Item::Food(f) => {
                let mut s = text("a ");
                let name = f.ident();
                s.append(name.as_str());
                s
            },
            Item::Material(m) => {
                let mut s = text("some loose, piled ");
                let name = m.ident();
                s.append(name.as_str());
                s
            },
        }
    }
}

/// The broad kinds of tile and their current state.
#[derive(Debug, Copy, Clone, PartialEq, Eq)]
pub enum Tile {
    Empty,
    Ramp(RestrictedTile),
    Moveable(RestrictedTile),
    Item(Item),
    Water(LiquidPurity, State, Depth),
    Stone(StoneTypes, State),
    Vegetation(VegType, Height, State),
    Fire,
}

/// Stone and ramps block movement.
pub open spec fn tile_solid(t: Tile) -> bool {
    t is Stone || t is Ramp
}

/// Stone and loose piles fall when unsupported.
pub open spec fn tile_heavy(t: Tile) -> bool {
    t is Stone || t is Moveable
}

impl PhysicsActor for Tile {
    fn solid(&self) -> (r: bool)
        ensures
            r == tile_solid(*self),
    {
        match self {
            Tile::Stone(..) => true,
            Tile::Ramp(..) => true,
            _ => false,
        }
    }

    fn heavy(&self) -> (r: bool)
        ensures
            r == tile_heavy(*self),
    {
        match self {
            Tile::Stone(..) => true,
            Tile::Moveable(..) => true,
            _ => false,
        }
    }
}

/// Every tile has a description but gaseous stone, loose or not.
pub open spec fn tile_describable(t: Tile) -> bool {
    match t {
        Tile::Stone(_, State::Gas) => false,
        Tile::Moveable(r) => restricted_describable(r),
        _ => true,
    }
}

pub open spec fn tile_name(t: Tile) -> Seq<char> {
    match t {
        Tile::Empty => "Emtpy space"@,
        Tile::Ramp(_) => "A ramp"@,
        Tile::Moveable(s) => "Loose pile of "@ + restricted_name(s),
        Tile::Water(p, State::Gas, _) => "Cloud of "@ + purity_word(p) + " steam"@,
        Tile::Water(p, State::Solid, _) => purity_word(p) + " ice"@,
        Tile::Water(p, State::Liquid, _) => purity_word(p) + " water"@,
        Tile::Stone(s, state) => stone_state_name(s, state),
        Tile::Fire => "Flames"@,
        Tile::Vegetation(veg, _, _) => veg_name(veg),
        Tile::Item(i) => item_name(i),
    }
}

impl Describe for Tile {
    open spec fn describable(&self) -> bool {
        tile_describable(*self)
    }

    fn describe(&self) -> (s: String)
        ensures
            s@ == tile_name(*self),
    {
        match self {
            Tile::Empty => text("Emtpy space"),
            Tile::Ramp(_) => text("A ramp"),
            Tile::Moveable(s) => {
                let mut r = text("Loose pile of ");
                let d = s.describe();
                r.append(d.as_str());
                r
            },
            Tile::Water(purity, state, _) => {
                let purity_str = purity_text(*purity);
                match state {
                    State::Gas => {
                        let mut r = text("Cloud of ");
                        r.append(purity_str.as_str());
                        r.append(" steam");
                        r
                    },
                    State::Solid => join(purity_str.as_str(), " ice"),
                    State::Liquid => join(purity_str.as_str(), " water"),
                }
            },
            Tile::Stone(s, state) => stone_state_text(*s, *state),
            Tile::Fire => text("Flames"),
            Tile::Vegetation(veg, ..) => veg.describe(),
            Tile::Item(i) => i.describe(),
        }
    }
}

/// Every tile has a look but gaseous stone and loose stone that is not
/// solid.
pub open spec fn tile_drawable(t: Tile) -> bool {
    match t {
        Tile::Stone(_, State::Gas) => false,
        Tile::Moveable(RestrictedTile::Stone(_, state)) => state == State::Solid,
        _ => true,
    }
}

/// Tall plants, when loose, are drawn as a single log.
pub open spec fn is_tall_tree(v: VegType) -> bool {
    v == VegType::Pine || v == VegType::Banyon || v == VegType::Redwood || v == VegType::Redbud
}

pub open spec fn tile_draw(t: Tile, pos: (usize, usize)) -> Seq<DrawCmd> {
    match t {
        Tile::Ramp(_) => Seq::empty(),
        Tile::Moveable(RestrictedTile::Stone(s, _)) => stone_draw(s, pos).push(
            put(pos, BULLET, Background::Replace),
        ),
        Tile::Moveable(RestrictedTile::Vegetation(v, _, _)) => if is_tall_tree(v) {
            seq![put(pos, RADIO_SET, Background::Replace)]
        } else {
            veg_draw(v, pos)
        },
        Tile::Stone(s, State::Solid) => stone_draw(s, pos),
        Tile::Stone(_, _) => lava_draw(pos),
        Tile::Water(_, State::Solid, _) => seq![
            put_ex(pos, '#' as u32, rgb(255, 255, 255), rgb(100, 255, 100)),
        ],
        Tile::Water(_, State::Liquid, _) => seq![
            put_ex(pos, glyph(Tiles::Water, 0xf7), tint(rgb(0, 105, 148)), rgb(0, 159, 225)),
        ],
        Tile::Water(_, State::Gas, _) => seq![
            put_ex(pos, 0xa7, tint(rgb(0, 105, 148)), rgb(0, 159, 225)),
        ],
        Tile::Vegetation(v, _, _) => veg_draw(v, pos),
        Tile::Fire => seq![put_ex(pos, YEN, tint(rgb(227, 140, 45)), rgb(255, 0, 0))],
        Tile::Empty => seq![put_ex(pos, ' ' as u32, rgb(150, 150, 150), rgb(150, 150, 150))],
        Tile::Item(i) => item_draw(i, pos),
    }
}

impl DrawChar for Tile {
    open spec fn drawable(&self) -> bool {
        tile_drawable(*self)
    }

    fn draw_char(&self, pos: (usize, usize)) -> (r: Vec<DrawCmd>)
        ensures
            r@ == tile_draw(*self, pos),
    {
        match self {
            Tile::Ramp(_) => Vec::new(),
            Tile::Moveable(t) => match t {
                RestrictedTile::Stone(s, _) => {
                    let mut r = s.draw_char(pos);
                    r.push(DrawCmd::PutChar { x: pos.0, y: pos.1, chr: BULLET, flag: Background::Replace });
                    r
                },
                RestrictedTile::Vegetation(v, ..) => match v {
                    VegType::Pine | VegType::Banyon | VegType::Redwood | VegType::Redbud => {
                        vec![
                            DrawCmd::PutChar {
                                x: pos.0,
                                y: pos.1,
                                chr: RADIO_SET,
                                flag: Background::Replace,
                            },
                        ]
                    },
                    f => f.draw_char(pos),
                },
            },
            Tile::Stone(s, State::Solid) => s.draw_char(pos),
            Tile::Stone(_, _) => lava_cell(pos),
            Tile::Water(_, State::Solid, _) => {
                cell(pos, '#' as u32, tint_of(color(255, 255, 255)), color(100, 255, 100))
            },
            Tile::Water(_, State::Liquid, _) => cell(
                pos,
                glyph_of(Tiles::Water, 0xf7),
                tint_of(color(0, 105, 148)),
                color(0, 159, 225),
            ),
            Tile::Water(_, State::Gas, _) => cell(
                pos,
                0xa7,
                tint_of(color(0, 105, 148)),
                color(0, 159, 225),
            ),
            Tile::Vegetation(v, ..) => v.draw_char(pos),
            Tile::Fire => cell(pos, YEN, tint_of(color(227, 140, 45)), color(255, 0, 0)),
            Tile::Empty => cell(pos, ' ' as u32, color(150, 150, 150), color(150, 150, 150)),
            Tile::Item(i) => i.draw_char(pos),
        }
    }
}

/// The glyph of animated water at `time`, `jitter` frames ahead.
pub open spec fn water_frame(frames: &Frames, time: usize, jitter: usize) -> u32 {
    let all = frames.water.all@;
    if TILES {
        (256 + all[((time + jitter) % (all.len() as int)) as int]) as u32
    } else {
        0xf7
    }
}

impl FramedDraw for Tile {
    /// Liquid water needs at least one frame of animation, each small
    /// enough to be a code point above `BASE`, and room to count `time` two
    /// frames on.
    open spec fn framed_drawable(&self, time: usize, frames: &Frames) -> bool {
        if *self matches Tile::Water(_, State::Liquid, _) {
            &&& frames.water.all@.len() > 0
            &&& forall|i: int|
                0 <= i < frames.water.all@.len() ==> #[trigger] frames.water.all@[i] <= u32::MAX - 256
            &&& time + 2 <= usize::MAX
        } else {
            tile_drawable(*self)
        }
    }

    /// Liquid water shows one of its animation frames, picked two frames
    /// around `time` at random; everything else looks as `draw_char` says.
    fn draw_framed_char(&self, pos: (usize, usize), time: usize, frames: &Frames) -> (r: Vec<
        DrawCmd,
    >)
        ensures
            *self matches Tile::Water(_, State::Liquid, _) ==> exists|jitter: usize|
                jitter < 3 && r@ == seq![
                    put_ex(
                        pos,
                        #[trigger] water_frame(frames, time, jitter),
                        tint(rgb(0, 105, 148)),
                        rgb(0, 159, 225),
                    ),
                ],
            !(*self matches Tile::Water(_, State::Liquid, _)) ==> r@ == tile_draw(*self, pos),
    {
        match self {
            Tile::Water(_, State::Liquid, _) => {
                let all = &frames.water.all;
                let jitter = match rng::pick(vec![0usize, 1, 2].as_slice()) {
                    Some(j) => j,
                    None => 0,
                };
                proof {
                    if jitter != 0 {
                        assert(seq![0usize, 1, 2].contains(jitter));
                    }
                }
                let chr = if TILES {
                    let cframe = all[(time + jitter) % all.len()];
                    256 + cframe as u32
                } else {
                    0xf7
                };
                assert(chr == water_frame(frames, time, jitter));
                cell(pos, chr, tint_of(color(0, 105, 148)), color(0, 159, 225))
            },
            _ => self.draw_char(pos),
        }
    }
}

} // verus!
