//! What the screen shows of the world: the map at the current level, the
//! cursor, the tools frame and the animals.
use vstd::prelude::*;
use crate::draw::{put_ex, rgb, Background, Describe, DrawChar, DrawCmd, FramedDraw, ScreenCmd};
use crate::life::animal::Animal;
use crate::life::animal::species_ident;
use crate::life::manager::first_at;
use crate::text::{decimal, signed_decimal, text, to_decimal, to_signed_decimal};
use crate::time::{calendar_words, clock_words, weather_ident};
use crate::worldgen::state::WorldState;
use crate::worldgen::terrain::{
    tile_describable, tile_draw, tile_drawable, tile_name, tint, water_frame, RestrictedTile, State, Tile,
};
use crate::worldgen::Frames;
use crate::worldgen::World;

verus! {

/// The tools frame: where it starts, how wide and high it is, and its
/// lines of text.
pub struct HudFrame {
    pub start: i32,
    pub width: i32,
    pub height: i32,
    pub lines: Vec<String>,
}

/// The level of the top tile of a column of `n` tiles, zero for none.
pub open spec fn top_index(n: nat) -> nat {
    if n == 0 { 0 } else { (n - 1) as nat }
}

/// The tile the tools frame describes for a column: its top tile when the
/// column is below the level shown, else the tile at that level; empty
/// space when there is none.
pub open spec fn looked_at(t: Seq<Tile>, level: i32) -> Tile {
    let len = top_index(t.len());
    let i = if len < (level as usize) { len as int } else { (level as usize) as int };
    if i < t.len() { t[i] } else { Tile::Empty }
}

/// The cursor is on the screen.
pub open spec fn cursor_on(ws: &WorldState, wid: usize, hig: usize) -> bool {
    0 <= ws.cursor.0 < wid && 0 <= ws.cursor.1 < hig
}

/// The column under the cursor, by the cursor's screen position.
pub open spec fn cursor_column(ws: &WorldState, w: &World) -> Seq<Tile> {
    w.map@[ws.cursor.1 as int]@[ws.cursor.0 as int].tiles@
}

/// What the tools frame asks: the screen fits in `i32`s; the column under
/// the cursor, when it is on the screen, is on the map, has a tile that can
/// be described and a height whose distance from the level fits in an
/// `i32`.
pub open spec fn hud_fits(ws: &WorldState, w: &World, wid: usize, hig: usize) -> bool {
    &&& wid <= i32::MAX
    &&& hig <= i32::MAX
    &&& cursor_on(ws, wid, hig) ==> {
        let (cx, cy) = (ws.cursor.0 as int, ws.cursor.1 as int);
        &&& cy < w.map@.len()
        &&& cx < w.map@[cy]@.len()
        &&& tile_describable(looked_at(cursor_column(ws, w), ws.level))
        &&& top_index(cursor_column(ws, w).len()) <= i32::MAX
        &&& i32::MIN <= ws.level - top_index(cursor_column(ws, w).len()) <= i32::MAX
    }
}

/// The sixth line: the species of the first animal on the cursor's column,
/// or else what the column holds at the level shown.
pub open spec fn hud_subject(ws: &WorldState, w: &World) -> Seq<char> {
    let (cx, cy) = (ws.cursor.0 as usize, ws.cursor.1 as usize);
    match first_at(w.life@, cx, cy, 0) {
        Some(i) => species_ident(w.life@[i].species.species),
        None => tile_name(looked_at(cursor_column(ws, w), ws.level)),
    }
}

/// The lines of the tools frame: the level, the screen's position, the
/// date, the clock, the weather and the number of animals; with the cursor
/// on the screen, what is under it and, when the column's top is not at
/// the level shown, how far the level is from it.
pub open spec fn hud_lines(ws: &WorldState, w: &World, wid: usize, hig: usize) -> Seq<Seq<char>> {
    let top = top_index(cursor_column(ws, w).len());
    seq![
        "Height: "@ + signed_decimal(ws.level as int),
        "Screen Position: "@ + signed_decimal(ws.screen.0 as int) + ", "@ + signed_decimal(ws.screen.1 as int),
        "Date: "@ + calendar_words(ws.time.calendar),
        "Clock: "@ + clock_words(&ws.time.clock),
        "Weather: "@ + weather_ident(ws.time.calendar.weather),
        "Life #: "@ + decimal(w.life@.len()),
        if cursor_on(ws, wid, hig) { hud_subject(ws, w) } else { Seq::empty() },
        if cursor_on(ws, wid, hig) && top != (ws.level as usize) {
            "Distance from Level: "@ + signed_decimal(ws.level - top)
        } else {
            Seq::empty()
        },
    ]
}

/// `h` is the tools frame of the world on a screen of `wid` by `hig`
/// cells: it starts ten cells left of two thirds across and runs to the
/// right edge, the full height; see `hud_lines`.
pub open spec fn hud_ok(h: HudFrame, ws: &WorldState, w: &World, wid: usize, hig: usize) -> bool {
    &&& h.start == (wid as int / 3) * 2 - 10
    &&& h.width == wid - h.start
    &&& h.height == hig
    &&& h.lines@.len() == 8
    &&& forall|i: int| 0 <= i < 8 ==> (#[trigger] h.lines@[i])@ == hud_lines(ws, w, wid, hig)[i]
}

/// The tools frame of the world on a screen of `wid` by `hig` cells: it
/// starts ten cells left of two thirds across and runs to the right edge,
/// the full height; see `hud_lines`.
pub fn draw_hud(world: &WorldState, world_map: &World, wid: usize, hig: usize) -> (h: HudFrame)
    requires
        hud_fits(world, world_map, wid, hig),
    ensures
        hud_ok(h, world, world_map, wid, hig),
{
    let frame_start_pos = (wid as i32 / 3) * 2 - 10;
    let frame_width = wid as i32 - frame_start_pos;
    let frame_height = hig as i32;
    proof {
        reveal_strlit("Height: ");
        reveal_strlit("Screen Position: ");
        reveal_strlit(", ");
        reveal_strlit("Date: ");
        reveal_strlit("Clock: ");
        reveal_strlit("Weather: ");
        reveal_strlit("Life #: ");
        reveal_strlit("Distance from Level: ");
    }
    let mut l0 = text("Height: ");
    l0.append(to_signed_decimal(world.level).as_str());
    let mut l1 = text("Screen Position: ");
    l1.append(to_signed_decimal(world.screen.0).as_str());
    l1.append(", ");
    l1.append(to_signed_decimal(world.screen.1).as_str());
    let mut l2 = text("Date: ");
    l2.append(world.time.calendar.describe().as_str());
    let mut l3 = text("Clock: ");
    l3.append(world.time.clock.describe().as_str());
    let mut l4 = text("Weather: ");
    l4.append(world.time.calendar.weather.ident().as_str());
    let mut l5 = text("Life #: ");
    l5.append(to_decimal(world_map.life.len()).as_str());
    let mut l6 = String::new();
    let mut l7 = String::new();
    let (cx, cy) = (world.cursor.0, world.cursor.1);
    if (cx >= 0 && cx < wid as i32) && (cy >= 0 && cy < hig as i32) {
        let (cx, cy) = (cx as usize, cy as usize);
        let wmapt = &world_map.map[cy][cx].tiles;
        let len = if wmapt.len() > 0 { wmapt.len() - 1 } else { 0 };
        let level = world.level as usize;
        let mut k: usize = 0;
        let mut found: Option<usize> = None;
        while k < world_map.life.len() && found.is_none()
            invariant
                k <= world_map.life@.len(),
                found matches Some(i) ==> i < world_map.life@.len() && first_at(world_map.life@, cx, cy, 0) == Some(i as int),
                found is None ==> first_at(world_map.life@, cx, cy, 0) == first_at(world_map.life@, cx, cy, k as int),
            decreases world_map.life@.len() - k + (if found is None { 1int } else { 0int }),
        {
            let op = world_map.life[k].pos;
            if op.0 == cx && op.1 == cy {
                found = Some(k);
            } else {
                k += 1;
            }
        }
        l6 = match found {
            Some(i) => world_map.life[i].species.species.ident(),
            None => {
                let i = if len < level { len } else { level };
                let tile = if i < wmapt.len() { wmapt[i] } else { Tile::Empty };
                tile.describe()
            },
        };
        if len != level {
            l7 = text("Distance from Level: ");
            l7.append(to_signed_decimal(world.level - len as i32).as_str());
        }
    }
    let lines = vec![l0, l1, l2, l3, l4, l5, l6, l7];
    HudFrame { start: frame_start_pos, width: frame_width, height: frame_height, lines }
}


/// How a tile looks at `pos` at `time`: liquid water shows one of its
/// animation frames, two frames around `time` at most; anything else looks
/// as it always does.
pub open spec fn framed_look(t: Tile, pos: (usize, usize), time: usize, frames: &Frames, look: Seq<DrawCmd>) -> bool {
    if t matches Tile::Water(_, State::Liquid, _) {
        exists|jitter: usize|
            jitter < 3 && look == seq![
                put_ex(pos, #[trigger] water_frame(frames, time, jitter), tint(rgb(0, 105, 148)), rgb(0, 159, 225)),
            ]
    } else {
        look == tile_draw(t, pos)
    }
}

/// The column shown at screen cell `(x, y)`.
pub open spec fn shown_column(ws: &WorldState, w: &World, x: int, y: int) -> Seq<Tile> {
    w.map@[(ws.screen.1 as usize) + y]@[(ws.screen.0 as usize) + x].tiles@
}

/// Whether the column reaches up to the level shown.
pub open spec fn reaches(t: Seq<Tile>, level: i32) -> bool {
    (level as usize) < t.len()
}

/// The grey a column below the level shown is dimmed to: six steps darker
/// for each level between its top and the level shown, from 256, no darker
/// than 10, taken as a byte.
pub open spec fn shade(t: Seq<Tile>, level: i32) -> u8 {
    let gap = (level as usize) - top_index(t.len());
    let raw: int = if gap * 6 <= 256 { 256 - gap * 6 } else { 0 };
    (if raw < 10 { 10 } else { raw }) as u8
}

/// A cell's look is right: the tile at the level shown when the column
/// reaches it, else the column's top tile as it looks at `time`.
pub open spec fn cell_ok(ws: &WorldState, w: &World, time: usize, x: int, y: int, look: Seq<DrawCmd>) -> bool {
    let t = shown_column(ws, w, x, y);
    if reaches(t, ws.level) {
        look == tile_draw(t[(ws.level as usize) as int], (x as usize, y as usize))
    } else {
        framed_look(looked_at(t, ws.level), (x as usize, y as usize), time, &w.frames, look)
    }
}

/// The commands of a cell with the given look: its glyphs, and, when the
/// column is below the level shown, its dimming.
pub open spec fn cell_cmds(ws: &WorldState, w: &World, x: int, y: int, look: Seq<DrawCmd>) -> Seq<ScreenCmd> {
    let t = shown_column(ws, w, x, y);
    look.map_values(|d: DrawCmd| ScreenCmd::Glyph(d)) + if reaches(t, ws.level) {
        Seq::empty()
    } else {
        seq![ScreenCmd::SetCharForeground { x: x as i32, y: y as i32, fg: rgb(shade(t, ws.level), shade(t, ws.level), shade(t, ws.level)) }]
    }
}

/// The first `n` cells of row `y`, with their looks.
pub open spec fn row_cmds(ws: &WorldState, w: &World, y: int, looks: Seq<Seq<DrawCmd>>, n: int) -> Seq<ScreenCmd>
    decreases n,
{
    if n <= 0 {
        Seq::empty()
    } else {
        row_cmds(ws, w, y, looks, n - 1) + cell_cmds(ws, w, n - 1, y, looks[n - 1])
    }
}

/// The first `m` rows of `wid` cells, with their looks.
pub open spec fn grid_cmds(ws: &WorldState, w: &World, looks: Seq<Seq<Seq<DrawCmd>>>, wid: int, m: int) -> Seq<ScreenCmd>
    decreases m,
{
    if m <= 0 {
        Seq::empty()
    } else {
        grid_cmds(ws, w, looks, wid, m - 1) + row_cmds(ws, w, m - 1, looks[m - 1], wid)
    }
}

/// The looks of the cells are all right.
pub open spec fn looks_ok(ws: &WorldState, w: &World, time: usize, looks: Seq<Seq<Seq<DrawCmd>>>, wid: int, hig: int) -> bool {
    &&& looks.len() == hig
    &&& forall|y: int| 0 <= y < hig ==> (#[trigger] looks[y]).len() == wid
    &&& forall|y: int, x: int| 0 <= y < hig && 0 <= x < wid ==> cell_ok(ws, w, time, x, y, #[trigger] looks[y][x])
}

/// The cursor darkened and greyed, when it is on the screen.
pub open spec fn cursor_cmds(ws: &WorldState, wid: usize, hig: usize) -> Seq<ScreenCmd> {
    if cursor_on(ws, wid, hig) {
        seq![
            ScreenCmd::SetCharBackground { x: ws.cursor.0, y: ws.cursor.1, bg: rgb(100, 100, 100), flag: Background::Darken },
            ScreenCmd::SetCharForeground { x: ws.cursor.0, y: ws.cursor.1, fg: rgb(100, 100, 100) },
        ]
    } else {
        Seq::empty()
    }
}

/// The screen shows the map: every cell is on it, can be drawn, and, below
/// the level shown, can be dimmed; the screen's offset and size fit.
pub open spec fn view_fits(ws: &WorldState, w: &World, time: usize, wid: usize, hig: usize) -> bool {
    &&& (ws.screen.0 as usize) + wid <= usize::MAX
    &&& (ws.screen.1 as usize) + hig <= usize::MAX
    &&& wid <= i32::MAX
    &&& hig <= i32::MAX
    &&& forall|y: int, x: int|
        0 <= y < hig && 0 <= x < wid ==> {
            let t = #[trigger] shown_column(ws, w, x, y);
            &&& (ws.screen.1 as usize) + y < w.map@.len()
            &&& (ws.screen.0 as usize) + x < w.map@[(ws.screen.1 as usize) + y]@.len()
            &&& reaches(t, ws.level) ==> tile_drawable(t[(ws.level as usize) as int])
            &&& !reaches(t, ws.level) ==> looked_at(t, ws.level).framed_drawable(time, &w.frames)
            &&& !reaches(t, ws.level) ==> ((ws.level as usize) - top_index(t.len())) * 6 <= usize::MAX
        }
}

/// An animal's relative position on the screen fits in `i32`s.
pub open spec fn life_fits(ws: &WorldState, life: Seq<Animal>) -> bool {
    forall|i: int|
        0 <= i < life.len() ==> {
            let a = #[trigger] life[i];
            &&& i32::MIN <= (a.pos.0 as i32) - ws.screen.0 <= i32::MAX
            &&& i32::MIN <= (a.pos.1 as i32) - ws.screen.1 <= i32::MAX
        }
}

/// Where an animal shows on the screen, relative to the screen's corner.
pub open spec fn on_screen(ws: &WorldState, a: Animal) -> (int, int) {
    ((a.pos.0 as i32) - ws.screen.0, (a.pos.1 as i32) - ws.screen.1)
}

/// The letters of the first `n` animals that are on the screen and not
/// above the level shown.
pub open spec fn life_cmds(ws: &WorldState, life: Seq<Animal>, wid: i32, hig: i32, n: int) -> Seq<ScreenCmd>
    decreases n,
{
    if n <= 0 {
        Seq::empty()
    } else {
        let a = life[n - 1];
        let p = on_screen(ws, a);
        let rest = life_cmds(ws, life, wid, hig, n - 1);
        if p.0 < wid && p.1 < hig && p.0 >= 0 && p.1 >= 0 && ws.level >= (a.pos.2 as i32) {
            rest.push(
                ScreenCmd::Glyph(
                    DrawCmd::PutChar { x: p.0 as usize, y: p.1 as usize, chr: a.species.chr as u32, flag: Background::Default },
                ),
            )
        } else {
            rest
        }
    }
}

/// The animals on the screen, each as its species' letter, where it is not
/// above the level shown.
pub fn draw_life(ws: &WorldState, life: &Vec<Animal>, wid: i32, hig: i32) -> (r: Vec<ScreenCmd>)
    requires
        life_fits(ws, life@),
    ensures
        r@ == life_cmds(ws, life@, wid, hig, life@.len() as int),
{
    let mut out: Vec<ScreenCmd> = Vec::new();
    let mut i: usize = 0;
    while i < life.len()
        invariant
            life_fits(ws, life@),
            i <= life@.len(),
            out@ == life_cmds(ws, life@, wid, hig, i as int),
        decreases life@.len() - i,
    {
        let l = &life[i];
        assert(life_fits(ws, life@) ==> {
            &&& i32::MIN <= (life@[i as int].pos.0 as i32) - ws.screen.0 <= i32::MAX
            &&& i32::MIN <= (life@[i as int].pos.1 as i32) - ws.screen.1 <= i32::MAX
        });
        let rel = (l.pos.0 as i32 - ws.screen.0, l.pos.1 as i32 - ws.screen.1);
        if rel.0 < wid && rel.1 < hig && rel.0 >= 0 && rel.1 >= 0 && ws.level >= l.pos.2 as i32 {
            out.push(
                ScreenCmd::Glyph(
                    DrawCmd::PutChar {
                        x: rel.0 as usize,
                        y: rel.1 as usize,
                        chr: l.species.chr as u32,
                        flag: Background::Default,
                    },
                ),
            );
        }
        i += 1;
    }
    out
}


/// The prefix of the grid up to row `m` depends on the first `m` rows only.
proof fn lemma_grid_prefix(ws: &WorldState, w: &World, looks: Seq<Seq<Seq<DrawCmd>>>, row: Seq<Seq<DrawCmd>>, wid: int, m: int)
    requires
        0 <= m <= looks.len(),
    ensures
        grid_cmds(ws, w, looks.push(row), wid, m) == grid_cmds(ws, w, looks, wid, m),
    decreases m,
{
    if m > 0 {
        lemma_grid_prefix(ws, w, looks, row, wid, m - 1);
        assert(looks.push(row)[m - 1] == looks[m - 1]);
    }
}

/// The prefix of a row up to cell `n` depends on the first `n` cells only.
proof fn lemma_row_prefix(ws: &WorldState, w: &World, y: int, row: Seq<Seq<DrawCmd>>, look: Seq<DrawCmd>, n: int)
    requires
        0 <= n <= row.len(),
    ensures
        row_cmds(ws, w, y, row.push(look), n) == row_cmds(ws, w, y, row, n),
    decreases n,
{
    if n > 0 {
        lemma_row_prefix(ws, w, y, row, look, n - 1);
        assert(row.push(look)[n - 1] == row[n - 1]);
    }
}

/// Appends the glyphs of a cell's look.
fn push_glyphs(out: &mut Vec<ScreenCmd>, look: &Vec<DrawCmd>)
    ensures
        final(out)@ == old(out)@ + look@.map_values(|d: DrawCmd| ScreenCmd::Glyph(d)),
{
    let ghost start = out@;
    let mut k: usize = 0;
    while k < look.len()
        invariant
            k <= look@.len(),
            out@ == start + look@.take(k as int).map_values(|d: DrawCmd| ScreenCmd::Glyph(d)),
        decreases look@.len() - k,
    {
        out.push(ScreenCmd::Glyph(look[k]));
        assert(look@.take(k + 1).map_values(|d: DrawCmd| ScreenCmd::Glyph(d)) =~= look@.take(k as int).map_values(
            |d: DrawCmd| ScreenCmd::Glyph(d),
        ).push(ScreenCmd::Glyph(look@[k as int])));
        k += 1;
    }
    assert(look@.take(look@.len() as int) =~= look@);
}

/// What the screen shows: the map's commands, the tools frame when it is
/// shown, and the animals, drawn in that order.
pub struct MapView {
    pub cmds: Vec<ScreenCmd>,
    pub hud: Option<HudFrame>,
    pub life: Vec<ScreenCmd>,
}

/// `v` is what the screen shows of the world; see `draw_map`.
pub open spec fn view_ok(v: MapView, world: &WorldState, show_hud: bool, time: usize, wid: usize, hig: usize) -> bool {
    &&& world.map is None ==> v.cmds@.len() == 0 && v.hud is None && v.life@.len() == 0
    &&& world.map matches Some(w) ==> {
        &&& exists|looks: Seq<Seq<Seq<DrawCmd>>>|
            #[trigger] looks_ok(world, &w, time, looks, wid as int, hig as int) && v.cmds@ == seq![ScreenCmd::Clear]
                + grid_cmds(world, &w, looks, wid as int, hig as int) + cursor_cmds(world, wid, hig)
        &&& show_hud ==> (v.hud matches Some(h) && hud_ok(h, world, &w, wid, hig))
        &&& !show_hud ==> v.hud is None
        &&& v.life@ == life_cmds(world, w.life@, wid as i32, hig as i32, w.life@.len() as int)
    }
}

/// What drawing the map asks: the view fits the map, the tools frame, when
/// shown, fits the map, and the animals' places on the screen fit.
pub open spec fn drawable_view(world: &WorldState, show_hud: bool, time: usize, wid: usize, hig: usize) -> bool {
    world.map matches Some(w) ==> {
        &&& view_fits(world, &w, time, wid, hig)
        &&& show_hud ==> hud_fits(world, &w, wid, hig)
        &&& life_fits(world, w.life@)
    }
}

/// The map of the world as shown on a screen of `wid` by `hig` cells at
/// `time`: the screen is cleared; each cell shows the tile of its column
/// at the level shown, or, where the column is lower, the column's top tile
/// dimmed by the distance; the cursor is darkened; the tools frame follows
/// when asked for, then the animals. Without a map nothing is shown.
pub fn draw_map(world: &WorldState, show_hud: bool, time: usize, wid: usize, hig: usize) -> (v: MapView)
    requires
        drawable_view(world, show_hud, time, wid, hig),
    ensures
        view_ok(v, world, show_hud, time, wid, hig),
{
    match &world.map {
        Some(w) => {
            let mut cmds: Vec<ScreenCmd> = vec![ScreenCmd::Clear];
            let ghost mut looks: Seq<Seq<Seq<DrawCmd>>> = Seq::empty();
            let sy = world.screen.1 as usize;
            let sx = world.screen.0 as usize;
            let level = world.level as usize;
            let mut y: usize = 0;
            while y < hig
                invariant
                    view_fits(world, w, time, wid, hig),
                    sy == world.screen.1 as usize,
                    sx == world.screen.0 as usize,
                    level == world.level as usize,
                    y <= hig,
                    looks.len() == y,
                    forall|yy: int| 0 <= yy < y ==> (#[trigger] looks[yy]).len() == wid,
                    forall|yy: int, xx: int| 0 <= yy < y && 0 <= xx < wid ==> cell_ok(world, w, time, xx, yy, #[trigger] looks[yy][xx]),
                    cmds@ == seq![ScreenCmd::Clear] + grid_cmds(world, w, looks, wid as int, y as int),
                decreases hig - y,
            {
                let ghost mut row: Seq<Seq<DrawCmd>> = Seq::empty();
                let ghost row_start = cmds@;
                let mut x: usize = 0;
                while x < wid
                    invariant
                        view_fits(world, w, time, wid, hig),
                        sy == world.screen.1 as usize,
                        sx == world.screen.0 as usize,
                        level == world.level as usize,
                        y < hig,
                        x <= wid,
                        row.len() == x,
                        forall|xx: int| 0 <= xx < x ==> cell_ok(world, w, time, xx, y as int, #[trigger] row[xx]),
                        cmds@ == row_start + row_cmds(world, w, y as int, row, x as int),
                    decreases wid - x,
                {
                    let ghost t = shown_column(world, w, x as int, y as int);
                    let tiles = &w.map[sy + y][sx + x].tiles;
                    assert(tiles@ == t);
                    let ghost before = cmds@;
                    if level < tiles.len() {
                        let look = tiles[level].draw_char((x, y));
                        push_glyphs(&mut cmds, &look);
                        proof {
                            lemma_row_prefix(world, w, y as int, row, look@, x as int);
                            row = row.push(look@);
                            assert(cmds@ =~= row_start + row_cmds(world, w, y as int, row, x + 1));
                        }
                    } else {
                        let len = if tiles.len() > 0 { tiles.len() - 1 } else { 0 };
                        let top = if len < tiles.len() { tiles[len] } else { Tile::Empty };
                        assert(top == looked_at(t, world.level));
                        let look = top.draw_framed_char((x, y), time, &w.frames);
                        push_glyphs(&mut cmds, &look);
                        let gap = level - len;
                        let raw: usize = if gap * 6 <= 256 { 256 - gap * 6 } else { 0 };
                        let c: u8 = (if raw < 10 { 10 } else { raw }) as u8;
                        cmds.push(ScreenCmd::SetCharForeground { x: x as i32, y: y as i32, fg: crate::draw::Color { r: c, g: c, b: c } });
                        proof {
                            assert(c == shade(t, world.level));
                            lemma_row_prefix(world, w, y as int, row, look@, x as int);
                            row = row.push(look@);
                            assert(cmds@ =~= row_start + row_cmds(world, w, y as int, row, x + 1));
                        }
                    }
                    x += 1;
                }
                proof {
                    lemma_grid_prefix(world, w, looks, row, wid as int, y as int);
                    looks = looks.push(row);
                    assert(cmds@ =~= seq![ScreenCmd::Clear] + grid_cmds(world, w, looks, wid as int, y + 1));
                }
                y += 1;
            }
            let (cx, cy) = (world.cursor.0, world.cursor.1);
            let ghost grid = cmds@;
            if (cx >= 0 && cx < wid as i32) && (cy >= 0 && cy < hig as i32) {
                cmds.push(ScreenCmd::SetCharBackground { x: cx, y: cy, bg: crate::draw::Color { r: 100, g: 100, b: 100 }, flag: Background::Darken });
                cmds.push(ScreenCmd::SetCharForeground { x: cx, y: cy, fg: crate::draw::Color { r: 100, g: 100, b: 100 } });
            }
            assert(cmds@ =~= grid + cursor_cmds(world, wid, hig));
            assert(looks_ok(world, w, time, looks, wid as int, hig as int));
            let hud = if show_hud {
                Some(draw_hud(world, w, wid, hig))
            } else {
                None
            };
            let life = draw_life(world, &w.life, wid as i32, hig as i32);
            MapView { cmds, hud, life }
        },
        None => MapView { cmds: Vec::new(), hud: None, life: Vec::new() },
    }
}

/// Whether a tile has a look: anything but stone turned to gas, and loose
/// stone only while solid.
fn can_draw_tile(t: &Tile) -> (r: bool)
    ensures
        r == tile_drawable(*t),
{
    match t {
        Tile::Stone(_, State::Gas) => false,
        Tile::Moveable(RestrictedTile::Stone(_, State::Solid)) => true,
        Tile::Moveable(RestrictedTile::Stone(_, _)) => false,
        _ => true,
    }
}

/// Whether a tile can be put in words: anything but stone turned to gas.
fn can_describe_tile(t: &Tile) -> (r: bool)
    ensures
        r == tile_describable(*t),
{
    match t {
        Tile::Stone(_, State::Gas) => false,
        Tile::Moveable(RestrictedTile::Stone(_, State::Gas)) => false,
        _ => true,
    }
}

/// Whether a tile has a look at `time` with these animations: liquid water
/// needs frames that stay clear of the end of the glyphs and a time that
/// can move on by two.
fn can_draw_framed(t: &Tile, time: usize, frames: &Frames) -> (r: bool)
    ensures
        r == t.framed_drawable(time, frames),
{
    match t {
        Tile::Water(_, State::Liquid, _) => {
            if frames.water.all.len() == 0 || time > usize::MAX - 2 {
                return false;
            }
            let top: usize = (u32::MAX - 256) as usize;
            let mut i: usize = 0;
            while i < frames.water.all.len()
                invariant
                    *t matches Tile::Water(_, State::Liquid, _),
                    frames.water.all@.len() > 0,
                    time <= usize::MAX - 2,
                    i <= frames.water.all@.len(),
                    top == u32::MAX - 256,
                    forall|k: int| 0 <= k < i ==> #[trigger] frames.water.all@[k] <= u32::MAX - 256,
                decreases frames.water.all@.len() - i,
            {
                if frames.water.all[i] > top {
                    assert(frames.water.all@[i as int] > u32::MAX - 256);
                    return false;
                }
                i += 1;
            }
            true
        },
        _ => can_draw_tile(t),
    }
}

/// The tile the tools frame describes for a column; see `looked_at`.
fn look_at(t: &Vec<Tile>, level: i32) -> (r: Tile)
    ensures
        r == looked_at(t@, level),
{
    let len = if t.len() > 0 { t.len() - 1 } else { 0 };
    let lv = level as usize;
    let i = if len < lv { len } else { lv };
    if i < t.len() { t[i] } else { Tile::Empty }
}

/// Whether the tools frame can be drawn; see `hud_fits`.
fn can_draw_hud(ws: &WorldState, w: &World, wid: usize, hig: usize) -> (r: bool)
    ensures
        r == hud_fits(ws, w, wid, hig),
{
    if wid > i32::MAX as usize || hig > i32::MAX as usize {
        return false;
    }
    let (cx, cy) = ws.cursor;
    if cx >= 0 && (cx as usize) < wid && cy >= 0 && (cy as usize) < hig {
        let (x, y) = (cx as usize, cy as usize);
        if y >= w.map.len() || x >= w.map[y].len() {
            return false;
        }
        let t = &w.map[y][x].tiles;
        if !can_describe_tile(&look_at(t, ws.level)) {
            return false;
        }
        let top = if t.len() > 0 { t.len() - 1 } else { 0 };
        if top > i32::MAX as usize {
            return false;
        }
        let d: i64 = ws.level as i64 - top as i64;
        d >= i32::MIN as i64 && d <= i32::MAX as i64
    } else {
        true
    }
}

/// Whether the cell `(x, y)` of the screen can be drawn; the body of
/// `view_fits`.
pub open spec fn cell_fits(ws: &WorldState, w: &World, time: usize, x: int, y: int) -> bool {
    let t = shown_column(ws, w, x, y);
    &&& (ws.screen.1 as usize) + y < w.map@.len()
    &&& (ws.screen.0 as usize) + x < w.map@[(ws.screen.1 as usize) + y]@.len()
    &&& reaches(t, ws.level) ==> tile_drawable(t[(ws.level as usize) as int])
    &&& !reaches(t, ws.level) ==> looked_at(t, ws.level).framed_drawable(time, &w.frames)
    &&& !reaches(t, ws.level) ==> ((ws.level as usize) - top_index(t.len())) * 6 <= usize::MAX
}

/// Whether every cell of the screen can be drawn; see `view_fits`.
fn can_draw_cells(ws: &WorldState, w: &World, time: usize, wid: usize, hig: usize) -> (r: bool)
    ensures
        r == view_fits(ws, w, time, wid, hig),
{
    let sx = ws.screen.0 as usize;
    let sy = ws.screen.1 as usize;
    if wid > usize::MAX - sx || hig > usize::MAX - sy || wid > i32::MAX as usize || hig
        > i32::MAX as usize {
        return false;
    }
    let lv = ws.level as usize;
    let mut y: usize = 0;
    while y < hig
        invariant
            y <= hig,
            sx == ws.screen.0 as usize,
            sy == ws.screen.1 as usize,
            lv == ws.level as usize,
            sx + wid <= usize::MAX,
            sy + hig <= usize::MAX,
            forall|yy: int, xx: int| 0 <= yy < y && 0 <= xx < wid ==> #[trigger] cell_fits(ws, w, time, xx, yy),
        decreases hig - y,
    {
        let mut x: usize = 0;
        while x < wid
            invariant
                y < hig,
                x <= wid,
                sx == ws.screen.0 as usize,
                sy == ws.screen.1 as usize,
                lv == ws.level as usize,
                sx + wid <= usize::MAX,
                sy + hig <= usize::MAX,
                forall|yy: int, xx: int| 0 <= yy < y && 0 <= xx < wid ==> #[trigger] cell_fits(ws, w, time, xx, yy),
                forall|xx: int| 0 <= xx < x ==> #[trigger] cell_fits(ws, w, time, xx, y as int),
            decreases wid - x,
        {
            if sy + y >= w.map.len() || sx + x >= w.map[sy + y].len() {
                assert(!cell_fits(ws, w, time, x as int, y as int));
                return false;
            }
            let t = &w.map[sy + y][sx + x].tiles;
            assert(t@ == shown_column(ws, w, x as int, y as int));
            if lv < t.len() {
                if !can_draw_tile(&t[lv]) {
                    assert(!cell_fits(ws, w, time, x as int, y as int));
                    return false;
                }
            } else {
                if !can_draw_framed(&look_at(t, ws.level), time, &w.frames) {
                    assert(!cell_fits(ws, w, time, x as int, y as int));
                    return false;
                }
                let top = if t.len() > 0 { t.len() - 1 } else { 0 };
                if lv - top > usize::MAX / 6 {
                    assert(!cell_fits(ws, w, time, x as int, y as int));
                    return false;
                }
            }
            assert(cell_fits(ws, w, time, x as int, y as int));
            x += 1;
        }
        y += 1;
    }
    assert forall|yy: int, xx: int| 0 <= yy < hig && 0 <= xx < wid implies {
        let t = #[trigger] shown_column(ws, w, xx, yy);
        &&& (ws.screen.1 as usize) + yy < w.map@.len()
        &&& (ws.screen.0 as usize) + xx < w.map@[(ws.screen.1 as usize) + yy]@.len()
        &&& reaches(t, ws.level) ==> tile_drawable(t[(ws.level as usize) as int])
        &&& !reaches(t, ws.level) ==> looked_at(t, ws.level).framed_drawable(time, &w.frames)
        &&& !reaches(t, ws.level) ==> ((ws.level as usize) - top_index(t.len())) * 6 <= usize::MAX
    } by {
        assert(cell_fits(ws, w, time, xx, yy));
    }
    true
}

/// Whether every animal's place on the screen fits; see `life_fits`.
fn can_place_life(ws: &WorldState, life: &Vec<Animal>) -> (r: bool)
    ensures
        r == life_fits(ws, life@),
{
    let mut i: usize = 0;
    while i < life.len()
        invariant
            i <= life@.len(),
            forall|k: int|
                0 <= k < i ==> {
                    let a = #[trigger] life@[k];
                    &&& i32::MIN <= (a.pos.0 as i32) - ws.screen.0 <= i32::MAX
                    &&& i32::MIN <= (a.pos.1 as i32) - ws.screen.1 <= i32::MAX
                },
        decreases life@.len() - i,
    {
        let p = life[i].pos;
        let dx: i64 = (p.0 as i32) as i64 - ws.screen.0 as i64;
        let dy: i64 = (p.1 as i32) as i64 - ws.screen.1 as i64;
        if dx < i32::MIN as i64 || dx > i32::MAX as i64 || dy < i32::MIN as i64 || dy > i32::MAX as i64 {
            assert(!life_fits(ws, life@)) by {
                let a = life@[i as int];
                assert(a.pos == p);
            }
            return false;
        }
        i += 1;
    }
    true
}

/// Whether the map can be drawn; the test of `drawable_view` before
/// `draw_map`.
pub fn map_drawable(world: &WorldState, show_hud: bool, time: usize, wid: usize, hig: usize) -> (r: bool)
    ensures
        r == drawable_view(world, show_hud, time, wid, hig),
{
    match &world.map {
        Some(w) => {
            can_draw_cells(world, w, time, wid, hig) && (!show_hud || can_draw_hud(world, w, wid, hig))
                && can_place_life(world, &w.life)
        },
        None => true,
    }
}


/// Every animal drawn is on the screen and at or below the level shown:
/// each command is the letter of one of the animals, at its place relative
/// to the screen's corner, and that animal stands no higher than the level.
pub proof fn law_life_drawn_at_or_below_level(ws: &WorldState, life: Seq<Animal>, wid: i32, hig: i32, n: int)
    requires
        0 <= n <= life.len(),
    ensures
        forall|i: int|
            0 <= i < life_cmds(ws, life, wid, hig, n).len() ==> exists|j: int|
                {
                    &&& 0 <= j < n
                    &&& ws.level >= (life[j].pos.2 as i32)
                    &&& 0 <= (life[j].pos.0 as i32) - ws.screen.0 < wid
                    &&& 0 <= (life[j].pos.1 as i32) - ws.screen.1 < hig
                    &&& #[trigger] life_cmds(ws, life, wid, hig, n)[i] == ScreenCmd::Glyph(
                        DrawCmd::PutChar {
                            x: ((life[j].pos.0 as i32) - ws.screen.0) as usize,
                            y: ((life[j].pos.1 as i32) - ws.screen.1) as usize,
                            chr: life[j].species.chr as u32,
                            flag: Background::Default,
                        },
                    )
                },
    decreases n,
{
    if n > 0 {
        law_life_drawn_at_or_below_level(ws, life, wid, hig, n - 1);
        let rest = life_cmds(ws, life, wid, hig, n - 1);
        assert forall|i: int| 0 <= i < life_cmds(ws, life, wid, hig, n).len() implies exists|j: int|
            {
                &&& 0 <= j < n
                &&& ws.level >= (life[j].pos.2 as i32)
                &&& 0 <= (life[j].pos.0 as i32) - ws.screen.0 < wid
                &&& 0 <= (life[j].pos.1 as i32) - ws.screen.1 < hig
                &&& #[trigger] life_cmds(ws, life, wid, hig, n)[i] == ScreenCmd::Glyph(
                    DrawCmd::PutChar {
                        x: ((life[j].pos.0 as i32) - ws.screen.0) as usize,
                        y: ((life[j].pos.1 as i32) - ws.screen.1) as usize,
                        chr: life[j].species.chr as u32,
                        flag: Background::Default,
                    },
                )
            } by {
            if i < rest.len() {
                assert(life_cmds(ws, life, wid, hig, n)[i] == rest[i]);
                assert(rest[i] == life_cmds(ws, life, wid, hig, n - 1)[i]);
            } else {
                assert(life_cmds(ws, life, wid, hig, n)[i] == life_cmds(ws, life, wid, hig, n).last());
            }
        }
    }
}

} // verus!
