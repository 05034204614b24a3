//! The game's screens and what the keys and the mouse do on each.
use vstd::prelude::*;
use crate::life::Order;
use crate::ui::{
    button_id, button_look, bbox_at, hit_from_back, hits, layout_look, lemma_single_column, slot, Button, DrawUI,
    Layout, MouseUI, Textbox,
};
use crate::draw::{rgb, Align, Background, Color, ScreenCmd};
use crate::view::{draw_map, drawable_view, map_drawable, view_ok, MapView};
use crate::worldgen::state::{time_can_advance, time_updated};
use crate::utils::{clamp, clamp_int, lemma_clamp_i32, Rect2D};
use crate::worldgen::state::{fresh_state, WorldState};
use crate::text::text;
use crate::time::get_world_time;
use crate::worldgen::{first_empty, generated, heights_small, lemma_generated_biomes, populated, TerrainSamples, World};
use crate::worldgen::state::tallest;

verus! {

/// The size of the world's map.
pub const MAP_SIZE: (usize, usize) = (110, 70);

/// How far the arrow keys move the view.
pub const MOVE_DIST: i32 = 5;

/// The screens of the game.
#[derive(Debug, Copy, Clone, PartialEq, Eq, Structural)]
pub enum GameScreen {
    Menu,
    SelectCommand,
    SelectArea,
    SelectBuildable,
    SelectDiggable,
    SelectOtherCommand,
    Game,
    GetSeed,
    Loading,
    Paused,
}

/// Figures derived from the screen and the world.
#[derive(Debug, Copy, Clone)]
pub struct Calc {
    pub max_screen_move: (i32, i32),
    pub highest_world: i32,
    pub screen_size: (i32, i32),
}

/// The kind of command being given.
#[derive(Debug, Copy, Clone, PartialEq, Eq, Structural)]
pub enum PartialCommand {
    Move,
    Other,
    Build,
    Dig,
    Destroy,
    Cancel,
}

/// The keys the game knows.
#[derive(Debug, Copy, Clone, PartialEq, Eq, Structural)]
pub enum KeyCode {
    Enter,
    Spacebar,
    Escape,
    Tab,
    Char,
    Up,
    Down,
    Left,
    Right,
    Other,
}

/// A key press: its code, and the character it types, if any.
#[derive(Debug, Copy, Clone, PartialEq, Eq, Structural)]
pub struct Key {
    pub code: KeyCode,
    pub printable: char,
}

/// The mouse: which buttons were just pressed.
#[derive(Debug, Copy, Clone, PartialEq, Eq, Structural)]
pub struct Mouse {
    pub lbutton_pressed: bool,
    pub rbutton_pressed: bool,
}

/// What the game asks of the program around it after an event.
#[derive(Debug, Copy, Clone, PartialEq, Eq, Structural)]
pub enum GameAction {
    Nothing,
    /// Start a new game, with the given seed or one from the clock.
    StartGame(Option<u32>),
    Exit,
    ToggleFullscreen,
}

/// The whole game.
pub struct Game {
    pub show_hud: bool,
    pub constants: Calc,
    pub last_time: usize,
    pub menu: Layout,
    pub command_list: Layout,
    pub pause_menu: Layout,
    pub build_commands: Layout,
    pub dig_commands: Layout,
    pub other_commands: Layout,
    pub move_commands: Layout,
    pub textbox: Textbox,
    pub selection: Rect2D,
    pub show_tools: Button,
    pub partial_command: PartialCommand,
    pub seed: u32,
    pub time: usize,
    pub screen: GameScreen,
    pub world_state: WorldState,
}

/// The layout holds one button per name, one below the other from `pos`,
/// each of `size`.
pub open spec fn stacked(l: Layout, names: Seq<Seq<char>>, pos: (i32, i32), size: (i32, i32)) -> bool {
    &&& l.buttons@.len() == names.len()
    &&& forall|i: int|
        0 <= i < names.len() ==> {
            let b = #[trigger] l.buttons@[i];
            &&& b.bbox == bbox_at((pos.0, (pos.1 + i * (size.1 + 1)) as i32), size)
            &&& b.text@ == names[i]
            &&& b.id@ == button_id(names[i])
        }
}

/// Lays out the buttons named `names` one below the other.
fn stack(names: Vec<&str>, pos: (i32, i32), size: (i32, i32)) -> (l: Layout)
    requires
        size.0 > 0,
        size.1 >= 0,
        names@.len() <= 16,
        pos.0 + size.0 <= i32::MAX,
        0 <= pos.1 <= 1000,
        size.1 <= 10,
        size.0 <= 100,
    ensures
        stacked(l, names@.map_values(|n: &str| n@), pos, size),
{
    proof {
        assert(pos.1 + (names@.len() + 1) * (size.1 + 1) <= i32::MAX) by (nonlinear_arith)
            requires names@.len() <= 16, 0 <= pos.1 <= 1000, 0 <= size.1 <= 10;
        assert(names@.len() * size.0 <= i32::MAX) by (nonlinear_arith)
            requires names@.len() <= 16, 0 < size.0 <= 100;
        lemma_single_column(names@.len() as int, pos, size, size.0);
    }
    let l = Layout::new(names, pos, size, size.0);
    proof {
        assert forall|i: int| 0 <= i < names@.len() implies #[trigger] slot(i, pos, size, size.0) == (pos.0 as int, pos.1 + i * (size.1 + 1)) by {}
    }
    l
}

impl Game {
    /// A new game on a screen of the given size, at the main menu.
    pub fn new(screen_size: (i32, i32)) -> (g: Game)
        requires
            0 < screen_size.0,
            0 < screen_size.1,
        ensures
            g.show_hud,
            g.constants == (Calc { max_screen_move: (-1i32, -1i32), highest_world: 0, screen_size }),
            g.partial_command == PartialCommand::Cancel,
            g.selection == ((0usize, 0usize), (0usize, 0usize)),
            g.last_time == 0,
            g.time == 0,
            g.screen == GameScreen::Menu,
            g.seed == 0,
            g.show_tools.bbox == bbox_at(((screen_size.0 - 7) as i32, (screen_size.1 - 2) as i32), (6, 1)),
            g.show_tools.text@ == "Menu \u{1A}"@,
            stacked(g.menu, seq!["New Game"@, "Use Seed"@, "Exit"@], ((screen_size.0 / 2) as i32, 15), (8, 0)),
            stacked(g.build_commands, seq!["Wall"@, "Fence"@, "Ramp"@], ((screen_size.0 / 2) as i32, 15), (8, 0)),
            stacked(g.dig_commands, seq!["Mine"@], ((screen_size.0 / 2) as i32, 15), (8, 0)),
            stacked(g.move_commands, seq!["Go To"@, "Cart Goods"@], ((screen_size.0 / 2) as i32, 15), (10, 0)),
            stacked(g.other_commands, seq!["Gather Plants"@, "Fell Trees"@], ((screen_size.0 / 2) as i32, 15), (13, 0)),
            stacked(
                g.command_list,
                seq!["Build"@, "Destroy"@, "Dig"@, "Move"@, "Cancel"@, "Other"@, "Back"@],
                ((screen_size.0 / 2) as i32, 15),
                (8, 0),
            ),
            stacked(g.pause_menu, seq!["Main Menu"@, "Back"@, "Fullscreen"@, "Exit"@], ((screen_size.0 / 2) as i32, 4), (10, 0)),
            g.textbox.label@ == "Seed"@,
            g.textbox.pos == ((screen_size.0 / 2) as i32, 30i32),
            g.textbox.value@.len() == 0,
            fresh_state(g.world_state),
    {
        let half = screen_size.0 / 2;
        let menu = stack(vec!["New Game", "Use Seed", "Exit"], (half, 15), (8, 0));
        let build_commands = stack(vec!["Wall", "Fence", "Ramp"], (half, 15), (8, 0));
        let dig_commands = stack(vec!["Mine"], (half, 15), (8, 0));
        let move_commands = stack(vec!["Go To", "Cart Goods"], (half, 15), (10, 0));
        let other_commands = stack(vec!["Gather Plants", "Fell Trees"], (half, 15), (13, 0));
        let command_list = stack(vec!["Build", "Destroy", "Dig", "Move", "Cancel", "Other", "Back"], (half, 15), (8, 0));
        let pause_menu = stack(vec!["Main Menu", "Back", "Fullscreen", "Exit"], (half, 4), (10, 0));
        Game {
            show_hud: true,
            constants: Calc { max_screen_move: (-1, -1), highest_world: 0, screen_size },
            partial_command: PartialCommand::Cancel,
            selection: ((0, 0), (0, 0)),
            last_time: 0,
            time: 0,
            screen: GameScreen::Menu,
            show_tools: Button::new("Menu \u{1A}", (screen_size.0 - 7, screen_size.1 - 2), (6, 1)),
            menu,
            build_commands,
            dig_commands,
            move_commands,
            other_commands,
            command_list,
            pause_menu,
            textbox: Textbox::new("Seed", (half, 30), (10, 0)),
            world_state: WorldState::new(),
            seed: 0,
        }
    }
}


/// The value of a string of decimal digits.
pub open spec fn digits_value(s: Seq<char>) -> int
    decreases s.len(),
{
    if s.len() == 0 {
        0
    } else {
        digits_value(s.drop_last()) * 10 + (s.last() as int - '0' as int)
    }
}

/// Whether every character is a decimal digit.
pub open spec fn all_digits(s: Seq<char>) -> bool {
    forall|i: int| 0 <= i < s.len() ==> '0' <= #[trigger] s[i] <= '9'
}

/// What `str::parse::<u32>` gives for a string: the value of its digits,
/// after an optional `+`, when there is at least one digit, nothing else,
/// and the value fits in a `u32`; otherwise nothing.
pub open spec fn parse_u32(s: Seq<char>) -> Option<u32> {
    let digits = if s.len() > 0 && s[0] == '+' { s.drop_first() } else { s };
    if digits.len() > 0 && all_digits(digits) && digits_value(digits) <= u32::MAX {
        Some(digits_value(digits) as u32)
    } else {
        None
    }
}

/// Grows as digits are added.
proof fn lemma_digits_value_grows(s: Seq<char>)
    requires
        all_digits(s),
    ensures
        0 <= digits_value(s),
    decreases s.len(),
{
    if s.len() > 0 {
        lemma_digits_value_grows(s.drop_last());
    }
}

/// Reads a `u32` written in decimal, as `str::parse::<u32>` does.
pub fn parse_seed(s: &Vec<char>) -> (r: Option<u32>)
    ensures
        r == parse_u32(s@),
{
    let start: usize = if s.len() > 0 && s[0] == '+' { 1 } else { 0 };
    let ghost digits = s@.subrange(start as int, s@.len() as int);
    assert(digits =~= if s@.len() > 0 && s@[0] == '+' { s@.drop_first() } else { s@ });
    if start >= s.len() {
        return None;
    }
    let mut value: u64 = 0;
    let mut i: usize = start;
    while i < s.len()
        invariant
            start <= i <= s@.len(),
            digits == s@.subrange(start as int, s@.len() as int),
            digits == (if s@.len() > 0 && s@[0] == '+' { s@.drop_first() } else { s@ }),
            all_digits(s@.subrange(start as int, i as int)),
            value == digits_value(s@.subrange(start as int, i as int)),
            value <= u32::MAX,
        decreases s@.len() - i,
    {
        let c = s[i];
        if !('0' <= c && c <= '9') {
            proof {
                assert(digits[i - start] == c);
                if all_digits(digits) {
                    assert('0' <= digits[i - start] <= '9');
                    assert(false);
                }
            }
            return None;
        }
        let d = (c as u64) - ('0' as u64);
        assert(s@.subrange(start as int, i + 1).drop_last() =~= s@.subrange(start as int, i as int));
        let next = value * 10 + d;
        if next > 0xffff_ffff {
            proof {
                if all_digits(digits) {
                    assert(digits.take(i + 1 - start) =~= s@.subrange(start as int, i + 1));
                    lemma_value_prefix(digits, (i + 1 - start) as int);
                }
            }
            return None;
        }
        value = next;
        i += 1;
        assert(all_digits(s@.subrange(start as int, i as int)));
    }
    assert(s@.subrange(start as int, i as int) =~= digits);
    Some(value as u32)
}

/// The value of a string of digits is at least that of any prefix.
proof fn lemma_value_prefix(s: Seq<char>, n: int)
    requires
        all_digits(s),
        0 <= n <= s.len(),
    ensures
        digits_value(s.take(n)) <= digits_value(s),
    decreases s.len(),
{
    if n < s.len() {
        assert(s.drop_last().take(n) =~= s.take(n));
        lemma_value_prefix(s.drop_last(), n);
        lemma_digits_value_grows(s.drop_last());
    } else {
        assert(s.take(n) =~= s);
    }
}

/// `b` is `a` with the tools button's look switched: the frame hidden and
/// the arrow pointing left, or shown and the arrow pointing right.
pub open spec fn tools_toggled(a: Game, b: Game) -> bool {
    &&& b.show_hud == !a.show_hud
    &&& b.show_tools.text@ == if a.show_hud { "Menu \u{1B}"@ } else { "Menu \u{1a}"@ }
    &&& b.show_tools.bbox == a.show_tools.bbox
    &&& b.show_tools.id == a.show_tools.id
    &&& b == Game { show_hud: b.show_hud, show_tools: b.show_tools, ..a }
}

/// `b` is `a` with the view moved by `(dx, dy)`, kept between the top left
/// corner and the farthest the view may move.
pub open spec fn view_moved(a: Game, b: Game, dx: int, dy: int) -> bool {
    &&& b.world_state.screen == (
        clamp_int(a.world_state.screen.0 + dx, a.constants.max_screen_move.0 as int, 0) as i32,
        clamp_int(a.world_state.screen.1 + dy, a.constants.max_screen_move.1 as int, 0) as i32,
    )
    &&& b == Game { world_state: WorldState { screen: b.world_state.screen, ..a.world_state }, ..a }
}

/// `b` is `a` showing the level `level`, kept between zero and the world's
/// highest level.
pub open spec fn level_shown(a: Game, b: Game, level: int) -> bool {
    &&& b.world_state.level == clamp_int(level, a.constants.highest_world as int, 0)
    &&& b == Game { world_state: WorldState { level: b.world_state.level, ..a.world_state }, ..a }
}

/// The view can move by the arrow keys' step without overflow.
pub open spec fn view_can_move(g: Game) -> bool {
    &&& i32::MIN + MOVE_DIST <= g.world_state.screen.0 <= i32::MAX - MOVE_DIST
    &&& i32::MIN + MOVE_DIST <= g.world_state.screen.1 <= i32::MAX - MOVE_DIST
}

/// `b` is `a` after the key, and `act` what is asked of the program. Typing
/// a seed, a character goes into the box and Enter starts a game with the
/// seed when it reads as a number; paused, space resumes and escape goes to
/// the menu; in the game, space pauses, tab switches the tools frame, `c`
/// opens the commands, `<` and `>` change the level shown and the arrows
/// move the view. Any other key does nothing.
pub open spec fn keyed(a: Game, b: Game, key: Key, act: GameAction) -> bool {
    match a.screen {
        GameScreen::GetSeed => if key.code == KeyCode::Enter {
            b == a && act == match parse_u32(a.textbox.value@) {
                Some(s) => GameAction::StartGame(Some(s)),
                None => GameAction::Nothing,
            }
        } else if key.code == KeyCode::Char {
            &&& act == GameAction::Nothing
            &&& b.textbox.value@ == a.textbox.value@.push(key.printable)
            &&& b.textbox.label == a.textbox.label && b.textbox.pos == a.textbox.pos && b.textbox.size == a.textbox.size
            &&& b == Game { textbox: b.textbox, ..a }
        } else {
            b == a && act == GameAction::Nothing
        },
        GameScreen::Paused => act == GameAction::Nothing && if key.code == KeyCode::Spacebar {
            b == Game { screen: GameScreen::Game, ..a }
        } else if key.code == KeyCode::Escape {
            b == Game { screen: GameScreen::Menu, ..a }
        } else {
            b == a
        },
        GameScreen::Game => act == GameAction::Nothing && match key.code {
            KeyCode::Spacebar => b == Game { screen: GameScreen::Paused, ..a },
            KeyCode::Tab => tools_toggled(a, b),
            KeyCode::Char => if key.printable == 'c' {
                b == Game { screen: GameScreen::SelectCommand, ..a }
            } else if key.printable == '<' {
                level_shown(a, b, a.world_state.level - 1)
            } else if key.printable == '>' {
                level_shown(a, b, a.world_state.level + 1)
            } else {
                b == a
            },
            KeyCode::Up => view_moved(a, b, 0, -MOVE_DIST),
            KeyCode::Down => view_moved(a, b, 0, MOVE_DIST as int),
            KeyCode::Left => view_moved(a, b, -MOVE_DIST, 0),
            KeyCode::Right => view_moved(a, b, MOVE_DIST as int, 0),
            _ => b == a,
        },
        _ => b == a && act == GameAction::Nothing,
    }
}

/// `b` is `a` with a new game started at `now` with the seed `seed`, and
/// `s` the seed: a button to resume is put first on the menu, one row below
/// its last button; `now` is the last time; the seed is the one given or,
/// without one, `now` cut to 32 bits.
pub open spec fn game_started(a: Game, b: Game, seed: Option<u32>, now: usize, s: u32) -> bool {
    let lpos = a.menu.buttons@.last().bbox.0;
    let r = b.menu.buttons@[0];
    &&& b.menu.buttons@.len() == a.menu.buttons@.len() + 1
    &&& b.menu.buttons@.drop_first() == a.menu.buttons@
    &&& r.bbox == bbox_at((lpos.0, (lpos.1 + 1) as i32), (8, 0))
    &&& r.text@ == "Resume"@
    &&& r.id@ == button_id("Resume"@)
    &&& s == match seed {
        Some(v) => v,
        None => now as u32,
    }
    &&& b == (Game { menu: b.menu, last_time: now, seed: s, ..a })
}

/// `b` is `a` with the clock read at `now`: `now` becomes the last time,
/// and the world's time moves on by the seconds since the last time, when
/// the clock did not go back and the time can take them; else it stays.
/// Nothing else changes.
pub open spec fn clock_advanced(a: Game, b: Game, now: usize) -> bool {
    let can = now >= a.last_time && time_can_advance(a.world_state.time, (now - a.last_time) as usize);
    &&& b.last_time == now
    &&& can ==> time_updated(a.world_state.time, b.world_state.time, (now - a.last_time) as usize)
    &&& !can ==> b.world_state.time == a.world_state.time
    &&& b == (Game { last_time: now, world_state: WorldState { time: b.world_state.time, ..a.world_state }, ..a })
}

/// In the game, with the view between the top left corner and the farthest
/// it may move, the down arrow moves it down by `MOVE_DIST` rows and the up
/// arrow up by as many, stopping at the edges; the columns shown stay.
pub proof fn law_arrows_move_the_view(a: Game, b: Game, key: Key, act: GameAction)
    requires
        a.screen == GameScreen::Game,
        key.code == KeyCode::Down || key.code == KeyCode::Up,
        keyed(a, b, key, act),
        0 <= a.world_state.screen.0 <= a.constants.max_screen_move.0,
        0 <= a.world_state.screen.1 <= a.constants.max_screen_move.1,
    ensures
        b.world_state.screen.0 == a.world_state.screen.0,
        0 <= b.world_state.screen.1 <= a.constants.max_screen_move.1,
        key.code == KeyCode::Down ==> b.world_state.screen.1 >= a.world_state.screen.1,
        key.code == KeyCode::Down && a.world_state.screen.1 + MOVE_DIST <= a.constants.max_screen_move.1
            ==> b.world_state.screen.1 == a.world_state.screen.1 + MOVE_DIST,
        key.code == KeyCode::Down && a.world_state.screen.1 + MOVE_DIST > a.constants.max_screen_move.1
            ==> b.world_state.screen.1 == a.constants.max_screen_move.1,
        key.code == KeyCode::Up ==> b.world_state.screen.1 <= a.world_state.screen.1,
        key.code == KeyCode::Up && a.world_state.screen.1 >= MOVE_DIST
            ==> b.world_state.screen.1 == a.world_state.screen.1 - MOVE_DIST,
        key.code == KeyCode::Up && a.world_state.screen.1 < MOVE_DIST ==> b.world_state.screen.1 == 0,
{
}

/// Pausing the game with space and resuming it with space again leaves the
/// game as it was, and asks nothing of the program.
pub proof fn law_pause_then_resume(a: Game, b: Game, c: Game, k1: Key, k2: Key, x1: GameAction, x2: GameAction)
    requires
        a.screen == GameScreen::Game,
        k1.code == KeyCode::Spacebar,
        k2.code == KeyCode::Spacebar,
        keyed(a, b, k1, x1),
        keyed(b, c, k2, x2),
    ensures
        b.screen == GameScreen::Paused,
        c == a,
        x1 == GameAction::Nothing,
        x2 == GameAction::Nothing,
{
}

/// Switching the tools frame with tab twice brings back the frame and the
/// button's arrow, when the arrow went with the frame to begin with;
/// nothing else changes.
pub proof fn law_tools_toggled_twice(a: Game, b: Game, c: Game, k1: Key, k2: Key, x1: GameAction, x2: GameAction)
    requires
        a.screen == GameScreen::Game,
        k1.code == KeyCode::Tab,
        k2.code == KeyCode::Tab,
        a.show_tools.text@ == (if a.show_hud { "Menu \u{1a}"@ } else { "Menu \u{1B}"@ }),
        keyed(a, b, k1, x1),
        keyed(b, c, k2, x2),
    ensures
        c.show_hud == a.show_hud,
        c.show_tools.text@ == a.show_tools.text@,
        c.show_tools.bbox == a.show_tools.bbox,
        c.show_tools.id == a.show_tools.id,
        c == (Game { show_tools: c.show_tools, ..a }),
{
}

impl Game {
    /// Moves the view by `(xdelta, ydelta)`, kept on the map.
    pub fn move_delta(&mut self, xdelta: i32, ydelta: i32)
        requires
            i32::MIN <= old(self).world_state.screen.0 + xdelta <= i32::MAX,
            i32::MIN <= old(self).world_state.screen.1 + ydelta <= i32::MAX,
        ensures
            view_moved(*old(self), *final(self), xdelta as int, ydelta as int),
    {
        let x = clamp(self.world_state.screen.0 + xdelta, self.constants.max_screen_move.0, 0);
        let y = clamp(self.world_state.screen.1 + ydelta, self.constants.max_screen_move.1, 0);
        proof {
            lemma_clamp_i32((self.world_state.screen.0 + xdelta) as i32, self.constants.max_screen_move.0, 0);
            lemma_clamp_i32((self.world_state.screen.1 + ydelta) as i32, self.constants.max_screen_move.1, 0);
        }
        self.world_state.screen = (x, y);
    }

    /// Switches the tools frame on or off, and the arrow on its button.
    fn toggle_tools(&mut self)
        ensures
            tools_toggled(*old(self), *final(self)),
    {
        if self.show_hud {
            self.show_tools.text = text("Menu \u{1B}");
            self.show_hud = false;
        } else {
            self.show_tools.text = text("Menu \u{1a}");
            self.show_hud = true;
        }
    }

    /// Handles a key press; see `keyed`.
    pub fn handle_key(&mut self, key: Key) -> (act: GameAction)
        requires
            old(self).screen == GameScreen::Game ==> view_can_move(*old(self)),
            old(self).screen == GameScreen::Game && key.code == KeyCode::Char ==> i32::MIN < old(self).world_state.level < i32::MAX,
        ensures
            keyed(*old(self), *final(self), key, act),
    {
        match self.screen {
            GameScreen::GetSeed => {
                if key.code != KeyCode::Enter {
                    if key.code == KeyCode::Char {
                        self.textbox.input(key.printable);
                    }
                    GameAction::Nothing
                } else {
                    match parse_seed(&self.textbox.value) {
                        Some(s) => GameAction::StartGame(Some(s)),
                        None => GameAction::Nothing,
                    }
                }
            },
            GameScreen::Paused => {
                match key.code {
                    KeyCode::Spacebar => {
                        self.screen = GameScreen::Game;
                    },
                    KeyCode::Escape => {
                        self.screen = GameScreen::Menu;
                    },
                    _ => {},
                }
                GameAction::Nothing
            },
            GameScreen::Game => {
                match key.code {
                    KeyCode::Spacebar => {
                        self.screen = GameScreen::Paused;
                    },
                    KeyCode::Tab => {
                        self.toggle_tools();
                    },
                    KeyCode::Char => {
                        if key.printable == 'c' {
                            self.screen = GameScreen::SelectCommand;
                        } else if key.printable == '<' {
                            let l = clamp(self.world_state.level - 1, self.constants.highest_world, 0);
                            proof {
                                lemma_clamp_i32((self.world_state.level - 1) as i32, self.constants.highest_world, 0);
                            }
                            self.world_state.level = l;
                        } else if key.printable == '>' {
                            let l = clamp(self.world_state.level + 1, self.constants.highest_world, 0);
                            proof {
                                lemma_clamp_i32((self.world_state.level + 1) as i32, self.constants.highest_world, 0);
                            }
                            self.world_state.level = l;
                        }
                    },
                    KeyCode::Up => self.move_delta(0, -MOVE_DIST),
                    KeyCode::Down => self.move_delta(0, MOVE_DIST),
                    KeyCode::Left => self.move_delta(-MOVE_DIST, 0),
                    KeyCode::Right => self.move_delta(MOVE_DIST, 0),
                    _ => {},
                }
                GameAction::Nothing
            },
            _ => GameAction::Nothing,
        }
    }

    /// Starts a new game at the clock's reading; see `init_game_at`. When
    /// the clock cannot be read, the time last noted stands in for it.
    pub fn init_game(&mut self, seed: Option<u32>) -> (s: u32)
        requires
            old(self).menu.buttons@.len() > 0,
            old(self).menu.buttons@.last().bbox.0.0 + 8 <= i32::MAX,
            old(self).menu.buttons@.last().bbox.0.1 + 1 <= i32::MAX,
        ensures
            game_started(*old(self), *final(self), seed, final(self).last_time, s),
    {
        let now = match get_world_time() {
            Some(t) => t,
            None => self.last_time,
        };
        self.init_game_at(seed, now)
    }

    /// Starts a new game at the time `now`: a button to resume is put first
    /// on the menu, one row below its last button; `now` is noted as the
    /// last time; the seed is the one given or, without one, `now` cut to
    /// 32 bits. Returns the seed, from which the world's terrain is to be
    /// sampled.
    pub fn init_game_at(&mut self, seed: Option<u32>, now: usize) -> (s: u32)
        requires
            old(self).menu.buttons@.len() > 0,
            old(self).menu.buttons@.last().bbox.0.0 + 8 <= i32::MAX,
            old(self).menu.buttons@.last().bbox.0.1 + 1 <= i32::MAX,
        ensures
            ({
                let lpos = old(self).menu.buttons@.last().bbox.0;
                let b = final(self).menu.buttons@[0];
                &&& final(self).menu.buttons@.len() == old(self).menu.buttons@.len() + 1
                &&& final(self).menu.buttons@.drop_first() == old(self).menu.buttons@
                &&& b.bbox == bbox_at((lpos.0, (lpos.1 + 1) as i32), (8, 0))
                &&& b.text@ == "Resume"@
                &&& b.id@ == button_id("Resume"@)
            }),
            game_started(*old(self), *final(self), seed, now, s),
    {
        let lpos = self.menu.buttons[self.menu.buttons.len() - 1].bbox.0;
        let resume = Button::new("Resume", (lpos.0 + 8 % 8, lpos.1 + 1), (8, 0));
        let ghost before = self.menu.buttons@;
        self.menu.buttons.insert(0, resume);
        assert(self.menu.buttons@.drop_first() =~= before);
        self.last_time = now;
        self.seed = match seed {
            Some(v) => v,
            None => self.last_time as u32,
        };
        self.seed
    }

    /// Loads the world sampled for the game's seed: the map is made and
    /// populated, the view may move as far as the map is larger than the
    /// screen, the highest level shown is one below the highest column, and
    /// the game begins.
    pub fn add_world(&mut self, samples: &TerrainSamples)
        requires
            samples.fits(MAP_SIZE),
            heights_small(samples),
            0 < old(self).constants.screen_size.0,
            0 < old(self).constants.screen_size.1,
        ensures
            (final(self).world_state.map matches Some(w) && w.well_formed() && w.map_size == MAP_SIZE && generated(
                samples,
                MAP_SIZE,
                w.map@,
            ) && populated(w, w)),
            tallest(final(self).world_state.map->0.map@, final(self).world_state.highest_level),
            final(self).constants.max_screen_move == (
                (110 - old(self).constants.screen_size.0 - 1) as i32,
                (70 - old(self).constants.screen_size.1 - 1) as i32,
            ),
            final(self).constants.highest_world == if (final(self).world_state.highest_level as i32) > i32::MIN {
                ((final(self).world_state.highest_level as i32) - 1) as i32
            } else {
                i32::MAX
            },
            final(self).constants.screen_size == old(self).constants.screen_size,
            final(self).screen == GameScreen::Game,
    {
        let world = World::new(MAP_SIZE, self.seed, samples);
        proof {
            lemma_generated_biomes(samples, MAP_SIZE, world.map@);
        }
        self.world_state.add_map(world);
        self.constants.max_screen_move = (
            MAP_SIZE.0 as i32 - self.constants.screen_size.0 - 1,
            MAP_SIZE.1 as i32 - self.constants.screen_size.1 - 1,
        );
        let h = self.world_state.highest_level as i32;
        self.constants.highest_world = if h > i32::MIN { h - 1 } else { i32::MAX };
        self.screen = GameScreen::Game;
    }
}


/// The id of the button of `l` clicked, when the left button was pressed
/// on one: the last button the cursor hits.
pub open spec fn clicked(g: Game, m: Mouse, l: Layout) -> Option<Seq<char>> {
    if m.lbutton_pressed {
        match hit_from_back(l.buttons@, g.world_state.cursor, l.buttons@.len() as int) {
            Some(i) => Some(l.buttons@[i].id@),
            None => None,
        }
    } else {
        None
    }
}

/// The order `o` given the selected area `sel`: areas take the selection,
/// a ramp and a point to go to its first corner; going to a point goes to
/// its first empty level, or level 100 without a map.
pub open spec fn refined(o: Order, sel: Rect2D, ws: WorldState) -> Order {
    match o {
        Order::Mine(_) => Order::Mine(sel),
        Order::BuildWall(_) => Order::BuildWall(sel),
        Order::BuildFence(_) => Order::BuildFence(sel),
        Order::BuildRamp(_) => Order::BuildRamp(sel.0),
        Order::Go(_) => match ws.map {
            Some(w) => Order::Go(
                (sel.0.0, sel.0.1, if w.inside(sel.0) { first_empty(w.unit_at(sel.0).tiles@) as usize } else { 10000000 }),
            ),
            None => Order::Go((sel.0.0, sel.0.1, 100)),
        },
        Order::CartGoods(_) => Order::CartGoods(sel),
        Order::GatherPlants(_) => Order::GatherPlants(sel),
        Order::FellTrees(_) => Order::FellTrees(sel),
    }
}

/// `b` is `a` with the order `o` given: it joins the end of the orders.
pub open spec fn ordered(a: Game, b: Game, o: Order) -> bool {
    &&& b.world_state.commands@ == a.world_state.commands@.push(o)
    &&& b == Game {
        world_state: WorldState { commands: b.world_state.commands, ..a.world_state },
        ..a
    }
}

/// `b` is `a` after the area selection is cleared and the screen to select
/// an area is shown.
pub open spec fn to_area(a: Game, b: Game) -> bool {
    b == Game { selection: ((0, 0), (0, 0)), screen: GameScreen::SelectArea, ..a }
}

/// `b` is `a` with the order of the first of `names` that `id` reads
/// given, if any.
pub open spec fn picked(a: Game, b: Game, id: Option<Seq<char>>, names: Seq<Seq<char>>, orders: Seq<Order>) -> bool {
    match id {
        Some(x) => if exists|k: int| 0 <= k < names.len() && names[k] == x {
            let k = choose|k: int| 0 <= k < names.len() && names[k] == x && forall|j: int| 0 <= j < k ==> names[j] != x;
            ordered(a, b, orders[k])
        } else {
            b == a
        },
        None => b == a,
    }
}

/// `b` is `a` after choosing, from the clicked button, an order to give,
/// then moving on to select its area.
pub open spec fn chose_order(a: Game, b: Game, id: Option<Seq<char>>, names: Seq<Seq<char>>, orders: Seq<Order>) -> bool {
    exists|c: Game| #[trigger] picked(a, c, id, names, orders) && to_area(c, b)
}

/// The text of an optional string.
pub open spec fn text_of(o: Option<String>) -> Option<Seq<char>> {
    match o {
        Some(s) => Some(s@),
        None => None,
    }
}

/// `b` is `a` after the mouse event, and `act` what is asked of the
/// program.
///
/// Selecting an area, a left click sets the first corner, then the second,
/// then refines the last order with the selection and returns to the game;
/// a right click clears the selection. Choosing what to build, dig or do
/// otherwise, a click on a button gives its order, and any event moves on
/// to selecting an area. On the menu, the buttons start a new game, ask for
/// a seed, resume or exit. Choosing a command, the selection is cleared and
/// the button picks the kind of command and the next screen. In the game, a
/// click on the tools button switches the tools frame. Paused, the menu's
/// buttons go to the main menu, switch full screen, go back or exit.
pub open spec fn moused(a: Game, b: Game, m: Mouse, act: GameAction) -> bool {
    let none = ((0usize, 0usize), (0usize, 0usize));
    match a.screen {
        GameScreen::SelectArea => act == GameAction::Nothing && if m.lbutton_pressed {
            let (p1, p2) = a.selection;
            let mouse_pos = (a.world_state.cursor.0 as usize, a.world_state.cursor.1 as usize);
            if p1 == (0usize, 0usize) {
                b == Game { selection: (mouse_pos, p2), ..a }
            } else if p2 == (0usize, 0usize) {
                b == Game { selection: (p1, mouse_pos), ..a }
            } else if a.world_state.commands@.len() > 0 {
                &&& b.world_state.commands@ == a.world_state.commands@.drop_last().push(
                    refined(a.world_state.commands@.last(), a.selection, a.world_state),
                )
                &&& b == Game {
                    world_state: WorldState { commands: b.world_state.commands, ..a.world_state },
                    screen: GameScreen::Game,
                    ..a
                }
            } else {
                b == Game { screen: GameScreen::Game, ..a }
            }
        } else if m.rbutton_pressed {
            b == Game { selection: none, ..a }
        } else {
            b == a
        },
        GameScreen::SelectBuildable => act == GameAction::Nothing && chose_order(
            a,
            b,
            clicked(a, m, a.build_commands),
            seq!["wall"@, "fence"@, "ramp"@],
            seq![Order::BuildWall(none), Order::BuildFence(none), Order::BuildRamp((0, 0))],
        ),
        GameScreen::SelectOtherCommand => act == GameAction::Nothing && chose_order(
            a,
            b,
            clicked(a, m, a.other_commands),
            seq!["gather_plants"@, "fell_trees"@],
            seq![Order::GatherPlants(none), Order::FellTrees(none)],
        ),
        GameScreen::SelectDiggable => act == GameAction::Nothing && chose_order(
            a,
            b,
            clicked(a, m, a.other_commands),
            seq!["mine"@],
            seq![Order::Mine(none)],
        ),
        GameScreen::Menu => match clicked(a, m, a.menu) {
            Some(id) => if id == "new_game"@ {
                b == a && act == GameAction::StartGame(None)
            } else if id == "use_seed"@ {
                b == Game { screen: GameScreen::GetSeed, ..a } && act == GameAction::Nothing
            } else if id == "resume"@ {
                b == Game { screen: GameScreen::Game, ..a } && act == GameAction::Nothing
            } else if id == "exit"@ {
                b == a && act == GameAction::Exit
            } else {
                b == a && act == GameAction::Nothing
            },
            None => b == a && act == GameAction::Nothing,
        },
        GameScreen::SelectCommand => {
            let c = Game { selection: none, ..a };
            &&& act == GameAction::Nothing
            &&& match clicked(a, m, a.command_list) {
                Some(id) => if id == "build"@ {
                    b == Game { partial_command: PartialCommand::Build, screen: GameScreen::SelectBuildable, ..c }
                } else if id == "destroy"@ {
                    b == Game { partial_command: PartialCommand::Destroy, screen: GameScreen::SelectArea, ..c }
                } else if id == "dig"@ {
                    b == Game { partial_command: PartialCommand::Dig, screen: GameScreen::SelectDiggable, ..c }
                } else if id == "move"@ {
                    b == Game { partial_command: PartialCommand::Move, screen: GameScreen::SelectArea, ..c }
                } else if id == "other"@ {
                    b == Game { partial_command: PartialCommand::Other, screen: GameScreen::SelectOtherCommand, ..c }
                } else if id == "cancel"@ {
                    b == Game { partial_command: PartialCommand::Cancel, screen: GameScreen::SelectArea, ..c }
                } else if id == "back"@ {
                    b == Game { screen: GameScreen::Game, ..c }
                } else {
                    b == c
                },
                None => b == c,
            }
        },
        GameScreen::Game => act == GameAction::Nothing && if m.lbutton_pressed && hits(a.show_tools.bbox, a.world_state.cursor) {
            tools_toggled(a, b)
        } else {
            b == a
        },
        GameScreen::Paused => match clicked(a, m, a.menu) {
            Some(id) => if id == "main_menu"@ {
                b == Game { screen: GameScreen::Menu, ..a } && act == GameAction::Nothing
            } else if id == "fullscreen"@ {
                b == a && act == GameAction::ToggleFullscreen
            } else if id == "back"@ {
                b == Game { screen: GameScreen::Game, ..a } && act == GameAction::Nothing
            } else if id == "exit"@ {
                b == a && act == GameAction::Exit
            } else {
                b == a && act == GameAction::Nothing
            },
            None => b == a && act == GameAction::Nothing,
        },
        _ => b == a && act == GameAction::Nothing,
    }
}

/// Whether the string reads `name`.
fn is_named(id: &String, name: &str) -> (r: bool)
    ensures
        r == (id@ == name@),
{
    let n = String::from_str(name);
    *id == n
}

impl Game {
    /// The id of the button of `layout` clicked, if any.
    fn clicked_id(&self, mouse: Mouse, layout: &Layout) -> (r: Option<String>)
        ensures
            text_of(r) == clicked(*self, mouse, *layout),
    {
        if mouse.lbutton_pressed {
            layout.bbox_colliding(self.world_state.cursor)
        } else {
            None
        }
    }

    /// Gives an order: it joins the end of the orders.
    fn order(&mut self, o: Order)
        ensures
            ordered(*old(self), *final(self), o),
    {
        self.world_state.commands.push(o);
    }

    /// Gives the order of the first of `names` that `id` reads, if any.
    fn order_named(&mut self, id: &Option<String>, names: Vec<&str>, orders: Vec<Order>)
        requires
            names@.len() == orders@.len(),
        ensures
            picked(*old(self), *final(self), text_of(*id), names@.map_values(|n: &str| n@), orders@),
    {
        let ghost ns = names@.map_values(|n: &str| n@);
        if let Some(x) = id {
            let mut k: usize = 0;
            let mut found = false;
            while k < names.len() && !found
                invariant
                    k <= names@.len(),
                    names@.len() == orders@.len(),
                    forall|j: int| 0 <= j < k ==> names@[j]@ != x@,
                    found ==> k < names@.len() && names@[k as int]@ == x@,
                decreases names@.len() - k + (if found { 0int } else { 1int }),
            {
                if is_named(x, names[k]) {
                    found = true;
                } else {
                    k += 1;
                }
            }
            if found {
                assert(0 <= k < ns.len() && ns[k as int] == x@ && forall|j: int| 0 <= j < k ==> ns[j] != x@);
                let ghost kk = choose|kk: int| 0 <= kk < ns.len() && ns[kk] == x@ && forall|j: int| 0 <= j < kk ==> ns[j] != x@;
                assert(kk == k) by {
                    if kk < k {
                        assert(ns[kk] != x@);
                    }
                    if k < kk {
                        assert(ns[k as int] != x@);
                    }
                }
                self.order(orders[k]);
            } else {
                assert forall|j: int| 0 <= j < ns.len() implies ns[j] != x@ by {
                    assert(names@[j]@ != x@);
                }
            }
        }
    }

    /// Clears the selection and moves on to selecting an area.
    fn to_area(&mut self)
        ensures
            to_area(*old(self), *final(self)),
    {
        self.selection = ((0, 0), (0, 0));
        self.screen = GameScreen::SelectArea;
    }
}


impl Game {
    /// The last order refined with the selected area; see `refined`.
    fn refine(&self, order: Order) -> (o: Order)
        requires
            self.world_state.map matches Some(w) ==> w.well_formed(),
        ensures
            o == refined(order, self.selection, self.world_state),
    {
        match order {
            Order::Mine(_) => Order::Mine(self.selection),
            Order::BuildWall(_) => Order::BuildWall(self.selection),
            Order::BuildFence(_) => Order::BuildFence(self.selection),
            Order::BuildRamp(..) => Order::BuildRamp(self.selection.0),
            Order::Go(_) => {
                let (x, y) = self.selection.0;
                match &self.world_state.map {
                    Some(ws) => Order::Go((x, y, ws.location_z((x, y)))),
                    None => Order::Go((x, y, 100)),
                }
            },
            Order::CartGoods(_) => Order::CartGoods(self.selection),
            Order::GatherPlants(_) => Order::GatherPlants(self.selection),
            Order::FellTrees(_) => Order::FellTrees(self.selection),
        }
    }

    /// Handles a mouse event; see `moused`.
    pub fn handle_mouse(&mut self, mouse: Mouse) -> (act: GameAction)
        requires
            old(self).world_state.map matches Some(w) ==> w.well_formed(),
        ensures
            moused(*old(self), *final(self), mouse, act),
    {
        let none: Rect2D = ((0, 0), (0, 0));
        match self.screen {
            GameScreen::SelectArea => {
                let (point1, point2) = self.selection;
                if mouse.lbutton_pressed {
                    let p1_unset = point1.0 == 0 && point1.1 == 0;
                    let p2_unset = point2.0 == 0 && point2.1 == 0;
                    let mouse_pos = (self.world_state.cursor.0 as usize, self.world_state.cursor.1 as usize);
                    if p1_unset {
                        self.selection = (mouse_pos, point2);
                    } else if p2_unset {
                        self.selection = (point1, mouse_pos);
                    } else {
                        if self.world_state.commands.len() > 0 {
                            let ghost before = self.world_state.commands@;
                            let order = self.world_state.commands.pop().unwrap();
                            let new = self.refine(order);
                            self.world_state.commands.push(new);
                            assert(self.world_state.commands@ =~= before.drop_last().push(new));
                        }
                        self.screen = GameScreen::Game;
                    }
                } else if mouse.rbutton_pressed {
                    self.selection = none;
                }
                GameAction::Nothing
            },
            GameScreen::SelectBuildable => {
                let id = self.clicked_id(mouse, &self.build_commands);
                let names = vec!["wall", "fence", "ramp"];
                let orders = vec![Order::BuildWall(none), Order::BuildFence(none), Order::BuildRamp((0, 0))];
                assert(names@.map_values(|n: &str| n@) =~= seq!["wall"@, "fence"@, "ramp"@]);
                let ghost a = *self;
                self.order_named(&id, names, orders);
                let ghost c = *self;
                self.to_area();
                assert(orders@ =~= seq![Order::BuildWall(none), Order::BuildFence(none), Order::BuildRamp((0, 0))]);
                assert(picked(a, c, clicked(a, mouse, a.build_commands), seq!["wall"@, "fence"@, "ramp"@], orders@));
                assert(chose_order(a, *self, clicked(a, mouse, a.build_commands), seq!["wall"@, "fence"@, "ramp"@], orders@));
                GameAction::Nothing
            },
            GameScreen::SelectOtherCommand => {
                let id = self.clicked_id(mouse, &self.other_commands);
                let names = vec!["gather_plants", "fell_trees"];
                let orders = vec![Order::GatherPlants(none), Order::FellTrees(none)];
                assert(names@.map_values(|n: &str| n@) =~= seq!["gather_plants"@, "fell_trees"@]);
                let ghost a = *self;
                self.order_named(&id, names, orders);
                let ghost c = *self;
                self.to_area();
                assert(orders@ =~= seq![Order::GatherPlants(none), Order::FellTrees(none)]);
                assert(picked(a, c, clicked(a, mouse, a.other_commands), seq!["gather_plants"@, "fell_trees"@], orders@));
                assert(chose_order(a, *self, clicked(a, mouse, a.other_commands), seq!["gather_plants"@, "fell_trees"@], orders@));
                GameAction::Nothing
            },
            GameScreen::SelectDiggable => {
                let id = self.clicked_id(mouse, &self.other_commands);
                let names = vec!["mine"];
                let orders = vec![Order::Mine(none)];
                assert(names@.map_values(|n: &str| n@) =~= seq!["mine"@]);
                let ghost a = *self;
                self.order_named(&id, names, orders);
                let ghost c = *self;
                self.to_area();
                assert(orders@ =~= seq![Order::Mine(none)]);
                assert(picked(a, c, clicked(a, mouse, a.other_commands), seq!["mine"@], seq![Order::Mine(none)]));
                assert(chose_order(a, *self, clicked(a, mouse, a.other_commands), seq!["mine"@], seq![Order::Mine(none)]));
                GameAction::Nothing
            },
            GameScreen::Menu => {
                match self.clicked_id(mouse, &self.menu) {
                    Some(id) => {
                        if is_named(&id, "new_game") {
                            GameAction::StartGame(None)
                        } else if is_named(&id, "use_seed") {
                            self.screen = GameScreen::GetSeed;
                            GameAction::Nothing
                        } else if is_named(&id, "resume") {
                            self.screen = GameScreen::Game;
                            GameAction::Nothing
                        } else if is_named(&id, "exit") {
                            GameAction::Exit
                        } else {
                            GameAction::Nothing
                        }
                    },
                    None => GameAction::Nothing,
                }
            },
            GameScreen::SelectCommand => {
                self.selection = none;
                match self.clicked_id(mouse, &self.command_list) {
                    Some(id) => {
                        if is_named(&id, "build") {
                            self.partial_command = PartialCommand::Build;
                            self.screen = GameScreen::SelectBuildable;
                        } else if is_named(&id, "destroy") {
                            self.partial_command = PartialCommand::Destroy;
                            self.screen = GameScreen::SelectArea;
                        } else if is_named(&id, "dig") {
                            self.partial_command = PartialCommand::Dig;
                            self.screen = GameScreen::SelectDiggable;
                        } else if is_named(&id, "move") {
                            self.partial_command = PartialCommand::Move;
                            self.screen = GameScreen::SelectArea;
                        } else if is_named(&id, "other") {
                            self.partial_command = PartialCommand::Other;
                            self.screen = GameScreen::SelectOtherCommand;
                        } else if is_named(&id, "cancel") {
                            self.partial_command = PartialCommand::Cancel;
                            self.screen = GameScreen::SelectArea;
                        } else if is_named(&id, "back") {
                            self.screen = GameScreen::Game;
                        }
                    },
                    None => {},
                }
                GameAction::Nothing
            },
            GameScreen::Game => {
                if mouse.lbutton_pressed {
                    if self.show_tools.bbox_colliding(self.world_state.cursor).is_some() {
                        self.toggle_tools();
                    }
                }
                GameAction::Nothing
            },
            GameScreen::Paused => {
                match self.clicked_id(mouse, &self.menu) {
                    Some(id) => {
                        if is_named(&id, "main_menu") {
                            self.screen = GameScreen::Menu;
                            GameAction::Nothing
                        } else if is_named(&id, "fullscreen") {
                            GameAction::ToggleFullscreen
                        } else if is_named(&id, "back") {
                            self.screen = GameScreen::Game;
                            GameAction::Nothing
                        } else if is_named(&id, "exit") {
                            GameAction::Exit
                        } else {
                            GameAction::Nothing
                        }
                    },
                    None => GameAction::Nothing,
                }
            },
            _ => GameAction::Nothing,
        }
    }
}


/// What a frame shows: first `pre`, then the map when there is one, then
/// `post`.
pub struct GameFrame {
    pub pre: Vec<ScreenCmd>,
    pub map: Option<MapView>,
    pub post: Vec<ScreenCmd>,
}

/// The title card of the main menu, line by line.
pub open spec fn title_lines() -> Seq<Seq<char>> {
    seq![
        " _      ____  ____ _____ _____ ____    ____  _____"@,
        "/ \\__/|/  _ \\/ ___Y__ __Y  __//  __\\  /  _ \\/    /"@,
        "| |\\/||| / \\||    \\ / \\ |  \\  |  \\/|  | / \\||  __\\"@,
        "| |  ||| |-||\\___ | | | |  /_ |    /  | \\_/|| |"@,
        "\\_/  \\|\\_/ \\|\\____/ \\_/ \\____\\\\_/\\_\\  \\____/\\_/"@,
        ""@,
        " ____  _____ ____ _____ _  _     ___  _"@,
        "/  _ \\/  __// ___Y__ __Y \\/ \\  /|\\  \\//"@,
        "| | \\||  \\  |    \\ / \\ | || |\\ || \\  /"@,
        "| |_/||  /_ \\___ | | | | || | \\|| / /"@,
        "\\____/\\____\\\\____/ \\_/ \\_/\\_/  \\|/_/"@,
    ]
}

/// The title card of the main menu, line by line.
fn title_card() -> (v: Vec<&'static str>)
    ensures
        v@.map_values(|l: &str| l@) == title_lines(),
{
    let v = vec![
        " _      ____  ____ _____ _____ ____    ____  _____",
        "/ \\__/|/  _ \\/ ___Y__ __Y  __//  __\\  /  _ \\/    /",
        "| |\\/||| / \\||    \\ / \\ |  \\  |  \\/|  | / \\||  __\\",
        "| |  ||| |-||\\___ | | | |  /_ |    /  | \\_/|| |",
        "\\_/  \\|\\_/ \\|\\____/ \\_/ \\____\\\\_/\\_\\  \\____/\\_/",
        "",
        " ____  _____ ____ _____ _  _     ___  _",
        "/  _ \\/  __// ___Y__ __Y \\/ \\  /|\\  \\//",
        "| | \\||  \\  |    \\ / \\ | || |\\ || \\  /",
        "| |_/||  /_ \\___ | | | | || | \\|| / /",
        "\\____/\\____\\\\____/ \\_/ \\_/\\_/  \\|/_/",
    ];
    assert(v@.map_values(|l: &str| l@) =~= title_lines());
    v
}

/// A line of text printed at `(x, y)`.
pub open spec fn printed(c: ScreenCmd, x: i32, y: i32, flag: Background, align: Align, t: Seq<char>) -> bool {
    c matches ScreenCmd::PrintEx { x: cx, y: cy, flag: cf, align: ca, text } && cx == x && cy == y && cf == flag
        && ca == align && text@ == t
}

/// The cells of rows `y1` up to `y1 + m` between columns `x1` and `x2`,
/// greyed, row by row.
pub open spec fn greyed(x1: int, x2: int, y1: int, m: int) -> Seq<ScreenCmd>
    decreases m,
{
    if m <= 0 {
        Seq::empty()
    } else {
        greyed(x1, x2, y1, m - 1) + Seq::new(
            (if x2 > x1 { x2 - x1 } else { 0 }) as nat,
            |k: int| ScreenCmd::SetCharForeground { x: (x1 + k) as i32, y: (y1 + m - 1) as i32, fg: rgb(100, 100, 100) },
        )
    }
}

/// The selected area greyed, from its first corner up to, not including,
/// its second.
pub open spec fn selection_greyed(sel: Rect2D) -> Seq<ScreenCmd> {
    let ((x1, y1), (x2, y2)) = sel;
    greyed(x1 as int, x2 as int, y1 as int, if y2 > y1 { y2 - y1 } else { 0 })
}

/// The glyphs of the font shown while loading: the first 304 code points,
/// row after row of the screen's width, from the fourth row.
pub open spec fn font_sheet(w: i32) -> Seq<ScreenCmd> {
    Seq::new(304, |c: int| ScreenCmd::PutChar { x: (c % (w as int)) as i32, y: (c / (w as int) + 3) as i32, chr: c as u32, flag: Background::Replace })
}

/// What a frame asks: the screen's size is positive, and on the screens
/// that show the map, the map can be drawn.
pub open spec fn frame_ready(g: Game, wid: usize, hig: usize) -> bool {
    &&& 0 < g.constants.screen_size.0
    &&& 0 < g.constants.screen_size.1
    &&& g.screen == GameScreen::SelectArea ==> drawable_view(&g.world_state, false, g.last_time, wid, hig)
    &&& g.screen == GameScreen::Game ==> drawable_view(&g.world_state, g.show_hud, g.last_time, wid, hig)
}

/// `f` is the frame shown of `a` on a screen of `wid` by `hig` cells, and
/// `b` is `a` after it. Choosing an area shows the map without the tools
/// frame and the selection greyed; the menus show their buttons, the menu
/// its title card first; loading shows the font; paused shows the pause
/// menu; in the game, the map is shown with the tools frame when it is on,
/// and the tools button, and the clock is read: the game then moves on to
/// the reading as `clock_advanced` says, or, when the clock cannot be read,
/// stays as it was.
pub open spec fn framed(a: Game, b: Game, f: GameFrame, wid: usize, hig: usize) -> bool {
    let cursor = a.world_state.cursor;
    let half = a.constants.screen_size.0 / 2;
    match a.screen {
        GameScreen::SelectArea => {
            &&& b == a
            &&& f.pre@ == seq![ScreenCmd::Clear]
            &&& f.map matches Some(v) && view_ok(v, &a.world_state, false, a.last_time, wid, hig)
            &&& f.post@ == selection_greyed(a.selection)
        },
        GameScreen::SelectDiggable => b == a && f.map is None && f.post@.len() == 0 && f.pre@ == seq![ScreenCmd::Clear]
            + layout_look(a.dig_commands.buttons@, cursor, a.dig_commands.buttons@.len() as int),
        GameScreen::SelectBuildable => b == a && f.map is None && f.post@.len() == 0 && f.pre@ == seq![ScreenCmd::Clear]
            + layout_look(a.build_commands.buttons@, cursor, a.build_commands.buttons@.len() as int),
        GameScreen::SelectOtherCommand => b == a && f.map is None && f.post@.len() == 0 && f.pre@ == seq![ScreenCmd::Clear]
            + layout_look(a.other_commands.buttons@, cursor, a.other_commands.buttons@.len() as int),
        GameScreen::SelectCommand => b == a && f.map is None && f.post@.len() == 0 && f.pre@ == seq![ScreenCmd::Clear]
            + layout_look(a.command_list.buttons@, cursor, a.command_list.buttons@.len() as int),
        GameScreen::GetSeed => {
            &&& b == a && f.map is None && f.post@.len() == 0
            &&& f.pre@.len() == 2 && f.pre@[0] == ScreenCmd::Clear
            &&& printed(f.pre@[1], a.textbox.pos.0, a.textbox.pos.1, Background::Replace, Align::Center, a.textbox.label@)
        },
        GameScreen::Loading => {
            &&& b == a && f.map is None && f.post@.len() == 0
            &&& f.pre@.len() == 2 + 304 && f.pre@[0] == ScreenCmd::Clear
            &&& printed(f.pre@[1], half as i32, 2, Background::Replace, Align::Center, "Loading..."@)
            &&& f.pre@.subrange(2, 306) == font_sheet(a.constants.screen_size.0)
        },
        GameScreen::Menu => {
            let look = layout_look(a.menu.buttons@, cursor, a.menu.buttons@.len() as int);
            &&& b == a && f.map is None && f.post@.len() == 0
            &&& f.pre@.len() == 12 + look.len() && f.pre@[0] == ScreenCmd::Clear
            &&& forall|i: int| 0 <= i < 11 ==> printed(#[trigger] f.pre@[1 + i], 1, (i + 2) as i32, Background::Keep, Align::Left, title_lines()[i])
            &&& f.pre@.subrange(12, f.pre@.len() as int) == look
        },
        GameScreen::Game => {
            &&& f.pre@.len() == 0
            &&& f.map matches Some(v) && view_ok(v, &a.world_state, a.show_hud, a.last_time, wid, hig)
            &&& f.post@ == button_look(a.show_tools, cursor, a.show_tools.text)
            &&& clock_advanced(a, b, b.last_time) || b == a
        },
        GameScreen::Paused => {
            let look = layout_look(a.pause_menu.buttons@, cursor, a.pause_menu.buttons@.len() as int);
            &&& b == a && f.map is None && f.post@.len() == 0
            &&& f.pre@.len() == 2 + look.len() && f.pre@[0] == ScreenCmd::Clear
            &&& printed(f.pre@[1], half as i32, 2, Background::Replace, Align::Center, "Paused"@)
            &&& f.pre@.subrange(2, f.pre@.len() as int) == look
        },
    }
}

/// Appends `more` to `out`.
fn append_all(out: &mut Vec<ScreenCmd>, more: Vec<ScreenCmd>)
    ensures
        final(out)@ == old(out)@ + more@,
{
    let mut more = more;
    out.append(&mut more);
}

impl Game {
    /// Reads the clock at `now`; see `clock_advanced`.
    pub fn advance_clock(&mut self, now: usize)
        ensures
            clock_advanced(*old(self), *final(self), now),
    {
        if now >= self.last_time {
            let dt = now - self.last_time;
            let (hours, mins) = self.world_state.time.clock.time;
            let fits = mins <= usize::MAX - dt;
            let hour_ok = !fits || mins + dt < 60 || hours < usize::MAX;
            let day_ok = !fits || !(mins + dt < 60 && hours == 0) || self.world_state.time.days < usize::MAX;
            if fits && hour_ok && day_ok {
                self.world_state.update(now, dt);
            }
        }
        self.last_time = now;
    }

    /// Whether a frame can be drawn on a screen of `wid` by `hig` cells; the
    /// test of `frame_ready` before `draw`.
    pub fn can_draw(&self, wid: usize, hig: usize) -> (r: bool)
        ensures
            r == frame_ready(*self, wid, hig),
    {
        if self.constants.screen_size.0 <= 0 || self.constants.screen_size.1 <= 0 {
            return false;
        }
        match self.screen {
            GameScreen::SelectArea => map_drawable(&self.world_state, false, self.last_time, wid, hig),
            GameScreen::Game => map_drawable(&self.world_state, self.show_hud, self.last_time, wid, hig),
            _ => true,
        }
    }

    /// Draws a frame on a screen of `wid` by `hig` cells; in the game, the
    /// clock is then read and the game moves on to it with `advance_clock`;
    /// see `framed`.
    pub fn draw(&mut self, wid: usize, hig: usize) -> (f: GameFrame)
        requires
            frame_ready(*old(self), wid, hig),
        ensures
            framed(*old(self), *final(self), f, wid, hig),
    {
        let cursor = self.world_state.cursor;
        let half = self.constants.screen_size.0 / 2;
        match self.screen {
            GameScreen::SelectArea => {
                let map = draw_map(&self.world_state, false, self.last_time, wid, hig);
                let ((sx1, sy1), (sx2, sy2)) = self.selection;
                let mut post: Vec<ScreenCmd> = Vec::new();
                let mut y = sy1;
                while y < sy2
                    invariant
                        sy1 <= y <= sy2 || sy2 <= sy1 == y,
                        post@ == greyed(sx1 as int, sx2 as int, sy1 as int, y - sy1),
                    decreases sy2 - y,
                {
                    let ghost row_start = post@;
                    let mut x = sx1;
                    while x < sx2
                        invariant
                            y < sy2,
                            sx1 <= x <= sx2 || sx2 <= sx1 == x,
                            post@ == row_start + Seq::new(
                                (x - sx1) as nat,
                                |k: int| ScreenCmd::SetCharForeground { x: (sx1 + k) as i32, y: y as i32, fg: rgb(100, 100, 100) },
                            ),
                        decreases sx2 - x,
                    {
                        post.push(ScreenCmd::SetCharForeground { x: x as i32, y: y as i32, fg: Color { r: 100, g: 100, b: 100 } });
                        x += 1;
                        assert(post@ =~= row_start + Seq::new(
                            (x - sx1) as nat,
                            |k: int| ScreenCmd::SetCharForeground { x: (sx1 + k) as i32, y: y as i32, fg: rgb(100, 100, 100) },
                        ));
                    }
                    y += 1;
                    assert(post@ =~= greyed(sx1 as int, sx2 as int, sy1 as int, y - sy1));
                }
                assert(post@ == selection_greyed(self.selection));
                let pre = vec![ScreenCmd::Clear];
                assert(pre@ =~= seq![ScreenCmd::Clear]);
                GameFrame { pre, map: Some(map), post }
            },
            GameScreen::SelectDiggable => {
                let mut pre = vec![ScreenCmd::Clear];
                assert(pre@ =~= seq![ScreenCmd::Clear]);
                append_all(&mut pre, self.dig_commands.draw(cursor));
                assert(pre@ =~= seq![ScreenCmd::Clear] + layout_look(self.dig_commands.buttons@, cursor, self.dig_commands.buttons@.len() as int));
                GameFrame { pre, map: None, post: Vec::new() }
            },
            GameScreen::SelectBuildable => {
                let mut pre = vec![ScreenCmd::Clear];
                assert(pre@ =~= seq![ScreenCmd::Clear]);
                append_all(&mut pre, self.build_commands.draw(cursor));
                assert(pre@ =~= seq![ScreenCmd::Clear] + layout_look(self.build_commands.buttons@, cursor, self.build_commands.buttons@.len() as int));
                GameFrame { pre, map: None, post: Vec::new() }
            },
            GameScreen::SelectOtherCommand => {
                let mut pre = vec![ScreenCmd::Clear];
                assert(pre@ =~= seq![ScreenCmd::Clear]);
                append_all(&mut pre, self.other_commands.draw(cursor));
                assert(pre@ =~= seq![ScreenCmd::Clear] + layout_look(self.other_commands.buttons@, cursor, self.other_commands.buttons@.len() as int));
                GameFrame { pre, map: None, post: Vec::new() }
            },
            GameScreen::SelectCommand => {
                let mut pre = vec![ScreenCmd::Clear];
                assert(pre@ =~= seq![ScreenCmd::Clear]);
                append_all(&mut pre, self.command_list.draw(cursor));
                assert(pre@ =~= seq![ScreenCmd::Clear] + layout_look(self.command_list.buttons@, cursor, self.command_list.buttons@.len() as int));
                GameFrame { pre, map: None, post: Vec::new() }
            },
            GameScreen::GetSeed => {
                let mut pre = vec![ScreenCmd::Clear];
                append_all(&mut pre, self.textbox.draw(cursor));
                GameFrame { pre, map: None, post: Vec::new() }
            },
            GameScreen::Loading => {
                let w = self.constants.screen_size.0;
                let mut pre = vec![
                    ScreenCmd::Clear,
                    ScreenCmd::PrintEx { x: half, y: 2, flag: Background::Replace, align: Align::Center, text: text("Loading...") },
                ];
                let mut c: i32 = 0;
                while c < 16 * 19
                    invariant
                        0 <= c <= 304,
                        0 < w,
                        pre@.len() == 2 + c,
                        pre@[0] == ScreenCmd::Clear,
                        printed(pre@[1], half as i32, 2, Background::Replace, Align::Center, "Loading..."@),
                        pre@.subrange(2, 2 + c) == font_sheet(w).take(c as int),
                    decreases 304 - c,
                {
                    assert(0 <= c / w <= c) by (nonlinear_arith)
                        requires 0 <= c, 0 < w;
                    pre.push(ScreenCmd::PutChar { x: c % w, y: c / w + 3, chr: c as u32, flag: Background::Replace });
                    assert(pre@.subrange(2, 2 + c + 1) =~= font_sheet(w).take(c + 1));
                    c += 1;
                }
                assert(font_sheet(w).take(304) =~= font_sheet(w));
                GameFrame { pre, map: None, post: Vec::new() }
            },
            GameScreen::Menu => {
                let mut pre = vec![ScreenCmd::Clear];
                let card = title_card();
                assert(card@.len() == card@.map_values(|l: &str| l@).len());
                let mut i: usize = 0;
                while i < card.len()
                    invariant
                        card@.map_values(|l: &str| l@) == title_lines(),
                        card@.len() == 11,
                        i <= card@.len(),
                        pre@.len() == 1 + i,
                        pre@[0] == ScreenCmd::Clear,
                        forall|k: int| 0 <= k < i ==> printed(#[trigger] pre@[1 + k], 1, (k + 2) as i32, Background::Keep, Align::Left, title_lines()[k]),
                    decreases card@.len() - i,
                {
                    assert(card@.map_values(|l: &str| l@)[i as int] == card@[i as int]@);
                    let ghost before = pre@;
                    pre.push(ScreenCmd::PrintEx { x: 1, y: i as i32 + 2, flag: Background::Keep, align: Align::Left, text: text(card[i]) });
                    assert forall|k: int| 0 <= k < i + 1 implies printed(#[trigger] pre@[1 + k], 1, (k + 2) as i32, Background::Keep, Align::Left, title_lines()[k]) by {
                        if k < i {
                            assert(pre@[1 + k] == before[1 + k]);
                        }
                    }
                    i += 1;
                }
                let ghost head = pre@;
                assert(card@.len() == title_lines().len());
                assert(head.len() == 12);
                append_all(&mut pre, self.menu.draw(cursor));
                assert(pre@.subrange(12, pre@.len() as int) =~= layout_look(self.menu.buttons@, cursor, self.menu.buttons@.len() as int));
                assert forall|k: int| 0 <= k < 11 implies printed(#[trigger] pre@[1 + k], 1, (k + 2) as i32, Background::Keep, Align::Left, title_lines()[k]) by {
                    assert(pre@[1 + k] == head[1 + k]);
                    assert(printed(head[1 + k], 1, (k + 2) as i32, Background::Keep, Align::Left, title_lines()[k]));
                }
                GameFrame { pre, map: None, post: Vec::new() }
            },
            GameScreen::Game => {
                let map = draw_map(&self.world_state, self.show_hud, self.last_time, wid, hig);
                if let Some(now) = get_world_time() {
                    self.advance_clock(now);
                }
                let post = self.show_tools.draw(cursor);
                GameFrame { pre: Vec::new(), map: Some(map), post }
            },
            GameScreen::Paused => {
                let mut pre = vec![
                    ScreenCmd::Clear,
                    ScreenCmd::PrintEx { x: half, y: 2, flag: Background::Replace, align: Align::Center, text: text("Paused") },
                ];
                append_all(&mut pre, self.pause_menu.draw(cursor));
                assert(pre@.subrange(2, pre@.len() as int) =~= layout_look(self.pause_menu.buttons@, cursor, self.pause_menu.buttons@.len() as int));
                GameFrame { pre, map: None, post: Vec::new() }
            },
        }
    }
}

} // verus!
