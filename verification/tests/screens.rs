use skyspace::draw::{Background, Color, Describe, DrawCmd, ScreenCmd};
use skyspace::game::{parse_seed, Game, GameAction, GameScreen, Key, KeyCode, Mouse};
use skyspace::text::{to_decimal, to_signed_decimal};
use skyspace::time::{Calendar, Clock, Season, Time, Weather};
use skyspace::ui::{calculate_bbox, Button, DrawUI, Layout, MouseUI};
use skyspace::view::{draw_hud, draw_life, draw_map, map_drawable};
use skyspace::worldgen::state::WorldState;
use skyspace::worldgen::terrain::{Biome, BiomeType, IgneousRocks, State, StoneTypes, Tile};
use skyspace::worldgen::{FrameAssoc, Frames, Unit, World};
use skyspace::life::animal::{Animal, Herbivore, Species};

fn key(code: KeyCode, printable: char) -> Key {
    Key { code, printable }
}

fn click() -> Mouse {
    Mouse { lbutton_pressed: true, rbutton_pressed: false }
}

fn small_world() -> World {
    let biome = Biome { biome_type: BiomeType::Pasture, temperature_night_f: 50, temperature_day_f: 70, percipitation_chance: 30 };
    let rock = Tile::Stone(StoneTypes::Igneous(IgneousRocks::Basalt), State::Solid);
    World {
        map_size: (2, 2),
        frames: Frames { water: FrameAssoc { current: 0, all: vec![16, 32] } },
        map: vec![
            vec![Unit { biome: Some(biome), tiles: vec![rock, Tile::Empty] }, Unit { biome: Some(biome), tiles: vec![rock] }],
            vec![Unit { biome: Some(biome), tiles: vec![] }, Unit { biome: Some(biome), tiles: vec![rock, rock, Tile::Empty] }],
        ],
        life: vec![],
    }
}

#[test]
fn clock_hours() {
    assert_eq!(Time::from_clock_time(&Clock { time: (0, 0) }), Time::Midnight);
    assert_eq!(Time::from_clock_time(&Clock { time: (5, 0) }), Time::Night2);
    assert_eq!(Time::from_clock_time(&Clock { time: (10, 0) }), Time::Morning);
    assert_eq!(Time::from_clock_time(&Clock { time: (15, 0) }), Time::Night1);
}

#[test]
fn seasons_by_month() {
    assert_eq!(Season::from_month(1), Season::Winter);
    assert_eq!(Season::from_month(4), Season::Spring);
    assert_eq!(Season::from_month(7), Season::Summer);
    assert_eq!(Season::from_month(10), Season::Autumn);
    assert_eq!(Season::from_month(12), Season::Winter);
}

#[test]
fn the_clock_runs() {
    let mut c = Clock { time: (12, 50) };
    c.update_deltatime(15);
    assert_eq!(c.time, (13, 0));
    let mut c = Clock { time: (12, 30) };
    c.update_deltatime(10);
    assert_eq!(c.time, (12, 40));
    assert_eq!(c.describe(), "12:40");
}

#[test]
fn calendar_by_days() {
    let clock = Clock { time: (12, 30) };
    let mut cal = Calendar::new(12, 6, 100, &clock);
    assert_eq!(cal.dmy, (12, 6, 100));
    assert_eq!(cal.season, Season::Summer);
    assert!(cal.weather == Weather::Sunny || cal.weather == Weather::Raining || cal.weather == Weather::Overcast);
    assert_eq!(cal.describe(), "Summer, 12/6/100");
    cal.update_to_day(400, &clock);
    assert_eq!(cal.dmy, (10, 13, 1));
    assert_eq!(cal.season, Season::Winter);
    assert_eq!(Weather::Snowing.ident(), "Snowing");
}

#[test]
fn decimal_text() {
    assert_eq!(to_decimal(0), "0");
    assert_eq!(to_decimal(40213), "40213");
    assert_eq!(to_signed_decimal(-42), "-42");
    assert_eq!(to_signed_decimal(i32::MIN), "-2147483648");
}

#[test]
fn seeds_read_as_u32() {
    let chars = |s: &str| s.chars().collect::<Vec<char>>();
    assert_eq!(parse_seed(&chars("123")), Some(123));
    assert_eq!(parse_seed(&chars("+7")), Some(7));
    assert_eq!(parse_seed(&chars("4294967295")), Some(4294967295));
    assert_eq!(parse_seed(&chars("4294967296")), None);
    assert_eq!(parse_seed(&chars("")), None);
    assert_eq!(parse_seed(&chars("+")), None);
    assert_eq!(parse_seed(&chars("12a")), None);
    assert_eq!(parse_seed(&chars("-1")), None);
    for s in ["0", "99", "+00012", "999999999999", "1 2"] {
        assert_eq!(parse_seed(&chars(s)), s.parse::<u32>().ok());
    }
}

#[test]
fn buttons() {
    assert_eq!(calculate_bbox((3, 4), (8, 0)), ((3, 4), (11, 4)));
    let b = Button::new("New Game", (10, 15), (8, 0));
    assert_eq!(b.text, "New Game");
    assert_eq!(b.id, "new_game");
    assert_eq!(b.bbox_colliding((12, 15)), Some("new_game".to_string()));
    assert_eq!(b.bbox_colliding((12, 16)), None);
    // a button with height is never hit, the rows being tested the other way round
    let tall = Button::new("Menu", (0, 0), (6, 1));
    assert_eq!(tall.bbox_colliding((1, 0)), None);
    let look = b.draw((12, 15));
    assert_eq!(look[1], ScreenCmd::SetDefaultBackground(Color { r: 255, g: 255, b: 255 }));
}

#[test]
fn layouts_stack_buttons() {
    let l = Layout::new(vec!["Build", "Destroy", "Dig"], (37, 15), (8, 0), 8);
    assert_eq!(l.buttons.len(), 3);
    assert_eq!(l.buttons[1].bbox, ((37, 16), (45, 16)));
    assert_eq!(l.bbox_colliding((40, 17)), Some("dig".to_string()));
    assert_eq!(l.bbox_colliding((40, 30)), None);
    assert_eq!(l.draw((0, 0)).len(), 15);
    // two buttons to a row when the wrap is twice their width
    let wide = Layout::new(vec!["A", "B", "C"], (0, 0), (4, 1), 8);
    assert_eq!(wide.buttons[1].bbox.0, (4, 0));
    assert_eq!(wide.buttons[2].bbox.0, (0, 2));
}

#[test]
fn menus_by_mouse() {
    let mut g = Game::new((75, 50));
    assert_eq!(g.screen, GameScreen::Menu);
    g.world_state.cursor = (37, 16);
    assert_eq!(g.handle_mouse(click()), GameAction::Nothing);
    assert_eq!(g.screen, GameScreen::GetSeed);
    g.screen = GameScreen::Menu;
    g.world_state.cursor = (37, 15);
    assert_eq!(g.handle_mouse(click()), GameAction::StartGame(None));
    g.world_state.cursor = (37, 17);
    assert_eq!(g.handle_mouse(click()), GameAction::Exit);
}

#[test]
fn giving_an_order() {
    let mut g = Game::new((75, 50));
    g.screen = GameScreen::SelectCommand;
    g.world_state.cursor = (37, 15);
    g.handle_mouse(click());
    assert_eq!(g.screen, GameScreen::SelectBuildable);
    g.world_state.cursor = (37, 16);
    g.handle_mouse(click());
    assert_eq!(g.screen, GameScreen::SelectArea);
    assert_eq!(g.world_state.commands.len(), 1);
    g.world_state.cursor = (2, 3);
    g.handle_mouse(click());
    g.world_state.cursor = (5, 7);
    g.handle_mouse(click());
    assert_eq!(g.selection, ((2, 3), (5, 7)));
    g.handle_mouse(click());
    assert_eq!(g.screen, GameScreen::Game);
    assert_eq!(g.world_state.commands[0], skyspace::life::Order::BuildFence(((2, 3), (5, 7))));
}

#[test]
fn keys_in_the_game() {
    let mut g = Game::new((75, 50));
    g.screen = GameScreen::Game;
    g.constants.max_screen_move = (34, 19);
    g.constants.highest_world = 40;
    g.handle_key(key(KeyCode::Right, '\0'));
    assert_eq!(g.world_state.screen, (5, 0));
    g.handle_key(key(KeyCode::Up, '\0'));
    assert_eq!(g.world_state.screen, (5, 0));
    g.handle_key(key(KeyCode::Char, '<'));
    assert_eq!(g.world_state.level, 30);
    g.handle_key(key(KeyCode::Tab, '\0'));
    assert!(!g.show_hud);
    assert_eq!(g.show_tools.text, "Menu \u{1B}");
    g.handle_key(key(KeyCode::Spacebar, ' '));
    assert_eq!(g.screen, GameScreen::Paused);
    g.handle_key(key(KeyCode::Escape, '\0'));
    assert_eq!(g.screen, GameScreen::Menu);
}

#[test]
fn typing_a_seed() {
    let mut g = Game::new((75, 50));
    g.screen = GameScreen::GetSeed;
    g.handle_key(key(KeyCode::Char, '4'));
    g.handle_key(key(KeyCode::Char, '2'));
    assert_eq!(g.handle_key(key(KeyCode::Enter, '\n')), GameAction::StartGame(Some(42)));
}

#[test]
fn the_map_on_screen() {
    let mut ws = WorldState::new();
    ws.level = 1;
    ws.cursor = (0, 0);
    let mut w = small_world();
    w.life.push(Animal::new((1, 0, 0), Species::Herbivore(Herbivore::Cow)));
    ws.map = Some(w);
    let v = draw_map(&ws, true, 0, 2, 2);
    assert_eq!(v.cmds[0], ScreenCmd::Clear);
    // the column under the cursor reaches level 1 and shows empty space;
    // the next column is lower and is dimmed by one level
    assert!(v.cmds.contains(&ScreenCmd::SetCharForeground { x: 1, y: 0, fg: Color { r: 250, g: 250, b: 250 } }));
    assert!(v.cmds.contains(&ScreenCmd::SetCharBackground { x: 0, y: 0, bg: Color { r: 100, g: 100, b: 100 }, flag: Background::Darken }));
    let hud = v.hud.unwrap();
    assert_eq!(hud.lines[0], "Height: 1");
    assert_eq!(hud.lines[5], "Life #: 1");
    assert_eq!(v.life, vec![ScreenCmd::Glyph(DrawCmd::PutChar { x: 1, y: 0, chr: 'c' as u32, flag: Background::Default })]);
}

#[test]
fn the_tools_frame() {
    let mut ws = WorldState::new();
    ws.level = 1;
    ws.cursor = (1, 0);
    let w = small_world();
    let hud = draw_hud(&ws, &w, 30, 20);
    assert_eq!(hud.start, 10);
    assert_eq!(hud.width, 20);
    assert_eq!(hud.height, 20);
    assert_eq!(hud.lines[1], "Screen Position: 0, 0");
    assert_eq!(hud.lines[3], "Clock: 12:30");
    assert_eq!(hud.lines[6], "Rough Igneous basalt");
    assert_eq!(hud.lines[7], "Distance from Level: 1");
    let none = draw_life(&ws, &vec![], 30, 20);
    assert!(none.is_empty());
}

#[test]
fn a_view_off_the_map_cannot_be_drawn() {
    let mut ws = WorldState::new();
    ws.level = 1;
    ws.map = Some(small_world());
    assert!(map_drawable(&ws, true, 0, 2, 2));
    assert!(!map_drawable(&ws, true, 0, 3, 2));
    assert!(!map_drawable(&ws, false, 0, 2, 3));
    ws.screen = (1, 0);
    assert!(!map_drawable(&ws, false, 0, 2, 2));
    assert!(map_drawable(&ws, false, 0, 1, 2));
    ws.map = None;
    assert!(map_drawable(&ws, true, 0, 100, 100));
}

#[test]
fn stone_gas_cannot_be_drawn() {
    let mut ws = WorldState::new();
    ws.level = 1;
    let mut w = small_world();
    w.map[1][1].tiles[1] = Tile::Stone(StoneTypes::Igneous(IgneousRocks::Basalt), State::Gas);
    ws.map = Some(w);
    assert!(!map_drawable(&ws, false, 0, 2, 2));
    assert!(map_drawable(&ws, false, 0, 1, 2));
}

#[test]
fn menus_can_always_be_drawn() {
    let mut g = Game::new((75, 50));
    assert!(g.can_draw(75, 50));
    g.screen = GameScreen::Game;
    assert!(g.can_draw(75, 50));
    g.world_state.map = Some(small_world());
    g.world_state.level = 1;
    assert!(!g.can_draw(75, 50));
    assert!(g.can_draw(2, 2));
}

#[test]
fn pause_then_resume_restores_the_game() {
    let mut g = Game::new((75, 50));
    g.screen = GameScreen::Game;
    g.world_state.level = 3;
    assert_eq!(g.handle_key(key(KeyCode::Spacebar, ' ')), GameAction::Nothing);
    assert_eq!(g.screen, GameScreen::Paused);
    assert_eq!(g.handle_key(key(KeyCode::Spacebar, ' ')), GameAction::Nothing);
    assert_eq!(g.screen, GameScreen::Game);
    assert_eq!(g.world_state.level, 3);
}

#[test]
fn tab_twice_restores_the_tools() {
    let mut g = Game::new((75, 50));
    g.screen = GameScreen::Game;
    let before = g.show_tools.text.clone();
    let shown = g.show_hud;
    g.handle_key(key(KeyCode::Tab, '\t'));
    assert_eq!(g.show_hud, !shown);
    assert_eq!(g.show_tools.text, "Menu \u{1B}");
    g.handle_key(key(KeyCode::Tab, '\t'));
    assert_eq!(g.show_hud, shown);
    assert_eq!(g.show_tools.text, before);
}

#[test]
fn the_clock_moves_the_game_on() {
    let mut g = Game::new((75, 50));
    g.last_time = 1000;
    let before = g.world_state.time.clock.time;
    assert_eq!(before, (12, 30));
    g.advance_clock(1010);
    assert_eq!(g.last_time, 1010);
    assert_eq!(g.world_state.time.clock.time, (12, 40));
    // a clock that went back is noted, and the world's time stays
    g.advance_clock(900);
    assert_eq!(g.last_time, 900);
    assert_eq!(g.world_state.time.clock.time, (12, 40));
}

#[test]
fn a_game_starts_at_the_given_time() {
    let mut g = Game::new((75, 50));
    let n = g.menu.buttons.len();
    let s = g.init_game_at(None, 0x1_0000_0005);
    assert_eq!(s, 5);
    assert_eq!(g.last_time, 0x1_0000_0005);
    assert_eq!(g.menu.buttons.len(), n + 1);
    assert_eq!(g.menu.buttons[0].text, "Resume");
    assert_eq!(g.init_game_at(Some(42), 7), 42);
}
