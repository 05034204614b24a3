use skyspace::physics::liquid::liquid_physics;
use skyspace::physics::unsupported;
use skyspace::utils::{can_measure_perimeter, clamp, find_path, nearest_perimeter_point, strict_adjacent, weak_adjacent, within_distance, within_distance3_d};
use skyspace::worldgen::state::WorldState;
use skyspace::worldgen::terrain::{Biome, BiomeType, IgneousRocks, LiquidPurity, RestrictedTile, SoilTypes, State, StoneTypes, Tile, VegType};
use skyspace::worldgen::{restricted_from_tile, FrameAssoc, Frames, TerrainSamples, Unit, World};
use skyspace::life::animal::{Animal, Carnivore, Herbivore, Species};
use skyspace::time::Time;

fn biome(t: BiomeType, night: i64, day: i64) -> Biome {
    Biome { biome_type: t, temperature_night_f: night, temperature_day_f: day, percipitation_chance: 30 }
}

fn rock() -> Tile {
    Tile::Stone(StoneTypes::Igneous(IgneousRocks::Basalt), State::Solid)
}

fn world_of(columns: Vec<Vec<Vec<Tile>>>) -> World {
    let h = columns.len();
    let w = columns[0].len();
    World {
        map_size: (w, h),
        frames: Frames { water: FrameAssoc { current: 0, all: vec![16, 32] } },
        map: columns
            .into_iter()
            .map(|row| row.into_iter().map(|tiles| Unit { biome: Some(biome(BiomeType::Pasture, 50, 70)), tiles }).collect())
            .collect(),
        life: vec![],
    }
}

#[test]
fn neighbours_stop_at_zero() {
    assert_eq!(strict_adjacent((0, 0)), vec![(1, 0), (0, 1)]);
    assert_eq!(strict_adjacent((0, 5)), vec![(1, 5), (0, 4), (0, 6)]);
    assert_eq!(weak_adjacent((0, 0)), vec![(1, 0), (0, 1), (0, 0)]);
    assert_eq!(strict_adjacent((3, 5)), vec![(4, 5), (2, 5), (3, 4), (3, 6)]);
    assert_eq!(weak_adjacent((3, 5)), vec![(4, 5), (2, 5), (3, 4), (3, 6), (3, 5)]);
}

#[test]
fn clamp_keeps_values_between_bounds() {
    assert_eq!(clamp(5, 3, 0), 3);
    assert_eq!(clamp(-1i32, 10, 0), 0);
    assert_eq!(clamp(4usize, 10, 0), 4);
}

#[test]
fn nearest_border_point() {
    // the point is clamped with the first corner as the upper bound; the
    // distances to the sides are measured only where that clamped point
    // lies at or past both corners
    assert!(!can_measure_perimeter(((0, 0), (10, 10), 0), (3, 5, 2)));
    assert!(!can_measure_perimeter(((10, 10), (0, 0), 0), (3, 5, 2)));
    assert!(can_measure_perimeter(((10, 10), (0, 0), 0), (15, 12, 2)));
    assert_eq!(nearest_perimeter_point(((10, 10), (0, 0), 0), (15, 12, 2)), (10, 10, 2));
    assert_eq!(nearest_perimeter_point(((5, 8), (5, 3), 0), (1, 9, 4)), (5, 8, 4));
}

#[test]
fn distances_in_whole_numbers() {
    assert!(within_distance((0, 0), (3, 4), 5));
    assert!(!within_distance((0, 0), (3, 5), 5));
    // cube root of 27 is 3
    assert!(within_distance3_d((0, 0, 0), (3, 3, 3), 3));
    assert!(!within_distance3_d((0, 0, 0), (3, 3, 4), 3));
}

#[test]
fn falling_tiles() {
    let empty = Tile::Empty;
    assert!(unsupported(rock(), vec![empty, rock()], empty, empty));
    assert!(!unsupported(rock(), vec![rock(), rock()], empty, empty));
    assert!(!unsupported(rock(), vec![], empty, rock()));
}

#[test]
fn restricted_tiles() {
    assert_eq!(
        restricted_from_tile(Tile::Vegetation(VegType::Pine, 3, State::Solid)),
        Some(RestrictedTile::Vegetation(VegType::Pine, 3, State::Solid))
    );
    assert_eq!(restricted_from_tile(Tile::Empty), None);
}

#[test]
fn biome_letters() {
    assert_eq!(BiomeType::Water.stringified(), "w");
    assert_eq!(BiomeType::Pasture.stringified(), "p");
}

#[test]
fn levels_of_a_column() {
    let w = world_of(vec![vec![vec![rock(), rock(), Tile::Empty, rock(), Tile::Empty], vec![rock()]]]);
    assert_eq!(w.location_z((0, 0)), 2);
    assert_eq!(w.location_z((1, 0)), 1);
    assert_eq!(w.location_z((5, 5)), 10000000);
    // the empty level closest to level 4 is 4 itself; to level 3, the lower one
    assert_eq!(w.location_z_from_to(4, (0, 0)), 4);
    assert_eq!(w.location_z_from_to(3, (0, 0)), 2);
    assert_eq!(w.location_z_from_to(3, (1, 0)), 1);
    assert!(w.located_inside((1, 0)));
    assert!(!w.located_inside((2, 0)));
    assert_eq!(w.get((1, 0)).unwrap().tiles.len(), 1);
    assert!(w.get((0, 1)).is_none());
}

#[test]
fn paths_go_around_walls() {
    let open = || vec![rock(), Tile::Empty, Tile::Empty];
    let wall = || vec![rock(), rock(), rock(), rock()];
    let w = world_of(vec![
        vec![open(), wall(), open()],
        vec![open(), open(), open()],
    ]);
    let cow = Species::Herbivore(Herbivore::Cow).properties();
    let may = |s: skyspace::life::animal::SpeciesProperties| {
        let w = &w;
        move |p: (usize, usize, usize)| w.get((p.0, p.1)).map_or(false, |u| u.biome.map_or(false, |b| s.can_go(b)))
    };
    let path = find_path(&w, (0, 0, 1), (2, 0, 1), may(cow)).unwrap();
    assert_eq!(path[0], (0, 0, 1));
    assert_eq!(path[1], (0, 0, 1));
    assert_eq!(*path.last().unwrap(), (2, 0, 1));
    assert!(!path.contains(&(1, 0, 1)));
    let fish = Species::Herbivore(Herbivore::Fish).properties();
    assert!(find_path(&w, (0, 0, 1), (2, 0, 1), may(fish)).is_none());
    // any predicate will do: refusing the middle row leaves no way round
    assert!(find_path(&w, (0, 0, 1), (2, 0, 1), |p: (usize, usize, usize)| p.1 == 0).is_none());
    assert!(find_path(&w, (0, 0, 1), (0, 1, 1), |_p: (usize, usize, usize)| true).is_some());
}

#[test]
fn life_by_biome() {
    assert!(World::create_life_by_biome((0, 0, 0), biome(BiomeType::Desert, 40, 90)).is_none());
    let whale = World::create_life_by_biome((0, 0, 0), biome(BiomeType::Water, 40, 60)).unwrap();
    assert_eq!(whale.species.species, Species::Herbivore(Herbivore::Whale));
    let shark = World::create_life_by_biome((0, 0, 0), biome(BiomeType::Water, 60, 90)).unwrap();
    assert_eq!(shark.species.species, Species::Carnivore(Carnivore::Shark));
    let fish = World::create_life_by_biome((0, 0, 0), biome(BiomeType::Water, 60, 70)).unwrap();
    assert_eq!(fish.species.species, Species::Herbivore(Herbivore::Fish));
}

#[test]
fn liquid_settles_to_height_mod_23() {
    let unit = Unit { biome: None, tiles: vec![Tile::Water(LiquidPurity::Clean, State::Liquid, 0); 25] };
    let out = liquid_physics((0, 0), vec![unit]).unwrap();
    assert_eq!(out[0].tiles.len(), 2);
}

#[test]
fn a_generated_world() {
    let size = (3, 2);
    let samples = TerrainSamples {
        heights: vec![vec![20, 3, 30]; 2],
        veins: vec![vec![vec![true; 40]; 3]; 2],
        biome_noise: vec![vec![10, -50, 80]; 2],
        veg_noise: vec![vec![1, 2, 3]; 2],
    };
    let mut w = World::new(size, 7, &samples);
    assert_eq!(w.map_size, size);
    assert_eq!(w.map.len(), 2);
    assert!(w.map.iter().all(|row| row.len() == 3 && row.iter().all(|u| u.biome.is_some())));
    assert_eq!(w.frames.water.all, vec![16, 32, 33, 34, 35, 36]);
    w.generate_life();
    assert!(w.life.len() <= 34);
    for a in w.life.iter() {
        assert!(w.located_inside((a.pos.0, a.pos.1)));
        assert_eq!(a.pos.2, w.location_z((a.pos.0, a.pos.1)));
    }
}

#[test]
fn world_state_defaults_and_time() {
    let mut ws = WorldState::new();
    assert_eq!(ws.level, 31);
    assert!(ws.map.is_none());
    assert_eq!(ws.time.days, 36512);
    assert_eq!(ws.time.clock.time, (12, 30));
    ws.update(0, 30);
    assert_eq!(ws.time.clock.time, (13, 0));
    assert_eq!(ws.time.time_of_day, Time::Night1);
    ws.time.clock.time = (0, 10);
    ws.update(0, 5);
    assert_eq!(ws.time.time_of_day, Time::Midnight);
    assert_eq!(ws.time.clock.time, (0, 0));
    assert_eq!(ws.time.days, 36513);
    assert_eq!(ws.time.calendar.dmy, (36513 % 30, 36513 / 30, 36513 / 356));
}

#[test]
fn adding_a_map_notes_its_highest_column() {
    let mut ws = WorldState::new();
    let w = world_of(vec![vec![vec![rock(), Tile::Empty], vec![rock(); 5]]]);
    ws.add_map(w);
    assert_eq!(ws.highest_level, 5);
    assert!(ws.map.unwrap().life.len() <= 34);
}

#[test]
fn life_updates_eat_and_kill() {
    let mut ws = WorldState::new();
    let mut w = world_of(vec![vec![vec![rock(), Tile::Empty, Tile::Empty]; 3]; 3]);
    let mut a = Animal::new((1, 1, 1), Species::Herbivore(Herbivore::Cow));
    a.thirst = 3000;
    w.life.push(a);
    ws.map = Some(w);
    ws.update_life();
    // a dying animal asks to die, which this update does not act on
    assert_eq!(ws.map.as_ref().unwrap().life.len(), 1);
}

fn rock_column(h: usize) -> Unit {
    Unit { biome: None, tiles: vec![rock(); h] }
}

#[test]
fn water_rises_inland() {
    let mut map: Vec<Vec<Unit>> = (0..3).map(|_| (0..3).map(|_| rock_column(20)).collect()).collect();
    map[1][1] = rock_column(16);
    let out = World::water_from_low(map);
    assert_eq!(out[1][1].tiles.len(), 16);
    assert!(matches!(out[1][1].tiles[0], Tile::Water(_, State::Liquid, 16)));
    assert!(matches!(out[0][0].tiles[0], Tile::Stone(..)));

    let mut map: Vec<Vec<Unit>> = (0..3).map(|_| (0..3).map(|_| rock_column(20)).collect()).collect();
    map[1][1] = rock_column(16);
    map[1][0] = rock_column(10);
    let out = World::water_from_low(map);
    assert!(matches!(out[1][1].tiles[0], Tile::Stone(..)));
    assert!(matches!(out[1][0].tiles[0], Tile::Water(_, State::Liquid, 10)));
}

#[test]
fn soil_by_neighbours_and_roll() {
    let sand = Tile::Stone(StoneTypes::Soil(SoilTypes::Sandy), State::Solid);
    let water = Tile::Water(LiquidPurity::Clean, State::Liquid, 1);
    let plant = Tile::Vegetation(VegType::Bluegrass, 1, State::Solid);
    assert!(World::soil_from_roll(&vec![water, sand], 99) == SoilTypes::Sandy);
    assert!(World::soil_from_roll(&vec![sand, plant], 55) == SoilTypes::Sandy);
    assert!(World::soil_from_roll(&vec![sand, plant], 56) == SoilTypes::Loamy);
    assert!(World::soil_from_roll(&vec![sand], 80) == SoilTypes::Silty);
    assert!(World::soil_from_roll(&vec![Tile::Empty], 0) == SoilTypes::Silty);
}
