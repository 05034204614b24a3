use skyspace::life::animal::{Animal, Carnivore, Herbivore, Species};
use skyspace::life::behaviour::positions_of;
use skyspace::life::manager::{handle_life, AnimalHandlerEvent, LifeManager};
use skyspace::life::{Mission, MissionResult, Mood};
use skyspace::worldgen::terrain::{Biome, BiomeType, Food, IgneousRocks, Item, State, StoneTypes, Tile, VegType};
use skyspace::worldgen::{FrameAssoc, Frames, Unit, World};

fn pasture() -> Biome {
    Biome {
        biome_type: BiomeType::Pasture,
        temperature_night_f: 50,
        temperature_day_f: 70,
        percipitation_chance: 30,
    }
}

fn column() -> Unit {
    Unit {
        biome: Some(pasture()),
        tiles: vec![
            Tile::Stone(StoneTypes::Igneous(IgneousRocks::Basalt), State::Solid),
            Tile::Empty,
            Tile::Empty,
        ],
    }
}

fn flat_world(w: usize, h: usize) -> World {
    World {
        map_size: (w, h),
        frames: Frames { water: FrameAssoc { current: 0, all: vec![16, 32] } },
        map: (0..h).map(|_| (0..w).map(|_| column()).collect()).collect(),
        life: vec![],
    }
}

#[test]
fn dog_properties() {
    let p = Species::Carnivore(Carnivore::Dog).properties();
    assert_eq!(p.health, 200);
    assert_eq!(p.chr, 'd');
    assert_eq!(p.sight, 24);
    assert_eq!(p.mood, Mood::Contented);
}

#[test]
fn whale_properties() {
    let p = Species::Herbivore(Herbivore::Whale).properties();
    assert_eq!(p.health, 10000);
    assert_eq!(p.chr, 'W');
    assert_eq!(p.sight, 45);
}

#[test]
fn species_as_debug_writes_it() {
    assert_eq!(Species::Carnivore(Carnivore::Dog).ident(), "Carnivore(Dog)");
    assert_eq!(Species::Herbivore(Herbivore::Armadillo).ident(), "Herbivore(Armadillo)");
}

#[test]
fn newborn_animal() {
    let a = Animal::new((1, 2, 3), Species::Herbivore(Herbivore::Cow));
    assert_eq!(a.thirst, 200);
    assert_eq!(a.hunger, 600);
    assert!(a.goals.is_empty());
    assert!(a.path.is_none());
    assert!(!a.arrived);
    assert_eq!(a.current_pos(), (1, 2, 3));
    assert_eq!(a.tolerance(), 800);
    assert_eq!(a.species().chr, 'c');
}

#[test]
fn goals_are_kept_in_order_of_priority() {
    let mut a = Animal::new((0, 0, 0), Species::Herbivore(Herbivore::Cow));
    a.add_goal(Mission::Go((1, 1), 12));
    a.add_goal(Mission::Drink(3));
    a.add_goal(Mission::Eat(7));
    let ps: Vec<usize> = a.goals.iter().map(|m| m.priority()).collect();
    assert_eq!(ps, vec![3, 7, 12]);
    // the first goal added became the current goal
    assert!(matches!(a.current_goal, Some(Mission::Go((1, 1), 12))));
}

#[test]
fn goal_of_a_filed_priority_is_filed_after_it() {
    let mut a = Animal::new((0, 0, 0), Species::Herbivore(Herbivore::Cow));
    a.add_goal(Mission::Drink(3));
    a.add_goal(Mission::Eat(3));
    a.add_goal(Mission::Go((1, 1), 1));
    assert_eq!(a.goals.len(), 3);
    assert!(matches!(a.goals[0], Mission::Go((1, 1), 1)));
    assert!(matches!(a.goals[1], Mission::Drink(3)));
    assert!(matches!(a.goals[2], Mission::Eat(3)));
}

#[test]
fn dying_clears_goals() {
    let mut a = Animal::new((0, 0, 0), Species::Herbivore(Herbivore::Cow));
    a.add_goal(Mission::Drink(3));
    a.add_goal(Mission::Die);
    assert!(a.goals.is_empty());
    assert!(matches!(a.current_goal, Some(Mission::Die)));
    assert_eq!(a.species.health, 0);
}

#[test]
fn remove_and_prioritize() {
    let mut a = Animal::new((0, 0, 0), Species::Herbivore(Herbivore::Cow));
    a.add_goal(Mission::Drink(3));
    a.add_goal(Mission::Eat(7));
    a.add_goal(Mission::AttackEnemy(9));
    let removed = a.remove_goal(&Mission::Eat(0));
    assert!(matches!(removed, Some(Mission::Eat(7))));
    assert_eq!(a.goals.len(), 2);
    assert!(a.remove_goal(&Mission::Go((0, 0), 1)).is_none());
    let dropped = a.prioritize(1);
    assert_eq!(dropped.len(), 1);
    assert!(matches!(dropped[0], Mission::Drink(3)));
    assert_eq!(a.goals.len(), 1);
    let all = a.prioritize(5);
    assert_eq!(all.len(), 1);
    assert!(matches!(all[0], Mission::AttackEnemy(9)));
    assert!(a.goals.is_empty());
}

#[test]
fn missions_compare_by_kind_and_order_by_priority() {
    assert!(Mission::Eat(1) == Mission::Eat(9));
    assert!(Mission::Eat(1) != Mission::Drink(1));
    assert!(Mission::Go((0, 0), 1) != Mission::Go((0, 0), 1));
    assert_eq!(Mission::Die.priority(), 1000);
    assert_eq!(Mission::Eat(1).cmp(&Mission::Drink(2)), std::cmp::Ordering::Less);
}

#[test]
fn movement_pops_the_path() {
    let mut a = Animal::new((0, 0, 1), Species::Herbivore(Herbivore::Cow));
    a.path = Some(vec![(1, 0, 1), (2, 0, 1)]);
    a.continue_movement();
    assert_eq!(a.pos, (2, 0, 1));
    a.continue_movement();
    assert_eq!(a.pos, (1, 0, 1));
    a.continue_movement();
    assert!(a.arrived);
}

#[test]
fn sight_covers_a_disc_around_the_origin() {
    let w = flat_world(3, 3);
    let a = Animal::new((1, 1, 1), Species::Herbivore(Herbivore::Sheep));
    let seen = a.in_sight(&w);
    // sight 6: cells (x, y) in [-6, 6) x [-6, 6) with x^2 + y^2 <= 36
    let mut n = 0;
    for x in -6i32..6 {
        for y in -6i32..6 {
            if x * x + y * y <= 36 {
                n += 1;
            }
        }
    }
    assert_eq!(seen.len(), n);
    // the origin is on the map and shows the tile at the animal's level
    let origin = seen.iter().find(|e| e.1 == (0, 0, 1)).unwrap();
    assert_eq!(origin.0, Tile::Empty);
}

#[test]
fn dying_animal_asks_to_die() {
    let w = flat_world(3, 3);
    let mut a = Animal::new((1, 1, 1), Species::Herbivore(Herbivore::Cow));
    a.thirst = 3000;
    assert!(a.ready(&w));
    let r = a.execute_mission(&w);
    assert!(matches!(r, MissionResult::Die(0)));
    assert!(matches!(a.current_goal, Some(Mission::Die)));
}

#[test]
fn going_somewhere_plans_a_path() {
    let w = flat_world(4, 1);
    let mut a = Animal::new((0, 0, 1), Species::Herbivore(Herbivore::Cow));
    a.add_goal(Mission::Go((3, 0), 12));
    assert!(a.ready(&w));
    let r = a.execute_mission(&w);
    assert!(matches!(r, MissionResult::NoResult));
    let path = a.path.clone().unwrap();
    assert_eq!(path[0], (0, 0, 1));
    assert_eq!(path[1], (0, 0, 1));
    assert_eq!(*path.last().unwrap(), (3, 0, 1));
}

#[test]
fn a_sea_animal_fails_to_reach_land() {
    let w = flat_world(4, 1);
    let mut a = Animal::new((0, 0, 1), Species::Herbivore(Herbivore::Fish));
    a.add_goal(Mission::Go((3, 0), 12));
    assert!(a.ready(&w));
    a.execute_mission(&w);
    assert!(a.path.is_none());
    assert!(a.current_goal.is_none());
    assert!(matches!(a.failed_goal, Some(Mission::Go((3, 0), 12))));
}

#[test]
fn an_animal_off_the_map_cannot_act() {
    let w = flat_world(2, 2);
    let mut a = Animal::new((5, 5, 1), Species::Herbivore(Herbivore::Cow));
    a.add_goal(Mission::Go((9, 9), 12));
    assert!(!a.ready(&w));
}

#[test]
fn keeper_handles_events() {
    let mut life = LifeManager::new();
    let out = life.handle(AnimalHandlerEvent::NewAnimal(Animal::new((0, 0, 0), Species::Herbivore(Herbivore::Cow))));
    assert!(out.is_empty());
    assert_eq!(life.len(), 1);
    let out = life.handle(AnimalHandlerEvent::Draw);
    assert_eq!(out.len(), 1);
    match &out[0] {
        MissionResult::List(v) => {
            assert_eq!(v.len(), 1);
            assert_eq!(v[0].current_pos, (0, 0, 0));
        }
        _ => panic!("expected a list"),
    }
    assert_eq!(life.posns_of_species(Species::Herbivore(Herbivore::Cow)), vec![(0, 0, 0)]);
    assert!(life.life_at_point(0, 0).is_some());
    assert!(life.life_at_point(1, 0).is_none());
    let dead = life.kill(0);
    assert_eq!(dead.pos, (0, 0, 0));
    assert_eq!(life.len(), 0);
}

#[test]
fn keeper_runs_a_dying_animals_turn() {
    let mut life = LifeManager::new();
    let mut a = Animal::new((1, 1, 1), Species::Herbivore(Herbivore::Cow));
    a.hunger = 6800;
    life.handle(AnimalHandlerEvent::NewAnimal(a));
    let out = life.handle(AnimalHandlerEvent::Update(0, flat_world(3, 3)));
    assert_eq!(out.len(), 1);
    assert!(matches!(out[0], MissionResult::Kill2((1, 1, 1), Species::Herbivore(Herbivore::Cow))));
    assert_eq!(life.len(), 0);
}

#[test]
fn animals_act_every_second_or_third_tick() {
    let mut life = LifeManager::new();
    let mut a = Animal::new((1, 1, 1), Species::Herbivore(Herbivore::Cow));
    a.hunger = 6800;
    life.handle(AnimalHandlerEvent::NewAnimal(a));
    // the first animal acts on even ticks only
    let out = life.handle(AnimalHandlerEvent::Update(1, flat_world(3, 3)));
    assert!(out.is_empty());
    assert_eq!(life.len(), 1);
}

#[test]
fn fresh_keeper_answers_with_nothing() {
    match &handle_life(AnimalHandlerEvent::Draw)[..] {
        [MissionResult::List(v)] => assert!(v.is_empty()),
        _ => panic!("expected one empty list"),
    }
    assert!(handle_life(AnimalHandlerEvent::Update(0, flat_world(1, 1))).is_empty());
}

#[test]
fn closeby_finds_other_species_within_sight() {
    let mut life = LifeManager::new();
    life.handle(AnimalHandlerEvent::NewAnimal(Animal::new((2, 0, 0), Species::Carnivore(Carnivore::Wolf))));
    life.handle(AnimalHandlerEvent::NewAnimal(Animal::new((50, 0, 0), Species::Carnivore(Carnivore::Dog))));
    let me = Species::Herbivore(Herbivore::Sheep).properties();
    let near = life.closeby(((0, 0, 0), me));
    assert_eq!(near.len(), 1);
    assert_eq!(near[0].0, (2, 0, 0));
    let hunter = life.closeby_predator(((0, 0, 0), me)).unwrap();
    assert_eq!(hunter.species, Species::Carnivore(Carnivore::Wolf));
}

#[test]
fn positions_of_a_species() {
    let life = vec![
        Animal::new((1, 0, 0), Species::Herbivore(Herbivore::Fish)),
        Animal::new((2, 0, 0), Species::Herbivore(Herbivore::Whale)),
        Animal::new((3, 0, 0), Species::Herbivore(Herbivore::Fish)),
    ];
    assert_eq!(positions_of(&life, Species::Herbivore(Herbivore::Fish)), vec![(1, 0, 0), (3, 0, 0)]);
}

#[test]
fn a_mission_going_is_kept() {
    let w = flat_world(4, 4);
    let mut a = Animal::new((1, 1, 1), Species::Herbivore(Herbivore::Cow));
    a.current_goal = Some(Mission::Drink(4));
    let (r, effect) = a.auto_add_mission(&w, vec![]);
    assert!(r.is_none());
    assert!(matches!(effect, MissionResult::NoResult));
    assert!(matches!(a.current_goal, Some(Mission::Drink(4))));
    assert!(a.goals.is_empty());
}

#[test]
fn a_grazer_whose_meal_failed_forages() {
    let w = flat_world(4, 4);
    let mut a = Animal::new((1, 1, 1), Species::Herbivore(Herbivore::Cow));
    a.failed_goal = Some(Mission::Eat(5));
    let plant = Tile::Vegetation(VegType::Bluegrass, 1, State::Solid);
    let (_, effect) = a.auto_add_mission(&w, vec![(Tile::Empty, (0, 0, 1)), (plant, (2, 1, 1))]);
    match effect {
        MissionResult::ReplaceItem(p, Item::Food(Food::Herb(v))) => {
            assert_eq!(p, (2, 1, 1));
            assert!(v == VegType::Bluegrass);
        }
        _ => panic!("the plant in sight becomes food"),
    }
}

#[test]
fn a_goal_that_plans_nothing_asks_nothing_of_the_map() {
    let w = flat_world(2, 2);
    let mut a = Animal::new((5_000_000, 0, 1), Species::Herbivore(Herbivore::Cow));
    a.add_goal(Mission::Die);
    assert!(a.ready(&w));
    assert!(matches!(a.execute_mission(&w), MissionResult::Die(0)));

    let mut b = Animal::new((5_000_000, 0, 1), Species::Herbivore(Herbivore::Cow));
    b.add_goal(Mission::Go((1, 1), 12));
    assert!(!b.ready(&w));
}
