//! The state of the whole world: the view onto it, its map, its animals and
//! its time.
use vstd::prelude::*;
use crate::life::manager::took_turn;
use crate::life::{MissionResult, Order};
use crate::time::{season_of_month, time_of_hour, weather_fits, Calendar, Clock, Time};
use crate::utils::Point3D;
use crate::worldgen::terrain::{Food, Item, Tile};
use crate::worldgen::{all_have_biomes, populated, Unit, World};

verus! {

/// General time: the calendar date, the fuzzy time of day, the clock and
/// the days since the universe began.
pub struct TimeHandler {
    pub calendar: Calendar,
    pub time_of_day: Time,
    pub clock: Clock,
    pub days: usize,
}

/// The overall state of the world: where the screen and cursor are, the
/// level shown, the map once one is made, its highest level, the time and
/// the orders given.
pub struct WorldState {
    pub screen: (i32, i32),
    pub cursor: (i32, i32),
    pub level: i32,
    pub map: Option<World>,
    pub highest_level: usize,
    pub time: TimeHandler,
    pub commands: Vec<Order>,
}

/// The point is a tile of the map, by the map's own rows and columns.
pub open spec fn cell_in(w: World, p: Point3D) -> bool {
    &&& p.1 < w.map@.len()
    &&& p.0 < w.map@[p.1 as int]@.len()
    &&& p.2 < w.map@[p.1 as int]@[p.0 as int].tiles@.len()
}

/// `b` is `a` with the tile at `p` set to `t`; a point that is no tile of
/// the map changes nothing.
pub open spec fn tile_set(a: World, b: World, p: Point3D, t: Tile) -> bool {
    if cell_in(a, p) {
        let (x, y, z) = (p.0 as int, p.1 as int, p.2 as int);
        &&& b == World { map: b.map, ..a }
        &&& b.map@.len() == a.map@.len()
        &&& forall|yy: int| 0 <= yy < a.map@.len() && yy != y ==> #[trigger] b.map@[yy] == a.map@[yy]
        &&& b.map@[y]@.len() == a.map@[y]@.len()
        &&& forall|xx: int| 0 <= xx < a.map@[y]@.len() && xx != x ==> #[trigger] b.map@[y]@[xx] == a.map@[y]@[xx]
        &&& b.map@[y]@[x].biome == a.map@[y]@[x].biome
        &&& b.map@[y]@[x].tiles@ == a.map@[y]@[x].tiles@.update(z, t)
    } else {
        b == a
    }
}

/// `b` is `a` with the animal at `i` replaced by `x`.
pub open spec fn life_set(a: World, b: World, i: int, x: crate::life::animal::Animal) -> bool {
    &&& b == World { life: b.life, ..a }
    &&& b.life@ == a.life@.update(i, x)
}

/// `b` is `a` without the animal at `k`.
pub open spec fn life_removed(a: World, b: World, k: int) -> bool {
    &&& b == World { life: b.life, ..a }
    &&& b.life@ == a.life@.remove(k)
}

/// What a turn's result does to the map: an item eaten leaves empty space,
/// an item drunk from is replaced.
pub open spec fn turn_effect(a: World, b: World, r: MissionResult) -> bool {
    match r {
        MissionResult::RemoveItem(p) => tile_set(a, b, p, Tile::Empty),
        MissionResult::ReplaceItem(p, item) => tile_set(a, b, p, Tile::Item(item)),
        _ => b == a,
    }
}

/// The kills noted so far, with the one the turn of the animal at `i`
/// asks for, counted among all animals.
pub open spec fn kills_after(kills: Seq<int>, i: int, r: MissionResult) -> Seq<int> {
    match r {
        MissionResult::Kill(j) => if j < i {
            kills.push(j as int)
        } else if j + 1 <= usize::MAX {
            kills.push(j + 1)
        } else {
            kills
        },
        _ => kills,
    }
}

/// The animals of `w` from index `i` on take their turns, each among the
/// others in the world as the turns before left it; `e` is the world after
/// and `ke` the kills noted, in order.
pub open spec fn world_turns(w: World, i: int, kills: Seq<int>, e: World, ke: Seq<int>) -> bool
    decreases w.life@.len() + 1 - i,
{
    if i < 0 || i >= w.life@.len() {
        e == w && ke == kills
    } else {
        exists|b: crate::life::animal::Animal, r: MissionResult, w1: World, w2: World|
            {
                &&& #[trigger] took_turn(w.life@, w, i, b, r)
                &&& #[trigger] life_set(w, w1, i, b)
                &&& #[trigger] turn_effect(w1, w2, r)
                &&& w2.life@.len() == w.life@.len()
                &&& world_turns(w2, i + 1, kills_after(kills, i, r), e, ke)
            }
    }
}

/// The kills are carried out in order, each by the index it was noted
/// with: the animal there leaves, and meat of its species is left at the
/// tile found by taking its position's first coordinate as the row and the
/// second as the column. An index past the end is passed over.
pub open spec fn killed_all(w: World, ks: Seq<int>, e: World) -> bool
    decreases ks.len(),
{
    if ks.len() == 0 {
        e == w
    } else if 0 <= ks[0] < w.life@.len() {
        let dead = w.life@[ks[0]];
        exists|w1: World, w2: World|
            {
                &&& #[trigger] life_removed(w, w1, ks[0])
                &&& #[trigger] tile_set(
                    w1,
                    w2,
                    (dead.pos.1, dead.pos.0, dead.pos.2),
                    Tile::Item(Item::Food(Food::Meat(dead.species.species))),
                )
                &&& killed_all(w2, ks.drop_first(), e)
            }
    } else {
        killed_all(w, ks.drop_first(), e)
    }
}

impl World {
    /// Sets the tile at `p`; a point that is no tile of the map changes
    /// nothing.
    pub fn set_tile(&mut self, p: Point3D, t: Tile)
        ensures
            tile_set(*old(self), *final(self), p, t),
    {
        if p.1 < self.map.len() && p.0 < self.map[p.1].len() && p.2 < self.map[p.1][p.0].tiles.len() {
            let ghost before = self.map@;
            let mut row = self.map.remove(p.1);
            let ghost row0 = row@;
            let mut unit = row.remove(p.0);
            unit.tiles.set(p.2, t);
            row.insert(p.0, unit);
            assert(row@ =~= row0.update(p.0 as int, unit));
            self.map.insert(p.1, row);
            assert(self.map@ =~= before.update(p.1 as int, row));
        }
    }
}


/// The clock can take `dt` more minutes, and a day more when it strikes
/// midnight.
pub open spec fn time_can_advance(a: TimeHandler, dt: usize) -> bool {
    &&& a.clock.time.1 + dt <= usize::MAX
    &&& a.clock.time.1 + dt >= 60 ==> a.clock.time.0 < usize::MAX
    &&& (a.clock.time.1 + dt < 60 && a.clock.time.0 == 0) ==> a.days < usize::MAX
}

/// `b` is the time `a` after `dt` more minutes. The clock moves on (an hour
/// reached drops the extra minutes) and gives the time of day; at midnight
/// the clock restarts, a day passes and the calendar turns to it.
pub open spec fn time_updated(a: TimeHandler, b: TimeHandler, dt: usize) -> bool {
    let (h, m) = a.clock.time;
    let mins = m + dt;
    let hour: usize = if mins >= 60 { (h + 1) as usize } else { h };
    let minute: usize = if mins >= 60 { 0 } else { mins as usize };
    if time_of_hour(hour) == Time::Midnight {
        &&& b.clock.time == (0usize, 0usize)
        &&& b.days == a.days + 1
        &&& b.time_of_day == Time::Midnight
        &&& b.calendar.dmy == (b.days % 30, b.days / 30, b.days / 356)
        &&& b.calendar.season == season_of_month(b.days / 30)
        &&& weather_fits(b.calendar.season, b.calendar.weather)
    } else {
        &&& b.clock.time == (hour, minute)
        &&& b.days == a.days
        &&& b.time_of_day == time_of_hour(hour)
        &&& b.calendar == a.calendar
    }
}

/// Whether the map has a column at all.
pub open spec fn has_column(map: Seq<Vec<Unit>>) -> bool {
    exists|y: int| 0 <= y < map.len() && (#[trigger] map[y])@.len() > 0
}

/// `h` is the height of the highest column of the map, or 30 when the map
/// has no column.
pub open spec fn tallest(map: Seq<Vec<Unit>>, h: usize) -> bool {
    if has_column(map) {
        &&& forall|y: int, x: int|
            0 <= y < map.len() && 0 <= x < map[y]@.len() ==> (#[trigger] map[y]@[x]).tiles@.len() <= h
        &&& exists|y: int, x: int|
            0 <= y < map.len() && 0 <= x < map[y]@.len() && (#[trigger] map[y]@[x]).tiles@.len() == h
    } else {
        h == 30
    }
}

/// The height of the highest column of the map, or 30 when it has none.
fn highest_column(map: &Vec<Vec<Unit>>) -> (h: usize)
    ensures
        tallest(map@, h),
{
    let mut best: Option<usize> = None;
    let mut y: usize = 0;
    while y < map.len()
        invariant
            y <= map@.len(),
            best is None ==> forall|yy: int| 0 <= yy < y ==> (#[trigger] map@[yy])@.len() == 0,
            best matches Some(b) ==> forall|yy: int, xx: int|
                0 <= yy < y && 0 <= xx < map@[yy]@.len() ==> (#[trigger] map@[yy]@[xx]).tiles@.len() <= b,
            best matches Some(b) ==> exists|yy: int, xx: int|
                0 <= yy < y && 0 <= xx < map@[yy]@.len() && (#[trigger] map@[yy]@[xx]).tiles@.len() == b,
        decreases map@.len() - y,
    {
        let mut x: usize = 0;
        while x < map[y].len()
            invariant
                y < map@.len(),
                x <= map@[y as int]@.len(),
                best is None ==> x == 0 && forall|yy: int| 0 <= yy < y ==> (#[trigger] map@[yy])@.len() == 0,
                best matches Some(b) ==> forall|yy: int, xx: int|
                    (0 <= yy < y && 0 <= xx < map@[yy]@.len()) || (yy == y && 0 <= xx < x) ==> (
                    #[trigger] map@[yy]@[xx]).tiles@.len() <= b,
                best matches Some(b) ==> exists|yy: int, xx: int|
                    ((0 <= yy < y && 0 <= xx < map@[yy]@.len()) || (yy == y && 0 <= xx < x)) && (
                    #[trigger] map@[yy]@[xx]).tiles@.len() == b,
            decreases map@[y as int]@.len() - x,
        {
            let len = map[y][x].tiles.len();
            match best {
                Some(b) => {
                    if len > b {
                        best = Some(len);
                    }
                },
                None => {
                    best = Some(len);
                },
            }
            x += 1;
        }
        y += 1;
    }
    match best {
        Some(b) => b,
        None => 30,
    }
}

/// A new world state: the view at the top left at level 31, no map yet,
/// no orders, half past noon on the 36512th day, dated the twelfth of the
/// sixth month of year 100.
pub open spec fn fresh_state(w: WorldState) -> bool {
    &&& w.screen == (0i32, 0i32)
    &&& w.cursor == (0i32, 0i32)
    &&& w.level == 31
    &&& w.map is None
    &&& w.highest_level == 0
    &&& w.commands@.len() == 0
    &&& w.time.days == 36512
    &&& w.time.time_of_day == Time::Morning
    &&& w.time.clock.time == (12usize, 30usize)
    &&& w.time.calendar.dmy == (12usize, 6usize, 100usize)
    &&& w.time.calendar.season == season_of_month(6)
    &&& weather_fits(w.time.calendar.season, w.time.calendar.weather)
}

impl WorldState {
    /// Moves the time on by `dt` minutes; see `time_updated`.
    pub fn update_time(&mut self, time: usize, dt: usize)
        requires
            time_can_advance(old(self).time, dt),
        ensures
            time_updated(old(self).time, final(self).time, dt),
            *final(self) == (WorldState { time: final(self).time, ..*old(self) }),
    {
        self.time.clock.update_deltatime(dt);
        self.time.time_of_day = Time::from_clock_time(&self.time.clock);
        if self.time.time_of_day == Time::Midnight {
            self.time.clock.time = (0, 0);
            self.time.days += 1;
            self.time.calendar.update_to_day(self.time.days, &self.time.clock);
        }
    }

    /// Updates the world's time. The animals and the physics of the world
    /// are left as they are.
    pub fn update(&mut self, time: usize, dt: usize)
        requires
            time_can_advance(old(self).time, dt),
        ensures
            time_updated(old(self).time, final(self).time, dt),
            *final(self) == (WorldState { time: final(self).time, ..*old(self) }),
    {
        self.update_time(time, dt);
    }

    /// Adds a world map, notes the height of its highest column (30 when it
    /// has none) and populates it with animals.
    pub fn add_map(&mut self, world: World)
        requires
            world.well_formed(),
            world.map_size.0 > 0,
            world.map_size.1 > 0,
            all_have_biomes(world.map@),
        ensures
            (final(self).map matches Some(w) && w.well_formed() && populated(world, w)),
            tallest(world.map@, final(self).highest_level),
            *final(self) == (WorldState {
                map: final(self).map,
                highest_level: final(self).highest_level,
                ..*old(self)
            }),
    {
        let max = highest_column(&world.map);
        let mut world = world;
        world.generate_life();
        self.map = Some(world);
        self.highest_level = max;
    }

    /// A new world state with sensible defaults: the view at the top left
    /// at level 31, no map yet, half past noon on the 36512th day, dated
    /// the twelfth of the sixth month of year 100.
    pub fn new() -> (w: WorldState)
        ensures
            fresh_state(w),
    {
        let clock = Clock { time: (12, 30) };
        let calendar = Calendar::new(12, 6, 100, &clock);
        WorldState {
            screen: (0, 0),
            level: 31,
            highest_level: 0,
            cursor: (0, 0),
            time: TimeHandler { days: 36512, calendar, time_of_day: Time::Morning, clock },
            map: None,
            commands: Vec::new(),
        }
    }
}


impl WorldState {
    /// Every animal of the map takes a turn, in order, among the others in
    /// the world as the turns before left it: what it eats is removed from
    /// the map, what it drinks from is replaced, and whom it kills is noted.
    /// Then the noted kills are carried out; see `world_turns` and
    /// `killed_all`. Without a map nothing happens.
    pub fn update_life(&mut self)
        ensures
            old(self).map is None ==> *final(self) == *old(self),
            old(self).map matches Some(w) ==> (final(self).map matches Some(w2) && exists|
                mid: World,
                ks: Seq<int>,
            | #[trigger] world_turns(w, 0, Seq::empty(), mid, ks) && killed_all(mid, ks, w2)),
            *final(self) == (WorldState { map: final(self).map, ..*old(self) }),
    {
        let taken = self.map.take();
        if let Some(world) = taken {
            let ghost w0 = world;
            let mut world = world;
            let mut kills: Vec<usize> = Vec::new();
            let mut i: usize = 0;
            assert(kills@.map_values(|k: usize| k as int) =~= Seq::<int>::empty());
            while i < world.life.len()
                invariant
                    world.life@.len() == w0.life@.len(),
                    forall|e: World, ke: Seq<int>|
                        world_turns(world, i as int, kills@.map_values(|k: usize| k as int), e, ke) ==> #[trigger] world_turns(
                            w0,
                            0,
                            Seq::empty(),
                            e,
                            ke,
                        ),
                decreases world.life@.len() - i,
            {
                let ghost w = world;
                let ghost k0 = kills@;
                let mut actor = world.life.remove(i);
                proof {
                    assert(crate::life::manager::turn_world(w, world, w.life@.remove(i as int)));
                }
                let res = if actor.ready(&world) {
                    actor.execute_mission(&world)
                } else {
                    MissionResult::NoResult
                };
                let ghost b = actor;
                world.life.insert(i, actor);
                let ghost w1 = world;
                assert(world.life@ =~= w.life@.update(i as int, b));
                assert(took_turn(w.life@, w, i as int, b, res));
                match res {
                    MissionResult::Kill(j) => {
                        if j < i {
                            kills.push(j);
                        } else if j < usize::MAX {
                            kills.push(j + 1);
                        }
                    },
                    MissionResult::RemoveItem(pnt) => {
                        world.set_tile(pnt, Tile::Empty);
                    },
                    MissionResult::ReplaceItem(pnt, item) => {
                        world.set_tile(pnt, Tile::Item(item));
                    },
                    _ => {},
                }
                proof {
                    assert(kills@.map_values(|k: usize| k as int) =~= kills_after(
                        k0.map_values(|k: usize| k as int),
                        i as int,
                        res,
                    ));
                    assert(life_set(w, w1, i as int, b));
                    assert(turn_effect(w1, world, res));
                    assert forall|e: World, ke: Seq<int>|
                        world_turns(world, i + 1, kills@.map_values(|k: usize| k as int), e, ke) implies #[trigger] world_turns(
                        w0,
                        0,
                        Seq::empty(),
                        e,
                        ke,
                    ) by {
                        assert(world_turns(w, i as int, k0.map_values(|k: usize| k as int), e, ke));
                    }
                }
                i += 1;
            }
            let ghost mid = world;
            assert(world_turns(world, i as int, kills@.map_values(|k: usize| k as int), world, kills@.map_values(|k: usize| k as int)));
            let ghost ks = kills@.map_values(|k: usize| k as int);
            assert(world_turns(w0, 0, Seq::empty(), mid, ks));
            let mut k: usize = 0;
            assert(ks.skip(0) =~= ks);
            while k < kills.len()
                invariant
                    ks == kills@.map_values(|k: usize| k as int),
                    k <= kills@.len(),
                    forall|e: World| killed_all(world, ks.skip(k as int), e) ==> #[trigger] killed_all(mid, ks, e),
                decreases kills@.len() - k,
            {
                let ghost w = world;
                let idx = kills[k];
                assert(ks.skip(k as int)[0] == idx as int);
                assert(ks.skip(k as int).drop_first() =~= ks.skip(k + 1));
                if idx < world.life.len() {
                    let dead = world.life.remove(idx);
                    let ghost w1 = world;
                    let pos = dead.pos;
                    world.set_tile((pos.1, pos.0, pos.2), Tile::Item(Item::Food(Food::Meat(dead.species.species))));
                    proof {
                        assert(life_removed(w, w1, idx as int));
                        assert forall|e: World| killed_all(world, ks.skip(k + 1), e) implies #[trigger] killed_all(mid, ks, e) by {
                            assert(killed_all(w, ks.skip(k as int), e));
                        }
                    }
                } else {
                    proof {
                        assert forall|e: World| killed_all(world, ks.skip(k + 1), e) implies #[trigger] killed_all(mid, ks, e) by {
                            assert(killed_all(w, ks.skip(k as int), e));
                        }
                    }
                }
                k += 1;
            }
            assert(ks.skip(k as int) =~= Seq::<int>::empty());
            assert(killed_all(world, ks.skip(k as int), world));
            assert(killed_all(mid, ks, world));
            self.map = Some(world);
        }
    }
}

} // verus!
