//! How an animal looks about, plans and acts, one step at a time.
use vstd::prelude::*;
use crate::life::animal::{
    goal_added, may_go, moved_on, Animal, Herbivore, Species, SpeciesProperties, HUNGER_THRESHOLD,
    THIRST_THRESHOLD,
};
use crate::life::{Mission, MissionResult};
use crate::rng;
use crate::utils::{
    same_point,
    adjacent_points, find_path, lemma_path_by_species, lemma_reachable_by_species, map_small, passable, passable_at, random_point, nearest_on_perimeter, nearest_perimeter_point,
    perimeter_measurable,
    plane_distance_squared, reachable, small, strict_adjacent, walkable, within_distance, Point2D, Point3D,
};
use crate::physics::PhysicsActor;
use crate::worldgen::terrain::{tile_solid, BiomeType, Food, Item, Tile, VegType};
use crate::worldgen::{first_empty, World};

verus! {

/// What an animal standing at level `level` sees of the cell `(x, y)`. The
/// cell is taken as a point of the map as it stands, not relative to the
/// animal; a negative coordinate wraps as a cast to `usize` does. On the
/// map it is the tile at the animal's level, or the column's top tile when
/// the column is lower, with the level capped at the column's height; off
/// the map it is empty space at level zero.
pub open spec fn seen(map: &World, level: usize, x: int, y: int) -> (Tile, Point3D) {
    let p = (x as usize, y as usize);
    if map.inside(p) {
        let t = map.unit_at(p).tiles@;
        let tile = if level < t.len() {
            t[level as int]
        } else if t.len() > 0 {
            t[t.len() - 1]
        } else {
            Tile::Empty
        };
        (tile, (p.0, p.1, if level < t.len() { level } else { t.len() as usize }))
    } else {
        (Tile::Empty, (p.0, p.1, 0))
    }
}

/// The cells `(x, y)` for `y` from `-r` up to `-r + n`, kept where
/// `x^2 + y^2 <= r^2`, as seen from `level`.
pub open spec fn sight_row(map: &World, level: usize, r: int, x: int, n: int) -> Seq<(Tile, Point3D)>
    decreases n,
{
    if n <= 0 {
        Seq::empty()
    } else {
        let y = -r + n - 1;
        let rest = sight_row(map, level, r, x, n - 1);
        if x * x + y * y <= r * r {
            rest.push(seen(map, level, x, y))
        } else {
            rest
        }
    }
}

/// The rows `x` from `-r` up to `-r + m`, each with `y` from `-r` up to
/// `r`.
pub open spec fn sight_rows(map: &World, level: usize, r: int, m: int) -> Seq<(Tile, Point3D)>
    decreases m,
{
    if m <= 0 {
        Seq::empty()
    } else {
        sight_rows(map, level, r, m - 1) + sight_row(map, level, r, -r + m - 1, 2 * r)
    }
}

/// Everything within `r` of the origin, row by row, as seen from `level`.
pub open spec fn sight(map: &World, level: usize, r: int) -> Seq<(Tile, Point3D)> {
    sight_rows(map, level, r, 2 * r)
}

impl Animal {
    /// What the animal sees of the cell `(x, y)`.
    fn look(&self, map: &World, x: i32, y: i32) -> (e: (Tile, Point3D))
        requires
            map.well_formed(),
        ensures
            e == seen(map, self.pos.2, x as int, y as int),
            entry_fits(map, e),
    {
        let p = (x as usize, y as usize);
        if map.located_inside(p) {
            let t = &map.map[p.1][p.0].tiles;
            let level = self.pos.2;
            if level < t.len() {
                (t[level], (p.0, p.1, level))
            } else if t.len() > 0 {
                (t[t.len() - 1], (p.0, p.1, t.len()))
            } else {
                (Tile::Empty, (p.0, p.1, t.len()))
            }
        } else {
            (Tile::Empty, (p.0, p.1, 0))
        }
    }

    /// The cells within the animal's sight of the origin, row by row, with
    /// what it sees of each.
    pub fn in_sight(&self, map: &World) -> (v: Vec<(Tile, Point3D)>)
        requires
            map.well_formed(),
        ensures
            v@ == sight(map, self.pos.2, self.species.sight as int),
            entries_fit(map, v@),
    {
        let r: i32 = self.species.sight as i32;
        let ghost level = self.pos.2;
        let mut adj: Vec<(Tile, Point3D)> = Vec::new();
        let mut x: i32 = -r;
        while x < r
            invariant
                map.well_formed(),
                level == self.pos.2,
                r == self.species.sight as int,
                0 <= r <= 255,
                -r <= x <= r,
                adj@ == sight_rows(map, level, r as int, x + r),
                entries_fit(map, adj@),
            decreases r - x,
        {
            let ghost before = adj@;
            let mut y: i32 = -r;
            while y < r
                invariant
                    map.well_formed(),
                    level == self.pos.2,
                    0 <= r <= 255,
                    -r <= x < r,
                    -r <= y <= r,
                    adj@ == before + sight_row(map, level, r as int, x as int, y + r),
                    entries_fit(map, adj@),
                decreases r - y,
            {
                assert(0 <= x * x <= 65025) by (nonlinear_arith)
                    requires
                        -255 <= x <= 255;
                assert(0 <= y * y <= 65025) by (nonlinear_arith)
                    requires
                        -255 <= y <= 255;
                assert(0 <= r * r <= 65025) by (nonlinear_arith)
                    requires
                        0 <= r <= 255;
                if x * x + y * y <= r * r {
                    let e = self.look(map, x, y);
                    adj.push(e);
                    assert(adj@ =~= before + sight_row(map, level, r as int, x as int, y + r + 1));
                } else {
                    assert(adj@ =~= before + sight_row(map, level, r as int, x as int, y + r + 1));
                }
                y += 1;
            }
            assert(sight_rows(map, level, r as int, x + r + 1) == sight_rows(map, level, r as int, x + r)
                + sight_row(map, level, r as int, x as int, 2 * r));
            x += 1;
        }
        adj
    }
}


/// Whether the column under `goal` has a biome the species may enter.
pub open spec fn target_open(map: &World, species: SpeciesProperties, goal: Point3D) -> bool {
    let u = map.unit_at((goal.0, goal.1));
    u.biome is Some && may_go(species.species, u.biome->0.biome_type)
}

/// `b` is `a` after planning a way to `goal` for mission `m`: when the
/// goal's column is one it may enter and some path leads there, it has a
/// path there; otherwise it has dropped its current goal and remembers `m`
/// as failed. Nothing else changes.
pub open spec fn planned(a: Animal, b: Animal, map: &World, goal: Point3D, m: Mission) -> bool {
    if target_open(map, a.species, goal) && reachable(map, a.species, a.pos, goal) {
        &&& b.path matches Some(p) && walkable(map, a.species, a.pos, goal, p@)
        &&& b == Animal { path: b.path, ..a }
    } else {
        b == Animal { current_goal: None, failed_goal: Some(m), ..a }
    }
}

/// The map and the animal's place on it are small enough to search.
pub open spec fn searchable(map: &World, a: Animal) -> bool {
    &&& map.well_formed()
    &&& map_small(map)
    &&& small(a.pos)
}

impl Animal {
    /// A path from the animal to `goal`, exactly when the goal's column has
    /// a biome it may enter and some path leads there.
    pub fn create_path_to(&self, map: &World, goal: Point3D) -> (r: Option<Vec<Point3D>>)
        requires
            searchable(map, *self),
            map.inside((goal.0, goal.1)),
            goal.2 < 0x100000,
        ensures
            r is Some <==> target_open(map, self.species, goal) && reachable(map, self.species, self.pos, goal),
            r matches Some(p) ==> walkable(map, self.species, self.pos, goal, p@),
    {
        let unit = &map.map[goal.1][goal.0];
        match unit.biome {
            Some(b) => {
                if self.species.can_go(b) {
                    let species = self.species;
                    let can_move = |p: Point3D| -> (r: bool)
                        requires
                            map.well_formed(),
                            map.inside((p.0, p.1)),
                        ensures
                            r == passable(map, species, p),
                        { passable_at(map, &species, p) };
                    let found = find_path(map, self.pos, goal, can_move);
                    proof {
                        if found is Some {
                            lemma_path_by_species(map, species, can_move, self.pos, goal, found->0@);
                        } else if reachable(map, species, self.pos, goal) {
                            lemma_reachable_by_species(map, species, can_move, self.pos, goal);
                        }
                    }
                    found
                } else {
                    None
                }
            },
            None => None,
        }
    }

    /// Plans a way to `pnt` for `mission`; when there is none, the mission
    /// is dropped and remembered as failed.
    pub fn add_path_to_point(&mut self, map: &World, pnt: Point3D, mission: Mission)
        requires
            searchable(map, *old(self)),
            map.inside((pnt.0, pnt.1)),
            pnt.2 < 0x100000,
        ensures
            planned(*old(self), *final(self), map, pnt, mission),
    {
        if let Some(path) = self.create_path_to(map, pnt) {
            self.path = Some(path);
        } else {
            self.current_goal = None;
            self.failed_goal = Some(mission);
        }
    }
}


/// An entry of what an animal sees that is not empty space lies on the
/// map, and one on the map is at most at the height of its column.
pub open spec fn entry_fits(map: &World, e: (Tile, Point3D)) -> bool {
    &&& !(e.0 is Empty) ==> map.inside((e.1.0, e.1.1))
    &&& map.inside((e.1.0, e.1.1)) ==> e.1.2 <= map.unit_at((e.1.0, e.1.1)).tiles@.len()
}

/// Every entry fits the map.
pub open spec fn entries_fit(map: &World, s: Seq<(Tile, Point3D)>) -> bool {
    forall|i: int| 0 <= i < s.len() ==> entry_fits(map, #[trigger] s[i])
}

/// Food a species eats: meat for hunters, herbs for grazers.
pub open spec fn food_for(s: Species, t: Tile) -> bool {
    ||| s is Carnivore && t matches Tile::Item(Item::Food(Food::Meat(_)))
    ||| s is Herbivore && t matches Tile::Item(Item::Food(Food::Herb(_)))
}

/// Every animal stands at a point below 2^20 on each axis.
pub open spec fn life_small(life: Seq<Animal>) -> bool {
    forall|j: int| 0 <= j < life.len() ==> small(#[trigger] life[j].pos)
}

/// Whether `other` is an enemy within sight of `a`: of another species, on
/// the same level and at most `sight` away across the plane.
pub open spec fn enemy_of(a: Animal, other: Animal) -> bool {
    &&& other.pos.2 == a.pos.2
    &&& plane_distance_squared((other.pos.0, other.pos.1), (a.pos.0, a.pos.1)) <= a.species.sight
        * a.species.sight
    &&& other.species.species != a.species.species
}

/// Whether one of the other animals is an enemy within sight of `a`.
pub open spec fn enemy_in_reach(a: Animal, life: Seq<Animal>) -> bool {
    exists|j: int| 0 <= j < life.len() && enemy_of(a, #[trigger] life[j])
}

/// A column of water.
pub open spec fn water_at(map: &World, q: Point2D) -> bool {
    &&& map.inside(q)
    &&& map.unit_at(q).biome matches Some(b) && b.biome_type == BiomeType::Water
}

/// A column with open space right above something solid.
pub open spec fn is_shore(t: Seq<Tile>) -> bool {
    exists|i: int| 1 <= i < t.len() && !tile_solid(#[trigger] t[i]) && tile_solid(t[i - 1])
}

/// A column that can be tested for a shore: it is on the map and its
/// bottom, if any, is solid.
pub open spec fn shore_testable(map: &World, p: Point2D) -> bool {
    &&& map.inside(p)
    &&& map.unit_at(p).tiles@.len() == 0 || tile_solid(map.unit_at(p).tiles@[0])
}

/// The first shore among `adj` from index `k` on.
pub open spec fn first_shore(map: &World, adj: Seq<Point2D>, k: int) -> Option<Point2D>
    decreases adj.len() - k,
{
    if k < 0 || k >= adj.len() {
        None
    } else if is_shore(map.unit_at(adj[k]).tiles@) {
        Some(adj[k])
    } else {
        first_shore(map, adj, k + 1)
    }
}

/// Each column looked at in the search for a shore, up to the first shore,
/// can be tested.
pub open spec fn shore_search_safe(map: &World, adj: Seq<Point2D>, k: int) -> bool
    decreases adj.len() - k,
{
    if k < 0 || k >= adj.len() {
        true
    } else {
        shore_testable(map, adj[k]) && (is_shore(map.unit_at(adj[k]).tiles@)
            || shore_search_safe(map, adj, k + 1))
    }
}

/// Around every column of water, the search for a shore can be made.
pub open spec fn drink_safe(map: &World) -> bool {
    forall|q: Point2D| water_at(map, q) ==> shore_search_safe(map, adjacent_points(q), 0)
}

/// The point an animal heads for to go to `p`: its column's first empty
/// level.
pub open spec fn landing(map: &World, p: Point2D) -> Point3D {
    (p.0, p.1, first_empty(map.unit_at(p).tiles@) as usize)
}

/// A mission can be planned from `pos`: a point to go to is on the map,
/// and an area's corners fit in an `i32`, the distances to its sides can be
/// measured and its nearest border point is on the map.
pub open spec fn mission_fits(map: &World, pos: Point3D, m: Mission) -> bool {
    match m {
        Mission::Go(p, _) => map.inside(p),
        Mission::GoToArea(rect, _) => {
            &&& rect.0.0 <= i32::MAX
            &&& rect.0.1 <= i32::MAX
            &&& rect.1.0 <= i32::MAX
            &&& rect.1.1 <= i32::MAX
            &&& perimeter_measurable(rect, pos)
            &&& map.inside((nearest_on_perimeter(rect, pos).0, nearest_on_perimeter(rect, pos).1))
        },
        _ => true,
    }
}

/// Whether pursuing the mission may plan a path: all but dying, picking
/// food and obeying.
pub open spec fn plans(m: Mission) -> bool {
    !(m is Die || m is PickFood || m is Obey)
}

/// What may be asked of one step of pursuing `m`, with `e` the first thing
/// in sight, when it may plan a path: the map can be searched and the
/// mission fits it; an enemy in reach means the point in sight is on the
/// map; to drink, shores can be searched.
pub open spec fn pursuable(a: Animal, map: &World, m: Mission, e: (Tile, Point3D)) -> bool {
    plans(m) ==> {
        &&& searchable(map, a)
        &&& life_small(map.life@)
        &&& mission_fits(map, a.pos, m)
        &&& m is AttackEnemy && enemy_in_reach(a, map.life@) ==> map.inside((e.1.0, e.1.1))
        &&& m is Drink ==> drink_safe(map)
    }
}

/// `b` is `a` after one step of pursuing `m`, with `e` the first thing in
/// sight, and `r` is what the step asks of the world. Food in sight, an
/// enemy in reach, an area or a point is planned for; to drink, a column of
/// water is drawn at random and the first shore next to it planned for,
/// when it has one; dying asks to die; anything else does nothing.
pub open spec fn pursued(a: Animal, b: Animal, map: &World, m: Mission, e: (Tile, Point3D), r: MissionResult) -> bool {
    match m {
        Mission::Eat(_) => {
            &&& r is NoResult
            &&& food_for(a.species.species, e.0) ==> planned(a, b, map, e.1, m)
            &&& !food_for(a.species.species, e.0) ==> b == a
        },
        Mission::Drink(_) => {
            &&& r is NoResult
            &&& (exists|q: Point2D| water_at(map, q)) ==> exists|q: Point2D|
                #[trigger] water_at(map, q) && match first_shore(map, adjacent_points(q), 0) {
                    Some(p) => planned(a, b, map, landing(map, p), m),
                    None => b == a,
                }
            &&& !(exists|q: Point2D| water_at(map, q)) ==> b == a
        },
        Mission::AttackEnemy(_) => {
            &&& r is NoResult
            &&& enemy_in_reach(a, map.life@) ==> planned(a, b, map, e.1, m)
            &&& !enemy_in_reach(a, map.life@) ==> b == a
        },
        Mission::GoToArea(rect, _) => r is NoResult && planned(a, b, map, nearest_on_perimeter(rect, a.pos), m),
        Mission::Go(p, _) => r is NoResult && planned(a, b, map, landing(map, p), m),
        Mission::Die => r == MissionResult::Die(0) && b == a,
        _ => r is NoResult && b == a,
    }
}

/// A shore found by a safe search is on the map.
proof fn lemma_shore_on_map(map: &World, adj: Seq<Point2D>, k: int)
    requires
        shore_search_safe(map, adj, k),
        first_shore(map, adj, k) is Some,
    ensures
        map.inside(first_shore(map, adj, k)->0),
    decreases adj.len() - k,
{
    if 0 <= k < adj.len() && !is_shore(map.unit_at(adj[k]).tiles@) {
        lemma_shore_on_map(map, adj, k + 1);
    }
}

/// A column's first empty level is at most its height.
proof fn lemma_first_empty_bounded(t: Seq<Tile>)
    ensures
        0 <= first_empty(t) <= t.len(),
    decreases t.len(),
{
    if t.len() > 0 && !(t[0] is Empty) {
        lemma_first_empty_bounded(t.drop_first());
    }
}

/// Whether the column has open space right above something solid; its
/// bottom, if any, must be solid.
pub(crate) fn column_is_shore(t: &Vec<Tile>) -> (r: bool)
    requires
        t@.len() == 0 || tile_solid(t@[0]),
    ensures
        r == is_shore(t@),
{
    let mut i: usize = 1;
    while i < t.len()
        invariant
            1 <= i,
            forall|j: int| 1 <= j < i && j < t@.len() ==> !(!tile_solid(#[trigger] t@[j]) && tile_solid(t@[j - 1])),
        decreases t@.len() - i,
    {
        if !t[i].solid() && t[i - 1].solid() {
            return true;
        }
        i += 1;
    }
    false
}

/// The first shore next to the water column `q`, looking right, left, up
/// and down.
fn shore_near(map: &World, q: Point2D) -> (r: Option<Point2D>)
    requires
        map.well_formed(),
        map_small(map),
        water_at(map, q),
        shore_search_safe(map, adjacent_points(q), 0),
    ensures
        r == first_shore(map, adjacent_points(q), 0),
{
    let adj = strict_adjacent(q);
    let mut k: usize = 0;
    while k < adj.len()
        invariant
            map.well_formed(),
            adj@ == adjacent_points(q),
            k <= adj@.len(),
            first_shore(map, adj@, 0) == first_shore(map, adj@, k as int),
            shore_search_safe(map, adj@, k as int),
        decreases adj@.len() - k,
    {
        let p = adj[k];
        let t = &map.map[p.1][p.0].tiles;
        if column_is_shore(t) {
            return Some(p);
        }
        k += 1;
    }
    None
}

/// All columns of water, row by row.
fn water_points(map: &World) -> (v: Vec<Point2D>)
    requires
        map.well_formed(),
    ensures
        forall|i: int| 0 <= i < v@.len() ==> water_at(map, #[trigger] v@[i]),
        forall|q: Point2D| water_at(map, q) ==> v@.contains(q),
{
    let mut v: Vec<Point2D> = Vec::new();
    let mut y: usize = 0;
    while y < map.map_size.1
        invariant
            map.well_formed(),
            y <= map.map_size.1,
            forall|i: int| 0 <= i < v@.len() ==> water_at(map, #[trigger] v@[i]),
            forall|q: Point2D| water_at(map, q) && q.1 < y ==> v@.contains(q),
        decreases map.map_size.1 - y,
    {
        let mut x: usize = 0;
        while x < map.map_size.0
            invariant
                map.well_formed(),
                y < map.map_size.1,
                x <= map.map_size.0,
                forall|i: int| 0 <= i < v@.len() ==> water_at(map, #[trigger] v@[i]),
                forall|q: Point2D| water_at(map, q) && (q.1 < y || (q.1 == y && q.0 < x)) ==> v@.contains(q),
            decreases map.map_size.0 - x,
        {
            let is_water = match map.map[y][x].biome {
                Some(b) => b.biome_type == BiomeType::Water,
                None => false,
            };
            if is_water {
                let ghost before = v@;
                v.push((x, y));
                proof {
                    assert forall|q: Point2D| water_at(map, q) && (q.1 < y || (q.1 == y && q.0 < x + 1)) implies v@.contains(q) by {
                        if q == (x, y) {
                            assert(v@[before.len() as int] == q);
                        } else {
                            assert(before.contains(q));
                            let i = choose|i: int| 0 <= i < before.len() && before[i] == q;
                            assert(v@[i] == q);
                        }
                    }
                }
            }
            x += 1;
        }
        y += 1;
    }
    v
}


impl Animal {
    /// Whether one of `life` is an enemy within sight.
    pub fn enemy_near(&self, life: &Vec<Animal>) -> (r: bool)
        requires
            small(self.pos),
            life_small(life@),
        ensures
            r == enemy_in_reach(*self, life@),
    {
        let mut j: usize = 0;
        while j < life.len()
            invariant
                small(self.pos),
                life_small(life@),
                j <= life@.len(),
                forall|k: int| 0 <= k < j ==> !enemy_of(*self, #[trigger] life@[k]),
            decreases life@.len() - j,
        {
            let pos = life[j].pos;
            assert(small(life@[j as int].pos));
            if pos.2 == self.pos.2 && within_distance((pos.0, pos.1), (self.pos.0, self.pos.1), self.species.sight)
                && life[j].species.species != self.species.species {
                assert(enemy_of(*self, life@[j as int]));
                return true;
            }
            j += 1;
        }
        false
    }

    /// One step of pursuing the mission `m`, with `e` the first thing in
    /// sight: plans a way to food in sight, to a shore by some water, to an
    /// enemy in reach, to an area or to a point, or asks to die.
    pub fn pursue(&mut self, map: &World, m: Mission, e: (Tile, Point3D)) -> (r: MissionResult)
        requires
            pursuable(*old(self), map, m, e),
            entry_fits(map, e),
        ensures
            pursued(*old(self), *final(self), map, m, e, r),
    {
        let (tile, pnt) = e;
        let r = match m {
            Mission::Eat(_) => {
                let carnivore_food = matches!(self.species.species, Species::Carnivore(..))
                    && matches!(tile, Tile::Item(Item::Food(Food::Meat(..))));
                let herbivore_food = matches!(self.species.species, Species::Herbivore(..))
                    && matches!(tile, Tile::Item(Item::Food(Food::Herb(..))));
                assert(carnivore_food || herbivore_food <==> food_for(self.species.species, tile));
                if carnivore_food || herbivore_food {
                    proof {
                        assert(map.unit_at((pnt.0, pnt.1)).tiles@.len() < 0x100000);
                    }
                    self.add_path_to_point(map, pnt, m);
                }
                MissionResult::NoResult
            },
            Mission::Drink(_) => {
                let water = water_points(map);
                if let Some(q) = rng::pick(water.as_slice()) {
                    assert(water_at(map, q));
                    if let Some(p) = shore_near(map, q) {
                        let z = map.location_z(p);
                        proof {
                            lemma_shore_on_map(map, adjacent_points(q), 0);
                            lemma_first_empty_bounded(map.unit_at(p).tiles@);
                            assert(map.unit_at(p).tiles@.len() < 0x100000);
                        }
                        self.add_path_to_point(map, (p.0, p.1, z), m);
                        assert((p.0, p.1, z) == landing(map, p));
                        assert(water_at(map, q) && first_shore(map, adjacent_points(q), 0) == Some(p)
                            && planned(*old(self), *self, map, landing(map, p), m));
                    }
                } else {
                    proof {
                        if exists|q: Point2D| water_at(map, q) {
                            let q = choose|q: Point2D| water_at(map, q);
                            assert(water@.contains(q));
                        }
                    }
                }
                MissionResult::NoResult
            },
            Mission::AttackEnemy(_) => {
                if self.enemy_near(&map.life) {
                    proof {
                        assert(map.unit_at((pnt.0, pnt.1)).tiles@.len() < 0x100000);
                    }
                    self.add_path_to_point(map, pnt, m);
                }
                MissionResult::NoResult
            },
            Mission::GoToArea(rect, _) => {
                let p = self.pos;
                let t = nearest_perimeter_point(rect, p);
                self.add_path_to_point(map, t, m);
                MissionResult::NoResult
            },
            Mission::Go(point, _) => {
                let z = map.location_z(point);
                proof {
                    lemma_first_empty_bounded(map.unit_at(point).tiles@);
                    assert(map.unit_at(point).tiles@.len() < 0x100000);
                }
                self.add_path_to_point(map, (point.0, point.1, z), m);
                MissionResult::NoResult
            },
            Mission::Die => MissionResult::Die(0),
            _ => MissionResult::NoResult,
        };
        r
    }
}


/// Division rounding toward zero, as integer division does.
pub open spec fn trunc_div(a: int, d: int) -> int {
    if a >= 0 {
        a / d
    } else {
        -((-a) / d)
    }
}

/// The first food in `s` from index `k` on, with where it lies.
pub open spec fn food_from(s: Seq<(Tile, Point3D)>, k: int) -> Option<(Food, Point3D)>
    decreases s.len() - k,
{
    if k < 0 || k >= s.len() {
        None
    } else if let Tile::Item(Item::Food(f)) = s[k].0 {
        Some((f, s[k].1))
    } else {
        food_from(s, k + 1)
    }
}

/// Whether some entry of `adj` is at `p`.
pub open spec fn seen_at(adj: Seq<(Tile, Point3D)>, p: Point3D) -> bool {
    exists|k: int| 0 <= k < adj.len() && (#[trigger] adj[k]).1 == p
}

/// The first of `life`, from index `j` on, standing at a point of `adj`.
pub open spec fn enemy_from(life: Seq<Animal>, adj: Seq<(Tile, Point3D)>, j: int) -> Option<int>
    decreases life.len() - j,
{
    if j < 0 || j >= life.len() {
        None
    } else if seen_at(adj, life[j].pos) {
        Some(j)
    } else {
        enemy_from(life, adj, j + 1)
    }
}

/// `b` has taken up its most urgent waiting goal as its current goal, or
/// none when there is none.
pub open spec fn took_next(a: Animal, b: Animal) -> bool {
    if a.goals@.len() > 0 {
        b.current_goal == Some(a.goals@.last()) && b.goals@ == a.goals@.drop_last()
    } else {
        b.current_goal is None && b.goals@ == a.goals@
    }
}

/// `b` differs from `a` at most in its goals, thirst and hunger.
pub open spec fn only_needs_changed(a: Animal, b: Animal) -> bool {
    b == Animal {
        goals: b.goals,
        current_goal: b.current_goal,
        failed_goal: b.failed_goal,
        thirst: b.thirst,
        hunger: b.hunger,
        ..a
    }
}

/// `b` is `a` after acting where it stands, with `adj` what it sees, and
/// `r` what the action asks of the world. An attacker kills the first
/// other animal standing at a point in sight; a drinker drinks a quarter
/// of the first water if the first food in sight is water; an eater eats
/// the first food in sight if it is its kind (a plant for grazers, meat of
/// another species for hunters) or else fails. Dying asks to die and
/// changes nothing; every other action then takes up the next goal.
pub open spec fn stood(a: Animal, b: Animal, map: &World, adj: Seq<(Tile, Point3D)>, r: MissionResult) -> bool {
    if a.current_goal == Some(Mission::Die) {
        r == MissionResult::Die(0) && b == a
    } else {
        &&& only_needs_changed(a, b)
        &&& took_next(a, b)
        &&& match a.current_goal {
            Some(Mission::AttackEnemy(_)) => {
                &&& r == match enemy_from(map.life@, adj, 0) {
                    Some(j) => MissionResult::Kill(j as usize),
                    None => MissionResult::NoResult,
                }
                &&& b.thirst == a.thirst && b.hunger == a.hunger && b.failed_goal == a.failed_goal
            },
            Some(Mission::Drink(_)) => {
                &&& b.hunger == a.hunger && b.failed_goal == a.failed_goal
                &&& if let Some((Food::Water(q), pnt)) = food_from(adj, 0) {
                    b.thirst == trunc_div(a.thirst as int, 4) && r == MissionResult::ReplaceItem(
                        pnt,
                        Item::Food(Food::Water(q / 4)),
                    )
                } else {
                    b.thirst == a.thirst && r is NoResult
                }
            },
            Some(Mission::Eat(p)) => {
                &&& b.thirst == a.thirst
                &&& match food_from(adj, 0) {
                    Some((f, pnt)) => {
                        let fits = if a.species.species is Herbivore {
                            f is Herb
                        } else {
                            f matches Food::Meat(s) && s != a.species.species
                        };
                        if fits {
                            &&& r == MissionResult::RemoveItem(pnt)
                            &&& b.failed_goal == a.failed_goal
                            &&& b.hunger == if a.species.species is Herbivore {
                                trunc_div(a.hunger as int, 2)
                            } else {
                                0
                            }
                        } else {
                            r is NoResult && b.failed_goal == Some(Mission::Eat(p)) && b.hunger
                                == a.hunger
                        }
                    },
                    None => r is NoResult && b.failed_goal == Some(Mission::Eat(p)) && b.hunger
                        == a.hunger,
                }
            },
            _ => r is NoResult && b.thirst == a.thirst && b.hunger == a.hunger && b.failed_goal
                == a.failed_goal,
        }
    }
}

/// The first food in `adj`, with where it lies.
fn find_food(adj: &Vec<(Tile, Point3D)>) -> (r: Option<(Food, Point3D)>)
    ensures
        r == food_from(adj@, 0),
{
    let mut k: usize = 0;
    while k < adj.len()
        invariant
            k <= adj@.len(),
            food_from(adj@, 0) == food_from(adj@, k as int),
        decreases adj@.len() - k,
    {
        if let Tile::Item(Item::Food(f)) = adj[k].0 {
            return Some((f, adj[k].1));
        }
        k += 1;
    }
    None
}

/// Whether some entry of `adj` is at `p`.
fn is_seen_at(adj: &Vec<(Tile, Point3D)>, p: Point3D) -> (r: bool)
    ensures
        r == seen_at(adj@, p),
{
    let mut k: usize = 0;
    while k < adj.len()
        invariant
            k <= adj@.len(),
            forall|i: int| 0 <= i < k ==> (#[trigger] adj@[i]).1 != p,
        decreases adj@.len() - k,
    {
        if same_point(adj[k].1, p) {
            return true;
        }
        k += 1;
    }
    false
}

/// The index of the first of `life` standing at a point of `adj`.
fn find_enemy(life: &Vec<Animal>, adj: &Vec<(Tile, Point3D)>) -> (r: Option<usize>)
    ensures
        r matches Some(j) ==> enemy_from(life@, adj@, 0) == Some(j as int),
        r is None ==> enemy_from(life@, adj@, 0) is None,
{
    let mut j: usize = 0;
    while j < life.len()
        invariant
            j <= life@.len(),
            enemy_from(life@, adj@, 0) == enemy_from(life@, adj@, j as int),
        decreases life@.len() - j,
    {
        if is_seen_at(adj, life[j].pos) {
            return Some(j);
        }
        j += 1;
    }
    None
}

impl Animal {
    /// Acts where the animal stands, on what it sees, then takes up the
    /// next goal; see `stood`.
    pub fn stationary_action(&mut self, map: &World, adj: Vec<(Tile, Point3D)>) -> (r: MissionResult)
        ensures
            stood(*old(self), *final(self), map, adj@, r),
    {
        let result = match self.current_goal {
            Some(Mission::AttackEnemy(_)) => {
                match find_enemy(&map.life, &adj) {
                    Some(i) => MissionResult::Kill(i),
                    None => MissionResult::NoResult,
                }
            },
            Some(Mission::Drink(_)) => {
                if let Some((Food::Water(q), pnt)) = find_food(&adj) {
                    self.thirst = self.thirst / 4;
                    MissionResult::ReplaceItem(pnt, Item::Food(Food::Water(q / 4)))
                } else {
                    MissionResult::NoResult
                }
            },
            Some(Mission::Eat(p)) => {
                if let Some((food, pnt)) = find_food(&adj) {
                    match self.species.species {
                        Species::Herbivore(_) => {
                            if let Food::Herb(_) = food {
                                self.hunger = self.hunger / 2;
                                MissionResult::RemoveItem(pnt)
                            } else {
                                self.failed_goal = Some(Mission::Eat(p));
                                MissionResult::NoResult
                            }
                        },
                        Species::Carnivore(_) => {
                            if let Food::Meat(species) = food {
                                if species != self.species.species {
                                    self.hunger = 0;
                                    MissionResult::RemoveItem(pnt)
                                } else {
                                    self.failed_goal = Some(Mission::Eat(p));
                                    MissionResult::NoResult
                                }
                            } else {
                                self.failed_goal = Some(Mission::Eat(p));
                                MissionResult::NoResult
                            }
                        },
                    }
                } else {
                    self.failed_goal = Some(Mission::Eat(p));
                    MissionResult::NoResult
                }
            },
            Some(Mission::Die) => {
                return MissionResult::Die(0);
            },
            _ => MissionResult::NoResult,
        };
        self.current_goal = self.goals.pop();
        result
    }
}


/// Where the animals of species `s` stand, in order.
pub open spec fn positions(life: Seq<Animal>, s: Species) -> Seq<Point3D>
    decreases life.len(),
{
    if life.len() == 0 {
        Seq::empty()
    } else {
        let rest = positions(life.drop_last(), s);
        if life.last().species.species == s {
            rest.push(life.last().pos)
        } else {
            rest
        }
    }
}

/// A point is among the positions of species `s` exactly when an animal of
/// that species stands there.
pub proof fn lemma_positions(life: Seq<Animal>, s: Species, p: Point3D)
    ensures
        positions(life, s).contains(p) <==> exists|j: int|
            0 <= j < life.len() && (#[trigger] life[j]).species.species == s && life[j].pos == p,
    decreases life.len(),
{
    if life.len() > 0 {
        let rest = life.drop_last();
        lemma_positions(rest, s, p);
        let ps = positions(rest, s);
        if life.last().species.species == s {
            if ps.push(life.last().pos).contains(p) {
                let i = choose|i: int| 0 <= i < ps.push(life.last().pos).len() && ps.push(life.last().pos)[i] == p;
                if i < ps.len() {
                    assert(ps.contains(p));
                    let j = choose|j: int| 0 <= j < rest.len() && (#[trigger] rest[j]).species.species == s && rest[j].pos == p;
                    assert(life[j] == rest[j]);
                } else {
                    assert(life[life.len() - 1].pos == p);
                }
            }
            if exists|j: int| 0 <= j < life.len() && (#[trigger] life[j]).species.species == s && life[j].pos == p {
                let j = choose|j: int| 0 <= j < life.len() && (#[trigger] life[j]).species.species == s && life[j].pos == p;
                if j < rest.len() {
                    assert(rest[j] == life[j]);
                    assert(ps.contains(p));
                    let i = choose|i: int| 0 <= i < ps.len() && ps[i] == p;
                    assert(ps.push(life.last().pos)[i] == p);
                } else {
                    assert(ps.push(life.last().pos)[ps.len() as int] == p);
                }
            }
        } else {
            if exists|j: int| 0 <= j < life.len() && (#[trigger] life[j]).species.species == s && life[j].pos == p {
                let j = choose|j: int| 0 <= j < life.len() && (#[trigger] life[j]).species.species == s && life[j].pos == p;
                assert(j < rest.len());
                assert(rest[j] == life[j]);
            }
            if ps.contains(p) {
                let j = choose|j: int| 0 <= j < rest.len() && (#[trigger] rest[j]).species.species == s && rest[j].pos == p;
                assert(life[j] == rest[j]);
            }
        }
    }
}

/// Where the animals of species `s` among `life` stand, in order.
pub fn positions_of(life: &Vec<Animal>, s: Species) -> (v: Vec<Point3D>)
    ensures
        v@ == positions(life@, s),
{
    let mut v: Vec<Point3D> = Vec::new();
    let mut j: usize = 0;
    while j < life.len()
        invariant
            j <= life@.len(),
            v@ == positions(life@.take(j as int), s),
        decreases life@.len() - j,
    {
        assert(life@.take(j + 1).drop_last() =~= life@.take(j as int));
        if life[j].species.species == s {
            v.push(life[j].pos);
        }
        j += 1;
    }
    assert(life@.take(life@.len() as int) =~= life@);
    v
}

/// Whether a hunter of another species is within sight of `a`, at its
/// level or below.
pub open spec fn predator_in_reach(a: Animal, life: Seq<Animal>) -> bool {
    exists|j: int|
        0 <= j < life.len() && {
            let o = #[trigger] life[j];
            &&& o.pos.2 <= a.pos.2
            &&& plane_distance_squared((o.pos.0, o.pos.1), (a.pos.0, a.pos.1)) <= a.species.sight
                * a.species.sight
            &&& o.species.species != a.species.species
            &&& o.species.species is Carnivore
        }
}

/// Whether an animal of species `s` is among `life`.
pub open spec fn has_species(life: Seq<Animal>, s: Species) -> bool {
    exists|j: int| 0 <= j < life.len() && (#[trigger] life[j]).species.species == s
}

/// `b` is `a` after looking for somewhere to go. A fish that sees a hunter
/// swims to where some fish is; a whale swims to where some whale is, or
/// anywhere when there is none; any other animal heads for a point
/// anywhere on the map.
pub open spec fn wandered(a: Animal, b: Animal, map: &World) -> bool {
    let fish = Species::Herbivore(Herbivore::Fish);
    let whale = Species::Herbivore(Herbivore::Whale);
    if a.species.species == fish {
        if predator_in_reach(a, map.life@) && has_species(map.life@, fish) {
            exists|j: int|
                0 <= j < map.life@.len() && (#[trigger] map.life@[j]).species.species == fish
                    && goal_added(a, b, Mission::Go((map.life@[j].pos.0, map.life@[j].pos.1), 0))
        } else {
            b == a
        }
    } else if a.species.species == whale && has_species(map.life@, whale) {
        exists|j: int|
            0 <= j < map.life@.len() && (#[trigger] map.life@[j]).species.species == whale
                && goal_added(a, b, Mission::Go((map.life@[j].pos.0, map.life@[j].pos.1), 10))
    } else {
        exists|p: Point2D| map.inside(p) && goal_added(a, b, Mission::Go(p, 12))
    }
}

/// The first plant in `s` from index `k` on, with where it stands.
pub open spec fn plant_from(s: Seq<(Tile, Point3D)>, k: int) -> Option<(VegType, Point3D)>
    decreases s.len() - k,
{
    if k < 0 || k >= s.len() {
        None
    } else if let Tile::Vegetation(vt, _, _) = s[k].0 {
        Some((vt, s[k].1))
    } else {
        plant_from(s, k + 1)
    }
}

/// What foraging on what is in sight asks of the world: the first plant in
/// sight becomes food for grazers where it stands; with no plant in sight,
/// nothing.
pub open spec fn forage_result(adj: Seq<(Tile, Point3D)>) -> MissionResult {
    match plant_from(adj, 0) {
        Some((vt, p)) => MissionResult::ReplaceItem(p, Item::Food(Food::Herb(vt))),
        None => MissionResult::NoResult,
    }
}

/// A grazer that gives itself missions with nothing going, no need
/// pressing and a failed meal forages; see `forage_result`.
pub open spec fn foraged(a: Animal, adj: Seq<(Tile, Point3D)>) -> MissionResult {
    if !dies_now(a) && a.current_goal is None && !thirsty(a) && !hungry(a) && (a.failed_goal matches Some(
        Mission::Eat(_),
    )) && a.species.species is Herbivore {
        forage_result(adj)
    } else {
        MissionResult::NoResult
    }
}

/// Dying of thirst or hunger.
pub open spec fn dies_now(a: Animal) -> bool {
    a.thirst >= THIRST_THRESHOLD || a.hunger >= HUNGER_THRESHOLD
}

/// Thirsty: within the tolerance of dying of thirst.
pub open spec fn thirsty(a: Animal) -> bool {
    a.thirst >= THIRST_THRESHOLD - 800
}

/// Hungry: within the tolerance of dying of hunger.
pub open spec fn hungry(a: Animal) -> bool {
    a.hunger >= HUNGER_THRESHOLD - 800
}

/// `m` is `a` after filing a drink when thirsty, as urgent as the thirst
/// is far from deadly.
pub open spec fn drink_filed(a: Animal, m: Animal) -> bool {
    if thirsty(a) {
        goal_added(a, m, Mission::Drink((THIRST_THRESHOLD - a.thirst) as usize))
    } else {
        m == a
    }
}

/// `b` is `m` after filing a meal when `a` is hungry, as urgent as the
/// hunger is far from deadly.
pub open spec fn meal_filed(a: Animal, m: Animal, b: Animal) -> bool {
    if hungry(a) {
        goal_added(m, b, Mission::Eat((HUNGER_THRESHOLD - a.hunger) as usize))
    } else {
        b == m
    }
}

/// `b` is `a` after filing a drink when thirsty, then a meal when hungry.
pub open spec fn needs_added(a: Animal, b: Animal) -> bool {
    exists|m: Animal| #[trigger] drink_filed(a, m) && meal_filed(a, m, b)
}

/// `b` is `a` after dealing with a failed meal: a hunter files an attack as
/// urgent as the meal; a grazer changes nothing. With no failed meal, the
/// next goal is taken up and no goal is left failed.
pub open spec fn after_failure(a: Animal, b: Animal) -> bool {
    match a.failed_goal {
        Some(Mission::Eat(p)) => if a.species.species is Carnivore {
            goal_added(a, b, Mission::AttackEnemy(p))
        } else {
            b == a
        },
        _ => {
            &&& took_next(a, b)
            &&& b == Animal { goals: b.goals, current_goal: b.current_goal, failed_goal: None, ..a }
        },
    }
}

/// `b` is `a` after giving itself missions, and `r` the current goal it
/// ends with. An animal dying of thirst or hunger files its death. An
/// animal with a mission going keeps it and gives back none. Else it files
/// its needs, deals with a failed meal, and, when it has no goal left or is
/// thirsty or hungry, looks for somewhere to go.
pub open spec fn auto_added(a: Animal, b: Animal, map: &World, r: Option<Mission>) -> bool {
    if dies_now(a) {
        goal_added(a, b, Mission::Die) && r == Some(Mission::Die)
    } else if a.current_goal is Some {
        b == a && r is None
    } else {
        &&& exists|m2: Animal, m3: Animal|
            {
                &&& #[trigger] needs_added(a, m2)
                &&& #[trigger] after_failure(m2, m3)
                &&& if m3.goals@.len() == 0 || thirsty(a) || hungry(a) {
                    wandered(m3, b, map)
                } else {
                    b == m3
                }
            }
        &&& r == b.current_goal
    }
}

/// What giving itself missions asks: the map has room to wander in and the
/// animals stand at small points.
pub open spec fn self_directable(a: Animal, map: &World, adj: Seq<(Tile, Point3D)>) -> bool {
    &&& a.well_formed()
    &&& map.well_formed()
    &&& map.map_size.0 > 0
    &&& map.map_size.1 > 0
    &&& small(a.pos)
    &&& life_small(map.life@)
}

/// The first plant in sight, with where it stands.
pub(crate) fn find_plant(adj: &Vec<(Tile, Point3D)>) -> (r: Option<(VegType, Point3D)>)
    ensures
        r == plant_from(adj@, 0),
{
    let mut k: usize = 0;
    while k < adj.len()
        invariant
            k <= adj@.len(),
            plant_from(adj@, 0) == plant_from(adj@, k as int),
        decreases adj@.len() - k,
    {
        if let Tile::Vegetation(vt, _, _) = adj[k].0 {
            return Some((vt, adj[k].1));
        }
        k += 1;
    }
    None
}

impl Animal {
    /// Whether a hunter of another species is within sight, at this level or
    /// below.
    pub fn predator_near(&self, life: &Vec<Animal>) -> (r: bool)
        requires
            small(self.pos),
            life_small(life@),
        ensures
            r == predator_in_reach(*self, life@),
    {
        let mut j: usize = 0;
        while j < life.len()
            invariant
                small(self.pos),
                life_small(life@),
                j <= life@.len(),
                forall|k: int|
                    0 <= k < j ==> !{
                        let o = #[trigger] life@[k];
                        &&& o.pos.2 <= self.pos.2
                        &&& plane_distance_squared((o.pos.0, o.pos.1), (self.pos.0, self.pos.1))
                            <= self.species.sight * self.species.sight
                        &&& o.species.species != self.species.species
                        &&& o.species.species is Carnivore
                    },
            decreases life@.len() - j,
        {
            let pos = life[j].pos;
            assert(small(life@[j as int].pos));
            if pos.2 <= self.pos.2 && within_distance((pos.0, pos.1), (self.pos.0, self.pos.1), self.species.sight)
                && life[j].species.species != self.species.species
                && matches!(life[j].species.species, Species::Carnivore(..)) {
                return true;
            }
            j += 1;
        }
        false
    }

    /// Looks for somewhere to go; see `wandered`.
    fn wander(&mut self, map: &World)
        requires
            old(self).well_formed(),
            map.well_formed(),
            map.map_size.0 > 0,
            map.map_size.1 > 0,
            small(old(self).pos),
            life_small(map.life@),
        ensures
            final(self).well_formed(),
            wandered(*old(self), *final(self), map),
            body_kept(*old(self), *final(self)),
            final(self).failed_goal is None || final(self).failed_goal == old(self).failed_goal,
            missions_fit(map, *old(self)) && life_inside(map) ==> missions_fit(map, *final(self)),
    {
        let ghost a = *self;
        let fish = Species::Herbivore(Herbivore::Fish);
        let whale = Species::Herbivore(Herbivore::Whale);
        if self.species.species == fish {
            let shoal = positions_of(&map.life, fish);
            if self.predator_near(&map.life) {
                if let Some(goal) = rng::pick(shoal.as_slice()) {
                    proof {
                        lemma_positions(map.life@, fish, goal);
                    }
                    self.add_goal(Mission::Go((goal.0, goal.1), 0));
                    proof {
                        if missions_fit(map, a) && life_inside(map) {
                            let j = choose|j: int| 0 <= j < map.life@.len() && (#[trigger] map.life@[j]).species.species == fish && map.life@[j].pos == goal;
                            assert(map.inside((map.life@[j].pos.0, map.life@[j].pos.1)));
                            lemma_goal_added_fits(map, a, *self, Mission::Go((goal.0, goal.1), 0));
                        }
                    }
                } else {
                    proof {
                        if has_species(map.life@, fish) {
                            let j = choose|j: int| 0 <= j < map.life@.len() && (#[trigger] map.life@[j]).species.species == fish;
                            lemma_positions(map.life@, fish, map.life@[j].pos);
                        }
                    }
                }
            }
        } else {
            let mut goal: Option<Point3D> = None;
            if self.species.species == whale {
                let school = positions_of(&map.life, whale);
                goal = rng::pick(school.as_slice());
                proof {
                    if let Some(g) = goal {
                        lemma_positions(map.life@, whale, g);
                    }
                    if has_species(map.life@, whale) {
                        let j = choose|j: int| 0 <= j < map.life@.len() && (#[trigger] map.life@[j]).species.species == whale;
                        lemma_positions(map.life@, whale, map.life@[j].pos);
                    }
                }
            }
            match goal {
                Some(g) => {
                    self.add_goal(Mission::Go((g.0, g.1), 10));
                    proof {
                        if missions_fit(map, a) && life_inside(map) {
                            let j = choose|j: int| 0 <= j < map.life@.len() && (#[trigger] map.life@[j]).species.species == whale && map.life@[j].pos == g;
                            assert(map.inside((map.life@[j].pos.0, map.life@[j].pos.1)));
                            lemma_goal_added_fits(map, a, *self, Mission::Go((g.0, g.1), 10));
                        }
                    }
                },
                None => {
                    let p = random_point(0, map.map_size.0, 0, map.map_size.1);
                    self.add_goal(Mission::Go(p, 12));
                    assert(map.inside(p));
                    proof {
                        if missions_fit(map, a) && life_inside(map) {
                            lemma_goal_added_fits(map, a, *self, Mission::Go(p, 12));
                        }
                    }
                },
            }
        }
    }

    /// A grazer whose meal failed turns the first plant in sight into food;
    /// the change is handed back for the world to make.
    fn forage(&self, adj: &Vec<(Tile, Point3D)>) -> (r: MissionResult)
        ensures
            r == forage_result(adj@),
    {
        match find_plant(adj) {
            Some((vt, p)) => MissionResult::ReplaceItem(p, Item::Food(Food::Herb(vt))),
            None => MissionResult::NoResult,
        }
    }

    /// Gives the animal missions of its own; see `auto_added`. Also gives
    /// back what foraging asks of the world; see `foraged`.
    pub fn auto_add_mission(&mut self, map: &World, adj: Vec<(Tile, Point3D)>) -> (r: (Option<Mission>, MissionResult))
        requires
            old(self).well_formed(),
            !dies_now(*old(self)) && old(self).current_goal is None ==> self_directable(*old(self), map, adj@),
        ensures
            final(self).well_formed(),
            auto_added(*old(self), *final(self), map, r.0),
            r.1 == foraged(*old(self), adj@),
            body_kept(*old(self), *final(self)),
            final(self).failed_goal is None || final(self).failed_goal == old(self).failed_goal,
            missions_fit(map, *old(self)) && life_inside(map) ==> missions_fit(map, *final(self)),
    {
        let ghost a = *self;
        let ghost fits = missions_fit(map, a) && life_inside(map);
        if self.thirst >= THIRST_THRESHOLD || self.hunger >= HUNGER_THRESHOLD {
            self.add_goal(Mission::Die);
            proof {
                if fits {
                    lemma_goal_added_fits(map, a, *self, Mission::Die);
                }
            }
            return (Some(Mission::Die), MissionResult::NoResult);
        }
        if self.current_goal.is_some() {
            return (None, MissionResult::NoResult);
        }
        let thirsty = self.thirst >= THIRST_THRESHOLD - self.tolerance();
        if thirsty {
            let magnitude = (THIRST_THRESHOLD - self.thirst) as usize;
            self.add_goal(Mission::Drink(magnitude));
            proof {
                if fits {
                    lemma_goal_added_fits(map, a, *self, Mission::Drink(magnitude));
                }
            }
        }
        let ghost m1 = *self;
        let hungry = self.hunger >= HUNGER_THRESHOLD - self.tolerance();
        if hungry {
            let magnitude = (HUNGER_THRESHOLD - self.hunger) as usize;
            self.add_goal(Mission::Eat(magnitude));
            proof {
                if fits {
                    lemma_goal_added_fits(map, m1, *self, Mission::Eat(magnitude));
                }
            }
        }
        let ghost m2 = *self;
        assert(drink_filed(a, m1) && meal_filed(a, m1, m2));
        assert(needs_added(a, m2));
        let mut effect = MissionResult::NoResult;
        match self.failed_goal {
            Some(Mission::Eat(p)) => {
                if matches!(self.species.species, Species::Carnivore(..)) {
                    self.add_goal(Mission::AttackEnemy(p));
                    proof {
                        if fits {
                            lemma_goal_added_fits(map, m2, *self, Mission::AttackEnemy(p));
                        }
                    }
                } else {
                    effect = self.forage(&adj);
                }
            },
            _ => {
                self.current_goal = self.goals.pop();
                self.failed_goal = None;
                proof {
                    if fits {
                        lemma_took_next_fits(map, m2, *self);
                    }
                }
            },
        }
        let ghost m3 = *self;
        assert(after_failure(m2, m3));
        if self.goals.len() == 0 || hungry || thirsty {
            self.wander(map);
        }
        (self.current_goal, effect)
    }
}


/// Every mission the animal holds, current or waiting, fits the map from
/// where it stands.
pub open spec fn missions_fit(map: &World, a: Animal) -> bool {
    &&& a.current_goal matches Some(m) ==> mission_fits(map, a.pos, m)
    &&& forall|i: int| 0 <= i < a.goals@.len() ==> mission_fits(map, a.pos, #[trigger] a.goals@[i])
}

/// Every animal stands on the map.
pub open spec fn life_inside(map: &World) -> bool {
    forall|j: int| 0 <= j < map.life@.len() ==> map.inside(((#[trigger] map.life@[j]).pos.0, map.life@[j].pos.1))
}

/// Where `b` stands, how, and what it is are those of `a`; only its goals
/// and health may differ.
pub open spec fn body_kept(a: Animal, b: Animal) -> bool {
    &&& b.pos == a.pos
    &&& b.path == a.path
    &&& b.arrived == a.arrived
    &&& b.thirst == a.thirst
    &&& b.hunger == a.hunger
    &&& b.species.species == a.species.species
    &&& b.species.sight == a.species.sight
}

/// Adding a mission that fits keeps every mission fitting.
proof fn lemma_goal_added_fits(map: &World, a: Animal, b: Animal, m: Mission)
    requires
        goal_added(a, b, m),
        missions_fit(map, a),
        mission_fits(map, a.pos, m),
    ensures
        missions_fit(map, b),
        body_kept(a, b),
{
    if !(m is Die) {
        let i = choose|i: int| crate::life::animal::filed_at(a.goals@, crate::life::priority(m), i) && b.goals@ == a.goals@.insert(i, m);
        assert forall|k: int| 0 <= k < b.goals@.len() implies mission_fits(map, b.pos, #[trigger] b.goals@[k]) by {
            if k < i {
                assert(b.goals@[k] == a.goals@[k]);
            } else if k > i {
                assert(b.goals@[k] == a.goals@[k - 1]);
            }
        }
    }
}

/// Taking up the next goal keeps every mission fitting.
proof fn lemma_took_next_fits(map: &World, a: Animal, b: Animal)
    requires
        took_next(a, b),
        b.pos == a.pos,
        missions_fit(map, a),
    ensures
        missions_fit(map, b),
{
    if a.goals@.len() > 0 {
        assert(mission_fits(map, a.pos, a.goals@[a.goals@.len() - 1]));
        assert forall|k: int| 0 <= k < b.goals@.len() implies mission_fits(map, b.pos, #[trigger] b.goals@[k]) by {
            assert(b.goals@[k] == a.goals@[k]);
        }
    }
}


/// `b` is `a` after setting up its current goal, with `adj` what it sees:
/// the goal is pursued on the first thing in sight, or, with nothing in
/// sight, dropped as failed. With no current goal, the animal gives itself
/// missions and hands back what foraging asks.
pub open spec fn set_up(a: Animal, b: Animal, map: &World, adj: Seq<(Tile, Point3D)>, r: MissionResult) -> bool {
    match a.current_goal {
        Some(m) => if adj.len() > 0 {
            pursued(a, b, map, m, adj[0], r)
        } else {
            r is NoResult && b == Animal { current_goal: None, failed_goal: a.current_goal, ..a }
        },
        None => r == foraged(a, adj) && auto_added(a, b, map, b.current_goal),
    }
}

/// What setting up the current goal asks, with `adj` what the animal sees.
pub open spec fn set_up_ready(a: Animal, map: &World, adj: Seq<(Tile, Point3D)>) -> bool {
    &&& a.well_formed()
    &&& adj.len() > 0 ==> (a.current_goal matches Some(m) ==> pursuable(a, map, m, adj[0]))
    &&& a.current_goal is None ==> self_directable(a, map, adj)
}

/// Thirst and hunger can take the ten more a step costs: both while on the
/// way, thirst when acting where it stands.
pub open spec fn needs_room(a: Animal) -> bool {
    &&& a.path is Some ==> a.thirst + 10 <= i32::MAX && a.hunger + 10 <= i32::MAX
    &&& a.path is None && a.arrived ==> a.thirst + 10 <= i32::MAX
}

/// `b` is `a` after one step on its current goal, and `r` what the step
/// asks of the world. Not yet on the way, it sets the goal up; on the way,
/// it gets thirstier and hungrier and moves on; having arrived, it gets
/// thirstier and acts where it stands.
pub open spec fn satisfied(a: Animal, b: Animal, map: &World, r: MissionResult) -> bool {
    let adj = sight(map, a.pos.2, a.species.sight as int);
    if a.path is None && !a.arrived {
        set_up(a, b, map, adj, r)
    } else if a.path is Some {
        r is NoResult && moved_on(
            Animal { thirst: (a.thirst + 10) as i32, hunger: (a.hunger + 10) as i32, ..a },
            b,
        )
    } else {
        stood(Animal { thirst: (a.thirst + 10) as i32, ..a }, b, map, adj, r)
    }
}

/// What one step on the current goal asks.
pub open spec fn satisfy_ready(a: Animal, map: &World) -> bool {
    &&& a.well_formed()
    &&& map.well_formed()
    &&& needs_room(a)
    &&& a.path is None && !a.arrived ==> set_up_ready(a, map, sight(map, a.pos.2, a.species.sight as int))
}

impl Animal {
    /// Sets up the current goal; see `set_up`.
    pub fn set_up_new_goal(&mut self, map: &World, in_sight: Vec<(Tile, Point3D)>) -> (r: MissionResult)
        requires
            set_up_ready(*old(self), map, in_sight@),
            entries_fit(map, in_sight@),
        ensures
            final(self).well_formed(),
            set_up(*old(self), *final(self), map, in_sight@, r),
    {
        match self.current_goal {
            Some(m) => {
                if in_sight.len() > 0 {
                    let first = in_sight[0];
                    self.pursue(map, m, first)
                } else {
                    self.failed_goal = self.current_goal;
                    self.current_goal = None;
                    MissionResult::NoResult
                }
            },
            None => {
                let (_, effect) = self.auto_add_mission(map, in_sight);
                effect
            },
        }
    }

    /// One step on the current goal; see `satisfied`.
    pub fn satisfy_current_goal(&mut self, map: &World) -> (r: MissionResult)
        requires
            satisfy_ready(*old(self), map),
        ensures
            final(self).well_formed(),
            satisfied(*old(self), *final(self), map, r),
    {
        let in_sight = self.in_sight(map);
        if self.path.is_none() && !self.arrived {
            self.set_up_new_goal(map, in_sight)
        } else if self.path.is_some() {
            self.hunger += 10;
            self.thirst += 10;
            self.continue_movement();
            MissionResult::NoResult
        } else {
            self.thirst += 10;
            self.stationary_action(map, in_sight)
        }
    }
}


/// The goal an animal works on next: its current goal, else its most
/// urgent waiting goal, else none.
pub open spec fn next_goal(a: Animal) -> Option<Mission> {
    if a.current_goal is Some {
        a.current_goal
    } else if a.goals@.len() > 0 {
        Some(a.goals@.last())
    } else {
        None
    }
}

/// What planning for `m` asks, with `adj` what the animal sees: the map
/// can be searched, the animals stand at small points and the mission fits
/// the map; with something in sight, a drink means shores can be searched
/// and an attack with an enemy in reach means the first point in sight is
/// on the map.
pub open spec fn plan_ready(a: Animal, map: &World, m: Mission, adj: Seq<(Tile, Point3D)>) -> bool {
    &&& searchable(map, a)
    &&& life_small(map.life@)
    &&& mission_fits(map, a.pos, m)
    &&& adj.len() > 0 ==> {
        &&& m is Drink ==> drink_safe(map)
        &&& (m is AttackEnemy && enemy_in_reach(a, map.life@)) ==> map.inside((adj[0].1.0, adj[0].1.1))
    }
}

/// What one step of an animal asks of it and of the world, branch by
/// branch. Always: its goals are in order, the map is well formed and
/// thirst and hunger have room for the step. With no goal at all and not
/// dying, it must be able to give itself missions and the animals stand on
/// the map. When it is about to plan: a goal that plans a path asks what
/// planning for it asks; with no goal, and not dying, planning for any
/// goal it may give itself must be possible.
pub open spec fn ready_to_act(a: Animal, map: &World) -> bool {
    let adj = sight(map, a.pos.2, a.species.sight as int);
    &&& a.well_formed()
    &&& map.well_formed()
    &&& needs_room(a)
    &&& (next_goal(a) is None && !dies_now(a)) ==> {
        &&& self_directable(a, map, adj)
        &&& life_inside(map)
    }
    &&& (a.path is None && !a.arrived) ==> match next_goal(a) {
        Some(m) => plans(m) ==> plan_ready(a, map, m, adj),
        None => !dies_now(a) ==> {
            &&& searchable(map, a)
            &&& adj.len() > 0 ==> {
                &&& drink_safe(map)
                &&& enemy_in_reach(a, map.life@) ==> map.inside((adj[0].1.0, adj[0].1.1))
            }
        },
    }
}

/// `b` is `a` after one step of its life, and `r` what the step asks of
/// the world: with a current goal it works on it; else it takes up its
/// most urgent waiting goal and works on that; else it gives itself
/// missions on what it sees and works on what it ends with, and when that
/// work asks nothing of the world, what foraging asks is handed back.
pub open spec fn acted(a: Animal, b: Animal, map: &World, r: MissionResult) -> bool {
    if a.current_goal is Some {
        satisfied(a, b, map, r)
    } else if a.goals@.len() > 0 {
        exists|m: Animal|
            {
                &&& #[trigger] took_next(a, m)
                &&& m == Animal { goals: m.goals, current_goal: m.current_goal, ..a }
                &&& satisfied(m, b, map, r)
            }
    } else {
        exists|m: Animal, r0: MissionResult|
            {
                &&& #[trigger] auto_added(a, m, map, m.current_goal)
                &&& #[trigger] satisfied(m, b, map, r0)
                &&& r == if r0 is NoResult {
                    foraged(a, sight(map, a.pos.2, a.species.sight as int))
                } else {
                    r0
                }
            }
    }
}

impl Animal {
    /// Carries out one step of the animal's life; see `acted`. The other
    /// animals are those of `map.life`; this one is not among them, and a
    /// `Kill` names one of them by its index there.
    pub fn execute_mission(&mut self, map: &World) -> (r: MissionResult)
        requires
            ready_to_act(*old(self), map),
        ensures
            final(self).well_formed(),
            acted(*old(self), *final(self), map, r),
    {
        let ghost a = *self;
        if self.current_goal.is_some() {
            self.satisfy_current_goal(map)
        } else {
            let mut effect = MissionResult::NoResult;
            if self.goals.len() > 0 {
                self.current_goal = self.goals.pop();
            } else {
                let is = self.in_sight(map);
                let (_, e) = self.auto_add_mission(map, is);
                effect = e;
            }
            let ghost m = *self;
            let r = self.satisfy_current_goal(map);
            proof {
                if a.goals@.len() == 0 {
                    assert(auto_added(a, m, map, m.current_goal) && satisfied(m, *self, map, r));
                } else {
                    assert(took_next(a, m) && satisfied(m, *self, map, r));
                }
            }
            match r {
                MissionResult::NoResult => effect,
                other => other,
            }
        }
    }
}

} // verus!
