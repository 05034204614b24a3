//! World generation and the state of the world.
use vstd::prelude::*;
use crate::life::animal::{newborn, spec_properties, Animal, Carnivore, Herbivore, Species};
use crate::rng;
use crate::utils::{adjacent_points, strict_adjacent, Point2D, Point3D};

pub mod terrain;
pub mod state;

use self::terrain::{
    grows_in, spec_water_biome, Biome, BiomeType, IgneousRocks, LiquidPurity, MetamorphicRocks,
    RestrictedTile, SedimentaryRocks, SoilTypes, State, StoneTypes, Tile, VegType,
};

verus! {

/// The current animation frame and all the frames of one animation. The
/// frames are counted from the first tile of the tileset.
pub struct FrameAssoc {
    pub current: usize,
    pub all: Vec<usize>,
}

/// The animations of the world. Water is the one animated thing.
pub struct Frames {
    pub water: FrameAssoc,
}

/// The restricted version of a tile, for stone and plants; nothing else can
/// be restricted.
pub open spec fn spec_restricted(tile: Tile) -> Option<RestrictedTile> {
    match tile {
        Tile::Stone(a, b) => Some(RestrictedTile::Stone(a, b)),
        Tile::Vegetation(a, b, c) => Some(RestrictedTile::Vegetation(a, b, c)),
        _ => None,
    }
}

pub fn restricted_from_tile(tile: Tile) -> (r: Option<RestrictedTile>)
    ensures
        r == spec_restricted(tile),
{
    match tile {
        Tile::Stone(a, b) => Some(RestrictedTile::Stone(a, b)),
        Tile::Vegetation(a, b, c) => Some(RestrictedTile::Vegetation(a, b, c)),
        _ => None,
    }
}

/// A 1x1 cross section of the layered world, with the biome it is part of.
pub struct Unit {
    pub biome: Option<Biome>,
    pub tiles: Vec<Tile>,
}

impl Unit {
    /// The same column: same biome, same tiles.
    pub open spec fn same_as(&self, other: &Unit) -> bool {
        self.biome == other.biome && self.tiles@ == other.tiles@
    }
}

impl Clone for Unit {
    fn clone(&self) -> (u: Unit)
        ensures
            u.same_as(self),
    {
        let mut tiles: Vec<Tile> = Vec::new();
        let mut i: usize = 0;
        while i < self.tiles.len()
            invariant
                i <= self.tiles@.len(),
                tiles@ == self.tiles@.subrange(0, i as int),
            decreases self.tiles@.len() - i,
        {
            tiles.push(self.tiles[i]);
            i += 1;
        }
        assert(tiles@ =~= self.tiles@);
        Unit { biome: self.biome, tiles }
    }
}

/// The world's map, row by row.
pub type WorldMap = Vec<Vec<Unit>>;

/// The level at which a column first has empty space, or its height when
/// it has none.
pub open spec fn first_empty(tiles: Seq<Tile>) -> int
    decreases tiles.len(),
{
    if tiles.len() == 0 {
        0
    } else if tiles[0] is Empty {
        0
    } else {
        1 + first_empty(tiles.drop_first())
    }
}

/// Where the sea reaches.
pub const SEA_LEVEL: usize = 15;
/// How many animals the world is populated with.
pub const ANIMAL_COUNT: usize = 34;

/// The physical world: its size, its animations, the map of columns and
/// the animals living in it.
pub struct World {
    pub map_size: Point2D,
    pub frames: Frames,
    pub map: WorldMap,
    pub life: Vec<Animal>,
}

impl World {
    /// The map has `map_size.1` rows of `map_size.0` columns, and every
    /// animal keeps its goals in order.
    pub open spec fn well_formed(&self) -> bool {
        &&& self.map@.len() == self.map_size.1
        &&& forall|y: int| 0 <= y < self.map@.len() ==> #[trigger] self.map@[y]@.len() == self.map_size.0
        &&& forall|i: int| 0 <= i < self.life@.len() ==> #[trigger] self.life@[i].well_formed()
    }

    pub open spec fn inside(&self, pos: Point2D) -> bool {
        pos.0 < self.map_size.0 && pos.1 < self.map_size.1
    }

    /// The column at a point of the map.
    pub open spec fn unit_at(&self, pos: Point2D) -> Unit {
        self.map@[pos.1 as int]@[pos.0 as int]
    }

    /// Tests if the given point is on the world plane.
    pub fn located_inside(&self, pos: Point2D) -> (r: bool)
        ensures
            r == self.inside(pos),
    {
        pos.0 < self.map_size.0 && pos.1 < self.map_size.1
    }

    /// The column at the given position, when it is on the map.
    pub fn get(&self, pos: Point2D) -> (r: Option<Unit>)
        requires
            self.well_formed(),
        ensures
            r is Some <==> self.inside(pos),
            r matches Some(u) ==> u.same_as(&self.unit_at(pos)),
    {
        if self.located_inside(pos) {
            Some(self.map[pos.1][pos.0].clone())
        } else {
            None
        }
    }

    /// Whether the map has the shape its size gives and every animal keeps
    /// its goals in order.
    pub fn is_well_formed(&self) -> (r: bool)
        ensures
            r == self.well_formed(),
    {
        if self.map.len() != self.map_size.1 {
            return false;
        }
        let mut y: usize = 0;
        while y < self.map.len()
            invariant
                y <= self.map@.len(),
                forall|yy: int| 0 <= yy < y ==> #[trigger] self.map@[yy]@.len() == self.map_size.0,
            decreases self.map@.len() - y,
        {
            if self.map[y].len() != self.map_size.0 {
                return false;
            }
            y += 1;
        }
        let mut j: usize = 0;
        while j < self.life.len()
            invariant
                j <= self.life@.len(),
                forall|k: int| 0 <= k < j ==> #[trigger] self.life@[k].well_formed(),
            decreases self.life@.len() - j,
        {
            if !self.life[j].goals_in_order() {
                return false;
            }
            j += 1;
        }
        true
    }

    /// Whether the map, and every column of it, is less than 2^20 across
    /// and high.
    pub fn is_small(&self) -> (r: bool)
        requires
            self.well_formed(),
        ensures
            r == crate::utils::map_small(self),
    {
        if self.map_size.0 >= 0x100000 || self.map_size.1 >= 0x100000 {
            return false;
        }
        let mut y: usize = 0;
        while y < self.map_size.1
            invariant
                self.well_formed(),
                y <= self.map_size.1,
                forall|yy: int, xx: int|
                    0 <= yy < y && 0 <= xx < self.map_size.0 ==> (#[trigger] self.map@[yy]@[xx]).tiles@.len() < 0x100000,
            decreases self.map_size.1 - y,
        {
            let mut x: usize = 0;
            while x < self.map_size.0
                invariant
                    self.well_formed(),
                    y < self.map_size.1,
                    x <= self.map_size.0,
                    forall|yy: int, xx: int|
                        0 <= yy < y && 0 <= xx < self.map_size.0 ==> (#[trigger] self.map@[yy]@[xx]).tiles@.len() < 0x100000,
                    forall|xx: int| 0 <= xx < x ==> (#[trigger] self.map@[y as int]@[xx]).tiles@.len() < 0x100000,
                decreases self.map_size.0 - x,
            {
                if self.map[y][x].tiles.len() >= 0x100000 {
                    return false;
                }
                x += 1;
            }
            y += 1;
        }
        true
    }

    /// The row at `location`.
    pub fn index(&self, location: usize) -> (r: &Vec<Unit>)
        requires
            location < self.map@.len(),
        ensures
            *r == self.map@[location as int],
    {
        &self.map[location]
    }

    /// The number of rows.
    pub fn len(&self) -> (n: usize)
        ensures
            n == self.map@.len(),
    {
        self.map.len()
    }

    /// Appends a row.
    pub fn push(&mut self, value: Vec<Unit>)
        ensures
            final(self).map@ == old(self).map@.push(value),
            final(self).map_size == old(self).map_size,
            final(self).life@ == old(self).life@,
    {
        self.map.push(value)
    }

    /// The level of the first empty space in the column at `pos`, its
    /// height when it has none, and ten million off the map.
    pub fn location_z(&self, pos: Point2D) -> (z: usize)
        requires
            self.well_formed(),
        ensures
            self.inside(pos) ==> z == first_empty(self.unit_at(pos).tiles@),
            !self.inside(pos) ==> z == 10000000,
    {
        if self.located_inside(pos) {
            let t = &self.map[pos.1][pos.0].tiles;
            let mut i: usize = 0;
            assert(t@.skip(0) =~= t@);
            while i < t.len() && !(matches!(t[i], Tile::Empty))
                invariant
                    i <= t@.len(),
                    first_empty(t@) == i + first_empty(t@.skip(i as int)),
                decreases t@.len() - i,
            {
                assert(t@.skip(i as int).drop_first() =~= t@.skip(i + 1));
                i += 1;
            }
            i
        } else {
            10000000
        }
    }
}

/// The biome type a noise value stands for.
pub open spec fn biome_type_of_noise(point_val: i32) -> BiomeType {
    if 0 <= point_val < 10 {
        BiomeType::Beach
    } else if 10 <= point_val < 30 {
        BiomeType::Jungle
    } else if 30 <= point_val < 55 {
        BiomeType::Forest
    } else if 55 <= point_val < 100 {
        BiomeType::Pasture
    } else {
        BiomeType::Forest
    }
}

/// The biome of a column from its noise value and the average height
/// around it: day and night cool with height, low land is beach and high
/// hot land is desert.
pub open spec fn biome_of(point_val: i32, avg_height: i32) -> Biome {
    let temp_day = 180 - avg_height * 210;
    Biome {
        biome_type: if avg_height < SEA_LEVEL {
            BiomeType::Beach
        } else if temp_day > 100 && avg_height > SEA_LEVEL + 15 {
            BiomeType::Desert
        } else {
            biome_type_of_noise(point_val)
        },
        temperature_day_f: temp_day as i64,
        temperature_night_f: (80 - avg_height * 100) as i64,
        percipitation_chance: point_val,
    }
}

/// The rock a height of the column is made of, given whether the vein
/// noise there is below zero: igneous at the bottom, metamorphic up to four
/// below sea level, sedimentary up to thirteen above it and metamorphic
/// again higher up. The lowest three levels are molten where the noise is
/// below zero.
pub open spec fn rock_at(height: isize, below_zero: bool) -> Tile {
    let stone = if height < 10 {
        StoneTypes::Igneous(if below_zero { IgneousRocks::Obsidian } else { IgneousRocks::Basalt })
    } else if height <= 11 {
        StoneTypes::Metamorphic(
            if below_zero { MetamorphicRocks::Marble } else { MetamorphicRocks::Gneiss },
        )
    } else if height <= 28 {
        StoneTypes::Sedimentary(
            if below_zero { SedimentaryRocks::Conglomerate } else { SedimentaryRocks::Limestone },
        )
    } else {
        StoneTypes::Metamorphic(
            if below_zero { MetamorphicRocks::Marble } else { MetamorphicRocks::Gneiss },
        )
    };
    let state = if height < 3 && below_zero { State::Liquid } else { State::Solid };
    Tile::Stone(stone, state)
}

/// What the neighbours of a spot of soil are: water, sandy soil, plants,
/// stone (soil included).
pub open spec fn neighbour_flags(adj: Seq<Tile>) -> (bool, bool, bool, bool) {
    (
        exists|i: int| 0 <= i < adj.len() && #[trigger] adj[i] is Water,
        exists|i: int|
            0 <= i < adj.len() && #[trigger] adj[i] matches Tile::Stone(StoneTypes::Soil(SoilTypes::Sandy), _),
        exists|i: int| 0 <= i < adj.len() && #[trigger] adj[i] is Vegetation,
        exists|i: int| 0 <= i < adj.len() && #[trigger] adj[i] is Stone,
    )
}

/// The soil chosen for given neighbours and a roll below a hundred: sandy
/// next to water, and next to sand on a roll up to 55; loamy next to
/// plants; silty otherwise.
pub open spec fn soil_rule(adj: Seq<Tile>, roll: usize) -> SoilTypes {
    let (water, sand, veg, _stone) = neighbour_flags(adj);
    if water {
        SoilTypes::Sandy
    } else if sand && roll <= 55 {
        SoilTypes::Sandy
    } else if veg {
        SoilTypes::Loamy
    } else {
        SoilTypes::Silty
    }
}

/// The plants that may grow at a vegetation noise value, from grass low
/// down to tall trees.
pub open spec fn veg_level(vn: i32) -> Seq<VegType> {
    if vn < 0 {
        seq![VegType::Bluegrass, VegType::Bentgrass, VegType::Ryegrass]
    } else if vn < 2 {
        seq![VegType::Dandelion, VegType::Chickweed, VegType::Dandelion]
    } else if vn < 15 {
        seq![VegType::Redbud, VegType::Rhododendron, VegType::BroomShrub]
    } else if vn < 20 {
        seq![VegType::Crabapple, VegType::Redbud, VegType::Crabapple]
    } else if vn < 40 {
        seq![VegType::Pine, VegType::Crabapple, VegType::Pine]
    } else {
        seq![VegType::Redwood, VegType::Pine, VegType::Banyon]
    }
}

/// Whether a plant height fits a vegetation noise value.
pub open spec fn veg_height_fits(vn: i32, h: i32) -> bool {
    if vn < 0 {
        h == 1
    } else if vn < 2 {
        1 <= h < 3
    } else if vn < 15 {
        4 <= h < 6
    } else if vn < 20 {
        6 <= h < 9
    } else if vn < 40 {
        7 <= h < 10
    } else if vn < 100 {
        10 <= h < 20
    } else {
        h == vn
    }
}

/// The plant grown for a noise value in a biome: one of the level's plants
/// that survives there, with a height that fits; a one-high dandelion when
/// none survives.
pub open spec fn veg_fits(vn: i32, biome: Biome, t: Tile) -> bool {
    if exists|i: int| 0 <= i < 3 && grows_in(biome.biome_type, #[trigger] veg_level(vn)[i]) {
        t matches Tile::Vegetation(v, h, State::Solid) && veg_level(vn).contains(v) && grows_in(
            biome.biome_type,
            v,
        ) && veg_height_fits(vn, h)
    } else {
        t == Tile::Vegetation(VegType::Dandelion, 1, State::Solid)
    }
}

impl World {
    /// A liquid purity drawn at random, most often dirty. Every purity is
    /// among the choices, so any of them may come back; which one is left to
    /// chance.
    pub fn purity() -> (p: LiquidPurity) {
        let options = vec![
            LiquidPurity::Clean,
            LiquidPurity::Clear,
            LiquidPurity::Clear,
            LiquidPurity::Dirty,
            LiquidPurity::Dirty,
            LiquidPurity::Dirty,
            LiquidPurity::Dirty,
            LiquidPurity::Muddy,
            LiquidPurity::Muddy,
            LiquidPurity::Muddy,
            LiquidPurity::Murky,
            LiquidPurity::Pure,
            LiquidPurity::Sandy,
            LiquidPurity::Toxic,
        ];
        match rng::pick(options.as_slice()) {
            Some(p) => p,
            None => LiquidPurity::Clean,
        }
    }

    fn biome_type_from_noise(point_val: i32) -> (b: BiomeType)
        ensures
            b == biome_type_of_noise(point_val),
    {
        if 0 <= point_val && point_val < 10 {
            BiomeType::Beach
        } else if 10 <= point_val && point_val < 30 {
            BiomeType::Jungle
        } else if 30 <= point_val && point_val < 55 {
            BiomeType::Forest
        } else if 55 <= point_val && point_val < 100 {
            BiomeType::Pasture
        } else {
            BiomeType::Forest
        }
    }

    /// Gets the biome at a certain height. The average height is a whole
    /// number of levels.
    pub fn biome_from_noise(point_val: i32, avg_height: i32) -> (b: Biome)
        ensures
            b == biome_of(point_val, avg_height),
    {
        let h = avg_height as i64;
        let temp_day: i64 = 180 - h * 210;
        Biome {
            biome_type: if h < SEA_LEVEL as i64 {
                BiomeType::Beach
            } else if temp_day > 100 && h > SEA_LEVEL as i64 + 15 {
                BiomeType::Desert
            } else {
                World::biome_type_from_noise(point_val)
            },
            temperature_day_f: temp_day,
            temperature_night_f: 80 - h * 100,
            percipitation_chance: point_val,
        }
    }

    /// The first of the pair where the noise is below zero, else the second.
    pub fn rock_choice<T: Copy>(list: &[T; 2], below_zero: bool) -> (r: T)
        ensures
            r == if below_zero { list@[0] } else { list@[1] },
    {
        if below_zero {
            list[0]
        } else {
            list[1]
        }
    }

    /// Chooses a type of rock from the height and whether the stone vein
    /// noise at that spot is below zero.
    pub fn rock_type(height: isize, below_zero: bool) -> (t: Tile)
        ensures
            t == rock_at(height, below_zero),
    {
        let sedimentary = [SedimentaryRocks::Conglomerate, SedimentaryRocks::Limestone];
        let igneous = [IgneousRocks::Obsidian, IgneousRocks::Basalt];
        let metamorphic = [MetamorphicRocks::Marble, MetamorphicRocks::Gneiss];
        let stone = if height < 10 {
            StoneTypes::Igneous(World::rock_choice(&igneous, below_zero))
        } else if height <= SEA_LEVEL as isize - 4 {
            StoneTypes::Metamorphic(World::rock_choice(&metamorphic, below_zero))
        } else if height <= SEA_LEVEL as isize + 13 {
            StoneTypes::Sedimentary(World::rock_choice(&sedimentary, below_zero))
        } else {
            StoneTypes::Metamorphic(World::rock_choice(&metamorphic, below_zero))
        };
        let state = if height < 3 {
            if below_zero {
                State::Liquid
            } else {
                State::Solid
            }
        } else {
            State::Solid
        };
        Tile::Stone(stone, state)
    }

    /// Chooses a type of soil from the neighbouring tiles; next to sand the
    /// choice rests on a roll of a generator seeded with `seed`; see
    /// `soil_from_roll`. The generator is fresh for each choice, so drawing
    /// the roll where it is not needed changes nothing.
    pub fn soil_choice(adj: &Vec<Tile>, seed: u32) -> (s: SoilTypes)
        ensures
            exists|roll: usize| roll < 100 && s == soil_rule(adj@, roll),
    {
        let seeds = vec![seed as usize];
        let mut rng = rng::std_rng_from_seed(seeds.as_slice());
        let roll = rng::std_rng_gen_range(&mut rng, 0, 100);
        World::soil_from_roll(adj, roll)
    }

    /// The soil for the neighbouring tiles and a roll below a hundred; see
    /// `soil_rule`.
    pub fn soil_from_roll(adj: &Vec<Tile>, roll: usize) -> (s: SoilTypes)
        requires
            roll < 100,
        ensures
            s == soil_rule(adj@, roll),
    {
        let mut water_adjacent = false;
        let mut sand_adjacent = false;
        let mut veg_adjacent = false;
        let mut sedimentary_adjacent = false;
        let mut i: usize = 0;
        while i < adj.len()
            invariant
                i <= adj@.len(),
                water_adjacent == exists|j: int| 0 <= j < i && #[trigger] adj@[j] is Water,
                sand_adjacent == exists|j: int|
                    0 <= j < i && #[trigger] adj@[j] matches Tile::Stone(StoneTypes::Soil(SoilTypes::Sandy), _),
                veg_adjacent == exists|j: int| 0 <= j < i && #[trigger] adj@[j] is Vegetation,
                sedimentary_adjacent == exists|j: int| 0 <= j < i && #[trigger] adj@[j] is Stone,
            decreases adj@.len() - i,
        {
            let x = adj[i];
            water_adjacent = water_adjacent || matches!(x, Tile::Water(..));
            sand_adjacent = sand_adjacent || matches!(
                x,
                Tile::Stone(StoneTypes::Soil(SoilTypes::Sandy), _)
            );
            veg_adjacent = veg_adjacent || matches!(x, Tile::Vegetation(..));
            sedimentary_adjacent = sedimentary_adjacent || matches!(x, Tile::Stone(..));
            i += 1;
        }
        if water_adjacent {
            assert(soil_rule(adj@, 0) == SoilTypes::Sandy);
            SoilTypes::Sandy
        } else {
            assert(!water_adjacent);
            if sand_adjacent && roll <= 55 {
                assert(soil_rule(adj@, roll) == SoilTypes::Sandy);
                SoilTypes::Sandy
            } else if veg_adjacent && water_adjacent || (water_adjacent && !sand_adjacent) {
                SoilTypes::Peaty
            } else if veg_adjacent {
                assert(soil_rule(adj@, roll) == SoilTypes::Loamy);
                SoilTypes::Loamy
            } else if sedimentary_adjacent {
                assert(soil_rule(adj@, roll) == SoilTypes::Silty);
                SoilTypes::Silty
            } else if water_adjacent && (sand_adjacent || sedimentary_adjacent) {
                SoilTypes::Clay
            } else {
                assert(soil_rule(adj@, roll) == SoilTypes::Silty);
                SoilTypes::Silty
            }
        }
    }

    /// Picks the plant growing at a spot from the vegetation noise there
    /// (rounded down) and the biome: the noise picks the kind of plant and
    /// its height, and among the kinds that survive in the biome one is
    /// drawn at random.
    pub fn get_vegetation(vn: i32, biome: Biome) -> (t: Tile)
        ensures
            veg_fits(vn, biome, t),
    {
        let level: Vec<VegType> = if vn < 0 {
            vec![VegType::Bluegrass, VegType::Bentgrass, VegType::Ryegrass]
        } else if vn < 2 {
            vec![VegType::Dandelion, VegType::Chickweed, VegType::Dandelion]
        } else if vn < 15 {
            vec![VegType::Redbud, VegType::Rhododendron, VegType::BroomShrub]
        } else if vn < 20 {
            vec![VegType::Crabapple, VegType::Redbud, VegType::Crabapple]
        } else if vn < 40 {
            vec![VegType::Pine, VegType::Crabapple, VegType::Pine]
        } else {
            vec![VegType::Redwood, VegType::Pine, VegType::Banyon]
        };
        let height: i32 = if vn < 0 {
            1
        } else if vn < 2 {
            rng::gen_range(1, 3) as i32
        } else if vn < 15 {
            rng::gen_range(4, 6) as i32
        } else if vn < 20 {
            rng::gen_range(6, 9) as i32
        } else if vn < 40 {
            rng::gen_range(7, 10) as i32
        } else if vn < 100 {
            rng::gen_range(10, 20) as i32
        } else {
            vn
        };
        assert(level@ == veg_level(vn));
        let mut survivors: Vec<VegType> = Vec::new();
        let mut i: usize = 0;
        while i < level.len()
            invariant
                i <= level@.len(),
                level@ == veg_level(vn),
                forall|j: int| 0 <= j < survivors@.len() ==> level@.contains(#[trigger] survivors@[j])
                    && grows_in(biome.biome_type, survivors@[j]),
                survivors@.len() == 0 ==> forall|j: int|
                    0 <= j < i ==> !grows_in(biome.biome_type, #[trigger] level@[j]),
            decreases level@.len() - i,
        {
            if biome.survives(level[i]) {
                survivors.push(level[i]);
            }
            i += 1;
        }
        match rng::pick(survivors.as_slice()) {
            Some(v) => {
                assert(survivors@.contains(v));
                Tile::Vegetation(v, height, State::Solid)
            },
            None => Tile::Vegetation(VegType::Dandelion, 1, State::Solid),
        }
    }
}

/// Whether a point is on a map, row by row.
pub open spec fn on_map(world: Seq<Vec<Unit>>, p: Point2D) -> bool {
    p.1 < world.len() && p.0 < world[p.1 as int]@.len()
}

pub open spec fn column(world: Seq<Vec<Unit>>, p: Point2D) -> Unit {
    world[p.1 as int]@[p.0 as int]
}

/// The height of a neighbouring column, zero off the map.
pub open spec fn neighbour_height(world: Seq<Vec<Unit>>, p: Point2D) -> int {
    if on_map(world, p) { column(world, p).tiles@.len() as int } else { 0 }
}

/// One for a neighbour on the map, zero off it.
pub open spec fn neighbour_count(world: Seq<Vec<Unit>>, p: Point2D) -> int {
    if on_map(world, p) { 1 } else { 0 }
}

/// The summed heights of the points of `a` that are on the map.
pub open spec fn heights_sum(world: Seq<Vec<Unit>>, a: Seq<Point2D>) -> int
    decreases a.len(),
{
    if a.len() == 0 {
        0
    } else {
        heights_sum(world, a.drop_last()) + neighbour_height(world, a.last())
    }
}

/// How many points of `a` are on the map.
pub open spec fn count_on_map(world: Seq<Vec<Unit>>, a: Seq<Point2D>) -> int
    decreases a.len(),
{
    if a.len() == 0 {
        0
    } else {
        count_on_map(world, a.drop_last()) + neighbour_count(world, a.last())
    }
}

/// The summed heights of the neighbours of `(x, y)` on the map.
pub open spec fn neighbour_heights(world: Seq<Vec<Unit>>, x: usize, y: usize) -> int {
    heights_sum(world, adjacent_points((x, y)))
}

/// How many neighbours of `(x, y)` are on the map.
pub open spec fn neighbours_on_map(world: Seq<Vec<Unit>>, x: usize, y: usize) -> int {
    count_on_map(world, adjacent_points((x, y)))
}

/// Whether every neighbour of `(x, y)` on the map rises above sea level:
/// the column lies inland.
pub open spec fn inland(world: Seq<Vec<Unit>>, x: usize, y: usize) -> bool {
    forall|k: int|
        0 <= k < adjacent_points((x, y)).len() && on_map(world, #[trigger] adjacent_points((x, y))[k])
            ==> column(world, adjacent_points((x, y))[k]).tiles@.len() > SEA_LEVEL
}

/// A column below sea level, or one inland less than two above it, is
/// flooded.
pub open spec fn floods(world: Seq<Vec<Unit>>, x: usize, y: usize) -> bool {
    let d = column(world, (x, y)).tiles@.len();
    d < SEA_LEVEL || (inland(world, x, y) && d < SEA_LEVEL + 2)
}

/// Every column has a neighbour on the map.
pub open spec fn has_neighbours(world: Seq<Vec<Unit>>) -> bool {
    forall|y: usize, x: usize|
        y < world.len() && x < world[y as int]@.len() ==> #[trigger] neighbours_on_map(world, x, y) >= 1
}

proof fn lemma_count_holds(world: Seq<Vec<Unit>>, a: Seq<Point2D>, i: int)
    requires
        0 <= i < a.len(),
    ensures
        count_on_map(world, a) >= neighbour_count(world, a[i]),
        count_on_map(world, a) >= 0,
    decreases a.len(),
{
    lemma_count_nonneg(world, a.drop_last());
    if i < a.len() - 1 {
        lemma_count_holds(world, a.drop_last(), i);
        assert(a.drop_last()[i] == a[i]);
    }
}

proof fn lemma_count_nonneg(world: Seq<Vec<Unit>>, a: Seq<Point2D>)
    ensures
        count_on_map(world, a) >= 0,
    decreases a.len(),
{
    if a.len() > 0 {
        lemma_count_nonneg(world, a.drop_last());
    }
}

proof fn lemma_sum_prefix(world: Seq<Vec<Unit>>, a: Seq<Point2D>, k: int)
    requires
        0 <= k <= a.len(),
    ensures
        0 <= heights_sum(world, a.take(k)) <= heights_sum(world, a),
    decreases a.len(),
{
    if k < a.len() {
        lemma_sum_prefix(world, a.drop_last(), k);
        assert(a.drop_last().take(k) =~= a.take(k));
    } else {
        assert(a.take(k) =~= a);
        if a.len() > 0 {
            lemma_sum_prefix(world, a.drop_last(), a.len() - 1);
            assert(a.drop_last().take(a.len() - 1) =~= a.drop_last());
        }
    }
}

proof fn lemma_sum_bounded(world: Seq<Vec<Unit>>, a: Seq<Point2D>, bound: int)
    requires
        forall|k: int| 0 <= k < a.len() ==> neighbour_height(world, #[trigger] a[k]) <= bound,
        0 <= bound,
    ensures
        heights_sum(world, a) <= a.len() * bound,
    decreases a.len(),
{
    if a.len() > 0 {
        assert forall|k: int| 0 <= k < a.drop_last().len() implies neighbour_height(world, #[trigger] a.drop_last()[k]) <= bound by {
            assert(a.drop_last()[k] == a[k]);
        }
        lemma_sum_bounded(world, a.drop_last(), bound);
        assert(neighbour_height(world, a[a.len() - 1]) <= bound);
        assert((a.len() - 1) * bound + bound == a.len() * bound) by (nonlinear_arith);
    }
}

/// A map of more than one column, every row as long, gives every column a
/// neighbour on the map.
proof fn lemma_has_neighbours(world: Seq<Vec<Unit>>, size: Point2D)
    requires
        map_shaped(world, size),
        size.0 > 1 || size.1 > 1,
    ensures
        has_neighbours(world),
{
    assert forall|y: usize, x: usize| y < world.len() && x < world[y as int]@.len() implies #[trigger] neighbours_on_map(world, x, y) >= 1 by {
        let a = adjacent_points((x, y));
        assert(world[y as int]@.len() == size.0);
        if x + 1 < size.0 {
            assert(on_map(world, a[0]));
            lemma_count_holds(world, a, 0);
        } else if x > 0 {
            assert(a[1] == ((x - 1) as usize, y));
            assert(world[y as int]@.len() == size.0);
            assert(on_map(world, a[1]));
            lemma_count_holds(world, a, 1);
        } else if y + 1 < size.1 {
            assert(world[(y + 1) as int]@.len() == size.0);
            assert(on_map(world, a[a.len() - 1]));
            lemma_count_holds(world, a, a.len() - 1);
        } else {
            assert(a[a.len() - 2] == (x, (y - 1) as usize));
            assert(world[(y - 1) as int]@.len() == size.0);
            assert(on_map(world, a[a.len() - 2]));
            lemma_count_holds(world, a, a.len() - 2);
        }
    }
}

/// A column of water `d` deep, counted from the top, of some purity.
pub open spec fn water_column(u: Unit, d: int) -> bool {
    &&& u.biome == Some(spec_water_biome())
    &&& u.tiles@.len() == d
    &&& forall|k: int|
        0 <= k < d ==> (#[trigger] u.tiles@[k] matches Tile::Water(_, State::Liquid, depth) && depth
            == d - k)
}

/// The tile at level `h` of each neighbour of `(x, y)`; empty where there
/// is none.
pub open spec fn neighbour_tiles(world: Seq<Vec<Unit>>, x: usize, y: usize, h: int) -> Seq<Tile> {
    Seq::new(
        adjacent_points((x, y)).len(),
        |k: int|
            {
                let p = adjacent_points((x, y))[k];
                if on_map(world, p) && h < column(world, p).tiles@.len() {
                    column(world, p).tiles@[h]
                } else {
                    Tile::Empty
                }
            },
    )
}

/// Plain samples of the terrain, taken from the heightmap and the noises,
/// row by row.
pub struct TerrainSamples {
    /// Height of each column.
    pub heights: Vec<Vec<usize>>,
    /// At each level of each column, whether the stone vein noise is below
    /// zero.
    pub veins: Vec<Vec<Vec<bool>>>,
    /// The biome noise at each column, in hundredths.
    pub biome_noise: Vec<Vec<i32>>,
    /// The vegetation noise at each column, in hundredths, rounded down.
    pub veg_noise: Vec<Vec<i32>>,
}

impl TerrainSamples {
    /// Every sample grid has `size.1` rows of `size.0` columns, and each
    /// column has a vein sample for every level.
    pub open spec fn fits(&self, size: Point2D) -> bool {
        &&& self.heights@.len() == size.1
        &&& self.veins@.len() == size.1
        &&& self.biome_noise@.len() == size.1
        &&& self.veg_noise@.len() == size.1
        &&& forall|y: int|
            0 <= y < size.1 ==> {
                &&& #[trigger] self.heights@[y]@.len() == size.0
                &&& self.veins@[y]@.len() == size.0
                &&& self.biome_noise@[y]@.len() == size.0
                &&& self.veg_noise@[y]@.len() == size.0
                &&& forall|x: int|
                    0 <= x < size.0 ==> #[trigger] self.veins@[y]@[x]@.len()
                        >= self.heights@[y]@[x]
            }
    }

    /// Whether the samples fit a map of `size` and no height is above a
    /// quarter of what an `i32` counts; the test of what generating a world
    /// from them asks.
    pub fn usable_for(&self, size: Point2D) -> (r: bool)
        ensures
            r == (self.fits(size) && heights_small(self)),
    {
        if self.heights.len() != size.1 || self.veins.len() != size.1 || self.biome_noise.len() != size.1
            || self.veg_noise.len() != size.1 {
            return false;
        }
        let mut y: usize = 0;
        while y < size.1
            invariant
                self.heights@.len() == size.1,
                self.veins@.len() == size.1,
                self.biome_noise@.len() == size.1,
                self.veg_noise@.len() == size.1,
                y <= size.1,
                forall|yy: int|
                    0 <= yy < y ==> {
                        &&& #[trigger] self.heights@[yy]@.len() == size.0
                        &&& self.veins@[yy]@.len() == size.0
                        &&& self.biome_noise@[yy]@.len() == size.0
                        &&& self.veg_noise@[yy]@.len() == size.0
                        &&& forall|x: int|
                            0 <= x < size.0 ==> #[trigger] self.veins@[yy]@[x]@.len() >= self.heights@[yy]@[x]
                    },
                forall|yy: int, x: int|
                    0 <= yy < y && 0 <= x < self.heights@[yy]@.len() ==> #[trigger] self.heights@[yy]@[x]
                        <= i32::MAX / 4,
            decreases size.1 - y,
        {
            if self.heights[y].len() != size.0 || self.veins[y].len() != size.0 || self.biome_noise[y].len()
                != size.0 || self.veg_noise[y].len() != size.0 {
                proof {
                    if self.fits(size) {
                        assert(self.heights@[y as int]@.len() == size.0);
                    }
                }
                return false;
            }
            let mut x: usize = 0;
            while x < size.0
                invariant
                    y < size.1,
                    self.heights@.len() == size.1,
                    self.veins@.len() == size.1,
                    self.heights@[y as int]@.len() == size.0,
                    self.veins@[y as int]@.len() == size.0,
                    x <= size.0,
                    forall|xx: int| 0 <= xx < x ==> #[trigger] self.veins@[y as int]@[xx]@.len() >= self.heights@[y as int]@[xx],
                    forall|xx: int| 0 <= xx < x ==> #[trigger] self.heights@[y as int]@[xx] <= i32::MAX / 4,
                decreases size.0 - x,
            {
                if self.veins[y][x].len() < self.heights[y][x] {
                    assert(!self.fits(size)) by {
                        assert(self.heights@[y as int]@.len() == size.0);
                    }
                    return false;
                }
                if self.heights[y][x] > (i32::MAX / 4) as usize {
                    assert(!heights_small(self)) by {
                        assert(self.heights@[y as int]@[x as int] > i32::MAX / 4);
                    }
                    return false;
                }
                x += 1;
            }
            y += 1;
        }
        true
    }

    /// The rock column the samples give at `(x, y)`.
    pub open spec fn rock_column(&self, x: int, y: int) -> Seq<Tile> {
        Seq::new(
            self.heights@[y]@[x] as nat,
            |h: int| rock_at(h as isize, self.veins@[y]@[x]@[h]),
        )
    }
}

/// Step 1: every column is the rock the samples give, with no biome yet.
pub open spec fn rock_step(samples: &TerrainSamples, size: Point2D, world: Seq<Vec<Unit>>) -> bool {
    &&& map_shaped(world, size)
    &&& forall|y: int, x: int|
        0 <= y < size.1 && 0 <= x < size.0 ==> {
            &&& (#[trigger] world[y]@[x]).biome is None
            &&& world[y]@[x].tiles@ == samples.rock_column(x, y)
        }
}

/// The map is made of `size.1` rows of `size.0` columns.
pub open spec fn map_shaped(world: Seq<Vec<Unit>>, size: Point2D) -> bool {
    &&& world.len() == size.1
    &&& forall|y: int| 0 <= y < size.1 ==> #[trigger] world[y]@.len() == size.0
}

impl World {
    /// Step 1 of map generation: bedrock and mountains from the terrain
    /// samples.
    pub fn rock_from_terrain(samples: &TerrainSamples, size: Point2D) -> (world: WorldMap)
        requires
            samples.fits(size),
        ensures
            rock_step(samples, size, world@),
    {
        let (sw, sh) = size;
        let mut world: WorldMap = Vec::new();
        let mut y: usize = 0;
        while y < sh
            invariant
                samples.fits(size),
                size == (sw, sh),
                y <= sh,
                world@.len() == y,
                forall|yy: int| 0 <= yy < y ==> #[trigger] world@[yy]@.len() == sw,
                forall|yy: int, x: int|
                    0 <= yy < y && 0 <= x < sw ==> {
                        &&& (#[trigger] world@[yy]@[x]).biome is None
                        &&& world@[yy]@[x].tiles@ == samples.rock_column(x, yy)
                    },
            decreases sh - y,
        {
            let mut row: Vec<Unit> = Vec::new();
            let mut x: usize = 0;
            while x < sw
                invariant
                    samples.fits(size),
                    size == (sw, sh),
                    y < sh,
                    x <= sw,
                    row@.len() == x,
                    forall|xx: int|
                        0 <= xx < x ==> {
                            &&& (#[trigger] row@[xx]).biome is None
                            &&& row@[xx].tiles@ == samples.rock_column(xx, y as int)
                        },
                decreases sw - x,
            {
                assert(samples.heights@[y as int]@.len() == sw);
                assert(samples.veins@[y as int]@[x as int]@.len() >= samples.heights@[y as int]@[x as int]);
                let height = samples.heights[y][x];
                let veins = &samples.veins[y][x];
                let mut tiles: Vec<Tile> = Vec::new();
                let mut h: usize = 0;
                while h < height
                    invariant
                        samples.fits(size),
                        y < sh,
                        x < sw,
                        height == samples.heights@[y as int]@[x as int],
                        veins@ == samples.veins@[y as int]@[x as int]@,
                        veins@.len() >= height,
                        h <= height,
                        tiles@ == samples.rock_column(x as int, y as int).subrange(0, h as int),
                    decreases height - h,
                {
                    tiles.push(World::rock_type(h as isize, veins[h]));
                    h += 1;
                }
                assert(tiles@ =~= samples.rock_column(x as int, y as int));
                row.push(Unit { biome: None, tiles });
                x += 1;
            }
            world.push(row);
            y += 1;
        }
        world
    }
}

/// The height of the column at `p`, when it is on the map.
fn height_at(world: &WorldMap, p: Point2D) -> (r: Option<usize>)
    ensures
        r is Some <==> on_map(world@, p),
        r matches Some(d) ==> d == column(world@, p).tiles@.len(),
{
    if p.1 < world.len() && p.0 < world[p.1].len() {
        Some(world[p.1][p.0].tiles.len())
    } else {
        None
    }
}

/// Whether the column at `(x, y)` lies inland; see `inland`.
fn is_inland(world: &WorldMap, x: usize, y: usize) -> (r: bool)
    requires
        on_map(world@, (x, y)),
    ensures
        r == inland(world@, x, y),
{
    let _rows = world.len();
    let _cols = world[y].len();
    let adj = strict_adjacent((x, y));
    let mut k: usize = 0;
    while k < adj.len()
        invariant
            adj@ == adjacent_points((x, y)),
            k <= adj@.len(),
            forall|j: int|
                0 <= j < k && on_map(world@, #[trigger] adjacent_points((x, y))[j]) ==> column(
                    world@,
                    adjacent_points((x, y))[j],
                ).tiles@.len() > SEA_LEVEL,
        decreases adj@.len() - k,
    {
        match height_at(world, adj[k]) {
            Some(d) => {
                if d <= SEA_LEVEL {
                    assert(on_map(world@, adjacent_points((x, y))[k as int]));
                    return false;
                }
            },
            None => {},
        }
        k += 1;
    }
    true
}

fn neighbour_sum(world: &WorldMap, x: usize, y: usize) -> (r: (usize, usize))
    requires
        on_map(world@, (x, y)),
        neighbour_heights(world@, x, y) <= usize::MAX,
    ensures
        r.0 == neighbour_heights(world@, x, y),
        r.1 == neighbours_on_map(world@, x, y),
        r.1 <= 4,
{
    let _rows = world.len();
    let _cols = world[y].len();
    let adj = strict_adjacent((x, y));
    let ghost a = adjacent_points((x, y));
    let mut sum: usize = 0;
    let mut n: usize = 0;
    let mut k: usize = 0;
    while k < adj.len()
        invariant
            adj@ == a,
            a == adjacent_points((x, y)),
            k <= a.len(),
            a.len() <= 4,
            neighbour_heights(world@, x, y) <= usize::MAX,
            sum == heights_sum(world@, a.take(k as int)),
            n == count_on_map(world@, a.take(k as int)),
            n <= k,
        decreases a.len() - k,
    {
        proof {
            assert(a.take(k + 1).drop_last() =~= a.take(k as int));
            lemma_sum_prefix(world@, a, k + 1);
        }
        match height_at(world, adj[k]) {
            Some(d) => {
                sum = sum + d;
                n = n + 1;
            },
            None => {},
        }
        k += 1;
    }
    assert(a.take(a.len() as int) =~= a);
    (sum, n)
}

/// The two maps have rows of the same lengths.
pub open spec fn same_shape(a: Seq<Vec<Unit>>, b: Seq<Vec<Unit>>) -> bool {
    &&& a.len() == b.len()
    &&& forall|y: int| 0 <= y < a.len() ==> #[trigger] a[y]@.len() == b[y]@.len()
}

/// Every column is at most as high as an `i32` counts.
pub open spec fn heights_fit(world: Seq<Vec<Unit>>) -> bool {
    forall|y: int, x: int|
        0 <= y < world.len() && 0 <= x < world[y]@.len() ==> (#[trigger] world[y]@[x]).tiles@.len()
            <= i32::MAX
}

/// Step 2: flooded columns become water as deep as they were high; the
/// rest stay as they were.
pub open spec fn water_step(world: Seq<Vec<Unit>>, r: Seq<Vec<Unit>>) -> bool {
    &&& same_shape(r, world)
    &&& forall|y: int, x: int|
        0 <= y < world.len() && 0 <= x < world[y]@.len() ==> if floods(world, x as usize, y as usize) {
            water_column(#[trigger] r[y]@[x], world[y]@[x].tiles@.len() as int)
        } else {
            r[y]@[x].same_as(&world[y]@[x])
        }
}

impl World {
    /// Step 2 of map generation: low rock becomes water of the same depth.
    /// Inland, where every neighbour rises above sea level, the water reaches
    /// two levels higher, which makes rivers and pools.
    pub fn water_from_low(world: WorldMap) -> (r: WorldMap)
        requires
            heights_fit(world@),
        ensures
            water_step(world@, r@),
    {
        let mut out: WorldMap = Vec::new();
        let mut y: usize = 0;
        while y < world.len()
            invariant
                heights_fit(world@),
                y <= world@.len(),
                out@.len() == y,
                forall|yy: int| 0 <= yy < y ==> #[trigger] out@[yy]@.len() == world@[yy]@.len(),
                forall|yy: int, x: int|
                    0 <= yy < y && 0 <= x < world@[yy]@.len() ==> if floods(
                        world@,
                        x as usize,
                        yy as usize,
                    ) {
                        water_column(#[trigger] out@[yy]@[x], world@[yy]@[x].tiles@.len() as int)
                    } else {
                        out@[yy]@[x].same_as(&world@[yy]@[x])
                    },
            decreases world@.len() - y,
        {
            let mut row: Vec<Unit> = Vec::new();
            let mut x: usize = 0;
            while x < world[y].len()
                invariant
                    heights_fit(world@),
                    y < world@.len(),
                    x <= world@[y as int]@.len(),
                    row@.len() == x,
                    forall|xx: int|
                        0 <= xx < x ==> if floods(world@, xx as usize, y) {
                            water_column(
                                #[trigger] row@[xx],
                                world@[y as int]@[xx].tiles@.len() as int,
                            )
                        } else {
                            row@[xx].same_as(&world@[y as int]@[xx])
                        },
                decreases world@[y as int]@.len() - x,
            {
                let unit = &world[y][x];
                let landlocked = is_inland(&world, x, y);
                let d = unit.tiles.len();
                assert(d <= i32::MAX) by {
                    assert(world@[y as int]@[x as int].tiles@.len() <= i32::MAX);
                }
                if d < SEA_LEVEL || (landlocked && d < SEA_LEVEL + 2) {
                    let mut tiles: Vec<Tile> = Vec::new();
                    let mut depth: usize = 0;
                    while depth < d
                        invariant
                            d <= i32::MAX,
                            depth <= d,
                            tiles@.len() == depth,
                            forall|k: int|
                                0 <= k < depth ==> (#[trigger] tiles@[k] matches Tile::Water(
                                    _,
                                    State::Liquid,
                                    dep,
                                ) && dep == d - k),
                        decreases d - depth,
                    {
                        tiles.push(
                            Tile::Water(World::purity(), State::Liquid, d as i32 - depth as i32),
                        );
                        depth += 1;
                    }
                    row.push(Unit { biome: Some(terrain::water_biome()), tiles });
                } else {
                    row.push(unit.clone());
                }
                x += 1;
            }
            out.push(row);
            y += 1;
        }
        out
    }
}

/// The biome a column gets in step 3: the one it has, or the one its noise
/// and the average height of its neighbours give.
pub open spec fn biome_after(world: Seq<Vec<Unit>>, noise: Seq<Vec<i32>>, x: int, y: int) -> Biome {
    match world[y]@[x].biome {
        Some(b) => b,
        None => biome_of(
            noise[y]@[x],
            (neighbour_heights(world, x as usize, y as usize) / neighbours_on_map(
                world,
                x as usize,
                y as usize,
            )) as i32,
        ),
    }
}

/// The noise grid has the map's shape.
pub open spec fn noise_fits(world: Seq<Vec<Unit>>, noise: Seq<Vec<i32>>) -> bool {
    &&& noise.len() == world.len()
    &&& forall|y: int| 0 <= y < world.len() ==> #[trigger] noise[y]@.len() == world[y]@.len()
}

/// The neighbours of every column are, summed, at most as high as an
/// `i32` counts.
pub open spec fn neighbour_heights_fit(world: Seq<Vec<Unit>>) -> bool {
    forall|y: usize, x: usize|
        y < world.len() && x < world[y as int]@.len() ==> #[trigger] neighbour_heights(world, x, y)
            <= i32::MAX
}

/// Step 3: every column gets a biome; the tiles stay.
pub open spec fn biome_step(world: Seq<Vec<Unit>>, noise: Seq<Vec<i32>>, r: Seq<Vec<Unit>>) -> bool {
    &&& same_shape(r, world)
    &&& forall|y: int, x: int|
        0 <= y < world.len() && 0 <= x < world[y]@.len() ==> {
            &&& (#[trigger] r[y]@[x]).tiles@ == world[y]@[x].tiles@
            &&& r[y]@[x].biome == Some(biome_after(world, noise, x, y))
        }
}

/// Every column has a biome.
pub open spec fn all_have_biomes(world: Seq<Vec<Unit>>) -> bool {
    forall|y: int, x: int|
        0 <= y < world.len() && 0 <= x < world[y]@.len() ==> (#[trigger] world[y]@[x]).biome is Some
}

/// Step 4: every column out of the water grows a plant on top.
pub open spec fn veg_step(world: Seq<Vec<Unit>>, noise: Seq<Vec<i32>>, r: Seq<Vec<Unit>>) -> bool {
    &&& same_shape(r, world)
    &&& forall|y: int, x: int|
        0 <= y < world.len() && 0 <= x < world[y]@.len() ==> {
            let before = world[y]@[x];
            let after = #[trigger] r[y]@[x];
            if before.biome->0.biome_type != BiomeType::Water {
                &&& after.biome == before.biome
                &&& after.tiles@.len() == before.tiles@.len() + 1
                &&& after.tiles@.drop_last() == before.tiles@
                &&& veg_fits(noise[y]@[x], before.biome->0, after.tiles@.last())
            } else {
                after.same_as(&before)
            }
        }
}

/// Step 5: the four levels above sea level turn to soil where the column
/// reaches them, each soil chosen from the neighbours at that level.
pub open spec fn soil_step(world: Seq<Vec<Unit>>, r: Seq<Vec<Unit>>) -> bool {
    &&& same_shape(r, world)
    &&& forall|y: int, x: int|
        0 <= y < world.len() && 0 <= x < world[y]@.len() ==> soil_column(world, x, y, #[trigger] r[y]@[x])
}

impl World {
    /// Step 3 of map generation: each column without a biome gets one from
    /// its biome noise and the average height of its neighbours; every
    /// column has a neighbour to average over.
    pub fn biomes_from_height_and_noise(world: WorldMap, noise: &Vec<Vec<i32>>) -> (r: WorldMap)
        requires
            noise_fits(world@, noise@),
            neighbour_heights_fit(world@),
            has_neighbours(world@),
        ensures
            biome_step(world@, noise@, r@),
    {
        let mut out: WorldMap = Vec::new();
        let mut y: usize = 0;
        while y < world.len()
            invariant
                noise_fits(world@, noise@),
                neighbour_heights_fit(world@),
                has_neighbours(world@),
                y <= world@.len(),
                out@.len() == y,
                forall|yy: int| 0 <= yy < y ==> #[trigger] out@[yy]@.len() == world@[yy]@.len(),
                forall|yy: int, x: int|
                    0 <= yy < y && 0 <= x < world@[yy]@.len() ==> {
                        &&& (#[trigger] out@[yy]@[x]).tiles@ == world@[yy]@[x].tiles@
                        &&& out@[yy]@[x].biome == Some(biome_after(world@, noise@, x, yy))
                    },
            decreases world@.len() - y,
        {
            let mut row: Vec<Unit> = Vec::new();
            let mut x: usize = 0;
            while x < world[y].len()
                invariant
                    noise_fits(world@, noise@),
                    neighbour_heights_fit(world@),
                    has_neighbours(world@),
                    y < world@.len(),
                    x <= world@[y as int]@.len(),
                    row@.len() == x,
                    forall|xx: int|
                        0 <= xx < x ==> {
                            &&& (#[trigger] row@[xx]).tiles@ == world@[y as int]@[xx].tiles@
                            &&& row@[xx].biome == Some(biome_after(world@, noise@, xx, y as int))
                        },
                decreases world@[y as int]@.len() - x,
            {
                let unit = &world[y][x];
                assert(neighbour_heights(world@, x, y) <= i32::MAX);
                let (sh, n) = neighbour_sum(&world, x, y);
                assert(neighbours_on_map(world@, x, y) >= 1);
                assert(noise@[y as int]@.len() == world@[y as int]@.len());
                let biome = match unit.biome {
                    Some(b) => b,
                    None => World::biome_from_noise(noise[y][x], sh as i32 / n as i32),
                };
                let copy = unit.clone();
                row.push(Unit { biome: Some(biome), tiles: copy.tiles });
                x += 1;
            }
            out.push(row);
            y += 1;
        }
        out
    }

    /// Step 4 of map generation: a plant, chosen by the vegetation noise
    /// and what survives in the biome, grows on each column out of the
    /// water.
    pub fn vegitation_from_biomes(world: WorldMap, noise: &Vec<Vec<i32>>) -> (r: WorldMap)
        requires
            noise_fits(world@, noise@),
            all_have_biomes(world@),
        ensures
            veg_step(world@, noise@, r@),
    {
        let mut out: WorldMap = Vec::new();
        let mut y: usize = 0;
        while y < world.len()
            invariant
                noise_fits(world@, noise@),
                all_have_biomes(world@),
                y <= world@.len(),
                out@.len() == y,
                forall|yy: int| 0 <= yy < y ==> #[trigger] out@[yy]@.len() == world@[yy]@.len(),
                forall|yy: int, x: int|
                    0 <= yy < y && 0 <= x < world@[yy]@.len() ==> {
                        let before = world@[yy]@[x];
                        let after = #[trigger] out@[yy]@[x];
                        if before.biome->0.biome_type != BiomeType::Water {
                            &&& after.biome == before.biome
                            &&& after.tiles@.len() == before.tiles@.len() + 1
                            &&& after.tiles@.drop_last() == before.tiles@
                            &&& veg_fits(noise@[yy]@[x], before.biome->0, after.tiles@.last())
                        } else {
                            after.same_as(&before)
                        }
                    },
            decreases world@.len() - y,
        {
            let mut row: Vec<Unit> = Vec::new();
            let mut x: usize = 0;
            while x < world[y].len()
                invariant
                    noise_fits(world@, noise@),
                    all_have_biomes(world@),
                    y < world@.len(),
                    x <= world@[y as int]@.len(),
                    row@.len() == x,
                    forall|xx: int|
                        0 <= xx < x ==> {
                            let before = world@[y as int]@[xx];
                            let after = #[trigger] row@[xx];
                            if before.biome->0.biome_type != BiomeType::Water {
                                &&& after.biome == before.biome
                                &&& after.tiles@.len() == before.tiles@.len() + 1
                                &&& after.tiles@.drop_last() == before.tiles@
                                &&& veg_fits(noise@[y as int]@[xx], before.biome->0, after.tiles@.last())
                            } else {
                                after.same_as(&before)
                            }
                        },
                decreases world@[y as int]@.len() - x,
            {
                let unit = &world[y][x];
                assert(world@[y as int]@[x as int].biome is Some);
                assert(noise@[y as int]@.len() == world@[y as int]@.len());
                let biome = unit.biome.unwrap();
                if biome.biome_type != BiomeType::Water {
                    let mut copy = unit.clone();
                    let ghost before_tiles = copy.tiles@;
                    copy.tiles.push(World::get_vegetation(noise[y][x], biome));
                    assert(copy.tiles@.drop_last() =~= before_tiles);
                    row.push(copy);
                } else {
                    row.push(unit.clone());
                }
                x += 1;
            }
            out.push(row);
            y += 1;
        }
        out
    }

    /// Step 5 of map generation: soil from sea level up.
    pub fn add_soil(world: WorldMap, seed: u32) -> (r: WorldMap)
        ensures
            soil_step(world@, r@),
    {
        let mut out: WorldMap = Vec::new();
        let mut y: usize = 0;
        while y < world.len()
            invariant
                y <= world@.len(),
                out@.len() == y,
                forall|yy: int| 0 <= yy < y ==> #[trigger] out@[yy]@.len() == world@[yy]@.len(),
                forall|yy: int, x: int|
                    0 <= yy < y && 0 <= x < world@[yy]@.len() ==> soil_column(
                        world@,
                        x,
                        yy,
                        #[trigger] out@[yy]@[x],
                    ),
            decreases world@.len() - y,
        {
            let mut row: Vec<Unit> = Vec::new();
            let mut x: usize = 0;
            while x < world[y].len()
                invariant
                    y < world@.len(),
                    x <= world@[y as int]@.len(),
                    row@.len() == x,
                    forall|xx: int| 0 <= xx < x ==> soil_column(world@, xx, y as int, #[trigger] row@[xx]),
                decreases world@[y as int]@.len() - x,
            {
                let _rows = world.len();
                let unit = &world[y][x];
                let mut t = unit.clone();
                let ghost before = unit.tiles@;
                let adj = strict_adjacent((x, y));
                let mut h: usize = SEA_LEVEL;
                while h < SEA_LEVEL + 4 && h < t.tiles.len()
                    invariant
                        y < world@.len(),
                        x < world@[y as int]@.len(),
                        before == world@[y as int]@[x as int].tiles@,
                        adj@ == adjacent_points((x, y)),
                        SEA_LEVEL <= h <= SEA_LEVEL + 4,
                        t.biome == world@[y as int]@[x as int].biome,
                        t.tiles@.len() == before.len(),
                        forall|k: int|
                            0 <= k < before.len() ==> if SEA_LEVEL <= k < h {
                                soil_at(world@, x, y, k, #[trigger] t.tiles@[k])
                            } else {
                                t.tiles@[k] == before[k]
                            },
                        h > before.len() ==> h == SEA_LEVEL,
                    decreases SEA_LEVEL + 4 - h,
                {
                    let mut near: Vec<Tile> = Vec::new();
                    let mut k: usize = 0;
                    while k < adj.len()
                        invariant
                            adj@ == adjacent_points((x, y)),
                            k <= adj@.len(),
                            near@ == neighbour_tiles(world@, x, y, h as int).subrange(0, k as int),
                        decreases adj@.len() - k,
                    {
                        let p = adj[k];
                        let tile = if p.1 < world.len() && p.0 < world[p.1].len() {
                            if h < world[p.1][p.0].tiles.len() {
                                world[p.1][p.0].tiles[h]
                            } else {
                                Tile::Empty
                            }
                        } else {
                            Tile::Empty
                        };
                        near.push(tile);
                        k += 1;
                    }
                    assert(near@ =~= neighbour_tiles(world@, x, y, h as int));
                    let soil = World::soil_choice(&near, seed);
                    let ghost prev = t.tiles@;
                    t.tiles.set(h, Tile::Stone(StoneTypes::Soil(soil), State::Solid));
                    proof {
                        let roll = choose|roll: usize| roll < 100 && soil == soil_rule(near@, roll);
                        assert(soil == soil_rule(neighbour_tiles(world@, x, y, h as int), roll));
                        assert(soil_at(world@, x, y, h as int, t.tiles@[h as int]));
                        assert forall|k: int| 0 <= k < before.len() && k != h implies t.tiles@[k]
                            == prev[k] by {}
                    }
                    h += 1;
                }
                assert(soil_column(world@, x as int, y as int, t)) by {
                    assert forall|k: int| 0 <= k < before.len() implies if SEA_LEVEL <= k < SEA_LEVEL + 4 {
                        soil_at(world@, x, y, k, #[trigger] t.tiles@[k])
                    } else {
                        t.tiles@[k] == before[k]
                    } by {
                        if SEA_LEVEL <= k < SEA_LEVEL + 4 {
                            assert(k < h);
                        }
                    }
                }
                row.push(t);
                x += 1;
            }
            out.push(row);
            y += 1;
        }
        out
    }
}

/// A soil tile at level `h` of the column at `(x, y)` chosen from its
/// neighbours there with some roll.
pub open spec fn soil_at(world: Seq<Vec<Unit>>, x: usize, y: usize, h: int, t: Tile) -> bool {
    match t {
        Tile::Stone(StoneTypes::Soil(soil), State::Solid) => exists|roll: usize|
            roll < 100 && soil == #[trigger] soil_rule(neighbour_tiles(world, x, y, h), roll),
        _ => false,
    }
}

/// A column after step 5.
pub open spec fn soil_column(world: Seq<Vec<Unit>>, x: int, y: int, after: Unit) -> bool {
    let before = world[y]@[x];
    &&& after.biome == before.biome
    &&& after.tiles@.len() == before.tiles@.len()
    &&& forall|h: int|
        0 <= h < before.tiles@.len() ==> if SEA_LEVEL <= h < SEA_LEVEL + 4 {
            soil_at(world, x as usize, y as usize, h, #[trigger] after.tiles@[h])
        } else {
            after.tiles@[h] == before.tiles@[h]
        }
}

/// What the five steps of generation make of the samples: rock, then
/// water, biomes, plants and soil.
pub open spec fn generated(samples: &TerrainSamples, size: Point2D, m: Seq<Vec<Unit>>) -> bool {
    exists|rock: Seq<Vec<Unit>>, water: Seq<Vec<Unit>>, biomes: Seq<Vec<Unit>>, plants: Seq<Vec<Unit>>|
        #![trigger rock_step(samples, size, rock), water_step(rock, water), biome_step(water, samples.biome_noise@, biomes), soil_step(plants, m)]
        {
            &&& rock_step(samples, size, rock)
            &&& water_step(rock, water)
            &&& biome_step(water, samples.biome_noise@, biomes)
            &&& veg_step(biomes, samples.veg_noise@, plants)
            &&& soil_step(plants, m)
        }
}

/// Every column of a generated map has a biome: the biomes are given to
/// every column, and plants and soil leave them.
pub proof fn lemma_generated_biomes(samples: &TerrainSamples, size: Point2D, m: Seq<Vec<Unit>>)
    requires
        generated(samples, size, m),
    ensures
        all_have_biomes(m),
{
    let (rock, water, biomes, plants) = choose|rock: Seq<Vec<Unit>>, water: Seq<Vec<Unit>>, biomes: Seq<Vec<Unit>>, plants: Seq<Vec<Unit>>|
        #![trigger rock_step(samples, size, rock), water_step(rock, water), biome_step(water, samples.biome_noise@, biomes), soil_step(plants, m)]
        {
            &&& rock_step(samples, size, rock)
            &&& water_step(rock, water)
            &&& biome_step(water, samples.biome_noise@, biomes)
            &&& veg_step(biomes, samples.veg_noise@, plants)
            &&& soil_step(plants, m)
        };
    assert forall|y: int, x: int| 0 <= y < m.len() && 0 <= x < m[y]@.len() implies (#[trigger] m[y]@[x]).biome is Some by {
        assert(m[y]@.len() == plants[y]@.len());
        assert(plants[y]@.len() == biomes[y]@.len());
        assert(biomes[y]@.len() == water[y]@.len());
        assert(soil_column(plants, x, y, m[y]@[x]));
        assert(biomes[y]@[x].biome is Some);
    }
}

/// No column of the samples is higher than a quarter of what an `i32`
/// counts, so that the heights around any column add up within an `i32`.
pub open spec fn heights_small(samples: &TerrainSamples) -> bool {
    forall|y: int, x: int|
        0 <= y < samples.heights@.len() && 0 <= x < samples.heights@[y]@.len() ==> #[trigger] samples.heights@[y]@[x]
            <= i32::MAX / 4
}

proof fn lemma_neighbour_heights_bounded(world: Seq<Vec<Unit>>, bound: int)
    requires
        forall|y: int, x: int|
            0 <= y < world.len() && 0 <= x < world[y]@.len() ==> (#[trigger] world[y]@[x]).tiles@.len()
                <= bound,
        0 <= bound <= i32::MAX / 4,
    ensures
        neighbour_heights_fit(world),
{
    assert forall|y: usize, x: usize| y < world.len() && x < world[y as int]@.len() implies #[trigger] neighbour_heights(
        world,
        x,
        y,
    ) <= i32::MAX by {
        let a = adjacent_points((x, y));
        assert forall|k: int| 0 <= k < a.len() implies neighbour_height(world, #[trigger] a[k]) <= bound by {
            if on_map(world, a[k]) {
                assert(column(world, a[k]).tiles@.len() <= bound);
            }
        }
        lemma_sum_bounded(world, a, bound);
        assert(a.len() * bound <= 4 * bound) by (nonlinear_arith)
            requires a.len() <= 4, 0 <= bound;
    }
}

impl World {
    /// Generates the map from the terrain samples in five steps: rock,
    /// water, biomes, plants and soil.
    pub fn map_from(size: Point2D, samples: &TerrainSamples, seed: u32) -> (m: WorldMap)
        requires
            samples.fits(size),
            heights_small(samples),
            size.0 > 1 || size.1 > 1,
        ensures
            generated(samples, size, m@),
            map_shaped(m@, size),
    {
        let rock = World::rock_from_terrain(samples, size);
        assert(heights_fit(rock@)) by {
            assert forall|y: int, x: int|
                0 <= y < rock@.len() && 0 <= x < rock@[y]@.len() implies (#[trigger] rock@[y]@[x]).tiles@.len()
                <= i32::MAX by {
                assert(samples.heights@[y]@.len() == size.0);
                assert(rock@[y]@[x].tiles@ == samples.rock_column(x, y));
            }
        }
        let ghost r1 = rock@;
        let water = World::water_from_low(rock);
        let ghost r2 = water@;
        proof {
            assert forall|y: int, x: int|
                0 <= y < r2.len() && 0 <= x < r2[y]@.len() implies (#[trigger] r2[y]@[x]).tiles@.len()
                <= i32::MAX / 4 by {
                assert(r1[y]@.len() == size.0);
                assert(samples.heights@[y]@.len() == size.0);
                assert(r1[y]@[x].tiles@ == samples.rock_column(x, y));
                if floods(r1, x as usize, y as usize) {
                    assert(water_column(r2[y]@[x], r1[y]@[x].tiles@.len() as int));
                } else {
                    assert(r2[y]@[x].same_as(&r1[y]@[x]));
                }
            }
            lemma_neighbour_heights_bounded(r2, i32::MAX / 4);
            assert forall|y: int| 0 <= y < size.1 implies #[trigger] r2[y]@.len() == size.0 by {
                assert(r1[y]@.len() == size.0);
                assert(r2[y]@.len() == r1[y]@.len());
            }
            lemma_has_neighbours(r2, size);
            assert forall|y: int| 0 <= y < r2.len() implies #[trigger] samples.biome_noise@[y]@.len()
                == r2[y]@.len() by {
                assert(r1[y]@.len() == size.0);
                assert(r2[y]@.len() == r1[y]@.len());
                assert(samples.heights@[y]@.len() == size.0);
            }
        }
        let biomes = World::biomes_from_height_and_noise(water, &samples.biome_noise);
        let ghost r3 = biomes@;
        proof {
            assert forall|y: int| 0 <= y < r3.len() implies #[trigger] samples.veg_noise@[y]@.len()
                == r3[y]@.len() by {
                assert(r1[y]@.len() == size.0);
                assert(r2[y]@.len() == r1[y]@.len());
                assert(r3[y]@.len() == r2[y]@.len());
                assert(samples.heights@[y]@.len() == size.0);
            }
            assert forall|y: int, x: int| 0 <= y < r3.len() && 0 <= x < r3[y]@.len() implies (
            #[trigger] r3[y]@[x]).biome is Some by {
                assert(r2[y]@.len() == r3[y]@.len());
            }
        }
        let plants = World::vegitation_from_biomes(biomes, &samples.veg_noise);
        let ghost r4 = plants@;
        let m = World::add_soil(plants, seed);
        proof {
            assert(soil_step(r4, m@));
            assert forall|y: int| 0 <= y < size.1 implies #[trigger] m@[y]@.len() == size.0 by {
                assert(r1[y]@.len() == size.0);
                assert(r2[y]@.len() == r1[y]@.len());
                assert(r3[y]@.len() == r2[y]@.len());
                assert(r4[y]@.len() == r3[y]@.len());
            }
        }
        m
    }
}

/// The species of the first choice in a forest: dogs where it is warm,
/// wolves where it is cold, cats in between.
pub open spec fn forest_hunter(biome: Biome) -> Species {
    if biome.temperature_day_f > 70 {
        Species::Carnivore(Carnivore::Dog)
    } else if biome.temperature_day_f < 60 {
        Species::Carnivore(Carnivore::Wolf)
    } else {
        Species::Carnivore(Carnivore::Cat)
    }
}

/// The species that may be born in a biome. Water holds whales where its
/// nights are cold, sharks where its days are hot and fish otherwise;
/// deserts and beaches hold none.
pub open spec fn settles(biome: Biome, s: Species) -> bool {
    match biome.biome_type {
        BiomeType::Water => s == if biome.temperature_night_f < 50 {
            Species::Herbivore(Herbivore::Whale)
        } else if biome.temperature_day_f > 80 {
            Species::Carnivore(Carnivore::Shark)
        } else {
            Species::Herbivore(Herbivore::Fish)
        },
        BiomeType::Desert | BiomeType::Beach => false,
        BiomeType::Forest => s == forest_hunter(biome) || s == Species::Herbivore(Herbivore::Rabbit)
            || s == Species::Carnivore(Carnivore::Wolf),
        BiomeType::Jungle => s == Species::Herbivore(Herbivore::Hippo) || s == Species::Carnivore(
            Carnivore::Alligator,
        ) || s == Species::Carnivore(Carnivore::Wolf) || s == Species::Herbivore(Herbivore::Fish),
        BiomeType::Pasture => s == Species::Herbivore(Herbivore::Sheep) || s == Species::Herbivore(
            Herbivore::Cow,
        ) || s == Species::Herbivore(Herbivore::Rabbit) || s == Species::Herbivore(
            Herbivore::Armadillo,
        ) || s == Species::Carnivore(Carnivore::Dog) || s == Species::Carnivore(Carnivore::Cat),
        BiomeType::Swamp => s == Species::Carnivore(Carnivore::Alligator) || s == Species::Carnivore(
            Carnivore::Shark,
        ) || s == Species::Herbivore(Herbivore::Fish) || s == Species::Herbivore(Herbivore::Hippo)
            || s == Species::Herbivore(Herbivore::Armadillo),
    }
}

/// One of the species, drawn at random.
fn pick_species(options: Vec<Species>) -> (s: Species)
    requires
        options@.len() > 0,
    ensures
        options@.contains(s),
{
    match rng::pick(options.as_slice()) {
        Some(s) => s,
        None => options[0],
    }
}

/// `b` is `a` populated: the same map, with up to `ANIMAL_COUNT` new
/// animals, each at a column of the map on its first empty level, newly
/// born of a species suited to the column's biome.
pub open spec fn populated(a: World, b: World) -> bool {
    &&& b.map@ == a.map@
    &&& b.map_size == a.map_size
    &&& b.frames == a.frames
    &&& b.life@.len() <= ANIMAL_COUNT
    &&& forall|i: int|
        0 <= i < b.life@.len() ==> {
            let x = #[trigger] b.life@[i];
            &&& a.inside((x.pos.0, x.pos.1))
            &&& x.pos.2 == first_empty(a.unit_at((x.pos.0, x.pos.1)).tiles@)
            &&& exists|s: Species| settles(a.unit_at((x.pos.0, x.pos.1)).biome->0, s) && newborn(x, x.pos, s)
        }
}

impl World {
    /// Generates a new world of the given size from the samples of its
    /// terrain. The frames of the water animation are set up and no animal
    /// lives in it yet.
    pub fn new(size: Point2D, seed: u32, samples: &TerrainSamples) -> (w: World)
        requires
            samples.fits(size),
            heights_small(samples),
            size.0 > 1 || size.1 > 1,
        ensures
            w.well_formed(),
            w.map_size == size,
            generated(samples, size, w.map@),
            w.life@.len() == 0,
            w.frames.water.current == 0,
            w.frames.water.all@ == seq![16usize, 32, 33, 34, 35, 36],
    {
        let map = World::map_from(size, samples, seed);
        World {
            map_size: size,
            frames: Frames { water: FrameAssoc { current: 0, all: vec![16, 32, 33, 34, 35, 36] } },
            map,
            life: Vec::new(),
        }
    }

    /// An animal suited to the biome, drawn at random, at `pnt`; deserts
    /// and beaches get none.
    pub fn create_life_by_biome(pnt: Point3D, biome: Biome) -> (r: Option<Animal>)
        ensures
            r is None <==> (biome.biome_type == BiomeType::Desert || biome.biome_type
                == BiomeType::Beach),
            r matches Some(a) ==> exists|s: Species| settles(biome, s) && newborn(a, pnt, s),
    {
        let species = match biome.biome_type {
            BiomeType::Water => {
                if biome.temperature_night_f < 50 {
                    Species::Herbivore(Herbivore::Whale)
                } else if biome.temperature_day_f > 80 {
                    Species::Carnivore(Carnivore::Shark)
                } else {
                    Species::Herbivore(Herbivore::Fish)
                }
            },
            BiomeType::Desert | BiomeType::Beach => {
                return None;
            },
            BiomeType::Forest => pick_species(
                vec![
                    if biome.temperature_day_f > 70 {
                        Species::Carnivore(Carnivore::Dog)
                    } else if biome.temperature_day_f < 60 {
                        Species::Carnivore(Carnivore::Wolf)
                    } else {
                        Species::Carnivore(Carnivore::Cat)
                    },
                    Species::Herbivore(Herbivore::Rabbit),
                    Species::Carnivore(Carnivore::Wolf),
                ],
            ),
            BiomeType::Jungle => pick_species(
                vec![
                    Species::Herbivore(Herbivore::Hippo),
                    Species::Carnivore(Carnivore::Alligator),
                    Species::Carnivore(Carnivore::Wolf),
                    Species::Herbivore(Herbivore::Fish),
                ],
            ),
            BiomeType::Pasture => pick_species(
                vec![
                    Species::Herbivore(Herbivore::Sheep),
                    Species::Herbivore(Herbivore::Cow),
                    Species::Herbivore(Herbivore::Rabbit),
                    Species::Herbivore(Herbivore::Armadillo),
                    Species::Carnivore(Carnivore::Dog),
                    Species::Carnivore(Carnivore::Cat),
                ],
            ),
            BiomeType::Swamp => pick_species(
                vec![
                    Species::Carnivore(Carnivore::Alligator),
                    Species::Carnivore(Carnivore::Shark),
                    Species::Herbivore(Herbivore::Fish),
                    Species::Herbivore(Herbivore::Hippo),
                    Species::Herbivore(Herbivore::Armadillo),
                ],
            ),
        };
        let a = Animal::new(pnt, species);
        assert(settles(biome, species));
        Some(a)
    }

    /// Populates the world: up to `ANIMAL_COUNT` animals, each at a random
    /// column, on its first empty level, of a species suited to the
    /// column's biome. Draws that land on a desert or a beach give none.
    pub fn generate_life(&mut self)
        requires
            old(self).well_formed(),
            old(self).map_size.0 > 0,
            old(self).map_size.1 > 0,
            all_have_biomes(old(self).map@),
        ensures
            final(self).well_formed(),
            populated(*old(self), *final(self)),
    {
        let mut life: Vec<Animal> = Vec::new();
        let mut num: usize = 0;
        while num < ANIMAL_COUNT
            invariant
                self.well_formed(),
                self.map_size.0 > 0,
                self.map_size.1 > 0,
                all_have_biomes(self.map@),
                num <= ANIMAL_COUNT,
                life@.len() <= num,
                forall|i: int|
                    0 <= i < life@.len() ==> {
                        let a = #[trigger] life@[i];
                        &&& self.inside((a.pos.0, a.pos.1))
                        &&& a.pos.2 == first_empty(self.unit_at((a.pos.0, a.pos.1)).tiles@)
                        &&& exists|s: Species|
                            settles(self.unit_at((a.pos.0, a.pos.1)).biome->0, s) && newborn(
                                a,
                                a.pos,
                                s,
                            )
                    },
            decreases ANIMAL_COUNT - num,
        {
            let x = rng::gen_range(0, self.map_size.0);
            let y = rng::gen_range(0, self.map_size.1);
            if let Some(unit) = self.get((x, y)) {
                assert(self.map@[y as int]@.len() == self.map_size.0);
                assert(self.unit_at((x, y)).biome is Some);
                let z = self.location_z((x, y));
                if let Some(animal) = World::create_life_by_biome((x, y, z), unit.biome.unwrap()) {
                    life.push(animal);
                }
            }
            num += 1;
        }
        self.life = life;
    }
}

/// Searching outwards from level `from`, `d` levels away and beyond: the
/// first empty level found, looking down before up, or the column's
/// height when there is none.
pub open spec fn closest_search(t: Seq<Tile>, from: int, d: int) -> int
    decreases (if from > t.len() { from } else { t.len() as int }) + 1 - d,
{
    let bound = if from > t.len() { from } else { t.len() as int };
    if d > bound || d < 0 {
        t.len() as int
    } else if d <= from && from - d < t.len() && t[from - d] is Empty {
        from - d
    } else if from + d < t.len() && t[from + d] is Empty {
        from + d
    } else {
        closest_search(t, from, d + 1)
    }
}

/// The empty level of a column closest to `from`, the lower one on a tie;
/// the column's height when it has no empty level.
pub open spec fn closest_empty(t: Seq<Tile>, from: int) -> int {
    closest_search(t, from, 0)
}

impl World {
    /// The level an animal at level `from` reaches on the column at `pnt`:
    /// its empty level closest to `from`. Off the map it is ten million, as
    /// for `location_z`.
    pub fn location_z_from_to(&self, from: usize, pnt: Point2D) -> (z: usize)
        requires
            self.well_formed(),
        ensures
            self.inside(pnt) ==> z == closest_empty(self.unit_at(pnt).tiles@, from as int),
            !self.inside(pnt) ==> z == 10000000,
    {
        if !self.located_inside(pnt) {
            return 10000000;
        }
        let t = &self.map[pnt.1][pnt.0].tiles;
        assert(t@ == self.unit_at(pnt).tiles@);
        let len = t.len();
        let bound = if from > len { from } else { len };
        let mut d: usize = 0;
        while d <= bound
            invariant
                self.inside(pnt),
                t@ == self.unit_at(pnt).tiles@,
                len == t@.len(),
                bound == if from > t@.len() { from as int } else { t@.len() as int },
                d <= bound + 1,
                closest_empty(t@, from as int) == closest_search(t@, from as int, d as int),
            decreases bound + 1 - d,
        {
            if d <= from && from - d < len {
                let below = from - d;
                if matches!(t[below], Tile::Empty) {
                    return below;
                }
            }
            if from < len && d < len - from {
                let above = from + d;
                if matches!(t[above], Tile::Empty) {
                    return above;
                }
            }
            if d == bound {
                assert(closest_search(t@, from as int, d as int + 1) == t@.len());
                return len;
            }
            d += 1;
        }
        len
    }
}


/// In a forest, the hunter born depends on the warmth of its days: where
/// they are below 60 no dog is born, and where they are above 70 a dog may
/// be born. Rabbits and wolves may be born in any forest.
pub proof fn law_forest_hunters(pnt: Point3D, biome: Biome, r: Option<Animal>)
    requires
        biome.biome_type == BiomeType::Forest,
        r matches Some(a) ==> exists|s: Species| settles(biome, s) && newborn(a, pnt, s),
    ensures
        biome.temperature_day_f < 60 ==> (r matches Some(a) ==> a.species.species != Species::Carnivore(Carnivore::Dog)),
        biome.temperature_day_f < 60 ==> !settles(biome, Species::Carnivore(Carnivore::Dog)),
        biome.temperature_day_f > 70 ==> settles(biome, Species::Carnivore(Carnivore::Dog)),
        settles(biome, Species::Herbivore(Herbivore::Rabbit)),
        settles(biome, Species::Carnivore(Carnivore::Wolf)),
{
    if r is Some {
        let a = r->0;
        let s = choose|s: Species| settles(biome, s) && newborn(a, pnt, s);
        assert(a.species == spec_properties(s));
        assert(spec_properties(s).species == s);
    }
}

} // verus!
