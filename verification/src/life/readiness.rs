//! Whether an animal's next step can be carried out on the map, tested
//! before the step is taken.
use vstd::prelude::*;
use crate::life::animal::{Animal, HUNGER_THRESHOLD, THIRST_THRESHOLD};
use crate::life::behaviour::{
    column_is_shore, dies_now, drink_safe, life_inside, life_small, mission_fits, next_goal, plan_ready,
    plans, ready_to_act, self_directable, shore_search_safe, sight, water_at,
};
use crate::life::Mission;
use crate::physics::PhysicsActor;
use crate::utils::{adjacent_points, can_measure_perimeter, nearest_perimeter_point, small, strict_adjacent, Point2D, Point3D};
use crate::worldgen::terrain::BiomeType;
use crate::worldgen::World;

verus! {

/// Whether the mission fits the map from `pos`.
fn mission_fits_now(map: &World, pos: Point3D, m: Mission) -> (r: bool)
    requires
        map.well_formed(),
    ensures
        r == mission_fits(map, pos, m),
{
    match m {
        Mission::Go(p, _) => map.located_inside(p),
        Mission::GoToArea(rect, _) => {
            let limit: usize = 0x7fff_ffff;
            if rect.0.0 <= limit && rect.0.1 <= limit && rect.1.0 <= limit && rect.1.1 <= limit
                && can_measure_perimeter(rect, pos) {
                let t = nearest_perimeter_point(rect, pos);
                map.located_inside((t.0, t.1))
            } else {
                false
            }
        },
        _ => true,
    }
}

/// Whether every animal stands on the map, at a small point.
fn life_placed(map: &World) -> (r: bool)
    requires
        map.well_formed(),
    ensures
        r == (life_small(map.life@) && life_inside(map)),
{
    let mut j: usize = 0;
    while j < map.life.len()
        invariant
            map.well_formed(),
            j <= map.life@.len(),
            forall|k: int| 0 <= k < j ==> small(#[trigger] map.life@[k].pos),
            forall|k: int| 0 <= k < j ==> map.inside(((#[trigger] map.life@[k]).pos.0, map.life@[k].pos.1)),
        decreases map.life@.len() - j,
    {
        let p = map.life[j].pos;
        if !(p.0 < 0x100000 && p.1 < 0x100000 && p.2 < 0x100000) {
            return false;
        }
        if !map.located_inside((p.0, p.1)) {
            return false;
        }
        j += 1;
    }
    true
}

/// Whether every animal stands at a small point.
fn life_small_now(map: &World) -> (r: bool)
    ensures
        r == life_small(map.life@),
{
    let mut j: usize = 0;
    while j < map.life.len()
        invariant
            j <= map.life@.len(),
            forall|k: int| 0 <= k < j ==> small(#[trigger] map.life@[k].pos),
        decreases map.life@.len() - j,
    {
        let p = map.life[j].pos;
        if !(p.0 < 0x100000 && p.1 < 0x100000 && p.2 < 0x100000) {
            return false;
        }
        j += 1;
    }
    true
}

/// Whether the search for a shore around the column `q` can be made.
fn shore_search_ok(map: &World, q: Point2D) -> (r: bool)
    requires
        map.well_formed(),
        map.inside(q),
    ensures
        r == shore_search_safe(map, adjacent_points(q), 0),
{
    let adj = strict_adjacent(q);
    let mut k: usize = 0;
    while k < adj.len()
        invariant
            map.well_formed(),
            adj@ == adjacent_points(q),
            k <= adj@.len(),
            shore_search_safe(map, adj@, 0) == shore_search_safe(map, adj@, k as int),
        decreases adj@.len() - k,
    {
        let p = adj[k];
        if !map.located_inside(p) {
            return false;
        }
        let t = &map.map[p.1][p.0].tiles;
        if !(t.len() == 0 || t[0].solid()) {
            return false;
        }
        if column_is_shore(t) {
            return true;
        }
        k += 1;
    }
    true
}

/// Whether, around every column of water, the search for a shore can be
/// made.
fn shores_searchable(map: &World) -> (r: bool)
    requires
        map.well_formed(),
    ensures
        r == drink_safe(map),
{
    let mut y: usize = 0;
    while y < map.map_size.1
        invariant
            map.well_formed(),
            y <= map.map_size.1,
            forall|q: Point2D| water_at(map, q) && q.1 < y ==> shore_search_safe(map, adjacent_points(q), 0),
        decreases map.map_size.1 - y,
    {
        let mut x: usize = 0;
        while x < map.map_size.0
            invariant
                map.well_formed(),
                y < map.map_size.1,
                x <= map.map_size.0,
                forall|q: Point2D|
                    water_at(map, q) && (q.1 < y || (q.1 == y && q.0 < x)) ==> shore_search_safe(
                        map,
                        adjacent_points(q),
                        0,
                    ),
            decreases map.map_size.0 - x,
        {
            let is_water = match map.map[y][x].biome {
                Some(b) => b.biome_type == BiomeType::Water,
                None => false,
            };
            if is_water {
                if !shore_search_ok(map, (x, y)) {
                    assert(water_at(map, (x, y)));
                    return false;
                }
            }
            x += 1;
        }
        y += 1;
    }
    true
}

impl Animal {
    /// Whether the animal's next step can be carried out on the map; see
    /// `ready_to_act`.
    pub fn ready(&self, map: &World) -> (r: bool)
        ensures
            r == ready_to_act(*self, map),
    {
        if !map.is_well_formed() || !self.goals_in_order() {
            return false;
        }
        let room = if self.path.is_some() {
            self.thirst <= i32::MAX - 10 && self.hunger <= i32::MAX - 10
        } else if self.arrived {
            self.thirst <= i32::MAX - 10
        } else {
            true
        };
        if !room {
            return false;
        }
        let dying = self.thirst >= THIRST_THRESHOLD || self.hunger >= HUNGER_THRESHOLD;
        let small_pos = self.pos.0 < 0x100000 && self.pos.1 < 0x100000 && self.pos.2 < 0x100000;
        let adj = self.in_sight(map);
        let next = if self.current_goal.is_some() {
            self.current_goal
        } else if self.goals.len() > 0 {
            Some(self.goals[self.goals.len() - 1])
        } else {
            None
        };
        assert(next == next_goal(*self));
        if next.is_none() && !dying {
            if map.map_size.0 == 0 || map.map_size.1 == 0 || !small_pos || !life_placed(map) {
                return false;
            }
        }
        if self.path.is_none() && !self.arrived {
            let first_on_map = adj.len() > 0 && map.located_inside((adj[0].1.0, adj[0].1.1));
            match next {
                Some(m) => {
                    let plans = match m {
                        Mission::Die | Mission::PickFood(_) | Mission::Obey(_, _) => false,
                        _ => true,
                    };
                    if plans {
                        if !map.is_small() || !small_pos || !life_small_now(map) || !mission_fits_now(map, self.pos, m) {
                            return false;
                        }
                        if adj.len() > 0 {
                            if let Mission::Drink(_) = m {
                                if !shores_searchable(map) {
                                    return false;
                                }
                            }
                            if let Mission::AttackEnemy(_) = m {
                                if !first_on_map && self.enemy_near(&map.life) {
                                    return false;
                                }
                            }
                        }
                    }
                },
                None => {
                    if !dying {
                        if !map.is_small() || !small_pos {
                            return false;
                        }
                        if adj.len() > 0 {
                            if !shores_searchable(map) {
                                return false;
                            }
                            if !first_on_map && self.enemy_near(&map.life) {
                                return false;
                            }
                        }
                    }
                },
            }
        }
        true
    }
}

} // verus!
