//! Points, neighbourhoods, distances and clamping.
use vstd::prelude::*;
use vstd::std_specs::cmp::OrdSpec;
use core::cmp::Ordering;
use crate::life::animal::{may_go, SpeciesProperties};
use crate::rng;
use crate::worldgen::terrain::{tile_solid, Tile};
use crate::worldgen::{closest_empty, World};
use crate::physics::PhysicsActor;

verus! {

pub type Point2D = (usize, usize);
pub type Point3D = (usize, usize, usize);
pub type Rect2D3D = ((usize, usize), (usize, usize), usize);
pub type Rect2D = ((usize, usize), (usize, usize));

/// One step back along an axis, stopping at zero.
pub open spec fn back(v: usize) -> usize {
    if v == 0 { 0 } else { (v - 1) as usize }
}

/// The points next to `p`, right, left, up and down, leaving out those
/// that would fall below zero.
pub open spec fn adjacent_points(p: Point2D) -> Seq<Point2D> {
    seq![((p.0 + 1) as usize, p.1)] + (if p.0 > 0 { seq![((p.0 - 1) as usize, p.1)] } else { Seq::empty() })
        + (if p.1 > 0 { seq![(p.0, (p.1 - 1) as usize)] } else { Seq::empty() }) + seq![(p.0, (p.1 + 1) as usize)]
}

/// Returns the coordinates adjacent to the given point.
pub fn strict_adjacent(p: (usize, usize)) -> (r: Vec<(usize, usize)>)
    requires
        p.0 < usize::MAX,
        p.1 < usize::MAX,
    ensures
        r@ == adjacent_points(p),
{
    let (x, y) = p;
    let mut v: Vec<(usize, usize)> = Vec::new();
    v.push((x + 1, y));
    if x > 0 {
        v.push((x - 1, y));
    }
    if y > 0 {
        v.push((x, y - 1));
    }
    v.push((x, y + 1));
    assert(v@ =~= adjacent_points(p));
    v
}

/// The points adjacent to a point are those one step away along one axis,
/// and the point itself is not among them.
pub proof fn law_adjacent_are_neighbours(p: Point2D, q: Point2D)
    requires
        p.0 < usize::MAX,
        p.1 < usize::MAX,
    ensures
        adjacent_points(p).contains(q) <==> abs_diff(q.0 as int, p.0 as int) + abs_diff(q.1 as int, p.1 as int) == 1,
        !adjacent_points(p).contains(p),
{
    let a = adjacent_points(p);
    if abs_diff(q.0 as int, p.0 as int) + abs_diff(q.1 as int, p.1 as int) == 1 {
        if q.0 == p.0 + 1 {
            assert(a[0] == q);
        } else if q.0 + 1 == p.0 {
            assert(a[1] == q);
        } else if q.1 + 1 == p.1 {
            assert(a[a.len() - 2] == q);
        } else {
            assert(a[a.len() - 1] == q);
        }
    }
}

/// Returns the coordinates adjacent to the given point, and the point itself.
pub fn weak_adjacent(p: Point2D) -> (r: Vec<Point2D>)
    requires
        p.0 < usize::MAX,
        p.1 < usize::MAX,
    ensures
        r@ == adjacent_points(p).push(p),
{
    let mut v = strict_adjacent(p);
    v.push(p);
    v
}

/// `value` raised to at least `min`, then lowered to at most `max`.
pub open spec fn spec_clamp<T: Ord>(value: T, max: T, min: T) -> T {
    let raised = if value.cmp_spec(&min) == Ordering::Less { min } else { value };
    if raised.cmp_spec(&max) == Ordering::Less { raised } else { max }
}

/// Makes sure a value is between two others: the result is
/// `min(max, max(min, value))`.
pub fn clamp<T: Ord>(value: T, max: T, min: T) -> (r: T)
    ensures
        T::obeys_cmp_spec() ==> r == spec_clamp(value, max, min),
{
    max.min(min.max(value))
}

/// Clamping on integers, in arithmetic terms.
pub open spec fn clamp_int(value: int, max: int, min: int) -> int {
    let raised = if value < min { min } else { value };
    if raised < max { raised } else { max }
}

pub proof fn lemma_clamp_usize(value: usize, max: usize, min: usize)
    ensures
        spec_clamp(value, max, min) as int == clamp_int(value as int, max as int, min as int),
{
}

pub proof fn lemma_clamp_i32(value: i32, max: i32, min: i32)
    ensures
        spec_clamp(value, max, min) as int == clamp_int(value as int, max as int, min as int),
{
}

/// Clamping keeps a value between the bounds, when the lower bound is not
/// above the upper, and leaves a value already between them as it is.
pub proof fn law_clamp_within(value: int, max: int, min: int)
    requires
        min <= max,
    ensures
        min <= clamp_int(value, max, min) <= max,
        min <= value <= max ==> clamp_int(value, max, min) == value,
{
}

pub open spec fn abs_diff(a: int, b: int) -> int {
    if a < b { b - a } else { a - b }
}

/// The point of the rectangle's border nearest to `p` once `p` is clamped
/// between the corners; ties go to the top, bottom, left and right edges in
/// that order. The level is kept.
pub open spec fn nearest_on_perimeter(rect: Rect2D3D, p: Point3D) -> Point3D {
    let (x1, y1) = rect.0;
    let (x2, y2) = rect.1;
    let x = clamp_int(p.0 as int, x1 as int, x2 as int);
    let y = clamp_int(p.1 as int, y1 as int, y2 as int);
    let dl = abs_diff(x, x1 as int);
    let dr = abs_diff(x, x2 as int);
    let dt = abs_diff(y, y1 as int);
    let db = abs_diff(y, y2 as int);
    let m = min_int(min_int(dl, dr), min_int(dt, db));
    if m == dt {
        (x as usize, y1, p.2)
    } else if m == db {
        (x as usize, y2, p.2)
    } else if m == dl {
        (x1, y as usize, p.2)
    } else {
        (x2, y as usize, p.2)
    }
}

/// Whether measuring the distances to the rectangle's sides stays in
/// unsigned numbers: the point clamped between the corners lies at or past
/// both corners on each axis.
pub open spec fn perimeter_measurable(rect: Rect2D3D, p: Point3D) -> bool {
    let x = clamp_int(p.0 as int, rect.0.0 as int, rect.1.0 as int);
    let y = clamp_int(p.1 as int, rect.0.1 as int, rect.1.1 as int);
    &&& x >= rect.0.0 && x >= rect.1.0
    &&& y >= rect.0.1 && y >= rect.1.1
}

/// Whether the distances to the rectangle's sides can be measured; see
/// `perimeter_measurable`.
pub fn can_measure_perimeter(rect: Rect2D3D, p: Point3D) -> (r: bool)
    ensures
        r == perimeter_measurable(rect, p),
{
    let ((x1, y1), (x2, y2), _) = rect;
    let x = clamp(p.0, x1, x2);
    let y = clamp(p.1, y1, y2);
    proof {
        lemma_clamp_usize(p.0, x1, x2);
        lemma_clamp_usize(p.1, y1, y2);
    }
    x >= x1 && x >= x2 && y >= y1 && y >= y2
}

pub open spec fn min_int(a: int, b: int) -> int {
    if a < b { a } else { b }
}

fn distance_along(a: usize, b: usize) -> (d: usize)
    ensures
        d == abs_diff(a as int, b as int),
{
    if a < b { b - a } else { a - b }
}

/// The distances are taken between coordinates that fit in an `i32`, as the
/// distances themselves must.
pub fn nearest_perimeter_point(rect: Rect2D3D, p: Point3D) -> (r: Point3D)
    requires
        perimeter_measurable(rect, p),
        rect.0.0 <= i32::MAX,
        rect.0.1 <= i32::MAX,
        rect.1.0 <= i32::MAX,
        rect.1.1 <= i32::MAX,
    ensures
        r == nearest_on_perimeter(rect, p),
{
    let ((x1, y1), (x2, y2), _) = rect;
    let (x, y, z) = p;
    let x = clamp(x, x1, x2);
    let y = clamp(y, y1, y2);
    proof {
        lemma_clamp_usize(p.0, x1, x2);
        lemma_clamp_usize(p.1, y1, y2);
    }
    let dl = distance_along(x, x1);
    let dr = distance_along(x, x2);
    let dt = distance_along(y, y1);
    let db = distance_along(y, y2);
    let sides = vec![dl, dr, dt, db];
    let mut m: usize = i32::MAX as usize;
    let mut i: usize = 0;
    while i < sides.len()
        invariant
            sides@ == seq![dl, dr, dt, db],
            i <= 4,
            m as int == if i == 0 {
                i32::MAX as int
            } else if i == 1 {
                min_int(i32::MAX as int, dl as int)
            } else if i == 2 {
                min_int(i32::MAX as int, min_int(dl as int, dr as int))
            } else if i == 3 {
                min_int(i32::MAX as int, min_int(min_int(dl as int, dr as int), dt as int))
            } else {
                min_int(i32::MAX as int, min_int(min_int(dl as int, dr as int), min_int(dt as int, db as int)))
            },
        decreases sides.len() - i,
    {
        if sides[i] < m {
            m = sides[i];
        }
        i += 1;
    }
    if m == dt {
        (x, y1, z)
    } else if m == db {
        (x, y2, z)
    } else if m == dl {
        (x1, y, z)
    } else {
        (x2, y, z)
    }
}

/// A point drawn at random in `[min_x, max_x) x [min_y, max_y)`.
pub fn random_point(min_x: usize, max_x: usize, min_y: usize, max_y: usize) -> (p: Point2D)
    requires
        min_x < max_x,
        min_y < max_y,
    ensures
        min_x <= p.0 < max_x,
        min_y <= p.1 < max_y,
{
    let x = rng::gen_range(min_x, max_x);
    let y = rng::gen_range(min_y, max_y);
    (x, y)
}

/// The level reached on column `q` coming from level `from`: its closest
/// empty level, or ten million off the map.
pub open spec fn level_towards(w: &World, from: usize, q: Point2D) -> usize {
    if w.inside(q) {
        closest_empty(w.unit_at(q).tiles@, from as int) as usize
    } else {
        10000000
    }
}

/// Whether a point is on the map at a level the column has, and that level
/// is not solid.
pub open spec fn standable(w: &World, p: Point3D) -> bool {
    &&& w.inside((p.0, p.1))
    &&& p.2 < w.unit_at((p.0, p.1)).tiles@.len()
    &&& !tile_solid(w.unit_at((p.0, p.1)).tiles@[p.2 as int])
}

/// The neighbours of `p`, each at the level reached on it.
pub open spec fn candidates3d(w: &World, p: Point3D) -> Seq<Point3D> {
    let a = adjacent_points((p.0, p.1));
    Seq::new(a.len(), |k: int| (a[k].0, a[k].1, level_towards(w, p.2, a[k])))
}

/// The points of `s` one can stand on, in order.
pub open spec fn keep_standable(w: &World, s: Seq<Point3D>) -> Seq<Point3D>
    decreases s.len(),
{
    if s.len() == 0 {
        Seq::empty()
    } else {
        let rest = keep_standable(w, s.drop_last());
        if standable(w, s.last()) {
            rest.push(s.last())
        } else {
            rest
        }
    }
}

/// The neighbours of `p` one can step to: each of the neighbouring
/// columns at its empty level closest to `p`'s level, where there is one.
pub open spec fn neighbours3d(w: &World, p: Point3D) -> Seq<Point3D> {
    keep_standable(w, candidates3d(w, p))
}

/// Returns the points adjacent to `pos` that one can step to.
pub fn strict_3d_adjacent(pos: Point3D, map: &World) -> (r: Vec<Point3D>)
    requires
        map.well_formed(),
        pos.0 < usize::MAX,
        pos.1 < usize::MAX,
    ensures
        r@ == neighbours3d(map, pos),
{
    let adj = strict_adjacent((pos.0, pos.1));
    let ghost cands = candidates3d(map, pos);
    let mut r: Vec<Point3D> = Vec::new();
    let mut k: usize = 0;
    while k < adj.len()
        invariant
            map.well_formed(),
            adj@ == adjacent_points((pos.0, pos.1)),
            cands == candidates3d(map, pos),
            k <= adj@.len(),
            r@ == keep_standable(map, cands.take(k as int)),
        decreases adj@.len() - k,
    {
        let pnt = adj[k];
        let p3 = (pnt.0, pnt.1, map.location_z_from_to(pos.2, pnt));
        assert(p3 == cands[k as int]);
        assert(cands.take(k + 1).drop_last() =~= cands.take(k as int));
        let ok = if map.located_inside(pnt) {
            let tiles = &map.map[pnt.1][pnt.0].tiles;
            p3.2 < tiles.len() && !tiles[p3.2].solid()
        } else {
            false
        };
        if ok {
            r.push(p3);
        }
        k += 1;
    }
    assert(cands.take(adj@.len() as int) =~= cands);
    r
}

/// Whether an animal at `from` may step onto the column `to`: it is on the
/// map, the level reached there is at most one away and not solid.
pub open spec fn may_move(w: &World, from: Point3D, to: Point2D) -> bool {
    w.inside(to) && {
        let z = level_towards(w, from.2, to);
        abs_diff(from.2 as int, z as int) < 2 && !tile_solid(w.unit_at(to).tiles@[z as int])
    }
}

/// Whether an animal at `from` may step onto the column `to`. The column,
/// when on the map, must have an empty level, and the levels must fit in an
/// `i32`.
pub fn can_move(map: &World, from: Point3D, to: (usize, usize)) -> (r: bool)
    requires
        map.well_formed(),
        from.2 <= i32::MAX,
        map.inside(to) ==> level_towards(map, from.2, to) < map.unit_at(to).tiles@.len(),
        map.inside(to) ==> map.unit_at(to).tiles@.len() <= i32::MAX,
    ensures
        r == may_move(map, from, to),
{
    let zloc_from = from.2;
    if map.located_inside(to) {
        let new_zloc = map.location_z_from_to(zloc_from, to);
        let d = zloc_from as i32 - new_zloc as i32;
        let d = if d < 0 { -d } else { d };
        let tiles = &map.map[to.1][to.0].tiles;
        d < 2 && !tiles[new_zloc].solid()
    } else {
        false
    }
}

/// Whether a species may enter a point: its column has a biome the species
/// can go to.
pub open spec fn passable(w: &World, species: SpeciesProperties, p: Point3D) -> bool {
    &&& w.inside((p.0, p.1))
    &&& w.unit_at((p.0, p.1)).biome is Some
    &&& may_go(species.species, w.unit_at((p.0, p.1)).biome->0.biome_type)
}

/// One step of a path: to a neighbour one can stand on and may enter.
pub open spec fn path_step(w: &World, species: SpeciesProperties, a: Point3D, b: Point3D) -> bool {
    neighbours3d(w, a).contains(b) && passable(w, species, b)
}

/// A path as the search gives it: the start twice, then steps to the goal.
pub open spec fn walkable(
    w: &World,
    species: SpeciesProperties,
    start: Point3D,
    goal: Point3D,
    p: Seq<Point3D>,
) -> bool {
    &&& p.len() >= 2
    &&& p[0] == start
    &&& p[1] == start
    &&& p.last() == goal
    &&& forall|i: int| 1 <= i < p.len() - 1 ==> path_step(w, species, #[trigger] p[i], p[i + 1])
}

/// Some path of the search's kind leads from `start` to `goal`.
pub open spec fn reachable(w: &World, species: SpeciesProperties, start: Point3D, goal: Point3D) -> bool {
    exists|p: Seq<Point3D>| walkable(w, species, start, goal, p)
}

/// Some entry of the search's table has the key `p`.
pub open spec fn known(came: Seq<(Point3D, Option<Point3D>)>, p: Point3D) -> bool {
    exists|j: int| 0 <= j < came.len() && (#[trigger] came[j]).0 == p
}

/// One step of the search: to a neighbour the predicate answered yes for.
pub open spec fn step_ok<F: Fn(Point3D) -> bool>(w: &World, can_move: F, a: Point3D, b: Point3D) -> bool {
    neighbours3d(w, a).contains(b) && approved(can_move, b)
}

/// The predicate answered yes for `p`.
pub open spec fn approved<F: Fn(Point3D) -> bool>(can_move: F, p: Point3D) -> bool {
    call_ensures(can_move, (p,), true)
}

/// The predicate cannot have answered no for `p`.
pub open spec fn unrefused<F: Fn(Point3D) -> bool>(can_move: F, p: Point3D) -> bool {
    !call_ensures(can_move, (p,), false)
}

/// A path of the search's kind whose every step goes to a neighbour that
/// `ok` holds of: the start twice, then steps to the goal.
pub open spec fn walk_with(w: &World, ok: spec_fn(Point3D) -> bool, start: Point3D, goal: Point3D, p: Seq<Point3D>) -> bool {
    &&& p.len() >= 2
    &&& p[0] == start
    &&& p[1] == start
    &&& p.last() == goal
    &&& forall|i: int|
        #![trigger neighbours3d(w, p[i])]
        1 <= i < p.len() - 1 ==> neighbours3d(w, p[i]).contains(p[i + 1]) && ok(p[i + 1])
}

/// A path found with `can_move`: every step goes to a neighbour the
/// predicate answered yes for.
pub open spec fn walkable_by<F: Fn(Point3D) -> bool>(w: &World, can_move: F, start: Point3D, goal: Point3D, p: Seq<Point3D>) -> bool {
    walk_with(w, |q: Point3D| approved(can_move, q), start, goal, p)
}

/// A path whose every step goes to a neighbour the predicate cannot have
/// refused.
pub open spec fn open_walk<F: Fn(Point3D) -> bool>(w: &World, can_move: F, start: Point3D, goal: Point3D, p: Seq<Point3D>) -> bool {
    walk_with(w, |q: Point3D| unrefused(can_move, q), start, goal, p)
}

/// Some path leads from `start` to `goal` through neighbours the predicate
/// cannot have refused.
pub open spec fn reachable_by<F: Fn(Point3D) -> bool>(w: &World, can_move: F, start: Point3D, goal: Point3D) -> bool {
    exists|p: Seq<Point3D>| #[trigger] open_walk(w, can_move, start, goal, p)
}

/// Every neighbour of `q` the predicate cannot have refused is in the
/// table.
pub open spec fn expanded_by<F: Fn(Point3D) -> bool>(w: &World, can_move: F, came: Seq<(Point3D, Option<Point3D>)>, q: Point3D) -> bool {
    forall|n: Point3D| neighbours3d(w, q).contains(n) && unrefused(can_move, n) ==> #[trigger] known(came, n)
}

proof fn lemma_known_push(came: Seq<(Point3D, Option<Point3D>)>, x: (Point3D, Option<Point3D>), p: Point3D)
    requires
        known(came, p),
    ensures
        known(came.push(x), p),
{
    let j = choose|j: int| 0 <= j < came.len() && (#[trigger] came[j]).0 == p;
    assert(came.push(x)[j] == came[j]);
}

proof fn lemma_expanded_push<F: Fn(Point3D) -> bool>(w: &World, can_move: F, came: Seq<(Point3D, Option<Point3D>)>, x: (Point3D, Option<Point3D>), q: Point3D)
    requires
        expanded_by(w, can_move, came, q),
    ensures
        expanded_by(w, can_move, came.push(x), q),
{
    assert forall|n: Point3D| neighbours3d(w, q).contains(n) && unrefused(can_move, n) implies #[trigger] known(came.push(x), n) by {
        assert(known(came, n));
        lemma_known_push(came, x, n);
    }
}

/// When the table is closed under steps the predicate cannot have refused,
/// and holds the start but not the goal, no such path leads from the start
/// to the goal.
proof fn lemma_closed_unreachable<F: Fn(Point3D) -> bool>(
    w: &World,
    can_move: F,
    came: Seq<(Point3D, Option<Point3D>)>,
    start: Point3D,
    goal: Point3D,
)
    requires
        came.len() >= 1,
        came[0].0 == start,
        forall|k: int| 0 <= k < came.len() ==> expanded_by(w, can_move, came, (#[trigger] came[k]).0),
        forall|k: int| 0 <= k < came.len() ==> (#[trigger] came[k]).0 != goal,
    ensures
        !reachable_by(w, can_move, start, goal),
{
    if reachable_by(w, can_move, start, goal) {
        let p = choose|p: Seq<Point3D>| open_walk(w, can_move, start, goal, p);
        lemma_walk_known(w, can_move, came, start, goal, p, p.len() - 1);
        let j = choose|j: int| 0 <= j < came.len() && (#[trigger] came[j]).0 == p[p.len() - 1];
        assert(came[j].0 == goal);
    }
}

proof fn lemma_walk_known<F: Fn(Point3D) -> bool>(
    w: &World,
    can_move: F,
    came: Seq<(Point3D, Option<Point3D>)>,
    start: Point3D,
    goal: Point3D,
    p: Seq<Point3D>,
    i: int,
)
    requires
        came.len() >= 1,
        came[0].0 == start,
        forall|k: int| 0 <= k < came.len() ==> expanded_by(w, can_move, came, (#[trigger] came[k]).0),
        open_walk(w, can_move, start, goal, p),
        1 <= i < p.len(),
    ensures
        known(came, p[i]),
    decreases i,
{
    if i == 1 {
        assert(came[0].0 == p[1]);
    } else {
        lemma_walk_known(w, can_move, came, start, goal, p, i - 1);
        let j = choose|j: int| 0 <= j < came.len() && (#[trigger] came[j]).0 == p[i - 1];
        assert(neighbours3d(w, p[i - 1]).contains(p[i - 1 + 1]) && unrefused(can_move, p[i - 1 + 1]));
        assert(expanded_by(w, can_move, came, came[j].0));
        assert(known(came, p[i]));
    }
}

/// With a predicate that answers whether a species may enter a point, a
/// path found with it is one of the species' paths.
pub(crate) proof fn lemma_path_by_species<F: Fn(Point3D) -> bool>(
    w: &World,
    species: SpeciesProperties,
    can_move: F,
    start: Point3D,
    goal: Point3D,
    p: Seq<Point3D>,
)
    requires
        forall|q: Point3D, r: bool| #[trigger] call_ensures(can_move, (q,), r) ==> r == passable(w, species, q),
        walkable_by(w, can_move, start, goal, p),
    ensures
        walkable(w, species, start, goal, p),
{
    assert forall|i: int| 1 <= i < p.len() - 1 implies path_step(w, species, #[trigger] p[i], p[i + 1]) by {
        assert(neighbours3d(w, p[i]).contains(p[i + 1]));
        assert(call_ensures(can_move, (p[i + 1],), true));
    }
}

/// With a predicate that answers whether a species may enter a point, a
/// path of the species goes through points it cannot have refused.
pub(crate) proof fn lemma_reachable_by_species<F: Fn(Point3D) -> bool>(
    w: &World,
    species: SpeciesProperties,
    can_move: F,
    start: Point3D,
    goal: Point3D,
)
    requires
        forall|q: Point3D, r: bool| #[trigger] call_ensures(can_move, (q,), r) ==> r == passable(w, species, q),
        reachable(w, species, start, goal),
    ensures
        reachable_by(w, can_move, start, goal),
{
    let p = choose|p: Seq<Point3D>| walkable(w, species, start, goal, p);
    let ok = |q: Point3D| unrefused(can_move, q);
    assert forall|i: int| 1 <= i < p.len() - 1 implies neighbours3d(w, #[trigger] p[i]).contains(p[i + 1]) && ok(p[i + 1]) by {
        assert(path_step(w, species, p[i], p[i + 1]));
        if call_ensures(can_move, (p[i + 1],), false) {
            assert(passable(w, species, p[i + 1]));
        }
    }
    assert(walk_with(w, ok, start, goal, p));
    assert(open_walk(w, can_move, start, goal, p));
}

/// How many entries are `false`.
pub open spec fn count_false(s: Seq<bool>) -> nat
    decreases s.len(),
{
    if s.len() == 0 {
        0
    } else {
        count_false(s.drop_last()) + if s.last() { 0nat } else { 1nat }
    }
}

proof fn lemma_count_false_set(s: Seq<bool>, i: int)
    requires
        0 <= i < s.len(),
        !s[i],
    ensures
        count_false(s.update(i, true)) + 1 == count_false(s),
    decreases s.len(),
{
    if i < s.len() - 1 {
        assert(s.update(i, true).drop_last() =~= s.drop_last().update(i, true));
        lemma_count_false_set(s.drop_last(), i);
    } else {
        assert(s.update(i, true).drop_last() =~= s.drop_last());
    }
}

/// The largest whole number whose cube is at most `n`.
fn cube_root_floor(n: u64) -> (c: u64)
    requires
        n < 0x1_0000_0000_0000,
    ensures
        c * c * c <= n < (c + 1) * (c + 1) * (c + 1),
{
    let mut c: u64 = 0;
    loop
        invariant
            c * c * c <= n,
            c <= 0x10000,
            n < 0x1_0000_0000_0000,
        decreases n - c,
    {
        let c1 = c + 1;
        assert(c1 * c1 <= 0x1_0002_0001) by (nonlinear_arith)
            requires c1 <= 0x10001;
        assert(c1 * c1 * c1 <= 0x1_0003_0003_0001) by (nonlinear_arith)
            requires c1 <= 0x10001, c1 * c1 <= 0x1_0002_0001;
        let cube = c1 * c1 * c1;
        if cube > n {
            return c;
        }
        assert(c1 >= 1 && cube >= c1) by (nonlinear_arith)
            requires c1 == c + 1, cube == c1 * c1 * c1, c >= 0;
        assert(c1 <= 0x10000) by (nonlinear_arith)
            requires cube == c1 * c1 * c1, cube <= n, n < 0x1_0000_0000_0000, c1 >= 1;
        c = c1;
    }
}

/// The square of the distance between two points, coordinates below 2^20.
fn distance_squared(a: Point3D, b: Point3D) -> (d: u64)
    requires
        a.0 < 0x100000 && a.1 < 0x100000 && a.2 < 0x100000,
        b.0 < 0x100000 && b.1 < 0x100000 && b.2 < 0x100000,
    ensures
        d == abs_diff(a.0 as int, b.0 as int) * abs_diff(a.0 as int, b.0 as int) + abs_diff(
            a.1 as int,
            b.1 as int,
        ) * abs_diff(a.1 as int, b.1 as int) + abs_diff(a.2 as int, b.2 as int) * abs_diff(
            a.2 as int,
            b.2 as int,
        ),
        d < 0x1_0000_0000_0000,
{
    let dx = distance_along(a.0, b.0) as u64;
    let dy = distance_along(a.1, b.1) as u64;
    let dz = distance_along(a.2, b.2) as u64;
    assert(dx * dx < 0x100_0000_0000) by (nonlinear_arith)
        requires dx < 0x100000;
    assert(dy * dy < 0x100_0000_0000) by (nonlinear_arith)
        requires dy < 0x100000;
    assert(dz * dz < 0x100_0000_0000) by (nonlinear_arith)
        requires dz < 0x100000;
    dx * dx + dy * dy + dz * dz
}

/// Whether two points are the same.
pub fn same_point(a: Point3D, b: Point3D) -> (r: bool)
    ensures
        r == (a == b),
{
    a.0 == b.0 && a.1 == b.1 && a.2 == b.2
}

/// Whether a species may enter the point, tested on the map.
pub(crate) fn passable_at(map: &World, species: &SpeciesProperties, p: Point3D) -> (r: bool)
    requires
        map.well_formed(),
        map.inside((p.0, p.1)),
    ensures
        r == passable(map, *species, p),
{
    let unit = &map.map[p.1][p.0];
    match unit.biome {
        Some(b) => species.can_go(b),
        None => false,
    }
}

/// Below 2^20, small enough that squared distances of points fit easily.
pub open spec fn small(p: Point3D) -> bool {
    p.0 < 0x100000 && p.1 < 0x100000 && p.2 < 0x100000
}

/// The map, and every column of it, is less than 2^20 across and high.
pub open spec fn map_small(w: &World) -> bool {
    &&& w.map_size.0 < 0x100000
    &&& w.map_size.1 < 0x100000
    &&& forall|y: int, x: int|
        0 <= y < w.map_size.1 && 0 <= x < w.map_size.0 ==> (#[trigger] w.map@[y]@[x]).tiles@.len()
            < 0x100000
}

/// Whether a point lies in the box `w` by `h` by `d`.
pub open spec fn in_grid(w: int, h: int, d: int, p: Point3D) -> bool {
    p.0 < w && p.1 < h && p.2 < d
}

/// Whether some entry of the table has the key `p`.
fn has_key(came: &Vec<(Point3D, Option<Point3D>)>, p: Point3D) -> (r: bool)
    ensures
        r == exists|k: int| 0 <= k < came@.len() && (#[trigger] came@[k]).0 == p,
{
    let mut k: usize = 0;
    while k < came.len()
        invariant
            k <= came@.len(),
            forall|q: int| 0 <= q < k ==> (#[trigger] came@[q]).0 != p,
        decreases came@.len() - k,
    {
        if same_point(came[k].0, p) {
            return true;
        }
        k += 1;
    }
    false
}

proof fn lemma_grid_index_injective(w: int, h: int, a: Point3D, b: Point3D)
    requires
        a.0 < w,
        b.0 < w,
        a.1 < h,
        b.1 < h,
        grid_index(w, h, a) == grid_index(w, h, b),
    ensures
        a == b,
{
    let ra = a.2 * h + a.1;
    let rb = b.2 * h + b.1;
    assert(ra == rb) by (nonlinear_arith)
        requires ra * w + a.0 == rb * w + b.0, 0 <= a.0 < w, 0 <= b.0 < w, 0 <= ra, 0 <= rb;
    assert(a.2 == b.2) by (nonlinear_arith)
        requires a.2 * h + a.1 == b.2 * h + b.1, 0 <= a.1 < h, 0 <= b.1 < h, 0 <= a.2, 0 <= b.2;
}

/// The position of a point in the search's table of visited points.
pub open spec fn grid_index(w: int, h: int, p: Point3D) -> int {
    (p.2 * h + p.1) * w + p.0
}

proof fn lemma_grid_index(w: int, h: int, d: int, p: Point3D)
    requires
        p.0 < w,
        p.1 < h,
        p.2 < d,
        0 <= w,
        0 <= h,
    ensures
        0 <= grid_index(w, h, p) < w * h * d,
{
    let x = p.0 as int;
    let y = p.1 as int;
    let z = p.2 as int;
    assert(z * h + y < d * h) by (nonlinear_arith)
        requires z < d, y < h, 0 <= z, 0 <= y;
    assert((z * h + y) * w + x < d * h * w) by (nonlinear_arith)
        requires z * h + y < d * h, x < w, 0 <= x, 0 <= z * h + y;
    assert(d * h * w == w * h * d) by (nonlinear_arith);
    assert(0 <= (z * h + y) * w + x) by (nonlinear_arith)
        requires 0 <= z, 0 <= y, 0 <= x, 0 <= h, 0 <= w;
}

/// Greedy best-first pathfinding. It works on 3D points, but treats them
/// as levels of a 2D plane: going from one column to the next it takes the
/// next column's empty level closest to the current one. The point of
/// least estimated distance to the goal is explored first; the path found
/// need not be the shortest.
///
/// `can_move` is asked of each point the search reaches for the first
/// time whether it may be entered. A path found starts with the start
/// twice and then steps, each to a neighbour it answered yes for, up to the
/// goal. No path is found only when no path leads to the goal through
/// neighbours it cannot have answered no for.
pub fn find_path<F: Fn(Point3D) -> bool>(map: &World, start: Point3D, goal: Point3D, can_move: F) -> (r:
    Option<Vec<Point3D>>)
    requires
        map.well_formed(),
        map_small(map),
        small(start),
        small(goal),
        forall|p: Point3D| standable(map, p) ==> call_requires(can_move, (p,)),
    ensures
        r matches Some(p) ==> walkable_by(map, can_move, start, goal, p@),
        r is None ==> !reachable_by(map, can_move, start, goal),
{
    let w = map.map_size.0;
    let h = map.map_size.1;
    // the highest column
    let mut d: usize = 0;
    let mut y: usize = 0;
    while y < h
        invariant
            map.well_formed(),
            map_small(map),
            w == map.map_size.0,
            h == map.map_size.1,
            y <= h,
            d < 0x100000,
            forall|yy: int, xx: int|
                0 <= yy < y && 0 <= xx < w ==> (#[trigger] map.map@[yy]@[xx]).tiles@.len() <= d,
        decreases h - y,
    {
        let mut x: usize = 0;
        while x < w
            invariant
                map.well_formed(),
                map_small(map),
                w == map.map_size.0,
                h == map.map_size.1,
                y < h,
                x <= w,
                d < 0x100000,
                forall|yy: int, xx: int|
                    (0 <= yy < y && 0 <= xx < w) || (yy == y && 0 <= xx < x) ==> (
                    #[trigger] map.map@[yy]@[xx]).tiles@.len() <= d,
            decreases w - x,
        {
            assert(map.map@[y as int]@.len() == w);
            let l = map.map[y][x].tiles.len();
            if l > d {
                d = l;
            }
            x += 1;
        }
        y += 1;
    }
    let ghost size: int = w * h * d;
    let ghost mut seen: Seq<bool> = Seq::new(size as nat, |i: int| false);
    let ghost mut owner: Seq<int> = Seq::new(size as nat, |i: int| 0);
    let ghost mut fk: Seq<int> = seq![0];
    let mut frontier: Vec<(u64, Point3D)> = Vec::new();
    frontier.push((0, start));
    let mut came_from: Vec<(Point3D, Option<Point3D>)> = Vec::new();
    came_from.push((start, None));
    let ghost mut parent: Seq<int> = seq![0];
    proof {
        if in_grid(w as int, h as int, d as int, start) {
            lemma_grid_index(w as int, h as int, d as int, start);
            seen = seen.update(grid_index(w as int, h as int, start), true);
        }
    }
    let ghost mut exp: Seq<bool> = seq![false];
    let ghost mut found: bool = false;
    let ghost mut goal_k: int = 0;
    assert(frontier@[0].1 == start);
    assert(fk[0] == 0);
    while frontier.len() != 0
        invariant_except_break
            !found,
            exp.len() == came_from@.len(),
            forall|k: int| 0 <= k < came_from@.len() && !(#[trigger] exp[k]) ==> fk.contains(k),
        invariant
            exp.len() == came_from@.len(),
            forall|k: int|
                0 <= k < came_from@.len() && #[trigger] exp[k] ==> expanded_by(map, can_move, came_from@, came_from@[k].0)
                    && came_from@[k].0 != goal,
            map.well_formed(),
            map_small(map),
            small(start),
            small(goal),
            forall|p: Point3D| standable(map, p) ==> call_requires(can_move, (p,)),
            w == map.map_size.0,
            h == map.map_size.1,
            d < 0x100000,
            forall|yy: int, xx: int|
                0 <= yy < h && 0 <= xx < w ==> (#[trigger] map.map@[yy]@[xx]).tiles@.len() <= d,
            size == w * h * d,
            seen.len() == size,
            owner.len() == size,
            forall|i: int|
                0 <= i < size && #[trigger] seen[i] ==> {
                    &&& 0 <= owner[i] < came_from@.len()
                    &&& in_grid(w as int, h as int, d as int, came_from@[owner[i]].0)
                    &&& grid_index(w as int, h as int, came_from@[owner[i]].0) == i
                },
            came_from@.len() >= 1,
            came_from@[0] == (start, None::<Point3D>),
            parent.len() == came_from@.len(),
            forall|k: int|
                1 <= k < came_from@.len() ==> {
                    &&& 0 <= #[trigger] parent[k] < k
                    &&& came_from@[k].1 == Some(came_from@[parent[k]].0)
                    &&& step_ok(map, can_move, came_from@[parent[k]].0, came_from@[k].0)
                },
            forall|k: int| 0 <= k < came_from@.len() ==> small(#[trigger] came_from@[k].0),
            fk.len() == frontier@.len(),
            forall|f: int|
                0 <= f < frontier@.len() ==> 0 <= #[trigger] fk[f] < came_from@.len()
                    && came_from@[fk[f]].0 == frontier@[f].1,
        ensures
            found ==> 0 <= goal_k < came_from@.len() && came_from@[goal_k].0 == goal,
            !found ==> forall|k: int| 0 <= k < came_from@.len() ==> #[trigger] exp[k],
        decreases count_false(seen), frontier@.len(),
    {
        // the point of least cost, the first of them on a tie
        let mut best: usize = 0;
        let mut j: usize = 1;
        while j < frontier.len()
            invariant
                frontier@.len() > 0,
                best < frontier@.len(),
                1 <= j <= frontier@.len(),
                forall|q: int| 0 <= q < j ==> frontier@[best as int].0 <= (#[trigger] frontier@[q]).0,
            decreases frontier@.len() - j,
        {
            if frontier[j].0 < frontier[best].0 {
                best = j;
            }
            j += 1;
        }
        let ghost before_pop = frontier@;
        let current = frontier.remove(best);
        assert(before_pop[best as int] == current);
        let ghost cur_k = fk[best as int];
        let ghost old_fk = fk;
        proof {
            fk = fk.remove(best as int);
            assert forall|k: int| 0 <= k < came_from@.len() && k != cur_k && !(#[trigger] exp[k]) implies fk.contains(k) by {
                let f = choose|f: int| 0 <= f < old_fk.len() && old_fk[f] == k;
                if f < best {
                    assert(fk[f] == k);
                } else {
                    assert(fk[f - 1] == k);
                }
            }
        }
        if same_point(current.1, goal) {
            proof {
                found = true;
                goal_k = cur_k;
            }
            break;
        }
        let next_points = strict_3d_adjacent(current.1, map);
        let ghost count_before = count_false(seen);
        let ghost frontier_before = frontier@.len();
        let mut n: usize = 0;
        while n < next_points.len()
            invariant
                map.well_formed(),
                map_small(map),
                small(start),
                small(goal),
                w == map.map_size.0,
                h == map.map_size.1,
                d < 0x100000,
                forall|yy: int, xx: int|
                    0 <= yy < h && 0 <= xx < w ==> (#[trigger] map.map@[yy]@[xx]).tiles@.len() <= d,
                size == w * h * d,
                seen.len() == size,
                owner.len() == size,
                forall|i: int|
                    0 <= i < size && #[trigger] seen[i] ==> {
                        &&& 0 <= owner[i] < came_from@.len()
                        &&& in_grid(w as int, h as int, d as int, came_from@[owner[i]].0)
                        &&& grid_index(w as int, h as int, came_from@[owner[i]].0) == i
                    },
                next_points@ == neighbours3d(map, current.1),
                0 <= cur_k < came_from@.len(),
                came_from@[cur_k].0 == current.1,
                n <= next_points@.len(),
                came_from@.len() >= 1,
                came_from@[0] == (start, None::<Point3D>),
                parent.len() == came_from@.len(),
                forall|k: int|
                    1 <= k < came_from@.len() ==> {
                        &&& 0 <= #[trigger] parent[k] < k
                        &&& came_from@[k].1 == Some(came_from@[parent[k]].0)
                        &&& step_ok(map, can_move, came_from@[parent[k]].0, came_from@[k].0)
                    },
                forall|k: int| 0 <= k < came_from@.len() ==> small(#[trigger] came_from@[k].0),
                fk.len() == frontier@.len(),
                forall|f: int|
                    0 <= f < frontier@.len() ==> 0 <= #[trigger] fk[f] < came_from@.len()
                        && came_from@[fk[f]].0 == frontier@[f].1,
                count_false(seen) + (frontier@.len() - frontier_before) == count_before,
                frontier@.len() >= frontier_before,
                !found,
                current.1 != goal,
                exp.len() == came_from@.len(),
                forall|k: int| 0 <= k < came_from@.len() && k != cur_k && !(#[trigger] exp[k]) ==> fk.contains(k),
                forall|k: int|
                    0 <= k < came_from@.len() && #[trigger] exp[k] ==> expanded_by(map, can_move, came_from@, came_from@[k].0)
                        && came_from@[k].0 != goal,
                forall|m: int| 0 <= m < n && unrefused(can_move, #[trigger] next_points@[m]) ==> known(came_from@, next_points@[m]),
                forall|p: Point3D| standable(map, p) ==> call_requires(can_move, (p,)),
            decreases next_points@.len() - n,
        {
            let next = next_points[n];
            proof {
                assert(next_points@[n as int] == next);
                assert(neighbours3d(map, current.1).contains(next));
                lemma_kept_standable(map, candidates3d(map, current.1), next);
                assert(map.map@[next.1 as int]@.len() == w);
                assert(map.map@[next.1 as int]@[next.0 as int].tiles@.len() <= d);
                lemma_grid_index(w as int, h as int, d as int, next);
            }
            let fresh = !has_key(&came_from, next);
            let go = if fresh {
                can_move(next)
            } else {
                false
            };
            if fresh && go {
                let cost = cube_root_floor(distance_squared(goal, next));
                let ghost old_seen = seen;
                let ghost at = grid_index(w as int, h as int, next);
                proof {
                    if old_seen[at] {
                        let k = owner[at];
                        lemma_grid_index_injective(w as int, h as int, came_from@[k].0, next);
                        assert(came_from@[k].0 == next);
                    }
                }
                let ghost old_came = came_from@;
                let ghost fk_before = fk;
                frontier.push((cost, next));
                came_from.push((next, Some(current.1)));
                proof {
                    let new_k = came_from@.len() - 1;
                    assert forall|k: int| 0 <= k < old_came.len() && #[trigger] exp[k] implies expanded_by(map, can_move, came_from@, came_from@[k].0)
                        && came_from@[k].0 != goal by {
                        assert(came_from@[k] == old_came[k]);
                        lemma_expanded_push(map, can_move, old_came, (next, Some(current.1)), old_came[k].0);
                    }
                    assert forall|m: int| 0 <= m <= n && unrefused(can_move, #[trigger] next_points@[m]) implies known(came_from@, next_points@[m]) by {
                        if m < n {
                            lemma_known_push(old_came, (next, Some(current.1)), next_points@[m]);
                        } else {
                            assert(came_from@[new_k].0 == next);
                        }
                    }
                    exp = exp.push(false);
                    parent = parent.push(cur_k);
                    fk = fk.push(new_k);
                    assert(step_ok(map, can_move, current.1, next));
                    seen = seen.update(at, true);
                    owner = owner.update(at, new_k);
                    lemma_count_false_set(old_seen, at);
                    assert(came_from@[new_k].0 == next);
                    assert forall|k: int| 0 <= k < came_from@.len() && k != cur_k && !(#[trigger] exp[k]) implies fk.contains(k) by {
                        if k == new_k {
                            assert(fk[fk.len() - 1] == k);
                        } else {
                            let f = choose|f: int| 0 <= f < fk_before.len() && fk_before[f] == k;
                            assert(fk[f] == k);
                        }
                    }
                }
            } else {
                proof {
                    if unrefused(can_move, next) {
                        assert(known(came_from@, next));
                    }
                }
            }
            n += 1;
        }
        proof {
            assert forall|nn: Point3D| neighbours3d(map, current.1).contains(nn) && unrefused(can_move, nn) implies #[trigger] known(came_from@, nn) by {
                let m = choose|m: int| 0 <= m < next_points@.len() && next_points@[m] == nn;
                assert(unrefused(can_move, next_points@[m]));
            }
            exp = exp.update(cur_k, true);
        }
    }
    proof {
        if !found {
            assert forall|k: int| 0 <= k < came_from@.len() implies expanded_by(map, can_move, came_from@, (#[trigger] came_from@[k]).0)
                && came_from@[k].0 != goal by {
                assert(exp[k]);
            }
            lemma_closed_unreachable(map, can_move, came_from@, start, goal);
        }
    }
    // walk back from the goal
    let mut current = goal;
    let mut path: Vec<Point3D> = Vec::new();
    path.push(goal);
    let ghost mut bound: int = if found { goal_k } else { came_from@.len() as int };
    while !same_point(current, start)
        invariant
            came_from@.len() >= 1,
            came_from@[0] == (start, None::<Point3D>),
            parent.len() == came_from@.len(),
            forall|k: int|
                1 <= k < came_from@.len() ==> {
                    &&& 0 <= #[trigger] parent[k] < k
                    &&& came_from@[k].1 == Some(came_from@[parent[k]].0)
                    &&& step_ok(map, can_move, came_from@[parent[k]].0, came_from@[k].0)
                },
            0 <= bound <= came_from@.len(),
            bound < came_from@.len() ==> came_from@[bound].0 == current,
            found ==> bound < came_from@.len(),
            !found ==> !reachable_by(map, can_move, start, goal),
            path@.len() >= 1,
            path@[0] == goal,
            path@.last() == current,
            forall|i: int|
                0 <= i < path@.len() - 1 ==> step_ok(map, can_move, path@[i + 1], #[trigger] path@[i]),
        decreases bound,
    {
        let mut k: usize = 0;
        while k < came_from.len() && !same_point(came_from[k].0, current)
            invariant
                k <= came_from@.len(),
                forall|q: int| 0 <= q < k ==> (#[trigger] came_from@[q]).0 != current,
            decreases came_from@.len() - k,
        {
            k += 1;
        }
        if k == came_from.len() {
            return None;
        }
        assert(bound < came_from@.len() ==> k <= bound);
        match came_from[k].1 {
            Some(c) => {
                assert(k != 0);
                assert(step_ok(map, can_move, came_from@[parent[k as int]].0, came_from@[k as int].0));
                current = c;
                path.push(c);
                proof {
                    bound = parent[k as int];
                }
            },
            None => {
                proof {
                    if k >= 1 {
                        assert(0 <= parent[k as int] < k);
                    }
                }
                return None;
            },
        }
    }
    path.push(start);
    let mut r: Vec<Point3D> = Vec::new();
    let mut i: usize = path.len();
    while i > 0
        invariant
            i <= path@.len(),
            r@.len() == path@.len() - i,
            forall|q: int| 0 <= q < r@.len() ==> #[trigger] r@[q] == path@[path@.len() - 1 - q],
        decreases i,
    {
        i -= 1;
        r.push(path[i]);
    }
    assert forall|q: int| 1 <= q < r@.len() - 1 implies step_ok(map, can_move, #[trigger] r@[q], r@[q + 1]) by {
        let a = path@.len() - 1 - q;
        assert(r@[q] == path@[a]);
        assert(r@[q + 1] == path@[a - 1]);
        assert(step_ok(map, can_move, path@[a - 1 + 1], path@[a - 1]));
    }
    assert(walkable_by(map, can_move, start, goal, r@));
    Some(r)
}

/// A point kept from a list of candidates can be stood on.
proof fn lemma_kept_standable(w: &World, s: Seq<Point3D>, p: Point3D)
    requires
        keep_standable(w, s).contains(p),
    ensures
        standable(w, p),
    decreases s.len(),
{
    if s.len() > 0 {
        let rest = keep_standable(w, s.drop_last());
        if rest.contains(p) {
            lemma_kept_standable(w, s.drop_last(), p);
        } else {
            if standable(w, s.last()) {
                let i = choose|i: int| 0 <= i < rest.push(s.last()).len() && rest.push(s.last())[i] == p;
                if i < rest.len() {
                    assert(rest.contains(p));
                }
            }
        }
    }
}

/// The squared distance between two points of the plane.
pub open spec fn plane_distance_squared(a: Point2D, b: Point2D) -> int {
    abs_diff(a.0 as int, b.0 as int) * abs_diff(a.0 as int, b.0 as int) + abs_diff(
        a.1 as int,
        b.1 as int,
    ) * abs_diff(a.1 as int, b.1 as int)
}

/// The squared distance between two points of space.
pub open spec fn space_distance_squared(a: Point3D, b: Point3D) -> int {
    plane_distance_squared((a.0, a.1), (b.0, b.1)) + abs_diff(a.2 as int, b.2 as int) * abs_diff(
        a.2 as int,
        b.2 as int,
    )
}

/// Whether two points of the plane are at most `r` apart: the distance
/// `sqrt(dx^2 + dy^2)` compared in whole numbers.
pub fn within_distance(a: Point2D, b: Point2D, r: u8) -> (res: bool)
    requires
        a.0 < 0x100000 && a.1 < 0x100000,
        b.0 < 0x100000 && b.1 < 0x100000,
    ensures
        res == (plane_distance_squared(a, b) <= r * r),
{
    let d = distance_squared((a.0, a.1, 0), (b.0, b.1, 0));
    let r = r as u64;
    assert(r * r < 0x10000) by (nonlinear_arith)
        requires r < 256;
    d <= r * r
}

/// Whether two points of space are at most `r` apart by the measure
/// `cbrt(dx^2 + dy^2 + dz^2)`, compared in whole numbers.
pub fn within_distance3_d(a: Point3D, b: Point3D, r: u8) -> (res: bool)
    requires
        small(a),
        small(b),
    ensures
        res == (space_distance_squared(a, b) <= r * r * r),
{
    let d = distance_squared(a, b);
    let r = r as u64;
    assert(r * r < 0x10000 && r * r * r <= 0x100_0000) by (nonlinear_arith)
        requires r < 256;
    d <= r * r * r
}


/// The point found is on the border of the rectangle, when its corners are
/// in order: on its top or bottom row or its left or right column, within
/// it, at the level of the point it was found for.
pub proof fn law_perimeter_point_on_border(rect: Rect2D3D, p: Point3D)
    requires
        rect.0.0 <= rect.1.0,
        rect.0.1 <= rect.1.1,
    ensures
        ({
            let r = nearest_on_perimeter(rect, p);
            &&& r.0 == rect.0.0 || r.0 == rect.1.0 || r.1 == rect.0.1 || r.1 == rect.1.1
            &&& rect.0.0 <= r.0 <= rect.1.0
            &&& rect.0.1 <= r.1 <= rect.1.1
            &&& r.2 == p.2
        }),
{
}

/// Distances do not depend on which point is taken first.
pub proof fn law_distance_symmetric(a: Point3D, b: Point3D)
    ensures
        plane_distance_squared((a.0, a.1), (b.0, b.1)) == plane_distance_squared((b.0, b.1), (a.0, a.1)),
        space_distance_squared(a, b) == space_distance_squared(b, a),
{
}

} // verus!
