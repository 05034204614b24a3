//! The keeper of all living things: it hands out what they need to know of
//! each other and runs their turns.
use vstd::prelude::*;
use crate::life::animal::{Animal, Species, SpeciesProperties};
use crate::life::behaviour::{acted, lemma_positions, positions, positions_of, ready_to_act};
use crate::life::{DrawableLiving, MissionResult};
use crate::utils::{small, space_distance_squared, within_distance3_d, Point3D};
use crate::worldgen::World;

verus! {

/// What the world tells the keeper of living things.
pub enum AnimalHandlerEvent {
    /// A new animal to keep.
    NewAnimal(Animal),
    /// A request for what to draw.
    Draw,
    /// A tick of the clock at the given time, in the given world.
    Update(usize, World),
}

/// All living things, in the order they were added.
pub struct LifeManager {
    pub life: Vec<Animal>,
}

/// What is drawn of each animal: its species and where it stands.
pub open spec fn drawables(life: Seq<Animal>) -> Seq<DrawableLiving> {
    life.map_values(|a: Animal| DrawableLiving { species: a.species, current_pos: a.pos })
}

/// The animals of `life` of another species than `this`, within its sight
/// by the measure `cbrt(dx^2 + dy^2 + dz^2)`, with where they stand.
pub open spec fn near(life: Seq<Animal>, this: (Point3D, SpeciesProperties)) -> Seq<(Point3D, SpeciesProperties)>
    decreases life.len(),
{
    if life.len() == 0 {
        Seq::empty()
    } else {
        let rest = near(life.drop_last(), this);
        let o = life.last();
        if space_distance_squared(o.pos, this.0) <= this.1.sight * this.1.sight * this.1.sight
            && o.species.species != this.1.species {
            rest.push((o.pos, o.species))
        } else {
            rest
        }
    }
}

/// The first entry of `s`, from index `k` on, that is a hunter.
pub open spec fn first_hunter(s: Seq<(Point3D, SpeciesProperties)>, k: int) -> Option<SpeciesProperties>
    decreases s.len() - k,
{
    if k < 0 || k >= s.len() {
        None
    } else if s[k].1.species is Carnivore {
        Some(s[k].1)
    } else {
        first_hunter(s, k + 1)
    }
}

/// The first animal of `life`, from index `k` on, standing on the column
/// `(x, y)`.
pub open spec fn first_at(life: Seq<Animal>, x: usize, y: usize, k: int) -> Option<int>
    decreases life.len() - k,
{
    if k < 0 || k >= life.len() {
        None
    } else if life[k].pos.0 == x && life[k].pos.1 == y {
        Some(k)
    } else {
        first_at(life, x, y, k + 1)
    }
}

/// Every animal stands at a point below 2^20 on each axis.
pub open spec fn all_small(life: Seq<Animal>) -> bool {
    forall|j: int| 0 <= j < life.len() ==> small(#[trigger] life[j].pos)
}

impl LifeManager {
    pub fn new() -> (m: Self)
        ensures
            m.life@.len() == 0,
    {
        LifeManager { life: Vec::new() }
    }

    /// Where the animals of species `s` stand, in order.
    pub fn posns_of_species(&self, s: Species) -> (v: Vec<Point3D>)
        ensures
            v@ == positions(self.life@, s),
            forall|p: Point3D| v@.contains(p) <==> exists|j: int|
                0 <= j < self.life@.len() && (#[trigger] self.life@[j]).species.species == s
                    && self.life@[j].pos == p,
    {
        proof {
            assert forall|p: Point3D| positions(self.life@, s).contains(p) <==> exists|j: int|
                0 <= j < self.life@.len() && (#[trigger] self.life@[j]).species.species == s
                    && self.life@[j].pos == p by {
                lemma_positions(self.life@, s, p);
            }
        }
        positions_of(&self.life, s)
    }

    /// The animals of another species than `this` within its sight, with
    /// where they stand; see `near`.
    pub fn closeby(&self, this: (Point3D, SpeciesProperties)) -> (v: Vec<(Point3D, SpeciesProperties)>)
        requires
            small(this.0),
            all_small(self.life@),
        ensures
            v@ == near(self.life@, this),
    {
        let mut res: Vec<(Point3D, SpeciesProperties)> = Vec::new();
        let mut j: usize = 0;
        while j < self.life.len()
            invariant
                small(this.0),
                all_small(self.life@),
                j <= self.life@.len(),
                res@ == near(self.life@.take(j as int), this),
            decreases self.life@.len() - j,
        {
            assert(self.life@.take(j + 1).drop_last() =~= self.life@.take(j as int));
            let other = &self.life[j];
            assert(small(self.life@[j as int].pos));
            let ts = this.1;
            if within_distance3_d(other.pos, this.0, ts.sight) && other.species.species != ts.species {
                res.push((other.pos, other.species));
            }
            j += 1;
        }
        assert(self.life@.take(self.life@.len() as int) =~= self.life@);
        res
    }

    /// The first hunter among the animals close by `this`.
    pub fn closeby_predator(&self, this: (Point3D, SpeciesProperties)) -> (r: Option<SpeciesProperties>)
        requires
            small(this.0),
            all_small(self.life@),
        ensures
            r == first_hunter(near(self.life@, this), 0),
    {
        let close = self.closeby(this);
        let mut k: usize = 0;
        while k < close.len()
            invariant
                k <= close@.len(),
                close@ == near(self.life@, this),
                first_hunter(close@, 0) == first_hunter(close@, k as int),
            decreases close@.len() - k,
        {
            if matches!(close[k].1.species, Species::Carnivore(..)) {
                return Some(close[k].1);
            }
            k += 1;
        }
        None
    }

    /// Takes the animal at index `i` out of the world's life.
    pub fn kill(&mut self, i: usize) -> (a: Animal)
        requires
            i < old(self).life@.len(),
        ensures
            a == old(self).life@[i as int],
            final(self).life@ == old(self).life@.remove(i as int),
    {
        self.life.remove(i)
    }

    pub fn len(&self) -> (n: usize)
        ensures
            n == self.life@.len(),
    {
        self.life.len()
    }

    /// The animal at `location`.
    pub fn index(&self, location: usize) -> (a: &Animal)
        requires
            location < self.life@.len(),
        ensures
            *a == self.life@[location as int],
    {
        &self.life[location]
    }

    /// The first animal standing on the column `(x, y)`, with its index.
    pub fn life_at_point(&self, x: usize, y: usize) -> (r: Option<(usize, &Animal)>)
        ensures
            r matches Some((i, a)) ==> first_at(self.life@, x, y, 0) == Some(i as int) && *a
                == self.life@[i as int],
            r is None ==> first_at(self.life@, x, y, 0) is None,
    {
        let mut k: usize = 0;
        while k < self.life.len()
            invariant
                k <= self.life@.len(),
                first_at(self.life@, x, y, 0) == first_at(self.life@, x, y, k as int),
            decreases self.life@.len() - k,
        {
            let op = self.life[k].pos;
            if op.0 == x && op.1 == y {
                return Some((k, &self.life[k]));
            }
            k += 1;
        }
        None
    }

    /// What is drawn of each animal.
    pub fn get_drawables(&self) -> (v: Vec<DrawableLiving>)
        ensures
            v@ == drawables(self.life@),
    {
        let mut v: Vec<DrawableLiving> = Vec::new();
        let mut j: usize = 0;
        while j < self.life.len()
            invariant
                j <= self.life@.len(),
                v@ == drawables(self.life@.take(j as int)),
            decreases self.life@.len() - j,
        {
            let l = &self.life[j];
            v.push(DrawableLiving { species: l.species, current_pos: l.pos });
            assert(drawables(self.life@.take(j + 1)) =~= drawables(self.life@.take(j as int)).push(
                DrawableLiving { species: l.species, current_pos: l.pos },
            ));
            j += 1;
        }
        assert(self.life@.take(self.life@.len() as int) =~= self.life@);
        v
    }
}


/// Animals at even places act every second tick, the others every third.
pub open spec fn modifier(i: int) -> int {
    if i % 2 == 0 {
        2
    } else {
        3
    }
}

/// `wt` is the world `w` with `others` as its life.
pub open spec fn turn_world(w: World, wt: World, others: Seq<Animal>) -> bool {
    &&& wt == World { life: wt.life, ..w }
    &&& wt.life@ == others
}

/// `b` is `life[i]` after its turn in `w`, among the others, and `r` what
/// the turn asks. An animal whose step can be carried out takes it; one
/// whose step cannot stays as it is and asks nothing.
pub open spec fn took_turn(life: Seq<Animal>, w: World, i: int, b: Animal, r: MissionResult) -> bool {
    exists|wt: World|
        #[trigger] turn_world(w, wt, life.remove(i)) && if ready_to_act(life[i], &wt) {
            acted(life[i], b, &wt, r)
        } else {
            b == life[i] && r is NoResult
        }
}

/// Who dies of the turn of the animal at `i`: the animal itself when it
/// dies, the other one it names when it kills (counted among the others).
pub open spec fn victim(i: int, r: MissionResult) -> Option<int> {
    match r {
        MissionResult::Die(_) => Some(i),
        MissionResult::Kill(j) => Some(if j < i { j as int } else { j + 1 }),
        _ => None,
    }
}

/// The animals of `life`, from index `i` on, take the turns due at `time`
/// in `w`; `e` is what is left of them and `out` what was said. Each turn
/// says one thing: a death, as `Kill2` with where the dead stood and its
/// species, or else what the turn asked. The dead leave the list at once,
/// and the next turn is at the next index.
pub open spec fn updated(life: Seq<Animal>, w: World, time: usize, i: int, e: Seq<Animal>, out: Seq<MissionResult>) -> bool
    decreases life.len() + 1 - i,
{
    if i < 0 || i >= life.len() {
        e == life && out.len() == 0
    } else if (time as int) % modifier(i) != 0 {
        updated(life, w, time, i + 1, e, out)
    } else {
        exists|b: Animal, r: MissionResult|
            #[trigger] took_turn(life, w, i, b, r) && {
                let l = life.update(i, b);
                match victim(i, r) {
                    Some(k) => if 0 <= k < l.len() {
                        &&& out.len() > 0
                        &&& out[0] == MissionResult::Kill2(l[k].pos, l[k].species.species)
                        &&& updated(l.remove(k), w, time, i + 1, e, out.drop_first())
                    } else {
                        updated(l, w, time, i + 1, e, out)
                    },
                    None => {
                        &&& out.len() > 0
                        &&& out[0] == r
                        &&& updated(l, w, time, i + 1, e, out.drop_first())
                    },
                }
            }
    }
}

/// `b` is the keeper `a` after the event, and `out` what it says back. A
/// new animal joins the end of the list; a request to draw is answered
/// with what to draw; a tick runs the turns due.
pub open spec fn handled(a: Seq<Animal>, b: Seq<Animal>, event: AnimalHandlerEvent, out: Seq<MissionResult>) -> bool {
    match event {
        AnimalHandlerEvent::NewAnimal(x) => b == a.push(x) && out.len() == 0,
        AnimalHandlerEvent::Draw => {
            &&& b == a
            &&& out.len() == 1
            &&& out[0] matches MissionResult::List(v) && v@ == drawables(a)
        },
        AnimalHandlerEvent::Update(time, w) => updated(a, w, time, 0, b, out),
    }
}

impl LifeManager {
    /// One turn of the animal at `i`, in `world` among the others.
    fn take_turn(&mut self, world: &mut World, i: usize) -> (r: MissionResult)
        requires
            i < old(self).life@.len(),
        ensures
            *final(world) == *old(world),
            exists|b: Animal|
                #[trigger] took_turn(old(self).life@, *old(world), i as int, b, r) && final(self).life@
                    == old(self).life@.update(i as int, b),
    {
        let ghost life0 = self.life@;
        let ghost w0 = *world;
        let mut actor = self.life.remove(i);
        core::mem::swap(&mut world.life, &mut self.life);
        let ghost wt = *world;
        assert(turn_world(w0, wt, life0.remove(i as int)));
        let res = if actor.ready(world) {
            actor.execute_mission(world)
        } else {
            MissionResult::NoResult
        };
        let ghost b = actor;
        core::mem::swap(&mut world.life, &mut self.life);
        self.life.insert(i, actor);
        assert(self.life@ =~= life0.update(i as int, b));
        assert(took_turn(life0, w0, i as int, b, res));
        res
    }

    /// Handles one event from the world; see `handled`.
    pub fn handle(&mut self, event: AnimalHandlerEvent) -> (out: Vec<MissionResult>)
        ensures
            handled(old(self).life@, final(self).life@, event, out@),
    {
        let mut out: Vec<MissionResult> = Vec::new();
        match event {
            AnimalHandlerEvent::NewAnimal(animal) => {
                self.life.push(animal);
            },
            AnimalHandlerEvent::Draw => {
                out.push(MissionResult::List(self.get_drawables()));
            },
            AnimalHandlerEvent::Update(time, world) => {
                let ghost life0 = self.life@;
                let ghost w0 = world;
                let mut world = world;
                let mut i: usize = 0;
                while i < self.life.len()
                    invariant
                        world == w0,
                        forall|e: Seq<Animal>, o: Seq<MissionResult>|
                            updated(self.life@, w0, time, i as int, e, o) ==> #[trigger] updated(
                                life0,
                                w0,
                                time,
                                0,
                                e,
                                out@ + o,
                            ),
                    decreases self.life@.len() + 1 - i,
                {
                    let ghost cur = self.life@;
                    let ghost out0 = out@;
                    let every: usize = if i % 2 == 0 { 2 } else { 3 };
                    assert(every == modifier(i as int));
                    if time % every == 0 {
                        let res = self.take_turn(&mut world, i);
                        let ghost b = choose|b: Animal|
                            #[trigger] took_turn(cur, w0, i as int, b, res) && self.life@ == cur.update(
                                i as int,
                                b,
                            );
                        let ghost l = self.life@;
                        let idx: Option<usize> = match res {
                            MissionResult::Die(_) => Some(i),
                            MissionResult::Kill(j) => {
                                if j < i {
                                    Some(j)
                                } else if j < usize::MAX {
                                    Some(j + 1)
                                } else {
                                    None
                                }
                            },
                            _ => None,
                        };
                        let is_death = match res {
                            MissionResult::Die(_) | MissionResult::Kill(_) => true,
                            _ => false,
                        };
                        if is_death {
                            if let Some(k) = idx {
                                if k < self.life.len() {
                                    let dead = self.kill(k);
                                    out.push(MissionResult::Kill2(dead.pos, dead.species.species));
                                }
                            }
                        } else {
                            out.push(res);
                        }
                        proof {
                            let said = out@.subrange(out0.len() as int, out@.len() as int);
                            assert(out@ =~= out0 + said);
                            assert forall|e: Seq<Animal>, o: Seq<MissionResult>|
                                updated(self.life@, w0, time, i + 1, e, o) implies #[trigger] updated(
                                life0,
                                w0,
                                time,
                                0,
                                e,
                                out@ + o,
                            ) by {
                                if said.len() > 0 {
                                    assert((said + o).drop_first() =~= o);
                                }
                                assert(said.len() == 0 ==> said + o =~= o);
                                assert(took_turn(cur, w0, i as int, b, res));
                                assert(updated(cur, w0, time, i as int, e, said + o));
                                assert(out0 + (said + o) =~= out@ + o);
                            }
                        }
                    } else {
                        proof {
                            assert forall|e: Seq<Animal>, o: Seq<MissionResult>|
                                updated(self.life@, w0, time, i + 1, e, o) implies #[trigger] updated(
                                life0,
                                w0,
                                time,
                                0,
                                e,
                                out@ + o,
                            ) by {
                                assert(updated(cur, w0, time, i as int, e, o));
                            }
                        }
                    }
                    i += 1;
                }
                proof {
                    assert(updated(self.life@, w0, time, i as int, self.life@, Seq::empty()));
                    assert(out@ + Seq::<MissionResult>::empty() =~= out@);
                }
            },
        }
        out
    }
}


/// Handles one event with a keeper that starts out with no animals, as the
/// life thread does for each event it receives: a new animal is kept by
/// nobody afterwards, a tick has nobody to move, and a request to draw is
/// answered with an empty list.
pub fn handle_life(event: AnimalHandlerEvent) -> (out: Vec<MissionResult>)
    ensures
        event is Draw ==> out@.len() == 1 && (out@[0] matches MissionResult::List(v) && v@.len() == 0),
        !(event is Draw) ==> out@.len() == 0,
{
    let mut life = LifeManager::new();
    let out = life.handle(event);
    proof {
        assert(drawables(Seq::<Animal>::empty()).len() == 0);
    }
    out
}


/// A request to draw changes no animal, and a new animal joins the end of
/// the list with the others kept as they were.
pub proof fn law_events_keep_animals(a: Seq<Animal>, b: Seq<Animal>, event: AnimalHandlerEvent, out: Seq<MissionResult>)
    requires
        handled(a, b, event, out),
        !(event is Update),
    ensures
        event is Draw ==> b == a,
        event matches AnimalHandlerEvent::NewAnimal(x) ==> b.len() == a.len() + 1 && b.last() == x && b.drop_last() == a,
{
    if let AnimalHandlerEvent::NewAnimal(x) = event {
        assert(b.drop_last() =~= a);
    }
}


/// Every animal listed as close by is of another species than the one
/// asking, and within its sight: `dx^2 + dy^2 + dz^2` at most the cube of
/// its sight.
pub proof fn law_close_by_are_other_species(life: Seq<Animal>, this: (Point3D, SpeciesProperties))
    ensures
        forall|i: int|
            0 <= i < near(life, this).len() ==> {
                let e = #[trigger] near(life, this)[i];
                &&& e.1.species != this.1.species
                &&& space_distance_squared(e.0, this.0) <= this.1.sight * this.1.sight * this.1.sight
                &&& exists|j: int| 0 <= j < life.len() && life[j].pos == e.0 && life[j].species == e.1
            },
    decreases life.len(),
{
    if life.len() > 0 {
        law_close_by_are_other_species(life.drop_last(), this);
        let rest = near(life.drop_last(), this);
        assert forall|i: int| 0 <= i < near(life, this).len() implies {
            let e = #[trigger] near(life, this)[i];
            &&& e.1.species != this.1.species
            &&& space_distance_squared(e.0, this.0) <= this.1.sight * this.1.sight * this.1.sight
            &&& exists|j: int| 0 <= j < life.len() && life[j].pos == e.0 && life[j].species == e.1
        } by {
            if i < rest.len() {
                assert(near(life, this)[i] == rest[i]);
                let e = rest[i];
                let j = choose|j: int| 0 <= j < life.drop_last().len() && life.drop_last()[j].pos == e.0 && life.drop_last()[j].species == e.1;
                assert(life[j] == life.drop_last()[j]);
            } else {
                assert(life[life.len() - 1] == life.last());
            }
        }
    }
}

/// What is handed out to be drawn is, animal by animal and in their
/// order, each animal's species and where it stands.
pub proof fn law_drawables_are_the_animals(life: Seq<Animal>)
    ensures
        drawables(life).len() == life.len(),
        forall|i: int|
            0 <= i < life.len() ==> (#[trigger] drawables(life)[i]).current_pos == life[i].pos
                && drawables(life)[i].species == life[i].species,
{
}

} // verus!
