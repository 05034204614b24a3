//! Animals: species, their fixed properties and where they may go.
use vstd::prelude::*;
use crate::life::{priority, same_kind, Mission, Mood};
use crate::utils::Point3D;
use crate::worldgen::terrain::{Biome, BiomeType};
use crate::text::text;

verus! {

#[derive(Debug, Copy, Clone, PartialEq, Eq, Structural)]
pub enum Carnivore {
    Dog,
    Cat,
    Wolf,
    Shark,
    Alligator,
}

#[derive(Debug, Copy, Clone, PartialEq, Eq, Structural)]
pub enum Herbivore {
    Cow,
    Sheep,
    Hippo,
    Rabbit,
    Armadillo,
    Fish,
    Whale,
}

/// Possible animal species.
#[derive(Debug, Copy, Clone, PartialEq, Eq, Structural)]
pub enum Species {
    Carnivore(Carnivore),
    Herbivore(Herbivore),
}

#[derive(Debug, Copy, Clone, PartialEq, Eq, Structural)]
pub struct SpeciesProperties {
    pub health: i32,
    pub chr: char,
    pub sight: u8,
    pub mood: Mood,
    pub species: Species,
}

/// The fixed properties of each species: health, glyph, sight and mood.
pub open spec fn species_table(s: Species) -> (i32, char, u8, Mood) {
    match s {
        Species::Carnivore(Carnivore::Dog) => (200, 'd', 24, Mood::Contented),
        Species::Carnivore(Carnivore::Cat) => (100, 'c', 27, Mood::Discontented),
        Species::Carnivore(Carnivore::Wolf) => (400, 'w', 33, Mood::Wary),
        Species::Carnivore(Carnivore::Shark) => (800, 'S', 60, Mood::Agressive),
        Species::Carnivore(Carnivore::Alligator) => (800, 'A', 60, Mood::Agressive),
        Species::Herbivore(Herbivore::Fish) => (10, 'f', 9, Mood::Fearful),
        Species::Herbivore(Herbivore::Whale) => (10000, 'W', 45, Mood::Contented),
        Species::Herbivore(Herbivore::Cow) => (300, 'c', 15, Mood::Contented),
        Species::Herbivore(Herbivore::Hippo) => (300, 'H', 15, Mood::Agressive),
        Species::Herbivore(Herbivore::Sheep) => (200, 's', 6, Mood::Wary),
        Species::Herbivore(Herbivore::Rabbit) => (10, 'r', 9, Mood::Fearful),
        Species::Herbivore(Herbivore::Armadillo) => (100, 'a', 15, Mood::Wary),
    }
}

pub open spec fn spec_properties(s: Species) -> SpeciesProperties {
    let (health, chr, sight, mood) = species_table(s);
    SpeciesProperties { health, chr, sight, mood, species: s }
}

impl Species {
    pub fn properties(&self) -> (p: SpeciesProperties)
        ensures
            p == spec_properties(*self),
    {
        match self {
            Species::Carnivore(Carnivore::Dog) => SpeciesProperties {
                health: 200,
                chr: 'd',
                sight: 24,
                species: *self,
                mood: Mood::Contented,
            },
            Species::Carnivore(Carnivore::Cat) => SpeciesProperties {
                health: 100,
                chr: 'c',
                species: *self,
                sight: 27,
                mood: Mood::Discontented,
            },
            Species::Carnivore(Carnivore::Wolf) => SpeciesProperties {
                health: 400,
                chr: 'w',
                species: *self,
                sight: 33,
                mood: Mood::Wary,
            },
            Species::Carnivore(Carnivore::Shark) => SpeciesProperties {
                health: 800,
                chr: 'S',
                species: *self,
                sight: 60,
                mood: Mood::Agressive,
            },
            Species::Carnivore(Carnivore::Alligator) => SpeciesProperties {
                health: 800,
                chr: 'A',
                species: *self,
                sight: 60,
                mood: Mood::Agressive,
            },
            Species::Herbivore(Herbivore::Fish) => SpeciesProperties {
                health: 10,
                species: *self,
                chr: 'f',
                sight: 9,
                mood: Mood::Fearful,
            },
            Species::Herbivore(Herbivore::Whale) => SpeciesProperties {
                health: 10000,
                chr: 'W',
                species: *self,
                sight: 45,
                mood: Mood::Contented,
            },
            Species::Herbivore(Herbivore::Cow) => SpeciesProperties {
                health: 300,
                chr: 'c',
                species: *self,
                sight: 15,
                mood: Mood::Contented,
            },
            Species::Herbivore(Herbivore::Hippo) => SpeciesProperties {
                health: 300,
                chr: 'H',
                species: *self,
                sight: 15,
                mood: Mood::Agressive,
            },
            Species::Herbivore(Herbivore::Sheep) => SpeciesProperties {
                health: 200,
                chr: 's',
                species: *self,
                sight: 6,
                mood: Mood::Wary,
            },
            Species::Herbivore(Herbivore::Rabbit) => SpeciesProperties {
                health: 10,
                chr: 'r',
                species: *self,
                sight: 9,
                mood: Mood::Fearful,
            },
            Species::Herbivore(Herbivore::Armadillo) => SpeciesProperties {
                health: 100,
                chr: 'a',
                species: *self,
                sight: 15,
                mood: Mood::Wary,
            },
        }
    }
}

pub open spec fn carnivore_ident(c: Carnivore) -> Seq<char> {
    match c {
        Carnivore::Dog => "Dog"@,
        Carnivore::Cat => "Cat"@,
        Carnivore::Wolf => "Wolf"@,
        Carnivore::Shark => "Shark"@,
        Carnivore::Alligator => "Alligator"@,
    }
}

pub open spec fn herbivore_ident(h: Herbivore) -> Seq<char> {
    match h {
        Herbivore::Cow => "Cow"@,
        Herbivore::Sheep => "Sheep"@,
        Herbivore::Hippo => "Hippo"@,
        Herbivore::Rabbit => "Rabbit"@,
        Herbivore::Armadillo => "Armadillo"@,
        Herbivore::Fish => "Fish"@,
        Herbivore::Whale => "Whale"@,
    }
}

/// The species as `{:?}` writes it, such as `Carnivore(Dog)`.
pub open spec fn species_ident(s: Species) -> Seq<char> {
    match s {
        Species::Carnivore(c) => "Carnivore("@ + carnivore_ident(c) + ")"@,
        Species::Herbivore(h) => "Herbivore("@ + herbivore_ident(h) + ")"@,
    }
}

impl Species {
    /// The species as `{:?}` writes it, such as `Carnivore(Dog)`.
    pub fn ident(&self) -> (s: String)
        ensures
            s@ == species_ident(*self),
    {
        let (mut s, inner) = match self {
            Species::Carnivore(c) => (
                text("Carnivore("),
                match c {
                    Carnivore::Dog => "Dog",
                    Carnivore::Cat => "Cat",
                    Carnivore::Wolf => "Wolf",
                    Carnivore::Shark => "Shark",
                    Carnivore::Alligator => "Alligator",
                },
            ),
            Species::Herbivore(h) => (
                text("Herbivore("),
                match h {
                    Herbivore::Cow => "Cow",
                    Herbivore::Sheep => "Sheep",
                    Herbivore::Hippo => "Hippo",
                    Herbivore::Rabbit => "Rabbit",
                    Herbivore::Armadillo => "Armadillo",
                    Herbivore::Fish => "Fish",
                    Herbivore::Whale => "Whale",
                },
            ),
        };
        s.append(inner);
        s.append(")");
        s
    }
}

/// Where a species may go: sea animals only in water, land animals only
/// out of it, alligators anywhere.
pub open spec fn may_go(s: Species, b: BiomeType) -> bool {
    match s {
        Species::Herbivore(Herbivore::Whale) => b == BiomeType::Water,
        Species::Herbivore(Herbivore::Fish) => b == BiomeType::Water,
        Species::Carnivore(Carnivore::Shark) => b == BiomeType::Water,
        Species::Carnivore(Carnivore::Alligator) => true,
        _ => b != BiomeType::Water,
    }
}

impl SpeciesProperties {
    pub fn can_go(&self, biome: Biome) -> (r: bool)
        ensures
            r == may_go(self.species, biome.biome_type),
    {
        let b = biome.biome_type;
        match self.species {
            Species::Herbivore(Herbivore::Whale) => b == BiomeType::Water,
            Species::Herbivore(Herbivore::Fish) => b == BiomeType::Water,
            Species::Carnivore(Carnivore::Shark) => b == BiomeType::Water,
            Species::Carnivore(Carnivore::Dog) => b != BiomeType::Water,
            Species::Carnivore(Carnivore::Cat) => b != BiomeType::Water,
            Species::Carnivore(Carnivore::Wolf) => b != BiomeType::Water,
            Species::Herbivore(_) => b != BiomeType::Water,
            _ => true,
        }
    }
}

/// Thirst at which an animal dies.
pub const THIRST_THRESHOLD: i32 = 3000;
/// Hunger at which an animal dies.
pub const HUNGER_THRESHOLD: i32 = 6800;

/// The goals are kept in order of priority, never decreasing: goals may
/// share a priority, and a most urgent one comes last.
pub open spec fn sorted_goals(g: Seq<Mission>) -> bool {
    forall|i: int, j: int| 0 <= i < j < g.len() ==> priority(g[i]) <= priority(g[j])
}

/// Where a mission of priority `p` is filed: after every goal of priority
/// at most `p`, before every goal of a higher one.
pub open spec fn filed_at(goals: Seq<Mission>, p: int, i: int) -> bool {
    &&& 0 <= i <= goals.len()
    &&& forall|j: int| 0 <= j < i ==> priority(#[trigger] goals[j]) <= p
    &&& forall|j: int| i <= j < goals.len() ==> priority(#[trigger] goals[j]) > p
}

/// `b` is `a` after adding the mission `m`. Dying clears every goal, takes
/// the health to zero and becomes the current goal. Any other mission is
/// filed in order of priority, after the goals of the same priority, and
/// becomes the current goal when there is none. Either way no goal is left
/// failed.
pub open spec fn goal_added(a: Animal, b: Animal, m: Mission) -> bool {
    if m is Die {
        &&& b.goals@.len() == 0
        &&& b == Animal {
            goals: b.goals,
            current_goal: Some(Mission::Die),
            failed_goal: None,
            species: SpeciesProperties { health: 0, ..a.species },
            ..a
        }
    } else {
        &&& exists|i: int| filed_at(a.goals@, priority(m), i) && b.goals@ == a.goals@.insert(i, m)
        &&& b == Animal {
            goals: b.goals,
            current_goal: if a.current_goal is None {
                Some(m)
            } else {
                a.current_goal
            },
            failed_goal: None,
            ..a
        }
    }
}

/// `b` is `a` after one step along its path: to the path's last point,
/// which leaves the path; with the path used up, it has arrived. Without a
/// path nothing changes.
pub open spec fn moved_on(a: Animal, b: Animal) -> bool {
    match a.path {
        None => b == a,
        Some(p) => if p@.len() > 0 {
            &&& b.path matches Some(q) && q@ == p@.drop_last()
            &&& b == Animal { path: b.path, pos: p@.last(), ..a }
        } else {
            &&& b.path matches Some(q) && q@.len() == 0
            &&& b == Animal { path: b.path, arrived: true, ..a }
        },
    }
}

/// The animal itself. It keeps track of all its mental and physical
/// states, as well as its goals.
pub struct Animal {
    pub thirst: i32,
    pub hunger: i32,
    pub goals: Vec<Mission>,
    pub path: Option<Vec<Point3D>>,
    pub arrived: bool,
    pub failed_goal: Option<Mission>,
    pub species: SpeciesProperties,
    pub pos: (usize, usize, usize),
    pub current_goal: Option<Mission>,
}

/// A newly made animal of the species at `pnt`.
pub open spec fn newborn(a: Animal, pnt: Point3D, species: Species) -> bool {
    &&& a.well_formed()
    &&& a.thirst == 200
    &&& a.hunger == 600
    &&& a.goals@.len() == 0
    &&& a.path is None
    &&& !a.arrived
    &&& a.failed_goal is None
    &&& a.pos == pnt
    &&& a.current_goal is None
    &&& a.species == spec_properties(species)
}

impl Animal {
    /// The animal's goals are in order of priority.
    pub open spec fn well_formed(&self) -> bool {
        sorted_goals(self.goals@)
    }

    /// A new animal of the species at `pnt`, a little thirsty and hungry,
    /// with nothing to do.
    pub fn new(pnt: Point3D, species: Species) -> (a: Animal)
        ensures
            newborn(a, pnt, species),
    {
        Animal {
            thirst: 200,
            hunger: 600,
            goals: Vec::new(),
            path: None,
            arrived: false,
            failed_goal: None,
            pos: pnt,
            current_goal: None,
            species: species.properties(),
        }
    }

    /// Whether the goals are in order of priority.
    pub fn goals_in_order(&self) -> (r: bool)
        ensures
            r == self.well_formed(),
    {
        let mut i: usize = 1;
        while i < self.goals.len()
            invariant
                1 <= i,
                i <= self.goals@.len() || self.goals@.len() == 0,
                forall|a: int, b: int| 0 <= a < b < i && b < self.goals@.len() ==> priority(self.goals@[a]) <= priority(self.goals@[b]),
            decreases self.goals@.len() - i,
        {
            if self.goals[i - 1].priority() > self.goals[i].priority() {
                return false;
            }
            proof {
                assert forall|a: int, b: int| 0 <= a < b < i + 1 && b < self.goals@.len() implies priority(self.goals@[a]) <= priority(self.goals@[b]) by {
                    if b == i && a < i - 1 {
                        assert(priority(self.goals@[a]) <= priority(self.goals@[i - 1]));
                    }
                }
            }
            i += 1;
        }
        true
    }

    /// How far below the thresholds thirst and hunger start to matter.
    pub fn tolerance(&self) -> (t: i32)
        ensures
            t == 800,
    {
        800
    }

    pub fn current_pos(&self) -> (p: Point3D)
        ensures
            p == self.pos,
    {
        self.pos
    }

    pub fn species(&self) -> (s: &SpeciesProperties)
        ensures
            *s == self.species,
    {
        &self.species
    }

    /// The current goal and the goal that last failed.
    pub fn goals(&self) -> (g: (Option<Mission>, Option<Mission>))
        ensures
            g == (self.current_goal, self.failed_goal),
    {
        (self.current_goal, self.failed_goal)
    }

    /// Where a goal of priority `p` is filed, by binary search.
    fn filing_position(&self, p: usize) -> (i: usize)
        requires
            self.well_formed(),
        ensures
            filed_at(self.goals@, p as int, i as int),
    {
        let mut lo: usize = 0;
        let mut hi: usize = self.goals.len();
        while lo < hi
            invariant
                self.well_formed(),
                lo <= hi <= self.goals@.len(),
                forall|j: int| 0 <= j < lo ==> priority(#[trigger] self.goals@[j]) <= p,
                forall|j: int| hi <= j < self.goals@.len() ==> priority(#[trigger] self.goals@[j]) > p,
            decreases hi - lo,
        {
            let mid = lo + (hi - lo) / 2;
            let q = self.goals[mid].priority();
            if q <= p {
                proof {
                    assert forall|j: int| 0 <= j < mid + 1 implies priority(#[trigger] self.goals@[j]) <= p by {
                        if j < mid {
                            assert(priority(self.goals@[j]) <= priority(self.goals@[mid as int]));
                        }
                    }
                }
                lo = mid + 1;
            } else {
                proof {
                    assert forall|j: int| mid <= j < self.goals@.len() implies priority(#[trigger] self.goals@[j]) > p by {
                        if j > mid {
                            assert(priority(self.goals@[mid as int]) <= priority(self.goals@[j]));
                        }
                    }
                }
                hi = mid;
            }
        }
        lo
    }

    /// Adds a mission to the goals. Dying clears every goal and becomes the
    /// current goal at once; any other mission is filed by priority, after
    /// the goals of the same priority, and becomes the current goal when
    /// there is none.
    pub fn add_goal(&mut self, mission: Mission)
        requires
            old(self).well_formed(),
        ensures
            final(self).well_formed(),
            goal_added(*old(self), *final(self), mission),
    {
        if let Mission::Die = mission {
            self.failed_goal = None;
            self.current_goal = Some(Mission::Die);
            self.species.health = 0;
            self.goals = Vec::new();
        } else {
            self.failed_goal = None;
            let i = self.filing_position(mission.priority());
            let ghost before = self.goals@;
            self.goals.insert(i, mission);
            proof {
                assert(self.goals@ == before.insert(i as int, mission));
                assert forall|a: int, b: int|
                    0 <= a < b < self.goals@.len() implies priority(self.goals@[a])
                    <= priority(self.goals@[b]) by {
                    if a < i && b > i {
                        assert(self.goals@[b] == before[b - 1]);
                    } else if a > i {
                        assert(self.goals@[a] == before[a - 1]);
                        assert(self.goals@[b] == before[b - 1]);
                    } else if a == i {
                        assert(self.goals@[b] == before[b - 1]);
                    }
                }
            }
            if self.current_goal.is_none() {
                self.current_goal = Some(self.goals[i]);
            }
        }
    }

    /// Removes the first goal of the same kind as `tag` and returns it.
    pub fn remove_goal(&mut self, tag: &Mission) -> (r: Option<Mission>)
        requires
            old(self).well_formed(),
        ensures
            final(self).well_formed(),
            *final(self) == (Animal { goals: final(self).goals, ..*old(self) }),
            r is None <==> forall|j: int|
                0 <= j < old(self).goals@.len() ==> !same_kind(#[trigger] old(self).goals@[j], *tag),
            r is None ==> final(self).goals@ == old(self).goals@,
            r is Some ==> exists|j: int|
                {
                    &&& 0 <= j < old(self).goals@.len()
                    &&& same_kind(#[trigger] old(self).goals@[j], *tag)
                    &&& forall|k: int| 0 <= k < j ==> !same_kind(#[trigger] old(self).goals@[k], *tag)
                    &&& r == Some(old(self).goals@[j])
                    &&& final(self).goals@ == old(self).goals@.remove(j)
                },
    {
        let mut j: usize = 0;
        while j < self.goals.len()
            invariant
                *self == *old(self),
                old(self).well_formed(),
                j <= self.goals@.len(),
                forall|k: int| 0 <= k < j ==> !same_kind(#[trigger] self.goals@[k], *tag),
            decreases self.goals@.len() - j,
        {
            if self.goals[j] == *tag {
                let ghost before = self.goals@;
                let m = self.goals.remove(j);
                proof {
                    assert(self.goals@ == before.remove(j as int));
                    assert forall|a: int, b: int|
                        0 <= a < b < self.goals@.len() implies priority(self.goals@[a])
                        <= priority(self.goals@[b]) by {
                        if a >= j {
                            assert(self.goals@[a] == before[a + 1]);
                        }
                        if b >= j {
                            assert(self.goals@[b] == before[b + 1]);
                        }
                    }
                }
                return Some(m);
            }
            j += 1;
        }
        None
    }

    /// Removes the `n` least urgent goals and returns them; with fewer than
    /// `n` goals, every goal is removed and returned.
    pub fn prioritize(&mut self, n: usize) -> (r: Vec<Mission>)
        requires
            old(self).well_formed(),
        ensures
            final(self).well_formed(),
            *final(self) == (Animal { goals: final(self).goals, ..*old(self) }),
            n <= old(self).goals@.len() ==> r@ == old(self).goals@.subrange(0, n as int)
                && final(self).goals@ == old(self).goals@.subrange(n as int, old(self).goals@.len() as int),
            n > old(self).goals@.len() ==> r@ == old(self).goals@ && final(self).goals@.len() == 0,
    {
        let mut taken: Vec<Mission> = Vec::new();
        if n <= self.goals.len() {
            let mut rest: Vec<Mission> = Vec::new();
            let mut i: usize = 0;
            while i < self.goals.len()
                invariant
                    n <= self.goals@.len(),
                    i <= self.goals@.len(),
                    i <= n ==> taken@ == self.goals@.subrange(0, i as int) && rest@.len() == 0,
                    i > n ==> taken@ == self.goals@.subrange(0, n as int) && rest@
                        == self.goals@.subrange(n as int, i as int),
                decreases self.goals@.len() - i,
            {
                if i < n {
                    taken.push(self.goals[i]);
                } else {
                    rest.push(self.goals[i]);
                }
                i += 1;
            }
            let ghost before = self.goals@;
            self.goals = rest;
            proof {
                assert(self.goals@ == before.subrange(n as int, before.len() as int));
                assert forall|a: int, b: int|
                    0 <= a < b < self.goals@.len() implies priority(self.goals@[a])
                    <= priority(self.goals@[b]) by {
                    assert(self.goals@[a] == before[a + n]);
                    assert(self.goals@[b] == before[b + n]);
                }
            }
        } else {
            let mut i: usize = 0;
            while i < self.goals.len()
                invariant
                    i <= self.goals@.len(),
                    taken@ == self.goals@.subrange(0, i as int),
                decreases self.goals@.len() - i,
            {
                taken.push(self.goals[i]);
                i += 1;
            }
            self.goals = Vec::new();
        }
        taken
    }

    /// Takes one step along the planned path, last point first; with the
    /// path used up, the animal has arrived.
    pub fn continue_movement(&mut self)
        ensures
            old(self).path is None ==> *final(self) == *old(self),
            old(self).path is Some ==> final(self).path is Some,
            old(self).path is Some && old(self).path->0@.len() > 0 ==> {
                &&& final(self).pos == old(self).path->0@.last()
                &&& final(self).path->0@ == old(self).path->0@.drop_last()
                &&& final(self).arrived == old(self).arrived
            },
            old(self).path is Some && old(self).path->0@.len() == 0 ==> {
                &&& final(self).pos == old(self).pos
                &&& final(self).path->0@.len() == 0
                &&& final(self).arrived
            },
            final(self).goals@ == old(self).goals@,
            final(self).current_goal == old(self).current_goal,
            final(self).failed_goal == old(self).failed_goal,
            final(self).thirst == old(self).thirst,
            final(self).hunger == old(self).hunger,
            final(self).species == old(self).species,
            moved_on(*old(self), *final(self)),
    {
        if let Some(ref mut path) = self.path {
            if let Some(npos) = path.pop() {
                self.pos = npos;
            } else {
                self.arrived = true;
            }
        }
    }
}


/// The goals given up when prioritizing are no more urgent than any goal
/// kept.
pub proof fn law_prioritize_drops_least_urgent(goals: Seq<Mission>, n: int)
    requires
        sorted_goals(goals),
        0 <= n <= goals.len(),
    ensures
        forall|i: int, j: int|
            0 <= i < n && 0 <= j < goals.len() - n ==> priority(#[trigger] goals.subrange(0, n)[i]) <= priority(
                #[trigger] goals.subrange(n, goals.len() as int)[j],
            ),
{
    assert forall|i: int, j: int|
        0 <= i < n && 0 <= j < goals.len() - n implies priority(#[trigger] goals.subrange(0, n)[i]) <= priority(
        #[trigger] goals.subrange(n, goals.len() as int)[j],
    ) by {
        assert(goals.subrange(0, n)[i] == goals[i]);
        assert(goals.subrange(n, goals.len() as int)[j] == goals[j + n]);
    }
}

/// The goal taken up next is the most urgent of those waiting.
pub proof fn law_next_goal_most_urgent(goals: Seq<Mission>)
    requires
        sorted_goals(goals),
        goals.len() > 0,
    ensures
        forall|i: int| 0 <= i < goals.len() ==> priority(goals[i]) <= priority(goals.last()),
{
}

} // verus!
