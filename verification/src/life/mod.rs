//! Living things: their moods, the missions they give themselves and the
//! orders the player gives them.
use vstd::prelude::*;
use vstd::std_specs::cmp::PartialEqSpecImpl;
use core::cmp::Ordering;
use crate::draw::{put, Background, DrawChar, DrawCmd};
use crate::life::animal::SpeciesProperties;
use crate::utils::{Point2D, Point3D, Rect2D, Rect2D3D};
use crate::worldgen::terrain::Item;

pub mod animal;
pub mod behaviour;
pub mod readiness;
pub mod manager;

verus! {

pub type Priority = usize;

pub type HealthLevel = usize;

/// The mental mood of a living actor.
#[derive(Debug, Copy, Clone, PartialEq, Eq, Structural)]
pub enum Mood {
    Angry,
    Fearful,
    Agressive,
    Wary,
    Joyful,
    Happy,
    Contented,
    Discontented,
    Unhappy,
    Depressed,
}

/// Orders the player assigns.
#[derive(Debug, PartialEq, Eq, Clone, Copy)]
pub enum Order {
    GatherPlants(Rect2D),
    FellTrees(Rect2D),
    CartGoods(Rect2D),
    Go(Point3D),
    Mine(Rect2D),
    BuildWall(Rect2D),
    BuildFence(Rect2D),
    BuildRamp(Point2D),
}

/// Actions that can be performed on an eatable object.
pub trait Eatable: Sized {
    fn cook(self) -> Self;
}

/// Actions that can be performed on a drinkable object.
pub trait Drinkable: Sized {
    fn filter(self) -> Self;
    fn boild(self) -> Self;
    fn satisfaction(self) -> Self;
}

/// What carrying out one step of a mission asks of the world.
#[derive(Debug)]
pub enum MissionResult {
    NoResult,
    /// The animal at this index dies; zero stands for the acting animal.
    Die(usize),
    List(Vec<DrawableLiving>),
    /// The animal at this index is killed; zero stands for the acting
    /// animal.
    Kill(usize),
    Kill2(Point3D, crate::life::animal::Species),
    ReplaceItem(Point3D, Item),
    RemoveItem(Point3D),
}

/// Basic missions that animals give themselves.
#[derive(Debug, Clone, Copy)]
pub enum Mission {
    Eat(Priority),
    PickFood(Priority),
    Drink(Priority),
    AttackEnemy(Priority),
    GoToArea(Rect2D3D, Priority),
    Go(Point2D, Priority),
    Obey(Priority, Order),
    Die,
}

/// How urgent a mission is; dying outranks all.
pub open spec fn priority(m: Mission) -> int {
    match m {
        Mission::Eat(p) => p as int,
        Mission::PickFood(p) => p as int,
        Mission::Drink(p) => p as int,
        Mission::AttackEnemy(p) => p as int,
        Mission::GoToArea(_, p) => p as int,
        Mission::Go(_, p) => p as int,
        Mission::Obey(p, _) => p as int,
        Mission::Die => 1000,
    }
}

/// Missions count as the same when they are of one of the kinds eat,
/// drink, attack, go to an area or obey, and of the same kind; picking
/// food, going to a point and dying are never the same as anything.
pub open spec fn same_kind(a: Mission, b: Mission) -> bool {
    match (a, b) {
        (Mission::Eat(..), Mission::Eat(..)) => true,
        (Mission::Drink(..), Mission::Drink(..)) => true,
        (Mission::AttackEnemy(..), Mission::AttackEnemy(..)) => true,
        (Mission::GoToArea(..), Mission::GoToArea(..)) => true,
        (Mission::Obey(..), Mission::Obey(..)) => true,
        _ => false,
    }
}

impl Mission {
    pub fn priority(&self) -> (p: usize)
        ensures
            p == priority(*self),
    {
        match self {
            Mission::PickFood(p) | Mission::Eat(p) | Mission::Drink(p) | Mission::AttackEnemy(p)
            | Mission::GoToArea(_, p) | Mission::Obey(p, _) => *p,
            Mission::Go(_, p) => *p,
            Mission::Die => 1000,
        }
    }

    /// Missions are ordered by priority alone.
    pub fn cmp(&self, other: &Self) -> (o: Ordering)
        ensures
            o == Ordering::Less <==> priority(*self) < priority(*other),
            o == Ordering::Equal <==> priority(*self) == priority(*other),
            o == Ordering::Greater <==> priority(*self) > priority(*other),
    {
        let priority_a = self.priority();
        let priority_b = other.priority();
        if priority_a < priority_b {
            Ordering::Less
        } else if priority_a == priority_b {
            Ordering::Equal
        } else {
            Ordering::Greater
        }
    }
}

impl PartialEq for Mission {
    fn eq(&self, other: &Mission) -> (r: bool) {
        match (self, other) {
            (Mission::Eat(..), Mission::Eat(..)) => true,
            (Mission::Drink(..), Mission::Drink(..)) => true,
            (Mission::AttackEnemy(..), Mission::AttackEnemy(..)) => true,
            (Mission::GoToArea(..), Mission::GoToArea(..)) => true,
            (Mission::Obey(..), Mission::Obey(..)) => true,
            _ => false,
        }
    }
}

impl PartialEqSpecImpl for Mission {
    open spec fn obeys_eq_spec() -> bool {
        true
    }

    open spec fn eq_spec(&self, other: &Mission) -> bool {
        same_kind(*self, *other)
    }
}

/// What is needed to draw a living thing.
#[derive(Debug, Clone, Copy, PartialEq)]
pub struct DrawableLiving {
    pub species: SpeciesProperties,
    pub current_pos: Point3D,
}

impl DrawChar for DrawableLiving {
    open spec fn drawable(&self) -> bool {
        true
    }

    /// An animal is drawn as its species' letter.
    fn draw_char(&self, pos: (usize, usize)) -> (r: Vec<DrawCmd>)
        ensures
            r@ == seq![put(pos, self.species.chr as u32, Background::Default)],
    {
        vec![
            DrawCmd::PutChar {
                x: pos.0,
                y: pos.1,
                chr: self.species.chr as u32,
                flag: Background::Default,
            },
        ]
    }
}

} // verus!
