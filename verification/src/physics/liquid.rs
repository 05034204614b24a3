//! Containers of liquids.
use vstd::prelude::*;
use crate::utils::Point2D;
use crate::worldgen::Unit;

verus! {

/// A liquid that can be poured into a container. Implementors promise that
/// `quantity` reports the quantity the liquid is made with. A liquid makes
/// more of itself, so `new` gives the implementing type back.
pub trait Liquid: Sized {
    spec fn spec_quantity(&self) -> int;

    fn quantity(&self) -> (q: i32)
        ensures
            q == self.spec_quantity(),
    ;

    fn amount(&self) -> i32;

    /// The same liquid in another quantity.
    fn new(&self, quantity: i32) -> (l: Self)
        ensures
            l.spec_quantity() == quantity,
    ;
}

/// The sum of the first `n` quantities.
pub open spec fn total(qs: Seq<int>, n: int) -> int
    decreases n,
{
    if n <= 0 {
        0
    } else {
        total(qs, n - 1) + qs[n - 1]
    }
}

pub struct Container<L: Liquid> {
    pub size: i32,
    pub name: &'static str,
    pub liquids: Vec<L>,
}

impl<L: Liquid> Container<L> {
    /// The quantities of the liquids held, in the order they were poured.
    pub open spec fn quantities(&self) -> Seq<int> {
        Seq::new(self.liquids@.len(), |i: int| self.liquids@[i].spec_quantity())
    }

    /// Every running total of the quantities held fits in an `i32`.
    pub open spec fn well_formed(&self) -> bool {
        forall|n: int|
            0 <= n <= self.liquids@.len() ==> i32::MIN <= #[trigger] total(self.quantities(), n)
                <= i32::MAX
    }

    /// How much the container holds in all.
    pub open spec fn spec_contents(&self) -> int {
        total(self.quantities(), self.liquids@.len() as int)
    }

    pub fn contents(&self) -> (c: i32)
        requires
            self.well_formed(),
        ensures
            c == self.spec_contents(),
    {
        let mut sum: i32 = 0;
        let mut i: usize = 0;
        while i < self.liquids.len()
            invariant
                i <= self.liquids@.len(),
                self.well_formed(),
                sum == total(self.quantities(), i as int),
            decreases self.liquids@.len() - i,
        {
            assert(i32::MIN <= total(self.quantities(), i + 1) <= i32::MAX);
            sum = sum + self.liquids[i].quantity();
            i += 1;
        }
        sum
    }

    /// True while the container holds less than its size.
    pub fn is_full(&self) -> (r: bool)
        requires
            self.well_formed(),
        ensures
            r == (self.spec_contents() < self.size),
    {
        self.contents() < self.size
    }

    /// Whether `liq` can be poured in without reaching the size.
    pub fn can_fit(&self, liq: &L) -> (r: bool)
        requires
            self.well_formed(),
            i32::MIN <= self.spec_contents() + liq.spec_quantity() <= i32::MAX,
        ensures
            r == (self.spec_contents() + liq.spec_quantity() < self.size),
    {
        self.contents() + liq.quantity() < self.size
    }

    pub fn is_empty(&self) -> (r: bool)
        ensures
            r == (self.liquids@.len() == 0),
    {
        self.liquids.len() == 0
    }

    /// Pours `liq` in if it fits below the size. Otherwise nothing changes
    /// and the result is `false`. A liquid that does not fit into a
    /// container already at its size is topped up without end, so that
    /// case is left out.
    pub fn fill(&mut self, liq: L) -> (r: bool)
        requires
            old(self).well_formed(),
            i32::MIN <= old(self).spec_contents() + liq.spec_quantity() <= i32::MAX,
            old(self).spec_contents() < old(self).size || old(self).spec_contents()
                + liq.spec_quantity() < old(self).size,
        ensures
            final(self).well_formed(),
            final(self).size == old(self).size,
            r == (old(self).spec_contents() + liq.spec_quantity() < old(self).size),
            r ==> final(self).liquids@ == old(self).liquids@.push(liq),
            !r ==> final(self).liquids@ == old(self).liquids@,
        decreases 0nat,
    {
        if self.can_fit(&liq) {
            let ghost before = self.quantities();
            self.liquids.push(liq);
            proof {
                assert(self.quantities() =~= before.push(liq.spec_quantity()));
                assert forall|n: int| 0 <= n <= self.liquids@.len() implies i32::MIN
                    <= #[trigger] total(self.quantities(), n) <= i32::MAX by {
                    lemma_total_prefix(before, liq.spec_quantity(), n);
                }
            }
            true
        } else if self.is_full() {
            false
        } else {
            let nliq = liq.new(self.size - self.contents());
            self.fill(nliq)
        }
    }
}

proof fn lemma_total_prefix(qs: Seq<int>, q: int, n: int)
    requires
        0 <= n <= qs.len() + 1,
    ensures
        n <= qs.len() ==> total(qs.push(q), n) == total(qs, n),
        n == qs.len() + 1 ==> total(qs.push(q), n) == total(qs, qs.len() as int) + q,
    decreases n,
{
    if n > 0 {
        lemma_total_prefix(qs, q, n - 1);
    }
}


/// The columns after stone settles around `pnt`: nothing new.
pub fn solid_physics(pnt: Point2D, aj: Vec<Unit>) -> (r: Option<Vec<Unit>>)
    ensures
        r is None,
{
    None
}

/// The columns next to `pnt` after liquid settles: each column keeps its
/// biome and the first `h % 23` of its `h` tiles. Since `h % 23` never
/// exceeds `h`, no water is ever added on top.
pub fn liquid_physics(pnt: Point2D, aj: Vec<Unit>) -> (r: Option<Vec<Unit>>)
    ensures
        r matches Some(v) && v@.len() == aj@.len() && forall|i: int|
            0 <= i < aj@.len() ==> (#[trigger] v@[i]).biome == aj@[i].biome && v@[i].tiles@
                == aj@[i].tiles@.take((aj@[i].tiles@.len() % 23) as int),
{
    let mut out: Vec<Unit> = Vec::new();
    let mut i: usize = 0;
    while i < aj.len()
        invariant
            i <= aj@.len(),
            out@.len() == i,
            forall|k: int|
                0 <= k < i ==> (#[trigger] out@[k]).biome == aj@[k].biome && out@[k].tiles@
                    == aj@[k].tiles@.take((aj@[k].tiles@.len() % 23) as int),
        decreases aj@.len() - i,
    {
        let u = &aj[i];
        let len = u.tiles.len();
        let new_height = len % 23;
        let mut tiles = Vec::new();
        let mut h: usize = 0;
        while h < new_height
            invariant
                new_height <= len == u.tiles@.len(),
                h <= new_height,
                tiles@ == u.tiles@.take(h as int),
            decreases new_height - h,
        {
            tiles.push(u.tiles[h]);
            assert(tiles@ =~= u.tiles@.take(h + 1));
            h += 1;
        }
        out.push(Unit { biome: u.biome, tiles });
        i += 1;
    }
    Some(out)
}


/// A liquid is only ever poured in when the container then holds less than
/// its size.
pub proof fn law_fill_stays_below_size(before: Seq<int>, q: int, size: int, poured: bool, after: Seq<int>)
    requires
        poured == (total(before, before.len() as int) + q < size),
        poured ==> after == before.push(q),
        !poured ==> after == before,
        total(before, before.len() as int) < size || poured,
    ensures
        total(after, after.len() as int) < size,
{
    if poured {
        lemma_total_prefix(before, q, before.len() as int + 1);
    }
}

} // verus!
