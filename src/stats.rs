//! Per-frame cell counts and the time series built from them.
use vstd::prelude::*;
use crate::cells::{category_of, classify, Category};

verus! {

/// One frame: rows of cell codes.
pub type Grid = Vec<Vec<String>>;

/// What a frame is to contracts: rows of cell codes as character sequences.
pub type GridView = Seq<Seq<Seq<char>>>;

/// The number of cells of `row` whose code falls under `c`.
pub open spec fn row_count(row: Seq<Seq<char>>, c: Category) -> nat
    decreases row.len(),
{
    if row.len() == 0 {
        0
    } else {
        row_count(row.drop_last(), c) + if category_of(row.last()) == c {
            1nat
        } else {
            0nat
        }
    }
}

/// The number of cells of `g` whose code falls under `c`.
pub open spec fn grid_count(g: GridView, c: Category) -> nat
    decreases g.len(),
{
    if g.len() == 0 {
        0
    } else {
        grid_count(g.drop_last(), c) + row_count(g.last(), c)
    }
}

/// The number of cells of `g`, row by row.
pub open spec fn cell_total(g: GridView) -> nat
    decreases g.len(),
{
    if g.len() == 0 {
        0
    } else {
        cell_total(g.drop_last()) + g.last().len()
    }
}

pub proof fn lemma_row_count_bound(row: Seq<Seq<char>>, c: Category)
    ensures
        row_count(row, c) <= row.len(),
    decreases row.len(),
{
    if row.len() > 0 {
        lemma_row_count_bound(row.drop_last(), c);
    }
}

pub proof fn lemma_grid_count_bound(g: GridView, c: Category)
    ensures
        grid_count(g, c) <= cell_total(g),
    decreases g.len(),
{
    if g.len() > 0 {
        lemma_grid_count_bound(g.drop_last(), c);
        lemma_row_count_bound(g.last(), c);
    }
}

proof fn lemma_cell_total_prefix(g: GridView, i: int)
    requires
        0 <= i <= g.len(),
    ensures
        cell_total(g.take(i)) <= cell_total(g),
    decreases g.len() - i,
{
    if i < g.len() {
        lemma_cell_total_prefix(g, i + 1);
        assert(g.take(i + 1).drop_last() =~= g.take(i));
    } else {
        assert(g.take(i) =~= g);
    }
}

/// A grid whose rows all hold `width` cells has `g.len() * width` cells.
pub proof fn lemma_cell_total_uniform(g: GridView, width: nat)
    requires
        forall|i: int| 0 <= i < g.len() ==> (#[trigger] g[i]).len() == width,
    ensures
        cell_total(g) == g.len() * width,
    decreases g.len(),
{
    if g.len() > 0 {
        let p = g.drop_last();
        assert forall|i: int| 0 <= i < p.len() implies (#[trigger] p[i]).len() == width by {
            assert(p[i] == g[i]);
        }
        lemma_cell_total_uniform(p, width);
        assert(g.len() * width == p.len() * width + width) by (nonlinear_arith)
            requires
                g.len() == p.len() + 1,
        ;
    }
}

/// Counts of one frame, one per category.
#[derive(Clone, Copy, Debug, PartialEq, Eq, Structural)]
pub struct FrameCounts {
    pub trees: u64,
    pub burning_trees: u64,
    pub tree_ashes: u64,
    pub grasses: u64,
    pub burning_grasses: u64,
    pub grass_ashes: u64,
    pub saplings: u64,
    pub burning_saplings: u64,
    pub young_trees: u64,
    pub burning_young_trees: u64,
    pub thunder: u64,
    pub other: u64,
}

impl FrameCounts {
    /// The count kept for category `c`.
    pub open spec fn get(self, c: Category) -> u64 {
        match c {
            Category::Trees => self.trees,
            Category::BurningTrees => self.burning_trees,
            Category::TreeAshes => self.tree_ashes,
            Category::Grasses => self.grasses,
            Category::BurningGrasses => self.burning_grasses,
            Category::GrassAshes => self.grass_ashes,
            Category::Saplings => self.saplings,
            Category::BurningSaplings => self.burning_saplings,
            Category::YoungTrees => self.young_trees,
            Category::BurningYoungTrees => self.burning_young_trees,
            Category::Thunder => self.thunder,
            Category::Other => self.other,
        }
    }

    /// All counts zero.
    pub fn zero() -> (r: FrameCounts)
        ensures
            forall|c: Category| r.get(c) == 0,
    {
        FrameCounts {
            trees: 0,
            burning_trees: 0,
            tree_ashes: 0,
            grasses: 0,
            burning_grasses: 0,
            grass_ashes: 0,
            saplings: 0,
            burning_saplings: 0,
            young_trees: 0,
            burning_young_trees: 0,
            thunder: 0,
            other: 0,
        }
    }

    /// Adds one to the count of `c`.
    pub fn bump(&mut self, c: Category)
        requires
            old(self).get(c) < u64::MAX,
        ensures
            forall|d: Category|
                #[trigger] final(self).get(d) == old(self).get(d) + if d == c {
                    1int
                } else {
                    0int
                },
    {
        match c {
            Category::Trees => self.trees = self.trees + 1,
            Category::BurningTrees => self.burning_trees = self.burning_trees + 1,
            Category::TreeAshes => self.tree_ashes = self.tree_ashes + 1,
            Category::Grasses => self.grasses = self.grasses + 1,
            Category::BurningGrasses => self.burning_grasses = self.burning_grasses + 1,
            Category::GrassAshes => self.grass_ashes = self.grass_ashes + 1,
            Category::Saplings => self.saplings = self.saplings + 1,
            Category::BurningSaplings => self.burning_saplings = self.burning_saplings + 1,
            Category::YoungTrees => self.young_trees = self.young_trees + 1,
            Category::BurningYoungTrees => self.burning_young_trees = self.burning_young_trees
                + 1,
            Category::Thunder => self.thunder = self.thunder + 1,
            Category::Other => self.other = self.other + 1,
        }
    }

    /// Scans every cell of `grid` once and counts it under its category.
    pub fn of_grid(grid: &Grid) -> (r: FrameCounts)
        requires
            cell_total(grid.deep_view()) <= u64::MAX,
        ensures
            forall|c: Category| #[trigger] r.get(c) == grid_count(grid.deep_view(), c),
    {
        let ghost g = grid.deep_view();
        let mut counts = FrameCounts::zero();
        let mut i: usize = 0;
        while i < grid.len()
            invariant
                g == grid.deep_view(),
                cell_total(g) <= u64::MAX,
                i <= grid.len(),
                forall|c: Category| #[trigger] counts.get(c) == grid_count(g.take(i as int), c),
                forall|c: Category| #[trigger] counts.get(c) <= cell_total(g.take(i as int)),
            decreases grid.len() - i,
        {
            let row = &grid[i];
            let ghost r = g[i as int];
            assert(r == row.deep_view());
            let ghost before = counts;
            proof {
                lemma_cell_total_prefix(g, i as int + 1);
                assert(g.take(i as int + 1).drop_last() =~= g.take(i as int));
            }
            let mut j: usize = 0;
            while j < row.len()
                invariant
                    r == row.deep_view(),
                    j <= row.len(),
                    cell_total(g.take(i as int)) + r.len() <= u64::MAX,
                    forall|c: Category| #[trigger] counts.get(c) == before.get(c) + row_count(r.take(j as int), c),
                    forall|c: Category| #[trigger] before.get(c) <= cell_total(g.take(i as int)),
                decreases row.len() - j,
            {
                let cat = classify(row[j].as_str());
                proof {
                    assert(r.take(j as int + 1).drop_last() =~= r.take(j as int));
                    assert(r.take(j as int + 1).last() == row[j as int]@);
                    lemma_row_count_bound(r.take(j as int), cat);
                }
                counts.bump(cat);
                j = j + 1;
            }
            proof {
                assert(r.take(j as int) =~= r);
                assert forall|c: Category| #[trigger] counts.get(c) <= cell_total(g.take(i as int + 1)) by {
                    lemma_row_count_bound(r, c);
                }
            }
            i = i + 1;
        }
        proof {
            assert(g.take(i as int) =~= g);
        }
        counts
    }
}

} // verus!
