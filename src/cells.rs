//! Cell codes of a frame and the category each one is counted under.
use vstd::prelude::*;
use vstd::string::StrSliceExecFns;

verus! {

/// The statistic a cell code is counted under.
#[derive(Clone, Copy, Debug, PartialEq, Eq, Structural)]
pub enum Category {
    Trees,
    BurningTrees,
    TreeAshes,
    Grasses,
    BurningGrasses,
    GrassAshes,
    Saplings,
    BurningSaplings,
    YoungTrees,
    BurningYoungTrees,
    Thunder,
    /// Any code that no other category claims (water among them).
    Other,
}

/// The category of a cell code.
pub open spec fn category_of(code: Seq<char>) -> Category {
    if code == seq!['T'] {
        Category::Trees
    } else if code == seq!['*'] || code == seq!['*', '*'] || code == seq!['*', '*', '*'] {
        Category::BurningTrees
    } else if code == seq!['A'] {
        Category::TreeAshes
    } else if code == seq!['G'] {
        Category::Grasses
    } else if code == seq!['+'] {
        Category::BurningGrasses
    } else if code == seq!['-'] {
        Category::GrassAshes
    } else if code == seq!['s'] {
        Category::Saplings
    } else if code == seq!['!'] {
        Category::BurningSaplings
    } else if code == seq!['y'] {
        Category::YoungTrees
    } else if code == seq!['&'] || code == seq!['@'] {
        Category::BurningYoungTrees
    } else if code == seq!['T', 'H'] {
        Category::Thunder
    } else {
        Category::Other
    }
}

/// Classifies one cell code.
pub fn classify(code: &str) -> (r: Category)
    ensures
        r == category_of(code@),
{
    let n = code.unicode_len();
    if n == 1 {
        let c = code.get_char(0);
        assert(code@ =~= seq![c]);
        if c == 'T' {
            Category::Trees
        } else if c == '*' {
            Category::BurningTrees
        } else if c == 'A' {
            Category::TreeAshes
        } else if c == 'G' {
            Category::Grasses
        } else if c == '+' {
            Category::BurningGrasses
        } else if c == '-' {
            Category::GrassAshes
        } else if c == 's' {
            Category::Saplings
        } else if c == '!' {
            Category::BurningSaplings
        } else if c == 'y' {
            Category::YoungTrees
        } else if c == '&' || c == '@' {
            Category::BurningYoungTrees
        } else {
            Category::Other
        }
    } else if n == 2 {
        let c0 = code.get_char(0);
        let c1 = code.get_char(1);
        assert(code@ =~= seq![c0, c1]);
        if c0 == '*' && c1 == '*' {
            Category::BurningTrees
        } else if c0 == 'T' && c1 == 'H' {
            Category::Thunder
        } else {
            Category::Other
        }
    } else if n == 3 {
        let c0 = code.get_char(0);
        let c1 = code.get_char(1);
        let c2 = code.get_char(2);
        assert(code@ =~= seq![c0, c1, c2]);
        if c0 == '*' && c1 == '*' && c2 == '*' {
            Category::BurningTrees
        } else {
            Category::Other
        }
    } else {
        Category::Other
    }
}

/// The models a renderer places for cells.
#[derive(Clone, Copy, Debug, Hash, PartialEq, Eq, Structural)]
pub enum SimAssetType {
    GrowingTree1,
    BurningGrowingTree1,
    GrowingTree2,
    BurningGrowingTree2_1,
    BurningGrowingTree2_2,
    Tree,
    BurningTree1,
    BurningTree2,
    BurningTree3,
    BurnedTree,
    Grass,
    BurningGrass,
    BurnedGrass,
    Water,
    Thunder,
}

/// The scene file of each model.
pub open spec fn asset_path_spec(t: SimAssetType) -> Seq<char> {
    match t {
        SimAssetType::GrowingTree1 => "growing-tree1.glb#Scene0"@,
        SimAssetType::BurningGrowingTree1 => "burning-growing-tree1.glb#Scene0"@,
        SimAssetType::GrowingTree2 => "growing-tree2.glb#Scene0"@,
        SimAssetType::BurningGrowingTree2_1 => "burning-growing-tree2-1.glb#Scene0"@,
        SimAssetType::BurningGrowingTree2_2 => "burning-growing-tree2-2.glb#Scene0"@,
        SimAssetType::Tree => "tree.glb#Scene0"@,
        SimAssetType::BurningTree1 => "burning-tree1.glb#Scene0"@,
        SimAssetType::BurningTree2 => "burning-tree2.glb#Scene0"@,
        SimAssetType::BurningTree3 => "burning-tree3.glb#Scene0"@,
        SimAssetType::BurnedTree => "burned-tree.glb#Scene0"@,
        SimAssetType::Grass => "grass.glb#Scene0"@,
        SimAssetType::BurningGrass => "burning-grass.glb#Scene0"@,
        SimAssetType::BurnedGrass => "burned-grass.glb#Scene0"@,
        SimAssetType::Water => "water.glb#Scene0"@,
        SimAssetType::Thunder => "thunder.glb#Scene0"@,
    }
}

impl SimAssetType {
    /// The scene file of this model.
    pub fn asset_path(&self) -> (r: &'static str)
        ensures
            r@ == asset_path_spec(*self),
    {
        match self {
            SimAssetType::GrowingTree1 => "growing-tree1.glb#Scene0",
            SimAssetType::BurningGrowingTree1 => "burning-growing-tree1.glb#Scene0",
            SimAssetType::GrowingTree2 => "growing-tree2.glb#Scene0",
            SimAssetType::BurningGrowingTree2_1 => "burning-growing-tree2-1.glb#Scene0",
            SimAssetType::BurningGrowingTree2_2 => "burning-growing-tree2-2.glb#Scene0",
            SimAssetType::Tree => "tree.glb#Scene0",
            SimAssetType::BurningTree1 => "burning-tree1.glb#Scene0",
            SimAssetType::BurningTree2 => "burning-tree2.glb#Scene0",
            SimAssetType::BurningTree3 => "burning-tree3.glb#Scene0",
            SimAssetType::BurnedTree => "burned-tree.glb#Scene0",
            SimAssetType::Grass => "grass.glb#Scene0",
            SimAssetType::BurningGrass => "burning-grass.glb#Scene0",
            SimAssetType::BurnedGrass => "burned-grass.glb#Scene0",
            SimAssetType::Water => "water.glb#Scene0",
            SimAssetType::Thunder => "thunder.glb#Scene0",
        }
    }
}

/// The models placed for a cell code, in order; `None` for a code no model
/// stands for.
pub open spec fn cell_assets_spec(code: Seq<char>) -> Option<Seq<SimAssetType>> {
    if code == seq!['T'] {
        Some(seq![SimAssetType::Tree])
    } else if code == seq!['A'] {
        Some(seq![SimAssetType::BurnedTree])
    } else if code == seq!['G'] {
        Some(seq![SimAssetType::Grass])
    } else if code == seq!['+'] {
        Some(seq![SimAssetType::BurningGrass])
    } else if code == seq!['-'] {
        Some(seq![SimAssetType::BurnedGrass])
    } else if code == seq!['W'] {
        Some(seq![SimAssetType::Water])
    } else if code == seq!['*'] {
        Some(seq![SimAssetType::BurningTree1])
    } else if code == seq!['*', '*'] {
        Some(seq![SimAssetType::BurningTree2])
    } else if code == seq!['*', '*', '*'] {
        Some(seq![SimAssetType::BurningTree3])
    } else if code == seq!['s'] {
        Some(seq![SimAssetType::GrowingTree1])
    } else if code == seq!['!'] {
        Some(seq![SimAssetType::BurningGrowingTree1])
    } else if code == seq!['y'] {
        Some(seq![SimAssetType::GrowingTree2])
    } else if code == seq!['&'] {
        Some(seq![SimAssetType::BurningGrowingTree2_1])
    } else if code == seq!['@'] {
        Some(seq![SimAssetType::BurningGrowingTree2_2])
    } else if code == seq!['T', 'H'] {
        Some(seq![SimAssetType::Thunder, SimAssetType::Tree])
    } else {
        None
    }
}

/// The models placed for a cell code, in order, if it has any.
pub fn cell_assets(code: &str) -> (r: Option<Vec<SimAssetType>>)
    ensures
        r is Some <==> cell_assets_spec(code@) is Some,
        r is Some ==> r->Some_0@ == cell_assets_spec(code@)->Some_0,
{
    let n = code.unicode_len();
    let one = if n == 1 {
        let c = code.get_char(0);
        assert(code@ =~= seq![c]);
        if c == 'T' {
            Some(SimAssetType::Tree)
        } else if c == 'A' {
            Some(SimAssetType::BurnedTree)
        } else if c == 'G' {
            Some(SimAssetType::Grass)
        } else if c == '+' {
            Some(SimAssetType::BurningGrass)
        } else if c == '-' {
            Some(SimAssetType::BurnedGrass)
        } else if c == 'W' {
            Some(SimAssetType::Water)
        } else if c == '*' {
            Some(SimAssetType::BurningTree1)
        } else if c == 's' {
            Some(SimAssetType::GrowingTree1)
        } else if c == '!' {
            Some(SimAssetType::BurningGrowingTree1)
        } else if c == 'y' {
            Some(SimAssetType::GrowingTree2)
        } else if c == '&' {
            Some(SimAssetType::BurningGrowingTree2_1)
        } else if c == '@' {
            Some(SimAssetType::BurningGrowingTree2_2)
        } else {
            None
        }
    } else if n == 2 {
        let c0 = code.get_char(0);
        let c1 = code.get_char(1);
        assert(code@ =~= seq![c0, c1]);
        if c0 == '*' && c1 == '*' {
            Some(SimAssetType::BurningTree2)
        } else if c0 == 'T' && c1 == 'H' {
            let mut v = Vec::new();
            v.push(SimAssetType::Thunder);
            v.push(SimAssetType::Tree);
            assert(v@ =~= seq![SimAssetType::Thunder, SimAssetType::Tree]);
            return Some(v);
        } else {
            None
        }
    } else if n == 3 {
        let c0 = code.get_char(0);
        let c1 = code.get_char(1);
        let c2 = code.get_char(2);
        assert(code@ =~= seq![c0, c1, c2]);
        if c0 == '*' && c1 == '*' && c2 == '*' {
            Some(SimAssetType::BurningTree3)
        } else {
            None
        }
    } else {
        None
    };
    match one {
        Some(t) => {
            let mut v = Vec::new();
            v.push(t);
            assert(v@ =~= seq![t]);
            Some(v)
        },
        None => None,
    }
}

} // verus!
