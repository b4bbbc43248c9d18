use vstd::prelude::*;

verus! {

/// Number of kinds of merchandise traded in the game.
pub const GOODS_COUNT: usize = 6;

/// Goods with an index below this weigh one ton per unit; the rest weigh nothing.
pub const HEAVY_GOODS: usize = 4;

/// The six kinds of merchandise.
#[derive(Debug, Clone, Copy, PartialEq, Eq, Structural)]
pub enum Merchandise {
    Uranium,
    Metals,
    HeavyEquipment,
    Medicine,
    Software,
    Gems,
}

impl Merchandise {
    /// All goods, in index order.
    pub const ALL: [Merchandise; 6] = [
        Merchandise::Uranium,
        Merchandise::Metals,
        Merchandise::HeavyEquipment,
        Merchandise::Medicine,
        Merchandise::Software,
        Merchandise::Gems,
    ];

    /// The position of a good in `ALL` and in every per-good array.
    pub open spec fn index_of(self) -> nat {
        match self {
            Merchandise::Uranium => 0,
            Merchandise::Metals => 1,
            Merchandise::HeavyEquipment => 2,
            Merchandise::Medicine => 3,
            Merchandise::Software => 4,
            Merchandise::Gems => 5,
        }
    }

    /// The good stored at a given index.
    pub open spec fn at_index(i: int) -> Merchandise
        recommends
            0 <= i < 6,
    {
        if i == 0 {
            Merchandise::Uranium
        } else if i == 1 {
            Merchandise::Metals
        } else if i == 2 {
            Merchandise::HeavyEquipment
        } else if i == 3 {
            Merchandise::Medicine
        } else if i == 4 {
            Merchandise::Software
        } else {
            Merchandise::Gems
        }
    }

    pub open spec fn label_text(self) -> Seq<char> {
        match self {
            Merchandise::Uranium => "Uranium"@,
            Merchandise::Metals => "Metals"@,
            Merchandise::HeavyEquipment => "Heavy Equip"@,
            Merchandise::Medicine => "Medicine"@,
            Merchandise::Software => "Software"@,
            Merchandise::Gems => "Star Gems"@,
        }
    }

    pub open spec fn code_text(self) -> Seq<char> {
        match self {
            Merchandise::Uranium => "UR"@,
            Merchandise::Metals => "MET"@,
            Merchandise::HeavyEquipment => "HE"@,
            Merchandise::Medicine => "MED"@,
            Merchandise::Software => "SOFT"@,
            Merchandise::Gems => "GEMS"@,
        }
    }

    /// The code of the good at index `i`.
    pub open spec fn code_at(i: int) -> Seq<char> {
        Merchandise::at_index(i).code_text()
    }

    /// Display name of the good.
    pub fn label(self) -> (r: &'static str)
        ensures
            r@ == self.label_text(),
    {
        match self {
            Merchandise::Uranium => "Uranium",
            Merchandise::Metals => "Metals",
            Merchandise::HeavyEquipment => "Heavy Equip",
            Merchandise::Medicine => "Medicine",
            Merchandise::Software => "Software",
            Merchandise::Gems => "Star Gems",
        }
    }

    /// Short code of the good, as shown in tables and trade messages.
    pub fn code(self) -> (r: &'static str)
        ensures
            r@ == self.code_text(),
    {
        match self {
            Merchandise::Uranium => "UR",
            Merchandise::Metals => "MET",
            Merchandise::HeavyEquipment => "HE",
            Merchandise::Medicine => "MED",
            Merchandise::Software => "SOFT",
            Merchandise::Gems => "GEMS",
        }
    }

    /// Tons of hold space that one unit takes: one for the first
    /// `HEAVY_GOODS` goods, none for software and gems.
    pub open spec fn weight_of(self) -> int {
        if self.index_of() < HEAVY_GOODS {
            1
        } else {
            0
        }
    }

    /// Tons of hold space taken by one unit.
    pub fn weight_tons(self) -> (r: u16)
        ensures
            r == self.weight_of(),
    {
        match self {
            Merchandise::Uranium
            | Merchandise::Metals
            | Merchandise::HeavyEquipment
            | Merchandise::Medicine => 1,
            Merchandise::Software | Merchandise::Gems => 0,
        }
    }

    /// Index of the good in per-good arrays.
    pub fn idx(self) -> (r: usize)
        ensures
            r == self.index_of(),
            r < GOODS_COUNT,
    {
        match self {
            Merchandise::Uranium => 0,
            Merchandise::Metals => 1,
            Merchandise::HeavyEquipment => 2,
            Merchandise::Medicine => 3,
            Merchandise::Software => 4,
            Merchandise::Gems => 5,
        }
    }

    /// The good at a given index; the same as `ALL[i]`.
    pub fn from_idx(i: usize) -> (r: Merchandise)
        requires
            i < GOODS_COUNT,
        ensures
            r == Merchandise::at_index(i as int),
            r.index_of() == i,
    {
        if i == 0 {
            Merchandise::Uranium
        } else if i == 1 {
            Merchandise::Metals
        } else if i == 2 {
            Merchandise::HeavyEquipment
        } else if i == 3 {
            Merchandise::Medicine
        } else if i == 4 {
            Merchandise::Software
        } else {
            Merchandise::Gems
        }
    }
}

/// Indexing and `idx` undo each other: every good sits at its own index.
pub proof fn law_index_round_trip(g: Merchandise)
    ensures
        Merchandise::at_index(g.index_of() as int) == g,
        g.index_of() < GOODS_COUNT,
{
}

} // verus!
