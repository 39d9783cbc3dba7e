//! Terrain kinds of the map grid, their file symbols and how each kind is
//! built from tiles.

use vstd::prelude::*;
use crate::types::Language;

verus! {

/// Rows of the map grid.
pub const MAP_ROWS: usize = 12;

/// Columns of the map grid.
pub const MAP_COLS: usize = 16;

/// Kind of terrain in one grid cell.
#[derive(Clone, Copy, Debug, PartialEq, Eq, Structural)]
pub enum TerrainType {
    /// Open ground.
    Empty,
    /// Trees: tanks pass and hide.
    Forest,
    /// Sea: shells pass, tanks do not.
    Sea,
    /// Full brick block (destructible).
    Brick,
    BrickLeft,
    BrickRight,
    BrickTop,
    BrickBottom,
    /// Full steel block.
    Steel,
    SteelLeft,
    SteelRight,
    SteelTop,
    SteelBottom,
    /// Barrier that hurts tanks nearby.
    Barrier,
}

/// The symbol that stands for a terrain kind in a level file.
pub open spec fn symbol_of(t: TerrainType) -> Seq<char> {
    match t {
        TerrainType::Empty => seq!['.'],
        TerrainType::Forest => seq!['t'],
        TerrainType::Sea => seq!['s'],
        TerrainType::Brick => seq!['b'],
        TerrainType::BrickLeft => seq!['b', 'l'],
        TerrainType::BrickRight => seq!['b', 'r'],
        TerrainType::BrickTop => seq!['b', 't'],
        TerrainType::BrickBottom => seq!['b', 'b'],
        TerrainType::Steel => seq!['i'],
        TerrainType::SteelLeft => seq!['i', 'l'],
        TerrainType::SteelRight => seq!['i', 'r'],
        TerrainType::SteelTop => seq!['i', 't'],
        TerrainType::SteelBottom => seq!['i', 'b'],
        TerrainType::Barrier => seq!['a'],
    }
}

/// The terrain kind a level-file token stands for; unknown tokens (and ".") are open ground.
pub open spec fn terrain_of_symbol(s: Seq<char>) -> TerrainType {
    if s.len() == 1 {
        let c = s[0];
        if c == 't' {
            TerrainType::Forest
        } else if c == 's' {
            TerrainType::Sea
        } else if c == 'b' {
            TerrainType::Brick
        } else if c == 'i' {
            TerrainType::Steel
        } else if c == 'a' {
            TerrainType::Barrier
        } else {
            TerrainType::Empty
        }
    } else if s.len() == 2 && (s[0] == 'b' || s[0] == 'i') {
        let steel = s[0] == 'i';
        let c = s[1];
        if c == 'l' {
            if steel { TerrainType::SteelLeft } else { TerrainType::BrickLeft }
        } else if c == 'r' {
            if steel { TerrainType::SteelRight } else { TerrainType::BrickRight }
        } else if c == 't' {
            if steel { TerrainType::SteelTop } else { TerrainType::BrickTop }
        } else if c == 'b' {
            if steel { TerrainType::SteelBottom } else { TerrainType::BrickBottom }
        } else {
            TerrainType::Empty
        }
    } else {
        TerrainType::Empty
    }
}

/// Name of a terrain kind as the editor and HUD show it.
pub open spec fn display_name_of(t: TerrainType, language: Language) -> Seq<char> {
    match language {
        Language::Chinese => match t {
            TerrainType::Empty => "空地"@,
            TerrainType::Forest => "树林"@,
            TerrainType::Sea => "海洋"@,
            TerrainType::Brick => "砖块"@,
            TerrainType::BrickLeft => "砖块-左"@,
            TerrainType::BrickRight => "砖块-右"@,
            TerrainType::BrickTop => "砖块-上"@,
            TerrainType::BrickBottom => "砖块-下"@,
            TerrainType::Steel => "钢铁"@,
            TerrainType::SteelLeft => "钢铁-左"@,
            TerrainType::SteelRight => "钢铁-右"@,
            TerrainType::SteelTop => "钢铁-上"@,
            TerrainType::SteelBottom => "钢铁-下"@,
            TerrainType::Barrier => "屏障"@,
        },
        Language::English => match t {
            TerrainType::Empty => "Empty"@,
            TerrainType::Forest => "Forest"@,
            TerrainType::Sea => "Sea"@,
            TerrainType::Brick => "Brick"@,
            TerrainType::BrickLeft => "Brick-Left"@,
            TerrainType::BrickRight => "Brick-Right"@,
            TerrainType::BrickTop => "Brick-Top"@,
            TerrainType::BrickBottom => "Brick-Bottom"@,
            TerrainType::Steel => "Steel"@,
            TerrainType::SteelLeft => "Steel-Left"@,
            TerrainType::SteelRight => "Steel-Right"@,
            TerrainType::SteelTop => "Steel-Top"@,
            TerrainType::SteelBottom => "Steel-Bottom"@,
            TerrainType::Barrier => "Barrier"@,
        },
    }
}

/// Every symbol names back the terrain kind it was written for.
pub proof fn lemma_symbol_roundtrip(t: TerrainType)
    ensures
        terrain_of_symbol(symbol_of(t)) == t,
{
}

/// Symbols are one or two letters (or a dot), never empty and never blank.
pub proof fn lemma_symbol_shape(t: TerrainType)
    ensures
        1 <= symbol_of(t).len() <= 2,
        forall|i: int| 0 <= i < symbol_of(t).len() ==> {
            let c = #[trigger] symbol_of(t)[i];
            c == '.' || ('a' <= c && c <= 'z')
        },
{
}

impl TerrainType {
    /// The terrain kind of a level-file token (`"t"`, `"bl"`, ...); any other token is `Empty`.
    pub fn from_str(s: &str) -> (t: Self)
        ensures
            t == terrain_of_symbol(s@),
    {
        let cs = crate::text::chars_of(s);
        Self::from_chars(&cs)
    }

    /// The terrain kind of a token given as characters.
    pub fn from_chars(cs: &Vec<char>) -> (t: Self)
        ensures
            t == terrain_of_symbol(cs@),
    {
        if cs.len() == 1 {
            let c = cs[0];
            assert(cs@ =~= seq![c]);
            if c == 't' {
                TerrainType::Forest
            } else if c == 's' {
                TerrainType::Sea
            } else if c == 'b' {
                TerrainType::Brick
            } else if c == 'i' {
                TerrainType::Steel
            } else if c == 'a' {
                TerrainType::Barrier
            } else {
                TerrainType::Empty
            }
        } else if cs.len() == 2 {
            let c0 = cs[0];
            let c1 = cs[1];
            assert(cs@ =~= seq![c0, c1]);
            if c0 == 'b' {
                if c1 == 'l' {
                    TerrainType::BrickLeft
                } else if c1 == 'r' {
                    TerrainType::BrickRight
                } else if c1 == 't' {
                    TerrainType::BrickTop
                } else if c1 == 'b' {
                    TerrainType::BrickBottom
                } else {
                    TerrainType::Empty
                }
            } else if c0 == 'i' {
                if c1 == 'l' {
                    TerrainType::SteelLeft
                } else if c1 == 'r' {
                    TerrainType::SteelRight
                } else if c1 == 't' {
                    TerrainType::SteelTop
                } else if c1 == 'b' {
                    TerrainType::SteelBottom
                } else {
                    TerrainType::Empty
                }
            } else {
                TerrainType::Empty
            }
        } else {
            TerrainType::Empty
        }
    }

    /// The level-file symbol of this terrain kind.
    pub fn to_symbol(self) -> (s: &'static str)
        ensures
            s@ == symbol_of(self),
    {
        match self {
            TerrainType::Empty => {
                proof { reveal_strlit("."); }
                "."
            },
            TerrainType::Forest => {
                proof { reveal_strlit("t"); }
                "t"
            },
            TerrainType::Sea => {
                proof { reveal_strlit("s"); }
                "s"
            },
            TerrainType::Brick => {
                proof { reveal_strlit("b"); }
                "b"
            },
            TerrainType::BrickLeft => {
                proof { reveal_strlit("bl"); }
                "bl"
            },
            TerrainType::BrickRight => {
                proof { reveal_strlit("br"); }
                "br"
            },
            TerrainType::BrickTop => {
                proof { reveal_strlit("bt"); }
                "bt"
            },
            TerrainType::BrickBottom => {
                proof { reveal_strlit("bb"); }
                "bb"
            },
            TerrainType::Steel => {
                proof { reveal_strlit("i"); }
                "i"
            },
            TerrainType::SteelLeft => {
                proof { reveal_strlit("il"); }
                "il"
            },
            TerrainType::SteelRight => {
                proof { reveal_strlit("ir"); }
                "ir"
            },
            TerrainType::SteelTop => {
                proof { reveal_strlit("it"); }
                "it"
            },
            TerrainType::SteelBottom => {
                proof { reveal_strlit("ib"); }
                "ib"
            },
            TerrainType::Barrier => {
                proof { reveal_strlit("a"); }
                "a"
            },
        }
    }

    /// The name of this terrain kind in the given language.
    pub fn to_display_name(&self, language: Language) -> (s: &'static str)
        ensures
            s@ == display_name_of(*self, language),
    {
        match language {
            Language::Chinese => match self {
                TerrainType::Empty => "空地",
                TerrainType::Forest => "树林",
                TerrainType::Sea => "海洋",
                TerrainType::Brick => "砖块",
                TerrainType::BrickLeft => "砖块-左",
                TerrainType::BrickRight => "砖块-右",
                TerrainType::BrickTop => "砖块-上",
                TerrainType::BrickBottom => "砖块-下",
                TerrainType::Steel => "钢铁",
                TerrainType::SteelLeft => "钢铁-左",
                TerrainType::SteelRight => "钢铁-右",
                TerrainType::SteelTop => "钢铁-上",
                TerrainType::SteelBottom => "钢铁-下",
                TerrainType::Barrier => "屏障",
            },
            Language::English => match self {
                TerrainType::Empty => "Empty",
                TerrainType::Forest => "Forest",
                TerrainType::Sea => "Sea",
                TerrainType::Brick => "Brick",
                TerrainType::BrickLeft => "Brick-Left",
                TerrainType::BrickRight => "Brick-Right",
                TerrainType::BrickTop => "Brick-Top",
                TerrainType::BrickBottom => "Brick-Bottom",
                TerrainType::Steel => "Steel",
                TerrainType::SteelLeft => "Steel-Left",
                TerrainType::SteelRight => "Steel-Right",
                TerrainType::SteelTop => "Steel-Top",
                TerrainType::SteelBottom => "Steel-Bottom",
                TerrainType::Barrier => "Barrier",
            },
        }
    }
}

/// Kind of a single placed tile.
#[derive(Clone, Copy, Debug, PartialEq, Eq, Structural)]
pub enum TerrainTileType {
    Brick,
    Steel,
    Forest,
    Sea,
    Barrier,
}

/// How the quarter tiles of a wall cell are arranged.
#[derive(Clone, Copy, Debug, PartialEq, Eq, Structural)]
pub enum TileLayout {
    /// All four quarters.
    Full,
    /// The two left quarters.
    Left,
    /// The two right quarters.
    Right,
    /// The two top quarters.
    Top,
    /// The two bottom quarters.
    Bottom,
}

/// A quarter of a grid cell.
#[derive(Clone, Copy, Debug, PartialEq, Eq, Structural)]
pub enum Quadrant {
    TopLeft,
    TopRight,
    BottomLeft,
    BottomRight,
}

/// Tile kind and (for walls) quarter layout of each terrain kind; `None` for open ground.
pub open spec fn terrain_config_of(t: TerrainType) -> Option<(TerrainTileType, Option<TileLayout>)> {
    match t {
        TerrainType::Brick => Some((TerrainTileType::Brick, Some(TileLayout::Full))),
        TerrainType::BrickLeft => Some((TerrainTileType::Brick, Some(TileLayout::Left))),
        TerrainType::BrickRight => Some((TerrainTileType::Brick, Some(TileLayout::Right))),
        TerrainType::BrickTop => Some((TerrainTileType::Brick, Some(TileLayout::Top))),
        TerrainType::BrickBottom => Some((TerrainTileType::Brick, Some(TileLayout::Bottom))),
        TerrainType::Steel => Some((TerrainTileType::Steel, Some(TileLayout::Full))),
        TerrainType::SteelLeft => Some((TerrainTileType::Steel, Some(TileLayout::Left))),
        TerrainType::SteelRight => Some((TerrainTileType::Steel, Some(TileLayout::Right))),
        TerrainType::SteelTop => Some((TerrainTileType::Steel, Some(TileLayout::Top))),
        TerrainType::SteelBottom => Some((TerrainTileType::Steel, Some(TileLayout::Bottom))),
        TerrainType::Forest => Some((TerrainTileType::Forest, None)),
        TerrainType::Sea => Some((TerrainTileType::Sea, None)),
        TerrainType::Barrier => Some((TerrainTileType::Barrier, None)),
        TerrainType::Empty => None,
    }
}

/// Tile kind and quarter layout used to build a cell of the given terrain.
pub fn get_terrain_config(terrain: TerrainType) -> (r: Option<(TerrainTileType, Option<TileLayout>)>)
    ensures
        r == terrain_config_of(terrain),
{
    match terrain {
        TerrainType::Brick => Some((TerrainTileType::Brick, Some(TileLayout::Full))),
        TerrainType::BrickLeft => Some((TerrainTileType::Brick, Some(TileLayout::Left))),
        TerrainType::BrickRight => Some((TerrainTileType::Brick, Some(TileLayout::Right))),
        TerrainType::BrickTop => Some((TerrainTileType::Brick, Some(TileLayout::Top))),
        TerrainType::BrickBottom => Some((TerrainTileType::Brick, Some(TileLayout::Bottom))),
        TerrainType::Steel => Some((TerrainTileType::Steel, Some(TileLayout::Full))),
        TerrainType::SteelLeft => Some((TerrainTileType::Steel, Some(TileLayout::Left))),
        TerrainType::SteelRight => Some((TerrainTileType::Steel, Some(TileLayout::Right))),
        TerrainType::SteelTop => Some((TerrainTileType::Steel, Some(TileLayout::Top))),
        TerrainType::SteelBottom => Some((TerrainTileType::Steel, Some(TileLayout::Bottom))),
        TerrainType::Forest => Some((TerrainTileType::Forest, None)),
        TerrainType::Sea => Some((TerrainTileType::Sea, None)),
        TerrainType::Barrier => Some((TerrainTileType::Barrier, None)),
        TerrainType::Empty => None,
    }
}

/// The quarters a layout fills, in spawn order.
pub open spec fn quadrants_of(layout: TileLayout) -> Seq<Quadrant> {
    match layout {
        TileLayout::Full => seq![Quadrant::TopLeft, Quadrant::TopRight, Quadrant::BottomLeft, Quadrant::BottomRight],
        TileLayout::Left => seq![Quadrant::TopLeft, Quadrant::BottomLeft],
        TileLayout::Right => seq![Quadrant::TopRight, Quadrant::BottomRight],
        TileLayout::Top => seq![Quadrant::TopLeft, Quadrant::TopRight],
        TileLayout::Bottom => seq![Quadrant::BottomLeft, Quadrant::BottomRight],
    }
}

impl TileLayout {
    /// The quarters of a cell this layout places a tile in, in spawn order.
    pub fn quadrants(self) -> (v: Vec<Quadrant>)
        ensures
            v@ == quadrants_of(self),
    {
        let v = match self {
            TileLayout::Full => vec![Quadrant::TopLeft, Quadrant::TopRight, Quadrant::BottomLeft, Quadrant::BottomRight],
            TileLayout::Left => vec![Quadrant::TopLeft, Quadrant::BottomLeft],
            TileLayout::Right => vec![Quadrant::TopRight, Quadrant::BottomRight],
            TileLayout::Top => vec![Quadrant::TopLeft, Quadrant::TopRight],
            TileLayout::Bottom => vec![Quadrant::BottomLeft, Quadrant::BottomRight],
        };
        assert(v@ =~= quadrants_of(self));
        v
    }
}

} // verus!
