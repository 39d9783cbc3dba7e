//! The level editor: the map being drawn, the terrain in hand, the level
//! number typed for the file, and the text the map is saved as.

use vstd::prelude::*;
use crate::levels::{empty_map, level_text, level_to_text, LevelMap};
use crate::menu::KeyPresses;
use crate::terrain::{TerrainType, MAP_COLS, MAP_ROWS};
use crate::text::{chars_of, digit_char, string_push};

verus! {

/// Level numbers typed in the editor have at most this many digits.
pub const MAX_FILENAME_LENGTH: usize = 3;

/// The map being drawn in the editor.
#[derive(Clone, Copy, Debug)]
pub struct EditorMapData {
    pub data: LevelMap,
}

impl Default for EditorMapData {
    /// An empty map: open ground everywhere.
    fn default() -> (m: Self)
        ensures
            m.data == empty_map(),
    {
        EditorMapData { data: [[TerrainType::Empty; MAP_COLS]; MAP_ROWS] }
    }
}

/// The terrain at a cell of a map; open ground outside the grid.
pub open spec fn cell_of(m: LevelMap, row: int, col: int) -> TerrainType {
    if 0 <= row < MAP_ROWS && 0 <= col < MAP_COLS {
        m[row][col]
    } else {
        TerrainType::Empty
    }
}

/// Whether two maps agree on every cell but the given one.
pub open spec fn same_but(a: LevelMap, b: LevelMap, row: int, col: int) -> bool {
    forall|r: int, c: int| 0 <= r < MAP_ROWS && 0 <= c < MAP_COLS && !(r == row && c == col)
        ==> #[trigger] a[r][c] == b[r][c]
}

impl EditorMapData {
    /// The terrain at a cell; open ground outside the grid.
    pub fn get(&self, row: usize, col: usize) -> (t: TerrainType)
        ensures
            t == cell_of(self.data, row as int, col as int),
    {
        if row < MAP_ROWS && col < MAP_COLS {
            self.data[row][col]
        } else {
            TerrainType::Empty
        }
    }

    /// Puts a terrain on a cell; a cell outside the grid changes nothing.
    pub fn set(&mut self, row: usize, col: usize, terrain: TerrainType)
        ensures
            row < MAP_ROWS && col < MAP_COLS ==> final(self).data[row as int][col as int] == terrain,
            same_but(final(self).data, old(self).data, row as int, col as int),
            !(row < MAP_ROWS && col < MAP_COLS) ==> final(self).data == old(self).data,
    {
        if row < MAP_ROWS && col < MAP_COLS {
            let mut line = self.data[row];
            line[col] = terrain;
            self.data[row] = line;
        }
    }

    /// Clears the map to open ground.
    pub fn clear(&mut self)
        ensures
            final(self).data == empty_map(),
    {
        self.data = [[TerrainType::Empty; MAP_COLS]; MAP_ROWS];
    }

    /// Replaces the map by a level's map.
    pub fn load_from_level(&mut self, level_data: &LevelMap)
        ensures
            final(self).data == *level_data,
    {
        self.data = *level_data;
    }
}

/// Writing a terrain on a cell and reading the cell back gives the terrain;
/// the other cells read as before.
pub proof fn lemma_set_then_get(before: LevelMap, after: LevelMap, row: int, col: int, terrain: TerrainType, r: int, c: int)
    requires
        0 <= row < MAP_ROWS,
        0 <= col < MAP_COLS,
        after[row][col] == terrain,
        same_but(after, before, row, col),
    ensures
        cell_of(after, row, col) == terrain,
        !(r == row && c == col) ==> cell_of(after, r, c) == cell_of(before, r, c),
{
    if !(r == row && c == col) && 0 <= r < MAP_ROWS && 0 <= c < MAP_COLS {
        assert(after[r][c] == before[r][c]);
    }
}

/// The text the editor saves a map as: the level file format, which
/// reads back as the same map.
pub fn export_content(editor_map: &EditorMapData) -> (s: String)
    ensures
        s@ == level_text(editor_map.data),
{
    level_to_text(&editor_map.data)
}

/// The terrain picked from the side panels, if any.
#[derive(Clone, Copy, Debug, PartialEq, Eq, Structural)]
pub struct SelectedTerrain {
    pub terrain_type: Option<TerrainType>,
}

impl Default for SelectedTerrain {
    /// Nothing picked yet.
    fn default() -> (s: Self)
        ensures
            s.terrain_type.is_none(),
    {
        SelectedTerrain { terrain_type: None }
    }
}

/// A click on a grid cell: with a terrain in hand it is written on the cell,
/// without one nothing happens. Returns whether the cell changed hands.
pub fn place_selected_terrain(editor_map: &mut EditorMapData, selected: &SelectedTerrain, row: usize, col: usize) -> (placed: bool)
    ensures
        placed == selected.terrain_type.is_some(),
        match selected.terrain_type {
            Some(t) => {
                &&& (row < MAP_ROWS && col < MAP_COLS ==> final(editor_map).data[row as int][col as int] == t)
                &&& same_but(final(editor_map).data, old(editor_map).data, row as int, col as int)
                &&& (!(row < MAP_ROWS && col < MAP_COLS) ==> final(editor_map).data == old(editor_map).data)
            },
            None => final(editor_map).data == old(editor_map).data,
        },
{
    match selected.terrain_type {
        Some(t) => {
            editor_map.set(row, col, t);
            true
        },
        None => false,
    }
}

/// The level number typed for the file the map is saved to.
#[derive(Clone, Debug)]
pub struct InputFilename {
    pub name: String,
}

impl Default for InputFilename {
    /// Nothing typed.
    fn default() -> (f: Self)
        ensures
            f.name@ == Seq::<char>::empty(),
    {
        InputFilename { name: String::new() }
    }
}

/// A key typed into the file name.
#[derive(Clone, Copy, Debug, PartialEq, Eq, Structural)]
pub enum FilenameKey {
    Backspace,
    /// A digit key, 0 to 9.
    Digit(u8),
    Other,
}

/// The file name after a key: Backspace removes the last character, a digit
/// is added while the name has fewer than three characters, other keys do
/// nothing.
pub open spec fn name_after_key(name: Seq<char>, key: FilenameKey) -> Seq<char> {
    match key {
        FilenameKey::Backspace => if name.len() > 0 { name.drop_last() } else { name },
        FilenameKey::Digit(d) => if d < 10 && name.len() < MAX_FILENAME_LENGTH {
            name.push(digit_char(d as nat))
        } else {
            name
        },
        FilenameKey::Other => name,
    }
}

impl InputFilename {
    /// The editor starts on level "1".
    pub fn new() -> (f: Self)
        ensures
            f.name@ == seq!['1'],
    {
        let mut name = String::new();
        string_push(&mut name, '1');
        assert(name@ =~= seq!['1']);
        InputFilename { name }
    }

    /// Applies one typed key to the name. A name of at most three characters
    /// stays so.
    pub fn apply_key(&mut self, key: FilenameKey)
        ensures
            final(self).name@ == name_after_key(old(self).name@, key),
            old(self).name@.len() <= MAX_FILENAME_LENGTH ==> final(self).name@.len() <= MAX_FILENAME_LENGTH,
    {
        match key {
            FilenameKey::Backspace => {
                let cs = chars_of(self.name.as_str());
                if cs.len() > 0 {
                    let n = cs.len() - 1;
                    let mut s = String::new();
                    let mut i: usize = 0;
                    while i < n
                        invariant
                            n + 1 == cs@.len(),
                            i <= n,
                            s@ == cs@.take(i as int),
                        decreases n - i,
                    {
                        string_push(&mut s, cs[i]);
                        assert(s@ =~= cs@.take(i + 1));
                        i += 1;
                    }
                    assert(cs@.take(n as int) =~= cs@.drop_last());
                    self.name = s;
                }
            },
            FilenameKey::Digit(d) => {
                let cs = chars_of(self.name.as_str());
                if d < 10 && cs.len() < MAX_FILENAME_LENGTH {
                    let c = if d == 0 { '0' }
                        else if d == 1 { '1' }
                        else if d == 2 { '2' }
                        else if d == 3 { '3' }
                        else if d == 4 { '4' }
                        else if d == 5 { '5' }
                        else if d == 6 { '6' }
                        else if d == 7 { '7' }
                        else if d == 8 { '8' }
                        else { '9' };
                    string_push(&mut self.name, c);
                }
            },
            FilenameKey::Other => {},
        }
    }
}

/// What the editor's keys ask for this frame.
#[derive(Clone, Copy, Debug, PartialEq, Eq, Structural)]
pub struct EditorCommand {
    /// Escape: back to the start screen.
    pub leave: bool,
    /// S: save the map under the typed level number.
    pub export: bool,
}

/// The editor's own keys: Escape leaves, S saves.
pub fn editor_command(keys: KeyPresses) -> (cmd: EditorCommand)
    ensures
        cmd.leave == keys.escape,
        cmd.export == keys.s,
{
    EditorCommand { leave: keys.escape, export: keys.s }
}

/// The terrains offered on the left panel, top to bottom.
pub open spec fn left_panel() -> Seq<TerrainType> {
    seq![
        TerrainType::Empty,
        TerrainType::Sea,
        TerrainType::Forest,
        TerrainType::Barrier,
        TerrainType::Steel,
        TerrainType::SteelTop,
        TerrainType::SteelBottom,
    ]
}

/// The terrains offered on the right panel, top to bottom.
pub open spec fn right_panel() -> Seq<TerrainType> {
    seq![
        TerrainType::SteelLeft,
        TerrainType::SteelRight,
        TerrainType::Brick,
        TerrainType::BrickTop,
        TerrainType::BrickBottom,
        TerrainType::BrickLeft,
        TerrainType::BrickRight,
    ]
}

/// The terrains of the left panel, top to bottom.
pub fn left_panel_terrains() -> (v: Vec<TerrainType>)
    ensures
        v@ == left_panel(),
{
    let v = vec![
        TerrainType::Empty,
        TerrainType::Sea,
        TerrainType::Forest,
        TerrainType::Barrier,
        TerrainType::Steel,
        TerrainType::SteelTop,
        TerrainType::SteelBottom,
    ];
    assert(v@ =~= left_panel());
    v
}

/// The terrains of the right panel, top to bottom.
pub fn right_panel_terrains() -> (v: Vec<TerrainType>)
    ensures
        v@ == right_panel(),
{
    let v = vec![
        TerrainType::SteelLeft,
        TerrainType::SteelRight,
        TerrainType::Brick,
        TerrainType::BrickTop,
        TerrainType::BrickBottom,
        TerrainType::BrickLeft,
        TerrainType::BrickRight,
    ];
    assert(v@ =~= right_panel());
    v
}

/// The two panels together offer every terrain exactly once.
pub proof fn lemma_panels_cover_all_terrains(t: TerrainType)
    ensures
        left_panel().contains(t) != right_panel().contains(t),
{
    match t {
        TerrainType::Empty => assert(left_panel()[0] == t),
        TerrainType::Sea => assert(left_panel()[1] == t),
        TerrainType::Forest => assert(left_panel()[2] == t),
        TerrainType::Barrier => assert(left_panel()[3] == t),
        TerrainType::Steel => assert(left_panel()[4] == t),
        TerrainType::SteelTop => assert(left_panel()[5] == t),
        TerrainType::SteelBottom => assert(left_panel()[6] == t),
        TerrainType::SteelLeft => assert(right_panel()[0] == t),
        TerrainType::SteelRight => assert(right_panel()[1] == t),
        TerrainType::Brick => assert(right_panel()[2] == t),
        TerrainType::BrickTop => assert(right_panel()[3] == t),
        TerrainType::BrickBottom => assert(right_panel()[4] == t),
        TerrainType::BrickLeft => assert(right_panel()[5] == t),
        TerrainType::BrickRight => assert(right_panel()[6] == t),
    }
}

/// The name a terrain button shows.
pub open spec fn terrain_name_of(t: TerrainType) -> Seq<char> {
    match t {
        TerrainType::Empty => "空地"@,
        TerrainType::Sea => "海洋"@,
        TerrainType::Forest => "树林"@,
        TerrainType::Barrier => "屏障"@,
        TerrainType::Steel => "钢铁"@,
        TerrainType::SteelTop => "钢铁-上"@,
        TerrainType::SteelBottom => "钢铁-下"@,
        TerrainType::SteelLeft => "钢铁-左"@,
        TerrainType::SteelRight => "钢铁-右"@,
        TerrainType::Brick => "砖块"@,
        TerrainType::BrickTop => "砖块-上"@,
        TerrainType::BrickBottom => "砖块-下"@,
        TerrainType::BrickLeft => "砖块-左"@,
        TerrainType::BrickRight => "砖块-右"@,
    }
}

/// The name a terrain button shows.
pub fn get_terrain_name(terrain: TerrainType) -> (s: &'static str)
    ensures
        s@ == terrain_name_of(terrain),
{
    match terrain {
        TerrainType::Empty => "空地",
        TerrainType::Sea => "海洋",
        TerrainType::Forest => "树林",
        TerrainType::Barrier => "屏障",
        TerrainType::Steel => "钢铁",
        TerrainType::SteelTop => "钢铁-上",
        TerrainType::SteelBottom => "钢铁-下",
        TerrainType::SteelLeft => "钢铁-左",
        TerrainType::SteelRight => "钢铁-右",
        TerrainType::Brick => "砖块",
        TerrainType::BrickTop => "砖块-上",
        TerrainType::BrickBottom => "砖块-下",
        TerrainType::BrickLeft => "砖块-左",
        TerrainType::BrickRight => "砖块-右",
    }
}

/// Which part of its square a terrain preview fills.
#[derive(Clone, Copy, Debug, PartialEq, Eq, Structural)]
pub enum TerrainDisplaySize {
    Full,
    HalfTop,
    HalfBottom,
    HalfLeft,
    HalfRight,
}

/// Which part of its square a terrain preview fills: half walls fill their
/// half, everything else the whole square.
pub fn get_terrain_display_size(terrain: TerrainType) -> (d: TerrainDisplaySize)
    ensures
        d == match terrain {
            TerrainType::SteelTop | TerrainType::BrickTop => TerrainDisplaySize::HalfTop,
            TerrainType::SteelBottom | TerrainType::BrickBottom => TerrainDisplaySize::HalfBottom,
            TerrainType::SteelLeft | TerrainType::BrickLeft => TerrainDisplaySize::HalfLeft,
            TerrainType::SteelRight | TerrainType::BrickRight => TerrainDisplaySize::HalfRight,
            _ => TerrainDisplaySize::Full,
        },
{
    match terrain {
        TerrainType::Empty | TerrainType::Sea | TerrainType::Forest | TerrainType::Barrier
        | TerrainType::Brick | TerrainType::Steel => TerrainDisplaySize::Full,
        TerrainType::SteelTop | TerrainType::BrickTop => TerrainDisplaySize::HalfTop,
        TerrainType::SteelBottom | TerrainType::BrickBottom => TerrainDisplaySize::HalfBottom,
        TerrainType::SteelLeft | TerrainType::BrickLeft => TerrainDisplaySize::HalfLeft,
        TerrainType::SteelRight | TerrainType::BrickRight => TerrainDisplaySize::HalfRight,
    }
}

/// Typing a digit into a name with room for it, then Backspace, gives the
/// name back.
pub proof fn lemma_digit_then_backspace(name: Seq<char>, d: u8)
    requires
        d < 10,
        name.len() < MAX_FILENAME_LENGTH,
    ensures
        name_after_key(name_after_key(name, FilenameKey::Digit(d)), FilenameKey::Backspace) == name,
{
    assert(name.push(digit_char(d as nat)).drop_last() =~= name);
}

/// No key makes a name of at most three characters longer than three.
pub proof fn lemma_name_stays_short(name: Seq<char>, key: FilenameKey)
    requires
        name.len() <= MAX_FILENAME_LENGTH,
    ensures
        name_after_key(name, key).len() <= MAX_FILENAME_LENGTH,
{
}

} // verus!
