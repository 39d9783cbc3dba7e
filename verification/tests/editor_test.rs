use tank_battle::editor::{
    editor_command, export_content, get_terrain_display_size, get_terrain_name,
    left_panel_terrains, place_selected_terrain, right_panel_terrains, EditorMapData, FilenameKey,
    InputFilename, SelectedTerrain, TerrainDisplaySize,
};
use tank_battle::levels::parse_level_content;
use tank_battle::menu::KeyPresses;
use tank_battle::terrain::{TerrainType, MAP_COLS, MAP_ROWS};

#[test]
fn set_then_get() {
    let mut m = EditorMapData::default();
    m.set(3, 4, TerrainType::Brick);
    assert_eq!(m.get(3, 4), TerrainType::Brick);
    assert_eq!(m.get(4, 3), TerrainType::Empty);
    m.set(MAP_ROWS, 0, TerrainType::Steel);
    m.set(0, MAP_COLS, TerrainType::Steel);
    assert_eq!(m.get(MAP_ROWS, 0), TerrainType::Empty);
    assert_eq!(m.get(0, MAP_COLS - 1), TerrainType::Empty);
    m.clear();
    assert_eq!(m.get(3, 4), TerrainType::Empty);
}

#[test]
fn load_and_export() {
    let mut level = [[TerrainType::Empty; MAP_COLS]; MAP_ROWS];
    level[1][1] = TerrainType::Sea;
    let mut m = EditorMapData::default();
    m.load_from_level(&level);
    assert_eq!(m.get(1, 1), TerrainType::Sea);
    m.set(11, 15, TerrainType::SteelLeft);
    let text = export_content(&m);
    let back = parse_level_content(&text);
    assert_eq!(back, m.data);
}

#[test]
fn placing_needs_a_selected_terrain() {
    let mut m = EditorMapData::default();
    assert!(!place_selected_terrain(&mut m, &SelectedTerrain::default(), 0, 0));
    assert_eq!(m.get(0, 0), TerrainType::Empty);
    let sel = SelectedTerrain { terrain_type: Some(TerrainType::Forest) };
    assert!(place_selected_terrain(&mut m, &sel, 0, 0));
    assert_eq!(m.get(0, 0), TerrainType::Forest);
}

#[test]
fn file_name_typing() {
    let mut f = InputFilename::new();
    assert_eq!(f.name, "1");
    f.apply_key(FilenameKey::Digit(2));
    f.apply_key(FilenameKey::Digit(3));
    assert_eq!(f.name, "123");
    f.apply_key(FilenameKey::Digit(4));
    assert_eq!(f.name, "123");
    f.apply_key(FilenameKey::Backspace);
    assert_eq!(f.name, "12");
    f.apply_key(FilenameKey::Other);
    assert_eq!(f.name, "12");
    f.apply_key(FilenameKey::Backspace);
    f.apply_key(FilenameKey::Backspace);
    f.apply_key(FilenameKey::Backspace);
    assert_eq!(f.name, "");
    f.apply_key(FilenameKey::Digit(0));
    assert_eq!(f.name, "0");
    assert_eq!(InputFilename::default().name, "");
}

#[test]
fn editor_keys() {
    let keys = KeyPresses { w: false, s: true, space: false, escape: true, b: false };
    let cmd = editor_command(keys);
    assert!(cmd.leave);
    assert!(cmd.export);
}

#[test]
fn panels_and_names() {
    let left = left_panel_terrains();
    let right = right_panel_terrains();
    assert_eq!(left.len(), 7);
    assert_eq!(right.len(), 7);
    assert_eq!(left[0], TerrainType::Empty);
    assert_eq!(right[6], TerrainType::BrickRight);
    assert_eq!(get_terrain_name(TerrainType::SteelTop), "钢铁-上");
    assert_eq!(get_terrain_name(TerrainType::Sea), "海洋");
    assert_eq!(get_terrain_display_size(TerrainType::BrickLeft), TerrainDisplaySize::HalfLeft);
    assert_eq!(get_terrain_display_size(TerrainType::Forest), TerrainDisplaySize::Full);
    assert_eq!(get_terrain_display_size(TerrainType::SteelBottom), TerrainDisplaySize::HalfBottom);
}
