use tank_battle::levels::{
    get_available_level_count, get_levels_dir, level_file_path, level_number_from_file_name,
    level_path_for_stage, level_to_text, parse_level_content, parse_usize, stage_map, LevelAssets,
    LevelMap,
};
use tank_battle::terrain::{TerrainType, MAP_COLS, MAP_ROWS};

fn empty() -> LevelMap {
    [[TerrainType::Empty; MAP_COLS]; MAP_ROWS]
}

fn chars(s: &str) -> Vec<char> {
    s.chars().collect()
}

#[test]
fn parse_reads_symbols_by_row_and_column() {
    let content = "t s b bl\n. i a ib\nbr bt bb il ir it\n";
    let map = parse_level_content(content);
    assert_eq!(map[0][0], TerrainType::Forest);
    assert_eq!(map[0][1], TerrainType::Sea);
    assert_eq!(map[0][2], TerrainType::Brick);
    assert_eq!(map[0][3], TerrainType::BrickLeft);
    assert_eq!(map[0][4], TerrainType::Empty);
    assert_eq!(map[1][0], TerrainType::Empty);
    assert_eq!(map[1][1], TerrainType::Steel);
    assert_eq!(map[1][2], TerrainType::Barrier);
    assert_eq!(map[1][3], TerrainType::SteelBottom);
    assert_eq!(map[2][0], TerrainType::BrickRight);
    assert_eq!(map[2][1], TerrainType::BrickTop);
    assert_eq!(map[2][2], TerrainType::BrickBottom);
    assert_eq!(map[2][3], TerrainType::SteelLeft);
    assert_eq!(map[2][4], TerrainType::SteelRight);
    assert_eq!(map[2][5], TerrainType::SteelTop);
    assert_eq!(map[3][0], TerrainType::Empty);
}

#[test]
fn parse_treats_unknown_tokens_and_missing_cells_as_open_ground() {
    let map = parse_level_content("x   zz\tt\r\n");
    assert_eq!(map[0][0], TerrainType::Empty);
    assert_eq!(map[0][1], TerrainType::Empty);
    assert_eq!(map[0][2], TerrainType::Forest);
    assert_eq!(map[11][15], TerrainType::Empty);
    let blank = parse_level_content("");
    assert_eq!(blank, empty());
}

#[test]
fn parse_ignores_extra_rows_and_columns() {
    let mut text = String::new();
    for _ in 0..14 {
        for c in 0..18 {
            if c > 0 {
                text.push(' ');
            }
            text.push('i');
        }
        text.push('\n');
    }
    let map = parse_level_content(&text);
    assert_eq!(map, [[TerrainType::Steel; MAP_COLS]; MAP_ROWS]);
}

#[test]
fn saved_text_reads_back_as_the_same_map() {
    let mut map = empty();
    map[0][0] = TerrainType::Brick;
    map[3][7] = TerrainType::SteelTop;
    map[11][15] = TerrainType::Barrier;
    map[5][2] = TerrainType::Forest;
    map[6][9] = TerrainType::BrickRight;
    let text = level_to_text(&map);
    assert_eq!(parse_level_content(&text), map);
}

#[test]
fn level_text_format_is_space_separated_rows() {
    let mut map = empty();
    map[0][1] = TerrainType::BrickLeft;
    let text = level_to_text(&map);
    let lines: Vec<&str> = text.lines().collect();
    assert_eq!(lines.len(), MAP_ROWS);
    assert_eq!(lines[0], ". bl . . . . . . . . . . . . . .");
    assert_eq!(lines[1], ". . . . . . . . . . . . . . . .");
    assert!(text.ends_with('\n'));
}

#[test]
fn parse_usize_follows_std_rules() {
    assert_eq!(parse_usize(&chars("12")), Some(12));
    assert_eq!(parse_usize(&chars("+7")), Some(7));
    assert_eq!(parse_usize(&chars("007")), Some(7));
    assert_eq!(parse_usize(&chars("")), None);
    assert_eq!(parse_usize(&chars("+")), None);
    assert_eq!(parse_usize(&chars("-1")), None);
    assert_eq!(parse_usize(&chars("1a")), None);
    assert_eq!(parse_usize(&chars("99999999999999999999999")), None);
}

#[test]
fn level_numbers_come_from_txt_file_names() {
    assert_eq!(level_number_from_file_name("3.txt"), Some(3));
    assert_eq!(level_number_from_file_name("15.txt"), Some(15));
    assert_eq!(level_number_from_file_name("a.txt"), None);
    assert_eq!(level_number_from_file_name("3.dat"), None);
    assert_eq!(level_number_from_file_name(".txt"), None);
    assert_eq!(level_number_from_file_name("txt"), None);
}

#[test]
fn available_level_count_is_the_highest_number_but_at_least_ten() {
    let few = vec!["1.txt".to_string(), "2.txt".to_string(), "notes.md".to_string()];
    assert_eq!(get_available_level_count(&few), 10);
    let many = vec!["3.txt".to_string(), "14.txt".to_string(), "12.txt".to_string()];
    assert_eq!(get_available_level_count(&many), 14);
    assert_eq!(get_available_level_count(&Vec::new()), 10);
}

#[test]
fn level_assets_store_and_return_maps_by_stage() {
    let mut assets = LevelAssets::new();
    assert_eq!(assets.get(1), Some(empty()));
    let mut map = empty();
    map[2][2] = TerrainType::Sea;
    assets.set(3, map);
    assert_eq!(assets.get(3), Some(map));
    assert_eq!(assets.get(1), Some(empty()));
    assert_eq!(assets.get(2), Some(empty()));
    assert_eq!(assets.get(4), Some(empty()));
    assert_eq!(stage_map(&assets, 3), map);
    assert_eq!(stage_map(&assets, 2), empty());
}

#[test]
fn init_level_assets_fills_missing_files_with_open_maps() {
    let mut map = empty();
    map[0][0] = TerrainType::Steel;
    let assets = LevelAssets::init_level_assets(&vec![Some(map), None]);
    assert_eq!(assets.get(1), Some(map));
    assert_eq!(assets.get(2), Some(empty()));
    assert_eq!(assets.get(3), Some(empty()));
}

#[test]
fn level_paths() {
    assert_eq!(get_levels_dir(true), "/usr/share/tank-battle/levels");
    assert_eq!(get_levels_dir(false), "levels");
    assert_eq!(level_file_path("levels", "12"), "levels/12.txt");
    assert_eq!(level_path_for_stage("levels", 7), "levels/7.txt");
}

#[test]
fn stage_file_names_read_back_as_their_stage() {
    for n in [0usize, 1, 9, 10, 42, 123, 9999] {
        let path = level_path_for_stage("levels", n);
        let name = path.strip_prefix("levels/").unwrap();
        assert_eq!(level_number_from_file_name(name), Some(n));
    }
    assert_eq!(LevelAssets::default().get(1), Some(empty()));
}
