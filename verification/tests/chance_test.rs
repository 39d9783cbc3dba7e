use tank_battle::controls::Direction;
use tank_battle::rng::{
    get_new_direction, random_born_place, random_powerup, random_quote_index,
    select_random_music_note, GlobalRng,
};
use tank_battle::weather::{choose_tree_color, on_playing_enter, tree_color_for, TreeColor, WeatherType};

#[test]
fn seeded_draws_stay_in_range_and_repeat() {
    let mut a = GlobalRng::with_seed(7);
    let mut b = GlobalRng::with_seed(7);
    for _ in 0..50 {
        let x = a.gen_range(3..9);
        assert!((3..9).contains(&x));
        assert_eq!(x, b.gen_range(3..9));
    }
}

#[test]
fn random_picks_are_valid() {
    let mut rng = GlobalRng::with_seed(1);
    let mut seen_other_than_first = false;
    for _ in 0..100 {
        let _ = random_powerup(&mut rng);
        let d = get_new_direction(Direction::Up);
        assert_ne!(d, Direction::Up);
        assert!(random_quote_index() < 17);
        assert!(select_random_music_note() < 4);
        assert!(random_born_place() < 3);
        if random_born_place() != 0 {
            seen_other_than_first = true;
        }
    }
    assert!(seen_other_than_first);
}

#[test]
fn weather_and_trees() {
    assert_eq!(on_playing_enter(1), (WeatherType::Rain, true));
    let (_, cushion) = on_playing_enter(2);
    assert!(!cushion);
    assert_eq!(tree_color_for(WeatherType::Snow, true), TreeColor::Yellow);
    assert_eq!(tree_color_for(WeatherType::Rain, true), TreeColor::Green);
    assert_eq!(tree_color_for(WeatherType::Clear, false), TreeColor::Yellow);
    let mut rng = GlobalRng::with_seed(3);
    assert_eq!(choose_tree_color(WeatherType::Snow, &mut rng), TreeColor::Yellow);
    assert_eq!(WeatherType::Rain.particles_per_frame(), 5);
    assert_eq!(WeatherType::Snow.particles_per_frame(), 3);
    assert_eq!(WeatherType::default().particles_per_frame(), 0);
}

#[test]
fn generators_seeded_alike_toss_alike() {
    let mut a = GlobalRng::with_seed(11);
    let mut b = GlobalRng::with_seed(11);
    let ta: Vec<bool> = (0..64).map(|_| a.gen_bool()).collect();
    let tb: Vec<bool> = (0..64).map(|_| b.gen_bool()).collect();
    assert_eq!(ta, tb);
    assert!(ta.contains(&true) && ta.contains(&false));
}
