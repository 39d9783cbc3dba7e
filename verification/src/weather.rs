//! Weather and seasons of a stage: what falls from the sky, and the colour
//! of the trees.

use vstd::prelude::*;
use crate::rng::{thread_random_range, GlobalRng};

verus! {

/// Weather of a stage.
#[derive(Clone, Copy, Debug, PartialEq, Eq, Structural)]
pub enum WeatherType {
    /// Clear skies.
    Clear,
    Rain,
    Snow,
}

impl Default for WeatherType {
    /// Clear skies.
    fn default() -> (w: Self)
        ensures
            w == WeatherType::Clear,
    {
        WeatherType::Clear
    }
}

impl WeatherType {
    /// How many drops or flakes fall in per frame: five of rain, three of
    /// snow, none under clear skies.
    pub fn particles_per_frame(self) -> (n: usize)
        ensures
            n == match self {
                WeatherType::Rain => 5usize,
                WeatherType::Snow => 3usize,
                WeatherType::Clear => 0usize,
            },
    {
        match self {
            WeatherType::Rain => 5,
            WeatherType::Snow => 3,
            WeatherType::Clear => 0,
        }
    }
}

/// The weather of the stage being played.
#[derive(Clone, Copy, Debug, PartialEq, Eq, Structural)]
pub struct CurrentWeather {
    pub weather_type: WeatherType,
}

impl Default for CurrentWeather {
    /// Clear skies.
    fn default() -> (w: Self)
        ensures
            w.weather_type == WeatherType::Clear,
    {
        CurrentWeather { weather_type: WeatherType::Clear }
    }
}

/// The weathers a stage past the first draws from: clear, rain, snow.
pub open spec fn weather_options() -> Seq<WeatherType> {
    seq![WeatherType::Clear, WeatherType::Rain, WeatherType::Snow]
}

/// The weather at a position of the options.
pub fn weather_option(i: usize) -> (w: WeatherType)
    requires
        i < 3,
    ensures
        w == weather_options()[i as int],
{
    if i == 0 {
        WeatherType::Clear
    } else if i == 1 {
        WeatherType::Rain
    } else {
        WeatherType::Snow
    }
}

/// The weather a stage starts with: rain on the first stage, which also
/// gets an air cushion in the middle of the map; any of the three options,
/// each as likely, on the others. Returns the weather and whether the air
/// cushion is placed.
pub fn on_playing_enter(stage_level: usize) -> (r: (WeatherType, bool))
    ensures
        r.1 == (stage_level == 1),
        stage_level == 1 ==> r.0 == WeatherType::Rain,
        stage_level != 1 ==> exists|i: int| 0 <= i < 3 && r.0 == #[trigger] weather_options()[i],
{
    if stage_level == 1 {
        (WeatherType::Rain, true)
    } else {
        let i = thread_random_range(0..3);
        (weather_option(i), false)
    }
}

/// Colour of the trees of a stage.
#[derive(Clone, Copy, Debug, PartialEq, Eq, Structural)]
pub enum TreeColor {
    Green,
    Yellow,
}

/// The colour of a stage's trees given the weather and a coin toss:
/// yellow in snow, otherwise green on heads and yellow on tails.
pub fn tree_color_for(weather: WeatherType, heads: bool) -> (c: TreeColor)
    ensures
        c == if weather == WeatherType::Snow {
            TreeColor::Yellow
        } else if heads {
            TreeColor::Green
        } else {
            TreeColor::Yellow
        },
{
    if weather == WeatherType::Snow {
        TreeColor::Yellow
    } else if heads {
        TreeColor::Green
    } else {
        TreeColor::Yellow
    }
}

/// The colour of a stage's trees: yellow in snow, otherwise green or
/// yellow by a coin toss.
pub fn choose_tree_color(weather: WeatherType, global_rng: &mut GlobalRng) -> (c: TreeColor)
    ensures
        weather == WeatherType::Snow ==> c == TreeColor::Yellow,
{
    if weather == WeatherType::Snow {
        TreeColor::Yellow
    } else {
        let heads = global_rng.gen_bool();
        tree_color_for(weather, heads)
    }
}

} // verus!
