//! Texts in both languages, and the filling of `{name}` placeholders.

use vstd::prelude::*;
use crate::text::{chars_of, decimal, replace_all, replace_chars, string_of, usize_to_decimal};
use crate::types::Language;

verus! {

/// A text in Chinese and in English.
#[derive(Clone, Copy, Debug)]
pub struct LocalizedText {
    pub cn: &'static str,
    pub en: &'static str,
}

/// The version of a text for a language.
pub open spec fn text_for(cn: Seq<char>, en: Seq<char>, language: Language) -> Seq<char> {
    match language {
        Language::Chinese => cn,
        Language::English => en,
    }
}

impl LocalizedText {
    /// The text in the given language.
    pub fn get(&self, language: Language) -> (s: &'static str)
        ensures
            s@ == text_for(self.cn@, self.en@, language),
    {
        match language {
            Language::Chinese => self.cn,
            Language::English => self.en,
        }
    }
}

/// A text in both languages with `{name}` placeholders.
#[derive(Clone, Copy, Debug)]
pub struct LocalizedTextFormat {
    pub cn: &'static str,
    pub en: &'static str,
}

/// The placeholder for a name: the name in braces.
pub open spec fn placeholder(name: Seq<char>) -> Seq<char> {
    seq!['{'] + name + seq!['}']
}

/// A template with each named placeholder replaced, in order, by the decimal
/// form of its value.
pub open spec fn fill_named(template: Seq<char>, values: Seq<(Seq<char>, nat)>) -> Seq<char>
    decreases values.len(),
{
    if values.len() == 0 {
        template
    } else {
        replace_all(
            fill_named(template, values.drop_last()),
            placeholder(values.last().0),
            decimal(values.last().1),
        )
    }
}

/// The names and values of a placeholder list, as sequences and numbers.
pub open spec fn named_values(values: Seq<(&str, usize)>) -> Seq<(Seq<char>, nat)> {
    values.map_values(|p: (&str, usize)| (p.0@, p.1 as nat))
}

impl LocalizedTextFormat {
    /// The template in the given language.
    pub fn get(&self, language: Language) -> (s: &'static str)
        ensures
            s@ == text_for(self.cn@, self.en@, language),
    {
        match language {
            Language::Chinese => self.cn,
            Language::English => self.en,
        }
    }

    /// The template in the given language with every `{var}` replaced by `value`.
    pub fn format(&self, language: Language, value: usize) -> (s: String)
        ensures
            s@ == replace_all(text_for(self.cn@, self.en@, language), "{var}"@, decimal(value as nat)),
    {
        let template = chars_of(self.get(language));
        let pat = chars_of("{var}");
        proof {
            reveal_strlit("{var}");
        }
        let rep = chars_of(usize_to_decimal(value).as_str());
        let out = replace_chars(&template, &pat, &rep);
        string_of(&out)
    }

    /// The template in the given language with each `{name}` replaced by its
    /// value, names taken in the order given.
    pub fn format_named(&self, language: Language, values: &[(&str, usize)]) -> (s: String)
        ensures
            s@ == fill_named(text_for(self.cn@, self.en@, language), named_values(values@)),
    {
        let mut cur = chars_of(self.get(language));
        let ghost template = cur@;
        let n = values.len();
        let mut i: usize = 0;
        while i < n
            invariant
                n == values@.len(),
                i <= n,
                cur@ == fill_named(template, named_values(values@).take(i as int)),
            decreases n - i,
        {
            let (name, value) = values[i];
            let mut pat: Vec<char> = Vec::new();
            pat.push('{');
            let name_chars = chars_of(name);
            let mut k: usize = 0;
            while k < name_chars.len()
                invariant
                    k <= name_chars@.len(),
                    pat@ == seq!['{'] + name_chars@.take(k as int),
                decreases name_chars@.len() - k,
            {
                pat.push(name_chars[k]);
                assert(pat@ =~= seq!['{'] + name_chars@.take(k + 1));
                k += 1;
            }
            pat.push('}');
            assert(name_chars@.take(name_chars@.len() as int) =~= name_chars@);
            assert(pat@ =~= placeholder(name@));
            let rep = chars_of(usize_to_decimal(value).as_str());
            cur = replace_chars(&cur, &pat, &rep);
            proof {
                let nv = named_values(values@);
                assert(nv.take(i + 1).drop_last() =~= nv.take(i as int));
                assert(nv.take(i + 1).last() == (name@, value as nat));
            }
            i += 1;
        }
        assert(named_values(values@).take(n as int) =~= named_values(values@));
        string_of(&cur)
    }
}

// ---------------------------------------------------------------------------
// Texts
// ---------------------------------------------------------------------------

/// The warning shown when a player lacks the energy for a skill.
pub fn insufficient_energy() -> (t: LocalizedText)
    ensures
        t.cn@ == "能量不足！"@,
        t.en@ == "Insufficient Energy!"@,
{
    LocalizedText { cn: "能量不足！", en: "Insufficient Energy!" }
}

/// The first player's name.
pub fn hud_player1_name() -> (t: LocalizedText)
    ensures
        t.cn@ == "南敬业"@,
        t.en@ == "Nan Jingye"@,
{
    LocalizedText { cn: "南敬业", en: "Nan Jingye" }
}

/// The second player's name.
pub fn hud_player2_name() -> (t: LocalizedText)
    ensures
        t.cn@ == "南金成"@,
        t.en@ == "Nan Jincheng"@,
{
    LocalizedText { cn: "南金成", en: "Nan Jincheng" }
}

/// The title over the effects of a player panel.
pub fn hud_effects_title() -> (t: LocalizedText)
    ensures
        t.cn@ == "效果"@,
        t.en@ == "Effects"@,
{
    LocalizedText { cn: "效果", en: "Effects" }
}

/// The label of the commander's life bar.
pub fn hud_commander_life() -> (t: LocalizedText)
    ensures
        t.cn@ == "司令官生命:"@,
        t.en@ == "Commander Life:"@,
{
    LocalizedText { cn: "司令官生命:", en: "Commander Life:" }
}

/// The word for an effect that is on.
pub fn hud_on() -> (t: LocalizedText)
    ensures
        t.cn@ == "开启"@,
        t.en@ == "On"@,
{
    LocalizedText { cn: "开启", en: "On" }
}

/// The word for an effect that is off.
pub fn hud_off() -> (t: LocalizedText)
    ensures
        t.cn@ == "关闭"@,
        t.en@ == "Off"@,
{
    LocalizedText { cn: "关闭", en: "Off" }
}

/// The label of the speed line.
pub fn hud_label_speed() -> (t: LocalizedText)
    ensures
        t.cn@ == "速度:"@,
        t.en@ == "Speed:"@,
{
    LocalizedText { cn: "速度:", en: "Speed:" }
}

/// The label of the fire-speed line.
pub fn hud_label_fire_speed() -> (t: LocalizedText)
    ensures
        t.cn@ == "射速:"@,
        t.en@ == "Fire Speed:"@,
{
    LocalizedText { cn: "射速:", en: "Fire Speed:" }
}

/// The label of the protection line.
pub fn hud_label_protection() -> (t: LocalizedText)
    ensures
        t.cn@ == "护盾:"@,
        t.en@ == "Protection:"@,
{
    LocalizedText { cn: "护盾:", en: "Protection:" }
}

/// The label of the shells line.
pub fn hud_label_shells() -> (t: LocalizedText)
    ensures
        t.cn@ == "炮弹:"@,
        t.en@ == "Shells:"@,
{
    LocalizedText { cn: "炮弹:", en: "Shells:" }
}

/// The label of the fire-shell line.
pub fn hud_label_fire_shell() -> (t: LocalizedText)
    ensures
        t.cn@ == "火焰炮弹"@,
        t.en@ == "Fire Shell"@,
{
    LocalizedText { cn: "火焰炮弹", en: "Fire Shell" }
}

/// The label of the penetration line.
pub fn hud_label_penetrate() -> (t: LocalizedText)
    ensures
        t.cn@ == "穿透"@,
        t.en@ == "Penetrate"@,
{
    LocalizedText { cn: "穿透", en: "Penetrate" }
}

/// The label of the track-chain line.
pub fn hud_label_track_chain() -> (t: LocalizedText)
    ensures
        t.cn@ == "履带链"@,
        t.en@ == "Track Chain"@,
{
    LocalizedText { cn: "履带链", en: "Track Chain" }
}

/// The label of the air-cushion line.
pub fn hud_label_air_cushion() -> (t: LocalizedText)
    ensures
        t.cn@ == "气垫"@,
        t.en@ == "Air Cushion"@,
{
    LocalizedText { cn: "气垫", en: "Air Cushion" }
}

/// The label of the score line.
pub fn hud_label_score() -> (t: LocalizedText)
    ensures
        t.cn@ == "分数:"@,
        t.en@ == "Scores:"@,
{
    LocalizedText { cn: "分数:", en: "Scores:" }
}

/// The stage counter, with the stage number for `{var}`.
pub fn stage_text() -> (t: LocalizedTextFormat)
    ensures
        t.cn@ == "第 {var} 关"@,
        t.en@ == "Stage {var}"@,
{
    LocalizedTextFormat { cn: "第 {var} 关", en: "Stage {var}" }
}

/// The enemy counter, with `{remaining}` and `{total}`.
pub fn enemy_count_text() -> (t: LocalizedTextFormat)
    ensures
        t.cn@ == "敌方剩余: {remaining}/{total}"@,
        t.en@ == "Enemy Left: {remaining}/{total}"@,
{
    LocalizedTextFormat { cn: "敌方剩余: {remaining}/{total}", en: "Enemy Left: {remaining}/{total}" }
}

/// The pop-up of the speed power-up, with the bonus for `{var}`.
pub fn powerup_floating_speed_up() -> (t: LocalizedTextFormat)
    ensures
        t.cn@ == "速度 +{var}"@,
        t.en@ == "Speed +{var}"@,
{
    LocalizedTextFormat { cn: "速度 +{var}", en: "Speed +{var}" }
}

/// The pop-up of the protection power-up, with the bonus for `{var}`.
pub fn powerup_floating_protection() -> (t: LocalizedTextFormat)
    ensures
        t.cn@ == "护甲 +{var}"@,
        t.en@ == "Armor +{var}"@,
{
    LocalizedTextFormat { cn: "护甲 +{var}", en: "Armor +{var}" }
}

/// The pop-up of the fire-speed power-up, with the bonus for `{var}`.
pub fn powerup_floating_fire_speed() -> (t: LocalizedTextFormat)
    ensures
        t.cn@ == "射速 +{var}"@,
        t.en@ == "FireRate +{var}"@,
{
    LocalizedTextFormat { cn: "射速 +{var}", en: "FireRate +{var}" }
}

/// The pop-up of the repair power-up.
pub fn powerup_floating_repair() -> (t: LocalizedText)
    ensures
        t.cn@ == "生命 +1"@,
        t.en@ == "Life +1"@,
{
    LocalizedText { cn: "生命 +1", en: "Life +1" }
}

/// The pop-up of the hamburger power-up.
pub fn powerup_floating_hamburger() -> (t: LocalizedText)
    ensures
        t.cn@ == "司令生命 +1"@,
        t.en@ == "Commander +1"@,
{
    LocalizedText { cn: "司令生命 +1", en: "Commander +1" }
}

/// The pop-up of the shell power-up.
pub fn powerup_floating_shell() -> (t: LocalizedText)
    ensures
        t.cn@ == "炮弹 +1"@,
        t.en@ == "Shell +1"@,
{
    LocalizedText { cn: "炮弹 +1", en: "Shell +1" }
}

/// The pop-up of the fire-shell power-up.
pub fn powerup_floating_fire_shell() -> (t: LocalizedText)
    ensures
        t.cn@ == "火焰"@,
        t.en@ == "Fire"@,
{
    LocalizedText { cn: "火焰", en: "Fire" }
}

/// The pop-up of the track-chain power-up.
pub fn powerup_floating_track_chain() -> (t: LocalizedText)
    ensures
        t.cn@ == "履带"@,
        t.en@ == "Chain"@,
{
    LocalizedText { cn: "履带", en: "Chain" }
}

/// The pop-up of the penetration power-up.
pub fn powerup_floating_penetrate() -> (t: LocalizedText)
    ensures
        t.cn@ == "穿透"@,
        t.en@ == "Penetrate"@,
{
    LocalizedText { cn: "穿透", en: "Penetrate" }
}

/// The pop-up of the air-cushion power-up.
pub fn powerup_floating_air_cushion() -> (t: LocalizedText)
    ensures
        t.cn@ == "气垫"@,
        t.en@ == "Cushion"@,
{
    LocalizedText { cn: "气垫", en: "Cushion" }
}

/// The pop-up of a run of two kills.
pub fn combo_floating_2() -> (t: LocalizedText)
    ensures
        t.cn@ == "连击 x2"@,
        t.en@ == "Combo x2!"@,
{
    LocalizedText { cn: "连击 x2", en: "Combo x2!" }
}

/// The pop-up of a run of three kills.
pub fn combo_floating_3() -> (t: LocalizedText)
    ensures
        t.cn@ == "连击 x3"@,
        t.en@ == "Combo x3!"@,
{
    LocalizedText { cn: "连击 x3", en: "Combo x3!" }
}

/// The pop-up of a run of four kills.
pub fn combo_floating_4() -> (t: LocalizedText)
    ensures
        t.cn@ == "连击 x4"@,
        t.en@ == "Combo x4!"@,
{
    LocalizedText { cn: "连击 x4", en: "Combo x4!" }
}

/// The pop-up of a run of five kills.
pub fn combo_floating_5() -> (t: LocalizedText)
    ensures
        t.cn@ == "连击 x5"@,
        t.en@ == "Combo x5!"@,
{
    LocalizedText { cn: "连击 x5", en: "Combo x5!" }
}

/// The pop-up of a longer run, with its length for `{var}`.
pub fn combo_floating_high() -> (t: LocalizedTextFormat)
    ensures
        t.cn@ == "连击 x{var}"@,
        t.en@ == "Combo x{var}!"@,
{
    LocalizedTextFormat { cn: "连击 x{var}", en: "Combo x{var}!" }
}

} // verus!
