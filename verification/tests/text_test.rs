use tank_battle::localization::{LocalizedText, LocalizedTextFormat};
use tank_battle::text::{chars_of, replace_chars, string_of, usize_to_decimal};
use tank_battle::types::Language;

fn chars(s: &str) -> Vec<char> {
    s.chars().collect()
}

#[test]
fn decimal_rendering() {
    assert_eq!(usize_to_decimal(0), "0");
    assert_eq!(usize_to_decimal(7), "7");
    assert_eq!(usize_to_decimal(10), "10");
    assert_eq!(usize_to_decimal(40960), "40960");
    assert_eq!(usize_to_decimal(usize::MAX), usize::MAX.to_string());
}

#[test]
fn replacement_is_left_to_right_and_not_reused() {
    let out = replace_chars(&chars("aaa"), &chars("aa"), &chars("b"));
    assert_eq!(string_of(&out), "ba");
    let out = replace_chars(&chars("x{var}y{var}"), &chars("{var}"), &chars("12"));
    assert_eq!(string_of(&out), "x12y12");
    let out = replace_chars(&chars("none"), &chars("{var}"), &chars("1"));
    assert_eq!(string_of(&out), "none");
    assert_eq!(chars_of("速度"), vec!['速', '度']);
}

#[test]
fn localized_texts() {
    let t = LocalizedText { cn: "开启", en: "On" };
    assert_eq!(t.get(Language::Chinese), "开启");
    assert_eq!(t.get(Language::English), "On");
    let f = LocalizedTextFormat { cn: "第 {var} 关", en: "Stage {var}" };
    assert_eq!(f.format(Language::English, 4), "Stage 4");
    assert_eq!(f.format(Language::Chinese, 10), "第 10 关");
}

#[test]
fn named_placeholders() {
    let f = LocalizedTextFormat {
        cn: "敌方剩余: {remaining}/{total}",
        en: "Enemy Left: {remaining}/{total}",
    };
    assert_eq!(f.format_named(Language::English, &[("remaining", 3), ("total", 10)]), "Enemy Left: 3/10");
    assert_eq!(f.format_named(Language::Chinese, &[("total", 10)]), "敌方剩余: {remaining}/10");
    let g = LocalizedTextFormat { cn: "{a}{a}", en: "{a}-{b}" };
    assert_eq!(g.format_named(Language::Chinese, &[("a", 1)]), "11");
    assert_eq!(g.format_named(Language::English, &[("b", 2), ("a", 5)]), "5-2");
}
