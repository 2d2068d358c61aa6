use bevy::color::Color;
use blueprint_ui::{ColorPair, ColorSet, CustomColors, Role, Theme, ThemeColor, DEFAULT_SHADE, STOPS};

const ROLES: [Role; 8] = [
    Role::Primary,
    Role::Secondary,
    Role::Tertiary,
    Role::Info,
    Role::Warning,
    Role::Success,
    Role::Error,
    Role::Surface,
];

fn pair(seed: u8, n: u8) -> ColorPair {
    ColorPair {
        text: Color::srgb_u8(seed, seed, seed),
        base: ColorSet::from((0..n).map(|i| Color::srgb_u8(seed, i, 7)).collect::<Vec<Color>>()),
    }
}

fn theme() -> Theme<u32, [u32; 4]> {
    let mut custom = CustomColors::new();
    custom.insert(String::from("brand"), pair(90, 3));
    Theme {
        name: String::from("Night"),
        tags: vec![String::from("Dark")],
        primary: pair(10, 5),
        secondary: pair(20, 6),
        tertiary: pair(30, 7),
        info: pair(40, 1),
        warning: pair(50, 2),
        success: pair(60, 10),
        error: pair(70, 11),
        surface: pair(80, 0),
        text: Color::BLACK,
        custom,
        font_base: 1,
        font_heading: 2,
        rounding_container: [4, 4, 4, 4],
        rounding_base: [2, 2, 2, 2],
        border_thickness: [1, 1, 1, 1],
        highlight_color: ThemeColor::Primary(300),
        border_color: ThemeColor::default(),
    }
}

#[test]
fn default_selector_is_surface_at_500() {
    assert_eq!(ThemeColor::default(), ThemeColor::Surface(500));
    assert_eq!(ThemeColor::default(), ThemeColor::fixed(Role::Surface, DEFAULT_SHADE));
    assert_eq!(DEFAULT_SHADE, 500);
}

#[test]
fn stops_are_the_conventional_ten() {
    assert_eq!(STOPS, [50, 100, 200, 300, 400, 500, 600, 700, 800, 900]);
}

#[test]
fn fixed_builds_the_variant_of_the_role() {
    assert_eq!(ThemeColor::fixed(Role::Primary, 50), ThemeColor::Primary(50));
    assert_eq!(ThemeColor::fixed(Role::Secondary, 100), ThemeColor::Secondary(100));
    assert_eq!(ThemeColor::fixed(Role::Tertiary, 200), ThemeColor::Tertiary(200));
    assert_eq!(ThemeColor::fixed(Role::Info, 300), ThemeColor::Info(300));
    assert_eq!(ThemeColor::fixed(Role::Warning, 400), ThemeColor::Warning(400));
    assert_eq!(ThemeColor::fixed(Role::Success, 600), ThemeColor::Success(600));
    assert_eq!(ThemeColor::fixed(Role::Error, 700), ThemeColor::Error(700));
    assert_eq!(ThemeColor::fixed(Role::Surface, 900), ThemeColor::Surface(900));
    assert_ne!(ThemeColor::fixed(Role::Primary, 50), ThemeColor::Primary(100));
    assert_ne!(ThemeColor::fixed(Role::Primary, 50), ThemeColor::Secondary(50));
}

#[test]
fn shade_reads_the_carried_level() {
    for role in ROLES {
        for stop in STOPS {
            assert_eq!(ThemeColor::fixed(role, stop).shade(), stop);
        }
    }
    assert_eq!(ThemeColor::Custom(String::from("brand"), 250).shade(), 250);
    assert_eq!(ThemeColor::Unique(pair(1, 2), 750).shade(), 750);
}

#[test]
fn theme_gives_each_role_its_pair() {
    let t = theme();
    assert_eq!(t.pair(Role::Primary), &t.primary);
    assert_eq!(t.pair(Role::Secondary), &t.secondary);
    assert_eq!(t.pair(Role::Tertiary), &t.tertiary);
    assert_eq!(t.pair(Role::Info), &t.info);
    assert_eq!(t.pair(Role::Warning), &t.warning);
    assert_eq!(t.pair(Role::Success), &t.success);
    assert_eq!(t.pair(Role::Error), &t.error);
    assert_eq!(t.pair(Role::Surface), &t.surface);
}

#[test]
fn role_selectors_pick_the_role_pair() {
    let t = theme();
    for role in ROLES {
        for stop in STOPS {
            assert_eq!(ThemeColor::fixed(role, stop).select(&t), Some(t.pair(role)));
        }
    }
}

#[test]
fn each_role_at_500_resolves_to_the_middle_of_its_ramp() {
    let t = theme();
    for role in ROLES {
        let selector = ThemeColor::fixed(role, 500);
        assert!(selector.can_resolve(&t));
        let base = &t.pair(role).base;
        assert_eq!(selector.resolve(&t), base.get_val(500));
        if base.shades.is_empty() {
            assert_eq!(selector.resolve(&t), Color::WHITE);
        } else {
            assert_eq!(selector.resolve(&t), base.shades[(base.shades.len() - 1) / 2]);
        }
    }
}

#[test]
fn role_selectors_resolve_to_exact_shades() {
    let t = theme();
    assert_eq!(ThemeColor::Primary(500).resolve(&t), Color::srgb_u8(10, 2, 7));
    assert_eq!(ThemeColor::Primary(0).resolve(&t), Color::srgb_u8(10, 0, 7));
    assert_eq!(ThemeColor::Primary(1000).resolve(&t), Color::srgb_u8(10, 4, 7));
    assert_eq!(ThemeColor::Secondary(500).resolve(&t), Color::srgb_u8(20, 2, 7));
    assert_eq!(ThemeColor::Tertiary(500).resolve(&t), Color::srgb_u8(30, 3, 7));
    assert_eq!(ThemeColor::Info(900).resolve(&t), Color::srgb_u8(40, 0, 7));
    assert_eq!(ThemeColor::Warning(900).resolve(&t), Color::srgb_u8(50, 0, 7));
    assert_eq!(ThemeColor::Warning(1000).resolve(&t), Color::srgb_u8(50, 1, 7));
    assert_eq!(ThemeColor::Success(50).resolve(&t), Color::srgb_u8(60, 0, 7));
    assert_eq!(ThemeColor::Success(700).resolve(&t), Color::srgb_u8(60, 6, 7));
    assert_eq!(ThemeColor::Error(700).resolve(&t), Color::srgb_u8(70, 7, 7));
    assert_eq!(ThemeColor::Surface(500).resolve(&t), Color::WHITE);
}

#[test]
fn accents_of_the_theme_resolve() {
    let t = theme();
    assert_eq!(t.highlight_color.resolve(&t), Color::srgb_u8(10, 1, 7));
    assert_eq!(t.border_color.resolve(&t), Color::WHITE);
}

#[test]
fn custom_selector_resolves_through_the_named_pair() {
    let t = theme();
    let brand = ThemeColor::Custom(String::from("brand"), 500);
    assert_eq!(brand.select(&t), Some(&pair(90, 3)));
    assert!(brand.can_resolve(&t));
    assert_eq!(brand.resolve(&t), Color::srgb_u8(90, 1, 7));
    assert_eq!(ThemeColor::Custom(String::from("brand"), 1000).resolve(&t), Color::srgb_u8(90, 2, 7));
}

#[test]
fn custom_selector_without_its_name_is_white() {
    let t = theme();
    let missing = ThemeColor::Custom(String::from("accent"), 500);
    assert_eq!(missing.select(&t), None);
    assert!(missing.can_resolve(&t));
    assert_eq!(missing.resolve(&t), Color::WHITE);
    let far = ThemeColor::Custom(String::from("accent"), u32::MAX);
    assert!(far.can_resolve(&t));
    assert_eq!(far.resolve(&t), Color::WHITE);
}

#[test]
fn unique_selector_resolves_through_its_own_pair() {
    let t = theme();
    let own = pair(99, 4);
    let selector = ThemeColor::Unique(own.clone(), 1000);
    assert_eq!(selector.select(&t), Some(&own));
    assert_eq!(selector.resolve(&t), Color::srgb_u8(99, 3, 7));
    assert_eq!(ThemeColor::Unique(own, 0).resolve(&t), Color::srgb_u8(99, 0, 7));
    assert_eq!(ThemeColor::Unique(ColorPair::default(), 500).resolve(&t), Color::WHITE);
}

#[test]
fn levels_past_the_ramp_cannot_be_resolved() {
    let t = theme();
    assert!(ThemeColor::Primary(1249).can_resolve(&t));
    assert_eq!(ThemeColor::Primary(1249).resolve(&t), Color::srgb_u8(10, 4, 7));
    assert!(!ThemeColor::Primary(1250).can_resolve(&t));
    assert!(!ThemeColor::Custom(String::from("brand"), 1500).can_resolve(&t));
    assert!(!ThemeColor::Unique(pair(1, 2), 2000).can_resolve(&t));
    assert!(ThemeColor::Surface(u32::MAX).can_resolve(&t));
    assert!(ThemeColor::Info(u32::MAX).can_resolve(&t));
}

#[test]
fn every_stop_resolves_against_every_role() {
    let t = theme();
    for role in ROLES {
        for stop in STOPS {
            let selector = ThemeColor::fixed(role, stop);
            assert!(selector.can_resolve(&t));
            let base = &t.pair(role).base;
            if base.shades.is_empty() {
                assert_eq!(selector.resolve(&t), Color::WHITE);
            } else {
                assert!(base.shades.contains(&selector.resolve(&t)));
            }
        }
    }
}

#[test]
fn custom_colors_start_empty() {
    let colors = CustomColors::new();
    assert_eq!(colors.get("brand"), None);
    assert_eq!(colors.get(""), None);
    assert_eq!(CustomColors::default().get("brand"), None);
}

#[test]
fn custom_colors_keep_one_pair_per_name() {
    let mut colors = CustomColors::new();
    assert_eq!(colors.insert(String::from("brand"), pair(1, 2)), None);
    assert_eq!(colors.get("brand"), Some(&pair(1, 2)));
    assert_eq!(colors.get("Brand"), None);
    assert_eq!(colors.insert(String::from("accent"), pair(3, 4)), None);
    assert_eq!(colors.get("brand"), Some(&pair(1, 2)));
    assert_eq!(colors.get("accent"), Some(&pair(3, 4)));
    assert_eq!(colors.insert(String::from("brand"), pair(5, 6)), Some(pair(1, 2)));
    assert_eq!(colors.get("brand"), Some(&pair(5, 6)));
    assert_eq!(colors.get("accent"), Some(&pair(3, 4)));
}

#[test]
fn selectors_compare_and_clone_by_value() {
    let a = ThemeColor::Custom(String::from("brand"), 500);
    assert_eq!(a.clone(), a);
    assert_ne!(a, ThemeColor::Custom(String::from("brand"), 400));
    assert_ne!(a, ThemeColor::Custom(String::from("accent"), 500));
    let u = ThemeColor::Unique(pair(1, 2), 100);
    assert_eq!(u.clone(), u);
    assert_ne!(u, ThemeColor::Unique(pair(1, 3), 100));
    assert_ne!(ThemeColor::Primary(500), ThemeColor::Surface(500));
}
