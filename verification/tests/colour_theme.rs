use shtask::adapters::toml_theme::{
    color_from_lowercase, parse_color, theme_from_dto, unrecognised_colours, ColourThemeDto,
};
use shtask::domain::colour_theme::{ColourTheme, NamedColor};

#[test]
fn default_theme_matches_pre_feature_hardcoded_values() {
    let theme = ColourTheme::default();
    assert_eq!(theme.active_panel_border, NamedColor::LightCyan);
    assert_eq!(theme.inactive_panel_border, NamedColor::Reset);
    assert!(theme.selected_item_reverse, "default uses REVERSED modifier");
}

#[test]
fn default_named_color_is_reset() {
    assert_eq!(NamedColor::default(), NamedColor::Reset);
}

#[test]
fn empty_configuration_gives_default_theme() {
    let dto = ColourThemeDto::default();
    assert_eq!(theme_from_dto(&dto), ColourTheme::default());
    assert!(unrecognised_colours(&dto).is_empty());
}

#[test]
fn configured_override_applies_and_others_keep_default() {
    let dto = ColourThemeDto {
        active_panel_border: Some("Green".to_string()),
        ..ColourThemeDto::default()
    };
    let theme = theme_from_dto(&dto);
    assert_eq!(theme.active_panel_border, NamedColor::Green);
    assert_eq!(
        theme.inactive_panel_border,
        ColourTheme::default().inactive_panel_border
    );
}

#[test]
fn configured_completed_task_fg_applies() {
    let dto = ColourThemeDto {
        completed_task_fg: Some("cyan".to_string()),
        ..ColourThemeDto::default()
    };
    assert_eq!(theme_from_dto(&dto).completed_task_fg, NamedColor::Cyan);
}

#[test]
fn explicit_selected_colours_turn_off_reverse() {
    let dto = ColourThemeDto {
        selected_item_bg: Some("yellow".to_string()),
        ..ColourThemeDto::default()
    };
    let theme = theme_from_dto(&dto);
    assert!(!theme.selected_item_reverse);
    assert_eq!(theme.selected_item_bg, NamedColor::Yellow);
    assert_eq!(theme.selected_item_fg, NamedColor::Reset);
}

#[test]
fn unrecognised_colour_keeps_default_and_is_reported() {
    let dto = ColourThemeDto {
        normal_item_fg: Some("purple".to_string()),
        selected_item_fg: Some("mauve".to_string()),
        ..ColourThemeDto::default()
    };
    let theme = theme_from_dto(&dto);
    assert_eq!(theme.normal_item_fg, NamedColor::Reset);
    assert!(!theme.selected_item_reverse);
    assert_eq!(
        unrecognised_colours(&dto),
        vec!["mauve".to_string(), "purple".to_string()]
    );
}

#[test]
fn colour_names_are_case_insensitive_with_aliases() {
    assert_eq!(parse_color("LightCyan"), Some(NamedColor::LightCyan));
    assert_eq!(parse_color("DARKGRAY"), Some(NamedColor::LightBlack));
    assert_eq!(parse_color("gray"), Some(NamedColor::LightWhite));
    assert_eq!(parse_color("reset"), Some(NamedColor::Reset));
    assert_eq!(parse_color("teal"), None);
    assert_eq!(color_from_lowercase("Red"), None);
    assert_eq!(color_from_lowercase("red"), Some(NamedColor::Red));
}
