//! The colour configuration file's shape and how it becomes a theme: each
//! field names a colour, case-insensitively; a missing or unrecognised name
//! keeps the default; an explicit selected-row colour turns off the reversed
//! selection.
use vstd::prelude::*;

use crate::domain::colour_theme::{default_theme, ColourTheme, NamedColor};
use crate::text::same_text;

verus! {

/// The configuration file: every field is an optional colour name.
#[derive(Debug, Default, PartialEq, Eq)]
pub struct ColourThemeDto {
    pub active_panel_border: Option<String>,
    pub inactive_panel_border: Option<String>,
    pub selected_item_fg: Option<String>,
    pub selected_item_bg: Option<String>,
    pub normal_item_fg: Option<String>,
    pub completed_task_fg: Option<String>,
}

/// The lowercase form of a text under Unicode case mapping, as
/// `str::to_lowercase` computes it.
pub uninterp spec fn unicode_lowercase(s: Seq<char>) -> Seq<char>;

/// `str::to_lowercase`: the lowercase form of `s`, under Unicode's full case
/// mapping. Its result is named, not described.
#[verifier::external_body]
fn lowercase(s: &str) -> (r: String)
    ensures
        r@ == unicode_lowercase(s@),
{
    s.to_lowercase()
}

/// The colour that an already-lowercased name stands for.
pub open spec fn color_named(s: Seq<char>) -> Option<NamedColor> {
    if s == "black"@ {
        Some(NamedColor::Black)
    } else if s == "red"@ {
        Some(NamedColor::Red)
    } else if s == "green"@ {
        Some(NamedColor::Green)
    } else if s == "yellow"@ {
        Some(NamedColor::Yellow)
    } else if s == "blue"@ {
        Some(NamedColor::Blue)
    } else if s == "magenta"@ {
        Some(NamedColor::Magenta)
    } else if s == "cyan"@ {
        Some(NamedColor::Cyan)
    } else if s == "white"@ {
        Some(NamedColor::White)
    } else if s == "lightblack"@ || s == "darkgray"@ {
        Some(NamedColor::LightBlack)
    } else if s == "lightred"@ {
        Some(NamedColor::LightRed)
    } else if s == "lightgreen"@ {
        Some(NamedColor::LightGreen)
    } else if s == "lightyellow"@ {
        Some(NamedColor::LightYellow)
    } else if s == "lightblue"@ {
        Some(NamedColor::LightBlue)
    } else if s == "lightmagenta"@ {
        Some(NamedColor::LightMagenta)
    } else if s == "lightcyan"@ {
        Some(NamedColor::LightCyan)
    } else if s == "lightwhite"@ || s == "gray"@ {
        Some(NamedColor::LightWhite)
    } else if s == "reset"@ {
        Some(NamedColor::Reset)
    } else {
        None
    }
}

/// The colour a configured name stands for, compared case-insensitively.
pub open spec fn parsed_color(s: Seq<char>) -> Option<NamedColor> {
    color_named(unicode_lowercase(s))
}

/// A configured field, or `d` when it is absent or names no colour.
pub open spec fn field_or(x: Option<String>, d: NamedColor) -> NamedColor {
    match x {
        Some(s) => match parsed_color(s@) {
            Some(c) => c,
            None => d,
        },
        None => d,
    }
}

/// The theme a configuration file describes.
pub open spec fn theme_of(dto: ColourThemeDto) -> ColourTheme {
    let d = default_theme();
    ColourTheme {
        active_panel_border: field_or(dto.active_panel_border, d.active_panel_border),
        inactive_panel_border: field_or(dto.inactive_panel_border, d.inactive_panel_border),
        selected_item_fg: field_or(dto.selected_item_fg, d.selected_item_fg),
        selected_item_bg: field_or(dto.selected_item_bg, d.selected_item_bg),
        selected_item_reverse: !(dto.selected_item_fg is Some || dto.selected_item_bg is Some),
        normal_item_fg: field_or(dto.normal_item_fg, d.normal_item_fg),
        completed_task_fg: field_or(dto.completed_task_fg, d.completed_task_fg),
    }
}

/// The colour that the lowercase name `name` stands for, if any.
pub fn color_from_lowercase(name: &str) -> (r: Option<NamedColor>)
    ensures
        r == color_named(name@),
{
    if same_text(name, "black") {
        Some(NamedColor::Black)
    } else if same_text(name, "red") {
        Some(NamedColor::Red)
    } else if same_text(name, "green") {
        Some(NamedColor::Green)
    } else if same_text(name, "yellow") {
        Some(NamedColor::Yellow)
    } else if same_text(name, "blue") {
        Some(NamedColor::Blue)
    } else if same_text(name, "magenta") {
        Some(NamedColor::Magenta)
    } else if same_text(name, "cyan") {
        Some(NamedColor::Cyan)
    } else if same_text(name, "white") {
        Some(NamedColor::White)
    } else if same_text(name, "lightblack") || same_text(name, "darkgray") {
        Some(NamedColor::LightBlack)
    } else if same_text(name, "lightred") {
        Some(NamedColor::LightRed)
    } else if same_text(name, "lightgreen") {
        Some(NamedColor::LightGreen)
    } else if same_text(name, "lightyellow") {
        Some(NamedColor::LightYellow)
    } else if same_text(name, "lightblue") {
        Some(NamedColor::LightBlue)
    } else if same_text(name, "lightmagenta") {
        Some(NamedColor::LightMagenta)
    } else if same_text(name, "lightcyan") {
        Some(NamedColor::LightCyan)
    } else if same_text(name, "lightwhite") || same_text(name, "gray") {
        Some(NamedColor::LightWhite)
    } else if same_text(name, "reset") {
        Some(NamedColor::Reset)
    } else {
        None
    }
}

/// The colour a configured name stands for, compared case-insensitively.
pub fn parse_color(s: &str) -> (r: Option<NamedColor>)
    ensures
        r == parsed_color(s@),
{
    let lower = lowercase(s);
    color_from_lowercase(lower.as_str())
}

fn field_or_default(x: &Option<String>, d: NamedColor) -> (r: NamedColor)
    ensures
        r == field_or(*x, d),
{
    match x {
        Some(s) => match parse_color(s.as_str()) {
            Some(c) => c,
            None => d,
        },
        None => d,
    }
}

/// The theme a configuration file describes: each field overrides the
/// default when it names a colour; giving the selected row an explicit
/// foreground or background turns off the reversed selection.
pub fn theme_from_dto(dto: &ColourThemeDto) -> (r: ColourTheme)
    ensures
        r == theme_of(*dto),
{
    let d = ColourTheme::default();
    let has_explicit_selected = dto.selected_item_fg.is_some() || dto.selected_item_bg.is_some();
    ColourTheme {
        active_panel_border: field_or_default(&dto.active_panel_border, d.active_panel_border),
        inactive_panel_border: field_or_default(&dto.inactive_panel_border, d.inactive_panel_border),
        selected_item_fg: field_or_default(&dto.selected_item_fg, d.selected_item_fg),
        selected_item_bg: field_or_default(&dto.selected_item_bg, d.selected_item_bg),
        selected_item_reverse: !has_explicit_selected,
        normal_item_fg: field_or_default(&dto.normal_item_fg, d.normal_item_fg),
        completed_task_fg: field_or_default(&dto.completed_task_fg, d.completed_task_fg),
    }
}

/// The configured names, in field order, that name no colour.
pub open spec fn unrecognised_of(dto: ColourThemeDto) -> Seq<Seq<char>> {
    rejected(dto.active_panel_border) + rejected(dto.inactive_panel_border) + rejected(
        dto.selected_item_fg,
    ) + rejected(dto.selected_item_bg) + rejected(dto.normal_item_fg) + rejected(
        dto.completed_task_fg,
    )
}

/// A configured name that names no colour, as a one-element sequence.
pub open spec fn rejected(x: Option<String>) -> Seq<Seq<char>> {
    match x {
        Some(s) => if parsed_color(s@) is None {
            seq![s@]
        } else {
            Seq::empty()
        },
        None => Seq::empty(),
    }
}

fn push_if_rejected(out: &mut Vec<String>, x: &Option<String>)
    ensures
        final(out)@.map_values(|s: String| s@) == old(out)@.map_values(|s: String| s@) + rejected(
            *x,
        ),
{
    let ghost before = out@;
    match x {
        Some(s) => {
            if parse_color(s.as_str()).is_none() {
                out.push(s.clone());
                assert(out@.map_values(|s: String| s@) =~= before.map_values(|s: String| s@) + seq![s@]);
            } else {
                assert(out@.map_values(|s: String| s@) =~= before.map_values(|s: String| s@) + Seq::<Seq<char>>::empty());
            }
        },
        None => {
            assert(out@.map_values(|s: String| s@) =~= before.map_values(|s: String| s@) + Seq::<Seq<char>>::empty());
        },
    }
}

/// The configured names that name no colour, in field order; each is
/// ignored in favour of the default, and the program warns about it.
pub fn unrecognised_colours(dto: &ColourThemeDto) -> (r: Vec<String>)
    ensures
        r@.map_values(|s: String| s@) == unrecognised_of(*dto),
{
    let mut out: Vec<String> = Vec::new();
    assert(out@.map_values(|s: String| s@) =~= Seq::<Seq<char>>::empty());
    push_if_rejected(&mut out, &dto.active_panel_border);
    push_if_rejected(&mut out, &dto.inactive_panel_border);
    push_if_rejected(&mut out, &dto.selected_item_fg);
    push_if_rejected(&mut out, &dto.selected_item_bg);
    push_if_rejected(&mut out, &dto.normal_item_fg);
    push_if_rejected(&mut out, &dto.completed_task_fg);
    assert(Seq::<Seq<char>>::empty() + rejected(dto.active_panel_border) =~= rejected(
        dto.active_panel_border,
    ));
    out
}

/// Each configured field that names a colour, in any letter case, sets that
/// colour; a field that is absent or names no colour keeps the default; and
/// the selected row is shown reversed exactly when neither of its colours
/// is configured.
pub proof fn law_configured_colours_apply(dto: ColourThemeDto)
    ensures
        match dto.active_panel_border {
            Some(s) => parsed_color(s@) matches Some(c) ==> theme_of(dto).active_panel_border == c,
            None => true,
        },
        match dto.inactive_panel_border {
            Some(s) => parsed_color(s@) matches Some(c) ==> theme_of(dto).inactive_panel_border == c,
            None => true,
        },
        match dto.selected_item_fg {
            Some(s) => parsed_color(s@) matches Some(c) ==> theme_of(dto).selected_item_fg == c,
            None => true,
        },
        match dto.selected_item_bg {
            Some(s) => parsed_color(s@) matches Some(c) ==> theme_of(dto).selected_item_bg == c,
            None => true,
        },
        match dto.normal_item_fg {
            Some(s) => parsed_color(s@) matches Some(c) ==> theme_of(dto).normal_item_fg == c,
            None => true,
        },
        match dto.completed_task_fg {
            Some(s) => parsed_color(s@) matches Some(c) ==> theme_of(dto).completed_task_fg == c,
            None => true,
        },
        match dto.active_panel_border {
            Some(s) => parsed_color(s@) is None ==> theme_of(dto).active_panel_border == default_theme().active_panel_border,
            None => theme_of(dto).active_panel_border == default_theme().active_panel_border,
        },
        match dto.inactive_panel_border {
            Some(s) => parsed_color(s@) is None ==> theme_of(dto).inactive_panel_border == default_theme().inactive_panel_border,
            None => theme_of(dto).inactive_panel_border == default_theme().inactive_panel_border,
        },
        match dto.selected_item_fg {
            Some(s) => parsed_color(s@) is None ==> theme_of(dto).selected_item_fg == default_theme().selected_item_fg,
            None => theme_of(dto).selected_item_fg == default_theme().selected_item_fg,
        },
        match dto.selected_item_bg {
            Some(s) => parsed_color(s@) is None ==> theme_of(dto).selected_item_bg == default_theme().selected_item_bg,
            None => theme_of(dto).selected_item_bg == default_theme().selected_item_bg,
        },
        match dto.normal_item_fg {
            Some(s) => parsed_color(s@) is None ==> theme_of(dto).normal_item_fg == default_theme().normal_item_fg,
            None => theme_of(dto).normal_item_fg == default_theme().normal_item_fg,
        },
        match dto.completed_task_fg {
            Some(s) => parsed_color(s@) is None ==> theme_of(dto).completed_task_fg == default_theme().completed_task_fg,
            None => theme_of(dto).completed_task_fg == default_theme().completed_task_fg,
        },
        theme_of(dto).selected_item_reverse == (dto.selected_item_fg is None
            && dto.selected_item_bg is None),
{
}

/// A configuration that sets nothing gives the default theme.
pub proof fn law_empty_configuration_gives_default_theme()
    ensures
        theme_of(
            ColourThemeDto {
                active_panel_border: None,
                inactive_panel_border: None,
                selected_item_fg: None,
                selected_item_bg: None,
                normal_item_fg: None,
                completed_task_fg: None,
            },
        ) == default_theme(),
        unrecognised_of(
            ColourThemeDto {
                active_panel_border: None,
                inactive_panel_border: None,
                selected_item_fg: None,
                selected_item_bg: None,
                normal_item_fg: None,
                completed_task_fg: None,
            },
        ) == Seq::<Seq<char>>::empty(),
{
    assert(Seq::<Seq<char>>::empty() + Seq::<Seq<char>>::empty() =~= Seq::<Seq<char>>::empty());
}

} // verus!
