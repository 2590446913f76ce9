use theme_builder::color::Color;
use theme_builder::theme::{
    Brightness, Theme, ThemeCreatePayload, ThemeDiagnostic, ThemeGit, ThemeTerminal, ThemeTokens,
};

fn hex(text: &str) -> Color {
    Color::from_hex(text).unwrap()
}

fn dark_payload() -> ThemeCreatePayload {
    ThemeCreatePayload {
        name: String::from("Snowfall dark"),
        brightness: Brightness::Dark,
        accent: hex("#84c4df"),
        background: hex("#24272d"),
        foreground: hex("#91a2a6"),
        git: ThemeGit { added: hex("#BDB969"), modified: hex("#84c4df"), removed: hex("#FA7583") },
        terminal: ThemeTerminal {
            black: hex("#1c1c1c"),
            red: hex("#cc6666"),
            green: hex("#bdb968"),
            yellow: hex("#f0c674"),
            blue: hex("#81a2be"),
            magenta: hex("#b193ba"),
            cyan: hex("#7fb2c8"),
            white: hex("#c8ccd4"),
            bright_black: hex("#636363"),
            bright_red: hex("#a04041"),
            bright_green: hex("#8b9440"),
            bright_yellow: hex("#EBD2A7"),
            bright_blue: hex("#5d7f9a"),
            bright_magenta: hex("#82658c"),
            bright_cyan: hex("#5e8d87"),
            bright_white: hex("#ffffff"),
        },
        tokens: ThemeTokens {
            brackets: hex("#7FB2C7"),
            comment: hex("#474c54"),
            strings: hex("#BDB969"),
            types: hex("#ACBDC3"),
            functions: hex("#7FB2C7"),
            properties: hex("#EBD2A7"),
            keywords: hex("#B08CBA"),
            constants: hex("#EBD2A7"),
            operators: hex("#B08CBA"),
        },
        diagnostics: ThemeDiagnostic {
            error: hex("#FA7583"),
            warning: hex("#EBD2A7"),
            info: hex("#9BCAFF"),
        },
    }
}

#[test]
fn a_new_theme_has_no_syntax_backgrounds() {
    let theme = Theme::new(dark_payload());
    assert!(!theme.is_background_syntax);
}

#[test]
fn a_new_theme_holds_the_payload() {
    let payload = dark_payload();
    let theme = Theme::new(payload.clone());
    assert_eq!(theme.name, "Snowfall dark");
    assert_eq!(theme.brightness, Brightness::Dark);
    assert_eq!(theme.accent, payload.accent);
    assert_eq!(theme.background, payload.background);
    assert_eq!(theme.foreground, payload.foreground);
    assert_eq!(theme.tokens, payload.tokens);
    assert_eq!(theme.terminal, payload.terminal);
    assert_eq!(theme.diagnostics, payload.diagnostics);
    assert_eq!(theme.git, payload.git);
}

#[test]
fn the_background_variant_sets_the_flag_and_the_name() {
    let theme = Theme::new(dark_payload());
    let tinted = theme.to_bg_syntax();
    assert!(tinted.is_background_syntax);
    assert_eq!(tinted.name, "Snowfall dark (background)");
    assert!(!theme.is_background_syntax);
    assert_eq!(theme.name, "Snowfall dark");
}

#[test]
fn the_background_variant_keeps_every_role() {
    let theme = Theme::new(dark_payload());
    let tinted = theme.to_bg_syntax();
    assert_eq!(tinted.brightness, theme.brightness);
    assert_eq!(tinted.accent, theme.accent);
    assert_eq!(tinted.background, theme.background);
    assert_eq!(tinted.foreground, theme.foreground);
    assert_eq!(tinted.tokens, theme.tokens);
    assert_eq!(tinted.terminal, theme.terminal);
    assert_eq!(tinted.diagnostics, theme.diagnostics);
    assert_eq!(tinted.git, theme.git);
}

#[test]
fn the_background_variant_of_a_variant_adds_the_suffix_again() {
    let twice = Theme::new(dark_payload()).to_bg_syntax().to_bg_syntax();
    assert_eq!(twice.name, "Snowfall dark (background) (background)");
    assert!(twice.is_background_syntax);
}

#[test]
fn secondary_background_of_the_dark_theme() {
    let theme = Theme::new(dark_payload());
    assert_eq!(theme.secondary_bg(), hex("#24272d").mix(hex("#91a2a6"), 25));
    assert_eq!(theme.secondary_bg().to_hex(), "#2b2f35");
}

#[test]
fn border_of_the_dark_theme() {
    let theme = Theme::new(dark_payload());
    assert_eq!(theme.border(), hex("#84c4df").mix(hex("#24272d"), 900));
    assert_eq!(theme.border().to_hex(), "#384d58");
}

#[test]
fn documentation_comments_of_the_dark_theme() {
    let theme = Theme::new(dark_payload());
    assert_eq!(theme.comment_doc(), hex("#474c54").mix(hex("#91a2a6"), 500));
    assert_eq!(theme.comment_doc().to_hex(), "#748085");
}

#[test]
fn a_theme_describes_itself() {
    let theme = Theme::new(dark_payload());
    assert_eq!(theme.describe(), "Theme {\n\tname: Snowfall dark,\n\tbrightness: Dark,\n}");
    let mut light = theme.clone();
    light.brightness = Brightness::Light;
    light.name = String::from("Snowfall light");
    assert_eq!(light.describe(), "Theme {\n\tname: Snowfall light,\n\tbrightness: Light,\n}");
}

#[test]
fn brightness_names() {
    assert_eq!(Brightness::Dark.appearance(), "dark");
    assert_eq!(Brightness::Light.appearance(), "light");
    assert_eq!(Brightness::Dark.name(), "Dark");
    assert_eq!(Brightness::Light.name(), "Light");
}
