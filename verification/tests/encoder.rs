use theme_builder::builder::Builder;
use theme_builder::color::Color;
use theme_builder::document::Document;
use theme_builder::theme::{
    Brightness, Theme, ThemeCreatePayload, ThemeDiagnostic, ThemeGit, ThemePackage, ThemeTerminal,
    ThemeTokens,
};

const KINDS: [&str; 36] = [
    "attribute",
    "boolean",
    "character",
    "comment",
    "comment.doc",
    "constant",
    "constructor",
    "embedded",
    "emphasis",
    "function",
    "hint",
    "keyword",
    "label",
    "link_text",
    "link_uri",
    "number",
    "predictive",
    "primary",
    "property",
    "punctuation",
    "punctuation.bracket",
    "punctuation.delimiter",
    "punctuation.list_marker",
    "punctuation.special",
    "string",
    "string.escape",
    "string.regex",
    "string.special",
    "string.special.symbol",
    "tag",
    "text.literal",
    "title",
    "type",
    "variable",
    "variable.special",
    "variant",
];

const TINTED: [&str; 6] = ["string", "function", "comment", "comment.doc", "constant", "character"];

fn hex(text: &str) -> Color {
    Color::from_hex(text).unwrap()
}

fn dark_theme() -> Theme {
    Theme::new(ThemeCreatePayload {
        name: String::from("Snowfall dark"),
        brightness: Brightness::Dark,
        accent: hex("#84c4df"),
        background: hex("#24272d"),
        foreground: hex("#91a2a6"),
        git: ThemeGit { added: hex("#BDB969"), modified: hex("#84c4df"), removed: hex("#FA7583") },
        terminal: ThemeTerminal {
            black: hex("#1c1c1c"),
            red: hex("#cc6666"),
            green: hex("#bdb968"),
            yellow: hex("#f0c674"),
            blue: hex("#81a2be"),
            magenta: hex("#b193ba"),
            cyan: hex("#7fb2c8"),
            white: hex("#c8ccd4"),
            bright_black: hex("#636363"),
            bright_red: hex("#a04041"),
            bright_green: hex("#8b9440"),
            bright_yellow: hex("#EBD2A7"),
            bright_blue: hex("#5d7f9a"),
            bright_magenta: hex("#82658c"),
            bright_cyan: hex("#5e8d87"),
            bright_white: hex("#ffffff"),
        },
        tokens: ThemeTokens {
            brackets: hex("#7FB2C7"),
            comment: hex("#474c54"),
            strings: hex("#BDB969"),
            types: hex("#ACBDC3"),
            functions: hex("#7FB2C7"),
            properties: hex("#EBD2A7"),
            keywords: hex("#B08CBA"),
            constants: hex("#EBD2A7"),
            operators: hex("#B08CBA"),
        },
        diagnostics: ThemeDiagnostic {
            error: hex("#FA7583"),
            warning: hex("#EBD2A7"),
            info: hex("#9BCAFF"),
        },
    })
}

fn light_theme() -> Theme {
    let mut theme = dark_theme();
    theme.name = String::from("Snowfall light");
    theme.brightness = Brightness::Light;
    theme.background = hex("#ffffff");
    theme.foreground = hex("#5C6165");
    theme.accent = hex("#88C0D0");
    theme
}

fn field<'a>(doc: &'a Document, key: &str) -> &'a Document {
    match doc.get(key) {
        Some(value) => value,
        None => panic!("no field {key}"),
    }
}

fn text(doc: &Document, key: &str) -> String {
    match field(doc, key) {
        Document::Text(s) => s.clone(),
        other => panic!("field {key} is {other:?}"),
    }
}

fn keys(doc: &Document) -> Vec<String> {
    match doc {
        Document::Object(fields) => fields.iter().map(|f| f.0.clone()).collect(),
        other => panic!("not an object: {other:?}"),
    }
}

#[test]
fn the_document_has_name_appearance_and_style() {
    let doc = dark_theme().encode();
    assert_eq!(keys(&doc), ["name", "appearance", "style"]);
    assert_eq!(text(&doc, "name"), "Snowfall dark");
    assert_eq!(text(&doc, "appearance"), "dark");
    assert!(matches!(field(&doc, "style"), Document::Object(_)));
}

#[test]
fn a_light_theme_has_a_light_appearance() {
    let doc = light_theme().encode();
    assert_eq!(text(&doc, "name"), "Snowfall light");
    assert_eq!(text(&doc, "appearance"), "light");
}

#[test]
fn the_style_has_every_key_once() {
    let doc = dark_theme().encode();
    let mut names = keys(field(&doc, "style"));
    assert_eq!(names.len(), 95);
    assert_eq!(names.first().map(String::as_str), Some("background"));
    assert_eq!(names.last().map(String::as_str), Some("syntax"));
    names.sort();
    names.dedup();
    assert_eq!(names.len(), 95);
}

#[test]
fn surfaces_follow_the_background() {
    let doc = dark_theme().encode();
    let style = field(&doc, "style");
    assert_eq!(text(style, "background"), "#24272d");
    assert_eq!(text(style, "editor.background"), "#24272d");
    assert_eq!(text(style, "editor.gutter.background"), "#24272d");
    assert_eq!(text(style, "editor.foreground"), "#91a2a6");
    assert_eq!(text(style, "toolbar.background"), "#24272d");
    assert_eq!(text(style, "tab.active_background"), "#24272d");
    assert_eq!(text(style, "terminal.background"), "#24272d");
    assert_eq!(text(style, "terminal.foreground"), "#91a2a6");
}

#[test]
fn derived_colors_of_the_dark_theme() {
    let theme = dark_theme();
    let doc = theme.encode();
    let style = field(&doc, "style");
    let secondary = hex("#24272d").mix(hex("#91a2a6"), 25);
    assert_eq!(secondary.to_hex(), "#2b2f35");
    for key in [
        "panel.background",
        "surface.background",
        "border.disabled",
        "status_bar.background",
        "title_bar.background",
        "title_bar.inactive_background",
        "tab_bar.background",
        "tab.inactive_background",
    ] {
        assert_eq!(text(style, key), "#2b2f35", "{key}");
    }
    assert_eq!(text(style, "elevated_surface.background"), "#363c41");
    assert_eq!(text(style, "editor.subheader.background"), "#22252a");
    assert_eq!(text(style, "predictive"), "#758286");
    assert_eq!(text(style, "border"), "#384d58");
    assert_eq!(text(style, "border.variant"), "#384d58");
    assert_eq!(text(style, "border.focused"), "#6798ad");
    assert_eq!(text(style, "border.selected"), "#84c4df");
    assert_eq!(text(style, "border.transparent"), "#24272d00");
}

#[test]
fn text_levels_are_opacities_of_the_foreground() {
    let doc = dark_theme().encode();
    let style = field(&doc, "style");
    assert_eq!(text(style, "text"), "#91a2a6");
    assert_eq!(text(style, "text.accent"), "#84c4df");
    assert_eq!(text(style, "text.muted"), "#91a2a6cc");
    assert_eq!(text(style, "text.disabled"), "#91a2a699");
    assert_eq!(text(style, "editor.line_number"), "#91a2a666");
    assert_eq!(text(style, "editor.active_line_number"), "#91a2a6");
    assert_eq!(text(style, "hint"), "#91a2a680");
    assert_eq!(text(style, "drop_target.background"), "#84c4df26");
    assert_eq!(text(style, "editor.document_highlight.read_background"), "#84c4df33");
}

#[test]
fn version_control_states_have_faint_backgrounds() {
    let doc = dark_theme().encode();
    let style = field(&doc, "style");
    for (key, color) in [
        ("created", "#bdb969"),
        ("modified", "#84c4df"),
        ("deleted", "#fa7583"),
        ("conflict", "#fa7583"),
    ] {
        assert_eq!(text(style, key), color);
        assert_eq!(text(style, &format!("{key}.background")), format!("{color}33"));
    }
    for (key, color) in [("added", "#bdb969"), ("modified", "#84c4df"), ("deleted", "#fa7583")] {
        assert_eq!(text(style, &format!("version_control.{key}")), color);
        assert_eq!(text(style, &format!("version_control.{key}_background")), format!("{color}33"));
    }
    assert_eq!(text(style, "version_control.ignored"), "#91a2a680");
    assert_eq!(text(style, "version_control.ignored_background"), "#91a2a633");
}

#[test]
fn diagnostics_have_backgrounds_and_the_warning_a_border() {
    let doc = dark_theme().encode();
    let style = field(&doc, "style");
    assert_eq!(text(style, "error"), "#fa7583");
    assert_eq!(text(style, "error.background"), "#fa75831a");
    assert_eq!(text(style, "warning"), "#ebd2a7");
    assert_eq!(text(style, "warning.background"), "#ebd2a71a");
    assert_eq!(text(style, "warning.border"), "#ebd2a74d");
    assert_eq!(text(style, "info"), "#9bcaff");
    assert_eq!(text(style, "info.background"), "#9bcaff1a");
    assert_eq!(text(style, "hint.background"), "#9bcaff1a");
    assert_eq!(text(style, "hint.border"), "#9bcaff33");
    assert_eq!(text(style, "link_text.hover"), "#9bcaff");
    assert_eq!(text(style, "success"), "#bdb969");
    assert_eq!(text(style, "success.background"), "#bdb96933");
    assert_eq!(text(style, "success.border"), "#bdb9694d");
    assert_eq!(text(style, "accent"), "#84c4df");
    assert_eq!(text(style, "accent.background"), "#84c4df33");
    assert_eq!(text(style, "selected"), "#84c4df");
    assert_eq!(text(style, "panel.focused_border"), "#84c4df");
}

#[test]
fn elements_follow_the_accent() {
    let doc = dark_theme().encode();
    let style = field(&doc, "style");
    assert_eq!(text(style, "element.background"), "#84c4df33");
    assert_eq!(text(style, "element.hover"), "#84c4df1a");
    assert_eq!(text(style, "element.active"), "#84c4df1a");
    assert_eq!(text(style, "element.selected"), "#84c4df1a");
}

#[test]
fn placeholders_do_not_depend_on_the_theme() {
    for theme in [dark_theme(), light_theme()] {
        let doc = theme.encode();
        let style = field(&doc, "style");
        assert_eq!(text(style, "info.border"), "#ff00000");
        assert_eq!(text(style, "element.disabled"), "#ff0000");
        for key in ["icon", "icon.muted", "icon.disabled", "icon.placeholder", "icon.accent"] {
            assert_eq!(text(style, key), "#0000ff");
        }
        let syntax = field(style, "syntax");
        assert_eq!(text(field(syntax, "character"), "color"), "#749689");
        for kind in ["embedded", "emphasis", "hint", "label", "predictive", "primary", "variant"] {
            assert_eq!(text(field(syntax, kind), "color"), "#0000ff");
        }
    }
}

#[test]
fn there_is_one_player() {
    let doc = dark_theme().encode();
    let style = field(&doc, "style");
    match field(style, "players") {
        Document::List(players) => {
            assert_eq!(players.len(), 1);
            assert_eq!(keys(&players[0]), ["background", "cursor", "selection"]);
            assert_eq!(text(&players[0], "background"), "#84c4df");
            assert_eq!(text(&players[0], "cursor"), "#84c4df");
            assert_eq!(text(&players[0], "selection"), "#84c4df33");
        }
        other => panic!("players is {other:?}"),
    }
}

#[test]
fn the_terminal_palette_is_copied() {
    let doc = dark_theme().encode();
    let style = field(&doc, "style");
    for (key, color) in [
        ("black", "#1c1c1c"),
        ("red", "#cc6666"),
        ("green", "#bdb968"),
        ("yellow", "#f0c674"),
        ("blue", "#81a2be"),
        ("magenta", "#b193ba"),
        ("cyan", "#7fb2c8"),
        ("white", "#c8ccd4"),
        ("bright_black", "#636363"),
        ("bright_red", "#a04041"),
        ("bright_green", "#8b9440"),
        ("bright_yellow", "#ebd2a7"),
        ("bright_blue", "#5d7f9a"),
        ("bright_magenta", "#82658c"),
        ("bright_cyan", "#5e8d87"),
        ("bright_white", "#ffffff"),
    ] {
        assert_eq!(text(style, &format!("terminal.ansi.{key}")), color);
    }
}

#[test]
fn the_syntax_map_has_every_kind() {
    let syntax = dark_theme().syntax(false);
    assert_eq!(keys(&syntax), KINDS);
}

#[test]
fn syntax_kinds_follow_their_roles() {
    let syntax = dark_theme().syntax(false);
    for (kind, color) in [
        ("attribute", "#ebd2a7"),
        ("boolean", "#ebd2a7"),
        ("comment", "#474c54"),
        ("comment.doc", "#748085"),
        ("constant", "#91a2a6"),
        ("constructor", "#91a2a6"),
        ("function", "#7fb2c7"),
        ("keyword", "#b08cba"),
        ("link_text", "#7fb2c7"),
        ("link_uri", "#bdb969"),
        ("number", "#ebd2a7"),
        ("property", "#91a2a6"),
        ("punctuation", "#91a2a6"),
        ("punctuation.bracket", "#7fb2c7"),
        ("punctuation.delimiter", "#91a2a6"),
        ("punctuation.list_marker", "#91a2a6"),
        ("punctuation.special", "#91a2a6"),
        ("string", "#bdb969"),
        ("string.escape", "#ebd2a7"),
        ("string.regex", "#ebd2a7"),
        ("string.special", "#bdb969"),
        ("string.special.symbol", "#ebd2a7"),
        ("tag", "#7fb2c7"),
        ("text.literal", "#91a2a6"),
        ("title", "#b08cba"),
        ("type", "#acbdc3"),
        ("variable", "#ebd2a7"),
        ("variable.special", "#ebd2a7"),
    ] {
        assert_eq!(text(field(&syntax, kind), "color"), color, "{kind}");
    }
}

#[test]
fn only_types_have_a_font_weight() {
    for flag in [false, true] {
        let syntax = dark_theme().syntax(flag);
        for kind in KINDS {
            let entry = field(&syntax, kind);
            assert_eq!(field(entry, "font_style"), &Document::Null);
            if kind == "type" {
                assert_eq!(field(entry, "font_weight"), &Document::Number(600));
            } else {
                assert_eq!(field(entry, "font_weight"), &Document::Null);
            }
        }
    }
}

#[test]
fn without_the_flag_no_kind_has_a_background() {
    let doc = dark_theme().encode();
    let syntax = field(field(&doc, "style"), "syntax");
    assert!(field(syntax, "string").get("background_color").is_none());
    for kind in KINDS {
        let entry = field(syntax, kind);
        assert!(entry.get("background_color").is_none(), "{kind}");
        assert_eq!(keys(entry), ["color", "font_style", "font_weight"]);
    }
}

#[test]
fn with_the_flag_the_tinted_kinds_have_a_background() {
    let theme = dark_theme().to_bg_syntax();
    let doc = theme.encode();
    let syntax = field(field(&doc, "style"), "syntax");
    assert_eq!(
        text(field(syntax, "string"), "background_color"),
        theme.tokens.strings.with_opacity(200).to_hex()
    );
    assert_eq!(text(field(syntax, "string"), "background_color"), "#bdb96933");
    assert_eq!(text(field(syntax, "function"), "background_color"), "#7fb2c733");
    assert_eq!(text(field(syntax, "comment"), "background_color"), "#474c5433");
    assert_eq!(text(field(syntax, "comment.doc"), "background_color"), "#74808533");
    assert_eq!(text(field(syntax, "constant"), "background_color"), "#91a2a633");
    assert_eq!(text(field(syntax, "character"), "background_color"), "#74968933");
    for kind in KINDS {
        let entry = field(syntax, kind);
        if TINTED.contains(&kind) {
            let color = hex(&text(entry, "color"));
            assert_eq!(text(entry, "background_color"), color.with_opacity(200).to_hex());
            assert_eq!(keys(entry), ["background_color", "color", "font_style", "font_weight"]);
        } else {
            assert!(entry.get("background_color").is_none(), "{kind}");
            assert_eq!(keys(entry), ["color", "font_style", "font_weight"]);
        }
    }
}

#[test]
fn the_flag_of_the_theme_decides_in_encode() {
    let plain = dark_theme();
    let tinted = plain.to_bg_syntax();
    assert_eq!(field(field(&plain.encode(), "style"), "syntax"), &plain.syntax(false));
    assert_eq!(field(field(&tinted.encode(), "style"), "syntax"), &tinted.syntax(true));
    assert_ne!(plain.syntax(false), plain.syntax(true));
}

#[test]
fn the_background_replaces_the_alpha_of_the_color() {
    let mut theme = dark_theme().to_bg_syntax();
    theme.tokens.strings = hex("#bdb96980");
    let syntax = theme.syntax(true);
    assert_eq!(text(field(&syntax, "string"), "color"), "#bdb96980");
    assert_eq!(text(field(&syntax, "string"), "background_color"), "#bdb96933");
}

#[test]
fn encoding_twice_gives_the_same_document() {
    let theme = dark_theme();
    assert_eq!(theme.encode(), theme.encode());
    assert_eq!(theme.clone().encode(), theme.encode());
    let tinted = theme.to_bg_syntax();
    assert_eq!(tinted.encode(), tinted.encode());
    assert_ne!(tinted.encode(), theme.encode());
}

#[test]
fn a_lookup_finds_the_first_field_of_a_name() {
    let doc = Document::object(vec![
        (String::from("a"), Document::Number(1)),
        (String::from("b"), Document::Bool(true)),
        (String::from("a"), Document::Number(2)),
    ]);
    assert_eq!(doc.get("a"), Some(&Document::Number(1)));
    assert_eq!(doc.get("b"), Some(&Document::Bool(true)));
    assert_eq!(doc.get("c"), None);
    assert_eq!(Document::text("a").get("a"), None);
    assert_eq!(Document::list(vec![Document::Null]).get("a"), None);
}

#[test]
fn the_package_wraps_its_themes() {
    let dark = dark_theme();
    let light = light_theme();
    let package = ThemePackage {
        name: String::from("Snowfall"),
        author: String::from("freethinkel"),
        themes: vec![dark.clone(), dark.to_bg_syntax(), light.clone(), light.to_bg_syntax()],
    };
    let doc = Builder::new(&package).build();
    assert_eq!(keys(&doc), ["$schema", "name", "author", "themes"]);
    assert_eq!(text(&doc, "$schema"), "https://zed.dev/schema/themes/v0.2.0.json");
    assert_eq!(text(&doc, "name"), "Snowfall");
    assert_eq!(text(&doc, "author"), "freethinkel");
    match field(&doc, "themes") {
        Document::List(themes) => {
            assert_eq!(themes.len(), 4);
            assert_eq!(themes[0], dark.encode());
            assert_eq!(themes[1], dark.to_bg_syntax().encode());
            assert_eq!(themes[2], light.encode());
            assert_eq!(themes[3], light.to_bg_syntax().encode());
            assert_eq!(text(&themes[1], "name"), "Snowfall dark (background)");
            assert_eq!(text(&themes[3], "appearance"), "light");
        }
        other => panic!("themes is {other:?}"),
    }
}

#[test]
fn a_package_without_themes_has_an_empty_list() {
    let package =
        ThemePackage { name: String::from("Empty"), author: String::from("nobody"), themes: vec![] };
    let doc = Builder::new(&package).build();
    assert_eq!(field(&doc, "themes"), &Document::List(vec![]));
}
