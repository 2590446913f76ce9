use theme_builder::builder::Builder;
use theme_builder::color::Color;
use theme_builder::document::Document;
use theme_builder::render::{render, to_value};
use theme_builder::theme::{
    Brightness, Theme, ThemeCreatePayload, ThemeDiagnostic, ThemeGit, ThemePackage, ThemeTerminal,
    ThemeTokens,
};

fn gray(level: u8) -> Color {
    Color { red: level, green: level, blue: level, alpha: 255 }
}

fn gray_theme() -> Theme {
    let c = gray(128);
    Theme::new(ThemeCreatePayload {
        name: String::from("Gray"),
        brightness: Brightness::Light,
        accent: gray(200),
        background: gray(255),
        foreground: gray(0),
        tokens: ThemeTokens {
            brackets: c,
            comment: c,
            strings: gray(64),
            types: c,
            functions: c,
            properties: c,
            keywords: c,
            constants: c,
            operators: c,
        },
        terminal: ThemeTerminal {
            black: c,
            red: c,
            green: c,
            yellow: c,
            blue: c,
            magenta: c,
            cyan: c,
            white: c,
            bright_black: c,
            bright_red: c,
            bright_green: c,
            bright_yellow: c,
            bright_blue: c,
            bright_magenta: c,
            bright_cyan: c,
            bright_white: c,
        },
        diagnostics: ThemeDiagnostic { error: c, warning: c, info: c },
        git: ThemeGit { added: c, modified: c, removed: c },
    })
}

fn pair(key: &str, value: Document) -> (String, Document) {
    (String::from(key), value)
}

#[test]
fn plain_values_become_json_values() {
    assert_eq!(to_value(&Document::Null), serde_json::Value::Null);
    assert_eq!(to_value(&Document::Bool(true)), serde_json::Value::Bool(true));
    assert_eq!(to_value(&Document::Bool(false)), serde_json::Value::Bool(false));
    assert_eq!(to_value(&Document::Number(600)), serde_json::Value::from(600u64));
    assert_eq!(to_value(&Document::Number(u64::MAX)), serde_json::Value::from(u64::MAX));
    assert_eq!(to_value(&Document::text("#0000ff")), serde_json::Value::from("#0000ff"));
}

#[test]
fn a_list_keeps_its_order() {
    let list = Document::list(vec![Document::Number(2), Document::Null, Document::Number(1)]);
    let want = serde_json::Value::Array(vec![
        serde_json::Value::from(2u64),
        serde_json::Value::Null,
        serde_json::Value::from(1u64),
    ]);
    assert_eq!(to_value(&list), want);
    assert_eq!(render(&list).unwrap(), "[\n  2,\n  null,\n  1\n]");
}

#[test]
fn an_object_has_each_name_once_with_its_later_value() {
    let doc = Document::object(vec![
        pair("b", Document::Number(1)),
        pair("a", Document::text("x")),
        pair("b", Document::Number(2)),
    ]);
    let mut want = serde_json::Map::new();
    want.insert(String::from("a"), serde_json::Value::from("x"));
    want.insert(String::from("b"), serde_json::Value::from(2u64));
    assert_eq!(to_value(&doc), serde_json::Value::Object(want));
    assert_eq!(render(&doc).unwrap(), "{\n  \"a\": \"x\",\n  \"b\": 2\n}");
}

#[test]
fn empty_documents_render() {
    assert_eq!(render(&Document::object(vec![])).unwrap(), "{}");
    assert_eq!(render(&Document::list(vec![])).unwrap(), "[]");
    assert_eq!(render(&Document::Null).unwrap(), "null");
    assert_eq!(render(&Document::Bool(true)).unwrap(), "true");
    assert_eq!(render(&Document::Number(600)).unwrap(), "600");
    assert_eq!(render(&Document::text("a\"b")).unwrap(), "\"a\\\"b\"");
}

#[test]
fn nested_documents_render_with_indentation() {
    let doc = Document::object(vec![
        pair("type", Document::object(vec![
            pair("color", Document::text("#acbdc3")),
            pair("font_style", Document::Null),
            pair("font_weight", Document::Number(600)),
        ])),
        pair("players", Document::list(vec![Document::object(vec![pair(
            "cursor",
            Document::text("#84c4df"),
        )])])),
    ]);
    let want = "{\n  \"players\": [\n    {\n      \"cursor\": \"#84c4df\"\n    }\n  ],\n  \"type\": {\n    \"color\": \"#acbdc3\",\n    \"font_style\": null,\n    \"font_weight\": 600\n  }\n}";
    assert_eq!(render(&doc).unwrap(), want);
}

#[test]
fn a_syntax_entry_renders_with_its_background() {
    let theme = gray_theme().to_bg_syntax();
    let syntax = theme.syntax(true);
    let text = render(syntax.get("string").unwrap()).unwrap();
    let want = "{\n  \"background_color\": \"#40404033\",\n  \"color\": \"#404040\",\n  \"font_style\": null,\n  \"font_weight\": null\n}";
    assert_eq!(text, want);
    let plain = render(gray_theme().syntax(false).get("string").unwrap()).unwrap();
    assert_eq!(
        plain,
        "{\n  \"color\": \"#404040\",\n  \"font_style\": null,\n  \"font_weight\": null\n}"
    );
}

#[test]
fn a_theme_renders_the_same_text_twice() {
    let theme = gray_theme();
    let first = render(&theme.encode()).unwrap();
    let second = render(&theme.clone().encode()).unwrap();
    assert_eq!(first, second);
    assert!(first.starts_with("{\n  \"appearance\": \"light\",\n  \"name\": \"Gray\",\n  \"style\": {\n    \"accent\": \"#c8c8c8\","));
    assert!(first.ends_with("\"warning.border\": \"#8080804d\"\n  }\n}"));
}

#[test]
fn the_text_of_a_theme_reads_back_as_its_value() {
    let doc = gray_theme().to_bg_syntax().encode();
    let text = render(&doc).unwrap();
    let read: serde_json::Value = serde_json::from_str(&text).unwrap();
    assert_eq!(read, to_value(&doc));
    assert_eq!(read["style"]["syntax"]["type"]["font_weight"], serde_json::Value::from(600u64));
    assert_eq!(read["style"]["info.border"], serde_json::Value::from("#ff00000"));
    assert_eq!(read["style"]["toolbar.background"], serde_json::Value::from("#ffffff"));
    assert_eq!(read["style"].as_object().unwrap().len(), 95);
    assert_eq!(read["style"]["syntax"].as_object().unwrap().len(), 36);
}

#[test]
fn a_package_renders_with_its_schema() {
    let package = ThemePackage {
        name: String::from("Grays"),
        author: String::from("nobody"),
        themes: vec![],
    };
    let builder = Builder::new(&package);
    let want = "{\n  \"$schema\": \"https://zed.dev/schema/themes/v0.2.0.json\",\n  \"author\": \"nobody\",\n  \"name\": \"Grays\",\n  \"themes\": []\n}";
    assert_eq!(builder.render().unwrap(), want);
    assert_eq!(builder.render(), render(&builder.build()));
}

#[test]
fn a_package_renders_its_themes_in_order() {
    let theme = gray_theme();
    let package = ThemePackage {
        name: String::from("Grays"),
        author: String::from("nobody"),
        themes: vec![theme.clone(), theme.to_bg_syntax()],
    };
    let text = Builder::new(&package).render().unwrap();
    let read: serde_json::Value = serde_json::from_str(&text).unwrap();
    assert_eq!(read["themes"].as_array().unwrap().len(), 2);
    assert_eq!(read["themes"][0], to_value(&theme.encode()));
    assert_eq!(read["themes"][1]["name"], serde_json::Value::from("Gray (background)"));
}
