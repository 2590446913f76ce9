//! The encoder: from a theme to the document of its user-interface and
//! syntax fields.
//!
//! Every field is a row of a table: a key, and the colour expression that
//! gives its value. The expressions are evaluated on the theme and on the
//! colours derived from it (the secondary background, the border colour and
//! the colour of documentation comments). A few fields hold fixed
//! placeholder texts that do not depend on the theme.

use vstd::prelude::*;
use vstd::string::*;
use crate::color::Color;
use crate::document::{
    append_fields, lemma_lookup_found, lemma_lookup_member, push_field, spec_fields, Document, Json,
};
use crate::theme::{Theme, ThemeView};

verus! {

/// The field `key` with the hex text of `color` as its value.
pub open spec fn spec_color_field(key: Seq<char>, color: Color) -> (Seq<char>, Json) {
    (key, Json::Text(color.spec_to_hex()))
}

/// The field `key` with `text` as its value.
pub open spec fn spec_text_field(key: Seq<char>, text: Seq<char>) -> (Seq<char>, Json) {
    (key, Json::Text(text))
}

/// The placeholder colour of the syntax kinds that have no role: pure blue.
pub open spec fn spec_placeholder() -> Color {
    Color { red: 0, green: 0, blue: 255, alpha: 255 }
}

/// The fixed colour of character literals.
pub open spec fn spec_character() -> Color {
    Color { red: 0x74, green: 0x96, blue: 0x89, alpha: 255 }
}

/// The alpha of the background behind a tinted syntax kind, in thousandths.
pub const TINT: u16 = 200;

/// The weight of the font for types.
pub const TYPE_WEIGHT: u64 = 600;

/// The surfaces of the editor.
#[verifier::opaque]
pub open spec fn spec_surface_fields(v: ThemeView) -> Seq<(Seq<char>, Json)> {
    seq![
        spec_color_field("background"@, v.background),
        spec_color_field("editor.background"@, v.background),
        spec_color_field("editor.gutter.background"@, v.background),
        spec_color_field("panel.background"@, v.secondary_bg()),
        spec_color_field("editor.foreground"@, v.foreground),
        spec_color_field("editor.subheader.background"@, v.background.spec_darken(100)),
        spec_color_field("surface.background"@, v.secondary_bg()),
        spec_color_field("elevated_surface.background"@, v.secondary_bg().spec_mix(v.foreground, 50)),
    ]
}

/// Text, links and line numbers.
#[verifier::opaque]
pub open spec fn spec_text_fields(v: ThemeView) -> Seq<(Seq<char>, Json)> {
    seq![
        spec_color_field("link_text.hover"@, v.diagnostics.info),
        spec_color_field("editor.document_highlight.read_background"@, v.accent.spec_with_opacity(200)),
        spec_color_field("drop_target.background"@, v.accent.spec_with_opacity(150)),
        spec_color_field("panel.focused_border"@, v.accent),
        spec_color_field("editor.line_number"@, v.foreground.spec_with_opacity(400)),
        spec_color_field("editor.active_line_number"@, v.foreground),
        spec_color_field("text.accent"@, v.accent),
        spec_color_field("text.muted"@, v.foreground.spec_with_opacity(800)),
        spec_color_field("text"@, v.foreground),
        spec_color_field("text.disabled"@, v.foreground.spec_with_opacity(600)),
    ]
}

/// The states of a file under version control, each with a faint background.
#[verifier::opaque]
pub open spec fn spec_git_fields(v: ThemeView) -> Seq<(Seq<char>, Json)> {
    seq![
        spec_color_field("created"@, v.git.added),
        spec_color_field("created.background"@, v.git.added.spec_with_opacity(200)),
        spec_color_field("modified"@, v.git.modified),
        spec_color_field("modified.background"@, v.git.modified.spec_with_opacity(200)),
        spec_color_field("deleted"@, v.git.removed),
        spec_color_field("deleted.background"@, v.git.removed.spec_with_opacity(200)),
        spec_color_field("conflict"@, v.git.removed),
        spec_color_field("conflict.background"@, v.git.removed.spec_with_opacity(200)),
        spec_color_field("version_control.ignored"@, v.foreground.spec_with_opacity(500)),
        spec_color_field("version_control.ignored_background"@, v.foreground.spec_with_opacity(200)),
        spec_color_field("version_control.added"@, v.git.added),
        spec_color_field("version_control.added_background"@, v.git.added.spec_with_opacity(200)),
        spec_color_field("version_control.modified"@, v.git.modified),
        spec_color_field("version_control.modified_background"@, v.git.modified.spec_with_opacity(200)),
        spec_color_field("version_control.deleted"@, v.git.removed),
        spec_color_field("version_control.deleted_background"@, v.git.removed.spec_with_opacity(200)),
    ]
}

/// Hints and diagnostics.
#[verifier::opaque]
pub open spec fn spec_diagnostic_fields(v: ThemeView) -> Seq<(Seq<char>, Json)> {
    seq![
        spec_color_field("hint"@, v.foreground.spec_with_opacity(500)),
        spec_color_field("hint.background"@, v.diagnostics.info.spec_with_opacity(100)),
        spec_color_field("hint.border"@, v.diagnostics.info.spec_with_opacity(200)),
        spec_color_field("predictive"@, v.foreground.spec_mix(v.background, 400)),
        spec_color_field("selected"@, v.accent),
        spec_color_field("info"@, v.diagnostics.info),
        spec_color_field("info.background"@, v.diagnostics.info.spec_with_opacity(100)),
        spec_text_field("info.border"@, "#ff00000"@),
        spec_color_field("error"@, v.diagnostics.error),
        spec_color_field("accent"@, v.accent),
        spec_color_field("accent.background"@, v.accent.spec_with_opacity(200)),
        spec_color_field("error.background"@, v.diagnostics.error.spec_with_opacity(100)),
        spec_color_field("warning"@, v.diagnostics.warning),
        spec_color_field("warning.background"@, v.diagnostics.warning.spec_with_opacity(100)),
        spec_color_field("warning.border"@, v.diagnostics.warning.spec_with_opacity(300)),
        spec_color_field("success"@, v.git.added),
        spec_color_field("success.background"@, v.git.added.spec_with_opacity(200)),
        spec_color_field("success.border"@, v.git.added.spec_with_opacity(300)),
    ]
}

/// Borders, elements and icons.
#[verifier::opaque]
pub open spec fn spec_border_fields(v: ThemeView) -> Seq<(Seq<char>, Json)> {
    seq![
        spec_color_field("border"@, v.border()),
        spec_color_field("border.variant"@, v.border()),
        spec_color_field("border.focused"@, v.border().spec_mix(v.accent, 500)),
        spec_color_field("border.selected"@, v.accent),
        spec_color_field("border.transparent"@, v.background.spec_with_opacity(0)),
        spec_color_field("border.disabled"@, v.secondary_bg()),
        spec_color_field("element.background"@, v.accent.spec_with_opacity(200)),
        spec_color_field("element.hover"@, v.accent.spec_with_opacity(100)),
        spec_color_field("element.active"@, v.accent.spec_with_opacity(100)),
        spec_color_field("element.selected"@, v.accent.spec_with_opacity(100)),
        spec_text_field("element.disabled"@, "#ff0000"@),
        spec_text_field("icon"@, "#0000ff"@),
        spec_text_field("icon.muted"@, "#0000ff"@),
        spec_text_field("icon.disabled"@, "#0000ff"@),
        spec_text_field("icon.placeholder"@, "#0000ff"@),
        spec_text_field("icon.accent"@, "#0000ff"@),
    ]
}

/// Bars and tabs.
#[verifier::opaque]
pub open spec fn spec_bar_fields(v: ThemeView) -> Seq<(Seq<char>, Json)> {
    seq![
        spec_color_field("status_bar.background"@, v.secondary_bg()),
        spec_color_field("title_bar.background"@, v.secondary_bg()),
        spec_color_field("title_bar.inactive_background"@, v.secondary_bg()),
        spec_color_field("tab_bar.background"@, v.secondary_bg()),
        spec_color_field("toolbar.background"@, v.background),
        spec_color_field("tab.active_background"@, v.background),
        spec_color_field("tab.inactive_background"@, v.secondary_bg()),
    ]
}

/// The terminal and its sixteen ANSI colours.
#[verifier::opaque]
pub open spec fn spec_terminal_fields(v: ThemeView) -> Seq<(Seq<char>, Json)> {
    seq![
        spec_color_field("terminal.background"@, v.background),
        spec_color_field("terminal.foreground"@, v.foreground),
        spec_color_field("terminal.ansi.black"@, v.terminal.black),
        spec_color_field("terminal.ansi.bright_black"@, v.terminal.bright_black),
        spec_color_field("terminal.ansi.red"@, v.terminal.red),
        spec_color_field("terminal.ansi.bright_red"@, v.terminal.bright_red),
        spec_color_field("terminal.ansi.green"@, v.terminal.green),
        spec_color_field("terminal.ansi.bright_green"@, v.terminal.bright_green),
        spec_color_field("terminal.ansi.yellow"@, v.terminal.yellow),
        spec_color_field("terminal.ansi.bright_yellow"@, v.terminal.bright_yellow),
        spec_color_field("terminal.ansi.blue"@, v.terminal.blue),
        spec_color_field("terminal.ansi.bright_blue"@, v.terminal.bright_blue),
        spec_color_field("terminal.ansi.magenta"@, v.terminal.magenta),
        spec_color_field("terminal.ansi.bright_magenta"@, v.terminal.bright_magenta),
        spec_color_field("terminal.ansi.cyan"@, v.terminal.cyan),
        spec_color_field("terminal.ansi.bright_cyan"@, v.terminal.bright_cyan),
        spec_color_field("terminal.ansi.white"@, v.terminal.white),
        spec_color_field("terminal.ansi.bright_white"@, v.terminal.bright_white),
    ]
}
/// The syntax table: each kind of token with its colour.
pub open spec fn spec_syntax_rows(v: ThemeView) -> Seq<(Seq<char>, Color)> {
    seq![
        ("attribute"@, v.tokens.properties),
        ("boolean"@, v.tokens.constants),
        ("character"@, spec_character()),
        ("comment"@, v.tokens.comment),
        ("comment.doc"@, v.comment_doc()),
        ("constant"@, v.foreground),
        ("constructor"@, v.foreground),
        ("embedded"@, spec_placeholder()),
        ("emphasis"@, spec_placeholder()),
        ("function"@, v.tokens.functions),
        ("hint"@, spec_placeholder()),
        ("keyword"@, v.tokens.keywords),
        ("label"@, spec_placeholder()),
        ("link_text"@, v.tokens.functions),
        ("link_uri"@, v.tokens.strings),
        ("number"@, v.tokens.constants),
        ("predictive"@, spec_placeholder()),
        ("primary"@, spec_placeholder()),
        ("property"@, v.foreground),
        ("punctuation"@, v.foreground),
        ("punctuation.bracket"@, v.tokens.brackets),
        ("punctuation.delimiter"@, v.foreground),
        ("punctuation.list_marker"@, v.foreground),
        ("punctuation.special"@, v.foreground),
        ("string"@, v.tokens.strings),
        ("string.escape"@, v.tokens.constants),
        ("string.regex"@, v.tokens.constants),
        ("string.special"@, v.tokens.strings),
        ("string.special.symbol"@, v.tokens.constants),
        ("tag"@, v.tokens.functions),
        ("text.literal"@, v.foreground),
        ("title"@, v.tokens.keywords),
        ("type"@, v.tokens.types),
        ("variable"@, v.tokens.constants),
        ("variable.special"@, v.tokens.constants),
        ("variant"@, spec_placeholder()),
    ]
}

/// Whether `kind` is one of the six kinds that get a background when the
/// theme asks for backgrounds behind syntax.
pub open spec fn spec_is_tinted(kind: Seq<char>) -> bool {
    ||| kind == "string"@
    ||| kind == "function"@
    ||| kind == "comment"@
    ||| kind == "comment.doc"@
    ||| kind == "constant"@
    ||| kind == "character"@
}

/// The font weight of a kind: heavy for `type`, none for every other.
pub open spec fn spec_font_weight(kind: Seq<char>) -> Json {
    if kind == "type"@ {
        Json::Number(TYPE_WEIGHT as nat)
    } else {
        Json::Null
    }
}

/// The style entry of one syntax kind. With `background` set, a tinted kind
/// also carries its own colour at the opacity `TINT` as `background_color`.
pub open spec fn spec_syntax_entry(kind: Seq<char>, color: Color, background: bool) -> Json {
    let plain = seq![
        spec_color_field("color"@, color),
        ("font_style"@, Json::Null),
        ("font_weight"@, spec_font_weight(kind)),
    ];
    if background && spec_is_tinted(kind) {
        Json::Object(
            seq![spec_color_field("background_color"@, color.spec_with_opacity(TINT))] + plain,
        )
    } else {
        Json::Object(plain)
    }
}

/// The background of the kind `kind` in the syntax map `syntax`, where the
/// map has the kind and the kind has a background.
pub open spec fn spec_background_of(syntax: Json, kind: Seq<char>) -> Option<Json> {
    match syntax.get(kind) {
        Some(entry) => entry.get("background_color"@),
        None => None,
    }
}

/// The fields of the syntax map for the given rows.
pub open spec fn spec_syntax_fields(rows: Seq<(Seq<char>, Color)>, background: bool) -> Seq<
    (Seq<char>, Json),
> {
    Seq::new(rows.len(), |i: int| (rows[i].0, spec_syntax_entry(rows[i].0, rows[i].1, background)))
}

/// The rows of a syntax table in memory, as a mathematical value.
pub open spec fn spec_rows(rows: Seq<(&'static str, Color)>) -> Seq<(Seq<char>, Color)> {
    Seq::new(rows.len(), |i: int| (rows[i].0@, rows[i].1))
}

impl ThemeView {
    /// The syntax map of this theme, with or without backgrounds.
    pub open spec fn syntax(self, background: bool) -> Json {
        Json::Object(spec_syntax_fields(spec_syntax_rows(self), background))
    }

    /// The one player of this theme: cursor and background in the accent,
    /// and a faint selection.
    pub open spec fn player(self) -> Json {
        Json::Object(
            seq![
                spec_color_field("background"@, self.accent),
                spec_color_field("cursor"@, self.accent),
                spec_color_field("selection"@, self.accent.spec_with_opacity(200)),
            ],
        )
    }

    /// All the fields of the style of this theme, in their order.
    pub open spec fn style_fields(self) -> Seq<(Seq<char>, Json)> {
        let first = spec_surface_fields(self) + spec_text_fields(self) + spec_git_fields(self)
            + spec_diagnostic_fields(self) + spec_border_fields(self) + spec_bar_fields(self);
        let second = first.push(("players"@, Json::List(seq![self.player()])))
            + spec_terminal_fields(self);
        second.push(("syntax"@, self.syntax(self.is_background_syntax)))
    }

    /// The document of this theme: its name, its appearance and its style.
    pub open spec fn encode(self) -> Json {
        Json::Object(
            seq![
                ("name"@, Json::Text(self.name)),
                ("appearance"@, Json::Text(self.brightness.spec_appearance())),
                ("style"@, Json::Object(self.style_fields())),
            ],
        )
    }
}

/// A list of fields with nothing in it yet.
fn new_fields() -> (out: Vec<(String, Document)>)
    ensures
        spec_fields(out@) == Seq::<(Seq<char>, Json)>::empty(),
{
    let out: Vec<(String, Document)> = Vec::new();
    assert(spec_fields(out@) =~= Seq::empty());
    out
}

/// Appends the field `key` with the hex text of `color`.
fn push_color(out: &mut Vec<(String, Document)>, key: &str, color: Color)
    ensures
        spec_fields(final(out)@) == spec_fields(old(out)@).push(spec_color_field(key@, color)),
{
    push_field(out, key, Document::Text(color.to_hex()));
}

/// Appends the field `key` with the text `text`.
fn push_text(out: &mut Vec<(String, Document)>, key: &str, text: &str)
    ensures
        spec_fields(final(out)@) == spec_fields(old(out)@).push(spec_text_field(key@, text@)),
{
    push_field(out, key, Document::text(text));
}

/// The fields for the surfaces of the editor.
fn surface_fields(t: &Theme) -> (out: Vec<(String, Document)>)
    ensures
        spec_fields(out@) == spec_surface_fields(t@),
{
    reveal(spec_surface_fields);
    let mut out = new_fields();
    let secondary = t.secondary_bg();
    push_color(&mut out, "background", t.background);
    push_color(&mut out, "editor.background", t.background);
    push_color(&mut out, "editor.gutter.background", t.background);
    push_color(&mut out, "panel.background", secondary);
    push_color(&mut out, "editor.foreground", t.foreground);
    push_color(&mut out, "editor.subheader.background", t.background.darken(100));
    push_color(&mut out, "surface.background", secondary);
    push_color(&mut out, "elevated_surface.background", secondary.mix(t.foreground, 50));
    out
}

/// The fields for text, links and line numbers.
fn text_fields(t: &Theme) -> (out: Vec<(String, Document)>)
    ensures
        spec_fields(out@) == spec_text_fields(t@),
{
    reveal(spec_text_fields);
    let mut out = new_fields();
    push_color(&mut out, "link_text.hover", t.diagnostics.info);
    push_color(&mut out, "editor.document_highlight.read_background", t.accent.with_opacity(200));
    push_color(&mut out, "drop_target.background", t.accent.with_opacity(150));
    push_color(&mut out, "panel.focused_border", t.accent);
    push_color(&mut out, "editor.line_number", t.foreground.with_opacity(400));
    push_color(&mut out, "editor.active_line_number", t.foreground);
    push_color(&mut out, "text.accent", t.accent);
    push_color(&mut out, "text.muted", t.foreground.with_opacity(800));
    push_color(&mut out, "text", t.foreground);
    push_color(&mut out, "text.disabled", t.foreground.with_opacity(600));
    out
}

/// The fields for the states of a file under version control.
fn git_fields(t: &Theme) -> (out: Vec<(String, Document)>)
    ensures
        spec_fields(out@) == spec_git_fields(t@),
{
    reveal(spec_git_fields);
    let mut out = new_fields();
    push_color(&mut out, "created", t.git.added);
    push_color(&mut out, "created.background", t.git.added.with_opacity(200));
    push_color(&mut out, "modified", t.git.modified);
    push_color(&mut out, "modified.background", t.git.modified.with_opacity(200));
    push_color(&mut out, "deleted", t.git.removed);
    push_color(&mut out, "deleted.background", t.git.removed.with_opacity(200));
    push_color(&mut out, "conflict", t.git.removed);
    push_color(&mut out, "conflict.background", t.git.removed.with_opacity(200));
    push_color(&mut out, "version_control.ignored", t.foreground.with_opacity(500));
    push_color(&mut out, "version_control.ignored_background", t.foreground.with_opacity(200));
    push_color(&mut out, "version_control.added", t.git.added);
    push_color(&mut out, "version_control.added_background", t.git.added.with_opacity(200));
    push_color(&mut out, "version_control.modified", t.git.modified);
    push_color(&mut out, "version_control.modified_background", t.git.modified.with_opacity(200));
    push_color(&mut out, "version_control.deleted", t.git.removed);
    push_color(&mut out, "version_control.deleted_background", t.git.removed.with_opacity(200));
    out
}

/// The fields for hints and diagnostics.
fn diagnostic_fields(t: &Theme) -> (out: Vec<(String, Document)>)
    ensures
        spec_fields(out@) == spec_diagnostic_fields(t@),
{
    reveal(spec_diagnostic_fields);
    let mut out = new_fields();
    push_color(&mut out, "hint", t.foreground.with_opacity(500));
    push_color(&mut out, "hint.background", t.diagnostics.info.with_opacity(100));
    push_color(&mut out, "hint.border", t.diagnostics.info.with_opacity(200));
    push_color(&mut out, "predictive", t.foreground.mix(t.background, 400));
    push_color(&mut out, "selected", t.accent);
    push_color(&mut out, "info", t.diagnostics.info);
    push_color(&mut out, "info.background", t.diagnostics.info.with_opacity(100));
    push_text(&mut out, "info.border", "#ff00000");
    push_color(&mut out, "error", t.diagnostics.error);
    push_color(&mut out, "accent", t.accent);
    push_color(&mut out, "accent.background", t.accent.with_opacity(200));
    push_color(&mut out, "error.background", t.diagnostics.error.with_opacity(100));
    push_color(&mut out, "warning", t.diagnostics.warning);
    push_color(&mut out, "warning.background", t.diagnostics.warning.with_opacity(100));
    push_color(&mut out, "warning.border", t.diagnostics.warning.with_opacity(300));
    push_color(&mut out, "success", t.git.added);
    push_color(&mut out, "success.background", t.git.added.with_opacity(200));
    push_color(&mut out, "success.border", t.git.added.with_opacity(300));
    out
}

/// The fields for borders, elements and icons.
fn border_fields(t: &Theme) -> (out: Vec<(String, Document)>)
    ensures
        spec_fields(out@) == spec_border_fields(t@),
{
    reveal(spec_border_fields);
    let mut out = new_fields();
    let secondary = t.secondary_bg();
    let border = t.border();
    push_color(&mut out, "border", border);
    push_color(&mut out, "border.variant", border);
    push_color(&mut out, "border.focused", border.mix(t.accent, 500));
    push_color(&mut out, "border.selected", t.accent);
    push_color(&mut out, "border.transparent", t.background.with_opacity(0));
    push_color(&mut out, "border.disabled", secondary);
    push_color(&mut out, "element.background", t.accent.with_opacity(200));
    push_color(&mut out, "element.hover", t.accent.with_opacity(100));
    push_color(&mut out, "element.active", t.accent.with_opacity(100));
    push_color(&mut out, "element.selected", t.accent.with_opacity(100));
    push_text(&mut out, "element.disabled", "#ff0000");
    push_text(&mut out, "icon", "#0000ff");
    push_text(&mut out, "icon.muted", "#0000ff");
    push_text(&mut out, "icon.disabled", "#0000ff");
    push_text(&mut out, "icon.placeholder", "#0000ff");
    push_text(&mut out, "icon.accent", "#0000ff");
    out
}

/// The fields for bars and tabs.
fn bar_fields(t: &Theme) -> (out: Vec<(String, Document)>)
    ensures
        spec_fields(out@) == spec_bar_fields(t@),
{
    reveal(spec_bar_fields);
    let mut out = new_fields();
    let secondary = t.secondary_bg();
    push_color(&mut out, "status_bar.background", secondary);
    push_color(&mut out, "title_bar.background", secondary);
    push_color(&mut out, "title_bar.inactive_background", secondary);
    push_color(&mut out, "tab_bar.background", secondary);
    push_color(&mut out, "toolbar.background", t.background);
    push_color(&mut out, "tab.active_background", t.background);
    push_color(&mut out, "tab.inactive_background", secondary);
    out
}

/// The fields for the terminal.
fn terminal_fields(t: &Theme) -> (out: Vec<(String, Document)>)
    ensures
        spec_fields(out@) == spec_terminal_fields(t@),
{
    reveal(spec_terminal_fields);
    let mut out = new_fields();
    push_color(&mut out, "terminal.background", t.background);
    push_color(&mut out, "terminal.foreground", t.foreground);
    push_color(&mut out, "terminal.ansi.black", t.terminal.black);
    push_color(&mut out, "terminal.ansi.bright_black", t.terminal.bright_black);
    push_color(&mut out, "terminal.ansi.red", t.terminal.red);
    push_color(&mut out, "terminal.ansi.bright_red", t.terminal.bright_red);
    push_color(&mut out, "terminal.ansi.green", t.terminal.green);
    push_color(&mut out, "terminal.ansi.bright_green", t.terminal.bright_green);
    push_color(&mut out, "terminal.ansi.yellow", t.terminal.yellow);
    push_color(&mut out, "terminal.ansi.bright_yellow", t.terminal.bright_yellow);
    push_color(&mut out, "terminal.ansi.blue", t.terminal.blue);
    push_color(&mut out, "terminal.ansi.bright_blue", t.terminal.bright_blue);
    push_color(&mut out, "terminal.ansi.magenta", t.terminal.magenta);
    push_color(&mut out, "terminal.ansi.bright_magenta", t.terminal.bright_magenta);
    push_color(&mut out, "terminal.ansi.cyan", t.terminal.cyan);
    push_color(&mut out, "terminal.ansi.bright_cyan", t.terminal.bright_cyan);
    push_color(&mut out, "terminal.ansi.white", t.terminal.white);
    push_color(&mut out, "terminal.ansi.bright_white", t.terminal.bright_white);
    out
}
/// Appends the row of `kind` to the syntax table.
fn push_row(rows: &mut Vec<(&'static str, Color)>, kind: &'static str, color: Color)
    ensures
        spec_rows(final(rows)@) == spec_rows(old(rows)@).push((kind@, color)),
{
    rows.push((kind, color));
    assert(spec_rows(rows@) =~= spec_rows(old(rows)@).push((kind@, color)));
}

/// Whether the two texts are the same.
fn same_text(a: &str, b: &str) -> (r: bool)
    ensures
        r == (a@ == b@),
{
    String::from_str(a) == String::from_str(b)
}

/// Whether `kind` is one of the six tinted kinds.
fn is_tinted(kind: &str) -> (r: bool)
    ensures
        r == spec_is_tinted(kind@),
{
    same_text(kind, "string") || same_text(kind, "function") || same_text(kind, "comment")
        || same_text(kind, "comment.doc") || same_text(kind, "constant") || same_text(
        kind,
        "character",
    )
}

/// The syntax table of a theme.
fn syntax_rows(t: &Theme) -> (rows: Vec<(&'static str, Color)>)
    ensures
        spec_rows(rows@) == spec_syntax_rows(t@),
{
    let blue = Color { red: 0, green: 0, blue: 255, alpha: 255 };
    let character = Color { red: 0x74, green: 0x96, blue: 0x89, alpha: 255 };
    let doc = t.comment_doc();
    let mut rows: Vec<(&'static str, Color)> = Vec::new();
    assert(spec_rows(rows@) =~= Seq::empty());
    push_row(&mut rows, "attribute", t.tokens.properties);
    push_row(&mut rows, "boolean", t.tokens.constants);
    push_row(&mut rows, "character", character);
    push_row(&mut rows, "comment", t.tokens.comment);
    push_row(&mut rows, "comment.doc", doc);
    push_row(&mut rows, "constant", t.foreground);
    push_row(&mut rows, "constructor", t.foreground);
    push_row(&mut rows, "embedded", blue);
    push_row(&mut rows, "emphasis", blue);
    push_row(&mut rows, "function", t.tokens.functions);
    push_row(&mut rows, "hint", blue);
    push_row(&mut rows, "keyword", t.tokens.keywords);
    push_row(&mut rows, "label", blue);
    push_row(&mut rows, "link_text", t.tokens.functions);
    push_row(&mut rows, "link_uri", t.tokens.strings);
    push_row(&mut rows, "number", t.tokens.constants);
    push_row(&mut rows, "predictive", blue);
    push_row(&mut rows, "primary", blue);
    push_row(&mut rows, "property", t.foreground);
    push_row(&mut rows, "punctuation", t.foreground);
    push_row(&mut rows, "punctuation.bracket", t.tokens.brackets);
    push_row(&mut rows, "punctuation.delimiter", t.foreground);
    push_row(&mut rows, "punctuation.list_marker", t.foreground);
    push_row(&mut rows, "punctuation.special", t.foreground);
    push_row(&mut rows, "string", t.tokens.strings);
    push_row(&mut rows, "string.escape", t.tokens.constants);
    push_row(&mut rows, "string.regex", t.tokens.constants);
    push_row(&mut rows, "string.special", t.tokens.strings);
    push_row(&mut rows, "string.special.symbol", t.tokens.constants);
    push_row(&mut rows, "tag", t.tokens.functions);
    push_row(&mut rows, "text.literal", t.foreground);
    push_row(&mut rows, "title", t.tokens.keywords);
    push_row(&mut rows, "type", t.tokens.types);
    push_row(&mut rows, "variable", t.tokens.constants);
    push_row(&mut rows, "variable.special", t.tokens.constants);
    push_row(&mut rows, "variant", blue);
    rows
}

/// The style entry of one syntax kind.
fn syntax_entry(kind: &str, color: Color, background: bool) -> (entry: Document)
    ensures
        entry@ == spec_syntax_entry(kind@, color, background),
{
    let mut fields = new_fields();
    if background && is_tinted(kind) {
        push_color(&mut fields, "background_color", color.with_opacity(TINT));
    }
    push_color(&mut fields, "color", color);
    push_field(&mut fields, "font_style", Document::Null);
    let weight = if same_text(kind, "type") {
        Document::Number(TYPE_WEIGHT)
    } else {
        Document::Null
    };
    push_field(&mut fields, "font_weight", weight);
    let entry = Document::object(fields);
    assert(entry@->Object_0 =~= spec_syntax_entry(kind@, color, background)->Object_0);
    entry
}

impl Theme {
    /// The syntax map: one entry for each kind of token, with its colour,
    /// font style and font weight. With `background_color` set, the tinted
    /// kinds also carry a background.
    pub fn syntax(&self, background_color: bool) -> (doc: Document)
        ensures
            doc@ == self@.syntax(background_color),
    {
        let rows = syntax_rows(self);
        let ghost wanted = spec_syntax_fields(spec_syntax_rows(self@), background_color);
        let mut fields: Vec<(String, Document)> = Vec::new();
        assert(spec_fields(fields@) =~= wanted.subrange(0, 0));
        let mut i: usize = 0;
        while i < rows.len()
            invariant
                i <= rows.len(),
                spec_rows(rows@) == spec_syntax_rows(self@),
                wanted == spec_syntax_fields(spec_syntax_rows(self@), background_color),
                spec_fields(fields@) == wanted.subrange(0, i as int),
            decreases rows.len() - i,
        {
            let kind = rows[i].0;
            let color = rows[i].1;
            assert(spec_rows(rows@)[i as int] == (kind@, color));
            let entry = syntax_entry(kind, color, background_color);
            push_field(&mut fields, kind, entry);
            assert(spec_fields(fields@) =~= wanted.subrange(0, i + 1));
            i += 1;
        }
        assert(wanted.subrange(0, i as int) =~= wanted);
        Document::object(fields)
    }

    /// The document of this theme: its name, its appearance (`dark` or
    /// `light`) and its style, which holds every user-interface field and
    /// the syntax map.
    pub fn encode(&self) -> (doc: Document)
        ensures
            doc@ == self@.encode(),
    {
        let mut top = new_fields();
        push_field(&mut top, "name", Document::Text(self.name.clone()));
        push_field(&mut top, "appearance", Document::text(self.brightness.appearance()));
        push_field(&mut top, "style", style(self));
        let doc = Document::object(top);
        assert(doc@->Object_0 =~= self@.encode()->Object_0);
        doc
    }
}

/// The list of players of a theme: it has one.
fn players(t: &Theme) -> (list: Document)
    ensures
        list@ == Json::List(seq![t@.player()]),
{
    let mut player = new_fields();
    push_color(&mut player, "background", t.accent);
    push_color(&mut player, "cursor", t.accent);
    push_color(&mut player, "selection", t.accent.with_opacity(200));
    let player = Document::object(player);
    assert(player@->Object_0 =~= t@.player()->Object_0);
    let mut players: Vec<Document> = Vec::new();
    players.push(player);
    let list = Document::list(players);
    assert(list@->List_0 =~= seq![t@.player()]);
    list
}

/// The style of a theme: every user-interface field and the syntax map.
fn style(t: &Theme) -> (style: Document)
    ensures
        style@ == Json::Object(t@.style_fields()),
{
    let mut fields = surface_fields(t);
    append_fields(&mut fields, text_fields(t));
    append_fields(&mut fields, git_fields(t));
    append_fields(&mut fields, diagnostic_fields(t));
    append_fields(&mut fields, border_fields(t));
    append_fields(&mut fields, bar_fields(t));
    push_field(&mut fields, "players", players(t));
    append_fields(&mut fields, terminal_fields(t));
    push_field(&mut fields, "syntax", t.syntax(t.is_background_syntax));
    Document::object(fields)
}

/// The syntax table has thirty-six kinds, no two of them alike, and the six
/// tinted ones stand in it with these colours.
pub proof fn lemma_syntax_table(v: ThemeView)
    ensures
        spec_syntax_rows(v).len() == 36,
        forall|i: int, j: int|
            0 <= i < j < 36 ==> (#[trigger] spec_syntax_rows(v)[i]).0 != (
            #[trigger] spec_syntax_rows(v)[j]).0,
        forall|i: int|
            0 <= i < 36 ==> (spec_is_tinted((#[trigger] spec_syntax_rows(v)[i]).0) <==> (i == 2
                || i == 3 || i == 4 || i == 5 || i == 9 || i == 24)),
        spec_syntax_rows(v)[2] == ("character"@, spec_character()),
        spec_syntax_rows(v)[3] == ("comment"@, v.tokens.comment),
        spec_syntax_rows(v)[4] == ("comment.doc"@, v.comment_doc()),
        spec_syntax_rows(v)[5] == ("constant"@, v.foreground),
        spec_syntax_rows(v)[9] == ("function"@, v.tokens.functions),
        spec_syntax_rows(v)[24] == ("string"@, v.tokens.strings),
        forall|i: int|
            0 <= i < 36 ==> ((#[trigger] spec_syntax_rows(v)[i]).0 == "type"@ <==> i == 32),
        spec_syntax_rows(v)[32] == ("type"@, v.tokens.types),
{
    reveal_strlit("attribute");
    assert("attribute"@.len() == 9 && "attribute"@[0] == 'a' && "attribute"@[2] == 't');
    reveal_strlit("boolean");
    assert("boolean"@.len() == 7 && "boolean"@[0] == 'b' && "boolean"@[2] == 'o');
    reveal_strlit("character");
    assert("character"@.len() == 9 && "character"@[0] == 'c' && "character"@[2] == 'a');
    reveal_strlit("comment");
    assert("comment"@.len() == 7 && "comment"@[0] == 'c' && "comment"@[2] == 'm');
    reveal_strlit("comment.doc");
    assert("comment.doc"@.len() == 11 && "comment.doc"@[0] == 'c' && "comment.doc"@[2] == 'm');
    reveal_strlit("constant");
    assert("constant"@.len() == 8 && "constant"@[0] == 'c' && "constant"@[2] == 'n');
    reveal_strlit("constructor");
    assert("constructor"@.len() == 11 && "constructor"@[0] == 'c' && "constructor"@[2] == 'n');
    reveal_strlit("embedded");
    assert("embedded"@.len() == 8 && "embedded"@[0] == 'e' && "embedded"@[2] == 'b');
    reveal_strlit("emphasis");
    assert("emphasis"@.len() == 8 && "emphasis"@[0] == 'e' && "emphasis"@[2] == 'p');
    reveal_strlit("function");
    assert("function"@.len() == 8 && "function"@[0] == 'f' && "function"@[2] == 'n');
    reveal_strlit("hint");
    assert("hint"@.len() == 4 && "hint"@[0] == 'h' && "hint"@[2] == 'n');
    reveal_strlit("keyword");
    assert("keyword"@.len() == 7 && "keyword"@[0] == 'k' && "keyword"@[2] == 'y');
    reveal_strlit("label");
    assert("label"@.len() == 5 && "label"@[0] == 'l' && "label"@[2] == 'b');
    reveal_strlit("link_text");
    assert("link_text"@.len() == 9 && "link_text"@[0] == 'l' && "link_text"@[2] == 'n');
    reveal_strlit("link_uri");
    assert("link_uri"@.len() == 8 && "link_uri"@[0] == 'l' && "link_uri"@[2] == 'n');
    reveal_strlit("number");
    assert("number"@.len() == 6 && "number"@[0] == 'n' && "number"@[2] == 'm');
    reveal_strlit("predictive");
    assert("predictive"@.len() == 10 && "predictive"@[0] == 'p' && "predictive"@[2] == 'e');
    reveal_strlit("primary");
    assert("primary"@.len() == 7 && "primary"@[0] == 'p' && "primary"@[2] == 'i');
    reveal_strlit("property");
    assert("property"@.len() == 8 && "property"@[0] == 'p' && "property"@[2] == 'o');
    reveal_strlit("punctuation");
    assert("punctuation"@.len() == 11 && "punctuation"@[0] == 'p' && "punctuation"@[2] == 'n');
    reveal_strlit("punctuation.bracket");
    assert("punctuation.bracket"@.len() == 19 && "punctuation.bracket"@[0] == 'p' && "punctuation.bracket"@[2] == 'n' && "punctuation.bracket"@[12] == 'b');
    reveal_strlit("punctuation.delimiter");
    assert("punctuation.delimiter"@.len() == 21 && "punctuation.delimiter"@[0] == 'p' && "punctuation.delimiter"@[2] == 'n' && "punctuation.delimiter"@[12] == 'd');
    reveal_strlit("punctuation.list_marker");
    assert("punctuation.list_marker"@.len() == 23 && "punctuation.list_marker"@[0] == 'p' && "punctuation.list_marker"@[2] == 'n' && "punctuation.list_marker"@[12] == 'l');
    reveal_strlit("punctuation.special");
    assert("punctuation.special"@.len() == 19 && "punctuation.special"@[0] == 'p' && "punctuation.special"@[2] == 'n' && "punctuation.special"@[12] == 's');
    reveal_strlit("string");
    assert("string"@.len() == 6 && "string"@[0] == 's' && "string"@[2] == 'r');
    reveal_strlit("string.escape");
    assert("string.escape"@.len() == 13 && "string.escape"@[0] == 's' && "string.escape"@[2] == 'r' && "string.escape"@[12] == 'e');
    reveal_strlit("string.regex");
    assert("string.regex"@.len() == 12 && "string.regex"@[0] == 's' && "string.regex"@[2] == 'r');
    reveal_strlit("string.special");
    assert("string.special"@.len() == 14 && "string.special"@[0] == 's' && "string.special"@[2] == 'r' && "string.special"@[12] == 'a');
    reveal_strlit("string.special.symbol");
    assert("string.special.symbol"@.len() == 21 && "string.special.symbol"@[0] == 's' && "string.special.symbol"@[2] == 'r' && "string.special.symbol"@[12] == 'a');
    reveal_strlit("tag");
    assert("tag"@.len() == 3 && "tag"@[0] == 't' && "tag"@[2] == 'g');
    reveal_strlit("text.literal");
    assert("text.literal"@.len() == 12 && "text.literal"@[0] == 't' && "text.literal"@[2] == 'x');
    reveal_strlit("title");
    assert("title"@.len() == 5 && "title"@[0] == 't' && "title"@[2] == 't');
    reveal_strlit("type");
    assert("type"@.len() == 4 && "type"@[0] == 't' && "type"@[2] == 'p');
    reveal_strlit("variable");
    assert("variable"@.len() == 8 && "variable"@[0] == 'v' && "variable"@[2] == 'r');
    reveal_strlit("variable.special");
    assert("variable.special"@.len() == 16 && "variable.special"@[0] == 'v' && "variable.special"@[2] == 'r' && "variable.special"@[12] == 'c');
    reveal_strlit("variant");
    assert("variant"@.len() == 7 && "variant"@[0] == 'v' && "variant"@[2] == 'r');
    let rows = spec_syntax_rows(v);
    assert forall|i: int| 0 <= i < 36 implies (spec_is_tinted((#[trigger] rows[i]).0) <==> (i == 2
        || i == 3 || i == 4 || i == 5 || i == 9 || i == 24)) by {
        assert(i == 0 || i == 1 || i == 2 || i == 3 || i == 4 || i == 5 || i == 6 || i == 7 || i == 8 || i == 9 || i == 10 || i == 11 || i == 12 || i == 13 || i == 14 || i == 15 || i == 16 || i == 17 || i == 18 || i == 19 || i == 20 || i == 21 || i == 22 || i == 23 || i == 24 || i == 25 || i == 26 || i == 27 || i == 28 || i == 29 || i == 30 || i == 31 || i == 32 || i == 33 || i == 34 || i == 35);
    }
    assert forall|i: int| 0 <= i < 36 implies ((#[trigger] rows[i]).0 == "type"@ <==> i == 32) by {
        assert(i == 0 || i == 1 || i == 2 || i == 3 || i == 4 || i == 5 || i == 6 || i == 7 || i == 8 || i == 9 || i == 10 || i == 11 || i == 12 || i == 13 || i == 14 || i == 15 || i == 16 || i == 17 || i == 18 || i == 19 || i == 20 || i == 21 || i == 22 || i == 23 || i == 24 || i == 25 || i == 26 || i == 27 || i == 28 || i == 29 || i == 30 || i == 31 || i == 32 || i == 33 || i == 34 || i == 35);
    }
    assert forall|i: int, j: int| 0 <= i < j < 36 implies (#[trigger] rows[i]).0 != (
    #[trigger] rows[j]).0 by {
        assert(i == 0 || i == 1 || i == 2 || i == 3 || i == 4 || i == 5 || i == 6 || i == 7 || i == 8 || i == 9 || i == 10 || i == 11 || i == 12 || i == 13 || i == 14 || i == 15 || i == 16 || i == 17 || i == 18 || i == 19 || i == 20 || i == 21 || i == 22 || i == 23 || i == 24 || i == 25 || i == 26 || i == 27 || i == 28 || i == 29 || i == 30 || i == 31 || i == 32 || i == 33 || i == 34 || i == 35);
        assert(j == 0 || j == 1 || j == 2 || j == 3 || j == 4 || j == 5 || j == 6 || j == 7 || j == 8 || j == 9 || j == 10 || j == 11 || j == 12 || j == 13 || j == 14 || j == 15 || j == 16 || j == 17 || j == 18 || j == 19 || j == 20 || j == 21 || j == 22 || j == 23 || j == 24 || j == 25 || j == 26 || j == 27 || j == 28 || j == 29 || j == 30 || j == 31 || j == 32 || j == 33 || j == 34 || j == 35);
    }
}

/// An entry of the syntax map holds its colour, and a background exactly
/// when backgrounds are wanted and its kind is tinted: then its own colour
/// at the opacity `TINT`.
pub proof fn lemma_syntax_entry(kind: Seq<char>, color: Color, background: bool)
    ensures
        spec_syntax_entry(kind, color, background).get("color"@) == Some(
            Json::Text(color.spec_to_hex()),
        ),
        spec_syntax_entry(kind, color, background).get("font_style"@) == Some(Json::Null),
        spec_syntax_entry(kind, color, background).get("font_weight"@) == Some(
            spec_font_weight(kind),
        ),
        spec_syntax_entry(kind, color, background).get("background_color"@) == if background
            && spec_is_tinted(kind) {
            Some(Json::Text(color.spec_with_opacity(TINT).spec_to_hex()))
        } else {
            None
        },
{
    reveal_strlit("color");
    reveal_strlit("font_style");
    reveal_strlit("font_weight");
    reveal_strlit("background_color");
    assert("color"@.len() == 5 && "font_style"@.len() == 10 && "font_weight"@.len() == 11
        && "background_color"@.len() == 16);
    let entry = spec_syntax_entry(kind, color, background);
    let fields = entry->Object_0;
    if background && spec_is_tinted(kind) {
        lemma_lookup_found(fields, 0);
        lemma_lookup_found(fields, 1);
        lemma_lookup_found(fields, 2);
        lemma_lookup_found(fields, 3);
    } else {
        lemma_lookup_found(fields, 0);
        lemma_lookup_found(fields, 1);
        lemma_lookup_found(fields, 2);
        lemma_lookup_member(fields, "background_color"@);
    }
}

/// Looking a kind of the table up in the syntax map gives the entry of its
/// row.
pub proof fn lemma_syntax_lookup(v: ThemeView, background: bool, i: int)
    requires
        0 <= i < 36,
    ensures
        v.syntax(background).get(spec_syntax_rows(v)[i].0) == Some(
            spec_syntax_entry(spec_syntax_rows(v)[i].0, spec_syntax_rows(v)[i].1, background),
        ),
{
    lemma_syntax_table(v);
    let rows = spec_syntax_rows(v);
    let fields = spec_syntax_fields(rows, background);
    assert forall|j: int| 0 <= j < i implies (#[trigger] fields[j]).0 != fields[i].0 by {
        assert(rows[j].0 != rows[i].0);
    }
    lemma_lookup_found(fields, i);
}

/// The background flag. Without backgrounds behind syntax no kind has a
/// `background_color`. With them, each of the six tinted kinds has its own
/// colour at the opacity `TINT` as its `background_color`, and no other kind
/// has one.
pub proof fn lemma_background_flag(v: ThemeView)
    ensures
        forall|kind: Seq<char>| #[trigger] spec_background_of(v.syntax(false), kind) is None,
        forall|kind: Seq<char>|
            !spec_is_tinted(kind) ==> #[trigger] spec_background_of(v.syntax(true), kind) is None,
        spec_background_of(v.syntax(true), "string"@) == Some(
            Json::Text(v.tokens.strings.spec_with_opacity(TINT).spec_to_hex()),
        ),
        spec_background_of(v.syntax(true), "function"@) == Some(
            Json::Text(v.tokens.functions.spec_with_opacity(TINT).spec_to_hex()),
        ),
        spec_background_of(v.syntax(true), "comment"@) == Some(
            Json::Text(v.tokens.comment.spec_with_opacity(TINT).spec_to_hex()),
        ),
        spec_background_of(v.syntax(true), "comment.doc"@) == Some(
            Json::Text(v.comment_doc().spec_with_opacity(TINT).spec_to_hex()),
        ),
        spec_background_of(v.syntax(true), "constant"@) == Some(
            Json::Text(v.foreground.spec_with_opacity(TINT).spec_to_hex()),
        ),
        spec_background_of(v.syntax(true), "character"@) == Some(
            Json::Text(spec_character().spec_with_opacity(TINT).spec_to_hex()),
        ),
{
    lemma_syntax_table(v);
    let rows = spec_syntax_rows(v);
    assert forall|kind: Seq<char>, background: bool|
        !(background && spec_is_tinted(kind)) implies #[trigger] spec_background_of(
        v.syntax(background),
        kind,
    ) is None by {
        let fields = spec_syntax_fields(rows, background);
        lemma_lookup_member(fields, kind);
        if let Some(entry) = v.syntax(background).get(kind) {
            let i = choose|i: int| 0 <= i < fields.len() && #[trigger] fields[i] == (kind, entry);
            lemma_syntax_entry(kind, rows[i].1, background);
        }
    }
    lemma_tinted_background(v, 2);
    lemma_tinted_background(v, 3);
    lemma_tinted_background(v, 4);
    lemma_tinted_background(v, 5);
    lemma_tinted_background(v, 9);
    lemma_tinted_background(v, 24);
}

/// A tinted kind of the table has its colour at the opacity `TINT` as its
/// background.
proof fn lemma_tinted_background(v: ThemeView, i: int)
    requires
        0 <= i < 36,
        spec_is_tinted(spec_syntax_rows(v)[i].0),
    ensures
        spec_background_of(v.syntax(true), spec_syntax_rows(v)[i].0) == Some(
            Json::Text(spec_syntax_rows(v)[i].1.spec_with_opacity(TINT).spec_to_hex()),
        ),
{
    lemma_syntax_lookup(v, true, i);
    lemma_syntax_entry(spec_syntax_rows(v)[i].0, spec_syntax_rows(v)[i].1, true);
}

/// Themes that are equal as values have the same document: the encoder
/// reads nothing but the theme.
pub proof fn lemma_encode_deterministic(a: Theme, b: Theme)
    requires
        a@ == b@,
    ensures
        a@.encode() == b@.encode(),
        a@.syntax(a@.is_background_syntax) == b@.syntax(b@.is_background_syntax),
{
}

/// The two fixed colours of the syntax table print as `#0000ff` and
/// `#749689`.
pub proof fn lemma_fixed_colors()
    ensures
        spec_placeholder().spec_to_hex() == "#0000ff"@,
        spec_character().spec_to_hex() == "#749689"@,
{
    reveal_strlit("#0000ff");
    reveal_strlit("#749689");
    assert(spec_placeholder().spec_to_hex() =~= "#0000ff"@);
    assert(spec_character().spec_to_hex() =~= "#749689"@);
}

} // verus!
