//! The names of the fields of a style: which they are, and that no two of
//! them are alike.

use vstd::prelude::*;
use crate::document::{lemma_lookup_found, spec_lookup};
use crate::encoder::{
    spec_bar_fields, spec_border_fields, spec_diagnostic_fields, spec_git_fields,
    spec_surface_fields, spec_terminal_fields, spec_text_fields,
};
use crate::theme::ThemeView;

verus! {

/// The names of the fields for the surfaces.
pub open spec fn spec_surface_keys() -> Seq<Seq<char>> {
    seq![
        "background"@,
        "editor.background"@,
        "editor.gutter.background"@,
        "panel.background"@,
        "editor.foreground"@,
        "editor.subheader.background"@,
        "surface.background"@,
        "elevated_surface.background"@,
    ]
}

/// The names of the fields for text, links and line numbers.
pub open spec fn spec_text_keys() -> Seq<Seq<char>> {
    seq![
        "link_text.hover"@,
        "editor.document_highlight.read_background"@,
        "drop_target.background"@,
        "panel.focused_border"@,
        "editor.line_number"@,
        "editor.active_line_number"@,
        "text.accent"@,
        "text.muted"@,
        "text"@,
        "text.disabled"@,
    ]
}

/// The names of the fields for the states under version control.
pub open spec fn spec_git_keys() -> Seq<Seq<char>> {
    seq![
        "created"@,
        "created.background"@,
        "modified"@,
        "modified.background"@,
        "deleted"@,
        "deleted.background"@,
        "conflict"@,
        "conflict.background"@,
        "version_control.ignored"@,
        "version_control.ignored_background"@,
        "version_control.added"@,
        "version_control.added_background"@,
        "version_control.modified"@,
        "version_control.modified_background"@,
        "version_control.deleted"@,
        "version_control.deleted_background"@,
    ]
}

/// The names of the fields for hints and diagnostics.
pub open spec fn spec_diagnostic_keys() -> Seq<Seq<char>> {
    seq![
        "hint"@,
        "hint.background"@,
        "hint.border"@,
        "predictive"@,
        "selected"@,
        "info"@,
        "info.background"@,
        "info.border"@,
        "error"@,
        "accent"@,
        "accent.background"@,
        "error.background"@,
        "warning"@,
        "warning.background"@,
        "warning.border"@,
        "success"@,
        "success.background"@,
        "success.border"@,
    ]
}

/// The names of the fields for borders, elements and icons.
pub open spec fn spec_border_keys() -> Seq<Seq<char>> {
    seq![
        "border"@,
        "border.variant"@,
        "border.focused"@,
        "border.selected"@,
        "border.transparent"@,
        "border.disabled"@,
        "element.background"@,
        "element.hover"@,
        "element.active"@,
        "element.selected"@,
        "element.disabled"@,
        "icon"@,
        "icon.muted"@,
        "icon.disabled"@,
        "icon.placeholder"@,
        "icon.accent"@,
    ]
}

/// The names of the fields for bars and tabs.
pub open spec fn spec_bar_keys() -> Seq<Seq<char>> {
    seq![
        "status_bar.background"@,
        "title_bar.background"@,
        "title_bar.inactive_background"@,
        "tab_bar.background"@,
        "toolbar.background"@,
        "tab.active_background"@,
        "tab.inactive_background"@,
    ]
}

/// The names of the fields for the terminal.
pub open spec fn spec_terminal_keys() -> Seq<Seq<char>> {
    seq![
        "terminal.background"@,
        "terminal.foreground"@,
        "terminal.ansi.black"@,
        "terminal.ansi.bright_black"@,
        "terminal.ansi.red"@,
        "terminal.ansi.bright_red"@,
        "terminal.ansi.green"@,
        "terminal.ansi.bright_green"@,
        "terminal.ansi.yellow"@,
        "terminal.ansi.bright_yellow"@,
        "terminal.ansi.blue"@,
        "terminal.ansi.bright_blue"@,
        "terminal.ansi.magenta"@,
        "terminal.ansi.bright_magenta"@,
        "terminal.ansi.cyan"@,
        "terminal.ansi.bright_cyan"@,
        "terminal.ansi.white"@,
        "terminal.ansi.bright_white"@,
    ]
}

/// The names of the fields of a style, in their order.
pub open spec fn spec_style_keys() -> Seq<Seq<char>> {
    let first = spec_surface_keys() + spec_text_keys() + spec_git_keys() + spec_diagnostic_keys()
        + spec_border_keys() + spec_bar_keys();
    (first.push("players"@) + spec_terminal_keys()).push("syntax"@)
}

/// The names of the surface fields of a style.
proof fn lemma_surface_keys(v: ThemeView)
    ensures
        spec_surface_fields(v).len() == 8,
        spec_surface_keys().len() == 8,
        forall|k: int| 0 <= k < 8 ==> (#[trigger] spec_surface_fields(v)[k]).0 == spec_surface_keys()[k],
{
    reveal(spec_surface_fields);
    let fields = spec_surface_fields(v);
    assert forall|k: int| 0 <= k < 8 implies (#[trigger] fields[k]).0 == spec_surface_keys()[k] by {
        assert(k == 0 || k == 1 || k == 2 || k == 3 || k == 4 || k == 5 || k == 6 || k == 7);
    }
}

/// The names of the text fields of a style.
proof fn lemma_text_keys(v: ThemeView)
    ensures
        spec_text_fields(v).len() == 10,
        spec_text_keys().len() == 10,
        forall|k: int| 0 <= k < 10 ==> (#[trigger] spec_text_fields(v)[k]).0 == spec_text_keys()[k],
{
    reveal(spec_text_fields);
    let fields = spec_text_fields(v);
    assert forall|k: int| 0 <= k < 10 implies (#[trigger] fields[k]).0 == spec_text_keys()[k] by {
        assert(k == 0 || k == 1 || k == 2 || k == 3 || k == 4 || k == 5 || k == 6 || k == 7 || k == 8 || k == 9);
    }
}

/// The names of the git fields of a style.
proof fn lemma_git_keys(v: ThemeView)
    ensures
        spec_git_fields(v).len() == 16,
        spec_git_keys().len() == 16,
        forall|k: int| 0 <= k < 16 ==> (#[trigger] spec_git_fields(v)[k]).0 == spec_git_keys()[k],
{
    reveal(spec_git_fields);
    let fields = spec_git_fields(v);
    assert forall|k: int| 0 <= k < 16 implies (#[trigger] fields[k]).0 == spec_git_keys()[k] by {
        assert(k == 0 || k == 1 || k == 2 || k == 3 || k == 4 || k == 5 || k == 6 || k == 7 || k == 8 || k == 9
            || k == 10 || k == 11 || k == 12 || k == 13 || k == 14 || k == 15);
    }
}

/// The names of the diagnostic fields of a style.
proof fn lemma_diagnostic_keys(v: ThemeView)
    ensures
        spec_diagnostic_fields(v).len() == 18,
        spec_diagnostic_keys().len() == 18,
        forall|k: int| 0 <= k < 18 ==> (#[trigger] spec_diagnostic_fields(v)[k]).0 == spec_diagnostic_keys()[k],
{
    reveal(spec_diagnostic_fields);
    let fields = spec_diagnostic_fields(v);
    assert forall|k: int| 0 <= k < 18 implies (#[trigger] fields[k]).0 == spec_diagnostic_keys()[k] by {
        assert(k == 0 || k == 1 || k == 2 || k == 3 || k == 4 || k == 5 || k == 6 || k == 7 || k == 8 || k == 9
            || k == 10 || k == 11 || k == 12 || k == 13 || k == 14 || k == 15 || k == 16 || k == 17);
    }
}

/// The names of the border fields of a style.
proof fn lemma_border_keys(v: ThemeView)
    ensures
        spec_border_fields(v).len() == 16,
        spec_border_keys().len() == 16,
        forall|k: int| 0 <= k < 16 ==> (#[trigger] spec_border_fields(v)[k]).0 == spec_border_keys()[k],
{
    reveal(spec_border_fields);
    let fields = spec_border_fields(v);
    assert forall|k: int| 0 <= k < 16 implies (#[trigger] fields[k]).0 == spec_border_keys()[k] by {
        assert(k == 0 || k == 1 || k == 2 || k == 3 || k == 4 || k == 5 || k == 6 || k == 7 || k == 8 || k == 9
            || k == 10 || k == 11 || k == 12 || k == 13 || k == 14 || k == 15);
    }
}

/// The names of the bar fields of a style.
proof fn lemma_bar_keys(v: ThemeView)
    ensures
        spec_bar_fields(v).len() == 7,
        spec_bar_keys().len() == 7,
        forall|k: int| 0 <= k < 7 ==> (#[trigger] spec_bar_fields(v)[k]).0 == spec_bar_keys()[k],
{
    reveal(spec_bar_fields);
    let fields = spec_bar_fields(v);
    assert forall|k: int| 0 <= k < 7 implies (#[trigger] fields[k]).0 == spec_bar_keys()[k] by {
        assert(k == 0 || k == 1 || k == 2 || k == 3 || k == 4 || k == 5 || k == 6);
    }
}

/// The names of the terminal fields of a style.
proof fn lemma_terminal_keys(v: ThemeView)
    ensures
        spec_terminal_fields(v).len() == 18,
        spec_terminal_keys().len() == 18,
        forall|k: int| 0 <= k < 18 ==> (#[trigger] spec_terminal_fields(v)[k]).0 == spec_terminal_keys()[k],
{
    reveal(spec_terminal_fields);
    let fields = spec_terminal_fields(v);
    assert forall|k: int| 0 <= k < 18 implies (#[trigger] fields[k]).0 == spec_terminal_keys()[k] by {
        assert(k == 0 || k == 1 || k == 2 || k == 3 || k == 4 || k == 5 || k == 6 || k == 7 || k == 8 || k == 9
            || k == 10 || k == 11 || k == 12 || k == 13 || k == 14 || k == 15 || k == 16 || k == 17);
    }
}

/// The style of every theme has the same ninety-five fields: their names are
/// `spec_style_keys`, in that order.
pub proof fn lemma_style_keys(v: ThemeView)
    ensures
        v.style_fields().len() == 95,
        spec_style_keys().len() == 95,
        forall|i: int| 0 <= i < 95 ==> (#[trigger] v.style_fields()[i]).0 == spec_style_keys()[i],
{
    lemma_surface_keys(v);
    lemma_text_keys(v);
    lemma_git_keys(v);
    lemma_diagnostic_keys(v);
    lemma_border_keys(v);
    lemma_bar_keys(v);
    lemma_terminal_keys(v);
    let fields = v.style_fields();
    let keys = spec_style_keys();
    assert(fields.len() == 95);
    assert(keys.len() == 95);
    assert forall|i: int| 0 <= i < 95 implies (#[trigger] fields[i]).0 == keys[i] by {
        if i < 8 {
            assert(fields[i] == spec_surface_fields(v)[i] && keys[i] == spec_surface_keys()[i]);
        } else if i < 18 {
            assert(fields[i] == spec_text_fields(v)[i - 8] && keys[i] == spec_text_keys()[i - 8]);
        } else if i < 34 {
            assert(fields[i] == spec_git_fields(v)[i - 18] && keys[i] == spec_git_keys()[i - 18]);
        } else if i < 52 {
            assert(fields[i] == spec_diagnostic_fields(v)[i - 34] && keys[i]
                == spec_diagnostic_keys()[i - 34]);
        } else if i < 68 {
            assert(fields[i] == spec_border_fields(v)[i - 52] && keys[i] == spec_border_keys()[i
                - 52]);
        } else if i < 75 {
            assert(fields[i] == spec_bar_fields(v)[i - 68] && keys[i] == spec_bar_keys()[i - 68]);
        } else if i == 75 {
            assert(fields[i].0 == "players"@ && keys[i] == "players"@);
        } else if i < 94 {
            assert(fields[i] == spec_terminal_fields(v)[i - 76] && keys[i]
                == spec_terminal_keys()[i - 76]);
        } else {
            assert(fields[i].0 == "syntax"@ && keys[i] == "syntax"@);
        }
    }
}

/// No two fields of a style have the same name.
pub proof fn lemma_style_keys_distinct()
    ensures
        forall|i: int, j: int|
            0 <= i < j < 95 ==> #[trigger] spec_style_keys()[i] != #[trigger] spec_style_keys()[j],
{
    reveal_strlit("background");
    assert("background"@.len() == 10 && "background"@[0] == 'b' && "background"@[2] == 'c' && "background"@[9] == 'd');
    reveal_strlit("editor.background");
    assert("editor.background"@.len() == 17 && "editor.background"@[0] == 'e' && "editor.background"@[2] == 'i' && "editor.background"@[9] == 'c' && "editor.background"@[16] == 'd');
    reveal_strlit("editor.gutter.background");
    assert("editor.gutter.background"@.len() == 24 && "editor.gutter.background"@[0] == 'e' && "editor.gutter.background"@[2] == 'i' && "editor.gutter.background"@[9] == 't' && "editor.gutter.background"@[16] == 'c' && "editor.gutter.background"@[21] == 'u');
    reveal_strlit("panel.background");
    assert("panel.background"@.len() == 16 && "panel.background"@[0] == 'p' && "panel.background"@[2] == 'n' && "panel.background"@[9] == 'k');
    reveal_strlit("editor.foreground");
    assert("editor.foreground"@.len() == 17 && "editor.foreground"@[0] == 'e' && "editor.foreground"@[2] == 'i' && "editor.foreground"@[9] == 'r' && "editor.foreground"@[16] == 'd');
    reveal_strlit("editor.subheader.background");
    assert("editor.subheader.background"@.len() == 27 && "editor.subheader.background"@[0] == 'e' && "editor.subheader.background"@[2] == 'i' && "editor.subheader.background"@[9] == 'b' && "editor.subheader.background"@[16] == '.' && "editor.subheader.background"@[21] == 'g');
    reveal_strlit("surface.background");
    assert("surface.background"@.len() == 18 && "surface.background"@[0] == 's' && "surface.background"@[2] == 'r' && "surface.background"@[9] == 'a' && "surface.background"@[16] == 'n');
    reveal_strlit("elevated_surface.background");
    assert("elevated_surface.background"@.len() == 27 && "elevated_surface.background"@[0] == 'e' && "elevated_surface.background"@[2] == 'e' && "elevated_surface.background"@[9] == 's' && "elevated_surface.background"@[16] == '.' && "elevated_surface.background"@[21] == 'g');
    reveal_strlit("link_text.hover");
    assert("link_text.hover"@.len() == 15 && "link_text.hover"@[0] == 'l' && "link_text.hover"@[2] == 'n' && "link_text.hover"@[9] == '.');
    reveal_strlit("editor.document_highlight.read_background");
    assert("editor.document_highlight.read_background"@.len() == 41 && "editor.document_highlight.read_background"@[0] == 'e' && "editor.document_highlight.read_background"@[2] == 'i' && "editor.document_highlight.read_background"@[9] == 'c' && "editor.document_highlight.read_background"@[16] == 'h' && "editor.document_highlight.read_background"@[21] == 'i');
    reveal_strlit("drop_target.background");
    assert("drop_target.background"@.len() == 22 && "drop_target.background"@[0] == 'd' && "drop_target.background"@[2] == 'o' && "drop_target.background"@[9] == 'e' && "drop_target.background"@[16] == 'g' && "drop_target.background"@[21] == 'd');
    reveal_strlit("panel.focused_border");
    assert("panel.focused_border"@.len() == 20 && "panel.focused_border"@[0] == 'p' && "panel.focused_border"@[2] == 'n' && "panel.focused_border"@[9] == 'u' && "panel.focused_border"@[16] == 'r');
    reveal_strlit("editor.line_number");
    assert("editor.line_number"@.len() == 18 && "editor.line_number"@[0] == 'e' && "editor.line_number"@[2] == 'i' && "editor.line_number"@[9] == 'n' && "editor.line_number"@[16] == 'e');
    reveal_strlit("editor.active_line_number");
    assert("editor.active_line_number"@.len() == 25 && "editor.active_line_number"@[0] == 'e' && "editor.active_line_number"@[2] == 'i' && "editor.active_line_number"@[9] == 't' && "editor.active_line_number"@[16] == 'n' && "editor.active_line_number"@[21] == 'm');
    reveal_strlit("text.accent");
    assert("text.accent"@.len() == 11 && "text.accent"@[0] == 't' && "text.accent"@[2] == 'x' && "text.accent"@[9] == 'n');
    reveal_strlit("text.muted");
    assert("text.muted"@.len() == 10 && "text.muted"@[0] == 't' && "text.muted"@[2] == 'x' && "text.muted"@[9] == 'd');
    reveal_strlit("text");
    assert("text"@.len() == 4 && "text"@[0] == 't' && "text"@[2] == 'x');
    reveal_strlit("text.disabled");
    assert("text.disabled"@.len() == 13 && "text.disabled"@[0] == 't' && "text.disabled"@[2] == 'x' && "text.disabled"@[9] == 'b');
    reveal_strlit("created");
    assert("created"@.len() == 7 && "created"@[0] == 'c' && "created"@[2] == 'e');
    reveal_strlit("created.background");
    assert("created.background"@.len() == 18 && "created.background"@[0] == 'c' && "created.background"@[2] == 'e' && "created.background"@[9] == 'a' && "created.background"@[16] == 'n');
    reveal_strlit("modified");
    assert("modified"@.len() == 8 && "modified"@[0] == 'm' && "modified"@[2] == 'd');
    reveal_strlit("modified.background");
    assert("modified.background"@.len() == 19 && "modified.background"@[0] == 'm' && "modified.background"@[2] == 'd' && "modified.background"@[9] == 'b' && "modified.background"@[16] == 'u');
    reveal_strlit("deleted");
    assert("deleted"@.len() == 7 && "deleted"@[0] == 'd' && "deleted"@[2] == 'l');
    reveal_strlit("deleted.background");
    assert("deleted.background"@.len() == 18 && "deleted.background"@[0] == 'd' && "deleted.background"@[2] == 'l' && "deleted.background"@[9] == 'a' && "deleted.background"@[16] == 'n');
    reveal_strlit("conflict");
    assert("conflict"@.len() == 8 && "conflict"@[0] == 'c' && "conflict"@[2] == 'n');
    reveal_strlit("conflict.background");
    assert("conflict.background"@.len() == 19 && "conflict.background"@[0] == 'c' && "conflict.background"@[2] == 'n' && "conflict.background"@[9] == 'b' && "conflict.background"@[16] == 'u');
    reveal_strlit("version_control.ignored");
    assert("version_control.ignored"@.len() == 23 && "version_control.ignored"@[0] == 'v' && "version_control.ignored"@[2] == 'r' && "version_control.ignored"@[9] == 'o' && "version_control.ignored"@[16] == 'i' && "version_control.ignored"@[21] == 'e');
    reveal_strlit("version_control.ignored_background");
    assert("version_control.ignored_background"@.len() == 34 && "version_control.ignored_background"@[0] == 'v' && "version_control.ignored_background"@[2] == 'r' && "version_control.ignored_background"@[9] == 'o' && "version_control.ignored_background"@[16] == 'i' && "version_control.ignored_background"@[21] == 'e');
    reveal_strlit("version_control.added");
    assert("version_control.added"@.len() == 21 && "version_control.added"@[0] == 'v' && "version_control.added"@[2] == 'r' && "version_control.added"@[9] == 'o' && "version_control.added"@[16] == 'a');
    reveal_strlit("version_control.added_background");
    assert("version_control.added_background"@.len() == 32 && "version_control.added_background"@[0] == 'v' && "version_control.added_background"@[2] == 'r' && "version_control.added_background"@[9] == 'o' && "version_control.added_background"@[16] == 'a' && "version_control.added_background"@[21] == '_');
    reveal_strlit("version_control.modified");
    assert("version_control.modified"@.len() == 24 && "version_control.modified"@[0] == 'v' && "version_control.modified"@[2] == 'r' && "version_control.modified"@[9] == 'o' && "version_control.modified"@[16] == 'm' && "version_control.modified"@[21] == 'i');
    reveal_strlit("version_control.modified_background");
    assert("version_control.modified_background"@.len() == 35 && "version_control.modified_background"@[0] == 'v' && "version_control.modified_background"@[2] == 'r' && "version_control.modified_background"@[9] == 'o' && "version_control.modified_background"@[16] == 'm' && "version_control.modified_background"@[21] == 'i');
    reveal_strlit("version_control.deleted");
    assert("version_control.deleted"@.len() == 23 && "version_control.deleted"@[0] == 'v' && "version_control.deleted"@[2] == 'r' && "version_control.deleted"@[9] == 'o' && "version_control.deleted"@[16] == 'd' && "version_control.deleted"@[21] == 'e');
    reveal_strlit("version_control.deleted_background");
    assert("version_control.deleted_background"@.len() == 34 && "version_control.deleted_background"@[0] == 'v' && "version_control.deleted_background"@[2] == 'r' && "version_control.deleted_background"@[9] == 'o' && "version_control.deleted_background"@[16] == 'd' && "version_control.deleted_background"@[21] == 'e');
    reveal_strlit("hint");
    assert("hint"@.len() == 4 && "hint"@[0] == 'h' && "hint"@[2] == 'n');
    reveal_strlit("hint.background");
    assert("hint.background"@.len() == 15 && "hint.background"@[0] == 'h' && "hint.background"@[2] == 'n' && "hint.background"@[9] == 'g');
    reveal_strlit("hint.border");
    assert("hint.border"@.len() == 11 && "hint.border"@[0] == 'h' && "hint.border"@[2] == 'n' && "hint.border"@[9] == 'e');
    reveal_strlit("predictive");
    assert("predictive"@.len() == 10 && "predictive"@[0] == 'p' && "predictive"@[2] == 'e' && "predictive"@[9] == 'e');
    reveal_strlit("selected");
    assert("selected"@.len() == 8 && "selected"@[0] == 's' && "selected"@[2] == 'l');
    reveal_strlit("info");
    assert("info"@.len() == 4 && "info"@[0] == 'i' && "info"@[2] == 'f');
    reveal_strlit("info.background");
    assert("info.background"@.len() == 15 && "info.background"@[0] == 'i' && "info.background"@[2] == 'f' && "info.background"@[9] == 'g');
    reveal_strlit("info.border");
    assert("info.border"@.len() == 11 && "info.border"@[0] == 'i' && "info.border"@[2] == 'f' && "info.border"@[9] == 'e');
    reveal_strlit("error");
    assert("error"@.len() == 5 && "error"@[0] == 'e' && "error"@[2] == 'r');
    reveal_strlit("accent");
    assert("accent"@.len() == 6 && "accent"@[0] == 'a' && "accent"@[2] == 'c');
    reveal_strlit("accent.background");
    assert("accent.background"@.len() == 17 && "accent.background"@[0] == 'a' && "accent.background"@[2] == 'c' && "accent.background"@[9] == 'c' && "accent.background"@[16] == 'd');
    reveal_strlit("error.background");
    assert("error.background"@.len() == 16 && "error.background"@[0] == 'e' && "error.background"@[2] == 'r' && "error.background"@[9] == 'k');
    reveal_strlit("warning");
    assert("warning"@.len() == 7 && "warning"@[0] == 'w' && "warning"@[2] == 'r');
    reveal_strlit("warning.background");
    assert("warning.background"@.len() == 18 && "warning.background"@[0] == 'w' && "warning.background"@[2] == 'r' && "warning.background"@[9] == 'a' && "warning.background"@[16] == 'n');
    reveal_strlit("warning.border");
    assert("warning.border"@.len() == 14 && "warning.border"@[0] == 'w' && "warning.border"@[2] == 'r' && "warning.border"@[9] == 'o');
    reveal_strlit("success");
    assert("success"@.len() == 7 && "success"@[0] == 's' && "success"@[2] == 'c');
    reveal_strlit("success.background");
    assert("success.background"@.len() == 18 && "success.background"@[0] == 's' && "success.background"@[2] == 'c' && "success.background"@[9] == 'a' && "success.background"@[16] == 'n');
    reveal_strlit("success.border");
    assert("success.border"@.len() == 14 && "success.border"@[0] == 's' && "success.border"@[2] == 'c' && "success.border"@[9] == 'o');
    reveal_strlit("border");
    assert("border"@.len() == 6 && "border"@[0] == 'b' && "border"@[2] == 'r');
    reveal_strlit("border.variant");
    assert("border.variant"@.len() == 14 && "border.variant"@[0] == 'b' && "border.variant"@[2] == 'r' && "border.variant"@[9] == 'r');
    reveal_strlit("border.focused");
    assert("border.focused"@.len() == 14 && "border.focused"@[0] == 'b' && "border.focused"@[2] == 'r' && "border.focused"@[9] == 'c');
    reveal_strlit("border.selected");
    assert("border.selected"@.len() == 15 && "border.selected"@[0] == 'b' && "border.selected"@[2] == 'r' && "border.selected"@[9] == 'l');
    reveal_strlit("border.transparent");
    assert("border.transparent"@.len() == 18 && "border.transparent"@[0] == 'b' && "border.transparent"@[2] == 'r' && "border.transparent"@[9] == 'a' && "border.transparent"@[16] == 'n');
    reveal_strlit("border.disabled");
    assert("border.disabled"@.len() == 15 && "border.disabled"@[0] == 'b' && "border.disabled"@[2] == 'r' && "border.disabled"@[9] == 's');
    reveal_strlit("element.background");
    assert("element.background"@.len() == 18 && "element.background"@[0] == 'e' && "element.background"@[2] == 'e' && "element.background"@[9] == 'a' && "element.background"@[16] == 'n');
    reveal_strlit("element.hover");
    assert("element.hover"@.len() == 13 && "element.hover"@[0] == 'e' && "element.hover"@[2] == 'e' && "element.hover"@[9] == 'o');
    reveal_strlit("element.active");
    assert("element.active"@.len() == 14 && "element.active"@[0] == 'e' && "element.active"@[2] == 'e' && "element.active"@[9] == 'c');
    reveal_strlit("element.selected");
    assert("element.selected"@.len() == 16 && "element.selected"@[0] == 'e' && "element.selected"@[2] == 'e' && "element.selected"@[9] == 'e');
    reveal_strlit("element.disabled");
    assert("element.disabled"@.len() == 16 && "element.disabled"@[0] == 'e' && "element.disabled"@[2] == 'e' && "element.disabled"@[9] == 'i');
    reveal_strlit("icon");
    assert("icon"@.len() == 4 && "icon"@[0] == 'i' && "icon"@[2] == 'o');
    reveal_strlit("icon.muted");
    assert("icon.muted"@.len() == 10 && "icon.muted"@[0] == 'i' && "icon.muted"@[2] == 'o' && "icon.muted"@[9] == 'd');
    reveal_strlit("icon.disabled");
    assert("icon.disabled"@.len() == 13 && "icon.disabled"@[0] == 'i' && "icon.disabled"@[2] == 'o' && "icon.disabled"@[9] == 'b');
    reveal_strlit("icon.placeholder");
    assert("icon.placeholder"@.len() == 16 && "icon.placeholder"@[0] == 'i' && "icon.placeholder"@[2] == 'o' && "icon.placeholder"@[9] == 'e');
    reveal_strlit("icon.accent");
    assert("icon.accent"@.len() == 11 && "icon.accent"@[0] == 'i' && "icon.accent"@[2] == 'o' && "icon.accent"@[9] == 'n');
    reveal_strlit("status_bar.background");
    assert("status_bar.background"@.len() == 21 && "status_bar.background"@[0] == 's' && "status_bar.background"@[2] == 'a' && "status_bar.background"@[9] == 'r' && "status_bar.background"@[16] == 'r');
    reveal_strlit("title_bar.background");
    assert("title_bar.background"@.len() == 20 && "title_bar.background"@[0] == 't' && "title_bar.background"@[2] == 't' && "title_bar.background"@[9] == '.' && "title_bar.background"@[16] == 'o');
    reveal_strlit("title_bar.inactive_background");
    assert("title_bar.inactive_background"@.len() == 29 && "title_bar.inactive_background"@[0] == 't' && "title_bar.inactive_background"@[2] == 't' && "title_bar.inactive_background"@[9] == '.' && "title_bar.inactive_background"@[16] == 'v' && "title_bar.inactive_background"@[21] == 'c');
    reveal_strlit("tab_bar.background");
    assert("tab_bar.background"@.len() == 18 && "tab_bar.background"@[0] == 't' && "tab_bar.background"@[2] == 'b' && "tab_bar.background"@[9] == 'a' && "tab_bar.background"@[16] == 'n');
    reveal_strlit("toolbar.background");
    assert("toolbar.background"@.len() == 18 && "toolbar.background"@[0] == 't' && "toolbar.background"@[2] == 'o' && "toolbar.background"@[9] == 'a' && "toolbar.background"@[16] == 'n');
    reveal_strlit("tab.active_background");
    assert("tab.active_background"@.len() == 21 && "tab.active_background"@[0] == 't' && "tab.active_background"@[2] == 'b' && "tab.active_background"@[9] == 'e' && "tab.active_background"@[16] == 'r');
    reveal_strlit("tab.inactive_background");
    assert("tab.inactive_background"@.len() == 23 && "tab.inactive_background"@[0] == 't' && "tab.inactive_background"@[2] == 'b' && "tab.inactive_background"@[9] == 'i' && "tab.inactive_background"@[16] == 'k' && "tab.inactive_background"@[21] == 'n');
    reveal_strlit("players");
    assert("players"@.len() == 7 && "players"@[0] == 'p' && "players"@[2] == 'a');
    reveal_strlit("terminal.background");
    assert("terminal.background"@.len() == 19 && "terminal.background"@[0] == 't' && "terminal.background"@[2] == 'r' && "terminal.background"@[9] == 'b' && "terminal.background"@[16] == 'u');
    reveal_strlit("terminal.foreground");
    assert("terminal.foreground"@.len() == 19 && "terminal.foreground"@[0] == 't' && "terminal.foreground"@[2] == 'r' && "terminal.foreground"@[9] == 'f' && "terminal.foreground"@[16] == 'u');
    reveal_strlit("terminal.ansi.black");
    assert("terminal.ansi.black"@.len() == 19 && "terminal.ansi.black"@[0] == 't' && "terminal.ansi.black"@[2] == 'r' && "terminal.ansi.black"@[9] == 'a' && "terminal.ansi.black"@[16] == 'a');
    reveal_strlit("terminal.ansi.bright_black");
    assert("terminal.ansi.bright_black"@.len() == 26 && "terminal.ansi.bright_black"@[0] == 't' && "terminal.ansi.bright_black"@[2] == 'r' && "terminal.ansi.bright_black"@[9] == 'a' && "terminal.ansi.bright_black"@[16] == 'i' && "terminal.ansi.bright_black"@[21] == 'b');
    reveal_strlit("terminal.ansi.red");
    assert("terminal.ansi.red"@.len() == 17 && "terminal.ansi.red"@[0] == 't' && "terminal.ansi.red"@[2] == 'r' && "terminal.ansi.red"@[9] == 'a' && "terminal.ansi.red"@[16] == 'd');
    reveal_strlit("terminal.ansi.bright_red");
    assert("terminal.ansi.bright_red"@.len() == 24 && "terminal.ansi.bright_red"@[0] == 't' && "terminal.ansi.bright_red"@[2] == 'r' && "terminal.ansi.bright_red"@[9] == 'a' && "terminal.ansi.bright_red"@[16] == 'i' && "terminal.ansi.bright_red"@[21] == 'r');
    reveal_strlit("terminal.ansi.green");
    assert("terminal.ansi.green"@.len() == 19 && "terminal.ansi.green"@[0] == 't' && "terminal.ansi.green"@[2] == 'r' && "terminal.ansi.green"@[9] == 'a' && "terminal.ansi.green"@[16] == 'e');
    reveal_strlit("terminal.ansi.bright_green");
    assert("terminal.ansi.bright_green"@.len() == 26 && "terminal.ansi.bright_green"@[0] == 't' && "terminal.ansi.bright_green"@[2] == 'r' && "terminal.ansi.bright_green"@[9] == 'a' && "terminal.ansi.bright_green"@[16] == 'i' && "terminal.ansi.bright_green"@[21] == 'g');
    reveal_strlit("terminal.ansi.yellow");
    assert("terminal.ansi.yellow"@.len() == 20 && "terminal.ansi.yellow"@[0] == 't' && "terminal.ansi.yellow"@[2] == 'r' && "terminal.ansi.yellow"@[9] == 'a' && "terminal.ansi.yellow"@[16] == 'l');
    reveal_strlit("terminal.ansi.bright_yellow");
    assert("terminal.ansi.bright_yellow"@.len() == 27 && "terminal.ansi.bright_yellow"@[0] == 't' && "terminal.ansi.bright_yellow"@[2] == 'r' && "terminal.ansi.bright_yellow"@[9] == 'a' && "terminal.ansi.bright_yellow"@[16] == 'i' && "terminal.ansi.bright_yellow"@[21] == 'y');
    reveal_strlit("terminal.ansi.blue");
    assert("terminal.ansi.blue"@.len() == 18 && "terminal.ansi.blue"@[0] == 't' && "terminal.ansi.blue"@[2] == 'r' && "terminal.ansi.blue"@[9] == 'a' && "terminal.ansi.blue"@[16] == 'u');
    reveal_strlit("terminal.ansi.bright_blue");
    assert("terminal.ansi.bright_blue"@.len() == 25 && "terminal.ansi.bright_blue"@[0] == 't' && "terminal.ansi.bright_blue"@[2] == 'r' && "terminal.ansi.bright_blue"@[9] == 'a' && "terminal.ansi.bright_blue"@[16] == 'i' && "terminal.ansi.bright_blue"@[21] == 'b');
    reveal_strlit("terminal.ansi.magenta");
    assert("terminal.ansi.magenta"@.len() == 21 && "terminal.ansi.magenta"@[0] == 't' && "terminal.ansi.magenta"@[2] == 'r' && "terminal.ansi.magenta"@[9] == 'a' && "terminal.ansi.magenta"@[16] == 'g');
    reveal_strlit("terminal.ansi.bright_magenta");
    assert("terminal.ansi.bright_magenta"@.len() == 28 && "terminal.ansi.bright_magenta"@[0] == 't' && "terminal.ansi.bright_magenta"@[2] == 'r' && "terminal.ansi.bright_magenta"@[9] == 'a' && "terminal.ansi.bright_magenta"@[16] == 'i' && "terminal.ansi.bright_magenta"@[21] == 'm');
    reveal_strlit("terminal.ansi.cyan");
    assert("terminal.ansi.cyan"@.len() == 18 && "terminal.ansi.cyan"@[0] == 't' && "terminal.ansi.cyan"@[2] == 'r' && "terminal.ansi.cyan"@[9] == 'a' && "terminal.ansi.cyan"@[16] == 'a');
    reveal_strlit("terminal.ansi.bright_cyan");
    assert("terminal.ansi.bright_cyan"@.len() == 25 && "terminal.ansi.bright_cyan"@[0] == 't' && "terminal.ansi.bright_cyan"@[2] == 'r' && "terminal.ansi.bright_cyan"@[9] == 'a' && "terminal.ansi.bright_cyan"@[16] == 'i' && "terminal.ansi.bright_cyan"@[21] == 'c');
    reveal_strlit("terminal.ansi.white");
    assert("terminal.ansi.white"@.len() == 19 && "terminal.ansi.white"@[0] == 't' && "terminal.ansi.white"@[2] == 'r' && "terminal.ansi.white"@[9] == 'a' && "terminal.ansi.white"@[16] == 'i');
    reveal_strlit("terminal.ansi.bright_white");
    assert("terminal.ansi.bright_white"@.len() == 26 && "terminal.ansi.bright_white"@[0] == 't' && "terminal.ansi.bright_white"@[2] == 'r' && "terminal.ansi.bright_white"@[9] == 'a' && "terminal.ansi.bright_white"@[16] == 'i' && "terminal.ansi.bright_white"@[21] == 'w');
    reveal_strlit("syntax");
    assert("syntax"@.len() == 6 && "syntax"@[0] == 's' && "syntax"@[2] == 'n');
    let keys = spec_style_keys();
    assert(keys.len() == 95);
    assert forall|i: int, j: int| 0 <= i < j < 95 implies #[trigger] keys[i] != #[trigger] keys[j] by {
        assert(i == 0 || i == 1 || i == 2 || i == 3 || i == 4 || i == 5 || i == 6 || i == 7 || i == 8 || i == 9
            || i == 10 || i == 11 || i == 12 || i == 13 || i == 14 || i == 15 || i == 16 || i == 17 || i ==
            18 || i == 19 || i == 20 || i == 21 || i == 22 || i == 23 || i == 24 || i == 25 || i == 26 || i
            == 27 || i == 28 || i == 29 || i == 30 || i == 31 || i == 32 || i == 33 || i == 34 || i == 35 ||
            i == 36 || i == 37 || i == 38 || i == 39 || i == 40 || i == 41 || i == 42 || i == 43 || i == 44
            || i == 45 || i == 46 || i == 47 || i == 48 || i == 49 || i == 50 || i == 51 || i == 52 || i ==
            53 || i == 54 || i == 55 || i == 56 || i == 57 || i == 58 || i == 59 || i == 60 || i == 61 || i
            == 62 || i == 63 || i == 64 || i == 65 || i == 66 || i == 67 || i == 68 || i == 69 || i == 70 ||
            i == 71 || i == 72 || i == 73 || i == 74 || i == 75 || i == 76 || i == 77 || i == 78 || i == 79
            || i == 80 || i == 81 || i == 82 || i == 83 || i == 84 || i == 85 || i == 86 || i == 87 || i ==
            88 || i == 89 || i == 90 || i == 91 || i == 92 || i == 93 || i == 94);
        assert(j == 0 || j == 1 || j == 2 || j == 3 || j == 4 || j == 5 || j == 6 || j == 7 || j == 8 || j == 9
            || j == 10 || j == 11 || j == 12 || j == 13 || j == 14 || j == 15 || j == 16 || j == 17 || j ==
            18 || j == 19 || j == 20 || j == 21 || j == 22 || j == 23 || j == 24 || j == 25 || j == 26 || j
            == 27 || j == 28 || j == 29 || j == 30 || j == 31 || j == 32 || j == 33 || j == 34 || j == 35 ||
            j == 36 || j == 37 || j == 38 || j == 39 || j == 40 || j == 41 || j == 42 || j == 43 || j == 44
            || j == 45 || j == 46 || j == 47 || j == 48 || j == 49 || j == 50 || j == 51 || j == 52 || j ==
            53 || j == 54 || j == 55 || j == 56 || j == 57 || j == 58 || j == 59 || j == 60 || j == 61 || j
            == 62 || j == 63 || j == 64 || j == 65 || j == 66 || j == 67 || j == 68 || j == 69 || j == 70 ||
            j == 71 || j == 72 || j == 73 || j == 74 || j == 75 || j == 76 || j == 77 || j == 78 || j == 79
            || j == 80 || j == 81 || j == 82 || j == 83 || j == 84 || j == 85 || j == 86 || j == 87 || j ==
            88 || j == 89 || j == 90 || j == 91 || j == 92 || j == 93 || j == 94);
    }
}

/// Looking a name of the style up gives the value of the field of that
/// name.
pub proof fn lemma_style_lookup(v: ThemeView, i: int)
    requires
        0 <= i < 95,
    ensures
        spec_lookup(v.style_fields(), spec_style_keys()[i]) == Some(v.style_fields()[i].1),
{
    lemma_style_keys(v);
    lemma_style_keys_distinct();
    let fields = v.style_fields();
    assert forall|j: int| 0 <= j < i implies (#[trigger] fields[j]).0 != fields[i].0 by {
        assert(spec_style_keys()[j] != spec_style_keys()[i]);
    }
    lemma_lookup_found(fields, i);
}

} // verus!
