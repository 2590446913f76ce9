//! The theme model: the semantic colour roles that a theme is made of.

use vstd::prelude::*;
use vstd::string::*;
use crate::color::Color;

verus! {

/// Whether a theme is dark or light.
#[derive(Debug, Clone, Copy, PartialEq, Eq, Structural)]
pub enum Brightness {
    Light,
    Dark,
}

/// The colours of the syntax tokens.
#[derive(Debug, Clone, Copy, PartialEq, Eq, Structural)]
pub struct ThemeTokens {
    pub brackets: Color,
    pub comment: Color,
    pub strings: Color,
    pub types: Color,
    pub functions: Color,
    pub properties: Color,
    pub keywords: Color,
    pub constants: Color,
    pub operators: Color,
}

/// The colours of diagnostics.
#[derive(Debug, Clone, Copy, PartialEq, Eq, Structural)]
pub struct ThemeDiagnostic {
    pub error: Color,
    pub warning: Color,
    pub info: Color,
}

/// The colours of version-control states.
#[derive(Debug, Clone, Copy, PartialEq, Eq, Structural)]
pub struct ThemeGit {
    pub added: Color,
    pub modified: Color,
    pub removed: Color,
}

/// The sixteen ANSI colours of the terminal.
#[derive(Debug, Clone, Copy, PartialEq, Eq, Structural)]
pub struct ThemeTerminal {
    pub black: Color,
    pub red: Color,
    pub green: Color,
    pub yellow: Color,
    pub blue: Color,
    pub magenta: Color,
    pub cyan: Color,
    pub white: Color,
    pub bright_black: Color,
    pub bright_red: Color,
    pub bright_green: Color,
    pub bright_yellow: Color,
    pub bright_blue: Color,
    pub bright_magenta: Color,
    pub bright_cyan: Color,
    pub bright_white: Color,
}

/// A theme: every role has a colour.
#[derive(Debug, Clone)]
pub struct Theme {
    pub is_background_syntax: bool,
    pub name: String,
    pub brightness: Brightness,
    pub accent: Color,
    pub background: Color,
    pub foreground: Color,
    pub tokens: ThemeTokens,
    pub terminal: ThemeTerminal,
    pub diagnostics: ThemeDiagnostic,
    pub git: ThemeGit,
}

/// A named set of themes by one author.
#[derive(Debug, Clone)]
pub struct ThemePackage {
    pub name: String,
    pub author: String,
    pub themes: Vec<Theme>,
}

/// What a theme is made from: every role, and no choice about the syntax
/// backgrounds yet.
#[derive(Debug, Clone)]
pub struct ThemeCreatePayload {
    pub name: String,
    pub brightness: Brightness,
    pub accent: Color,
    pub background: Color,
    pub foreground: Color,
    pub tokens: ThemeTokens,
    pub terminal: ThemeTerminal,
    pub diagnostics: ThemeDiagnostic,
    pub git: ThemeGit,
}

/// A theme as a mathematical value.
pub struct ThemeView {
    pub is_background_syntax: bool,
    pub name: Seq<char>,
    pub brightness: Brightness,
    pub accent: Color,
    pub background: Color,
    pub foreground: Color,
    pub tokens: ThemeTokens,
    pub terminal: ThemeTerminal,
    pub diagnostics: ThemeDiagnostic,
    pub git: ThemeGit,
}

/// A package as a mathematical value.
pub struct ThemePackageView {
    pub name: Seq<char>,
    pub author: Seq<char>,
    pub themes: Seq<ThemeView>,
}

impl View for Theme {
    type V = ThemeView;

    open spec fn view(&self) -> ThemeView {
        ThemeView {
            is_background_syntax: self.is_background_syntax,
            name: self.name@,
            brightness: self.brightness,
            accent: self.accent,
            background: self.background,
            foreground: self.foreground,
            tokens: self.tokens,
            terminal: self.terminal,
            diagnostics: self.diagnostics,
            git: self.git,
        }
    }
}

impl View for ThemePackage {
    type V = ThemePackageView;

    open spec fn view(&self) -> ThemePackageView {
        ThemePackageView {
            name: self.name@,
            author: self.author@,
            themes: Seq::new(self.themes@.len(), |i: int| self.themes@[i]@),
        }
    }
}

impl ThemeView {
    /// The background of panels and bars: the background with a trace of
    /// the foreground.
    pub open spec fn secondary_bg(self) -> Color {
        self.background.spec_mix(self.foreground, 25)
    }

    /// The colour of borders: mostly background, with a tenth of accent.
    pub open spec fn border(self) -> Color {
        self.accent.spec_mix(self.background, 900)
    }

    /// The colour of documentation comments: halfway between comment and
    /// foreground.
    pub open spec fn comment_doc(self) -> Color {
        self.tokens.comment.spec_mix(self.foreground, 500)
    }

    /// A short description of this theme for people: its name and its
    /// brightness.
    pub open spec fn describe(self) -> Seq<char> {
        "Theme {\n\tname: "@ + self.name + ",\n\tbrightness: "@ + self.brightness.spec_name()
            + ",\n}"@
    }

    /// The same theme with backgrounds behind syntax, under a name that
    /// says so.
    pub open spec fn to_bg_syntax(self) -> ThemeView {
        ThemeView {
            is_background_syntax: true,
            name: self.name + " (background)"@,
            brightness: self.brightness,
            accent: self.accent,
            background: self.background,
            foreground: self.foreground,
            tokens: self.tokens,
            terminal: self.terminal,
            diagnostics: self.diagnostics,
            git: self.git,
        }
    }
}

impl Brightness {
    /// The name of this brightness as it is written in code: `Dark` or
    /// `Light`.
    pub open spec fn spec_name(self) -> Seq<char> {
        match self {
            Brightness::Dark => "Dark"@,
            Brightness::Light => "Light"@,
        }
    }

    /// The name of this brightness as it is written in code: `Dark` or
    /// `Light`.
    pub fn name(&self) -> (name: &'static str)
        ensures
            name@ == self.spec_name(),
    {
        match self {
            Brightness::Dark => "Dark",
            Brightness::Light => "Light",
        }
    }

    /// The name of the appearance in a document: `dark` or `light`.
    pub open spec fn spec_appearance(self) -> Seq<char> {
        match self {
            Brightness::Dark => "dark"@,
            Brightness::Light => "light"@,
        }
    }

    /// The name of the appearance in a document: `dark` or `light`.
    pub fn appearance(&self) -> (name: &'static str)
        ensures
            name@ == self.spec_appearance(),
    {
        match self {
            Brightness::Dark => "dark",
            Brightness::Light => "light",
        }
    }
}

impl Theme {
    /// The theme that `payload` describes, without backgrounds behind
    /// syntax.
    pub fn new(payload: ThemeCreatePayload) -> (theme: Theme)
        ensures
            theme@ == (ThemeView {
                is_background_syntax: false,
                name: payload.name@,
                brightness: payload.brightness,
                accent: payload.accent,
                background: payload.background,
                foreground: payload.foreground,
                tokens: payload.tokens,
                terminal: payload.terminal,
                diagnostics: payload.diagnostics,
                git: payload.git,
            }),
    {
        Theme {
            is_background_syntax: false,
            name: payload.name,
            brightness: payload.brightness,
            accent: payload.accent,
            background: payload.background,
            foreground: payload.foreground,
            tokens: payload.tokens,
            terminal: payload.terminal,
            diagnostics: payload.diagnostics,
            git: payload.git,
        }
    }

    /// A copy of this theme with backgrounds behind syntax; its name is this
    /// theme's name followed by ` (background)`.
    pub fn to_bg_syntax(&self) -> (theme: Theme)
        ensures
            theme@ == self@.to_bg_syntax(),
    {
        Theme {
            is_background_syntax: true,
            name: self.name.clone().concat(" (background)"),
            brightness: self.brightness,
            accent: self.accent,
            background: self.background,
            foreground: self.foreground,
            tokens: self.tokens,
            terminal: self.terminal,
            diagnostics: self.diagnostics,
            git: self.git,
        }
    }

    /// A short description of this theme for people: its name and its
    /// brightness, on lines of their own between braces.
    pub fn describe(&self) -> (text: String)
        ensures
            text@ == self@.describe(),
    {
        String::from_str("Theme {\n\tname: ").concat(self.name.as_str()).concat(
            ",\n\tbrightness: ",
        ).concat(self.brightness.name()).concat(",\n}")
    }

    /// The background of panels and bars.
    pub fn secondary_bg(&self) -> (c: Color)
        ensures
            c == self@.secondary_bg(),
    {
        let bg = self.foreground;
        self.background.mix(bg, 25)
    }

    /// The colour of borders.
    pub fn border(&self) -> (c: Color)
        ensures
            c == self@.border(),
    {
        self.accent.mix(self.background, 900)
    }

    /// The colour of documentation comments.
    pub fn comment_doc(&self) -> (c: Color)
        ensures
            c == self@.comment_doc(),
    {
        self.tokens.comment.mix(self.foreground, 500)
    }
}

} // verus!
