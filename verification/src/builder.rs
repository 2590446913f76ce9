//! The package assembler: wraps the documents of a package's themes into
//! the document of the package.

use vstd::prelude::*;
use vstd::string::*;
use crate::document::{push_field, spec_fields, spec_items, Document, Json};
use crate::render::{render, spec_pretty, spec_text};
use crate::theme::{ThemePackage, ThemePackageView};

verus! {

impl ThemePackageView {
    /// The documents of the themes, in the order of the themes.
    pub open spec fn theme_documents(self) -> Seq<Json> {
        Seq::new(self.themes.len(), |i: int| self.themes[i].encode())
    }

    /// The document of the package: the schema that it follows, its name,
    /// its author and its themes.
    pub open spec fn document(self) -> Json {
        Json::Object(
            seq![
                ("$schema"@, Json::Text("https://zed.dev/schema/themes/v0.2.0.json"@)),
                ("name"@, Json::Text(self.name)),
                ("author"@, Json::Text(self.author)),
                ("themes"@, Json::List(self.theme_documents())),
            ],
        )
    }
}

/// Builds the document of a package.
pub struct Builder<'a> {
    theme: &'a ThemePackage,
}

impl<'a> View for Builder<'a> {
    type V = ThemePackageView;

    closed spec fn view(&self) -> ThemePackageView {
        self.theme@
    }
}

impl<'a> Builder<'a> {
    /// A builder for the package `theme`.
    pub fn new(theme: &'a ThemePackage) -> (builder: Self)
        ensures
            builder@ == theme@,
    {
        Self { theme }
    }

    /// The document of the package, with the document of each theme in it.
    pub fn build(&self) -> (doc: Document)
        ensures
            doc@ == self@.document(),
    {
        let package = self.theme;
        let ghost wanted = package@.theme_documents();
        let mut themes: Vec<Document> = Vec::new();
        assert(spec_items(themes@) =~= wanted.subrange(0, 0));
        let mut i: usize = 0;
        while i < package.themes.len()
            invariant
                i <= package.themes.len(),
                wanted == package@.theme_documents(),
                spec_items(themes@) == wanted.subrange(0, i as int),
            decreases package.themes.len() - i,
        {
            let doc = package.themes[i].encode();
            assert(package@.themes[i as int] == package.themes@[i as int]@);
            assert(doc@ == wanted[i as int]);
            let ghost before = themes@;
            themes.push(doc);
            assert(spec_items(themes@) =~= spec_items(before).push(wanted[i as int]));
            assert(spec_items(themes@) =~= wanted.subrange(0, i + 1));
            i += 1;
        }
        assert(wanted.subrange(0, i as int) =~= wanted);
        let mut fields: Vec<(String, Document)> = Vec::new();
        assert(spec_fields(fields@) =~= Seq::empty());
        push_field(
            &mut fields,
            "$schema",
            Document::text("https://zed.dev/schema/themes/v0.2.0.json"),
        );
        push_field(&mut fields, "name", Document::Text(package.name.clone()));
        push_field(&mut fields, "author", Document::Text(package.author.clone()));
        push_field(&mut fields, "themes", Document::list(themes));
        let doc = Document::object(fields);
        assert(doc@->Object_0 =~= self@.document()->Object_0);
        doc
    }

    /// The text of the document of the package, as it goes into a theme
    /// file: pretty-printed JSON, as `serde_json` writes it for the JSON
    /// value of that document. `None` exactly where `serde_json` gives no
    /// text for that value.
    pub fn render(&self) -> (text: Option<String>)
        ensures
            spec_text(text) == spec_pretty(self@.document().tree()),
    {
        let doc = self.build();
        render(&doc)
    }
}

} // verus!
