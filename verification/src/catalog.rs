//! The catalog of loaded translations: language, topic file, key, value.

use crate::table::Table;
use vstd::prelude::*;

verus! {

/// What a key stands for, as contracts see it: a text, or a set of variants
/// that maps a bucket or gender tag to a text.
pub enum Entry {
    Text(Seq<char>),
    Variants(Map<Seq<char>, Seq<char>>),
}

/// The keys of one topic file, as contracts see them.
pub type Section = Map<Seq<char>, Entry>;

/// The topic files of one language, by name.
pub type Files = Map<Seq<char>, Section>;

/// All languages, by code.
pub type Catalog = Map<Seq<char>, Files>;

/// The value stored under a key of a topic file.
pub enum SectionValue {
    /// A plain text.
    Text(String),
    /// A set of variants, each a text under its tag.
    Variants(Table<String>),
}

impl View for SectionValue {
    type V = Entry;

    open spec fn view(&self) -> Entry {
        match self {
            SectionValue::Text(text) => Entry::Text(text@),
            SectionValue::Variants(variants) => Entry::Variants(variants@),
        }
    }
}

/// The keys of one topic file.
pub type SectionMap = Table<SectionValue>;

/// The topic files of one language.
pub type FileMap = Table<SectionMap>;

/// The languages of a catalog.
pub type LangMap = Table<FileMap>;

/// All translations that were loaded.
pub struct Translations {
    pub langs: LangMap,
}

impl View for Translations {
    type V = Catalog;

    open spec fn view(&self) -> Catalog {
        self.langs@
    }
}

/// The word that marks a catalog or a section that could not be loaded: it
/// names the language, the topic file and the key, and it is the text.
pub open spec fn error_word() -> Seq<char> {
    "error"@
}

/// The section that stands in for a topic file that no language has: one
/// key, the error word, whose text is the error word.
pub open spec fn error_section() -> Section {
    map![error_word() => Entry::Text(error_word())]
}

/// The catalog that stands in for one that could not be loaded: one language
/// with one topic file, which is the error section.
pub open spec fn degraded_catalog() -> Catalog {
    map![error_word() => map![error_word() => error_section()]]
}

/// Builds the error section.
pub fn error_section_map() -> (section: SectionMap)
    ensures
        section@ == error_section(),
{
    let mut section = SectionMap::new();
    section.insert("error".to_owned(), SectionValue::Text("error".to_owned()));
    section
}

impl Translations {
    /// Wraps a loaded catalog.
    pub fn new(langs: LangMap) -> (translations: Translations)
        ensures
            translations@ == langs@,
    {
        Translations { langs }
    }

    /// The catalog to go on with when loading failed.
    pub fn degraded() -> (translations: Translations)
        ensures
            translations@ == degraded_catalog(),
    {
        let mut files = FileMap::new();
        files.insert("error".to_owned(), error_section_map());
        let mut langs = LangMap::new();
        langs.insert("error".to_owned(), files);
        Translations { langs }
    }
}

} // verus!
