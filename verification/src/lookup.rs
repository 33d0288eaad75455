//! Lookups in the pair of sections that a topic file is bound to.

use crate::catalog::{Entry, Section, SectionMap, SectionValue};
use crate::format::{decimal, decimal_string, format_line, formatted, plural_bucket, plural_bucket_name};
use crate::text::views;
use crate::table::Table;
use vstd::prelude::*;

verus! {

/// The two sections that lookups for one topic file work on.
pub struct SectionPair {
    /// The section that is tried first.
    pub primary: Section,
    /// The section that is tried where the first has no fitting entry.
    pub fallback: Section,
}

/// The text returned where a lookup finds nothing.
pub open spec fn sentinel() -> Seq<char> {
    "Error missing text"@
}

/// The text under `key` in one section, if the key is there and holds a text.
pub open spec fn text_in(section: Section, key: Seq<char>) -> Option<Seq<char>> {
    if section.contains_key(key) {
        match section[key] {
            Entry::Text(text) => Some(text),
            Entry::Variants(_) => None,
        }
    } else {
        None
    }
}

/// The variant set under `key` in one section, if the key is there and holds
/// a variant set.
pub open spec fn variants_in(section: Section, key: Seq<char>) -> Option<Map<Seq<char>, Seq<char>>> {
    if section.contains_key(key) {
        match section[key] {
            Entry::Text(_) => None,
            Entry::Variants(variants) => Some(variants),
        }
    } else {
        None
    }
}

/// The text under `key`: from the primary section where it has one, else
/// from the fallback section.
pub open spec fn lookup_text(pair: SectionPair, key: Seq<char>) -> Option<Seq<char>> {
    match text_in(pair.primary, key) {
        Some(text) => Some(text),
        None => text_in(pair.fallback, key),
    }
}

/// The variant set under `key`: from the primary section where it has one,
/// else from the fallback section.
pub open spec fn lookup_variants(pair: SectionPair, key: Seq<char>) -> Option<
    Map<Seq<char>, Seq<char>>,
> {
    match variants_in(pair.primary, key) {
        Some(variants) => Some(variants),
        None => variants_in(pair.fallback, key),
    }
}

/// The text under `tag` in the variant set under `key`. A set that lacks the
/// tag gives nothing: no other tag and no other set is tried.
pub open spec fn lookup_variant(pair: SectionPair, key: Seq<char>, tag: Seq<char>) -> Option<
    Seq<char>,
> {
    match lookup_variants(pair, key) {
        Some(variants) => if variants.contains_key(tag) {
            Some(variants[tag])
        } else {
            None
        },
        None => None,
    }
}

/// What a plain lookup returns.
pub open spec fn text_of(pair: SectionPair, key: Seq<char>) -> Seq<char> {
    match lookup_text(pair, key) {
        Some(text) => text,
        None => sentinel(),
    }
}

/// What a lookup with arguments returns.
pub open spec fn text_with_args_of(
    pair: SectionPair,
    key: Seq<char>,
    arguments: Seq<Seq<char>>,
) -> Seq<char> {
    match lookup_text(pair, key) {
        Some(text) => formatted(text, arguments),
        None => sentinel(),
    }
}

/// What a plural lookup returns: the variant of the count's bucket, with the
/// count, in decimal, as its one argument.
pub open spec fn plural_of(pair: SectionPair, key: Seq<char>, count: nat) -> Seq<char> {
    match lookup_variant(pair, key, plural_bucket(count)) {
        Some(text) => formatted(text, seq![decimal(count)]),
        None => sentinel(),
    }
}

/// What a gender lookup returns.
pub open spec fn gender_of(pair: SectionPair, key: Seq<char>, gender: Seq<char>) -> Seq<char> {
    match lookup_variant(pair, key, gender) {
        Some(text) => text,
        None => sentinel(),
    }
}

/// What a gender lookup with arguments returns.
pub open spec fn gender_with_args_of(
    pair: SectionPair,
    key: Seq<char>,
    gender: Seq<char>,
    arguments: Seq<Seq<char>>,
) -> Seq<char> {
    match lookup_variant(pair, key, gender) {
        Some(text) => formatted(text, arguments),
        None => sentinel(),
    }
}

/// The translations of one topic file: the section to look in first, and
/// the section to fall back to.
pub struct I18nPartial<'a> {
    file_traductions: &'a SectionMap,
    fallback_traduction: &'a SectionMap,
}

impl<'a> View for I18nPartial<'a> {
    type V = SectionPair;

    closed spec fn view(&self) -> SectionPair {
        SectionPair { primary: self.file_traductions@, fallback: self.fallback_traduction@ }
    }
}

fn find_text<'a>(section: &'a SectionMap, key: &str) -> (found: Option<&'a String>)
    ensures
        found.is_some() == text_in(section@, key@).is_some(),
        found matches Some(text) ==> text_in(section@, key@) == Some(text@),
{
    match section.get(key) {
        Some(SectionValue::Text(text)) => Some(text),
        _ => None,
    }
}

fn find_variants<'a>(section: &'a SectionMap, key: &str) -> (found: Option<&'a Table<String>>)
    ensures
        found.is_some() == variants_in(section@, key@).is_some(),
        found matches Some(variants) ==> variants_in(section@, key@) == Some(variants@),
{
    match section.get(key) {
        Some(SectionValue::Variants(variants)) => Some(variants),
        _ => None,
    }
}

impl<'a> I18nPartial<'a> {
    /// Binds two sections: the one to look in first, and the fallback.
    pub fn new(
        file_traductions: &'a SectionMap,
        fallback_traduction: &'a SectionMap,
    ) -> (partial: Self)
        ensures
            partial@ == (SectionPair {
                primary: file_traductions@,
                fallback: fallback_traduction@,
            }),
    {
        I18nPartial { file_traductions, fallback_traduction }
    }

    fn text(&self, key: &str) -> (found: Option<&'a String>)
        ensures
            found.is_some() == lookup_text(self@, key@).is_some(),
            found matches Some(text) ==> lookup_text(self@, key@) == Some(text@),
    {
        match find_text(self.file_traductions, key) {
            Some(text) => Some(text),
            None => find_text(self.fallback_traduction, key),
        }
    }

    fn variant(&self, key: &str, tag: &str) -> (found: Option<&'a String>)
        ensures
            found.is_some() == lookup_variant(self@, key@, tag@).is_some(),
            found matches Some(text) ==> lookup_variant(self@, key@, tag@) == Some(text@),
    {
        let variants = match find_variants(self.file_traductions, key) {
            Some(variants) => Some(variants),
            None => find_variants(self.fallback_traduction, key),
        };
        match variants {
            Some(variants) => variants.get(tag),
            None => None,
        }
    }

    /// The text under a key, or the sentinel.
    pub fn t(&self, translation_line: &str) -> (text: String)
        ensures
            text@ == text_of(self@, translation_line@),
    {
        match self.text(translation_line) {
            Some(text) => text.clone(),
            None => "Error missing text".to_owned(),
        }
    }

    /// The text under a key with its placeholders filled by the arguments,
    /// in order; or the sentinel.
    pub fn t_with_arg(&self, translation_line: &str, arguments: &[String]) -> (text: String)
        ensures
            text@ == text_with_args_of(self@, translation_line@, views(arguments@)),
    {
        match self.text(translation_line) {
            Some(text) => format_line(text.as_str(), arguments),
            None => "Error missing text".to_owned(),
        }
    }

    /// The variant that `count` selects under a key, with the count in its
    /// first placeholder; or the sentinel.
    pub fn t_with_plurial(&self, translation_line: &str, count: usize) -> (text: String)
        ensures
            text@ == plural_of(self@, translation_line@, count as nat),
    {
        match self.variant(translation_line, plural_bucket_name(count)) {
            Some(text) => {
                let arguments = vec![decimal_string(count)];
                assert(views(arguments@) =~= seq![decimal(count as nat)]);
                format_line(text.as_str(), arguments.as_slice())
            },
            None => "Error missing text".to_owned(),
        }
    }

    /// The variant under a gender tag, or the sentinel.
    pub fn t_with_gender(&self, translation_line: &str, gender: &str) -> (text: String)
        ensures
            text@ == gender_of(self@, translation_line@, gender@),
    {
        match self.variant(translation_line, gender) {
            Some(text) => text.clone(),
            None => "Error missing text".to_owned(),
        }
    }

    /// The variant under a gender tag with its placeholders filled by the
    /// arguments, in order; or the sentinel.
    pub fn t_with_gender_and_arg(
        &self,
        translation_line: &str,
        gender: &str,
        arguments: &[String],
    ) -> (text: String)
        ensures
            text@ == gender_with_args_of(self@, translation_line@, gender@, views(arguments@)),
    {
        match self.variant(translation_line, gender) {
            Some(text) => format_line(text.as_str(), arguments),
            None => "Error missing text".to_owned(),
        }
    }
}

} // verus!
