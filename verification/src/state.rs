//! The language state: the catalog, the current and the fallback language,
//! and the binding of a topic file to the pair of sections that lookups use.

use crate::catalog::{
    degraded_catalog, error_section, error_section_map, error_word, Catalog, Files, LangMap,
    Section, SectionMap, Translations,
};
use crate::lookup::{I18nPartial, SectionPair};
use crate::text::{is_listed, views};
use vstd::prelude::*;

verus! {

/// The language state as contracts see it.
pub struct LanguageState {
    /// The loaded translations.
    pub catalog: Catalog,
    /// The code of the language that lookups try first.
    pub current: Seq<char>,
    /// The code of the language that lookups fall back to.
    pub fallback: Seq<char>,
    /// The language codes that a switch accepts.
    pub locales: Seq<Seq<char>>,
}

/// Why a topic file could not be bound.
#[derive(Clone, Copy, Debug, PartialEq, Eq, Structural)]
pub enum I18nError {
    /// The catalog has no entry for the current language.
    LanguageNotFound,
    /// The catalog has no entry for the fallback language.
    FallbackLanguageNotFound,
}

/// The language that a state starts with, as current and as fallback,
/// where a catalog was loaded.
pub open spec fn default_language() -> Seq<char> {
    "en"@
}

/// The language that a new state starts with, as current and as fallback:
/// the default language with a loaded catalog, and the one language of the
/// degraded catalog without.
pub open spec fn starting_language(loaded: bool) -> Seq<char> {
    if loaded {
        default_language()
    } else {
        error_word()
    }
}

/// The section of the fallback language for `file`; the error section where
/// that language has no such file.
pub open spec fn fallback_section(files: Files, file: Seq<char>) -> Section {
    if files.contains_key(file) {
        files[file]
    } else {
        error_section()
    }
}

/// The pair of sections that `file` is bound to: the current language's
/// section first, or the fallback section in its place where the current
/// language has no such file; then the fallback section.
pub open spec fn resolved(state: LanguageState, file: Seq<char>) -> SectionPair {
    let fallback = fallback_section(state.catalog[state.fallback], file);
    let current = state.catalog[state.current];
    SectionPair {
        primary: if current.contains_key(file) {
            current[file]
        } else {
            fallback
        },
        fallback,
    }
}

/// The state after a request to make `locale` the current language: granted
/// where `locale` is among the accepted codes, ignored otherwise.
pub open spec fn with_current(state: LanguageState, locale: Seq<char>) -> LanguageState {
    if state.locales.contains(locale) {
        LanguageState { current: locale, ..state }
    } else {
        state
    }
}

/// The state after a request to make `locale` the fallback language.
pub open spec fn with_fallback(state: LanguageState, locale: Seq<char>) -> LanguageState {
    if state.locales.contains(locale) {
        LanguageState { fallback: locale, ..state }
    } else {
        state
    }
}

/// Translations and language settings.
pub struct I18n {
    translations: Translations,
    current_lang: String,
    locale_folders_list: Vec<String>,
    fallback_lang: String,
    missing_section: SectionMap,
}

impl View for I18n {
    type V = LanguageState;

    closed spec fn view(&self) -> LanguageState {
        LanguageState {
            catalog: self.translations@,
            current: self.current_lang@,
            fallback: self.fallback_lang@,
            locales: views(self.locale_folders_list@),
        }
    }
}

impl I18n {
    #[verifier::type_invariant]
    spec fn well_formed(self) -> bool {
        self.missing_section@ == error_section()
    }

    /// Assembles the state from what the loader brought: the catalog, or
    /// `None` where loading failed, and the language codes it found, or
    /// `None` where listing them failed. Without a catalog the degraded one
    /// takes its place; without a list no switch is accepted. With a loaded
    /// catalog, current and fallback language start as the default language.
    /// With the degraded catalog they start as its one language, so that
    /// every topic file can be bound.
    pub fn initialize(loaded: Option<LangMap>, folders: Option<Vec<String>>) -> (state: I18n)
        ensures
            state@.catalog == (match loaded {
                Some(langs) => langs@,
                None => degraded_catalog(),
            }),
            state@.locales == (match folders {
                Some(list) => views(list@),
                None => Seq::empty(),
            }),
            state@.current == starting_language(loaded is Some),
            state@.fallback == starting_language(loaded is Some),
            loaded is None ==> state@.catalog.contains_key(state@.current)
                && state@.catalog.contains_key(state@.fallback),
    {
        let start = match loaded {
            Some(_) => "en",
            None => "error",
        };
        let translations = match loaded {
            Some(langs) => Translations::new(langs),
            None => Translations::degraded(),
        };
        let locale_folders_list = match folders {
            Some(list) => list,
            None => Vec::new(),
        };
        assert(views(locale_folders_list@) =~= (match folders {
            Some(list) => views(list@),
            None => Seq::empty(),
        }));
        I18n {
            translations,
            current_lang: start.to_owned(),
            locale_folders_list,
            fallback_lang: start.to_owned(),
            missing_section: error_section_map(),
        }
    }

    /// Binds a topic file to the pair of sections that lookups work on.
    /// Fails where the catalog lacks the current language, and, with the
    /// current language present, where it lacks the fallback language.
    pub fn translation(&self, translation_file: &str) -> (bound: Result<I18nPartial<'_>, I18nError>)
        ensures
            match bound {
                Ok(partial) => {
                    &&& self@.catalog.contains_key(self@.current)
                    &&& self@.catalog.contains_key(self@.fallback)
                    &&& partial@ == resolved(self@, translation_file@)
                },
                Err(I18nError::LanguageNotFound) => !self@.catalog.contains_key(self@.current),
                Err(I18nError::FallbackLanguageNotFound) => {
                    &&& self@.catalog.contains_key(self@.current)
                    &&& !self@.catalog.contains_key(self@.fallback)
                },
            },
    {
        proof {
            use_type_invariant(self);
        }
        let lang_traduction = match self.translations.langs.get(self.current_lang.as_str()) {
            Some(files) => files,
            None => {
                return Err(I18nError::LanguageNotFound);
            },
        };
        let fallback_lang_traduction = match self.translations.langs.get(
            self.fallback_lang.as_str(),
        ) {
            Some(files) => files,
            None => {
                return Err(I18nError::FallbackLanguageNotFound);
            },
        };
        let fallback_section_file = match fallback_lang_traduction.get(translation_file) {
            Some(section) => section,
            None => &self.missing_section,
        };
        let final_section_file = match lang_traduction.get(translation_file) {
            Some(section) => section,
            None => fallback_section_file,
        };
        Ok(I18nPartial::new(final_section_file, fallback_section_file))
    }

    /// Makes `locale` the current language if it is among the accepted
    /// codes; leaves the state as it is otherwise.
    pub fn set_lang(&mut self, locale: &str)
        ensures
            final(self)@ == with_current(old(self)@, locale@),
    {
        proof {
            use_type_invariant(&*self);
        }
        let code = locale.to_owned();
        if !is_listed(&self.locale_folders_list, &code) {
            return ;
        }
        self.current_lang = code;
    }

    /// Makes `locale` the fallback language if it is among the accepted
    /// codes; leaves the state as it is otherwise.
    pub fn set_fallback_lang(&mut self, locale: &str)
        ensures
            final(self)@ == with_fallback(old(self)@, locale@),
    {
        proof {
            use_type_invariant(&*self);
        }
        let code = locale.to_owned();
        if !is_listed(&self.locale_folders_list, &code) {
            return ;
        }
        self.fallback_lang = code;
    }

    /// Whether a switch to `locale` would be granted.
    pub fn accepts(&self, locale: &str) -> (accepted: bool)
        ensures
            accepted == self@.locales.contains(locale@),
    {
        is_listed(&self.locale_folders_list, &locale.to_owned())
    }

    /// The loaded translations.
    pub fn translations(&self) -> (translations: &Translations)
        ensures
            translations@ == self@.catalog,
    {
        &self.translations
    }

    /// The language codes that a switch accepts.
    pub fn locales(&self) -> (locales: &Vec<String>)
        ensures
            views(locales@) == self@.locales,
    {
        &self.locale_folders_list
    }

    /// The code of the current language.
    pub fn get_lang(&self) -> (code: String)
        ensures
            code@ == self@.current,
    {
        self.current_lang.clone()
    }

    /// The code of the fallback language.
    pub fn get_fallback_lang(&self) -> (code: String)
        ensures
            code@ == self@.fallback,
    {
        self.fallback_lang.clone()
    }
}

} // verus!
