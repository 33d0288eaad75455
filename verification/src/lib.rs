//! Translation lookup for applications that speak several languages.
//!
//! A catalog maps a language code to its topic files, a topic file to its
//! keys, and a key to a text or to a set of variants (plural buckets, gender
//! tags). A lookup goes to the current language first and falls back to a
//! second language, file by file and key by key. Texts may hold `{{name}}`
//! placeholders, which are filled by position.

pub mod catalog;
pub mod format;
pub mod ingest;
pub mod laws;
pub mod lookup;
pub mod split;
pub mod state;
pub mod table;
pub mod text;

pub use catalog::{FileMap, LangMap, SectionMap, SectionValue, Translations};
pub use lookup::I18nPartial;
pub use state::{I18n, I18nError};
pub use table::Table;
